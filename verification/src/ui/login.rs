//! The login modal's content and size.

use vstd::prelude::*;
use crate::strings::{pad_right, pad_right_string, push_char};

verus! {

/// One field of the login modal as shown.
#[derive(Debug, Clone)]
pub struct LoginFieldView<'a> {
    pub label: &'a str,
    pub value: &'a str,
    pub placeholder: &'a str,
    pub focused: bool,
    pub masked: bool,
}

/// The login modal: its text, fields, state flags and size bounds.
#[derive(Debug, Clone)]
pub struct LoginModal<'a> {
    pub title: &'a str,
    pub help_lines: Vec<&'a str>,
    pub fields: Vec<LoginFieldView<'a>>,
    pub submit_focused: bool,
    pub saved_account: Option<String>,
    pub error: Option<&'a str>,
    pub warning: Option<&'a str>,
    pub busy: bool,
    pub busy_label: &'a str,
    pub submit_label: &'a str,
    pub footer: &'a str,
    pub width: u16,
    pub min_height: u16,
}

/// `n` doubled, saturating at the largest `usize`, as a 16-bit count (the low 16 bits).
pub open spec fn doubled_u16(n: usize) -> u16 {
    (if 2 * n <= usize::MAX {
        2 * n
    } else {
        usize::MAX as int
    }) as u16
}

/// The lines the modal needs: borders and margins, help text, two lines per
/// field, the optional saved-account, error and warning lines, the submit
/// line and the footer.
pub open spec fn content_height(m: LoginModal) -> int {
    4 + (m.help_lines@.len() as u16) + doubled_u16(m.fields@.len() as usize) + (if m.saved_account
        is Some {
        1int
    } else {
        0
    }) + (if m.error is Some {
        1int
    } else {
        0
    }) + (if m.warning is Some {
        1int
    } else {
        0
    }) + 3
}

impl<'a> LoginModal<'a> {
    /// An empty modal titled `title`, 72 columns wide and at least 16 lines high.
    pub fn new(title: &'a str) -> (r: Self)
        ensures
            r.title == title,
            r.help_lines@.len() == 0,
            r.fields@.len() == 0,
            !r.submit_focused,
            r.saved_account is None,
            r.error is None,
            r.warning is None,
            !r.busy,
            r.busy_label == "Working…",
            r.submit_label == "Submit",
            r.footer == "Tab/Shift+Tab or ↑/↓ fields · Enter submit · Alt+V show password · Esc quit",
            r.width == 72,
            r.min_height == 16,
    {
        LoginModal {
            title,
            help_lines: Vec::new(),
            fields: Vec::new(),
            submit_focused: false,
            saved_account: None,
            error: None,
            warning: None,
            busy: false,
            busy_label: "Working…",
            submit_label: "Submit",
            footer: "Tab/Shift+Tab or ↑/↓ fields · Enter submit · Alt+V show password · Esc quit",
            width: 72,
            min_height: 16,
        }
    }

    /// The modal's height in an area `area_height` lines high: what its
    /// content needs, at least `min_height`, at most the area.
    pub fn height_in(&self, area_height: u16) -> (h: u16)
        requires
            content_height(*self) <= u16::MAX,
        ensures
            ({
                let wanted = if self.min_height >= content_height(*self) {
                    self.min_height as int
                } else {
                    content_height(*self)
                };
                h == if wanted <= area_height {
                    wanted
                } else {
                    area_height as int
                }
            }),
    {
        let n = self.fields.len();
        let doubled: usize = if n <= usize::MAX / 2 {
            2 * n
        } else {
            usize::MAX
        };
        #[verifier::truncate]
        let help = self.help_lines.len() as u16;
        #[verifier::truncate]
        let field_lines = doubled as u16;
        let saved: u16 = if self.saved_account.is_some() {
            1
        } else {
            0
        };
        let error: u16 = if self.error.is_some() {
            1
        } else {
            0
        };
        let warning: u16 = if self.warning.is_some() {
            1
        } else {
            0
        };
        let dynamic = 4 + help + field_lines + saved + error + warning + 3;
        let wanted = if self.min_height >= dynamic {
            self.min_height
        } else {
            dynamic
        };
        if wanted <= area_height {
            wanted
        } else {
            area_height
        }
    }

    /// The modal's width in an area `area_width` columns wide.
    pub fn width_in(&self, area_width: u16) -> (w: u16)
        ensures
            w == if self.width <= area_width {
                self.width
            } else {
                area_width
            },
    {
        if self.width <= area_width {
            self.width
        } else {
            area_width
        }
    }

    /// The text of the submit button: the busy label while busy, else the
    /// submit label, framed as `  [ label ]  `.
    pub fn submit_text(&self) -> (r: String)
        ensures
            r@ == seq![' ', ' ', '[', ' '] + (if self.busy {
                self.busy_label@
            } else {
                self.submit_label@
            }) + seq![' ', ']', ' ', ' '],
    {
        let mut r = String::new();
        push_char(&mut r, ' ');
        push_char(&mut r, ' ');
        push_char(&mut r, '[');
        push_char(&mut r, ' ');
        r.append(if self.busy {
            self.busy_label
        } else {
            self.submit_label
        });
        push_char(&mut r, ' ');
        push_char(&mut r, ']');
        push_char(&mut r, ' ');
        push_char(&mut r, ' ');
        r
    }
}

/// The label column of a login field: the label padded to 12 characters.
pub fn field_label_column(label: &str) -> (r: String)
    ensures
        r@ == pad_right(label@, 12),
{
    pad_right_string(label, 12)
}

} // verus!
