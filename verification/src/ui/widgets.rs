//! Text of small widgets: filter chips, login field lines and centered
//! messages.

use vstd::prelude::*;
use crate::strings::{char_count, push_char, repeat_char, repeat_string};
use crate::ui::text::{truncate_text, truncated};
use crate::ui::width::{display_width, str_width};

verus! {

/// The text of a filter chip: the label with a space on each side.
pub fn filter_chip_text(label: &str) -> (r: String)
    ensures
        r@ == seq![' '] + label@ + seq![' '],
{
    let mut r = String::new();
    push_char(&mut r, ' ');
    r.append(label);
    push_char(&mut r, ' ');
    r
}

/// The value shown in a login field: the placeholder while the value is
/// empty, one `*` per character when masked, else the value.
pub open spec fn field_shown(value: Seq<char>, placeholder: Seq<char>, mask: bool) -> Seq<char> {
    if value.len() == 0 {
        placeholder
    } else if mask {
        repeat_char('*', value.len())
    } else {
        value
    }
}

/// The value shown in a login field.
pub fn field_value_text(value: &str, placeholder: &str, mask: bool) -> (r: String)
    ensures
        r@ == field_shown(value@, placeholder@, mask),
{
    let n = char_count(value);
    if n == 0 {
        String::from_str(placeholder)
    } else if mask {
        repeat_string('*', n)
    } else {
        String::from_str(value)
    }
}

/// The label part of a login field line: a `> ` focus mark or two spaces,
/// the label, and `: `.
pub fn login_field_label(label: &str, focused: bool) -> (r: String)
    ensures
        r@ == (if focused {
            seq!['>', ' ']
        } else {
            seq![' ', ' ']
        }) + label@ + seq![':', ' '],
{
    let mut r = String::new();
    push_char(&mut r, if focused {
        '>'
    } else {
        ' '
    });
    push_char(&mut r, ' ');
    r.append(label);
    push_char(&mut r, ':');
    push_char(&mut r, ' ');
    r
}

/// The lines of a message centered in a box `height` lines high and `width`
/// columns wide: blank lines down to the middle line, then the message
/// truncated to the width and shifted right by half the unused columns.
/// A box without lines or columns shows nothing.
pub fn centered_message_text(message: &str, height: u16, width: u16) -> (lines: Vec<String>)
    ensures
        height == 0 || width == 0 ==> lines@.len() == 0,
        height > 0 && width > 0 ==> {
            let top = (height - 1) / 2;
            let pad = if display_width(message@) < width {
                (width - display_width(message@)) / 2
            } else {
                0
            };
            &&& lines@.len() == top + 1
            &&& forall|j: int| 0 <= j < top ==> (#[trigger] lines@[j])@.len() == 0
            &&& lines@[top as int]@ == repeat_char(' ', pad as nat) + truncated(
                message@,
                width as nat,
            )
        },
{
    let mut lines: Vec<String> = Vec::new();
    if height == 0 || width == 0 {
        return lines;
    }
    let top = ((height - 1) / 2) as usize;
    let mut j: usize = 0;
    while j < top
        invariant
            j <= top,
            lines@.len() == j,
            forall|k: int| 0 <= k < j ==> (#[trigger] lines@[k])@.len() == 0,
        decreases top - j,
    {
        lines.push(String::new());
        j = j + 1;
    }
    let message_width = str_width(message);
    let w = width as usize;
    let pad = if message_width < w {
        (w - message_width) / 2
    } else {
        0
    };
    let mut line = repeat_string(' ', pad);
    let shown = truncate_text(message, w);
    line.append(shown.as_str());
    lines.push(line);
    lines
}

} // verus!
