//! Key handling of a login form: focus moves between fields, a submit
//! button, and the field inputs.

use vstd::prelude::*;
use vstd::std_specs::cmp::PartialEqSpec;
use crate::input::{TextInputState, is_edit_key, is_insert_key, key_edit};
use crate::input::key::{KeyCode, KeyEvent};

verus! {

/// What a key did to the login form.
#[derive(Debug, Clone, Copy, PartialEq, Eq, Structural)]
pub enum LoginKeyOutcome {
    /// The key did nothing.
    Ignored,
    Edited,
    FocusChanged,
    Submit,
    SavedLogin,
    TogglePassword,
    Quit,
}

/// Options of the login form's key handling.
#[derive(Debug, Clone, Copy, PartialEq, Eq, Structural)]
pub struct LoginKeyBindings {
    /// Whether Enter on the password field submits.
    pub submit_on_password: bool,
}

impl Default for LoginKeyBindings {
    fn default() -> (r: Self)
        ensures
            r.submit_on_password,
    {
        LoginKeyBindings { submit_on_password: true }
    }
}

/// The key classes of the login form, in the order in which they are tested.
#[derive(Debug, Clone, Copy, PartialEq, Eq, Structural)]
pub enum LoginKeyClass {
    Quit,
    Next,
    Previous,
    TogglePassword,
    SavedLogin,
    Enter,
    Field,
}

/// The class of `key`: Esc quits; Tab moves on (back with Shift); BackTab and
/// Up move back; Down moves on; Alt+V toggles the password; Control+L uses
/// the saved login; Enter submits or moves on; anything else goes to the field.
pub open spec fn login_key_class(key: KeyEvent) -> LoginKeyClass {
    match key.code {
        KeyCode::Esc => LoginKeyClass::Quit,
        KeyCode::Tab => if key.modifiers.shift {
            LoginKeyClass::Previous
        } else {
            LoginKeyClass::Next
        },
        KeyCode::BackTab | KeyCode::Up => LoginKeyClass::Previous,
        KeyCode::Down => LoginKeyClass::Next,
        KeyCode::Char(c) => if (c == 'v' || c == 'V') && key.modifiers.alt {
            LoginKeyClass::TogglePassword
        } else if (c == 'l' || c == 'L') && key.modifiers.control {
            LoginKeyClass::SavedLogin
        } else {
            LoginKeyClass::Field
        },
        KeyCode::Enter => LoginKeyClass::Enter,
        _ => LoginKeyClass::Field,
    }
}

/// Whether Enter submits from focus `focus`.
pub open spec fn enter_submits<F: PartialEq>(
    focus: F,
    password_focus: F,
    submit_focus: F,
    bindings: LoginKeyBindings,
) -> bool {
    focus.eq_spec(&submit_focus) || (bindings.submit_on_password && focus.eq_spec(&password_focus))
}

/// What `key` does to the focus (`old_focus` becomes `new_focus`) and which
/// outcome `r` it reports, for a form whose input is present when `has_input`.
pub open spec fn login_key_effect<F: PartialEq, Next: Fn(F) -> F, Prev: Fn(F) -> F>(
    key: KeyEvent,
    old_focus: F,
    new_focus: F,
    r: LoginKeyOutcome,
    password_focus: F,
    submit_focus: F,
    has_input: bool,
    next_focus: Next,
    prev_focus: Prev,
    bindings: LoginKeyBindings,
) -> bool {
    let at_submit = old_focus.eq_spec(&submit_focus);
    match login_key_class(key) {
        LoginKeyClass::Quit => r == LoginKeyOutcome::Quit && new_focus == old_focus,
        LoginKeyClass::Next => r == LoginKeyOutcome::FocusChanged && call_ensures(
            next_focus,
            (old_focus,),
            new_focus,
        ),
        LoginKeyClass::Previous => r == LoginKeyOutcome::FocusChanged && call_ensures(
            prev_focus,
            (old_focus,),
            new_focus,
        ),
        LoginKeyClass::TogglePassword => r == LoginKeyOutcome::TogglePassword && new_focus
            == old_focus,
        LoginKeyClass::SavedLogin => r == LoginKeyOutcome::SavedLogin && new_focus == old_focus,
        LoginKeyClass::Enter => if enter_submits(old_focus, password_focus, submit_focus, bindings) {
            r == LoginKeyOutcome::Submit && new_focus == old_focus
        } else {
            r == LoginKeyOutcome::FocusChanged && call_ensures(next_focus, (old_focus,), new_focus)
        },
        LoginKeyClass::Field => new_focus == old_focus && r == if !at_submit && has_input
            && is_edit_key(key) {
            LoginKeyOutcome::Edited
        } else {
            LoginKeyOutcome::Ignored
        },
    }
}

fn class_of(key: KeyEvent) -> (r: LoginKeyClass)
    ensures
        r == login_key_class(key),
{
    match key.code {
        KeyCode::Esc => LoginKeyClass::Quit,
        KeyCode::Tab => if key.modifiers.shift {
            LoginKeyClass::Previous
        } else {
            LoginKeyClass::Next
        },
        KeyCode::BackTab | KeyCode::Up => LoginKeyClass::Previous,
        KeyCode::Down => LoginKeyClass::Next,
        KeyCode::Char(c) => if (c == 'v' || c == 'V') && key.modifiers.alt {
            LoginKeyClass::TogglePassword
        } else if (c == 'l' || c == 'L') && key.modifiers.control {
            LoginKeyClass::SavedLogin
        } else {
            LoginKeyClass::Field
        },
        KeyCode::Enter => LoginKeyClass::Enter,
        _ => LoginKeyClass::Field,
    }
}

/// Applies `key` to a login form whose focus is `*focus`.
///
/// Focus moves with `next_focus` and `prev_focus`. Enter submits from the
/// submit button, and from the password field when `bindings` says so; elsewhere
/// it moves on. Keys for the fields go to `current_input`, the input of the
/// focused field, except while the submit button has the focus.
pub fn handle_login_key<F, Next, Prev>(
    key: KeyEvent,
    focus: &mut F,
    password_focus: F,
    submit_focus: F,
    current_input: Option<&mut TextInputState>,
    next_focus: Next,
    prev_focus: Prev,
    bindings: LoginKeyBindings,
) -> (r: LoginKeyOutcome) where F: Copy + PartialEq, Next: Fn(F) -> F, Prev: Fn(F) -> F
    requires
        F::obeys_eq_spec(),
        forall|f: F| call_requires(next_focus, (f,)),
        forall|f: F| call_requires(prev_focus, (f,)),
        current_input matches Some(input) ==> (is_insert_key(key) ==> input.cursor < usize::MAX),
    ensures
        login_key_effect(
            key,
            *old(focus),
            *final(focus),
            r,
            password_focus,
            submit_focus,
            current_input is Some,
            next_focus,
            prev_focus,
            bindings,
        ),
        current_input matches Some(input) ==> if login_key_class(key) == LoginKeyClass::Field
            && !(*old(focus)).eq_spec(&submit_focus) {
            key_edit(*input, *final(input), key)
        } else {
            *final(input) == *input
        },
{
    let class = class_of(key);
    match class {
        LoginKeyClass::Quit => {
            return LoginKeyOutcome::Quit;
        },
        LoginKeyClass::Next => {
            *focus = next_focus(*focus);
            return LoginKeyOutcome::FocusChanged;
        },
        LoginKeyClass::Previous => {
            *focus = prev_focus(*focus);
            return LoginKeyOutcome::FocusChanged;
        },
        LoginKeyClass::TogglePassword => {
            return LoginKeyOutcome::TogglePassword;
        },
        LoginKeyClass::SavedLogin => {
            return LoginKeyOutcome::SavedLogin;
        },
        LoginKeyClass::Enter => {
            if *focus == submit_focus || (bindings.submit_on_password && *focus == password_focus) {
                return LoginKeyOutcome::Submit;
            }
            *focus = next_focus(*focus);
            return LoginKeyOutcome::FocusChanged;
        },
        LoginKeyClass::Field => {},
    }
    if *focus == submit_focus {
        return LoginKeyOutcome::Ignored;
    }
    if let Some(input) = current_input {
        if input.handle_key(key) {
            return LoginKeyOutcome::Edited;
        }
    }
    LoginKeyOutcome::Ignored
}

/// The keys that the login form's footer lists: Tab and Shift+Tab, Down and
/// Up move between fields, Enter submits (or moves on), Alt+V shows the
/// password and Esc quits, whatever other modifiers are held.
pub proof fn law_listed_login_keys(m: crate::input::key::KeyModifiers)
    ensures
        login_key_class((KeyEvent { code: KeyCode::Esc, modifiers: m })) == LoginKeyClass::Quit,
        login_key_class((KeyEvent { code: KeyCode::Tab, modifiers: m })) == if m.shift {
            LoginKeyClass::Previous
        } else {
            LoginKeyClass::Next
        },
        login_key_class((KeyEvent { code: KeyCode::Up, modifiers: m })) == LoginKeyClass::Previous,
        login_key_class((KeyEvent { code: KeyCode::BackTab, modifiers: m }))
            == LoginKeyClass::Previous,
        login_key_class((KeyEvent { code: KeyCode::Down, modifiers: m })) == LoginKeyClass::Next,
        login_key_class((KeyEvent { code: KeyCode::Enter, modifiers: m })) == LoginKeyClass::Enter,
        m.alt ==> login_key_class((KeyEvent { code: KeyCode::Char('v'), modifiers: m }))
            == LoginKeyClass::TogglePassword,
        m.alt ==> login_key_class((KeyEvent { code: KeyCode::Char('V'), modifiers: m }))
            == LoginKeyClass::TogglePassword,
        m.control && !m.alt ==> login_key_class((KeyEvent { code: KeyCode::Char('l'), modifiers: m }))
            == LoginKeyClass::SavedLogin,
{
}

/// What each key of the login form does, stated over the key itself: Esc
/// quits; Tab moves on and Shift+Tab, BackTab and Up move back; Down moves on;
/// Alt+V toggles the password; Control+L uses the saved login; Enter submits
/// from the submit button (and from the password field when the bindings say
/// so), else moves on. Every other key leaves the focus and edits the focused
/// field when there is one and the submit button does not have the focus.
pub proof fn law_login_key_effects<F: PartialEq, Next: Fn(F) -> F, Prev: Fn(F) -> F>(
    key: KeyEvent,
    old_focus: F,
    new_focus: F,
    r: LoginKeyOutcome,
    password_focus: F,
    submit_focus: F,
    has_input: bool,
    next_focus: Next,
    prev_focus: Prev,
    bindings: LoginKeyBindings,
)
    requires
        login_key_effect(
            key,
            old_focus,
            new_focus,
            r,
            password_focus,
            submit_focus,
            has_input,
            next_focus,
            prev_focus,
            bindings,
        ),
    ensures
        ({
            let moved_on = r == LoginKeyOutcome::FocusChanged && call_ensures(
                next_focus,
                (old_focus,),
                new_focus,
            );
            let moved_back = r == LoginKeyOutcome::FocusChanged && call_ensures(
                prev_focus,
                (old_focus,),
                new_focus,
            );
            let is_v = key.code == KeyCode::Char('v') || key.code == KeyCode::Char('V');
            let is_l = key.code == KeyCode::Char('l') || key.code == KeyCode::Char('L');
            let special = key.code == KeyCode::Esc || key.code == KeyCode::Tab || key.code
                == KeyCode::BackTab || key.code == KeyCode::Up || key.code == KeyCode::Down
                || key.code == KeyCode::Enter || (is_v && key.modifiers.alt) || (is_l
                && key.modifiers.control);
            &&& key.code == KeyCode::Esc ==> r == LoginKeyOutcome::Quit && new_focus == old_focus
            &&& key.code == KeyCode::Tab && !key.modifiers.shift ==> moved_on
            &&& key.code == KeyCode::Tab && key.modifiers.shift ==> moved_back
            &&& key.code == KeyCode::BackTab ==> moved_back
            &&& key.code == KeyCode::Up ==> moved_back
            &&& key.code == KeyCode::Down ==> moved_on
            &&& is_v && key.modifiers.alt ==> r == LoginKeyOutcome::TogglePassword && new_focus
                == old_focus
            &&& is_l && key.modifiers.control && !(is_v && key.modifiers.alt) ==> r
                == LoginKeyOutcome::SavedLogin && new_focus == old_focus
            &&& key.code == KeyCode::Enter ==> if old_focus.eq_spec(&submit_focus) || (
            bindings.submit_on_password && old_focus.eq_spec(&password_focus)) {
                r == LoginKeyOutcome::Submit && new_focus == old_focus
            } else {
                moved_on
            }
            &&& !special ==> new_focus == old_focus && (r == LoginKeyOutcome::Edited || r
                == LoginKeyOutcome::Ignored)
            &&& !special ==> (r == LoginKeyOutcome::Edited <==> (!old_focus.eq_spec(&submit_focus)
                && has_input && is_edit_key(key)))
            &&& !special <==> login_key_class(key) == LoginKeyClass::Field
        }),
{
}

} // verus!
