//! Key matching helpers and the descriptions of keyboard shortcuts shown to users.

use vstd::prelude::*;
use crate::input::key::{KeyCode, KeyEvent};

verus! {

/// A shortcut as listed to the user.
#[derive(Debug, Clone)]
pub struct ShortcutDisplay {
    pub id: &'static str,
    pub keys: &'static str,
    pub action: &'static str,
}

/// A titled group of shortcuts.
#[derive(Debug, Clone)]
pub struct ShortcutSection {
    pub title: &'static str,
    pub items: Vec<ShortcutDisplay>,
}

/// Whether `key` types the character `expected`, whatever the modifiers.
pub fn char_key(key: KeyEvent, expected: char) -> (r: bool)
    ensures
        r == (key.code == KeyCode::Char(expected)),
{
    match key.code {
        KeyCode::Char(value) => value == expected,
        _ => false,
    }
}

/// Whether `key` types `expected` without Control or Alt.
pub fn plain_char(key: KeyEvent, expected: char) -> (r: bool)
    ensures
        r == (key.code == KeyCode::Char(expected) && !key.modifiers.control
            && !key.modifiers.alt),
{
    char_key(key, expected) && !key.modifiers.control && !key.modifiers.alt
}

/// Whether `key` types `expected` with Control held.
pub fn ctrl_char(key: KeyEvent, expected: char) -> (r: bool)
    ensures
        r == (key.code == KeyCode::Char(expected) && key.modifiers.control),
{
    char_key(key, expected) && key.modifiers.control
}

/// Whether `key` types `expected` with Shift held.
pub fn shifted_char(key: KeyEvent, expected: char) -> (r: bool)
    ensures
        r == (key.code == KeyCode::Char(expected) && key.modifiers.shift),
{
    char_key(key, expected) && key.modifiers.shift
}

/// The listing of a shortcut.
pub fn display(id: &'static str, keys: &'static str, action: &'static str) -> (r: ShortcutDisplay)
    ensures
        r.id == id,
        r.keys == keys,
        r.action == action,
{
    ShortcutDisplay { id, keys, action }
}

} // verus!
