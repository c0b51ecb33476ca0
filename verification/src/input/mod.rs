//! Single-line text input with a character cursor, and the key handling of
//! the search and login modals built on it.

pub mod key;
pub mod login;
pub mod search;

use vstd::prelude::*;
use crate::strings::{char_count, is_white_space, is_whitespace_char, push_char, repeat_char,
    repeat_string, substring};
use crate::input::key::{KeyCode, KeyEvent};

verus! {

/// Where an edit at `cursor` takes place in a text of `len` characters: the
/// cursor itself, or the end of the text when the cursor lies past it.
pub open spec fn edit_pos(len: nat, cursor: usize) -> int {
    if cursor < len {
        cursor as int
    } else {
        len as int
    }
}

/// The index at the start of the white space run that ends at `i`.
pub open spec fn skip_space_back(s: Seq<char>, i: int) -> int
    decreases i,
{
    if 0 < i <= s.len() && is_white_space(s[i - 1]) {
        skip_space_back(s, i - 1)
    } else {
        i
    }
}

/// The index at the start of the run of non-white-space characters that ends at `i`.
pub open spec fn skip_word_back(s: Seq<char>, i: int) -> int
    decreases i,
{
    if 0 < i <= s.len() && !is_white_space(s[i - 1]) {
        skip_word_back(s, i - 1)
    } else {
        i
    }
}

/// Where the word before position `i` starts: white space right before `i`
/// is skipped, then the word in front of it.
pub open spec fn word_start_before(s: Seq<char>, i: int) -> int {
    skip_word_back(s, skip_space_back(s, i))
}

/// A single-line text input. The cursor counts characters, not bytes, and may
/// be set past the end of the text; edits then act at the end.
#[derive(Debug, Clone, PartialEq, Eq)]
pub struct TextInputState {
    pub value: String,
    /// Cursor position in characters, not bytes.
    pub cursor: usize,
    pub mask: bool,
}

/// `new` is `old` with `ch` inserted at the cursor and the cursor one step right.
pub open spec fn inserted(old: TextInputState, new: TextInputState, ch: char) -> bool {
    &&& new.value@ == old.value@.insert(edit_pos(old.value@.len(), old.cursor), ch)
    &&& new.cursor == old.cursor + 1
    &&& new.mask == old.mask
}

/// `new` is `old` after Backspace: the character before the cursor removed
/// and the cursor one step left; nothing changes at the start.
pub open spec fn backspaced(old: TextInputState, new: TextInputState) -> bool {
    &&& old.cursor == 0 ==> new == old
    &&& old.cursor > 0 ==> {
        &&& new.cursor == old.cursor - 1
        &&& new.value@ == if old.cursor - 1 < old.value@.len() {
            old.value@.remove(old.cursor - 1)
        } else {
            old.value@
        }
    }
    &&& new.mask == old.mask
}

/// `new` is `old` after Delete: the character under the cursor removed.
pub open spec fn deleted(old: TextInputState, new: TextInputState) -> bool {
    &&& old.cursor >= old.value@.len() ==> new == old
    &&& old.cursor < old.value@.len() ==> new.value@ == old.value@.remove(old.cursor as int)
    &&& new.cursor == old.cursor
    &&& new.mask == old.mask
}

/// `new` is `old` with the word before the cursor, and the white space
/// between it and the cursor, removed; the cursor is where the word began.
pub open spec fn word_deleted(old: TextInputState, new: TextInputState) -> bool {
    let s = old.value@;
    let p = edit_pos(s.len(), old.cursor);
    let k = word_start_before(s, p);
    &&& 0 <= k <= p
    &&& new.value@ == s.subrange(0, k) + s.subrange(p, s.len() as int)
    &&& new.cursor == k
    &&& new.mask == old.mask
}

/// `new` is `old` with only the cursor moved, to `cursor`.
pub open spec fn moved_to(old: TextInputState, new: TextInputState, cursor: int) -> bool {
    &&& new.cursor == cursor
    &&& new.value == old.value
    &&& new.mask == old.mask
}

/// The cursor one step left, stopping at the start.
pub open spec fn left_of(cursor: usize) -> int {
    if cursor > 0 {
        cursor - 1
    } else {
        0
    }
}

/// The cursor one step right, stopping at the end of a text of `len` characters.
pub open spec fn right_of(cursor: usize, len: nat) -> int {
    if cursor < len {
        cursor + 1
    } else {
        len as int
    }
}

/// Whether `key` is one that the text input handles.
pub open spec fn is_edit_key(key: KeyEvent) -> bool {
    match key.code {
        KeyCode::Left | KeyCode::Right | KeyCode::Home | KeyCode::End | KeyCode::Backspace
        | KeyCode::Delete => true,
        KeyCode::Char(_) => !key.modifiers.control && !key.modifiers.alt,
        _ => false,
    }
}

/// Whether `key` inserts a character, the one edit that advances the cursor.
pub open spec fn is_insert_key(key: KeyEvent) -> bool {
    key.code is Char && !key.modifiers.control && !key.modifiers.alt
}

/// `new` is what `key` makes of `old` in a text input.
pub open spec fn key_edit(old: TextInputState, new: TextInputState, key: KeyEvent) -> bool {
    match key.code {
        KeyCode::Left => moved_to(old, new, left_of(old.cursor)),
        KeyCode::Right => moved_to(old, new, right_of(old.cursor, old.value@.len())),
        KeyCode::Home => moved_to(old, new, 0),
        KeyCode::End => moved_to(old, new, old.value@.len() as int),
        KeyCode::Backspace => if key.modifiers.alt {
            word_deleted(old, new)
        } else {
            backspaced(old, new)
        },
        KeyCode::Delete => deleted(old, new),
        KeyCode::Char(ch) => if !key.modifiers.control && !key.modifiers.alt {
            inserted(old, new, ch)
        } else {
            new == old
        },
        _ => new == old,
    }
}

impl Default for TextInputState {
    fn default() -> (r: Self)
        ensures
            r.value@ == Seq::<char>::empty(),
            r.cursor == 0,
            !r.mask,
    {
        TextInputState { value: String::new(), cursor: 0, mask: false }
    }
}

impl TextInputState {
    /// An empty, unmasked input.
    pub fn new() -> (r: Self)
        ensures
            r.value@ == Seq::<char>::empty(),
            r.cursor == 0,
            !r.mask,
    {
        TextInputState { value: String::new(), cursor: 0, mask: false }
    }

    /// An unmasked input holding `value`, with the cursor at its end.
    pub fn from(value: &str) -> (r: Self)
        ensures
            r.value@ == value@,
            r.cursor == value@.len(),
            !r.mask,
    {
        let cursor = char_count(value);
        TextInputState { value: String::from_str(value), cursor, mask: false }
    }

    /// The same input with masking set to `mask`.
    pub fn with_mask(self, mask: bool) -> (r: Self)
        ensures
            r.value == self.value,
            r.cursor == self.cursor,
            r.mask == mask,
    {
        let mut s = self;
        s.mask = mask;
        s
    }

    /// Replaces the text by `value` and puts the cursor at its end.
    pub fn set(&mut self, value: &str)
        ensures
            final(self).value@ == value@,
            final(self).cursor == value@.len(),
            final(self).mask == old(self).mask,
    {
        self.value = String::from_str(value);
        self.cursor = char_count(value);
    }

    /// Inserts `ch` at the cursor (at the end when the cursor lies past it)
    /// and moves the cursor one step right.
    pub fn insert(&mut self, ch: char)
        requires
            old(self).cursor < usize::MAX,
        ensures
            inserted(*old(self), *final(self), ch),
    {
        let n = char_count(self.value.as_str());
        let at = if self.cursor < n {
            self.cursor
        } else {
            n
        };
        let mut s = substring(self.value.as_str(), 0, at);
        push_char(&mut s, ch);
        s.append(self.value.as_str().substring_char(at, n));
        self.value = s;
        self.cursor = self.cursor + 1;
    }

    /// Removes the character at index `i` of the text.
    fn remove_char_at(&mut self, i: usize)
        requires
            i < old(self).value@.len(),
        ensures
            final(self).value@ == old(self).value@.remove(i as int),
            final(self).cursor == old(self).cursor,
            final(self).mask == old(self).mask,
    {
        let n = char_count(self.value.as_str());
        let mut s = substring(self.value.as_str(), 0, i);
        s.append(self.value.as_str().substring_char(i + 1, n));
        self.value = s;
    }

    /// Deletes the character before the cursor and moves the cursor one step
    /// left. With the cursor past the end of the text, only the cursor moves
    /// until it reaches the end.
    pub fn backspace(&mut self)
        ensures
            backspaced(*old(self), *final(self)),
    {
        if self.cursor == 0 {
            return;
        }
        self.cursor = self.cursor - 1;
        let n = char_count(self.value.as_str());
        if self.cursor < n {
            let at = self.cursor;
            self.remove_char_at(at);
        }
    }

    /// Deletes the character under the cursor; nothing happens at or past
    /// the end of the text.
    pub fn delete(&mut self)
        ensures
            deleted(*old(self), *final(self)),
    {
        let n = char_count(self.value.as_str());
        if self.cursor >= n {
            return;
        }
        let at = self.cursor;
        self.remove_char_at(at);
    }

    /// Deletes the word before the cursor together with the white space
    /// between it and the cursor, and puts the cursor where the word began.
    fn delete_word_backward(&mut self)
        ensures
            word_deleted(*old(self), *final(self)),
    {
        let ghost s = self.value@;
        let n = char_count(self.value.as_str());
        let p = if self.cursor < n {
            self.cursor
        } else {
            n
        };
        let mut j = p;
        while j > 0 && is_whitespace_char(self.value.as_str().get_char(j - 1))
            invariant
                j <= p <= n == s.len(),
                s == self.value@,
                skip_space_back(s, j as int) == skip_space_back(s, p as int),
            decreases j,
        {
            j = j - 1;
        }
        let mut k = j;
        while k > 0 && !is_whitespace_char(self.value.as_str().get_char(k - 1))
            invariant
                k <= j <= p <= n == s.len(),
                s == self.value@,
                skip_space_back(s, p as int) == j,
                skip_word_back(s, k as int) == skip_word_back(s, j as int),
            decreases k,
        {
            k = k - 1;
        }
        let mut r = substring(self.value.as_str(), 0, k);
        r.append(self.value.as_str().substring_char(p, n));
        self.value = r;
        self.cursor = k;
    }

    /// Moves the cursor one step left, stopping at the start.
    pub fn move_left(&mut self)
        ensures
            moved_to(*old(self), *final(self), left_of(old(self).cursor)),
    {
        if self.cursor > 0 {
            self.cursor = self.cursor - 1;
        }
    }

    /// Moves the cursor one step right, stopping at the end of the text.
    pub fn move_right(&mut self)
        ensures
            moved_to(*old(self), *final(self), right_of(old(self).cursor, old(self).value@.len())),
    {
        let n = char_count(self.value.as_str());
        if self.cursor < n {
            self.cursor = self.cursor + 1;
        } else {
            self.cursor = n;
        }
    }

    /// Moves the cursor to the start of the text.
    pub fn move_home(&mut self)
        ensures
            moved_to(*old(self), *final(self), 0),
    {
        self.cursor = 0;
    }

    /// Moves the cursor to the end of the text.
    pub fn move_end(&mut self)
        ensures
            moved_to(*old(self), *final(self), old(self).value@.len() as int),
    {
        self.cursor = char_count(self.value.as_str());
    }

    /// The text as shown: one `*` per character when masked.
    pub fn display(&self) -> (r: String)
        ensures
            r@ == if self.mask {
                repeat_char('*', self.value@.len())
            } else {
                self.value@
            },
    {
        if self.mask {
            repeat_string('*', char_count(self.value.as_str()))
        } else {
            self.value.clone()
        }
    }

    /// Applies an editing key and tells whether the key was one.
    ///
    /// Left, Right, Home and End move the cursor; Backspace deletes the
    /// character before the cursor, or with Alt the word before it; Delete
    /// deletes the character under the cursor; a character typed without
    /// Control or Alt is inserted. Other keys change nothing.
    pub fn handle_key(&mut self, key: KeyEvent) -> (handled: bool)
        requires
            is_insert_key(key) ==> old(self).cursor < usize::MAX,
        ensures
            handled == is_edit_key(key),
            key_edit(*old(self), *final(self), key),
    {
        match key.code {
            KeyCode::Left => self.move_left(),
            KeyCode::Right => self.move_right(),
            KeyCode::Home => self.move_home(),
            KeyCode::End => self.move_end(),
            KeyCode::Backspace => {
                if key.modifiers.alt {
                    self.delete_word_backward()
                } else {
                    self.backspace()
                }
            },
            KeyCode::Delete => self.delete(),
            KeyCode::Char(ch) => {
                if !key.modifiers.control && !key.modifiers.alt {
                    self.insert(ch)
                } else {
                    return false;
                }
            },
            _ => return false,
        }
        true
    }
}

/// Inserting a character and then deleting it with Backspace gives back the
/// text and the cursor, for a cursor within the text.
pub proof fn law_insert_then_backspace(
    a: TextInputState,
    b: TextInputState,
    c: TextInputState,
    ch: char,
)
    requires
        a.cursor <= a.value@.len(),
        inserted(a, b, ch),
        backspaced(b, c),
    ensures
        c.value@ == a.value@,
        c.cursor == a.cursor,
        c.mask == a.mask,
{
    assert(c.value@ =~= a.value@);
}

/// Every key keeps a cursor that lies within the text within the text.
pub proof fn law_edits_keep_cursor_in_text(old: TextInputState, new: TextInputState, key: KeyEvent)
    requires
        old.cursor <= old.value@.len(),
        key_edit(old, new, key),
    ensures
        new.cursor <= new.value@.len(),
{
    match key.code {
        KeyCode::Backspace => {
            if key.modifiers.alt {
                let s = old.value@;
                let p = edit_pos(s.len(), old.cursor);
                let k = word_start_before(s, p);
                assert(new.value@.len() == k + (s.len() - p));
            }
        },
        _ => {},
    }
}

/// Moving left and then right comes back to the same place, for a cursor
/// inside the text and not at its start.
pub proof fn law_left_then_right(a: TextInputState, b: TextInputState, c: TextInputState)
    requires
        0 < a.cursor <= a.value@.len(),
        moved_to(a, b, left_of(a.cursor)),
        moved_to(b, c, right_of(b.cursor, b.value@.len())),
    ensures
        c == a,
{
}

proof fn lemma_skip_space_back(s: Seq<char>, i: int)
    requires
        0 <= i <= s.len(),
    ensures
        0 <= skip_space_back(s, i) <= i,
        forall|t: int| skip_space_back(s, i) <= t < i ==> is_white_space(#[trigger] s[t]),
        skip_space_back(s, i) > 0 ==> !is_white_space(s[skip_space_back(s, i) - 1]),
    decreases i,
{
    if 0 < i && is_white_space(s[i - 1]) {
        lemma_skip_space_back(s, i - 1);
    }
}

proof fn lemma_skip_word_back(s: Seq<char>, i: int)
    requires
        0 <= i <= s.len(),
    ensures
        0 <= skip_word_back(s, i) <= i,
        forall|t: int| skip_word_back(s, i) <= t < i ==> !is_white_space(#[trigger] s[t]),
        skip_word_back(s, i) > 0 ==> is_white_space(s[skip_word_back(s, i) - 1]),
    decreases i,
{
    if 0 < i && !is_white_space(s[i - 1]) {
        lemma_skip_word_back(s, i - 1);
    }
}

/// What each key does to a text input, stated over the characters of the
/// text: a typed character goes in at the cursor (at the end when the cursor
/// lies past it) and the cursor moves one step right; Backspace removes the
/// character before the cursor and moves the cursor one step left; Delete
/// removes the character under the cursor and leaves the cursor; Left, Right,
/// Home and End only move the cursor (one step, within the text); Alt+Backspace
/// removes the text from the start of the word before the cursor up to the
/// cursor: a word of non-white-space characters followed by white space,
/// starting at the beginning of the text or after white space. Every other
/// key changes nothing, and no key changes the masking.
pub proof fn law_key_effects(old: TextInputState, new: TextInputState, key: KeyEvent)
    requires
        key_edit(old, new, key),
    ensures
        ({
            let s = old.value@;
            let n = s.len() as int;
            let c = old.cursor as int;
            let plain = !key.modifiers.control && !key.modifiers.alt;
            &&& new.mask == old.mask
            &&& forall|ch: char|
                key.code == KeyCode::Char(ch) && plain ==> {
                    let p = if c < n {
                        c
                    } else {
                        n
                    };
                    &&& new.value@ == s.subrange(0, p) + seq![ch] + s.subrange(p, n)
                    &&& new.cursor == c + 1
                }
            &&& forall|ch: char| key.code == KeyCode::Char(ch) && !plain ==> new == old
            &&& key.code == KeyCode::Backspace && !key.modifiers.alt ==> {
                &&& c == 0 ==> new == old
                &&& 0 < c <= n ==> new.value@ == s.subrange(0, c - 1) + s.subrange(c, n)
                    && new.cursor == c - 1
                &&& c > n ==> new.value@ == old.value@ && new.cursor == c - 1
            }
            &&& key.code == KeyCode::Delete ==> {
                &&& c < n ==> new.value@ == s.subrange(0, c) + s.subrange(c + 1, n) && new.cursor
                    == c
                &&& c >= n ==> new == old
            }
            &&& key.code == KeyCode::Left ==> new.value == old.value && new.cursor == if c > 0 {
                c - 1
            } else {
                0
            }
            &&& key.code == KeyCode::Right ==> new.value == old.value && new.cursor == if c < n {
                c + 1
            } else {
                n
            }
            &&& key.code == KeyCode::Home ==> new.value == old.value && new.cursor == 0
            &&& key.code == KeyCode::End ==> new.value == old.value && new.cursor == n
            &&& key.code == KeyCode::Backspace && key.modifiers.alt ==> {
                let p = if c < n {
                    c
                } else {
                    n
                };
                let k = new.cursor as int;
                &&& 0 <= k <= p
                &&& new.value@ == s.subrange(0, k) + s.subrange(p, n)
                &&& forall|a: int, b: int|
                    k <= a < b < p && is_white_space(#[trigger] s[a]) ==> is_white_space(
                        #[trigger] s[b],
                    )
                &&& k > 0 ==> k < p && is_white_space(s[k - 1]) && !is_white_space(s[k])
            }
            &&& !(key.code is Char || key.code == KeyCode::Backspace || key.code == KeyCode::Delete
                || key.code == KeyCode::Left || key.code == KeyCode::Right || key.code
                == KeyCode::Home || key.code == KeyCode::End) ==> new == old
        }),
{
    let s = old.value@;
    let n = s.len() as int;
    let c = old.cursor as int;
    if key.code == KeyCode::Backspace && key.modifiers.alt {
        let p = edit_pos(s.len(), old.cursor);
        lemma_skip_space_back(s, p);
        let j = skip_space_back(s, p);
        lemma_skip_word_back(s, j);
        let k = skip_word_back(s, j);
        assert forall|a: int, b: int|
            k <= a < b < p && is_white_space(#[trigger] s[a]) implies is_white_space(
            #[trigger] s[b],
        ) by {
            if a < j {
                assert(!is_white_space(s[a]));
            }
        }
        if k > 0 {
            if k == j {
                assert(!is_white_space(s[j - 1]));
            }
            assert(k < j);
        }
    }
    if key.code == KeyCode::Backspace && !key.modifiers.alt && 0 < c <= n {
        assert(s.remove(c - 1) =~= s.subrange(0, c - 1) + s.subrange(c, n));
    }
    if key.code == KeyCode::Delete && c < n {
        assert(s.remove(c) =~= s.subrange(0, c) + s.subrange(c + 1, n));
    }
}

/// The keys that a text input handles: the cursor keys Left, Right, Home and
/// End, Backspace, Delete, and characters typed without Control or Alt.
pub proof fn law_edit_keys(key: KeyEvent)
    ensures
        is_edit_key(key) <==> (key.code == KeyCode::Left || key.code == KeyCode::Right || key.code
            == KeyCode::Home || key.code == KeyCode::End || key.code == KeyCode::Backspace
            || key.code == KeyCode::Delete || (key.code is Char && !key.modifiers.control
            && !key.modifiers.alt)),
{
}

} // verus!
