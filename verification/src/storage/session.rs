//! Session flags kept between runs.

use vstd::prelude::*;

verus! {

/// Flags of the stored session.
#[derive(Debug, Clone, Copy, PartialEq, Eq, Structural)]
pub struct SessionFlags {
    pub auto_login: bool,
}

impl Default for SessionFlags {
    fn default() -> (r: Self)
        ensures
            !r.auto_login,
    {
        SessionFlags { auto_login: false }
    }
}

impl SessionFlags {
    /// The same flags with `auto_login` set to `value`.
    pub fn with_auto_login(self, value: bool) -> (r: Self)
        ensures
            r.auto_login == value,
    {
        let mut flags = self;
        flags.auto_login = value;
        flags
    }
}

} // verus!
