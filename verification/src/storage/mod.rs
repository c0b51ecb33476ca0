//! What the client keeps between runs: session flags, expiry of timestamps,
//! and the commands and scripts that store passwords in the platform's
//! secret store.

pub mod secret;
pub mod session;
pub mod time;
