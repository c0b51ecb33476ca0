//! Text and layout computations behind the terminal widgets.

pub mod text;
pub mod width;
pub mod search;
pub mod layout;
pub mod widgets;
pub mod login;
pub mod settings;
