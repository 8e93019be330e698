//! Expansion of a leading `~` in a path into the user's home directory.

mod home;
pub mod expand;
pub mod laws;
pub mod platform;

pub use expand::{expand_tilde, expand_tilde_with, join_path, resolve_home, strip_marker};
pub use platform::Platform;
