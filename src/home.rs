use vstd::prelude::*;

verus! {

/// Relies on `directories::BaseDirs::new` and `BaseDirs::home_dir`: the user's
/// home directory as the operating system reports it, or `None` where none can
/// be determined. The answer depends on the environment, so nothing is stated
/// of it. A path that is not valid Unicode is read lossily.
///
/// `BaseDirs::new` reads no configuration file: on Linux and macOS it takes
/// `$HOME` or the password database entry and joins fixed names onto it, on
/// Windows it asks for known folders, and none of these steps indexes or
/// unwraps, so the call does not panic.
#[verifier::external_body]
pub(crate) fn user_home_dir() -> (r: Option<String>) {
    match directories::BaseDirs::new() {
        Some(dirs) => Some(dirs.home_dir().to_string_lossy().into_owned()),
        None => None,
    }
}

} // verus!
