use vstd::prelude::*;

use crate::home::user_home_dir;
use crate::laws::lemma_never_empty;
use crate::platform::Platform;

verus! {

/// Whether `path` begins with the home marker `~`.
pub open spec fn has_marker(path: Seq<char>) -> bool {
    path.len() > 0 && path[0] == '~'
}

/// What follows the marker, with one separator right after it dropped.
pub open spec fn remainder(path: Seq<char>, platform: Platform) -> Seq<char> {
    let after = path.subrange(1, path.len() as int);
    if after.len() > 0 && platform.is_sep(after[0]) {
        after.subrange(1, after.len() as int)
    } else {
        after
    }
}

/// The home directory used on Windows when neither the operating system nor
/// the profile variable names one.
pub open spec fn default_windows_home() -> Seq<char> {
    "C:\\Users\\Default"@
}

/// Whether `s` holds a path that is not empty.
pub open spec fn is_given(s: Option<Seq<char>>) -> bool {
    s matches Some(p) && p.len() > 0
}

/// The home directory that stands in when none could be resolved: on Windows
/// the profile directory where it is given and not empty, else a fixed
/// default; elsewhere the root directory.
pub open spec fn fallback_home(profile: Option<Seq<char>>, platform: Platform) -> Seq<char> {
    match platform {
        Platform::Windows => if is_given(profile) {
            profile->0
        } else {
            default_windows_home()
        },
        Platform::Unix => seq!['/'],
    }
}

/// The resolved home directory, or the fallback where none was resolved or
/// the one resolved is empty.
pub open spec fn home_or_fallback(
    home: Option<Seq<char>>,
    profile: Option<Seq<char>>,
    platform: Platform,
) -> Seq<char> {
    if is_given(home) {
        home->0
    } else {
        fallback_home(profile, platform)
    }
}

/// `rest` appended to `base`, with one separator between them unless `base`
/// is empty or already ends in one. An empty `rest` leaves `base` as it is.
pub open spec fn joined(base: Seq<char>, rest: Seq<char>, platform: Platform) -> Seq<char> {
    if rest.len() == 0 {
        base
    } else if base.len() == 0 || platform.is_sep(base.last()) {
        base + rest
    } else {
        base.push(platform.main_sep()) + rest
    }
}

/// The expansion of `path`: the path itself where it does not begin with the
/// marker, else what follows the marker joined onto the home directory.
pub open spec fn expanded(
    path: Seq<char>,
    home: Option<Seq<char>>,
    profile: Option<Seq<char>>,
    platform: Platform,
) -> Seq<char> {
    if has_marker(path) {
        joined(home_or_fallback(home, profile, platform), remainder(path, platform), platform)
    } else {
        path
    }
}

/// The characters of an optional string.
pub open spec fn opt_chars(s: Option<String>) -> Option<Seq<char>> {
    match s {
        Some(t) => Some(t@),
        None => None,
    }
}

/// Whether `path` begins with the marker.
pub fn starts_with_marker(path: &str) -> (r: bool)
    ensures
        r == has_marker(path@),
{
    !path.is_empty() && path.get_char(0) == '~'
}

/// The part of `path` that goes after the home directory.
pub fn strip_marker(path: &str, platform: Platform) -> (r: &str)
    requires
        has_marker(path@),
    ensures
        r@ == remainder(path@, platform),
{
    let n = path.unicode_len();
    let after = path.substring_char(1, n);
    if n > 1 && platform.is_separator(after.get_char(0)) {
        after.substring_char(1, n - 1)
    } else {
        after
    }
}

/// The home directory to expand into: `home` where it was resolved and is not
/// empty, else the platform's fallback (`profile` where it is not empty, or a
/// fixed default, on Windows; `/` elsewhere).
pub fn resolve_home(
    home: Option<String>,
    profile: Option<String>,
    platform: Platform,
) -> (r: String)
    ensures
        r@ == home_or_fallback(opt_chars(home), opt_chars(profile), platform),
{
    if let Some(h) = home {
        if !h.as_str().is_empty() {
            return h;
        }
    }
    match platform {
        Platform::Windows => {
            if let Some(p) = profile {
                if !p.as_str().is_empty() {
                    return p;
                }
            }
            String::from_str("C:\\Users\\Default")
        },
        Platform::Unix => {
            let s = String::from_str("/");
            proof {
                reveal_strlit("/");
            }
            assert(s@ =~= seq!['/']);
            s
        },
    }
}

/// Joins `rest` onto `base` with the platform's separator.
pub fn join_path(base: String, rest: &str, platform: Platform) -> (r: String)
    ensures
        r@ == joined(base@, rest@, platform),
{
    if rest.is_empty() {
        return base;
    }
    let n = base.as_str().unicode_len();
    let mut out = base;
    if n > 0 && !platform.is_separator(out.as_str().get_char(n - 1)) {
        let sep = platform.separator();
        out.append(sep.as_str());
    }
    out.append(rest);
    out
}

/// Expands a leading `~` in `path`, with the outcome of the home directory
/// lookup, the profile variable and the platform given.
pub fn expand_tilde_with(
    path: &str,
    home: Option<String>,
    profile: Option<String>,
    platform: Platform,
) -> (r: String)
    ensures
        r@ == expanded(path@, opt_chars(home), opt_chars(profile), platform),
        path@.len() > 0 ==> r@.len() > 0,
{
    proof {
        if path@.len() > 0 {
            lemma_never_empty(path@, opt_chars(home), opt_chars(profile), platform);
        }
    }
    if starts_with_marker(path) {
        let base = resolve_home(home, profile, platform);
        let rest = strip_marker(path, platform);
        join_path(base, rest, platform)
    } else {
        String::from_str(path)
    }
}

/// Expands a leading `~` in `path` into the current user's home directory.
///
/// A path that does not begin with `~` comes back unchanged. Otherwise the
/// home directory is asked of the operating system; where it cannot say, the
/// fallback applies, which on Windows is `profile` (the user profile variable,
/// as the caller read it) or a fixed default.
pub fn expand_tilde(path: &str, profile: Option<String>) -> (r: String)
    ensures
        !has_marker(path@) ==> r@ == path@,
        has_marker(path@) ==> exists|home: Option<Seq<char>>, platform: Platform|
            r@ == #[trigger] expanded(path@, home, opt_chars(profile), platform),
        path@.len() > 0 ==> r@.len() > 0,
{
    if starts_with_marker(path) {
        let home = user_home_dir();
        let platform = Platform::host();
        let r = expand_tilde_with(path, home, profile, platform);
        assert(r@ == expanded(path@, opt_chars(home), opt_chars(profile), platform));
        r
    } else {
        String::from_str(path)
    }
}

} // verus!
