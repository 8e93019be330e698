//! What holds of the expansion over all paths, home directories and platforms.

use vstd::prelude::*;

use crate::expand::{
    default_windows_home, expanded, has_marker, is_given, home_or_fallback, joined, remainder,
};
use crate::platform::Platform;

verus! {

/// A path that does not begin with `~` expands to itself.
pub proof fn lemma_identity_without_marker(
    path: Seq<char>,
    home: Option<Seq<char>>,
    profile: Option<Seq<char>>,
    platform: Platform,
)
    requires
        !has_marker(path),
    ensures
        expanded(path, home, profile, platform) == path,
{
}

/// `~`, a separator and a non-empty tail expand to the resolved home
/// directory, the platform's separator and the tail, where the home directory
/// does not already end in a separator.
pub proof fn lemma_expands_under_home(
    home: Seq<char>,
    sep: char,
    tail: Seq<char>,
    profile: Option<Seq<char>>,
    platform: Platform,
)
    requires
        platform.is_sep(sep),
        tail.len() > 0,
        home.len() > 0,
        !platform.is_sep(home.last()),
    ensures
        expanded(seq!['~', sep] + tail, Some(home), profile, platform) == home.push(
            platform.main_sep(),
        ) + tail,
{
    let path = seq!['~', sep] + tail;
    assert(path.subrange(1, path.len() as int).subrange(1, path.len() - 1) =~= tail);
}

/// `~` alone expands to the resolved home directory, unchanged, where that
/// directory is not empty (an empty one counts as not resolved).
pub proof fn lemma_marker_alone_is_home(
    home: Seq<char>,
    profile: Option<Seq<char>>,
    platform: Platform,
)
    requires
        home.len() > 0,
    ensures
        expanded(seq!['~'], Some(home), profile, platform) == home,
{
    assert(remainder(seq!['~'], platform).len() == 0);
}

/// On Unix, where no home directory is resolved, `~/` and a non-empty tail
/// expand to the tail under the root directory.
pub proof fn lemma_unix_fallback_is_root(tail: Seq<char>, profile: Option<Seq<char>>)
    requires
        tail.len() > 0,
    ensures
        expanded(seq!['~', '/'] + tail, None, profile, Platform::Unix) == seq!['/'] + tail,
{
    let path = seq!['~', '/'] + tail;
    assert(path.subrange(1, path.len() as int).subrange(1, path.len() - 1) =~= tail);
}

/// On Windows, where no home directory is resolved and the profile variable is
/// unset, `~`, a separator and a non-empty tail expand to the tail under the
/// fixed default directory.
pub proof fn lemma_windows_fallback_is_default(sep: char, tail: Seq<char>)
    requires
        Platform::Windows.is_sep(sep),
        tail.len() > 0,
    ensures
        expanded(seq!['~', sep] + tail, None, None, Platform::Windows) == default_windows_home().push(
            '\\',
        ) + tail,
{
    reveal_strlit("C:\\Users\\Default");
    let path = seq!['~', sep] + tail;
    assert(path.subrange(1, path.len() as int).subrange(1, path.len() - 1) =~= tail);
}

/// A non-empty path never expands to an empty one.
pub proof fn lemma_never_empty(
    path: Seq<char>,
    home: Option<Seq<char>>,
    profile: Option<Seq<char>>,
    platform: Platform,
)
    requires
        path.len() > 0,
    ensures
        expanded(path, home, profile, platform).len() > 0,
{
    reveal_strlit("C:\\Users\\Default");
}

/// Expanding an expanded path changes nothing more, as long as neither the
/// resolved home directory nor the profile variable begins with `~`: the
/// result then does not begin with `~` itself.
pub proof fn lemma_expand_twice(
    path: Seq<char>,
    home: Option<Seq<char>>,
    profile: Option<Seq<char>>,
    platform: Platform,
)
    requires
        is_given(home) ==> home->0[0] != '~',
        is_given(profile) ==> profile->0[0] != '~',
    ensures
        expanded(expanded(path, home, profile, platform), home, profile, platform) == expanded(
            path,
            home,
            profile,
            platform,
        ),
{
    if has_marker(path) {
        reveal_strlit("C:\\Users\\Default");
        let base = home_or_fallback(home, profile, platform);
        let rest = remainder(path, platform);
        assert(base.len() > 0 && base[0] != '~');
        let r = joined(base, rest, platform);
        assert(r[0] == base[0]);
        assert(!has_marker(r));
    }
}

} // verus!
