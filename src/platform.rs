use vstd::prelude::*;

verus! {

/// The path conventions that the expansion follows.
#[derive(Clone, Copy, Debug, PartialEq, Eq, Structural)]
pub enum Platform {
    /// `\` is the main separator, and `/` is accepted as one too.
    Windows,
    /// `/` is the only separator.
    Unix,
}

/// Relies on `std::path::is_separator`: `/` is a separator on every platform.
#[verifier::external_body]
fn host_is_separator(c: char) -> (r: bool)
    ensures
        c == '/' ==> r,
{
    std::path::is_separator(c)
}

impl Platform {
    /// Whether `c` separates two components of a path.
    pub open spec fn is_sep(self, c: char) -> bool {
        c == '/' || (self is Windows && c == '\\')
    }

    /// The separator that joining inserts.
    pub open spec fn main_sep(self) -> char {
        match self {
            Platform::Windows => '\\',
            Platform::Unix => '/',
        }
    }

    /// The conventions of the platform this code runs on: Windows where `\`
    /// separates path components.
    pub fn host() -> (r: Platform) {
        if host_is_separator('\\') {
            Platform::Windows
        } else {
            Platform::Unix
        }
    }

    pub fn is_separator(&self, c: char) -> (r: bool)
        ensures
            r == self.is_sep(c),
    {
        c == '/' || (*self == Platform::Windows && c == '\\')
    }

    /// The main separator as a string of one character.
    pub fn separator(&self) -> (r: String)
        ensures
            r@ == seq![self.main_sep()],
    {
        match self {
            Platform::Windows => {
                let s = String::from_str("\\");
                proof {
                    reveal_strlit("\\");
                }
                assert(s@ =~= seq!['\\']);
                s
            },
            Platform::Unix => {
                let s = String::from_str("/");
                proof {
                    reveal_strlit("/");
                }
                assert(s@ =~= seq!['/']);
                s
            },
        }
    }
}

} // verus!
