//! The three platforms a player can be looked up on, the names users give
//! them and the codes the statistics service knows them by.

use vstd::prelude::*;
use vstd::string::*;
use crate::text::same_text;

verus! {

/// A platform that the statistics service covers.
#[derive(Clone, Copy, Debug, PartialEq, Eq, Structural)]
pub enum PlatformCode {
    Pc,
    Xbox,
    PlayStation,
}

/// A capital letter of the Latin alphabet as its small letter; any other
/// character as itself.
pub open spec fn ascii_lower(c: char) -> char {
    if 'A' <= c && c <= 'Z' {
        ((c as u8 + 32) as u8) as char
    } else {
        c
    }
}

/// A text with its capital Latin letters made small.
pub open spec fn lowered(s: Seq<char>) -> Seq<char> {
    Seq::new(s.len(), |i: int| ascii_lower(s[i]))
}

/// What `str::to_uppercase` of the standard library makes of a text: its
/// upper-case equivalent by the Unicode tables, which may be longer than the
/// text.
pub uninterp spec fn uppercased(text: Seq<char>) -> Seq<char>;

/// Calls `str::to_uppercase`. The contract names the outcome `uppercased` of
/// the text and claims nothing more of it.
#[verifier::external_body]
fn upper_case(text: &str) -> (r: String)
    ensures
        r@ == uppercased(text@),
{
    text.to_uppercase()
}

/// The platform whose name a token is when only its Latin capitals are made
/// small: `pc`, `xbox` or `playstation` in any casing.
pub open spec fn platform_spelled(token: Seq<char>) -> Option<PlatformCode> {
    let small = lowered(token);
    if small == "pc"@ {
        Some(PlatformCode::Pc)
    } else if small == "xbox"@ {
        Some(PlatformCode::Xbox)
    } else if small == "playstation"@ {
        Some(PlatformCode::PlayStation)
    } else {
        None
    }
}

/// The platform whose name a token becomes in upper case.
pub open spec fn platform_in_capitals(upper: Seq<char>) -> Option<PlatformCode> {
    if upper == "PC"@ {
        Some(PlatformCode::Pc)
    } else if upper == "XBOX"@ {
        Some(PlatformCode::Xbox)
    } else if upper == "PLAYSTATION"@ {
        Some(PlatformCode::PlayStation)
    } else {
        None
    }
}

/// The platform that a user's token names, whatever its casing: the one it
/// spells in Latin letters of either case, or else the one that its upper
/// case reads as (which lets in the letters that only Unicode folds onto
/// Latin ones, such as the long s).
pub open spec fn platform_named(token: Seq<char>) -> Option<PlatformCode> {
    match platform_spelled(token) {
        Some(platform) => Some(platform),
        None => platform_in_capitals(uppercased(token)),
    }
}

fn lower(c: char) -> (r: char)
    ensures
        r == ascii_lower(c),
{
    if 'A' <= c && c <= 'Z' {
        ((c as u8) + 32) as char
    } else {
        c
    }
}

/// Whether `token`, with its capital letters made small, reads as `word`.
pub fn matches_lowered(token: &str, word: &str) -> (r: bool)
    ensures
        r == (lowered(token@) == word@),
{
    let n = token.unicode_len();
    if word.unicode_len() != n {
        return false;
    }
    let mut i: usize = 0;
    while i < n
        invariant
            n == token@.len(),
            n == word@.len(),
            i <= n,
            forall|j: int| 0 <= j < i ==> ascii_lower(token@[j]) == word@[j],
        decreases n - i,
    {
        if lower(token.get_char(i)) != word.get_char(i) {
            assert(lowered(token@)[i as int] != word@[i as int]);
            return false;
        }
        i = i + 1;
    }
    assert(lowered(token@) =~= word@);
    true
}

impl PlatformCode {
    /// The code by which the statistics service knows the platform.
    pub open spec fn code(self) -> Seq<char> {
        match self {
            PlatformCode::Pc => "PC"@,
            PlatformCode::Xbox => "X1"@,
            PlatformCode::PlayStation => "PS4"@,
        }
    }

    /// The code by which the statistics service knows the platform.
    pub fn api_code(self) -> (r: &'static str)
        ensures
            r@ == self.code(),
    {
        match self {
            PlatformCode::Pc => "PC",
            PlatformCode::Xbox => "X1",
            PlatformCode::PlayStation => "PS4",
        }
    }

    /// Reads a platform's name from a text in upper case.
    pub fn from_capitals(upper: &str) -> (r: Option<PlatformCode>)
        ensures
            r == platform_in_capitals(upper@),
    {
        if same_text(upper, "PC") {
            Some(PlatformCode::Pc)
        } else if same_text(upper, "XBOX") {
            Some(PlatformCode::Xbox)
        } else if same_text(upper, "PLAYSTATION") {
            Some(PlatformCode::PlayStation)
        } else {
            None
        }
    }

    /// Reads a user's platform token: `pc`, `xbox` or `playstation` in any
    /// casing. Any other token names no platform.
    pub fn from_token(token: &str) -> (r: Option<PlatformCode>)
        ensures
            r == platform_named(token@),
    {
        if matches_lowered(token, "pc") {
            Some(PlatformCode::Pc)
        } else if matches_lowered(token, "xbox") {
            Some(PlatformCode::Xbox)
        } else if matches_lowered(token, "playstation") {
            Some(PlatformCode::PlayStation)
        } else {
            let upper = upper_case(token);
            PlatformCode::from_capitals(upper.as_str())
        }
    }
}

/// The three names are accepted in every casing: a token that, its Latin
/// capitals made small, reads `pc`, `xbox` or `playstation` names that
/// platform. Any other token names a platform exactly when its upper case
/// reads `PC`, `XBOX` or `PLAYSTATION`, and is turned down otherwise.
pub proof fn lemma_platform_tokens(token: Seq<char>)
    ensures
        lowered(token) == "pc"@ ==> platform_named(token) == Some(PlatformCode::Pc),
        lowered(token) == "xbox"@ ==> platform_named(token) == Some(PlatformCode::Xbox),
        lowered(token) == "playstation"@ ==> platform_named(token) == Some(
            PlatformCode::PlayStation,
        ),
        platform_named(token) is Some <==> (lowered(token) == "pc"@ || lowered(token) == "xbox"@
            || lowered(token) == "playstation"@ || uppercased(token) == "PC"@ || uppercased(token)
            == "XBOX"@ || uppercased(token) == "PLAYSTATION"@),
{
    reveal_strlit("pc");
    reveal_strlit("xbox");
    reveal_strlit("playstation");
    assert("pc"@.len() == 2);
    assert("xbox"@.len() == 4);
    assert("playstation"@.len() == 11);
}

/// Two casings of one of the three names give the same platform.
pub proof fn lemma_platform_ignores_casing(a: Seq<char>, b: Seq<char>)
    requires
        lowered(a) == lowered(b),
        platform_spelled(a) is Some,
    ensures
        platform_named(a) == platform_named(b),
{
}

} // verus!
