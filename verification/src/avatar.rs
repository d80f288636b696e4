//! Avatars: an image, or a few initials shown in its place.
use vstd::prelude::*;

use crate::text::{chars_of, is_whitespace, spec_is_whitespace, string_of, to_uppercase, uppercase_of};

verus! {

/// What an avatar shows.
pub enum AvatarContent {
    /// The image at an asset path.
    Image(String),
    /// Initials, shown when there is no image.
    Initials(String),
}

/// The characters of `s` that are not white space, in order.
pub open spec fn non_blank_chars(s: Seq<char>) -> Seq<char>
    decreases s.len(),
{
    if s.len() == 0 {
        Seq::empty()
    } else if spec_is_whitespace(s.last()) {
        non_blank_chars(s.drop_last())
    } else {
        non_blank_chars(s.drop_last()).push(s.last())
    }
}

/// At most the first three characters of `s`.
pub open spec fn first_three(s: Seq<char>) -> Seq<char> {
    if s.len() <= 3 {
        s
    } else {
        s.take(3)
    }
}

/// Initials as an avatar shows them: the characters that are not white
/// space, in upper case, of which the first three are kept.
pub open spec fn spec_normalize_initials(initials: Seq<char>) -> Seq<char> {
    first_three(uppercase_of(non_blank_chars(initials)))
}

/// Keeps initials within three characters: drops white space, puts the
/// rest in upper case, and keeps the first three characters of that (the
/// upper case of a character may be longer than the character, so the
/// limit applies after it). Initials that are empty or blank stay empty.
pub fn normalize_initials(initials: &str) -> (r: String)
    ensures
        r@ == spec_normalize_initials(initials@),
        r@.len() <= 3,
{
    let cs = chars_of(initials);
    let mut kept: Vec<char> = Vec::new();
    let mut i: usize = 0;
    while i < cs.len()
        invariant
            cs@ == initials@,
            i <= cs@.len(),
            kept@ == non_blank_chars(cs@.take(i as int)),
        decreases cs@.len() - i,
    {
        assert(cs@.take(i + 1).drop_last() == cs@.take(i as int));
        assert(cs@.take(i + 1).last() == cs@[i as int]);
        if !is_whitespace(cs[i]) {
            kept.push(cs[i]);
        }
        i += 1;
    }
    assert(cs@.take(cs@.len() as int) == cs@);
    let blank_free = string_of(&kept);
    let upper = to_uppercase(blank_free.as_str());
    let up = chars_of(upper.as_str());
    let mut first: Vec<char> = Vec::new();
    let mut j: usize = 0;
    while j < up.len() && j < 3
        invariant
            j <= up@.len(),
            j <= 3,
            first@ == up@.take(j as int),
        decreases up@.len() - j,
    {
        first.push(up[j]);
        assert(up@.take(j as int).push(up@[j as int]) == up@.take(j + 1));
        j += 1;
    }
    proof {
        if up@.len() <= 3 {
            assert(up@.take(up@.len() as int) == up@);
        }
    }
    string_of(&first)
}

impl AvatarContent {
    /// Initials content, normalized.
    pub fn initials(initials: &str) -> (c: Self)
        ensures
            c matches AvatarContent::Initials(s) && s@ == spec_normalize_initials(initials@),
    {
        AvatarContent::Initials(normalize_initials(initials))
    }

    /// Image content from the asset at `path`.
    pub fn image(path: String) -> (c: Self)
        ensures
            c matches AvatarContent::Image(p) && p == path,
    {
        AvatarContent::Image(path)
    }
}

} // verus!
