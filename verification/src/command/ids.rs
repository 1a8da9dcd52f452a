//! Identifiers of commands: a tag, a hyphen and six random characters.

use vstd::prelude::*;
use vstd::string::*;
use rand::Rng;
use crate::command::idset::{padded, IdSet};

verus! {

/// Number of random characters at the end of an identifier.
pub const SUFFIX_LENGTH: usize = 6;

/// Whether `c` is an ASCII letter or digit.
pub open spec fn is_alphanumeric(c: char) -> bool {
    ('0' <= c && c <= '9') || ('a' <= c && c <= 'z') || ('A' <= c && c <= 'Z')
}

/// Whether `s` can be the random end of an identifier.
pub open spec fn is_suffix(s: Seq<char>) -> bool {
    &&& s.len() == SUFFIX_LENGTH
    &&& forall|i: int| 0 <= i < s.len() ==> is_alphanumeric(#[trigger] s[i])
}

/// The identifier made of a tag and a suffix.
pub open spec fn tagged(tag: Seq<char>, suffix: Seq<char>) -> Seq<char> {
    tag + "-"@ + suffix
}

/// Whether `id` is `tag`, a hyphen and six letters or digits.
pub open spec fn is_tagged_id(tag: Seq<char>, id: Seq<char>) -> bool {
    &&& id.len() >= SUFFIX_LENGTH
    &&& is_suffix(id.skip(id.len() - SUFFIX_LENGTH))
    &&& id == tagged(tag, id.skip(id.len() - SUFFIX_LENGTH))
}

/// `count` characters drawn by `Rng::gen_ascii_chars` of rand from the
/// generator of the current thread (`rand::thread_rng`). The iterator never
/// ends and yields only the characters `A-Z`, `a-z` and `0-9`; which of them
/// is left open. `thread_rng` panics where the system offers no entropy at
/// all.
#[verifier::external_body]
fn random_characters(count: usize) -> (s: String)
    ensures
        s@.len() == count,
        forall|i: int| 0 <= i < s@.len() ==> is_alphanumeric(#[trigger] s@[i]),
{
    rand::thread_rng().gen_ascii_chars().take(count).collect()
}

/// Joins a tag and a suffix with a hyphen.
pub fn tagged_id(tag: &str, suffix: &str) -> (id: String)
    ensures
        id@ == tagged(tag@, suffix@),
{
    let mut id = String::from_str(tag);
    id.append("-");
    id.append(suffix);
    id
}

/// A new identifier under the given tag. Whatever characters are drawn, the
/// identifier is the tag, a hyphen and six letters or digits.
pub fn generate_tagged_id(tag: &str) -> (id: String)
    ensures
        is_tagged_id(tag@, id@),
{
    let suffix = random_characters(SUFFIX_LENGTH);
    let id = tagged_id(tag, suffix.as_str());
    assert(id@.skip(id@.len() - SUFFIX_LENGTH) =~= suffix@);
    id
}

/// Whether `id` is an identifier of the tag, followed by zeros or by
/// nothing.
pub open spec fn has_tag(tag: Seq<char>, id: Seq<char>) -> bool {
    exists|drawn: Seq<char>, count: nat| is_tagged_id(tag, drawn) && id == padded(drawn, count)
}

/// A new identifier under the given tag that is not in flight: the one that
/// is drawn or, where that one is in flight, the same followed by as few
/// zeros as tell it from every identifier in flight.
pub fn generate_distinct_id(tag: &str, in_flight: &IdSet) -> (id: String)
    ensures
        has_tag(tag@, id@),
        !in_flight@.contains(id@),
{
    let drawn = generate_tagged_id(tag);
    in_flight.distinct(drawn)
}

/// A new identifier under the tag `ID`.
pub fn generate_id() -> (id: String)
    ensures
        is_tagged_id("ID"@, id@),
{
    generate_tagged_id("ID")
}

} // verus!
