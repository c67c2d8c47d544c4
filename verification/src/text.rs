//! Facts about one text occurring inside another.

use vstd::prelude::*;

verus! {

/// `needle` stands in `hay` at position `at`, character for character.
pub open spec fn occurs_at(needle: Seq<char>, hay: Seq<char>, at: int) -> bool {
    &&& 0 <= at
    &&& at + needle.len() <= hay.len()
    &&& hay.subrange(at, at + needle.len()) == needle
}

/// `needle` stands somewhere in `hay`, unbroken and unchanged.
pub open spec fn occurs_in(needle: Seq<char>, hay: Seq<char>) -> bool {
    exists|at: int| occurs_at(needle, hay, at)
}

/// A text occurs in whatever is written around it.
pub proof fn lemma_occurs_between(before: Seq<char>, needle: Seq<char>, after: Seq<char>)
    ensures
        occurs_in(needle, before + needle + after),
{
    let hay = before + needle + after;
    let at = before.len() as int;
    assert(hay.subrange(at, at + needle.len()) =~= needle);
    assert(occurs_at(needle, hay, at));
}

/// A text occurs at the end of whatever is written before it.
pub proof fn lemma_occurs_at_end(before: Seq<char>, needle: Seq<char>)
    ensures
        occurs_in(needle, before + needle),
{
    lemma_occurs_between(before, needle, Seq::empty());
    assert(before + needle + Seq::<char>::empty() =~= before + needle);
}

/// What occurs in a part occurs in the whole.
pub proof fn lemma_occurs_in_part(
    needle: Seq<char>,
    before: Seq<char>,
    part: Seq<char>,
    after: Seq<char>,
)
    requires
        occurs_in(needle, part),
    ensures
        occurs_in(needle, before + part + after),
{
    let at = choose|at: int| occurs_at(needle, part, at);
    let hay = before + part + after;
    let shifted = before.len() + at;
    assert(hay.subrange(shifted, shifted + needle.len()) =~= part.subrange(
        at,
        at + needle.len(),
    ));
    assert(occurs_at(needle, hay, shifted));
}

} // verus!
