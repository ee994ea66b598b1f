//! Facts about one text occurring inside another, over sequences of characters.

use vstd::prelude::*;

verus! {

/// `pattern` stands in `text` at offset `at`.
pub open spec fn occurs_at(text: Seq<char>, pattern: Seq<char>, at: int) -> bool {
    &&& 0 <= at
    &&& at + pattern.len() <= text.len()
    &&& text.subrange(at, at + pattern.len()) == pattern
}

/// `pattern` stands somewhere in `text`.
#[verifier::opaque]
pub open spec fn contains(text: Seq<char>, pattern: Seq<char>) -> bool {
    exists|at: int| occurs_at(text, pattern, at)
}

/// `text` begins with `prefix`.
pub open spec fn starts_with(text: Seq<char>, prefix: Seq<char>) -> bool {
    occurs_at(text, prefix, 0)
}

/// An occurrence in the middle part of a concatenation is an occurrence in the whole.
pub proof fn lemma_occurs_in_concat(
    before: Seq<char>,
    middle: Seq<char>,
    after: Seq<char>,
    pattern: Seq<char>,
    at: int,
)
    requires
        occurs_at(middle, pattern, at),
    ensures
        occurs_at(before + middle + after, pattern, before.len() + at),
{
    let whole = before + middle + after;
    let from = before.len() + at;
    assert(whole.subrange(from, from + pattern.len()) =~= middle.subrange(
        at,
        at + pattern.len(),
    ));
}

/// What the middle part of a concatenation contains, the whole contains.
pub proof fn lemma_contains_in_concat(
    before: Seq<char>,
    middle: Seq<char>,
    after: Seq<char>,
    pattern: Seq<char>,
)
    requires
        contains(middle, pattern),
    ensures
        contains(before + middle + after, pattern),
{
    reveal(contains);
    let at = choose|at: int| occurs_at(middle, pattern, at);
    lemma_occurs_in_concat(before, middle, after, pattern, at);
}

/// What a text contains, it still contains with something put before it.
pub proof fn lemma_contains_after(before: Seq<char>, text: Seq<char>, pattern: Seq<char>)
    requires
        contains(text, pattern),
    ensures
        contains(before + text, pattern),
{
    lemma_contains_in_concat(before, text, Seq::empty(), pattern);
    assert(before + text + Seq::<char>::empty() =~= before + text);
}

/// What a text contains, it still contains with something put after it.
pub proof fn lemma_contains_before(text: Seq<char>, after: Seq<char>, pattern: Seq<char>)
    requires
        contains(text, pattern),
    ensures
        contains(text + after, pattern),
{
    lemma_contains_in_concat(Seq::empty(), text, after, pattern);
    assert(Seq::<char>::empty() + text + after =~= text + after);
}

/// A text begins with any of its own prefixes.
pub proof fn lemma_starts_with_prefix(prefix: Seq<char>, rest: Seq<char>)
    ensures
        starts_with(prefix + rest, prefix),
        contains(prefix + rest, prefix),
{
    reveal(contains);
    assert((prefix + rest).subrange(0, prefix.len() as int) =~= prefix);
    assert(occurs_at(prefix + rest, prefix, 0));
}

/// Every text contains itself.
pub proof fn lemma_contains_self(text: Seq<char>)
    ensures
        contains(text, text),
{
    reveal(contains);
    assert(text.subrange(0, text.len() as int) =~= text);
    assert(occurs_at(text, text, 0));
}

} // verus!
