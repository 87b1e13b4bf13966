//! Joining texts and counting characters.

use vstd::prelude::*;

verus! {

/// The parts in order, with `separator` between each two neighbours.
pub open spec fn join(parts: Seq<Seq<char>>, separator: Seq<char>) -> Seq<char>
    decreases parts.len(),
{
    if parts.len() == 0 {
        Seq::empty()
    } else if parts.len() == 1 {
        parts[0]
    } else {
        join(parts.drop_last(), separator) + separator + parts.last()
    }
}

/// Joining one more part: alone if it is the first, else after a separator.
pub proof fn lemma_join_push(parts: Seq<Seq<char>>, separator: Seq<char>, part: Seq<char>)
    ensures
        join(parts.push(part), separator) == if parts.len() == 0 {
            part
        } else {
            join(parts, separator) + separator + part
        },
{
    assert(parts.push(part).drop_last() =~= parts);
}

/// How often `c` occurs in `text`.
pub open spec fn occurrences(text: Seq<char>, c: char) -> nat
    decreases text.len(),
{
    if text.len() == 0 {
        0
    } else {
        occurrences(text.drop_last(), c) + if text.last() == c {
            1nat
        } else {
            0nat
        }
    }
}

/// The occurrences in two texts add up in their concatenation.
pub proof fn lemma_occurrences_add(a: Seq<char>, b: Seq<char>, c: char)
    ensures
        occurrences(a + b, c) == occurrences(a, c) + occurrences(b, c),
    decreases b.len(),
{
    if b.len() == 0 {
        assert(a + b =~= a);
    } else {
        assert((a + b).drop_last() =~= a + b.drop_last());
        lemma_occurrences_add(a, b.drop_last(), c);
    }
}

/// A text in which no character is `c` has no occurrence of it.
pub proof fn lemma_occurrences_none(text: Seq<char>, c: char)
    requires
        !text.contains(c),
    ensures
        occurrences(text, c) == 0,
    decreases text.len(),
{
    if text.len() > 0 {
        let rest = text.drop_last();
        assert forall|i: int| 0 <= i < rest.len() implies rest[i] != c by {
            assert(rest[i] == text[i]);
        }
        lemma_occurrences_none(rest, c);
        assert(text.last() == text[text.len() - 1]);
    }
}

/// The occurrences in joined parts: those in the parts, and those in the
/// separators between them.
pub proof fn lemma_occurrences_join(parts: Seq<Seq<char>>, separator: Seq<char>, c: char, each: nat)
    requires
        forall|i: int| 0 <= i < parts.len() ==> occurrences(#[trigger] parts[i], c) == each,
        occurrences(separator, c) == 0,
    ensures
        occurrences(join(parts, separator), c) == parts.len() * each,
    decreases parts.len(),
{
    if parts.len() >= 2 {
        let rest = parts.drop_last();
        assert forall|i: int| 0 <= i < rest.len() implies occurrences(#[trigger] rest[i], c)
            == each by {
            assert(rest[i] == parts[i]);
        }
        lemma_occurrences_join(rest, separator, c, each);
        lemma_occurrences_add(join(rest, separator), separator, c);
        lemma_occurrences_add(join(rest, separator) + separator, parts.last(), c);
        assert(parts.len() * each == rest.len() * each + each) by (nonlinear_arith)
            requires
                parts.len() == rest.len() + 1,
        ;
    } else if parts.len() == 1 {
        assert(parts.len() * each == each) by (nonlinear_arith)
            requires
                parts.len() == 1,
        ;
    } else {
        assert(parts.len() * each == 0) by (nonlinear_arith)
            requires
                parts.len() == 0,
        ;
    }
}

} // verus!
