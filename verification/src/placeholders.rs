//! The placeholders of a statement text: `$1`, `$2` and so on.

use vstd::prelude::*;
use vstd::string::StringExecFns;
use crate::decimal::{decimal, digit_char, push_decimal};
use crate::text::{lemma_occurrences_add, lemma_occurrences_none, occurrences};

verus! {

/// The placeholder with the number `n`.
pub open spec fn placeholder(n: nat) -> Seq<char> {
    "$"@ + decimal(n)
}

/// The placeholders from `$1` to the one with the number `count`.
pub open spec fn placeholders(count: nat) -> Seq<Seq<char>> {
    Seq::new(count, |i: int| placeholder((i + 1) as nat))
}

/// The number of placeholders in a statement text: each begins with `$`.
pub open spec fn placeholder_count(text: Seq<char>) -> nat {
    occurrences(text, '$')
}

/// Appends the placeholder with the number `n` to `out`.
pub fn push_placeholder(out: &mut String, n: usize)
    ensures
        final(out)@ == old(out)@ + placeholder(n as nat),
{
    out.append("$");
    push_decimal(out, n);
    assert(out@ =~= old(out)@ + placeholder(n as nat));
}

/// A decimal number holds no `$`.
pub proof fn lemma_decimal_has_no_placeholder(n: nat)
    ensures
        placeholder_count(decimal(n)) == 0,
    decreases n,
{
    if n >= 10 {
        lemma_decimal_has_no_placeholder(n / 10);
        assert(decimal(n).drop_last() =~= decimal(n / 10));
        assert(decimal(n).last() == digit_char(n % 10));
    } else {
        assert(decimal(n).drop_last() =~= Seq::<char>::empty());
        assert(decimal(n).last() == digit_char(n));
        assert(occurrences(Seq::<char>::empty(), '$') == 0);
    }
}

/// A placeholder counts as one.
pub proof fn lemma_placeholder_counts_once(n: nat)
    ensures
        placeholder_count(placeholder(n)) == 1,
{
    reveal_strlit("$");
    let sign = "$"@;
    assert(sign.drop_last() =~= Seq::<char>::empty());
    assert(occurrences(sign.drop_last(), '$') == 0);
    assert(placeholder_count(sign) == 1);
    lemma_decimal_has_no_placeholder(n);
    lemma_occurrences_add(sign, decimal(n), '$');
}

/// A text without `$`, then a placeholder, counts as one.
pub proof fn lemma_text_then_placeholder(text: Seq<char>, n: nat)
    requires
        !text.contains('$'),
    ensures
        placeholder_count(text + placeholder(n)) == 1,
{
    lemma_occurrences_none(text, '$');
    lemma_placeholder_counts_once(n);
    lemma_occurrences_add(text, placeholder(n), '$');
}

} // verus!
