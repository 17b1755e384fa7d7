//! Character-level helpers shared by the bank registry and the account number
//! canonicalizer: ASCII digits, digit runs, and the numeric value of a run.

use vstd::prelude::*;

verus! {

/// True when `c` is an ASCII decimal digit (`'0'` through `'9'`).
pub open spec fn is_digit(c: char) -> bool {
    '0' <= c && c <= '9'
}

/// Numeric value of an ASCII digit character.
pub open spec fn digit_val(c: char) -> int {
    c as int - 48
}

/// True when every character of `s` is an ASCII decimal digit.
pub open spec fn all_digits(s: Seq<char>) -> bool {
    forall|i: int| 0 <= i < s.len() ==> is_digit(#[trigger] s[i])
}

/// The base-ten value of a run of digit characters, most significant first.
/// The empty run has value zero.
pub open spec fn digits_value(s: Seq<char>) -> int
    decreases s.len(),
{
    if s.len() == 0 {
        0
    } else {
        digits_value(s.drop_last()) * 10 + digit_val(s.last())
    }
}

/// `s` with its leading `'0'` characters removed.
pub open spec fn strip_leading_zeros(s: Seq<char>) -> Seq<char>
    decreases s.len(),
{
    if s.len() > 0 && s[0] == '0' {
        strip_leading_zeros(s.drop_first())
    } else {
        s
    }
}

/// A digit run of at least three characters that does not start with a zero
/// has a value of at least one hundred.
pub proof fn lemma_digits_value_at_least_hundred(s: Seq<char>)
    requires
        all_digits(s),
        s.len() >= 3,
        s[0] != '0',
    ensures
        digits_value(s) >= 100,
    decreases s.len(),
{
    let t = s.drop_last();
    assert(all_digits(t));
    if s.len() == 3 {
        assert(digits_value(t) == digits_value(t.drop_last()) * 10 + digit_val(t.last()));
        let u = t.drop_last();
        assert(u =~= seq![s[0]]);
        assert(u.drop_last() =~= Seq::<char>::empty());
        assert(digits_value(u) == digits_value(u.drop_last()) * 10 + digit_val(u.last()));
        assert(digits_value(u) == digit_val(s[0]));
        assert(digit_val(s[0]) >= 1);
    } else {
        assert(t[0] == s[0]);
        lemma_digits_value_at_least_hundred(t);
    }
}

/// When the first `k` characters of `s` are `'0'`, stripping leading zeros
/// from `s` gives the same run as stripping them from `s` without those `k`
/// characters.
pub proof fn lemma_strip_skip(s: Seq<char>, k: int)
    requires
        0 <= k <= s.len(),
        forall|j: int| 0 <= j < k ==> s[j] == '0',
    ensures
        strip_leading_zeros(s) == strip_leading_zeros(s.skip(k)),
    decreases k,
{
    if k > 0 {
        assert(s[0] == '0');
        assert(s.drop_first() =~= s.skip(1));
        lemma_strip_skip(s.skip(1), k - 1);
        assert(s.skip(1).skip(k - 1) =~= s.skip(k));
    } else {
        assert(s.skip(0) =~= s);
    }
}

} // verus!
