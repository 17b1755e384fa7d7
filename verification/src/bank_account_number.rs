//! New Zealand bank account number parsing and canonicalization.
//!
//! A valid account number has four fixed-width digit fields: a two-digit bank
//! code (which must be an assigned institution code), a four-digit branch
//! code, a seven-digit account base number and a three-digit suffix. Input is
//! accepted either already hyphenated (`BB-CCCC-NNNNNNN-SSS`) or as one
//! contiguous run of sixteen digits; everything else is rejected. Whatever
//! the input shape, the value stores the single canonical hyphenated form,
//! so component accessors are pure projections of fixed offsets.

use vstd::prelude::*;

use crate::bank_prefix::BankPrefix;
use crate::digits::{all_digits, digit_val, is_digit};

verus! {

broadcast use vstd::string::group_string_axioms;

/// Error when a bank account number is invalid. It carries the offending
/// input verbatim.
#[derive(Debug, Clone)]
pub struct InvalidBankAccountError(pub String);

/// The numeric value of the two-digit bank code at the front of `s`.
pub open spec fn bank_code_value(s: Seq<char>) -> int {
    digit_val(s[0]) * 10 + digit_val(s[1])
}

/// The canonical hyphenated form: nineteen characters with hyphens exactly
/// at offsets 2, 7 and 15, digits everywhere else, and an assigned bank code
/// in the first two characters.
pub open spec fn is_canonical(s: Seq<char>) -> bool {
    &&& s.len() == 19
    &&& s[2] == '-'
    &&& s[7] == '-'
    &&& s[15] == '-'
    &&& forall|i: int|
        0 <= i < 19 && i != 2 && i != 7 && i != 15 ==> is_digit(#[trigger] s[i])
    &&& BankPrefix::is_known_code(bank_code_value(s))
}

/// The accepted contiguous form: exactly sixteen digits whose first two
/// characters name an assigned bank code.
pub open spec fn is_contiguous(s: Seq<char>) -> bool {
    &&& s.len() == 16
    &&& all_digits(s)
    &&& BankPrefix::is_known_code(bank_code_value(s))
}

/// The canonical form obtained from a sixteen-digit run by slicing it at the
/// fixed field widths 2, 4, 7 and 3 and joining the fields with hyphens.
pub open spec fn hyphenate(s: Seq<char>) -> Seq<char> {
    s.subrange(0, 2) + seq!['-'] + s.subrange(2, 6) + seq!['-'] + s.subrange(6, 13) + seq!['-']
        + s.subrange(13, 16)
}

/// Where each character of `hyphenate(s)` comes from.
pub proof fn lemma_hyphenate_chars(s: Seq<char>)
    requires
        s.len() == 16,
    ensures
        hyphenate(s).len() == 19,
        forall|i: int| 0 <= i < 2 ==> #[trigger] hyphenate(s)[i] == s[i],
        hyphenate(s)[2] == '-',
        forall|i: int| 3 <= i < 7 ==> #[trigger] hyphenate(s)[i] == s[i - 1],
        hyphenate(s)[7] == '-',
        forall|i: int| 8 <= i < 15 ==> #[trigger] hyphenate(s)[i] == s[i - 2],
        hyphenate(s)[15] == '-',
        forall|i: int| 16 <= i < 19 ==> #[trigger] hyphenate(s)[i] == s[i - 3],
{
}

/// Hyphenating a valid contiguous run yields the canonical form, with the
/// same bank code.
pub proof fn lemma_hyphenate_canonical(s: Seq<char>)
    requires
        is_contiguous(s),
    ensures
        is_canonical(hyphenate(s)),
        bank_code_value(hyphenate(s)) == bank_code_value(s),
{
    lemma_hyphenate_chars(s);
    let h = hyphenate(s);
    assert forall|i: int| 0 <= i < 19 && i != 2 && i != 7 && i != 15 implies is_digit(
        #[trigger] h[i],
    ) by {
        if i < 2 {
            assert(h[i] == s[i]);
        } else if i < 7 {
            assert(h[i] == s[i - 1]);
        } else if i < 15 {
            assert(h[i] == s[i - 2]);
        } else {
            assert(h[i] == s[i - 3]);
        }
    }
}

/// A canonical form contains only ASCII characters.
pub proof fn lemma_canonical_ascii(s: Seq<char>)
    requires
        is_canonical(s),
    ensures
        vstd::utf8::is_ascii_chars(s),
{
    assert forall|i: int| 0 <= i < s.len() implies '\0' <= #[trigger] s[i] <= '\u{7f}' by {
        if i != 2 && i != 7 && i != 15 {
            assert(is_digit(s[i]));
        }
    }
}

/// Component extraction integrity: a canonical value is exactly its four
/// component fields joined with hyphens, so re-assembling the components
/// reproduces the stored string.
pub proof fn lemma_component_extraction(v: Seq<char>)
    requires
        is_canonical(v),
    ensures
        v == v.subrange(0, 2) + seq!['-'] + v.subrange(3, 7) + seq!['-'] + v.subrange(8, 15)
            + seq!['-'] + v.subrange(16, 19),
{
    assert(v =~= v.subrange(0, 2) + seq!['-'] + v.subrange(3, 7) + seq!['-'] + v.subrange(8, 15)
        + seq!['-'] + v.subrange(16, 19));
}

/// Equivalence of encodings: for any four digit fields of widths 2, 4, 7 and
/// 3, the contiguous sixteen-digit spelling and the hyphenated spelling are
/// accepted together or rejected together, the contiguous spelling
/// canonicalizes to exactly the hyphenated one, and each component of the
/// canonical form reads back the corresponding field.
pub proof fn lemma_encoding_equivalence(b: Seq<char>, c: Seq<char>, n: Seq<char>, x: Seq<char>)
    requires
        b.len() == 2,
        c.len() == 4,
        n.len() == 7,
        x.len() == 3,
        all_digits(b),
        all_digits(c),
        all_digits(n),
        all_digits(x),
    ensures
        ({
            let contiguous = b + c + n + x;
            let hyphenated = b + seq!['-'] + c + seq!['-'] + n + seq!['-'] + x;
            &&& hyphenate(contiguous) == hyphenated
            &&& (is_contiguous(contiguous) <==> is_canonical(hyphenated))
            &&& hyphenated.subrange(0, 2) == b
            &&& hyphenated.subrange(3, 7) == c
            &&& hyphenated.subrange(8, 15) == n
            &&& hyphenated.subrange(16, 19) == x
        }),
{
    let contiguous = b + c + n + x;
    let hyphenated = b + seq!['-'] + c + seq!['-'] + n + seq!['-'] + x;
    assert(contiguous.subrange(0, 2) =~= b);
    assert(contiguous.subrange(2, 6) =~= c);
    assert(contiguous.subrange(6, 13) =~= n);
    assert(contiguous.subrange(13, 16) =~= x);
    assert(hyphenate(contiguous) =~= hyphenated);
    assert(hyphenated.subrange(0, 2) =~= b);
    assert(hyphenated.subrange(3, 7) =~= c);
    assert(hyphenated.subrange(8, 15) =~= n);
    assert(hyphenated.subrange(16, 19) =~= x);
    assert(all_digits(contiguous));
    assert(bank_code_value(contiguous) == bank_code_value(hyphenated));
    if is_contiguous(contiguous) {
        lemma_hyphenate_canonical(contiguous);
    }
    if is_canonical(hyphenated) {
        assert(BankPrefix::is_known_code(bank_code_value(contiguous)));
    }
}

/// The bank code segment of a canonical value always resolves in the
/// registry, and to the same entry that looking up its numeric value gives:
/// the `bank_code` accessor and the `prefix` accessor can never disagree.
pub proof fn lemma_bank_code_resolves(v: Seq<char>)
    requires
        is_canonical(v),
    ensures
        BankPrefix::spec_resolve(v.subrange(0, 2)) == BankPrefix::spec_from_code(
            bank_code_value(v),
        ),
        BankPrefix::spec_resolve(v.subrange(0, 2)) is Some,
{
    let s = v.subrange(0, 2);
    assert(is_digit(v[0]));
    assert(is_digit(v[1]));
    crate::bank_prefix::lemma_resolve_digit_pair(s);
}

/// A validated New Zealand bank account number.
///
/// The stored string is always the canonical hyphenated form
/// `BB-CCCC-NNNNNNN-SSS`, even when the value was constructed from the
/// contiguous sixteen-digit form, so the component accessors can read fixed
/// byte ranges without re-validating.
#[derive(Debug, PartialEq, Eq, Hash)]
pub struct BankAccountNumber {
    text: String,
}

impl Clone for BankAccountNumber {
    /// Cloning keeps the canonical string.
    fn clone(&self) -> (r: Self)
        ensures
            r@ == self@,
    {
        proof {
            use_type_invariant(self);
        }
        BankAccountNumber { text: self.text.clone() }
    }
}

impl View for BankAccountNumber {
    type V = Seq<char>;

    closed spec fn view(&self) -> Seq<char> {
        self.text@
    }
}

impl BankAccountNumber {
    /// The single invariant of the type: the stored string is canonical.
    #[verifier::type_invariant]
    pub open spec fn wf(self) -> bool {
        is_canonical(self@)
    }

    /// Create a new bank account number with format validation.
    ///
    /// Exactly the canonical hyphenated shape and the sixteen-digit
    /// contiguous shape are accepted; the error carries the rejected input
    /// verbatim.
    pub fn new(value: &str) -> (r: Result<Self, InvalidBankAccountError>)
        ensures
            r is Ok <==> is_canonical(value@) || is_contiguous(value@),
            r matches Ok(a) ==> a@ == (if is_canonical(value@) {
                value@
            } else {
                hyphenate(value@)
            }),
            r matches Err(e) ==> e.0@ == value@,
    {
        if is_canonical_str(value) {
            Ok(BankAccountNumber { text: value.to_owned() })
        } else if is_contiguous_str(value) {
            proof {
                lemma_hyphenate_canonical(value@);
            }
            Ok(BankAccountNumber { text: hyphenated_of(value) })
        } else {
            Err(InvalidBankAccountError(value.to_owned()))
        }
    }

    /// Returns the bank prefix registry entry for this account number.
    pub fn prefix(&self) -> (r: BankPrefix)
        ensures
            Some(r) == BankPrefix::spec_from_code(bank_code_value(self@)),
    {
        proof {
            use_type_invariant(self);
        }
        let d0 = (self.text.as_str().get_char(0) as u32) - 48;
        let d1 = (self.text.as_str().get_char(1) as u32) - 48;
        let looked_up = BankPrefix::from_code((d0 * 10 + d1) as u8);
        match looked_up {
            Some(p) => p,
            None => {
                // Unreachable: the stored string is canonical, so its bank
                // code is always assigned.
                proof {
                    assert(false);
                }
                BankPrefix::Anz
            },
        }
    }

    /// Returns the 2-digit bank code string (e.g., "01").
    pub fn bank_code(&self) -> (r: &str)
        ensures
            r@ == self@.subrange(0, 2),
    {
        proof {
            use_type_invariant(self);
            lemma_canonical_ascii(self@);
        }
        self.text.as_str().substring_ascii(0, 2)
    }

    /// Returns the 4-digit branch code string (e.g., "0123").
    pub fn branch_code(&self) -> (r: &str)
        ensures
            r@ == self@.subrange(3, 7),
    {
        proof {
            use_type_invariant(self);
            lemma_canonical_ascii(self@);
        }
        self.text.as_str().substring_ascii(3, 7)
    }

    /// Returns the 7-digit account base number string (e.g., "0012345").
    pub fn account_number(&self) -> (r: &str)
        ensures
            r@ == self@.subrange(8, 15),
    {
        proof {
            use_type_invariant(self);
            lemma_canonical_ascii(self@);
        }
        self.text.as_str().substring_ascii(8, 15)
    }

    /// Returns the 3-digit suffix string (e.g., "000").
    pub fn suffix(&self) -> (r: &str)
        ensures
            r@ == self@.subrange(16, 19),
    {
        proof {
            use_type_invariant(self);
            lemma_canonical_ascii(self@);
        }
        self.text.as_str().substring_ascii(16, 19)
    }

    /// Returns the full canonical string representation.
    pub fn as_str(&self) -> (r: &str)
        ensures
            r@ == self@,
            is_canonical(r@),
    {
        proof {
            use_type_invariant(self);
        }
        self.text.as_str()
    }
}

/// Decide whether `s` is exactly the canonical hyphenated form.
fn is_canonical_str(s: &str) -> (b: bool)
    ensures
        b == is_canonical(s@),
{
    let n = s.unicode_len();
    if n != 19 {
        return false;
    }
    let mut i: usize = 0;
    while i < 19
        invariant
            0 <= i <= 19,
            s@.len() == 19,
            forall|j: int|
                0 <= j < i && j != 2 && j != 7 && j != 15 ==> is_digit(#[trigger] s@[j]),
            forall|j: int| 0 <= j < i && (j == 2 || j == 7 || j == 15) ==> s@[j] == '-',
        decreases 19 - i,
    {
        let c = s.get_char(i);
        if i == 2 || i == 7 || i == 15 {
            if c != '-' {
                return false;
            }
        } else {
            let u = c as u32;
            if !(48 <= u && u <= 57) {
                return false;
            }
        }
        i = i + 1;
    }
    let d0 = (s.get_char(0) as u32) - 48;
    let d1 = (s.get_char(1) as u32) - 48;
    BankPrefix::from_code((d0 * 10 + d1) as u8).is_some()
}

/// Decide whether `s` is exactly the valid contiguous sixteen-digit form.
fn is_contiguous_str(s: &str) -> (b: bool)
    ensures
        b == is_contiguous(s@),
{
    let n = s.unicode_len();
    if n != 16 {
        return false;
    }
    let mut i: usize = 0;
    while i < 16
        invariant
            0 <= i <= 16,
            s@.len() == 16,
            forall|j: int| 0 <= j < i ==> is_digit(#[trigger] s@[j]),
        decreases 16 - i,
    {
        let c = s.get_char(i);
        let u = c as u32;
        if !(48 <= u && u <= 57) {
            return false;
        }
        i = i + 1;
    }
    let d0 = (s.get_char(0) as u32) - 48;
    let d1 = (s.get_char(1) as u32) - 48;
    BankPrefix::from_code((d0 * 10 + d1) as u8).is_some()
}

/// Re-serialize a valid contiguous run into the canonical hyphenated form by
/// slicing it at the fixed field widths and joining with hyphens.
fn hyphenated_of(s: &str) -> (r: String)
    requires
        is_contiguous(s@),
    ensures
        r@ == hyphenate(s@),
{
    proof {
        assert forall|i: int| 0 <= i < s@.len() implies '\0' <= #[trigger] s@[i] <= '\u{7f}' by {
            assert(is_digit(s@[i]));
        }
    }
    let bank = s.substring_ascii(0, 2);
    let branch = s.substring_ascii(2, 6);
    let account = s.substring_ascii(6, 13);
    let suffix = s.substring_ascii(13, 16);
    let joined = bank.to_owned().concat("-").concat(branch).concat("-").concat(account).concat(
        "-",
    ).concat(suffix);
    proof {
        reveal_strlit("-");
        assert("-"@ =~= seq!['-']);
        assert(joined@ =~= hyphenate(s@));
    }
    joined
}

} // verus!
