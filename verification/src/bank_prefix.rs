//! The closed registry of New Zealand bank institution codes.
//!
//! Each New Zealand bank account number starts with a two-digit prefix that
//! identifies the issuing institution. The registry is a fixed enumeration:
//! codes cannot be added or removed at runtime, and any code outside the
//! table is unknown. Several prefixes share one display name (for example,
//! codes 01, 04, 06, 11 and 25 are all ANZ prefixes), so the registry keeps
//! one variant per numeric code rather than one per brand.

use vstd::prelude::*;

use crate::digits::{
    all_digits, digit_val, digits_value, is_digit, lemma_digits_value_at_least_hundred,
    lemma_strip_skip, strip_leading_zeros,
};

verus! {

broadcast use vstd::string::group_string_axioms;

/// Represents the specific bank or financial institution based on the
/// two-digit prefix of an NZ bank account number.
#[derive(Debug, Clone, Copy, PartialEq, Eq, Hash, Structural)]
pub enum BankPrefix {
    /// ANZ (prefix: 01)
    Anz,
    /// Bank of New Zealand (prefix: 02)
    Bnz,
    /// Westpac (prefix: 03)
    Westpac,
    /// ANZ Wise (prefix: 04)
    AnzWise,
    /// China Construction Bank (prefix: 05)
    ChinaConstruction,
    /// ANZ National (prefix: 06)
    AnzNational,
    /// NAB (prefix: 08)
    Nab,
    /// ICBC (prefix: 10)
    Icbc,
    /// ANZ PostBank (prefix: 11)
    AnzPostBank,
    /// ASB (prefix: 12)
    Asb,
    /// Westpac Trust (prefix: 13)
    WestpacTrust,
    /// Westpac Otago (prefix: 14)
    WestpacOtago,
    /// TSB (prefix: 15)
    Tsb,
    /// Westpac Southland (prefix: 16)
    WestpacSouthland,
    /// Westpac Bay of Plenty (prefix: 17)
    WestpacBop,
    /// Westpac Canterbury (prefix: 18)
    WestpacCanterbury,
    /// Westpac Waikato (prefix: 19)
    WestpacWaikato,
    /// Westpac Wellington (prefix: 20)
    WestpacWellington,
    /// Westpac Westland (prefix: 21)
    WestpacWestland,
    /// Westpac South Canterbury (prefix: 22)
    WestpacSouthCant,
    /// Westpac Auckland (prefix: 23)
    WestpacAuckland,
    /// ASB Partner (prefix: 24)
    AsbPartner,
    /// ANZ Partner (prefix: 25)
    AnzPartner,
    /// HSBC (prefix: 30)
    Hsbc,
    /// Citibank (prefix: 31)
    Citibank,
    /// Kiwibank (prefix: 38)
    Kiwibank,
    /// Bank of China (prefix: 88)
    BankOfChina,
}

impl BankPrefix {
    /// The numeric value of this institution's two-digit prefix.
    pub open spec fn code(self) -> int {
        match self {
            Self::Anz => 1,
            Self::Bnz => 2,
            Self::Westpac => 3,
            Self::AnzWise => 4,
            Self::ChinaConstruction => 5,
            Self::AnzNational => 6,
            Self::Nab => 8,
            Self::Icbc => 10,
            Self::AnzPostBank => 11,
            Self::Asb => 12,
            Self::WestpacTrust => 13,
            Self::WestpacOtago => 14,
            Self::Tsb => 15,
            Self::WestpacSouthland => 16,
            Self::WestpacBop => 17,
            Self::WestpacCanterbury => 18,
            Self::WestpacWaikato => 19,
            Self::WestpacWellington => 20,
            Self::WestpacWestland => 21,
            Self::WestpacSouthCant => 22,
            Self::WestpacAuckland => 23,
            Self::AsbPartner => 24,
            Self::AnzPartner => 25,
            Self::Hsbc => 30,
            Self::Citibank => 31,
            Self::Kiwibank => 38,
            Self::BankOfChina => 88,
        }
    }

    /// The registry table as a partial map from numeric codes to entries:
    /// `Some` exactly on the 27 assigned codes.
    pub open spec fn spec_from_code(code: int) -> Option<BankPrefix> {
        if code == 1 {
            Some(Self::Anz)
        } else if code == 2 {
            Some(Self::Bnz)
        } else if code == 3 {
            Some(Self::Westpac)
        } else if code == 4 {
            Some(Self::AnzWise)
        } else if code == 5 {
            Some(Self::ChinaConstruction)
        } else if code == 6 {
            Some(Self::AnzNational)
        } else if code == 8 {
            Some(Self::Nab)
        } else if code == 10 {
            Some(Self::Icbc)
        } else if code == 11 {
            Some(Self::AnzPostBank)
        } else if code == 12 {
            Some(Self::Asb)
        } else if code == 13 {
            Some(Self::WestpacTrust)
        } else if code == 14 {
            Some(Self::WestpacOtago)
        } else if code == 15 {
            Some(Self::Tsb)
        } else if code == 16 {
            Some(Self::WestpacSouthland)
        } else if code == 17 {
            Some(Self::WestpacBop)
        } else if code == 18 {
            Some(Self::WestpacCanterbury)
        } else if code == 19 {
            Some(Self::WestpacWaikato)
        } else if code == 20 {
            Some(Self::WestpacWellington)
        } else if code == 21 {
            Some(Self::WestpacWestland)
        } else if code == 22 {
            Some(Self::WestpacSouthCant)
        } else if code == 23 {
            Some(Self::WestpacAuckland)
        } else if code == 24 {
            Some(Self::AsbPartner)
        } else if code == 25 {
            Some(Self::AnzPartner)
        } else if code == 30 {
            Some(Self::Hsbc)
        } else if code == 31 {
            Some(Self::Citibank)
        } else if code == 38 {
            Some(Self::Kiwibank)
        } else if code == 88 {
            Some(Self::BankOfChina)
        } else {
            None
        }
    }

    /// True when `code` is one of the 27 assigned institution codes.
    pub open spec fn is_known_code(code: int) -> bool {
        Self::spec_from_code(code) is Some
    }

    /// What resolving a free-form code string yields: leading zeros are
    /// stripped, and the remainder must be a non-empty digit run whose value
    /// is an assigned code. An empty or all-zero string is unknown, not
    /// "code 0".
    pub open spec fn spec_resolve(s: Seq<char>) -> Option<BankPrefix> {
        let t = strip_leading_zeros(s);
        if t.len() > 0 && all_digits(t) {
            Self::spec_from_code(digits_value(t))
        } else {
            None
        }
    }

    /// The canonical two-digit display form of this institution's prefix.
    pub open spec fn display_code(self) -> Seq<char> {
        match self {
            Self::Anz => "01"@,
            Self::Bnz => "02"@,
            Self::Westpac => "03"@,
            Self::AnzWise => "04"@,
            Self::ChinaConstruction => "05"@,
            Self::AnzNational => "06"@,
            Self::Nab => "08"@,
            Self::Icbc => "10"@,
            Self::AnzPostBank => "11"@,
            Self::Asb => "12"@,
            Self::WestpacTrust => "13"@,
            Self::WestpacOtago => "14"@,
            Self::Tsb => "15"@,
            Self::WestpacSouthland => "16"@,
            Self::WestpacBop => "17"@,
            Self::WestpacCanterbury => "18"@,
            Self::WestpacWaikato => "19"@,
            Self::WestpacWellington => "20"@,
            Self::WestpacWestland => "21"@,
            Self::WestpacSouthCant => "22"@,
            Self::WestpacAuckland => "23"@,
            Self::AsbPartner => "24"@,
            Self::AnzPartner => "25"@,
            Self::Hsbc => "30"@,
            Self::Citibank => "31"@,
            Self::Kiwibank => "38"@,
            Self::BankOfChina => "88"@,
        }
    }

    /// The common display name of the institution.
    pub open spec fn spec_bank_name(self) -> Seq<char> {
        match self {
            Self::Anz | Self::AnzNational | Self::AnzPostBank | Self::AnzWise
            | Self::AnzPartner => "ANZ"@,
            Self::Bnz | Self::Nab => "Bank of New Zealand"@,
            Self::Westpac | Self::WestpacTrust | Self::WestpacOtago | Self::WestpacSouthland
            | Self::WestpacBop | Self::WestpacCanterbury | Self::WestpacWaikato
            | Self::WestpacWellington | Self::WestpacWestland | Self::WestpacSouthCant
            | Self::WestpacAuckland => "Westpac"@,
            Self::Asb | Self::AsbPartner => "ASB"@,
            Self::Kiwibank => "Kiwibank"@,
            Self::Tsb => "TSB"@,
            Self::ChinaConstruction => "China Construction Bank"@,
            Self::Icbc => "ICBC"@,
            Self::Hsbc => "HSBC"@,
            Self::Citibank => "Citibank"@,
            Self::BankOfChina => "Bank of China"@,
        }
    }

    /// Look up the registry entry for a numeric code.
    pub fn from_code(code: u8) -> (r: Option<BankPrefix>)
        ensures
            r == Self::spec_from_code(code as int),
    {
        match code {
            1 => Some(Self::Anz),
            2 => Some(Self::Bnz),
            3 => Some(Self::Westpac),
            4 => Some(Self::AnzWise),
            5 => Some(Self::ChinaConstruction),
            6 => Some(Self::AnzNational),
            8 => Some(Self::Nab),
            10 => Some(Self::Icbc),
            11 => Some(Self::AnzPostBank),
            12 => Some(Self::Asb),
            13 => Some(Self::WestpacTrust),
            14 => Some(Self::WestpacOtago),
            15 => Some(Self::Tsb),
            16 => Some(Self::WestpacSouthland),
            17 => Some(Self::WestpacBop),
            18 => Some(Self::WestpacCanterbury),
            19 => Some(Self::WestpacWaikato),
            20 => Some(Self::WestpacWellington),
            21 => Some(Self::WestpacWestland),
            22 => Some(Self::WestpacSouthCant),
            23 => Some(Self::WestpacAuckland),
            24 => Some(Self::AsbPartner),
            25 => Some(Self::AnzPartner),
            30 => Some(Self::Hsbc),
            31 => Some(Self::Citibank),
            38 => Some(Self::Kiwibank),
            88 => Some(Self::BankOfChina),
            _ => None,
        }
    }

    /// Get the two-digit bank prefix as a string (e.g., "01" for ANZ).
    pub fn as_str(&self) -> (r: &'static str)
        ensures
            r@ == self.display_code(),
    {
        match self {
            Self::Anz => "01",
            Self::Bnz => "02",
            Self::Westpac => "03",
            Self::AnzWise => "04",
            Self::ChinaConstruction => "05",
            Self::AnzNational => "06",
            Self::Nab => "08",
            Self::Icbc => "10",
            Self::AnzPostBank => "11",
            Self::Asb => "12",
            Self::WestpacTrust => "13",
            Self::WestpacOtago => "14",
            Self::Tsb => "15",
            Self::WestpacSouthland => "16",
            Self::WestpacBop => "17",
            Self::WestpacCanterbury => "18",
            Self::WestpacWaikato => "19",
            Self::WestpacWellington => "20",
            Self::WestpacWestland => "21",
            Self::WestpacSouthCant => "22",
            Self::WestpacAuckland => "23",
            Self::AsbPartner => "24",
            Self::AnzPartner => "25",
            Self::Hsbc => "30",
            Self::Citibank => "31",
            Self::Kiwibank => "38",
            Self::BankOfChina => "88",
        }
    }

    /// Get the common name of the bank (e.g., "ANZ", "Kiwibank").
    pub fn bank_name(&self) -> (r: &'static str)
        ensures
            r@ == self.spec_bank_name(),
    {
        match self {
            Self::Anz | Self::AnzNational | Self::AnzPostBank | Self::AnzWise
            | Self::AnzPartner => "ANZ",
            Self::Bnz | Self::Nab => "Bank of New Zealand",
            Self::Westpac | Self::WestpacTrust | Self::WestpacOtago | Self::WestpacSouthland
            | Self::WestpacBop | Self::WestpacCanterbury | Self::WestpacWaikato
            | Self::WestpacWellington | Self::WestpacWestland | Self::WestpacSouthCant
            | Self::WestpacAuckland => "Westpac",
            Self::Asb | Self::AsbPartner => "ASB",
            Self::Kiwibank => "Kiwibank",
            Self::Tsb => "TSB",
            Self::ChinaConstruction => "China Construction Bank",
            Self::Icbc => "ICBC",
            Self::Hsbc => "HSBC",
            Self::Citibank => "Citibank",
            Self::BankOfChina => "Bank of China",
        }
    }

    /// Resolve a free-form numeric code string to a registry entry.
    ///
    /// The string need not be zero-padded: `"01"` and `"1"` resolve to the
    /// same entry. An empty string, an all-zero string, a string with a
    /// non-digit character, and any value outside the fixed table resolve to
    /// `None`.
    pub fn resolve(code_text: &str) -> (r: Option<BankPrefix>)
        ensures
            r == Self::spec_resolve(code_text@),
    {
        let n = code_text.unicode_len();
        let mut start: usize = 0;
        loop
            invariant
                0 <= start <= n,
                n == code_text@.len(),
                forall|j: int| 0 <= j < start ==> code_text@[j] == '0',
            ensures
                0 <= start <= n,
                start == n || code_text@[start as int] != '0',
                forall|j: int| 0 <= j < start ==> code_text@[j] == '0',
            decreases n - start,
        {
            if start == n {
                break;
            }
            if code_text.get_char(start) != '0' {
                break;
            }
            start = start + 1;
        }
        proof {
            lemma_strip_skip(code_text@, start as int);
        }
        let ghost t = code_text@.skip(start as int);
        if start == n {
            // The string is empty or all zeros: unknown.
            proof {
                assert(t =~= Seq::<char>::empty());
            }
            return None;
        }
        assert(strip_leading_zeros(code_text@) == t);
        let mut i = start;
        while i < n
            invariant
                start <= i <= n,
                start < n,
                n == code_text@.len(),
                t == code_text@.skip(start as int),
                strip_leading_zeros(code_text@) == t,
                forall|j: int| start <= j < i ==> is_digit(#[trigger] code_text@[j]),
            decreases n - i,
        {
            let c = code_text.get_char(i);
            let u = c as u32;
            if !(48 <= u && u <= 57) {
                // A non-digit after the stripped zeros: unknown.
                assert(t[i as int - start as int] == code_text@[i as int]);
                assert(!all_digits(t));
                return None;
            }
            i = i + 1;
        }
        assert(all_digits(t));
        let len = n - start;
        if len > 2 {
            // Three or more significant digits name a value of at least 100,
            // beyond every assigned code.
            proof {
                lemma_digits_value_at_least_hundred(t);
            }
            return None;
        }
        let d0 = (code_text.get_char(start) as u32) - 48;
        let v: u32 = if len == 2 {
            d0 * 10 + ((code_text.get_char(start + 1) as u32) - 48)
        } else {
            d0
        };
        proof {
            if len == 2 {
                let u = t.drop_last();
                assert(u =~= seq![t[0]]);
                assert(u.drop_last() =~= Seq::<char>::empty());
                assert(digits_value(u) == digits_value(u.drop_last()) * 10 + digit_val(u.last()));
                assert(digits_value(t) == digits_value(u) * 10 + digit_val(t.last()));
            } else {
                assert(t =~= seq![t[0]]);
                assert(t.drop_last() =~= Seq::<char>::empty());
                assert(digits_value(t) == digits_value(t.drop_last()) * 10 + digit_val(t.last()));
            }
            assert(digits_value(t) == v as int);
        }
        Self::from_code(v as u8)
    }
}

/// Registry consistency: every entry's display code is the canonical
/// zero-padded two-digit decimal form of its numeric code, and looking that
/// code up again yields the same entry.
pub proof fn lemma_display_code_canonical(p: BankPrefix)
    ensures
        p.display_code().len() == 2,
        all_digits(p.display_code()),
        digits_value(p.display_code()) == p.code(),
        BankPrefix::spec_from_code(p.code()) == Some(p),
{
    reveal_strlit("01");
    reveal_strlit("02");
    reveal_strlit("03");
    reveal_strlit("04");
    reveal_strlit("05");
    reveal_strlit("06");
    reveal_strlit("08");
    reveal_strlit("10");
    reveal_strlit("11");
    reveal_strlit("12");
    reveal_strlit("13");
    reveal_strlit("14");
    reveal_strlit("15");
    reveal_strlit("16");
    reveal_strlit("17");
    reveal_strlit("18");
    reveal_strlit("19");
    reveal_strlit("20");
    reveal_strlit("21");
    reveal_strlit("22");
    reveal_strlit("23");
    reveal_strlit("24");
    reveal_strlit("25");
    reveal_strlit("30");
    reveal_strlit("31");
    reveal_strlit("38");
    reveal_strlit("88");
    let s = p.display_code();
    match p {
        BankPrefix::Anz => lemma_two_digit_run(s, '0', '1'),
        BankPrefix::Bnz => lemma_two_digit_run(s, '0', '2'),
        BankPrefix::Westpac => lemma_two_digit_run(s, '0', '3'),
        BankPrefix::AnzWise => lemma_two_digit_run(s, '0', '4'),
        BankPrefix::ChinaConstruction => lemma_two_digit_run(s, '0', '5'),
        BankPrefix::AnzNational => lemma_two_digit_run(s, '0', '6'),
        BankPrefix::Nab => lemma_two_digit_run(s, '0', '8'),
        BankPrefix::Icbc => lemma_two_digit_run(s, '1', '0'),
        BankPrefix::AnzPostBank => lemma_two_digit_run(s, '1', '1'),
        BankPrefix::Asb => lemma_two_digit_run(s, '1', '2'),
        BankPrefix::WestpacTrust => lemma_two_digit_run(s, '1', '3'),
        BankPrefix::WestpacOtago => lemma_two_digit_run(s, '1', '4'),
        BankPrefix::Tsb => lemma_two_digit_run(s, '1', '5'),
        BankPrefix::WestpacSouthland => lemma_two_digit_run(s, '1', '6'),
        BankPrefix::WestpacBop => lemma_two_digit_run(s, '1', '7'),
        BankPrefix::WestpacCanterbury => lemma_two_digit_run(s, '1', '8'),
        BankPrefix::WestpacWaikato => lemma_two_digit_run(s, '1', '9'),
        BankPrefix::WestpacWellington => lemma_two_digit_run(s, '2', '0'),
        BankPrefix::WestpacWestland => lemma_two_digit_run(s, '2', '1'),
        BankPrefix::WestpacSouthCant => lemma_two_digit_run(s, '2', '2'),
        BankPrefix::WestpacAuckland => lemma_two_digit_run(s, '2', '3'),
        BankPrefix::AsbPartner => lemma_two_digit_run(s, '2', '4'),
        BankPrefix::AnzPartner => lemma_two_digit_run(s, '2', '5'),
        BankPrefix::Hsbc => lemma_two_digit_run(s, '3', '0'),
        BankPrefix::Citibank => lemma_two_digit_run(s, '3', '1'),
        BankPrefix::Kiwibank => lemma_two_digit_run(s, '3', '8'),
        BankPrefix::BankOfChina => lemma_two_digit_run(s, '8', '8'),
    }
}

/// A two-character sequence of digit characters is a digit run whose value
/// is read off its two characters.
proof fn lemma_two_digit_run(s: Seq<char>, a: char, b: char)
    requires
        s.len() == 2,
        s[0] == a,
        s[1] == b,
        is_digit(a),
        is_digit(b),
    ensures
        all_digits(s),
        digits_value(s) == digit_val(a) * 10 + digit_val(b),
{
    assert forall|i: int| 0 <= i < s.len() implies is_digit(#[trigger] s[i]) by {
        assert(i == 0 || i == 1);
    }
    let u = s.drop_last();
    assert(u =~= seq![a]);
    assert(u.drop_last() =~= Seq::<char>::empty());
    assert(digits_value(u) == digits_value(u.drop_last()) * 10 + digit_val(u.last()));
    assert(digits_value(s) == digits_value(u) * 10 + digit_val(s.last()));
}

/// Resolving a two-digit code string is exactly looking up its two-digit
/// numeric value in the registry table: zero-padding never changes the
/// outcome.
pub proof fn lemma_resolve_digit_pair(s: Seq<char>)
    requires
        s.len() == 2,
        is_digit(s[0]),
        is_digit(s[1]),
    ensures
        BankPrefix::spec_resolve(s) == BankPrefix::spec_from_code(
            digit_val(s[0]) * 10 + digit_val(s[1]),
        ),
{
    lemma_two_digit_run(s, s[0], s[1]);
    if s[0] == '0' {
        let rest = s.drop_first();
        assert(rest =~= seq![s[1]]);
        assert(strip_leading_zeros(s) == strip_leading_zeros(rest));
        if s[1] == '0' {
            assert(strip_leading_zeros(rest) == strip_leading_zeros(rest.drop_first()));
            assert(rest.drop_first() =~= Seq::<char>::empty());
            assert(strip_leading_zeros(rest.drop_first()).len() == 0);
            assert(strip_leading_zeros(s).len() == 0);
        } else {
            assert(strip_leading_zeros(rest) == rest);
            assert(strip_leading_zeros(s) == rest);
            assert(rest.drop_last() =~= Seq::<char>::empty());
            assert(digits_value(rest) == digits_value(rest.drop_last()) * 10 + digit_val(
                rest.last(),
            ));
            assert(all_digits(rest));
        }
    } else {
        assert(strip_leading_zeros(s) == s);
    }
}

/// Prepending a `'0'` to a code string does not change what it resolves to.
pub proof fn lemma_resolve_leading_zero(s: Seq<char>)
    ensures
        BankPrefix::spec_resolve(seq!['0'] + s) == BankPrefix::spec_resolve(s),
{
    let z = seq!['0'] + s;
    assert(z[0] == '0');
    assert(z.drop_first() =~= s);
}

} // verus!
