//! Textual encodings shared by the services: decimal and hexadecimal numerals,
//! hexadecimal parsing and substring search.
use vstd::prelude::*;

verus! {

/// The character that writes digit `d` (`0`-`9`, then lower-case `a`-`f`).
pub open spec fn digit_char(d: nat) -> char {
    if d < 10 {
        ((48 + d) as int) as char
    } else {
        ((97 + d - 10) as int) as char
    }
}

/// The decimal numeral of `n`, without sign or leading zeros.
pub open spec fn decimal(n: nat) -> Seq<char>
    decreases n,
{
    if n < 10 {
        seq![digit_char(n)]
    } else {
        decimal(n / 10).push(digit_char(n % 10))
    }
}

/// The lower-case hexadecimal numeral of `n` in exactly `width` digits, padded with
/// zeros on the left (higher digits are cut off).
pub open spec fn hex_fixed(n: nat, width: nat) -> Seq<char>
    decreases width,
{
    if width == 0 {
        seq![]
    } else {
        hex_fixed(n / 16, (width - 1) as nat).push(digit_char(n % 16))
    }
}

/// The value of a hexadecimal digit in either case, or -1 for any other character.
pub open spec fn hex_digit_value(c: char) -> int {
    let v = c as int;
    if 48 <= v <= 57 {
        v - 48
    } else if 97 <= v <= 102 {
        v - 87
    } else if 65 <= v <= 70 {
        v - 55
    } else {
        -1
    }
}

/// The value of a string of hexadecimal digits, most significant first.
pub open spec fn hex_value(s: Seq<char>) -> int
    decreases s.len(),
{
    if s.len() == 0 {
        0
    } else {
        hex_value(s.drop_last()) * 16 + hex_digit_value(s.last())
    }
}

/// The digits of an unsigned numeral: the text without one leading `+`.
pub open spec fn numeral_digits(s: Seq<char>) -> Seq<char> {
    if s.len() > 0 && s[0] == '+' {
        s.drop_first()
    } else {
        s
    }
}

/// An optional `+` followed by one or more hexadecimal digits.
pub open spec fn is_hex_numeral(s: Seq<char>) -> bool {
    let d = numeral_digits(s);
    &&& d.len() > 0
    &&& forall|i: int| 0 <= i < d.len() ==> hex_digit_value(#[trigger] d[i]) >= 0
}

/// What reading `s` as a hexadecimal number below `bound` gives.
pub open spec fn hex_number(s: Seq<char>, bound: int) -> Option<int> {
    if is_hex_numeral(s) && hex_value(numeral_digits(s)) < bound {
        Some(hex_value(numeral_digits(s)))
    } else {
        None
    }
}

/// `needle` occurs in `hay` as a run of consecutive characters.
pub open spec fn occurs_in(needle: Seq<char>, hay: Seq<char>) -> bool {
    exists|i: int| 0 <= i <= hay.len() - needle.len() && #[trigger] hay.subrange(i, i + needle.len()) == needle
}

/// Reads `s` as a `u32` in base 16 with `u32::from_str_radix`.
/// Claimed of the std function: it accepts exactly an optional `+` followed by one or
/// more digits `0-9`, `a-f`, `A-F` whose value fits in a `u32`, and then returns that value.
#[verifier::external_body]
pub(crate) fn u32_from_hex(s: &str) -> (r: Option<u32>)
    ensures
        r matches Some(v) ==> hex_number(s@, u32::MAX + 1) == Some(v as int),
        r is None ==> hex_number(s@, u32::MAX + 1) is None,
{
    u32::from_str_radix(s, 16).ok()
}

/// Reads `s` as a `u128` in base 16 with `u128::from_str_radix`.
/// Claimed of the std function: it accepts exactly an optional `+` followed by one or
/// more digits `0-9`, `a-f`, `A-F` whose value fits in a `u128`, and then returns that value.
#[verifier::external_body]
pub(crate) fn u128_from_hex(s: &str) -> (r: Option<u128>)
    ensures
        r matches Some(v) ==> hex_number(s@, u128::MAX + 1) == Some(v as int),
        r is None ==> hex_number(s@, u128::MAX + 1) is None,
{
    u128::from_str_radix(s, 16).ok()
}

/// Substring search with `str::contains` on a `&str` pattern.
/// Claimed of the std function: it is true exactly when `needle` occurs in `hay`
/// (the empty needle occurs in every string).
#[verifier::external_body]
pub(crate) fn str_contains(hay: &str, needle: &str) -> (b: bool)
    ensures
        b == occurs_in(needle@, hay@),
{
    hay.contains(needle)
}

/// The one-character string that writes digit `d`.
pub fn digit_str(d: u8) -> (s: &'static str)
    requires
        d < 16,
    ensures
        s@ == seq![digit_char(d as nat)],
{
    match d {
        0 => { proof { reveal_strlit("0"); } "0" },
        1 => { proof { reveal_strlit("1"); } "1" },
        2 => { proof { reveal_strlit("2"); } "2" },
        3 => { proof { reveal_strlit("3"); } "3" },
        4 => { proof { reveal_strlit("4"); } "4" },
        5 => { proof { reveal_strlit("5"); } "5" },
        6 => { proof { reveal_strlit("6"); } "6" },
        7 => { proof { reveal_strlit("7"); } "7" },
        8 => { proof { reveal_strlit("8"); } "8" },
        9 => { proof { reveal_strlit("9"); } "9" },
        10 => { proof { reveal_strlit("a"); } "a" },
        11 => { proof { reveal_strlit("b"); } "b" },
        12 => { proof { reveal_strlit("c"); } "c" },
        13 => { proof { reveal_strlit("d"); } "d" },
        14 => { proof { reveal_strlit("e"); } "e" },
        _ => { proof { reveal_strlit("f"); } "f" },
    }
}

/// The decimal numeral of `n`, as `n.to_string()` writes it.
pub fn decimal_string(n: u64) -> (s: String)
    ensures
        s@ == decimal(n as nat),
{
    let mut acc = String::from_str(digit_str((n % 10) as u8));
    let mut rest: u64 = n / 10;
    while rest > 0
        invariant
            rest > 0 ==> decimal(n as nat) == decimal(rest as nat) + acc@,
            rest == 0 ==> decimal(n as nat) == acc@,
        decreases rest,
    {
        let d = String::from_str(digit_str((rest % 10) as u8));
        proof {
            let r = rest as nat;
            if r >= 10 {
                assert(decimal(r) == decimal(r / 10).push(digit_char(r % 10)));
                assert(decimal(r) + acc@ =~= decimal(r / 10) + (d@ + acc@));
            } else {
                assert(decimal(r) + acc@ =~= d@ + acc@);
            }
        }
        acc = d.concat(acc.as_str());
        rest = rest / 10;
    }
    acc
}

/// The eight-digit lower-case hexadecimal numeral of `n`, as `format!("{:08x}", n)` writes it.
pub fn hex8_string(n: u32) -> (s: String)
    ensures
        s@ == hex_fixed(n as nat, 8),
{
    let mut acc = String::new();
    let mut rest: u32 = n;
    let mut k: u32 = 0;
    while k < 8
        invariant
            k <= 8,
            hex_fixed(n as nat, 8) == hex_fixed(rest as nat, (8 - k) as nat) + acc@,
        decreases 8 - k,
    {
        let d = String::from_str(digit_str((rest % 16) as u8));
        proof {
            let w = (8 - k) as nat;
            assert(hex_fixed(rest as nat, w) == hex_fixed(rest as nat / 16, (w - 1) as nat).push(
                digit_char(rest as nat % 16),
            ));
            assert(hex_fixed(rest as nat, w) + acc@ =~= hex_fixed(rest as nat / 16, (w - 1) as nat)
                + (d@ + acc@));
        }
        acc = d.concat(acc.as_str());
        rest = rest / 16;
        k = k + 1;
    }
    proof {
        assert(hex_fixed(rest as nat, 0) + acc@ =~= acc@);
    }
    acc
}

/// Sixteen to the power `w`.
pub open spec fn pow16(w: nat) -> nat
    decreases w,
{
    if w == 0 {
        1
    } else {
        16 * pow16((w - 1) as nat)
    }
}

/// Every digit written by `digit_char` reads back as its value.
pub proof fn lemma_digit_roundtrip(d: nat)
    requires
        d < 16,
    ensures
        hex_digit_value(digit_char(d)) == d,
{
}

/// A fixed-width hexadecimal numeral reads back as the number it writes, when the
/// number fits in that width.
pub proof fn lemma_hex_fixed_roundtrip(n: nat, w: nat)
    requires
        n < pow16(w),
    ensures
        hex_value(hex_fixed(n, w)) == n,
        forall|i: int| 0 <= i < w ==> hex_digit_value(#[trigger] hex_fixed(n, w)[i]) >= 0,
        hex_fixed(n, w).len() == w,
    decreases w,
{
    if w > 0 {
        let p = pow16((w - 1) as nat);
        assert(n / 16 < p);
        lemma_hex_fixed_roundtrip(n / 16, (w - 1) as nat);
        lemma_digit_roundtrip(n % 16);
        let s = hex_fixed(n, w);
        assert(s.drop_last() =~= hex_fixed(n / 16, (w - 1) as nat));
        assert forall|i: int| 0 <= i < w implies hex_digit_value(#[trigger] s[i]) >= 0 by {
            if i < w - 1 {
                assert(s[i] == hex_fixed(n / 16, (w - 1) as nat)[i]);
            }
        }
    }
}

/// What `hex8_string` writes, `u32_from_hex` reads back: an eight-digit lexicon code
/// survives the trip through its text form.
pub proof fn lemma_hex8_roundtrip(n: u32)
    ensures
        hex_number(hex_fixed(n as nat, 8), u32::MAX + 1) == Some(n as int),
{
    assert(pow16(8) == u32::MAX + 1) by {
        reveal_with_fuel(pow16, 9);
    }
    lemma_hex_fixed_roundtrip(n as nat, 8);
    let s = hex_fixed(n as nat, 8);
    assert(s[0] != '+') by {
        assert(hex_digit_value(s[0]) >= 0);
    }
    assert(numeral_digits(s) == s);
}

} // verus!
