//! External record identifiers.
//!
//! A record identifier is surfaced to callers as a fixed-width
//! hexadecimal string: twenty-four hex digits naming a 96-bit
//! storage-native key.  Parsing accepts either letter case (as the
//! storage driver does); the canonical form the store hands out is
//! lowercase.  A string of the wrong length, or holding a non-hex
//! character, does not name any record and must be reported as a
//! malformed identifier, never as a missing record.

use vstd::prelude::*;

verus! {

/// Number of hex digits in an external identifier.
pub const OID_LEN: usize = 24;

/// The sixteen lowercase hex digits, in value order.
pub open spec fn hex_digits() -> Seq<char> {
    seq!['0', '1', '2', '3', '4', '5', '6', '7', '8', '9', 'a', 'b', 'c', 'd', 'e', 'f']
}

/// The lowercase hex digit with value `d`.
pub open spec fn hex_char_of(d: int) -> char {
    hex_digits()[d]
}

/// Value of a hex digit character, or -1 when `c` is not a hex digit.
/// Both letter cases are accepted.
pub open spec fn hex_value(c: char) -> int {
    let u = c as int;
    if 48 <= u && u <= 57 {
        u - 48
    } else if 97 <= u && u <= 102 {
        u - 87
    } else if 65 <= u && u <= 70 {
        u - 55
    } else {
        -1
    }
}

/// Every character of `s` is a hex digit.
pub open spec fn all_hex(s: Seq<char>) -> bool {
    forall|i: int| 0 <= i < s.len() ==> hex_value(#[trigger] s[i]) >= 0
}

/// Numeric value of a hex digit string, most significant digit first.
pub open spec fn hex_num(s: Seq<char>) -> int
    decreases s.len(),
{
    if s.len() == 0 {
        0
    } else {
        16 * hex_num(s.drop_last()) + hex_value(s.last())
    }
}

/// 16 to the power `n`.
pub open spec fn pow16(n: nat) -> int
    decreases n,
{
    if n == 0 {
        1
    } else {
        16 * pow16((n - 1) as nat)
    }
}

/// What an identifier string names: the 96-bit value of its digits
/// when it is exactly `OID_LEN` hex digits, nothing otherwise.
pub open spec fn parse_oid_spec(s: Seq<char>) -> Option<u128> {
    if s.len() == OID_LEN && all_hex(s) {
        Some(hex_num(s) as u128)
    } else {
        None
    }
}

/// The canonical (lowercase) identifier string of value `v`.
pub open spec fn oid_hex(v: u128) -> Seq<char> {
    Seq::new(OID_LEN as nat, |i: int| hex_char_of((v as int / pow16((OID_LEN - 1 - i) as nat)) % 16))
}

/// A value small enough to be named by `OID_LEN` hex digits.
pub open spec fn oid_in_range(v: u128) -> bool {
    v < pow16(OID_LEN as nat)
}

proof fn lemma_pow16_pos(n: nat)
    ensures
        pow16(n) >= 1,
    decreases n,
{
    if n > 0 {
        lemma_pow16_pos((n - 1) as nat);
    }
}

/// A string of hex digits of length `n` has a value below `pow16(n)`.
proof fn lemma_hex_num_bound(s: Seq<char>)
    requires
        all_hex(s),
    ensures
        0 <= hex_num(s) < pow16(s.len()),
    decreases s.len(),
{
    if s.len() == 0 {
    } else {
        assert(all_hex(s.drop_last()));
        lemma_hex_num_bound(s.drop_last());
        assert(0 <= hex_value(s.last()) <= 15);
    }
}

/// Public form of the bound, for callers that reason about parses.
pub proof fn lemma_parse_in_range(s: Seq<char>)
    ensures
        parse_oid_spec(s) is Some ==> oid_in_range(parse_oid_spec(s)->0),
{
    if parse_oid_spec(s) is Some {
        lemma_hex_num_bound(s);
    }
}

proof fn lemma_hex_value_of_digit(d: int)
    requires
        0 <= d < 16,
    ensures
        hex_value(hex_char_of(d)) == d,
{
}

/// The digits of `v`, read back as a number, give `v` again:
/// `hex_num` of the `n` least significant digits of `v` is `v mod 16^n`.
proof fn lemma_hex_num_of_digits(v: int, n: nat)
    requires
        v >= 0,
    ensures
        hex_num(Seq::new(n, |i: int| hex_char_of((v / pow16((n - 1 - i) as nat)) % 16))) == v
            % pow16(n),
    decreases n,
{
    let s = Seq::new(n, |i: int| hex_char_of((v / pow16((n - 1 - i) as nat)) % 16));
    if n == 0 {
        assert(v % 1 == 0) by {
            vstd::arithmetic::div_mod::lemma_div_basics(v);
            vstd::arithmetic::div_mod::lemma_fundamental_div_mod(v, 1);
        }
    } else {
        let m = (n - 1) as nat;
        let v16 = v / 16;
        let prev = Seq::new(m, |i: int| hex_char_of((v16 / pow16((m - 1 - i) as nat)) % 16));
        lemma_hex_num_of_digits(v16, m);
        // the first n-1 digits of v are the digits of v / 16
        assert forall|i: int| 0 <= i < m implies s[i] == prev[i] by {
            let e = (m - 1 - i) as nat;
            lemma_pow16_pos(e);
            vstd::arithmetic::div_mod::lemma_div_denominator(v, 16, pow16(e));
            assert(v / 16 / pow16(e) == v / (16 * pow16(e)));
            assert(16 * pow16(e) == pow16((e + 1) as nat));
        }
        assert(s.drop_last() =~= prev);
        // and its last digit is v mod 16
        lemma_pow16_pos(0);
        assert(pow16(0) == 1);
        assert(v / pow16(0) == v) by {
            vstd::arithmetic::div_mod::lemma_div_basics(v);
        }
        assert(s.last() == hex_char_of(v % 16));
        vstd::arithmetic::div_mod::lemma_mod_bound(v, 16);
        lemma_hex_value_of_digit(v % 16);
        assert(hex_num(s) == 16 * (v16 % pow16(m)) + v % 16);
        assert(16 * (v / 16 % pow16(m)) + v % 16 == v % (16 * pow16(m))) by {
            lemma_pow16_pos(m);
            vstd::arithmetic::div_mod::lemma_mod_breakdown(v, 16, pow16(m));
        }
        assert(16 * pow16(m) == pow16(n));
    }
}

/// Round trip: parsing the canonical string of an in-range value
/// gives that value back.
pub proof fn lemma_oid_round_trip(v: u128)
    requires
        oid_in_range(v),
    ensures
        parse_oid_spec(oid_hex(v)) == Some(v),
{
    let s = oid_hex(v);
    assert forall|i: int| 0 <= i < s.len() implies hex_value(#[trigger] s[i]) >= 0 by {
        let e = (OID_LEN - 1 - i) as nat;
        lemma_pow16_pos(e);
        vstd::arithmetic::div_mod::lemma_div_is_ordered(0, v as int, pow16(e));
        vstd::arithmetic::div_mod::lemma_mod_bound(v as int / pow16(e), 16);
        lemma_hex_value_of_digit((v as int / pow16(e)) % 16);
    }
    lemma_hex_num_of_digits(v as int, OID_LEN as nat);
    vstd::arithmetic::div_mod::lemma_small_mod(v as nat, pow16(OID_LEN as nat) as nat);
}

/// 16 to the power `e`, executable.
fn pow16_exec(e: usize) -> (r: u128)
    requires
        e < OID_LEN,
    ensures
        r == pow16(e as nat),
{
    let mut r: u128 = 1;
    let mut i: usize = 0;
    while i < e
        invariant
            i <= e,
            e < OID_LEN,
            r == pow16(i as nat),
        decreases e - i,
    {
        proof {
            lemma_pow16_le((i + 1) as nat, OID_LEN as nat);
            lemma_oid_bound_value();
        }
        r = r * 16;
        i = i + 1;
    }
    r
}

proof fn lemma_pow16_le(a: nat, b: nat)
    requires
        a <= b,
    ensures
        pow16(a) <= pow16(b),
    decreases b,
{
    if a < b {
        lemma_pow16_le(a, (b - 1) as nat);
        lemma_pow16_pos((b - 1) as nat);
    }
}

/// The concrete bound: every identifier value fits comfortably in a
/// `u128`, since `16^24` is `2^96`.
pub proof fn lemma_oid_bound_value()
    ensures
        pow16(OID_LEN as nat) == 0x1000000000000000000000000,
{
    reveal_with_fuel(pow16, 25);
}

/// Parse an external identifier string.  Returns the 96-bit value it
/// names, or nothing when the string is not exactly twenty-four hex
/// digits.
pub fn parse_oid(s: &str) -> (r: Option<u128>)
    ensures
        r == parse_oid_spec(s@),
{
    let n = s.unicode_len();
    if n != OID_LEN {
        assert(s@.len() != OID_LEN);
        return None;
    }
    let mut v: u128 = 0;
    let mut i: usize = 0;
    while i < OID_LEN
        invariant
            i <= OID_LEN,
            s@.len() == OID_LEN,
            all_hex(s@.take(i as int)),
            v == hex_num(s@.take(i as int)),
            v < pow16(i as nat),
        decreases OID_LEN - i,
    {
        let c = s.get_char(i);
        let u = c as u32;
        let d: u32 = if 48 <= u && u <= 57 {
            u - 48
        } else if 97 <= u && u <= 102 {
            u - 87
        } else if 65 <= u && u <= 70 {
            u - 55
        } else {
            assert(hex_value(s@[i as int]) < 0);
            assert(!all_hex(s@));
            return None;
        };
        assert(d == hex_value(c));
        proof {
            lemma_pow16_le((i + 1) as nat, OID_LEN as nat);
            lemma_oid_bound_value();
            assert(s@.take(i as int + 1).drop_last() =~= s@.take(i as int));
            assert(s@.take(i as int + 1).last() == s@[i as int]);
        }
        v = v * 16 + d as u128;
        i = i + 1;
    }
    proof {
        assert(s@.take(OID_LEN as int) =~= s@);
    }
    Some(v)
}

/// One-character string slice for the hex digit with value `d`.
fn hex_digit_str(d: u128) -> (r: &'static str)
    requires
        d < 16,
    ensures
        r@ =~= seq![hex_char_of(d as int)],
{
    let r: &'static str = match d {
        0 => "0",
        1 => "1",
        2 => "2",
        3 => "3",
        4 => "4",
        5 => "5",
        6 => "6",
        7 => "7",
        8 => "8",
        9 => "9",
        10 => "a",
        11 => "b",
        12 => "c",
        13 => "d",
        14 => "e",
        _ => "f",
    };
    proof {
        reveal_strlit("0");
        reveal_strlit("1");
        reveal_strlit("2");
        reveal_strlit("3");
        reveal_strlit("4");
        reveal_strlit("5");
        reveal_strlit("6");
        reveal_strlit("7");
        reveal_strlit("8");
        reveal_strlit("9");
        reveal_strlit("a");
        reveal_strlit("b");
        reveal_strlit("c");
        reveal_strlit("d");
        reveal_strlit("e");
        reveal_strlit("f");
    }
    r
}

/// Canonical lowercase identifier string of an in-range value.
pub fn oid_to_hex(v: u128) -> (r: String)
    requires
        oid_in_range(v),
    ensures
        r@ == oid_hex(v),
{
    let mut r = String::new();
    let mut i: usize = 0;
    while i < OID_LEN
        invariant
            i <= OID_LEN,
            oid_in_range(v),
            r@ =~= oid_hex(v).take(i as int),
        decreases OID_LEN - i,
    {
        let p = pow16_exec(OID_LEN - 1 - i);
        proof {
            lemma_pow16_pos((OID_LEN - 1 - i) as nat);
        }
        let d = (v / p) % 16;
        assert(d < 16);
        r.append(hex_digit_str(d));
        proof {
            assert(d == (v as int / pow16((OID_LEN - 1 - i) as nat)) % 16);
            assert(oid_hex(v)[i as int] == hex_char_of(d as int));
            assert(oid_hex(v).take(i + 1) =~= oid_hex(v).take(i as int).push(
                oid_hex(v)[i as int],
            ));
        }
        i = i + 1;
    }
    proof {
        assert(oid_hex(v).take(OID_LEN as int) =~= oid_hex(v));
    }
    r
}

} // verus!
