//! Universally unique identifiers and their text form.

use vstd::prelude::*;

verus! {

/// The character for a hexadecimal digit (`0`..`15`), in lower case.
pub open spec fn hex_digit(n: nat) -> char {
    if n < 10 {
        (48 + n) as char
    } else {
        (87 + n) as char
    }
}

/// The `width` lowest hexadecimal digits of `value`, most significant first.
pub open spec fn hex_digits(value: nat, width: nat) -> Seq<char>
    decreases width,
{
    if width == 0 {
        Seq::empty()
    } else {
        hex_digits(value / 16, (width - 1) as nat).push(hex_digit(value % 16))
    }
}

/// The hyphenated text of a 128-bit identifier: its 32 lower-case hexadecimal
/// digits in groups of 8, 4, 4, 4 and 12, separated by `-`.
pub open spec fn hyphenated(value: u128) -> Seq<char> {
    let d = hex_digits(value as nat, 32);
    d.subrange(0, 8) + seq!['-'] + d.subrange(8, 12) + seq!['-'] + d.subrange(12, 16) + seq!['-']
        + d.subrange(16, 20) + seq!['-'] + d.subrange(20, 32)
}

/// A universally unique identifier, held as its 128-bit value
/// (the bytes of the identifier read in big-endian order).
#[derive(Clone, Copy, PartialEq, Eq, Structural, Debug, Hash)]
pub struct Uuid {
    pub value: u128,
}

/// `uuid::Uuid::from_u128` followed by `to_string`: the crate formats an
/// identifier as its hyphenated lower-case text, which is what this states.
#[verifier::external_body]
fn hyphenated_string(value: u128) -> (text: String)
    ensures
        text@ == hyphenated(value),
{
    uuid::Uuid::from_u128(value).to_string()
}

impl Uuid {
    /// The nil identifier, as a value.
    pub open spec fn nil_value() -> Uuid {
        Uuid { value: 0 }
    }

    /// The identifier with the given 128-bit value.
    pub fn from_u128(value: u128) -> (id: Uuid)
        ensures
            id.value == value,
    {
        Uuid { value }
    }

    /// The 128-bit value of the identifier.
    pub fn as_u128(&self) -> (value: u128)
        ensures
            value == self.value,
    {
        self.value
    }

    /// The nil identifier, all of whose bits are zero.
    pub fn nil() -> (id: Uuid)
        ensures
            id == Uuid::nil_value(),
    {
        Uuid { value: 0 }
    }

    /// The hyphenated lower-case text of the identifier, such as
    /// `67e55044-10b1-426f-9247-bb680e5fe0c8`.
    pub fn to_string(&self) -> (text: String)
        ensures
            text@ == hyphenated(self.value),
    {
        hyphenated_string(self.value)
    }
}

impl Default for Uuid {
    fn default() -> (id: Uuid)
        ensures
            id == Uuid::nil_value(),
    {
        Uuid::nil()
    }
}

/// `16` to the power `n`.
pub open spec fn pow16(n: nat) -> nat
    decreases n,
{
    if n == 0 {
        1
    } else {
        16 * pow16((n - 1) as nat)
    }
}

/// A hexadecimal digit text has as many characters as its width.
pub proof fn hex_digits_len(value: nat, width: nat)
    ensures
        hex_digits(value, width).len() == width,
    decreases width,
{
    if width > 0 {
        hex_digits_len(value / 16, (width - 1) as nat);
    }
}

/// The hexadecimal digit characters of two different digits differ.
pub proof fn hex_digit_injective(a: nat, b: nat)
    requires
        a < 16,
        b < 16,
        hex_digit(a) == hex_digit(b),
    ensures
        a == b,
{
}

/// Equal digit texts of the same width come from values that agree modulo
/// `16` to the power of the width.
pub proof fn hex_digits_determine_value(a: nat, b: nat, width: nat)
    requires
        hex_digits(a, width) == hex_digits(b, width),
    ensures
        a % pow16(width) == b % pow16(width),
    decreases width,
{
    if width == 0 {
        assert(a % 1 == 0 && b % 1 == 0) by (nonlinear_arith);
    } else {
        let w: nat = (width - 1) as nat;
        let da = hex_digits(a / 16, w);
        let db = hex_digits(b / 16, w);
        assert(hex_digits(a, width) == da.push(hex_digit(a % 16)));
        assert(hex_digits(b, width) == db.push(hex_digit(b % 16)));
        hex_digits_len(a / 16, w);
        hex_digits_len(b / 16, w);
        assert(da == hex_digits(a, width).drop_last());
        assert(db == hex_digits(b, width).drop_last());
        hex_digits_determine_value(a / 16, b / 16, w);
        assert(hex_digits(a, width)[w as int] == hex_digit(a % 16));
        assert(hex_digits(b, width)[w as int] == hex_digit(b % 16));
        hex_digit_injective(a % 16, b % 16);
        let p: nat = pow16(w);
        assert(p > 0) by {
            pow16_positive(w);
        }
        mod_of_digit_split(a, p);
        mod_of_digit_split(b, p);
    }
}

/// `16 ^ n` is positive.
pub proof fn pow16_positive(n: nat)
    ensures
        pow16(n) > 0,
    decreases n,
{
    if n > 0 {
        pow16_positive((n - 1) as nat);
    }
}

/// Splitting off the last hexadecimal digit: `x mod 16p` is the value of
/// `(x / 16) mod p` followed by the digit `x mod 16`.
proof fn mod_of_digit_split(x: nat, p: nat)
    requires
        p > 0,
    ensures
        x % (16 * p) == ((x / 16) % p) * 16 + x % 16,
{
    let q: nat = x / 16;
    let r: nat = x % 16;
    assert(x == q * 16 + r) by (nonlinear_arith)
        requires
            q == x / 16,
            r == x % 16,
    ;
    let q1: nat = q / p;
    let r1: nat = q % p;
    assert(q == q1 * p + r1 && 0 <= r1 < p) by (nonlinear_arith)
        requires
            p > 0,
            q1 == q / p,
            r1 == q % p,
    ;
    assert(x == q1 * (16 * p) + (r1 * 16 + r)) by (nonlinear_arith)
        requires
            x == q * 16 + r,
            q == q1 * p + r1,
    ;
    assert(0 <= r1 * 16 + r < 16 * p) by (nonlinear_arith)
        requires
            0 <= r1 < p,
            0 <= r < 16,
    ;
    lemma_mod_unique(x as int, (16 * p) as int, q1 as int, (r1 * 16 + r) as int);
}

/// The remainder of a division is the unique `r` with `x == q * d + r` and `0 <= r < d`.
proof fn lemma_mod_unique(x: int, d: int, q: int, r: int)
    requires
        d > 0,
        x == q * d + r,
        0 <= r < d,
    ensures
        x % d == r,
{
    assert(x % d == r) by (nonlinear_arith)
        requires
            d > 0,
            x == q * d + r,
            0 <= r < d,
    ;
}

/// The text of an identifier is 36 characters long: 32 hexadecimal digits,
/// with `-` at the 9th, 14th, 19th and 24th places.
pub proof fn hyphenated_shape(value: u128)
    ensures
        hyphenated(value).len() == 36,
        hyphenated(value)[8] == '-',
        hyphenated(value)[13] == '-',
        hyphenated(value)[18] == '-',
        hyphenated(value)[23] == '-',
{
    hex_digits_len(value as nat, 32);
}

/// Different identifiers have different texts.
pub proof fn hyphenated_injective(a: u128, b: u128)
    requires
        hyphenated(a) == hyphenated(b),
    ensures
        a == b,
{
    let da = hex_digits(a as nat, 32);
    let db = hex_digits(b as nat, 32);
    hex_digits_len(a as nat, 32);
    hex_digits_len(b as nat, 32);
    let ta = hyphenated(a);
    let tb = hyphenated(b);
    assert forall|i: int| 0 <= i < 32 implies da[i] == db[i] by {
        let k: int = if i < 8 {
            i
        } else if i < 12 {
            i + 1
        } else if i < 16 {
            i + 2
        } else if i < 20 {
            i + 3
        } else {
            i + 4
        };
        assert(ta[k] == da[i]);
        assert(tb[k] == db[i]);
    }
    assert(da == db);
    hex_digits_determine_value(a as nat, b as nat, 32);
    reveal_with_fuel(pow16, 33);
    assert(pow16(32) == 0x1_0000_0000_0000_0000_0000_0000_0000_0000nat);
    lemma_mod_unique(a as int, pow16(32) as int, 0, a as int);
    lemma_mod_unique(b as int, pow16(32) as int, 0, b as int);
}

} // verus!
