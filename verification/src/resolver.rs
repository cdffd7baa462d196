//! Resolution of textual identifiers into 128-bit UUID values.

use vstd::prelude::*;
use vstd::arithmetic::div_mod::{
    lemma_basic_div, lemma_div_denominator, lemma_fundamental_div_mod, lemma_mod_pos_bound,
};
use vstd::arithmetic::power::{lemma_pow_adds, lemma_pow_positive, pow};
use crate::error::{BleError, BleErrorView};

verus! {

/// The error type of the `uuid` crate, carried through opaquely.
#[verifier::external_type_specification]
#[verifier::external_body]
pub struct ExUuidError(::uuid::Error);

/// What `uuid::Uuid::parse_str` makes of a text: the 128-bit value, read
/// big-endian, of the UUID it accepts, or `None` where it rejects the text.
pub uninterp spec fn uuid_parse_str(text: Seq<char>) -> Option<u128>;

/// The lower-case hexadecimal digit for a value below sixteen.
pub open spec fn hex_digit(n: int) -> char {
    seq!['0', '1', '2', '3', '4', '5', '6', '7', '8', '9', 'a', 'b', 'c', 'd', 'e', 'f'][n]
}

/// The `k`-th of the 32 hexadecimal digits of `value`, most significant first.
pub open spec fn nibble(value: u128, k: int) -> int {
    (value as int / pow(16, (31 - k) as nat)) % 16
}

/// Whether position `p` of the canonical text holds a hyphen.
pub open spec fn is_hyphen_position(p: int) -> bool {
    p == 8 || p == 13 || p == 18 || p == 23
}

/// The number of hyphens that stand before position `p` of the canonical text.
pub open spec fn hyphens_before(p: int) -> int {
    if p > 23 {
        4
    } else if p > 18 {
        3
    } else if p > 13 {
        2
    } else if p > 8 {
        1
    } else {
        0
    }
}

/// The canonical text of a UUID: 32 lower-case hexadecimal digits in groups of
/// 8, 4, 4, 4 and 12, separated by hyphens.
pub open spec fn hyphenated(value: u128) -> Seq<char> {
    Seq::new(
        36,
        |p: int|
            if is_hyphen_position(p) {
                '-'
            } else {
                hex_digit(nibble(value, p - hyphens_before(p)))
            },
    )
}

/// The position in the canonical text of the `k`-th hexadecimal digit.
pub open spec fn digit_position(k: int) -> int {
    if k >= 20 {
        k + 4
    } else if k >= 16 {
        k + 3
    } else if k >= 12 {
        k + 2
    } else if k >= 8 {
        k + 1
    } else {
        k
    }
}

/// Sixteen to the 32nd power is the number of 128-bit values.
proof fn lemma_sixteen_to_32()
    ensures
        pow(16, 32) == 0x1_0000_0000_0000_0000_0000_0000_0000_0000,
{
    assert(pow(16, 4) == 0x1_0000) by {
        reveal_with_fuel(pow, 5);
    }
    lemma_pow_adds(16, 4, 4);
    assert(pow(16, 8) == 0x1_0000_0000);
    lemma_pow_adds(16, 8, 8);
    assert(pow(16, 16) == 0x1_0000_0000_0000_0000);
    lemma_pow_adds(16, 16, 16);
}

/// Two values with the same 32 hexadecimal digits agree on what is left of
/// them after the last `m` digits are dropped.
proof fn lemma_same_digits_same_prefix(a: u128, b: u128, m: nat)
    requires
        forall|k: int| 0 <= k < 32 ==> nibble(a, k) == nibble(b, k),
        m <= 32,
    ensures
        a as int / pow(16, m) == b as int / pow(16, m),
    decreases 32 - m,
{
    if m == 32 {
        lemma_sixteen_to_32();
        lemma_basic_div(a as int, pow(16, 32));
        lemma_basic_div(b as int, pow(16, 32));
    } else {
        lemma_same_digits_same_prefix(a, b, m + 1);
        let unit = pow(16, m);
        lemma_pow_positive(16, m);
        lemma_pow_adds(16, m, 1);
        assert(pow(16, 1) == 16) by {
            reveal_with_fuel(pow, 2);
        }
        lemma_div_denominator(a as int, unit, 16);
        lemma_div_denominator(b as int, unit, 16);
        lemma_fundamental_div_mod(a as int / unit, 16);
        lemma_fundamental_div_mod(b as int / unit, 16);
        assert(nibble(a, 31 - m) == nibble(b, 31 - m));
    }
}

/// Different UUIDs have different canonical texts.
pub proof fn lemma_hyphenated_injective(a: u128, b: u128)
    requires
        hyphenated(a) == hyphenated(b),
    ensures
        a == b,
{
    assert forall|k: int| 0 <= k < 32 implies nibble(a, k) == nibble(b, k) by {
        let p = digit_position(k);
        assert(hyphenated(a)[p] == hex_digit(nibble(a, k)));
        assert(hyphenated(b)[p] == hex_digit(nibble(b, k)));
        lemma_pow_positive(16, (31 - k) as nat);
        lemma_mod_pos_bound(a as int / pow(16, (31 - k) as nat), 16);
        lemma_mod_pos_bound(b as int / pow(16, (31 - k) as nat), 16);
        let x = nibble(a, k);
        let y = nibble(b, k);
        assert(0 <= x < 16 && 0 <= y < 16);
        assert(hex_digit(x) == hex_digit(y));
        assert(forall|i: int, j: int|
            0 <= i < 16 && 0 <= j < 16 && #[trigger] hex_digit(i) == #[trigger] hex_digit(j) ==> i
                == j);
    }
    lemma_same_digits_same_prefix(a, b, 0);
    assert(pow(16, 0) == 1) by {
        reveal_with_fuel(pow, 1);
    }
}

/// A 128-bit UUID value.
#[derive(Debug, Clone, Copy, PartialEq, Eq, Structural, Hash)]
pub struct Uuid {
    pub value: u128,
}

/// Calls `uuid::Uuid::parse_str` and hands the accepted UUID out as its
/// big-endian 128-bit value (`Uuid::as_u128`). Claims that the outcome depends
/// on the text alone: acceptance and value are those of [`uuid_parse_str`].
#[verifier::external_body]
fn parse_str(text: &str) -> (r: Result<u128, ::uuid::Error>)
    ensures
        r is Ok <==> uuid_parse_str(text@) is Some,
        r matches Ok(value) ==> uuid_parse_str(text@) == Some(value),
{
    match ::uuid::Uuid::parse_str(text) {
        Ok(id) => Ok(id.as_u128()),
        Err(e) => Err(e),
    }
}

/// Calls `to_string` on the `uuid::Uuid` made by `Uuid::from_u128`. Claims
/// that the text is the hyphenated lower-case form of the value, and that
/// `uuid::Uuid::parse_str` reads that text back as the same value.
#[verifier::external_body]
fn format_hyphenated(value: u128) -> (text: String)
    ensures
        text@ == hyphenated(value),
        uuid_parse_str(text@) == Some(value),
{
    ::uuid::Uuid::from_u128(value).to_string()
}

impl Uuid {
    /// What [`Uuid::parse`] makes of a text.
    pub open spec fn spec_parse(text: Seq<char>) -> Result<Uuid, BleErrorView> {
        match uuid_parse_str(text) {
            Some(value) => Ok(Uuid { value }),
            None => Err(BleErrorView::InvalidUuid(text)),
        }
    }

    /// Whether a text is rejected by the UUID grammar.
    pub open spec fn is_malformed(text: Seq<char>) -> bool {
        uuid_parse_str(text) is None
    }

    /// The UUID with the given 128-bit value.
    pub fn from_u128(value: u128) -> (id: Uuid)
        ensures
            id.value == value,
    {
        Uuid { value }
    }

    /// The 128-bit value of the UUID.
    pub fn as_u128(&self) -> (value: u128)
        ensures
            value == self.value,
    {
        self.value
    }

    /// The resolver's answer for a text and what the grammar made of it: the
    /// UUID of the accepted value, or `InvalidUuid` together with the text.
    pub fn from_parsed(text: &str, parsed: Result<u128, ::uuid::Error>) -> (r: Result<
        Uuid,
        BleError,
    >)
        ensures
            match parsed {
                Ok(value) => r == Ok::<Uuid, BleError>(Uuid { value }),
                Err(_) => r matches Err(e) && e@ == BleErrorView::InvalidUuid(text@),
            },
    {
        match parsed {
            Ok(value) => Ok(Uuid { value }),
            Err(_) => Err(BleError::InvalidUuid(text.to_owned())),
        }
    }

    /// Parses a textual UUID. A text outside the grammar is reported as
    /// `InvalidUuid` together with the text itself.
    pub fn parse(text: &str) -> (r: Result<Uuid, BleError>)
        ensures
            match r {
                Ok(id) => Uuid::spec_parse(text@) == Ok::<Uuid, BleErrorView>(id),
                Err(e) => Uuid::spec_parse(text@) == Err::<Uuid, BleErrorView>(e@),
            },
    {
        Uuid::from_parsed(text, parse_str(text))
    }

    /// The canonical hyphenated text of the UUID.
    pub fn to_text(&self) -> (text: String)
        ensures
            text@ == hyphenated(self.value),
            Uuid::spec_parse(text@) == Ok::<Uuid, BleErrorView>(*self),
    {
        format_hyphenated(self.value)
    }
}

} // verus!
