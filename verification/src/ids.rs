//! Identifiers of users, sockets, sessions and reset tokens: 128-bit numbers,
//! written as UUIDs where text is needed.

use uuid::Uuid;
use vstd::arithmetic::div_mod::{
    lemma_div_basics, lemma_div_denominator, lemma_fundamental_div_mod,
};
use vstd::arithmetic::power::{lemma_pow_positive, pow};
use vstd::prelude::*;

verus! {

/// The lower-case hexadecimal digit that stands for `value`.
pub open spec fn hex_digit(value: int) -> char {
    if value < 10 {
        ('0' as int + value) as char
    } else {
        ('a' as int + value - 10) as char
    }
}

/// The `place`-th of the 32 hexadecimal digits of `id`, counted from the left.
pub open spec fn nibble(id: u128, place: int) -> int {
    (id as int / pow(16, (31 - place) as nat)) % 16
}

/// Whether position `i` of a written identifier holds a hyphen.
pub open spec fn is_hyphen_position(i: int) -> bool {
    i == 8 || i == 13 || i == 18 || i == 23
}

/// Which of the 32 digits stands at position `i` of a written identifier.
pub open spec fn digit_at(i: int) -> int {
    if i < 8 {
        i
    } else if i < 13 {
        i - 1
    } else if i < 18 {
        i - 2
    } else if i < 23 {
        i - 3
    } else {
        i - 4
    }
}

/// An identifier written out: 32 hexadecimal digits in groups of eight, four,
/// four, four and twelve, with hyphens between the groups.
pub open spec fn uuid_text(id: u128) -> Seq<char> {
    Seq::new(
        36,
        |i: int|
            if is_hyphen_position(i) {
                '-'
            } else {
                hex_digit(nibble(id, digit_at(i)))
            },
    )
}

/// Whether the version and variant digits of `id` are those of a random UUID.
pub open spec fn is_random_uuid(id: u128) -> bool {
    &&& nibble(id, 12) == 4
    &&& 8 <= nibble(id, 16) < 12
}

/// Draws an identifier with `uuid::Uuid::new_v4`.
///
/// Claimed of every draw: the version digit is 4 and the variant is the one of
/// RFC 4122. Which of those identifiers comes is chance.
#[verifier::external_body]
pub(crate) fn random_uuid() -> (id: u128)
    ensures
        is_random_uuid(id),
{
    Uuid::new_v4().as_u128()
}

/// Writes an identifier with the `Display` of `uuid::Uuid`.
///
/// Claimed: the text is the hyphenated lower-case form.
#[verifier::external_body]
pub(crate) fn uuid_string(id: u128) -> (text: String)
    ensures
        text@ == uuid_text(id),
{
    Uuid::from_u128(id).to_string()
}

/// A character that occurs in written identifiers.
pub open spec fn is_uuid_char(c: char) -> bool {
    c == '-' || '0' <= c <= '9' || 'a' <= c <= 'f'
}

/// A written identifier has 36 characters, each a hexadecimal digit or a hyphen.
pub proof fn uuid_text_is_plain(id: u128)
    ensures
        uuid_text(id).len() == 36,
        forall|i: int| 0 <= i < 36 ==> is_uuid_char(#[trigger] uuid_text(id)[i]),
{
    assert forall|i: int| 0 <= i < 36 implies is_uuid_char(#[trigger] uuid_text(id)[i]) by {
        let d = nibble(id, digit_at(i));
        assert(0 <= d < 16);
    }
}

proof fn hex_digit_is_injective(a: int, b: int)
    requires
        0 <= a < 16,
        0 <= b < 16,
        hex_digit(a) == hex_digit(b),
    ensures
        a == b,
{
}

/// Equal leading digits make equal quotients.
proof fn leading_digits_decide(a: u128, b: u128, count: nat)
    requires
        count <= 32,
        forall|place: int| 0 <= place < count ==> nibble(a, place) == nibble(b, place),
    ensures
        a as int / pow(16, (32 - count) as nat) == b as int / pow(16, (32 - count) as nat),
    decreases count,
{
    if count == 0 {
        assert(pow(16, 32) == 0x1_0000_0000_0000_0000_0000_0000_0000_0000) by {
            reveal_with_fuel(pow, 33);
        }
    } else {
        let low = (32 - count) as nat;
        leading_digits_decide(a, b, (count - 1) as nat);
        lemma_pow_positive(16, low);
        assert(pow(16, low + 1) == 16 * pow(16, low)) by {
            reveal(pow);
        }
        let p = pow(16, low);
        assert(pow(16, low + 1) == p * 16) by (nonlinear_arith)
            requires
                pow(16, low + 1) == 16 * p,
        ;
        lemma_div_denominator(a as int, p, 16);
        lemma_div_denominator(b as int, p, 16);
        lemma_fundamental_div_mod(a as int / p, 16);
        lemma_fundamental_div_mod(b as int / p, 16);
        assert(nibble(a, count - 1) == nibble(b, count - 1));
    }
}

/// Two identifiers that are written alike are the same: a session key, a reset
/// token or a user id never stands for two numbers.
pub proof fn uuid_text_is_injective(a: u128, b: u128)
    requires
        uuid_text(a) == uuid_text(b),
    ensures
        a == b,
{
    assert forall|place: int| 0 <= place < 32 implies nibble(a, place) == nibble(b, place) by {
        let i = if place < 8 {
            place
        } else if place < 12 {
            place + 1
        } else if place < 16 {
            place + 2
        } else if place < 20 {
            place + 3
        } else {
            place + 4
        };
        assert(digit_at(i) == place);
        assert(uuid_text(a)[i] == hex_digit(nibble(a, place)));
        assert(uuid_text(b)[i] == hex_digit(nibble(b, place)));
        hex_digit_is_injective(nibble(a, place), nibble(b, place));
    }
    leading_digits_decide(a, b, 32);
    assert(pow(16, 0) == 1) by {
        reveal(pow);
    }
    lemma_div_basics(a as int);
    lemma_div_basics(b as int);
}

} // verus!
