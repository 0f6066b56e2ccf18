//! Identifiers of users, categories and expenses: 128-bit values, written in
//! keys in the hyphenated lower-case hexadecimal form.

use vstd::prelude::*;
use vstd::arithmetic::div_mod::lemma_breakdown;

verus! {

/// The character that writes one hexadecimal digit in lower case.
pub open spec fn hex_char(d: int) -> char {
    if d == 0 {
        '0'
    } else if d == 1 {
        '1'
    } else if d == 2 {
        '2'
    } else if d == 3 {
        '3'
    } else if d == 4 {
        '4'
    } else if d == 5 {
        '5'
    } else if d == 6 {
        '6'
    } else if d == 7 {
        '7'
    } else if d == 8 {
        '8'
    } else if d == 9 {
        '9'
    } else if d == 10 {
        'a'
    } else if d == 11 {
        'b'
    } else if d == 12 {
        'c'
    } else if d == 13 {
        'd'
    } else if d == 14 {
        'e'
    } else {
        'f'
    }
}

/// Sixteen to the power `places`.
pub open spec fn pow16(places: nat) -> nat
    decreases places,
{
    if places == 0 {
        1
    } else {
        16 * pow16((places - 1) as nat)
    }
}

/// The hexadecimal digit of `id` that stands `place` digits from the right.
pub open spec fn hex_digit(id: u128, place: nat) -> int {
    ((id as nat / pow16(place)) % 16) as int
}

/// Position, among the 32 hexadecimal digits, of the digit written at index
/// `i` of the hyphenated form (for an index that holds no hyphen).
pub open spec fn digit_position(i: int) -> int {
    if i < 8 {
        i
    } else if i < 13 {
        i - 1
    } else if i < 18 {
        i - 2
    } else if i < 23 {
        i - 3
    } else {
        i - 4
    }
}

/// Length of the hyphenated form.
pub const ID_TEXT_LEN: usize = 36;

/// The hyphenated form of an identifier: its 32 hexadecimal digits, most
/// significant first, in lower case, in groups of 8, 4, 4, 4 and 12 with a
/// hyphen between the groups.
pub open spec fn uuid_text(id: u128) -> Seq<char> {
    Seq::new(
        36,
        |i: int|
            if i == 8 || i == 13 || i == 18 || i == 23 {
                '-'
            } else {
                hex_char(hex_digit(id, (31 - digit_position(i)) as nat))
            },
    )
}

/// The nil identifier: all bits zero.
pub open spec fn is_nil(id: u128) -> bool {
    id == 0
}

/// Writes an identifier in hyphenated form.
///
/// Trusted: calls `uuid::Uuid::from_u128` and the `Display` impl of
/// `uuid::Uuid`. The contract claims that the text is the lower-case
/// hyphenated form of the 128 bits taken in big-endian order.
#[verifier::external_body]
pub(crate) fn hyphenated(id: u128) -> (text: String)
    ensures
        text@ == uuid_text(id),
{
    uuid::Uuid::from_u128(id).to_string()
}

/// Draws a random identifier and writes it in hyphenated form.
///
/// Trusted: calls `uuid::Uuid::new_v4` and the `Display` impl of
/// `uuid::Uuid`. The contract claims only that the text is the hyphenated
/// form of some identifier; which one is left to chance.
#[verifier::external_body]
pub fn create_uuid() -> (text: String)
    ensures
        exists|id: u128| text@ == uuid_text(id),
{
    uuid::Uuid::new_v4().to_string()
}

/// Index, in the hyphenated form, of the hexadecimal digit at position
/// `position` among the 32.
pub open spec fn text_index(position: int) -> int {
    if position < 8 {
        position
    } else if position < 12 {
        position + 1
    } else if position < 16 {
        position + 2
    } else if position < 20 {
        position + 3
    } else {
        position + 4
    }
}

/// Every power of sixteen is positive.
pub proof fn lemma_pow16_positive(places: nat)
    ensures
        pow16(places) > 0,
    decreases places,
{
    if places > 0 {
        lemma_pow16_positive((places - 1) as nat);
    }
}

/// Sixteen to the power 32 is two to the power 128.
pub proof fn lemma_pow16_32()
    ensures
        pow16(32) == 0x1_0000_0000_0000_0000_0000_0000_0000_0000,
{
    reveal_with_fuel(pow16, 33);
}

/// Two identifiers whose lowest `places` hexadecimal digits agree leave the
/// same remainder by sixteen to the power `places`.
pub proof fn lemma_digits_fix_remainder(a: u128, b: u128, places: nat)
    requires
        forall|place: nat| place < places ==> hex_digit(a, place) == hex_digit(b, place),
    ensures
        (a as int) % (pow16(places) as int) == (b as int) % (pow16(places) as int),
    decreases places,
{
    if places > 0 {
        let lower = (places - 1) as nat;
        lemma_pow16_positive(lower);
        lemma_digits_fix_remainder(a, b, lower);
        lemma_breakdown(a as int, pow16(lower) as int, 16);
        lemma_breakdown(b as int, pow16(lower) as int, 16);
        assert(hex_digit(a, lower) == hex_digit(b, lower));
        assert(pow16(places) as int == (pow16(lower) as int) * 16);
    }
}

/// Two identifiers with the same hyphenated form are the same identifier.
pub proof fn lemma_uuid_text_injective(a: u128, b: u128)
    requires
        uuid_text(a) == uuid_text(b),
    ensures
        a == b,
{
    assert forall|place: nat| place < 32 implies hex_digit(a, place) == hex_digit(b, place) by {
        let i = text_index(31 - place);
        assert(digit_position(i) == 31 - place);
        assert(uuid_text(a)[i] == hex_char(hex_digit(a, place)));
        assert(uuid_text(b)[i] == hex_char(hex_digit(b, place)));
        assert(0 <= hex_digit(a, place) < 16);
        assert(0 <= hex_digit(b, place) < 16);
    }
    lemma_digits_fix_remainder(a, b, 32);
    lemma_pow16_32();
}

} // verus!
