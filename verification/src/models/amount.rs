//! Amounts of money: decimal numbers of up to 96 bits and up to 28 places
//! after the point.

use vstd::prelude::*;
use crate::text::nat_text;

verus! {

/// A run of zeros.
pub open spec fn zeros(count: nat) -> Seq<char> {
    Seq::new(count, |i: int| '0')
}

/// The text that `rust_decimal` writes for the decimal number
/// `mantissa / 10^scale`: a minus sign for a negative number, then the
/// digits of the mantissa, with zeros before them as far as needed to have
/// one digit more than the scale, and with a point before the last `scale`
/// digits where the scale is not zero.
pub open spec fn decimal_text(mantissa: int, scale: int) -> Seq<char> {
    let magnitude = if mantissa < 0 {
        -mantissa
    } else {
        mantissa
    };
    let digits = nat_text(magnitude as nat);
    let sign = if mantissa < 0 {
        seq!['-']
    } else {
        Seq::<char>::empty()
    };
    if scale <= 0 {
        sign + digits
    } else {
        let padded = if digits.len() <= scale {
            zeros((scale + 1 - digits.len()) as nat) + digits
        } else {
            digits
        };
        let whole = padded.len() - scale;
        sign + padded.subrange(0, whole) + seq!['.'] + padded.subrange(
            whole,
            padded.len() as int,
        )
    }
}

/// The mantissa and the scale of the decimal number that `rust_decimal` reads
/// from `text`, or `None` where it reads none.
pub uninterp spec fn decimal_parse(text: Seq<char>) -> Option<(int, int)>;

/// Largest number of places after the point.
pub const MAX_SCALE: u32 = 28;

/// Largest magnitude of a mantissa: 2^96 - 1.
pub const MAX_MANTISSA: i128 = 0x0000_0000_FFFF_FFFF_FFFF_FFFF_FFFF_FFFF;

#[verifier::external_type_specification]
#[verifier::external_body]
pub struct ExDecimalError(rust_decimal::Error);

/// The decimal number `mantissa / 10^scale`.
#[derive(Clone, Copy, Debug)]
pub struct Amount {
    pub mantissa: i128,
    pub scale: u32,
}

impl Amount {
    /// Whether the number can be represented: the mantissa fits in 96 bits
    /// and the scale is at most 28.
    pub open spec fn wf(&self) -> bool {
        &&& self.scale <= MAX_SCALE
        &&& -MAX_MANTISSA <= self.mantissa <= MAX_MANTISSA
    }

    /// Whether the text written for the number reads back as the number.
    pub open spec fn reads_back(&self) -> bool {
        decimal_parse(decimal_text(self.mantissa as int, self.scale as int)) == Some(
            (self.mantissa as int, self.scale as int),
        )
    }

    /// Whether the number is greater than zero.
    pub open spec fn is_positive_spec(&self) -> bool {
        self.mantissa > 0
    }

    /// Tells whether the number is greater than zero.
    pub fn is_positive(&self) -> (b: bool)
        ensures
            b == self.is_positive_spec(),
    {
        self.mantissa > 0
    }

    /// Writes the number as text, or fails where it cannot be represented.
    ///
    /// Trusted: calls `Decimal::try_from_i128_with_scale` and the `Display`
    /// impl of `Decimal`. The contract claims that the call fails exactly
    /// where the number cannot be represented, states the text, and claims
    /// that the text reads back as the number it was written for: `Display`
    /// writes every digit of the mantissa with as many places after the
    /// point as the scale says, and the parser takes the digits for the
    /// mantissa and counts the places for the scale.
    #[verifier::external_body]
    pub(crate) fn to_text(&self) -> (text: Result<String, rust_decimal::Error>)
        ensures
            text is Ok <==> self.wf(),
            text matches Ok(t) ==> t@ == decimal_text(self.mantissa as int, self.scale as int),
            text matches Ok(t) ==> decimal_parse(t@) == Some(
                (self.mantissa as int, self.scale as int),
            ),
    {
        rust_decimal::Decimal::try_from_i128_with_scale(self.mantissa, self.scale).map(
            |d| d.to_string(),
        )
    }

    /// Reads a number from text.
    ///
    /// Trusted: calls the `FromStr` impl of `Decimal`, then `mantissa` and
    /// `scale`. The contract names what is read, and claims that it can be
    /// represented.
    #[verifier::external_body]
    pub(crate) fn from_text(text: &str) -> (amount: Result<Amount, rust_decimal::Error>)
        ensures
            match amount {
                Ok(a) => decimal_parse(text@) == Some((a.mantissa as int, a.scale as int))
                    && a.wf(),
                Err(_) => decimal_parse(text@) is None,
            },
    {
        <rust_decimal::Decimal as std::str::FromStr>::from_str(text).map(
            |d| Amount { mantissa: d.mantissa(), scale: d.scale() },
        )
    }
}

} // verus!
