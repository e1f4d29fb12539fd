//! Decimal amounts of arbitrary precision.

use vstd::prelude::*;

verus! {

/// A decimal number: the integer `unscaled`, divided by ten to the power
/// `scale`. The integer is held in two's complement, most significant byte
/// first; no byte at all stands for zero.
#[derive(Clone, Debug)]
pub struct Decimal {
    pub unscaled: Vec<u8>,
    pub scale: i64,
}

/// The text that bigdecimal writes for the number whose unscaled integer has
/// the two's complement bytes `unscaled` and whose scale is `scale`.
pub uninterp spec fn decimal_text(unscaled: Seq<u8>, scale: int) -> Seq<char>;

/// Reads the bytes with `num_bigint::BigInt::from_signed_bytes_be`, joins the
/// integer and the scale with `bigdecimal::BigDecimal::new`, and writes the
/// number with its `Display` implementation. The text depends on the bytes and
/// the scale alone; the contract gives it the name [`decimal_text`].
#[verifier::external_body]
fn bigdecimal_text(unscaled: &Vec<u8>, scale: i64) -> (text: String)
    ensures
        text@ == decimal_text(unscaled@, scale as int),
{
    let digits = bigdecimal::num_bigint::BigInt::from_signed_bytes_be(unscaled);
    bigdecimal::BigDecimal::new(digits, scale).to_string()
}

impl Decimal {
    /// The text of this number in a request.
    pub open spec fn text(self) -> Seq<char> {
        decimal_text(self.unscaled@, self.scale as int)
    }

    /// Writes the number in its canonical form: plain digits with a decimal
    /// point where the scale is moderate, exponent notation beyond that.
    pub fn to_text(&self) -> (text: String)
        ensures
            text@ == self.text(),
    {
        bigdecimal_text(&self.unscaled, self.scale)
    }
}

} // verus!
