//! Measured quantities: which number was reported, and what is to be done with
//! it before it is published. The arithmetic itself is floating point and is
//! carried out by whoever renders the value.

use vstd::prelude::*;

use crate::json::JsonNumber;

verus! {

/// How a reported number becomes the published one.
#[derive(Clone, Copy, Debug, PartialEq, Eq, Structural)]
pub enum Conversion {
    /// As it was reported.
    Unchanged,
    /// Nine fifths of it, plus thirty-two.
    CelsiusToFahrenheit,
    /// Thirty-two less, five ninths of that.
    FahrenheitToCelsius,
}

/// A reported number together with its conversion.
#[derive(Clone, Copy, Debug, PartialEq, Eq, Structural)]
pub struct Reading {
    pub number: JsonNumber,
    pub conversion: Conversion,
}

/// A reading that is rounded, after its conversion, to a number of decimal
/// places, halves away from zero.
#[derive(Clone, Copy, Debug, PartialEq, Eq, Structural)]
pub struct Measurement {
    pub reading: Reading,
    pub decimals: u8,
}

impl Reading {
    /// A number that is published as it was reported.
    pub fn unchanged(number: JsonNumber) -> (reading: Self)
        ensures
            reading == (Reading { number, conversion: Conversion::Unchanged }),
    {
        Reading { number, conversion: Conversion::Unchanged }
    }
}

/// Round to 1 decimal place.
pub fn round1(v: Reading) -> (rounded: Measurement)
    ensures
        rounded == (Measurement { reading: v, decimals: 1 }),
{
    Measurement { reading: v, decimals: 1 }
}

/// Round to 3 decimal places.
pub fn round3(v: Reading) -> (rounded: Measurement)
    ensures
        rounded == (Measurement { reading: v, decimals: 3 }),
{
    Measurement { reading: v, decimals: 3 }
}

} // verus!
