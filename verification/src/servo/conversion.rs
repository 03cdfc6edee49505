//! Conversion between a register's raw value and its value in physical units.

use vstd::prelude::*;
use vstd::string::*;

use crate::text::{decimal, push_decimal};

verus! {

/// A codec between the raw value of a control-table register and the value
/// it stands for.
///
/// `spec_from_raw` and `spec_to_raw` say what an implementation computes;
/// `from_raw` and `to_raw` compute it.
pub trait Conversion {
    type RegisterType;
    type UsiType;

    /// The value that the raw register content `raw` stands for.
    spec fn spec_from_raw(raw: Self::RegisterType) -> Self::UsiType;

    /// The raw register content for `value`, or the range error that
    /// rejects it.
    spec fn spec_to_raw(value: Self::UsiType) -> Result<Self::RegisterType, ConversionRangeError>;

    /// Decodes a raw register value.
    fn from_raw(raw: Self::RegisterType) -> (value: Self::UsiType)
        ensures
            value == Self::spec_from_raw(raw),
    ;

    /// Encodes a value into its raw register content, or reports that the
    /// value lies outside what the register can hold.
    fn to_raw(value: Self::UsiType) -> (raw: Result<Self::RegisterType, ConversionRangeError>)
        ensures
            raw == Self::spec_to_raw(value),
    ;
}

/// A value handed to an encoder lies outside `[min, max]`.
#[derive(Debug)]
pub struct ConversionRangeError {
    /// The register that was being encoded.
    pub what: &'static str,
    /// The rejected value.
    pub value: i64,
    /// The smallest accepted value.
    pub min: i64,
    /// The largest accepted value.
    pub max: i64,
}

impl ConversionRangeError {
    /// The text of the error: `"<what> value <value> out of range [<min>, <max>]"`.
    pub open spec fn spec_message(&self) -> Seq<char> {
        self.what@ + " value "@ + decimal(self.value as int) + " out of range ["@
            + decimal(self.min as int) + ", "@ + decimal(self.max as int) + "]"@
    }

    /// The error as text, as it is shown to a user.
    pub fn message(&self) -> (text: String)
        ensures
            text@ == self.spec_message(),
    {
        let mut text = String::from_str(self.what);
        text.append(" value ");
        push_decimal(&mut text, self.value);
        text.append(" out of range [");
        push_decimal(&mut text, self.min);
        text.append(", ");
        push_decimal(&mut text, self.max);
        text.append("]");
        text
    }
}

/// A flag register: any non-zero byte reads as `true`; `true` is written as
/// `1` and `false` as `0`.
impl Conversion for bool {
    type RegisterType = u8;
    type UsiType = bool;

    open spec fn spec_from_raw(raw: u8) -> bool {
        raw != 0
    }

    open spec fn spec_to_raw(value: bool) -> Result<u8, ConversionRangeError> {
        Ok(if value { 1u8 } else { 0u8 })
    }

    fn from_raw(raw: u8) -> (value: bool)
        ensures
            value <==> raw != 0,
    {
        raw != 0
    }

    fn to_raw(value: bool) -> (raw: Result<u8, ConversionRangeError>)
        ensures
            raw == Ok::<u8, ConversionRangeError>(if value { 1u8 } else { 0u8 }),
    {
        Ok(if value { 1 } else { 0 })
    }
}

/// A flag written and read back is the flag itself.
pub proof fn lemma_bool_roundtrip(value: bool)
    ensures
        <bool as Conversion>::spec_to_raw(value) is Ok,
        <bool as Conversion>::spec_from_raw(<bool as Conversion>::spec_to_raw(value)->Ok_0) == value,
{
}

/// A flag byte reads `true` exactly when it is not zero, whichever bits are
/// set; `true` is written as `1` and `false` as `0`.
pub proof fn lemma_bool_law(raw: u8)
    ensures
        <bool as Conversion>::spec_from_raw(raw) <==> raw != 0,
        raw > 0 ==> <bool as Conversion>::spec_from_raw(raw),
        <bool as Conversion>::spec_to_raw(true) == Ok::<u8, ConversionRangeError>(1u8),
        <bool as Conversion>::spec_to_raw(false) == Ok::<u8, ConversionRangeError>(0u8),
{
}

} // verus!
