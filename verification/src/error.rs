//! The ways in which encoding can fail.

use vstd::prelude::*;

verus! {

/// Why an encoding call failed. The first failure anywhere in the recursion
/// ends the whole call.
#[derive(Clone, Copy, Debug, PartialEq, Eq, Structural)]
pub enum EncodeError {
    /// A container, record, world entity or exception was met at depth 255.
    RecursionLimitReached,
    /// The object has no wire representation and no fallback handler supplied
    /// a substitute for it.
    UnsupportedType,
    /// A time of day carries a time zone, which cannot be encoded without a
    /// date.
    TimeHasTimezone,
    /// A numeric array does not have the layout its type promises.
    NumericArrayMalformed,
    /// A numeric array is not contiguous in memory.
    NumericArrayNotContiguous,
    /// A numeric array holds elements of a type that has no wire form.
    NumericArrayUnsupportedDataType,
    /// An object classified as a typed record has no backing field map.
    TypedRecordMissingFieldMap,
    /// An object classified as a world entity is of no known entity kind.
    DomainEntityKindUnrecognized,
    /// The fallback handler has already been used 255 times on the way from
    /// the root to this object.
    FallbackLimitReached,
    /// An integer lies outside the range from -2^63 to 2^64 - 1.
    IntegerOutOfRange,
    /// An attribute that the encoder of this classification reads is absent.
    MissingAttribute,
    /// An extension value carries a negative tag, which the wire format
    /// reserves.
    ReservedExtensionTag,
    /// A count or a byte length exceeds 2^32 - 1, the most a wire header can
    /// carry.
    LengthOverflow,
}

impl EncodeError {
    /// The text that describes the error to a person.
    pub open spec fn message_text(self) -> Seq<char> {
        match self {
            EncodeError::RecursionLimitReached => "Recursion limit reached"@,
            EncodeError::UnsupportedType => "Type is not msgpack serializable"@,
            EncodeError::TimeHasTimezone => "Time must not have a time zone set"@,
            EncodeError::NumericArrayMalformed => "Numeric array is malformed"@,
            EncodeError::NumericArrayNotContiguous =>
                "Numeric array is not contiguous; convert it to a list in the fallback handler"@,
            EncodeError::NumericArrayUnsupportedDataType =>
                "Numeric array has an unsupported data type; convert it to a list in the fallback handler"@,
            EncodeError::TypedRecordMissingFieldMap => "Typed record must have a field map"@,
            EncodeError::DomainEntityKindUnrecognized => "Unknown world entity type"@,
            EncodeError::FallbackLimitReached => "Fallback handler exceeds recursion limit"@,
            EncodeError::IntegerOutOfRange => "Integer exceeds 64-bit range"@,
            EncodeError::MissingAttribute => "Object lacks an attribute that its encoding needs"@,
            EncodeError::ReservedExtensionTag => "Extension tag must not be negative"@,
            EncodeError::LengthOverflow => "Length exceeds the 32-bit range of the wire format"@,
        }
    }

    /// Describes the error to a person.
    pub fn message(&self) -> (text: String)
        ensures
            text@ == self.message_text(),
    {
        match self {
            EncodeError::RecursionLimitReached => "Recursion limit reached".to_owned(),
            EncodeError::UnsupportedType => "Type is not msgpack serializable".to_owned(),
            EncodeError::TimeHasTimezone => "Time must not have a time zone set".to_owned(),
            EncodeError::NumericArrayMalformed => "Numeric array is malformed".to_owned(),
            EncodeError::NumericArrayNotContiguous =>
                "Numeric array is not contiguous; convert it to a list in the fallback handler".to_owned(),
            EncodeError::NumericArrayUnsupportedDataType =>
                "Numeric array has an unsupported data type; convert it to a list in the fallback handler".to_owned(),
            EncodeError::TypedRecordMissingFieldMap => "Typed record must have a field map".to_owned(),
            EncodeError::DomainEntityKindUnrecognized => "Unknown world entity type".to_owned(),
            EncodeError::FallbackLimitReached => "Fallback handler exceeds recursion limit".to_owned(),
            EncodeError::IntegerOutOfRange => "Integer exceeds 64-bit range".to_owned(),
            EncodeError::MissingAttribute =>
                "Object lacks an attribute that its encoding needs".to_owned(),
            EncodeError::ReservedExtensionTag => "Extension tag must not be negative".to_owned(),
            EncodeError::LengthOverflow =>
                "Length exceeds the 32-bit range of the wire format".to_owned(),
        }
    }
}

} // verus!
