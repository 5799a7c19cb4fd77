use vstd::prelude::*;

verus! {

/// The ways a schema translation can fail.
///
/// Every conversion either succeeds completely or aborts with one of these
/// kinds; there is no partial result.
#[derive(Clone, Copy, Debug, PartialEq, Eq, Structural)]
pub enum ConversionError {
    /// No reverse mapping exists for the given physical type, time unit or
    /// timezone combination.
    UnsupportedPhysicalType,
    /// A decimal has a negative scale, or a precision or scale outside the
    /// valid range (precision 1..=38, scale 0..=38).
    InvalidDecimal,
    /// A metadata value could not be serialized to its string form.
    MetadataSerialization,
    /// The assembled field list was rejected by the schema constructor
    /// (duplicate field names).
    SchemaConstruction,
    /// A physical map's child is not the expected two-field struct: a
    /// contract violation of the physical representation itself.
    StructuralViolation,
}

} // verus!
