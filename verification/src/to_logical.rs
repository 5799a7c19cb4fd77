//! Reverse translation: physical columnar types back to the logical schema
//! model.
//!
//! The reverse mapping is partial. Several physical encodings collapse onto
//! one logical kind (all string-like encodings to string, all binary-like
//! encodings to binary, both date widths to date); a timestamp is accepted
//! only at microsecond or nanosecond resolution with no timezone or a
//! case-insensitive `UTC`; a decimal is re-validated through the
//! range-checked logical constructor; everything else fails.

use vstd::prelude::*;
use vstd::string::StrSliceExecFns;

use crate::error::ConversionError;
use crate::physical::{
    lemma_physical_fields_view, physical_field_view, physical_fields_view, physical_metadata_view,
    physical_type_view, PhysicalField, PhysicalFieldView, PhysicalSchema, PhysicalType,
    PhysicalTypeView, TimeUnit,
};
use crate::schema::{
    field_view, fields_view, lemma_fields_view, metadata_view, type_view, unique_field_names,
    ArrayType, DataType, DecimalType, DictionaryType, FieldView, MapType, MetadataValue,
    MetadataValueView, PrimitiveType, StructField, StructType, TypeView,
};

verus! {

// ---------------------------------------------------------------------------
// The mapping, as spec functions over the views
// ---------------------------------------------------------------------------

/// A timezone name that denotes UTC: the three letters `utc` in any case.
pub open spec fn is_utc_name(s: Seq<char>) -> bool {
    s.len() == 3 && (s[0] == 'u' || s[0] == 'U') && (s[1] == 't' || s[1] == 'T') && (s[2] == 'c'
        || s[2] == 'C')
}

/// The logical kind of a physical timestamp: microseconds without timezone
/// is the no-timezone timestamp, microseconds in UTC is the
/// timezone-carrying timestamp, nanoseconds with no timezone or in UTC are
/// both the nanosecond timestamp. Every other resolution or timezone is
/// unsupported.
pub open spec fn timestamp_to_logical_spec(u: TimeUnit, tz: Option<Seq<char>>) -> Result<
    TypeView,
    ConversionError,
> {
    match (u, tz) {
        (TimeUnit::Microsecond, None) => Ok(TypeView::Primitive(PrimitiveType::TimestampNtz)),
        (TimeUnit::Microsecond, Some(name)) => if is_utc_name(name) {
            Ok(TypeView::Primitive(PrimitiveType::Timestamp))
        } else {
            Err(ConversionError::UnsupportedPhysicalType)
        },
        (TimeUnit::Nanosecond, None) => Ok(TypeView::Primitive(PrimitiveType::TimestampNs)),
        (TimeUnit::Nanosecond, Some(name)) => if is_utc_name(name) {
            Ok(TypeView::Primitive(PrimitiveType::TimestampNs))
        } else {
            Err(ConversionError::UnsupportedPhysicalType)
        },
        (_, _) => Err(ConversionError::UnsupportedPhysicalType),
    }
}

/// The logical decimal for physical precision and scale: a negative scale
/// is invalid outright, the rest is re-validated by the logical range
/// check.
pub open spec fn decimal_to_logical_spec(p: u8, s: i8) -> Result<TypeView, ConversionError> {
    if s < 0 {
        Err(ConversionError::InvalidDecimal)
    } else if 1 <= p <= 38 && s <= 38 {
        Ok(
            TypeView::Primitive(
                PrimitiveType::Decimal(DecimalType::spec_new(p, s as u8)),
            ),
        )
    } else {
        Err(ConversionError::InvalidDecimal)
    }
}

/// Reverse metadata: every entry is kept as a raw string, in order; no
/// value type is reconstructed.
pub open spec fn metadata_to_logical_spec(m: Seq<(Seq<char>, Seq<char>)>) -> Seq<
    (Seq<char>, MetadataValueView),
> {
    m.map_values(|kv: (Seq<char>, Seq<char>)| (kv.0, MetadataValueView::String(kv.1)))
}

/// The logical type of a physical type, or the error that rejects it.
pub open spec fn physical_to_type_spec(t: PhysicalTypeView) -> Result<TypeView, ConversionError>
    decreases t,
{
    match t {
        PhysicalTypeView::Utf8 => Ok(TypeView::Primitive(PrimitiveType::String)),
        PhysicalTypeView::LargeUtf8 => Ok(TypeView::Primitive(PrimitiveType::String)),
        PhysicalTypeView::Utf8View => Ok(TypeView::Primitive(PrimitiveType::String)),
        PhysicalTypeView::Int64 => Ok(TypeView::Primitive(PrimitiveType::Long)),
        PhysicalTypeView::UInt64 => Ok(TypeView::Primitive(PrimitiveType::ULong)),
        PhysicalTypeView::Int32 => Ok(TypeView::Primitive(PrimitiveType::Integer)),
        PhysicalTypeView::UInt32 => Ok(TypeView::Primitive(PrimitiveType::UInteger)),
        PhysicalTypeView::Int16 => Ok(TypeView::Primitive(PrimitiveType::Short)),
        PhysicalTypeView::UInt16 => Ok(TypeView::Primitive(PrimitiveType::UShort)),
        PhysicalTypeView::Int8 => Ok(TypeView::Primitive(PrimitiveType::Byte)),
        PhysicalTypeView::UInt8 => Ok(TypeView::Primitive(PrimitiveType::UByte)),
        PhysicalTypeView::Float32 => Ok(TypeView::Primitive(PrimitiveType::Float)),
        PhysicalTypeView::Float64 => Ok(TypeView::Primitive(PrimitiveType::Double)),
        PhysicalTypeView::Boolean => Ok(TypeView::Primitive(PrimitiveType::Boolean)),
        PhysicalTypeView::Binary => Ok(TypeView::Primitive(PrimitiveType::Binary)),
        PhysicalTypeView::FixedSizeBinary(_) => Ok(TypeView::Primitive(PrimitiveType::Binary)),
        PhysicalTypeView::LargeBinary => Ok(TypeView::Primitive(PrimitiveType::Binary)),
        PhysicalTypeView::BinaryView => Ok(TypeView::Primitive(PrimitiveType::Binary)),
        PhysicalTypeView::Decimal128(p, s) => decimal_to_logical_spec(p, s),
        PhysicalTypeView::Date32 => Ok(TypeView::Primitive(PrimitiveType::Date)),
        PhysicalTypeView::Date64 => Ok(TypeView::Primitive(PrimitiveType::Date)),
        PhysicalTypeView::Timestamp(u, tz) => timestamp_to_logical_spec(u, tz),
        PhysicalTypeView::Struct(fs) => match fields_to_logical_spec(fs) {
            Ok(lfs) => if unique_field_names(lfs) {
                Ok(TypeView::Struct(lfs))
            } else {
                Err(ConversionError::SchemaConstruction)
            },
            Err(e) => Err(e),
        },
        PhysicalTypeView::List(f) => element_to_array_spec(*f),
        PhysicalTypeView::ListView(f) => element_to_array_spec(*f),
        PhysicalTypeView::LargeList(f) => element_to_array_spec(*f),
        PhysicalTypeView::LargeListView(f) => element_to_array_spec(*f),
        PhysicalTypeView::FixedSizeList(f, _) => element_to_array_spec(*f),
        PhysicalTypeView::Mapping(f, _sorted) => match (*f).data_type {
            PhysicalTypeView::Struct(entries) => if entries.len() == 2 {
                match physical_to_type_spec(entries[0].data_type) {
                    Ok(kt) => match physical_to_type_spec(entries[1].data_type) {
                        Ok(vt) => Ok(
                            TypeView::Mapping(
                                Box::new(kt),
                                Box::new(vt),
                                entries[1].nullable,
                            ),
                        ),
                        Err(e) => Err(e),
                    },
                    Err(e) => Err(e),
                }
            } else {
                Err(ConversionError::StructuralViolation)
            },
            _ => Err(ConversionError::StructuralViolation),
        },
        PhysicalTypeView::Dictionary(k, v, _ordered) => match physical_to_type_spec(*k) {
            Ok(kt) => match physical_to_type_spec(*v) {
                Ok(vt) => Ok(TypeView::Dictionary(Box::new(kt), Box::new(vt), true)),
                Err(e) => Err(e),
            },
            Err(e) => Err(e),
        },
    }
}

/// Any list-like physical encoding reconstructs as an array: element type
/// and nullability come from the single child field, its name is dropped.
pub open spec fn element_to_array_spec(f: PhysicalFieldView) -> Result<TypeView, ConversionError>
    decreases f,
{
    match physical_to_type_spec(f.data_type) {
        Ok(et) => Ok(TypeView::Array(Box::new(et), f.nullable)),
        Err(e) => Err(e),
    }
}

/// The logical field of a physical field: name and nullability kept, type
/// mapped, metadata copied as raw strings.
pub open spec fn field_to_logical_spec(f: PhysicalFieldView) -> Result<FieldView, ConversionError>
    decreases f,
{
    match physical_to_type_spec(f.data_type) {
        Ok(t) => Ok(
            FieldView {
                name: f.name,
                data_type: t,
                nullable: f.nullable,
                metadata: metadata_to_logical_spec(f.metadata),
            },
        ),
        Err(e) => Err(e),
    }
}

/// Fields are mapped in order; the first failure aborts the whole list.
pub open spec fn fields_to_logical_spec(fs: Seq<PhysicalFieldView>) -> Result<
    Seq<FieldView>,
    ConversionError,
>
    decreases fs,
{
    if fs.len() == 0 {
        Ok(Seq::empty())
    } else {
        match field_to_logical_spec(fs[0]) {
            Ok(first) => match fields_to_logical_spec(fs.subrange(1, fs.len() as int)) {
                Ok(rest) => Ok(seq![first] + rest),
                Err(e) => Err(e),
            },
            Err(e) => Err(e),
        }
    }
}

/// The whole reverse schema: every field mapped, then the assembled list is
/// held to the unique-name rule.
pub open spec fn schema_to_logical_spec(fs: Seq<PhysicalFieldView>) -> Result<
    Seq<FieldView>,
    ConversionError,
> {
    match fields_to_logical_spec(fs) {
        Ok(lfs) => if unique_field_names(lfs) {
            Ok(lfs)
        } else {
            Err(ConversionError::SchemaConstruction)
        },
        Err(e) => Err(e),
    }
}

/// When every field of the list converts, the list converts to exactly the
/// element-wise conversion.
pub proof fn lemma_fields_to_logical_all_ok(fs: Seq<PhysicalFieldView>)
    requires
        forall|i: int| 0 <= i < fs.len() ==> (#[trigger] field_to_logical_spec(fs[i])) is Ok,
    ensures
        fields_to_logical_spec(fs) is Ok,
        fields_to_logical_spec(fs)->Ok_0.len() == fs.len(),
        forall|i: int|
            0 <= i < fs.len() ==> #[trigger] fields_to_logical_spec(fs)->Ok_0[i]
                == field_to_logical_spec(fs[i])->Ok_0,
    decreases fs,
{
    if fs.len() != 0 {
        assert(field_to_logical_spec(fs[0]) is Ok);
        let rest = fs.subrange(1, fs.len() as int);
        assert forall|i: int| 0 <= i < rest.len() implies (#[trigger] field_to_logical_spec(
            rest[i],
        )) is Ok by {
            assert(rest[i] == fs[i + 1]);
        }
        lemma_fields_to_logical_all_ok(rest);
        assert forall|i: int|
            0 <= i < fs.len() implies #[trigger] fields_to_logical_spec(fs)->Ok_0[i]
            == field_to_logical_spec(fs[i])->Ok_0 by {
            if i > 0 {
                assert(rest[i - 1] == fs[i]);
            }
        }
    }
}

/// The view of an executable reverse result at type level.
pub open spec fn type_result_view(r: Result<DataType, ConversionError>) -> Result<
    TypeView,
    ConversionError,
> {
    match r {
        Ok(t) => Ok(type_view(t)),
        Err(e) => Err(e),
    }
}

/// The view of an executable reverse result at field level.
pub open spec fn field_result_view(r: Result<StructField, ConversionError>) -> Result<
    FieldView,
    ConversionError,
> {
    match r {
        Ok(f) => Ok(field_view(f)),
        Err(e) => Err(e),
    }
}

/// The view of an executable reverse result at field-list level.
pub open spec fn fields_result_view(r: Result<Vec<StructField>, ConversionError>) -> Result<
    Seq<FieldView>,
    ConversionError,
> {
    match r {
        Ok(fs) => Ok(fields_view(fs@)),
        Err(e) => Err(e),
    }
}

/// The view of an executable reverse result at schema level.
pub open spec fn schema_result_view(r: Result<StructType, ConversionError>) -> Result<
    Seq<FieldView>,
    ConversionError,
> {
    match r {
        Ok(s) => Ok(s@),
        Err(e) => Err(e),
    }
}

/// When the fields up to `i` convert and field `i` fails, the list fails
/// with exactly that error.
pub proof fn lemma_fields_to_logical_first_err(fs: Seq<PhysicalFieldView>, i: int)
    requires
        0 <= i < fs.len(),
        forall|j: int| 0 <= j < i ==> (#[trigger] field_to_logical_spec(fs[j])) is Ok,
        field_to_logical_spec(fs[i]) is Err,
    ensures
        fields_to_logical_spec(fs) == Err::<Seq<FieldView>, ConversionError>(
            field_to_logical_spec(fs[i])->Err_0,
        ),
    decreases fs,
{
    let rest = fs.subrange(1, fs.len() as int);
    if i == 0 {
    } else {
        assert(field_to_logical_spec(fs[0]) is Ok);
        assert forall|j: int| 0 <= j < i - 1 implies (#[trigger] field_to_logical_spec(
            rest[j],
        )) is Ok by {
            assert(rest[j] == fs[j + 1]);
        }
        assert(rest[i - 1] == fs[i]);
        lemma_fields_to_logical_first_err(rest, i - 1);
    }
}

// ---------------------------------------------------------------------------
// Executable conversions
// ---------------------------------------------------------------------------

/// Whether a timezone name denotes UTC, case-insensitively.
pub fn timezone_is_utc(tz: &str) -> (b: bool)
    ensures
        b == is_utc_name(tz@),
{
    if tz.unicode_len() != 3 {
        return false;
    }
    let c0 = tz.get_char(0);
    let c1 = tz.get_char(1);
    let c2 = tz.get_char(2);
    (c0 == 'u' || c0 == 'U') && (c1 == 't' || c1 == 'T') && (c2 == 'c' || c2 == 'C')
}

/// Reverse metadata: every entry kept as a raw string, in order.
pub fn metadata_to_logical(m: &Vec<(String, String)>) -> (r: Vec<(String, MetadataValue)>)
    ensures
        metadata_view(r@) == metadata_to_logical_spec(physical_metadata_view(m@)),
{
    let mut out: Vec<(String, MetadataValue)> = Vec::new();
    let mut i: usize = 0;
    while i < m.len()
        invariant
            i <= m.len(),
            out@.len() == i,
            forall|j: int|
                0 <= j < i ==> #[trigger] out@[j].0@ == m@[j].0@ && out@[j].1
                    == MetadataValue::String(m@[j].1),
        decreases m.len() - i,
    {
        let kv = &m[i];
        out.push((kv.0.clone(), MetadataValue::String(kv.1.clone())));
        i = i + 1;
    }
    proof {
        assert(metadata_view(out@) =~= metadata_to_logical_spec(physical_metadata_view(m@)));
    }
    out
}

/// Logical type of a physical type; fails exactly where
/// `physical_to_type_spec` does, with the same error.
pub fn physical_to_type(p: &PhysicalType) -> (r: Result<DataType, ConversionError>)
    ensures
        type_result_view(r) == physical_to_type_spec(p@),
    decreases *p,
{
    match p {
        PhysicalType::Utf8 => Ok(DataType::Primitive(PrimitiveType::String)),
        PhysicalType::LargeUtf8 => Ok(DataType::Primitive(PrimitiveType::String)),
        PhysicalType::Utf8View => Ok(DataType::Primitive(PrimitiveType::String)),
        PhysicalType::Int64 => Ok(DataType::Primitive(PrimitiveType::Long)),
        PhysicalType::UInt64 => Ok(DataType::Primitive(PrimitiveType::ULong)),
        PhysicalType::Int32 => Ok(DataType::Primitive(PrimitiveType::Integer)),
        PhysicalType::UInt32 => Ok(DataType::Primitive(PrimitiveType::UInteger)),
        PhysicalType::Int16 => Ok(DataType::Primitive(PrimitiveType::Short)),
        PhysicalType::UInt16 => Ok(DataType::Primitive(PrimitiveType::UShort)),
        PhysicalType::Int8 => Ok(DataType::Primitive(PrimitiveType::Byte)),
        PhysicalType::UInt8 => Ok(DataType::Primitive(PrimitiveType::UByte)),
        PhysicalType::Float32 => Ok(DataType::Primitive(PrimitiveType::Float)),
        PhysicalType::Float64 => Ok(DataType::Primitive(PrimitiveType::Double)),
        PhysicalType::Boolean => Ok(DataType::Primitive(PrimitiveType::Boolean)),
        PhysicalType::Binary => Ok(DataType::Primitive(PrimitiveType::Binary)),
        PhysicalType::FixedSizeBinary(_) => Ok(DataType::Primitive(PrimitiveType::Binary)),
        PhysicalType::LargeBinary => Ok(DataType::Primitive(PrimitiveType::Binary)),
        PhysicalType::BinaryView => Ok(DataType::Primitive(PrimitiveType::Binary)),
        PhysicalType::Decimal128(precision, scale) => {
            if *scale < 0 {
                Err(ConversionError::InvalidDecimal)
            } else {
                match DecimalType::try_new(*precision, *scale as u8) {
                    Ok(d) => Ok(DataType::Primitive(PrimitiveType::Decimal(d))),
                    Err(e) => Err(e),
                }
            }
        },
        PhysicalType::Date32 => Ok(DataType::Primitive(PrimitiveType::Date)),
        PhysicalType::Date64 => Ok(DataType::Primitive(PrimitiveType::Date)),
        PhysicalType::Timestamp(unit, tz) => {
            match unit {
                TimeUnit::Microsecond => match tz {
                    None => Ok(DataType::Primitive(PrimitiveType::TimestampNtz)),
                    Some(name) => {
                        if timezone_is_utc(name.as_str()) {
                            Ok(DataType::Primitive(PrimitiveType::Timestamp))
                        } else {
                            Err(ConversionError::UnsupportedPhysicalType)
                        }
                    },
                },
                TimeUnit::Nanosecond => match tz {
                    None => Ok(DataType::Primitive(PrimitiveType::TimestampNs)),
                    Some(name) => {
                        if timezone_is_utc(name.as_str()) {
                            Ok(DataType::Primitive(PrimitiveType::TimestampNs))
                        } else {
                            Err(ConversionError::UnsupportedPhysicalType)
                        }
                    },
                },
                _ => Err(ConversionError::UnsupportedPhysicalType),
            }
        },
        PhysicalType::Struct(fs) => {
            match physical_fields_to_logical(fs) {
                Ok(lfs) => {
                    match StructType::try_new(lfs) {
                        Ok(st) => Ok(DataType::Struct(st)),
                        Err(e) => Err(e),
                    }
                },
                Err(e) => Err(e),
            }
        },
        PhysicalType::List(f) => element_to_array(f),
        PhysicalType::ListView(f) => element_to_array(f),
        PhysicalType::LargeList(f) => element_to_array(f),
        PhysicalType::LargeListView(f) => element_to_array(f),
        PhysicalType::FixedSizeList(f, _) => element_to_array(f),
        PhysicalType::Mapping(f, _sorted) => {
            proof {
                reveal_with_fuel(physical_type_view, 3);
            }
            match &f.data_type {
                PhysicalType::Struct(entry_fields) => {
                    proof {
                        lemma_physical_fields_view(entry_fields@);
                    }
                    if entry_fields.len() == 2 {
                        let ghost entries = physical_fields_view(entry_fields@);
                        proof {
                            assert(entries.len() == 2);
                            assert(entries[0] == physical_field_view(entry_fields@[0]));
                            assert(entries[1] == physical_field_view(entry_fields@[1]));
                        }
                        let key_type = match physical_to_type(&entry_fields[0].data_type) {
                            Ok(t) => t,
                            Err(e) => {
                                proof {
                                    assert(physical_to_type_spec(entries[0].data_type)
                                        == Err::<TypeView, ConversionError>(e));
                                }
                                return Err(e);
                            },
                        };
                        let value_type = match physical_to_type(&entry_fields[1].data_type) {
                            Ok(t) => t,
                            Err(e) => {
                                proof {
                                    assert(physical_to_type_spec(entries[1].data_type)
                                        == Err::<TypeView, ConversionError>(e));
                                }
                                return Err(e);
                            },
                        };
                        Ok(
                            DataType::Mapping(
                                Box::new(
                                    MapType {
                                        key_type,
                                        value_type,
                                        value_contains_null: entry_fields[1].nullable,
                                    },
                                ),
                            ),
                        )
                    } else {
                        Err(ConversionError::StructuralViolation)
                    }
                },
                _ => Err(ConversionError::StructuralViolation),
            }
        },
        PhysicalType::Dictionary(k, v, _ordered) => {
            let key_type = match physical_to_type(k) {
                Ok(t) => t,
                Err(e) => {
                    return Err(e);
                },
            };
            let value_type = match physical_to_type(v) {
                Ok(t) => t,
                Err(e) => {
                    return Err(e);
                },
            };
            Ok(DataType::Dictionary(Box::new(DictionaryType { key_type, value_type, ordered: true })))
        },
    }
}

/// Reconstruct an array from any list-like physical encoding's child field.
fn element_to_array(f: &PhysicalField) -> (r: Result<DataType, ConversionError>)
    ensures
        type_result_view(r) == element_to_array_spec(f@),
    decreases *f,
{
    match physical_to_type(&f.data_type) {
        Ok(et) => Ok(
            DataType::Array(Box::new(ArrayType { element_type: et, contains_null: f.nullable })),
        ),
        Err(e) => Err(e),
    }
}

/// Logical field of a physical field.
pub fn physical_to_field(f: &PhysicalField) -> (r: Result<StructField, ConversionError>)
    ensures
        field_result_view(r) == field_to_logical_spec(f@),
    decreases *f,
{
    match physical_to_type(&f.data_type) {
        Ok(data_type) => {
            let metadata = metadata_to_logical(&f.metadata);
            let out = StructField {
                name: f.name.clone(),
                data_type,
                nullable: f.nullable,
                metadata,
            };
            proof {
                assert(out@ =~= field_to_logical_spec(f@)->Ok_0);
            }
            Ok(out)
        },
        Err(e) => Err(e),
    }
}

/// Logical fields of a physical field list, in order; the first failure
/// aborts the whole list.
pub fn physical_fields_to_logical(fields: &Vec<PhysicalField>) -> (r: Result<
    Vec<StructField>,
    ConversionError,
>)
    ensures
        fields_result_view(r) == fields_to_logical_spec(physical_fields_view(fields@)),
    decreases fields@,
{
    proof {
        lemma_physical_fields_view(fields@);
    }
    let mut out: Vec<StructField> = Vec::new();
    let mut i: usize = 0;
    while i < fields.len()
        invariant
            i <= fields.len(),
            out@.len() == i,
            forall|j: int|
                0 <= j < i ==> (#[trigger] field_to_logical_spec(
                    physical_field_view(fields@[j]),
                )) is Ok && field_view(out@[j]) == field_to_logical_spec(
                    physical_field_view(fields@[j]),
                )->Ok_0,
        decreases fields@.len() - i,
    {
        let lf = match physical_to_field(&fields[i]) {
            Ok(lf) => lf,
            Err(e) => {
                proof {
                    lemma_physical_fields_view(fields@);
                    assert forall|j: int| 0 <= j < i implies (#[trigger] field_to_logical_spec(
                        physical_fields_view(fields@)[j],
                    )) is Ok by {
                        assert(physical_fields_view(fields@)[j] == physical_field_view(
                            fields@[j],
                        ));
                    }
                    lemma_fields_to_logical_first_err(physical_fields_view(fields@), i as int);
                }
                return Err(e);
            },
        };
        out.push(lf);
        i = i + 1;
    }
    proof {
        lemma_physical_fields_view(fields@);
        assert forall|j: int| 0 <= j < fields@.len() implies (#[trigger] field_to_logical_spec(
            physical_fields_view(fields@)[j],
        )) is Ok by {
            assert(physical_fields_view(fields@)[j] == physical_field_view(fields@[j]));
        }
        lemma_fields_to_logical_all_ok(physical_fields_view(fields@));
        lemma_fields_view(out@);
        assert(fields_view(out@) =~= fields_to_logical_spec(
            physical_fields_view(fields@),
        )->Ok_0);
    }
    Ok(out)
}

/// Logical schema of a physical schema: every field mapped in order, then
/// the assembled list held to the unique-name rule.
pub fn schema_to_logical(s: &PhysicalSchema) -> (r: Result<StructType, ConversionError>)
    ensures
        schema_result_view(r) == schema_to_logical_spec(s@),
{
    match physical_fields_to_logical(&s.fields) {
        Ok(lfs) => StructType::try_new(lfs),
        Err(e) => Err(e),
    }
}

} // verus!
