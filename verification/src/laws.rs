//! The properties the translation keeps: round trips, the collapse of the
//! many-to-one physical encodings, preservation of field order and
//! nullability, and the fixed shape of the synthesized map field.

use vstd::prelude::*;

use crate::error::ConversionError;
use crate::physical::{PhysicalTypeView, TimeUnit};
use crate::schema::{
    unique_field_names, DecimalType, FieldView, MetadataValueView, PrimitiveType, TypeView,
};
use crate::to_logical::{
    field_to_logical_spec, fields_to_logical_spec, is_utc_name, lemma_fields_to_logical_all_ok,
    metadata_to_logical_spec, physical_to_type_spec, schema_to_logical_spec,
};
use crate::to_physical::{
    field_to_physical_spec, fields_to_physical_spec, lemma_fields_to_physical_spec,
    map_entry_field_spec, metadata_to_physical_spec, metadata_value_to_physical_spec,
    primitive_to_physical_spec, type_to_physical_spec,
};

verus! {

// ---------------------------------------------------------------------------
// What a logical type must satisfy for the round trip to be the identity
// ---------------------------------------------------------------------------

/// A primitive is valid when any decimal in it respects the ranges.
pub open spec fn primitive_wf(p: PrimitiveType) -> bool {
    match p {
        PrimitiveType::Decimal(d) => d.wf(),
        _ => true,
    }
}

/// Metadata whose values are all strings; only such metadata survives the
/// round trip byte for byte (other values come back as their JSON text).
pub open spec fn string_metadata(m: Seq<(Seq<char>, MetadataValueView)>) -> bool {
    forall|i: int| 0 <= i < m.len() ==> (#[trigger] m[i]).1 is String
}

/// The types on which logical-to-physical-to-logical is the identity:
/// decimals in range, struct field names unique, every field's metadata
/// string-valued, and dictionaries ordered (the reverse direction always
/// reconstructs an ordered dictionary).
pub open spec fn round_trip_safe(t: TypeView) -> bool
    decreases t,
{
    match t {
        TypeView::Primitive(p) => primitive_wf(p),
        TypeView::Struct(fs) => unique_field_names(fs) && fields_round_trip_safe(fs),
        TypeView::Array(e, _nullable) => round_trip_safe(*e),
        TypeView::Mapping(k, v, _vn) => round_trip_safe(*k) && round_trip_safe(*v),
        TypeView::Dictionary(k, v, ordered) => ordered && round_trip_safe(*k) && round_trip_safe(
            *v,
        ),
    }
}

/// A field survives the round trip when its type does and its metadata is
/// string-valued.
pub open spec fn field_round_trip_safe(f: FieldView) -> bool
    decreases f,
{
    round_trip_safe(f.data_type) && string_metadata(f.metadata)
}

/// Every field of the list survives the round trip.
pub open spec fn fields_round_trip_safe(fs: Seq<FieldView>) -> bool
    decreases fs,
{
    forall|i: int| 0 <= i < fs.len() ==> field_round_trip_safe(#[trigger] fs[i])
}

// ---------------------------------------------------------------------------
// Metadata round trip
// ---------------------------------------------------------------------------

/// Reverse of forward metadata: every entry keeps its key and comes back as
/// the string the value was serialized to; a string value comes back as
/// itself, any other value as its JSON text, never as its original type.
pub proof fn lemma_metadata_round_trip(m: Seq<(Seq<char>, MetadataValueView)>)
    ensures
        metadata_to_logical_spec(metadata_to_physical_spec(m)) == m.map_values(
            |kv: (Seq<char>, MetadataValueView)|
                (kv.0, MetadataValueView::String(metadata_value_to_physical_spec(kv.1))),
        ),
{
    assert(metadata_to_logical_spec(metadata_to_physical_spec(m)) =~= m.map_values(
        |kv: (Seq<char>, MetadataValueView)|
            (kv.0, MetadataValueView::String(metadata_value_to_physical_spec(kv.1))),
    ));
}

/// String-valued metadata round-trips byte for byte.
pub proof fn lemma_string_metadata_round_trip(m: Seq<(Seq<char>, MetadataValueView)>)
    requires
        string_metadata(m),
    ensures
        metadata_to_logical_spec(metadata_to_physical_spec(m)) == m,
{
    assert(metadata_to_logical_spec(metadata_to_physical_spec(m)) =~= m);
}

// ---------------------------------------------------------------------------
// Primitive round trip and the many-to-one collapses
// ---------------------------------------------------------------------------

/// For every valid primitive kind, logical to physical to logical is the
/// identity.
pub proof fn lemma_primitive_round_trip(p: PrimitiveType)
    requires
        primitive_wf(p),
    ensures
        physical_to_type_spec(primitive_to_physical_spec(p)) == Ok::<TypeView, ConversionError>(
            TypeView::Primitive(p),
        ),
{
    reveal_strlit("UTC");
    match p {
        PrimitiveType::Decimal(d) => {
            let s8 = d.spec_scale() as i8;
            assert(0 <= s8 <= 38);
            assert(s8 as u8 == d.spec_scale());
            DecimalType::lemma_spec_new(d.spec_precision(), d.spec_scale());
            DecimalType::lemma_extensional(d);
        },
        _ => {
        },
    }
}

/// The documented many-to-one collapses of the reverse direction: every
/// string-like physical encoding comes back as the one logical string kind,
/// every binary-like encoding as binary, both date widths as date, and a
/// nanosecond timestamp comes back as the nanosecond logical kind with or
/// without an explicit UTC timezone.
pub proof fn lemma_many_to_one_collapse(n: i32, tz: Seq<char>)
    ensures
        physical_to_type_spec(PhysicalTypeView::Utf8) == Ok::<TypeView, ConversionError>(
            TypeView::Primitive(PrimitiveType::String),
        ),
        physical_to_type_spec(PhysicalTypeView::LargeUtf8) == Ok::<TypeView, ConversionError>(
            TypeView::Primitive(PrimitiveType::String),
        ),
        physical_to_type_spec(PhysicalTypeView::Utf8View) == Ok::<TypeView, ConversionError>(
            TypeView::Primitive(PrimitiveType::String),
        ),
        physical_to_type_spec(PhysicalTypeView::Binary) == Ok::<TypeView, ConversionError>(
            TypeView::Primitive(PrimitiveType::Binary),
        ),
        physical_to_type_spec(PhysicalTypeView::FixedSizeBinary(n)) == Ok::<
            TypeView,
            ConversionError,
        >(TypeView::Primitive(PrimitiveType::Binary)),
        physical_to_type_spec(PhysicalTypeView::LargeBinary) == Ok::<TypeView, ConversionError>(
            TypeView::Primitive(PrimitiveType::Binary),
        ),
        physical_to_type_spec(PhysicalTypeView::BinaryView) == Ok::<TypeView, ConversionError>(
            TypeView::Primitive(PrimitiveType::Binary),
        ),
        physical_to_type_spec(PhysicalTypeView::Date32) == Ok::<TypeView, ConversionError>(
            TypeView::Primitive(PrimitiveType::Date),
        ),
        physical_to_type_spec(PhysicalTypeView::Date64) == Ok::<TypeView, ConversionError>(
            TypeView::Primitive(PrimitiveType::Date),
        ),
        physical_to_type_spec(PhysicalTypeView::Timestamp(TimeUnit::Nanosecond, None)) == Ok::<
            TypeView,
            ConversionError,
        >(TypeView::Primitive(PrimitiveType::TimestampNs)),
        is_utc_name(tz) ==> physical_to_type_spec(
            PhysicalTypeView::Timestamp(TimeUnit::Nanosecond, Some(tz)),
        ) == Ok::<TypeView, ConversionError>(TypeView::Primitive(PrimitiveType::TimestampNs)),
{
}

/// A physical decimal with a negative scale always fails the reverse
/// conversion as an invalid decimal, whatever its precision.
pub proof fn lemma_negative_scale_rejected(p: u8, s: i8)
    requires
        s < 0,
    ensures
        physical_to_type_spec(PhysicalTypeView::Decimal128(p, s)) == Err::<
            TypeView,
            ConversionError,
        >(ConversionError::InvalidDecimal),
{
}

// ---------------------------------------------------------------------------
// The synthesized map field
// ---------------------------------------------------------------------------

/// For any map type, the synthesized outer physical field is non-nullable
/// and its key child is non-nullable, whatever the input nullability flags;
/// only the value child carries the map's value nullability.
pub proof fn lemma_map_physical_shape(k: TypeView, v: TypeView, value_nullable: bool)
    ensures
        type_to_physical_spec(TypeView::Mapping(Box::new(k), Box::new(v), value_nullable))
            == PhysicalTypeView::Mapping(
            Box::new(map_entry_field_spec(k, v, value_nullable)),
            false,
        ),
        map_entry_field_spec(k, v, value_nullable).nullable == false,
        map_entry_field_spec(k, v, value_nullable).name == "key_value"@,
        map_entry_field_spec(k, v, value_nullable).data_type->Struct_0.len() == 2,
        map_entry_field_spec(k, v, value_nullable).data_type->Struct_0[0].nullable == false,
        map_entry_field_spec(k, v, value_nullable).data_type->Struct_0[0].name == "key"@,
        map_entry_field_spec(k, v, value_nullable).data_type->Struct_0[1].nullable
            == value_nullable,
        map_entry_field_spec(k, v, value_nullable).data_type->Struct_0[1].name == "value"@,
{
}

// ---------------------------------------------------------------------------
// Field order and nullability preservation
// ---------------------------------------------------------------------------

/// The forward direction preserves field count, order, names and per-field
/// nullability exactly.
pub proof fn lemma_forward_preserves_fields(fs: Seq<FieldView>)
    ensures
        fields_to_physical_spec(fs).len() == fs.len(),
        forall|i: int|
            0 <= i < fs.len() ==> (#[trigger] fields_to_physical_spec(fs)[i]).name == fs[i].name
                && fields_to_physical_spec(fs)[i].nullable == fs[i].nullable,
{
    lemma_fields_to_physical_spec(fs);
}

/// When every field of a physical list converts, the reverse direction
/// preserves field count, order, names and per-field nullability exactly.
pub proof fn lemma_reverse_preserves_fields(fs: Seq<crate::physical::PhysicalFieldView>)
    requires
        fields_to_logical_spec(fs) is Ok,
    ensures
        fields_to_logical_spec(fs)->Ok_0.len() == fs.len(),
        forall|i: int|
            0 <= i < fs.len() ==> (#[trigger] fields_to_logical_spec(fs)->Ok_0[i]).name
                == fs[i].name && fields_to_logical_spec(fs)->Ok_0[i].nullable == fs[i].nullable,
    decreases fs,
{
    lemma_fields_to_logical_ok_inverse(fs);
    lemma_fields_to_logical_all_ok(fs);
}

/// If a physical field list converts as a whole, each of its fields
/// converts.
pub proof fn lemma_fields_to_logical_ok_inverse(fs: Seq<crate::physical::PhysicalFieldView>)
    requires
        fields_to_logical_spec(fs) is Ok,
    ensures
        forall|i: int| 0 <= i < fs.len() ==> (#[trigger] field_to_logical_spec(fs[i])) is Ok,
    decreases fs,
{
    if fs.len() != 0 {
        let rest = fs.subrange(1, fs.len() as int);
        lemma_fields_to_logical_ok_inverse(rest);
        assert forall|i: int| 0 <= i < fs.len() implies (#[trigger] field_to_logical_spec(
            fs[i],
        )) is Ok by {
            if i > 0 {
                assert(rest[i - 1] == fs[i]);
            }
        }
    }
}

// ---------------------------------------------------------------------------
// The full round trip
// ---------------------------------------------------------------------------

/// For every round-trip-safe logical type, logical to physical to logical
/// is the identity.
pub proof fn lemma_type_round_trip(t: TypeView)
    requires
        round_trip_safe(t),
    ensures
        physical_to_type_spec(type_to_physical_spec(t)) == Ok::<TypeView, ConversionError>(t),
    decreases t,
{
    match t {
        TypeView::Primitive(p) => {
            lemma_primitive_round_trip(p);
        },
        TypeView::Struct(fs) => {
            lemma_fields_round_trip(fs);
            lemma_fields_to_physical_spec(fs);
            let pfs = fields_to_physical_spec(fs);
            assert forall|i: int| 0 <= i < pfs.len() implies (#[trigger] field_to_logical_spec(
                pfs[i],
            )) is Ok by {
                assert(field_to_logical_spec(pfs[i]) == Ok::<FieldView, ConversionError>(fs[i]));
            }
            lemma_fields_to_logical_all_ok(pfs);
            assert(fields_to_logical_spec(pfs)->Ok_0 =~= fs);
        },
        TypeView::Array(e, _nullable) => {
            lemma_type_round_trip(*e);
            assert(TypeView::Array(Box::new(*e), _nullable) == t);
            assert(type_to_physical_spec(t) == PhysicalTypeView::List(Box::new(
                crate::to_physical::list_item_field_spec(*e, _nullable),
            )));
            assert(physical_to_type_spec(type_to_physical_spec(t))
                == crate::to_logical::element_to_array_spec(
                crate::to_physical::list_item_field_spec(*e, _nullable),
            ));
            assert(physical_to_type_spec(type_to_physical_spec(t)) == Ok::<
                TypeView,
                ConversionError,
            >(t));
        },
        TypeView::Mapping(k, v, _vn) => {
            lemma_type_round_trip(*k);
            lemma_type_round_trip(*v);
        },
        TypeView::Dictionary(k, v, _ordered) => {
            lemma_type_round_trip(*k);
            lemma_type_round_trip(*v);
        },
    }
}

/// For every round-trip-safe field, logical to physical to logical is the
/// identity.
pub proof fn lemma_field_round_trip(f: FieldView)
    requires
        field_round_trip_safe(f),
    ensures
        field_to_logical_spec(field_to_physical_spec(f)) == Ok::<FieldView, ConversionError>(f),
    decreases f,
{
    lemma_type_round_trip(f.data_type);
    lemma_string_metadata_round_trip(f.metadata);
    assert(field_to_logical_spec(field_to_physical_spec(f))->Ok_0 =~= f);
}

/// Every field of a round-trip-safe list comes back as itself.
pub proof fn lemma_fields_round_trip(fs: Seq<FieldView>)
    requires
        fields_round_trip_safe(fs),
    ensures
        forall|i: int|
            0 <= i < fs.len() ==> #[trigger] field_to_logical_spec(
                fields_to_physical_spec(fs)[i],
            ) == Ok::<FieldView, ConversionError>(fs[i]),
    decreases fs,
{
    lemma_fields_to_physical_spec(fs);
    assert forall|i: int| 0 <= i < fs.len() implies #[trigger] field_to_logical_spec(
        fields_to_physical_spec(fs)[i],
    ) == Ok::<FieldView, ConversionError>(fs[i]) by {
        lemma_field_round_trip(fs[i]);
    }
}

/// For every round-trip-safe schema with unique field names, schema to
/// physical to logical is the identity.
pub proof fn lemma_schema_round_trip(fs: Seq<FieldView>)
    requires
        unique_field_names(fs),
        fields_round_trip_safe(fs),
    ensures
        schema_to_logical_spec(fields_to_physical_spec(fs)) == Ok::<Seq<FieldView>, ConversionError>(
            fs,
        ),
{
    lemma_fields_round_trip(fs);
    lemma_fields_to_physical_spec(fs);
    let pfs = fields_to_physical_spec(fs);
    assert forall|i: int| 0 <= i < pfs.len() implies (#[trigger] field_to_logical_spec(
        pfs[i],
    )) is Ok by {
        assert(field_to_logical_spec(pfs[i]) == Ok::<FieldView, ConversionError>(fs[i]));
    }
    lemma_fields_to_logical_all_ok(pfs);
    assert(fields_to_logical_spec(pfs)->Ok_0 =~= fs);
}

} // verus!
