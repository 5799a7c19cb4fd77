//! Forward translation: logical schema model to physical columnar types.
//!
//! The forward mapping is total: every logical type has exactly one physical
//! form. The synthesized container children carry the fixed canonical names
//! `item` (list element) and `key_value`/`key`/`value` (map entries).

use vstd::prelude::*;

use crate::error::ConversionError;
use crate::json::{json_boolean, json_number, serialize_boolean, serialize_number};
use crate::physical::{
    lemma_physical_fields_view, physical_field_view, physical_fields_view, physical_metadata_view,
    PhysicalField, PhysicalFieldView, PhysicalSchema, PhysicalType, PhysicalTypeView, TimeUnit,
};
use crate::schema::{
    field_view, fields_view, lemma_fields_view, metadata_value_view, metadata_view, type_view,
    ArrayType, DataType, DictionaryType, FieldView, MapType, MetadataValue, MetadataValueView,
    PrimitiveType, StructField, StructType, TypeView,
};

verus! {

// ---------------------------------------------------------------------------
// The mapping, as spec functions over the views
// ---------------------------------------------------------------------------

/// The fixed primitive table: every logical primitive kind has exactly one
/// physical encoding.
pub open spec fn primitive_to_physical_spec(p: PrimitiveType) -> PhysicalTypeView {
    match p {
        PrimitiveType::String => PhysicalTypeView::Utf8,
        PrimitiveType::Long => PhysicalTypeView::Int64,
        PrimitiveType::ULong => PhysicalTypeView::UInt64,
        PrimitiveType::Integer => PhysicalTypeView::Int32,
        PrimitiveType::UInteger => PhysicalTypeView::UInt32,
        PrimitiveType::Short => PhysicalTypeView::Int16,
        PrimitiveType::UShort => PhysicalTypeView::UInt16,
        PrimitiveType::Byte => PhysicalTypeView::Int8,
        PrimitiveType::UByte => PhysicalTypeView::UInt8,
        PrimitiveType::Float => PhysicalTypeView::Float32,
        PrimitiveType::Double => PhysicalTypeView::Float64,
        PrimitiveType::Boolean => PhysicalTypeView::Boolean,
        PrimitiveType::Binary => PhysicalTypeView::Binary,
        PrimitiveType::Decimal(d) => PhysicalTypeView::Decimal128(
            d.spec_precision(),
            d.spec_scale() as i8,
        ),
        PrimitiveType::Date => PhysicalTypeView::Date32,
        PrimitiveType::Timestamp => PhysicalTypeView::Timestamp(
            TimeUnit::Microsecond,
            Some("UTC"@),
        ),
        PrimitiveType::TimestampNs => PhysicalTypeView::Timestamp(
            TimeUnit::Nanosecond,
            Some("UTC"@),
        ),
        PrimitiveType::TimestampNtz => PhysicalTypeView::Timestamp(TimeUnit::Microsecond, None),
    }
}

/// The string a metadata value crosses the boundary as: strings pass through
/// unchanged, other values take their JSON text.
pub open spec fn metadata_value_to_physical_spec(v: MetadataValueView) -> Seq<char> {
    match v {
        MetadataValueView::String(s) => s,
        MetadataValueView::Number(n) => json_number(n as int),
        MetadataValueView::Boolean(b) => json_boolean(b),
    }
}

/// Per-field metadata crosses key for key, in order.
pub open spec fn metadata_to_physical_spec(m: Seq<(Seq<char>, MetadataValueView)>) -> Seq<
    (Seq<char>, Seq<char>),
> {
    m.map_values(
        |kv: (Seq<char>, MetadataValueView)| (kv.0, metadata_value_to_physical_spec(kv.1)),
    )
}

/// The physical form of a logical type.
///
/// An array becomes a list whose single child field is named `item` and
/// carries the element nullability. A map becomes a non-nullable `key_value`
/// field wrapping a two-field struct `key` (never nullable) and `value`
/// (nullability of the map values). A dictionary maps its key and value
/// types; the logical ordered flag is not carried, the physical flag is
/// always false.
pub open spec fn type_to_physical_spec(t: TypeView) -> PhysicalTypeView
    decreases t,
{
    match t {
        TypeView::Primitive(p) => primitive_to_physical_spec(p),
        TypeView::Struct(fs) => PhysicalTypeView::Struct(fields_to_physical_spec(fs)),
        TypeView::Array(e, nullable) => PhysicalTypeView::List(
            Box::new(
                PhysicalFieldView {
                    name: "item"@,
                    data_type: type_to_physical_spec(*e),
                    nullable,
                    metadata: Seq::empty(),
                },
            ),
        ),
        TypeView::Mapping(k, v, value_nullable) => PhysicalTypeView::Mapping(
            Box::new(
                PhysicalFieldView {
                    name: "key_value"@,
                    data_type: PhysicalTypeView::Struct(
                        seq![
                            PhysicalFieldView {
                                name: "key"@,
                                data_type: type_to_physical_spec(*k),
                                nullable: false,
                                metadata: Seq::empty(),
                            },
                            PhysicalFieldView {
                                name: "value"@,
                                data_type: type_to_physical_spec(*v),
                                nullable: value_nullable,
                                metadata: Seq::empty(),
                            },
                        ],
                    ),
                    nullable: false,
                    metadata: Seq::empty(),
                },
            ),
            false,
        ),
        TypeView::Dictionary(k, v, _ordered) => PhysicalTypeView::Dictionary(
            Box::new(type_to_physical_spec(*k)),
            Box::new(type_to_physical_spec(*v)),
            false,
        ),
    }
}

/// The physical form of a logical field: same name, same nullability, the
/// type mapped, the metadata serialized.
pub open spec fn field_to_physical_spec(f: FieldView) -> PhysicalFieldView
    decreases f,
{
    PhysicalFieldView {
        name: f.name,
        data_type: type_to_physical_spec(f.data_type),
        nullable: f.nullable,
        metadata: metadata_to_physical_spec(f.metadata),
    }
}

/// Fields are mapped independently, in declaration order.
pub open spec fn fields_to_physical_spec(fs: Seq<FieldView>) -> Seq<PhysicalFieldView>
    decreases fs,
{
    if fs.len() == 0 {
        Seq::empty()
    } else {
        seq![field_to_physical_spec(fs[0])] + fields_to_physical_spec(
            fs.subrange(1, fs.len() as int),
        )
    }
}

/// The synthesized list child: a field named `item` with the element's
/// physical type and the element's nullability, no metadata.
pub open spec fn list_item_field_spec(element: TypeView, nullable: bool) -> PhysicalFieldView {
    PhysicalFieldView {
        name: "item"@,
        data_type: type_to_physical_spec(element),
        nullable,
        metadata: Seq::empty(),
    }
}

/// The synthesized map child: a non-nullable field named `key_value`
/// wrapping a two-field struct of a never-nullable `key` and a `value`
/// whose nullability is the map's value nullability.
pub open spec fn map_entry_field_spec(key: TypeView, value: TypeView, value_nullable: bool)
    -> PhysicalFieldView {
    PhysicalFieldView {
        name: "key_value"@,
        data_type: PhysicalTypeView::Struct(
            seq![
                PhysicalFieldView {
                    name: "key"@,
                    data_type: type_to_physical_spec(key),
                    nullable: false,
                    metadata: Seq::empty(),
                },
                PhysicalFieldView {
                    name: "value"@,
                    data_type: type_to_physical_spec(value),
                    nullable: value_nullable,
                    metadata: Seq::empty(),
                },
            ],
        ),
        nullable: false,
        metadata: Seq::empty(),
    }
}

/// `fields_to_physical_spec` maps `field_to_physical_spec` over the
/// sequence, element by element.
pub proof fn lemma_fields_to_physical_spec(fs: Seq<FieldView>)
    ensures
        fields_to_physical_spec(fs).len() == fs.len(),
        forall|i: int|
            0 <= i < fs.len() ==> #[trigger] fields_to_physical_spec(fs)[i]
                == field_to_physical_spec(fs[i]),
    decreases fs,
{
    if fs.len() != 0 {
        lemma_fields_to_physical_spec(fs.subrange(1, fs.len() as int));
    }
}

// ---------------------------------------------------------------------------
// Executable conversions
// ---------------------------------------------------------------------------

/// Physical form of one logical primitive kind; total.
pub fn primitive_to_physical(p: &PrimitiveType) -> (r: PhysicalType)
    ensures
        r@ == primitive_to_physical_spec(*p),
{
    match p {
        PrimitiveType::String => PhysicalType::Utf8,
        PrimitiveType::Long => PhysicalType::Int64,
        PrimitiveType::ULong => PhysicalType::UInt64,
        PrimitiveType::Integer => PhysicalType::Int32,
        PrimitiveType::UInteger => PhysicalType::UInt32,
        PrimitiveType::Short => PhysicalType::Int16,
        PrimitiveType::UShort => PhysicalType::UInt16,
        PrimitiveType::Byte => PhysicalType::Int8,
        PrimitiveType::UByte => PhysicalType::UInt8,
        PrimitiveType::Float => PhysicalType::Float32,
        PrimitiveType::Double => PhysicalType::Float64,
        PrimitiveType::Boolean => PhysicalType::Boolean,
        PrimitiveType::Binary => PhysicalType::Binary,
        PrimitiveType::Decimal(d) => {
            proof {
                use_type_invariant(*d);
            }
            PhysicalType::Decimal128(d.precision(), d.scale() as i8)
        },
        PrimitiveType::Date => PhysicalType::Date32,
        PrimitiveType::Timestamp => PhysicalType::Timestamp(
            TimeUnit::Microsecond,
            Some("UTC".to_owned()),
        ),
        PrimitiveType::TimestampNs => PhysicalType::Timestamp(
            TimeUnit::Nanosecond,
            Some("UTC".to_owned()),
        ),
        PrimitiveType::TimestampNtz => PhysicalType::Timestamp(TimeUnit::Microsecond, None),
    }
}

/// Serialize one field's metadata for the physical side. String values pass
/// through byte for byte; other values take their JSON text.
pub fn metadata_to_physical(m: &Vec<(String, MetadataValue)>) -> (r: Result<
    Vec<(String, String)>,
    ConversionError,
>)
    ensures
        r matches Ok(pm) && physical_metadata_view(pm@) == metadata_to_physical_spec(
            metadata_view(m@),
        ),
{
    let mut out: Vec<(String, String)> = Vec::new();
    let mut i: usize = 0;
    while i < m.len()
        invariant
            i <= m.len(),
            out@.len() == i,
            forall|j: int|
                0 <= j < i ==> #[trigger] out@[j].0@ == m@[j].0@ && out@[j].1@
                    == metadata_value_to_physical_spec(metadata_value_view(m@[j].1)),
        decreases m.len() - i,
    {
        let kv = &m[i];
        let key = kv.0.clone();
        let text = match &kv.1 {
            MetadataValue::String(s) => s.clone(),
            MetadataValue::Number(n) => {
                match serialize_number(*n) {
                    Some(s) => s,
                    None => {
                        return Err(ConversionError::MetadataSerialization);
                    },
                }
            },
            MetadataValue::Boolean(b) => {
                match serialize_boolean(*b) {
                    Some(s) => s,
                    None => {
                        return Err(ConversionError::MetadataSerialization);
                    },
                }
            },
        };
        proof {
            assert(key@ == m@[i as int].0@);
            assert(text@ == metadata_value_to_physical_spec(metadata_value_view(m@[i as int].1)));
        }
        out.push((key, text));
        i = i + 1;
    }
    proof {
        assert(physical_metadata_view(out@) =~= metadata_to_physical_spec(metadata_view(m@)));
    }
    Ok(out)
}

/// An empty metadata vector views to the empty physical metadata.
proof fn lemma_empty_physical_metadata()
    ensures
        physical_metadata_view(Seq::<(String, String)>::empty()) == Seq::<
            (Seq<char>, Seq<char>),
        >::empty(),
{
    assert(physical_metadata_view(Seq::<(String, String)>::empty()) =~= Seq::<
        (Seq<char>, Seq<char>),
    >::empty());
}

/// Physical form of a logical type; always succeeds and returns exactly the
/// tree that `type_to_physical_spec` describes.
pub fn type_to_physical(t: &DataType) -> (r: Result<PhysicalType, ConversionError>)
    ensures
        r matches Ok(p) && p@ == type_to_physical_spec(t@),
    decreases *t,
{
    match t {
        DataType::Primitive(p) => Ok(primitive_to_physical(p)),
        DataType::Struct(s) => {
            match fields_to_physical(&s.fields) {
                Ok(fs) => Ok(PhysicalType::Struct(fs)),
                Err(e) => Err(e),
            }
        },
        DataType::Array(a) => {
            let element = match type_to_physical(&a.element_type) {
                Ok(p) => p,
                Err(e) => {
                    return Err(e);
                },
            };
            let item = PhysicalField {
                name: "item".to_owned(),
                data_type: element,
                nullable: a.contains_null,
                metadata: Vec::new(),
            };
            proof {
                lemma_empty_physical_metadata();
                assert(item@ =~= list_item_field_spec(
                    type_view((*a).element_type),
                    a.contains_null,
                ));
            }
            let out = PhysicalType::List(Box::new(item));
            proof {
                assert(out@ == type_to_physical_spec(t@));
            }
            Ok(out)
        },
        DataType::Mapping(m) => {
            let key_type = match type_to_physical(&m.key_type) {
                Ok(p) => p,
                Err(e) => {
                    return Err(e);
                },
            };
            let value_type = match type_to_physical(&m.value_type) {
                Ok(p) => p,
                Err(e) => {
                    return Err(e);
                },
            };
            let key_field = PhysicalField {
                name: "key".to_owned(),
                data_type: key_type,
                nullable: false,
                metadata: Vec::new(),
            };
            let value_field = PhysicalField {
                name: "value".to_owned(),
                data_type: value_type,
                nullable: m.value_contains_null,
                metadata: Vec::new(),
            };
            let ghost target = map_entry_field_spec(
                type_view((*m).key_type),
                type_view((*m).value_type),
                m.value_contains_null,
            );
            proof {
                lemma_empty_physical_metadata();
                assert(key_field@ =~= target.data_type->Struct_0[0]);
                assert(value_field@ =~= target.data_type->Struct_0[1]);
            }
            let mut entries: Vec<PhysicalField> = Vec::new();
            entries.push(key_field);
            entries.push(value_field);
            proof {
                lemma_physical_fields_view(entries@);
                assert(physical_fields_view(entries@) =~= target.data_type->Struct_0);
            }
            let outer = PhysicalField {
                name: "key_value".to_owned(),
                data_type: PhysicalType::Struct(entries),
                nullable: false,
                metadata: Vec::new(),
            };
            proof {
                assert(outer@ =~= target);
            }
            let out = PhysicalType::Mapping(Box::new(outer), false);
            proof {
                assert(out@ == type_to_physical_spec(t@));
            }
            Ok(out)
        },
        DataType::Dictionary(d) => {
            let key_type = match type_to_physical(&d.key_type) {
                Ok(p) => p,
                Err(e) => {
                    return Err(e);
                },
            };
            let value_type = match type_to_physical(&d.value_type) {
                Ok(p) => p,
                Err(e) => {
                    return Err(e);
                },
            };
            let out = PhysicalType::Dictionary(Box::new(key_type), Box::new(value_type), false);
            proof {
                assert(out@ =~~= type_to_physical_spec(t@));
            }
            Ok(out)
        },
    }
}

/// Physical form of one logical field: same name, same nullability, the
/// type mapped, the metadata serialized.
pub fn field_to_physical(f: &StructField) -> (r: Result<PhysicalField, ConversionError>)
    ensures
        r matches Ok(pf) && pf@ == field_to_physical_spec(f@),
    decreases *f,
{
    let data_type = match type_to_physical(&f.data_type) {
        Ok(p) => p,
        Err(e) => {
            return Err(e);
        },
    };
    let metadata = match metadata_to_physical(&f.metadata) {
        Ok(pm) => pm,
        Err(e) => {
            return Err(e);
        },
    };
    let out = PhysicalField { name: f.name.clone(), data_type, nullable: f.nullable, metadata };
    proof {
        assert(out@ =~~= field_to_physical_spec(f@));
    }
    Ok(out)
}

/// Physical form of a list of logical fields, in declaration order.
pub fn fields_to_physical(fields: &Vec<StructField>) -> (r: Result<
    Vec<PhysicalField>,
    ConversionError,
>)
    ensures
        r matches Ok(pfs) && physical_fields_view(pfs@) == fields_to_physical_spec(
            fields_view(fields@),
        ),
    decreases fields@,
{
    let mut out: Vec<PhysicalField> = Vec::new();
    let mut i: usize = 0;
    while i < fields.len()
        invariant
            i <= fields.len(),
            out@.len() == i,
            forall|j: int|
                0 <= j < i ==> #[trigger] physical_field_view(out@[j]) == field_to_physical_spec(
                    field_view(fields@[j]),
                ),
        decreases fields@.len() - i,
    {
        let pf = match field_to_physical(&fields[i]) {
            Ok(pf) => pf,
            Err(e) => {
                return Err(e);
            },
        };
        out.push(pf);
        i = i + 1;
    }
    proof {
        lemma_fields_view(fields@);
        lemma_fields_to_physical_spec(fields_view(fields@));
        lemma_physical_fields_view(out@);
        assert(physical_fields_view(out@) =~= fields_to_physical_spec(fields_view(fields@)));
    }
    Ok(out)
}

/// Physical form of a whole logical schema: every field mapped, order kept.
pub fn schema_to_physical(s: &StructType) -> (r: Result<PhysicalSchema, ConversionError>)
    ensures
        r matches Ok(ps) && ps@ == fields_to_physical_spec(s@),
{
    match fields_to_physical(&s.fields) {
        Ok(fs) => Ok(PhysicalSchema { fields: fs }),
        Err(e) => Err(e),
    }
}

/// Standalone form of the synthesized list child for one array type.
pub fn array_to_physical_field(a: &ArrayType) -> (r: Result<PhysicalField, ConversionError>)
    ensures
        r matches Ok(pf) && pf@ == list_item_field_spec(
            type_view(a.element_type),
            a.contains_null,
        ),
{
    let element = match type_to_physical(&a.element_type) {
        Ok(p) => p,
        Err(e) => {
            return Err(e);
        },
    };
    let out = PhysicalField {
        name: "item".to_owned(),
        data_type: element,
        nullable: a.contains_null,
        metadata: Vec::new(),
    };
    proof {
        lemma_empty_physical_metadata();
        assert(out@ =~~= list_item_field_spec(type_view(a.element_type), a.contains_null));
    }
    Ok(out)
}

/// Standalone form of the synthesized map child for one map type.
pub fn map_to_physical_field(m: &MapType) -> (r: Result<PhysicalField, ConversionError>)
    ensures
        r matches Ok(pf) && pf@ == map_entry_field_spec(
            type_view(m.key_type),
            type_view(m.value_type),
            m.value_contains_null,
        ),
{
    let key_type = match type_to_physical(&m.key_type) {
        Ok(p) => p,
        Err(e) => {
            return Err(e);
        },
    };
    let value_type = match type_to_physical(&m.value_type) {
        Ok(p) => p,
        Err(e) => {
            return Err(e);
        },
    };
    let key_field = PhysicalField {
        name: "key".to_owned(),
        data_type: key_type,
        nullable: false,
        metadata: Vec::new(),
    };
    let value_field = PhysicalField {
        name: "value".to_owned(),
        data_type: value_type,
        nullable: m.value_contains_null,
        metadata: Vec::new(),
    };
    let ghost target = map_entry_field_spec(
        type_view(m.key_type),
        type_view(m.value_type),
        m.value_contains_null,
    );
    proof {
        lemma_empty_physical_metadata();
        assert(key_field@ =~= target.data_type->Struct_0[0]);
        assert(value_field@ =~= target.data_type->Struct_0[1]);
    }
    let mut entries: Vec<PhysicalField> = Vec::new();
    entries.push(key_field);
    entries.push(value_field);
    proof {
        lemma_physical_fields_view(entries@);
        assert(physical_fields_view(entries@) =~= target.data_type->Struct_0);
    }
    let out = PhysicalField {
        name: "key_value".to_owned(),
        data_type: PhysicalType::Struct(entries),
        nullable: false,
        metadata: Vec::new(),
    };
    proof {
        assert(out@ =~= target);
    }
    Ok(out)
}

/// Physical form of one dictionary type: key and value mapped recursively;
/// the logical ordered flag is not carried.
pub fn dictionary_to_physical(d: &DictionaryType) -> (r: Result<PhysicalType, ConversionError>)
    ensures
        r matches Ok(p) && p@ == PhysicalTypeView::Dictionary(
            Box::new(type_to_physical_spec(type_view(d.key_type))),
            Box::new(type_to_physical_spec(type_view(d.value_type))),
            false,
        ),
{
    let key_type = match type_to_physical(&d.key_type) {
        Ok(p) => p,
        Err(e) => {
            return Err(e);
        },
    };
    let value_type = match type_to_physical(&d.value_type) {
        Ok(p) => p,
        Err(e) => {
            return Err(e);
        },
    };
    Ok(PhysicalType::Dictionary(Box::new(key_type), Box::new(value_type), false))
}

} // verus!
