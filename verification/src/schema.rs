//! The logical schema model: the type system used to persist table column
//! definitions, together with its mathematical view.

use vstd::prelude::*;

use crate::error::ConversionError;

verus! {

// ---------------------------------------------------------------------------
// Executable types
// ---------------------------------------------------------------------------

/// Fixed-point numeric type: `precision` total digits, `scale` digits after
/// the decimal point. Values are only constructible through [`Self::try_new`],
/// which enforces precision 1..=38 and scale 0..=38.
#[derive(Clone, Copy, Debug, PartialEq, Eq, Structural)]
pub struct DecimalType {
    precision: u8,
    scale: u8,
}

impl DecimalType {
    pub closed spec fn spec_precision(self) -> u8 {
        self.precision
    }

    pub closed spec fn spec_scale(self) -> u8 {
        self.scale
    }

    /// Valid ranges for a decimal: precision 1..=38, scale 0..=38.
    #[verifier::type_invariant]
    pub open spec fn wf(self) -> bool {
        1 <= self.spec_precision() <= 38 && self.spec_scale() <= 38
    }

    /// The decimal with the given precision and scale, as a spec-level value.
    pub closed spec fn spec_new(precision: u8, scale: u8) -> DecimalType {
        DecimalType { precision, scale }
    }

    /// `spec_new` gives back exactly the precision and scale it was built of.
    pub proof fn lemma_spec_new(precision: u8, scale: u8)
        ensures
            DecimalType::spec_new(precision, scale).spec_precision() == precision,
            DecimalType::spec_new(precision, scale).spec_scale() == scale,
    {
    }

    /// A decimal is determined by its precision and scale.
    pub proof fn lemma_extensional(d: DecimalType)
        ensures
            d == DecimalType::spec_new(d.spec_precision(), d.spec_scale()),
    {
    }

    /// Range-checked constructor; the only way to build a decimal.
    pub fn try_new(precision: u8, scale: u8) -> (r: Result<DecimalType, ConversionError>)
        ensures
            1 <= precision <= 38 && scale <= 38 ==> (r matches Ok(d)
                && d == DecimalType::spec_new(precision, scale)
                && d.spec_precision() == precision && d.spec_scale() == scale),
            !(1 <= precision <= 38 && scale <= 38) ==> r === Err(ConversionError::InvalidDecimal),
    {
        if 1 <= precision && precision <= 38 && scale <= 38 {
            Ok(DecimalType { precision, scale })
        } else {
            Err(ConversionError::InvalidDecimal)
        }
    }

    pub fn precision(&self) -> (r: u8)
        ensures
            r == self.spec_precision(),
    {
        self.precision
    }

    pub fn scale(&self) -> (r: u8)
        ensures
            r == self.spec_scale(),
    {
        self.scale
    }
}

/// The primitive (non-nested) logical kinds.
#[derive(Clone, Copy, Debug, PartialEq, Eq, Structural)]
pub enum PrimitiveType {
    String,
    Long,
    ULong,
    Integer,
    UInteger,
    Short,
    UShort,
    Byte,
    UByte,
    Float,
    Double,
    Boolean,
    Binary,
    Decimal(DecimalType),
    Date,
    /// Timestamp with timezone, microsecond resolution.
    Timestamp,
    /// Timestamp with timezone, nanosecond resolution.
    TimestampNs,
    /// Timestamp without timezone, microsecond resolution.
    TimestampNtz,
}

/// A value attached to a field under a metadata key: a string, or another
/// JSON-representable value.
#[derive(Clone, Debug, PartialEq)]
pub enum MetadataValue {
    String(String),
    Number(i64),
    Boolean(bool),
}

impl MetadataValue {
    /// An equal copy of the value.
    pub fn duplicate(&self) -> (r: MetadataValue)
        ensures
            r == *self,
    {
        match self {
            MetadataValue::String(s) => MetadataValue::String(s.clone()),
            MetadataValue::Number(n) => MetadataValue::Number(*n),
            MetadataValue::Boolean(b) => MetadataValue::Boolean(*b),
        }
    }
}

/// The logical type of a column: a closed tagged union over primitives and
/// the nested containers.
#[derive(Debug, PartialEq)]
pub enum DataType {
    Primitive(PrimitiveType),
    Struct(StructType),
    Array(Box<ArrayType>),
    Mapping(Box<MapType>),
    Dictionary(Box<DictionaryType>),
}

/// An ordered list of named fields; field order is semantically significant.
#[derive(Debug, PartialEq)]
pub struct StructType {
    pub fields: Vec<StructField>,
}

/// One named column or struct member, with its nullability and attached
/// key/value metadata (insertion-ordered, keys unique).
#[derive(Debug, PartialEq)]
pub struct StructField {
    pub name: String,
    pub data_type: DataType,
    pub nullable: bool,
    pub metadata: Vec<(String, MetadataValue)>,
}

/// An array of `element_type` values; `contains_null` is the nullability of
/// the elements.
#[derive(Debug, PartialEq)]
pub struct ArrayType {
    pub element_type: DataType,
    pub contains_null: bool,
}

/// A map from `key_type` to `value_type`; keys are never null,
/// `value_contains_null` is the nullability of the values.
#[derive(Debug, PartialEq)]
pub struct MapType {
    pub key_type: DataType,
    pub value_type: DataType,
    pub value_contains_null: bool,
}

/// A dictionary encoding: values are indices into a finite value set.
#[derive(Debug, PartialEq)]
pub struct DictionaryType {
    pub key_type: DataType,
    pub value_type: DataType,
    pub ordered: bool,
}

// ---------------------------------------------------------------------------
// Mathematical views
// ---------------------------------------------------------------------------

/// View of a metadata value.
#[verifier::ext_equal]
pub enum MetadataValueView {
    String(Seq<char>),
    Number(i64),
    Boolean(bool),
}

/// View of a logical type as a pure value tree.
#[verifier::ext_equal]
pub enum TypeView {
    Primitive(PrimitiveType),
    Struct(Seq<FieldView>),
    Array(Box<TypeView>, bool),
    Mapping(Box<TypeView>, Box<TypeView>, bool),
    Dictionary(Box<TypeView>, Box<TypeView>, bool),
}

/// View of a logical field.
#[verifier::ext_equal]
pub struct FieldView {
    pub name: Seq<char>,
    pub data_type: TypeView,
    pub nullable: bool,
    pub metadata: Seq<(Seq<char>, MetadataValueView)>,
}

pub open spec fn metadata_value_view(v: MetadataValue) -> MetadataValueView {
    match v {
        MetadataValue::String(s) => MetadataValueView::String(s@),
        MetadataValue::Number(n) => MetadataValueView::Number(n),
        MetadataValue::Boolean(b) => MetadataValueView::Boolean(b),
    }
}

pub open spec fn metadata_view(m: Seq<(String, MetadataValue)>) -> Seq<
    (Seq<char>, MetadataValueView),
> {
    m.map_values(|kv: (String, MetadataValue)| (kv.0@, metadata_value_view(kv.1)))
}

pub open spec fn type_view(t: DataType) -> TypeView
    decreases t,
{
    match t {
        DataType::Primitive(p) => TypeView::Primitive(p),
        DataType::Struct(s) => TypeView::Struct(fields_view(s.fields@)),
        DataType::Array(a) => TypeView::Array(Box::new(type_view((*a).element_type)), (*a).contains_null),
        DataType::Mapping(m) => TypeView::Mapping(
            Box::new(type_view((*m).key_type)),
            Box::new(type_view((*m).value_type)),
            (*m).value_contains_null,
        ),
        DataType::Dictionary(d) => TypeView::Dictionary(
            Box::new(type_view((*d).key_type)),
            Box::new(type_view((*d).value_type)),
            (*d).ordered,
        ),
    }
}

pub open spec fn field_view(f: StructField) -> FieldView
    decreases f,
{
    FieldView {
        name: f.name@,
        data_type: type_view(f.data_type),
        nullable: f.nullable,
        metadata: metadata_view(f.metadata@),
    }
}

pub open spec fn fields_view(fs: Seq<StructField>) -> Seq<FieldView>
    decreases fs,
{
    if fs.len() == 0 {
        Seq::empty()
    } else {
        seq![field_view(fs[0])] + fields_view(fs.subrange(1, fs.len() as int))
    }
}

/// `fields_view` maps `field_view` over the sequence, element by element.
pub proof fn lemma_fields_view(fs: Seq<StructField>)
    ensures
        fields_view(fs).len() == fs.len(),
        forall|i: int| 0 <= i < fs.len() ==> #[trigger] fields_view(fs)[i] == field_view(fs[i]),
    decreases fs,
{
    if fs.len() != 0 {
        lemma_fields_view(fs.subrange(1, fs.len() as int));
    }
}

/// No two fields share a name.
pub open spec fn unique_field_names(fs: Seq<FieldView>) -> bool {
    forall|i: int, j: int| 0 <= i < j < fs.len() ==> fs[i].name != fs[j].name
}

/// No two metadata entries share a key.
pub open spec fn unique_metadata_keys(m: Seq<(Seq<char>, MetadataValueView)>) -> bool {
    forall|i: int, j: int| 0 <= i < j < m.len() ==> m[i].0 != m[j].0
}

/// Whether some entry carries the key.
pub open spec fn metadata_has_key(m: Seq<(Seq<char>, MetadataValueView)>, k: Seq<char>) -> bool {
    exists|i: int| 0 <= i < m.len() && m[i].0 == k
}

/// An index of an entry carrying the key.
pub open spec fn metadata_key_index(m: Seq<(Seq<char>, MetadataValueView)>, k: Seq<char>) -> int {
    choose|i: int| 0 <= i < m.len() && m[i].0 == k
}

/// Insert one entry into an ordered mapping: an existing key keeps its
/// position and takes the new value, a new key goes to the end.
pub open spec fn metadata_upsert(
    m: Seq<(Seq<char>, MetadataValueView)>,
    k: Seq<char>,
    v: MetadataValueView,
) -> Seq<(Seq<char>, MetadataValueView)> {
    if metadata_has_key(m, k) {
        m.update(metadata_key_index(m, k), (k, v))
    } else {
        m.push((k, v))
    }
}

/// Collect an entry list into an ordered mapping, left to right; a repeated
/// key keeps its first position and its last value.
pub open spec fn metadata_collect(entries: Seq<(Seq<char>, MetadataValueView)>) -> Seq<
    (Seq<char>, MetadataValueView),
>
    decreases entries,
{
    if entries.len() == 0 {
        Seq::empty()
    } else {
        metadata_upsert(
            metadata_collect(entries.drop_last()),
            entries.last().0,
            entries.last().1,
        )
    }
}

/// Upserting keeps the keys unique.
pub proof fn lemma_metadata_upsert_unique(
    m: Seq<(Seq<char>, MetadataValueView)>,
    k: Seq<char>,
    v: MetadataValueView,
)
    requires
        unique_metadata_keys(m),
    ensures
        unique_metadata_keys(metadata_upsert(m, k, v)),
{
    if metadata_has_key(m, k) {
        let at = metadata_key_index(m, k);
        assert(0 <= at < m.len() && m[at].0 == k);
        assert forall|i: int, j: int|
            0 <= i < j < metadata_upsert(m, k, v).len() implies metadata_upsert(m, k, v)[i].0
            != metadata_upsert(m, k, v)[j].0 by {
            assert(m[i].0 != m[j].0);
        }
    } else {
        assert forall|i: int, j: int|
            0 <= i < j < metadata_upsert(m, k, v).len() implies metadata_upsert(m, k, v)[i].0
            != metadata_upsert(m, k, v)[j].0 by {
            if j < m.len() {
                assert(m[i].0 != m[j].0);
            } else {
                assert(!(m[i].0 == k));
            }
        }
    }
}

/// A collected mapping has unique keys.
pub proof fn lemma_metadata_collect_unique(entries: Seq<(Seq<char>, MetadataValueView)>)
    ensures
        unique_metadata_keys(metadata_collect(entries)),
    decreases entries,
{
    if entries.len() == 0 {
    } else {
        lemma_metadata_collect_unique(entries.drop_last());
        lemma_metadata_upsert_unique(
            metadata_collect(entries.drop_last()),
            entries.last().0,
            entries.last().1,
        );
    }
}

impl StructField {
    /// A field with the given name, type and nullability and no metadata.
    pub fn new(name: String, data_type: DataType, nullable: bool) -> (r: StructField)
        ensures
            r.name == name,
            r.data_type == data_type,
            r.nullable == nullable,
            r.metadata@ == Seq::<(String, MetadataValue)>::empty(),
    {
        StructField { name, data_type, nullable, metadata: Vec::new() }
    }

    /// A field that may not hold nulls.
    pub fn not_null(name: String, data_type: DataType) -> (r: StructField)
        ensures
            r.name == name,
            r.data_type == data_type,
            r.nullable == false,
            r.metadata@ == Seq::<(String, MetadataValue)>::empty(),
    {
        StructField::new(name, data_type, false)
    }

    /// A field that may hold nulls.
    pub fn nullable(name: String, data_type: DataType) -> (r: StructField)
        ensures
            r.name == name,
            r.data_type == data_type,
            r.nullable == true,
            r.metadata@ == Seq::<(String, MetadataValue)>::empty(),
    {
        StructField::new(name, data_type, true)
    }

    /// Replace the field's metadata with the given entries, collected left
    /// to right into an ordered mapping with unique keys: a repeated key
    /// keeps its first position and its last value.
    pub fn with_metadata(self, entries: Vec<(String, MetadataValue)>) -> (r: StructField)
        ensures
            r.name == self.name,
            r.data_type == self.data_type,
            r.nullable == self.nullable,
            metadata_view(r.metadata@) == metadata_collect(metadata_view(entries@)),
            unique_metadata_keys(metadata_view(r.metadata@)),
    {
        let mut out: Vec<(String, MetadataValue)> = Vec::new();
        let mut i: usize = 0;
        proof {
            assert(metadata_view(out@) =~= metadata_collect(
                metadata_view(entries@).subrange(0, 0),
            ));
        }
        while i < entries.len()
            invariant
                i <= entries.len(),
                metadata_view(out@) == metadata_collect(metadata_view(entries@).subrange(0, i as int)),
                unique_metadata_keys(metadata_view(out@)),
            decreases entries.len() - i,
        {
            let ghost pre = metadata_view(entries@).subrange(0, i as int);
            let entry = &entries[i];
            let key = entry.0.clone();
            let value = entry.1.duplicate();
            let mut j: usize = 0;
            let mut found: bool = false;
            while j < out.len() && !found
                invariant
                    j <= out@.len(),
                    !found ==> forall|x: int|
                        0 <= x < j ==> (#[trigger] out@[x]).0@ != key@,
                    found ==> j < out@.len() && out@[j as int].0@ == key@,
                decreases out@.len() - j, (if found { 0int } else { 1int }),
            {
                if out[j].0 == key {
                    found = true;
                } else {
                    j = j + 1;
                }
            }
            proof {
                let mv = metadata_view(out@);
                if found {
                    assert(mv[j as int].0 == key@);
                    assert(metadata_has_key(mv, key@));
                    let at = metadata_key_index(mv, key@);
                    assert(0 <= at < mv.len() && mv[at].0 == key@);
                    assert(at == j as int);
                } else {
                    assert forall|x: int| 0 <= x < mv.len() implies (#[trigger] mv[x]).0
                        != key@ by {
                        assert(out@[x].0@ != key@);
                    }
                    assert(!metadata_has_key(mv, key@));
                }
            }
            if found {
                out[j] = (key, value);
            } else {
                out.push((key, value));
            }
            proof {
                let next = metadata_view(entries@).subrange(0, i as int + 1);
                assert(next.drop_last() =~= pre);
                assert(next.last() == (entries@[i as int].0@, metadata_value_view(
                    entries@[i as int].1,
                )));
                assert(metadata_view(out@) =~= metadata_upsert(
                    metadata_collect(pre),
                    key@,
                    metadata_value_view(entries@[i as int].1),
                ));
                lemma_metadata_upsert_unique(
                    metadata_collect(pre),
                    key@,
                    metadata_value_view(entries@[i as int].1),
                );
            }
            i = i + 1;
        }
        proof {
            assert(metadata_view(entries@).subrange(0, entries@.len() as int) =~= metadata_view(
                entries@,
            ));
        }
        StructField { name: self.name, data_type: self.data_type, nullable: self.nullable, metadata: out }
    }
}

impl StructType {
    /// Assemble a struct type from a field list; rejects duplicate field
    /// names, so a schema never silently drops or renames a column.
    pub fn try_new(fields: Vec<StructField>) -> (r: Result<StructType, ConversionError>)
        ensures
            unique_field_names(fields_view(fields@)) ==> (r matches Ok(s) && s@ == fields_view(
                fields@,
            )),
            !unique_field_names(fields_view(fields@)) ==> r === Err(
                ConversionError::SchemaConstruction,
            ),
    {
        proof {
            lemma_fields_view(fields@);
        }
        let n = fields.len();
        let mut i: usize = 0;
        while i < n
            invariant
                n == fields@.len(),
                i <= n,
                forall|x: int, y: int|
                    0 <= x < i && x < y < n ==> #[trigger] fields@[x].name@ != #[trigger] fields@[y].name@,
            decreases n - i,
        {
            let mut j: usize = i + 1;
            while j < n
                invariant
                    n == fields@.len(),
                    i < n,
                    i < j <= n,
                    forall|y: int| i < y < j ==> fields@[i as int].name@ != #[trigger] fields@[y].name@,
                decreases n - j,
            {
                if fields[i].name == fields[j].name {
                    proof {
                        lemma_fields_view(fields@);
                        assert(fields_view(fields@)[i as int].name == fields_view(
                            fields@,
                        )[j as int].name);
                        assert(!unique_field_names(fields_view(fields@)));
                    }
                    return Err(ConversionError::SchemaConstruction);
                }
                j = j + 1;
            }
            i = i + 1;
        }
        proof {
            lemma_fields_view(fields@);
            assert(unique_field_names(fields_view(fields@)));
        }
        Ok(StructType { fields })
    }

    /// The fields, in declaration order.
    pub fn fields(&self) -> (r: &Vec<StructField>)
        ensures
            fields_view(r@) == self@,
    {
        &self.fields
    }
}

impl View for DataType {
    type V = TypeView;

    open spec fn view(&self) -> TypeView {
        type_view(*self)
    }
}

impl View for StructField {
    type V = FieldView;

    open spec fn view(&self) -> FieldView {
        field_view(*self)
    }
}

impl View for StructType {
    type V = Seq<FieldView>;

    open spec fn view(&self) -> Seq<FieldView> {
        fields_view(self.fields@)
    }
}

} // verus!
