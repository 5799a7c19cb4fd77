//! The physical columnar type system: the types an execution engine gives to
//! its in-memory vectors, together with its mathematical view.

use vstd::prelude::*;

verus! {

// ---------------------------------------------------------------------------
// Executable types
// ---------------------------------------------------------------------------

/// Resolution of a physical timestamp.
#[derive(Clone, Copy, Debug, PartialEq, Eq, Structural)]
pub enum TimeUnit {
    Second,
    Millisecond,
    Microsecond,
    Nanosecond,
}

/// The physical type of a vector: a closed tagged union. Several encodings
/// alias to one logical kind (three string encodings, four binary encodings,
/// two date widths, five list variants).
#[derive(Debug, PartialEq)]
pub enum PhysicalType {
    Boolean,
    Int8,
    Int16,
    Int32,
    Int64,
    UInt8,
    UInt16,
    UInt32,
    UInt64,
    Float32,
    Float64,
    Utf8,
    LargeUtf8,
    Utf8View,
    Binary,
    FixedSizeBinary(i32),
    LargeBinary,
    BinaryView,
    /// 128-bit decimal with (precision, scale).
    Decimal128(u8, i8),
    /// Days since the epoch, 32-bit.
    Date32,
    /// Milliseconds since the epoch, 64-bit.
    Date64,
    /// A point in time at the given resolution, with an optional timezone
    /// name.
    Timestamp(TimeUnit, Option<String>),
    Struct(Vec<PhysicalField>),
    List(Box<PhysicalField>),
    ListView(Box<PhysicalField>),
    LargeList(Box<PhysicalField>),
    LargeListView(Box<PhysicalField>),
    FixedSizeList(Box<PhysicalField>, i32),
    /// A map encoded as a list of entry structs; the flag records whether
    /// entries are sorted by key.
    Mapping(Box<PhysicalField>, bool),
    /// A dictionary encoding with an explicit ordered flag.
    Dictionary(Box<PhysicalType>, Box<PhysicalType>, bool),
}

/// One named physical column, with nullability and string-valued metadata
/// (insertion-ordered, keys unique).
#[derive(Debug, PartialEq)]
pub struct PhysicalField {
    pub name: String,
    pub data_type: PhysicalType,
    pub nullable: bool,
    pub metadata: Vec<(String, String)>,
}

/// An ordered list of physical fields.
#[derive(Debug, PartialEq)]
pub struct PhysicalSchema {
    pub fields: Vec<PhysicalField>,
}

// ---------------------------------------------------------------------------
// Mathematical views
// ---------------------------------------------------------------------------

/// View of a physical type as a pure value tree.
#[verifier::ext_equal]
pub enum PhysicalTypeView {
    Boolean,
    Int8,
    Int16,
    Int32,
    Int64,
    UInt8,
    UInt16,
    UInt32,
    UInt64,
    Float32,
    Float64,
    Utf8,
    LargeUtf8,
    Utf8View,
    Binary,
    FixedSizeBinary(i32),
    LargeBinary,
    BinaryView,
    Decimal128(u8, i8),
    Date32,
    Date64,
    Timestamp(TimeUnit, Option<Seq<char>>),
    Struct(Seq<PhysicalFieldView>),
    List(Box<PhysicalFieldView>),
    ListView(Box<PhysicalFieldView>),
    LargeList(Box<PhysicalFieldView>),
    LargeListView(Box<PhysicalFieldView>),
    FixedSizeList(Box<PhysicalFieldView>, i32),
    Mapping(Box<PhysicalFieldView>, bool),
    Dictionary(Box<PhysicalTypeView>, Box<PhysicalTypeView>, bool),
}

/// View of a physical field.
#[verifier::ext_equal]
pub struct PhysicalFieldView {
    pub name: Seq<char>,
    pub data_type: PhysicalTypeView,
    pub nullable: bool,
    pub metadata: Seq<(Seq<char>, Seq<char>)>,
}

pub open spec fn physical_metadata_view(m: Seq<(String, String)>) -> Seq<(Seq<char>, Seq<char>)> {
    m.map_values(|kv: (String, String)| (kv.0@, kv.1@))
}

pub open spec fn physical_type_view(t: PhysicalType) -> PhysicalTypeView
    decreases t,
{
    match t {
        PhysicalType::Boolean => PhysicalTypeView::Boolean,
        PhysicalType::Int8 => PhysicalTypeView::Int8,
        PhysicalType::Int16 => PhysicalTypeView::Int16,
        PhysicalType::Int32 => PhysicalTypeView::Int32,
        PhysicalType::Int64 => PhysicalTypeView::Int64,
        PhysicalType::UInt8 => PhysicalTypeView::UInt8,
        PhysicalType::UInt16 => PhysicalTypeView::UInt16,
        PhysicalType::UInt32 => PhysicalTypeView::UInt32,
        PhysicalType::UInt64 => PhysicalTypeView::UInt64,
        PhysicalType::Float32 => PhysicalTypeView::Float32,
        PhysicalType::Float64 => PhysicalTypeView::Float64,
        PhysicalType::Utf8 => PhysicalTypeView::Utf8,
        PhysicalType::LargeUtf8 => PhysicalTypeView::LargeUtf8,
        PhysicalType::Utf8View => PhysicalTypeView::Utf8View,
        PhysicalType::Binary => PhysicalTypeView::Binary,
        PhysicalType::FixedSizeBinary(n) => PhysicalTypeView::FixedSizeBinary(n),
        PhysicalType::LargeBinary => PhysicalTypeView::LargeBinary,
        PhysicalType::BinaryView => PhysicalTypeView::BinaryView,
        PhysicalType::Decimal128(p, s) => PhysicalTypeView::Decimal128(p, s),
        PhysicalType::Date32 => PhysicalTypeView::Date32,
        PhysicalType::Date64 => PhysicalTypeView::Date64,
        PhysicalType::Timestamp(u, tz) => PhysicalTypeView::Timestamp(
            u,
            match tz {
                Some(s) => Some(s@),
                None => None,
            },
        ),
        PhysicalType::Struct(fs) => PhysicalTypeView::Struct(physical_fields_view(fs@)),
        PhysicalType::List(f) => PhysicalTypeView::List(Box::new(physical_field_view(*f))),
        PhysicalType::ListView(f) => PhysicalTypeView::ListView(Box::new(physical_field_view(*f))),
        PhysicalType::LargeList(f) => PhysicalTypeView::LargeList(
            Box::new(physical_field_view(*f)),
        ),
        PhysicalType::LargeListView(f) => PhysicalTypeView::LargeListView(
            Box::new(physical_field_view(*f)),
        ),
        PhysicalType::FixedSizeList(f, n) => PhysicalTypeView::FixedSizeList(
            Box::new(physical_field_view(*f)),
            n,
        ),
        PhysicalType::Mapping(f, sorted) => PhysicalTypeView::Mapping(
            Box::new(physical_field_view(*f)),
            sorted,
        ),
        PhysicalType::Dictionary(k, v, ordered) => PhysicalTypeView::Dictionary(
            Box::new(physical_type_view(*k)),
            Box::new(physical_type_view(*v)),
            ordered,
        ),
    }
}

pub open spec fn physical_field_view(f: PhysicalField) -> PhysicalFieldView
    decreases f,
{
    PhysicalFieldView {
        name: f.name@,
        data_type: physical_type_view(f.data_type),
        nullable: f.nullable,
        metadata: physical_metadata_view(f.metadata@),
    }
}

pub open spec fn physical_fields_view(fs: Seq<PhysicalField>) -> Seq<PhysicalFieldView>
    decreases fs,
{
    if fs.len() == 0 {
        Seq::empty()
    } else {
        seq![physical_field_view(fs[0])] + physical_fields_view(fs.subrange(1, fs.len() as int))
    }
}

/// `physical_fields_view` maps `physical_field_view` over the sequence,
/// element by element.
pub proof fn lemma_physical_fields_view(fs: Seq<PhysicalField>)
    ensures
        physical_fields_view(fs).len() == fs.len(),
        forall|i: int|
            0 <= i < fs.len() ==> #[trigger] physical_fields_view(fs)[i] == physical_field_view(
                fs[i],
            ),
    decreases fs,
{
    if fs.len() != 0 {
        lemma_physical_fields_view(fs.subrange(1, fs.len() as int));
    }
}

impl View for PhysicalType {
    type V = PhysicalTypeView;

    open spec fn view(&self) -> PhysicalTypeView {
        physical_type_view(*self)
    }
}

impl View for PhysicalField {
    type V = PhysicalFieldView;

    open spec fn view(&self) -> PhysicalFieldView {
        physical_field_view(*self)
    }
}

impl View for PhysicalSchema {
    type V = Seq<PhysicalFieldView>;

    open spec fn view(&self) -> Seq<PhysicalFieldView> {
        physical_fields_view(self.fields@)
    }
}

} // verus!
