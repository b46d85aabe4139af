//! The source side of the conversion: a closed set of node kinds that any
//! parsed value presents while it is walked.
//!
//! A value tree is convertible exactly when every node in it is one of these
//! shapes. Floating-point leaves carry their raw IEEE 754 bit patterns, so
//! the tree itself holds plain integers only; the embedding layer turns the
//! bits back into host floats when it materializes the result.

use vstd::prelude::*;

verus! {

/// One node of a source value tree.
///
/// Leaf kinds (`Bool` through `Bytes`, `NoneVal`, `Unit`, `UnitStruct`,
/// `UnitVariant`) convert to a single scalar. `SomeVal`, `NewtypeStruct`
/// and `NewtypeVariant` wrap exactly one inner node. `Sequence`, `Tuple`
/// and `TupleStruct` carry ordered children; `Mapping` carries key/value
/// entries; `Struct` carries named fields. `TupleVariant` and
/// `StructVariant` — enum variants with a positional or named payload —
/// have no counterpart in the target model and always fail to convert.
#[derive(Debug)]
pub enum Content {
    Bool(bool),
    I8(i8),
    I16(i16),
    I32(i32),
    I64(i64),
    U8(u8),
    U16(u16),
    U32(u32),
    U64(u64),
    F32Bits(u32),
    F64Bits(u64),
    Char(char),
    Str(String),
    Bytes(Vec<u8>),
    NoneVal,
    SomeVal(Box<Content>),
    Unit,
    UnitStruct(String),
    UnitVariant { name: String, variant_index: u32, variant: String },
    NewtypeStruct(String, Box<Content>),
    NewtypeVariant { name: String, variant_index: u32, variant: String, inner: Box<Content> },
    Sequence(Vec<Content>),
    Tuple(Vec<Content>),
    TupleStruct(String, Vec<Content>),
    TupleVariant { name: String, variant_index: u32, variant: String, fields: Vec<Content> },
    Mapping(Vec<(Content, Content)>),
    Struct(String, Vec<(String, Content)>),
    StructVariant {
        name: String,
        variant_index: u32,
        variant: String,
        fields: Vec<(String, Content)>,
    },
}

impl Content {
    /// Whether this tree holds, anywhere, an enum variant carrying a
    /// positional or named payload — the one family of shapes the target
    /// model cannot carry.
    pub open spec fn has_unsupported(self) -> bool
        decreases self, 0int,
    {
        match self {
            Content::SomeVal(inner) => inner.has_unsupported(),
            Content::NewtypeStruct(_, inner) => inner.has_unsupported(),
            Content::NewtypeVariant { inner, .. } => inner.has_unsupported(),
            Content::Sequence(elems) => list_has_unsupported(elems@, 0),
            Content::Tuple(elems) => list_has_unsupported(elems@, 0),
            Content::TupleStruct(_, elems) => list_has_unsupported(elems@, 0),
            Content::TupleVariant { .. } => true,
            Content::Mapping(entries) => entries_have_unsupported(entries@, 0),
            Content::Struct(_, fields) => fields_have_unsupported(fields@, 0),
            Content::StructVariant { .. } => true,
            _ => false,
        }
    }

    /// A leaf presents no children at all: its conversion is a single
    /// scalar and can never fail.
    pub open spec fn is_leaf(self) -> bool {
        match self {
            Content::Bool(_) => true,
            Content::I8(_) => true,
            Content::I16(_) => true,
            Content::I32(_) => true,
            Content::I64(_) => true,
            Content::U8(_) => true,
            Content::U16(_) => true,
            Content::U32(_) => true,
            Content::U64(_) => true,
            Content::F32Bits(_) => true,
            Content::F64Bits(_) => true,
            Content::Char(_) => true,
            Content::Str(_) => true,
            Content::Bytes(_) => true,
            Content::NoneVal => true,
            Content::Unit => true,
            Content::UnitStruct(_) => true,
            Content::UnitVariant { .. } => true,
            _ => false,
        }
    }
}

/// Whether any element of `elems[i..]` holds an unsupported shape.
pub open spec fn list_has_unsupported(elems: Seq<Content>, i: int) -> bool
    decreases elems, elems.len() - i,
{
    if i < 0 || i >= elems.len() {
        false
    } else {
        elems[i].has_unsupported() || list_has_unsupported(elems, i + 1)
    }
}

/// Whether any key or value of `entries[i..]` holds an unsupported shape.
pub open spec fn entries_have_unsupported(entries: Seq<(Content, Content)>, i: int) -> bool
    decreases entries, entries.len() - i,
{
    if i < 0 || i >= entries.len() {
        false
    } else {
        entries[i].0.has_unsupported() || entries[i].1.has_unsupported()
            || entries_have_unsupported(entries, i + 1)
    }
}

/// Whether any field value of `fields[i..]` holds an unsupported shape.
pub open spec fn fields_have_unsupported(fields: Seq<(String, Content)>, i: int) -> bool
    decreases fields, fields.len() - i,
{
    if i < 0 || i >= fields.len() {
        false
    } else {
        fields[i].1.has_unsupported() || fields_have_unsupported(fields, i + 1)
    }
}

} // verus!
