//! The conversion itself: a recursive dispatcher, `to_value`, that routes
//! every source node to a leaf encoder or to the matching composite
//! builder, and the builders that accumulate already-converted children.

use vstd::prelude::*;

use crate::content::Content;
use crate::pyvalue::PyValue;
use crate::pyvalue::SpecValue;
use crate::pyvalue::spec_value_of;
use crate::pyvalue::spec_value_list;
use crate::pyvalue::spec_value_pairs;
use crate::pyvalue::zip_entries;
use crate::pyvalue::lemma_spec_value_list;
use crate::pyvalue::lemma_spec_value_list_push;
use crate::pyvalue::lemma_spec_value_pairs;
use crate::pyvalue::lemma_spec_value_pairs_push;

verus! {

/// Why a conversion failed.
#[derive(Debug, Clone, Copy, PartialEq, Eq, Structural)]
pub enum PyserError {
    /// An inner conversion failed for a reason not otherwise classified.
    SerdeError,
    /// The source presented a node kind the target model cannot carry.
    NotImplemented,
    /// A downstream object-construction call failed.
    Other,
}

/// Shorthand for results that fail with a [`PyserError`].
pub type PyserResult<T> = Result<T, PyserError>;

impl PyserError {
    /// Spec-level text of each error, the value `message` returns.
    pub open spec fn spec_message(self) -> Seq<char> {
        match self {
            PyserError::SerdeError => "SerdeError"@,
            PyserError::NotImplemented => "NotImplemented"@,
            PyserError::Other => "Other"@,
        }
    }

    /// The name of the error variant, for reporting to the host.
    pub fn message(&self) -> (r: String)
        ensures
            r@ == self.spec_message(),
    {
        match self {
            PyserError::SerdeError => "SerdeError".to_owned(),
            PyserError::NotImplemented => "NotImplemented".to_owned(),
            PyserError::Other => "Other".to_owned(),
        }
    }

    /// Catch-all constructor for failures reported from outside the
    /// conversion; the message itself is not retained.
    pub fn custom<T: core::fmt::Display>(_msg: T) -> (r: Self)
        ensures
            r == PyserError::SerdeError,
    {
        PyserError::SerdeError
    }
}

/// A conversion result, seen at the spec level.
pub open spec fn result_view(r: Result<PyValue, PyserError>) -> Result<SpecValue, PyserError> {
    match r {
        Ok(o) => Ok(spec_value_of(o)),
        Err(e) => Err(e),
    }
}

/// What converting one source node yields: exactly one target value, or
/// the error the conversion stops with.
///
/// Every leaf maps to one scalar; `SomeVal` and `NewtypeStruct` are
/// transparent; `UnitVariant` degrades to its variant name; composite
/// kinds convert their children in order and stop at the first failure.
/// `NewtypeVariant` also converts to its inner value: the variant tag is
/// dropped, but the payload is kept rather than discarded.
/// `TupleVariant` and `StructVariant` always fail: the two-shape target
/// model has no way to carry a variant tag next to its payload.
pub open spec fn conv(c: Content) -> Result<SpecValue, PyserError>
    decreases c, 0int,
{
    match c {
        Content::Bool(b) => Ok(SpecValue::Bool(b)),
        Content::I8(v) => Ok(SpecValue::Int(v as int)),
        Content::I16(v) => Ok(SpecValue::Int(v as int)),
        Content::I32(v) => Ok(SpecValue::Int(v as int)),
        Content::I64(v) => Ok(SpecValue::Int(v as int)),
        Content::U8(v) => Ok(SpecValue::Int(v as int)),
        Content::U16(v) => Ok(SpecValue::Int(v as int)),
        Content::U32(v) => Ok(SpecValue::Int(v as int)),
        Content::U64(v) => Ok(SpecValue::Int(v as int)),
        Content::F32Bits(bits) => Ok(SpecValue::F32Bits(bits)),
        Content::F64Bits(bits) => Ok(SpecValue::F64Bits(bits)),
        Content::Char(ch) => Ok(SpecValue::Str(seq![ch])),
        Content::Str(s) => Ok(SpecValue::Str(s@)),
        Content::Bytes(b) => Ok(SpecValue::Bytes(b@)),
        Content::NoneVal => Ok(SpecValue::Null),
        Content::SomeVal(inner) => conv(*inner),
        Content::Unit => Ok(SpecValue::Null),
        Content::UnitStruct(_) => Ok(SpecValue::Null),
        Content::UnitVariant { variant, .. } => Ok(SpecValue::Str(variant@)),
        Content::NewtypeStruct(_, inner) => conv(*inner),
        Content::NewtypeVariant { inner, .. } => conv(*inner),
        Content::Sequence(elems) => wrap_list(conv_list(elems@, 0)),
        Content::Tuple(elems) => wrap_list(conv_list(elems@, 0)),
        Content::TupleStruct(_, elems) => wrap_list(conv_list(elems@, 0)),
        Content::TupleVariant { .. } => Err(PyserError::NotImplemented),
        Content::Mapping(entries) => wrap_dict(conv_map(entries@, 0)),
        Content::Struct(_, fields) => wrap_dict(conv_struct(fields@, 0)),
        Content::StructVariant { .. } => Err(PyserError::NotImplemented),
    }
}

/// Seals converted children as one ordered container.
pub open spec fn wrap_list(r: Result<Seq<SpecValue>, PyserError>) -> Result<
    SpecValue,
    PyserError,
> {
    match r {
        Ok(l) => Ok(SpecValue::List(l)),
        Err(e) => Err(e),
    }
}

/// Seals converted entries as one dict.
pub open spec fn wrap_dict(r: Result<Seq<(SpecValue, SpecValue)>, PyserError>) -> Result<
    SpecValue,
    PyserError,
> {
    match r {
        Ok(p) => Ok(SpecValue::Dict(p)),
        Err(e) => Err(e),
    }
}

/// Converts `elems[i..]` in order, stopping at the first failure.
pub open spec fn conv_list(elems: Seq<Content>, i: int) -> Result<Seq<SpecValue>, PyserError>
    decreases elems, elems.len() - i,
{
    if i < 0 || i >= elems.len() {
        Ok(Seq::empty())
    } else {
        match conv(elems[i]) {
            Ok(o) => match conv_list(elems, i + 1) {
                Ok(rest) => Ok(seq![o] + rest),
                Err(e) => Err(e),
            },
            Err(e) => Err(e),
        }
    }
}

/// Converts the key, then the value, of each entry of `entries[i..]`,
/// stopping at the first failure.
pub open spec fn conv_map(entries: Seq<(Content, Content)>, i: int) -> Result<
    Seq<(SpecValue, SpecValue)>,
    PyserError,
>
    decreases entries, entries.len() - i,
{
    if i < 0 || i >= entries.len() {
        Ok(Seq::empty())
    } else {
        match conv(entries[i].0) {
            Ok(k) => match conv(entries[i].1) {
                Ok(v) => match conv_map(entries, i + 1) {
                    Ok(rest) => Ok(seq![(k, v)] + rest),
                    Err(e) => Err(e),
                },
                Err(e) => Err(e),
            },
            Err(e) => Err(e),
        }
    }
}

/// Converts the value of each named field of `fields[i..]`, pairing it
/// with its field name, stopping at the first failure.
pub open spec fn conv_struct(fields: Seq<(String, Content)>, i: int) -> Result<
    Seq<(SpecValue, SpecValue)>,
    PyserError,
>
    decreases fields, fields.len() - i,
{
    if i < 0 || i >= fields.len() {
        Ok(Seq::empty())
    } else {
        match conv(fields[i].1) {
            Ok(v) => match conv_struct(fields, i + 1) {
                Ok(rest) => Ok(seq![(SpecValue::Str(fields[i].0@), v)] + rest),
                Err(e) => Err(e),
            },
            Err(e) => Err(e),
        }
    }
}

/// If every element of `elems[i..]` converts to the matching element of
/// `vals`, the whole run converts to `vals`.
pub proof fn lemma_conv_list_points(elems: Seq<Content>, vals: Seq<SpecValue>, i: int)
    requires
        0 <= i <= elems.len(),
        vals.len() == elems.len() - i,
        forall|j: int|
            i <= j < elems.len() ==> conv(#[trigger] elems[j]) == Ok::<SpecValue, PyserError>(
                vals[j - i],
            ),
    ensures
        conv_list(elems, i) == Ok::<Seq<SpecValue>, PyserError>(vals),
    decreases elems.len() - i,
{
    if i == elems.len() {
        assert(vals =~= Seq::empty());
    } else {
        lemma_conv_list_points(elems, vals.subrange(1, vals.len() as int), i + 1);
        assert(seq![vals[0]] + vals.subrange(1, vals.len() as int) =~= vals);
    }
}

/// If the elements before `k` convert and the one at `k` fails, the whole
/// run fails with that error.
pub proof fn lemma_conv_list_err(elems: Seq<Content>, i: int, k: int, e: PyserError)
    requires
        0 <= i <= k < elems.len(),
        forall|j: int| i <= j < k ==> (#[trigger] conv(elems[j])) is Ok,
        conv(elems[k]) == Err::<SpecValue, PyserError>(e),
    ensures
        conv_list(elems, i) == Err::<Seq<SpecValue>, PyserError>(e),
    decreases k - i,
{
    if i < k {
        assert(conv(elems[i]) is Ok);
        lemma_conv_list_err(elems, i + 1, k, e);
    } else {
        assert(conv(elems[i]) == Err::<SpecValue, PyserError>(e));
    }
}

/// If every key and value of `entries[i..]` converts to the matching pair
/// of `vals`, the whole run converts to `vals`.
pub proof fn lemma_conv_map_points(
    entries: Seq<(Content, Content)>,
    vals: Seq<(SpecValue, SpecValue)>,
    i: int,
)
    requires
        0 <= i <= entries.len(),
        vals.len() == entries.len() - i,
        forall|j: int|
            i <= j < entries.len() ==> conv(#[trigger] entries[j].0) == Ok::<
                SpecValue,
                PyserError,
            >(vals[j - i].0),
        forall|j: int|
            i <= j < entries.len() ==> conv(#[trigger] entries[j].1) == Ok::<
                SpecValue,
                PyserError,
            >(vals[j - i].1),
    ensures
        conv_map(entries, i) == Ok::<Seq<(SpecValue, SpecValue)>, PyserError>(vals),
    decreases entries.len() - i,
{
    if i == entries.len() {
        assert(vals =~= Seq::empty());
    } else {
        lemma_conv_map_points(entries, vals.subrange(1, vals.len() as int), i + 1);
        assert(vals[0] == (vals[0].0, vals[0].1));
        assert(seq![vals[0]] + vals.subrange(1, vals.len() as int) =~= vals);
    }
}

/// If the entries before `k` convert and entry `k` fails — in its key, or
/// in its value after the key converted — the whole run fails with that
/// error.
pub proof fn lemma_conv_map_err(entries: Seq<(Content, Content)>, i: int, k: int, e: PyserError)
    requires
        0 <= i <= k < entries.len(),
        forall|j: int| i <= j < k ==> (#[trigger] conv(entries[j].0)) is Ok,
        forall|j: int| i <= j < k ==> (#[trigger] conv(entries[j].1)) is Ok,
        conv(entries[k].0) == Err::<SpecValue, PyserError>(e) || (conv(entries[k].0) is Ok
            && conv(entries[k].1) == Err::<SpecValue, PyserError>(e)),
    ensures
        conv_map(entries, i) == Err::<Seq<(SpecValue, SpecValue)>, PyserError>(e),
    decreases k - i,
{
    if i < k {
        assert(conv(entries[i].0) is Ok);
        assert(conv(entries[i].1) is Ok);
        lemma_conv_map_err(entries, i + 1, k, e);
    } else {
        assert(conv(entries[i].0) == Err::<SpecValue, PyserError>(e) || (conv(entries[i].0) is Ok
            && conv(entries[i].1) == Err::<SpecValue, PyserError>(e)));
    }
}

/// If every field value of `fields[i..]` converts to the matching pair of
/// `vals`, keyed by its field name, the whole run converts to `vals`.
pub proof fn lemma_conv_struct_points(
    fields: Seq<(String, Content)>,
    vals: Seq<(SpecValue, SpecValue)>,
    i: int,
)
    requires
        0 <= i <= fields.len(),
        vals.len() == fields.len() - i,
        forall|j: int|
            i <= j < fields.len() ==> vals[j - i].0 == SpecValue::Str((#[trigger] fields[j]).0@),
        forall|j: int|
            i <= j < fields.len() ==> conv(#[trigger] fields[j].1) == Ok::<SpecValue, PyserError>(
                vals[j - i].1,
            ),
    ensures
        conv_struct(fields, i) == Ok::<Seq<(SpecValue, SpecValue)>, PyserError>(vals),
    decreases fields.len() - i,
{
    if i == fields.len() {
        assert(vals =~= Seq::empty());
    } else {
        lemma_conv_struct_points(fields, vals.subrange(1, vals.len() as int), i + 1);
        assert(vals[0] == (vals[0].0, vals[0].1));
        assert(seq![vals[0]] + vals.subrange(1, vals.len() as int) =~= vals);
    }
}

/// If the fields before `k` convert and the value of field `k` fails, the
/// whole run fails with that error.
pub proof fn lemma_conv_struct_err(fields: Seq<(String, Content)>, i: int, k: int, e: PyserError)
    requires
        0 <= i <= k < fields.len(),
        forall|j: int| i <= j < k ==> (#[trigger] conv(fields[j].1)) is Ok,
        conv(fields[k].1) == Err::<SpecValue, PyserError>(e),
    ensures
        conv_struct(fields, i) == Err::<Seq<(SpecValue, SpecValue)>, PyserError>(e),
    decreases k - i,
{
    if i < k {
        assert(conv(fields[i].1) is Ok);
        lemma_conv_struct_err(fields, i + 1, k, e);
    } else {
        assert(conv(fields[i].1) == Err::<SpecValue, PyserError>(e));
    }
}

/// Relies on `char::to_string`: the returned string holds exactly the one
/// character it was called on.
#[verifier::external_body]
fn char_to_string(c: char) -> (r: String)
    ensures
        r@ == seq![c],
{
    c.to_string()
}

/// Copies a byte slice into a fresh buffer.
fn copy_bytes(src: &[u8]) -> (r: Vec<u8>)
    ensures
        r@ == src@,
{
    let mut out: Vec<u8> = Vec::new();
    let mut i: usize = 0;
    while i < src.len()
        invariant
            i <= src@.len(),
            out@ == src@.subrange(0, i as int),
        decreases src@.len() - i,
    {
        out.push(src[i]);
        proof {
            assert(out@ =~= src@.subrange(0, i + 1));
        }
        i += 1;
    }
    proof {
        assert(out@ =~= src@);
    }
    out
}

/// The entry dispatcher. It carries no state of its own: the host's
/// object-construction context lives entirely outside the verified core,
/// so the dispatcher is a zero-sized handle threaded through every call.
#[derive(Clone, Copy)]
pub struct Serializer {}

impl Serializer {
    pub fn serialize_bool(self, v: bool) -> (r: Result<PyValue, PyserError>)
        ensures
            result_view(r) == Ok::<SpecValue, PyserError>(SpecValue::Bool(v)),
    {
        Ok(PyValue::Bool(v))
    }

    pub fn serialize_i8(self, v: i8) -> (r: Result<PyValue, PyserError>)
        ensures
            result_view(r) == Ok::<SpecValue, PyserError>(SpecValue::Int(v as int)),
    {
        Ok(PyValue::Int(v as i128))
    }

    pub fn serialize_i16(self, v: i16) -> (r: Result<PyValue, PyserError>)
        ensures
            result_view(r) == Ok::<SpecValue, PyserError>(SpecValue::Int(v as int)),
    {
        Ok(PyValue::Int(v as i128))
    }

    pub fn serialize_i32(self, v: i32) -> (r: Result<PyValue, PyserError>)
        ensures
            result_view(r) == Ok::<SpecValue, PyserError>(SpecValue::Int(v as int)),
    {
        Ok(PyValue::Int(v as i128))
    }

    pub fn serialize_i64(self, v: i64) -> (r: Result<PyValue, PyserError>)
        ensures
            result_view(r) == Ok::<SpecValue, PyserError>(SpecValue::Int(v as int)),
    {
        Ok(PyValue::Int(v as i128))
    }

    pub fn serialize_u8(self, v: u8) -> (r: Result<PyValue, PyserError>)
        ensures
            result_view(r) == Ok::<SpecValue, PyserError>(SpecValue::Int(v as int)),
    {
        Ok(PyValue::Int(v as i128))
    }

    pub fn serialize_u16(self, v: u16) -> (r: Result<PyValue, PyserError>)
        ensures
            result_view(r) == Ok::<SpecValue, PyserError>(SpecValue::Int(v as int)),
    {
        Ok(PyValue::Int(v as i128))
    }

    pub fn serialize_u32(self, v: u32) -> (r: Result<PyValue, PyserError>)
        ensures
            result_view(r) == Ok::<SpecValue, PyserError>(SpecValue::Int(v as int)),
    {
        Ok(PyValue::Int(v as i128))
    }

    pub fn serialize_u64(self, v: u64) -> (r: Result<PyValue, PyserError>)
        ensures
            result_view(r) == Ok::<SpecValue, PyserError>(SpecValue::Int(v as int)),
    {
        Ok(PyValue::Int(v as i128))
    }

    /// Takes the raw bit pattern of a single-precision float; the embedding
    /// layer turns it back into a host float.
    pub fn serialize_f32(self, bits: u32) -> (r: Result<PyValue, PyserError>)
        ensures
            result_view(r) == Ok::<SpecValue, PyserError>(SpecValue::F32Bits(bits)),
    {
        Ok(PyValue::F32Bits(bits))
    }

    /// Takes the raw bit pattern of a double-precision float; the embedding
    /// layer turns it back into a host float.
    pub fn serialize_f64(self, bits: u64) -> (r: Result<PyValue, PyserError>)
        ensures
            result_view(r) == Ok::<SpecValue, PyserError>(SpecValue::F64Bits(bits)),
    {
        Ok(PyValue::F64Bits(bits))
    }

    /// A character becomes the string scalar holding exactly it.
    pub fn serialize_char(self, v: char) -> (r: Result<PyValue, PyserError>)
        ensures
            result_view(r) == Ok::<SpecValue, PyserError>(SpecValue::Str(seq![v])),
    {
        Ok(PyValue::Str(char_to_string(v)))
    }

    pub fn serialize_str(self, v: &str) -> (r: Result<PyValue, PyserError>)
        ensures
            result_view(r) == Ok::<SpecValue, PyserError>(SpecValue::Str(v@)),
    {
        Ok(PyValue::Str(v.to_owned()))
    }

    pub fn serialize_bytes(self, v: &[u8]) -> (r: Result<PyValue, PyserError>)
        ensures
            result_view(r) == Ok::<SpecValue, PyserError>(SpecValue::Bytes(v@)),
    {
        Ok(PyValue::Bytes(copy_bytes(v)))
    }

    /// Absence of a value converts to the "none" scalar.
    pub fn serialize_none(self) -> (r: Result<PyValue, PyserError>)
        ensures
            result_view(r) == Ok::<SpecValue, PyserError>(SpecValue::Null),
    {
        Ok(PyValue::Null)
    }

    /// The unit value converts to the "none" scalar.
    pub fn serialize_unit(self) -> (r: Result<PyValue, PyserError>)
        ensures
            result_view(r) == Ok::<SpecValue, PyserError>(SpecValue::Null),
    {
        Ok(PyValue::Null)
    }

    /// A unit struct converts to the "none" scalar; its name is dropped.
    pub fn serialize_unit_struct(self, _name: &str) -> (r: Result<PyValue, PyserError>)
        ensures
            result_view(r) == Ok::<SpecValue, PyserError>(SpecValue::Null),
    {
        Ok(PyValue::Null)
    }

    /// A unit-like enum variant degrades to the plain string of its variant
    /// name; the enum name and the variant index are ignored.
    pub fn serialize_unit_variant(
        self,
        _name: &str,
        _variant_index: u32,
        variant: &str,
    ) -> (r: Result<PyValue, PyserError>)
        ensures
            result_view(r) == Ok::<SpecValue, PyserError>(SpecValue::Str(variant@)),
    {
        self.serialize_str(variant)
    }

    /// A present optional value converts to its inner value unchanged.
    pub fn serialize_some(self, value: &Content) -> (r: Result<PyValue, PyserError>)
        ensures
            result_view(r) == conv(*value),
        decreases *value, 1int,
    {
        to_value(self, value)
    }

    /// A newtype struct is transparent: it converts to exactly the
    /// conversion of its single inner value.
    pub fn serialize_newtype_struct(self, _name: &str, value: &Content) -> (r: Result<
        PyValue,
        PyserError,
    >)
        ensures
            result_view(r) == conv(*value),
        decreases *value, 1int,
    {
        to_value(self, value)
    }

    /// A newtype enum variant converts to its inner value: the variant tag
    /// is dropped, but the payload is kept rather than discarded.
    pub fn serialize_newtype_variant(
        self,
        _name: &str,
        _variant_index: u32,
        _variant: &str,
        value: &Content,
    ) -> (r: Result<PyValue, PyserError>)
        ensures
            result_view(r) == conv(*value),
        decreases *value, 1int,
    {
        to_value(self, value)
    }

    /// Opens the ordered-container builder for a plain sequence.
    pub fn serialize_seq(self, _len: Option<usize>) -> (r: Result<ArraySerializer, PyserError>)
        ensures
            r matches Ok(a) && a@ == Seq::<SpecValue>::empty(),
    {
        Ok(ArraySerializer::new(self))
    }

    /// Opens the ordered-container builder for a fixed-size tuple.
    pub fn serialize_tuple(self, _len: usize) -> (r: Result<ArraySerializer, PyserError>)
        ensures
            r matches Ok(a) && a@ == Seq::<SpecValue>::empty(),
    {
        Ok(ArraySerializer::new(self))
    }

    /// Opens the ordered-container builder for a named tuple struct.
    pub fn serialize_tuple_struct(self, _name: &str, _len: usize) -> (r: Result<
        ArraySerializer,
        PyserError,
    >)
        ensures
            r matches Ok(a) && a@ == Seq::<SpecValue>::empty(),
    {
        Ok(ArraySerializer::new(self))
    }

    /// An enum variant with a positional payload has no representable
    /// target shape; opening its builder fails at once.
    pub fn serialize_tuple_variant(
        self,
        _name: &str,
        _variant_index: u32,
        _variant: &str,
        _len: usize,
    ) -> (r: Result<TupleVariantSerializer, PyserError>)
        ensures
            r == Err::<TupleVariantSerializer, PyserError>(PyserError::NotImplemented),
    {
        Err(PyserError::NotImplemented)
    }

    /// Opens the key/value builder for a map.
    pub fn serialize_map(self, _len: Option<usize>) -> (r: Result<MapSerializer, PyserError>)
        ensures
            r matches Ok(m) && m@ == (Seq::<SpecValue>::empty(), Seq::<SpecValue>::empty()),
    {
        Ok(MapSerializer::new(self))
    }

    /// Opens the named-field builder for a struct.
    pub fn serialize_struct(self, _name: &str, _len: usize) -> (r: Result<
        StructSerializer,
        PyserError,
    >)
        ensures
            r matches Ok(st) && st@ == Seq::<(SpecValue, SpecValue)>::empty(),
    {
        Ok(StructSerializer::new(self))
    }

    /// An enum variant with a named payload has no representable target
    /// shape; opening its builder fails at once.
    pub fn serialize_struct_variant(
        self,
        _name: &str,
        _variant_index: u32,
        _variant: &str,
        _len: usize,
    ) -> (r: Result<StructVariantSerializer, PyserError>)
        ensures
            r == Err::<StructVariantSerializer, PyserError>(PyserError::NotImplemented),
    {
        Err(PyserError::NotImplemented)
    }
}

/// The builder for ordered containers, shared by sequences, tuples and
/// tuple structs: the target model makes no distinction between them.
/// Children are appended in arrival order; `end` seals the container.
pub struct ArraySerializer {
    s: Serializer,
    list: Vec<PyValue>,
}

impl View for ArraySerializer {
    type V = Seq<SpecValue>;

    closed spec fn view(&self) -> Seq<SpecValue> {
        spec_value_list(self.list@, 0)
    }
}

impl ArraySerializer {
    fn new(s: Serializer) -> (r: Self)
        ensures
            r@ == Seq::<SpecValue>::empty(),
    {
        ArraySerializer { s, list: Vec::new() }
    }

    /// Converts one child and appends it, preserving arrival order; a
    /// failed child conversion leaves the builder unchanged.
    pub fn serialize_element(&mut self, value: &Content) -> (r: Result<(), PyserError>)
        ensures
            conv(*value) matches Ok(m) ==> r == Ok::<(), PyserError>(()) && final(self)@ == old(
                self,
            )@.push(m),
            conv(*value) matches Err(e) ==> r == Err::<(), PyserError>(e) && final(self)@ == old(
                self,
            )@,
        decreases *value, 1int,
    {
        match to_value(self.s, value) {
            Ok(converted) => {
                proof {
                    lemma_spec_value_list_push(self.list@, converted, 0);
                }
                self.list.push(converted);
                Ok(())
            },
            Err(e) => Err(e),
        }
    }

    /// Seals the builder into the single ordered container object.
    pub fn end(self) -> (r: Result<PyValue, PyserError>)
        ensures
            result_view(r) == Ok::<SpecValue, PyserError>(SpecValue::List(self@)),
    {
        Ok(PyValue::List(self.list))
    }
}

/// The builder an enum variant with a positional payload routes to: every
/// operation fails, by policy, rather than approximate a shape the target
/// model cannot carry.
pub struct TupleVariantSerializer {}

impl TupleVariantSerializer {
    pub fn serialize_field(&mut self, _value: &Content) -> (r: Result<(), PyserError>)
        ensures
            r == Err::<(), PyserError>(PyserError::NotImplemented),
    {
        Err(PyserError::NotImplemented)
    }

    pub fn end(self) -> (r: Result<PyValue, PyserError>)
        ensures
            r == Err::<PyValue, PyserError>(PyserError::NotImplemented),
    {
        Err(PyserError::NotImplemented)
    }
}

/// The builder for maps: a list of converted keys and a parallel list of
/// converted values, appended entry by entry in arrival order. `end` zips
/// the two lists positionally into a single dict.
pub struct MapSerializer {
    s: Serializer,
    keys: Vec<PyValue>,
    values: Vec<PyValue>,
}

impl View for MapSerializer {
    type V = (Seq<SpecValue>, Seq<SpecValue>);

    closed spec fn view(&self) -> (Seq<SpecValue>, Seq<SpecValue>) {
        (spec_value_list(self.keys@, 0), spec_value_list(self.values@, 0))
    }
}

impl MapSerializer {
    fn new(s: Serializer) -> (r: Self)
        ensures
            r@ == (Seq::<SpecValue>::empty(), Seq::<SpecValue>::empty()),
    {
        MapSerializer { s, keys: Vec::new(), values: Vec::new() }
    }

    /// Converts one key and appends it to the key list — and to the key
    /// list only, so every later pairing stays aligned.
    pub fn serialize_key(&mut self, key: &Content) -> (r: Result<(), PyserError>)
        ensures
            conv(*key) matches Ok(m) ==> r == Ok::<(), PyserError>(()) && final(self)@.0 == old(
                self,
            )@.0.push(m) && final(self)@.1 == old(self)@.1,
            conv(*key) matches Err(e) ==> r == Err::<(), PyserError>(e) && final(self)@ == old(
                self,
            )@,
        decreases *key, 1int,
    {
        match to_value(self.s, key) {
            Ok(converted) => {
                proof {
                    lemma_spec_value_list_push(self.keys@, converted, 0);
                }
                self.keys.push(converted);
                Ok(())
            },
            Err(e) => Err(e),
        }
    }

    /// Converts one value and appends it to the value list — and to the
    /// value list only, so every later pairing stays aligned.
    pub fn serialize_value(&mut self, value: &Content) -> (r: Result<(), PyserError>)
        ensures
            conv(*value) matches Ok(m) ==> r == Ok::<(), PyserError>(()) && final(self)@.1 == old(
                self,
            )@.1.push(m) && final(self)@.0 == old(self)@.0,
            conv(*value) matches Err(e) ==> r == Err::<(), PyserError>(e) && final(self)@ == old(
                self,
            )@,
        decreases *value, 1int,
    {
        match to_value(self.s, value) {
            Ok(converted) => {
                proof {
                    lemma_spec_value_list_push(self.values@, converted, 0);
                }
                self.values.push(converted);
                Ok(())
            },
            Err(e) => Err(e),
        }
    }

    /// Seals the builder: the `i`-th key is paired with the `i`-th value.
    /// Finalizing with more keys than values would read past the value
    /// list's end, so equal lengths are required of the caller.
    #[verifier::loop_isolation(false)]
    pub fn end(self) -> (r: Result<PyValue, PyserError>)
        requires
            self@.0.len() == self@.1.len(),
        ensures
            result_view(r) == Ok::<SpecValue, PyserError>(
                SpecValue::Dict(zip_entries(self@.0, self@.1)),
            ),
    {
        let ghost gk = self.keys@;
        let ghost gv = self.values@;
        proof {
            lemma_spec_value_list(gk, 0);
            lemma_spec_value_list(gv, 0);
            assert(gk.subrange(0, gk.len() as int) =~= gk);
            assert(gv.subrange(0, gv.len() as int) =~= gv);
        }
        let mut keys = self.keys;
        let mut values = self.values;
        let mut pairs: Vec<(PyValue, PyValue)> = Vec::new();
        while keys.len() > 0
            invariant
                gv.len() == gk.len(),
                values@.len() == keys@.len(),
                pairs@.len() + keys@.len() == gk.len(),
                keys@ == gk.subrange(pairs@.len() as int, gk.len() as int),
                values@ == gv.subrange(pairs@.len() as int, gv.len() as int),
                forall|j: int| 0 <= j < pairs@.len() ==> #[trigger] pairs@[j] == (gk[j], gv[j]),
            decreases keys@.len(),
        {
            let k = keys.remove(0);
            let v = values.remove(0);
            pairs.push((k, v));
            proof {
                assert(keys@ =~= gk.subrange(pairs@.len() as int, gk.len() as int));
                assert(values@ =~= gv.subrange(pairs@.len() as int, gv.len() as int));
            }
        }
        proof {
            lemma_spec_value_pairs(pairs@, 0);
            assert forall|j: int| 0 <= j < gk.len() implies spec_value_pairs(pairs@, 0)[j]
                == zip_entries(spec_value_list(gk, 0), spec_value_list(gv, 0))[j] by {
                assert(pairs@[j] == (gk[j], gv[j]));
                assert(pairs@[j].0 == gk[j]);
                assert(pairs@[j].1 == gv[j]);
            }
            assert(spec_value_pairs(pairs@, 0) =~= zip_entries(
                spec_value_list(gk, 0),
                spec_value_list(gv, 0),
            ));
        }
        Ok(PyValue::Dict(pairs))
    }
}

/// The builder for structs: each named field's value is converted and
/// inserted under that name at once, so `end` only seals the already
/// up-to-date dict. Insertion order matches field arrival order.
pub struct StructSerializer {
    s: Serializer,
    dict: Vec<(PyValue, PyValue)>,
}

impl View for StructSerializer {
    type V = Seq<(SpecValue, SpecValue)>;

    closed spec fn view(&self) -> Seq<(SpecValue, SpecValue)> {
        spec_value_pairs(self.dict@, 0)
    }
}

impl StructSerializer {
    fn new(s: Serializer) -> (r: Self)
        ensures
            r@ == Seq::<(SpecValue, SpecValue)>::empty(),
    {
        StructSerializer { s, dict: Vec::new() }
    }

    /// Converts one field value and inserts it under the field's name; a
    /// failed conversion leaves the builder unchanged.
    pub fn serialize_field(&mut self, key: &str, value: &Content) -> (r: Result<(), PyserError>)
        ensures
            conv(*value) matches Ok(m) ==> r == Ok::<(), PyserError>(()) && final(self)@ == old(
                self,
            )@.push((SpecValue::Str(key@), m)),
            conv(*value) matches Err(e) ==> r == Err::<(), PyserError>(e) && final(self)@ == old(
                self,
            )@,
        decreases *value, 1int,
    {
        match to_value(self.s, value) {
            Ok(converted) => {
                let entry = (PyValue::Str(key.to_owned()), converted);
                proof {
                    lemma_spec_value_pairs_push(self.dict@, entry, 0);
                }
                self.dict.push(entry);
                Ok(())
            },
            Err(e) => Err(e),
        }
    }

    /// Seals the builder into the single dict object.
    pub fn end(self) -> (r: Result<PyValue, PyserError>)
        ensures
            result_view(r) == Ok::<SpecValue, PyserError>(SpecValue::Dict(self@)),
    {
        Ok(PyValue::Dict(self.dict))
    }
}

/// The builder an enum variant with a named payload routes to: every
/// operation fails, by policy, rather than approximate a shape the target
/// model cannot carry.
pub struct StructVariantSerializer {}

impl StructVariantSerializer {
    pub fn serialize_field(&mut self, _key: &str, _value: &Content) -> (r: Result<(), PyserError>)
        ensures
            r == Err::<(), PyserError>(PyserError::NotImplemented),
    {
        Err(PyserError::NotImplemented)
    }

    pub fn end(self) -> (r: Result<PyValue, PyserError>)
        ensures
            r == Err::<PyValue, PyserError>(PyserError::NotImplemented),
    {
        Err(PyserError::NotImplemented)
    }
}

/// Converts one source node — and, through the builders, its whole
/// subtree — into a single target object, or fails with the error of the
/// first child that cannot be converted. The result is exactly what
/// [`conv`] says, for every input; in particular it succeeds if and only
/// if the tree holds no enum variant carrying a payload
/// ([`crate::laws::lemma_success_iff_supported`]).
#[verifier::loop_isolation(false)]
pub fn to_value(s: Serializer, v: &Content) -> (r: Result<PyValue, PyserError>)
    ensures
        result_view(r) == conv(*v),
    decreases *v, 0int,
{
    match v {
        Content::Bool(b) => s.serialize_bool(*b),
        Content::I8(x) => s.serialize_i8(*x),
        Content::I16(x) => s.serialize_i16(*x),
        Content::I32(x) => s.serialize_i32(*x),
        Content::I64(x) => s.serialize_i64(*x),
        Content::U8(x) => s.serialize_u8(*x),
        Content::U16(x) => s.serialize_u16(*x),
        Content::U32(x) => s.serialize_u32(*x),
        Content::U64(x) => s.serialize_u64(*x),
        Content::F32Bits(bits) => s.serialize_f32(*bits),
        Content::F64Bits(bits) => s.serialize_f64(*bits),
        Content::Char(c) => s.serialize_char(*c),
        Content::Str(st) => s.serialize_str(st.as_str()),
        Content::Bytes(b) => s.serialize_bytes(b.as_slice()),
        Content::NoneVal => s.serialize_none(),
        Content::SomeVal(inner) => s.serialize_some(&**inner),
        Content::Unit => s.serialize_unit(),
        Content::UnitStruct(name) => s.serialize_unit_struct(name.as_str()),
        Content::UnitVariant { name, variant_index, variant } => s.serialize_unit_variant(
            name.as_str(),
            *variant_index,
            variant.as_str(),
        ),
        Content::NewtypeStruct(name, inner) => s.serialize_newtype_struct(name.as_str(), &**inner),
        Content::NewtypeVariant { name, variant_index, variant, inner } => s
            .serialize_newtype_variant(
            name.as_str(),
            *variant_index,
            variant.as_str(),
            &**inner,
        ),
        Content::Sequence(elems) => {
            let a = match s.serialize_seq(None) {
                Ok(a) => a,
                Err(e) => return Err(e),
            };
            serialize_elements(a, elems)
        },
        Content::Tuple(elems) => {
            let a = match s.serialize_tuple(elems.len()) {
                Ok(a) => a,
                Err(e) => return Err(e),
            };
            serialize_elements(a, elems)
        },
        Content::TupleStruct(name, elems) => {
            let a = match s.serialize_tuple_struct(name.as_str(), elems.len()) {
                Ok(a) => a,
                Err(e) => return Err(e),
            };
            serialize_elements(a, elems)
        },
        Content::TupleVariant { name, variant_index, variant, fields } => {
            match s.serialize_tuple_variant(
                name.as_str(),
                *variant_index,
                variant.as_str(),
                fields.len(),
            ) {
                Ok(_) => Err(PyserError::NotImplemented),
                Err(e) => Err(e),
            }
        },
        Content::Mapping(entries) => {
            let mut m = match s.serialize_map(None) {
                Ok(m) => m,
                Err(e) => return Err(e),
            };
            let mut idx: usize = 0;
            while idx < entries.len()
                invariant
                    idx <= entries@.len(),
                    m@.0.len() == idx,
                    m@.1.len() == idx,
                    forall|j: int|
                        0 <= j < idx ==> conv(#[trigger] entries@[j].0) == Ok::<
                            SpecValue,
                            PyserError,
                        >(m@.0[j]),
                    forall|j: int|
                        0 <= j < idx ==> conv(#[trigger] entries@[j].1) == Ok::<
                            SpecValue,
                            PyserError,
                        >(m@.1[j]),
                decreases entries@.len() - idx,
            {
                let entry = &entries[idx];
                match m.serialize_key(&entry.0) {
                    Ok(_) => {},
                    Err(e) => {
                        proof {
                            lemma_conv_map_err(entries@, 0, idx as int, e);
                        }
                        return Err(e);
                    },
                }
                match m.serialize_value(&entry.1) {
                    Ok(_) => {},
                    Err(e) => {
                        proof {
                            lemma_conv_map_err(entries@, 0, idx as int, e);
                        }
                        return Err(e);
                    },
                }
                idx += 1;
            }
            proof {
                lemma_conv_map_points(entries@, zip_entries(m@.0, m@.1), 0);
            }
            m.end()
        },
        Content::Struct(name, fields) => {
            let mut st = match s.serialize_struct(name.as_str(), fields.len()) {
                Ok(st) => st,
                Err(e) => return Err(e),
            };
            let mut idx: usize = 0;
            while idx < fields.len()
                invariant
                    idx <= fields@.len(),
                    st@.len() == idx,
                    forall|j: int|
                        0 <= j < idx ==> st@[j].0 == SpecValue::Str((#[trigger] fields@[j]).0@),
                    forall|j: int|
                        0 <= j < idx ==> conv(#[trigger] fields@[j].1) == Ok::<
                            SpecValue,
                            PyserError,
                        >(st@[j].1),
                decreases fields@.len() - idx,
            {
                let field = &fields[idx];
                match st.serialize_field(field.0.as_str(), &field.1) {
                    Ok(_) => {},
                    Err(e) => {
                        proof {
                            lemma_conv_struct_err(fields@, 0, idx as int, e);
                        }
                        return Err(e);
                    },
                }
                idx += 1;
            }
            proof {
                lemma_conv_struct_points(fields@, st@, 0);
            }
            st.end()
        },
        Content::StructVariant { name, variant_index, variant, fields } => {
            match s.serialize_struct_variant(
                name.as_str(),
                *variant_index,
                variant.as_str(),
                fields.len(),
            ) {
                Ok(_) => Err(PyserError::NotImplemented),
                Err(e) => Err(e),
            }
        },
    }
}

/// Drives a freshly opened ordered-container builder over `elems`, on
/// behalf of the sequence, tuple and tuple-struct arms of [`to_value`]:
/// the three arms differ only in which builder-opening call they make.
#[verifier::loop_isolation(false)]
fn serialize_elements(a: ArraySerializer, elems: &Vec<Content>) -> (r: Result<PyValue, PyserError>)
    requires
        a@ == Seq::<SpecValue>::empty(),
    ensures
        result_view(r) == wrap_list(conv_list(elems@, 0)),
    decreases *elems, 0int,
{
    let mut a = a;
    let mut idx: usize = 0;
    while idx < elems.len()
        invariant
            idx <= elems@.len(),
            a@.len() == idx,
            forall|j: int|
                0 <= j < idx ==> conv(#[trigger] elems@[j]) == Ok::<SpecValue, PyserError>(a@[j]),
        decreases elems@.len() - idx,
    {
        match a.serialize_element(&elems[idx]) {
            Ok(_) => {},
            Err(e) => {
                proof {
                    lemma_conv_list_err(elems@, 0, idx as int, e);
                }
                return Err(e);
            },
        }
        idx += 1;
    }
    proof {
        lemma_conv_list_points(elems@, a@, 0);
    }
    a.end()
}

} // verus!
