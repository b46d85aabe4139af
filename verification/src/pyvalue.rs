//! The target side of the conversion: the dynamic object model the
//! embedding layer materializes as host objects.
//!
//! Only three shapes exist — scalars, an ordered list, and a dict held as
//! key/value pairs in insertion order. [`SpecValue`] is the mathematical
//! image of a [`PyValue`]: strings and byte buffers become sequences and
//! integers become unbounded, so contracts can speak of the tree without
//! caring how it is laid out in memory.

use vstd::prelude::*;

verus! {

/// A finished dynamic object.
#[derive(Debug, PartialEq)]
pub enum PyValue {
    Bool(bool),
    Int(i128),
    F32Bits(u32),
    F64Bits(u64),
    Str(String),
    Bytes(Vec<u8>),
    Null,
    List(Vec<PyValue>),
    Dict(Vec<(PyValue, PyValue)>),
}

/// The mathematical shape of a [`PyValue`].
pub enum SpecValue {
    Bool(bool),
    Int(int),
    F32Bits(u32),
    F64Bits(u64),
    Str(Seq<char>),
    Bytes(Seq<u8>),
    Null,
    List(Seq<SpecValue>),
    Dict(Seq<(SpecValue, SpecValue)>),
}

/// The [`SpecValue`] a [`PyValue`] stands for.
pub open spec fn spec_value_of(v: PyValue) -> SpecValue
    decreases v, 0int,
{
    match v {
        PyValue::Bool(b) => SpecValue::Bool(b),
        PyValue::Int(i) => SpecValue::Int(i as int),
        PyValue::F32Bits(bits) => SpecValue::F32Bits(bits),
        PyValue::F64Bits(bits) => SpecValue::F64Bits(bits),
        PyValue::Str(s) => SpecValue::Str(s@),
        PyValue::Bytes(b) => SpecValue::Bytes(b@),
        PyValue::Null => SpecValue::Null,
        PyValue::List(items) => SpecValue::List(spec_value_list(items@, 0)),
        PyValue::Dict(pairs) => SpecValue::Dict(spec_value_pairs(pairs@, 0)),
    }
}

/// The [`SpecValue`]s of `items[i..]`, in order.
pub open spec fn spec_value_list(items: Seq<PyValue>, i: int) -> Seq<SpecValue>
    decreases items, items.len() - i,
{
    if i < 0 || i >= items.len() {
        Seq::empty()
    } else {
        seq![spec_value_of(items[i])] + spec_value_list(items, i + 1)
    }
}

/// The [`SpecValue`] pairs of `pairs[i..]`, in order.
pub open spec fn spec_value_pairs(pairs: Seq<(PyValue, PyValue)>, i: int) -> Seq<
    (SpecValue, SpecValue),
>
    decreases pairs, pairs.len() - i,
{
    if i < 0 || i >= pairs.len() {
        Seq::empty()
    } else {
        seq![(spec_value_of(pairs[i].0), spec_value_of(pairs[i].1))] + spec_value_pairs(
            pairs,
            i + 1,
        )
    }
}

/// Pairs the `i`-th key with the `i`-th value. Where `vs` is shorter than
/// `ks`, the entries past its end are unconstrained; the map builder never
/// finalizes in that state.
pub open spec fn zip_entries(ks: Seq<SpecValue>, vs: Seq<SpecValue>) -> Seq<
    (SpecValue, SpecValue),
> {
    Seq::new(ks.len(), |i: int| (ks[i], vs[i]))
}

impl View for PyValue {
    type V = SpecValue;

    open spec fn view(&self) -> SpecValue {
        spec_value_of(*self)
    }
}

/// `spec_value_list(items, i)` converts each element of `items[i..]` in place.
pub proof fn lemma_spec_value_list(items: Seq<PyValue>, i: int)
    requires
        0 <= i <= items.len(),
    ensures
        spec_value_list(items, i).len() == items.len() - i,
        forall|j: int|
            i <= j < items.len() ==> spec_value_list(items, i)[j - i] == spec_value_of(
                #[trigger] items[j],
            ),
    decreases items.len() - i,
{
    if i < items.len() {
        lemma_spec_value_list(items, i + 1);
    }
}

/// Appending an element to the underlying vector appends its value to the view.
pub proof fn lemma_spec_value_list_push(items: Seq<PyValue>, x: PyValue, i: int)
    requires
        0 <= i <= items.len(),
    ensures
        spec_value_list(items.push(x), i) == spec_value_list(items, i).push(spec_value_of(x)),
    decreases items.len() - i,
{
    if i == items.len() {
        assert(spec_value_list(items.push(x), i + 1) =~= Seq::empty());
        assert(spec_value_list(items.push(x), i) =~= spec_value_list(items, i).push(
            spec_value_of(x),
        ));
    } else {
        lemma_spec_value_list_push(items, x, i + 1);
        assert(spec_value_list(items.push(x), i) =~= spec_value_list(items, i).push(
            spec_value_of(x),
        ));
    }
}

/// `spec_value_pairs(pairs, i)` converts both halves of each entry in place.
pub proof fn lemma_spec_value_pairs(pairs: Seq<(PyValue, PyValue)>, i: int)
    requires
        0 <= i <= pairs.len(),
    ensures
        spec_value_pairs(pairs, i).len() == pairs.len() - i,
        forall|j: int|
            i <= j < pairs.len() ==> spec_value_pairs(pairs, i)[j - i] == (
                spec_value_of(#[trigger] pairs[j].0),
                spec_value_of(pairs[j].1),
            ),
    decreases pairs.len() - i,
{
    if i < pairs.len() {
        lemma_spec_value_pairs(pairs, i + 1);
    }
}

/// Appending an entry to the underlying vector appends its value pair to the view.
pub proof fn lemma_spec_value_pairs_push(
    pairs: Seq<(PyValue, PyValue)>,
    x: (PyValue, PyValue),
    i: int,
)
    requires
        0 <= i <= pairs.len(),
    ensures
        spec_value_pairs(pairs.push(x), i) == spec_value_pairs(pairs, i).push(
            (spec_value_of(x.0), spec_value_of(x.1)),
        ),
    decreases pairs.len() - i,
{
    if i == pairs.len() {
        assert(spec_value_pairs(pairs.push(x), i + 1) =~= Seq::empty());
        assert(spec_value_pairs(pairs.push(x), i) =~= spec_value_pairs(pairs, i).push(
            (spec_value_of(x.0), spec_value_of(x.1)),
        ));
    } else {
        lemma_spec_value_pairs_push(pairs, x, i + 1);
        assert(spec_value_pairs(pairs.push(x), i) =~= spec_value_pairs(pairs, i).push(
            (spec_value_of(x.0), spec_value_of(x.1)),
        ));
    }
}

} // verus!
