//! The laws the conversion obeys, stated and proved once and for all
//! inputs. Each law is phrased over [`conv`], the specification that
//! [`crate::pyserde::to_value`] is proved to implement exactly, so it
//! holds of every conversion the library performs.

use vstd::prelude::*;

use crate::content::Content;
use crate::content::entries_have_unsupported;
use crate::content::fields_have_unsupported;
use crate::content::list_has_unsupported;
use crate::pyserde::PyserError;
use crate::pyserde::conv;
use crate::pyserde::conv_list;
use crate::pyserde::conv_map;
use crate::pyserde::conv_struct;
use crate::pyserde::result_view;
use crate::pyvalue::PyValue;
use crate::pyvalue::SpecValue;

verus! {

/// `conv_list(elems, i)` succeeds exactly when every element of
/// `elems[i..]` converts, and then yields the conversions in place.
proof fn lemma_conv_list_char(elems: Seq<Content>, i: int)
    requires
        0 <= i <= elems.len(),
    ensures
        (conv_list(elems, i) is Ok) <==> (forall|j: int|
            i <= j < elems.len() ==> (#[trigger] conv(elems[j])) is Ok),
        conv_list(elems, i) matches Ok(l) ==> l.len() == elems.len() - i && (forall|j: int|
            i <= j < elems.len() ==> #[trigger] conv(elems[j]) == Ok::<SpecValue, PyserError>(
                l[j - i],
            )),
    decreases elems.len() - i,
{
    if i < elems.len() {
        lemma_conv_list_char(elems, i + 1);
        match conv(elems[i]) {
            Ok(o) => {
                match conv_list(elems, i + 1) {
                    Ok(rest) => {
                        assert forall|j: int| i <= j < elems.len() implies #[trigger] conv(
                            elems[j],
                        ) == Ok::<SpecValue, PyserError>((seq![o] + rest)[j - i]) by {
                            if j == i {
                                assert((seq![o] + rest)[0] == o);
                            } else {
                                assert((seq![o] + rest)[j - i] == rest[j - i - 1]);
                            }
                        }
                    },
                    Err(_) => {
                        assert(!(conv_list(elems, i + 1) is Ok));
                    },
                }
            },
            Err(_) => {
                assert(!(conv(elems[i]) is Ok));
            },
        }
    }
}

/// `conv_map(entries, i)` succeeds exactly when every key and every value
/// of `entries[i..]` converts, and then pairs the conversions entry by
/// entry.
proof fn lemma_conv_map_char(entries: Seq<(Content, Content)>, i: int)
    requires
        0 <= i <= entries.len(),
    ensures
        (conv_map(entries, i) is Ok) <==> (forall|j: int|
            i <= j < entries.len() ==> (#[trigger] conv(entries[j].0)) is Ok && conv(
                entries[j].1,
            ) is Ok),
        conv_map(entries, i) matches Ok(d) ==> d.len() == entries.len() - i && (forall|j: int|
            i <= j < entries.len() ==> #[trigger] conv(entries[j].0) == Ok::<
                SpecValue,
                PyserError,
            >(d[j - i].0) && conv(entries[j].1) == Ok::<SpecValue, PyserError>(d[j - i].1)),
    decreases entries.len() - i,
{
    if i < entries.len() {
        lemma_conv_map_char(entries, i + 1);
        match (conv(entries[i].0), conv(entries[i].1)) {
            (Ok(k), Ok(v)) => {
                match conv_map(entries, i + 1) {
                    Ok(rest) => {
                        assert forall|j: int| i <= j < entries.len() implies #[trigger] conv(
                            entries[j].0,
                        ) == Ok::<SpecValue, PyserError>((seq![(k, v)] + rest)[j - i].0) && conv(
                            entries[j].1,
                        ) == Ok::<SpecValue, PyserError>((seq![(k, v)] + rest)[j - i].1) by {
                            if j == i {
                                assert((seq![(k, v)] + rest)[0] == (k, v));
                            } else {
                                assert((seq![(k, v)] + rest)[j - i] == rest[j - i - 1]);
                            }
                        }
                    },
                    Err(_) => {
                        assert(!(conv_map(entries, i + 1) is Ok));
                    },
                }
            },
            (Ok(_), Err(_)) => {
                assert(!(conv(entries[i].1) is Ok));
            },
            (Err(_), _) => {
                assert(!(conv(entries[i].0) is Ok));
            },
        }
    }
}

/// `conv_struct(fields, i)` succeeds exactly when every field value of
/// `fields[i..]` converts, and then pairs each conversion with its field
/// name, in place.
proof fn lemma_conv_struct_char(fields: Seq<(String, Content)>, i: int)
    requires
        0 <= i <= fields.len(),
    ensures
        (conv_struct(fields, i) is Ok) <==> (forall|j: int|
            i <= j < fields.len() ==> (#[trigger] conv(fields[j].1)) is Ok),
        conv_struct(fields, i) matches Ok(d) ==> d.len() == fields.len() - i && (forall|j: int|
            i <= j < fields.len() ==> d[j - i].0 == SpecValue::Str((#[trigger] fields[j]).0@))
            && (forall|j: int|
            i <= j < fields.len() ==> #[trigger] conv(fields[j].1) == Ok::<SpecValue, PyserError>(
                d[j - i].1,
            )),
    decreases fields.len() - i,
{
    if i < fields.len() {
        lemma_conv_struct_char(fields, i + 1);
        match conv(fields[i].1) {
            Ok(v) => {
                match conv_struct(fields, i + 1) {
                    Ok(rest) => {
                        let head = (SpecValue::Str(fields[i].0@), v);
                        assert forall|j: int| i <= j < fields.len() implies (#[trigger] (seq![head]
                            + rest)[j - i]).0 == SpecValue::Str(fields[j].0@) && conv(fields[j].1)
                            == Ok::<SpecValue, PyserError>((seq![head] + rest)[j - i].1) by {
                            if j == i {
                                assert((seq![head] + rest)[0] == head);
                            } else {
                                assert((seq![head] + rest)[j - i] == rest[j - i - 1]);
                            }
                        }
                    },
                    Err(_) => {
                        assert(!(conv_struct(fields, i + 1) is Ok));
                    },
                }
            },
            Err(_) => {
                assert(!(conv(fields[i].1) is Ok));
            },
        }
    }
}

/// Totality over leaves: a leaf node always converts, and to exactly one
/// scalar of the matching shape — integers of every width to the numeric
/// scalar of the same value, booleans to the boolean scalar, strings and
/// byte buffers to their sequences, floats to their bit patterns, a
/// character to the one-character string, and absence, the unit value and
/// a unit struct all to the "none" scalar.
pub proof fn lemma_leaves_total(c: Content)
    requires
        c.is_leaf(),
    ensures
        conv(c) is Ok,
        c matches Content::Bool(b) ==> conv(c) == Ok::<SpecValue, PyserError>(SpecValue::Bool(b)),
        c matches Content::I8(v) ==> conv(c) == Ok::<SpecValue, PyserError>(
            SpecValue::Int(v as int),
        ),
        c matches Content::I16(v) ==> conv(c) == Ok::<SpecValue, PyserError>(
            SpecValue::Int(v as int),
        ),
        c matches Content::I32(v) ==> conv(c) == Ok::<SpecValue, PyserError>(
            SpecValue::Int(v as int),
        ),
        c matches Content::I64(v) ==> conv(c) == Ok::<SpecValue, PyserError>(
            SpecValue::Int(v as int),
        ),
        c matches Content::U8(v) ==> conv(c) == Ok::<SpecValue, PyserError>(
            SpecValue::Int(v as int),
        ),
        c matches Content::U16(v) ==> conv(c) == Ok::<SpecValue, PyserError>(
            SpecValue::Int(v as int),
        ),
        c matches Content::U32(v) ==> conv(c) == Ok::<SpecValue, PyserError>(
            SpecValue::Int(v as int),
        ),
        c matches Content::U64(v) ==> conv(c) == Ok::<SpecValue, PyserError>(
            SpecValue::Int(v as int),
        ),
        c matches Content::F32Bits(bits) ==> conv(c) == Ok::<SpecValue, PyserError>(
            SpecValue::F32Bits(bits),
        ),
        c matches Content::F64Bits(bits) ==> conv(c) == Ok::<SpecValue, PyserError>(
            SpecValue::F64Bits(bits),
        ),
        c matches Content::Char(ch) ==> conv(c) == Ok::<SpecValue, PyserError>(
            SpecValue::Str(seq![ch]),
        ),
        c matches Content::Str(s) ==> conv(c) == Ok::<SpecValue, PyserError>(SpecValue::Str(s@)),
        c matches Content::Bytes(b) ==> conv(c) == Ok::<SpecValue, PyserError>(
            SpecValue::Bytes(b@),
        ),
        c matches Content::NoneVal ==> conv(c) == Ok::<SpecValue, PyserError>(SpecValue::Null),
        c matches Content::Unit ==> conv(c) == Ok::<SpecValue, PyserError>(SpecValue::Null),
        c matches Content::UnitStruct(_) ==> conv(c) == Ok::<SpecValue, PyserError>(
            SpecValue::Null,
        ),
        c matches Content::UnitVariant { variant, .. } ==> conv(c) == Ok::<SpecValue, PyserError>(
            SpecValue::Str(variant@),
        ),
{
}

/// Sequence order preservation: a sequence converts exactly when each of
/// its elements does, and then to the ordered container of the same
/// length whose `i`-th element is the conversion of the `i`-th source
/// element, for every `i`.
pub proof fn lemma_sequence_order(elems: Vec<Content>)
    ensures
        (conv(Content::Sequence(elems)) is Ok) <==> (forall|i: int|
            0 <= i < elems@.len() ==> (#[trigger] conv(elems@[i])) is Ok),
        conv(Content::Sequence(elems)) matches Ok(o) ==> o matches SpecValue::List(l) && l.len()
            == elems@.len() && (forall|i: int|
            0 <= i < elems@.len() ==> #[trigger] conv(elems@[i]) == Ok::<SpecValue, PyserError>(
                l[i],
            )),
{
    lemma_conv_list_char(elems@, 0);
}

/// Struct field completeness: a struct converts exactly when each of its
/// field values does, and then to the dict holding exactly one entry per
/// field, keyed by the field's name and carrying the conversion of the
/// field's value, in declaration order.
pub proof fn lemma_struct_fields(name: String, fields: Vec<(String, Content)>)
    ensures
        (conv(Content::Struct(name, fields)) is Ok) <==> (forall|i: int|
            0 <= i < fields@.len() ==> (#[trigger] conv(fields@[i].1)) is Ok),
        conv(Content::Struct(name, fields)) matches Ok(o) ==> o matches SpecValue::Dict(d)
            && d.len() == fields@.len() && (forall|i: int|
            0 <= i < fields@.len() ==> (#[trigger] d[i]).0 == SpecValue::Str(fields@[i].0@)) && (
        forall|i: int|
            0 <= i < fields@.len() ==> #[trigger] conv(fields@[i].1) == Ok::<
                SpecValue,
                PyserError,
            >(d[i].1)),
{
    lemma_conv_struct_char(fields@, 0);
}

/// Map pairing correctness: a map converts exactly when each of its keys
/// and values does, and then to the dict that pairs the conversion of the
/// `i`-th key with the conversion of the `i`-th value — never a value
/// misassigned to another key.
pub proof fn lemma_map_pairing(entries: Vec<(Content, Content)>)
    ensures
        (conv(Content::Mapping(entries)) is Ok) <==> (forall|i: int|
            0 <= i < entries@.len() ==> (#[trigger] conv(entries@[i].0)) is Ok && conv(
                entries@[i].1,
            ) is Ok),
        conv(Content::Mapping(entries)) matches Ok(o) ==> o matches SpecValue::Dict(d) && d.len()
            == entries@.len() && (forall|i: int|
            0 <= i < entries@.len() ==> #[trigger] conv(entries@[i].0) == Ok::<
                SpecValue,
                PyserError,
            >(d[i].0) && conv(entries@[i].1) == Ok::<SpecValue, PyserError>(d[i].1)),
{
    lemma_conv_map_char(entries@, 0);
}

/// Unit-variant naming: a unit-like enum variant converts to the scalar
/// string of its variant name, whatever its declared index — the same
/// variant under two different indices converts to the same string.
pub proof fn lemma_unit_variant_name(
    name: String,
    index_a: u32,
    index_b: u32,
    variant: String,
)
    ensures
        conv(Content::UnitVariant { name, variant_index: index_a, variant }) == Ok::<
            SpecValue,
            PyserError,
        >(SpecValue::Str(variant@)),
        conv(Content::UnitVariant { name, variant_index: index_a, variant }) == conv(
            Content::UnitVariant { name, variant_index: index_b, variant },
        ),
{
}

/// Transparent newtype: a newtype struct converts to exactly the
/// conversion of its single inner value — no wrapper appears in the
/// target model.
pub proof fn lemma_newtype_transparent(name: String, inner: Box<Content>)
    ensures
        conv(Content::NewtypeStruct(name, inner)) == conv(*inner),
{
}

/// Fail-fast on unsupported shapes: an enum variant carrying a positional
/// or named payload never converts — the result is the unsupported-shape
/// error, and no object, partial or otherwise, accompanies it.
pub proof fn lemma_unsupported_fail(c: Content)
    requires
        c matches Content::TupleVariant { .. } || c matches Content::StructVariant { .. },
    ensures
        conv(c) == Err::<SpecValue, PyserError>(PyserError::NotImplemented),
{
}

/// Success exactly on the supported subset: a tree converts if and only
/// if no node anywhere in it is an enum variant carrying a payload — and
/// when it does not convert, the error is always the unsupported-shape
/// error, whichever node raised it.
pub proof fn lemma_success_iff_supported(c: Content)
    ensures
        (conv(c) is Ok) <==> !c.has_unsupported(),
        c.has_unsupported() ==> conv(c) == Err::<SpecValue, PyserError>(
            PyserError::NotImplemented,
        ),
    decreases c, 0int,
{
    match c {
        Content::SomeVal(inner) => lemma_success_iff_supported(*inner),
        Content::NewtypeStruct(_, inner) => lemma_success_iff_supported(*inner),
        Content::NewtypeVariant { inner, .. } => lemma_success_iff_supported(*inner),
        Content::Sequence(elems) => lemma_list_success(elems@, 0),
        Content::Tuple(elems) => lemma_list_success(elems@, 0),
        Content::TupleStruct(_, elems) => lemma_list_success(elems@, 0),
        Content::Mapping(entries) => lemma_entries_success(entries@, 0),
        Content::Struct(_, fields) => lemma_fields_success(fields@, 0),
        _ => {},
    }
}

/// The elements of `elems[i..]` all convert exactly when none holds an
/// unsupported shape; otherwise the run fails with the unsupported-shape
/// error.
proof fn lemma_list_success(elems: Seq<Content>, i: int)
    requires
        0 <= i <= elems.len(),
    ensures
        (conv_list(elems, i) is Ok) <==> !list_has_unsupported(elems, i),
        list_has_unsupported(elems, i) ==> conv_list(elems, i) == Err::<
            Seq<SpecValue>,
            PyserError,
        >(PyserError::NotImplemented),
    decreases elems, elems.len() - i,
{
    if i < elems.len() {
        lemma_success_iff_supported(elems[i]);
        lemma_list_success(elems, i + 1);
    }
}

/// The keys and values of `entries[i..]` all convert exactly when none
/// holds an unsupported shape; otherwise the run fails with the
/// unsupported-shape error.
proof fn lemma_entries_success(entries: Seq<(Content, Content)>, i: int)
    requires
        0 <= i <= entries.len(),
    ensures
        (conv_map(entries, i) is Ok) <==> !entries_have_unsupported(entries, i),
        entries_have_unsupported(entries, i) ==> conv_map(entries, i) == Err::<
            Seq<(SpecValue, SpecValue)>,
            PyserError,
        >(PyserError::NotImplemented),
    decreases entries, entries.len() - i,
{
    if i < entries.len() {
        lemma_success_iff_supported(entries[i].0);
        lemma_success_iff_supported(entries[i].1);
        lemma_entries_success(entries, i + 1);
    }
}

/// The field values of `fields[i..]` all convert exactly when none holds
/// an unsupported shape; otherwise the run fails with the
/// unsupported-shape error.
proof fn lemma_fields_success(fields: Seq<(String, Content)>, i: int)
    requires
        0 <= i <= fields.len(),
    ensures
        (conv_struct(fields, i) is Ok) <==> !fields_have_unsupported(fields, i),
        fields_have_unsupported(fields, i) ==> conv_struct(fields, i) == Err::<
            Seq<(SpecValue, SpecValue)>,
            PyserError,
        >(PyserError::NotImplemented),
    decreases fields, fields.len() - i,
{
    if i < fields.len() {
        lemma_success_iff_supported(fields[i].1);
        lemma_fields_success(fields, i + 1);
    }
}

/// Idempotent structure, not identity: two conversions of the same source
/// tree agree structurally — on success their object graphs have equal
/// spec values — while each call returns a freshly built, independently
/// owned graph; nothing is shared between them.
pub proof fn lemma_reconversion_structural(
    c: Content,
    r1: Result<PyValue, PyserError>,
    r2: Result<PyValue, PyserError>,
)
    requires
        result_view(r1) == conv(c),
        result_view(r2) == conv(c),
    ensures
        result_view(r1) == result_view(r2),
        r1 matches Ok(o1) ==> (r2 matches Ok(o2) && o1@ == o2@),
{
}

} // verus!
