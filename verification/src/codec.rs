//! The two conversion walks between document trees and dynamic values, stated
//! over the ghost models and carried out by verified executable functions.
//!
//! Decoding substitutes the Null Sentinel for a document null, so that a key
//! set to null stays distinguishable from a key never set. Encoding maps the
//! Null Sentinel (and the native absence value) back to a document null, and
//! consults the Array Marker to turn an empty marked table into an empty
//! sequence rather than an empty mapping.

use vstd::prelude::*;

use crate::value::{DocModel, DocNode, DynValue, ValModel};

verus! {

broadcast use vstd::std_specs::vec::group_vec_axioms, vstd::seq::group_seq_axioms;

/// What decoding a document tree yields: null becomes the Null Sentinel,
/// scalars keep their kind, sequences become arrays in order, and mappings
/// become unmarked tables in entry order.
pub open spec fn spec_decode(d: DocModel) -> ValModel
    decreases d,
{
    match d {
        DocModel::Null => ValModel::Null,
        DocModel::Bool(b) => ValModel::Bool(b),
        DocModel::Int(i) => ValModel::Int(i),
        DocModel::Float(t) => ValModel::Float(t),
        DocModel::Str(s) => ValModel::Str(s),
        DocModel::Sequence(items) => ValModel::Array(
            Seq::new(
                items.len(),
                |i: int|
                    if 0 <= i < items.len() {
                        spec_decode(items[i])
                    } else {
                        ValModel::Nil
                    },
            ),
        ),
        DocModel::Mapping(pairs) => ValModel::Table {
            entries: Seq::new(
                pairs.len(),
                |i: int|
                    if 0 <= i < pairs.len() {
                        (spec_decode(pairs[i].0), spec_decode(pairs[i].1))
                    } else {
                        (ValModel::Nil, ValModel::Nil)
                    },
            ),
            array_marked: false,
        },
    }
}

/// Whether a dynamic value contains no opaque value anywhere, neither as an
/// array element nor as a table key or entry value: exactly the trees the
/// encoder accepts.
pub open spec fn opaque_free(v: ValModel) -> bool
    decreases v,
{
    match v {
        ValModel::Opaque(_) => false,
        ValModel::Array(items) => forall|i: int|
            0 <= i < items.len() ==> opaque_free(#[trigger] items[i]),
        ValModel::Table { entries, .. } => forall|i: int|
            0 <= i < entries.len() ==> opaque_free(#[trigger] entries[i].0) && opaque_free(
                entries[i].1,
            ),
        _ => true,
    }
}

/// Whether the tree holds, anywhere, an opaque value whose captured type name
/// is `name`.
pub open spec fn has_opaque_named(v: ValModel, name: Seq<char>) -> bool
    decreases v,
{
    match v {
        ValModel::Opaque(n) => n == name,
        ValModel::Array(items) => exists|i: int|
            0 <= i < items.len() && has_opaque_named(#[trigger] items[i], name),
        ValModel::Table { entries, .. } => exists|i: int|
            0 <= i < entries.len() && (has_opaque_named(#[trigger] entries[i].0, name)
                || has_opaque_named(entries[i].1, name)),
        _ => false,
    }
}

/// What encoding an opaque-free dynamic value yields: both the Null Sentinel
/// and the native absence value become a document null, scalars keep their
/// kind, arrays become sequences in order, and a table becomes a mapping in
/// entry order - unless it is empty and carries the Array Marker, in which
/// case it becomes an empty sequence. On a tree with an opaque value the
/// result is meaningless (the encoder rejects such a tree instead).
pub open spec fn spec_encode(v: ValModel) -> DocModel
    decreases v,
{
    match v {
        ValModel::Nil => DocModel::Null,
        ValModel::Null => DocModel::Null,
        ValModel::Bool(b) => DocModel::Bool(b),
        ValModel::Int(i) => DocModel::Int(i),
        ValModel::Float(t) => DocModel::Float(t),
        ValModel::Str(s) => DocModel::Str(s),
        ValModel::Array(items) => DocModel::Sequence(
            Seq::new(
                items.len(),
                |i: int|
                    if 0 <= i < items.len() {
                        spec_encode(items[i])
                    } else {
                        DocModel::Null
                    },
            ),
        ),
        ValModel::Table { entries, array_marked } => if entries.len() == 0 && array_marked {
            DocModel::Sequence(Seq::empty())
        } else {
            DocModel::Mapping(
                Seq::new(
                    entries.len(),
                    |i: int|
                        if 0 <= i < entries.len() {
                            (spec_encode(entries[i].0), spec_encode(entries[i].1))
                        } else {
                            (DocModel::Null, DocModel::Null)
                        },
                ),
            )
        },
        ValModel::Opaque(_) => DocModel::Null,
    }
}

/// The shape a dynamic value settles into after a round trip through the
/// document form: absence becomes the Null Sentinel, an empty table carrying
/// the Array Marker becomes an empty array, and every other table loses its
/// marker flag.
pub open spec fn normal(v: ValModel) -> ValModel
    decreases v,
{
    match v {
        ValModel::Nil => ValModel::Null,
        ValModel::Null => ValModel::Null,
        ValModel::Bool(b) => ValModel::Bool(b),
        ValModel::Int(i) => ValModel::Int(i),
        ValModel::Float(t) => ValModel::Float(t),
        ValModel::Str(s) => ValModel::Str(s),
        ValModel::Array(items) => ValModel::Array(
            Seq::new(
                items.len(),
                |i: int|
                    if 0 <= i < items.len() {
                        normal(items[i])
                    } else {
                        ValModel::Nil
                    },
            ),
        ),
        ValModel::Table { entries, array_marked } => if entries.len() == 0 && array_marked {
            ValModel::Array(Seq::empty())
        } else {
            ValModel::Table {
                entries: Seq::new(
                    entries.len(),
                    |i: int|
                        if 0 <= i < entries.len() {
                            (normal(entries[i].0), normal(entries[i].1))
                        } else {
                            (ValModel::Nil, ValModel::Nil)
                        },
                ),
                array_marked: false,
            }
        },
        ValModel::Opaque(n) => ValModel::Opaque(n),
    }
}

/// Round trip: decoding what an opaque-free value encodes to gives the value
/// back in its normal shape. For a value already in normal shape (no absence
/// value, no marker on a non-empty table, no marked empty table), the round
/// trip gives the value back unchanged.
pub proof fn lemma_round_trip(v: ValModel)
    requires
        opaque_free(v),
    ensures
        spec_decode(spec_encode(v)) == normal(v),
    decreases v,
{
    match v {
        ValModel::Array(items) => {
            assert forall|i: int| 0 <= i < items.len() implies spec_decode(
                spec_encode(#[trigger] items[i]),
            ) == normal(items[i]) by {
                lemma_round_trip(items[i]);
            }
            let lhs = spec_decode(spec_encode(v));
            let rhs = normal(v);
            assert forall|j: int| 0 <= j < items.len() implies lhs->Array_0[j]
                == rhs->Array_0[j] by {
                assert(spec_encode(v)->Sequence_0[j] == spec_encode(items[j]));
            }
            assert(lhs->Array_0 =~= rhs->Array_0);
            assert(lhs =~= rhs);
        },
        ValModel::Table { entries, array_marked } => {
            assert forall|i: int| 0 <= i < entries.len() implies spec_decode(
                spec_encode(#[trigger] entries[i].0),
            ) == normal(entries[i].0) && spec_decode(spec_encode(entries[i].1)) == normal(
                entries[i].1,
            ) by {
                lemma_round_trip(entries[i].0);
                lemma_round_trip(entries[i].1);
            }
            let lhs = spec_decode(spec_encode(v));
            let rhs = normal(v);
            if entries.len() == 0 && array_marked {
                assert(lhs->Array_0 =~= rhs->Array_0);
                assert(lhs =~= rhs);
            } else {
                assert forall|j: int| 0 <= j < entries.len() implies lhs->Table_entries[j]
                    == rhs->Table_entries[j] by {
                    assert(spec_encode(v)->Mapping_0[j] == (
                        spec_encode(entries[j].0),
                        spec_encode(entries[j].1),
                    ));
                }
                assert(lhs->Table_entries =~= rhs->Table_entries);
                assert(lhs =~= rhs);
            }
        },
        _ => {},
    }
}

/// A value in normal shape round trips to itself exactly.
pub proof fn lemma_round_trip_normal(v: ValModel)
    requires
        opaque_free(v),
        normal(v) == v,
    ensures
        spec_decode(spec_encode(v)) == v,
{
    lemma_round_trip(v);
}

/// Decoding only yields values in normal shape: never the absence value,
/// never an opaque value, and never a marked table.
pub proof fn lemma_decode_normal(d: DocModel)
    ensures
        opaque_free(spec_decode(d)),
        normal(spec_decode(d)) == spec_decode(d),
    decreases d,
{
    match d {
        DocModel::Sequence(items) => {
            assert forall|i: int| 0 <= i < items.len() implies opaque_free(
                spec_decode(#[trigger] items[i]),
            ) && normal(spec_decode(items[i])) == spec_decode(items[i]) by {
                lemma_decode_normal(items[i]);
            }
            let dv = spec_decode(d);
            assert forall|j: int| 0 <= j < items.len() implies normal(dv)->Array_0[j]
                == dv->Array_0[j] by {
                assert(dv->Array_0[j] == spec_decode(items[j]));
            }
            assert(normal(dv)->Array_0 =~= dv->Array_0);
            assert(normal(dv) =~= dv);
        },
        DocModel::Mapping(pairs) => {
            assert forall|i: int| 0 <= i < pairs.len() implies opaque_free(
                spec_decode(#[trigger] pairs[i].0),
            ) && opaque_free(spec_decode(pairs[i].1)) && normal(spec_decode(pairs[i].0))
                == spec_decode(pairs[i].0) && normal(spec_decode(pairs[i].1)) == spec_decode(
                pairs[i].1,
            ) by {
                lemma_decode_normal(pairs[i].0);
                lemma_decode_normal(pairs[i].1);
            }
            let dv = spec_decode(d);
            assert forall|j: int| 0 <= j < pairs.len() implies normal(dv)->Table_entries[j]
                == dv->Table_entries[j] by {
                assert(dv->Table_entries[j] == (spec_decode(pairs[j].0), spec_decode(pairs[j].1)));
            }
            assert(normal(dv)->Table_entries =~= dv->Table_entries);
            assert(normal(dv) =~= dv);
        },
        _ => {},
    }
}

/// A value the host obtained from decoding round trips exactly: encoding it
/// and decoding the result gives it back unchanged.
pub proof fn lemma_decoded_value_round_trip(d: DocModel)
    ensures
        spec_decode(spec_encode(spec_decode(d))) == spec_decode(d),
{
    lemma_decode_normal(d);
    lemma_round_trip(spec_decode(d));
}

/// Decode a document tree into a dynamic value: the verified half of the
/// decode path, applied to what the document codec parsed out of the text.
#[verifier::loop_isolation(false)]
pub fn decode_node(n: &DocNode) -> (r: DynValue)
    ensures
        r@ == spec_decode(n@),
    decreases n,
{
    match n {
        DocNode::Null => DynValue::Null,
        DocNode::Bool(b) => DynValue::Bool(*b),
        DocNode::Int(i) => DynValue::Int(*i),
        DocNode::Float(t) => DynValue::Float(t.clone()),
        DocNode::Str(s) => DynValue::Str(s.clone()),
        DocNode::Sequence(items) => {
            let mut out: Vec<DynValue> = Vec::new();
            let mut k: usize = 0;
            while k < items.len()
                invariant
                    k <= items@.len(),
                    out@.len() == k as int,
                    forall|j: int| 0 <= j < k ==> (#[trigger] out@[j])@ == spec_decode(
                        items@[j]@,
                    ),
                decreases items@.len() - k,
            {
                let d = decode_node(&items[k]);
                out.push(d);
                k = k + 1;
            }
            let r = DynValue::Array(out);
            proof {
                assert(r@->Array_0 =~= spec_decode(n@)->Array_0);
                assert(r@ =~= spec_decode(n@));
            }
            r
        },
        DocNode::Mapping(pairs) => {
            let mut out: Vec<(DynValue, DynValue)> = Vec::new();
            let mut k: usize = 0;
            while k < pairs.len()
                invariant
                    k <= pairs@.len(),
                    out@.len() == k as int,
                    forall|j: int| 0 <= j < k ==> (#[trigger] out@[j]).0@ == spec_decode(
                        pairs@[j].0@,
                    ) && out@[j].1@ == spec_decode(pairs@[j].1@),
                decreases pairs@.len() - k,
            {
                let key = decode_node(&pairs[k].0);
                let val = decode_node(&pairs[k].1);
                out.push((key, val));
                k = k + 1;
            }
            let r = DynValue::Table { entries: out, array_marked: false };
            proof {
                assert(r@->Table_entries =~= spec_decode(n@)->Table_entries);
                assert(r@ =~= spec_decode(n@));
            }
            r
        },
    }
}

/// Encode a dynamic value as a document tree: the verified half of the encode
/// path. Succeeds exactly on opaque-free trees; on any other tree it reports
/// the captured type name of an opaque value found in the tree.
#[verifier::loop_isolation(false)]
pub fn encode_node(v: &DynValue) -> (r: Result<DocNode, String>)
    ensures
        r matches Ok(n) ==> opaque_free(v@) && n@ == spec_encode(v@),
        r matches Err(name) ==> !opaque_free(v@) && has_opaque_named(v@, name@),
    decreases v,
{
    match v {
        DynValue::Nil => Ok(DocNode::Null),
        DynValue::Null => Ok(DocNode::Null),
        DynValue::Bool(b) => Ok(DocNode::Bool(*b)),
        DynValue::Int(i) => Ok(DocNode::Int(*i)),
        DynValue::Float(t) => Ok(DocNode::Float(t.clone())),
        DynValue::Str(s) => Ok(DocNode::Str(s.clone())),
        DynValue::Opaque(name) => Err(name.clone()),
        DynValue::Array(items) => {
            let mut out: Vec<DocNode> = Vec::new();
            let mut k: usize = 0;
            while k < items.len()
                invariant
                    k <= items@.len(),
                    out@.len() == k as int,
                    forall|j: int| 0 <= j < k ==> opaque_free((#[trigger] items@[j])@),
                    forall|j: int| 0 <= j < k ==> (#[trigger] out@[j])@ == spec_encode(
                        items@[j]@,
                    ),
                decreases items@.len() - k,
            {
                match encode_node(&items[k]) {
                    Ok(n) => out.push(n),
                    Err(name) => {
                        proof {
                            let s = v@->Array_0;
                            assert(!opaque_free(s[k as int]));
                            assert(has_opaque_named(s[k as int], name@));
                        }
                        return Err(name);
                    },
                }
                k = k + 1;
            }
            let r = DocNode::Sequence(out);
            proof {
                let s = v@->Array_0;
                assert forall|j: int| 0 <= j < s.len() implies opaque_free(#[trigger] s[j]) by {
                    assert(s[j] == items@[j]@);
                }
                assert(r@->Sequence_0 =~= spec_encode(v@)->Sequence_0);
                assert(r@ =~= spec_encode(v@));
            }
            Ok(r)
        },
        DynValue::Table { entries, array_marked } => {
            if entries.len() == 0 && *array_marked {
                let r = DocNode::Sequence(Vec::new());
                proof {
                    assert(r@->Sequence_0 =~= spec_encode(v@)->Sequence_0);
                    assert(r@ =~= spec_encode(v@));
                }
                Ok(r)
            } else {
                let mut out: Vec<(DocNode, DocNode)> = Vec::new();
                let mut k: usize = 0;
                while k < entries.len()
                    invariant
                        k <= entries@.len(),
                        out@.len() == k as int,
                        forall|j: int| 0 <= j < k ==> opaque_free(
                            (#[trigger] entries@[j]).0@,
                        ) && opaque_free(entries@[j].1@),
                        forall|j: int| 0 <= j < k ==> (#[trigger] out@[j]).0@ == spec_encode(
                            entries@[j].0@,
                        ) && out@[j].1@ == spec_encode(entries@[j].1@),
                    decreases entries@.len() - k,
                {
                    let key = match encode_node(&entries[k].0) {
                        Ok(n) => n,
                        Err(name) => {
                            proof {
                                let s = v@->Table_entries;
                                assert(!opaque_free(s[k as int].0));
                                assert(has_opaque_named(s[k as int].0, name@));
                            }
                            return Err(name);
                        },
                    };
                    let val = match encode_node(&entries[k].1) {
                        Ok(n) => n,
                        Err(name) => {
                            proof {
                                let s = v@->Table_entries;
                                assert(s[k as int].0 == entries@[k as int].0@);
                                assert(!opaque_free(s[k as int].1));
                                assert(has_opaque_named(s[k as int].1, name@));
                            }
                            return Err(name);
                        },
                    };
                    out.push((key, val));
                    k = k + 1;
                }
                let r = DocNode::Mapping(out);
                proof {
                    let s = v@->Table_entries;
                    assert forall|j: int| 0 <= j < s.len() implies opaque_free(
                        (#[trigger] s[j]).0,
                    ) && opaque_free(s[j].1) by {
                        assert(s[j].0 == entries@[j].0@ && s[j].1 == entries@[j].1@);
                    }
                    assert(r@->Mapping_0 =~= spec_encode(v@)->Mapping_0);
                    assert(r@ =~= spec_encode(v@));
                }
                Ok(r)
            }
        },
    }
}

} // verus!
