//! The two tree shapes the bridge converts between: the host's dynamic value
//! model and the document-native node tree, together with their mathematical
//! models.
//!
//! Numeric scalars come in two kinds: an exact signed 64-bit integer, and any
//! other numeric scalar (fractional, or outside the signed 64-bit range),
//! carried as its canonical scalar text so that no precision is lost in
//! transit.

use vstd::prelude::*;

verus! {

broadcast use vstd::std_specs::vec::group_vec_axioms, vstd::seq::group_seq_axioms;

/// A value of the dynamically typed host model.
///
/// `Null` is the Null Sentinel: a reserved tag that stands for "present but
/// null", as opposed to `Nil`, the host's native "absent" value. `Table`
/// carries its entries in insertion order together with the Array Marker flag
/// that forces an empty table to read as an empty sequence.
#[derive(Debug, PartialEq)]
pub enum DynValue {
    Nil,
    Null,
    Bool(bool),
    Int(i64),
    Float(String),
    Str(String),
    Array(Vec<DynValue>),
    Table { entries: Vec<(DynValue, DynValue)>, array_marked: bool },
    Opaque(String),
}

/// The mathematical model of a `DynValue`.
#[verifier::ext_equal]
pub enum ValModel {
    Nil,
    Null,
    Bool(bool),
    Int(i64),
    Float(Seq<char>),
    Str(Seq<char>),
    Array(Seq<ValModel>),
    Table { entries: Seq<(ValModel, ValModel)>, array_marked: bool },
    Opaque(Seq<char>),
}

/// A node of the document-native tree: what the document codec parses from
/// and serializes to text.
#[derive(Debug, PartialEq)]
pub enum DocNode {
    Null,
    Bool(bool),
    Int(i64),
    Float(String),
    Str(String),
    Sequence(Vec<DocNode>),
    Mapping(Vec<(DocNode, DocNode)>),
}

/// The mathematical model of a `DocNode`.
#[verifier::ext_equal]
pub enum DocModel {
    Null,
    Bool(bool),
    Int(i64),
    Float(Seq<char>),
    Str(Seq<char>),
    Sequence(Seq<DocModel>),
    Mapping(Seq<(DocModel, DocModel)>),
}

impl DynValue {
    /// The model of this value: the same tree over ghost sequences.
    pub open spec fn model(self) -> ValModel
        decreases self,
    {
        match self {
            DynValue::Nil => ValModel::Nil,
            DynValue::Null => ValModel::Null,
            DynValue::Bool(b) => ValModel::Bool(b),
            DynValue::Int(i) => ValModel::Int(i),
            DynValue::Float(t) => ValModel::Float(t@),
            DynValue::Str(s) => ValModel::Str(s@),
            DynValue::Array(items) => ValModel::Array(
                Seq::new(
                    items@.len(),
                    |i: int|
                        if 0 <= i < items@.len() {
                            items@[i].model()
                        } else {
                            ValModel::Nil
                        },
                ),
            ),
            DynValue::Table { entries, array_marked } => ValModel::Table {
                entries: Seq::new(
                    entries@.len(),
                    |i: int|
                        if 0 <= i < entries@.len() {
                            (entries@[i].0.model(), entries@[i].1.model())
                        } else {
                            (ValModel::Nil, ValModel::Nil)
                        },
                ),
                array_marked,
            },
            DynValue::Opaque(name) => ValModel::Opaque(name@),
        }
    }
}

impl View for DynValue {
    type V = ValModel;

    open spec fn view(&self) -> ValModel {
        self.model()
    }
}

impl DocNode {
    /// The model of this node: the same tree over ghost sequences.
    pub open spec fn model(self) -> DocModel
        decreases self,
    {
        match self {
            DocNode::Null => DocModel::Null,
            DocNode::Bool(b) => DocModel::Bool(b),
            DocNode::Int(i) => DocModel::Int(i),
            DocNode::Float(t) => DocModel::Float(t@),
            DocNode::Str(s) => DocModel::Str(s@),
            DocNode::Sequence(items) => DocModel::Sequence(
                Seq::new(
                    items@.len(),
                    |i: int|
                        if 0 <= i < items@.len() {
                            items@[i].model()
                        } else {
                            DocModel::Null
                        },
                ),
            ),
            DocNode::Mapping(pairs) => DocModel::Mapping(
                Seq::new(
                    pairs@.len(),
                    |i: int|
                        if 0 <= i < pairs@.len() {
                            (pairs@[i].0.model(), pairs@[i].1.model())
                        } else {
                            (DocModel::Null, DocModel::Null)
                        },
                ),
            ),
        }
    }
}

impl View for DocNode {
    type V = DocModel;

    open spec fn view(&self) -> DocModel {
        self.model()
    }
}

/// The host type name of a value, as the model sees it.
pub open spec fn spec_type_name(v: ValModel) -> Seq<char> {
    match v {
        ValModel::Nil => "nil"@,
        ValModel::Null => "userdata"@,
        ValModel::Bool(_) => "boolean"@,
        ValModel::Int(_) => "number"@,
        ValModel::Float(_) => "number"@,
        ValModel::Str(_) => "string"@,
        ValModel::Array(_) => "table"@,
        ValModel::Table { .. } => "table"@,
        ValModel::Opaque(name) => name,
    }
}

impl DynValue {
    /// The host type name of this value: the sentinels are host userdata, both
    /// numeric kinds are host numbers, and both container kinds are host
    /// tables; an opaque value reports the name it was captured with.
    pub fn host_type_name(&self) -> (r: String)
        ensures
            r@ == spec_type_name(self@),
    {
        match self {
            DynValue::Nil => "nil".to_owned(),
            DynValue::Null => "userdata".to_owned(),
            DynValue::Bool(_) => "boolean".to_owned(),
            DynValue::Int(_) => "number".to_owned(),
            DynValue::Float(_) => "number".to_owned(),
            DynValue::Str(_) => "string".to_owned(),
            DynValue::Array(_) => "table".to_owned(),
            DynValue::Table { .. } => "table".to_owned(),
            DynValue::Opaque(name) => name.clone(),
        }
    }
}

} // verus!
