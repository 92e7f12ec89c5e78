//! The callable surface: throwing-mode `decode` and `encode`, the safe-mode
//! pair that never fails and reports failures as a message string instead,
//! and the two sentinel values.

use vstd::prelude::*;
use vstd::string::StringExecFns;

use crate::codec::{decode_node, encode_node, has_opaque_named, opaque_free, spec_decode,
    spec_encode};
use crate::value::{spec_type_name, DynValue, ValModel};
use crate::yaml::{emit_document, parse_document, yaml_emit, yaml_parse};

verus! {

/// Why a conversion failed.
#[derive(Debug, PartialEq)]
pub enum CodecError {
    /// Decode was handed a value that is not text; carries that value's host
    /// type name.
    InvalidInputType(String),
    /// The text is not a well-formed document; carries the document codec's
    /// diagnostic, verbatim.
    ParseError(String),
    /// The value holds something the document form cannot carry; carries the
    /// offending value's captured type name.
    UnsupportedValueKind(String),
    /// The document codec refused a structurally valid tree; carries its
    /// message, verbatim.
    InternalSerializeError(String),
}

/// The mathematical model of a `CodecError`.
pub enum ErrModel {
    InvalidInputType(Seq<char>),
    ParseError(Seq<char>),
    UnsupportedValueKind(Seq<char>),
    InternalSerializeError(Seq<char>),
}

impl View for CodecError {
    type V = ErrModel;

    open spec fn view(&self) -> ErrModel {
        match self {
            CodecError::InvalidInputType(t) => ErrModel::InvalidInputType(t@),
            CodecError::ParseError(m) => ErrModel::ParseError(m@),
            CodecError::UnsupportedValueKind(t) => ErrModel::UnsupportedValueKind(t@),
            CodecError::InternalSerializeError(m) => ErrModel::InternalSerializeError(m@),
        }
    }
}

/// The message text of an error, as the host sees it.
pub open spec fn spec_message(e: ErrModel) -> Seq<char> {
    match e {
        ErrModel::InvalidInputType(t) => "invalid input type: "@ + t,
        ErrModel::ParseError(m) => m,
        ErrModel::UnsupportedValueKind(t) => "cannot serialize <"@ + t + ">"@,
        ErrModel::InternalSerializeError(m) => m,
    }
}

impl CodecError {
    /// The message text of this error: the two codec messages pass through
    /// verbatim, the other two kinds name the offending type.
    pub fn message(&self) -> (r: String)
        ensures
            r@ == spec_message(self@),
    {
        match self {
            CodecError::InvalidInputType(t) => {
                let mut m = String::from_str("invalid input type: ");
                m.append(t.as_str());
                m
            },
            CodecError::ParseError(m) => m.clone(),
            CodecError::UnsupportedValueKind(t) => {
                let mut m = String::from_str("cannot serialize <");
                m.append(t.as_str());
                m.append(">");
                m
            },
            CodecError::InternalSerializeError(m) => m.clone(),
        }
    }
}

/// The Null Sentinel: the one reserved value that stands for "present but
/// null". Only another retrieval of the sentinel equals it; in particular it
/// never equals the native absence value.
pub fn null_sentinel() -> (r: DynValue)
    ensures
        r@ == ValModel::Null,
{
    DynValue::Null
}

/// A fresh empty table carrying the Array Marker: while it stays empty, it
/// encodes as an empty sequence rather than an empty mapping.
pub fn array_marked_table() -> (r: DynValue)
    ensures
        r@ == (ValModel::Table { entries: Seq::empty(), array_marked: true }),
{
    let r = DynValue::Table { entries: Vec::new(), array_marked: true };
    proof {
        assert(r@->Table_entries =~= Seq::<(ValModel, ValModel)>::empty());
    }
    r
}

/// Throwing-mode decode of a document text into a dynamic value.
///
/// The input must be a text value: anything else is rejected before any
/// parsing, with its host type name. Text that is not a well-formed document
/// fails with the document codec's diagnostic, verbatim. On success, the
/// parsed tree is decoded: null becomes the Null Sentinel, scalars keep their
/// kind, sequences become arrays in order, mappings become tables in entry
/// order.
pub fn decode(input: &DynValue) -> (r: Result<DynValue, CodecError>)
    ensures
        !(input@ is Str) ==> (r matches Err(e) && e@ == ErrModel::InvalidInputType(
            spec_type_name(input@),
        )),
        input@ matches ValModel::Str(text) ==> match yaml_parse(text) {
            Ok(doc) => (r matches Ok(v) && v@ == spec_decode(doc)),
            Err(m) => (r matches Err(e) && e@ == ErrModel::ParseError(m)),
        },
{
    let text = match input {
        DynValue::Str(s) => s,
        _ => {
            return Err(CodecError::InvalidInputType(input.host_type_name()));
        },
    };
    match parse_document(text.as_str()) {
        Ok(node) => Ok(decode_node(&node)),
        Err(msg) => Err(CodecError::ParseError(msg)),
    }
}

/// Throwing-mode encode of a dynamic value as document text.
///
/// A value holding an opaque anywhere is rejected with that opaque's captured
/// type name; an opaque-free value is encoded (sentinel and absence to null,
/// scalars kept, arrays to sequences, tables to mappings, a marked empty
/// table to an empty sequence) and handed to the document codec, whose
/// refusal, if any, passes through verbatim.
pub fn encode(v: &DynValue) -> (r: Result<String, CodecError>)
    ensures
        !opaque_free(v@) ==> (r matches Err(e) && (e@ matches ErrModel::UnsupportedValueKind(
            name,
        ) && has_opaque_named(v@, name))),
        opaque_free(v@) ==> match yaml_emit(spec_encode(v@)) {
            Ok(text) => (r matches Ok(s) && s@ == text),
            Err(m) => (r matches Err(e) && e@ == ErrModel::InternalSerializeError(m)),
        },
{
    match encode_node(v) {
        Ok(node) => match emit_document(&node) {
            Ok(text) => Ok(text),
            Err(msg) => Err(CodecError::InternalSerializeError(msg)),
        },
        Err(name) => Err(CodecError::UnsupportedValueKind(name)),
    }
}

/// Safe-mode decode: never fails. A success pairs the decoded value with no
/// message; a failure pairs the absence value with exactly the message the
/// throwing mode would carry.
pub fn safe_decode(input: &DynValue) -> (r: (DynValue, Option<String>))
    ensures
        !(input@ is Str) ==> r.0@ == ValModel::Nil && (r.1 matches Some(msg) && msg@
            == spec_message(ErrModel::InvalidInputType(spec_type_name(input@)))),
        input@ matches ValModel::Str(text) ==> match yaml_parse(text) {
            Ok(doc) => r.0@ == spec_decode(doc) && r.1 is None,
            Err(m) => r.0@ == ValModel::Nil && (r.1 matches Some(msg) && msg@ == spec_message(
                ErrModel::ParseError(m),
            )),
        },
{
    match decode(input) {
        Ok(v) => (v, None),
        Err(e) => (DynValue::Nil, Some(e.message())),
    }
}

/// Safe-mode encode: never fails. A success pairs the document text with no
/// message; a failure pairs the absence value with exactly the message the
/// throwing mode would carry.
pub fn safe_encode(v: &DynValue) -> (r: (DynValue, Option<String>))
    ensures
        !opaque_free(v@) ==> r.0@ == ValModel::Nil && (r.1 matches Some(msg) && exists|
            name: Seq<char>,
        |
            #[trigger] has_opaque_named(v@, name) && msg@ == spec_message(
                ErrModel::UnsupportedValueKind(name),
            )),
        opaque_free(v@) ==> match yaml_emit(spec_encode(v@)) {
            Ok(text) => r.0@ == ValModel::Str(text) && r.1 is None,
            Err(m) => r.0@ == ValModel::Nil && (r.1 matches Some(msg) && msg@ == spec_message(
                ErrModel::InternalSerializeError(m),
            )),
        },
{
    match encode(v) {
        Ok(text) => (DynValue::Str(text), None),
        Err(e) => (DynValue::Nil, Some(e.message())),
    }
}

} // verus!
