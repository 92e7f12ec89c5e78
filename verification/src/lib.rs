//! A bridge between YAML document text and a dynamically typed host value
//! model, in both directions. A Null Sentinel keeps "present but null"
//! distinct from "absent", and an Array Marker keeps an empty sequence
//! distinct from an empty mapping.

mod api;
mod codec;
mod value;
mod yaml;

pub use api::{array_marked_table, decode, encode, null_sentinel, safe_decode, safe_encode,
    spec_message, CodecError, ErrModel};
pub use codec::{decode_node, encode_node, has_opaque_named, lemma_decode_normal,
    lemma_decoded_value_round_trip, lemma_round_trip, lemma_round_trip_normal, normal,
    opaque_free, spec_decode, spec_encode};
pub use value::{spec_type_name, DocModel, DocNode, DynValue, ValModel};
pub use yaml::{yaml_emit, yaml_parse};
