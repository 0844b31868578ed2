//! The listing's JSON coding, done by serde_json behind trusted wrappers:
//! the library names the encoding and the parse result and reasons over
//! those names.

use vstd::prelude::*;

verus! {

/// serde_json's error value, carried through opaquely.
#[verifier::external_type_specification]
#[verifier::external_body]
pub struct ExJsonError(serde_json::Error);

/// The JSON array-of-strings encoding of `names`, as serde_json writes it.
pub uninterp spec fn json_list_bytes(names: Seq<Seq<char>>) -> Seq<u8>;

/// What serde_json reads a byte string as, when it holds a JSON array of
/// strings; nothing when it does not.
pub uninterp spec fn json_parse_list(bytes: Seq<u8>) -> Option<Seq<Seq<char>>>;

/// Relies on serde_json::to_vec on a vector of strings: the encoding is a
/// function of the strings alone, and encoding strings does not fail.
#[verifier::external_body]
pub(crate) fn encode_listing(names: &Vec<String>) -> (r: Vec<u8>)
    ensures
        r@ == json_list_bytes(names.deep_view()),
{
    serde_json::to_vec(names).unwrap()
}

/// Relies on serde_json::from_slice reading a vector of strings: the
/// outcome is a function of the bytes alone.
#[verifier::external_body]
pub(crate) fn decode_listing(bytes: &[u8]) -> (r: Result<Vec<String>, serde_json::Error>)
    ensures
        r is Ok <==> json_parse_list(bytes@) is Some,
        r is Ok ==> r.unwrap().deep_view() == json_parse_list(bytes@).unwrap(),
{
    serde_json::from_slice::<Vec<String>>(bytes)
}

} // verus!
