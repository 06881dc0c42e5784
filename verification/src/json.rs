use vstd::prelude::*;

verus! {

/// Declares serde_json's JSON value type.  Record fields use it to carry
/// request and response bodies through the pipeline opaquely; verified code
/// never inspects the inside of such a value.
#[verifier::external_type_specification]
#[verifier::external_body]
pub struct ExValue(serde_json::Value);

/// The decoding of a text as a JSON array of strings: `None` where the text
/// is not one, otherwise the strings in array order.
pub uninterp spec fn decoded_string_list(s: Seq<char>) -> Option<Seq<Seq<char>>>;

/// Relies on serde_json::from_str::<Vec<String>>: decodes a JSON array of
/// strings, and the result is a function of the text alone.
#[verifier::external_body]
pub(crate) fn decode_string_list(s: &str) -> (r: Option<Vec<String>>)
    ensures
        r.deep_view() == decoded_string_list(s@),
{
    serde_json::from_str::<Vec<String>>(s).ok()
}

} // verus!
