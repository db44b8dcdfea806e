//! Serializing a parsed specification to pretty-printed JSON.
//!
//! The external parser's output, a `usage::Spec`, is opaque here: the
//! resolver trusts the value and hands it to `serde_json` unchanged. The text
//! that comes back is a function of the value alone, named `pretty_json_of`.

use vstd::prelude::*;

verus! {

/// Declares `usage::Spec`, the external parser's structured specification
/// value, so it can be carried through signatures; it stays opaque here.
#[verifier::external_type_specification]
#[verifier::external_body]
pub struct ExSpec(usage::Spec);

/// The pretty-printed JSON serialization of a specification value: what
/// `serde_json::to_string_pretty` returns for it, a function of the value
/// alone.
pub uninterp spec fn pretty_json_of(spec: usage::Spec) -> Seq<char>;

/// Relies on `serde_json::to_string_pretty`: the output is pretty-printed
/// JSON and depends on the value alone. The call fails only when a
/// `Serialize` impl decides to fail or a map key is not a string; every impl
/// reachable from `usage::Spec` is derived and its maps are string-keyed, so
/// for this type it succeeds.
#[verifier::external_body]
fn spec_to_pretty_json(spec: &usage::Spec) -> (r: Result<String, String>)
    ensures
        r is Ok,
        r matches Ok(text) ==> text@ == pretty_json_of(*spec),
{
    match serde_json::to_string_pretty(spec) {
        Ok(text) => Ok(text),
        Err(e) => Err(e.to_string()),
    }
}

/// Serialize a parsed specification to pretty-printed JSON. The value is
/// passed to the serializer unchanged, and the text returned is exactly its
/// serialization — so equal specification values always render equally.
pub fn render_spec(spec: &usage::Spec) -> (r: String)
    ensures
        r@ == pretty_json_of(*spec),
{
    match spec_to_pretty_json(spec) {
        Ok(text) => text,
        Err(_) => unreached(),
    }
}

} // verus!
