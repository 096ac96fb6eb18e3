//! Rendering the response payload into pretty-printed text.
//!
//! The remote service answers with a structured payload; this module turns it
//! into the text the tool prints. The pretty-printer comes from serde_json
//! and is taken on trust; its rendering is a function of the payload alone,
//! so the contracts name it and pin every outcome to that name, and the
//! error mapping around the call is verified.

use vstd::prelude::*;

verus! {

#[verifier::external_type_specification]
#[verifier::external_body]
pub struct ExValue(serde_json::Value);

/// What the trusted pretty-printer returns for a payload: the pretty-printed
/// JSON text, or the printer's diagnostic for a payload it cannot represent.
/// The rendering depends on the payload alone; nothing else is assumed of it.
pub uninterp spec fn pretty_of(v: serde_json::Value) -> Result<Seq<char>, Seq<char>>;

/// Relies on serde_json::to_string_pretty: renders the payload as
/// pretty-printed JSON text — a deterministic function of the payload — or
/// reports, in the error's display form, why it cannot be represented.
#[verifier::external_body]
fn value_to_pretty(v: &serde_json::Value) -> (r: Result<String, String>)
    ensures
        r is Ok <==> pretty_of(*v) is Ok,
        r matches Ok(s) ==> s@ == pretty_of(*v)->Ok_0,
        r matches Err(e) ==> e@ == pretty_of(*v)->Err_0,
{
    match serde_json::to_string_pretty(v) {
        Ok(s) => Ok(s),
        Err(e) => Err(format!("{e}")),
    }
}

/// Renders the response payload for printing.
///
/// Succeeds exactly when the pretty-printer can represent the payload, and
/// then returns exactly its rendering; a payload it cannot represent becomes
/// a serialization error carrying the printer's diagnostic, and nothing
/// else.
pub fn format_msg(v: &serde_json::Value) -> (r: Result<String, crate::error::Error>)
    ensures
        r is Ok <==> pretty_of(*v) is Ok,
        r matches Ok(s) ==> s@ == pretty_of(*v)->Ok_0,
        r matches Err(e) ==> (e matches crate::error::Error::SerdeError(t) && t@ == pretty_of(
            *v,
        )->Err_0),
{
    match value_to_pretty(v) {
        Ok(s) => Ok(s),
        Err(t) => Err(crate::error::Error::SerdeError(t)),
    }
}

} // verus!
