//! The handler adapter: the boundary where typed business handlers meet the
//! uniform dispatch surface.
//!
//! A connector author implements [`Handler`] for a value of their own; its
//! typed decoding of the operation-specific fields and the structural
//! serialization of its output stay on the author's side of the boundary.
//! [`exec_raw`] is the uniform entry point stored behind the registry: it
//! fully decodes the envelope, verifies the operation consistency, runs the
//! handler, and returns every failure as the `Err` arm — nothing escapes
//! this boundary any other way.

use vstd::prelude::*;

use crate::envelope::{
    decode_envelope, envelope_of, operation_mismatch_message, schema_mismatch_message,
};
use crate::json::json_of;

verus! {

/// The contract a connector author implements: a typed handler taking the
/// request id and the `params` object and returning either a JSON output
/// value or a human-readable error message. A handler is free to return
/// either arm; the dispatcher maps them to `200` and `500`.
pub trait Handler {
    fn invoke(&self, id: u64, params: &serde_json::Value) -> Result<serde_json::Value, String>;
}

/// The uniform entry point for one registered operation: fully decodes the
/// envelope of `body`, verifies that the embedded operation is
/// `expected_op`, and runs the handler on the decoded id and params.
///
/// Every decode failure comes back as the `Err` arm carrying the stable
/// message of the failure; when the envelope decodes and agrees, the result
/// is the handler's own outcome, unchanged.
pub fn exec_raw<H: Handler>(handler: &H, expected_op: &str, body: &[u8]) -> (r: Result<
    serde_json::Value,
    String,
>)
    ensures
        match json_of(body@) {
            Some(doc) => match envelope_of(doc) {
                Some(env) => (env.1 != expected_op@ ==> ({
                    &&& r matches Err(m)
                    &&& m@ == operation_mismatch_message(expected_op@, env.1)
                })),
                None => ({
                    &&& r matches Err(m)
                    &&& m@ == schema_mismatch_message()
                }),
            },
            None => ({
                &&& r matches Err(m)
                &&& m@ == schema_mismatch_message()
            }),
        },
{
    match decode_envelope(body, expected_op) {
        Err(e) => Err(e.message()),
        Ok(env) => handler.invoke(env.id, &env.params),
    }
}

} // verus!
