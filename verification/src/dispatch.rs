//! The dispatcher: the single entry point that routes one request.
//!
//! [`prepare`] performs every decision of the per-request state machine that
//! does not involve running the handler itself: it peeks the routing key,
//! looks the key up in the frozen table, fully decodes the envelope, and
//! either answers the request outright or hands back the matched `invoke`
//! reference together with the decoded envelope. The caller then runs the
//! handler (which may suspend) and maps its outcome with [`respond`].

use vstd::prelude::*;
use vstd::string::StringExecFns;

use crate::adapter::{exec_raw, Handler};
use crate::envelope::{
    decode_envelope, envelope_of, lemma_envelope_agrees_with_peek, peek_operation, peeked_operation,
    schema_mismatch_message,
};
use crate::json::{json_of, value_model};
use crate::registry::Table;

verus! {

/// The body of a terminal HTTP response: the handler's JSON output on
/// success, a plain-text reason otherwise.
#[derive(Debug)]
pub enum ResponseBody {
    Json(serde_json::Value),
    Text(String),
}

/// A terminal HTTP response: the dispatcher answers every request with one
/// of `200` (handler output), `400` (routing failure) or `500`
/// (handler-level failure).
#[derive(Debug)]
pub struct Response {
    pub status: u16,
    pub body: ResponseBody,
}

/// The fixed diagnostic for a body that fails the peek decode.
pub open spec fn malformed_envelope_message() -> Seq<char> {
    "Invalid JSON envelope"@
}

/// The diagnostic for a routing key with no registered handler; it names the
/// requested operation.
pub open spec fn unsupported_operation_message(op: Seq<char>) -> Seq<char> {
    "Unsupported operation `"@ + op + "`"@
}

/// Law: the "unsupported operation" message contains the requested operation
/// name, directly after the opening backtick.
pub proof fn lemma_unsupported_message_contains_operation(op: Seq<char>)
    ensures
        unsupported_operation_message(op).len() == op.len() + 24,
        unsupported_operation_message(op).subrange(23, 23 + op.len() as int) == op,
{
    reveal_strlit("Unsupported operation `");
    reveal_strlit("`");
    assert(unsupported_operation_message(op).subrange(23, 23 + op.len() as int) =~= op);
}

fn unsupported_operation_text(op: &str) -> (r: String)
    ensures
        r@ == unsupported_operation_message(op@),
{
    let mut out = "Unsupported operation `".to_owned();
    out.append(op);
    out.append("`");
    out
}

/// What `prepare` hands back: either the request was answered without
/// reaching a handler, or the handler identified by the routing key must now
/// be invoked on the decoded envelope.
pub enum Prepared<'a, H> {
    /// Call the matched `invoke` reference with the decoded id and params.
    Invoke { invoke: &'a H, id: u64, params: serde_json::Value },
    /// The request is already answered.
    Done(Response),
}

/// Every dispatch decision up to (not including) running the handler.
///
/// - body fails the peek decode: `400` with the fixed diagnostic — never
///   `500` for a malformed body;
/// - no handler registered under `(name, params.operation)`: `400` naming
///   the operation;
/// - matched, but the full decode fails: `500` with the stable
///   `SchemaMismatch` message (an internal contract violation of an already
///   identified handler; an operation mismatch cannot arise here, since the
///   peek and the full decode read the same field of the same bytes);
/// - matched and decoded: the registered `invoke` reference and the envelope.
pub fn prepare<'a, H>(table: &'a Table<H>, name: &str, body: &[u8]) -> (r: Prepared<'a, H>)
    ensures
        match json_of(body@) {
            None => ({
                &&& r matches Prepared::Done(resp)
                &&& resp.status == 400
                &&& resp.body matches ResponseBody::Text(m)
                &&& m@ == malformed_envelope_message()
            }),
            Some(doc) => match peeked_operation(doc) {
                None => ({
                    &&& r matches Prepared::Done(resp)
                    &&& resp.status == 400
                    &&& resp.body matches ResponseBody::Text(m)
                    &&& m@ == malformed_envelope_message()
                }),
                Some(op) => if !table@.contains_key((name@, op)) {
                    &&& r matches Prepared::Done(resp)
                    &&& resp.status == 400
                    &&& resp.body matches ResponseBody::Text(m)
                    &&& m@ == unsupported_operation_message(op)
                } else {
                    match envelope_of(doc) {
                        None => ({
                            &&& r matches Prepared::Done(resp)
                            &&& resp.status == 500
                            &&& resp.body matches ResponseBody::Text(m)
                            &&& m@ == schema_mismatch_message()
                        }),
                        Some(env) => ({
                            &&& r matches Prepared::Invoke { invoke, id, params }
                            &&& *invoke == table@[(name@, op)]
                            &&& id == env.0
                            &&& value_model(params) == env.2
                        }),
                    }
                },
            },
        },
{
    let op = match peek_operation(body) {
        None => {
            return Prepared::Done(
                Response { status: 400, body: ResponseBody::Text("Invalid JSON envelope".to_owned()) },
            );
        },
        Some(op) => op,
    };
    let invoke = match table.lookup(name, op.as_str()) {
        None => {
            return Prepared::Done(
                Response {
                    status: 400,
                    body: ResponseBody::Text(unsupported_operation_text(op.as_str())),
                },
            );
        },
        Some(h) => h,
    };
    proof {
        lemma_envelope_agrees_with_peek(json_of(body@)->Some_0);
    }
    match decode_envelope(body, op.as_str()) {
        Ok(env) => Prepared::Invoke { invoke, id: env.id, params: env.params },
        Err(e) => Prepared::Done(Response { status: 500, body: ResponseBody::Text(e.message()) }),
    }
}

/// The whole per-request state machine, for a handler that does not
/// suspend: peeks the routing key, looks it up in the frozen table, runs the
/// matched adapter on the body, and maps the outcome to the terminal
/// response. (A handler that suspends is driven through [`prepare`] and
/// [`respond`] instead, with the invocation between them.)
///
/// The routing decisions are pinned exactly, as in [`prepare`]; once a
/// matched envelope decodes, the response is the handler's: `200` with a
/// JSON body for its `Ok`, `500` with a text body for its `Err`.
pub fn dispatch<H: Handler>(table: &Table<H>, name: &str, body: &[u8]) -> (r: Response)
    ensures
        match json_of(body@) {
            None => ({
                &&& r.status == 400
                &&& r.body matches ResponseBody::Text(m)
                &&& m@ == malformed_envelope_message()
            }),
            Some(doc) => match peeked_operation(doc) {
                None => ({
                    &&& r.status == 400
                    &&& r.body matches ResponseBody::Text(m)
                    &&& m@ == malformed_envelope_message()
                }),
                Some(op) => if !table@.contains_key((name@, op)) {
                    &&& r.status == 400
                    &&& r.body matches ResponseBody::Text(m)
                    &&& m@ == unsupported_operation_message(op)
                } else {
                    match envelope_of(doc) {
                        None => ({
                            &&& r.status == 500
                            &&& r.body matches ResponseBody::Text(m)
                            &&& m@ == schema_mismatch_message()
                        }),
                        Some(env) => (r.status == 200 && r.body is Json) || (r.status == 500
                            && r.body is Text),
                    }
                },
            },
        },
{
    let op = match peek_operation(body) {
        None => {
            return Response {
                status: 400,
                body: ResponseBody::Text("Invalid JSON envelope".to_owned()),
            };
        },
        Some(op) => op,
    };
    let invoke = match table.lookup(name, op.as_str()) {
        None => {
            return Response {
                status: 400,
                body: ResponseBody::Text(unsupported_operation_text(op.as_str())),
            };
        },
        Some(h) => h,
    };
    proof {
        lemma_envelope_agrees_with_peek(json_of(body@)->Some_0);
    }
    respond(exec_raw(invoke, op.as_str(), body))
}

/// Maps a handler outcome to the terminal response: a successful output
/// becomes the `200` JSON body, unchanged; an error message becomes the
/// `500` body, unchanged. No other failure escapes a handler: the adapter
/// contract turns every handler-level failure into the `Err` arm.
pub fn respond(outcome: Result<serde_json::Value, String>) -> (r: Response)
    ensures
        outcome matches Ok(v) ==> ({
            &&& r.status == 200
            &&& r.body matches ResponseBody::Json(b)
            &&& b == v
        }),
        outcome matches Err(m) ==> ({
            &&& r.status == 500
            &&& r.body matches ResponseBody::Text(t)
            &&& t == m
        }),
{
    match outcome {
        Ok(v) => Response { status: 200, body: ResponseBody::Json(v) },
        Err(m) => Response { status: 500, body: ResponseBody::Text(m) },
    }
}

} // verus!

