//! The envelope codec: two-phase decoding of a request body.
//!
//! Phase one ([`peek_operation`]) extracts only the routing key
//! `params.operation`, without knowing any operation-specific schema. Phase
//! two ([`decode_envelope`]) runs inside the matched handler adapter: it
//! decodes the full envelope (the `id` and the `params` object) and checks
//! that the embedded operation agrees with the one the dispatcher matched.

use vstd::prelude::*;
use vstd::string::StringExecFns;

use crate::json::{json_of, obj_field, parse_value, value_as_str, value_as_u64, value_get, value_model, JVal};
use crate::text::str_eq;

verus! {

/// The routing key a document carries: the string under `params.operation`,
/// when the document is an object whose `params` field is an object whose
/// `operation` field is a string.
pub open spec fn peeked_operation(doc: JVal) -> Option<Seq<char>> {
    match obj_field(doc, "params"@) {
        Some(params) => match obj_field(params, "operation"@) {
            Some(field) => match field {
                JVal::Str(op) => Some(op),
                _ => None,
            },
            None => None,
        },
        None => None,
    }
}

/// What a full envelope decode yields: the request id (`id`, a JSON number
/// that fits a `u64`), the operation string, and the whole `params` object,
/// whose operation-specific fields stay opaque to the dispatcher.
pub open spec fn envelope_of(doc: JVal) -> Option<(u64, Seq<char>, JVal)> {
    match (obj_field(doc, "id"@), obj_field(doc, "params"@)) {
        (Some(JVal::UInt(id)), Some(params)) => match obj_field(params, "operation"@) {
            Some(field) => match field {
                JVal::Str(op) => Some((id, op, params)),
                _ => None,
            },
            None => None,
        },
        _ => None,
    }
}

/// A document with a full envelope also has a routing key, and the two agree:
/// both read the same `params.operation` field.
pub proof fn lemma_envelope_agrees_with_peek(doc: JVal)
    ensures
        envelope_of(doc) matches Some(env) ==> peeked_operation(doc) == Some(env.1),
{
}

/// Phase one of the two-phase decode: the routing key of `body`, or `None`
/// when the bytes are not valid JSON or do not carry `params.operation` as a
/// string.
pub fn peek_operation(body: &[u8]) -> (r: Option<String>)
    ensures
        match json_of(body@) {
            Some(doc) => match peeked_operation(doc) {
                Some(op) => r matches Some(s) && s@ == op,
                None => r is None,
            },
            None => r is None,
        },
{
    let root = match parse_value(body) {
        None => {
            return None;
        },
        Some(v) => v,
    };
    let params = match value_get(&root, "params") {
        None => {
            return None;
        },
        Some(p) => p,
    };
    let op = match value_get(params, "operation") {
        None => {
            return None;
        },
        Some(o) => o,
    };
    match value_as_str(op) {
        None => None,
        Some(s) => Some(s.to_owned()),
    }
}

/// A fully decoded request envelope.
#[derive(Debug)]
pub struct Envelope {
    /// The request id carried at the top of the envelope.
    pub id: u64,
    /// The `params` object, handed to the matched handler; it still holds
    /// the `operation` field beside the operation-specific fields.
    pub params: serde_json::Value,
}

/// A failure of the full decode, inside the matched handler adapter; both
/// variants surface as handler-level failures, not routing failures.
#[derive(Debug)]
pub enum ExecError {
    /// The body does not hold a full envelope of the expected shape (or, when
    /// the codec is used outside the dispatcher, is not valid JSON at all).
    SchemaMismatch,
    /// The embedded operation string disagrees with the operation the
    /// dispatcher already matched.
    OperationMismatch { expected: String, actual: String },
}

/// The stable message for a body that does not hold a full envelope.
pub open spec fn schema_mismatch_message() -> Seq<char> {
    "Request envelope does not match the expected shape"@
}

/// The stable message for an embedded operation that disagrees with the
/// matched one; it names both strings.
pub open spec fn operation_mismatch_message(expected: Seq<char>, actual: Seq<char>) -> Seq<char> {
    "Operation mismatch: expected `"@ + expected + "`, got `"@ + actual + "`"@
}

/// The stable message of a decode failure.
pub open spec fn spec_exec_error_message(e: ExecError) -> Seq<char> {
    match e {
        ExecError::SchemaMismatch => schema_mismatch_message(),
        ExecError::OperationMismatch { expected, actual } => operation_mismatch_message(
            expected@,
            actual@,
        ),
    }
}

impl ExecError {
    /// Renders the stable, documented message of this failure.
    pub fn message(&self) -> (r: String)
        ensures
            r@ == spec_exec_error_message(*self),
    {
        match self {
            ExecError::SchemaMismatch => "Request envelope does not match the expected shape".to_owned(),
            ExecError::OperationMismatch { expected, actual } => {
                let mut out = "Operation mismatch: expected `".to_owned();
                out.append(expected.as_str());
                out.append("`, got `");
                out.append(actual.as_str());
                out.append("`");
                out
            },
        }
    }
}

/// Phase two of the two-phase decode: the full envelope of `body`, checked
/// against the operation the dispatcher matched.
///
/// Returns the envelope exactly when the body carries one and its embedded
/// operation equals `expected_op`; `SchemaMismatch` when it carries none;
/// `OperationMismatch` (naming both strings) when the embedded operation
/// disagrees.
pub fn decode_envelope(body: &[u8], expected_op: &str) -> (r: Result<Envelope, ExecError>)
    ensures
        match json_of(body@) {
            Some(doc) => match envelope_of(doc) {
                Some(env) => if env.1 == expected_op@ {
                    r matches Ok(e) && e.id == env.0 && value_model(e.params) == env.2
                } else {
                    r matches Err(err) && err matches ExecError::OperationMismatch {
                        expected,
                        actual,
                    } && expected@ == expected_op@ && actual@ == env.1
                },
                None => r matches Err(err) && err is SchemaMismatch,
            },
            None => r matches Err(err) && err is SchemaMismatch,
        },
{
    let root = match parse_value(body) {
        None => {
            return Err(ExecError::SchemaMismatch);
        },
        Some(v) => v,
    };
    let id_field = match value_get(&root, "id") {
        None => {
            return Err(ExecError::SchemaMismatch);
        },
        Some(v) => v,
    };
    let id = match value_as_u64(id_field) {
        None => {
            return Err(ExecError::SchemaMismatch);
        },
        Some(n) => n,
    };
    let params = match value_get(&root, "params") {
        None => {
            return Err(ExecError::SchemaMismatch);
        },
        Some(p) => p,
    };
    let op_field = match value_get(params, "operation") {
        None => {
            return Err(ExecError::SchemaMismatch);
        },
        Some(o) => o,
    };
    let op = match value_as_str(op_field) {
        None => {
            return Err(ExecError::SchemaMismatch);
        },
        Some(s) => s,
    };
    if !str_eq(op, expected_op) {
        return Err(ExecError::OperationMismatch {
            expected: expected_op.to_owned(),
            actual: op.to_owned(),
        });
    }
    Ok(Envelope { id, params: params.clone() })
}

} // verus!
