use connector_rpc::envelope::{decode_envelope, peek_operation, ExecError};

#[test]
fn peek_extracts_the_routing_key() {
    let body = br#"{"id":1,"params":{"operation":"add","a":3,"b":4}}"#;
    assert_eq!(peek_operation(body), Some("add".to_string()));
}

#[test]
fn peek_needs_no_operation_specific_schema() {
    let body = br#"{"params":{"operation":"frob","payload":{"deeply":["nested",{"x":null}]}}}"#;
    assert_eq!(peek_operation(body), Some("frob".to_string()));
}

#[test]
fn peek_rejects_invalid_json() {
    assert_eq!(peek_operation(b"{not json"), None);
    assert_eq!(peek_operation(b""), None);
}

#[test]
fn peek_rejects_missing_routing_field() {
    assert_eq!(peek_operation(br#"{"id":1}"#), None);
    assert_eq!(peek_operation(br#"{"id":1,"params":{}}"#), None);
    assert_eq!(peek_operation(br#"{"id":1,"params":{"operation":7}}"#), None);
    assert_eq!(peek_operation(br#"{"id":1,"params":[]}"#), None);
    assert_eq!(peek_operation(br#"[1,2,3]"#), None);
}

#[test]
fn decode_returns_id_and_params() {
    let body = br#"{"id":9,"params":{"operation":"add","a":3,"b":4}}"#;
    let envelope = decode_envelope(body, "add").expect("a well-formed envelope decodes");
    assert_eq!(envelope.id, 9);
    let expected: serde_json::Value =
        serde_json::from_str(r#"{"operation":"add","a":3,"b":4}"#).unwrap();
    assert_eq!(envelope.params, expected);
}

#[test]
fn decode_rejects_missing_or_unusable_id() {
    let schema_failures: [&[u8]; 5] = [
        br#"{"params":{"operation":"add"}}"#,
        br#"{"id":-1,"params":{"operation":"add"}}"#,
        br#"{"id":1.5,"params":{"operation":"add"}}"#,
        br#"{"id":"1","params":{"operation":"add"}}"#,
        b"{not json",
    ];
    for body in schema_failures {
        match decode_envelope(body, "add") {
            Err(ExecError::SchemaMismatch) => {},
            other => panic!("expected a schema mismatch, got {:?}", other),
        }
    }
}

#[test]
fn decode_accepts_the_largest_id_and_rejects_one_past_it() {
    let body = br#"{"id":18446744073709551615,"params":{"operation":"add"}}"#;
    let envelope = decode_envelope(body, "add").expect("u64::MAX fits the id");
    assert_eq!(envelope.id, u64::MAX);
    let too_big = br#"{"id":18446744073709551616,"params":{"operation":"add"}}"#;
    assert!(matches!(decode_envelope(too_big, "add"), Err(ExecError::SchemaMismatch)));
}

#[test]
fn decode_checks_operation_consistency() {
    let body = br#"{"id":1,"params":{"operation":"sub","a":3,"b":4}}"#;
    match decode_envelope(body, "add") {
        Err(ExecError::OperationMismatch { expected, actual }) => {
            assert_eq!(expected, "add");
            assert_eq!(actual, "sub");
        },
        other => panic!("expected an operation mismatch, got {:?}", other),
    }
}

#[test]
fn exec_error_messages_are_stable() {
    assert_eq!(
        ExecError::SchemaMismatch.message(),
        "Request envelope does not match the expected shape"
    );
    let mismatch = ExecError::OperationMismatch {
        expected: "add".to_string(),
        actual: "sub".to_string(),
    };
    assert_eq!(mismatch.message(), "Operation mismatch: expected `add`, got `sub`");
}
