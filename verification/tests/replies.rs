use jsonrpsee_http_server::envelope::{collect_batch_response, MethodResponse};
use jsonrpsee_http_server::error::ErrorCode;
use jsonrpsee_http_server::ident::Id;
use jsonrpsee_http_server::response::{
    decimal, from_template, host_not_allowed, internal_error, invalid_allow_headers,
    invalid_allow_origin, malformed, method_not_allowed, ok_response, too_large,
    unsupported_content_type, Header, HttpReply,
};

fn answer(text: &str) -> MethodResponse {
    MethodResponse { result: text.to_string(), success: true }
}

fn content_type(reply: &HttpReply) -> &[u8] {
    assert_eq!(reply.headers.len(), 1);
    assert_eq!(reply.headers[0].name, "content-type");
    &reply.headers[0].value
}

#[test]
fn numbers_are_written_in_decimal() {
    assert_eq!(decimal(0), "0");
    assert_eq!(decimal(7), "7");
    assert_eq!(decimal(9), "9");
    assert_eq!(decimal(10), "10");
    assert_eq!(decimal(101), "101");
    assert_eq!(decimal(10485760), "10485760");
    assert_eq!(decimal(u32::MAX), "4294967295");
}

#[test]
fn error_envelopes_carry_code_message_and_id() {
    let cases = [
        (ErrorCode::ParseError, -32700, "Parse error"),
        (ErrorCode::InvalidRequest, -32600, "Invalid request"),
        (ErrorCode::MethodNotFound, -32601, "Method not found"),
        (ErrorCode::InternalError, -32603, "Internal error"),
        (ErrorCode::ServerIsBusy, -32604, "Server is busy, try again later"),
        (ErrorCode::BatchesNotSupported, -32005, "Batched requests are not supported by this server"),
    ];
    for (code, number, message) in cases {
        assert_eq!(code.code(), number);
        assert_eq!(code.message(), message);
        let made = MethodResponse::error(&Id::Number(3), code);
        assert!(!made.success);
        assert_eq!(
            made.result,
            format!(r#"{{"jsonrpc":"2.0","error":{{"code":{},"message":"{}"}},"id":3}}"#, number, message)
        );
    }
    assert_eq!(
        MethodResponse::error(&Id::Str("a\"b".to_string()), ErrorCode::ParseError).result,
        r#"{"jsonrpc":"2.0","error":{"code":-32700,"message":"Parse error"},"id":"a\"b"}"#
    );
    assert_eq!(
        MethodResponse::error(&Id::Null, ErrorCode::ParseError).result,
        r#"{"jsonrpc":"2.0","error":{"code":-32700,"message":"Parse error"},"id":null}"#
    );
}

#[test]
fn custom_error_carries_its_data() {
    let made = MethodResponse::custom_error(&Id::Number(1), -32000, "no", Some("why"));
    assert!(!made.success);
    assert_eq!(made.result, r#"{"jsonrpc":"2.0","error":{"code":-32000,"message":"no","data":"why"},"id":1}"#);
    let made = MethodResponse::custom_error(&Id::Number(1), 5, "no", None);
    assert_eq!(made.result, r#"{"jsonrpc":"2.0","error":{"code":5,"message":"no"},"id":1}"#);
}

#[test]
fn batch_is_joined_in_order() {
    assert_eq!(collect_batch_response(&vec![]), "[]");
    assert_eq!(collect_batch_response(&vec![answer("a")]), "[a]");
    assert_eq!(collect_batch_response(&vec![answer("a"), answer("b")]), "[a,b]");
    assert_eq!(collect_batch_response(&vec![answer("b"), answer(""), answer("a")]), "[b,,a]");
    assert_eq!(
        collect_batch_response(&vec![answer(r#"{"id":1}"#), answer(r#"{"id":2}"#), answer(r#"{"id":3}"#)]),
        r#"[{"id":1},{"id":2},{"id":3}]"#
    );
}

#[test]
fn template_sets_status_body_and_content_type() {
    let reply = from_template(418, "tea".to_string(), "text/plain");
    assert_eq!(
        reply,
        HttpReply {
            status: 418,
            headers: vec![Header { name: "content-type".to_string(), value: b"text/plain".to_vec() }],
            body: "tea".to_string(),
        }
    );
}

#[test]
fn replies_have_their_status_and_body() {
    let json: &[u8] = b"application/json; charset=utf-8";
    let text: &[u8] = b"text/plain";

    let reply = ok_response("[1]".to_string());
    assert_eq!((reply.status, reply.body.as_str(), content_type(&reply)), (200, "[1]", json));

    let reply = internal_error();
    assert_eq!(reply.status, 500);
    assert_eq!(reply.body, r#"{"jsonrpc":"2.0","error":{"code":-32603,"message":"Internal error"},"id":null}"#);
    assert_eq!(content_type(&reply), json);

    let reply = malformed();
    assert_eq!(reply.status, 400);
    assert_eq!(reply.body, r#"{"jsonrpc":"2.0","error":{"code":-32700,"message":"Parse error"},"id":null}"#);
    assert_eq!(content_type(&reply), json);

    let reply = too_large(10485760);
    assert_eq!(reply.status, 413);
    assert_eq!(
        reply.body,
        r#"{"jsonrpc":"2.0","error":{"code":-32701,"message":"Request is too big","data":"Exceeded max limit of 10485760"},"id":null}"#
    );
    assert_eq!(content_type(&reply), json);
    assert_eq!(
        too_large(0).body,
        r#"{"jsonrpc":"2.0","error":{"code":-32701,"message":"Request is too big","data":"Exceeded max limit of 0"},"id":null}"#
    );

    let reply = host_not_allowed();
    assert_eq!((reply.status, content_type(&reply)), (403, text));
    let origin = invalid_allow_origin();
    assert_eq!((origin.status, content_type(&origin)), (403, text));
    let headers = invalid_allow_headers();
    assert_eq!((headers.status, content_type(&headers)), (403, text));
    assert_ne!(reply.body, origin.body);
    assert_ne!(reply.body, headers.body);
    assert_ne!(origin.body, headers.body);

    let reply = method_not_allowed();
    assert_eq!((reply.status, content_type(&reply)), (405, text));
    let reply = unsupported_content_type();
    assert_eq!((reply.status, content_type(&reply)), (415, text));
}
