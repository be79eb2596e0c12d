use jsonrpsee_core::server::rpc_module::{MethodKind, Methods, RpcModule};
use jsonrpsee_http_server::envelope::MethodResponse;
use jsonrpsee_http_server::error::ErrorCode;
use jsonrpsee_http_server::ident::Id;
use jsonrpsee_http_server::processor::{
    dispatch, execute_call, resolve, run_claimed, AsyncCall, BodyOutcome, Plan, Progress, Started,
};
use jsonrpsee_http_server::registry::MethodKind as Kind;
use jsonrpsee_http_server::request::Request;
use jsonrpsee_http_server::response::HttpReply;
use jsonrpsee_http_server::server::{Builder, Service};

const JSON: &[u8] = b"application/json; charset=utf-8";

fn module() -> RpcModule<()> {
    let mut module = RpcModule::new(());
    module.register_method("echo", |params, _| params.one::<String>().map_err(Into::into)).unwrap();
    module.register_method("answer", |_, _| Ok(42u64)).unwrap();
    module
        .register_async_method("later", |params, _| async move {
            params.one::<u64>().map(|n| n + 1).map_err(Into::into)
        })
        .unwrap();
    module
        .register_subscription("subscribe", "event", "unsubscribe", |_, _, _| Ok(()))
        .unwrap();
    module
}

fn service() -> Service<()> {
    Builder::new().build().start(module().into()).unwrap()
}

fn read(body: &str) -> BodyOutcome {
    let single = body.trim_start().starts_with('{');
    BodyOutcome::Read { body: body.as_bytes().to_vec(), single }
}

fn reply_of(progress: Progress<jsonrpsee_http_server::middleware::Unmeasured>) -> HttpReply {
    match progress {
        Progress::Reply(reply) => reply,
        Progress::Waiting(_, pending) => panic!("{} calls still wait", pending.len()),
    }
}

fn body_of(service: &Service<()>, body: &str) -> String {
    let reply = reply_of(service.process(read(body)));
    assert_eq!(reply.status, 200);
    assert_eq!(reply.headers.len(), 1);
    assert_eq!(reply.headers[0].name, "content-type");
    assert_eq!(reply.headers[0].value, JSON);
    reply.body
}

fn run(methods: &Methods, call: AsyncCall) -> (String, MethodResponse) {
    let id = match &call.id {
        Id::Null => jsonrpsee_types::Id::Null,
        Id::Number(n) => jsonrpsee_types::Id::Number(*n),
        Id::Str(s) => jsonrpsee_types::Id::Str(s.clone().into()),
    };
    let params = jsonrpsee_types::Params::new(call.params.as_deref()).into_owned();
    let handler = match methods.method(&call.method).map(|m| m.inner()) {
        Some(MethodKind::Async(handler)) => handler.clone(),
        _ => panic!("not an asynchronous method"),
    };
    let runtime = tokio::runtime::Builder::new_current_thread().build().unwrap();
    let answer = runtime.block_on((handler)(id.into_owned(), params, 0, usize::MAX, call.guard));
    (call.method, MethodResponse { result: answer.result, success: answer.success })
}

#[test]
fn single_call_is_answered_under_its_id() {
    let service = service();
    assert_eq!(
        body_of(&service, r#"{"jsonrpc":"2.0","method":"echo","params":["hi"],"id":7}"#),
        r#"{"jsonrpc":"2.0","result":"hi","id":7}"#
    );
}

#[test]
fn id_keeps_its_type() {
    let service = service();
    assert_eq!(
        body_of(&service, r#"{"jsonrpc":"2.0","method":"answer","id":"7"}"#),
        r#"{"jsonrpc":"2.0","result":42,"id":"7"}"#
    );
    assert_eq!(
        body_of(&service, r#"{"jsonrpc":"2.0","method":"answer","id":null}"#),
        r#"{"jsonrpc":"2.0","result":42,"id":null}"#
    );
    assert_eq!(
        body_of(&service, r#"{"jsonrpc":"2.0","method":"nope","id":"abc"}"#),
        r#"{"jsonrpc":"2.0","error":{"code":-32601,"message":"Method not found"},"id":"abc"}"#
    );
}

#[test]
fn notification_has_no_response_body() {
    let service = service();
    assert_eq!(body_of(&service, r#"{"jsonrpc":"2.0","method":"ping"}"#), "");
    assert_eq!(body_of(&service, r#"{"jsonrpc":"2.0","method":"echo","params":["x"]}"#), "");
}

#[test]
fn batch_of_two_calls_has_two_envelopes() {
    let service = service();
    assert_eq!(
        body_of(
            &service,
            r#"[{"jsonrpc":"2.0","method":"answer","id":1},{"jsonrpc":"2.0","method":"echo","params":["b"],"id":2}]"#
        ),
        r#"[{"jsonrpc":"2.0","result":42,"id":1},{"jsonrpc":"2.0","result":"b","id":2}]"#
    );
}

#[test]
fn batch_of_one_call_is_an_array() {
    let service = service();
    assert_eq!(
        body_of(&service, r#"[{"jsonrpc":"2.0","method":"answer","id":1}]"#),
        r#"[{"jsonrpc":"2.0","result":42,"id":1}]"#
    );
}

#[test]
fn notifications_in_a_batch_are_not_answered() {
    let service = service();
    assert_eq!(
        body_of(
            &service,
            r#"[{"jsonrpc":"2.0","method":"ping"},{"jsonrpc":"2.0","method":"answer","id":1},{"jsonrpc":"2.0","method":"pong"},{"jsonrpc":"2.0","method":"nope","id":2}]"#
        ),
        r#"[{"jsonrpc":"2.0","result":42,"id":1},{"jsonrpc":"2.0","error":{"code":-32601,"message":"Method not found"},"id":2}]"#
    );
}

#[test]
fn batch_of_notifications_has_no_response_body() {
    let service = service();
    assert_eq!(
        body_of(&service, r#"[{"jsonrpc":"2.0","method":"ping"},{"jsonrpc":"2.0","method":"pong"}]"#),
        ""
    );
}

#[test]
fn empty_batch_is_an_invalid_request() {
    let service = service();
    assert_eq!(
        body_of(&service, "[]"),
        r#"{"jsonrpc":"2.0","error":{"code":-32600,"message":"Invalid request"},"id":null}"#
    );
}

#[test]
fn empty_batch_is_an_invalid_request_with_batches_off() {
    let service = Builder::new().batch_requests_supported(false).build().start(module().into()).unwrap();
    assert_eq!(
        body_of(&service, "[]"),
        r#"{"jsonrpc":"2.0","error":{"code":-32600,"message":"Invalid request"},"id":null}"#
    );
}

#[test]
fn text_that_is_no_json_is_a_parse_error() {
    let service = service();
    let expected = r#"{"jsonrpc":"2.0","error":{"code":-32700,"message":"Parse error"},"id":null}"#;
    assert_eq!(reply_of(service.process(BodyOutcome::Read { body: b"not-json".to_vec(), single: false })).body, expected);
    assert_eq!(reply_of(service.process(BodyOutcome::Read { body: b"not-json".to_vec(), single: true })).body, expected);
    assert_eq!(body_of(&service, r#"{"jsonrpc":"2.0","method":"echo","id":1"#), expected);
}

#[test]
fn object_that_is_no_request_is_rejected_under_its_id() {
    let service = service();
    assert_eq!(
        body_of(&service, r#"{"jsonrpc":"2.0","id":5}"#),
        r#"{"jsonrpc":"2.0","error":{"code":-32600,"message":"Invalid request"},"id":5}"#
    );
    assert_eq!(
        body_of(&service, r#"{"jsonrpc":"1.0","method":"echo","id":"x"}"#),
        r#"{"jsonrpc":"2.0","error":{"code":-32600,"message":"Invalid request"},"id":"x"}"#
    );
}

#[test]
fn batch_with_an_element_that_is_no_request_is_rejected_whole() {
    let service = service();
    assert_eq!(
        body_of(&service, r#"[{"jsonrpc":"2.0","method":"answer","id":1},3]"#),
        r#"{"jsonrpc":"2.0","error":{"code":-32700,"message":"Parse error"},"id":null}"#
    );
}

#[test]
fn oversized_body_is_refused_with_the_limit() {
    let service = Builder::new().max_request_body_size(100).build().start(module().into()).unwrap();
    let reply = reply_of(service.process(BodyOutcome::TooLarge));
    assert_eq!(reply.status, 413);
    assert_eq!(
        reply.body,
        r#"{"jsonrpc":"2.0","error":{"code":-32701,"message":"Request is too big","data":"Exceeded max limit of 100"},"id":null}"#
    );
}

#[test]
fn unreadable_body_is_malformed() {
    let service = service();
    let reply = reply_of(service.process(BodyOutcome::Malformed));
    assert_eq!(reply.status, 400);
    assert_eq!(reply.body, r#"{"jsonrpc":"2.0","error":{"code":-32700,"message":"Parse error"},"id":null}"#);
}

#[test]
fn failed_transport_is_an_internal_error() {
    let service = service();
    let reply = reply_of(service.process(BodyOutcome::Transport));
    assert_eq!(reply.status, 500);
    assert_eq!(reply.body, r#"{"jsonrpc":"2.0","error":{"code":-32603,"message":"Internal error"},"id":null}"#);
}

#[test]
fn unknown_method_is_not_found() {
    let service = service();
    assert_eq!(
        body_of(&service, r#"{"jsonrpc":"2.0","method":"nope","id":9}"#),
        r#"{"jsonrpc":"2.0","error":{"code":-32601,"message":"Method not found"},"id":9}"#
    );
}

#[test]
fn batch_is_refused_with_batches_off() {
    let service = Builder::new().batch_requests_supported(false).build().start(module().into()).unwrap();
    assert_eq!(
        body_of(&service, r#"[{"jsonrpc":"2.0","method":"answer","id":1},{"jsonrpc":"2.0","method":"answer","id":2}]"#),
        r#"{"jsonrpc":"2.0","error":{"code":-32005,"message":"Batched requests are not supported by this server"},"id":null}"#
    );
    assert_eq!(
        body_of(&service, r#"{"jsonrpc":"2.0","method":"answer","id":1}"#),
        r#"{"jsonrpc":"2.0","result":42,"id":1}"#
    );
}

#[test]
fn subscription_is_an_internal_error() {
    let service = service();
    assert_eq!(
        body_of(&service, r#"{"jsonrpc":"2.0","method":"subscribe","id":3}"#),
        r#"{"jsonrpc":"2.0","error":{"code":-32603,"message":"Internal error"},"id":3}"#
    );
    assert_eq!(
        body_of(&service, r#"{"jsonrpc":"2.0","method":"unsubscribe","id":"s"}"#),
        r#"{"jsonrpc":"2.0","error":{"code":-32603,"message":"Internal error"},"id":"s"}"#
    );
}

#[test]
fn asynchronous_call_waits_for_its_handler() {
    let service = service();
    let progress = service.process(read(r#"{"jsonrpc":"2.0","method":"later","params":[41],"id":4}"#));
    let (exchange, mut pending) = match progress {
        Progress::Waiting(exchange, pending) => (exchange, pending),
        Progress::Reply(reply) => panic!("answered at once: {:?}", reply),
    };
    assert_eq!(pending.len(), 1);
    assert_eq!(exchange.outstanding(), 1);
    let exchange = match exchange.finish(&()) {
        Err(exchange) => exchange,
        Ok(reply) => panic!("replied too early: {:?}", reply),
    };
    let call = pending.pop().unwrap();
    assert_eq!(call.id, Id::Number(4));
    assert_eq!(call.method, "later");
    assert_eq!(call.params.as_deref(), Some("[41]"));
    let (method, answer) = run(&service.methods, call);
    let exchange = exchange.complete(&(), &method, answer);
    assert_eq!(exchange.outstanding(), 0);
    let reply = exchange.finish(&()).ok().unwrap();
    assert_eq!(reply.status, 200);
    assert_eq!(reply.body, r#"{"jsonrpc":"2.0","result":42,"id":4}"#);
}

#[test]
fn batch_collects_answers_as_they_come() {
    let service = service();
    let progress = service.process(read(
        r#"[{"jsonrpc":"2.0","method":"later","params":[1],"id":1},{"jsonrpc":"2.0","method":"answer","id":2},{"jsonrpc":"2.0","method":"later","params":[2],"id":3}]"#,
    ));
    let (mut exchange, pending) = match progress {
        Progress::Waiting(exchange, pending) => (exchange, pending),
        Progress::Reply(reply) => panic!("answered at once: {:?}", reply),
    };
    assert_eq!(pending.len(), 2);
    assert_eq!(exchange.outstanding(), 2);
    for call in pending.into_iter().rev() {
        let (method, answer) = run(&service.methods, call);
        exchange = exchange.complete(&(), &method, answer);
    }
    let reply = exchange.finish(&()).ok().unwrap();
    assert_eq!(
        reply.body,
        r#"[{"jsonrpc":"2.0","result":42,"id":2},{"jsonrpc":"2.0","result":3,"id":3},{"jsonrpc":"2.0","result":2,"id":1}]"#
    );
}

#[test]
fn answer_that_is_not_awaited_changes_nothing() {
    let service = service();
    let progress = service.process(read(r#"{"jsonrpc":"2.0","method":"later","params":[1],"id":1}"#));
    let (exchange, mut pending) = match progress {
        Progress::Waiting(exchange, pending) => (exchange, pending),
        Progress::Reply(reply) => panic!("answered at once: {:?}", reply),
    };
    let (method, answer) = run(&service.methods, pending.pop().unwrap());
    let exchange = exchange.complete(&(), &method, answer);
    let extra = MethodResponse { result: "extra".to_string(), success: true };
    let exchange = exchange.complete(&(), &method, extra);
    assert_eq!(exchange.outstanding(), 0);
    assert_eq!(exchange.finish(&()).ok().unwrap().body, r#"{"jsonrpc":"2.0","result":2,"id":1}"#);
}

fn limited() -> Service<()> {
    let mut module = RpcModule::new(());
    module.register_method("work", |_, _| Ok("done")).unwrap().resource("cpu", 2).unwrap();
    module
        .register_async_method("slow", |_, _| async move { Ok("done") })
        .unwrap()
        .resource("cpu", 3)
        .unwrap();
    Builder::new().register_resource("cpu", 3, 1).unwrap().build().start(module.into()).unwrap()
}

#[test]
fn call_is_refused_while_resources_are_claimed() {
    let service = limited();
    let held = service.methods.method("work").unwrap().claim("work", &service.resources).unwrap();
    assert_eq!(
        body_of(&service, r#"{"jsonrpc":"2.0","method":"work","id":1}"#),
        r#"{"jsonrpc":"2.0","error":{"code":-32604,"message":"Server is busy, try again later"},"id":1}"#
    );
    assert_eq!(
        body_of(&service, r#"{"jsonrpc":"2.0","method":"slow","id":"a"}"#),
        r#"{"jsonrpc":"2.0","error":{"code":-32604,"message":"Server is busy, try again later"},"id":"a"}"#
    );
    drop(held);
    assert_eq!(
        body_of(&service, r#"{"jsonrpc":"2.0","method":"work","id":1}"#),
        r#"{"jsonrpc":"2.0","result":"done","id":1}"#
    );
}

#[test]
fn synchronous_call_gives_its_resources_back() {
    let service = limited();
    for _ in 0..5 {
        assert_eq!(
            body_of(&service, r#"{"jsonrpc":"2.0","method":"work","id":1}"#),
            r#"{"jsonrpc":"2.0","result":"done","id":1}"#
        );
    }
}

#[test]
fn waiting_call_holds_its_resources() {
    let service = limited();
    let progress = service.process(read(r#"{"jsonrpc":"2.0","method":"slow","id":1}"#));
    let (exchange, mut pending) = match progress {
        Progress::Waiting(exchange, pending) => (exchange, pending),
        Progress::Reply(reply) => panic!("answered at once: {:?}", reply),
    };
    assert!(pending[0].guard.is_some());
    assert_eq!(
        body_of(&service, r#"{"jsonrpc":"2.0","method":"work","id":2}"#),
        r#"{"jsonrpc":"2.0","error":{"code":-32604,"message":"Server is busy, try again later"},"id":2}"#
    );
    let (method, answer) = run(&service.methods, pending.pop().unwrap());
    let reply = exchange.complete(&(), &method, answer).finish(&()).ok().unwrap();
    assert_eq!(reply.body, r#"{"jsonrpc":"2.0","result":"done","id":1}"#);
    assert_eq!(
        body_of(&service, r#"{"jsonrpc":"2.0","method":"work","id":2}"#),
        r#"{"jsonrpc":"2.0","result":"done","id":2}"#
    );
}

#[test]
fn second_call_of_a_batch_is_refused_while_the_first_waits() {
    let service = limited();
    let progress = service.process(read(
        r#"[{"jsonrpc":"2.0","method":"slow","id":1},{"jsonrpc":"2.0","method":"slow","id":2}]"#,
    ));
    let (exchange, mut pending) = match progress {
        Progress::Waiting(exchange, pending) => (exchange, pending),
        Progress::Reply(reply) => panic!("answered at once: {:?}", reply),
    };
    assert_eq!(pending.len(), 1);
    let (method, answer) = run(&service.methods, pending.pop().unwrap());
    let reply = exchange.complete(&(), &method, answer).finish(&()).ok().unwrap();
    assert_eq!(
        reply.body,
        r#"[{"jsonrpc":"2.0","error":{"code":-32604,"message":"Server is busy, try again later"},"id":2},{"jsonrpc":"2.0","result":"done","id":1}]"#
    );
}

#[test]
fn equal_calls_of_a_pure_method_have_equal_results() {
    let service = service();
    let body = r#"{"jsonrpc":"2.0","method":"echo","params":["again"],"id":1}"#;
    let first = body_of(&service, body);
    let second = body_of(&service, body);
    assert_eq!(first, second);
    assert_eq!(first, r#"{"jsonrpc":"2.0","result":"again","id":1}"#);
}

#[test]
fn answer_longer_than_the_limit_is_replaced() {
    let service = Builder::new().max_response_body_size(50).build().start(module().into()).unwrap();
    assert_eq!(
        body_of(&service, r#"{"jsonrpc":"2.0","method":"echo","params":["0123456789012345678901234567890123456789"],"id":1}"#),
        r#"{"jsonrpc":"2.0","error":{"code":-32702,"message":"Response is too big","data":"Exceeded max limit of 50"},"id":1}"#
    );
}

#[test]
fn plan_follows_kind_and_claim() {
    assert_eq!(resolve(None, false), Plan::Answer(ErrorCode::MethodNotFound));
    assert_eq!(resolve(None, true), Plan::Answer(ErrorCode::MethodNotFound));
    assert_eq!(resolve(Some(Kind::Sync), true), Plan::RunSync);
    assert_eq!(resolve(Some(Kind::Sync), false), Plan::Answer(ErrorCode::ServerIsBusy));
    assert_eq!(resolve(Some(Kind::Async), true), Plan::RunAsync);
    assert_eq!(resolve(Some(Kind::Async), false), Plan::Answer(ErrorCode::ServerIsBusy));
    assert_eq!(resolve(Some(Kind::Subscription), true), Plan::Answer(ErrorCode::InternalError));
    assert_eq!(resolve(Some(Kind::Unsubscription), false), Plan::Answer(ErrorCode::InternalError));
}

#[test]
fn dispatch_of_one_call() {
    let service = service();
    let call = Request { id: Id::Str("k".to_string()), method: "echo".to_string(), params: Some("[\"v\"]".to_string()) };
    match execute_call(call, &service.methods, &service.resources, 1024) {
        Started::Done(answer) => {
            assert!(answer.success);
            assert_eq!(answer.result, r#"{"jsonrpc":"2.0","result":"v","id":"k"}"#);
        }
        Started::Pending(call) => panic!("waits: {:?}", call),
    }
    let call = Request { id: Id::Null, method: "later".to_string(), params: None };
    match execute_call(call, &service.methods, &service.resources, 1024) {
        Started::Pending(call) => {
            assert_eq!(call.id, Id::Null);
            assert_eq!(call.method, "later");
            assert_eq!(call.params, None);
        }
        Started::Done(answer) => panic!("answered: {:?}", answer),
    }
    let call = Request { id: Id::Number(1), method: "missing".to_string(), params: None };
    match execute_call(call, &service.methods, &service.resources, 1024) {
        Started::Done(answer) => {
            assert!(!answer.success);
            assert_eq!(answer, MethodResponse::error(&Id::Number(1), ErrorCode::MethodNotFound));
        }
        Started::Pending(call) => panic!("waits: {:?}", call),
    }
}

#[test]
fn call_that_claims_more_than_the_server_has_is_never_run() {
    let mut module = RpcModule::new(());
    module.register_method("greedy", |_, _| Ok("ran")).unwrap().resource("cpu", 5).unwrap();
    module
        .register_async_method("greedy_later", |_, _| async move { Ok("ran") })
        .unwrap()
        .resource("cpu", 5)
        .unwrap();
    let mut resources = jsonrpsee_core::server::resource_limiting::Resources::default();
    resources.register("cpu", 4, 0).unwrap();
    let methods = Methods::from(module).initialize_resources(&resources).unwrap();
    for name in ["greedy", "greedy_later"] {
        let call = Request { id: Id::Number(8), method: name.to_string(), params: None };
        match execute_call(call, &methods, &resources, 1024) {
            Started::Done(answer) => {
                assert_eq!(answer, MethodResponse::error(&Id::Number(8), ErrorCode::ServerIsBusy));
            }
            Started::Pending(call) => panic!("waits: {:?}", call),
        }
    }
}

#[test]
fn claimed_call_is_run_and_unclaimed_call_is_busy() {
    let service = limited();
    let work = service.methods.method("work").unwrap();
    let call = Request { id: Id::Number(1), method: "work".to_string(), params: None };
    match run_claimed(call.clone(), work, None, 1024) {
        Started::Done(answer) => {
            assert_eq!(answer, MethodResponse::error(&Id::Number(1), ErrorCode::ServerIsBusy));
        }
        Started::Pending(call) => panic!("waits: {:?}", call),
    }
    let guard = work.claim("work", &service.resources).unwrap();
    match run_claimed(call, work, Some(guard), 1024) {
        Started::Done(answer) => {
            assert!(answer.success);
            assert_eq!(answer.result, r#"{"jsonrpc":"2.0","result":"done","id":1}"#);
        }
        Started::Pending(call) => panic!("waits: {:?}", call),
    }
    assert!(work.claim("work", &service.resources).is_ok());

    let slow = service.methods.method("slow").unwrap();
    let call = Request { id: Id::Str("s".to_string()), method: "slow".to_string(), params: Some("[]".to_string()) };
    match run_claimed(call.clone(), slow, None, 1024) {
        Started::Done(answer) => {
            assert_eq!(answer, MethodResponse::error(&Id::Str("s".to_string()), ErrorCode::ServerIsBusy));
        }
        Started::Pending(call) => panic!("waits: {:?}", call),
    }
    let guard = slow.claim("slow", &service.resources).unwrap();
    match run_claimed(call, slow, Some(guard), 1024) {
        Started::Pending(pending) => {
            assert_eq!(pending.id, Id::Str("s".to_string()));
            assert_eq!(pending.method, "slow");
            assert_eq!(pending.params.as_deref(), Some("[]"));
            assert!(pending.guard.is_some());
            assert!(slow.claim("slow", &service.resources).is_err());
            drop(pending);
            assert!(slow.claim("slow", &service.resources).is_ok());
        }
        Started::Done(answer) => panic!("answered: {:?}", answer),
    }
}

#[test]
fn subscription_is_refused_whatever_was_claimed() {
    let service = service();
    let subscribe = service.methods.method("subscribe").unwrap();
    let call = Request { id: Id::Number(2), method: "subscribe".to_string(), params: None };
    match run_claimed(call.clone(), subscribe, None, 1024) {
        Started::Done(answer) => {
            assert_eq!(answer, MethodResponse::error(&Id::Number(2), ErrorCode::InternalError));
        }
        Started::Pending(call) => panic!("waits: {:?}", call),
    }
    match dispatch(call, subscribe, &service.resources, 1024) {
        Started::Done(answer) => {
            assert_eq!(answer, MethodResponse::error(&Id::Number(2), ErrorCode::InternalError));
        }
        Started::Pending(call) => panic!("waits: {:?}", call),
    }
}

#[test]
fn dispatch_claims_before_it_runs() {
    let service = limited();
    let work = service.methods.method("work").unwrap();
    let call = Request { id: Id::Number(3), method: "work".to_string(), params: None };
    let held = work.claim("work", &service.resources).unwrap();
    match dispatch(call.clone(), work, &service.resources, 1024) {
        Started::Done(answer) => {
            assert_eq!(answer, MethodResponse::error(&Id::Number(3), ErrorCode::ServerIsBusy));
        }
        Started::Pending(call) => panic!("waits: {:?}", call),
    }
    drop(held);
    match dispatch(call, work, &service.resources, 1024) {
        Started::Done(answer) => assert_eq!(answer.result, r#"{"jsonrpc":"2.0","result":"done","id":3}"#),
        Started::Pending(call) => panic!("waits: {:?}", call),
    }
    let slow = service.methods.method("slow").unwrap();
    let call = Request { id: Id::Number(4), method: "slow".to_string(), params: None };
    match dispatch(call, slow, &service.resources, 1024) {
        Started::Pending(pending) => assert!(pending.guard.is_some()),
        Started::Done(answer) => panic!("answered: {:?}", answer),
    }
}
