use request_tracing::context::{ContextError, LocalCache, RequestContext};
use request_tracing::handler::{abc, OutputData};
use request_tracing::request_id::RequestId;

fn is_v4(v: u128) -> bool {
    (v >> 76) & 0xf == 4 && (v >> 62) & 0x3 == 2
}

fn arrive(ctx: &mut RequestContext, method: &str, path: &str, user_agent: Option<&str>) {
    let fields = ctx.on_request(method, path, user_agent);
    ctx.attach_span(fields, tracing::Span::none());
}

#[test]
fn generated_ids_are_v4_and_distinct() {
    let a = RequestId::generate();
    let b = RequestId::generate();
    assert!(is_v4(a.value()));
    assert!(is_v4(b.value()));
    assert_ne!(a, b);
    assert!(is_v4(RequestId::default().0));
}

#[test]
fn id_text_is_hyphenated_lowercase_hex() {
    let id = RequestId(0x67e5_5044_10b1_426f_9247_bb68_0e5f_e0c8);
    assert_eq!(id.to_text(), "67e55044-10b1-426f-9247-bb680e5fe0c8");
    assert_eq!(RequestId(0).to_text(), "00000000-0000-0000-0000-000000000000");
    assert_eq!(RequestId(u128::MAX).to_text(), "ffffffff-ffff-ffff-ffff-ffffffffffff");
}

#[test]
fn arrival_fields_default_user_agent_to_empty() {
    let mut ctx = RequestContext::new();
    let fields = ctx.on_request("GET", "/abc", None);
    let id = ctx.current_request_id().unwrap();
    assert!(is_v4(id.0));
    assert_eq!(fields.name, "GET /abc");
    assert_eq!(fields.method, "GET");
    assert_eq!(fields.uri, "/abc");
    assert_eq!(fields.user_agent, "");
    assert_eq!(fields.request_id, id.to_text());
}

#[test]
fn arrival_fields_carry_user_agent() {
    let mut ctx = RequestContext::new();
    let fields = ctx.on_request("POST", "/x/y", Some("curl/8.0"));
    assert_eq!(fields.name, "POST /x/y");
    assert_eq!(fields.user_agent, "curl/8.0");
}

#[test]
fn second_arrival_keeps_first_identifier() {
    let mut ctx = RequestContext::new();
    ctx.on_request("GET", "/abc", None);
    let first = ctx.current_request_id().unwrap();
    let fields = ctx.on_request("GET", "/abc", None);
    assert_eq!(ctx.current_request_id().unwrap(), first);
    assert_eq!(fields.request_id, first.to_text());
}

#[test]
fn accessors_return_the_same_values_twice() {
    let mut ctx = RequestContext::new();
    arrive(&mut ctx, "GET", "/abc", None);
    assert_eq!(ctx.current_request_id().unwrap(), ctx.current_request_id().unwrap());
    let a = ctx.current_span().unwrap();
    let b = ctx.current_span().unwrap();
    assert!(std::ptr::eq(a, b));
}

#[test]
fn second_span_does_not_replace_first() {
    let mut ctx = RequestContext::new();
    arrive(&mut ctx, "GET", "/abc", None);
    let other = ctx.on_request("PUT", "/other", Some("agent"));
    ctx.attach_span(other, tracing::Span::none());
    let span = ctx.current_span().unwrap();
    assert_eq!(span.fields().name, "GET /abc");
    assert_eq!(span.fields().user_agent, "");
}

#[test]
fn status_unset_after_arrival_and_set_after_completion() {
    for code in [200u16, 404, 500] {
        let mut ctx = RequestContext::new();
        arrive(&mut ctx, "GET", "/abc", None);
        assert_eq!(ctx.current_span().unwrap().status_code(), None);
        ctx.on_response(code);
        assert_eq!(ctx.current_span().unwrap().status_code(), Some(code));
        assert_eq!(ctx.current_span().unwrap().fields().uri, "/abc");
    }
}

#[test]
fn completion_without_span_does_nothing() {
    let mut ctx = RequestContext::new();
    ctx.on_response(200);
    assert_eq!(ctx.current_span().err(), Some(ContextError::Unavailable));
    assert_eq!(ctx.current_request_id(), Err(ContextError::Unavailable));
}

#[test]
fn missing_context_is_a_server_fault() {
    let mut ctx = RequestContext::new();
    assert_eq!(ctx.current_request_id(), Err(ContextError::Unavailable));
    assert!(ctx.current_span().is_err());
    let r = abc(&mut ctx);
    assert!(matches!(r, Err(ContextError::Unavailable)));
    assert_eq!(ContextError::Unavailable.status_code(), 500);
}

#[test]
fn missing_span_fails_the_handler() {
    let mut ctx = RequestContext::new();
    ctx.on_request("GET", "/abc", None);
    assert!(matches!(abc(&mut ctx), Err(ContextError::Unavailable)));
    assert!(ctx.current_request_id().is_ok());
}

#[test]
fn get_abc_end_to_end() {
    let mut ctx = RequestContext::new();
    arrive(&mut ctx, "GET", "/abc", None);
    let id = ctx.current_request_id().unwrap().to_text();
    let out = abc(&mut ctx).unwrap();
    assert_eq!(out.message, "Hello World");
    assert_eq!(out.request_id, id);
    let body = out.to_json();
    assert_eq!(body, format!("{{\"message\":\"Hello World\",\"request_id\":\"{}\"}}", id));
    ctx.on_response(200);
    let span = ctx.current_span().unwrap();
    assert_eq!(span.status_code(), Some(200));
    assert_eq!(span.fields().user_agent, "");
    assert_eq!(span.fields().method, "GET");
    assert_eq!(span.fields().uri, "/abc");
    assert_eq!(span.fields().request_id, id);
    assert_eq!(span.output().map(|s| s.as_str()), Some(body.as_str()));
}

#[test]
fn concurrent_requests_stay_apart() {
    let mut a = RequestContext::new();
    let mut b = RequestContext::new();
    arrive(&mut a, "GET", "/abc", None);
    arrive(&mut b, "GET", "/def", Some("b-agent"));
    let out_a = abc(&mut a).unwrap();
    b.on_response(404);
    a.on_response(200);
    let id_a = a.current_request_id().unwrap();
    let id_b = b.current_request_id().unwrap();
    assert_ne!(id_a, id_b);
    assert_eq!(out_a.request_id, id_a.to_text());
    assert_eq!(a.current_span().unwrap().status_code(), Some(200));
    assert_eq!(b.current_span().unwrap().status_code(), Some(404));
    assert_eq!(b.current_span().unwrap().fields().uri, "/def");
    assert!(b.current_span().unwrap().output().is_none());
    assert_eq!(b.current_span().unwrap().fields().request_id, id_b.to_text());
}

#[test]
fn output_json_escapes_strings() {
    let data = OutputData { message: String::from("say \"hi\"\n"), request_id: String::from("a\\b") };
    assert_eq!(data.to_json(), "{\"message\":\"say \\\"hi\\\"\\n\",\"request_id\":\"a\\\\b\"}");
}

#[test]
fn local_cache_initialises_once() {
    let mut cache: LocalCache<u32> = LocalCache::new();
    assert_eq!(cache.get(), None);
    assert_eq!(*cache.get_or_init(|| 5), 5);
    let mut called = false;
    assert_eq!(*cache.get_or_init(|| {
        called = true;
        9
    }), 5);
    assert!(!called);
    assert_eq!(cache.get(), Some(&5));
    if let Some(v) = cache.get_mut() {
        *v = 6;
    }
    assert_eq!(cache.get(), Some(&6));
}
