use quad_net::Method;
use quad_net::RequestBuilder;
use quad_net::TransportCall;
use quad_net::method::scheme_code;

#[test]
fn fresh_spec_is_a_bodiless_get() {
    let dispatch = RequestBuilder::new("http://example.com").dispatch();
    assert_eq!(dispatch.method, Method::Get);
    assert_eq!(dispatch.url, "http://example.com");
    assert!(dispatch.headers.is_empty());
    assert!(matches!(dispatch.call, TransportCall::Bodiless));
}

#[test]
fn post_with_body_selects_the_payload_variant() {
    let dispatch = RequestBuilder::new("http://example.com")
        .method(Method::Post)
        .body("payload")
        .dispatch();
    assert_eq!(dispatch.method, Method::Post);
    assert!(matches!(dispatch.call, TransportCall::WithPayload(p) if p == "payload"));
}

#[test]
fn header_order_is_preserved_to_the_native_dispatch() {
    let dispatch = RequestBuilder::new("http://example.com")
        .header("A", "1")
        .header("B", "2")
        .dispatch();
    assert_eq!(
        dispatch.headers,
        vec![("A".to_string(), "1".to_string()), ("B".to_string(), "2".to_string())]
    );
}

#[test]
fn header_order_is_preserved_to_the_host_call() {
    let call = RequestBuilder::new("http://example.com")
        .header("A", "1")
        .header("B", "2")
        .host_call();
    assert_eq!(
        call.headers,
        vec![("A".to_string(), "1".to_string()), ("B".to_string(), "2".to_string())]
    );
}

#[test]
fn host_call_carries_the_spec() {
    let call = RequestBuilder::new("http://example.com")
        .method(Method::Put)
        .body("data")
        .host_call();
    assert_eq!(call.scheme, 1);
    assert_eq!(call.url, "http://example.com");
    assert_eq!(call.body, "data");
    assert!(call.headers.is_empty());
}

#[test]
fn host_call_body_defaults_to_empty_text() {
    let call = RequestBuilder::new("http://example.com").host_call();
    assert_eq!(call.body, "");
    assert_eq!(call.scheme, 2);
}

#[test]
fn scheme_codes_follow_the_host_convention() {
    assert_eq!(scheme_code(Method::Post), 0);
    assert_eq!(scheme_code(Method::Put), 1);
    assert_eq!(scheme_code(Method::Get), 2);
    assert_eq!(scheme_code(Method::Delete), 3);
}

#[test]
fn later_method_call_replaces_the_verb() {
    let dispatch = RequestBuilder::new("http://example.com")
        .method(Method::Post)
        .method(Method::Delete)
        .dispatch();
    assert_eq!(dispatch.method, Method::Delete);
}
