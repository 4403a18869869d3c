use serror::{
    serialize_error, try_deserialize_serror, AddHeaders, AddHeadersError, AddStatusCode,
    AddStatusCodeError, HeaderMap, HttpError, JsonError, StatusCode,
};

fn status(code: u16) -> StatusCode {
    StatusCode::from_u16(code).unwrap()
}

fn pairs(h: &HeaderMap) -> Vec<(String, String)> {
    (0..h.len())
        .map(|i| {
            let (n, v) = h.entry(i);
            (n.to_string(), v.to_string())
        })
        .collect()
}

fn pair(n: &str, v: &str) -> (String, String) {
    (n.to_string(), v.to_string())
}

fn cause(m: &str) -> anyhow::Error {
    anyhow::Error::msg(m.to_string())
}

#[test]
fn status_code_range() {
    assert!(StatusCode::from_u16(99).is_none());
    assert_eq!(StatusCode::from_u16(100).map(|s| s.as_u16()), Some(100));
    assert_eq!(StatusCode::from_u16(999).map(|s| s.as_u16()), Some(999));
    assert!(StatusCode::from_u16(1000).is_none());
    assert_eq!(StatusCode::internal_server_error().as_u16(), 500);
}

#[test]
fn default_conversion_is_500_without_headers() {
    let e = HttpError::from_error(cause("boom"));
    assert_eq!(e.status.as_u16(), 500);
    assert_eq!(e.headers.len(), 0);
    let r = e.into_response();
    assert_eq!(r.status.as_u16(), 500);
    assert_eq!(pairs(&r.headers), vec![pair("content-type", "application/json")]);
    assert_eq!(r.body, r#"{"error":"boom","trace":[]}"#);
}

#[test]
fn status_then_header_render() {
    let r = HttpError::from_error(cause("denied"))
        .status_code(status(403))
        .header("X-Foo", "bar")
        .into_response();
    assert_eq!(r.status.as_u16(), 403);
    assert_eq!(
        pairs(&r.headers),
        vec![pair("content-type", "application/json"), pair("x-foo", "bar")]
    );
}

#[test]
fn header_twice_keeps_both_values() {
    let r = HttpError::from_error(cause("x"))
        .header("X-Foo", "one")
        .header("X-Foo", "two")
        .into_response();
    assert_eq!(r.headers.get_all("X-Foo"), vec!["one".to_string(), "two".to_string()]);
    assert_eq!(r.headers.get_all("Content-Type"), vec!["application/json".to_string()]);
    assert!(r.headers.get_all("X-Bar").is_empty());
}

#[test]
fn headers_replace_and_content_type_is_layered() {
    let mut h = HeaderMap::new();
    h.append("Content-Type", "application/problem+json");
    let r = HttpError::from_error(cause("x"))
        .header("X-Old", "gone")
        .headers(h)
        .status_code(status(409))
        .into_response();
    assert_eq!(r.status.as_u16(), 409);
    assert_eq!(
        r.headers.get_all("Content-Type"),
        vec!["application/json".to_string(), "application/problem+json".to_string()]
    );
    assert!(r.headers.get_all("X-Old").is_empty());
}

#[test]
fn render_body_is_the_chain() {
    let e = cause("root").context("middle".to_string()).context("outer".to_string());
    let expected = serialize_error(&e);
    let r = HttpError::from_error(e).into_response();
    assert_eq!(r.body, expected);
    assert_eq!(r.body, r#"{"error":"outer","trace":["middle","root"]}"#);
}

#[test]
fn causal_error_gets_status() {
    let e = AddStatusCodeError::status_code(cause("nope"), status(404));
    assert_eq!(e.status.as_u16(), 404);
    assert_eq!(e.headers.len(), 0);
    assert_eq!(e.error.to_string(), "nope");
}

#[test]
fn causal_error_gets_headers() {
    let e = AddHeadersError::header(cause("nope"), "Retry-After", "5");
    assert_eq!(e.status.as_u16(), 500);
    assert_eq!(pairs(&e.headers), vec![pair("retry-after", "5")]);
    let mut h = HeaderMap::new();
    h.append("A", "1");
    h.append("B", "2");
    let e = AddHeadersError::headers(cause("nope"), h);
    assert_eq!(pairs(&e.headers), vec![pair("a", "1"), pair("b", "2")]);
}

#[test]
fn result_lifting_touches_only_errors() {
    let ok: Result<u32, anyhow::Error> = Ok(7);
    assert_eq!(AddStatusCode::status_code(ok, status(400)).ok(), Some(7));
    let err: Result<u32, anyhow::Error> = Err(cause("bad"));
    let e = AddStatusCode::status_code(err, status(400)).err().unwrap();
    assert_eq!(e.status.as_u16(), 400);
    assert_eq!(e.error.to_string(), "bad");

    let ok: Result<u32, anyhow::Error> = Ok(8);
    assert_eq!(AddHeaders::header(ok, "X", "y").ok(), Some(8));
    let err: Result<u32, anyhow::Error> = Err(cause("bad"));
    let e = AddHeaders::header(err, "X", "y").err().unwrap();
    assert_eq!(e.status.as_u16(), 500);
    assert_eq!(pairs(&e.headers), vec![pair("x", "y")]);

    let mut h = HeaderMap::new();
    h.append("Cache-Control", "no-store");
    let ok: Result<u32, anyhow::Error> = Ok(9);
    assert_eq!(AddHeaders::headers(ok, &h).ok(), Some(9));
    let err: Result<u32, anyhow::Error> = Err(cause("bad"));
    let e = AddHeaders::headers(err, &h).err().unwrap();
    assert_eq!(pairs(&e.headers), vec![pair("cache-control", "no-store")]);
    assert_eq!(pairs(&h), vec![pair("cache-control", "no-store")]);
}

#[test]
fn decode_error_keeps_decoder_status() {
    let r = JsonError::from_rejection(status(422), "missing field `name`".to_string())
        .into_response();
    assert_eq!(r.status.as_u16(), 422);
    assert_eq!(pairs(&r.headers), vec![pair("content-type", "application/json")]);
    let body = try_deserialize_serror(&r.body).unwrap();
    assert_eq!(body.error, "failed to deserialize the request body into the target type");
    assert_eq!(body.trace, vec!["missing field `name`".to_string()]);
}

#[test]
fn header_map_basics() {
    let mut h = HeaderMap::new();
    assert_eq!(h.len(), 0);
    h.append("a", "1");
    h.append("b", "2");
    h.append("a", "3");
    assert_eq!(h.len(), 3);
    assert_eq!(h.entry(2), ("a", "3"));
    assert_eq!(h.get_all("a"), vec!["1".to_string(), "3".to_string()]);
    let c = h.copied();
    assert_eq!(pairs(&c), pairs(&h));
    let mut g = HeaderMap::new();
    g.append("z", "9");
    g.extend(c);
    assert_eq!(pairs(&g), vec![pair("z", "9"), pair("a", "1"), pair("b", "2"), pair("a", "3")]);
}

#[test]
fn header_lookup_ignores_case() {
    let r = HttpError::from_error(cause("boom"))
        .status_code(status(403))
        .header("X-Foo", "bar")
        .into_response();
    assert_eq!(r.headers.get_all("content-type"), vec!["application/json".to_string()]);
    assert_eq!(r.headers.get_all("CONTENT-TYPE"), vec!["application/json".to_string()]);
    assert_eq!(r.headers.get_all("x-foo"), vec!["bar".to_string()]);
}

#[test]
fn two_values_found_under_other_spelling() {
    let r = HttpError::from_error(cause("boom"))
        .header("X-Foo", "a")
        .header("x-FOO", "b")
        .into_response();
    assert_eq!(r.headers.get_all("x-foo"), vec!["a".to_string(), "b".to_string()]);
}

#[test]
fn lower_case_content_type_is_layered_after_default() {
    let r = HttpError::from_error(cause("x")).header("content-type", "text/plain").into_response();
    assert_eq!(
        r.headers.get_all("Content-Type"),
        vec!["application/json".to_string(), "text/plain".to_string()]
    );
}

#[test]
fn default_content_type_present_once() {
    let r = HttpError::from_error(cause("x")).into_response();
    assert_eq!(r.headers.len(), 1);
    assert_eq!(r.headers.get_all("content-type"), vec!["application/json".to_string()]);
}
