use image_classify::cors::{names_match, FairingKind, Header, HttpResponse, CORS};

fn values_named(r: &HttpResponse, name: &str) -> Vec<String> {
    r.headers
        .iter()
        .filter(|h| h.name.eq_ignore_ascii_case(name))
        .map(|h| h.value.clone())
        .collect()
}

fn assert_cors(r: &HttpResponse) {
    assert_eq!(values_named(r, "Access-Control-Allow-Origin"), vec!["*".to_string()]);
    assert_eq!(
        values_named(r, "Access-Control-Allow-Methods"),
        vec!["POST, GET, OPTIONS".to_string()]
    );
    assert_eq!(values_named(r, "Access-Control-Allow-Headers"), vec!["*".to_string()]);
    assert_eq!(values_named(r, "Access-Control-Allow-Credentials"), vec!["true".to_string()]);
}

#[test]
fn cors_sets_four_headers_on_empty_response() {
    let mut r = HttpResponse::new(200, "body".to_string());
    CORS.on_response(&mut r);
    assert_eq!(r.headers.len(), 4);
    assert_cors(&r);
    assert_eq!(r.status, 200);
    assert_eq!(r.body, "body");
}

#[test]
fn cors_applies_to_error_responses() {
    let mut r = HttpResponse::new(500, String::new());
    CORS.on_response(&mut r);
    assert_cors(&r);
    assert_eq!(r.status, 500);
}

#[test]
fn cors_replaces_existing_headers_of_any_case() {
    let mut r = HttpResponse::new(200, String::new());
    r.headers.push(Header::new("access-control-allow-origin", "https://example.org"));
    r.headers.push(Header::new("Content-Type", "text/html"));
    r.headers.push(Header::new("ACCESS-CONTROL-ALLOW-CREDENTIALS", "false"));
    CORS.on_response(&mut r);
    assert_cors(&r);
    assert_eq!(r.headers.len(), 5);
    assert_eq!(r.headers[0].name, "Content-Type");
    assert_eq!(r.headers[0].value, "text/html");
}

#[test]
fn cors_is_idempotent() {
    let mut once = HttpResponse::new(200, String::new());
    once.headers.push(Header::new("X-Other", "1"));
    CORS.on_response(&mut once);
    let mut twice = HttpResponse::new(200, String::new());
    twice.headers.push(Header::new("X-Other", "1"));
    CORS.on_response(&mut twice);
    CORS.on_response(&mut twice);
    let a: Vec<(String, String)> = once.headers.iter().map(|h| (h.name.clone(), h.value.clone())).collect();
    let b: Vec<(String, String)> = twice.headers.iter().map(|h| (h.name.clone(), h.value.clone())).collect();
    assert_eq!(a, b);
}

#[test]
fn set_header_replaces_same_name() {
    let mut r = HttpResponse::new(200, String::new());
    r.headers.push(Header::new("X-A", "1"));
    r.headers.push(Header::new("x-a", "2"));
    r.headers.push(Header::new("X-B", "3"));
    r.set_header(Header::new("X-a", "4"));
    let got: Vec<(String, String)> = r.headers.iter().map(|h| (h.name.clone(), h.value.clone())).collect();
    assert_eq!(got, vec![("X-B".to_string(), "3".to_string()), ("X-a".to_string(), "4".to_string())]);
}

#[test]
fn header_names_compare_without_case() {
    assert!(names_match("Content-Type", "content-TYPE"));
    assert!(!names_match("Content-Type", "Content-Typ"));
    assert!(!names_match("Access-Control-Allow-Methods", "Access-Control-Allow-Headers"));
    assert!(names_match("", ""));
}

#[test]
fn cors_info_names_the_fairing() {
    let info = CORS.info();
    assert_eq!(info.name, "Add CORS headers to responses");
    assert!(matches!(info.kind, FairingKind::Response));
}
