use grocery::cookies::{remove_cookie, set_cookie, CookieValue};
use tower::Service;
use tower_cookies::{CookieManagerLayer, Cookies, Key};

fn encrypted_session_value(key: &Key, id: i32) -> String {
    let mut jar = Cookies::default();
    set_cookie(CookieValue::SessionID(id), &mut jar, Some(key)).unwrap();
    jar.get("session_id").unwrap().value().to_string()
}

fn respond_to(cookie_header: Option<String>, key: Key) -> axum::http::Response<axum::body::Body> {
    let handler = move |mut jar: Cookies| {
        let key = key.clone();
        async move {
            remove_cookie(CookieValue::SessionID(0), &mut jar, Some(&key)).unwrap();
            "bye"
        }
    };
    let mut app = axum::Router::new()
        .route("/auth/logout", axum::routing::get(handler))
        .layer(CookieManagerLayer::new());
    let mut request = axum::http::Request::builder().uri("/auth/logout");
    if let Some(header) = cookie_header {
        request = request.header("cookie", header);
    }
    let request = request.body(axum::body::Body::empty()).unwrap();
    let runtime = tokio::runtime::Runtime::new().unwrap();
    runtime.block_on(app.call(request)).unwrap()
}

#[test]
fn removal_sends_a_removal_cookie_for_the_service_domain_and_path() {
    let key = Key::generate();
    let value = encrypted_session_value(&key, 3);
    let response = respond_to(Some(format!("session_id={}", value)), key);
    let sent: Vec<String> = response
        .headers()
        .get_all("set-cookie")
        .iter()
        .map(|h| h.to_str().unwrap().to_string())
        .collect();
    assert_eq!(sent.len(), 1);
    let header = &sent[0];
    assert!(header.starts_with("session_id=;"), "{}", header);
    assert!(header.contains("Domain=grocery.siru.ink"), "{}", header);
    assert!(header.contains("Path=/"), "{}", header);
    assert!(header.contains("Max-Age=0"), "{}", header);
}

#[test]
fn removal_of_a_cookie_the_request_lacked_sends_nothing() {
    let response = respond_to(None, Key::generate());
    assert!(response.headers().get("set-cookie").is_none());
}
