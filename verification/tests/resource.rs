use visit_echo::resource::{app_reply, host_matches, served_host, Method};

#[test]
fn served_host_is_localhost() {
    assert_eq!(served_host(), b"localhost");
}

#[test]
fn host_matches_only_the_served_host() {
    assert!(host_matches(Some(b"localhost")));
    assert!(!host_matches(None));
    assert!(!host_matches(Some(b"")));
    assert!(!host_matches(Some(b"localhost:8080")));
    assert!(!host_matches(Some(b"Localhost")));
    assert!(!host_matches(Some(b"localhos")));
    assert!(!host_matches(Some(b"localhosu")));
    assert!(!host_matches(Some(b"example.org")));
    assert!(!host_matches(Some(b"127.0.0.1")));
}

#[test]
fn get_is_answered_with_the_fixed_body() {
    let reply = app_reply(Method::Get);
    assert_eq!(reply.status, 200);
    assert_eq!(reply.content_type, None);
    assert_eq!(reply.body, "app");
}

#[test]
fn head_is_not_allowed() {
    let reply = app_reply(Method::Head);
    assert_eq!(reply.status, 405);
    assert!(reply.is_client_error());
    assert_eq!(reply.body, "");
}

#[test]
fn other_methods_are_not_allowed() {
    let reply = app_reply(Method::Other);
    assert_eq!(reply.status, 405);
    assert_eq!(reply.body, "");
}
