use wan_reconnect::client::{
    authenticated_path, get_ip_request, get_url, login_body, login_request, login_request_from,
    request_to,
    switch_wan_body, switch_wan_request, wan_status_body, Request, BASE_URL,
};
use wan_reconnect::job::Operation;

#[test]
fn base_url_is_the_router() {
    assert_eq!(BASE_URL, "http://192.168.0.1/");
}

#[test]
fn authenticated_path_embeds_the_token() {
    assert_eq!(authenticated_path("abc"), "/stok=abc/ds");
    assert_eq!(authenticated_path(""), "/stok=/ds");
}

#[test]
fn url_joins_base_and_token_path() {
    assert_eq!(get_url("abc"), Ok("http://192.168.0.1/stok=abc/ds".to_string()));
}

#[test]
fn url_of_a_token_with_a_space_is_escaped_by_the_join() {
    assert_eq!(get_url("a b"), Ok("http://192.168.0.1/stok=a%20b/ds".to_string()));
}

#[test]
fn login_body_frames_the_quoted_password() {
    assert_eq!(
        login_body("\"pw\""),
        "{\"method\":\"do\",\"login\":{\"password\":\"pw\"}}"
    );
}

#[test]
fn login_request_posts_to_the_base_address() {
    let request = login_request("pw").unwrap();
    assert_eq!(request.url, "http://192.168.0.1/");
    assert_eq!(request.body, "{\"method\":\"do\",\"login\":{\"password\":\"pw\"}}");
}

#[test]
fn login_request_escapes_the_password() {
    let request = login_request("a\"b\\c").unwrap();
    assert_eq!(
        request.body,
        "{\"method\":\"do\",\"login\":{\"password\":\"a\\\"b\\\\c\"}}"
    );
    let value: serde_json::Value = serde_json::from_str(&request.body).unwrap();
    assert_eq!(value["method"].as_str(), Some("do"));
    assert_eq!(value["login"]["password"].as_str(), Some("a\"b\\c"));
}

#[test]
fn login_request_passes_a_quoting_failure_on() {
    assert_eq!(login_request_from(Err("no".to_string())), Err("no".to_string()));
    assert_eq!(
        login_request_from(Ok("\"x\"".to_string())),
        Ok(Request {
            url: "http://192.168.0.1/".to_string(),
            body: "{\"method\":\"do\",\"login\":{\"password\":\"x\"}}".to_string(),
        })
    );
}

#[test]
fn switch_wan_bodies() {
    assert_eq!(
        switch_wan_body(Operation::Connect),
        "{\"method\":\"do\",\"network\":{\"change_wan_status\":{\"proto\":\"pppoe\",\"operate\":\"connect\"}}}"
    );
    assert_eq!(
        switch_wan_body(Operation::Disconnect),
        "{\"method\":\"do\",\"network\":{\"change_wan_status\":{\"proto\":\"pppoe\",\"operate\":\"disconnect\"}}}"
    );
}

#[test]
fn switch_wan_request_is_authenticated() {
    let request = switch_wan_request("abc", Operation::Disconnect).unwrap();
    assert_eq!(request.url, "http://192.168.0.1/stok=abc/ds");
    let value: serde_json::Value = serde_json::from_str(&request.body).unwrap();
    assert_eq!(value["method"].as_str(), Some("do"));
    assert_eq!(value["network"]["change_wan_status"]["proto"].as_str(), Some("pppoe"));
    assert_eq!(value["network"]["change_wan_status"]["operate"].as_str(), Some("disconnect"));
}

#[test]
fn wan_status_request_is_authenticated() {
    assert_eq!(
        wan_status_body(),
        "{\"method\":\"get\",\"network\":{\"name\":[\"wan_status\"]}}"
    );
    let request = get_ip_request("abc").unwrap();
    assert_eq!(request.url, "http://192.168.0.1/stok=abc/ds");
    assert_eq!(request.body, wan_status_body());
    let value: serde_json::Value = serde_json::from_str(&request.body).unwrap();
    assert_eq!(value["method"].as_str(), Some("get"));
    assert_eq!(value["network"]["name"][0].as_str(), Some("wan_status"));
}

#[test]
fn request_to_keeps_the_address_or_the_complaint() {
    assert_eq!(
        request_to(Ok("http://192.168.0.1/stok=t/ds".to_string()), "{}".to_string()),
        Ok(Request {
            url: "http://192.168.0.1/stok=t/ds".to_string(),
            body: "{}".to_string(),
        })
    );
    assert_eq!(
        request_to(Err("empty host".to_string()), "{}".to_string()),
        Err("empty host".to_string())
    );
}

#[test]
fn url_of_a_token_with_a_fragment_mark_keeps_it_verbatim() {
    assert_eq!(get_url("a#b"), Ok("http://192.168.0.1/stok=a#b/ds".to_string()));
}
