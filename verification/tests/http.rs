use ez_http_rs::decimal::usize_to_decimal;
use ez_http_rs::http::{delay_seconds, format_response, route, status_line, str_eq, target_path, Route};

#[test]
fn root_request_routes_to_main_page() {
    assert_eq!(route("GET / HTTP/1.1"), Route::Root);
}

#[test]
fn sleep_request_routes_to_slow_main_page() {
    assert_eq!(route("GET /sleep HTTP/1.1"), Route::SleepThenRoot);
}

#[test]
fn other_requests_route_to_not_found() {
    assert_eq!(route("GET /other HTTP/1.1"), Route::NotFound);
    assert_eq!(route("POST / HTTP/1.1"), Route::NotFound);
    assert_eq!(route("GET / HTTP/1.0"), Route::NotFound);
    assert_eq!(route(""), Route::NotFound);
}

#[test]
fn each_route_serves_its_page_and_status() {
    assert_eq!(target_path(Route::Root), "html/main.html");
    assert_eq!(target_path(Route::SleepThenRoot), "html/main.html");
    assert_eq!(target_path(Route::NotFound), "html/404.html");
    assert_eq!(status_line(Route::Root), "HTTP/1.1 200 OK");
    assert_eq!(status_line(Route::SleepThenRoot), "HTTP/1.1 200 OK");
    assert_eq!(status_line(Route::NotFound), "HTTP/1.1 404 NOT FOUND");
}

#[test]
fn only_the_sleep_route_pauses() {
    assert_eq!(delay_seconds(Route::SleepThenRoot), 5);
    assert_eq!(delay_seconds(Route::Root), 0);
    assert_eq!(delay_seconds(Route::NotFound), 0);
}

#[test]
fn response_envelope_counts_the_body_bytes() {
    assert_eq!(
        format_response("HTTP/1.1 200 OK", "hello"),
        "HTTP/1.1 200 OK\r\nContent-Length: 5\r\n\r\nhello"
    );
    assert_eq!(
        format_response("HTTP/1.1 404 NOT FOUND", ""),
        "HTTP/1.1 404 NOT FOUND\r\nContent-Length: 0\r\n\r\n"
    );
    // a multi-byte character counts by its bytes, not by one
    assert_eq!(
        format_response("HTTP/1.1 200 OK", "é"),
        "HTTP/1.1 200 OK\r\nContent-Length: 2\r\n\r\né"
    );
}

#[test]
fn decimal_rendering_is_exact() {
    assert_eq!(usize_to_decimal(0), "0");
    assert_eq!(usize_to_decimal(7), "7");
    assert_eq!(usize_to_decimal(10), "10");
    assert_eq!(usize_to_decimal(207), "207");
    assert_eq!(usize_to_decimal(99999), "99999");
    assert_eq!(usize_to_decimal(1000000), "1000000");
}

#[test]
fn string_equality_is_character_exact() {
    assert!(str_eq("", ""));
    assert!(str_eq("GET / HTTP/1.1", "GET / HTTP/1.1"));
    assert!(!str_eq("GET / HTTP/1.1", "GET / HTTP/1.2"));
    assert!(!str_eq("abc", "abcd"));
    assert!(!str_eq("abcd", "abc"));
    assert!(str_eq("naïve", "naïve"));
    assert!(!str_eq("naïve", "naive"));
}
