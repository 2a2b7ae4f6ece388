use scrapper::digits::u16_to_decimal;
use scrapper::error::FetchError;
use scrapper::lifecycle::init_step;

#[test]
fn decimal_rendering_exact_values() {
    assert_eq!(u16_to_decimal(0), "0");
    assert_eq!(u16_to_decimal(7), "7");
    assert_eq!(u16_to_decimal(10), "10");
    assert_eq!(u16_to_decimal(42), "42");
    assert_eq!(u16_to_decimal(200), "200");
    assert_eq!(u16_to_decimal(404), "404");
    assert_eq!(u16_to_decimal(1000), "1000");
    assert_eq!(u16_to_decimal(65535), "65535");
}

#[test]
fn client_build_message() {
    let e = FetchError::ClientBuild { detail: "tls backend unavailable".to_string() };
    assert_eq!(e.message(), "Failed to build client: tls backend unavailable");
}

#[test]
fn transport_message() {
    let e = FetchError::Transport { detail: "dns error: no such host".to_string() };
    assert_eq!(e.message(), "Request failed: dns error: no such host");
}

#[test]
fn protocol_message_with_reason() {
    let e = FetchError::Protocol { status: 404, reason: "Not Found".to_string() };
    assert_eq!(e.message(), "HTTP error: 404 Not Found");
}

#[test]
fn protocol_message_without_reason() {
    let e = FetchError::Protocol { status: 599, reason: String::new() };
    assert_eq!(e.message(), "HTTP error: 599");
}

#[test]
fn protocol_message_contains_status_digits() {
    let e = FetchError::Protocol { status: 503, reason: "Service Unavailable".to_string() };
    assert!(e.message().contains("503"));
}

#[test]
fn stream_message() {
    let e = FetchError::Stream { detail: "unexpected EOF during chunked read".to_string() };
    assert_eq!(e.message(), "Failed to get bytes: unexpected EOF during chunked read");
}

#[test]
fn init_twice_is_a_no_op() {
    // A fresh process installs the hook; a second call installs nothing and
    // raises no error, so a later failure is reported once.
    let (install_first, flag) = init_step(false);
    assert!(install_first);
    assert!(flag);

    let (install_second, flag) = init_step(flag);
    assert!(!install_second);
    assert!(flag);
}
