use reverseproxy::config::ForwardAddr;
use reverseproxy::config::ListenAddr;
use reverseproxy::error::Error;

#[test]
fn parse_tcp_listen_endpoint() {
    let r = ListenAddr::from_str("tcp://127.0.0.1:9050");
    assert_eq!(r, Ok(ListenAddr::Tcp(String::from("127.0.0.1:9050"))));
}

#[test]
fn parse_unix_listen_endpoint() {
    let r = ListenAddr::from_str("unix:///tmp/temp.sock");
    assert_eq!(r, Ok(ListenAddr::Unix(String::from("/tmp/temp.sock"))));
}

#[test]
fn parse_unsupported_scheme_fails() {
    let r = ListenAddr::from_str("ftp://x");
    assert_eq!(r, Err(Error::UnsupportedProtocol));
}

#[test]
fn parse_missing_scheme_fails() {
    let r = ListenAddr::from_str("noscheme");
    assert_eq!(r, Err(Error::MissingProtocol));
}

#[test]
fn parse_empty_string_fails() {
    let r = ListenAddr::from_str("");
    assert_eq!(r, Err(Error::MissingProtocol));
}

#[test]
fn parse_empty_scheme_is_unsupported() {
    let r = ListenAddr::from_str("://value");
    assert_eq!(r, Err(Error::UnsupportedProtocol));
}

#[test]
fn parse_empty_value_is_kept() {
    let r = ListenAddr::from_str("tcp://");
    assert_eq!(r, Ok(ListenAddr::Tcp(String::new())));
}

#[test]
fn parse_splits_at_first_separator() {
    let r = ForwardAddr::from_str("tcp://a://b");
    assert_eq!(r, Ok(ForwardAddr::Tcp(String::from("a://b"))));
}

#[test]
fn parse_tcp_forward_endpoint() {
    let r = ForwardAddr::from_str("tcp://torhiddenservice.onion:80");
    assert_eq!(
        r,
        Ok(ForwardAddr::Tcp(String::from("torhiddenservice.onion:80")))
    );
}

#[test]
fn parse_unix_forward_endpoint() {
    let r = ForwardAddr::from_str("unix:///tmp/temp.sock");
    assert_eq!(r, Ok(ForwardAddr::Unix(String::from("/tmp/temp.sock"))));
}

#[test]
fn forward_scheme_case_sensitive() {
    let r = ForwardAddr::from_str("TCP://host:80");
    assert_eq!(r, Err(Error::UnsupportedProtocol));
}

#[test]
fn display_listen_tcp() {
    let e = ListenAddr::Tcp(String::from("127.0.0.1:8080"));
    assert_eq!(e.display().as_str(), "tcp://127.0.0.1:8080");
}

#[test]
fn display_listen_unix() {
    let e = ListenAddr::Unix(String::from("/tmp/temp.sock"));
    assert_eq!(e.display().as_str(), "unix:///tmp/temp.sock");
}

#[test]
fn display_forward_tcp() {
    let e = ForwardAddr::Tcp(String::from("example.com:443"));
    assert_eq!(e.display().as_str(), "tcp://example.com:443");
}

#[test]
fn display_round_trips_through_parse() {
    let e = ForwardAddr::Tcp(String::from("torhiddenservice.onion:80"));
    let shown = e.display();
    assert_eq!(ForwardAddr::from_str(shown.as_str()), Ok(e));

    let l = ListenAddr::Unix(String::from("/tmp/temp.sock"));
    let shown = l.display();
    assert_eq!(ListenAddr::from_str(shown.as_str()), Ok(l));
}

#[test]
fn error_messages() {
    assert_eq!(
        Error::MissingProtocol.message().as_str(),
        "Protocol not specified"
    );
    assert_eq!(
        Error::UnsupportedProtocol.message().as_str(),
        "Unsupported protocol"
    );
}
