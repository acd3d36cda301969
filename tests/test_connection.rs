use bareun_rs::{
    map_status, resolve_port, BareunError, ConnectionDescriptor, NO_SERVER_MESSAGE,
};

#[test]
fn canonical_host_uses_tls_and_443() {
    let d = ConnectionDescriptor::resolve("key", "api.bareun.ai", None).unwrap();
    assert!(d.tls);
    assert_eq!(d.port, 443);
    assert_eq!(d.host, "api.bareun.ai");
    assert_eq!(d.uri(), "https://api.bareun.ai:443");
}

#[test]
fn local_host_is_plain_on_5656() {
    let d = ConnectionDescriptor::resolve("key", "127.0.0.1", None).unwrap();
    assert!(!d.tls);
    assert_eq!(d.port, 5656);
    assert_eq!(d.uri(), "http://127.0.0.1:5656");
}

#[test]
fn blank_host_means_canonical_host() {
    let d = ConnectionDescriptor::resolve("key", "   ", None).unwrap();
    assert_eq!(d.host, "api.bareun.ai");
    assert!(d.tls);
    assert_eq!(d.port, 443);
}

#[test]
fn host_is_trimmed_and_matched_in_any_case() {
    let d = ConnectionDescriptor::resolve("key", "  API.Bareun.AI  ", None).unwrap();
    assert_eq!(d.host, "API.Bareun.AI");
    assert!(d.tls);
    assert_eq!(d.port, 443);
}

#[test]
fn explicit_port_wins() {
    let d = ConnectionDescriptor::resolve("key", "api.bareun.ai", Some(8443)).unwrap();
    assert!(d.tls);
    assert_eq!(d.port, 8443);
    let d = ConnectionDescriptor::resolve("key", "10.3.8.44", Some(5757)).unwrap();
    assert!(!d.tls);
    assert_eq!(d.uri(), "http://10.3.8.44:5757");
    assert_eq!(resolve_port("API.BAREUN.AI", None), 443);
    assert_eq!(resolve_port("localhost", None), 5656);
    assert_eq!(resolve_port("localhost", Some(1)), 1);
}

#[test]
fn empty_key_is_refused() {
    let r = ConnectionDescriptor::resolve("", "api.bareun.ai", None);
    assert!(matches!(r, Err(BareunError::MissingApiKey)));
}

#[test]
fn status_codes_map_to_errors() {
    match map_status(tonic::Code::PermissionDenied, "bad key", "k1", "h", 1) {
        BareunError::PermissionDenied { apikey, message } => {
            assert_eq!(apikey, "k1");
            assert_eq!(message, "bad key");
        }
        _ => panic!("expected PermissionDenied"),
    }
    match map_status(tonic::Code::Unavailable, "", "k1", "host", 5656) {
        BareunError::ServerUnavailable { host, port, message } => {
            assert_eq!(host, "host");
            assert_eq!(port, 5656);
            assert_eq!(message, NO_SERVER_MESSAGE);
        }
        _ => panic!("expected ServerUnavailable"),
    }
    match map_status(tonic::Code::InvalidArgument, "too long", "k", "h", 1) {
        BareunError::InvalidArgument { message } => assert_eq!(message, "too long"),
        _ => panic!("expected InvalidArgument"),
    }
    match map_status(tonic::Code::Internal, "boom", "k", "h", 1) {
        BareunError::GrpcError(message) => assert_eq!(message, "boom"),
        _ => panic!("expected GrpcError"),
    }
}

#[test]
fn status_values_are_read() {
    let status = tonic::Status::new(tonic::Code::Unavailable, "down");
    match map_status(status.code(), status.message(), "k", "h", 7) {
        BareunError::ServerUnavailable { host, port, message } => {
            assert_eq!(host, "h");
            assert_eq!(port, 7);
            assert_eq!(message, "down");
        }
        _ => panic!("expected ServerUnavailable"),
    }
}

#[test]
fn unicode_white_space_is_trimmed() {
    let d = ConnectionDescriptor::resolve("key", "\u{3000}127.0.0.1\u{a0}\n", None).unwrap();
    assert_eq!(d.host, "127.0.0.1");
    assert!(!d.tls);
    assert_eq!(d.port, 5656);
}
