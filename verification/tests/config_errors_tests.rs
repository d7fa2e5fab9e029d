use mumble_core::config::MumbleConfig;
use mumble_core::errors::TransportError;

/// `new` populates required fields and leaves optional values empty.
#[test]
fn new_sets_defaults() {
    let config = MumbleConfig::new("example.org".to_string(), 64738, "alice".to_string());
    assert_eq!(config.server, "example.org");
    assert_eq!(config.port, 64738);
    assert_eq!(config.username, "alice");
    assert!(config.password.is_none());
    assert!(config.cert_pem.is_none());
}

/// Mapping an IO error yields the `Io` transport variant.
#[test]
fn from_io_error_maps_to_io_variant() {
    let error = std::io::Error::new(std::io::ErrorKind::Other, "broken");
    let mapped = TransportError::from(error);
    assert_eq!(mapped.message(), "io error: broken");
}

/// Each error variant renders the expected display text.
#[test]
fn display_messages_are_stable() {
    assert_eq!(
        TransportError::Disconnected.message(),
        "transport disconnected"
    );
    assert_eq!(
        TransportError::Protocol("oops".to_string()).message(),
        "protocol error: oops"
    );
    assert_eq!(
        TransportError::InvalidConfig("missing".to_string()).message(),
        "invalid config: missing"
    );
    assert_eq!(
        TransportError::Io("disk".to_string()).message(),
        "io error: disk"
    );
}
