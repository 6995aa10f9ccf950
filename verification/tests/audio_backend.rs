use cosmic_connect::error::ProtocolError;
use cosmic_connect::plugins::audiostream::{AudioBackend, BackendConfig, Platform};

#[test]
fn test_backend_config_default() {
    let config = BackendConfig::default();
    assert_eq!(config.sample_rate, 48000);
    assert_eq!(config.channels, 2);
    assert_eq!(config.buffer_size, 480);
}

#[test]
fn test_backend_creation() {
    let config = BackendConfig::default();
    let result = AudioBackend::new(config, Platform::Linux);
    assert!(result.is_ok());
}

#[test]
fn test_backend_creation_unsupported() {
    let config = BackendConfig::default();
    let result = AudioBackend::new(config, Platform::Other);
    assert!(result.is_err());
}

#[test]
fn backend_keeps_its_configuration() {
    let config = BackendConfig { sample_rate: 44100, channels: 1, buffer_size: 256 };
    let backend = AudioBackend::new(config, Platform::Linux).unwrap();
    assert_eq!(*backend.config(), config);
}

#[test]
fn unsupported_platform_error_names_the_reason() {
    let err = AudioBackend::new(BackendConfig::default(), Platform::Other).unwrap_err();
    assert_eq!(
        err,
        ProtocolError::MalformedPacket("Audio backend not supported on this platform".to_string())
    );
}
