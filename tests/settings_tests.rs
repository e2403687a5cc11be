use ws_control::settings::{
    default_ws_settings, destroy_ws_settings, BufferField, EndpointRole, SecurityMode, WsSettings,
};

fn assert_zeroed(s: &WsSettings) {
    assert_eq!(s.endpoint, EndpointRole::Client);
    assert_eq!(s.mode, SecurityMode::Unsecured);
    assert_eq!(s.ping_interval, 0);
    assert_eq!(s.ping_timeout, 0);
    assert_eq!(s.message_limit, 0);
    assert!(!s.auto_mask_frame);
    assert!(!s.extensions.enabled);
    assert_eq!(s.extensions.window_bits, 0);
    assert!(s.ssl_seed.is_none());
    assert!(s.ssl_ca_cert.is_none());
    assert!(s.ssl_own_cert.is_none());
    assert!(s.ssl_private_key.is_none());
    assert!(s.host.is_none());
    assert!(s.allowed_origin.is_none());
}

#[test]
fn client_defaults_mask_outgoing_frames() {
    let s = default_ws_settings(EndpointRole::Client);
    assert_eq!(s.endpoint, EndpointRole::Client);
    assert_eq!(s.mode, SecurityMode::Unsecured);
    assert_eq!(s.ping_interval, 60_000);
    assert_eq!(s.ping_timeout, 30_000);
    assert_eq!(s.message_limit, 4 * 1024 * 1024);
    assert!(s.auto_mask_frame);
    assert!(!s.extensions.enabled);
    assert_eq!(s.extensions.window_bits, 15);
    assert!(s.host.is_none());
}

#[test]
fn server_defaults_do_not_mask() {
    let s = default_ws_settings(EndpointRole::Server);
    assert_eq!(s.endpoint, EndpointRole::Server);
    assert!(!s.auto_mask_frame);
    assert_eq!(s.message_limit, 4_194_304);
    assert_eq!(s.ping_interval, 60_000);
    assert_eq!(s.ping_timeout, 30_000);
}

#[test]
fn release_frees_each_owned_buffer_once_and_zeroes() {
    let mut s = default_ws_settings(EndpointRole::Client);
    s.host = Some(b"localhost:4433".to_vec());
    s.ssl_ca_cert = Some(b"ca".to_vec());
    s.allowed_origin = Some(Vec::new());
    let released = destroy_ws_settings(&mut s);
    assert_eq!(
        released,
        vec![BufferField::SslCaCert, BufferField::Host, BufferField::AllowedOrigin]
    );
    assert_zeroed(&s);
}

#[test]
fn release_of_descriptor_without_buffers_frees_nothing() {
    let mut s = default_ws_settings(EndpointRole::Server);
    let released = destroy_ws_settings(&mut s);
    assert!(released.is_empty());
    assert_zeroed(&s);
}

#[test]
fn release_walks_all_six_buffers_in_order() {
    let mut s = default_ws_settings(EndpointRole::Client);
    s.ssl_seed = Some(vec![1]);
    s.ssl_ca_cert = Some(vec![2]);
    s.ssl_own_cert = Some(vec![3]);
    s.ssl_private_key = Some(vec![4]);
    s.host = Some(vec![5]);
    s.allowed_origin = Some(vec![6]);
    let released = destroy_ws_settings(&mut s);
    assert_eq!(
        released,
        vec![
            BufferField::SslSeed,
            BufferField::SslCaCert,
            BufferField::SslOwnCert,
            BufferField::SslPrivateKey,
            BufferField::Host,
            BufferField::AllowedOrigin,
        ]
    );
    assert_zeroed(&s);
    let again = destroy_ws_settings(&mut s);
    assert!(again.is_empty());
}
