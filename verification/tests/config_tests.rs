use openssl::ssl::SslVerifyMode;
use tls_echo::tls::{
    certificate_client, client_auth_server, client_certificate_required_mode,
    no_verification_mode, proxy_upstream_client, reverse_proxy_server, system_trust_client,
    tls13_only_server, AcceptorProfile, ProtocolVersion,
};
use tls_echo::web::{cors_policy, default_log_filter};

#[test]
fn verify_modes_match_openssl_flags() {
    assert_eq!(client_certificate_required_mode(), 3);
    assert_eq!(
        client_certificate_required_mode(),
        (SslVerifyMode::PEER | SslVerifyMode::FAIL_IF_NO_PEER_CERT).bits()
    );
    assert_eq!(no_verification_mode(), SslVerifyMode::NONE.bits());
}

#[test]
fn client_auth_server_demands_certificates() {
    let c = client_auth_server();
    assert_eq!(c.profile, AcceptorProfile::MozillaIntermediate);
    assert_eq!(c.verify_mode, Some(3));
    assert_eq!(c.client_ca_file.as_deref(), Some("../certs/rootCA.pem"));
    assert_eq!(c.private_key_file, "../certs/echo-server-key.pem");
    assert_eq!(c.certificate_chain_file, "../certs/echo-server.pem");
    assert_eq!(c.min_version, None);
    assert_eq!(c.max_version, None);
}

#[test]
fn tls13_server_is_pinned() {
    let c = tls13_only_server();
    assert_eq!(c.profile, AcceptorProfile::MozillaModernV5);
    assert_eq!(c.min_version, Some(ProtocolVersion::Tls13));
    assert_eq!(c.max_version, Some(ProtocolVersion::Tls13));
    assert_eq!(c.verify_mode, None);
    assert_eq!(c.client_ca_file, None);
}

#[test]
fn reverse_proxy_server_settings() {
    let c = reverse_proxy_server();
    assert_eq!(c.profile, AcceptorProfile::MozillaIntermediate);
    assert_eq!(c.verify_mode, None);
    assert_eq!(c.private_key_file, "../certs/echo-server-key.pem");
}

#[test]
fn client_settings() {
    let c = certificate_client();
    assert_eq!(c.ca_file.as_deref(), Some("../certs/rootCA.pem"));
    assert_eq!(c.certificate_file.as_deref(), Some("../certs/echo-client.pem"));
    assert_eq!(c.private_key_file.as_deref(), Some("../certs/echo-client-key.pem"));
    assert_eq!(c.server_name, "echo-server");
    let c = system_trust_client(true);
    assert_eq!(c.verify_mode, Some(0));
    assert_eq!(c.ca_file, None);
    let c = system_trust_client(false);
    assert_eq!(c.verify_mode, None);
    let c = proxy_upstream_client();
    assert_eq!(c.ca_file.as_deref(), Some("../certs/rootCA.pem"));
    assert_eq!(c.certificate_file, None);
    assert_eq!(c.server_name, "echo-server");
}

#[test]
fn cors_settings() {
    let p = cors_policy();
    assert_eq!(p.allowed_methods, vec!["GET".to_string(), "POST".to_string()]);
    assert_eq!(
        p.allowed_headers,
        vec!["content-type".to_string(), "authorization".to_string(), "accept".to_string()]
    );
    assert_eq!(p.allowed_headers[0], actix_web::http::header::CONTENT_TYPE.as_str());
    assert!(p.supports_credentials);
}

#[test]
fn log_filter_default() {
    assert_eq!(default_log_filter(false).as_deref(), Some("actix_web=info"));
    assert_eq!(default_log_filter(true), None);
}
