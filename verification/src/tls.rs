//! The TLS settings each program starts with: which acceptor profile a
//! server uses, which protocol versions it allows, whether it demands a
//! client certificate, and which certificates a client presents or trusts.

use vstd::prelude::*;
use vstd::string::*;

verus! {

/// `openssl::ssl::SslVerifyMode::NONE`, by its bits. The flag is
/// `ffi::SSL_VERIFY_NONE`, which openssl-sys defines as 0.
#[verifier::external_body]
fn verify_none_bits() -> (b: i32)
    ensures
        b == 0,
{
    openssl::ssl::SslVerifyMode::NONE.bits()
}

/// `openssl::ssl::SslVerifyMode::PEER`, by its bits. The flag is
/// `ffi::SSL_VERIFY_PEER`, which openssl-sys defines as 1.
#[verifier::external_body]
fn verify_peer_bits() -> (b: i32)
    ensures
        b == 1,
{
    openssl::ssl::SslVerifyMode::PEER.bits()
}

/// `openssl::ssl::SslVerifyMode::FAIL_IF_NO_PEER_CERT`, by its bits. The
/// flag is `ffi::SSL_VERIFY_FAIL_IF_NO_PEER_CERT`, which openssl-sys defines
/// as 2.
#[verifier::external_body]
fn verify_fail_if_no_peer_cert_bits() -> (b: i32)
    ensures
        b == 2,
{
    openssl::ssl::SslVerifyMode::FAIL_IF_NO_PEER_CERT.bits()
}

/// The set of verification flags that makes a server request a client
/// certificate and abort the handshake when none is sent.
pub open spec fn require_client_certificate_mode() -> i32 {
    1i32 | 2i32
}

/// The verification flags of a server that demands a client certificate,
/// as OpenSSL numbers them.
pub fn client_certificate_required_mode() -> (m: i32)
    ensures
        m == require_client_certificate_mode(),
        m & 1 == 1,
        m & 2 == 2,
{
    let m = verify_peer_bits() | verify_fail_if_no_peer_cert_bits();
    assert(1i32 | 2i32 == 3i32 && 3i32 & 1 == 1 && 3i32 & 2 == 2) by (bit_vector);
    m
}

/// The verification flags of a client that does not check the server's
/// certificate, as OpenSSL numbers them.
pub fn no_verification_mode() -> (m: i32)
    ensures
        m == 0,
{
    verify_none_bits()
}

/// The recommended OpenSSL acceptor configuration a server starts from.
#[derive(PartialEq, Eq, Structural, Clone, Copy, Debug)]
pub enum AcceptorProfile {
    /// Mozilla's "intermediate" profile (TLS 1.2 and 1.3).
    MozillaIntermediate,
    /// Mozilla's "modern" profile, version 5 (TLS 1.3).
    MozillaModernV5,
}

/// A TLS protocol version that a server can be pinned to.
#[derive(PartialEq, Eq, Structural, Clone, Copy, Debug)]
pub enum ProtocolVersion {
    Tls13,
}

/// How a TLS server is set up.
pub struct ServerTls {
    pub profile: AcceptorProfile,
    /// Lowest protocol version allowed; `None` keeps the profile's.
    pub min_version: Option<ProtocolVersion>,
    /// Highest protocol version allowed; `None` keeps the profile's.
    pub max_version: Option<ProtocolVersion>,
    pub private_key_file: String,
    pub certificate_chain_file: String,
    /// Verification flags to set; `None` keeps the profile's.
    pub verify_mode: Option<i32>,
    /// Certificates trusted to sign client certificates, if any.
    pub client_ca_file: Option<String>,
}

/// How a TLS client is set up.
pub struct ClientTls {
    /// Certificates trusted to sign the server's certificate; `None` keeps
    /// the system's trusted certificates.
    pub ca_file: Option<String>,
    /// The certificate and private key the client presents, if any.
    pub certificate_file: Option<String>,
    pub private_key_file: Option<String>,
    /// Verification flags to set; `None` keeps the default, which checks
    /// the server's certificate.
    pub verify_mode: Option<i32>,
    /// The name the server's certificate must be valid for.
    pub server_name: String,
}

pub open spec fn server_key_path() -> Seq<char> {
    "../certs/echo-server-key.pem"@
}

pub open spec fn server_cert_path() -> Seq<char> {
    "../certs/echo-server.pem"@
}

pub open spec fn root_ca_path() -> Seq<char> {
    "../certs/rootCA.pem"@
}

pub open spec fn server_name() -> Seq<char> {
    "echo-server"@
}

/// The echo server that only talks to clients holding a certificate signed
/// by the root CA.
pub fn client_auth_server() -> (c: ServerTls)
    ensures
        c.profile == AcceptorProfile::MozillaIntermediate,
        c.min_version is None,
        c.max_version is None,
        c.private_key_file@ == server_key_path(),
        c.certificate_chain_file@ == server_cert_path(),
        c.verify_mode == Some(require_client_certificate_mode()),
        c.client_ca_file matches Some(f) && f@ == root_ca_path(),
{
    ServerTls {
        profile: AcceptorProfile::MozillaIntermediate,
        min_version: None,
        max_version: None,
        private_key_file: String::from_str("../certs/echo-server-key.pem"),
        certificate_chain_file: String::from_str("../certs/echo-server.pem"),
        verify_mode: Some(client_certificate_required_mode()),
        client_ca_file: Some(String::from_str("../certs/rootCA.pem")),
    }
}

/// The echo server that speaks TLS 1.3 and nothing else.
pub fn tls13_only_server() -> (c: ServerTls)
    ensures
        c.profile == AcceptorProfile::MozillaModernV5,
        c.min_version == Some(ProtocolVersion::Tls13),
        c.max_version == Some(ProtocolVersion::Tls13),
        c.private_key_file@ == server_key_path(),
        c.certificate_chain_file@ == server_cert_path(),
        c.verify_mode is None,
        c.client_ca_file is None,
{
    ServerTls {
        profile: AcceptorProfile::MozillaModernV5,
        min_version: Some(ProtocolVersion::Tls13),
        max_version: Some(ProtocolVersion::Tls13),
        private_key_file: String::from_str("../certs/echo-server-key.pem"),
        certificate_chain_file: String::from_str("../certs/echo-server.pem"),
        verify_mode: None,
        client_ca_file: None,
    }
}

/// The reverse proxy's TLS side, which any client may use.
pub fn reverse_proxy_server() -> (c: ServerTls)
    ensures
        c.profile == AcceptorProfile::MozillaIntermediate,
        c.min_version is None,
        c.max_version is None,
        c.private_key_file@ == server_key_path(),
        c.certificate_chain_file@ == server_cert_path(),
        c.verify_mode is None,
        c.client_ca_file is None,
{
    ServerTls {
        profile: AcceptorProfile::MozillaIntermediate,
        min_version: None,
        max_version: None,
        private_key_file: String::from_str("../certs/echo-server-key.pem"),
        certificate_chain_file: String::from_str("../certs/echo-server.pem"),
        verify_mode: None,
        client_ca_file: None,
    }
}

/// The client that trusts the root CA and presents its own certificate.
pub fn certificate_client() -> (c: ClientTls)
    ensures
        c.ca_file matches Some(f) && f@ == root_ca_path(),
        c.certificate_file matches Some(f) && f@ == "../certs/echo-client.pem"@,
        c.private_key_file matches Some(f) && f@ == "../certs/echo-client-key.pem"@,
        c.verify_mode is None,
        c.server_name@ == server_name(),
{
    ClientTls {
        ca_file: Some(String::from_str("../certs/rootCA.pem")),
        certificate_file: Some(String::from_str("../certs/echo-client.pem")),
        private_key_file: Some(String::from_str("../certs/echo-client-key.pem")),
        verify_mode: None,
        server_name: String::from_str("echo-server"),
    }
}

/// The client that trusts the system's certificates, or, when asked to
/// skip verification, does not check the server's certificate at all.
pub fn system_trust_client(skip_verify: bool) -> (c: ClientTls)
    ensures
        c.ca_file is None,
        c.certificate_file is None,
        c.private_key_file is None,
        skip_verify ==> c.verify_mode == Some(0i32),
        !skip_verify ==> c.verify_mode is None,
        c.server_name@ == server_name(),
{
    ClientTls {
        ca_file: None,
        certificate_file: None,
        private_key_file: None,
        verify_mode: if skip_verify {
            Some(no_verification_mode())
        } else {
            None
        },
        server_name: String::from_str("echo-server"),
    }
}

/// The plain-to-TLS proxy's connection to the TLS echo server, which must
/// present a certificate signed by the root CA.
pub fn proxy_upstream_client() -> (c: ClientTls)
    ensures
        c.ca_file matches Some(f) && f@ == root_ca_path(),
        c.certificate_file is None,
        c.private_key_file is None,
        c.verify_mode is None,
        c.server_name@ == server_name(),
{
    ClientTls {
        ca_file: Some(String::from_str("../certs/rootCA.pem")),
        certificate_file: None,
        private_key_file: None,
        verify_mode: None,
        server_name: String::from_str("echo-server"),
    }
}

} // verus!
