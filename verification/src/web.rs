//! Settings of the CRUD web server: its cross-origin policy and its default
//! log filter.

use vstd::prelude::*;
use vstd::string::*;

verus! {

/// The name of `actix_web::http::header::CONTENT_TYPE` (the `http` crate's
/// standard header `content-type`).
#[verifier::external_body]
fn content_type_header() -> (name: String)
    ensures
        name@ == "content-type"@,
{
    actix_web::http::header::CONTENT_TYPE.as_str().to_string()
}

/// The name of `actix_web::http::header::AUTHORIZATION` (the `http` crate's
/// standard header `authorization`).
#[verifier::external_body]
fn authorization_header() -> (name: String)
    ensures
        name@ == "authorization"@,
{
    actix_web::http::header::AUTHORIZATION.as_str().to_string()
}

/// The name of `actix_web::http::header::ACCEPT` (the `http` crate's
/// standard header `accept`).
#[verifier::external_body]
fn accept_header() -> (name: String)
    ensures
        name@ == "accept"@,
{
    actix_web::http::header::ACCEPT.as_str().to_string()
}

/// What cross-origin requests the web server admits.
pub struct CorsPolicy {
    pub allowed_methods: Vec<String>,
    /// Lower-case header names.
    pub allowed_headers: Vec<String>,
    pub supports_credentials: bool,
}

/// The web server admits `GET` and `POST` with the headers `content-type`,
/// `authorization` and `accept`, credentials included.
pub fn cors_policy() -> (p: CorsPolicy)
    ensures
        p.allowed_methods@.len() == 2,
        p.allowed_methods@[0]@ == "GET"@,
        p.allowed_methods@[1]@ == "POST"@,
        p.allowed_headers@.len() == 3,
        p.allowed_headers@[0]@ == "content-type"@,
        p.allowed_headers@[1]@ == "authorization"@,
        p.allowed_headers@[2]@ == "accept"@,
        p.supports_credentials,
{
    let mut allowed_methods: Vec<String> = Vec::new();
    allowed_methods.push(String::from_str("GET"));
    allowed_methods.push(String::from_str("POST"));
    let mut allowed_headers: Vec<String> = Vec::new();
    allowed_headers.push(content_type_header());
    allowed_headers.push(authorization_header());
    allowed_headers.push(accept_header());
    CorsPolicy { allowed_methods, allowed_headers, supports_credentials: true }
}

/// The log filter the server installs before starting its logger: when
/// `RUST_LOG` is unset it becomes `actix_web=info`; a filter the user set
/// is left alone.
pub fn default_log_filter(rust_log_is_set: bool) -> (f: Option<String>)
    ensures
        rust_log_is_set <==> f is None,
        f matches Some(s) ==> s@ == "actix_web=info"@,
{
    if rust_log_is_set {
        None
    } else {
        Some(String::from_str("actix_web=info"))
    }
}

} // verus!
