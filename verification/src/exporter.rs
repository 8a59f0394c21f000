//! The exporter builder.
//!
//! Construction happens once at startup and is synchronous. From a resolved
//! configuration it produces the complete plan the transport layer binds:
//! the dial target, the TLS server identity derived from the endpoint's host
//! (never caller-overridable), the fixed authentication header carrying the
//! credential verbatim, and the resource attributes identifying the emitting
//! service. A credential that cannot be encoded as a header value is a fatal
//! `TransportError` here, never deferred to the first export.

use std::str::FromStr;

use vstd::prelude::*;

use crate::config::Config;
use crate::errors::TransportError;

verus! {

/// Whether a character may appear in an authentication header value:
/// horizontal tab, or any character other than the C0 controls and delete.
pub open spec fn header_value_char(c: char) -> bool {
    c == '\t' || (c as u32 >= 32 && c as u32 != 127)
}

/// Whether a string encodes as an authentication header value.
pub open spec fn header_value_ok(s: Seq<char>) -> bool {
    forall|i: int| 0 <= i < s.len() ==> header_value_char(s[i])
}

/// Relies on `tonic::metadata::MetadataValue::<Ascii>::from_str`, which
/// defers to `http::HeaderValue::from_str`: it accepts exactly the strings
/// whose bytes are horizontal tab, or at least 32 and not 127. Every byte of
/// a multi-byte UTF-8 character is at least 128 and so passes the byte test,
/// which makes the byte-level rule equal to the character-level
/// `header_value_ok`.
#[verifier::external_body]
fn metadata_value_ok(s: &str) -> (r: bool)
    ensures
        r == header_value_ok(s@),
{
    tonic::metadata::MetadataValue::<tonic::metadata::Ascii>::from_str(s).is_ok()
}

/// Everything the transport layer needs to stand up the span exporter,
/// fixed at build time.
#[derive(Debug)]
pub struct ExporterPlan {
    /// The collector URL, the transport dial target.
    pub endpoint: String,
    /// The server identity TLS verification must check: the endpoint's host.
    pub tls_server_name: String,
    /// The fixed authentication header name.
    pub header_key: String,
    /// The authentication header value: the credential, verbatim.
    pub header_value: String,
    /// Service-identifying attributes attached to every exported batch.
    pub resource: Vec<(String, String)>,
}

/// Builds the exporter plan for a resolved configuration. Succeeds for every
/// configuration whose credential encodes as a header value, and then binds
/// the endpoint, the endpoint's host as the TLS identity, the credential
/// verbatim under the fixed header name, and a single service-name resource
/// attribute. A credential that does not encode is the one build failure.
pub fn build(config: Config, service_name: String) -> (r: Result<ExporterPlan, TransportError>)
    requires
        config.wf(),
    ensures
        header_value_ok(config.credential@) ==> ({
            &&& r matches Ok(p)
            &&& p.endpoint == config.endpoint.url
            &&& p.tls_server_name == config.endpoint.host
            &&& p.header_key@ == "x-honeycomb-team"@
            &&& p.header_value == config.credential
            &&& p.resource@.len() == 1
            &&& p.resource@[0].0@ == "service.name"@
            &&& p.resource@[0].1 == service_name
        }),
        !header_value_ok(config.credential@) ==> r == Err::<ExporterPlan, TransportError>(
            TransportError::CredentialNotAscii,
        ),
{
    if !metadata_value_ok(config.credential.as_str()) {
        return Err(TransportError::CredentialNotAscii);
    }
    let mut resource: Vec<(String, String)> = Vec::new();
    resource.push(("service.name".to_owned(), service_name));
    Ok(
        ExporterPlan {
            endpoint: config.endpoint.url,
            tls_server_name: config.endpoint.host,
            header_key: "x-honeycomb-team".to_owned(),
            header_value: config.credential,
            resource,
        },
    )
}

} // verus!
