//! The configuration resolver.
//!
//! Two external settings are mandatory: the collector endpoint URL and the
//! authentication credential. Absence or a malformed endpoint is a fatal
//! `ConfigError`; nothing is ever defaulted. The caller reads the raw values
//! (for example from the process environment) and hands them in as plain
//! optional strings.

use vstd::prelude::*;

use crate::errors::ConfigError;

verus! {

/// Whether a string parses as an absolute URL. Named rather than spelled
/// out: the full URL grammar lives in the parser.
pub uninterp spec fn url_parses(s: Seq<char>) -> bool;

/// The host component that URL parsing assigns to a string that parses, or
/// `None` where its URL carries no host.
pub uninterp spec fn url_host(s: Seq<char>) -> Option<Seq<char>>;

/// Relies on `url::Url::parse`, which succeeds exactly on the strings that
/// are valid absolute URLs, and `url::Url::host_str`, which hands back the
/// parsed, normalized host component when the URL has one. Both results
/// depend on the input string alone.
#[verifier::external_body]
fn parse_host(s: &str) -> (r: Result<Option<String>, ()>)
    ensures
        r is Ok <==> url_parses(s@),
        r matches Ok(h) ==> ({
            &&& h is Some <==> url_host(s@) is Some
            &&& h matches Some(x) ==> url_host(s@) == Some(x@)
        }),
{
    match url::Url::parse(s) {
        Ok(u) => Ok(u.host_str().map(|h| h.to_string())),
        Err(_) => Err(()),
    }
}

/// A validated collector endpoint: the URL as supplied, plus the host
/// component it parsed to. The host doubles as the transport dial target's
/// expected TLS server identity.
#[derive(Debug)]
pub struct Endpoint {
    pub url: String,
    pub host: String,
}

impl Endpoint {
    /// The stored host is exactly what URL parsing assigns to the stored
    /// URL, and it is non-empty.
    pub open spec fn wf(&self) -> bool {
        &&& url_parses(self.url@)
        &&& url_host(self.url@) == Some(self.host@)
        &&& self.host@.len() > 0
    }
}

/// The resolved startup configuration: a validated endpoint and the opaque
/// credential, immutable for the process lifetime.
#[derive(Debug)]
pub struct Config {
    pub endpoint: Endpoint,
    pub credential: String,
}

impl Config {
    pub open spec fn wf(&self) -> bool {
        self.endpoint.wf()
    }
}

/// The case analysis of resolution: which error each combination of inputs
/// earns, or, on success, the endpoint string, its parsed host and the
/// credential. The endpoint is checked first: it must be an absolute URL
/// with a non-empty host; only then is the credential required.
pub open spec fn resolve_outcome(endpoint: Option<String>, credential: Option<String>) -> Result<
    (String, Seq<char>, String),
    ConfigError,
> {
    match endpoint {
        None => Err(ConfigError::EndpointMissing),
        Some(e) => if !url_parses(e@) {
            Err(ConfigError::EndpointInvalid)
        } else {
            match url_host(e@) {
                None => Err(ConfigError::EndpointHostMissing),
                Some(h) => if h.len() == 0 {
                    Err(ConfigError::EndpointHostMissing)
                } else {
                    match credential {
                        None => Err(ConfigError::CredentialMissing),
                        Some(c) => Ok((e, h, c)),
                    }
                },
            }
        },
    }
}

/// Resolves the two mandatory settings, failing fast on whatever is absent
/// or malformed, exactly as `resolve_outcome` decides. On success the
/// returned configuration binds the endpoint exactly as supplied, the host
/// exactly as parsed, and the credential verbatim.
pub fn resolve(endpoint: Option<String>, credential: Option<String>) -> (r: Result<
    Config,
    ConfigError,
>)
    ensures
        ({
            match resolve_outcome(endpoint, credential) {
                Err(er) => r == Err::<Config, ConfigError>(er),
                Ok((e, h, c)) => {
                    &&& r matches Ok(cfg)
                    &&& cfg.wf()
                    &&& cfg.endpoint.url == e
                    &&& cfg.endpoint.host@ == h
                    &&& cfg.credential == c
                },
            }
        }),
{
    let e = match endpoint {
        None => {
            return Err(ConfigError::EndpointMissing);
        },
        Some(e) => e,
    };
    let host_opt = match parse_host(e.as_str()) {
        Err(()) => {
            return Err(ConfigError::EndpointInvalid);
        },
        Ok(h) => h,
    };
    let host = match host_opt {
        None => {
            return Err(ConfigError::EndpointHostMissing);
        },
        Some(h) => h,
    };
    if host.as_str().is_empty() {
        return Err(ConfigError::EndpointHostMissing);
    }
    let c = match credential {
        None => {
            return Err(ConfigError::CredentialMissing);
        },
        Some(c) => c,
    };
    Ok(Config { endpoint: Endpoint { url: e, host }, credential: c })
}

} // verus!
