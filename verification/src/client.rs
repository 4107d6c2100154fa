//! Client used to call endpoints: a credential paired with the service
//! endpoint, from which request builders are derived.

use crate::bionic::{Fixation, Saccade};
use crate::requests::convert::Builder;
use crate::secret::Secret;
use vstd::prelude::*;

verus! {

/// The domain the service lives at; also the fallback for the host header
/// when an endpoint has no domain of its own.
pub open spec fn base_domain() -> Seq<char> {
    "bionic-reading1.p.rapidapi.com"@
}

/// The path segment of the conversion endpoint.
pub open spec fn convert_path() -> Seq<char> {
    "convert"@
}

/// A service endpoint, as plain values: a scheme, an optional domain, and a
/// path that is specialized when a request is derived.
#[derive(Clone)]
pub struct Endpoint {
    pub scheme: String,
    pub domain: Option<String>,
    pub path: String,
}

impl Endpoint {
    /// The default base endpoint of the service, with an empty path.
    pub fn base() -> (r: Endpoint)
        ensures
            r.scheme@ == "https"@,
            r.domain.deep_view() == Some(base_domain()),
            r.path@ == Seq::<char>::empty(),
    {
        Endpoint {
            scheme: String::from_str("https"),
            domain: Some(String::from_str("bionic-reading1.p.rapidapi.com")),
            path: String::new(),
        }
    }

    /// The value for the host header: the endpoint's own domain, or the
    /// fixed default domain when it has none.
    pub fn host(&self) -> (r: String)
        ensures
            r@ == (match self.domain {
                Some(d) => d@,
                None => base_domain(),
            }),
    {
        match &self.domain {
            Some(d) => d.clone(),
            None => String::from_str("bionic-reading1.p.rapidapi.com"),
        }
    }

    /// The full URL for handing to a transport: `scheme://host/path`, with
    /// the same domain fallback as the host header.
    pub fn url_string(&self) -> (r: String)
        ensures
            r@ == self.scheme@ + "://"@ + (match self.domain {
                Some(d) => d@,
                None => base_domain(),
            }) + "/"@ + self.path@,
    {
        let mut r = self.scheme.clone();
        r.append("://");
        let host = self.host();
        r.append(host.as_str());
        r.append("/");
        r.append(self.path.as_str());
        r
    }

    /// A copy of this endpoint with its path replaced; the original value
    /// is untouched.
    pub fn with_path(&self, path: &str) -> (r: Endpoint)
        ensures
            r.scheme@ == self.scheme@,
            r.domain.deep_view() == self.domain.deep_view(),
            r.path@ == path@,
    {
        let domain = match &self.domain {
            Some(d) => Some(d.clone()),
            None => None,
        };
        Endpoint { scheme: self.scheme.clone(), domain, path: path.to_owned() }
    }
}

/// Client used to call endpoints: the API credential and the endpoint that
/// derived requests will target. Once built, the credential never changes;
/// deriving a request specializes a fresh endpoint value and leaves every
/// other copy of the client as it is.
#[must_use]
#[derive(Clone)]
pub struct Client {
    pub api_key: Secret,
    pub url: Endpoint,
}

impl Client {
    /// A client for the default base endpoint, wrapping the given credential
    /// text. Construction never fails and performs no I/O.
    pub fn new(api_key: &str) -> (r: Client)
        ensures
            r.api_key@ == api_key@,
            r.url.scheme@ == "https"@,
            r.url.domain.deep_view() == Some(base_domain()),
            r.url.path@ == Seq::<char>::empty(),
    {
        Client { api_key: Secret::from_str(api_key), url: Endpoint::base() }
    }

    /// Derives a request builder for converting `input`: the endpoint is
    /// specialized to the conversion path, and the request is seeded with
    /// the input text and the default fixation and saccade. No network
    /// access happens until the builder's terminal operation.
    pub fn convert(self, input: String) -> (r: Builder)
        ensures
            r.client.api_key == self.api_key,
            r.client.url.scheme@ == self.url.scheme@,
            r.client.url.domain.deep_view() == self.url.domain.deep_view(),
            r.client.url.path@ == convert_path(),
            r.request.input == input,
            r.request.fixation == Fixation::Weakest,
            r.request.saccade == Saccade::Fewest,
    {
        let url = self.url.with_path("convert");
        Builder::new(Client { api_key: self.api_key, url }, input)
    }
}

} // verus!
