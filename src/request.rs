//! The two administrative calls and the requests that carry them.
use vstd::prelude::*;
use vstd::string::*;
use crate::config::EndpointConfig;

verus! {

/// Path of the endpoint that purges stale identity-verification data.
pub const DELETION_PATH: &'static str = "/admin/user-idv-data";

/// Path of the endpoint that sweeps collected funds across chains.
pub const TRANSFER_PATH: &'static str = "/admin/transfer-funds";

/// Header that carries the API key.
pub const API_KEY_HEADER: &'static str = "x-api-key";

/// One of the two administrative calls made on every tick.
#[derive(Clone, Copy, Debug, PartialEq, Eq, Structural)]
pub enum Trigger {
    /// Purge stale user identity-verification data.
    Deletion,
    /// Sweep collected funds.
    Transfer,
}

/// The HTTP methods the daemon uses.
#[derive(Clone, Copy, Debug, PartialEq, Eq, Structural)]
pub enum HttpMethod {
    Delete,
    Post,
}

pub open spec fn method_of(t: Trigger) -> HttpMethod {
    match t {
        Trigger::Deletion => HttpMethod::Delete,
        Trigger::Transfer => HttpMethod::Post,
    }
}

pub open spec fn path_of(t: Trigger) -> Seq<char> {
    match t {
        Trigger::Deletion => DELETION_PATH@,
        Trigger::Transfer => TRANSFER_PATH@,
    }
}

/// A fully planned outbound request: method, absolute URL and the value of
/// the `API_KEY_HEADER` header.
#[derive(Debug)]
pub struct AdminRequest {
    method: HttpMethod,
    url: String,
    api_key: String,
}

impl AdminRequest {
    pub closed spec fn spec_method(&self) -> HttpMethod {
        self.method
    }

    pub closed spec fn spec_url(&self) -> Seq<char> {
        self.url@
    }

    pub closed spec fn spec_api_key(&self) -> Seq<char> {
        self.api_key@
    }

    /// Whether this request is the one that `config` calls for on `t`.
    pub open spec fn plans(&self, config: EndpointConfig, t: Trigger) -> bool {
        &&& self.spec_method() == method_of(t)
        &&& self.spec_url() == config.spec_base_url() + path_of(t)
        &&& self.spec_api_key() == config.spec_api_key()
    }

    pub fn method(&self) -> (r: HttpMethod)
        ensures
            r == self.spec_method(),
    {
        self.method
    }

    pub fn url(&self) -> (r: &str)
        ensures
            r@ == self.spec_url(),
    {
        self.url.as_str()
    }

    pub fn api_key(&self) -> (r: &str)
        ensures
            r@ == self.spec_api_key(),
    {
        self.api_key.as_str()
    }
}

impl EndpointConfig {
    /// Plans the request for one trigger: a DELETE for the deletion call and
    /// a POST for the transfer call, both under the configured base URL and
    /// both authenticated with the configured key.
    pub fn request_for(&self, t: Trigger) -> (r: AdminRequest)
        ensures
            r.plans(*self, t),
    {
        let path = match t {
            Trigger::Deletion => DELETION_PATH,
            Trigger::Transfer => TRANSFER_PATH,
        };
        let method = match t {
            Trigger::Deletion => HttpMethod::Delete,
            Trigger::Transfer => HttpMethod::Post,
        };
        let base = String::from_str(self.base_url());
        AdminRequest {
            method,
            url: base.concat(path),
            api_key: String::from_str(self.api_key()),
        }
    }
}

} // verus!
