//! Endpoint configuration: which service to talk to, and with what key.
use vstd::prelude::*;
use vstd::string::*;

verus! {

/// Mode value that selects the local development service.
pub const DEV_MODE: &'static str = "dev";

/// Base URL of the local development service.
pub const DEV_BASE_URL: &'static str = "http://localhost:3000";

/// Base URL of the production service.
pub const PROD_BASE_URL: &'static str = "https://id-server.holonym.io";

/// The base URL that a mode value selects: the development service on an
/// exact match with `DEV_MODE`, production on anything else.
pub open spec fn base_url_of(mode: Seq<char>) -> Seq<char> {
    if mode == DEV_MODE@ {
        DEV_BASE_URL@
    } else {
        PROD_BASE_URL@
    }
}

/// Picks the base URL for a mode value.
pub fn base_url_for(mode: &String) -> (r: String)
    ensures
        r@ == base_url_of(mode@),
{
    let dev = String::from_str(DEV_MODE);
    if mode.eq(&dev) {
        String::from_str(DEV_BASE_URL)
    } else {
        String::from_str(PROD_BASE_URL)
    }
}

/// A setting the daemon cannot start without.
#[derive(Clone, Copy, Debug, PartialEq, Eq, Structural)]
pub enum ConfigError {
    /// The mode indicator is not set.
    MissingMode,
    /// The API key is not set.
    MissingApiKey,
}

/// Where the administrative endpoints live and the key that unlocks them.
/// Resolved once, before the first call is scheduled.
#[derive(Debug)]
pub struct EndpointConfig {
    base_url: String,
    api_key: String,
}

impl EndpointConfig {
    pub closed spec fn spec_base_url(&self) -> Seq<char> {
        self.base_url@
    }

    pub closed spec fn spec_api_key(&self) -> Seq<char> {
        self.api_key@
    }

    /// Builds the configuration from the raw settings: the mode indicator
    /// is checked first, then the API key. A missing setting is an error.
    pub fn resolve(mode: Option<String>, api_key: Option<String>) -> (r: Result<
        EndpointConfig,
        ConfigError,
    >)
        ensures
            r is Ok <==> (mode is Some && api_key is Some),
            mode is None ==> r == Err::<EndpointConfig, ConfigError>(ConfigError::MissingMode),
            mode is Some && api_key is None ==> r == Err::<EndpointConfig, ConfigError>(
                ConfigError::MissingApiKey,
            ),
            r matches Ok(c) ==> c.spec_base_url() == base_url_of(mode->0@) && c.spec_api_key()
                == api_key->0@,
    {
        match mode {
            None => Err(ConfigError::MissingMode),
            Some(m) => match api_key {
                None => Err(ConfigError::MissingApiKey),
                Some(k) => Ok(EndpointConfig { base_url: base_url_for(&m), api_key: k }),
            },
        }
    }

    pub fn base_url(&self) -> (r: &str)
        ensures
            r@ == self.spec_base_url(),
    {
        self.base_url.as_str()
    }

    pub fn api_key(&self) -> (r: &str)
        ensures
            r@ == self.spec_api_key(),
    {
        self.api_key.as_str()
    }
}

/// Exactly one of the two base URLs is chosen for every mode value, and the
/// choice is decided by an exact match with the development sentinel.
pub proof fn lemma_one_base_url(mode: Seq<char>)
    ensures
        base_url_of(mode) == DEV_BASE_URL@ || base_url_of(mode) == PROD_BASE_URL@,
        base_url_of(mode) == DEV_BASE_URL@ <==> mode == DEV_MODE@,
        base_url_of(mode) == PROD_BASE_URL@ <==> mode != DEV_MODE@,
{
    reveal_strlit("http://localhost:3000");
    reveal_strlit("https://id-server.holonym.io");
    assert(DEV_BASE_URL@[0] == 'h' && DEV_BASE_URL@[4] == ':');
    assert(PROD_BASE_URL@[4] == 's');
}

} // verus!
