use vstd::prelude::*;
use vstd::string::StringExecFns;
use crate::client::Client;

verus! {

/// The request timeout that holds where none is configured, in milliseconds.
pub const DEFAULT_TIMEOUT_MILLIS: u64 = 800;

/// The base URL of the public collection endpoint, which holds where none is
/// configured.
pub open spec fn default_api_endpoint() -> Seq<char> {
    "https://app.posthog.com"@
}

/// A client configuration as mathematics.
pub struct OptionsView {
    pub api_endpoint: Seq<char>,
    pub api_key: Seq<char>,
    pub timeout_millis: u64,
}

/// What a delivery client is made from: the API key, the endpoint's base URL
/// and the request timeout.
#[derive(Debug)]
pub struct ClientOptions {
    api_endpoint: String,
    api_key: String,
    timeout_millis: u64,
}

impl View for ClientOptions {
    type V = OptionsView;

    closed spec fn view(&self) -> OptionsView {
        OptionsView {
            api_endpoint: self.api_endpoint@,
            api_key: self.api_key@,
            timeout_millis: self.timeout_millis,
        }
    }
}

impl ClientOptions {
    /// Options with the given API key, the public endpoint and the default
    /// timeout.
    pub fn new(api_key: String) -> (options: ClientOptions)
        ensures
            options@ == (OptionsView {
                api_endpoint: default_api_endpoint(),
                api_key: api_key@,
                timeout_millis: DEFAULT_TIMEOUT_MILLIS,
            }),
    {
        ClientOptions {
            api_endpoint: String::from_str("https://app.posthog.com"),
            api_key,
            timeout_millis: DEFAULT_TIMEOUT_MILLIS,
        }
    }

    /// Replaces the endpoint's base URL.
    pub fn api_endpoint(&mut self, api_endpoint: String)
        ensures
            final(self)@ == (OptionsView { api_endpoint: api_endpoint@, ..old(self)@ }),
    {
        self.api_endpoint = api_endpoint;
    }

    /// Replaces the request timeout, given in milliseconds.
    pub fn timeout(&mut self, timeout_millis: u64)
        ensures
            final(self)@ == (OptionsView { timeout_millis, ..old(self)@ }),
    {
        self.timeout_millis = timeout_millis;
    }

    /// The endpoint's base URL.
    pub fn endpoint(&self) -> (endpoint: &String)
        ensures
            endpoint@ == self@.api_endpoint,
    {
        &self.api_endpoint
    }

    /// The API key.
    pub fn api_key(&self) -> (key: &String)
        ensures
            key@ == self@.api_key,
    {
        &self.api_key
    }

    /// The request timeout in milliseconds.
    pub fn timeout_millis(&self) -> (millis: u64)
        ensures
            millis == self@.timeout_millis,
    {
        self.timeout_millis
    }

    /// The delivery client for these options.
    pub fn build(self) -> (client: Client)
        ensures
            client@ == self@,
    {
        Client::new(self)
    }
}

impl Clone for ClientOptions {
    fn clone(&self) -> (copy: ClientOptions)
        ensures
            copy@ == self@,
    {
        ClientOptions {
            api_endpoint: self.api_endpoint.clone(),
            api_key: self.api_key.clone(),
            timeout_millis: self.timeout_millis,
        }
    }
}

} // verus!
