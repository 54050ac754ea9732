//! The settings the service runs with.

use crate::text::same_text;
use vstd::prelude::*;
use vstd::string::*;

verus! {

/// The settings the service runs with.
#[derive(Debug, PartialEq, Eq)]
pub struct Config {
    pub database_url: String,
    pub jwt_secret: String,
    pub web_url: String,
    pub mainnet_node_address: String,
    pub testnet_node_address: String,
}

impl Clone for Config {
    fn clone(&self) -> (r: Self)
        ensures
            r.database_url@ == self.database_url@,
            r.jwt_secret@ == self.jwt_secret@,
            r.web_url@ == self.web_url@,
            r.mainnet_node_address@ == self.mainnet_node_address@,
            r.testnet_node_address@ == self.testnet_node_address@,
    {
        Config {
            database_url: self.database_url.clone(),
            jwt_secret: self.jwt_secret.clone(),
            web_url: self.web_url.clone(),
            mainnet_node_address: self.mainnet_node_address.clone(),
            testnet_node_address: self.testnet_node_address.clone(),
        }
    }
}

/// A setting as given, or its default.
pub open spec fn or_default(given: Option<String>, default: Seq<char>) -> Seq<char> {
    match given {
        Some(s) => s@,
        None => default,
    }
}

fn given_or(given: Option<String>, default: &str) -> (r: String)
    ensures
        r@ == or_default(given, default@),
{
    match given {
        Some(s) => s,
        None => String::from_str(default),
    }
}

/// The address of the web front end where none is set.
pub fn default_web_url() -> (r: &'static str)
    ensures
        r@ == "http://localhost:3000"@,
{
    "http://localhost:3000"
}

/// Puts the settings together from what the environment holds. The database
/// address and the token secret have no default: without them there are no
/// settings, and the caller has to see to it that both are given.
pub fn load_config(
    database_url: Option<String>,
    jwt_secret: Option<String>,
    web_url: Option<String>,
    mainnet_node_address: Option<String>,
    testnet_node_address: Option<String>,
) -> (config: Config)
    requires
        database_url is Some,
        jwt_secret is Some,
    ensures
        config.database_url == database_url->0,
        config.jwt_secret == jwt_secret->0,
        config.web_url@ == or_default(web_url, "http://localhost:3000"@),
        config.mainnet_node_address@ == or_default(
            mainnet_node_address,
            "https://node.mainnet.casper.network"@,
        ),
        config.testnet_node_address@ == or_default(
            testnet_node_address,
            "https://node.testnet.casper.network"@,
        ),
{
    Config {
        database_url: database_url.unwrap(),
        jwt_secret: jwt_secret.unwrap(),
        web_url: given_or(web_url, default_web_url()),
        mainnet_node_address: given_or(
            mainnet_node_address,
            "https://node.mainnet.casper.network",
        ),
        testnet_node_address: given_or(
            testnet_node_address,
            "https://node.testnet.casper.network",
        ),
    }
}

impl Config {
    /// The node to ask about `network`: the mainnet node for `mainnet`, the
    /// testnet node for every other name.
    pub fn node_address(&self, network: &str) -> (r: &String)
        ensures
            r == if network@ == "mainnet"@ {
                self.mainnet_node_address
            } else {
                self.testnet_node_address
            },
    {
        if same_text(network, "mainnet") {
            &self.mainnet_node_address
        } else {
            &self.testnet_node_address
        }
    }
}

/// Whom the service answers across origins, and what it lets them send.
#[derive(Debug, PartialEq, Eq)]
pub struct CorsPolicy {
    /// The one origin that is let in.
    pub allowed_origin: String,
    pub allowed_methods: Vec<String>,
    pub allowed_headers: Vec<String>,
    pub allow_credentials: bool,
}

/// The methods that are let in.
pub open spec fn cors_methods() -> Seq<Seq<char>> {
    seq!["GET"@, "POST"@, "OPTIONS"@]
}

/// The headers that are let in.
pub open spec fn cors_headers() -> Seq<Seq<char>> {
    seq![
        "cookie"@,
        "set-cookie"@,
        "content-length"@,
        "content-type"@,
        "access-control-allow-origin"@,
        "access-control-allow-headers"@,
        "access-control-allow-credentials"@,
        "access-control-allow-methods"@,
        "Credentials"@,
    ]
}

/// The service's policy across origins: the web front end at `web_url`, or at
/// its default address where none is set, may read, write and ask, with
/// cookies and credentials.
pub fn get_cors_config(web_url: Option<String>) -> (policy: CorsPolicy)
    ensures
        policy.allowed_origin@ == or_default(web_url, "http://localhost:3000"@),
        policy.allowed_methods.deep_view() == cors_methods(),
        policy.allowed_headers.deep_view() == cors_headers(),
        policy.allow_credentials,
{
    let mut allowed_methods: Vec<String> = Vec::new();
    allowed_methods.push(String::from_str("GET"));
    allowed_methods.push(String::from_str("POST"));
    allowed_methods.push(String::from_str("OPTIONS"));
    assert(allowed_methods.deep_view() =~= cors_methods());
    let mut allowed_headers: Vec<String> = Vec::new();
    allowed_headers.push(String::from_str("cookie"));
    allowed_headers.push(String::from_str("set-cookie"));
    allowed_headers.push(String::from_str("content-length"));
    allowed_headers.push(String::from_str("content-type"));
    allowed_headers.push(String::from_str("access-control-allow-origin"));
    allowed_headers.push(String::from_str("access-control-allow-headers"));
    allowed_headers.push(String::from_str("access-control-allow-credentials"));
    allowed_headers.push(String::from_str("access-control-allow-methods"));
    allowed_headers.push(String::from_str("Credentials"));
    assert(allowed_headers.deep_view() =~= cors_headers());
    CorsPolicy {
        allowed_origin: given_or(web_url, default_web_url()),
        allowed_methods,
        allowed_headers,
        allow_credentials: true,
    }
}

} // verus!
