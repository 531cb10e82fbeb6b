//! An HTTP client together with what it was set up with.
use vstd::prelude::*;

verus! {

/// The HTTP client of `reqwest`.
#[verifier::external_type_specification]
#[verifier::external_body]
pub struct ExClient(reqwest::Client);

/// The error of `reqwest`.
#[verifier::external_type_specification]
#[verifier::external_body]
pub struct ExReqwestError(reqwest::Error);

/// A proxy as `reqwest` holds it.
#[verifier::external_type_specification]
#[verifier::external_body]
pub struct ExProxy(reqwest::Proxy);

/// Whether `reqwest::Proxy::https` can read the text as the address of a proxy.
pub uninterp spec fn is_proxy_address(url: Seq<char>) -> bool;

/// A proxy for HTTPS and the address that it was made from.
pub(crate) struct HttpsProxy {
    proxy: reqwest::Proxy,
    url: String,
}

impl HttpsProxy {
    /// The address that the proxy was made from.
    pub(crate) closed spec fn url(self) -> Seq<char> {
        self.url@
    }
}

/// Calls `reqwest::Proxy::https`. Claimed of it: whether the text can be read depends on the text
/// alone, and the proxy that comes back was made from it.
#[verifier::external_body]
pub(crate) fn https_proxy(url: &str) -> (r: Result<HttpsProxy, reqwest::Error>)
    ensures
        r is Ok == is_proxy_address(url@),
        r matches Ok(proxy) ==> proxy.url() == url@,
{
    Ok(HttpsProxy { proxy: reqwest::Proxy::https(url)?, url: url.to_string() })
}

/// A client and the user agent and proxy that it was set up with.
pub struct BuiltClient {
    client: reqwest::Client,
    agent: String,
    proxy: Option<String>,
}

impl BuiltClient {
    /// The user agent that the client introduces itself with.
    pub closed spec fn agent(self) -> Seq<char> {
        self.agent@
    }

    /// The proxy that the client was given for HTTPS, if any.
    pub closed spec fn proxy(self) -> Option<Seq<char>> {
        match self.proxy {
            Some(url) => Some(url@),
            None => None,
        }
    }

    /// The client itself.
    pub closed spec fn inner(self) -> reqwest::Client {
        self.client
    }

    /// The client itself.
    pub fn client(&self) -> (r: &reqwest::Client)
        ensures
            *r == self.inner(),
    {
        &self.client
    }

    /// The user agent that the client introduces itself with.
    pub fn user_agent(&self) -> (r: &str)
        ensures
            r@ == self.agent(),
    {
        self.agent.as_str()
    }

    /// The proxy that the client was given for HTTPS, if any.
    pub fn proxy_url(&self) -> (r: Option<&str>)
        ensures
            self.proxy() == (match r {
                Some(url) => Some(url@),
                None => None,
            }),
    {
        match &self.proxy {
            Some(url) => Some(url.as_str()),
            None => None,
        }
    }
}

/// Calls `reqwest::ClientBuilder::build` with a user agent. Claimed of it: a client that comes
/// back was given this agent and no proxy. Whether one comes back depends on the machine.
#[verifier::external_body]
pub(crate) fn build_direct(agent: &str) -> (r: Result<BuiltClient, reqwest::Error>)
    ensures
        r matches Ok(built) ==> built.agent() == agent@ && built.proxy() is None,
{
    let client = reqwest::Client::builder().user_agent(agent).build()?;
    Ok(BuiltClient { client, agent: agent.to_string(), proxy: None })
}

/// Calls `reqwest::ClientBuilder::build` with a user agent and a proxy for HTTPS. Claimed of it:
/// a client that comes back was given this agent and this proxy. Whether one comes back depends
/// on the machine.
#[verifier::external_body]
pub(crate) fn build_proxied(agent: &str, proxy: HttpsProxy) -> (r: Result<
    BuiltClient,
    reqwest::Error,
>)
    ensures
        r matches Ok(built) ==> built.agent() == agent@ && built.proxy() == Some(proxy.url()),
{
    let client = reqwest::Client::builder().user_agent(agent).proxy(proxy.proxy).build()?;
    Ok(BuiltClient { client, agent: agent.to_string(), proxy: Some(proxy.url) })
}

} // verus!
