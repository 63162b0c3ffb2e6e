//! The upstream connector's computational half: the handshake request.
//!
//! The handshake itself — resolving, upgrading, TLS — is transport work the
//! caller performs; this module pins down what the request must contain (the
//! fixed realtime endpoint with its model-selecting query parameter, and the
//! three required headers) and how the outcome of the one attempt is
//! represented. There is no retry: a failed attempt is terminal for the
//! invocation.

use vstd::prelude::*;

verus! {

/// The fixed upstream endpoint, with the query parameter selecting the model
/// and version.
pub open spec fn upstream_url() -> Seq<char> {
    "wss://api.openai.com/v1/realtime?model=gpt-4o-realtime-preview-2024-10-01"@
}

/// Value of the feature-opt-in header `OpenAI-Beta`.
pub open spec fn beta_value() -> Seq<char> {
    "realtime=v1"@
}

/// Value of the static identifying `User-Agent` header.
pub open spec fn user_agent_value() -> Seq<char> {
    "rust-openai-proxy"@
}

/// Value of the `Authorization` header for a given bearer credential.
pub open spec fn authorization_value(credential: Seq<char>) -> Seq<char> {
    "Bearer "@ + credential
}

/// Everything the upstream handshake request carries: the target and the
/// values of the three required headers, named by the doc comment of each
/// field.
pub struct ConnectRequest {
    /// The target: the fixed upstream endpoint plus the model-selecting
    /// query parameter.
    pub url: String,
    /// Value of the feature-opt-in marker header `OpenAI-Beta`.
    pub beta: String,
    /// Value of the static identifying `User-Agent` header.
    pub user_agent: String,
    /// Value of the `Authorization` header, built from the credential.
    pub authorization: String,
}

impl ConnectRequest {
    /// The request is exactly the one the service expects for the given
    /// credential.
    pub open spec fn wf(self, credential: Seq<char>) -> bool {
        &&& self.url@ == upstream_url()
        &&& self.beta@ == beta_value()
        &&& self.user_agent@ == user_agent_value()
        &&& self.authorization@ == authorization_value(credential)
    }
}

/// Builds the upstream handshake request for one bearer credential.
pub fn build_connect_request(credential: &str) -> (r: ConnectRequest)
    ensures
        r.wf(credential@),
{
    ConnectRequest {
        url: String::from_str("wss://api.openai.com/v1/realtime?model=gpt-4o-realtime-preview-2024-10-01"),
        beta: String::from_str("realtime=v1"),
        user_agent: String::from_str("rust-openai-proxy"),
        authorization: String::from_str("Bearer ").concat(credential),
    }
}

/// An upstream handshake or transport failure; terminal for the invocation.
#[derive(Clone, Debug, PartialEq, Eq)]
pub struct ConnectError {
    /// What the transport reported, as text.
    pub detail: String,
}

/// How one upstream connect attempt ended. The live session and any
/// handshake metadata stay with the caller that performed the handshake;
/// the relay core only ever acts on which of the two happened.
pub enum ConnectOutcome {
    Connected,
    Failed(ConnectError),
}

} // verus!
