//! The facade: one proxy per client, holding the bearer credential for the
//! duration of one invocation.
//!
//! Handling a client is a fixed sequence: attempt the upstream connect with
//! the request this module prescribes; on failure close the downstream
//! session with no message-level forwarding and no relayed explanation; on
//! success run the duplex relay to termination. The connect attempt and the
//! sessions live with the caller; [`Proxy::on_connect_outcome`] is the
//! decision between those two continuations.

use vstd::prelude::*;

use crate::connector::ConnectOutcome;
use crate::connector::ConnectRequest;
use crate::connector::build_connect_request;

verus! {

/// What `handle` does once the connect attempt has resolved.
#[derive(Clone, Copy, Debug, PartialEq, Eq, Structural)]
pub enum HandleStep {
    /// Close the downstream session at once, with no special payload;
    /// nothing is forwarded in either direction.
    CloseDownstream,
    /// Run the duplex relay between the two sessions until it terminates.
    RunRelay,
}

/// The relay facade for one client: owns the bearer credential for one
/// invocation; never logs or persists it.
pub struct Proxy {
    api_token: String,
}

impl Proxy {
    /// The credential this proxy connects upstream with.
    pub closed spec fn credential(&self) -> Seq<char> {
        self.api_token@
    }

    pub fn new(api_token: String) -> (p: Proxy)
        ensures
            p.credential() == api_token@,
    {
        Proxy { api_token }
    }

    /// The upstream handshake request for this proxy's credential: the fixed
    /// endpoint and the three required headers.
    pub fn connect_request(&self) -> (r: ConnectRequest)
        ensures
            r.wf(self.credential()),
    {
        build_connect_request(self.api_token.as_str())
    }

    /// The one decision `handle` makes: a failed connect attempt closes the
    /// downstream session with zero message-level forwarding, and only a
    /// successful one lets the relay run.
    pub fn on_connect_outcome(outcome: &ConnectOutcome) -> (s: HandleStep)
        ensures
            (match *outcome {
                ConnectOutcome::Connected => s == HandleStep::RunRelay,
                ConnectOutcome::Failed(_) => s == HandleStep::CloseDownstream,
            }),
    {
        match outcome {
            ConnectOutcome::Connected => HandleStep::RunRelay,
            ConnectOutcome::Failed(_) => HandleStep::CloseDownstream,
        }
    }
}

} // verus!
