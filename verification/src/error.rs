//! The error vocabulary of the library. Each kind is a distinct condition:
//! none is ever substituted for another, and no operation leaves partial
//! state behind when it fails.

use vstd::prelude::*;
use crate::stack::Muxer;
use crate::stack::SecProtocol;
use crate::stack::Transport;

verus! {

/// Why an operation failed.
#[derive(Clone, Copy, Debug, PartialEq, Eq)]
pub enum Error {
    /// The requested triple has no construction rule in the active
    /// environment; the offending values are carried along. Fatal to that
    /// endpoint's setup, never retried.
    UnsupportedCombination {
        transport: Transport,
        sec: Option<SecProtocol>,
        muxer: Option<Muxer>,
    },
    /// The rendezvous broker could not be reached or did not acknowledge.
    BrokerUnavailable,
    /// No peer value appeared at the key within the timeout bound. A caller
    /// may recover by issuing a fresh call.
    RendezvousTimeout,
    /// The operation was invoked on a backend that does not support it:
    /// a caller or configuration mistake.
    Unimplemented,
}

impl Error {
    /// A short diagnostic text for the error, for callers that log it.
    pub fn describe(&self) -> (r: &'static str)
        ensures
            self is UnsupportedCombination ==> r@ == "unsupported combination of transport, security and muxer"@,
            self is BrokerUnavailable ==> r@ == "could not reach the rendezvous broker"@,
            self is RendezvousTimeout ==> r@ == "timed out waiting for a rendezvous value"@,
            self is Unimplemented ==> r@ == "operation not supported by this backend"@,
    {
        match self {
            Error::UnsupportedCombination { .. } => "unsupported combination of transport, security and muxer",
            Error::BrokerUnavailable => "could not reach the rendezvous broker",
            Error::RendezvousTimeout => "timed out waiting for a rendezvous value",
            Error::Unimplemented => "operation not supported by this backend",
        }
    }
}

} // verus!
