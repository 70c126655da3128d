//! The rendezvous client's decisions. A client publishes a value under a key
//! with `push` and waits for a peer's value with `block_pop`; the broker
//! itself is outside the process, so each operation is split into a planning
//! step, which says exactly what to send, and a finishing step, which says
//! exactly what every possible outcome means. The surrounding process
//! performs the one send-and-wait in between.

use vstd::prelude::*;
use crate::error::Error;
use crate::wire::spec_blpop_request_body;
use crate::wire::blpop_request_body;

verus! {

/// Which connection a rendezvous client holds to the broker: a direct one
/// over the broker's own protocol, or an HTTP proxy for environments that
/// cannot keep a direct socket. Chosen once at process start.
#[derive(Clone, Copy, Debug, PartialEq, Eq, Structural)]
pub enum Backend {
    Direct,
    HttpDelegate,
}

/// What to send for a `push`: the broker's `RPUSH` command.
#[derive(Debug)]
pub struct PushCommand {
    pub key: String,
    pub value: String,
}

/// What to send for a `block_pop`.
#[derive(Debug)]
pub enum PopCommand {
    /// The broker's `BLPOP` command, over the direct connection.
    Blpop { key: String, timeout_secs: u64 },
    /// A `POST` of the given JSON body to the proxy's `/blpop` endpoint.
    HttpPost { body: String },
}

/// Plans a `push(key, value)`. Over the direct backend the value is to be
/// appended to the key's list with `RPUSH`; the HTTP delegate does not
/// implement `push` at all, which is a caller mistake surfaced as
/// `Unimplemented`, with nothing sent and nothing half-published.
pub fn plan_push(backend: Backend, key: &str, value: &str) -> (r: Result<PushCommand, Error>)
    ensures
        backend is Direct ==> (r matches Ok(cmd) && cmd.key@ == key@ && cmd.value@ == value@),
        backend is HttpDelegate ==> (r matches Err(e) && e == Error::Unimplemented),
{
    match backend {
        Backend::Direct => Ok(PushCommand { key: key.to_owned(), value: value.to_owned() }),
        Backend::HttpDelegate => Err(Error::Unimplemented),
    }
}

/// The broker's acknowledgement decides a `push`: acknowledged means the
/// value is published; anything else means the broker was not reached, and
/// no value is left half-published.
pub fn finish_push(acknowledged: bool) -> (r: Result<(), Error>)
    ensures
        acknowledged ==> (r matches Ok(u) && u == ()),
        !acknowledged ==> (r matches Err(e) && e == Error::BrokerUnavailable),
{
    if acknowledged {
        Ok(())
    } else {
        Err(Error::BrokerUnavailable)
    }
}

/// Plans a `block_pop(key, timeout)`: one wait-with-timeout, no retries.
/// Over the direct backend it is the broker's `BLPOP` command; over the HTTP
/// delegate it is a `POST /blpop` whose JSON body carries the same key and
/// timeout.
pub fn plan_block_pop(backend: Backend, key: &str, timeout_secs: u64) -> (cmd: PopCommand)
    ensures
        backend is Direct ==> (cmd matches PopCommand::Blpop { key: k, timeout_secs: t } && k@
            == key@ && t == timeout_secs),
        backend is HttpDelegate ==> (cmd matches PopCommand::HttpPost { body } && body@
            == spec_blpop_request_body(key@, timeout_secs as nat)),
{
    match backend {
        Backend::Direct => PopCommand::Blpop { key: key.to_owned(), timeout_secs },
        Backend::HttpDelegate => PopCommand::HttpPost {
            body: blpop_request_body(key, timeout_secs),
        },
    }
}

/// Interprets what came back from a `block_pop`, whichever backend carried
/// it. No reply at all means the broker was not reached. A reply is the
/// broker's native shape, a list of strings: `[key, value]` when a value was
/// popped, and fewer than two elements when the wait timed out — an empty or
/// absent second element is a timeout, never a value.
pub fn finish_block_pop(reply: Option<Vec<String>>) -> (r: Result<String, Error>)
    ensures
        reply is None ==> (r matches Err(e) && e == Error::BrokerUnavailable),
        (reply matches Some(items) && items@.len() >= 2) ==> (r matches Ok(v) && v@
            == reply->Some_0@[1]@),
        (reply matches Some(items) && items@.len() < 2) ==> (r matches Err(e) && e
            == Error::RendezvousTimeout),
{
    match reply {
        None => Err(Error::BrokerUnavailable),
        Some(mut items) => {
            if items.len() >= 2 {
                let v = items.remove(1);
                Ok(v)
            } else {
                Err(Error::RendezvousTimeout)
            }
        },
    }
}

} // verus!
