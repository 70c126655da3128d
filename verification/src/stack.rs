//! The protocol-stack vocabulary: which transports, security handshakes and
//! stream multiplexers exist, which execution environment a process runs in,
//! and which (transport, security, muxer) triples each environment supports.

use vstd::prelude::*;

verus! {

/// The underlying network substrate over which bytes move.
#[derive(Clone, Copy, Debug, PartialEq, Eq, Structural)]
pub enum Transport {
    Tcp,
    QuicV1,
    WebRtcDirect,
    Ws,
    Webtransport,
}

/// The handshake establishing an encrypted, authenticated channel over a
/// transport. Absent when the transport brings its own integrated security.
#[derive(Clone, Copy, Debug, PartialEq, Eq, Structural)]
pub enum SecProtocol {
    Noise,
    Tls,
}

/// A layer allowing multiple independent logical streams over one underlying
/// connection. Absent when the stack is already multiplexed.
#[derive(Clone, Copy, Debug, PartialEq, Eq, Structural)]
pub enum Muxer {
    Mplex,
    Yamux,
}

/// The execution environment a test process runs in: one with full OS access
/// (real sockets, preemptive threads) or a restricted browser-like one
/// (proxy-mediated sockets, cooperative scheduling). Chosen once at process
/// start; every construction rule is conditioned on it.
#[derive(Clone, Copy, Debug, PartialEq, Eq, Structural)]
pub enum Env {
    Native,
    Wasm,
}

/// The allow-list: exactly the (transport, security, muxer) triples for which
/// the given environment has a construction rule. Every other triple is
/// rejected, never silently defaulted.
pub open spec fn spec_supported(
    env: Env,
    transport: Transport,
    sec: Option<SecProtocol>,
    muxer: Option<Muxer>,
) -> bool {
    match env {
        Env::Native => match (transport, sec, muxer) {
            (Transport::QuicV1, None, None) => true,
            (Transport::Tcp, Some(_), Some(_)) => true,
            (Transport::Ws, Some(_), Some(_)) => true,
            (Transport::WebRtcDirect, None, None) => true,
            _ => false,
        },
        Env::Wasm => match (transport, sec, muxer) {
            (Transport::Webtransport, None, None) => true,
            (Transport::Ws, Some(SecProtocol::Noise), Some(_)) => true,
            (Transport::WebRtcDirect, None, None) => true,
            _ => false,
        },
    }
}

/// Decides membership of the allow-list for `env`.
pub fn supported(
    env: Env,
    transport: Transport,
    sec: Option<SecProtocol>,
    muxer: Option<Muxer>,
) -> (r: bool)
    ensures
        r == spec_supported(env, transport, sec, muxer),
{
    match env {
        Env::Native => match (transport, sec, muxer) {
            (Transport::QuicV1, None, None) => true,
            (Transport::Tcp, Some(_), Some(_)) => true,
            (Transport::Ws, Some(_), Some(_)) => true,
            (Transport::WebRtcDirect, None, None) => true,
            _ => false,
        },
        Env::Wasm => match (transport, sec, muxer) {
            (Transport::Webtransport, None, None) => true,
            (Transport::Ws, Some(SecProtocol::Noise), Some(_)) => true,
            (Transport::WebRtcDirect, None, None) => true,
            _ => false,
        },
    }
}

} // verus!
