//! The transport matrix resolver: maps a requested (transport, security,
//! muxer) triple to the validated protocol-stack description for the active
//! environment, together with the concrete dial address obtained by
//! substituting the caller's bind IP into the fixed multiaddr template of the
//! matched rule. Triples outside the allow-list fail with
//! `UnsupportedCombination`; that is the only error path.

use vstd::prelude::*;
use crate::error::Error;
use crate::stack::Env;
use crate::stack::Muxer;
use crate::stack::SecProtocol;
use crate::stack::Transport;
use crate::stack::spec_supported;
use crate::stack::supported;

verus! {

/// Every endpoint is configured with this fixed idle-connection timeout, in
/// seconds: an explicit liveness policy, not a default left to the underlying
/// library.
pub const IDLE_CONNECTION_TIMEOUT_SECS: u64 = 5;

/// The part of the dial-address template that follows the bind IP, fixed per
/// supported triple. Meaningful only on the allow-list of `env`.
pub open spec fn spec_addr_suffix(
    env: Env,
    transport: Transport,
    sec: Option<SecProtocol>,
    muxer: Option<Muxer>,
) -> Seq<char> {
    match (env, transport) {
        (Env::Native, Transport::QuicV1) => "/udp/0/quic-v1"@,
        (Env::Native, Transport::Tcp) => "/tcp/0"@,
        (Env::Native, Transport::Ws) => "/tcp/0/ws"@,
        (Env::Native, Transport::WebRtcDirect) => "/udp/0/webrtc-direct"@,
        (Env::Wasm, Transport::Webtransport) => "/udp/0/quic/webtransport"@,
        (Env::Wasm, Transport::Ws) => "/tcp/0/wss"@,
        (Env::Wasm, Transport::WebRtcDirect) => "/udp/0/webrtc-direct"@,
        _ => Seq::<char>::empty(),
    }
}

/// The fixed dial-address template of a supported triple, with the `{ip}`
/// placeholder still in place.
pub open spec fn spec_dial_template(
    env: Env,
    transport: Transport,
    sec: Option<SecProtocol>,
    muxer: Option<Muxer>,
) -> Seq<char> {
    "/ip4/"@ + "{ip}"@ + spec_addr_suffix(env, transport, sec, muxer)
}

/// The concrete dial address of a supported triple: the template with the
/// bind IP substituted for the placeholder.
pub open spec fn spec_dial_addr(
    env: Env,
    transport: Transport,
    sec: Option<SecProtocol>,
    muxer: Option<Muxer>,
    ip: Seq<char>,
) -> Seq<char> {
    "/ip4/"@ + ip + spec_addr_suffix(env, transport, sec, muxer)
}

/// Replaces the first occurrence of the placeholder `{ip}` in `tmpl` with
/// `ip`; leaves `tmpl` unchanged when no occurrence exists.
pub open spec fn spec_substitute_ip(tmpl: Seq<char>, ip: Seq<char>) -> Seq<char>
    decreases tmpl.len(),
{
    if tmpl.len() >= 4 && tmpl.subrange(0, 4) == "{ip}"@ {
        ip + tmpl.skip(4)
    } else if tmpl.len() == 0 {
        tmpl
    } else {
        seq![tmpl[0]] + spec_substitute_ip(tmpl.skip(1), ip)
    }
}

/// Substitution walks past any prefix that holds no `{` unchanged.
proof fn lemma_substitute_past_prefix(pre: Seq<char>, rest: Seq<char>, ip: Seq<char>)
    requires
        forall|i: int| 0 <= i < pre.len() ==> pre[i] != '{',
    ensures
        spec_substitute_ip(pre + rest, ip) == pre + spec_substitute_ip(rest, ip),
    decreases pre.len(),
{
    reveal_strlit("{ip}");
    if pre.len() == 0 {
        assert(pre + rest =~= rest);
        assert(pre + spec_substitute_ip(rest, ip) =~= spec_substitute_ip(rest, ip));
    } else {
        let t = pre + rest;
        assert(t[0] == pre[0]);
        if t.len() >= 4 && t.subrange(0, 4) == "{ip}"@ {
            assert(t.subrange(0, 4)[0] == '{');
            assert(false);
        }
        assert(t.skip(1) =~= pre.skip(1) + rest);
        lemma_substitute_past_prefix(pre.skip(1), rest, ip);
        assert(seq![t[0]] + (pre.skip(1) + spec_substitute_ip(rest, ip)) =~= pre
            + spec_substitute_ip(rest, ip));
    }
}

/// Substituting an IP into a template of the fixed shape
/// `/ip4/{ip}<suffix>` yields `/ip4/<ip><suffix>`, whatever the suffix.
proof fn lemma_substitute_standard(suffix: Seq<char>, ip: Seq<char>)
    ensures
        spec_substitute_ip("/ip4/"@ + "{ip}"@ + suffix, ip) == "/ip4/"@ + ip + suffix,
{
    reveal_strlit("/ip4/");
    reveal_strlit("{ip}");
    let tail = "{ip}"@ + suffix;
    assert("/ip4/"@ + "{ip}"@ + suffix =~= "/ip4/"@ + tail);
    lemma_substitute_past_prefix("/ip4/"@, tail, ip);
    assert(tail.subrange(0, 4) =~= "{ip}"@);
    assert(tail.skip(4) =~= suffix);
    assert("/ip4/"@ + (ip + suffix) =~= "/ip4/"@ + ip + suffix);
}

/// For every triple on the allow-list, the concrete dial address is exactly
/// the fixed template of that triple with the bind IP substituted for the
/// `{ip}` placeholder.
pub proof fn law_dial_addr_matches_template(
    env: Env,
    transport: Transport,
    sec: Option<SecProtocol>,
    muxer: Option<Muxer>,
    ip: Seq<char>,
)
    requires
        spec_supported(env, transport, sec, muxer),
    ensures
        spec_substitute_ip(spec_dial_template(env, transport, sec, muxer), ip)
            == spec_dial_addr(env, transport, sec, muxer, ip),
{
    lemma_substitute_standard(spec_addr_suffix(env, transport, sec, muxer), ip);
}

/// A validated protocol-stack description: the matched triple, the liveness
/// policy every endpoint is built with, and the concrete dial address to
/// advertise. Constructing the actual endpoint from it is the caller's
/// environment-specific work; no field here is ever produced for a triple
/// outside the allow-list.
#[derive(Debug)]
pub struct Resolution {
    pub transport: Transport,
    pub sec: Option<SecProtocol>,
    pub muxer: Option<Muxer>,
    pub idle_timeout_secs: u64,
    pub dial_addr: String,
}

/// The fixed dial-address template for the triple, with the `{ip}`
/// placeholder still in place; `UnsupportedCombination` off the allow-list.
pub fn dial_template(
    env: Env,
    transport: Transport,
    sec: Option<SecProtocol>,
    muxer: Option<Muxer>,
) -> (r: Result<&'static str, Error>)
    ensures
        spec_supported(env, transport, sec, muxer) ==> (r matches Ok(t) && t@
            == spec_dial_template(env, transport, sec, muxer)),
        !spec_supported(env, transport, sec, muxer) ==> r == Err::<&'static str, Error>(
            Error::UnsupportedCombination { transport, sec, muxer },
        ),
{
    proof {
        reveal_strlit("/ip4/");
        reveal_strlit("{ip}");
        reveal_strlit("/ip4/{ip}/udp/0/quic-v1");
        reveal_strlit("/ip4/{ip}/tcp/0");
        reveal_strlit("/ip4/{ip}/tcp/0/ws");
        reveal_strlit("/ip4/{ip}/udp/0/webrtc-direct");
        reveal_strlit("/ip4/{ip}/udp/0/quic/webtransport");
        reveal_strlit("/ip4/{ip}/tcp/0/wss");
        reveal_strlit("/udp/0/quic-v1");
        reveal_strlit("/tcp/0");
        reveal_strlit("/tcp/0/ws");
        reveal_strlit("/udp/0/webrtc-direct");
        reveal_strlit("/udp/0/quic/webtransport");
        reveal_strlit("/tcp/0/wss");
    }
    if supported(env, transport, sec, muxer) {
        let t: &'static str = match (env, transport) {
            (Env::Native, Transport::QuicV1) => "/ip4/{ip}/udp/0/quic-v1",
            (Env::Native, Transport::Tcp) => "/ip4/{ip}/tcp/0",
            (Env::Native, Transport::Ws) => "/ip4/{ip}/tcp/0/ws",
            (Env::Native, Transport::WebRtcDirect) => "/ip4/{ip}/udp/0/webrtc-direct",
            (Env::Wasm, Transport::Webtransport) => "/ip4/{ip}/udp/0/quic/webtransport",
            (Env::Wasm, Transport::Ws) => "/ip4/{ip}/tcp/0/wss",
            (Env::Wasm, Transport::WebRtcDirect) => "/ip4/{ip}/udp/0/webrtc-direct",
            _ => "/ip4/{ip}/tcp/0",
        };
        assert(t@ =~= spec_dial_template(env, transport, sec, muxer));
        Ok(t)
    } else {
        Err(Error::UnsupportedCombination { transport, sec, muxer })
    }
}

/// Resolves a requested triple against the allow-list of `env`.
///
/// On the allow-list: returns the validated stack description, whose dial
/// address is the triple's fixed template with `ip` substituted, and whose
/// idle timeout is the fixed 5-second policy. Off the allow-list: fails with
/// `UnsupportedCombination` naming the offending values, and nothing is
/// constructed.
pub fn resolve(
    env: Env,
    ip: &str,
    transport: Transport,
    sec: Option<SecProtocol>,
    muxer: Option<Muxer>,
) -> (r: Result<Resolution, Error>)
    ensures
        spec_supported(env, transport, sec, muxer) ==> (r matches Ok(res)
            && res.transport == transport
            && res.sec == sec
            && res.muxer == muxer
            && res.idle_timeout_secs == IDLE_CONNECTION_TIMEOUT_SECS
            && res.dial_addr@ == spec_dial_addr(env, transport, sec, muxer, ip@)),
        !spec_supported(env, transport, sec, muxer) ==> r == Err::<Resolution, Error>(
            Error::UnsupportedCombination { transport, sec, muxer },
        ),
{
    if supported(env, transport, sec, muxer) {
        let suffix: &'static str = match (env, transport) {
            (Env::Native, Transport::QuicV1) => "/udp/0/quic-v1",
            (Env::Native, Transport::Tcp) => "/tcp/0",
            (Env::Native, Transport::Ws) => "/tcp/0/ws",
            (Env::Native, Transport::WebRtcDirect) => "/udp/0/webrtc-direct",
            (Env::Wasm, Transport::Webtransport) => "/udp/0/quic/webtransport",
            (Env::Wasm, Transport::Ws) => "/tcp/0/wss",
            (Env::Wasm, Transport::WebRtcDirect) => "/udp/0/webrtc-direct",
            _ => "/tcp/0",
        };
        let mut addr = String::from_str("/ip4/");
        addr.append(ip);
        addr.append(suffix);
        Ok(
            Resolution {
                transport,
                sec,
                muxer,
                idle_timeout_secs: IDLE_CONNECTION_TIMEOUT_SECS,
                dial_addr: addr,
            },
        )
    } else {
        Err(Error::UnsupportedCombination { transport, sec, muxer })
    }
}

} // verus!
