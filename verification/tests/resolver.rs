use interop_tests::Env;
use interop_tests::Error;
use interop_tests::Muxer;
use interop_tests::SecProtocol;
use interop_tests::Transport;
use interop_tests::dial_template;
use interop_tests::resolve;
use interop_tests::supported;

#[test]
fn native_quic_address() {
    let res = resolve(Env::Native, "192.168.1.2", Transport::QuicV1, None, None).unwrap();
    assert_eq!(res.dial_addr, "/ip4/192.168.1.2/udp/0/quic-v1");
    assert_eq!(res.idle_timeout_secs, 5);
}

#[test]
fn native_tcp_full_cross_product() {
    for sec in [SecProtocol::Tls, SecProtocol::Noise] {
        for muxer in [Muxer::Mplex, Muxer::Yamux] {
            let res = resolve(Env::Native, "10.0.0.5", Transport::Tcp, Some(sec), Some(muxer))
                .unwrap();
            assert_eq!(res.dial_addr, "/ip4/10.0.0.5/tcp/0");
            assert_eq!(res.sec, Some(sec));
            assert_eq!(res.muxer, Some(muxer));
            assert_eq!(res.idle_timeout_secs, 5);
        }
    }
}

#[test]
fn native_websocket_full_cross_product() {
    for sec in [SecProtocol::Tls, SecProtocol::Noise] {
        for muxer in [Muxer::Mplex, Muxer::Yamux] {
            let res = resolve(Env::Native, "10.0.0.5", Transport::Ws, Some(sec), Some(muxer))
                .unwrap();
            assert_eq!(res.dial_addr, "/ip4/10.0.0.5/tcp/0/ws");
        }
    }
}

#[test]
fn native_webrtc_direct_address() {
    let res = resolve(Env::Native, "10.0.0.5", Transport::WebRtcDirect, None, None).unwrap();
    assert_eq!(res.dial_addr, "/ip4/10.0.0.5/udp/0/webrtc-direct");
}

#[test]
fn wasm_allow_list_addresses() {
    let res = resolve(Env::Wasm, "10.0.0.7", Transport::Webtransport, None, None).unwrap();
    assert_eq!(res.dial_addr, "/ip4/10.0.0.7/udp/0/quic/webtransport");
    for muxer in [Muxer::Mplex, Muxer::Yamux] {
        let res = resolve(
            Env::Wasm,
            "10.0.0.7",
            Transport::Ws,
            Some(SecProtocol::Noise),
            Some(muxer),
        )
        .unwrap();
        assert_eq!(res.dial_addr, "/ip4/10.0.0.7/tcp/0/wss");
    }
    let res = resolve(Env::Wasm, "10.0.0.7", Transport::WebRtcDirect, None, None).unwrap();
    assert_eq!(res.dial_addr, "/ip4/10.0.0.7/udp/0/webrtc-direct");
}

#[test]
fn templates_keep_the_placeholder() {
    assert_eq!(
        dial_template(Env::Native, Transport::QuicV1, None, None).unwrap(),
        "/ip4/{ip}/udp/0/quic-v1"
    );
    assert_eq!(
        dial_template(
            Env::Native,
            Transport::Tcp,
            Some(SecProtocol::Noise),
            Some(Muxer::Yamux)
        )
        .unwrap(),
        "/ip4/{ip}/tcp/0"
    );
    assert_eq!(
        dial_template(
            Env::Wasm,
            Transport::Ws,
            Some(SecProtocol::Noise),
            Some(Muxer::Mplex)
        )
        .unwrap(),
        "/ip4/{ip}/tcp/0/wss"
    );
}

#[test]
fn quic_rejects_explicit_security() {
    // QUIC brings integrated security: an explicit request is refused.
    let err = resolve(
        Env::Native,
        "1.2.3.4",
        Transport::QuicV1,
        Some(SecProtocol::Noise),
        None,
    )
    .unwrap_err();
    assert_eq!(
        err,
        Error::UnsupportedCombination {
            transport: Transport::QuicV1,
            sec: Some(SecProtocol::Noise),
            muxer: None,
        }
    );
}

#[test]
fn byte_stream_transports_need_security_and_muxer() {
    assert!(matches!(
        resolve(Env::Native, "1.2.3.4", Transport::Tcp, None, None),
        Err(Error::UnsupportedCombination { .. })
    ));
    assert!(matches!(
        resolve(Env::Native, "1.2.3.4", Transport::Tcp, Some(SecProtocol::Tls), None),
        Err(Error::UnsupportedCombination { .. })
    ));
    assert!(matches!(
        resolve(Env::Native, "1.2.3.4", Transport::Ws, None, Some(Muxer::Yamux)),
        Err(Error::UnsupportedCombination { .. })
    ));
}

#[test]
fn allow_list_is_environment_sensitive() {
    // Webtransport exists only in the restricted environment, TCP only in
    // the native one, and the wasm websocket stack admits no TLS handshake.
    assert!(!supported(Env::Native, Transport::Webtransport, None, None));
    assert!(supported(Env::Wasm, Transport::Webtransport, None, None));
    assert!(!supported(
        Env::Wasm,
        Transport::Tcp,
        Some(SecProtocol::Noise),
        Some(Muxer::Yamux)
    ));
    assert!(!supported(
        Env::Wasm,
        Transport::Ws,
        Some(SecProtocol::Tls),
        Some(Muxer::Yamux)
    ));
}

#[test]
fn error_text_names_the_condition() {
    let err = resolve(Env::Native, "1.2.3.4", Transport::Webtransport, None, None).unwrap_err();
    assert_eq!(
        err.describe(),
        "unsupported combination of transport, security and muxer"
    );
    assert_eq!(
        Error::BrokerUnavailable.describe(),
        "could not reach the rendezvous broker"
    );
    assert_eq!(
        Error::RendezvousTimeout.describe(),
        "timed out waiting for a rendezvous value"
    );
    assert_eq!(
        Error::Unimplemented.describe(),
        "operation not supported by this backend"
    );
}
