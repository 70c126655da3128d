use interop_tests::Backend;
use interop_tests::Broker;
use interop_tests::Env;
use interop_tests::Error;
use interop_tests::Muxer;
use interop_tests::PopCommand;
use interop_tests::SecProtocol;
use interop_tests::Transport;
use interop_tests::blpop_request_body;
use interop_tests::finish_block_pop;
use interop_tests::finish_push;
use interop_tests::plan_block_pop;
use interop_tests::plan_push;
use interop_tests::resolve;

#[test]
fn push_then_pop_returns_the_value() {
    let mut broker = Broker::new();
    broker.push("slot", String::from("/ip4/10.0.0.5/tcp/0"));
    assert_eq!(broker.pop("slot"), Some(String::from("/ip4/10.0.0.5/tcp/0")));
    assert_eq!(broker.pop("slot"), None);
}

#[test]
fn pop_preserves_fifo_order() {
    let mut broker = Broker::new();
    broker.push("slot", String::from("first"));
    broker.push("slot", String::from("second"));
    assert_eq!(broker.pop("slot"), Some(String::from("first")));
    assert_eq!(broker.pop("slot"), Some(String::from("second")));
    assert_eq!(broker.pop("slot"), None);
}

#[test]
fn pop_on_empty_key_yields_nothing() {
    let mut broker = Broker::new();
    broker.push("other", String::from("value"));
    assert_eq!(broker.pop("slot"), None);
    assert_eq!(broker.pop("other"), Some(String::from("value")));
}

#[test]
fn keys_do_not_interfere() {
    let mut broker = Broker::new();
    broker.push("a", String::from("va"));
    broker.push("b", String::from("vb"));
    broker.push("a", String::from("va2"));
    assert_eq!(broker.pop("b"), Some(String::from("vb")));
    assert_eq!(broker.pop("a"), Some(String::from("va")));
    assert_eq!(broker.pop("a"), Some(String::from("va2")));
}

#[test]
fn direct_push_is_an_rpush() {
    let cmd = plan_push(Backend::Direct, "listener_addr", "/ip4/10.0.0.5/tcp/0").unwrap();
    assert_eq!(cmd.key, "listener_addr");
    assert_eq!(cmd.value, "/ip4/10.0.0.5/tcp/0");
}

#[test]
fn delegate_push_is_unimplemented() {
    let err = plan_push(Backend::HttpDelegate, "listener_addr", "x").unwrap_err();
    assert_eq!(err, Error::Unimplemented);
}

#[test]
fn push_needs_the_broker_acknowledgement() {
    assert_eq!(finish_push(true), Ok(()));
    assert_eq!(finish_push(false), Err(Error::BrokerUnavailable));
}

#[test]
fn direct_block_pop_is_a_blpop() {
    match plan_block_pop(Backend::Direct, "listener_addr", 30) {
        PopCommand::Blpop { key, timeout_secs } => {
            assert_eq!(key, "listener_addr");
            assert_eq!(timeout_secs, 30);
        }
        PopCommand::HttpPost { .. } => panic!("direct backend must not go over HTTP"),
    }
}

#[test]
fn delegate_block_pop_posts_the_json_body() {
    match plan_block_pop(Backend::HttpDelegate, "listener_addr", 30) {
        PopCommand::HttpPost { body } => {
            assert_eq!(body, "{\"key\":\"listener_addr\",\"timeout\":30}");
        }
        PopCommand::Blpop { .. } => panic!("delegate backend cannot hold a direct connection"),
    }
}

#[test]
fn request_body_escapes_the_key() {
    assert_eq!(
        blpop_request_body("a\"b", 7),
        "{\"key\":\"a\\\"b\",\"timeout\":7}"
    );
    assert_eq!(
        blpop_request_body("a\\b", 7),
        "{\"key\":\"a\\\\b\",\"timeout\":7}"
    );
    assert_eq!(
        blpop_request_body("a\nb", 0),
        "{\"key\":\"a\\u000ab\",\"timeout\":0}"
    );
    assert_eq!(
        blpop_request_body("\u{1f}", 0),
        "{\"key\":\"\\u001f\",\"timeout\":0}"
    );
}

#[test]
fn request_body_writes_the_timeout_in_decimal() {
    assert_eq!(blpop_request_body("k", 0), "{\"key\":\"k\",\"timeout\":0}");
    assert_eq!(blpop_request_body("k", 10), "{\"key\":\"k\",\"timeout\":10}");
    assert_eq!(
        blpop_request_body("k", 18446744073709551615),
        "{\"key\":\"k\",\"timeout\":18446744073709551615}"
    );
}

#[test]
fn reply_with_key_and_value_is_the_value() {
    let reply = vec![String::from("listener_addr"), String::from("/ip4/1.2.3.4/tcp/0")];
    assert_eq!(
        finish_block_pop(Some(reply)),
        Ok(String::from("/ip4/1.2.3.4/tcp/0"))
    );
}

#[test]
fn short_reply_is_a_timeout() {
    assert_eq!(finish_block_pop(Some(vec![])), Err(Error::RendezvousTimeout));
    assert_eq!(
        finish_block_pop(Some(vec![String::from("listener_addr")])),
        Err(Error::RendezvousTimeout)
    );
}

#[test]
fn no_reply_means_the_broker_is_unreachable() {
    assert_eq!(finish_block_pop(None), Err(Error::BrokerUnavailable));
}

#[test]
fn listener_and_dialer_exchange_an_address() {
    // The listener resolves its stack, publishes its address; the dialer
    // waits for it and receives that exact string.
    let listener = resolve(
        Env::Native,
        "10.0.0.5",
        Transport::Tcp,
        Some(SecProtocol::Noise),
        Some(Muxer::Yamux),
    )
    .unwrap();
    assert_eq!(listener.dial_addr, "/ip4/10.0.0.5/tcp/0");

    let mut broker = Broker::new();
    let cmd = plan_push(Backend::Direct, "listener_addr", &listener.dial_addr).unwrap();
    broker.push(&cmd.key, cmd.value);

    let wait = plan_block_pop(Backend::Direct, "listener_addr", 30);
    let popped = match wait {
        PopCommand::Blpop { key, .. } => broker.pop(&key),
        PopCommand::HttpPost { .. } => panic!("direct backend must not go over HTTP"),
    };
    let reply = popped.map(|v| vec![String::from("listener_addr"), v]);
    assert_eq!(finish_block_pop(reply), Ok(String::from("/ip4/10.0.0.5/tcp/0")));
}

#[test]
fn quic_with_noise_fails_end_to_end() {
    let err = resolve(
        Env::Native,
        "10.0.0.5",
        Transport::QuicV1,
        Some(SecProtocol::Noise),
        None,
    )
    .unwrap_err();
    assert_eq!(
        err,
        Error::UnsupportedCombination {
            transport: Transport::QuicV1,
            sec: Some(SecProtocol::Noise),
            muxer: None,
        }
    );
}
