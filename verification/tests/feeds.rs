use evm_rpc_harness::chain::ChainType;
use evm_rpc_harness::client::RpcClient;
use evm_rpc_harness::failure::Failure;
use evm_rpc_harness::node::NodeType;
use evm_rpc_harness::subscription::{Event, Feed, Heard, Listener, Opening};

fn client(url: &str) -> RpcClient {
    RpcClient::new(url.to_string(), false, ChainType::Ethereum, NodeType::Geth)
}

fn listener(feed: Feed) -> Listener {
    Listener::open(feed, Some("{\"jsonrpc\":\"2.0\",\"id\":1,\"result\":\"0xcd\"}")).ok().unwrap().0
}

fn heard(l: &mut Listener, s: &str) -> Vec<String> {
    let (lines, next) = l.on_event(Event::Text(s.to_string())).unwrap();
    assert!(matches!(next, Heard::Listen));
    lines
}

#[test]
fn without_a_websocket_nothing_is_sent() {
    assert!(matches!(
        Feed::Logs.begin(&client("http://x")),
        Opening::Skip(s) if s == "  Skipped (requires WebSocket connection)"
    ));
}

#[test]
fn a_feed_is_subscribed_to() {
    for (feed, params) in [
        (Feed::NewHeads, "[\"newHeads\"]"),
        (
            Feed::Logs,
            "[\"logs\",{\"address\":\"0xA0b86991c6218b36c1d19D4a2e9Eb0cE3606eB48\"}]",
        ),
        (Feed::PendingTransactions, "[\"newPendingTransactions\"]"),
        (Feed::Syncing, "[\"syncing\"]"),
    ] {
        let expected = format!(
            "{{\"id\":1,\"jsonrpc\":\"2.0\",\"method\":\"eth_subscribe\",\"params\":{params}}}"
        );
        assert!(matches!(
            feed.begin(&client("ws://x")),
            Opening::Send(s) if s == expected
        ));
    }
}

#[test]
fn the_response_gives_the_identifier() {
    let (l, lines) =
        Listener::open(Feed::NewHeads, Some("{\"result\":\"0x9c\"}")).ok().unwrap();
    assert_eq!(l.id, "0x9c");
    assert_eq!(l.events, 0);
    assert_eq!(lines, ["  Subscription ID: 0x9c"]);
    let f = Listener::open(Feed::NewHeads, None).err().unwrap();
    assert_eq!(f.message, "No subscription response");
    for s in ["{}", "{\"result\":7}", "[]", "{\"error\":{}}"] {
        let f = Listener::open(Feed::NewHeads, Some(s)).err().unwrap();
        assert_eq!(f.message, "No subscription ID");
    }
    let f = Listener::open(Feed::NewHeads, Some("{")).err().unwrap();
    let expected = serde_json::from_str::<serde_json::Value>("{").unwrap_err().to_string();
    assert_eq!(f.message, expected);
}

#[test]
fn events_are_counted_and_shown() {
    let head = "{\"method\":\"eth_subscription\",\"params\":{\"result\":{\"number\":\"0x7\"}}}";
    let bare = "{\"method\":\"eth_subscription\"}";
    let hash = "{\"method\":\"eth_subscription\",\"params\":{\"result\":\"0xabc\"}}";
    let other = "{\"method\":\"eth_other\",\"params\":{\"result\":\"0xabc\"}}";

    let mut l = listener(Feed::NewHeads);
    assert_eq!(heard(&mut l, head), ["  Received new head: 0x7"]);
    assert!(heard(&mut l, bare).is_empty());
    assert!(heard(&mut l, other).is_empty());
    assert!(heard(&mut l, "[]").is_empty());
    assert_eq!(l.events, 2);
    assert_eq!(l.total(), "  Total events received: 2");

    let mut l = listener(Feed::PendingTransactions);
    assert_eq!(heard(&mut l, hash), ["  Received pending tx: 0xabc"]);
    assert!(heard(&mut l, head).is_empty());
    assert_eq!(l.total(), "  Total pending transactions received: 2");

    let mut l = listener(Feed::Logs);
    assert_eq!(heard(&mut l, bare), ["  Received log event"]);
    assert!(heard(&mut l, other).is_empty());
    assert_eq!(l.total(), "  Total log events received: 1");

    let mut l = listener(Feed::Syncing);
    assert_eq!(heard(&mut l, bare), ["  Received syncing status update"]);
    assert_eq!(l.total(), "  Total syncing events received: 1");
}

#[test]
fn listening_ends_or_fails() {
    let mut l = listener(Feed::Logs);
    let (lines, next) = l.on_event(Event::Other).unwrap();
    assert!(lines.is_empty() && matches!(next, Heard::Listen));
    let (lines, next) = l.on_event(Event::Closed).unwrap();
    assert!(lines.is_empty() && matches!(next, Heard::Stop));
    let (lines, next) = l.on_event(Event::Elapsed).unwrap();
    assert_eq!(lines, ["  Listening timeout reached"]);
    assert!(matches!(next, Heard::Stop));
    let (lines, next) = l.on_event(Event::Failed(Failure::new("reset".to_string()))).unwrap();
    assert!(lines.is_empty() && matches!(next, Heard::Fail(f) if f.message == "reset"));
    let (_, next) = l.on_event(Event::Text("nope".to_string())).unwrap();
    let expected = serde_json::from_str::<serde_json::Value>("nope").unwrap_err().to_string();
    assert!(matches!(next, Heard::Fail(f) if f.message == expected));
    assert_eq!(l.events, 0);
}

#[test]
fn a_subscription_is_ended_by_its_identifier() {
    assert_eq!(
        listener(Feed::Logs).closing(),
        "{\"id\":2,\"jsonrpc\":\"2.0\",\"method\":\"eth_unsubscribe\",\"params\":[\"0xcd\"]}"
    );
}

#[test]
fn no_event_is_counted_beyond_the_last_number() {
    let mut l = listener(Feed::Logs);
    l.events = i32::MAX;
    assert!(l.on_event(Event::Text("{\"method\":\"eth_subscription\"}".to_string())).is_none());
    assert_eq!(l.events, i32::MAX);
    assert!(heard(&mut l, "{}").is_empty());
    assert_eq!(l.total(), "  Total log events received: 2147483647");
}
