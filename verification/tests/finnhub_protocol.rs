use trade::feed::{
    FeedAction, FeedEvent, FeedPhase, FinnhubData, FinnhubFeed, FinnhubTrade, WsMessage,
    RECONNECT_DELAY_MILLIS,
};
use trade::finnhub::{stock_list_to_uppercase, subscribe_message, FinnhubStream, WsFinnhub};

fn trade(symbol: &str, millis: i64) -> FinnhubTrade {
    FinnhubTrade {
        dtg_millis: millis,
        symbol: symbol.to_string(),
        price: "203.04".to_string(),
        volume: "1".to_string(),
        conditions: vec!["1".to_string(), "24".to_string()],
    }
}

fn step(feed: &mut FinnhubFeed, event: FeedEvent) -> FeedAction {
    assert!(feed.accepts(&event));
    feed.step(event)
}

fn expect_send(action: FeedAction) -> String {
    match action {
        FeedAction::Send(text) => text,
        _ => panic!("expected a send"),
    }
}

#[test]
fn both_streams_read_the_same_variable() {
    assert_eq!(FinnhubStream::TextData.url_variable(), "FINNHUB_URL");
    assert_eq!(FinnhubStream::BinaryUpdates.url_variable(), "FINNHUB_URL");
    assert!(FinnhubStream::TextData != FinnhubStream::BinaryUpdates);
}

#[test]
fn endpoint_appends_the_key() {
    assert_eq!(
        WsFinnhub::endpoint("wss://ws.finnhub.io?token=", "abc123"),
        "wss://ws.finnhub.io?token=abc123"
    );
    assert_eq!(WsFinnhub::endpoint("", ""), "");
}

#[test]
fn symbols_are_uppercased_in_order() {
    let lower = vec!["aapl".to_string(), "tsla".to_string(), "Plug".to_string(), "BAC".to_string()];
    assert_eq!(stock_list_to_uppercase(&lower), vec!["AAPL", "TSLA", "PLUG", "BAC"]);
    assert_eq!(stock_list_to_uppercase(&Vec::new()), Vec::<String>::new());
    let unicode = vec!["straße".to_string()];
    assert_eq!(stock_list_to_uppercase(&unicode), vec!["STRASSE"]);
}

#[test]
fn subscribe_message_format() {
    assert_eq!(subscribe_message("TSLA"), r#"{"symbol":"TSLA","type":"subscribe"}"#);
    assert_eq!(subscribe_message(""), r#"{"symbol":"","type":"subscribe"}"#);
}

#[test]
fn subscribe_message_escapes_the_symbol() {
    assert_eq!(subscribe_message("A\"B"), r#"{"symbol":"A\"B","type":"subscribe"}"#);
    assert_eq!(subscribe_message("A\\B"), r#"{"symbol":"A\\B","type":"subscribe"}"#);
    assert_eq!(subscribe_message("A\nB"), r#"{"symbol":"A\nB","type":"subscribe"}"#);
    assert_eq!(
        subscribe_message("\u{8}\t\u{c}\r"),
        r#"{"symbol":"\b\t\f\r","type":"subscribe"}"#
    );
    assert_eq!(
        subscribe_message("\u{1}\u{1f}\u{7f}é/"),
        "{\"symbol\":\"\\u0001\\u001f\u{7f}é/\",\"type\":\"subscribe\"}"
    );
}

#[test]
fn subscribe_message_matches_serde_json_value() {
    let mut object = serde_json::Map::new();
    object.insert("type".to_string(), serde_json::Value::String("subscribe".to_string()));
    object.insert("symbol".to_string(), serde_json::Value::String("BRK.B\"\u{3}".to_string()));
    let expected = serde_json::Value::Object(object).to_string();
    assert_eq!(subscribe_message("BRK.B\"\u{3}"), expected);
}

#[test]
fn feed_subscribes_to_uppercase_symbols() {
    let symbols = vec!["aapl".to_string(), "tsla".to_string()];
    let mut feed = FinnhubFeed::new("wss://example/?token=k".to_string(), &symbols);
    assert_eq!(feed.phase(), FeedPhase::Idle);
    match step(&mut feed, FeedEvent::Start) {
        FeedAction::Connect(url) => assert_eq!(url, "wss://example/?token=k"),
        _ => panic!("expected a connection"),
    }
    assert_eq!(
        expect_send(step(&mut feed, FeedEvent::Connected)),
        r#"{"symbol":"AAPL","type":"subscribe"}"#
    );
    assert_eq!(
        expect_send(step(&mut feed, FeedEvent::Sent)),
        r#"{"symbol":"TSLA","type":"subscribe"}"#
    );
    assert!(matches!(step(&mut feed, FeedEvent::Sent), FeedAction::Read));
    assert_eq!(feed.phase(), FeedPhase::Listening);
}

#[test]
fn feed_without_symbols_reads_at_once() {
    let mut feed = FinnhubFeed::new("u".to_string(), &Vec::new());
    step(&mut feed, FeedEvent::Start);
    assert!(matches!(step(&mut feed, FeedEvent::Connected), FeedAction::Read));
    assert_eq!(feed.phase(), FeedPhase::Listening);
}

#[test]
fn failed_connection_is_retried_after_a_pause() {
    let mut feed = FinnhubFeed::new("wss://x".to_string(), &vec!["nio".to_string()]);
    step(&mut feed, FeedEvent::Start);
    for _ in 0..3 {
        match step(&mut feed, FeedEvent::ConnectFailed) {
            FeedAction::Wait(ms) => assert_eq!(ms, 5000),
            _ => panic!("expected a pause"),
        }
        assert_eq!(feed.phase(), FeedPhase::Retrying);
        assert!(!feed.accepts(&FeedEvent::Connected));
        match step(&mut feed, FeedEvent::WaitOver) {
            FeedAction::Connect(url) => assert_eq!(url, "wss://x"),
            _ => panic!("expected a connection"),
        }
    }
    assert_eq!(RECONNECT_DELAY_MILLIS, 5000);
}

#[test]
fn trades_of_a_text_message_are_stored() {
    let mut feed = FinnhubFeed::new("u".to_string(), &vec!["tsla".to_string()]);
    step(&mut feed, FeedEvent::Start);
    step(&mut feed, FeedEvent::Connected);
    step(&mut feed, FeedEvent::Sent);
    let text = r#"{"data":[{"c":["1","24","12"],"p":203.04,"s":"TSLA","t":1685567484229,"v":1}],"type":"trade"}"#;
    match step(&mut feed, FeedEvent::Received(WsMessage::Text(text.to_string()))) {
        FeedAction::Decode(t) => assert_eq!(t, text),
        _ => panic!("expected a decode"),
    }
    assert_eq!(feed.phase(), FeedPhase::Decoding);
    let data = FinnhubData { data: vec![trade("TSLA", 1685567484229), trade("AAPL", 1685567486934)] };
    match step(&mut feed, FeedEvent::Decoded(Some(data))) {
        FeedAction::Store(trades) => {
            assert_eq!(trades.len(), 2);
            assert_eq!(trades[0].symbol, "TSLA");
            assert_eq!(trades[1].symbol, "AAPL");
            assert_eq!(trades[1].dtg_millis, 1685567486934);
        }
        _ => panic!("expected a store"),
    }
    assert!(matches!(step(&mut feed, FeedEvent::Stored), FeedAction::Read));
    assert_eq!(feed.phase(), FeedPhase::Listening);
}

#[test]
fn other_messages_keep_reading() {
    let mut feed = FinnhubFeed::new("u".to_string(), &Vec::new());
    step(&mut feed, FeedEvent::Start);
    step(&mut feed, FeedEvent::Connected);
    assert!(matches!(step(&mut feed, FeedEvent::Received(WsMessage::Ping(vec![1]))), FeedAction::Read));
    assert!(matches!(step(&mut feed, FeedEvent::Received(WsMessage::Binary(vec![1, 2]))), FeedAction::Read));
    assert!(matches!(step(&mut feed, FeedEvent::Received(WsMessage::Other)), FeedAction::Read));
    step(&mut feed, FeedEvent::Received(WsMessage::Text(r#"{"type":"ping"}"#.to_string())));
    assert!(matches!(step(&mut feed, FeedEvent::Decoded(None)), FeedAction::Read));
    assert_eq!(feed.phase(), FeedPhase::Listening);
    assert!(!feed.accepts(&FeedEvent::ConnectFailed));
    assert!(!feed.accepts(&FeedEvent::Start));
}

fn reconnects_after(lost: FeedEvent) {
    let symbols = vec!["aapl".to_string(), "tsla".to_string()];
    let mut feed = FinnhubFeed::new("wss://x?token=k".to_string(), &symbols);
    step(&mut feed, FeedEvent::Start);
    step(&mut feed, FeedEvent::Connected);
    step(&mut feed, FeedEvent::Sent);
    step(&mut feed, FeedEvent::Sent);
    assert_eq!(feed.phase(), FeedPhase::Listening);
    match step(&mut feed, lost) {
        FeedAction::Wait(ms) => assert_eq!(ms, RECONNECT_DELAY_MILLIS),
        _ => panic!("expected a pause"),
    }
    assert_eq!(feed.phase(), FeedPhase::Retrying);
    match step(&mut feed, FeedEvent::WaitOver) {
        FeedAction::Connect(url) => assert_eq!(url, "wss://x?token=k"),
        _ => panic!("expected a connection"),
    }
    assert_eq!(
        expect_send(step(&mut feed, FeedEvent::Connected)),
        r#"{"symbol":"AAPL","type":"subscribe"}"#
    );
    assert_eq!(
        expect_send(step(&mut feed, FeedEvent::Sent)),
        r#"{"symbol":"TSLA","type":"subscribe"}"#
    );
    assert!(matches!(step(&mut feed, FeedEvent::Sent), FeedAction::Read));
    assert_eq!(feed.phase(), FeedPhase::Listening);
}

#[test]
fn failed_read_reconnects_and_resubscribes() {
    reconnects_after(FeedEvent::ReadFailed);
}

#[test]
fn closed_connection_reconnects_and_resubscribes() {
    reconnects_after(FeedEvent::Received(WsMessage::Close));
}
