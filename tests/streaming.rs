use num_decimal::Num;

use polyio::handshake::check_responses;
use polyio::handshake::make_subscribe_request;
use polyio::message::frame_from_items;
use polyio::message::FrameItem;
use polyio::Action;
use polyio::Code;
use polyio::Error;
use polyio::Event;
use polyio::Handshake;
use polyio::Incoming;
use polyio::Message;
use polyio::Phase;
use polyio::Quote;
use polyio::Request;
use polyio::Session;
use polyio::Status;
use polyio::Step;
use polyio::Stock;
use polyio::StreamItem;
use polyio::Subscription;
use polyio::Timestamp;
use polyio::Trade;

const API_KEY: &str = "USER12345678";
const AUTH_REQ: &str = r#"{"action":"auth","params":"USER12345678"}"#;
const SUB_REQ: &str = r#"{"action":"subscribe","params":"T.MSFT,Q.*"}"#;

fn status(code: Code, message: &str) -> Message {
    Message::Status(Status {
        code,
        message: message.to_string(),
    })
}

fn trade(symbol: &str) -> Message {
    Message::Trade(Trade {
        symbol: symbol.to_string(),
        exchange: 4,
        price: Num::new(1_569_799, 10_000),
        quantity: 3,
        timestamp: Timestamp::from_millis(1_577_818_283_019),
    })
}

fn quote(symbol: &str, ask_quantity: u64) -> Message {
    Message::Quote(Quote {
        symbol: symbol.to_string(),
        bid_exchange: 8,
        bid_price: Num::new(264, 10),
        bid_quantity: 1,
        ask_exchange: 12,
        ask_price: Num::new(2647, 100),
        ask_quantity,
        timestamp: Timestamp::from_millis(1_577_818_659_363),
    })
}

fn subscriptions() -> Vec<Subscription> {
    vec![
        Subscription::Trades(Stock::Symbol("MSFT".into())),
        Subscription::Quotes(Stock::All),
    ]
}

fn expect_send(step: Step) -> String {
    match step {
        Step::Send(text) => text,
        other => panic!("unexpected step: {:?}", other),
    }
}

/// Run a handshake through the connected and authenticated replies.
fn authenticated() -> Handshake {
    let mut handshake = Handshake::for_subscriptions(API_KEY.to_string(), subscriptions());
    let auth = expect_send(handshake.on_incoming(Incoming::Frame(vec![status(
        Code::Connected,
        "Connected Successfully",
    )])));
    assert_eq!(auth, AUTH_REQ);
    let sub = expect_send(handshake.on_incoming(Incoming::Frame(vec![status(
        Code::AuthSuccess,
        "authenticated",
    )])));
    assert_eq!(sub, SUB_REQ);
    handshake
}

fn sub_resp() -> Vec<Message> {
    vec![
        status(Code::Success, "subscribed to: T.MSFT"),
        status(Code::Success, "subscribed to: Q.*"),
    ]
}

fn symbols_and_ask_sizes(items: &[StreamItem]) -> Vec<(String, Option<u64>)> {
    items
        .iter()
        .map(|item| match item {
            StreamItem::Event(event) => (
                event.symbol().to_string(),
                event.to_quote().map(|q| q.ask_quantity),
            ),
            other => panic!("unexpected item: {:?}", other),
        })
        .collect()
}

#[test]
fn encode_auth_request() {
    let api_key = "some-key".to_string();
    let expected = r#"{"action":"auth","params":"some-key"}"#;

    let request = Request::new(Action::Authenticate, api_key);
    let json = request.to_json();

    assert_eq!(json, expected)
}

#[test]
fn encode_subscribe_request() {
    let subscriptions = vec![
        Subscription::Trades(Stock::Symbol("MSFT".into())),
        Subscription::Quotes(Stock::All),
    ];
    let (request, count) = make_subscribe_request(&subscriptions).unwrap();
    assert_eq!(count, 2);

    let expected = r#"{"action":"subscribe","params":"T.MSFT,Q.*"}"#;
    let json = request.to_json();

    assert_eq!(json, expected)
}

#[test]
fn encode_request_escapes_params() {
    let request = Request::new(Action::Authenticate, "a\"b".to_string());
    assert_eq!(request.to_json(), r#"{"action":"auth","params":"a\"b"}"#);
}

#[test]
fn subscribe_request_without_subscriptions() {
    match make_subscribe_request(&Vec::new()) {
        Err(Error::Str(text)) => assert_eq!(
            text,
            "failed to subscribe to event stream: no subscriptions supplied"
        ),
        other => panic!("unexpected result: {:?}", other),
    }
}

#[test]
fn check_responses_counts_statuses_and_skips_data() {
    let messages = vec![trade("MSFT"), status(Code::Success, "subscribed to: T.MSFT")];
    let (remaining, rest) =
        check_responses(messages, Code::Success, 2, "subscription").unwrap();
    assert_eq!(remaining, 1);
    assert!(rest.is_empty());
}

#[test]
fn check_responses_hands_on_surplus_items() {
    let messages = vec![
        status(Code::Success, "subscribed to: T.MSFT"),
        trade("MSFT"),
        quote("UFO", 3),
    ];
    let (remaining, rest) =
        check_responses(messages, Code::Success, 1, "subscription").unwrap();
    assert_eq!(remaining, 0);
    assert_eq!(rest, vec![trade("MSFT"), quote("UFO", 3)]);
}

#[test]
fn check_responses_rejects_other_status() {
    let messages = vec![status(Code::AuthFailure, "authentication failed")];
    let result = check_responses(messages, Code::AuthSuccess, 1, "authentication");
    assert_eq!(
        result.unwrap_err(),
        Error::Str("authentication not successful: authentication failed".to_string())
    );
}

#[test]
fn into_status() {
    let message = status(Code::Success, "subscribed to: T.MSFT");
    let status = message.into_status().unwrap();
    assert_eq!(status.code, Code::Success);
    assert_eq!(status.message, "subscribed to: T.MSFT".to_string());
    assert!(trade("MSFT").into_status().is_none());
}

#[test]
fn status_codes_by_name() {
    assert_eq!(Code::from_name("connected"), Some(Code::Connected));
    assert_eq!(Code::from_name("disconnected"), Some(Code::Disconnected));
    assert_eq!(Code::from_name("auth_success"), Some(Code::AuthSuccess));
    assert_eq!(Code::from_name("auth_failed"), Some(Code::AuthFailure));
    assert_eq!(Code::from_name("success"), Some(Code::Success));
    assert_eq!(Code::from_name("failure"), None);
}

#[test]
fn stream_msft() {
    let mut handshake = authenticated();
    match handshake.on_incoming(Incoming::Frame(sub_resp())) {
        Step::Done(rest) => assert!(rest.is_empty()),
        other => panic!("unexpected step: {:?}", other),
    }
    assert_eq!(handshake.phase, Phase::Complete);
    assert!(!handshake.in_progress());

    let mut session = Session::new();
    let trades = session.on_frame(vec![trade("MSFT")]);
    assert_eq!(symbols_and_ask_sizes(&trades), vec![("MSFT".to_string(), None)]);
    match &trades[0] {
        StreamItem::Event(Event::Trade(t)) => {
            assert_eq!(t.price, Num::new(1_569_799, 10_000));
            assert_eq!(t.quantity, 3);
        },
        other => panic!("unexpected item: {:?}", other),
    }

    let quotes = session.on_frame(vec![quote("UFO", 3), quote("UFO", 11)]);
    assert_eq!(
        symbols_and_ask_sizes(&quotes),
        vec![("UFO".to_string(), Some(3)), ("UFO".to_string(), Some(11))]
    );
    assert!(!session.stopped);
}

#[test]
fn auth_failure() {
    let mut handshake = Handshake::for_subscriptions("not-a-valid-key".to_string(), Vec::new());
    let _ = expect_send(handshake.on_incoming(Incoming::Frame(vec![status(
        Code::Connected,
        "Connected Successfully",
    )])));
    match handshake.on_incoming(Incoming::Frame(vec![status(
        Code::AuthFailure,
        "authentication failed",
    )])) {
        Step::Fail(err) => assert!(err.to_string().starts_with("authentication not successful")),
        other => panic!("unexpected step: {:?}", other),
    }
    assert_eq!(handshake.phase, Phase::Failed);
}

#[test]
fn interleaved_trade() {
    let mut handshake = authenticated();
    // A trade that precedes the subscription acknowledgement is dropped.
    assert!(matches!(
        handshake.on_incoming(Incoming::Frame(vec![trade("MSFT")])),
        Step::Wait
    ));
    assert_eq!(handshake.phase, Phase::Subscribing);
    match handshake.on_incoming(Incoming::Frame(sub_resp())) {
        Step::Done(rest) => assert!(rest.is_empty()),
        other => panic!("unexpected step: {:?}", other),
    }
    let mut session = Session::new();
    let items = session.on_frame(vec![trade("MSFT")]);
    assert_eq!(symbols_and_ask_sizes(&items), vec![("MSFT".to_string(), None)]);
}

#[test]
fn acknowledgements_across_frames() {
    let mut handshake = authenticated();
    assert!(matches!(
        handshake.on_incoming(Incoming::Frame(vec![status(Code::Success, "subscribed to: T.MSFT")])),
        Step::Wait
    ));
    assert_eq!(handshake.remaining, 1);
    match handshake.on_incoming(Incoming::Frame(vec![
        status(Code::Success, "subscribed to: Q.*"),
        quote("UFO", 3),
    ])) {
        Step::Done(rest) => assert_eq!(rest, vec![quote("UFO", 3)]),
        other => panic!("unexpected step: {:?}", other),
    }
}

#[test]
fn disconnect() {
    let mut handshake = authenticated();
    assert!(matches!(
        handshake.on_incoming(Incoming::Frame(sub_resp())),
        Step::Done(_)
    ));
    let mut session = Session::new();
    let items = session.on_frame(vec![trade("MSFT")]);
    assert_eq!(items.len(), 1);
    assert!(matches!(items[0], StreamItem::Event(_)));

    let items = session.on_frame(vec![status(
        Code::Disconnected,
        "Reason: Max connections reached",
    )]);
    assert_eq!(items.len(), 1);
    assert!(matches!(items[0], StreamItem::Disconnected));
    assert!(session.stopped);

    // This message should never be seen.
    let items = session.on_frame(vec![quote("UFO", 3), quote("UFO", 11)]);
    assert!(items.is_empty());
}

#[test]
fn disconnect_drops_rest_of_frame() {
    let mut session = Session::new();
    let items = session.on_frame(vec![
        trade("A"),
        status(Code::Success, "late"),
        trade("B"),
        status(Code::Disconnected, "bye"),
        trade("C"),
    ]);
    assert_eq!(items.len(), 3);
    assert!(matches!(&items[0], StreamItem::Event(e) if e.symbol() == "A"));
    assert!(matches!(&items[1], StreamItem::Event(e) if e.symbol() == "B"));
    assert!(matches!(items[2], StreamItem::Disconnected));
    assert!(session.on_undecodable("bad".to_string()).is_empty());
}

#[test]
fn undecodable_frame_does_not_end_stream() {
    let mut session = Session::new();
    let items = session.on_undecodable("expected value".to_string());
    assert!(matches!(&items[0], StreamItem::Undecodable(d) if d == "expected value"));
    assert!(!session.stopped);
    assert_eq!(session.on_frame(vec![trade("MSFT")]).len(), 1);
}

#[test]
fn handshake_answers_pings_and_fails_on_close() {
    let mut handshake = Handshake::for_subscriptions(API_KEY.to_string(), subscriptions());
    match handshake.on_incoming(Incoming::Ping(vec![1, 2, 3])) {
        Step::Pong(data) => assert_eq!(data, vec![1, 2, 3]),
        other => panic!("unexpected step: {:?}", other),
    }
    assert!(matches!(handshake.on_incoming(Incoming::Pong), Step::Wait));
    assert_eq!(handshake.phase, Phase::Connecting);
    match handshake.on_incoming(Incoming::Close) {
        Step::Fail(err) => assert_eq!(
            err.to_string(),
            "websocket connection closed unexpectedly"
        ),
        other => panic!("unexpected step: {:?}", other),
    }
}

#[test]
fn handshake_fails_on_unexpected_status_and_bad_frames() {
    let mut handshake = Handshake::for_subscriptions(API_KEY.to_string(), subscriptions());
    match handshake.on_incoming(Incoming::Frame(vec![status(Code::Success, "hello")])) {
        Step::Fail(err) => assert_eq!(err.to_string(), "connection not successful: hello"),
        other => panic!("unexpected step: {:?}", other),
    }
    let mut handshake = Handshake::for_subscriptions(API_KEY.to_string(), subscriptions());
    match handshake.on_incoming(Incoming::Undecodable("eof".to_string())) {
        Step::Fail(err) => assert_eq!(err, Error::Json("eof".to_string())),
        other => panic!("unexpected step: {:?}", other),
    }
}

#[test]
fn handshake_without_subscriptions_fails_after_auth() {
    let mut handshake = Handshake::for_subscriptions(API_KEY.to_string(), Vec::new());
    let _ = expect_send(handshake.on_incoming(Incoming::Frame(vec![status(
        Code::Connected,
        "Connected Successfully",
    )])));
    match handshake.on_incoming(Incoming::Frame(vec![status(Code::AuthSuccess, "authenticated")])) {
        Step::Fail(err) => assert_eq!(
            err.to_string(),
            "failed to subscribe to event stream: no subscriptions supplied"
        ),
        other => panic!("unexpected step: {:?}", other),
    }
}

#[test]
fn handshake_normalises_subscriptions() {
    let subs = vec![
        Subscription::Quotes(Stock::Symbol("SPY".into())),
        Subscription::Trades(Stock::Symbol("MSFT".into())),
        Subscription::Quotes(Stock::All),
    ];
    let mut handshake = Handshake::for_subscriptions(API_KEY.to_string(), subs);
    let _ = expect_send(handshake.on_incoming(Incoming::Frame(vec![status(
        Code::Connected,
        "Connected Successfully",
    )])));
    let sub = expect_send(handshake.on_incoming(Incoming::Frame(vec![status(
        Code::AuthSuccess,
        "authenticated",
    )])));
    assert_eq!(sub, SUB_REQ);
    assert_eq!(handshake.remaining, 2);
}

#[test]
fn frame_items_become_messages() {
    let trade_event = match trade("MSFT") {
        Message::Trade(t) => Event::Trade(t),
        _ => unreachable!(),
    };
    let items = vec![
        FrameItem::Unknown,
        FrameItem::Status("success".to_string(), "subscribed to: T.MSFT".to_string()),
        FrameItem::Data(trade_event),
        FrameItem::Unknown,
    ];
    let messages = frame_from_items(items).unwrap();
    assert_eq!(
        messages,
        vec![status(Code::Success, "subscribed to: T.MSFT"), trade("MSFT")]
    );

    let items = vec![
        FrameItem::Status("connected".to_string(), "hi".to_string()),
        FrameItem::Status("rebooting".to_string(), "soon".to_string()),
    ];
    assert_eq!(
        frame_from_items(items).unwrap_err(),
        "invalid status code: rebooting"
    );
    assert!(frame_from_items(Vec::new()).unwrap().is_empty());
}

#[test]
fn decode_auth_response() {
    let items = vec![FrameItem::Status("success".to_string(), "authenticated".to_string())];
    let mut messages = frame_from_items(items).unwrap();

    assert_eq!(messages.len(), 1);

    let status = messages.remove(0).into_status().unwrap();
    assert_eq!(status.code, Code::Success);
    assert_eq!(status.message, "authenticated".to_string());
}

#[test]
fn decode_auth_response_unauthorized() {
    let items = vec![FrameItem::Status(
        "auth_failed".to_string(),
        "authentication failed".to_string(),
    )];
    let mut messages = frame_from_items(items).unwrap();

    assert_eq!(messages.len(), 1);

    let status = messages.remove(0).into_status().unwrap();
    assert_eq!(status.code, Code::AuthFailure);
    assert_eq!(status.message, "authentication failed".to_string());
}

#[test]
fn decode_subscribe_response() {
    let items = vec![FrameItem::Status(
        "success".to_string(),
        "subscribed to: T.MSFT".to_string(),
    )];
    let mut messages = frame_from_items(items).unwrap();

    assert_eq!(messages.len(), 1);

    let status = messages.remove(0).into_status().unwrap();
    assert_eq!(status.code, Code::Success);
    assert_eq!(status.message, "subscribed to: T.MSFT".to_string());
}

#[test]
fn unexpected_status_during_authentication_is_a_protocol_error() {
    let messages = vec![status(Code::Success, "hello")];
    let result = check_responses(messages, Code::AuthSuccess, 1, "authentication");
    assert_eq!(
        result.unwrap_err(),
        Error::Str("unexpected status code success during authentication: hello".to_string())
    );
    let messages = vec![status(Code::Disconnected, "bye")];
    let result = check_responses(messages, Code::Success, 1, "subscription");
    assert_eq!(
        result.unwrap_err(),
        Error::Str("subscription not successful: bye".to_string())
    );
}

#[test]
fn frames_delivered_at_once() {
    let mut session = Session::new();
    let items = session.on_frames(vec![
        vec![trade("A"), status(Code::Success, "late")],
        vec![quote("B", 3)],
        vec![status(Code::Disconnected, "bye"), trade("C")],
        vec![trade("D")],
    ]);
    assert_eq!(items.len(), 3);
    assert!(matches!(&items[0], StreamItem::Event(e) if e.symbol() == "A"));
    assert!(matches!(&items[1], StreamItem::Event(e) if e.symbol() == "B"));
    assert!(matches!(items[2], StreamItem::Disconnected));
    assert!(session.stopped);
}

#[test]
fn request_json_escapes_control_characters() {
    let request = Request::new(Action::Authenticate, "a\\b\nc\u{1}\u{1f}/".to_string());
    assert_eq!(
        request.to_json(),
        "{\"action\":\"auth\",\"params\":\"a\\\\b\\nc\\u0001\\u001f/\"}"
    );
}
