//! The items that the streaming service sends: status (control) messages
//! and the data events of the four kinds.

use vstd::prelude::*;

use num_decimal::Num;

use crate::text::same_text;

verus! {

/// An instant, as milliseconds since the Unix epoch (UTC).
#[derive(Clone, Copy, Debug, PartialEq, Eq, Hash, PartialOrd, Ord, Structural)]
pub struct Timestamp {
    /// Milliseconds since 1970-01-01T00:00:00Z.
    pub millis: i64,
}

impl Timestamp {
    /// The instant `millis` milliseconds after the Unix epoch.
    pub fn from_millis(millis: i64) -> (r: Timestamp)
        ensures
            r.millis == millis,
    {
        Timestamp { millis }
    }
}

/// A data point for a trade.
#[derive(Clone, Debug, PartialEq)]
pub struct Trade {
    /// The stock's symbol.
    pub symbol: String,
    /// The exchange the trade occurred on.
    pub exchange: u64,
    /// The price.
    pub price: Num,
    /// The number of shares traded.
    pub quantity: u64,
    /// The trade's timestamp.
    pub timestamp: Timestamp,
}

/// A quote for a stock.
#[derive(Clone, Debug, PartialEq)]
pub struct Quote {
    /// The stock's symbol.
    pub symbol: String,
    /// The exchange where the stock is being bid for.
    pub bid_exchange: u64,
    /// The bid price.
    pub bid_price: Num,
    /// The bid quantity.
    pub bid_quantity: u64,
    /// The exchange where the stock is being asked for.
    pub ask_exchange: u64,
    /// The ask price.
    pub ask_price: Num,
    /// The ask quantity.
    pub ask_quantity: u64,
    /// The quote's timestamp.
    pub timestamp: Timestamp,
}

/// An aggregate for a stock.
#[derive(Clone, Debug, PartialEq)]
pub struct Aggregate {
    /// The stock's symbol.
    pub symbol: String,
    /// The tick volume.
    pub volume: u64,
    /// Volume weighted average price.
    pub volume_weighted_average_price: Num,
    /// The tick's open price.
    pub open_price: Num,
    /// The tick's close price.
    pub close_price: Num,
    /// The tick's high price.
    pub high_price: Num,
    /// The tick's low price.
    pub low_price: Num,
    /// The tick's start timestamp.
    pub start_timestamp: Timestamp,
    /// The tick's end timestamp.
    pub end_timestamp: Timestamp,
}

/// A status code indication for an operation.
#[derive(Clone, Copy, Debug, PartialEq, Eq, Structural)]
pub enum Code {
    /// The connection was established.
    Connected,
    /// The server closed the session.
    Disconnected,
    /// Authentication succeeded.
    AuthSuccess,
    /// Authentication failed.
    AuthFailure,
    /// An operation (such as a subscription) succeeded.
    Success,
}

/// The wire name of a status code.
pub open spec fn code_name(c: Code) -> Seq<char> {
    match c {
        Code::Connected => seq!['c', 'o', 'n', 'n', 'e', 'c', 't', 'e', 'd'],
        Code::Disconnected => seq!['d', 'i', 's', 'c', 'o', 'n', 'n', 'e', 'c', 't', 'e', 'd'],
        Code::AuthSuccess => seq!['a', 'u', 't', 'h', '_', 's', 'u', 'c', 'c', 'e', 's', 's'],
        Code::AuthFailure => seq!['a', 'u', 't', 'h', '_', 'f', 'a', 'i', 'l', 'e', 'd'],
        Code::Success => seq!['s', 'u', 'c', 'c', 'e', 's', 's'],
    }
}

impl Code {
    /// The wire name of this status code.
    pub fn name(&self) -> (r: &'static str)
        ensures
            r@ == code_name(*self),
    {
        proof {
            reveal_strlit("connected");
            reveal_strlit("disconnected");
            reveal_strlit("auth_success");
            reveal_strlit("auth_failed");
            reveal_strlit("success");
        }
        let r = match self {
            Code::Connected => "connected",
            Code::Disconnected => "disconnected",
            Code::AuthSuccess => "auth_success",
            Code::AuthFailure => "auth_failed",
            Code::Success => "success",
        };
        assert(r@ =~= code_name(*self));
        r
    }

    /// The status code with the given wire name, if there is one. An
    /// unknown name is a protocol failure for the caller to report.
    pub fn from_name(name: &str) -> (r: Option<Code>)
        ensures
            r == code_named(name@),
    {
        proof {
            reveal_strlit("connected");
            reveal_strlit("disconnected");
            reveal_strlit("auth_success");
            reveal_strlit("auth_failed");
            reveal_strlit("success");
        }
        let r = if same_text(name, "connected") {
            Some(Code::Connected)
        } else if same_text(name, "disconnected") {
            Some(Code::Disconnected)
        } else if same_text(name, "auth_success") {
            Some(Code::AuthSuccess)
        } else if same_text(name, "auth_failed") {
            Some(Code::AuthFailure)
        } else if same_text(name, "success") {
            Some(Code::Success)
        } else {
            None
        };
        proof {
            assert("connected"@ =~= code_name(Code::Connected));
            assert("disconnected"@ =~= code_name(Code::Disconnected));
            assert("auth_success"@ =~= code_name(Code::AuthSuccess));
            assert("auth_failed"@ =~= code_name(Code::AuthFailure));
            assert("success"@ =~= code_name(Code::Success));
        }
        r
    }
}

/// A status (control) message of the streaming service.
#[derive(Clone, Debug, PartialEq)]
pub struct Status {
    /// The status code.
    pub code: Code,
    /// The human readable message.
    pub message: String,
}

/// An item as received from the streaming service.
///
/// The service mixes control messages (status messages) with event data
/// freely, within one frame and across frames.
#[derive(Clone, Debug, PartialEq)]
pub enum Message {
    /// A status message.
    Status(Status),
    /// A second aggregate.
    SecondAggregate(Aggregate),
    /// A minute aggregate.
    MinuteAggregate(Aggregate),
    /// A trade.
    Trade(Trade),
    /// A quote.
    Quote(Quote),
}

impl Message {
    /// The status this message carries, if it is a status message.
    pub fn into_status(self) -> (r: Option<Status>)
        ensures
            r == (match self {
                Message::Status(s) => Some(s),
                _ => None::<Status>,
            }),
    {
        match self {
            Message::Status(status) => Some(status),
            _ => None,
        }
    }
}

/// An event of the stream, as handed to the caller.
#[derive(Clone, Debug, PartialEq)]
pub enum Event {
    /// A tick for a second aggregate for a stock.
    SecondAggregate(Aggregate),
    /// A tick for a minute aggregate for a stock.
    MinuteAggregate(Aggregate),
    /// A tick for a trade of a stock.
    Trade(Trade),
    /// A tick for a quote for a stock.
    Quote(Quote),
}

/// The event that a data message carries; `None` for a status message.
pub open spec fn event_of(m: Message) -> Option<Event> {
    match m {
        Message::Status(_) => None,
        Message::SecondAggregate(a) => Some(Event::SecondAggregate(a)),
        Message::MinuteAggregate(a) => Some(Event::MinuteAggregate(a)),
        Message::Trade(t) => Some(Event::Trade(t)),
        Message::Quote(q) => Some(Event::Quote(q)),
    }
}

impl Event {
    /// The symbol of the stock this event is about.
    pub open spec fn spec_symbol(&self) -> Seq<char> {
        match self {
            Event::SecondAggregate(a) => a.symbol@,
            Event::MinuteAggregate(a) => a.symbol@,
            Event::Trade(t) => t.symbol@,
            Event::Quote(q) => q.symbol@,
        }
    }

    /// Retrieve the event's symbol.
    pub fn symbol(&self) -> (r: &str)
        ensures
            r@ == self.spec_symbol(),
    {
        match self {
            Event::SecondAggregate(aggregate) => aggregate.symbol.as_str(),
            Event::MinuteAggregate(aggregate) => aggregate.symbol.as_str(),
            Event::Trade(trade) => trade.symbol.as_str(),
            Event::Quote(quote) => quote.symbol.as_str(),
        }
    }

    /// The trade, if this event is one.
    pub fn to_trade(&self) -> (r: Option<&Trade>)
        ensures
            r == (match self {
                Event::Trade(t) => Some(t),
                _ => None::<&Trade>,
            }),
    {
        match self {
            Event::Trade(trade) => Some(trade),
            _ => None,
        }
    }

    /// The quote, if this event is one.
    pub fn to_quote(&self) -> (r: Option<&Quote>)
        ensures
            r == (match self {
                Event::Quote(q) => Some(q),
                _ => None::<&Quote>,
            }),
    {
        match self {
            Event::Quote(quote) => Some(quote),
            _ => None,
        }
    }
}

/// The items of `v` in reverse order.
pub(crate) fn reversed<T>(mut v: Vec<T>) -> (r: Vec<T>)
    ensures
        r@.len() == v@.len(),
        forall|j: int| 0 <= j < v@.len() ==> r@[j] == v@[v@.len() - 1 - j],
{
    let ghost orig = v@;
    let mut r: Vec<T> = Vec::new();
    while v.len() > 0
        invariant
            v@ == orig.subrange(0, v@.len() as int),
            r@.len() + v@.len() == orig.len(),
            forall|j: int| 0 <= j < r@.len() ==> r@[j] == orig[orig.len() - 1 - j],
        decreases v.len(),
    {
        let x = v.pop().unwrap();
        assert(x == orig[v@.len() as int]);
        r.push(x);
        assert(v@ =~= orig.subrange(0, v@.len() as int));
    }
    r
}

/// The message that carries an event.
pub open spec fn message_of(e: Event) -> Message {
    match e {
        Event::SecondAggregate(a) => Message::SecondAggregate(a),
        Event::MinuteAggregate(a) => Message::MinuteAggregate(a),
        Event::Trade(t) => Message::Trade(t),
        Event::Quote(q) => Message::Quote(q),
    }
}

/// The status code with the wire name `name`, if there is one.
pub open spec fn code_named(name: Seq<char>) -> Option<Code> {
    if name == code_name(Code::Connected) {
        Some(Code::Connected)
    } else if name == code_name(Code::Disconnected) {
        Some(Code::Disconnected)
    } else if name == code_name(Code::AuthSuccess) {
        Some(Code::AuthSuccess)
    } else if name == code_name(Code::AuthFailure) {
        Some(Code::AuthFailure)
    } else if name == code_name(Code::Success) {
        Some(Code::Success)
    } else {
        None
    }
}

/// An item of a frame as the JSON decoder tells it apart by its `ev`
/// field: a status, with the wire name of its code and its message; a data
/// item; or an item of a kind this library does not know.
#[derive(Debug)]
pub enum FrameItem {
    /// A status item.
    Status(String, String),
    /// A data item.
    Data(Event),
    /// An item of an unknown kind.
    Unknown,
}

/// The text of the error for a status with an unknown code.
pub open spec fn unknown_code_text(name: Seq<char>) -> Seq<char> {
    "invalid status code: "@ + name
}

/// The messages of a frame's items: items of unknown kinds are skipped,
/// and a status with an unknown code makes the frame invalid.
pub open spec fn frame_messages(items: Seq<FrameItem>) -> Result<Seq<Message>, Seq<char>>
    decreases items.len(),
{
    if items.len() == 0 {
        Ok(Seq::empty())
    } else {
        let rest = frame_messages(items.drop_first());
        match items[0] {
            FrameItem::Unknown => rest,
            FrameItem::Data(e) => match rest {
                Ok(ms) => Ok(seq![message_of(e)] + ms),
                Err(t) => Err(t),
            },
            FrameItem::Status(name, message) => match code_named(name@) {
                None => Err(unknown_code_text(name@)),
                Some(code) => match rest {
                    Ok(ms) => Ok(seq![Message::Status(Status { code, message })] + ms),
                    Err(t) => Err(t),
                },
            },
        }
    }
}

/// The messages of a frame, from its items in order.
pub fn frame_from_items(items: Vec<FrameItem>) -> (r: Result<Vec<Message>, String>)
    ensures
        match frame_messages(items@) {
            Ok(ms) => r matches Ok(v) && v@ == ms,
            Err(t) => r matches Err(s) && s@ == t,
        },
{
    let ghost all = items@;
    let n = items.len();
    let mut rev = reversed(items);
    let mut out: Vec<Message> = Vec::new();
    assert(all.skip(0) =~= all);
    while rev.len() > 0
        invariant
            rev@.len() <= n == all.len(),
            all == items@,
            forall|j: int| 0 <= j < rev@.len() ==> rev@[j] == all[n - 1 - j],
            match frame_messages(all) {
                Ok(ms) => frame_messages(all.skip(n - rev@.len())) matches Ok(tail) && ms
                    == out@ + tail,
                Err(t) => frame_messages(all.skip(n - rev@.len())) == Err::<Seq<Message>, Seq<char>>(t),
            },
        decreases rev.len(),
    {
        let ghost rest = all.skip(n - rev@.len());
        let item = rev.pop().unwrap();
        assert(rest[0] == item);
        assert(rest.drop_first() =~= all.skip(n - rev@.len()));
        match item {
            FrameItem::Unknown => {},
            FrameItem::Data(e) => {
                let m = match e {
                    Event::SecondAggregate(a) => Message::SecondAggregate(a),
                    Event::MinuteAggregate(a) => Message::MinuteAggregate(a),
                    Event::Trade(t) => Message::Trade(t),
                    Event::Quote(q) => Message::Quote(q),
                };
                let ghost before = out@;
                out.push(m);
                proof {
                    if let Ok(ms) = frame_messages(all) {
                        let tail = frame_messages(rest.drop_first())->Ok_0;
                        assert(ms == before + (seq![m] + tail));
                        assert(ms =~= out@ + tail);
                    }
                }
            },
            FrameItem::Status(name, message) => {
                match Code::from_name(name.as_str()) {
                    None => {
                        let text = String::from_str("invalid status code: ").concat(name.as_str());
                        assert(code_named(name@) is None);
                        assert(text@ =~= unknown_code_text(name@));
                        assert(frame_messages(rest) == Err::<Seq<Message>, Seq<char>>(text@));
                        return Err(text);
                    },
                    Some(code) => {
                        let ghost before = out@;
                        let ghost m = Message::Status(Status { code, message });
                        out.push(Message::Status(Status { code, message }));
                        proof {
                            if let Ok(ms) = frame_messages(all) {
                                let tail = frame_messages(rest.drop_first())->Ok_0;
                                assert(ms == before + (seq![m] + tail));
                                assert(ms =~= out@ + tail);
                            }
                        }
                    },
                }
            },
        }
    }
    assert(all.skip(n as int).len() == 0);
    assert(frame_messages(all.skip(n as int)) == Ok::<Seq<Message>, Seq<char>>(Seq::empty()));
    proof {
        if let Ok(ms) = frame_messages(all) {
            assert(ms =~= out@);
        }
    }
    Ok(out)
}

} // verus!
