//! The connect / authenticate / subscribe exchange that opens a streaming
//! session, as a state machine: the caller performs each step on the
//! WebSocket and hands back what the server sent.

use vstd::prelude::*;

use crate::error::Error;
use crate::foreign::json_string;
use crate::foreign::json_string_of;
use crate::message::Code;
use crate::message::code_name;
use crate::message::Message;
use crate::subscription::Subscription;
use crate::subscription::model_set;
use crate::subscription::normalize;
use crate::subscription::normalized;
use crate::subscription::wire_token;

verus! {

/// The action of a request sent to the streaming service.
#[derive(Clone, Copy, Debug, PartialEq, Eq, Structural)]
pub enum Action {
    /// Authenticate with a credential.
    Authenticate,
    /// Subscribe to events.
    Subscribe,
}

/// The wire name of an action.
pub open spec fn action_name(a: Action) -> Seq<char> {
    match a {
        Action::Authenticate => "auth"@,
        Action::Subscribe => "subscribe"@,
    }
}

/// A request to the streaming service.
#[derive(Clone, Debug)]
pub struct Request {
    /// What the request asks for.
    pub action: Action,
    /// Its parameter: the credential, or the subscription tokens.
    pub params: String,
}

/// The JSON text of a request: `{"action":"<action>","params":"<params>"}`.
pub open spec fn request_json(a: Action, params: Seq<char>) -> Seq<char> {
    "{\"action\":\""@ + action_name(a) + "\",\"params\":"@ + json_string_of(params) + "}"@
}

impl Request {
    /// A request for `action` with the parameter `params`.
    pub fn new(action: Action, params: String) -> (r: Request)
        ensures
            r.action == action,
            r.params == params,
    {
        Request { action, params }
    }

    /// The JSON text of this request, as it is sent in a text frame.
    pub fn to_json(&self) -> (r: String)
        ensures
            r@ == request_json(self.action, self.params@),
    {
        let name = match self.action {
            Action::Authenticate => "auth",
            Action::Subscribe => "subscribe",
        };
        let head = String::from_str("{\"action\":\"");
        let head = head.concat(name);
        let head = head.concat("\",\"params\":");
        let params = json_string(self.params.as_str());
        let head = head.concat(params.as_str());
        let r = head.concat("}");
        assert(r@ =~= request_json(self.action, self.params@));
        r
    }
}

/// The subscription tokens of `s`, joined by `,`.
pub open spec fn joined_tokens(s: Seq<Subscription>) -> Seq<char>
    decreases s.len(),
{
    if s.len() == 0 {
        Seq::empty()
    } else if s.len() == 1 {
        wire_token(s[0]@)
    } else {
        joined_tokens(s.drop_last()) + seq![','] + wire_token(s.last()@)
    }
}

/// The message of the error for a subscribe request without subscriptions.
pub open spec fn no_subscriptions_text() -> Seq<char> {
    "failed to subscribe to event stream: no subscriptions supplied"@
}

/// Create a request to subscribe to events for certain assets, together
/// with the number of subscriptions it holds.
pub fn make_subscribe_request(subscriptions: &Vec<Subscription>) -> (r: Result<
    (Request, usize),
    Error,
>)
    ensures
        subscriptions@.len() == 0 ==> (r matches Err(Error::Str(s)) && s@ == no_subscriptions_text()),
        subscriptions@.len() > 0 ==> (r matches Ok((req, n)) && req.action == Action::Subscribe
            && req.params@ == joined_tokens(subscriptions@) && n == subscriptions@.len()),
{
    if subscriptions.len() == 0 {
        return Err(Error::Str(String::from_str("failed to subscribe to event stream: no subscriptions supplied")));
    }
    let mut params = subscriptions[0].to_string();
    assert(subscriptions@.subrange(0, 1).len() == 1);
    let mut i: usize = 1;
    while i < subscriptions.len()
        invariant
            1 <= i <= subscriptions.len(),
            params@ == joined_tokens(subscriptions@.subrange(0, i as int)),
        decreases subscriptions.len() - i,
    {
        let token = subscriptions[i].to_string();
        params = params.concat(",");
        params = params.concat(token.as_str());
        proof {
            reveal_strlit(",");
            let next = subscriptions@.subrange(0, i + 1);
            assert(next.drop_last() =~= subscriptions@.subrange(0, i as int));
            assert(params@ =~= joined_tokens(next));
        }
        i = i + 1;
    }
    assert(subscriptions@.subrange(0, subscriptions.len() as int) =~= subscriptions@);
    Ok((Request::new(Action::Subscribe, params), subscriptions.len()))
}

/// The text of the error for a status other than the awaited one.
pub open spec fn unsuccessful_text(operation: Seq<char>, message: Seq<char>) -> Seq<char> {
    operation + " not successful: "@ + message
}

/// The text of the error for a status of code `code` where `expected` was
/// awaited. While awaiting `auth_success`, only `auth_failed` is a failed
/// authentication; any other code is a protocol violation.
pub open spec fn status_error_text(expected: Code, code: Code, operation: Seq<char>, message: Seq<char>) -> Seq<char> {
    if expected == Code::AuthSuccess && code != Code::AuthFailure {
        "unexpected status code "@ + code_name(code) + " during "@ + operation + ": "@ + message
    } else {
        unsuccessful_text(operation, message)
    }
}

/// Counting down `count` awaited status messages of code `expected` over
/// the items `msgs` of a frame. Data items are skipped; a status of
/// another code fails the operation (see `status_error_text`). Once the count reaches zero, the
/// items that are left are handed on.
pub open spec fn countdown(msgs: Seq<Message>, expected: Code, count: nat, operation: Seq<char>) -> Result<
    (nat, Seq<Message>),
    Seq<char>,
>
    decreases msgs.len(),
{
    if count == 0 {
        Ok((0, msgs))
    } else if msgs.len() == 0 {
        Ok((count, msgs))
    } else {
        match msgs[0] {
            Message::Status(status) => {
                if status.code != expected {
                    Err(status_error_text(expected, status.code, operation, status.message@))
                } else {
                    countdown(msgs.drop_first(), expected, (count - 1) as nat, operation)
                }
            },
            _ => countdown(msgs.drop_first(), expected, count, operation),
        }
    }
}

/// Check the items of one frame against `count` awaited status messages
/// of code `expected`, returning how many are still awaited and the items
/// that follow the last awaited one.
///
/// The service intermixes status messages with event data, so only status
/// items are evaluated; data items before the awaited statuses are
/// dropped.
pub fn check_responses(mut messages: Vec<Message>, expected: Code, count: usize, operation: &str) -> (r:
    Result<(usize, Vec<Message>), Error>)
    ensures
        match countdown(messages@, expected, count as nat, operation@) {
            Ok((n, rest)) => r matches Ok((m, v)) && m == n && v@ == rest,
            Err(text) => r matches Err(Error::Str(s)) && s@ == text,
        },
{
    let ghost all = messages@;
    let mut remaining = count;
    let mut i: usize = 0;
    assert(all.skip(0) =~= all);
    while i < messages.len() && remaining > 0
        invariant
            messages@ == all,
            i <= messages.len(),
            countdown(all, expected, count as nat, operation@) == countdown(
                all.skip(i as int),
                expected,
                remaining as nat,
                operation@,
            ),
        decreases messages.len() - i,
    {
        assert(all.skip(i as int).drop_first() =~= all.skip(i + 1));
        assert(all.skip(i as int)[0] == all[i as int]);
        match &messages[i] {
            Message::Status(status) => {
                if status.code != expected {
                    let text = if expected == Code::AuthSuccess && status.code != Code::AuthFailure {
                        String::from_str("unexpected status code ").concat(status.code.name()).concat(
                            " during ",
                        ).concat(operation).concat(": ").concat(status.message.as_str())
                    } else {
                        String::from_str(operation).concat(" not successful: ").concat(
                            status.message.as_str(),
                        )
                    };
                    assert(text@ =~= status_error_text(
                        expected,
                        status.code,
                        operation@,
                        status.message@,
                    ));
                    assert(all.skip(i as int).len() > 0);
                    assert(countdown(all.skip(i as int), expected, remaining as nat, operation@)
                        == Err::<(nat, Seq<Message>), Seq<char>>(text@));
                    return Err(Error::Str(text));
                }
                remaining = remaining - 1;
            },
            _ => {},
        }
        i = i + 1;
    }
    let rest = messages.split_off(i);
    assert(rest@ =~= all.skip(i as int));
    Ok((remaining, rest))
}

/// The stage a handshake has reached.
#[derive(Clone, Copy, Debug, PartialEq, Eq, Structural)]
pub enum Phase {
    /// Awaiting the server's `connected` status.
    Connecting,
    /// The credential was sent; awaiting `auth_success`.
    Authenticating,
    /// The subscriptions were sent; awaiting one `success` for each.
    Subscribing,
    /// The handshake succeeded; the session may stream.
    Complete,
    /// The handshake failed.
    Failed,
}

/// The status code awaited in a phase.
pub open spec fn phase_code(p: Phase) -> Code {
    match p {
        Phase::Connecting => Code::Connected,
        Phase::Authenticating => Code::AuthSuccess,
        _ => Code::Success,
    }
}

/// The name of the operation of a phase, as it appears in error messages.
pub open spec fn phase_operation(p: Phase) -> Seq<char> {
    match p {
        Phase::Connecting => "connection"@,
        Phase::Authenticating => "authentication"@,
        _ => "subscription"@,
    }
}

/// What the WebSocket delivered to a handshake.
#[derive(Debug)]
pub enum Incoming {
    /// A text or binary frame, decoded into its items.
    Frame(Vec<Message>),
    /// A frame that did not decode, with the decoder's description.
    Undecodable(String),
    /// A ping with its payload.
    Ping(Vec<u8>),
    /// A pong.
    Pong,
    /// A close frame, or the end of the connection.
    Close,
    /// A transport error, with its description.
    Failure(String),
}

/// What the caller does next for a handshake.
#[derive(Debug)]
pub enum Step {
    /// Send this text frame, then hand over what arrives next.
    Send(String),
    /// Answer with a pong carrying this payload, then hand over what
    /// arrives next.
    Pong(Vec<u8>),
    /// Hand over what arrives next.
    Wait,
    /// The handshake succeeded; these items of the last frame followed the
    /// last awaited status and belong to the session.
    Done(Vec<Message>),
    /// The handshake failed.
    Fail(Error),
}

/// The message of the error for a connection that closed during the
/// handshake.
pub open spec fn closed_text() -> Seq<char> {
    "websocket connection closed unexpectedly"@
}

/// The driver of the three-phase exchange that opens a streaming session:
/// await `connected`, authenticate, subscribe.
#[derive(Debug)]
pub struct Handshake {
    /// The phase reached.
    pub phase: Phase,
    /// How many status messages of the phase's code are still awaited.
    pub remaining: usize,
    /// The credential.
    pub api_key: String,
    /// The subscriptions to make.
    pub subscriptions: Vec<Subscription>,
}

/// The effect of a decoded frame on a handshake in state `h`: the next
/// state `next` and the step `r`.
pub open spec fn frame_outcome(h: Handshake, msgs: Seq<Message>, next: Handshake, r: Step) -> bool {
    match countdown(msgs, phase_code(h.phase), h.remaining as nat, phase_operation(h.phase)) {
        Err(text) => next.phase == Phase::Failed && (r matches Step::Fail(Error::Str(s)) && s@ == text),
        Ok((n, rest)) => if n > 0 {
            r is Wait && next.phase == h.phase && next.remaining == n
        } else {
            match h.phase {
                Phase::Connecting => next.phase == Phase::Authenticating && next.remaining == 1 && (
                r matches Step::Send(t) && t@ == request_json(Action::Authenticate, h.api_key@)),
                Phase::Authenticating => if h.subscriptions@.len() == 0 {
                    next.phase == Phase::Failed && (r matches Step::Fail(Error::Str(s)) && s@
                        == no_subscriptions_text())
                } else {
                    next.phase == Phase::Subscribing && next.remaining == h.subscriptions@.len() && (
                    r matches Step::Send(t) && t@ == request_json(
                        Action::Subscribe,
                        joined_tokens(h.subscriptions@),
                    ))
                },
                _ => next.phase == Phase::Complete && (r matches Step::Done(v) && v@ == rest),
            }
        },
    }
}

impl Handshake {
    /// A handshake that will authenticate with `api_key` and make the
    /// given subscriptions.
    pub fn new(api_key: String, subscriptions: Vec<Subscription>) -> (r: Handshake)
        ensures
            r.phase == Phase::Connecting,
            r.remaining == 1,
            r.wf(),
            r.api_key == api_key,
            r.subscriptions == subscriptions,
    {
        Handshake { phase: Phase::Connecting, remaining: 1, api_key, subscriptions }
    }

    /// A handshake that will authenticate with `api_key` and make the
    /// normalised form of the given subscriptions.
    pub fn for_subscriptions(api_key: String, subscriptions: Vec<Subscription>) -> (r: Handshake)
        ensures
            r.phase == Phase::Connecting,
            r.remaining == 1,
            r.wf(),
            r.api_key == api_key,
            model_set(r.subscriptions@) == normalized(model_set(subscriptions@)),
            r.subscriptions@.map_values(|x: Subscription| x@).no_duplicates(),
    {
        Handshake::new(api_key, normalize(subscriptions))
    }

    /// Well-formedness: while the handshake is in progress, at least one
    /// status message is awaited.
    pub open spec fn wf(&self) -> bool {
        self.spec_in_progress() ==> self.remaining > 0
    }

    /// Whether the handshake still awaits messages.
    pub open spec fn spec_in_progress(&self) -> bool {
        self.phase == Phase::Connecting || self.phase == Phase::Authenticating || self.phase
            == Phase::Subscribing
    }

    /// Whether the handshake still awaits messages.
    pub fn in_progress(&self) -> (r: bool)
        ensures
            r == self.spec_in_progress(),
    {
        match self.phase {
            Phase::Connecting | Phase::Authenticating | Phase::Subscribing => true,
            Phase::Complete | Phase::Failed => false,
        }
    }

    /// Take in what the WebSocket delivered and say what to do next.
    ///
    /// Data items that arrive while status messages are awaited are
    /// dropped; pings are answered; a close, a transport error or a frame
    /// that does not decode ends the handshake with an error.
    pub fn on_incoming(&mut self, input: Incoming) -> (r: Step)
        requires
            old(self).wf(),
            old(self).spec_in_progress(),
        ensures
            final(self).wf(),
            final(self).api_key == old(self).api_key,
            final(self).subscriptions == old(self).subscriptions,
            match input {
                Incoming::Ping(data) => r == Step::Pong(data) && final(self).phase == old(self).phase
                    && final(self).remaining == old(self).remaining,
                Incoming::Pong => r is Wait && final(self).phase == old(self).phase
                    && final(self).remaining == old(self).remaining,
                Incoming::Close => final(self).phase == Phase::Failed && (r matches Step::Fail(
                    Error::Str(s),
                ) && s@ == closed_text()),
                Incoming::Failure(d) => final(self).phase == Phase::Failed && r == Step::Fail(
                    Error::WebSocket(d),
                ),
                Incoming::Undecodable(d) => final(self).phase == Phase::Failed && r == Step::Fail(
                    Error::Json(d),
                ),
                Incoming::Frame(msgs) => frame_outcome(*old(self), msgs@, *final(self), r),
            },
    {
        match input {
            Incoming::Ping(data) => Step::Pong(data),
            Incoming::Pong => Step::Wait,
            Incoming::Close => {
                self.phase = Phase::Failed;
                Step::Fail(Error::Str(String::from_str("websocket connection closed unexpectedly")))
            },
            Incoming::Failure(d) => {
                self.phase = Phase::Failed;
                Step::Fail(Error::WebSocket(d))
            },
            Incoming::Undecodable(d) => {
                self.phase = Phase::Failed;
                Step::Fail(Error::Json(d))
            },
            Incoming::Frame(msgs) => {
                let (code, operation) = match self.phase {
                    Phase::Connecting => (Code::Connected, "connection"),
                    Phase::Authenticating => (Code::AuthSuccess, "authentication"),
                    _ => (Code::Success, "subscription"),
                };
                match check_responses(msgs, code, self.remaining, operation) {
                    Err(e) => {
                        self.phase = Phase::Failed;
                        Step::Fail(e)
                    },
                    Ok((n, rest)) => {
                        if n > 0 {
                            self.remaining = n;
                            Step::Wait
                        } else {
                            match self.phase {
                                Phase::Connecting => {
                                    self.phase = Phase::Authenticating;
                                    self.remaining = 1;
                                    let request = Request::new(
                                        Action::Authenticate,
                                        self.api_key.clone(),
                                    );
                                    Step::Send(request.to_json())
                                },
                                Phase::Authenticating => {
                                    match make_subscribe_request(&self.subscriptions) {
                                        Err(e) => {
                                            self.phase = Phase::Failed;
                                            Step::Fail(e)
                                        },
                                        Ok((request, count)) => {
                                            self.phase = Phase::Subscribing;
                                            self.remaining = count;
                                            Step::Send(request.to_json())
                                        },
                                    }
                                },
                                _ => {
                                    self.phase = Phase::Complete;
                                    Step::Done(rest)
                                },
                            }
                        }
                    },
                }
            },
        }
    }
}

} // verus!
