//! The streaming session after a successful handshake: frames of items in,
//! events out, until the server disconnects.

use vstd::prelude::*;

use crate::message::Code;
use crate::message::Event;
use crate::message::Message;
use crate::message::event_of;
use crate::message::reversed;
use vstd::seq_lib::lemma_flatten_concat;

verus! {

/// An item of the event stream handed to the caller.
#[derive(Debug)]
pub enum StreamItem {
    /// A decoded event.
    Event(Event),
    /// A frame that did not decode, with the decoder's description; the
    /// stream goes on.
    Undecodable(String),
    /// The server disconnected the session; the stream ends after this
    /// item.
    Disconnected,
}

/// Whether a message is the server's `disconnected` status.
pub open spec fn is_disconnect(m: Message) -> bool {
    m matches Message::Status(s) && s.code == Code::Disconnected
}

/// Whether any item of `ms` is a `disconnected` status.
pub open spec fn disconnects(ms: Seq<Message>) -> bool {
    exists|i: int| 0 <= i < ms.len() && is_disconnect(#[trigger] ms[i])
}

/// The stream items that the items `ms` of a frame give, in order: each
/// data item its event, other statuses nothing, and the first
/// `disconnected` status a final `Disconnected` item, after which nothing
/// more is given.
pub open spec fn frame_items(ms: Seq<Message>) -> Seq<StreamItem>
    decreases ms.len(),
{
    if ms.len() == 0 {
        Seq::empty()
    } else if is_disconnect(ms[0]) {
        seq![StreamItem::Disconnected]
    } else {
        match event_of(ms[0]) {
            Some(e) => seq![StreamItem::Event(e)] + frame_items(ms.drop_first()),
            None => frame_items(ms.drop_first()),
        }
    }
}

/// The events of the data items of `ms`, in order.
pub open spec fn data_items(ms: Seq<Message>) -> Seq<StreamItem>
    decreases ms.len(),
{
    if ms.len() == 0 {
        Seq::empty()
    } else {
        match event_of(ms[0]) {
            Some(e) => seq![StreamItem::Event(e)] + data_items(ms.drop_first()),
            None => data_items(ms.drop_first()),
        }
    }
}

/// The items a session gives for the decoded `frames`, starting stopped
/// or not.
pub open spec fn session_items(stopped: bool, frames: Seq<Seq<Message>>) -> Seq<StreamItem>
    decreases frames.len(),
{
    if stopped || frames.len() == 0 {
        Seq::empty()
    } else {
        frame_items(frames[0]) + session_items(disconnects(frames[0]), frames.drop_first())
    }
}

/// The decoded frames held in `frames`.
pub open spec fn frames_view(frames: Seq<Vec<Message>>) -> Seq<Seq<Message>> {
    frames.map_values(|f: Vec<Message>| f@)
}

/// The state of a streaming session: whether the server has disconnected
/// it.
#[derive(Debug)]
pub struct Session {
    /// Set once a `disconnected` status was seen; nothing is delivered
    /// after that.
    pub stopped: bool,
}

proof fn lemma_frame_items_disconnect(ms: Seq<Message>)
    ensures
        !disconnects(ms) ==> frame_items(ms) == data_items(ms),
    decreases ms.len(),
{
    if ms.len() > 0 {
        if !disconnects(ms) {
            assert(!is_disconnect(ms[0]));
            assert forall|i: int| 0 <= i < ms.drop_first().len() implies !is_disconnect(
                #[trigger] ms.drop_first()[i],
            ) by {
                assert(ms.drop_first()[i] == ms[i + 1]);
            }
        }
        lemma_frame_items_disconnect(ms.drop_first());
    }
}

impl Session {
    /// A session that has just completed its handshake.
    pub fn new() -> (r: Session)
        ensures
            !r.stopped,
    {
        Session { stopped: false }
    }

    /// The stream items for one decoded frame, in the frame's order. After
    /// a `disconnected` status the session is stopped and delivers nothing
    /// more, from this frame or a later one.
    pub fn on_frame(&mut self, frame: Vec<Message>) -> (r: Vec<StreamItem>)
        ensures
            old(self).stopped ==> r@ == Seq::<StreamItem>::empty() && final(self).stopped,
            !old(self).stopped ==> r@ == frame_items(frame@) && final(self).stopped == disconnects(
                frame@,
            ),
    {
        let mut out: Vec<StreamItem> = Vec::new();
        if self.stopped {
            return out;
        }
        let ghost all = frame@;
        let n = frame.len();
        let mut rev = reversed(frame);
        assert(all.skip(0) =~= all);
        assert(out@ + frame_items(all) =~= frame_items(all));
        while rev.len() > 0
            invariant
                !self.stopped,
                !old(self).stopped,
                all == frame@,
                rev@.len() <= n == all.len(),
                forall|j: int| 0 <= j < rev@.len() ==> rev@[j] == all[n - 1 - j],
                out@ + frame_items(all.skip(n - rev@.len())) == frame_items(all),
                disconnects(all) == disconnects(all.skip(n - rev@.len())),
            decreases rev.len(),
        {
            let ghost rest = all.skip(n - rev@.len());
            let m = rev.pop().unwrap();
            assert(rest[0] == m);
            assert(rest.drop_first() =~= all.skip(n - rev@.len()));
            if let Message::Status(status) = &m {
                if status.code == Code::Disconnected {
                    out.push(StreamItem::Disconnected);
                    self.stopped = true;
                    assert(is_disconnect(rest[0]));
                    assert(disconnects(rest));
                    assert(frame_items(rest) == seq![StreamItem::Disconnected]);
                    assert(out@ =~= frame_items(all));
                    return out;
                }
            }
            assert(disconnects(rest) == disconnects(rest.drop_first())) by {
                if disconnects(rest) {
                    let i = choose|i: int| 0 <= i < rest.len() && is_disconnect(#[trigger] rest[i]);
                    assert(i > 0);
                    assert(rest.drop_first()[i - 1] == rest[i]);
                }
                if disconnects(rest.drop_first()) {
                    let i = choose|i: int|
                        0 <= i < rest.drop_first().len() && is_disconnect(
                            #[trigger] rest.drop_first()[i],
                        );
                    assert(rest[i + 1] == rest.drop_first()[i]);
                }
            }
            let ghost before = out@;
            match m {
                Message::Status(_) => {},
                Message::SecondAggregate(a) => out.push(StreamItem::Event(Event::SecondAggregate(a))),
                Message::MinuteAggregate(a) => out.push(StreamItem::Event(Event::MinuteAggregate(a))),
                Message::Trade(t) => out.push(StreamItem::Event(Event::Trade(t))),
                Message::Quote(q) => out.push(StreamItem::Event(Event::Quote(q))),
            }
            assert(out@ + frame_items(rest.drop_first()) =~= before + frame_items(rest));
        }
        assert(all.skip(n as int).len() == 0);
        assert(out@ =~= frame_items(all));
        out
    }

    /// The stream items for several decoded frames, delivered one after
    /// the other: exactly what the session gives for them in turn.
    pub fn on_frames(&mut self, frames: Vec<Vec<Message>>) -> (r: Vec<StreamItem>)
        ensures
            r@ == session_items(old(self).stopped, frames_view(frames@)),
    {
        let ghost start = self.stopped;
        let ghost all = frames_view(frames@);
        let n = frames.len();
        let mut rev = reversed(frames);
        let mut out: Vec<StreamItem> = Vec::new();
        assert(all.skip(0) =~= all);
        while rev.len() > 0
            invariant
                rev@.len() <= n == all.len(),
                all == frames_view(frames@),
                start == old(self).stopped,
                forall|j: int| 0 <= j < rev@.len() ==> rev@[j]@ == all[n - 1 - j],
                out@ + session_items(self.stopped, all.skip(n - rev@.len())) == session_items(
                    start,
                    all,
                ),
            decreases rev.len(),
        {
            let ghost rest = all.skip(n - rev@.len());
            let ghost stopped = self.stopped;
            let frame = rev.pop().unwrap();
            assert(rest[0] == frame@);
            assert(rest.drop_first() =~= all.skip(n - rev@.len()));
            let ghost before = out@;
            let mut items = self.on_frame(frame);
            out.append(&mut items);
            assert(out@ + session_items(self.stopped, rest.drop_first()) =~= before + session_items(
                stopped,
                rest,
            ));
        }
        assert(all.skip(n as int).len() == 0);
        assert(out@ =~= session_items(start, all));
        out
    }

    /// The stream item for a frame that did not decode: an error item that
    /// does not end the stream, unless the session is already stopped.
    pub fn on_undecodable(&mut self, description: String) -> (r: Vec<StreamItem>)
        ensures
            final(self).stopped == old(self).stopped,
            old(self).stopped ==> r@ == Seq::<StreamItem>::empty(),
            !old(self).stopped ==> r@ == seq![StreamItem::Undecodable(description)],
    {
        let mut out: Vec<StreamItem> = Vec::new();
        if !self.stopped {
            out.push(StreamItem::Undecodable(description));
        }
        out
    }
}

proof fn lemma_disconnects_append(a: Seq<Message>, b: Seq<Message>)
    ensures
        disconnects(a + b) == (disconnects(a) || disconnects(b)),
{
    if disconnects(a + b) {
        let i = choose|i: int| 0 <= i < (a + b).len() && is_disconnect(#[trigger] (a + b)[i]);
        if i >= a.len() {
            assert(b[i - a.len()] == (a + b)[i]);
        }
    }
    if disconnects(a) {
        let i = choose|i: int| 0 <= i < a.len() && is_disconnect(#[trigger] a[i]);
        assert((a + b)[i] == a[i]);
    }
    if disconnects(b) {
        let i = choose|i: int| 0 <= i < b.len() && is_disconnect(#[trigger] b[i]);
        assert((a + b)[a.len() + i] == b[i]);
    }
}

proof fn lemma_disconnects_first(ms: Seq<Message>)
    requires
        ms.len() > 0,
    ensures
        disconnects(ms) == (is_disconnect(ms[0]) || disconnects(ms.drop_first())),
{
    assert(ms =~= seq![ms[0]] + ms.drop_first());
    lemma_disconnects_append(seq![ms[0]], ms.drop_first());
    if is_disconnect(ms[0]) {
        assert(is_disconnect(seq![ms[0]][0]));
        assert(disconnects(seq![ms[0]]));
    }
    if disconnects(seq![ms[0]]) {
        let i = choose|i: int| 0 <= i < 1 && is_disconnect(#[trigger] seq![ms[0]][i]);
    }
}

proof fn lemma_frame_items_append(a: Seq<Message>, b: Seq<Message>)
    ensures
        frame_items(a + b) == if disconnects(a) {
            frame_items(a)
        } else {
            frame_items(a) + frame_items(b)
        },
    decreases a.len(),
{
    if a.len() == 0 {
        assert(a + b =~= b);
        assert(!disconnects(a));
        assert(frame_items(a) + frame_items(b) =~= frame_items(b));
    } else {
        assert((a + b)[0] == a[0]);
        assert((a + b).drop_first() =~= a.drop_first() + b);
        lemma_disconnects_first(a);
        lemma_frame_items_append(a.drop_first(), b);
        if !is_disconnect(a[0]) {
            match event_of(a[0]) {
                Some(e) => {
                    if !disconnects(a) {
                        assert(frame_items(a + b) =~= frame_items(a) + frame_items(b));
                    }
                },
                None => {},
            }
        }
    }
}

proof fn lemma_session_items_flatten(frames: Seq<Seq<Message>>)
    ensures
        session_items(false, frames) == frame_items(frames.flatten()),
    decreases frames.len(),
{
    if frames.len() > 0 {
        let first = frames[0];
        let tail = frames.drop_first();
        assert(frames.flatten() == first + tail.flatten());
        lemma_frame_items_append(first, tail.flatten());
        lemma_session_items_flatten(tail);
        if disconnects(first) {
            assert(session_items(true, tail) == Seq::<StreamItem>::empty());
            assert(session_items(false, frames) =~= frame_items(first));
        }
    }
}

proof fn lemma_frame_items_upto(ms: Seq<Message>, k: int)
    requires
        0 <= k < ms.len(),
        is_disconnect(ms[k]),
        forall|j: int| 0 <= j < k ==> !is_disconnect(#[trigger] ms[j]),
    ensures
        frame_items(ms) == data_items(ms.take(k)).push(StreamItem::Disconnected),
    decreases k,
{
    if k == 0 {
        assert(ms.take(0) =~= Seq::<Message>::empty());
        assert(frame_items(ms) =~= seq![StreamItem::Disconnected]);
    } else {
        let rest = ms.drop_first();
        assert forall|j: int| 0 <= j < k - 1 implies !is_disconnect(#[trigger] rest[j]) by {
            assert(rest[j] == ms[j + 1]);
        }
        assert(rest[k - 1] == ms[k]);
        lemma_frame_items_upto(rest, k - 1);
        assert(ms.take(k).drop_first() =~= rest.take(k - 1));
        assert(ms.take(k)[0] == ms[0]);
        assert(!is_disconnect(ms[0]));
        match event_of(ms[0]) {
            Some(e) => {
                assert(frame_items(ms) =~= data_items(ms.take(k)).push(StreamItem::Disconnected));
            },
            None => {},
        }
    }
}

proof fn lemma_data_items_are_events(ms: Seq<Message>)
    ensures
        forall|j: int| 0 <= j < data_items(ms).len() ==> #[trigger] data_items(ms)[j] is Event,
    decreases ms.len(),
{
    if ms.len() > 0 {
        lemma_data_items_are_events(ms.drop_first());
        match event_of(ms[0]) {
            Some(e) => {
                let d = data_items(ms);
                assert forall|j: int| 0 <= j < d.len() implies #[trigger] d[j] is Event by {
                    if j > 0 {
                        assert(d[j] == data_items(ms.drop_first())[j - 1]);
                    }
                }
            },
            None => {},
        }
    }
}

/// After a completed handshake, a session (fed the frames one by one with
/// `on_frame`, or at once with `on_frames`) delivers exactly the data
/// events that the server sent, in the server's order, frame boundaries aside: all
/// of them where no `disconnected` status comes, and otherwise those before
/// the first one, followed by a single `Disconnected` item.
pub proof fn lemma_session_delivers_data_in_order(frames: Seq<Seq<Message>>)
    ensures
        !disconnects(frames.flatten()) ==> session_items(false, frames) == data_items(
            frames.flatten(),
        ),
        forall|k: int|
            0 <= k < frames.flatten().len() && is_disconnect(#[trigger] frames.flatten()[k]) && (
            forall|j: int| 0 <= j < k ==> !is_disconnect(#[trigger] frames.flatten()[j]))
                ==> session_items(false, frames) == data_items(frames.flatten().take(k)).push(
                StreamItem::Disconnected,
            ),
{
    let ms = frames.flatten();
    lemma_session_items_flatten(frames);
    lemma_frame_items_disconnect(ms);
    assert forall|k: int|
        0 <= k < ms.len() && is_disconnect(#[trigger] ms[k]) && (forall|j: int|
            0 <= j < k ==> !is_disconnect(#[trigger] ms[j])) implies session_items(false, frames)
        == data_items(ms.take(k)).push(StreamItem::Disconnected) by {
        lemma_frame_items_upto(ms, k);
    }
}

/// Once the server has sent a `disconnected` status, the session has
/// delivered exactly one `Disconnected` item, as its last one, and no
/// later frame adds anything.
pub proof fn lemma_disconnect_ends_stream(frames: Seq<Seq<Message>>, later: Seq<Seq<Message>>)
    requires
        disconnects(frames.flatten()),
    ensures
        session_items(false, frames).len() > 0,
        session_items(false, frames).last() is Disconnected,
        forall|j: int|
            0 <= j < session_items(false, frames).len() - 1 ==> #[trigger] session_items(
                false,
                frames,
            )[j] is Event,
        session_items(false, frames + later) == session_items(false, frames),
{
    let ms = frames.flatten();
    lemma_session_items_flatten(frames);
    lemma_session_items_flatten(frames + later);
    lemma_flatten_concat(frames, later);
    lemma_frame_items_append(ms, later.flatten());
    let k = choose|k: int| 0 <= k < ms.len() && is_disconnect(#[trigger] ms[k]);
    let first = first_disconnect(ms, k);
    lemma_frame_items_upto(ms, first);
    lemma_data_items_are_events(ms.take(first));
    let out = session_items(false, frames);
    assert forall|j: int| 0 <= j < out.len() - 1 implies #[trigger] out[j] is Event by {
        assert(out[j] == data_items(ms.take(first))[j]);
    }
}

/// The index of the first `disconnected` status in `ms`, given that the
/// one at `k` is one.
proof fn first_disconnect(ms: Seq<Message>, k: int) -> (f: int)
    requires
        0 <= k < ms.len(),
        is_disconnect(ms[k]),
    ensures
        0 <= f <= k,
        is_disconnect(ms[f]),
        forall|j: int| 0 <= j < f ==> !is_disconnect(#[trigger] ms[j]),
    decreases k,
{
    if exists|j: int| 0 <= j < k && is_disconnect(#[trigger] ms[j]) {
        let j = choose|j: int| 0 <= j < k && is_disconnect(#[trigger] ms[j]);
        first_disconnect(ms, j)
    } else {
        k
    }
}

} // verus!
