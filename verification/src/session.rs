//! Stream sessions.
//!
//! One session owns one socket subscription.  Its life is
//! `Connecting -> (Authenticating ->) Subscribing -> Active -> Closed`;
//! the unverified shell performs the socket work and reports each step
//! and each received frame here.  While active, a data frame decodes to
//! exactly one item — a typed event or a decode error — a ping is
//! answered with a pong and changes nothing, and only transport failure
//! or closure ends the stream.

use vstd::prelude::*;

use crate::estimator::{tick_wf, BookTick};
use crate::order::{order_event_wf, OrderEvent};

verus! {

/// A malformed or unexpected message payload.  Reported per item; the
/// stream continues.
#[derive(Clone, Copy, Debug, PartialEq, Eq, Structural)]
pub struct DecodeError {}

/// Which subscription a session carries.
#[derive(Clone, Copy, Debug, PartialEq, Eq, Structural)]
pub enum Channel {
    BitmexBook,
    BitmexOrders,
    BybitBook,
    BybitOrders,
}

/// Order-update channels carry private data and need the auth
/// handshake before subscribing.
pub open spec fn channel_private(c: Channel) -> bool {
    c is BitmexOrders || c is BybitOrders
}

/// Where a session stands in its life.
#[derive(Clone, Copy, Debug, PartialEq, Eq, Structural)]
pub enum Phase {
    Connecting,
    Authenticating,
    Subscribing,
    Active,
    Closed,
}

/// A protocol frame, as the socket layer hands it over.
#[derive(Debug)]
pub enum Frame {
    Text(String),
    Binary(Vec<u8>),
    Ping(Vec<u8>),
    Pong(Vec<u8>),
    Close,
}

/// A decoded data frame.
#[derive(Clone, Debug)]
pub enum StreamEvent {
    Book(BookTick),
    Orders(Vec<OrderEvent>),
}

pub open spec fn stream_event_wf(e: StreamEvent) -> bool {
    match e {
        StreamEvent::Book(t) => tick_wf(t),
        StreamEvent::Orders(v) => forall|i: int|
            0 <= i < v@.len() ==> order_event_wf(#[trigger] v@[i]),
    }
}

/// Book channels yield book ticks, order channels yield order events.
pub open spec fn event_matches_channel(c: Channel, e: StreamEvent) -> bool {
    match e {
        StreamEvent::Book(_) => c is BitmexBook || c is BybitBook,
        StreamEvent::Orders(_) => c is BitmexOrders || c is BybitOrders,
    }
}

/// What one frame produced: the decoded items (none for control
/// frames) and an answer to send back, if any.
#[derive(Debug)]
pub struct StepOutput {
    pub items: Vec<Result<StreamEvent, DecodeError>>,
    pub reply: Option<Vec<u8>>,
}

/// One stream subscription.
#[derive(Clone, Copy, Debug, PartialEq, Eq, Structural)]
pub struct Session {
    pub channel: Channel,
    pub phase: Phase,
}

/// The item a data frame's text decodes to on each channel: the typed
/// event the text denotes, or a decode error exactly when it denotes
/// none.
pub open spec fn item_matches_text(
    c: Channel,
    text: Seq<char>,
    item: Result<StreamEvent, DecodeError>,
) -> bool {
    match c {
        Channel::BitmexBook => match crate::bitmex::spec_book_tick(text) {
            Some(t) => item == Ok::<StreamEvent, DecodeError>(StreamEvent::Book(t)),
            None => item is Err,
        },
        Channel::BybitBook => match crate::bybit::spec_book_tick(text) {
            Some(t) => item == Ok::<StreamEvent, DecodeError>(StreamEvent::Book(t)),
            None => item is Err,
        },
        Channel::BitmexOrders => {
            &&& (item is Ok <==> crate::bitmex::spec_orders_ok(text))
            &&& (item matches Ok(ev) ==> ev matches StreamEvent::Orders(evs)
                && crate::bitmex::events_match_frame(evs@, text))
        },
        Channel::BybitOrders => {
            &&& (item is Ok <==> crate::bybit::spec_orders_ok(text))
            &&& (item matches Ok(ev) ==> ev matches StreamEvent::Orders(evs)
                && crate::bybit::events_match_frame(evs@, text))
        },
    }
}

/// The whole contract of [`Session::on_frame`]: what each kind of frame
/// does to an active session.
pub open spec fn step_rel(pre: Session, frame: Frame, post: Session, out: StepOutput) -> bool {
    match frame {
        Frame::Ping(p) => {
            &&& post == pre
            &&& out.items@.len() == 0
            &&& (out.reply matches Some(q) && q@ == p@)
        },
        Frame::Pong(_) => {
            &&& post == pre
            &&& out.items@.len() == 0
            &&& out.reply is None
        },
        Frame::Text(t) => {
            &&& post == pre
            &&& out.reply is None
            &&& out.items@.len() == 1
            &&& item_matches_text(pre.channel, t@, out.items@[0])
            &&& (out.items@[0] matches Ok(ev) ==> stream_event_wf(ev) && event_matches_channel(
                pre.channel,
                ev,
            ))
        },
        Frame::Binary(_) => {
            &&& post == pre
            &&& out.reply is None
            &&& out.items@.len() == 1
            &&& out.items@[0] is Err
        },
        Frame::Close => {
            &&& post.channel == pre.channel
            &&& post.phase is Closed
            &&& out.items@.len() == 0
            &&& out.reply is None
        },
    }
}

impl Session {
    /// A fresh session for one subscription, not yet connected.
    pub fn new(channel: Channel) -> (r: Session)
        ensures
            r.channel == channel,
            r.phase is Connecting,
    {
        Session { channel, phase: Phase::Connecting }
    }

    /// The socket is open: private channels authenticate first, public
    /// ones go straight to subscribing.  The venue does not acknowledge
    /// auth synchronously, so the session proceeds optimistically.
    pub fn connected(&mut self)
        requires
            old(self).phase is Connecting,
        ensures
            final(self).channel == old(self).channel,
            final(self).phase == (if channel_private(old(self).channel) {
                Phase::Authenticating
            } else {
                Phase::Subscribing
            }),
    {
        let private = match self.channel {
            Channel::BitmexOrders => true,
            Channel::BybitOrders => true,
            _ => false,
        };
        self.phase = if private {
            Phase::Authenticating
        } else {
            Phase::Subscribing
        };
    }

    /// The signed auth message went out.
    pub fn auth_sent(&mut self)
        requires
            old(self).phase is Authenticating,
        ensures
            final(self).channel == old(self).channel,
            final(self).phase is Subscribing,
    {
        self.phase = Phase::Subscribing;
    }

    /// The subscribe message went out; data frames may now arrive.
    pub fn subscribe_sent(&mut self)
        requires
            old(self).phase is Subscribing,
        ensures
            final(self).channel == old(self).channel,
            final(self).phase is Active,
    {
        self.phase = Phase::Active;
    }

    /// The transport failed or was torn down: the stream is over and
    /// cannot restart; a new session must be created.
    pub fn on_transport_error(&mut self)
        ensures
            final(self).channel == old(self).channel,
            final(self).phase is Closed,
    {
        self.phase = Phase::Closed;
    }

    /// Handle one frame while active.
    pub fn on_frame(&mut self, frame: Frame) -> (out: StepOutput)
        requires
            old(self).phase is Active,
        ensures
            step_rel(*old(self), frame, *final(self), out),
    {
        match frame {
            Frame::Ping(p) => StepOutput { items: Vec::new(), reply: Some(p) },
            Frame::Pong(_) => StepOutput { items: Vec::new(), reply: None },
            Frame::Close => {
                self.phase = Phase::Closed;
                StepOutput { items: Vec::new(), reply: None }
            },
            Frame::Binary(_) => {
                let mut items: Vec<Result<StreamEvent, DecodeError>> = Vec::new();
                items.push(Err(DecodeError {}));
                StepOutput { items, reply: None }
            },
            Frame::Text(t) => {
                let mut items: Vec<Result<StreamEvent, DecodeError>> = Vec::new();
                let item: Result<StreamEvent, DecodeError> = match self.channel {
                    Channel::BitmexBook => {
                        match crate::bitmex::decode_order_book(t.as_str()) {
                            Ok(tick) => Ok(StreamEvent::Book(tick)),
                            Err(e) => Err(e),
                        }
                    },
                    Channel::BitmexOrders => {
                        match crate::bitmex::decode_active_orders(t.as_str()) {
                            Ok(evs) => Ok(StreamEvent::Orders(evs)),
                            Err(e) => Err(e),
                        }
                    },
                    Channel::BybitBook => {
                        match crate::bybit::decode_book_tick(t.as_str()) {
                            Ok(tick) => Ok(StreamEvent::Book(tick)),
                            Err(e) => Err(e),
                        }
                    },
                    Channel::BybitOrders => {
                        match crate::bybit::decode_active_orders(t.as_str()) {
                            Ok(evs) => Ok(StreamEvent::Orders(evs)),
                            Err(e) => Err(e),
                        }
                    },
                };
                items.push(item);
                StepOutput { items, reply: None }
            },
        }
    }
}

/// A ping is answered and changes nothing: it emits no item, the pong
/// carries the ping's payload, the session stays active, and a data
/// frame arriving next still delivers its one item.
pub proof fn lemma_ping_then_data(
    pre: Session,
    p: Vec<u8>,
    post1: Session,
    out1: StepOutput,
    t: String,
    post2: Session,
    out2: StepOutput,
)
    requires
        pre.phase is Active,
        step_rel(pre, Frame::Ping(p), post1, out1),
        step_rel(post1, Frame::Text(t), post2, out2),
    ensures
        out1.items@.len() == 0,
        out1.reply matches Some(q) && q@ == p@,
        post1.phase is Active,
        out2.items@.len() == 1,
        post2.phase is Active,
{
}

/// A frame that fails to decode costs exactly one error item and
/// nothing else: the session stays active and the next data frame still
/// delivers its one item.
pub proof fn lemma_decode_error_not_fatal(
    pre: Session,
    bad: String,
    post1: Session,
    out1: StepOutput,
    good: String,
    post2: Session,
    out2: StepOutput,
)
    requires
        pre.phase is Active,
        step_rel(pre, Frame::Text(bad), post1, out1),
        out1.items@[0] is Err,
        step_rel(post1, Frame::Text(good), post2, out2),
    ensures
        out1.items@.len() == 1,
        post1 == pre,
        post1.phase is Active,
        out2.items@.len() == 1,
        out2.items@[0] matches Ok(ev) ==> stream_event_wf(ev),
{
}

} // verus!
