//! The protocol of one Finnhub feed: connect, retry after a pause when the
//! connection fails, subscribe to every symbol, then read, decoding each text
//! message and storing the trades it carries; when the websocket goes down
//! (a read fails or the server closes it), pause and connect again.
//!
//! The feed decides; its caller performs each action on the websocket or the
//! database and hands back what happened as the next event.

use vstd::prelude::*;
use crate::finnhub::{
    ascii_uppercase, is_ascii_text, stock_list_to_uppercase, subscribe_message,
    subscribe_message_text, unicode_uppercase,
};

verus! {

/// The pause, in milliseconds, before a failed connection is tried again.
pub const RECONNECT_DELAY_MILLIS: u64 = 5000;

/// One trade of a Finnhub trade message.
pub struct FinnhubTrade {
    /// Time of the trade, in milliseconds since the Unix epoch (`t`).
    pub dtg_millis: i64,
    /// Ticker symbol (`s`).
    pub symbol: String,
    /// Price, as decimal text (`p`).
    pub price: String,
    /// Volume, as decimal text (`v`).
    pub volume: String,
    /// Trade conditions (`c`).
    pub conditions: Vec<String>,
}

/// A Finnhub trade message: the trades it reports.
pub struct FinnhubData {
    pub data: Vec<FinnhubTrade>,
}

/// A message read from the websocket.
pub enum WsMessage {
    Text(String),
    Binary(Vec<u8>),
    Ping(Vec<u8>),
    /// The server closed the connection.
    Close,
    /// Pong and raw frames.
    Other,
}

/// Where a feed stands in its protocol.
#[derive(PartialEq, Eq, Structural, Clone, Copy, Debug)]
pub enum FeedPhase {
    /// Not started.
    Idle,
    /// A connection attempt is under way.
    Connecting,
    /// Pausing after a failed connection or after the websocket went down.
    Retrying,
    /// A subscription message is being sent; the number is the index of the
    /// message that follows it.
    Subscribing(usize),
    /// Waiting for the next websocket message.
    Listening,
    /// A text message is being decoded.
    Decoding,
    /// The trades of a message are being stored.
    Storing,
}

/// What happened since the feed's last action.
pub enum FeedEvent {
    Start,
    ConnectFailed,
    Connected,
    /// A subscription message was written (whether or not the write succeeded).
    Sent,
    /// The pause after a failed connection is over.
    WaitOver,
    Received(WsMessage),
    ReadFailed,
    /// The outcome of decoding a text message as a trade message.
    Decoded(Option<FinnhubData>),
    /// The trades were written to the database (each write's result is not used).
    Stored,
}

/// What the caller is to do next.
pub enum FeedAction {
    /// Open a websocket to this URL.
    Connect(String),
    /// Sleep for this many milliseconds.
    Wait(u64),
    /// Write this text message.
    Send(String),
    /// Read the next message.
    Read,
    /// Decode this text as a trade message.
    Decode(String),
    /// Insert these trades into the trade table, in order.
    Store(Vec<FinnhubTrade>),
}

/// The abstract state of a feed.
#[verifier::ext_equal]
pub struct FeedView {
    pub url: String,
    pub subscriptions: Seq<String>,
    pub phase: FeedPhase,
}

impl FeedView {
    /// A subscribing phase points within the subscription list.
    pub open spec fn wf(self) -> bool {
        &&& self.subscriptions.len() <= usize::MAX
        &&& match self.phase {
            FeedPhase::Subscribing(k) => 1 <= k <= self.subscriptions.len(),
            _ => true,
        }
    }

    pub open spec fn with_phase(self, phase: FeedPhase) -> FeedView {
        FeedView { phase, ..self }
    }
}

/// The events a feed expects in each phase.
pub open spec fn feed_accepts(phase: FeedPhase, event: FeedEvent) -> bool {
    match phase {
        FeedPhase::Idle => event is Start,
        FeedPhase::Connecting => event is ConnectFailed || event is Connected,
        FeedPhase::Retrying => event is WaitOver,
        FeedPhase::Subscribing(_) => event is Sent,
        FeedPhase::Listening => event is Received || event is ReadFailed,
        FeedPhase::Decoding => event is Decoded,
        FeedPhase::Storing => event is Stored,
    }
}

/// The feed's next state and action after an event it expects.
pub open spec fn feed_next(v: FeedView, event: FeedEvent) -> (FeedView, FeedAction) {
    match event {
        FeedEvent::Start => (v.with_phase(FeedPhase::Connecting), FeedAction::Connect(v.url)),
        FeedEvent::WaitOver => (v.with_phase(FeedPhase::Connecting), FeedAction::Connect(v.url)),
        FeedEvent::ConnectFailed => (
            v.with_phase(FeedPhase::Retrying),
            FeedAction::Wait(RECONNECT_DELAY_MILLIS),
        ),
        FeedEvent::Connected => if v.subscriptions.len() > 0 {
            (v.with_phase(FeedPhase::Subscribing(1)), FeedAction::Send(v.subscriptions[0]))
        } else {
            (v.with_phase(FeedPhase::Listening), FeedAction::Read)
        },
        FeedEvent::Sent => match v.phase {
            FeedPhase::Subscribing(k) => if k < v.subscriptions.len() {
                (
                    v.with_phase(FeedPhase::Subscribing((k + 1) as usize)),
                    FeedAction::Send(v.subscriptions[k as int]),
                )
            } else {
                (v.with_phase(FeedPhase::Listening), FeedAction::Read)
            },
            _ => (v, FeedAction::Read),
        },
        FeedEvent::Received(message) => match message {
            WsMessage::Text(text) => (v.with_phase(FeedPhase::Decoding), FeedAction::Decode(text)),
            WsMessage::Close => (
                v.with_phase(FeedPhase::Retrying),
                FeedAction::Wait(RECONNECT_DELAY_MILLIS),
            ),
            _ => (v.with_phase(FeedPhase::Listening), FeedAction::Read),
        },
        FeedEvent::ReadFailed => (
            v.with_phase(FeedPhase::Retrying),
            FeedAction::Wait(RECONNECT_DELAY_MILLIS),
        ),
        FeedEvent::Decoded(decoded) => match decoded {
            Some(trades) => (v.with_phase(FeedPhase::Storing), FeedAction::Store(trades.data)),
            None => (v.with_phase(FeedPhase::Listening), FeedAction::Read),
        },
        FeedEvent::Stored => (v.with_phase(FeedPhase::Listening), FeedAction::Read),
    }
}

/// A feed connection's protocol state.
pub struct FinnhubFeed {
    url: String,
    subscriptions: Vec<String>,
    phase: FeedPhase,
}

impl View for FinnhubFeed {
    type V = FeedView;

    closed spec fn view(&self) -> FeedView {
        FeedView { url: self.url, subscriptions: self.subscriptions@, phase: self.phase }
    }
}

impl FinnhubFeed {
    #[verifier::type_invariant]
    closed spec fn inv(self) -> bool {
        self@.wf()
    }

    /// A feed, not yet started, for the given URL and ticker symbols: it will
    /// subscribe to each symbol, uppercased, in the order given.
    pub fn new(url: String, symbols: &Vec<String>) -> (feed: FinnhubFeed)
        ensures
            feed@.url == url,
            feed@.phase == FeedPhase::Idle,
            feed@.subscriptions.len() == symbols@.len(),
            forall|i: int|
                0 <= i < symbols@.len() ==> #[trigger] feed@.subscriptions[i]@
                    == subscribe_message_text(unicode_uppercase(symbols@[i]@)),
            forall|i: int|
                0 <= i < symbols@.len() && is_ascii_text(symbols@[i]@) ==> #[trigger] feed@.subscriptions[i]@
                    == subscribe_message_text(ascii_uppercase(symbols@[i]@)),
    {
        let upper = stock_list_to_uppercase(symbols);
        let mut subscriptions: Vec<String> = Vec::new();
        let mut i: usize = 0;
        while i < upper.len()
            invariant
                i <= upper@.len(),
                upper@.len() == symbols@.len(),
                subscriptions@.len() == i,
                forall|j: int|
                    0 <= j < symbols@.len() ==> #[trigger] upper@[j]@ == unicode_uppercase(
                        symbols@[j]@,
                    ),
                forall|j: int|
                    0 <= j < symbols@.len() && is_ascii_text(symbols@[j]@) ==> #[trigger] upper@[j]@
                        == ascii_uppercase(symbols@[j]@),
                forall|j: int|
                    0 <= j < i ==> #[trigger] subscriptions@[j]@ == subscribe_message_text(
                        unicode_uppercase(symbols@[j]@),
                    ),
            decreases upper@.len() - i,
        {
            subscriptions.push(subscribe_message(upper[i].as_str()));
            i = i + 1;
        }
        assert forall|j: int|
            0 <= j < symbols@.len() && is_ascii_text(symbols@[j]@) implies #[trigger] subscriptions@[j]@
                == subscribe_message_text(ascii_uppercase(symbols@[j]@)) by {
            assert(upper@[j]@ == unicode_uppercase(symbols@[j]@));
            assert(upper@[j]@ == ascii_uppercase(symbols@[j]@));
        }
        FinnhubFeed { url, subscriptions, phase: FeedPhase::Idle }
    }

    /// The phase the feed is in.
    pub fn phase(&self) -> (phase: FeedPhase)
        ensures
            phase == self@.phase,
    {
        self.phase
    }

    /// Whether the feed expects this event now.
    pub fn accepts(&self, event: &FeedEvent) -> (ok: bool)
        ensures
            ok == feed_accepts(self@.phase, *event),
    {
        match self.phase {
            FeedPhase::Idle => matches!(event, FeedEvent::Start),
            FeedPhase::Connecting => matches!(event, FeedEvent::ConnectFailed)
                || matches!(event, FeedEvent::Connected),
            FeedPhase::Retrying => matches!(event, FeedEvent::WaitOver),
            FeedPhase::Subscribing(_) => matches!(event, FeedEvent::Sent),
            FeedPhase::Listening => matches!(event, FeedEvent::Received(_))
                || matches!(event, FeedEvent::ReadFailed),
            FeedPhase::Decoding => matches!(event, FeedEvent::Decoded(_)),
            FeedPhase::Storing => matches!(event, FeedEvent::Stored),
        }
    }

    /// Takes in what happened and gives the next action.
    pub fn step(&mut self, event: FeedEvent) -> (action: FeedAction)
        requires
            feed_accepts(old(self)@.phase, event),
        ensures
            final(self)@ == feed_next(old(self)@, event).0,
            action == feed_next(old(self)@, event).1,
            final(self)@.wf(),
    {
        proof {
            use_type_invariant(&*self);
        }
        match event {
            FeedEvent::Start => {
                self.phase = FeedPhase::Connecting;
                FeedAction::Connect(self.url.clone())
            },
            FeedEvent::WaitOver => {
                self.phase = FeedPhase::Connecting;
                FeedAction::Connect(self.url.clone())
            },
            FeedEvent::ConnectFailed => {
                self.phase = FeedPhase::Retrying;
                FeedAction::Wait(RECONNECT_DELAY_MILLIS)
            },
            FeedEvent::Connected => {
                if self.subscriptions.len() > 0 {
                    self.phase = FeedPhase::Subscribing(1);
                    FeedAction::Send(self.subscriptions[0].clone())
                } else {
                    self.phase = FeedPhase::Listening;
                    FeedAction::Read
                }
            },
            FeedEvent::Sent => {
                match self.phase {
                    FeedPhase::Subscribing(k) => {
                        if k < self.subscriptions.len() {
                            self.phase = FeedPhase::Subscribing(k + 1);
                            FeedAction::Send(self.subscriptions[k].clone())
                        } else {
                            self.phase = FeedPhase::Listening;
                            FeedAction::Read
                        }
                    },
                    _ => FeedAction::Read,
                }
            },
            FeedEvent::Received(message) => {
                match message {
                    WsMessage::Text(text) => {
                        self.phase = FeedPhase::Decoding;
                        FeedAction::Decode(text)
                    },
                    WsMessage::Close => {
                        self.phase = FeedPhase::Retrying;
                        FeedAction::Wait(RECONNECT_DELAY_MILLIS)
                    },
                    _ => {
                        self.phase = FeedPhase::Listening;
                        FeedAction::Read
                    },
                }
            },
            FeedEvent::ReadFailed => {
                self.phase = FeedPhase::Retrying;
                FeedAction::Wait(RECONNECT_DELAY_MILLIS)
            },
            FeedEvent::Decoded(decoded) => {
                match decoded {
                    Some(trades) => {
                        self.phase = FeedPhase::Storing;
                        FeedAction::Store(trades.data)
                    },
                    None => {
                        self.phase = FeedPhase::Listening;
                        FeedAction::Read
                    },
                }
            },
            FeedEvent::Stored => {
                self.phase = FeedPhase::Listening;
                FeedAction::Read
            },
        }
    }
}

/// The state and actions of a feed after a sequence of events.
pub open spec fn feed_run(v: FeedView, events: Seq<FeedEvent>) -> (FeedView, Seq<FeedAction>)
    decreases events.len(),
{
    if events.len() == 0 {
        (v, seq![])
    } else {
        let (next, action) = feed_next(v, events[0]);
        let (last, rest) = feed_run(next, events.drop_first());
        (last, seq![action] + rest)
    }
}

/// Every event of the sequence is one the feed expects at that point.
pub open spec fn feed_accepts_run(v: FeedView, events: Seq<FeedEvent>) -> bool
    decreases events.len(),
{
    events.len() == 0 || (feed_accepts(v.phase, events[0]) && feed_accepts_run(
        feed_next(v, events[0]).0,
        events.drop_first(),
    ))
}

/// The phases of a feed that has subscribed and reads messages.
pub open spec fn is_reading_phase(phase: FeedPhase) -> bool {
    phase is Listening || phase is Decoding || phase is Storing
}

/// The subscription messages as send actions, from index `from` on.
pub open spec fn send_actions(subscriptions: Seq<String>, from: int) -> Seq<FeedAction> {
    Seq::new((subscriptions.len() - from) as nat, |i: int| FeedAction::Send(subscriptions[from + i]))
}

pub open spec fn sent_events(n: nat) -> Seq<FeedEvent> {
    Seq::new(n, |i: int| FeedEvent::Sent)
}

/// A failed connection is retried with the same URL, after a pause of
/// `RECONNECT_DELAY_MILLIS`.
pub proof fn law_failed_connection_is_retried(v: FeedView)
    requires
        v.phase == FeedPhase::Connecting,
    ensures
        feed_accepts_run(v, seq![FeedEvent::ConnectFailed, FeedEvent::WaitOver]),
        feed_run(v, seq![FeedEvent::ConnectFailed, FeedEvent::WaitOver]).0 == v,
        feed_run(v, seq![FeedEvent::ConnectFailed, FeedEvent::WaitOver]).1 == seq![
            FeedAction::Wait(RECONNECT_DELAY_MILLIS),
            FeedAction::Connect(v.url),
        ],
{
    reveal_with_fuel(feed_run, 3);
    reveal_with_fuel(feed_accepts_run, 3);
    let events = seq![FeedEvent::ConnectFailed, FeedEvent::WaitOver];
    let v1 = feed_next(v, events[0]).0;
    assert(events.drop_first() =~= seq![FeedEvent::WaitOver]);
    assert(events.drop_first().drop_first() =~= Seq::<FeedEvent>::empty());
    assert(v1.phase == FeedPhase::Retrying);
    assert(feed_run(v, events).0 =~= v);
}

proof fn lemma_subscribing_run(v: FeedView, k: usize)
    requires
        v.wf(),
        v.phase == FeedPhase::Subscribing(k),
        1 <= k <= v.subscriptions.len(),
    ensures
        feed_accepts_run(v, sent_events((v.subscriptions.len() - k + 1) as nat)),
        feed_run(v, sent_events((v.subscriptions.len() - k + 1) as nat)).0 == v.with_phase(
            FeedPhase::Listening,
        ),
        feed_run(v, sent_events((v.subscriptions.len() - k + 1) as nat)).1 == send_actions(
            v.subscriptions,
            k as int,
        ) + seq![FeedAction::Read],
    decreases v.subscriptions.len() - k,
{
    reveal_with_fuel(feed_run, 2);
    reveal_with_fuel(feed_accepts_run, 2);
    let n = v.subscriptions.len();
    let events = sent_events((n - k + 1) as nat);
    let (next, action) = feed_next(v, events[0]);
    assert(events.drop_first() =~= sent_events((n - k) as nat));
    if k < n {
        lemma_subscribing_run(next, (k + 1) as usize);
        assert(next.with_phase(FeedPhase::Listening) == v.with_phase(FeedPhase::Listening));
        assert(seq![action] + (send_actions(v.subscriptions, k + 1 as int) + seq![FeedAction::Read])
            =~= send_actions(v.subscriptions, k as int) + seq![FeedAction::Read]);
    } else {
        assert(events.drop_first() =~= Seq::<FeedEvent>::empty());
        assert(send_actions(v.subscriptions, k as int) =~= Seq::<FeedAction>::empty());
        assert(seq![action] =~= send_actions(v.subscriptions, k as int) + seq![FeedAction::Read]);
    }
}

/// Once connected, a feed sends every subscription message, in order, and
/// then starts reading.
pub proof fn law_connection_subscribes_every_symbol(v: FeedView)
    requires
        v.wf(),
        v.phase == FeedPhase::Connecting,
    ensures
        feed_accepts_run(v, seq![FeedEvent::Connected] + sent_events(v.subscriptions.len())),
        feed_run(v, seq![FeedEvent::Connected] + sent_events(v.subscriptions.len())).0
            == v.with_phase(FeedPhase::Listening),
        feed_run(v, seq![FeedEvent::Connected] + sent_events(v.subscriptions.len())).1
            == send_actions(v.subscriptions, 0) + seq![FeedAction::Read],
{
    reveal_with_fuel(feed_run, 2);
    reveal_with_fuel(feed_accepts_run, 2);
    let n = v.subscriptions.len();
    let events = seq![FeedEvent::Connected] + sent_events(n);
    assert(events[0] == FeedEvent::Connected);
    assert(events.drop_first() =~= sent_events(n));
    let (next, action) = feed_next(v, FeedEvent::Connected);
    if n > 0 {
        lemma_subscribing_run(next, 1);
        assert(sent_events((n - 1 + 1) as nat) =~= sent_events(n));
        assert(seq![action] + (send_actions(v.subscriptions, 1) + seq![FeedAction::Read])
            =~= send_actions(v.subscriptions, 0) + seq![FeedAction::Read]);
    } else {
        assert(sent_events(n) =~= Seq::<FeedEvent>::empty());
        assert(send_actions(v.subscriptions, 0) =~= Seq::<FeedAction>::empty());
        assert(seq![action] =~= send_actions(v.subscriptions, 0) + seq![FeedAction::Read]);
    }
}

/// The websocket went down: a read failed or the server closed it.
pub open spec fn connection_lost(event: FeedEvent) -> bool {
    event is ReadFailed || event == FeedEvent::Received(WsMessage::Close)
}

/// While the websocket stays up, a reading feed keeps its connection: it
/// stays in its reading phases, and it neither pauses nor connects.
pub proof fn law_live_connection_is_kept(v: FeedView, events: Seq<FeedEvent>)
    requires
        is_reading_phase(v.phase),
        feed_accepts_run(v, events),
        forall|i: int| 0 <= i < events.len() ==> !connection_lost(#[trigger] events[i]),
    ensures
        is_reading_phase(feed_run(v, events).0.phase),
        forall|i: int|
            0 <= i < feed_run(v, events).1.len() ==> !(#[trigger] feed_run(v, events).1[i] is Connect)
                && !(feed_run(v, events).1[i] is Wait),
    decreases events.len(),
{
    if events.len() > 0 {
        let (next, action) = feed_next(v, events[0]);
        assert(!connection_lost(events[0]));
        assert forall|i: int| 0 <= i < events.drop_first().len() implies !connection_lost(
            #[trigger] events.drop_first()[i],
        ) by {
            assert(events.drop_first()[i] == events[i + 1]);
        }
        law_live_connection_is_kept(next, events.drop_first());
        let rest = feed_run(next, events.drop_first()).1;
        assert(feed_run(v, events).1 == seq![action] + rest);
        assert forall|i: int| 0 <= i < feed_run(v, events).1.len() implies !(
        #[trigger] feed_run(v, events).1[i] is Connect) && !(feed_run(v, events).1[i] is Wait) by {
            if i > 0 {
                assert(feed_run(v, events).1[i] == rest[i - 1]);
            }
        }
    }
}

/// The state and actions after `a` then `b` are those after `b` from where `a` left off.
proof fn lemma_feed_run_append(v: FeedView, a: Seq<FeedEvent>, b: Seq<FeedEvent>)
    ensures
        feed_run(v, a + b).0 == feed_run(feed_run(v, a).0, b).0,
        feed_run(v, a + b).1 == feed_run(v, a).1 + feed_run(feed_run(v, a).0, b).1,
        feed_accepts_run(v, a + b) == (feed_accepts_run(v, a) && feed_accepts_run(
            feed_run(v, a).0,
            b,
        )),
    decreases a.len(),
{
    if a.len() == 0 {
        assert(a + b =~= b);
        assert(feed_run(v, a).1 + feed_run(v, b).1 =~= feed_run(v, b).1);
    } else {
        let (next, action) = feed_next(v, a[0]);
        assert((a + b).drop_first() =~= a.drop_first() + b);
        assert((a + b)[0] == a[0]);
        lemma_feed_run_append(next, a.drop_first(), b);
        assert(seq![action] + (feed_run(next, a.drop_first()).1 + feed_run(
            feed_run(next, a.drop_first()).0,
            b,
        ).1) =~= (seq![action] + feed_run(next, a.drop_first()).1) + feed_run(
            feed_run(next, a.drop_first()).0,
            b,
        ).1);
    }
}

/// When the websocket goes down, the feed pauses for `RECONNECT_DELAY_MILLIS`,
/// connects again to the same URL, sends every subscription message again,
/// in order, and then reads.
pub proof fn law_lost_connection_is_restored(v: FeedView, lost: FeedEvent)
    requires
        v.wf(),
        v.phase == FeedPhase::Listening,
        connection_lost(lost),
    ensures
        ({
            let events = seq![lost, FeedEvent::WaitOver, FeedEvent::Connected] + sent_events(
                v.subscriptions.len(),
            );
            &&& feed_accepts_run(v, events)
            &&& feed_run(v, events).0 == v
            &&& feed_run(v, events).1 == seq![
                FeedAction::Wait(RECONNECT_DELAY_MILLIS),
                FeedAction::Connect(v.url),
            ] + send_actions(v.subscriptions, 0) + seq![FeedAction::Read]
        }),
{
    reveal_with_fuel(feed_run, 3);
    reveal_with_fuel(feed_accepts_run, 3);
    let first = seq![lost, FeedEvent::WaitOver];
    let rest = seq![FeedEvent::Connected] + sent_events(v.subscriptions.len());
    assert(first.drop_first() =~= seq![FeedEvent::WaitOver]);
    assert(first.drop_first().drop_first() =~= Seq::<FeedEvent>::empty());
    let connecting = v.with_phase(FeedPhase::Connecting);
    assert(feed_run(v, first).0 =~= connecting);
    assert(feed_run(v, first).1 =~= seq![
        FeedAction::Wait(RECONNECT_DELAY_MILLIS),
        FeedAction::Connect(v.url),
    ]);
    assert(feed_accepts_run(v, first));
    law_connection_subscribes_every_symbol(connecting);
    lemma_feed_run_append(v, first, rest);
    assert(first + rest =~= seq![lost, FeedEvent::WaitOver, FeedEvent::Connected] + sent_events(
        v.subscriptions.len(),
    ));
    assert(connecting.with_phase(FeedPhase::Listening) =~= v);
    assert(seq![FeedAction::Wait(RECONNECT_DELAY_MILLIS), FeedAction::Connect(v.url)] + (
    send_actions(v.subscriptions, 0) + seq![FeedAction::Read]) =~= seq![
        FeedAction::Wait(RECONNECT_DELAY_MILLIS),
        FeedAction::Connect(v.url),
    ] + send_actions(v.subscriptions, 0) + seq![FeedAction::Read]);
}

/// Every text message read is decoded, and the trades of a message that
/// decodes are stored, all of them and in order, before the next read.
pub proof fn law_text_messages_are_stored(v: FeedView, text: String, data: FinnhubData)
    requires
        v.phase == FeedPhase::Listening,
    ensures
        ({
            let events = seq![
                FeedEvent::Received(WsMessage::Text(text)),
                FeedEvent::Decoded(Some(data)),
                FeedEvent::Stored,
            ];
            &&& feed_accepts_run(v, events)
            &&& feed_run(v, events).0 == v
            &&& feed_run(v, events).1 == seq![
                FeedAction::Decode(text),
                FeedAction::Store(data.data),
                FeedAction::Read,
            ]
        }),
{
    let events = seq![
        FeedEvent::Received(WsMessage::Text(text)),
        FeedEvent::Decoded(Some(data)),
        FeedEvent::Stored,
    ];
    reveal_with_fuel(feed_run, 4);
    reveal_with_fuel(feed_accepts_run, 4);
    assert(events.drop_first() =~= seq![FeedEvent::Decoded(Some(data)), FeedEvent::Stored]);
    assert(events.drop_first().drop_first() =~= seq![FeedEvent::Stored]);
    assert(events.drop_first().drop_first().drop_first() =~= Seq::<FeedEvent>::empty());
    assert(feed_run(v, events).0 =~= v);
}

} // verus!
