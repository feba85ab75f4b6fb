//! The supervision of one painter's connection: connect, paint until the
//! connection fails, back off, and connect again, for ever.
use vstd::prelude::*;

use crate::painter::Painter;

verus! {

/// The pause before a new connection attempt, in milliseconds.
pub const RECONNECT_DELAY_MS: u64 = 500;

/// Where a painter's connection stands.
#[derive(Clone, Copy, Debug, PartialEq, Eq, Structural)]
pub enum Link {
    /// No connection; one is to be made.
    Disconnected,
    /// Connected: the painter paints.
    Connected,
    /// A connection failed; the pause before the next attempt runs.
    BackingOff,
}

/// What happened to the connection.
#[derive(Clone, Copy, Debug, PartialEq, Eq, Structural)]
pub enum Event {
    /// A connection was made.
    Connected,
    /// A connection attempt failed.
    ConnectFailed,
    /// A write or a flush failed while painting.
    WorkFailed,
    /// The pause is over.
    BackoffElapsed,
}

/// What the supervisor asks for next.
#[derive(Clone, Copy, Debug, PartialEq, Eq, Structural)]
pub enum Action {
    /// Open a connection.
    Connect,
    /// Paint over the connection until it fails.
    Paint,
    /// Drop any connection and pause for this many milliseconds.
    Sleep(u64),
}

/// The link after `event`.
pub open spec fn next_link(event: Event) -> Link {
    match event {
        Event::Connected => Link::Connected,
        Event::ConnectFailed => Link::BackingOff,
        Event::WorkFailed => Link::BackingOff,
        Event::BackoffElapsed => Link::Disconnected,
    }
}

/// The action that follows `event`.
pub open spec fn action_after(event: Event) -> Action {
    match event {
        Event::Connected => Action::Paint,
        Event::ConnectFailed => Action::Sleep(RECONNECT_DELAY_MS),
        Event::WorkFailed => Action::Sleep(RECONNECT_DELAY_MS),
        Event::BackoffElapsed => Action::Connect,
    }
}

/// Whether `event` sends the painter's scan back to the start of a pass: a
/// new connection starts a pass, and a failed one abandons it.
pub open spec fn restarts_scan(event: Event) -> bool {
    event == Event::Connected || event == Event::WorkFailed
}

/// The painter after the supervisor took in `event`.
pub open spec fn painter_after(p: Painter, event: Event) -> Painter {
    if restarts_scan(event) {
        p.restarted()
    } else {
        p
    }
}

/// The painter after the supervisor took in `events`, in order.
pub open spec fn painter_after_all(p: Painter, events: Seq<Event>) -> Painter
    decreases events.len(),
{
    if events.len() == 0 {
        p
    } else {
        painter_after(painter_after_all(p, events.drop_last()), events.last())
    }
}

/// The supervisor of one painter's connection.
pub struct Supervisor {
    link: Link,
}

impl Supervisor {
    /// Where the connection stands.
    pub closed spec fn link_spec(self) -> Link {
        self.link
    }

    /// A supervisor with no connection yet; its first action is `Connect`.
    pub fn new() -> (s: Supervisor)
        ensures
            s.link_spec() == Link::Disconnected,
    {
        Supervisor { link: Link::Disconnected }
    }

    /// Where the connection stands.
    pub fn link(&self) -> (l: Link)
        ensures
            l == self.link_spec(),
    {
        self.link
    }

    /// Takes in what happened, updates the painter, and says what comes
    /// next. Any event is taken in any state: retries never end.
    pub fn on_event(&mut self, painter: &mut Painter, event: Event) -> (a: Action)
        ensures
            a == action_after(event),
            final(self).link_spec() == next_link(event),
            *final(painter) == painter_after(*old(painter), event),
    {
        match event {
            Event::Connected => {
                self.link = Link::Connected;
                painter.restart();
                Action::Paint
            },
            Event::ConnectFailed => {
                self.link = Link::BackingOff;
                Action::Sleep(RECONNECT_DELAY_MS)
            },
            Event::WorkFailed => {
                self.link = Link::BackingOff;
                painter.restart();
                Action::Sleep(RECONNECT_DELAY_MS)
            },
            Event::BackoffElapsed => {
                self.link = Link::Disconnected;
                Action::Connect
            },
        }
    }
}

/// A connection that drops in the middle of a pass is not resumed: the
/// supervisor pauses and connects again, with as many failed attempts on
/// the way as come; no painting is asked for until a connection is made,
/// and then the painter paints its area from the first coordinate, with the
/// frame it had.
pub proof fn lemma_drop_restarts_pass(p: Painter, events: Seq<Event>)
    requires
        events.len() >= 1,
        events[0] == Event::WorkFailed,
        events.last() == Event::Connected,
        forall|i: int| 0 < i < events.len() - 1 ==> #[trigger] events[i] != Event::Connected,
    ensures
        forall|i: int| 0 <= i < events.len() - 1 ==> action_after(#[trigger] events[i]) != Action::Paint,
        action_after(events.last()) == Action::Paint,
        next_link(events.last()) == Link::Connected,
        painter_after_all(p, events).at_start(),
        painter_after_all(p, events).image_spec() == p.image_spec(),
        painter_after_all(p, events).area_spec() == p.area_spec(),
        painter_after_all(p, events).offset_spec() == p.offset_spec(),
{
    lemma_prefix_restarted(p, events, events.len() as int);
    assert(events.take(events.len() as int) =~= events);
    p.lemma_restarted();
}

/// After a failure and anything but a new connection, the painter is the
/// restarted one.
proof fn lemma_prefix_restarted(p: Painter, events: Seq<Event>, n: int)
    requires
        1 <= n <= events.len(),
        events[0] == Event::WorkFailed,
        forall|i: int| 0 < i < n - 1 ==> #[trigger] events[i] != Event::Connected,
    ensures
        painter_after_all(p, events.take(n)) == p.restarted(),
    decreases n,
{
    p.lemma_restarted();
    let pre = events.take(n);
    assert(pre.drop_last() =~= events.take(n - 1));
    assert(pre.last() == events[n - 1]);
    if n == 1 {
        assert(events.take(0) =~= Seq::<Event>::empty());
        assert(painter_after_all(p, events.take(0)) == p);
    } else {
        lemma_prefix_restarted(p, events, n - 1);
        p.restarted().lemma_restarted();
    }
}

} // verus!
