//! The session of one viewer: what to send it, and when to stop.
//!
//! The session decides; its caller owns the connection, performs each
//! action and reports what happened next as an event.

use vstd::prelude::*;
use crate::notify::{state_notification, WsMessage, WsMessageView};
use crate::state::{CueState, CueStateView};

verus! {

/// Where a viewer's session stands.
#[derive(Clone, Copy, PartialEq, Eq, Structural, Debug)]
pub enum ViewerPhase {
    /// Accepted, not yet seeded.
    Connecting,
    /// Seeded; notifications are relayed.
    Streaming,
    /// Over; nothing more is sent.
    Closed,
}

/// What happened on a viewer's connection.
pub enum ViewerEvent {
    /// The connection is up; the state at that moment is attached.
    Connected(CueState),
    /// The channel delivered a notification.
    Notification(WsMessage),
    /// The viewer fell behind and the channel dropped what it had not read.
    NotificationsMissed,
    /// The channel can deliver no more to this viewer.
    ChannelLost,
    /// A send to the viewer failed.
    SendFailed,
    /// The viewer sent something; it is not interpreted.
    PeerData,
    /// The viewer closed the connection, or reading from it failed.
    PeerClosed,
}

/// Mathematical model of a [`ViewerEvent`].
pub enum EventView {
    Connected(CueStateView),
    Notification(WsMessageView),
    NotificationsMissed,
    ChannelLost,
    SendFailed,
    PeerData,
    PeerClosed,
}

impl View for ViewerEvent {
    type V = EventView;

    open spec fn view(&self) -> EventView {
        match *self {
            ViewerEvent::Connected(s) => EventView::Connected(s@),
            ViewerEvent::Notification(m) => EventView::Notification(m@),
            ViewerEvent::NotificationsMissed => EventView::NotificationsMissed,
            ViewerEvent::ChannelLost => EventView::ChannelLost,
            ViewerEvent::SendFailed => EventView::SendFailed,
            ViewerEvent::PeerData => EventView::PeerData,
            ViewerEvent::PeerClosed => EventView::PeerClosed,
        }
    }
}

/// What the caller is to do next.
pub enum ViewerAction {
    /// Send the seed, then subscribe to the channel.
    Seed(WsMessage),
    /// Send the notification on as it is.
    Relay(WsMessage),
    /// Nothing to do.
    Idle,
    /// Unsubscribe and close the connection.
    Close,
}

/// Mathematical model of a [`ViewerAction`].
pub enum ActionView {
    Seed(WsMessageView),
    Relay(WsMessageView),
    Idle,
    Close,
}

impl View for ViewerAction {
    type V = ActionView;

    open spec fn view(&self) -> ActionView {
        match *self {
            ViewerAction::Seed(m) => ActionView::Seed(m@),
            ViewerAction::Relay(m) => ActionView::Relay(m@),
            ViewerAction::Idle => ActionView::Idle,
            ViewerAction::Close => ActionView::Close,
        }
    }
}

/// The phase that follows `phase` on `event`, and the action to take.
///
/// A new connection is seeded with the state of that moment. While
/// streaming, each notification is relayed verbatim; a viewer that fell
/// behind misses what was dropped and goes on; a failed send, a lost channel
/// or a closed connection ends the session. A closed session does nothing
/// more.
pub open spec fn viewer_step(phase: ViewerPhase, event: EventView) -> (ViewerPhase, ActionView) {
    match phase {
        ViewerPhase::Connecting => match event {
            EventView::Connected(s) => (ViewerPhase::Streaming, ActionView::Seed(
                state_notification(s),
            )),
            EventView::PeerClosed => (ViewerPhase::Closed, ActionView::Close),
            _ => (ViewerPhase::Connecting, ActionView::Idle),
        },
        ViewerPhase::Streaming => match event {
            EventView::Notification(m) => (ViewerPhase::Streaming, ActionView::Relay(m)),
            EventView::ChannelLost => (ViewerPhase::Closed, ActionView::Close),
            EventView::SendFailed => (ViewerPhase::Closed, ActionView::Close),
            EventView::PeerClosed => (ViewerPhase::Closed, ActionView::Close),
            _ => (ViewerPhase::Streaming, ActionView::Idle),
        },
        ViewerPhase::Closed => (ViewerPhase::Closed, ActionView::Idle),
    }
}

/// What `action` sends to the viewer.
pub open spec fn sent(action: ActionView) -> Seq<WsMessageView> {
    match action {
        ActionView::Seed(m) => seq![m],
        ActionView::Relay(m) => seq![m],
        _ => Seq::empty(),
    }
}

/// Everything sent to a viewer whose session starts in `phase` and sees
/// `events` in order.
pub open spec fn transcript(phase: ViewerPhase, events: Seq<EventView>) -> Seq<WsMessageView>
    decreases events.len(),
{
    if events.len() == 0 {
        Seq::empty()
    } else {
        let (next, action) = viewer_step(phase, events[0]);
        sent(action) + transcript(next, events.drop_first())
    }
}

/// The phase of a session that starts in `phase` and sees `events` in order.
pub open spec fn phase_after(phase: ViewerPhase, events: Seq<EventView>) -> ViewerPhase
    decreases events.len(),
{
    if events.len() == 0 {
        phase
    } else {
        phase_after(viewer_step(phase, events[0]).0, events.drop_first())
    }
}

/// The deliveries of `notes`, in order, as events.
pub open spec fn deliveries(notes: Seq<WsMessageView>) -> Seq<EventView> {
    Seq::new(notes.len(), |i: int| EventView::Notification(notes[i]))
}

/// The session of one viewer.
pub struct ViewerSession {
    phase: ViewerPhase,
}

impl ViewerSession {
    /// The phase of this session.
    pub closed spec fn spec_phase(&self) -> ViewerPhase {
        self.phase
    }

    /// The session of a connection that was just accepted.
    pub fn new() -> (r: ViewerSession)
        ensures
            r.spec_phase() == ViewerPhase::Connecting,
    {
        ViewerSession { phase: ViewerPhase::Connecting }
    }

    /// The phase of this session.
    #[verifier::when_used_as_spec(spec_phase)]
    pub fn phase(&self) -> (r: ViewerPhase)
        ensures
            r == self.spec_phase(),
    {
        self.phase
    }

    /// Whether the session is over.
    pub fn is_closed(&self) -> (r: bool)
        ensures
            r == (self.spec_phase() == ViewerPhase::Closed),
    {
        self.phase == ViewerPhase::Closed
    }

    /// Takes in `event` and says what to do next.
    pub fn step(&mut self, event: ViewerEvent) -> (action: ViewerAction)
        ensures
            (final(self).spec_phase(), action@) == viewer_step(old(self).spec_phase(), event@),
    {
        match self.phase {
            ViewerPhase::Connecting => match event {
                ViewerEvent::Connected(snapshot) => {
                    self.phase = ViewerPhase::Streaming;
                    ViewerAction::Seed(WsMessage::state(snapshot))
                },
                ViewerEvent::PeerClosed => {
                    self.phase = ViewerPhase::Closed;
                    ViewerAction::Close
                },
                _ => ViewerAction::Idle,
            },
            ViewerPhase::Streaming => match event {
                ViewerEvent::Notification(msg) => ViewerAction::Relay(msg),
                ViewerEvent::ChannelLost | ViewerEvent::SendFailed | ViewerEvent::PeerClosed => {
                    self.phase = ViewerPhase::Closed;
                    ViewerAction::Close
                },
                _ => ViewerAction::Idle,
            },
            ViewerPhase::Closed => ViewerAction::Idle,
        }
    }
}

/// A streaming session that sees only deliveries relays each of them, in
/// order, and keeps streaming.
pub proof fn lemma_streaming_relays_in_order(notes: Seq<WsMessageView>)
    ensures
        transcript(ViewerPhase::Streaming, deliveries(notes)) == notes,
        phase_after(ViewerPhase::Streaming, deliveries(notes)) == ViewerPhase::Streaming,
    decreases notes.len(),
{
    if notes.len() > 0 {
        let events = deliveries(notes);
        assert(events.drop_first() =~= deliveries(notes.drop_first()));
        lemma_streaming_relays_in_order(notes.drop_first());
        assert(seq![notes[0]] + notes.drop_first() =~= notes);
    } else {
        assert(transcript(ViewerPhase::Streaming, deliveries(notes)) =~= notes);
    }
}

/// A viewer that connects when the state is `snapshot` and to which the
/// channel then delivers `notes` receives exactly the seed with that state
/// followed by `notes`, in the order of their delivery: nothing earlier,
/// nothing twice, nothing out of order.
pub proof fn lemma_viewer_receives_seed_then_notes(
    snapshot: CueStateView,
    notes: Seq<WsMessageView>,
)
    ensures
        transcript(
            ViewerPhase::Connecting,
            seq![EventView::Connected(snapshot)] + deliveries(notes),
        ) == seq![state_notification(snapshot)] + notes,
{
    let events = seq![EventView::Connected(snapshot)] + deliveries(notes);
    assert(events.drop_first() =~= deliveries(notes));
    lemma_streaming_relays_in_order(notes);
}

/// Once a session is closed, nothing more is sent, whatever happens.
pub proof fn lemma_closed_session_is_silent(events: Seq<EventView>)
    ensures
        transcript(ViewerPhase::Closed, events) == Seq::<WsMessageView>::empty(),
        phase_after(ViewerPhase::Closed, events) == ViewerPhase::Closed,
    decreases events.len(),
{
    if events.len() > 0 {
        lemma_closed_session_is_silent(events.drop_first());
    }
    assert(transcript(ViewerPhase::Closed, events) =~= Seq::<WsMessageView>::empty());
}

} // verus!
