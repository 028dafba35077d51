//! The service: the one cue state, its history and the channel to viewers.

use vstd::prelude::*;
use crate::clock::{all_stamps, is_stamp, timestamp_now};
use crate::decode::{datagram_messages, decode_datagram, held_messages, messages_view};
use crate::history::{entries_view, pushed, History, HISTORY_CAPACITY};
use crate::hub::{
    channel_capacity,
    open_channel,
    publish,
    receiver_channel,
    subscribe,
    HUB_CAPACITY,
};
use crate::label::{option_fields, LabelFields, LabelFieldsView};
use crate::log::{log_entry, LogEntryView, OscLogEntry};
use crate::notify::{
    log_notification,
    notifications_view,
    state_notification,
    update_notification,
    WsMessage,
    WsMessageView,
};
use crate::osc::{MessageView, OscMessage};
use crate::text::option_text;
use crate::state::{initial_state, interpreted, label_fields, message_fields, CueState, CueStateView};

verus! {

/// The port on which the query surface and the viewer gateway listen.
pub const HTTP_PORT: u16 = 3000;

/// The port on which datagrams from the console arrive.
pub const OSC_PORT: u16 = 8000;

/// Mathematical model of a [`CueService`]: the current state and the
/// history, newest first. The channel to viewers is no part of the model;
/// [`CueService::channel`] names it.
pub struct ServiceView {
    pub state: CueStateView,
    pub history: Seq<LogEntryView>,
}

/// The service before any message has arrived.
pub open spec fn initial_service() -> ServiceView {
    ServiceView { state: initial_state(), history: Seq::empty() }
}

/// The service `s` after message `m` arrived at `now`, given the fields
/// `fields` of the message's label: the state as the message changes it,
/// and the message's record at the front of the history.
pub open spec fn recorded(
    s: ServiceView,
    m: MessageView,
    now: Seq<char>,
    fields: Option<LabelFieldsView>,
) -> ServiceView {
    ServiceView {
        state: interpreted(s.state, m, now, fields),
        history: pushed(s.history, log_entry(m, now)),
    }
}

/// What is announced when message `m` arrives at `now` in service `s`: the
/// record of the message, then the state that follows.
pub open spec fn announced(
    s: ServiceView,
    m: MessageView,
    now: Seq<char>,
    fields: Option<LabelFieldsView>,
) -> Seq<WsMessageView> {
    seq![
        log_notification(log_entry(m, now)),
        update_notification(interpreted(s.state, m, now, fields)),
    ]
}

/// Whether `after` and `notes` are what the arrival of `m` at `now` makes of
/// the service `before`.
pub open spec fn receives(
    before: ServiceView,
    m: MessageView,
    now: Seq<char>,
    after: ServiceView,
    notes: Seq<WsMessageView>,
) -> bool {
    &&& after == recorded(before, m, now, message_fields(m))
    &&& notes == announced(before, m, now, message_fields(m))
}

/// The service `s` after the messages `msgs` arrived in order, the `i`-th at
/// `times[i]`.
pub open spec fn received_all(
    s: ServiceView,
    msgs: Seq<MessageView>,
    times: Seq<Seq<char>>,
) -> ServiceView
    decreases msgs.len(),
{
    if msgs.len() == 0 {
        s
    } else {
        recorded(
            received_all(s, msgs.drop_last(), times.drop_last()),
            msgs.last(),
            times.last(),
            message_fields(msgs.last()),
        )
    }
}

/// What is announced while the messages `msgs` arrive in order in service
/// `s`, the `i`-th at `times[i]`.
pub open spec fn announced_all(
    s: ServiceView,
    msgs: Seq<MessageView>,
    times: Seq<Seq<char>>,
) -> Seq<WsMessageView>
    decreases msgs.len(),
{
    if msgs.len() == 0 {
        Seq::empty()
    } else {
        announced_all(s, msgs.drop_last(), times.drop_last()) + announced(
            received_all(s, msgs.drop_last(), times.drop_last()),
            msgs.last(),
            times.last(),
            message_fields(msgs.last()),
        )
    }
}

/// Whether `after` and `notes` are what the arrival of `msgs` at the times
/// `times` makes of the service `before`.
pub open spec fn replays(
    before: ServiceView,
    msgs: Seq<MessageView>,
    times: Seq<Seq<char>>,
    after: ServiceView,
    notes: Seq<WsMessageView>,
) -> bool {
    &&& times.len() == msgs.len()
    &&& after == received_all(before, msgs, times)
    &&& notes == announced_all(before, msgs, times)
}

/// The cue state, the history of received messages and the channel on which
/// changes are announced.
pub struct CueService {
    state: CueState,
    history: History,
    hub: tokio::sync::broadcast::Sender<WsMessage>,
}

impl View for CueService {
    type V = ServiceView;

    closed spec fn view(&self) -> ServiceView {
        ServiceView { state: self.state@, history: self.history@ }
    }
}

impl CueService {
    /// A service that has received nothing yet; its channel has the capacity [`HUB_CAPACITY`].
    pub fn new() -> (r: CueService)
        ensures
            r@ == initial_service(),
            channel_capacity(r.channel()) == HUB_CAPACITY,
    {
        CueService {
            state: CueState::new(),
            history: History::new(),
            hub: open_channel(HUB_CAPACITY),
        }
    }

    /// A copy of the current state.
    pub fn state(&self) -> (r: CueState)
        ensures
            r@ == self@.state,
    {
        self.state.snapshot()
    }

    /// A copy of the history, newest first.
    pub fn history(&self) -> (r: Vec<OscLogEntry>)
        ensures
            entries_view(r@) == self@.history,
    {
        self.history.snapshot()
    }

    /// Whether the console has been heard, and when it was last heard.
    pub fn status(&self) -> (r: (bool, Option<String>))
        ensures
            r.0 == self@.state.connected,
            option_text(r.1) == self@.state.last_update,
    {
        let last = match &self.state.last_update {
            Some(t) => Some(t.clone()),
            None => None,
        };
        (self.state.connected, last)
    }

    /// The notification that seeds a new viewer: the current state.
    pub fn seed(&self) -> (r: WsMessage)
        ensures
            r@ == state_notification(self@.state),
    {
        WsMessage::state(self.state.snapshot())
    }

    /// A receiver for the notifications published from now on: one that
    /// listens on this service's channel.
    pub fn subscribe(&self) -> (r: tokio::sync::broadcast::Receiver<WsMessage>)
        ensures
            receiver_channel(r) == self.channel(),
    {
        subscribe(&self.hub)
    }

    /// Takes in message `msg`, received at `now`, whose label has the fields
    /// `fields` where it is well formed: records it, applies it to the
    /// state, and returns what is to be announced.
    pub fn record(&mut self, msg: &OscMessage, now: String, fields: Option<LabelFields>) -> (out:
        Vec<WsMessage>)
        ensures
            final(self)@ == recorded(old(self)@, msg@, now@, option_fields(fields)),
            notifications_view(out@) == announced(old(self)@, msg@, now@, option_fields(fields)),
            final(self).channel() == old(self).channel(),
    {
        let entry = OscLogEntry::record(msg, &now);
        let log_note = WsMessage::osc_log(entry.duplicate());
        self.history.push(entry);
        self.state.apply_parsed(msg, now, fields);
        let update = WsMessage::cue_update(self.state.snapshot());
        let mut out: Vec<WsMessage> = Vec::new();
        out.push(log_note);
        out.push(update);
        assert(notifications_view(out@) =~= announced(
            old(self)@,
            msg@,
            now@,
            option_fields(fields),
        ));
        out
    }

    /// Publishes each of `notes` to the subscribed viewers, in order.
    pub fn announce(&self, notes: &Vec<WsMessage>) {
        let mut i: usize = 0;
        while i < notes.len()
            invariant
                i <= notes.len(),
            decreases notes.len() - i,
        {
            publish(&self.hub, notes[i].duplicate());
            i += 1;
        }
    }

    /// Takes in message `msg` as received now: stamps it with the current
    /// time, records it, applies it to the state and publishes the record
    /// and the new state. Returns what was published.
    pub fn handle_message(&mut self, msg: &OscMessage) -> (out: Vec<WsMessage>)
        ensures
            exists|now: Seq<char>|
                is_stamp(now) && #[trigger] receives(
                    old(self)@,
                    msg@,
                    now,
                    final(self)@,
                    notifications_view(out@),
                ),
            final(self).channel() == old(self).channel(),
    {
        let now = timestamp_now();
        let ghost stamp = now@;
        let fields = label_fields(msg);
        let out = self.record(msg, now, fields);
        self.announce(&out);
        assert(is_stamp(stamp) && receives(
            old(self)@,
            msg@,
            stamp,
            self@,
            notifications_view(out@),
        ));
        out
    }

    /// Takes in the messages `msgs` in order, each stamped with the time at
    /// which its turn comes, and publishes what each one announces. Returns
    /// what was published.
    pub fn handle_messages(&mut self, msgs: &Vec<OscMessage>) -> (out: Vec<WsMessage>)
        ensures
            exists|times: Seq<Seq<char>>|
                all_stamps(times) && #[trigger] replays(
                    old(self)@,
                    messages_view(msgs@),
                    times,
                    final(self)@,
                    notifications_view(out@),
                ),
            final(self).channel() == old(self).channel(),
    {
        let mut out: Vec<WsMessage> = Vec::new();
        let ghost mut times: Seq<Seq<char>> = Seq::empty();
        let ghost all = messages_view(msgs@);
        let mut i: usize = 0;
        assert(all.take(0) =~= Seq::<MessageView>::empty());
        assert(notifications_view(out@) =~= Seq::<WsMessageView>::empty());
        while i < msgs.len()
            invariant
                i <= msgs.len(),
                all == messages_view(msgs@),
                all_stamps(times),
                replays(old(self)@, all.take(i as int), times, self@, notifications_view(out@)),
                self.channel() == old(self).channel(),
            decreases msgs.len() - i,
        {
            let ghost before = self@;
            let ghost said = notifications_view(out@);
            let mut notes = self.handle_message(&msgs[i]);
            let ghost fresh = notifications_view(notes@);
            out.append(&mut notes);
            proof {
                let now = choose|now: Seq<char>|
                    is_stamp(now) && #[trigger] receives(
                        before,
                        msgs@[i as int]@,
                        now,
                        self@,
                        fresh,
                    );
                let next = all.take(i + 1);
                let later = times.push(now);
                assert(next.drop_last() =~= all.take(i as int));
                assert(later.drop_last() =~= times);
                assert(next.last() == msgs@[i as int]@);
                assert(later.last() == now);
                assert(notifications_view(out@) =~= said + fresh);
                times = later;
            }
            i += 1;
        }
        assert(all.take(msgs@.len() as int) =~= all);
        assert(all_stamps(times) && replays(
            old(self)@,
            messages_view(msgs@),
            times,
            self@,
            notifications_view(out@),
        ));
        out
    }

    /// Takes in one datagram: decodes it, and takes in the messages it
    /// holds. A malformed datagram changes nothing and announces nothing.
    /// Returns what was published.
    pub fn handle_datagram(&mut self, bytes: &[u8]) -> (out: Vec<WsMessage>)
        ensures
            exists|times: Seq<Seq<char>>|
                all_stamps(times) && #[trigger] replays(
                    old(self)@,
                    held_messages(bytes@),
                    times,
                    final(self)@,
                    notifications_view(out@),
                ),
            datagram_messages(bytes@) is None ==> final(self)@ == old(self)@ && out@.len() == 0,
            final(self).channel() == old(self).channel(),
    {
        match decode_datagram(bytes) {
            Some(msgs) => {
                let out = self.handle_messages(&msgs);
                proof {
                    let notes = notifications_view(out@);
                    let times = choose|times: Seq<Seq<char>>|
                        all_stamps(times) && #[trigger] replays(
                            old(self)@,
                            messages_view(msgs@),
                            times,
                            self@,
                            notes,
                        );
                    assert(held_messages(bytes@) == messages_view(msgs@));
                    assert(all_stamps(times) && replays(
                        old(self)@,
                        held_messages(bytes@),
                        times,
                        self@,
                        notes,
                    ));
                }
                out
            },
            None => {
                let out: Vec<WsMessage> = Vec::new();
                proof {
                    let notes = notifications_view(out@);
                    assert(notes =~= Seq::<WsMessageView>::empty());
                    assert(held_messages(bytes@) =~= Seq::<MessageView>::empty());
                    let none = Seq::<Seq<char>>::empty();
                    assert(all_stamps(none) && replays(
                        old(self)@,
                        held_messages(bytes@),
                        none,
                        self@,
                        notes,
                    ));
                }
                out
            },
        }
    }

    /// This service's channel to viewers, by its sender.
    pub closed spec fn channel(&self) -> tokio::sync::broadcast::Sender<WsMessage> {
        self.hub
    }
}

/// A malformed datagram leaves no trace: whatever taking it in may do, the
/// service is afterwards as it was before and nothing is announced, so
/// the next datagram is taken in as if the malformed one had never arrived.
pub proof fn lemma_malformed_datagram_is_ignored(
    before: ServiceView,
    bytes: Seq<u8>,
    times: Seq<Seq<char>>,
    after: ServiceView,
    notes: Seq<WsMessageView>,
)
    requires
        datagram_messages(bytes) is None,
        replays(before, held_messages(bytes), times, after, notes),
    ensures
        after == before,
        notes == Seq::<WsMessageView>::empty(),
{
}

/// Messages take effect one after another: the service after one more
/// message is the service after the earlier ones, changed by that message
/// alone and as a whole.
pub proof fn lemma_messages_apply_one_after_another(
    s: ServiceView,
    msgs: Seq<MessageView>,
    times: Seq<Seq<char>>,
    m: MessageView,
    now: Seq<char>,
)
    requires
        times.len() == msgs.len(),
    ensures
        received_all(s, msgs.push(m), times.push(now)) == recorded(
            received_all(s, msgs, times),
            m,
            now,
            message_fields(m),
        ),
        announced_all(s, msgs.push(m), times.push(now)) == announced_all(s, msgs, times)
            + announced(received_all(s, msgs, times), m, now, message_fields(m)),
{
    assert(msgs.push(m).drop_last() =~= msgs);
    assert(times.push(now).drop_last() =~= times);
}

/// However many messages arrive, the history never holds more than its
/// capacity, and after at least one arrival its front is the record of the
/// latest message, and the state is stamped with that message's time.
pub proof fn lemma_service_history_bounded(
    s: ServiceView,
    msgs: Seq<MessageView>,
    times: Seq<Seq<char>>,
)
    requires
        s.history.len() <= HISTORY_CAPACITY,
        times.len() == msgs.len(),
    ensures
        received_all(s, msgs, times).history.len() <= HISTORY_CAPACITY,
        msgs.len() > 0 ==> received_all(s, msgs, times).history[0] == log_entry(
            msgs.last(),
            times.last(),
        ),
        msgs.len() > 0 ==> received_all(s, msgs, times).state.last_update == Some(times.last()),
        msgs.len() > 0 ==> received_all(s, msgs, times).state.connected,
    decreases msgs.len(),
{
    if msgs.len() > 0 {
        lemma_service_history_bounded(s, msgs.drop_last(), times.drop_last());
    }
}

/// Each message announces exactly two notifications: its record, then the
/// state that follows it.
pub proof fn lemma_two_notifications_per_message(
    s: ServiceView,
    msgs: Seq<MessageView>,
    times: Seq<Seq<char>>,
)
    requires
        times.len() == msgs.len(),
    ensures
        announced_all(s, msgs, times).len() == 2 * msgs.len(),
    decreases msgs.len(),
{
    if msgs.len() > 0 {
        lemma_two_notifications_per_message(s, msgs.drop_last(), times.drop_last());
    }
}

} // verus!
