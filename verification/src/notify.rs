//! Notifications sent to viewers.

use vstd::prelude::*;
use vstd::string::StringExecFns;
use crate::log::{LogEntryView, OscLogEntry};
use crate::state::{CueState, CueStateView};

verus! {

/// What a notification carries: a copy of the cue state or of a log record.
#[derive(Clone)]
pub enum WsPayload {
    State(CueState),
    Log(OscLogEntry),
}

/// Mathematical model of a [`WsPayload`].
pub enum PayloadView {
    State(CueStateView),
    Log(LogEntryView),
}

impl View for WsPayload {
    type V = PayloadView;

    open spec fn view(&self) -> PayloadView {
        match *self {
            WsPayload::State(s) => PayloadView::State(s@),
            WsPayload::Log(e) => PayloadView::Log(e@),
        }
    }
}

/// A notification: a type word and the payload it announces.
#[derive(Clone)]
pub struct WsMessage {
    pub msg_type: String,
    pub data: WsPayload,
}

/// Mathematical model of a [`WsMessage`].
pub struct WsMessageView {
    pub msg_type: Seq<char>,
    pub data: PayloadView,
}

impl View for WsMessage {
    type V = WsMessageView;

    open spec fn view(&self) -> WsMessageView {
        WsMessageView { msg_type: self.msg_type@, data: self.data@ }
    }
}

/// The models of a sequence of notifications, in order.
pub open spec fn notifications_view(msgs: Seq<WsMessage>) -> Seq<WsMessageView> {
    Seq::new(msgs.len(), |i: int| msgs[i]@)
}

/// The notification that seeds a new viewer with state `s`.
pub open spec fn state_notification(s: CueStateView) -> WsMessageView {
    WsMessageView { msg_type: "state"@, data: PayloadView::State(s) }
}

/// The notification that announces the log record `e`.
pub open spec fn log_notification(e: LogEntryView) -> WsMessageView {
    WsMessageView { msg_type: "oscLog"@, data: PayloadView::Log(e) }
}

/// The notification that announces the changed state `s`.
pub open spec fn update_notification(s: CueStateView) -> WsMessageView {
    WsMessageView { msg_type: "cueUpdate"@, data: PayloadView::State(s) }
}

impl WsMessage {
    /// The notification that seeds a new viewer with `state`.
    pub fn state(state: CueState) -> (r: WsMessage)
        ensures
            r@ == state_notification(state@),
    {
        WsMessage { msg_type: String::from_str("state"), data: WsPayload::State(state) }
    }

    /// The notification that announces the log record `entry`.
    pub fn osc_log(entry: OscLogEntry) -> (r: WsMessage)
        ensures
            r@ == log_notification(entry@),
    {
        WsMessage { msg_type: String::from_str("oscLog"), data: WsPayload::Log(entry) }
    }

    /// The notification that announces the changed `state`.
    pub fn cue_update(state: CueState) -> (r: WsMessage)
        ensures
            r@ == update_notification(state@),
    {
        WsMessage { msg_type: String::from_str("cueUpdate"), data: WsPayload::State(state) }
    }

    /// A copy of this notification.
    pub fn duplicate(&self) -> (r: WsMessage)
        ensures
            r@ == self@,
    {
        let data = match &self.data {
            WsPayload::State(s) => WsPayload::State(s.snapshot()),
            WsPayload::Log(e) => WsPayload::Log(e.duplicate()),
        };
        WsMessage { msg_type: self.msg_type.clone(), data }
    }
}

} // verus!
