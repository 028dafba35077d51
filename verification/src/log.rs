//! Records of received messages, as kept in the history and sent to viewers.

use vstd::prelude::*;
use vstd::string::StringExecFns;
use crate::osc::{MessageView, OscMessage, OscValue, ValueView};

verus! {

/// One logged argument: a one-letter type tag and the value.
#[derive(Clone)]
pub struct OscArg {
    pub arg_type: String,
    pub value: OscValue,
}

/// Mathematical model of an [`OscArg`].
pub struct ArgView {
    pub arg_type: Seq<char>,
    pub value: ValueView,
}

impl View for OscArg {
    type V = ArgView;

    open spec fn view(&self) -> ArgView {
        ArgView { arg_type: self.arg_type@, value: self.value@ }
    }
}

/// How an argument is logged: integers, single-precision numbers, strings
/// and double-precision numbers under the tags `i`, `f`, `s` and `d` with
/// their value; anything else under `?` with the word `unknown`.
pub open spec fn logged_arg(v: ValueView) -> ArgView {
    match v {
        ValueView::Int(i) => ArgView { arg_type: "i"@, value: v },
        ValueView::Float { bits, text } => ArgView { arg_type: "f"@, value: v },
        ValueView::Str(s) => ArgView { arg_type: "s"@, value: v },
        ValueView::Double(bits) => ArgView { arg_type: "d"@, value: v },
        ValueView::Other => ArgView { arg_type: "?"@, value: ValueView::Str("unknown"@) },
    }
}

/// How a sequence of arguments is logged, in order.
pub open spec fn logged_args(args: Seq<ValueView>) -> Seq<ArgView> {
    Seq::new(args.len(), |i: int| logged_arg(args[i]))
}

/// The models of a sequence of logged arguments, in order.
pub open spec fn args_view(args: Seq<OscArg>) -> Seq<ArgView> {
    Seq::new(args.len(), |i: int| args[i]@)
}

impl OscArg {
    /// The log form of `value`.
    pub fn of(value: &OscValue) -> (r: OscArg)
        ensures
            r@ == logged_arg(value@),
    {
        match value {
            OscValue::Int(_) => OscArg { arg_type: String::from_str("i"), value: value.duplicate() },
            OscValue::Float { .. } => OscArg {
                arg_type: String::from_str("f"),
                value: value.duplicate(),
            },
            OscValue::Str(_) => OscArg { arg_type: String::from_str("s"), value: value.duplicate() },
            OscValue::Double(_) => OscArg {
                arg_type: String::from_str("d"),
                value: value.duplicate(),
            },
            OscValue::Other => OscArg {
                arg_type: String::from_str("?"),
                value: OscValue::Str(String::from_str("unknown")),
            },
        }
    }

    /// A copy of this argument.
    pub fn duplicate(&self) -> (r: OscArg)
        ensures
            r@ == self@,
    {
        OscArg { arg_type: self.arg_type.clone(), value: self.value.duplicate() }
    }
}

/// The record of one received message.
#[derive(Clone)]
pub struct OscLogEntry {
    pub timestamp: String,
    pub address: String,
    pub args: Vec<OscArg>,
}

/// Mathematical model of an [`OscLogEntry`].
pub struct LogEntryView {
    pub timestamp: Seq<char>,
    pub address: Seq<char>,
    pub args: Seq<ArgView>,
}

impl View for OscLogEntry {
    type V = LogEntryView;

    open spec fn view(&self) -> LogEntryView {
        LogEntryView {
            timestamp: self.timestamp@,
            address: self.address@,
            args: args_view(self.args@),
        }
    }
}

/// The record of message `m` received at `now`: the whole message, with
/// every argument in its log form.
pub open spec fn log_entry(m: MessageView, now: Seq<char>) -> LogEntryView {
    LogEntryView { timestamp: now, address: m.addr, args: logged_args(m.args) }
}

impl OscLogEntry {
    /// Records message `msg` as received at `now`.
    pub fn record(msg: &OscMessage, now: &String) -> (r: OscLogEntry)
        ensures
            r@ == log_entry(msg@, now@),
    {
        let mut args: Vec<OscArg> = Vec::new();
        let mut i: usize = 0;
        while i < msg.args.len()
            invariant
                i <= msg.args.len(),
                args@.len() == i,
                forall|k: int| 0 <= k < i ==> (#[trigger] args@[k])@ == logged_arg(msg.args@[k]@),
            decreases msg.args.len() - i,
        {
            args.push(OscArg::of(&msg.args[i]));
            i += 1;
        }
        let entry = OscLogEntry { timestamp: now.clone(), address: msg.addr.clone(), args };
        assert(entry@.args =~= log_entry(msg@, now@).args);
        entry
    }

    /// A copy of this record.
    pub fn duplicate(&self) -> (r: OscLogEntry)
        ensures
            r@ == self@,
    {
        let mut args: Vec<OscArg> = Vec::new();
        let mut i: usize = 0;
        while i < self.args.len()
            invariant
                i <= self.args.len(),
                args@.len() == i,
                forall|k: int| 0 <= k < i ==> (#[trigger] args@[k])@ == self.args@[k]@,
            decreases self.args.len() - i,
        {
            args.push(self.args[i].duplicate());
            i += 1;
        }
        let entry = OscLogEntry {
            timestamp: self.timestamp.clone(),
            address: self.address.clone(),
            args,
        };
        assert(entry@.args =~= self@.args);
        entry
    }
}

} // verus!
