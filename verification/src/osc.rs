//! Console messages as plain values: an address and typed arguments.

use vstd::prelude::*;

verus! {

/// One typed argument of a console message.
///
/// Floating-point arguments are carried by their IEEE-754 bit patterns. A
/// single-precision argument also carries its decimal text, as written by
/// whoever produced the value.
#[derive(Clone)]
pub enum OscValue {
    Int(i32),
    Float { bits: u32, text: String },
    Str(String),
    Double(u64),
    Other,
}

/// Mathematical model of an [`OscValue`].
pub enum ValueView {
    Int(i32),
    Float { bits: u32, text: Seq<char> },
    Str(Seq<char>),
    Double(u64),
    Other,
}

impl View for OscValue {
    type V = ValueView;

    open spec fn view(&self) -> ValueView {
        match *self {
            OscValue::Int(i) => ValueView::Int(i),
            OscValue::Float { bits, text } => ValueView::Float { bits, text: text@ },
            OscValue::Str(s) => ValueView::Str(s@),
            OscValue::Double(bits) => ValueView::Double(bits),
            OscValue::Other => ValueView::Other,
        }
    }
}

/// The models of a sequence of arguments, in order.
pub open spec fn values_view(args: Seq<OscValue>) -> Seq<ValueView> {
    Seq::new(args.len(), |i: int| args[i]@)
}

/// A decoded console message.
#[derive(Clone)]
pub struct OscMessage {
    pub addr: String,
    pub args: Vec<OscValue>,
}

/// Mathematical model of an [`OscMessage`].
pub struct MessageView {
    pub addr: Seq<char>,
    pub args: Seq<ValueView>,
}

impl View for OscMessage {
    type V = MessageView;

    open spec fn view(&self) -> MessageView {
        MessageView { addr: self.addr@, args: values_view(self.args@) }
    }
}

impl OscValue {
    /// A copy of this argument.
    pub fn duplicate(&self) -> (r: OscValue)
        ensures
            r@ == self@,
    {
        match self {
            OscValue::Int(i) => OscValue::Int(*i),
            OscValue::Float { bits, text } => OscValue::Float { bits: *bits, text: text.clone() },
            OscValue::Str(s) => OscValue::Str(s.clone()),
            OscValue::Double(bits) => OscValue::Double(*bits),
            OscValue::Other => OscValue::Other,
        }
    }
}

} // verus!
