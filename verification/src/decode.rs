//! From a datagram to the messages it holds.

use vstd::prelude::*;
use crate::osc::{MessageView, OscMessage, OscValue, ValueView};

verus! {

/// A decoded packet, as the decoder hands it out.
#[verifier::external_type_specification]
#[verifier::external_body]
pub struct ExOscPacket(rosc::OscPacket);

/// A typed argument, as the decoder hands it out.
#[verifier::external_type_specification]
#[verifier::external_body]
pub struct ExOscType(rosc::OscType);

/// The decoder's reason for refusing a datagram.
#[verifier::external_type_specification]
#[verifier::external_body]
pub struct ExOscError(rosc::OscError);

/// The longest datagram that is decoded: the size of the receive buffer.
pub const MAX_DATAGRAM_LEN: usize = 4096;

/// Mathematical model of a decoded packet: a message, or a bundle of
/// packets in bundle order.
pub enum PacketView {
    Message(MessageView),
    Bundle(Seq<PacketView>),
}

/// The packet that the decoder reads from `bytes`, where it accepts them.
pub uninterp spec fn rosc_decoded(bytes: Seq<u8>) -> Option<PacketView>;

/// What `packet` holds.
pub uninterp spec fn packet_view(packet: rosc::OscPacket) -> PacketView;

/// The plain value that stands for `arg`.
pub uninterp spec fn arg_value(arg: rosc::OscType) -> ValueView;

/// The plain values that stand for `args`, in order.
pub open spec fn arg_values(args: Seq<rosc::OscType>) -> Seq<ValueView> {
    Seq::new(args.len(), |i: int| arg_value(args[i]))
}

/// What each of `packets` holds, in order.
pub open spec fn packets_view(packets: Seq<rosc::OscPacket>) -> Seq<PacketView> {
    Seq::new(packets.len(), |i: int| packet_view(packets[i]))
}

/// The top level of a packet, taken apart: a message's address and
/// arguments, or a bundle's elements.
pub enum PacketParts {
    Message { addr: String, args: Vec<rosc::OscType> },
    Bundle { content: Vec<rosc::OscPacket> },
}

impl View for PacketParts {
    type V = PacketView;

    open spec fn view(&self) -> PacketView {
        match *self {
            PacketParts::Message { addr, args } => PacketView::Message(
                MessageView { addr: addr@, args: arg_values(args@) },
            ),
            PacketParts::Bundle { content } => PacketView::Bundle(packets_view(content@)),
        }
    }
}

/// Calls `rosc::decoder::decode_udp` and drops the undecoded remainder.
/// Decoding is a function of the bytes alone; the contract names its
/// outcome and says that an error comes exactly where no packet is read.
/// The decoder recurses into nested bundles, so the input is bounded.
#[verifier::external_body]
fn decode_udp(bytes: &[u8]) -> (r: Result<rosc::OscPacket, rosc::OscError>)
    requires
        bytes@.len() <= MAX_DATAGRAM_LEN,
    ensures
        r matches Ok(packet) ==> rosc_decoded(bytes@) == Some(packet_view(packet)),
        r is Err ==> rosc_decoded(bytes@) is None,
{
    rosc::decoder::decode_udp(bytes).map(|(_, packet)| packet)
}

/// Tells a message from a bundle and copies out the fields of either. What
/// a packet holds is what its parts hold: the address and the arguments of a
/// message, the elements of a bundle in their order.
#[verifier::external_body]
fn unpack(packet: &rosc::OscPacket) -> (r: PacketParts)
    ensures
        r@ == packet_view(*packet),
{
    match packet {
        rosc::OscPacket::Message(m) => PacketParts::Message {
            addr: m.addr.clone(),
            args: m.args.clone(),
        },
        rosc::OscPacket::Bundle(b) => PacketParts::Bundle { content: b.content.clone() },
    }
}

/// Tells the variants of `rosc::OscType` apart and copies out the payload:
/// integers and strings as they are, floating-point numbers as their bit
/// patterns, a single-precision number also as its decimal text. Every
/// other variant becomes `Other`. The contract names the value.
#[verifier::external_body]
fn convert_arg(arg: &rosc::OscType) -> (r: OscValue)
    ensures
        r@ == arg_value(*arg),
{
    match arg {
        rosc::OscType::Int(i) => OscValue::Int(*i),
        rosc::OscType::Float(f) => OscValue::Float { bits: f.to_bits(), text: f.to_string() },
        rosc::OscType::String(s) => OscValue::Str(s.clone()),
        rosc::OscType::Double(d) => OscValue::Double(d.to_bits()),
        _ => OscValue::Other,
    }
}

/// The messages among the elements `items` of a bundle, in bundle order.
/// Elements that are not messages are passed over.
pub open spec fn bundle_messages(items: Seq<PacketView>) -> Seq<MessageView>
    decreases items.len(),
{
    if items.len() == 0 {
        Seq::empty()
    } else {
        let before = bundle_messages(items.drop_last());
        match items.last() {
            PacketView::Message(m) => before.push(m),
            PacketView::Bundle(_) => before,
        }
    }
}

/// The messages that `packet` holds: itself where it is a message, the
/// messages among its elements where it is a bundle.
pub open spec fn packet_messages(packet: PacketView) -> Seq<MessageView> {
    match packet {
        PacketView::Message(m) => seq![m],
        PacketView::Bundle(items) => bundle_messages(items),
    }
}

/// The messages that the datagram `bytes` holds. `None` for a malformed
/// datagram: one that is longer than the receive buffer or that the decoder
/// refuses.
pub open spec fn datagram_messages(bytes: Seq<u8>) -> Option<Seq<MessageView>> {
    if bytes.len() > MAX_DATAGRAM_LEN {
        None
    } else {
        match rosc_decoded(bytes) {
            Some(packet) => Some(packet_messages(packet)),
            None => None,
        }
    }
}

/// The messages that the datagram `bytes` holds; none for a malformed one.
pub open spec fn held_messages(bytes: Seq<u8>) -> Seq<MessageView> {
    match datagram_messages(bytes) {
        Some(msgs) => msgs,
        None => Seq::empty(),
    }
}

/// The models of a sequence of messages, in order.
pub open spec fn messages_view(msgs: Seq<OscMessage>) -> Seq<MessageView> {
    Seq::new(msgs.len(), |i: int| msgs[i]@)
}

/// The model of an optional sequence of messages.
pub open spec fn option_messages(msgs: Option<Vec<OscMessage>>) -> Option<Seq<MessageView>> {
    match msgs {
        Some(v) => Some(messages_view(v@)),
        None => None,
    }
}

fn build_message(addr: String, args: &Vec<rosc::OscType>) -> (r: OscMessage)
    ensures
        r@ == (MessageView { addr: addr@, args: arg_values(args@) }),
{
    let mut values: Vec<OscValue> = Vec::new();
    let mut i: usize = 0;
    while i < args.len()
        invariant
            i <= args.len(),
            values@.len() == i,
            forall|k: int| 0 <= k < i ==> (#[trigger] values@[k])@ == arg_value(args@[k]),
        decreases args.len() - i,
    {
        values.push(convert_arg(&args[i]));
        i += 1;
    }
    let msg = OscMessage { addr, args: values };
    assert(msg@.args =~= arg_values(args@));
    msg
}

fn collect_messages(content: &Vec<rosc::OscPacket>) -> (r: Vec<OscMessage>)
    ensures
        messages_view(r@) == bundle_messages(packets_view(content@)),
{
    let mut out: Vec<OscMessage> = Vec::new();
    let mut i: usize = 0;
    let ghost items = packets_view(content@);
    assert(items.take(0) =~= Seq::<PacketView>::empty());
    assert(messages_view(out@) =~= bundle_messages(items.take(0)));
    while i < content.len()
        invariant
            i <= content.len(),
            items == packets_view(content@),
            messages_view(out@) == bundle_messages(items.take(i as int)),
        decreases content.len() - i,
    {
        let ghost before = out@;
        assert(items.take(i + 1).drop_last() =~= items.take(i as int));
        assert(items.take(i + 1).last() == packet_view(content@[i as int]));
        match unpack(&content[i]) {
            PacketParts::Message { addr, args } => {
                let msg = build_message(addr, &args);
                out.push(msg);
                assert(messages_view(out@) =~= messages_view(before).push(msg@));
            },
            PacketParts::Bundle { content: _ } => {},
        }
        i += 1;
    }
    assert(items.take(content@.len() as int) =~= items);
    out
}

/// Decodes one datagram into its messages: the message itself, or the
/// messages of a bundle in bundle order. A malformed datagram gives `None`.
pub fn decode_datagram(bytes: &[u8]) -> (r: Option<Vec<OscMessage>>)
    ensures
        option_messages(r) == datagram_messages(bytes@),
{
    if bytes.len() > MAX_DATAGRAM_LEN {
        return None;
    }
    match decode_udp(bytes) {
        Ok(packet) => {
            match unpack(&packet) {
                PacketParts::Message { addr, args } => {
                    let msg = build_message(addr, &args);
                    let mut out: Vec<OscMessage> = Vec::new();
                    out.push(msg);
                    assert(messages_view(out@) =~= seq![msg@]);
                    Some(out)
                },
                PacketParts::Bundle { content } => Some(collect_messages(&content)),
            }
        },
        Err(_) => None,
    }
}

} // verus!
