//! The generic wire packet, as far as the relay reads it, and the Open Sound
//! Control codec that turns datagrams into packets and back.

use vstd::prelude::*;
use rosc::{OscBundle, OscError, OscMessage, OscPacket, OscTime, OscType};

verus! {

/// One argument of a wire message: an integer, or a value of any other type.
///
/// The relay forwards integers only, so the payload of every other argument
/// type is left behind when a packet is read.
#[derive(Clone, Copy, Debug, PartialEq, Eq, Structural)]
pub enum WireArg {
    Int(i32),
    Other,
}

impl WireArg {
    /// The integer this argument carries, if it is one.
    pub open spec fn value(self) -> Option<i32> {
        match self {
            WireArg::Int(n) => Some(n),
            WireArg::Other => None,
        }
    }
}

/// A single wire message: an address and its ordered arguments.
#[derive(Clone, Debug, PartialEq, Eq)]
pub struct WireMessage {
    pub addr: String,
    pub args: Vec<WireArg>,
}

/// The mathematical content of a [`WireMessage`].
pub struct WireMessageView {
    pub addr: Seq<char>,
    pub args: Seq<WireArg>,
}

impl View for WireMessage {
    type V = WireMessageView;

    open spec fn view(&self) -> WireMessageView {
        WireMessageView { addr: self.addr@, args: self.args@ }
    }
}

/// Whether every argument of `args` is an integer.
pub open spec fn all_integers(args: Seq<WireArg>) -> bool {
    forall|i: int| 0 <= i < args.len() ==> (#[trigger] args[i]) is Int
}

/// The integers of `args` in order, provided every argument is one.
pub open spec fn integers_of(args: Seq<WireArg>) -> Option<Seq<i32>> {
    if all_integers(args) {
        Some(Seq::new(args.len(), |i: int| args[i]->Int_0))
    } else {
        None
    }
}

/// The arguments that carry `values` in order.
pub open spec fn arguments_of(values: Seq<i32>) -> Seq<WireArg> {
    Seq::new(values.len(), |i: int| WireArg::Int(values[i]))
}

/// Picks the integers out of `args`, or reports that some argument is not
/// one.
pub fn integers(args: &Vec<WireArg>) -> (found: Option<Vec<i32>>)
    ensures
        match found {
            Some(values) => integers_of(args@) == Some(values@),
            None => integers_of(args@) is None,
        },
{
    let mut values: Vec<i32> = Vec::new();
    let mut i: usize = 0;
    while i < args.len()
        invariant
            i <= args.len(),
            values.len() == i,
            forall|k: int| 0 <= k < i ==> (#[trigger] args@[k]) == WireArg::Int(values@[k]),
        decreases args.len() - i,
    {
        match args[i] {
            WireArg::Int(n) => values.push(n),
            WireArg::Other => {
                assert(!(args@[i as int] is Int));
                return None;
            },
        }
        i += 1;
    }
    assert(values@ =~= Seq::new(args@.len(), |i: int| args@[i]->Int_0));
    Some(values)
}

/// Wraps each of `values` as an integer argument, in order.
pub fn arguments(values: &Vec<i32>) -> (args: Vec<WireArg>)
    ensures
        args@ == arguments_of(values@),
{
    let mut args: Vec<WireArg> = Vec::new();
    let mut i: usize = 0;
    while i < values.len()
        invariant
            i <= values.len(),
            args.len() == i,
            forall|k: int| 0 <= k < i ==> (#[trigger] args@[k]) == WireArg::Int(values@[k]),
        decreases values.len() - i,
    {
        args.push(WireArg::Int(values[i]));
        i += 1;
    }
    assert(args@ =~= arguments_of(values@));
    args
}

/// Integer arguments are read back as the values they were made from.
pub proof fn lemma_integers_of_arguments(values: Seq<i32>)
    ensures
        integers_of(arguments_of(values)) == Some(values),
{
    let args = arguments_of(values);
    assert(all_integers(args));
    assert(Seq::new(args.len(), |i: int| args[i]->Int_0) =~= values);
}

/// An element inside an envelope: a message, or another envelope.
///
/// The relay never looks inside a nested envelope, so only its presence is
/// kept.
#[derive(Clone, Debug, PartialEq, Eq)]
pub enum WireElement {
    Message(WireMessage),
    Envelope,
}

/// The mathematical content of a [`WireElement`].
pub enum WireElementView {
    Message(WireMessageView),
    Envelope,
}

impl View for WireElement {
    type V = WireElementView;

    open spec fn view(&self) -> WireElementView {
        match self {
            WireElement::Message(m) => WireElementView::Message(m@),
            WireElement::Envelope => WireElementView::Envelope,
        }
    }
}

/// A decoded datagram: a bare message, or an envelope of zero or more
/// elements.
#[derive(Clone, Debug, PartialEq, Eq)]
pub enum WirePacket {
    Message(WireMessage),
    Envelope(Vec<WireElement>),
}

/// The mathematical content of a [`WirePacket`].
pub enum WirePacketView {
    Message(WireMessageView),
    Envelope(Seq<WireElementView>),
}

impl View for WirePacket {
    type V = WirePacketView;

    open spec fn view(&self) -> WirePacketView {
        match self {
            WirePacket::Message(m) => WirePacketView::Message(m@),
            WirePacket::Envelope(elements) => WirePacketView::Envelope(
                Seq::new(elements@.len(), |i: int| elements@[i]@),
            ),
        }
    }
}

/// `rosc::OscError`, the error of the codec. It is carried from the codec to
/// the caller and never looked into.
#[verifier::external_type_specification]
#[verifier::external_body]
pub struct ExOscError(rosc::OscError);

/// The packet that `rosc::decoder::decode_udp` reads from a datagram, as far
/// as the relay keeps it, or `None` where the decoder rejects the datagram.
pub uninterp spec fn osc_decoded(datagram: Seq<u8>) -> Option<WirePacketView>;

/// The bytes that `rosc::encoder::encode` writes for an envelope with the
/// given time tag that holds one message with the given address and integer
/// arguments, or `None` where the encoder refuses to.
pub uninterp spec fn osc_encoded(
    seconds: u32,
    fractional: u32,
    addr: Seq<char>,
    values: Seq<i32>,
) -> Option<Seq<u8>>;

/// Runs `rosc::decoder::decode_udp` on a datagram and copies the packet it
/// finds into the library's own packet type.
///
/// Trusted: the outcome depends on the datagram alone, so it is given the
/// name [`osc_decoded`]. Nothing is claimed about which datagrams decode. The
/// copy keeps addresses, integer arguments (picked out with
/// `rosc::OscType::int`) and the order of everything; it drops time tags, the
/// payload of other argument types, the contents of nested envelopes and any
/// bytes after the packet.
#[verifier::external_body]
pub(crate) fn decode_datagram(datagram: &[u8]) -> (decoded: Result<WirePacket, OscError>)
    ensures
        match decoded {
            Ok(packet) => osc_decoded(datagram@) == Some(packet@),
            Err(_) => osc_decoded(datagram@) is None,
        },
{
    let message = |m: OscMessage| WireMessage {
        addr: m.addr,
        args: m.args.into_iter().map(|a| a.int().map_or(WireArg::Other, WireArg::Int)).collect(),
    };
    match rosc::decoder::decode_udp(datagram)?.1 {
        OscPacket::Message(m) => Ok(WirePacket::Message(message(m))),
        OscPacket::Bundle(b) => Ok(WirePacket::Envelope(b.content.into_iter().map(|p| match p {
            OscPacket::Message(m) => WireElement::Message(message(m)),
            OscPacket::Bundle(_) => WireElement::Envelope,
        }).collect())),
    }
}

/// Runs `rosc::encoder::encode` on an envelope with the given time tag that
/// holds exactly one message, whose arguments are the given integers.
///
/// Trusted: the outcome depends on the arguments alone, so it is given the
/// name [`osc_encoded`]. Nothing is claimed about the bytes themselves or
/// about when encoding succeeds.
#[verifier::external_body]
pub(crate) fn encode_envelope(seconds: u32, fractional: u32, addr: &str, values: &[i32]) -> (encoded:
    Result<Vec<u8>, OscError>)
    ensures
        match encoded {
            Ok(bytes) => osc_encoded(seconds, fractional, addr@, values@) == Some(bytes@),
            Err(_) => osc_encoded(seconds, fractional, addr@, values@) is None,
        },
{
    let args = values.iter().map(|n| OscType::Int(*n)).collect();
    let message = OscMessage { addr: addr.to_owned(), args };
    let timetag = OscTime { seconds, fractional };
    rosc::encoder::encode(&OscPacket::Bundle(OscBundle { timetag, content: vec![OscPacket::Message(message)] }))
}

} // verus!
