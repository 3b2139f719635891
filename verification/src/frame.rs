//! Framing: every transmission unit is an envelope that holds exactly one
//! message.

use vstd::prelude::*;
use crate::wire::{WireElement, WireElementView, WireMessage, WireMessageView, WirePacket,
    WirePacketView};

verus! {

/// Why a packet does not hold exactly one message.
#[derive(Clone, Copy, Debug, PartialEq, Eq, Structural)]
pub enum FrameError {
    /// The envelope holds nothing.
    EmptyEnvelope,
    /// The envelope holds more than one element.
    MultiplexedEnvelope,
    /// The one element of the envelope is itself an envelope.
    NestedEnvelope,
}

/// The one message of a packet, and whether it came in an envelope.
///
/// A bare message is accepted, but it is not what the protocol expects: the
/// flag lets the caller say so in a diagnostic.
#[derive(Clone, Debug, PartialEq, Eq)]
pub struct Framed {
    pub message: WireMessage,
    pub enveloped: bool,
}

/// The mathematical content of a [`Framed`].
pub struct FramedView {
    pub message: WireMessageView,
    pub enveloped: bool,
}

impl View for Framed {
    type V = FramedView;

    open spec fn view(&self) -> FramedView {
        FramedView { message: self.message@, enveloped: self.enveloped }
    }
}

/// The one message that a packet holds, or why it holds none.
///
/// The number of elements is judged before their kind: an envelope of several
/// elements is multiplexed, whatever the elements are.
pub open spec fn framed(packet: WirePacketView) -> Result<FramedView, FrameError> {
    match packet {
        WirePacketView::Message(message) => Ok(FramedView { message, enveloped: false }),
        WirePacketView::Envelope(elements) => if elements.len() == 0 {
            Err(FrameError::EmptyEnvelope)
        } else if elements.len() > 1 {
            Err(FrameError::MultiplexedEnvelope)
        } else {
            match elements[0] {
                WireElementView::Message(message) => Ok(FramedView { message, enveloped: true }),
                WireElementView::Envelope => Err(FrameError::NestedEnvelope),
            }
        },
    }
}

/// Takes the one message out of a packet.
///
/// Fails if the packet is an envelope that is empty, that holds several
/// elements, or whose one element is an envelope again. A bare message is
/// handed on with `enveloped` unset.
pub fn unwrap_packet(packet: WirePacket) -> (unwrapped: Result<Framed, FrameError>)
    ensures
        match unwrapped {
            Ok(found) => framed(packet@) == Ok::<_, FrameError>(found@),
            Err(error) => framed(packet@) == Err::<FramedView, _>(error),
        },
{
    match packet {
        WirePacket::Message(message) => Ok(Framed { message, enveloped: false }),
        WirePacket::Envelope(mut elements) => {
            let count = elements.len();
            if count == 0 {
                return Err(FrameError::EmptyEnvelope);
            }
            if count > 1 {
                return Err(FrameError::MultiplexedEnvelope);
            }
            match elements.pop() {
                Some(WireElement::Message(message)) => Ok(Framed { message, enveloped: true }),
                Some(WireElement::Envelope) => Err(FrameError::NestedEnvelope),
                None => Err(FrameError::EmptyEnvelope),
            }
        },
    }
}

/// Framing of envelopes: an empty one is refused as empty, one of two or more
/// elements as multiplexed, one that holds an envelope as nested, and one that
/// holds exactly one message yields that message.
pub proof fn lemma_framing(elements: Seq<WireElementView>)
    ensures
        elements.len() == 0 ==> framed(WirePacketView::Envelope(elements)) == Err::<FramedView, _>(
            FrameError::EmptyEnvelope,
        ),
        elements.len() >= 2 ==> framed(WirePacketView::Envelope(elements)) == Err::<FramedView, _>(
            FrameError::MultiplexedEnvelope,
        ),
        elements.len() == 1 && elements[0] is Envelope ==> framed(
            WirePacketView::Envelope(elements),
        ) == Err::<FramedView, _>(FrameError::NestedEnvelope),
        elements.len() == 1 && elements[0] is Message ==> framed(WirePacketView::Envelope(elements))
            == Ok::<_, FrameError>(
            FramedView { message: elements[0]->Message_0, enveloped: true },
        ),
{
}

} // verus!
