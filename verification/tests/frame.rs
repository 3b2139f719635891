use osc_relay::frame::{unwrap_packet, FrameError, Framed};
use osc_relay::wire::{WireArg, WireElement, WireMessage, WirePacket};

fn hadamard() -> WireMessage {
    WireMessage { addr: "/H".to_owned(), args: vec![WireArg::Int(0), WireArg::Int(0)] }
}

fn pauli() -> WireMessage {
    WireMessage { addr: "/X".to_owned(), args: vec![WireArg::Int(1), WireArg::Int(2)] }
}

#[test]
fn empty_envelope_fails() {
    assert_eq!(unwrap_packet(WirePacket::Envelope(vec![])), Err(FrameError::EmptyEnvelope));
}

#[test]
fn envelope_of_two_messages_fails() {
    let packet = WirePacket::Envelope(vec![
        WireElement::Message(hadamard()),
        WireElement::Message(pauli()),
    ]);
    assert_eq!(unwrap_packet(packet), Err(FrameError::MultiplexedEnvelope));
}

#[test]
fn envelope_of_three_elements_fails() {
    let packet = WirePacket::Envelope(vec![
        WireElement::Message(hadamard()),
        WireElement::Envelope,
        WireElement::Message(pauli()),
    ]);
    assert_eq!(unwrap_packet(packet), Err(FrameError::MultiplexedEnvelope));
}

#[test]
fn nested_envelope_fails() {
    let packet = WirePacket::Envelope(vec![WireElement::Envelope]);
    assert_eq!(unwrap_packet(packet), Err(FrameError::NestedEnvelope));
}

#[test]
fn several_nested_envelopes_are_multiplexed() {
    let packet = WirePacket::Envelope(vec![WireElement::Envelope, WireElement::Envelope]);
    assert_eq!(unwrap_packet(packet), Err(FrameError::MultiplexedEnvelope));
}

#[test]
fn envelope_of_one_message_succeeds() {
    let packet = WirePacket::Envelope(vec![WireElement::Message(hadamard())]);
    assert_eq!(unwrap_packet(packet), Ok(Framed { message: hadamard(), enveloped: true }));
}

#[test]
fn bare_message_is_accepted_and_flagged() {
    let packet = WirePacket::Message(pauli());
    assert_eq!(unwrap_packet(packet), Ok(Framed { message: pauli(), enveloped: false }));
}
