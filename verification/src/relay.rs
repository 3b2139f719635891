//! The relay itself: what the receive loops and the send loops decide for each
//! datagram and each queued message, which events end a loop, and how the
//! first ending of a loop ends the relay.
//!
//! Nothing here waits or touches a socket. A loop of the embedding program
//! receives a datagram or pops the queue, asks this module what to do, and
//! does it.

use vstd::prelude::*;
use crate::frame::{framed, unwrap_packet, FrameError};
use crate::message::{Message, MessageError, MessageErrorView};
use crate::queue::{Popped, QueueView, RelayQueue};
use crate::response::Response;
use crate::wire::{decode_datagram, encode_envelope, integers, integers_of, osc_decoded,
    osc_encoded, WireMessage, WireMessageView, WirePacket, WirePacketView};

verus! {

/// Capacity of the queue of commands, from the host to the device.
pub const HOST_QUEUE_LEN: usize = 100;

/// Capacity of the queue of responses, from the device to the host.
pub const DEVICE_QUEUE_LEN: usize = 100;

/// Size of the buffer that a datagram is received into.
pub const OSC_BUF_LEN: usize = 1000;

/// Seconds of the time tag on every envelope the relay sends.
pub const TIMETAG_SECONDS: u32 = 0;

/// Fraction of the time tag on every envelope the relay sends.
pub const TIMETAG_FRACTIONAL: u32 = 0;

/// Why a datagram was dropped. None of these ends a loop.
#[derive(Clone, Debug, PartialEq, Eq)]
pub enum Rejection {
    /// The bytes are not a wire packet.
    Malformed,
    /// The packet does not hold exactly one message.
    Unframed(FrameError),
    /// The message stands for no command or response.
    Untranslated(MessageError),
}

/// The mathematical content of a [`Rejection`].
pub enum RejectionView {
    Malformed,
    Unframed(FrameError),
    Untranslated(MessageErrorView),
}

impl View for Rejection {
    type V = RejectionView;

    open spec fn view(&self) -> RejectionView {
        match self {
            Rejection::Malformed => RejectionView::Malformed,
            Rejection::Unframed(error) => RejectionView::Unframed(*error),
            Rejection::Untranslated(error) => RejectionView::Untranslated(error@),
        }
    }
}

/// A condition that ends the loop it occurs in, and with it the relay.
#[derive(Clone, Copy, Debug, PartialEq, Eq, Structural)]
pub enum Fault {
    /// An endpoint could not be bound, or receiving or sending on it failed.
    Transport,
    /// A push met a closed queue.
    QueueClosed,
    /// A message could not be written as wire bytes.
    Encoding,
}

/// A typed message read from a datagram, and whether it came in an envelope.
/// One that did not is relayed all the same, but deserves a warning.
#[derive(Clone, Copy, Debug, PartialEq, Eq)]
pub struct Inbound<M> {
    pub message: M,
    pub enveloped: bool,
}

/// The command that a packet carries, or why the packet is dropped: framing is
/// checked first, then the one message is translated.
pub open spec fn command_of(packet: WirePacketView) -> Result<Inbound<Message>, RejectionView> {
    match framed(packet) {
        Err(error) => Err(RejectionView::Unframed(error)),
        Ok(found) => match Message::decoded(found.message) {
            Err(error) => Err(RejectionView::Untranslated(error)),
            Ok(message) => Ok(Inbound { message, enveloped: found.enveloped }),
        },
    }
}

/// The response that a packet carries, or why the packet is dropped.
pub open spec fn response_of(packet: WirePacketView) -> Result<Inbound<Response>, RejectionView> {
    match framed(packet) {
        Err(error) => Err(RejectionView::Unframed(error)),
        Ok(found) => match Response::decoded(found.message) {
            Err(error) => Err(RejectionView::Untranslated(error)),
            Ok(message) => Ok(Inbound { message, enveloped: found.enveloped }),
        },
    }
}

/// The command that a datagram carries, or why the datagram is dropped.
pub open spec fn command_received(datagram: Seq<u8>) -> Result<Inbound<Message>, RejectionView> {
    match osc_decoded(datagram) {
        None => Err(RejectionView::Malformed),
        Some(packet) => command_of(packet),
    }
}

/// The response that a datagram carries, or why the datagram is dropped.
pub open spec fn response_received(datagram: Seq<u8>) -> Result<Inbound<Response>, RejectionView> {
    match osc_decoded(datagram) {
        None => Err(RejectionView::Malformed),
        Some(packet) => response_of(packet),
    }
}

/// Validates the framing of a decoded packet and translates its one message
/// into a command.
pub fn accept_command(packet: WirePacket) -> (accepted: Result<Inbound<Message>, Rejection>)
    ensures
        match accepted {
            Ok(inbound) => command_of(packet@) == Ok::<_, RejectionView>(inbound),
            Err(rejection) => command_of(packet@) == Err::<Inbound<Message>, _>(rejection@),
        },
{
    match unwrap_packet(packet) {
        Err(error) => Err(Rejection::Unframed(error)),
        Ok(found) => {
            let enveloped = found.enveloped;
            match Message::decode(found.message) {
                Err(error) => Err(Rejection::Untranslated(error)),
                Ok(message) => Ok(Inbound { message, enveloped }),
            }
        },
    }
}

/// Validates the framing of a decoded packet and translates its one message
/// into a response.
pub fn accept_response(packet: WirePacket) -> (accepted: Result<Inbound<Response>, Rejection>)
    ensures
        match accepted {
            Ok(inbound) => response_of(packet@) == Ok::<_, RejectionView>(inbound),
            Err(rejection) => response_of(packet@) == Err::<Inbound<Response>, _>(rejection@),
        },
{
    match unwrap_packet(packet) {
        Err(error) => Err(Rejection::Unframed(error)),
        Ok(found) => {
            let enveloped = found.enveloped;
            match Response::decode(found.message) {
                Err(error) => Err(Rejection::Untranslated(error)),
                Ok(message) => Ok(Inbound { message, enveloped }),
            }
        },
    }
}

/// One turn of the loop that receives from the host: decodes a datagram,
/// validates its framing and translates it into the command to queue.
///
/// Whatever the bytes are, the answer is a command or a reason to drop the
/// datagram, never a fault.
pub fn receive_command(datagram: &[u8]) -> (received: Result<Inbound<Message>, Rejection>)
    ensures
        match received {
            Ok(inbound) => command_received(datagram@) == Ok::<_, RejectionView>(inbound),
            Err(rejection) => command_received(datagram@) == Err::<Inbound<Message>, _>(
                rejection@,
            ),
        },
{
    match decode_datagram(datagram) {
        Err(_) => Err(Rejection::Malformed),
        Ok(packet) => accept_command(packet),
    }
}

/// One turn of the loop that receives from the device: decodes a datagram,
/// validates its framing and translates it into the response to queue.
pub fn receive_response(datagram: &[u8]) -> (received: Result<Inbound<Response>, Rejection>)
    ensures
        match received {
            Ok(inbound) => response_received(datagram@) == Ok::<_, RejectionView>(inbound),
            Err(rejection) => response_received(datagram@) == Err::<Inbound<Response>, _>(
                rejection@,
            ),
        },
{
    match decode_datagram(datagram) {
        Err(_) => Err(Rejection::Malformed),
        Ok(packet) => accept_response(packet),
    }
}

/// The wire bytes of the canonical envelope around a message: an envelope
/// with the relay's time tag that holds the message and nothing else. There
/// are none if an argument of the message is not an integer, or if the codec
/// refuses.
pub open spec fn envelope_bytes(message: WireMessageView) -> Option<Seq<u8>> {
    match integers_of(message.args) {
        None => None,
        Some(values) => osc_encoded(TIMETAG_SECONDS, TIMETAG_FRACTIONAL, message.addr, values),
    }
}

/// Wraps a message in the canonical envelope and serialises it.
pub fn seal(message: &WireMessage) -> (sealed: Result<Vec<u8>, Fault>)
    ensures
        match sealed {
            Ok(bytes) => envelope_bytes(message@) == Some(bytes@),
            Err(fault) => fault == Fault::Encoding && envelope_bytes(message@) is None,
        },
{
    match integers(&message.args) {
        None => Err(Fault::Encoding),
        Some(values) => match encode_envelope(
            TIMETAG_SECONDS,
            TIMETAG_FRACTIONAL,
            message.addr.as_str(),
            values.as_slice(),
        ) {
            Ok(bytes) => Ok(bytes),
            Err(_) => Err(Fault::Encoding),
        },
    }
}

/// What a send loop does next.
#[derive(Clone, Debug, PartialEq, Eq)]
pub enum SendAction {
    /// Transmit these bytes, then pop again.
    Transmit(Vec<u8>),
    /// The queue is empty: wait for a push, then pop again.
    Wait,
    /// The queue was closed and is drained: end the loop. This is the regular
    /// way to shut down, not an error.
    Finish,
    /// End the loop with this fault.
    Abort(Fault),
}

/// The mathematical content of a [`SendAction`].
pub enum SendActionView {
    Transmit(Seq<u8>),
    Wait,
    Finish,
    Abort(Fault),
}

impl View for SendAction {
    type V = SendActionView;

    open spec fn view(&self) -> SendActionView {
        match self {
            SendAction::Transmit(bytes) => SendActionView::Transmit(bytes@),
            SendAction::Wait => SendActionView::Wait,
            SendAction::Finish => SendActionView::Finish,
            SendAction::Abort(fault) => SendActionView::Abort(*fault),
        }
    }
}

/// What follows from the attempt to serialise a popped message.
pub open spec fn transmission(bytes: Option<Seq<u8>>) -> SendActionView {
    match bytes {
        Some(bytes) => SendActionView::Transmit(bytes),
        None => SendActionView::Abort(Fault::Encoding),
    }
}

/// What the loop that sends to the device does with what it popped.
pub open spec fn command_action(popped: Popped<Message>) -> SendActionView {
    match popped {
        Popped::Item(message) => transmission(envelope_bytes(message.encoded())),
        Popped::Empty => SendActionView::Wait,
        Popped::Closed => SendActionView::Finish,
    }
}

/// What the loop that sends to the host does with what it popped.
pub open spec fn response_action(popped: Popped<Response>) -> SendActionView {
    match popped {
        Popped::Item(response) => transmission(envelope_bytes(response.encoded())),
        Popped::Empty => SendActionView::Wait,
        Popped::Closed => SendActionView::Finish,
    }
}

/// One turn of the loop that sends to the device: encodes a popped command,
/// wraps it in the canonical envelope and hands out the bytes to transmit.
pub fn send_command(popped: Popped<Message>) -> (action: SendAction)
    ensures
        action@ == command_action(popped),
{
    match popped {
        Popped::Item(message) => match seal(&message.encode()) {
            Ok(bytes) => SendAction::Transmit(bytes),
            Err(fault) => SendAction::Abort(fault),
        },
        Popped::Empty => SendAction::Wait,
        Popped::Closed => SendAction::Finish,
    }
}

/// One turn of the loop that sends to the host: encodes a popped response,
/// wraps it in the canonical envelope and hands out the bytes to transmit.
pub fn send_response(popped: Popped<Response>) -> (action: SendAction)
    ensures
        action@ == response_action(popped),
{
    match popped {
        Popped::Item(response) => match seal(&response.encode()) {
            Ok(bytes) => SendAction::Transmit(bytes),
            Err(fault) => SendAction::Abort(fault),
        },
        Popped::Empty => SendAction::Wait,
        Popped::Closed => SendAction::Finish,
    }
}

/// The state of a receive loop.
#[derive(Clone, Copy, Debug, PartialEq, Eq, Structural)]
pub enum ReceiveState {
    AwaitingPacket,
    Terminated,
}

/// What happened in one turn of a receive loop.
#[derive(Clone, Debug, PartialEq, Eq)]
pub enum ReceiveEvent {
    /// A datagram was translated and its message queued.
    Relayed,
    /// A datagram was dropped.
    Dropped(Rejection),
    /// Receiving or queueing failed.
    Faulted(Fault),
}

impl ReceiveState {
    /// The state after an event: only a fault ends the loop, and an ended loop
    /// stays ended.
    pub open spec fn after(self, event: ReceiveEvent) -> ReceiveState {
        match (self, event) {
            (ReceiveState::AwaitingPacket, ReceiveEvent::Relayed) => ReceiveState::AwaitingPacket,
            (ReceiveState::AwaitingPacket, ReceiveEvent::Dropped(_)) => ReceiveState::AwaitingPacket,
            (ReceiveState::AwaitingPacket, ReceiveEvent::Faulted(_)) => ReceiveState::Terminated,
            (ReceiveState::Terminated, _) => ReceiveState::Terminated,
        }
    }

    /// The state after running through `events` in order.
    pub open spec fn after_all(self, events: Seq<ReceiveEvent>) -> ReceiveState
        decreases events.len(),
    {
        if events.len() == 0 {
            self
        } else {
            self.after_all(events.drop_last()).after(events.last())
        }
    }

    /// Moves the loop on by one event.
    pub fn step(self, event: &ReceiveEvent) -> (next: ReceiveState)
        ensures
            next == self.after(*event),
    {
        match self {
            ReceiveState::Terminated => ReceiveState::Terminated,
            ReceiveState::AwaitingPacket => match event {
                ReceiveEvent::Faulted(_) => ReceiveState::Terminated,
                _ => ReceiveState::AwaitingPacket,
            },
        }
    }

    /// Whether the loop has ended.
    pub fn is_terminated(&self) -> (ended: bool)
        ensures
            ended == (*self == ReceiveState::Terminated),
    {
        match self {
            ReceiveState::Terminated => true,
            ReceiveState::AwaitingPacket => false,
        }
    }

    /// Resilience: a receive loop that has seen no fault is still awaiting
    /// packets, however many datagrams it dropped on the way.
    pub proof fn lemma_resilient(events: Seq<ReceiveEvent>)
        requires
            forall|i: int| 0 <= i < events.len() ==> !((#[trigger] events[i]) is Faulted),
        ensures
            ReceiveState::AwaitingPacket.after_all(events) == ReceiveState::AwaitingPacket,
        decreases events.len(),
    {
        if events.len() > 0 {
            ReceiveState::lemma_resilient(events.drop_last());
        }
    }
}

/// One of the four loops of a relay.
#[derive(Clone, Copy, Debug, PartialEq, Eq, Structural)]
pub enum Unit {
    HostReceiver,
    DeviceSender,
    DeviceReceiver,
    HostSender,
}

/// How a loop ended.
#[derive(Clone, Copy, Debug, PartialEq, Eq, Structural)]
pub enum Exit {
    /// It finished in the regular way.
    Finished,
    /// It met a fault.
    Failed(Fault),
}

/// The ending of one loop.
#[derive(Clone, Copy, Debug, PartialEq, Eq, Structural)]
pub struct Termination {
    pub unit: Unit,
    pub exit: Exit,
}

/// The state of a relay after `reports` came in, in order: the first of them,
/// if there is any.
pub open spec fn first_of(reports: Seq<Termination>) -> Option<Termination> {
    if reports.len() == 0 {
        None
    } else {
        Some(reports.first())
    }
}

/// Watches over the four loops of a relay. The relay is up until the first
/// loop ends, in whatever way; that ending is the outcome of the relay, and
/// later ones change nothing.
#[derive(Clone, Copy, Debug, PartialEq, Eq)]
pub struct Supervisor {
    first: Option<Termination>,
}

impl View for Supervisor {
    type V = Option<Termination>;

    closed spec fn view(&self) -> Option<Termination> {
        self.first
    }
}

impl Supervisor {
    /// The outcome after one more report: the first report stays.
    pub open spec fn after(outcome: Option<Termination>, report: Termination) -> Option<
        Termination,
    > {
        match outcome {
            Some(first) => Some(first),
            None => Some(report),
        }
    }

    /// The outcome after `reports` came in, in order, on top of `outcome`.
    pub open spec fn after_all(outcome: Option<Termination>, reports: Seq<Termination>) -> Option<
        Termination,
    >
        decreases reports.len(),
    {
        if reports.len() == 0 {
            outcome
        } else {
            Supervisor::after(
                Supervisor::after_all(outcome, reports.drop_last()),
                reports.last(),
            )
        }
    }

    /// A supervisor of a relay whose loops all run.
    pub fn new() -> (supervisor: Supervisor)
        ensures
            supervisor@ is None,
    {
        Supervisor { first: None }
    }

    /// Takes note that a loop ended.
    pub fn report(&mut self, unit: Unit, exit: Exit)
        ensures
            final(self)@ == Supervisor::after(old(self)@, Termination { unit, exit }),
    {
        if self.first.is_none() {
            self.first = Some(Termination { unit, exit });
        }
    }

    /// The ending that brought the relay down, if it is down.
    pub fn outcome(&self) -> (outcome: Option<Termination>)
        ensures
            outcome == self@,
    {
        self.first
    }

    /// Whether all loops still run.
    pub fn is_running(&self) -> (running: bool)
        ensures
            running == (self@ is None),
    {
        self.first.is_none()
    }

    /// Fail fast: once any loops have ended, the outcome of the relay is the
    /// ending that was reported first.
    pub proof fn lemma_first_report_stays(reports: Seq<Termination>)
        ensures
            Supervisor::after_all(None, reports) == first_of(reports),
        decreases reports.len(),
    {
        if reports.len() > 0 {
            Supervisor::lemma_first_report_stays(reports.drop_last());
            if reports.len() > 1 {
                assert(reports.drop_last().first() == reports.first());
            }
        }
    }
}

/// The two queues of a relay, empty and open: the one for commands from the
/// host to the device, and the one for responses from the device to the host.
pub fn relay_queues() -> (queues: (RelayQueue<Message>, RelayQueue<Response>))
    ensures
        queues.0@ == QueueView::<Message>::empty(HOST_QUEUE_LEN as nat),
        queues.1@ == QueueView::<Response>::empty(DEVICE_QUEUE_LEN as nat),
{
    (RelayQueue::new(HOST_QUEUE_LEN), RelayQueue::new(DEVICE_QUEUE_LEN))
}

} // verus!
