//! Commands, the typed messages that a host sends to a device, and their
//! wire form.

use vstd::prelude::*;
use vstd::string::*;
use crate::operation::Operation;
use crate::wire::{all_integers, arguments, arguments_of, integers, integers_of,
    lemma_integers_of_arguments, WireArg, WireMessage, WireMessageView};

verus! {

/// Why a wire message stands for no typed message.
#[derive(Clone, Debug, PartialEq, Eq)]
pub enum MessageError {
    /// The address is not in the table of operations.
    InvalidAddr(String),
    /// An argument is not an integer, or the operation takes more arguments
    /// than the message has.
    InvalidArgs,
}

/// The mathematical content of a [`MessageError`].
pub enum MessageErrorView {
    InvalidAddr(Seq<char>),
    InvalidArgs,
}

impl View for MessageError {
    type V = MessageErrorView;

    open spec fn view(&self) -> MessageErrorView {
        match self {
            MessageError::InvalidAddr(addr) => MessageErrorView::InvalidAddr(addr@),
            MessageError::InvalidArgs => MessageErrorView::InvalidArgs,
        }
    }
}

impl MessageError {
    /// The text of this error.
    pub open spec fn text(self) -> Seq<char> {
        match self {
            MessageError::InvalidAddr(addr) => "Invalid address `"@ + addr@ + "`"@,
            MessageError::InvalidArgs => "Invalid arguments"@,
        }
    }

    /// A description of this error for people to read.
    pub fn message(&self) -> (text: String)
        ensures
            text@ == self.text(),
    {
        match self {
            MessageError::InvalidAddr(addr) => {
                let mut text = String::from_str("Invalid address `");
                text.append(addr.as_str());
                text.append("`");
                text
            },
            MessageError::InvalidArgs => String::from_str("Invalid arguments"),
        }
    }
}

/// What a wire message says: the operation its address names and its integer
/// operands, of which there are at least as many as the operation takes.
///
/// The address is looked up first, so a message with an unknown address is
/// reported as such whatever its arguments are. Under a known address every
/// argument must be an integer, also those beyond the operation's arity, which
/// are otherwise ignored.
pub open spec fn operation_read(envelope: WireMessageView) -> Result<
    (Operation, Seq<i32>),
    MessageErrorView,
> {
    match Operation::lookup(envelope.addr) {
        None => Err(MessageErrorView::InvalidAddr(envelope.addr)),
        Some(operation) => match integers_of(envelope.args) {
            None => Err(MessageErrorView::InvalidArgs),
            Some(values) => if values.len() >= operation.arity() {
                Ok((operation, values))
            } else {
                Err(MessageErrorView::InvalidArgs)
            },
        },
    }
}

/// The wire message for an operation and its operands: the operation's
/// address, and one integer argument per operand, in order.
pub open spec fn operation_written(operation: Operation, operands: Seq<i32>) -> WireMessageView {
    WireMessageView { addr: operation.tag(), args: arguments_of(operands) }
}

/// Reads the operation and the integer operands off a wire message.
pub fn read_operation(envelope: WireMessage) -> (read: Result<(Operation, Vec<i32>), MessageError>)
    ensures
        match read {
            Ok((operation, values)) => operation_read(envelope@) == Ok::<_, MessageErrorView>(
                (operation, values@),
            ),
            Err(error) => operation_read(envelope@) == Err::<(Operation, Seq<i32>), _>(error@),
        },
{
    let WireMessage { addr, args } = envelope;
    match Operation::from_address(addr.as_str()) {
        None => Err(MessageError::InvalidAddr(addr)),
        Some(operation) => match integers(&args) {
            None => Err(MessageError::InvalidArgs),
            Some(values) => if values.len() >= operation.operand_count() {
                Ok((operation, values))
            } else {
                Err(MessageError::InvalidArgs)
            },
        },
    }
}

/// Writes the wire message for an operation and its operands.
pub fn write_operation(operation: Operation, operands: &Vec<i32>) -> (envelope: WireMessage)
    ensures
        envelope@ == operation_written(operation, operands@),
{
    WireMessage { addr: operation.address().to_owned(), args: arguments(operands) }
}

/// What is written for an operation with enough operands is read back as that
/// operation with those operands.
pub proof fn lemma_read_written(operation: Operation, operands: Seq<i32>)
    requires
        operands.len() >= operation.arity(),
    ensures
        operation_read(operation_written(operation, operands)) == Ok::<_, MessageErrorView>(
            (operation, operands),
        ),
{
    operation.lemma_lookup_tag();
    lemma_integers_of_arguments(operands);
}

/// Unknown addresses: a wire message is reported as having an invalid address,
/// and then with that address, exactly when its address is not in the table.
pub proof fn lemma_read_unknown_address(envelope: WireMessageView)
    ensures
        Operation::lookup(envelope.addr) is None <==> operation_read(envelope)
            == Err::<(Operation, Seq<i32>), _>(MessageErrorView::InvalidAddr(envelope.addr)),
        Operation::lookup(envelope.addr) is Some ==> !(operation_read(envelope) matches Err(
            MessageErrorView::InvalidAddr(_),
        )),
{
}

/// Arity: under the address of an operation, a wire message is read exactly
/// when all its arguments are integers and there are at least as many as the
/// operation takes; otherwise its arguments are reported as invalid.
pub proof fn lemma_read_arity(operation: Operation, args: Seq<WireArg>)
    ensures
        all_integers(args) && args.len() >= operation.arity() ==> operation_read(
            WireMessageView { addr: operation.tag(), args },
        ) == Ok::<_, MessageErrorView>((operation, integers_of(args)->Some_0)),
        !all_integers(args) || args.len() < operation.arity() ==> operation_read(
            WireMessageView { addr: operation.tag(), args },
        ) == Err::<(Operation, Seq<i32>), _>(MessageErrorView::InvalidArgs),
{
    operation.lemma_lookup_tag();
}

/// A command from the host to the device: an operation together with its
/// operands. The operands are not range-checked here.
#[derive(Clone, Copy, Debug, PartialEq, Eq, Structural)]
pub enum Message {
    InitZero(i32, i32),
    X(i32, i32),
    Y(i32, i32),
    Z(i32, i32),
    H(i32, i32),
    S(i32, i32),
    Sdg(i32, i32),
    T(i32, i32),
    Tdg(i32, i32),
    CX(i32, i32, i32, i32),
    Mz(i32, i32),
}

impl Message {
    /// The operation this command asks for.
    pub open spec fn spec_operation(&self) -> Operation {
        match *self {
            Message::InitZero(..) => Operation::InitZero,
            Message::X(..) => Operation::X,
            Message::Y(..) => Operation::Y,
            Message::Z(..) => Operation::Z,
            Message::H(..) => Operation::H,
            Message::S(..) => Operation::S,
            Message::Sdg(..) => Operation::Sdg,
            Message::T(..) => Operation::T,
            Message::Tdg(..) => Operation::Tdg,
            Message::CX(..) => Operation::CX,
            Message::Mz(..) => Operation::Mz,
        }
    }

    /// The operands of this command, in declared order.
    pub open spec fn spec_operands(&self) -> Seq<i32> {
        match *self {
            Message::InitZero(a, b) => seq![a, b],
            Message::X(a, b) => seq![a, b],
            Message::Y(a, b) => seq![a, b],
            Message::Z(a, b) => seq![a, b],
            Message::H(a, b) => seq![a, b],
            Message::S(a, b) => seq![a, b],
            Message::Sdg(a, b) => seq![a, b],
            Message::T(a, b) => seq![a, b],
            Message::Tdg(a, b) => seq![a, b],
            Message::CX(a, b, c, d) => seq![a, b, c, d],
            Message::Mz(a, b) => seq![a, b],
        }
    }

    /// The command for `operation` whose operands are the leading `values`.
    pub open spec fn assembled(operation: Operation, values: Seq<i32>) -> Message
        recommends
            values.len() >= operation.arity(),
    {
        match operation {
            Operation::InitZero => Message::InitZero(values[0], values[1]),
            Operation::X => Message::X(values[0], values[1]),
            Operation::Y => Message::Y(values[0], values[1]),
            Operation::Z => Message::Z(values[0], values[1]),
            Operation::H => Message::H(values[0], values[1]),
            Operation::S => Message::S(values[0], values[1]),
            Operation::Sdg => Message::Sdg(values[0], values[1]),
            Operation::T => Message::T(values[0], values[1]),
            Operation::Tdg => Message::Tdg(values[0], values[1]),
            Operation::CX => Message::CX(values[0], values[1], values[2], values[3]),
            Operation::Mz => Message::Mz(values[0], values[1]),
        }
    }

    /// The command that a wire message stands for, or why it stands for none.
    pub open spec fn decoded(envelope: WireMessageView) -> Result<Message, MessageErrorView> {
        match operation_read(envelope) {
            Ok((operation, values)) => Ok(Message::assembled(operation, values)),
            Err(error) => Err(error),
        }
    }

    /// The wire message that stands for this command.
    pub open spec fn encoded(&self) -> WireMessageView {
        operation_written(self.spec_operation(), self.spec_operands())
    }

    /// The operation this command asks for.
    #[verifier::when_used_as_spec(spec_operation)]
    pub fn operation(&self) -> (operation: Operation)
        ensures
            operation == self.spec_operation(),
    {
        match self {
            Message::InitZero(..) => Operation::InitZero,
            Message::X(..) => Operation::X,
            Message::Y(..) => Operation::Y,
            Message::Z(..) => Operation::Z,
            Message::H(..) => Operation::H,
            Message::S(..) => Operation::S,
            Message::Sdg(..) => Operation::Sdg,
            Message::T(..) => Operation::T,
            Message::Tdg(..) => Operation::Tdg,
            Message::CX(..) => Operation::CX,
            Message::Mz(..) => Operation::Mz,
        }
    }

    /// The operands of this command, in declared order.
    pub fn operands(&self) -> (operands: Vec<i32>)
        ensures
            operands@ == self.spec_operands(),
    {
        let mut operands: Vec<i32> = Vec::new();
        match *self {
            Message::InitZero(a, b)
            | Message::X(a, b)
            | Message::Y(a, b)
            | Message::Z(a, b)
            | Message::H(a, b)
            | Message::S(a, b)
            | Message::Sdg(a, b)
            | Message::T(a, b)
            | Message::Tdg(a, b)
            | Message::Mz(a, b) => {
                operands.push(a);
                operands.push(b);
            },
            Message::CX(a, b, c, d) => {
                operands.push(a);
                operands.push(b);
                operands.push(c);
                operands.push(d);
            },
        }
        assert(operands@ =~= self.spec_operands());
        operands
    }

    /// Builds the command for `operation` from the leading `values`.
    pub fn assemble(operation: Operation, values: &Vec<i32>) -> (message: Message)
        requires
            values.len() >= operation.arity(),
        ensures
            message == Message::assembled(operation, values@),
    {
        match operation {
            Operation::InitZero => Message::InitZero(values[0], values[1]),
            Operation::X => Message::X(values[0], values[1]),
            Operation::Y => Message::Y(values[0], values[1]),
            Operation::Z => Message::Z(values[0], values[1]),
            Operation::H => Message::H(values[0], values[1]),
            Operation::S => Message::S(values[0], values[1]),
            Operation::Sdg => Message::Sdg(values[0], values[1]),
            Operation::T => Message::T(values[0], values[1]),
            Operation::Tdg => Message::Tdg(values[0], values[1]),
            Operation::CX => Message::CX(values[0], values[1], values[2], values[3]),
            Operation::Mz => Message::Mz(values[0], values[1]),
        }
    }

    /// Translates a wire message into the command it stands for.
    ///
    /// Fails with `InvalidAddr`, carrying the address, if the address is not
    /// in the table of operations; with `InvalidArgs` if it is, but some
    /// argument is not an integer or there are fewer arguments than the
    /// operation takes. Arguments beyond those are ignored.
    pub fn decode(envelope: WireMessage) -> (translated: Result<Message, MessageError>)
        ensures
            match translated {
                Ok(message) => Message::decoded(envelope@) == Ok::<_, MessageErrorView>(message),
                Err(error) => Message::decoded(envelope@) == Err::<Message, _>(error@),
            },
    {
        match read_operation(envelope) {
            Ok((operation, values)) => Ok(Message::assemble(operation, &values)),
            Err(error) => Err(error),
        }
    }

    /// Translates this command into its wire message: the address of its
    /// operation and its operands as integer arguments. Always succeeds.
    pub fn encode(&self) -> (envelope: WireMessage)
        ensures
            envelope@ == self.encoded(),
    {
        write_operation(self.operation(), &self.operands())
    }

    /// A command has exactly as many operands as its operation takes, and is
    /// assembled again from its operation and operands.
    pub proof fn lemma_shape(self)
        ensures
            self.spec_operands().len() == self.spec_operation().arity(),
            Message::assembled(self.spec_operation(), self.spec_operands()) == self,
    {
    }

    /// Arity of the controlled operation: under its address, fewer than four
    /// integer arguments are refused as invalid arguments, and exactly four
    /// are accepted whatever their sign or magnitude.
    pub proof fn lemma_controlled_arity(values: Seq<i32>)
        ensures
            values.len() < 4 ==> Message::decoded(operation_written(Operation::CX, values))
                == Err::<Message, _>(MessageErrorView::InvalidArgs),
            values.len() == 4 ==> Message::decoded(operation_written(Operation::CX, values))
                == Ok::<_, MessageErrorView>(
                Message::CX(values[0], values[1], values[2], values[3]),
            ),
    {
        lemma_integers_of_arguments(values);
        lemma_read_arity(Operation::CX, arguments_of(values));
    }

    /// Unknown addresses: decoding fails with the invalid address exactly when
    /// the address is not in the table, and never so for an address that is.
    pub proof fn lemma_unknown_address(envelope: WireMessageView)
        ensures
            Operation::lookup(envelope.addr) is None <==> Message::decoded(envelope) == Err::<
                Message,
                _,
            >(MessageErrorView::InvalidAddr(envelope.addr)),
            Operation::lookup(envelope.addr) is Some ==> !(Message::decoded(envelope) matches Err(
                MessageErrorView::InvalidAddr(_),
            )),
    {
        lemma_read_unknown_address(envelope);
    }

    /// Round trip: decoding the encoding of a command gives the command back.
    pub proof fn lemma_round_trip(self)
        ensures
            Message::decoded(self.encoded()) == Ok::<_, MessageErrorView>(self),
    {
        self.lemma_shape();
        lemma_read_written(self.spec_operation(), self.spec_operands());
    }
}

} // verus!
