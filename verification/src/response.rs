//! Responses, the typed messages that a device sends back to a host, and
//! their wire form.

use vstd::prelude::*;
use crate::message::{lemma_read_arity, lemma_read_unknown_address, lemma_read_written,
    operation_read, operation_written, read_operation, write_operation, MessageError,
    MessageErrorView};
use crate::operation::Operation;
use crate::wire::{arguments_of, lemma_integers_of_arguments, WireMessage, WireMessageView};

verus! {

/// A response from the device to the host: an operation together with its
/// operands. It has the shapes of a response but is a type of its own, so that
/// the two directions of the relay cannot be confused. The operands are not
/// range-checked here.
#[derive(Clone, Copy, Debug, PartialEq, Eq, Structural)]
pub enum Response {
    InitZero(i32, i32),
    X(i32, i32),
    Y(i32, i32),
    Z(i32, i32),
    H(i32, i32),
    S(i32, i32),
    Sdg(i32, i32),
    T(i32, i32),
    Tdg(i32, i32),
    CX(i32, i32, i32, i32),
    Mz(i32, i32),
}

impl Response {
    /// The operation this response asks for.
    pub open spec fn spec_operation(&self) -> Operation {
        match *self {
            Response::InitZero(..) => Operation::InitZero,
            Response::X(..) => Operation::X,
            Response::Y(..) => Operation::Y,
            Response::Z(..) => Operation::Z,
            Response::H(..) => Operation::H,
            Response::S(..) => Operation::S,
            Response::Sdg(..) => Operation::Sdg,
            Response::T(..) => Operation::T,
            Response::Tdg(..) => Operation::Tdg,
            Response::CX(..) => Operation::CX,
            Response::Mz(..) => Operation::Mz,
        }
    }

    /// The operands of this response, in declared order.
    pub open spec fn spec_operands(&self) -> Seq<i32> {
        match *self {
            Response::InitZero(a, b) => seq![a, b],
            Response::X(a, b) => seq![a, b],
            Response::Y(a, b) => seq![a, b],
            Response::Z(a, b) => seq![a, b],
            Response::H(a, b) => seq![a, b],
            Response::S(a, b) => seq![a, b],
            Response::Sdg(a, b) => seq![a, b],
            Response::T(a, b) => seq![a, b],
            Response::Tdg(a, b) => seq![a, b],
            Response::CX(a, b, c, d) => seq![a, b, c, d],
            Response::Mz(a, b) => seq![a, b],
        }
    }

    /// The response for `operation` whose operands are the leading `values`.
    pub open spec fn assembled(operation: Operation, values: Seq<i32>) -> Response
        recommends
            values.len() >= operation.arity(),
    {
        match operation {
            Operation::InitZero => Response::InitZero(values[0], values[1]),
            Operation::X => Response::X(values[0], values[1]),
            Operation::Y => Response::Y(values[0], values[1]),
            Operation::Z => Response::Z(values[0], values[1]),
            Operation::H => Response::H(values[0], values[1]),
            Operation::S => Response::S(values[0], values[1]),
            Operation::Sdg => Response::Sdg(values[0], values[1]),
            Operation::T => Response::T(values[0], values[1]),
            Operation::Tdg => Response::Tdg(values[0], values[1]),
            Operation::CX => Response::CX(values[0], values[1], values[2], values[3]),
            Operation::Mz => Response::Mz(values[0], values[1]),
        }
    }

    /// The response that a wire message stands for, or why it stands for none.
    pub open spec fn decoded(envelope: WireMessageView) -> Result<Response, MessageErrorView> {
        match operation_read(envelope) {
            Ok((operation, values)) => Ok(Response::assembled(operation, values)),
            Err(error) => Err(error),
        }
    }

    /// The wire message that stands for this response.
    pub open spec fn encoded(&self) -> WireMessageView {
        operation_written(self.spec_operation(), self.spec_operands())
    }

    /// The operation this response asks for.
    #[verifier::when_used_as_spec(spec_operation)]
    pub fn operation(&self) -> (operation: Operation)
        ensures
            operation == self.spec_operation(),
    {
        match self {
            Response::InitZero(..) => Operation::InitZero,
            Response::X(..) => Operation::X,
            Response::Y(..) => Operation::Y,
            Response::Z(..) => Operation::Z,
            Response::H(..) => Operation::H,
            Response::S(..) => Operation::S,
            Response::Sdg(..) => Operation::Sdg,
            Response::T(..) => Operation::T,
            Response::Tdg(..) => Operation::Tdg,
            Response::CX(..) => Operation::CX,
            Response::Mz(..) => Operation::Mz,
        }
    }

    /// The operands of this response, in declared order.
    pub fn operands(&self) -> (operands: Vec<i32>)
        ensures
            operands@ == self.spec_operands(),
    {
        let mut operands: Vec<i32> = Vec::new();
        match *self {
            Response::InitZero(a, b)
            | Response::X(a, b)
            | Response::Y(a, b)
            | Response::Z(a, b)
            | Response::H(a, b)
            | Response::S(a, b)
            | Response::Sdg(a, b)
            | Response::T(a, b)
            | Response::Tdg(a, b)
            | Response::Mz(a, b) => {
                operands.push(a);
                operands.push(b);
            },
            Response::CX(a, b, c, d) => {
                operands.push(a);
                operands.push(b);
                operands.push(c);
                operands.push(d);
            },
        }
        assert(operands@ =~= self.spec_operands());
        operands
    }

    /// Builds the response for `operation` from the leading `values`.
    pub fn assemble(operation: Operation, values: &Vec<i32>) -> (response: Response)
        requires
            values.len() >= operation.arity(),
        ensures
            response == Response::assembled(operation, values@),
    {
        match operation {
            Operation::InitZero => Response::InitZero(values[0], values[1]),
            Operation::X => Response::X(values[0], values[1]),
            Operation::Y => Response::Y(values[0], values[1]),
            Operation::Z => Response::Z(values[0], values[1]),
            Operation::H => Response::H(values[0], values[1]),
            Operation::S => Response::S(values[0], values[1]),
            Operation::Sdg => Response::Sdg(values[0], values[1]),
            Operation::T => Response::T(values[0], values[1]),
            Operation::Tdg => Response::Tdg(values[0], values[1]),
            Operation::CX => Response::CX(values[0], values[1], values[2], values[3]),
            Operation::Mz => Response::Mz(values[0], values[1]),
        }
    }

    /// Translates a wire message into the response it stands for.
    ///
    /// Fails with `InvalidAddr`, carrying the address, if the address is not
    /// in the table of operations; with `InvalidArgs` if it is, but some
    /// argument is not an integer or there are fewer arguments than the
    /// operation takes. Arguments beyond those are ignored.
    pub fn decode(envelope: WireMessage) -> (translated: Result<Response, MessageError>)
        ensures
            match translated {
                Ok(response) => Response::decoded(envelope@) == Ok::<_, MessageErrorView>(response),
                Err(error) => Response::decoded(envelope@) == Err::<Response, _>(error@),
            },
    {
        match read_operation(envelope) {
            Ok((operation, values)) => Ok(Response::assemble(operation, &values)),
            Err(error) => Err(error),
        }
    }

    /// Translates this response into its wire message: the address of its
    /// operation and its operands as integer arguments. Always succeeds.
    pub fn encode(&self) -> (envelope: WireMessage)
        ensures
            envelope@ == self.encoded(),
    {
        write_operation(self.operation(), &self.operands())
    }

    /// A response has exactly as many operands as its operation takes, and is
    /// assembled again from its operation and operands.
    pub proof fn lemma_shape(self)
        ensures
            self.spec_operands().len() == self.spec_operation().arity(),
            Response::assembled(self.spec_operation(), self.spec_operands()) == self,
    {
    }

    /// Arity of the controlled operation: under its address, fewer than four
    /// integer arguments are refused as invalid arguments, and exactly four
    /// are accepted whatever their sign or magnitude.
    pub proof fn lemma_controlled_arity(values: Seq<i32>)
        ensures
            values.len() < 4 ==> Response::decoded(operation_written(Operation::CX, values))
                == Err::<Response, _>(MessageErrorView::InvalidArgs),
            values.len() == 4 ==> Response::decoded(operation_written(Operation::CX, values))
                == Ok::<_, MessageErrorView>(
                Response::CX(values[0], values[1], values[2], values[3]),
            ),
    {
        lemma_integers_of_arguments(values);
        lemma_read_arity(Operation::CX, arguments_of(values));
    }

    /// Unknown addresses: decoding fails with the invalid address exactly when
    /// the address is not in the table, and never so for an address that is.
    pub proof fn lemma_unknown_address(envelope: WireMessageView)
        ensures
            Operation::lookup(envelope.addr) is None <==> Response::decoded(envelope) == Err::<
                Response,
                _,
            >(MessageErrorView::InvalidAddr(envelope.addr)),
            Operation::lookup(envelope.addr) is Some ==> !(Response::decoded(envelope) matches Err(
                MessageErrorView::InvalidAddr(_),
            )),
    {
        lemma_read_unknown_address(envelope);
    }

    /// Round trip: decoding the encoding of a response gives the response back.
    pub proof fn lemma_round_trip(self)
        ensures
            Response::decoded(self.encoded()) == Ok::<_, MessageErrorView>(self),
    {
        self.lemma_shape();
        lemma_read_written(self.spec_operation(), self.spec_operands());
    }
}

} // verus!
