//! The table of operations that the relay forwards: one row per operation,
//! giving its wire address and the number of integer operands it takes.

use vstd::prelude::*;
use crate::text::same_text;

verus! {

/// An operation of the protocol. Each one has a fixed wire address and a fixed
/// number of integer operands.
#[derive(Clone, Copy, Debug, PartialEq, Eq, Structural)]
pub enum Operation {
    /// Initialise to the zero state.
    InitZero,
    /// Pauli X.
    X,
    /// Pauli Y.
    Y,
    /// Pauli Z.
    Z,
    /// Hadamard.
    H,
    /// Phase gate.
    S,
    /// Adjoint of the phase gate.
    Sdg,
    /// T gate.
    T,
    /// Adjoint of the T gate.
    Tdg,
    /// Controlled X.
    CX,
    /// Measurement in the Z basis.
    Mz,
}

impl Operation {
    /// The wire address of this operation.
    pub open spec fn tag(self) -> Seq<char> {
        match self {
            Operation::InitZero => "/InitZero"@,
            Operation::X => "/X"@,
            Operation::Y => "/Y"@,
            Operation::Z => "/Z"@,
            Operation::H => "/H"@,
            Operation::S => "/S"@,
            Operation::Sdg => "/Sdg"@,
            Operation::T => "/T"@,
            Operation::Tdg => "/Tdg"@,
            Operation::CX => "/CX"@,
            Operation::Mz => "/Mz"@,
        }
    }

    /// The number of integer operands this operation takes.
    pub open spec fn arity(self) -> nat {
        match self {
            Operation::CX => 4,
            _ => 2,
        }
    }

    /// The operation whose wire address is exactly `addr`, if there is one.
    pub open spec fn lookup(addr: Seq<char>) -> Option<Operation> {
        if addr == Operation::InitZero.tag() {
            Some(Operation::InitZero)
        } else if addr == Operation::X.tag() {
            Some(Operation::X)
        } else if addr == Operation::Y.tag() {
            Some(Operation::Y)
        } else if addr == Operation::Z.tag() {
            Some(Operation::Z)
        } else if addr == Operation::H.tag() {
            Some(Operation::H)
        } else if addr == Operation::S.tag() {
            Some(Operation::S)
        } else if addr == Operation::Sdg.tag() {
            Some(Operation::Sdg)
        } else if addr == Operation::T.tag() {
            Some(Operation::T)
        } else if addr == Operation::Tdg.tag() {
            Some(Operation::Tdg)
        } else if addr == Operation::CX.tag() {
            Some(Operation::CX)
        } else if addr == Operation::Mz.tag() {
            Some(Operation::Mz)
        } else {
            None
        }
    }

    /// The wire address of this operation.
    pub fn address(self) -> (addr: &'static str)
        ensures
            addr@ == self.tag(),
    {
        match self {
            Operation::InitZero => "/InitZero",
            Operation::X => "/X",
            Operation::Y => "/Y",
            Operation::Z => "/Z",
            Operation::H => "/H",
            Operation::S => "/S",
            Operation::Sdg => "/Sdg",
            Operation::T => "/T",
            Operation::Tdg => "/Tdg",
            Operation::CX => "/CX",
            Operation::Mz => "/Mz",
        }
    }

    /// The number of integer operands this operation takes.
    pub fn operand_count(self) -> (count: usize)
        ensures
            count == self.arity(),
    {
        match self {
            Operation::CX => 4,
            _ => 2,
        }
    }

    /// Finds the operation with the given wire address. The match is exact:
    /// no prefix, pattern or case folding.
    pub fn from_address(addr: &str) -> (found: Option<Operation>)
        ensures
            found == Operation::lookup(addr@),
    {
        if same_text(addr, "/InitZero") {
            Some(Operation::InitZero)
        } else if same_text(addr, "/X") {
            Some(Operation::X)
        } else if same_text(addr, "/Y") {
            Some(Operation::Y)
        } else if same_text(addr, "/Z") {
            Some(Operation::Z)
        } else if same_text(addr, "/H") {
            Some(Operation::H)
        } else if same_text(addr, "/S") {
            Some(Operation::S)
        } else if same_text(addr, "/Sdg") {
            Some(Operation::Sdg)
        } else if same_text(addr, "/T") {
            Some(Operation::T)
        } else if same_text(addr, "/Tdg") {
            Some(Operation::Tdg)
        } else if same_text(addr, "/CX") {
            Some(Operation::CX)
        } else if same_text(addr, "/Mz") {
            Some(Operation::Mz)
        } else {
            None
        }
    }

    /// The characters of every address in the table.
    pub proof fn lemma_tags()
        ensures
            Operation::InitZero.tag() == seq!['/', 'I', 'n', 'i', 't', 'Z', 'e', 'r', 'o'],
            Operation::X.tag() == seq!['/', 'X'],
            Operation::Y.tag() == seq!['/', 'Y'],
            Operation::Z.tag() == seq!['/', 'Z'],
            Operation::H.tag() == seq!['/', 'H'],
            Operation::S.tag() == seq!['/', 'S'],
            Operation::Sdg.tag() == seq!['/', 'S', 'd', 'g'],
            Operation::T.tag() == seq!['/', 'T'],
            Operation::Tdg.tag() == seq!['/', 'T', 'd', 'g'],
            Operation::CX.tag() == seq!['/', 'C', 'X'],
            Operation::Mz.tag() == seq!['/', 'M', 'z'],
    {
        reveal_strlit("/InitZero");
        reveal_strlit("/X");
        reveal_strlit("/Y");
        reveal_strlit("/Z");
        reveal_strlit("/H");
        reveal_strlit("/S");
        reveal_strlit("/Sdg");
        reveal_strlit("/T");
        reveal_strlit("/Tdg");
        reveal_strlit("/CX");
        reveal_strlit("/Mz");
        assert(Operation::InitZero.tag() =~= seq!['/', 'I', 'n', 'i', 't', 'Z', 'e', 'r', 'o']);
        assert(Operation::X.tag() =~= seq!['/', 'X']);
        assert(Operation::Y.tag() =~= seq!['/', 'Y']);
        assert(Operation::Z.tag() =~= seq!['/', 'Z']);
        assert(Operation::H.tag() =~= seq!['/', 'H']);
        assert(Operation::S.tag() =~= seq!['/', 'S']);
        assert(Operation::Sdg.tag() =~= seq!['/', 'S', 'd', 'g']);
        assert(Operation::T.tag() =~= seq!['/', 'T']);
        assert(Operation::Tdg.tag() =~= seq!['/', 'T', 'd', 'g']);
        assert(Operation::CX.tag() =~= seq!['/', 'C', 'X']);
        assert(Operation::Mz.tag() =~= seq!['/', 'M', 'z']);
    }

    /// No two operations share an address: looking up the address of an
    /// operation finds that operation.
    pub proof fn lemma_lookup_tag(self)
        ensures
            Operation::lookup(self.tag()) == Some(self),
    {
        Operation::lemma_tags();
        let a = Operation::InitZero.tag();
        let x = Operation::X.tag();
        let y = Operation::Y.tag();
        let z = Operation::Z.tag();
        let h = Operation::H.tag();
        let s = Operation::S.tag();
        let sdg = Operation::Sdg.tag();
        let t = Operation::T.tag();
        let tdg = Operation::Tdg.tag();
        let cx = Operation::CX.tag();
        let mz = Operation::Mz.tag();
        assert(a.len() == 9 && sdg.len() == 4 && tdg.len() == 4 && cx.len() == 3 && mz.len() == 3);
        assert(x.len() == 2 && y.len() == 2 && z.len() == 2 && h.len() == 2 && s.len() == 2
            && t.len() == 2);
        assert(x[1] == 'X' && y[1] == 'Y' && z[1] == 'Z' && h[1] == 'H' && s[1] == 'S' && t[1]
            == 'T');
        assert(sdg[1] == 'S' && tdg[1] == 'T' && cx[1] == 'C' && mz[1] == 'M');
    }

    /// An address that the lookup finds is the address of the operation found.
    pub proof fn lemma_lookup_found(addr: Seq<char>)
        ensures
            Operation::lookup(addr) matches Some(op) ==> op.tag() == addr,
    {
    }
}

} // verus!
