//! Bitwise and pseudo-random instructions: `OR`, `AND`, `XOR`, the two
//! shifts with their default-operand elision, and `RND` with its default
//! mask.

use vstd::prelude::*;
use vstd::string::StrSliceExecFns;

use crate::instructions::parameters::{args2_model, split_args2, OpModel, OpParam};
use crate::instructions::{ErrorKind, InstructionOps, ParseError};

verus! {

/// The `OR` instruction: bitwise or of two registers.
#[derive(Debug)]
pub struct Or {
    pub acc: OpParam,
    pub reg: OpParam,
}

impl Or {
    /// The opcode layout of the register pair.
    pub open spec fn opcode_of(d: OpModel, s: OpModel) -> u16 {
        match (d, s) {
            (OpModel::Register(x), OpModel::Register(y)) => 0x8001 | (((x as u16) & 0x0F) << 8) | (
            ((y as u16) & 0x0F) << 4),
            _ => 0,
        }
    }
}

impl InstructionOps for Or {
    open spec fn parse_ok(a: Seq<char>) -> bool {
        args2_model(a).0 is Register && args2_model(a).1 is Register
    }

    open spec fn parses_to(a: Seq<char>, r: Or) -> bool {
        r.acc@ == args2_model(a).0 && r.reg@ == args2_model(a).1
    }

    open spec fn parse_err(a: Seq<char>) -> (ErrorKind, Seq<char>) {
        (ErrorKind::OperandShape, a)
    }

    open spec fn encodable(&self) -> bool {
        self.acc@ is Register && self.reg@ is Register
    }

    open spec fn opcode_spec(&self) -> u16 {
        Or::opcode_of(self.acc@, self.reg@)
    }

    fn parse_args(ln: &str) -> (r: Result<Or, ParseError>) {
        let (d, s) = split_args2(ln);
        let good = match (&d, &s) {
            (OpParam::Register(_), OpParam::Register(_)) => true,
            _ => false,
        };
        if good {
            Ok(Or { acc: d, reg: s })
        } else {
            Err(ParseError { kind: ErrorKind::OperandShape, line: ln.to_owned() })
        }
    }

    fn to_opcode(&self) -> (r: u16) {
        match (&self.acc, &self.reg) {
            (OpParam::Register(x), OpParam::Register(y)) => 0x8001 | (((*x as u16) & 0x0F) << 8) | (
            ((*y as u16) & 0x0F) << 4),
            _ => 0,
        }
    }
}

/// The `AND` instruction: bitwise and of two registers.
#[derive(Debug)]
pub struct And {
    pub acc: OpParam,
    pub reg: OpParam,
}

impl And {
    /// The opcode layout of the register pair.
    pub open spec fn opcode_of(d: OpModel, s: OpModel) -> u16 {
        match (d, s) {
            (OpModel::Register(x), OpModel::Register(y)) => 0x8002 | (((x as u16) & 0x0F) << 8) | (
            ((y as u16) & 0x0F) << 4),
            _ => 0,
        }
    }
}

impl InstructionOps for And {
    open spec fn parse_ok(a: Seq<char>) -> bool {
        args2_model(a).0 is Register && args2_model(a).1 is Register
    }

    open spec fn parses_to(a: Seq<char>, r: And) -> bool {
        r.acc@ == args2_model(a).0 && r.reg@ == args2_model(a).1
    }

    open spec fn parse_err(a: Seq<char>) -> (ErrorKind, Seq<char>) {
        (ErrorKind::OperandShape, a)
    }

    open spec fn encodable(&self) -> bool {
        self.acc@ is Register && self.reg@ is Register
    }

    open spec fn opcode_spec(&self) -> u16 {
        And::opcode_of(self.acc@, self.reg@)
    }

    fn parse_args(ln: &str) -> (r: Result<And, ParseError>) {
        let (d, s) = split_args2(ln);
        let good = match (&d, &s) {
            (OpParam::Register(_), OpParam::Register(_)) => true,
            _ => false,
        };
        if good {
            Ok(And { acc: d, reg: s })
        } else {
            Err(ParseError { kind: ErrorKind::OperandShape, line: ln.to_owned() })
        }
    }

    fn to_opcode(&self) -> (r: u16) {
        match (&self.acc, &self.reg) {
            (OpParam::Register(x), OpParam::Register(y)) => 0x8002 | (((*x as u16) & 0x0F) << 8) | (
            ((*y as u16) & 0x0F) << 4),
            _ => 0,
        }
    }
}

/// The `XOR` instruction: bitwise exclusive or of two registers.
#[derive(Debug)]
pub struct Xor {
    pub acc: OpParam,
    pub reg: OpParam,
}

impl Xor {
    /// The opcode layout of the register pair.
    pub open spec fn opcode_of(d: OpModel, s: OpModel) -> u16 {
        match (d, s) {
            (OpModel::Register(x), OpModel::Register(y)) => 0x8003 | (((x as u16) & 0x0F) << 8) | (
            ((y as u16) & 0x0F) << 4),
            _ => 0,
        }
    }
}

impl InstructionOps for Xor {
    open spec fn parse_ok(a: Seq<char>) -> bool {
        args2_model(a).0 is Register && args2_model(a).1 is Register
    }

    open spec fn parses_to(a: Seq<char>, r: Xor) -> bool {
        r.acc@ == args2_model(a).0 && r.reg@ == args2_model(a).1
    }

    open spec fn parse_err(a: Seq<char>) -> (ErrorKind, Seq<char>) {
        (ErrorKind::OperandShape, a)
    }

    open spec fn encodable(&self) -> bool {
        self.acc@ is Register && self.reg@ is Register
    }

    open spec fn opcode_spec(&self) -> u16 {
        Xor::opcode_of(self.acc@, self.reg@)
    }

    fn parse_args(ln: &str) -> (r: Result<Xor, ParseError>) {
        let (d, s) = split_args2(ln);
        let good = match (&d, &s) {
            (OpParam::Register(_), OpParam::Register(_)) => true,
            _ => false,
        };
        if good {
            Ok(Xor { acc: d, reg: s })
        } else {
            Err(ParseError { kind: ErrorKind::OperandShape, line: ln.to_owned() })
        }
    }

    fn to_opcode(&self) -> (r: u16) {
        match (&self.acc, &self.reg) {
            (OpParam::Register(x), OpParam::Register(y)) => 0x8003 | (((*x as u16) & 0x0F) << 8) | (
            ((*y as u16) & 0x0F) << 4),
            _ => 0,
        }
    }
}

/// The `SHR` instruction: shifts a register right by one; a missing second
/// operand defaults to the destination register itself.
#[derive(Debug)]
pub struct ShiftRight {
    pub acc: OpParam,
    pub usually_unused: OpParam,
}

impl ShiftRight {
    /// The operand pairs `SHR` accepts: two registers, or one register with
    /// the second slot absent.
    pub open spec fn shape_ok(d: OpModel, s: OpModel) -> bool {
        d is Register && (s is Register || s is Blank)
    }

    /// Default-operand elision: a one-operand shift names its destination
    /// register twice.
    pub open spec fn normalize(d: OpModel, s: OpModel) -> (OpModel, OpModel) {
        if s is Blank {
            (d, d)
        } else {
            (d, s)
        }
    }

    /// The opcode layout of the register pair.
    pub open spec fn opcode_of(d: OpModel, s: OpModel) -> u16 {
        match (d, s) {
            (OpModel::Register(x), OpModel::Register(y)) => 0x8006 | (((x as u16) & 0x0F) << 8) | (
            ((y as u16) & 0x0F) << 4),
            _ => 0,
        }
    }
}

impl InstructionOps for ShiftRight {
    open spec fn parse_ok(a: Seq<char>) -> bool {
        ShiftRight::shape_ok(args2_model(a).0, args2_model(a).1)
    }

    open spec fn parses_to(a: Seq<char>, r: ShiftRight) -> bool {
        (r.acc@, r.usually_unused@) == ShiftRight::normalize(args2_model(a).0, args2_model(a).1)
    }

    open spec fn parse_err(a: Seq<char>) -> (ErrorKind, Seq<char>) {
        (ErrorKind::OperandShape, a)
    }

    open spec fn encodable(&self) -> bool {
        self.acc@ is Register && self.usually_unused@ is Register
    }

    open spec fn opcode_spec(&self) -> u16 {
        ShiftRight::opcode_of(self.acc@, self.usually_unused@)
    }

    fn parse_args(ln: &str) -> (r: Result<ShiftRight, ParseError>) {
        let (d, s) = split_args2(ln);
        match (d, s) {
            (OpParam::Register(x), OpParam::Register(y)) => Ok(
                ShiftRight { acc: OpParam::Register(x), usually_unused: OpParam::Register(y) },
            ),
            (OpParam::Register(x), OpParam::Blank) => Ok(
                ShiftRight { acc: OpParam::Register(x), usually_unused: OpParam::Register(x) },
            ),
            _ => Err(ParseError { kind: ErrorKind::OperandShape, line: ln.to_owned() }),
        }
    }

    fn to_opcode(&self) -> (r: u16) {
        match (&self.acc, &self.usually_unused) {
            (OpParam::Register(x), OpParam::Register(y)) => 0x8006 | (((*x as u16) & 0x0F) << 8) | (
            ((*y as u16) & 0x0F) << 4),
            _ => 0,
        }
    }
}

/// The `SHL` instruction: shifts a register left by one; a missing second
/// operand defaults to the destination register itself.
#[derive(Debug)]
pub struct ShiftLeft {
    pub acc: OpParam,
    pub usually_unused: OpParam,
}

impl ShiftLeft {
    /// The operand pairs `SHL` accepts: two registers, or one register with
    /// the second slot absent.
    pub open spec fn shape_ok(d: OpModel, s: OpModel) -> bool {
        d is Register && (s is Register || s is Blank)
    }

    /// Default-operand elision: a one-operand shift names its destination
    /// register twice.
    pub open spec fn normalize(d: OpModel, s: OpModel) -> (OpModel, OpModel) {
        if s is Blank {
            (d, d)
        } else {
            (d, s)
        }
    }

    /// The opcode layout of the register pair.
    pub open spec fn opcode_of(d: OpModel, s: OpModel) -> u16 {
        match (d, s) {
            (OpModel::Register(x), OpModel::Register(y)) => 0x800E | (((x as u16) & 0x0F) << 8) | (
            ((y as u16) & 0x0F) << 4),
            _ => 0,
        }
    }
}

impl InstructionOps for ShiftLeft {
    open spec fn parse_ok(a: Seq<char>) -> bool {
        ShiftLeft::shape_ok(args2_model(a).0, args2_model(a).1)
    }

    open spec fn parses_to(a: Seq<char>, r: ShiftLeft) -> bool {
        (r.acc@, r.usually_unused@) == ShiftLeft::normalize(args2_model(a).0, args2_model(a).1)
    }

    open spec fn parse_err(a: Seq<char>) -> (ErrorKind, Seq<char>) {
        (ErrorKind::OperandShape, a)
    }

    open spec fn encodable(&self) -> bool {
        self.acc@ is Register && self.usually_unused@ is Register
    }

    open spec fn opcode_spec(&self) -> u16 {
        ShiftLeft::opcode_of(self.acc@, self.usually_unused@)
    }

    fn parse_args(ln: &str) -> (r: Result<ShiftLeft, ParseError>) {
        let (d, s) = split_args2(ln);
        match (d, s) {
            (OpParam::Register(x), OpParam::Register(y)) => Ok(
                ShiftLeft { acc: OpParam::Register(x), usually_unused: OpParam::Register(y) },
            ),
            (OpParam::Register(x), OpParam::Blank) => Ok(
                ShiftLeft { acc: OpParam::Register(x), usually_unused: OpParam::Register(x) },
            ),
            _ => Err(ParseError { kind: ErrorKind::OperandShape, line: ln.to_owned() }),
        }
    }

    fn to_opcode(&self) -> (r: u16) {
        match (&self.acc, &self.usually_unused) {
            (OpParam::Register(x), OpParam::Register(y)) => 0x800E | (((*x as u16) & 0x0F) << 8) | (
            ((*y as u16) & 0x0F) << 4),
            _ => 0,
        }
    }
}

/// A one-operand shift is the same effective instruction as the two-operand
/// form that names the destination register twice: the parsed operands, and
/// therefore the opcode, agree.
pub proof fn lemma_shift_default(a1: Seq<char>, a2: Seq<char>, x: u8)
    requires
        args2_model(a1) == (OpModel::Register(x), OpModel::Blank),
        args2_model(a2) == (OpModel::Register(x), OpModel::Register(x)),
    ensures
        ShiftRight::normalize(args2_model(a1).0, args2_model(a1).1) == ShiftRight::normalize(
            args2_model(a2).0,
            args2_model(a2).1,
        ),
        ShiftLeft::normalize(args2_model(a1).0, args2_model(a1).1) == ShiftLeft::normalize(
            args2_model(a2).0,
            args2_model(a2).1,
        ),
        forall|r1: ShiftRight, r2: ShiftRight|
            ShiftRight::parses_to(a1, r1) && ShiftRight::parses_to(a2, r2)
                ==> r1.opcode_spec() == r2.opcode_spec(),
{
}

/// The `RND` instruction: a random byte masked into a register; a missing
/// second operand defaults the mask to the full byte.
#[derive(Debug)]
pub struct Rand {
    pub reg: OpParam,
    pub mask: OpParam,
}

impl Rand {
    /// The operand pairs `RND` accepts: a register and a constant mask, or
    /// a register alone.
    pub open spec fn shape_ok(d: OpModel, s: OpModel) -> bool {
        d is Register && (s is Variable || s is Blank)
    }

    /// Default-operand elision: a missing mask means the full byte.
    pub open spec fn normalize(d: OpModel, s: OpModel) -> (OpModel, OpModel) {
        if s is Blank {
            (d, OpModel::Variable(0x00FF))
        } else {
            (d, s)
        }
    }

    /// The opcode layout of the register and mask.
    pub open spec fn opcode_of(d: OpModel, s: OpModel) -> u16 {
        match (d, s) {
            (OpModel::Register(x), OpModel::Variable(m)) => 0xC000 | (((x as u16) & 0x0F) << 8) | (
            m & 0x00FF),
            _ => 0,
        }
    }
}

impl InstructionOps for Rand {
    open spec fn parse_ok(a: Seq<char>) -> bool {
        Rand::shape_ok(args2_model(a).0, args2_model(a).1)
    }

    open spec fn parses_to(a: Seq<char>, r: Rand) -> bool {
        (r.reg@, r.mask@) == Rand::normalize(args2_model(a).0, args2_model(a).1)
    }

    open spec fn parse_err(a: Seq<char>) -> (ErrorKind, Seq<char>) {
        (ErrorKind::OperandShape, a)
    }

    open spec fn encodable(&self) -> bool {
        self.reg@ is Register && self.mask@ is Variable
    }

    open spec fn opcode_spec(&self) -> u16 {
        Rand::opcode_of(self.reg@, self.mask@)
    }

    fn parse_args(ln: &str) -> (r: Result<Rand, ParseError>) {
        let (d, s) = split_args2(ln);
        match (d, s) {
            (OpParam::Register(x), OpParam::Variable(m)) => Ok(
                Rand { reg: OpParam::Register(x), mask: OpParam::Variable(m) },
            ),
            (OpParam::Register(x), OpParam::Blank) => Ok(
                Rand { reg: OpParam::Register(x), mask: OpParam::Variable(0x00FF) },
            ),
            _ => Err(ParseError { kind: ErrorKind::OperandShape, line: ln.to_owned() }),
        }
    }

    fn to_opcode(&self) -> (r: u16) {
        match (&self.reg, &self.mask) {
            (OpParam::Register(x), OpParam::Variable(m)) => 0xC000 | (((*x as u16) & 0x0F) << 8) | (
            *m & 0x00FF),
            _ => 0,
        }
    }
}

} // verus!
