//! Arithmetic instructions: `ADD` in its three forms, `SUB` and `SUBN`.

use vstd::prelude::*;
use vstd::string::StrSliceExecFns;

use crate::instructions::parameters::{args2_model, split_args2, OpModel, OpParam};
use crate::instructions::{ErrorKind, InstructionOps, ParseError};

verus! {

/// The `ADD` instruction: adds a constant or a register into a register, or
/// a register into the index register.
#[derive(Debug)]
pub struct Add {
    pub acc: OpParam,
    pub to_add: OpParam,
}

impl Add {
    /// The operand pairs `ADD` accepts.
    pub open spec fn shape_ok(d: OpModel, s: OpModel) -> bool {
        ||| (d is RegisterI && s is Register)
        ||| (d is Register && s is Register)
        ||| (d is Register && s is Variable)
    }

    /// The opcode layout of each pair.
    pub open spec fn opcode_of(d: OpModel, s: OpModel) -> u16 {
        match (d, s) {
            (OpModel::Register(x), OpModel::Variable(v)) => 0x7000 | (((x as u16) & 0x0F) << 8) | (
            v & 0x00FF),
            (OpModel::Register(x), OpModel::Register(y)) => 0x8004 | (((x as u16) & 0x0F) << 8) | (
            ((y as u16) & 0x0F) << 4),
            (OpModel::RegisterI, OpModel::Register(y)) => 0xF01E | (((y as u16) & 0x0F) << 8),
            _ => 0,
        }
    }
}

impl InstructionOps for Add {
    open spec fn parse_ok(a: Seq<char>) -> bool {
        Add::shape_ok(args2_model(a).0, args2_model(a).1)
    }

    open spec fn parses_to(a: Seq<char>, r: Add) -> bool {
        r.acc@ == args2_model(a).0 && r.to_add@ == args2_model(a).1
    }

    open spec fn parse_err(a: Seq<char>) -> (ErrorKind, Seq<char>) {
        (ErrorKind::OperandShape, a)
    }

    open spec fn encodable(&self) -> bool {
        Add::shape_ok(self.acc@, self.to_add@)
    }

    open spec fn opcode_spec(&self) -> u16 {
        Add::opcode_of(self.acc@, self.to_add@)
    }

    fn parse_args(ln: &str) -> (r: Result<Add, ParseError>) {
        let (d, s) = split_args2(ln);
        let good = match (&d, &s) {
            (OpParam::RegisterI, OpParam::Register(_)) => true,
            (OpParam::Register(_), OpParam::Register(_)) => true,
            (OpParam::Register(_), OpParam::Variable(_)) => true,
            _ => false,
        };
        if good {
            Ok(Add { acc: d, to_add: s })
        } else {
            Err(ParseError { kind: ErrorKind::OperandShape, line: ln.to_owned() })
        }
    }

    fn to_opcode(&self) -> (r: u16) {
        match (&self.acc, &self.to_add) {
            (OpParam::Register(x), OpParam::Variable(v)) => 0x7000 | (((*x as u16) & 0x0F) << 8) | (
            *v & 0x00FF),
            (OpParam::Register(x), OpParam::Register(y)) => 0x8004 | (((*x as u16) & 0x0F) << 8) | (
            ((*y as u16) & 0x0F) << 4),
            (OpParam::RegisterI, OpParam::Register(y)) => 0xF01E | (((*y as u16) & 0x0F) << 8),
            _ => 0,
        }
    }
}

/// The `SUB` instruction: subtracts one register from another.
#[derive(Debug)]
pub struct Sub {
    pub acc: OpParam,
    pub reg: OpParam,
}

impl Sub {
    /// The opcode layout of the register pair.
    pub open spec fn opcode_of(d: OpModel, s: OpModel) -> u16 {
        match (d, s) {
            (OpModel::Register(x), OpModel::Register(y)) => 0x8005 | (((x as u16) & 0x0F) << 8) | (
            ((y as u16) & 0x0F) << 4),
            _ => 0,
        }
    }
}

impl InstructionOps for Sub {
    open spec fn parse_ok(a: Seq<char>) -> bool {
        args2_model(a).0 is Register && args2_model(a).1 is Register
    }

    open spec fn parses_to(a: Seq<char>, r: Sub) -> bool {
        r.acc@ == args2_model(a).0 && r.reg@ == args2_model(a).1
    }

    open spec fn parse_err(a: Seq<char>) -> (ErrorKind, Seq<char>) {
        (ErrorKind::OperandShape, a)
    }

    open spec fn encodable(&self) -> bool {
        self.acc@ is Register && self.reg@ is Register
    }

    open spec fn opcode_spec(&self) -> u16 {
        Sub::opcode_of(self.acc@, self.reg@)
    }

    fn parse_args(ln: &str) -> (r: Result<Sub, ParseError>) {
        let (d, s) = split_args2(ln);
        let good = match (&d, &s) {
            (OpParam::Register(_), OpParam::Register(_)) => true,
            _ => false,
        };
        if good {
            Ok(Sub { acc: d, reg: s })
        } else {
            Err(ParseError { kind: ErrorKind::OperandShape, line: ln.to_owned() })
        }
    }

    fn to_opcode(&self) -> (r: u16) {
        match (&self.acc, &self.reg) {
            (OpParam::Register(x), OpParam::Register(y)) => 0x8005 | (((*x as u16) & 0x0F) << 8) | (
            ((*y as u16) & 0x0F) << 4),
            _ => 0,
        }
    }
}

/// The `SUBN` instruction: subtracts a register from another, reversed.
#[derive(Debug)]
pub struct SubN {
    pub acc: OpParam,
    pub reg: OpParam,
}

impl SubN {
    /// The opcode layout of the register pair.
    pub open spec fn opcode_of(d: OpModel, s: OpModel) -> u16 {
        match (d, s) {
            (OpModel::Register(x), OpModel::Register(y)) => 0x8007 | (((x as u16) & 0x0F) << 8) | (
            ((y as u16) & 0x0F) << 4),
            _ => 0,
        }
    }
}

impl InstructionOps for SubN {
    open spec fn parse_ok(a: Seq<char>) -> bool {
        args2_model(a).0 is Register && args2_model(a).1 is Register
    }

    open spec fn parses_to(a: Seq<char>, r: SubN) -> bool {
        r.acc@ == args2_model(a).0 && r.reg@ == args2_model(a).1
    }

    open spec fn parse_err(a: Seq<char>) -> (ErrorKind, Seq<char>) {
        (ErrorKind::OperandShape, a)
    }

    open spec fn encodable(&self) -> bool {
        self.acc@ is Register && self.reg@ is Register
    }

    open spec fn opcode_spec(&self) -> u16 {
        SubN::opcode_of(self.acc@, self.reg@)
    }

    fn parse_args(ln: &str) -> (r: Result<SubN, ParseError>) {
        let (d, s) = split_args2(ln);
        let good = match (&d, &s) {
            (OpParam::Register(_), OpParam::Register(_)) => true,
            _ => false,
        };
        if good {
            Ok(SubN { acc: d, reg: s })
        } else {
            Err(ParseError { kind: ErrorKind::OperandShape, line: ln.to_owned() })
        }
    }

    fn to_opcode(&self) -> (r: u16) {
        match (&self.acc, &self.reg) {
            (OpParam::Register(x), OpParam::Register(y)) => 0x8007 | (((*x as u16) & 0x0F) << 8) | (
            ((*y as u16) & 0x0F) << 4),
            _ => 0,
        }
    }
}

} // verus!
