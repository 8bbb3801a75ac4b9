//! Control flow: subroutine return, jumps, calls, and the conditional and
//! key-state skip instructions.

use vstd::prelude::*;
use vstd::string::StrSliceExecFns;

use crate::instructions::parameters::{
    arg1_model, args2_model, clean_args, split_args1, split_args2, subst_op, OpModel, OpParam,
};
use crate::instructions::symtab::{resolve_op, SymbolTable};
use crate::instructions::text::{before_comment_str, trim_str};
use crate::instructions::{ErrorKind, InstructionOps, InstructionOpsWithLabels, ParseError};

verus! {

/// The `RET` instruction: returns from a subroutine.
#[derive(Debug)]
pub struct Return {}

impl InstructionOps for Return {
    open spec fn parse_ok(a: Seq<char>) -> bool {
        clean_args(a).len() == 0
    }

    open spec fn parses_to(a: Seq<char>, r: Return) -> bool {
        true
    }

    open spec fn parse_err(a: Seq<char>) -> (ErrorKind, Seq<char>) {
        (ErrorKind::OperandShape, a)
    }

    open spec fn encodable(&self) -> bool {
        true
    }

    open spec fn opcode_spec(&self) -> u16 {
        0x00EE
    }

    fn parse_args(ln: &str) -> (r: Result<Return, ParseError>) {
        let w = trim_str(before_comment_str(ln));
        if w.unicode_len() == 0 {
            Ok(Return {  })
        } else {
            Err(ParseError { kind: ErrorKind::OperandShape, line: ln.to_owned() })
        }
    }

    fn to_opcode(&self) -> (r: u16) {
        0x00EE
    }
}

/// The `JP` instruction: a plain jump to an address, or an indexed jump
/// through register `V0`.
#[derive(Debug)]
pub struct Jump(pub OpParam, pub OpParam);

impl Jump {
    /// The operand pairs `JP` accepts: a lone address or label, or `V0`
    /// followed by an address or label.
    pub open spec fn shape_ok(d: OpModel, s: OpModel) -> bool {
        ||| (d == OpModel::Register(0u8) && s is Label)
        ||| (d == OpModel::Register(0u8) && s is Variable)
        ||| (d is Label && s is Blank)
        ||| (d is Variable && s is Blank)
    }

    /// The operand pairs `JP` can encode once labels are resolved.
    pub open spec fn shape_encodable(d: OpModel, s: OpModel) -> bool {
        ||| (d is Variable && s is Blank)
        ||| (d == OpModel::Register(0u8) && s is Variable)
    }

    /// The opcode layout of each encodable pair.
    pub open spec fn opcode_of(d: OpModel, s: OpModel) -> u16 {
        match (d, s) {
            (OpModel::Variable(addr), OpModel::Blank) => 0x1000 | (addr & 0x0FFF),
            (OpModel::Register(x), OpModel::Variable(addr)) => 0xB000 | (addr & 0x0FFF),
            _ => 0,
        }
    }
}

impl InstructionOps for Jump {
    open spec fn parse_ok(a: Seq<char>) -> bool {
        Jump::shape_ok(args2_model(a).0, args2_model(a).1)
    }

    open spec fn parses_to(a: Seq<char>, r: Jump) -> bool {
        r.0@ == args2_model(a).0 && r.1@ == args2_model(a).1
    }

    open spec fn parse_err(a: Seq<char>) -> (ErrorKind, Seq<char>) {
        (ErrorKind::OperandShape, a)
    }

    open spec fn encodable(&self) -> bool {
        Jump::shape_encodable(self.0@, self.1@)
    }

    open spec fn opcode_spec(&self) -> u16 {
        Jump::opcode_of(self.0@, self.1@)
    }

    fn parse_args(ln: &str) -> (r: Result<Jump, ParseError>) {
        let (d, s) = split_args2(ln);
        let good = match (&d, &s) {
            (OpParam::Register(0u8), OpParam::Label(_)) => true,
            (OpParam::Register(0u8), OpParam::Variable(_)) => true,
            (OpParam::Label(_), OpParam::Blank) => true,
            (OpParam::Variable(_), OpParam::Blank) => true,
            _ => false,
        };
        if good {
            Ok(Jump(d, s))
        } else {
            Err(ParseError { kind: ErrorKind::OperandShape, line: ln.to_owned() })
        }
    }

    fn to_opcode(&self) -> (r: u16) {
        match (&self.0, &self.1) {
            (OpParam::Variable(addr), OpParam::Blank) => 0x1000 | (*addr & 0x0FFF),
            (OpParam::Register(_), OpParam::Variable(addr)) => 0xB000 | (*addr & 0x0FFF),
            _ => 0,
        }
    }
}

impl InstructionOpsWithLabels for Jump {
    open spec fn resolves_to(&self, m: Map<Seq<char>, u16>, r: Jump) -> bool {
        r.0@ == subst_op(self.0@, m) && r.1@ == subst_op(self.1@, m)
    }

    fn resolve_labels(self, labels: &SymbolTable) -> (r: Jump) {
        let Jump(d, s) = self;
        Jump(resolve_op(d, labels), resolve_op(s, labels))
    }
}

/// The `CALL` instruction: calls the subroutine at an address.
#[derive(Debug)]
pub struct Call(pub OpParam);

impl Call {
    /// The operands `CALL` accepts: an address or a label.
    pub open spec fn shape_ok(d: OpModel) -> bool {
        d is Label || d is Variable
    }

    /// The opcode layout of the encodable operand.
    pub open spec fn opcode_of(d: OpModel) -> u16 {
        match d {
            OpModel::Variable(addr) => 0x2000 | (addr & 0x0FFF),
            _ => 0,
        }
    }
}

impl InstructionOps for Call {
    open spec fn parse_ok(a: Seq<char>) -> bool {
        Call::shape_ok(arg1_model(a))
    }

    open spec fn parses_to(a: Seq<char>, r: Call) -> bool {
        r.0@ == arg1_model(a)
    }

    open spec fn parse_err(a: Seq<char>) -> (ErrorKind, Seq<char>) {
        (ErrorKind::OperandShape, a)
    }

    open spec fn encodable(&self) -> bool {
        self.0@ is Variable
    }

    open spec fn opcode_spec(&self) -> u16 {
        Call::opcode_of(self.0@)
    }

    fn parse_args(ln: &str) -> (r: Result<Call, ParseError>) {
        let d = split_args1(ln);
        let good = match &d {
            OpParam::Label(_) => true,
            OpParam::Variable(_) => true,
            _ => false,
        };
        if good {
            Ok(Call(d))
        } else {
            Err(ParseError { kind: ErrorKind::OperandShape, line: ln.to_owned() })
        }
    }

    fn to_opcode(&self) -> (r: u16) {
        match &self.0 {
            OpParam::Variable(addr) => 0x2000 | (*addr & 0x0FFF),
            _ => 0,
        }
    }
}

impl InstructionOpsWithLabels for Call {
    open spec fn resolves_to(&self, m: Map<Seq<char>, u16>, r: Call) -> bool {
        r.0@ == subst_op(self.0@, m)
    }

    fn resolve_labels(self, labels: &SymbolTable) -> (r: Call) {
        let Call(d) = self;
        Call(resolve_op(d, labels))
    }
}

/// The `SE` instruction: skips the next instruction when the register
/// equals a constant or another register.
#[derive(Debug)]
pub struct SkipIfEqual(pub OpParam, pub OpParam);

impl SkipIfEqual {
    /// The operand pairs `SE` accepts.
    pub open spec fn shape_ok(d: OpModel, s: OpModel) -> bool {
        d is Register && (s is Register || s is Variable)
    }

    /// The opcode layout of each pair.
    pub open spec fn opcode_of(d: OpModel, s: OpModel) -> u16 {
        match (d, s) {
            (OpModel::Register(x), OpModel::Variable(v)) => 0x3000 | (((x as u16) & 0x0F) << 8) | (
            v & 0x00FF),
            (OpModel::Register(x), OpModel::Register(y)) => 0x5000 | (((x as u16) & 0x0F) << 8) | (
            ((y as u16) & 0x0F) << 4),
            _ => 0,
        }
    }
}

impl InstructionOps for SkipIfEqual {
    open spec fn parse_ok(a: Seq<char>) -> bool {
        SkipIfEqual::shape_ok(args2_model(a).0, args2_model(a).1)
    }

    open spec fn parses_to(a: Seq<char>, r: SkipIfEqual) -> bool {
        r.0@ == args2_model(a).0 && r.1@ == args2_model(a).1
    }

    open spec fn parse_err(a: Seq<char>) -> (ErrorKind, Seq<char>) {
        (ErrorKind::OperandShape, a)
    }

    open spec fn encodable(&self) -> bool {
        SkipIfEqual::shape_ok(self.0@, self.1@)
    }

    open spec fn opcode_spec(&self) -> u16 {
        SkipIfEqual::opcode_of(self.0@, self.1@)
    }

    fn parse_args(ln: &str) -> (r: Result<SkipIfEqual, ParseError>) {
        let (d, s) = split_args2(ln);
        let good = match (&d, &s) {
            (OpParam::Register(_), OpParam::Register(_)) => true,
            (OpParam::Register(_), OpParam::Variable(_)) => true,
            _ => false,
        };
        if good {
            Ok(SkipIfEqual(d, s))
        } else {
            Err(ParseError { kind: ErrorKind::OperandShape, line: ln.to_owned() })
        }
    }

    fn to_opcode(&self) -> (r: u16) {
        match (&self.0, &self.1) {
            (OpParam::Register(x), OpParam::Variable(v)) => 0x3000 | (((*x as u16) & 0x0F) << 8) | (
            *v & 0x00FF),
            (OpParam::Register(x), OpParam::Register(y)) => 0x5000 | (((*x as u16) & 0x0F) << 8) | (
            ((*y as u16) & 0x0F) << 4),
            _ => 0,
        }
    }
}

/// The `SNE` instruction: skips the next instruction when the register
/// differs from a constant or another register.
#[derive(Debug)]
pub struct SkipIfNotEqual(pub OpParam, pub OpParam);

impl SkipIfNotEqual {
    /// The operand pairs `SNE` accepts.
    pub open spec fn shape_ok(d: OpModel, s: OpModel) -> bool {
        d is Register && (s is Register || s is Variable)
    }

    /// The opcode layout of each pair.
    pub open spec fn opcode_of(d: OpModel, s: OpModel) -> u16 {
        match (d, s) {
            (OpModel::Register(x), OpModel::Variable(v)) => 0x4000 | (((x as u16) & 0x0F) << 8) | (
            v & 0x00FF),
            (OpModel::Register(x), OpModel::Register(y)) => 0x9000 | (((x as u16) & 0x0F) << 8) | (
            ((y as u16) & 0x0F) << 4),
            _ => 0,
        }
    }
}

impl InstructionOps for SkipIfNotEqual {
    open spec fn parse_ok(a: Seq<char>) -> bool {
        SkipIfNotEqual::shape_ok(args2_model(a).0, args2_model(a).1)
    }

    open spec fn parses_to(a: Seq<char>, r: SkipIfNotEqual) -> bool {
        r.0@ == args2_model(a).0 && r.1@ == args2_model(a).1
    }

    open spec fn parse_err(a: Seq<char>) -> (ErrorKind, Seq<char>) {
        (ErrorKind::OperandShape, a)
    }

    open spec fn encodable(&self) -> bool {
        SkipIfNotEqual::shape_ok(self.0@, self.1@)
    }

    open spec fn opcode_spec(&self) -> u16 {
        SkipIfNotEqual::opcode_of(self.0@, self.1@)
    }

    fn parse_args(ln: &str) -> (r: Result<SkipIfNotEqual, ParseError>) {
        let (d, s) = split_args2(ln);
        let good = match (&d, &s) {
            (OpParam::Register(_), OpParam::Register(_)) => true,
            (OpParam::Register(_), OpParam::Variable(_)) => true,
            _ => false,
        };
        if good {
            Ok(SkipIfNotEqual(d, s))
        } else {
            Err(ParseError { kind: ErrorKind::OperandShape, line: ln.to_owned() })
        }
    }

    fn to_opcode(&self) -> (r: u16) {
        match (&self.0, &self.1) {
            (OpParam::Register(x), OpParam::Variable(v)) => 0x4000 | (((*x as u16) & 0x0F) << 8) | (
            *v & 0x00FF),
            (OpParam::Register(x), OpParam::Register(y)) => 0x9000 | (((*x as u16) & 0x0F) << 8) | (
            ((*y as u16) & 0x0F) << 4),
            _ => 0,
        }
    }
}

/// The `SKP` instruction: skips the next instruction when the key named by
/// the register is pressed.
#[derive(Debug)]
pub struct SkipIfKey(pub OpParam);

impl SkipIfKey {
    /// The opcode layout of the register operand.
    pub open spec fn opcode_of(d: OpModel) -> u16 {
        match d {
            OpModel::Register(x) => 0xE09E | (((x as u16) & 0x0F) << 8),
            _ => 0,
        }
    }
}

impl InstructionOps for SkipIfKey {
    open spec fn parse_ok(a: Seq<char>) -> bool {
        arg1_model(a) is Register
    }

    open spec fn parses_to(a: Seq<char>, r: SkipIfKey) -> bool {
        r.0@ == arg1_model(a)
    }

    open spec fn parse_err(a: Seq<char>) -> (ErrorKind, Seq<char>) {
        (ErrorKind::OperandShape, a)
    }

    open spec fn encodable(&self) -> bool {
        self.0@ is Register
    }

    open spec fn opcode_spec(&self) -> u16 {
        SkipIfKey::opcode_of(self.0@)
    }

    fn parse_args(ln: &str) -> (r: Result<SkipIfKey, ParseError>) {
        let d = split_args1(ln);
        match &d {
            OpParam::Register(_) => Ok(SkipIfKey(d)),
            _ => Err(ParseError { kind: ErrorKind::OperandShape, line: ln.to_owned() }),
        }
    }

    fn to_opcode(&self) -> (r: u16) {
        match &self.0 {
            OpParam::Register(x) => 0xE09E | (((*x as u16) & 0x0F) << 8),
            _ => 0,
        }
    }
}

/// The `SKNP` instruction: skips the next instruction when the key named by
/// the register is not pressed.
#[derive(Debug)]
pub struct SkipIfNotKey(pub OpParam);

impl SkipIfNotKey {
    /// The opcode layout of the register operand.
    pub open spec fn opcode_of(d: OpModel) -> u16 {
        match d {
            OpModel::Register(x) => 0xE0A1 | (((x as u16) & 0x0F) << 8),
            _ => 0,
        }
    }
}

impl InstructionOps for SkipIfNotKey {
    open spec fn parse_ok(a: Seq<char>) -> bool {
        arg1_model(a) is Register
    }

    open spec fn parses_to(a: Seq<char>, r: SkipIfNotKey) -> bool {
        r.0@ == arg1_model(a)
    }

    open spec fn parse_err(a: Seq<char>) -> (ErrorKind, Seq<char>) {
        (ErrorKind::OperandShape, a)
    }

    open spec fn encodable(&self) -> bool {
        self.0@ is Register
    }

    open spec fn opcode_spec(&self) -> u16 {
        SkipIfNotKey::opcode_of(self.0@)
    }

    fn parse_args(ln: &str) -> (r: Result<SkipIfNotKey, ParseError>) {
        let d = split_args1(ln);
        match &d {
            OpParam::Register(_) => Ok(SkipIfNotKey(d)),
            _ => Err(ParseError { kind: ErrorKind::OperandShape, line: ln.to_owned() }),
        }
    }

    fn to_opcode(&self) -> (r: u16) {
        match &self.0 {
            OpParam::Register(x) => 0xE0A1 | (((*x as u16) & 0x0F) << 8),
            _ => 0,
        }
    }
}

} // verus!
