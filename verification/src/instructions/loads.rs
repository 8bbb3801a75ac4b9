//! The `LD` data-movement family: register loads, immediate loads, the
//! index register, timers, keypad wait, font sprites, BCD digits and
//! register-block transfers through `[I]`.

use vstd::prelude::*;
use vstd::string::StrSliceExecFns;

use crate::instructions::parameters::{args2_model, split_args2, subst_op, OpModel, OpParam};
use crate::instructions::symtab::{resolve_op, SymbolTable};
use crate::instructions::{ErrorKind, InstructionOps, InstructionOpsWithLabels, ParseError};

verus! {

/// The `LD` instruction: moves a value into `dest` from `source`.
#[derive(Debug)]
pub struct Load {
    pub dest: OpParam,
    pub source: OpParam,
}

impl Load {
    /// The operand pairs `LD` accepts at parse time. A symbolic address is
    /// allowed only as the source of a load into the index register.
    pub open spec fn shape_ok(d: OpModel, s: OpModel) -> bool {
        ||| (d is Register && s is Register)
        ||| (d is Register && s is Variable)
        ||| (d is Register && s is Timer)
        ||| (d is Register && s is DerefI)
        ||| (d is Register && s is Keyboard)
        ||| (d is RegisterI && s is Variable)
        ||| (d is RegisterI && s is Label)
        ||| (d is Timer && s is Register)
        ||| (d is AudioTimer && s is Register)
        ||| (d is Fontset && s is Register)
        ||| (d is Digits && s is Register)
        ||| (d is DerefI && s is Register)
    }

    /// The operand pairs `LD` can encode: every accepted shape once labels
    /// have been replaced by addresses.
    pub open spec fn shape_encodable(d: OpModel, s: OpModel) -> bool {
        Load::shape_ok(d, s) && !(s is Label)
    }

    /// The opcode layout of each encodable pair.
    pub open spec fn opcode_of(d: OpModel, s: OpModel) -> u16 {
        match (d, s) {
            (OpModel::Register(x), OpModel::Variable(v)) => 0x6000 | (((x as u16) & 0x0F) << 8) | (
            v & 0x00FF),
            (OpModel::Register(x), OpModel::Register(y)) => 0x8000 | (((x as u16) & 0x0F) << 8) | (
            ((y as u16) & 0x0F) << 4),
            (OpModel::RegisterI, OpModel::Variable(v)) => 0xA000 | (v & 0x0FFF),
            (OpModel::Register(x), OpModel::Timer) => 0xF007 | (((x as u16) & 0x0F) << 8),
            (OpModel::Register(x), OpModel::Keyboard) => 0xF00A | (((x as u16) & 0x0F) << 8),
            (OpModel::Timer, OpModel::Register(y)) => 0xF015 | (((y as u16) & 0x0F) << 8),
            (OpModel::AudioTimer, OpModel::Register(y)) => 0xF018 | (((y as u16) & 0x0F) << 8),
            (OpModel::Fontset, OpModel::Register(y)) => 0xF029 | (((y as u16) & 0x0F) << 8),
            (OpModel::Digits, OpModel::Register(y)) => 0xF033 | (((y as u16) & 0x0F) << 8),
            (OpModel::DerefI, OpModel::Register(y)) => 0xF055 | (((y as u16) & 0x0F) << 8),
            (OpModel::Register(x), OpModel::DerefI) => 0xF065 | (((x as u16) & 0x0F) << 8),
            _ => 0,
        }
    }
}

impl InstructionOps for Load {
    open spec fn parse_ok(a: Seq<char>) -> bool {
        Load::shape_ok(args2_model(a).0, args2_model(a).1)
    }

    open spec fn parses_to(a: Seq<char>, r: Load) -> bool {
        r.dest@ == args2_model(a).0 && r.source@ == args2_model(a).1
    }

    open spec fn parse_err(a: Seq<char>) -> (ErrorKind, Seq<char>) {
        (ErrorKind::OperandShape, a)
    }

    open spec fn encodable(&self) -> bool {
        Load::shape_encodable(self.dest@, self.source@)
    }

    open spec fn opcode_spec(&self) -> u16 {
        Load::opcode_of(self.dest@, self.source@)
    }

    fn parse_args(ln: &str) -> (r: Result<Load, ParseError>) {
        let (d, s) = split_args2(ln);
        let good = match (&d, &s) {
            (OpParam::Register(_), OpParam::Register(_)) => true,
            (OpParam::Register(_), OpParam::Variable(_)) => true,
            (OpParam::Register(_), OpParam::Timer) => true,
            (OpParam::Register(_), OpParam::DerefI) => true,
            (OpParam::Register(_), OpParam::Keyboard) => true,
            (OpParam::RegisterI, OpParam::Variable(_)) => true,
            (OpParam::RegisterI, OpParam::Label(_)) => true,
            (OpParam::Timer, OpParam::Register(_)) => true,
            (OpParam::AudioTimer, OpParam::Register(_)) => true,
            (OpParam::Fontset, OpParam::Register(_)) => true,
            (OpParam::Digits, OpParam::Register(_)) => true,
            (OpParam::DerefI, OpParam::Register(_)) => true,
            _ => false,
        };
        if good {
            Ok(Load { dest: d, source: s })
        } else {
            Err(ParseError { kind: ErrorKind::OperandShape, line: ln.to_owned() })
        }
    }

    fn to_opcode(&self) -> (r: u16) {
        match (&self.dest, &self.source) {
            (OpParam::Register(x), OpParam::Variable(v)) => 0x6000 | (((*x as u16) & 0x0F) << 8) | (
            *v & 0x00FF),
            (OpParam::Register(x), OpParam::Register(y)) => 0x8000 | (((*x as u16) & 0x0F) << 8) | (
            ((*y as u16) & 0x0F) << 4),
            (OpParam::RegisterI, OpParam::Variable(v)) => 0xA000 | (*v & 0x0FFF),
            (OpParam::Register(x), OpParam::Timer) => 0xF007 | (((*x as u16) & 0x0F) << 8),
            (OpParam::Register(x), OpParam::Keyboard) => 0xF00A | (((*x as u16) & 0x0F) << 8),
            (OpParam::Timer, OpParam::Register(y)) => 0xF015 | (((*y as u16) & 0x0F) << 8),
            (OpParam::AudioTimer, OpParam::Register(y)) => 0xF018 | (((*y as u16) & 0x0F) << 8),
            (OpParam::Fontset, OpParam::Register(y)) => 0xF029 | (((*y as u16) & 0x0F) << 8),
            (OpParam::Digits, OpParam::Register(y)) => 0xF033 | (((*y as u16) & 0x0F) << 8),
            (OpParam::DerefI, OpParam::Register(y)) => 0xF055 | (((*y as u16) & 0x0F) << 8),
            (OpParam::Register(x), OpParam::DerefI) => 0xF065 | (((*x as u16) & 0x0F) << 8),
            _ => 0,
        }
    }
}

impl InstructionOpsWithLabels for Load {
    open spec fn resolves_to(&self, m: Map<Seq<char>, u16>, r: Load) -> bool {
        r.dest@ == self.dest@ && r.source@ == subst_op(self.source@, m)
    }

    fn resolve_labels(self, labels: &SymbolTable) -> (r: Load) {
        let Load { dest, source } = self;
        let source = resolve_op(source, labels);
        Load { dest, source }
    }
}

} // verus!
