//! Display instructions: clearing the screen and drawing a sprite.

use vstd::prelude::*;
use vstd::string::StrSliceExecFns;

use crate::instructions::parameters::{args3_model, clean_args, split_args3, OpModel, OpParam};
use crate::instructions::text::{before_comment_str, trim_str};
use crate::instructions::{ErrorKind, InstructionOps, ParseError};

verus! {

/// The `CLS` instruction: clears the display.
#[derive(Debug)]
pub struct ClearScreen {}

impl InstructionOps for ClearScreen {
    open spec fn parse_ok(a: Seq<char>) -> bool {
        clean_args(a).len() == 0
    }

    open spec fn parses_to(a: Seq<char>, r: ClearScreen) -> bool {
        true
    }

    open spec fn parse_err(a: Seq<char>) -> (ErrorKind, Seq<char>) {
        (ErrorKind::OperandShape, a)
    }

    open spec fn encodable(&self) -> bool {
        true
    }

    open spec fn opcode_spec(&self) -> u16 {
        0x00E0
    }

    fn parse_args(ln: &str) -> (r: Result<ClearScreen, ParseError>) {
        let w = trim_str(before_comment_str(ln));
        if w.unicode_len() == 0 {
            Ok(ClearScreen {  })
        } else {
            Err(ParseError { kind: ErrorKind::OperandShape, line: ln.to_owned() })
        }
    }

    fn to_opcode(&self) -> (r: u16) {
        0x00E0
    }
}

/// The `DRW` instruction: draws a sprite of the given byte length at the
/// coordinates held in two registers.
#[derive(Debug)]
pub struct Draw {
    pub xreg: OpParam,
    pub yreg: OpParam,
    pub length: OpParam,
}

impl Draw {
    /// The operand triple `DRW` accepts.
    pub open spec fn shape_ok(x: OpModel, y: OpModel, l: OpModel) -> bool {
        x is Register && y is Register && l is Variable
    }

    /// The opcode layout of the triple.
    pub open spec fn opcode_of(x: OpModel, y: OpModel, l: OpModel) -> u16 {
        match (x, y, l) {
            (OpModel::Register(a), OpModel::Register(b), OpModel::Variable(n)) => 0xD000 | (((
            a as u16) & 0x0F) << 8) | (((b as u16) & 0x0F) << 4) | (n & 0x000F),
            _ => 0,
        }
    }
}

impl InstructionOps for Draw {
    open spec fn parse_ok(a: Seq<char>) -> bool {
        Draw::shape_ok(args3_model(a).0, args3_model(a).1, args3_model(a).2)
    }

    open spec fn parses_to(a: Seq<char>, r: Draw) -> bool {
        r.xreg@ == args3_model(a).0 && r.yreg@ == args3_model(a).1 && r.length@ == args3_model(a).2
    }

    open spec fn parse_err(a: Seq<char>) -> (ErrorKind, Seq<char>) {
        (ErrorKind::OperandShape, a)
    }

    open spec fn encodable(&self) -> bool {
        Draw::shape_ok(self.xreg@, self.yreg@, self.length@)
    }

    open spec fn opcode_spec(&self) -> u16 {
        Draw::opcode_of(self.xreg@, self.yreg@, self.length@)
    }

    fn parse_args(ln: &str) -> (r: Result<Draw, ParseError>) {
        let (x, y, l) = split_args3(ln);
        let good = match (&x, &y, &l) {
            (OpParam::Register(_), OpParam::Register(_), OpParam::Variable(_)) => true,
            _ => false,
        };
        if good {
            Ok(Draw { xreg: x, yreg: y, length: l })
        } else {
            Err(ParseError { kind: ErrorKind::OperandShape, line: ln.to_owned() })
        }
    }

    fn to_opcode(&self) -> (r: u16) {
        match (&self.xreg, &self.yreg, &self.length) {
            (OpParam::Register(a), OpParam::Register(b), OpParam::Variable(n)) => 0xD000 | (((
            *a as u16) & 0x0F) << 8) | (((*b as u16) & 0x0F) << 4) | (*n & 0x000F),
            _ => 0,
        }
    }
}

} // verus!
