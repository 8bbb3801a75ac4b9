//! A two-pass assembler for a small fixed-width instruction set: a first
//! scan resolves labels to addresses, a second scan parses each instruction
//! line, substitutes resolved addresses for label references and encodes one
//! big-endian 16-bit opcode per instruction.

pub mod bitops;
pub mod display;
pub mod flow;
pub mod loads;
pub mod math;
pub mod parameters;
pub mod symtab;
pub mod text;

use vstd::prelude::*;
use vstd::string::{StrSliceExecFns, StringExecFns};

use crate::instructions::parameters::{
    arg1_model, args2_model, args3_model, label_of, op_label, subst_op, OpModel,
};
use crate::instructions::symtab::SymbolTable;
use crate::instructions::text::{
    before_comment, before_comment_str, char_pos, eq_str, find_char, lemma_char_pos_range,
    lines_of, split_lines, starts_with, starts_with_str, trim, trim_str, upper, upper_str,
};

verus! {

/// Which fatal condition ended the run.
#[derive(Clone, Copy, PartialEq, Eq, Structural, Debug)]
pub enum ErrorKind {
    /// A mnemonic was given an operand combination it does not support.
    OperandShape,
    /// The first token of a non-blank, non-comment line matched no mnemonic.
    UnknownMnemonic,
    /// An operand remained a label reference after resolution.
    UnresolvedLabel,
}

/// A fatal assembly error, carrying the offending text.
#[derive(Debug)]
pub struct ParseError {
    pub kind: ErrorKind,
    pub line: String,
}

impl ParseError {
    /// The error as one line of text: its kind, then the offending text.
    pub open spec fn message_spec(&self) -> Seq<char> {
        match self.kind {
            ErrorKind::OperandShape => "unsupported operands: "@ + self.line@,
            ErrorKind::UnknownMnemonic => "unknown mnemonic: "@ + self.line@,
            ErrorKind::UnresolvedLabel => "unresolved label: "@ + self.line@,
        }
    }

    /// Renders the error for reporting.
    pub fn message(&self) -> (r: String)
        ensures
            r@ == self.message_spec(),
    {
        match self.kind {
            ErrorKind::OperandShape => String::from_str("unsupported operands: ").concat(
                self.line.as_str(),
            ),
            ErrorKind::UnknownMnemonic => String::from_str("unknown mnemonic: ").concat(
                self.line.as_str(),
            ),
            ErrorKind::UnresolvedLabel => String::from_str("unresolved label: ").concat(
                self.line.as_str(),
            ),
        }
    }
}

/// One parse/encode pair of the instruction catalog.
pub trait InstructionOps: Sized {
    /// Whether this argument text has an operand shape the mnemonic accepts.
    spec fn parse_ok(a: Seq<char>) -> bool;

    /// Relates an argument text to the instruction parsed from it.
    spec fn parses_to(a: Seq<char>, r: Self) -> bool;

    /// The error reported when the text's operand shape is not accepted.
    spec fn parse_err(a: Seq<char>) -> (ErrorKind, Seq<char>);

    /// Whether the operands have a fully resolved shape that encodes.
    spec fn encodable(&self) -> bool;

    /// The opcode of an encodable instruction.
    spec fn opcode_spec(&self) -> u16;

    /// Parses an argument text, accepting exactly the operand shapes this
    /// mnemonic supports.
    fn parse_args(ln: &str) -> (r: Result<Self, ParseError>)
        ensures
            match r {
                Ok(i) => Self::parse_ok(ln@) && Self::parses_to(ln@, i),
                Err(e) => !Self::parse_ok(ln@) && e.kind == Self::parse_err(ln@).0 && e.line@
                    == Self::parse_err(ln@).1,
            },
    ;

    /// Encodes a validated, fully resolved instruction.
    fn to_opcode(&self) -> (r: u16)
        requires
            self.encodable(),
        ensures
            r == self.opcode_spec(),
    ;
}

/// An instruction whose operands may refer to labels.
pub trait InstructionOpsWithLabels: InstructionOps {
    /// Relates an instruction to its label-resolved form.
    spec fn resolves_to(&self, m: Map<Seq<char>, u16>, r: Self) -> bool;

    /// Replaces label references by the addresses the table gives them;
    /// names the table does not know are left in place.
    fn resolve_labels(self, labels: &SymbolTable) -> (r: Self)
        ensures
            self.resolves_to(labels@, r),
    ;
}

/// One instruction of the catalog, tagged by mnemonic family.
#[derive(Debug)]
pub enum Instruction {
    Jump(flow::Jump),
    Call(flow::Call),
    Return(flow::Return),
    SkipIfEqual(flow::SkipIfEqual),
    SkipIfNotEqual(flow::SkipIfNotEqual),
    SkipIfKey(flow::SkipIfKey),
    SkipIfNotKey(flow::SkipIfNotKey),
    Load(loads::Load),
    And(bitops::And),
    Or(bitops::Or),
    Xor(bitops::Xor),
    Rand(bitops::Rand),
    ShiftLeft(bitops::ShiftLeft),
    ShiftRight(bitops::ShiftRight),
    ClearScreen(display::ClearScreen),
    Draw(display::Draw),
    Add(math::Add),
    Sub(math::Sub),
    SubN(math::SubN),
}

/// The mathematical shape of an instruction: its mnemonic family and the
/// models of its operands.
pub ghost enum InstrModel {
    Jump(OpModel, OpModel),
    Call(OpModel),
    Return,
    SkipIfEqual(OpModel, OpModel),
    SkipIfNotEqual(OpModel, OpModel),
    SkipIfKey(OpModel),
    SkipIfNotKey(OpModel),
    Load(OpModel, OpModel),
    And(OpModel, OpModel),
    Or(OpModel, OpModel),
    Xor(OpModel, OpModel),
    Rand(OpModel, OpModel),
    ShiftLeft(OpModel, OpModel),
    ShiftRight(OpModel, OpModel),
    ClearScreen,
    Draw(OpModel, OpModel, OpModel),
    Add(OpModel, OpModel),
    Sub(OpModel, OpModel),
    SubN(OpModel, OpModel),
}

impl View for Instruction {
    type V = InstrModel;

    open spec fn view(&self) -> InstrModel {
        match self {
            Instruction::Jump(i) => InstrModel::Jump(i.0@, i.1@),
            Instruction::Call(i) => InstrModel::Call(i.0@),
            Instruction::Return(i) => InstrModel::Return,
            Instruction::SkipIfEqual(i) => InstrModel::SkipIfEqual(i.0@, i.1@),
            Instruction::SkipIfNotEqual(i) => InstrModel::SkipIfNotEqual(i.0@, i.1@),
            Instruction::SkipIfKey(i) => InstrModel::SkipIfKey(i.0@),
            Instruction::SkipIfNotKey(i) => InstrModel::SkipIfNotKey(i.0@),
            Instruction::Load(i) => InstrModel::Load(i.dest@, i.source@),
            Instruction::And(i) => InstrModel::And(i.acc@, i.reg@),
            Instruction::Or(i) => InstrModel::Or(i.acc@, i.reg@),
            Instruction::Xor(i) => InstrModel::Xor(i.acc@, i.reg@),
            Instruction::Rand(i) => InstrModel::Rand(i.reg@, i.mask@),
            Instruction::ShiftLeft(i) => InstrModel::ShiftLeft(i.acc@, i.usually_unused@),
            Instruction::ShiftRight(i) => InstrModel::ShiftRight(i.acc@, i.usually_unused@),
            Instruction::ClearScreen(i) => InstrModel::ClearScreen,
            Instruction::Draw(i) => InstrModel::Draw(i.xreg@, i.yreg@, i.length@),
            Instruction::Add(i) => InstrModel::Add(i.acc@, i.to_add@),
            Instruction::Sub(i) => InstrModel::Sub(i.acc@, i.reg@),
            Instruction::SubN(i) => InstrModel::SubN(i.acc@, i.reg@),
        }
    }
}

/// A source line with its trailing comment stripped and the remainder
/// trimmed: the text that classification and the label resolver look at.
pub open spec fn line_code(ln: Seq<char>) -> Seq<char> {
    trim(before_comment(ln))
}

/// The upper-cased form of the line's code, as the instruction parser
/// reads it.
pub open spec fn line_clean(ln: Seq<char>) -> Seq<char> {
    upper(line_code(ln))
}

/// Whether the line's upper-cased code starts with a recognised mnemonic.
pub open spec fn mnemonic_start(u: Seq<char>) -> bool {
    ||| starts_with(u, "CLS"@)
    ||| starts_with(u, "RET"@)
    ||| starts_with(u, "JP"@)
    ||| starts_with(u, "CALL"@)
    ||| starts_with(u, "SE"@)
    ||| starts_with(u, "SNE"@)
    ||| starts_with(u, "LD"@)
    ||| starts_with(u, "OR"@)
    ||| starts_with(u, "AND"@)
    ||| starts_with(u, "XOR"@)
    ||| starts_with(u, "ADD"@)
    ||| starts_with(u, "SUB"@)
    ||| starts_with(u, "SHR"@)
    ||| starts_with(u, "SUBN"@)
    ||| starts_with(u, "SHL"@)
    ||| starts_with(u, "RND"@)
    ||| starts_with(u, "DRW"@)
    ||| starts_with(u, "SKP"@)
    ||| starts_with(u, "SKNP"@)
}

/// An instruction line: its code begins with a recognised mnemonic.
pub open spec fn is_instr_spec(ln: Seq<char>) -> bool {
    mnemonic_start(line_clean(ln))
}

/// A label line: neither blank nor comment-only, and not an instruction
/// line.
pub open spec fn is_label_spec(ln: Seq<char>) -> bool {
    line_code(ln).len() > 0 && !is_instr_spec(ln)
}

/// Classifies a line as an instruction line.
pub fn is_instr_line(ln: &str) -> (r: bool)
    ensures
        r == is_instr_spec(ln@),
{
    let code = trim_str(before_comment_str(ln));
    let u = upper_str(code);
    let us = u.as_str();
    starts_with_str(us, "CLS") || starts_with_str(us, "RET") || starts_with_str(us, "JP")
        || starts_with_str(us, "CALL") || starts_with_str(us, "SE") || starts_with_str(us, "SNE")
        || starts_with_str(us, "LD") || starts_with_str(us, "OR") || starts_with_str(us, "AND")
        || starts_with_str(us, "XOR") || starts_with_str(us, "ADD") || starts_with_str(us, "SUB")
        || starts_with_str(us, "SHR") || starts_with_str(us, "SUBN") || starts_with_str(us, "SHL")
        || starts_with_str(us, "RND") || starts_with_str(us, "DRW") || starts_with_str(us, "SKP")
        || starts_with_str(us, "SKNP")
}

/// Classifies a line as a label line.
pub fn is_label(ln: &str) -> (r: bool)
    ensures
        r == is_label_spec(ln@),
{
    let code = trim_str(before_comment_str(ln));
    code.unicode_len() > 0 && !is_instr_line(ln)
}

/// The mnemonic token of a line: its upper-cased code up to the first
/// space.
pub open spec fn mnemonic_of(ln: Seq<char>) -> Seq<char> {
    let u = line_clean(ln);
    u.subrange(0, char_pos(u, 0, ' '))
}

/// The argument text of a line: its upper-cased code after the first
/// space, trimmed; empty when the line has no space.
pub open spec fn args_of(ln: Seq<char>) -> Seq<char> {
    let u = line_clean(ln);
    let p = char_pos(u, 0, ' ');
    if p == u.len() {
        Seq::empty()
    } else {
        trim(u.subrange(p + 1, u.len() as int))
    }
}

/// What parsing a whole source line yields: the instruction when the
/// mnemonic is known and the operand shape accepted, the operand-shape
/// error with the argument text when it is not, and the unknown-mnemonic
/// error with the whole line when the first token matches no mnemonic.
pub open spec fn line_parse(ln: Seq<char>) -> Result<InstrModel, (ErrorKind, Seq<char>)> {
    let m = mnemonic_of(ln);
    let a = args_of(ln);
    if m == "JP"@ {
        if flow::Jump::parse_ok(a) {
            Ok(InstrModel::Jump(args2_model(a).0, args2_model(a).1))
        } else {
            Err((ErrorKind::OperandShape, a))
        }
    } else if m == "CALL"@ {
        if flow::Call::parse_ok(a) {
            Ok(InstrModel::Call(arg1_model(a)))
        } else {
            Err((ErrorKind::OperandShape, a))
        }
    } else if m == "RET"@ {
        if flow::Return::parse_ok(a) {
            Ok(InstrModel::Return)
        } else {
            Err((ErrorKind::OperandShape, a))
        }
    } else if m == "SE"@ {
        if flow::SkipIfEqual::parse_ok(a) {
            Ok(InstrModel::SkipIfEqual(args2_model(a).0, args2_model(a).1))
        } else {
            Err((ErrorKind::OperandShape, a))
        }
    } else if m == "SNE"@ {
        if flow::SkipIfNotEqual::parse_ok(a) {
            Ok(InstrModel::SkipIfNotEqual(args2_model(a).0, args2_model(a).1))
        } else {
            Err((ErrorKind::OperandShape, a))
        }
    } else if m == "SKP"@ {
        if flow::SkipIfKey::parse_ok(a) {
            Ok(InstrModel::SkipIfKey(arg1_model(a)))
        } else {
            Err((ErrorKind::OperandShape, a))
        }
    } else if m == "SKNP"@ {
        if flow::SkipIfNotKey::parse_ok(a) {
            Ok(InstrModel::SkipIfNotKey(arg1_model(a)))
        } else {
            Err((ErrorKind::OperandShape, a))
        }
    } else if m == "LD"@ {
        if loads::Load::parse_ok(a) {
            Ok(InstrModel::Load(args2_model(a).0, args2_model(a).1))
        } else {
            Err((ErrorKind::OperandShape, a))
        }
    } else if m == "AND"@ {
        if bitops::And::parse_ok(a) {
            Ok(InstrModel::And(args2_model(a).0, args2_model(a).1))
        } else {
            Err((ErrorKind::OperandShape, a))
        }
    } else if m == "OR"@ {
        if bitops::Or::parse_ok(a) {
            Ok(InstrModel::Or(args2_model(a).0, args2_model(a).1))
        } else {
            Err((ErrorKind::OperandShape, a))
        }
    } else if m == "XOR"@ {
        if bitops::Xor::parse_ok(a) {
            Ok(InstrModel::Xor(args2_model(a).0, args2_model(a).1))
        } else {
            Err((ErrorKind::OperandShape, a))
        }
    } else if m == "RND"@ {
        if bitops::Rand::parse_ok(a) {
            Ok(
                InstrModel::Rand(
                    bitops::Rand::normalize(args2_model(a).0, args2_model(a).1).0,
                    bitops::Rand::normalize(args2_model(a).0, args2_model(a).1).1,
                ),
            )
        } else {
            Err((ErrorKind::OperandShape, a))
        }
    } else if m == "SHL"@ {
        if bitops::ShiftLeft::parse_ok(a) {
            Ok(
                InstrModel::ShiftLeft(
                    bitops::ShiftLeft::normalize(args2_model(a).0, args2_model(a).1).0,
                    bitops::ShiftLeft::normalize(args2_model(a).0, args2_model(a).1).1,
                ),
            )
        } else {
            Err((ErrorKind::OperandShape, a))
        }
    } else if m == "SHR"@ {
        if bitops::ShiftRight::parse_ok(a) {
            Ok(
                InstrModel::ShiftRight(
                    bitops::ShiftRight::normalize(args2_model(a).0, args2_model(a).1).0,
                    bitops::ShiftRight::normalize(args2_model(a).0, args2_model(a).1).1,
                ),
            )
        } else {
            Err((ErrorKind::OperandShape, a))
        }
    } else if m == "CLS"@ {
        if display::ClearScreen::parse_ok(a) {
            Ok(InstrModel::ClearScreen)
        } else {
            Err((ErrorKind::OperandShape, a))
        }
    } else if m == "DRW"@ {
        if display::Draw::parse_ok(a) {
            Ok(InstrModel::Draw(args3_model(a).0, args3_model(a).1, args3_model(a).2))
        } else {
            Err((ErrorKind::OperandShape, a))
        }
    } else if m == "ADD"@ {
        if math::Add::parse_ok(a) {
            Ok(InstrModel::Add(args2_model(a).0, args2_model(a).1))
        } else {
            Err((ErrorKind::OperandShape, a))
        }
    } else if m == "SUB"@ {
        if math::Sub::parse_ok(a) {
            Ok(InstrModel::Sub(args2_model(a).0, args2_model(a).1))
        } else {
            Err((ErrorKind::OperandShape, a))
        }
    } else if m == "SUBN"@ {
        if math::SubN::parse_ok(a) {
            Ok(InstrModel::SubN(args2_model(a).0, args2_model(a).1))
        } else {
            Err((ErrorKind::OperandShape, a))
        }
    } else {
        Err((ErrorKind::UnknownMnemonic, ln))
    }
}

/// The first operand of a resolved instruction that still holds a label
/// reference, left to right, if any does.
pub open spec fn instr_unresolved(v: InstrModel) -> Option<Seq<char>> {
    match v {
        InstrModel::Jump(d, s) => if d is Label {
            label_of(d)
        } else {
            label_of(s)
        },
        InstrModel::Call(d) => label_of(d),
        InstrModel::Return => None,
        InstrModel::SkipIfEqual(d, s) => if d is Label {
            label_of(d)
        } else {
            label_of(s)
        },
        InstrModel::SkipIfNotEqual(d, s) => if d is Label {
            label_of(d)
        } else {
            label_of(s)
        },
        InstrModel::SkipIfKey(d) => label_of(d),
        InstrModel::SkipIfNotKey(d) => label_of(d),
        InstrModel::Load(d, s) => if d is Label {
            label_of(d)
        } else {
            label_of(s)
        },
        InstrModel::And(d, s) => if d is Label {
            label_of(d)
        } else {
            label_of(s)
        },
        InstrModel::Or(d, s) => if d is Label {
            label_of(d)
        } else {
            label_of(s)
        },
        InstrModel::Xor(d, s) => if d is Label {
            label_of(d)
        } else {
            label_of(s)
        },
        InstrModel::Rand(d, s) => if d is Label {
            label_of(d)
        } else {
            label_of(s)
        },
        InstrModel::ShiftLeft(d, s) => if d is Label {
            label_of(d)
        } else {
            label_of(s)
        },
        InstrModel::ShiftRight(d, s) => if d is Label {
            label_of(d)
        } else {
            label_of(s)
        },
        InstrModel::ClearScreen => None,
        InstrModel::Draw(x, y, l) => if x is Label {
            label_of(x)
        } else if y is Label {
            label_of(y)
        } else {
            label_of(l)
        },
        InstrModel::Add(d, s) => if d is Label {
            label_of(d)
        } else {
            label_of(s)
        },
        InstrModel::Sub(d, s) => if d is Label {
            label_of(d)
        } else {
            label_of(s)
        },
        InstrModel::SubN(d, s) => if d is Label {
            label_of(d)
        } else {
            label_of(s)
        },
    }
}

/// Label resolution over the instruction model: jumps, calls and loads may
/// carry label references; every other family is left unchanged.
pub open spec fn instr_resolve(v: InstrModel, m: Map<Seq<char>, u16>) -> InstrModel {
    match v {
        InstrModel::Jump(d, s) => InstrModel::Jump(subst_op(d, m), subst_op(s, m)),
        InstrModel::Call(d) => InstrModel::Call(subst_op(d, m)),
        InstrModel::Load(d, s) => InstrModel::Load(d, subst_op(s, m)),
        other => other,
    }
}

/// Whether a resolved instruction's operand shape encodes.
pub open spec fn instr_encodable(v: InstrModel) -> bool {
    match v {
        InstrModel::Jump(d, s) => flow::Jump::shape_encodable(d, s),
        InstrModel::Call(d) => d is Variable,
        InstrModel::Return => true,
        InstrModel::SkipIfEqual(d, s) => flow::SkipIfEqual::shape_ok(d, s),
        InstrModel::SkipIfNotEqual(d, s) => flow::SkipIfNotEqual::shape_ok(d, s),
        InstrModel::SkipIfKey(d) => d is Register,
        InstrModel::SkipIfNotKey(d) => d is Register,
        InstrModel::Load(d, s) => loads::Load::shape_encodable(d, s),
        InstrModel::And(d, s) => d is Register && s is Register,
        InstrModel::Or(d, s) => d is Register && s is Register,
        InstrModel::Xor(d, s) => d is Register && s is Register,
        InstrModel::Rand(d, s) => d is Register && s is Variable,
        InstrModel::ShiftLeft(d, s) => d is Register && s is Register,
        InstrModel::ShiftRight(d, s) => d is Register && s is Register,
        InstrModel::ClearScreen => true,
        InstrModel::Draw(x, y, l) => display::Draw::shape_ok(x, y, l),
        InstrModel::Add(d, s) => math::Add::shape_ok(d, s),
        InstrModel::Sub(d, s) => d is Register && s is Register,
        InstrModel::SubN(d, s) => d is Register && s is Register,
    }
}

/// The opcode of a resolved, encodable instruction.
pub open spec fn instr_opcode(v: InstrModel) -> u16 {
    match v {
        InstrModel::Jump(d, s) => flow::Jump::opcode_of(d, s),
        InstrModel::Call(d) => flow::Call::opcode_of(d),
        InstrModel::Return => 0x00EE,
        InstrModel::SkipIfEqual(d, s) => flow::SkipIfEqual::opcode_of(d, s),
        InstrModel::SkipIfNotEqual(d, s) => flow::SkipIfNotEqual::opcode_of(d, s),
        InstrModel::SkipIfKey(d) => flow::SkipIfKey::opcode_of(d),
        InstrModel::SkipIfNotKey(d) => flow::SkipIfNotKey::opcode_of(d),
        InstrModel::Load(d, s) => loads::Load::opcode_of(d, s),
        InstrModel::And(d, s) => bitops::And::opcode_of(d, s),
        InstrModel::Or(d, s) => bitops::Or::opcode_of(d, s),
        InstrModel::Xor(d, s) => bitops::Xor::opcode_of(d, s),
        InstrModel::Rand(d, s) => bitops::Rand::opcode_of(d, s),
        InstrModel::ShiftLeft(d, s) => bitops::ShiftLeft::opcode_of(d, s),
        InstrModel::ShiftRight(d, s) => bitops::ShiftRight::opcode_of(d, s),
        InstrModel::ClearScreen => 0x00E0,
        InstrModel::Draw(x, y, l) => display::Draw::opcode_of(x, y, l),
        InstrModel::Add(d, s) => math::Add::opcode_of(d, s),
        InstrModel::Sub(d, s) => math::Sub::opcode_of(d, s),
        InstrModel::SubN(d, s) => math::SubN::opcode_of(d, s),
    }
}

/// Dispatch for the mnemonics after the control-flow group; the argument
/// text is already split off.
fn parse_dispatch_data(ln: &str, m: &str, a: &str) -> (r: Result<Instruction, ParseError>)
    requires
        m@ == mnemonic_of(ln@),
        a@ == args_of(ln@),
        m@ != "JP"@,
        m@ != "CALL"@,
        m@ != "RET"@,
        m@ != "SE"@,
        m@ != "SNE"@,
        m@ != "SKP"@,
        m@ != "SKNP"@,
    ensures
        match r {
            Ok(i) => line_parse(ln@) == Ok::<InstrModel, (ErrorKind, Seq<char>)>(i@),
            Err(e) => line_parse(ln@) matches Err(p) && e.kind == p.0 && e.line@ == p.1,
        },
{
    if eq_str(m, "LD") {
        match loads::Load::parse_args(a) {
            Ok(i) => Ok(Instruction::Load(i)),
            Err(e) => Err(e),
        }
    } else if eq_str(m, "AND") {
        match bitops::And::parse_args(a) {
            Ok(i) => Ok(Instruction::And(i)),
            Err(e) => Err(e),
        }
    } else if eq_str(m, "OR") {
        match bitops::Or::parse_args(a) {
            Ok(i) => Ok(Instruction::Or(i)),
            Err(e) => Err(e),
        }
    } else if eq_str(m, "XOR") {
        match bitops::Xor::parse_args(a) {
            Ok(i) => Ok(Instruction::Xor(i)),
            Err(e) => Err(e),
        }
    } else if eq_str(m, "RND") {
        match bitops::Rand::parse_args(a) {
            Ok(i) => Ok(Instruction::Rand(i)),
            Err(e) => Err(e),
        }
    } else if eq_str(m, "SHL") {
        match bitops::ShiftLeft::parse_args(a) {
            Ok(i) => Ok(Instruction::ShiftLeft(i)),
            Err(e) => Err(e),
        }
    } else if eq_str(m, "SHR") {
        match bitops::ShiftRight::parse_args(a) {
            Ok(i) => Ok(Instruction::ShiftRight(i)),
            Err(e) => Err(e),
        }
    } else {
        parse_dispatch_math(ln, m, a)
    }
}

/// Dispatch for the display and arithmetic mnemonics, and the
/// unknown-mnemonic error.
fn parse_dispatch_math(ln: &str, m: &str, a: &str) -> (r: Result<Instruction, ParseError>)
    requires
        m@ == mnemonic_of(ln@),
        a@ == args_of(ln@),
        m@ != "JP"@,
        m@ != "CALL"@,
        m@ != "RET"@,
        m@ != "SE"@,
        m@ != "SNE"@,
        m@ != "SKP"@,
        m@ != "SKNP"@,
        m@ != "LD"@,
        m@ != "AND"@,
        m@ != "OR"@,
        m@ != "XOR"@,
        m@ != "RND"@,
        m@ != "SHL"@,
        m@ != "SHR"@,
    ensures
        match r {
            Ok(i) => line_parse(ln@) == Ok::<InstrModel, (ErrorKind, Seq<char>)>(i@),
            Err(e) => line_parse(ln@) matches Err(p) && e.kind == p.0 && e.line@ == p.1,
        },
{
    if eq_str(m, "CLS") {
        match display::ClearScreen::parse_args(a) {
            Ok(i) => Ok(Instruction::ClearScreen(i)),
            Err(e) => Err(e),
        }
    } else if eq_str(m, "DRW") {
        match display::Draw::parse_args(a) {
            Ok(i) => Ok(Instruction::Draw(i)),
            Err(e) => Err(e),
        }
    } else if eq_str(m, "ADD") {
        match math::Add::parse_args(a) {
            Ok(i) => Ok(Instruction::Add(i)),
            Err(e) => Err(e),
        }
    } else if eq_str(m, "SUB") {
        match math::Sub::parse_args(a) {
            Ok(i) => Ok(Instruction::Sub(i)),
            Err(e) => Err(e),
        }
    } else if eq_str(m, "SUBN") {
        match math::SubN::parse_args(a) {
            Ok(i) => Ok(Instruction::SubN(i)),
            Err(e) => Err(e),
        }
    } else {
        Err(ParseError { kind: ErrorKind::UnknownMnemonic, line: ln.to_owned() })
    }
}

impl InstructionOps for Instruction {
    open spec fn parse_ok(ln: Seq<char>) -> bool {
        line_parse(ln) is Ok
    }

    open spec fn parses_to(ln: Seq<char>, r: Instruction) -> bool {
        line_parse(ln) == Ok::<InstrModel, (ErrorKind, Seq<char>)>(r@)
    }

    open spec fn parse_err(ln: Seq<char>) -> (ErrorKind, Seq<char>) {
        match line_parse(ln) {
            Err(e) => e,
            Ok(_) => (ErrorKind::OperandShape, ln),
        }
    }

    open spec fn encodable(&self) -> bool {
        instr_encodable(self@)
    }

    open spec fn opcode_spec(&self) -> u16 {
        instr_opcode(self@)
    }

    /// Parses a whole source line: strips its comment, trims and
    /// upper-cases it, splits the mnemonic from the argument text at the
    /// first space, and dispatches to the mnemonic's catalog entry.
    fn parse_args(ln: &str) -> (r: Result<Instruction, ParseError>) {
        let code = trim_str(before_comment_str(ln));
        let u = upper_str(code);
        let us = u.as_str();
        let n = us.unicode_len();
        let p = find_char(us, 0, ' ');
        proof {
            lemma_char_pos_range(us@, 0, ' ');
        }
        let m = us.substring_char(0, p);
        let a = if p == n {
            let e = us.substring_char(n, n);
            proof {
                assert(e@ =~= Seq::<char>::empty());
            }
            e
        } else {
            trim_str(us.substring_char(p + 1, n))
        };
        if eq_str(m, "JP") {
            match flow::Jump::parse_args(a) {
                Ok(i) => Ok(Instruction::Jump(i)),
                Err(e) => Err(e),
            }
        } else if eq_str(m, "CALL") {
            match flow::Call::parse_args(a) {
                Ok(i) => Ok(Instruction::Call(i)),
                Err(e) => Err(e),
            }
        } else if eq_str(m, "RET") {
            match flow::Return::parse_args(a) {
                Ok(i) => Ok(Instruction::Return(i)),
                Err(e) => Err(e),
            }
        } else if eq_str(m, "SE") {
            match flow::SkipIfEqual::parse_args(a) {
                Ok(i) => Ok(Instruction::SkipIfEqual(i)),
                Err(e) => Err(e),
            }
        } else if eq_str(m, "SNE") {
            match flow::SkipIfNotEqual::parse_args(a) {
                Ok(i) => Ok(Instruction::SkipIfNotEqual(i)),
                Err(e) => Err(e),
            }
        } else if eq_str(m, "SKP") {
            match flow::SkipIfKey::parse_args(a) {
                Ok(i) => Ok(Instruction::SkipIfKey(i)),
                Err(e) => Err(e),
            }
        } else if eq_str(m, "SKNP") {
            match flow::SkipIfNotKey::parse_args(a) {
                Ok(i) => Ok(Instruction::SkipIfNotKey(i)),
                Err(e) => Err(e),
            }
        } else {
            parse_dispatch_data(ln, m, a)
        }
    }

    fn to_opcode(&self) -> (r: u16) {
        match self {
            Instruction::Jump(i) => i.to_opcode(),
            Instruction::Call(i) => i.to_opcode(),
            Instruction::Return(i) => i.to_opcode(),
            Instruction::SkipIfEqual(i) => i.to_opcode(),
            Instruction::SkipIfNotEqual(i) => i.to_opcode(),
            Instruction::SkipIfKey(i) => i.to_opcode(),
            Instruction::SkipIfNotKey(i) => i.to_opcode(),
            Instruction::Load(i) => i.to_opcode(),
            Instruction::And(i) => i.to_opcode(),
            Instruction::Or(i) => i.to_opcode(),
            Instruction::Xor(i) => i.to_opcode(),
            Instruction::Rand(i) => i.to_opcode(),
            Instruction::ShiftLeft(i) => i.to_opcode(),
            Instruction::ShiftRight(i) => i.to_opcode(),
            Instruction::ClearScreen(i) => i.to_opcode(),
            Instruction::Draw(i) => i.to_opcode(),
            Instruction::Add(i) => i.to_opcode(),
            Instruction::Sub(i) => i.to_opcode(),
            Instruction::SubN(i) => i.to_opcode(),
        }
    }
}

impl InstructionOpsWithLabels for Instruction {
    open spec fn resolves_to(&self, m: Map<Seq<char>, u16>, r: Instruction) -> bool {
        r@ == instr_resolve(self@, m)
    }

    fn resolve_labels(self, labels: &SymbolTable) -> (r: Instruction) {
        match self {
            Instruction::Jump(i) => Instruction::Jump(i.resolve_labels(labels)),
            Instruction::Call(i) => Instruction::Call(i.resolve_labels(labels)),
            Instruction::Load(i) => Instruction::Load(i.resolve_labels(labels)),
            other => other,
        }
    }
}

impl Instruction {
    /// The first operand that is still a label reference, if any remains.
    pub fn unresolved_label(&self) -> (r: Option<&String>)
        ensures
            match r {
                Some(s) => instr_unresolved(self@) == Some(s@),
                None => instr_unresolved(self@) is None,
            },
    {
        match self {
            Instruction::Jump(i) => match op_label(&i.0) {
                Some(s) => Some(s),
                None => op_label(&i.1),
            },
            Instruction::Call(i) => op_label(&i.0),
            Instruction::Return(_) => None,
            Instruction::SkipIfEqual(i) => match op_label(&i.0) {
                Some(s) => Some(s),
                None => op_label(&i.1),
            },
            Instruction::SkipIfNotEqual(i) => match op_label(&i.0) {
                Some(s) => Some(s),
                None => op_label(&i.1),
            },
            Instruction::SkipIfKey(i) => op_label(&i.0),
            Instruction::SkipIfNotKey(i) => op_label(&i.0),
            Instruction::Load(i) => match op_label(&i.dest) {
                Some(s) => Some(s),
                None => op_label(&i.source),
            },
            Instruction::And(i) => match op_label(&i.acc) {
                Some(s) => Some(s),
                None => op_label(&i.reg),
            },
            Instruction::Or(i) => match op_label(&i.acc) {
                Some(s) => Some(s),
                None => op_label(&i.reg),
            },
            Instruction::Xor(i) => match op_label(&i.acc) {
                Some(s) => Some(s),
                None => op_label(&i.reg),
            },
            Instruction::Rand(i) => match op_label(&i.reg) {
                Some(s) => Some(s),
                None => op_label(&i.mask),
            },
            Instruction::ShiftLeft(i) => match op_label(&i.acc) {
                Some(s) => Some(s),
                None => op_label(&i.usually_unused),
            },
            Instruction::ShiftRight(i) => match op_label(&i.acc) {
                Some(s) => Some(s),
                None => op_label(&i.usually_unused),
            },
            Instruction::ClearScreen(_) => None,
            Instruction::Draw(i) => match op_label(&i.xreg) {
                Some(s) => Some(s),
                None => match op_label(&i.yreg) {
                    Some(s) => Some(s),
                    None => op_label(&i.length),
                },
            },
            Instruction::Add(i) => match op_label(&i.acc) {
                Some(s) => Some(s),
                None => op_label(&i.to_add),
            },
            Instruction::Sub(i) => match op_label(&i.acc) {
                Some(s) => Some(s),
                None => op_label(&i.reg),
            },
            Instruction::SubN(i) => match op_label(&i.acc) {
                Some(s) => Some(s),
                None => op_label(&i.reg),
            },
        }
    }
}

/// How many lines of the source are instruction lines.
pub open spec fn instr_line_count(ls: Seq<Seq<char>>) -> nat
    decreases ls.len(),
{
    if ls.len() == 0 {
        0
    } else {
        (if is_instr_spec(ls[0]) {
            1nat
        } else {
            0nat
        }) + instr_line_count(ls.drop_first())
    }
}

/// The label resolver's single scan: the offset starts at the base
/// address, advances by exactly two for every instruction line, and each
/// label line records its code as resolving to the current offset.
pub open spec fn scan_lines(ls: Seq<Seq<char>>, off: int, acc: Map<Seq<char>, u16>) -> Map<
    Seq<char>,
    u16,
>
    decreases ls.len(),
{
    if ls.len() == 0 {
        acc
    } else if is_instr_spec(ls[0]) {
        scan_lines(ls.drop_first(), off + 2, acc)
    } else if is_label_spec(ls[0]) {
        scan_lines(ls.drop_first(), off, acc.insert(line_code(ls[0]), off as u16))
    } else {
        scan_lines(ls.drop_first(), off, acc)
    }
}

/// The symbol table a source resolves to.
pub open spec fn labels_spec(src: Seq<char>) -> Map<Seq<char>, u16> {
    scan_lines(split_lines(src), 0x200, Map::empty())
}

/// Builds the symbol table: one scan over the source lines, starting at
/// the base address 0x200 and advancing by two per instruction line.
pub fn parse_labels(file: &str) -> (r: SymbolTable)
    requires
        0x200 + 2 * instr_line_count(split_lines(file@)) <= 0xFFFF,
    ensures
        r@ == labels_spec(file@),
{
    let lines = lines_of(file);
    let ghost ls = split_lines(file@);
    let mut map = SymbolTable::new();
    let mut offset: u16 = 0x200;
    let mut i: usize = 0;
    proof {
        assert(ls.skip(0) =~= ls);
    }
    while i < lines.len()
        invariant
            lines@.len() == ls.len(),
            forall|k: int| 0 <= k < ls.len() ==> lines@[k]@ == ls[k],
            i <= lines@.len(),
            offset as int + 2 * instr_line_count(ls.skip(i as int)) <= 0xFFFF,
            0x200 <= offset,
            scan_lines(ls, 0x200, Map::empty()) == scan_lines(ls.skip(i as int), offset as int, map@),
        decreases lines@.len() - i,
    {
        let ln = lines[i];
        let ghost rest = ls.skip(i as int);
        proof {
            assert(rest[0] == ls[i as int]);
            assert(rest.drop_first() =~= ls.skip(i as int + 1));
        }
        if is_instr_line(ln) {
            offset = offset + 2;
        } else if is_label(ln) {
            let key = trim_str(before_comment_str(ln)).to_owned();
            map.insert(key, offset);
        }
        i = i + 1;
    }
    proof {
        assert(ls.skip(ls.len() as int) =~= Seq::<Seq<char>>::empty());
    }
    map
}

/// The two bytes of an opcode, most significant first.
pub open spec fn opcode_bytes(w: u16) -> Seq<u8> {
    seq![(w >> 8) as u8, (w & 0xFF) as u8]
}

/// The byte stream the second pass emits: blank, comment-only and label
/// lines produce nothing; each instruction line is parsed, resolved
/// against the table, checked for a leftover label reference and encoded
/// as two bytes. Any failure aborts the whole run with that line's error.
pub open spec fn emit_lines(ls: Seq<Seq<char>>, m: Map<Seq<char>, u16>) -> Result<
    Seq<u8>,
    (ErrorKind, Seq<char>),
>
    decreases ls.len(),
{
    if ls.len() == 0 {
        Ok(Seq::empty())
    } else if !is_instr_spec(ls[0]) {
        emit_lines(ls.drop_first(), m)
    } else {
        match line_parse(ls[0]) {
            Err(e) => Err(e),
            Ok(v) => {
                let rv = instr_resolve(v, m);
                match instr_unresolved(rv) {
                    Some(name) => Err((ErrorKind::UnresolvedLabel, name)),
                    None => match emit_lines(ls.drop_first(), m) {
                        Err(e) => Err(e),
                        Ok(tail) => Ok(opcode_bytes(instr_opcode(rv)) + tail),
                    },
                }
            },
        }
    }
}

/// What assembling a whole source yields: the concatenated big-endian
/// opcodes of its instruction lines in source order, or the first fatal
/// error.
pub open spec fn assemble_spec(src: Seq<char>) -> Result<Seq<u8>, (ErrorKind, Seq<char>)> {
    emit_lines(split_lines(src), labels_spec(src))
}

spec fn prepend_bytes(b: Seq<u8>, r: Result<Seq<u8>, (ErrorKind, Seq<char>)>) -> Result<
    Seq<u8>,
    (ErrorKind, Seq<char>),
> {
    match r {
        Ok(t) => Ok(b + t),
        Err(e) => Err(e),
    }
}

/// The operand shapes that parsing can produce, after default-operand
/// elision.
pub open spec fn instr_parsed_shape(v: InstrModel) -> bool {
    match v {
        InstrModel::Jump(d, s) => flow::Jump::shape_ok(d, s),
        InstrModel::Call(d) => flow::Call::shape_ok(d),
        InstrModel::Return => true,
        InstrModel::SkipIfEqual(d, s) => flow::SkipIfEqual::shape_ok(d, s),
        InstrModel::SkipIfNotEqual(d, s) => flow::SkipIfNotEqual::shape_ok(d, s),
        InstrModel::SkipIfKey(d) => d is Register,
        InstrModel::SkipIfNotKey(d) => d is Register,
        InstrModel::Load(d, s) => loads::Load::shape_ok(d, s),
        InstrModel::And(d, s) => d is Register && s is Register,
        InstrModel::Or(d, s) => d is Register && s is Register,
        InstrModel::Xor(d, s) => d is Register && s is Register,
        InstrModel::Rand(d, s) => d is Register && s is Variable,
        InstrModel::ShiftLeft(d, s) => d is Register && s is Register,
        InstrModel::ShiftRight(d, s) => d is Register && s is Register,
        InstrModel::ClearScreen => true,
        InstrModel::Draw(x, y, l) => display::Draw::shape_ok(x, y, l),
        InstrModel::Add(d, s) => math::Add::shape_ok(d, s),
        InstrModel::Sub(d, s) => d is Register && s is Register,
        InstrModel::SubN(d, s) => d is Register && s is Register,
    }
}

/// Every instruction that parsing yields has one of the accepted operand
/// shapes, with default operands already filled in.
pub proof fn lemma_line_parse_shape(ln: Seq<char>, v: InstrModel)
    requires
        line_parse(ln) == Ok::<InstrModel, (ErrorKind, Seq<char>)>(v),
    ensures
        instr_parsed_shape(v),
{
}

/// Encoding is total over every shape that parsing accepts, once label
/// resolution has replaced all symbolic references: such an instruction
/// always encodes.
pub proof fn lemma_parse_resolve_encodable(ln: Seq<char>, v: InstrModel, m: Map<Seq<char>, u16>)
    requires
        line_parse(ln) == Ok::<InstrModel, (ErrorKind, Seq<char>)>(v),
        instr_unresolved(instr_resolve(v, m)) is None,
    ensures
        instr_encodable(instr_resolve(v, m)),
{
    lemma_line_parse_shape(ln, v);
}

/// The resolver's location counter after scanning the given lines from
/// offset `off`: it moves only at instruction lines, by two.
pub open spec fn scan_offset(ls: Seq<Seq<char>>, off: int) -> int
    decreases ls.len(),
{
    if ls.len() == 0 {
        off
    } else if is_instr_spec(ls[0]) {
        scan_offset(ls.drop_first(), off + 2)
    } else {
        scan_offset(ls.drop_first(), off)
    }
}

/// The resolver's final offset is its start plus exactly two for every
/// instruction line: over K instruction lines, and any number of label or
/// ignored lines, the counter ends at `off + 2 * K`.
pub proof fn lemma_resolver_final_offset(ls: Seq<Seq<char>>, off: int)
    ensures
        scan_offset(ls, off) == off + 2 * instr_line_count(ls),
    decreases ls.len(),
{
    if ls.len() > 0 {
        if is_instr_spec(ls[0]) {
            lemma_resolver_final_offset(ls.drop_first(), off + 2);
        } else {
            lemma_resolver_final_offset(ls.drop_first(), off);
        }
    }
}

proof fn lemma_scan_preserves(ls: Seq<Seq<char>>, off: int, acc: Map<Seq<char>, u16>, k: Seq<char>)
    requires
        acc.dom().contains(k),
        forall|j: int|
            0 <= j < ls.len() ==> !(is_label_spec(#[trigger] ls[j]) && line_code(ls[j]) == k),
    ensures
        scan_lines(ls, off, acc).dom().contains(k),
        scan_lines(ls, off, acc)[k] == acc[k],
    decreases ls.len(),
{
    if ls.len() > 0 {
        let rest = ls.drop_first();
        assert(forall|j: int|
            0 <= j < rest.len() ==> !(is_label_spec(#[trigger] rest[j]) && line_code(rest[j])
                == k));
        if is_instr_spec(ls[0]) {
            lemma_scan_preserves(rest, off + 2, acc, k);
        } else if is_label_spec(ls[0]) {
            lemma_scan_preserves(rest, off, acc.insert(line_code(ls[0]), off as u16), k);
        } else {
            lemma_scan_preserves(rest, off, acc, k);
        }
    }
}

proof fn lemma_scan_label_address(ls: Seq<Seq<char>>, i: int, off: int, acc: Map<Seq<char>, u16>)
    requires
        0 <= i < ls.len(),
        is_label_spec(ls[i]),
        forall|j: int|
            i < j < ls.len() ==> !(is_label_spec(#[trigger] ls[j]) && line_code(ls[j]) == line_code(
                ls[i],
            )),
        0 <= off,
        off + 2 * instr_line_count(ls) <= 0xFFFF,
    ensures
        scan_lines(ls, off, acc).dom().contains(line_code(ls[i])),
        scan_lines(ls, off, acc)[line_code(ls[i])] as int == off + 2 * instr_line_count(
            ls.take(i),
        ),
    decreases i,
{
    let rest = ls.drop_first();
    if i == 0 {
        assert(ls.take(0) =~= Seq::<Seq<char>>::empty());
        let acc2 = acc.insert(line_code(ls[0]), off as u16);
        assert(forall|j: int|
            0 <= j < rest.len() ==> !(is_label_spec(#[trigger] rest[j]) && line_code(rest[j])
                == line_code(ls[0])));
        lemma_scan_preserves(rest, off, acc2, line_code(ls[0]));
    } else {
        assert(ls.take(i)[0] == ls[0]);
        assert(ls.take(i).drop_first() =~= rest.take(i - 1));
        assert(rest[i - 1] == ls[i]);
        assert(forall|j: int|
            i - 1 < j < rest.len() ==> !(is_label_spec(#[trigger] rest[j]) && line_code(rest[j])
                == line_code(rest[i - 1])));
        if is_instr_spec(ls[0]) {
            lemma_scan_label_address(rest, i - 1, off + 2, acc);
        } else if is_label_spec(ls[0]) {
            lemma_scan_label_address(rest, i - 1, off, acc.insert(line_code(ls[0]), off as u16));
        } else {
            lemma_scan_label_address(rest, i - 1, off, acc);
        }
    }
}

/// A label line resolves to the address of the next instruction line: the
/// base address plus two bytes for every instruction line before it. A
/// label before the very first instruction line therefore resolves to
/// 0x200, and a forward reference resolves to the address of the first
/// instruction line after the label, whether the label was defined before
/// or after the reference.
pub proof fn lemma_label_resolves_to_next_instruction(src: Seq<char>, i: int)
    requires
        0 <= i < split_lines(src).len(),
        is_label_spec(split_lines(src)[i]),
        forall|j: int|
            i < j < split_lines(src).len() ==> !(is_label_spec(#[trigger] split_lines(src)[j])
                && line_code(split_lines(src)[j]) == line_code(split_lines(src)[i])),
        0x200 + 2 * instr_line_count(split_lines(src)) <= 0xFFFF,
    ensures
        labels_spec(src).dom().contains(line_code(split_lines(src)[i])),
        labels_spec(src)[line_code(split_lines(src)[i])] as int == 0x200 + 2 * instr_line_count(
            split_lines(src).take(i),
        ),
{
    lemma_scan_label_address(split_lines(src), i, 0x200, Map::empty());
}

/// The address a label resolves to is exactly the resolver's location
/// counter at its line: the scan offset over the lines before it.
pub proof fn lemma_label_gets_current_offset(src: Seq<char>, i: int)
    requires
        0 <= i < split_lines(src).len(),
        is_label_spec(split_lines(src)[i]),
        forall|j: int|
            i < j < split_lines(src).len() ==> !(is_label_spec(#[trigger] split_lines(src)[j])
                && line_code(split_lines(src)[j]) == line_code(split_lines(src)[i])),
        0x200 + 2 * instr_line_count(split_lines(src)) <= 0xFFFF,
    ensures
        labels_spec(src)[line_code(split_lines(src)[i])] as int == scan_offset(
            split_lines(src).take(i),
            0x200,
        ),
{
    lemma_label_resolves_to_next_instruction(src, i);
    lemma_resolver_final_offset(split_lines(src).take(i), 0x200);
}

proof fn lemma_emit_length(ls: Seq<Seq<char>>, m: Map<Seq<char>, u16>)
    requires
        emit_lines(ls, m) is Ok,
    ensures
        emit_lines(ls, m)->Ok_0.len() == 2 * instr_line_count(ls),
    decreases ls.len(),
{
    if ls.len() > 0 {
        lemma_emit_length(ls.drop_first(), m);
    }
}

/// A successful assembly emits exactly two bytes per instruction line, in
/// source order; a failed one emits nothing at all.
pub proof fn lemma_output_length(src: Seq<char>)
    requires
        assemble_spec(src) is Ok,
    ensures
        assemble_spec(src)->Ok_0.len() == 2 * instr_line_count(split_lines(src)),
{
    lemma_emit_length(split_lines(src), labels_spec(src));
}

/// Whether the assembled program fits the 16-bit address space when
/// loaded at the base address: callers check this before resolving or
/// assembling a source of unknown size.
pub fn program_fits(source: &str) -> (b: bool)
    ensures
        b == (0x200 + 2 * instr_line_count(split_lines(source@)) <= 0xFFFF),
{
    let lines = lines_of(source);
    let ghost ls = split_lines(source@);
    let mut count: usize = 0;
    let mut i: usize = 0;
    proof {
        assert(ls.skip(0) =~= ls);
    }
    while i < lines.len()
        invariant
            lines@.len() == ls.len(),
            forall|k: int| 0 <= k < ls.len() ==> lines@[k]@ == ls[k],
            i <= lines@.len(),
            count <= i,
            instr_line_count(ls) == count + instr_line_count(ls.skip(i as int)),
        decreases lines@.len() - i,
    {
        let ghost rest = ls.skip(i as int);
        proof {
            assert(rest[0] == ls[i as int]);
            assert(rest.drop_first() =~= ls.skip(i as int + 1));
        }
        if is_instr_line(lines[i]) {
            count = count + 1;
        }
        i = i + 1;
    }
    proof {
        assert(ls.skip(ls.len() as int) =~= Seq::<Seq<char>>::empty());
    }
    count <= 0x7EFF
}

/// An encodable instruction holds no label reference: encoding never
/// silently consumes a still-symbolic operand.
pub proof fn lemma_encodable_has_no_label(v: InstrModel)
    requires
        instr_encodable(v),
    ensures
        instr_unresolved(v) is None,
{
}

/// Translates a source text: resolves labels in one pass, then parses,
/// resolves and encodes every instruction line in order, emitting two
/// big-endian bytes per instruction; the first operand-shape error,
/// unknown mnemonic or unresolved label aborts the run with no output.
pub fn assemble(source: &str) -> (r: Result<Vec<u8>, ParseError>)
    requires
        0x200 + 2 * instr_line_count(split_lines(source@)) <= 0xFFFF,
    ensures
        match r {
            Ok(bytes) => assemble_spec(source@) == Ok::<Seq<u8>, (ErrorKind, Seq<char>)>(bytes@),
            Err(e) => assemble_spec(source@) == Err::<Seq<u8>, (ErrorKind, Seq<char>)>(
                (e.kind, e.line@),
            ),
        },
{
    let table = parse_labels(source);
    let lines = lines_of(source);
    let ghost ls = split_lines(source@);
    let ghost tbl = labels_spec(source@);
    let mut out: Vec<u8> = Vec::new();
    let mut i: usize = 0;
    proof {
        assert(ls.skip(0) =~= ls);
        assert(out@ + emit_lines(ls, tbl)->Ok_0 =~= emit_lines(ls, tbl)->Ok_0);
    }
    while i < lines.len()
        invariant
            ls == split_lines(source@),
            tbl == labels_spec(source@),
            table@ == tbl,
            lines@.len() == ls.len(),
            forall|k: int| 0 <= k < ls.len() ==> lines@[k]@ == ls[k],
            i <= lines@.len(),
            emit_lines(ls, tbl) == prepend_bytes(out@, emit_lines(ls.skip(i as int), tbl)),
        decreases lines@.len() - i,
    {
        let ln = lines[i];
        let ghost rest = ls.skip(i as int);
        let ghost pre = out@;
        proof {
            assert(rest[0] == ls[i as int]);
            assert(rest.drop_first() =~= ls.skip(i as int + 1));
        }
        if is_instr_line(ln) {
            match Instruction::parse_args(ln) {
                Err(e) => {
                    return Err(e);
                },
                Ok(instr) => {
                    let ghost v = instr@;
                    let instr = instr.resolve_labels(&table);
                    match instr.unresolved_label() {
                        Some(name) => {
                            let missing = name.clone();
                            return Err(
                                ParseError { kind: ErrorKind::UnresolvedLabel, line: missing },
                            );
                        },
                        None => {
                            proof {
                                lemma_parse_resolve_encodable(rest[0], v, tbl);
                            }
                            let op = instr.to_opcode();
                            out.push((op >> 8) as u8);
                            out.push((op & 0xFF) as u8);
                            proof {
                                assert(out@ =~= pre + opcode_bytes(instr_opcode(
                                    instr_resolve(v, tbl),
                                )));
                                if emit_lines(rest.drop_first(), tbl) is Ok {
                                    assert(pre + (opcode_bytes(instr_opcode(instr_resolve(v, tbl)))
                                        + emit_lines(rest.drop_first(), tbl)->Ok_0) =~= out@
                                        + emit_lines(rest.drop_first(), tbl)->Ok_0);
                                }
                            }
                        },
                    }
                },
            }
        }
        i = i + 1;
    }
    proof {
        assert(ls.skip(ls.len() as int) =~= Seq::<Seq<char>>::empty());
        assert(out@ + Seq::<u8>::empty() =~= out@);
    }
    Ok(out)
}

} // verus!
