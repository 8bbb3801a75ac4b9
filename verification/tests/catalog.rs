use chip8asm::instructions::bitops::{And, Or, Rand, ShiftLeft, ShiftRight, Xor};
use chip8asm::instructions::display::{ClearScreen, Draw};
use chip8asm::instructions::flow::{
    Call, Jump, Return, SkipIfEqual, SkipIfKey, SkipIfNotEqual, SkipIfNotKey,
};
use chip8asm::instructions::loads::Load;
use chip8asm::instructions::math::{Add, Sub, SubN};
use chip8asm::instructions::parameters::OpParam;
use chip8asm::instructions::{ErrorKind, InstructionOps};

#[test]
fn load_register_to_register() {
    let i = Load::parse_args("V1, V2").unwrap();
    assert_eq!(i.dest, OpParam::Register(1));
    assert_eq!(i.source, OpParam::Register(2));
    assert_eq!(i.to_opcode(), 0x8120);
}

#[test]
fn load_immediate() {
    let i = Load::parse_args("V1, 0x34").unwrap();
    assert_eq!(i.to_opcode(), 0x6134);
}

#[test]
fn load_index_register() {
    let i = Load::parse_args("I, 0x234").unwrap();
    assert_eq!(i.to_opcode(), 0xA234);
}

#[test]
fn load_special_forms() {
    assert_eq!(Load::parse_args("V2, DT").unwrap().to_opcode(), 0xF207);
    assert_eq!(Load::parse_args("V3, K").unwrap().to_opcode(), 0xF30A);
    assert_eq!(Load::parse_args("DT, V4").unwrap().to_opcode(), 0xF415);
    assert_eq!(Load::parse_args("ST, V5").unwrap().to_opcode(), 0xF518);
    assert_eq!(Load::parse_args("F, V6").unwrap().to_opcode(), 0xF629);
    assert_eq!(Load::parse_args("B, V7").unwrap().to_opcode(), 0xF733);
    assert_eq!(Load::parse_args("[I], V8").unwrap().to_opcode(), 0xF855);
    assert_eq!(Load::parse_args("V9, [I]").unwrap().to_opcode(), 0xF965);
}

#[test]
fn load_rejects_bad_shapes() {
    assert_eq!(Load::parse_args("DT, 0x12").unwrap_err().kind, ErrorKind::OperandShape);
    assert_eq!(Load::parse_args("K, V1").unwrap_err().kind, ErrorKind::OperandShape);
    assert_eq!(Load::parse_args("0x12, V1").unwrap_err().kind, ErrorKind::OperandShape);
    assert_eq!(Load::parse_args("").unwrap_err().kind, ErrorKind::OperandShape);
}

#[test]
fn jump_absolute() {
    assert_eq!(Jump::parse_args("0x345").unwrap().to_opcode(), 0x1345);
}

#[test]
fn jump_indexed_through_v0() {
    assert_eq!(Jump::parse_args("V0, 0x345").unwrap().to_opcode(), 0xB345);
}

#[test]
fn jump_rejects_other_registers() {
    assert_eq!(Jump::parse_args("V1, 0x345").unwrap_err().kind, ErrorKind::OperandShape);
    assert_eq!(Jump::parse_args("DT").unwrap_err().kind, ErrorKind::OperandShape);
}

#[test]
fn jump_accepts_label_reference() {
    let i = Jump::parse_args("TARGET").unwrap();
    assert_eq!(i.0, OpParam::Label(String::from("TARGET")));
    assert_eq!(i.1, OpParam::Blank);
}

#[test]
fn call_forms() {
    assert_eq!(Call::parse_args("0x456").unwrap().to_opcode(), 0x2456);
    let i = Call::parse_args("ROUTINE").unwrap();
    assert_eq!(i.0, OpParam::Label(String::from("ROUTINE")));
    assert_eq!(Call::parse_args("V1").unwrap_err().kind, ErrorKind::OperandShape);
}

#[test]
fn skip_if_equal_forms() {
    assert_eq!(SkipIfEqual::parse_args("V1, 0x22").unwrap().to_opcode(), 0x3122);
    assert_eq!(SkipIfEqual::parse_args("V1, V2").unwrap().to_opcode(), 0x5120);
    assert_eq!(SkipIfEqual::parse_args("DT, V1").unwrap_err().kind, ErrorKind::OperandShape);
}

#[test]
fn skip_if_not_equal_forms() {
    assert_eq!(SkipIfNotEqual::parse_args("V1, 0x22").unwrap().to_opcode(), 0x4122);
    assert_eq!(SkipIfNotEqual::parse_args("V1, V2").unwrap().to_opcode(), 0x9120);
    assert_eq!(SkipIfNotEqual::parse_args("0x1, V2").unwrap_err().kind, ErrorKind::OperandShape);
}

#[test]
fn add_forms() {
    assert_eq!(Add::parse_args("V1, 0x05").unwrap().to_opcode(), 0x7105);
    assert_eq!(Add::parse_args("V1, V2").unwrap().to_opcode(), 0x8124);
    assert_eq!(Add::parse_args("I, V3").unwrap().to_opcode(), 0xF31E);
    assert_eq!(Add::parse_args("I, 0x05").unwrap_err().kind, ErrorKind::OperandShape);
}

#[test]
fn bitwise_register_pairs() {
    assert_eq!(Or::parse_args("V1, V2").unwrap().to_opcode(), 0x8121);
    assert_eq!(And::parse_args("V1, V2").unwrap().to_opcode(), 0x8122);
    assert_eq!(Xor::parse_args("V1, V2").unwrap().to_opcode(), 0x8123);
    assert_eq!(Sub::parse_args("V1, V2").unwrap().to_opcode(), 0x8125);
    assert_eq!(SubN::parse_args("V1, V2").unwrap().to_opcode(), 0x8127);
}

#[test]
fn bitwise_reject_constants() {
    assert_eq!(Or::parse_args("V1, 0x02").unwrap_err().kind, ErrorKind::OperandShape);
    assert_eq!(And::parse_args("V1, 0x02").unwrap_err().kind, ErrorKind::OperandShape);
    assert_eq!(Xor::parse_args("V1, 0x02").unwrap_err().kind, ErrorKind::OperandShape);
    assert_eq!(Sub::parse_args("V1, 0x02").unwrap_err().kind, ErrorKind::OperandShape);
    assert_eq!(SubN::parse_args("V1, 0x02").unwrap_err().kind, ErrorKind::OperandShape);
}

#[test]
fn shift_right_one_operand_defaults_to_destination() {
    let one = ShiftRight::parse_args("V3").unwrap();
    let two = ShiftRight::parse_args("V3, V3").unwrap();
    assert_eq!(one.acc, two.acc);
    assert_eq!(one.usually_unused, two.usually_unused);
    assert_eq!(one.to_opcode(), two.to_opcode());
    assert_eq!(one.to_opcode(), 0x8336);
}

#[test]
fn shift_left_one_operand_defaults_to_destination() {
    let one = ShiftLeft::parse_args("V3").unwrap();
    let two = ShiftLeft::parse_args("V3, V3").unwrap();
    assert_eq!(one.acc, two.acc);
    assert_eq!(one.usually_unused, two.usually_unused);
    assert_eq!(one.to_opcode(), two.to_opcode());
    assert_eq!(one.to_opcode(), 0x833E);
}

#[test]
fn shift_two_distinct_registers() {
    assert_eq!(ShiftRight::parse_args("V3, V4").unwrap().to_opcode(), 0x8346);
    assert_eq!(ShiftLeft::parse_args("V3, V4").unwrap().to_opcode(), 0x834E);
    assert_eq!(ShiftRight::parse_args("0x3").unwrap_err().kind, ErrorKind::OperandShape);
}

#[test]
fn rand_mask_defaults_to_full_byte() {
    assert_eq!(Rand::parse_args("V1, 0x0F").unwrap().to_opcode(), 0xC10F);
    assert_eq!(Rand::parse_args("V1").unwrap().to_opcode(), 0xC1FF);
    assert_eq!(Rand::parse_args("V1, V2").unwrap_err().kind, ErrorKind::OperandShape);
}

#[test]
fn draw_takes_three_operands() {
    assert_eq!(Draw::parse_args("V1, V2, 0x5").unwrap().to_opcode(), 0xD125);
    assert_eq!(Draw::parse_args("V1, V2").unwrap_err().kind, ErrorKind::OperandShape);
    assert_eq!(Draw::parse_args("V1, 0x2, 0x5").unwrap_err().kind, ErrorKind::OperandShape);
}

#[test]
fn key_skips() {
    assert_eq!(SkipIfKey::parse_args("V4").unwrap().to_opcode(), 0xE49E);
    assert_eq!(SkipIfNotKey::parse_args("V4").unwrap().to_opcode(), 0xE4A1);
    assert_eq!(SkipIfKey::parse_args("0x4").unwrap_err().kind, ErrorKind::OperandShape);
    assert_eq!(SkipIfNotKey::parse_args("K").unwrap_err().kind, ErrorKind::OperandShape);
}

#[test]
fn nullary_instructions() {
    assert_eq!(ClearScreen::parse_args("").unwrap().to_opcode(), 0x00E0);
    assert_eq!(Return::parse_args("").unwrap().to_opcode(), 0x00EE);
    assert_eq!(ClearScreen::parse_args("V1").unwrap_err().kind, ErrorKind::OperandShape);
    assert_eq!(Return::parse_args("V1").unwrap_err().kind, ErrorKind::OperandShape);
}
