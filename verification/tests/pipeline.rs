use chip8asm::instructions::{
    assemble, is_instr_line, is_label, parse_labels, program_fits, ErrorKind, Instruction,
    InstructionOps,
};

#[test]
fn cls_assembles_to_00e0() {
    assert_eq!(assemble("CLS").unwrap(), vec![0x00, 0xE0]);
}

#[test]
fn ld_immediate_assembles_to_6012() {
    assert_eq!(assemble("LD V0, 0x12").unwrap(), vec![0x60, 0x12]);
}

#[test]
fn lower_case_source_is_folded() {
    assert_eq!(assemble("ld v0, 0x12").unwrap(), vec![0x60, 0x12]);
}

#[test]
fn label_before_first_instruction_resolves_to_base() {
    let table = parse_labels("START\nCLS");
    assert_eq!(table.get("START"), Some(0x200));
}

#[test]
fn adjacent_labels_share_an_address() {
    let table = parse_labels("FIRST\nOTHER\nCLS");
    assert_eq!(table.get("FIRST"), Some(0x200));
    assert_eq!(table.get("OTHER"), Some(0x200));
}

#[test]
fn label_starting_like_a_mnemonic_is_an_instruction_line() {
    // A line that begins with a recognised mnemonic counts as an
    // instruction line even when meant as a label, so it is never
    // recorded in the table.
    let table = parse_labels("SECOND\nCLS");
    assert_eq!(table.get("SECOND"), None);
}

#[test]
fn offset_advances_two_per_instruction_line() {
    let table = parse_labels("CLS\nRET\nCLS\nEND_MARK");
    assert_eq!(table.get("END_MARK"), Some(0x206));
}

#[test]
fn label_lines_do_not_advance_the_offset() {
    let table = parse_labels("CLS\nMIDDLE\n\n// note\nRET\nLAST");
    assert_eq!(table.get("MIDDLE"), Some(0x202));
    assert_eq!(table.get("LAST"), Some(0x204));
}

#[test]
fn unknown_label_is_absent() {
    let table = parse_labels("CLS");
    assert_eq!(table.get("NOWHERE"), None);
}

#[test]
fn forward_reference_resolves_to_next_instruction() {
    let bytes = assemble("JP TARGET\nCLS\nTARGET\nRET").unwrap();
    assert_eq!(bytes, vec![0x12, 0x04, 0x00, 0xE0, 0x00, 0xEE]);
}

#[test]
fn backward_reference_resolves() {
    let bytes = assemble("START\nCLS\nJP START").unwrap();
    assert_eq!(bytes, vec![0x00, 0xE0, 0x12, 0x00]);
}

#[test]
fn call_through_label() {
    let bytes = assemble("CALL ROUTINE\nRET\nROUTINE\nCLS").unwrap();
    assert_eq!(bytes, vec![0x22, 0x04, 0x00, 0xEE, 0x00, 0xE0]);
}

#[test]
fn load_index_through_label() {
    let bytes = assemble("LD I, SPRITE\nRET\nSPRITE\nCLS").unwrap();
    assert_eq!(bytes, vec![0xA2, 0x04, 0x00, 0xEE, 0x00, 0xE0]);
}

#[test]
fn blank_and_comment_lines_emit_nothing() {
    let bytes = assemble("// header\n\n  \nCLS // clear the screen\n").unwrap();
    assert_eq!(bytes, vec![0x00, 0xE0]);
}

#[test]
fn output_holds_two_bytes_per_instruction_line() {
    let bytes = assemble("CLS\nRET\nLD V0, 0x01\nADD V0, 0x02\nRND V3").unwrap();
    assert_eq!(bytes.len(), 10);
}

#[test]
fn unknown_mnemonic_aborts() {
    let err = assemble("ADDX V1, V2").unwrap_err();
    assert_eq!(err.kind, ErrorKind::UnknownMnemonic);
    assert_eq!(err.line, "ADDX V1, V2");
}

#[test]
fn unresolved_label_aborts_with_its_name() {
    let err = assemble("JP NOWHERE").unwrap_err();
    assert_eq!(err.kind, ErrorKind::UnresolvedLabel);
    assert_eq!(err.line, "NOWHERE");
}

#[test]
fn operand_shape_error_aborts() {
    let err = assemble("LD DT, 0x12").unwrap_err();
    assert_eq!(err.kind, ErrorKind::OperandShape);
    assert_eq!(err.line, "DT, 0X12");
}

#[test]
fn label_keys_may_hold_spaces() {
    let bytes = assemble("JP MY LABEL\nCLS\nMY LABEL\nRET").unwrap();
    assert_eq!(bytes, vec![0x12, 0x04, 0x00, 0xE0, 0x00, 0xEE]);
}

#[test]
fn label_definitions_keep_their_case() {
    // References are upper-cased on read, label definitions are not, so a
    // lower-case definition is never found.
    let err = assemble("JP target\ntarget\nCLS").unwrap_err();
    assert_eq!(err.kind, ErrorKind::UnresolvedLabel);
    assert_eq!(err.line, "TARGET");
}

#[test]
fn error_kinds_are_distinct() {
    let unknown = assemble("SET V0").unwrap_err().kind;
    let unresolved = assemble("JP MISSING").unwrap_err().kind;
    let shape = assemble("DRW V1").unwrap_err().kind;
    assert_ne!(unknown, unresolved);
    assert_ne!(unknown, shape);
    assert_ne!(unresolved, shape);
}

#[test]
fn line_classification() {
    assert!(is_instr_line("  CLS"));
    assert!(is_instr_line("ld v1, 0x02"));
    assert!(!is_instr_line("LOOP"));
    assert!(is_label("LOOP"));
    assert!(!is_label("  CLS"));
    assert!(!is_label(""));
    assert!(!is_label("   // only a comment"));
    assert!(!is_instr_line("// CLS in a comment"));
}

#[test]
fn instruction_parse_dispatches_whole_line() {
    let i = Instruction::parse_args("  LD V0, 0x12  // load").unwrap();
    assert_eq!(i.to_opcode(), 0x6012);
    let e = Instruction::parse_args("FROBNICATE").unwrap_err();
    assert_eq!(e.kind, ErrorKind::UnknownMnemonic);
}

#[test]
fn assembles_a_full_program() {
    let source = "// a counting loop\n\
                  START\n\
                  LD V0, 0x00\n\
                  LOOP\n\
                  ADD V0, 0x01\n\
                  SE V0, 0x0A\n\
                  JP LOOP\n\
                  LD I, TABLE\n\
                  RND V1\n\
                  DRW V0, V1, 0x5\n\
                  SKP V2\n\
                  CALL START\n\
                  RET\n\
                  TABLE\n";
    let bytes = assemble(source).unwrap();
    assert_eq!(
        bytes,
        vec![
            0x60, 0x00, // LD V0, 0x00      at 0x200
            0x70, 0x01, // ADD V0, 0x01     at 0x202
            0x30, 0x0A, // SE V0, 0x0A      at 0x204
            0x12, 0x02, // JP LOOP          -> 0x202
            0xA2, 0x14, // LD I, TABLE      -> 0x214
            0xC1, 0xFF, // RND V1           defaulted mask
            0xD0, 0x15, // DRW V0, V1, 0x5
            0xE2, 0x9E, // SKP V2
            0x22, 0x00, // CALL START       -> 0x200
            0x00, 0xEE, // RET
        ]
    );
}

#[test]
fn error_messages_name_the_kind_and_text() {
    let err = assemble("JP NOWHERE").unwrap_err();
    assert_eq!(err.message(), "unresolved label: NOWHERE");
    let err = assemble("ADDX V1").unwrap_err();
    assert_eq!(err.message(), "unknown mnemonic: ADDX V1");
    let err = assemble("LD DT, 0x12").unwrap_err();
    assert_eq!(err.message(), "unsupported operands: DT, 0X12");
}

#[test]
fn empty_source_assembles_to_nothing() {
    assert_eq!(assemble("").unwrap(), vec![]);
    assert_eq!(assemble("\n\n// nothing here\n").unwrap(), vec![]);
}

#[test]
fn duplicate_label_keeps_its_latest_address() {
    let table = parse_labels("DUP\nCLS\nDUP\nRET");
    assert_eq!(table.get("DUP"), Some(0x202));
}

#[test]
fn small_programs_fit_in_memory() {
    assert!(program_fits("CLS\nRET"));
    assert!(program_fits(""));
}
