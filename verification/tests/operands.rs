use chip8asm::instructions::parameters::OpParam;

#[test]
fn parse_special_literals() {
    assert_eq!(OpParam::parse("K"), OpParam::Keyboard);
    assert_eq!(OpParam::parse("DT"), OpParam::Timer);
    assert_eq!(OpParam::parse("ST"), OpParam::AudioTimer);
    assert_eq!(OpParam::parse("I"), OpParam::RegisterI);
    assert_eq!(OpParam::parse("[I]"), OpParam::DerefI);
    assert_eq!(OpParam::parse("B"), OpParam::Digits);
    assert_eq!(OpParam::parse("F"), OpParam::Fontset);
}

#[test]
fn parse_registers() {
    assert_eq!(OpParam::parse("V0"), OpParam::Register(0));
    assert_eq!(OpParam::parse("V9"), OpParam::Register(9));
    assert_eq!(OpParam::parse("VA"), OpParam::Register(10));
    assert_eq!(OpParam::parse("VF"), OpParam::Register(15));
}

#[test]
fn parse_register_takes_first_digit_only() {
    assert_eq!(OpParam::parse("V12"), OpParam::Register(1));
}

#[test]
fn parse_register_bad_digit_becomes_label() {
    assert_eq!(OpParam::parse("V"), OpParam::Label(String::from("V")));
    assert_eq!(OpParam::parse("VG"), OpParam::Label(String::from("VG")));
}

#[test]
fn parse_constants() {
    assert_eq!(OpParam::parse("0x0"), OpParam::Variable(0));
    assert_eq!(OpParam::parse("0x12"), OpParam::Variable(0x12));
    assert_eq!(OpParam::parse("0X12"), OpParam::Variable(0x12));
    assert_eq!(OpParam::parse("0xABC"), OpParam::Variable(0xABC));
    assert_eq!(OpParam::parse("0xFFFF"), OpParam::Variable(0xFFFF));
}

#[test]
fn parse_constant_bad_forms_become_labels() {
    assert_eq!(OpParam::parse("0x"), OpParam::Label(String::from("0x")));
    assert_eq!(OpParam::parse("0x12345"), OpParam::Label(String::from("0x12345")));
    assert_eq!(OpParam::parse("0xG1"), OpParam::Label(String::from("0xG1")));
}

#[test]
fn parse_empty_is_blank() {
    assert_eq!(OpParam::parse(""), OpParam::Blank);
}

#[test]
fn parse_unrecognised_is_label() {
    assert_eq!(OpParam::parse("LOOP"), OpParam::Label(String::from("LOOP")));
    assert_eq!(OpParam::parse("START_2"), OpParam::Label(String::from("START_2")));
}
