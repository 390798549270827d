use gameboy::reference::{
    get_reference_metadata, parse_reference_line, read_opcode, ReferenceError, ReferenceOpcode,
};

fn line(text: &str) -> Vec<u8> {
    text.as_bytes().to_vec()
}

#[test]
fn a_trace_is_read_line_by_line() {
    let text = line("0x0100: NOP (0x00)\n0x0101: BIT 7,H (CB 0x7C)\r\n\nboot done\n0xC3F0: LD A,(HL+) (0x2a)");
    let entries = get_reference_metadata(&text).unwrap();
    assert_eq!(entries.len(), 3);
    assert_eq!(entries[0].pc, 0x0100);
    assert_eq!(entries[0].instruction, "NOP (0x00)");
    assert_eq!(entries[0].opcode, ReferenceOpcode::Plain(0x00));
    assert_eq!(entries[0].line, 1);
    assert_eq!(entries[1].pc, 0x0101);
    assert_eq!(entries[1].instruction, "BIT 7,H (CB 0x7C)");
    assert_eq!(entries[1].opcode, ReferenceOpcode::CB(0x7C));
    assert_eq!(entries[1].line, 2);
    assert_eq!(entries[2].pc, 0xC3F0);
    assert_eq!(entries[2].instruction, "LD A,(HL+) (0x2a)");
    assert_eq!(entries[2].opcode, ReferenceOpcode::Plain(0x2A));
    assert_eq!(entries[2].line, 5);
    assert!(get_reference_metadata(&Vec::new()).unwrap().is_empty());
    assert!(get_reference_metadata(&line("\n\n")).unwrap().is_empty());
}

#[test]
fn lines_without_a_program_counter_are_passed_over() {
    for text in ["", "boot done", "100: NOP (0x00)", "0xGG: NOP (0x00)", "0x: NOP (0x00)",
        "0x10000: NOP (0x00)", " 0x0100: NOP (0x00)", "0x01 00: NOP (0x00)"]
    {
        assert!(matches!(parse_reference_line(&line(text), 1), Ok(None)), "{:?}", text);
    }
    let entry = parse_reference_line(&line("0x+1f: X (0x01)"), 9).unwrap().unwrap();
    assert_eq!(entry.pc, 0x001F);
    assert_eq!(entry.line, 9);
    let entry = parse_reference_line(&line("0x0000FFFF: X (0x01)"), 1).unwrap().unwrap();
    assert_eq!(entry.pc, 0xFFFF);
}

#[test]
fn instruction_is_the_text_between_the_first_two_separators() {
    let entry = parse_reference_line(&line("0x0100: LD A: B (0x3E)"), 1).unwrap().unwrap();
    assert_eq!(entry.instruction, "LD A");
    let entry = parse_reference_line(&line("0x0100: (0x3E)"), 1).unwrap().unwrap();
    assert_eq!(entry.instruction, "(0x3E)");
    let entry = parse_reference_line(&line("0x0100: : (0x3E)"), 1).unwrap().unwrap();
    assert_eq!(entry.instruction, "");
}

#[test]
fn malformed_lines_are_reported_with_their_number() {
    assert_eq!(
        parse_reference_line(&line("0x0100"), 4).err(),
        Some(ReferenceError::MissingInstruction { line: 4 })
    );
    assert_eq!(
        parse_reference_line(&line("0x0100: NOP"), 5).err(),
        Some(ReferenceError::MissingOpcode { line: 5 })
    );
    assert_eq!(
        parse_reference_line(&line("0x0100: NOP (0xZZ)"), 6).err(),
        Some(ReferenceError::InvalidOpcode { line: 6 })
    );
    assert_eq!(
        parse_reference_line(&line("0x0100: NOP (0x00) "), 7).err(),
        Some(ReferenceError::InvalidOpcode { line: 7 })
    );
    let mut bad_text = line("0x0100: NOP");
    bad_text.push(0xFF);
    bad_text.extend_from_slice(b" (0x00)");
    assert_eq!(
        parse_reference_line(&bad_text, 8).err(),
        Some(ReferenceError::InvalidInstruction { line: 8 })
    );
    assert_eq!(
        get_reference_metadata(&line("0x0100: NOP (0x00)\nheader\n0x0101: NOP\n")).err(),
        Some(ReferenceError::MissingOpcode { line: 3 })
    );
}

#[test]
fn opcode_stands_in_the_last_parentheses() {
    assert_eq!(read_opcode(&line("0x0100: NOP (0x00)")), Some(ReferenceOpcode::Plain(0x00)));
    assert_eq!(read_opcode(&line("LD A,(HL) (0x7E)")), Some(ReferenceOpcode::Plain(0x7E)));
    assert_eq!(read_opcode(&line("(CB 0xff)")), Some(ReferenceOpcode::CB(0xFF)));
    assert_eq!(read_opcode(&line("(0x+7)")), Some(ReferenceOpcode::Plain(0x07)));
    assert_eq!(read_opcode(&line("(0x007f]")), Some(ReferenceOpcode::Plain(0x7F)));
    // The last character goes whatever it is, and however long.
    assert_eq!(read_opcode(&line("(0x12\u{e9}")), Some(ReferenceOpcode::Plain(0x12)));
    assert_eq!(read_opcode(&line("(0x12")), Some(ReferenceOpcode::Plain(0x01)));
    for text in ["", "NOP", "(", "()", "(0x)", "(0x100)", "(CB0x7C)", "(CB 7C)", "(CB  0x7C)",
        "(cb 0x7C)", "(7C)", "(0x7C) ", "(0x7C)(", "(0x 7C)"]
    {
        assert_eq!(read_opcode(&line(text)), None, "{:?}", text);
    }
}
