use disasm8080::decoder::{decode, shape_of, DecodeError, Instruction, OperandForm};
use disasm8080::hex::{push_hex_fixed, push_hex_padded};
use disasm8080::listing::{disassemble, render_line};

fn fields(i: &Instruction) -> (usize, &str, &str) {
    (i.length, i.mnemonic, i.operand.as_str())
}

fn decoded(buf: &[u8], pos: usize) -> (usize, String, String) {
    let i = decode(buf, pos).unwrap();
    (i.length, i.mnemonic.to_string(), i.operand.clone())
}

#[test]
fn nop_alone() {
    let i = decode(&[0x00], 0).unwrap();
    assert_eq!(fields(&i), (1, "NOP", ""));
}

#[test]
fn mvi_b_immediate() {
    let i = decode(&[0x06, 0xAB], 0).unwrap();
    assert_eq!(fields(&i), (2, "MVI", "B,$ab"));
}

#[test]
fn unknown_opcode_ff() {
    let r = decode(&[0xFF], 0);
    assert_eq!(r.err(), Some(DecodeError::UnknownOpcode { opcode: 0xFF, offset: 0 }));
}

#[test]
fn lxi_then_jmp() {
    let rom = [0x21, 0x34, 0x12, 0xC3, 0x00, 0x00];
    let listing = disassemble(&rom);
    assert_eq!(listing.error, None);
    assert_eq!(listing.lines.len(), 2);
    assert_eq!(listing.lines[0].offset, 0);
    assert_eq!(fields(&listing.lines[0].instruction), (3, "LXI", "H,$1234"));
    assert_eq!(listing.lines[1].offset, 3);
    assert_eq!(fields(&listing.lines[1].instruction), (3, "JMP", "$0000"));
    let last = &listing.lines[1];
    assert_eq!(last.offset + last.instruction.length, 6);
}

#[test]
fn every_alternate_nop() {
    for b in [0x00u8, 0x08, 0x10, 0x18, 0x20, 0x28, 0x30, 0x38] {
        assert_eq!(decoded(&[b, 0x55, 0x66], 0), (1, "NOP".to_string(), String::new()));
    }
}

#[test]
fn one_byte_fixed_operations() {
    let cases: [(u8, &str); 6] =
        [(0x07, "RLC"), (0x0F, "RRC"), (0x17, "RAL"), (0x1F, "RAR"), (0x27, "DAA"), (0x2F, "CMA")];
    for (b, m) in cases {
        assert_eq!(decoded(&[b], 0), (1, m.to_string(), String::new()));
    }
}

#[test]
fn register_fields_in_order() {
    let names = ["B", "C", "D", "E", "H", "L"];
    for (k, name) in names.iter().enumerate() {
        let sel = (k as u8) << 3;
        assert_eq!(decoded(&[0x04 | sel], 0), (1, "INR".to_string(), name.to_string()));
        assert_eq!(decoded(&[0x05 | sel], 0), (1, "DCR".to_string(), name.to_string()));
        assert_eq!(decoded(&[0x06 | sel, 0x0F], 0), (2, "MVI".to_string(), format!("{},$0f", name)));
    }
}

#[test]
fn pair_fields_in_order() {
    let pairs = ["B", "D", "H", "SP"];
    for (k, name) in pairs.iter().enumerate() {
        let sel = (k as u8) << 4;
        assert_eq!(
            decoded(&[0x01 | sel, 0xCD, 0xAB], 0),
            (3, "LXI".to_string(), format!("{},$abcd", name))
        );
    }
    for (k, name) in pairs[..3].iter().enumerate() {
        let sel = (k as u8) << 4;
        assert_eq!(decoded(&[0x03 | sel], 0), (1, "INX".to_string(), name.to_string()));
        assert_eq!(decoded(&[0x09 | sel], 0), (1, "DAD".to_string(), name.to_string()));
        assert_eq!(decoded(&[0x0B | sel], 0), (1, "DCX".to_string(), name.to_string()));
    }
    for (k, name) in pairs[..2].iter().enumerate() {
        let sel = (k as u8) << 4;
        assert_eq!(decoded(&[0x02 | sel], 0), (1, "STAX".to_string(), name.to_string()));
        assert_eq!(decoded(&[0x0A | sel], 0), (1, "LDAX".to_string(), name.to_string()));
    }
}

#[test]
fn push_pairs() {
    assert_eq!(decoded(&[0xC5], 0), (1, "PUSH".to_string(), "B".to_string()));
    assert_eq!(decoded(&[0xD5], 0), (1, "PUSH".to_string(), "D".to_string()));
    assert_eq!(decoded(&[0xF5], 0), (1, "PUSH".to_string(), "PSW".to_string()));
}

#[test]
fn address_operands_are_little_endian() {
    assert_eq!(decoded(&[0x22, 0x34, 0x12], 0), (3, "SHLD".to_string(), "$1234".to_string()));
    assert_eq!(decoded(&[0x2A, 0xFF, 0x00], 0), (3, "LXLD".to_string(), "$00ff".to_string()));
    assert_eq!(decoded(&[0xC3, 0x00, 0xFF], 0), (3, "JMP".to_string(), "$ff00".to_string()));
}

#[test]
fn address_operand_reads_back() {
    for (lo, hi) in [(0x00u8, 0x00u8), (0x34, 0x12), (0xFF, 0xFF), (0x01, 0x80)] {
        let (_, _, operand) = decoded(&[0xC3, lo, hi], 0);
        let digits = &operand[operand.len() - 4..];
        assert_eq!(u16::from_str_radix(digits, 16).unwrap(), ((hi as u16) << 8) | lo as u16);
    }
}

#[test]
fn decode_ignores_other_bytes() {
    let a = [0x11, 0x78, 0x56, 0x00, 0xFF];
    let b = [0x11, 0x78, 0x56, 0xC3, 0x01];
    assert_eq!(decoded(&a, 0), decoded(&b, 0));
    assert_eq!(decoded(&a, 0), (3, "LXI".to_string(), "D,$5678".to_string()));
    let c = [0xAA, 0xBB, 0x06, 0x7F];
    assert_eq!(decoded(&c, 2), (2, "MVI".to_string(), "B,$7f".to_string()));
}

#[test]
fn decode_twice_agrees() {
    let rom = [0x26, 0x9C];
    assert_eq!(decoded(&rom, 0), decoded(&rom, 0));
}

#[test]
fn lengths_follow_operand_bytes() {
    for b in 0..=255u8 {
        if let Some(shape) = shape_of(b) {
            let extra = match shape.form {
                OperandForm::RegImm8(_) => 1,
                OperandForm::PairImm16(_) | OperandForm::Addr16 => 2,
                _ => 0,
            };
            let i = decode(&[b, 0, 0], 0).unwrap();
            assert_eq!(i.length, 1 + extra);
            assert!((1..=3).contains(&i.length));
        }
    }
}

#[test]
fn unknown_opcodes_name_the_byte() {
    for (b, known) in [(0x33u8, false), (0x34, false), (0x76, false), (0xC3, true), (0xCD, false)] {
        let r = decode(&[0x00, b, 0, 0], 1);
        if known {
            assert!(r.is_ok());
        } else {
            assert_eq!(r.err(), Some(DecodeError::UnknownOpcode { opcode: b, offset: 1 }));
        }
    }
}

#[test]
fn table_size() {
    let supported = (0..=255u8).filter(|b| shape_of(*b).is_some()).count();
    assert_eq!(supported, 55);
}

#[test]
fn truncated_operand() {
    let r = decode(&[0x00, 0xC3, 0x10], 1);
    assert_eq!(r.err(), Some(DecodeError::Truncated { offset: 1, required: 3, available: 2 }));
    let r = decode(&[0x0E], 0);
    assert_eq!(r.err(), Some(DecodeError::Truncated { offset: 0, required: 2, available: 1 }));
}

#[test]
fn pass_stops_at_unknown_opcode() {
    let listing = disassemble(&[0x00, 0x06, 0x01, 0xFF, 0x00]);
    assert_eq!(listing.lines.len(), 2);
    assert_eq!(listing.lines[1].offset, 1);
    assert_eq!(listing.error, Some(DecodeError::UnknownOpcode { opcode: 0xFF, offset: 3 }));
}

#[test]
fn pass_stops_at_truncated_instruction() {
    let listing = disassemble(&[0x07, 0x21, 0x00]);
    assert_eq!(listing.lines.len(), 1);
    assert_eq!(
        listing.error,
        Some(DecodeError::Truncated { offset: 1, required: 3, available: 2 })
    );
}

#[test]
fn pass_over_empty_image() {
    let listing = disassemble(&[]);
    assert!(listing.lines.is_empty());
    assert_eq!(listing.error, None);
}

#[test]
fn rendered_lines() {
    let rom = [0x21, 0x34, 0x12, 0xC3, 0x00, 0x00, 0x00, 0x06, 0xAB];
    let listing = disassemble(&rom);
    let text: Vec<String> = listing.lines.iter().map(|l| render_line(&rom, l)).collect();
    assert_eq!(
        text,
        vec![
            "0000 21 34 12 LXI    H,$1234".to_string(),
            "0003 c3 00 00 JMP    $0000".to_string(),
            "0006 00       NOP    ".to_string(),
            "0007 06 ab    MVI    B,$ab".to_string(),
        ]
    );
}

#[test]
fn hex_rendering() {
    let mut s = String::from("x");
    push_hex_fixed(&mut s, 0x1A2B, 4);
    assert_eq!(s, "x1a2b");
    let mut s = String::new();
    push_hex_fixed(&mut s, 0x1A2B, 2);
    assert_eq!(s, "2b");
    let mut s = String::new();
    push_hex_padded(&mut s, 0x7, 4);
    assert_eq!(s, "0007");
    let mut s = String::new();
    push_hex_padded(&mut s, 0x12345, 4);
    assert_eq!(s, "12345");
}
