use chip8::instruction::Instruction;

#[test]
fn decode_clear_and_return() {
    assert_eq!(Instruction::from_bytes(0x00, 0xE0), Instruction::ClearScreen);
    assert_eq!(Instruction::from_bytes(0x00, 0xEE), Instruction::Return);
}

#[test]
fn decode_other_zero_family_is_unknown() {
    assert_eq!(
        Instruction::from_bytes(0x00, 0x00),
        Instruction::Unknown { first: 0x00, second: 0x00 }
    );
    assert_eq!(
        Instruction::from_bytes(0x01, 0xE0),
        Instruction::Unknown { first: 0x01, second: 0xE0 }
    );
    assert_eq!(
        Instruction::from_bytes(0x0F, 0xEE),
        Instruction::Unknown { first: 0x0F, second: 0xEE }
    );
}

#[test]
fn decode_addresses() {
    assert_eq!(Instruction::from_bytes(0x1A, 0xBC), Instruction::Jump { addr: 0xABC });
    assert_eq!(Instruction::from_bytes(0x2F, 0xFF), Instruction::Call { addr: 0xFFF });
    assert_eq!(Instruction::from_bytes(0xA0, 0x01), Instruction::LoadIndex { addr: 0x001 });
}

#[test]
fn decode_register_and_immediate() {
    assert_eq!(Instruction::from_bytes(0x3C, 0x45), Instruction::SkipIfEqual { x: 0xC, value: 0x45 });
    assert_eq!(
        Instruction::from_bytes(0x40, 0xFF),
        Instruction::SkipIfNotEqual { x: 0, value: 0xFF }
    );
    assert_eq!(Instruction::from_bytes(0x6F, 0x00), Instruction::Load { x: 0xF, value: 0 });
    assert_eq!(Instruction::from_bytes(0x71, 0x0A), Instruction::AddImmediate { x: 1, value: 10 });
}

#[test]
fn decode_two_registers() {
    assert_eq!(
        Instruction::from_bytes(0x51, 0x20),
        Instruction::SkipIfRegistersEqual { x: 1, y: 2 }
    );
    assert_eq!(
        Instruction::from_bytes(0x9A, 0xB0),
        Instruction::SkipIfRegistersNotEqual { x: 0xA, y: 0xB }
    );
    assert_eq!(Instruction::from_bytes(0x81, 0x20), Instruction::Move { x: 1, y: 2 });
    assert_eq!(Instruction::from_bytes(0x81, 0x21), Instruction::Or { x: 1, y: 2 });
    assert_eq!(Instruction::from_bytes(0x81, 0x22), Instruction::And { x: 1, y: 2 });
    assert_eq!(Instruction::from_bytes(0x81, 0x23), Instruction::Xor { x: 1, y: 2 });
    assert_eq!(Instruction::from_bytes(0x81, 0x24), Instruction::Add { x: 1, y: 2 });
    assert_eq!(Instruction::from_bytes(0x81, 0x25), Instruction::Subtract { x: 1, y: 2 });
    assert_eq!(Instruction::from_bytes(0x81, 0x26), Instruction::ShiftRight { x: 1, y: 2 });
    assert_eq!(Instruction::from_bytes(0x81, 0x27), Instruction::SubtractFrom { x: 1, y: 2 });
    assert_eq!(Instruction::from_bytes(0x81, 0x2E), Instruction::ShiftLeft { x: 1, y: 2 });
}

#[test]
fn decode_draw_and_memory_transfers() {
    assert_eq!(Instruction::from_bytes(0xD1, 0x25), Instruction::Draw { x: 1, y: 2, rows: 5 });
    assert_eq!(Instruction::from_bytes(0xF7, 0x33), Instruction::StoreDecimal { x: 7 });
    assert_eq!(Instruction::from_bytes(0xFE, 0x55), Instruction::StoreRegisters { x: 0xE });
    assert_eq!(Instruction::from_bytes(0xF0, 0x65), Instruction::LoadRegisters { x: 0 });
}

#[test]
fn decode_unassigned_patterns_are_unknown() {
    let unassigned: [(u8, u8); 9] = [
        (0x51, 0x21),
        (0x51, 0x2F),
        (0x91, 0x21),
        (0x81, 0x28),
        (0x81, 0x2D),
        (0x81, 0x2F),
        (0xB1, 0x23),
        (0xC1, 0x23),
        (0xE1, 0x9E),
    ];
    for (first, second) in unassigned {
        assert_eq!(
            Instruction::from_bytes(first, second),
            Instruction::Unknown { first, second }
        );
    }
    assert_eq!(
        Instruction::from_bytes(0xF1, 0x07),
        Instruction::Unknown { first: 0xF1, second: 0x07 }
    );
    assert_eq!(
        Instruction::from_bytes(0xF1, 0x1E),
        Instruction::Unknown { first: 0xF1, second: 0x1E }
    );
}

#[test]
fn decode_is_total_and_keeps_operands_in_range() {
    for first in 0..=255u8 {
        for second in 0..=255u8 {
            match Instruction::from_bytes(first, second) {
                Instruction::Jump { addr }
                | Instruction::Call { addr }
                | Instruction::LoadIndex { addr } => {
                    assert_eq!(addr, ((first as u16 & 0xF) << 8) | second as u16);
                }
                Instruction::Draw { x, y, rows } => {
                    assert_eq!((x, y, rows), (first & 0xF, second >> 4, second & 0xF));
                }
                Instruction::Unknown { first: a, second: b } => assert_eq!((a, b), (first, second)),
                _ => {}
            }
        }
    }
}
