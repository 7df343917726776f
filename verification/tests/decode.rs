use chip8_cpu::{decode, Fault, Fields, Instruction};

#[test]
fn fields_are_the_hexadecimal_digits() {
    let f = Fields::extract(0x8AB4);
    assert_eq!(f, Fields { x: 0xA, y: 0xB, kk: 0xB4, op_minor: 0x4, addr: 0xAB4 });
}

#[test]
fn fields_of_the_extreme_opcodes() {
    assert_eq!(
        Fields::extract(0x0000),
        Fields { x: 0, y: 0, kk: 0, op_minor: 0, addr: 0 }
    );
    assert_eq!(
        Fields::extract(0xFFFF),
        Fields { x: 0xF, y: 0xF, kk: 0xFF, op_minor: 0xF, addr: 0xFFF }
    );
    assert_eq!(
        Fields::extract(0x1234),
        Fields { x: 2, y: 3, kk: 0x34, op_minor: 4, addr: 0x234 }
    );
}

#[test]
fn control_codes_decode_to_themselves() {
    assert_eq!(decode(0x0000), Ok(Instruction::Halt));
    assert_eq!(decode(0x00E0), Ok(Instruction::ClearScreen));
    assert_eq!(decode(0x00EE), Ok(Instruction::Return));
}

#[test]
fn families_decode_with_their_operands() {
    assert_eq!(decode(0x1ABC), Ok(Instruction::Jump { addr: 0xABC }));
    assert_eq!(decode(0x2100), Ok(Instruction::Call { addr: 0x100 }));
    assert_eq!(decode(0x3A42), Ok(Instruction::SkipEqualImmediate { x: 0xA, kk: 0x42 }));
    assert_eq!(decode(0x4B07), Ok(Instruction::SkipNotEqualImmediate { x: 0xB, kk: 0x07 }));
    assert_eq!(decode(0x5CD0), Ok(Instruction::SkipEqualRegisters { x: 0xC, y: 0xD }));
    assert_eq!(decode(0x6EFF), Ok(Instruction::LoadImmediate { x: 0xE, kk: 0xFF }));
    assert_eq!(decode(0x7F01), Ok(Instruction::AddImmediate { x: 0xF, kk: 0x01 }));
}

#[test]
fn register_family_is_selected_by_the_last_digit() {
    assert_eq!(decode(0x8120), Ok(Instruction::Move { x: 1, y: 2 }));
    assert_eq!(decode(0x8121), Ok(Instruction::Or { x: 1, y: 2 }));
    assert_eq!(decode(0x8122), Ok(Instruction::And { x: 1, y: 2 }));
    assert_eq!(decode(0x8123), Ok(Instruction::Xor { x: 1, y: 2 }));
    assert_eq!(decode(0x8014), Ok(Instruction::AddRegisters { x: 0, y: 1 }));
}

#[test]
fn family_bounds_decode() {
    assert_eq!(decode(0x1000), Ok(Instruction::Jump { addr: 0x000 }));
    assert_eq!(decode(0x1FFF), Ok(Instruction::Jump { addr: 0xFFF }));
    assert_eq!(decode(0x2000), Ok(Instruction::Call { addr: 0x000 }));
    assert_eq!(decode(0x7FFF), Ok(Instruction::AddImmediate { x: 0xF, kk: 0xFF }));
    assert_eq!(decode(0x8FF4), Ok(Instruction::AddRegisters { x: 0xF, y: 0xF }));
}

#[test]
fn unknown_control_codes_are_unimplemented() {
    assert_eq!(decode(0x00FF), Err(Fault::UnimplementedOpcode(0x00FF)));
    assert_eq!(decode(0x0001), Err(Fault::UnimplementedOpcode(0x0001)));
    assert_eq!(decode(0x00E1), Err(Fault::UnimplementedOpcode(0x00E1)));
    assert_eq!(decode(0x0FFF), Err(Fault::UnimplementedOpcode(0x0FFF)));
}

#[test]
fn unknown_families_are_unimplemented() {
    assert_eq!(decode(0xD000), Err(Fault::UnimplementedOpcode(0xD000)));
    assert_eq!(decode(0x9120), Err(Fault::UnimplementedOpcode(0x9120)));
    assert_eq!(decode(0xA123), Err(Fault::UnimplementedOpcode(0xA123)));
    assert_eq!(decode(0xC0FF), Err(Fault::UnimplementedOpcode(0xC0FF)));
    assert_eq!(decode(0xF133), Err(Fault::UnimplementedOpcode(0xF133)));
    assert_eq!(decode(0xFFFF), Err(Fault::UnimplementedOpcode(0xFFFF)));
}

#[test]
fn unknown_selectors_are_unimplemented() {
    assert_eq!(decode(0x8015), Err(Fault::UnimplementedOpcode(0x8015)));
    assert_eq!(decode(0x812E), Err(Fault::UnimplementedOpcode(0x812E)));
    assert_eq!(decode(0x5121), Err(Fault::UnimplementedOpcode(0x5121)));
}

#[test]
fn every_opcode_decodes_as_its_digits_say() {
    for opcode in 0..=u16::MAX {
        let family = opcode >> 12;
        let last = opcode & 0xF;
        let known = match family {
            0x0 => opcode == 0x0000 || opcode == 0x00E0 || opcode == 0x00EE,
            0x1 | 0x2 | 0x3 | 0x4 | 0x6 | 0x7 => true,
            0x5 => last == 0,
            0x8 => last <= 4,
            _ => false,
        };
        match decode(opcode) {
            Ok(_) => assert!(known, "{:04x} decoded", opcode),
            Err(fault) => {
                assert!(!known, "{:04x} refused", opcode);
                assert_eq!(fault, Fault::UnimplementedOpcode(opcode));
            }
        }
    }
}
