use chip8::{decode, merge_u16, split, Operation};

#[test]
fn decode_exact_patterns() {
    assert_eq!(decode((0x0, 0x0, 0xE, 0x0)), Some(Operation::ClearScreen));
    assert_eq!(decode((0x0, 0x0, 0xE, 0xE)), Some(Operation::Return));
}

#[test]
fn decode_patterns_with_three_free_nibbles() {
    assert_eq!(decode((0x1, 0x2, 0x3, 0x4)), Some(Operation::Jump));
    assert_eq!(decode((0x2, 0xF, 0xF, 0xF)), Some(Operation::Call));
    assert_eq!(decode((0x3, 0x0, 0x0, 0x0)), Some(Operation::SkipEqByte));
    assert_eq!(decode((0x4, 0xA, 0x1, 0x2)), Some(Operation::SkipNeByte));
    assert_eq!(decode((0x6, 0x1, 0x2, 0x3)), Some(Operation::LoadByte));
    assert_eq!(decode((0x7, 0x1, 0x2, 0x3)), Some(Operation::AddByte));
    assert_eq!(decode((0xA, 0x1, 0x2, 0x3)), Some(Operation::LoadIndex));
    assert_eq!(decode((0xB, 0x1, 0x2, 0x3)), Some(Operation::JumpOffset));
    assert_eq!(decode((0xC, 0x1, 0x2, 0x3)), Some(Operation::Random));
    assert_eq!(decode((0xD, 0x1, 0x2, 0x3)), Some(Operation::Draw));
}

#[test]
fn decode_register_patterns() {
    assert_eq!(decode((0x5, 0x1, 0x2, 0x0)), Some(Operation::SkipEqReg));
    assert_eq!(decode((0x8, 0x1, 0x2, 0x0)), Some(Operation::Move));
    assert_eq!(decode((0x8, 0x1, 0x2, 0x1)), Some(Operation::Or));
    assert_eq!(decode((0x8, 0x1, 0x2, 0x2)), Some(Operation::And));
    assert_eq!(decode((0x8, 0x1, 0x2, 0x3)), Some(Operation::Xor));
    assert_eq!(decode((0x8, 0x1, 0x2, 0x4)), Some(Operation::AddCarry));
    assert_eq!(decode((0x8, 0x1, 0x2, 0x5)), Some(Operation::SubBorrow));
    assert_eq!(decode((0x8, 0x1, 0x2, 0x6)), Some(Operation::ShiftRight));
    assert_eq!(decode((0x8, 0x1, 0x2, 0x7)), Some(Operation::SubReverse));
    assert_eq!(decode((0x8, 0x1, 0x2, 0xE)), Some(Operation::ShiftLeft));
    assert_eq!(decode((0x9, 0x1, 0x2, 0x0)), Some(Operation::SkipNeReg));
}

#[test]
fn decode_key_and_timer_patterns() {
    assert_eq!(decode((0xE, 0x3, 0x9, 0xE)), Some(Operation::SkipKeyDown));
    assert_eq!(decode((0xE, 0x3, 0xA, 0x1)), Some(Operation::SkipKeyUp));
    assert_eq!(decode((0xF, 0x3, 0x0, 0x7)), Some(Operation::ReadDelay));
    assert_eq!(decode((0xF, 0x3, 0x0, 0xA)), Some(Operation::WaitKey));
    assert_eq!(decode((0xF, 0x3, 0x1, 0x5)), Some(Operation::SetDelay));
    assert_eq!(decode((0xF, 0x3, 0x1, 0x8)), Some(Operation::SetSound));
    assert_eq!(decode((0xF, 0x3, 0x1, 0xE)), Some(Operation::AddIndex));
    assert_eq!(decode((0xF, 0x3, 0x2, 0x9)), Some(Operation::FontGlyph));
    assert_eq!(decode((0xF, 0x3, 0x3, 0x3)), Some(Operation::StoreBcd));
    assert_eq!(decode((0xF, 0x3, 0x5, 0x5)), Some(Operation::StoreRegs));
    assert_eq!(decode((0xF, 0x3, 0x6, 0x5)), Some(Operation::LoadRegs));
}

#[test]
fn decode_refuses_words_without_a_pattern() {
    assert_eq!(decode((0x0, 0x0, 0x0, 0x0)), None);
    assert_eq!(decode((0x0, 0x1, 0xE, 0x0)), None);
    assert_eq!(decode((0x0, 0x0, 0xE, 0x1)), None);
    assert_eq!(decode((0x5, 0x1, 0x2, 0x1)), None);
    assert_eq!(decode((0x8, 0x1, 0x2, 0x8)), None);
    assert_eq!(decode((0x8, 0x1, 0x2, 0xF)), None);
    assert_eq!(decode((0x9, 0x1, 0x2, 0x1)), None);
    assert_eq!(decode((0xE, 0x1, 0x9, 0xF)), None);
    assert_eq!(decode((0xE, 0x1, 0xA, 0x0)), None);
    assert_eq!(decode((0xF, 0x1, 0x0, 0x0)), None);
    assert_eq!(decode((0xF, 0x1, 0xF, 0xF)), None);
}

#[test]
fn decode_counts_over_all_words() {
    let mut known: u32 = 0;
    let mut jumps: u32 = 0;
    let mut moves: u32 = 0;
    for word in 0..=0xFFFFu16 {
        let high = split((word >> 8) as u8);
        let low = split((word & 0xFF) as u8);
        let opcode = (high.0, high.1, low.0, low.1);
        assert_eq!(merge_u16(opcode.0, opcode.1, opcode.2, opcode.3), word);
        match decode(opcode) {
            Some(Operation::Jump) => {
                known += 1;
                jumps += 1;
            }
            Some(Operation::Move) => {
                known += 1;
                moves += 1;
            }
            Some(_) => known += 1,
            None => {}
        }
    }
    assert_eq!(jumps, 4096);
    assert_eq!(moves, 256);
    // 2 exact words, 10 patterns with three free nibbles, 11 with two, 11 with one.
    assert_eq!(known, 2 + 10 * 4096 + 11 * 256 + 11 * 16);
}
