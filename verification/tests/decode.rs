use chip8_backend::instruction::Fields;
use chip8_backend::instruction::Instruction;

#[test]
fn split_gives_every_field() {
    let f = Fields::split(0xD123);
    assert_eq!(f.group, 0xD);
    assert_eq!(f.x, 0x1);
    assert_eq!(f.y, 0x2);
    assert_eq!(f.n, 0x3);
    assert_eq!(f.nn, 0x23);
    assert_eq!(f.nnn, 0x123);
}

#[test]
fn split_of_extreme_words() {
    assert_eq!(
        Fields::split(0x0000),
        Fields { group: 0, x: 0, y: 0, n: 0, nn: 0, nnn: 0 }
    );
    assert_eq!(
        Fields::split(0xFFFF),
        Fields { group: 0xF, x: 0xF, y: 0xF, n: 0xF, nn: 0xFF, nnn: 0xFFF }
    );
}

#[test]
fn split_is_total_and_lossless_on_every_word() {
    for word in 0..=0xFFFFu16 {
        let f = Fields::split(word);
        assert_eq!(f.group as u16, word >> 12);
        assert_eq!(f.x as u16, (word >> 8) & 0xF);
        assert_eq!(f.y as u16, (word >> 4) & 0xF);
        assert_eq!(f.n as u16, word & 0xF);
        assert_eq!(f.nn as u16, word & 0xFF);
        assert_eq!(f.nnn, word & 0xFFF);
        let spelled: u16 =
            ((f.group as u16) << 12) | ((f.x as u16) << 8) | ((f.y as u16) << 4) | f.n as u16;
        assert_eq!(spelled, word);
        assert_eq!(Fields::split(spelled), f);
        assert_eq!(Fields::split(word), f);
    }
}

#[test]
fn decode_control_flow() {
    assert_eq!(Instruction::decode(0x0000), Some(Instruction::Nop));
    assert_eq!(Instruction::decode(0x00E0), Some(Instruction::ClearScreen));
    assert_eq!(Instruction::decode(0x00EE), Some(Instruction::Return));
    assert_eq!(Instruction::decode(0x1ABC), Some(Instruction::Jump { addr: 0xABC }));
    assert_eq!(Instruction::decode(0x2ABC), Some(Instruction::Call { addr: 0xABC }));
    assert_eq!(Instruction::decode(0xBABC), Some(Instruction::JumpOffset { addr: 0xABC }));
}

#[test]
fn decode_skips() {
    assert_eq!(Instruction::decode(0x3A12), Some(Instruction::SkipEqByte { x: 0xA, nn: 0x12 }));
    assert_eq!(Instruction::decode(0x4A12), Some(Instruction::SkipNeByte { x: 0xA, nn: 0x12 }));
    assert_eq!(Instruction::decode(0x5AB0), Some(Instruction::SkipEq { x: 0xA, y: 0xB }));
    assert_eq!(Instruction::decode(0x9AB0), Some(Instruction::SkipNe { x: 0xA, y: 0xB }));
    assert_eq!(Instruction::decode(0xE39E), Some(Instruction::SkipKeyDown { x: 3 }));
    assert_eq!(Instruction::decode(0xE3A1), Some(Instruction::SkipKeyUp { x: 3 }));
}

#[test]
fn decode_register_operations() {
    assert_eq!(Instruction::decode(0x6C7F), Some(Instruction::SetByte { x: 0xC, nn: 0x7F }));
    assert_eq!(Instruction::decode(0x7C7F), Some(Instruction::AddByte { x: 0xC, nn: 0x7F }));
    assert_eq!(Instruction::decode(0x8120), Some(Instruction::Copy { x: 1, y: 2 }));
    assert_eq!(Instruction::decode(0x8121), Some(Instruction::Or { x: 1, y: 2 }));
    assert_eq!(Instruction::decode(0x8122), Some(Instruction::And { x: 1, y: 2 }));
    assert_eq!(Instruction::decode(0x8123), Some(Instruction::Xor { x: 1, y: 2 }));
    assert_eq!(Instruction::decode(0x8124), Some(Instruction::Add { x: 1, y: 2 }));
    assert_eq!(Instruction::decode(0x8125), Some(Instruction::Sub { x: 1, y: 2 }));
    assert_eq!(Instruction::decode(0x8126), Some(Instruction::ShiftRight { x: 1 }));
    assert_eq!(Instruction::decode(0x8127), Some(Instruction::SubInto { x: 1, y: 2 }));
    assert_eq!(Instruction::decode(0x812E), Some(Instruction::ShiftLeft { x: 1 }));
    assert_eq!(Instruction::decode(0xC55A), Some(Instruction::Random { x: 5, nn: 0x5A }));
}

#[test]
fn decode_index_display_and_timer_operations() {
    assert_eq!(Instruction::decode(0xA123), Some(Instruction::SetIndex { addr: 0x123 }));
    assert_eq!(Instruction::decode(0xD125), Some(Instruction::Draw { x: 1, y: 2, rows: 5 }));
    assert_eq!(Instruction::decode(0xF407), Some(Instruction::GetDelay { x: 4 }));
    assert_eq!(Instruction::decode(0xF40A), Some(Instruction::WaitKey { x: 4 }));
    assert_eq!(Instruction::decode(0xF415), Some(Instruction::SetDelay { x: 4 }));
    assert_eq!(Instruction::decode(0xF418), Some(Instruction::SetSound { x: 4 }));
    assert_eq!(Instruction::decode(0xF41E), Some(Instruction::AddIndex { x: 4 }));
    assert_eq!(Instruction::decode(0xF429), Some(Instruction::Glyph { x: 4 }));
    assert_eq!(Instruction::decode(0xF433), Some(Instruction::Bcd { x: 4 }));
    assert_eq!(Instruction::decode(0xF455), Some(Instruction::Store { x: 4 }));
    assert_eq!(Instruction::decode(0xF465), Some(Instruction::Load { x: 4 }));
}

#[test]
fn decode_rejects_undefined_words() {
    for word in [
        0x0001u16, 0x00E1, 0x00EF, 0x0100, 0x01E0, 0x0FFF, 0x5121, 0x512F, 0x8128, 0x8129, 0x812A,
        0x812D, 0x812F, 0x9121, 0xE19F, 0xE1A0, 0xE100, 0xE09F, 0xF100, 0xF108, 0xF1FF, 0xF156,
        0xF134,
    ] {
        assert_eq!(Instruction::decode(word), None, "word {word:#06X}");
    }
}

#[test]
fn decode_counts_defined_words() {
    let mut defined: u32 = 0;
    for word in 0..=0xFFFFu16 {
        if Instruction::decode(word).is_some() {
            defined += 1;
        }
    }
    // Ten groups take any operands; 5xy0 and 9xy0 take 256 each; nine 8xyN
    // forms take 256 each; two Ex and nine Fx forms take 16 each; three
    // words stand alone in group 0.
    assert_eq!(defined, 10 * 4096 + 2 * 256 + 9 * 256 + 11 * 16 + 3);
}

#[test]
fn decode_is_repeatable() {
    for word in 0..=0xFFFFu16 {
        assert_eq!(Instruction::decode(word), Instruction::decode(word));
    }
}
