use chip8_backend::CPU;

/// Loads `rom` into a fresh machine and takes one step per instruction.
fn run(rom: &[u8]) -> CPU {
    let mut cpu = CPU::new();
    cpu.load(rom);
    for _ in 0..rom.len() / 2 {
        assert_eq!(cpu.fault(), None);
        cpu.step_with(0);
    }
    cpu
}

#[test]
fn set_byte() {
    let cpu = run(&[0x6A, 0x42]);
    assert_eq!(cpu.register(0xA), 0x42);
    assert_eq!(cpu.program_counter(), 0x202);
}

#[test]
fn add_byte_without_wrap() {
    let cpu = run(&[0x61, 0x10, 0x71, 0x22]);
    assert_eq!(cpu.register(1), 0x32);
    assert_eq!(cpu.register(0xF), 0);
}

#[test]
fn add_byte_wraps_and_leaves_the_flag() {
    let cpu = run(&[0x61, 0xFF, 0x71, 0x02]);
    assert_eq!(cpu.register(1), 0x01);
    assert_eq!(cpu.register(0xF), 0);
}

#[test]
fn copy_register() {
    let cpu = run(&[0x62, 0x77, 0x81, 0x20]);
    assert_eq!(cpu.register(1), 0x77);
    assert_eq!(cpu.register(2), 0x77);
}

#[test]
fn bitwise_or_and_xor() {
    let or = run(&[0x61, 0b1100_1010, 0x62, 0b1010_0110, 0x81, 0x21]);
    assert_eq!(or.register(1), 0b1110_1110);
    let and = run(&[0x61, 0b1100_1010, 0x62, 0b1010_0110, 0x81, 0x22]);
    assert_eq!(and.register(1), 0b1000_0010);
    let xor = run(&[0x61, 0b1100_1010, 0x62, 0b1010_0110, 0x81, 0x23]);
    assert_eq!(xor.register(1), 0b0110_1100);
    assert_eq!(or.register(2), 0b1010_0110);
    assert_eq!(or.register(0xF), 0);
}

#[test]
fn add_with_carry() {
    let cpu = run(&[0x63, 0xFF, 0x64, 0x01, 0x83, 0x44]);
    assert_eq!(cpu.register(3), 0x00);
    assert_eq!(cpu.register(0xF), 1);
    assert_eq!(cpu.register(4), 0x01);
}

#[test]
fn add_without_carry_clears_the_flag() {
    let cpu = run(&[0x6F, 0x09, 0x63, 0x10, 0x64, 0x20, 0x83, 0x44]);
    assert_eq!(cpu.register(3), 0x30);
    assert_eq!(cpu.register(0xF), 0);
}

#[test]
fn add_at_the_carry_boundary() {
    let no_carry = run(&[0x63, 0xFE, 0x64, 0x01, 0x83, 0x44]);
    assert_eq!((no_carry.register(3), no_carry.register(0xF)), (0xFF, 0));
    let carry = run(&[0x63, 0xFF, 0x64, 0xFF, 0x83, 0x44]);
    assert_eq!((carry.register(3), carry.register(0xF)), (0xFE, 1));
}

#[test]
fn add_into_the_flag_register_keeps_the_flag() {
    // VF := 0xFF; V1 := 2; VF := VF + V1: the carry overwrites the sum.
    let cpu = run(&[0x6F, 0xFF, 0x61, 0x02, 0x8F, 0x14]);
    assert_eq!(cpu.register(0xF), 1);
}

#[test]
fn subtract_with_borrow() {
    let cpu = run(&[0x63, 0x01, 0x64, 0x02, 0x83, 0x45]);
    assert_eq!(cpu.register(3), 0xFF);
    assert_eq!(cpu.register(0xF), 0);
    assert_eq!(cpu.register(4), 0x02);
}

#[test]
fn subtract_without_borrow() {
    let cpu = run(&[0x63, 0x05, 0x64, 0x02, 0x83, 0x45]);
    assert_eq!(cpu.register(3), 0x03);
    assert_eq!(cpu.register(0xF), 1);
}

#[test]
fn subtract_equal_values_is_no_borrow() {
    let cpu = run(&[0x63, 0x07, 0x64, 0x07, 0x83, 0x45]);
    assert_eq!(cpu.register(3), 0x00);
    assert_eq!(cpu.register(0xF), 1);
}

#[test]
fn shift_right_reports_the_dropped_bit() {
    let cpu = run(&[0x63, 0x81, 0x83, 0x46]);
    assert_eq!(cpu.register(3), 0x40);
    assert_eq!(cpu.register(0xF), 1);
}

#[test]
fn shift_right_of_an_even_value() {
    let cpu = run(&[0x6F, 0x01, 0x63, 0x06, 0x64, 0xFF, 0x83, 0x46]);
    assert_eq!(cpu.register(3), 0x03);
    assert_eq!(cpu.register(0xF), 0);
    assert_eq!(cpu.register(4), 0xFF);
}

#[test]
fn reverse_subtract_writes_the_second_register() {
    // V3 := 1; V4 := 5; 8347: V4 := V4 - V3, VF := 1 (no borrow).
    let cpu = run(&[0x63, 0x01, 0x64, 0x05, 0x83, 0x47]);
    assert_eq!(cpu.register(4), 0x04);
    assert_eq!(cpu.register(3), 0x01);
    assert_eq!(cpu.register(0xF), 1);
}

#[test]
fn reverse_subtract_with_borrow() {
    // V3 := 5; V4 := 1; 8347: V4 := V4 - V3 wraps, VF := 0.
    let cpu = run(&[0x63, 0x05, 0x64, 0x01, 0x83, 0x47]);
    assert_eq!(cpu.register(4), 0xFC);
    assert_eq!(cpu.register(3), 0x05);
    assert_eq!(cpu.register(0xF), 0);
}

#[test]
fn shift_left_reports_the_dropped_bit() {
    let cpu = run(&[0x63, 0x81, 0x83, 0x4E]);
    assert_eq!(cpu.register(3), 0x02);
    assert_eq!(cpu.register(0xF), 1);
}

#[test]
fn shift_left_without_dropped_bit() {
    let cpu = run(&[0x6F, 0x01, 0x63, 0x41, 0x83, 0x4E]);
    assert_eq!(cpu.register(3), 0x82);
    assert_eq!(cpu.register(0xF), 0);
}

#[test]
fn random_is_masked() {
    let cpu = run(&[0x61, 0xFF, 0xC1, 0x00]);
    assert_eq!(cpu.register(1), 0);

    let mut stepped = CPU::new();
    stepped.load(&[0xC1, 0x0F, 0xC2, 0x00, 0xC3, 0x80]);
    stepped.step();
    stepped.step();
    stepped.step();
    assert!(stepped.register(1) <= 0x0F);
    assert_eq!(stepped.register(2), 0);
    assert!(stepped.register(3) == 0 || stepped.register(3) == 0x80);
    assert_eq!(stepped.program_counter(), 0x206);
}

#[test]
fn random_with_a_given_byte() {
    let mut cpu = CPU::new();
    cpu.load(&[0xC1, 0xF0, 0xC2, 0xFF, 0xC3, 0x0F]);
    cpu.step_with(0xAB);
    cpu.step_with(0xCD);
    cpu.step_with(0xEF);
    assert_eq!(cpu.register(1), 0xA0);
    assert_eq!(cpu.register(2), 0xCD);
    assert_eq!(cpu.register(3), 0x0F);
}

#[test]
fn given_byte_is_ignored_by_other_instructions() {
    let rom = [0x61, 0x10, 0x71, 0x05, 0xA1, 0x23, 0x81, 0x14];
    let mut a = CPU::new();
    let mut b = CPU::new();
    a.load(&rom);
    b.load(&rom);
    for _ in 0..4 {
        a.step_with(0x00);
        b.step_with(0xFF);
    }
    for x in 0..16 {
        assert_eq!(a.register(x), b.register(x));
    }
    assert_eq!(a.index(), b.index());
    assert_eq!(a.program_counter(), b.program_counter());
}

#[test]
fn step_without_random_instruction_matches_step_with() {
    let rom = [0x63, 0xFF, 0x64, 0x01, 0x83, 0x44];
    let mut a = CPU::new();
    let mut b = CPU::new();
    a.load(&rom);
    b.load(&rom);
    for _ in 0..3 {
        a.step();
        b.step_with(0x5A);
    }
    assert_eq!(a.register(3), 0);
    assert_eq!(a.register(0xF), 1);
    for x in 0..16 {
        assert_eq!(a.register(x), b.register(x));
    }
}

#[test]
fn bcd_of_234() {
    // V5 := 234; I := 0x300; BCD.
    let cpu = run(&[0x65, 234, 0xA3, 0x00, 0xF5, 0x33]);
    assert_eq!(cpu.read_memory(0x300), 2);
    assert_eq!(cpu.read_memory(0x301), 3);
    assert_eq!(cpu.read_memory(0x302), 4);
    assert_eq!(cpu.read_memory(0x303), 0);
    assert_eq!(cpu.index(), 0x300);
}

#[test]
fn bcd_of_small_and_large_values() {
    let seven = run(&[0x65, 7, 0xA3, 0x00, 0xF5, 0x33]);
    assert_eq!(
        [0x300usize, 0x301, 0x302].map(|a| seven.read_memory(a)),
        [0, 0, 7]
    );
    let max = run(&[0x65, 255, 0xA3, 0x00, 0xF5, 0x33]);
    assert_eq!(
        [0x300usize, 0x301, 0x302].map(|a| max.read_memory(a)),
        [2, 5, 5]
    );
    let hundred = run(&[0x65, 100, 0xA3, 0x00, 0xF5, 0x33]);
    assert_eq!(
        [0x300usize, 0x301, 0x302].map(|a| hundred.read_memory(a)),
        [1, 0, 0]
    );
}

#[test]
fn bcd_at_the_last_addresses() {
    // I := 0xFFD: the three digits end at the last byte of memory.
    let cpu = run(&[0x65, 195, 0xAF, 0xFD, 0xF5, 0x33]);
    assert_eq!(
        [0xFFDusize, 0xFFE, 0xFFF].map(|a| cpu.read_memory(a)),
        [1, 9, 5]
    );
}

#[test]
fn store_then_load_round_trip() {
    // V0..V3 := 11, 22, 33, 44; I := 0x400; store V0..=V3; clear them; load.
    let cpu = run(&[
        0x60, 11, 0x61, 22, 0x62, 33, 0x63, 44, 0x64, 55, 0xA4, 0x00, 0xF3, 0x55, 0x60, 0, 0x61,
        0, 0x62, 0, 0x63, 0, 0x64, 0, 0xF3, 0x65,
    ]);
    assert_eq!(
        [0usize, 1, 2, 3].map(|x| cpu.register(x)),
        [11, 22, 33, 44]
    );
    // V4 lies past x: it was not stored and is not loaded.
    assert_eq!(cpu.register(4), 0);
    assert_eq!(
        [0x400usize, 0x401, 0x402, 0x403, 0x404].map(|a| cpu.read_memory(a)),
        [11, 22, 33, 44, 0]
    );
    assert_eq!(cpu.index(), 0x400);
}

#[test]
fn store_and_load_right_after_each_other_change_no_register() {
    let mut cpu = run(&[0x60, 0xDE, 0x61, 0xAD, 0x6F, 0x99, 0xA5, 0x00, 0xFF, 0x55]);
    let before: Vec<u8> = (0..16).map(|x| cpu.register(x)).collect();
    cpu.load(&[0x60, 0xDE, 0x61, 0xAD, 0x6F, 0x99, 0xA5, 0x00, 0xFF, 0x55, 0xFF, 0x65]);
    cpu.step_with(0);
    let after: Vec<u8> = (0..16).map(|x| cpu.register(x)).collect();
    assert_eq!(before, after);
    assert_eq!(cpu.read_memory(0x500), 0xDE);
    assert_eq!(cpu.read_memory(0x501), 0xAD);
    assert_eq!(cpu.read_memory(0x50F), 0x99);
}

#[test]
fn store_of_register_zero_alone() {
    let cpu = run(&[0x60, 0x42, 0x61, 0x43, 0xA6, 0x00, 0xF0, 0x55]);
    assert_eq!(cpu.read_memory(0x600), 0x42);
    assert_eq!(cpu.read_memory(0x601), 0);
}

#[test]
fn load_registers_from_the_font() {
    // I := 0; load V0..=V4: the rows of glyph 0.
    let cpu = run(&[0xA0, 0x00, 0xF4, 0x65]);
    assert_eq!(
        [0usize, 1, 2, 3, 4, 5].map(|x| cpu.register(x)),
        [0xF0, 0x90, 0x90, 0x90, 0xF0, 0]
    );
}

#[test]
fn set_and_add_index() {
    let cpu = run(&[0xA1, 0x23, 0x61, 0x10, 0xF1, 0x1E]);
    assert_eq!(cpu.index(), 0x133);
}

#[test]
fn add_index_wraps_at_sixteen_bits() {
    // I := 0xFFF, then add 0xFF until the sixteen-bit register wraps.
    let mut rom: Vec<u8> = vec![0xAF, 0xFF, 0x61, 0xFF];
    for _ in 0..241 {
        rom.push(0xF1);
        rom.push(0x1E);
    }
    let cpu = run(&rom);
    // 0xFFF + 241 * 0xFF = 65550 = 0x1_000E.
    assert_eq!(cpu.index(), 0x000E);
}

#[test]
fn glyph_address_is_five_times_the_digit() {
    let a = run(&[0x61, 0x0A, 0xF1, 0x29]);
    assert_eq!(a.index(), 50);
    let zero = run(&[0xA1, 0x11, 0x61, 0x00, 0xF1, 0x29]);
    assert_eq!(zero.index(), 0);
    let large = run(&[0x61, 0xFF, 0xF1, 0x29]);
    assert_eq!(large.index(), 1275);
}
