use chip8::Chip8;

fn loaded(program: &[u8]) -> Chip8 {
    let mut machine = Chip8::init();
    assert_eq!(machine.load_application(program), Ok(()));
    machine
}

fn after(program: &[u8], cycles: usize) -> Chip8 {
    let mut machine = loaded(program);
    for _ in 0..cycles {
        machine.emulate_cycle_with(0);
    }
    machine
}

/// Loads `vx` into V1 and `vy` into V2, then runs the one instruction `ins`.
fn with_operands(vx: u8, vy: u8, ins: [u8; 2]) -> Chip8 {
    after(&[0x61, vx, 0x62, vy, ins[0], ins[1]], 3)
}

#[test]
fn add_with_carry() {
    let machine = with_operands(0xFF, 0x01, [0x81, 0x24]);
    assert_eq!(machine.register(1), 0x00);
    assert_eq!(machine.register(0xF), 1);
    assert_eq!(machine.program_counter(), 0x206);
}

#[test]
fn add_without_carry() {
    let machine = with_operands(0x01, 0x01, [0x81, 0x24]);
    assert_eq!(machine.register(1), 0x02);
    assert_eq!(machine.register(2), 0x01);
    assert_eq!(machine.register(0xF), 0);
    assert_eq!(machine.program_counter(), 0x206);
}

#[test]
fn add_at_the_edge_of_a_byte() {
    let machine = with_operands(0xFE, 0x01, [0x81, 0x24]);
    assert_eq!(machine.register(1), 0xFF);
    assert_eq!(machine.register(0xF), 0);
    let machine = with_operands(0xFF, 0xFF, [0x81, 0x24]);
    assert_eq!(machine.register(1), 0xFE);
    assert_eq!(machine.register(0xF), 1);
}

#[test]
fn subtract_with_borrow() {
    let machine = with_operands(0x01, 0x02, [0x81, 0x25]);
    assert_eq!(machine.register(0xF), 0);
    assert_eq!(machine.register(1), 0xFF);
    assert_eq!(machine.program_counter(), 0x206);
}

#[test]
fn subtract_without_borrow() {
    let machine = with_operands(0x05, 0x02, [0x81, 0x25]);
    assert_eq!(machine.register(0xF), 1);
    assert_eq!(machine.register(1), 0x03);
    assert_eq!(machine.program_counter(), 0x206);
}

#[test]
fn subtract_equal_operands_has_no_borrow() {
    let machine = with_operands(0x07, 0x07, [0x81, 0x25]);
    assert_eq!(machine.register(0xF), 1);
    assert_eq!(machine.register(1), 0);
}

#[test]
fn subtract_from_the_other_register() {
    let machine = with_operands(0x02, 0x05, [0x81, 0x27]);
    assert_eq!(machine.register(1), 0x03);
    assert_eq!(machine.register(0xF), 1);
    assert_eq!(machine.program_counter(), 0x206);
    let machine = with_operands(0x05, 0x02, [0x81, 0x27]);
    assert_eq!(machine.register(1), 0xFD);
    assert_eq!(machine.register(2), 0x02);
    assert_eq!(machine.register(0xF), 0);
}

#[test]
fn flag_is_written_after_the_result() {
    // VF = 0xFF; V2 = 1; VF += V2: the carry, not the sum, stays in VF.
    let machine = after(&[0x6F, 0xFF, 0x62, 0x01, 0x8F, 0x24], 3);
    assert_eq!(machine.register(0xF), 1);
    // VF = 3; V2 = 9; VF -= V2: a borrow, so VF is 0.
    let machine = after(&[0x6F, 0x03, 0x62, 0x09, 0x8F, 0x25], 3);
    assert_eq!(machine.register(0xF), 0);
    // V1 = 0xF0; VF = 0x20; V1 += VF: the old VF is added, then the carry written.
    let machine = after(&[0x61, 0xF0, 0x6F, 0x20, 0x81, 0xF4], 3);
    assert_eq!(machine.register(1), 0x10);
    assert_eq!(machine.register(0xF), 1);
}

#[test]
fn shift_right_keeps_the_low_bit_in_the_flag() {
    let machine = with_operands(0x05, 0, [0x81, 0x26]);
    assert_eq!(machine.register(1), 0x02);
    assert_eq!(machine.register(0xF), 1);
    assert_eq!(machine.program_counter(), 0x206);
    let machine = with_operands(0xFE, 0, [0x81, 0x26]);
    assert_eq!(machine.register(1), 0x7F);
    assert_eq!(machine.register(0xF), 0);
}

#[test]
fn shift_left_keeps_the_top_bit_in_the_flag() {
    let machine = with_operands(0x81, 0, [0x81, 0x2E]);
    assert_eq!(machine.register(1), 0x02);
    assert_eq!(machine.register(0xF), 1);
    assert_eq!(machine.program_counter(), 0x206);
    let machine = with_operands(0x7F, 0, [0x81, 0x2E]);
    assert_eq!(machine.register(1), 0xFE);
    assert_eq!(machine.register(0xF), 0);
}

#[test]
fn shift_of_the_flag_register_shifts_the_flag() {
    // VF = 3; VF >>= 1: the flag 1 is written first, then shifted out.
    let machine = after(&[0x6F, 0x03, 0x8F, 0x06], 2);
    assert_eq!(machine.register(0xF), 0);
    // VF = 0x80; VF <<= 1: the flag 1 is written first, then doubled.
    let machine = after(&[0x6F, 0x80, 0x8F, 0x0E], 2);
    assert_eq!(machine.register(0xF), 2);
}

#[test]
fn load_and_add_byte() {
    let machine = after(&[0x6A, 0x42, 0x7A, 0x10, 0x7A, 0xFF], 1);
    assert_eq!(machine.register(0xA), 0x42);
    assert_eq!(machine.program_counter(), 0x202);
    let machine = after(&[0x6A, 0x42, 0x7A, 0x10, 0x7A, 0xFF], 2);
    assert_eq!(machine.register(0xA), 0x52);
    let machine = after(&[0x6A, 0x42, 0x7A, 0x10, 0x7A, 0xFF], 3);
    assert_eq!(machine.register(0xA), 0x51);
    assert_eq!(machine.register(0xF), 0);
    assert_eq!(machine.program_counter(), 0x206);
}

#[test]
fn assign_and_bitwise_operations() {
    let machine = with_operands(0x0C, 0x0A, [0x81, 0x20]);
    assert_eq!(machine.register(1), 0x0A);
    let machine = with_operands(0x0C, 0x0A, [0x81, 0x21]);
    assert_eq!(machine.register(1), 0x0E);
    let machine = with_operands(0x0C, 0x0A, [0x81, 0x22]);
    assert_eq!(machine.register(1), 0x08);
    let machine = with_operands(0x0C, 0x0A, [0x81, 0x23]);
    assert_eq!(machine.register(1), 0x06);
    assert_eq!(machine.register(2), 0x0A);
    assert_eq!(machine.register(0xF), 0);
    assert_eq!(machine.program_counter(), 0x206);
}

#[test]
fn skip_if_equal_to_byte() {
    assert_eq!(with_operands(0x33, 0, [0x31, 0x33]).program_counter(), 0x208);
    assert_eq!(with_operands(0x33, 0, [0x31, 0x34]).program_counter(), 0x206);
}

#[test]
fn skip_if_not_equal_to_byte() {
    assert_eq!(with_operands(0x33, 0, [0x41, 0x34]).program_counter(), 0x208);
    assert_eq!(with_operands(0x33, 0, [0x41, 0x33]).program_counter(), 0x206);
}

#[test]
fn skip_if_registers_equal() {
    assert_eq!(with_operands(0x09, 0x09, [0x51, 0x20]).program_counter(), 0x208);
    assert_eq!(with_operands(0x09, 0x08, [0x51, 0x20]).program_counter(), 0x206);
}

#[test]
fn skip_if_registers_differ() {
    assert_eq!(with_operands(0x09, 0x08, [0x91, 0x20]).program_counter(), 0x208);
    assert_eq!(with_operands(0x09, 0x09, [0x91, 0x20]).program_counter(), 0x206);
}

#[test]
fn skip_if_key_down_or_up() {
    let program = [0x61, 0x0B, 0xE1, 0x9E, 0x00, 0x00, 0xE1, 0xA1];
    let mut machine = loaded(&program);
    machine.set_key(0xB, true);
    machine.emulate_cycle_with(0);
    machine.emulate_cycle_with(0);
    assert_eq!(machine.program_counter(), 0x206);
    machine.emulate_cycle_with(0);
    assert_eq!(machine.program_counter(), 0x208);

    let mut machine = loaded(&[0x61, 0x0B, 0xE1, 0x9E, 0xE1, 0xA1]);
    machine.set_key(0xA, true);
    machine.emulate_cycle_with(0);
    machine.emulate_cycle_with(0);
    assert_eq!(machine.program_counter(), 0x204);
    machine.emulate_cycle_with(0);
    assert_eq!(machine.program_counter(), 0x208);
}

#[test]
fn key_number_uses_the_low_four_bits() {
    let mut machine = loaded(&[0x61, 0xFB, 0xE1, 0x9E]);
    machine.set_key(0xB, true);
    machine.emulate_cycle_with(0);
    machine.emulate_cycle_with(0);
    assert_eq!(machine.program_counter(), 0x206);
}

#[test]
fn skips_leave_everything_but_the_program_counter() {
    let machine = with_operands(0x33, 0x44, [0x31, 0x33]);
    assert_eq!(machine.register(1), 0x33);
    assert_eq!(machine.register(2), 0x44);
    assert_eq!(machine.register(0xF), 0);
    assert_eq!(machine.index(), 0);
    assert_eq!(machine.stack_pointer(), 0);
}

#[test]
fn jump_sets_the_program_counter() {
    let machine = after(&[0x1A, 0xBC], 1);
    assert_eq!(machine.program_counter(), 0xABC);
    assert_eq!(machine.stack_pointer(), 0);
}

#[test]
fn jump_with_offset_adds_v0() {
    let machine = after(&[0x60, 0x10, 0xB3, 0x00], 2);
    assert_eq!(machine.program_counter(), 0x310);
    let machine = after(&[0x60, 0xFF, 0xBF, 0xFF], 2);
    assert_eq!(machine.program_counter(), 0x10FE);
}

#[test]
fn call_and_return() {
    // 0x200: call 0x206; 0x202: V1 = 7; 0x206: V0 = 5; 0x208: return.
    let program = [0x22, 0x06, 0x61, 0x07, 0x00, 0x00, 0x60, 0x05, 0x00, 0xEE];
    let mut machine = loaded(&program);
    machine.emulate_cycle_with(0);
    assert_eq!(machine.program_counter(), 0x206);
    assert_eq!(machine.stack_pointer(), 1);
    assert_eq!(machine.stack_at(0), 0x200);
    machine.emulate_cycle_with(0);
    assert_eq!(machine.register(0), 5);
    machine.emulate_cycle_with(0);
    assert_eq!(machine.program_counter(), 0x202);
    assert_eq!(machine.stack_pointer(), 0);
    machine.emulate_cycle_with(0);
    assert_eq!(machine.register(1), 7);
}

#[test]
fn stack_pointer_wraps_round_sixteen_slots() {
    // A call to itself, over and over.
    let mut machine = loaded(&[0x22, 0x00]);
    for depth in 1..=16u8 {
        machine.emulate_cycle_with(0);
        assert_eq!(machine.stack_pointer(), depth % 16);
        assert_eq!(machine.program_counter(), 0x200);
    }
    machine.emulate_cycle_with(0);
    assert_eq!(machine.stack_pointer(), 1);
    for slot in 0..16u8 {
        assert_eq!(machine.stack_at(slot), 0x200);
    }
}

#[test]
fn return_on_an_empty_stack_wraps_to_the_last_slot() {
    let machine = after(&[0x00, 0xEE], 1);
    assert_eq!(machine.stack_pointer(), 15);
    assert_eq!(machine.program_counter(), 2);
}

#[test]
fn load_index_and_add_to_index() {
    let machine = after(&[0xA1, 0x23, 0x61, 0x10, 0xF1, 0x1E], 1);
    assert_eq!(machine.index(), 0x123);
    assert_eq!(machine.program_counter(), 0x202);
    let machine = after(&[0xA1, 0x23, 0x61, 0x10, 0xF1, 0x1E], 3);
    assert_eq!(machine.index(), 0x133);
    assert_eq!(machine.register(0xF), 0);
    assert_eq!(machine.program_counter(), 0x206);
}

#[test]
fn add_to_index_flags_leaving_the_address_space() {
    let machine = after(&[0xAF, 0xFF, 0x61, 0x01, 0xF1, 0x1E], 3);
    assert_eq!(machine.index(), 0x1000);
    assert_eq!(machine.register(0xF), 1);
    let machine = after(&[0xAF, 0xFE, 0x61, 0x01, 0xF1, 0x1E], 3);
    assert_eq!(machine.index(), 0xFFF);
    assert_eq!(machine.register(0xF), 0);
}

#[test]
fn glyph_address_is_five_times_the_digit() {
    let machine = after(&[0x61, 0x0A, 0xF1, 0x29], 2);
    assert_eq!(machine.index(), 50);
    assert_eq!(machine.memory_at(machine.index()), 0xF0);
    assert_eq!(machine.memory_at(machine.index() + 4), 0x90);
    let machine = after(&[0x61, 0xFF, 0xF1, 0x29], 2);
    assert_eq!(machine.index(), 1275);
    assert_eq!(machine.program_counter(), 0x204);
}

#[test]
fn store_decimal_digits() {
    let machine = after(&[0x61, 157, 0xA3, 0x00, 0xF1, 0x33], 3);
    assert_eq!(machine.memory_at(0x300), 1);
    assert_eq!(machine.memory_at(0x301), 5);
    assert_eq!(machine.memory_at(0x302), 7);
    assert_eq!(machine.memory_at(0x303), 0);
    assert_eq!(machine.memory_at(0x2FF), 0);
    assert_eq!(machine.index(), 0x300);
    assert_eq!(machine.program_counter(), 0x206);
    let machine = after(&[0x61, 255, 0xA3, 0x00, 0xF1, 0x33], 3);
    assert_eq!(machine.memory_at(0x300), 2);
    assert_eq!(machine.memory_at(0x301), 5);
    assert_eq!(machine.memory_at(0x302), 5);
    let machine = after(&[0x61, 9, 0xA3, 0x00, 0xF1, 0x33], 3);
    assert_eq!(machine.memory_at(0x300), 0);
    assert_eq!(machine.memory_at(0x301), 0);
    assert_eq!(machine.memory_at(0x302), 9);
}

#[test]
fn store_decimal_wraps_round_the_end_of_memory() {
    let machine = after(&[0x61, 157, 0xAF, 0xFF, 0xF1, 0x33], 3);
    assert_eq!(machine.memory_at(0xFFF), 1);
    assert_eq!(machine.memory_at(0x000), 5);
    assert_eq!(machine.memory_at(0x001), 7);
    assert_eq!(machine.memory_at(0x002), 0x90);
}

#[test]
fn store_registers_then_load_them_back() {
    // V0..V3 = 11, 22, 33, 44; I = 0x400; store V0..V2; clear V0..V3; I = 0x400; load V0..V2.
    let program = [
        0x60, 11, 0x61, 22, 0x62, 33, 0x63, 44, 0xA4, 0x00, 0xF2, 0x55, 0x60, 0, 0x61, 0, 0x62, 0,
        0x63, 0, 0xA4, 0x00, 0xF2, 0x65,
    ];
    let stored = after(&program, 6);
    assert_eq!(stored.index(), 0x403);
    assert_eq!(stored.memory_at(0x400), 11);
    assert_eq!(stored.memory_at(0x401), 22);
    assert_eq!(stored.memory_at(0x402), 33);
    assert_eq!(stored.memory_at(0x403), 0);
    assert_eq!(stored.memory_at(0x3FF), 0);
    assert_eq!(stored.register(0), 11);
    assert_eq!(stored.program_counter(), 0x20C);
    let loaded_back = after(&program, 12);
    assert_eq!(loaded_back.register(0), 11);
    assert_eq!(loaded_back.register(1), 22);
    assert_eq!(loaded_back.register(2), 33);
    assert_eq!(loaded_back.register(3), 0);
    assert_eq!(loaded_back.index(), 0x403);
    assert_eq!(loaded_back.program_counter(), 0x218);
}

#[test]
fn store_one_register_moves_the_index_by_one() {
    let machine = after(&[0x60, 0x5A, 0xA4, 0x00, 0xF0, 0x55], 3);
    assert_eq!(machine.index(), 0x401);
    assert_eq!(machine.memory_at(0x400), 0x5A);
    assert_eq!(machine.memory_at(0x401), 0);
}

#[test]
fn store_all_registers_wraps_round_the_end_of_memory() {
    let mut program = Vec::new();
    for x in 0..16u8 {
        program.extend_from_slice(&[0x60 | x, 0xA0 + x]);
    }
    program.extend_from_slice(&[0xAF, 0xF8, 0xFF, 0x55]);
    let machine = after(&program, 18);
    for k in 0..16u16 {
        assert_eq!(machine.memory_at((0xFF8 + k) % 4096), 0xA0 + k as u8);
    }
    assert_eq!(machine.memory_at(0xFF7), 0);
    assert_eq!(machine.memory_at(0x008), 0x20);
    assert_eq!(machine.index(), 0x1008);
}

#[test]
fn read_delay_and_set_timers() {
    let machine = after(&[0x61, 0x20, 0xF1, 0x15, 0xF1, 0x18, 0xF2, 0x07], 2);
    assert_eq!(machine.delay_timer(), 0x1F);
    let machine = after(&[0x61, 0x20, 0xF1, 0x15, 0xF1, 0x18, 0xF2, 0x07], 3);
    assert_eq!(machine.delay_timer(), 0x1E);
    assert_eq!(machine.sound_timer(), 0x1F);
    let machine = after(&[0x61, 0x20, 0xF1, 0x15, 0xF1, 0x18, 0xF2, 0x07], 4);
    assert_eq!(machine.register(2), 0x1E);
    assert_eq!(machine.delay_timer(), 0x1D);
    assert_eq!(machine.sound_timer(), 0x1E);
    assert_eq!(machine.program_counter(), 0x208);
}

#[test]
fn wait_key_holds_the_program_counter_while_timers_run() {
    let mut machine = loaded(&[0x61, 0x05, 0xF1, 0x15, 0xF3, 0x0A, 0x64, 0x01]);
    machine.emulate_cycle_with(0);
    machine.emulate_cycle_with(0);
    assert_eq!(machine.delay_timer(), 4);
    machine.emulate_cycle_with(0);
    assert_eq!(machine.program_counter(), 0x204);
    assert_eq!(machine.delay_timer(), 3);
    machine.emulate_cycle_with(0);
    assert_eq!(machine.program_counter(), 0x204);
    assert_eq!(machine.delay_timer(), 2);
    assert_eq!(machine.register(3), 0);
    machine.set_key(7, true);
    machine.emulate_cycle_with(0);
    assert_eq!(machine.register(3), 7);
    assert_eq!(machine.program_counter(), 0x206);
    assert_eq!(machine.delay_timer(), 1);
    machine.emulate_cycle_with(0);
    assert_eq!(machine.register(4), 1);
}

#[test]
fn wait_key_takes_the_highest_key_that_is_down() {
    let mut machine = loaded(&[0xF3, 0x0A]);
    machine.set_key(2, true);
    machine.set_key(0xC, true);
    machine.set_key(5, true);
    machine.emulate_cycle_with(0);
    assert_eq!(machine.register(3), 0xC);
    let mut machine = loaded(&[0xF3, 0x0A]);
    machine.set_key(0, true);
    machine.emulate_cycle_with(0);
    assert_eq!(machine.register(3), 0);
    assert_eq!(machine.program_counter(), 0x202);
}

#[test]
fn program_counter_wraps_round_memory_when_fetching() {
    // A jump to 0xFFF fetches its high byte there and its low byte at address 0.
    let mut machine = loaded(&[0x1F, 0xFF]);
    machine.emulate_cycle_with(0);
    assert_eq!(machine.program_counter(), 0xFFF);
    // Memory holds 0x00 at 0xFFF and 0xF0 at 0x000: the word 0x00F0 clears the screen.
    let report = machine.emulate_cycle_with(0);
    assert_eq!(report.unknown_opcode, None);
    assert_eq!(machine.program_counter(), 0x1001);
}
