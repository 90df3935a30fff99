use chip8::{Chip8, Config, FaultKind};

fn run(machine: &mut Chip8, words: &[u16]) {
    for word in words {
        assert_eq!(machine.execute(*word), Ok(()), "word {word:#06x}");
    }
}

fn registers(machine: &Chip8) -> Vec<u8> {
    (0..16).map(|x| machine.register(x).unwrap()).collect()
}

#[test]
fn unknown_words_fault_and_change_nothing() {
    let mut machine = Chip8::new();
    run(&mut machine, &[0x6112, 0xA123]);
    for word in [0x0000u16, 0x0123, 0x5121, 0x8128, 0x9121, 0xE19F, 0xF1FF] {
        assert_eq!(machine.execute(word), Err(FaultKind::UnknownInstruction));
    }
    assert_eq!(machine.register(1), Some(0x12));
    assert_eq!(machine.index(), 0x123);
    assert_eq!(machine.pc(), 0x200);
}

#[test]
fn jump_sets_the_program_counter() {
    let mut machine = Chip8::new();
    run(&mut machine, &[0x1ABC]);
    assert_eq!(machine.pc(), 0xABC);
    assert_eq!(machine.stack_depth(), 0);
}

#[test]
fn call_pushes_the_current_counter() {
    let mut machine = Chip8::new();
    run(&mut machine, &[0x1204, 0x2300]);
    assert_eq!(machine.pc(), 0x300);
    assert_eq!(machine.stack_depth(), 1);
    run(&mut machine, &[0x2400]);
    assert_eq!(machine.stack_depth(), 2);
    run(&mut machine, &[0x00EE]);
    assert_eq!(machine.pc(), 0x300);
    run(&mut machine, &[0x00EE]);
    assert_eq!(machine.pc(), 0x204);
    assert_eq!(machine.execute(0x00EE), Err(FaultKind::StackUnderflow));
    assert_eq!(machine.pc(), 0x204);
}

#[test]
fn skips_compare_with_an_immediate() {
    let mut machine = Chip8::new();
    run(&mut machine, &[0x6A42, 0x3A42]);
    assert_eq!(machine.pc(), 0x202);
    run(&mut machine, &[0x3A43]);
    assert_eq!(machine.pc(), 0x202);
    run(&mut machine, &[0x4A43]);
    assert_eq!(machine.pc(), 0x204);
    run(&mut machine, &[0x4A42]);
    assert_eq!(machine.pc(), 0x204);
}

#[test]
fn skips_compare_two_registers() {
    let mut machine = Chip8::new();
    run(&mut machine, &[0x6107, 0x6207, 0x6308, 0x5120]);
    assert_eq!(machine.pc(), 0x202);
    run(&mut machine, &[0x5130]);
    assert_eq!(machine.pc(), 0x202);
    run(&mut machine, &[0x9130]);
    assert_eq!(machine.pc(), 0x204);
    run(&mut machine, &[0x9120]);
    assert_eq!(machine.pc(), 0x204);
}

#[test]
fn a_skip_wraps_the_counter_at_sixteen_bits() {
    let mut machine = Chip8::new();
    machine.push_stack(0xFFFF).unwrap();
    run(&mut machine, &[0x00EE]);
    assert_eq!(machine.pc(), 0xFFFF);
    run(&mut machine, &[0x3000]);
    assert_eq!(machine.pc(), 0x0001);
}

#[test]
fn load_and_move() {
    let mut machine = Chip8::new();
    run(&mut machine, &[0x63AB, 0x8430]);
    assert_eq!(machine.register(3), Some(0xAB));
    assert_eq!(machine.register(4), Some(0xAB));
    assert_eq!(machine.register(0xF), Some(0));
}

#[test]
fn add_immediate_wraps_without_a_flag() {
    let mut machine = Chip8::new();
    run(&mut machine, &[0x6AFF, 0x7A02]);
    assert_eq!(machine.register(0xA), Some(1));
    assert_eq!(machine.register(0xF), Some(0));
    run(&mut machine, &[0x6F09, 0x7AFF]);
    assert_eq!(machine.register(0xA), Some(0));
    assert_eq!(machine.register(0xF), Some(9));
    run(&mut machine, &[0x7A05, 0x7A00]);
    assert_eq!(machine.register(0xA), Some(5));
}

#[test]
fn bitwise_operations() {
    let mut machine = Chip8::new();
    run(&mut machine, &[0x61CC, 0x62AA, 0x8121]);
    assert_eq!(machine.register(1), Some(0xEE));
    run(&mut machine, &[0x61CC, 0x8122]);
    assert_eq!(machine.register(1), Some(0x88));
    run(&mut machine, &[0x61CC, 0x8123]);
    assert_eq!(machine.register(1), Some(0x66));
    assert_eq!(machine.register(2), Some(0xAA));
    assert_eq!(machine.register(0xF), Some(0));
}

#[test]
fn add_sets_the_carry_exactly_above_255() {
    let mut machine = Chip8::new();
    run(&mut machine, &[0x61FF, 0x6201, 0x8124]);
    assert_eq!(machine.register(1), Some(0));
    assert_eq!(machine.register(0xF), Some(1));
    run(&mut machine, &[0x61FE, 0x6201, 0x8124]);
    assert_eq!(machine.register(1), Some(255));
    assert_eq!(machine.register(0xF), Some(0));
    run(&mut machine, &[0x61C8, 0x6264, 0x8124]);
    assert_eq!(machine.register(1), Some(44));
    assert_eq!(machine.register(0xF), Some(1));
    run(&mut machine, &[0x6101, 0x6202, 0x8124]);
    assert_eq!(machine.register(1), Some(3));
    assert_eq!(machine.register(0xF), Some(0));
}

#[test]
fn add_resets_a_flag_left_from_before() {
    let mut machine = Chip8::new();
    run(&mut machine, &[0x6F01, 0x6101, 0x6202, 0x8124]);
    assert_eq!(machine.register(0xF), Some(0));
}

#[test]
fn the_flag_wins_over_a_result_in_vf() {
    let mut machine = Chip8::new();
    run(&mut machine, &[0x6FFF, 0x6102, 0x8F14]);
    assert_eq!(machine.register(0xF), Some(1));
    run(&mut machine, &[0x6F05, 0x6102, 0x8F14]);
    assert_eq!(machine.register(0xF), Some(0));
    run(&mut machine, &[0x6F05, 0x6102, 0x8F15]);
    assert_eq!(machine.register(0xF), Some(1));
    run(&mut machine, &[0x6F03, 0x8F06]);
    assert_eq!(machine.register(0xF), Some(1));
}

#[test]
fn subtract_sets_the_flag_without_a_borrow() {
    let mut machine = Chip8::new();
    run(&mut machine, &[0x6105, 0x6203, 0x8125]);
    assert_eq!(machine.register(1), Some(2));
    assert_eq!(machine.register(0xF), Some(1));
    run(&mut machine, &[0x6103, 0x6205, 0x8125]);
    assert_eq!(machine.register(1), Some(254));
    assert_eq!(machine.register(0xF), Some(0));
    run(&mut machine, &[0x6107, 0x6207, 0x8125]);
    assert_eq!(machine.register(1), Some(0));
    assert_eq!(machine.register(0xF), Some(1));
}

#[test]
fn subtract_from_takes_vx_from_vy() {
    let mut machine = Chip8::new();
    run(&mut machine, &[0x6103, 0x6205, 0x8127]);
    assert_eq!(machine.register(1), Some(2));
    assert_eq!(machine.register(2), Some(5));
    assert_eq!(machine.register(0xF), Some(1));
    run(&mut machine, &[0x6105, 0x6203, 0x8127]);
    assert_eq!(machine.register(1), Some(254));
    assert_eq!(machine.register(0xF), Some(0));
}

#[test]
fn the_borrow_flag_can_be_turned_over() {
    let config = Config { borrow_sets_flag: true, ..Config::default() };
    let mut machine = Chip8::with_config(config);
    run(&mut machine, &[0x6105, 0x6203, 0x8125]);
    assert_eq!(machine.register(1), Some(2));
    assert_eq!(machine.register(0xF), Some(0));
    run(&mut machine, &[0x6103, 0x6205, 0x8125]);
    assert_eq!(machine.register(1), Some(254));
    assert_eq!(machine.register(0xF), Some(1));
    run(&mut machine, &[0x6105, 0x6203, 0x8127]);
    assert_eq!(machine.register(1), Some(254));
    assert_eq!(machine.register(0xF), Some(1));
}

#[test]
fn shifts_work_on_vx_by_default() {
    let mut machine = Chip8::new();
    run(&mut machine, &[0x6105, 0x62F0, 0x8126]);
    assert_eq!(machine.register(1), Some(2));
    assert_eq!(machine.register(2), Some(0xF0));
    assert_eq!(machine.register(0xF), Some(1));
    run(&mut machine, &[0x6104, 0x8126]);
    assert_eq!(machine.register(1), Some(2));
    assert_eq!(machine.register(0xF), Some(0));
    run(&mut machine, &[0x6181, 0x812E]);
    assert_eq!(machine.register(1), Some(2));
    assert_eq!(machine.register(0xF), Some(1));
    run(&mut machine, &[0x6141, 0x812E]);
    assert_eq!(machine.register(1), Some(0x82));
    assert_eq!(machine.register(0xF), Some(0));
}

#[test]
fn shifts_can_read_vy() {
    let config = Config { shift_uses_vy: true, ..Config::default() };
    let mut machine = Chip8::with_config(config);
    run(&mut machine, &[0x6100, 0x6205, 0x8126]);
    assert_eq!(machine.register(1), Some(2));
    assert_eq!(machine.register(2), Some(5));
    assert_eq!(machine.register(0xF), Some(1));
    run(&mut machine, &[0x6100, 0x6281, 0x812E]);
    assert_eq!(machine.register(1), Some(2));
    assert_eq!(machine.register(2), Some(0x81));
    assert_eq!(machine.register(0xF), Some(1));
}

#[test]
fn load_index() {
    let mut machine = Chip8::new();
    run(&mut machine, &[0xA000]);
    assert_eq!(machine.index(), 0);
    run(&mut machine, &[0xAFFF]);
    assert_eq!(machine.index(), 0xFFF);
}

#[test]
fn jump_with_offset_adds_v0_by_default() {
    let mut machine = Chip8::new();
    run(&mut machine, &[0x6010, 0x6320, 0xB300]);
    assert_eq!(machine.pc(), 0x310);
    run(&mut machine, &[0x60FF, 0xBFFF]);
    assert_eq!(machine.pc(), 0x10FE);
}

#[test]
fn jump_with_offset_can_add_vx() {
    let config = Config { jump_uses_vx: true, ..Config::default() };
    let mut machine = Chip8::with_config(config);
    run(&mut machine, &[0x6010, 0x6320, 0xB300]);
    assert_eq!(machine.pc(), 0x320);
    run(&mut machine, &[0xB012]);
    assert_eq!(machine.pc(), 0x022);
}

#[test]
fn add_to_index_leaves_vf_alone_by_default() {
    let mut machine = Chip8::new();
    run(&mut machine, &[0x6F07, 0xAFFE, 0x6A05, 0xFA1E]);
    assert_eq!(machine.index(), 0x1003);
    assert_eq!(machine.register(0xF), Some(7));
}

#[test]
fn add_to_index_can_flag_an_address_past_memory() {
    let config = Config { index_overflow_flag: true, ..Config::default() };
    let mut machine = Chip8::with_config(config);
    run(&mut machine, &[0xAFFE, 0x6A05, 0xFA1E]);
    assert_eq!(machine.index(), 0x1003);
    assert_eq!(machine.register(0xF), Some(1));
    run(&mut machine, &[0xAFFE, 0x6A01, 0xFA1E]);
    assert_eq!(machine.index(), 0xFFF);
    assert_eq!(machine.register(0xF), Some(0));
    run(&mut machine, &[0xAFFF, 0x6A01, 0xFA1E]);
    assert_eq!(machine.index(), 0x1000);
    assert_eq!(machine.register(0xF), Some(1));
}

#[test]
fn add_to_index_wraps_at_sixteen_bits() {
    let mut machine = Chip8::new();
    run(&mut machine, &[0xAFFF, 0x60FF]);
    for _ in 0..240 {
        run(&mut machine, &[0xF01E]);
    }
    assert_eq!(machine.index(), 0xFFF + 240 * 255);
    for _ in 0..2 {
        run(&mut machine, &[0xF01E]);
    }
    assert_eq!(machine.index() as u32, (0xFFF + 242 * 255) % 0x1_0000);
}

#[test]
fn timers_are_set_and_read() {
    let mut machine = Chip8::new();
    run(&mut machine, &[0x6142, 0xF115, 0x6217, 0xF218, 0xF307]);
    assert_eq!(machine.delay_timer(), 0x42);
    assert_eq!(machine.sound_timer(), 0x17);
    assert_eq!(machine.register(3), Some(0x42));
    machine.decrement_timers();
    run(&mut machine, &[0xF307]);
    assert_eq!(machine.register(3), Some(0x41));
}

#[test]
fn font_glyph_points_into_the_font() {
    let mut machine = Chip8::new();
    run(&mut machine, &[0x6100, 0xF129]);
    assert_eq!(machine.index(), 0x50);
    run(&mut machine, &[0x6101, 0xF129]);
    assert_eq!(machine.index(), 0x55);
    run(&mut machine, &[0x610F, 0xF129]);
    assert_eq!(machine.index(), 0x9B);
    // Only the low nibble counts.
    run(&mut machine, &[0x61A3, 0xF129]);
    assert_eq!(machine.index(), 0x50 + 5 * 3);
}

#[test]
fn decimal_digits_go_to_memory() {
    let mut machine = Chip8::new();
    run(&mut machine, &[0x61FE, 0xA300, 0xF133]);
    assert_eq!(machine.memory(0x2FF), Some(0));
    assert_eq!(machine.memory(0x300), Some(2));
    assert_eq!(machine.memory(0x301), Some(5));
    assert_eq!(machine.memory(0x302), Some(4));
    assert_eq!(machine.memory(0x303), Some(0));
    assert_eq!(machine.index(), 0x300);
    run(&mut machine, &[0x6107, 0xF133]);
    assert_eq!(machine.memory(0x300), Some(0));
    assert_eq!(machine.memory(0x301), Some(0));
    assert_eq!(machine.memory(0x302), Some(7));
}

#[test]
fn decimal_digits_need_three_bytes_of_memory() {
    let mut machine = Chip8::new();
    run(&mut machine, &[0x617B, 0xAFFD, 0xF133]);
    assert_eq!(machine.memory(0xFFD), Some(1));
    assert_eq!(machine.memory(0xFFE), Some(2));
    assert_eq!(machine.memory(0xFFF), Some(3));
    run(&mut machine, &[0x61FF, 0xAFFE]);
    assert_eq!(machine.execute(0xF133), Err(FaultKind::OutOfBounds));
    assert_eq!(machine.memory(0xFFE), Some(2));
    assert_eq!(machine.memory(0xFFF), Some(3));
    run(&mut machine, &[0xAFFF]);
    assert_eq!(machine.execute(0xF133), Err(FaultKind::OutOfBounds));
}

#[test]
fn registers_go_to_memory_and_back() {
    let mut machine = Chip8::new();
    run(&mut machine, &[0x6011, 0x6122, 0x6233, 0x6344, 0xA400, 0xF255]);
    assert_eq!(machine.memory(0x400), Some(0x11));
    assert_eq!(machine.memory(0x401), Some(0x22));
    assert_eq!(machine.memory(0x402), Some(0x33));
    assert_eq!(machine.memory(0x403), Some(0));
    assert_eq!(machine.index(), 0x400);
    run(&mut machine, &[0x6000, 0x6100, 0x6200, 0x6300, 0xF165]);
    assert_eq!(registers(&machine)[..4], [0x11, 0x22, 0, 0]);
    run(&mut machine, &[0xF065]);
    assert_eq!(machine.index(), 0x400);
}

#[test]
fn all_sixteen_registers_go_to_memory_and_back() {
    let mut machine = Chip8::new();
    for x in 0..16u16 {
        run(&mut machine, &[0x6000 | x << 8 | (0xA0 + x)]);
    }
    let saved = registers(&machine);
    run(&mut machine, &[0xA800, 0xFF55]);
    for x in 0..16u16 {
        assert_eq!(machine.memory(0x800 + x), Some(0xA0 + x as u8));
        run(&mut machine, &[0x6000 | x << 8]);
    }
    assert_eq!(machine.memory(0x810), Some(0));
    run(&mut machine, &[0xFF65]);
    assert_eq!(registers(&machine), saved);
}

#[test]
fn register_transfers_stay_in_memory() {
    let mut machine = Chip8::new();
    run(&mut machine, &[0x60AA, 0x61BB, 0xAFFE, 0xF155]);
    assert_eq!(machine.memory(0xFFE), Some(0xAA));
    assert_eq!(machine.memory(0xFFF), Some(0xBB));
    run(&mut machine, &[0xAFFF]);
    assert_eq!(machine.execute(0xF155), Err(FaultKind::OutOfBounds));
    assert_eq!(machine.memory(0xFFF), Some(0xBB));
    assert_eq!(machine.execute(0xF165), Err(FaultKind::OutOfBounds));
    assert_eq!(machine.register(0), Some(0xAA));
    run(&mut machine, &[0xF055]);
    assert_eq!(machine.memory(0xFFF), Some(0xAA));
    run(&mut machine, &[0x6000, 0xF065]);
    assert_eq!(machine.register(0), Some(0xAA));
}
