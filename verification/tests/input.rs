use chip8::model::{rng_output, rng_step};
use chip8::{Chip8, FaultKind};

fn run(machine: &mut Chip8, words: &[u16]) {
    for word in words {
        assert_eq!(machine.execute(*word), Ok(()), "word {word:#06x}");
    }
}

#[test]
fn keys_are_held_until_released() {
    let mut machine = Chip8::new();
    machine.set_key(0x3, true);
    assert!(machine.is_key_down(0x3));
    assert!(!machine.is_key_down(0x4));
    machine.set_key(0x3, true);
    assert!(machine.is_key_down(0x3));
    machine.set_key(0x3, false);
    assert!(!machine.is_key_down(0x3));
    machine.set_key(0xF, true);
    assert!(machine.is_key_down(0xF));
}

#[test]
fn values_above_fifteen_are_no_keys() {
    let mut machine = Chip8::new();
    machine.set_key(16, true);
    machine.set_key(255, true);
    for key in 0..=255u8 {
        assert!(!machine.is_key_down(key));
    }
    run(&mut machine, &[0x6010, 0xF10A]);
    machine.set_key(16, true);
    assert!(machine.is_awaiting_key());
}

#[test]
fn skip_if_key_down() {
    let mut machine = Chip8::new();
    run(&mut machine, &[0x6107, 0xE19E]);
    assert_eq!(machine.pc(), 0x200);
    machine.set_key(7, true);
    run(&mut machine, &[0xE19E]);
    assert_eq!(machine.pc(), 0x202);
    machine.set_key(7, false);
    machine.set_key(8, true);
    run(&mut machine, &[0xE19E]);
    assert_eq!(machine.pc(), 0x202);
}

#[test]
fn skip_if_key_up() {
    let mut machine = Chip8::new();
    run(&mut machine, &[0x6107, 0xE1A1]);
    assert_eq!(machine.pc(), 0x202);
    machine.set_key(7, true);
    run(&mut machine, &[0xE1A1]);
    assert_eq!(machine.pc(), 0x202);
}

#[test]
fn a_register_above_fifteen_names_no_key() {
    let mut machine = Chip8::new();
    for key in 0..16 {
        machine.set_key(key, true);
    }
    run(&mut machine, &[0x6117, 0xE19E]);
    assert_eq!(machine.pc(), 0x200);
    run(&mut machine, &[0xE1A1]);
    assert_eq!(machine.pc(), 0x202);
}

#[test]
fn wait_for_key_suspends_the_machine() {
    let mut machine = Chip8::new();
    machine.load_rom(&[0xF5, 0x0A, 0x65, 0x99]).unwrap();
    assert!(!machine.is_awaiting_key());
    assert_eq!(machine.step(), Ok(()));
    assert!(machine.is_awaiting_key());
    assert_eq!(machine.pc(), 0x202);
    for _ in 0..10 {
        assert_eq!(machine.step(), Ok(()));
        assert_eq!(machine.pc(), 0x202);
        assert_eq!(machine.register(5), Some(0));
        assert!(machine.is_awaiting_key());
    }
    machine.set_key(0xB, true);
    assert!(!machine.is_awaiting_key());
    assert_eq!(machine.register(5), Some(0xB));
    assert_eq!(machine.pc(), 0x202);
    assert_eq!(machine.step(), Ok(()));
    assert_eq!(machine.register(5), Some(0x99));
    assert_eq!(machine.pc(), 0x204);
}

#[test]
fn a_key_that_is_already_held_does_not_end_the_wait() {
    let mut machine = Chip8::new();
    machine.set_key(2, true);
    run(&mut machine, &[0xF10A]);
    assert!(machine.is_awaiting_key());
    machine.set_key(2, true);
    assert!(machine.is_awaiting_key());
    machine.set_key(4, false);
    assert!(machine.is_awaiting_key());
    machine.set_key(2, false);
    assert!(machine.is_awaiting_key());
    machine.set_key(2, true);
    assert!(!machine.is_awaiting_key());
    assert_eq!(machine.register(1), Some(2));
}

#[test]
fn only_the_first_key_is_taken() {
    let mut machine = Chip8::new();
    run(&mut machine, &[0xF30A]);
    machine.set_key(9, true);
    machine.set_key(1, true);
    assert_eq!(machine.register(3), Some(9));
    assert!(machine.is_key_down(9));
    assert!(machine.is_key_down(1));
}

#[test]
fn the_timers_run_while_the_machine_waits() {
    let mut machine = Chip8::new();
    run(&mut machine, &[0x6005, 0xF015, 0xF10A]);
    machine.load_rom(&[0x12, 0x00]).unwrap();
    assert_eq!(machine.step(), Ok(()));
    machine.decrement_timers();
    assert_eq!(machine.delay_timer(), 4);
    assert_eq!(machine.pc(), 0x200);
}

#[test]
fn a_waiting_machine_does_not_fault() {
    let mut machine = Chip8::new();
    run(&mut machine, &[0xF10A, 0x1FFF]);
    assert_eq!(machine.step(), Ok(()));
    assert_eq!(machine.pc(), 0xFFF);
    machine.set_key(0, true);
    assert_eq!(machine.step().map_err(|fault| fault.kind), Err(FaultKind::OutOfBounds));
}

#[test]
fn random_numbers_follow_the_seed() {
    let mut one = Chip8::new();
    let mut two = Chip8::new();
    one.seed_rng(12345);
    two.seed_rng(12345);
    let mut drawn = Vec::new();
    for _ in 0..50 {
        run(&mut one, &[0xC1FF]);
        run(&mut two, &[0xC1FF]);
        assert_eq!(one.register(1), two.register(1));
        drawn.push(one.register(1).unwrap());
    }
    assert!(drawn.iter().any(|byte| *byte != drawn[0]));
    one.seed_rng(12345);
    for byte in drawn {
        run(&mut one, &[0xC1FF]);
        assert_eq!(one.register(1), Some(byte));
    }
}

#[test]
fn the_first_random_numbers_of_a_new_machine() {
    // From state 0: 1013904223 = 0x3C6EF35F, whose top byte is 0x3C; then
    // 0x3C6EF35F * 1664525 + 1013904223 = 0x47502932 modulo 2^32.
    let mut machine = Chip8::new();
    run(&mut machine, &[0xC1FF]);
    assert_eq!(machine.register(1), Some(0x3C));
    run(&mut machine, &[0xC2FF]);
    assert_eq!(machine.register(2), Some(0x47));
    let mut masked = Chip8::new();
    run(&mut masked, &[0xC10F]);
    assert_eq!(masked.register(1), Some(0x0C));
    run(&mut masked, &[0xC2F0]);
    assert_eq!(masked.register(2), Some(0x40));
    run(&mut masked, &[0xC300]);
    assert_eq!(masked.register(3), Some(0));
}

#[test]
fn the_generator_is_a_linear_congruential_one() {
    assert_eq!(rng_step(0), 1013904223);
    assert_eq!(rng_step(1), 1015568748);
    assert_eq!(rng_step(0x3C6EF35F), 0x47502932);
    assert_eq!(rng_step(u32::MAX), 1013904223u32.wrapping_sub(1664525));
    assert_eq!(rng_output(0x3C6EF35F), 0x3C);
    assert_eq!(rng_output(0x00FFFFFF), 0);
    assert_eq!(rng_output(0xFF000000), 0xFF);
}
