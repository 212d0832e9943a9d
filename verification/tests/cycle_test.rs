use chip8::Chip8;
use chip8::Chip8Error;

#[test]
fn skip_equal_advances_by_four() {
    let mut chip = Chip8::new();
    // 3xkk with a matching byte: V0 starts at 0, so 3000 matches.
    chip.load_data(0, &[0x3000]).unwrap();
    assert!(chip.step().unwrap());
    assert_eq!(chip.pc(), 4);
}

#[test]
fn skip_nonmatching_advances_by_two() {
    let mut chip = Chip8::new();
    chip.load_data(0, &[0x3001]).unwrap();
    assert!(chip.step().unwrap());
    assert_eq!(chip.pc(), 2);
}

#[test]
fn skip_equal_skips_following_instruction() {
    let mut chip = Chip8::new();
    chip.load_data(0, &[0x6005, 0x3005, 0x6199, 0x0000]).unwrap();
    chip.run().unwrap();
    assert_eq!(chip.get_v(0x1).unwrap(), 0);
}

#[test]
fn skip_nonmatching_executes_following_instruction() {
    let mut chip = Chip8::new();
    chip.load_data(0, &[0x6005, 0x3006, 0x6199, 0x0000]).unwrap();
    chip.run().unwrap();
    assert_eq!(chip.get_v(0x1).unwrap(), 0x99);
}

#[test]
fn unknown_opcode_is_noop_that_advances() {
    let mut chip = Chip8::new();
    // 5xy1 is outside the table; the cycle must carry on past it.
    chip.load_data(0, &[0x5121, 0x6142, 0x0000]).unwrap();
    chip.run().unwrap();
    assert_eq!(chip.get_v(0x1).unwrap(), 0x42);
}

#[test]
fn jump_and_jump_v0() {
    let mut chip = Chip8::new();
    // B006 jumps to 6 + V0 = 10, where V1 is loaded.
    chip.load_data(0, &[0x6004, 0xB006, 0x0000, 0x0000, 0x0000, 0x6107, 0x0000]).unwrap();
    chip.run().unwrap();
    assert_eq!(chip.get_v(0x1).unwrap(), 0x07);
}

#[test]
fn timer_roundtrip_through_registers() {
    let mut chip = Chip8::new();
    chip.load_data(0, &[0x6042, 0xF015, 0xF207, 0x0000]).unwrap();
    chip.run().unwrap();
    assert_eq!(chip.delay_timer(), 0x42);
    assert_eq!(chip.get_v(0x2).unwrap(), 0x42);
}

#[test]
fn sound_timer_set_from_register() {
    let mut chip = Chip8::new();
    chip.load_data(0, &[0x6007, 0xF018, 0x0000]).unwrap();
    chip.run().unwrap();
    assert_eq!(chip.sound_timer(), 7);
}

#[test]
fn wait_for_key_stores_lowest_held_key() {
    let mut chip = Chip8::new();
    chip.set_keys((1 << 5) | (1 << 9));
    chip.load_data(0, &[0xF00A, 0x0000]).unwrap();
    chip.run().unwrap();
    assert_eq!(chip.get_v(0x0).unwrap(), 5);
}

#[test]
fn wait_for_key_spins_until_key_arrives() {
    let mut chip = Chip8::new();
    chip.load_data(0, &[0xF00A, 0x0000]).unwrap();
    // With no key held the instruction must not advance the counter.
    assert!(chip.step().unwrap());
    assert_eq!(chip.pc(), 0);
    chip.set_keys(1 << 3);
    assert!(chip.step().unwrap());
    assert_eq!(chip.pc(), 2);
    assert_eq!(chip.get_v(0x0).unwrap(), 3);
}

#[test]
fn skip_if_key_pressed() {
    let mut chip = Chip8::new();
    chip.set_keys(1 << 5);
    chip.load_data(0, &[0x6105, 0xE19E, 0x6242, 0x0000]).unwrap();
    chip.run().unwrap();
    assert_eq!(chip.get_v(0x2).unwrap(), 0);
}

#[test]
fn no_skip_if_key_not_pressed() {
    let mut chip = Chip8::new();
    chip.load_data(0, &[0x6105, 0xE19E, 0x6242, 0x0000]).unwrap();
    chip.run().unwrap();
    assert_eq!(chip.get_v(0x2).unwrap(), 0x42);
}

#[test]
fn skip_if_key_not_pressed_variant() {
    let mut chip = Chip8::new();
    chip.load_data(0, &[0x6105, 0xE1A1, 0x6242, 0x0000]).unwrap();
    chip.run().unwrap();
    assert_eq!(chip.get_v(0x2).unwrap(), 0);
}

#[test]
fn random_byte_is_deterministic_from_seed() {
    let mut chip = Chip8::new();
    chip.set_seed(0);
    chip.load_data(0, &[0xC0FF, 0x0000]).unwrap();
    chip.run().unwrap();
    // One generator step from seed 0 gives 13849 = 0x3619; Cxkk takes the
    // high byte masked with kk.
    assert_eq!(chip.get_v(0x0).unwrap(), 0x36);
}

#[test]
fn random_byte_is_masked() {
    let mut chip = Chip8::new();
    chip.set_seed(0);
    chip.load_data(0, &[0xC00F, 0x0000]).unwrap();
    chip.run().unwrap();
    assert_eq!(chip.get_v(0x0).unwrap(), 0x06);
}

#[test]
fn bcd_digits_stored() {
    let mut chip = Chip8::new();
    // V0 = 0x7B = 123; the three decimal digits land at mem[I..I+3].
    chip.load_data(0, &[0x607B, 0xA200, 0xF033, 0x0000]).unwrap();
    chip.run().unwrap();
    assert_eq!(chip.memory.read(0x200, 3).unwrap(), vec![1, 2, 3]);
}

#[test]
fn store_and_load_registers() {
    let mut chip = Chip8::new();
    chip.load_data(
        0,
        &[0x600A, 0x6114, 0xA300, 0xF155, 0x6000, 0x6100, 0xF165, 0x0000],
    )
    .unwrap();
    chip.run().unwrap();
    assert_eq!(chip.get_v(0x0).unwrap(), 10);
    assert_eq!(chip.get_v(0x1).unwrap(), 20);
    assert_eq!(chip.memory.read(0x300, 2).unwrap(), vec![10, 20]);
}

#[test]
fn font_sprite_address() {
    let mut chip = Chip8::new();
    chip.load_data(0, &[0x6007, 0xF029, 0x0000]).unwrap();
    chip.run().unwrap();
    assert_eq!(chip.registers.i, 35);
}

#[test]
fn add_register_to_index() {
    let mut chip = Chip8::new();
    chip.load_data(0, &[0x6005, 0xA123, 0xF01E, 0x0000]).unwrap();
    chip.run().unwrap();
    assert_eq!(chip.registers.i, 0x128);
}

#[test]
fn fetch_out_of_range_faults() {
    let mut chip = Chip8::new();
    chip.load_data(0, &[0x1FFF]).unwrap();
    assert_eq!(chip.run(), Err(Chip8Error::AddressRange));
    assert_eq!(chip.pc(), 0xFFF);
}

#[test]
fn call_overflow_faults() {
    let mut chip = Chip8::new();
    // A subroutine that calls itself: the seventeenth nested call fails.
    chip.load_data(0, &[0x2000]).unwrap();
    assert_eq!(chip.run(), Err(Chip8Error::StackOverflow));
}

#[test]
fn ret_underflow_faults() {
    let mut chip = Chip8::new();
    chip.load_data(0, &[0x00EE]).unwrap();
    assert_eq!(chip.run(), Err(Chip8Error::StackUnderflow));
}

#[test]
fn draw_out_of_range_faults() {
    let mut chip = Chip8::new();
    // I = 0xFFF, then a 5-byte sprite read reaches past memory.
    chip.load_data(0, &[0xAFFF, 0xD005, 0x0000]).unwrap();
    assert_eq!(chip.run(), Err(Chip8Error::AddressRange));
}

#[test]
fn load_data_out_of_range_fails() {
    let mut chip = Chip8::new();
    assert_eq!(chip.load_data(4094, &[0x1234, 0x5678]), Err(Chip8Error::AddressRange));
    assert_eq!(chip.load_data(4094, &[0x1234]), Ok(()));
    assert_eq!(chip.memory.read(4094, 2).unwrap(), vec![0x12, 0x34]);
}
