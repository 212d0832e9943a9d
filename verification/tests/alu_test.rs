use chip8::Chip8;

fn run_program(words: &[u16]) -> Chip8 {
    let mut chip = Chip8::new();
    chip.load_data(0, words).unwrap();
    chip.run().unwrap();
    chip
}

#[test]
fn add_with_carry() {
    // 8xy4 with Vx=0xFF, Vy=0x01 yields Vx=0x00, VF=1.
    let chip = run_program(&[0x60FF, 0x6101, 0x8014, 0x0000]);
    assert_eq!(chip.get_v(0x0).unwrap(), 0x00);
    assert_eq!(chip.get_v(0xF).unwrap(), 1);
}

#[test]
fn add_without_carry() {
    // 8xy4 with Vx=0x01, Vy=0x01 yields Vx=0x02, VF=0.
    let chip = run_program(&[0x6001, 0x6101, 0x8014, 0x0000]);
    assert_eq!(chip.get_v(0x0).unwrap(), 0x02);
    assert_eq!(chip.get_v(0xF).unwrap(), 0);
}

#[test]
fn sub_no_borrow() {
    // 8xy5 with Vx=0x05, Vy=0x03 yields Vx=0x02, VF=1.
    let chip = run_program(&[0x6005, 0x6103, 0x8015, 0x0000]);
    assert_eq!(chip.get_v(0x0).unwrap(), 0x02);
    assert_eq!(chip.get_v(0xF).unwrap(), 1);
}

#[test]
fn sub_with_borrow() {
    // 8xy5 with Vx=0x03, Vy=0x05 yields Vx=0xFE, VF=0.
    let chip = run_program(&[0x6003, 0x6105, 0x8015, 0x0000]);
    assert_eq!(chip.get_v(0x0).unwrap(), 0xFE);
    assert_eq!(chip.get_v(0xF).unwrap(), 0);
}

#[test]
fn subn_reverse_subtraction() {
    // 8xy7 with Vx=0x03, Vy=0x05 yields Vx=0x02, VF=1 (Vy >= Vx).
    let chip = run_program(&[0x6003, 0x6105, 0x8017, 0x0000]);
    assert_eq!(chip.get_v(0x0).unwrap(), 0x02);
    assert_eq!(chip.get_v(0xF).unwrap(), 1);
}

#[test]
fn bitwise_or_and_xor() {
    let chip = run_program(&[0x60F0, 0x610F, 0x8011, 0x0000]);
    assert_eq!(chip.get_v(0x0).unwrap(), 0xFF);
    let chip = run_program(&[0x60F3, 0x613F, 0x8012, 0x0000]);
    assert_eq!(chip.get_v(0x0).unwrap(), 0x33);
    let chip = run_program(&[0x60FF, 0x610F, 0x8013, 0x0000]);
    assert_eq!(chip.get_v(0x0).unwrap(), 0xF0);
}

#[test]
fn shift_right_sets_low_bit_flag() {
    let chip = run_program(&[0x6005, 0x8016, 0x0000]);
    assert_eq!(chip.get_v(0x0).unwrap(), 0x02);
    assert_eq!(chip.get_v(0xF).unwrap(), 1);
}

#[test]
fn shift_left_sets_high_bit_flag() {
    let chip = run_program(&[0x6081, 0x801E, 0x0000]);
    assert_eq!(chip.get_v(0x0).unwrap(), 0x02);
    assert_eq!(chip.get_v(0xF).unwrap(), 1);
}

#[test]
fn add_byte_wraps_without_flag() {
    // 7xkk wraps modulo 256 and must not touch VF.
    let chip = run_program(&[0x60FF, 0x7002, 0x0000]);
    assert_eq!(chip.get_v(0x0).unwrap(), 0x01);
    assert_eq!(chip.get_v(0xF).unwrap(), 0);
}

#[test]
fn flag_register_as_target_keeps_flag_write() {
    // The flag write is last: 8F14 with VF=0xFF, V1=0x01 leaves VF=1 (the
    // carry), not the wrapped sum.
    let chip = run_program(&[0x6FFF, 0x6101, 0x8F14, 0x0000]);
    assert_eq!(chip.get_v(0xF).unwrap(), 1);
}
