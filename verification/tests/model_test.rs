use chip8::Chip8Error;
use chip8::Memory;
use chip8::Registers;
use chip8::Stack;

#[test]
fn write_then_read_roundtrip() {
    let mut mem = Memory::new();
    let data: Vec<u8> = vec![0xDE, 0xAD, 0xBE, 0xEF];
    mem.store(0x200, &data[..]).unwrap();
    assert_eq!(mem.read(0x200, 4).unwrap(), data);
}

#[test]
fn read_out_of_range() {
    let mem = Memory::new();
    assert_eq!(mem.read(4095, 2), Err(Chip8Error::AddressRange));
    assert_eq!(mem.read(4096, 1), Err(Chip8Error::AddressRange));
    assert_eq!(mem.read(0, 4097), Err(Chip8Error::AddressRange));
    assert!(mem.read(4094, 2).is_ok());
}

#[test]
fn failing_store_leaves_memory_unchanged() {
    let mut mem = Memory::new();
    let marker: Vec<u8> = vec![7u8];
    mem.store(100, &marker[..]).unwrap();
    let before: Vec<u8> = mem.read(0, 4096).unwrap();
    let data: Vec<u8> = vec![1, 2, 3];
    assert_eq!(mem.store(4094, &data[..]), Err(Chip8Error::AddressRange));
    assert_eq!(mem.read(0, 4096).unwrap(), before);
}

#[test]
fn lifo_order() {
    let mut s = Stack::new();
    for k in 0..16u16 {
        s.push(0x200 + k).unwrap();
    }
    for k in (0..16u16).rev() {
        assert_eq!(s.pop().unwrap(), 0x200 + k);
    }
}

#[test]
fn seventeenth_push_fails() {
    let mut s = Stack::new();
    for k in 0..16u16 {
        s.push(k).unwrap();
    }
    assert_eq!(s.push(99), Err(Chip8Error::StackOverflow));
    // The failed push left the stack intact.
    assert_eq!(s.pop().unwrap(), 15);
}

#[test]
fn pop_on_empty_fails() {
    let mut s = Stack::new();
    assert_eq!(s.pop(), Err(Chip8Error::StackUnderflow));
}

#[test]
fn register_index_guard() {
    let mut regs = Registers::new();
    assert_eq!(regs.set_v(16, 1), Err(Chip8Error::RegisterIndex));
    assert_eq!(regs.get_v(16), Err(Chip8Error::RegisterIndex));
    regs.set_v(3, 0xAB).unwrap();
    assert_eq!(regs.get_v(3).unwrap(), 0xAB);
}
