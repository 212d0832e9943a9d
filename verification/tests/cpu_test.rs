use chip8::Cpu;
use chip8::Display;

/// A 64x32 monochrome frame with XOR blitting and wraparound, the classic
/// CHIP-8 renderer behavior.
struct Frame {
    pixels: Vec<Vec<bool>>,
    cleared: u32,
}

impl Frame {
    fn new() -> Frame {
        Frame { pixels: vec![vec![false; 64]; 32], cleared: 0 }
    }

    fn lit(&self) -> usize {
        let mut count: usize = 0;
        for row in &self.pixels {
            for p in row {
                if *p {
                    count += 1;
                }
            }
        }
        count
    }
}

impl Display for Frame {
    fn cls(&mut self) {
        self.cleared += 1;
        for row in self.pixels.iter_mut() {
            for p in row.iter_mut() {
                *p = false;
            }
        }
    }

    fn draw(&mut self, x: u8, y: u8, sprite: &[u8]) -> u8 {
        let mut collision: u8 = 0;
        for dy in 0..sprite.len() {
            for dx in 0..8 {
                if (sprite[dy] >> (7 - dx)) & 1 == 1 {
                    let px: usize = (x as usize + dx) % 64;
                    let py: usize = (y as usize + dy) % 32;
                    if self.pixels[py][px] {
                        collision = 1;
                    }
                    self.pixels[py][px] ^= true;
                }
            }
        }
        collision
    }
}

#[test]
fn cycle_draws_sprite_and_reports_collision() {
    let mut cpu = Cpu::new(Frame::new());
    // Sprite byte 0xF0 sits at byte address 10; it is drawn twice at
    // (0, 0), so the second draw erases it and reports a collision.
    let prog: Vec<u16> = vec![0xA00A, 0xD001, 0xD001, 0x0000, 0x0000, 0xF000];
    cpu.chip.load_data(0, &prog[..]).unwrap();
    assert!(cpu.cycle().unwrap());
    assert!(cpu.cycle().unwrap());
    assert_eq!(cpu.chip.get_v(0xF).unwrap(), 0);
    assert_eq!(cpu.dsp.lit(), 4);
    assert!(cpu.cycle().unwrap());
    assert_eq!(cpu.chip.get_v(0xF).unwrap(), 1);
    assert_eq!(cpu.dsp.lit(), 0);
    // The stop opcode halts without touching the machine.
    assert!(!cpu.cycle().unwrap());
}

#[test]
fn cycle_clears_through_display() {
    let mut cpu = Cpu::new(Frame::new());
    let prog: Vec<u16> = vec![0x00E0, 0x0000];
    cpu.chip.load_data(0, &prog[..]).unwrap();
    assert!(cpu.cycle().unwrap());
    assert_eq!(cpu.dsp.cleared, 1);
    assert_eq!(cpu.chip.pc(), 2);
    assert!(!cpu.cycle().unwrap());
}

#[test]
fn cycle_runs_ordinary_instructions() {
    let mut cpu = Cpu::new(Frame::new());
    let prog: Vec<u16> = vec![0x6007, 0x6102, 0x8014, 0x0000];
    cpu.chip.load_data(0, &prog[..]).unwrap();
    while cpu.cycle().unwrap() {}
    assert_eq!(cpu.chip.get_v(0x0).unwrap(), 9);
}
