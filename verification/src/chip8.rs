use vstd::prelude::*;

use crate::error::Chip8Error;
use crate::instruction::decode;
use crate::instruction::spec_decode;
use crate::instruction::Instruction;
use crate::machine::apply_np;
use crate::machine::exec_instr;
use crate::machine::first_key;
use crate::machine::first_key_from;
use crate::machine::handler_post;
use crate::machine::init_view;
use crate::machine::rng_next;
use crate::machine::step_spec;
use crate::machine::steps_to;
use crate::machine::lemma_steps_to_snoc;
use crate::machine::word_at;
use crate::machine::MachineView;
use crate::machine::NextPc;
use crate::machine::StepOutcome;
use crate::machine::DEFAULT_SEED;
use crate::memory::splice;
use crate::memory::Memory;
use crate::registers::Registers;
use crate::stack::Stack;

verus! {

/// Most instructions a single `run` executes before it gives up: real
/// CHIP-8 has no architectural halt, so besides the explicit `0x0000` stop
/// opcode this bound is the documented termination policy of `run`.
pub const MAX_STEPS: u64 = 1000000;

/// The byte sequence that a word sequence loads as: each 16-bit word
/// big-endian, high byte first.
pub open spec fn words_be(ws: Seq<u16>) -> Seq<u8> {
    Seq::new(
        2 * ws.len(),
        |j: int|
            if j % 2 == 0 {
                (ws[j / 2] >> 8) as u8
            } else {
                (ws[j / 2] & 0xFF) as u8
            },
    )
}

/// The whole machine: register file, memory, call stack, the two timers,
/// the key matrix and the deterministic random-byte generator, driven by a
/// fetch-decode-execute cycle.  Its view is the machine model
/// [`MachineView`], and every cycle is proved to follow the model's step
/// function.
pub struct Chip8 {
    pub registers: Registers,
    pub memory: Memory,
    pub stack: Stack,
    /// Delay timer: decremented at 60 Hz by an external driver; the core
    /// only reads and writes its current value.
    pub dt: u8,
    /// Sound timer, driven like the delay timer.
    pub st: u8,
    /// Key matrix: bit `k` is set while key `k` is held; an external driver
    /// keeps it current.
    pub keys: u16,
    /// State of the deterministic random-byte generator used by `Cxkk`.
    pub rng: u16,
}

impl View for Chip8 {
    type V = MachineView;

    open spec fn view(&self) -> MachineView {
        MachineView {
            v: self.registers.v@,
            i: self.registers.i,
            pc: self.registers.pc,
            stack: self.stack@,
            mem: self.memory@,
            dt: self.dt,
            st: self.st,
            keys: self.keys,
            rng: self.rng,
        }
    }
}

/// Applies a handler's program-counter directive, given the counter the
/// instruction was fetched from.
pub(crate) fn apply_next_pc(pc: u16, np: NextPc) -> (next: u16)
    requires
        pc + 4 <= 0xFFFF,
    ensures
        next == apply_np(pc, np),
{
    match np {
        NextPc::Next => pc + 2,
        NextPc::Skip => pc + 4,
        NextPc::Jump(addr) => addr,
    }
}

impl Chip8 {
    pub open spec fn wf(&self) -> bool {
        self.registers.wf() && self.memory.wf() && self.stack.wf()
    }

    /// A fresh machine: all registers, timers, memory bytes and keys zero,
    /// the stack empty, the random generator at its default seed.
    pub fn new() -> (c: Chip8)
        ensures
            c.wf(),
            c@ == init_view(),
    {
        let c = Chip8 {
            registers: Registers::new(),
            memory: Memory::new(),
            stack: Stack::new(),
            dt: 0,
            st: 0,
            keys: 0,
            rng: DEFAULT_SEED,
        };
        proof {
            assert(c@ =~= init_view());
        }
        c
    }

    /// Reads the big-endian 16-bit instruction word at `pc`, or fails with
    /// an address-range error when the two bytes reach past memory.
    pub(crate) fn fetch(&self, pc: usize) -> (r: Result<u16, Chip8Error>)
        requires
            self.wf(),
        ensures
            (match r {
                Ok(w) => pc + 2 <= 4096 && w == word_at(self@.mem, pc as int),
                Err(e) => pc + 2 > 4096 && e == Chip8Error::AddressRange,
            }),
    {
        let bytes = match self.memory.read(pc, 2) {
            Ok(b) => b,
            Err(e) => { return Err(e) },
        };
        let b0: u8 = bytes[0];
        let b1: u8 = bytes[1];
        let w: u16 = ((b0 as u16) << 8) | (b1 as u16);
        proof {
            assert((b0 as u16) << 8 | (b1 as u16) == (b0 as u16) * 256 + (b1 as u16))
                by (bit_vector);
        }
        Ok(w)
    }

    /// `00E0`: clear the display.  The standalone core owns no frame, so
    /// there is nothing to clear here; the display-connected engine clears
    /// through its drawing capability before dispatching.
    pub(crate) fn cls(&mut self) -> (r: Result<NextPc, Chip8Error>)
        requires
            old(self).wf(),
        ensures
            final(self).wf(),
            handler_post(old(self)@, final(self)@, Instruction::Cls, 0, r),
    {
        Ok(NextPc::Next)
    }

    /// `00EE`: return from a subroutine by popping the stored return
    /// address into the program counter.
    pub(crate) fn ret(&mut self) -> (r: Result<NextPc, Chip8Error>)
        requires
            old(self).wf(),
        ensures
            final(self).wf(),
            handler_post(old(self)@, final(self)@, Instruction::Ret, 0, r),
    {
        let addr = match self.stack.pop() {
            Ok(a) => a,
            Err(e) => { return Err(e) },
        };
        proof {
            assert(self@ =~= (MachineView { stack: old(self)@.stack.drop_last(), ..old(self)@ }));
        }
        Ok(NextPc::Jump(addr))
    }

    /// `1nnn`: jump to `nnn`.
    pub(crate) fn jp_addr(&mut self, addr: u16) -> (r: Result<NextPc, Chip8Error>)
        requires
            old(self).wf(),
        ensures
            final(self).wf(),
            handler_post(old(self)@, final(self)@, Instruction::JpAddr(addr), 0, r),
    {
        Ok(NextPc::Jump(addr))
    }

    /// `2nnn`: call the subroutine at `nnn`: push the address of the
    /// following instruction, then jump.
    pub(crate) fn call(&mut self, addr: u16) -> (r: Result<NextPc, Chip8Error>)
        requires
            old(self).wf(),
            old(self)@.pc + 2 <= 0xFFFF,
        ensures
            final(self).wf(),
            handler_post(old(self)@, final(self)@, Instruction::CallAddr(addr), 0, r),
    {
        let ret_addr: u16 = self.registers.pc + 2;
        match self.stack.push(ret_addr) {
            Ok(()) => {},
            Err(e) => { return Err(e) },
        }
        proof {
            assert(self@ =~= (MachineView {
                stack: old(self)@.stack.push((old(self)@.pc + 2) as u16),
                ..old(self)@
            }));
        }
        Ok(NextPc::Jump(addr))
    }

    /// `3xkk`: skip the next instruction if `Vx == kk`.
    pub(crate) fn se_vx_byte(&mut self, x: u8, byte: u8) -> (r: Result<NextPc, Chip8Error>)
        requires
            old(self).wf(),
            x < 16,
        ensures
            final(self).wf(),
            handler_post(old(self)@, final(self)@, Instruction::SeVxByte(x, byte), 0, r),
    {
        if self.registers.v[x as usize] == byte {
            Ok(NextPc::Skip)
        } else {
            Ok(NextPc::Next)
        }
    }

    /// `4xkk`: skip the next instruction if `Vx != kk`.
    pub(crate) fn sne_vx_byte(&mut self, x: u8, byte: u8) -> (r: Result<NextPc, Chip8Error>)
        requires
            old(self).wf(),
            x < 16,
        ensures
            final(self).wf(),
            handler_post(old(self)@, final(self)@, Instruction::SneVxByte(x, byte), 0, r),
    {
        if self.registers.v[x as usize] != byte {
            Ok(NextPc::Skip)
        } else {
            Ok(NextPc::Next)
        }
    }

    /// `5xy0`: skip the next instruction if `Vx == Vy`.
    pub(crate) fn se_vx_vy(&mut self, x: u8, y: u8) -> (r: Result<NextPc, Chip8Error>)
        requires
            old(self).wf(),
            x < 16,
            y < 16,
        ensures
            final(self).wf(),
            handler_post(old(self)@, final(self)@, Instruction::SeVxVy(x, y), 0, r),
    {
        if self.registers.v[x as usize] == self.registers.v[y as usize] {
            Ok(NextPc::Skip)
        } else {
            Ok(NextPc::Next)
        }
    }

    /// `6xkk`: set `Vx = kk`.
    pub(crate) fn ld_vx_byte(&mut self, x: u8, byte: u8) -> (r: Result<NextPc, Chip8Error>)
        requires
            old(self).wf(),
            x < 16,
        ensures
            final(self).wf(),
            handler_post(old(self)@, final(self)@, Instruction::LdVxByte(x, byte), 0, r),
    {
        self.registers.v.set(x as usize, byte);
        Ok(NextPc::Next)
    }

    /// `7xkk`: set `Vx = Vx + kk`, wrapping modulo 256, no flag.
    pub(crate) fn add_vx_byte(&mut self, x: u8, byte: u8) -> (r: Result<NextPc, Chip8Error>)
        requires
            old(self).wf(),
            x < 16,
        ensures
            final(self).wf(),
            handler_post(old(self)@, final(self)@, Instruction::AddVxByte(x, byte), 0, r),
    {
        let vx: u8 = self.registers.v[x as usize];
        let sum: u16 = vx as u16 + byte as u16;
        self.registers.v.set(x as usize, (sum % 256) as u8);
        Ok(NextPc::Next)
    }

    /// `8xy0`: set `Vx = Vy`.
    pub(crate) fn ld_vx_vy(&mut self, x: u8, y: u8) -> (r: Result<NextPc, Chip8Error>)
        requires
            old(self).wf(),
            x < 16,
            y < 16,
        ensures
            final(self).wf(),
            handler_post(old(self)@, final(self)@, Instruction::LdVxVy(x, y), 0, r),
    {
        let vy: u8 = self.registers.v[y as usize];
        self.registers.v.set(x as usize, vy);
        Ok(NextPc::Next)
    }

    /// `8xy1`: set `Vx = Vx | Vy`.
    pub(crate) fn or(&mut self, x: u8, y: u8) -> (r: Result<NextPc, Chip8Error>)
        requires
            old(self).wf(),
            x < 16,
            y < 16,
        ensures
            final(self).wf(),
            handler_post(old(self)@, final(self)@, Instruction::OrVxVy(x, y), 0, r),
    {
        let vx: u8 = self.registers.v[x as usize];
        let vy: u8 = self.registers.v[y as usize];
        self.registers.v.set(x as usize, vx | vy);
        Ok(NextPc::Next)
    }

    /// `8xy2`: set `Vx = Vx & Vy`.
    pub(crate) fn and(&mut self, x: u8, y: u8) -> (r: Result<NextPc, Chip8Error>)
        requires
            old(self).wf(),
            x < 16,
            y < 16,
        ensures
            final(self).wf(),
            handler_post(old(self)@, final(self)@, Instruction::AndVxVy(x, y), 0, r),
    {
        let vx: u8 = self.registers.v[x as usize];
        let vy: u8 = self.registers.v[y as usize];
        self.registers.v.set(x as usize, vx & vy);
        Ok(NextPc::Next)
    }

    /// `8xy3`: set `Vx = Vx ^ Vy`.
    pub(crate) fn xor(&mut self, x: u8, y: u8) -> (r: Result<NextPc, Chip8Error>)
        requires
            old(self).wf(),
            x < 16,
            y < 16,
        ensures
            final(self).wf(),
            handler_post(old(self)@, final(self)@, Instruction::XorVxVy(x, y), 0, r),
    {
        let vx: u8 = self.registers.v[x as usize];
        let vy: u8 = self.registers.v[y as usize];
        self.registers.v.set(x as usize, vx ^ vy);
        Ok(NextPc::Next)
    }

    /// `8xy4`: set `Vx = Vx + Vy` wrapping, `VF` = 1 on unsigned overflow
    /// else 0.  The flag is written last, so it wins when `x == 0xF`.
    pub(crate) fn add_vx_vy(&mut self, x: u8, y: u8) -> (r: Result<NextPc, Chip8Error>)
        requires
            old(self).wf(),
            x < 16,
            y < 16,
        ensures
            final(self).wf(),
            handler_post(old(self)@, final(self)@, Instruction::AddVxVy(x, y), 0, r),
    {
        let vx: u8 = self.registers.v[x as usize];
        let vy: u8 = self.registers.v[y as usize];
        let sum: u16 = vx as u16 + vy as u16;
        self.registers.v.set(x as usize, (sum % 256) as u8);
        let flag: u8 = if sum >= 256 { 1 } else { 0 };
        self.registers.v.set(15, flag);
        Ok(NextPc::Next)
    }

    /// `8xy5`: set `Vx = Vx - Vy` wrapping, `VF` = 1 when there is no
    /// borrow (`Vx >= Vy`) else 0.  The flag is written last.
    pub(crate) fn sub(&mut self, x: u8, y: u8) -> (r: Result<NextPc, Chip8Error>)
        requires
            old(self).wf(),
            x < 16,
            y < 16,
        ensures
            final(self).wf(),
            handler_post(old(self)@, final(self)@, Instruction::SubVxVy(x, y), 0, r),
    {
        let vx: u8 = self.registers.v[x as usize];
        let vy: u8 = self.registers.v[y as usize];
        let diff: u8 = if vx >= vy {
            vx - vy
        } else {
            ((vx as u16 + 256) - vy as u16) as u8
        };
        self.registers.v.set(x as usize, diff);
        let flag: u8 = if vx >= vy { 1 } else { 0 };
        self.registers.v.set(15, flag);
        Ok(NextPc::Next)
    }

    /// `8xy6`: set `Vx = Vx >> 1`, `VF` = low bit of the original `Vx`.
    /// The flag is written last.
    pub(crate) fn shr(&mut self, x: u8) -> (r: Result<NextPc, Chip8Error>)
        requires
            old(self).wf(),
            x < 16,
        ensures
            final(self).wf(),
            handler_post(old(self)@, final(self)@, Instruction::ShrVx(x), 0, r),
    {
        let vx: u8 = self.registers.v[x as usize];
        self.registers.v.set(x as usize, vx >> 1);
        self.registers.v.set(15, vx & 1);
        Ok(NextPc::Next)
    }

    /// `8xy7`: set `Vx = Vy - Vx` wrapping, `VF` = 1 when there is no
    /// borrow (`Vy >= Vx`) else 0.  The flag is written last.
    pub(crate) fn subn(&mut self, x: u8, y: u8) -> (r: Result<NextPc, Chip8Error>)
        requires
            old(self).wf(),
            x < 16,
            y < 16,
        ensures
            final(self).wf(),
            handler_post(old(self)@, final(self)@, Instruction::SubnVxVy(x, y), 0, r),
    {
        let vx: u8 = self.registers.v[x as usize];
        let vy: u8 = self.registers.v[y as usize];
        let diff: u8 = if vy >= vx {
            vy - vx
        } else {
            ((vy as u16 + 256) - vx as u16) as u8
        };
        self.registers.v.set(x as usize, diff);
        let flag: u8 = if vy >= vx { 1 } else { 0 };
        self.registers.v.set(15, flag);
        Ok(NextPc::Next)
    }

    /// `8xyE`: set `Vx = Vx << 1`, `VF` = high bit of the original `Vx`.
    /// The flag is written last.
    pub(crate) fn shl(&mut self, x: u8) -> (r: Result<NextPc, Chip8Error>)
        requires
            old(self).wf(),
            x < 16,
        ensures
            final(self).wf(),
            handler_post(old(self)@, final(self)@, Instruction::ShlVx(x), 0, r),
    {
        let vx: u8 = self.registers.v[x as usize];
        self.registers.v.set(x as usize, vx << 1);
        self.registers.v.set(15, vx >> 7);
        Ok(NextPc::Next)
    }

    /// `9xy0`: skip the next instruction if `Vx != Vy`.
    pub(crate) fn sne_vx_vy(&mut self, x: u8, y: u8) -> (r: Result<NextPc, Chip8Error>)
        requires
            old(self).wf(),
            x < 16,
            y < 16,
        ensures
            final(self).wf(),
            handler_post(old(self)@, final(self)@, Instruction::SneVxVy(x, y), 0, r),
    {
        if self.registers.v[x as usize] != self.registers.v[y as usize] {
            Ok(NextPc::Skip)
        } else {
            Ok(NextPc::Next)
        }
    }

    /// `Annn`: set `I = nnn`.
    pub(crate) fn ld_i_addr(&mut self, addr: u16) -> (r: Result<NextPc, Chip8Error>)
        requires
            old(self).wf(),
        ensures
            final(self).wf(),
            handler_post(old(self)@, final(self)@, Instruction::LdIAddr(addr), 0, r),
    {
        self.registers.i = addr;
        Ok(NextPc::Next)
    }

    /// `Bnnn`: jump to `nnn + V0`.
    pub(crate) fn jp_v0_addr(&mut self, addr: u16) -> (r: Result<NextPc, Chip8Error>)
        requires
            old(self).wf(),
            addr < 0x1000,
        ensures
            final(self).wf(),
            handler_post(old(self)@, final(self)@, Instruction::JpV0Addr(addr), 0, r),
    {
        let v0: u8 = self.registers.v[0];
        Ok(NextPc::Jump(addr + v0 as u16))
    }

    /// `Cxkk`: set `Vx` = next random byte AND `kk`.  The random byte comes
    /// from the machine's own seeded generator, keeping the engine
    /// deterministic and testable.
    pub(crate) fn rnd(&mut self, x: u8, byte: u8) -> (r: Result<NextPc, Chip8Error>)
        requires
            old(self).wf(),
            x < 16,
        ensures
            final(self).wf(),
            handler_post(old(self)@, final(self)@, Instruction::RndVxByte(x, byte), 0, r),
    {
        let prod: u32 = self.rng as u32 * 25173 + 13849;
        let s2: u16 = (prod % 0x10000) as u16;
        self.rng = s2;
        let b: u8 = (s2 >> 8) as u8;
        self.registers.v.set(x as usize, b & byte);
        proof {
            assert(s2 == rng_next(old(self)@.rng));
        }
        Ok(NextPc::Next)
    }

    /// `Dxyn` for a drawing capability that reported `collision`: check the
    /// sprite range `mem[I..I+n]`, then set `VF` to the collision flag.
    /// Faults with an address-range error, before anything is drawn, when
    /// the sprite reaches past memory.
    pub(crate) fn drw_with(&mut self, x: u8, y: u8, n: u8, collision: u8) -> (r: Result<
        NextPc,
        Chip8Error,
    >)
        requires
            old(self).wf(),
            x < 16,
            y < 16,
            n < 16,
        ensures
            final(self).wf(),
            handler_post(
                old(self)@,
                final(self)@,
                Instruction::DrwVxVyNibble(x, y, n),
                collision,
                r,
            ),
    {
        let i: usize = self.registers.i as usize;
        if i > 4096 || n as usize > 4096 - i {
            return Err(Chip8Error::AddressRange);
        }
        self.registers.v.set(15, collision);
        Ok(NextPc::Next)
    }

    /// `Dxyn` in the standalone core, which owns no frame: the sprite range
    /// is still bounds-checked, and `VF` is cleared because no pixel can
    /// collide.
    pub(crate) fn drw(&mut self, x: u8, y: u8, nibble: u8) -> (r: Result<NextPc, Chip8Error>)
        requires
            old(self).wf(),
            x < 16,
            y < 16,
            nibble < 16,
        ensures
            final(self).wf(),
            handler_post(old(self)@, final(self)@, Instruction::DrwVxVyNibble(x, y, nibble), 0, r),
    {
        self.drw_with(x, y, nibble, 0)
    }

    /// `Ex9E`: skip the next instruction if the key selected by the low
    /// nibble of `Vx` is held.
    pub(crate) fn skp(&mut self, x: u8) -> (r: Result<NextPc, Chip8Error>)
        requires
            old(self).wf(),
            x < 16,
        ensures
            final(self).wf(),
            handler_post(old(self)@, final(self)@, Instruction::SkpVx(x), 0, r),
    {
        let vx: u8 = self.registers.v[x as usize];
        let shift: u16 = (vx & 0xF) as u16;
        proof {
            assert((vx & 0xF) < 16) by (bit_vector);
        }
        if ((self.keys >> shift) & 1) == 1 {
            Ok(NextPc::Skip)
        } else {
            Ok(NextPc::Next)
        }
    }

    /// `ExA1`: skip the next instruction if the key selected by the low
    /// nibble of `Vx` is not held.
    pub(crate) fn skpn(&mut self, x: u8) -> (r: Result<NextPc, Chip8Error>)
        requires
            old(self).wf(),
            x < 16,
        ensures
            final(self).wf(),
            handler_post(old(self)@, final(self)@, Instruction::SkpnVx(x), 0, r),
    {
        let vx: u8 = self.registers.v[x as usize];
        let shift: u16 = (vx & 0xF) as u16;
        proof {
            assert((vx & 0xF) < 16) by (bit_vector);
        }
        if ((self.keys >> shift) & 1) == 1 {
            Ok(NextPc::Next)
        } else {
            Ok(NextPc::Skip)
        }
    }

    /// `Fx07`: set `Vx` = delay timer.
    pub(crate) fn ld_vx_dt(&mut self, x: u8) -> (r: Result<NextPc, Chip8Error>)
        requires
            old(self).wf(),
            x < 16,
        ensures
            final(self).wf(),
            handler_post(old(self)@, final(self)@, Instruction::LdVxDt(x), 0, r),
    {
        let dt: u8 = self.dt;
        self.registers.v.set(x as usize, dt);
        Ok(NextPc::Next)
    }

    /// `Fx0A`: block until a key press, then set `Vx` to the lowest held
    /// key.  Blocking is modeled as a busy wait: while no key is held the
    /// handler directs the program counter back to this instruction, so the
    /// cycle repeats until the host delivers a key.
    #[verifier::loop_isolation(false)]
    pub(crate) fn ld_vx_k(&mut self, x: u8) -> (r: Result<NextPc, Chip8Error>)
        requires
            old(self).wf(),
            x < 16,
        ensures
            final(self).wf(),
            handler_post(old(self)@, final(self)@, Instruction::LdVxK(x), 0, r),
    {
        let keys: u16 = self.keys;
        let mut k: u16 = 0;
        while k < 16
            invariant
                k <= 16,
                first_key(keys) == first_key_from(keys, k as int),
                *self == *old(self),
            decreases 16 - k,
        {
            if ((keys >> k) & 1) == 1 {
                self.registers.v.set(x as usize, k as u8);
                return Ok(NextPc::Next);
            }
            k = k + 1;
        }
        Ok(NextPc::Jump(self.registers.pc))
    }

    /// `Fx15`: set delay timer = `Vx`.
    pub(crate) fn ld_dt_vx(&mut self, x: u8) -> (r: Result<NextPc, Chip8Error>)
        requires
            old(self).wf(),
            x < 16,
        ensures
            final(self).wf(),
            handler_post(old(self)@, final(self)@, Instruction::LdDtVx(x), 0, r),
    {
        self.dt = self.registers.v[x as usize];
        Ok(NextPc::Next)
    }

    /// `Fx18`: set sound timer = `Vx`.
    pub(crate) fn ld_st_vx(&mut self, x: u8) -> (r: Result<NextPc, Chip8Error>)
        requires
            old(self).wf(),
            x < 16,
        ensures
            final(self).wf(),
            handler_post(old(self)@, final(self)@, Instruction::LdStVx(x), 0, r),
    {
        self.st = self.registers.v[x as usize];
        Ok(NextPc::Next)
    }

    /// `Fx1E`: set `I = I + Vx`, wrapping modulo 2^16.
    pub(crate) fn add_i_vx(&mut self, x: u8) -> (r: Result<NextPc, Chip8Error>)
        requires
            old(self).wf(),
            x < 16,
        ensures
            final(self).wf(),
            handler_post(old(self)@, final(self)@, Instruction::AddIVx(x), 0, r),
    {
        let vx: u8 = self.registers.v[x as usize];
        let sum: u32 = self.registers.i as u32 + vx as u32;
        self.registers.i = (sum % 0x10000) as u16;
        Ok(NextPc::Next)
    }

    /// `Fx29`: set `I` to the address of the 5-byte font sprite for the
    /// digit in the low nibble of `Vx`.  The font conventionally sits at
    /// the bottom of memory, one digit every 5 bytes; loading the sprite
    /// data itself is the host's business.
    pub(crate) fn ld_f_vx(&mut self, x: u8) -> (r: Result<NextPc, Chip8Error>)
        requires
            old(self).wf(),
            x < 16,
        ensures
            final(self).wf(),
            handler_post(old(self)@, final(self)@, Instruction::LdFVx(x), 0, r),
    {
        let vx: u8 = self.registers.v[x as usize];
        let d: u8 = vx & 0xF;
        proof {
            assert((vx & 0xF) < 16) by (bit_vector);
        }
        self.registers.i = (d as u16) * 5;
        Ok(NextPc::Next)
    }

    /// `Fx33`: store the three decimal digits of `Vx` at `mem[I..I+3]`,
    /// hundreds first.  Faults with an address-range error, leaving memory
    /// unchanged, when the three bytes reach past memory.
    pub(crate) fn ld_b_vx(&mut self, x: u8) -> (r: Result<NextPc, Chip8Error>)
        requires
            old(self).wf(),
            x < 16,
        ensures
            final(self).wf(),
            handler_post(old(self)@, final(self)@, Instruction::LdBVx(x), 0, r),
    {
        let i: usize = self.registers.i as usize;
        if i > 4093 {
            return Err(Chip8Error::AddressRange);
        }
        let vx: u8 = self.registers.v[x as usize];
        self.memory.0.set(i, vx / 100);
        self.memory.0.set(i + 1, (vx / 10) % 10);
        self.memory.0.set(i + 2, vx % 10);
        Ok(NextPc::Next)
    }

    /// `Fx55`: store `V0..Vx` into `mem[I..I+x+1]`.  Faults with an
    /// address-range error, leaving memory unchanged, when the range
    /// reaches past memory.
    #[verifier::loop_isolation(false)]
    pub(crate) fn ld_i_vx(&mut self, x: u8) -> (r: Result<NextPc, Chip8Error>)
        requires
            old(self).wf(),
            x < 16,
        ensures
            final(self).wf(),
            handler_post(old(self)@, final(self)@, Instruction::LdIVx(x), 0, r),
    {
        let i: usize = self.registers.i as usize;
        let count: usize = x as usize + 1;
        let mut data: Vec<u8> = Vec::new();
        let mut k: usize = 0;
        while k < count
            invariant
                k <= count,
                data@.len() == k,
                *self == *old(self),
                forall|j: int| 0 <= j < k ==> data@[j] == self@.v[j],
            decreases count - k,
        {
            data.push(self.registers.v[k]);
            k = k + 1;
        }
        proof {
            assert(data@ =~= self@.v.subrange(0, x as int + 1));
        }
        match self.memory.store(i, data.as_slice()) {
            Ok(()) => {
                proof {
                    assert(self@ =~= (MachineView {
                        mem: splice(
                            old(self)@.mem,
                            old(self)@.i as int,
                            old(self)@.v.subrange(0, x as int + 1),
                        ),
                        ..old(self)@
                    }));
                }
                Ok(NextPc::Next)
            },
            Err(e) => Err(e),
        }
    }

    /// `Fx65`: load `V0..Vx` from `mem[I..I+x+1]`.  Faults with an
    /// address-range error, leaving the registers unchanged, when the range
    /// reaches past memory.
    #[verifier::loop_isolation(false)]
    pub(crate) fn ld_vx_i(&mut self, x: u8) -> (r: Result<NextPc, Chip8Error>)
        requires
            old(self).wf(),
            x < 16,
        ensures
            final(self).wf(),
            handler_post(old(self)@, final(self)@, Instruction::LdVxI(x), 0, r),
    {
        let i: usize = self.registers.i as usize;
        let count: usize = x as usize + 1;
        let bytes = match self.memory.read(i, count) {
            Ok(b) => b,
            Err(e) => { return Err(e) },
        };
        let mut k: usize = 0;
        while k < count
            invariant
                k <= count,
                self.wf(),
                bytes@ == old(self)@.mem.subrange(i as int, i + count),
                self.registers.i == old(self).registers.i,
                self.registers.pc == old(self).registers.pc,
                self.memory@ == old(self).memory@,
                self.stack@ == old(self).stack@,
                self.dt == old(self).dt,
                self.st == old(self).st,
                self.keys == old(self).keys,
                self.rng == old(self).rng,
                forall|j: int| 0 <= j < k ==> self.registers.v@[j] == bytes@[j],
                forall|j: int| k <= j < 16 ==> self.registers.v@[j] == old(self)@.v[j],
            decreases count - k,
        {
            let b: u8 = bytes[k];
            self.registers.v.set(k, b);
            k = k + 1;
        }
        proof {
            let target = Seq::new(
                16,
                |j: int|
                    if j < x + 1 {
                        old(self)@.mem[old(self)@.i + j]
                    } else {
                        old(self)@.v[j]
                    },
            );
            assert forall|j: int| 0 <= j < 16 implies self@.v[j] == target[j] by {
                if j < x + 1 {
                    assert(self@.v[j] == bytes@[j]);
                    assert(bytes@[j] == old(self)@.mem.subrange(i as int, i + count)[j]);
                    assert(old(self)@.mem.subrange(i as int, i + count)[j]
                        == old(self)@.mem[i + j]);
                }
            }
            assert(self@.v =~= target);
            assert(self@ =~= (MachineView { v: target, ..old(self)@ }));
        }
        Ok(NextPc::Next)
    }

    /// Decodes `opcode` and executes it against the machine, returning the
    /// program counter the cycle continues at (the handler's directive
    /// applied to the counter the opcode was fetched from), or the fault
    /// that aborts the cycle, which leaves the machine unchanged.
    pub(crate) fn execute(&mut self, opcode: u16) -> (r: Result<u16, Chip8Error>)
        requires
            old(self).wf(),
            old(self)@.pc + 4 <= 0xFFFF,
        ensures
            final(self).wf(),
            (match exec_instr(old(self)@, spec_decode(opcode), 0) {
                Ok((m2, np)) => r matches Ok(next) && next == apply_np(old(self)@.pc, np)
                    && final(self)@ == m2,
                Err(e) => r == Err::<u16, Chip8Error>(e) && final(self)@ == old(self)@,
            }),
    {
        let pc: u16 = self.registers.pc;
        let ins = decode(opcode);
        let result: Result<NextPc, Chip8Error> = match ins {
            Instruction::Cls => self.cls(),
            Instruction::Ret => self.ret(),
            Instruction::JpAddr(nnn) => self.jp_addr(nnn),
            Instruction::CallAddr(nnn) => self.call(nnn),
            Instruction::SeVxByte(x, kk) => self.se_vx_byte(x, kk),
            Instruction::SneVxByte(x, kk) => self.sne_vx_byte(x, kk),
            Instruction::SeVxVy(x, y) => self.se_vx_vy(x, y),
            Instruction::LdVxByte(x, kk) => self.ld_vx_byte(x, kk),
            Instruction::AddVxByte(x, kk) => self.add_vx_byte(x, kk),
            Instruction::LdVxVy(x, y) => self.ld_vx_vy(x, y),
            Instruction::OrVxVy(x, y) => self.or(x, y),
            Instruction::AndVxVy(x, y) => self.and(x, y),
            Instruction::XorVxVy(x, y) => self.xor(x, y),
            Instruction::AddVxVy(x, y) => self.add_vx_vy(x, y),
            Instruction::SubVxVy(x, y) => self.sub(x, y),
            Instruction::ShrVx(x) => self.shr(x),
            Instruction::SubnVxVy(x, y) => self.subn(x, y),
            Instruction::ShlVx(x) => self.shl(x),
            Instruction::SneVxVy(x, y) => self.sne_vx_vy(x, y),
            Instruction::LdIAddr(nnn) => self.ld_i_addr(nnn),
            Instruction::JpV0Addr(nnn) => self.jp_v0_addr(nnn),
            Instruction::RndVxByte(x, kk) => self.rnd(x, kk),
            Instruction::DrwVxVyNibble(x, y, n) => self.drw(x, y, n),
            Instruction::SkpVx(x) => self.skp(x),
            Instruction::SkpnVx(x) => self.skpn(x),
            Instruction::LdVxDt(x) => self.ld_vx_dt(x),
            Instruction::LdVxK(x) => self.ld_vx_k(x),
            Instruction::LdDtVx(x) => self.ld_dt_vx(x),
            Instruction::LdStVx(x) => self.ld_st_vx(x),
            Instruction::AddIVx(x) => self.add_i_vx(x),
            Instruction::LdFVx(x) => self.ld_f_vx(x),
            Instruction::LdBVx(x) => self.ld_b_vx(x),
            Instruction::LdIVx(x) => self.ld_i_vx(x),
            Instruction::LdVxI(x) => self.ld_vx_i(x),
            Instruction::Unknown => Ok(NextPc::Next),
        };
        let np = match result {
            Ok(np) => np,
            Err(e) => { return Err(e) },
        };
        Ok(apply_next_pc(pc, np))
    }

    /// One whole machine cycle: fetch at `PC`, halt on the `0x0000` stop
    /// opcode, otherwise decode, execute and advance `PC` as the handler
    /// directed.  Returns `Ok(true)` after a step, `Ok(false)` on the stop
    /// opcode, and the fault of a failing cycle, which leaves the machine
    /// unchanged.
    pub fn step(&mut self) -> (r: Result<bool, Chip8Error>)
        requires
            old(self).wf(),
        ensures
            final(self).wf(),
            (match r {
                Ok(true) => step_spec(old(self)@) == StepOutcome::Step(final(self)@),
                Ok(false) => step_spec(old(self)@) is Halted && final(self)@ == old(self)@,
                Err(e) => step_spec(old(self)@) == StepOutcome::Fault(e)
                    && final(self)@ == old(self)@,
            }),
    {
        let pc: u16 = self.registers.pc;
        let opcode = match self.fetch(pc as usize) {
            Ok(w) => w,
            Err(e) => { return Err(e) },
        };
        if opcode == 0 {
            return Ok(false);
        }
        let next = match self.execute(opcode) {
            Ok(n) => n,
            Err(e) => { return Err(e) },
        };
        self.registers.pc = next;
        proof {
            let o = exec_instr(old(self)@, spec_decode(opcode), 0);
            let (m2, np) = o->Ok_0;
            assert(self@ =~= (MachineView { pc: apply_np(old(self)@.pc, np), ..m2 }));
        }
        Ok(true)
    }

    /// Runs fetch-decode-execute cycles until the `0x0000` stop opcode
    /// halts the machine, a fault aborts the run leaving the machine at the
    /// faulting state, or `MAX_STEPS` instructions have executed.
    #[verifier::loop_isolation(false)]
    pub fn run(&mut self) -> (r: Result<(), Chip8Error>)
        requires
            old(self).wf(),
        ensures
            final(self).wf(),
            (match r {
                Ok(()) => exists|n: nat|
                    #[trigger] steps_to(old(self)@, final(self)@, n) && n <= MAX_STEPS && (
                    step_spec(final(self)@) is Halted || n == MAX_STEPS),
                Err(e) => exists|n: nat|
                    #[trigger] steps_to(old(self)@, final(self)@, n) && n < MAX_STEPS
                        && step_spec(final(self)@) == StepOutcome::Fault(e),
            }),
    {
        let mut steps: u64 = 0;
        while steps < MAX_STEPS
            invariant
                self.wf(),
                steps <= MAX_STEPS,
                steps_to(old(self)@, self@, steps as nat),
            decreases MAX_STEPS - steps,
        {
            let ghost prev = self@;
            match self.step() {
                Ok(true) => {
                    proof {
                        lemma_steps_to_snoc(old(self)@, prev, self@, steps as nat);
                    }
                    steps = steps + 1;
                },
                Ok(false) => { return Ok(()) },
                Err(e) => { return Err(e) },
            }
        }
        Ok(())
    }

    /// Loads a program: writes the given 16-bit words big-endian into
    /// memory starting at byte address `addr` (the canonical CHIP-8 load
    /// address is `0x200`), or fails with an address-range error, leaving
    /// the machine unchanged, when the data would exceed the 4096-byte
    /// space.
    #[verifier::loop_isolation(false)]
    pub fn load_data(&mut self, addr: usize, data: &[u16]) -> (r: Result<(), Chip8Error>)
        requires
            old(self).wf(),
        ensures
            final(self).wf(),
            (match r {
                Ok(()) => addr + 2 * data@.len() <= 4096 && final(self)@ == (MachineView {
                    mem: splice(old(self)@.mem, addr as int, words_be(data@)),
                    ..old(self)@
                }),
                Err(e) => addr + 2 * data@.len() > 4096 && e == Chip8Error::AddressRange
                    && final(self)@ == old(self)@,
            }),
    {
        let n: usize = data.len();
        if addr > 4096 || n > 2048 || 2 * n > 4096 - addr {
            return Err(Chip8Error::AddressRange);
        }
        let mut bytes: Vec<u8> = Vec::new();
        let mut k: usize = 0;
        while k < n
            invariant
                k <= n,
                bytes@.len() == 2 * k,
                *self == *old(self),
                forall|j: int| 0 <= j < 2 * k ==> bytes@[j] == words_be(data@)[j],
            decreases n - k,
        {
            let w: u16 = data[k];
            bytes.push((w >> 8) as u8);
            bytes.push((w & 0xFF) as u8);
            k = k + 1;
        }
        proof {
            assert(bytes@ =~= words_be(data@));
        }
        match self.memory.store(addr, bytes.as_slice()) {
            Ok(()) => {
                proof {
                    assert(self@ =~= (MachineView {
                        mem: splice(old(self)@.mem, addr as int, words_be(data@)),
                        ..old(self)@
                    }));
                }
                Ok(())
            },
            Err(e) => Err(e),
        }
    }

    /// The value of `Vx`, or a register-index error for an index of 16 or
    /// more.
    pub fn get_v(&self, x: usize) -> (r: Result<u8, Chip8Error>)
        requires
            self.wf(),
        ensures
            (match r {
                Ok(value) => x < 16 && value == self@.v[x as int],
                Err(e) => x >= 16 && e == Chip8Error::RegisterIndex,
            }),
    {
        if x >= 16 {
            Err(Chip8Error::RegisterIndex)
        } else {
            Ok(self.registers.v[x])
        }
    }

    /// The current program counter.
    pub fn pc(&self) -> (r: u16)
        ensures
            r == self@.pc,
    {
        self.registers.pc
    }

    /// Replaces the program counter, e.g. to start a program loaded at the
    /// canonical `0x200`.
    pub fn set_pc(&mut self, pc: u16)
        requires
            old(self).wf(),
        ensures
            final(self).wf(),
            final(self)@ == (MachineView { pc, ..old(self)@ }),
    {
        self.registers.pc = pc;
    }

    /// Replaces the key matrix: bit `k` set means key `k` is held.  The
    /// host calls this as its input driver observes key changes.
    pub fn set_keys(&mut self, keys: u16)
        requires
            old(self).wf(),
        ensures
            final(self).wf(),
            final(self)@ == (MachineView { keys, ..old(self)@ }),
    {
        self.keys = keys;
    }

    /// Reseeds the random-byte generator used by `Cxkk`.
    pub fn set_seed(&mut self, seed: u16)
        requires
            old(self).wf(),
        ensures
            final(self).wf(),
            final(self)@ == (MachineView { rng: seed, ..old(self)@ }),
    {
        self.rng = seed;
    }

    /// The current delay timer value.
    pub fn delay_timer(&self) -> (r: u8)
        ensures
            r == self@.dt,
    {
        self.dt
    }

    /// Replaces the delay timer value.  The host's 60 Hz driver calls this
    /// to decrement the timer; the core never advances time itself.
    pub fn set_delay_timer(&mut self, value: u8)
        requires
            old(self).wf(),
        ensures
            final(self).wf(),
            final(self)@ == (MachineView { dt: value, ..old(self)@ }),
    {
        self.dt = value;
    }

    /// The current sound timer value.
    pub fn sound_timer(&self) -> (r: u8)
        ensures
            r == self@.st,
    {
        self.st
    }

    /// Replaces the sound timer value, driven like the delay timer.
    pub fn set_sound_timer(&mut self, value: u8)
        requires
            old(self).wf(),
        ensures
            final(self).wf(),
            final(self)@ == (MachineView { st: value, ..old(self)@ }),
    {
        self.st = value;
    }
}

} // verus!
