use vstd::prelude::*;

use crate::error::Chip8Error;
use crate::instruction::spec_decode;
use crate::instruction::Instruction;
use crate::memory::splice;

verus! {

/// Seed of the interpreter's deterministic random-byte generator at machine
/// initialization; `Cxkk` draws from this generator and hosts may reseed it.
pub const DEFAULT_SEED: u16 = 0x2A6D;

/// The directive an instruction handler returns to say where the program
/// counter goes next: two bytes ahead, four bytes ahead (a taken skip), or a
/// wholesale replacement (jump, call, return, key wait).  The cycle engine
/// applies the directive uniformly after the handler ran.
#[derive(Clone, Copy, Debug, PartialEq, Eq, Structural)]
pub enum NextPc {
    /// Advance to the following instruction (`PC + 2`).
    Next,
    /// Skip the following instruction (`PC + 4`).
    Skip,
    /// Replace the program counter with the given address.
    Jump(u16),
}

/// The mathematical model of the whole machine: the sixteen general-purpose
/// registers, the index register, the program counter, the live call-stack
/// contents (oldest entry first), the 4096 memory bytes, the two timers, the
/// key matrix (bit `k` set when key `k` is held) and the state of the
/// deterministic random-byte generator.
#[verifier::ext_equal]
pub struct MachineView {
    pub v: Seq<u8>,
    pub i: u16,
    pub pc: u16,
    pub stack: Seq<u16>,
    pub mem: Seq<u8>,
    pub dt: u8,
    pub st: u8,
    pub keys: u16,
    pub rng: u16,
}

impl MachineView {
    pub open spec fn wf(&self) -> bool {
        self.v.len() == 16 && self.stack.len() <= 16 && self.mem.len() == 4096
    }
}

/// The machine state right after initialization: all registers, timers,
/// memory bytes and keys zero, the stack empty, the generator at its seed.
pub open spec fn init_view() -> MachineView {
    MachineView {
        v: Seq::new(16, |j: int| 0u8),
        i: 0,
        pc: 0,
        stack: Seq::empty(),
        mem: Seq::new(4096, |j: int| 0u8),
        dt: 0,
        st: 0,
        keys: 0,
        rng: DEFAULT_SEED,
    }
}

/// The machine with register `Vx` replaced.
pub open spec fn with_v(m: MachineView, x: int, val: u8) -> MachineView {
    MachineView { v: m.v.update(x, val), ..m }
}

/// The machine with the flag register `VF` replaced.  Arithmetic and shift
/// instructions write `VF` last, so a flag write to `VF` overwrites the
/// arithmetic result when `x == 0xF`.
pub open spec fn with_vf(m: MachineView, flag: u8) -> MachineView {
    with_v(m, 15, flag)
}

/// The big-endian 16-bit word at byte offset `at` of `mem`.
pub open spec fn word_at(mem: Seq<u8>, at: int) -> u16
    recommends
        0 <= at,
        at + 2 <= mem.len(),
{
    (mem[at] * 256 + mem[at + 1]) as u16
}

/// One step of the deterministic random-byte generator: a 16-bit linear
/// congruential update.
pub open spec fn rng_next(s: u16) -> u16 {
    ((s * 25173 + 13849) % 0x10000) as u16
}

/// Whether the key selected by the low nibble of `vx` is held in `keys`.
pub open spec fn key_pressed(keys: u16, vx: u8) -> bool {
    (keys >> ((vx & 0xF) as u16)) & 1 == 1
}

/// The lowest held key in `keys` at position `k` or above; 16 when none of
/// the keys `k..16` is held.
pub open spec fn first_key_from(keys: u16, k: int) -> int
    recommends
        0 <= k <= 16,
    decreases 16 - k,
{
    if k < 0 || k >= 16 {
        16
    } else if (keys >> (k as u16)) & 1 == 1 {
        k
    } else {
        first_key_from(keys, k + 1)
    }
}

/// The lowest held key, or 16 when no key is held.
pub open spec fn first_key(keys: u16) -> int {
    first_key_from(keys, 0)
}

/// The program counter after applying a handler's directive, given the
/// counter the instruction was fetched from.
pub open spec fn apply_np(pc: u16, np: NextPc) -> u16 {
    match np {
        NextPc::Next => (pc + 2) as u16,
        NextPc::Skip => (pc + 4) as u16,
        NextPc::Jump(addr) => addr,
    }
}

/// What executing one decoded instruction does to the machine, before the
/// program-counter directive is applied: either the successor state paired
/// with the directive, or the fault that aborts the cycle (the faulting
/// machine is left unchanged).
///
/// `c` is the collision flag the drawing capability reported for `Dxyn`;
/// the standalone core, which owns no frame, passes 0.  Every other
/// instruction ignores it.
pub open spec fn exec_instr(m: MachineView, ins: Instruction, c: u8) -> Result<
    (MachineView, NextPc),
    Chip8Error,
>
    recommends
        m.wf(),
        crate::instruction::operands_wf(ins),
{
    match ins {
        Instruction::Cls => Ok((m, NextPc::Next)),
        Instruction::Ret => if m.stack.len() == 0 {
            Err(Chip8Error::StackUnderflow)
        } else {
            Ok(
                (
                    MachineView { stack: m.stack.drop_last(), ..m },
                    NextPc::Jump(m.stack.last()),
                ),
            )
        },
        Instruction::JpAddr(nnn) => Ok((m, NextPc::Jump(nnn))),
        Instruction::CallAddr(nnn) => if m.stack.len() >= 16 {
            Err(Chip8Error::StackOverflow)
        } else {
            Ok(
                (
                    MachineView { stack: m.stack.push((m.pc + 2) as u16), ..m },
                    NextPc::Jump(nnn),
                ),
            )
        },
        Instruction::SeVxByte(x, kk) => Ok(
            (m, if m.v[x as int] == kk { NextPc::Skip } else { NextPc::Next }),
        ),
        Instruction::SneVxByte(x, kk) => Ok(
            (m, if m.v[x as int] != kk { NextPc::Skip } else { NextPc::Next }),
        ),
        Instruction::SeVxVy(x, y) => Ok(
            (m, if m.v[x as int] == m.v[y as int] { NextPc::Skip } else { NextPc::Next }),
        ),
        Instruction::LdVxByte(x, kk) => Ok((with_v(m, x as int, kk), NextPc::Next)),
        Instruction::AddVxByte(x, kk) => Ok(
            (with_v(m, x as int, ((m.v[x as int] + kk) % 256) as u8), NextPc::Next),
        ),
        Instruction::LdVxVy(x, y) => Ok((with_v(m, x as int, m.v[y as int]), NextPc::Next)),
        Instruction::OrVxVy(x, y) => Ok(
            (with_v(m, x as int, m.v[x as int] | m.v[y as int]), NextPc::Next),
        ),
        Instruction::AndVxVy(x, y) => Ok(
            (with_v(m, x as int, m.v[x as int] & m.v[y as int]), NextPc::Next),
        ),
        Instruction::XorVxVy(x, y) => Ok(
            (with_v(m, x as int, m.v[x as int] ^ m.v[y as int]), NextPc::Next),
        ),
        Instruction::AddVxVy(x, y) => {
            let sum = m.v[x as int] + m.v[y as int];
            let flag: u8 = if sum >= 256 { 1 } else { 0 };
            Ok((with_vf(with_v(m, x as int, (sum % 256) as u8), flag), NextPc::Next))
        },
        Instruction::SubVxVy(x, y) => {
            let vx = m.v[x as int];
            let vy = m.v[y as int];
            let diff: u8 = if vx >= vy { (vx - vy) as u8 } else { (vx - vy + 256) as u8 };
            let flag: u8 = if vx >= vy { 1 } else { 0 };
            Ok((with_vf(with_v(m, x as int, diff), flag), NextPc::Next))
        },
        Instruction::ShrVx(x) => {
            let vx = m.v[x as int];
            Ok((with_vf(with_v(m, x as int, vx >> 1), vx & 1), NextPc::Next))
        },
        Instruction::SubnVxVy(x, y) => {
            let vx = m.v[x as int];
            let vy = m.v[y as int];
            let diff: u8 = if vy >= vx { (vy - vx) as u8 } else { (vy - vx + 256) as u8 };
            let flag: u8 = if vy >= vx { 1 } else { 0 };
            Ok((with_vf(with_v(m, x as int, diff), flag), NextPc::Next))
        },
        Instruction::ShlVx(x) => {
            let vx = m.v[x as int];
            Ok((with_vf(with_v(m, x as int, vx << 1), vx >> 7), NextPc::Next))
        },
        Instruction::SneVxVy(x, y) => Ok(
            (m, if m.v[x as int] != m.v[y as int] { NextPc::Skip } else { NextPc::Next }),
        ),
        Instruction::LdIAddr(nnn) => Ok((MachineView { i: nnn, ..m }, NextPc::Next)),
        Instruction::JpV0Addr(nnn) => Ok((m, NextPc::Jump((nnn + m.v[0]) as u16))),
        Instruction::RndVxByte(x, kk) => {
            let s2 = rng_next(m.rng);
            Ok(
                (
                    with_v(MachineView { rng: s2, ..m }, x as int, ((s2 >> 8) as u8) & kk),
                    NextPc::Next,
                ),
            )
        },
        Instruction::DrwVxVyNibble(x, y, n) => if m.i + n > 4096 {
            Err(Chip8Error::AddressRange)
        } else {
            Ok((with_vf(m, c), NextPc::Next))
        },
        Instruction::SkpVx(x) => Ok(
            (m, if key_pressed(m.keys, m.v[x as int]) { NextPc::Skip } else { NextPc::Next }),
        ),
        Instruction::SkpnVx(x) => Ok(
            (m, if !key_pressed(m.keys, m.v[x as int]) { NextPc::Skip } else { NextPc::Next }),
        ),
        Instruction::LdVxDt(x) => Ok((with_v(m, x as int, m.dt), NextPc::Next)),
        Instruction::LdVxK(x) => {
            let k = first_key(m.keys);
            if k == 16 {
                // No key is held: stay at this instruction until one is.
                Ok((m, NextPc::Jump(m.pc)))
            } else {
                Ok((with_v(m, x as int, k as u8), NextPc::Next))
            }
        },
        Instruction::LdDtVx(x) => Ok((MachineView { dt: m.v[x as int], ..m }, NextPc::Next)),
        Instruction::LdStVx(x) => Ok((MachineView { st: m.v[x as int], ..m }, NextPc::Next)),
        Instruction::AddIVx(x) => Ok(
            (MachineView { i: ((m.i + m.v[x as int]) % 0x10000) as u16, ..m }, NextPc::Next),
        ),
        Instruction::LdFVx(x) => Ok(
            (MachineView { i: ((m.v[x as int] & 0xF) * 5) as u16, ..m }, NextPc::Next),
        ),
        Instruction::LdBVx(x) => if m.i + 3 > 4096 {
            Err(Chip8Error::AddressRange)
        } else {
            let vx = m.v[x as int];
            Ok(
                (
                    MachineView {
                        mem: m.mem.update(m.i as int, vx / 100).update(
                            m.i + 1,
                            (vx / 10) % 10,
                        ).update(m.i + 2, vx % 10),
                        ..m
                    },
                    NextPc::Next,
                ),
            )
        },
        Instruction::LdIVx(x) => if m.i + x + 1 > 4096 {
            Err(Chip8Error::AddressRange)
        } else {
            Ok(
                (
                    MachineView {
                        mem: splice(m.mem, m.i as int, m.v.subrange(0, x + 1)),
                        ..m
                    },
                    NextPc::Next,
                ),
            )
        },
        Instruction::LdVxI(x) => if m.i + x + 1 > 4096 {
            Err(Chip8Error::AddressRange)
        } else {
            Ok(
                (
                    MachineView {
                        v: Seq::new(
                            16,
                            |j: int| if j < x + 1 { m.mem[m.i + j] } else { m.v[j] },
                        ),
                        ..m
                    },
                    NextPc::Next,
                ),
            )
        },
        Instruction::Unknown => Ok((m, NextPc::Next)),
    }
}

/// What one instruction handler owes: on success it returns exactly the
/// directive of the model and leaves the machine in the model's successor
/// state; on a fault it returns exactly the model's error and leaves the
/// machine unchanged.
pub open spec fn handler_post(
    pre: MachineView,
    post: MachineView,
    ins: Instruction,
    c: u8,
    r: Result<NextPc, Chip8Error>,
) -> bool {
    match exec_instr(pre, ins, c) {
        Ok((m2, np)) => r == Ok::<NextPc, Chip8Error>(np) && post == m2,
        Err(e) => r == Err::<NextPc, Chip8Error>(e) && post == pre,
    }
}

/// The outcome of one whole machine cycle.
pub enum StepOutcome {
    /// The cycle executed one instruction and reached this state.
    Step(MachineView),
    /// The fetched word was the `0x0000` stop opcode; the machine halts.
    Halted,
    /// The cycle aborted with this fault; the machine is left unchanged.
    Fault(Chip8Error),
}

/// One whole machine cycle — fetch, decode, execute, apply the directive —
/// with `c` the collision flag the drawing capability reported in case the
/// fetched instruction draws.
pub open spec fn step_c(m: MachineView, c: u8) -> StepOutcome {
    if m.pc + 2 > 4096 {
        StepOutcome::Fault(Chip8Error::AddressRange)
    } else {
        let op = word_at(m.mem, m.pc as int);
        if op == 0 {
            StepOutcome::Halted
        } else {
            match exec_instr(m, spec_decode(op), c) {
                Ok((m2, np)) => StepOutcome::Step(
                    MachineView { pc: apply_np(m.pc, np), ..m2 },
                ),
                Err(e) => StepOutcome::Fault(e),
            }
        }
    }
}

/// One whole cycle of the standalone core, which owns no frame and so never
/// observes a collision.
pub open spec fn step_spec(m: MachineView) -> StepOutcome {
    step_c(m, 0)
}

/// `b` is reached from `a` in exactly `n` cycles of the standalone core.
pub open spec fn steps_to(a: MachineView, b: MachineView, n: nat) -> bool
    decreases n,
{
    if n == 0 {
        a == b
    } else {
        step_spec(a) matches StepOutcome::Step(m2) && steps_to(m2, b, (n - 1) as nat)
    }
}

/// Skip semantics: when the fetched instruction is a `3xkk` skip-if-equal,
/// the cycle advances the program counter by 4 when `Vx` holds `kk` (the
/// following instruction is skipped) and by 2 otherwise, and changes
/// nothing else of the machine.
pub proof fn lemma_skip_behavior(m: MachineView, x: u8, kk: u8)
    requires
        m.wf(),
        x < 16,
        m.pc + 2 <= 4096,
        word_at(m.mem, m.pc as int) != 0,
        spec_decode(word_at(m.mem, m.pc as int)) == Instruction::SeVxByte(x, kk),
    ensures
        step_spec(m) matches StepOutcome::Step(m2)
            && m2.pc == (if m.v[x as int] == kk { m.pc + 4 } else { m.pc + 2 })
            && m2 == (MachineView { pc: m2.pc, ..m }),
{
}

/// A run of `n` cycles followed by one more cycle is a run of `n + 1`
/// cycles.
pub proof fn lemma_steps_to_snoc(a: MachineView, b: MachineView, m2: MachineView, n: nat)
    requires
        steps_to(a, b, n),
        step_spec(b) == StepOutcome::Step(m2),
    ensures
        steps_to(a, m2, n + 1),
    decreases n,
{
    if n == 0 {
        assert(steps_to(m2, m2, 0));
    } else {
        let mid = step_spec(a)->Step_0;
        assert(step_spec(a) matches StepOutcome::Step(x) && steps_to(x, b, (n - 1) as nat));
        lemma_steps_to_snoc(mid, b, m2, (n - 1) as nat);
    }
}

} // verus!
