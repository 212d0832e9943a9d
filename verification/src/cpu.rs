use vstd::prelude::*;

use crate::chip8::apply_next_pc;
use crate::chip8::Chip8;
use crate::display::Display;
use crate::error::Chip8Error;
use crate::instruction::decode;
use crate::instruction::spec_decode;
use crate::instruction::Instruction;
use crate::machine::apply_np;
use crate::machine::exec_instr;
use crate::machine::init_view;
use crate::machine::step_c;
use crate::machine::step_spec;
use crate::machine::MachineView;
use crate::machine::StepOutcome;

verus! {

/// The cycle engine wired to a drawing capability: the standalone core
/// plus a host renderer.  `00E0` clears through the renderer, and `Dxyn`
/// hands it the sprite bytes and records the collision flag it reports;
/// every other instruction runs exactly as in the standalone core.
pub struct Cpu<D: Display> {
    pub chip: Chip8,
    pub dsp: D,
}

impl<D: Display> Cpu<D> {
    /// A fresh machine wired to the given renderer.
    pub fn new(display: D) -> (c: Cpu<D>)
        ensures
            c.chip.wf(),
            c.chip@ == init_view(),
            c.dsp == display,
    {
        Cpu { chip: Chip8::new(), dsp: display }
    }

    /// One whole machine cycle against the renderer.  Returns `Ok(true)`
    /// after a step, `Ok(false)` on the `0x0000` stop opcode, and the fault
    /// of a failing cycle, which leaves the machine unchanged.  The step
    /// follows the machine model for whatever collision flag the renderer
    /// reported.
    pub fn cycle(&mut self) -> (r: Result<bool, Chip8Error>)
        requires
            old(self).chip.wf(),
        ensures
            final(self).chip.wf(),
            (match r {
                Ok(true) => exists|c: u8|
                    (c == 0 || c == 1) && #[trigger] step_c(old(self).chip@, c)
                        == StepOutcome::Step(final(self).chip@),
                Ok(false) => step_spec(old(self).chip@) is Halted
                    && final(self).chip@ == old(self).chip@,
                Err(e) => step_spec(old(self).chip@) == StepOutcome::Fault(e)
                    && final(self).chip@ == old(self).chip@,
            }),
    {
        let pc: u16 = self.chip.pc();
        let opcode = match self.chip.fetch(pc as usize) {
            Ok(w) => w,
            Err(e) => { return Err(e) },
        };
        if opcode == 0 {
            return Ok(false);
        }
        let ins = decode(opcode);
        match ins {
            Instruction::Cls => {
                self.dsp.cls();
            },
            Instruction::DrwVxVyNibble(x, y, n) => {
                let i: usize = self.chip.registers.i as usize;
                let sprite = match self.chip.memory.read(i, n as usize) {
                    Ok(s) => s,
                    Err(e) => { return Err(e) },
                };
                let vx: u8 = self.chip.registers.v[x as usize];
                let vy: u8 = self.chip.registers.v[y as usize];
                let c: u8 = self.dsp.draw(vx, vy, sprite.as_slice());
                let np = match self.chip.drw_with(x, y, n, c) {
                    Ok(np) => np,
                    Err(e) => { return Err(e) },
                };
                let next: u16 = apply_next_pc(pc, np);
                self.chip.set_pc(next);
                proof {
                    let o = exec_instr(old(self).chip@, Instruction::DrwVxVyNibble(x, y, n), c);
                    let (m2, np2) = o->Ok_0;
                    assert(self.chip@ =~= (MachineView {
                        pc: apply_np(old(self).chip@.pc, np2),
                        ..m2
                    }));
                    assert(step_c(old(self).chip@, c) == StepOutcome::Step(self.chip@));
                }
                return Ok(true);
            },
            _ => {},
        }
        let next = match self.chip.execute(opcode) {
            Ok(nx) => nx,
            Err(e) => { return Err(e) },
        };
        self.chip.set_pc(next);
        proof {
            let o = exec_instr(old(self).chip@, spec_decode(opcode), 0);
            let (m2, np2) = o->Ok_0;
            assert(self.chip@ =~= (MachineView { pc: apply_np(old(self).chip@.pc, np2), ..m2 }));
            assert(step_c(old(self).chip@, 0) == StepOutcome::Step(self.chip@));
        }
        Ok(true)
    }
}

} // verus!
