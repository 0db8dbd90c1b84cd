use vstd::prelude::*;
use crate::cartridge::Cartridge;
use crate::bus::{after_read_word, read_word_spec, RESET_VECTOR};
use crate::cpu::CPU;
use crate::cpu_bus::CpuBus;
use crate::debugging::{snapshot, Debugger, ExecutionState};
use crate::frame::Frame;
use crate::input::{ControllerPort, ControllerState};
use crate::memory::Ram;
use crate::ppu::PPU;

verus! {

/// Ticks after which `advance_to_next_frame` gives up: as many as a frame
/// has dots, while every instruction that does not jam lasts at least one cycle.
pub const FRAME_TICK_LIMIT: u64 = 89342;

/// The console: CPU, the bus it drives, and the picture.
pub struct NES {
    pub cpu: CPU,
    pub bus: CpuBus,
    pub frame: Frame,
}

/// Whether VBlank began between two states.
pub open spec fn vblank_rose(a: NES, b: NES) -> bool {
    !a.bus.ppu.vblank() && b.bus.ppu.vblank()
}

/// Whether `after` is `before` after one tick: one instruction (or one idle
/// cycle when jammed), three PPU dots per cycle, and the PPU's NMI edge
/// moved to the CPU's NMI line.
#[verifier::opaque]
pub open spec fn ticked(before: NES, after: NES) -> bool {
    let (c, b) = if before.cpu.jammed {
        (before.cpu, before.bus)
    } else {
        before.cpu.detached().step_spec(before.bus)
    };
    let cycles = if before.cpu.jammed {
        1u64
    } else {
        c.total_cycles.wrapping_sub(before.cpu.total_cycles)
    };
    let (p, cart, picture) = b.ppu.dots_spec(b.cartridge, before.frame@, cycles.wrapping_mul(3) as nat);
    &&& after.wf()
    &&& after.cpu == (CPU { debugger: after.cpu.debugger, nmi: p.nmi_interrupt, ..c })
    &&& before.cpu.jammed ==> after.cpu.debugger == before.cpu.debugger
    &&& !before.cpu.jammed ==> before.cpu.recorded(after.cpu, snapshot(before.cpu, before.bus))
    &&& after.bus.ppu == (PPU { nmi_interrupt: false, ..p })
    &&& after.bus.cartridge == cart
    &&& after.frame@ == picture
    &&& after.bus.ram == b.ram
    &&& after.bus.port_a == b.port_a
    &&& after.bus.port_b == b.port_b
}

/// Whether `h` is a run of ticks: each state is the tick of the one before,
/// none but the last is jammed, and VBlank begins at no step but the last.
pub open spec fn advanced(h: Seq<NES>) -> bool {
    &&& h.len() >= 1
    &&& forall|i: int| 0 <= i < h.len() - 1 ==> #[trigger] ticked(h[i], h[i + 1]) && !h[i].cpu.jammed
    &&& forall|i: int| 0 < i < h.len() - 1 ==> !#[trigger] vblank_rose(h[i - 1], h[i])
}

impl NES {
    pub open spec fn wf(&self) -> bool {
        self.frame.wf()
    }

    pub fn new() -> (r: NES)
        ensures
            r.wf(),
            r.cpu.pc == 0 && !r.cpu.jammed && r.cpu.debugger.is_none(),
            r.bus.cartridge matches Cartridge::Empty(_),
            r.bus.ppu.x == 0 && r.bus.ppu.y == 0,
    {
        NES {
            cpu: CPU::new(),
            bus: CpuBus {
                ram: Ram::<2048>::new(),
                ppu: PPU::new(),
                port_a: ControllerPort::default(),
                port_b: ControllerPort::default(),
                cartridge: Cartridge::default(),
            },
            frame: Frame::new(),
        }
    }

    /// Puts `cartridge` in the slot and resets the CPU through it.
    pub fn insert_cartridge(&mut self, cartridge: Cartridge)
        requires
            old(self).wf(),
        ensures
            final(self).wf(),
            final(self).frame == old(self).frame,
            final(self).bus == after_read_word(CpuBus { cartridge, ..old(self).bus }, RESET_VECTOR),
            final(self).cpu == (CPU {
                pc: read_word_spec(CpuBus { cartridge, ..old(self).bus }, RESET_VECTOR),
                s: 0xFD,
                irq_disable: true,
                jammed: false,
                ..old(self).cpu
            }).add_cycles(7),
    {
        self.bus.cartridge = cartridge;
        self.cpu.reset(&mut self.bus);
    }

    pub fn get_pc(&self) -> (r: u16)
        ensures
            r == self.cpu.pc,
    {
        self.cpu.pc
    }

    pub fn set_pc(&mut self, pc: u16)
        ensures
            final(self).cpu == (CPU { pc, ..old(self).cpu }),
            final(self).bus == old(self).bus,
            final(self).frame == old(self).frame,
    {
        self.cpu.pc = pc;
    }

    /// The CPU state before the next instruction, peeked without side effects.
    pub fn current_state(&self) -> (r: ExecutionState)
        ensures
            r == snapshot(self.cpu, self.bus),
    {
        self.cpu.current_state(&self.bus)
    }

    pub fn jammed(&self) -> (r: bool)
        ensures
            r == self.cpu.jammed,
    {
        self.cpu.jammed
    }

    /// Starts recording the state before each instruction.
    pub fn enable_debugger(&mut self)
        ensures
            final(self).cpu == (CPU { debugger: final(self).cpu.debugger, ..old(self).cpu }),
            final(self).cpu.debugger matches Some(d) && d.states@.len() == 0,
            final(self).bus == old(self).bus,
            final(self).frame == old(self).frame,
    {
        self.cpu.attach_debugger(Debugger::new());
    }

    /// The recorded states, oldest first; empty without a debugger.
    pub fn dump_backtrace(&self) -> (r: Vec<ExecutionState>)
        ensures
            match self.cpu.debugger {
                Some(d) => r@ == d.states@,
                None => r@.len() == 0,
            },
    {
        let mut r: Vec<ExecutionState> = Vec::new();
        match &self.cpu.debugger {
            Some(d) => {
                let mut i: usize = 0;
                while i < d.states.len()
                    invariant
                        0 <= i <= d.states@.len(),
                        r@ == d.states@.subrange(0, i as int),
                    decreases d.states@.len() - i,
                {
                    r.push(d.states[i]);
                    i = i + 1;
                    proof {
                        assert(r@ =~= d.states@.subrange(0, i as int));
                    }
                }
                proof {
                    assert(r@ =~= d.states@);
                }
            },
            None => {},
        }
        r
    }

    pub fn in_vblank(&self) -> (r: bool)
        ensures
            r == self.bus.ppu.vblank(),
    {
        self.bus.ppu.in_vblank()
    }

    pub fn borrow_frame(&self) -> (r: &Frame)
        ensures
            *r == self.frame,
    {
        &self.frame
    }

    /// One CPU instruction, then three PPU dots per cycle it took; an NMI
    /// edge raised by the PPU is latched for the next instruction.
    pub fn tick(&mut self)
        requires
            old(self).wf(),
        ensures
            ticked(*old(self), *final(self)),
            final(self).wf(),
    {
        reveal(ticked);
        let cpu_cycles = self.cpu.execute_instruction(&mut self.bus);
        let ppu_cycles = cpu_cycles.wrapping_mul(3);
        self.bus.ppu.tick(&mut self.bus.cartridge, &mut self.frame, ppu_cycles);
        self.cpu.nmi = self.bus.ppu.take_interrupt();
    }

    /// Ticks until VBlank begins or the CPU jams. Every tick that does not
    /// jam lasts at least one cycle, so a frame's worth of dots is reached
    /// within `FRAME_TICK_LIMIT` ticks; the loop stops there in any case.
    pub fn advance_to_next_frame(&mut self)
        requires
            old(self).wf(),
        ensures
            final(self).wf(),
            old(self).cpu.jammed ==> *final(self) == *old(self),
            exists|h: Seq<NES>|
                #[trigger] advanced(h) && h[0] == *old(self) && h.last() == *final(self) && (
                final(self).cpu.jammed || (h.len() >= 2 && vblank_rose(h[h.len() - 2], h.last()))
                    || h.len() == FRAME_TICK_LIMIT + 1),
    {
        let ghost start = *self;
        let ghost mut h: Seq<NES> = seq![*self];
        let mut last_in_vblank = self.in_vblank();
        let mut budget: u64 = FRAME_TICK_LIMIT;
        while !self.jammed() && budget > 0
            invariant
                self.wf(),
                advanced(h),
                h[0] == start,
                h.last().wf(),
                h.last() == *self,
                start == *old(self),
                last_in_vblank == self.bus.ppu.vblank(),
                h.len() - 1 + budget == FRAME_TICK_LIMIT,
                h.len() >= 2 ==> !vblank_rose(h[h.len() - 2], h.last()),
                start.cpu.jammed ==> h.len() == 1,
            decreases budget,
        {
            let ghost before = h;
            self.tick();
            budget = budget - 1;
            proof {
                h = before.push(*self);
                assert forall|i: int| 0 <= i < h.len() - 1 implies #[trigger] ticked(h[i], h[i + 1])
                    && !h[i].cpu.jammed by {
                    if i < before.len() - 1 {
                        assert(h[i] == before[i] && h[i + 1] == before[i + 1]);
                    }
                }
                assert forall|i: int| 0 < i < h.len() - 1 implies !#[trigger] vblank_rose(h[i - 1], h[i]) by {
                    assert(h[i - 1] == before[i - 1] && h[i] == before[i]);
                }
                assert(h.last() == *self);
                assert(h[0] == start);
            }
            let in_vblank = self.in_vblank();
            if !last_in_vblank && in_vblank {
                proof {
                    assert(vblank_rose(h[h.len() - 2], h.last()));
                    assert(advanced(h));
                }
                return;
            }
            last_in_vblank = in_vblank;
        }
        proof {
            assert(advanced(h));
        }
    }

    pub fn update_controller_port_a<S: ControllerState>(&mut self, state: &S)
        ensures
            final(self).bus.port_a.incoming_state matches Some((b, d)) && b@ == state.buffer_spec()
                && d == state.overrun_spec(),
            final(self).bus.port_a.index == old(self).bus.port_a.index,
            final(self).bus.port_a.read_buffer == old(self).bus.port_a.read_buffer,
            final(self).bus.port_a.overrun_default == old(self).bus.port_a.overrun_default,
            final(self).bus == (CpuBus { port_a: final(self).bus.port_a, ..old(self).bus }),
            final(self).cpu == old(self).cpu,
            final(self).frame == old(self).frame,
    {
        self.bus.port_a.update(state);
    }

    pub fn update_controller_port_b<S: ControllerState>(&mut self, state: &S)
        ensures
            final(self).bus.port_b.incoming_state matches Some((b, d)) && b@ == state.buffer_spec()
                && d == state.overrun_spec(),
            final(self).bus.port_b.index == old(self).bus.port_b.index,
            final(self).bus.port_b.read_buffer == old(self).bus.port_b.read_buffer,
            final(self).bus.port_b.overrun_default == old(self).bus.port_b.overrun_default,
            final(self).bus == (CpuBus { port_b: final(self).bus.port_b, ..old(self).bus }),
            final(self).cpu == old(self).cpu,
            final(self).frame == old(self).frame,
    {
        self.bus.port_b.update(state);
    }
}

} // verus!
