use vstd::prelude::*;
use std::collections::VecDeque;
use crate::bus::Bus16;
use crate::cpu::CPU;
use crate::disassembly::Instruction;

verus! {

/// Number of snapshots a new debugger keeps.
pub const DEFAULT_BACKTRACE_LIMIT: usize = 20;

/// The CPU's registers and the instruction it is about to execute.
#[derive(Clone, Copy)]
pub struct ExecutionState {
    pub next_instruction: Instruction,
    pub a: u8,
    pub x: u8,
    pub y: u8,
    pub p: u8,
    pub s: u8,
    pub pc: u16,
    pub cycle_number: u64,
}

/// The snapshot of `cpu` whose instruction bytes are peeked from `bus`.
pub open spec fn snapshot<B: Bus16>(cpu: CPU, bus: B) -> ExecutionState {
    ExecutionState {
        next_instruction: Instruction {
            opcode: bus.peek_spec(cpu.pc),
            operand1: bus.peek_spec(cpu.pc.wrapping_add(1)),
            operand2: bus.peek_spec(cpu.pc.wrapping_add(2)),
        },
        a: cpu.a,
        x: cpu.x,
        y: cpu.y,
        p: cpu.status_byte(false),
        s: cpu.s,
        pc: cpu.pc,
        cycle_number: cpu.total_cycles,
    }
}

impl ExecutionState {
    /// Takes a snapshot without side effects on the bus.
    pub fn new<B: Bus16>(cpu: &CPU, bus: &B) -> (r: ExecutionState)
        ensures
            r == snapshot(*cpu, *bus),
    {
        let opcode = bus.peek_byte(cpu.pc);
        let operand1 = bus.peek_byte(cpu.pc.wrapping_add(1));
        let operand2 = bus.peek_byte(cpu.pc.wrapping_add(2));
        ExecutionState {
            next_instruction: Instruction::new(opcode, operand1, operand2),
            a: cpu.a,
            x: cpu.x,
            y: cpu.y,
            p: cpu.status_register(),
            s: cpu.s,
            pc: cpu.pc,
            cycle_number: cpu.total_cycles,
        }
    }
}

/// What a log of `states` holds after recording `state` with room for `limit`:
/// the oldest entries go first, and the new one is always kept.
pub open spec fn retained<T>(states: Seq<T>, limit: usize, state: T) -> Seq<T> {
    let keep: int = if limit == 0 { 0 } else { limit - 1 };
    let start: int = if states.len() > keep { states.len() - keep } else { 0 };
    states.subrange(start, states.len() as int).push(state)
}

/// A bounded log of the most recent execution states.
pub struct Debugger {
    pub states: VecDeque<ExecutionState>,
    pub backtrace_limit: usize,
}

impl Debugger {
    pub fn new() -> (r: Debugger)
        ensures
            r.states@.len() == 0,
            r.backtrace_limit == DEFAULT_BACKTRACE_LIMIT,
    {
        Debugger { states: VecDeque::new(), backtrace_limit: DEFAULT_BACKTRACE_LIMIT }
    }

    /// Appends `state`, evicting the oldest entries beyond the limit.
    pub fn record_state(&mut self, state: ExecutionState)
        ensures
            final(self).states@ == retained(old(self).states@, old(self).backtrace_limit, state),
            final(self).backtrace_limit == old(self).backtrace_limit,
    {
        let ghost before = self.states@;
        let ghost mut dropped: int = 0;
        while self.states.len() >= self.backtrace_limit && self.states.len() > 0
            invariant
                self.backtrace_limit == old(self).backtrace_limit,
                before == old(self).states@,
                0 <= dropped <= before.len(),
                self.states@ == before.subrange(dropped, before.len() as int),
                dropped > 0 ==> before.len() - dropped + 1 >= self.backtrace_limit,
            decreases self.states@.len(),
        {
            self.states.pop_front();
            proof {
                dropped = dropped + 1;
            }
        }
        self.states.push_back(state);
    }
}

impl PartialEq for ExecutionState {
    fn eq(&self, other: &ExecutionState) -> (r: bool) {
        self.next_instruction == other.next_instruction && self.a == other.a && self.x == other.x
            && self.y == other.y && self.p == other.p && self.s == other.s && self.pc == other.pc
            && self.cycle_number == other.cycle_number
    }
}

impl vstd::std_specs::cmp::PartialEqSpecImpl for ExecutionState {
    open spec fn obeys_eq_spec() -> bool {
        true
    }

    open spec fn eq_spec(&self, other: &ExecutionState) -> bool {
        &&& self.next_instruction.same_as(&other.next_instruction)
        &&& self.a == other.a && self.x == other.x && self.y == other.y && self.p == other.p
        &&& self.s == other.s && self.pc == other.pc && self.cycle_number == other.cycle_number
    }
}

} // verus!
