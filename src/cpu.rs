use vstd::prelude::*;
use crate::bus::{after_read_word, make_word, read_word_spec, word, Bus16, RESET_VECTOR};
use crate::disassembly::{AddressingMode, Mnemonic};
use crate::debugging::{retained, snapshot, Debugger, ExecutionState};
use crate::opcodes::{decode_opcode, opcode_table, Opcode};

verus! {

/// Address of the little-endian IRQ/BRK vector.
pub const IRQ_VECTOR: u16 = 0xFFFE;

/// Address of the little-endian NMI vector.
pub const NMI_VECTOR: u16 = 0xFFFA;

/// Bottom of page one, where the stack lives.
pub const STACK_BASE: u16 = 0x0100;

/// A MOS 6502 CPU.
pub struct CPU {
    pub a: u8,
    pub x: u8,
    pub y: u8,
    pub pc: u16,
    pub s: u8,
    pub carry: bool,
    pub zero: bool,
    pub irq_disable: bool,
    pub decimal_mode: bool,
    pub overflow: bool,
    pub negative: bool,
    /// Level of the NMI line; an interrupt is taken on its rising edge.
    pub nmi: bool,
    /// Level of the NMI line when the previous instruction was fetched.
    pub last_nmi: bool,
    /// Level of the IRQ line; an interrupt is taken while it is high and I is clear.
    pub irq: bool,
    pub total_cycles: u64,
    /// Set by a JAM opcode; a jammed CPU does nothing more.
    pub jammed: bool,
    /// Where snapshots of the state before each instruction go, if attached.
    pub debugger: Option<Debugger>,
}

/// Address of the stack slot that stack pointer `s` designates.
pub open spec fn stack_address(s: u8) -> u16 {
    (STACK_BASE as int + s as int) as u16
}

/// Whether two addresses lie on different pages.
pub open spec fn crosses_page(a: u16, b: u16) -> bool {
    a & 0xFF00 != b & 0xFF00
}

/// The address of the byte after `address` within the same page.
pub open spec fn next_in_page(address: u16) -> u16 {
    address & 0xFF00 | address.wrapping_add(1) & 0x00FF
}

/// A word read low byte first, whose high byte comes from the same page.
pub open spec fn read_word_in_page<B: Bus16>(bus: B, address: u16) -> u16 {
    word(bus.read_spec(address), bus.after_read(address).read_spec(next_in_page(address)))
}

pub open spec fn after_read_word_in_page<B: Bus16>(bus: B, address: u16) -> B {
    bus.after_read(address).after_read(next_in_page(address))
}

/// The target of a relative branch: `pc` plus the offset read as a signed byte.
pub open spec fn branch_target(pc: u16, offset: u8) -> u16 {
    if offset < 0x80 {
        pc.wrapping_add(offset as u16)
    } else {
        pc.wrapping_sub((256 - offset as int) as u16)
    }
}

pub fn crosses_page_boundary(a: u16, b: u16) -> (r: bool)
    ensures
        r == crosses_page(a, b),
{
    a & 0xFF00 != b & 0xFF00
}

fn read_word_with_page_wrapping<B: Bus16>(bus: &mut B, address: u16) -> (r: u16)
    ensures
        r == read_word_in_page(*old(bus), address),
        *final(bus) == after_read_word_in_page(*old(bus), address),
{
    let low = bus.read_byte(address);
    let high = bus.read_byte(address & 0xFF00 | address.wrapping_add(1) & 0x00FF);
    make_word(low, high)
}

/// The operation that the undocumented read-modify-write opcodes apply to the
/// modified byte after writing it back.
pub open spec fn secondary_operation(op: Mnemonic) -> Option<Mnemonic> {
    match op {
        Mnemonic::SLO => Some(Mnemonic::ORA),
        Mnemonic::RLA => Some(Mnemonic::AND),
        Mnemonic::SRE => Some(Mnemonic::EOR),
        Mnemonic::RRA => Some(Mnemonic::ADC),
        Mnemonic::DCP => Some(Mnemonic::CMP),
        Mnemonic::ISC => Some(Mnemonic::SBC),
        _ => None,
    }
}

fn secondary(op: Mnemonic) -> (r: Option<Mnemonic>)
    ensures
        r == secondary_operation(op),
{
    match op {
        Mnemonic::SLO => Some(Mnemonic::ORA),
        Mnemonic::RLA => Some(Mnemonic::AND),
        Mnemonic::SRE => Some(Mnemonic::EOR),
        Mnemonic::RRA => Some(Mnemonic::ADC),
        Mnemonic::DCP => Some(Mnemonic::CMP),
        Mnemonic::ISC => Some(Mnemonic::SBC),
        _ => None,
    }
}

impl CPU {
    /// N and Z set from `v`.
    pub open spec fn nz(self, v: u8) -> CPU {
        CPU { zero: v == 0, negative: v >= 0x80, ..self }
    }

    /// The status byte, with bit 5 set and bit 4 holding `brk`.
    pub open spec fn status_byte(self, brk: bool) -> u8 {
        ((if self.negative { 0x80int } else { 0 }) + (if self.overflow { 0x40int } else { 0 })
            + 0x20 + (if brk { 0x10int } else { 0 }) + (if self.decimal_mode { 0x08int } else { 0 })
            + (if self.irq_disable { 0x04int } else { 0 }) + (if self.zero { 0x02int } else { 0 })
            + (if self.carry { 0x01int } else { 0 })) as u8
    }

    /// The flags taken from a status byte; bits 4 and 5 are ignored.
    pub open spec fn with_status(self, p: u8) -> CPU {
        CPU {
            negative: p & 0x80 != 0,
            overflow: p & 0x40 != 0,
            decimal_mode: p & 0x08 != 0,
            irq_disable: p & 0x04 != 0,
            zero: p & 0x02 != 0,
            carry: p & 0x01 != 0,
            ..self
        }
    }

    pub open spec fn add_cycles(self, n: u64) -> CPU {
        CPU { total_cycles: self.total_cycles.wrapping_add(n), ..self }
    }

    pub open spec fn push_spec<B: Bus16>(self, bus: B, v: u8) -> (CPU, B) {
        (CPU { s: self.s.wrapping_sub(1), ..self }, bus.after_write(stack_address(self.s), v))
    }

    /// The CPU, the bus and the byte after one pull.
    pub open spec fn pull_spec<B: Bus16>(self, bus: B) -> (CPU, B, u8) {
        let s = self.s.wrapping_add(1);
        (CPU { s, ..self }, bus.after_read(stack_address(s)), bus.read_spec(stack_address(s)))
    }

    /// High byte first, so that the low byte ends on top.
    pub open spec fn push_word_spec<B: Bus16>(self, bus: B, v: u16) -> (CPU, B) {
        let (c1, b1) = self.push_spec(bus, (v / 256) as u8);
        c1.push_spec(b1, (v % 256) as u8)
    }

    pub open spec fn pull_word_spec<B: Bus16>(self, bus: B) -> (CPU, B, u16) {
        let (c1, b1, low) = self.pull_spec(bus);
        let (c2, b2, high) = c1.pull_spec(b1);
        (c2, b2, word(low, high))
    }

    /// The CPU (cycle counter), the bus and the effective address after
    /// resolving the operand of the instruction at PC in `mode`.
    pub open spec fn resolve_spec<B: Bus16>(self, bus: B, mode: AddressingMode, charge: bool) -> (
        CPU,
        B,
        u16,
    ) {
        let pc1 = self.pc.wrapping_add(1);
        match mode {
            AddressingMode::Immediate => (self, bus, pc1),
            AddressingMode::ZeroPage => (self, bus.after_read(pc1), bus.read_spec(pc1) as u16),
            AddressingMode::ZeroPageX => (
                self,
                bus.after_read(pc1),
                bus.read_spec(pc1).wrapping_add(self.x) as u16,
            ),
            AddressingMode::ZeroPageY => (
                self,
                bus.after_read(pc1),
                bus.read_spec(pc1).wrapping_add(self.y) as u16,
            ),
            AddressingMode::Absolute => (self, after_read_word(bus, pc1), read_word_spec(bus, pc1)),
            AddressingMode::AbsoluteX | AddressingMode::AbsoluteY => {
                let base = read_word_spec(bus, pc1);
                let index = if mode == AddressingMode::AbsoluteX { self.x } else { self.y };
                let ea = base.wrapping_add(index as u16);
                let c = if charge && crosses_page(base, ea) { self.add_cycles(1) } else { self };
                (c, after_read_word(bus, pc1), ea)
            },
            AddressingMode::IndirectX => {
                let pointer = bus.read_spec(pc1).wrapping_add(self.x) as u16;
                let b1 = bus.after_read(pc1);
                (self, after_read_word_in_page(b1, pointer), read_word_in_page(b1, pointer))
            },
            AddressingMode::IndirectY => {
                let pointer = bus.read_spec(pc1) as u16;
                let b1 = bus.after_read(pc1);
                let base = read_word_in_page(b1, pointer);
                let ea = base.wrapping_add(self.y as u16);
                let c = if charge && crosses_page(base, ea) { self.add_cycles(1) } else { self };
                (c, after_read_word_in_page(b1, pointer), ea)
            },
            AddressingMode::Indirect => {
                let pointer = read_word_spec(bus, pc1);
                let b1 = after_read_word(bus, pc1);
                (self, after_read_word_in_page(b1, pointer), read_word_in_page(b1, pointer))
            },
            _ => (self, bus, 0),
        }
    }

    /// ADC: A + M + C, with carry out and signed overflow; SBC is ADC of `!M`.
    pub open spec fn adc_spec(self, m: u8) -> CPU {
        let sum = self.a as int + m as int + (if self.carry { 1int } else { 0 });
        let r = (sum % 256) as u8;
        CPU { a: r, carry: sum > 0xFF, overflow: (r ^ self.a) & (r ^ m) & 0x80 != 0, ..self }.nz(r)
    }

    /// CMP/CPX/CPY: compares `register` with `m`; registers unchanged.
    pub open spec fn compare_spec(self, register: u8, m: u8) -> CPU {
        CPU {
            carry: register >= m,
            zero: register == m,
            negative: register.wrapping_sub(m) >= 0x80,
            ..self
        }
    }

    pub open spec fn and_spec(self, m: u8) -> CPU {
        CPU { a: self.a & m, ..self }.nz(self.a & m)
    }

    /// The result of a shift, rotate, increment or decrement of `v`.
    pub open spec fn modify_result(self, op: Mnemonic, v: u8) -> u8 {
        match op {
            Mnemonic::ASL | Mnemonic::SLO => ((v % 128) * 2) as u8,
            Mnemonic::LSR | Mnemonic::SRE => v / 2,
            Mnemonic::ROL | Mnemonic::RLA => ((v % 128) * 2 + (if self.carry { 1int } else { 0 })) as u8,
            Mnemonic::ROR | Mnemonic::RRA => (v / 2 + (if self.carry { 0x80int } else { 0 })) as u8,
            Mnemonic::INC | Mnemonic::ISC => v.wrapping_add(1),
            _ => v.wrapping_sub(1),
        }
    }

    /// The flags after a shift, rotate, increment or decrement of `v`: the
    /// bit shifted out goes to C, N and Z follow the result.
    pub open spec fn modify_spec(self, op: Mnemonic, v: u8) -> CPU {
        let r = self.modify_result(op, v);
        let c = match op {
            Mnemonic::ASL | Mnemonic::SLO | Mnemonic::ROL | Mnemonic::RLA => CPU {
                carry: v >= 0x80,
                ..self
            },
            Mnemonic::LSR | Mnemonic::SRE | Mnemonic::ROR | Mnemonic::RRA => CPU {
                carry: v % 2 == 1,
                ..self
            },
            _ => self,
        };
        c.nz(r)
    }

    /// The effect of an operation that reads the byte `m` from its operand.
    pub open spec fn read_op_spec(self, op: Mnemonic, m: u8) -> CPU {
        match op {
            Mnemonic::ADC => self.adc_spec(m),
            Mnemonic::SBC => self.adc_spec(!m),
            Mnemonic::AND => self.and_spec(m),
            Mnemonic::ORA => CPU { a: self.a | m, ..self }.nz(self.a | m),
            Mnemonic::EOR => CPU { a: self.a ^ m, ..self }.nz(self.a ^ m),
            Mnemonic::BIT => CPU {
                zero: self.a & m == 0,
                negative: m >= 0x80,
                overflow: m & 0x40 != 0,
                ..self
            },
            Mnemonic::CMP => self.compare_spec(self.a, m),
            Mnemonic::CPX => self.compare_spec(self.x, m),
            Mnemonic::CPY => self.compare_spec(self.y, m),
            Mnemonic::LDA => CPU { a: m, ..self }.nz(m),
            Mnemonic::LDX => CPU { x: m, ..self }.nz(m),
            Mnemonic::LDY => CPU { y: m, ..self }.nz(m),
            Mnemonic::LAX => CPU { a: m, x: m, ..self }.nz(m),
            Mnemonic::ANC => {
                let c = self.and_spec(m);
                CPU { carry: c.negative, ..c }
            },
            Mnemonic::ALR => {
                let c = self.and_spec(m);
                CPU { a: c.modify_result(Mnemonic::LSR, c.a), ..c.modify_spec(Mnemonic::LSR, c.a) }
            },
            Mnemonic::ARR => {
                let c = self.and_spec(m);
                let r = c.modify_result(Mnemonic::ROR, c.a);
                CPU {
                    a: r,
                    carry: r & 0x40 != 0,
                    overflow: (r & 0x40) ^ (r & 0x20) != 0,
                    ..c.modify_spec(Mnemonic::ROR, c.a)
                }
            },
            Mnemonic::XAA => CPU { a: self.a & self.x, ..self }.and_spec(m),
            Mnemonic::LXA => {
                let c = self.and_spec(m);
                CPU { x: c.a, ..c }
            },
            Mnemonic::LAS => CPU { a: m & self.s, x: m & self.s, s: m & self.s, ..self }.nz(m & self.s),
            Mnemonic::SBX => {
                let i = self.a & self.x;
                CPU { x: i.wrapping_sub(m), ..self }.compare_spec(i, m)
            },
            _ => self,
        }
    }

    /// The byte a store operation writes to `address`.
    pub open spec fn store_value(self, op: Mnemonic, address: u16) -> u8 {
        let high = ((address / 256) as u8).wrapping_add(1);
        match op {
            Mnemonic::STA => self.a,
            Mnemonic::STX => self.x,
            Mnemonic::STY => self.y,
            Mnemonic::SAX => self.a & self.x,
            Mnemonic::SHX => self.x & high,
            Mnemonic::SHY => self.y & high,
            _ => self.a & self.x & high,
        }
    }

    /// The effect of an operation without operand on the registers.
    pub open spec fn implied_spec(self, op: Mnemonic) -> CPU {
        match op {
            Mnemonic::TAX => CPU { x: self.a, ..self }.nz(self.a),
            Mnemonic::TAY => CPU { y: self.a, ..self }.nz(self.a),
            Mnemonic::TXA => CPU { a: self.x, ..self }.nz(self.x),
            Mnemonic::TYA => CPU { a: self.y, ..self }.nz(self.y),
            Mnemonic::TSX => CPU { x: self.s, ..self }.nz(self.s),
            Mnemonic::TXS => CPU { s: self.x, ..self },
            Mnemonic::INX => CPU { x: self.x.wrapping_add(1), ..self }.nz(self.x.wrapping_add(1)),
            Mnemonic::INY => CPU { y: self.y.wrapping_add(1), ..self }.nz(self.y.wrapping_add(1)),
            Mnemonic::DEX => CPU { x: self.x.wrapping_sub(1), ..self }.nz(self.x.wrapping_sub(1)),
            Mnemonic::DEY => CPU { y: self.y.wrapping_sub(1), ..self }.nz(self.y.wrapping_sub(1)),
            Mnemonic::CLC => CPU { carry: false, ..self },
            Mnemonic::SEC => CPU { carry: true, ..self },
            Mnemonic::CLD => CPU { decimal_mode: false, ..self },
            Mnemonic::SED => CPU { decimal_mode: true, ..self },
            Mnemonic::CLI => CPU { irq_disable: false, ..self },
            Mnemonic::SEI => CPU { irq_disable: true, ..self },
            Mnemonic::CLV => CPU { overflow: false, ..self },
            _ => self,
        }
    }

    /// Whether a branch operation is taken.
    pub open spec fn branch_taken(self, op: Mnemonic) -> bool {
        match op {
            Mnemonic::BCC => !self.carry,
            Mnemonic::BCS => self.carry,
            Mnemonic::BNE => !self.zero,
            Mnemonic::BEQ => self.zero,
            Mnemonic::BPL => !self.negative,
            Mnemonic::BMI => self.negative,
            Mnemonic::BVC => !self.overflow,
            _ => self.overflow,
        }
    }

    /// PC past the instruction and its base cycles counted.
    pub open spec fn advance(self, e: Opcode) -> CPU {
        CPU { pc: self.pc.wrapping_add(e.length), ..self }.add_cycles(e.cycles)
    }

    /// The interrupt sequence: push PC and P (B clear), set I, jump through `vector`.
    pub open spec fn interrupt_spec<B: Bus16>(self, bus: B, vector: u16, brk: bool, cycles: u64) -> (CPU, B) {
        let (c1, b1) = self.push_word_spec(bus, self.pc);
        let (c2, b2) = c1.push_spec(b1, c1.status_byte(brk));
        (
            CPU { irq_disable: true, pc: read_word_spec(b2, vector), ..c2 }.add_cycles(cycles),
            after_read_word(b2, vector),
        )
    }

    pub open spec fn read_instruction_spec<B: Bus16>(self, bus: B, e: Opcode) -> (CPU, B) {
        let op = e.operation;
        let (c1, b1, ea) = self.resolve_spec(bus, e.mode, e.charge_on_crossing);
        (c1.read_op_spec(op, b1.read_spec(ea)).advance(e), b1.after_read(ea))
    }

    pub open spec fn store_instruction_spec<B: Bus16>(self, bus: B, e: Opcode) -> (CPU, B) {
        let op = e.operation;
        let (c1, b1, ea) = self.resolve_spec(bus, e.mode, e.charge_on_crossing);
        let c2 = if op == Mnemonic::TAS { CPU { s: c1.a & c1.x, ..c1 } } else { c1 };
        (c2.advance(e), b1.after_write(ea, c1.store_value(op, ea)))
    }

    pub open spec fn modify_instruction_spec<B: Bus16>(self, bus: B, e: Opcode) -> (CPU, B) {
        let op = e.operation;
        if e.mode == AddressingMode::Accumulator {
            (
                CPU {
                    a: self.modify_result(op, self.a),
                    ..self.modify_spec(op, self.a)
                }.advance(e),
                bus,
            )
        } else {
            let (c1, b1, ea) = self.resolve_spec(bus, e.mode, e.charge_on_crossing);
            let v = b1.read_spec(ea);
            let b2 = b1.after_read(ea).after_write(ea, c1.modify_result(op, v));
            let c2 = c1.modify_spec(op, v);
            match secondary_operation(op) {
                Some(second) => (
                    c2.read_op_spec(second, b2.read_spec(ea)).advance(e),
                    b2.after_read(ea),
                ),
                None => (c2.advance(e), b2),
            }
        }
    }

    pub open spec fn branch_instruction_spec<B: Bus16>(self, bus: B, e: Opcode) -> (CPU, B) {
        let op = e.operation;
        let pc = self.pc.wrapping_add(e.length);
        if self.branch_taken(op) {
            let target = branch_target(pc, bus.read_spec(pc.wrapping_sub(1)));
            let extra: u64 = if crosses_page(pc, target) { 2 } else { 1 };
            (
                CPU { pc: target, ..self }.add_cycles(extra).add_cycles(e.cycles),
                bus.after_read(pc.wrapping_sub(1)),
            )
        } else {
            (CPU { pc, ..self }.add_cycles(e.cycles), bus)
        }
    }

    pub open spec fn control_instruction_spec<B: Bus16>(self, bus: B, e: Opcode) -> (CPU, B) {
        match e.operation {
            Mnemonic::JMP => {
                let (c1, b1, ea) = self.resolve_spec(bus, e.mode, e.charge_on_crossing);
                (CPU { pc: ea, ..c1 }.add_cycles(e.cycles), b1)
            },
            Mnemonic::JSR => {
                let (c1, b1, ea) = self.resolve_spec(bus, e.mode, e.charge_on_crossing);
                let (c2, b2) = c1.push_word_spec(b1, c1.pc.wrapping_add(e.length).wrapping_sub(1));
                (CPU { pc: ea, ..c2 }.add_cycles(e.cycles), b2)
            },
            Mnemonic::RTS => {
                let (c1, b1, ret) = self.pull_word_spec(bus);
                (CPU { pc: ret.wrapping_add(1), ..c1 }.add_cycles(e.cycles), b1)
            },
            Mnemonic::RTI => {
                let (c1, b1, p) = self.pull_spec(bus);
                let (c2, b2, ret) = c1.with_status(p).pull_word_spec(b1);
                (CPU { pc: ret, ..c2 }.add_cycles(e.cycles), b2)
            },
            Mnemonic::BRK => CPU { pc: self.pc.wrapping_add(2), ..self }.interrupt_spec(
                bus,
                IRQ_VECTOR,
                true,
                e.cycles,
            ),
            _ => (self, bus),
        }
    }

    pub open spec fn stack_instruction_spec<B: Bus16>(self, bus: B, e: Opcode) -> (CPU, B) {
        match e.operation {
            Mnemonic::PHA => {
                let (c1, b1) = self.push_spec(bus, self.a);
                (c1.advance(e), b1)
            },
            Mnemonic::PHP => {
                let (c1, b1) = self.push_spec(bus, self.status_byte(true));
                (c1.advance(e), b1)
            },
            Mnemonic::PLA => {
                let (c1, b1, v) = self.pull_spec(bus);
                (CPU { a: v, ..c1 }.nz(v).advance(e), b1)
            },
            Mnemonic::PLP => {
                let (c1, b1, p) = self.pull_spec(bus);
                (c1.with_status(p).advance(e), b1)
            },
            _ => (self, bus),
        }
    }

    /// One instruction described by `e`, whose opcode byte has been fetched.
    #[verifier::opaque]
    pub open spec fn perform_spec<B: Bus16>(self, bus: B, e: Opcode) -> (CPU, B) {
        let op = e.operation;
        match op {
            Mnemonic::ADC | Mnemonic::SBC | Mnemonic::AND | Mnemonic::ORA | Mnemonic::EOR
            | Mnemonic::BIT | Mnemonic::CMP | Mnemonic::CPX | Mnemonic::CPY | Mnemonic::LDA
            | Mnemonic::LDX | Mnemonic::LDY | Mnemonic::LAX | Mnemonic::ANC | Mnemonic::ALR
            | Mnemonic::ARR | Mnemonic::XAA | Mnemonic::LXA | Mnemonic::LAS | Mnemonic::SBX => self.read_instruction_spec(bus, e),
            Mnemonic::STA | Mnemonic::STX | Mnemonic::STY | Mnemonic::SAX | Mnemonic::SHA
            | Mnemonic::SHX | Mnemonic::SHY | Mnemonic::TAS => self.store_instruction_spec(bus, e),
            Mnemonic::ASL | Mnemonic::LSR | Mnemonic::ROL | Mnemonic::ROR | Mnemonic::INC
            | Mnemonic::DEC | Mnemonic::SLO | Mnemonic::RLA | Mnemonic::SRE | Mnemonic::RRA
            | Mnemonic::DCP | Mnemonic::ISC => self.modify_instruction_spec(bus, e),
            Mnemonic::BCC | Mnemonic::BCS | Mnemonic::BNE | Mnemonic::BEQ | Mnemonic::BPL
            | Mnemonic::BMI | Mnemonic::BVC | Mnemonic::BVS => self.branch_instruction_spec(bus, e),
            Mnemonic::JMP | Mnemonic::JSR | Mnemonic::RTS | Mnemonic::RTI | Mnemonic::BRK => self.control_instruction_spec(bus, e),
            Mnemonic::PHA | Mnemonic::PHP | Mnemonic::PLA | Mnemonic::PLP => self.stack_instruction_spec(bus, e),
            Mnemonic::JAM => (CPU { jammed: true, ..self }, bus),
            Mnemonic::NOP => {
                if e.charge_on_crossing {
                    let (c1, b1, ea) = self.resolve_spec(bus, e.mode, e.charge_on_crossing);
                    (c1.advance(e), b1)
                } else {
                    (self.advance(e), bus)
                }
            },
            _ => (self.implied_spec(op).advance(e), bus),
        }
    }

    /// One instruction, or an interrupt followed by the first instruction of
    /// its handler: a rising NMI edge is served first, then a pending IRQ
    /// while I is clear; then the opcode at PC is fetched and carried out.
    #[verifier::opaque]
    pub open spec fn step_spec<B: Bus16>(self, bus: B) -> (CPU, B) {
        let (c1, b1) = if self.nmi && !self.last_nmi {
            self.interrupt_spec(bus, NMI_VECTOR, false, 7)
        } else {
            (self, bus)
        };
        let c2 = CPU { last_nmi: c1.nmi, ..c1 };
        let (c3, b3) = if c2.irq && !c2.irq_disable {
            c2.interrupt_spec(b1, IRQ_VECTOR, false, 7)
        } else {
            (c2, b1)
        };
        c3.perform_spec(b3.after_read(c3.pc), opcode_table(b3.read_spec(c3.pc)))
    }

    /// The CPU without a debugger attached.
    pub open spec fn detached(self) -> CPU {
        CPU { debugger: None, ..self }
    }

    /// Whether the debugger, if any, went from `self` to `after` by recording `state`.
    pub open spec fn recorded(self, after: CPU, state: ExecutionState) -> bool {
        match self.debugger {
            None => after.debugger.is_none(),
            Some(d) => match after.debugger {
                Some(e) => e.states@ == retained(d.states@, d.backtrace_limit, state)
                    && e.backtrace_limit == d.backtrace_limit,
                None => false,
            },
        }
    }

    pub fn new() -> (r: CPU)
        ensures
            r.a == 0 && r.x == 0 && r.y == 0 && r.pc == 0 && r.s == 0,
            !r.carry && !r.zero && r.irq_disable && !r.decimal_mode && !r.overflow && !r.negative,
            !r.nmi && !r.last_nmi && !r.irq,
            r.total_cycles == 0,
            !r.jammed,
            r.debugger.is_none(),
    {
        CPU {
            a: 0,
            x: 0,
            y: 0,
            pc: 0,
            s: 0,
            carry: false,
            zero: false,
            irq_disable: true,
            decimal_mode: false,
            overflow: false,
            negative: false,
            nmi: false,
            last_nmi: false,
            irq: false,
            total_cycles: 0,
            jammed: false,
            debugger: None,
        }
    }

    fn set_nz_flags(&mut self, value: u8)
        ensures
            *final(self) == old(self).nz(value),
    {
        self.zero = value == 0;
        self.negative = value >= 0x80;
    }

    fn encode_p(&self, brk_command: bool) -> (r: u8)
        ensures
            r == self.status_byte(brk_command),
    {
        let mut p: u8 = 0x20;
        if self.negative {
            p = p + 0x80;
        }
        if self.overflow {
            p = p + 0x40;
        }
        if brk_command {
            p = p + 0x10;
        }
        if self.decimal_mode {
            p = p + 0x08;
        }
        if self.irq_disable {
            p = p + 0x04;
        }
        if self.zero {
            p = p + 0x02;
        }
        if self.carry {
            p = p + 0x01;
        }
        p
    }

    fn decode_p(&mut self, p: u8)
        ensures
            *final(self) == old(self).with_status(p),
    {
        self.negative = p & 0x80 != 0;
        self.overflow = p & 0x40 != 0;
        self.decimal_mode = p & 0x08 != 0;
        self.irq_disable = p & 0x04 != 0;
        self.zero = p & 0x02 != 0;
        self.carry = p & 0x01 != 0;
    }

    /// The status register as software sees it: bit 5 set, bit 4 clear.
    pub fn status_register(&self) -> (r: u8)
        ensures
            r == self.status_byte(false),
    {
        self.encode_p(false)
    }

    fn add_total_cycles(&mut self, n: u64)
        ensures
            *final(self) == old(self).add_cycles(n),
    {
        self.total_cycles = self.total_cycles.wrapping_add(n);
    }

    fn push_byte<B: Bus16>(&mut self, bus: &mut B, value: u8)
        ensures
            (*final(self), *final(bus)) == old(self).push_spec(*old(bus), value),
    {
        bus.write_byte(STACK_BASE + self.s as u16, value);
        self.s = self.s.wrapping_sub(1);
    }

    fn push_word<B: Bus16>(&mut self, bus: &mut B, value: u16)
        ensures
            (*final(self), *final(bus)) == old(self).push_word_spec(*old(bus), value),
    {
        self.push_byte(bus, (value / 256) as u8);
        self.push_byte(bus, (value % 256) as u8);
    }

    fn pull_byte<B: Bus16>(&mut self, bus: &mut B) -> (r: u8)
        ensures
            (*final(self), *final(bus), r) == old(self).pull_spec(*old(bus)),
    {
        self.s = self.s.wrapping_add(1);
        bus.read_byte(STACK_BASE + self.s as u16)
    }

    fn pull_word<B: Bus16>(&mut self, bus: &mut B) -> (r: u16)
        ensures
            (*final(self), *final(bus), r) == old(self).pull_word_spec(*old(bus)),
    {
        let low = self.pull_byte(bus);
        let high = self.pull_byte(bus);
        make_word(low, high)
    }

    /// Resolves the effective address of the operand of the instruction at PC.
    fn resolve<B: Bus16>(&mut self, bus: &mut B, mode: AddressingMode, charge: bool) -> (r: u16)
        ensures
            (*final(self), *final(bus), r) == old(self).resolve_spec(*old(bus), mode, charge),
    {
        let pc1 = self.pc.wrapping_add(1);
        match mode {
            AddressingMode::Immediate => pc1,
            AddressingMode::ZeroPage => bus.read_byte(pc1) as u16,
            AddressingMode::ZeroPageX => bus.read_byte(pc1).wrapping_add(self.x) as u16,
            AddressingMode::ZeroPageY => bus.read_byte(pc1).wrapping_add(self.y) as u16,
            AddressingMode::Absolute => bus.read_word(pc1),
            AddressingMode::AbsoluteX | AddressingMode::AbsoluteY => {
                let base = bus.read_word(pc1);
                let index = if mode == AddressingMode::AbsoluteX {
                    self.x
                } else {
                    self.y
                };
                let ea = base.wrapping_add(index as u16);
                if charge && crosses_page_boundary(base, ea) {
                    self.add_total_cycles(1);
                }
                ea
            },
            AddressingMode::IndirectX => {
                let pointer = bus.read_byte(pc1).wrapping_add(self.x) as u16;
                read_word_with_page_wrapping(bus, pointer)
            },
            AddressingMode::IndirectY => {
                let pointer = bus.read_byte(pc1) as u16;
                let base = read_word_with_page_wrapping(bus, pointer);
                let ea = base.wrapping_add(self.y as u16);
                if charge && crosses_page_boundary(base, ea) {
                    self.add_total_cycles(1);
                }
                ea
            },
            AddressingMode::Indirect => {
                let pointer = bus.read_word(pc1);
                read_word_with_page_wrapping(bus, pointer)
            },
            _ => 0,
        }
    }

    /// ADC (and SBC, given the complemented operand).
    fn adder(&mut self, m: u8)
        ensures
            *final(self) == old(self).adc_spec(m),
    {
        let sum: u16 = self.a as u16 + m as u16 + if self.carry {
            1
        } else {
            0
        };
        let r = (sum % 256) as u8;
        self.overflow = (r ^ self.a) & (r ^ m) & 0x80 != 0;
        self.carry = sum > 0xFF;
        self.a = r;
        self.set_nz_flags(r);
    }

    fn compare_value(&mut self, register: u8, m: u8)
        ensures
            *final(self) == old(self).compare_spec(register, m),
    {
        self.carry = register >= m;
        self.zero = register == m;
        self.negative = register.wrapping_sub(m) >= 0x80;
    }

    fn and(&mut self, m: u8)
        ensures
            *final(self) == old(self).and_spec(m),
    {
        self.a = self.a & m;
        self.set_nz_flags(self.a);
    }

    /// Shifts, rotates, increments or decrements `v`; returns the result.
    fn modify(&mut self, op: Mnemonic, v: u8) -> (r: u8)
        ensures
            r == old(self).modify_result(op, v),
            *final(self) == old(self).modify_spec(op, v),
    {
        let carry_in: u8 = if self.carry {
            1
        } else {
            0
        };
        let r = match op {
            Mnemonic::ASL | Mnemonic::SLO => {
                self.carry = v >= 0x80;
                (v % 128) * 2
            },
            Mnemonic::LSR | Mnemonic::SRE => {
                self.carry = v % 2 == 1;
                v / 2
            },
            Mnemonic::ROL | Mnemonic::RLA => {
                self.carry = v >= 0x80;
                (v % 128) * 2 + carry_in
            },
            Mnemonic::ROR | Mnemonic::RRA => {
                self.carry = v % 2 == 1;
                v / 2 + carry_in * 0x80
            },
            Mnemonic::INC | Mnemonic::ISC => v.wrapping_add(1),
            _ => v.wrapping_sub(1),
        };
        self.set_nz_flags(r);
        r
    }

    /// Applies an operation that reads the byte `m`.
    fn read_op(&mut self, op: Mnemonic, m: u8)
        ensures
            *final(self) == old(self).read_op_spec(op, m),
    {
        match op {
            Mnemonic::ADC => self.adder(m),
            Mnemonic::SBC => self.adder(!m),
            Mnemonic::AND => self.and(m),
            Mnemonic::ORA => self.ora(m),
            Mnemonic::EOR => self.eor(m),
            Mnemonic::BIT => self.bit(m),
            Mnemonic::CMP => self.compare_value(self.a, m),
            Mnemonic::CPX => self.compare_value(self.x, m),
            Mnemonic::CPY => self.compare_value(self.y, m),
            Mnemonic::LDA => self.lda(m),
            Mnemonic::LDX => self.ldx(m),
            Mnemonic::LDY => self.ldy(m),
            Mnemonic::LAX => self.lax(m),
            Mnemonic::ANC => self.anc(m),
            Mnemonic::ALR => self.alr(m),
            Mnemonic::ARR => self.arr(m),
            Mnemonic::XAA => self.xaa(m),
            Mnemonic::LXA => self.lxa(m),
            Mnemonic::LAS => self.las(m),
            Mnemonic::SBX => self.sbx(m),
            _ => {},
        }
    }

    fn ora(&mut self, m: u8)
        ensures
            *final(self) == old(self).read_op_spec(Mnemonic::ORA, m),
    {
        self.a = self.a | m;
        self.set_nz_flags(self.a);
    }

    fn eor(&mut self, m: u8)
        ensures
            *final(self) == old(self).read_op_spec(Mnemonic::EOR, m),
    {
        self.a = self.a ^ m;
        self.set_nz_flags(self.a);
    }

    fn bit(&mut self, m: u8)
        ensures
            *final(self) == old(self).read_op_spec(Mnemonic::BIT, m),
    {
        self.zero = self.a & m == 0;
        self.negative = m >= 0x80;
        self.overflow = m & 0x40 != 0;
    }

    fn lda(&mut self, m: u8)
        ensures
            *final(self) == old(self).read_op_spec(Mnemonic::LDA, m),
    {
        self.a = m;
        self.set_nz_flags(m);
    }

    fn ldx(&mut self, m: u8)
        ensures
            *final(self) == old(self).read_op_spec(Mnemonic::LDX, m),
    {
        self.x = m;
        self.set_nz_flags(m);
    }

    fn ldy(&mut self, m: u8)
        ensures
            *final(self) == old(self).read_op_spec(Mnemonic::LDY, m),
    {
        self.y = m;
        self.set_nz_flags(m);
    }

    fn lax(&mut self, m: u8)
        ensures
            *final(self) == old(self).read_op_spec(Mnemonic::LAX, m),
    {
        self.a = m;
        self.x = m;
        self.set_nz_flags(m);
    }

    fn anc(&mut self, m: u8)
        ensures
            *final(self) == old(self).read_op_spec(Mnemonic::ANC, m),
    {
        self.and(m);
        self.carry = self.negative;
    }

    fn alr(&mut self, m: u8)
        ensures
            *final(self) == old(self).read_op_spec(Mnemonic::ALR, m),
    {
        self.and(m);
        let r = self.modify(Mnemonic::LSR, self.a);
        self.a = r;
    }

    fn arr(&mut self, m: u8)
        ensures
            *final(self) == old(self).read_op_spec(Mnemonic::ARR, m),
    {
        self.and(m);
        let r = self.modify(Mnemonic::ROR, self.a);
        self.a = r;
        self.carry = r & 0x40 != 0;
        self.overflow = (r & 0x40) ^ (r & 0x20) != 0;
    }

    fn xaa(&mut self, m: u8)
        ensures
            *final(self) == old(self).read_op_spec(Mnemonic::XAA, m),
    {
        self.a = self.a & self.x;
        self.and(m);
    }

    fn lxa(&mut self, m: u8)
        ensures
            *final(self) == old(self).read_op_spec(Mnemonic::LXA, m),
    {
        self.and(m);
        self.x = self.a;
    }

    fn las(&mut self, m: u8)
        ensures
            *final(self) == old(self).read_op_spec(Mnemonic::LAS, m),
    {
        let r = m & self.s;
        self.a = r;
        self.x = r;
        self.s = r;
        self.set_nz_flags(r);
    }

    fn sbx(&mut self, m: u8)
        ensures
            *final(self) == old(self).read_op_spec(Mnemonic::SBX, m),
    {
        let intermediate = self.a & self.x;
        self.x = intermediate.wrapping_sub(m);
        self.compare_value(intermediate, m);
    }

    fn store_value_of(&self, op: Mnemonic, address: u16) -> (r: u8)
        ensures
            r == self.store_value(op, address),
    {
        let high = ((address / 256) as u8).wrapping_add(1);
        match op {
            Mnemonic::STA => self.a,
            Mnemonic::STX => self.x,
            Mnemonic::STY => self.y,
            Mnemonic::SAX => self.a & self.x,
            Mnemonic::SHX => self.x & high,
            Mnemonic::SHY => self.y & high,
            _ => self.a & self.x & high,
        }
    }

    fn implied(&mut self, op: Mnemonic)
        ensures
            *final(self) == old(self).implied_spec(op),
    {
        match op {
            Mnemonic::TAX => {
                self.x = self.a;
                self.set_nz_flags(self.x);
            },
            Mnemonic::TAY => {
                self.y = self.a;
                self.set_nz_flags(self.y);
            },
            Mnemonic::TXA => {
                self.a = self.x;
                self.set_nz_flags(self.a);
            },
            Mnemonic::TYA => {
                self.a = self.y;
                self.set_nz_flags(self.a);
            },
            Mnemonic::TSX => {
                self.x = self.s;
                self.set_nz_flags(self.x);
            },
            Mnemonic::TXS => self.s = self.x,
            Mnemonic::INX => {
                self.x = self.x.wrapping_add(1);
                self.set_nz_flags(self.x);
            },
            Mnemonic::INY => {
                self.y = self.y.wrapping_add(1);
                self.set_nz_flags(self.y);
            },
            Mnemonic::DEX => {
                self.x = self.x.wrapping_sub(1);
                self.set_nz_flags(self.x);
            },
            Mnemonic::DEY => {
                self.y = self.y.wrapping_sub(1);
                self.set_nz_flags(self.y);
            },
            Mnemonic::CLC => self.carry = false,
            Mnemonic::SEC => self.carry = true,
            Mnemonic::CLD => self.decimal_mode = false,
            Mnemonic::SED => self.decimal_mode = true,
            Mnemonic::CLI => self.irq_disable = false,
            Mnemonic::SEI => self.irq_disable = true,
            Mnemonic::CLV => self.overflow = false,
            _ => {},
        }
    }

    fn branch_condition(&self, op: Mnemonic) -> (r: bool)
        ensures
            r == self.branch_taken(op),
    {
        match op {
            Mnemonic::BCC => !self.carry,
            Mnemonic::BCS => self.carry,
            Mnemonic::BNE => !self.zero,
            Mnemonic::BEQ => self.zero,
            Mnemonic::BPL => !self.negative,
            Mnemonic::BMI => self.negative,
            Mnemonic::BVC => !self.overflow,
            _ => self.overflow,
        }
    }

    fn advance_past(&mut self, e: Opcode)
        ensures
            *final(self) == old(self).advance(e),
    {
        self.pc = self.pc.wrapping_add(e.length);
        self.add_total_cycles(e.cycles);
    }

    /// Pushes PC and P, sets I and jumps through `vector`.
    fn interrupt<B: Bus16>(&mut self, bus: &mut B, vector: u16, brk: bool, cycles: u64)
        ensures
            (*final(self), *final(bus)) == old(self).interrupt_spec(*old(bus), vector, brk, cycles),
    {
        self.push_word(bus, self.pc);
        let p = self.encode_p(brk);
        self.push_byte(bus, p);
        self.irq_disable = true;
        self.pc = bus.read_word(vector);
        self.add_total_cycles(cycles);
    }

    fn relative_conditional_branch<B: Bus16>(&mut self, bus: &mut B, should_branch: bool)
        ensures
            should_branch ==> {
                let target = branch_target(old(self).pc, old(bus).read_spec(old(self).pc.wrapping_sub(1)));
                &&& *final(self) == (CPU { pc: target, ..*old(self) }).add_cycles(
                    if crosses_page(old(self).pc, target) { 2 } else { 1 },
                )
                &&& *final(bus) == old(bus).after_read(old(self).pc.wrapping_sub(1))
            },
            !should_branch ==> *final(self) == *old(self) && *final(bus) == *old(bus),
    {
        if should_branch {
            let offset = bus.read_byte(self.pc.wrapping_sub(1));
            let target = if offset < 0x80 {
                self.pc.wrapping_add(offset as u16)
            } else {
                self.pc.wrapping_sub(256 - offset as u16)
            };
            if crosses_page_boundary(self.pc, target) {
                self.add_total_cycles(2);
            } else {
                self.add_total_cycles(1);
            }
            self.pc = target;
        }
    }

    fn read_instruction<B: Bus16>(&mut self, bus: &mut B, e: Opcode)
        ensures
            (*final(self), *final(bus)) == old(self).read_instruction_spec(*old(bus), e),
    {
        let op = e.operation;
        let ea = self.resolve(bus, e.mode, e.charge_on_crossing);
        let m = bus.read_byte(ea);
        self.read_op(op, m);
        self.advance_past(e);
    }

    fn store_instruction<B: Bus16>(&mut self, bus: &mut B, e: Opcode)
        ensures
            (*final(self), *final(bus)) == old(self).store_instruction_spec(*old(bus), e),
    {
        let op = e.operation;
        let ea = self.resolve(bus, e.mode, e.charge_on_crossing);
        let v = self.store_value_of(op, ea);
        if op == Mnemonic::TAS {
            self.s = self.a & self.x;
        }
        bus.write_byte(ea, v);
        self.advance_past(e);
    }

    fn modify_instruction<B: Bus16>(&mut self, bus: &mut B, e: Opcode)
        ensures
            (*final(self), *final(bus)) == old(self).modify_instruction_spec(*old(bus), e),
    {
        let op = e.operation;
        if e.mode == AddressingMode::Accumulator {
            let r = self.modify(op, self.a);
            self.a = r;
        } else {
            let ea = self.resolve(bus, e.mode, e.charge_on_crossing);
            let v = bus.read_byte(ea);
            let r = self.modify(op, v);
            bus.write_byte(ea, r);
            match secondary(op) {
                Some(second) => {
                    let m = bus.read_byte(ea);
                    self.read_op(second, m);
                },
                None => {},
            }
        }
        self.advance_past(e);
    }

    fn branch_instruction<B: Bus16>(&mut self, bus: &mut B, e: Opcode)
        ensures
            (*final(self), *final(bus)) == old(self).branch_instruction_spec(*old(bus), e),
    {
        let op = e.operation;
        let taken = self.branch_condition(op);
        self.pc = self.pc.wrapping_add(e.length);
        self.relative_conditional_branch(bus, taken);
        self.add_total_cycles(e.cycles);
    }

    fn jmp<B: Bus16>(&mut self, bus: &mut B, e: Opcode)
        requires
            e.operation == Mnemonic::JMP,
        ensures
            (*final(self), *final(bus)) == old(self).control_instruction_spec(*old(bus), e),
    {
        let ea = self.resolve(bus, e.mode, e.charge_on_crossing);
        self.pc = ea;
        self.add_total_cycles(e.cycles);
    }

    fn jsr<B: Bus16>(&mut self, bus: &mut B, e: Opcode)
        requires
            e.operation == Mnemonic::JSR,
        ensures
            (*final(self), *final(bus)) == old(self).control_instruction_spec(*old(bus), e),
    {
        let ea = self.resolve(bus, e.mode, e.charge_on_crossing);
        self.push_word(bus, self.pc.wrapping_add(e.length).wrapping_sub(1));
        self.pc = ea;
        self.add_total_cycles(e.cycles);
    }

    fn rts<B: Bus16>(&mut self, bus: &mut B, e: Opcode)
        requires
            e.operation == Mnemonic::RTS,
        ensures
            (*final(self), *final(bus)) == old(self).control_instruction_spec(*old(bus), e),
    {
        let ret = self.pull_word(bus);
        self.pc = ret.wrapping_add(1);
        self.add_total_cycles(e.cycles);
    }

    fn rti<B: Bus16>(&mut self, bus: &mut B, e: Opcode)
        requires
            e.operation == Mnemonic::RTI,
        ensures
            (*final(self), *final(bus)) == old(self).control_instruction_spec(*old(bus), e),
    {
        let p = self.pull_byte(bus);
        self.decode_p(p);
        let ret = self.pull_word(bus);
        self.pc = ret;
        self.add_total_cycles(e.cycles);
    }

    fn brk<B: Bus16>(&mut self, bus: &mut B, e: Opcode)
        requires
            e.operation == Mnemonic::BRK,
        ensures
            (*final(self), *final(bus)) == old(self).control_instruction_spec(*old(bus), e),
    {
        self.pc = self.pc.wrapping_add(2);
        self.interrupt(bus, IRQ_VECTOR, true, e.cycles);
    }

    fn control_instruction<B: Bus16>(&mut self, bus: &mut B, e: Opcode)
        ensures
            (*final(self), *final(bus)) == old(self).control_instruction_spec(*old(bus), e),
    {
        match e.operation {
            Mnemonic::JMP => self.jmp(bus, e),
            Mnemonic::JSR => self.jsr(bus, e),
            Mnemonic::RTS => self.rts(bus, e),
            Mnemonic::RTI => self.rti(bus, e),
            Mnemonic::BRK => self.brk(bus, e),
            _ => {},
        }
    }

    fn stack_instruction<B: Bus16>(&mut self, bus: &mut B, e: Opcode)
        ensures
            (*final(self), *final(bus)) == old(self).stack_instruction_spec(*old(bus), e),
    {
        match e.operation {
            Mnemonic::PHA => {
                self.push_byte(bus, self.a);
                self.advance_past(e);
            },
            Mnemonic::PHP => {
                let p = self.encode_p(true);
                self.push_byte(bus, p);
                self.advance_past(e);
            },
            Mnemonic::PLA => {
                let v = self.pull_byte(bus);
                self.a = v;
                self.set_nz_flags(v);
                self.advance_past(e);
            },
            Mnemonic::PLP => {
                let p = self.pull_byte(bus);
                self.decode_p(p);
                self.advance_past(e);
            },
            _ => {},
        }
    }

    /// Carries out the instruction `e` at PC, whose opcode byte has been fetched.
    fn perform<B: Bus16>(&mut self, bus: &mut B, e: Opcode)
        ensures
            (*final(self), *final(bus)) == old(self).perform_spec(*old(bus), e),
    {
        reveal(CPU::perform_spec);
        let op = e.operation;
        match op {
            Mnemonic::ADC | Mnemonic::SBC | Mnemonic::AND | Mnemonic::ORA | Mnemonic::EOR
            | Mnemonic::BIT | Mnemonic::CMP | Mnemonic::CPX | Mnemonic::CPY | Mnemonic::LDA
            | Mnemonic::LDX | Mnemonic::LDY | Mnemonic::LAX | Mnemonic::ANC | Mnemonic::ALR
            | Mnemonic::ARR | Mnemonic::XAA | Mnemonic::LXA | Mnemonic::LAS | Mnemonic::SBX => self.read_instruction(bus, e),
            Mnemonic::STA | Mnemonic::STX | Mnemonic::STY | Mnemonic::SAX | Mnemonic::SHA
            | Mnemonic::SHX | Mnemonic::SHY | Mnemonic::TAS => self.store_instruction(bus, e),
            Mnemonic::ASL | Mnemonic::LSR | Mnemonic::ROL | Mnemonic::ROR | Mnemonic::INC
            | Mnemonic::DEC | Mnemonic::SLO | Mnemonic::RLA | Mnemonic::SRE | Mnemonic::RRA
            | Mnemonic::DCP | Mnemonic::ISC => self.modify_instruction(bus, e),
            Mnemonic::BCC | Mnemonic::BCS | Mnemonic::BNE | Mnemonic::BEQ | Mnemonic::BPL
            | Mnemonic::BMI | Mnemonic::BVC | Mnemonic::BVS => self.branch_instruction(bus, e),
            Mnemonic::JMP | Mnemonic::JSR | Mnemonic::RTS | Mnemonic::RTI | Mnemonic::BRK => self.control_instruction(bus, e),
            Mnemonic::PHA | Mnemonic::PHP | Mnemonic::PLA | Mnemonic::PLP => self.stack_instruction(bus, e),
            Mnemonic::JAM => self.jammed = true,
            Mnemonic::NOP => {
                if e.charge_on_crossing {
                    let _ = self.resolve(bus, e.mode, e.charge_on_crossing);
                }
                self.advance_past(e);
            },
            _ => {
                self.implied(op);
                self.advance_past(e);
            },
        }
    }

    pub fn attach_debugger(&mut self, debugger: Debugger)
        ensures
            *final(self) == (CPU { debugger: Some(debugger), ..*old(self) }),
    {
        self.debugger = Some(debugger);
    }

    pub fn detach_debugger(&mut self)
        ensures
            *final(self) == (CPU { debugger: None, ..*old(self) }),
    {
        self.debugger = None;
    }

    /// A snapshot of the registers and the next instruction, peeked from `bus`.
    pub fn current_state<B: Bus16>(&self, bus: &B) -> (r: ExecutionState)
        ensures
            r == snapshot(*self, *bus),
    {
        ExecutionState::new(self, bus)
    }

    /// PC from the reset vector, S = 0xFD, I set, seven cycles; a jammed CPU runs again.
    pub fn reset<B: Bus16>(&mut self, bus: &mut B)
        ensures
            *final(self) == (CPU {
                pc: read_word_spec(*old(bus), RESET_VECTOR),
                s: 0xFD,
                irq_disable: true,
                jammed: false,
                ..*old(self)
            }).add_cycles(7),
            !final(self).jammed,
            *final(bus) == after_read_word(*old(bus), RESET_VECTOR),
    {
        self.jammed = false;
        self.pc = bus.read_word(RESET_VECTOR);
        self.s = 0xFD;
        self.irq_disable = true;
        self.add_total_cycles(7);
    }

    /// Runs one instruction (with any interrupt taken before it) and returns
    /// the cycles it took. A jammed CPU does nothing and reports one cycle.
    #[verifier::rlimit(40)]
    pub fn execute_instruction<B: Bus16>(&mut self, bus: &mut B) -> (r: u64)
        ensures
            old(self).jammed ==> r == 1 && *final(self) == *old(self) && *final(bus) == *old(bus),
            !old(self).jammed ==> {
                let (c, b) = old(self).detached().step_spec(*old(bus));
                &&& *final(bus) == b
                &&& *final(self) == (CPU { debugger: final(self).debugger, ..c })
                &&& r == c.total_cycles.wrapping_sub(old(self).total_cycles)
                &&& old(self).recorded(*final(self), snapshot(*old(self), *old(bus)))
            },
    {
        if self.jammed {
            return 1;
        }
        let state = ExecutionState::new(self, bus);
        let debugger = self.debugger.take();
        let cycles_at_start = self.total_cycles;
        self.step(bus);
        match debugger {
            Some(mut debugger) => {
                debugger.record_state(state);
                self.debugger = Some(debugger);
            },
            None => self.debugger = None,
        }
        self.total_cycles.wrapping_sub(cycles_at_start)
    }

    fn step<B: Bus16>(&mut self, bus: &mut B)
        ensures
            (*final(self), *final(bus)) == old(self).step_spec(*old(bus)),
    {
        reveal(CPU::step_spec);
        if self.nmi && !self.last_nmi {
            self.interrupt(bus, NMI_VECTOR, false, 7);
        }
        self.last_nmi = self.nmi;
        if self.irq && !self.irq_disable {
            self.interrupt(bus, IRQ_VECTOR, false, 7);
        }
        let opcode = bus.read_byte(self.pc);
        let e = decode_opcode(opcode);
        self.perform(bus, e);
    }
}

} // verus!
