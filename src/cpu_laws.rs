use vstd::prelude::*;
use crate::bus::{after_read_word, read_word_spec, word, Bus16, FlatMemory};
use crate::cpu::{branch_target, crosses_page, stack_address, CPU};
use crate::disassembly::Mnemonic;
use crate::opcodes::{opcode_table, Opcode};

verus! {

/// Zero-page indexing wraps within page zero: the effective address of
/// `LDA b,X` (opcode $B5) is `(b + X) mod 256`, so its high byte is zero.
pub proof fn lemma_zero_page_x_wraps<B: Bus16>(cpu: CPU, bus: B)
    ensures
        ({
            let e = opcode_table(0xB5);
            let b = bus.read_spec(cpu.pc.wrapping_add(1));
            let (_, _, ea) = cpu.resolve_spec(bus, e.mode, e.charge_on_crossing);
            &&& e.operation == Mnemonic::LDA
            &&& ea as int == (b as int + cpu.x as int) % 256
            &&& ea < 0x100
        }),
{
}

/// `JMP ($xxFF)` (opcode $6C) takes the high byte of its target from `$xx00`.
pub proof fn lemma_indirect_jump_page_wrap<B: Bus16>(cpu: CPU, bus: B)
    ensures
        ({
            let e = opcode_table(0x6C);
            let pc1 = cpu.pc.wrapping_add(1);
            let pointer = read_word_spec(bus, pc1);
            let b1 = after_read_word(bus, pc1);
            let (_, _, target) = cpu.resolve_spec(bus, e.mode, e.charge_on_crossing);
            &&& e.operation == Mnemonic::JMP
            &&& pointer % 256 == 0xFF ==> target == word(
                b1.read_spec(pointer),
                b1.after_read(pointer).read_spec((pointer - 0xFF) as u16),
            )
        }),
{
    let pc1 = cpu.pc.wrapping_add(1);
    let pointer = read_word_spec(bus, pc1);
    if pointer % 256 == 0xFF {
        assert(pointer & 0xFF00 | pointer.wrapping_add(1) & 0x00FF == (pointer - 0xFF) as u16)
            by (bit_vector)
            requires
                pointer % 256 == 0xFF,
        ;
    }
}

/// A branch not taken costs its base cycles; a taken one costs one more, and
/// one more again when the target lies on another page than the next instruction.
pub proof fn lemma_branch_timing<B: Bus16>(cpu: CPU, bus: B, e: Opcode)
    requires
        e.operation == Mnemonic::BCC || e.operation == Mnemonic::BCS || e.operation
            == Mnemonic::BNE || e.operation == Mnemonic::BEQ || e.operation == Mnemonic::BPL
            || e.operation == Mnemonic::BMI || e.operation == Mnemonic::BVC || e.operation
            == Mnemonic::BVS,
    ensures
        ({
            let next = cpu.pc.wrapping_add(e.length);
            let target = branch_target(next, bus.read_spec(next.wrapping_sub(1)));
            let extra: u64 = if !cpu.branch_taken(e.operation) {
                0
            } else if crosses_page(next, target) {
                2
            } else {
                1
            };
            &&& cpu.perform_spec(bus, e).0.total_cycles == cpu.total_cycles.wrapping_add(extra).wrapping_add(e.cycles)
            &&& cpu.perform_spec(bus, e).0.pc == if cpu.branch_taken(e.operation) { target } else { next }
        }),
{
    reveal(CPU::perform_spec);
    if !cpu.branch_taken(e.operation) {
        assert(cpu.total_cycles.wrapping_add(0) == cpu.total_cycles);
    }
}

proof fn lemma_status_round_trip(cpu: CPU, brk: bool)
    ensures
        ({
            let c = cpu.with_status(cpu.status_byte(brk));
            c.carry == cpu.carry && c.zero == cpu.zero && c.irq_disable == cpu.irq_disable
                && c.decimal_mode == cpu.decimal_mode && c.overflow == cpu.overflow && c.negative
                == cpu.negative
        }),
{
    let (n, v, b, d, i, z, c) = (
        cpu.negative,
        cpu.overflow,
        brk,
        cpu.decimal_mode,
        cpu.irq_disable,
        cpu.zero,
        cpu.carry,
    );
    let p: u8 = ((if n { 0x80u8 } else { 0u8 }) | (if v { 0x40u8 } else { 0u8 }) | 0x20u8 | (if b {
        0x10u8
    } else {
        0u8
    }) | (if d { 0x08u8 } else { 0u8 }) | (if i { 0x04u8 } else { 0u8 }) | (if z { 0x02u8 } else {
        0u8
    }) | (if c { 0x01u8 } else { 0u8 }));
    assert(p == ((if n { 0x80u8 } else { 0u8 }) + (if v { 0x40u8 } else { 0u8 }) + 0x20u8 + (if b {
        0x10u8
    } else {
        0u8
    }) + (if d { 0x08u8 } else { 0u8 }) + (if i { 0x04u8 } else { 0u8 }) + (if z { 0x02u8 } else {
        0u8
    }) + (if c { 0x01u8 } else { 0u8 }))) by (bit_vector)
        requires
            p == ((if n { 0x80u8 } else { 0u8 }) | (if v { 0x40u8 } else { 0u8 }) | 0x20u8 | (if b {
                0x10u8
            } else {
                0u8
            }) | (if d { 0x08u8 } else { 0u8 }) | (if i { 0x04u8 } else { 0u8 }) | (if z {
                0x02u8
            } else {
                0u8
            }) | (if c { 0x01u8 } else { 0u8 })),
    ;
    assert((p & 0x80 != 0) == n && (p & 0x40 != 0) == v && (p & 0x08 != 0) == d && (p & 0x04 != 0)
        == i && (p & 0x02 != 0) == z && (p & 0x01 != 0) == c) by (bit_vector)
        requires
            p == ((if n { 0x80u8 } else { 0u8 }) | (if v { 0x40u8 } else { 0u8 }) | 0x20u8 | (if b {
                0x10u8
            } else {
                0u8
            }) | (if d { 0x08u8 } else { 0u8 }) | (if i { 0x04u8 } else { 0u8 }) | (if z {
                0x02u8
            } else {
                0u8
            }) | (if c { 0x01u8 } else { 0u8 })),
    ;
}

/// PHA then PLA leaves A and S as they were.
pub proof fn lemma_push_pull_accumulator(cpu: CPU, memory: FlatMemory)
    ensures
        ({
            let (c1, m1) = cpu.perform_spec(memory, opcode_table(0x48));
            let (c2, m2) = c1.perform_spec(m1, opcode_table(0x68));
            c2.a == cpu.a && c2.s == cpu.s
        }),
{
    broadcast use vstd::array::group_array_axioms;
    reveal(CPU::perform_spec);
    assert(cpu.s.wrapping_sub(1).wrapping_add(1) == cpu.s);
}

/// PHP then PLP leaves every flag as it was (B and bit 5 are not flags).
pub proof fn lemma_push_pull_status(cpu: CPU, memory: FlatMemory)
    ensures
        ({
            let (c1, m1) = cpu.perform_spec(memory, opcode_table(0x08));
            let (c2, m2) = c1.perform_spec(m1, opcode_table(0x28));
            &&& c2.carry == cpu.carry && c2.zero == cpu.zero && c2.irq_disable == cpu.irq_disable
            &&& c2.decimal_mode == cpu.decimal_mode && c2.overflow == cpu.overflow
            &&& c2.negative == cpu.negative && c2.s == cpu.s
        }),
{
    broadcast use vstd::array::group_array_axioms;
    reveal(CPU::perform_spec);
    lemma_status_round_trip(cpu, true);
    assert(cpu.s.wrapping_sub(1).wrapping_add(1) == cpu.s);
}

/// JSR, then a body that leaves S and the two pushed bytes as it found them,
/// then RTS: execution resumes right after the JSR, with S restored.
pub proof fn lemma_call_return(cpu: CPU, memory: FlatMemory, body: CPU, body_memory: FlatMemory)
    ensures
        ({
            let (c1, m1) = cpu.perform_spec(memory, opcode_table(0x20));
            let high = stack_address(cpu.s);
            let low = stack_address(cpu.s.wrapping_sub(1));
            body.s == c1.s && body_memory.bytes@[high as int] == m1.bytes@[high as int]
                && body_memory.bytes@[low as int] == m1.bytes@[low as int] ==> {
                let (c2, m2) = body.perform_spec(body_memory, opcode_table(0x60));
                c2.pc == cpu.pc.wrapping_add(3) && c2.s == cpu.s
            }
        }),
{
    broadcast use vstd::array::group_array_axioms;
    reveal(CPU::perform_spec);
    let ret = cpu.pc.wrapping_add(3).wrapping_sub(1);
    assert(ret == (ret / 256) * 256 + ret % 256);
    assert(cpu.s.wrapping_sub(1).wrapping_sub(1).wrapping_add(1) == cpu.s.wrapping_sub(1));
    assert(cpu.s.wrapping_sub(1).wrapping_add(1) == cpu.s);
    assert(stack_address(cpu.s) != stack_address(cpu.s.wrapping_sub(1)));
}

/// The six processor flags.
#[derive(Debug, Clone, Copy, PartialEq, Eq, Structural)]
pub enum Flag {
    Carry,
    Zero,
    InterruptDisable,
    Decimal,
    Overflow,
    Negative,
}

pub open spec fn flag_value(cpu: CPU, f: Flag) -> bool {
    match f {
        Flag::Carry => cpu.carry,
        Flag::Zero => cpu.zero,
        Flag::InterruptDisable => cpu.irq_disable,
        Flag::Decimal => cpu.decimal_mode,
        Flag::Overflow => cpu.overflow,
        Flag::Negative => cpu.negative,
    }
}

/// Whether an operation may change flag `f`.
pub open spec fn touches_flag(op: Mnemonic, f: Flag) -> bool {
    match op {
        Mnemonic::PLP | Mnemonic::RTI => true,
        Mnemonic::ADC | Mnemonic::SBC | Mnemonic::RRA | Mnemonic::ISC | Mnemonic::ARR => f
            == Flag::Carry || f == Flag::Zero || f == Flag::Negative || f == Flag::Overflow,
        Mnemonic::BIT => f == Flag::Zero || f == Flag::Negative || f == Flag::Overflow,
        Mnemonic::CMP | Mnemonic::CPX | Mnemonic::CPY | Mnemonic::ASL | Mnemonic::LSR
        | Mnemonic::ROL | Mnemonic::ROR | Mnemonic::SLO | Mnemonic::RLA | Mnemonic::SRE
        | Mnemonic::DCP | Mnemonic::ANC | Mnemonic::ALR | Mnemonic::SBX => f == Flag::Carry || f
            == Flag::Zero || f == Flag::Negative,
        Mnemonic::AND | Mnemonic::ORA | Mnemonic::EOR | Mnemonic::LDA | Mnemonic::LDX
        | Mnemonic::LDY | Mnemonic::LAX | Mnemonic::XAA | Mnemonic::LXA | Mnemonic::INC
        | Mnemonic::DEC | Mnemonic::TAX | Mnemonic::TAY | Mnemonic::TXA | Mnemonic::TYA
        | Mnemonic::TSX | Mnemonic::INX | Mnemonic::INY | Mnemonic::DEX | Mnemonic::DEY
        | Mnemonic::PLA | Mnemonic::LAS => f == Flag::Zero || f == Flag::Negative,
        Mnemonic::CLC | Mnemonic::SEC => f == Flag::Carry,
        Mnemonic::CLD | Mnemonic::SED => f == Flag::Decimal,
        Mnemonic::CLI | Mnemonic::SEI | Mnemonic::BRK => f == Flag::InterruptDisable,
        Mnemonic::CLV => f == Flag::Overflow,
        _ => false,
    }
}

/// The CPU and bus after carrying out `ops` in order.
pub open spec fn run_spec<B: Bus16>(cpu: CPU, bus: B, ops: Seq<Opcode>) -> (CPU, B)
    decreases ops.len(),
{
    if ops.len() == 0 {
        (cpu, bus)
    } else {
        let (c, b) = cpu.perform_spec(bus, ops[0]);
        run_spec(c, b, ops.drop_first())
    }
}

proof fn lemma_flag_kept_read<B: Bus16>(cpu: CPU, bus: B, e: Opcode, f: Flag)
    requires
        !touches_flag(e.operation, f),
        e.operation matches (Mnemonic::ADC | Mnemonic::SBC | Mnemonic::AND | Mnemonic::ORA | Mnemonic::EOR | Mnemonic::BIT | Mnemonic::CMP | Mnemonic::CPX | Mnemonic::CPY | Mnemonic::LDA | Mnemonic::LDX | Mnemonic::LDY | Mnemonic::LAX | Mnemonic::ANC | Mnemonic::ALR | Mnemonic::ARR | Mnemonic::XAA | Mnemonic::LXA | Mnemonic::LAS | Mnemonic::SBX),
    ensures
        flag_value(cpu.perform_spec(bus, e).0, f) == flag_value(cpu, f),
{
    reveal(CPU::perform_spec);
}

proof fn lemma_flag_kept_store<B: Bus16>(cpu: CPU, bus: B, e: Opcode, f: Flag)
    requires
        !touches_flag(e.operation, f),
        e.operation matches (Mnemonic::STA | Mnemonic::STX | Mnemonic::STY | Mnemonic::SAX | Mnemonic::SHA | Mnemonic::SHX | Mnemonic::SHY | Mnemonic::TAS),
    ensures
        flag_value(cpu.perform_spec(bus, e).0, f) == flag_value(cpu, f),
{
    reveal(CPU::perform_spec);
}

proof fn lemma_flag_kept_modify<B: Bus16>(cpu: CPU, bus: B, e: Opcode, f: Flag)
    requires
        !touches_flag(e.operation, f),
        e.operation matches (Mnemonic::ASL | Mnemonic::LSR | Mnemonic::ROL | Mnemonic::ROR | Mnemonic::INC | Mnemonic::DEC | Mnemonic::SLO | Mnemonic::RLA | Mnemonic::SRE | Mnemonic::RRA | Mnemonic::DCP | Mnemonic::ISC),
    ensures
        flag_value(cpu.perform_spec(bus, e).0, f) == flag_value(cpu, f),
{
    reveal(CPU::perform_spec);
}

proof fn lemma_flag_kept_branch<B: Bus16>(cpu: CPU, bus: B, e: Opcode, f: Flag)
    requires
        !touches_flag(e.operation, f),
        e.operation matches (Mnemonic::BCC | Mnemonic::BCS | Mnemonic::BNE | Mnemonic::BEQ | Mnemonic::BPL | Mnemonic::BMI | Mnemonic::BVC | Mnemonic::BVS),
    ensures
        flag_value(cpu.perform_spec(bus, e).0, f) == flag_value(cpu, f),
{
    reveal(CPU::perform_spec);
}

proof fn lemma_flag_kept_control<B: Bus16>(cpu: CPU, bus: B, e: Opcode, f: Flag)
    requires
        !touches_flag(e.operation, f),
        e.operation matches (Mnemonic::JMP | Mnemonic::JSR | Mnemonic::RTS | Mnemonic::RTI | Mnemonic::BRK),
    ensures
        flag_value(cpu.perform_spec(bus, e).0, f) == flag_value(cpu, f),
{
    reveal(CPU::perform_spec);
}

proof fn lemma_flag_kept_stack<B: Bus16>(cpu: CPU, bus: B, e: Opcode, f: Flag)
    requires
        !touches_flag(e.operation, f),
        e.operation matches (Mnemonic::PHA | Mnemonic::PHP | Mnemonic::PLA | Mnemonic::PLP),
    ensures
        flag_value(cpu.perform_spec(bus, e).0, f) == flag_value(cpu, f),
{
    reveal(CPU::perform_spec);
}

proof fn lemma_flag_kept_other<B: Bus16>(cpu: CPU, bus: B, e: Opcode, f: Flag)
    requires
        !touches_flag(e.operation, f),
        !(e.operation matches (Mnemonic::ADC | Mnemonic::SBC | Mnemonic::AND | Mnemonic::ORA | Mnemonic::EOR | Mnemonic::BIT | Mnemonic::CMP | Mnemonic::CPX | Mnemonic::CPY | Mnemonic::LDA | Mnemonic::LDX | Mnemonic::LDY | Mnemonic::LAX | Mnemonic::ANC | Mnemonic::ALR | Mnemonic::ARR | Mnemonic::XAA | Mnemonic::LXA | Mnemonic::LAS | Mnemonic::SBX | Mnemonic::STA | Mnemonic::STX | Mnemonic::STY | Mnemonic::SAX | Mnemonic::SHA | Mnemonic::SHX | Mnemonic::SHY | Mnemonic::TAS | Mnemonic::ASL | Mnemonic::LSR | Mnemonic::ROL | Mnemonic::ROR | Mnemonic::INC | Mnemonic::DEC | Mnemonic::SLO | Mnemonic::RLA | Mnemonic::SRE | Mnemonic::RRA | Mnemonic::DCP | Mnemonic::ISC | Mnemonic::BCC | Mnemonic::BCS | Mnemonic::BNE | Mnemonic::BEQ | Mnemonic::BPL | Mnemonic::BMI | Mnemonic::BVC | Mnemonic::BVS | Mnemonic::JMP | Mnemonic::JSR | Mnemonic::RTS | Mnemonic::RTI | Mnemonic::BRK | Mnemonic::PHA | Mnemonic::PHP | Mnemonic::PLA | Mnemonic::PLP)),
    ensures
        flag_value(cpu.perform_spec(bus, e).0, f) == flag_value(cpu, f),
{
    reveal(CPU::perform_spec);
}

proof fn lemma_flag_untouched_by_one<B: Bus16>(cpu: CPU, bus: B, e: Opcode, f: Flag)
    requires
        !touches_flag(e.operation, f),
    ensures
        flag_value(cpu.perform_spec(bus, e).0, f) == flag_value(cpu, f),
{
    if e.operation matches (Mnemonic::ADC | Mnemonic::SBC | Mnemonic::AND | Mnemonic::ORA | Mnemonic::EOR | Mnemonic::BIT | Mnemonic::CMP | Mnemonic::CPX | Mnemonic::CPY | Mnemonic::LDA | Mnemonic::LDX | Mnemonic::LDY | Mnemonic::LAX | Mnemonic::ANC | Mnemonic::ALR | Mnemonic::ARR | Mnemonic::XAA | Mnemonic::LXA | Mnemonic::LAS | Mnemonic::SBX) {
        lemma_flag_kept_read(cpu, bus, e, f);
    } else if e.operation matches (Mnemonic::STA | Mnemonic::STX | Mnemonic::STY | Mnemonic::SAX | Mnemonic::SHA | Mnemonic::SHX | Mnemonic::SHY | Mnemonic::TAS) {
        lemma_flag_kept_store(cpu, bus, e, f);
    } else if e.operation matches (Mnemonic::ASL | Mnemonic::LSR | Mnemonic::ROL | Mnemonic::ROR | Mnemonic::INC | Mnemonic::DEC | Mnemonic::SLO | Mnemonic::RLA | Mnemonic::SRE | Mnemonic::RRA | Mnemonic::DCP | Mnemonic::ISC) {
        lemma_flag_kept_modify(cpu, bus, e, f);
    } else if e.operation matches (Mnemonic::BCC | Mnemonic::BCS | Mnemonic::BNE | Mnemonic::BEQ | Mnemonic::BPL | Mnemonic::BMI | Mnemonic::BVC | Mnemonic::BVS) {
        lemma_flag_kept_branch(cpu, bus, e, f);
    } else if e.operation matches (Mnemonic::JMP | Mnemonic::JSR | Mnemonic::RTS | Mnemonic::RTI | Mnemonic::BRK) {
        lemma_flag_kept_control(cpu, bus, e, f);
    } else if e.operation matches (Mnemonic::PHA | Mnemonic::PHP | Mnemonic::PLA | Mnemonic::PLP) {
        lemma_flag_kept_stack(cpu, bus, e, f);
    } else {
        lemma_flag_kept_other(cpu, bus, e, f);
    }
}

/// A sequence of instructions none of which touches flag `f` leaves it as it was.
pub proof fn lemma_flag_untouched<B: Bus16>(cpu: CPU, bus: B, ops: Seq<Opcode>, f: Flag)
    requires
        forall|k: int| 0 <= k < ops.len() ==> !touches_flag(#[trigger] ops[k].operation, f),
    ensures
        flag_value(run_spec(cpu, bus, ops).0, f) == flag_value(cpu, f),
    decreases ops.len(),
{
    if ops.len() > 0 {
        lemma_flag_untouched_by_one(cpu, bus, ops[0], f);
        let (c, b) = cpu.perform_spec(bus, ops[0]);
        assert forall|k: int| 0 <= k < ops.drop_first().len() implies !touches_flag(
            #[trigger] ops.drop_first()[k].operation,
            f,
        ) by {
            assert(ops.drop_first()[k] == ops[k + 1]);
        }
        lemma_flag_untouched(c, b, ops.drop_first(), f);
    }
}

/// Whether Z and N describe `v`: Z set iff it is zero, N equal to its bit 7.
pub open spec fn nz_describe(cpu: CPU, v: u8) -> bool {
    cpu.zero == (v == 0) && cpu.negative == (v & 0x80 != 0)
}

proof fn lemma_bit7(v: u8)
    ensures
        (v >= 0x80) == (v & 0x80 != 0),
{
    assert((v >= 0x80) == (v & 0x80 != 0)) by (bit_vector);
}

/// After an operation that writes A, X or Y, Z and N describe the value written.
pub proof fn lemma_nz_follow_written_register(cpu: CPU, op: Mnemonic, m: u8)
    ensures
        ({
            let c = cpu.read_op_spec(op, m);
            &&& (op == Mnemonic::ADC || op == Mnemonic::SBC || op == Mnemonic::AND || op
                == Mnemonic::ORA || op == Mnemonic::EOR || op == Mnemonic::LDA || op == Mnemonic::LAX
                || op == Mnemonic::ANC || op == Mnemonic::ALR || op == Mnemonic::ARR || op
                == Mnemonic::XAA || op == Mnemonic::LXA || op == Mnemonic::LAS) ==> nz_describe(c, c.a)
            &&& (op == Mnemonic::LDX || op == Mnemonic::LAX || op == Mnemonic::LXA || op
                == Mnemonic::LAS || op == Mnemonic::SBX) ==> nz_describe(c, c.x)
            &&& op == Mnemonic::LDY ==> nz_describe(c, c.y)
        }),
        ({
            let c = cpu.implied_spec(op);
            &&& (op == Mnemonic::TXA || op == Mnemonic::TYA) ==> nz_describe(c, c.a)
            &&& (op == Mnemonic::TAX || op == Mnemonic::TSX || op == Mnemonic::INX || op
                == Mnemonic::DEX) ==> nz_describe(c, c.x)
            &&& (op == Mnemonic::TAY || op == Mnemonic::INY || op == Mnemonic::DEY) ==> nz_describe(c, c.y)
        }),
        ({
            let r = cpu.modify_result(op, m);
            nz_describe(cpu.modify_spec(op, m), r)
        }),
{
    lemma_bit7(cpu.read_op_spec(op, m).a);
    lemma_bit7(cpu.read_op_spec(op, m).x);
    lemma_bit7(cpu.read_op_spec(op, m).y);
    lemma_bit7(cpu.implied_spec(op).a);
    lemma_bit7(cpu.implied_spec(op).x);
    lemma_bit7(cpu.implied_spec(op).y);
    lemma_bit7(cpu.modify_result(op, m));
}

/// Whether a step of `cpu` on `bus` takes no interrupt.
pub open spec fn no_interrupt(cpu: CPU) -> bool {
    !(cpu.nmi && !cpu.last_nmi) && !(cpu.irq && !cpu.irq_disable)
}

/// A step of `execute_instruction` that takes no interrupt and runs an
/// instruction that does not touch flag `f` leaves `f` as it was, on any bus.
pub proof fn lemma_step_keeps_flag<B: Bus16>(cpu: CPU, bus: B, f: Flag)
    requires
        no_interrupt(cpu),
        !touches_flag(opcode_table(bus.read_spec(cpu.pc)).operation, f),
    ensures
        flag_value(cpu.step_spec(bus).0, f) == flag_value(cpu, f),
{
    reveal(CPU::step_spec);
    let c = CPU { last_nmi: cpu.nmi, ..cpu };
    lemma_flag_untouched_by_one(c, bus.after_read(cpu.pc), opcode_table(bus.read_spec(cpu.pc)), f);
}

/// Without an interrupt, a step fetches the opcode at PC and carries it out.
pub proof fn lemma_step_without_interrupt<B: Bus16>(cpu: CPU, bus: B)
    requires
        no_interrupt(cpu),
    ensures
        cpu.step_spec(bus) == (CPU { last_nmi: cpu.nmi, ..cpu }).perform_spec(
            bus.after_read(cpu.pc),
            opcode_table(bus.read_spec(cpu.pc)),
        ),
{
    reveal(CPU::step_spec);
}

proof fn lemma_pha_effect<B: Bus16>(cpu: CPU, bus: B)
    ensures
        cpu.perform_spec(bus, opcode_table(0x48)) == (
            CPU { s: cpu.s.wrapping_sub(1), pc: cpu.pc.wrapping_add(1), ..cpu }.add_cycles(3),
            bus.after_write(stack_address(cpu.s), cpu.a),
        ),
{
    reveal(CPU::perform_spec);
}

proof fn lemma_pla_effect<B: Bus16>(cpu: CPU, bus: B)
    ensures
        ({
            let s = cpu.s.wrapping_add(1);
            let v = bus.read_spec(stack_address(s));
            cpu.perform_spec(bus, opcode_table(0x68)) == (
                CPU { a: v, s, pc: cpu.pc.wrapping_add(1), ..cpu }.nz(v).add_cycles(4),
                bus.after_read(stack_address(s)),
            )
        }),
{
    reveal(CPU::perform_spec);
}

/// Two steps of `execute_instruction` on flat memory running PHA then PLA,
/// with no interrupt and the pushed byte not landing on the PLA opcode,
/// leave A and S as they were and move PC past both.
pub proof fn lemma_step_push_pull_accumulator(cpu: CPU, memory: FlatMemory)
    requires
        no_interrupt(cpu),
        memory.bytes@[cpu.pc as int] == 0x48,
        memory.bytes@[cpu.pc.wrapping_add(1) as int] == 0x68,
        stack_address(cpu.s) != cpu.pc.wrapping_add(1),
    ensures
        ({
            let (c1, m1) = cpu.step_spec(memory);
            let (c2, m2) = c1.step_spec(m1);
            c2.a == cpu.a && c2.s == cpu.s && c2.pc == cpu.pc.wrapping_add(2)
        }),
{
    broadcast use vstd::array::group_array_axioms;
    lemma_step_without_interrupt(cpu, memory);
    let c = CPU { last_nmi: cpu.nmi, ..cpu };
    lemma_pha_effect(c, memory);
    let (c1, m1) = cpu.step_spec(memory);
    assert(m1.bytes@[c1.pc as int] == 0x68);
    lemma_step_without_interrupt(c1, m1);
    let d = CPU { last_nmi: c1.nmi, ..c1 };
    lemma_pla_effect(d, m1);
    assert(cpu.s.wrapping_sub(1).wrapping_add(1) == cpu.s);
    assert(cpu.pc.wrapping_add(1).wrapping_add(1) == cpu.pc.wrapping_add(2));
}

proof fn lemma_php_effect<B: Bus16>(cpu: CPU, bus: B)
    ensures
        cpu.perform_spec(bus, opcode_table(0x08)) == (
            CPU { s: cpu.s.wrapping_sub(1), pc: cpu.pc.wrapping_add(1), ..cpu }.add_cycles(3),
            bus.after_write(stack_address(cpu.s), cpu.status_byte(true)),
        ),
{
    reveal(CPU::perform_spec);
}

proof fn lemma_plp_effect<B: Bus16>(cpu: CPU, bus: B)
    ensures
        ({
            let s = cpu.s.wrapping_add(1);
            let p = bus.read_spec(stack_address(s));
            cpu.perform_spec(bus, opcode_table(0x28)) == (
                CPU { s, pc: cpu.pc.wrapping_add(1), ..cpu }.with_status(p).add_cycles(4),
                bus.after_read(stack_address(s)),
            )
        }),
{
    reveal(CPU::perform_spec);
}

/// Two steps of `execute_instruction` on flat memory running PHP then PLP,
/// with no interrupt and the pushed byte not landing on the PLP opcode,
/// leave every flag and S as they were and move PC past both.
pub proof fn lemma_step_push_pull_status(cpu: CPU, memory: FlatMemory)
    requires
        no_interrupt(cpu),
        memory.bytes@[cpu.pc as int] == 0x08,
        memory.bytes@[cpu.pc.wrapping_add(1) as int] == 0x28,
        stack_address(cpu.s) != cpu.pc.wrapping_add(1),
    ensures
        ({
            let (c1, m1) = cpu.step_spec(memory);
            let (c2, m2) = c1.step_spec(m1);
            &&& c2.carry == cpu.carry && c2.zero == cpu.zero && c2.irq_disable == cpu.irq_disable
            &&& c2.decimal_mode == cpu.decimal_mode && c2.overflow == cpu.overflow
            &&& c2.negative == cpu.negative && c2.s == cpu.s && c2.pc == cpu.pc.wrapping_add(2)
        }),
{
    broadcast use vstd::array::group_array_axioms;
    lemma_step_without_interrupt(cpu, memory);
    let c = CPU { last_nmi: cpu.nmi, ..cpu };
    lemma_php_effect(c, memory);
    let (c1, m1) = cpu.step_spec(memory);
    assert(m1.bytes@[c1.pc as int] == 0x28);
    lemma_status_round_trip(c1, true);
    lemma_step_without_interrupt(c1, m1);
    let d = CPU { last_nmi: c1.nmi, ..c1 };
    lemma_plp_effect(d, m1);
    assert(cpu.s.wrapping_sub(1).wrapping_add(1) == cpu.s);
    assert(cpu.pc.wrapping_add(1).wrapping_add(1) == cpu.pc.wrapping_add(2));
}

/// A step of `execute_instruction` on flat memory running JSR, steps that leave
/// S and the two pushed bytes as they found them, then a step running RTS:
/// execution resumes right after the JSR, with S restored.
pub proof fn lemma_step_call_return(cpu: CPU, memory: FlatMemory, body: CPU, body_memory: FlatMemory)
    requires
        no_interrupt(cpu),
        no_interrupt(body),
        memory.bytes@[cpu.pc as int] == 0x20,
        body_memory.bytes@[body.pc as int] == 0x60,
    ensures
        ({
            let (c1, m1) = cpu.step_spec(memory);
            let high = stack_address(cpu.s);
            let low = stack_address(cpu.s.wrapping_sub(1));
            body.s == c1.s && body_memory.bytes@[high as int] == m1.bytes@[high as int]
                && body_memory.bytes@[low as int] == m1.bytes@[low as int] ==> {
                let (c2, m2) = body.step_spec(body_memory);
                c2.pc == cpu.pc.wrapping_add(3) && c2.s == cpu.s
            }
        }),
{
    lemma_step_without_interrupt(cpu, memory);
    lemma_step_without_interrupt(body, body_memory);
    let c = CPU { last_nmi: cpu.nmi, ..cpu };
    let d = CPU { last_nmi: body.nmi, ..body };
    lemma_call_return(c, memory, d, body_memory);
}

} // verus!
