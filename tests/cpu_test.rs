use nes::bus::{Bus16, FlatMemory};
use nes::cpu::CPU;
use nes::debugging::{Debugger, ExecutionState};
use nes::disassembly::{AddressingMode, Instruction, Mnemonic};

fn run_program(program: &[u8], steps: usize) -> (CPU, FlatMemory) {
    let mut memory = FlatMemory::new();
    memory.load_code(program, 0, Some(0));
    let mut cpu = CPU::new();
    for _ in 0..steps {
        cpu.execute_instruction(&mut memory);
    }
    (cpu, memory)
}

#[test]
fn cpu_test_two_plus_two() {
    let program = vec![
        0xA9, 0x02, // LDA #2
        0x69, 0x02, // ADC #2
        0x8D, 0x00, 0x02, // STA $0200
    ];

    let mut memory = FlatMemory::new();
    memory.load_code(&program, 0, Some(0));

    let mut cpu = CPU::new();
    cpu.reset(&mut memory);
    for _ in 0..3 {
        cpu.execute_instruction(&mut memory);
    }

    assert_eq!(memory.read_byte(0x0200), 4);
}

#[test]
fn two_plus_two_leaves_flags_clear() {
    let (cpu, mut memory) = run_program(&[0xA9, 0x02, 0x69, 0x02, 0x8D, 0x00, 0x02], 3);
    assert_eq!(memory.read_byte(0x0200), 4);
    assert_eq!(cpu.a, 4);
    assert!(!cpu.carry && !cpu.overflow && !cpu.zero && !cpu.negative);
    assert_eq!(cpu.pc, 7);
    assert_eq!(cpu.total_cycles, 2 + 2 + 4);
}

#[test]
fn adc_sets_carry_and_overflow() {
    // LDA #$7F; ADC #$01 -> $80, signed overflow, no carry.
    let (cpu, _) = run_program(&[0xA9, 0x7F, 0x69, 0x01], 2);
    assert_eq!(cpu.a, 0x80);
    assert!(cpu.overflow && cpu.negative && !cpu.carry && !cpu.zero);
    // LDA #$FF; ADC #$01 -> $00 with carry, no overflow.
    let (cpu, _) = run_program(&[0xA9, 0xFF, 0x69, 0x01], 2);
    assert_eq!(cpu.a, 0x00);
    assert!(cpu.carry && cpu.zero && !cpu.overflow && !cpu.negative);
}

#[test]
fn sbc_borrows_when_carry_clear() {
    // SEC; LDA #$05; SBC #$03 -> 2, carry stays set (no borrow).
    let (cpu, _) = run_program(&[0x38, 0xA9, 0x05, 0xE9, 0x03], 3);
    assert_eq!(cpu.a, 2);
    assert!(cpu.carry);
    // CLC; LDA #$05; SBC #$03 -> 1 (borrow taken).
    let (cpu, _) = run_program(&[0x18, 0xA9, 0x05, 0xE9, 0x03], 3);
    assert_eq!(cpu.a, 1);
    // SEC; LDA #$03; SBC #$05 -> $FE, borrow.
    let (cpu, _) = run_program(&[0x38, 0xA9, 0x03, 0xE9, 0x05], 3);
    assert_eq!(cpu.a, 0xFE);
    assert!(!cpu.carry && cpu.negative);
}

#[test]
fn compare_sets_carry_zero_negative() {
    // LDA #$10; CMP #$10
    let (cpu, _) = run_program(&[0xA9, 0x10, 0xC9, 0x10], 2);
    assert!(cpu.carry && cpu.zero && !cpu.negative);
    assert_eq!(cpu.a, 0x10);
    // LDA #$10; CMP #$20 -> $F0
    let (cpu, _) = run_program(&[0xA9, 0x10, 0xC9, 0x20], 2);
    assert!(!cpu.carry && !cpu.zero && cpu.negative);
}

#[test]
fn shifts_move_bits_through_carry() {
    // LDA #$81; ASL A -> $02, C=1
    let (cpu, _) = run_program(&[0xA9, 0x81, 0x0A], 2);
    assert_eq!(cpu.a, 0x02);
    assert!(cpu.carry);
    // SEC; LDA #$01; ROR A -> $80, C=1
    let (cpu, _) = run_program(&[0x38, 0xA9, 0x01, 0x6A], 3);
    assert_eq!(cpu.a, 0x80);
    assert!(cpu.carry && cpu.negative);
    // CLC; LDA #$80; ROL A -> $00, C=1, Z=1
    let (cpu, _) = run_program(&[0x18, 0xA9, 0x80, 0x2A], 3);
    assert_eq!(cpu.a, 0x00);
    assert!(cpu.carry && cpu.zero);
}

#[test]
fn zero_page_x_wraps_within_page_zero() {
    // LDX #$10; LDA $F8,X reads $08, not $0108.
    let mut memory = FlatMemory::new();
    memory.load_code(&[0xA2, 0x10, 0xB5, 0xF8], 0x0400, Some(0x0400));
    memory.write_byte(0x0008, 0x42);
    memory.write_byte(0x0108, 0x99);
    let mut cpu = CPU::new();
    cpu.reset(&mut memory);
    cpu.execute_instruction(&mut memory);
    cpu.execute_instruction(&mut memory);
    assert_eq!(cpu.a, 0x42);
}

#[test]
fn jmp_indirect_page_wrap_bug() {
    let mut memory = FlatMemory::new();
    memory.load_code(&[0x6C, 0xFF, 0x02], 0x0400, Some(0x0400));
    memory.write_byte(0x02FF, 0x34);
    memory.write_byte(0x0200, 0x12);
    memory.write_byte(0x0300, 0x56);
    let mut cpu = CPU::new();
    cpu.reset(&mut memory);
    cpu.execute_instruction(&mut memory);
    assert_eq!(cpu.pc, 0x1234);
}

#[test]
fn rti_pulls_status_then_return_address() {
    // LDA #$AA; PHA; LDA #$FF; PHA; LDA #$20; PHA; RTI
    let program = [0xA9, 0xAA, 0x48, 0xA9, 0xFF, 0x48, 0xA9, 0x20, 0x48, 0x40];
    let mut memory = FlatMemory::new();
    memory.load_code(&program, 0x0400, Some(0x0400));
    let mut cpu = CPU::new();
    cpu.reset(&mut memory);
    for _ in 0..7 {
        cpu.execute_instruction(&mut memory);
    }
    assert_eq!(cpu.pc, 0xAAFF);
    assert_eq!(cpu.status_register(), 0x20);
    assert_eq!(cpu.s, 0xFD);
}

#[test]
fn branch_timing() {
    // LDA #$00 (Z=1); BEQ +2: taken, same page -> 3 cycles.
    let (cpu, _) = run_program(&[0xA9, 0x00, 0xF0, 0x02], 1);
    let mut memory = FlatMemory::new();
    memory.load_code(&[0xA9, 0x00, 0xF0, 0x02], 0, Some(0));
    let mut c = CPU::new();
    c.execute_instruction(&mut memory);
    assert_eq!(c.execute_instruction(&mut memory), 3);
    assert_eq!(c.pc, 0x0006);
    // Not taken: 2 cycles.
    let mut memory = FlatMemory::new();
    memory.load_code(&[0xA9, 0x01, 0xF0, 0x02], 0, Some(0));
    let mut c = CPU::new();
    c.execute_instruction(&mut memory);
    assert_eq!(c.execute_instruction(&mut memory), 2);
    assert_eq!(c.pc, 0x0004);
    // Taken across a page: BNE -4 at $0100 lands on $00FE: 4 cycles.
    let mut memory = FlatMemory::new();
    memory.load_code(&[0xD0, 0xFC], 0x0100, Some(0x0100));
    let mut c = CPU::new();
    c.reset(&mut memory);
    assert!(!c.zero);
    assert_eq!(c.execute_instruction(&mut memory), 4);
    assert_eq!(c.pc, 0x00FE);
    assert_eq!(cpu.a, 0);
}

#[test]
fn absolute_x_read_pays_for_page_crossing() {
    // LDX #$01; LDA $12FF,X -> 5 cycles; STA $12FF,X -> 5 cycles either way.
    let mut memory = FlatMemory::new();
    memory.load_code(&[0xA2, 0x01, 0xBD, 0xFF, 0x12, 0x9D, 0xFF, 0x12], 0, Some(0));
    let mut cpu = CPU::new();
    cpu.execute_instruction(&mut memory);
    assert_eq!(cpu.execute_instruction(&mut memory), 5);
    assert_eq!(cpu.execute_instruction(&mut memory), 5);
}

#[test]
fn stack_round_trips() {
    // LDA #$5A; PHA; LDA #$00; PLA
    let (cpu, _) = run_program(&[0xA9, 0x5A, 0x48, 0xA9, 0x00, 0x68], 4);
    assert_eq!(cpu.a, 0x5A);
    assert_eq!(cpu.s, 0);
    // SEC; SED; PHP; CLC; CLD; PLP
    let (cpu, memory) = run_program(&[0x38, 0xF8, 0x08, 0x18, 0xD8, 0x28], 6);
    assert!(cpu.carry && cpu.decimal_mode && cpu.irq_disable);
    // Pushed status has bits 5 and 4 set.
    assert_eq!(memory.bytes[0x0100], 0x20 | 0x10 | 0x08 | 0x04 | 0x01);
}

#[test]
fn jsr_rts_returns_after_call() {
    // $0000: JSR $0010; NOP ... $0010: INX; RTS
    let mut program = vec![0x20, 0x10, 0x00, 0xEA];
    program.resize(0x10, 0xEA);
    program.extend_from_slice(&[0xE8, 0x60]);
    let mut memory = FlatMemory::new();
    memory.load_code(&program, 0, Some(0));
    let mut cpu = CPU::new();
    cpu.reset(&mut memory);
    let s = cpu.s;
    assert_eq!(cpu.execute_instruction(&mut memory), 6);
    assert_eq!(cpu.pc, 0x0010);
    cpu.execute_instruction(&mut memory);
    assert_eq!(cpu.execute_instruction(&mut memory), 6);
    assert_eq!(cpu.pc, 0x0003);
    assert_eq!(cpu.s, s);
    assert_eq!(cpu.x, 1);
}

#[test]
fn brk_pushes_and_jumps_through_irq_vector() {
    let mut memory = FlatMemory::new();
    memory.load_code(&[0x00], 0x0400, Some(0x0400));
    memory.write_word(0xFFFE, 0x8000);
    let mut cpu = CPU::new();
    cpu.reset(&mut memory);
    assert_eq!(cpu.execute_instruction(&mut memory), 7);
    assert_eq!(cpu.pc, 0x8000);
    assert_eq!(memory.read_byte(0x01FD), 0x04);
    assert_eq!(memory.read_byte(0x01FC), 0x02);
    assert_eq!(memory.read_byte(0x01FB) & 0x30, 0x30);
    assert!(cpu.irq_disable);
}

#[test]
fn nmi_is_taken_on_rising_edge_only() {
    let mut memory = FlatMemory::new();
    memory.load_code(&[0xEA, 0xEA, 0xEA], 0x0400, Some(0x0400));
    memory.write_word(0xFFFA, 0x0600);
    memory.write_byte(0x0600, 0xEA);
    memory.write_byte(0x0601, 0xEA);
    let mut cpu = CPU::new();
    cpu.reset(&mut memory);
    cpu.nmi = true;
    // Interrupt (7) then the NOP at the handler (2).
    assert_eq!(cpu.execute_instruction(&mut memory), 9);
    assert_eq!(cpu.pc, 0x0601);
    // The line is still high: no second interrupt.
    assert_eq!(cpu.execute_instruction(&mut memory), 2);
    assert_eq!(cpu.pc, 0x0602);
    // Pushed status has B clear.
    assert_eq!(memory.read_byte(0x01FB) & 0x10, 0);
}

#[test]
fn irq_waits_for_interrupt_disable_clear() {
    let mut memory = FlatMemory::new();
    memory.load_code(&[0xEA, 0x58, 0xEA], 0x0400, Some(0x0400));
    memory.write_word(0xFFFE, 0x0700);
    memory.write_byte(0x0700, 0xEA);
    let mut cpu = CPU::new();
    cpu.reset(&mut memory);
    cpu.irq = true;
    cpu.execute_instruction(&mut memory);
    assert_eq!(cpu.pc, 0x0401);
    cpu.execute_instruction(&mut memory);
    assert_eq!(cpu.pc, 0x0402);
    assert_eq!(cpu.execute_instruction(&mut memory), 9);
    assert_eq!(cpu.pc, 0x0701);
}

#[test]
fn jam_halts_for_good() {
    let (mut cpu, mut memory) = run_program(&[0xA9, 0x01, 0x02, 0xA9, 0x05], 2);
    assert!(cpu.jammed);
    let pc = cpu.pc;
    assert_eq!(cpu.execute_instruction(&mut memory), 1);
    assert_eq!(cpu.pc, pc);
    assert_eq!(cpu.a, 1);
}

#[test]
fn reset_reads_vector_and_sets_stack() {
    let mut memory = FlatMemory::new();
    memory.write_word(0xFFFC, 0xC000);
    let mut cpu = CPU::new();
    cpu.reset(&mut memory);
    assert_eq!(cpu.pc, 0xC000);
    assert_eq!(cpu.s, 0xFD);
    assert!(cpu.irq_disable);
    assert_eq!(cpu.total_cycles, 7);
}

#[test]
fn illegal_read_modify_write_compose() {
    // LDA #$03; STA $10; LDA #$01; DCP $10 -> M=2, compare 1 with 2: C=0.
    let (cpu, mut memory) = run_program(&[0xA9, 0x03, 0x85, 0x10, 0xA9, 0x01, 0xC7, 0x10], 4);
    assert_eq!(memory.read_byte(0x10), 0x02);
    assert!(!cpu.carry && cpu.negative);
    // LAX #imm is not used; LAX zero page loads A and X.
    let (cpu, _) = run_program(&[0xA9, 0x77, 0x85, 0x20, 0xA7, 0x20], 3);
    assert_eq!(cpu.x, 0x77);
}

#[test]
fn debugger_keeps_latest_states() {
    let mut memory = FlatMemory::new();
    memory.load_code(&[0xE8; 30], 0, Some(0));
    let mut cpu = CPU::new();
    cpu.attach_debugger(Debugger::new());
    for _ in 0..25 {
        cpu.execute_instruction(&mut memory);
    }
    let debugger = cpu.debugger.as_ref().unwrap();
    assert_eq!(debugger.states.len(), 20);
    assert_eq!(debugger.states[0].pc, 5);
    assert_eq!(debugger.states[19].pc, 24);
    assert_eq!(debugger.states[19].x, 24);
    cpu.detach_debugger();
    assert!(cpu.debugger.is_none());
}

#[test]
fn current_state_peeks_next_instruction() {
    let mut memory = FlatMemory::new();
    memory.load_code(&[0xAD, 0x34, 0x12], 0, Some(0));
    let cpu = CPU::new();
    let state = cpu.current_state(&memory);
    assert_eq!(state.next_instruction.opcode, 0xAD);
    assert_eq!(state.next_instruction.operand1, 0x34);
    assert_eq!(state.next_instruction.operand2, 0x12);
    assert_eq!(state.p, 0x24);
}

#[test]
fn disassembly_table() {
    let i = Instruction::new(0x6C, 0xFF, 0x02);
    assert_eq!(i.mnemonic(), Mnemonic::JMP);
    assert_eq!(i.addressing_mode(), AddressingMode::Indirect);
    assert_eq!(i.length(), 3);
    assert!(!i.illegal());
    let i = Instruction::new(0xA7, 0x10, 0);
    assert_eq!(i.mnemonic(), Mnemonic::LAX);
    assert_eq!(i.addressing_mode(), AddressingMode::ZeroPage);
    assert_eq!(i.length(), 2);
    assert!(i.illegal());
    assert_eq!(Instruction::new(0x0A, 0, 0).length(), 1);
}

#[test]
fn log_line_matches_golden_format() {
    let state = ExecutionState {
        next_instruction: Instruction::new(0x4C, 0xF5, 0xC5),
        a: 0,
        x: 0,
        y: 0,
        p: 0x24,
        s: 0xFD,
        pc: 0xC000,
        cycle_number: 7,
    };
    let line = String::from_utf8(state.log_line()).unwrap();
    assert_eq!(
        line,
        "C000  4C F5 C5  JMP $C5F5                       A:00 X:00 Y:00 P:24 SP:FD CYC:7"
    );
}

#[test]
fn disassembly_text_marks_illegal_opcodes() {
    let text = String::from_utf8(Instruction::new(0x04, 0x10, 0x00).text()).unwrap();
    assert_eq!(text, "04 10    *NOP $10");
    let text = String::from_utf8(Instruction::new(0xB1, 0x33, 0x00).text()).unwrap();
    assert_eq!(text, "B1 33     LDA ($33),Y");
    let text = String::from_utf8(Instruction::new(0xBE, 0x00, 0x07).text()).unwrap();
    assert_eq!(text, "BE 00 07  LDX $0700,Y");
    let text = String::from_utf8(Instruction::new(0x0A, 0x00, 0x00).text()).unwrap();
    assert_eq!(text, "0A        ASL A");
}

#[test]
fn instructions_compare_only_used_operands() {
    assert!(Instruction::new(0xEA, 0x01, 0x02) == Instruction::new(0xEA, 0x03, 0x04));
    assert!(Instruction::new(0xA9, 0x01, 0x02) == Instruction::new(0xA9, 0x01, 0x09));
    assert!(Instruction::new(0xA9, 0x01, 0x02) != Instruction::new(0xA9, 0x02, 0x02));
    assert!(Instruction::new(0x4C, 0x01, 0x02) != Instruction::new(0x4C, 0x01, 0x03));
}

#[test]
fn execution_states_compare_fieldwise() {
    let mut memory = FlatMemory::new();
    memory.load_code(&[0xEA, 0x55], 0, Some(0));
    let cpu = CPU::new();
    let a = cpu.current_state(&memory);
    memory.write_byte(0x0001, 0x66);
    let b = cpu.current_state(&memory);
    assert!(a == b);
    let mut other = CPU::new();
    other.a = 1;
    assert!(a != other.current_state(&memory));
}

#[test]
fn flags_survive_instructions_that_do_not_touch_them() {
    // SEC; SED; LDA #$00; LDX #$05; STA $10; INX; NOP; JMP $000E; NOP at $000E
    let program = [0x38, 0xF8, 0xA9, 0x00, 0xA2, 0x05, 0x85, 0x10, 0xE8, 0xEA, 0x4C, 0x0D, 0x00, 0xEA];
    let (cpu, _) = run_program(&program, 9);
    assert!(cpu.carry && cpu.decimal_mode && cpu.irq_disable && !cpu.overflow);
    assert_eq!(cpu.x, 6);
    assert_eq!(cpu.pc, 0x000E);
}

#[test]
fn loads_and_transfers_set_n_and_z() {
    // LDA #$80; TAX; LDY #$00; INY; DEX
    let (cpu, _) = run_program(&[0xA9, 0x80, 0xAA, 0xA0, 0x00], 3);
    assert!(cpu.zero && !cpu.negative);
    let (cpu, _) = run_program(&[0xA9, 0x80, 0xAA], 2);
    assert!(cpu.negative && !cpu.zero);
    assert_eq!(cpu.x, 0x80);
    let (cpu, _) = run_program(&[0xA2, 0x01, 0xCA], 2);
    assert!(cpu.zero && cpu.x == 0);
}

#[test]
fn las_and_sbx_set_n_and_z_from_result() {
    // LDA #$05; LDX #$07; SBX #$05 -> X = 0, Z = 1, C = 1.
    let (cpu, _) = run_program(&[0xA9, 0x05, 0xA2, 0x07, 0xCB, 0x05], 3);
    assert_eq!(cpu.x, 0);
    assert!(cpu.zero && cpu.carry && !cpu.negative);
    // LDX #$00; TXS; LDA #$FF; LAS $0200,Y -> A = X = S = 0, Z = 1.
    let (cpu, _) = run_program(&[0xA2, 0x00, 0x9A, 0xA9, 0xFF, 0xBB, 0x00, 0x02], 4);
    assert_eq!(cpu.a, 0);
    assert_eq!(cpu.s, 0);
    assert!(cpu.zero && !cpu.negative);
}

#[test]
fn reset_recovers_from_jam() {
    let (mut cpu, mut memory) = run_program(&[0x02], 1);
    assert!(cpu.jammed);
    cpu.reset(&mut memory);
    assert!(!cpu.jammed);
    assert_eq!(cpu.pc, 0);
}

#[test]
fn disassembly_agrees_with_execution() {
    assert_eq!(Instruction::new(0x99, 0x00, 0x02).addressing_mode(), AddressingMode::AbsoluteY);
    assert_eq!(Instruction::new(0x7C, 0x00, 0x02).addressing_mode(), AddressingMode::AbsoluteX);
    assert_eq!(Instruction::new(0x0C, 0x00, 0x02).length(), 3);
    let text = String::from_utf8(Instruction::new(0x99, 0x00, 0x02).text()).unwrap();
    assert_eq!(text, "99 00 02  STA $0200,Y");
}
