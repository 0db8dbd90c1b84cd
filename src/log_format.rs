use vstd::prelude::*;
use crate::debugging::ExecutionState;
use crate::disassembly::{mode_length, AddressingMode, Instruction, Mnemonic};

verus! {

/// The three ASCII letters of a mnemonic.
pub open spec fn mnemonic_text(m: Mnemonic) -> Seq<u8> {
    match m {
        Mnemonic::ADC => seq![0x41u8, 0x44u8, 0x43u8],
        Mnemonic::ALR => seq![0x41u8, 0x4Cu8, 0x52u8],
        Mnemonic::ANC => seq![0x41u8, 0x4Eu8, 0x43u8],
        Mnemonic::AND => seq![0x41u8, 0x4Eu8, 0x44u8],
        Mnemonic::ARR => seq![0x41u8, 0x52u8, 0x52u8],
        Mnemonic::ASL => seq![0x41u8, 0x53u8, 0x4Cu8],
        Mnemonic::BCC => seq![0x42u8, 0x43u8, 0x43u8],
        Mnemonic::BCS => seq![0x42u8, 0x43u8, 0x53u8],
        Mnemonic::BEQ => seq![0x42u8, 0x45u8, 0x51u8],
        Mnemonic::BIT => seq![0x42u8, 0x49u8, 0x54u8],
        Mnemonic::BMI => seq![0x42u8, 0x4Du8, 0x49u8],
        Mnemonic::BNE => seq![0x42u8, 0x4Eu8, 0x45u8],
        Mnemonic::BPL => seq![0x42u8, 0x50u8, 0x4Cu8],
        Mnemonic::BRK => seq![0x42u8, 0x52u8, 0x4Bu8],
        Mnemonic::BVC => seq![0x42u8, 0x56u8, 0x43u8],
        Mnemonic::BVS => seq![0x42u8, 0x56u8, 0x53u8],
        Mnemonic::CLC => seq![0x43u8, 0x4Cu8, 0x43u8],
        Mnemonic::CLD => seq![0x43u8, 0x4Cu8, 0x44u8],
        Mnemonic::CLI => seq![0x43u8, 0x4Cu8, 0x49u8],
        Mnemonic::CLV => seq![0x43u8, 0x4Cu8, 0x56u8],
        Mnemonic::CMP => seq![0x43u8, 0x4Du8, 0x50u8],
        Mnemonic::CPX => seq![0x43u8, 0x50u8, 0x58u8],
        Mnemonic::CPY => seq![0x43u8, 0x50u8, 0x59u8],
        Mnemonic::DCP => seq![0x44u8, 0x43u8, 0x50u8],
        Mnemonic::DEC => seq![0x44u8, 0x45u8, 0x43u8],
        Mnemonic::DEX => seq![0x44u8, 0x45u8, 0x58u8],
        Mnemonic::DEY => seq![0x44u8, 0x45u8, 0x59u8],
        Mnemonic::EOR => seq![0x45u8, 0x4Fu8, 0x52u8],
        Mnemonic::INC => seq![0x49u8, 0x4Eu8, 0x43u8],
        Mnemonic::INX => seq![0x49u8, 0x4Eu8, 0x58u8],
        Mnemonic::INY => seq![0x49u8, 0x4Eu8, 0x59u8],
        Mnemonic::ISC => seq![0x49u8, 0x53u8, 0x43u8],
        Mnemonic::JAM => seq![0x4Au8, 0x41u8, 0x4Du8],
        Mnemonic::JMP => seq![0x4Au8, 0x4Du8, 0x50u8],
        Mnemonic::JSR => seq![0x4Au8, 0x53u8, 0x52u8],
        Mnemonic::LAS => seq![0x4Cu8, 0x41u8, 0x53u8],
        Mnemonic::LAX => seq![0x4Cu8, 0x41u8, 0x58u8],
        Mnemonic::LDA => seq![0x4Cu8, 0x44u8, 0x41u8],
        Mnemonic::LDX => seq![0x4Cu8, 0x44u8, 0x58u8],
        Mnemonic::LDY => seq![0x4Cu8, 0x44u8, 0x59u8],
        Mnemonic::LSR => seq![0x4Cu8, 0x53u8, 0x52u8],
        Mnemonic::LXA => seq![0x4Cu8, 0x58u8, 0x41u8],
        Mnemonic::NOP => seq![0x4Eu8, 0x4Fu8, 0x50u8],
        Mnemonic::ORA => seq![0x4Fu8, 0x52u8, 0x41u8],
        Mnemonic::PHA => seq![0x50u8, 0x48u8, 0x41u8],
        Mnemonic::PHP => seq![0x50u8, 0x48u8, 0x50u8],
        Mnemonic::PLA => seq![0x50u8, 0x4Cu8, 0x41u8],
        Mnemonic::PLP => seq![0x50u8, 0x4Cu8, 0x50u8],
        Mnemonic::RLA => seq![0x52u8, 0x4Cu8, 0x41u8],
        Mnemonic::ROL => seq![0x52u8, 0x4Fu8, 0x4Cu8],
        Mnemonic::ROR => seq![0x52u8, 0x4Fu8, 0x52u8],
        Mnemonic::RRA => seq![0x52u8, 0x52u8, 0x41u8],
        Mnemonic::RTI => seq![0x52u8, 0x54u8, 0x49u8],
        Mnemonic::RTS => seq![0x52u8, 0x54u8, 0x53u8],
        Mnemonic::SAX => seq![0x53u8, 0x41u8, 0x58u8],
        Mnemonic::SBC => seq![0x53u8, 0x42u8, 0x43u8],
        Mnemonic::SBX => seq![0x53u8, 0x42u8, 0x58u8],
        Mnemonic::SEC => seq![0x53u8, 0x45u8, 0x43u8],
        Mnemonic::SED => seq![0x53u8, 0x45u8, 0x44u8],
        Mnemonic::SEI => seq![0x53u8, 0x45u8, 0x49u8],
        Mnemonic::SHA => seq![0x53u8, 0x48u8, 0x41u8],
        Mnemonic::SHX => seq![0x53u8, 0x48u8, 0x58u8],
        Mnemonic::SHY => seq![0x53u8, 0x48u8, 0x59u8],
        Mnemonic::SLO => seq![0x53u8, 0x4Cu8, 0x4Fu8],
        Mnemonic::SRE => seq![0x53u8, 0x52u8, 0x45u8],
        Mnemonic::STA => seq![0x53u8, 0x54u8, 0x41u8],
        Mnemonic::STX => seq![0x53u8, 0x54u8, 0x58u8],
        Mnemonic::STY => seq![0x53u8, 0x54u8, 0x59u8],
        Mnemonic::TAS => seq![0x54u8, 0x41u8, 0x53u8],
        Mnemonic::TAX => seq![0x54u8, 0x41u8, 0x58u8],
        Mnemonic::TAY => seq![0x54u8, 0x41u8, 0x59u8],
        Mnemonic::TSX => seq![0x54u8, 0x53u8, 0x58u8],
        Mnemonic::TXA => seq![0x54u8, 0x58u8, 0x41u8],
        Mnemonic::TXS => seq![0x54u8, 0x58u8, 0x53u8],
        Mnemonic::TYA => seq![0x54u8, 0x59u8, 0x41u8],
        Mnemonic::XAA => seq![0x58u8, 0x41u8, 0x41u8],
    }
}

fn mnemonic_bytes(m: Mnemonic) -> (r: [u8; 3])
    ensures
        r@ == mnemonic_text(m),
{
    let r = match m {
        Mnemonic::ADC => [0x41u8, 0x44u8, 0x43u8],
        Mnemonic::ALR => [0x41u8, 0x4Cu8, 0x52u8],
        Mnemonic::ANC => [0x41u8, 0x4Eu8, 0x43u8],
        Mnemonic::AND => [0x41u8, 0x4Eu8, 0x44u8],
        Mnemonic::ARR => [0x41u8, 0x52u8, 0x52u8],
        Mnemonic::ASL => [0x41u8, 0x53u8, 0x4Cu8],
        Mnemonic::BCC => [0x42u8, 0x43u8, 0x43u8],
        Mnemonic::BCS => [0x42u8, 0x43u8, 0x53u8],
        Mnemonic::BEQ => [0x42u8, 0x45u8, 0x51u8],
        Mnemonic::BIT => [0x42u8, 0x49u8, 0x54u8],
        Mnemonic::BMI => [0x42u8, 0x4Du8, 0x49u8],
        Mnemonic::BNE => [0x42u8, 0x4Eu8, 0x45u8],
        Mnemonic::BPL => [0x42u8, 0x50u8, 0x4Cu8],
        Mnemonic::BRK => [0x42u8, 0x52u8, 0x4Bu8],
        Mnemonic::BVC => [0x42u8, 0x56u8, 0x43u8],
        Mnemonic::BVS => [0x42u8, 0x56u8, 0x53u8],
        Mnemonic::CLC => [0x43u8, 0x4Cu8, 0x43u8],
        Mnemonic::CLD => [0x43u8, 0x4Cu8, 0x44u8],
        Mnemonic::CLI => [0x43u8, 0x4Cu8, 0x49u8],
        Mnemonic::CLV => [0x43u8, 0x4Cu8, 0x56u8],
        Mnemonic::CMP => [0x43u8, 0x4Du8, 0x50u8],
        Mnemonic::CPX => [0x43u8, 0x50u8, 0x58u8],
        Mnemonic::CPY => [0x43u8, 0x50u8, 0x59u8],
        Mnemonic::DCP => [0x44u8, 0x43u8, 0x50u8],
        Mnemonic::DEC => [0x44u8, 0x45u8, 0x43u8],
        Mnemonic::DEX => [0x44u8, 0x45u8, 0x58u8],
        Mnemonic::DEY => [0x44u8, 0x45u8, 0x59u8],
        Mnemonic::EOR => [0x45u8, 0x4Fu8, 0x52u8],
        Mnemonic::INC => [0x49u8, 0x4Eu8, 0x43u8],
        Mnemonic::INX => [0x49u8, 0x4Eu8, 0x58u8],
        Mnemonic::INY => [0x49u8, 0x4Eu8, 0x59u8],
        Mnemonic::ISC => [0x49u8, 0x53u8, 0x43u8],
        Mnemonic::JAM => [0x4Au8, 0x41u8, 0x4Du8],
        Mnemonic::JMP => [0x4Au8, 0x4Du8, 0x50u8],
        Mnemonic::JSR => [0x4Au8, 0x53u8, 0x52u8],
        Mnemonic::LAS => [0x4Cu8, 0x41u8, 0x53u8],
        Mnemonic::LAX => [0x4Cu8, 0x41u8, 0x58u8],
        Mnemonic::LDA => [0x4Cu8, 0x44u8, 0x41u8],
        Mnemonic::LDX => [0x4Cu8, 0x44u8, 0x58u8],
        Mnemonic::LDY => [0x4Cu8, 0x44u8, 0x59u8],
        Mnemonic::LSR => [0x4Cu8, 0x53u8, 0x52u8],
        Mnemonic::LXA => [0x4Cu8, 0x58u8, 0x41u8],
        Mnemonic::NOP => [0x4Eu8, 0x4Fu8, 0x50u8],
        Mnemonic::ORA => [0x4Fu8, 0x52u8, 0x41u8],
        Mnemonic::PHA => [0x50u8, 0x48u8, 0x41u8],
        Mnemonic::PHP => [0x50u8, 0x48u8, 0x50u8],
        Mnemonic::PLA => [0x50u8, 0x4Cu8, 0x41u8],
        Mnemonic::PLP => [0x50u8, 0x4Cu8, 0x50u8],
        Mnemonic::RLA => [0x52u8, 0x4Cu8, 0x41u8],
        Mnemonic::ROL => [0x52u8, 0x4Fu8, 0x4Cu8],
        Mnemonic::ROR => [0x52u8, 0x4Fu8, 0x52u8],
        Mnemonic::RRA => [0x52u8, 0x52u8, 0x41u8],
        Mnemonic::RTI => [0x52u8, 0x54u8, 0x49u8],
        Mnemonic::RTS => [0x52u8, 0x54u8, 0x53u8],
        Mnemonic::SAX => [0x53u8, 0x41u8, 0x58u8],
        Mnemonic::SBC => [0x53u8, 0x42u8, 0x43u8],
        Mnemonic::SBX => [0x53u8, 0x42u8, 0x58u8],
        Mnemonic::SEC => [0x53u8, 0x45u8, 0x43u8],
        Mnemonic::SED => [0x53u8, 0x45u8, 0x44u8],
        Mnemonic::SEI => [0x53u8, 0x45u8, 0x49u8],
        Mnemonic::SHA => [0x53u8, 0x48u8, 0x41u8],
        Mnemonic::SHX => [0x53u8, 0x48u8, 0x58u8],
        Mnemonic::SHY => [0x53u8, 0x48u8, 0x59u8],
        Mnemonic::SLO => [0x53u8, 0x4Cu8, 0x4Fu8],
        Mnemonic::SRE => [0x53u8, 0x52u8, 0x45u8],
        Mnemonic::STA => [0x53u8, 0x54u8, 0x41u8],
        Mnemonic::STX => [0x53u8, 0x54u8, 0x58u8],
        Mnemonic::STY => [0x53u8, 0x54u8, 0x59u8],
        Mnemonic::TAS => [0x54u8, 0x41u8, 0x53u8],
        Mnemonic::TAX => [0x54u8, 0x41u8, 0x58u8],
        Mnemonic::TAY => [0x54u8, 0x41u8, 0x59u8],
        Mnemonic::TSX => [0x54u8, 0x53u8, 0x58u8],
        Mnemonic::TXA => [0x54u8, 0x58u8, 0x41u8],
        Mnemonic::TXS => [0x54u8, 0x58u8, 0x53u8],
        Mnemonic::TYA => [0x54u8, 0x59u8, 0x41u8],
        Mnemonic::XAA => [0x58u8, 0x41u8, 0x41u8],
    };
    proof {
        assert(r@ =~= mnemonic_text(m));
    }
    r
}

/// The upper-case hexadecimal digit of `n` (below 16).
pub open spec fn hex_digit(n: u8) -> u8 {
    if n < 10 {
        (0x30 + n) as u8
    } else {
        (0x37 + n) as u8
    }
}

/// A byte as two upper-case hexadecimal digits.
pub open spec fn hex2(b: u8) -> Seq<u8> {
    seq![hex_digit(b / 16), hex_digit(b % 16)]
}

/// The decimal digits of `n`, without leading zeros.
pub open spec fn decimal(n: u64) -> Seq<u8>
    decreases n,
{
    if n < 10 {
        seq![(0x30 + n) as u8]
    } else {
        decimal(n / 10).push((0x30 + n % 10) as u8)
    }
}

/// `s` followed by spaces up to `width` characters.
pub open spec fn pad(s: Seq<u8>, width: nat) -> Seq<u8> {
    if s.len() >= width {
        s
    } else {
        s + Seq::new((width - s.len()) as nat, |i: int| 0x20u8)
    }
}

/// The raw bytes of an instruction, space separated.
pub open spec fn raw_text(i: Instruction, length: u8) -> Seq<u8> {
    if length == 1 {
        hex2(i.opcode)
    } else if length == 2 {
        hex2(i.opcode) + seq![0x20u8] + hex2(i.operand1)
    } else {
        hex2(i.opcode) + seq![0x20u8] + hex2(i.operand1) + seq![0x20u8] + hex2(i.operand2)
    }
}

/// The operand as assembly source writes it, with its leading space.
pub open spec fn operand_text(i: Instruction, mode: AddressingMode) -> Seq<u8> {
    let lo = hex2(i.operand1);
    let word = hex2(i.operand2) + hex2(i.operand1);
    match mode {
        AddressingMode::Implied => Seq::empty(),
        AddressingMode::Accumulator => seq![0x20u8, 0x41u8],
        AddressingMode::Immediate => seq![0x20u8, 0x23u8, 0x24u8] + lo,
        AddressingMode::Absolute => seq![0x20u8, 0x24u8] + word,
        AddressingMode::AbsoluteX => seq![0x20u8, 0x24u8] + word + seq![0x2Cu8, 0x58u8],
        AddressingMode::AbsoluteY => seq![0x20u8, 0x24u8] + word + seq![0x2Cu8, 0x59u8],
        AddressingMode::Indirect => seq![0x20u8, 0x28u8, 0x24u8] + word + seq![0x29u8],
        AddressingMode::IndirectX => seq![0x20u8, 0x28u8, 0x24u8] + lo + seq![0x2Cu8, 0x58u8, 0x29u8],
        AddressingMode::IndirectY => seq![0x20u8, 0x28u8, 0x24u8] + lo + seq![0x29u8, 0x2Cu8, 0x59u8],
        AddressingMode::ZeroPage | AddressingMode::Relative => seq![0x20u8, 0x24u8] + lo,
        AddressingMode::ZeroPageX => seq![0x20u8, 0x24u8] + lo + seq![0x2Cu8, 0x58u8],
        AddressingMode::ZeroPageY => seq![0x20u8, 0x24u8] + lo + seq![0x2Cu8, 0x59u8],
    }
}

/// The disassembly of `i`: raw bytes padded to eight columns, a space, `*`
/// for an undocumented opcode (else a space), the mnemonic and the operand.
pub open spec fn instruction_text(i: Instruction) -> Seq<u8> {
    let d = i.decoded();
    pad(raw_text(i, mode_length(d.addressing_mode)), 8) + seq![0x20u8, if d.illegal { 0x2Au8 } else { 0x20u8 }]
        + mnemonic_text(d.mnemonic) + operand_text(i, d.addressing_mode)
}

/// One line of an execution log.
pub open spec fn log_text(s: ExecutionState) -> Seq<u8> {
    hex2((s.pc / 256) as u8) + hex2((s.pc % 256) as u8) + seq![0x20u8, 0x20u8] + pad(
        instruction_text(s.next_instruction),
        40,
    ) + seq![0x20u8, 0x20u8, 0x41u8, 0x3Au8] + hex2(s.a) + seq![0x20u8, 0x58u8, 0x3Au8] + hex2(s.x)
        + seq![0x20u8, 0x59u8, 0x3Au8] + hex2(s.y) + seq![0x20u8, 0x50u8, 0x3Au8] + hex2(s.p)
        + seq![0x20u8, 0x53u8, 0x50u8, 0x3Au8] + hex2(s.s) + seq![0x20u8, 0x43u8, 0x59u8, 0x43u8, 0x3Au8]
        + decimal(s.cycle_number)
}

fn push_hex(out: &mut Vec<u8>, b: u8)
    ensures
        final(out)@ == old(out)@ + hex2(b),
{
    let high = b / 16;
    let low = b % 16;
    out.push(if high < 10 {
        0x30 + high
    } else {
        0x37 + high
    });
    out.push(if low < 10 {
        0x30 + low
    } else {
        0x37 + low
    });
    proof {
        assert(final(out)@ =~= old(out)@ + hex2(b));
    }
}

fn push_all(out: &mut Vec<u8>, s: &[u8])
    ensures
        final(out)@ == old(out)@ + s@,
{
    let mut i: usize = 0;
    while i < s.len()
        invariant
            0 <= i <= s@.len(),
            out@ == old(out)@ + s@.subrange(0, i as int),
        decreases s@.len() - i,
    {
        out.push(s[i]);
        i = i + 1;
        proof {
            assert(out@ =~= old(out)@ + s@.subrange(0, i as int));
        }
    }
    proof {
        assert(s@.subrange(0, s@.len() as int) =~= s@);
    }
}

fn pad_to(out: &mut Vec<u8>, start: usize, width: usize)
    requires
        start <= old(out)@.len(),
        width < 100,
    ensures
        final(out)@ == old(out)@.subrange(0, start as int) + pad(
            old(out)@.subrange(start as int, old(out)@.len() as int),
            width as nat,
        ),
{
    let ghost s = old(out)@.subrange(start as int, old(out)@.len() as int);
    let ghost prefix = old(out)@.subrange(0, start as int);
    proof {
        assert(old(out)@ =~= prefix + s);
    }
    while out.len() - start < width
        invariant
            start <= out@.len(),
            width < 100,
            prefix.len() == start,
            out@.len() >= start + s.len(),
            out@.len() - start <= (if s.len() >= width { s.len() as int } else { width as int }),
            out@ == prefix + s + Seq::new((out@.len() - start - s.len()) as nat, |i: int| 0x20u8),
        decreases width - (out@.len() - start),
    {
        out.push(0x20);
        proof {
            assert(out@ =~= prefix + s + Seq::new((out@.len() - start - s.len()) as nat, |i: int| 0x20u8));
        }
    }
    proof {
        if s.len() >= width {
            assert(out@ =~= prefix + s);
        } else {
            assert(out@ =~= prefix + pad(s, width as nat));
        }
    }
}

fn decimal_digits(n: u64) -> (r: Vec<u8>)
    ensures
        r@ == decimal(n),
    decreases n,
{
    if n < 10 {
        let r = vec![0x30 + n as u8];
        proof {
            assert(r@ =~= decimal(n));
        }
        r
    } else {
        let mut r = decimal_digits(n / 10);
        r.push(0x30 + (n % 10) as u8);
        r
    }
}

impl Instruction {
    /// The disassembly of this instruction, in ASCII.
    pub fn text(&self) -> (r: Vec<u8>)
        ensures
            r@ == instruction_text(*self),
    {
        let d = self.disassemble();
        let length = self.length();
        let mut out: Vec<u8> = Vec::new();
        push_hex(&mut out, self.opcode);
        if length >= 2 {
            out.push(0x20);
            push_hex(&mut out, self.operand1);
        }
        if length == 3 {
            out.push(0x20);
            push_hex(&mut out, self.operand2);
        }
        proof {
            assert(out@ =~= raw_text(*self, length));
            assert(out@.subrange(0, out@.len() as int) =~= out@);
            assert(out@.subrange(0, 0) =~= Seq::<u8>::empty());
        }
        let ghost raw = out@;
        pad_to(&mut out, 0, 8);
        proof {
            assert(out@ =~= pad(raw, 8));
        }
        out.push(0x20);
        out.push(if d.illegal {
            0x2A
        } else {
            0x20
        });
        let name = mnemonic_bytes(d.mnemonic);
        push_all(&mut out, name.as_slice());
        let ghost before_operand = out@;
        match d.addressing_mode {
            AddressingMode::Implied => {},
            AddressingMode::Accumulator => push_all(&mut out, [0x20u8, 0x41u8].as_slice()),
            AddressingMode::Immediate => {
                push_all(&mut out, [0x20u8, 0x23u8, 0x24u8].as_slice());
                push_hex(&mut out, self.operand1);
            },
            AddressingMode::Absolute => {
                push_all(&mut out, [0x20u8, 0x24u8].as_slice());
                push_hex(&mut out, self.operand2);
                push_hex(&mut out, self.operand1);
            },
            AddressingMode::AbsoluteX => {
                push_all(&mut out, [0x20u8, 0x24u8].as_slice());
                push_hex(&mut out, self.operand2);
                push_hex(&mut out, self.operand1);
                push_all(&mut out, [0x2Cu8, 0x58u8].as_slice());
            },
            AddressingMode::AbsoluteY => {
                push_all(&mut out, [0x20u8, 0x24u8].as_slice());
                push_hex(&mut out, self.operand2);
                push_hex(&mut out, self.operand1);
                push_all(&mut out, [0x2Cu8, 0x59u8].as_slice());
            },
            AddressingMode::Indirect => {
                push_all(&mut out, [0x20u8, 0x28u8, 0x24u8].as_slice());
                push_hex(&mut out, self.operand2);
                push_hex(&mut out, self.operand1);
                push_all(&mut out, [0x29u8].as_slice());
            },
            AddressingMode::IndirectX => {
                push_all(&mut out, [0x20u8, 0x28u8, 0x24u8].as_slice());
                push_hex(&mut out, self.operand1);
                push_all(&mut out, [0x2Cu8, 0x58u8, 0x29u8].as_slice());
            },
            AddressingMode::IndirectY => {
                push_all(&mut out, [0x20u8, 0x28u8, 0x24u8].as_slice());
                push_hex(&mut out, self.operand1);
                push_all(&mut out, [0x29u8, 0x2Cu8, 0x59u8].as_slice());
            },
            AddressingMode::ZeroPage | AddressingMode::Relative => {
                push_all(&mut out, [0x20u8, 0x24u8].as_slice());
                push_hex(&mut out, self.operand1);
            },
            AddressingMode::ZeroPageX => {
                push_all(&mut out, [0x20u8, 0x24u8].as_slice());
                push_hex(&mut out, self.operand1);
                push_all(&mut out, [0x2Cu8, 0x58u8].as_slice());
            },
            AddressingMode::ZeroPageY => {
                push_all(&mut out, [0x20u8, 0x24u8].as_slice());
                push_hex(&mut out, self.operand1);
                push_all(&mut out, [0x2Cu8, 0x59u8].as_slice());
            },
        }
        proof {
            assert(out@ =~= before_operand + operand_text(*self, d.addressing_mode));
            assert(out@ =~= instruction_text(*self));
        }
        out
    }
}

impl ExecutionState {
    /// The log line of this state: PC, disassembly padded to 40 columns,
    /// registers, status, stack pointer and cycle count.
    pub fn log_line(&self) -> (r: Vec<u8>)
        ensures
            r@ == log_text(*self),
    {
        let mut out: Vec<u8> = Vec::new();
        push_hex(&mut out, (self.pc / 256) as u8);
        push_hex(&mut out, (self.pc % 256) as u8);
        push_all(&mut out, [0x20u8, 0x20u8].as_slice());
        let start = out.len();
        let text = self.next_instruction.text();
        push_all(&mut out, text.as_slice());
        proof {
            assert(out@.subrange(start as int, out@.len() as int) =~= text@);
        }
        pad_to(&mut out, start, 40);
        push_all(&mut out, [0x20u8, 0x20u8, 0x41u8, 0x3Au8].as_slice());
        push_hex(&mut out, self.a);
        push_all(&mut out, [0x20u8, 0x58u8, 0x3Au8].as_slice());
        push_hex(&mut out, self.x);
        push_all(&mut out, [0x20u8, 0x59u8, 0x3Au8].as_slice());
        push_hex(&mut out, self.y);
        push_all(&mut out, [0x20u8, 0x50u8, 0x3Au8].as_slice());
        push_hex(&mut out, self.p);
        push_all(&mut out, [0x20u8, 0x53u8, 0x50u8, 0x3Au8].as_slice());
        push_hex(&mut out, self.s);
        push_all(&mut out, [0x20u8, 0x43u8, 0x59u8, 0x43u8, 0x3Au8].as_slice());
        let digits = decimal_digits(self.cycle_number);
        push_all(&mut out, digits.as_slice());
        proof {
            assert(out@ =~= log_text(*self));
        }
        out
    }
}

} // verus!
