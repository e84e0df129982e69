//! Instruction semantics on registers and operand values. All arithmetic is
//! binary; the decimal flag is kept but never consulted.
use vstd::prelude::*;

use crate::cpu::CPU;
use crate::opcode::{AddressingMode, Instruction};

verus! {

/// ADC: result, carry out and overflow of `a + val + carry`. Overflow is set
/// when both operands share a sign and the result's sign differs.
pub open spec fn adc_spec(a: u8, val: u8, c: bool) -> (u8, bool, bool) {
    let sum = a + val + (if c { 1int } else { 0 });
    let r = (sum % 256) as u8;
    (r, sum > 255, (a >= 128) == (val >= 128) && (r >= 128) != (a >= 128))
}

/// SBC: result, carry (no borrow) and overflow of `a - val - (1 - carry)`.
pub open spec fn sbc_spec(a: u8, val: u8, c: bool) -> (u8, bool, bool) {
    let diff = a - val - (if c { 0int } else { 1 });
    let r = (if diff < 0 { diff + 256 } else { diff }) as u8;
    (r, diff >= 0, (a >= 128) != (val >= 128) && (r >= 128) != (a >= 128))
}

/// Shift and rotate results with the bit shifted out.
pub open spec fn asl_spec(v: u8) -> (u8, bool) {
    (((v * 2) % 256) as u8, v >= 128)
}

pub open spec fn lsr_spec(v: u8) -> (u8, bool) {
    ((v / 2) as u8, v % 2 == 1)
}

pub open spec fn rol_spec(v: u8, c: bool) -> (u8, bool) {
    (((v * 2 + (if c { 1int } else { 0 })) % 256) as u8, v >= 128)
}

pub open spec fn ror_spec(v: u8, c: bool) -> (u8, bool) {
    ((v / 2 + (if c { 128int } else { 0 })) as u8, v % 2 == 1)
}

pub open spec fn wrap_inc(v: u8) -> u8 {
    if v == 255 { 0 } else { (v + 1) as u8 }
}

pub open spec fn wrap_dec(v: u8) -> u8 {
    if v == 0 { 255 } else { (v - 1) as u8 }
}

pub open spec fn wrap_sub(a: u8, b: u8) -> u8 {
    if a >= b { (a - b) as u8 } else { (a - b + 256) as u8 }
}

impl CPU {
    /// Sign and zero flags set from a result.
    pub open spec fn with_nz(self, val: u8) -> CPU {
        CPU { s: val >= 0x80, z: val == 0, ..self }
    }

    pub open spec fn compare(self, reg: u8, val: u8) -> CPU {
        CPU { c: reg >= val, ..self }.with_nz(wrap_sub(reg, val))
    }

    pub open spec fn adc_into(self, val: u8) -> CPU {
        let (r, c, v) = adc_spec(self.a, val, self.c);
        CPU { a: r, c: c, v: v, ..self }.with_nz(r)
    }

    pub open spec fn sbc_into(self, val: u8) -> CPU {
        let (r, c, v) = sbc_spec(self.a, val, self.c);
        CPU { a: r, c: c, v: v, ..self }.with_nz(r)
    }
}

/// Instructions that act on registers alone, given their operand value (for
/// shifts and rotates: in accumulator mode).
pub open spec fn is_alu(inst: Instruction, mode: AddressingMode) -> bool {
    match inst {
        Instruction::ASL | Instruction::LSR | Instruction::ROL | Instruction::ROR =>
            mode == AddressingMode::Accumulator,
        Instruction::ADC | Instruction::SBC | Instruction::AND | Instruction::ORA
        | Instruction::EOR | Instruction::CMP | Instruction::CPX | Instruction::CPY
        | Instruction::BIT | Instruction::LDA | Instruction::LDX | Instruction::LDY
        | Instruction::LAX | Instruction::ANC | Instruction::CLC | Instruction::CLD
        | Instruction::CLI | Instruction::CLV | Instruction::SEC | Instruction::SED
        | Instruction::SEI | Instruction::TAX | Instruction::TAY | Instruction::TSX
        | Instruction::TXA | Instruction::TXS | Instruction::TYA | Instruction::INX
        | Instruction::INY | Instruction::DEX | Instruction::DEY | Instruction::NOP => true,
        _ => false,
    }
}

/// The registers after a register-only instruction with operand `val`.
pub open spec fn alu_spec(cpu: CPU, inst: Instruction, val: u8) -> CPU {
    match inst {
        Instruction::ADC => cpu.adc_into(val),
        Instruction::SBC => cpu.sbc_into(val),
        Instruction::AND => CPU { a: cpu.a & val, ..cpu }.with_nz(cpu.a & val),
        Instruction::ORA => CPU { a: cpu.a | val, ..cpu }.with_nz(cpu.a | val),
        Instruction::EOR => CPU { a: cpu.a ^ val, ..cpu }.with_nz(cpu.a ^ val),
        Instruction::CMP => cpu.compare(cpu.a, val),
        Instruction::CPX => cpu.compare(cpu.x, val),
        Instruction::CPY => cpu.compare(cpu.y, val),
        Instruction::BIT => CPU { s: val >= 128, v: (val / 64) % 2 == 1, z: cpu.a & val == 0, ..cpu },
        Instruction::LDA => CPU { a: val, ..cpu }.with_nz(val),
        Instruction::LDX => CPU { x: val, ..cpu }.with_nz(val),
        Instruction::LDY => CPU { y: val, ..cpu }.with_nz(val),
        Instruction::LAX => CPU { a: val, x: val, ..cpu }.with_nz(val),
        Instruction::ANC => CPU { a: cpu.a & val, c: cpu.a & val >= 128, ..cpu }.with_nz(cpu.a & val),
        Instruction::ASL => CPU { a: asl_spec(cpu.a).0, c: asl_spec(cpu.a).1, ..cpu }.with_nz(asl_spec(cpu.a).0),
        Instruction::LSR => CPU { a: lsr_spec(cpu.a).0, c: lsr_spec(cpu.a).1, ..cpu }.with_nz(lsr_spec(cpu.a).0),
        Instruction::ROL => CPU { a: rol_spec(cpu.a, cpu.c).0, c: rol_spec(cpu.a, cpu.c).1, ..cpu }
            .with_nz(rol_spec(cpu.a, cpu.c).0),
        Instruction::ROR => CPU { a: ror_spec(cpu.a, cpu.c).0, c: ror_spec(cpu.a, cpu.c).1, ..cpu }
            .with_nz(ror_spec(cpu.a, cpu.c).0),
        Instruction::CLC => CPU { c: false, ..cpu },
        Instruction::CLD => CPU { d: false, ..cpu },
        Instruction::CLI => CPU { i: false, ..cpu },
        Instruction::CLV => CPU { v: false, ..cpu },
        Instruction::SEC => CPU { c: true, ..cpu },
        Instruction::SED => CPU { d: true, ..cpu },
        Instruction::SEI => CPU { i: true, ..cpu },
        Instruction::TAX => CPU { x: cpu.a, ..cpu }.with_nz(cpu.a),
        Instruction::TAY => CPU { y: cpu.a, ..cpu }.with_nz(cpu.a),
        Instruction::TSX => CPU { x: cpu.sp, ..cpu }.with_nz(cpu.sp),
        Instruction::TXA => CPU { a: cpu.x, ..cpu }.with_nz(cpu.x),
        Instruction::TXS => CPU { sp: cpu.x, ..cpu },
        Instruction::TYA => CPU { a: cpu.y, ..cpu }.with_nz(cpu.y),
        Instruction::INX => CPU { x: wrap_inc(cpu.x), ..cpu }.with_nz(wrap_inc(cpu.x)),
        Instruction::INY => CPU { y: wrap_inc(cpu.y), ..cpu }.with_nz(wrap_inc(cpu.y)),
        Instruction::DEX => CPU { x: wrap_dec(cpu.x), ..cpu }.with_nz(wrap_dec(cpu.x)),
        Instruction::DEY => CPU { y: wrap_dec(cpu.y), ..cpu }.with_nz(wrap_dec(cpu.y)),
        _ => cpu,
    }
}

/// Register-only instructions leave the cycle counter, the interrupt latch
/// and the stall count alone.
pub proof fn lemma_alu_keeps(cpu: CPU, inst: Instruction, val: u8)
    ensures
        alu_spec(cpu, inst, val).cycles == cpu.cycles,
        alu_spec(cpu, inst, val).interrupt == cpu.interrupt,
        alu_spec(cpu, inst, val).stall == cpu.stall,
{
}

/// Read-modify-write instructions on memory.
pub open spec fn is_rmw(inst: Instruction, mode: AddressingMode) -> bool {
    match inst {
        Instruction::ASL | Instruction::LSR | Instruction::ROL | Instruction::ROR =>
            mode != AddressingMode::Accumulator,
        Instruction::INC | Instruction::DEC | Instruction::DCP | Instruction::ISB
        | Instruction::SLO | Instruction::RLA | Instruction::SRE | Instruction::RRA => true,
        _ => false,
    }
}

/// The registers after a read-modify-write instruction on a byte `val`, and
/// the byte written back.
pub open spec fn rmw_spec(cpu: CPU, inst: Instruction, val: u8) -> (CPU, u8) {
    match inst {
        Instruction::ASL => (CPU { c: asl_spec(val).1, ..cpu }.with_nz(asl_spec(val).0), asl_spec(val).0),
        Instruction::LSR => (CPU { c: lsr_spec(val).1, ..cpu }.with_nz(lsr_spec(val).0), lsr_spec(val).0),
        Instruction::ROL => (CPU { c: rol_spec(val, cpu.c).1, ..cpu }.with_nz(rol_spec(val, cpu.c).0),
            rol_spec(val, cpu.c).0),
        Instruction::ROR => (CPU { c: ror_spec(val, cpu.c).1, ..cpu }.with_nz(ror_spec(val, cpu.c).0),
            ror_spec(val, cpu.c).0),
        Instruction::INC => (cpu.with_nz(wrap_inc(val)), wrap_inc(val)),
        Instruction::DEC => (cpu.with_nz(wrap_dec(val)), wrap_dec(val)),
        Instruction::DCP => (cpu.compare(cpu.a, wrap_dec(val)), wrap_dec(val)),
        Instruction::ISB => (cpu.sbc_into(wrap_inc(val)), wrap_inc(val)),
        Instruction::SLO => {
            let r = asl_spec(val).0;
            (CPU { a: cpu.a | r, c: asl_spec(val).1, ..cpu }.with_nz(cpu.a | r), r)
        },
        Instruction::RLA => {
            let r = rol_spec(val, cpu.c).0;
            (CPU { a: cpu.a & r, c: rol_spec(val, cpu.c).1, ..cpu }.with_nz(cpu.a & r), r)
        },
        Instruction::SRE => {
            let r = lsr_spec(val).0;
            (CPU { a: cpu.a ^ r, c: lsr_spec(val).1, ..cpu }.with_nz(cpu.a ^ r), r)
        },
        Instruction::RRA => {
            let r = ror_spec(val, cpu.c).0;
            (CPU { c: ror_spec(val, cpu.c).1, ..cpu }.adc_into(r), r)
        },
        _ => (cpu, val),
    }
}

/// Whether a branch instruction is taken in the given flag state.
pub open spec fn branch_taken(cpu: CPU, inst: Instruction) -> bool {
    match inst {
        Instruction::BCC => !cpu.c,
        Instruction::BCS => cpu.c,
        Instruction::BEQ => cpu.z,
        Instruction::BNE => !cpu.z,
        Instruction::BMI => cpu.s,
        Instruction::BPL => !cpu.s,
        Instruction::BVC => !cpu.v,
        Instruction::BVS => cpu.v,
        _ => false,
    }
}

pub open spec fn is_branch(inst: Instruction) -> bool {
    match inst {
        Instruction::BCC | Instruction::BCS | Instruction::BEQ | Instruction::BNE
        | Instruction::BMI | Instruction::BPL | Instruction::BVC | Instruction::BVS => true,
        _ => false,
    }
}

/// Subtraction is addition of the complement: with carry set (no borrow), SBC
/// of `x` gives the result, carry and overflow that ADC of `!x` gives, and
/// the same holds with carry clear.
pub proof fn lemma_sbc_is_adc_of_complement(a: u8, x: u8, c: bool)
    ensures
        sbc_spec(a, x, c) == adc_spec(a, !x, c),
{
    assert(!x == 255 - x) by (bit_vector);
}

/// ASL then LSR of a value whose bit 7 is clear gives the value back, with
/// carry clear after each step.
pub proof fn lemma_shift_round_trip(v: u8)
    requires
        v < 128,
    ensures
        lsr_spec(asl_spec(v).0).0 == v,
        !asl_spec(v).1,
        !lsr_spec(asl_spec(v).0).1,
{
}

impl CPU {
    fn set_nz(&mut self, val: u8)
        ensures
            *final(self) == old(self).with_nz(val),
    {
        self.s = val >= 0x80;
        self.z = val == 0;
    }

    fn adc_value(&mut self, val: u8)
        ensures
            *final(self) == old(self).adc_into(val),
    {
        let sum = self.a as u16 + val as u16 + if self.c { 1 } else { 0 };
        let r = (sum % 256) as u8;
        self.v = (self.a >= 128) == (val >= 128) && (r >= 128) != (self.a >= 128);
        self.c = sum > 255;
        self.a = r;
        self.set_nz(r);
    }

    /// SBC, computed as ADC of the complemented operand.
    fn sbc_value(&mut self, val: u8)
        ensures
            *final(self) == old(self).sbc_into(val),
    {
        proof {
            lemma_sbc_is_adc_of_complement(self.a, val, self.c);
        }
        self.adc_value(!val);
    }

    fn compare_value(&mut self, reg: u8, val: u8)
        ensures
            *final(self) == old(self).compare(reg, val),
    {
        self.c = reg >= val;
        self.set_nz(if reg >= val { reg - val } else { (reg as u16 + 256 - val as u16) as u8 });
    }

    /// Arithmetic, logic, compare and load instructions.
    #[verifier::spinoff_prover]
    fn alu_arith(&mut self, inst: Instruction, val: u8)
        requires
            inst == Instruction::ADC || inst == Instruction::SBC || inst == Instruction::AND || inst == Instruction::ORA || inst == Instruction::EOR || inst == Instruction::CMP || inst == Instruction::CPX || inst == Instruction::CPY || inst == Instruction::BIT || inst == Instruction::LDA || inst == Instruction::LDX || inst == Instruction::LDY || inst == Instruction::LAX || inst == Instruction::ANC,
        ensures
            *final(self) == alu_spec(*old(self), inst, val),
    {
        match inst {
            Instruction::ADC => self.adc_value(val),
            Instruction::SBC => self.sbc_value(val),
            Instruction::AND => {
                self.a = self.a & val;
                self.set_nz(self.a);
            },
            Instruction::ORA => {
                self.a = self.a | val;
                self.set_nz(self.a);
            },
            Instruction::EOR => {
                self.a = self.a ^ val;
                self.set_nz(self.a);
            },
            Instruction::CMP => self.compare_value(self.a, val),
            Instruction::CPX => self.compare_value(self.x, val),
            Instruction::CPY => self.compare_value(self.y, val),
            Instruction::BIT => {
                self.s = val >= 128;
                self.v = (val / 64) % 2 == 1;
                self.z = self.a & val == 0;
            },
            Instruction::LDA => {
                self.a = val;
                self.set_nz(val);
            },
            Instruction::LDX => {
                self.x = val;
                self.set_nz(val);
            },
            Instruction::LDY => {
                self.y = val;
                self.set_nz(val);
            },
            Instruction::LAX => {
                self.a = val;
                self.x = val;
                self.set_nz(val);
            },
            Instruction::ANC => {
                self.a = self.a & val;
                self.c = self.a >= 128;
                self.set_nz(self.a);
            },
            _ => {},
        }
    }

    /// Shifts and rotates of the accumulator.
    #[verifier::spinoff_prover]
    fn alu_shift(&mut self, inst: Instruction, val: u8)
        requires
            inst == Instruction::ASL || inst == Instruction::LSR || inst == Instruction::ROL || inst == Instruction::ROR,
        ensures
            *final(self) == alu_spec(*old(self), inst, val),
    {
        match inst {
            Instruction::ASL => {
                let (r, c) = shift(Instruction::ASL, self.a, self.c);
                self.a = r;
                self.c = c;
                self.set_nz(r);
            },
            Instruction::LSR => {
                let (r, c) = shift(Instruction::LSR, self.a, self.c);
                self.a = r;
                self.c = c;
                self.set_nz(r);
            },
            Instruction::ROL => {
                let (r, c) = shift(Instruction::ROL, self.a, self.c);
                self.a = r;
                self.c = c;
                self.set_nz(r);
            },
            Instruction::ROR => {
                let (r, c) = shift(Instruction::ROR, self.a, self.c);
                self.a = r;
                self.c = c;
                self.set_nz(r);
            },
            _ => {},
        }
    }

    /// Flag set and clear instructions.
    #[verifier::spinoff_prover]
    fn alu_flags(&mut self, inst: Instruction, val: u8)
        requires
            inst == Instruction::CLC || inst == Instruction::CLD || inst == Instruction::CLI || inst == Instruction::CLV || inst == Instruction::SEC || inst == Instruction::SED || inst == Instruction::SEI,
        ensures
            *final(self) == alu_spec(*old(self), inst, val),
    {
        match inst {
            Instruction::CLC => self.c = false,
            Instruction::CLD => self.d = false,
            Instruction::CLI => self.i = false,
            Instruction::CLV => self.v = false,
            Instruction::SEC => self.c = true,
            Instruction::SED => self.d = true,
            Instruction::SEI => self.i = true,
            _ => {},
        }
    }

    /// Transfer, increment and decrement instructions.
    #[verifier::spinoff_prover]
    fn alu_regs(&mut self, inst: Instruction, val: u8)
        requires
            inst == Instruction::TAX || inst == Instruction::TAY || inst == Instruction::TSX || inst == Instruction::TXA || inst == Instruction::TXS || inst == Instruction::TYA || inst == Instruction::INX || inst == Instruction::INY || inst == Instruction::DEX || inst == Instruction::DEY,
        ensures
            *final(self) == alu_spec(*old(self), inst, val),
    {
        match inst {
            Instruction::TAX => {
                self.x = self.a;
                self.set_nz(self.a);
            },
            Instruction::TAY => {
                self.y = self.a;
                self.set_nz(self.a);
            },
            Instruction::TSX => {
                self.x = self.sp;
                self.set_nz(self.sp);
            },
            Instruction::TXA => {
                self.a = self.x;
                self.set_nz(self.x);
            },
            Instruction::TXS => self.sp = self.x,
            Instruction::TYA => {
                self.a = self.y;
                self.set_nz(self.y);
            },
            Instruction::INX => {
                self.x = inc8(self.x);
                self.set_nz(self.x);
            },
            Instruction::INY => {
                self.y = inc8(self.y);
                self.set_nz(self.y);
            },
            Instruction::DEX => {
                self.x = dec8(self.x);
                self.set_nz(self.x);
            },
            Instruction::DEY => {
                self.y = dec8(self.y);
                self.set_nz(self.y);
            },
            _ => {},
        }
    }

    /// Executes a register-only instruction on its operand value.
    pub fn alu(&mut self, inst: Instruction, val: u8)
        ensures
            *final(self) == alu_spec(*old(self), inst, val),
    {
        match inst {
            Instruction::ADC | Instruction::SBC | Instruction::AND | Instruction::ORA
            | Instruction::EOR | Instruction::CMP | Instruction::CPX | Instruction::CPY
            | Instruction::BIT | Instruction::LDA | Instruction::LDX | Instruction::LDY
            | Instruction::LAX | Instruction::ANC => self.alu_arith(inst, val),
            Instruction::ASL | Instruction::LSR | Instruction::ROL | Instruction::ROR =>
                self.alu_shift(inst, val),
            Instruction::CLC | Instruction::CLD | Instruction::CLI | Instruction::CLV
            | Instruction::SEC | Instruction::SED | Instruction::SEI => self.alu_flags(inst, val),
            Instruction::TAX | Instruction::TAY | Instruction::TSX | Instruction::TXA
            | Instruction::TXS | Instruction::TYA | Instruction::INX | Instruction::INY
            | Instruction::DEX | Instruction::DEY => self.alu_regs(inst, val),
            _ => {},
        }
    }

    /// Shifts and rotates of a memory byte.
    #[verifier::spinoff_prover]
    fn rmw_shift(&mut self, inst: Instruction, val: u8) -> (r: u8)
        requires
            inst == Instruction::ASL || inst == Instruction::LSR || inst == Instruction::ROL || inst == Instruction::ROR,
        ensures
            (*final(self), r) == rmw_spec(*old(self), inst, val),
    {
        match inst {
            Instruction::ASL | Instruction::LSR | Instruction::ROL | Instruction::ROR => {
                let (r, c) = shift(inst, val, self.c);
                self.c = c;
                self.set_nz(r);
                r
            },
            _ => val,
        }
    }

    /// Increments and decrements of a memory byte, alone or followed by CMP or SBC.
    #[verifier::spinoff_prover]
    fn rmw_step(&mut self, inst: Instruction, val: u8) -> (r: u8)
        requires
            inst == Instruction::INC || inst == Instruction::DEC || inst == Instruction::DCP || inst == Instruction::ISB,
        ensures
            (*final(self), r) == rmw_spec(*old(self), inst, val),
    {
        match inst {
            Instruction::INC => {
                let r = inc8(val);
                self.set_nz(r);
                r
            },
            Instruction::DEC => {
                let r = dec8(val);
                self.set_nz(r);
                r
            },
            Instruction::DCP => {
                let r = dec8(val);
                self.compare_value(self.a, r);
                r
            },
            Instruction::ISB => {
                let r = inc8(val);
                self.sbc_value(r);
                r
            },
            _ => val,
        }
    }

    /// A shift or rotate of a memory byte combined with ORA, AND, EOR or ADC.
    #[verifier::spinoff_prover]
    fn rmw_combined(&mut self, inst: Instruction, val: u8) -> (r: u8)
        requires
            inst == Instruction::SLO || inst == Instruction::RLA || inst == Instruction::SRE || inst == Instruction::RRA,
        ensures
            (*final(self), r) == rmw_spec(*old(self), inst, val),
    {
        match inst {
            Instruction::SLO => {
                let (r, c) = shift(Instruction::ASL, val, self.c);
                self.c = c;
                self.a = self.a | r;
                self.set_nz(self.a);
                r
            },
            Instruction::RLA => {
                let (r, c) = shift(Instruction::ROL, val, self.c);
                self.c = c;
                self.a = self.a & r;
                self.set_nz(self.a);
                r
            },
            Instruction::SRE => {
                let (r, c) = shift(Instruction::LSR, val, self.c);
                self.c = c;
                self.a = self.a ^ r;
                self.set_nz(self.a);
                r
            },
            Instruction::RRA => {
                let (r, c) = shift(Instruction::ROR, val, self.c);
                self.c = c;
                self.adc_value(r);
                r
            },
            _ => val,
        }
    }

    /// Executes a read-modify-write instruction on the byte `val`; returns
    /// the byte to write back.
    pub fn rmw(&mut self, inst: Instruction, val: u8) -> (r: u8)
        ensures
            (*final(self), r) == rmw_spec(*old(self), inst, val),
    {
        match inst {
            Instruction::ASL | Instruction::LSR | Instruction::ROL | Instruction::ROR =>
                self.rmw_shift(inst, val),
            Instruction::INC | Instruction::DEC | Instruction::DCP | Instruction::ISB =>
                self.rmw_step(inst, val),
            Instruction::SLO | Instruction::RLA | Instruction::SRE | Instruction::RRA =>
                self.rmw_combined(inst, val),
            _ => val,
        }
    }
}

fn inc8(v: u8) -> (r: u8)
    ensures
        r == wrap_inc(v),
{
    if v == 255 { 0 } else { v + 1 }
}

fn dec8(v: u8) -> (r: u8)
    ensures
        r == wrap_dec(v),
{
    if v == 0 { 255 } else { v - 1 }
}

/// ASL, LSR, ROL or ROR of a byte with carry in: result and carry out.
fn shift(inst: Instruction, v: u8, c: bool) -> (r: (u8, bool))
    ensures
        inst == Instruction::ASL ==> r == asl_spec(v),
        inst == Instruction::LSR ==> r == lsr_spec(v),
        inst == Instruction::ROL ==> r == rol_spec(v, c),
        inst == Instruction::ROR ==> r == ror_spec(v, c),
{
    match inst {
        Instruction::ASL => (((v as u16 * 2) % 256) as u8, v >= 128),
        Instruction::LSR => (v / 2, v % 2 == 1),
        Instruction::ROL => ((((v as u16) * 2 + if c { 1 } else { 0 }) % 256) as u8, v >= 128),
        _ => (v / 2 + if c { 128 } else { 0 }, v % 2 == 1),
    }
}

} // verus!
