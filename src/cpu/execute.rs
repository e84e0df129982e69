//! Operand addressing, instruction dispatch, interrupts and the CPU step.
use vstd::prelude::*;

use crate::mem::{quiet, ram_index, NESMemory};
use crate::cpu::{indexed, popped_sp, pushed_sp, relative_target, stack_addr, word, Interrupt, CPU,
    INTERRUPT_CYCLES};
use crate::cpu::alu::{alu_spec, branch_taken, is_alu, is_branch, is_rmw, rmw_spec};
use crate::opcode::{decode, mode_bytes, opcode_table, AddressingMode, Instruction, Opcode};

verus! {

broadcast use crate::bits::group_masks;

/// Whether an instruction reads its operand from the bus before executing.
pub open spec fn reads_operand(inst: Instruction, mode: AddressingMode) -> bool {
    (is_alu(inst, mode) && inst != Instruction::NOP && mode != AddressingMode::Implied
        && mode != AddressingMode::Accumulator) || is_rmw(inst, mode)
}

/// Stores: the register value they write.
pub open spec fn store_value(cpu: CPU, inst: Instruction) -> u8 {
    match inst {
        Instruction::STA => cpu.a,
        Instruction::STX => cpu.x,
        Instruction::STY => cpu.y,
        _ => cpu.a & cpu.x,
    }
}

pub open spec fn is_store(inst: Instruction) -> bool {
    inst == Instruction::STA || inst == Instruction::STX || inst == Instruction::STY
        || inst == Instruction::SAX
}

/// Extra cycles of a taken branch: one, and one more across a page.
pub open spec fn branch_cycles(pc: u16, target: u16) -> u64 {
    if pc / 256 != target / 256 { 2 } else { 1 }
}

/// A CPU read, with only what the CPU relies on stated.
fn fetch(bus: &mut NESMemory, a: u16) -> (r: u8)
    requires
        old(bus).wf(),
    ensures
        final(bus).wf(),
        final(bus).ram == old(bus).ram,
        quiet(a) ==> r == old(bus).peek(a) && *final(bus) == *old(bus),
{
    bus.read(a)
}

/// Reads a little-endian word from two addresses.
fn read_word(bus: &mut NESMemory, lo: u16, hi: u16) -> (r: u16)
    requires
        old(bus).wf(),
    ensures
        final(bus).wf(),
        final(bus).ram == old(bus).ram,
        quiet(lo) && quiet(hi) ==> r == word(*old(bus), lo, hi) && *final(bus) == *old(bus),
{
    let l = fetch(bus, lo) as u16;
    let h = fetch(bus, hi) as u16;
    h * 256 + l
}

/// The address of the high byte of a pointer stored at `p`, staying on its page.
fn pointer_high(p: u16) -> (r: u16)
    ensures
        r == crate::cpu::pointer_high(p),
{
    if p % 256 == 255 { p - 255 } else { p + 1 }
}

fn relative(pc: u16, offset: u8) -> (r: u16)
    ensures
        r == relative_target(pc, offset),
{
    if offset >= 128 {
        pc.wrapping_sub(256 - offset as u16)
    } else {
        pc.wrapping_add(offset as u16)
    }
}

/// Whether two addresses lie on different 256-byte pages.
pub fn pages_differ(addr_a: u16, addr_b: u16) -> (r: bool)
    ensures
        r == (addr_a / 256 != addr_b / 256),
{
    addr_a / 256 != addr_b / 256
}

fn index_address(base: u16, index: u8) -> (r: (u16, bool))
    ensures
        r == indexed(base, index),
{
    let n = base.wrapping_add(index as u16);
    (n, pages_differ(base, n))
}

impl CPU {
    #[verifier::spinoff_prover]
    fn data_absolute(&self, bus: &mut NESMemory, mode: AddressingMode, op1: u16, op2: u16) -> (r: (u16, bool))
        requires
            old(bus).wf(),
            mode == AddressingMode::Absolute || mode == AddressingMode::AbsoluteX
                || mode == AddressingMode::AbsoluteY || mode == AddressingMode::Indirect,
            op1 == self.operand_addr(mode, 1),
            op2 == self.operand_addr(mode, 2),
        ensures
            final(bus).wf(),
            final(bus).ram == old(bus).ram,
            self.address_reads_quiet(*old(bus), mode) ==> r == self.address_spec(*old(bus), mode)
                && *final(bus) == *old(bus),
    {
        proof {
            reveal(CPU::address_spec);
            reveal(CPU::address_reads_quiet);
        }
        let base = read_word(bus, op1, op2);
        match mode {
            AddressingMode::AbsoluteX => index_address(base, self.x),
            AddressingMode::AbsoluteY => index_address(base, self.y),
            AddressingMode::Indirect => (read_word(bus, base, pointer_high(base)), false),
            _ => (base, false),
        }
    }

    #[verifier::rlimit(100)]
    #[verifier::spinoff_prover]
    fn data_zero_page(&self, bus: &mut NESMemory, mode: AddressingMode, op1: u16) -> (r: (u16, bool))
        requires
            old(bus).wf(),
            mode == AddressingMode::ZeroPageIndexed || mode == AddressingMode::ZeroPageX
                || mode == AddressingMode::ZeroPageY,
            op1 == self.operand_addr(mode, 1),
        ensures
            final(bus).wf(),
            final(bus).ram == old(bus).ram,
            self.address_reads_quiet(*old(bus), mode) ==> r == self.address_spec(*old(bus), mode)
                && *final(bus) == *old(bus),
    {
        proof {
            reveal(CPU::address_spec);
            reveal(CPU::address_reads_quiet);
        }
        let b = fetch(bus, op1);
        match mode {
            AddressingMode::ZeroPageIndexed => (b as u16, false),
            AddressingMode::ZeroPageX => (b.wrapping_add(self.x) as u16, false),
            _ => (b.wrapping_add(self.y) as u16, false),
        }
    }

    #[verifier::spinoff_prover]
    fn data_relative(&self, bus: &mut NESMemory, op1: u16) -> (r: (u16, bool))
        requires
            old(bus).wf(),
            op1 == self.operand_addr(AddressingMode::Relative, 1),
        ensures
            final(bus).wf(),
            final(bus).ram == old(bus).ram,
            self.address_reads_quiet(*old(bus), AddressingMode::Relative) ==> r == self.address_spec(
                *old(bus), AddressingMode::Relative) && *final(bus) == *old(bus),
    {
        proof {
            reveal(CPU::address_spec);
            reveal(CPU::address_reads_quiet);
        }
        let b = fetch(bus, op1);
        (relative(self.pc, b), false)
    }

    #[verifier::rlimit(100)]
    #[verifier::spinoff_prover]
    fn data_indirect(&self, bus: &mut NESMemory, mode: AddressingMode, op1: u16) -> (r: (u16, bool))
        requires
            old(bus).wf(),
            mode == AddressingMode::IndexedIndirect || mode == AddressingMode::IndirectIndexed,
            op1 == self.operand_addr(mode, 1),
        ensures
            final(bus).wf(),
            final(bus).ram == old(bus).ram,
            self.address_reads_quiet(*old(bus), mode) ==> r == self.address_spec(*old(bus), mode)
                && *final(bus) == *old(bus),
    {
        proof {
            reveal(CPU::address_spec);
            reveal(CPU::address_reads_quiet);
        }
        let b = fetch(bus, op1);
        if mode == AddressingMode::IndexedIndirect {
            let p = b.wrapping_add(self.x) as u16;
            (read_word(bus, p, pointer_high(p)), false)
        } else {
            let p = b as u16;
            let base = read_word(bus, p, pointer_high(p));
            index_address(base, self.y)
        }
    }

    /// Pushes PC and P (with U set and B as given) and jumps through a vector,
    /// with interrupts disabled.
    #[verifier::spinoff_prover]
    fn interrupt_to(&mut self, bus: &mut NESMemory, vector: u16, brk: bool)
        requires
            old(bus).wf(),
            vector >= 0x6000,
            vector < 0xffff,
        ensures
            final(bus).wf(),
            final(self).pc == word(*old(bus), vector, (vector + 1) as u16),
            final(self).i,
            final(self).sp == pushed_sp(old(self).sp, 3),
            final(bus).ram@ == old(bus).ram@.update(stack_addr(old(self).sp) as int, (old(self).pc / 256) as u8)
                .update(stack_addr(pushed_sp(old(self).sp, 1)) as int, (old(self).pc % 256) as u8)
                .update(stack_addr(pushed_sp(old(self).sp, 2)) as int,
                    if brk { old(self).flags_spec() | 0x30 } else { (old(self).flags_spec() & 0xef) | 0x20 }),
            final(self).a == old(self).a && final(self).x == old(self).x && final(self).y == old(self).y,
            final(self).cycles == old(self).cycles,
            final(self).stall == old(self).stall,
    {
        let pc = self.pc;
        self.stack_push16(bus, pc);
        let flags = self.flags();
        let pushed = if brk { flags | 0x30 } else { (flags & 0xef) | 0x20 };
        self.stack_push8(bus, pushed);
        let ghost b1 = *bus;
        let lo = fetch(bus, vector) as u16;
        let hi = fetch(bus, vector + 1) as u16;
        proof {
            crate::mem::lemma_peek_cart(b1, *old(bus), vector);
            crate::mem::lemma_peek_cart(b1, *old(bus), (vector + 1) as u16);
        }
        self.i = true;
        self.pc = hi * 256 + lo;
    }

    /// STA, STX, STY and SAX.
    #[verifier::spinoff_prover]
    fn run_store(&mut self, bus: &mut NESMemory, inst: Instruction, addr: u16)
        requires
            old(bus).wf(),
            is_store(inst),
        ensures
            final(bus).wf(),
            final(self).cycles == old(self).cycles,
            addr < 0x2000 ==> final(bus).ram@ == old(bus).ram@.update(
                ram_index(addr), store_value(*old(self), inst)),
            addr != 0x4014 ==> *final(self) == *old(self),
    {
        let v = match inst {
            Instruction::STA => self.a,
            Instruction::STX => self.x,
            Instruction::STY => self.y,
            _ => self.a & self.x,
        };
        self.write(bus, addr, v);
    }

    /// The conditional branches: taken branches cost one cycle, two across a page.
    fn run_branch(&mut self, inst: Instruction, addr: u16) -> (extra: u64)
        requires
            is_branch(inst),
        ensures
            *final(self) == (CPU {
                pc: if branch_taken(*old(self), inst) { addr } else { old(self).pc },
                ..*old(self)
            }),
            extra == (if branch_taken(*old(self), inst) { branch_cycles(old(self).pc, addr) } else { 0 }),
    {
        let taken = match inst {
            Instruction::BCC => !self.c,
            Instruction::BCS => self.c,
            Instruction::BEQ => self.z,
            Instruction::BNE => !self.z,
            Instruction::BMI => self.s,
            Instruction::BPL => !self.s,
            Instruction::BVC => !self.v,
            _ => self.v,
        };
        if taken {
            let extra: u64 = if pages_differ(self.pc, addr) { 2 } else { 1 };
            self.pc = addr;
            extra
        } else {
            0
        }
    }

    /// JSR, RTS, RTI and BRK.
    #[verifier::spinoff_prover]
    fn run_subroutine(&mut self, bus: &mut NESMemory, inst: Instruction, addr: u16)
        requires
            old(bus).wf(),
            inst == Instruction::JSR || inst == Instruction::RTS || inst == Instruction::RTI
                || inst == Instruction::BRK,
        ensures
            final(bus).wf(),
            final(self).cycles == old(self).cycles,
            final(self).stall == old(self).stall,
            inst == Instruction::JSR ==> final(self).pc == addr
                && final(self).sp == pushed_sp(old(self).sp, 2),
            inst == Instruction::RTS ==> final(self).sp == popped_sp(old(self).sp, 2)
                && final(self).pc == ((old(bus).ram@[stack_addr(popped_sp(old(self).sp, 1)) as int]
                    + 256 * old(bus).ram@[stack_addr(popped_sp(old(self).sp, 2)) as int] + 1) % 0x10000),
            inst == Instruction::BRK ==> final(self).i && final(self).sp == pushed_sp(old(self).sp, 3)
                && final(self).pc == word(*old(bus), 0xfffe, 0xffff)
                && final(bus).ram@ == old(bus).ram@
                    .update(stack_addr(old(self).sp) as int, (old(self).pc / 256) as u8)
                    .update(stack_addr(pushed_sp(old(self).sp, 1)) as int, (old(self).pc % 256) as u8)
                    .update(stack_addr(pushed_sp(old(self).sp, 2)) as int, old(self).flags_spec() | 0x30),
            inst == Instruction::JSR ==> final(bus).ram@ == old(bus).ram@
                .update(stack_addr(old(self).sp) as int, (((old(self).pc + 0xffff) % 0x10000) / 256) as u8)
                .update(stack_addr(pushed_sp(old(self).sp, 1)) as int, (((old(self).pc + 0xffff) % 0x10000) % 256) as u8),
            inst == Instruction::RTI ==> final(self).sp == popped_sp(old(self).sp, 3)
                && final(self).pc == old(bus).ram@[stack_addr(popped_sp(old(self).sp, 2)) as int]
                    + 256 * old(bus).ram@[stack_addr(popped_sp(old(self).sp, 3)) as int]
                && final(self).flags_spec() == (old(bus).ram@[stack_addr(popped_sp(old(self).sp, 1)) as int] & 0xef) | 0x20,
    {
        match inst {
            Instruction::JSR => {
                let ret = self.pc.wrapping_sub(1);
                self.stack_push16(bus, ret);
                self.pc = addr;
            },
            Instruction::RTS => {
                let ret = self.stack_pop16(bus);
                self.pc = ret.wrapping_add(1);
            },
            Instruction::RTI => {
                let p = self.stack_pop8(bus);
                self.set_flags((p & 0xef) | 0x20);
                proof {
                    crate::cpu::lemma_flags_round_trip(*self, (p & 0xef) | 0x20);
                }
                let ret = self.stack_pop16(bus);
                self.pc = ret;
            },
            _ => {
                self.interrupt_to(bus, 0xfffe, true);
            },
        }
    }

    /// PHA, PHP, PLA and PLP. Pushed status bytes have B and U set; pulled
    /// ones have B cleared and U set.
    #[verifier::spinoff_prover]
    fn run_stack(&mut self, bus: &mut NESMemory, inst: Instruction)
        requires
            old(bus).wf(),
            inst == Instruction::PHA || inst == Instruction::PHP || inst == Instruction::PLA
                || inst == Instruction::PLP,
        ensures
            final(bus).wf(),
            inst == Instruction::PHA ==> final(bus).ram@ == old(bus).ram@.update(
                stack_addr(old(self).sp) as int, old(self).a)
                && *final(self) == (CPU { sp: pushed_sp(old(self).sp, 1), ..*old(self) }),
            inst == Instruction::PLA ==> *final(self) == (CPU {
                a: old(bus).ram@[stack_addr(popped_sp(old(self).sp, 1)) as int],
                sp: popped_sp(old(self).sp, 1),
                ..*old(self)
            }).with_nz(old(bus).ram@[stack_addr(popped_sp(old(self).sp, 1)) as int]),
            inst == Instruction::PHP ==> final(bus).ram@ == old(bus).ram@.update(
                stack_addr(old(self).sp) as int, old(self).flags_spec() | 0x30)
                && *final(self) == (CPU { sp: pushed_sp(old(self).sp, 1), ..*old(self) }),
            inst == Instruction::PLP ==> *final(self) == (CPU { sp: popped_sp(old(self).sp, 1), ..*old(self) })
                .with_flags((old(bus).ram@[stack_addr(popped_sp(old(self).sp, 1)) as int] & 0xef) | 0x20),
    {
        match inst {
            Instruction::PHA => {
                let a = self.a;
                self.stack_push8(bus, a);
            },
            Instruction::PHP => {
                let p = self.flags() | 0x30;
                self.stack_push8(bus, p);
            },
            Instruction::PLA => {
                let v = self.stack_pop8(bus);
                self.a = v;
                self.s = v >= 0x80;
                self.z = v == 0;
            },
            _ => {
                let p = self.stack_pop8(bus);
                self.set_flags((p & 0xef) | 0x20);
            },
        }
    }

    /// Jumps, subroutine and stack instructions, and JAM.
    #[verifier::spinoff_prover]
    fn run_flow(&mut self, bus: &mut NESMemory, inst: Instruction, addr: u16)
        requires
            old(bus).wf(),
        ensures
            final(bus).wf(),
            inst == Instruction::JMP ==> final(self).pc == addr,
            inst == Instruction::JAM ==> final(self).jammed,
            final(self).cycles == old(self).cycles,
            inst == Instruction::JSR ==> final(self).pc == addr
                && final(self).sp == pushed_sp(old(self).sp, 2),
            inst == Instruction::RTS ==> final(self).sp == popped_sp(old(self).sp, 2)
                && final(self).pc == ((old(bus).ram@[stack_addr(popped_sp(old(self).sp, 1)) as int]
                    + 256 * old(bus).ram@[stack_addr(popped_sp(old(self).sp, 2)) as int] + 1) % 0x10000),
            inst == Instruction::BRK ==> final(self).i && final(self).sp == pushed_sp(old(self).sp, 3)
                && final(self).pc == word(*old(bus), 0xfffe, 0xffff)
                && final(bus).ram@ == old(bus).ram@
                    .update(stack_addr(old(self).sp) as int, (old(self).pc / 256) as u8)
                    .update(stack_addr(pushed_sp(old(self).sp, 1)) as int, (old(self).pc % 256) as u8)
                    .update(stack_addr(pushed_sp(old(self).sp, 2)) as int, old(self).flags_spec() | 0x30),
            inst == Instruction::JSR ==> final(bus).ram@ == old(bus).ram@
                .update(stack_addr(old(self).sp) as int, (((old(self).pc + 0xffff) % 0x10000) / 256) as u8)
                .update(stack_addr(pushed_sp(old(self).sp, 1)) as int, (((old(self).pc + 0xffff) % 0x10000) % 256) as u8),
            inst == Instruction::RTI ==> final(self).sp == popped_sp(old(self).sp, 3)
                && final(self).pc == old(bus).ram@[stack_addr(popped_sp(old(self).sp, 2)) as int]
                    + 256 * old(bus).ram@[stack_addr(popped_sp(old(self).sp, 3)) as int]
                && final(self).flags_spec() == (old(bus).ram@[stack_addr(popped_sp(old(self).sp, 1)) as int] & 0xef) | 0x20,
            inst == Instruction::PHA ==> final(bus).ram@ == old(bus).ram@.update(
                stack_addr(old(self).sp) as int, old(self).a)
                && *final(self) == (CPU { sp: pushed_sp(old(self).sp, 1), ..*old(self) }),
            inst == Instruction::PLA ==> *final(self) == (CPU {
                a: old(bus).ram@[stack_addr(popped_sp(old(self).sp, 1)) as int],
                sp: popped_sp(old(self).sp, 1),
                ..*old(self)
            }).with_nz(old(bus).ram@[stack_addr(popped_sp(old(self).sp, 1)) as int]),
            inst == Instruction::PHP ==> final(bus).ram@ == old(bus).ram@.update(
                stack_addr(old(self).sp) as int, old(self).flags_spec() | 0x30)
                && *final(self) == (CPU { sp: pushed_sp(old(self).sp, 1), ..*old(self) }),
            inst == Instruction::PLP ==> *final(self) == (CPU { sp: popped_sp(old(self).sp, 1), ..*old(self) })
                .with_flags((old(bus).ram@[stack_addr(popped_sp(old(self).sp, 1)) as int] & 0xef) | 0x20),
    {
        match inst {
            Instruction::JMP => {
                self.pc = addr;
            },
            Instruction::JSR | Instruction::RTS | Instruction::RTI | Instruction::BRK => {
                self.run_subroutine(bus, inst, addr);
            },
            Instruction::PHA | Instruction::PHP | Instruction::PLA | Instruction::PLP => {
                self.run_stack(bus, inst);
            },
            _ => {
                self.jammed = true;
                self.pc = self.pc.wrapping_sub(1);
            },
        }
    }

    /// A read-modify-write instruction: the new byte goes back to `addr`.
    #[verifier::spinoff_prover]
    fn run_rmw(&mut self, bus: &mut NESMemory, inst: Instruction, addr: u16, val: u8)
        requires
            old(bus).wf(),
        ensures
            final(bus).wf(),
            addr != 0x4014 ==> *final(self) == rmw_spec(*old(self), inst, val).0,
            addr < 0x2000 ==> final(bus).ram@ == old(bus).ram@.update(
                ram_index(addr), rmw_spec(*old(self), inst, val).1),
            final(self).cycles == old(self).cycles,
    {
        let w = self.rmw(inst, val);
        self.write(bus, addr, w);
    }

    /// Services a non-maskable interrupt now: pushes PC and P, disables
    /// interrupts and jumps through $FFFA/$FFFB.
    pub fn nmi(&mut self, bus: &mut NESMemory)
        requires
            old(bus).wf(),
        ensures
            final(bus).wf(),
            final(self).pc == word(*old(bus), 0xfffa, 0xfffb),
            final(self).i,
            final(self).sp == pushed_sp(old(self).sp, 3),
    {
        self.interrupt_to(bus, 0xfffa, false);
    }

    /// Whether a latched interrupt is serviced now: NMI always, IRQ only
    /// while interrupts are enabled.
    pub open spec fn services_interrupt(&self) -> bool {
        self.interrupt == Interrupt::NMI || (self.interrupt == Interrupt::IRQ && !self.i)
    }

    /// Fetches, decodes and executes one instruction. Returns its cycles:
    /// the base count, the page-cross cycle and the branch cycles.
    #[verifier::spinoff_prover]
    #[verifier::rlimit(100)]
    fn execute_instruction(&mut self, bus: &mut NESMemory) -> (r: u64)
        requires
            old(bus).wf(),
        ensures
            final(bus).wf(),
            2 <= r <= 11,
            final(self).cycles == old(self).cycles,
            instruction_post(*old(self), *old(bus), *final(self), r),
    {
        let ghost c0 = *self;
        let ghost b0 = *bus;
        let opcode = fetch(bus, self.pc);
        let o = decode(opcode);
        let Opcode(inst, mode, cycles, page_cycles) = o;
        self.pc = self.pc.wrapping_add(mode.n_bytes() as u16);
        let ghost c1 = *self;
        let (addr, crossed) = mode.get_data(self, bus);
        let val = if reads_operand_exec(inst, mode) { fetch(bus, addr) } else { 0 };
        let extra = run_for_step(self, bus, inst, mode, addr, val);
        let r = cycles as u64 + extra + if crossed { page_cycles as u64 } else { 0 };
        proof {
            crate::cpu::alu::lemma_alu_keeps(c1, inst, val);
            lemma_instruction_effect(c0, b0, o, c1, addr, crossed, val,
                CPU { cycles: c0.cycles, interrupt: c0.interrupt, ..*self }, extra, r);
        }
        r
    }

    /// Services the latched interrupt: pushes PC and P (B clear, U set),
    /// sets I and jumps through $FFFA (NMI) or $FFFE (IRQ); 7 cycles.
    #[verifier::spinoff_prover]
    fn service_interrupt(&mut self, bus: &mut NESMemory) -> (r: u64)
        requires
            old(bus).wf(),
            old(self).services_interrupt(),
        ensures
            final(bus).wf(),
            final(self).cycles == (old(self).cycles + INTERRUPT_CYCLES) % 0x1_0000_0000_0000_0000,
            final(self).interrupt == Interrupt::Idle,
            r == INTERRUPT_CYCLES,
            interrupt_post(*old(self), *old(bus), *final(self), *final(bus), r),
    {
        let vector: u16 = if self.interrupt == Interrupt::NMI { 0xfffa } else { 0xfffe };
        self.interrupt_to(bus, vector, false);
        self.interrupt = Interrupt::Idle;
        self.cycles = self.cycles.wrapping_add(INTERRUPT_CYCLES);
        proof {
            reveal(interrupt_post);
        }
        INTERRUPT_CYCLES
    }

    /// One CPU step: a pending DMA stall cycle; or the servicing of a latched
    /// interrupt (see `interrupt_post`); or one instruction (see
    /// `instruction_post`). Returns the cycles consumed.
    #[verifier::spinoff_prover]
    #[verifier::rlimit(100)]
    pub fn step(&mut self, bus: &mut NESMemory) -> (r: u64)
        requires
            old(bus).wf(),
        ensures
            final(bus).wf(),
            old(self).stall > 0 ==> r == 1 && *final(bus) == *old(bus)
                && *final(self) == (CPU { stall: (old(self).stall - 1) as u64, ..*old(self) }),
            old(self).stall == 0 ==> {
                &&& 2 <= r <= 11
                &&& final(self).cycles == (old(self).cycles + r) % 0x1_0000_0000_0000_0000
                &&& final(self).interrupt == Interrupt::Idle
            },
            old(self).stall == 0 && old(self).services_interrupt() ==> interrupt_post(
                *old(self), *old(bus), *final(self), *final(bus), r),
            old(self).stall == 0 && !old(self).services_interrupt() ==> instruction_post(
                CPU { interrupt: Interrupt::Idle, ..*old(self) },
                *old(bus),
                *final(self),
                r,
            ),
    {
        if self.stall > 0 {
            self.stall = self.stall - 1;
            return 1;
        }
        if self.interrupt == Interrupt::NMI || (self.interrupt == Interrupt::IRQ && !self.i) {
            return self.service_interrupt(bus);
        }
        self.interrupt = Interrupt::Idle;
        let ghost c0 = *self;
        let ghost b0 = *bus;
        let spent = self.execute_instruction(bus);
        let ghost fin = *self;
        self.cycles = self.cycles.wrapping_add(spent);
        self.interrupt = Interrupt::Idle;
        proof {
            lemma_instruction_post_normal(c0, b0, fin, *self, spent);
        }
        spent
    }
}

/// Servicing a latched interrupt: NMI vectors through $FFFA, IRQ through
/// $FFFE; PC high, PC low and P (B clear, U set) are pushed; I is set; the
/// latch clears and 7 cycles are charged.
#[verifier::opaque]
pub open spec fn interrupt_post(c0: CPU, b0: NESMemory, c: CPU, b: NESMemory, r: u64) -> bool {
    let vector: u16 = if c0.interrupt == Interrupt::NMI { 0xfffa } else { 0xfffe };
    &&& r == INTERRUPT_CYCLES
    &&& c.pc == word(b0, vector, (vector + 1) as u16)
    &&& c.i
    &&& c.sp == pushed_sp(c0.sp, 3)
    &&& c.interrupt == Interrupt::Idle
    &&& c.cycles == (c0.cycles + INTERRUPT_CYCLES) % 0x1_0000_0000_0000_0000
    &&& b.ram@ == b0.ram@.update(stack_addr(c0.sp) as int, (c0.pc / 256) as u8)
        .update(stack_addr(pushed_sp(c0.sp, 1)) as int, (c0.pc % 256) as u8)
        .update(stack_addr(pushed_sp(c0.sp, 2)) as int, (c0.flags_spec() & 0xef) | 0x20)
}

/// `Instruction::run`, with what `CPU::step` needs of it.
fn run_for_step(cpu: &mut CPU, bus: &mut NESMemory, inst: Instruction, mode: AddressingMode, addr: u16,
    val: u8) -> (extra: u64)
    requires
        old(bus).wf(),
    ensures
        final(bus).wf(),
        extra <= 2,
        is_alu(inst, mode) ==> *final(cpu) == alu_spec(*old(cpu), inst, val),
        is_branch(inst) ==> final(cpu).pc == (if branch_taken(*old(cpu), inst) { addr } else { old(cpu).pc })
            && extra == (if branch_taken(*old(cpu), inst) { branch_cycles(old(cpu).pc, addr) } else { 0 }),
        !is_branch(inst) ==> extra == 0,
        inst == Instruction::JMP ==> final(cpu).pc == addr,
        final(cpu).cycles == old(cpu).cycles,
{
    inst.run(cpu, bus, mode, addr, val)
}

/// The steps of one instruction establish `instruction_effect`.
proof fn lemma_instruction_effect(c0: CPU, bus: NESMemory, o: Opcode, c1: CPU, addr: u16, crossed: bool,
    val: u8, fin: CPU, extra: u64, r: u64)
    requires
        quiet(c0.pc) ==> o == opcode_table(bus.peek(c0.pc)),
        c1 == (CPU { pc: ((c0.pc + mode_bytes(o.1)) % 0x10000) as u16, ..c0 }),
        quiet(c0.pc) && c1.address_reads_quiet(bus, o.1) ==> (addr, crossed) == c1.address_spec(bus, o.1),
        quiet(c0.pc) && c1.address_reads_quiet(bus, o.1) && reads_operand(o.0, o.1) && quiet(addr) ==> val == bus.peek(addr),
        !reads_operand(o.0, o.1) ==> val == 0,
        is_alu(o.0, o.1) ==> fin == alu_spec(c1, o.0, val),
        is_branch(o.0) ==> fin.pc == (if branch_taken(c1, o.0) { addr } else { c1.pc })
            && extra == (if branch_taken(c1, o.0) { branch_cycles(c1.pc, addr) } else { 0 }),
        !is_branch(o.0) ==> extra == 0,
        o.0 == Instruction::JMP ==> fin.pc == addr,
        r == o.2 + extra + (if crossed { o.3 as int } else { 0 }),
    ensures
        instruction_effect(c0, bus, fin, r),
{
    reveal(instruction_effect);
}

/// `instruction_post` ignores the cycle counter and interrupt latch of the
/// state after.
pub proof fn lemma_instruction_post_normal(c0: CPU, bus: NESMemory, a: CPU, b: CPU, r: u64)
    requires
        instruction_post(c0, bus, a, r),
        b == (CPU { cycles: b.cycles, interrupt: b.interrupt, ..a }),
    ensures
        instruction_post(c0, bus, b, r),
{
    assert(CPU { cycles: c0.cycles, interrupt: c0.interrupt, ..a }
        == CPU { cycles: c0.cycles, interrupt: c0.interrupt, ..b });
}

/// What executing the instruction at `c0.pc` does, when its opcode and
/// operand bytes are read without side effects: branches take their target
/// and cost one cycle more (two across a page), register-only instructions
/// follow `alu_spec`, JMP jumps, and the cycle count is the table's base plus
/// the page-cross cycle. `fin` is the CPU after, with its cycle counter as before.
pub open spec fn instruction_post(c0: CPU, bus: NESMemory, after: CPU, r: u64) -> bool {
    instruction_effect(c0, bus, CPU { cycles: c0.cycles, interrupt: c0.interrupt, ..after }, r)
}

/// The effect of `instruction_post`, on the state after with its cycle counter
/// and interrupt latch as before.
#[verifier::opaque]
pub open spec fn instruction_effect(c0: CPU, bus: NESMemory, fin: CPU, r: u64) -> bool {
    quiet(c0.pc) ==> {
        let o = opcode_table(bus.peek(c0.pc));
        let c1 = CPU { pc: ((c0.pc + mode_bytes(o.1)) % 0x10000) as u16, ..c0 };
        c1.address_reads_quiet(bus, o.1) ==> {
            let addr = c1.address_spec(bus, o.1).0;
            let page: int = if c1.address_spec(bus, o.1).1 { o.3 as int } else { 0 };
            &&& (is_branch(o.0) ==> {
                &&& fin.pc == (if branch_taken(c1, o.0) { addr } else { c1.pc })
                &&& r == o.2 + page + (if branch_taken(c1, o.0) { branch_cycles(c1.pc, addr) as int } else { 0 })
            })
            &&& (is_alu(o.0, o.1) && (!reads_operand(o.0, o.1) || quiet(addr)) ==> {
                &&& fin == alu_spec(c1, o.0, if reads_operand(o.0, o.1) { bus.peek(addr) } else { 0 })
                &&& r == o.2 + page
            })
            &&& (o.0 == Instruction::JMP ==> fin.pc == addr && r == o.2 + page)
        }
    }
}

impl AddressingMode {
    /// Computes the effective address of the current instruction's operand
    /// and whether indexing crossed a page. The program counter has already
    /// moved past the instruction. Indirect JMP fetches the high byte of its
    /// target from the start of the same page when the pointer ends a page,
    /// and zero-page indexing wraps within page zero.
    pub fn get_data(&self, cpu: &CPU, bus: &mut NESMemory) -> (r: (u16, bool))
        requires
            old(bus).wf(),
        ensures
            final(bus).wf(),
            final(bus).ram == old(bus).ram,
            cpu.address_reads_quiet(*old(bus), *self) ==> r == cpu.address_spec(*old(bus), *self)
                && *final(bus) == *old(bus),
            *self == AddressingMode::Immediate ==> r == (cpu.operand_addr(*self, 1), false),
    {
        proof {
            reveal(CPU::address_spec);
            reveal(CPU::address_reads_quiet);
        }
        let start = cpu.pc.wrapping_sub(self.n_bytes() as u16);
        let op1 = start.wrapping_add(1);
        let op2 = start.wrapping_add(2);
        match *self {
            AddressingMode::Immediate => (op1, false),
            AddressingMode::Implied | AddressingMode::Accumulator => (0, false),
            AddressingMode::Absolute | AddressingMode::AbsoluteX | AddressingMode::AbsoluteY
            | AddressingMode::Indirect => cpu.data_absolute(bus, *self, op1, op2),
            AddressingMode::IndexedIndirect | AddressingMode::IndirectIndexed =>
                cpu.data_indirect(bus, *self, op1),
            AddressingMode::Relative => cpu.data_relative(bus, op1),
            _ => cpu.data_zero_page(bus, *self, op1),
        }
    }

}

impl Instruction {
    /// Executes one decoded instruction with its effective address and, where
    /// it reads one, its operand value. Returns the cycles a branch adds.
    #[verifier::rlimit(100)]
    #[verifier::spinoff_prover]
    pub fn run(&self, cpu: &mut CPU, bus: &mut NESMemory, mode: AddressingMode, addr: u16, val: u8)
        -> (extra: u64)
        requires
            old(bus).wf(),
        ensures
            final(bus).wf(),
            extra <= 2,
            is_alu(*self, mode) ==> *final(cpu) == alu_spec(*old(cpu), *self, val)
                && *final(bus) == *old(bus) && extra == 0,
            is_rmw(*self, mode) && addr != 0x4014 ==> *final(cpu) == rmw_spec(*old(cpu), *self, val).0,
            is_rmw(*self, mode) && addr < 0x2000 ==> final(bus).ram@ == old(bus).ram@.update(
                ram_index(addr), rmw_spec(*old(cpu), *self, val).1),
            is_store(*self) && addr < 0x2000 ==> final(bus).ram@ == old(bus).ram@.update(
                ram_index(addr), store_value(*old(cpu), *self)),
            is_branch(*self) ==> final(cpu).pc == (if branch_taken(*old(cpu), *self) { addr } else { old(cpu).pc })
                && extra == (if branch_taken(*old(cpu), *self) { branch_cycles(old(cpu).pc, addr) } else { 0 }),
            *self == Instruction::JMP ==> final(cpu).pc == addr,
            *self == Instruction::JAM ==> final(cpu).jammed,
            !is_branch(*self) ==> extra == 0,
            *self == Instruction::JSR ==> final(cpu).pc == addr
                && final(cpu).sp == pushed_sp(old(cpu).sp, 2),
            *self == Instruction::RTS ==> final(cpu).sp == popped_sp(old(cpu).sp, 2)
                && final(cpu).pc == ((old(bus).ram@[stack_addr(popped_sp(old(cpu).sp, 1)) as int]
                    + 256 * old(bus).ram@[stack_addr(popped_sp(old(cpu).sp, 2)) as int] + 1) % 0x10000),
            *self == Instruction::BRK ==> final(cpu).i && final(cpu).sp == pushed_sp(old(cpu).sp, 3)
                && final(cpu).pc == word(*old(bus), 0xfffe, 0xffff)
                && final(bus).ram@ == old(bus).ram@
                    .update(stack_addr(old(cpu).sp) as int, (old(cpu).pc / 256) as u8)
                    .update(stack_addr(pushed_sp(old(cpu).sp, 1)) as int, (old(cpu).pc % 256) as u8)
                    .update(stack_addr(pushed_sp(old(cpu).sp, 2)) as int, old(cpu).flags_spec() | 0x30),
            *self == Instruction::JSR ==> final(bus).ram@ == old(bus).ram@
                .update(stack_addr(old(cpu).sp) as int, (((old(cpu).pc + 0xffff) % 0x10000) / 256) as u8)
                .update(stack_addr(pushed_sp(old(cpu).sp, 1)) as int, (((old(cpu).pc + 0xffff) % 0x10000) % 256) as u8),
            *self == Instruction::RTI ==> final(cpu).sp == popped_sp(old(cpu).sp, 3)
                && final(cpu).pc == old(bus).ram@[stack_addr(popped_sp(old(cpu).sp, 2)) as int]
                    + 256 * old(bus).ram@[stack_addr(popped_sp(old(cpu).sp, 3)) as int]
                && final(cpu).flags_spec() == (old(bus).ram@[stack_addr(popped_sp(old(cpu).sp, 1)) as int] & 0xef) | 0x20,
            *self == Instruction::PHA ==> final(bus).ram@ == old(bus).ram@.update(
                stack_addr(old(cpu).sp) as int, old(cpu).a)
                && *final(cpu) == (CPU { sp: pushed_sp(old(cpu).sp, 1), ..*old(cpu) }),
            *self == Instruction::PLA ==> *final(cpu) == (CPU {
                a: old(bus).ram@[stack_addr(popped_sp(old(cpu).sp, 1)) as int],
                sp: popped_sp(old(cpu).sp, 1),
                ..*old(cpu)
            }).with_nz(old(bus).ram@[stack_addr(popped_sp(old(cpu).sp, 1)) as int]),
            *self == Instruction::PHP ==> final(bus).ram@ == old(bus).ram@.update(
                stack_addr(old(cpu).sp) as int, old(cpu).flags_spec() | 0x30)
                && *final(cpu) == (CPU { sp: pushed_sp(old(cpu).sp, 1), ..*old(cpu) }),
            *self == Instruction::PLP ==> *final(cpu) == (CPU { sp: popped_sp(old(cpu).sp, 1), ..*old(cpu) })
                .with_flags((old(bus).ram@[stack_addr(popped_sp(old(cpu).sp, 1)) as int] & 0xef) | 0x20),
            final(cpu).cycles == old(cpu).cycles,
    {
        if is_alu_exec(*self, mode) {
            cpu.alu(*self, val);
            0
        } else if is_rmw_exec(*self, mode) {
            cpu.run_rmw(bus, *self, addr, val);
            0
        } else if is_store_exec(*self) {
            cpu.run_store(bus, *self, addr);
            0
        } else if is_branch_exec(*self) {
            cpu.run_branch(*self, addr)
        } else {
            cpu.run_flow(bus, *self, addr);
            0
        }
    }

}

fn is_alu_exec(inst: Instruction, mode: AddressingMode) -> (r: bool)
    ensures
        r == is_alu(inst, mode),
{
    match inst {
        Instruction::ASL | Instruction::LSR | Instruction::ROL | Instruction::ROR =>
            mode == AddressingMode::Accumulator,
        Instruction::ADC | Instruction::SBC | Instruction::AND | Instruction::ORA
        | Instruction::EOR | Instruction::CMP | Instruction::CPX | Instruction::CPY
        | Instruction::BIT | Instruction::LDA | Instruction::LDX | Instruction::LDY
        | Instruction::LAX | Instruction::ANC | Instruction::CLC | Instruction::CLD
        | Instruction::CLI | Instruction::CLV | Instruction::SEC | Instruction::SED
        | Instruction::SEI | Instruction::TAX | Instruction::TAY | Instruction::TSX
        | Instruction::TXA | Instruction::TXS | Instruction::TYA | Instruction::INX
        | Instruction::INY | Instruction::DEX | Instruction::DEY | Instruction::NOP => true,
        _ => false,
    }
}

fn is_rmw_exec(inst: Instruction, mode: AddressingMode) -> (r: bool)
    ensures
        r == is_rmw(inst, mode),
{
    match inst {
        Instruction::ASL | Instruction::LSR | Instruction::ROL | Instruction::ROR =>
            mode != AddressingMode::Accumulator,
        Instruction::INC | Instruction::DEC | Instruction::DCP | Instruction::ISB
        | Instruction::SLO | Instruction::RLA | Instruction::SRE | Instruction::RRA => true,
        _ => false,
    }
}

fn is_store_exec(inst: Instruction) -> (r: bool)
    ensures
        r == is_store(inst),
{
    match inst {
        Instruction::STA | Instruction::STX | Instruction::STY | Instruction::SAX => true,
        _ => false,
    }
}

fn is_branch_exec(inst: Instruction) -> (r: bool)
    ensures
        r == is_branch(inst),
{
    match inst {
        Instruction::BCC | Instruction::BCS | Instruction::BEQ | Instruction::BNE
        | Instruction::BMI | Instruction::BPL | Instruction::BVC | Instruction::BVS => true,
        _ => false,
    }
}

fn reads_operand_exec(inst: Instruction, mode: AddressingMode) -> (r: bool)
    ensures
        r == reads_operand(inst, mode),
{
    (is_alu_exec(inst, mode) && inst != Instruction::NOP && mode != AddressingMode::Implied
        && mode != AddressingMode::Accumulator) || is_rmw_exec(inst, mode)
}

} // verus!
