//! The 6502 CPU: registers and flags, the stack, addressing modes,
//! instruction semantics, interrupts, OAM DMA and cycle accounting.
use vstd::prelude::*;

pub mod alu;
pub mod execute;

use crate::mem::{quiet, ram_index, NESMemory};
use crate::opcode::{mode_bytes, AddressingMode};

verus! {

broadcast use crate::bits::group_masks;

pub const STACK_INIT: u8 = 0xfd;
/// Cycles taken to service an interrupt.
pub const INTERRUPT_CYCLES: u64 = 7;

#[derive(Clone, Copy, Debug, PartialEq, Eq, Structural)]
pub enum Interrupt {
    Idle,
    NMI,
    IRQ,
}

#[derive(Clone, Copy, Debug, PartialEq, Eq, Structural)]
pub struct CPU {
    pub a: u8,
    pub x: u8,
    pub y: u8,
    /// Carry
    pub c: bool,
    /// Zero
    pub z: bool,
    /// Interrupt disable
    pub i: bool,
    /// Decimal mode (kept, never used in arithmetic)
    pub d: bool,
    /// Break
    pub b: bool,
    /// Unused, reads as set
    pub u: bool,
    /// Overflow
    pub v: bool,
    /// Sign (negative)
    pub s: bool,
    pub pc: u16,
    pub sp: u8,
    pub interrupt: Interrupt,
    /// Pending bus-idle cycles (DMA).
    pub stall: u64,
    pub cycles: u64,
    /// Set once a JAM opcode has locked the CPU.
    pub jammed: bool,
}

/// The status register packed as a byte: C Z I D B U V N from bit 0 up.
pub open spec fn flags_byte(c: bool, z: bool, i: bool, d: bool, b: bool, u: bool, v: bool, s: bool) -> u8 {
    (if c { 1u8 } else { 0u8 }) | (if z { 2u8 } else { 0u8 }) | (if i { 4u8 } else { 0u8 })
        | (if d { 8u8 } else { 0u8 }) | (if b { 0x10u8 } else { 0u8 }) | (if u { 0x20u8 } else { 0u8 })
        | (if v { 0x40u8 } else { 0u8 }) | (if s { 0x80u8 } else { 0u8 })
}

/// Address of the stack slot that the stack pointer designates.
pub open spec fn stack_addr(sp: u8) -> u16 {
    (0x100 + sp) as u16
}

/// The stack pointer after `n` pushes.
pub open spec fn pushed_sp(sp: u8, n: nat) -> u8 {
    ((sp - n) % 256) as u8
}

/// The stack pointer after `n` pops.
pub open spec fn popped_sp(sp: u8, n: nat) -> u8 {
    ((sp + n) % 256) as u8
}

/// Address of the byte holding the high half of a pointer stored at `p`: the
/// next byte, except that a pointer at the end of a page wraps to its start.
pub open spec fn pointer_high(p: u16) -> u16 {
    if p % 256 == 255 { (p - 255) as u16 } else { (p + 1) as u16 }
}

pub open spec fn word(bus: NESMemory, lo: u16, hi: u16) -> u16 {
    (bus.peek(lo) + 256 * bus.peek(hi)) as u16
}

/// A branch target: the address after the instruction plus a signed offset.
pub open spec fn relative_target(pc: u16, offset: u8) -> u16 {
    ((pc + (if offset >= 128 { offset - 256 } else { offset as int }) + 0x10000) % 0x10000) as u16
}

/// The indexed address and whether it lies on another page than the base.
pub open spec fn indexed(base: u16, index: u8) -> (u16, bool) {
    let n = ((base + index) % 0x10000) as u16;
    (n, base / 256 != n / 256)
}

impl CPU {
    pub open spec fn flags_spec(&self) -> u8 {
        flags_byte(self.c, self.z, self.i, self.d, self.b, self.u, self.v, self.s)
    }

    pub open spec fn with_flags(self, p: u8) -> CPU {
        CPU {
            c: p & 1 != 0,
            z: p & 2 != 0,
            i: p & 4 != 0,
            d: p & 8 != 0,
            b: p & 0x10 != 0,
            u: p & 0x20 != 0,
            v: p & 0x40 != 0,
            s: p & 0x80 != 0,
            ..self
        }
    }

    /// Address of the first operand byte of the instruction whose bytes the
    /// program counter has just moved past.
    pub open spec fn operand_addr(&self, mode: AddressingMode, k: int) -> u16 {
        ((self.pc - mode_bytes(mode) + k + 0x10000) % 0x10000) as u16
    }

    /// The effective address of an operand and whether indexing crossed a page,
    /// with the operand bytes and pointers read from the bus.
    #[verifier::opaque]
    pub open spec fn address_spec(&self, bus: NESMemory, mode: AddressingMode) -> (u16, bool) {
        let op1 = self.operand_addr(mode, 1);
        let op2 = self.operand_addr(mode, 2);
        match mode {
            AddressingMode::Immediate => (op1, false),
            AddressingMode::Absolute => (word(bus, op1, op2), false),
            AddressingMode::Implied | AddressingMode::Accumulator => (0, false),
            AddressingMode::ZeroPageIndexed => (bus.peek(op1) as u16, false),
            AddressingMode::Relative => (relative_target(self.pc, bus.peek(op1)), false),
            AddressingMode::AbsoluteX => indexed(word(bus, op1, op2), self.x),
            AddressingMode::AbsoluteY => indexed(word(bus, op1, op2), self.y),
            AddressingMode::Indirect => {
                let p = word(bus, op1, op2);
                (word(bus, p, pointer_high(p)), false)
            },
            AddressingMode::ZeroPageX => (((bus.peek(op1) + self.x) % 256) as u16, false),
            AddressingMode::ZeroPageY => (((bus.peek(op1) + self.y) % 256) as u16, false),
            AddressingMode::IndexedIndirect => {
                let p = ((bus.peek(op1) + self.x) % 256) as u16;
                (word(bus, p, pointer_high(p)), false)
            },
            AddressingMode::IndirectIndexed => {
                let p = bus.peek(op1) as u16;
                indexed(word(bus, p, pointer_high(p)), self.y)
            },
        }
    }

    /// Whether every byte that addressing reads is free of side effects.
    #[verifier::opaque]
    pub open spec fn address_reads_quiet(&self, bus: NESMemory, mode: AddressingMode) -> bool {
        let op1 = self.operand_addr(mode, 1);
        let op2 = self.operand_addr(mode, 2);
        let p = word(bus, op1, op2);
        &&& (mode_bytes(mode) >= 2 ==> quiet(op1))
        &&& (mode_bytes(mode) == 3 ==> quiet(op2))
        &&& (mode == AddressingMode::Indirect ==> quiet(p) && quiet(pointer_high(p)))
    }

    pub fn new_cpu() -> (r: Self)
        ensures
            r.a == 0 && r.x == 0 && r.y == 0 && r.pc == 0 && r.sp == STACK_INIT,
            r.flags_spec() == 0,
            r.interrupt == Interrupt::Idle,
            r.stall == 0 && r.cycles == 0 && !r.jammed,
    {
        let r = CPU {
            a: 0,
            x: 0,
            y: 0,
            c: false,
            z: false,
            i: false,
            d: false,
            b: false,
            u: false,
            v: false,
            s: false,
            pc: 0,
            sp: STACK_INIT,
            interrupt: Interrupt::Idle,
            stall: 0,
            cycles: 0,
            jammed: false,
        };
        assert(flags_byte(false, false, false, false, false, false, false, false) == 0) by (bit_vector);
        r
    }

    /// The status register as a byte.
    pub fn flags(&self) -> (r: u8)
        ensures
            r == self.flags_spec(),
    {
        (if self.c { 1u8 } else { 0u8 }) | (if self.z { 2u8 } else { 0u8 }) | (if self.i { 4u8 } else { 0u8 })
            | (if self.d { 8u8 } else { 0u8 }) | (if self.b { 0x10u8 } else { 0u8 })
            | (if self.u { 0x20u8 } else { 0u8 }) | (if self.v { 0x40u8 } else { 0u8 })
            | (if self.s { 0x80u8 } else { 0u8 })
    }

    /// Loads the status register from a byte.
    pub fn set_flags(&mut self, p: u8)
        ensures
            *final(self) == old(self).with_flags(p),
    {
        self.c = p & 1 != 0;
        self.z = p & 2 != 0;
        self.i = p & 4 != 0;
        self.d = p & 8 != 0;
        self.b = p & 0x10 != 0;
        self.u = p & 0x20 != 0;
        self.v = p & 0x40 != 0;
        self.s = p & 0x80 != 0;
    }

    /// Power-on / reset: registers cleared, P = $24, SP = $FD, PC from the
    /// reset vector at $FFFC/$FFFD.
    pub fn reset(&mut self, bus: &mut NESMemory)
        requires
            old(bus).wf(),
        ensures
            final(bus).wf(),
            *final(bus) == *old(bus),
            final(self).pc == word(*old(bus), 0xfffc, 0xfffd),
            final(self).flags_spec() == 0x24,
            final(self).sp == STACK_INIT,
            final(self).a == 0 && final(self).x == 0 && final(self).y == 0,
            final(self).interrupt == Interrupt::Idle,
            final(self).stall == 0 && final(self).cycles == 0 && !final(self).jammed,
    {
        let lo = bus.read(0xfffc) as u16;
        let hi = bus.read(0xfffd) as u16;
        self.pc = hi * 256 + lo;
        self.set_flags(0x24);
        proof {
            lemma_flags_round_trip_byte(0x24);
        }
        self.sp = STACK_INIT;
        self.a = 0;
        self.x = 0;
        self.y = 0;
        self.interrupt = Interrupt::Idle;
        self.stall = 0;
        self.cycles = 0;
        self.jammed = false;
    }

    /// Latches a non-maskable interrupt, serviced at the next step.
    pub fn trigger_nmi(&mut self)
        ensures
            *final(self) == (CPU { interrupt: Interrupt::NMI, ..*old(self) }),
    {
        self.interrupt = Interrupt::NMI;
    }

    /// Latches an IRQ unless interrupts are disabled or an NMI is pending.
    pub fn trigger_irq(&mut self)
        ensures
            *final(self) == (if !old(self).i && old(self).interrupt != Interrupt::NMI {
                CPU { interrupt: Interrupt::IRQ, ..*old(self) }
            } else {
                *old(self)
            }),
    {
        if !self.i && self.interrupt != Interrupt::NMI {
            self.interrupt = Interrupt::IRQ;
        }
    }

    /// Adds bus-idle cycles, saturating.
    pub fn stall(&mut self, extra: u64)
        ensures
            *final(self) == (CPU {
                stall: if old(self).stall + extra > u64::MAX { u64::MAX } else { (old(self).stall + extra) as u64 },
                ..*old(self)
            }),
    {
        self.stall = self.stall.saturating_add(extra);
    }

    pub fn stack_push8(&mut self, bus: &mut NESMemory, val: u8)
        requires
            old(bus).wf(),
        ensures
            final(bus).wf(),
            final(bus).ram@ == old(bus).ram@.update(stack_addr(old(self).sp) as int, val),
            final(bus).ppu == old(bus).ppu && final(bus).apu == old(bus).apu
                && final(bus).controller == old(bus).controller && final(bus).cart == old(bus).cart,
            *final(self) == (CPU { sp: pushed_sp(old(self).sp, 1), ..*old(self) }),
    {
        bus.write(0x100 + self.sp as u16, val);
        self.sp = self.sp.wrapping_sub(1);
    }

    pub fn stack_pop8(&mut self, bus: &mut NESMemory) -> (r: u8)
        requires
            old(bus).wf(),
        ensures
            *final(bus) == *old(bus),
            *final(self) == (CPU { sp: popped_sp(old(self).sp, 1), ..*old(self) }),
            r == old(bus).ram@[stack_addr(popped_sp(old(self).sp, 1)) as int],
    {
        self.sp = self.sp.wrapping_add(1);
        bus.read(0x100 + self.sp as u16)
    }

    /// Pushes the high byte, then the low byte.
    pub fn stack_push16(&mut self, bus: &mut NESMemory, val: u16)
        requires
            old(bus).wf(),
        ensures
            final(bus).wf(),
            final(bus).ram@ == old(bus).ram@.update(stack_addr(old(self).sp) as int, (val / 256) as u8)
                .update(stack_addr(pushed_sp(old(self).sp, 1)) as int, (val % 256) as u8),
            final(bus).ppu == old(bus).ppu && final(bus).apu == old(bus).apu
                && final(bus).controller == old(bus).controller && final(bus).cart == old(bus).cart,
            *final(self) == (CPU { sp: pushed_sp(old(self).sp, 2), ..*old(self) }),
    {
        self.stack_push8(bus, (val / 256) as u8);
        self.stack_push8(bus, (val % 256) as u8);
    }

    /// Pops the low byte, then the high byte.
    pub fn stack_pop16(&mut self, bus: &mut NESMemory) -> (r: u16)
        requires
            old(bus).wf(),
        ensures
            *final(bus) == *old(bus),
            *final(self) == (CPU { sp: popped_sp(old(self).sp, 2), ..*old(self) }),
            r == old(bus).ram@[stack_addr(popped_sp(old(self).sp, 1)) as int]
                + 256 * old(bus).ram@[stack_addr(popped_sp(old(self).sp, 2)) as int],
    {
        let lo = self.stack_pop8(bus) as u16;
        let hi = self.stack_pop8(bus) as u16;
        hi * 256 + lo
    }

    /// A CPU write; $4014 starts an OAM DMA from page `val`.
    pub fn write(&mut self, bus: &mut NESMemory, address: u16, val: u8)
        requires
            old(bus).wf(),
        ensures
            final(bus).wf(),
            address != 0x4014 ==> *final(self) == *old(self),
            final(self).cycles == old(self).cycles,
            address < 0x2000 ==> final(bus).ram@ == old(bus).ram@.update(ram_index(address), val)
                && final(bus).ppu == old(bus).ppu && final(bus).apu == old(bus).apu
                && final(bus).controller == old(bus).controller && final(bus).cart == old(bus).cart,
            address == 0x4014 ==> dma_post(*old(self), *final(self), *old(bus), *final(bus), val),
    {
        if address == 0x4014 {
            self.dma(bus, val);
        } else {
            bus.write(address, val);
        }
    }

    /// OAM DMA: copies the 256 bytes of page `page` to OAM through $2004 and
    /// stalls the CPU 513 cycles, or 514 when it starts on an odd cycle.
    #[verifier::spinoff_prover]
    pub fn dma(&mut self, bus: &mut NESMemory, page: u8)
        requires
            old(bus).wf(),
        ensures
            final(bus).wf(),
            dma_post(*old(self), *final(self), *old(bus), *final(bus), page),
    {
        let base: u16 = (page as u16) * 256;
        let ghost start = bus.ppu.regs.oam_addr as int;
        let mut lo: u16 = 0;
        while lo < 256
            invariant
                bus.wf(),
                0 <= lo <= 256,
                base == page as int * 256,
                bus.ram == old(bus).ram,
                page < 0x20 ==> bus.ppu.regs.oam_addr == (start + lo) % 256,
                page < 0x20 ==> forall|k: int| 0 <= k < lo ==>
                    #[trigger] bus.ppu.oam.data@[(start + k) % 256]
                        == old(bus).ram@[ram_index((page as int * 256 + k) as u16)],
                start == old(bus).ppu.regs.oam_addr,
            decreases 256 - lo,
        {
            let v = dma_read(bus, base + lo);
            let ghost oam0 = bus.ppu.oam.data@;
            dma_write(bus, v);
            proof {
                if page < 0x20 {
                    assert forall|k: int| 0 <= k < lo + 1 implies
                        #[trigger] bus.ppu.oam.data@[(start + k) % 256]
                            == old(bus).ram@[ram_index((page as int * 256 + k) as u16)]
                    by {
                        if k < lo {
                            assert((start + k) % 256 != (start + lo) % 256);
                            assert(bus.ppu.oam.data@[(start + k) % 256] == oam0[(start + k) % 256]);
                        }
                    }
                }
            }
            lo = lo + 1;
        }
        if self.cycles % 2 == 1 {
            self.stall(514);
        } else {
            self.stall(513);
        }
    }
}

/// OAM DMA from page `page`: the CPU stalls 513 cycles, or 514 when the
/// cycle count is odd; RAM is unchanged; and when the page is in RAM, OAM
/// from the current OAM address on holds the page's 256 bytes, and the OAM
/// address ends where it began.
pub open spec fn dma_post(c0: CPU, c: CPU, b0: NESMemory, b: NESMemory, page: u8) -> bool {
    let n: int = if c0.cycles % 2 == 1 { 514 } else { 513 };
    &&& c == (CPU {
        stall: if c0.stall + n > u64::MAX { u64::MAX } else { (c0.stall + n) as u64 },
        ..c0
    })
    &&& b.ram == b0.ram
    &&& page < 0x20 ==> b.ppu.regs.oam_addr == b0.ppu.regs.oam_addr
    &&& page < 0x20 ==> forall|k: int| 0 <= k < 256 ==>
        #[trigger] b.ppu.oam.data@[(b0.ppu.regs.oam_addr + k) % 256]
            == b0.ram@[ram_index((page as int * 256 + k) as u16)]
}

/// One source read of OAM DMA.
fn dma_read(bus: &mut NESMemory, a: u16) -> (r: u8)
    requires
        old(bus).wf(),
    ensures
        final(bus).wf(),
        final(bus).ram == old(bus).ram,
        a < 0x2000 ==> r == old(bus).ram@[ram_index(a)] && *final(bus) == *old(bus),
{
    bus.read(a)
}

/// One OAMDATA write of OAM DMA.
fn dma_write(bus: &mut NESMemory, v: u8)
    requires
        old(bus).wf(),
    ensures
        final(bus).wf(),
        final(bus).ram == old(bus).ram,
        final(bus).ppu.oam.data@ == old(bus).ppu.oam.data@.update(
            old(bus).ppu.regs.oam_addr as int,
            v,
        ),
        final(bus).ppu.regs.oam_addr == (old(bus).ppu.regs.oam_addr + 1) % 256,
{
    bus.write(0x2004, v);
}

/// Flag packing round trip: loading the status register from the byte that
/// packs it gives back the same registers, and packing the registers loaded
/// from a byte gives back that byte.
pub proof fn lemma_flags_round_trip(cpu: CPU, p: u8)
    ensures
        cpu.with_flags(cpu.flags_spec()) == cpu,
        cpu.with_flags(p).flags_spec() == p,
{
    let (c, z, i, d, b, u, v, s) = (cpu.c, cpu.z, cpu.i, cpu.d, cpu.b, cpu.u, cpu.v, cpu.s);
    let f = flags_byte(c, z, i, d, b, u, v, s);
    assert(
        (f & 1 != 0) == c && (f & 2 != 0) == z && (f & 4 != 0) == i && (f & 8 != 0) == d
        && (f & 0x10 != 0) == b && (f & 0x20 != 0) == u && (f & 0x40 != 0) == v
        && (f & 0x80 != 0) == s
    ) by (bit_vector)
        requires
            f == (if c { 1u8 } else { 0u8 }) | (if z { 2u8 } else { 0u8 }) | (if i { 4u8 } else { 0u8 })
                | (if d { 8u8 } else { 0u8 }) | (if b { 0x10u8 } else { 0u8 }) | (if u { 0x20u8 } else { 0u8 })
                | (if v { 0x40u8 } else { 0u8 }) | (if s { 0x80u8 } else { 0u8 }),
    ;
    lemma_flags_round_trip_byte(p);
}

/// Packing the flags loaded from a byte gives back that byte.
pub proof fn lemma_flags_round_trip_byte(p: u8)
    ensures
        flags_byte(p & 1 != 0, p & 2 != 0, p & 4 != 0, p & 8 != 0, p & 0x10 != 0, p & 0x20 != 0,
            p & 0x40 != 0, p & 0x80 != 0) == p,
{
    assert(
        ((if p & 1 != 0 { 1u8 } else { 0u8 }) | (if p & 2 != 0 { 2u8 } else { 0u8 })
            | (if p & 4 != 0 { 4u8 } else { 0u8 }) | (if p & 8 != 0 { 8u8 } else { 0u8 })
            | (if p & 0x10 != 0 { 0x10u8 } else { 0u8 }) | (if p & 0x20 != 0 { 0x20u8 } else { 0u8 })
            | (if p & 0x40 != 0 { 0x40u8 } else { 0u8 }) | (if p & 0x80 != 0 { 0x80u8 } else { 0u8 }))
            == p
    ) by (bit_vector);
}

/// Stack discipline: after `n` pushes and `n` pops the stack pointer is back
/// where it started, and a byte pushed is the byte the next pop returns.
pub proof fn lemma_stack_discipline(sp: u8, n: nat, ram: Seq<u8>, val: u8)
    requires
        ram.len() == crate::mem::RAM_SIZE,
    ensures
        popped_sp(pushed_sp(sp, n), n) == sp,
        ram.update(stack_addr(sp) as int, val)[stack_addr(popped_sp(pushed_sp(sp, 1), 1)) as int] == val,
{
    let m = (sp - n) % 256;
    assert(((m + n) % 256) == sp) by (nonlinear_arith)
        requires
            m == (sp - n) % 256,
            0 <= sp < 256,
    ;
}

} // verus!
