//! Save states: the CPU, internal RAM, the PPU and the cartridge's work RAM,
//! written in that order with the encoding of `codec`.
use vstd::prelude::*;

use crate::serde::{lemma_le_bytes_len, lemma_le_round_trip, lemma_pow256_small, decode_u16, decode_u64, decode_u8, decode_vec, encode_u16, encode_u64,
    encode_u8, encode_vec, DecodeError, le_bytes, le_value};
use crate::cpu::{lemma_flags_round_trip, Interrupt, CPU};
use crate::mapper::Cartridge;
use crate::console::Console;
use crate::ppu::regs::{PPUCtrl, PPUMask, PPUStatus};
use crate::ppu::{NMI_DELAY, PPU};

verus! {

fn put_bool(out: &mut Vec<u8>, b: bool)
    ensures
        final(out)@ == old(out)@.push(if b { 1u8 } else { 0u8 }),
{
    out.push(if b { 1 } else { 0 });
}

fn get_bool(input: &Vec<u8>, pos: &mut usize) -> (r: Result<bool, DecodeError>)
    ensures
        *old(pos) < input@.len() ==> r == Ok::<bool, DecodeError>(input@[*old(pos) as int] != 0)
            && *final(pos) == *old(pos) + 1,
        *old(pos) >= input@.len() ==> r.is_err(),
{
    match decode_u8(input, pos) {
        Ok(b) => Ok(b != 0),
        Err(e) => Err(e),
    }
}

/// Replaces the contents of `dst` with a decoded vector of the same length.
fn get_bytes_into(input: &Vec<u8>, pos: &mut usize, dst: &mut Vec<u8>) -> (r: Result<(), DecodeError>)
    ensures
        final(dst)@.len() == old(dst)@.len(),
        r.is_err() ==> *final(dst) == *old(dst),
        forall|v: Seq<u8>| v.len() == old(dst)@.len() && *old(pos) + 8 + v.len() <= input@.len()
            && #[trigger] vec_bytes(v) == input@.subrange(*old(pos) as int, *old(pos) + 8 + v.len())
            ==> r.is_ok() && final(dst)@ == v && *final(pos) == *old(pos) + 8 + v.len(),
{
    let ghost p0 = *pos;
    let dlen = dst.len();
    proof {
        assert forall|v: Seq<u8>| v.len() == old(dst)@.len() && p0 + 8 + v.len() <= input@.len()
            && #[trigger] vec_bytes(v) == input@.subrange(p0 as int, p0 + 8 + v.len()) implies
            le_value(input@.subrange(p0 as int, p0 + 8)) == v.len()
            && input@.subrange(p0 + 8, p0 + 8 + v.len()) == v by {
            crate::serde::lemma_le_bytes_len(v.len() as nat, 8);
            crate::serde::lemma_pow256_small();
            crate::serde::lemma_le_round_trip(v.len() as nat, 8);
            assert(input@.subrange(p0 as int, p0 + 8) =~= vec_bytes(v).subrange(0, 8));
            assert(vec_bytes(v).subrange(0, 8) =~= le_bytes(v.len() as nat, 8));
            assert(input@.subrange(p0 + 8, p0 + 8 + v.len()) =~= vec_bytes(v).subrange(8, 8 + v.len() as int));
            assert(vec_bytes(v).subrange(8, 8 + v.len() as int) =~= v);
        }
    }
    match decode_vec(input, pos) {
        Ok(v) => {
            if v.len() != dst.len() {
                return Err(DecodeError);
            }
            *dst = v;
            Ok(())
        },
        Err(e) => Err(e),
    }
}

/// A byte vector as written by `encode_vec`: its length, then its bytes.
pub open spec fn vec_bytes(v: Seq<u8>) -> Seq<u8> {
    le_bytes(v.len() as nat, 8) + v
}

pub open spec fn bool_byte(b: bool) -> u8 {
    if b { 1 } else { 0 }
}

/// The save-state bytes of the PPU: memories, timing, then latches.
pub open spec fn ppu_bytes(p: PPU) -> Seq<u8> {
    ppu_memory_bytes(p) + ppu_timing_bytes(p) + ppu_latch_bytes(p)
}

pub open spec fn ppu_memory_bytes(p: PPU) -> Seq<u8> {
    let r = p.regs;
    seq![r.ctrl.0, r.mask.0, r.status.0, r.oam_addr] + vec_bytes(p.oam.data@) + le_bytes(r.v as nat, 2)
        + vec_bytes(p.nametables@) + vec_bytes(p.palette@)
}

pub open spec fn ppu_timing_bytes(p: PPU) -> Seq<u8> {
    le_bytes(p.dot as nat, 2) + le_bytes(p.scanline as nat, 2)
        + seq![p.nametable_byte, p.attrtable_byte, p.low_tile_byte, p.high_tile_byte]
        + le_bytes(p.tile_data as nat, 8)
}

pub open spec fn ppu_latch_bytes(p: PPU) -> Seq<u8> {
    let r = p.regs;
    seq![bool_byte(p.odd_frame), bool_byte(r.nmi_occurred), bool_byte(r.nmi_output),
        bool_byte(r.nmi_previous), r.nmi_delay] + le_bytes(r.t as nat, 2)
        + seq![r.x, bool_byte(r.w), r.buffered_data, r.last_value]
}

/// The cartridge's work RAM, or none for boards without it.
pub open spec fn work_ram(c: Cartridge) -> Seq<u8> {
    match c {
        Cartridge::Nrom(m) => m.prg_ram@,
        Cartridge::Mmc1(m) => m.prg_ram@,
        Cartridge::Uxrom(m) => m.prg_ram@,
        Cartridge::Mmc3(m) => m.sram@,
        Cartridge::Bnrom(m) => m.prg_ram@,
        Cartridge::Fme7(m) => m.sram@,
        Cartridge::Sunsoft4(m) => m.prg_ram@,
        _ => Seq::empty(),
    }
}

/// The save-state bytes of the CPU registers.
pub open spec fn cpu_bytes(cpu: CPU) -> Seq<u8> {
    seq![cpu.a, cpu.x, cpu.y, cpu.flags_spec()] + le_bytes(cpu.pc as nat, 2) + seq![
        cpu.sp,
        match cpu.interrupt {
            Interrupt::Idle => 0u8,
            Interrupt::IRQ => 1u8,
            Interrupt::NMI => 2u8,
        },
    ] + le_bytes(cpu.stall as nat, 8) + le_bytes(cpu.cycles as nat, 8)
}

impl CPU {
    pub fn save(&self, out: &mut Vec<u8>)
        ensures
            final(out)@ == old(out)@ + cpu_bytes(*self),
    {
        let ghost start = out@;
        encode_u8(out, self.a);
        encode_u8(out, self.x);
        encode_u8(out, self.y);
        encode_u8(out, self.flags());
        encode_u16(out, self.pc);
        encode_u8(out, self.sp);
        let i: u8 = match self.interrupt {
            Interrupt::Idle => 0,
            Interrupt::IRQ => 1,
            Interrupt::NMI => 2,
        };
        encode_u8(out, i);
        encode_u64(out, self.stall);
        encode_u64(out, self.cycles);
        assert(out@ =~= start + cpu_bytes(*self));
    }

    /// Restores the registers from the bytes at `*pos`; on an error some may
    /// already have changed.
    #[verifier::spinoff_prover]
    #[verifier::rlimit(100)]
    pub fn load(&mut self, input: &Vec<u8>, pos: &mut usize) -> (r: Result<(), DecodeError>)
        ensures
            final(self).jammed == old(self).jammed,
            *old(pos) + 24 > input@.len() ==> r.is_err(),
            forall|c: CPU| *old(pos) + 24 <= input@.len()
                && #[trigger] cpu_bytes(c) == input@.subrange(*old(pos) as int, *old(pos) + 24) ==> {
                &&& r.is_ok()
                &&& *final(pos) == *old(pos) + 24
                &&& final(self).a == c.a && final(self).x == c.x && final(self).y == c.y
                &&& final(self).flags_spec() == c.flags_spec()
                &&& final(self).pc == c.pc && final(self).sp == c.sp
                &&& final(self).interrupt == c.interrupt
                &&& final(self).stall == c.stall && final(self).cycles == c.cycles
            },
    {
        let ghost p0 = *pos;
        self.a = match decode_u8(input, pos) { Ok(v) => v, Err(e) => return Err(e) };
        self.x = match decode_u8(input, pos) { Ok(v) => v, Err(e) => return Err(e) };
        self.y = match decode_u8(input, pos) { Ok(v) => v, Err(e) => return Err(e) };
        let p = match decode_u8(input, pos) { Ok(v) => v, Err(e) => return Err(e) };
        self.set_flags(p);
        self.pc = match decode_u16(input, pos) { Ok(v) => v, Err(e) => return Err(e) };
        self.sp = match decode_u8(input, pos) { Ok(v) => v, Err(e) => return Err(e) };
        let i = match decode_u8(input, pos) { Ok(v) => v, Err(e) => return Err(e) };
        self.interrupt = if i == 1 {
            Interrupt::IRQ
        } else if i == 2 {
            Interrupt::NMI
        } else {
            Interrupt::Idle
        };
        self.stall = match decode_u64(input, pos) { Ok(v) => v, Err(e) => return Err(e) };
        self.cycles = match decode_u64(input, pos) { Ok(v) => v, Err(e) => return Err(e) };
        proof {
            assert forall|c: CPU| p0 + 24 <= input@.len()
                && #[trigger] cpu_bytes(c) == input@.subrange(p0 as int, p0 + 24) implies {
                &&& self.a == c.a && self.x == c.x && self.y == c.y
                &&& self.flags_spec() == c.flags_spec()
                &&& self.pc == c.pc && self.sp == c.sp
                &&& self.interrupt == c.interrupt
                &&& self.stall == c.stall && self.cycles == c.cycles
            } by {
                let s = input@.subrange(p0 as int, p0 + 24);
                crate::serde::lemma_le_bytes_len(c.pc as nat, 2);
                crate::serde::lemma_le_bytes_len(c.stall as nat, 8);
                crate::serde::lemma_le_bytes_len(c.cycles as nat, 8);
                crate::serde::lemma_pow256_small();
                crate::serde::lemma_le_round_trip(c.pc as nat, 2);
                crate::serde::lemma_le_round_trip(c.stall as nat, 8);
                crate::serde::lemma_le_round_trip(c.cycles as nat, 8);
                assert(input@.subrange(p0 + 4, p0 + 6) =~= s.subrange(4, 6));
                assert(s.subrange(4, 6) =~= le_bytes(c.pc as nat, 2));
                assert(input@.subrange(p0 + 8, p0 + 16) =~= s.subrange(8, 16));
                assert(s.subrange(8, 16) =~= le_bytes(c.stall as nat, 8));
                assert(input@.subrange(p0 + 16, p0 + 24) =~= s.subrange(16, 24));
                assert(s.subrange(16, 24) =~= le_bytes(c.cycles as nat, 8));
                assert(s[0] == c.a && s[1] == c.x && s[2] == c.y && s[3] == c.flags_spec());
                assert(s[6] == c.sp);
                assert(s[7] == match c.interrupt {
                    Interrupt::Idle => 0u8,
                    Interrupt::IRQ => 1u8,
                    Interrupt::NMI => 2u8,
                });
                assert(input@[p0 as int] == c.a && input@[p0 + 1] == c.x && input@[p0 + 2] == c.y);
                assert(input@[p0 + 3] == c.flags_spec() && input@[p0 + 6] == c.sp);
                assert(input@[p0 + 7] == s[7]);
                lemma_flags_round_trip(c, c.flags_spec());
                crate::cpu::lemma_flags_round_trip(*old(self), c.flags_spec());
                assert(self.a == c.a && self.x == c.x && self.y == c.y);
                assert(self.flags_spec() == c.flags_spec());
                assert(self.pc == c.pc);
                assert(self.sp == c.sp);
                assert(self.interrupt == c.interrupt);
                assert(self.stall == c.stall);
            }
        }
        Ok(())
    }
}

impl PPU {
    fn save_memories(&self, out: &mut Vec<u8>)
        ensures
            final(out)@ == old(out)@ + ppu_memory_bytes(*self),
    {
        let ghost start = out@;
        let r = self.regs;
        encode_u8(out, r.ctrl.0);
        encode_u8(out, r.mask.0);
        encode_u8(out, r.status.0);
        encode_u8(out, r.oam_addr);
        encode_vec(out, &self.oam.data);
        encode_u16(out, r.v);
        encode_vec(out, &self.nametables);
        encode_vec(out, &self.palette);
        assert(out@ =~= start + ppu_memory_bytes(*self));
    }

    fn save_timing(&self, out: &mut Vec<u8>)
        ensures
            final(out)@ == old(out)@ + ppu_timing_bytes(*self),
    {
        let ghost start = out@;
        encode_u16(out, self.dot);
        encode_u16(out, self.scanline);
        encode_u8(out, self.nametable_byte);
        encode_u8(out, self.attrtable_byte);
        encode_u8(out, self.low_tile_byte);
        encode_u8(out, self.high_tile_byte);
        encode_u64(out, self.tile_data);
        assert(out@ =~= start + ppu_timing_bytes(*self));
    }

    fn save_latches(&self, out: &mut Vec<u8>)
        ensures
            final(out)@ == old(out)@ + ppu_latch_bytes(*self),
    {
        let ghost start = out@;
        let r = self.regs;
        put_bool(out, self.odd_frame);
        put_bool(out, r.nmi_occurred);
        put_bool(out, r.nmi_output);
        put_bool(out, r.nmi_previous);
        encode_u8(out, r.nmi_delay);
        encode_u16(out, r.t);
        encode_u8(out, r.x);
        put_bool(out, r.w);
        encode_u8(out, r.buffered_data);
        encode_u8(out, r.last_value);
        assert(out@ =~= start + ppu_latch_bytes(*self));
    }

    pub fn save(&self, out: &mut Vec<u8>)
        requires
            self.wf(),
        ensures
            final(out)@ == old(out)@ + ppu_bytes(*self),
    {
        let ghost start = out@;
        self.save_memories(out);
        self.save_timing(out);
        self.save_latches(out);
        assert(out@ =~= start + ppu_bytes(*self));
    }

    /// Restores the registers and memories written by `save_memories`.
    #[verifier::spinoff_prover]
    #[verifier::rlimit(100)]
    fn load_memories(&mut self, input: &Vec<u8>, pos: &mut usize) -> (r: Result<(), DecodeError>)
        requires
            old(self).wf(),
        ensures
            final(self).wf(),
            *final(self) == (PPU { regs: final(self).regs, oam: final(self).oam,
                nametables: final(self).nametables, palette: final(self).palette, ..*old(self) }),
            forall|p: PPU| p.wf() && *old(pos) + ppu_memory_bytes(p).len() <= input@.len()
                && #[trigger] ppu_memory_bytes(p) == input@.subrange(*old(pos) as int,
                    *old(pos) + ppu_memory_bytes(p).len()) ==> {
                &&& r.is_ok()
                &&& *final(pos) == *old(pos) + ppu_memory_bytes(p).len()
                &&& final(self).regs == (crate::ppu::PpuRegs { ctrl: p.regs.ctrl, mask: p.regs.mask,
                    status: p.regs.status, oam_addr: p.regs.oam_addr, v: p.regs.v, ..old(self).regs })
                &&& final(self).oam.data@ == p.oam.data@
                &&& final(self).nametables@ == p.nametables@
                &&& final(self).palette@ == p.palette@
            },
    {
        let ghost p0 = *pos;
        let ghost s0 = *self;
        proof {
            assert forall|p: PPU| p.wf() && p0 + ppu_memory_bytes(p).len() <= input@.len()
                && #[trigger] ppu_memory_bytes(p) == input@.subrange(p0 as int, p0 + ppu_memory_bytes(p).len())
                implies {
                &&& ppu_memory_bytes(p).len() == 2366
                &&& vec_bytes(p.oam.data@) == input@.subrange(p0 + 4, p0 + 268)
                &&& le_value(input@.subrange(p0 + 268, p0 + 270)) == p.regs.v
                &&& vec_bytes(p.nametables@) == input@.subrange(p0 + 270, p0 + 2326)
                &&& vec_bytes(p.palette@) == input@.subrange(p0 + 2326, p0 + 2366)
                &&& input@[p0 as int] == p.regs.ctrl.0 && input@[p0 + 1] == p.regs.mask.0
                &&& input@[p0 + 2] == p.regs.status.0 && input@[p0 + 3] == p.regs.oam_addr
            } by {
                let b = ppu_memory_bytes(p);
                lemma_le_bytes_len(p.oam.data@.len() as nat, 8);
                lemma_le_bytes_len(p.regs.v as nat, 2);
                lemma_le_bytes_len(p.nametables@.len() as nat, 8);
                lemma_le_bytes_len(p.palette@.len() as nat, 8);
                lemma_pow256_small();
                lemma_le_round_trip(p.regs.v as nat, 2);
                assert(b.len() == 2366);
                assert(input@.subrange(p0 + 4, p0 + 268) =~= b.subrange(4, 268));
                assert(b.subrange(4, 268) =~= vec_bytes(p.oam.data@));
                assert(input@.subrange(p0 + 268, p0 + 270) =~= b.subrange(268, 270));
                assert(b.subrange(268, 270) =~= le_bytes(p.regs.v as nat, 2));
                assert(input@.subrange(p0 + 270, p0 + 2326) =~= b.subrange(270, 2326));
                assert(b.subrange(270, 2326) =~= vec_bytes(p.nametables@));
                assert(input@.subrange(p0 + 2326, p0 + 2366) =~= b.subrange(2326, 2366));
                assert(b.subrange(2326, 2366) =~= vec_bytes(p.palette@));
                assert(input@[p0 as int] == b[0] && input@[p0 + 1] == b[1] && input@[p0 + 2] == b[2]
                    && input@[p0 + 3] == b[3]);
            }
        }
        let ctrl = match decode_u8(input, pos) { Ok(v) => v, Err(e) => return Err(e) };
        let mask = match decode_u8(input, pos) { Ok(v) => v, Err(e) => return Err(e) };
        let status = match decode_u8(input, pos) { Ok(v) => v, Err(e) => return Err(e) };
        let oam_addr = match decode_u8(input, pos) { Ok(v) => v, Err(e) => return Err(e) };
        let ghost p1 = *pos;
        let mut oam = self.oam.data.clone();
        match get_bytes_into(input, pos, &mut oam) { Ok(()) => {}, Err(e) => return Err(e) };
        let ghost p2 = *pos;
        let v = match decode_u16(input, pos) { Ok(v) => v, Err(e) => return Err(e) };
        let ghost p3 = *pos;
        let mut nametables = self.nametables.clone();
        match get_bytes_into(input, pos, &mut nametables) { Ok(()) => {}, Err(e) => return Err(e) };
        let ghost p4 = *pos;
        let mut palette = self.palette.clone();
        match get_bytes_into(input, pos, &mut palette) { Ok(()) => {}, Err(e) => return Err(e) };
        if status & 0x80 != 0 {
            return Err(DecodeError);
        }
        self.regs.ctrl = PPUCtrl(ctrl);
        self.regs.mask = PPUMask(mask);
        self.regs.status = PPUStatus(status);
        self.regs.oam_addr = oam_addr;
        self.regs.v = v;
        self.oam.data = oam;
        self.nametables = nametables;
        self.palette = palette;
        Ok(())
    }

    /// Restores the dot position and background pipeline written by `save_timing`.
    #[verifier::spinoff_prover]
    fn load_timing(&mut self, input: &Vec<u8>, pos: &mut usize) -> (r: Result<(), DecodeError>)
        requires
            old(self).wf(),
        ensures
            final(self).wf(),
            *final(self) == (PPU { dot: final(self).dot, scanline: final(self).scanline,
                nametable_byte: final(self).nametable_byte, attrtable_byte: final(self).attrtable_byte,
                low_tile_byte: final(self).low_tile_byte, high_tile_byte: final(self).high_tile_byte,
                tile_data: final(self).tile_data, ..*old(self) }),
            forall|p: PPU| p.wf() && *old(pos) + 16 <= input@.len()
                && #[trigger] ppu_timing_bytes(p) == input@.subrange(*old(pos) as int, *old(pos) + 16) ==> {
                &&& r.is_ok()
                &&& *final(pos) == *old(pos) + 16
                &&& final(self).dot == p.dot && final(self).scanline == p.scanline
                &&& final(self).nametable_byte == p.nametable_byte
                &&& final(self).attrtable_byte == p.attrtable_byte
                &&& final(self).low_tile_byte == p.low_tile_byte
                &&& final(self).high_tile_byte == p.high_tile_byte
                &&& final(self).tile_data == p.tile_data
            },
    {
        let ghost p0 = *pos;
        let dot = match decode_u16(input, pos) { Ok(v) => v, Err(e) => return Err(e) };
        let scanline = match decode_u16(input, pos) { Ok(v) => v, Err(e) => return Err(e) };
        let nametable_byte = match decode_u8(input, pos) { Ok(v) => v, Err(e) => return Err(e) };
        let attrtable_byte = match decode_u8(input, pos) { Ok(v) => v, Err(e) => return Err(e) };
        let low_tile_byte = match decode_u8(input, pos) { Ok(v) => v, Err(e) => return Err(e) };
        let high_tile_byte = match decode_u8(input, pos) { Ok(v) => v, Err(e) => return Err(e) };
        let tile_data = match decode_u64(input, pos) { Ok(v) => v, Err(e) => return Err(e) };
        proof {
            assert forall|p: PPU| p.wf() && p0 + 16 <= input@.len()
                && #[trigger] ppu_timing_bytes(p) == input@.subrange(p0 as int, p0 + 16) implies {
                &&& dot == p.dot && scanline == p.scanline
                &&& nametable_byte == p.nametable_byte && attrtable_byte == p.attrtable_byte
                &&& low_tile_byte == p.low_tile_byte && high_tile_byte == p.high_tile_byte
                &&& tile_data == p.tile_data
            } by {
                let b = ppu_timing_bytes(p);
                lemma_le_bytes_len(p.dot as nat, 2);
                lemma_le_bytes_len(p.scanline as nat, 2);
                lemma_le_bytes_len(p.tile_data as nat, 8);
                lemma_pow256_small();
                lemma_le_round_trip(p.dot as nat, 2);
                lemma_le_round_trip(p.scanline as nat, 2);
                lemma_le_round_trip(p.tile_data as nat, 8);
                assert(input@.subrange(p0 as int, p0 + 2) =~= b.subrange(0, 2));
                assert(b.subrange(0, 2) =~= le_bytes(p.dot as nat, 2));
                assert(input@.subrange(p0 + 2, p0 + 4) =~= b.subrange(2, 4));
                assert(b.subrange(2, 4) =~= le_bytes(p.scanline as nat, 2));
                assert(input@.subrange(p0 + 8, p0 + 16) =~= b.subrange(8, 16));
                assert(b.subrange(8, 16) =~= le_bytes(p.tile_data as nat, 8));
                assert(input@[p0 + 4] == b[4] && input@[p0 + 5] == b[5] && input@[p0 + 6] == b[6]
                    && input@[p0 + 7] == b[7]);
            }
        }
        if dot >= 341 || scanline >= 262 {
            return Err(DecodeError);
        }
        self.dot = dot;
        self.scanline = scanline;
        self.nametable_byte = nametable_byte;
        self.attrtable_byte = attrtable_byte;
        self.low_tile_byte = low_tile_byte;
        self.high_tile_byte = high_tile_byte;
        self.tile_data = tile_data;
        Ok(())
    }

    /// Restores the frame parity, NMI line and scroll latches written by `save_latches`.
    #[verifier::spinoff_prover]
    fn load_latches(&mut self, input: &Vec<u8>, pos: &mut usize) -> (r: Result<(), DecodeError>)
        requires
            old(self).wf(),
        ensures
            final(self).wf(),
            *final(self) == (PPU { odd_frame: final(self).odd_frame, regs: final(self).regs, ..*old(self) }),
            forall|p: PPU| p.wf() && *old(pos) + 11 <= input@.len()
                && #[trigger] ppu_latch_bytes(p) == input@.subrange(*old(pos) as int, *old(pos) + 11) ==> {
                &&& r.is_ok()
                &&& *final(pos) == *old(pos) + 11
                &&& final(self).odd_frame == p.odd_frame
                &&& final(self).regs == (crate::ppu::PpuRegs { nmi_occurred: p.regs.nmi_occurred,
                    nmi_output: p.regs.nmi_output, nmi_previous: p.regs.nmi_previous,
                    nmi_delay: p.regs.nmi_delay, t: p.regs.t, x: p.regs.x, w: p.regs.w,
                    buffered_data: p.regs.buffered_data, last_value: p.regs.last_value, ..old(self).regs })
            },
    {
        let ghost p0 = *pos;
        let odd_frame = match get_bool(input, pos) { Ok(v) => v, Err(e) => return Err(e) };
        let nmi_occurred = match get_bool(input, pos) { Ok(v) => v, Err(e) => return Err(e) };
        let nmi_output = match get_bool(input, pos) { Ok(v) => v, Err(e) => return Err(e) };
        let nmi_previous = match get_bool(input, pos) { Ok(v) => v, Err(e) => return Err(e) };
        let nmi_delay = match decode_u8(input, pos) { Ok(v) => v, Err(e) => return Err(e) };
        let t = match decode_u16(input, pos) { Ok(v) => v, Err(e) => return Err(e) };
        let x = match decode_u8(input, pos) { Ok(v) => v, Err(e) => return Err(e) };
        let w = match get_bool(input, pos) { Ok(v) => v, Err(e) => return Err(e) };
        let buffered_data = match decode_u8(input, pos) { Ok(v) => v, Err(e) => return Err(e) };
        let last_value = match decode_u8(input, pos) { Ok(v) => v, Err(e) => return Err(e) };
        proof {
            assert forall|p: PPU| p.wf() && p0 + 11 <= input@.len()
                && #[trigger] ppu_latch_bytes(p) == input@.subrange(p0 as int, p0 + 11) implies {
                &&& odd_frame == p.odd_frame && nmi_occurred == p.regs.nmi_occurred
                &&& nmi_output == p.regs.nmi_output && nmi_previous == p.regs.nmi_previous
                &&& nmi_delay == p.regs.nmi_delay && t == p.regs.t && x == p.regs.x && w == p.regs.w
                &&& buffered_data == p.regs.buffered_data && last_value == p.regs.last_value
            } by {
                let b = ppu_latch_bytes(p);
                lemma_le_bytes_len(p.regs.t as nat, 2);
                lemma_pow256_small();
                lemma_le_round_trip(p.regs.t as nat, 2);
                assert(input@.subrange(p0 + 5, p0 + 7) =~= b.subrange(5, 7));
                assert(b.subrange(5, 7) =~= le_bytes(p.regs.t as nat, 2));
                assert(input@[p0 as int] == b[0] && input@[p0 + 1] == b[1] && input@[p0 + 2] == b[2]
                    && input@[p0 + 3] == b[3] && input@[p0 + 4] == b[4] && input@[p0 + 7] == b[7]
                    && input@[p0 + 8] == b[8] && input@[p0 + 9] == b[9] && input@[p0 + 10] == b[10]);
            }
        }
        if x >= 8 || nmi_delay > NMI_DELAY {
            return Err(DecodeError);
        }
        self.odd_frame = odd_frame;
        self.regs.nmi_occurred = nmi_occurred;
        self.regs.nmi_output = nmi_output;
        self.regs.nmi_previous = nmi_previous;
        self.regs.nmi_delay = nmi_delay;
        self.regs.t = t;
        self.regs.x = x;
        self.regs.w = w;
        self.regs.buffered_data = buffered_data;
        self.regs.last_value = last_value;
        Ok(())
    }

    /// Restores the PPU written by `save`. Values out of range are rejected
    /// and leave it well formed; the sprite slots of the line being drawn are
    /// not part of the state and are dropped.
    #[verifier::spinoff_prover]
    pub fn load(&mut self, input: &Vec<u8>, pos: &mut usize) -> (r: Result<(), DecodeError>)
        requires
            old(self).wf(),
        ensures
            final(self).wf(),
            final(self).framebuffer == old(self).framebuffer,
            forall|p: PPU| p.wf() && *old(pos) + ppu_bytes(p).len() <= input@.len()
                && #[trigger] ppu_bytes(p) == input@.subrange(*old(pos) as int, *old(pos) + ppu_bytes(p).len())
                ==> ppu_restored(*final(self), p) && r.is_ok()
                && *final(pos) == *old(pos) + ppu_bytes(p).len(),
    {
        let ghost p0 = *pos;
        proof {
            assert forall|p: PPU| p.wf() && p0 + ppu_bytes(p).len() <= input@.len()
                && #[trigger] ppu_bytes(p) == input@.subrange(p0 as int, p0 + ppu_bytes(p).len()) implies {
                let n1 = ppu_memory_bytes(p).len() as int;
                &&& ppu_bytes(p).len() == n1 + 27
                &&& ppu_memory_bytes(p) == input@.subrange(p0 as int, p0 + n1)
                &&& ppu_timing_bytes(p) == input@.subrange(p0 + n1, p0 + n1 + 16)
                &&& ppu_latch_bytes(p) == input@.subrange(p0 + n1 + 16, p0 + n1 + 27)
            } by {
                let n1 = ppu_memory_bytes(p).len() as int;
                let b = ppu_bytes(p);
                lemma_le_bytes_len(p.dot as nat, 2);
                lemma_le_bytes_len(p.scanline as nat, 2);
                lemma_le_bytes_len(p.tile_data as nat, 8);
                lemma_le_bytes_len(p.regs.t as nat, 2);
                assert(ppu_timing_bytes(p).len() == 16);
                assert(ppu_latch_bytes(p).len() == 11);
                assert(b.subrange(0, n1) =~= ppu_memory_bytes(p));
                assert(b.subrange(n1, n1 + 16) =~= ppu_timing_bytes(p));
                assert(b.subrange(n1 + 16, n1 + 27) =~= ppu_latch_bytes(p));
                assert(input@.subrange(p0 as int, p0 + n1) =~= b.subrange(0, n1));
                assert(input@.subrange(p0 + n1, p0 + n1 + 16) =~= b.subrange(n1, n1 + 16));
                assert(input@.subrange(p0 + n1 + 16, p0 + n1 + 27) =~= b.subrange(n1 + 16, n1 + 27));
            }
        }
        match self.load_memories(input, pos) { Ok(()) => {}, Err(e) => return Err(e) };
        match self.load_timing(input, pos) { Ok(()) => {}, Err(e) => return Err(e) };
        match self.load_latches(input, pos) { Ok(()) => {}, Err(e) => return Err(e) };
        self.sprite_count = 0;
        Ok(())
    }
}

/// What a loaded PPU keeps of a saved one: registers, memories, timing and the
/// background pipeline.
pub open spec fn ppu_restored(a: PPU, p: PPU) -> bool {
    &&& a.regs == p.regs
    &&& a.oam.data@ == p.oam.data@ && a.nametables@ == p.nametables@ && a.palette@ == p.palette@
    &&& a.dot == p.dot && a.scanline == p.scanline && a.odd_frame == p.odd_frame
    &&& a.nametable_byte == p.nametable_byte && a.attrtable_byte == p.attrtable_byte
    &&& a.low_tile_byte == p.low_tile_byte && a.high_tile_byte == p.high_tile_byte
    &&& a.tile_data == p.tile_data
}

impl Cartridge {
    /// Writes the cartridge's work RAM (none for boards without it).
    pub fn save(&self, out: &mut Vec<u8>)
        ensures
            final(out)@ == old(out)@ + vec_bytes(work_ram(*self)),
    {
        let ghost start = out@;
        match self {
            Cartridge::Nrom(m) => encode_vec(out, &m.prg_ram),
            Cartridge::Mmc1(m) => encode_vec(out, &m.prg_ram),
            Cartridge::Uxrom(m) => encode_vec(out, &m.prg_ram),
            Cartridge::Mmc3(m) => encode_vec(out, &m.sram),
            Cartridge::Bnrom(m) => encode_vec(out, &m.prg_ram),
            Cartridge::Fme7(m) => encode_vec(out, &m.sram),
            Cartridge::Sunsoft4(m) => encode_vec(out, &m.prg_ram),
            _ => {
                let none: Vec<u8> = Vec::new();
                assert(none@ =~= Seq::<u8>::empty());
                encode_vec(out, &none);
            },
        }
    }

    pub fn load(&mut self, input: &Vec<u8>, pos: &mut usize) -> (r: Result<(), DecodeError>)
        requires
            old(self).wf(),
        ensures
            final(self).wf(),
            forall|w: Seq<u8>| w.len() == work_ram(*old(self)).len()
                && *old(pos) + 8 + w.len() <= input@.len()
                && #[trigger] vec_bytes(w) == input@.subrange(*old(pos) as int, *old(pos) + 8 + w.len())
                ==> r.is_ok() && work_ram(*final(self)) == w && *final(pos) == *old(pos) + 8 + w.len(),
    {
        match self {
            Cartridge::Nrom(m) => get_bytes_into(input, pos, &mut m.prg_ram),
            Cartridge::Mmc1(m) => get_bytes_into(input, pos, &mut m.prg_ram),
            Cartridge::Uxrom(m) => get_bytes_into(input, pos, &mut m.prg_ram),
            Cartridge::Mmc3(m) => get_bytes_into(input, pos, &mut m.sram),
            Cartridge::Bnrom(m) => get_bytes_into(input, pos, &mut m.prg_ram),
            Cartridge::Fme7(m) => get_bytes_into(input, pos, &mut m.sram),
            Cartridge::Sunsoft4(m) => get_bytes_into(input, pos, &mut m.prg_ram),
            _ => {
                let mut none: Vec<u8> = Vec::new();
                get_bytes_into(input, pos, &mut none)
            },
        }
    }
}

impl Console {
    /// The save state: CPU, internal RAM, PPU, then cartridge work RAM.
    pub fn save(&self) -> (r: Vec<u8>)
        requires
            self.wf(),
        ensures
            r@ == console_bytes(*self),
    {
        let mut out: Vec<u8> = Vec::new();
        self.cpu.save(&mut out);
        encode_vec(&mut out, &self.bus.ram);
        self.bus.ppu.save(&mut out);
        self.bus.cart.save(&mut out);
        assert(out@ =~= cpu_bytes(self.cpu) + vec_bytes(self.bus.ram@) + ppu_bytes(self.bus.ppu)
            + vec_bytes(work_ram(self.bus.cart)));
        out
    }

    /// Restores a save state. Loading the bytes that `save` wrote for a
    /// console with the same cartridge gives Ok and brings back its CPU
    /// registers, RAM, PPU (see `ppu_restored`) and cartridge work RAM. On an
    /// error the console may hold a mix of old and new state, but stays well formed.
    #[verifier::spinoff_prover]
    #[verifier::rlimit(100)]
    pub fn load(&mut self, input: &Vec<u8>) -> (r: Result<(), DecodeError>)
        requires
            old(self).wf(),
        ensures
            final(self).wf(),
            forall|c: Console| c.wf() && work_ram(c.bus.cart).len() == work_ram(old(self).bus.cart).len()
                && #[trigger] console_bytes(c) == input@ ==> {
                &&& r.is_ok()
                &&& final(self).cpu.a == c.cpu.a && final(self).cpu.x == c.cpu.x && final(self).cpu.y == c.cpu.y
                &&& final(self).cpu.flags_spec() == c.cpu.flags_spec()
                &&& final(self).cpu.pc == c.cpu.pc && final(self).cpu.sp == c.cpu.sp
                &&& final(self).cpu.interrupt == c.cpu.interrupt
                &&& final(self).cpu.stall == c.cpu.stall && final(self).cpu.cycles == c.cpu.cycles
                &&& final(self).bus.ram@ == c.bus.ram@
                &&& ppu_restored(final(self).bus.ppu, c.bus.ppu)
                &&& work_ram(final(self).bus.cart) == work_ram(c.bus.cart)
            },
    {
        let mut pos: usize = 0;
        proof {
            assert forall|c: Console| c.wf() && work_ram(c.bus.cart).len() == work_ram(old(self).bus.cart).len()
                && #[trigger] console_bytes(c) == input@ implies {
                let n3: int = 2080 + ppu_bytes(c.bus.ppu).len() as int;
                &&& cpu_bytes(c.cpu) == input@.subrange(0, 24)
                &&& vec_bytes(c.bus.ram@) == input@.subrange(24, 2080)
                &&& ppu_bytes(c.bus.ppu) == input@.subrange(2080, n3)
                &&& vec_bytes(work_ram(c.bus.cart)) == input@.subrange(n3, n3 + 8 + work_ram(c.bus.cart).len() as int)
                &&& input@.len() == n3 + 8 + work_ram(c.bus.cart).len() as int
            } by {
                let b = console_bytes(c);
                let n3: int = 2080 + ppu_bytes(c.bus.ppu).len() as int;
                lemma_le_bytes_len(c.cpu.pc as nat, 2);
                lemma_le_bytes_len(c.cpu.stall as nat, 8);
                lemma_le_bytes_len(c.cpu.cycles as nat, 8);
                lemma_le_bytes_len(c.bus.ram@.len() as nat, 8);
                lemma_le_bytes_len(work_ram(c.bus.cart).len() as nat, 8);
                assert(cpu_bytes(c.cpu).len() == 24);
                assert(b.subrange(0, 24) =~= cpu_bytes(c.cpu));
                assert(b.subrange(24, 2080) =~= vec_bytes(c.bus.ram@));
                assert(b.subrange(2080, n3) =~= ppu_bytes(c.bus.ppu));
                assert(b.subrange(n3, n3 + 8 + work_ram(c.bus.cart).len() as int) =~= vec_bytes(work_ram(c.bus.cart)));
            }
        }
        match self.cpu.load(input, &mut pos) { Ok(()) => {}, Err(e) => return Err(e) };
        match get_bytes_into(input, &mut pos, &mut self.bus.ram) { Ok(()) => {}, Err(e) => return Err(e) };
        match self.bus.ppu.load(input, &mut pos) { Ok(()) => {}, Err(e) => return Err(e) };
        self.bus.cart.load(input, &mut pos)
    }
}

/// The save-state bytes of a console: CPU, internal RAM, PPU, then
/// cartridge work RAM.
pub open spec fn console_bytes(c: Console) -> Seq<u8> {
    cpu_bytes(c.cpu) + vec_bytes(c.bus.ram@) + ppu_bytes(c.bus.ppu) + vec_bytes(work_ram(c.bus.cart))
}

} // verus!
