//! The PPU register and memory mapper: VRAM, OAM and palette storage,
//! nametable mirroring, the two latched ports, and the buffered-read
//! protocol of the data port.

use vstd::prelude::*;

use crate::registers::AddrRegister;
use crate::registers::ControlRegister;

verus! {

/// Cartridge-determined wiring of the four logical nametables onto the
/// two physical 1KB memories; immutable for the session.
#[derive(Clone, Copy, PartialEq, Eq, Structural, Debug)]
pub enum Mirroring {
    Horizontal,
    Vertical,
}

/// Where an address in [0x2000, 0x3F00) lands in the 2KB of physical
/// VRAM: the 0x3000-0x3EFF mirror region folds onto 0x2000-0x2EFF,
/// and the logical nametable index selects a physical table per the
/// mirroring mode.
pub open spec fn spec_mirror(m: Mirroring, addr: u16) -> int {
    let idx = (addr & 0x2fff) - 0x2000;
    let name_table = idx / 0x400;
    if m == Mirroring::Vertical && (name_table == 2 || name_table == 3) {
        idx - 0x800
    } else if m == Mirroring::Horizontal && (name_table == 1 || name_table == 2) {
        idx - 0x400
    } else if m == Mirroring::Horizontal && name_table == 3 {
        idx - 0x800
    } else {
        idx
    }
}

/// Every address of the nametable window and its mirror lands inside the
/// 2KB of physical VRAM, under either mirroring mode.
pub proof fn lemma_mirror_in_range(m: Mirroring, addr: u16)
    requires
        0x2000 <= addr < 0x3f00,
    ensures
        0 <= spec_mirror(m, addr) < 2048,
{
    assert(0x2000 <= (addr & 0x2fff) < 0x3000) by (bit_vector)
        requires
            0x2000 <= addr < 0x3f00,
    ;
    let idx = (addr & 0x2fff) - 0x2000;
    vstd::arithmetic::div_mod::lemma_fundamental_div_mod(idx, 0x400);
    vstd::arithmetic::div_mod::lemma_mod_division_less_than_divisor(idx, 0x400);
}

/// The 0x3000-0x3EFF mirror region folds onto the nametable window: an
/// address there lands exactly where the address one mirror-stride below
/// lands, under either mirroring mode.
pub proof fn lemma_mirror_region_folds(m: Mirroring, addr: u16)
    requires
        0x3000 <= addr < 0x3f00,
    ensures
        spec_mirror(m, addr) == spec_mirror(m, (addr - 0x1000) as u16),
{
    let below = (addr - 0x1000) as u16;
    assert(addr & 0x2fff == below & 0x2fff) by (bit_vector)
        requires
            0x3000 <= addr < 0x3f00,
            below == addr - 0x1000,
    ;
}

/// Under vertical mirroring the logical tables two and three share the
/// physical memory of tables zero and one: any nametable address and the
/// address one 2KB stride above it land on the same physical index.
pub proof fn lemma_vertical_mirroring_pairs(addr: u16)
    requires
        0x2000 <= addr < 0x2800,
    ensures
        spec_mirror(Mirroring::Vertical, (addr + 0x800) as u16) == spec_mirror(
            Mirroring::Vertical,
            addr,
        ),
{
    let above = (addr + 0x800) as u16;
    assert(addr & 0x2fff == addr && above & 0x2fff == above) by (bit_vector)
        requires
            0x2000 <= addr < 0x2800,
            above == addr + 0x800,
    ;
    let idx = addr - 0x2000;
    lemma_quotient_bounds(idx, 0x400);
    lemma_quotient_bounds(idx + 0x800, 0x400);
}

/// Under horizontal mirroring each pair of horizontally adjacent logical
/// tables shares one physical table: a table-zero or table-two address
/// and the address one 1KB stride above it land on the same index.
pub proof fn lemma_horizontal_mirroring_pairs(addr: u16)
    requires
        0x2000 <= addr < 0x2400 || 0x2800 <= addr < 0x2c00,
    ensures
        spec_mirror(Mirroring::Horizontal, (addr + 0x400) as u16) == spec_mirror(
            Mirroring::Horizontal,
            addr,
        ),
{
    let above = (addr + 0x400) as u16;
    assert(addr & 0x2fff == addr && above & 0x2fff == above) by (bit_vector)
        requires
            0x2000 <= addr < 0x2400 || 0x2800 <= addr < 0x2c00,
            above == addr + 0x400,
    ;
    let idx = addr - 0x2000;
    lemma_quotient_bounds(idx, 0x400);
    lemma_quotient_bounds(idx + 0x400, 0x400);
}

/// The two-sided bound that pins an integer's quotient by a divisor.
proof fn lemma_quotient_bounds(x: int, d: int)
    requires
        x >= 0,
        d > 0,
    ensures
        d * (x / d) <= x < d * (x / d) + d,
        x / d >= 0,
{
    vstd::arithmetic::div_mod::lemma_fundamental_div_mod(x, d);
    vstd::arithmetic::div_mod::lemma_mod_division_less_than_divisor(x, d);
    vstd::arithmetic::div_mod::lemma_div_pos_is_pos(x, d);
}

/// The PPU's memory and register state. `internal_data_buf` holds the
/// byte that the previous data-port read fetched, establishing the
/// one-read latency of pattern-table and nametable reads.
pub struct NesPPU {
    pub chr_rom: Vec<u8>,
    pub vram: Vec<u8>,
    pub oam_data: Vec<u8>,
    pub palette_table: Vec<u8>,
    pub mirroring: Mirroring,
    pub addr: AddrRegister,
    pub ctrl: ControlRegister,
    pub internal_data_buf: u8,
}

/// The register ports the memory bus routes CPU writes to. The spec
/// functions expose the latched state the port protocol is about, so a
/// bus calling through the trait gets the same guarantees as one calling
/// the mapper directly: an address-port write drives the two-phase latch,
/// a control-port write stores the bit field, and neither touches the
/// memories or the read buffer.
pub trait PPU {
    /// The two-phase address latch the address port feeds.
    spec fn addr_latch(&self) -> AddrRegister;

    /// The control register bit field.
    spec fn control_bits(&self) -> u8;

    /// Everything a register-port write must leave alone: the memories,
    /// the mirroring wiring, and the internal read buffer.
    spec fn ports_leave_rest(&self, other: &Self) -> bool;

    fn write_to_ppu_addr(&mut self, value: u8)
        ensures
            final(self).addr_latch() == AddrRegister::spec_update(old(self).addr_latch(), value),
            final(self).control_bits() == old(self).control_bits(),
            final(self).ports_leave_rest(old(self)),
    ;

    fn write_to_ctrl(&mut self, value: u8)
        ensures
            final(self).control_bits() == value,
            final(self).addr_latch() == old(self).addr_latch(),
            final(self).ports_leave_rest(old(self)),
    ;
}

impl NesPPU {
    /// The fixed sizes of the memories and the mask invariant of the
    /// address latch.
    pub open spec fn wf(&self) -> bool {
        &&& self.vram@.len() == 2048
        &&& self.oam_data@.len() == 256
        &&& self.palette_table@.len() == 32
        &&& self.addr.wf()
    }

    /// The byte the previous data-port read left in the internal buffer.
    pub open spec fn buf(&self) -> u8 {
        self.internal_data_buf
    }

    /// The memories, the mirroring mode and the control register are
    /// untouched by a register-port access.
    pub open spec fn same_memories(&self, other: &NesPPU) -> bool {
        &&& self.chr_rom@ == other.chr_rom@
        &&& self.vram@ == other.vram@
        &&& self.oam_data@ == other.oam_data@
        &&& self.palette_table@ == other.palette_table@
        &&& self.mirroring == other.mirroring
    }

    pub fn new(chr_rom: Vec<u8>, mirroring: Mirroring) -> (ppu: NesPPU)
        ensures
            ppu.wf(),
            ppu.chr_rom@ == chr_rom@,
            ppu.mirroring == mirroring,
            forall|i: int| 0 <= i < 2048 ==> ppu.vram@[i] == 0,
            forall|i: int| 0 <= i < 256 ==> ppu.oam_data@[i] == 0,
            forall|i: int| 0 <= i < 32 ==> ppu.palette_table@[i] == 0,
            ppu.buf() == 0,
            ppu.addr.value() == 0,
            ppu.addr.hi_ptr,
            ppu.ctrl.bits == 0,
    {
        NesPPU {
            chr_rom,
            mirroring,
            vram: zero_bytes(2048),
            oam_data: zero_bytes(256),
            palette_table: zero_bytes(32),
            internal_data_buf: 0,
            addr: AddrRegister::new(),
            ctrl: ControlRegister::new(),
        }
    }

    /// Folds a nametable-window address (the 0x3000-0x3EFF mirror region
    /// included) down to its physical index in the 2KB VRAM.
    pub fn mirror_vram_addr(&self, addr: u16) -> (index: u16)
        requires
            0x2000 <= addr < 0x3f00,
        ensures
            index == spec_mirror(self.mirroring, addr),
            index < 2048,
    {
        proof {
            lemma_mirror_in_range(self.mirroring, addr);
            assert(0x2000 <= (addr & 0x2fff) < 0x3000) by (bit_vector)
                requires
                    0x2000 <= addr < 0x3f00,
            ;
            vstd::arithmetic::div_mod::lemma_fundamental_div_mod((addr & 0x2fff) - 0x2000, 0x400);
            vstd::arithmetic::div_mod::lemma_mod_division_less_than_divisor(
                (addr & 0x2fff) - 0x2000,
                0x400,
            );
        }
        let mirrored_vram = addr & 0x2fff;
        let vram_index = mirrored_vram - 0x2000;
        let name_table = vram_index / 0x400;
        match (self.mirroring, name_table) {
            (Mirroring::Vertical, 2) | (Mirroring::Vertical, 3) => vram_index - 0x800,
            (Mirroring::Horizontal, 2) => vram_index - 0x400,
            (Mirroring::Horizontal, 1) => vram_index - 0x400,
            (Mirroring::Horizontal, 3) => vram_index - 0x800,
            _ => vram_index,
        }
    }

    /// Feeds one byte into the two-phase address latch: the high byte on
    /// the first write of a pair, the low byte on the second; the composed
    /// value is masked into the 14-bit address space and the toggle flips.
    pub fn write_addr_port(&mut self, value: u8)
        ensures
            final(self).addr == AddrRegister::spec_update(old(self).addr, value),
            final(self).same_memories(old(self)),
            final(self).ctrl == old(self).ctrl,
            final(self).buf() == old(self).buf(),
    {
        self.addr.update(value);
    }

    /// Stores the control bit field that selects the VRAM increment step.
    pub fn write_ctrl_port(&mut self, value: u8)
        ensures
            final(self).ctrl.bits == value,
            final(self).same_memories(old(self)),
            final(self).addr == old(self).addr,
            final(self).buf() == old(self).buf(),
    {
        self.ctrl.update(value);
    }

    /// Adds the control-derived step (1 or 32) to the address latch and
    /// re-masks it into the 14-bit address space.
    pub fn increment_vram_addr(&mut self)
        requires
            old(self).addr.wf(),
        ensures
            final(self).addr.wf(),
            final(self).addr.value() == (old(self).addr.value()
                + old(self).ctrl.spec_vram_addr_increment()) % 0x4000,
            final(self).addr.hi_ptr == old(self).addr.hi_ptr,
            final(self).same_memories(old(self)),
            final(self).ctrl == old(self).ctrl,
            final(self).buf() == old(self).buf(),
    {
        let step = self.ctrl.vram_addr_increment();
        self.addr.increment(step);
    }

    /// One data-port read. The address latch is read, then auto-advanced
    /// by the control-derived step. Pattern-table and nametable reads
    /// return the byte left by the previous read and refill the buffer
    /// (one-read latency); palette reads return the cell directly with no
    /// latency and leave the buffer alone.
    ///
    /// The reserved region 0x3000-0x3EFF is unreachable after mirroring;
    /// a latch pointing there indicates a routing defect, and the caller
    /// must not ask for the read. A pattern-table read needs the cartridge
    /// to cover the latched address, and a palette read is bounded by the
    /// 32-byte palette table: at 0x3F20 and above the direct index
    /// `addr - 0x3F00` runs past it, so the no-latency guarantee is
    /// stated on 0x3F00-0x3F1F, the whole window the table can serve.
    pub fn read_data(&mut self) -> (data: u8)
        requires
            old(self).wf(),
            !(0x3000 <= old(self).addr.value() < 0x3f00),
            old(self).addr.value() < 0x2000 ==> old(self).addr.value() < old(self).chr_rom@.len(),
            0x3f00 <= old(self).addr.value() ==> old(self).addr.value() < 0x3f20,
        ensures
            final(self).wf(),
            final(self).addr.value() == (old(self).addr.value()
                + old(self).ctrl.spec_vram_addr_increment()) % 0x4000,
            final(self).chr_rom@ == old(self).chr_rom@,
            final(self).oam_data@ == old(self).oam_data@,
            final(self).palette_table@ == old(self).palette_table@,
            final(self).vram@ == old(self).vram@,
            final(self).mirroring == old(self).mirroring,
            final(self).ctrl == old(self).ctrl,
            old(self).addr.value() < 0x2000 ==> data == old(self).buf() && final(self).buf()
                == old(self).chr_rom@[old(self).addr.value()],
            0x2000 <= old(self).addr.value() < 0x3000 ==> data == old(self).buf()
                && final(self).buf() == old(self).vram@[spec_mirror(
                old(self).mirroring,
                old(self).addr.value() as u16,
            )],
            0x3f00 <= old(self).addr.value() ==> data == old(self).palette_table@[old(self).addr.value() - 0x3f00]
                && final(self).buf() == old(self).buf(),
    {
        let addr = self.addr.get();
        self.increment_vram_addr();

        if addr < 0x2000 {
            let res = self.internal_data_buf;
            self.internal_data_buf = self.chr_rom[addr as usize];
            res
        } else if addr < 0x3000 {
            proof {
                lemma_mirror_in_range(self.mirroring, addr);
            }
            let res = self.internal_data_buf;
            let index = self.mirror_vram_addr(addr);
            self.internal_data_buf = self.vram[index as usize];
            res
        } else {
            self.palette_table[(addr - 0x3f00) as usize]
        }
    }
}

impl PPU for NesPPU {
    open spec fn addr_latch(&self) -> AddrRegister {
        self.addr
    }

    open spec fn control_bits(&self) -> u8 {
        self.ctrl.bits
    }

    open spec fn ports_leave_rest(&self, other: &Self) -> bool {
        self.same_memories(other) && self.buf() == other.buf()
    }

    fn write_to_ppu_addr(&mut self, value: u8) {
        self.write_addr_port(value);
    }

    fn write_to_ctrl(&mut self, value: u8) {
        self.write_ctrl_port(value);
    }
}

/// A zero-filled byte vector of the given length.
pub(crate) fn zero_bytes(n: usize) -> (v: Vec<u8>)
    ensures
        v@.len() == n,
        forall|i: int| 0 <= i < n ==> v@[i] == 0,
{
    let mut v: Vec<u8> = Vec::new();
    while v.len() < n
        invariant
            v@.len() <= n,
            forall|i: int| 0 <= i < v@.len() ==> v@[i] == 0,
        decreases n - v@.len(),
    {
        v.push(0);
    }
    v
}

} // verus!
