//! The PPU's two latched registers: the two-phase address latch and the
//! control register whose one relevant bit selects the VRAM increment step.

use vstd::prelude::*;

verus! {

/// A 16-bit VRAM address built from two sequential 8-bit writes (high byte
/// first, then low byte). `hi_ptr` tracks which half the next write fills.
/// After every write or increment the value is masked down into the
/// 14-bit PPU address space, so it never exceeds 0x3FFF.
pub struct AddrRegister {
    pub hi: u8,
    pub lo: u8,
    pub hi_ptr: bool,
}

impl AddrRegister {
    /// The 16-bit address the latch currently holds.
    pub open spec fn value(&self) -> int {
        (self.hi as int) * 256 + (self.lo as int)
    }

    /// The latch is always masked into the 14-bit address space.
    pub open spec fn wf(&self) -> bool {
        self.hi <= 0x3f
    }

    /// One write into the latch: fills the half selected by `hi_ptr`,
    /// masks the composed value down to 14 bits, and flips the toggle.
    pub open spec fn spec_update(r: AddrRegister, data: u8) -> AddrRegister {
        let hi0 = if r.hi_ptr { data } else { r.hi };
        let lo0 = if r.hi_ptr { r.lo } else { data };
        AddrRegister { hi: hi0 & 0x3f, lo: lo0, hi_ptr: !r.hi_ptr }
    }

    pub fn new() -> (r: AddrRegister)
        ensures
            r.wf(),
            r.value() == 0,
            r.hi_ptr,
    {
        AddrRegister { hi: 0, lo: 0, hi_ptr: true }
    }

    pub fn get(&self) -> (v: u16)
        ensures
            v == self.value(),
    {
        (self.hi as u16) * 256 + (self.lo as u16)
    }

    pub fn update(&mut self, data: u8)
        ensures
            *final(self) == AddrRegister::spec_update(*old(self), data),
            final(self).wf(),
            final(self).hi_ptr == !old(self).hi_ptr,
            final(self).value() == (if old(self).hi_ptr {
                ((data as int) * 256 + old(self).lo) % 0x4000
            } else {
                ((old(self).hi as int) * 256 + data) % 0x4000
            }),
    {
        if self.hi_ptr {
            self.hi = data;
        } else {
            self.lo = data;
        }
        self.hi = self.hi & 0x3f;
        self.hi_ptr = !self.hi_ptr;
        proof {
            let d = if old(self).hi_ptr { data } else { old(self).hi };
            let l = if old(self).hi_ptr { old(self).lo } else { data };
            let hm = self.hi;
            assert(hm <= 0x3f && (hm as u16) * 256 + (l as u16) == ((d as u16) * 256 + (l
                as u16)) % 0x4000) by (bit_vector)
                requires
                    hm == d & 0x3f,
            ;
        }
    }

    /// Adds the control-derived step to the latch, wrapping the low byte
    /// into the high byte and re-masking into the 14-bit address space.
    pub fn increment(&mut self, inc: u8)
        requires
            old(self).wf(),
        ensures
            final(self).wf(),
            final(self).hi_ptr == old(self).hi_ptr,
            final(self).value() == (old(self).value() + inc) % 0x4000,
    {
        let lo0 = self.lo;
        self.lo = self.lo.wrapping_add(inc);
        if lo0 > self.lo {
            self.hi = self.hi.wrapping_add(1);
        }
        self.hi = self.hi & 0x3f;
        proof {
            let h = old(self).hi;
            let l = old(self).lo;
            let i = inc;
            let l2 = self.lo;
            let h2 = self.hi;
            assert(h2 <= 0x3f && (h2 as u16) * 256 + (l2 as u16) == ((h as u16) * 256 + (l
                as u16) + (i as u16)) % 0x4000) by (bit_vector)
                requires
                    h <= 0x3f,
                    l2 == (if l + i > 255 {
                        (l + i - 256) as u8
                    } else {
                        (l + i) as u8
                    }),
                    h2 == (if l > l2 {
                        ((h + 1) as u8)
                    } else {
                        h
                    }) & 0x3f,
            ;
        }
    }
}

/// Two sequential writes into a latch whose toggle is at the high phase
/// compose exactly the address `hi * 256 + lo` (for any high byte within
/// the 14-bit space), and leave the toggle back at the high phase: a
/// third write starts a new high/low pair.
pub proof fn lemma_latch_two_writes(r: AddrRegister, hi: u8, lo: u8)
    requires
        r.hi_ptr,
        hi <= 0x3f,
    ensures
        AddrRegister::spec_update(AddrRegister::spec_update(r, hi), lo).value() == hi * 256 + lo,
        AddrRegister::spec_update(AddrRegister::spec_update(r, hi), lo).hi_ptr,
{
    assert(hi & 0x3f == hi) by (bit_vector)
        requires
            hi <= 0x3f,
    ;
}

/// The PPU control register: an 8-bit flag set. Only one bit matters to
/// this core, the VRAM address increment select (0 means step 1, 1 means
/// step 32 after each data-port access); the rest is opaque pass-through
/// state for the rendering pipeline.
pub struct ControlRegister {
    pub bits: u8,
}

impl ControlRegister {
    /// The auto-increment step selected by bit 2 of the register.
    pub open spec fn spec_vram_addr_increment(&self) -> u8 {
        if self.bits & 0x04 != 0 {
            32
        } else {
            1
        }
    }

    pub fn new() -> (r: ControlRegister)
        ensures
            r.bits == 0,
    {
        ControlRegister { bits: 0 }
    }

    pub fn update(&mut self, data: u8)
        ensures
            final(self).bits == data,
    {
        self.bits = data;
    }

    pub fn vram_addr_increment(&self) -> (step: u8)
        ensures
            step == self.spec_vram_addr_increment(),
    {
        if self.bits & 0x04 != 0 {
            32
        } else {
            1
        }
    }
}

} // verus!
