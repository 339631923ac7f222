//! The CPU core: registers, flags and program counter, the
//! addressing-mode resolver, and the fetch-decode-execute step.
//!
//! Wrap-around arithmetic is normal, defined behaviour here: zero-page
//! operands wrap within page zero, absolute indexing and the program
//! counter wrap at 16 bits.

use vstd::prelude::*;

use crate::opcodes::AddressingMode;
use crate::opcodes::OpCode;
use crate::opcodes::find_opcode;
use crate::opcodes::spec_find;

verus! {

/// 8-bit addition with wrap-around inside one page.
pub open spec fn add8(a: u8, b: u8) -> u8 {
    vstd::wrapping::u8_specs::wrapping_add(a, b)
}

/// 8-bit subtraction with wrap-around inside one page.
pub open spec fn sub8(a: u8, b: u8) -> u8 {
    vstd::wrapping::u8_specs::wrapping_sub(a, b)
}

/// 16-bit addition with wrap-around over the whole address space.
pub open spec fn add16(a: u16, b: u16) -> u16 {
    vstd::wrapping::u16_specs::wrapping_add(a, b)
}

/// The 16-bit word with the given high and low bytes.
pub open spec fn word(hi: u8, lo: u8) -> u16 {
    (hi * 256 + lo) as u16
}

/// The byte of a 64KB memory image at an address.
pub open spec fn mem_at(m: Seq<u8>, a: u16) -> u8 {
    if a < m.len() {
        m[a as int]
    } else {
        0
    }
}

/// A little-endian 16-bit read at `a` and `a + 1`, with ordinary 16-bit
/// address arithmetic (no page restriction, unlike the zero-page wrap
/// inside indirect addressing).
pub open spec fn spec_read16(m: Seq<u8>, a: u16) -> u16 {
    word(mem_at(m, add16(a, 1)), mem_at(m, a))
}

/// A snapshot of the whole machine: registers, flags, program counter,
/// stack pointer, and the memory image.
#[verifier::ext_equal]
pub ghost struct CpuView {
    pub a: u8,
    pub x: u8,
    pub y: u8,
    pub status: u8,
    pub pc: u16,
    pub sp: u8,
    pub mem: Seq<u8>,
}

/// The zero and negative flags re-derived from a freshly written value;
/// all other status bits are preserved.
pub open spec fn spec_zn(status: u8, value: u8) -> u8 {
    let s1 = if value == 0 {
        status | 0x02
    } else {
        status & 0xfd
    };
    if value & 0x80 != 0 {
        s1 | 0x80
    } else {
        s1 & 0x7f
    }
}

/// The effective address an addressing mode resolves to, given the
/// location of the operand bytes. `Immediate` operands live at the
/// operand location itself; `NoneAddressing` has no memory operand.
pub open spec fn spec_resolve(c: CpuView, mode: AddressingMode, ptr: u16) -> Option<u16> {
    match mode {
        AddressingMode::Immediate => Some(ptr),
        AddressingMode::ZeroPage => Some(mem_at(c.mem, ptr) as u16),
        AddressingMode::ZeroPageX => Some(add8(mem_at(c.mem, ptr), c.x) as u16),
        AddressingMode::ZeroPageY => Some(add8(mem_at(c.mem, ptr), c.y) as u16),
        AddressingMode::Absolute => Some(spec_read16(c.mem, ptr)),
        AddressingMode::AbsoluteX => Some(add16(spec_read16(c.mem, ptr), c.x as u16)),
        AddressingMode::AbsoluteY => Some(add16(spec_read16(c.mem, ptr), c.y as u16)),
        AddressingMode::IndirectX => {
            let p = add8(mem_at(c.mem, ptr), c.x);
            Some(word(mem_at(c.mem, add8(p, 1) as u16), mem_at(c.mem, p as u16)))
        },
        AddressingMode::IndirectY => {
            let b = mem_at(c.mem, ptr);
            let base = word(mem_at(c.mem, add8(b, 1) as u16), mem_at(c.mem, b as u16));
            Some(add16(base, c.y as u16))
        },
        AddressingMode::NoneAddressing => None,
    }
}

/// The CPU and its 64KB memory image.
pub struct Cpu {
    pub register_a: u8,
    pub register_x: u8,
    pub register_y: u8,
    pub status: u8,
    pub program_counter: u16,
    pub stack_pointer: u8,
    pub memory: Vec<u8>,
}

impl View for Cpu {
    type V = CpuView;

    open spec fn view(&self) -> CpuView {
        CpuView {
            a: self.register_a,
            x: self.register_x,
            y: self.register_y,
            status: self.status,
            pc: self.program_counter,
            sp: self.stack_pointer,
            mem: self.memory@,
        }
    }
}

/// One fetch-decode-execute step over a machine snapshot. The step halts
/// (second component true) on a break instruction, on an opcode byte with
/// no metadata entry or outside the executed subset, or on metadata whose
/// mode yields no operand address; otherwise it yields the next snapshot.
pub open spec fn spec_step(c: CpuView, table: Seq<OpCode>) -> (CpuView, bool) {
    let code = mem_at(c.mem, c.pc);
    match spec_find(table, code) {
        None => (c, true),
        Some(op) => {
            if code == 0x00 {
                (c, true)
            } else {
                spec_exec_instr(c, op)
            }
        },
    }
}

/// The executed instruction subset: loads, a store, register transfers,
/// increments and decrements, and bitwise or. The operand address comes
/// from the metadata's addressing mode; the program counter advances by
/// the metadata's byte length (none of the subset redirects control flow).
pub open spec fn spec_exec_instr(c: CpuView, op: OpCode) -> (CpuView, bool) {
    let code = op.code;
    let ptr = add16(c.pc, 1);
    let pc2 = add16(c.pc, op.len as u16);
    if code == 0xa9 || code == 0xa5 || code == 0xb5 || code == 0xad || code == 0xbd || code
        == 0xb9 || code == 0xa1 || code == 0xb1 {
        // LDA
        match spec_resolve(c, op.mode, ptr) {
            None => (c, true),
            Some(a) => {
                let v = mem_at(c.mem, a);
                (CpuView { a: v, status: spec_zn(c.status, v), pc: pc2, ..c }, false)
            },
        }
    } else if code == 0xa2 || code == 0xa6 || code == 0xb6 || code == 0xae || code == 0xbe {
        // LDX
        match spec_resolve(c, op.mode, ptr) {
            None => (c, true),
            Some(a) => {
                let v = mem_at(c.mem, a);
                (CpuView { x: v, status: spec_zn(c.status, v), pc: pc2, ..c }, false)
            },
        }
    } else if code == 0x09 || code == 0x05 || code == 0x15 || code == 0x0d || code == 0x1d
        || code == 0x19 || code == 0x01 || code == 0x11 {
        // ORA
        match spec_resolve(c, op.mode, ptr) {
            None => (c, true),
            Some(a) => {
                let v = c.a | mem_at(c.mem, a);
                (CpuView { a: v, status: spec_zn(c.status, v), pc: pc2, ..c }, false)
            },
        }
    } else if code == 0x85 || code == 0x95 || code == 0x8d || code == 0x9d || code == 0x99
        || code == 0x81 || code == 0x91 {
        // STA
        match spec_resolve(c, op.mode, ptr) {
            None => (c, true),
            Some(a) => (CpuView { mem: c.mem.update(a as int, c.a), pc: pc2, ..c }, false),
        }
    } else if code == 0xaa {
        // TAX
        (CpuView { x: c.a, status: spec_zn(c.status, c.a), pc: pc2, ..c }, false)
    } else if code == 0xe8 {
        // INX
        let v = add8(c.x, 1);
        (CpuView { x: v, status: spec_zn(c.status, v), pc: pc2, ..c }, false)
    } else if code == 0xca {
        // DEX
        let v = sub8(c.x, 1);
        (CpuView { x: v, status: spec_zn(c.status, v), pc: pc2, ..c }, false)
    } else if code == 0x88 {
        // DEY
        let v = sub8(c.y, 1);
        (CpuView { y: v, status: spec_zn(c.status, v), pc: pc2, ..c }, false)
    } else {
        (c, true)
    }
}

impl Cpu {
    /// The memory image always spans the full 64KB address space.
    pub open spec fn wf(&self) -> bool {
        self.memory@.len() == 0x10000
    }

    /// A fresh session: cleared registers, the power-on status flags and
    /// stack pointer, and zeroed memory.
    pub fn new() -> (cpu: Cpu)
        ensures
            cpu.wf(),
            cpu@.a == 0 && cpu@.x == 0 && cpu@.y == 0,
            cpu@.status == 0x24,
            cpu@.sp == 0xfd,
            cpu@.pc == 0,
            forall|i: int| 0 <= i < 0x10000 ==> cpu@.mem[i] == 0,
    {
        Cpu {
            register_a: 0,
            register_x: 0,
            register_y: 0,
            status: 0x24,
            program_counter: 0,
            stack_pointer: 0xfd,
            memory: crate::ppu::zero_bytes(0x10000),
        }
    }

    /// A side-effect-free byte read; the bus variant that reaches PPU
    /// latches is out of this core's scope, so reads never mutate state.
    pub fn mem_read(&self, addr: u16) -> (data: u8)
        requires
            self.wf(),
        ensures
            data == mem_at(self@.mem, addr),
    {
        self.memory[addr as usize]
    }

    pub fn mem_write(&mut self, addr: u16, data: u8)
        requires
            old(self).wf(),
        ensures
            final(self).wf(),
            final(self)@.mem == old(self)@.mem.update(addr as int, data),
            final(self)@.a == old(self)@.a && final(self)@.x == old(self)@.x,
            final(self)@.y == old(self)@.y && final(self)@.status == old(self)@.status,
            final(self)@.pc == old(self)@.pc && final(self)@.sp == old(self)@.sp,
    {
        self.memory[addr as usize] = data;
    }

    /// Stores a 16-bit value little-endian at two consecutive addresses,
    /// with ordinary 16-bit address arithmetic.
    pub fn mem_write_u16(&mut self, addr: u16, data: u16)
        requires
            old(self).wf(),
        ensures
            final(self).wf(),
            final(self)@.mem == old(self)@.mem.update(addr as int, (data % 256) as u8).update(
                add16(addr, 1) as int,
                (data / 256) as u8,
            ),
            final(self)@.a == old(self)@.a && final(self)@.x == old(self)@.x,
            final(self)@.y == old(self)@.y && final(self)@.status == old(self)@.status,
            final(self)@.pc == old(self)@.pc && final(self)@.sp == old(self)@.sp,
    {
        self.mem_write(addr, (data % 256) as u8);
        self.mem_write(addr.wrapping_add(1), (data / 256) as u8);
    }

    /// Composes a 16-bit little-endian value from two consecutive reads,
    /// with ordinary 16-bit address arithmetic.
    pub fn mem_read_u16(&self, addr: u16) -> (data: u16)
        requires
            self.wf(),
        ensures
            data == spec_read16(self@.mem, addr),
    {
        let lo = self.mem_read(addr);
        let hi = self.mem_read(addr.wrapping_add(1));
        (hi as u16) * 256 + (lo as u16)
    }

    /// Resolves an addressing mode to the effective address of its
    /// operand, given the location right after the opcode byte.
    pub fn resolve_effective_address(&self, mode: AddressingMode, ptr: u16) -> (addr: Option<
        u16,
    >)
        requires
            self.wf(),
        ensures
            addr == spec_resolve(self@, mode, ptr),
    {
        match mode {
            AddressingMode::Immediate => Some(ptr),
            AddressingMode::ZeroPage => Some(self.mem_read(ptr) as u16),
            AddressingMode::ZeroPageX => {
                let pos = self.mem_read(ptr);
                Some(pos.wrapping_add(self.register_x) as u16)
            },
            AddressingMode::ZeroPageY => {
                let pos = self.mem_read(ptr);
                Some(pos.wrapping_add(self.register_y) as u16)
            },
            AddressingMode::Absolute => Some(self.mem_read_u16(ptr)),
            AddressingMode::AbsoluteX => {
                let base = self.mem_read_u16(ptr);
                Some(base.wrapping_add(self.register_x as u16))
            },
            AddressingMode::AbsoluteY => {
                let base = self.mem_read_u16(ptr);
                Some(base.wrapping_add(self.register_y as u16))
            },
            AddressingMode::IndirectX => {
                let base = self.mem_read(ptr);
                let p = base.wrapping_add(self.register_x);
                let lo = self.mem_read(p as u16);
                let hi = self.mem_read(p.wrapping_add(1) as u16);
                Some((hi as u16) * 256 + (lo as u16))
            },
            AddressingMode::IndirectY => {
                let base = self.mem_read(ptr);
                let lo = self.mem_read(base as u16);
                let hi = self.mem_read(base.wrapping_add(1) as u16);
                let deref_base = (hi as u16) * 256 + (lo as u16);
                Some(deref_base.wrapping_add(self.register_y as u16))
            },
            AddressingMode::NoneAddressing => None,
        }
    }

    fn update_zn(&mut self, value: u8)
        ensures
            final(self)@.status == spec_zn(old(self)@.status, value),
            final(self)@.a == old(self)@.a && final(self)@.x == old(self)@.x,
            final(self)@.y == old(self)@.y && final(self)@.pc == old(self)@.pc,
            final(self)@.sp == old(self)@.sp && final(self)@.mem == old(self)@.mem,
    {
        if value == 0 {
            self.status = self.status | 0x02;
        } else {
            self.status = self.status & 0xfd;
        }
        if value & 0x80 != 0 {
            self.status = self.status | 0x80;
        } else {
            self.status = self.status & 0x7f;
        }
    }

    /// One fetch-decode-execute step: fetch the opcode byte at the
    /// program counter, look its metadata up, and execute. Returns true
    /// when execution halts: a break, an unknown opcode (recoverable by
    /// the caller, never fed to the resolver), or an instruction outside
    /// the executed subset.
    pub fn step(&mut self, table: &Vec<OpCode>) -> (halted: bool)
        requires
            old(self).wf(),
        ensures
            final(self).wf(),
            final(self)@ == spec_step(old(self)@, table@).0,
            halted == spec_step(old(self)@, table@).1,
    {
        let code = self.mem_read(self.program_counter);
        let found = find_opcode(table, code);
        match found {
            None => true,
            Some(op) => {
                if code == 0x00 {
                    true
                } else {
                    let mode = op.mode;
                    let len = op.len;
                    let ptr = self.program_counter.wrapping_add(1);
                    let pc2 = self.program_counter.wrapping_add(len as u16);
                    match code {
                        0xa9 | 0xa5 | 0xb5 | 0xad | 0xbd | 0xb9 | 0xa1 | 0xb1 => {
                            match self.resolve_effective_address(mode, ptr) {
                                None => true,
                                Some(a) => {
                                    let v = self.mem_read(a);
                                    self.register_a = v;
                                    self.update_zn(v);
                                    self.program_counter = pc2;
                                    false
                                },
                            }
                        },
                        0xa2 | 0xa6 | 0xb6 | 0xae | 0xbe => {
                            match self.resolve_effective_address(mode, ptr) {
                                None => true,
                                Some(a) => {
                                    let v = self.mem_read(a);
                                    self.register_x = v;
                                    self.update_zn(v);
                                    self.program_counter = pc2;
                                    false
                                },
                            }
                        },
                        0x09 | 0x05 | 0x15 | 0x0d | 0x1d | 0x19 | 0x01 | 0x11 => {
                            match self.resolve_effective_address(mode, ptr) {
                                None => true,
                                Some(a) => {
                                    let v = self.register_a | self.mem_read(a);
                                    self.register_a = v;
                                    self.update_zn(v);
                                    self.program_counter = pc2;
                                    false
                                },
                            }
                        },
                        0x85 | 0x95 | 0x8d | 0x9d | 0x99 | 0x81 | 0x91 => {
                            match self.resolve_effective_address(mode, ptr) {
                                None => true,
                                Some(a) => {
                                    self.mem_write(a, self.register_a);
                                    self.program_counter = pc2;
                                    false
                                },
                            }
                        },
                        0xaa => {
                            let v = self.register_a;
                            self.register_x = v;
                            self.update_zn(v);
                            self.program_counter = pc2;
                            false
                        },
                        0xe8 => {
                            let v = self.register_x.wrapping_add(1);
                            self.register_x = v;
                            self.update_zn(v);
                            self.program_counter = pc2;
                            false
                        },
                        0xca => {
                            let v = self.register_x.wrapping_sub(1);
                            self.register_x = v;
                            self.update_zn(v);
                            self.program_counter = pc2;
                            false
                        },
                        0x88 => {
                            let v = self.register_y.wrapping_sub(1);
                            self.register_y = v;
                            self.update_zn(v);
                            self.program_counter = pc2;
                            false
                        },
                        _ => true,
                    }
                }
            },
        }
    }
}

} // verus!
