//! The execution tracer: a pure formatter that renders one column-exact
//! log line per CPU state snapshot, for byte-for-byte diffing against
//! golden hardware traces. It peeks at memory without side effects and
//! never mutates CPU state.

use vstd::prelude::*;

use crate::cpu::Cpu;
use crate::cpu::CpuView;
use crate::cpu::spec_step;
use crate::cpu::add16;
use crate::cpu::add8;
use crate::cpu::mem_at;
use crate::cpu::spec_read16;
use crate::cpu::spec_resolve;
use crate::opcodes::AddressingMode;
use crate::opcodes::OpCode;
use crate::opcodes::find_opcode;
use crate::opcodes::lemma_find_wf;
use crate::opcodes::spec_find;
use crate::opcodes::spec_table_wf;
use crate::text::chars_to_string;
use crate::text::push_hex2;
use crate::text::push_hex4;
use crate::text::push_spaces;
use crate::text::push_str_chars;
use crate::text::spec_hex2;
use crate::text::spec_hex4;
use crate::text::spec_pad_left;
use crate::text::spec_pad_right;
use crate::text::spec_spaces;
use crate::text::spec_trim_right;
use crate::text::trim_right;

verus! {

/// 16-bit subtraction with wrap-around, used to display the base of an
/// indexed effective address.
pub open spec fn sub16(a: u16, b: u16) -> u16 {
    vstd::wrapping::u16_specs::wrapping_sub(a, b)
}

/// The fixed register suffix of every trace line.
pub open spec fn spec_suffix(c: CpuView) -> Seq<char> {
    seq!['A', ':'] + spec_hex2(c.a) + seq![' ', 'X', ':'] + spec_hex2(c.x) + seq![' ', 'Y', ':']
        + spec_hex2(c.y) + seq![' ', 'P', ':'] + spec_hex2(c.status) + seq![' ', 'S', 'P', ':']
        + spec_hex2(c.sp)
}

/// The memory operand the instruction will act on, as the tracer
/// displays it: immediate and implied operands show no address.
pub open spec fn spec_mem_addr(c: CpuView, mode: AddressingMode) -> u16 {
    if mode == AddressingMode::Immediate || mode == AddressingMode::NoneAddressing {
        0
    } else {
        match spec_resolve(c, mode, add16(c.pc, 1)) {
            Some(a) => a,
            None => 0,
        }
    }
}

/// The byte stored at the displayed operand address.
pub open spec fn spec_stored(c: CpuView, mode: AddressingMode) -> u8 {
    if mode == AddressingMode::Immediate || mode == AddressingMode::NoneAddressing {
        0
    } else {
        mem_at(c.mem, spec_mem_addr(c, mode))
    }
}

/// The space-joined hex dump of the instruction's own bytes: one
/// two-digit group per byte of its metadata length.
pub open spec fn spec_dump_text(c: CpuView, op: OpCode) -> Seq<char> {
    let code = mem_at(c.mem, c.pc);
    let b1 = mem_at(c.mem, add16(c.pc, 1));
    if op.len == 2 {
        spec_hex2(code) + seq![' '] + spec_hex2(b1)
    } else if op.len == 3 {
        spec_hex2(code) + seq![' '] + spec_hex2(b1) + seq![' '] + spec_hex2(
            mem_at(c.mem, add16(c.pc, 2)),
        )
    } else {
        spec_hex2(code)
    }
}

/// The assembly operand text, by addressing mode and instruction length.
/// Four one-byte opcodes (the accumulator shift and rotate forms) show
/// the accumulator marker; other one-byte instructions show nothing.
pub open spec fn spec_operand_text(c: CpuView, op: OpCode) -> Seq<char> {
    let code = mem_at(c.mem, c.pc);
    let b1 = mem_at(c.mem, add16(c.pc, 1));
    let ma = spec_mem_addr(c, op.mode);
    let sv = spec_stored(c, op.mode);
    if op.len == 1 {
        if code == 0x0a || code == 0x4a || code == 0x2a || code == 0x6a {
            seq!['A', ' ']
        } else {
            Seq::empty()
        }
    } else if op.len == 2 {
        match op.mode {
            AddressingMode::Immediate => seq!['#', '$'] + spec_hex2(b1),
            AddressingMode::ZeroPage => seq!['$'] + spec_hex2(ma as u8) + seq![' ', '=', ' ']
                + spec_hex2(sv),
            AddressingMode::ZeroPageX => seq!['$'] + spec_hex2(b1) + seq![',', 'X', ' ', '@', ' ']
                + spec_hex2(ma as u8) + seq![' ', '=', ' '] + spec_hex2(sv),
            AddressingMode::ZeroPageY => seq!['$'] + spec_hex2(b1) + seq![',', 'Y', ' ', '@', ' ']
                + spec_hex2(ma as u8) + seq![' ', '=', ' '] + spec_hex2(sv),
            AddressingMode::Absolute => seq!['$'] + spec_hex4(ma) + seq![' ', '=', ' ']
                + spec_hex2(sv),
            AddressingMode::AbsoluteX => seq!['$'] + spec_hex4(sub16(ma, c.x as u16)) + seq![
                ',',
                'X',
                ' ',
                '@',
                ' ',
            ] + spec_hex4(ma) + seq![' ', '=', ' '] + spec_hex2(sv),
            AddressingMode::AbsoluteY => seq!['$'] + spec_hex4(sub16(ma, c.y as u16)) + seq![
                ',',
                'Y',
                ' ',
                '@',
                ' ',
            ] + spec_hex4(ma) + seq![' ', '=', ' '] + spec_hex2(sv),
            AddressingMode::IndirectX => seq!['(', '$'] + spec_hex2(b1) + seq![
                ',',
                'X',
                ')',
                ' ',
                '@',
                ' ',
            ] + spec_hex2(add8(b1, c.x)) + seq![' ', '=', ' '] + spec_hex4(ma) + seq![
                ' ',
                '=',
                ' ',
            ] + spec_hex2(sv),
            AddressingMode::IndirectY => seq!['(', '$'] + spec_hex2(b1) + seq![
                ')',
                ',',
                'Y',
                ' ',
                '=',
                ' ',
            ] + spec_hex4(sub16(ma, c.y as u16)) + seq![' ', '@', ' '] + spec_hex4(ma) + seq![
                ' ',
                '=',
                ' ',
            ] + spec_hex2(sv),
            AddressingMode::NoneAddressing => seq!['$'] + spec_hex4(
                spec_read16(c.mem, add16(c.pc, 1)),
            ),
        }
    } else if op.len == 3 {
        let address = spec_read16(c.mem, add16(c.pc, 1));
        match op.mode {
            AddressingMode::NoneAddressing => {
                if code == 0x6c {
                    seq!['(', '$'] + spec_hex4(address) + seq![')']
                } else {
                    seq!['$'] + spec_hex4(address)
                }
            },
            AddressingMode::Absolute => seq!['$'] + spec_hex4(ma) + seq![' ', '=', ' ']
                + spec_hex2(sv),
            AddressingMode::AbsoluteX => seq!['$'] + spec_hex4(address) + seq![
                ',',
                'X',
                ' ',
                '@',
                ' ',
            ] + spec_hex4(ma) + seq![' ', '=', ' '] + spec_hex2(sv),
            AddressingMode::AbsoluteY => seq!['$'] + spec_hex4(address) + seq![
                ',',
                'Y',
                ' ',
                '@',
                ' ',
            ] + spec_hex4(ma) + seq![' ', '=', ' '] + spec_hex2(sv),
            _ => Seq::empty(),
        }
    } else {
        Seq::empty()
    }
}

/// The untrimmed left-hand assembly portion: program counter, padded hex
/// dump, right-aligned mnemonic, operand text.
pub open spec fn spec_asm(c: CpuView, op: OpCode) -> Seq<char> {
    spec_hex4(c.pc) + spec_spaces(2) + spec_pad_right(spec_dump_text(c, op), 8) + seq![' ']
        + spec_pad_left(op.mnemonic@, 4) + seq![' '] + spec_operand_text(c, op)
}

/// One whole trace line: the assembly portion trimmed of trailing
/// whitespace and padded to its fixed column, then the register suffix.
/// An opcode byte without a metadata entry gets the placeholder line.
pub open spec fn spec_trace_line(c: CpuView, table: Seq<OpCode>) -> Seq<char> {
    let code = mem_at(c.mem, c.pc);
    match spec_find(table, code) {
        None => spec_hex4(c.pc) + spec_spaces(2) + spec_hex2(code) + spec_spaces(8) + seq![
            '*',
            'U',
            'N',
            'K',
            'N',
            'O',
            'W',
            'N',
        ] + spec_spaces(24) + spec_suffix(c),
        Some(op) => spec_pad_right(spec_trim_right(spec_asm(c, op)), 47) + seq![' ']
            + spec_suffix(c),
    }
}

/// Appends the register suffix of a trace line.
fn push_suffix(out: &mut Vec<char>, cpu: &Cpu)
    ensures
        final(out)@ == old(out)@ + spec_suffix(cpu@),
{
    out.push('A');
    out.push(':');
    push_hex2(out, cpu.register_a);
    out.push(' ');
    out.push('X');
    out.push(':');
    push_hex2(out, cpu.register_x);
    out.push(' ');
    out.push('Y');
    out.push(':');
    push_hex2(out, cpu.register_y);
    out.push(' ');
    out.push('P');
    out.push(':');
    push_hex2(out, cpu.status);
    out.push(' ');
    out.push('S');
    out.push('P');
    out.push(':');
    push_hex2(out, cpu.stack_pointer);
    proof {
        assert(final(out)@ =~= old(out)@ + spec_suffix(cpu@));
    }
}

/// Appends the assembly operand text.
#[verifier::rlimit(100)]
fn push_operand_text(out: &mut Vec<char>, cpu: &Cpu, op: &OpCode)
    requires
        cpu.wf(),
        1 <= op.len <= 3,
        op.len == 3 ==> op.mode == AddressingMode::NoneAddressing || op.mode
            == AddressingMode::Absolute || op.mode == AddressingMode::AbsoluteX || op.mode
            == AddressingMode::AbsoluteY,
    ensures
        final(out)@ == old(out)@ + spec_operand_text(cpu@, *op),
{
    let code = cpu.mem_read(cpu.program_counter);
    let pc1 = cpu.program_counter.wrapping_add(1);
    let b1 = cpu.mem_read(pc1);
    let mode = op.mode;
    let (mem_addr, stored_value): (u16, u8) = if mode == AddressingMode::Immediate || mode
        == AddressingMode::NoneAddressing {
        (0, 0)
    } else {
        match cpu.resolve_effective_address(mode, pc1) {
            Some(a) => (a, cpu.mem_read(a)),
            None => (0, 0),
        }
    };
    if op.len == 1 {
        if code == 0x0a || code == 0x4a || code == 0x2a || code == 0x6a {
            out.push('A');
            out.push(' ');
        }
    } else if op.len == 2 {
        match mode {
            AddressingMode::Immediate => {
                out.push('#');
                out.push('$');
                push_hex2(out, b1);
            },
            AddressingMode::ZeroPage => {
                out.push('$');
                push_hex2(out, mem_addr as u8);
                push_eq(out);
                push_hex2(out, stored_value);
            },
            AddressingMode::ZeroPageX => {
                out.push('$');
                push_hex2(out, b1);
                push_at(out, 'X');
                push_hex2(out, mem_addr as u8);
                push_eq(out);
                push_hex2(out, stored_value);
            },
            AddressingMode::ZeroPageY => {
                out.push('$');
                push_hex2(out, b1);
                push_at(out, 'Y');
                push_hex2(out, mem_addr as u8);
                push_eq(out);
                push_hex2(out, stored_value);
            },
            AddressingMode::Absolute => {
                out.push('$');
                push_hex4(out, mem_addr);
                push_eq(out);
                push_hex2(out, stored_value);
            },
            AddressingMode::AbsoluteX => {
                out.push('$');
                push_hex4(out, mem_addr.wrapping_sub(cpu.register_x as u16));
                push_at(out, 'X');
                push_hex4(out, mem_addr);
                push_eq(out);
                push_hex2(out, stored_value);
            },
            AddressingMode::AbsoluteY => {
                out.push('$');
                push_hex4(out, mem_addr.wrapping_sub(cpu.register_y as u16));
                push_at(out, 'Y');
                push_hex4(out, mem_addr);
                push_eq(out);
                push_hex2(out, stored_value);
            },
            AddressingMode::IndirectX => {
                out.push('(');
                out.push('$');
                push_hex2(out, b1);
                out.push(',');
                out.push('X');
                out.push(')');
                out.push(' ');
                out.push('@');
                out.push(' ');
                push_hex2(out, b1.wrapping_add(cpu.register_x));
                push_eq(out);
                push_hex4(out, mem_addr);
                push_eq(out);
                push_hex2(out, stored_value);
            },
            AddressingMode::IndirectY => {
                out.push('(');
                out.push('$');
                push_hex2(out, b1);
                out.push(')');
                out.push(',');
                out.push('Y');
                push_eq(out);
                push_hex4(out, mem_addr.wrapping_sub(cpu.register_y as u16));
                out.push(' ');
                out.push('@');
                out.push(' ');
                push_hex4(out, mem_addr);
                push_eq(out);
                push_hex2(out, stored_value);
            },
            AddressingMode::NoneAddressing => {
                let address = cpu.mem_read_u16(pc1);
                out.push('$');
                push_hex4(out, address);
            },
        }
    } else {
        let address = cpu.mem_read_u16(pc1);
        match mode {
            AddressingMode::NoneAddressing => {
                if code == 0x6c {
                    out.push('(');
                    out.push('$');
                    push_hex4(out, address);
                    out.push(')');
                } else {
                    out.push('$');
                    push_hex4(out, address);
                }
            },
            AddressingMode::Absolute => {
                out.push('$');
                push_hex4(out, mem_addr);
                push_eq(out);
                push_hex2(out, stored_value);
            },
            AddressingMode::AbsoluteX => {
                out.push('$');
                push_hex4(out, address);
                push_at(out, 'X');
                push_hex4(out, mem_addr);
                push_eq(out);
                push_hex2(out, stored_value);
            },
            AddressingMode::AbsoluteY => {
                out.push('$');
                push_hex4(out, address);
                push_at(out, 'Y');
                push_hex4(out, mem_addr);
                push_eq(out);
                push_hex2(out, stored_value);
            },
            _ => {
                proof {
                    assert(false);
                }
            },
        }
    }
    proof {
        assert(final(out)@ =~= old(out)@ + spec_operand_text(cpu@, *op));
    }
}

/// Appends `" = "`.
fn push_eq(out: &mut Vec<char>)
    ensures
        final(out)@ == old(out)@ + seq![' ', '=', ' '],
{
    out.push(' ');
    out.push('=');
    out.push(' ');
    proof {
        assert(final(out)@ =~= old(out)@ + seq![' ', '=', ' ']);
    }
}

/// Appends `",R @ "` for an index register `R`.
fn push_at(out: &mut Vec<char>, reg: char)
    ensures
        final(out)@ == old(out)@ + seq![',', reg, ' ', '@', ' '],
{
    out.push(',');
    out.push(reg);
    out.push(' ');
    out.push('@');
    out.push(' ');
    proof {
        assert(final(out)@ =~= old(out)@ + seq![',', reg, ' ', '@', ' ']);
    }
}

/// Renders the trace line for the instruction the program counter points
/// at: program counter, instruction bytes, mnemonic and operand in fixed
/// columns, then the register suffix. Reads are pure peeks; no CPU or PPU
/// state moves. An opcode byte without a metadata entry yields the
/// placeholder line with the same register suffix.
#[verifier::rlimit(100)]
pub fn trace(cpu: &Cpu, opcodes: &Vec<OpCode>) -> (line: String)
    requires
        cpu.wf(),
        spec_table_wf(opcodes@),
    ensures
        line@ == spec_trace_line(cpu@, opcodes@),
{
    let code = cpu.mem_read(cpu.program_counter);
    let mut out: Vec<char> = Vec::new();
    match find_opcode(opcodes, code) {
        None => {
            push_hex4(&mut out, cpu.program_counter);
            push_spaces(&mut out, 2);
            push_hex2(&mut out, code);
            push_spaces(&mut out, 8);
            push_str_chars(&mut out, "*UNKNOWN");
            push_spaces(&mut out, 24);
            push_suffix(&mut out, cpu);
            proof {
                reveal_strlit("*UNKNOWN");
                assert("*UNKNOWN"@ =~= seq!['*', 'U', 'N', 'K', 'N', 'O', 'W', 'N']);
                assert(out@ =~= spec_trace_line(cpu@, opcodes@));
            }
        },
        Some(op) => {
            proof {
                lemma_find_wf(opcodes@, code);
            }
            let pc1 = cpu.program_counter.wrapping_add(1);
            let mut dump: Vec<char> = Vec::new();
            push_hex2(&mut dump, code);
            if op.len == 2 {
                dump.push(' ');
                push_hex2(&mut dump, cpu.mem_read(pc1));
            } else if op.len == 3 {
                dump.push(' ');
                push_hex2(&mut dump, cpu.mem_read(pc1));
                dump.push(' ');
                push_hex2(&mut dump, cpu.mem_read(cpu.program_counter.wrapping_add(2)));
            }
            proof {
                assert(dump@ =~= spec_dump_text(cpu@, *op));
            }
            push_hex4(&mut out, cpu.program_counter);
            push_spaces(&mut out, 2);
            let dump_len = dump.len();
            out.append(&mut dump);
            if dump_len < 8 {
                push_spaces(&mut out, 8 - dump_len);
            }
            out.push(' ');
            proof {
                assert(out@ =~= spec_hex4(cpu@.pc) + spec_spaces(2) + spec_pad_right(
                    spec_dump_text(cpu@, *op),
                    8,
                ) + seq![' ']);
            }
            let mnemonic_len = op.mnemonic.as_str().unicode_len();
            if mnemonic_len < 4 {
                push_spaces(&mut out, 4 - mnemonic_len);
            }
            push_str_chars(&mut out, op.mnemonic.as_str());
            proof {
                assert(out@ =~= spec_hex4(cpu@.pc) + spec_spaces(2) + spec_pad_right(
                    spec_dump_text(cpu@, *op),
                    8,
                ) + seq![' '] + spec_pad_left(op.mnemonic@, 4));
            }
            out.push(' ');
            push_operand_text(&mut out, cpu, op);
            proof {
                assert(out@ =~= spec_asm(cpu@, *op));
            }
            trim_right(&mut out);
            let trimmed_len = out.len();
            if trimmed_len < 47 {
                push_spaces(&mut out, 47 - trimmed_len);
            }
            proof {
                assert(out@ =~= spec_pad_right(spec_trim_right(spec_asm(cpu@, *op)), 47));
            }
            out.push(' ');
            push_suffix(&mut out, cpu);
            proof {
                assert(out@ =~= spec_trace_line(cpu@, opcodes@));
            }
        },
    }
    chars_to_string(&out)
}

/// The trace lines and end state of driving the machine for at most
/// `fuel` instructions: each instruction is rendered before it executes
/// (the halting one included), and the run stops early when a step halts.
pub open spec fn spec_run(c: CpuView, table: Seq<OpCode>, fuel: nat) -> (Seq<Seq<char>>, CpuView)
    decreases fuel,
{
    if fuel == 0 {
        (Seq::empty(), c)
    } else {
        let line = spec_trace_line(c, table);
        let stepped = spec_step(c, table);
        if stepped.1 {
            (seq![line], stepped.0)
        } else {
            let rest = spec_run(stepped.0, table, (fuel - 1) as nat);
            (seq![line] + rest.0, rest.1)
        }
    }
}

/// The execution loop with the tracer as its per-instruction hook: the
/// snapshot is rendered strictly before the instruction executes. The
/// caller stops driving the loop after `fuel` instructions at the
/// latest; a break or an unknown opcode stops it early, after its line.
pub fn run_traced(cpu: &mut Cpu, opcodes: &Vec<OpCode>, fuel: usize) -> (lines: Vec<String>)
    requires
        old(cpu).wf(),
        spec_table_wf(opcodes@),
    ensures
        final(cpu).wf(),
        lines.deep_view() == spec_run(old(cpu)@, opcodes@, fuel as nat).0,
        final(cpu)@ == spec_run(old(cpu)@, opcodes@, fuel as nat).1,
    decreases fuel,
{
    let mut lines: Vec<String> = Vec::new();
    if fuel == 0 {
        proof {
            assert(lines.deep_view() =~= spec_run(old(cpu)@, opcodes@, fuel as nat).0);
        }
        return lines;
    }
    let line = trace(cpu, opcodes);
    lines.push(line);
    let halted = cpu.step(opcodes);
    if halted {
        proof {
            assert(lines.deep_view() =~= spec_run(old(cpu)@, opcodes@, fuel as nat).0);
        }
        lines
    } else {
        let mut rest = run_traced(cpu, opcodes, fuel - 1);
        lines.append(&mut rest);
        proof {
            assert(lines.deep_view() =~= spec_run(old(cpu)@, opcodes@, fuel as nat).0);
        }
        lines
    }
}

} // verus!
