use nes_core::cpu::Cpu;
use nes_core::opcodes::AddressingMode;
use nes_core::opcodes::OpCode;
use nes_core::trace::run_traced;
use nes_core::trace::trace;

fn test_table() -> Vec<OpCode> {
    vec![
        OpCode::new(0x00, "BRK", 1, 7, AddressingMode::NoneAddressing),
        OpCode::new(0xa9, "LDA", 2, 2, AddressingMode::Immediate),
        OpCode::new(0xad, "LDA", 3, 4, AddressingMode::Absolute),
        OpCode::new(0xb1, "LDA", 2, 5, AddressingMode::IndirectY),
        OpCode::new(0xa2, "LDX", 2, 2, AddressingMode::Immediate),
        OpCode::new(0x85, "STA", 2, 3, AddressingMode::ZeroPage),
        OpCode::new(0x9d, "STA", 3, 5, AddressingMode::AbsoluteX),
        OpCode::new(0x11, "ORA", 2, 5, AddressingMode::IndirectY),
        OpCode::new(0x15, "ORA", 2, 4, AddressingMode::ZeroPageX),
        OpCode::new(0xaa, "TAX", 1, 2, AddressingMode::NoneAddressing),
        OpCode::new(0xe8, "INX", 1, 2, AddressingMode::NoneAddressing),
        OpCode::new(0xca, "DEX", 1, 2, AddressingMode::NoneAddressing),
        OpCode::new(0x88, "DEY", 1, 2, AddressingMode::NoneAddressing),
        OpCode::new(0x0a, "ASL", 1, 2, AddressingMode::NoneAddressing),
        OpCode::new(0x4c, "JMP", 3, 3, AddressingMode::NoneAddressing),
        OpCode::new(0x6c, "JMP", 3, 5, AddressingMode::NoneAddressing),
    ]
}

#[test]
fn test_format_trace() {
    let table = test_table();
    let mut cpu = Cpu::new();
    cpu.mem_write(100, 0xa2);
    cpu.mem_write(101, 0x01);
    cpu.mem_write(102, 0xca);
    cpu.mem_write(103, 0x88);
    cpu.mem_write(104, 0x00);

    cpu.program_counter = 0x64;
    cpu.register_a = 1;
    cpu.register_x = 2;
    cpu.register_y = 3;
    let result = run_traced(&mut cpu, &table, 100);
    assert_eq!(
        "0067  88        DEY                             A:01 X:00 Y:03 P:26 SP:FD",
        result[2]
    );
}

#[test]
fn test_format_mem_access() {
    let table = test_table();
    let mut cpu = Cpu::new();
    // ORA ($33), Y
    cpu.mem_write(100, 0x11);
    cpu.mem_write(101, 0x33);

    // data
    cpu.mem_write(0x33, 00);
    cpu.mem_write(0x34, 04);

    // target cell
    cpu.mem_write(0x400, 0xAA);

    cpu.program_counter = 0x64;
    cpu.register_y = 0;
    let result = run_traced(&mut cpu, &table, 100);
    assert_eq!(
        "0064  11 33     ORA ($33),Y = 0400 @ 0400 = AA  A:00 X:00 Y:00 P:24 SP:FD",
        result[0]
    );
}

#[test]
fn test_trace_whole_program() {
    let table = test_table();
    let mut cpu = Cpu::new();
    cpu.mem_write(100, 0xa2);
    cpu.mem_write(101, 0x01);
    cpu.mem_write(102, 0xca);
    cpu.mem_write(103, 0x88);
    cpu.mem_write(104, 0x00);

    cpu.program_counter = 0x64;
    cpu.register_a = 1;
    cpu.register_x = 2;
    cpu.register_y = 3;
    let result = run_traced(&mut cpu, &table, 100);
    assert_eq!(result.len(), 4);
    assert_eq!(
        "0064  A2 01     LDX #$01                        A:01 X:02 Y:03 P:24 SP:FD",
        result[0]
    );
    assert_eq!(
        "0066  CA        DEX                             A:01 X:01 Y:03 P:24 SP:FD",
        result[1]
    );
    // the break instruction is still rendered before execution halts
    assert_eq!(
        "0068  00        BRK                             A:01 X:00 Y:02 P:24 SP:FD",
        result[3]
    );
}

#[test]
fn test_trace_unknown_opcode_placeholder() {
    let table = test_table();
    let mut cpu = Cpu::new();
    cpu.mem_write(0x64, 0xff);
    cpu.program_counter = 0x64;
    let line = trace(&cpu, &table);
    assert_eq!(
        "0064  FF        *UNKNOWN                        A:00 X:00 Y:00 P:24 SP:FD",
        line
    );
    // the unknown byte also halts the run, after its placeholder line
    let result = run_traced(&mut cpu, &table, 100);
    assert_eq!(result.len(), 1);
    assert_eq!(result[0], line);
}

#[test]
fn test_trace_accumulator_marker() {
    let table = test_table();
    let mut cpu = Cpu::new();
    cpu.mem_write(0x64, 0x0a);
    cpu.program_counter = 0x64;
    let line = trace(&cpu, &table);
    assert_eq!(
        "0064  0A        ASL A                           A:00 X:00 Y:00 P:24 SP:FD",
        line
    );
}

#[test]
fn test_trace_absolute_mode() {
    let table = test_table();
    let mut cpu = Cpu::new();
    cpu.mem_write(0x200, 0xad);
    cpu.mem_write(0x201, 0x00);
    cpu.mem_write(0x202, 0x03);
    cpu.mem_write(0x300, 0x5a);
    cpu.program_counter = 0x200;
    let line = trace(&cpu, &table);
    assert_eq!(
        "0200  AD 00 03  LDA $0300 = 5A                  A:00 X:00 Y:00 P:24 SP:FD",
        line
    );
}

#[test]
fn test_trace_jump_class() {
    let table = test_table();
    let mut cpu = Cpu::new();
    cpu.mem_write(0x64, 0x4c);
    cpu.mem_write(0x65, 0xf5);
    cpu.mem_write(0x66, 0xc5);
    cpu.program_counter = 0x64;
    assert_eq!(
        "0064  4C F5 C5  JMP $C5F5                       A:00 X:00 Y:00 P:24 SP:FD",
        trace(&cpu, &table)
    );
    // the indirect-jump opcode parenthesizes its target
    cpu.mem_write(0x64, 0x6c);
    assert_eq!(
        "0064  6C F5 C5  JMP ($C5F5)                     A:00 X:00 Y:00 P:24 SP:FD",
        trace(&cpu, &table)
    );
}

fn mode_table() -> Vec<OpCode> {
    vec![
        OpCode::new(0xa5, "LDA", 2, 3, AddressingMode::ZeroPage),
        OpCode::new(0xb5, "LDA", 2, 4, AddressingMode::ZeroPageX),
        OpCode::new(0xb6, "LDX", 2, 4, AddressingMode::ZeroPageY),
        OpCode::new(0xbd, "LDA", 3, 4, AddressingMode::AbsoluteX),
        OpCode::new(0xb9, "LDA", 3, 4, AddressingMode::AbsoluteY),
        OpCode::new(0xa1, "LDA", 2, 6, AddressingMode::IndirectX),
    ]
}

fn mode_cpu() -> Cpu {
    let mut cpu = Cpu::new();
    cpu.program_counter = 0x64;
    cpu.register_x = 0x20;
    cpu.register_y = 0x10;
    cpu.mem_write(0x05, 0x42);
    cpu.mem_write(0xa0, 0x33);
    cpu.mem_write(0x90, 0x7f);
    cpu.mem_write(0x0320, 0x11);
    cpu.mem_write(0x0310, 0x22);
    cpu
}

#[test]
fn test_trace_zero_page_modes() {
    let table = mode_table();
    let mut cpu = mode_cpu();
    cpu.mem_write(0x64, 0xa5);
    cpu.mem_write(0x65, 0x05);
    assert_eq!(
        "0064  A5 05     LDA $05 = 42                    A:00 X:20 Y:10 P:24 SP:FD",
        trace(&cpu, &table)
    );
    cpu.mem_write(0x64, 0xb5);
    cpu.mem_write(0x65, 0x80);
    assert_eq!(
        "0064  B5 80     LDA $80,X @ A0 = 33             A:00 X:20 Y:10 P:24 SP:FD",
        trace(&cpu, &table)
    );
    cpu.mem_write(0x64, 0xb6);
    assert_eq!(
        "0064  B6 80     LDX $80,Y @ 90 = 7F             A:00 X:20 Y:10 P:24 SP:FD",
        trace(&cpu, &table)
    );
}

#[test]
fn test_trace_absolute_indexed_modes() {
    let table = mode_table();
    let mut cpu = mode_cpu();
    cpu.mem_write(0x64, 0xbd);
    cpu.mem_write(0x65, 0x00);
    cpu.mem_write(0x66, 0x03);
    assert_eq!(
        "0064  BD 00 03  LDA $0300,X @ 0320 = 11         A:00 X:20 Y:10 P:24 SP:FD",
        trace(&cpu, &table)
    );
    cpu.mem_write(0x64, 0xb9);
    assert_eq!(
        "0064  B9 00 03  LDA $0300,Y @ 0310 = 22         A:00 X:20 Y:10 P:24 SP:FD",
        trace(&cpu, &table)
    );
}

#[test]
fn test_trace_indirect_x_mode() {
    let table = mode_table();
    let mut cpu = mode_cpu();
    cpu.mem_write(0x64, 0xa1);
    cpu.mem_write(0x65, 0x70);
    cpu.mem_write(0x90, 0x34);
    cpu.mem_write(0x91, 0x12);
    cpu.mem_write(0x1234, 0x99);
    assert_eq!(
        "0064  A1 70     LDA ($70,X) @ 90 = 1234 = 99    A:00 X:20 Y:10 P:24 SP:FD",
        trace(&cpu, &table)
    );
}

#[test]
fn test_trace_branch_class_dumps_two_bytes() {
    let table = vec![OpCode::new(0xd0, "BNE", 2, 2, AddressingMode::NoneAddressing)];
    let mut cpu = Cpu::new();
    cpu.mem_write(0x64, 0xd0);
    cpu.mem_write(0x65, 0x05);
    cpu.mem_write(0x66, 0x03);
    cpu.program_counter = 0x64;
    // the byte dump holds exactly the instruction's own two bytes
    assert_eq!(
        "0064  D0 05     BNE $0305                       A:00 X:00 Y:00 P:24 SP:FD",
        trace(&cpu, &table)
    );
}
