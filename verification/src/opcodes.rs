//! Instruction metadata: addressing modes and the per-opcode table entry
//! supplied by the metadata collaborator. Absent entries are legal input
//! (unknown opcodes), never a programming error.

use vstd::prelude::*;

verus! {

/// The closed set of operand-location schemes. Each variant has a
/// distinct effective-address formula; `NoneAddressing` covers implied
/// operands and the jump-class instructions the tracer special-cases.
#[derive(Clone, Copy, PartialEq, Eq, Structural, Debug)]
pub enum AddressingMode {
    Immediate,
    ZeroPage,
    ZeroPageX,
    ZeroPageY,
    Absolute,
    AbsoluteX,
    AbsoluteY,
    IndirectX,
    IndirectY,
    NoneAddressing,
}

/// One instruction-metadata entry: opcode byte, mnemonic text, byte
/// length, cycle count, and addressing mode.
pub struct OpCode {
    pub code: u8,
    pub mnemonic: String,
    pub len: u8,
    pub cycles: u8,
    pub mode: AddressingMode,
}

impl OpCode {
    pub fn new(code: u8, mnemonic: &str, len: u8, cycles: u8, mode: AddressingMode) -> (op:
        OpCode)
        ensures
            op.code == code,
            op.mnemonic@ == mnemonic@,
            op.len == len,
            op.cycles == cycles,
            op.mode == mode,
    {
        OpCode { code, mnemonic: mnemonic.to_owned(), len, cycles, mode }
    }
}

/// The first table entry for an opcode byte, if any: the table is a
/// mapping, searched front to back.
pub open spec fn spec_find(table: Seq<OpCode>, code: u8) -> Option<OpCode>
    decreases table.len(),
{
    if table.len() == 0 {
        None::<OpCode>
    } else if table[0].code == code {
        Some(table[0])
    } else {
        spec_find(table.drop_first(), code)
    }
}

/// A sane metadata table: each entry's byte length is the documented 1-3,
/// and only the absolute and jump-class modes claim three bytes.
pub open spec fn spec_table_wf(table: Seq<OpCode>) -> bool {
    forall|i: int|
        0 <= i < table.len() ==> (1 <= (#[trigger] table[i]).len <= 3 && (table[i].len == 3
            ==> table[i].mode == AddressingMode::NoneAddressing || table[i].mode
            == AddressingMode::Absolute || table[i].mode == AddressingMode::AbsoluteX
            || table[i].mode == AddressingMode::AbsoluteY))
}

/// Whatever holds of a whole table holds of the entry found for any code.
pub proof fn lemma_find_wf(table: Seq<OpCode>, code: u8)
    requires
        spec_table_wf(table),
        spec_find(table, code) is Some,
    ensures
        1 <= spec_find(table, code).unwrap().len <= 3,
        spec_find(table, code).unwrap().len == 3 ==> spec_find(table, code).unwrap().mode
            == AddressingMode::NoneAddressing || spec_find(table, code).unwrap().mode
            == AddressingMode::Absolute || spec_find(table, code).unwrap().mode
            == AddressingMode::AbsoluteX || spec_find(table, code).unwrap().mode
            == AddressingMode::AbsoluteY,
        spec_find(table, code).unwrap().code == code,
    decreases table.len(),
{
    if table.len() > 0 && table[0].code != code {
        assert(spec_table_wf(table.drop_first())) by {
            assert(forall|i: int|
                0 <= i < table.drop_first().len() ==> #[trigger] table.drop_first()[i] == table[i
                    + 1]);
        }
        lemma_find_wf(table.drop_first(), code);
    }
}

/// Looks an opcode byte up in the metadata table.
pub fn find_opcode<'a>(table: &'a Vec<OpCode>, code: u8) -> (found: Option<&'a OpCode>)
    ensures
        match found {
            Some(op) => spec_find(table@, code) == Some(*op) && op.code == code,
            None => spec_find(table@, code) is None,
        },
{
    let mut i: usize = 0;
    proof {
        assert(table@.skip(0) =~= table@);
    }
    while i < table.len()
        invariant
            i <= table@.len(),
            forall|j: int| 0 <= j < i ==> (#[trigger] table@[j]).code != code,
            spec_find(table@, code) == spec_find(table@.skip(i as int), code),
        decreases table@.len() - i,
    {
        if table[i].code == code {
            proof {
                assert(table@.skip(i as int)[0] == table@[i as int]);
            }
            return Some(&table[i]);
        }
        proof {
            lemma_find_skip_one(table@, code, i as int);
        }
        i = i + 1;
    }
    proof {
        assert(table@.skip(i as int).len() == 0);
    }
    None
}

/// Skipping past a non-matching entry leaves the search result alone.
proof fn lemma_find_skip_one(table: Seq<OpCode>, code: u8, i: int)
    requires
        0 <= i < table.len(),
        table[i].code != code,
    ensures
        spec_find(table.skip(i), code) == spec_find(table.skip(i + 1), code),
{
    assert(table.skip(i)[0] == table[i]);
    assert(table.skip(i).drop_first() =~= table.skip(i + 1));
}

} // verus!
