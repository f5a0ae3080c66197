use vstd::prelude::*;

verus! {

/// How an instruction finds its operand.
#[derive(Clone, Copy, Debug, PartialEq, Eq, Structural)]
pub enum AddressingMode {
    Implied,
    Immediate,
    ZeroPage,
    ZeroPageX,
    ZeroPageY,
    Absolute,
    AbsoluteX,
    AbsoluteY,
    IndirectX,
    IndirectY,
}

/// One operation of the processor: its code, name, length in bytes, base
/// cycle cost and addressing mode.
#[derive(Clone, Copy, Debug)]
pub struct OpCode {
    pub code: u8,
    pub mnemonic: &'static str,
    pub len: u8,
    pub cycles: u8,
    pub mode: AddressingMode,
}

impl OpCode {
    pub fn new(code: u8, mnemonic: &'static str, len: u8, cycles: u8, mode: AddressingMode) -> (r:
        OpCode)
        ensures
            r.code == code,
            r.mnemonic == mnemonic,
            r.len == len,
            r.cycles == cycles,
            r.mode == mode,
    {
        OpCode { code, mnemonic, len, cycles, mode }
    }
}

/// The operation table as values: code, mnemonic, length, cycles, mode.
pub open spec fn opcode_table() -> Seq<(u8, &'static str, u8, u8, AddressingMode)> {
    seq![
        (0x69, "ADC", 2, 2, AddressingMode::Immediate),
        (0x65, "ADC", 2, 3, AddressingMode::ZeroPage),
        (0x75, "ADC", 2, 4, AddressingMode::ZeroPageX),
        (0x6D, "ADC", 3, 4, AddressingMode::Absolute),
        (0x7D, "ADC", 3, 4, AddressingMode::AbsoluteX),
        (0x79, "ADC", 3, 4, AddressingMode::AbsoluteY),
        (0x61, "ADC", 2, 6, AddressingMode::IndirectX),
        (0x11, "ADC", 2, 5, AddressingMode::IndirectY),
        (0x29, "AND", 2, 2, AddressingMode::Immediate),
        (0x25, "AND", 2, 3, AddressingMode::ZeroPage),
        (0x35, "AND", 2, 4, AddressingMode::ZeroPageX),
        (0x2D, "AND", 3, 4, AddressingMode::Absolute),
        (0x3D, "AND", 3, 4, AddressingMode::AbsoluteX),
        (0x39, "AND", 3, 4, AddressingMode::AbsoluteY),
        (0x21, "AND", 2, 6, AddressingMode::IndirectX),
        (0x31, "AND", 2, 5, AddressingMode::IndirectY),
        (0x0A, "ASL", 1, 2, AddressingMode::Implied),
        (0x06, "ASL", 2, 5, AddressingMode::ZeroPage),
        (0x16, "ASL", 2, 6, AddressingMode::ZeroPageX),
        (0x0E, "ASL", 3, 6, AddressingMode::Absolute),
        (0x1E, "ASL", 3, 7, AddressingMode::AbsoluteX),
        (0x90, "BCC", 2, 2, AddressingMode::Implied),
        (0xB0, "BCS", 2, 2, AddressingMode::Implied),
        (0xF0, "BEQ", 2, 2, AddressingMode::Implied),
        (0x24, "BIT", 2, 3, AddressingMode::ZeroPage),
        (0x2C, "BIT", 2, 4, AddressingMode::Absolute),
        (0x30, "BMI", 2, 2, AddressingMode::Implied),
        (0xD0, "BNE", 2, 2, AddressingMode::Implied),
        (0x10, "BPL", 2, 2, AddressingMode::Implied),
        (0x00, "BRK", 1, 7, AddressingMode::Implied),
        (0x50, "BVC", 2, 2, AddressingMode::Implied),
        (0x70, "BVS", 2, 2, AddressingMode::Implied),
        (0x18, "CLC", 1, 2, AddressingMode::Implied),
        (0xD8, "CLD", 1, 2, AddressingMode::Implied),
        (0x58, "CLI", 1, 2, AddressingMode::Implied),
        (0xB8, "CLV", 1, 2, AddressingMode::Implied),
        (0xC9, "CMP", 2, 2, AddressingMode::Immediate),
        (0xC5, "CMP", 2, 3, AddressingMode::ZeroPage),
        (0xD5, "CMP", 2, 4, AddressingMode::ZeroPageX),
        (0xCD, "CMP", 3, 4, AddressingMode::Absolute),
        (0xDD, "CMP", 3, 4, AddressingMode::AbsoluteX),
        (0xD9, "CMP", 3, 4, AddressingMode::AbsoluteY),
        (0xC1, "CMP", 2, 6, AddressingMode::IndirectX),
        (0xD1, "CMP", 2, 5, AddressingMode::IndirectY),
        (0xE0, "CMPX", 2, 2, AddressingMode::Immediate),
        (0xE4, "CMPX", 2, 3, AddressingMode::ZeroPage),
        (0xEC, "CMPX", 2, 4, AddressingMode::Absolute),
        (0xC0, "CMPY", 2, 2, AddressingMode::Immediate),
        (0xC4, "CMPY", 2, 3, AddressingMode::ZeroPage),
        (0xCC, "CMPY", 2, 4, AddressingMode::Absolute),
        (0xC6, "DEC", 2, 5, AddressingMode::ZeroPage),
        (0xD6, "DEC", 2, 6, AddressingMode::ZeroPageX),
        (0xCE, "DEC", 3, 6, AddressingMode::Absolute),
        (0xDE, "DEC", 3, 7, AddressingMode::AbsoluteX),
        (0xCA, "DECX", 1, 2, AddressingMode::Implied),
        (0x88, "DECY", 1, 2, AddressingMode::Implied),
        (0xE8, "INX", 1, 2, AddressingMode::Implied),
        (0xA9, "LDA", 2, 2, AddressingMode::Immediate),
        (0xA5, "LDA", 2, 3, AddressingMode::ZeroPage),
        (0xB5, "LDA", 2, 4, AddressingMode::ZeroPageX),
        (0xAD, "LDA", 3, 4, AddressingMode::Absolute),
        (0xBD, "LDA", 3, 4, AddressingMode::AbsoluteX),
        (0xB9, "LDA", 3, 4, AddressingMode::AbsoluteY),
        (0xA1, "LDA", 2, 6, AddressingMode::IndirectX),
        (0xB1, "LDA", 2, 5, AddressingMode::IndirectY),
        (0x85, "STA", 2, 3, AddressingMode::ZeroPage),
        (0x95, "STA", 2, 4, AddressingMode::ZeroPageX),
        (0x8D, "STA", 3, 4, AddressingMode::Absolute),
        (0x9D, "STA", 3, 5, AddressingMode::AbsoluteX),
        (0x99, "STA", 3, 5, AddressingMode::AbsoluteY),
        (0x81, "STA", 2, 6, AddressingMode::IndirectX),
        (0x91, "STA", 2, 6, AddressingMode::IndirectY),
        (0xAA, "TAX", 1, 2, AddressingMode::Implied),
    ]
}

/// An operation that carries exactly the values of a table row.
pub open spec fn matches_row(op: OpCode, row: (u8, &'static str, u8, u8, AddressingMode)) -> bool {
    op.code == row.0 && op.mnemonic == row.1 && op.len == row.2 && op.cycles == row.3 && op.mode
        == row.4
}

/// Every operation the processor decodes, in table order; no code appears
/// twice.
pub fn cpu_opcodes() -> (r: Vec<OpCode>)
    ensures
        r.len() == opcode_table().len(),
        forall|i: int| 0 <= i < r.len() ==> matches_row(#[trigger] r[i], opcode_table()[i]),
        forall|i: int| 0 <= i < r.len() ==> 1 <= #[trigger] r[i].len <= 3 && 2 <= r[i].cycles <= 7,
        forall|i: int, j: int|
            0 <= i < j < r.len() ==> #[trigger] r[i].code != #[trigger] r[j].code,
{
    vec![
        OpCode::new(0x69, "ADC", 2, 2, AddressingMode::Immediate),
        OpCode::new(0x65, "ADC", 2, 3, AddressingMode::ZeroPage),
        OpCode::new(0x75, "ADC", 2, 4, AddressingMode::ZeroPageX),
        OpCode::new(0x6D, "ADC", 3, 4, AddressingMode::Absolute),
        OpCode::new(0x7D, "ADC", 3, 4, AddressingMode::AbsoluteX),
        OpCode::new(0x79, "ADC", 3, 4, AddressingMode::AbsoluteY),
        OpCode::new(0x61, "ADC", 2, 6, AddressingMode::IndirectX),
        OpCode::new(0x11, "ADC", 2, 5, AddressingMode::IndirectY),
        OpCode::new(0x29, "AND", 2, 2, AddressingMode::Immediate),
        OpCode::new(0x25, "AND", 2, 3, AddressingMode::ZeroPage),
        OpCode::new(0x35, "AND", 2, 4, AddressingMode::ZeroPageX),
        OpCode::new(0x2D, "AND", 3, 4, AddressingMode::Absolute),
        OpCode::new(0x3D, "AND", 3, 4, AddressingMode::AbsoluteX),
        OpCode::new(0x39, "AND", 3, 4, AddressingMode::AbsoluteY),
        OpCode::new(0x21, "AND", 2, 6, AddressingMode::IndirectX),
        OpCode::new(0x31, "AND", 2, 5, AddressingMode::IndirectY),
        OpCode::new(0x0A, "ASL", 1, 2, AddressingMode::Implied),
        OpCode::new(0x06, "ASL", 2, 5, AddressingMode::ZeroPage),
        OpCode::new(0x16, "ASL", 2, 6, AddressingMode::ZeroPageX),
        OpCode::new(0x0E, "ASL", 3, 6, AddressingMode::Absolute),
        OpCode::new(0x1E, "ASL", 3, 7, AddressingMode::AbsoluteX),
        OpCode::new(0x90, "BCC", 2, 2, AddressingMode::Implied),
        OpCode::new(0xB0, "BCS", 2, 2, AddressingMode::Implied),
        OpCode::new(0xF0, "BEQ", 2, 2, AddressingMode::Implied),
        OpCode::new(0x24, "BIT", 2, 3, AddressingMode::ZeroPage),
        OpCode::new(0x2C, "BIT", 2, 4, AddressingMode::Absolute),
        OpCode::new(0x30, "BMI", 2, 2, AddressingMode::Implied),
        OpCode::new(0xD0, "BNE", 2, 2, AddressingMode::Implied),
        OpCode::new(0x10, "BPL", 2, 2, AddressingMode::Implied),
        OpCode::new(0x00, "BRK", 1, 7, AddressingMode::Implied),
        OpCode::new(0x50, "BVC", 2, 2, AddressingMode::Implied),
        OpCode::new(0x70, "BVS", 2, 2, AddressingMode::Implied),
        OpCode::new(0x18, "CLC", 1, 2, AddressingMode::Implied),
        OpCode::new(0xD8, "CLD", 1, 2, AddressingMode::Implied),
        OpCode::new(0x58, "CLI", 1, 2, AddressingMode::Implied),
        OpCode::new(0xB8, "CLV", 1, 2, AddressingMode::Implied),
        OpCode::new(0xC9, "CMP", 2, 2, AddressingMode::Immediate),
        OpCode::new(0xC5, "CMP", 2, 3, AddressingMode::ZeroPage),
        OpCode::new(0xD5, "CMP", 2, 4, AddressingMode::ZeroPageX),
        OpCode::new(0xCD, "CMP", 3, 4, AddressingMode::Absolute),
        OpCode::new(0xDD, "CMP", 3, 4, AddressingMode::AbsoluteX),
        OpCode::new(0xD9, "CMP", 3, 4, AddressingMode::AbsoluteY),
        OpCode::new(0xC1, "CMP", 2, 6, AddressingMode::IndirectX),
        OpCode::new(0xD1, "CMP", 2, 5, AddressingMode::IndirectY),
        OpCode::new(0xE0, "CMPX", 2, 2, AddressingMode::Immediate),
        OpCode::new(0xE4, "CMPX", 2, 3, AddressingMode::ZeroPage),
        OpCode::new(0xEC, "CMPX", 2, 4, AddressingMode::Absolute),
        OpCode::new(0xC0, "CMPY", 2, 2, AddressingMode::Immediate),
        OpCode::new(0xC4, "CMPY", 2, 3, AddressingMode::ZeroPage),
        OpCode::new(0xCC, "CMPY", 2, 4, AddressingMode::Absolute),
        OpCode::new(0xC6, "DEC", 2, 5, AddressingMode::ZeroPage),
        OpCode::new(0xD6, "DEC", 2, 6, AddressingMode::ZeroPageX),
        OpCode::new(0xCE, "DEC", 3, 6, AddressingMode::Absolute),
        OpCode::new(0xDE, "DEC", 3, 7, AddressingMode::AbsoluteX),
        OpCode::new(0xCA, "DECX", 1, 2, AddressingMode::Implied),
        OpCode::new(0x88, "DECY", 1, 2, AddressingMode::Implied),
        OpCode::new(0xE8, "INX", 1, 2, AddressingMode::Implied),
        OpCode::new(0xA9, "LDA", 2, 2, AddressingMode::Immediate),
        OpCode::new(0xA5, "LDA", 2, 3, AddressingMode::ZeroPage),
        OpCode::new(0xB5, "LDA", 2, 4, AddressingMode::ZeroPageX),
        OpCode::new(0xAD, "LDA", 3, 4, AddressingMode::Absolute),
        OpCode::new(0xBD, "LDA", 3, 4, AddressingMode::AbsoluteX),
        OpCode::new(0xB9, "LDA", 3, 4, AddressingMode::AbsoluteY),
        OpCode::new(0xA1, "LDA", 2, 6, AddressingMode::IndirectX),
        OpCode::new(0xB1, "LDA", 2, 5, AddressingMode::IndirectY),
        OpCode::new(0x85, "STA", 2, 3, AddressingMode::ZeroPage),
        OpCode::new(0x95, "STA", 2, 4, AddressingMode::ZeroPageX),
        OpCode::new(0x8D, "STA", 3, 4, AddressingMode::Absolute),
        OpCode::new(0x9D, "STA", 3, 5, AddressingMode::AbsoluteX),
        OpCode::new(0x99, "STA", 3, 5, AddressingMode::AbsoluteY),
        OpCode::new(0x81, "STA", 2, 6, AddressingMode::IndirectX),
        OpCode::new(0x91, "STA", 2, 6, AddressingMode::IndirectY),
        OpCode::new(0xAA, "TAX", 1, 2, AddressingMode::Implied),
    ]
}

/// The position of the first operation in `table` with the given code, or
/// `None` when no operation has it.
pub fn find_opcode(table: &Vec<OpCode>, code: u8) -> (r: Option<usize>)
    ensures
        match r {
            Some(i) => i < table.len() && table[i as int].code == code && forall|j: int|
                0 <= j < i ==> #[trigger] table[j].code != code,
            None => forall|j: int| 0 <= j < table.len() ==> #[trigger] table[j].code != code,
        },
{
    let mut i: usize = 0;
    while i < table.len()
        invariant
            i <= table.len(),
            forall|j: int| 0 <= j < i ==> #[trigger] table[j].code != code,
        decreases table.len() - i,
    {
        if table[i].code == code {
            return Some(i);
        }
        i = i + 1;
    }
    None
}

} // verus!
