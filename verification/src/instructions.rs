//! The decode data model: operation tags, addressing payloads, and the
//! opcode table.

use vstd::prelude::*;

verus! {

/// An addressing mode together with the operand bytes that were read from
/// memory at decode time.
#[derive(Debug, Clone, Copy, PartialEq, Eq, Structural)]
pub enum Addressing {
    Implied,
    Immediate(u8),
    Absolute(u16),
    Zeropage(u8),
    IndexedAbsolute(u16, u8),
    IndexedZeropage(u8, u8),
    Indirect(u16),
    PreindexedIndirect(u8, u8),
    PostindexedIndirect(u8, u8),
    RelativeAddress(u8),
}

/// The mnemonic-level operations of the documented instruction set.
#[derive(Debug, Clone, Copy, PartialEq, Eq, Structural)]
pub enum Operations {
    LoadAccumulator,
    LoadX,
    LoadY,
    StoreAccumulator,
    StoreX,
    StoreY,
    TransferAccumulatorToX,
    TransferAccumulatorToY,
    TransferStackPointerToX,
    TransferXToAccumulator,
    TransferXToStackPointer,
    TransferYToAccumulator,
    PushAccumulator,
    PushStatusRegister,
    PullAccumulator,
    PullStatusRegister,
    DecrementMemory,
    DecrementX,
    DecrementY,
    IncrementMemory,
    IncrementX,
    IncrementY,
    AddWithCarry,
    SubtractWithCarry,
    AndWithAccumulator,
    ExclusiveOrWithAccumulator,
    InclusiveOrWithAccumulator,
    ArithmeticShiftLeft,
    LogicalShiftRight,
    RotateLeft,
    RotateRight,
    ClearCarry,
    ClearDecimal,
    ClearInterruptDisable,
    ClearOverflow,
    SetCarry,
    SetDecimal,
    SetInterruptDisable,
    CompareWithAccumulator,
    CompareWithX,
    CompareWithY,
    BranchOnCarryClear,
    BranchOnCarrySet,
    BranchOnEqual,
    BranchOnMinus,
    BranchOnNotEqual,
    BranchOnPlus,
    BranchOnOverflowClear,
    BranchOnOverflowSet,
    Jump,
    JumpSubroutine,
    ReturnFromSubroutine,
    SoftwareInterrupt,
    ReturnFromInterrupt,
    BitTest,
    NoOperation,
}

/// One fully decoded instruction, as `fetch` returns it.
#[derive(Debug, Clone, Copy, PartialEq, Eq, Structural)]
pub struct Instruction {
    pub operation: Operations,
    pub addressing: Addressing,
    pub cycle_count: u8,
}

/// The shape of an addressing mode before its operand bytes are read:
/// which `Addressing` constructor the opcode calls for, which index
/// register it consumes, and thereby how many operand bytes follow the
/// opcode.
#[derive(Debug, Clone, Copy, PartialEq, Eq, Structural)]
pub enum AddressingMode {
    Implied,
    Immediate,
    Zeropage,
    ZeropageX,
    ZeropageY,
    Absolute,
    AbsoluteX,
    AbsoluteY,
    Indirect,
    PreindexedIndirect,
    PostindexedIndirect,
    Relative,
}

/// One row of the opcode table: what an opcode byte decodes to, before
/// its operand bytes are filled in.
#[derive(Debug, Clone, Copy, PartialEq, Eq, Structural)]
pub struct OpcodeEntry {
    pub operation: Operations,
    pub mode: AddressingMode,
    pub cycle_count: u8,
}

/// How many bytes an instruction of the given mode occupies in memory,
/// opcode byte included.
pub open spec fn spec_mode_length(mode: AddressingMode) -> int {
    match mode {
        AddressingMode::Implied => 1,
        AddressingMode::Immediate => 2,
        AddressingMode::Zeropage => 2,
        AddressingMode::ZeropageX => 2,
        AddressingMode::ZeropageY => 2,
        AddressingMode::Absolute => 3,
        AddressingMode::AbsoluteX => 3,
        AddressingMode::AbsoluteY => 3,
        AddressingMode::Indirect => 3,
        AddressingMode::PreindexedIndirect => 2,
        AddressingMode::PostindexedIndirect => 2,
        AddressingMode::Relative => 2,
    }
}

/// Executable twin of `spec_mode_length`.
pub fn mode_length(mode: AddressingMode) -> (r: u16)
    ensures
        r as int == spec_mode_length(mode),
{
    match mode {
        AddressingMode::Implied => 1,
        AddressingMode::Immediate => 2,
        AddressingMode::Zeropage => 2,
        AddressingMode::ZeropageX => 2,
        AddressingMode::ZeropageY => 2,
        AddressingMode::Absolute => 3,
        AddressingMode::AbsoluteX => 3,
        AddressingMode::AbsoluteY => 3,
        AddressingMode::Indirect => 3,
        AddressingMode::PreindexedIndirect => 2,
        AddressingMode::PostindexedIndirect => 2,
        AddressingMode::Relative => 2,
    }
}

/// The 16-bit word formed from a low and a high byte.
pub open spec fn spec_word(low: u8, high: u8) -> u16 {
    ((high as int) * 256 + (low as int)) as u16
}

/// The `Addressing` payload a mode builds from the operand bytes `b1`
/// (right after the opcode) and `b2` (after `b1`), and the index
/// registers `x` and `y`. Modes shorter than three bytes ignore the
/// bytes they do not read.
pub open spec fn spec_mode_addressing(
    mode: AddressingMode,
    b1: u8,
    b2: u8,
    x: u8,
    y: u8,
) -> Addressing {
    match mode {
        AddressingMode::Implied => Addressing::Implied,
        AddressingMode::Immediate => Addressing::Immediate(b1),
        AddressingMode::Zeropage => Addressing::Zeropage(b1),
        AddressingMode::ZeropageX => Addressing::IndexedZeropage(b1, x),
        AddressingMode::ZeropageY => Addressing::IndexedZeropage(b1, y),
        AddressingMode::Absolute => Addressing::Absolute(spec_word(b1, b2)),
        AddressingMode::AbsoluteX => Addressing::IndexedAbsolute(spec_word(b1, b2), x),
        AddressingMode::AbsoluteY => Addressing::IndexedAbsolute(spec_word(b1, b2), y),
        AddressingMode::Indirect => Addressing::Indirect(spec_word(b1, b2)),
        AddressingMode::PreindexedIndirect => Addressing::PreindexedIndirect(b1, x),
        AddressingMode::PostindexedIndirect => Addressing::PostindexedIndirect(b1, y),
        AddressingMode::Relative => Addressing::RelativeAddress(b1),
    }
}

/// Whether the opcode byte is part of the documented instruction set.
pub open spec fn spec_opcode_documented(opcode: u8) -> bool {
    match opcode {
        0x00 => true,
        0x01 => true,
        0x05 => true,
        0x06 => true,
        0x08 => true,
        0x09 => true,
        0x0a => true,
        0x0d => true,
        0x0e => true,
        0x10 => true,
        0x11 => true,
        0x15 => true,
        0x16 => true,
        0x18 => true,
        0x19 => true,
        0x1d => true,
        0x1e => true,
        0x20 => true,
        0x21 => true,
        0x24 => true,
        0x25 => true,
        0x26 => true,
        0x28 => true,
        0x29 => true,
        0x2a => true,
        0x2c => true,
        0x2d => true,
        0x2e => true,
        0x30 => true,
        0x31 => true,
        0x35 => true,
        0x36 => true,
        0x38 => true,
        0x39 => true,
        0x3d => true,
        0x3e => true,
        0x40 => true,
        0x41 => true,
        0x45 => true,
        0x46 => true,
        0x48 => true,
        0x49 => true,
        0x4a => true,
        0x4c => true,
        0x4d => true,
        0x4e => true,
        0x50 => true,
        0x51 => true,
        0x55 => true,
        0x56 => true,
        0x58 => true,
        0x59 => true,
        0x5d => true,
        0x5e => true,
        0x60 => true,
        0x61 => true,
        0x65 => true,
        0x66 => true,
        0x68 => true,
        0x69 => true,
        0x6a => true,
        0x6c => true,
        0x6d => true,
        0x6e => true,
        0x70 => true,
        0x71 => true,
        0x75 => true,
        0x76 => true,
        0x78 => true,
        0x79 => true,
        0x7d => true,
        0x7e => true,
        0x81 => true,
        0x84 => true,
        0x85 => true,
        0x86 => true,
        0x88 => true,
        0x8a => true,
        0x8c => true,
        0x8d => true,
        0x8e => true,
        0x90 => true,
        0x91 => true,
        0x94 => true,
        0x95 => true,
        0x96 => true,
        0x98 => true,
        0x99 => true,
        0x9a => true,
        0x9d => true,
        0xa0 => true,
        0xa1 => true,
        0xa2 => true,
        0xa4 => true,
        0xa5 => true,
        0xa6 => true,
        0xa8 => true,
        0xa9 => true,
        0xaa => true,
        0xac => true,
        0xad => true,
        0xae => true,
        0xb0 => true,
        0xb1 => true,
        0xb4 => true,
        0xb5 => true,
        0xb6 => true,
        0xb8 => true,
        0xb9 => true,
        0xba => true,
        0xbc => true,
        0xbd => true,
        0xbe => true,
        0xc0 => true,
        0xc1 => true,
        0xc4 => true,
        0xc5 => true,
        0xc6 => true,
        0xc8 => true,
        0xc9 => true,
        0xca => true,
        0xcc => true,
        0xcd => true,
        0xce => true,
        0xd0 => true,
        0xd1 => true,
        0xd5 => true,
        0xd6 => true,
        0xd8 => true,
        0xd9 => true,
        0xdd => true,
        0xde => true,
        0xe0 => true,
        0xe1 => true,
        0xe4 => true,
        0xe5 => true,
        0xe6 => true,
        0xe8 => true,
        0xe9 => true,
        0xea => true,
        0xec => true,
        0xed => true,
        0xee => true,
        0xf0 => true,
        0xf1 => true,
        0xf5 => true,
        0xf6 => true,
        0xf8 => true,
        0xf9 => true,
        0xfd => true,
        0xfe => true,
        _ => false,
    }
}

/// The opcode table: what each documented opcode byte decodes to.
/// An opcode byte absent from the documented set decodes as a two-cycle
/// one-byte no-operation.
pub open spec fn spec_opcode_entry(opcode: u8) -> OpcodeEntry {
    match opcode {
        0x00 => OpcodeEntry { operation: Operations::SoftwareInterrupt, mode: AddressingMode::Implied, cycle_count: 7 },  // BRK
        0x01 => OpcodeEntry { operation: Operations::InclusiveOrWithAccumulator, mode: AddressingMode::PreindexedIndirect, cycle_count: 6 },  // ORA (indirect,X)
        0x05 => OpcodeEntry { operation: Operations::InclusiveOrWithAccumulator, mode: AddressingMode::Zeropage, cycle_count: 3 },  // ORA zeropage
        0x06 => OpcodeEntry { operation: Operations::ArithmeticShiftLeft, mode: AddressingMode::Zeropage, cycle_count: 5 },  // ASL zeropage
        0x08 => OpcodeEntry { operation: Operations::PushStatusRegister, mode: AddressingMode::Implied, cycle_count: 3 },  // PHP implied
        0x09 => OpcodeEntry { operation: Operations::InclusiveOrWithAccumulator, mode: AddressingMode::Immediate, cycle_count: 2 },  // ORA immediate
        0x0a => OpcodeEntry { operation: Operations::ArithmeticShiftLeft, mode: AddressingMode::Implied, cycle_count: 2 },  // ASL accumulator (implied)
        0x0d => OpcodeEntry { operation: Operations::InclusiveOrWithAccumulator, mode: AddressingMode::Absolute, cycle_count: 4 },  // ORA absolute
        0x0e => OpcodeEntry { operation: Operations::ArithmeticShiftLeft, mode: AddressingMode::Absolute, cycle_count: 6 },  // ASL absolute
        0x10 => OpcodeEntry { operation: Operations::BranchOnPlus, mode: AddressingMode::Relative, cycle_count: 2 },  // BPL relative
        0x11 => OpcodeEntry { operation: Operations::InclusiveOrWithAccumulator, mode: AddressingMode::PostindexedIndirect, cycle_count: 5 },  // ORA (indirect), Y
        0x15 => OpcodeEntry { operation: Operations::InclusiveOrWithAccumulator, mode: AddressingMode::ZeropageX, cycle_count: 4 },  // ORA indexed zeropage
        0x16 => OpcodeEntry { operation: Operations::ArithmeticShiftLeft, mode: AddressingMode::ZeropageX, cycle_count: 6 },  // ASL zeropage,X
        0x18 => OpcodeEntry { operation: Operations::ClearCarry, mode: AddressingMode::Implied, cycle_count: 2 },  // CLC implied
        0x19 => OpcodeEntry { operation: Operations::InclusiveOrWithAccumulator, mode: AddressingMode::AbsoluteY, cycle_count: 4 },  // ORA absolute,Y
        0x1d => OpcodeEntry { operation: Operations::InclusiveOrWithAccumulator, mode: AddressingMode::AbsoluteX, cycle_count: 4 },  // ORA absolute,X
        0x1e => OpcodeEntry { operation: Operations::ArithmeticShiftLeft, mode: AddressingMode::AbsoluteX, cycle_count: 7 },  // ASL absolute, X
        0x20 => OpcodeEntry { operation: Operations::JumpSubroutine, mode: AddressingMode::Absolute, cycle_count: 6 },  // JSR absolute
        0x21 => OpcodeEntry { operation: Operations::AndWithAccumulator, mode: AddressingMode::PreindexedIndirect, cycle_count: 6 },  // AND (indirect,X)
        0x24 => OpcodeEntry { operation: Operations::BitTest, mode: AddressingMode::Zeropage, cycle_count: 3 },  // BIT zeropage
        0x25 => OpcodeEntry { operation: Operations::AndWithAccumulator, mode: AddressingMode::Zeropage, cycle_count: 3 },  // AND zeropage
        0x26 => OpcodeEntry { operation: Operations::RotateLeft, mode: AddressingMode::Zeropage, cycle_count: 5 },  // ROL zeropage
        0x28 => OpcodeEntry { operation: Operations::PullStatusRegister, mode: AddressingMode::Implied, cycle_count: 4 },  // PLP
        0x29 => OpcodeEntry { operation: Operations::AndWithAccumulator, mode: AddressingMode::Immediate, cycle_count: 2 },  // AND immediate
        0x2a => OpcodeEntry { operation: Operations::RotateLeft, mode: AddressingMode::Implied, cycle_count: 2 },  // ROL accumulator
        0x2c => OpcodeEntry { operation: Operations::BitTest, mode: AddressingMode::Absolute, cycle_count: 4 },  // BIT absolute
        0x2d => OpcodeEntry { operation: Operations::AndWithAccumulator, mode: AddressingMode::Absolute, cycle_count: 4 },  // AND absolute
        0x2e => OpcodeEntry { operation: Operations::RotateLeft, mode: AddressingMode::Absolute, cycle_count: 6 },  // ROL absolute
        0x30 => OpcodeEntry { operation: Operations::BranchOnMinus, mode: AddressingMode::Relative, cycle_count: 2 },  // BMI relative
        0x31 => OpcodeEntry { operation: Operations::AndWithAccumulator, mode: AddressingMode::PostindexedIndirect, cycle_count: 5 },  // AND (indirect),Y
        0x35 => OpcodeEntry { operation: Operations::AndWithAccumulator, mode: AddressingMode::ZeropageX, cycle_count: 4 },  // AND zeropage,X
        0x36 => OpcodeEntry { operation: Operations::RotateLeft, mode: AddressingMode::ZeropageX, cycle_count: 6 },  // ROL zeropage, X
        0x38 => OpcodeEntry { operation: Operations::SetCarry, mode: AddressingMode::Implied, cycle_count: 2 },  // SEC
        0x39 => OpcodeEntry { operation: Operations::AndWithAccumulator, mode: AddressingMode::AbsoluteY, cycle_count: 4 },  // AND absolute,Y
        0x3d => OpcodeEntry { operation: Operations::AndWithAccumulator, mode: AddressingMode::AbsoluteX, cycle_count: 4 },  // AND absolute,X
        0x3e => OpcodeEntry { operation: Operations::RotateLeft, mode: AddressingMode::AbsoluteX, cycle_count: 7 },  // ROL absolute, X
        0x40 => OpcodeEntry { operation: Operations::ReturnFromInterrupt, mode: AddressingMode::Implied, cycle_count: 6 },  // RTI
        0x41 => OpcodeEntry { operation: Operations::ExclusiveOrWithAccumulator, mode: AddressingMode::PreindexedIndirect, cycle_count: 6 },  // EOR (indirect,X)
        0x45 => OpcodeEntry { operation: Operations::ExclusiveOrWithAccumulator, mode: AddressingMode::Zeropage, cycle_count: 3 },  // EOR zeropage
        0x46 => OpcodeEntry { operation: Operations::LogicalShiftRight, mode: AddressingMode::Zeropage, cycle_count: 5 },  // LSR zeropage
        0x48 => OpcodeEntry { operation: Operations::PushAccumulator, mode: AddressingMode::Implied, cycle_count: 3 },  // PHA
        0x49 => OpcodeEntry { operation: Operations::ExclusiveOrWithAccumulator, mode: AddressingMode::Immediate, cycle_count: 2 },  // EOR immediate
        0x4a => OpcodeEntry { operation: Operations::LogicalShiftRight, mode: AddressingMode::Implied, cycle_count: 2 },  // LSR accumulator
        0x4c => OpcodeEntry { operation: Operations::Jump, mode: AddressingMode::Absolute, cycle_count: 3 },  // JMP absolute
        0x4d => OpcodeEntry { operation: Operations::ExclusiveOrWithAccumulator, mode: AddressingMode::Absolute, cycle_count: 4 },  // EOR absolute
        0x4e => OpcodeEntry { operation: Operations::LogicalShiftRight, mode: AddressingMode::Absolute, cycle_count: 6 },  // LSR absolute
        0x50 => OpcodeEntry { operation: Operations::BranchOnOverflowClear, mode: AddressingMode::Relative, cycle_count: 2 },  // BVC relative
        0x51 => OpcodeEntry { operation: Operations::ExclusiveOrWithAccumulator, mode: AddressingMode::PostindexedIndirect, cycle_count: 5 },  // EOR (indirect),Y
        0x55 => OpcodeEntry { operation: Operations::ExclusiveOrWithAccumulator, mode: AddressingMode::ZeropageX, cycle_count: 4 },  // EOR zeropage, X
        0x56 => OpcodeEntry { operation: Operations::LogicalShiftRight, mode: AddressingMode::ZeropageX, cycle_count: 6 },  // LSR zeropage,X
        0x58 => OpcodeEntry { operation: Operations::ClearInterruptDisable, mode: AddressingMode::Implied, cycle_count: 2 },  // CLI
        0x59 => OpcodeEntry { operation: Operations::ExclusiveOrWithAccumulator, mode: AddressingMode::AbsoluteY, cycle_count: 4 },  // EOR absolute,Y
        0x5d => OpcodeEntry { operation: Operations::ExclusiveOrWithAccumulator, mode: AddressingMode::AbsoluteX, cycle_count: 4 },  // EOR absolute,X
        0x5e => OpcodeEntry { operation: Operations::LogicalShiftRight, mode: AddressingMode::AbsoluteX, cycle_count: 7 },  // LSR absolute,X
        0x60 => OpcodeEntry { operation: Operations::ReturnFromSubroutine, mode: AddressingMode::Implied, cycle_count: 6 },  // RTS
        0x61 => OpcodeEntry { operation: Operations::AddWithCarry, mode: AddressingMode::PreindexedIndirect, cycle_count: 6 },  // ADC (indirect,X)
        0x65 => OpcodeEntry { operation: Operations::AddWithCarry, mode: AddressingMode::Zeropage, cycle_count: 3 },  // ADC zeropage
        0x66 => OpcodeEntry { operation: Operations::RotateRight, mode: AddressingMode::Zeropage, cycle_count: 5 },  // ROR zeropage
        0x68 => OpcodeEntry { operation: Operations::PullAccumulator, mode: AddressingMode::Implied, cycle_count: 4 },  // PLA
        0x69 => OpcodeEntry { operation: Operations::AddWithCarry, mode: AddressingMode::Immediate, cycle_count: 2 },  // ADC immediate
        0x6a => OpcodeEntry { operation: Operations::RotateRight, mode: AddressingMode::Implied, cycle_count: 2 },  // ROR accumulator
        0x6c => OpcodeEntry { operation: Operations::Jump, mode: AddressingMode::Indirect, cycle_count: 5 },  // JMP indirect
        0x6d => OpcodeEntry { operation: Operations::AddWithCarry, mode: AddressingMode::Absolute, cycle_count: 4 },  // ADC absolute
        0x6e => OpcodeEntry { operation: Operations::RotateRight, mode: AddressingMode::Absolute, cycle_count: 6 },  // ROR absolute
        0x70 => OpcodeEntry { operation: Operations::BranchOnOverflowSet, mode: AddressingMode::Relative, cycle_count: 2 },  // BVS relative
        0x71 => OpcodeEntry { operation: Operations::AddWithCarry, mode: AddressingMode::PostindexedIndirect, cycle_count: 5 },  // ADC (indirect),Y
        0x75 => OpcodeEntry { operation: Operations::AddWithCarry, mode: AddressingMode::ZeropageX, cycle_count: 4 },  // ADC zeropage,X
        0x76 => OpcodeEntry { operation: Operations::RotateRight, mode: AddressingMode::ZeropageX, cycle_count: 6 },  // ROR zeropage,X
        0x78 => OpcodeEntry { operation: Operations::SetInterruptDisable, mode: AddressingMode::Implied, cycle_count: 2 },  // SEI
        0x79 => OpcodeEntry { operation: Operations::AddWithCarry, mode: AddressingMode::AbsoluteY, cycle_count: 4 },  // ADC absolute,Y
        0x7d => OpcodeEntry { operation: Operations::AddWithCarry, mode: AddressingMode::AbsoluteX, cycle_count: 4 },  // ADC absolute,X
        0x7e => OpcodeEntry { operation: Operations::RotateRight, mode: AddressingMode::AbsoluteX, cycle_count: 7 },  // ROR absolute,X
        0x81 => OpcodeEntry { operation: Operations::StoreAccumulator, mode: AddressingMode::PreindexedIndirect, cycle_count: 6 },  // STA (indirect,X)
        0x84 => OpcodeEntry { operation: Operations::StoreY, mode: AddressingMode::Zeropage, cycle_count: 3 },  // STY zeropage
        0x85 => OpcodeEntry { operation: Operations::StoreAccumulator, mode: AddressingMode::Zeropage, cycle_count: 3 },  // STA zeropage
        0x86 => OpcodeEntry { operation: Operations::StoreX, mode: AddressingMode::Zeropage, cycle_count: 3 },  // STX zeropage
        0x88 => OpcodeEntry { operation: Operations::DecrementY, mode: AddressingMode::Implied, cycle_count: 2 },  // DEY
        0x8a => OpcodeEntry { operation: Operations::TransferXToAccumulator, mode: AddressingMode::Implied, cycle_count: 2 },  // TXA
        0x8c => OpcodeEntry { operation: Operations::StoreY, mode: AddressingMode::Absolute, cycle_count: 4 },  // STY absolute
        0x8d => OpcodeEntry { operation: Operations::StoreAccumulator, mode: AddressingMode::Absolute, cycle_count: 4 },  // STA absolute
        0x8e => OpcodeEntry { operation: Operations::StoreX, mode: AddressingMode::Absolute, cycle_count: 4 },  // STX absolute
        0x90 => OpcodeEntry { operation: Operations::BranchOnCarryClear, mode: AddressingMode::Relative, cycle_count: 2 },  // BCC relative
        0x91 => OpcodeEntry { operation: Operations::StoreAccumulator, mode: AddressingMode::PostindexedIndirect, cycle_count: 6 },  // STA (indirect),Y
        0x94 => OpcodeEntry { operation: Operations::StoreY, mode: AddressingMode::ZeropageX, cycle_count: 4 },  // STY zeropage,X
        0x95 => OpcodeEntry { operation: Operations::StoreAccumulator, mode: AddressingMode::ZeropageX, cycle_count: 4 },  // STA zeropage,X
        0x96 => OpcodeEntry { operation: Operations::StoreX, mode: AddressingMode::ZeropageY, cycle_count: 4 },  // STX zeropage,Y
        0x98 => OpcodeEntry { operation: Operations::TransferYToAccumulator, mode: AddressingMode::Implied, cycle_count: 2 },  // TYA
        0x99 => OpcodeEntry { operation: Operations::StoreAccumulator, mode: AddressingMode::AbsoluteY, cycle_count: 5 },  // STA absolute,Y
        0x9a => OpcodeEntry { operation: Operations::TransferXToStackPointer, mode: AddressingMode::Implied, cycle_count: 2 },  // TXS
        0x9d => OpcodeEntry { operation: Operations::StoreAccumulator, mode: AddressingMode::AbsoluteX, cycle_count: 5 },  // STA absolute,X
        0xa0 => OpcodeEntry { operation: Operations::LoadY, mode: AddressingMode::Immediate, cycle_count: 2 },  // LDY immediate
        0xa1 => OpcodeEntry { operation: Operations::LoadAccumulator, mode: AddressingMode::PreindexedIndirect, cycle_count: 6 },  // LDA (indirect,X)
        0xa2 => OpcodeEntry { operation: Operations::LoadX, mode: AddressingMode::Immediate, cycle_count: 2 },  // LDX immediate
        0xa4 => OpcodeEntry { operation: Operations::LoadY, mode: AddressingMode::Zeropage, cycle_count: 3 },  // LDY zeropage
        0xa5 => OpcodeEntry { operation: Operations::LoadAccumulator, mode: AddressingMode::Zeropage, cycle_count: 3 },  // LDA zeropage
        0xa6 => OpcodeEntry { operation: Operations::LoadX, mode: AddressingMode::Zeropage, cycle_count: 3 },  // LDX zeropage
        0xa8 => OpcodeEntry { operation: Operations::TransferAccumulatorToY, mode: AddressingMode::Implied, cycle_count: 2 },  // TAY
        0xa9 => OpcodeEntry { operation: Operations::LoadAccumulator, mode: AddressingMode::Immediate, cycle_count: 2 },  // LDA immediate
        0xaa => OpcodeEntry { operation: Operations::TransferAccumulatorToX, mode: AddressingMode::Implied, cycle_count: 2 },  // TAX
        0xac => OpcodeEntry { operation: Operations::LoadY, mode: AddressingMode::Absolute, cycle_count: 4 },  // LDY absolute
        0xad => OpcodeEntry { operation: Operations::LoadAccumulator, mode: AddressingMode::Absolute, cycle_count: 4 },  // LDA absolute
        0xae => OpcodeEntry { operation: Operations::LoadX, mode: AddressingMode::Absolute, cycle_count: 4 },  // LDX absolute
        0xb0 => OpcodeEntry { operation: Operations::BranchOnCarrySet, mode: AddressingMode::Relative, cycle_count: 2 },  // BCS
        0xb1 => OpcodeEntry { operation: Operations::LoadAccumulator, mode: AddressingMode::PostindexedIndirect, cycle_count: 5 },  // LDA (indirect), Y
        0xb4 => OpcodeEntry { operation: Operations::LoadY, mode: AddressingMode::ZeropageX, cycle_count: 4 },  // LDY zeropage,X
        0xb5 => OpcodeEntry { operation: Operations::LoadAccumulator, mode: AddressingMode::ZeropageX, cycle_count: 4 },  // LDA zeropage,X
        0xb6 => OpcodeEntry { operation: Operations::LoadX, mode: AddressingMode::ZeropageY, cycle_count: 4 },  // LDX zeropage,Y
        0xb8 => OpcodeEntry { operation: Operations::ClearOverflow, mode: AddressingMode::Implied, cycle_count: 2 },  // CLV
        0xb9 => OpcodeEntry { operation: Operations::LoadAccumulator, mode: AddressingMode::AbsoluteY, cycle_count: 4 },  // LDA absolute,Y
        0xba => OpcodeEntry { operation: Operations::TransferStackPointerToX, mode: AddressingMode::Implied, cycle_count: 2 },  // TSX
        0xbc => OpcodeEntry { operation: Operations::LoadY, mode: AddressingMode::AbsoluteX, cycle_count: 4 },  // LDY absolute,X
        0xbd => OpcodeEntry { operation: Operations::LoadAccumulator, mode: AddressingMode::AbsoluteX, cycle_count: 4 },  // LDA absolute,X
        0xbe => OpcodeEntry { operation: Operations::LoadX, mode: AddressingMode::AbsoluteY, cycle_count: 4 },  // LDX absolute,Y
        0xc0 => OpcodeEntry { operation: Operations::CompareWithY, mode: AddressingMode::Immediate, cycle_count: 2 },  // CPY immediate
        0xc1 => OpcodeEntry { operation: Operations::CompareWithAccumulator, mode: AddressingMode::PreindexedIndirect, cycle_count: 6 },  // CMP (indirect,X)
        0xc4 => OpcodeEntry { operation: Operations::CompareWithY, mode: AddressingMode::Zeropage, cycle_count: 3 },  // CPY zeropage
        0xc5 => OpcodeEntry { operation: Operations::CompareWithAccumulator, mode: AddressingMode::Zeropage, cycle_count: 3 },  // CMP zeropage
        0xc6 => OpcodeEntry { operation: Operations::DecrementMemory, mode: AddressingMode::Zeropage, cycle_count: 5 },  // DEC zeropage
        0xc8 => OpcodeEntry { operation: Operations::IncrementY, mode: AddressingMode::Implied, cycle_count: 2 },  // INY
        0xc9 => OpcodeEntry { operation: Operations::CompareWithAccumulator, mode: AddressingMode::Immediate, cycle_count: 2 },  // CMP immediate
        0xca => OpcodeEntry { operation: Operations::DecrementX, mode: AddressingMode::Implied, cycle_count: 2 },  // DEX
        0xcc => OpcodeEntry { operation: Operations::CompareWithY, mode: AddressingMode::Absolute, cycle_count: 4 },  // CPY absolute
        0xcd => OpcodeEntry { operation: Operations::CompareWithAccumulator, mode: AddressingMode::Absolute, cycle_count: 4 },  // CMP absolute
        0xce => OpcodeEntry { operation: Operations::DecrementMemory, mode: AddressingMode::Absolute, cycle_count: 6 },  // DEC absolute
        0xd0 => OpcodeEntry { operation: Operations::BranchOnNotEqual, mode: AddressingMode::Relative, cycle_count: 2 },  // BNE
        0xd1 => OpcodeEntry { operation: Operations::CompareWithAccumulator, mode: AddressingMode::PostindexedIndirect, cycle_count: 5 },  // CMP (indirect),Y
        0xd5 => OpcodeEntry { operation: Operations::CompareWithAccumulator, mode: AddressingMode::ZeropageX, cycle_count: 4 },  // CMP zeropage,X
        0xd6 => OpcodeEntry { operation: Operations::DecrementMemory, mode: AddressingMode::ZeropageX, cycle_count: 6 },  // DEC zeropage,X
        0xd8 => OpcodeEntry { operation: Operations::ClearDecimal, mode: AddressingMode::Implied, cycle_count: 2 },  // CLD
        0xd9 => OpcodeEntry { operation: Operations::CompareWithAccumulator, mode: AddressingMode::AbsoluteY, cycle_count: 4 },  // CMP absolute, Y
        0xdd => OpcodeEntry { operation: Operations::CompareWithAccumulator, mode: AddressingMode::AbsoluteX, cycle_count: 4 },  // CMP absolute,X
        0xde => OpcodeEntry { operation: Operations::DecrementMemory, mode: AddressingMode::AbsoluteX, cycle_count: 7 },  // DEC absolute,X
        0xe0 => OpcodeEntry { operation: Operations::CompareWithX, mode: AddressingMode::Immediate, cycle_count: 2 },  // CPX immediate
        0xe1 => OpcodeEntry { operation: Operations::SubtractWithCarry, mode: AddressingMode::PreindexedIndirect, cycle_count: 6 },  // SBC (indirect,X)
        0xe4 => OpcodeEntry { operation: Operations::CompareWithX, mode: AddressingMode::Zeropage, cycle_count: 3 },  // CPX zeropage
        0xe5 => OpcodeEntry { operation: Operations::SubtractWithCarry, mode: AddressingMode::Zeropage, cycle_count: 3 },  // SBC zeropage
        0xe6 => OpcodeEntry { operation: Operations::IncrementMemory, mode: AddressingMode::Zeropage, cycle_count: 5 },  // INC zeropage
        0xe8 => OpcodeEntry { operation: Operations::IncrementX, mode: AddressingMode::Implied, cycle_count: 2 },  // INX
        0xe9 => OpcodeEntry { operation: Operations::SubtractWithCarry, mode: AddressingMode::Immediate, cycle_count: 2 },  // SBC immediate
        0xea => OpcodeEntry { operation: Operations::NoOperation, mode: AddressingMode::Implied, cycle_count: 2 },  // NOP
        0xec => OpcodeEntry { operation: Operations::CompareWithX, mode: AddressingMode::Absolute, cycle_count: 4 },  // CPX absolute
        0xed => OpcodeEntry { operation: Operations::SubtractWithCarry, mode: AddressingMode::Absolute, cycle_count: 4 },  // SBC absolute
        0xee => OpcodeEntry { operation: Operations::IncrementMemory, mode: AddressingMode::Absolute, cycle_count: 6 },  // INC absolute
        0xf0 => OpcodeEntry { operation: Operations::BranchOnEqual, mode: AddressingMode::Relative, cycle_count: 2 },  // BEQ relative
        0xf1 => OpcodeEntry { operation: Operations::SubtractWithCarry, mode: AddressingMode::PostindexedIndirect, cycle_count: 5 },  // SBC (indirect),Y
        0xf5 => OpcodeEntry { operation: Operations::SubtractWithCarry, mode: AddressingMode::ZeropageX, cycle_count: 4 },  // SBC zeropage,X
        0xf6 => OpcodeEntry { operation: Operations::IncrementMemory, mode: AddressingMode::ZeropageX, cycle_count: 6 },  // INC zeropage,X
        0xf8 => OpcodeEntry { operation: Operations::SetDecimal, mode: AddressingMode::Implied, cycle_count: 2 },  // SED
        0xf9 => OpcodeEntry { operation: Operations::SubtractWithCarry, mode: AddressingMode::AbsoluteY, cycle_count: 4 },  // SBC absolute,Y
        0xfd => OpcodeEntry { operation: Operations::SubtractWithCarry, mode: AddressingMode::AbsoluteX, cycle_count: 4 },  // SBC absolute,X
        0xfe => OpcodeEntry { operation: Operations::IncrementMemory, mode: AddressingMode::AbsoluteX, cycle_count: 7 },  // INC absolute,X
        _ => OpcodeEntry { operation: Operations::NoOperation, mode: AddressingMode::Implied, cycle_count: 2 },
    }
}

/// Executable twin of `spec_opcode_entry`.
pub fn opcode_entry(opcode: u8) -> (r: OpcodeEntry)
    ensures
        r == spec_opcode_entry(opcode),
{
    match opcode {
        0x00 => OpcodeEntry { operation: Operations::SoftwareInterrupt, mode: AddressingMode::Implied, cycle_count: 7 },  // BRK
        0x01 => OpcodeEntry { operation: Operations::InclusiveOrWithAccumulator, mode: AddressingMode::PreindexedIndirect, cycle_count: 6 },  // ORA (indirect,X)
        0x05 => OpcodeEntry { operation: Operations::InclusiveOrWithAccumulator, mode: AddressingMode::Zeropage, cycle_count: 3 },  // ORA zeropage
        0x06 => OpcodeEntry { operation: Operations::ArithmeticShiftLeft, mode: AddressingMode::Zeropage, cycle_count: 5 },  // ASL zeropage
        0x08 => OpcodeEntry { operation: Operations::PushStatusRegister, mode: AddressingMode::Implied, cycle_count: 3 },  // PHP implied
        0x09 => OpcodeEntry { operation: Operations::InclusiveOrWithAccumulator, mode: AddressingMode::Immediate, cycle_count: 2 },  // ORA immediate
        0x0a => OpcodeEntry { operation: Operations::ArithmeticShiftLeft, mode: AddressingMode::Implied, cycle_count: 2 },  // ASL accumulator (implied)
        0x0d => OpcodeEntry { operation: Operations::InclusiveOrWithAccumulator, mode: AddressingMode::Absolute, cycle_count: 4 },  // ORA absolute
        0x0e => OpcodeEntry { operation: Operations::ArithmeticShiftLeft, mode: AddressingMode::Absolute, cycle_count: 6 },  // ASL absolute
        0x10 => OpcodeEntry { operation: Operations::BranchOnPlus, mode: AddressingMode::Relative, cycle_count: 2 },  // BPL relative
        0x11 => OpcodeEntry { operation: Operations::InclusiveOrWithAccumulator, mode: AddressingMode::PostindexedIndirect, cycle_count: 5 },  // ORA (indirect), Y
        0x15 => OpcodeEntry { operation: Operations::InclusiveOrWithAccumulator, mode: AddressingMode::ZeropageX, cycle_count: 4 },  // ORA indexed zeropage
        0x16 => OpcodeEntry { operation: Operations::ArithmeticShiftLeft, mode: AddressingMode::ZeropageX, cycle_count: 6 },  // ASL zeropage,X
        0x18 => OpcodeEntry { operation: Operations::ClearCarry, mode: AddressingMode::Implied, cycle_count: 2 },  // CLC implied
        0x19 => OpcodeEntry { operation: Operations::InclusiveOrWithAccumulator, mode: AddressingMode::AbsoluteY, cycle_count: 4 },  // ORA absolute,Y
        0x1d => OpcodeEntry { operation: Operations::InclusiveOrWithAccumulator, mode: AddressingMode::AbsoluteX, cycle_count: 4 },  // ORA absolute,X
        0x1e => OpcodeEntry { operation: Operations::ArithmeticShiftLeft, mode: AddressingMode::AbsoluteX, cycle_count: 7 },  // ASL absolute, X
        0x20 => OpcodeEntry { operation: Operations::JumpSubroutine, mode: AddressingMode::Absolute, cycle_count: 6 },  // JSR absolute
        0x21 => OpcodeEntry { operation: Operations::AndWithAccumulator, mode: AddressingMode::PreindexedIndirect, cycle_count: 6 },  // AND (indirect,X)
        0x24 => OpcodeEntry { operation: Operations::BitTest, mode: AddressingMode::Zeropage, cycle_count: 3 },  // BIT zeropage
        0x25 => OpcodeEntry { operation: Operations::AndWithAccumulator, mode: AddressingMode::Zeropage, cycle_count: 3 },  // AND zeropage
        0x26 => OpcodeEntry { operation: Operations::RotateLeft, mode: AddressingMode::Zeropage, cycle_count: 5 },  // ROL zeropage
        0x28 => OpcodeEntry { operation: Operations::PullStatusRegister, mode: AddressingMode::Implied, cycle_count: 4 },  // PLP
        0x29 => OpcodeEntry { operation: Operations::AndWithAccumulator, mode: AddressingMode::Immediate, cycle_count: 2 },  // AND immediate
        0x2a => OpcodeEntry { operation: Operations::RotateLeft, mode: AddressingMode::Implied, cycle_count: 2 },  // ROL accumulator
        0x2c => OpcodeEntry { operation: Operations::BitTest, mode: AddressingMode::Absolute, cycle_count: 4 },  // BIT absolute
        0x2d => OpcodeEntry { operation: Operations::AndWithAccumulator, mode: AddressingMode::Absolute, cycle_count: 4 },  // AND absolute
        0x2e => OpcodeEntry { operation: Operations::RotateLeft, mode: AddressingMode::Absolute, cycle_count: 6 },  // ROL absolute
        0x30 => OpcodeEntry { operation: Operations::BranchOnMinus, mode: AddressingMode::Relative, cycle_count: 2 },  // BMI relative
        0x31 => OpcodeEntry { operation: Operations::AndWithAccumulator, mode: AddressingMode::PostindexedIndirect, cycle_count: 5 },  // AND (indirect),Y
        0x35 => OpcodeEntry { operation: Operations::AndWithAccumulator, mode: AddressingMode::ZeropageX, cycle_count: 4 },  // AND zeropage,X
        0x36 => OpcodeEntry { operation: Operations::RotateLeft, mode: AddressingMode::ZeropageX, cycle_count: 6 },  // ROL zeropage, X
        0x38 => OpcodeEntry { operation: Operations::SetCarry, mode: AddressingMode::Implied, cycle_count: 2 },  // SEC
        0x39 => OpcodeEntry { operation: Operations::AndWithAccumulator, mode: AddressingMode::AbsoluteY, cycle_count: 4 },  // AND absolute,Y
        0x3d => OpcodeEntry { operation: Operations::AndWithAccumulator, mode: AddressingMode::AbsoluteX, cycle_count: 4 },  // AND absolute,X
        0x3e => OpcodeEntry { operation: Operations::RotateLeft, mode: AddressingMode::AbsoluteX, cycle_count: 7 },  // ROL absolute, X
        0x40 => OpcodeEntry { operation: Operations::ReturnFromInterrupt, mode: AddressingMode::Implied, cycle_count: 6 },  // RTI
        0x41 => OpcodeEntry { operation: Operations::ExclusiveOrWithAccumulator, mode: AddressingMode::PreindexedIndirect, cycle_count: 6 },  // EOR (indirect,X)
        0x45 => OpcodeEntry { operation: Operations::ExclusiveOrWithAccumulator, mode: AddressingMode::Zeropage, cycle_count: 3 },  // EOR zeropage
        0x46 => OpcodeEntry { operation: Operations::LogicalShiftRight, mode: AddressingMode::Zeropage, cycle_count: 5 },  // LSR zeropage
        0x48 => OpcodeEntry { operation: Operations::PushAccumulator, mode: AddressingMode::Implied, cycle_count: 3 },  // PHA
        0x49 => OpcodeEntry { operation: Operations::ExclusiveOrWithAccumulator, mode: AddressingMode::Immediate, cycle_count: 2 },  // EOR immediate
        0x4a => OpcodeEntry { operation: Operations::LogicalShiftRight, mode: AddressingMode::Implied, cycle_count: 2 },  // LSR accumulator
        0x4c => OpcodeEntry { operation: Operations::Jump, mode: AddressingMode::Absolute, cycle_count: 3 },  // JMP absolute
        0x4d => OpcodeEntry { operation: Operations::ExclusiveOrWithAccumulator, mode: AddressingMode::Absolute, cycle_count: 4 },  // EOR absolute
        0x4e => OpcodeEntry { operation: Operations::LogicalShiftRight, mode: AddressingMode::Absolute, cycle_count: 6 },  // LSR absolute
        0x50 => OpcodeEntry { operation: Operations::BranchOnOverflowClear, mode: AddressingMode::Relative, cycle_count: 2 },  // BVC relative
        0x51 => OpcodeEntry { operation: Operations::ExclusiveOrWithAccumulator, mode: AddressingMode::PostindexedIndirect, cycle_count: 5 },  // EOR (indirect),Y
        0x55 => OpcodeEntry { operation: Operations::ExclusiveOrWithAccumulator, mode: AddressingMode::ZeropageX, cycle_count: 4 },  // EOR zeropage, X
        0x56 => OpcodeEntry { operation: Operations::LogicalShiftRight, mode: AddressingMode::ZeropageX, cycle_count: 6 },  // LSR zeropage,X
        0x58 => OpcodeEntry { operation: Operations::ClearInterruptDisable, mode: AddressingMode::Implied, cycle_count: 2 },  // CLI
        0x59 => OpcodeEntry { operation: Operations::ExclusiveOrWithAccumulator, mode: AddressingMode::AbsoluteY, cycle_count: 4 },  // EOR absolute,Y
        0x5d => OpcodeEntry { operation: Operations::ExclusiveOrWithAccumulator, mode: AddressingMode::AbsoluteX, cycle_count: 4 },  // EOR absolute,X
        0x5e => OpcodeEntry { operation: Operations::LogicalShiftRight, mode: AddressingMode::AbsoluteX, cycle_count: 7 },  // LSR absolute,X
        0x60 => OpcodeEntry { operation: Operations::ReturnFromSubroutine, mode: AddressingMode::Implied, cycle_count: 6 },  // RTS
        0x61 => OpcodeEntry { operation: Operations::AddWithCarry, mode: AddressingMode::PreindexedIndirect, cycle_count: 6 },  // ADC (indirect,X)
        0x65 => OpcodeEntry { operation: Operations::AddWithCarry, mode: AddressingMode::Zeropage, cycle_count: 3 },  // ADC zeropage
        0x66 => OpcodeEntry { operation: Operations::RotateRight, mode: AddressingMode::Zeropage, cycle_count: 5 },  // ROR zeropage
        0x68 => OpcodeEntry { operation: Operations::PullAccumulator, mode: AddressingMode::Implied, cycle_count: 4 },  // PLA
        0x69 => OpcodeEntry { operation: Operations::AddWithCarry, mode: AddressingMode::Immediate, cycle_count: 2 },  // ADC immediate
        0x6a => OpcodeEntry { operation: Operations::RotateRight, mode: AddressingMode::Implied, cycle_count: 2 },  // ROR accumulator
        0x6c => OpcodeEntry { operation: Operations::Jump, mode: AddressingMode::Indirect, cycle_count: 5 },  // JMP indirect
        0x6d => OpcodeEntry { operation: Operations::AddWithCarry, mode: AddressingMode::Absolute, cycle_count: 4 },  // ADC absolute
        0x6e => OpcodeEntry { operation: Operations::RotateRight, mode: AddressingMode::Absolute, cycle_count: 6 },  // ROR absolute
        0x70 => OpcodeEntry { operation: Operations::BranchOnOverflowSet, mode: AddressingMode::Relative, cycle_count: 2 },  // BVS relative
        0x71 => OpcodeEntry { operation: Operations::AddWithCarry, mode: AddressingMode::PostindexedIndirect, cycle_count: 5 },  // ADC (indirect),Y
        0x75 => OpcodeEntry { operation: Operations::AddWithCarry, mode: AddressingMode::ZeropageX, cycle_count: 4 },  // ADC zeropage,X
        0x76 => OpcodeEntry { operation: Operations::RotateRight, mode: AddressingMode::ZeropageX, cycle_count: 6 },  // ROR zeropage,X
        0x78 => OpcodeEntry { operation: Operations::SetInterruptDisable, mode: AddressingMode::Implied, cycle_count: 2 },  // SEI
        0x79 => OpcodeEntry { operation: Operations::AddWithCarry, mode: AddressingMode::AbsoluteY, cycle_count: 4 },  // ADC absolute,Y
        0x7d => OpcodeEntry { operation: Operations::AddWithCarry, mode: AddressingMode::AbsoluteX, cycle_count: 4 },  // ADC absolute,X
        0x7e => OpcodeEntry { operation: Operations::RotateRight, mode: AddressingMode::AbsoluteX, cycle_count: 7 },  // ROR absolute,X
        0x81 => OpcodeEntry { operation: Operations::StoreAccumulator, mode: AddressingMode::PreindexedIndirect, cycle_count: 6 },  // STA (indirect,X)
        0x84 => OpcodeEntry { operation: Operations::StoreY, mode: AddressingMode::Zeropage, cycle_count: 3 },  // STY zeropage
        0x85 => OpcodeEntry { operation: Operations::StoreAccumulator, mode: AddressingMode::Zeropage, cycle_count: 3 },  // STA zeropage
        0x86 => OpcodeEntry { operation: Operations::StoreX, mode: AddressingMode::Zeropage, cycle_count: 3 },  // STX zeropage
        0x88 => OpcodeEntry { operation: Operations::DecrementY, mode: AddressingMode::Implied, cycle_count: 2 },  // DEY
        0x8a => OpcodeEntry { operation: Operations::TransferXToAccumulator, mode: AddressingMode::Implied, cycle_count: 2 },  // TXA
        0x8c => OpcodeEntry { operation: Operations::StoreY, mode: AddressingMode::Absolute, cycle_count: 4 },  // STY absolute
        0x8d => OpcodeEntry { operation: Operations::StoreAccumulator, mode: AddressingMode::Absolute, cycle_count: 4 },  // STA absolute
        0x8e => OpcodeEntry { operation: Operations::StoreX, mode: AddressingMode::Absolute, cycle_count: 4 },  // STX absolute
        0x90 => OpcodeEntry { operation: Operations::BranchOnCarryClear, mode: AddressingMode::Relative, cycle_count: 2 },  // BCC relative
        0x91 => OpcodeEntry { operation: Operations::StoreAccumulator, mode: AddressingMode::PostindexedIndirect, cycle_count: 6 },  // STA (indirect),Y
        0x94 => OpcodeEntry { operation: Operations::StoreY, mode: AddressingMode::ZeropageX, cycle_count: 4 },  // STY zeropage,X
        0x95 => OpcodeEntry { operation: Operations::StoreAccumulator, mode: AddressingMode::ZeropageX, cycle_count: 4 },  // STA zeropage,X
        0x96 => OpcodeEntry { operation: Operations::StoreX, mode: AddressingMode::ZeropageY, cycle_count: 4 },  // STX zeropage,Y
        0x98 => OpcodeEntry { operation: Operations::TransferYToAccumulator, mode: AddressingMode::Implied, cycle_count: 2 },  // TYA
        0x99 => OpcodeEntry { operation: Operations::StoreAccumulator, mode: AddressingMode::AbsoluteY, cycle_count: 5 },  // STA absolute,Y
        0x9a => OpcodeEntry { operation: Operations::TransferXToStackPointer, mode: AddressingMode::Implied, cycle_count: 2 },  // TXS
        0x9d => OpcodeEntry { operation: Operations::StoreAccumulator, mode: AddressingMode::AbsoluteX, cycle_count: 5 },  // STA absolute,X
        0xa0 => OpcodeEntry { operation: Operations::LoadY, mode: AddressingMode::Immediate, cycle_count: 2 },  // LDY immediate
        0xa1 => OpcodeEntry { operation: Operations::LoadAccumulator, mode: AddressingMode::PreindexedIndirect, cycle_count: 6 },  // LDA (indirect,X)
        0xa2 => OpcodeEntry { operation: Operations::LoadX, mode: AddressingMode::Immediate, cycle_count: 2 },  // LDX immediate
        0xa4 => OpcodeEntry { operation: Operations::LoadY, mode: AddressingMode::Zeropage, cycle_count: 3 },  // LDY zeropage
        0xa5 => OpcodeEntry { operation: Operations::LoadAccumulator, mode: AddressingMode::Zeropage, cycle_count: 3 },  // LDA zeropage
        0xa6 => OpcodeEntry { operation: Operations::LoadX, mode: AddressingMode::Zeropage, cycle_count: 3 },  // LDX zeropage
        0xa8 => OpcodeEntry { operation: Operations::TransferAccumulatorToY, mode: AddressingMode::Implied, cycle_count: 2 },  // TAY
        0xa9 => OpcodeEntry { operation: Operations::LoadAccumulator, mode: AddressingMode::Immediate, cycle_count: 2 },  // LDA immediate
        0xaa => OpcodeEntry { operation: Operations::TransferAccumulatorToX, mode: AddressingMode::Implied, cycle_count: 2 },  // TAX
        0xac => OpcodeEntry { operation: Operations::LoadY, mode: AddressingMode::Absolute, cycle_count: 4 },  // LDY absolute
        0xad => OpcodeEntry { operation: Operations::LoadAccumulator, mode: AddressingMode::Absolute, cycle_count: 4 },  // LDA absolute
        0xae => OpcodeEntry { operation: Operations::LoadX, mode: AddressingMode::Absolute, cycle_count: 4 },  // LDX absolute
        0xb0 => OpcodeEntry { operation: Operations::BranchOnCarrySet, mode: AddressingMode::Relative, cycle_count: 2 },  // BCS
        0xb1 => OpcodeEntry { operation: Operations::LoadAccumulator, mode: AddressingMode::PostindexedIndirect, cycle_count: 5 },  // LDA (indirect), Y
        0xb4 => OpcodeEntry { operation: Operations::LoadY, mode: AddressingMode::ZeropageX, cycle_count: 4 },  // LDY zeropage,X
        0xb5 => OpcodeEntry { operation: Operations::LoadAccumulator, mode: AddressingMode::ZeropageX, cycle_count: 4 },  // LDA zeropage,X
        0xb6 => OpcodeEntry { operation: Operations::LoadX, mode: AddressingMode::ZeropageY, cycle_count: 4 },  // LDX zeropage,Y
        0xb8 => OpcodeEntry { operation: Operations::ClearOverflow, mode: AddressingMode::Implied, cycle_count: 2 },  // CLV
        0xb9 => OpcodeEntry { operation: Operations::LoadAccumulator, mode: AddressingMode::AbsoluteY, cycle_count: 4 },  // LDA absolute,Y
        0xba => OpcodeEntry { operation: Operations::TransferStackPointerToX, mode: AddressingMode::Implied, cycle_count: 2 },  // TSX
        0xbc => OpcodeEntry { operation: Operations::LoadY, mode: AddressingMode::AbsoluteX, cycle_count: 4 },  // LDY absolute,X
        0xbd => OpcodeEntry { operation: Operations::LoadAccumulator, mode: AddressingMode::AbsoluteX, cycle_count: 4 },  // LDA absolute,X
        0xbe => OpcodeEntry { operation: Operations::LoadX, mode: AddressingMode::AbsoluteY, cycle_count: 4 },  // LDX absolute,Y
        0xc0 => OpcodeEntry { operation: Operations::CompareWithY, mode: AddressingMode::Immediate, cycle_count: 2 },  // CPY immediate
        0xc1 => OpcodeEntry { operation: Operations::CompareWithAccumulator, mode: AddressingMode::PreindexedIndirect, cycle_count: 6 },  // CMP (indirect,X)
        0xc4 => OpcodeEntry { operation: Operations::CompareWithY, mode: AddressingMode::Zeropage, cycle_count: 3 },  // CPY zeropage
        0xc5 => OpcodeEntry { operation: Operations::CompareWithAccumulator, mode: AddressingMode::Zeropage, cycle_count: 3 },  // CMP zeropage
        0xc6 => OpcodeEntry { operation: Operations::DecrementMemory, mode: AddressingMode::Zeropage, cycle_count: 5 },  // DEC zeropage
        0xc8 => OpcodeEntry { operation: Operations::IncrementY, mode: AddressingMode::Implied, cycle_count: 2 },  // INY
        0xc9 => OpcodeEntry { operation: Operations::CompareWithAccumulator, mode: AddressingMode::Immediate, cycle_count: 2 },  // CMP immediate
        0xca => OpcodeEntry { operation: Operations::DecrementX, mode: AddressingMode::Implied, cycle_count: 2 },  // DEX
        0xcc => OpcodeEntry { operation: Operations::CompareWithY, mode: AddressingMode::Absolute, cycle_count: 4 },  // CPY absolute
        0xcd => OpcodeEntry { operation: Operations::CompareWithAccumulator, mode: AddressingMode::Absolute, cycle_count: 4 },  // CMP absolute
        0xce => OpcodeEntry { operation: Operations::DecrementMemory, mode: AddressingMode::Absolute, cycle_count: 6 },  // DEC absolute
        0xd0 => OpcodeEntry { operation: Operations::BranchOnNotEqual, mode: AddressingMode::Relative, cycle_count: 2 },  // BNE
        0xd1 => OpcodeEntry { operation: Operations::CompareWithAccumulator, mode: AddressingMode::PostindexedIndirect, cycle_count: 5 },  // CMP (indirect),Y
        0xd5 => OpcodeEntry { operation: Operations::CompareWithAccumulator, mode: AddressingMode::ZeropageX, cycle_count: 4 },  // CMP zeropage,X
        0xd6 => OpcodeEntry { operation: Operations::DecrementMemory, mode: AddressingMode::ZeropageX, cycle_count: 6 },  // DEC zeropage,X
        0xd8 => OpcodeEntry { operation: Operations::ClearDecimal, mode: AddressingMode::Implied, cycle_count: 2 },  // CLD
        0xd9 => OpcodeEntry { operation: Operations::CompareWithAccumulator, mode: AddressingMode::AbsoluteY, cycle_count: 4 },  // CMP absolute, Y
        0xdd => OpcodeEntry { operation: Operations::CompareWithAccumulator, mode: AddressingMode::AbsoluteX, cycle_count: 4 },  // CMP absolute,X
        0xde => OpcodeEntry { operation: Operations::DecrementMemory, mode: AddressingMode::AbsoluteX, cycle_count: 7 },  // DEC absolute,X
        0xe0 => OpcodeEntry { operation: Operations::CompareWithX, mode: AddressingMode::Immediate, cycle_count: 2 },  // CPX immediate
        0xe1 => OpcodeEntry { operation: Operations::SubtractWithCarry, mode: AddressingMode::PreindexedIndirect, cycle_count: 6 },  // SBC (indirect,X)
        0xe4 => OpcodeEntry { operation: Operations::CompareWithX, mode: AddressingMode::Zeropage, cycle_count: 3 },  // CPX zeropage
        0xe5 => OpcodeEntry { operation: Operations::SubtractWithCarry, mode: AddressingMode::Zeropage, cycle_count: 3 },  // SBC zeropage
        0xe6 => OpcodeEntry { operation: Operations::IncrementMemory, mode: AddressingMode::Zeropage, cycle_count: 5 },  // INC zeropage
        0xe8 => OpcodeEntry { operation: Operations::IncrementX, mode: AddressingMode::Implied, cycle_count: 2 },  // INX
        0xe9 => OpcodeEntry { operation: Operations::SubtractWithCarry, mode: AddressingMode::Immediate, cycle_count: 2 },  // SBC immediate
        0xea => OpcodeEntry { operation: Operations::NoOperation, mode: AddressingMode::Implied, cycle_count: 2 },  // NOP
        0xec => OpcodeEntry { operation: Operations::CompareWithX, mode: AddressingMode::Absolute, cycle_count: 4 },  // CPX absolute
        0xed => OpcodeEntry { operation: Operations::SubtractWithCarry, mode: AddressingMode::Absolute, cycle_count: 4 },  // SBC absolute
        0xee => OpcodeEntry { operation: Operations::IncrementMemory, mode: AddressingMode::Absolute, cycle_count: 6 },  // INC absolute
        0xf0 => OpcodeEntry { operation: Operations::BranchOnEqual, mode: AddressingMode::Relative, cycle_count: 2 },  // BEQ relative
        0xf1 => OpcodeEntry { operation: Operations::SubtractWithCarry, mode: AddressingMode::PostindexedIndirect, cycle_count: 5 },  // SBC (indirect),Y
        0xf5 => OpcodeEntry { operation: Operations::SubtractWithCarry, mode: AddressingMode::ZeropageX, cycle_count: 4 },  // SBC zeropage,X
        0xf6 => OpcodeEntry { operation: Operations::IncrementMemory, mode: AddressingMode::ZeropageX, cycle_count: 6 },  // INC zeropage,X
        0xf8 => OpcodeEntry { operation: Operations::SetDecimal, mode: AddressingMode::Implied, cycle_count: 2 },  // SED
        0xf9 => OpcodeEntry { operation: Operations::SubtractWithCarry, mode: AddressingMode::AbsoluteY, cycle_count: 4 },  // SBC absolute,Y
        0xfd => OpcodeEntry { operation: Operations::SubtractWithCarry, mode: AddressingMode::AbsoluteX, cycle_count: 4 },  // SBC absolute,X
        0xfe => OpcodeEntry { operation: Operations::IncrementMemory, mode: AddressingMode::AbsoluteX, cycle_count: 7 },  // INC absolute,X
        _ => OpcodeEntry { operation: Operations::NoOperation, mode: AddressingMode::Implied, cycle_count: 2 },
    }
}

/// How many bytes the instruction for `opcode` occupies in memory.
pub open spec fn spec_instruction_length(opcode: u8) -> int {
    spec_mode_length(spec_opcode_entry(opcode).mode)
}

/// An opcode byte absent from the documented table decodes as a one-byte,
/// two-cycle no-operation in the implied mode.
pub proof fn lemma_undocumented_opcode_decodes_as_noop(opcode: u8)
    requires
        !spec_opcode_documented(opcode),
    ensures
        spec_opcode_entry(opcode) == (OpcodeEntry {
            operation: Operations::NoOperation,
            mode: AddressingMode::Implied,
            cycle_count: 2,
        }),
        spec_instruction_length(opcode) == 1,
{
}

/// An instruction occupies at least one and at most three bytes.
pub proof fn lemma_instruction_length_bounds(opcode: u8)
    ensures
        1 <= spec_instruction_length(opcode) <= 3,
{
}

/// The little-endian word is the low byte beside the high byte shifted
/// into the upper half: the arithmetic form of `spec_word` agrees with
/// the bitwise one.
pub proof fn lemma_word_is_shift_or(low: u8, high: u8)
    ensures
        spec_word(low, high) == (((high as u16) << 8) | (low as u16)),
{
    assert((((high as u16) << 8) | (low as u16)) == (high as u16) * 256 + (low as u16))
        by (bit_vector);
}

} // verus!
