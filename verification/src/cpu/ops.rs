//! Instructions, addressing modes, and the opcode matrix.

use vstd::prelude::*;
use vstd::std_specs::convert::FromSpecImpl;
use crate::cpu::reg::{Flag, Register};

verus! {

/// How an instruction finds its operand. The flag of the indexed modes says
/// whether a page crossing costs the instruction one more cycle: it does for
/// instructions that only read their operand.
#[derive(Clone, Copy, Debug, PartialEq, Eq)]
pub enum AddressingMode {
    Immediate,
    Absolute,
    AbsoluteX(bool),
    AbsoluteY(bool),
    ZeroPage,
    ZeroPageX,
    ZeroPageY,
    Indirect,
    IndirectX,
    IndirectY(bool),
}

/// A decoded instruction.
#[derive(Clone, Copy, Debug, PartialEq, Eq)]
pub enum Operation {
    /// LDA, LDX, LDY.
    Load(Register, AddressingMode),
    /// STA, STX, STY.
    Store(Register, AddressingMode),
    /// TAX, TAY, TXA, TYA, TSX, TXS: source, then destination.
    Transfer(Register, Register),
    /// ADC.
    Add(AddressingMode),
    /// INX, INY on a register; INC on memory.
    Inc(Option<Register>, Option<AddressingMode>),
    /// DEX, DEY on a register; DEC on memory.
    Dec(Option<Register>, Option<AddressingMode>),
    /// SBC.
    Sub(AddressingMode),
    /// AND.
    And(AddressingMode),
    /// ASL, on A where no mode is given.
    Asl(Option<AddressingMode>),
    /// BIT.
    Bits(AddressingMode),
    /// EOR.
    Xor(AddressingMode),
    /// LSR, on A where no mode is given.
    Lsr(Option<AddressingMode>),
    /// ORA.
    Or(AddressingMode),
    /// ROL, on A where no mode is given.
    Rol(Option<AddressingMode>),
    /// ROR, on A where no mode is given.
    Ror(Option<AddressingMode>),
    /// A branch taken when the flag has the given value.
    Branch(Flag, bool),
    /// JMP with a mode; JSR without.
    Jump(Option<AddressingMode>),
    /// RTS where true, RTI where false.
    Ret(bool),
    /// CLC, SEC, CLI, SEI, CLD, SED, CLV.
    Flag(Flag, bool),
    /// CMP, CPX, CPY.
    Compare(Register, AddressingMode),
    /// A push where true (PHA, PHP), a pull where false (PLA, PLP).
    Stack(Register, bool),
    /// BRK.
    Break,
    /// NOP; the undocumented forms read an operand and drop it.
    Nop(Option<AddressingMode>),
    Lax(AddressingMode),
    Sax(AddressingMode),
    Dcp(AddressingMode),
    Isb(AddressingMode),
    Slo(AddressingMode),
    Rla(AddressingMode),
    Sre(AddressingMode),
    Rra(AddressingMode),
    Aac(AddressingMode),
    Asr(AddressingMode),
    Arr(AddressingMode),
    Atx(AddressingMode),
    Axs(AddressingMode),
    /// SHY and SHX: the register and the high byte of the address are
    /// stored.
    Sa(Register, AddressingMode),
    /// SHA: `A & X` and the high byte of the address are stored.
    Sha(AddressingMode),
    /// TAS: SP takes `A & X`, then SP and the high byte of the address are
    /// stored.
    Tas(AddressingMode),
    /// A byte that encodes no instruction.
    BadOp,
}

/// The mode that a column of the matrix selects for the accumulator group.
pub open spec fn group_one_mode(col: int, extra: bool) -> AddressingMode {
    if col == 0 {
        AddressingMode::IndirectX
    } else if col == 1 {
        AddressingMode::ZeroPage
    } else if col == 2 {
        AddressingMode::Immediate
    } else if col == 3 {
        AddressingMode::Absolute
    } else if col == 4 {
        AddressingMode::IndirectY(extra)
    } else if col == 5 {
        AddressingMode::ZeroPageX
    } else if col == 6 {
        AddressingMode::AbsoluteY(extra)
    } else {
        AddressingMode::AbsoluteX(extra)
    }
}

/// The mode of the columns 1, 3, 5 and 7, indexed by X.
pub open spec fn plain_mode(col: int, extra: bool) -> AddressingMode {
    if col == 1 {
        AddressingMode::ZeroPage
    } else if col == 3 {
        AddressingMode::Absolute
    } else if col == 5 {
        AddressingMode::ZeroPageX
    } else {
        AddressingMode::AbsoluteX(extra)
    }
}

/// The mode of the columns 1, 3, 5 and 7, indexed by Y.
pub open spec fn plain_mode_y(col: int, extra: bool) -> AddressingMode {
    if col == 1 {
        AddressingMode::ZeroPage
    } else if col == 3 {
        AddressingMode::Absolute
    } else if col == 5 {
        AddressingMode::ZeroPageY
    } else {
        AddressingMode::AbsoluteY(extra)
    }
}

/// Opcodes that end in the bits 01: ORA, AND, EOR, ADC, STA, LDA, CMP, SBC by
/// row, the eight modes by column. A store has no immediate form.
pub open spec fn group_one(row: int, col: int) -> Operation {
    if row == 0 {
        Operation::Or(group_one_mode(col, true))
    } else if row == 1 {
        Operation::And(group_one_mode(col, true))
    } else if row == 2 {
        Operation::Xor(group_one_mode(col, true))
    } else if row == 3 {
        Operation::Add(group_one_mode(col, true))
    } else if row == 4 {
        if col == 2 {
            Operation::Nop(Some(AddressingMode::Immediate))
        } else {
            Operation::Store(Register::A, group_one_mode(col, false))
        }
    } else if row == 5 {
        Operation::Load(Register::A, group_one_mode(col, true))
    } else if row == 6 {
        Operation::Compare(Register::A, group_one_mode(col, true))
    } else {
        Operation::Sub(group_one_mode(col, true))
    }
}

/// Opcodes that end in the bits 10: ASL, ROL, LSR, ROR, STX, LDX, DEC, INC by
/// row, with the one-byte instructions in the columns 2 and 6.
pub open spec fn group_two(row: int, col: int) -> Operation {
    if col == 0 {
        if row == 5 {
            Operation::Load(Register::X, AddressingMode::Immediate)
        } else if row == 4 || row == 6 || row == 7 {
            Operation::Nop(Some(AddressingMode::Immediate))
        } else {
            Operation::BadOp
        }
    } else if col == 4 {
        Operation::BadOp
    } else if col == 2 {
        if row == 0 {
            Operation::Asl(None)
        } else if row == 1 {
            Operation::Rol(None)
        } else if row == 2 {
            Operation::Lsr(None)
        } else if row == 3 {
            Operation::Ror(None)
        } else if row == 4 {
            Operation::Transfer(Register::X, Register::A)
        } else if row == 5 {
            Operation::Transfer(Register::A, Register::X)
        } else if row == 6 {
            Operation::Dec(Some(Register::X), None)
        } else {
            Operation::Nop(None)
        }
    } else if col == 6 {
        if row == 4 {
            Operation::Transfer(Register::X, Register::SP)
        } else if row == 5 {
            Operation::Transfer(Register::SP, Register::X)
        } else {
            Operation::Nop(None)
        }
    } else if row == 0 {
        Operation::Asl(Some(plain_mode(col, false)))
    } else if row == 1 {
        Operation::Rol(Some(plain_mode(col, false)))
    } else if row == 2 {
        Operation::Lsr(Some(plain_mode(col, false)))
    } else if row == 3 {
        Operation::Ror(Some(plain_mode(col, false)))
    } else if row == 4 {
        if col == 7 {
            Operation::Sa(Register::X, AddressingMode::AbsoluteY(false))
        } else {
            Operation::Store(Register::X, plain_mode_y(col, false))
        }
    } else if row == 5 {
        Operation::Load(Register::X, plain_mode_y(col, true))
    } else if row == 6 {
        Operation::Dec(None, Some(plain_mode(col, false)))
    } else {
        Operation::Inc(None, Some(plain_mode(col, false)))
    }
}

/// The flag that the branches of a pair of rows test.
pub open spec fn branch_flag(pair: int) -> Flag {
    if pair == 0 {
        Flag::Negative
    } else if pair == 1 {
        Flag::Overflow
    } else if pair == 2 {
        Flag::Carry
    } else {
        Flag::Zero
    }
}

/// Opcodes that end in the bits 00: control flow, the stack, the flags, the
/// Y register, and the comparisons of X and Y.
pub open spec fn group_zero(row: int, col: int) -> Operation {
    if col == 0 {
        if row == 0 {
            Operation::Break
        } else if row == 1 {
            Operation::Jump(None)
        } else if row == 2 {
            Operation::Ret(false)
        } else if row == 3 {
            Operation::Ret(true)
        } else if row == 4 {
            Operation::Nop(Some(AddressingMode::Immediate))
        } else if row == 5 {
            Operation::Load(Register::Y, AddressingMode::Immediate)
        } else if row == 6 {
            Operation::Compare(Register::Y, AddressingMode::Immediate)
        } else {
            Operation::Compare(Register::X, AddressingMode::Immediate)
        }
    } else if col == 2 {
        if row == 0 {
            Operation::Stack(Register::P, true)
        } else if row == 1 {
            Operation::Stack(Register::P, false)
        } else if row == 2 {
            Operation::Stack(Register::A, true)
        } else if row == 3 {
            Operation::Stack(Register::A, false)
        } else if row == 4 {
            Operation::Dec(Some(Register::Y), None)
        } else if row == 5 {
            Operation::Transfer(Register::A, Register::Y)
        } else if row == 6 {
            Operation::Inc(Some(Register::Y), None)
        } else {
            Operation::Inc(Some(Register::X), None)
        }
    } else if col == 4 {
        Operation::Branch(branch_flag(row / 2), row % 2 == 1)
    } else if col == 6 {
        if row == 0 {
            Operation::Flag(Flag::Carry, false)
        } else if row == 1 {
            Operation::Flag(Flag::Carry, true)
        } else if row == 2 {
            Operation::Flag(Flag::Interrupt, false)
        } else if row == 3 {
            Operation::Flag(Flag::Interrupt, true)
        } else if row == 4 {
            Operation::Transfer(Register::Y, Register::A)
        } else if row == 5 {
            Operation::Flag(Flag::Overflow, false)
        } else if row == 6 {
            Operation::Flag(Flag::Decimal, false)
        } else {
            Operation::Flag(Flag::Decimal, true)
        }
    } else if row == 1 && (col == 1 || col == 3) {
        Operation::Bits(plain_mode(col, true))
    } else if row == 2 && col == 3 {
        Operation::Jump(Some(AddressingMode::Absolute))
    } else if row == 3 && col == 3 {
        Operation::Jump(Some(AddressingMode::Indirect))
    } else if row == 4 {
        if col == 7 {
            Operation::Sa(Register::Y, AddressingMode::AbsoluteX(false))
        } else {
            Operation::Store(Register::Y, plain_mode(col, false))
        }
    } else if row == 5 {
        Operation::Load(Register::Y, plain_mode(col, true))
    } else if row == 6 && (col == 1 || col == 3) {
        Operation::Compare(Register::Y, plain_mode(col, true))
    } else if row == 7 && (col == 1 || col == 3) {
        Operation::Compare(Register::X, plain_mode(col, true))
    } else {
        Operation::Nop(Some(plain_mode(col, true)))
    }
}

/// Opcodes that end in the bits 11, none of them documented: SLO, RLA, SRE,
/// RRA, SAX, LAX, DCP, ISB by row in the modes of the accumulator group, and
/// the immediate forms in column 2. Where SAX has no mode, the row holds SHA
/// and TAS.
pub open spec fn group_three(row: int, col: int) -> Operation {
    if col == 2 {
        if row == 0 || row == 1 {
            Operation::Aac(AddressingMode::Immediate)
        } else if row == 2 {
            Operation::Asr(AddressingMode::Immediate)
        } else if row == 3 {
            Operation::Arr(AddressingMode::Immediate)
        } else if row == 4 {
            Operation::BadOp
        } else if row == 5 {
            Operation::Atx(AddressingMode::Immediate)
        } else if row == 6 {
            Operation::Axs(AddressingMode::Immediate)
        } else {
            Operation::Sub(AddressingMode::Immediate)
        }
    } else if row == 0 {
        Operation::Slo(group_one_mode(col, false))
    } else if row == 1 {
        Operation::Rla(group_one_mode(col, false))
    } else if row == 2 {
        Operation::Sre(group_one_mode(col, false))
    } else if row == 3 {
        Operation::Rra(group_one_mode(col, false))
    } else if row == 4 {
        if col == 0 {
            Operation::Sax(AddressingMode::IndirectX)
        } else if col == 1 || col == 3 || col == 5 {
            Operation::Sax(plain_mode_y(col, false))
        } else if col == 4 {
            Operation::Sha(AddressingMode::IndirectY(false))
        } else if col == 6 {
            Operation::Tas(AddressingMode::AbsoluteY(false))
        } else {
            Operation::Sha(AddressingMode::AbsoluteY(false))
        }
    } else if row == 5 {
        if col == 0 {
            Operation::Lax(AddressingMode::IndirectX)
        } else if col == 4 {
            Operation::Lax(AddressingMode::IndirectY(true))
        } else if col == 6 {
            Operation::BadOp
        } else {
            Operation::Lax(plain_mode_y(col, true))
        }
    } else if row == 6 {
        Operation::Dcp(group_one_mode(col, false))
    } else {
        Operation::Isb(group_one_mode(col, false))
    }
}

/// The instruction that the opcode `b` encodes, read off the opcode matrix:
/// the low two bits of the byte select a group, the high three a row, the
/// middle three a column.
#[verifier::opaque]
pub open spec fn decode(b: u8) -> Operation {
    let row = b as int / 32;
    let col = b as int / 4 % 8;
    let group = b as int % 4;
    if group == 0 {
        group_zero(row, col)
    } else if group == 1 {
        group_one(row, col)
    } else if group == 2 {
        group_two(row, col)
    } else {
        group_three(row, col)
    }
}

impl Operation {
    /// Looks the opcode `b` up, instruction by instruction.
    pub fn from_byte(b: u8) -> (ins: Operation)
        ensures
            ins == decode(b),
    {
        reveal(decode);
        match b {
            0xA9 => Operation::Load(Register::A, AddressingMode::Immediate),
            0xA5 => Operation::Load(Register::A, AddressingMode::ZeroPage),
            0xB5 => Operation::Load(Register::A, AddressingMode::ZeroPageX),
            0xAD => Operation::Load(Register::A, AddressingMode::Absolute),
            0xBD => Operation::Load(Register::A, AddressingMode::AbsoluteX(true)),
            0xB9 => Operation::Load(Register::A, AddressingMode::AbsoluteY(true)),
            0xA1 => Operation::Load(Register::A, AddressingMode::IndirectX),
            0xB1 => Operation::Load(Register::A, AddressingMode::IndirectY(true)),
            0xA2 => Operation::Load(Register::X, AddressingMode::Immediate),
            0xA6 => Operation::Load(Register::X, AddressingMode::ZeroPage),
            0xB6 => Operation::Load(Register::X, AddressingMode::ZeroPageY),
            0xAE => Operation::Load(Register::X, AddressingMode::Absolute),
            0xBE => Operation::Load(Register::X, AddressingMode::AbsoluteY(true)),
            0xA0 => Operation::Load(Register::Y, AddressingMode::Immediate),
            0xA4 => Operation::Load(Register::Y, AddressingMode::ZeroPage),
            0xB4 => Operation::Load(Register::Y, AddressingMode::ZeroPageX),
            0xAC => Operation::Load(Register::Y, AddressingMode::Absolute),
            0xBC => Operation::Load(Register::Y, AddressingMode::AbsoluteX(true)),
            0x85 => Operation::Store(Register::A, AddressingMode::ZeroPage),
            0x95 => Operation::Store(Register::A, AddressingMode::ZeroPageX),
            0x8D => Operation::Store(Register::A, AddressingMode::Absolute),
            0x9D => Operation::Store(Register::A, AddressingMode::AbsoluteX(false)),
            0x99 => Operation::Store(Register::A, AddressingMode::AbsoluteY(false)),
            0x81 => Operation::Store(Register::A, AddressingMode::IndirectX),
            0x91 => Operation::Store(Register::A, AddressingMode::IndirectY(false)),
            0x86 => Operation::Store(Register::X, AddressingMode::ZeroPage),
            0x96 => Operation::Store(Register::X, AddressingMode::ZeroPageY),
            0x8E => Operation::Store(Register::X, AddressingMode::Absolute),
            0x84 => Operation::Store(Register::Y, AddressingMode::ZeroPage),
            0x94 => Operation::Store(Register::Y, AddressingMode::ZeroPageX),
            0x8C => Operation::Store(Register::Y, AddressingMode::Absolute),
            0xAA => Operation::Transfer(Register::A, Register::X),
            0xA8 => Operation::Transfer(Register::A, Register::Y),
            0x8A => Operation::Transfer(Register::X, Register::A),
            0x98 => Operation::Transfer(Register::Y, Register::A),
            0xBA => Operation::Transfer(Register::SP, Register::X),
            0x9A => Operation::Transfer(Register::X, Register::SP),
            0x69 => Operation::Add(AddressingMode::Immediate),
            0x65 => Operation::Add(AddressingMode::ZeroPage),
            0x75 => Operation::Add(AddressingMode::ZeroPageX),
            0x6D => Operation::Add(AddressingMode::Absolute),
            0x7D => Operation::Add(AddressingMode::AbsoluteX(true)),
            0x79 => Operation::Add(AddressingMode::AbsoluteY(true)),
            0x61 => Operation::Add(AddressingMode::IndirectX),
            0x71 => Operation::Add(AddressingMode::IndirectY(true)),
            0xE9 | 0xEB => Operation::Sub(AddressingMode::Immediate),
            0xE5 => Operation::Sub(AddressingMode::ZeroPage),
            0xF5 => Operation::Sub(AddressingMode::ZeroPageX),
            0xED => Operation::Sub(AddressingMode::Absolute),
            0xFD => Operation::Sub(AddressingMode::AbsoluteX(true)),
            0xF9 => Operation::Sub(AddressingMode::AbsoluteY(true)),
            0xE1 => Operation::Sub(AddressingMode::IndirectX),
            0xF1 => Operation::Sub(AddressingMode::IndirectY(true)),
            0x29 => Operation::And(AddressingMode::Immediate),
            0x25 => Operation::And(AddressingMode::ZeroPage),
            0x35 => Operation::And(AddressingMode::ZeroPageX),
            0x2D => Operation::And(AddressingMode::Absolute),
            0x3D => Operation::And(AddressingMode::AbsoluteX(true)),
            0x39 => Operation::And(AddressingMode::AbsoluteY(true)),
            0x21 => Operation::And(AddressingMode::IndirectX),
            0x31 => Operation::And(AddressingMode::IndirectY(true)),
            0x09 => Operation::Or(AddressingMode::Immediate),
            0x05 => Operation::Or(AddressingMode::ZeroPage),
            0x15 => Operation::Or(AddressingMode::ZeroPageX),
            0x0D => Operation::Or(AddressingMode::Absolute),
            0x1D => Operation::Or(AddressingMode::AbsoluteX(true)),
            0x19 => Operation::Or(AddressingMode::AbsoluteY(true)),
            0x01 => Operation::Or(AddressingMode::IndirectX),
            0x11 => Operation::Or(AddressingMode::IndirectY(true)),
            0x49 => Operation::Xor(AddressingMode::Immediate),
            0x45 => Operation::Xor(AddressingMode::ZeroPage),
            0x55 => Operation::Xor(AddressingMode::ZeroPageX),
            0x4D => Operation::Xor(AddressingMode::Absolute),
            0x5D => Operation::Xor(AddressingMode::AbsoluteX(true)),
            0x59 => Operation::Xor(AddressingMode::AbsoluteY(true)),
            0x41 => Operation::Xor(AddressingMode::IndirectX),
            0x51 => Operation::Xor(AddressingMode::IndirectY(true)),
            0xC9 => Operation::Compare(Register::A, AddressingMode::Immediate),
            0xC5 => Operation::Compare(Register::A, AddressingMode::ZeroPage),
            0xD5 => Operation::Compare(Register::A, AddressingMode::ZeroPageX),
            0xCD => Operation::Compare(Register::A, AddressingMode::Absolute),
            0xDD => Operation::Compare(Register::A, AddressingMode::AbsoluteX(true)),
            0xD9 => Operation::Compare(Register::A, AddressingMode::AbsoluteY(true)),
            0xC1 => Operation::Compare(Register::A, AddressingMode::IndirectX),
            0xD1 => Operation::Compare(Register::A, AddressingMode::IndirectY(true)),
            0xE0 => Operation::Compare(Register::X, AddressingMode::Immediate),
            0xE4 => Operation::Compare(Register::X, AddressingMode::ZeroPage),
            0xEC => Operation::Compare(Register::X, AddressingMode::Absolute),
            0xC0 => Operation::Compare(Register::Y, AddressingMode::Immediate),
            0xC4 => Operation::Compare(Register::Y, AddressingMode::ZeroPage),
            0xCC => Operation::Compare(Register::Y, AddressingMode::Absolute),
            0x24 => Operation::Bits(AddressingMode::ZeroPage),
            0x2C => Operation::Bits(AddressingMode::Absolute),
            0xE6 => Operation::Inc(None, Some(AddressingMode::ZeroPage)),
            0xF6 => Operation::Inc(None, Some(AddressingMode::ZeroPageX)),
            0xEE => Operation::Inc(None, Some(AddressingMode::Absolute)),
            0xFE => Operation::Inc(None, Some(AddressingMode::AbsoluteX(false))),
            0xE8 => Operation::Inc(Some(Register::X), None),
            0xC8 => Operation::Inc(Some(Register::Y), None),
            0xC6 => Operation::Dec(None, Some(AddressingMode::ZeroPage)),
            0xD6 => Operation::Dec(None, Some(AddressingMode::ZeroPageX)),
            0xCE => Operation::Dec(None, Some(AddressingMode::Absolute)),
            0xDE => Operation::Dec(None, Some(AddressingMode::AbsoluteX(false))),
            0xCA => Operation::Dec(Some(Register::X), None),
            0x88 => Operation::Dec(Some(Register::Y), None),
            0x0A => Operation::Asl(None),
            0x06 => Operation::Asl(Some(AddressingMode::ZeroPage)),
            0x16 => Operation::Asl(Some(AddressingMode::ZeroPageX)),
            0x0E => Operation::Asl(Some(AddressingMode::Absolute)),
            0x1E => Operation::Asl(Some(AddressingMode::AbsoluteX(false))),
            0x4A => Operation::Lsr(None),
            0x46 => Operation::Lsr(Some(AddressingMode::ZeroPage)),
            0x56 => Operation::Lsr(Some(AddressingMode::ZeroPageX)),
            0x4E => Operation::Lsr(Some(AddressingMode::Absolute)),
            0x5E => Operation::Lsr(Some(AddressingMode::AbsoluteX(false))),
            0x2A => Operation::Rol(None),
            0x26 => Operation::Rol(Some(AddressingMode::ZeroPage)),
            0x36 => Operation::Rol(Some(AddressingMode::ZeroPageX)),
            0x2E => Operation::Rol(Some(AddressingMode::Absolute)),
            0x3E => Operation::Rol(Some(AddressingMode::AbsoluteX(false))),
            0x6A => Operation::Ror(None),
            0x66 => Operation::Ror(Some(AddressingMode::ZeroPage)),
            0x76 => Operation::Ror(Some(AddressingMode::ZeroPageX)),
            0x6E => Operation::Ror(Some(AddressingMode::Absolute)),
            0x7E => Operation::Ror(Some(AddressingMode::AbsoluteX(false))),
            0x10 => Operation::Branch(Flag::Negative, false),
            0x30 => Operation::Branch(Flag::Negative, true),
            0x50 => Operation::Branch(Flag::Overflow, false),
            0x70 => Operation::Branch(Flag::Overflow, true),
            0x90 => Operation::Branch(Flag::Carry, false),
            0xB0 => Operation::Branch(Flag::Carry, true),
            0xD0 => Operation::Branch(Flag::Zero, false),
            0xF0 => Operation::Branch(Flag::Zero, true),
            0x4C => Operation::Jump(Some(AddressingMode::Absolute)),
            0x6C => Operation::Jump(Some(AddressingMode::Indirect)),
            0x20 => Operation::Jump(None),
            0x60 => Operation::Ret(true),
            0x40 => Operation::Ret(false),
            0x18 => Operation::Flag(Flag::Carry, false),
            0x38 => Operation::Flag(Flag::Carry, true),
            0x58 => Operation::Flag(Flag::Interrupt, false),
            0x78 => Operation::Flag(Flag::Interrupt, true),
            0xB8 => Operation::Flag(Flag::Overflow, false),
            0xD8 => Operation::Flag(Flag::Decimal, false),
            0xF8 => Operation::Flag(Flag::Decimal, true),
            0x48 => Operation::Stack(Register::A, true),
            0x08 => Operation::Stack(Register::P, true),
            0x68 => Operation::Stack(Register::A, false),
            0x28 => Operation::Stack(Register::P, false),
            0x00 => Operation::Break,
            0xEA | 0x1A | 0x3A | 0x5A | 0x7A | 0xDA | 0xFA => Operation::Nop(None),
            0x80 | 0x82 | 0x89 | 0xC2 | 0xE2 => Operation::Nop(Some(AddressingMode::Immediate)),
            0x04 | 0x44 | 0x64 => Operation::Nop(Some(AddressingMode::ZeroPage)),
            0x14 | 0x34 | 0x54 | 0x74 | 0xD4 | 0xF4 => Operation::Nop(
                Some(AddressingMode::ZeroPageX),
            ),
            0x0C => Operation::Nop(Some(AddressingMode::Absolute)),
            0x1C | 0x3C | 0x5C | 0x7C | 0xDC | 0xFC => Operation::Nop(
                Some(AddressingMode::AbsoluteX(true)),
            ),
            0xA7 => Operation::Lax(AddressingMode::ZeroPage),
            0xB7 => Operation::Lax(AddressingMode::ZeroPageY),
            0xAF => Operation::Lax(AddressingMode::Absolute),
            0xBF => Operation::Lax(AddressingMode::AbsoluteY(true)),
            0xA3 => Operation::Lax(AddressingMode::IndirectX),
            0xB3 => Operation::Lax(AddressingMode::IndirectY(true)),
            0x87 => Operation::Sax(AddressingMode::ZeroPage),
            0x97 => Operation::Sax(AddressingMode::ZeroPageY),
            0x8F => Operation::Sax(AddressingMode::Absolute),
            0x83 => Operation::Sax(AddressingMode::IndirectX),
            0xC7 => Operation::Dcp(AddressingMode::ZeroPage),
            0xD7 => Operation::Dcp(AddressingMode::ZeroPageX),
            0xCF => Operation::Dcp(AddressingMode::Absolute),
            0xDF => Operation::Dcp(AddressingMode::AbsoluteX(false)),
            0xDB => Operation::Dcp(AddressingMode::AbsoluteY(false)),
            0xC3 => Operation::Dcp(AddressingMode::IndirectX),
            0xD3 => Operation::Dcp(AddressingMode::IndirectY(false)),
            0xE7 => Operation::Isb(AddressingMode::ZeroPage),
            0xF7 => Operation::Isb(AddressingMode::ZeroPageX),
            0xEF => Operation::Isb(AddressingMode::Absolute),
            0xFF => Operation::Isb(AddressingMode::AbsoluteX(false)),
            0xFB => Operation::Isb(AddressingMode::AbsoluteY(false)),
            0xE3 => Operation::Isb(AddressingMode::IndirectX),
            0xF3 => Operation::Isb(AddressingMode::IndirectY(false)),
            0x07 => Operation::Slo(AddressingMode::ZeroPage),
            0x17 => Operation::Slo(AddressingMode::ZeroPageX),
            0x0F => Operation::Slo(AddressingMode::Absolute),
            0x1F => Operation::Slo(AddressingMode::AbsoluteX(false)),
            0x1B => Operation::Slo(AddressingMode::AbsoluteY(false)),
            0x03 => Operation::Slo(AddressingMode::IndirectX),
            0x13 => Operation::Slo(AddressingMode::IndirectY(false)),
            0x27 => Operation::Rla(AddressingMode::ZeroPage),
            0x37 => Operation::Rla(AddressingMode::ZeroPageX),
            0x2F => Operation::Rla(AddressingMode::Absolute),
            0x3F => Operation::Rla(AddressingMode::AbsoluteX(false)),
            0x3B => Operation::Rla(AddressingMode::AbsoluteY(false)),
            0x23 => Operation::Rla(AddressingMode::IndirectX),
            0x33 => Operation::Rla(AddressingMode::IndirectY(false)),
            0x47 => Operation::Sre(AddressingMode::ZeroPage),
            0x57 => Operation::Sre(AddressingMode::ZeroPageX),
            0x4F => Operation::Sre(AddressingMode::Absolute),
            0x5F => Operation::Sre(AddressingMode::AbsoluteX(false)),
            0x5B => Operation::Sre(AddressingMode::AbsoluteY(false)),
            0x43 => Operation::Sre(AddressingMode::IndirectX),
            0x53 => Operation::Sre(AddressingMode::IndirectY(false)),
            0x67 => Operation::Rra(AddressingMode::ZeroPage),
            0x77 => Operation::Rra(AddressingMode::ZeroPageX),
            0x6F => Operation::Rra(AddressingMode::Absolute),
            0x7F => Operation::Rra(AddressingMode::AbsoluteX(false)),
            0x7B => Operation::Rra(AddressingMode::AbsoluteY(false)),
            0x63 => Operation::Rra(AddressingMode::IndirectX),
            0x73 => Operation::Rra(AddressingMode::IndirectY(false)),
            0x0B | 0x2B => Operation::Aac(AddressingMode::Immediate),
            0x4B => Operation::Asr(AddressingMode::Immediate),
            0x6B => Operation::Arr(AddressingMode::Immediate),
            0xAB => Operation::Atx(AddressingMode::Immediate),
            0xCB => Operation::Axs(AddressingMode::Immediate),
            0x9C => Operation::Sa(Register::Y, AddressingMode::AbsoluteX(false)),
            0x9E => Operation::Sa(Register::X, AddressingMode::AbsoluteY(false)),
            0x93 => Operation::Sha(AddressingMode::IndirectY(false)),
            0x9F => Operation::Sha(AddressingMode::AbsoluteY(false)),
            0x9B => Operation::Tas(AddressingMode::AbsoluteY(false)),
            _ => Operation::BadOp,
        }
    }
}

impl From<u8> for Operation {
    fn from(b: u8) -> (ins: Operation) {
        Operation::from_byte(b)
    }
}

impl FromSpecImpl<u8> for Operation {
    open spec fn obeys_from_spec() -> bool {
        true
    }

    open spec fn from_spec(b: u8) -> Operation {
        decode(b)
    }
}

} // verus!
