use nesmesis::cpu::ops::{AddressingMode, Operation};
use nesmesis::cpu::reg::{Flag, Register};

#[test]
fn loads_and_stores() {
    assert_eq!(
        Operation::from_byte(0xA9),
        Operation::Load(Register::A, AddressingMode::Immediate)
    );
    assert_eq!(
        Operation::from_byte(0xB1),
        Operation::Load(Register::A, AddressingMode::IndirectY(true))
    );
    assert_eq!(
        Operation::from_byte(0xBE),
        Operation::Load(Register::X, AddressingMode::AbsoluteY(true))
    );
    assert_eq!(
        Operation::from_byte(0xB6),
        Operation::Load(Register::X, AddressingMode::ZeroPageY)
    );
    assert_eq!(
        Operation::from_byte(0xBC),
        Operation::Load(Register::Y, AddressingMode::AbsoluteX(true))
    );
    assert_eq!(
        Operation::from_byte(0x9D),
        Operation::Store(Register::A, AddressingMode::AbsoluteX(false))
    );
    assert_eq!(
        Operation::from_byte(0x91),
        Operation::Store(Register::A, AddressingMode::IndirectY(false))
    );
    assert_eq!(
        Operation::from_byte(0x96),
        Operation::Store(Register::X, AddressingMode::ZeroPageY)
    );
    assert_eq!(
        Operation::from_byte(0x8C),
        Operation::Store(Register::Y, AddressingMode::Absolute)
    );
}

#[test]
fn conversion_from_a_byte_decodes() {
    for b in 0..=255u8 {
        assert_eq!(Operation::from(b), Operation::from_byte(b));
    }
    let ins: Operation = 0xEA.into();
    assert_eq!(ins, Operation::Nop(None));
}

#[test]
fn control_flow() {
    assert_eq!(Operation::from_byte(0x00), Operation::Break);
    assert_eq!(Operation::from_byte(0x20), Operation::Jump(None));
    assert_eq!(
        Operation::from_byte(0x4C),
        Operation::Jump(Some(AddressingMode::Absolute))
    );
    assert_eq!(
        Operation::from_byte(0x6C),
        Operation::Jump(Some(AddressingMode::Indirect))
    );
    assert_eq!(Operation::from_byte(0x60), Operation::Ret(true));
    assert_eq!(Operation::from_byte(0x40), Operation::Ret(false));
    assert_eq!(Operation::from_byte(0x10), Operation::Branch(Flag::Negative, false));
    assert_eq!(Operation::from_byte(0x30), Operation::Branch(Flag::Negative, true));
    assert_eq!(Operation::from_byte(0x50), Operation::Branch(Flag::Overflow, false));
    assert_eq!(Operation::from_byte(0x70), Operation::Branch(Flag::Overflow, true));
    assert_eq!(Operation::from_byte(0x90), Operation::Branch(Flag::Carry, false));
    assert_eq!(Operation::from_byte(0xB0), Operation::Branch(Flag::Carry, true));
    assert_eq!(Operation::from_byte(0xD0), Operation::Branch(Flag::Zero, false));
    assert_eq!(Operation::from_byte(0xF0), Operation::Branch(Flag::Zero, true));
}

#[test]
fn one_byte_instructions() {
    assert_eq!(Operation::from_byte(0xAA), Operation::Transfer(Register::A, Register::X));
    assert_eq!(Operation::from_byte(0xA8), Operation::Transfer(Register::A, Register::Y));
    assert_eq!(Operation::from_byte(0x8A), Operation::Transfer(Register::X, Register::A));
    assert_eq!(Operation::from_byte(0x98), Operation::Transfer(Register::Y, Register::A));
    assert_eq!(Operation::from_byte(0xBA), Operation::Transfer(Register::SP, Register::X));
    assert_eq!(Operation::from_byte(0x9A), Operation::Transfer(Register::X, Register::SP));
    assert_eq!(Operation::from_byte(0xE8), Operation::Inc(Some(Register::X), None));
    assert_eq!(Operation::from_byte(0xC8), Operation::Inc(Some(Register::Y), None));
    assert_eq!(Operation::from_byte(0xCA), Operation::Dec(Some(Register::X), None));
    assert_eq!(Operation::from_byte(0x88), Operation::Dec(Some(Register::Y), None));
    assert_eq!(Operation::from_byte(0x0A), Operation::Asl(None));
    assert_eq!(Operation::from_byte(0x4A), Operation::Lsr(None));
    assert_eq!(Operation::from_byte(0x2A), Operation::Rol(None));
    assert_eq!(Operation::from_byte(0x6A), Operation::Ror(None));
    assert_eq!(Operation::from_byte(0x48), Operation::Stack(Register::A, true));
    assert_eq!(Operation::from_byte(0x08), Operation::Stack(Register::P, true));
    assert_eq!(Operation::from_byte(0x68), Operation::Stack(Register::A, false));
    assert_eq!(Operation::from_byte(0x28), Operation::Stack(Register::P, false));
    assert_eq!(Operation::from_byte(0x18), Operation::Flag(Flag::Carry, false));
    assert_eq!(Operation::from_byte(0x38), Operation::Flag(Flag::Carry, true));
    assert_eq!(Operation::from_byte(0x58), Operation::Flag(Flag::Interrupt, false));
    assert_eq!(Operation::from_byte(0x78), Operation::Flag(Flag::Interrupt, true));
    assert_eq!(Operation::from_byte(0xB8), Operation::Flag(Flag::Overflow, false));
    assert_eq!(Operation::from_byte(0xD8), Operation::Flag(Flag::Decimal, false));
    assert_eq!(Operation::from_byte(0xF8), Operation::Flag(Flag::Decimal, true));
    assert_eq!(Operation::from_byte(0xEA), Operation::Nop(None));
}

#[test]
fn read_modify_write_never_pays_for_a_page() {
    for b in [0x1E, 0x3E, 0x5E, 0x7E, 0xDE, 0xFE, 0x1F, 0x3F, 0x5F, 0x7F, 0xDF, 0xFF] {
        let mode = match Operation::from_byte(b) {
            Operation::Asl(Some(m))
            | Operation::Rol(Some(m))
            | Operation::Lsr(Some(m))
            | Operation::Ror(Some(m))
            | Operation::Dec(None, Some(m))
            | Operation::Inc(None, Some(m))
            | Operation::Slo(m)
            | Operation::Rla(m)
            | Operation::Sre(m)
            | Operation::Rra(m)
            | Operation::Dcp(m)
            | Operation::Isb(m) => m,
            other => panic!("{:02X} decodes to {:?}", b, other),
        };
        assert_eq!(mode, AddressingMode::AbsoluteX(false));
    }
}

#[test]
fn undocumented_instructions() {
    assert_eq!(Operation::from_byte(0xA7), Operation::Lax(AddressingMode::ZeroPage));
    assert_eq!(Operation::from_byte(0xB7), Operation::Lax(AddressingMode::ZeroPageY));
    assert_eq!(Operation::from_byte(0xBF), Operation::Lax(AddressingMode::AbsoluteY(true)));
    assert_eq!(Operation::from_byte(0xB3), Operation::Lax(AddressingMode::IndirectY(true)));
    assert_eq!(Operation::from_byte(0x87), Operation::Sax(AddressingMode::ZeroPage));
    assert_eq!(Operation::from_byte(0x97), Operation::Sax(AddressingMode::ZeroPageY));
    assert_eq!(Operation::from_byte(0x83), Operation::Sax(AddressingMode::IndirectX));
    assert_eq!(Operation::from_byte(0xC3), Operation::Dcp(AddressingMode::IndirectX));
    assert_eq!(Operation::from_byte(0xDB), Operation::Dcp(AddressingMode::AbsoluteY(false)));
    assert_eq!(Operation::from_byte(0xF3), Operation::Isb(AddressingMode::IndirectY(false)));
    assert_eq!(Operation::from_byte(0x07), Operation::Slo(AddressingMode::ZeroPage));
    assert_eq!(Operation::from_byte(0x37), Operation::Rla(AddressingMode::ZeroPageX));
    assert_eq!(Operation::from_byte(0x4F), Operation::Sre(AddressingMode::Absolute));
    assert_eq!(Operation::from_byte(0x7B), Operation::Rra(AddressingMode::AbsoluteY(false)));
    assert_eq!(Operation::from_byte(0x0B), Operation::Aac(AddressingMode::Immediate));
    assert_eq!(Operation::from_byte(0x2B), Operation::Aac(AddressingMode::Immediate));
    assert_eq!(Operation::from_byte(0x4B), Operation::Asr(AddressingMode::Immediate));
    assert_eq!(Operation::from_byte(0x6B), Operation::Arr(AddressingMode::Immediate));
    assert_eq!(Operation::from_byte(0xAB), Operation::Atx(AddressingMode::Immediate));
    assert_eq!(Operation::from_byte(0xCB), Operation::Axs(AddressingMode::Immediate));
    assert_eq!(Operation::from_byte(0xEB), Operation::Sub(AddressingMode::Immediate));
    assert_eq!(
        Operation::from_byte(0x9C),
        Operation::Sa(Register::Y, AddressingMode::AbsoluteX(false))
    );
    assert_eq!(
        Operation::from_byte(0x9E),
        Operation::Sa(Register::X, AddressingMode::AbsoluteY(false))
    );
    assert_eq!(
        Operation::from_byte(0x93),
        Operation::Sha(AddressingMode::IndirectY(false))
    );
    assert_eq!(
        Operation::from_byte(0x9F),
        Operation::Sha(AddressingMode::AbsoluteY(false))
    );
    assert_eq!(
        Operation::from_byte(0x9B),
        Operation::Tas(AddressingMode::AbsoluteY(false))
    );
    for b in [0x1A, 0x3A, 0x5A, 0x7A, 0xDA, 0xFA] {
        assert_eq!(Operation::from_byte(b), Operation::Nop(None));
    }
    for b in [0x80, 0x82, 0x89, 0xC2, 0xE2] {
        assert_eq!(
            Operation::from_byte(b),
            Operation::Nop(Some(AddressingMode::Immediate))
        );
    }
    for b in [0x04, 0x44, 0x64] {
        assert_eq!(
            Operation::from_byte(b),
            Operation::Nop(Some(AddressingMode::ZeroPage))
        );
    }
    for b in [0x14, 0x34, 0x54, 0x74, 0xD4, 0xF4] {
        assert_eq!(
            Operation::from_byte(b),
            Operation::Nop(Some(AddressingMode::ZeroPageX))
        );
    }
    assert_eq!(
        Operation::from_byte(0x0C),
        Operation::Nop(Some(AddressingMode::Absolute))
    );
    for b in [0x1C, 0x3C, 0x5C, 0x7C, 0xDC, 0xFC] {
        assert_eq!(
            Operation::from_byte(b),
            Operation::Nop(Some(AddressingMode::AbsoluteX(true)))
        );
    }
}

#[test]
fn bytes_without_an_instruction() {
    let bad = [
        0x02u8, 0x12, 0x22, 0x32, 0x42, 0x52, 0x62, 0x72, 0x92, 0xB2, 0xD2, 0xF2, 0x8B, 0xBB,
    ];
    for b in 0..=255u8 {
        assert_eq!(Operation::from_byte(b) == Operation::BadOp, bad.contains(&b));
    }
}

#[test]
fn the_documented_opcodes_number_151() {
    let documented = (0..=255u8)
        .filter(|b| {
            let undocumented_twin = [0xEBu8, 0x1A, 0x3A, 0x5A, 0x7A, 0xDA, 0xFA].contains(b);
            let documented_kind = matches!(
                Operation::from_byte(*b),
                Operation::Load(..)
                    | Operation::Store(..)
                    | Operation::Transfer(..)
                    | Operation::Add(..)
                    | Operation::Inc(..)
                    | Operation::Dec(..)
                    | Operation::Sub(..)
                    | Operation::And(..)
                    | Operation::Asl(..)
                    | Operation::Bits(..)
                    | Operation::Xor(..)
                    | Operation::Lsr(..)
                    | Operation::Or(..)
                    | Operation::Rol(..)
                    | Operation::Ror(..)
                    | Operation::Branch(..)
                    | Operation::Jump(..)
                    | Operation::Ret(..)
                    | Operation::Flag(..)
                    | Operation::Compare(..)
                    | Operation::Stack(..)
                    | Operation::Break
                    | Operation::Nop(None)
            );
            documented_kind && !undocumented_twin
        })
        .count();
    assert_eq!(documented, 151);
}
