//! The register file: A, X, Y, SP, PC and the processor status P.

use vstd::prelude::*;

verus! {

/// The 8-bit registers.
#[derive(Clone, Copy, Debug, PartialEq, Eq)]
pub enum Register {
    A,
    X,
    Y,
    P,
    SP,
}

/// The flags of P that instructions test and update.
#[derive(Clone, Copy, Debug, PartialEq, Eq)]
pub enum Flag {
    Overflow,
    Negative,
    Zero,
    Carry,
    Decimal,
    Interrupt,
}

/// Bit 7 of P: the negative flag.
pub const NEGATIVE: u8 = 0x80;

/// Bit 6 of P: the overflow flag.
pub const OVERFLOW: u8 = 0x40;

/// Bit 5 of P, which reads as one.
pub const ALWAYS_ONE: u8 = 0x20;

/// Bit 4 of P: the break flag, which has a meaning only in a pushed byte.
pub const BREAK: u8 = 0x10;

/// Bit 3 of P: the decimal flag.
pub const DECIMAL: u8 = 0x08;

/// Bit 2 of P: the interrupt-disable flag.
pub const INTERRUPT: u8 = 0x04;

/// Bit 1 of P: the zero flag.
pub const ZERO: u8 = 0x02;

/// Bit 0 of P: the carry flag.
pub const CARRY: u8 = 0x01;

/// Whether the byte `v` has the bit that the one-bit mask `m` selects.
pub open spec fn has_bit(v: u8, m: u8) -> bool {
    v / m % 2 == 1
}

/// The processor status as a record of its eight bits, bit 7 first.
pub struct Status {
    pub negative: bool,
    pub overflow: bool,
    pub always_one: bool,
    pub brk: bool,
    pub decimal: bool,
    pub interrupt: bool,
    pub zero: bool,
    pub carry: bool,
}

impl Status {
    /// The record that the byte `b` encodes.
    pub open spec fn of(b: u8) -> Status {
        Status {
            negative: has_bit(b, NEGATIVE),
            overflow: has_bit(b, OVERFLOW),
            always_one: has_bit(b, ALWAYS_ONE),
            brk: has_bit(b, BREAK),
            decimal: has_bit(b, DECIMAL),
            interrupt: has_bit(b, INTERRUPT),
            zero: has_bit(b, ZERO),
            carry: has_bit(b, CARRY),
        }
    }

    /// The byte that encodes this record.
    pub open spec fn bits(self) -> u8 {
        ((if self.negative { 128int } else { 0 })
            + (if self.overflow { 64int } else { 0 })
            + (if self.always_one { 32int } else { 0 })
            + (if self.brk { 16int } else { 0 })
            + (if self.decimal { 8int } else { 0 })
            + (if self.interrupt { 4int } else { 0 })
            + (if self.zero { 2int } else { 0 })
            + (if self.carry { 1int } else { 0 })) as u8
    }

    /// Whether the flag `f` is set.
    pub open spec fn flag(self, f: Flag) -> bool {
        match f {
            Flag::Overflow => self.overflow,
            Flag::Negative => self.negative,
            Flag::Zero => self.zero,
            Flag::Carry => self.carry,
            Flag::Decimal => self.decimal,
            Flag::Interrupt => self.interrupt,
        }
    }

    /// The status with the flag `f` set or cleared.
    pub open spec fn with_flag(self, f: Flag, on: bool) -> Status {
        match f {
            Flag::Overflow => Status { overflow: on, ..self },
            Flag::Negative => Status { negative: on, ..self },
            Flag::Zero => Status { zero: on, ..self },
            Flag::Carry => Status { carry: on, ..self },
            Flag::Decimal => Status { decimal: on, ..self },
            Flag::Interrupt => Status { interrupt: on, ..self },
        }
    }

    /// Zero and negative as the value `v` has them.
    pub open spec fn with_zn(self, v: u8) -> Status {
        Status { zero: v == 0, negative: v >= 0x80, ..self }
    }

    /// Carry and overflow of the 16-bit sum `r` of the operands `x` and `y`.
    pub open spec fn with_cv(self, x: u8, y: u8, r: u16) -> Status {
        Status { carry: r > 0xFF, overflow: sum_overflows(x, y, r), ..self }
    }

    /// The status that a restore of the byte `v` leaves: B is dropped and
    /// bit 5 reads as one.
    pub open spec fn restored(v: u8) -> Status {
        Status { always_one: true, brk: false, ..Status::of(v) }
    }
}

/// The overflow rule of the adder: the operands agree in sign and the sum
/// does not.
pub open spec fn sum_overflows(x: u8, y: u8, r: u16) -> bool {
    ((!(x ^ y)) as u16) & ((x as u16) ^ r) & 0x80 != 0
}

/// What the register file holds.
pub struct RegState {
    pub a: u8,
    pub x: u8,
    pub y: u8,
    pub p: Status,
    pub sp: u8,
    pub pc: u16,
}

impl RegState {
    /// Every register zero, every flag clear.
    pub open spec fn zeroed() -> RegState {
        RegState { a: 0, x: 0, y: 0, p: Status::of(0), sp: 0, pc: 0 }
    }

    /// The value of the register `r`; for P, the byte that encodes it.
    pub open spec fn read(self, r: Register) -> u8 {
        match r {
            Register::A => self.a,
            Register::X => self.x,
            Register::Y => self.y,
            Register::P => self.p.bits(),
            Register::SP => self.sp,
        }
    }

    /// A store to a register: A, X and Y take Z and N from the value, P drops
    /// B and forces bit 5, SP takes the value as it is.
    pub open spec fn write(self, r: Register, v: u8) -> RegState {
        match r {
            Register::A => RegState { a: v, p: self.p.with_zn(v), ..self },
            Register::X => RegState { x: v, p: self.p.with_zn(v), ..self },
            Register::Y => RegState { y: v, p: self.p.with_zn(v), ..self },
            Register::P => RegState { p: Status::restored(v), ..self },
            Register::SP => RegState { sp: v, ..self },
        }
    }

    /// The same registers with another PC.
    pub open spec fn with_pc(self, pc: u16) -> RegState {
        RegState { pc, ..self }
    }

    /// Whether the flag `f` is set.
    pub open spec fn flag(self, f: Flag) -> bool {
        self.p.flag(f)
    }

    /// The same registers with the flag `f` set or cleared.
    pub open spec fn with_flag(self, f: Flag, on: bool) -> RegState {
        RegState { p: self.p.with_flag(f, on), ..self }
    }

    /// The same registers with Z and N as the value `v` has them.
    pub open spec fn with_zn(self, v: u8) -> RegState {
        RegState { p: self.p.with_zn(v), ..self }
    }

    /// The same registers with C and V as the sum `r` of `x` and `y` has
    /// them.
    pub open spec fn with_cv(self, x: u8, y: u8, r: u16) -> RegState {
        RegState { p: self.p.with_cv(x, y, r), ..self }
    }
}

/// Testing a byte against a one-bit mask finds the bit that the mask
/// selects.
pub proof fn lemma_masks(v: u8)
    ensures
        (v & 0x80 == 0x80) == has_bit(v, 0x80),
        (v & 0x40 == 0x40) == has_bit(v, 0x40),
        (v & 0x20 == 0x20) == has_bit(v, 0x20),
        (v & 0x10 == 0x10) == has_bit(v, 0x10),
        (v & 0x08 == 0x08) == has_bit(v, 0x08),
        (v & 0x04 == 0x04) == has_bit(v, 0x04),
        (v & 0x02 == 0x02) == has_bit(v, 0x02),
        (v & 0x01 == 0x01) == has_bit(v, 0x01),
        has_bit(v, 0x80) == (v >= 0x80),
        has_bit(v, 0x01) == (v % 2 == 1),
{
    assert((v & 0x80 == 0x80) == (v / 128 % 2 == 1) && (v & 0x40 == 0x40) == (v / 64 % 2 == 1) && (
    v & 0x20 == 0x20) == (v / 32 % 2 == 1) && (v & 0x10 == 0x10) == (v / 16 % 2 == 1) && (v & 0x08
        == 0x08) == (v / 8 % 2 == 1) && (v & 0x04 == 0x04) == (v / 4 % 2 == 1) && (v & 0x02
        == 0x02) == (v / 2 % 2 == 1) && (v & 0x01 == 0x01) == (v % 2 == 1)) by (bit_vector);
}

/// A mask that selects exactly one bit of a byte.
pub open spec fn single_bit(m: u8) -> bool {
    m == 0x80 || m == 0x40 || m == 0x20 || m == 0x10 || m == 0x08 || m == 0x04 || m == 0x02 || m
        == 0x01
}

/// Or-ing a one-bit mask into a status byte sets that bit of the record and
/// keeps the other seven.
pub proof fn lemma_status_set(p: u8, m: u8)
    requires
        single_bit(m),
    ensures
        Status::of(p | m).negative == (Status::of(p).negative || m == NEGATIVE),
        Status::of(p | m).overflow == (Status::of(p).overflow || m == OVERFLOW),
        Status::of(p | m).always_one == (Status::of(p).always_one || m == ALWAYS_ONE),
        Status::of(p | m).brk == (Status::of(p).brk || m == BREAK),
        Status::of(p | m).decimal == (Status::of(p).decimal || m == DECIMAL),
        Status::of(p | m).interrupt == (Status::of(p).interrupt || m == INTERRUPT),
        Status::of(p | m).zero == (Status::of(p).zero || m == ZERO),
        Status::of(p | m).carry == (Status::of(p).carry || m == CARRY),
{
    let q = p | m;
    assert(((q / 128 % 2 == 1) == (p / 128 % 2 == 1 || m == 0x80)) && ((q / 64 % 2 == 1) == (p / 64
        % 2 == 1 || m == 0x40)) && ((q / 32 % 2 == 1) == (p / 32 % 2 == 1 || m == 0x20)) && ((q
        / 16 % 2 == 1) == (p / 16 % 2 == 1 || m == 0x10)) && ((q / 8 % 2 == 1) == (p / 8 % 2 == 1
        || m == 0x08)) && ((q / 4 % 2 == 1) == (p / 4 % 2 == 1 || m == 0x04)) && ((q / 2 % 2
        == 1) == (p / 2 % 2 == 1 || m == 0x02)) && ((q % 2 == 1) == (p % 2 == 1 || m == 0x01)))
        by (bit_vector)
        requires
            q == p | m,
            m == 0x80 || m == 0x40 || m == 0x20 || m == 0x10 || m == 0x08 || m == 0x04 || m
                == 0x02 || m == 0x01,
    ;
}

/// And-ing a status byte with the complement of a one-bit mask clears that
/// bit of the record and keeps the other seven.
pub proof fn lemma_status_clear(p: u8, m: u8)
    requires
        single_bit(m),
    ensures
        Status::of(p & !m).negative == (Status::of(p).negative && m != NEGATIVE),
        Status::of(p & !m).overflow == (Status::of(p).overflow && m != OVERFLOW),
        Status::of(p & !m).always_one == (Status::of(p).always_one && m != ALWAYS_ONE),
        Status::of(p & !m).brk == (Status::of(p).brk && m != BREAK),
        Status::of(p & !m).decimal == (Status::of(p).decimal && m != DECIMAL),
        Status::of(p & !m).interrupt == (Status::of(p).interrupt && m != INTERRUPT),
        Status::of(p & !m).zero == (Status::of(p).zero && m != ZERO),
        Status::of(p & !m).carry == (Status::of(p).carry && m != CARRY),
{
    let q = p & !m;
    assert(((q / 128 % 2 == 1) == (p / 128 % 2 == 1 && m != 0x80)) && ((q / 64 % 2 == 1) == (p / 64
        % 2 == 1 && m != 0x40)) && ((q / 32 % 2 == 1) == (p / 32 % 2 == 1 && m != 0x20)) && ((q
        / 16 % 2 == 1) == (p / 16 % 2 == 1 && m != 0x10)) && ((q / 8 % 2 == 1) == (p / 8 % 2 == 1
        && m != 0x08)) && ((q / 4 % 2 == 1) == (p / 4 % 2 == 1 && m != 0x04)) && ((q / 2 % 2
        == 1) == (p / 2 % 2 == 1 && m != 0x02)) && ((q % 2 == 1) == (p % 2 == 1 && m != 0x01)))
        by (bit_vector)
        requires
            q == p & !m,
            m == 0x80 || m == 0x40 || m == 0x20 || m == 0x10 || m == 0x08 || m == 0x04 || m
                == 0x02 || m == 0x01,
    ;
}

/// The byte `(v & 0xCF) | 0x20` encodes the status that a restore of `v`
/// leaves.
pub proof fn lemma_status_restored(v: u8)
    ensures
        Status::of((v & 0xCF) | 0x20) == Status::restored(v),
        Status::restored(v).bits() == (v & 0xCF) | 0x20,
{
    let q = (v & 0xCF) | 0x20;
    assert(((q / 128 % 2 == 1) == (v / 128 % 2 == 1)) && ((q / 64 % 2 == 1) == (v / 64 % 2 == 1))
        && (q / 32 % 2 == 1) && !(q / 16 % 2 == 1) && ((q / 8 % 2 == 1) == (v / 8 % 2 == 1)) && ((q
        / 4 % 2 == 1) == (v / 4 % 2 == 1)) && ((q / 2 % 2 == 1) == (v / 2 % 2 == 1)) && ((q % 2
        == 1) == (v % 2 == 1))) by (bit_vector)
        requires
            q == (v & 0xCF) | 0x20,
    ;
    lemma_status_bits(q);
}

/// A status byte and its record determine each other.
pub proof fn lemma_status_bits(p: u8)
    ensures
        Status::of(p).bits() == p,
{
    assert((if p / 128 % 2 == 1 { 128u16 } else { 0 }) + (if p / 64 % 2 == 1 { 64u16 } else { 0 })
        + (if p / 32 % 2 == 1 { 32u16 } else { 0 }) + (if p / 16 % 2 == 1 { 16u16 } else { 0 }) + (
    if p / 8 % 2 == 1 { 8u16 } else { 0 }) + (if p / 4 % 2 == 1 { 4u16 } else { 0 }) + (if p / 2
        % 2 == 1 { 2u16 } else { 0 }) + (if p % 2 == 1 { 1u16 } else { 0 }) == p) by (bit_vector);
}

/// A record is the one that its byte encodes.
pub proof fn lemma_bits_status(s: Status)
    ensures
        Status::of(s.bits()) == s,
{
    let n: u8 = if s.negative { 128 } else { 0 };
    let v: u8 = if s.overflow { 64 } else { 0 };
    let u: u8 = if s.always_one { 32 } else { 0 };
    let b: u8 = if s.brk { 16 } else { 0 };
    let d: u8 = if s.decimal { 8 } else { 0 };
    let i: u8 = if s.interrupt { 4 } else { 0 };
    let z: u8 = if s.zero { 2 } else { 0 };
    let c: u8 = if s.carry { 1 } else { 0 };
    let p: u8 = (n + v + u + b + d + i + z + c) as u8;
    assert(p == s.bits());
    assert((p / 128 % 2 == 1) == (n == 128) && (p / 64 % 2 == 1) == (v == 64) && (p / 32 % 2 == 1)
        == (u == 32) && (p / 16 % 2 == 1) == (b == 16) && (p / 8 % 2 == 1) == (d == 8) && (p / 4 % 2
        == 1) == (i == 4) && (p / 2 % 2 == 1) == (z == 2) && (p % 2 == 1) == (c == 1))
        by (bit_vector)
        requires
            p == n + v + u + b + d + i + z + c,
            n == 128 || n == 0,
            v == 64 || v == 0,
            u == 32 || u == 0,
            b == 16 || b == 0,
            d == 8 || d == 0,
            i == 4 || i == 0,
            z == 2 || z == 0,
            c == 1 || c == 0,
    ;
}

/// Setting bit 4 of a status byte sets B in the record and changes nothing
/// else.
pub proof fn lemma_status_break(s: Status)
    ensures
        Status::of(s.bits() | BREAK) == (Status { brk: true, ..s }),
{
    lemma_bits_status(s);
    lemma_status_set(s.bits(), BREAK);
}

/// The register file.
pub struct Registers {
    a: u8,
    x: u8,
    y: u8,
    p: u8,
    sp: u8,
    pc: u16,
}

impl View for Registers {
    type V = RegState;

    closed spec fn view(&self) -> RegState {
        RegState {
            a: self.a,
            x: self.x,
            y: self.y,
            p: Status::of(self.p),
            sp: self.sp,
            pc: self.pc,
        }
    }
}

impl Registers {
    /// A register file with every register zero and every flag clear.
    pub fn new() -> (r: Registers)
        ensures
            r@ == RegState::zeroed(),
    {
        Registers { a: 0, x: 0, y: 0, p: 0, sp: 0, pc: 0 }
    }

    /// The value of the register `a`.
    pub fn read(&self, a: Register) -> (v: u8)
        ensures
            v == self@.read(a),
    {
        proof {
            lemma_status_bits(self.p);
        }
        match a {
            Register::A => self.a,
            Register::P => self.p,
            Register::X => self.x,
            Register::Y => self.y,
            Register::SP => self.sp,
        }
    }

    /// Stores `v` in the register `a`. A store to A, X or Y sets Z and N
    /// from the value. A store to P drops B and forces bit 5: P takes
    /// `(v & 0xCF) | 0x20`. A store to SP changes nothing else.
    pub fn write(&mut self, a: Register, v: u8)
        ensures
            final(self)@ == old(self)@.write(a, v),
    {
        match a {
            Register::A => {
                self.update_zn(v);
                self.a = v;
            },
            Register::X => {
                self.update_zn(v);
                self.x = v;
            },
            Register::Y => {
                self.update_zn(v);
                self.y = v;
            },
            Register::P => {
                proof {
                    lemma_status_restored(v);
                }
                self.p = (v & 0xCF) | 0x20;
            },
            Register::SP => {
                self.sp = v;
            },
        }
    }

    /// The program counter.
    pub fn read_pc(&self) -> (pc: u16)
        ensures
            pc == self@.pc,
    {
        self.pc
    }

    /// Sets the program counter.
    pub fn write_pc(&mut self, v: u16)
        ensures
            final(self)@ == old(self)@.with_pc(v),
    {
        self.pc = v;
    }

    /// Whether the flag `f` is set.
    pub fn check_flag(&self, f: Flag) -> (on: bool)
        ensures
            on == self@.flag(f),
    {
        proof {
            lemma_masks(self.p);
        }
        match f {
            Flag::Interrupt => self.p & INTERRUPT == INTERRUPT,
            Flag::Overflow => self.p & OVERFLOW == OVERFLOW,
            Flag::Negative => self.p & NEGATIVE == NEGATIVE,
            Flag::Decimal => self.p & DECIMAL == DECIMAL,
            Flag::Carry => self.p & CARRY == CARRY,
            Flag::Zero => self.p & ZERO == ZERO,
        }
    }

    /// Sets the flag `f` where `v` holds, and clears it otherwise.
    pub fn update_flag(&mut self, f: Flag, v: bool)
        ensures
            final(self)@ == old(self)@.with_flag(f, v),
    {
        let m: u8 = match f {
            Flag::Interrupt => INTERRUPT,
            Flag::Overflow => OVERFLOW,
            Flag::Negative => NEGATIVE,
            Flag::Decimal => DECIMAL,
            Flag::Carry => CARRY,
            Flag::Zero => ZERO,
        };
        proof {
            lemma_status_set(self.p, m);
            lemma_status_clear(self.p, m);
        }
        if v {
            self.p = self.p | m;
        } else {
            self.p = self.p & !m;
        }
    }

    /// Sets Z where `v` is zero and N where bit 7 of `v` is set.
    pub fn update_zn(&mut self, v: u8)
        ensures
            final(self)@ == old(self)@.with_zn(v),
    {
        proof {
            lemma_masks(v);
        }
        self.update_flag(Flag::Zero, v == 0);
        self.update_flag(Flag::Negative, v & 0x80 == 0x80);
    }

    /// Sets C where the sum `r` exceeds 0xFF, and V where
    /// `(!(x ^ y) & (x ^ r) & 0x80) != 0`: the operands `x` and `y` agree in
    /// sign and the sum does not.
    pub fn update_cv(&mut self, x: u8, y: u8, r: u16)
        ensures
            final(self)@ == old(self)@.with_cv(x, y, r),
    {
        self.update_flag(Flag::Carry, r > 0xFF);
        self.update_flag(Flag::Overflow, ((!(x ^ y)) as u16) & ((x as u16) ^ r) & 0x80 != 0);
    }
}

impl Default for Registers {
    /// As `new`.
    fn default() -> (r: Registers)
        ensures
            r@ == RegState::zeroed(),
    {
        Registers::new()
    }
}

} // verus!
