//! The 6502 execution engine.

pub mod alu;
pub mod laws;
pub mod model;
pub mod ops;
pub mod reg;
pub mod timing;

use vstd::prelude::*;
use vstd::wrapping::u16_specs;
use crate::cpu::alu::{adc, compare, lemma_shifts, sa_value};
use crate::cpu::ops::decode;
use crate::cpu::model::{
    absolute, absolute_indexed, crosses, indirect, indirect_x, indirect_y, lemma_resolve_stable,
    lemma_run_keeps, modify, operand, reset, resolve, run, step, store_through, unknown,
    zero_page,
    zero_page_indexed, BusOp, Core, IRQ_VECTOR, NMI_VECTOR, RESET_VECTOR,
};
use crate::cpu::ops::{AddressingMode, Operation};
use crate::cpu::reg::{lemma_masks, Flag, RegState, Register, Registers};
use crate::cpu::timing::{lemma_reset_timing, lemma_step_timing, ticked};
use crate::MMU;

verus! {

/// Why a step of the engine failed.
#[derive(Clone, Copy, Debug, PartialEq, Eq)]
pub enum CpuError {
    /// The byte fetched as an opcode encodes no instruction.
    UnknownOpcode(u8),
}

/// What a step returns when it fetches the opcode `b`.
pub open spec fn verdict(b: u8) -> Result<(), CpuError> {
    if unknown(decode(b)) {
        Err(CpuError::UnknownOpcode(b))
    } else {
        Ok(())
    }
}

/// The engine: a register file, the bus it drives, and the NMI latch.
///
/// Beside them it keeps a record, for proofs only, of every operation it has
/// performed on the bus and of every byte the bus has answered. The engine
/// touches the bus in `tick`, `read` and `write` alone, and each of them
/// extends the record by what it does.
pub struct CPU<'a, B: MMU> {
    /// The register file.
    pub reg: Registers,
    /// The bus.
    pub bus: &'a mut B,
    /// Whether an NMI is latched. The surrounding system sets it; BRK
    /// consults it to choose its vector.
    pub nmi: bool,
    /// The operations performed on the bus, oldest first.
    pub ops: Ghost<Seq<BusOp>>,
    /// The bytes that the bus has answered to the reads, oldest first.
    pub inputs: Ghost<Seq<u8>>,
}

impl<'a, B: MMU> View for CPU<'a, B> {
    type V = Core;

    open spec fn view(&self) -> Core {
        Core { reg: self.reg@, nmi: self.nmi, ops: self.ops@, inputs: self.inputs@ }
    }
}

impl<'a, B: MMU> CPU<'a, B> {
    /// An engine on the bus `bus`, with zeroed registers, the NMI latch
    /// clear, and nothing done on the bus yet.
    pub fn new(bus: &'a mut B) -> (cpu: CPU<'a, B>)
        ensures
            cpu@ == (Core {
                reg: RegState::zeroed(),
                nmi: false,
                ops: Seq::empty(),
                inputs: Seq::empty(),
            }),
            ticked(cpu@.ops),
    {
        CPU {
            reg: Registers::default(),
            bus,
            nmi: false,
            ops: Ghost(Seq::empty()),
            inputs: Ghost(Seq::empty()),
        }
    }

    /// Resets the engine: PC is read from the reset vector, SP becomes 0xFD
    /// and P becomes 0x24. A cycle precedes each of the two reads.
    pub fn init(&mut self)
        ensures
            final(self)@ == reset(old(self)@, final(self)@.inputs),
            ticked(old(self)@.ops) ==> ticked(final(self)@.ops),
    {
        let ghost c0 = self@;
        let reset = self.read16(RESET_VECTOR);
        self.reg.write_pc(reset);
        self.reg.write(Register::SP, 0xFD);
        self.reg.write(Register::P, 0x24);
        proof {
            lemma_reset_timing(c0, self@.inputs);
        }
    }

    /// Runs one instruction: fetches the opcode at PC, decodes it, locates
    /// the operand and performs the operation. A byte that encodes no
    /// instruction is consumed and reported, and nothing else happens. On the
    /// bus a cycle precedes every read and every write.
    pub fn execute(&mut self) -> (res: Result<(), CpuError>)
        ensures
            final(self)@ == step(old(self)@, final(self)@.inputs),
            res == verdict(old(self)@.next(final(self)@.inputs)),
            ticked(old(self)@.ops) ==> ticked(final(self)@.ops),
    {
        let ghost c0 = self@;
        let p = self.imm();
        let b = self.read(p);
        let ghost c1 = self@;
        let ins = Operation::from_byte(b);
        let known = self.dispatch(ins);
        proof {
            lemma_run_keeps(c1, ins, self@.inputs, c1.inputs.len() - 1);
            lemma_step_timing(c0, self@.inputs);
        }
        if known {
            Ok(())
        } else {
            Err(CpuError::UnknownOpcode(b))
        }
    }

    /// Performs the decoded instruction `ins`, and says whether it is one
    /// the engine runs.
    fn dispatch(&mut self, ins: Operation) -> (known: bool)
        ensures
            final(self)@ == run(old(self)@, ins, final(self)@.inputs),
            known == !unknown(ins),
    {
        proof {
            let c = self@;
            assert(forall|t: Seq<u8>| unknown(ins) ==> run(c, ins, t) == c) by {
                reveal(run);
            }
            assert(forall|t: Seq<u8>|
                ins is Inc && ins->Inc_0 is Some ==> #[trigger] run(c, ins, t) == run(
                    c,
                    Operation::Inc(ins->Inc_0, None),
                    t,
                )) by {
                reveal(run);
            }
            assert(forall|t: Seq<u8>|
                ins is Dec && ins->Dec_0 is Some ==> #[trigger] run(c, ins, t) == run(
                    c,
                    Operation::Dec(ins->Dec_0, None),
                    t,
                )) by {
                reveal(run);
            }
        }
        match ins {
            Operation::Load(r, m) => self.load(r, m),
            Operation::Store(r, m) => self.store(r, m),
            Operation::Transfer(r1, r2) => self.transfer(r1, r2),
            Operation::Add(m) => self.add(m),
            Operation::Inc(Some(r), _) => self.inc_r(r),
            Operation::Inc(_, Some(m)) => self.inc_m(m),
            Operation::Dec(Some(r), _) => self.dec_r(r),
            Operation::Dec(_, Some(m)) => self.dec_m(m),
            Operation::Sub(m) => self.sub(m),
            Operation::And(m) => self.and(m),
            Operation::Asl(None) => self.asl_a(),
            Operation::Asl(Some(m)) => self.asl(m),
            Operation::Bits(m) => self.bits(m),
            Operation::Xor(m) => self.xor(m),
            Operation::Lsr(None) => self.lsr_a(),
            Operation::Lsr(Some(m)) => self.lsr(m),
            Operation::Or(m) => self.or(m),
            Operation::Rol(None) => self.rol_a(),
            Operation::Rol(Some(m)) => self.rol(m),
            Operation::Ror(None) => self.ror_a(),
            Operation::Ror(Some(m)) => self.ror(m),
            Operation::Branch(f, b) => self.branch(f, b),
            Operation::Jump(None) => self.jsr(),
            Operation::Jump(Some(m)) => self.jump(m),
            Operation::Ret(true) => self.rts(),
            Operation::Ret(false) => self.rti(),
            Operation::Flag(f, b) => self.flag(f, b),
            Operation::Compare(r, m) => self.compare(r, m),
            Operation::Stack(r, b) => self.stack(r, b),
            Operation::Break => self.brk(),
            Operation::Nop(m) => self.nop(m),
            Operation::Lax(m) => self.lax(m),
            Operation::Sax(m) => self.sax(m),
            Operation::Dcp(m) => self.dcp(m),
            Operation::Isb(m) => self.isb(m),
            Operation::Slo(m) => self.slo(m),
            Operation::Rla(m) => self.rla(m),
            Operation::Sre(m) => self.sre(m),
            Operation::Rra(m) => self.rra(m),
            Operation::Aac(m) => self.aac(m),
            Operation::Asr(m) => self.asr(m),
            Operation::Arr(m) => self.arr(m),
            Operation::Atx(m) => self.atx(m),
            Operation::Axs(m) => self.axs(m),
            Operation::Sa(r, m) => self.sa(r, m),
            Operation::Sha(m) => self.sha(m),
            Operation::Tas(m) => self.tas(m),
            _ => {
                return false;
            },
        }
        true
    }

    /// Whether `a + b` lies on another page than `a`.
    fn cross(a: u16, b: u8) -> (r: bool)
        ensures
            r == crosses(u16_specs::wrapping_add(a, b as u16), a),
    {
        a.wrapping_add(b as u16) / 256 != a / 256
    }

    /// Advances the bus by one cycle.
    fn tick(&mut self)
        ensures
            final(self)@ == old(self)@.tick(),
    {
        self.bus.cycle();
        proof {
            self.ops@ = self.ops@.push(BusOp::Cycle);
        }
    }

    /// Advances the bus by one cycle, then reads the byte at `a`.
    fn read(&mut self, a: u16) -> (v: u8)
        ensures
            final(self)@ == old(self)@.answered(a, v),
    {
        self.bus.cycle();
        let v = self.bus.read(a);
        proof {
            self.ops@ = self.ops@.push(BusOp::Cycle).push(BusOp::Read(a));
            self.inputs@ = self.inputs@.push(v);
        }
        v
    }

    /// Advances the bus by one cycle, then stores `v` at `a`.
    fn write(&mut self, a: u16, v: u8)
        ensures
            final(self)@ == old(self)@.write(a, v),
    {
        self.bus.cycle();
        self.bus.write(a, v);
        proof {
            self.ops@ = self.ops@.push(BusOp::Cycle).push(BusOp::Write(a, v));
        }
    }

    /// Reads the two bytes at `a`, low byte first.
    fn read16(&mut self, a: u16) -> (v: u16)
        ensures
            (final(self)@, v) == old(self)@.read16(a, final(self)@.inputs),
    {
        let lo = self.read(a);
        let hi = self.read(a.wrapping_add(1));
        lo as u16 + (hi as u16) * 256
    }

    /// Stores `v` in the two bytes at `a`, low byte first. No instruction
    /// needs it.
    #[allow(dead_code)]
    fn write16(&mut self, a: u16, v: u16)
        ensures
            final(self)@ == old(self)@.write16(a, v),
    {
        self.write(a, (v % 256) as u8);
        self.write(a.wrapping_add(1), (v / 256) as u8);
    }

    /// Reads the two bytes of a pointer at `a`; the byte after the last of
    /// a page is the first of that page.
    fn read_pointer(&mut self, a: u16) -> (v: u16)
        ensures
            (final(self)@, v) == old(self)@.read_pointer(a, final(self)@.inputs),
    {
        if a % 256 == 0xFF {
            let lo = self.read(a);
            let hi = self.read(a - 0xFF);
            lo as u16 + (hi as u16) * 256
        } else {
            self.read16(a)
        }
    }

    /// Stores `v` where SP points, then moves SP down.
    fn push(&mut self, v: u8)
        ensures
            final(self)@ == old(self)@.push(v),
    {
        let sp = self.reg.read(Register::SP);
        self.write(sp as u16 + 0x100, v);
        self.reg.write(Register::SP, sp.wrapping_sub(1));
    }

    /// Pushes the high byte of `v`, then the low byte.
    fn push16(&mut self, v: u16)
        ensures
            final(self)@ == old(self)@.push16(v),
    {
        self.push((v / 256) as u8);
        self.push((v % 256) as u8);
    }

    /// Moves SP up, then reads the byte it points at.
    fn pop(&mut self) -> (v: u8)
        ensures
            final(self)@ == old(self)@.pop(final(self)@.inputs),
            v == old(self)@.next(final(self)@.inputs),
    {
        let sp = self.reg.read(Register::SP).wrapping_add(1);
        self.reg.write(Register::SP, sp);
        self.read(sp as u16 + 0x100)
    }

    /// Pops the low byte, then the high byte.
    fn pop16(&mut self) -> (v: u16)
        ensures
            (final(self)@, v) == old(self)@.pop16(final(self)@.inputs),
    {
        let lo = self.pop();
        let hi = self.pop();
        lo as u16 + (hi as u16) * 256
    }

    /// The address of the operand byte at PC; PC moves past it.
    fn imm(&mut self) -> (p: u16)
        ensures
            final(self)@ == old(self)@.skip(1),
            p == old(self)@.reg.pc,
    {
        let p = self.reg.read_pc();
        self.reg.write_pc(p.wrapping_add(1));
        p
    }

    /// The address of the two operand bytes at PC; PC moves past them.
    fn imm16(&mut self) -> (p: u16)
        ensures
            final(self)@ == old(self)@.skip(2),
            p == old(self)@.reg.pc,
    {
        let p = self.reg.read_pc();
        self.reg.write_pc(p.wrapping_add(2));
        p
    }

    /// Absolute addressing.
    fn abs(&mut self) -> (a: u16)
        ensures
            (final(self)@, a) == absolute(old(self)@, final(self)@.inputs),
    {
        let imm = self.imm16();
        self.read16(imm)
    }

    /// Absolute addressing indexed by the register `r`.
    fn abi(&mut self, extra: bool, r: Register) -> (a: u16)
        ensures
            (final(self)@, a) == absolute_indexed(
                old(self)@,
                extra,
                old(self)@.reg.read(r),
                final(self)@.inputs,
            ),
    {
        let a = self.abs();
        let reg = self.reg.read(r);
        if extra && Self::cross(a, reg) {
            self.tick();
        }
        a.wrapping_add(reg as u16)
    }

    /// Zero-page addressing.
    fn zp(&mut self) -> (a: u16)
        ensures
            (final(self)@, a) == zero_page(old(self)@, final(self)@.inputs),
    {
        let imm = self.imm();
        self.read(imm) as u16
    }

    /// Zero-page addressing indexed by the register `r`.
    fn zpi(&mut self, r: Register) -> (a: u16)
        ensures
            (final(self)@, a) == zero_page_indexed(
                old(self)@,
                old(self)@.reg.read(r),
                final(self)@.inputs,
            ),
    {
        let a = self.zp();
        self.tick();
        (a + self.reg.read(r) as u16) % 256
    }

    /// Indexed indirect addressing, `(zp,X)`.
    fn izx(&mut self) -> (a: u16)
        ensures
            (final(self)@, a) == indirect_x(old(self)@, final(self)@.inputs),
    {
        let imm = self.imm();
        let res = self.read(imm).wrapping_add(self.reg.read(Register::X));
        self.tick();
        self.read_pointer(res as u16)
    }

    /// Indirect indexed addressing, `(zp),Y`.
    fn izy(&mut self, extra: bool) -> (a: u16)
        ensures
            (final(self)@, a) == indirect_y(old(self)@, extra, final(self)@.inputs),
    {
        let imm = self.imm();
        let zero = self.read(imm);
        let y = self.reg.read(Register::Y);
        self.tick();
        let addr = self.read_pointer(zero as u16);
        if extra && Self::cross(addr, y) {
            self.tick();
        }
        addr.wrapping_add(y as u16)
    }

    /// Indirect addressing, for JMP.
    fn ind(&mut self) -> (a: u16)
        ensures
            (final(self)@, a) == indirect(old(self)@, final(self)@.inputs),
    {
        let imm = self.imm16();
        let addr = self.read16(imm);
        self.read_pointer(addr)
    }

    /// Locates the operand of the mode `m`.
    fn resolve_addr(&mut self, m: AddressingMode) -> (a: u16)
        ensures
            (final(self)@, a) == resolve(old(self)@, m, final(self)@.inputs),
    {
        reveal(resolve);
        match m {
            AddressingMode::Immediate => self.imm(),
            AddressingMode::Absolute => self.abs(),
            AddressingMode::AbsoluteX(s) => self.abi(s, Register::X),
            AddressingMode::AbsoluteY(s) => self.abi(s, Register::Y),
            AddressingMode::ZeroPage => self.zp(),
            AddressingMode::ZeroPageX => self.zpi(Register::X),
            AddressingMode::ZeroPageY => self.zpi(Register::Y),
            AddressingMode::Indirect => self.ind(),
            AddressingMode::IndirectX => self.izx(),
            AddressingMode::IndirectY(s) => self.izy(s),
        }
    }

    /// Locates the operand of the mode `m` and reads it.
    fn operand(&mut self, m: AddressingMode) -> (v: u8)
        ensures
            (final(self)@, v) == operand(old(self)@, m, final(self)@.inputs),
    {
        let ghost c0 = self@;
        let addr = self.resolve_addr(m);
        let ghost t1 = self@.inputs;
        let value = self.read(addr);
        proof {
            lemma_resolve_stable(c0, m, t1, self@.inputs);
        }
        value
    }

    /// Locates the operand of the mode `m`, reads it, and lets one idle
    /// cycle pass: the first half of a read-modify-write.
    fn modify(&mut self, m: AddressingMode) -> (r: (u16, u8))
        ensures
            (final(self)@, r.0, r.1) == modify(old(self)@, m, final(self)@.inputs),
    {
        let ghost c0 = self@;
        let addr = self.resolve_addr(m);
        let ghost t1 = self@.inputs;
        let value = self.read(addr);
        self.tick();
        proof {
            lemma_resolve_stable(c0, m, t1, self@.inputs);
        }
        (addr, value)
    }

    fn load(&mut self, r: Register, m: AddressingMode)
        ensures
            final(self)@ == run(old(self)@, Operation::Load(r, m), final(self)@.inputs),
    {
        proof {
            reveal(run);
        }
        let value = self.operand(m);
        self.reg.write(r, value);
    }

    fn store(&mut self, r: Register, m: AddressingMode)
        ensures
            final(self)@ == run(old(self)@, Operation::Store(r, m), final(self)@.inputs),
    {
        proof {
            reveal(run);
        }
        let addr = self.resolve_addr(m);
        let value = self.reg.read(r);
        self.write(addr, value);
    }

    fn transfer(&mut self, from: Register, to: Register)
        ensures
            final(self)@ == run(old(self)@, Operation::Transfer(from, to), final(self)@.inputs),
    {
        proof {
            reveal(run);
        }
        let s = self.reg.read(from);
        self.reg.write(to, s);
        self.tick();
    }

    /// Adds `b` and the carry to A.
    fn accumulate(&mut self, b: u8)
        ensures
            final(self)@ == old(self)@.set(adc(old(self)@.reg, b)),
    {
        let a = self.reg.read(Register::A);
        let c: u16 = if self.reg.check_flag(Flag::Carry) {
            1
        } else {
            0
        };
        let result: u16 = a as u16 + b as u16 + c;
        self.reg.update_cv(a, b, result);
        self.reg.write(Register::A, (result % 256) as u8);
    }

    /// Sets C, Z and N as a comparison of `reg` with `value` does.
    fn compare_with(&mut self, reg: u8, value: u8)
        ensures
            final(self)@ == old(self)@.set(compare(old(self)@.reg, reg, value)),
    {
        let d = reg.wrapping_sub(value);
        proof {
            lemma_masks(d);
        }
        self.reg.update_flag(Flag::Carry, reg >= value);
        self.reg.update_flag(Flag::Zero, reg == value);
        self.reg.update_flag(Flag::Negative, d & 0x80 == 0x80);
    }

    fn add(&mut self, m: AddressingMode)
        ensures
            final(self)@ == run(old(self)@, Operation::Add(m), final(self)@.inputs),
    {
        proof {
            reveal(run);
        }
        let b = self.operand(m);
        self.accumulate(b);
    }

    fn dec_m(&mut self, m: AddressingMode)
        ensures
            final(self)@ == run(old(self)@, Operation::Dec(None, Some(m)), final(self)@.inputs),
    {
        proof {
            reveal(run);
        }
        let (addr, old) = self.modify(m);
        let value = old.wrapping_sub(1);
        self.reg.update_zn(value);
        self.write(addr, value);
    }

    fn dec_r(&mut self, r: Register)
        ensures
            final(self)@ == run(old(self)@, Operation::Dec(Some(r), None), final(self)@.inputs),
    {
        proof {
            reveal(run);
        }
        let v = self.reg.read(r).wrapping_sub(1);
        self.reg.write(r, v);
        self.tick();
    }

    fn inc_m(&mut self, m: AddressingMode)
        ensures
            final(self)@ == run(old(self)@, Operation::Inc(None, Some(m)), final(self)@.inputs),
    {
        proof {
            reveal(run);
        }
        let (addr, old) = self.modify(m);
        let value = old.wrapping_add(1);
        self.reg.update_zn(value);
        self.write(addr, value);
    }

    fn inc_r(&mut self, r: Register)
        ensures
            final(self)@ == run(old(self)@, Operation::Inc(Some(r), None), final(self)@.inputs),
    {
        proof {
            reveal(run);
        }
        let v = self.reg.read(r).wrapping_add(1);
        self.reg.write(r, v);
        self.tick();
    }

    fn sub(&mut self, m: AddressingMode)
        ensures
            final(self)@ == run(old(self)@, Operation::Sub(m), final(self)@.inputs),
    {
        proof {
            reveal(run);
        }
        let b = self.operand(m) ^ 0xFF;
        self.accumulate(b);
    }

    fn and(&mut self, m: AddressingMode)
        ensures
            final(self)@ == run(old(self)@, Operation::And(m), final(self)@.inputs),
    {
        proof {
            reveal(run);
        }
        let value = self.operand(m);
        let a = self.reg.read(Register::A);
        self.reg.write(Register::A, a & value);
    }

    fn asl_a(&mut self)
        ensures
            final(self)@ == run(old(self)@, Operation::Asl(None), final(self)@.inputs),
    {
        proof {
            reveal(run);
        }
        let value = self.reg.read(Register::A);
        proof {
            lemma_masks(value);
            lemma_shifts(value);
        }
        self.reg.update_flag(Flag::Carry, value & 0x80 == 0x80);
        self.reg.write(Register::A, value << 1);
        self.tick();
    }

    fn asl(&mut self, r: AddressingMode)
        ensures
            final(self)@ == run(old(self)@, Operation::Asl(Some(r)), final(self)@.inputs),
    {
        proof {
            reveal(run);
        }
        let (addr, value) = self.modify(r);
        proof {
            lemma_masks(value);
            lemma_shifts(value);
        }
        self.reg.update_flag(Flag::Carry, value & 0x80 == 0x80);
        self.reg.update_zn(value << 1);
        self.write(addr, value << 1);
    }

    fn bits(&mut self, m: AddressingMode)
        ensures
            final(self)@ == run(old(self)@, Operation::Bits(m), final(self)@.inputs),
    {
        proof {
            reveal(run);
        }
        let value = self.operand(m);
        proof {
            lemma_masks(value);
        }
        let b = self.reg.read(Register::A) & value == 0;
        self.reg.update_flag(Flag::Zero, b);
        self.reg.update_flag(Flag::Overflow, value & 0x40 == 0x40);
        self.reg.update_flag(Flag::Negative, value & 0x80 == 0x80);
    }

    fn xor(&mut self, m: AddressingMode)
        ensures
            final(self)@ == run(old(self)@, Operation::Xor(m), final(self)@.inputs),
    {
        proof {
            reveal(run);
        }
        let value = self.operand(m);
        let a = self.reg.read(Register::A);
        self.reg.write(Register::A, a ^ value);
    }

    fn lsr_a(&mut self)
        ensures
            final(self)@ == run(old(self)@, Operation::Lsr(None), final(self)@.inputs),
    {
        proof {
            reveal(run);
        }
        let value = self.reg.read(Register::A);
        proof {
            lemma_masks(value);
            lemma_shifts(value);
        }
        self.reg.update_flag(Flag::Carry, value & 0x01 == 0x01);
        self.reg.write(Register::A, value >> 1);
        self.tick();
    }

    fn lsr(&mut self, r: AddressingMode)
        ensures
            final(self)@ == run(old(self)@, Operation::Lsr(Some(r)), final(self)@.inputs),
    {
        proof {
            reveal(run);
        }
        let (addr, value) = self.modify(r);
        proof {
            lemma_masks(value);
            lemma_shifts(value);
        }
        self.reg.update_flag(Flag::Carry, value & 0x01 == 0x01);
        self.reg.update_zn(value >> 1);
        self.write(addr, value >> 1);
    }

    fn or(&mut self, m: AddressingMode)
        ensures
            final(self)@ == run(old(self)@, Operation::Or(m), final(self)@.inputs),
    {
        proof {
            reveal(run);
        }
        let value = self.operand(m);
        let a = self.reg.read(Register::A);
        self.reg.write(Register::A, a | value);
    }

    fn flag(&mut self, f: Flag, s: bool)
        ensures
            final(self)@ == run(old(self)@, Operation::Flag(f, s), final(self)@.inputs),
    {
        proof {
            reveal(run);
        }
        self.reg.update_flag(f, s);
        self.tick();
    }

    fn compare(&mut self, r: Register, m: AddressingMode)
        ensures
            final(self)@ == run(old(self)@, Operation::Compare(r, m), final(self)@.inputs),
    {
        proof {
            reveal(run);
        }
        let reg = self.reg.read(r);
        let value = self.operand(m);
        self.compare_with(reg, value);
    }

    fn jsr(&mut self)
        ensures
            final(self)@ == run(old(self)@, Operation::Jump(None), final(self)@.inputs),
    {
        proof {
            reveal(run);
        }
        let t = self.reg.read_pc().wrapping_add(1);
        self.tick();
        self.push16(t);
        let value = self.abs();
        self.reg.write_pc(value);
    }

    fn jump(&mut self, m: AddressingMode)
        ensures
            final(self)@ == run(old(self)@, Operation::Jump(Some(m)), final(self)@.inputs),
    {
        proof {
            reveal(run);
        }
        let addr = self.resolve_addr(m);
        self.reg.write_pc(addr);
    }

    fn stack(&mut self, r: Register, push: bool)
        ensures
            final(self)@ == run(old(self)@, Operation::Stack(r, push), final(self)@.inputs),
    {
        proof {
            reveal(run);
        }
        if push {
            self.tick();
            let value = match r {
                Register::P => self.reg.read(Register::P) | 0b0001_0000,
                r => self.reg.read(r),
            };
            self.push(value);
        } else {
            self.tick();
            self.tick();
            let value = self.pop();
            self.reg.write(r, value);
        }
    }

    fn rti(&mut self)
        ensures
            final(self)@ == run(old(self)@, Operation::Ret(false), final(self)@.inputs),
    {
        proof {
            reveal(run);
        }
        self.stack(Register::P, false);
        let addr = self.pop16();
        self.reg.write_pc(addr);
    }

    fn rts(&mut self)
        ensures
            final(self)@ == run(old(self)@, Operation::Ret(true), final(self)@.inputs),
    {
        proof {
            reveal(run);
        }
        self.tick();
        self.tick();
        let addr = self.pop16().wrapping_add(1);
        self.reg.write_pc(addr);
        self.tick();
    }

    fn brk(&mut self)
        ensures
            final(self)@ == run(old(self)@, Operation::Break, final(self)@.inputs),
    {
        proof {
            reveal(run);
        }
        let addr = self.reg.read_pc().wrapping_add(1);
        self.push16(addr);
        let flags = self.reg.read(Register::P) | 0b0001_0000;
        self.push(flags);
        self.reg.update_flag(Flag::Interrupt, true);
        let val = if self.nmi {
            self.read16(NMI_VECTOR)
        } else {
            self.read16(IRQ_VECTOR)
        };
        self.reg.write_pc(val);
    }

    fn branch(&mut self, cond: Flag, when: bool)
        ensures
            final(self)@ == run(old(self)@, Operation::Branch(cond, when), final(self)@.inputs),
    {
        proof {
            reveal(run);
        }
        let addr = self.imm();
        let value = self.read(addr);
        if self.reg.check_flag(cond) == when {
            self.tick();
            let pc = self.reg.read_pc();
            let res = if value < 0x80 {
                pc.wrapping_add(value as u16)
            } else {
                pc.wrapping_sub(256 - value as u16)
            };
            if res / 256 != pc / 256 {
                self.tick();
            }
            self.reg.write_pc(res);
        }
    }

    fn nop(&mut self, m: Option<AddressingMode>)
        ensures
            final(self)@ == run(old(self)@, Operation::Nop(m), final(self)@.inputs),
    {
        proof {
            reveal(run);
        }
        if let Some(m) = m {
            self.operand(m);
        }
        self.tick();
    }

    fn rol_a(&mut self)
        ensures
            final(self)@ == run(old(self)@, Operation::Rol(None), final(self)@.inputs),
    {
        proof {
            reveal(run);
        }
        let c: u8 = if self.reg.check_flag(Flag::Carry) {
            1
        } else {
            0
        };
        let value = self.reg.read(Register::A);
        proof {
            lemma_masks(value);
            lemma_shifts(value);
        }
        self.reg.update_flag(Flag::Carry, value & 0x80 == 0x80);
        self.reg.write(Register::A, (value << 1) | c);
        self.tick();
    }

    fn rol(&mut self, m: AddressingMode)
        ensures
            final(self)@ == run(old(self)@, Operation::Rol(Some(m)), final(self)@.inputs),
    {
        proof {
            reveal(run);
        }
        let c: u8 = if self.reg.check_flag(Flag::Carry) {
            1
        } else {
            0
        };
        let (addr, value) = self.modify(m);
        proof {
            lemma_masks(value);
            lemma_shifts(value);
        }
        self.reg.update_flag(Flag::Carry, value & 0x80 == 0x80);
        self.reg.update_zn((value << 1) | c);
        self.write(addr, (value << 1) | c);
    }

    fn ror_a(&mut self)
        ensures
            final(self)@ == run(old(self)@, Operation::Ror(None), final(self)@.inputs),
    {
        proof {
            reveal(run);
        }
        let c: u8 = if self.reg.check_flag(Flag::Carry) {
            0x80
        } else {
            0
        };
        let value = self.reg.read(Register::A);
        proof {
            lemma_masks(value);
            lemma_shifts(value);
        }
        self.reg.update_flag(Flag::Carry, value & 0x01 == 0x01);
        self.reg.write(Register::A, c | (value >> 1));
        self.tick();
    }

    fn ror(&mut self, m: AddressingMode)
        ensures
            final(self)@ == run(old(self)@, Operation::Ror(Some(m)), final(self)@.inputs),
    {
        proof {
            reveal(run);
        }
        let c: u8 = if self.reg.check_flag(Flag::Carry) {
            0x80
        } else {
            0
        };
        let (addr, value) = self.modify(m);
        proof {
            lemma_masks(value);
            lemma_shifts(value);
        }
        self.reg.update_flag(Flag::Carry, value & 0x01 == 0x01);
        self.reg.update_zn(c | (value >> 1));
        self.write(addr, c | (value >> 1));
    }

    fn lax(&mut self, m: AddressingMode)
        ensures
            final(self)@ == run(old(self)@, Operation::Lax(m), final(self)@.inputs),
    {
        proof {
            reveal(run);
        }
        let value = self.operand(m);
        self.reg.write(Register::A, value);
        self.reg.write(Register::X, value);
    }

    fn sax(&mut self, m: AddressingMode)
        ensures
            final(self)@ == run(old(self)@, Operation::Sax(m), final(self)@.inputs),
    {
        proof {
            reveal(run);
        }
        let addr = self.resolve_addr(m);
        let a = self.reg.read(Register::A);
        let x = self.reg.read(Register::X);
        self.write(addr, a & x);
    }

    fn dcp(&mut self, m: AddressingMode)
        ensures
            final(self)@ == run(old(self)@, Operation::Dcp(m), final(self)@.inputs),
    {
        proof {
            reveal(run);
        }
        let (addr, old) = self.modify(m);
        let value = old.wrapping_sub(1);
        let reg = self.reg.read(Register::A);
        self.compare_with(reg, value);
        self.write(addr, value);
    }

    fn isb(&mut self, m: AddressingMode)
        ensures
            final(self)@ == run(old(self)@, Operation::Isb(m), final(self)@.inputs),
    {
        proof {
            reveal(run);
        }
        let (addr, old) = self.modify(m);
        let value = old.wrapping_add(1);
        self.accumulate(value ^ 0xFF);
        self.write(addr, value);
    }

    fn slo(&mut self, m: AddressingMode)
        ensures
            final(self)@ == run(old(self)@, Operation::Slo(m), final(self)@.inputs),
    {
        proof {
            reveal(run);
        }
        let (addr, value) = self.modify(m);
        proof {
            lemma_masks(value);
            lemma_shifts(value);
        }
        self.reg.update_flag(Flag::Carry, value & 0x80 == 0x80);
        let a = self.reg.read(Register::A);
        self.reg.write(Register::A, a | (value << 1));
        self.write(addr, value << 1);
    }

    fn rla(&mut self, m: AddressingMode)
        ensures
            final(self)@ == run(old(self)@, Operation::Rla(m), final(self)@.inputs),
    {
        proof {
            reveal(run);
        }
        let (addr, value) = self.modify(m);
        proof {
            lemma_masks(value);
            lemma_shifts(value);
        }
        let c: u8 = if self.reg.check_flag(Flag::Carry) {
            1
        } else {
            0
        };
        self.reg.update_flag(Flag::Carry, value & 0x80 == 0x80);
        let a = self.reg.read(Register::A);
        let result = (value << 1) | c;
        self.reg.write(Register::A, a & result);
        self.write(addr, result);
    }

    fn sre(&mut self, m: AddressingMode)
        ensures
            final(self)@ == run(old(self)@, Operation::Sre(m), final(self)@.inputs),
    {
        proof {
            reveal(run);
        }
        let (addr, value) = self.modify(m);
        proof {
            lemma_masks(value);
            lemma_shifts(value);
        }
        self.reg.update_flag(Flag::Carry, value & 0x01 == 0x01);
        let a = self.reg.read(Register::A);
        let result = value >> 1;
        self.reg.write(Register::A, a ^ result);
        self.write(addr, result);
    }

    fn rra(&mut self, m: AddressingMode)
        ensures
            final(self)@ == run(old(self)@, Operation::Rra(m), final(self)@.inputs),
    {
        proof {
            reveal(run);
        }
        let (addr, value) = self.modify(m);
        proof {
            lemma_masks(value);
            lemma_shifts(value);
        }
        let c: u8 = if self.reg.check_flag(Flag::Carry) {
            0x80
        } else {
            0
        };
        self.reg.update_flag(Flag::Carry, value & 0x01 == 0x01);
        let x = c | (value >> 1);
        self.accumulate(x);
        self.write(addr, x);
    }

    fn aac(&mut self, m: AddressingMode)
        ensures
            final(self)@ == run(old(self)@, Operation::Aac(m), final(self)@.inputs),
    {
        proof {
            reveal(run);
        }
        let value = self.operand(m);
        let a = self.reg.read(Register::A);
        self.reg.write(Register::A, a & value);
        let b = self.reg.check_flag(Flag::Negative);
        self.reg.update_flag(Flag::Carry, b);
    }

    fn asr(&mut self, m: AddressingMode)
        ensures
            final(self)@ == run(old(self)@, Operation::Asr(m), final(self)@.inputs),
    {
        proof {
            reveal(run);
        }
        let value = self.operand(m);
        let res = self.reg.read(Register::A) & value;
        proof {
            lemma_masks(res);
            lemma_shifts(res);
        }
        self.reg.update_flag(Flag::Carry, res & 0x01 == 0x01);
        self.reg.write(Register::A, res >> 1);
    }

    fn arr(&mut self, m: AddressingMode)
        ensures
            final(self)@ == run(old(self)@, Operation::Arr(m), final(self)@.inputs),
    {
        proof {
            reveal(run);
        }
        let value = self.operand(m);
        let c: u8 = if self.reg.check_flag(Flag::Carry) {
            0x80
        } else {
            0
        };
        let masked = self.reg.read(Register::A) & value;
        let res = c | (masked >> 1);
        proof {
            lemma_shifts(masked);
            lemma_masks(res);
        }
        self.reg.write(Register::A, res);
        let bit6 = res & 0x40 == 0x40;
        let bit5 = res & 0x20 == 0x20;
        self.reg.update_flag(Flag::Carry, bit6);
        self.reg.update_flag(Flag::Overflow, bit6 != bit5);
    }

    fn atx(&mut self, m: AddressingMode)
        ensures
            final(self)@ == run(old(self)@, Operation::Atx(m), final(self)@.inputs),
    {
        proof {
            reveal(run);
        }
        let value = self.operand(m);
        self.reg.write(Register::A, value);
        self.reg.write(Register::X, value);
    }

    fn axs(&mut self, m: AddressingMode)
        ensures
            final(self)@ == run(old(self)@, Operation::Axs(m), final(self)@.inputs),
    {
        proof {
            reveal(run);
        }
        let value = self.operand(m);
        let masked = self.reg.read(Register::A) & self.reg.read(Register::X);
        self.reg.update_flag(Flag::Carry, masked >= value);
        self.reg.write(Register::X, masked.wrapping_sub(value));
    }

    fn sa(&mut self, r: Register, m: AddressingMode)
        ensures
            final(self)@ == run(old(self)@, Operation::Sa(r, m), final(self)@.inputs),
    {
        proof {
            reveal(run);
        }
        let addr = self.resolve_addr(m);
        let value = self.reg.read(r);
        self.store_through(addr, value);
    }

    fn sha(&mut self, m: AddressingMode)
        ensures
            final(self)@ == run(old(self)@, Operation::Sha(m), final(self)@.inputs),
    {
        proof {
            reveal(run);
        }
        let addr = self.resolve_addr(m);
        let masked = self.reg.read(Register::A) & self.reg.read(Register::X);
        self.store_through(addr, masked);
    }

    fn tas(&mut self, m: AddressingMode)
        ensures
            final(self)@ == run(old(self)@, Operation::Tas(m), final(self)@.inputs),
    {
        proof {
            reveal(run);
        }
        let addr = self.resolve_addr(m);
        let masked = self.reg.read(Register::A) & self.reg.read(Register::X);
        self.reg.write(Register::SP, masked);
        self.store_through(addr, masked);
    }

    /// Stores `r`, and-ed with the high byte of `addr` plus one, at the
    /// address whose low byte is that of `addr` and whose high byte is the
    /// byte stored.
    fn store_through(&mut self, addr: u16, r: u8)
        ensures
            final(self)@ == store_through(old(self)@, addr, sa_value(r, (addr / 256) as u8)),
    {
        let hi = (addr / 256) as u8;
        let lo = (addr % 256) as u8;
        let val = r & hi.wrapping_add(1);
        let ad = val as u16 * 256 + lo as u16;
        self.write(ad, val);
    }
}

} // verus!
