//! The machine as mathematics: what the engine has asked of the bus, what the
//! bus has answered, and what one instruction makes of both.
//!
//! The bus is free to answer a read with any byte, so an instruction is
//! described as a function of the bytes it is given. Those bytes come from a
//! tape: the sequence of all answers of the bus, of which an instruction
//! consumes the next few.

use vstd::prelude::*;
use vstd::wrapping::{u16_specs, u8_specs};
use crate::cpu::alu::{
    aac, adc, arr, asr, axs, bit_test, compare, rol, ror, sa_value, sbc, shift_a, shift_m, shl, shr,
};
use crate::cpu::ops::{decode, AddressingMode, Operation};
use crate::cpu::reg::{has_bit, Flag, RegState, Register, Status, BREAK};

verus! {

/// One operation that the engine performs on the bus.
pub enum BusOp {
    /// The bus was advanced by one cycle.
    Cycle,
    /// The byte at the address was asked for.
    Read(u16),
    /// The byte was stored at the address.
    Write(u16, u8),
}

/// Where the NMI handler's address is stored.
pub const NMI_VECTOR: u16 = 0xFFFA;

/// Where the address of the first instruction after a reset is stored.
pub const RESET_VECTOR: u16 = 0xFFFC;

/// Where the IRQ and BRK handler's address is stored.
pub const IRQ_VECTOR: u16 = 0xFFFE;

/// The 16-bit value with the low byte `lo` and the high byte `hi`.
pub open spec fn word(lo: u8, hi: u8) -> u16 {
    (lo + 256 * hi) as u16
}

/// Whether two addresses lie on different 256-byte pages.
pub open spec fn crosses(a: u16, b: u16) -> bool {
    a / 256 != b / 256
}

/// The address after `a` on the same page: the last byte of a page is
/// followed by its first.
pub open spec fn next_on_page(a: u16) -> u16 {
    if a % 256 == 255 {
        (a - 255) as u16
    } else {
        (a + 1) as u16
    }
}

/// The address that a branch at `pc` with the offset byte `off` jumps to:
/// the byte counts as a signed number.
pub open spec fn branch_target(pc: u16, off: u8) -> u16 {
    if off < 0x80 {
        u16_specs::wrapping_add(pc, off as u16)
    } else {
        u16_specs::wrapping_sub(pc, (256 - off) as u16)
    }
}

/// The state of the engine: its registers, the NMI latch, every bus
/// operation it has performed, and every byte the bus has answered. The
/// answers stand in the order of the reads.
pub struct Core {
    pub reg: RegState,
    pub nmi: bool,
    pub ops: Seq<BusOp>,
    pub inputs: Seq<u8>,
}

impl Core {
    /// The next byte of the tape `t` that this state has not consumed.
    pub open spec fn next(self, t: Seq<u8>) -> u8 {
        t[self.inputs.len() as int]
    }

    /// The same state with other registers.
    pub open spec fn set(self, reg: RegState) -> Core {
        Core { reg, ..self }
    }

    /// One idle bus cycle.
    pub open spec fn tick(self) -> Core {
        Core { ops: self.ops.push(BusOp::Cycle), ..self }
    }

    /// A cycle, then a read of `a` that the bus answers with `v`.
    pub open spec fn answered(self, a: u16, v: u8) -> Core {
        Core {
            ops: self.ops.push(BusOp::Cycle).push(BusOp::Read(a)),
            inputs: self.inputs.push(v),
            ..self
        }
    }

    /// A cycle, then a read of `a`, answered from the tape.
    pub open spec fn read(self, a: u16, t: Seq<u8>) -> Core {
        self.answered(a, self.next(t))
    }

    /// A cycle, then a store of `v` at `a`.
    pub open spec fn write(self, a: u16, v: u8) -> Core {
        Core { ops: self.ops.push(BusOp::Cycle).push(BusOp::Write(a, v)), ..self }
    }

    /// Reads of `a` and of `b`, low byte first.
    pub open spec fn read_pair(self, a: u16, b: u16, t: Seq<u8>) -> (Core, u16) {
        let lo = self.next(t);
        let c = self.read(a, t);
        let hi = c.next(t);
        (c.read(b, t), word(lo, hi))
    }

    /// A little-endian read of the two bytes at `a`.
    pub open spec fn read16(self, a: u16, t: Seq<u8>) -> (Core, u16) {
        self.read_pair(a, u16_specs::wrapping_add(a, 1), t)
    }

    /// A little-endian read of the pointer at `a` that does not leave the
    /// page of `a`.
    pub open spec fn read_pointer(self, a: u16, t: Seq<u8>) -> (Core, u16) {
        self.read_pair(a, next_on_page(a), t)
    }

    /// A little-endian store of `v` in the two bytes at `a`: the low byte at
    /// `a`, the high byte after it.
    pub open spec fn write16(self, a: u16, v: u16) -> Core {
        self.write(a, (v % 256) as u8).write(u16_specs::wrapping_add(a, 1), (v / 256) as u8)
    }

    /// A store of `v` on the stack; SP moves down and wraps.
    pub open spec fn push(self, v: u8) -> Core {
        let sp = self.reg.sp;
        self.write((0x100 + sp) as u16, v).set(
            self.reg.write(Register::SP, u8_specs::wrapping_sub(sp, 1)),
        )
    }

    /// A push of the high byte of `v`, then of its low byte.
    pub open spec fn push16(self, v: u16) -> Core {
        self.push((v / 256) as u8).push((v % 256) as u8)
    }

    /// SP moves up and wraps, then the byte it points at is read.
    pub open spec fn pop(self, t: Seq<u8>) -> Core {
        let sp = u8_specs::wrapping_add(self.reg.sp, 1);
        self.set(self.reg.write(Register::SP, sp)).read((0x100 + sp) as u16, t)
    }

    /// A pop of the low byte, then of the high byte.
    pub open spec fn pop16(self, t: Seq<u8>) -> (Core, u16) {
        let lo = self.next(t);
        let c = self.pop(t);
        let hi = c.next(t);
        (c.pop(t), word(lo, hi))
    }

    /// PC moved forward by `n` bytes.
    pub open spec fn skip(self, n: u16) -> Core {
        self.set(self.reg.with_pc(u16_specs::wrapping_add(self.reg.pc, n)))
    }
}

/// The two operand bytes at PC, read as an address; PC moves past them.
pub open spec fn absolute(c: Core, t: Seq<u8>) -> (Core, u16) {
    c.skip(2).read16(c.reg.pc, t)
}

/// The absolute operand plus the index `i`. Where a page crossing costs a
/// cycle and the index crosses, one idle cycle follows the operand.
pub open spec fn absolute_indexed(c: Core, extra: bool, i: u8, t: Seq<u8>) -> (Core, u16) {
    let (c1, base) = absolute(c, t);
    let addr = u16_specs::wrapping_add(base, i as u16);
    if extra && crosses(addr, base) {
        (c1.tick(), addr)
    } else {
        (c1, addr)
    }
}

/// The operand byte at PC as an address in page zero; PC moves past it.
pub open spec fn zero_page(c: Core, t: Seq<u8>) -> (Core, u16) {
    (c.skip(1).read(c.reg.pc, t), c.next(t) as u16)
}

/// The zero-page operand plus the index `i`, kept in page zero, after one
/// idle cycle.
pub open spec fn zero_page_indexed(c: Core, i: u8, t: Seq<u8>) -> (Core, u16) {
    let (c1, base) = zero_page(c, t);
    (c1.tick(), ((base + i) % 256) as u16)
}

/// The address stored at the absolute operand. The pointer does not leave
/// its page: after its last byte comes its first.
pub open spec fn indirect(c: Core, t: Seq<u8>) -> (Core, u16) {
    let (c1, ptr) = absolute(c, t);
    c1.read_pointer(ptr, t)
}

/// The address stored in page zero at the operand byte plus X, after one
/// idle cycle.
pub open spec fn indirect_x(c: Core, t: Seq<u8>) -> (Core, u16) {
    let ptr = u8_specs::wrapping_add(c.next(t), c.reg.x);
    c.skip(1).read(c.reg.pc, t).tick().read_pointer(ptr as u16, t)
}

/// The address stored in page zero at the operand byte, plus Y, after one
/// idle cycle. Where a page crossing costs a cycle and Y crosses, one more
/// idle cycle follows the pointer.
pub open spec fn indirect_y(c: Core, extra: bool, t: Seq<u8>) -> (Core, u16) {
    let ptr = c.next(t);
    let (c1, base) = c.skip(1).read(c.reg.pc, t).tick().read_pointer(ptr as u16, t);
    let addr = u16_specs::wrapping_add(base, c.reg.y as u16);
    if extra && crosses(addr, base) {
        (c1.tick(), addr)
    } else {
        (c1, addr)
    }
}

/// The state after the operand of the mode `m` is located, and its address.
#[verifier::opaque]
pub open spec fn resolve(c: Core, m: AddressingMode, t: Seq<u8>) -> (Core, u16) {
    match m {
        AddressingMode::Immediate => (c.skip(1), c.reg.pc),
        AddressingMode::Absolute => absolute(c, t),
        AddressingMode::AbsoluteX(extra) => absolute_indexed(c, extra, c.reg.x, t),
        AddressingMode::AbsoluteY(extra) => absolute_indexed(c, extra, c.reg.y, t),
        AddressingMode::ZeroPage => zero_page(c, t),
        AddressingMode::ZeroPageX => zero_page_indexed(c, c.reg.x, t),
        AddressingMode::ZeroPageY => zero_page_indexed(c, c.reg.y, t),
        AddressingMode::Indirect => indirect(c, t),
        AddressingMode::IndirectX => indirect_x(c, t),
        AddressingMode::IndirectY(extra) => indirect_y(c, extra, t),
    }
}

/// How many bytes of the tape locating an operand of the mode `m` consumes.
pub open spec fn mode_reads(m: AddressingMode) -> nat {
    match m {
        AddressingMode::Immediate => 0,
        AddressingMode::ZeroPage | AddressingMode::ZeroPageX | AddressingMode::ZeroPageY => 1,
        AddressingMode::Absolute | AddressingMode::AbsoluteX(_) | AddressingMode::AbsoluteY(_) => 2,
        AddressingMode::IndirectX | AddressingMode::IndirectY(_) => 3,
        AddressingMode::Indirect => 4,
    }
}

/// Two tapes that hold the same first `n` bytes.
pub open spec fn agree(t1: Seq<u8>, t2: Seq<u8>, n: nat) -> bool {
    forall|i: int| 0 <= i < n ==> t1[i] == t2[i]
}

/// Locating an operand looks at no byte of the tape beyond those it
/// consumes, and consumes as many as its mode says.
pub proof fn lemma_resolve_frame(c: Core, m: AddressingMode, t1: Seq<u8>, t2: Seq<u8>)
    requires
        agree(t1, t2, c.inputs.len() + mode_reads(m)),
    ensures
        resolve(c, m, t1) == resolve(c, m, t2),
        resolve(c, m, t1).0.inputs.len() == c.inputs.len() + mode_reads(m),
{
    reveal(resolve);
}

/// Where the tape `t1` is what the bus had answered when the operand was
/// located, a tape that continues `t1` locates the same operand.
pub proof fn lemma_resolve_stable(c: Core, m: AddressingMode, t1: Seq<u8>, t2: Seq<u8>)
    requires
        resolve(c, m, t1).0.inputs == t1,
        t1.len() <= t2.len(),
        agree(t1, t2, t1.len()),
    ensures
        resolve(c, m, t2) == resolve(c, m, t1),
{
    lemma_resolve_frame(c, m, t1, t1);
    lemma_resolve_frame(c, m, t1, t2);
}

/// The operand of the mode `m` is located and read: the state after the
/// read, and the byte.
pub open spec fn operand(c: Core, m: AddressingMode, t: Seq<u8>) -> (Core, u8) {
    let (c1, a) = resolve(c, m, t);
    (c1.read(a, t), c1.next(t))
}

/// The first half of a read-modify-write: the operand is located and read,
/// and one idle cycle passes while the new value is formed. Gives the state
/// after that cycle, the operand's address, and the byte read.
pub open spec fn modify(c: Core, m: AddressingMode, t: Seq<u8>) -> (Core, u16, u8) {
    let (c1, a) = resolve(c, m, t);
    (c1.read(a, t).tick(), a, c1.next(t))
}

/// LDA, LDX, LDY.
pub open spec fn load(c: Core, r: Register, m: AddressingMode, t: Seq<u8>) -> Core {
    let (c1, v) = operand(c, m, t);
    c1.set(c1.reg.write(r, v))
}

/// STA, STX, STY.
pub open spec fn store(c: Core, r: Register, m: AddressingMode, t: Seq<u8>) -> Core {
    let (c1, a) = resolve(c, m, t);
    c1.write(a, c1.reg.read(r))
}

/// TAX, TAY, TXA, TYA, TSX, TXS: the register is copied, then one idle
/// cycle.
pub open spec fn transfer(c: Core, from: Register, to: Register) -> Core {
    c.set(c.reg.write(to, c.reg.read(from))).tick()
}

/// ADC.
pub open spec fn add_with_carry(c: Core, m: AddressingMode, t: Seq<u8>) -> Core {
    let (c1, v) = operand(c, m, t);
    c1.set(adc(c1.reg, v))
}

/// SBC.
pub open spec fn sub_with_carry(c: Core, m: AddressingMode, t: Seq<u8>) -> Core {
    let (c1, v) = operand(c, m, t);
    c1.set(sbc(c1.reg, v))
}

/// AND.
pub open spec fn and(c: Core, m: AddressingMode, t: Seq<u8>) -> Core {
    let (c1, v) = operand(c, m, t);
    c1.set(c1.reg.write(Register::A, c1.reg.a & v))
}

/// ORA.
pub open spec fn or(c: Core, m: AddressingMode, t: Seq<u8>) -> Core {
    let (c1, v) = operand(c, m, t);
    c1.set(c1.reg.write(Register::A, c1.reg.a | v))
}

/// EOR.
pub open spec fn xor(c: Core, m: AddressingMode, t: Seq<u8>) -> Core {
    let (c1, v) = operand(c, m, t);
    c1.set(c1.reg.write(Register::A, c1.reg.a ^ v))
}

/// BIT.
pub open spec fn bits(c: Core, m: AddressingMode, t: Seq<u8>) -> Core {
    let (c1, v) = operand(c, m, t);
    c1.set(bit_test(c1.reg, v))
}

/// CMP, CPX, CPY. The register is read before the operand is located.
pub open spec fn compare_op(c: Core, r: Register, m: AddressingMode, t: Seq<u8>) -> Core {
    let (c1, v) = operand(c, m, t);
    c1.set(compare(c1.reg, c.reg.read(r), v))
}

/// INX, INY, and DEX, DEY where `by` is 255: the register moves, then one
/// idle cycle.
pub open spec fn step_register(c: Core, r: Register, by: u8) -> Core {
    c.set(c.reg.write(r, u8_specs::wrapping_add(c.reg.read(r), by))).tick()
}

/// INC, and DEC where `by` is 255: the byte in memory moves; Z and N follow
/// the byte written back.
pub open spec fn step_memory(c: Core, m: AddressingMode, by: u8, t: Seq<u8>) -> Core {
    let (c1, a, v) = modify(c, m, t);
    let w = u8_specs::wrapping_add(v, by);
    c1.write(a, w).set(c1.reg.with_zn(w))
}

/// ASL A.
pub open spec fn asl_a(c: Core) -> Core {
    c.set(shift_a(c.reg, c.reg.a >= 0x80, shl(c.reg.a))).tick()
}

/// LSR A.
pub open spec fn lsr_a(c: Core) -> Core {
    c.set(shift_a(c.reg, has_bit(c.reg.a, 0x01), shr(c.reg.a))).tick()
}

/// ROL A.
pub open spec fn rol_a(c: Core) -> Core {
    c.set(shift_a(c.reg, c.reg.a >= 0x80, rol(c.reg.a, c.reg.p.carry))).tick()
}

/// ROR A.
pub open spec fn ror_a(c: Core) -> Core {
    c.set(shift_a(c.reg, has_bit(c.reg.a, 0x01), ror(c.reg.a, c.reg.p.carry))).tick()
}

/// ASL on memory.
pub open spec fn asl(c: Core, m: AddressingMode, t: Seq<u8>) -> Core {
    let (c1, a, v) = modify(c, m, t);
    c1.write(a, shl(v)).set(shift_m(c1.reg, v >= 0x80, shl(v)))
}

/// LSR on memory.
pub open spec fn lsr(c: Core, m: AddressingMode, t: Seq<u8>) -> Core {
    let (c1, a, v) = modify(c, m, t);
    c1.write(a, shr(v)).set(shift_m(c1.reg, has_bit(v, 0x01), shr(v)))
}

/// ROL on memory. The carry that enters is the one from before the
/// instruction.
pub open spec fn rol_m(c: Core, m: AddressingMode, t: Seq<u8>) -> Core {
    let (c1, a, v) = modify(c, m, t);
    let w = rol(v, c.reg.p.carry);
    c1.write(a, w).set(shift_m(c1.reg, v >= 0x80, w))
}

/// ROR on memory. The carry that enters is the one from before the
/// instruction.
pub open spec fn ror_m(c: Core, m: AddressingMode, t: Seq<u8>) -> Core {
    let (c1, a, v) = modify(c, m, t);
    let w = ror(v, c.reg.p.carry);
    c1.write(a, w).set(shift_m(c1.reg, has_bit(v, 0x01), w))
}

/// A branch: the offset byte is read; where the flag `f` has the value
/// `when`, one idle cycle passes, one more where the target lies on another
/// page than the instruction that follows, and PC takes the target.
pub open spec fn branch(c: Core, f: Flag, when: bool, t: Seq<u8>) -> Core {
    let c1 = c.skip(1).read(c.reg.pc, t);
    if c1.reg.flag(f) == when {
        let target = branch_target(c1.reg.pc, c.next(t));
        let c2 = if crosses(target, c1.reg.pc) {
            c1.tick().tick()
        } else {
            c1.tick()
        };
        c2.set(c2.reg.with_pc(target))
    } else {
        c1
    }
}

/// JSR: after one idle cycle the address of the instruction's last byte is
/// pushed, then the operand is read into PC.
pub open spec fn jsr(c: Core, t: Seq<u8>) -> Core {
    let (c1, a) = absolute(c.tick().push16(u16_specs::wrapping_add(c.reg.pc, 1)), t);
    c1.set(c1.reg.with_pc(a))
}

/// JMP.
pub open spec fn jump(c: Core, m: AddressingMode, t: Seq<u8>) -> Core {
    let (c1, a) = resolve(c, m, t);
    c1.set(c1.reg.with_pc(a))
}

/// The byte that PHP and BRK push for the status: P with B set.
pub open spec fn pushed_status(reg: RegState) -> u8 {
    reg.p.bits() | BREAK
}

/// PHA and PHP: one idle cycle, then the push.
pub open spec fn push_register(c: Core, r: Register) -> Core {
    let v = match r {
        Register::P => pushed_status(c.reg),
        _ => c.reg.read(r),
    };
    c.tick().push(v)
}

/// PLA and PLP: two idle cycles, then the pop into the register.
pub open spec fn pull_register(c: Core, r: Register, t: Seq<u8>) -> Core {
    let c1 = c.tick().tick();
    let c2 = c1.pop(t);
    c2.set(c2.reg.write(r, c1.next(t)))
}

/// RTI: P is pulled, then PC.
pub open spec fn rti(c: Core, t: Seq<u8>) -> Core {
    let (c1, a) = pull_register(c, Register::P, t).pop16(t);
    c1.set(c1.reg.with_pc(a))
}

/// RTS: two idle cycles, PC is pulled and moved past the last byte of the
/// JSR, one more idle cycle.
pub open spec fn rts(c: Core, t: Seq<u8>) -> Core {
    let (c1, a) = c.tick().tick().pop16(t);
    c1.set(c1.reg.with_pc(u16_specs::wrapping_add(a, 1))).tick()
}

/// BRK: the address after the padding byte is pushed, then P with B set;
/// interrupts are disabled, and PC is read from the NMI vector where an NMI
/// is latched, from the IRQ vector otherwise.
pub open spec fn brk(c: Core, t: Seq<u8>) -> Core {
    let c1 = c.push16(u16_specs::wrapping_add(c.reg.pc, 1)).push(pushed_status(c.reg));
    let c2 = c1.set(c1.reg.with_flag(Flag::Interrupt, true));
    let (c3, a) = c2.read16(
        if c.nmi {
            NMI_VECTOR
        } else {
            IRQ_VECTOR
        },
        t,
    );
    c3.set(c3.reg.with_pc(a))
}

/// CLC, SEC, CLI, SEI, CLD, SED, CLV.
pub open spec fn flag(c: Core, f: Flag, on: bool) -> Core {
    c.set(c.reg.with_flag(f, on)).tick()
}

/// NOP: with a mode, the operand is read and dropped; one idle cycle in any
/// case.
pub open spec fn nop(c: Core, m: Option<AddressingMode>, t: Seq<u8>) -> Core {
    match m {
        Some(m) => operand(c, m, t).0.tick(),
        None => c.tick(),
    }
}

/// LAX: the operand goes to A and to X.
pub open spec fn lax(c: Core, m: AddressingMode, t: Seq<u8>) -> Core {
    let (c1, v) = operand(c, m, t);
    c1.set(c1.reg.write(Register::A, v).write(Register::X, v))
}

/// SAX: `A & X` is stored.
pub open spec fn sax(c: Core, m: AddressingMode, t: Seq<u8>) -> Core {
    let (c1, a) = resolve(c, m, t);
    c1.write(a, c1.reg.a & c1.reg.x)
}

/// DCP: the byte in memory is decremented, then A is compared with it.
pub open spec fn dcp(c: Core, m: AddressingMode, t: Seq<u8>) -> Core {
    let (c1, a, v) = modify(c, m, t);
    let w = u8_specs::wrapping_sub(v, 1);
    c1.write(a, w).set(compare(c1.reg, c1.reg.a, w))
}

/// ISB: the byte in memory is incremented, then subtracted from A.
pub open spec fn isb(c: Core, m: AddressingMode, t: Seq<u8>) -> Core {
    let (c1, a, v) = modify(c, m, t);
    let w = u8_specs::wrapping_add(v, 1);
    c1.write(a, w).set(sbc(c1.reg, w))
}

/// SLO: the byte in memory is shifted left, then or-ed into A.
pub open spec fn slo(c: Core, m: AddressingMode, t: Seq<u8>) -> Core {
    let (c1, a, v) = modify(c, m, t);
    c1.write(a, shl(v)).set(shift_a(c1.reg, v >= 0x80, c1.reg.a | shl(v)))
}

/// RLA: the byte in memory is rotated left, then and-ed into A.
pub open spec fn rla(c: Core, m: AddressingMode, t: Seq<u8>) -> Core {
    let (c1, a, v) = modify(c, m, t);
    let w = rol(v, c1.reg.p.carry);
    c1.write(a, w).set(shift_a(c1.reg, v >= 0x80, c1.reg.a & w))
}

/// SRE: the byte in memory is shifted right, then exclusive-or-ed into A.
pub open spec fn sre(c: Core, m: AddressingMode, t: Seq<u8>) -> Core {
    let (c1, a, v) = modify(c, m, t);
    c1.write(a, shr(v)).set(shift_a(c1.reg, has_bit(v, 0x01), c1.reg.a ^ shr(v)))
}

/// RRA: the byte in memory is rotated right, then added to A with the carry
/// that the rotation left.
pub open spec fn rra(c: Core, m: AddressingMode, t: Seq<u8>) -> Core {
    let (c1, a, v) = modify(c, m, t);
    let w = ror(v, c1.reg.p.carry);
    c1.write(a, w).set(adc(c1.reg.with_flag(Flag::Carry, has_bit(v, 0x01)), w))
}

/// AAC.
pub open spec fn aac_op(c: Core, m: AddressingMode, t: Seq<u8>) -> Core {
    let (c1, v) = operand(c, m, t);
    c1.set(aac(c1.reg, v))
}

/// ASR.
pub open spec fn asr_op(c: Core, m: AddressingMode, t: Seq<u8>) -> Core {
    let (c1, v) = operand(c, m, t);
    c1.set(asr(c1.reg, v))
}

/// ARR.
pub open spec fn arr_op(c: Core, m: AddressingMode, t: Seq<u8>) -> Core {
    let (c1, v) = operand(c, m, t);
    c1.set(arr(c1.reg, v))
}

/// ATX: the operand goes to A and to X.
pub open spec fn atx(c: Core, m: AddressingMode, t: Seq<u8>) -> Core {
    lax(c, m, t)
}

/// AXS.
pub open spec fn axs_op(c: Core, m: AddressingMode, t: Seq<u8>) -> Core {
    let (c1, v) = operand(c, m, t);
    c1.set(axs(c1.reg, v))
}

/// SHY and SHX: the register, and-ed with the high byte of the operand's
/// address plus one, is stored at the address whose high byte is that value
/// and whose low byte is the operand's.
pub open spec fn sa(c: Core, r: Register, m: AddressingMode, t: Seq<u8>) -> Core {
    let (c1, a) = resolve(c, m, t);
    store_through(c1, a, sa_value(c1.reg.read(r), (a / 256) as u8))
}

/// The state after the byte `v` is stored as the SH* instructions store it
/// for an operand at `a`: at the address whose low byte is that of `a` and
/// whose high byte is `v` itself.
pub open spec fn store_through(c: Core, a: u16, v: u8) -> Core {
    c.write(word((a % 256) as u8, v), v)
}

/// SHA: `A & X`, and-ed with the high byte of the operand's address plus
/// one, is stored as SHY and SHX store.
pub open spec fn sha(c: Core, m: AddressingMode, t: Seq<u8>) -> Core {
    let (c1, a) = resolve(c, m, t);
    store_through(c1, a, sa_value(c1.reg.a & c1.reg.x, (a / 256) as u8))
}

/// TAS: SP takes `A & X`; then SP, and-ed with the high byte of the
/// operand's address plus one, is stored as SHY and SHX store. The flags
/// stay.
pub open spec fn tas(c: Core, m: AddressingMode, t: Seq<u8>) -> Core {
    let (c1, a) = resolve(c, m, t);
    let s = c1.reg.a & c1.reg.x;
    store_through(c1.set(c1.reg.write(Register::SP, s)), a, sa_value(s, (a / 256) as u8))
}

/// Whether the instruction is one the engine refuses to run.
pub open spec fn unknown(ins: Operation) -> bool {
    match ins {
        Operation::BadOp => true,
        Operation::Inc(None, None) => true,
        Operation::Dec(None, None) => true,
        _ => false,
    }
}

/// The state after the decoded instruction `ins` has run on `c`, whose
/// opcode is already consumed. An instruction that the engine refuses
/// leaves the state as it is.
#[verifier::opaque]
pub open spec fn run(c: Core, ins: Operation, t: Seq<u8>) -> Core {
    match ins {
        Operation::Load(r, m) => load(c, r, m, t),
        Operation::Store(r, m) => store(c, r, m, t),
        Operation::Transfer(from, to) => transfer(c, from, to),
        Operation::Add(m) => add_with_carry(c, m, t),
        Operation::Inc(Some(r), _) => step_register(c, r, 1),
        Operation::Inc(None, Some(m)) => step_memory(c, m, 1, t),
        Operation::Dec(Some(r), _) => step_register(c, r, 255),
        Operation::Dec(None, Some(m)) => step_memory(c, m, 255, t),
        Operation::Sub(m) => sub_with_carry(c, m, t),
        Operation::And(m) => and(c, m, t),
        Operation::Asl(None) => asl_a(c),
        Operation::Asl(Some(m)) => asl(c, m, t),
        Operation::Bits(m) => bits(c, m, t),
        Operation::Xor(m) => xor(c, m, t),
        Operation::Lsr(None) => lsr_a(c),
        Operation::Lsr(Some(m)) => lsr(c, m, t),
        Operation::Or(m) => or(c, m, t),
        Operation::Rol(None) => rol_a(c),
        Operation::Rol(Some(m)) => rol_m(c, m, t),
        Operation::Ror(None) => ror_a(c),
        Operation::Ror(Some(m)) => ror_m(c, m, t),
        Operation::Branch(f, when) => branch(c, f, when, t),
        Operation::Jump(None) => jsr(c, t),
        Operation::Jump(Some(m)) => jump(c, m, t),
        Operation::Ret(true) => rts(c, t),
        Operation::Ret(false) => rti(c, t),
        Operation::Flag(f, on) => flag(c, f, on),
        Operation::Compare(r, m) => compare_op(c, r, m, t),
        Operation::Stack(r, true) => push_register(c, r),
        Operation::Stack(r, false) => pull_register(c, r, t),
        Operation::Break => brk(c, t),
        Operation::Nop(m) => nop(c, m, t),
        Operation::Lax(m) => lax(c, m, t),
        Operation::Sax(m) => sax(c, m, t),
        Operation::Dcp(m) => dcp(c, m, t),
        Operation::Isb(m) => isb(c, m, t),
        Operation::Slo(m) => slo(c, m, t),
        Operation::Rla(m) => rla(c, m, t),
        Operation::Sre(m) => sre(c, m, t),
        Operation::Rra(m) => rra(c, m, t),
        Operation::Aac(m) => aac_op(c, m, t),
        Operation::Asr(m) => asr_op(c, m, t),
        Operation::Arr(m) => arr_op(c, m, t),
        Operation::Atx(m) => atx(c, m, t),
        Operation::Axs(m) => axs_op(c, m, t),
        Operation::Sa(r, m) => sa(c, r, m, t),
        Operation::Sha(m) => sha(c, m, t),
        Operation::Tas(m) => tas(c, m, t),
        _ => c,
    }
}

/// The state after the opcode at PC is fetched.
pub open spec fn fetch(c: Core, t: Seq<u8>) -> Core {
    c.skip(1).read(c.reg.pc, t)
}

/// One step of the engine: the opcode at PC is fetched and decoded, and the
/// instruction runs.
pub open spec fn step(c: Core, t: Seq<u8>) -> Core {
    run(fetch(c, t), decode(c.next(t)), t)
}

/// A reset: PC is read from the reset vector, SP is 0xFD, and P is 0x24:
/// interrupt-disable and bit 5.
pub open spec fn reset(c: Core, t: Seq<u8>) -> Core {
    let (c1, a) = c.read16(RESET_VECTOR, t);
    c1.set(RegState { pc: a, sp: 0xFD, p: Status::of(0x24), ..c1.reg })
}

/// The mode by which an instruction locates its operand, where it has one.
pub open spec fn mode_of(ins: Operation) -> Option<AddressingMode> {
    match ins {
        Operation::Load(_, m) => Some(m),
        Operation::Store(_, m) => Some(m),
        Operation::Add(m) => Some(m),
        Operation::Inc(None, m) => m,
        Operation::Dec(None, m) => m,
        Operation::Sub(m) => Some(m),
        Operation::And(m) => Some(m),
        Operation::Asl(m) => m,
        Operation::Bits(m) => Some(m),
        Operation::Xor(m) => Some(m),
        Operation::Lsr(m) => m,
        Operation::Or(m) => Some(m),
        Operation::Rol(m) => m,
        Operation::Ror(m) => m,
        Operation::Jump(m) => m,
        Operation::Compare(_, m) => Some(m),
        Operation::Nop(m) => m,
        Operation::Lax(m) => Some(m),
        Operation::Sax(m) => Some(m),
        Operation::Dcp(m) => Some(m),
        Operation::Isb(m) => Some(m),
        Operation::Slo(m) => Some(m),
        Operation::Rla(m) => Some(m),
        Operation::Sre(m) => Some(m),
        Operation::Rra(m) => Some(m),
        Operation::Aac(m) => Some(m),
        Operation::Asr(m) => Some(m),
        Operation::Arr(m) => Some(m),
        Operation::Atx(m) => Some(m),
        Operation::Axs(m) => Some(m),
        Operation::Sa(_, m) => Some(m),
        Operation::Sha(m) => Some(m),
        Operation::Tas(m) => Some(m),
        _ => None,
    }
}

/// The instructions that locate an operand, read it, and touch the bus no
/// more.
pub open spec fn is_reader(ins: Operation) -> bool {
    ins is Load || ins is Add || ins is Sub || ins is And || ins is Or || ins is Xor || ins is Bits
        || ins is Compare || ins is Lax || ins is Aac || ins is Asr || ins is Arr || ins is Atx
        || ins is Axs
}

/// The instructions that locate an operand and store to it.
pub open spec fn is_writer(ins: Operation) -> bool {
    ins is Store || ins is Sax || ins is Sa || ins is Sha || ins is Tas
}

/// The instructions that read their operand, take one idle cycle, and write
/// it back.
pub open spec fn is_modifier(ins: Operation) -> bool {
    mode_of(ins) is Some && (ins is Inc || ins is Dec || ins is Asl || ins is Lsr || ins is Rol
        || ins is Ror || ins is Dcp || ins is Isb || ins is Slo || ins is Rla || ins is Sre
        || ins is Rra)
}

/// At the place `i` the state `c1` holds what `c0` held there, or, where
/// `c0` held nothing yet, the byte of the tape `t`; and `c1` holds at most
/// `n` answers more than `c0`.
pub open spec fn keeps(c0: Core, c1: Core, t: Seq<u8>, n: nat, i: int) -> bool {
    &&& c0.inputs.len() <= c1.inputs.len() <= c0.inputs.len() + n
    &&& 0 <= i < c0.inputs.len() ==> c1.inputs[i] == c0.inputs[i]
    &&& c0.inputs.len() <= i < c1.inputs.len() ==> c1.inputs[i] == t[i]
}

/// Locating an operand keeps the answers that the bus gave before, and adds
/// to them the next bytes of the tape.
pub proof fn lemma_resolve_keeps(c: Core, m: AddressingMode, t: Seq<u8>, i: int)
    ensures
        keeps(c, resolve(c, m, t).0, t, 4, i),
        keeps(c, operand(c, m, t).0, t, 5, i),
        keeps(c, modify(c, m, t).0, t, 5, i),
{
    reveal(resolve);
}

proof fn lemma_readers_keep(c: Core, ins: Operation, t: Seq<u8>, i: int)
    requires
        is_reader(ins),
    ensures
        keeps(c, run(c, ins, t), t, 5, i),
{
    reveal(run);
    lemma_resolve_keeps(c, mode_of(ins).unwrap(), t, i);
}

proof fn lemma_writers_keep(c: Core, ins: Operation, t: Seq<u8>, i: int)
    requires
        is_writer(ins),
    ensures
        keeps(c, run(c, ins, t), t, 5, i),
{
    reveal(run);
    lemma_resolve_keeps(c, mode_of(ins).unwrap(), t, i);
}

proof fn lemma_modifiers_keep(c: Core, ins: Operation, t: Seq<u8>, i: int)
    requires
        is_modifier(ins),
    ensures
        keeps(c, run(c, ins, t), t, 5, i),
{
    reveal(run);
    lemma_resolve_keeps(c, mode_of(ins).unwrap(), t, i);
}

/// The instructions that move PC through the stack or a vector, and the
/// pushes and pulls.
pub open spec fn is_stack_user(ins: Operation) -> bool {
    ins is Ret || ins is Break || ins is Stack || ins == Operation::Jump(None)
}

proof fn lemma_stack_users_keep(c: Core, ins: Operation, t: Seq<u8>, i: int)
    requires
        is_stack_user(ins),
    ensures
        keeps(c, run(c, ins, t), t, 5, i),
{
    reveal(run);
}

proof fn lemma_branches_keep(c: Core, ins: Operation, t: Seq<u8>, i: int)
    requires
        ins is Branch,
    ensures
        keeps(c, run(c, ins, t), t, 5, i),
{
    reveal(run);
}

proof fn lemma_jumps_keep(c: Core, ins: Operation, t: Seq<u8>, i: int)
    requires
        ins is Jump || ins is Nop,
        mode_of(ins) is Some,
    ensures
        keeps(c, run(c, ins, t), t, 5, i),
{
    reveal(run);
    lemma_resolve_keeps(c, mode_of(ins).unwrap(), t, i);
}

proof fn lemma_implied_keep(c: Core, ins: Operation, t: Seq<u8>, i: int)
    requires
        !is_reader(ins),
        !is_writer(ins),
        !is_modifier(ins),
        !is_stack_user(ins),
        !(ins is Branch),
        mode_of(ins) is None,
    ensures
        keeps(c, run(c, ins, t), t, 5, i),
{
    reveal(run);
}

/// An instruction keeps the answers that the bus gave before it, and adds
/// to them at most five bytes, the next of the tape.
pub proof fn lemma_run_keeps(c: Core, ins: Operation, t: Seq<u8>, i: int)
    ensures
        keeps(c, run(c, ins, t), t, 5, i),
{
    if is_reader(ins) {
        lemma_readers_keep(c, ins, t, i);
    } else if is_writer(ins) {
        lemma_writers_keep(c, ins, t, i);
    } else if is_modifier(ins) {
        lemma_modifiers_keep(c, ins, t, i);
    } else if is_stack_user(ins) {
        lemma_stack_users_keep(c, ins, t, i);
    } else if ins is Branch {
        lemma_branches_keep(c, ins, t, i);
    } else if mode_of(ins) is Some {
        lemma_jumps_keep(c, ins, t, i);
    } else {
        lemma_implied_keep(c, ins, t, i);
    }
}

/// A step keeps the answers that the bus gave before it, and adds to them
/// the next bytes of the tape: the opcode, and at most five more.
pub proof fn lemma_step_keeps(c: Core, t: Seq<u8>, i: int)
    ensures
        keeps(c, step(c, t), t, 6, i),
        step(c, t).inputs.len() > c.inputs.len(),
{
    lemma_run_keeps(fetch(c, t), decode(c.next(t)), t, i);
}

} // verus!
