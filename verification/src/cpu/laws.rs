//! Laws of the instruction set that follow from its definition.

use vstd::prelude::*;
use vstd::wrapping::{u16_specs, u8_specs};
use crate::cpu::alu::{carry_in, lemma_adc_law, lemma_sbc_law, lemma_shifts, ror};
use crate::cpu::model::{
    is_modifier, is_reader, mode_of, modify, operand, pushed_status, resolve, run, word, BusOp,
    Core, IRQ_VECTOR, NMI_VECTOR,
};
use crate::cpu::ops::{AddressingMode, Operation};
use crate::cpu::reg::{
    lemma_masks, lemma_status_break, lemma_status_restored, RegState, Register, Status,
};
use crate::cpu::timing::{
    cycles, lemma_cycles_push, lemma_resolve_quiet, lemma_resolve_timing, lemma_stores_push,
    stores,
};

verus! {

/// A store to A, X or Y is read back, and leaves Z and N as the value has
/// them: Z where it is zero, N where its bit 7 is set.
pub proof fn lemma_write_sets_zn(reg: RegState, r: Register, v: u8)
    requires
        r is A || r is X || r is Y,
    ensures
        reg.write(r, v).read(r) == v,
        reg.write(r, v).p.zero == (v == 0),
        reg.write(r, v).p.negative == (v >= 0x80),
{
}

/// The register, among A, X and Y, that an instruction writes last.
pub open spec fn written_register(ins: Operation) -> Option<Register> {
    match ins {
        Operation::Load(r, _) | Operation::Transfer(_, r) | Operation::Stack(r, false) => match r {
            Register::A | Register::X | Register::Y => Some(r),
            _ => None,
        },
        Operation::Inc(Some(r), _) | Operation::Dec(Some(r), _) => match r {
            Register::A | Register::X | Register::Y => Some(r),
            _ => None,
        },
        Operation::Add(_)
        | Operation::Sub(_)
        | Operation::And(_)
        | Operation::Or(_)
        | Operation::Xor(_) => Some(Register::A),
        Operation::Asl(None) | Operation::Lsr(None) | Operation::Rol(None) | Operation::Ror(
            None,
        ) => Some(Register::A),
        Operation::Slo(_)
        | Operation::Rla(_)
        | Operation::Sre(_)
        | Operation::Rra(_)
        | Operation::Isb(_) => Some(Register::A),
        Operation::Aac(_) | Operation::Asr(_) | Operation::Arr(_) => Some(Register::A),
        Operation::Lax(_) | Operation::Atx(_) | Operation::Axs(_) => Some(Register::X),
        _ => None,
    }
}

proof fn lemma_readers_set_zn(c: Core, ins: Operation, t: Seq<u8>, r: Register)
    requires
        written_register(ins) == Some(r),
        is_reader(ins),
    ensures
        run(c, ins, t).reg.p.zero == (run(c, ins, t).reg.read(r) == 0),
        run(c, ins, t).reg.p.negative == (run(c, ins, t).reg.read(r) >= 0x80),
{
    reveal(run);
}

proof fn lemma_modifiers_set_zn(c: Core, ins: Operation, t: Seq<u8>, r: Register)
    requires
        written_register(ins) == Some(r),
        is_modifier(ins),
    ensures
        run(c, ins, t).reg.p.zero == (run(c, ins, t).reg.read(r) == 0),
        run(c, ins, t).reg.p.negative == (run(c, ins, t).reg.read(r) >= 0x80),
{
    reveal(run);
}

proof fn lemma_others_set_zn(c: Core, ins: Operation, t: Seq<u8>, r: Register)
    requires
        written_register(ins) == Some(r),
        !is_reader(ins),
        !is_modifier(ins),
    ensures
        run(c, ins, t).reg.p.zero == (run(c, ins, t).reg.read(r) == 0),
        run(c, ins, t).reg.p.negative == (run(c, ins, t).reg.read(r) >= 0x80),
{
    reveal(run);
}

/// After an instruction that writes A, X or Y, Z and N are as the value of
/// the register it wrote last has them.
pub proof fn lemma_register_write_sets_zn(c: Core, ins: Operation, t: Seq<u8>, r: Register)
    requires
        written_register(ins) == Some(r),
    ensures
        run(c, ins, t).reg.p.zero == (run(c, ins, t).reg.read(r) == 0),
        run(c, ins, t).reg.p.negative == (run(c, ins, t).reg.read(r) >= 0x80),
{
    if is_reader(ins) {
        lemma_readers_set_zn(c, ins, t, r);
    } else if is_modifier(ins) {
        lemma_modifiers_set_zn(c, ins, t, r);
    } else {
        lemma_others_set_zn(c, ins, t, r);
    }
}

/// INC, DEC, ASL, LSR, ROL and ROR on memory read their operand, take one
/// idle cycle, and write the new byte to the address that was read; Z and N
/// are left as that byte has them.
pub proof fn lemma_modify_sets_zn(c: Core, ins: Operation, t: Seq<u8>)
    requires
        is_modifier(ins),
        ins is Inc || ins is Dec || ins is Asl || ins is Lsr || ins is Rol || ins is Ror,
    ensures
        ({
            let after = run(c, ins, t);
            let (before, a, v) = modify(c, mode_of(ins).unwrap(), t);
            after.ops.last() matches BusOp::Write(to, w) && to == a && after.ops == before.write(
                a,
                w,
            ).ops && after.reg.p.zero == (w == 0) && after.reg.p.negative == (w >= 0x80)
        }),
{
    reveal(run);
}

/// ADC as an instruction. With `b` the operand byte and `r = A + b + C`:
/// A takes `r & 0xFF`; C is set exactly where `r > 0xFF` and V exactly where
/// `(!(A ^ b) & (A ^ r) & 0x80) != 0`; Z and N follow the new A; X, Y, SP
/// and the other flags stay; and nothing is stored.
pub proof fn lemma_add_instruction(c: Core, m: AddressingMode, t: Seq<u8>)
    ensures
        ({
            let (located, b) = operand(c, m, t);
            let r = (c.reg.a + b + carry_in(c.reg)) as u16;
            let after = run(c, Operation::Add(m), t);
            &&& r == c.reg.a + b + carry_in(c.reg)
            &&& after.reg.a == r & 0xFF
            &&& after.reg.p.carry == (r > 0xFF)
            &&& after.reg.p.overflow == (((!(c.reg.a ^ b)) as u16) & ((c.reg.a as u16) ^ r) & 0x80
                != 0)
            &&& after.reg.p.zero == (after.reg.a == 0)
            &&& after.reg.p.negative == (after.reg.a >= 0x80)
            &&& after.reg.x == c.reg.x && after.reg.y == c.reg.y && after.reg.sp == c.reg.sp
            &&& after.reg.p.decimal == c.reg.p.decimal && after.reg.p.interrupt
                == c.reg.p.interrupt
            &&& after.reg.pc == located.reg.pc
            &&& after.ops == located.ops
            &&& stores(after.ops) == stores(c.ops)
        }),
{
    reveal(run);
    let (located, b) = operand(c, m, t);
    lemma_resolve_quiet(c, m, t);
    lemma_adc_law(located.reg, b);
}

/// SBC as an instruction: the law of ADC for the operand byte xor 0xFF.
pub proof fn lemma_sub_instruction(c: Core, m: AddressingMode, t: Seq<u8>)
    ensures
        ({
            let (located, v) = operand(c, m, t);
            let b = v ^ 0xFF;
            let r = (c.reg.a + b + carry_in(c.reg)) as u16;
            let after = run(c, Operation::Sub(m), t);
            &&& r == c.reg.a + b + carry_in(c.reg)
            &&& after.reg.a == r & 0xFF
            &&& after.reg.p.carry == (r > 0xFF)
            &&& after.reg.p.overflow == (((!(c.reg.a ^ b)) as u16) & ((c.reg.a as u16) ^ r) & 0x80
                != 0)
            &&& after.reg.p.zero == (after.reg.a == 0)
            &&& after.reg.p.negative == (after.reg.a >= 0x80)
            &&& after.reg.x == c.reg.x && after.reg.y == c.reg.y && after.reg.sp == c.reg.sp
            &&& after.reg.p.decimal == c.reg.p.decimal && after.reg.p.interrupt
                == c.reg.p.interrupt
            &&& after.reg.pc == located.reg.pc
            &&& after.ops == located.ops
            &&& stores(after.ops) == stores(c.ops)
        }),
{
    reveal(run);
    let (located, v) = operand(c, m, t);
    lemma_resolve_quiet(c, m, t);
    lemma_sbc_law(located.reg, v);
    lemma_adc_law(located.reg, v ^ 0xFF);
}

/// ROR on memory. With `v` the byte read at the operand's address `a`: the
/// one store of the instruction is that of `(C << 7) | (v >> 1)` at `a`, and
/// it comes last; C takes bit 0 of `v`; Z and N follow the byte stored; A, X,
/// Y and SP stay.
pub proof fn lemma_ror_instruction(c: Core, m: AddressingMode, t: Seq<u8>)
    ensures
        ({
            let (read, a, v) = modify(c, m, t);
            let w = (if c.reg.p.carry { 0x80u8 } else { 0u8 }) | (v >> 1);
            let after = run(c, Operation::Ror(Some(m)), t);
            &&& w == ror(v, c.reg.p.carry)
            &&& after.ops == read.write(a, w).ops
            &&& after.ops.last() == BusOp::Write(a, w)
            &&& stores(after.ops) == stores(c.ops) + 1
            &&& after.reg.p.carry == (v & 1 == 1)
            &&& after.reg.p.zero == (w == 0)
            &&& after.reg.p.negative == (w & 0x80 == 0x80)
            &&& after.reg.a == c.reg.a && after.reg.x == c.reg.x && after.reg.y == c.reg.y
                && after.reg.sp == c.reg.sp
        }),
{
    broadcast use lemma_stores_push;

    reveal(run);
    let (read, a, v) = modify(c, m, t);
    let w = (if c.reg.p.carry { 0x80u8 } else { 0u8 }) | (v >> 1);
    lemma_resolve_quiet(c, m, t);
    lemma_shifts(v);
    lemma_masks(v);
    lemma_masks(w);
}

/// A byte written to P is read back without B and with bit 5 set.
pub proof fn lemma_status_masked(reg: RegState, v: u8)
    ensures
        reg.write(Register::P, v).read(Register::P) == (v & 0xCF) | 0x20,
{
    lemma_status_restored(v);
}

/// PLP. After two idle cycles SP moves up and the byte `v` it points at is
/// read: three cycles, one read, no store. P takes `(v & 0xCF) | 0x20`, and
/// no other register changes.
pub proof fn lemma_plp_instruction(c: Core, t: Seq<u8>)
    ensures
        ({
            let v = c.next(t);
            let sp = u8_specs::wrapping_add(c.reg.sp, 1);
            let after = run(c, Operation::Stack(Register::P, false), t);
            &&& after.reg.read(Register::P) == (v & 0xCF) | 0x20
            &&& after.reg == c.reg.write(Register::SP, sp).write(Register::P, v)
            &&& after.ops == c.ops.push(BusOp::Cycle).push(BusOp::Cycle).push(BusOp::Cycle).push(
                BusOp::Read((0x100 + sp) as u16),
            )
            &&& after.inputs == c.inputs.push(v)
            &&& cycles(after.ops) == cycles(c.ops) + 3
            &&& stores(after.ops) == stores(c.ops)
        }),
{
    broadcast use lemma_stores_push, lemma_cycles_push;

    reveal(run);
    lemma_status_restored(c.next(t));
}

/// RTI. P is pulled as PLP pulls it, then the low and the high byte of PC:
/// five cycles, three reads from the stack, which wraps within its page, and
/// no store. SP ends three above where it was.
pub proof fn lemma_rti_instruction(c: Core, t: Seq<u8>)
    ensures
        ({
            let k = c.inputs.len() as int;
            let n = c.ops.len() as int;
            let s = c.reg.sp;
            let after = run(c, Operation::Ret(false), t);
            &&& after.reg.read(Register::P) == (t[k] & 0xCF) | 0x20
            &&& after.reg.pc == word(t[k + 1], t[k + 2])
            &&& after.reg.sp == u8_specs::wrapping_add(s, 3)
            &&& after.reg.a == c.reg.a && after.reg.x == c.reg.x && after.reg.y == c.reg.y
            &&& after.ops.len() == n + 8
            &&& after.ops[n + 3] == BusOp::Read((0x100 + u8_specs::wrapping_add(s, 1)) as u16)
            &&& after.ops[n + 5] == BusOp::Read((0x100 + u8_specs::wrapping_add(s, 2)) as u16)
            &&& after.ops[n + 7] == BusOp::Read((0x100 + u8_specs::wrapping_add(s, 3)) as u16)
            &&& after.inputs == c.inputs.push(t[k]).push(t[k + 1]).push(t[k + 2])
            &&& cycles(after.ops) == cycles(c.ops) + 5
            &&& stores(after.ops) == stores(c.ops)
        }),
{
    broadcast use lemma_stores_push, lemma_cycles_push;

    reveal(run);
    lemma_status_restored(c.next(t));
}

/// PLP and RTI leave in P the byte they pull, without B and with bit 5 set.
pub proof fn lemma_pulled_status_masked(c: Core, t: Seq<u8>)
    ensures
        run(c, Operation::Stack(Register::P, false), t).reg.read(Register::P) == (c.next(t) & 0xCF)
            | 0x20,
        run(c, Operation::Ret(false), t).reg.read(Register::P) == (c.next(t) & 0xCF) | 0x20,
{
    lemma_plp_instruction(c, t);
    lemma_rti_instruction(c, t);
}

/// The byte that PHP and BRK push is `P | 0x10`: it encodes the status with
/// B set and every other flag as it is.
pub proof fn lemma_pushed_status(reg: RegState)
    ensures
        pushed_status(reg) == reg.read(Register::P) | 0x10,
        Status::of(pushed_status(reg)) == (Status { brk: true, ..reg.p }),
{
    lemma_status_break(reg.p);
}

/// PHP. After one idle cycle `P | 0x10` is stored where SP points, and SP
/// moves down: two cycles, one store, no read. P itself stays, and so does
/// every other register.
pub proof fn lemma_php_instruction(c: Core, t: Seq<u8>)
    ensures
        ({
            let after = run(c, Operation::Stack(Register::P, true), t);
            &&& after.ops == c.ops.push(BusOp::Cycle).push(BusOp::Cycle).push(
                BusOp::Write((0x100 + c.reg.sp) as u16, c.reg.read(Register::P) | 0x10),
            )
            &&& after.reg == c.reg.write(Register::SP, u8_specs::wrapping_sub(c.reg.sp, 1))
            &&& after.inputs == c.inputs
            &&& cycles(after.ops) == cycles(c.ops) + 2
            &&& stores(after.ops) == stores(c.ops) + 1
        }),
{
    broadcast use lemma_stores_push, lemma_cycles_push;

    reveal(run);
}

/// BRK. With `ret` the address after the byte that follows the opcode, the
/// instruction stores, in this order and each after a cycle, the high byte
/// of `ret`, its low byte, and `P | 0x10`, at the three places from SP
/// downward, wrapping within the stack page. SP ends three below, I is set,
/// and PC is read from the NMI vector where an NMI is latched and from the
/// IRQ vector otherwise.
pub proof fn lemma_brk_instruction(c: Core, t: Seq<u8>)
    ensures
        ({
            let k = c.inputs.len() as int;
            let n = c.ops.len() as int;
            let s = c.reg.sp;
            let ret = u16_specs::wrapping_add(c.reg.pc, 1);
            let vector = if c.nmi {
                NMI_VECTOR
            } else {
                IRQ_VECTOR
            };
            let after = run(c, Operation::Break, t);
            &&& after.ops.len() == n + 10
            &&& after.ops[n + 1] == BusOp::Write((0x100 + s) as u16, (ret / 256) as u8)
            &&& after.ops[n + 3] == BusOp::Write(
                (0x100 + u8_specs::wrapping_sub(s, 1)) as u16,
                (ret % 256) as u8,
            )
            &&& after.ops[n + 5] == BusOp::Write(
                (0x100 + u8_specs::wrapping_sub(s, 2)) as u16,
                c.reg.read(Register::P) | 0x10,
            )
            &&& after.ops[n + 7] == BusOp::Read(vector)
            &&& after.ops[n + 9] == BusOp::Read((vector + 1) as u16)
            &&& stores(after.ops) == stores(c.ops) + 3
            &&& cycles(after.ops) == cycles(c.ops) + 5
            &&& after.reg.sp == u8_specs::wrapping_sub(s, 3)
            &&& after.reg.pc == word(t[k], t[k + 1])
            &&& after.reg.p == (Status { interrupt: true, ..c.reg.p })
            &&& after.reg.a == c.reg.a && after.reg.x == c.reg.x && after.reg.y == c.reg.y
        }),
{
    broadcast use lemma_stores_push, lemma_cycles_push;

    reveal(run);
}

/// PHP ends with the write of `P | 0x10` to the stack, and BRK writes it
/// there after the two bytes of the return address.
pub proof fn lemma_pushed_status_has_break(c: Core, t: Seq<u8>)
    ensures
        run(c, Operation::Stack(Register::P, true), t).ops.last() == BusOp::Write(
            (0x100 + c.reg.sp) as u16,
            c.reg.read(Register::P) | 0x10,
        ),
        run(c, Operation::Break, t).ops[c.ops.len() as int + 5] == BusOp::Write(
            (0x100 + u8_specs::wrapping_sub(c.reg.sp, 2)) as u16,
            c.reg.read(Register::P) | 0x10,
        ),
{
    lemma_php_instruction(c, t);
    lemma_brk_instruction(c, t);
}

/// The state after the bytes `vs` are pushed, first to last.
pub open spec fn pushes(c: Core, vs: Seq<u8>) -> Core
    decreases vs.len(),
{
    if vs.len() == 0 {
        c
    } else {
        pushes(c, vs.drop_last()).push(vs.last())
    }
}

/// Where the push number `i` stores, counted from zero, when the pushes
/// start at the stack pointer `sp`.
pub open spec fn push_address(sp: u8, i: int) -> u16 {
    (0x100 + (sp - i) % 256) as u16
}

/// Pushes move SP down by their number, modulo 256, and each stores its
/// byte, after a cycle, at the place SP points to when its turn comes.
/// Nothing else changes.
pub proof fn lemma_pushes(c: Core, vs: Seq<u8>)
    ensures
        ({
            let after = pushes(c, vs);
            &&& after.reg == RegState { sp: ((c.reg.sp - vs.len()) % 256) as u8, ..c.reg }
            &&& after.nmi == c.nmi
            &&& after.inputs == c.inputs
            &&& after.ops.len() == c.ops.len() + 2 * vs.len()
            &&& forall|j: int| 0 <= j < c.ops.len() ==> after.ops[j] == c.ops[j]
            &&& forall|i: int|
                0 <= i < vs.len() ==> after.ops[c.ops.len() + 2 * i] == BusOp::Cycle
                    && #[trigger] after.ops[c.ops.len() + 2 * i + 1] == BusOp::Write(
                    push_address(c.reg.sp, i),
                    vs[i],
                )
        }),
    decreases vs.len(),
{
    if vs.len() > 0 {
        lemma_pushes(c, vs.drop_last());
        let before = pushes(c, vs.drop_last());
        let after = pushes(c, vs);
        let n = vs.len() - 1;
        assert(after.ops == before.ops.push(BusOp::Cycle).push(
            BusOp::Write((0x100 + before.reg.sp) as u16, vs.last()),
        ));
        assert forall|i: int| 0 <= i < vs.len() implies after.ops[c.ops.len() + 2 * i]
            == BusOp::Cycle && #[trigger] after.ops[c.ops.len() + 2 * i + 1] == BusOp::Write(
            push_address(c.reg.sp, i),
            vs[i],
        ) by {
            if i < n {
                assert(vs.drop_last()[i] == vs[i]);
                assert(before.ops[c.ops.len() + 2 * i + 1] == BusOp::Write(
                    push_address(c.reg.sp, i),
                    vs.drop_last()[i],
                ));
            }
        }
    }
}

/// Which of 256 pushes that start at the stack pointer `sp` stores at the
/// address `a` of the stack page.
pub open spec fn push_turn(sp: u8, a: int) -> int {
    (sp - (a - 0x100)) % 256
}

/// Each address of the stack page has its turn among 256 pushes, and no two
/// turns share an address.
pub proof fn lemma_push_turns(sp: u8, a: int)
    requires
        0x100 <= a <= 0x1FF,
    ensures
        0 <= push_turn(sp, a) < 256,
        push_address(sp, push_turn(sp, a)) == a,
        forall|i: int| 0 <= i < 256 && push_address(sp, i) == a ==> i == push_turn(sp, a),
{
    let d = a - 0x100;
    if sp >= d {
        assert(push_turn(sp, a) == sp - d);
    } else {
        assert(push_turn(sp, a) == sp - d + 256);
    }
    assert forall|i: int| 0 <= i < 256 && push_address(sp, i) == a implies i == push_turn(
        sp,
        a,
    ) by {
        if sp >= i {
            assert((sp - i) % 256 == sp - i);
        } else {
            assert((sp - i) % 256 == sp - i + 256);
        }
    }
}

/// The stack wraps: 256 pushes return SP to where it started and store to
/// every address of the page 0x0100 to 0x01FF, each in its turn and in no
/// other.
pub proof fn lemma_stack_wraps(c: Core, vs: Seq<u8>)
    requires
        vs.len() == 256,
    ensures
        pushes(c, vs).reg.sp == c.reg.sp,
        forall|a: int|
            0x100 <= a <= 0x1FF ==> 0 <= #[trigger] push_turn(c.reg.sp, a) < 256 && pushes(
                c,
                vs,
            ).ops[c.ops.len() + 2 * push_turn(c.reg.sp, a) + 1] == BusOp::Write(
                a as u16,
                vs[push_turn(c.reg.sp, a)],
            ),
        forall|a: int, i: int|
            0x100 <= a <= 0x1FF && 0 <= i < 256 && #[trigger] push_address(c.reg.sp, i) == a
                ==> i == #[trigger] push_turn(c.reg.sp, a),
{
    lemma_pushes(c, vs);
    let after = pushes(c, vs);
    let n = c.ops.len() as int;
    assert forall|a: int| 0x100 <= a <= 0x1FF implies 0 <= #[trigger] push_turn(c.reg.sp, a) < 256
        && after.ops[n + 2 * push_turn(c.reg.sp, a) + 1] == BusOp::Write(
        a as u16,
        vs[push_turn(c.reg.sp, a)],
    ) by {
        lemma_push_turns(c.reg.sp, a);
        let i = push_turn(c.reg.sp, a);
        assert(after.ops[n + 2 * i + 1] == BusOp::Write(push_address(c.reg.sp, i), vs[i]));
    }
    assert forall|a: int, i: int|
        0x100 <= a <= 0x1FF && 0 <= i < 256 && #[trigger] push_address(c.reg.sp, i)
            == a implies i == #[trigger] push_turn(c.reg.sp, a) by {
        lemma_push_turns(c.reg.sp, a);
    }
}

/// The indirect jump does not leave the page of its pointer: for a pointer
/// at `$xxFF` the low byte of the target is read at `$xxFF` and the high
/// byte at `$xx00`, and PC takes the address that the two bytes make.
pub proof fn lemma_indirect_jump_wraps(c: Core, t: Seq<u8>)
    requires
        word(t[c.inputs.len() as int], t[c.inputs.len() as int + 1]) % 256 == 0xFF,
    ensures
        ({
            let k = c.inputs.len() as int;
            let n = c.ops.len() as int;
            let ptr = word(t[k], t[k + 1]);
            let after = run(c, Operation::Jump(Some(AddressingMode::Indirect)), t);
            &&& after.ops.len() == n + 8
            &&& after.ops[n + 5] == BusOp::Read(ptr)
            &&& after.ops[n + 7] == BusOp::Read((ptr - 0xFF) as u16)
            &&& after.reg.pc == word(t[k + 2], t[k + 3])
        }),
{
    reveal(run);
    reveal(resolve);
}

/// The pointer of the mode `(zp,X)` does not leave page zero: where the
/// operand byte plus X is 0xFF, the low byte of the address is read at
/// `$00FF` and the high byte at `$0000`.
pub proof fn lemma_zero_page_pointer_wraps(c: Core, t: Seq<u8>)
    requires
        u8_specs::wrapping_add(c.next(t), c.reg.x) == 0xFF,
    ensures
        ({
            let k = c.inputs.len() as int;
            let n = c.ops.len() as int;
            let (after, addr) = resolve(c, AddressingMode::IndirectX, t);
            &&& after.ops.len() == n + 7
            &&& after.ops[n + 4] == BusOp::Read(0x00FF)
            &&& after.ops[n + 6] == BusOp::Read(0x0000)
            &&& addr == word(t[k + 1], t[k + 2])
        }),
{
    reveal(resolve);
}

/// The pointer of the mode `(zp),Y` does not leave page zero either: for
/// the operand byte 0xFF the base address is read at `$00FF` and `$0000`.
pub proof fn lemma_zero_page_pointer_wraps_y(c: Core, extra: bool, t: Seq<u8>)
    requires
        c.next(t) == 0xFF,
    ensures
        ({
            let k = c.inputs.len() as int;
            let n = c.ops.len() as int;
            let (after, addr) = resolve(c, AddressingMode::IndirectY(extra), t);
            &&& after.ops[n + 4] == BusOp::Read(0x00FF)
            &&& after.ops[n + 6] == BusOp::Read(0x0000)
            &&& addr == u16_specs::wrapping_add(word(t[k + 1], t[k + 2]), c.reg.y as u16)
        }),
{
    reveal(resolve);
}

} // verus!
