//! Bus timing: how many cycles an instruction takes, and the rule that a
//! cycle precedes every access.

use vstd::prelude::*;
use vstd::wrapping::u16_specs;
use crate::cpu::model::{
    branch_target, crosses, fetch, is_modifier, is_reader, is_stack_user, is_writer, mode_of,
    modify, operand, reset, resolve, run, step, word, BusOp, Core,
};
use crate::cpu::ops::{decode, AddressingMode, Operation};

verus! {

/// The number of bus cycles among the operations `ops`.
pub open spec fn cycles(ops: Seq<BusOp>) -> nat
    decreases ops.len(),
{
    if ops.len() == 0 {
        0
    } else {
        cycles(ops.drop_last()) + if ops.last() is Cycle {
            1nat
        } else {
            0nat
        }
    }
}

/// The number of stores among the operations `ops`.
pub open spec fn stores(ops: Seq<BusOp>) -> nat
    decreases ops.len(),
{
    if ops.len() == 0 {
        0
    } else {
        stores(ops.drop_last()) + if ops.last() is Write {
            1nat
        } else {
            0nat
        }
    }
}

/// Every read and every write among `ops` comes directly after a cycle.
pub open spec fn ticked(ops: Seq<BusOp>) -> bool {
    forall|i: int|
        0 <= i < ops.len() && !(#[trigger] ops[i] is Cycle) ==> i > 0 && ops[i - 1] is Cycle
}

/// One more operation adds a cycle exactly where it is one.
pub broadcast proof fn lemma_cycles_push(ops: Seq<BusOp>, op: BusOp)
    ensures
        #[trigger] cycles(ops.push(op)) == cycles(ops) + if op is Cycle {
            1nat
        } else {
            0nat
        },
{
    assert(ops.push(op).drop_last() =~= ops);
}

/// One more operation adds a store exactly where it is one.
pub broadcast proof fn lemma_stores_push(ops: Seq<BusOp>, op: BusOp)
    ensures
        #[trigger] stores(ops.push(op)) == stores(ops) + if op is Write {
            1nat
        } else {
            0nat
        },
{
    assert(ops.push(op).drop_last() =~= ops);
}

/// One more operation keeps the rule where it is a cycle or follows one.
pub broadcast proof fn lemma_ticked_push(ops: Seq<BusOp>, op: BusOp)
    ensures
        #[trigger] ticked(ops.push(op)) <==> ticked(ops) && (op is Cycle || (ops.len() > 0
            && ops.last() is Cycle)),
{
    let ext = ops.push(op);
    if ticked(ext) {
        assert forall|i: int| 0 <= i < ops.len() && !(#[trigger] ops[i] is Cycle) implies i > 0
            && ops[i - 1] is Cycle by {
            assert(ext[i] == ops[i]);
        }
        assert(ext[ops.len() as int] == op);
    }
    if ticked(ops) && (op is Cycle || (ops.len() > 0 && ops.last() is Cycle)) {
        assert forall|i: int| 0 <= i < ext.len() && !(#[trigger] ext[i] is Cycle) implies i > 0
            && ext[i - 1] is Cycle by {
            if i < ops.len() {
                assert(ext[i] == ops[i]);
            }
        }
    }
}

/// The cycles that locating an operand takes: the reads of the operand
/// bytes and of a pointer, the idle cycle of the indexed zero-page and
/// indirect modes, and one more where a page crossing costs one and occurs.
pub open spec fn locate_cycles(c: Core, m: AddressingMode, t: Seq<u8>) -> nat {
    match m {
        AddressingMode::Immediate => 0,
        AddressingMode::ZeroPage => 1,
        AddressingMode::ZeroPageX | AddressingMode::ZeroPageY => 2,
        AddressingMode::Absolute => 2,
        AddressingMode::AbsoluteX(extra) | AddressingMode::AbsoluteY(extra) => if extra
            && page_crossed(c, m, t) {
            3
        } else {
            2
        },
        AddressingMode::Indirect => 4,
        AddressingMode::IndirectX => 4,
        AddressingMode::IndirectY(extra) => if extra && page_crossed(c, m, t) {
            5
        } else {
            4
        },
    }
}

/// Whether the index of an indexed mode carries the operand's address onto
/// another page than its base.
pub open spec fn page_crossed(c: Core, m: AddressingMode, t: Seq<u8>) -> bool {
    let k = c.inputs.len() as int;
    match m {
        AddressingMode::AbsoluteX(_) => word(t[k], t[k + 1]) % 256 + c.reg.x >= 256,
        AddressingMode::AbsoluteY(_) => word(t[k], t[k + 1]) % 256 + c.reg.y >= 256,
        AddressingMode::IndirectY(_) => word(t[k + 1], t[k + 2]) % 256 + c.reg.y >= 256,
        _ => false,
    }
}

/// Locating an operand keeps the rule of the bus and takes the cycles of
/// its mode.
pub proof fn lemma_resolve_timing(c: Core, m: AddressingMode, t: Seq<u8>)
    ensures
        ticked(c.ops) ==> ticked(resolve(c, m, t).0.ops),
        cycles(resolve(c, m, t).0.ops) == cycles(c.ops) + locate_cycles(c, m, t),
        ticked(c.ops) ==> ticked(operand(c, m, t).0.ops),
        cycles(operand(c, m, t).0.ops) == cycles(c.ops) + locate_cycles(c, m, t) + 1,
        ticked(c.ops) ==> ticked(modify(c, m, t).0.ops),
        cycles(modify(c, m, t).0.ops) == cycles(c.ops) + locate_cycles(c, m, t) + 2,
{
    broadcast use lemma_cycles_push, lemma_ticked_push;

    reveal(resolve);
}

/// Locating an operand, and reading it, stores nothing and changes no
/// register but PC.
pub proof fn lemma_resolve_quiet(c: Core, m: AddressingMode, t: Seq<u8>)
    ensures
        stores(resolve(c, m, t).0.ops) == stores(c.ops),
        stores(operand(c, m, t).0.ops) == stores(c.ops),
        stores(modify(c, m, t).0.ops) == stores(c.ops),
        resolve(c, m, t).0.reg == c.reg.with_pc(resolve(c, m, t).0.reg.pc),
        operand(c, m, t).0.reg == resolve(c, m, t).0.reg,
        modify(c, m, t).0.reg == resolve(c, m, t).0.reg,
        resolve(c, m, t).0.nmi == c.nmi,
{
    broadcast use lemma_stores_push;

    reveal(resolve);
}

/// Whether a branch on the flag `f` is taken in the state `c`.
pub open spec fn branch_taken(c: Core, ins: Operation) -> bool {
    ins matches Operation::Branch(f, when) && c.reg.flag(f) == when
}

/// Whether the target of the branch whose offset is the next byte of the
/// tape lies on another page than the instruction after the branch.
pub open spec fn branch_crossed(c: Core, t: Seq<u8>) -> bool {
    let next = u16_specs::wrapping_add(c.reg.pc, 1);
    crosses(branch_target(next, c.next(t)), next)
}

/// The cycles that the instruction `ins` takes after its opcode is fetched.
pub open spec fn run_cycles(c: Core, ins: Operation, t: Seq<u8>) -> nat {
    if is_reader(ins) || is_writer(ins) {
        locate_cycles(c, mode_of(ins).unwrap(), t) + 1
    } else if is_modifier(ins) {
        locate_cycles(c, mode_of(ins).unwrap(), t) + 3
    } else {
        match ins {
            Operation::Inc(Some(_), _) | Operation::Dec(Some(_), _) => 1,
            Operation::Asl(None) | Operation::Lsr(None) | Operation::Rol(None) | Operation::Ror(
                None,
            ) => 1,
            Operation::Transfer(_, _) => 1,
            Operation::Flag(_, _) => 1,
            Operation::Nop(None) => 1,
            Operation::Nop(Some(m)) => locate_cycles(c, m, t) + 2,
            Operation::Branch(_, _) => if !branch_taken(c, ins) {
                1
            } else if branch_crossed(c, t) {
                3
            } else {
                2
            },
            Operation::Jump(Some(m)) => locate_cycles(c, m, t),
            Operation::Jump(None) => 5,
            Operation::Ret(_) => 5,
            Operation::Break => 5,
            Operation::Stack(_, true) => 2,
            Operation::Stack(_, false) => 3,
            _ => 0,
        }
    }
}

proof fn lemma_readers_timing(c: Core, ins: Operation, t: Seq<u8>)
    requires
        is_reader(ins),
    ensures
        ticked(c.ops) ==> ticked(run(c, ins, t).ops),
        cycles(run(c, ins, t).ops) == cycles(c.ops) + run_cycles(c, ins, t),
{
    reveal(run);
    lemma_resolve_timing(c, mode_of(ins).unwrap(), t);
}

proof fn lemma_writers_timing(c: Core, ins: Operation, t: Seq<u8>)
    requires
        is_writer(ins),
    ensures
        ticked(c.ops) ==> ticked(run(c, ins, t).ops),
        cycles(run(c, ins, t).ops) == cycles(c.ops) + run_cycles(c, ins, t),
{
    broadcast use lemma_cycles_push, lemma_ticked_push;

    reveal(run);
    lemma_resolve_timing(c, mode_of(ins).unwrap(), t);
}

proof fn lemma_modifiers_timing(c: Core, ins: Operation, t: Seq<u8>)
    requires
        is_modifier(ins),
    ensures
        ticked(c.ops) ==> ticked(run(c, ins, t).ops),
        cycles(run(c, ins, t).ops) == cycles(c.ops) + run_cycles(c, ins, t),
{
    broadcast use lemma_cycles_push, lemma_ticked_push;

    reveal(run);
    lemma_resolve_timing(c, mode_of(ins).unwrap(), t);
}

proof fn lemma_stack_users_timing(c: Core, ins: Operation, t: Seq<u8>)
    requires
        is_stack_user(ins),
    ensures
        ticked(c.ops) ==> ticked(run(c, ins, t).ops),
        cycles(run(c, ins, t).ops) == cycles(c.ops) + run_cycles(c, ins, t),
{
    broadcast use lemma_cycles_push, lemma_ticked_push;

    reveal(run);
}

proof fn lemma_branches_timing(c: Core, ins: Operation, t: Seq<u8>)
    requires
        ins is Branch,
    ensures
        ticked(c.ops) ==> ticked(run(c, ins, t).ops),
        cycles(run(c, ins, t).ops) == cycles(c.ops) + run_cycles(c, ins, t),
{
    broadcast use lemma_cycles_push, lemma_ticked_push;

    reveal(run);
}

proof fn lemma_jumps_timing(c: Core, ins: Operation, t: Seq<u8>)
    requires
        ins is Jump || ins is Nop,
        mode_of(ins) is Some,
    ensures
        ticked(c.ops) ==> ticked(run(c, ins, t).ops),
        cycles(run(c, ins, t).ops) == cycles(c.ops) + run_cycles(c, ins, t),
{
    broadcast use lemma_cycles_push, lemma_ticked_push;

    reveal(run);
    lemma_resolve_timing(c, mode_of(ins).unwrap(), t);
}

proof fn lemma_implied_timing(c: Core, ins: Operation, t: Seq<u8>)
    requires
        !is_reader(ins),
        !is_writer(ins),
        !is_modifier(ins),
        !is_stack_user(ins),
        !(ins is Branch),
        mode_of(ins) is None,
    ensures
        ticked(c.ops) ==> ticked(run(c, ins, t).ops),
        cycles(run(c, ins, t).ops) == cycles(c.ops) + run_cycles(c, ins, t),
{
    broadcast use lemma_cycles_push, lemma_ticked_push;

    reveal(run);
}

/// An instruction keeps the rule that a cycle precedes every access, and
/// takes the cycles that `run_cycles` counts.
pub proof fn lemma_run_timing(c: Core, ins: Operation, t: Seq<u8>)
    ensures
        ticked(c.ops) ==> ticked(run(c, ins, t).ops),
        cycles(run(c, ins, t).ops) == cycles(c.ops) + run_cycles(c, ins, t),
{
    if is_reader(ins) {
        lemma_readers_timing(c, ins, t);
    } else if is_writer(ins) {
        lemma_writers_timing(c, ins, t);
    } else if is_modifier(ins) {
        lemma_modifiers_timing(c, ins, t);
    } else if is_stack_user(ins) {
        lemma_stack_users_timing(c, ins, t);
    } else if ins is Branch {
        lemma_branches_timing(c, ins, t);
    } else if mode_of(ins) is Some {
        lemma_jumps_timing(c, ins, t);
    } else {
        lemma_implied_timing(c, ins, t);
    }
}

/// A step of the engine keeps the rule that a cycle precedes every read and
/// every write, and takes one cycle for the opcode and then those of the
/// instruction.
pub proof fn lemma_step_timing(c: Core, t: Seq<u8>)
    ensures
        ticked(c.ops) ==> ticked(step(c, t).ops),
        cycles(step(c, t).ops) == cycles(c.ops) + 1 + run_cycles(
            fetch(c, t),
            decode(c.next(t)),
            t,
        ),
{
    broadcast use lemma_cycles_push, lemma_ticked_push;

    lemma_run_timing(fetch(c, t), decode(c.next(t)), t);
}

/// A reset keeps the rule that a cycle precedes every read, and takes two
/// cycles.
pub proof fn lemma_reset_timing(c: Core, t: Seq<u8>)
    ensures
        ticked(c.ops) ==> ticked(reset(c, t).ops),
        cycles(reset(c, t).ops) == cycles(c.ops) + 2,
{
    broadcast use lemma_cycles_push, lemma_ticked_push;

}

/// The data sheet's cycles for an instruction that reads its operand.
pub open spec fn sheet_read(m: AddressingMode) -> nat {
    match m {
        AddressingMode::Immediate => 2,
        AddressingMode::ZeroPage => 3,
        AddressingMode::ZeroPageX | AddressingMode::ZeroPageY => 4,
        AddressingMode::Absolute => 4,
        AddressingMode::AbsoluteX(_) | AddressingMode::AbsoluteY(_) => 4,
        AddressingMode::IndirectX => 6,
        AddressingMode::IndirectY(_) => 5,
        AddressingMode::Indirect => 0,
    }
}

/// The data sheet's cycles for an instruction that stores to its operand.
pub open spec fn sheet_write(m: AddressingMode) -> nat {
    match m {
        AddressingMode::ZeroPage => 3,
        AddressingMode::ZeroPageX | AddressingMode::ZeroPageY => 4,
        AddressingMode::Absolute => 4,
        AddressingMode::AbsoluteX(_) | AddressingMode::AbsoluteY(_) => 5,
        AddressingMode::IndirectX => 6,
        AddressingMode::IndirectY(_) => 6,
        _ => 0,
    }
}

/// The data sheet's cycles for an instruction that reads its operand and
/// writes it back.
pub open spec fn sheet_modify(m: AddressingMode) -> nat {
    match m {
        AddressingMode::ZeroPage => 5,
        AddressingMode::ZeroPageX => 6,
        AddressingMode::Absolute => 6,
        AddressingMode::AbsoluteX(_) => 7,
        _ => 0,
    }
}

/// The instructions of the data sheet, each in the modes the data sheet
/// gives its kind. The indexed modes of an instruction that only reads pay
/// for a page crossing; those of the others do not.
pub open spec fn documented(ins: Operation) -> bool {
    match ins {
        Operation::Load(_, m)
        | Operation::Add(m)
        | Operation::Sub(m)
        | Operation::And(m)
        | Operation::Or(m)
        | Operation::Xor(m)
        | Operation::Bits(m)
        | Operation::Compare(_, m) => match m {
            AddressingMode::Indirect => false,
            AddressingMode::AbsoluteX(extra)
            | AddressingMode::AbsoluteY(extra)
            | AddressingMode::IndirectY(extra) => extra,
            _ => true,
        },
        Operation::Store(_, m) => match m {
            AddressingMode::Indirect | AddressingMode::Immediate => false,
            AddressingMode::AbsoluteX(extra)
            | AddressingMode::AbsoluteY(extra)
            | AddressingMode::IndirectY(extra) => !extra,
            _ => true,
        },
        Operation::Inc(None, Some(m))
        | Operation::Dec(None, Some(m))
        | Operation::Asl(Some(m))
        | Operation::Lsr(Some(m))
        | Operation::Rol(Some(m))
        | Operation::Ror(Some(m)) => match m {
            AddressingMode::ZeroPage | AddressingMode::ZeroPageX | AddressingMode::Absolute => true,
            AddressingMode::AbsoluteX(extra) => !extra,
            _ => false,
        },
        Operation::Inc(Some(_), _) | Operation::Dec(Some(_), _) => true,
        Operation::Asl(None) | Operation::Lsr(None) | Operation::Rol(None) | Operation::Ror(
            None,
        ) => true,
        Operation::Transfer(_, _) | Operation::Flag(_, _) | Operation::Nop(None) => true,
        Operation::Branch(_, _) | Operation::Ret(_) | Operation::Break | Operation::Stack(
            _,
            _,
        ) => true,
        Operation::Jump(None)
        | Operation::Jump(Some(AddressingMode::Absolute))
        | Operation::Jump(Some(AddressingMode::Indirect)) => true,
        _ => false,
    }
}

/// The kinds of instruction that no data sheet lists, and the bytes that
/// encode nothing.
pub open spec fn undocumented(ins: Operation) -> bool {
    ins is Nop && mode_of(ins) is Some || ins is Lax || ins is Sax || ins is Dcp || ins is Isb
        || ins is Slo || ins is Rla || ins is Sre || ins is Rra || ins is Aac || ins is Asr
        || ins is Arr || ins is Atx || ins is Axs || ins is Sa || ins is Sha || ins is Tas
        || ins is BadOp
}

/// Every opcode decodes either to an instruction of the data sheet in one of
/// its modes, or to an undocumented one: the laws on documented instructions
/// reach every documented opcode.
pub proof fn lemma_decode_is_tabled(b: u8)
    ensures
        documented(decode(b)) != undocumented(decode(b)),
{
    reveal(decode);
}

/// The data sheet's cycles for a documented instruction, without the
/// penalties for page crossings and taken branches.
pub open spec fn sheet_cycles(ins: Operation) -> nat {
    if is_reader(ins) {
        sheet_read(mode_of(ins).unwrap())
    } else if is_writer(ins) {
        sheet_write(mode_of(ins).unwrap())
    } else if is_modifier(ins) {
        sheet_modify(mode_of(ins).unwrap())
    } else {
        match ins {
            Operation::Jump(Some(AddressingMode::Absolute)) => 3,
            Operation::Jump(Some(_)) => 5,
            Operation::Jump(None) => 6,
            Operation::Ret(_) => 6,
            Operation::Break => 7,
            Operation::Stack(_, true) => 3,
            Operation::Stack(_, false) => 4,
            _ => 2,
        }
    }
}

/// The data sheet's penalties: one cycle where an instruction that only
/// reads crosses a page with its index; one cycle for a branch taken, and
/// one more where its target lies on another page.
pub open spec fn sheet_penalty(c: Core, ins: Operation, t: Seq<u8>) -> nat {
    if is_reader(ins) {
        if page_crossed(c, mode_of(ins).unwrap(), t) {
            1
        } else {
            0
        }
    } else if branch_taken(c, ins) {
        if branch_crossed(c, t) {
            2
        } else {
            1
        }
    } else {
        0
    }
}

/// The documented instructions that the engine times otherwise than the
/// data sheet does: BRK, and the stores and read-modify-writes indexed from
/// an absolute address, take one cycle less; the reads through a pointer
/// indexed by Y take one cycle more.
pub open spec fn off_sheet(ins: Operation) -> bool {
    match ins {
        Operation::Break => true,
        _ => match mode_of(ins) {
            Some(AddressingMode::AbsoluteX(_)) | Some(AddressingMode::AbsoluteY(_)) => is_writer(
                ins,
            ) || is_modifier(ins),
            Some(AddressingMode::IndirectY(_)) => is_reader(ins),
            _ => false,
        },
    }
}

/// The engine's cycles for a documented instruction against the data
/// sheet's: equal but for the instructions that `off_sheet` names.
pub proof fn lemma_sheet_cycles(c: Core, ins: Operation, t: Seq<u8>)
    requires
        documented(ins),
    ensures
        !off_sheet(ins) ==> 1 + run_cycles(c, ins, t) == sheet_cycles(ins) + sheet_penalty(
            c,
            ins,
            t,
        ),
        off_sheet(ins) && !is_reader(ins) ==> 1 + run_cycles(c, ins, t) + 1 == sheet_cycles(ins),
        off_sheet(ins) && is_reader(ins) ==> 1 + run_cycles(c, ins, t) == sheet_cycles(ins)
            + sheet_penalty(c, ins, t) + 1,
{
}

/// A step on a documented instruction takes the cycles of the data sheet:
/// its base count, one more where an indexed read crosses a page, one more
/// for a branch taken and another where the branch crosses a page. This
/// holds of every documented instruction but those that `off_sheet` names.
pub proof fn lemma_step_sheet_timing(c: Core, t: Seq<u8>)
    requires
        documented(decode(c.next(t))),
        !off_sheet(decode(c.next(t))),
    ensures
        cycles(step(c, t).ops) == cycles(c.ops) + sheet_cycles(decode(c.next(t))) + sheet_penalty(
            fetch(c, t),
            decode(c.next(t)),
            t,
        ),
{
    lemma_step_timing(c, t);
    lemma_sheet_cycles(fetch(c, t), decode(c.next(t)), t);
}

} // verus!
