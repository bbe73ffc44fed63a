use std::cell::RefCell;

use nesmesis::cpu::reg::{Flag, Register};
use nesmesis::cpu::{CpuError, CPU};
use nesmesis::MMU;

#[derive(Clone, Copy, Debug, PartialEq)]
enum Ev {
    Cycle,
    Read(u16),
    Write(u16, u8),
}

/// 64 KB of plain memory that records what is done to it.
struct Bus {
    mem: Vec<u8>,
    log: RefCell<Vec<Ev>>,
}

impl Bus {
    /// Memory with `program` at 0x8000 and the reset vector pointing there.
    fn with_program(program: &[u8]) -> Bus {
        Bus::with_program_at(0x8000, program)
    }

    fn with_program_at(at: u16, program: &[u8]) -> Bus {
        let mut bus = Bus {
            mem: vec![0; 0x10000],
            log: RefCell::new(vec![]),
        };
        bus.put(at, program);
        bus.put(0xFFFC, &[(at & 0xFF) as u8, (at >> 8) as u8]);
        bus
    }

    fn put(&mut self, at: u16, bytes: &[u8]) {
        let at = at as usize;
        self.mem[at..at + bytes.len()].copy_from_slice(bytes);
    }

    fn forget(&self) {
        self.log.borrow_mut().clear();
    }

    fn events(&self) -> Vec<Ev> {
        self.log.borrow().clone()
    }

    fn cycles(&self) -> usize {
        self.log.borrow().iter().filter(|e| **e == Ev::Cycle).count()
    }

    /// Whether every read and every write came directly after a cycle.
    fn disciplined(&self) -> bool {
        let log = self.log.borrow();
        (0..log.len()).all(|i| log[i] == Ev::Cycle || (i > 0 && log[i - 1] == Ev::Cycle))
    }
}

impl MMU for Bus {
    fn read(&self, a: u16) -> u8 {
        self.log.borrow_mut().push(Ev::Read(a));
        self.mem[a as usize]
    }

    fn write(&mut self, a: u16, v: u8) {
        self.log.borrow_mut().push(Ev::Write(a, v));
        self.mem[a as usize] = v;
    }

    fn cycle(&mut self) {
        self.log.borrow_mut().push(Ev::Cycle);
    }
}

/// An engine after reset, with the record of the reset dropped.
fn boot(bus: &mut Bus) -> CPU<'_, Bus> {
    let mut c = CPU::new(bus);
    c.init();
    c.bus.forget();
    c
}

fn run(c: &mut CPU<'_, Bus>, steps: usize) {
    for _ in 0..steps {
        assert_eq!(c.execute(), Ok(()));
    }
}

/// The cycles that the first instruction of `program` takes, with X and Y
/// as given and all other memory zero.
fn cycles_of(program: &[u8], x: u8, y: u8) -> usize {
    let mut bus = Bus::with_program(program);
    let mut c = boot(&mut bus);
    c.reg.write(Register::X, x);
    c.reg.write(Register::Y, y);
    run(&mut c, 1);
    c.bus.cycles()
}

fn flags(c: &CPU<'_, Bus>) -> (bool, bool, bool, bool) {
    (
        c.reg.check_flag(Flag::Negative),
        c.reg.check_flag(Flag::Overflow),
        c.reg.check_flag(Flag::Zero),
        c.reg.check_flag(Flag::Carry),
    )
}

#[test]
fn reset_loads_the_vector_and_the_documented_state() {
    let mut bus = Bus::with_program_at(0xC123, &[0xEA]);
    let mut c = CPU::new(&mut bus);
    c.init();
    assert_eq!(c.reg.read_pc(), 0xC123);
    assert_eq!(c.reg.read(Register::SP), 0xFD);
    assert_eq!(c.reg.read(Register::P), 0x24);
    assert_eq!(c.reg.read(Register::A), 0);
    assert_eq!(c.reg.read(Register::X), 0);
    assert_eq!(c.reg.read(Register::Y), 0);
    assert_eq!(
        c.bus.events(),
        vec![Ev::Cycle, Ev::Read(0xFFFC), Ev::Cycle, Ev::Read(0xFFFD)]
    );
}

#[test]
fn adc_overflow_corners() {
    let mut bus = Bus::with_program(&[0xA9, 0x50, 0x69, 0x50]);
    let mut c = boot(&mut bus);
    run(&mut c, 2);
    assert_eq!(c.reg.read(Register::A), 0xA0);
    assert_eq!(flags(&c), (true, true, false, false));

    let mut bus = Bus::with_program(&[0xA9, 0xD0, 0x69, 0x90]);
    let mut c = boot(&mut bus);
    run(&mut c, 2);
    assert_eq!(c.reg.read(Register::A), 0x60);
    assert_eq!(flags(&c), (false, true, false, true));
}

#[test]
fn adc_law_on_every_pair_of_operands() {
    for carry in [false, true] {
        for a in 0..=255u8 {
            for b in (0..=255u8).step_by(7) {
                let mut bus = Bus::with_program(&[0x69, b]);
                let mut c = boot(&mut bus);
                c.reg.write(Register::A, a);
                c.reg.update_flag(Flag::Carry, carry);
                run(&mut c, 1);
                let r = a as u16 + b as u16 + carry as u16;
                assert_eq!(c.reg.read(Register::A), (r & 0xFF) as u8);
                assert_eq!(c.reg.check_flag(Flag::Carry), r > 0xFF);
                assert_eq!(
                    c.reg.check_flag(Flag::Overflow),
                    (!(a ^ b) as u16 & (a as u16 ^ r) & 0x80) != 0
                );
                assert_eq!(c.reg.check_flag(Flag::Zero), r & 0xFF == 0);
                assert_eq!(c.reg.check_flag(Flag::Negative), r & 0x80 != 0);
            }
        }
    }
}

#[test]
fn sbc_law_on_every_pair_of_operands() {
    for carry in [false, true] {
        for a in (0..=255u8).step_by(5) {
            for m in 0..=255u8 {
                let mut bus = Bus::with_program(&[0xE9, m]);
                let mut c = boot(&mut bus);
                c.reg.write(Register::A, a);
                c.reg.update_flag(Flag::Carry, carry);
                run(&mut c, 1);
                let b = m ^ 0xFF;
                let r = a as u16 + b as u16 + carry as u16;
                assert_eq!(c.reg.read(Register::A), (r & 0xFF) as u8);
                assert_eq!(c.reg.check_flag(Flag::Carry), r > 0xFF);
                assert_eq!(
                    c.reg.check_flag(Flag::Overflow),
                    (!(a ^ b) as u16 & (a as u16 ^ r) & 0x80) != 0
                );
                let d = a as i32 - m as i32 - (1 - carry as i32);
                assert_eq!(c.reg.read(Register::A), d.rem_euclid(256) as u8);
                assert_eq!(c.reg.check_flag(Flag::Carry), d >= 0);
            }
        }
    }
}

#[test]
fn sbc_corners() {
    // 0x50 - 0xF0: a borrow, no signed overflow.
    let mut bus = Bus::with_program(&[0x38, 0xA9, 0x50, 0xE9, 0xF0]);
    let mut c = boot(&mut bus);
    run(&mut c, 3);
    assert_eq!(c.reg.read(Register::A), 0x60);
    assert_eq!(flags(&c), (false, false, false, false));

    // 0x50 - 0xB0: a borrow and a signed overflow.
    let mut bus = Bus::with_program(&[0x38, 0xA9, 0x50, 0xE9, 0xB0]);
    let mut c = boot(&mut bus);
    run(&mut c, 3);
    assert_eq!(c.reg.read(Register::A), 0xA0);
    assert_eq!(flags(&c), (true, true, false, false));

    // The undocumented opcode 0xEB subtracts as 0xE9 does.
    let mut bus = Bus::with_program(&[0x38, 0xA9, 0x50, 0xEB, 0x10]);
    let mut c = boot(&mut bus);
    run(&mut c, 3);
    assert_eq!(c.reg.read(Register::A), 0x40);
    assert_eq!(flags(&c), (false, false, false, true));
}

#[test]
fn branch_costs_a_cycle_when_taken_and_one_more_across_a_page() {
    // BNE +2 whose next instruction lies at 0x80FE: the target 0x8100 is on
    // the next page.
    let mut bus = Bus::with_program_at(0x80FC, &[0xD0, 0x02]);
    let mut c = boot(&mut bus);
    run(&mut c, 1);
    assert_eq!(c.reg.read_pc(), 0x8100);
    assert_eq!(c.bus.cycles(), 4);

    // Not taken.
    let mut bus = Bus::with_program_at(0x80FC, &[0xD0, 0x02]);
    let mut c = boot(&mut bus);
    c.reg.update_flag(Flag::Zero, true);
    run(&mut c, 1);
    assert_eq!(c.reg.read_pc(), 0x80FE);
    assert_eq!(c.bus.cycles(), 2);

    // Taken within the page.
    let mut bus = Bus::with_program(&[0xD0, 0x02]);
    let mut c = boot(&mut bus);
    run(&mut c, 1);
    assert_eq!(c.reg.read_pc(), 0x8004);
    assert_eq!(c.bus.cycles(), 3);
}

#[test]
fn branch_page_is_judged_from_the_next_instruction() {
    // BNE +2 at 0x80FE: the next instruction lies at 0x8100, and so does
    // the target 0x8102.
    let mut bus = Bus::with_program_at(0x80FE, &[0xD0, 0x02]);
    let mut c = boot(&mut bus);
    run(&mut c, 1);
    assert_eq!(c.reg.read_pc(), 0x8102);
    assert_eq!(c.bus.cycles(), 3);
}

#[test]
fn backward_branch() {
    // BNE -2 at 0x8000 jumps onto itself, within the page.
    let mut bus = Bus::with_program(&[0xD0, 0xFE]);
    let mut c = boot(&mut bus);
    run(&mut c, 1);
    assert_eq!(c.reg.read_pc(), 0x8000);
    assert_eq!(c.bus.cycles(), 3);

    // BNE -3 at 0x80FE: from 0x8100 back to 0x80FD, onto the page before.
    let mut bus = Bus::with_program_at(0x80FE, &[0xD0, 0xFD]);
    let mut c = boot(&mut bus);
    run(&mut c, 1);
    assert_eq!(c.reg.read_pc(), 0x80FD);
    assert_eq!(c.bus.cycles(), 4);
}

#[test]
fn every_branch_tests_its_flag() {
    let cases = [
        (0x10, Flag::Negative, false),
        (0x30, Flag::Negative, true),
        (0x50, Flag::Overflow, false),
        (0x70, Flag::Overflow, true),
        (0x90, Flag::Carry, false),
        (0xB0, Flag::Carry, true),
        (0xD0, Flag::Zero, false),
        (0xF0, Flag::Zero, true),
    ];
    for (opcode, flag, when) in cases {
        for value in [false, true] {
            let mut bus = Bus::with_program(&[opcode, 0x10]);
            let mut c = boot(&mut bus);
            c.reg.update_flag(flag, value);
            run(&mut c, 1);
            let expected = if value == when { 0x8012 } else { 0x8002 };
            assert_eq!(c.reg.read_pc(), expected);
        }
    }
}

#[test]
fn inc_of_0xff_in_zero_page() {
    let mut bus = Bus::with_program(&[0xE6, 0x10]);
    bus.put(0x10, &[0xFF]);
    let mut c = boot(&mut bus);
    run(&mut c, 1);
    assert_eq!(c.bus.mem[0x10], 0x00);
    assert!(c.reg.check_flag(Flag::Zero));
    assert!(!c.reg.check_flag(Flag::Negative));
    assert_eq!(c.bus.cycles(), 5);
    assert_eq!(
        c.bus.events(),
        vec![
            Ev::Cycle,
            Ev::Read(0x8000),
            Ev::Cycle,
            Ev::Read(0x8001),
            Ev::Cycle,
            Ev::Read(0x0010),
            Ev::Cycle,
            Ev::Cycle,
            Ev::Write(0x0010, 0x00),
        ]
    );
}

#[test]
fn jsr_rts_round_trip() {
    let mut bus = Bus::with_program(&[0x20, 0x34, 0x12]);
    bus.put(0x1234, &[0x60]);
    let mut c = boot(&mut bus);
    run(&mut c, 1);
    assert_eq!(c.reg.read_pc(), 0x1234);
    assert_eq!(c.reg.read(Register::SP), 0xFB);
    assert_eq!(c.bus.mem[0x01FD], 0x80);
    assert_eq!(c.bus.mem[0x01FC], 0x02);
    assert_eq!(c.bus.cycles(), 6);
    assert_eq!(
        c.bus.events(),
        vec![
            Ev::Cycle,
            Ev::Read(0x8000),
            Ev::Cycle,
            Ev::Cycle,
            Ev::Write(0x01FD, 0x80),
            Ev::Cycle,
            Ev::Write(0x01FC, 0x02),
            Ev::Cycle,
            Ev::Read(0x8001),
            Ev::Cycle,
            Ev::Read(0x8002),
        ]
    );

    c.bus.forget();
    run(&mut c, 1);
    assert_eq!(c.reg.read_pc(), 0x8003);
    assert_eq!(c.reg.read(Register::SP), 0xFD);
    assert_eq!(c.bus.cycles(), 6);
}

#[test]
fn stack_wraps_after_256_pushes() {
    let mut bus = Bus::with_program(&[0x48; 256]);
    let mut c = boot(&mut bus);
    for i in 0..256usize {
        c.reg.write(Register::A, i as u8);
        run(&mut c, 1);
    }
    assert_eq!(c.reg.read(Register::SP), 0xFD);
    for i in 0..256usize {
        let at = 0x100 + ((0xFD + 256 - i) & 0xFF);
        assert_eq!(c.bus.mem[at], i as u8);
    }
    let written: Vec<u16> = c
        .bus
        .events()
        .iter()
        .filter_map(|e| match e {
            Ev::Write(a, _) => Some(*a),
            _ => None,
        })
        .collect();
    assert_eq!(written.len(), 256);
    for a in 0x0100..=0x01FFu16 {
        assert_eq!(written.iter().filter(|w| **w == a).count(), 1);
    }
}

#[test]
fn pull_wraps_the_stack_pointer() {
    let mut bus = Bus::with_program(&[0x68]);
    bus.put(0x0100, &[0x99]);
    let mut c = boot(&mut bus);
    c.reg.write(Register::SP, 0xFF);
    run(&mut c, 1);
    assert_eq!(c.reg.read(Register::SP), 0x00);
    assert_eq!(c.reg.read(Register::A), 0x99);
}

#[test]
fn indirect_jump_wraps_within_the_page() {
    let mut bus = Bus::with_program(&[0x6C, 0xFF, 0x12]);
    bus.put(0x12FF, &[0x34]);
    bus.put(0x1200, &[0x56]);
    bus.put(0x1300, &[0x78]);
    let mut c = boot(&mut bus);
    run(&mut c, 1);
    assert_eq!(c.reg.read_pc(), 0x5634);
    assert_eq!(c.bus.cycles(), 5);
    let events = c.bus.events();
    assert_eq!(events[7], Ev::Read(0x12FF));
    assert_eq!(events[9], Ev::Read(0x1200));
    assert_eq!(events.len(), 10);
}

#[test]
fn indirect_jump_within_a_page() {
    let mut bus = Bus::with_program(&[0x6C, 0x10, 0x12]);
    bus.put(0x1210, &[0x34, 0x56]);
    let mut c = boot(&mut bus);
    run(&mut c, 1);
    assert_eq!(c.reg.read_pc(), 0x5634);
}

#[test]
fn zero_page_pointer_wraps() {
    // LDA ($FF,X) with X = 0.
    let mut bus = Bus::with_program(&[0xA1, 0xFF]);
    bus.put(0x00FF, &[0x00]);
    bus.put(0x0000, &[0x30]);
    bus.put(0x0100, &[0x40]);
    bus.put(0x3000, &[0x77]);
    bus.put(0x4000, &[0x88]);
    let mut c = boot(&mut bus);
    run(&mut c, 1);
    assert_eq!(c.reg.read(Register::A), 0x77);
    let events = c.bus.events();
    assert_eq!(events[6], Ev::Read(0x00FF));
    assert_eq!(events[8], Ev::Read(0x0000));

    // LDA ($FE,X) with X = 1 reaches the same pointer.
    let mut bus = Bus::with_program(&[0xA1, 0xFE]);
    bus.put(0x00FF, &[0x00]);
    bus.put(0x0000, &[0x30]);
    bus.put(0x3000, &[0x77]);
    let mut c = boot(&mut bus);
    c.reg.write(Register::X, 1);
    run(&mut c, 1);
    assert_eq!(c.reg.read(Register::A), 0x77);

    // LDA ($FF),Y with Y = 1.
    let mut bus = Bus::with_program(&[0xB1, 0xFF]);
    bus.put(0x00FF, &[0x00]);
    bus.put(0x0000, &[0x30]);
    bus.put(0x0100, &[0x40]);
    bus.put(0x3001, &[0x55]);
    let mut c = boot(&mut bus);
    c.reg.write(Register::Y, 1);
    run(&mut c, 1);
    assert_eq!(c.reg.read(Register::A), 0x55);
}

#[test]
fn zero_page_index_stays_in_page_zero() {
    // LDA $F0,X with X = 0x20 reads 0x0010.
    let mut bus = Bus::with_program(&[0xB5, 0xF0]);
    bus.put(0x0010, &[0x11]);
    bus.put(0x0110, &[0x22]);
    let mut c = boot(&mut bus);
    c.reg.write(Register::X, 0x20);
    run(&mut c, 1);
    assert_eq!(c.reg.read(Register::A), 0x11);

    // LDX $F0,Y with Y = 0x20 reads 0x0010.
    let mut bus = Bus::with_program(&[0xB6, 0xF0]);
    bus.put(0x0010, &[0x33]);
    let mut c = boot(&mut bus);
    c.reg.write(Register::Y, 0x20);
    run(&mut c, 1);
    assert_eq!(c.reg.read(Register::X), 0x33);
}

#[test]
fn every_access_follows_a_cycle() {
    for opcode in 0..=255u8 {
        for index in [0x00u8, 0xFF] {
            let mut bus = Bus::with_program(&[opcode, 0xFF, 0x20, opcode, 0x10, 0x80]);
            let mut c = CPU::new(&mut bus);
            c.init();
            c.reg.write(Register::X, index);
            c.reg.write(Register::Y, index);
            let _ = c.execute();
            let _ = c.execute();
            assert!(c.bus.disciplined(), "opcode {:02X}", opcode);
        }
    }
}

#[test]
fn cycle_counts_of_the_data_sheet() {
    let table: Vec<(&[u8], usize)> = vec![
        (&[0xA9, 0x01], 2),
        (&[0xA5, 0x10], 3),
        (&[0xB5, 0x10], 4),
        (&[0xAD, 0x00, 0x02], 4),
        (&[0xBD, 0x00, 0x02], 4),
        (&[0xB9, 0x00, 0x02], 4),
        (&[0xA1, 0x10], 6),
        (&[0xA2, 0x01], 2),
        (&[0xA6, 0x10], 3),
        (&[0xB6, 0x10], 4),
        (&[0xAE, 0x00, 0x02], 4),
        (&[0xBE, 0x00, 0x02], 4),
        (&[0xA0, 0x01], 2),
        (&[0xA4, 0x10], 3),
        (&[0xB4, 0x10], 4),
        (&[0xAC, 0x00, 0x02], 4),
        (&[0xBC, 0x00, 0x02], 4),
        (&[0x85, 0x10], 3),
        (&[0x95, 0x10], 4),
        (&[0x8D, 0x00, 0x02], 4),
        (&[0x81, 0x10], 6),
        (&[0x91, 0x10], 6),
        (&[0x86, 0x10], 3),
        (&[0x96, 0x10], 4),
        (&[0x8E, 0x00, 0x02], 4),
        (&[0x84, 0x10], 3),
        (&[0x94, 0x10], 4),
        (&[0x8C, 0x00, 0x02], 4),
        (&[0x69, 0x01], 2),
        (&[0x65, 0x10], 3),
        (&[0x6D, 0x00, 0x02], 4),
        (&[0x61, 0x10], 6),
        (&[0xE9, 0x01], 2),
        (&[0x29, 0x01], 2),
        (&[0x09, 0x01], 2),
        (&[0x49, 0x01], 2),
        (&[0xC9, 0x01], 2),
        (&[0xE0, 0x01], 2),
        (&[0xC0, 0x01], 2),
        (&[0x24, 0x10], 3),
        (&[0x2C, 0x00, 0x02], 4),
        (&[0xE6, 0x10], 5),
        (&[0xF6, 0x10], 6),
        (&[0xEE, 0x00, 0x02], 6),
        (&[0xC6, 0x10], 5),
        (&[0x06, 0x10], 5),
        (&[0x4E, 0x00, 0x02], 6),
        (&[0x36, 0x10], 6),
        (&[0x66, 0x10], 5),
        (&[0xAA], 2),
        (&[0xA8], 2),
        (&[0x8A], 2),
        (&[0x98], 2),
        (&[0xBA], 2),
        (&[0x9A], 2),
        (&[0xE8], 2),
        (&[0x88], 2),
        (&[0x0A], 2),
        (&[0x6A], 2),
        (&[0x18], 2),
        (&[0xEA], 2),
        (&[0x4C, 0x00, 0x90], 3),
        (&[0x6C, 0x00, 0x02], 5),
        (&[0x20, 0x00, 0x90], 6),
        (&[0x48], 3),
        (&[0x08], 3),
        (&[0x68], 4),
        (&[0x28], 4),
    ];
    for (program, expected) in table {
        assert_eq!(cycles_of(program, 0, 0), expected, "opcode {:02X}", program[0]);
    }

    let mut bus = Bus::with_program(&[0x60]);
    let mut c = boot(&mut bus);
    run(&mut c, 1);
    assert_eq!(c.bus.cycles(), 6);

    let mut bus = Bus::with_program(&[0x40]);
    let mut c = boot(&mut bus);
    run(&mut c, 1);
    assert_eq!(c.bus.cycles(), 6);
}

#[test]
fn cycle_counts_off_the_data_sheet() {
    // BRK takes six.
    assert_eq!(cycles_of(&[0x00], 0, 0), 6);
    // Stores indexed from an absolute address take four.
    assert_eq!(cycles_of(&[0x9D, 0x00, 0x02], 0, 0), 4);
    assert_eq!(cycles_of(&[0x99, 0x00, 0x02], 0, 0), 4);
    // Read-modify-writes indexed from an absolute address take six.
    for opcode in [0xFE, 0xDE, 0x1E, 0x5E, 0x3E, 0x7E] {
        assert_eq!(cycles_of(&[opcode, 0x00, 0x02], 0, 0), 6);
    }
    // Reads through a pointer indexed by Y take six.
    for opcode in [0xB1, 0x71, 0xF1, 0x31, 0x11, 0x51, 0xD1] {
        assert_eq!(cycles_of(&[opcode, 0x10], 0, 0), 6);
    }
}

#[test]
fn page_crossing_costs_a_read_one_cycle() {
    // LDA $02FF,X
    assert_eq!(cycles_of(&[0xBD, 0xFF, 0x02], 0x00, 0), 4);
    assert_eq!(cycles_of(&[0xBD, 0xFF, 0x02], 0x01, 0), 5);
    // LDA $02FF,Y
    assert_eq!(cycles_of(&[0xB9, 0xFF, 0x02], 0, 0x01), 5);
    // LDX $02FF,Y
    assert_eq!(cycles_of(&[0xBE, 0xFF, 0x02], 0, 0x01), 5);
    // LDY $02FF,X
    assert_eq!(cycles_of(&[0xBC, 0xFF, 0x02], 0x01, 0), 5);
    // ADC $0280,X with X = 0x80
    assert_eq!(cycles_of(&[0x7D, 0x80, 0x02], 0x7F, 0), 4);
    assert_eq!(cycles_of(&[0x7D, 0x80, 0x02], 0x80, 0), 5);

    // LDA ($10),Y with the pointer 0x02FF.
    let mut bus = Bus::with_program(&[0xB1, 0x10]);
    bus.put(0x0010, &[0xFF, 0x02]);
    bus.put(0x0300, &[0x5A]);
    let mut c = boot(&mut bus);
    c.reg.write(Register::Y, 1);
    run(&mut c, 1);
    assert_eq!(c.reg.read(Register::A), 0x5A);
    assert_eq!(c.bus.cycles(), 7);

    // With a large Y below the page's end: no crossing.
    let mut bus = Bus::with_program(&[0xB1, 0x10]);
    bus.put(0x0010, &[0x10, 0x02]);
    bus.put(0x02E0, &[0x6B]);
    let mut c = boot(&mut bus);
    c.reg.write(Register::Y, 0xD0);
    run(&mut c, 1);
    assert_eq!(c.reg.read(Register::A), 0x6B);
    assert_eq!(c.bus.cycles(), 6);
}

#[test]
fn page_crossing_costs_a_store_nothing() {
    assert_eq!(cycles_of(&[0x9D, 0xFF, 0x02], 0x01, 0), 4);
    assert_eq!(cycles_of(&[0x99, 0xFF, 0x02], 0, 0x01), 4);
    assert_eq!(cycles_of(&[0xFE, 0xFF, 0x02], 0x01, 0), 6);

    let mut bus = Bus::with_program(&[0x91, 0x10]);
    bus.put(0x0010, &[0xFF, 0x02]);
    let mut c = boot(&mut bus);
    c.reg.write(Register::A, 0x42);
    c.reg.write(Register::Y, 1);
    run(&mut c, 1);
    assert_eq!(c.bus.mem[0x0300], 0x42);
    assert_eq!(c.bus.cycles(), 6);
}

#[test]
fn unknown_opcode_is_reported() {
    for opcode in [
        0x02u8, 0x12, 0x22, 0x32, 0x42, 0x52, 0x62, 0x72, 0x92, 0xB2, 0xD2, 0xF2, 0x8B, 0xBB,
    ] {
        let mut bus = Bus::with_program(&[opcode, 0x01, 0x02]);
        let mut c = boot(&mut bus);
        assert_eq!(c.execute(), Err(CpuError::UnknownOpcode(opcode)));
        assert_eq!(c.reg.read_pc(), 0x8001);
        assert_eq!(c.reg.read(Register::P), 0x24);
        assert_eq!(c.reg.read(Register::SP), 0xFD);
        assert_eq!(c.bus.events(), vec![Ev::Cycle, Ev::Read(0x8000)]);
    }
}

#[test]
fn every_other_opcode_runs() {
    let unknown = [
        0x02u8, 0x12, 0x22, 0x32, 0x42, 0x52, 0x62, 0x72, 0x92, 0xB2, 0xD2, 0xF2, 0x8B, 0xBB,
    ];
    for opcode in 0..=255u8 {
        let mut bus = Bus::with_program(&[opcode, 0x01, 0x02]);
        let mut c = boot(&mut bus);
        assert_eq!(c.execute().is_ok(), !unknown.contains(&opcode));
    }
}

#[test]
fn brk_takes_the_irq_vector() {
    let mut bus = Bus::with_program(&[0x00]);
    bus.put(0xFFFE, &[0x00, 0x90]);
    bus.put(0xFFFA, &[0x00, 0xA0]);
    let mut c = boot(&mut bus);
    run(&mut c, 1);
    assert_eq!(c.reg.read_pc(), 0x9000);
    assert_eq!(c.reg.read(Register::SP), 0xFA);
    assert_eq!(c.reg.read(Register::P), 0x24);
    assert_eq!(c.bus.mem[0x01FD], 0x80);
    assert_eq!(c.bus.mem[0x01FC], 0x02);
    assert_eq!(c.bus.mem[0x01FB], 0x34);
    assert_eq!(
        c.bus.events(),
        vec![
            Ev::Cycle,
            Ev::Read(0x8000),
            Ev::Cycle,
            Ev::Write(0x01FD, 0x80),
            Ev::Cycle,
            Ev::Write(0x01FC, 0x02),
            Ev::Cycle,
            Ev::Write(0x01FB, 0x34),
            Ev::Cycle,
            Ev::Read(0xFFFE),
            Ev::Cycle,
            Ev::Read(0xFFFF),
        ]
    );
}

#[test]
fn brk_sets_interrupt_disable() {
    let mut bus = Bus::with_program(&[0x58, 0x00]);
    bus.put(0xFFFE, &[0x00, 0x90]);
    let mut c = boot(&mut bus);
    run(&mut c, 1);
    assert_eq!(c.reg.read(Register::P), 0x20);
    run(&mut c, 1);
    assert_eq!(c.reg.read(Register::P), 0x24);
    assert_eq!(c.bus.mem[0x01FB], 0x30);
}

#[test]
fn brk_takes_the_nmi_vector_when_latched() {
    let mut bus = Bus::with_program(&[0x00]);
    bus.put(0xFFFE, &[0x00, 0x90]);
    bus.put(0xFFFA, &[0x00, 0xA0]);
    let mut c = boot(&mut bus);
    c.nmi = true;
    run(&mut c, 1);
    assert_eq!(c.reg.read_pc(), 0xA000);

    let mut bus = Bus::with_program(&[0x00]);
    bus.put(0xFFFE, &[0x00, 0x90]);
    bus.put(0xFFFA, &[0x00, 0xA0]);
    let mut c = boot(&mut bus);
    c.nmi = true;
    c.nmi = false;
    run(&mut c, 1);
    assert_eq!(c.reg.read_pc(), 0x9000);
}

#[test]
fn rti_restores_status_and_pc() {
    let mut bus = Bus::with_program(&[0x40]);
    bus.put(0x01FB, &[0xFF, 0x34, 0x12]);
    let mut c = boot(&mut bus);
    c.reg.write(Register::SP, 0xFA);
    run(&mut c, 1);
    assert_eq!(c.reg.read(Register::P), 0xEF);
    assert_eq!(c.reg.read_pc(), 0x1234);
    assert_eq!(c.reg.read(Register::SP), 0xFD);
    assert_eq!(c.bus.cycles(), 6);
}

#[test]
fn php_sets_break_and_plp_drops_it() {
    let mut bus = Bus::with_program(&[0x08, 0x28]);
    let mut c = boot(&mut bus);
    run(&mut c, 1);
    assert_eq!(c.bus.mem[0x01FD], 0x34);
    assert_eq!(c.reg.read(Register::P), 0x24);
    c.bus.mem[0x01FD] = 0xFF;
    run(&mut c, 1);
    assert_eq!(c.reg.read(Register::P), 0xEF);

    for v in 0..=255u8 {
        let mut bus = Bus::with_program(&[0x28, 0x08]);
        bus.put(0x01FE, &[v]);
        let mut c = boot(&mut bus);
        run(&mut c, 1);
        assert_eq!(c.reg.read(Register::P), (v & 0xCF) | 0x20);
        run(&mut c, 1);
        assert_eq!(c.bus.mem[0x01FE], (v & 0xCF) | 0x20 | 0x10);
    }
}

#[test]
fn pha_and_pla() {
    let mut bus = Bus::with_program(&[0xA9, 0x7F, 0x48, 0xA9, 0x00, 0x68]);
    let mut c = boot(&mut bus);
    run(&mut c, 3);
    assert_eq!(c.bus.mem[0x01FD], 0x7F);
    assert_eq!(c.reg.read(Register::SP), 0xFC);
    assert!(c.reg.check_flag(Flag::Zero));
    run(&mut c, 1);
    assert_eq!(c.reg.read(Register::A), 0x7F);
    assert_eq!(c.reg.read(Register::SP), 0xFD);
    assert!(!c.reg.check_flag(Flag::Zero));
    assert!(!c.reg.check_flag(Flag::Negative));
}

#[test]
fn loads_set_zero_and_negative() {
    let mut bus = Bus::with_program(&[0xA9, 0x00, 0xA2, 0x80, 0xA0, 0x01]);
    let mut c = boot(&mut bus);
    run(&mut c, 1);
    assert_eq!(c.reg.read(Register::A), 0x00);
    assert_eq!(flags(&c), (false, false, true, false));
    run(&mut c, 1);
    assert_eq!(c.reg.read(Register::X), 0x80);
    assert_eq!(flags(&c), (true, false, false, false));
    run(&mut c, 1);
    assert_eq!(c.reg.read(Register::Y), 0x01);
    assert_eq!(flags(&c), (false, false, false, false));
}

#[test]
fn stores_leave_the_flags() {
    let mut bus = Bus::with_program(&[0x8D, 0x00, 0x02, 0x86, 0x10, 0x94, 0x10]);
    let mut c = boot(&mut bus);
    c.reg.write(Register::A, 0x42);
    c.reg.write(Register::X, 0x05);
    c.reg.write(Register::Y, 0x00);
    let p = c.reg.read(Register::P);
    run(&mut c, 3);
    assert_eq!(c.bus.mem[0x0200], 0x42);
    assert_eq!(c.bus.mem[0x0010], 0x05);
    assert_eq!(c.bus.mem[0x0015], 0x00);
    assert_eq!(c.reg.read(Register::P), p);
}

#[test]
fn transfers() {
    // TAX and TAY
    let mut bus = Bus::with_program(&[0xAA, 0xA8]);
    let mut c = boot(&mut bus);
    c.reg.write(Register::A, 0x80);
    c.reg.update_flag(Flag::Negative, false);
    run(&mut c, 1);
    assert_eq!(c.reg.read(Register::X), 0x80);
    assert!(c.reg.check_flag(Flag::Negative));
    run(&mut c, 1);
    assert_eq!(c.reg.read(Register::Y), 0x80);

    // TXA and TYA
    let mut bus = Bus::with_program(&[0x8A, 0x98]);
    let mut c = boot(&mut bus);
    c.reg.write(Register::X, 0x11);
    c.reg.write(Register::Y, 0x00);
    run(&mut c, 1);
    assert_eq!(c.reg.read(Register::A), 0x11);
    assert!(!c.reg.check_flag(Flag::Zero));
    run(&mut c, 1);
    assert_eq!(c.reg.read(Register::A), 0x00);
    assert!(c.reg.check_flag(Flag::Zero));

    // TSX sets the flags.
    let mut bus = Bus::with_program(&[0xBA]);
    let mut c = boot(&mut bus);
    run(&mut c, 1);
    assert_eq!(c.reg.read(Register::X), 0xFD);
    assert!(c.reg.check_flag(Flag::Negative));

    // TXS does not.
    let mut bus = Bus::with_program(&[0x9A]);
    let mut c = boot(&mut bus);
    c.reg.write(Register::X, 0x80);
    c.reg.update_flag(Flag::Negative, false);
    c.reg.update_flag(Flag::Zero, true);
    let p = c.reg.read(Register::P);
    run(&mut c, 1);
    assert_eq!(c.reg.read(Register::SP), 0x80);
    assert_eq!(c.reg.read(Register::P), p);
}

#[test]
fn logic() {
    let mut bus = Bus::with_program(&[0xA9, 0xF0, 0x29, 0x3C]);
    let mut c = boot(&mut bus);
    run(&mut c, 2);
    assert_eq!(c.reg.read(Register::A), 0x30);
    assert_eq!(flags(&c), (false, false, false, false));

    let mut bus = Bus::with_program(&[0xA9, 0xF0, 0x09, 0x0F]);
    let mut c = boot(&mut bus);
    run(&mut c, 2);
    assert_eq!(c.reg.read(Register::A), 0xFF);
    assert_eq!(flags(&c), (true, false, false, false));

    let mut bus = Bus::with_program(&[0xA9, 0xFF, 0x49, 0xFF]);
    let mut c = boot(&mut bus);
    run(&mut c, 2);
    assert_eq!(c.reg.read(Register::A), 0x00);
    assert_eq!(flags(&c), (false, false, true, false));
}

#[test]
fn shifts_and_rotates_of_the_accumulator() {
    // ASL
    let mut bus = Bus::with_program(&[0xA9, 0x81, 0x0A]);
    let mut c = boot(&mut bus);
    run(&mut c, 2);
    assert_eq!(c.reg.read(Register::A), 0x02);
    assert_eq!(flags(&c), (false, false, false, true));

    // LSR
    let mut bus = Bus::with_program(&[0xA9, 0x01, 0x4A]);
    let mut c = boot(&mut bus);
    run(&mut c, 2);
    assert_eq!(c.reg.read(Register::A), 0x00);
    assert_eq!(flags(&c), (false, false, true, true));

    // ROL with the carry set
    let mut bus = Bus::with_program(&[0x38, 0xA9, 0x80, 0x2A]);
    let mut c = boot(&mut bus);
    run(&mut c, 3);
    assert_eq!(c.reg.read(Register::A), 0x01);
    assert_eq!(flags(&c), (false, false, false, true));

    // ROL with the carry clear
    let mut bus = Bus::with_program(&[0xA9, 0x40, 0x2A]);
    let mut c = boot(&mut bus);
    run(&mut c, 2);
    assert_eq!(c.reg.read(Register::A), 0x80);
    assert_eq!(flags(&c), (true, false, false, false));

    // ROR with the carry set
    let mut bus = Bus::with_program(&[0x38, 0xA9, 0x01, 0x6A]);
    let mut c = boot(&mut bus);
    run(&mut c, 3);
    assert_eq!(c.reg.read(Register::A), 0x80);
    assert_eq!(flags(&c), (true, false, false, true));

    // ROR with the carry clear
    let mut bus = Bus::with_program(&[0xA9, 0x02, 0x6A]);
    let mut c = boot(&mut bus);
    run(&mut c, 2);
    assert_eq!(c.reg.read(Register::A), 0x01);
    assert_eq!(flags(&c), (false, false, false, false));
}

#[test]
fn shifts_and_rotates_of_memory() {
    let cases: [(u8, bool, u8, u8, (bool, bool, bool, bool)); 8] = [
        (0x06, false, 0x40, 0x80, (true, false, false, false)),
        (0x06, true, 0x80, 0x00, (false, false, true, true)),
        (0x46, false, 0x01, 0x00, (false, false, true, true)),
        (0x46, true, 0x80, 0x40, (false, false, false, false)),
        (0x26, true, 0x80, 0x01, (false, false, false, true)),
        (0x26, false, 0x7F, 0xFE, (true, false, false, false)),
        (0x66, true, 0x02, 0x81, (true, false, false, false)),
        (0x66, false, 0x01, 0x00, (false, false, true, true)),
    ];
    for (opcode, carry, before, after, expected) in cases {
        let mut bus = Bus::with_program(&[opcode, 0x10]);
        bus.put(0x0010, &[before]);
        let mut c = boot(&mut bus);
        c.reg.write(Register::A, 0x33);
        c.reg.update_flag(Flag::Zero, false);
        c.reg.update_flag(Flag::Carry, carry);
        run(&mut c, 1);
        assert_eq!(c.bus.mem[0x0010], after);
        assert_eq!(flags(&c), expected);
        assert_eq!(c.reg.read(Register::A), 0x33);
    }
}

#[test]
fn increments_and_decrements() {
    let mut bus = Bus::with_program(&[0xE8, 0xCA, 0xCA, 0xC8, 0x88, 0x88]);
    let mut c = boot(&mut bus);
    run(&mut c, 1);
    assert_eq!(c.reg.read(Register::X), 1);
    run(&mut c, 1);
    assert_eq!(c.reg.read(Register::X), 0);
    assert!(c.reg.check_flag(Flag::Zero));
    run(&mut c, 1);
    assert_eq!(c.reg.read(Register::X), 0xFF);
    assert!(c.reg.check_flag(Flag::Negative));
    run(&mut c, 1);
    assert_eq!(c.reg.read(Register::Y), 1);
    run(&mut c, 2);
    assert_eq!(c.reg.read(Register::Y), 0xFF);

    let mut bus = Bus::with_program(&[0xC6, 0x10, 0xC6, 0x10, 0xE6, 0x10]);
    bus.put(0x0010, &[0x01]);
    let mut c = boot(&mut bus);
    run(&mut c, 1);
    assert_eq!(c.bus.mem[0x0010], 0x00);
    assert!(c.reg.check_flag(Flag::Zero));
    run(&mut c, 1);
    assert_eq!(c.bus.mem[0x0010], 0xFF);
    assert!(c.reg.check_flag(Flag::Negative));
    run(&mut c, 1);
    assert_eq!(c.bus.mem[0x0010], 0x00);
    assert!(c.reg.check_flag(Flag::Zero));
}

#[test]
fn comparisons() {
    let cases: [(u8, u8, (bool, bool, bool, bool)); 4] = [
        (0x40, 0x40, (false, false, true, true)),
        (0x40, 0x41, (true, false, false, false)),
        (0x40, 0x3F, (false, false, false, true)),
        (0x00, 0x80, (true, false, false, false)),
    ];
    for (value, operand, expected) in cases {
        for (opcode, register) in [(0xC9, Register::A), (0xE0, Register::X), (0xC0, Register::Y)] {
            let mut bus = Bus::with_program(&[opcode, operand]);
            let mut c = boot(&mut bus);
            c.reg.write(register, value);
            run(&mut c, 1);
            assert_eq!(flags(&c), expected);
            assert_eq!(c.reg.read(register), value);
        }
    }
}

#[test]
fn bit_test() {
    let mut bus = Bus::with_program(&[0x24, 0x10, 0x2C, 0x00, 0x02]);
    bus.put(0x0010, &[0xC0]);
    bus.put(0x0200, &[0x01]);
    let mut c = boot(&mut bus);
    c.reg.write(Register::A, 0x01);
    run(&mut c, 1);
    assert_eq!(flags(&c), (true, true, true, false));
    assert_eq!(c.reg.read(Register::A), 0x01);
    run(&mut c, 1);
    assert_eq!(flags(&c), (false, false, false, false));
}

#[test]
fn flag_instructions() {
    let cases = [
        (0x38, Flag::Carry, true),
        (0x18, Flag::Carry, false),
        (0x78, Flag::Interrupt, true),
        (0x58, Flag::Interrupt, false),
        (0xF8, Flag::Decimal, true),
        (0xD8, Flag::Decimal, false),
        (0xB8, Flag::Overflow, false),
    ];
    for (opcode, flag, value) in cases {
        let mut bus = Bus::with_program(&[opcode]);
        let mut c = boot(&mut bus);
        c.reg.update_flag(flag, !value);
        run(&mut c, 1);
        assert_eq!(c.reg.check_flag(flag), value);
        assert_eq!(c.reg.read_pc(), 0x8001);
    }
}

#[test]
fn jump_absolute() {
    let mut bus = Bus::with_program(&[0x4C, 0x00, 0x90]);
    let mut c = boot(&mut bus);
    run(&mut c, 1);
    assert_eq!(c.reg.read_pc(), 0x9000);
}

#[test]
fn program_counter_wraps() {
    let mut bus = Bus::with_program_at(0xFFFF, &[0xEA]);
    bus.put(0xFFFC, &[0xFF, 0xFF]);
    let mut c = boot(&mut bus);
    run(&mut c, 1);
    assert_eq!(c.reg.read_pc(), 0x0000);
}

#[test]
fn lax_and_sax() {
    let mut bus = Bus::with_program(&[0xA7, 0x10]);
    bus.put(0x0010, &[0x8F]);
    let mut c = boot(&mut bus);
    run(&mut c, 1);
    assert_eq!(c.reg.read(Register::A), 0x8F);
    assert_eq!(c.reg.read(Register::X), 0x8F);
    assert!(c.reg.check_flag(Flag::Negative));
    assert_eq!(c.bus.cycles(), 3);

    let mut bus = Bus::with_program(&[0x87, 0x10]);
    let mut c = boot(&mut bus);
    c.reg.write(Register::A, 0xF0);
    c.reg.write(Register::X, 0x3C);
    let p = c.reg.read(Register::P);
    run(&mut c, 1);
    assert_eq!(c.bus.mem[0x0010], 0x30);
    assert_eq!(c.reg.read(Register::P), p);
}

#[test]
fn dcp_and_isb() {
    let mut bus = Bus::with_program(&[0xC7, 0x10]);
    bus.put(0x0010, &[0x41]);
    let mut c = boot(&mut bus);
    c.reg.write(Register::A, 0x40);
    run(&mut c, 1);
    assert_eq!(c.bus.mem[0x0010], 0x40);
    assert_eq!(flags(&c), (false, false, true, true));
    assert_eq!(c.bus.cycles(), 5);

    let mut bus = Bus::with_program(&[0x38, 0xE7, 0x10]);
    bus.put(0x0010, &[0x0F]);
    let mut c = boot(&mut bus);
    c.reg.write(Register::A, 0x50);
    run(&mut c, 2);
    assert_eq!(c.bus.mem[0x0010], 0x10);
    assert_eq!(c.reg.read(Register::A), 0x40);
    assert_eq!(flags(&c), (false, false, false, true));
}

#[test]
fn slo_rla_sre_rra() {
    let mut bus = Bus::with_program(&[0x07, 0x10]);
    bus.put(0x0010, &[0x81]);
    let mut c = boot(&mut bus);
    c.reg.write(Register::A, 0x01);
    run(&mut c, 1);
    assert_eq!(c.bus.mem[0x0010], 0x02);
    assert_eq!(c.reg.read(Register::A), 0x03);
    assert_eq!(flags(&c), (false, false, false, true));

    let mut bus = Bus::with_program(&[0x38, 0x27, 0x10]);
    bus.put(0x0010, &[0x80]);
    let mut c = boot(&mut bus);
    c.reg.write(Register::A, 0xFF);
    run(&mut c, 2);
    assert_eq!(c.bus.mem[0x0010], 0x01);
    assert_eq!(c.reg.read(Register::A), 0x01);
    assert_eq!(flags(&c), (false, false, false, true));

    let mut bus = Bus::with_program(&[0x47, 0x10]);
    bus.put(0x0010, &[0x03]);
    let mut c = boot(&mut bus);
    c.reg.write(Register::A, 0xFF);
    run(&mut c, 1);
    assert_eq!(c.bus.mem[0x0010], 0x01);
    assert_eq!(c.reg.read(Register::A), 0xFE);
    assert_eq!(flags(&c), (true, false, false, true));

    let mut bus = Bus::with_program(&[0x38, 0x67, 0x10]);
    bus.put(0x0010, &[0x02]);
    let mut c = boot(&mut bus);
    c.reg.write(Register::A, 0x10);
    run(&mut c, 2);
    assert_eq!(c.bus.mem[0x0010], 0x81);
    assert_eq!(c.reg.read(Register::A), 0x91);
    assert_eq!(flags(&c), (true, false, false, false));
}

#[test]
fn immediate_combinations() {
    // AAC
    let mut bus = Bus::with_program(&[0x0B, 0x80]);
    let mut c = boot(&mut bus);
    c.reg.write(Register::A, 0xFF);
    run(&mut c, 1);
    assert_eq!(c.reg.read(Register::A), 0x80);
    assert_eq!(flags(&c), (true, false, false, true));

    let mut bus = Bus::with_program(&[0x38, 0x2B, 0x7F]);
    let mut c = boot(&mut bus);
    c.reg.write(Register::A, 0xFF);
    run(&mut c, 2);
    assert_eq!(c.reg.read(Register::A), 0x7F);
    assert_eq!(flags(&c), (false, false, false, false));

    // ASR
    let mut bus = Bus::with_program(&[0x4B, 0x03]);
    let mut c = boot(&mut bus);
    c.reg.write(Register::A, 0xFF);
    run(&mut c, 1);
    assert_eq!(c.reg.read(Register::A), 0x01);
    assert_eq!(flags(&c), (false, false, false, true));

    // ARR
    let mut bus = Bus::with_program(&[0x38, 0x6B, 0xFF]);
    let mut c = boot(&mut bus);
    c.reg.write(Register::A, 0xFF);
    run(&mut c, 2);
    assert_eq!(c.reg.read(Register::A), 0xFF);
    assert_eq!(flags(&c), (true, false, false, true));

    let mut bus = Bus::with_program(&[0x6B, 0x80]);
    let mut c = boot(&mut bus);
    c.reg.write(Register::A, 0xFF);
    run(&mut c, 1);
    assert_eq!(c.reg.read(Register::A), 0x40);
    assert_eq!(flags(&c), (false, true, false, true));

    // ATX
    let mut bus = Bus::with_program(&[0xAB, 0x34]);
    let mut c = boot(&mut bus);
    c.reg.write(Register::A, 0x12);
    run(&mut c, 1);
    assert_eq!(c.reg.read(Register::A), 0x34);
    assert_eq!(c.reg.read(Register::X), 0x34);

    // AXS
    let mut bus = Bus::with_program(&[0xCB, 0x10]);
    let mut c = boot(&mut bus);
    c.reg.write(Register::A, 0xF0);
    c.reg.write(Register::X, 0x3F);
    run(&mut c, 1);
    assert_eq!(c.reg.read(Register::X), 0x20);
    assert_eq!(c.reg.read(Register::A), 0xF0);
    assert_eq!(flags(&c), (false, false, false, true));

    let mut bus = Bus::with_program(&[0xCB, 0x40]);
    let mut c = boot(&mut bus);
    c.reg.write(Register::A, 0xF0);
    c.reg.write(Register::X, 0x3F);
    run(&mut c, 1);
    assert_eq!(c.reg.read(Register::X), 0xF0);
    assert_eq!(flags(&c), (true, false, false, false));
}

#[test]
fn tax_copies_sets_the_flags_and_takes_two_cycles() {
    let mut bus = Bus::with_program(&[0xAA]);
    let mut c = boot(&mut bus);
    c.reg.write(Register::A, 0x80);
    c.reg.write(Register::X, 0x00);
    run(&mut c, 1);
    assert_eq!(c.reg.read(Register::X), 0x80);
    assert_eq!(c.reg.read(Register::A), 0x80);
    assert!(c.reg.check_flag(Flag::Negative));
    assert!(!c.reg.check_flag(Flag::Zero));
    assert_eq!(c.reg.read_pc(), 0x8001);
    assert_eq!(c.bus.cycles(), 2);
    assert_eq!(c.bus.events(), vec![Ev::Cycle, Ev::Read(0x8000), Ev::Cycle]);
}

#[test]
fn sha_stores_a_and_x_and_the_high_byte() {
    // SHA $1234,Y
    let mut bus = Bus::with_program(&[0x9F, 0x34, 0x12]);
    let mut c = boot(&mut bus);
    c.reg.write(Register::A, 0xFF);
    c.reg.write(Register::X, 0x0F);
    let p = c.reg.read(Register::P);
    run(&mut c, 1);
    assert_eq!(c.bus.mem[0x0334], 0x03);
    assert_eq!(c.bus.mem[0x1234], 0x00);
    assert_eq!(c.reg.read(Register::P), p);
    assert_eq!(c.reg.read(Register::SP), 0xFD);
    assert_eq!(c.bus.cycles(), 4);

    // SHA ($10),Y with the pointer 0x4000 and Y = 2
    let mut bus = Bus::with_program(&[0x93, 0x10]);
    bus.put(0x0010, &[0x00, 0x40]);
    let mut c = boot(&mut bus);
    c.reg.write(Register::A, 0x55);
    c.reg.write(Register::X, 0xFF);
    c.reg.write(Register::Y, 0x02);
    run(&mut c, 1);
    assert_eq!(c.bus.mem[0x4102], 0x41);
    assert_eq!(c.bus.mem[0x4002], 0x00);
    assert_eq!(c.bus.cycles(), 6);
}

#[test]
fn tas_sets_sp_and_stores() {
    // TAS $4000,Y
    let mut bus = Bus::with_program(&[0x9B, 0x00, 0x40]);
    let mut c = boot(&mut bus);
    c.reg.write(Register::A, 0xF5);
    c.reg.write(Register::X, 0x5F);
    let p = c.reg.read(Register::P);
    run(&mut c, 1);
    assert_eq!(c.reg.read(Register::SP), 0x55);
    assert_eq!(c.bus.mem[0x4100], 0x41);
    assert_eq!(c.reg.read(Register::A), 0xF5);
    assert_eq!(c.reg.read(Register::X), 0x5F);
    assert_eq!(c.reg.read(Register::P), p);
    assert_eq!(c.bus.cycles(), 4);
    assert_eq!(
        c.bus.events(),
        vec![
            Ev::Cycle,
            Ev::Read(0x8000),
            Ev::Cycle,
            Ev::Read(0x8001),
            Ev::Cycle,
            Ev::Read(0x8002),
            Ev::Cycle,
            Ev::Write(0x4100, 0x41),
        ]
    );
}

#[test]
fn shy_and_shx() {
    let mut bus = Bus::with_program(&[0x9C, 0x34, 0x12]);
    let mut c = boot(&mut bus);
    c.reg.write(Register::Y, 0xFF);
    run(&mut c, 1);
    assert_eq!(c.bus.mem[0x1334], 0x13);
    assert_eq!(c.bus.mem[0x1234], 0x00);

    let mut bus = Bus::with_program(&[0x9E, 0x00, 0x40]);
    let mut c = boot(&mut bus);
    c.reg.write(Register::X, 0x55);
    run(&mut c, 1);
    assert_eq!(c.bus.mem[0x4100], 0x41);
}

#[test]
fn undocumented_nops_read_and_drop() {
    let mut bus = Bus::with_program(&[0x1A]);
    let mut c = boot(&mut bus);
    run(&mut c, 1);
    assert_eq!(c.reg.read_pc(), 0x8001);
    assert_eq!(c.bus.cycles(), 2);

    let mut bus = Bus::with_program(&[0x04, 0x10]);
    let mut c = boot(&mut bus);
    let p = c.reg.read(Register::P);
    run(&mut c, 1);
    assert_eq!(c.reg.read_pc(), 0x8002);
    assert_eq!(c.reg.read(Register::P), p);
    assert_eq!(
        c.bus.events(),
        vec![
            Ev::Cycle,
            Ev::Read(0x8000),
            Ev::Cycle,
            Ev::Read(0x8001),
            Ev::Cycle,
            Ev::Read(0x0010),
            Ev::Cycle,
        ]
    );

    let mut bus = Bus::with_program(&[0x80, 0x10]);
    let mut c = boot(&mut bus);
    run(&mut c, 1);
    assert_eq!(c.reg.read_pc(), 0x8002);
    assert_eq!(c.bus.cycles(), 3);

    let mut bus = Bus::with_program(&[0x1C, 0xFF, 0x02]);
    let mut c = boot(&mut bus);
    c.reg.write(Register::X, 1);
    run(&mut c, 1);
    assert_eq!(c.reg.read_pc(), 0x8003);
    assert_eq!(c.bus.cycles(), 6);
}
