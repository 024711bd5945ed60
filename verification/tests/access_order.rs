use simple_nes_rs::bus::CpuBus;
use simple_nes_rs::cpu::CPU;

#[derive(Clone, Copy, Debug, PartialEq, Eq)]
enum Access {
    Read(u16),
    Write(u16, u8),
}

/// 64 KiB of memory that keeps a record of every access.
#[derive(Clone)]
struct Recorder {
    cells: Vec<u8>,
    log: Vec<Access>,
}

impl CpuBus for Recorder {
    type State = Recorder;

    fn state(&self) -> Recorder {
        self.clone()
    }

    fn wf(&self) -> bool {
        self.cells.len() == 0x10000
    }

    fn read_value(s: Recorder, addr: u16) -> u8 {
        s.cells[addr as usize]
    }

    fn read_effect(s: Recorder, addr: u16) -> Recorder {
        let mut s = s;
        s.log.push(Access::Read(addr));
        s
    }

    fn write_effect(s: Recorder, addr: u16, data: u8) -> Recorder {
        let mut s = s;
        s.cells[addr as usize] = data;
        s.log.push(Access::Write(addr, data));
        s
    }

    fn read(&mut self, addr: u16) -> u8 {
        self.log.push(Access::Read(addr));
        self.cells[addr as usize]
    }

    fn write(&mut self, addr: u16, data: u8) {
        self.cells[addr as usize] = data;
        self.log.push(Access::Write(addr, data));
    }
}

fn run(program: &[u8], setup: fn(&mut CPU, &mut Recorder)) -> (CPU, Vec<Access>) {
    let mut bus = Recorder { cells: vec![0; 0x10000], log: vec![] };
    for (i, b) in program.iter().enumerate() {
        bus.cells[0x8000 + i] = *b;
    }
    let mut cpu = CPU::new();
    cpu.reset_address(0x8000);
    setup(&mut cpu, &mut bus);
    cpu.step(&mut bus);
    (cpu, bus.log)
}

#[test]
fn immediate_reads_opcode_then_operand() {
    let (cpu, log) = run(&[0xA9, 0x07], |_, _| {});
    assert_eq!(cpu.regs.a, 7);
    assert_eq!(log, vec![Access::Read(0x8000), Access::Read(0x8001)]);
}

#[test]
fn read_modify_write_reads_then_writes() {
    let (_, log) = run(&[0xE6, 0x10], |_, bus| bus.cells[0x10] = 0x41);
    assert_eq!(
        log,
        vec![
            Access::Read(0x8000),
            Access::Read(0x8001),
            Access::Read(0x0010),
            Access::Write(0x0010, 0x42),
        ]
    );
}

#[test]
fn indirect_y_reads_pointer_low_byte_first() {
    let (_, log) = run(&[0xB1, 0xFF], |cpu, bus| {
        cpu.regs.y = 1;
        bus.cells[0xFF] = 0x10;
        bus.cells[0x00] = 0x20;
    });
    assert_eq!(
        log,
        vec![
            Access::Read(0x8000),
            Access::Read(0x8001),
            Access::Read(0x00FF),
            Access::Read(0x0000),
            Access::Read(0x2011),
        ]
    );
}

#[test]
fn indirect_jump_reads_low_byte_first() {
    let (_, log) = run(&[0x6C, 0xFF, 0x30], |_, _| {});
    assert_eq!(
        log,
        vec![
            Access::Read(0x8000),
            Access::Read(0x8001),
            Access::Read(0x8002),
            Access::Read(0x30FF),
            Access::Read(0x3000),
        ]
    );
}

#[test]
fn jsr_pushes_before_reading_target() {
    let (cpu, log) = run(&[0x20, 0x34, 0x12], |_, _| {});
    assert_eq!(cpu.regs.pc, 0x1234);
    assert_eq!(
        log,
        vec![
            Access::Read(0x8000),
            Access::Write(0x01FD, 0x80),
            Access::Write(0x01FC, 0x02),
            Access::Read(0x8001),
            Access::Read(0x8002),
        ]
    );
}

#[test]
fn interrupt_pushes_pc_then_status_then_reads_vector() {
    let (_, log) = run(&[0xEA], |cpu, _| cpu.nmi());
    assert_eq!(
        log,
        vec![
            Access::Write(0x01FD, 0x80),
            Access::Write(0x01FC, 0x00),
            Access::Write(0x01FB, 0x24),
            Access::Read(0xFFFA),
            Access::Read(0xFFFB),
        ]
    );
}

#[test]
fn branch_not_taken_does_not_read_offset() {
    let (_, log) = run(&[0xD0, 0x05], |cpu, _| cpu.regs.z = true);
    assert_eq!(log, vec![Access::Read(0x8000)]);
}

#[test]
fn store_does_not_read_target() {
    let (_, log) = run(&[0x8D, 0x00, 0x20], |cpu, _| cpu.regs.a = 0x5A);
    assert_eq!(
        log,
        vec![
            Access::Read(0x8000),
            Access::Read(0x8001),
            Access::Read(0x8002),
            Access::Write(0x2000, 0x5A),
        ]
    );
}

#[test]
fn illegal_opcode_is_recorded() {
    let (mut cpu, log) = run(&[0xFF], |_, _| {});
    assert_eq!(log, vec![Access::Read(0x8000)]);
    let seen = cpu.take_illegal_opcode().unwrap();
    assert_eq!(seen.byte, 0xFF);
    assert_eq!(seen.pc, 0x8000);
    assert_eq!(cpu.take_illegal_opcode(), None);
    let (mut cpu, _) = run(&[0xEA], |_, _| {});
    assert_eq!(cpu.take_illegal_opcode(), None);
}
