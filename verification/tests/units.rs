use simple_nes_rs::controller::{Buttons, Controller};
use simple_nes_rs::cpu::alu::{adc, compare, sbc, shift_left, shift_right, Comparison, Shifted, Sum};
use simple_nes_rs::cpu::decode::{
    AddrMode1, AddrMode2, Operation0, Operation1, Operation2, OperationImplied, OPERATION_CYCLES,
};
use simple_nes_rs::cpu::fetch::{
    fetch, fetch_absolute_x, fetch_absolute_y, fetch_indirect_absolute, fetch_operand,
    fetch_post_indexed_indirect, fetch_pre_indexed_indirect, fetch_relative, fetch_word,
    fetch_zeropage_x, fetch_zeropage_y,
};
use simple_nes_rs::cpu::opecode::{Addressing, Opecode};
use simple_nes_rs::cpu_registers::Registers;
use simple_nes_rs::helper::{bu16, bu8, u16b, u8b};
use simple_nes_rs::ram::Ram;

fn memory(at: u16, bytes: &[u8]) -> Ram {
    let mut cells = vec![0u8; 0x10000];
    for (i, b) in bytes.iter().enumerate() {
        cells[at.wrapping_add(i as u16) as usize] = *b;
    }
    Ram::new(cells)
}

fn registers(pc: u16, x: u8, y: u8) -> Registers {
    let mut r = Registers::new();
    r.pc = pc;
    r.x = x;
    r.y = y;
    r
}

#[test]
fn fetch_steps_over_byte() {
    let mut bus = memory(0x8000, &[0xAB]);
    let mut r = registers(0x8000, 0, 0);
    assert_eq!(fetch(&mut r, &mut bus), 0xAB);
    assert_eq!(r.pc, 0x8001);
}

#[test]
fn fetch_wraps_program_counter() {
    let mut bus = memory(0xFFFF, &[0xAB, 0xCD]);
    let mut r = registers(0xFFFF, 0, 0);
    assert_eq!(fetch_word(&mut r, &mut bus), 0xCDAB);
    assert_eq!(r.pc, 0x0001);
}

#[test]
fn fetch_word_is_little_endian() {
    let mut bus = memory(0x8000, &[0x34, 0x12]);
    let mut r = registers(0x8000, 0, 0);
    assert_eq!(fetch_word(&mut r, &mut bus), 0x1234);
    assert_eq!(r.pc, 0x8002);
}

#[test]
fn fetch_relative_forward_and_backward() {
    let mut bus = memory(0x8000, &[0x05, 0xFB, 0x7F, 0x80]);
    let mut r = registers(0x8000, 0, 0);
    assert_eq!(fetch_relative(&mut r, &mut bus), 0x8006);
    assert_eq!(fetch_relative(&mut r, &mut bus), 0x7FFD);
    assert_eq!(fetch_relative(&mut r, &mut bus), 0x8082);
    assert_eq!(fetch_relative(&mut r, &mut bus), 0x7F84);
    assert_eq!(r.pc, 0x8004);
}

#[test]
fn fetch_relative_wraps_address_space() {
    let mut bus = memory(0xFFF0, &[0x7F]);
    let mut r = registers(0xFFF0, 0, 0);
    assert_eq!(fetch_relative(&mut r, &mut bus), 0x0070);
    let mut bus = memory(0x0000, &[0x80]);
    let mut r = registers(0x0000, 0, 0);
    assert_eq!(fetch_relative(&mut r, &mut bus), 0xFF81);
}

#[test]
fn fetch_zero_page_indexed_wraps() {
    let mut bus = memory(0x8000, &[0xF0, 0xF0]);
    let mut r = registers(0x8000, 0x20, 0x0F);
    assert_eq!(fetch_zeropage_x(&mut r, &mut bus), 0x0010);
    assert_eq!(fetch_zeropage_y(&mut r, &mut bus), 0x00FF);
    assert_eq!(r.pc, 0x8002);
}

#[test]
fn fetch_absolute_indexed_wraps() {
    let mut bus = memory(0x8000, &[0xFE, 0x10, 0xFF, 0xFF]);
    let mut r = registers(0x8000, 0x02, 0x03);
    assert_eq!(fetch_absolute_x(&mut r, &mut bus), 0x1100);
    assert_eq!(fetch_absolute_y(&mut r, &mut bus), 0x0002);
    assert_eq!(r.pc, 0x8004);
}

#[test]
fn fetch_pre_indexed_indirect_wraps_in_page_zero() {
    let mut bus = memory(0x8000, &[0xFE]);
    simple_nes_rs::bus::CpuBus::write(&mut bus, 0x00FF, 0x34);
    simple_nes_rs::bus::CpuBus::write(&mut bus, 0x0000, 0x12);
    let mut r = registers(0x8000, 0x01, 0);
    assert_eq!(fetch_pre_indexed_indirect(&mut r, &mut bus), 0x1234);
    assert_eq!(r.pc, 0x8001);
}

#[test]
fn fetch_post_indexed_indirect_adds_y_after() {
    let mut bus = memory(0x8000, &[0x10]);
    simple_nes_rs::bus::CpuBus::write(&mut bus, 0x0010, 0xFF);
    simple_nes_rs::bus::CpuBus::write(&mut bus, 0x0011, 0x20);
    let mut r = registers(0x8000, 0, 0x02);
    assert_eq!(fetch_post_indexed_indirect(&mut r, &mut bus), 0x2101);
    assert_eq!(r.pc, 0x8001);
}

#[test]
fn fetch_indirect_absolute_stays_in_page() {
    let mut bus = memory(0x8000, &[0xFF, 0x30]);
    simple_nes_rs::bus::CpuBus::write(&mut bus, 0x30FF, 0x78);
    simple_nes_rs::bus::CpuBus::write(&mut bus, 0x3000, 0x56);
    simple_nes_rs::bus::CpuBus::write(&mut bus, 0x3100, 0x99);
    let mut r = registers(0x8000, 0, 0);
    assert_eq!(fetch_indirect_absolute(&mut r, &mut bus), 0x5678);
    assert_eq!(r.pc, 0x8002);
}

#[test]
fn fetch_operand_by_mode() {
    let cases: [(Addressing, u16, u16); 13] = [
        (Addressing::Accumulator, 0x0000, 0x8000),
        (Addressing::Implied, 0x0000, 0x8000),
        (Addressing::Immediate, 0x0010, 0x8001),
        (Addressing::Relative, 0x8011, 0x8001),
        (Addressing::ZeroPage, 0x0010, 0x8001),
        (Addressing::ZeroPageX, 0x0011, 0x8001),
        (Addressing::ZeroPageY, 0x0012, 0x8001),
        (Addressing::Absolute, 0x0010, 0x8002),
        (Addressing::AbsoluteX, 0x0011, 0x8002),
        (Addressing::AbsoluteY, 0x0012, 0x8002),
        (Addressing::PreIndexedIndirect, 0x0403, 0x8001),
        (Addressing::PostIndexedIndirect, 0x0304, 0x8001),
        (Addressing::IndirectAbsolute, 0x0302, 0x8002),
    ];
    for (mode, operand, pc) in cases.iter() {
        let mut bus = memory(0x8000, &[0x10, 0x00]);
        simple_nes_rs::bus::CpuBus::write(&mut bus, 0x0010, 0x02);
        simple_nes_rs::bus::CpuBus::write(&mut bus, 0x0011, 0x03);
        simple_nes_rs::bus::CpuBus::write(&mut bus, 0x0012, 0x04);
        let mut r = registers(0x8000, 1, 2);
        let code = Opecode { mode: *mode, cycle: 2 };
        assert_eq!(fetch_operand(&code, &mut r, &mut bus), *operand);
        assert_eq!(r.pc, *pc);
    }
}

#[test]
fn adc_exact_values() {
    assert_eq!(adc(0x50, 0x50, false), Sum { value: 0xA0, carry: false, overflow: true });
    assert_eq!(adc(0xFF, 0x01, false), Sum { value: 0x00, carry: true, overflow: false });
    assert_eq!(adc(0x7F, 0x00, true), Sum { value: 0x80, carry: false, overflow: true });
    assert_eq!(adc(0x80, 0x80, false), Sum { value: 0x00, carry: true, overflow: true });
    assert_eq!(adc(0xFF, 0xFF, true), Sum { value: 0xFF, carry: true, overflow: false });
    assert_eq!(adc(0x01, 0x02, true), Sum { value: 0x04, carry: false, overflow: false });
}

#[test]
fn sbc_exact_values() {
    assert_eq!(sbc(0x50, 0xF0, true), Sum { value: 0x60, carry: false, overflow: false });
    assert_eq!(sbc(0x50, 0xB0, true), Sum { value: 0xA0, carry: false, overflow: true });
    assert_eq!(sbc(0x50, 0x30, true), Sum { value: 0x20, carry: true, overflow: false });
    assert_eq!(sbc(0x50, 0x30, false), Sum { value: 0x1F, carry: true, overflow: false });
    assert_eq!(sbc(0x00, 0x00, false), Sum { value: 0xFF, carry: false, overflow: false });
    assert_eq!(sbc(0x80, 0x01, true), Sum { value: 0x7F, carry: true, overflow: true });
}

#[test]
fn compare_exact_values() {
    assert_eq!(compare(0x20, 0x10), Comparison { carry: true, zero: false, negative: false });
    assert_eq!(compare(0x20, 0x20), Comparison { carry: true, zero: true, negative: false });
    assert_eq!(compare(0x20, 0x30), Comparison { carry: false, zero: false, negative: true });
    assert_eq!(compare(0x90, 0x01), Comparison { carry: true, zero: false, negative: true });
}

#[test]
fn shift_exact_values() {
    assert_eq!(shift_left(0x81, true, false), Shifted { value: 0x02, carry: true });
    assert_eq!(shift_left(0x81, true, true), Shifted { value: 0x03, carry: true });
    assert_eq!(shift_left(0x40, false, true), Shifted { value: 0x80, carry: false });
    assert_eq!(shift_right(0x81, true, false), Shifted { value: 0x40, carry: true });
    assert_eq!(shift_right(0x81, true, true), Shifted { value: 0xC0, carry: true });
    assert_eq!(shift_right(0x02, false, true), Shifted { value: 0x01, carry: false });
}

#[test]
fn status_byte_packs_flags() {
    let mut r = Registers::new();
    assert_eq!(r.get_P(), 0x24);
    assert_eq!(r.status(true), 0x34);
    r.set_P(0xFF);
    assert!(r.n && r.v && r.d && r.i && r.z && r.c);
    assert_eq!(r.get_P(), 0xEF);
    r.set_P(0x00);
    assert_eq!(r.get_P(), 0x20);
    r.set_P(0x81);
    assert!(r.n && r.c && !r.v && !r.d && !r.i && !r.z);
}

#[test]
fn register_accessors() {
    let mut r = Registers::new();
    r.a = 1;
    r.x = 2;
    r.y = 3;
    r.sp = 4;
    r.set_PC(0xFFFF);
    assert_eq!((r.get_A(), r.get_X(), r.get_Y(), r.get_SP(), r.get_PC()), (1, 2, 3, 4, 0xFFFF));
    r.inc_PC();
    assert_eq!(r.get_PC(), 0);
    r.set_zn(0);
    assert!(r.z && !r.n);
    r.set_zn(0x80);
    assert!(!r.z && r.n);
}

#[test]
fn flag_number_conversions() {
    assert_eq!(bu8(true), 1);
    assert_eq!(bu8(false), 0);
    assert_eq!(bu16(true), 1);
    assert_eq!(bu16(false), 0);
    assert!(u8b(0x10));
    assert!(!u8b(0));
    assert!(u16b(0x100));
    assert!(!u16b(0));
}

#[test]
fn decode_tables() {
    assert_eq!(AddrMode2::get(0), AddrMode2::Immediate_);
    assert_eq!(AddrMode2::get(1), AddrMode2::ZeroPage_);
    assert_eq!(AddrMode2::get(2), AddrMode2::Accumulator);
    assert_eq!(AddrMode2::get(3), AddrMode2::Absolute_);
    assert_eq!(AddrMode2::get(4), AddrMode2::Unsupported);
    assert_eq!(AddrMode2::get(5), AddrMode2::Indexed);
    assert_eq!(AddrMode2::get(6), AddrMode2::Unsupported);
    assert_eq!(AddrMode2::get(7), AddrMode2::AbsoluteIndexed);
    assert_eq!(AddrMode2::Indexed.addressing(true), Some(Addressing::ZeroPageY));
    assert_eq!(AddrMode2::AbsoluteIndexed.addressing(false), Some(Addressing::AbsoluteX));
    assert_eq!(AddrMode2::Unsupported.addressing(false), None);
    assert_eq!(AddrMode1::get(0), AddrMode1::IndexedIndirectX);
    assert_eq!(AddrMode1::get(4), AddrMode1::IndirectY);
    assert_eq!(AddrMode1::get(8), AddrMode1::Unsupported);
    assert_eq!(AddrMode1::IndirectY.addressing(), Some(Addressing::PostIndexedIndirect));
    assert_eq!(Operation0::get(1), Operation0::BIT);
    assert_eq!(Operation0::get(0), Operation0::Unsupported);
    assert_eq!(Operation0::get(7), Operation0::CPX);
    assert_eq!(Operation1::get(3), Operation1::ADC);
    assert_eq!(Operation1::get(6), Operation1::CMP);
    assert_eq!(Operation2::get(5), Operation2::LDX);
    assert_eq!(OperationImplied::get(0xEA), OperationImplied::NOP);
    assert_eq!(OperationImplied::get(0x6C), OperationImplied::JMPI);
    assert_eq!(OperationImplied::get(0xA9), OperationImplied::Unsupported);
    assert_eq!(OPERATION_CYCLES[0x00], 7);
    assert_eq!(OPERATION_CYCLES[0xA9], 2);
    assert_eq!(OPERATION_CYCLES[0x02], 0);
}

#[test]
fn button_order() {
    let order = [
        Buttons::A,
        Buttons::B,
        Buttons::Select,
        Buttons::Start,
        Buttons::Up,
        Buttons::Down,
        Buttons::Left,
        Buttons::Right,
    ];
    for (i, b) in order.iter().enumerate() {
        assert_eq!(b.id(), i);
    }
}

#[test]
fn controller_shifts_out_latched_buttons() {
    let mut c = Controller::new();
    let pressed = [true, false, true, true, false, false, false, true];
    c.set_strobe(1, &pressed);
    c.set_strobe(0, &pressed);
    assert_eq!(c.key_state, 0b1000_1101);
    let none = [false; 8];
    let mut seen = Vec::new();
    for _ in 0..8 {
        seen.push(c.read(&none));
    }
    assert_eq!(seen, vec![0x41, 0x40, 0x41, 0x41, 0x40, 0x40, 0x40, 0x41]);
    assert_eq!(c.read(&none), 0x40);
}

#[test]
fn controller_follows_a_button_while_strobe_is_set() {
    let mut c = Controller::new();
    let mut pressed = [false; 8];
    c.set_strobe(1, &pressed);
    assert!(c.strobe);
    assert_eq!(c.read(&pressed), 0x40);
    pressed[0] = true;
    assert_eq!(c.read(&pressed), 0x41);
    assert_eq!(c.read(&pressed), 0x41);
}

#[test]
fn controller_strobe_uses_bit_0_only() {
    let mut c = Controller::new();
    let pressed = [true; 8];
    c.set_strobe(0xFE, &pressed);
    assert!(!c.strobe);
    assert_eq!(c.key_state, 0xFF);
    c.set_strobe(0x03, &[false; 8]);
    assert!(c.strobe);
    assert_eq!(c.key_state, 0xFF);
}
