//! Operand fetch: the bus reads that each addressing mode makes, and the
//! operand they yield.
use vstd::prelude::*;
use super::opecode::{Addressing, Opecode};
use crate::bus::{make_word, next_address, word_of, CpuBus};
use crate::cpu_registers::Registers;
use crate::helper::{lemma_same_page_successor, lemma_word_bits};
use crate::types::{Address, Byte, Word};

verus! {

/// The outcome of a fetch: the value obtained, and the registers and the bus
/// state that the fetch leaves.
pub struct Fetched<S> {
    /// The byte, address or operand fetched.
    pub value: Word,
    /// The registers afterwards.
    pub regs: Registers,
    /// The bus state afterwards.
    pub bus: S,
}

/// `addr + index` on the 16-bit address bus.
pub open spec fn indexed(addr: Address, index: Byte) -> Address {
    ((addr + index) % 0x10000) as Address
}

/// `addr + index` within page zero.
pub open spec fn zero_page_indexed(addr: Byte, index: Byte) -> Address {
    ((addr + index) % 0x100) as Address
}

/// The target of a relative branch: `pc` plus the offset byte read as a signed
/// number, on the 16-bit address bus.
pub open spec fn branch_target(pc: Address, offset: Byte) -> Address {
    if offset < 0x80 {
        ((pc + offset) % 0x10000) as Address
    } else {
        ((pc + offset - 0x100) % 0x10000) as Address
    }
}

/// The location that holds the high byte of an indirect jump's target: the
/// byte after `ptr` in the same page, so `$xxFF` is followed by `$xx00`.
pub open spec fn same_page_successor(ptr: Address) -> Address {
    (ptr - ptr % 0x100 + (ptr % 0x100 + 1) % 0x100) as Address
}

/// Reads the byte at the program counter and advances the program counter.
pub open spec fn fetch_model<U: CpuBus>(regs: Registers, bus: U::State) -> Fetched<U::State> {
    Fetched {
        value: U::read_value(bus, regs.pc) as Word,
        regs: Registers { pc: next_address(regs.pc), ..regs },
        bus: U::read_effect(bus, regs.pc),
    }
}

/// Reads a little-endian word at the program counter, low byte first, and
/// advances the program counter by two.
pub open spec fn fetch_word_model<U: CpuBus>(regs: Registers, bus: U::State) -> Fetched<U::State> {
    let lower = fetch_model::<U>(regs, bus);
    let upper = fetch_model::<U>(lower.regs, lower.bus);
    Fetched { value: word_of(lower.value as Byte, upper.value as Byte), ..upper }
}

/// Reads a little-endian word from page zero at `zp`, low byte first; the
/// high byte comes from `zp + 1` within page zero.
pub open spec fn zero_page_word_model<U: CpuBus>(
    regs: Registers,
    bus: U::State,
    zp: Address,
) -> Fetched<U::State> {
    let after_low = U::read_effect(bus, zp);
    let high_at = zero_page_indexed(zp as Byte, 1);
    Fetched {
        value: word_of(U::read_value(bus, zp), U::read_value(after_low, high_at)),
        regs,
        bus: U::read_effect(after_low, high_at),
    }
}

/// Relative: the branch target, counted from the byte after the offset.
pub open spec fn fetch_relative_model<U: CpuBus>(regs: Registers, bus: U::State) -> Fetched<
    U::State,
> {
    let base = fetch_model::<U>(regs, bus);
    Fetched { value: branch_target(base.regs.pc, base.value as Byte), ..base }
}

/// Zero page,X.
pub open spec fn fetch_zeropage_x_model<U: CpuBus>(regs: Registers, bus: U::State) -> Fetched<
    U::State,
> {
    let addr = fetch_model::<U>(regs, bus);
    Fetched { value: zero_page_indexed(addr.value as Byte, regs.x), ..addr }
}

/// Zero page,Y.
pub open spec fn fetch_zeropage_y_model<U: CpuBus>(regs: Registers, bus: U::State) -> Fetched<
    U::State,
> {
    let addr = fetch_model::<U>(regs, bus);
    Fetched { value: zero_page_indexed(addr.value as Byte, regs.y), ..addr }
}

/// Absolute,X.
pub open spec fn fetch_absolute_x_model<U: CpuBus>(regs: Registers, bus: U::State) -> Fetched<
    U::State,
> {
    let addr = fetch_word_model::<U>(regs, bus);
    Fetched { value: indexed(addr.value, regs.x), ..addr }
}

/// Absolute,Y.
pub open spec fn fetch_absolute_y_model<U: CpuBus>(regs: Registers, bus: U::State) -> Fetched<
    U::State,
> {
    let addr = fetch_word_model::<U>(regs, bus);
    Fetched { value: indexed(addr.value, regs.y), ..addr }
}

/// `(zp,X)`: the word in page zero at the operand plus X.
pub open spec fn fetch_pre_indexed_indirect_model<U: CpuBus>(
    regs: Registers,
    bus: U::State,
) -> Fetched<U::State> {
    let operand = fetch_model::<U>(regs, bus);
    zero_page_word_model::<U>(
        operand.regs,
        operand.bus,
        zero_page_indexed(operand.value as Byte, regs.x),
    )
}

/// `(zp),Y`: the word in page zero at the operand, plus Y.
pub open spec fn fetch_post_indexed_indirect_model<U: CpuBus>(
    regs: Registers,
    bus: U::State,
) -> Fetched<U::State> {
    let operand = fetch_model::<U>(regs, bus);
    let base = zero_page_word_model::<U>(operand.regs, operand.bus, operand.value);
    Fetched { value: indexed(base.value, regs.y), ..base }
}

/// `(abs)`: the word at the pointer that follows the opcode. The low byte is
/// read at the pointer, the high byte at the pointer's successor in the same
/// page: a pointer at `$xxFF` takes its high byte from `$xx00`.
pub open spec fn fetch_indirect_absolute_model<U: CpuBus>(
    regs: Registers,
    bus: U::State,
) -> Fetched<U::State> {
    let ptr = fetch_word_model::<U>(regs, bus);
    let after_low = U::read_effect(ptr.bus, ptr.value);
    let high_at = same_page_successor(ptr.value);
    Fetched {
        value: word_of(U::read_value(ptr.bus, ptr.value), U::read_value(after_low, high_at)),
        regs: ptr.regs,
        bus: U::read_effect(after_low, high_at),
    }
}

/// The operand of an instruction with addressing mode `mode`: the immediate
/// byte, the branch target, or the effective address; zero where the mode has
/// no operand bytes.
pub open spec fn fetch_operand_model<U: CpuBus>(
    mode: Addressing,
    regs: Registers,
    bus: U::State,
) -> Fetched<U::State> {
    match mode {
        Addressing::Accumulator => Fetched { value: 0, regs, bus },
        Addressing::Implied => Fetched { value: 0, regs, bus },
        Addressing::Immediate => fetch_model::<U>(regs, bus),
        Addressing::Relative => fetch_relative_model::<U>(regs, bus),
        Addressing::ZeroPage => fetch_model::<U>(regs, bus),
        Addressing::ZeroPageX => fetch_zeropage_x_model::<U>(regs, bus),
        Addressing::ZeroPageY => fetch_zeropage_y_model::<U>(regs, bus),
        Addressing::Absolute => fetch_word_model::<U>(regs, bus),
        Addressing::AbsoluteX => fetch_absolute_x_model::<U>(regs, bus),
        Addressing::AbsoluteY => fetch_absolute_y_model::<U>(regs, bus),
        Addressing::PreIndexedIndirect => fetch_pre_indexed_indirect_model::<U>(regs, bus),
        Addressing::PostIndexedIndirect => fetch_post_indexed_indirect_model::<U>(regs, bus),
        Addressing::IndirectAbsolute => fetch_indirect_absolute_model::<U>(regs, bus),
    }
}

/// Whether an exec fetch, with result `value`, realises the modelled `outcome`.
pub open spec fn realises<U: CpuBus>(
    value: Word,
    registers: &Registers,
    bus: &U,
    outcome: Fetched<U::State>,
) -> bool {
    &&& value == outcome.value
    &&& *registers == outcome.regs
    &&& bus.state() == outcome.bus
}

/// Reads the byte at the program counter and steps over it.
pub fn fetch<U: CpuBus>(registers: &mut Registers, bus: &mut U) -> (code: Byte)
    requires
        old(bus).wf(),
    ensures
        final(bus).wf(),
        realises(
            code as Word,
            final(registers),
            final(bus),
            fetch_model::<U>(*old(registers), old(bus).state()),
        ),
{
    let code = bus.read(registers.get_PC());
    registers.inc_PC();
    code
}

/// Fetches the operand that `code`'s addressing mode calls for.
pub fn fetch_operand<U: CpuBus>(code: &Opecode, registers: &mut Registers, bus: &mut U) -> (operand:
    Word)
    requires
        old(bus).wf(),
    ensures
        final(bus).wf(),
        realises(
            operand,
            final(registers),
            final(bus),
            fetch_operand_model::<U>(code.mode, *old(registers), old(bus).state()),
        ),
{
    match code.mode {
        Addressing::Accumulator => 0x0000,
        Addressing::Implied => 0x0000,
        Addressing::Immediate => fetch(registers, bus) as Word,
        Addressing::Relative => fetch_relative(registers, bus),
        Addressing::ZeroPage => fetch(registers, bus) as Word,
        Addressing::ZeroPageX => fetch_zeropage_x(registers, bus),
        Addressing::ZeroPageY => fetch_zeropage_y(registers, bus),
        Addressing::Absolute => fetch_word(registers, bus),
        Addressing::AbsoluteX => fetch_absolute_x(registers, bus),
        Addressing::AbsoluteY => fetch_absolute_y(registers, bus),
        Addressing::PreIndexedIndirect => fetch_pre_indexed_indirect(registers, bus),
        Addressing::PostIndexedIndirect => fetch_post_indexed_indirect(registers, bus),
        Addressing::IndirectAbsolute => fetch_indirect_absolute(registers, bus),
    }
}

/// Fetches a little-endian word at the program counter.
pub fn fetch_word<U: CpuBus>(registers: &mut Registers, bus: &mut U) -> (word: Word)
    requires
        old(bus).wf(),
    ensures
        final(bus).wf(),
        realises(
            word,
            final(registers),
            final(bus),
            fetch_word_model::<U>(*old(registers), old(bus).state()),
        ),
{
    let lower = fetch(registers, bus);
    let upper = fetch(registers, bus);
    make_word(lower, upper)
}

/// Fetches a branch offset and returns the branch target.
pub fn fetch_relative<U: CpuBus>(registers: &mut Registers, bus: &mut U) -> (target: Word)
    requires
        old(bus).wf(),
    ensures
        final(bus).wf(),
        realises(
            target,
            final(registers),
            final(bus),
            fetch_relative_model::<U>(*old(registers), old(bus).state()),
        ),
{
    let base = fetch(registers, bus) as Word;
    if base < 0x80 {
        registers.get_PC().wrapping_add(base)
    } else {
        registers.get_PC().wrapping_add(base).wrapping_sub(256)
    }
}

/// Fetches a zero-page address and indexes it by X within page zero.
pub fn fetch_zeropage_x<U: CpuBus>(registers: &mut Registers, bus: &mut U) -> (addr: Word)
    requires
        old(bus).wf(),
    ensures
        final(bus).wf(),
        realises(
            addr,
            final(registers),
            final(bus),
            fetch_zeropage_x_model::<U>(*old(registers), old(bus).state()),
        ),
{
    let addr = fetch(registers, bus) as Word;
    let sum: Word = addr + registers.get_X() as Word;
    proof {
        lemma_word_bits(sum);
    }
    sum & 0xFF
}

/// Fetches a zero-page address and indexes it by Y within page zero.
pub fn fetch_zeropage_y<U: CpuBus>(registers: &mut Registers, bus: &mut U) -> (addr: Word)
    requires
        old(bus).wf(),
    ensures
        final(bus).wf(),
        realises(
            addr,
            final(registers),
            final(bus),
            fetch_zeropage_y_model::<U>(*old(registers), old(bus).state()),
        ),
{
    let addr = fetch(registers, bus) as Word;
    let sum: Word = addr + registers.get_Y() as Word;
    proof {
        lemma_word_bits(sum);
    }
    sum & 0xFF
}

/// Fetches an absolute address and indexes it by X.
pub fn fetch_absolute_x<U: CpuBus>(registers: &mut Registers, bus: &mut U) -> (addr: Word)
    requires
        old(bus).wf(),
    ensures
        final(bus).wf(),
        realises(
            addr,
            final(registers),
            final(bus),
            fetch_absolute_x_model::<U>(*old(registers), old(bus).state()),
        ),
{
    let addr = fetch_word(registers, bus);
    addr.wrapping_add(registers.get_X() as Word)
}

/// Fetches an absolute address and indexes it by Y.
pub fn fetch_absolute_y<U: CpuBus>(registers: &mut Registers, bus: &mut U) -> (addr: Word)
    requires
        old(bus).wf(),
    ensures
        final(bus).wf(),
        realises(
            addr,
            final(registers),
            final(bus),
            fetch_absolute_y_model::<U>(*old(registers), old(bus).state()),
        ),
{
    let addr = fetch_word(registers, bus);
    addr.wrapping_add(registers.get_Y() as Word)
}

/// Reads a little-endian word from page zero at `zp`, wrapping within page
/// zero.
pub fn read_zero_page_word<U: CpuBus>(registers: &Registers, bus: &mut U, zp: Address) -> (word:
    Word)
    requires
        old(bus).wf(),
        zp < 0x100,
    ensures
        final(bus).wf(),
        realises(
            word,
            registers,
            final(bus),
            zero_page_word_model::<U>(*registers, old(bus).state(), zp),
        ),
{
    let lower = bus.read(zp);
    let next: Word = zp + 1;
    proof {
        lemma_word_bits(next);
    }
    let upper = bus.read(next & 0xFF);
    make_word(lower, upper)
}

/// Fetches a zero-page operand, adds X within page zero, and reads the
/// effective address from there.
pub fn fetch_pre_indexed_indirect<U: CpuBus>(registers: &mut Registers, bus: &mut U) -> (addr: Word)
    requires
        old(bus).wf(),
    ensures
        final(bus).wf(),
        realises(
            addr,
            final(registers),
            final(bus),
            fetch_pre_indexed_indirect_model::<U>(*old(registers), old(bus).state()),
        ),
{
    let operand = fetch(registers, bus) as Word;
    let sum: Word = operand + registers.get_X() as Word;
    proof {
        lemma_word_bits(sum);
    }
    read_zero_page_word(registers, bus, sum & 0xFF)
}

/// Fetches a zero-page operand, reads a base address from there, and adds Y.
pub fn fetch_post_indexed_indirect<U: CpuBus>(registers: &mut Registers, bus: &mut U) -> (addr:
    Word)
    requires
        old(bus).wf(),
    ensures
        final(bus).wf(),
        realises(
            addr,
            final(registers),
            final(bus),
            fetch_post_indexed_indirect_model::<U>(*old(registers), old(bus).state()),
        ),
{
    let operand = fetch(registers, bus) as Address;
    let base = read_zero_page_word(registers, bus, operand);
    base.wrapping_add(registers.get_Y() as Word)
}

/// Fetches a pointer and reads the jump target through it, taking the high
/// byte from the pointer's own page.
pub fn fetch_indirect_absolute<U: CpuBus>(registers: &mut Registers, bus: &mut U) -> (addr: Word)
    requires
        old(bus).wf(),
    ensures
        final(bus).wf(),
        realises(
            addr,
            final(registers),
            final(bus),
            fetch_indirect_absolute_model::<U>(*old(registers), old(bus).state()),
        ),
{
    let ptr = fetch_word(registers, bus);
    let lower = bus.read(ptr);
    proof {
        lemma_word_bits(ptr);
        lemma_same_page_successor(ptr);
    }
    let within: Word = (ptr & 0xFF) + 1;
    let upper = bus.read((ptr & 0xFF00) | (within & 0xFF));
    make_word(lower, upper)
}

} // verus!
