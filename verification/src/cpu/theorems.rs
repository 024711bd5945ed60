//! Facts about the core that hold of every state and every bus.
use vstd::prelude::*;
use super::decode::{family_bits, operation_bits, Operation1, OperationImplied, OPERATION_CYCLES};
use super::effect::type1_effect;
use super::fetch::{fetch_model, fetch_operand_model, fetch_word_model, indexed};
use super::opecode::Addressing;
use super::alu::{decrement_model, increment_model};
use super::{
    branch_model, execute_model, high_byte, implied_model, low_byte, operand_value, page_crossed,
    stack_address, step_model, type0_model, type1_addressing, type1_model, type2_model, unindexed, with_regs,
    Executed, CPU,
};
use crate::bus::CpuBus;
use crate::cpu_registers::{status_byte, with_status, Registers};
use crate::helper::bit;
use crate::main_bus::{lemma_ram_write_read_mirrored, MainBus, MainBusState};
use crate::types::{Address, Byte};

verus! {

/// The stack pointer is a byte, the program counter a word, and in the
/// status byte every flag has one bit of its own: N, V, the constant 1, B, D,
/// I, Z and C from bit 7 down.
pub proof fn lemma_registers_in_range(regs: Registers, b: bool)
    ensures
        0 <= regs.sp <= 255,
        0 <= regs.pc <= 65535,
        status_byte(regs, b) as int / 128 % 2 == bit(regs.n),
        status_byte(regs, b) as int / 64 % 2 == bit(regs.v),
        status_byte(regs, b) as int / 32 % 2 == 1,
        status_byte(regs, b) as int / 16 % 2 == bit(b),
        status_byte(regs, b) as int / 8 % 2 == bit(regs.d),
        status_byte(regs, b) as int / 4 % 2 == bit(regs.i),
        status_byte(regs, b) as int / 2 % 2 == bit(regs.z),
        status_byte(regs, b) as int % 2 == bit(regs.c),
{
}

/// Loading the flags from a status byte that was packed from them gives them
/// back, whatever the break flag of the push was.
pub proof fn lemma_status_round_trip(regs: Registers, b: bool)
    ensures
        with_status(regs, status_byte(regs, b)) == regs,
{
}

/// The indirect jump does not carry into the high byte of its pointer. When
/// a step executes `JMP ($xxFF)`, the low byte of the new program counter is
/// the byte at `$xxFF` and the high byte is the byte at `$xx00`, read in that
/// order after the three bytes of the instruction.
pub proof fn lemma_indirect_jump_stays_in_page<U: CpuBus>(cpu: CPU, bus: U::State)
    requires
        cpu.skip_cycles == 0,
        !cpu.nmi_pending,
        !(cpu.irq_line && !cpu.regs.i),
        fetch_model::<U>(cpu.regs, bus).value == 0x6C,
        ({
            let opcode = fetch_model::<U>(cpu.regs, bus);
            fetch_word_model::<U>(opcode.regs, opcode.bus).value % 0x100 == 0xFF
        }),
    ensures
        ({
            let opcode = fetch_model::<U>(cpu.regs, bus);
            let ptr = fetch_word_model::<U>(opcode.regs, opcode.bus);
            let after_low = U::read_effect(ptr.bus, ptr.value);
            let page_start = (ptr.value - 0xFF) as Address;
            let next = step_model::<U>(cpu, bus);
            &&& low_byte(next.cpu.regs.pc) == U::read_value(ptr.bus, ptr.value)
            &&& high_byte(next.cpu.regs.pc) == U::read_value(after_low, page_start)
            &&& next.bus == U::read_effect(after_low, page_start)
            &&& next.consumed == 5
        }),
{
    let opcode = fetch_model::<U>(cpu.regs, bus);
    let entry = with_regs(cpu, opcode.regs);
    assert(OPERATION_CYCLES[0x6C] == 5);
    assert(OperationImplied::decode(0x6C) == OperationImplied::JMPI);
    assert(implied_model::<U>(entry, opcode.bus, 0x6C).done);
}

/// No operand fetch looks at the decimal flag, or changes it.
pub proof fn lemma_fetch_ignores_decimal_flag<U: CpuBus>(
    mode: Addressing,
    regs: Registers,
    bus: U::State,
    d: bool,
)
    ensures
        ({
            let plain = fetch_operand_model::<U>(mode, regs, bus);
            let flagged = fetch_operand_model::<U>(mode, Registers { d, ..regs }, bus);
            &&& flagged.value == plain.value
            &&& flagged.bus == plain.bus
            &&& flagged.regs == Registers { d, ..plain.regs }
        }),
{
}

/// ADC and SBC compute the same with the decimal flag set or clear.
pub proof fn lemma_sum_ignores_decimal_flag(op: Operation1, regs: Registers, m: Byte, d: bool)
    requires
        op is ADC || op is SBC,
    ensures
        type1_effect(op, (Registers { d, ..regs }), m) == (Registers {
            d,
            ..type1_effect(op, regs, m)
        }),
{
}

/// ADC and SBC ignore the decimal flag: executed with D set, either leaves
/// what it leaves with D clear, but for D itself.
pub proof fn lemma_decimal_flag_is_ignored<U: CpuBus>(cpu: CPU, bus: U::State, opcode: Byte)
    requires
        family_bits(opcode) == 1,
        Operation1::decode(operation_bits(opcode)) is ADC || Operation1::decode(
            operation_bits(opcode),
        ) is SBC,
    ensures
        ({
            let binary = type1_model::<U>(
                with_regs(cpu, Registers { d: false, ..cpu.regs }),
                bus,
                opcode,
            );
            let decimal = type1_model::<U>(
                with_regs(cpu, Registers { d: true, ..cpu.regs }),
                bus,
                opcode,
            );
            &&& decimal.done == binary.done
            &&& decimal.bus == binary.bus
            &&& decimal.cpu == with_regs(binary.cpu, Registers { d: true, ..binary.cpu.regs })
        }),
{
    reveal(type1_model);
    let op = Operation1::decode(operation_bits(opcode));
    let clear = Registers { d: false, ..cpu.regs };
    match type1_addressing(opcode) {
        Some(mode) => {
            lemma_fetch_ignores_decimal_flag::<U>(mode, clear, bus, true);
            let at = fetch_operand_model::<U>(mode, clear, bus);
            lemma_sum_ignores_decimal_flag(op, at.regs, operand_value::<U>(mode, at), true);
            assert(Registers { d: true, ..clear } == Registers { d: true, ..cpu.regs });
        },
        None => {},
    }
}

/// An opcode of family 1 executes as a member of that family and as nothing
/// else.
pub proof fn lemma_execute_family_1<U: CpuBus>(cpu: CPU, bus: U::State, opcode: Byte)
    requires
        family_bits(opcode) == 1,
        OPERATION_CYCLES[opcode as int] != 0,
    ensures
        execute_model::<U>(cpu, bus, opcode) == type1_model::<U>(cpu, bus, opcode),
{
    reveal(branch_model);
    reveal(type0_model);
    reveal(type1_model);
    reveal(type2_model);
    assert(OperationImplied::decode(opcode) is Unsupported);
}

/// The execution of an ADC or SBC opcode does with the decimal flag set what
/// it does with the flag clear, but for the flag itself: same result, same
/// flags, same bus, same cycles.
pub proof fn lemma_execution_ignores_decimal_flag<U: CpuBus>(cpu: CPU, bus: U::State, opcode: Byte)
    requires
        family_bits(opcode) == 1,
        Operation1::decode(operation_bits(opcode)) is ADC || Operation1::decode(
            operation_bits(opcode),
        ) is SBC,
    ensures
        ({
            let binary = execute_model::<U>(
                with_regs(cpu, Registers { d: false, ..cpu.regs }),
                bus,
                opcode,
            );
            let decimal = execute_model::<U>(
                with_regs(cpu, Registers { d: true, ..cpu.regs }),
                bus,
                opcode,
            );
            &&& decimal.done == binary.done
            &&& decimal.bus == binary.bus
            &&& decimal.cpu == with_regs(binary.cpu, Registers { d: true, ..binary.cpu.regs })
        }),
{
    let clear = with_regs(cpu, Registers { d: false, ..cpu.regs });
    let set = with_regs(cpu, Registers { d: true, ..cpu.regs });
    if OPERATION_CYCLES[opcode as int] != 0 {
        lemma_execute_family_1::<U>(clear, bus, opcode);
        lemma_execute_family_1::<U>(set, bus, opcode);
        lemma_decimal_flag_is_ignored::<U>(cpu, bus, opcode);
    }
}

/// An opcode that has a base cost and is a single-byte instruction or a
/// jump executes as one.
pub proof fn lemma_execute_implied<U: CpuBus>(cpu: CPU, bus: U::State, opcode: Byte)
    requires
        OPERATION_CYCLES[opcode as int] != 0,
        !(OperationImplied::decode(opcode) is Unsupported),
    ensures
        execute_model::<U>(cpu, bus, opcode) == implied_model::<U>(cpu, bus, opcode),
        implied_model::<U>(cpu, bus, opcode).done,
{
}

/// PHP writes the status byte, with the break flag set, to the stack cell
/// and moves the stack pointer down.
pub proof fn lemma_php<U: CpuBus>(cpu: CPU, bus: U::State)
    ensures
        execute_model::<U>(cpu, bus, 0x08) == (Executed {
            done: true,
            cpu: with_regs(cpu, Registers { sp: decrement_model(cpu.regs.sp), ..cpu.regs }),
            bus: U::write_effect(bus, stack_address(cpu.regs.sp), status_byte(cpu.regs, true)),
        }),
{
    assert(OPERATION_CYCLES[0x08] == 3);
    assert(OperationImplied::decode(0x08) == OperationImplied::PHP);
    lemma_execute_implied::<U>(cpu, bus, 0x08);
}

/// PLP moves the stack pointer up and loads the flags from the byte it
/// finds there.
pub proof fn lemma_plp<U: CpuBus>(cpu: CPU, bus: U::State)
    ensures
        execute_model::<U>(cpu, bus, 0x28) == (Executed {
            done: true,
            cpu: with_regs(
                cpu,
                with_status(
                    Registers { sp: increment_model(cpu.regs.sp), ..cpu.regs },
                    U::read_value(bus, stack_address(increment_model(cpu.regs.sp))),
                ),
            ),
            bus: U::read_effect(bus, stack_address(increment_model(cpu.regs.sp))),
        }),
{
    assert(OPERATION_CYCLES[0x28] == 4);
    assert(OperationImplied::decode(0x28) == OperationImplied::PLP);
    lemma_execute_implied::<U>(cpu, bus, 0x28);
}

/// PHP followed by PLP restores the registers, the six flags among them,
/// provided the stack cell reads back what was written to it. The byte pushed
/// has bits 4 and 5 set; PLP ignores both.
pub proof fn lemma_php_plp_restores_flags<U: CpuBus>(cpu: CPU, bus: U::State)
    requires
        U::read_value(
            U::write_effect(bus, stack_address(cpu.regs.sp), status_byte(cpu.regs, true)),
            stack_address(cpu.regs.sp),
        ) == status_byte(cpu.regs, true),
    ensures
        ({
            let pushed = execute_model::<U>(cpu, bus, 0x08);
            let pulled = execute_model::<U>(pushed.cpu, pushed.bus, 0x28);
            &&& pushed.done
            &&& pulled.done
            &&& pulled.cpu == cpu
            &&& status_byte(cpu.regs, true) as int / 16 % 4 == 3
        }),
{
    let pushed = execute_model::<U>(cpu, bus, 0x08);
    lemma_php::<U>(cpu, bus);
    lemma_plp::<U>(pushed.cpu, pushed.bus);
    assert(increment_model(decrement_model(cpu.regs.sp)) == cpu.regs.sp);
    lemma_status_round_trip(cpu.regs, true);
    lemma_registers_in_range(cpu.regs, true);
}

/// On the console's bus the stack lies in work RAM, so there PHP followed by
/// PLP restores the registers in every valid state of the bus.
pub proof fn lemma_php_plp_restores_flags_on_main_bus<D: CpuBus>(
    cpu: CPU,
    bus: MainBusState<D::State>,
)
    requires
        bus.wf(),
    ensures
        ({
            let pushed = execute_model::<MainBus<D>>(cpu, bus, 0x08);
            let pulled = execute_model::<MainBus<D>>(pushed.cpu, pushed.bus, 0x28);
            &&& pushed.done
            &&& pulled.done
            &&& pulled.cpu == cpu
        }),
{
    lemma_ram_write_read_mirrored::<D>(
        bus,
        stack_address(cpu.regs.sp),
        status_byte(cpu.regs, true),
        stack_address(cpu.regs.sp),
    );
    lemma_php_plp_restores_flags::<MainBus<D>>(cpu, bus);
}

/// Indexing can be undone: the address that `unindexed` recovers from an
/// indexed address is the address that was indexed. The page-crossing penalty
/// therefore compares the page of the address before indexing with the page
/// of the address after it.
pub proof fn lemma_unindexed_inverts_indexed(base: Address, index: Byte)
    ensures
        unindexed(indexed(base, index), index) == base,
        page_crossed(unindexed(indexed(base, index), index), indexed(base, index)) == (base % 0x100
            + index >= 0x100),
{
}

/// TXA followed by TAX leaves X as it was, leaves the value of X in A, and
/// sets Z and N from X; nothing else changes. Where A equalled X before,
/// neither register changes.
pub proof fn lemma_txa_tax<U: CpuBus>(cpu: CPU, bus: U::State)
    ensures
        ({
            let first = execute_model::<U>(cpu, bus, 0x8A);
            let second = execute_model::<U>(first.cpu, first.bus, 0xAA);
            &&& first.done
            &&& second.done
            &&& second.bus == bus
            &&& second.cpu == with_regs(
                cpu,
                Registers {
                    a: cpu.regs.x,
                    z: cpu.regs.x == 0,
                    n: cpu.regs.x >= 128,
                    ..cpu.regs
                },
            )
        }),
{
    assert(OPERATION_CYCLES[0x8A] == 2);
    assert(OPERATION_CYCLES[0xAA] == 2);
    assert(OperationImplied::decode(0x8A) == OperationImplied::TXA);
    assert(OperationImplied::decode(0xAA) == OperationImplied::TAX);
    let first = implied_model::<U>(cpu, bus, 0x8A);
    assert(first.done);
    let second = implied_model::<U>(first.cpu, first.bus, 0xAA);
    assert(second.done);
}

} // verus!
