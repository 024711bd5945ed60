//! The 6502 core: registers, interrupts, instruction dispatch and cycle
//! accounting.
//!
//! The core does not own the bus. Every operation that touches memory takes
//! the bus as an argument, and its contract says what becomes of both the
//! core and the bus state.
pub mod opecode;
pub mod fetch;
pub mod alu;
pub mod decode;
pub mod effect;
pub mod theorems;

use vstd::prelude::*;
use crate::bus::{make_word, next_address, word_effect, word_of, word_value, CpuBus};
use crate::cpu_registers::{power_on_registers, status_byte, with_status, with_zn, Registers};
use crate::helper::{lemma_stack_page, lemma_word_bits};
use crate::types::{Address, Byte, Word};
use alu::{decrement_model, increment_model};
use decode::{
    addressing_bits, family_bits, lemma_opcode_fields, operation_bits, AddrMode1, AddrMode2,
    InterruptType, Operation0, Operation1, Operation2, OperationImplied, ADDR_MODE_MASK,
    ADDR_MODE_SHIFT, BRANCH_CONDITION_MASK, BRANCH_INSTRUCTION_MASK,
    BRANCH_INSTRUCTION_MASK_RESULT, BRANCH_ON_FLAG_SHIFT, INSTRUCTION_MODE_MASK, OPERATION_CYCLES,
    OPERATION_MASK, OPERATION_SHIFT,
};
use effect::{modified_flags, modified_value, register_effect, type0_effect, type1_effect};
use fetch::{
    fetch, fetch_indirect_absolute, fetch_indirect_absolute_model, fetch_model, fetch_operand,
    fetch_operand_model, fetch_relative, fetch_relative_model, fetch_word, fetch_word_model,
    realises, Fetched,
};
use opecode::{Addressing, Opecode};

verus! {

/// Where the address of the non-maskable interrupt handler is stored.
pub const NMI_VECTOR: Address = 0xfffa;

/// Where the address of the reset handler is stored.
pub const RESET_VECTOR: Address = 0xfffc;

/// Where the address of the IRQ and BRK handler is stored.
pub const IRQ_VECTOR: Address = 0xfffe;

/// Cycles that an interrupt sequence takes.
pub const INTERRUPT_CYCLES: u32 = 7;

/// Cycles that a byte which is no official opcode takes.
pub const UNRECOGNIZED_CYCLES: u32 = 1;

/// A byte that was fetched as an opcode and is none.
#[derive(Clone, Copy, Debug, PartialEq, Eq, Structural)]
pub struct IllegalOpcode {
    /// The byte.
    pub byte: Byte,
    /// The address it was fetched from.
    pub pc: Address,
}

/// The 6502 core.
#[derive(Clone, Copy, Debug, PartialEq, Eq, Structural)]
pub struct CPU {
    /// The register file.
    pub regs: Registers,
    /// Cycles still owed for the instruction executed last. The step that
    /// executes an instruction is the first of its cycles; while it executes,
    /// the penalties of the instruction gather here.
    pub skip_cycles: u32,
    /// Cycles accounted for since reset, modulo 2^64.
    pub cycles: u64,
    /// A non-maskable interrupt was requested and not yet taken.
    pub nmi_pending: bool,
    /// The level of the IRQ line: true while a device requests service.
    pub irq_line: bool,
    /// The last byte that a step could not execute, until notice is taken of
    /// it.
    pub illegal: Option<IllegalOpcode>,
}

/// The outcome of an attempt to execute an opcode.
pub struct Executed<S> {
    /// Whether the opcode was recognised. Where it was not, nothing changed.
    pub done: bool,
    /// The core afterwards.
    pub cpu: CPU,
    /// The bus state afterwards.
    pub bus: S,
}

/// The outcome of one step.
pub struct Stepped<S> {
    /// Cycles that the step accounted for.
    pub consumed: u32,
    /// The core afterwards.
    pub cpu: CPU,
    /// The bus state afterwards.
    pub bus: S,
}

/// The high byte of a word.
pub open spec fn high_byte(w: Word) -> Byte {
    (w / 256) as Byte
}

/// The low byte of a word.
pub open spec fn low_byte(w: Word) -> Byte {
    (w % 256) as Byte
}

/// Whether two addresses lie in different 256-byte pages.
pub open spec fn page_crossed(a: Address, b: Address) -> bool {
    a / 256 != b / 256
}

/// The address that indexing by `index` led to `effective` from.
pub open spec fn unindexed(effective: Address, index: Byte) -> Address {
    ((effective - index) % 0x10000) as Address
}

/// Whether the indexing of an `abs,X`, `abs,Y` or `(zp),Y` operand left the
/// page of the address it started from. `regs` are the registers before the
/// operand fetch, `effective` the address it gave.
pub open spec fn index_crossed_page(mode: Addressing, regs: Registers, effective: Address) -> bool {
    match mode {
        Addressing::AbsoluteX => page_crossed(unindexed(effective, regs.x), effective),
        Addressing::AbsoluteY => page_crossed(unindexed(effective, regs.y), effective),
        Addressing::PostIndexedIndirect => page_crossed(unindexed(effective, regs.y), effective),
        _ => false,
    }
}

/// The stack location that the stack pointer `sp` names.
pub open spec fn stack_address(sp: Byte) -> Address {
    (0x100 + sp) as Address
}

/// The core with its registers replaced.
pub open spec fn with_regs(cpu: CPU, regs: Registers) -> CPU {
    CPU { regs, ..cpu }
}

/// Push: writes `value` at the stack pointer, then decrements the stack
/// pointer, which wraps from `$00` to `$FF`.
pub open spec fn push_model<U: CpuBus>(regs: Registers, bus: U::State, value: Byte) -> (
    Registers,
    U::State,
) {
    (
        Registers { sp: decrement_model(regs.sp), ..regs },
        U::write_effect(bus, stack_address(regs.sp), value),
    )
}

/// Pull: increments the stack pointer, which wraps from `$FF` to `$00`, then
/// reads the byte it names.
pub open spec fn pull_model<U: CpuBus>(regs: Registers, bus: U::State) -> Fetched<U::State> {
    let sp = increment_model(regs.sp);
    Fetched {
        value: U::read_value(bus, stack_address(sp)) as Word,
        regs: Registers { sp, ..regs },
        bus: U::read_effect(bus, stack_address(sp)),
    }
}

/// Pushes a word, high byte first.
pub open spec fn push_word_model<U: CpuBus>(regs: Registers, bus: U::State, word: Word) -> (
    Registers,
    U::State,
) {
    let high = push_model::<U>(regs, bus, high_byte(word));
    push_model::<U>(high.0, high.1, low_byte(word))
}

/// Pulls a word, low byte first.
pub open spec fn pull_word_model<U: CpuBus>(regs: Registers, bus: U::State) -> Fetched<U::State> {
    let low = pull_model::<U>(regs, bus);
    let high = pull_model::<U>(low.regs, low.bus);
    Fetched { value: word_of(low.value as Byte, high.value as Byte), ..high }
}

/// The vector through which an interrupt of kind `t` enters its handler.
pub open spec fn interrupt_vector(t: InterruptType) -> Address {
    match t {
        InterruptType::NMI => NMI_VECTOR,
        InterruptType::IRQ => IRQ_VECTOR,
        InterruptType::BRK_ => IRQ_VECTOR,
    }
}

/// The interrupt sequence. An IRQ while I is set does nothing. Otherwise the
/// return address is pushed, high byte first, then the status byte, with the
/// break flag set for BRK only; I is set; and the program counter is loaded
/// from the vector. The return address is the program counter, for BRK the
/// byte after it (two past the opcode).
pub open spec fn interrupt_model<U: CpuBus>(t: InterruptType, regs: Registers, bus: U::State) -> (
    Registers,
    U::State,
) {
    if t is IRQ && regs.i {
        (regs, bus)
    } else {
        let ret = if t is BRK_ {
            next_address(regs.pc)
        } else {
            regs.pc
        };
        let pc_pushed = push_word_model::<U>(regs, bus, ret);
        let pushed = push_model::<U>(pc_pushed.0, pc_pushed.1, status_byte(regs, t is BRK_));
        (
            Registers {
                i: true,
                pc: word_value::<U>(pushed.1, interrupt_vector(t)),
                ..pushed.0
            },
            word_effect::<U>(pushed.1, interrupt_vector(t)),
        )
    }
}

/// What an instruction that changes the flow of control does. `regs.pc` is
/// the address after the opcode.
///
/// JSR pushes the address of its last byte, then loads the program counter
/// from its operand; RTS pulls an address and continues after it; RTI pulls
/// the flags, then the program counter; JMP loads the program counter from
/// its operand, the indirect JMP through its operand.
pub open spec fn jump_effect<U: CpuBus>(op: OperationImplied, regs: Registers, bus: U::State) -> (
    Registers,
    U::State,
) {
    match op {
        OperationImplied::BRK => interrupt_model::<U>(InterruptType::BRK_, regs, bus),
        OperationImplied::JSR => {
            let pushed = push_word_model::<U>(regs, bus, next_address(regs.pc));
            (
                Registers { pc: word_value::<U>(pushed.1, regs.pc), ..pushed.0 },
                word_effect::<U>(pushed.1, regs.pc),
            )
        },
        OperationImplied::RTS => {
            let ret = pull_word_model::<U>(regs, bus);
            (Registers { pc: next_address(ret.value), ..ret.regs }, ret.bus)
        },
        OperationImplied::RTI => {
            let flags = pull_model::<U>(regs, bus);
            let ret = pull_word_model::<U>(with_status(flags.regs, flags.value as Byte), flags.bus);
            (Registers { pc: ret.value, ..ret.regs }, ret.bus)
        },
        OperationImplied::JMP => {
            let target = fetch_word_model::<U>(regs, bus);
            (Registers { pc: target.value, ..target.regs }, target.bus)
        },
        OperationImplied::JMPI => {
            let target = fetch_indirect_absolute_model::<U>(regs, bus);
            (Registers { pc: target.value, ..target.regs }, target.bus)
        },
        _ => (regs, bus),
    }
}

/// What an instruction that pushes or pulls a register does. PHP pushes the
/// status byte with the break flag set; PLP loads the flags from the byte it
/// pulls; PLA sets Z and N from the byte it pulls.
pub open spec fn stack_effect<U: CpuBus>(op: OperationImplied, regs: Registers, bus: U::State) -> (
    Registers,
    U::State,
) {
    match op {
        OperationImplied::PHP => push_model::<U>(regs, bus, status_byte(regs, true)),
        OperationImplied::PLP => {
            let flags = pull_model::<U>(regs, bus);
            (with_status(flags.regs, flags.value as Byte), flags.bus)
        },
        OperationImplied::PHA => push_model::<U>(regs, bus, regs.a),
        OperationImplied::PLA => {
            let top = pull_model::<U>(regs, bus);
            (with_zn(Registers { a: top.value as Byte, ..top.regs }, top.value as Byte), top.bus)
        },
        _ => (regs, bus),
    }
}

/// What a single-byte instruction or a jump does to the registers and the
/// bus. `regs.pc` is the address after the opcode.
pub open spec fn implied_effect<U: CpuBus>(op: OperationImplied, regs: Registers, bus: U::State) -> (
    Registers,
    U::State,
) {
    if op.is_jump() {
        jump_effect::<U>(op, regs, bus)
    } else if op.is_stack() {
        stack_effect::<U>(op, regs, bus)
    } else {
        (register_effect(op, regs), bus)
    }
}

/// Execution of `opcode` as a single-byte instruction or a jump.
pub open spec fn implied_model<U: CpuBus>(cpu: CPU, bus: U::State, opcode: Byte) -> Executed<
    U::State,
> {
    let op = OperationImplied::decode(opcode);
    if op is Unsupported {
        Executed { done: false, cpu, bus }
    } else {
        let after = implied_effect::<U>(op, cpu.regs, bus);
        Executed { done: true, cpu: with_regs(cpu, after.0), bus: after.1 }
    }
}

/// The flag that a branch opcode tests: N, V, C or Z by bits 6 and 7.
pub open spec fn branch_flag(opcode: Byte, regs: Registers) -> bool {
    match opcode / 64 {
        0 => regs.n,
        1 => regs.v,
        2 => regs.c,
        _ => regs.z,
    }
}

/// Whether the branch `opcode` is taken: bit 5 says whether the flag must be
/// set or clear.
pub open spec fn branch_taken(opcode: Byte, regs: Registers) -> bool {
    branch_flag(opcode, regs) == (opcode / 32 % 2 == 1)
}

/// Execution of `opcode` as a branch (`xxy10000`). A branch not taken steps
/// over its offset byte without reading it. A branch taken costs one cycle
/// more, and another one if the target lies in another page than the
/// instruction that follows the branch.
#[verifier::opaque]
pub open spec fn branch_model<U: CpuBus>(cpu: CPU, bus: U::State, opcode: Byte) -> Executed<
    U::State,
> {
    if opcode % 32 != 16 {
        Executed { done: false, cpu, bus }
    } else if branch_taken(opcode, cpu.regs) {
        let target = fetch_relative_model::<U>(cpu.regs, bus);
        let penalty: int = if page_crossed(target.regs.pc, target.value) {
            2
        } else {
            1
        };
        Executed {
            done: true,
            cpu: CPU {
                regs: Registers { pc: target.value, ..target.regs },
                skip_cycles: (cpu.skip_cycles + penalty) as u32,
                ..cpu
            },
            bus: target.bus,
        }
    } else {
        Executed {
            done: true,
            cpu: with_regs(cpu, Registers { pc: next_address(cpu.regs.pc), ..cpu.regs }),
            bus,
        }
    }
}

/// The byte that an instruction operates on: the operand itself where the
/// mode is immediate, else the byte read at the operand's address.
pub open spec fn operand_value<U: CpuBus>(mode: Addressing, at: Fetched<U::State>) -> Byte {
    if mode is Immediate {
        at.value as Byte
    } else {
        U::read_value(at.bus, at.value)
    }
}

/// The bus state after the operand byte was obtained.
pub open spec fn operand_effect<U: CpuBus>(mode: Addressing, at: Fetched<U::State>) -> U::State {
    if mode is Immediate {
        at.bus
    } else {
        U::read_effect(at.bus, at.value)
    }
}

/// The core after an operand fetch that started in `cpu`: the registers the
/// fetch left, and one cycle more owed if `penalised`.
pub open spec fn after_fetch<S>(cpu: CPU, at: Fetched<S>, penalised: bool) -> CPU {
    CPU {
        regs: at.regs,
        skip_cycles: if penalised {
            (cpu.skip_cycles + 1) as u32
        } else {
            cpu.skip_cycles
        },
        ..cpu
    }
}

/// The operand fetch of a family 0 opcode, if the opcode is valid: the family
/// has no accumulator mode, and STY has no immediate mode.
pub open spec fn type0_addressing(opcode: Byte) -> Option<Addressing> {
    let op = Operation0::decode(operation_bits(opcode));
    let mode = AddrMode2::decode(addressing_bits(opcode));
    if family_bits(opcode) != 0 || op is Unsupported || mode is Accumulator || (op is STY
        && mode is Immediate_) {
        None
    } else {
        mode.addressing_of(false)
    }
}

/// Execution of `opcode` as an instruction of family 0: BIT, STY, LDY, CPY,
/// CPX. An `abs,X` operand that crosses a page costs one cycle more.
#[verifier::opaque]
pub open spec fn type0_model<U: CpuBus>(cpu: CPU, bus: U::State, opcode: Byte) -> Executed<
    U::State,
> {
    match type0_addressing(opcode) {
        None => Executed { done: false, cpu, bus },
        Some(mode) => {
            let op = Operation0::decode(operation_bits(opcode));
            let at = fetch_operand_model::<U>(mode, cpu.regs, bus);
            let cpu1 = after_fetch(cpu, at, index_crossed_page(mode, cpu.regs, at.value));
            if op is STY {
                Executed {
                    done: true,
                    cpu: cpu1,
                    bus: U::write_effect(at.bus, at.value, cpu.regs.y),
                }
            } else {
                Executed {
                    done: true,
                    cpu: with_regs(cpu1, type0_effect(op, at.regs, operand_value::<U>(mode, at))),
                    bus: operand_effect::<U>(mode, at),
                }
            }
        },
    }
}

/// The operand fetch of a family 1 opcode, if the opcode is valid: STA has no
/// immediate mode.
pub open spec fn type1_addressing(opcode: Byte) -> Option<Addressing> {
    let op = Operation1::decode(operation_bits(opcode));
    let mode = AddrMode1::decode(addressing_bits(opcode));
    if family_bits(opcode) != 1 || (op is STA && mode is Immediate) {
        None
    } else {
        mode.addressing_of()
    }
}

/// Execution of `opcode` as an instruction of family 1: ORA, AND, EOR, ADC,
/// STA, LDA, CMP, SBC. An `abs,X`, `abs,Y` or `(zp),Y` operand that crosses a
/// page costs one cycle more, except for STA.
#[verifier::opaque]
pub open spec fn type1_model<U: CpuBus>(cpu: CPU, bus: U::State, opcode: Byte) -> Executed<
    U::State,
> {
    match type1_addressing(opcode) {
        None => Executed { done: false, cpu, bus },
        Some(mode) => {
            let op = Operation1::decode(operation_bits(opcode));
            let at = fetch_operand_model::<U>(mode, cpu.regs, bus);
            if op is STA {
                Executed {
                    done: true,
                    cpu: after_fetch(cpu, at, false),
                    bus: U::write_effect(at.bus, at.value, cpu.regs.a),
                }
            } else {
                let cpu1 = after_fetch(cpu, at, index_crossed_page(mode, cpu.regs, at.value));
                Executed {
                    done: true,
                    cpu: with_regs(cpu1, type1_effect(op, at.regs, operand_value::<U>(mode, at))),
                    bus: operand_effect::<U>(mode, at),
                }
            }
        },
    }
}

/// The operand fetch of a family 2 opcode, if the opcode is valid: only LDX
/// has an immediate mode, and only the shifts work on the accumulator.
pub open spec fn type2_addressing(opcode: Byte) -> Option<Addressing> {
    let op = Operation2::decode(operation_bits(opcode));
    let mode = AddrMode2::decode(addressing_bits(opcode));
    if family_bits(opcode) != 2 || (mode is Immediate_ && !(op is LDX)) || (mode is Accumulator
        && !op.is_shift()) {
        None
    } else {
        mode.addressing_of(op.indexes_by_y())
    }
}

/// Execution of `opcode` as an instruction of family 2: ASL, ROL, LSR, ROR,
/// STX, LDX, DEC, INC. LDX and STX index by Y. An absolute indexed operand
/// that crosses a page costs one cycle more. The shifts, DEC and INC read the
/// byte at the operand's address, then write the changed byte there; in
/// accumulator mode the shifts work on A instead.
#[verifier::opaque]
pub open spec fn type2_model<U: CpuBus>(cpu: CPU, bus: U::State, opcode: Byte) -> Executed<
    U::State,
> {
    match type2_addressing(opcode) {
        None => Executed { done: false, cpu, bus },
        Some(mode) => {
            let op = Operation2::decode(operation_bits(opcode));
            let at = fetch_operand_model::<U>(mode, cpu.regs, bus);
            let cpu1 = after_fetch(cpu, at, index_crossed_page(mode, cpu.regs, at.value));
            if mode is Accumulator {
                Executed {
                    done: true,
                    cpu: with_regs(
                        cpu1,
                        Registers {
                            a: modified_value(op, at.regs.a, at.regs.c),
                            ..modified_flags(op, at.regs, at.regs.a)
                        },
                    ),
                    bus: at.bus,
                }
            } else if op is STX {
                Executed {
                    done: true,
                    cpu: cpu1,
                    bus: U::write_effect(at.bus, at.value, cpu.regs.x),
                }
            } else if op is LDX {
                let m = operand_value::<U>(mode, at);
                Executed {
                    done: true,
                    cpu: with_regs(cpu1, with_zn(Registers { x: m, ..at.regs }, m)),
                    bus: operand_effect::<U>(mode, at),
                }
            } else {
                let m = U::read_value(at.bus, at.value);
                Executed {
                    done: true,
                    cpu: with_regs(cpu1, modified_flags(op, at.regs, m)),
                    bus: U::write_effect(
                        U::read_effect(at.bus, at.value),
                        at.value,
                        modified_value(op, m, at.regs.c),
                    ),
                }
            }
        },
    }
}

/// Execution of `opcode`, already fetched: it is tried as a single-byte
/// instruction or jump, as a branch, and as a member of families 0, 1 and 2,
/// in that order. A byte whose base cost is zero is not recognised.
///
/// The models of the branch and of the three families are opaque, to keep
/// proofs about one instruction from unfolding all the others: `reveal` the
/// ones a proof needs.
pub open spec fn execute_model<U: CpuBus>(cpu: CPU, bus: U::State, opcode: Byte) -> Executed<
    U::State,
> {
    if OPERATION_CYCLES[opcode as int] == 0 {
        Executed { done: false, cpu, bus }
    } else if implied_model::<U>(cpu, bus, opcode).done {
        implied_model::<U>(cpu, bus, opcode)
    } else if branch_model::<U>(cpu, bus, opcode).done {
        branch_model::<U>(cpu, bus, opcode)
    } else if type0_model::<U>(cpu, bus, opcode).done {
        type0_model::<U>(cpu, bus, opcode)
    } else if type1_model::<U>(cpu, bus, opcode).done {
        type1_model::<U>(cpu, bus, opcode)
    } else {
        type2_model::<U>(cpu, bus, opcode)
    }
}

/// The core after it was charged `cost` cycles, of which the step that
/// charges them is the first: the others are owed, and all are added to the
/// running total.
pub open spec fn charged(cpu: CPU, cost: u32) -> CPU {
    CPU {
        skip_cycles: (cost - 1) as u32,
        cycles: ((cpu.cycles + cost) % 0x1_0000_0000_0000_0000) as u64,
        ..cpu
    }
}

/// One step of the core.
///
/// While cycles are owed, the step pays one and does nothing else; it
/// accounts for no cycle, since that cycle was accounted for when it was
/// charged. Else a pending NMI is taken; else an IRQ, if the line is asserted
/// and I is clear; either costs 7 cycles. Else the byte at the program counter
/// is fetched and executed, for its base cost plus the penalties of page
/// crossing and branching; a byte that is no official opcode is stepped over
/// for one cycle and recorded, with its address, in `illegal`.
///
/// The cycles of an instruction are charged by the step that executes it:
/// that step is the first of them, and the steps that follow pay the rest, so
/// that an instruction of `n` cycles takes `n` steps.
pub open spec fn step_model<U: CpuBus>(cpu: CPU, bus: U::State) -> Stepped<U::State> {
    if cpu.skip_cycles > 0 {
        Stepped { consumed: 0, cpu: CPU { skip_cycles: (cpu.skip_cycles - 1) as u32, ..cpu }, bus }
    } else if cpu.nmi_pending {
        let entered = interrupt_model::<U>(InterruptType::NMI, cpu.regs, bus);
        Stepped {
            consumed: INTERRUPT_CYCLES,
            cpu: charged(CPU { regs: entered.0, nmi_pending: false, ..cpu }, INTERRUPT_CYCLES),
            bus: entered.1,
        }
    } else if cpu.irq_line && !cpu.regs.i {
        let entered = interrupt_model::<U>(InterruptType::IRQ, cpu.regs, bus);
        Stepped {
            consumed: INTERRUPT_CYCLES,
            cpu: charged(with_regs(cpu, entered.0), INTERRUPT_CYCLES),
            bus: entered.1,
        }
    } else {
        let opcode = fetch_model::<U>(cpu.regs, bus);
        let run = execute_model::<U>(with_regs(cpu, opcode.regs), opcode.bus, opcode.value as Byte);
        if run.done {
            let cost = (run.cpu.skip_cycles + OPERATION_CYCLES[opcode.value as int]) as u32;
            Stepped { consumed: cost, cpu: charged(run.cpu, cost), bus: run.bus }
        } else {
            let skipped = CPU {
                illegal: Some(IllegalOpcode { byte: opcode.value as Byte, pc: cpu.regs.pc }),
                ..run.cpu
            };
            Stepped {
                consumed: UNRECOGNIZED_CYCLES,
                cpu: charged(skipped, UNRECOGNIZED_CYCLES),
                bus: run.bus,
            }
        }
    }
}

/// The core after a reset that starts execution at `start_address`: A, X and
/// Y zero, the stack pointer at `$FD`, I set and every other flag clear, and
/// both cycle counters zero. The interrupt lines and the record of an illegal
/// opcode are left as they are.
pub open spec fn reset_model(cpu: CPU, start_address: Address) -> CPU {
    CPU {
        regs: Registers { pc: start_address, ..power_on_registers() },
        skip_cycles: 0,
        cycles: 0,
        ..cpu
    }
}

/// Whether an exec operation with result `done` realises the modelled
/// `outcome`.
pub open spec fn executes<U: CpuBus>(
    done: bool,
    cpu: &CPU,
    bus: &U,
    outcome: Executed<U::State>,
) -> bool {
    &&& done == outcome.done
    &&& *cpu == outcome.cpu
    &&& bus.state() == outcome.bus
}

impl CPU {
    /// A core at power-on: registers as `Registers::new` gives them, no
    /// cycles owed or counted, no interrupt pending.
    pub fn new() -> (cpu: CPU)
        ensures
            cpu == (CPU {
                regs: power_on_registers(),
                skip_cycles: 0,
                cycles: 0,
                nmi_pending: false,
                irq_line: false,
                illegal: None,
            }),
    {
        CPU {
            regs: Registers::new(),
            skip_cycles: 0,
            cycles: 0,
            nmi_pending: false,
            irq_line: false,
            illegal: None,
        }
    }

    /// Resets the core and starts at the address stored at `$FFFC`.
    pub fn reset<B: CpuBus>(&mut self, bus: &mut B)
        requires
            old(bus).wf(),
        ensures
            final(bus).wf(),
            *final(self) == reset_model(*old(self), word_value::<B>(old(bus).state(), RESET_VECTOR)),
            final(bus).state() == word_effect::<B>(old(bus).state(), RESET_VECTOR),
    {
        let a = self.read_address(bus, RESET_VECTOR);
        self.reset_address(a);
    }

    /// Resets the core and starts at `start_address`.
    pub fn reset_address(&mut self, start_address: Address)
        ensures
            *final(self) == reset_model(*old(self), start_address),
    {
        self.skip_cycles = 0;
        self.cycles = 0;

        self.regs.a = 0;
        self.regs.x = 0;
        self.regs.y = 0;

        self.regs.i = true;
        self.regs.c = false;
        self.regs.d = false;
        self.regs.n = false;
        self.regs.v = false;
        self.regs.z = false;

        self.regs.pc = start_address;
        self.regs.sp = 0xfd;
    }

    /// Requests a non-maskable interrupt; it is taken by the next step that
    /// owes no cycles.
    pub fn nmi(&mut self)
        ensures
            *final(self) == (CPU { nmi_pending: true, ..*old(self) }),
    {
        self.nmi_pending = true;
    }

    /// Asserts the IRQ line; while it is asserted, a step that owes no cycles
    /// and finds I clear takes the interrupt.
    pub fn irq(&mut self)
        ensures
            *final(self) == (CPU { irq_line: true, ..*old(self) }),
    {
        self.irq_line = true;
    }

    /// Says which byte a step last failed to execute, if any since this was
    /// last asked, and takes notice of it.
    pub fn take_illegal_opcode(&mut self) -> (seen: Option<IllegalOpcode>)
        ensures
            seen == old(self).illegal,
            *final(self) == (CPU { illegal: None, ..*old(self) }),
    {
        let seen = self.illegal;
        self.illegal = None;
        seen
    }

    /// Releases the IRQ line.
    pub fn release_irq(&mut self)
        ensures
            *final(self) == (CPU { irq_line: false, ..*old(self) }),
    {
        self.irq_line = false;
    }

    /// Reads the little-endian word at `address`.
    pub fn read_address<B: CpuBus>(&self, bus: &mut B, address: Address) -> (word: Address)
        requires
            old(bus).wf(),
        ensures
            final(bus).wf(),
            word == word_value::<B>(old(bus).state(), address),
            final(bus).state() == word_effect::<B>(old(bus).state(), address),
    {
        bus.read_word(address)
    }

    /// Executes one step and returns the cycles it accounted for.
    pub fn step<B: CpuBus>(&mut self, bus: &mut B) -> (consumed: u32)
        requires
            old(bus).wf(),
        ensures
            final(bus).wf(),
            (Stepped { consumed, cpu: *final(self), bus: final(bus).state() }) == step_model::<B>(
                *old(self),
                old(bus).state(),
            ),
    {
        if self.skip_cycles > 0 {
            self.skip_cycles -= 1;
            return 0;
        }
        if self.nmi_pending {
            self.nmi_pending = false;
            self.interrupt(bus, InterruptType::NMI);
            self.charge(INTERRUPT_CYCLES);
            return INTERRUPT_CYCLES;
        }
        if self.irq_line && !self.regs.i {
            self.interrupt(bus, InterruptType::IRQ);
            self.charge(INTERRUPT_CYCLES);
            return INTERRUPT_CYCLES;
        }
        let pc = self.regs.pc;
        let opcode = fetch(&mut self.regs, bus);
        let cost = if self.execute(bus, opcode) {
            self.skip_cycles + OPERATION_CYCLES[opcode as usize] as u32
        } else {
            self.illegal = Some(IllegalOpcode { byte: opcode, pc });
            UNRECOGNIZED_CYCLES
        };
        self.charge(cost);
        cost
    }

    /// Executes `opcode`, already fetched, if it is an official opcode.
    fn execute<B: CpuBus>(&mut self, bus: &mut B, opcode: u8) -> (done: bool)
        requires
            old(bus).wf(),
            old(self).skip_cycles == 0,
        ensures
            final(bus).wf(),
            final(self).skip_cycles <= 2,
            executes(
                done,
                final(self),
                final(bus),
                execute_model::<B>(*old(self), old(bus).state(), opcode),
            ),
    {
        OPERATION_CYCLES[opcode as usize] != 0 && (self.execute_implied(bus, opcode)
            || self.executed_branch(bus, opcode) || self.executed_type0(bus, opcode)
            || self.executed_type1(bus, opcode) || self.executed_type2(bus, opcode))
    }

    /// Charges `cost` cycles: all are counted, and all but the first are owed.
    fn charge(&mut self, cost: u32)
        requires
            cost >= 1,
        ensures
            *final(self) == charged(*old(self), cost),
    {
        self.skip_cycles = cost - 1;
        self.cycles = self.cycles.wrapping_add(cost as u64);
    }

    /// Executes `opcode` if it is a single-byte instruction or a jump.
    fn execute_implied<B: CpuBus>(&mut self, bus: &mut B, opcode: u8) -> (done: bool)
        requires
            old(bus).wf(),
        ensures
            final(bus).wf(),
            final(self).skip_cycles == old(self).skip_cycles,
            !done ==> *final(self) == *old(self) && final(bus).state() == old(bus).state(),
            executes(
                done,
                final(self),
                final(bus),
                implied_model::<B>(*old(self), old(bus).state(), opcode),
            ),
    {
        let op = OperationImplied::get(opcode);
        match op {
            OperationImplied::Unsupported => {
                return false;
            },
            OperationImplied::BRK
            | OperationImplied::JSR
            | OperationImplied::RTS
            | OperationImplied::RTI
            | OperationImplied::JMP
            | OperationImplied::JMPI => {
                self.execute_jump(bus, op);
            },
            OperationImplied::PHP
            | OperationImplied::PLP
            | OperationImplied::PHA
            | OperationImplied::PLA => {
                self.execute_stack(bus, op);
            },
            _ => {
                self.regs.apply_implied(op);
            },
        }
        true
    }

    /// Carries out an instruction that changes the flow of control.
    fn execute_jump<B: CpuBus>(&mut self, bus: &mut B, op: OperationImplied)
        requires
            old(bus).wf(),
            op.is_jump(),
        ensures
            final(bus).wf(),
            (final(self).regs, final(bus).state()) == jump_effect::<B>(
                op,
                old(self).regs,
                old(bus).state(),
            ),
            *final(self) == with_regs(*old(self), final(self).regs),
    {
        match op {
            OperationImplied::BRK => {
                self.interrupt(bus, InterruptType::BRK_);
            },
            OperationImplied::JSR => {
                self.push_word(bus, self.regs.pc.wrapping_add(1));
                self.regs.pc = self.read_address(bus, self.regs.pc);
            },
            OperationImplied::RTS => {
                let ret = self.pull_word(bus);
                self.regs.pc = ret.wrapping_add(1);
            },
            OperationImplied::RTI => {
                let flags = self.pull_stack(bus);
                self.regs.set_P(flags);
                self.regs.pc = self.pull_word(bus);
            },
            OperationImplied::JMP => {
                self.regs.pc = fetch_word(&mut self.regs, bus);
            },
            _ => {
                self.regs.pc = fetch_indirect_absolute(&mut self.regs, bus);
            },
        }
    }

    /// Carries out an instruction that pushes or pulls a register.
    fn execute_stack<B: CpuBus>(&mut self, bus: &mut B, op: OperationImplied)
        requires
            old(bus).wf(),
            op.is_stack(),
        ensures
            final(bus).wf(),
            (final(self).regs, final(bus).state()) == stack_effect::<B>(
                op,
                old(self).regs,
                old(bus).state(),
            ),
            *final(self) == with_regs(*old(self), final(self).regs),
    {
        match op {
            OperationImplied::PHP => {
                let flags = self.regs.status(true);
                self.push_stack(bus, flags);
            },
            OperationImplied::PLP => {
                let flags = self.pull_stack(bus);
                self.regs.set_P(flags);
            },
            OperationImplied::PHA => {
                self.push_stack(bus, self.regs.a);
            },
            _ => {
                self.regs.a = self.pull_stack(bus);
                self.set_zn(self.regs.a);
            },
        }
    }

    /// Executes `opcode` if it is a branch.
    fn executed_branch<B: CpuBus>(&mut self, bus: &mut B, opcode: u8) -> (done: bool)
        requires
            old(bus).wf(),
            old(self).skip_cycles == 0,
        ensures
            final(bus).wf(),
            final(self).skip_cycles <= 2,
            !done ==> *final(self) == *old(self) && final(bus).state() == old(bus).state(),
            executes(
                done,
                final(self),
                final(bus),
                branch_model::<B>(*old(self), old(bus).state(), opcode),
            ),
    {
        proof {
            reveal(branch_model);
            lemma_opcode_fields(opcode);
        }
        if opcode & BRANCH_INSTRUCTION_MASK == BRANCH_INSTRUCTION_MASK_RESULT {
            let expected = (opcode & BRANCH_CONDITION_MASK) != 0;
            let flag = match opcode >> BRANCH_ON_FLAG_SHIFT {
                0 => self.regs.n,
                1 => self.regs.v,
                2 => self.regs.c,
                _ => self.regs.z,
            };
            if flag == expected {
                let new_pc = fetch_relative(&mut self.regs, bus);
                self.skip_cycles += 1;
                self.set_page_crossed(self.regs.pc, new_pc, 1);
                self.regs.pc = new_pc;
            } else {
                self.regs.pc = self.regs.pc.wrapping_add(1);
            }
            true
        } else {
            false
        }
    }

    /// Executes `opcode` if it belongs to family 0.
    fn executed_type0<B: CpuBus>(&mut self, bus: &mut B, opcode: u8) -> (done: bool)
        requires
            old(bus).wf(),
            old(self).skip_cycles == 0,
        ensures
            final(bus).wf(),
            final(self).skip_cycles <= 2,
            !done ==> *final(self) == *old(self) && final(bus).state() == old(bus).state(),
            executes(
                done,
                final(self),
                final(bus),
                type0_model::<B>(*old(self), old(bus).state(), opcode),
            ),
    {
        proof {
            reveal(type0_model);
            lemma_opcode_fields(opcode);
        }
        if (opcode & INSTRUCTION_MODE_MASK) != 0x0 {
            return false;
        }
        let op = Operation0::get((opcode & OPERATION_MASK) >> OPERATION_SHIFT);
        let addr_mode = AddrMode2::get((opcode & ADDR_MODE_MASK) >> ADDR_MODE_SHIFT);
        if op == Operation0::Unsupported || addr_mode == AddrMode2::Accumulator || (op
            == Operation0::STY && addr_mode == AddrMode2::Immediate_) {
            return false;
        }
        let mode = match addr_mode.addressing(false) {
            Some(mode) => mode,
            None => {
                return false;
            },
        };
        let code = Opecode { mode, cycle: OPERATION_CYCLES[opcode as usize] };
        let location = self.locate(bus, &code, true);
        if op == Operation0::STY {
            bus.write(location, self.regs.y);
        } else {
            let operand = self.read_operand(bus, mode, location);
            self.regs.apply_type0(op, operand);
        }
        true
    }

    /// Executes `opcode` if it belongs to family 1.
    fn executed_type1<B: CpuBus>(&mut self, bus: &mut B, opcode: u8) -> (done: bool)
        requires
            old(bus).wf(),
            old(self).skip_cycles == 0,
        ensures
            final(bus).wf(),
            final(self).skip_cycles <= 2,
            !done ==> *final(self) == *old(self) && final(bus).state() == old(bus).state(),
            executes(
                done,
                final(self),
                final(bus),
                type1_model::<B>(*old(self), old(bus).state(), opcode),
            ),
    {
        proof {
            reveal(type1_model);
            lemma_opcode_fields(opcode);
        }
        if (opcode & INSTRUCTION_MODE_MASK) != 0x1 {
            return false;
        }
        let op = Operation1::get((opcode & OPERATION_MASK) >> OPERATION_SHIFT);
        let addr_mode = AddrMode1::get((opcode & ADDR_MODE_MASK) >> ADDR_MODE_SHIFT);
        if op == Operation1::STA && addr_mode == AddrMode1::Immediate {
            return false;
        }
        let mode = match addr_mode.addressing() {
            Some(mode) => mode,
            None => {
                return false;
            },
        };
        let code = Opecode { mode, cycle: OPERATION_CYCLES[opcode as usize] };
        let location = self.locate(bus, &code, op != Operation1::STA);
        if op == Operation1::STA {
            bus.write(location, self.regs.a);
        } else {
            let operand = self.read_operand(bus, mode, location);
            self.regs.apply_type1(op, operand);
        }
        true
    }

    /// Executes `opcode` if it belongs to family 2.
    fn executed_type2<B: CpuBus>(&mut self, bus: &mut B, opcode: u8) -> (done: bool)
        requires
            old(bus).wf(),
            old(self).skip_cycles == 0,
        ensures
            final(bus).wf(),
            final(self).skip_cycles <= 2,
            !done ==> *final(self) == *old(self) && final(bus).state() == old(bus).state(),
            executes(
                done,
                final(self),
                final(bus),
                type2_model::<B>(*old(self), old(bus).state(), opcode),
            ),
    {
        proof {
            reveal(type2_model);
            lemma_opcode_fields(opcode);
        }
        if (opcode & INSTRUCTION_MODE_MASK) != 2 {
            return false;
        }
        let op = Operation2::get((opcode & OPERATION_MASK) >> OPERATION_SHIFT);
        let addr_mode = AddrMode2::get((opcode & ADDR_MODE_MASK) >> ADDR_MODE_SHIFT);
        let shift = op == Operation2::ASL || op == Operation2::ROL || op == Operation2::LSR || op
            == Operation2::ROR;
        if (addr_mode == AddrMode2::Immediate_ && op != Operation2::LDX) || (addr_mode
            == AddrMode2::Accumulator && !shift) {
            return false;
        }
        let mode = match addr_mode.addressing(op == Operation2::LDX || op == Operation2::STX) {
            Some(mode) => mode,
            None => {
                return false;
            },
        };
        let code = Opecode { mode, cycle: OPERATION_CYCLES[opcode as usize] };
        let location = self.locate(bus, &code, true);
        if addr_mode == AddrMode2::Accumulator {
            self.regs.a = self.regs.apply_modify(op, self.regs.a);
        } else if op == Operation2::STX {
            bus.write(location, self.regs.x);
        } else if op == Operation2::LDX {
            self.regs.x = self.read_operand(bus, mode, location);
            self.set_zn(self.regs.x);
        } else {
            let operand = bus.read(location);
            let changed = self.regs.apply_modify(op, operand);
            bus.write(location, changed);
        }
        true
    }

    /// Fetches the operand that `mode` calls for and, if `penalised`, charges
    /// one cycle where indexing crossed a page.
    fn locate<B: CpuBus>(&mut self, bus: &mut B, code: &Opecode, penalised: bool) -> (location:
        Address)
        requires
            old(bus).wf(),
            old(self).skip_cycles == 0,
        ensures
            final(bus).wf(),
            final(self).skip_cycles <= 1,
            code.mode is Immediate ==> location < 0x100,
            location == fetch_operand_model::<B>(code.mode, old(self).regs, old(bus).state()).value,
            final(bus).state() == fetch_operand_model::<B>(
                code.mode,
                old(self).regs,
                old(bus).state(),
            ).bus,
            *final(self) == after_fetch(
                *old(self),
                fetch_operand_model::<B>(code.mode, old(self).regs, old(bus).state()),
                penalised && index_crossed_page(code.mode, old(self).regs, location),
            ),
    {
        let x = self.regs.x;
        let y = self.regs.y;
        let location = fetch_operand(code, &mut self.regs, bus);
        if penalised {
            match code.mode {
                Addressing::AbsoluteX => {
                    self.set_page_crossed(location.wrapping_sub(x as u16), location, 1);
                },
                Addressing::AbsoluteY | Addressing::PostIndexedIndirect => {
                    self.set_page_crossed(location.wrapping_sub(y as u16), location, 1);
                },
                _ => {},
            }
        }
        location
    }

    /// Obtains the operand byte: the operand itself in immediate mode, else
    /// the byte at its address.
    fn read_operand<B: CpuBus>(&self, bus: &mut B, mode: Addressing, operand: Word) -> (m: Byte)
        requires
            old(bus).wf(),
            mode is Immediate ==> operand < 0x100,
        ensures
            final(bus).wf(),
            m == operand_value::<B>(
                mode,
                Fetched { value: operand, regs: self.regs, bus: old(bus).state() },
            ),
            final(bus).state() == operand_effect::<B>(
                mode,
                Fetched { value: operand, regs: self.regs, bus: old(bus).state() },
            ),
    {
        match mode {
            Addressing::Immediate => operand as u8,
            _ => bus.read(operand),
        }
    }

    /// The interrupt sequence for an interrupt of kind `t`.
    fn interrupt<B: CpuBus>(&mut self, bus: &mut B, t: InterruptType)
        requires
            old(bus).wf(),
        ensures
            final(bus).wf(),
            (final(self).regs, final(bus).state()) == interrupt_model::<B>(
                t,
                old(self).regs,
                old(bus).state(),
            ),
            *final(self) == with_regs(*old(self), final(self).regs),
    {
        if self.regs.i && t == InterruptType::IRQ {
            return ;
        }
        let ret = if t == InterruptType::BRK_ {
            self.regs.pc.wrapping_add(1)
        } else {
            self.regs.pc
        };
        let flags = self.regs.status(t == InterruptType::BRK_);
        self.push_word(bus, ret);
        self.push_stack(bus, flags);
        self.regs.i = true;
        self.regs.pc = match t {
            InterruptType::NMI => self.read_address(bus, NMI_VECTOR),
            _ => self.read_address(bus, IRQ_VECTOR),
        };
    }

    /// Pulls a byte off the stack.
    fn pull_stack<B: CpuBus>(&mut self, bus: &mut B) -> (value: Byte)
        requires
            old(bus).wf(),
        ensures
            final(bus).wf(),
            realises(
                value as Word,
                &final(self).regs,
                final(bus),
                pull_model::<B>(old(self).regs, old(bus).state()),
            ),
            *final(self) == with_regs(*old(self), final(self).regs),
    {
        self.regs.sp = self.regs.sp.wrapping_add(1);
        proof {
            lemma_stack_page(self.regs.sp);
        }
        bus.read(0x100 | (self.regs.sp as u16))
    }

    /// Pulls a word off the stack, low byte first.
    fn pull_word<B: CpuBus>(&mut self, bus: &mut B) -> (value: Word)
        requires
            old(bus).wf(),
        ensures
            final(bus).wf(),
            realises(
                value,
                &final(self).regs,
                final(bus),
                pull_word_model::<B>(old(self).regs, old(bus).state()),
            ),
            *final(self) == with_regs(*old(self), final(self).regs),
    {
        let low = self.pull_stack(bus);
        let high = self.pull_stack(bus);
        make_word(low, high)
    }

    /// Pushes a byte on the stack.
    fn push_stack<B: CpuBus>(&mut self, bus: &mut B, value: Byte)
        requires
            old(bus).wf(),
        ensures
            final(bus).wf(),
            (final(self).regs, final(bus).state()) == push_model::<B>(
                old(self).regs,
                old(bus).state(),
                value,
            ),
            *final(self) == with_regs(*old(self), final(self).regs),
    {
        proof {
            lemma_stack_page(self.regs.sp);
        }
        bus.write(0x100 | (self.regs.sp as u16), value);
        self.regs.sp = self.regs.sp.wrapping_sub(1);
    }

    /// Pushes a word on the stack, high byte first.
    fn push_word<B: CpuBus>(&mut self, bus: &mut B, word: Word)
        requires
            old(bus).wf(),
        ensures
            final(bus).wf(),
            (final(self).regs, final(bus).state()) == push_word_model::<B>(
                old(self).regs,
                old(bus).state(),
                word,
            ),
            *final(self) == with_regs(*old(self), final(self).regs),
    {
        proof {
            lemma_word_bits(word);
        }
        self.push_stack(bus, (word >> 8) as u8);
        self.push_stack(bus, (word & 0xff) as u8);
    }

    /// Sets Z and N from a result byte.
    fn set_zn(&mut self, value: Byte)
        ensures
            *final(self) == with_regs(*old(self), with_zn(old(self).regs, value)),
    {
        self.regs.set_zn(value);
    }

    /// Charges `inc` cycles if `a` and `b` lie in different pages.
    fn set_page_crossed(&mut self, a: Address, b: Address, inc: u32)
        requires
            old(self).skip_cycles + inc <= u32::MAX,
        ensures
            *final(self) == (CPU {
                skip_cycles: if page_crossed(a, b) {
                    (old(self).skip_cycles + inc) as u32
                } else {
                    old(self).skip_cycles
                },
                ..*old(self)
            }),
    {
        proof {
            lemma_word_bits(a);
            lemma_word_bits(b);
        }
        if (a & 0xff00) != (b & 0xff00) {
            self.skip_cycles += inc;
        }
    }
}

} // verus!
