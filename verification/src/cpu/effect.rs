//! What each operation does to the registers, given the byte it operates on.
//! Nothing here touches the bus.
use vstd::prelude::*;
use super::alu::{
    adc, adc_model, compare, compare_model, decrement_model, increment_model, sbc, sbc_model,
    shift_left, shift_left_model, shift_right, shift_right_model, Sum,
};
use super::decode::{Operation0, Operation1, Operation2, OperationImplied};
use crate::cpu_registers::{with_zn, Registers};
use crate::helper::lemma_byte_bits;
use crate::types::Byte;

verus! {

/// The registers after comparing `register` with `m`.
pub open spec fn with_comparison(regs: Registers, register: Byte, m: Byte) -> Registers {
    let flags = compare_model(register, m);
    Registers { c: flags.carry, z: flags.zero, n: flags.negative, ..regs }
}

/// The registers after an addition or subtraction left `sum` in the
/// accumulator.
pub open spec fn with_sum(regs: Registers, sum: Sum) -> Registers {
    with_zn(Registers { a: sum.value, c: sum.carry, v: sum.overflow, ..regs }, sum.value)
}

/// What a single-byte instruction that works on registers alone does:
/// transfers, increments and decrements set Z and N from the value they
/// leave, but for TXS; the flag instructions set or clear their flag.
pub open spec fn register_effect(op: OperationImplied, regs: Registers) -> Registers {
    match op {
        OperationImplied::DEY => with_zn(
            Registers { y: decrement_model(regs.y), ..regs },
            decrement_model(regs.y),
        ),
        OperationImplied::DEX => with_zn(
            Registers { x: decrement_model(regs.x), ..regs },
            decrement_model(regs.x),
        ),
        OperationImplied::TAY => with_zn(Registers { y: regs.a, ..regs }, regs.a),
        OperationImplied::INY => with_zn(
            Registers { y: increment_model(regs.y), ..regs },
            increment_model(regs.y),
        ),
        OperationImplied::INX => with_zn(
            Registers { x: increment_model(regs.x), ..regs },
            increment_model(regs.x),
        ),
        OperationImplied::CLC => Registers { c: false, ..regs },
        OperationImplied::SEC => Registers { c: true, ..regs },
        OperationImplied::CLI => Registers { i: false, ..regs },
        OperationImplied::SEI => Registers { i: true, ..regs },
        OperationImplied::CLD => Registers { d: false, ..regs },
        OperationImplied::SED => Registers { d: true, ..regs },
        OperationImplied::TYA => with_zn(Registers { a: regs.y, ..regs }, regs.y),
        OperationImplied::CLV => Registers { v: false, ..regs },
        OperationImplied::TXA => with_zn(Registers { a: regs.x, ..regs }, regs.x),
        OperationImplied::TXS => Registers { sp: regs.x, ..regs },
        OperationImplied::TAX => with_zn(Registers { x: regs.a, ..regs }, regs.a),
        OperationImplied::TSX => with_zn(Registers { x: regs.sp, ..regs }, regs.sp),
        _ => regs,
    }
}

/// What an operation of family 0 other than a store does to the registers,
/// given its operand byte `m`. BIT takes Z from `a & m`, V from bit 6 of `m`
/// and N from bit 7 of `m`.
pub open spec fn type0_effect(op: Operation0, regs: Registers, m: Byte) -> Registers {
    match op {
        Operation0::BIT => Registers {
            z: regs.a & m == 0,
            v: m as int / 64 % 2 == 1,
            n: m >= 128,
            ..regs
        },
        Operation0::LDY => with_zn(Registers { y: m, ..regs }, m),
        Operation0::CPY => with_comparison(regs, regs.y, m),
        Operation0::CPX => with_comparison(regs, regs.x, m),
        _ => regs,
    }
}

/// What an operation of family 1 other than a store does to the registers,
/// given its operand byte `m`. ADC and SBC do not look at the decimal flag.
pub open spec fn type1_effect(op: Operation1, regs: Registers, m: Byte) -> Registers {
    match op {
        Operation1::ORA => with_zn(Registers { a: regs.a | m, ..regs }, regs.a | m),
        Operation1::AND => with_zn(Registers { a: regs.a & m, ..regs }, regs.a & m),
        Operation1::EOR => with_zn(Registers { a: regs.a ^ m, ..regs }, regs.a ^ m),
        Operation1::ADC => with_sum(regs, adc_model(regs.a, m, regs.c)),
        Operation1::LDA => with_zn(Registers { a: m, ..regs }, m),
        Operation1::CMP => with_comparison(regs, regs.a, m),
        Operation1::SBC => with_sum(regs, sbc_model(regs.a, m, regs.c)),
        _ => regs,
    }
}

/// The byte that a read-modify-write operation of family 2 leaves, given the
/// byte `m` it read and the carry flag; `m` itself for the other operations.
pub open spec fn modified_value(op: Operation2, m: Byte, carry: bool) -> Byte {
    match op {
        Operation2::ASL => shift_left_model(m, carry, false).value,
        Operation2::ROL => shift_left_model(m, carry, true).value,
        Operation2::LSR => shift_right_model(m, carry, false).value,
        Operation2::ROR => shift_right_model(m, carry, true).value,
        Operation2::DEC => decrement_model(m),
        Operation2::INC => increment_model(m),
        _ => m,
    }
}

/// The carry flag after a read-modify-write operation of family 2 on `m`:
/// the bit shifted out by a shift or rotate, else the carry as it was.
pub open spec fn modified_carry(op: Operation2, m: Byte, carry: bool) -> bool {
    match op {
        Operation2::ASL => shift_left_model(m, carry, false).carry,
        Operation2::ROL => shift_left_model(m, carry, true).carry,
        Operation2::LSR => shift_right_model(m, carry, false).carry,
        Operation2::ROR => shift_right_model(m, carry, true).carry,
        _ => carry,
    }
}

/// The registers after a read-modify-write operation of family 2 that read
/// `m`: Z and N from the result, C as `modified_carry` says. The other
/// operations leave the registers alone.
pub open spec fn modified_flags(op: Operation2, regs: Registers, m: Byte) -> Registers {
    if op.modifies() {
        with_zn(
            Registers { c: modified_carry(op, m, regs.c), ..regs },
            modified_value(op, m, regs.c),
        )
    } else {
        regs
    }
}

impl Registers {
    /// Sets C, Z and N from comparing `register` with `m`.
    pub fn set_comparison(&mut self, register: Byte, m: Byte)
        ensures
            *final(self) == with_comparison(*old(self), register, m),
    {
        let flags = compare(register, m);
        self.c = flags.carry;
        self.z = flags.zero;
        self.n = flags.negative;
    }

    /// Stores the result of an addition or subtraction and its flags.
    pub fn set_sum(&mut self, sum: Sum)
        ensures
            *final(self) == with_sum(*old(self), sum),
    {
        self.c = sum.carry;
        self.v = sum.overflow;
        self.a = sum.value;
        self.set_zn(sum.value);
    }

    /// Carries out a single-byte instruction that works on registers alone.
    pub fn apply_implied(&mut self, op: OperationImplied)
        ensures
            *final(self) == register_effect(op, *old(self)),
    {
        match op {
            OperationImplied::DEY => {
                self.y = self.y.wrapping_sub(1);
                self.set_zn(self.y);
            },
            OperationImplied::DEX => {
                self.x = self.x.wrapping_sub(1);
                self.set_zn(self.x);
            },
            OperationImplied::TAY => {
                self.y = self.a;
                self.set_zn(self.y);
            },
            OperationImplied::INY => {
                self.y = self.y.wrapping_add(1);
                self.set_zn(self.y);
            },
            OperationImplied::INX => {
                self.x = self.x.wrapping_add(1);
                self.set_zn(self.x);
            },
            OperationImplied::CLC => {
                self.c = false;
            },
            OperationImplied::SEC => {
                self.c = true;
            },
            OperationImplied::CLI => {
                self.i = false;
            },
            OperationImplied::SEI => {
                self.i = true;
            },
            OperationImplied::CLD => {
                self.d = false;
            },
            OperationImplied::SED => {
                self.d = true;
            },
            OperationImplied::TYA => {
                self.a = self.y;
                self.set_zn(self.a);
            },
            OperationImplied::CLV => {
                self.v = false;
            },
            OperationImplied::TXA => {
                self.a = self.x;
                self.set_zn(self.a);
            },
            OperationImplied::TXS => {
                self.sp = self.x;
            },
            OperationImplied::TAX => {
                self.x = self.a;
                self.set_zn(self.x);
            },
            OperationImplied::TSX => {
                self.x = self.sp;
                self.set_zn(self.x);
            },
            _ => {},
        }
    }

    /// Carries out an operation of family 0 other than a store on operand
    /// byte `operand`.
    pub fn apply_type0(&mut self, op: Operation0, operand: Byte)
        ensures
            *final(self) == type0_effect(op, *old(self), operand),
    {
        match op {
            Operation0::BIT => {
                proof {
                    lemma_byte_bits(operand);
                }
                self.z = (self.a & operand) == 0;
                self.v = (operand & 0x40) != 0;
                self.n = (operand & 0x80) != 0;
            },
            Operation0::LDY => {
                self.y = operand;
                self.set_zn(self.y);
            },
            Operation0::CPY => {
                self.set_comparison(self.y, operand);
            },
            Operation0::CPX => {
                self.set_comparison(self.x, operand);
            },
            _ => {},
        }
    }

    /// Carries out an operation of family 1 other than a store on operand
    /// byte `operand`.
    pub fn apply_type1(&mut self, op: Operation1, operand: Byte)
        ensures
            *final(self) == type1_effect(op, *old(self), operand),
    {
        match op {
            Operation1::ORA => {
                self.a |= operand;
                self.set_zn(self.a);
            },
            Operation1::AND => {
                self.a &= operand;
                self.set_zn(self.a);
            },
            Operation1::EOR => {
                self.a ^= operand;
                self.set_zn(self.a);
            },
            Operation1::ADC => {
                let sum = adc(self.a, operand, self.c);
                self.set_sum(sum);
            },
            Operation1::LDA => {
                self.a = operand;
                self.set_zn(self.a);
            },
            Operation1::SBC => {
                let diff = sbc(self.a, operand, self.c);
                self.set_sum(diff);
            },
            Operation1::CMP => {
                self.set_comparison(self.a, operand);
            },
            _ => {},
        }
    }

    /// Carries out a read-modify-write operation of family 2 on the byte
    /// `operand`, and returns the byte to store.
    pub fn apply_modify(&mut self, op: Operation2, operand: Byte) -> (value: Byte)
        ensures
            value == modified_value(op, operand, old(self).c),
            *final(self) == modified_flags(op, *old(self), operand),
    {
        match op {
            Operation2::ASL | Operation2::ROL => {
                let out = shift_left(operand, self.c, op == Operation2::ROL);
                self.c = out.carry;
                self.set_zn(out.value);
                out.value
            },
            Operation2::LSR | Operation2::ROR => {
                let out = shift_right(operand, self.c, op == Operation2::ROR);
                self.c = out.carry;
                self.set_zn(out.value);
                out.value
            },
            Operation2::DEC => {
                let tmp = operand.wrapping_sub(1);
                self.set_zn(tmp);
                tmp
            },
            Operation2::INC => {
                let tmp = operand.wrapping_add(1);
                self.set_zn(tmp);
                tmp
            },
            _ => operand,
        }
    }
}

} // verus!
