//! Addition, subtraction, comparison, increments and decrements.

use vstd::prelude::*;
use crate::backplane::Backplane;
use crate::bits;
use crate::cpu::CPU;
use crate::flags;
use crate::flags::{FLAG_CARRY, FLAG_DECIMAL, FLAG_OVERFLOW, FLAG_SIGN, FLAG_ZERO};

verus! {

impl CPU {
    /// `status` with Carry, Zero, Overflow and Sign describing `sum`, the
    /// binary sum of the accumulator `a`, the addend `addend` and a carry.
    pub open spec fn sum_flags(status: u8, sum: u16, a: u8, addend: u16) -> u8 {
        flags::put_flag(
            flags::put_flag(
                flags::put_flag(
                    flags::put_flag(status, FLAG_CARRY, sum > 0xFF),
                    FLAG_ZERO,
                    bits::low_byte(sum) == 0,
                ),
                FLAG_OVERFLOW,
                CPU::sign_overflowed(sum, a, addend),
            ),
            FLAG_SIGN,
            bits::low_byte(sum) >= 0x80,
        )
    }

    /// The packed decimal sum `a + b + carry`, digit by digit and not yet
    /// narrowed to a byte: a low digit above 9 is corrected by 6 and
    /// carries into the high digit, a high digit above 9 is corrected by 6
    /// in turn and carries out, which leaves the sum above `0xFF`.
    pub open spec fn decimal_sum(a: u8, b: u8, carry: int) -> int {
        let low = (a % 16) + (b % 16) + carry;
        let low_fixed = if low > 9 {
            ((low + 0x06) % 16) + 0x10
        } else {
            low
        };
        let all = (a / 16) * 16 + (b / 16) * 16 + low_fixed;
        if all >= 0xA0 {
            all + 0x60
        } else {
            all
        }
    }

    /// The packed decimal difference `a - b - (1 - carry)`, digit by digit:
    /// a low digit that borrows is corrected by 6 and borrows from the high
    /// digit, a high digit that borrows is corrected by 6 in turn.
    ///
    /// Opaque: `reveal` it to compute a difference.
    #[verifier::opaque]
    pub open spec fn decimal_difference(a: u8, b: u8, carry: int) -> u8 {
        let low = (a % 16) - (b % 16) + carry - 1;
        let low_fixed = if low < 0 {
            ((low - 0x06) % 16) - 0x10
        } else {
            low
        };
        let all = (a / 16) * 16 - (b / 16) * 16 + low_fixed;
        bits::wrap8(
            if all < 0 {
                all - 0x60
            } else {
                all
            },
        )
    }

    /// ADC. Carry, Zero, Overflow and Sign are set from the binary sum
    /// `a + operand + carry`. In binary mode the accumulator receives the
    /// low byte of that sum. In decimal mode it receives the low byte of
    /// the packed decimal sum, Carry tells whether that sum carried out of
    /// its high digit, and one more cycle is charged.
    pub open spec fn spec_inst_adc<T: Backplane>(self, m: T::Model) -> (CPU, T::Model) {
        let v = self.operand::<T>(m);
        let carry = flags::carry_of(self.status);
        let sum = self.a + v + carry;
        let status = CPU::sum_flags(self.status, sum as u16, self.a, v as u16);
        if flags::flag_on(self.status, FLAG_DECIMAL) {
            let decimal = CPU::decimal_sum(self.a, v, carry);
            (
                CPU {
                    a: bits::wrap8(decimal),
                    status: flags::put_flag(status, FLAG_CARRY, decimal > 0xFF),
                    value: v as u16,
                    penaltyop: true,
                    clockticks: (self.clockticks + 1) as u32,
                    ..self
                },
                m,
            )
        } else {
            (CPU { a: bits::wrap8(sum), status, value: v as u16, penaltyop: true, ..self }, m)
        }
    }

    /// SBC. The operand is complemented and added like in ADC, so that
    /// Carry means "no borrow"; the four flags describe that binary sum in
    /// both modes. In binary mode the accumulator receives its low byte. In
    /// decimal mode it receives the packed decimal difference, and one more
    /// cycle is charged.
    pub open spec fn spec_inst_sbc<T: Backplane>(self, m: T::Model) -> (CPU, T::Model) {
        let v = self.operand::<T>(m);
        let carry = flags::carry_of(self.status);
        let flipped = (255 - v) as u16;
        let sum = self.a + flipped + carry;
        let status = CPU::sum_flags(self.status, sum as u16, self.a, flipped);
        if flags::flag_on(self.status, FLAG_DECIMAL) {
            (
                CPU {
                    a: CPU::decimal_difference(self.a, v, carry),
                    status,
                    value: flipped,
                    penaltyop: true,
                    clockticks: (self.clockticks + 1) as u32,
                    ..self
                },
                m,
            )
        } else {
            (CPU { a: bits::wrap8(sum), status, value: flipped, penaltyop: true, ..self }, m)
        }
    }

    /// `status` after `register` was compared with `operand`: Carry when
    /// the register is not smaller, Zero when both are equal, Sign from bit
    /// 7 of the difference.
    pub open spec fn compared(status: u8, register: u8, operand: u8) -> u8 {
        flags::put_flag(
            flags::put_flag(
                flags::put_flag(status, FLAG_CARRY, register >= operand),
                FLAG_ZERO,
                register == operand,
            ),
            FLAG_SIGN,
            bits::wrap8(register - operand) >= 0x80,
        )
    }

    /// The processor after `register` was compared with `operand`.
    pub open spec fn compared_with(self, register: u8, operand: u8) -> CPU {
        CPU {
            status: CPU::compared(self.status, register, operand),
            value: bits::wide(operand),
            ..self
        }
    }

    /// The processor and the host after CMP.
    pub open spec fn spec_inst_cmp<T: Backplane>(self, m: T::Model) -> (CPU, T::Model) {
        (CPU { penaltyop: true, ..self.compared_with(self.a, self.operand::<T>(m)) }, m)
    }

    /// The processor and the host after CPX.
    pub open spec fn spec_inst_cpx<T: Backplane>(self, m: T::Model) -> (CPU, T::Model) {
        (self.compared_with(self.x, self.operand::<T>(m)), m)
    }

    /// The processor and the host after CPY.
    pub open spec fn spec_inst_cpy<T: Backplane>(self, m: T::Model) -> (CPU, T::Model) {
        (self.compared_with(self.y, self.operand::<T>(m)), m)
    }

    /// The processor and the host after the operand was replaced by
    /// `result`, one more or one less than it was.
    pub open spec fn stepped<T: Backplane>(self, m: T::Model, result: u8) -> (CPU, T::Model) {
        CPU {
            status: flags::put_zero_sign(self.status, result),
            value: bits::wide(self.operand::<T>(m)),
            ..self
        }.spec_putvalue::<T>(m, result)
    }

    /// The processor and the host after DEC.
    pub open spec fn spec_inst_dec<T: Backplane>(self, m: T::Model) -> (CPU, T::Model) {
        self.stepped::<T>(m, bits::wrap8(self.operand::<T>(m) - 1))
    }

    /// The processor and the host after INC.
    pub open spec fn spec_inst_inc<T: Backplane>(self, m: T::Model) -> (CPU, T::Model) {
        self.stepped::<T>(m, bits::wrap8(self.operand::<T>(m) + 1))
    }

    /// The processor with `x` in X, and Zero and Sign describing it.
    pub open spec fn with_x(self, x: u8) -> CPU {
        CPU { x, status: flags::put_zero_sign(self.status, x), ..self }
    }

    /// The processor with `y` in Y, and Zero and Sign describing it.
    pub open spec fn with_y(self, y: u8) -> CPU {
        CPU { y, status: flags::put_zero_sign(self.status, y), ..self }
    }

    /// The processor with `a` in the accumulator, and Zero and Sign
    /// describing it.
    pub open spec fn with_a(self, a: u8) -> CPU {
        CPU { a, status: flags::put_zero_sign(self.status, a), ..self }
    }

    fn add_decimal(a: u8, b: u8, carry: u16) -> (sum: u16)
        requires
            carry <= 1,
        ensures
            sum == CPU::decimal_sum(a, b, carry as int),
    {
        let wide_a: u16 = bits::widen(a);
        let wide_b: u16 = bits::widen(b);
        proof {
            bits::lemma_nibbles(wide_a);
            bits::lemma_nibbles(wide_b);
        }
        let mut low: u16 = (wide_a & 0x000F) + (wide_b & 0x000F) + carry;
        if low > 0x09 {
            proof {
                bits::lemma_nibbles((low + 0x06) as u16);
            }
            low = ((low + 0x06) & 0x000F) + 0x10;
        }
        let mut all: u16 = (wide_a & 0x00F0) + (wide_b & 0x00F0) + low;
        if all >= 0xA0 {
            all += 0x60;
        }
        all
    }

    fn subtract_decimal(a: u8, b: u8, carry: u16) -> (difference: u8)
        requires
            carry <= 1,
        ensures
            difference == CPU::decimal_difference(a, b, carry as int),
    {
        let wide_a: u16 = bits::widen(a);
        let wide_b: u16 = bits::widen(b);
        proof {
            bits::lemma_nibbles(wide_a);
            bits::lemma_nibbles(wide_b);
        }
        // Both digits are kept non-negative: `low` is the low digit's
        // difference plus 16, `all` the whole difference plus 256.
        let low: u16 = (wide_a & 0x000F) + 15 + carry - (wide_b & 0x000F);
        let low_fixed: u16 = if low < 16 {
            (low + 10) % 16
        } else {
            low
        };
        let all: u16 = 240 + (wide_a & 0x00F0) + low_fixed - (wide_b & 0x00F0);
        let fixed: u16 = if all < 256 {
            (all + 160) % 256
        } else {
            all - 256
        };
        proof {
            reveal(CPU::decimal_difference);
            vstd::arithmetic::div_mod::lemma_mod_multiples_vanish(-2, low + 10, 16);
            vstd::arithmetic::div_mod::lemma_mod_multiples_vanish(-2, all + 160, 256);
            assert(16 * (-2) + (low + 10) == low - 16 - 6);
            assert(256 * (-2) + (all + 160) == all - 256 - 0x60);
        }
        bits::lo8(fixed)
    }

    /// Adds `addend` and Carry to the accumulator in binary and sets Carry,
    /// Zero, Overflow and Sign from the sum, which it returns. The
    /// accumulator is left for the caller to update.
    fn add_binary(&mut self, addend: u16) -> (sum: u16)
        requires
            addend < 0x100,
        ensures
            sum == old(self).a + addend + flags::carry_of(old(self).status),
            *final(self) == (CPU {
                status: CPU::sum_flags(old(self).status, sum, old(self).a, addend),
                ..*old(self)
            }),
    {
        let sum: u16 = bits::widen(self.a) + addend + self.carry();
        self.flagcalc_carry(sum);
        self.flagcalc_zero(sum);
        self.flagcalc_overflow(sum, self.a, addend);
        self.flagcalc_sign(sum);
        sum
    }

    fn compare_with(&mut self, register: u8)
        requires
            old(self).value < 0x100,
        ensures
            *final(self) == old(self).compared_with(register, bits::low_byte(old(self).value)),
    {
        let result: u16 = bits::widen(register).wrapping_sub(self.value);
        let operand: u8 = bits::lo8(self.value);
        if register >= operand {
            self.flagset(FLAG_CARRY);
        } else {
            self.flagclear(FLAG_CARRY);
        }
        if register == operand {
            self.flagset(FLAG_ZERO);
        } else {
            self.flagclear(FLAG_ZERO);
        }
        self.flagcalc_sign(result);
    }

    /// ADC: add the operand and Carry to the accumulator. In decimal mode
    /// the operands are added as two decimal digits each, Carry is the
    /// decimal carry, and one more cycle is charged; Zero, Overflow and
    /// Sign are those of the binary addition in both modes.
    pub fn inst_adc<T: Backplane>(&mut self, mem: &mut T)
        requires
            flags::flag_on(old(self).status, FLAG_DECIMAL) ==> old(self).clockticks < u32::MAX,
        ensures
            (*final(self), final(mem)@) == old(self).spec_inst_adc::<T>(old(mem)@),
    {
        self.penaltyop = true;
        self.value = self.getvalue(mem);
        let decimal: bool = self.flag(FLAG_DECIMAL);
        let carry: u16 = self.carry();
        let augend: u8 = self.a;
        let mut result: u16 = self.add_binary(self.value);
        if decimal {
            result = CPU::add_decimal(augend, bits::lo8(self.value), carry);
            self.flagcalc_carry(result);
            self.clockticks += 1;
        }
        self.save_accumulator(result);
    }

    /// SBC: subtract the operand and the borrow, the complement of Carry,
    /// from the accumulator. In decimal mode the difference is formed digit
    /// by digit and one more cycle is charged; the flags are those of the
    /// binary subtraction in both modes.
    pub fn inst_sbc<T: Backplane>(&mut self, mem: &mut T)
        requires
            flags::flag_on(old(self).status, FLAG_DECIMAL) ==> old(self).clockticks < u32::MAX,
        ensures
            (*final(self), final(mem)@) == old(self).spec_inst_sbc::<T>(old(mem)@),
    {
        self.penaltyop = true;
        let operand: u16 = self.getvalue(mem);
        proof {
            bits::lemma_complement(operand);
        }
        self.value = operand ^ 0x00FF;
        let decimal: bool = self.flag(FLAG_DECIMAL);
        let carry: u16 = self.carry();
        let minuend: u8 = self.a;
        let result: u16 = self.add_binary(self.value);
        if decimal {
            self.a = CPU::subtract_decimal(minuend, bits::lo8(operand), carry);
            self.clockticks += 1;
        } else {
            self.save_accumulator(result);
        }
    }

    /// CMP: compare the accumulator with the operand. Carry is set when the
    /// accumulator is not smaller, Zero when both are equal; Sign is bit 7
    /// of the difference.
    pub fn inst_cmp<T: Backplane>(&mut self, mem: &mut T)
        ensures
            (*final(self), final(mem)@) == old(self).spec_inst_cmp::<T>(old(mem)@),
    {
        self.penaltyop = true;
        self.value = self.getvalue(mem);
        self.compare_with(self.a);
    }

    /// CPX: compare X with the operand, like CMP does the accumulator.
    pub fn inst_cpx<T: Backplane>(&mut self, mem: &mut T)
        ensures
            (*final(self), final(mem)@) == old(self).spec_inst_cpx::<T>(old(mem)@),
    {
        self.value = self.getvalue(mem);
        self.compare_with(self.x);
    }

    /// CPY: compare Y with the operand, like CMP does the accumulator.
    pub fn inst_cpy<T: Backplane>(&mut self, mem: &mut T)
        ensures
            (*final(self), final(mem)@) == old(self).spec_inst_cpy::<T>(old(mem)@),
    {
        self.value = self.getvalue(mem);
        self.compare_with(self.y);
    }

    /// DEC: the operand less one, wrapping from `0x00` to `0xFF`; Zero and
    /// Sign describe the result.
    pub fn inst_dec<T: Backplane>(&mut self, mem: &mut T)
        ensures
            (*final(self), final(mem)@) == old(self).spec_inst_dec::<T>(old(mem)@),
    {
        self.value = self.getvalue(mem);
        let result: u16 = self.value.wrapping_sub(1);
        self.flagcalc_zero(result);
        self.flagcalc_sign(result);
        self.putvalue(mem, result);
    }

    /// DEX: X less one, wrapping; Zero and Sign describe the result.
    pub fn inst_dex<T: Backplane>(&mut self, _mem: &mut T)
        ensures
            *final(self) == old(self).with_x(bits::wrap8(old(self).x - 1)),
            final(_mem)@ == old(_mem)@,
    {
        self.x = self.x.wrapping_sub(1);
        let x: u16 = bits::widen(self.x);
        self.flagcalc_zero(x);
        self.flagcalc_sign(x);
    }

    /// DEY: Y less one, wrapping; Zero and Sign describe the result.
    pub fn inst_dey<T: Backplane>(&mut self, _mem: &mut T)
        ensures
            *final(self) == old(self).with_y(bits::wrap8(old(self).y - 1)),
            final(_mem)@ == old(_mem)@,
    {
        self.y = self.y.wrapping_sub(1);
        let y: u16 = bits::widen(self.y);
        self.flagcalc_zero(y);
        self.flagcalc_sign(y);
    }

    /// INC: the operand plus one, wrapping from `0xFF` to `0x00`; Zero and
    /// Sign describe the result.
    pub fn inst_inc<T: Backplane>(&mut self, mem: &mut T)
        ensures
            (*final(self), final(mem)@) == old(self).spec_inst_inc::<T>(old(mem)@),
    {
        self.value = self.getvalue(mem);
        let result: u16 = self.value.wrapping_add(1);
        self.flagcalc_zero(result);
        self.flagcalc_sign(result);
        self.putvalue(mem, result);
    }

    /// INX: X plus one, wrapping; Zero and Sign describe the result.
    pub fn inst_inx<T: Backplane>(&mut self, _mem: &mut T)
        ensures
            *final(self) == old(self).with_x(bits::wrap8(old(self).x + 1)),
            final(_mem)@ == old(_mem)@,
    {
        self.x = self.x.wrapping_add(1);
        let x: u16 = bits::widen(self.x);
        self.flagcalc_zero(x);
        self.flagcalc_sign(x);
    }

    /// INY: Y plus one, wrapping; Zero and Sign describe the result.
    pub fn inst_iny<T: Backplane>(&mut self, _mem: &mut T)
        ensures
            *final(self) == old(self).with_y(bits::wrap8(old(self).y + 1)),
            final(_mem)@ == old(_mem)@,
    {
        self.y = self.y.wrapping_add(1);
        let y: u16 = bits::widen(self.y);
        self.flagcalc_zero(y);
        self.flagcalc_sign(y);
    }
}

} // verus!
