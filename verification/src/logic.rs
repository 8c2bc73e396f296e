//! The logical instructions, the bit test, and the shifts and rotations.

use vstd::prelude::*;
use crate::backplane::Backplane;
use crate::bits;
use crate::cpu::CPU;
use crate::flags;
use crate::flags::{FLAG_CARRY, FLAG_ZERO};

verus! {

impl CPU {
    /// The processor after an instruction that read `operand`, may pay for
    /// a page crossing, and left `result` in the accumulator.
    pub open spec fn accumulated(self, operand: u8, result: u8) -> CPU {
        CPU {
            a: result,
            status: flags::put_zero_sign(self.status, result),
            value: operand as u16,
            penaltyop: true,
            ..self
        }
    }

    /// The processor and the host after a shift or rotation that read
    /// `operand`, stored `result` in its place and moved `carry` out.
    pub open spec fn shifted<T: Backplane>(
        self,
        m: T::Model,
        operand: u8,
        result: u8,
        carry: bool,
    ) -> (CPU, T::Model) {
        CPU {
            status: flags::put_zero_sign(flags::put_flag(self.status, FLAG_CARRY, carry), result),
            value: operand as u16,
            ..self
        }.spec_putvalue::<T>(m, result)
    }

    /// The processor and the host after AND.
    pub open spec fn spec_inst_and<T: Backplane>(self, m: T::Model) -> (CPU, T::Model) {
        let v = self.operand::<T>(m);
        (self.accumulated(v, self.a & v), m)
    }

    /// The processor and the host after ORA.
    pub open spec fn spec_inst_ora<T: Backplane>(self, m: T::Model) -> (CPU, T::Model) {
        let v = self.operand::<T>(m);
        (self.accumulated(v, self.a | v), m)
    }

    /// The processor and the host after EOR.
    pub open spec fn spec_inst_eor<T: Backplane>(self, m: T::Model) -> (CPU, T::Model) {
        let v = self.operand::<T>(m);
        (self.accumulated(v, self.a ^ v), m)
    }

    /// The processor and the host after BIT.
    pub open spec fn spec_inst_bit<T: Backplane>(self, m: T::Model) -> (CPU, T::Model) {
        let v = self.operand::<T>(m);
        (
            CPU {
                status: flags::put_flag(
                    flags::put_flag(
                        flags::put_flag(self.status, FLAG_ZERO, self.a & v == 0),
                        flags::FLAG_SIGN,
                        v >= 0x80,
                    ),
                    flags::FLAG_OVERFLOW,
                    flags::flag_on(v, flags::FLAG_OVERFLOW),
                ),
                value: v as u16,
                ..self
            },
            m,
        )
    }

    /// The processor and the host after ASL.
    pub open spec fn spec_inst_asl<T: Backplane>(self, m: T::Model) -> (CPU, T::Model) {
        let v = self.operand::<T>(m);
        self.shifted::<T>(m, v, bits::wrap8(2 * v), v >= 0x80)
    }

    /// The processor and the host after LSR.
    pub open spec fn spec_inst_lsr<T: Backplane>(self, m: T::Model) -> (CPU, T::Model) {
        let v = self.operand::<T>(m);
        self.shifted::<T>(m, v, v / 2, v % 2 == 1)
    }

    /// The processor and the host after ROL.
    pub open spec fn spec_inst_rol<T: Backplane>(self, m: T::Model) -> (CPU, T::Model) {
        let v = self.operand::<T>(m);
        self.shifted::<T>(m, v, bits::wrap8(2 * v + flags::carry_of(self.status)), v >= 0x80)
    }

    /// The processor and the host after ROR.
    pub open spec fn spec_inst_ror<T: Backplane>(self, m: T::Model) -> (CPU, T::Model) {
        let v = self.operand::<T>(m);
        self.shifted::<T>(m, v, (v / 2 + 128 * flags::carry_of(self.status)) as u8, v % 2 == 1)
    }

    /// The Carry flag as the number 0 or 1.
    pub(crate) fn carry(&self) -> (carry: u16)
        ensures
            carry == flags::carry_of(self.status),
    {
        let bit: u8 = self.status & FLAG_CARRY;
        proof {
            let status = self.status;
            flags::lemma_flag_masks(status, FLAG_CARRY);
            assert(status & 0x01 == 0 || status & 0x01 == 1) by (bit_vector);
        }
        bits::widen(bit)
    }

    /// AND: the accumulator and the operand, bit by bit, into the
    /// accumulator; Zero and Sign describe the result.
    pub fn inst_and<T: Backplane>(&mut self, mem: &mut T)
        ensures
            (*final(self), final(mem)@) == old(self).spec_inst_and::<T>(old(mem)@),
    {
        self.penaltyop = true;
        self.value = self.getvalue(mem);
        let result: u16 = bits::widen(self.a) & self.value;
        proof {
            bits::lemma_logic_width(self.a, old(self).operand::<T>(mem@));
        }
        self.flagcalc_zero(result);
        self.flagcalc_sign(result);
        self.save_accumulator(result);
    }

    /// ORA: the accumulator or the operand, bit by bit, into the
    /// accumulator; Zero and Sign describe the result.
    pub fn inst_ora<T: Backplane>(&mut self, mem: &mut T)
        ensures
            (*final(self), final(mem)@) == old(self).spec_inst_ora::<T>(old(mem)@),
    {
        self.penaltyop = true;
        self.value = self.getvalue(mem);
        let result: u16 = bits::widen(self.a) | self.value;
        proof {
            bits::lemma_logic_width(self.a, old(self).operand::<T>(mem@));
        }
        self.flagcalc_zero(result);
        self.flagcalc_sign(result);
        self.save_accumulator(result);
    }

    /// EOR: the accumulator exclusive-or the operand, bit by bit, into the
    /// accumulator; Zero and Sign describe the result.
    pub fn inst_eor<T: Backplane>(&mut self, mem: &mut T)
        ensures
            (*final(self), final(mem)@) == old(self).spec_inst_eor::<T>(old(mem)@),
    {
        self.penaltyop = true;
        self.value = self.getvalue(mem);
        let result: u16 = bits::widen(self.a) ^ self.value;
        proof {
            bits::lemma_logic_width(self.a, old(self).operand::<T>(mem@));
        }
        self.flagcalc_zero(result);
        self.flagcalc_sign(result);
        self.save_accumulator(result);
    }

    /// BIT: Zero tells whether the accumulator and the operand share no
    /// bit; bits 7 and 6 of the operand go to Sign and Overflow. The
    /// accumulator stays.
    pub fn inst_bit<T: Backplane>(&mut self, mem: &mut T)
        ensures
            (*final(self), final(mem)@) == old(self).spec_inst_bit::<T>(old(mem)@),
    {
        self.value = self.getvalue(mem);
        let result: u16 = bits::widen(self.a) & self.value;
        let top: u8 = bits::lo8(self.value & 0x00C0);
        proof {
            let v = old(self).operand::<T>(mem@);
            bits::lemma_logic_width(self.a, v);
            bits::lemma_logic_width(v, 0xC0);
            flags::lemma_top_bits(
                flags::put_flag(old(self).status, FLAG_ZERO, self.a & v == 0),
                v,
            );
        }
        self.flagcalc_zero(result);
        self.status = (self.status & 0x3F) | top;
    }

    /// ASL: the operand shifted left by one. Bit 7 goes to Carry, bit 0
    /// becomes zero.
    pub fn inst_asl<T: Backplane>(&mut self, mem: &mut T)
        ensures
            (*final(self), final(mem)@) == old(self).spec_inst_asl::<T>(old(mem)@),
    {
        self.value = self.getvalue(mem);
        let result: u16 = self.value << 1;
        proof {
            bits::lemma_shift_left(self.value, 0);
        }
        self.flagcalc_carry(result);
        self.flagcalc_zero(result);
        self.flagcalc_sign(result);
        self.putvalue(mem, result);
    }

    /// LSR: the operand shifted right by one. Bit 0 goes to Carry, bit 7
    /// becomes zero.
    pub fn inst_lsr<T: Backplane>(&mut self, mem: &mut T)
        ensures
            (*final(self), final(mem)@) == old(self).spec_inst_lsr::<T>(old(mem)@),
    {
        self.value = self.getvalue(mem);
        let result: u16 = self.value >> 1;
        proof {
            bits::lemma_shift_right(self.value, 0);
        }
        if (self.value & 1) != 0 {
            self.flagset(FLAG_CARRY);
        } else {
            self.flagclear(FLAG_CARRY);
        }
        self.flagcalc_zero(result);
        self.flagcalc_sign(result);
        self.putvalue(mem, result);
    }

    /// ROL: the operand rotated left by one through Carry. Bit 7 goes to
    /// Carry, the old Carry becomes bit 0.
    pub fn inst_rol<T: Backplane>(&mut self, mem: &mut T)
        ensures
            (*final(self), final(mem)@) == old(self).spec_inst_rol::<T>(old(mem)@),
    {
        self.value = self.getvalue(mem);
        let carry: u16 = self.carry();
        let result: u16 = (self.value << 1) | carry;
        proof {
            bits::lemma_shift_left(self.value, carry);
        }
        self.flagcalc_carry(result);
        self.flagcalc_zero(result);
        self.flagcalc_sign(result);
        self.putvalue(mem, result);
    }

    /// ROR: the operand rotated right by one through Carry. Bit 0 goes to
    /// Carry, the old Carry becomes bit 7.
    pub fn inst_ror<T: Backplane>(&mut self, mem: &mut T)
        ensures
            (*final(self), final(mem)@) == old(self).spec_inst_ror::<T>(old(mem)@),
    {
        self.value = self.getvalue(mem);
        let carry: u16 = self.carry();
        let result: u16 = (self.value >> 1) | (carry << 7);
        proof {
            bits::lemma_shift_right(self.value, carry);
        }
        if (self.value & 1) != 0 {
            self.flagset(FLAG_CARRY);
        } else {
            self.flagclear(FLAG_CARRY);
        }
        self.flagcalc_zero(result);
        self.flagcalc_sign(result);
        self.putvalue(mem, result);
    }
}

} // verus!
