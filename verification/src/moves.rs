//! Loads, stores, register transfers, stack instructions and the
//! instructions that set or clear one flag.

use vstd::prelude::*;
use crate::backplane::Backplane;
use crate::bits;
use crate::cpu::CPU;
use crate::flags;
use crate::flags::{
    FLAG_BREAK, FLAG_CARRY, FLAG_CONSTANT, FLAG_DECIMAL, FLAG_INTERRUPT, FLAG_OVERFLOW,
};

verus! {

impl CPU {
    /// The processor after a load found `operand`: it may pay for a page
    /// crossing, and `value` remembers the operand.
    pub open spec fn loading(self, operand: u8) -> CPU {
        CPU { value: bits::wide(operand), penaltyop: true, ..self }
    }

    /// The processor and the host after LDA.
    pub open spec fn spec_inst_lda<T: Backplane>(self, m: T::Model) -> (CPU, T::Model) {
        let v = self.operand::<T>(m);
        (self.loading(v).with_a(v), m)
    }

    /// The processor and the host after LDX.
    pub open spec fn spec_inst_ldx<T: Backplane>(self, m: T::Model) -> (CPU, T::Model) {
        let v = self.operand::<T>(m);
        (self.loading(v).with_x(v), m)
    }

    /// The processor and the host after LDY.
    pub open spec fn spec_inst_ldy<T: Backplane>(self, m: T::Model) -> (CPU, T::Model) {
        let v = self.operand::<T>(m);
        (self.loading(v).with_y(v), m)
    }

    /// The processor and the host after PLA.
    pub open spec fn spec_inst_pla<T: Backplane>(self, m: T::Model) -> (CPU, T::Model) {
        let (c, v) = self.spec_pull8::<T>(m);
        (c.with_a(v), m)
    }

    /// The processor and the host after PLP.
    pub open spec fn spec_inst_plp<T: Backplane>(self, m: T::Model) -> (CPU, T::Model) {
        let (c, v) = self.spec_pull8::<T>(m);
        (CPU { status: flags::put_flag(v, FLAG_CONSTANT, true), ..c }, m)
    }

    /// The processor with `flag` set or cleared and nothing else changed.
    pub open spec fn with_flag(self, flag: u8, on: bool) -> CPU {
        CPU { status: flags::put_flag(self.status, flag, on), ..self }
    }

    /// LDA: the operand into the accumulator; Zero and Sign describe it.
    pub fn inst_lda<T: Backplane>(&mut self, mem: &mut T)
        ensures
            (*final(self), final(mem)@) == old(self).spec_inst_lda::<T>(old(mem)@),
    {
        self.penaltyop = true;
        self.value = self.getvalue(mem);
        self.a = bits::lo8(self.value);
        let a: u16 = bits::widen(self.a);
        self.flagcalc_zero(a);
        self.flagcalc_sign(a);
    }

    /// LDX: the operand into X; Zero and Sign describe it.
    pub fn inst_ldx<T: Backplane>(&mut self, mem: &mut T)
        ensures
            (*final(self), final(mem)@) == old(self).spec_inst_ldx::<T>(old(mem)@),
    {
        self.penaltyop = true;
        self.value = self.getvalue(mem);
        self.x = bits::lo8(self.value);
        let x: u16 = bits::widen(self.x);
        self.flagcalc_zero(x);
        self.flagcalc_sign(x);
    }

    /// LDY: the operand into Y; Zero and Sign describe it.
    pub fn inst_ldy<T: Backplane>(&mut self, mem: &mut T)
        ensures
            (*final(self), final(mem)@) == old(self).spec_inst_ldy::<T>(old(mem)@),
    {
        self.penaltyop = true;
        self.value = self.getvalue(mem);
        self.y = bits::lo8(self.value);
        let y: u16 = bits::widen(self.y);
        self.flagcalc_zero(y);
        self.flagcalc_sign(y);
    }

    /// STA: the accumulator to the effective address. No flag changes.
    pub fn inst_sta<T: Backplane>(&mut self, mem: &mut T)
        ensures
            (*final(self), final(mem)@) == old(self).spec_putvalue::<T>(old(mem)@, old(self).a),
    {
        let a: u16 = bits::widen(self.a);
        self.putvalue(mem, a);
    }

    /// STX: X to the effective address. No flag changes.
    pub fn inst_stx<T: Backplane>(&mut self, mem: &mut T)
        ensures
            (*final(self), final(mem)@) == old(self).spec_putvalue::<T>(old(mem)@, old(self).x),
    {
        let x: u16 = bits::widen(self.x);
        self.putvalue(mem, x);
    }

    /// STY: Y to the effective address. No flag changes.
    pub fn inst_sty<T: Backplane>(&mut self, mem: &mut T)
        ensures
            (*final(self), final(mem)@) == old(self).spec_putvalue::<T>(old(mem)@, old(self).y),
    {
        let y: u16 = bits::widen(self.y);
        self.putvalue(mem, y);
    }

    /// TAX: the accumulator into X; Zero and Sign describe it.
    pub fn inst_tax<T: Backplane>(&mut self, _mem: &mut T)
        ensures
            *final(self) == old(self).with_x(old(self).a),
            final(_mem)@ == old(_mem)@,
    {
        self.x = self.a;
        let x: u16 = bits::widen(self.x);
        self.flagcalc_zero(x);
        self.flagcalc_sign(x);
    }

    /// TAY: the accumulator into Y; Zero and Sign describe it.
    pub fn inst_tay<T: Backplane>(&mut self, _mem: &mut T)
        ensures
            *final(self) == old(self).with_y(old(self).a),
            final(_mem)@ == old(_mem)@,
    {
        self.y = self.a;
        let y: u16 = bits::widen(self.y);
        self.flagcalc_zero(y);
        self.flagcalc_sign(y);
    }

    /// TSX: the stack pointer into X; Zero and Sign describe it.
    pub fn inst_tsx<T: Backplane>(&mut self, _mem: &mut T)
        ensures
            *final(self) == old(self).with_x(old(self).sp),
            final(_mem)@ == old(_mem)@,
    {
        self.x = self.sp;
        let x: u16 = bits::widen(self.x);
        self.flagcalc_zero(x);
        self.flagcalc_sign(x);
    }

    /// TXA: X into the accumulator; Zero and Sign describe it.
    pub fn inst_txa<T: Backplane>(&mut self, _mem: &mut T)
        ensures
            *final(self) == old(self).with_a(old(self).x),
            final(_mem)@ == old(_mem)@,
    {
        self.a = self.x;
        let a: u16 = bits::widen(self.a);
        self.flagcalc_zero(a);
        self.flagcalc_sign(a);
    }

    /// TXS: X into the stack pointer. No flag changes.
    pub fn inst_txs<T: Backplane>(&mut self, _mem: &mut T)
        ensures
            *final(self) == (CPU { sp: old(self).x, ..*old(self) }),
            final(_mem)@ == old(_mem)@,
    {
        self.sp = self.x;
    }

    /// TYA: Y into the accumulator; Zero and Sign describe it.
    pub fn inst_tya<T: Backplane>(&mut self, _mem: &mut T)
        ensures
            *final(self) == old(self).with_a(old(self).y),
            final(_mem)@ == old(_mem)@,
    {
        self.a = self.y;
        let a: u16 = bits::widen(self.a);
        self.flagcalc_zero(a);
        self.flagcalc_sign(a);
    }

    /// PHA: push the accumulator.
    pub fn inst_pha<T: Backplane>(&mut self, mem: &mut T)
        ensures
            (*final(self), final(mem)@) == old(self).spec_push8::<T>(old(mem)@, old(self).a),
    {
        let a: u8 = self.a;
        self.push8(mem, a);
    }

    /// PHP: push the status with Break set in the pushed copy.
    pub fn inst_php<T: Backplane>(&mut self, mem: &mut T)
        ensures
            (*final(self), final(mem)@) == old(self).spec_push8::<T>(
                old(mem)@,
                flags::put_flag(old(self).status, FLAG_BREAK, true),
            ),
    {
        proof {
            flags::lemma_flag_masks(self.status, FLAG_BREAK);
        }
        let status: u8 = self.status | FLAG_BREAK;
        self.push8(mem, status);
    }

    /// PLA: pull the accumulator; Zero and Sign describe it.
    pub fn inst_pla<T: Backplane>(&mut self, mem: &mut T)
        ensures
            (*final(self), final(mem)@) == old(self).spec_inst_pla::<T>(old(mem)@),
    {
        self.a = self.pull8(mem);
        let a: u16 = bits::widen(self.a);
        self.flagcalc_zero(a);
        self.flagcalc_sign(a);
    }

    /// PLP: pull the status; Constant is set whatever was pulled.
    pub fn inst_plp<T: Backplane>(&mut self, mem: &mut T)
        ensures
            (*final(self), final(mem)@) == old(self).spec_inst_plp::<T>(old(mem)@),
    {
        let pulled: u8 = self.pull8(mem);
        proof {
            flags::lemma_flag_masks(pulled, FLAG_CONSTANT);
        }
        self.status = pulled | FLAG_CONSTANT;
    }

    /// CLC: clear Carry.
    pub fn inst_clc<T: Backplane>(&mut self, _mem: &mut T)
        ensures
            *final(self) == old(self).with_flag(FLAG_CARRY, false),
            final(_mem)@ == old(_mem)@,
    {
        self.flagclear(FLAG_CARRY);
    }

    /// CLD: leave decimal mode.
    pub fn inst_cld<T: Backplane>(&mut self, _mem: &mut T)
        ensures
            *final(self) == old(self).with_flag(FLAG_DECIMAL, false),
            final(_mem)@ == old(_mem)@,
    {
        self.flagclear(FLAG_DECIMAL);
    }

    /// CLI: allow maskable interrupts.
    pub fn inst_cli<T: Backplane>(&mut self, _mem: &mut T)
        ensures
            *final(self) == old(self).with_flag(FLAG_INTERRUPT, false),
            final(_mem)@ == old(_mem)@,
    {
        self.flagclear(FLAG_INTERRUPT);
    }

    /// CLV: clear Overflow.
    pub fn inst_clv<T: Backplane>(&mut self, _mem: &mut T)
        ensures
            *final(self) == old(self).with_flag(FLAG_OVERFLOW, false),
            final(_mem)@ == old(_mem)@,
    {
        self.flagclear(FLAG_OVERFLOW);
    }

    /// SEC: set Carry.
    pub fn inst_sec<T: Backplane>(&mut self, _mem: &mut T)
        ensures
            *final(self) == old(self).with_flag(FLAG_CARRY, true),
            final(_mem)@ == old(_mem)@,
    {
        self.flagset(FLAG_CARRY);
    }

    /// SED: enter decimal mode.
    pub fn inst_sed<T: Backplane>(&mut self, _mem: &mut T)
        ensures
            *final(self) == old(self).with_flag(FLAG_DECIMAL, true),
            final(_mem)@ == old(_mem)@,
    {
        self.flagset(FLAG_DECIMAL);
    }

    /// SEI: disable maskable interrupts.
    pub fn inst_sei<T: Backplane>(&mut self, _mem: &mut T)
        ensures
            *final(self) == old(self).with_flag(FLAG_INTERRUPT, true),
            final(_mem)@ == old(_mem)@,
    {
        self.flagset(FLAG_INTERRUPT);
    }
}

} // verus!
