//! Branches, jumps, subroutine and interrupt returns, BRK and NOP.
//!
//! The opcodes that the 6502 leaves undocumented are decoded, with the
//! addressing mode and the cycle count of the combined operation that the
//! hardware performs for them (LAX, SAX, DCP, ISB, SLO, RLA, SRE, RRA), but
//! they are not performed: each of them acts as NOP.

use vstd::prelude::*;
use crate::backplane::Backplane;
use crate::bits;
use crate::cpu::{CPU, IRQ_VECTOR};
use crate::flags;
use crate::flags::{
    FLAG_BREAK, FLAG_CARRY, FLAG_INTERRUPT, FLAG_OVERFLOW, FLAG_SIGN, FLAG_ZERO,
};

verus! {

impl CPU {
    /// Where a taken branch goes: the program counter plus the displacement.
    pub open spec fn branch_target(self) -> u16 {
        bits::wrap16(self.pc + self.reladdr)
    }

    /// The processor after a branch whose condition was `taken`. A branch
    /// not taken changes nothing. A taken branch costs one cycle, or two
    /// when its target lies in another page than the instruction after it.
    pub open spec fn spec_branch(self, taken: bool) -> CPU {
        if taken {
            let target = self.branch_target();
            CPU {
                oldpc: self.pc,
                pc: target,
                clockticks: (self.clockticks + if bits::same_page(self.pc, target) {
                    1int
                } else {
                    2int
                }) as u32,
                ..self
            }
        } else {
            self
        }
    }

    /// The processor and the host after JSR.
    pub open spec fn spec_inst_jsr<T: Backplane>(self, m: T::Model) -> (CPU, T::Model) {
        let (c, m1) = self.spec_push16::<T>(m, bits::wrap16(self.pc - 1));
        (CPU { pc: self.ea, ..c }, m1)
    }

    /// The processor and the host after RTS.
    pub open spec fn spec_inst_rts<T: Backplane>(self, m: T::Model) -> (CPU, T::Model) {
        let (c, w) = self.spec_pull16::<T>(m);
        (CPU { value: w, pc: bits::wrap16(w + 1), ..c }, m)
    }

    /// The processor and the host after RTI.
    pub open spec fn spec_inst_rti<T: Backplane>(self, m: T::Model) -> (CPU, T::Model) {
        let (c1, status) = self.spec_pull8::<T>(m);
        let (c2, w) = c1.spec_pull16::<T>(m);
        (CPU { status, value: w, pc: w, ..c2 }, m)
    }

    /// The processor and the host after the processor entered the handler
    /// whose address is kept at `vector`: the return address `back` and
    /// then `pushed`, a copy of the status, go to the stack, and
    /// interrupts are disabled.
    pub open spec fn entered<T: Backplane>(
        self,
        m: T::Model,
        back: u16,
        pushed: u8,
        vector: u16,
    ) -> (CPU, T::Model) {
        let (c1, m1) = self.spec_push16::<T>(m, back);
        let (c2, m2) = c1.spec_push8::<T>(m1, pushed);
        (
            CPU {
                status: flags::put_flag(self.status, FLAG_INTERRUPT, true),
                pc: CPU::word_at::<T>(m2, vector),
                ..c2
            },
            m2,
        )
    }

    /// The processor and the host after BRK.
    pub open spec fn spec_inst_brk<T: Backplane>(self, m: T::Model) -> (CPU, T::Model) {
        let back = self.pc_after(1);
        CPU { pc: back, ..self }.entered::<T>(
            m,
            back,
            flags::put_flag(self.status, FLAG_BREAK, true),
            IRQ_VECTOR,
        )
    }

    /// Whether `opcode` is one of the six NOPs that pay for a page crossing
    /// of their absolute,X operand.
    pub open spec fn nop_pays(opcode: u8) -> bool {
        opcode == 0x1C || opcode == 0x3C || opcode == 0x5C || opcode == 0x7C || opcode == 0xDC
            || opcode == 0xFC
    }

    /// The processor after NOP, and after each undocumented operation.
    pub open spec fn spec_inst_nop(self) -> CPU {
        CPU { penaltyop: self.penaltyop || CPU::nop_pays(self.opcode), ..self }
    }

    fn branch(&mut self)
        requires
            old(self).clockticks <= u32::MAX - 2,
        ensures
            *final(self) == old(self).spec_branch(true),
    {
        self.oldpc = self.pc;
        self.pc = self.pc.wrapping_add(self.reladdr);
        if !bits::on_same_page(self.oldpc, self.pc) {
            self.clockticks += 2;
        } else {
            self.clockticks += 1;
        }
    }

    pub(crate) fn enter<T: Backplane>(&mut self, mem: &mut T, pushed: u8, vector: u16)
        ensures
            (*final(self), final(mem)@) == old(self).entered::<T>(
                old(mem)@,
                old(self).pc,
                pushed,
                vector,
            ),
    {
        let back: u16 = self.pc;
        self.push16(mem, back);
        self.push8(mem, pushed);
        self.flagset(FLAG_INTERRUPT);
        self.pc = CPU::read_word(mem, vector);
    }

    /// BCC: branch if Carry is clear.
    pub fn inst_bcc<T: Backplane>(&mut self, _mem: &mut T)
        requires
            !flags::flag_on(old(self).status, FLAG_CARRY) ==> old(self).clockticks <= u32::MAX - 2,
        ensures
            *final(self) == old(self).spec_branch(!flags::flag_on(old(self).status, FLAG_CARRY)),
            final(_mem)@ == old(_mem)@,
    {
        if !self.flag(FLAG_CARRY) {
            self.branch();
        }
    }

    /// BCS: branch if Carry is set.
    pub fn inst_bcs<T: Backplane>(&mut self, _mem: &mut T)
        requires
            flags::flag_on(old(self).status, FLAG_CARRY) ==> old(self).clockticks <= u32::MAX - 2,
        ensures
            *final(self) == old(self).spec_branch(flags::flag_on(old(self).status, FLAG_CARRY)),
            final(_mem)@ == old(_mem)@,
    {
        if self.flag(FLAG_CARRY) {
            self.branch();
        }
    }

    /// BEQ: branch if Zero is set.
    pub fn inst_beq<T: Backplane>(&mut self, _mem: &mut T)
        requires
            flags::flag_on(old(self).status, FLAG_ZERO) ==> old(self).clockticks <= u32::MAX - 2,
        ensures
            *final(self) == old(self).spec_branch(flags::flag_on(old(self).status, FLAG_ZERO)),
            final(_mem)@ == old(_mem)@,
    {
        if self.flag(FLAG_ZERO) {
            self.branch();
        }
    }

    /// BMI: branch if Sign is set.
    pub fn inst_bmi<T: Backplane>(&mut self, _mem: &mut T)
        requires
            flags::flag_on(old(self).status, FLAG_SIGN) ==> old(self).clockticks <= u32::MAX - 2,
        ensures
            *final(self) == old(self).spec_branch(flags::flag_on(old(self).status, FLAG_SIGN)),
            final(_mem)@ == old(_mem)@,
    {
        if self.flag(FLAG_SIGN) {
            self.branch();
        }
    }

    /// BNE: branch if Zero is clear.
    pub fn inst_bne<T: Backplane>(&mut self, _mem: &mut T)
        requires
            !flags::flag_on(old(self).status, FLAG_ZERO) ==> old(self).clockticks <= u32::MAX - 2,
        ensures
            *final(self) == old(self).spec_branch(!flags::flag_on(old(self).status, FLAG_ZERO)),
            final(_mem)@ == old(_mem)@,
    {
        if !self.flag(FLAG_ZERO) {
            self.branch();
        }
    }

    /// BPL: branch if Sign is clear.
    pub fn inst_bpl<T: Backplane>(&mut self, _mem: &mut T)
        requires
            !flags::flag_on(old(self).status, FLAG_SIGN) ==> old(self).clockticks <= u32::MAX - 2,
        ensures
            *final(self) == old(self).spec_branch(!flags::flag_on(old(self).status, FLAG_SIGN)),
            final(_mem)@ == old(_mem)@,
    {
        if !self.flag(FLAG_SIGN) {
            self.branch();
        }
    }

    /// BRK: skip the byte after the opcode, push the address after it and
    /// the status with Break set in the pushed copy, disable interrupts and
    /// continue at the address kept in the IRQ vector.
    pub fn inst_brk<T: Backplane>(&mut self, mem: &mut T)
        ensures
            (*final(self), final(mem)@) == old(self).spec_inst_brk::<T>(old(mem)@),
    {
        self.pc = self.pc.wrapping_add(1);
        proof {
            flags::lemma_flag_masks(self.status, FLAG_BREAK);
        }
        let pushed: u8 = self.status | FLAG_BREAK;
        self.enter(mem, pushed, IRQ_VECTOR);
    }

    /// BVC: branch if Overflow is clear.
    pub fn inst_bvc<T: Backplane>(&mut self, _mem: &mut T)
        requires
            !flags::flag_on(old(self).status, FLAG_OVERFLOW) ==> old(self).clockticks <= u32::MAX - 2,
        ensures
            *final(self) == old(self).spec_branch(!flags::flag_on(old(self).status, FLAG_OVERFLOW)),
            final(_mem)@ == old(_mem)@,
    {
        if !self.flag(FLAG_OVERFLOW) {
            self.branch();
        }
    }

    /// BVS: branch if Overflow is set.
    pub fn inst_bvs<T: Backplane>(&mut self, _mem: &mut T)
        requires
            flags::flag_on(old(self).status, FLAG_OVERFLOW) ==> old(self).clockticks <= u32::MAX - 2,
        ensures
            *final(self) == old(self).spec_branch(flags::flag_on(old(self).status, FLAG_OVERFLOW)),
            final(_mem)@ == old(_mem)@,
    {
        if self.flag(FLAG_OVERFLOW) {
            self.branch();
        }
    }

    /// JMP: continue at the effective address.
    pub fn inst_jmp<T: Backplane>(&mut self, _mem: &mut T)
        ensures
            *final(self) == (CPU { pc: old(self).ea, ..*old(self) }),
            final(_mem)@ == old(_mem)@,
    {
        self.pc = self.ea;
    }

    /// JSR: push the address of the last byte of this instruction, high
    /// byte first, and continue at the effective address.
    pub fn inst_jsr<T: Backplane>(&mut self, mem: &mut T)
        ensures
            (*final(self), final(mem)@) == old(self).spec_inst_jsr::<T>(old(mem)@),
    {
        let back: u16 = self.pc.wrapping_sub(1);
        self.push16(mem, back);
        self.pc = self.ea;
    }

    /// NOP: nothing, except that six of its opcodes pay for a page
    /// crossing of the operand that they do not read.
    pub fn inst_nop<T: Backplane>(&mut self, _mem: &mut T)
        ensures
            *final(self) == old(self).spec_inst_nop(),
            final(_mem)@ == old(_mem)@,
    {
        match self.opcode {
            0x1C | 0x3C | 0x5C | 0x7C | 0xDC | 0xFC => {
                self.penaltyop = true;
            },
            _ => {},
        }
    }

    /// RTI: pull the status as it was pushed, then the program counter.
    pub fn inst_rti<T: Backplane>(&mut self, mem: &mut T)
        ensures
            (*final(self), final(mem)@) == old(self).spec_inst_rti::<T>(old(mem)@),
    {
        self.status = self.pull8(mem);
        self.value = self.pull16(mem);
        self.pc = self.value;
    }

    /// RTS: pull the address that JSR pushed and continue one byte after
    /// it.
    pub fn inst_rts<T: Backplane>(&mut self, mem: &mut T)
        ensures
            (*final(self), final(mem)@) == old(self).spec_inst_rts::<T>(old(mem)@),
    {
        self.value = self.pull16(mem);
        self.pc = self.value.wrapping_add(1);
    }

    /// LAX, undocumented (load the accumulator and X): acts as NOP.
    pub fn inst_lax<T: Backplane>(&mut self, mem: &mut T)
        ensures
            *final(self) == old(self).spec_inst_nop(),
            final(mem)@ == old(mem)@,
    {
        self.inst_nop(mem);
    }

    /// SAX, undocumented (store the accumulator and X, ANDed): acts as NOP.
    pub fn inst_sax<T: Backplane>(&mut self, mem: &mut T)
        ensures
            *final(self) == old(self).spec_inst_nop(),
            final(mem)@ == old(mem)@,
    {
        self.inst_nop(mem);
    }

    /// DCP, undocumented (decrement, then compare): acts as NOP.
    pub fn inst_dcp<T: Backplane>(&mut self, mem: &mut T)
        ensures
            *final(self) == old(self).spec_inst_nop(),
            final(mem)@ == old(mem)@,
    {
        self.inst_nop(mem);
    }

    /// ISB, undocumented (increment, then subtract): acts as NOP.
    pub fn inst_isb<T: Backplane>(&mut self, mem: &mut T)
        ensures
            *final(self) == old(self).spec_inst_nop(),
            final(mem)@ == old(mem)@,
    {
        self.inst_nop(mem);
    }

    /// SLO, undocumented (shift left, then OR): acts as NOP.
    pub fn inst_slo<T: Backplane>(&mut self, mem: &mut T)
        ensures
            *final(self) == old(self).spec_inst_nop(),
            final(mem)@ == old(mem)@,
    {
        self.inst_nop(mem);
    }

    /// RLA, undocumented (rotate left, then AND): acts as NOP.
    pub fn inst_rla<T: Backplane>(&mut self, mem: &mut T)
        ensures
            *final(self) == old(self).spec_inst_nop(),
            final(mem)@ == old(mem)@,
    {
        self.inst_nop(mem);
    }

    /// SRE, undocumented (shift right, then exclusive-or): acts as NOP.
    pub fn inst_sre<T: Backplane>(&mut self, mem: &mut T)
        ensures
            *final(self) == old(self).spec_inst_nop(),
            final(mem)@ == old(mem)@,
    {
        self.inst_nop(mem);
    }

    /// RRA, undocumented (rotate right, then add): acts as NOP.
    pub fn inst_rra<T: Backplane>(&mut self, mem: &mut T)
        ensures
            *final(self) == old(self).spec_inst_nop(),
            final(mem)@ == old(mem)@,
    {
        self.inst_nop(mem);
    }
}

} // verus!
