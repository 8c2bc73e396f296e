//! The thirteen ways an instruction finds its operand.
//!
//! Each resolver reads the operand bytes at the program counter, leaves the
//! effective address in `ea` (or marks the accumulator as the operand) and
//! moves the program counter past what it read. None of them writes to the
//! host.

use vstd::prelude::*;
use crate::backplane::Backplane;
use crate::bits;
use crate::cpu::CPU;

verus! {

impl CPU {
    /// The program counter after `n` operand bytes.
    pub open spec fn pc_after(self, n: int) -> u16 {
        bits::wrap16(self.pc + n)
    }

    /// The word in page zero at `pointer`; the high byte of a pointer in the
    /// last cell comes from cell zero.
    pub open spec fn zero_page_word<T: Backplane>(m: T::Model, pointer: u8) -> u16 {
        bits::word(T::peek(m, pointer as u16), T::peek(m, bits::next_in_page(pointer as u16)))
    }

    /// The processor with its effective address moved on by `index`, and
    /// the page-crossing mark set if that left the page of `base`.
    pub open spec fn indexed(self, base: u16, index: u8) -> CPU {
        let ea = bits::wrap16(base + index);
        CPU { ea, penaltyaddr: self.penaltyaddr || !bits::same_page(base, ea), ..self }
    }

    /// The processor after accumulator mode was resolved.
    pub open spec fn spec_addr_accumulator(self) -> CPU {
        CPU { addr_acc: true, ..self }
    }

    /// The processor after an immediate operand was resolved.
    pub open spec fn spec_addr_immediate(self) -> CPU {
        CPU { ea: self.pc, pc: self.pc_after(1), ..self }
    }

    /// The processor after a zero-page operand was resolved.
    pub open spec fn spec_addr_zeropage<T: Backplane>(self, m: T::Model) -> CPU {
        CPU { ea: T::peek(m, self.pc) as u16, pc: self.pc_after(1), ..self }
    }

    /// The processor after a zero-page,X operand was resolved.
    pub open spec fn spec_addr_zeropage_x<T: Backplane>(self, m: T::Model) -> CPU {
        CPU { ea: bits::wrap8(T::peek(m, self.pc) + self.x) as u16, pc: self.pc_after(1), ..self }
    }

    /// The processor after a zero-page,Y operand was resolved.
    pub open spec fn spec_addr_zeropage_y<T: Backplane>(self, m: T::Model) -> CPU {
        CPU { ea: bits::wrap8(T::peek(m, self.pc) + self.y) as u16, pc: self.pc_after(1), ..self }
    }

    /// The processor after the displacement of a branch was read.
    pub open spec fn spec_addr_relative_branch<T: Backplane>(self, m: T::Model) -> CPU {
        CPU {
            reladdr: bits::wrap16(bits::signed(T::peek(m, self.pc))),
            pc: self.pc_after(1),
            ..self
        }
    }

    /// The processor after an absolute operand was resolved.
    pub open spec fn spec_addr_absolute<T: Backplane>(self, m: T::Model) -> CPU {
        CPU { ea: CPU::word_at::<T>(m, self.pc), pc: self.pc_after(2), ..self }
    }

    /// The processor after an absolute,X operand was resolved.
    pub open spec fn spec_addr_absolute_x<T: Backplane>(self, m: T::Model) -> CPU {
        CPU { pc: self.pc_after(2), ..self.indexed(CPU::word_at::<T>(m, self.pc), self.x) }
    }

    /// The processor after an absolute,Y operand was resolved.
    pub open spec fn spec_addr_absolute_y<T: Backplane>(self, m: T::Model) -> CPU {
        CPU { pc: self.pc_after(2), ..self.indexed(CPU::word_at::<T>(m, self.pc), self.y) }
    }

    /// The processor after an indirect operand was resolved.
    pub open spec fn spec_addr_indirect<T: Backplane>(self, m: T::Model) -> CPU {
        let pointer = CPU::word_at::<T>(m, self.pc);
        CPU {
            ea: bits::word(T::peek(m, pointer), T::peek(m, bits::next_in_page(pointer))),
            pc: self.pc_after(2),
            ..self
        }
    }

    /// The processor after an (indirect,X) operand was resolved.
    pub open spec fn spec_addr_indirect_x<T: Backplane>(self, m: T::Model) -> CPU {
        let pointer = bits::wrap8(T::peek(m, self.pc) + self.x);
        CPU { ea: CPU::zero_page_word::<T>(m, pointer), pc: self.pc_after(1), ..self }
    }

    /// The processor after an (indirect),Y operand was resolved.
    pub open spec fn spec_addr_indirect_y<T: Backplane>(self, m: T::Model) -> CPU {
        let pointer = T::peek(m, self.pc);
        CPU { pc: self.pc_after(1), ..self.indexed(CPU::zero_page_word::<T>(m, pointer), self.y) }
    }

    fn add_index(&mut self, base: u16, index: u8)
        ensures
            *final(self) == old(self).indexed(base, index),
    {
        self.ea = base.wrapping_add(bits::widen(index));
        if !bits::on_same_page(base, self.ea) {
            self.penaltyaddr = true;
        }
    }

    fn read_zero_page_word<T: Backplane>(mem: &T, pointer: u8) -> (value: u16)
        ensures
            value == CPU::zero_page_word::<T>(mem@, pointer),
    {
        let at: u16 = bits::widen(pointer);
        let lo: u8 = mem.read(at);
        let hi: u8 = mem.read(bits::page_successor(at));
        bits::make_word(lo, hi)
    }

    /// Implied: the instruction has no operand.
    pub fn addr_implied<T: Backplane>(&mut self, _mem: &T)
        ensures
            *final(self) == *old(self),
    {
    }

    /// Accumulator: the instruction reads and writes the accumulator.
    pub fn addr_accumulator<T: Backplane>(&mut self, _mem: &T)
        ensures
            *final(self) == old(self).spec_addr_accumulator(),
    {
        self.addr_acc = true;
    }

    /// Immediate: the operand is the byte after the opcode.
    pub fn addr_immediate<T: Backplane>(&mut self, _mem: &T)
        ensures
            *final(self) == old(self).spec_addr_immediate(),
    {
        self.ea = self.pc;
        self.pc = self.pc.wrapping_add(1);
    }

    /// Zero page: the byte after the opcode is an address in page zero.
    pub fn addr_zeropage<T: Backplane>(&mut self, mem: &T)
        ensures
            *final(self) == old(self).spec_addr_zeropage::<T>(mem@),
    {
        self.ea = bits::widen(mem.read(self.pc));
        self.pc = self.pc.wrapping_add(1);
    }

    /// Zero page,X: the byte after the opcode plus X, wrapping within page
    /// zero.
    pub fn addr_zeropage_x<T: Backplane>(&mut self, mem: &T)
        ensures
            *final(self) == old(self).spec_addr_zeropage_x::<T>(mem@),
    {
        self.ea = bits::widen(mem.read(self.pc).wrapping_add(self.x));
        self.pc = self.pc.wrapping_add(1);
    }

    /// Zero page,Y: the byte after the opcode plus Y, wrapping within page
    /// zero.
    pub fn addr_zeropage_y<T: Backplane>(&mut self, mem: &T)
        ensures
            *final(self) == old(self).spec_addr_zeropage_y::<T>(mem@),
    {
        self.ea = bits::widen(mem.read(self.pc).wrapping_add(self.y));
        self.pc = self.pc.wrapping_add(1);
    }

    /// Relative: the byte after the opcode is a signed displacement, kept
    /// sign-extended in `reladdr` until a branch applies it.
    pub fn addr_relative_branch<T: Backplane>(&mut self, mem: &T)
        ensures
            *final(self) == old(self).spec_addr_relative_branch::<T>(mem@),
    {
        self.reladdr = bits::sign_extend(mem.read(self.pc));
        self.pc = self.pc.wrapping_add(1);
    }

    /// Absolute: the two bytes after the opcode are the address, low byte
    /// first.
    pub fn addr_absolute<T: Backplane>(&mut self, mem: &T)
        ensures
            *final(self) == old(self).spec_addr_absolute::<T>(mem@),
    {
        self.ea = CPU::read_word(mem, self.pc);
        self.pc = self.pc.wrapping_add(2);
    }

    /// Absolute,X: the absolute address plus X. Leaving the page of the
    /// absolute address marks a page crossing.
    pub fn addr_absolute_x<T: Backplane>(&mut self, mem: &T)
        ensures
            *final(self) == old(self).spec_addr_absolute_x::<T>(mem@),
    {
        let base: u16 = CPU::read_word(mem, self.pc);
        self.add_index(base, self.x);
        self.pc = self.pc.wrapping_add(2);
    }

    /// Absolute,Y: the absolute address plus Y. Leaving the page of the
    /// absolute address marks a page crossing.
    pub fn addr_absolute_y<T: Backplane>(&mut self, mem: &T)
        ensures
            *final(self) == old(self).spec_addr_absolute_y::<T>(mem@),
    {
        let base: u16 = CPU::read_word(mem, self.pc);
        self.add_index(base, self.y);
        self.pc = self.pc.wrapping_add(2);
    }

    /// Indirect: the two bytes after the opcode point at the address. The
    /// high byte of the address is fetched without carrying into the
    /// pointer's page: a pointer at `0x10FF` takes it from `0x1000`.
    pub fn addr_indirect<T: Backplane>(&mut self, mem: &T)
        ensures
            *final(self) == old(self).spec_addr_indirect::<T>(mem@),
    {
        let pointer: u16 = CPU::read_word(mem, self.pc);
        let lo: u8 = mem.read(pointer);
        let hi: u8 = mem.read(bits::page_successor(pointer));
        self.ea = bits::make_word(lo, hi);
        self.pc = self.pc.wrapping_add(2);
    }

    /// (Indirect,X): the byte after the opcode plus X, wrapping within page
    /// zero, points at the address, which is itself read without leaving
    /// page zero.
    pub fn addr_indirect_x<T: Backplane>(&mut self, mem: &T)
        ensures
            *final(self) == old(self).spec_addr_indirect_x::<T>(mem@),
    {
        let pointer: u8 = mem.read(self.pc).wrapping_add(self.x);
        self.ea = CPU::read_zero_page_word(mem, pointer);
        self.pc = self.pc.wrapping_add(1);
    }

    /// (Indirect),Y: the byte after the opcode points at a base address in
    /// page zero, read without leaving page zero; the address is the base
    /// plus Y. Leaving the page of the base marks a page crossing.
    pub fn addr_indirect_y<T: Backplane>(&mut self, mem: &T)
        ensures
            *final(self) == old(self).spec_addr_indirect_y::<T>(mem@),
    {
        let pointer: u8 = mem.read(self.pc);
        self.pc = self.pc.wrapping_add(1);
        let base: u16 = CPU::read_zero_page_word(mem, pointer);
        self.add_index(base, self.y);
    }
}

} // verus!
