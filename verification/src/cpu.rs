//! The register file and the helpers that every instruction shares.

use vstd::prelude::*;
use crate::backplane::Backplane;
use crate::bits;
use crate::flags;
use crate::flags::{FLAG_CARRY, FLAG_CONSTANT, FLAG_OVERFLOW, FLAG_SIGN, FLAG_ZERO};

verus! {

/// First address of the page that holds the stack.
pub const BASE_STACK: u16 = 0x0100;

/// Where the address of the non-maskable interrupt handler is kept.
pub const NMI_VECTOR: u16 = 0xFFFA;

/// Where the address at which a reset starts the program is kept.
pub const RESET_VECTOR: u16 = 0xFFFC;

/// Where the address of the handler of IRQ and BRK is kept.
pub const IRQ_VECTOR: u16 = 0xFFFE;

/// The state of the processor between two instructions.
#[derive(Clone, Copy, Debug, PartialEq, Eq)]
pub struct CPU {
    /// Program counter.
    pub pc: u16,
    /// Stack pointer, an offset into the page at `BASE_STACK`.
    pub sp: u8,
    /// Accumulator.
    pub a: u8,
    /// Index register X.
    pub x: u8,
    /// Index register Y.
    pub y: u8,
    /// Status flags, see `crate::flags`.
    pub status: u8,
    /// Instructions executed so far, modulo 2^32.
    pub instructions_ran: u32,
    /// Clock cycles consumed so far.
    pub clockticks: u32,
    /// The cycle count up to which `exec` runs.
    pub clockgoal: u32,
    /// The current instruction works on the accumulator, not on memory.
    pub addr_acc: bool,
    /// The program counter from which the last taken branch left.
    pub oldpc: u16,
    /// Effective address of the current instruction.
    pub ea: u16,
    /// Sign-extended displacement of the current branch.
    pub reladdr: u16,
    /// The current instruction pays for a page crossing.
    pub penaltyop: bool,
    /// The current addressing mode crossed a page.
    pub penaltyaddr: bool,
    /// The operand as the current instruction last decoded it.
    pub value: u16,
    /// The opcode being executed.
    pub opcode: u8,
    /// Whether the host's `each_instr` is called after every instruction.
    pub do_callback: bool,
}

impl CPU {
    /// The address of stack slot `sp`.
    pub open spec fn stack_address(sp: u8) -> u16 {
        (BASE_STACK + sp) as u16
    }

    /// The processor as it is at power-on.
    pub open spec fn power_on() -> CPU {
        CPU {
            pc: 0,
            sp: 0xFD,
            a: 0,
            x: 0,
            y: 0,
            status: FLAG_CONSTANT,
            instructions_ran: 0,
            clockticks: 0,
            clockgoal: 0,
            addr_acc: false,
            oldpc: 0,
            ea: 0,
            reladdr: 0,
            penaltyop: false,
            penaltyaddr: false,
            value: 0,
            opcode: 0,
            do_callback: true,
        }
    }

    /// A processor at power-on: registers cleared, the stack pointer at
    /// `0xFD`, only the Constant flag set, and the host's hook enabled.
    pub fn new() -> (cpu: CPU)
        ensures
            cpu == CPU::power_on(),
    {
        CPU {
            pc: 0,
            sp: 0xFD,
            a: 0,
            x: 0,
            y: 0,
            status: FLAG_CONSTANT,
            instructions_ran: 0,
            clockticks: 0,
            clockgoal: 0,
            addr_acc: false,
            oldpc: 0,
            ea: 0,
            reladdr: 0,
            penaltyop: false,
            penaltyaddr: false,
            value: 0,
            opcode: 0,
            do_callback: true,
        }
    }

    /// The processor and the host after `value` was pushed.
    pub open spec fn spec_push8<T: Backplane>(self, m: T::Model, value: u8) -> (CPU, T::Model) {
        (
            CPU { sp: bits::wrap8(self.sp - 1), ..self },
            T::poke(m, CPU::stack_address(self.sp), value),
        )
    }

    /// The processor and the host after the word `value` was pushed, high
    /// byte first.
    pub open spec fn spec_push16<T: Backplane>(self, m: T::Model, value: u16) -> (CPU, T::Model) {
        let (c, m1) = self.spec_push8::<T>(m, bits::high_byte(value));
        c.spec_push8::<T>(m1, bits::low_byte(value))
    }

    /// The processor after a byte was pulled, and that byte.
    pub open spec fn spec_pull8<T: Backplane>(self, m: T::Model) -> (CPU, u8) {
        let sp = bits::wrap8(self.sp + 1);
        (CPU { sp, ..self }, T::peek(m, CPU::stack_address(sp)))
    }

    /// The processor after a word was pulled, low byte first, and that word.
    pub open spec fn spec_pull16<T: Backplane>(self, m: T::Model) -> (CPU, u16) {
        let (c, lo) = self.spec_pull8::<T>(m);
        let (c2, hi) = c.spec_pull8::<T>(m);
        (c2, bits::word(lo, hi))
    }

    /// The little-endian word that the host holds at `address` and at the
    /// address after it.
    pub open spec fn word_at<T: Backplane>(m: T::Model, address: u16) -> u16 {
        bits::word(T::peek(m, address), T::peek(m, bits::wrap16(address + 1)))
    }

    /// The processor after a reset that found `m` on the bus.
    pub open spec fn spec_reset<T: Backplane>(self, m: T::Model) -> CPU {
        CPU {
            pc: CPU::word_at::<T>(m, RESET_VECTOR),
            a: 0,
            x: 0,
            y: 0,
            sp: 0xFD,
            status: flags::put_flag(self.status, FLAG_CONSTANT, true),
            ..self
        }
    }

    /// The operand of the current instruction: the accumulator in
    /// accumulator mode, else the byte at the effective address.
    pub open spec fn operand<T: Backplane>(self, m: T::Model) -> u8 {
        if self.addr_acc {
            self.a
        } else {
            T::peek(m, self.ea)
        }
    }

    /// The processor and the host after the current instruction stored
    /// `value` where its operand came from.
    pub open spec fn spec_putvalue<T: Backplane>(self, m: T::Model, value: u8) -> (CPU, T::Model) {
        if self.addr_acc {
            (CPU { a: value, ..self }, m)
        } else {
            (self, T::poke(m, self.ea, value))
        }
    }

    /// Whether the sign of the result `n` differs from the sign of both the
    /// accumulator `m` and the operand `o`: the signed addition overflowed.
    pub open spec fn sign_overflowed(n: u16, m: u8, o: u16) -> bool {
        let negative = bits::low_byte(n) >= 0x80;
        negative != (m >= 0x80) && negative != (bits::low_byte(o) >= 0x80)
    }

    fn stack_slot(&self) -> (address: u16)
        ensures
            address == CPU::stack_address(self.sp),
    {
        BASE_STACK + bits::widen(self.sp)
    }

    pub(crate) fn read_word<T: Backplane>(mem: &T, address: u16) -> (value: u16)
        ensures
            value == CPU::word_at::<T>(mem@, address),
    {
        let lo: u8 = mem.read(address);
        let hi: u8 = mem.read(address.wrapping_add(1));
        bits::make_word(lo, hi)
    }

    /// Pushes `pushval`, high byte first. Each byte goes to the slot the
    /// stack pointer names, which then moves down by one, wrapping within
    /// the stack page.
    pub fn push16<T: Backplane>(&mut self, mem: &mut T, pushval: u16)
        ensures
            (*final(self), final(mem)@) == old(self).spec_push16::<T>(old(mem)@, pushval),
    {
        mem.write(self.stack_slot(), bits::hi8(pushval));
        self.sp = self.sp.wrapping_sub(1);
        mem.write(self.stack_slot(), bits::lo8(pushval));
        self.sp = self.sp.wrapping_sub(1);
    }

    /// Stores `pushval` in the slot the stack pointer names and moves the
    /// stack pointer down by one, wrapping from `0x00` to `0xFF`.
    pub fn push8<T: Backplane>(&mut self, mem: &mut T, pushval: u8)
        ensures
            (*final(self), final(mem)@) == old(self).spec_push8::<T>(old(mem)@, pushval),
    {
        mem.write(self.stack_slot(), pushval);
        self.sp = self.sp.wrapping_sub(1);
    }

    /// Pulls a word, low byte first: the stack pointer moves up by one
    /// before each byte is read, wrapping within the stack page.
    pub fn pull16<T: Backplane>(&mut self, mem: &T) -> (value: u16)
        ensures
            (*final(self), value) == old(self).spec_pull16::<T>(mem@),
    {
        self.sp = self.sp.wrapping_add(1);
        let lo: u8 = mem.read(self.stack_slot());
        self.sp = self.sp.wrapping_add(1);
        let hi: u8 = mem.read(self.stack_slot());
        bits::make_word(lo, hi)
    }

    /// Moves the stack pointer up by one, wrapping from `0xFF` to `0x00`,
    /// and returns the byte in the slot it then names.
    pub fn pull8<T: Backplane>(&mut self, mem: &T) -> (value: u8)
        ensures
            (*final(self), value) == old(self).spec_pull8::<T>(mem@),
    {
        self.sp = self.sp.wrapping_add(1);
        mem.read(self.stack_slot())
    }

    /// Starts the program over: the program counter is loaded from the
    /// reset vector, the registers are cleared, the stack pointer goes back
    /// to `0xFD` and the Constant flag is set. The other flags, the
    /// counters and the hook setting stay.
    pub fn reset<T: Backplane>(&mut self, mem: &T)
        ensures
            *final(self) == old(self).spec_reset::<T>(mem@),
    {
        self.pc = CPU::read_word(mem, RESET_VECTOR);
        self.a = 0;
        self.x = 0;
        self.y = 0;
        self.sp = 0xFD;
        self.flagset(FLAG_CONSTANT);
    }

    /// The operand of the current instruction, zero-extended.
    pub fn getvalue<T: Backplane>(&self, mem: &T) -> (value: u16)
        ensures
            value == self.operand::<T>(mem@),
    {
        if self.addr_acc {
            bits::widen(self.a)
        } else {
            bits::widen(mem.read(self.ea))
        }
    }

    /// The word at the effective address; the high byte comes from the
    /// address after it, wrapping at the top of memory.
    pub fn getvalue_16<T: Backplane>(&self, mem: &T) -> (value: u16)
        ensures
            value == CPU::word_at::<T>(mem@, self.ea),
    {
        CPU::read_word(mem, self.ea)
    }

    /// Stores the low byte of `saveval` where the operand came from: in the
    /// accumulator in accumulator mode, else at the effective address.
    pub fn putvalue<T: Backplane>(&mut self, mem: &mut T, saveval: u16)
        ensures
            (*final(self), final(mem)@) == old(self).spec_putvalue::<T>(
                old(mem)@,
                bits::low_byte(saveval),
            ),
    {
        if self.addr_acc {
            self.a = bits::lo8(saveval);
        } else {
            mem.write(self.ea, bits::lo8(saveval));
        }
    }

    /// Whether a bit of the mask `flag` is set in the status register.
    pub fn flag(&self, flag: u8) -> (on: bool)
        ensures
            on == (self.status & flag != 0),
            flags::is_flag(flag) ==> on == flags::flag_on(self.status, flag),
    {
        proof {
            if flags::is_flag(flag) {
                flags::lemma_flag_masks(self.status, flag);
            }
        }
        (self.status & flag) != 0
    }

    /// Sets every bit of the mask `flag` in the status register.
    pub fn flagset(&mut self, flag: u8)
        ensures
            *final(self) == (CPU { status: old(self).status | flag, ..*old(self) }),
            flags::is_flag(flag) ==> final(self).status == flags::put_flag(
                old(self).status,
                flag,
                true,
            ),
    {
        proof {
            if flags::is_flag(flag) {
                flags::lemma_flag_masks(self.status, flag);
            }
        }
        self.status |= flag;
    }

    /// Clears every bit of the mask `flag` in the status register.
    pub fn flagclear(&mut self, flag: u8)
        ensures
            *final(self) == (CPU { status: old(self).status & !flag, ..*old(self) }),
            flags::is_flag(flag) ==> final(self).status == flags::put_flag(
                old(self).status,
                flag,
                false,
            ),
    {
        proof {
            if flags::is_flag(flag) {
                flags::lemma_flag_masks(self.status, flag);
            }
        }
        self.status &= !flag;
    }

    /// Sets Zero when the low byte of `n` is zero and clears it otherwise.
    pub fn flagcalc_zero(&mut self, n: u16)
        ensures
            *final(self) == (CPU {
                status: flags::put_flag(old(self).status, FLAG_ZERO, bits::low_byte(n) == 0),
                ..*old(self)
            }),
    {
        proof {
            bits::lemma_low_byte_mask(n);
        }
        if (n & 0x00FF) != 0 {
            self.flagclear(FLAG_ZERO);
        } else {
            self.flagset(FLAG_ZERO);
        }
    }

    /// Copies bit 7 of `n` into Sign.
    pub fn flagcalc_sign(&mut self, n: u16)
        ensures
            *final(self) == (CPU {
                status: flags::put_flag(old(self).status, FLAG_SIGN, bits::low_byte(n) >= 0x80),
                ..*old(self)
            }),
    {
        proof {
            bits::lemma_sign_bit(n);
        }
        if (n & 0x0080) != 0 {
            self.flagset(FLAG_SIGN);
        } else {
            self.flagclear(FLAG_SIGN);
        }
    }

    /// Sets Carry when `n` does not fit in a byte and clears it otherwise.
    pub fn flagcalc_carry(&mut self, n: u16)
        ensures
            *final(self) == (CPU {
                status: flags::put_flag(old(self).status, FLAG_CARRY, n > 0xFF),
                ..*old(self)
            }),
    {
        proof {
            bits::lemma_high_bits(n);
        }
        if (n & 0xFF00) != 0 {
            self.flagset(FLAG_CARRY);
        } else {
            self.flagclear(FLAG_CARRY);
        }
    }

    /// Sets Overflow when `n`, the sum of the accumulator `m` and the
    /// operand `o`, has a sign that neither of them has, and clears it
    /// otherwise.
    pub fn flagcalc_overflow(&mut self, n: u16, m: u8, o: u16)
        ensures
            *final(self) == (CPU {
                status: flags::put_flag(
                    old(self).status,
                    FLAG_OVERFLOW,
                    CPU::sign_overflowed(n, m, o),
                ),
                ..*old(self)
            }),
    {
        let wide: u16 = bits::widen(m);
        proof {
            bits::lemma_overflow_test(n, wide, o);
        }
        if ((n ^ wide) & (n ^ o) & 0x0080) != 0 {
            self.flagset(FLAG_OVERFLOW);
        } else {
            self.flagclear(FLAG_OVERFLOW);
        }
    }

    /// Stores the low byte of `n` in the accumulator.
    pub fn save_accumulator(&mut self, n: u16)
        ensures
            *final(self) == (CPU { a: bits::low_byte(n), ..*old(self) }),
    {
        self.a = bits::lo8(n);
    }
}

} // verus!
