//! The opcode table: which addressing mode, which operation and how many
//! cycles each of the 256 opcodes stands for, and the dispatch on it.

use vstd::prelude::*;
use crate::backplane::Backplane;
use crate::bits;
use crate::cpu::CPU;
use crate::flags;
use crate::flags::{
    FLAG_CARRY, FLAG_DECIMAL, FLAG_INTERRUPT, FLAG_OVERFLOW, FLAG_SIGN, FLAG_ZERO,
};

verus! {

/// How an instruction finds its operand.
#[derive(Clone, Copy, Debug, PartialEq, Eq)]
pub enum AddrMode {
    /// No operand.
    Implied,
    /// The accumulator is the operand.
    Accumulator,
    /// The byte after the opcode is the operand.
    Immediate,
    /// An address in page zero.
    ZeroPage,
    /// An address in page zero, plus X.
    ZeroPageX,
    /// An address in page zero, plus Y.
    ZeroPageY,
    /// A signed displacement for a branch.
    Relative,
    /// A 16-bit address.
    Absolute,
    /// A 16-bit address, plus X.
    AbsoluteX,
    /// A 16-bit address, plus Y.
    AbsoluteY,
    /// A 16-bit pointer to the address.
    Indirect,
    /// A pointer in page zero, found at an address plus X.
    IndirectX,
    /// A pointer in page zero to an address, plus Y.
    IndirectY,
}

/// What an instruction does, by its mnemonic. The last eight are the
/// undocumented operations, which act as NOP.
#[derive(Clone, Copy, Debug, PartialEq, Eq)]
pub enum Operation {
    Adc,
    And,
    Asl,
    Bcc,
    Bcs,
    Beq,
    Bit,
    Bmi,
    Bne,
    Bpl,
    Brk,
    Bvc,
    Bvs,
    Clc,
    Cld,
    Cli,
    Clv,
    Cmp,
    Cpx,
    Cpy,
    Dec,
    Dex,
    Dey,
    Eor,
    Inc,
    Inx,
    Iny,
    Jmp,
    Jsr,
    Lda,
    Ldx,
    Ldy,
    Lsr,
    Nop,
    Ora,
    Pha,
    Php,
    Pla,
    Plp,
    Rol,
    Ror,
    Rti,
    Rts,
    Sbc,
    Sec,
    Sed,
    Sei,
    Sta,
    Stx,
    Sty,
    Tax,
    Tay,
    Tsx,
    Txa,
    Txs,
    Tya,
    Lax,
    Sax,
    Dcp,
    Isb,
    Slo,
    Rla,
    Sre,
    Rra,
}

/// The addressing mode of `opcode`.
pub open spec fn mode_of(opcode: u8) -> AddrMode {
    match opcode {
        0x0A | 0x2A | 0x4A | 0x6A => AddrMode::Accumulator,
        0x09 | 0x0B | 0x29 | 0x2B | 0x49 | 0x4B | 0x69 | 0x6B | 0x80 | 0x82 | 0x89
        | 0x8B | 0xA0 | 0xA2 | 0xA9 | 0xAB | 0xC0 | 0xC2 | 0xC9 | 0xCB | 0xE0 | 0xE2
        | 0xE9 | 0xEB => AddrMode::Immediate,
        0x04 | 0x05 | 0x06 | 0x07 | 0x24 | 0x25 | 0x26 | 0x27 | 0x44 | 0x45 | 0x46
        | 0x47 | 0x64 | 0x65 | 0x66 | 0x67 | 0x84 | 0x85 | 0x86 | 0x87 | 0xA4 | 0xA5
        | 0xA6 | 0xA7 | 0xC4 | 0xC5 | 0xC6 | 0xC7 | 0xE4 | 0xE5 | 0xE6 | 0xE7 => AddrMode::ZeroPage,
        0x14 | 0x15 | 0x16 | 0x17 | 0x34 | 0x35 | 0x36 | 0x37 | 0x54 | 0x55 | 0x56
        | 0x57 | 0x74 | 0x75 | 0x76 | 0x77 | 0x94 | 0x95 | 0xB4 | 0xB5 | 0xD4 | 0xD5
        | 0xD6 | 0xD7 | 0xF4 | 0xF5 | 0xF6 | 0xF7 => AddrMode::ZeroPageX,
        0x96 | 0x97 | 0xB6 | 0xB7 => AddrMode::ZeroPageY,
        0x10 | 0x30 | 0x50 | 0x70 | 0x90 | 0xB0 | 0xD0 | 0xF0 => AddrMode::Relative,
        0x0C | 0x0D | 0x0E | 0x0F | 0x20 | 0x2C | 0x2D | 0x2E | 0x2F | 0x4C | 0x4D
        | 0x4E | 0x4F | 0x6D | 0x6E | 0x6F | 0x8C | 0x8D | 0x8E | 0x8F | 0xAC | 0xAD
        | 0xAE | 0xAF | 0xCC | 0xCD | 0xCE | 0xCF | 0xEC | 0xED | 0xEE | 0xEF => AddrMode::Absolute,
        0x1C | 0x1D | 0x1E | 0x1F | 0x3C | 0x3D | 0x3E | 0x3F | 0x5C | 0x5D | 0x5E
        | 0x5F | 0x7C | 0x7D | 0x7E | 0x7F | 0x9C | 0x9D | 0xBC | 0xBD | 0xDC | 0xDD
        | 0xDE | 0xDF | 0xFC | 0xFD | 0xFE | 0xFF => AddrMode::AbsoluteX,
        0x19 | 0x1B | 0x39 | 0x3B | 0x59 | 0x5B | 0x79 | 0x7B | 0x99 | 0x9B | 0x9E
        | 0x9F | 0xB9 | 0xBB | 0xBE | 0xBF | 0xD9 | 0xDB | 0xF9 | 0xFB => AddrMode::AbsoluteY,
        0x6C => AddrMode::Indirect,
        0x01 | 0x03 | 0x21 | 0x23 | 0x41 | 0x43 | 0x61 | 0x63 | 0x81 | 0x83 | 0xA1
        | 0xA3 | 0xC1 | 0xC3 | 0xE1 | 0xE3 => AddrMode::IndirectX,
        0x11 | 0x13 | 0x31 | 0x33 | 0x51 | 0x53 | 0x71 | 0x73 | 0x91 | 0x93 | 0xB1
        | 0xB3 | 0xD1 | 0xD3 | 0xF1 | 0xF3 => AddrMode::IndirectY,
        _ => AddrMode::Implied,
    }
}

/// The operation of `opcode`.
pub open spec fn operation_of(opcode: u8) -> Operation {
    match opcode {
        0x61 | 0x65 | 0x69 | 0x6D | 0x71 | 0x75 | 0x79 | 0x7D => Operation::Adc,
        0x21 | 0x25 | 0x29 | 0x2D | 0x31 | 0x35 | 0x39 | 0x3D => Operation::And,
        0x06 | 0x0A | 0x0E | 0x16 | 0x1E => Operation::Asl,
        0x90 => Operation::Bcc,
        0xB0 => Operation::Bcs,
        0xF0 => Operation::Beq,
        0x24 | 0x2C => Operation::Bit,
        0x30 => Operation::Bmi,
        0xD0 => Operation::Bne,
        0x10 => Operation::Bpl,
        0x00 => Operation::Brk,
        0x50 => Operation::Bvc,
        0x70 => Operation::Bvs,
        0x18 => Operation::Clc,
        0xD8 => Operation::Cld,
        0x58 => Operation::Cli,
        0xB8 => Operation::Clv,
        0xC1 | 0xC5 | 0xC9 | 0xCD | 0xD1 | 0xD5 | 0xD9 | 0xDD => Operation::Cmp,
        0xE0 | 0xE4 | 0xEC => Operation::Cpx,
        0xC0 | 0xC4 | 0xCC => Operation::Cpy,
        0xC6 | 0xCE | 0xD6 | 0xDE => Operation::Dec,
        0xCA => Operation::Dex,
        0x88 => Operation::Dey,
        0x41 | 0x45 | 0x49 | 0x4D | 0x51 | 0x55 | 0x59 | 0x5D => Operation::Eor,
        0xE6 | 0xEE | 0xF6 | 0xFE => Operation::Inc,
        0xE8 => Operation::Inx,
        0xC8 => Operation::Iny,
        0x4C | 0x6C => Operation::Jmp,
        0x20 => Operation::Jsr,
        0xA1 | 0xA5 | 0xA9 | 0xAD | 0xB1 | 0xB5 | 0xB9 | 0xBD => Operation::Lda,
        0xA2 | 0xA6 | 0xAE | 0xB6 | 0xBE => Operation::Ldx,
        0xA0 | 0xA4 | 0xAC | 0xB4 | 0xBC => Operation::Ldy,
        0x46 | 0x4A | 0x4E | 0x56 | 0x5E => Operation::Lsr,
        0x01 | 0x05 | 0x09 | 0x0D | 0x11 | 0x15 | 0x19 | 0x1D => Operation::Ora,
        0x48 => Operation::Pha,
        0x08 => Operation::Php,
        0x68 => Operation::Pla,
        0x28 => Operation::Plp,
        0x26 | 0x2A | 0x2E | 0x36 | 0x3E => Operation::Rol,
        0x66 | 0x6A | 0x6E | 0x76 | 0x7E => Operation::Ror,
        0x40 => Operation::Rti,
        0x60 => Operation::Rts,
        0xE1 | 0xE5 | 0xE9 | 0xEB | 0xED | 0xF1 | 0xF5 | 0xF9 | 0xFD => Operation::Sbc,
        0x38 => Operation::Sec,
        0xF8 => Operation::Sed,
        0x78 => Operation::Sei,
        0x81 | 0x85 | 0x8D | 0x91 | 0x95 | 0x99 | 0x9D => Operation::Sta,
        0x86 | 0x8E | 0x96 => Operation::Stx,
        0x84 | 0x8C | 0x94 => Operation::Sty,
        0xAA => Operation::Tax,
        0xA8 => Operation::Tay,
        0xBA => Operation::Tsx,
        0x8A => Operation::Txa,
        0x9A => Operation::Txs,
        0x98 => Operation::Tya,
        0xA3 | 0xA7 | 0xAF | 0xB3 | 0xB7 | 0xBB | 0xBF => Operation::Lax,
        0x83 | 0x87 | 0x8F | 0x97 => Operation::Sax,
        0xC3 | 0xC7 | 0xCF | 0xD3 | 0xD7 | 0xDB | 0xDF => Operation::Dcp,
        0xE3 | 0xE7 | 0xEF | 0xF3 | 0xF7 | 0xFB | 0xFF => Operation::Isb,
        0x03 | 0x07 | 0x0F | 0x13 | 0x17 | 0x1B | 0x1F => Operation::Slo,
        0x23 | 0x27 | 0x2F | 0x33 | 0x37 | 0x3B | 0x3F => Operation::Rla,
        0x43 | 0x47 | 0x4F | 0x53 | 0x57 | 0x5B | 0x5F => Operation::Sre,
        0x63 | 0x67 | 0x6F | 0x73 | 0x77 | 0x7B | 0x7F => Operation::Rra,
        _ => Operation::Nop,
    }
}

/// The cycles that `opcode` takes before any page-crossing or branch
/// penalty.
pub open spec fn base_cycles(opcode: u8) -> u32 {
    match opcode {
        0x04 | 0x05 | 0x08 | 0x24 | 0x25 | 0x44 | 0x45 | 0x48 | 0x4C | 0x64 | 0x65
        | 0x84 | 0x85 | 0x86 | 0x87 | 0xA4 | 0xA5 | 0xA6 | 0xA7 | 0xC4 | 0xC5 | 0xE4
        | 0xE5 => 3,
        0x0C | 0x0D | 0x14 | 0x15 | 0x19 | 0x1C | 0x1D | 0x28 | 0x2C | 0x2D | 0x34
        | 0x35 | 0x39 | 0x3C | 0x3D | 0x4D | 0x54 | 0x55 | 0x59 | 0x5C | 0x5D | 0x68
        | 0x6D | 0x74 | 0x75 | 0x79 | 0x7C | 0x7D | 0x8C | 0x8D | 0x8E | 0x8F | 0x94
        | 0x95 | 0x96 | 0x97 | 0xAC | 0xAD | 0xAE | 0xAF | 0xB4 | 0xB5 | 0xB6 | 0xB7
        | 0xB9 | 0xBB | 0xBC | 0xBD | 0xBE | 0xBF | 0xCC | 0xCD | 0xD4 | 0xD5 | 0xD9
        | 0xDC | 0xDD | 0xEC | 0xED | 0xF4 | 0xF5 | 0xF9 | 0xFC | 0xFD => 4,
        0x06 | 0x07 | 0x11 | 0x26 | 0x27 | 0x31 | 0x46 | 0x47 | 0x51 | 0x66 | 0x67
        | 0x6C | 0x71 | 0x99 | 0x9B | 0x9C | 0x9D | 0x9E | 0x9F | 0xB1 | 0xB3 | 0xC6
        | 0xC7 | 0xD1 | 0xE6 | 0xE7 | 0xF1 => 5,
        0x01 | 0x0E | 0x0F | 0x16 | 0x17 | 0x20 | 0x21 | 0x2E | 0x2F | 0x36 | 0x37
        | 0x40 | 0x41 | 0x4E | 0x4F | 0x56 | 0x57 | 0x60 | 0x61 | 0x6E | 0x6F | 0x76
        | 0x77 | 0x81 | 0x83 | 0x91 | 0x93 | 0xA1 | 0xA3 | 0xC1 | 0xCE | 0xCF | 0xD6
        | 0xD7 | 0xE1 | 0xEE | 0xEF | 0xF6 | 0xF7 => 6,
        0x00 | 0x1B | 0x1E | 0x1F | 0x3B | 0x3E | 0x3F | 0x5B | 0x5E | 0x5F | 0x7B
        | 0x7E | 0x7F | 0xDB | 0xDE | 0xDF | 0xFB | 0xFE | 0xFF => 7,
        0x03 | 0x13 | 0x23 | 0x33 | 0x43 | 0x53 | 0x63 | 0x73 | 0xC3 | 0xD3 | 0xE3
        | 0xF3 => 8,
        _ => 2,
    }
}

impl CPU {
    /// The processor after the operand bytes of an instruction in `mode`
    /// were read from `m`.
    ///
    /// Opaque: `reveal` it to follow a given opcode.
    #[verifier::opaque]
    pub open spec fn resolve<T: Backplane>(self, mode: AddrMode, m: T::Model) -> CPU {
        match mode {
            AddrMode::Implied => self,
            AddrMode::Accumulator => self.spec_addr_accumulator(),
            AddrMode::Immediate => self.spec_addr_immediate(),
            AddrMode::ZeroPage => self.spec_addr_zeropage::<T>(m),
            AddrMode::ZeroPageX => self.spec_addr_zeropage_x::<T>(m),
            AddrMode::ZeroPageY => self.spec_addr_zeropage_y::<T>(m),
            AddrMode::Relative => self.spec_addr_relative_branch::<T>(m),
            AddrMode::Absolute => self.spec_addr_absolute::<T>(m),
            AddrMode::AbsoluteX => self.spec_addr_absolute_x::<T>(m),
            AddrMode::AbsoluteY => self.spec_addr_absolute_y::<T>(m),
            AddrMode::Indirect => self.spec_addr_indirect::<T>(m),
            AddrMode::IndirectX => self.spec_addr_indirect_x::<T>(m),
            AddrMode::IndirectY => self.spec_addr_indirect_y::<T>(m),
        }
    }

    /// Whether the branch `op` is taken with the flags in `status`. An
    /// operation that is no branch never is.
    pub open spec fn branch_taken(op: Operation, status: u8) -> bool {
        match op {
            Operation::Bcc => !flags::flag_on(status, FLAG_CARRY),
            Operation::Bcs => flags::flag_on(status, FLAG_CARRY),
            Operation::Beq => flags::flag_on(status, FLAG_ZERO),
            Operation::Bmi => flags::flag_on(status, FLAG_SIGN),
            Operation::Bne => !flags::flag_on(status, FLAG_ZERO),
            Operation::Bpl => !flags::flag_on(status, FLAG_SIGN),
            Operation::Bvc => !flags::flag_on(status, FLAG_OVERFLOW),
            Operation::Bvs => flags::flag_on(status, FLAG_OVERFLOW),
            _ => false,
        }
    }

    /// The processor and the host after `op` was performed on the resolved
    /// operand.
    ///
    /// Opaque: `reveal` it to follow a given opcode.
    #[verifier::opaque]
    pub open spec fn perform<T: Backplane>(self, op: Operation, m: T::Model) -> (CPU, T::Model) {
        match op {
            Operation::Bcc
            | Operation::Bcs
            | Operation::Beq
            | Operation::Bmi
            | Operation::Bne
            | Operation::Bpl
            | Operation::Bvc
            | Operation::Bvs => (self.spec_branch(CPU::branch_taken(op, self.status)), m),
            Operation::Nop
            | Operation::Lax
            | Operation::Sax
            | Operation::Dcp
            | Operation::Isb
            | Operation::Slo
            | Operation::Rla
            | Operation::Sre
            | Operation::Rra => (self.spec_inst_nop(), m),
            Operation::Adc => self.spec_inst_adc::<T>(m),
            Operation::And => self.spec_inst_and::<T>(m),
            Operation::Asl => self.spec_inst_asl::<T>(m),
            Operation::Bit => self.spec_inst_bit::<T>(m),
            Operation::Brk => self.spec_inst_brk::<T>(m),
            Operation::Clc => (self.with_flag(FLAG_CARRY, false), m),
            Operation::Cld => (self.with_flag(FLAG_DECIMAL, false), m),
            Operation::Cli => (self.with_flag(FLAG_INTERRUPT, false), m),
            Operation::Clv => (self.with_flag(FLAG_OVERFLOW, false), m),
            Operation::Cmp => self.spec_inst_cmp::<T>(m),
            Operation::Cpx => self.spec_inst_cpx::<T>(m),
            Operation::Cpy => self.spec_inst_cpy::<T>(m),
            Operation::Dec => self.spec_inst_dec::<T>(m),
            Operation::Dex => (self.with_x(bits::wrap8(self.x - 1)), m),
            Operation::Dey => (self.with_y(bits::wrap8(self.y - 1)), m),
            Operation::Eor => self.spec_inst_eor::<T>(m),
            Operation::Inc => self.spec_inst_inc::<T>(m),
            Operation::Inx => (self.with_x(bits::wrap8(self.x + 1)), m),
            Operation::Iny => (self.with_y(bits::wrap8(self.y + 1)), m),
            Operation::Jmp => (CPU { pc: self.ea, ..self }, m),
            Operation::Jsr => self.spec_inst_jsr::<T>(m),
            Operation::Lda => self.spec_inst_lda::<T>(m),
            Operation::Ldx => self.spec_inst_ldx::<T>(m),
            Operation::Ldy => self.spec_inst_ldy::<T>(m),
            Operation::Lsr => self.spec_inst_lsr::<T>(m),
            Operation::Ora => self.spec_inst_ora::<T>(m),
            Operation::Pha => self.spec_push8::<T>(m, self.a),
            Operation::Php => self.spec_push8::<T>(
                m,
                flags::put_flag(self.status, flags::FLAG_BREAK, true),
            ),
            Operation::Pla => self.spec_inst_pla::<T>(m),
            Operation::Plp => self.spec_inst_plp::<T>(m),
            Operation::Rol => self.spec_inst_rol::<T>(m),
            Operation::Ror => self.spec_inst_ror::<T>(m),
            Operation::Rti => self.spec_inst_rti::<T>(m),
            Operation::Rts => self.spec_inst_rts::<T>(m),
            Operation::Sbc => self.spec_inst_sbc::<T>(m),
            Operation::Sec => (self.with_flag(FLAG_CARRY, true), m),
            Operation::Sed => (self.with_flag(FLAG_DECIMAL, true), m),
            Operation::Sei => (self.with_flag(FLAG_INTERRUPT, true), m),
            Operation::Sta => self.spec_putvalue::<T>(m, self.a),
            Operation::Stx => self.spec_putvalue::<T>(m, self.x),
            Operation::Sty => self.spec_putvalue::<T>(m, self.y),
            Operation::Tax => (self.with_x(self.a), m),
            Operation::Tay => (self.with_y(self.a), m),
            Operation::Tsx => (self.with_x(self.sp), m),
            Operation::Txa => (self.with_a(self.x), m),
            Operation::Txs => (CPU { sp: self.x, ..self }, m),
            Operation::Tya => (self.with_a(self.y), m),
        }
    }

    /// Whether `op` is one of the eight branches.
    pub open spec fn is_branch(op: Operation) -> bool {
        match op {
            Operation::Bcc
            | Operation::Bcs
            | Operation::Beq
            | Operation::Bmi
            | Operation::Bne
            | Operation::Bpl
            | Operation::Bvc
            | Operation::Bvs => true,
            _ => false,
        }
    }

    /// Every branch opcode takes a relative operand and two base cycles,
    /// and performing it is branching on its condition.
    pub proof fn lemma_branch_opcode<T: Backplane>(self, m: T::Model, opcode: u8)
        requires
            CPU::is_branch(operation_of(opcode)),
        ensures
            mode_of(opcode) == AddrMode::Relative,
            base_cycles(opcode) == 2,
            self.resolve::<T>(mode_of(opcode), m) == self.spec_addr_relative_branch::<T>(m),
            self.perform::<T>(operation_of(opcode), m) == (
                self.spec_branch(CPU::branch_taken(operation_of(opcode), self.status)),
                m,
            ),
    {
        reveal(CPU::resolve);
        reveal(CPU::perform);
    }

    /// The processor, the host and the base cycle count after the
    /// instruction whose opcode was fetched into `opcode` was resolved and
    /// performed.
    pub open spec fn spec_run_one_op<T: Backplane>(self, m: T::Model) -> (CPU, T::Model, u32) {
        let (c, m1) = self.resolve::<T>(mode_of(self.opcode), m).perform::<T>(
            operation_of(self.opcode),
            m,
        );
        (c, m1, base_cycles(self.opcode))
    }

    /// Resolves the operand of the fetched opcode and performs its
    /// operation. Returns the opcode's base cycle count; what a taken
    /// branch or a decimal addition costs on top is already added to
    /// `clockticks`.
    #[verifier::rlimit(100)]
    pub fn run_one_op<T: Backplane>(&mut self, mem: &mut T) -> (ticks: u32)
        requires
            old(self).clockticks <= u32::MAX - 2,
        ensures
            (*final(self), final(mem)@, ticks) == old(self).spec_run_one_op::<T>(old(mem)@),
    {
        reveal(CPU::resolve);
        reveal(CPU::perform);
        match self.opcode {
            0x00 => {
                self.addr_implied(mem);
                self.inst_brk(mem);
                7
            },
            0x01 => {
                self.addr_indirect_x(mem);
                self.inst_ora(mem);
                6
            },
            0x02 => {
                self.addr_implied(mem);
                self.inst_nop(mem);
                2
            },
            0x03 => {
                self.addr_indirect_x(mem);
                self.inst_slo(mem);
                8
            },
            0x04 => {
                self.addr_zeropage(mem);
                self.inst_nop(mem);
                3
            },
            0x05 => {
                self.addr_zeropage(mem);
                self.inst_ora(mem);
                3
            },
            0x06 => {
                self.addr_zeropage(mem);
                self.inst_asl(mem);
                5
            },
            0x07 => {
                self.addr_zeropage(mem);
                self.inst_slo(mem);
                5
            },
            0x08 => {
                self.addr_implied(mem);
                self.inst_php(mem);
                3
            },
            0x09 => {
                self.addr_immediate(mem);
                self.inst_ora(mem);
                2
            },
            0x0A => {
                self.addr_accumulator(mem);
                self.inst_asl(mem);
                2
            },
            0x0B => {
                self.addr_immediate(mem);
                self.inst_nop(mem);
                2
            },
            0x0C => {
                self.addr_absolute(mem);
                self.inst_nop(mem);
                4
            },
            0x0D => {
                self.addr_absolute(mem);
                self.inst_ora(mem);
                4
            },
            0x0E => {
                self.addr_absolute(mem);
                self.inst_asl(mem);
                6
            },
            0x0F => {
                self.addr_absolute(mem);
                self.inst_slo(mem);
                6
            },
            0x10 => {
                self.addr_relative_branch(mem);
                self.inst_bpl(mem);
                2
            },
            0x11 => {
                self.addr_indirect_y(mem);
                self.inst_ora(mem);
                5
            },
            0x12 => {
                self.addr_implied(mem);
                self.inst_nop(mem);
                2
            },
            0x13 => {
                self.addr_indirect_y(mem);
                self.inst_slo(mem);
                8
            },
            0x14 => {
                self.addr_zeropage_x(mem);
                self.inst_nop(mem);
                4
            },
            0x15 => {
                self.addr_zeropage_x(mem);
                self.inst_ora(mem);
                4
            },
            0x16 => {
                self.addr_zeropage_x(mem);
                self.inst_asl(mem);
                6
            },
            0x17 => {
                self.addr_zeropage_x(mem);
                self.inst_slo(mem);
                6
            },
            0x18 => {
                self.addr_implied(mem);
                self.inst_clc(mem);
                2
            },
            0x19 => {
                self.addr_absolute_y(mem);
                self.inst_ora(mem);
                4
            },
            0x1A => {
                self.addr_implied(mem);
                self.inst_nop(mem);
                2
            },
            0x1B => {
                self.addr_absolute_y(mem);
                self.inst_slo(mem);
                7
            },
            0x1C => {
                self.addr_absolute_x(mem);
                self.inst_nop(mem);
                4
            },
            0x1D => {
                self.addr_absolute_x(mem);
                self.inst_ora(mem);
                4
            },
            0x1E => {
                self.addr_absolute_x(mem);
                self.inst_asl(mem);
                7
            },
            0x1F => {
                self.addr_absolute_x(mem);
                self.inst_slo(mem);
                7
            },
            0x20 => {
                self.addr_absolute(mem);
                self.inst_jsr(mem);
                6
            },
            0x21 => {
                self.addr_indirect_x(mem);
                self.inst_and(mem);
                6
            },
            0x22 => {
                self.addr_implied(mem);
                self.inst_nop(mem);
                2
            },
            0x23 => {
                self.addr_indirect_x(mem);
                self.inst_rla(mem);
                8
            },
            0x24 => {
                self.addr_zeropage(mem);
                self.inst_bit(mem);
                3
            },
            0x25 => {
                self.addr_zeropage(mem);
                self.inst_and(mem);
                3
            },
            0x26 => {
                self.addr_zeropage(mem);
                self.inst_rol(mem);
                5
            },
            0x27 => {
                self.addr_zeropage(mem);
                self.inst_rla(mem);
                5
            },
            0x28 => {
                self.addr_implied(mem);
                self.inst_plp(mem);
                4
            },
            0x29 => {
                self.addr_immediate(mem);
                self.inst_and(mem);
                2
            },
            0x2A => {
                self.addr_accumulator(mem);
                self.inst_rol(mem);
                2
            },
            0x2B => {
                self.addr_immediate(mem);
                self.inst_nop(mem);
                2
            },
            0x2C => {
                self.addr_absolute(mem);
                self.inst_bit(mem);
                4
            },
            0x2D => {
                self.addr_absolute(mem);
                self.inst_and(mem);
                4
            },
            0x2E => {
                self.addr_absolute(mem);
                self.inst_rol(mem);
                6
            },
            0x2F => {
                self.addr_absolute(mem);
                self.inst_rla(mem);
                6
            },
            0x30 => {
                self.addr_relative_branch(mem);
                self.inst_bmi(mem);
                2
            },
            0x31 => {
                self.addr_indirect_y(mem);
                self.inst_and(mem);
                5
            },
            0x32 => {
                self.addr_implied(mem);
                self.inst_nop(mem);
                2
            },
            0x33 => {
                self.addr_indirect_y(mem);
                self.inst_rla(mem);
                8
            },
            0x34 => {
                self.addr_zeropage_x(mem);
                self.inst_nop(mem);
                4
            },
            0x35 => {
                self.addr_zeropage_x(mem);
                self.inst_and(mem);
                4
            },
            0x36 => {
                self.addr_zeropage_x(mem);
                self.inst_rol(mem);
                6
            },
            0x37 => {
                self.addr_zeropage_x(mem);
                self.inst_rla(mem);
                6
            },
            0x38 => {
                self.addr_implied(mem);
                self.inst_sec(mem);
                2
            },
            0x39 => {
                self.addr_absolute_y(mem);
                self.inst_and(mem);
                4
            },
            0x3A => {
                self.addr_implied(mem);
                self.inst_nop(mem);
                2
            },
            0x3B => {
                self.addr_absolute_y(mem);
                self.inst_rla(mem);
                7
            },
            0x3C => {
                self.addr_absolute_x(mem);
                self.inst_nop(mem);
                4
            },
            0x3D => {
                self.addr_absolute_x(mem);
                self.inst_and(mem);
                4
            },
            0x3E => {
                self.addr_absolute_x(mem);
                self.inst_rol(mem);
                7
            },
            0x3F => {
                self.addr_absolute_x(mem);
                self.inst_rla(mem);
                7
            },
            0x40 => {
                self.addr_implied(mem);
                self.inst_rti(mem);
                6
            },
            0x41 => {
                self.addr_indirect_x(mem);
                self.inst_eor(mem);
                6
            },
            0x42 => {
                self.addr_implied(mem);
                self.inst_nop(mem);
                2
            },
            0x43 => {
                self.addr_indirect_x(mem);
                self.inst_sre(mem);
                8
            },
            0x44 => {
                self.addr_zeropage(mem);
                self.inst_nop(mem);
                3
            },
            0x45 => {
                self.addr_zeropage(mem);
                self.inst_eor(mem);
                3
            },
            0x46 => {
                self.addr_zeropage(mem);
                self.inst_lsr(mem);
                5
            },
            0x47 => {
                self.addr_zeropage(mem);
                self.inst_sre(mem);
                5
            },
            0x48 => {
                self.addr_implied(mem);
                self.inst_pha(mem);
                3
            },
            0x49 => {
                self.addr_immediate(mem);
                self.inst_eor(mem);
                2
            },
            0x4A => {
                self.addr_accumulator(mem);
                self.inst_lsr(mem);
                2
            },
            0x4B => {
                self.addr_immediate(mem);
                self.inst_nop(mem);
                2
            },
            0x4C => {
                self.addr_absolute(mem);
                self.inst_jmp(mem);
                3
            },
            0x4D => {
                self.addr_absolute(mem);
                self.inst_eor(mem);
                4
            },
            0x4E => {
                self.addr_absolute(mem);
                self.inst_lsr(mem);
                6
            },
            0x4F => {
                self.addr_absolute(mem);
                self.inst_sre(mem);
                6
            },
            0x50 => {
                self.addr_relative_branch(mem);
                self.inst_bvc(mem);
                2
            },
            0x51 => {
                self.addr_indirect_y(mem);
                self.inst_eor(mem);
                5
            },
            0x52 => {
                self.addr_implied(mem);
                self.inst_nop(mem);
                2
            },
            0x53 => {
                self.addr_indirect_y(mem);
                self.inst_sre(mem);
                8
            },
            0x54 => {
                self.addr_zeropage_x(mem);
                self.inst_nop(mem);
                4
            },
            0x55 => {
                self.addr_zeropage_x(mem);
                self.inst_eor(mem);
                4
            },
            0x56 => {
                self.addr_zeropage_x(mem);
                self.inst_lsr(mem);
                6
            },
            0x57 => {
                self.addr_zeropage_x(mem);
                self.inst_sre(mem);
                6
            },
            0x58 => {
                self.addr_implied(mem);
                self.inst_cli(mem);
                2
            },
            0x59 => {
                self.addr_absolute_y(mem);
                self.inst_eor(mem);
                4
            },
            0x5A => {
                self.addr_implied(mem);
                self.inst_nop(mem);
                2
            },
            0x5B => {
                self.addr_absolute_y(mem);
                self.inst_sre(mem);
                7
            },
            0x5C => {
                self.addr_absolute_x(mem);
                self.inst_nop(mem);
                4
            },
            0x5D => {
                self.addr_absolute_x(mem);
                self.inst_eor(mem);
                4
            },
            0x5E => {
                self.addr_absolute_x(mem);
                self.inst_lsr(mem);
                7
            },
            0x5F => {
                self.addr_absolute_x(mem);
                self.inst_sre(mem);
                7
            },
            0x60 => {
                self.addr_implied(mem);
                self.inst_rts(mem);
                6
            },
            0x61 => {
                self.addr_indirect_x(mem);
                self.inst_adc(mem);
                6
            },
            0x62 => {
                self.addr_implied(mem);
                self.inst_nop(mem);
                2
            },
            0x63 => {
                self.addr_indirect_x(mem);
                self.inst_rra(mem);
                8
            },
            0x64 => {
                self.addr_zeropage(mem);
                self.inst_nop(mem);
                3
            },
            0x65 => {
                self.addr_zeropage(mem);
                self.inst_adc(mem);
                3
            },
            0x66 => {
                self.addr_zeropage(mem);
                self.inst_ror(mem);
                5
            },
            0x67 => {
                self.addr_zeropage(mem);
                self.inst_rra(mem);
                5
            },
            0x68 => {
                self.addr_implied(mem);
                self.inst_pla(mem);
                4
            },
            0x69 => {
                self.addr_immediate(mem);
                self.inst_adc(mem);
                2
            },
            0x6A => {
                self.addr_accumulator(mem);
                self.inst_ror(mem);
                2
            },
            0x6B => {
                self.addr_immediate(mem);
                self.inst_nop(mem);
                2
            },
            0x6C => {
                self.addr_indirect(mem);
                self.inst_jmp(mem);
                5
            },
            0x6D => {
                self.addr_absolute(mem);
                self.inst_adc(mem);
                4
            },
            0x6E => {
                self.addr_absolute(mem);
                self.inst_ror(mem);
                6
            },
            0x6F => {
                self.addr_absolute(mem);
                self.inst_rra(mem);
                6
            },
            0x70 => {
                self.addr_relative_branch(mem);
                self.inst_bvs(mem);
                2
            },
            0x71 => {
                self.addr_indirect_y(mem);
                self.inst_adc(mem);
                5
            },
            0x72 => {
                self.addr_implied(mem);
                self.inst_nop(mem);
                2
            },
            0x73 => {
                self.addr_indirect_y(mem);
                self.inst_rra(mem);
                8
            },
            0x74 => {
                self.addr_zeropage_x(mem);
                self.inst_nop(mem);
                4
            },
            0x75 => {
                self.addr_zeropage_x(mem);
                self.inst_adc(mem);
                4
            },
            0x76 => {
                self.addr_zeropage_x(mem);
                self.inst_ror(mem);
                6
            },
            0x77 => {
                self.addr_zeropage_x(mem);
                self.inst_rra(mem);
                6
            },
            0x78 => {
                self.addr_implied(mem);
                self.inst_sei(mem);
                2
            },
            0x79 => {
                self.addr_absolute_y(mem);
                self.inst_adc(mem);
                4
            },
            0x7A => {
                self.addr_implied(mem);
                self.inst_nop(mem);
                2
            },
            0x7B => {
                self.addr_absolute_y(mem);
                self.inst_rra(mem);
                7
            },
            0x7C => {
                self.addr_absolute_x(mem);
                self.inst_nop(mem);
                4
            },
            0x7D => {
                self.addr_absolute_x(mem);
                self.inst_adc(mem);
                4
            },
            0x7E => {
                self.addr_absolute_x(mem);
                self.inst_ror(mem);
                7
            },
            0x7F => {
                self.addr_absolute_x(mem);
                self.inst_rra(mem);
                7
            },
            0x80 => {
                self.addr_immediate(mem);
                self.inst_nop(mem);
                2
            },
            0x81 => {
                self.addr_indirect_x(mem);
                self.inst_sta(mem);
                6
            },
            0x82 => {
                self.addr_immediate(mem);
                self.inst_nop(mem);
                2
            },
            0x83 => {
                self.addr_indirect_x(mem);
                self.inst_sax(mem);
                6
            },
            0x84 => {
                self.addr_zeropage(mem);
                self.inst_sty(mem);
                3
            },
            0x85 => {
                self.addr_zeropage(mem);
                self.inst_sta(mem);
                3
            },
            0x86 => {
                self.addr_zeropage(mem);
                self.inst_stx(mem);
                3
            },
            0x87 => {
                self.addr_zeropage(mem);
                self.inst_sax(mem);
                3
            },
            0x88 => {
                self.addr_implied(mem);
                self.inst_dey(mem);
                2
            },
            0x89 => {
                self.addr_immediate(mem);
                self.inst_nop(mem);
                2
            },
            0x8A => {
                self.addr_implied(mem);
                self.inst_txa(mem);
                2
            },
            0x8B => {
                self.addr_immediate(mem);
                self.inst_nop(mem);
                2
            },
            0x8C => {
                self.addr_absolute(mem);
                self.inst_sty(mem);
                4
            },
            0x8D => {
                self.addr_absolute(mem);
                self.inst_sta(mem);
                4
            },
            0x8E => {
                self.addr_absolute(mem);
                self.inst_stx(mem);
                4
            },
            0x8F => {
                self.addr_absolute(mem);
                self.inst_sax(mem);
                4
            },
            0x90 => {
                self.addr_relative_branch(mem);
                self.inst_bcc(mem);
                2
            },
            0x91 => {
                self.addr_indirect_y(mem);
                self.inst_sta(mem);
                6
            },
            0x92 => {
                self.addr_implied(mem);
                self.inst_nop(mem);
                2
            },
            0x93 => {
                self.addr_indirect_y(mem);
                self.inst_nop(mem);
                6
            },
            0x94 => {
                self.addr_zeropage_x(mem);
                self.inst_sty(mem);
                4
            },
            0x95 => {
                self.addr_zeropage_x(mem);
                self.inst_sta(mem);
                4
            },
            0x96 => {
                self.addr_zeropage_y(mem);
                self.inst_stx(mem);
                4
            },
            0x97 => {
                self.addr_zeropage_y(mem);
                self.inst_sax(mem);
                4
            },
            0x98 => {
                self.addr_implied(mem);
                self.inst_tya(mem);
                2
            },
            0x99 => {
                self.addr_absolute_y(mem);
                self.inst_sta(mem);
                5
            },
            0x9A => {
                self.addr_implied(mem);
                self.inst_txs(mem);
                2
            },
            0x9B => {
                self.addr_absolute_y(mem);
                self.inst_nop(mem);
                5
            },
            0x9C => {
                self.addr_absolute_x(mem);
                self.inst_nop(mem);
                5
            },
            0x9D => {
                self.addr_absolute_x(mem);
                self.inst_sta(mem);
                5
            },
            0x9E => {
                self.addr_absolute_y(mem);
                self.inst_nop(mem);
                5
            },
            0x9F => {
                self.addr_absolute_y(mem);
                self.inst_nop(mem);
                5
            },
            0xA0 => {
                self.addr_immediate(mem);
                self.inst_ldy(mem);
                2
            },
            0xA1 => {
                self.addr_indirect_x(mem);
                self.inst_lda(mem);
                6
            },
            0xA2 => {
                self.addr_immediate(mem);
                self.inst_ldx(mem);
                2
            },
            0xA3 => {
                self.addr_indirect_x(mem);
                self.inst_lax(mem);
                6
            },
            0xA4 => {
                self.addr_zeropage(mem);
                self.inst_ldy(mem);
                3
            },
            0xA5 => {
                self.addr_zeropage(mem);
                self.inst_lda(mem);
                3
            },
            0xA6 => {
                self.addr_zeropage(mem);
                self.inst_ldx(mem);
                3
            },
            0xA7 => {
                self.addr_zeropage(mem);
                self.inst_lax(mem);
                3
            },
            0xA8 => {
                self.addr_implied(mem);
                self.inst_tay(mem);
                2
            },
            0xA9 => {
                self.addr_immediate(mem);
                self.inst_lda(mem);
                2
            },
            0xAA => {
                self.addr_implied(mem);
                self.inst_tax(mem);
                2
            },
            0xAB => {
                self.addr_immediate(mem);
                self.inst_nop(mem);
                2
            },
            0xAC => {
                self.addr_absolute(mem);
                self.inst_ldy(mem);
                4
            },
            0xAD => {
                self.addr_absolute(mem);
                self.inst_lda(mem);
                4
            },
            0xAE => {
                self.addr_absolute(mem);
                self.inst_ldx(mem);
                4
            },
            0xAF => {
                self.addr_absolute(mem);
                self.inst_lax(mem);
                4
            },
            0xB0 => {
                self.addr_relative_branch(mem);
                self.inst_bcs(mem);
                2
            },
            0xB1 => {
                self.addr_indirect_y(mem);
                self.inst_lda(mem);
                5
            },
            0xB2 => {
                self.addr_implied(mem);
                self.inst_nop(mem);
                2
            },
            0xB3 => {
                self.addr_indirect_y(mem);
                self.inst_lax(mem);
                5
            },
            0xB4 => {
                self.addr_zeropage_x(mem);
                self.inst_ldy(mem);
                4
            },
            0xB5 => {
                self.addr_zeropage_x(mem);
                self.inst_lda(mem);
                4
            },
            0xB6 => {
                self.addr_zeropage_y(mem);
                self.inst_ldx(mem);
                4
            },
            0xB7 => {
                self.addr_zeropage_y(mem);
                self.inst_lax(mem);
                4
            },
            0xB8 => {
                self.addr_implied(mem);
                self.inst_clv(mem);
                2
            },
            0xB9 => {
                self.addr_absolute_y(mem);
                self.inst_lda(mem);
                4
            },
            0xBA => {
                self.addr_implied(mem);
                self.inst_tsx(mem);
                2
            },
            0xBB => {
                self.addr_absolute_y(mem);
                self.inst_lax(mem);
                4
            },
            0xBC => {
                self.addr_absolute_x(mem);
                self.inst_ldy(mem);
                4
            },
            0xBD => {
                self.addr_absolute_x(mem);
                self.inst_lda(mem);
                4
            },
            0xBE => {
                self.addr_absolute_y(mem);
                self.inst_ldx(mem);
                4
            },
            0xBF => {
                self.addr_absolute_y(mem);
                self.inst_lax(mem);
                4
            },
            0xC0 => {
                self.addr_immediate(mem);
                self.inst_cpy(mem);
                2
            },
            0xC1 => {
                self.addr_indirect_x(mem);
                self.inst_cmp(mem);
                6
            },
            0xC2 => {
                self.addr_immediate(mem);
                self.inst_nop(mem);
                2
            },
            0xC3 => {
                self.addr_indirect_x(mem);
                self.inst_dcp(mem);
                8
            },
            0xC4 => {
                self.addr_zeropage(mem);
                self.inst_cpy(mem);
                3
            },
            0xC5 => {
                self.addr_zeropage(mem);
                self.inst_cmp(mem);
                3
            },
            0xC6 => {
                self.addr_zeropage(mem);
                self.inst_dec(mem);
                5
            },
            0xC7 => {
                self.addr_zeropage(mem);
                self.inst_dcp(mem);
                5
            },
            0xC8 => {
                self.addr_implied(mem);
                self.inst_iny(mem);
                2
            },
            0xC9 => {
                self.addr_immediate(mem);
                self.inst_cmp(mem);
                2
            },
            0xCA => {
                self.addr_implied(mem);
                self.inst_dex(mem);
                2
            },
            0xCB => {
                self.addr_immediate(mem);
                self.inst_nop(mem);
                2
            },
            0xCC => {
                self.addr_absolute(mem);
                self.inst_cpy(mem);
                4
            },
            0xCD => {
                self.addr_absolute(mem);
                self.inst_cmp(mem);
                4
            },
            0xCE => {
                self.addr_absolute(mem);
                self.inst_dec(mem);
                6
            },
            0xCF => {
                self.addr_absolute(mem);
                self.inst_dcp(mem);
                6
            },
            0xD0 => {
                self.addr_relative_branch(mem);
                self.inst_bne(mem);
                2
            },
            0xD1 => {
                self.addr_indirect_y(mem);
                self.inst_cmp(mem);
                5
            },
            0xD2 => {
                self.addr_implied(mem);
                self.inst_nop(mem);
                2
            },
            0xD3 => {
                self.addr_indirect_y(mem);
                self.inst_dcp(mem);
                8
            },
            0xD4 => {
                self.addr_zeropage_x(mem);
                self.inst_nop(mem);
                4
            },
            0xD5 => {
                self.addr_zeropage_x(mem);
                self.inst_cmp(mem);
                4
            },
            0xD6 => {
                self.addr_zeropage_x(mem);
                self.inst_dec(mem);
                6
            },
            0xD7 => {
                self.addr_zeropage_x(mem);
                self.inst_dcp(mem);
                6
            },
            0xD8 => {
                self.addr_implied(mem);
                self.inst_cld(mem);
                2
            },
            0xD9 => {
                self.addr_absolute_y(mem);
                self.inst_cmp(mem);
                4
            },
            0xDA => {
                self.addr_implied(mem);
                self.inst_nop(mem);
                2
            },
            0xDB => {
                self.addr_absolute_y(mem);
                self.inst_dcp(mem);
                7
            },
            0xDC => {
                self.addr_absolute_x(mem);
                self.inst_nop(mem);
                4
            },
            0xDD => {
                self.addr_absolute_x(mem);
                self.inst_cmp(mem);
                4
            },
            0xDE => {
                self.addr_absolute_x(mem);
                self.inst_dec(mem);
                7
            },
            0xDF => {
                self.addr_absolute_x(mem);
                self.inst_dcp(mem);
                7
            },
            0xE0 => {
                self.addr_immediate(mem);
                self.inst_cpx(mem);
                2
            },
            0xE1 => {
                self.addr_indirect_x(mem);
                self.inst_sbc(mem);
                6
            },
            0xE2 => {
                self.addr_immediate(mem);
                self.inst_nop(mem);
                2
            },
            0xE3 => {
                self.addr_indirect_x(mem);
                self.inst_isb(mem);
                8
            },
            0xE4 => {
                self.addr_zeropage(mem);
                self.inst_cpx(mem);
                3
            },
            0xE5 => {
                self.addr_zeropage(mem);
                self.inst_sbc(mem);
                3
            },
            0xE6 => {
                self.addr_zeropage(mem);
                self.inst_inc(mem);
                5
            },
            0xE7 => {
                self.addr_zeropage(mem);
                self.inst_isb(mem);
                5
            },
            0xE8 => {
                self.addr_implied(mem);
                self.inst_inx(mem);
                2
            },
            0xE9 => {
                self.addr_immediate(mem);
                self.inst_sbc(mem);
                2
            },
            0xEA => {
                self.addr_implied(mem);
                self.inst_nop(mem);
                2
            },
            0xEB => {
                self.addr_immediate(mem);
                self.inst_sbc(mem);
                2
            },
            0xEC => {
                self.addr_absolute(mem);
                self.inst_cpx(mem);
                4
            },
            0xED => {
                self.addr_absolute(mem);
                self.inst_sbc(mem);
                4
            },
            0xEE => {
                self.addr_absolute(mem);
                self.inst_inc(mem);
                6
            },
            0xEF => {
                self.addr_absolute(mem);
                self.inst_isb(mem);
                6
            },
            0xF0 => {
                self.addr_relative_branch(mem);
                self.inst_beq(mem);
                2
            },
            0xF1 => {
                self.addr_indirect_y(mem);
                self.inst_sbc(mem);
                5
            },
            0xF2 => {
                self.addr_implied(mem);
                self.inst_nop(mem);
                2
            },
            0xF3 => {
                self.addr_indirect_y(mem);
                self.inst_isb(mem);
                8
            },
            0xF4 => {
                self.addr_zeropage_x(mem);
                self.inst_nop(mem);
                4
            },
            0xF5 => {
                self.addr_zeropage_x(mem);
                self.inst_sbc(mem);
                4
            },
            0xF6 => {
                self.addr_zeropage_x(mem);
                self.inst_inc(mem);
                6
            },
            0xF7 => {
                self.addr_zeropage_x(mem);
                self.inst_isb(mem);
                6
            },
            0xF8 => {
                self.addr_implied(mem);
                self.inst_sed(mem);
                2
            },
            0xF9 => {
                self.addr_absolute_y(mem);
                self.inst_sbc(mem);
                4
            },
            0xFA => {
                self.addr_implied(mem);
                self.inst_nop(mem);
                2
            },
            0xFB => {
                self.addr_absolute_y(mem);
                self.inst_isb(mem);
                7
            },
            0xFC => {
                self.addr_absolute_x(mem);
                self.inst_nop(mem);
                4
            },
            0xFD => {
                self.addr_absolute_x(mem);
                self.inst_sbc(mem);
                4
            },
            0xFE => {
                self.addr_absolute_x(mem);
                self.inst_inc(mem);
                7
            },
            0xFF => {
                self.addr_absolute_x(mem);
                self.inst_isb(mem);
                7
            },
        }
    }
}

} // verus!
