//! What holds of the processor whatever program it runs.

use vstd::prelude::*;
use crate::backplane;
use crate::backplane::Backplane;
use crate::bits;
use crate::cpu::{BASE_STACK, CPU};
use crate::dispatch;
use crate::flags;
use crate::flags::{FLAG_CARRY, FLAG_CONSTANT, FLAG_SIGN, FLAG_ZERO};
use crate::run::MAX_INSTRUCTION_CYCLES;

verus! {

/// The page that holds the stack.
pub open spec fn stack_page() -> u8 {
    bits::high_byte(BASE_STACK)
}

/// On a host whose stack page is RAM, a byte that is pushed and pulled
/// again comes back unchanged, and the processor, its stack pointer
/// included, is as it was before the push.
pub proof fn lemma_push8_pull8<T: Backplane>(c: CPU, m: T::Model, value: u8)
    requires
        backplane::is_ram_page::<T>(stack_page()),
    ensures
        ({
            let (pushed, m1) = c.spec_push8::<T>(m, value);
            pushed.spec_pull8::<T>(m1) == (c, value)
        }),
{
}

/// On a host whose stack page is RAM, a word that is pushed and pulled
/// again comes back unchanged, and the processor, its stack pointer
/// included, is as it was before the push.
pub proof fn lemma_push16_pull16<T: Backplane>(c: CPU, m: T::Model, value: u16)
    requires
        backplane::is_ram_page::<T>(stack_page()),
    ensures
        ({
            let (pushed, m1) = c.spec_push16::<T>(m, value);
            pushed.spec_pull16::<T>(m1) == (c, value)
        }),
{
    let high = CPU::stack_address(c.sp);
    let low = CPU::stack_address(bits::wrap8(c.sp - 1));
    let m0 = T::poke(m, high, bits::high_byte(value));
    let m1 = T::poke(m0, low, bits::low_byte(value));
    assert(T::peek(m1, low) == bits::low_byte(value));
    assert(T::peek(m0, high) == bits::high_byte(value));
    assert(T::peek(m1, high) == bits::high_byte(value));
}

/// On a host whose stack page is RAM, RTS after JSR continues behind the
/// JSR, with the stack pointer where it was and nothing more written.
pub proof fn lemma_jsr_rts<T: Backplane>(c: CPU, m: T::Model)
    requires
        backplane::is_ram_page::<T>(stack_page()),
    ensures
        ({
            let (called, m1) = c.spec_inst_jsr::<T>(m);
            let (back, m2) = called.spec_inst_rts::<T>(m1);
            &&& called.pc == c.ea
            &&& back.pc == c.pc
            &&& back.sp == c.sp
            &&& m2 == m1
        }),
{
    lemma_push16_pull16::<T>(c, m, bits::wrap16(c.pc - 1));
}

/// On a host whose stack page is RAM, RTI after an interrupt continues
/// where the interrupt struck, with the status and the stack pointer as
/// they were.
pub proof fn lemma_interrupt_rti<T: Backplane>(c: CPU, m: T::Model, vector: u16)
    requires
        backplane::is_ram_page::<T>(stack_page()),
    ensures
        ({
            let (handler, m1) = c.entered::<T>(m, c.pc, c.status, vector);
            let (back, m2) = handler.spec_inst_rti::<T>(m1);
            &&& handler.pc == CPU::word_at::<T>(m1, vector)
            &&& back.pc == c.pc
            &&& back.status == c.status
            &&& back.sp == c.sp
            &&& m2 == m1
        }),
{
    let (c1, mem1) = c.spec_push16::<T>(m, c.pc);
    let (c2, mem2) = c1.spec_push8::<T>(mem1, c.status);
    lemma_push8_pull8::<T>(c1, mem1, c.status);
    lemma_push16_pull16::<T>(c, m, c.pc);
    let slot = CPU::stack_address(c1.sp);
    assert(T::peek(mem2, CPU::stack_address(c.sp)) == T::peek(mem1, CPU::stack_address(c.sp)));
    assert(T::peek(mem2, CPU::stack_address(bits::wrap8(c.sp - 1))) == T::peek(
        mem1,
        CPU::stack_address(bits::wrap8(c.sp - 1)),
    ));
}

/// A branch costs its two base cycles when it is not taken, one cycle more
/// when it is taken to a target in the page of the instruction after it,
/// and two cycles more when it is taken into another page.
#[verifier::rlimit(30)]
pub proof fn lemma_branch_cost<T: Backplane>(c: CPU, m: T::Model)
    requires
        c.clockticks <= u32::MAX - MAX_INSTRUCTION_CYCLES,
        CPU::is_branch(dispatch::operation_of(T::peek(m, c.pc))),
    ensures
        ({
            let opcode = T::peek(m, c.pc);
            let taken = CPU::branch_taken(dispatch::operation_of(opcode), c.status);
            let after = c.pc_after(2);
            let target = bits::wrap16(after + bits::signed(T::peek(m, c.pc_after(1))));
            let (next, m1) = c.spec_execute_next::<T>(m);
            &&& dispatch::base_cycles(opcode) == 2
            &&& dispatch::mode_of(opcode) == dispatch::AddrMode::Relative
            &&& next.pc == (if taken {
                target
            } else {
                after
            })
            &&& c.next_cost::<T>(m) == 2 + (if !taken {
                0int
            } else if bits::same_page(after, target) {
                1int
            } else {
                2int
            })
        }),
{
    let opcode = T::peek(m, c.pc);
    let op = dispatch::operation_of(opcode);
    let fetched = c.fetched::<T>(m);
    let resolved = fetched.spec_addr_relative_branch::<T>(m);
    fetched.lemma_branch_opcode::<T>(m, opcode);
    resolved.lemma_branch_opcode::<T>(m, opcode);
    flags::lemma_put_then_test(c.status, FLAG_CONSTANT, true, FLAG_CARRY);
    flags::lemma_put_then_test(c.status, FLAG_CONSTANT, true, FLAG_ZERO);
    flags::lemma_put_then_test(c.status, FLAG_CONSTANT, true, FLAG_SIGN);
    flags::lemma_put_then_test(c.status, FLAG_CONSTANT, true, flags::FLAG_OVERFLOW);
    let taken = CPU::branch_taken(op, c.status);
    assert(CPU::branch_taken(op, resolved.status) == taken);
    assert(fetched.spec_run_one_op::<T>(m) == (resolved.spec_branch(taken), m, 2u32));
    assert(resolved.pc == c.pc_after(2));
    assert(resolved.reladdr == bits::wrap16(bits::signed(T::peek(m, c.pc_after(1)))));
    assert(resolved.branch_target() == bits::wrap16(
        c.pc_after(2) + bits::signed(T::peek(m, c.pc_after(1))),
    ));
}

/// The indirect mode does not carry into the page of its pointer: a pointer
/// in the last byte of a page takes the high byte of the address from the
/// first byte of the same page.
pub proof fn lemma_indirect_stays_in_page<T: Backplane>(c: CPU, m: T::Model)
    requires
        bits::low_byte(CPU::word_at::<T>(m, c.pc)) == 0xFF,
    ensures
        ({
            let pointer = CPU::word_at::<T>(m, c.pc);
            let page_start = (pointer - 0xFF) as u16;
            &&& bits::same_page(pointer, page_start)
            &&& bits::low_byte(page_start) == 0
            &&& c.spec_addr_indirect::<T>(m).ea == bits::word(
                T::peek(m, pointer),
                T::peek(m, page_start),
            )
        }),
{
}

/// After a comparison, Zero tells whether the register equals the operand
/// and Carry whether it is at least as large: both are set for equal
/// values, both are clear for a register below the operand.
pub proof fn lemma_compare_flags(status: u8, register: u8, operand: u8)
    ensures
        flags::flag_on(CPU::compared(status, register, operand), FLAG_ZERO) == (register
            == operand),
        flags::flag_on(CPU::compared(status, register, operand), FLAG_CARRY) == (register
            >= operand),
        flags::flag_on(CPU::compared(status, register, operand), FLAG_SIGN) == (bits::wrap8(
            register - operand,
        ) >= 0x80),
{
    let c = flags::put_flag(status, FLAG_CARRY, register >= operand);
    let z = flags::put_flag(c, FLAG_ZERO, register == operand);
    let sign = bits::wrap8(register - operand) >= 0x80;
    flags::lemma_put_then_test(status, FLAG_CARRY, register >= operand, FLAG_CARRY);
    flags::lemma_put_then_test(c, FLAG_ZERO, register == operand, FLAG_CARRY);
    flags::lemma_put_then_test(c, FLAG_ZERO, register == operand, FLAG_ZERO);
    flags::lemma_put_then_test(z, FLAG_SIGN, sign, FLAG_CARRY);
    flags::lemma_put_then_test(z, FLAG_SIGN, sign, FLAG_ZERO);
    flags::lemma_put_then_test(z, FLAG_SIGN, sign, FLAG_SIGN);
}

/// Whether both hexadecimal digits of `b` are decimal digits.
pub open spec fn is_decimal(b: u8) -> bool {
    b % 16 <= 9 && b / 16 <= 9
}

/// The number from 0 to 99 that the packed decimal byte `b` stands for.
pub open spec fn decimal_value(b: u8) -> int {
    (b / 16) * 10 + b % 16
}

/// In decimal mode, adding two packed decimal bytes gives the packed
/// decimal byte of their sum modulo 100, and carries exactly when the sum
/// is 100 or more.
#[verifier::rlimit(30)]
pub proof fn lemma_decimal_sum(a: u8, b: u8, carry: int)
    requires
        is_decimal(a),
        is_decimal(b),
        carry == 0 || carry == 1,
    ensures
        ({
            let sum = CPU::decimal_sum(a, b, carry);
            let total = decimal_value(a) + decimal_value(b) + carry;
            &&& is_decimal(bits::wrap8(sum))
            &&& decimal_value(bits::wrap8(sum)) == total % 100
            &&& (sum > 0xFF) == (total >= 100)
        }),
{
    let low = (a % 16) + (b % 16) + carry;
    let digit = if low > 9 {
        low - 10
    } else {
        low
    };
    let tens = (a / 16) + (b / 16) + if low > 9 {
        1int
    } else {
        0int
    };
    let total = decimal_value(a) + decimal_value(b) + carry;
    assert(total == 10 * tens + digit);
    let low_fixed = if low > 9 {
        ((low + 0x06) % 16) + 0x10
    } else {
        low
    };
    assert(low_fixed == low + (if low > 9 {
        6int
    } else {
        0int
    }));
    let all = (a / 16) * 16 + (b / 16) * 16 + low_fixed;
    assert(all == 16 * tens + digit);
    let sum = CPU::decimal_sum(a, b, carry);
    if tens >= 10 {
        assert(sum == 256 + 16 * (tens - 10) + digit);
        let byte = bits::wrap8(sum);
        assert(byte == 16 * (tens - 10) + digit);
        assert(byte / 16 == tens - 10 && byte % 16 == digit);
        assert(total % 100 == total - 100);
    } else {
        assert(sum == 16 * tens + digit);
        let byte = bits::wrap8(sum);
        assert(byte == 16 * tens + digit);
        assert(byte / 16 == tens && byte % 16 == digit);
        assert(total % 100 == total);
    }
}

/// In decimal mode, subtracting a packed decimal byte and a borrow from
/// another gives the packed decimal byte of their difference modulo 100;
/// the binary subtraction that sets the flags borrows exactly when the
/// difference is negative.
pub proof fn lemma_decimal_difference(a: u8, b: u8, carry: int)
    requires
        is_decimal(a),
        is_decimal(b),
        carry == 0 || carry == 1,
    ensures
        ({
            let difference = CPU::decimal_difference(a, b, carry);
            let total = decimal_value(a) - decimal_value(b) - (1 - carry);
            &&& is_decimal(difference)
            &&& decimal_value(difference) == total % 100
            &&& (a + (255 - b) + carry > 0xFF) == (total >= 0)
        }),
{
    reveal(CPU::decimal_difference);
    let low = (a % 16) - (b % 16) + carry - 1;
    let digit = if low < 0 {
        low + 10
    } else {
        low
    };
    let tens = (a / 16) - (b / 16) - if low < 0 {
        1int
    } else {
        0int
    };
    let total = decimal_value(a) - decimal_value(b) - (1 - carry);
    assert(total == 10 * tens + digit);
    let low_fixed = if low < 0 {
        ((low - 0x06) % 16) - 0x10
    } else {
        low
    };
    assert(low_fixed == low - (if low < 0 {
        6int
    } else {
        0int
    })) by {
        if low < 0 {
            assert(low - 6 == 16 * (-1) + (low + 10));
            assert((low - 6) % 16 == low + 10);
        }
    }
    let all = (a / 16) * 16 - (b / 16) * 16 + low_fixed;
    assert(all == 16 * tens + digit);
    let difference = CPU::decimal_difference(a, b, carry);
    if tens < 0 {
        assert(all < 0);
        assert(all - 0x60 == 16 * (tens + 10) + digit - 256);
        assert(difference == 16 * (tens + 10) + digit);
        assert(difference / 16 == tens + 10 && difference % 16 == digit);
        assert(total % 100 == total + 100);
    } else {
        assert(all >= 0);
        assert(difference == 16 * tens + digit);
        assert(difference / 16 == tens && difference % 16 == digit);
        assert(total % 100 == total);
    }
    assert((a + (255 - b) + carry > 0xFF) == (a - b + carry - 1 >= 0));
    assert((a - b + carry - 1 >= 0) == (tens >= 0)) by {
        assert(a == 16 * (a / 16) + a % 16);
        assert(b == 16 * (b / 16) + b % 16);
    }
}

/// After a reset the registers are cleared, the stack pointer is `0xFD`,
/// Constant is set and the program counter holds the word at the reset
/// vector.
pub proof fn lemma_reset_state<T: Backplane>(c: CPU, m: T::Model)
    ensures
        ({
            let r = c.spec_reset::<T>(m);
            &&& r.a == 0
            &&& r.x == 0
            &&& r.y == 0
            &&& r.sp == 0xFD
            &&& flags::flag_on(r.status, FLAG_CONSTANT)
            &&& r.pc == bits::word(T::peek(m, 0xFFFC), T::peek(m, 0xFFFD))
        }),
{
    flags::lemma_put_then_test(c.status, FLAG_CONSTANT, true, FLAG_CONSTANT);
}

/// Constant reads as set at power-on and after every fetch of an opcode.
pub proof fn lemma_constant_is_set<T: Backplane>(c: CPU, m: T::Model)
    ensures
        flags::flag_on(CPU::power_on().status, FLAG_CONSTANT),
        flags::flag_on(c.fetched::<T>(m).status, FLAG_CONSTANT),
{
    reveal(flags::flag_on);
    flags::lemma_put_then_test(c.status, FLAG_CONSTANT, true, FLAG_CONSTANT);
}

/// A run without a hook ends with the goal reached and overshot by less
/// than one instruction, or at once if the goal was reached before.
pub proof fn lemma_run_reaches_goal<T: Backplane>(c: CPU, m: T::Model)
    requires
        c.clockgoal <= u32::MAX - MAX_INSTRUCTION_CYCLES,
        !c.do_callback,
    ensures
        ({
            let (end, m1) = c.run_to_goal::<T>(m);
            &&& end.clockgoal == c.clockgoal
            &&& end.clockticks >= c.clockgoal
            &&& end.clockticks >= c.clockticks
            &&& c.clockticks < c.clockgoal ==> end.clockticks < c.clockgoal
                + MAX_INSTRUCTION_CYCLES
            &&& c.clockticks >= c.clockgoal ==> end == c && m1 == m
        }),
    decreases c.remaining(),
{
    if c.clockticks < c.clockgoal {
        c.lemma_instruction_cost::<T>(m);
        let (next, m1) = c.spec_execute_next::<T>(m);
        lemma_run_reaches_goal::<T>(next, m1);
    }
}

} // verus!
