//! The bits of the processor status register.

use vstd::prelude::*;

verus! {

/// Carry out of bit 7; after a subtraction or comparison, "no borrow".
pub const FLAG_CARRY: u8 = 0x01;

/// The last result was zero.
pub const FLAG_ZERO: u8 = 0x02;

/// Maskable interrupts are disabled.
pub const FLAG_INTERRUPT: u8 = 0x04;

/// Additions and subtractions work on packed decimal digits.
pub const FLAG_DECIMAL: u8 = 0x08;

/// Set in the copy of the status that BRK and PHP push.
pub const FLAG_BREAK: u8 = 0x10;

/// Has no function, but reads back as one.
pub const FLAG_CONSTANT: u8 = 0x20;

/// Signed overflow of the last addition or subtraction.
pub const FLAG_OVERFLOW: u8 = 0x40;

/// Bit 7 of the last result.
pub const FLAG_SIGN: u8 = 0x80;

/// Whether `flag` is one of the eight flags, a single bit.
pub open spec fn is_flag(flag: u8) -> bool {
    flag == FLAG_CARRY || flag == FLAG_ZERO || flag == FLAG_INTERRUPT || flag == FLAG_DECIMAL
        || flag == FLAG_BREAK || flag == FLAG_CONSTANT || flag == FLAG_OVERFLOW || flag
        == FLAG_SIGN
}

/// Whether the flag `flag` is set in `status`: whether the binary digit of
/// `status` at the place of `flag` is one.
///
/// Opaque, like `put_flag`.
#[verifier::opaque]
pub open spec fn flag_on(status: u8, flag: u8) -> bool
    recommends
        is_flag(flag),
{
    (status / flag) % 2 == 1
}

/// `status` with the flag `flag` set when `on` holds and cleared otherwise.
///
/// Opaque, so that a status built from many flags is not taken apart
/// where nobody asks. To compute with status bytes, `reveal` this function
/// and `flag_on`; to learn what a test finds after a flag was written, use
/// `lemma_put_then_test`.
#[verifier::opaque]
pub open spec fn put_flag(status: u8, flag: u8, on: bool) -> u8
    recommends
        is_flag(flag),
{
    if (status / flag) % 2 == 1 {
        if on {
            status
        } else {
            (status - flag) as u8
        }
    } else {
        if on {
            (status + flag) as u8
        } else {
            status
        }
    }
}

/// `status` with Zero and Sign describing the byte `result`.
pub open spec fn put_zero_sign(status: u8, result: u8) -> u8 {
    put_flag(put_flag(status, FLAG_ZERO, result == 0), FLAG_SIGN, result >= 0x80)
}

/// The Carry flag as a number: the carry into an addition or a rotation.
pub open spec fn carry_of(status: u8) -> int {
    if flag_on(status, FLAG_CARRY) {
        1
    } else {
        0
    }
}

/// Testing, setting and clearing a flag with a mask does what `flag_on`
/// and `put_flag` say.
pub proof fn lemma_flag_masks(status: u8, flag: u8)
    requires
        is_flag(flag),
    ensures
        (status & flag != 0) == flag_on(status, flag),
        status | flag == put_flag(status, flag, true),
        status & !flag == put_flag(status, flag, false),
{
    reveal(flag_on);
    reveal(put_flag);
    assert((status & flag != 0) == ((status / flag) % 2 == 1)) by (bit_vector)
        requires
            flag == 1 || flag == 2 || flag == 4 || flag == 8 || flag == 16 || flag == 32 || flag
                == 64 || flag == 128,
    ;
    assert(status | flag == (if (status / flag) % 2 == 1 {
        status
    } else {
        (status + flag) as u8
    })) by (bit_vector)
        requires
            flag == 1 || flag == 2 || flag == 4 || flag == 8 || flag == 16 || flag == 32 || flag
                == 64 || flag == 128,
    ;
    assert(status & !flag == (if (status / flag) % 2 == 1 {
        (status - flag) as u8
    } else {
        status
    })) by (bit_vector)
        requires
            flag == 1 || flag == 2 || flag == 4 || flag == 8 || flag == 16 || flag == 32 || flag
                == 64 || flag == 128,
    ;
}

/// Writing one flag decides what a test of that flag finds and leaves
/// every other flag as it was.
pub proof fn lemma_put_then_test(status: u8, written: u8, on: bool, tested: u8)
    requires
        is_flag(written),
        is_flag(tested),
    ensures
        flag_on(put_flag(status, written, on), tested) == (if written == tested {
            on
        } else {
            flag_on(status, tested)
        }),
{
    lemma_flag_masks(status, written);
    lemma_flag_masks(status, tested);
    lemma_flag_masks(put_flag(status, written, on), tested);
    assert(((status | written) & tested != 0) == (written == tested || status & tested != 0))
        by (bit_vector)
        requires
            written == 1 || written == 2 || written == 4 || written == 8 || written == 16
                || written == 32 || written == 64 || written == 128,
            tested == 1 || tested == 2 || tested == 4 || tested == 8 || tested == 16 || tested
                == 32 || tested == 64 || tested == 128,
    ;
    assert(((status & !written) & tested != 0) == (written != tested && status & tested != 0))
        by (bit_vector)
        requires
            written == 1 || written == 2 || written == 4 || written == 8 || written == 16
                || written == 32 || written == 64 || written == 128,
            tested == 1 || tested == 2 || tested == 4 || tested == 8 || tested == 16 || tested
                == 32 || tested == 64 || tested == 128,
    ;
}

/// Keeping the low six bits of `status` and taking the top two from `value`
/// writes bit 7 of `value` to Sign and bit 6 to Overflow.
pub proof fn lemma_top_bits(status: u8, value: u8)
    ensures
        (status & 0x3F) | (value & 0xC0) == put_flag(
            put_flag(status, FLAG_SIGN, value >= 0x80),
            FLAG_OVERFLOW,
            flag_on(value, FLAG_OVERFLOW),
        ),
{
    let signed = put_flag(status, FLAG_SIGN, value >= 0x80);
    lemma_flag_masks(status, FLAG_SIGN);
    lemma_flag_masks(value, FLAG_OVERFLOW);
    lemma_flag_masks(signed, FLAG_OVERFLOW);
    assert((status & 0x3F) | (value & 0xC0) == (if value & 0x40 != 0 {
        (if value >= 0x80 {
            status | 0x80
        } else {
            status & !0x80u8
        }) | 0x40
    } else {
        (if value >= 0x80 {
            status | 0x80
        } else {
            status & !0x80u8
        }) & !0x40u8
    })) by (bit_vector);
}

} // verus!
