//! Instruction encoding: pure functions building raw machine-code sequences.
//!
//! Every encoder is deterministic in its arguments. Addresses are
//! materialized in 16-bit chunks through shift/OR immediate loads; a short
//! relative branch is emitted only when the displacement fits the
//! instruction's field, and construction fails otherwise rather than emitting
//! a truncated opcode.

use vstd::prelude::*;

verus! {

/// The value with only bit `b` set, counting bit 0 as the most significant
/// bit, as the architecture numbers bits.
pub fn bit(b: u64) -> (r: u64)
    requires
        b < 64,
    ensures
        r == 0x8000_0000_0000_0000u64 >> b,
{
    0x8000_0000_0000_0000u64 >> b
}

/// The signed value a 16-bit immediate stands for once the hardware
/// sign-extends it.
pub open spec fn sign_extend16(lo: u16) -> int {
    if lo >= 0x8000 {
        lo - 0x10000
    } else {
        lo as int
    }
}

/// The address a `lis`/`addi` pair materializes: the high half shifted into
/// place, plus the sign-extended low half.
pub open spec fn arith_pair_value(hi: u16, lo: u16) -> int {
    hi * 0x10000 + sign_extend16(lo)
}

/// The low half of an address split for sign-extending arithmetic.
pub open spec fn arith_lo(addr: u32) -> u32 {
    addr & 0xFFFF
}

/// The high half of an address split for sign-extending arithmetic: the top
/// half, incremented when the low half's sign bit is set.
pub open spec fn arith_hi(addr: u32) -> u32 {
    (((addr >> 16) + (if addr & 0x8000 != 0 {
        1u32
    } else {
        0u32
    })) as u32) & 0xFFFF
}

/// Split a 32-bit address into (high, low) halves for a sign-extending
/// immediate-load pair. The high half is incremented whenever the low half's
/// sign bit is set, to compensate for the hardware's sign extension of the
/// low immediate. The pair re-materializes the address exactly, modulo the
/// 32-bit word (the wrap case arises only for addresses at the very top of
/// the word).
pub fn make_arithaddr(addr: u32) -> (r: (u16, u16))
    ensures
        r.0 as u32 == arith_hi(addr),
        r.1 as u32 == arith_lo(addr),
        arith_pair_value(r.0, r.1) == addr || arith_pair_value(r.0, r.1) + 0x1_0000_0000 == addr,
{
    let lo: u32 = addr & 0xFFFF;
    let carry: u32 = if lo & 0x8000 != 0 {
        1
    } else {
        0
    };
    proof {
        assert((addr >> 16) <= 0xFFFF) by (bit_vector);
        assert((addr & 0xFFFF) & 0x8000 == addr & 0x8000) by (bit_vector);
    }
    let hi: u32 = ((addr >> 16) + carry) & 0xFFFF;
    proof {
        let c = carry;
        let h = hi;
        let l = lo;
        assert({
            &&& l <= 0xFFFF
            &&& h <= 0xFFFF
            &&& (l < 0x8000 ==> h * 0x10000 + l == addr)
            &&& (l >= 0x8000 && addr < 0xFFFF8000 ==> h * 0x10000 + l == addr + 0x10000)
            &&& (l >= 0x8000 && addr >= 0xFFFF8000 ==> h == 0 && l == addr - 0xFFFF0000)
        }) by (bit_vector)
            requires
                l == addr & 0xFFFF,
                c == (if l & 0x8000 != 0 { 1u32 } else { 0u32 }),
                h == (((addr >> 16) + c) as u32) & 0xFFFF,
        ;
    }
    (hi as u16, lo as u16)
}

/// |a - b|, without overflow.
pub fn abs_diff(a: usize, b: usize) -> (r: usize)
    ensures
        r == if a > b {
            a - b
        } else {
            b - a
        },
{
    if a > b {
        a - b
    } else {
        b - a
    }
}

/// A branch offset too large for the instruction's displacement field. This
/// is an initialization-time fatal condition: no opcode is emitted.
#[derive(Clone, Copy, Debug, PartialEq, Eq, Structural)]
pub enum EncodeError {
    OffsetOutOfRange,
}

/// The displacement field of an unconditional-branch opcode.
pub open spec fn branch_disp_field(w: u32) -> u32 {
    w & 0x00FF_FFFC
}

/// The displacement a branch opcode encodes: its 24-bit field, sign-extended.
pub open spec fn branch_displacement(w: u32) -> int {
    if branch_disp_field(w) >= 0x0080_0000 {
        branch_disp_field(w) - 0x0100_0000
    } else {
        branch_disp_field(w) as int
    }
}

/// Make a branch opcode located at `address` that jumps to `target`.
///
/// Succeeds exactly when the distance fits the displacement field; for
/// word-aligned ends, as instruction addresses are, the emitted word decodes
/// back to exactly `target - address`. On failure no opcode comes out at
/// all: a wrapped-but-wrong branch is never emitted.
pub fn make_reljump(address: usize, target: usize) -> (r: Result<u32, EncodeError>)
    ensures
        r is Ok <==> (if target > address {
            target - address
        } else {
            address - target
        }) < 0x7F_FFFF,
        r matches Ok(w) ==> {
            &&& w & 0xFC00_0003 == 0x4800_0000
            &&& (address % 4 == 0 && target % 4 == 0 ==> branch_displacement(w) == target
                - address)
        },
        r is Err ==> r == Result::<u32, EncodeError>::Err(EncodeError::OffsetOutOfRange),
{
    let diff = abs_diff(target, address);
    if diff < 0x7F_FFFF {
        let a = address as u64;
        let t = target as u64;
        let offset = t.wrapping_sub(a);
        let w: u32 = 0x4800_0000 | (offset & 0x00FF_FFFC) as u32;
        proof {
            assert({
                &&& w & 0xFC00_0003 == 0x4800_0000
                &&& (a % 4 == 0 && t % 4 == 0 && t >= a ==> (w & 0x00FF_FFFC) == t - a && (w
                    & 0x00FF_FFFC) < 0x0080_0000)
                &&& (a % 4 == 0 && t % 4 == 0 && t < a ==> (w & 0x00FF_FFFC) as u64 == 0x0100_0000
                    - (a - t) && (w & 0x00FF_FFFC) >= 0x0080_0000)
            }) by (bit_vector)
                requires
                    w == 0x4800_0000u32 | ((t as u64).wrapping_sub(a as u64) & 0x00FF_FFFC) as u32,
                    (t >= a && t - a < 0x7F_FFFF) || (t < a && a - t < 0x7F_FFFF),
            ;
        }
        Ok(w)
    } else {
        Err(EncodeError::OffsetOutOfRange)
    }
}

/// Bits 48..64 of a value, as the first immediate of a five-step
/// materialization sequence consumes them.
pub open spec fn chunk48(x: u64) -> u32 {
    ((x >> 48) & 0xFFFF) as u32
}

/// Bits 32..48 of a value.
pub open spec fn chunk32(x: u64) -> u32 {
    ((x >> 32) & 0xFFFF) as u32
}

/// Bits 16..32 of a value.
pub open spec fn chunk16(x: u64) -> u32 {
    ((x >> 16) & 0xFFFF) as u32
}

/// Bits 0..16 of a value.
pub open spec fn chunk0(x: u64) -> u32 {
    (x & 0xFFFF) as u32
}

/// The words of the register-r3 materialization sequence
/// (`lis` / `ori` / `rldicr` / `oris` / `ori`) for a 64-bit value.
pub open spec fn materialize_r3(x: u64) -> Seq<u32> {
    seq![
        0x3C60_0000 | chunk48(x),
        0x6063_0000 | chunk32(x),
        0x7863_07C6,
        0x6463_0000 | chunk16(x),
        0x6063_0000 | chunk0(x),
    ]
}

/// The words of a full context-replacing jump: materialize `target` into r3,
/// move it to the resume address register, clear the external-interrupt and
/// translation bits of the machine state, materialize `p1` into r3 as the
/// parameter, and return from interrupt into the target.
pub open spec fn longjmp_words(target: u64, p1: u64) -> Seq<u32> {
    materialize_r3(target) + seq![0x7C7A_03A6, 0x3C80_0000, 0x6084_8030, 0x7C60_00A6, 0x7C63_2078, 0x7C7B_03A6]
        + materialize_r3(p1) + seq![0x4C00_0024]
}

/// Encode a context-replacing jump to `target` that lands with `p1` in the
/// argument register and interrupts and address translation disabled.
pub fn make_longjmp(target: usize, p1: u64) -> (r: [u32; 17])
    ensures
        r@ == longjmp_words(target as u64, p1),
{
    let t = target as u64;
    let r: [u32; 17] = [
        0x3C60_0000 | ((t >> 48) & 0xFFFF) as u32,
        0x6063_0000 | ((t >> 32) & 0xFFFF) as u32,
        0x7863_07C6,
        0x6463_0000 | ((t >> 16) & 0xFFFF) as u32,
        0x6063_0000 | (t & 0xFFFF) as u32,
        0x7C7A_03A6,
        0x3C80_0000,
        0x6084_8030,
        0x7C60_00A6,
        0x7C63_2078,
        0x7C7B_03A6,
        0x3C60_0000 | ((p1 >> 48) & 0xFFFF) as u32,
        0x6063_0000 | ((p1 >> 32) & 0xFFFF) as u32,
        0x7863_07C6,
        0x6463_0000 | ((p1 >> 16) & 0xFFFF) as u32,
        0x6063_0000 | (p1 & 0xFFFF) as u32,
        0x4C00_0024,
    ];
    proof {
        assert(r@ =~= longjmp_words(t, p1));
    }
    r
}

/// The words of a vector-slot long jump: preserve r3 and r4 in the hardware
/// scratch registers, materialize `target` into r3, swap it into the count
/// register while capturing the old count-register value in r4, load the
/// vector's identifier into r3, and branch.
pub open spec fn longjmp_exc_words(id: u16, target: u64) -> Seq<u32> {
    seq![0x7C70_4BA6, 0x7C91_4BA6] + materialize_r3(target) + seq![
        0x7C89_02A6,
        0x7C69_03A6,
        0x3860_0000 | id as u32,
        0x4E80_0420,
    ]
}

/// Encode the long jump installed at an exception vector. It preserves r3
/// and r4 in the hardware scratch storage, loads the vector identifier `id`
/// into r3 and the previous count-register value into r4, and branches to
/// `target` through the count register.
pub fn make_longjmp_exc(id: u16, target: usize) -> (r: [u32; 11])
    ensures
        r@ == longjmp_exc_words(id, target as u64),
{
    let t = target as u64;
    let r: [u32; 11] = [
        0x7C70_4BA6,
        0x7C91_4BA6,
        0x3C60_0000 | ((t >> 48) & 0xFFFF) as u32,
        0x6063_0000 | ((t >> 32) & 0xFFFF) as u32,
        0x7863_07C6,
        0x6463_0000 | ((t >> 16) & 0xFFFF) as u32,
        0x6063_0000 | (t & 0xFFFF) as u32,
        0x7C89_02A6,
        0x7C69_03A6,
        0x3860_0000 | id as u32,
        0x4E80_0420,
    ];
    proof {
        assert(r@ =~= longjmp_exc_words(id, t));
    }
    r
}

} // verus!
