//! The self-patcher: the save and load trampolines are assembled before the
//! runtime address of the context areas is known, so specific
//! immediate-operand fields inside their opcodes must be overwritten once the
//! relocated image has placed the areas. The patch is an explicit relocation
//! step: fixed word offsets inside each trampoline receive the base address
//! in 16-bit chunks. It runs before any vector goes live, and re-running it
//! with the same base is a no-op in effect.
//!
//! The low chunk is applied with a sign-extending add rather than a bitwise
//! OR, because the trampolines pre-load the core id into the base register as
//! an additive offset; the sign-aware (high, low) split compensates.

use vstd::prelude::*;
use crate::insn::arith_hi;
use crate::insn::arith_lo;
use crate::insn::chunk32;
use crate::insn::chunk48;
use crate::insn::make_arithaddr;

verus! {

/// The save trampoline with its four address-bearing immediates rewritten to
/// materialize `base`, the runtime address of the SAVE areas, into r4.
pub open spec fn patched_save_thunk(s: Seq<u32>, base: u64) -> Seq<u32> {
    s.update(3, 0x6484_0000 | chunk48(base)).update(4, 0x6084_0000 | chunk32(base)).update(
        6,
        0x6484_0000 | arith_hi(base as u32),
    ).update(7, 0x3884_0000 | arith_lo(base as u32))
}

/// The load trampoline with its four address-bearing immediates rewritten to
/// materialize `base`, the runtime address of the LOAD areas, into r3.
pub open spec fn patched_load_thunk(s: Seq<u32>, base: u64) -> Seq<u32> {
    s.update(2, 0x6463_0000 | chunk48(base)).update(3, 0x6063_0000 | chunk32(base)).update(
        5,
        0x6463_0000 | arith_hi(base as u32),
    ).update(6, 0x3863_0000 | arith_lo(base as u32))
}

/// Rewrite the save trampoline's address-bearing immediates with the runtime
/// base of the SAVE areas. Only the four relocated words change.
pub fn patch_save_thunk(thunk: &mut Vec<u32>, base: u64)
    requires
        old(thunk).len() >= 8,
    ensures
        final(thunk)@ == patched_save_thunk(old(thunk)@, base),
{
    let pair = make_arithaddr(base as u32);
    thunk[3] = 0x6484_0000 | ((base >> 48) & 0xFFFF) as u32;
    thunk[4] = 0x6084_0000 | ((base >> 32) & 0xFFFF) as u32;
    thunk[6] = 0x6484_0000 | pair.0 as u32;
    thunk[7] = 0x3884_0000 | pair.1 as u32;
    proof {
        assert(thunk@ =~= patched_save_thunk(old(thunk)@, base));
    }
}

/// Rewrite the load trampoline's address-bearing immediates with the runtime
/// base of the LOAD areas. Only the four relocated words change.
pub fn patch_load_thunk(thunk: &mut Vec<u32>, base: u64)
    requires
        old(thunk).len() >= 7,
    ensures
        final(thunk)@ == patched_load_thunk(old(thunk)@, base),
{
    let pair = make_arithaddr(base as u32);
    thunk[2] = 0x6463_0000 | ((base >> 48) & 0xFFFF) as u32;
    thunk[3] = 0x6063_0000 | ((base >> 32) & 0xFFFF) as u32;
    thunk[5] = 0x6463_0000 | pair.0 as u32;
    thunk[6] = 0x3863_0000 | pair.1 as u32;
    proof {
        assert(thunk@ =~= patched_load_thunk(old(thunk)@, base));
    }
}

/// Law: patching is idempotent — re-running either patch with the same base
/// leaves the trampoline exactly as the first run left it.
pub proof fn lemma_patch_idempotent(s: Seq<u32>, base: u64)
    requires
        s.len() >= 8,
    ensures
        patched_save_thunk(patched_save_thunk(s, base), base) == patched_save_thunk(s, base),
        patched_load_thunk(patched_load_thunk(s, base), base) == patched_load_thunk(s, base),
{
    assert(patched_save_thunk(patched_save_thunk(s, base), base) =~= patched_save_thunk(s, base));
    assert(patched_load_thunk(patched_load_thunk(s, base), base) =~= patched_load_thunk(s, base));
}

} // verus!
