//! The vector table installer: for each architecturally fixed
//! exception-vector address, the long jump to the save trampoline that must
//! be copied there, carrying the vector's numeric identifier.
//!
//! The addresses are hardware-fixed; there is nothing to bounds-check. The
//! caller copies each sequence, non-overlapping, into the vector memory while
//! no code can be executing there — in practice before the capture barrier
//! releases any core.

use vstd::prelude::*;
use crate::insn::longjmp_exc_words;
use crate::insn::make_longjmp_exc;

verus! {

/// How many exception vectors the architecture fixes.
pub const VECTOR_COUNT: usize = 17;

/// The architecturally fixed exception-vector addresses: reset, machine
/// check, data/instruction storage and segment faults, external interrupt,
/// alignment, program, floating point, decrementer, system call, trace,
/// performance, and the hardware-specific extras.
pub open spec fn exception_vectors() -> Seq<u64> {
    seq![
        0x0100u64,
        0x0200u64,
        0x0300u64,
        0x0380u64,
        0x0400u64,
        0x0480u64,
        0x0500u64,
        0x0600u64,
        0x0700u64,
        0x0800u64,
        0x0900u64,
        0x0980u64,
        0x0C00u64,
        0x0D00u64,
        0x0F00u64,
        0x1600u64,
        0x1800u64,
    ]
}

/// One fixed exception-vector address.
pub fn exception_vector(i: usize) -> (r: u64)
    requires
        i < VECTOR_COUNT,
    ensures
        r == exception_vectors()[i as int],
{
    let vectors: [u64; 17] = [
        0x0100, 0x0200, 0x0300, 0x0380, 0x0400, 0x0480, 0x0500, 0x0600, 0x0700, 0x0800, 0x0900,
        0x0980, 0x0C00, 0x0D00, 0x0F00, 0x1600, 0x1800,
    ];
    proof {
        assert(vectors@ =~= exception_vectors());
    }
    vectors[i]
}

/// A vector's numeric identifier: its address shifted out of the slot
/// granule, the value the installed jump loads before branching to the
/// trampoline.
pub open spec fn vector_id(address: u64) -> u16 {
    ((address >> 4) & 0xFFFF) as u16
}

/// One write the installer must perform: the encoded long jump and the fixed
/// vector address it goes to.
pub struct VectorInstall {
    pub address: u64,
    pub code: [u32; 11],
}

/// Compute the full installation: for every fixed vector address, the long
/// jump to the save trampoline at `thunk_addr`, carrying that vector's
/// identifier.
pub fn vector_installs(thunk_addr: usize) -> (r: Vec<VectorInstall>)
    ensures
        r@.len() == VECTOR_COUNT,
        forall|i: int| 0 <= i < VECTOR_COUNT ==> {
            &&& (#[trigger] r@[i]).address == exception_vectors()[i]
            &&& r@[i].code@ == longjmp_exc_words(vector_id(exception_vectors()[i]), thunk_addr as u64)
        },
{
    let mut installs: Vec<VectorInstall> = Vec::new();
    let mut i: usize = 0;
    while i < VECTOR_COUNT
        invariant
            i <= VECTOR_COUNT,
            installs@.len() == i,
            forall|j: int| 0 <= j < i ==> {
                &&& (#[trigger] installs@[j]).address == exception_vectors()[j]
                &&& installs@[j].code@ == longjmp_exc_words(
                    vector_id(exception_vectors()[j]),
                    thunk_addr as u64,
                )
            },
        decreases VECTOR_COUNT - i,
    {
        let address = exception_vector(i);
        let id = ((address >> 4) & 0xFFFF) as u16;
        let code = make_longjmp_exc(id, thunk_addr);
        installs.push(VectorInstall { address, code });
        i = i + 1;
    }
    installs
}

} // verus!
