//! Per-core register contexts: full architectural snapshots sufficient to
//! resume execution exactly where it left off, and the fixed per-core areas
//! they are saved to and loaded from.

use vstd::prelude::*;

verus! {

/// Number of hardware threads the machine has; one SAVE and one LOAD slot
/// exist for each.
pub const CORE_COUNT: usize = 6;

/// Fill pattern for registers a fabricated context leaves meaningless.
pub const SCRATCH_FILL: u64 = 0xBEBE_BEBE_BEBE_BEBE;

/// Machine-state word a fabricated call context starts with: 64-bit mode and
/// machine-check exceptions enabled, interrupts and translation off.
pub const HVCALL_MSR: u64 = 0x9000_0000_0000_1000;

/// A full architectural register snapshot: 32 general-purpose registers plus
/// condition, link, count, program-counter and machine-state registers.
#[derive(Clone, Copy, Debug, PartialEq, Eq)]
pub struct CpuContext {
    pub r: [u64; 32],
    pub cr: u64,
    pub lr: u64,
    pub ctr: u64,
    pub pc: u64,
    pub msr: u64,
}

/// The general-purpose registers of a fabricated call context: the stack
/// pointer slot holds `r1`, the branch-target slot holds `func`, and every
/// other register holds the scratch fill pattern.
pub open spec fn hvcall_regs(func: u64, r1: u64) -> Seq<u64> {
    Seq::new(32, |i: int|
        if i == 1 {
            r1
        } else if i == 12 {
            func
        } else {
            SCRATCH_FILL
        },
    )
}

/// Whether a context is the fabricated hypervisor-call entry into `func`
/// with stack pointer `r1`: loading it enters `func` with interrupts and
/// translation disabled.
pub open spec fn is_hvcall_context(c: CpuContext, func: u64, r1: u64) -> bool {
    &&& c.r@ == hvcall_regs(func, r1)
    &&& c.cr == SCRATCH_FILL
    &&& c.lr == SCRATCH_FILL
    &&& c.ctr == SCRATCH_FILL
    &&& c.pc == func
    &&& c.msr == HVCALL_MSR
}

impl CpuContext {
    /// The snapshot with every register zero.
    pub open spec fn is_zeroed(self) -> bool {
        &&& self.r@ == Seq::new(32, |i: int| 0u64)
        &&& self.cr == 0
        &&& self.lr == 0
        &&& self.ctr == 0
        &&& self.pc == 0
        &&& self.msr == 0
    }

    /// A fresh, zeroed context.
    pub fn new() -> (r: CpuContext)
        ensures
            r.is_zeroed(),
    {
        let c = CpuContext { r: [0u64; 32], cr: 0, lr: 0, ctr: 0, pc: 0, msr: 0 };
        proof {
            assert(c.r@ =~= Seq::new(32, |i: int| 0u64));
        }
        c
    }

    /// A context that, once loaded, enters `func` in hypervisor-call fashion:
    /// program counter and branch-target register at `func`, stack pointer at
    /// `r1`, interrupts and translation disabled.
    pub fn with_hvcall(func: usize, r1: u64) -> (r: CpuContext)
        ensures
            is_hvcall_context(r, func as u64, r1),
    {
        let f = func as u64;
        let mut regs = [SCRATCH_FILL; 32];
        regs[1] = r1;
        regs[12] = f;
        proof {
            assert(regs@ =~= hvcall_regs(f, r1));
        }
        CpuContext { r: regs, cr: SCRATCH_FILL, lr: SCRATCH_FILL, ctr: SCRATCH_FILL, pc: f, msr: HVCALL_MSR }
    }
}

impl Default for CpuContext {
    /// The all-zero snapshot.
    fn default() -> (r: CpuContext)
        ensures
            r.is_zeroed(),
    {
        CpuContext::new()
    }
}

/// A fixed per-core area of register snapshots, indexed by hardware core id.
/// One such bank holds the SAVE slots that a faulting core's state is stored
/// into, another the LOAD slots holding each core's handler-entry context.
pub struct ContextBank {
    pub slots: Vec<CpuContext>,
}

impl ContextBank {
    /// A bank holds exactly one slot per hardware core.
    pub open spec fn wf(self) -> bool {
        self.slots.len() == CORE_COUNT
    }

    /// A bank of zeroed slots, one per core.
    pub fn new() -> (r: ContextBank)
        ensures
            r.wf(),
            forall|i: int| 0 <= i < CORE_COUNT ==> r.slots@[i].is_zeroed(),
    {
        let mut slots: Vec<CpuContext> = Vec::new();
        let mut i: usize = 0;
        while i < CORE_COUNT
            invariant
                i <= CORE_COUNT,
                slots.len() == i,
                forall|j: int| 0 <= j < i ==> slots@[j].is_zeroed(),
            decreases CORE_COUNT - i,
        {
            slots.push(CpuContext::new());
            i = i + 1;
        }
        ContextBank { slots }
    }

    /// Read one core's slot.
    pub fn slot(&self, core: usize) -> (r: &CpuContext)
        requires
            self.wf(),
            core < CORE_COUNT,
        ensures
            *r == self.slots@[core as int],
    {
        &self.slots[core]
    }

    /// Store a faulting core's live register state into that core's own SAVE
    /// slot; no other slot is touched. A slot is only ever written by the
    /// faulting core itself.
    pub fn save_context(&mut self, core: usize, live: &CpuContext)
        requires
            old(self).wf(),
            core < CORE_COUNT,
        ensures
            final(self).wf(),
            final(self).slots@ == old(self).slots@.update(core as int, *live),
    {
        self.slots[core] = *live;
        proof {
            assert(self.slots@ =~= old(self).slots@.update(core as int, *live));
        }
    }
}

/// Resume execution from a context: the machine's register state becomes
/// exactly the snapshot, program counter, stack pointer and privilege state
/// included. On hardware this is the privileged return-from-interrupt path
/// and never returns to its caller; here the replacement state is the result.
pub fn load_context(ctx: &CpuContext) -> (machine: CpuContext)
    ensures
        machine == *ctx,
{
    *ctx
}

/// Law: a save followed by a resume of the unmodified slot reproduces the
/// exact prior register state. `saved` is a bank after `save_context` stored
/// `live` in `core`'s slot, and `resumed` is what `load_context` returns for
/// that slot.
pub proof fn lemma_save_resume_roundtrip(
    bank: ContextBank,
    saved: ContextBank,
    core: usize,
    live: CpuContext,
    resumed: CpuContext,
)
    requires
        bank.wf(),
        core < CORE_COUNT,
        saved.slots@ == bank.slots@.update(core as int, live),
        resumed == saved.slots@[core as int],
    ensures
        resumed == live,
{
}

} // verus!
