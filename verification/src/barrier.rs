//! The multi-core capture barrier: a one-time startup rendezvous that takes
//! every hardware thread away from whatever it was running.
//!
//! The shared state is a single mask word; bit `i` set means core `i` has
//! reached the checkpoint. Check-in is a bitwise OR, so duplicate and
//! out-of-order arrivals are harmless, and the mask is never cleared. The
//! primary core busy-waits until every secondary's bit is set; each loop turn
//! unmasks the remote cores' interrupt controllers and raises an
//! inter-processor interrupt at them.

use vstd::prelude::*;
use crate::context::CORE_COUNT;
use crate::iic::IIC_BASE;
use crate::iic::IIC_STRIDE;
use crate::iic::REG_CURRENT_TASK_PRIORITY;
use crate::iic::REG_IPI_DISPATCH;

verus! {

/// Mask with every core's bit set: the barrier is complete.
pub const ALL_PROCESSORS: u32 = 0x3F;

/// Mask with every bit but the primary core's set: what the primary waits
/// for before checking in itself.
pub const SECONDARY_PROCESSORS: u32 = 0x3E;

/// Value the doorbell register takes to raise an inter-processor interrupt,
/// with vector 30, on every other core at once.
pub const IPI_ALL_VALUE: u64 = 0x003F_0078;

/// The mask bit of one core.
pub open spec fn core_bit(core: u64) -> u32 {
    1u32 << core
}

/// A core checks in: its bit is OR-ed into the mask. Nothing is ever
/// cleared, so a duplicate check-in changes nothing.
pub fn check_in(mask: u32, core: u64) -> (r: u32)
    requires
        core < CORE_COUNT as u64,
    ensures
        r == mask | core_bit(core),
{
    mask | (1u32 << core)
}

/// Whether every core has checked in.
pub fn is_complete(mask: u32) -> (r: bool)
    ensures
        r == (mask == ALL_PROCESSORS),
{
    mask == ALL_PROCESSORS
}

/// The mask after a sequence of check-ins lands on `init`, in order.
pub open spec fn mask_after(init: u32, events: Seq<u64>) -> u32
    decreases events.len(),
{
    if events.len() == 0 {
        init
    } else {
        mask_after(init, events.drop_last()) | core_bit(events.last())
    }
}

/// Whether core `c` appears among the check-ins.
pub open spec fn checked_in(events: Seq<u64>, c: u64) -> bool {
    exists|i: int| 0 <= i < events.len() && events[i] == c
}

/// A core's bit is set after a sequence of check-ins exactly when it was set
/// before or the core appears in the sequence.
pub proof fn lemma_mask_after_bit(init: u32, events: Seq<u64>, c: u64)
    requires
        c < 32,
        forall|i: int| 0 <= i < events.len() ==> #[trigger] events[i] < 32,
    ensures
        (mask_after(init, events) & core_bit(c) != 0) <==> (init & core_bit(c) != 0
            || checked_in(events, c)),
    decreases events.len(),
{
    if events.len() == 0 {
    } else {
        let rest = events.drop_last();
        let last = events.last();
        lemma_mask_after_bit(init, rest, c);
        let m = mask_after(init, rest);
        assert((m | core_bit(last)) & core_bit(c) != 0 <==> (m & core_bit(c) != 0 || last == c))
            by (bit_vector)
            requires
                c < 32,
                last < 32,
        ;
        if (mask_after(init, events) & core_bit(c) != 0) {
            if init & core_bit(c) == 0 && m & core_bit(c) != 0 {
                let i = choose|i: int| 0 <= i < rest.len() && rest[i] == c;
                assert(events[i] == c);
                assert(checked_in(events, c));
            }
            if init & core_bit(c) == 0 && m & core_bit(c) == 0 {
                assert(events[events.len() - 1] == c);
                assert(checked_in(events, c));
            }
        }
        if init & core_bit(c) == 0 && checked_in(events, c) {
            let i = choose|i: int| 0 <= i < events.len() && events[i] == c;
            if i < rest.len() {
                assert(rest[i] == c);
                assert(checked_in(rest, c));
            }
        }
    }
}

/// Check-ins only ever set bits inside the six-core mask.
pub proof fn lemma_mask_after_bounded(init: u32, events: Seq<u64>)
    requires
        init & ALL_PROCESSORS == init,
        forall|i: int| 0 <= i < events.len() ==> #[trigger] events[i] < CORE_COUNT as u64,
    ensures
        mask_after(init, events) & ALL_PROCESSORS == mask_after(init, events),
    decreases events.len(),
{
    if events.len() == 0 {
    } else {
        let rest = events.drop_last();
        let last = events.last();
        lemma_mask_after_bounded(init, rest);
        let m = mask_after(init, rest);
        assert(m & 0x3F == m && last < 6 ==> (m | core_bit(last)) & 0x3F == (m | core_bit(last)))
            by (bit_vector);
    }
}

/// Law: starting from an empty mask, after any sequence of check-ins, in any
/// order and with any duplicates, the barrier is complete exactly when every
/// one of the six cores appears in the sequence — never earlier.
pub proof fn lemma_barrier_convergence(events: Seq<u64>)
    requires
        forall|i: int| 0 <= i < events.len() ==> #[trigger] events[i] < CORE_COUNT as u64,
    ensures
        (mask_after(0, events) == ALL_PROCESSORS) <==> (forall|c: u64|
            c < CORE_COUNT as u64 ==> #[trigger] checked_in(events, c)),
{
    let m = mask_after(0, events);
    assert(0u32 & ALL_PROCESSORS == 0u32) by (bit_vector);
    lemma_mask_after_bounded(0, events);
    assert forall|c: u64| c < CORE_COUNT as u64 implies ((m & core_bit(c) != 0)
        <==> #[trigger] checked_in(events, c)) by {
        lemma_mask_after_bit(0, events, c);
        assert(0u32 & core_bit(c) == 0) by (bit_vector);
    }
    assert(m == 0x3F <==> (m & core_bit(0) != 0 && m & core_bit(1) != 0 && m & core_bit(2) != 0 && m
        & core_bit(3) != 0 && m & core_bit(4) != 0 && m & core_bit(5) != 0)) by (bit_vector)
        requires
            m & 0x3F == m,
    ;
    if m == ALL_PROCESSORS {
        assert forall|c: u64| c < CORE_COUNT as u64 implies #[trigger] checked_in(events, c) by {
            assert(m & core_bit(c) != 0) by (bit_vector)
                requires
                    m == 0x3F,
                    c < 6,
            ;
        }
    }
    if forall|c: u64| c < CORE_COUNT as u64 ==> #[trigger] checked_in(events, c) {
        assert(checked_in(events, 0) && checked_in(events, 1) && checked_in(events, 2) && checked_in(
            events,
            3,
        ) && checked_in(events, 4) && checked_in(events, 5));
        assert(m & core_bit(0) != 0 && m & core_bit(1) != 0 && m & core_bit(2) != 0 && m & core_bit(
            3,
        ) != 0 && m & core_bit(4) != 0 && m & core_bit(5) != 0);
    }
}

/// Law: once complete, the barrier stays complete under further check-ins.
pub proof fn lemma_barrier_monotone(init: u32, events: Seq<u64>)
    requires
        init == ALL_PROCESSORS,
        forall|i: int| 0 <= i < events.len() ==> #[trigger] events[i] < CORE_COUNT as u64,
    ensures
        mask_after(init, events) == ALL_PROCESSORS,
    decreases events.len(),
{
    if events.len() == 0 {
    } else {
        let rest = events.drop_last();
        let last = events.last();
        lemma_barrier_monotone(init, rest);
        assert(0x3Fu32 | core_bit(last) == 0x3F) by (bit_vector)
            requires
                last < 6,
        ;
    }
}

/// What the primary core must do on one turn of the capture wait: the mask
/// pattern to show on the indicator, the priority registers to clear so the
/// still-captive cores have their interrupts unmasked, and the doorbell write
/// that raises the inter-processor interrupt at all of them — or, once every
/// secondary has checked in, nothing but leaving the loop.
pub struct CaptureAction {
    /// All secondaries have checked in; stop waiting.
    pub done: bool,
    /// Show the current mask on the indicator, with the override flag set.
    pub led_override: bool,
    pub led_pattern: u8,
    /// Addresses of the remote cores' current-task-priority registers, each
    /// to be written with zero.
    pub unmask_addresses: Vec<u64>,
    /// Doorbell register address and the value that targets all other cores.
    pub doorbell_address: u64,
    pub doorbell_value: u64,
}

/// Decide one turn of the primary core's capture wait from the current mask.
pub fn capture_step(mask: u32) -> (r: CaptureAction)
    ensures
        r.done == (mask == SECONDARY_PROCESSORS),
        r.led_override,
        r.led_pattern == mask as u8,
        r.unmask_addresses@.len() == 5,
        forall|i: int| 0 <= i < 5 ==> r.unmask_addresses@[i] == IIC_BASE + (i + 1) * IIC_STRIDE
            + REG_CURRENT_TASK_PRIORITY,
        r.doorbell_address == IIC_BASE + REG_IPI_DISPATCH,
        r.doorbell_value == IPI_ALL_VALUE,
{
    let mut unmask_addresses: Vec<u64> = Vec::new();
    let mut i: u64 = 1;
    while i < CORE_COUNT as u64
        invariant
            1 <= i <= CORE_COUNT as u64,
            unmask_addresses@.len() == i - 1,
            forall|j: int| 0 <= j < i - 1 ==> unmask_addresses@[j] == IIC_BASE + (j + 1)
                * IIC_STRIDE + REG_CURRENT_TASK_PRIORITY,
        decreases CORE_COUNT as u64 - i,
    {
        unmask_addresses.push(IIC_BASE + i * IIC_STRIDE + REG_CURRENT_TASK_PRIORITY);
        i = i + 1;
    }
    CaptureAction {
        done: mask == SECONDARY_PROCESSORS,
        led_override: true,
        led_pattern: mask as u8,
        unmask_addresses,
        doorbell_address: IIC_BASE + REG_IPI_DISPATCH,
        doorbell_value: IPI_ALL_VALUE,
    }
}

} // verus!
