//! Dispatcher policy selection: a single process-wide flag that moves from
//! capture-time to steady-state behavior exactly once, and the two policies
//! it selects between.
//!
//! During capture, any exception on a secondary core is accepted and rewrites
//! the context to the thread entry point: the core is parked under firmware
//! control instead of returning to whatever it was running. After the flip,
//! only external interrupts are accepted, with the context resumed untouched;
//! everything else falls through to the diagnostic path.

use vstd::prelude::*;
use crate::context::CpuContext;
use crate::context::is_hvcall_context;
use crate::dispatch::ExceptionHandler;
use crate::dispatch::ExceptionType;

verus! {

/// Stack top the thread entry context of core 0 gets; each further core sits
/// one 64 KiB step below.
pub const THREAD_STACK_BASE: u64 = 0x8000_0000_1E00_0000;

/// The dispatcher's policy: capture-time or steady-state.
#[derive(Clone, Copy, Debug, PartialEq, Eq, Structural)]
pub enum HandlerMode {
    Startup,
    Normal,
}

/// The wire value of a mode, as the shared flag cell stores it.
pub open spec fn mode_code_spec(m: HandlerMode) -> u8 {
    match m {
        HandlerMode::Startup => 0,
        HandlerMode::Normal => 1,
    }
}

/// The mode a raw flag value selects: only the steady-state code means
/// Normal, every other value is still capture-time.
pub fn mode_from_raw(raw: u8) -> (m: HandlerMode)
    ensures
        m == (if raw == 1 {
            HandlerMode::Normal
        } else {
            HandlerMode::Startup
        }),
        raw == mode_code_spec(HandlerMode::Normal) ==> m == HandlerMode::Normal,
        raw == mode_code_spec(HandlerMode::Startup) ==> m == HandlerMode::Startup,
{
    if raw == 1 {
        HandlerMode::Normal
    } else {
        HandlerMode::Startup
    }
}

/// Relies on atomic::Atomic, the shared cell the flag lives in; the type is
/// declared opaque, so verified code sees nothing of a cell's content.
#[verifier::external_type_specification]
#[verifier::external_body]
#[verifier::reject_recursive_types(T)]
pub struct ExAtomic<T>(atomic::Atomic<T>);

/// Relies on atomic::Atomic::new: wraps the initial value in a fresh cell.
/// The cell is opaque and shared, so nothing is claimed of its content.
#[verifier::external_body]
fn mode_cell_new(v: u8) -> atomic::Atomic<u8> {
    atomic::Atomic::new(v)
}

/// Relies on atomic::Atomic::load with relaxed ordering: returns the cell's
/// value at some instant. Other cores may store at any time, so nothing is
/// claimed of the result; the caller decodes whatever comes back.
#[verifier::external_body]
fn mode_cell_load(cell: &atomic::Atomic<u8>) -> u8 {
    cell.load(atomic::Ordering::Relaxed)
}

/// Relies on atomic::Atomic::store with relaxed ordering: replaces the cell's
/// value. The cell is opaque, so nothing is claimed beyond the call itself.
#[verifier::external_body]
fn mode_cell_store(cell: &atomic::Atomic<u8>, v: u8) {
    cell.store(v, atomic::Ordering::Relaxed)
}

/// The process-wide mode flag: one atomic cell every core reads on dispatch
/// and the primary writes once, when the capture completes. The cell is
/// shared between cores, so what a load returns is decided by the hardware;
/// the decode of every possible value is verified, the cell itself is not.
pub struct ModeSelector {
    cell: atomic::Atomic<u8>,
}

impl ModeSelector {
    /// A selector starting in capture-time policy.
    pub fn new() -> ModeSelector {
        ModeSelector { cell: mode_cell_new(0) }
    }

    /// The policy at this instant.
    pub fn current(&self) -> HandlerMode {
        mode_from_raw(mode_cell_load(&self.cell))
    }

    /// Flip to steady-state policy. This is the only store that exists, so
    /// the flag never moves back.
    pub fn complete_capture(&self) {
        mode_cell_store(&self.cell, 1)
    }
}

/// Capture-time policy: accept every exception and rewrite the context so
/// the faulting core resumes at `entry` on its own stack — parking it under
/// firmware control. Never returns to the interrupted code.
pub fn startup_exception_handler(
    ex: ExceptionType,
    ctx: &mut CpuContext,
    pir: u64,
    entry: usize,
) -> (r: Result<(), ()>)
    requires
        pir < 6,
    ensures
        r is Ok,
        is_hvcall_context(*final(ctx), entry as u64, (THREAD_STACK_BASE - pir * 0x10000) as u64),
{
    *ctx = CpuContext::with_hvcall(entry, THREAD_STACK_BASE - pir * 0x10000);
    Ok(())
}

/// Steady-state policy: accept external interrupts, resuming the context
/// untouched, and reject everything else.
pub fn normal_exception_handler(ex: ExceptionType, ctx: &mut CpuContext) -> (r: Result<(), ()>)
    ensures
        r is Ok <==> ex == ExceptionType::ExternalInterrupt,
        *final(ctx) == *old(ctx),
{
    match ex {
        ExceptionType::ExternalInterrupt => Ok(()),
        _ => Err(()),
    }
}

/// The registered handler's body: dispatch by the current mode. After the
/// flip to Normal the steady-state policy is used exclusively.
pub fn exception_handler(
    mode: HandlerMode,
    ex: ExceptionType,
    ctx: &mut CpuContext,
    pir: u64,
    entry: usize,
) -> (r: Result<(), ()>)
    requires
        pir < 6,
    ensures
        mode == HandlerMode::Startup ==> r is Ok && is_hvcall_context(
            *final(ctx),
            entry as u64,
            (THREAD_STACK_BASE - pir * 0x10000) as u64,
        ),
        mode == HandlerMode::Normal ==> (r is Ok <==> ex == ExceptionType::ExternalInterrupt)
            && *final(ctx) == *old(ctx),
{
    match mode {
        HandlerMode::Startup => startup_exception_handler(ex, ctx, pir, entry),
        HandlerMode::Normal => normal_exception_handler(ex, ctx),
    }
}

/// The firmware's registered handler: the current mode, the handling core's
/// hardware thread id, and the thread entry point capture parks cores at.
pub struct FirmwareHandler {
    pub mode: HandlerMode,
    pub pir: u64,
    pub entry: usize,
}

impl ExceptionHandler for FirmwareHandler {
    /// Capture-time accepts everything; steady-state accepts external
    /// interrupts only.
    open spec fn accepts(&self, kind: ExceptionType, ctx: CpuContext) -> bool {
        self.pir < 6 && (self.mode == HandlerMode::Startup || kind
            == ExceptionType::ExternalInterrupt)
    }

    /// Capture-time parks the core at the thread entry point; steady-state
    /// resumes the context untouched.
    open spec fn updates_to(&self, kind: ExceptionType, ctx: CpuContext, resumed: CpuContext) -> bool {
        if self.mode == HandlerMode::Startup {
            is_hvcall_context(
                resumed,
                self.entry as u64,
                (THREAD_STACK_BASE - self.pir * 0x10000) as u64,
            )
        } else {
            resumed == ctx
        }
    }

    fn handle(&mut self, kind: ExceptionType, ctx: &mut CpuContext) -> (r: Result<(), ()>) {
        if self.pir >= 6 {
            return Err(());
        }
        exception_handler(self.mode, kind, ctx, self.pir, self.entry)
    }
}

/// The mode after a sequence of dispatch-loop steps: `true` steps complete
/// the capture and flip the flag, `false` steps leave it alone.
pub open spec fn mode_after(init: HandlerMode, flips: Seq<bool>) -> HandlerMode
    decreases flips.len(),
{
    if flips.len() == 0 {
        init
    } else if flips.last() {
        HandlerMode::Normal
    } else {
        mode_after(init, flips.drop_last())
    }
}

/// Law: the mode transitions Startup to Normal at most once and never back.
/// Once any prefix of the steps reads Normal, every longer prefix still reads
/// Normal.
pub proof fn lemma_mode_monotone(init: HandlerMode, flips: Seq<bool>, k1: int, k2: int)
    requires
        0 <= k1 <= k2 <= flips.len(),
        mode_after(init, flips.take(k1)) == HandlerMode::Normal,
    ensures
        mode_after(init, flips.take(k2)) == HandlerMode::Normal,
    decreases k2 - k1,
{
    if k1 < k2 {
        lemma_mode_monotone(init, flips, k1, k2 - 1);
        assert(flips.take(k2).drop_last() =~= flips.take(k2 - 1));
        assert(flips.take(k2).last() == flips[k2 - 1]);
    }
}

/// Law: every dispatch after the flip uses the steady-state policy
/// exclusively. If some step flipped the mode and a handler later dispatches
/// with the then-current mode, it accepts exactly external interrupts and
/// only ever resumes the context untouched.
pub proof fn lemma_dispatch_after_flip(
    flips: Seq<bool>,
    k1: int,
    k2: int,
    h: FirmwareHandler,
    kind: ExceptionType,
    ctx: CpuContext,
    resumed: CpuContext,
)
    requires
        0 <= k1 <= k2 <= flips.len(),
        mode_after(HandlerMode::Startup, flips.take(k1)) == HandlerMode::Normal,
        h.mode == mode_after(HandlerMode::Startup, flips.take(k2)),
        h.pir < 6,
    ensures
        h.accepts(kind, ctx) <==> kind == ExceptionType::ExternalInterrupt,
        h.updates_to(kind, ctx, resumed) <==> resumed == ctx,
{
    lemma_mode_monotone(HandlerMode::Startup, flips, k1, k2);
}

} // verus!
