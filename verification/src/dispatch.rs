//! The exception dispatcher: entered from the save trampoline with interrupts
//! and translation disabled, holding only the raw exception code. It decodes
//! the code, tolerating values outside the known set, offers the fault to the
//! registered handler, and either resumes the (possibly handler-mutated)
//! context or collects a full diagnostic and halts — restarting the system
//! first when the faulting core is the primary.
//!
//! Nothing below the dispatcher unwinds: every failure is a result value or
//! terminal control flow. The diagnostic is both returned as a structured
//! value and emitted on the output device as fixed-order hex lines; the
//! device is acquired with bounded retries and taken over by force when the
//! faulting core already held it, so the path never deadlocks against
//! itself.

use vstd::prelude::*;
use crate::context::CORE_COUNT;
use crate::context::ContextBank;
use crate::context::CpuContext;
use crate::context::is_hvcall_context;
use crate::context::load_context;
use crate::mutex::Acquisition;
use crate::mutex::SpinMutex;
use crate::mutex::lock_with_retries;
use crate::patch::patch_load_thunk;
use crate::patch::patch_save_thunk;
use crate::patch::patched_load_thunk;
use crate::patch::patched_save_thunk;
use crate::smc::RESTART_WORD;
use crate::smc::SMC;
use crate::uart::UART;
use crate::uart::hex64;
use crate::uart::hex64_bytes;
use crate::vectors::VECTOR_COUNT;
use crate::vectors::VectorInstall;
use crate::vectors::exception_vectors;
use crate::vectors::vector_id;
use crate::vectors::vector_installs;
use crate::insn::longjmp_exc_words;

verus! {

/// How many times the diagnostic path retries the output lock before taking
/// it over.
pub const DIAGNOSTIC_LOCK_RETRIES: u64 = 50;

/// Known trap reasons, by the hardware's numeric codes. The code originates
/// from hardware, not from encoder input, so a value outside the known set is
/// a legitimate runtime value and is carried as `Unknown`, never rejected.
#[derive(Clone, Copy, Debug, PartialEq, Eq, Structural)]
pub enum ExceptionType {
    Reset,
    MachineCheck,
    Dsi,
    DataSegment,
    Isi,
    InstructionSegment,
    ExternalInterrupt,
    Alignment,
    Program,
    FloatingPoint,
    Decrementer,
    SystemCall,
    Trace,
    Performance,
    Unknown(u32),
}

impl ExceptionType {
    /// The hardware code of a trap reason.
    pub open spec fn code_spec(self) -> u32 {
        match self {
            ExceptionType::Reset => 0x10,
            ExceptionType::MachineCheck => 0x20,
            ExceptionType::Dsi => 0x30,
            ExceptionType::DataSegment => 0x38,
            ExceptionType::Isi => 0x40,
            ExceptionType::InstructionSegment => 0x48,
            ExceptionType::ExternalInterrupt => 0x50,
            ExceptionType::Alignment => 0x60,
            ExceptionType::Program => 0x70,
            ExceptionType::FloatingPoint => 0x80,
            ExceptionType::Decrementer => 0x90,
            ExceptionType::SystemCall => 0xC0,
            ExceptionType::Trace => 0xD0,
            ExceptionType::Performance => 0xF0,
            ExceptionType::Unknown(c) => c,
        }
    }

    /// The trap reason a hardware code names; an unrecognized code is carried
    /// through, not treated as a logic error.
    pub open spec fn from_code_spec(code: u32) -> ExceptionType {
        match code {
            0x10u32 => ExceptionType::Reset,
            0x20u32 => ExceptionType::MachineCheck,
            0x30u32 => ExceptionType::Dsi,
            0x38u32 => ExceptionType::DataSegment,
            0x40u32 => ExceptionType::Isi,
            0x48u32 => ExceptionType::InstructionSegment,
            0x50u32 => ExceptionType::ExternalInterrupt,
            0x60u32 => ExceptionType::Alignment,
            0x70u32 => ExceptionType::Program,
            0x80u32 => ExceptionType::FloatingPoint,
            0x90u32 => ExceptionType::Decrementer,
            0xC0u32 => ExceptionType::SystemCall,
            0xD0u32 => ExceptionType::Trace,
            0xF0u32 => ExceptionType::Performance,
            _ => ExceptionType::Unknown(code),
        }
    }

    /// The hardware code of a trap reason.
    pub fn code(&self) -> (r: u32)
        ensures
            r == self.code_spec(),
    {
        match self {
            ExceptionType::Reset => 0x10,
            ExceptionType::MachineCheck => 0x20,
            ExceptionType::Dsi => 0x30,
            ExceptionType::DataSegment => 0x38,
            ExceptionType::Isi => 0x40,
            ExceptionType::InstructionSegment => 0x48,
            ExceptionType::ExternalInterrupt => 0x50,
            ExceptionType::Alignment => 0x60,
            ExceptionType::Program => 0x70,
            ExceptionType::FloatingPoint => 0x80,
            ExceptionType::Decrementer => 0x90,
            ExceptionType::SystemCall => 0xC0,
            ExceptionType::Trace => 0xD0,
            ExceptionType::Performance => 0xF0,
            ExceptionType::Unknown(c) => *c,
        }
    }

    /// Decode a hardware code, tolerating codes outside the known set.
    /// Decoding never loses the code: re-encoding gives it back.
    pub fn from_code(code: u32) -> (r: ExceptionType)
        ensures
            r == ExceptionType::from_code_spec(code),
            r.code_spec() == code,
    {
        match code {
            0x10u32 => ExceptionType::Reset,
            0x20u32 => ExceptionType::MachineCheck,
            0x30u32 => ExceptionType::Dsi,
            0x38u32 => ExceptionType::DataSegment,
            0x40u32 => ExceptionType::Isi,
            0x48u32 => ExceptionType::InstructionSegment,
            0x50u32 => ExceptionType::ExternalInterrupt,
            0x60u32 => ExceptionType::Alignment,
            0x70u32 => ExceptionType::Program,
            0x80u32 => ExceptionType::FloatingPoint,
            0x90u32 => ExceptionType::Decrementer,
            0xC0u32 => ExceptionType::SystemCall,
            0xD0u32 => ExceptionType::Trace,
            0xF0u32 => ExceptionType::Performance,
            _ => ExceptionType::Unknown(code),
        }
    }
}

/// The pluggable handler: a capability registered once at initialization and
/// offered every decoded fault together with the faulting core's saved
/// context. Acceptance authorizes the dispatcher to resume the (possibly
/// mutated) context; rejection leaves the context exactly as the trap saved
/// it, so the diagnostic shows the faulting state.
pub trait ExceptionHandler: Sized {
    /// Which (kind, context) pairs this handler accepts.
    spec fn accepts(&self, kind: ExceptionType, ctx: CpuContext) -> bool;

    /// How an accepted context may be rewritten before it is resumed.
    spec fn updates_to(&self, kind: ExceptionType, ctx: CpuContext, resumed: CpuContext) -> bool;

    /// Handle one fault: succeeds exactly on accepted pairs, and only then
    /// may it rewrite the context.
    fn handle(&mut self, kind: ExceptionType, ctx: &mut CpuContext) -> (r: Result<(), ()>)
        ensures
            r is Ok <==> old(self).accepts(kind, *old(ctx)),
            r is Ok ==> old(self).updates_to(kind, *old(ctx), *final(ctx)),
            r is Err ==> *final(ctx) == *old(ctx),
    ;
}

/// Whether an optionally registered handler accepts a fault; an absent
/// handler accepts nothing.
pub open spec fn handler_accepts<H: ExceptionHandler>(
    handler: Option<H>,
    kind: ExceptionType,
    ctx: CpuContext,
) -> bool {
    match handler {
        Some(h) => h.accepts(kind, ctx),
        None => false,
    }
}

/// How an optionally registered handler may rewrite an accepted context.
pub open spec fn handler_updates_to<H: ExceptionHandler>(
    handler: Option<H>,
    kind: ExceptionType,
    ctx: CpuContext,
    resumed: CpuContext,
) -> bool {
    match handler {
        Some(h) => h.updates_to(kind, ctx, resumed),
        None => false,
    }
}

/// The default handler: rejects every fault, so everything falls through to
/// the diagnostic path.
pub struct RejectingHandler;

impl ExceptionHandler for RejectingHandler {
    open spec fn accepts(&self, kind: ExceptionType, ctx: CpuContext) -> bool {
        false
    }

    open spec fn updates_to(&self, kind: ExceptionType, ctx: CpuContext, resumed: CpuContext) -> bool {
        false
    }

    fn handle(&mut self, kind: ExceptionType, ctx: &mut CpuContext) -> (r: Result<(), ()>) {
        Err(())
    }
}

/// Everything the diagnostic path emits before the core halts: the decoded
/// kind, the live machine state and core id, and the faulting core's full
/// saved context — status, link and program-counter registers and the whole
/// register dump.
#[derive(Clone, Copy, Debug, PartialEq, Eq)]
pub struct DiagnosticReport {
    pub kind: ExceptionType,
    pub live_msr: u64,
    pub pir: u64,
    pub saved: CpuContext,
}

/// One emitted line: a value as sixteen hex digits, ended by carriage return
/// and line feed.
pub open spec fn line_of(v: u64) -> Seq<u8> {
    hex64_bytes(v) + seq![0x0Du8, 0x0Au8]
}

/// The first `n` general registers, one line each, in order.
pub open spec fn reg_lines(regs: Seq<u64>, n: int) -> Seq<u8>
    decreases n,
{
    if n <= 0 {
        seq![]
    } else {
        reg_lines(regs, n - 1) + line_of(regs[n - 1])
    }
}

/// Everything the diagnostic emits, as bytes on the output device: one hex
/// line each for the decoded kind's code, the live machine-state register and
/// the faulting core's id, then the saved machine-state, link and
/// program-counter registers, then all 32 general registers in order. The
/// format is fixed-order hex lines; naming the fields is the console
/// reader's concern.
pub open spec fn report_bytes(report: DiagnosticReport) -> Seq<u8> {
    line_of(report.kind.code_spec() as u64) + line_of(report.live_msr) + line_of(report.pir)
        + line_of(report.saved.msr) + line_of(report.saved.lr) + line_of(report.saved.pc)
        + reg_lines(report.saved.r@, 32)
}

/// Write one value as a hex line.
fn write_hex_line(uart: &mut UART, v: u64)
    ensures
        final(uart).tx@ == old(uart).tx@ + line_of(v),
        final(uart).rx == old(uart).rx,
        final(uart).rx_pos == old(uart).rx_pos,
        final(uart).control == old(uart).control,
{
    let digits = hex64(v);
    uart.write(digits.as_slice());
    uart.write_byte(0x0D);
    uart.write_byte(0x0A);
    proof {
        assert(uart.tx@ =~= old(uart).tx@ + line_of(v));
    }
}

/// Emit a full diagnostic report on the output device.
pub fn emit_diagnostic(uart: &mut UART, report: &DiagnosticReport)
    ensures
        final(uart).tx@ == old(uart).tx@ + report_bytes(*report),
        final(uart).rx == old(uart).rx,
        final(uart).rx_pos == old(uart).rx_pos,
        final(uart).control == old(uart).control,
{
    let code = report.kind.code();
    write_hex_line(uart, code as u64);
    write_hex_line(uart, report.live_msr);
    write_hex_line(uart, report.pir);
    write_hex_line(uart, report.saved.msr);
    write_hex_line(uart, report.saved.lr);
    write_hex_line(uart, report.saved.pc);
    let ghost header = old(uart).tx@ + line_of(report.kind.code_spec() as u64) + line_of(
        report.live_msr,
    ) + line_of(report.pir) + line_of(report.saved.msr) + line_of(report.saved.lr) + line_of(
        report.saved.pc,
    );
    let mut i: usize = 0;
    proof {
        assert(uart.tx@ =~= header + reg_lines(report.saved.r@, 0));
    }
    while i < 32
        invariant
            i <= 32,
            uart.tx@ == header + reg_lines(report.saved.r@, i as int),
            uart.rx == old(uart).rx,
            uart.rx_pos == old(uart).rx_pos,
            uart.control == old(uart).control,
        decreases 32 - i,
    {
        write_hex_line(uart, report.saved.r[i]);
        proof {
            assert(uart.tx@ =~= header + reg_lines(report.saved.r@, i + 1));
        }
        i = i + 1;
    }
    proof {
        assert(uart.tx@ =~= old(uart).tx@ + report_bytes(*report));
    }
}

/// What the dispatcher decided: resume into a context (the privileged load
/// path, which never returns), or halt this core for good — after requesting
/// a system restart when the faulting core is the primary.
pub enum DispatchOutcome {
    Resume(CpuContext),
    Halt { restart: bool, acquisition: Acquisition, report: DiagnosticReport },
}

/// Dispatch one exception on core `pir`. `raw_code` is the scratch-register
/// value the save trampoline stashed; `live_msr` is the machine-state word at
/// dispatch time; the core's saved context sits in its slot of `save_bank`.
///
/// A registered handler that accepts gets its rewritten context resumed, and
/// only that core's SAVE slot changes. Everything else falls through to the
/// diagnostic: the output device is acquired with bounded retries (taken over
/// by force if the faulting core already held it — the path never deadlocks
/// and the report is always complete), a restart is requested if and only if
/// this is the primary core, and the outcome is a permanent halt.
pub fn handle_exception<H: ExceptionHandler>(
    handler: &mut Option<H>,
    raw_code: u32,
    pir: u64,
    live_msr: u64,
    save_bank: &mut ContextBank,
    output: &mut SpinMutex<UART>,
    smc: &mut SMC,
) -> (r: DispatchOutcome)
    requires
        pir < CORE_COUNT as u64,
        old(save_bank).wf(),
    ensures
        final(save_bank).wf(),
        (r is Resume) <==> handler_accepts(
            *old(handler),
            ExceptionType::from_code_spec(raw_code),
            old(save_bank).slots@[pir as int],
        ),
        r matches DispatchOutcome::Resume(m) ==> {
            &&& handler_updates_to(
                *old(handler),
                ExceptionType::from_code_spec(raw_code),
                old(save_bank).slots@[pir as int],
                m,
            )
            &&& final(save_bank).slots@ == old(save_bank).slots@.update(pir as int, m)
            &&& *final(output) == *old(output)
            &&& *final(smc) == *old(smc)
        },
        r matches DispatchOutcome::Halt { restart, acquisition, report } ==> {
            &&& restart == (pir == 0)
            &&& report.kind == ExceptionType::from_code_spec(raw_code)
            &&& report.live_msr == live_msr
            &&& report.pir == pir
            &&& report.saved == old(save_bank).slots@[pir as int]
            &&& (acquisition == Acquisition::Acquired <==> !old(output).is_locked())
            &&& final(output).lock_count == old(output).lock_count
            &&& final(output).inner.tx@ == old(output).inner.tx@ + report_bytes(report)
            &&& final(output).inner.rx == old(output).inner.rx
            &&& final(output).inner.rx_pos == old(output).inner.rx_pos
            &&& final(output).inner.control == old(output).inner.control
            &&& final(save_bank).slots@ == old(save_bank).slots@
            &&& (pir == 0 ==> final(smc).sent@.len() == old(smc).sent@.len() + 1
                && final(smc).sent@.drop_last() == old(smc).sent@
                && final(smc).sent@.last()@ == seq![RESTART_WORD, 0u32, 0u32, 0u32])
            &&& (pir != 0 ==> *final(smc) == *old(smc))
        },
{
    let kind = ExceptionType::from_code(raw_code);
    let core = pir as usize;
    let mut slot = *save_bank.slot(core);
    let handled = match handler {
        Some(h) => h.handle(kind, &mut slot).is_ok(),
        None => false,
    };
    if handled {
        save_bank.save_context(core, &slot);
        return DispatchOutcome::Resume(load_context(&slot));
    }
    // The fault may have interrupted a context that already held the output
    // lock: retry briefly, then take it over rather than deadlock.
    let acquisition = lock_with_retries(output, DIAGNOSTIC_LOCK_RETRIES);
    let report = DiagnosticReport { kind, live_msr, pir, saved: slot };
    let device = output.get_mut_unchecked();
    emit_diagnostic(device, &report);
    if matches!(acquisition, Acquisition::Acquired) {
        output.unlock();
    }
    if pir == 0 {
        // The primary core is gone: auto-restart the system before halting.
        smc.restart_system();
    }
    DispatchOutcome::Halt { restart: pir == 0, acquisition, report }
}

/// One core's exception plumbing, assembled at initialization: the registered
/// handler and the SAVE and LOAD context areas.
pub struct ExceptionSystem<H> {
    pub handler: Option<H>,
    pub save_bank: ContextBank,
    pub load_bank: ContextBank,
}

/// Stack top the dispatcher entry context of core 0 gets; each further core
/// sits one 64 KiB step below.
pub const DISPATCH_STACK_BASE: u64 = 0x8000_0000_1FFF_0000;

/// Initialize exception handling: register the handler, set up each core's
/// LOAD slot to enter the dispatcher at `dispatch_target` on its own stack,
/// patch the save and load trampolines with the relocated context-area bases,
/// and compute the long jumps to copy onto the fixed vector addresses.
///
/// The caller copies the returned vector code into place and flushes it while
/// no other core can be executing there; afterwards the trampolines and
/// vectors are live and must not be patched again.
pub fn init_except<H: ExceptionHandler>(
    handler: Option<H>,
    dispatch_target: usize,
    save_thunk: &mut Vec<u32>,
    save_area_base: u64,
    load_thunk: &mut Vec<u32>,
    load_area_base: u64,
    thunk_addr: usize,
) -> (r: (ExceptionSystem<H>, Vec<VectorInstall>))
    requires
        old(save_thunk).len() >= 8,
        old(load_thunk).len() >= 7,
    ensures
        r.0.handler == handler,
        r.0.save_bank.wf(),
        forall|i: int| 0 <= i < CORE_COUNT ==> r.0.save_bank.slots@[i].is_zeroed(),
        r.0.load_bank.wf(),
        forall|i: int| 0 <= i < CORE_COUNT ==> is_hvcall_context(
            #[trigger] r.0.load_bank.slots@[i],
            dispatch_target as u64,
            (DISPATCH_STACK_BASE - i * 0x10000) as u64,
        ),
        final(save_thunk)@ == patched_save_thunk(old(save_thunk)@, save_area_base),
        final(load_thunk)@ == patched_load_thunk(old(load_thunk)@, load_area_base),
        r.1@.len() == VECTOR_COUNT,
        forall|i: int| 0 <= i < VECTOR_COUNT ==> {
            &&& (#[trigger] r.1@[i]).address == exception_vectors()[i]
            &&& r.1@[i].code@ == longjmp_exc_words(
                vector_id(exception_vectors()[i]),
                thunk_addr as u64,
            )
        },
{
    let save_bank = ContextBank::new();
    let mut load_slots: Vec<CpuContext> = Vec::new();
    let mut i: usize = 0;
    while i < CORE_COUNT
        invariant
            i <= CORE_COUNT,
            load_slots@.len() == i,
            forall|j: int| 0 <= j < i ==> is_hvcall_context(
                #[trigger] load_slots@[j],
                dispatch_target as u64,
                (DISPATCH_STACK_BASE - j * 0x10000) as u64,
            ),
        decreases CORE_COUNT - i,
    {
        let stack = DISPATCH_STACK_BASE - (i as u64) * 0x10000;
        load_slots.push(CpuContext::with_hvcall(dispatch_target, stack));
        i = i + 1;
    }
    let load_bank = ContextBank { slots: load_slots };
    patch_save_thunk(save_thunk, save_area_base);
    patch_load_thunk(load_thunk, load_area_base);
    let installs = vector_installs(thunk_addr);
    (ExceptionSystem { handler, save_bank, load_bank }, installs)
}

} // verus!
