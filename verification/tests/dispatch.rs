use xenon_capture::context::ContextBank;
use xenon_capture::context::CpuContext;
use xenon_capture::context::SCRATCH_FILL;
use xenon_capture::context::HVCALL_MSR;
use xenon_capture::dispatch::emit_diagnostic;
use xenon_capture::dispatch::DiagnosticReport;
use xenon_capture::dispatch::DispatchOutcome;
use xenon_capture::dispatch::ExceptionType;
use xenon_capture::dispatch::RejectingHandler;
use xenon_capture::dispatch::handle_exception;
use xenon_capture::mode::FirmwareHandler;
use xenon_capture::mode::HandlerMode;
use xenon_capture::mode::ModeSelector;
use xenon_capture::mode::mode_from_raw;
use xenon_capture::mode::exception_handler;
use xenon_capture::mode::normal_exception_handler;
use xenon_capture::mode::startup_exception_handler;
use xenon_capture::mutex::Acquisition;
use xenon_capture::mutex::SpinMutex;
use xenon_capture::smc::SMC;
use xenon_capture::uart::hex64;
use xenon_capture::uart::UART;

#[test]
fn exception_codes_decode() {
    let known: [(u32, ExceptionType); 14] = [
        (0x10, ExceptionType::Reset),
        (0x20, ExceptionType::MachineCheck),
        (0x30, ExceptionType::Dsi),
        (0x38, ExceptionType::DataSegment),
        (0x40, ExceptionType::Isi),
        (0x48, ExceptionType::InstructionSegment),
        (0x50, ExceptionType::ExternalInterrupt),
        (0x60, ExceptionType::Alignment),
        (0x70, ExceptionType::Program),
        (0x80, ExceptionType::FloatingPoint),
        (0x90, ExceptionType::Decrementer),
        (0xC0, ExceptionType::SystemCall),
        (0xD0, ExceptionType::Trace),
        (0xF0, ExceptionType::Performance),
    ];
    for (code, kind) in known {
        assert_eq!(ExceptionType::from_code(code), kind);
        assert_eq!(kind.code(), code);
    }
}

#[test]
fn unknown_codes_are_legitimate_values() {
    // Vector slots exist whose identifiers name no known trap reason; their
    // codes ride through decoding unchanged.
    for code in [0x98u32, 0x160, 0x180, 0, 0xFFFF_FFFF] {
        let kind = ExceptionType::from_code(code);
        assert_eq!(kind, ExceptionType::Unknown(code));
        assert_eq!(kind.code(), code);
    }
}

fn sample_context() -> CpuContext {
    let mut ctx = CpuContext::new();
    ctx.r[1] = 0xAAAA_0001;
    ctx.r[31] = 0xAAAA_001F;
    ctx.lr = 0x4444;
    ctx.pc = 0x5555;
    ctx.msr = 0x8000_0000_0000_0000;
    ctx
}

#[test]
fn unhandled_fault_on_primary_restarts_and_halts() {
    let mut handler: Option<RejectingHandler> = Some(RejectingHandler);
    let mut bank = ContextBank::new();
    bank.save_context(0, &sample_context());
    let mut output = SpinMutex::new(UART::new());
    let mut smc = SMC::new();
    let outcome = handle_exception(&mut handler, 0x70, 0, 0x9000, &mut bank, &mut output, &mut smc);
    match outcome {
        DispatchOutcome::Halt { restart, acquisition, report } => {
            assert!(restart);
            assert_eq!(acquisition, Acquisition::Acquired);
            assert_eq!(report.kind, ExceptionType::Program);
            assert_eq!(report.live_msr, 0x9000);
            assert_eq!(report.pir, 0);
            assert_eq!(report.saved, sample_context());
        }
        DispatchOutcome::Resume(_) => panic!("a rejected fault must not resume"),
    }
    // The primary's halt is preceded by a restart request on the wire.
    assert_eq!(smc.sent, vec![[0x8204_3000u32, 0, 0, 0]]);
}

#[test]
fn unhandled_fault_on_secondary_halts_without_restart() {
    let mut handler: Option<RejectingHandler> = None;
    let mut bank = ContextBank::new();
    bank.save_context(3, &sample_context());
    let mut output = SpinMutex::new(UART::new());
    let mut smc = SMC::new();
    let outcome = handle_exception(&mut handler, 0x98, 3, 0, &mut bank, &mut output, &mut smc);
    match outcome {
        DispatchOutcome::Halt { restart, report, .. } => {
            assert!(!restart);
            assert_eq!(report.kind, ExceptionType::Unknown(0x98));
            assert_eq!(report.pir, 3);
        }
        DispatchOutcome::Resume(_) => panic!("an absent handler must not resume"),
    }
    assert!(smc.sent.is_empty());
}

#[test]
fn diagnostic_path_forces_a_lock_the_core_already_held() {
    // The fault interrupted a context that held the output device: the
    // bounded retries run out and the takeover is forced, and the report is
    // still complete.
    let mut handler: Option<RejectingHandler> = Some(RejectingHandler);
    let mut bank = ContextBank::new();
    bank.save_context(2, &sample_context());
    let mut output = SpinMutex::new(UART::new());
    output.lock();
    let mut smc = SMC::new();
    let outcome = handle_exception(&mut handler, 0x60, 2, 0, &mut bank, &mut output, &mut smc);
    match outcome {
        DispatchOutcome::Halt { restart, acquisition, report } => {
            assert!(!restart);
            assert_eq!(acquisition, Acquisition::Forced);
            assert_eq!(report.kind, ExceptionType::Alignment);
            assert_eq!(report.saved, sample_context());
        }
        DispatchOutcome::Resume(_) => panic!("a rejected fault must not resume"),
    }
}

#[test]
fn startup_capture_parks_the_faulting_core() {
    let mut handler = Some(FirmwareHandler { mode: HandlerMode::Startup, pir: 4, entry: 0x7000 });
    let mut bank = ContextBank::new();
    bank.save_context(4, &sample_context());
    let mut output = SpinMutex::new(UART::new());
    let mut smc = SMC::new();
    let outcome = handle_exception(&mut handler, 0x50, 4, 0, &mut bank, &mut output, &mut smc);
    match outcome {
        DispatchOutcome::Resume(machine) => {
            assert_eq!(machine.pc, 0x7000);
            assert_eq!(machine.r[12], 0x7000);
            assert_eq!(machine.r[1], 0x8000_0000_1E00_0000 - (4 << 16));
            assert_eq!(machine.r[0], SCRATCH_FILL);
            assert_eq!(machine.msr, HVCALL_MSR);
        }
        DispatchOutcome::Halt { .. } => panic!("startup policy accepts every fault"),
    }
    assert!(smc.sent.is_empty());
}

#[test]
fn normal_mode_resumes_external_interrupts_untouched() {
    let mut handler = Some(FirmwareHandler { mode: HandlerMode::Normal, pir: 1, entry: 0x7000 });
    let mut bank = ContextBank::new();
    bank.save_context(1, &sample_context());
    let mut output = SpinMutex::new(UART::new());
    let mut smc = SMC::new();
    let outcome = handle_exception(&mut handler, 0x50, 1, 0, &mut bank, &mut output, &mut smc);
    match outcome {
        DispatchOutcome::Resume(machine) => assert_eq!(machine, sample_context()),
        DispatchOutcome::Halt { .. } => panic!("normal policy accepts external interrupts"),
    }
}

#[test]
fn normal_mode_rejects_other_faults() {
    let mut handler = Some(FirmwareHandler { mode: HandlerMode::Normal, pir: 1, entry: 0x7000 });
    let mut bank = ContextBank::new();
    bank.save_context(1, &sample_context());
    let mut output = SpinMutex::new(UART::new());
    let mut smc = SMC::new();
    let outcome = handle_exception(&mut handler, 0x70, 1, 0, &mut bank, &mut output, &mut smc);
    assert!(matches!(outcome, DispatchOutcome::Halt { .. }));
}

#[test]
fn handler_functions_follow_their_policies() {
    let mut ctx = sample_context();
    assert_eq!(normal_exception_handler(ExceptionType::ExternalInterrupt, &mut ctx), Ok(()));
    assert_eq!(ctx, sample_context());
    assert_eq!(normal_exception_handler(ExceptionType::Program, &mut ctx), Err(()));
    assert_eq!(ctx, sample_context());

    let mut ctx2 = sample_context();
    assert_eq!(startup_exception_handler(ExceptionType::Program, &mut ctx2, 2, 0x9000), Ok(()));
    assert_eq!(ctx2.pc, 0x9000);
    assert_eq!(ctx2.r[1], 0x8000_0000_1E00_0000 - (2 << 16));

    let mut ctx3 = sample_context();
    assert_eq!(
        exception_handler(HandlerMode::Normal, ExceptionType::Decrementer, &mut ctx3, 0, 0x9000),
        Err(())
    );
    assert_eq!(
        exception_handler(HandlerMode::Startup, ExceptionType::Decrementer, &mut ctx3, 0, 0x9000),
        Ok(())
    );
}

#[test]
fn mode_selector_flips_exactly_to_normal() {
    let selector = ModeSelector::new();
    assert_eq!(selector.current(), HandlerMode::Startup);
    selector.complete_capture();
    assert_eq!(selector.current(), HandlerMode::Normal);
    // A second completion changes nothing: the flag never moves back.
    selector.complete_capture();
    assert_eq!(selector.current(), HandlerMode::Normal);
}

#[test]
fn hex_rendering_is_exact() {
    assert_eq!(hex64(0x0123_4567_89AB_CDEF), b"0123456789ABCDEF".to_vec());
    assert_eq!(hex64(0), b"0000000000000000".to_vec());
    assert_eq!(hex64(u64::MAX), b"FFFFFFFFFFFFFFFF".to_vec());
}

#[test]
fn diagnostic_emits_every_value_as_a_hex_line() {
    let mut saved = sample_context();
    saved.msr = 0x1111;
    let report = DiagnosticReport {
        kind: ExceptionType::Program,
        live_msr: 0x9000,
        pir: 2,
        saved,
    };
    let mut uart = UART::new();
    emit_diagnostic(&mut uart, &report);
    // Six header lines and 32 register lines, 18 bytes each.
    assert_eq!(uart.tx.len(), 38 * 18);
    let lines: Vec<&[u8]> = uart.tx.chunks(18).collect();
    assert_eq!(lines[0], b"0000000000000070\r\n");
    assert_eq!(lines[1], b"0000000000009000\r\n");
    assert_eq!(lines[2], b"0000000000000002\r\n");
    assert_eq!(lines[3], b"0000000000001111\r\n");
    assert_eq!(lines[4], b"0000000000004444\r\n");
    assert_eq!(lines[5], b"0000000000005555\r\n");
    for i in 0..32 {
        assert_eq!(&lines[6 + i][..16], hex64(saved.r[i]).as_slice(), "register {i} line");
    }
}

#[test]
fn unhandled_fault_dumps_onto_the_output_device() {
    let mut handler: Option<RejectingHandler> = Some(RejectingHandler);
    let mut bank = ContextBank::new();
    bank.save_context(1, &sample_context());
    let mut output = SpinMutex::new(UART::new());
    output.lock();
    let mut smc = SMC::new();
    handle_exception(&mut handler, 0x70, 1, 0x9000, &mut bank, &mut output, &mut smc);
    // The dump is complete even though the lock was held and had to be forced.
    let tx = &output.get_mut_unchecked().tx;
    assert_eq!(tx.len(), 38 * 18);
    assert_eq!(&tx[..18], b"0000000000000070\r\n");
}

#[test]
fn mode_decode_treats_only_the_flip_value_as_normal() {
    assert_eq!(mode_from_raw(0), HandlerMode::Startup);
    assert_eq!(mode_from_raw(1), HandlerMode::Normal);
    assert_eq!(mode_from_raw(7), HandlerMode::Startup);
    assert_eq!(mode_from_raw(0xFF), HandlerMode::Startup);
}
