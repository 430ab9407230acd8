use xenon_capture::context::ContextBank;
use xenon_capture::context::CpuContext;
use xenon_capture::context::CORE_COUNT;
use xenon_capture::context::HVCALL_MSR;
use xenon_capture::context::SCRATCH_FILL;
use xenon_capture::context::load_context;

#[test]
fn new_context_is_zeroed() {
    let ctx = CpuContext::new();
    assert_eq!(ctx.r, [0u64; 32]);
    assert_eq!(ctx.cr, 0);
    assert_eq!(ctx.lr, 0);
    assert_eq!(ctx.ctr, 0);
    assert_eq!(ctx.pc, 0);
    assert_eq!(ctx.msr, 0);
    assert_eq!(CpuContext::default(), ctx);
}

#[test]
fn hvcall_context_fields() {
    let ctx = CpuContext::with_hvcall(0x1234, 0x8000_0000_1FFE_0000);
    assert_eq!(ctx.pc, 0x1234);
    assert_eq!(ctx.r[12], 0x1234);
    assert_eq!(ctx.r[1], 0x8000_0000_1FFE_0000);
    assert_eq!(ctx.msr, HVCALL_MSR);
    assert_eq!(ctx.cr, SCRATCH_FILL);
    assert_eq!(ctx.lr, SCRATCH_FILL);
    assert_eq!(ctx.ctr, SCRATCH_FILL);
    for i in (0..32).filter(|&i| i != 1 && i != 12) {
        assert_eq!(ctx.r[i], SCRATCH_FILL, "register {i} is scratch-filled");
    }
}

#[test]
fn bank_has_one_slot_per_core() {
    let bank = ContextBank::new();
    assert_eq!(bank.slots.len(), CORE_COUNT);
    for slot in &bank.slots {
        assert_eq!(*slot, CpuContext::new());
    }
}

fn live_state() -> CpuContext {
    let mut ctx = CpuContext::new();
    for i in 0..32 {
        ctx.r[i] = 0x1000 + i as u64;
    }
    ctx.cr = 0x2222;
    ctx.lr = 0x3333;
    ctx.ctr = 0x4444;
    ctx.pc = 0x5555;
    ctx.msr = 0x6666;
    ctx
}

#[test]
fn save_resume_roundtrip_is_identity() {
    // A fault saves the live state; resuming the unmodified slot reproduces
    // that exact state.
    let mut bank = ContextBank::new();
    let live = live_state();
    bank.save_context(2, &live);
    let resumed = load_context(&bank.slots[2]);
    assert_eq!(resumed, live);
}

#[test]
fn save_touches_only_the_faulting_cores_slot() {
    let mut bank = ContextBank::new();
    bank.save_context(4, &live_state());
    for core in [0usize, 1, 2, 3, 5] {
        assert_eq!(bank.slots[core], CpuContext::new(), "slot {core} must stay untouched");
    }
    assert_eq!(bank.slots[4], live_state());
}

#[test]
fn load_context_replaces_the_whole_machine_state() {
    let ctx = live_state();
    let machine = load_context(&ctx);
    assert_eq!(machine, ctx);
}
