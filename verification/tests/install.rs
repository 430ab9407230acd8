use xenon_capture::context::CORE_COUNT;
use xenon_capture::dispatch::DISPATCH_STACK_BASE;
use xenon_capture::dispatch::RejectingHandler;
use xenon_capture::dispatch::init_except;
use xenon_capture::insn::make_longjmp_exc;
use xenon_capture::patch::patch_load_thunk;
use xenon_capture::patch::patch_save_thunk;
use xenon_capture::vectors::VECTOR_COUNT;
use xenon_capture::vectors::exception_vector;
use xenon_capture::vectors::vector_installs;

/// A stand-in trampoline image: recognizable filler words at every offset.
fn template(len: usize) -> Vec<u32> {
    (0..len as u32).map(|i| 0xAAAA_0000 | i).collect()
}

#[test]
fn save_thunk_patch_rewrites_exactly_four_words() {
    let mut thunk = template(12);
    patch_save_thunk(&mut thunk, 0x8000_0000_0123_8018);
    assert_eq!(thunk[3], 0x6484_8000);
    assert_eq!(thunk[4], 0x6084_0000);
    assert_eq!(thunk[6], 0x6484_0124);
    assert_eq!(thunk[7], 0x3884_8018);
    for i in [0usize, 1, 2, 5, 8, 9, 10, 11] {
        assert_eq!(thunk[i], 0xAAAA_0000 | i as u32, "word {i} must stay untouched");
    }
}

#[test]
fn load_thunk_patch_rewrites_exactly_four_words() {
    let mut thunk = template(8);
    patch_load_thunk(&mut thunk, 0x8000_0000_0123_8018);
    assert_eq!(thunk[2], 0x6463_8000);
    assert_eq!(thunk[3], 0x6063_0000);
    assert_eq!(thunk[5], 0x6463_0124);
    assert_eq!(thunk[6], 0x3863_8018);
    for i in [0usize, 1, 4, 7] {
        assert_eq!(thunk[i], 0xAAAA_0000 | i as u32, "word {i} must stay untouched");
    }
}

#[test]
fn patching_twice_with_the_same_base_is_a_no_op() {
    let mut once = template(12);
    patch_save_thunk(&mut once, 0x8000_0000_0004_0000);
    let mut twice = once.clone();
    patch_save_thunk(&mut twice, 0x8000_0000_0004_0000);
    assert_eq!(once, twice);

    let mut lonce = template(8);
    patch_load_thunk(&mut lonce, 0x8000_0000_0005_0000);
    let mut ltwice = lonce.clone();
    patch_load_thunk(&mut ltwice, 0x8000_0000_0005_0000);
    assert_eq!(lonce, ltwice);
}

#[test]
fn vector_addresses_are_the_architectural_set() {
    let expected: [u64; 17] = [
        0x0100, 0x0200, 0x0300, 0x0380, 0x0400, 0x0480, 0x0500, 0x0600, 0x0700, 0x0800, 0x0900,
        0x0980, 0x0C00, 0x0D00, 0x0F00, 0x1600, 0x1800,
    ];
    for (i, &addr) in expected.iter().enumerate() {
        assert_eq!(exception_vector(i), addr);
    }
}

#[test]
fn vector_installs_carry_each_vectors_identifier() {
    let thunk_addr = 0x8000_0000_0002_0000usize;
    let installs = vector_installs(thunk_addr);
    assert_eq!(installs.len(), VECTOR_COUNT);
    for (i, install) in installs.iter().enumerate() {
        assert_eq!(install.address, exception_vector(i));
        let id = (install.address >> 4) as u16;
        assert_eq!(install.code, make_longjmp_exc(id, thunk_addr));
        // The identifier-loading word carries the id verbatim.
        assert_eq!(install.code[9], 0x3860_0000 | id as u32);
    }
    // The reset vector's identifier is the reset trap code.
    assert_eq!(installs[0].code[9], 0x3860_0010);
}

#[test]
fn init_except_assembles_the_whole_installation() {
    let mut save_thunk = template(12);
    let mut load_thunk = template(8);
    let (system, installs) = init_except(
        Some(RejectingHandler),
        0x3_0000,
        &mut save_thunk,
        0x8000_0000_0123_8018,
        &mut load_thunk,
        0x8000_0000_0456_0000,
        0x2_0000,
    );
    assert!(system.handler.is_some());
    assert_eq!(system.save_bank.slots.len(), CORE_COUNT);
    assert_eq!(system.load_bank.slots.len(), CORE_COUNT);
    for (i, slot) in system.load_bank.slots.iter().enumerate() {
        assert_eq!(slot.pc, 0x3_0000);
        assert_eq!(slot.r[12], 0x3_0000);
        assert_eq!(slot.r[1], DISPATCH_STACK_BASE - (i as u64) * 0x10000);
    }
    assert_eq!(save_thunk[3], 0x6484_8000);
    assert_eq!(save_thunk[7], 0x3884_8018);
    assert_eq!(load_thunk[2], 0x6463_8000);
    assert_eq!(load_thunk[6], 0x3863_0000);
    assert_eq!(installs.len(), VECTOR_COUNT);
    assert_eq!(installs[0].address, 0x100);
}
