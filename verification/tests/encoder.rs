use xenon_capture::insn::bit;
use xenon_capture::insn::make_arithaddr;
use xenon_capture::insn::abs_diff;
use xenon_capture::insn::make_reljump;
use xenon_capture::insn::make_longjmp;
use xenon_capture::insn::make_longjmp_exc;
use xenon_capture::insn::EncodeError;

/// Decode a branch opcode's displacement field, sign-extending it.
fn decode_displacement(w: u32) -> i64 {
    let field = (w & 0x00FF_FFFC) as i64;
    if field >= 0x0080_0000 {
        field - 0x0100_0000
    } else {
        field
    }
}

/// Re-materialize an address from its sign-extending split.
fn rematerialize(hi: u16, lo: u16) -> u32 {
    ((hi as u32) << 16).wrapping_add(lo as i16 as i32 as u32)
}

#[test]
fn test_arithaddr() {
    assert_eq!(make_arithaddr(0x0B0B8018), (0x0B0C, 0x8018));
}

#[test]
fn arithaddr_no_carry() {
    assert_eq!(make_arithaddr(0x0B0B0018), (0x0B0B, 0x0018));
    assert_eq!(make_arithaddr(0), (0, 0));
}

#[test]
fn arithaddr_roundtrip_identity() {
    for addr in [
        0u32,
        1,
        0x7FFF,
        0x8000,
        0xFFFF,
        0x0B0B_8018,
        0x1234_5678,
        0xFFFF_7FFF,
        0xFFFF_8000,
        0xFFFF_FFFF,
    ] {
        let (hi, lo) = make_arithaddr(addr);
        assert_eq!(rematerialize(hi, lo), addr, "split of {addr:#X} does not round-trip");
    }
}

#[test]
fn arithaddr_wraps_at_top_of_word() {
    // The carry out of the top half wraps: the pair still re-materializes the
    // address modulo the 32-bit word.
    assert_eq!(make_arithaddr(0xFFFF_8000), (0x0000, 0x8000));
}

#[test]
fn bit_counts_from_the_most_significant_end() {
    assert_eq!(bit(0), 0x8000_0000_0000_0000);
    assert_eq!(bit(48), 0x0000_0000_0000_8000);
    assert_eq!(bit(63), 1);
}

#[test]
fn abs_diff_both_orders() {
    assert_eq!(abs_diff(7, 3), 4);
    assert_eq!(abs_diff(3, 7), 4);
    assert_eq!(abs_diff(5, 5), 0);
}

#[test]
fn reljump_forward() {
    assert_eq!(make_reljump(0x100, 0x200), Ok(0x4800_0100));
    assert_eq!(decode_displacement(0x4800_0100), 0x100);
}

#[test]
fn reljump_backward() {
    let w = make_reljump(0x100, 0x8).unwrap();
    assert_eq!(w, 0x48FF_FF08);
    assert_eq!(decode_displacement(w), 0x8 - 0x100);
}

#[test]
fn reljump_decodes_to_exact_distance_in_range() {
    for (address, target) in [
        (0usize, 0usize),
        (0x100, 0x8),
        (0x8, 0x100),
        (0x10_0000, 0x8F_FFF8),
        (0x8F_FFF8, 0x10_0000),
        (0x1_0000_0000, 0x1_0000_1000),
    ] {
        let w = make_reljump(address, target).expect("distance is in range");
        assert_eq!(w & 0xFC00_0003, 0x4800_0000);
        assert_eq!(
            decode_displacement(w) as i128,
            target as i128 - address as i128,
            "branch from {address:#X} to {target:#X}"
        );
    }
}

#[test]
fn reljump_fails_deterministically_out_of_range() {
    assert_eq!(make_reljump(0, 0x0100_0000), Err(EncodeError::OffsetOutOfRange));
    assert_eq!(make_reljump(0x0100_0000, 0), Err(EncodeError::OffsetOutOfRange));
    // The boundary itself is rejected; one word inside it is not.
    assert_eq!(make_reljump(0, 0x7F_FFFF), Err(EncodeError::OffsetOutOfRange));
    assert!(make_reljump(0, 0x7F_FFFC).is_ok());
}

#[test]
fn longjmp_words_exact() {
    let words = make_longjmp(0x1234_5678_9ABC_DEF0, 0x1122_3344_5566_7788);
    assert_eq!(
        words,
        [
            0x3C60_1234, 0x6063_5678, 0x7863_07C6, 0x6463_9ABC, 0x6063_DEF0, 0x7C7A_03A6,
            0x3C80_0000, 0x6084_8030, 0x7C60_00A6, 0x7C63_2078, 0x7C7B_03A6, 0x3C60_1122,
            0x6063_3344, 0x7863_07C6, 0x6463_5566, 0x6063_7788, 0x4C00_0024,
        ]
    );
}

#[test]
fn longjmp_exc_words_exact() {
    let words = make_longjmp_exc(0x10, 0x2_0000);
    assert_eq!(
        words,
        [
            0x7C70_4BA6, 0x7C91_4BA6, 0x3C60_0000, 0x6063_0000, 0x7863_07C6, 0x6463_0002,
            0x6063_0000, 0x7C89_02A6, 0x7C69_03A6, 0x3860_0010, 0x4E80_0420,
        ]
    );
}
