use rvdc::AmoOp;
use rvdc::AmoOrdering;
use rvdc::Csr;
use rvdc::Fence;
use rvdc::FenceSet;
use rvdc::Imm;
use rvdc::Inst;
use rvdc::Reg;
use rvdc::RoundingMode;
use rvdc::Xlen;

#[test]
fn xlen_queries() {
    assert!(Xlen::Rv32.is_32());
    assert!(!Xlen::Rv32.is_64());
    assert!(Xlen::Rv64.is_64());
    assert!(!Xlen::Rv64.is_32());
}

#[test]
fn imm_accessors_agree() {
    let neg = Imm::new_i32(-5);
    assert_eq!(neg.as_i32(), -5);
    assert_eq!(neg.as_i64(), -5);
    assert_eq!(neg.as_u32(), 0xfffffffb);
    assert_eq!(neg.as_u64(), 0xffffffff_fffffffb);

    let pos = Imm::new_u32(0x8000_0000);
    assert_eq!(pos.as_u32(), 0x8000_0000);
    assert_eq!(pos.as_u64(), 0x8000_0000);
    assert_eq!(pos.as_i32(), i32::MIN);
    assert_eq!(pos.as_i64(), 0x8000_0000);

    assert_eq!(Imm::zero(), Imm::new_u32(0));

    // On every immediate the 32-bit accessors read the low half of the
    // 64-bit ones.
    for imm in [neg, pos, Imm::new_i32(i32::MIN), Imm::new_i32(i32::MAX)] {
        assert_eq!(imm.as_u32(), imm.as_u64() as u32);
        assert_eq!(imm.as_i32(), imm.as_i64() as i32);
    }

    // Decoder-produced immediates are sign-extended: the 64-bit view is the
    // sign extension of the 32-bit one.
    let lui = Inst::decode_normal(0x80000537, Xlen::Rv64).unwrap();
    match lui {
        Inst::Lui { uimm, .. } => {
            assert_eq!(uimm.as_u32(), 0x8000_0000);
            assert_eq!(uimm.as_u32() >> 12, 0x80000);
            assert_eq!(uimm.as_i64(), (uimm.as_i32()) as i64);
            assert_eq!(uimm.as_u64(), 0xffffffff_8000_0000);
        }
        other => panic!("expected lui, got {}", other.render()),
    }
}

#[test]
fn amo_ordering_bits_roundtrip() {
    for (aq, rl) in [(false, false), (true, false), (false, true), (true, true)] {
        let order = AmoOrdering::from_aq_rl(aq, rl);
        assert_eq!(order.aq_rl(), (aq, rl));
    }
    assert_eq!(AmoOrdering::from_aq_rl(true, true), AmoOrdering::SeqCst);
    assert_eq!(AmoOrdering::from_aq_rl(false, false), AmoOrdering::Relaxed);
}

#[test]
fn rounding_mode_bits_roundtrip() {
    for rm in [
        RoundingMode::RoundToNearestTiesToEven,
        RoundingMode::RoundTowardsZero,
        RoundingMode::RoundDown,
        RoundingMode::RoundUp,
        RoundingMode::RoundToNearestTiesToMax,
        RoundingMode::Dynamic,
    ] {
        assert_eq!(RoundingMode::from_rm(rm.to_rm()), Some(rm));
    }
    assert_eq!(RoundingMode::from_rm(0b101), None);
    assert_eq!(RoundingMode::from_rm(0b110), None);
    assert_eq!(RoundingMode::Dynamic.to_rm(), 0b111);
}

#[test]
fn fence_aliases() {
    let rw = FenceSet {
        device_input: false,
        device_output: false,
        memory_read: true,
        memory_write: true,
    };
    let tso = Fence {
        fm: 0b1000,
        pred: rw,
        succ: rw,
        dest: Reg::zero(),
        src: Reg::zero(),
    };
    assert!(tso.is_tso());
    assert!(!tso.is_pause());
    assert_eq!(Inst::Fence { fence: tso }.render(), "fence.tso");

    let w = FenceSet {
        device_input: false,
        device_output: false,
        memory_read: false,
        memory_write: true,
    };
    let none = FenceSet {
        device_input: false,
        device_output: false,
        memory_read: false,
        memory_write: false,
    };
    let pause = Fence {
        fm: 0,
        pred: w,
        succ: none,
        dest: Reg::zero(),
        src: Reg::zero(),
    };
    assert!(pause.is_pause());
    assert!(!pause.is_tso());
    assert_eq!(Inst::Fence { fence: pause }.render(), "pause");

    let plain = Fence {
        fm: 0,
        pred: rw,
        succ: w,
        dest: Reg::zero(),
        src: Reg::zero(),
    };
    assert!(!plain.is_tso());
    assert!(!plain.is_pause());
    assert_eq!(Inst::Fence { fence: plain }.render(), "fence rw,w");

    // The canonical fence.tso word round-trips exactly.
    let word = 0x8330000f;
    let decoded = Inst::decode_normal(word, Xlen::Rv32).unwrap();
    assert_eq!(decoded, Inst::Fence { fence: tso });
    assert_eq!(decoded.encode_normal(Xlen::Rv32), word);
}

#[test]
fn first_byte_width_detection() {
    // addi sp, sp, -0x20 (compressed)
    let x = 0x1101_u32;
    assert!(Inst::first_byte_is_compressed(x.to_le_bytes()[0]));
    let x = 0x1101_u16;
    assert!(Inst::first_byte_is_compressed(x.to_le_bytes()[0]));
    // auipc t1, 0xa
    let x = 0x0000a317_u32;
    assert!(!Inst::first_byte_is_compressed(x.to_le_bytes()[0]));
}

#[test]
fn register_names() {
    assert_eq!(Reg::zero().render(), "zero");
    assert_eq!(Reg::fp(), Reg::s0());
    assert_eq!(Reg::t6().0, 31);
    assert_eq!(rvdc::FReg::ft11().render(), "ft11");
    assert_eq!(Csr::mstatus().render(), "0x300");
    assert_eq!(Csr::fflags().render(), "0x1");
    assert_eq!(Csr::cycle().render(), "0xc00");
}

#[test]
fn pseudo_instruction_rendering() {
    let li = Inst::Addi {
        imm: Imm::new_i32(-1),
        dest: Reg::a0(),
        src1: Reg::zero(),
    };
    assert_eq!(li.render(), "li a0, -1");

    let mv = Inst::Addi {
        imm: Imm::new_u32(0),
        dest: Reg::a0(),
        src1: Reg::a1(),
    };
    assert_eq!(mv.render(), "mv a0, a1");

    let addi = Inst::Addi {
        imm: Imm::new_i32(-32),
        dest: Reg::sp(),
        src1: Reg::sp(),
    };
    assert_eq!(addi.render(), "addi sp, sp, -32");

    let j = Inst::Jal {
        offset: Imm::new_i32(-2048),
        dest: Reg::zero(),
    };
    assert_eq!(j.render(), "j -2048");

    let sext = Inst::AddiW {
        imm: Imm::new_u32(0),
        dest: Reg::a0(),
        src1: Reg::a1(),
    };
    assert_eq!(sext.render(), "sext.w a0, a1");

    let amo = Inst::AmoW {
        order: AmoOrdering::SeqCst,
        op: AmoOp::Add,
        dest: Reg::a0(),
        addr: Reg::a2(),
        src: Reg::a1(),
    };
    assert_eq!(amo.render(), "amoadd.w.aqrl a0, a1, (a2)");

    let lr = Inst::LrW {
        order: AmoOrdering::Acquire,
        dest: Reg::a0(),
        addr: Reg::a1(),
    };
    assert_eq!(lr.render(), "lr.w.aq a0, (a1)");
}

#[test]
fn amo_roundtrip() {
    for op in [
        AmoOp::Swap,
        AmoOp::Add,
        AmoOp::Xor,
        AmoOp::And,
        AmoOp::Or,
        AmoOp::Min,
        AmoOp::Max,
        AmoOp::Minu,
        AmoOp::Maxu,
    ] {
        for order in [
            AmoOrdering::Relaxed,
            AmoOrdering::Acquire,
            AmoOrdering::Release,
            AmoOrdering::SeqCst,
        ] {
            let inst = Inst::AmoW {
                order,
                op,
                dest: Reg::a0(),
                addr: Reg::a1(),
                src: Reg::a2(),
            };
            let encoded = inst.encode_normal(Xlen::Rv32);
            assert_eq!(Inst::decode_normal(encoded, Xlen::Rv32).unwrap(), inst);
        }
    }
}

#[test]
fn decode_error_rendering() {
    let err = Inst::decode_normal(0, Xlen::Rv32).unwrap_err();
    assert_eq!(
        err.render(),
        "failed to decode instruction '0x0' because of field 'opcode'"
    );
}

#[test]
fn immediate_rendering() {
    assert_eq!(Imm::new_i32(-5).render(), "-5");
    assert_eq!(Imm::new_u32(0).render(), "0");
    assert_eq!(Imm::new_u32(4096).render(), "4096");
    assert_eq!(Imm::new_i32(i32::MIN).render(), "-2147483648");
}
