use rvdc::Csr;
use rvdc::FReg;
use rvdc::Imm;
use rvdc::Inst;
use rvdc::Reg;
use rvdc::RoundingMode;
use rvdc::Xlen;

// turn this up for debugging, only run the test directly in these cases
const SKIP_CHUNKS: u32 = 0;

#[test]
fn ensure_no_chunks_are_skipped() {
    assert_eq!(SKIP_CHUNKS, 0);
}

#[test]
fn size_of_instruction() {
    assert!(
        core::mem::size_of::<Inst>() <= 16,
        "size of instruction is too large: {}",
        core::mem::size_of::<Inst>()
    );
}

#[test]
fn test_zicsr_instructions() {
    // Test CSRRW
    let inst = Inst::Csrrw {
        csr: Csr::mstatus(),
        dest: Reg::a0(),
        src: Reg::a1(),
    };
    let encoded = inst.encode_normal(Xlen::Rv32);
    let (decoded, _) = Inst::decode(encoded, Xlen::Rv32).unwrap();
    assert_eq!(inst, decoded);

    // Test CSRRS
    let inst = Inst::Csrrs {
        csr: Csr::misa(),
        dest: Reg::a2(),
        src: Reg::a3(),
    };
    let encoded = inst.encode_normal(Xlen::Rv32);
    let (decoded, _) = Inst::decode(encoded, Xlen::Rv32).unwrap();
    assert_eq!(inst, decoded);

    // Test CSRRWI
    let inst = Inst::Csrrwi {
        csr: Csr::medeleg(),
        dest: Reg::a4(),
        uimm: Imm::new_u32(5),
    };
    let encoded = inst.encode_normal(Xlen::Rv32);
    let (decoded, _) = Inst::decode(encoded, Xlen::Rv32).unwrap();
    assert_eq!(inst, decoded);
}

#[test]
fn test_f_extension_instructions() {
    // Test FLW
    let inst = Inst::Flw {
        offset: Imm::new_i32(4),
        dest: FReg::fa0(),
        base: Reg::sp(),
    };
    let encoded = inst.encode_normal(Xlen::Rv32);
    let (decoded, _) = Inst::decode(encoded, Xlen::Rv32).unwrap();
    assert_eq!(inst, decoded);

    // Test FSW
    let inst = Inst::Fsw {
        offset: Imm::new_i32(8),
        src: FReg::fa1(),
        base: Reg::sp(),
    };
    let encoded = inst.encode_normal(Xlen::Rv32);
    let (decoded, _) = Inst::decode(encoded, Xlen::Rv32).unwrap();
    assert_eq!(inst, decoded);

    // Test FADD.S
    let inst = Inst::FaddS {
        rm: RoundingMode::Dynamic,
        dest: FReg::fa0(),
        src1: FReg::fa1(),
        src2: FReg::fa2(),
    };
    let encoded = inst.encode_normal(Xlen::Rv32);
    let (decoded, _) = Inst::decode(encoded, Xlen::Rv32).unwrap();
    assert_eq!(inst, decoded);

    // Test FMADD.S
    let inst = Inst::FmaddS {
        rm: RoundingMode::RoundToNearestTiesToEven,
        dest: FReg::ft0(),
        src1: FReg::ft1(),
        src2: FReg::ft2(),
        src3: FReg::ft3(),
    };
    let encoded = inst.encode_normal(Xlen::Rv32);
    let (decoded, _) = Inst::decode(encoded, Xlen::Rv32).unwrap();
    assert_eq!(inst, decoded);

    // Test FCVT.W.S
    let inst = Inst::FcvtWS {
        rm: RoundingMode::RoundTowardsZero,
        dest: Reg::a0(),
        src: FReg::fa0(),
    };
    let encoded = inst.encode_normal(Xlen::Rv32);
    let (decoded, _) = Inst::decode(encoded, Xlen::Rv32).unwrap();
    assert_eq!(inst, decoded);

    // Test FEQ.S
    let inst = Inst::FeqS {
        dest: Reg::a0(),
        src1: FReg::fa0(),
        src2: FReg::fa1(),
    };
    let encoded = inst.encode_normal(Xlen::Rv32);
    let (decoded, _) = Inst::decode(encoded, Xlen::Rv32).unwrap();
    assert_eq!(inst, decoded);
}

#[test]
fn test_d_extension_instructions() {
    // Test FLD
    let inst = Inst::Fld {
        offset: Imm::new_i32(16),
        dest: FReg::fa0(),
        base: Reg::sp(),
    };
    let encoded = inst.encode_normal(Xlen::Rv32);
    let (decoded, _) = Inst::decode(encoded, Xlen::Rv32).unwrap();
    assert_eq!(inst, decoded);

    // Test FSD
    let inst = Inst::Fsd {
        offset: Imm::new_i32(24),
        src: FReg::fa1(),
        base: Reg::sp(),
    };
    let encoded = inst.encode_normal(Xlen::Rv32);
    let (decoded, _) = Inst::decode(encoded, Xlen::Rv32).unwrap();
    assert_eq!(inst, decoded);

    // Test FADD.D
    let inst = Inst::FaddD {
        rm: RoundingMode::Dynamic,
        dest: FReg::fa0(),
        src1: FReg::fa1(),
        src2: FReg::fa2(),
    };
    let encoded = inst.encode_normal(Xlen::Rv32);
    let (decoded, _) = Inst::decode(encoded, Xlen::Rv32).unwrap();
    assert_eq!(inst, decoded);

    // Test FCVT.D.S
    let inst = Inst::FcvtDS {
        rm: RoundingMode::Dynamic,
        dest: FReg::fa0(),
        src: FReg::fa1(),
    };
    let encoded = inst.encode_normal(Xlen::Rv32);
    let (decoded, _) = Inst::decode(encoded, Xlen::Rv32).unwrap();
    assert_eq!(inst, decoded);

    // Test FCVT.S.D
    let inst = Inst::FcvtSD {
        rm: RoundingMode::RoundDown,
        dest: FReg::fa0(),
        src: FReg::fa1(),
    };
    let encoded = inst.encode_normal(Xlen::Rv32);
    let (decoded, _) = Inst::decode(encoded, Xlen::Rv32).unwrap();
    assert_eq!(inst, decoded);

    // Test FEQ.D
    let inst = Inst::FeqD {
        dest: Reg::a0(),
        src1: FReg::fa0(),
        src2: FReg::fa1(),
    };
    let encoded = inst.encode_normal(Xlen::Rv32);
    let (decoded, _) = Inst::decode(encoded, Xlen::Rv32).unwrap();
    assert_eq!(inst, decoded);
}

#[test]
fn test_rv64_fp_instructions() {
    // Test FCVT.L.S (RV64 only)
    let inst = Inst::FcvtLS {
        rm: RoundingMode::Dynamic,
        dest: Reg::a0(),
        src: FReg::fa0(),
    };
    let encoded = inst.encode_normal(Xlen::Rv64);
    let (decoded, _) = Inst::decode(encoded, Xlen::Rv64).unwrap();
    assert_eq!(inst, decoded);

    // Test FCVT.S.L (RV64 only)
    let inst = Inst::FcvtSL {
        rm: RoundingMode::RoundUp,
        dest: FReg::fa0(),
        src: Reg::a0(),
    };
    let encoded = inst.encode_normal(Xlen::Rv64);
    let (decoded, _) = Inst::decode(encoded, Xlen::Rv64).unwrap();
    assert_eq!(inst, decoded);

    // Test FMV.X.D (RV64 only)
    let inst = Inst::FmvXD {
        dest: Reg::a0(),
        src: FReg::fa0(),
    };
    let encoded = inst.encode_normal(Xlen::Rv64);
    let (decoded, _) = Inst::decode(encoded, Xlen::Rv64).unwrap();
    assert_eq!(inst, decoded);

    // Test FMV.D.X (RV64 only)
    let inst = Inst::FmvDX {
        dest: FReg::fa0(),
        src: Reg::a0(),
    };
    let encoded = inst.encode_normal(Xlen::Rv64);
    let (decoded, _) = Inst::decode(encoded, Xlen::Rv64).unwrap();
    assert_eq!(inst, decoded);
}

#[test]
fn test_display_fp_instructions() {
    // Test display for FLW
    let inst = Inst::Flw {
        offset: Imm::new_i32(4),
        dest: FReg::fa0(),
        base: Reg::sp(),
    };
    assert_eq!(inst.render(), "flw fa0, 4(sp)");

    // Test display for FADD.S with dynamic rounding
    let inst = Inst::FaddS {
        rm: RoundingMode::Dynamic,
        dest: FReg::fa0(),
        src1: FReg::fa1(),
        src2: FReg::fa2(),
    };
    assert_eq!(inst.render(), "fadd.s fa0, fa1, fa2");

    // Test display for FADD.S with explicit rounding
    let inst = Inst::FaddS {
        rm: RoundingMode::RoundToNearestTiesToEven,
        dest: FReg::fa0(),
        src1: FReg::fa1(),
        src2: FReg::fa2(),
    };
    assert_eq!(inst.render(), "fadd.s fa0, fa1, fa2, rne");

    // Test display for CSRRW
    let inst = Inst::Csrrw {
        csr: Csr::mstatus(),
        dest: Reg::a0(),
        src: Reg::a1(),
    };
    assert_eq!(inst.render(), "csrrw a0, 0x300, a1");
}
