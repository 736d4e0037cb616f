use rvdc::Imm;
use rvdc::Inst;
use rvdc::IsCompressed;
use rvdc::Reg;
use rvdc::Xlen;

#[test]
fn addi_zero_is_nop() {
    let inst = Inst::decode_normal(0x00000013, Xlen::Rv32).unwrap();
    assert_eq!(
        inst,
        Inst::Addi {
            imm: Imm::new_u32(0),
            dest: Reg::zero(),
            src1: Reg::zero(),
        }
    );
    assert_eq!(inst.render(), "nop");
}

#[test]
fn compressed_addi16sp() {
    // addi sp, sp, -0x20 (compressed)
    let inst = Inst::decode_compressed(0x1101, Xlen::Rv32).unwrap();
    assert_eq!(
        inst,
        Inst::Addi {
            imm: Imm::new_i32(-0x20),
            dest: Reg::sp(),
            src1: Reg::sp(),
        }
    );
    assert!(Inst::first_byte_is_compressed(0x01));
}

#[test]
fn auipc_shifted_immediate() {
    // auipc t1, 0xa
    let inst = Inst::decode_normal(0x0000a317, Xlen::Rv32).unwrap();
    assert_eq!(
        inst,
        Inst::Auipc {
            uimm: Imm::new_u32(0x0000a000),
            dest: Reg::t1(),
        }
    );
    assert!(!Inst::first_byte_is_compressed(0x17));
}

#[test]
fn jalr_ra_is_ret() {
    let inst = Inst::decode_normal(0x00008067, Xlen::Rv32).unwrap();
    assert_eq!(
        inst,
        Inst::Jalr {
            offset: Imm::new_u32(0),
            base: Reg::ra(),
            dest: Reg::zero(),
        }
    );
    assert_eq!(inst.render(), "ret");
}

#[test]
fn csrrw_roundtrip_and_render() {
    let inst = Inst::Csrrw {
        csr: rvdc::Csr::mstatus(),
        dest: Reg::a0(),
        src: Reg::a1(),
    };
    let encoded = inst.encode_normal(Xlen::Rv32);
    assert_eq!(Inst::decode_normal(encoded, Xlen::Rv32).unwrap(), inst);
    assert_eq!(inst.render(), "csrrw a0, 0x300, a1");
}

#[test]
fn fadd_dynamic_roundtrip_and_render() {
    let inst = Inst::FaddS {
        rm: rvdc::RoundingMode::Dynamic,
        dest: rvdc::FReg::fa0(),
        src1: rvdc::FReg::fa1(),
        src2: rvdc::FReg::fa2(),
    };
    let encoded = inst.encode_normal(Xlen::Rv32);
    assert_eq!(Inst::decode_normal(encoded, Xlen::Rv32).unwrap(), inst);
    assert_eq!(inst.render(), "fadd.s fa0, fa1, fa2");
}

#[test]
fn all_zero_word_is_rejected() {
    for xlen in [Xlen::Rv32, Xlen::Rv64] {
        let err = Inst::decode_normal(0x00000000, xlen).unwrap_err();
        assert_eq!(err.unexpected_field, "opcode");
        assert_eq!(err.instruction, 0);
    }
}

#[test]
fn defined_illegal_instruction_is_rejected() {
    for xlen in [Xlen::Rv32, Xlen::Rv64] {
        let err = Inst::decode_normal(0xC0001073, xlen).unwrap_err();
        assert_eq!(err.unexpected_field, "unimp instruction");
        assert_eq!(err.instruction, 0xC0001073);
    }
}

#[test]
fn decode_dispatches_on_width() {
    let (inst, width) = Inst::decode(0x00000013, Xlen::Rv32).unwrap();
    assert_eq!(width, IsCompressed::No);
    assert_eq!(inst.render(), "nop");

    let (inst, width) = Inst::decode(0x1101, Xlen::Rv32).unwrap();
    assert_eq!(width, IsCompressed::Yes);
    assert_eq!(
        inst,
        Inst::Addi {
            imm: Imm::new_i32(-0x20),
            dest: Reg::sp(),
            src1: Reg::sp(),
        }
    );

    // A compressed rejection reports only the two low bytes.
    let err = Inst::decode(0xffff0000, Xlen::Rv32).unwrap_err();
    assert_eq!(err.instruction, 0);
    assert_eq!(err.unexpected_field, "null instruction");
}

#[test]
fn compressed_quadrant_one_depends_on_xlen() {
    // In quadrant 01, the C.ADDI-shaped encoding with funct3 001 is C.JAL on
    // RV32 and C.ADDIW on RV64.
    let code: u16 = 0x2405;
    let rv32 = Inst::decode_compressed(code, Xlen::Rv32).unwrap();
    assert!(matches!(rv32, Inst::Jal { dest, .. } if dest == Reg::ra()));
    let rv64 = Inst::decode_compressed(code, Xlen::Rv64).unwrap();
    assert_eq!(
        rv64,
        Inst::AddiW {
            imm: Imm::new_u32(1),
            dest: Reg::s0(),
            src1: Reg::s0(),
        }
    );
}

#[test]
fn rv64_only_instructions_are_rejected_on_rv32() {
    // ld a0, 0(a1)
    let ld = 0x0005b503;
    assert_eq!(
        Inst::decode_normal(ld, Xlen::Rv32).unwrap_err().unexpected_field,
        "LD is not supported on RV32"
    );
    let inst = Inst::decode_normal(ld, Xlen::Rv64).unwrap();
    assert_eq!(
        inst,
        Inst::Ld {
            offset: Imm::new_u32(0),
            dest: Reg::a0(),
            base: Reg::a1(),
        }
    );

    // OP-IMM-32 is entirely absent on RV32: addiw a0, a1, 1
    let addiw = 0x0015851b;
    assert_eq!(
        Inst::decode_normal(addiw, Xlen::Rv32).unwrap_err().unexpected_field,
        "OP-IMM-32 only on RV64"
    );
    assert_eq!(
        Inst::decode_normal(addiw, Xlen::Rv64).unwrap(),
        Inst::AddiW {
            imm: Imm::new_u32(1),
            dest: Reg::a0(),
            src1: Reg::a1(),
        }
    );
}

#[test]
fn shift_immediate_width_depends_on_xlen() {
    // srli a0, a1, 32: legal on RV64 (6-bit shamt), an error on RV32.
    let word = 0x0205d513;
    assert_eq!(
        Inst::decode_normal(word, Xlen::Rv32).unwrap_err().unexpected_field,
        "srli shift overflow"
    );
    assert_eq!(
        Inst::decode_normal(word, Xlen::Rv64).unwrap(),
        Inst::Srli {
            imm: Imm::new_u32(32),
            dest: Reg::a0(),
            src1: Reg::a1(),
        }
    );
}

#[test]
fn rejected_fields_are_named() {
    let cases: &[(u32, Xlen, &str)] = &[
        // jalr with funct3 != 0
        (0x00001067, Xlen::Rv32, "JALR funct3"),
        // branch with funct3 = 010
        (0x00002063, Xlen::Rv32, "BRANCH funct3"),
        // fadd.s with the reserved rounding mode 101
        (0x00005053, Xlen::Rv32, "invalid rounding mode"),
        // amo with a width other than a word
        (0x0000002f, Xlen::Rv32, "AMO width funct3"),
        // lr.w with rs2 != 0
        (0x1015a52f, Xlen::Rv32, "AMO.LR rs2"),
        // fsqrt.s with rs2 != 0
        (0x58b5f553, Xlen::Rv32, "FSQRT.S rs2 must be 0"),
        // op-fp with fmt = 10
        (0x04005053, Xlen::Rv32, "OP-FP fmt"),
    ];
    for &(word, xlen, field) in cases {
        let err = Inst::decode_normal(word, xlen).unwrap_err();
        assert_eq!(err.unexpected_field, field, "word {word:#010x}");
        assert_eq!(err.instruction, word);
    }
}

#[test]
fn rejected_compressed_fields_are_named() {
    let cases: &[(u16, Xlen, &str)] = &[
        (0x0000, Xlen::Rv32, "null instruction"),
        // C.ADDI4SPN with a zero immediate
        (0x0004, Xlen::Rv32, "uimm=0 for C.ADDISPN is reserved"),
        // C.LUI with a zero immediate
        (0x6081, Xlen::Rv32, "C.LUI zero immediate"),
        // C.LWSP with rd = 0
        (0x4002, Xlen::Rv32, "C.LWSP rd must not be zero"),
        // C.JR with rs1 = 0
        (0x8002, Xlen::Rv32, "C.JR rs1 must not be zero"),
        // C.LDSP exists only on RV64
        (0x6082, Xlen::Rv32, "C.LDSP is not allowed on RV32"),
        // quadrant 11 is not a compressed instruction
        (0x0003, Xlen::Rv32, "instruction is not compressed"),
    ];
    for &(word, xlen, field) in cases {
        let err = Inst::decode_compressed(word, xlen).unwrap_err();
        assert_eq!(err.unexpected_field, field, "word {word:#06x}");
        assert_eq!(err.instruction, word as u32);
    }
}

#[test]
fn compressed_doubleword_memory_forms() {
    // C.LD -> ld x9, 8(x8) on RV64; reserved on RV32.
    let c_ld: u16 = 0x6404;
    assert_eq!(
        Inst::decode_compressed(c_ld, Xlen::Rv64).unwrap(),
        Inst::Ld {
            offset: Imm::new_u32(8),
            dest: rvdc::Reg(9),
            base: rvdc::Reg(8),
        }
    );
    assert_eq!(
        Inst::decode_compressed(c_ld, Xlen::Rv32).unwrap_err().unexpected_field,
        "C0 funct3"
    );

    // C.SD -> sd x9, 8(x8) on RV64; reserved on RV32.
    let c_sd: u16 = 0xe404;
    assert_eq!(
        Inst::decode_compressed(c_sd, Xlen::Rv64).unwrap(),
        Inst::Sd {
            offset: Imm::new_u32(8),
            src: rvdc::Reg(9),
            base: rvdc::Reg(8),
        }
    );
    assert_eq!(
        Inst::decode_compressed(c_sd, Xlen::Rv32).unwrap_err().unexpected_field,
        "C0 funct3"
    );

    // The offset gathers bits 6..5 into offset bits 7..6: set bit 6 of the
    // word and the offset becomes 128.
    let c_ld_far: u16 = 0x6444;
    assert_eq!(
        Inst::decode_compressed(c_ld_far, Xlen::Rv64).unwrap(),
        Inst::Ld {
            offset: Imm::new_u32(128 + 8),
            dest: rvdc::Reg(9),
            base: rvdc::Reg(8),
        }
    );
}
