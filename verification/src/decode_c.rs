use vstd::prelude::*;

use crate::bits::c_addi16sp_val;
use crate::bits::c_addi4spn_val;
use crate::bits::c_branch_off_val;
use crate::bits::c_d_mem_off_val;
use crate::bits::c_ext;
use crate::bits::c_imm6_val;
use crate::bits::c_jump_off_val;
use crate::bits::c_lui_imm;
use crate::bits::c_mem_off_val;
use crate::bits::c_sdsp_val;
use crate::bits::c_sp_load_val;
use crate::bits::c_swsp_val;
use crate::bits::c_uimm6_val;
use crate::bits::lemma_c_imm_windows;
use crate::bits::InstCodeC;
use crate::enc::encode_inst_spec;
use crate::laws::lemma_canonical_encoding_decodes;
use crate::decode::decode_error;
use crate::imm::Imm;
use crate::inst::inst_canonical;
use crate::inst::inst_wf;
use crate::inst::requires_rv64;
use crate::inst::DecodeError;
use crate::inst::Inst;
use crate::reg::Reg;
use crate::valid::c0_valid;
use crate::valid::c1_valid;
use crate::valid::c2_valid;
use crate::valid::cword_valid;
use crate::valid::word_valid;
use crate::xlen::Xlen;

verus! {

/// Gather a compressed immediate that is sign-extended from bit `sign`,
/// given the value assembled from its scattered ranges.
fn sext_c(v: u32, sign_mask: u32, ext_mask: u32) -> (r: Imm)
    ensures
        r.low() == (if v & sign_mask != 0 {
            v | ext_mask
        } else {
            v
        }),
        r == Imm::spec_sext32(
            if v & sign_mask != 0 {
                v | ext_mask
            } else {
                v
            },
        ),
        r.is_sext64(),
{
    let w = if v & sign_mask != 0 {
        v | ext_mask
    } else {
        v
    };
    Imm::from_sext32(w)
}


// ---------------------------------------------------------------------------
// Which field tag a rejected compressed word carries.
// ---------------------------------------------------------------------------

/// The field tag of a rejected quadrant-`00` word.
pub open spec fn c0_err_field(w: u16, xlen: Xlen) -> Seq<char> {
    if c_ext(w, 13, 3) == 0 {
        "uimm=0 for C.ADDISPN is reserved"@
    } else {
        "C0 funct3"@
    }
}

/// The field tag of a rejected quadrant-`01` word.
pub open spec fn c1_err_field(w: u16, xlen: Xlen) -> Seq<char> {
    let f3 = c_ext(w, 13, 3);
    if f3 == 3 {
        "C.LUI zero immediate"@
    } else if f3 == 4 {
        if c_ext(w, 10, 2) == 3 {
            "C1 Arith bit 12"@
        } else {
            "C.SRLI imm"@
        }
    } else {
        "C1 funct3"@
    }
}

/// The field tag of a rejected quadrant-`10` word.
pub open spec fn c2_err_field(w: u16, xlen: Xlen) -> Seq<char> {
    let f3 = c_ext(w, 13, 3);
    if f3 == 0 {
        "C.SLLI shift amount must be zero"@
    } else if f3 == 2 {
        "C.LWSP rd must not be zero"@
    } else if f3 == 3 {
        if xlen == Xlen::Rv32 {
            "C.LDSP is not allowed on RV32"@
        } else {
            "C.LWSP rd must not be zero"@
        }
    } else if f3 == 4 {
        "C.JR rs1 must not be zero"@
    } else if f3 == 7 {
        "C.SDSP is not allowed on RV32"@
    } else {
        "C2 funct3"@
    }
}

/// The field tag a rejected compressed word carries: for every word that
/// `cword_valid` refuses, the decoder's error names exactly this field.
pub open spec fn cdecode_err_field(w: u16, xlen: Xlen) -> Seq<char> {
    let q = c_ext(w, 0, 2);
    if w == 0 {
        "null instruction"@
    } else if q == 0 {
        c0_err_field(w, xlen)
    } else if q == 1 {
        c1_err_field(w, xlen)
    } else if q == 2 {
        c2_err_field(w, xlen)
    } else {
        "instruction is not compressed"@
    }
}

impl Inst {
    /// Decode a known compressed instruction from its two bytes.
    ///
    /// Every 16-bit word either yields an uncompressed instruction value that
    /// is semantically equivalent to the compressed form, or a structured
    /// error. Reserved encodings, the all-zero word, and quadrant `11`
    /// (which is not a compressed instruction) are errors.
    pub fn decode_compressed(code: u16, xlen: Xlen) -> (r: Result<Inst, DecodeError>)
        ensures
            r matches Ok(inst) ==> inst_wf(inst),
            r matches Ok(inst) ==> (xlen == Xlen::Rv32 ==> !requires_rv64(inst)),
            r matches Err(e) ==> e.instruction == code as u32 && e.unexpected_field@
                == cdecode_err_field(code, xlen) && e.unexpected_field@.len() > 0,
            r is Ok <==> cword_valid(code, xlen),
            r matches Ok(inst) ==> inst_canonical(inst, xlen),
            r matches Ok(inst) ==> inst == compressed_inst_spec(code, xlen),
            r matches Ok(inst) ==> word_valid(encode_inst_spec(inst, xlen), xlen),
    {
        proof {
            lemma_cerr_field_named(code, xlen);
        }
        let code = InstCodeC(code);
        if code.0 == 0 {
            return Err(decode_error(code.0 as u32, "null instruction"));
        }
        let r = match code.quadrant() {
            0b00 => decode_c0(code, xlen),
            0b01 => decode_c1(code, xlen),
            0b10 => decode_c2(code, xlen),
            _ => Err(decode_error(code.0 as u32, "instruction is not compressed")),
        };
        proof {
            // A compressed form always maps to an instruction whose
            // canonical uncompressed encoding the word decoder accepts.
            if r is Ok {
                lemma_canonical_encoding_decodes(r->Ok_0, xlen);
            }
        }
        r
    }
}

/// What the quadrant decoders promise: a decoded instruction is
/// well-formed and canonical, never a CSR access, and rejected on RV32 if
/// it only exists on RV64; a rejection carries the word.
spec fn decode_c_post(r: Result<Inst, DecodeError>, w: u16, xlen: Xlen) -> bool {
    &&& (r matches Ok(inst) ==> inst_wf(inst) && inst_canonical(inst, xlen) && !(
    inst matches Inst::Csrrw { .. }) && (xlen == Xlen::Rv32 ==> !requires_rv64(inst)))
    &&& (r matches Err(e) ==> e.instruction == w as u32)
}


/// Every rejection tag is a non-empty name for the rejected field.
pub proof fn lemma_cerr_field_named(w: u16, xlen: Xlen)
    ensures
        cdecode_err_field(w, xlen).len() > 0,
{
    reveal_strlit("C.JR rs1 must not be zero");
    reveal_strlit("C.LDSP is not allowed on RV32");
    reveal_strlit("C.LUI zero immediate");
    reveal_strlit("C.LWSP rd must not be zero");
    reveal_strlit("C.SDSP is not allowed on RV32");
    reveal_strlit("C.SLLI shift amount must be zero");
    reveal_strlit("C.SRLI imm");
    reveal_strlit("C0 funct3");
    reveal_strlit("C1 Arith bit 12");
    reveal_strlit("C1 funct3");
    reveal_strlit("C2 funct3");
    reveal_strlit("instruction is not compressed");
    reveal_strlit("null instruction");
    reveal_strlit("uimm=0 for C.ADDISPN is reserved");
}

// ---------------------------------------------------------------------------
// The value a compressed word decodes to. For words that `cword_valid`
// admits, `decode_compressed` returns exactly this instruction.
// ---------------------------------------------------------------------------

/// The uncompressed instruction that a quadrant-`00` word maps to.
pub open spec fn c0_inst_spec(w: u16, xlen: Xlen) -> Inst {
    let f3 = c_ext(w, 13, 3);
    let rd_short = Reg((c_ext(w, 2, 3) + 8) as u8);
    let rs1_short = Reg((c_ext(w, 7, 3) + 8) as u8);
    if f3 == 0 {
        Inst::Addi {
            imm: Imm::spec_zext32(c_addi4spn_val(w)),
            dest: rd_short,
            src1: Reg(2),
        }
    } else if f3 == 2 {
        Inst::Lw { offset: Imm::spec_zext32(c_mem_off_val(w)), dest: rd_short, base: rs1_short }
    } else if f3 == 6 {
        Inst::Sw { offset: Imm::spec_zext32(c_mem_off_val(w)), src: rd_short, base: rs1_short }
    } else if f3 == 3 {
        Inst::Ld { offset: Imm::spec_zext32(c_d_mem_off_val(w)), dest: rd_short, base: rs1_short }
    } else {
        Inst::Sd { offset: Imm::spec_zext32(c_d_mem_off_val(w)), src: rd_short, base: rs1_short }
    }
}

/// The uncompressed instruction that a quadrant-`01` word maps to.
pub open spec fn c1_inst_spec(w: u16, xlen: Xlen) -> Inst {
    let f3 = c_ext(w, 13, 3);
    let rd = Reg(c_ext(w, 7, 5) as u8);
    let rs1_short = Reg((c_ext(w, 7, 3) + 8) as u8);
    let rs2_short = Reg((c_ext(w, 2, 3) + 8) as u8);
    if f3 == 0 {
        Inst::Addi { imm: Imm::spec_sext32(c_imm6_val(w)), dest: rd, src1: rd }
    } else if f3 == 1 {
        if xlen == Xlen::Rv32 {
            Inst::Jal { offset: Imm::spec_sext32(c_jump_off_val(w)), dest: Reg(1) }
        } else {
            Inst::AddiW { imm: Imm::spec_sext32(c_imm6_val(w)), dest: rd, src1: rd }
        }
    } else if f3 == 2 {
        Inst::Addi { imm: Imm::spec_sext32(c_imm6_val(w)), dest: rd, src1: Reg(0) }
    } else if f3 == 3 {
        if c_ext(w, 7, 5) == 2 {
            Inst::Addi { imm: Imm::spec_sext32(c_addi16sp_val(w)), dest: Reg(2), src1: Reg(2) }
        } else {
            Inst::Lui { uimm: Imm::spec_sext32(c_lui_imm(w)), dest: rd }
        }
    } else if f3 == 4 {
        let funct2 = c_ext(w, 10, 2);
        if funct2 == 0 {
            Inst::Srli { imm: Imm::spec_zext32(c_uimm6_val(w)), dest: rs1_short, src1: rs1_short }
        } else if funct2 == 1 {
            Inst::Srai { imm: Imm::spec_zext32(c_uimm6_val(w)), dest: rs1_short, src1: rs1_short }
        } else if funct2 == 2 {
            Inst::Andi { imm: Imm::spec_zext32(c_uimm6_val(w)), dest: rs1_short, src1: rs1_short }
        } else {
            let op2 = c_ext(w, 5, 2);
            if op2 == 0 {
                Inst::Sub { dest: rs1_short, src1: rs1_short, src2: rs2_short }
            } else if op2 == 1 {
                Inst::Xor { dest: rs1_short, src1: rs1_short, src2: rs2_short }
            } else if op2 == 2 {
                Inst::Or { dest: rs1_short, src1: rs1_short, src2: rs2_short }
            } else {
                Inst::And { dest: rs1_short, src1: rs1_short, src2: rs2_short }
            }
        }
    } else if f3 == 5 {
        Inst::Jal { offset: Imm::spec_sext32(c_jump_off_val(w)), dest: Reg(0) }
    } else if f3 == 6 {
        Inst::Beq { offset: Imm::spec_sext32(c_branch_off_val(w)), src1: rs1_short, src2: Reg(0) }
    } else {
        Inst::Bne { offset: Imm::spec_sext32(c_branch_off_val(w)), src1: rs1_short, src2: Reg(0) }
    }
}

/// The uncompressed instruction that a quadrant-`10` word maps to.
pub open spec fn c2_inst_spec(w: u16, xlen: Xlen) -> Inst {
    let f3 = c_ext(w, 13, 3);
    let rd = Reg(c_ext(w, 7, 5) as u8);
    let rs2 = Reg(c_ext(w, 2, 5) as u8);
    if f3 == 0 {
        Inst::Slli { imm: Imm::spec_zext32(c_uimm6_val(w)), dest: rd, src1: rd }
    } else if f3 == 2 {
        Inst::Lw { offset: Imm::spec_zext32(c_sp_load_val(w)), dest: rd, base: Reg(2) }
    } else if f3 == 3 {
        Inst::Ld { offset: Imm::spec_zext32(c_sp_load_val(w)), dest: rd, base: Reg(2) }
    } else if f3 == 4 {
        if c_ext(w, 12, 1) == 0 {
            if c_ext(w, 2, 5) == 0 {
                Inst::Jalr { offset: Imm::spec_zext32(0), base: rd, dest: Reg(0) }
            } else {
                Inst::Add { dest: rd, src1: Reg(0), src2: rs2 }
            }
        } else {
            if c_ext(w, 7, 5) == 0 && c_ext(w, 2, 5) == 0 {
                Inst::Ebreak
            } else if c_ext(w, 2, 5) == 0 {
                Inst::Jalr { offset: Imm::spec_zext32(0), base: rd, dest: Reg(1) }
            } else {
                Inst::Add { dest: rd, src1: rd, src2: rs2 }
            }
        }
    } else if f3 == 6 {
        Inst::Sw { offset: Imm::spec_zext32(c_swsp_val(w)), src: rs2, base: Reg(2) }
    } else {
        Inst::Sd { offset: Imm::spec_zext32(c_sdsp_val(w)), src: rs2, base: Reg(2) }
    }
}

/// The uncompressed instruction that a compressed word maps to, for the
/// given register width. Only the low sixteen bits of an instruction stream
/// enter here, so the mapping also states that nothing else can influence a
/// compressed decode.
pub open spec fn compressed_inst_spec(w: u16, xlen: Xlen) -> Inst {
    let q = c_ext(w, 0, 2);
    if q == 0 {
        c0_inst_spec(w, xlen)
    } else if q == 1 {
        c1_inst_spec(w, xlen)
    } else {
        c2_inst_spec(w, xlen)
    }
}

/// Quadrant `00`: stack-relative and register-register memory forms.
fn decode_c0(code: InstCodeC, xlen: Xlen) -> (r: Result<Inst, DecodeError>)
    ensures
        decode_c_post(r, code.0, xlen),
        r is Ok <==> c0_valid(code.0, xlen),
        r matches Err(e) ==> e.unexpected_field@ == c0_err_field(code.0, xlen),
        r matches Ok(inst) ==> inst == c0_inst_spec(code.0, xlen),
{
    proof {
        lemma_c_imm_windows(code.0);
    }
    match code.funct3() {
        // C.ADDI4SPN -> addi \rd', sp, \imm
        0b000 => {
            let imm = (code.ext(5, 1) << 3) | (code.ext(6, 1) << 2) | (code.ext(7, 4) << 6) | (
            code.ext(11, 2) << 4);
            if imm == 0 {
                return Err(decode_error(code.0 as u32, "uimm=0 for C.ADDISPN is reserved"));
            }
            Ok(Inst::Addi { imm: Imm::new_u32(imm), dest: code.rs2_short(), src1: Reg::sp() })
        },
        // C.LW -> lw \dest, \offset(\base)
        0b010 => Ok(
            Inst::Lw {
                offset: Imm::new_u32(
                    (code.ext(10, 3) << 3) | (code.ext(5, 1) << 6) | (code.ext(6, 1) << 2),
                ),
                dest: code.rs2_short(),
                base: code.rs1_short(),
            },
        ),
        // C.SW -> sw \src, \offset(\base)
        0b110 => Ok(
            Inst::Sw {
                offset: Imm::new_u32(
                    (code.ext(10, 3) << 3) | (code.ext(5, 1) << 6) | (code.ext(6, 1) << 2),
                ),
                src: code.rs2_short(),
                base: code.rs1_short(),
            },
        ),
        // C.LD -> ld \dest, \offset(\base) (RV64 only)
        0b011 => {
            if xlen.is_32() {
                return Err(decode_error(code.0 as u32, "C0 funct3"));
            }
            Ok(
                Inst::Ld {
                    offset: Imm::new_u32((code.ext(10, 3) << 3) | (code.ext(5, 2) << 6)),
                    dest: code.rs2_short(),
                    base: code.rs1_short(),
                },
            )
        },
        // C.SD -> sd \src, \offset(\base) (RV64 only)
        0b111 => {
            if xlen.is_32() {
                return Err(decode_error(code.0 as u32, "C0 funct3"));
            }
            Ok(
                Inst::Sd {
                    offset: Imm::new_u32((code.ext(10, 3) << 3) | (code.ext(5, 2) << 6)),
                    src: code.rs2_short(),
                    base: code.rs1_short(),
                },
            )
        },
        _ => Err(decode_error(code.0 as u32, "C0 funct3")),
    }
}

/// The sign-extended 6-bit immediate of C.ADDI, C.ADDIW and C.LI.
fn c_imm6(code: InstCodeC) -> (r: Imm)
    ensures
        r.low() == c_imm6_val(code.0),
        r == Imm::spec_sext32(c_imm6_val(code.0)),
        r.is_sext64(),
{
    sext_c(code.ext(2, 5) | (code.ext(12, 1) << 5), 0x20, 0xffffffc0)
}

/// The scrambled, sign-extended jump offset of C.J and C.JAL.
fn c_jump_offset(code: InstCodeC) -> (r: Imm)
    ensures
        r.low() == c_jump_off_val(code.0),
        r == Imm::spec_sext32(c_jump_off_val(code.0)),
        r.is_sext64(),
{
    sext_c(
        (code.ext(2, 1) << 5) | (code.ext(3, 3) << 1) | (code.ext(6, 1) << 7) | (code.ext(7, 1)
            << 6) | (code.ext(8, 1) << 10) | (code.ext(9, 2) << 8) | (code.ext(11, 1) << 4) | (
        code.ext(12, 1) << 11),
        0x800,
        0xfffff000,
    )
}

/// The scrambled, sign-extended branch offset of C.BEQZ and C.BNEZ.
fn c_branch_offset(code: InstCodeC) -> (r: Imm)
    ensures
        r.low() == c_branch_off_val(code.0),
        r == Imm::spec_sext32(c_branch_off_val(code.0)),
        r.is_sext64(),
{
    sext_c(
        (code.ext(2, 1) << 5) | (code.ext(3, 2) << 1) | (code.ext(5, 2) << 6) | (code.ext(10, 2)
            << 3) | (code.ext(12, 1) << 8),
        0x100,
        0xfffffe00,
    )
}

/// Quadrant `01`: integer immediate forms and compressed control flow.
fn decode_c1(code: InstCodeC, xlen: Xlen) -> (r: Result<Inst, DecodeError>)
    ensures
        decode_c_post(r, code.0, xlen),
        r is Ok <==> c1_valid(code.0),
        r matches Err(e) ==> e.unexpected_field@ == c1_err_field(code.0, xlen),
        r matches Ok(inst) ==> inst == c1_inst_spec(code.0, xlen),
{
    proof {
        lemma_c_imm_windows(code.0);
    }
    match code.funct3() {
        // C.ADDI -> addi \rd, \rd, \imm
        0b000 => Ok(Inst::Addi { imm: c_imm6(code), dest: code.rd(), src1: code.rd() }),
        // On RV32, C.JAL -> jal ra, \offset; on RV64 this encoding is
        // C.ADDIW -> addiw \rd, \rd, \imm
        0b001 => {
            if xlen.is_32() {
                Ok(Inst::Jal { offset: c_jump_offset(code), dest: Reg::ra() })
            } else {
                Ok(Inst::AddiW { imm: c_imm6(code), dest: code.rd(), src1: code.rd() })
            }
        },
        // C.LI -> addi \rd, zero, \imm
        0b010 => Ok(Inst::Addi { imm: c_imm6(code), dest: code.rd(), src1: Reg::zero() }),
        0b011 => {
            if code.rd().0 == 2 {
                // C.ADDI16SP -> addi sp, sp, \imm
                Ok(
                    Inst::Addi {
                        imm: sext_c(
                            (code.ext(2, 1) << 5) | (code.ext(3, 2) << 7) | (code.ext(5, 1) << 6)
                                | (code.ext(6, 1) << 4) | (code.ext(12, 1) << 9),
                            0x200,
                            0xfffffc00,
                        ),
                        dest: Reg::sp(),
                        src1: Reg::sp(),
                    },
                )
            } else {
                // C.LUI -> lui \rd, \imm
                let uimm = sext_c(
                    (code.ext(2, 5) << 12) | (code.ext(12, 1) << 17),
                    0x20000,
                    0xfffc0000,
                );
                if uimm.as_u32() == 0 {
                    return Err(decode_error(code.0 as u32, "C.LUI zero immediate"));
                }
                Ok(Inst::Lui { uimm, dest: code.rd() })
            }
        },
        // Arithmetic instructions
        0b100 => {
            let bit12 = code.ext(12, 1);
            match code.funct2() {
                // C.SRLI -> srli \rd', \rd', \imm
                0b00 => {
                    if bit12 != 0 {
                        return Err(decode_error(code.0 as u32, "C.SRLI imm"));
                    }
                    Ok(
                        Inst::Srli {
                            imm: Imm::new_u32(code.ext(2, 5) | (code.ext(12, 1) << 5)),
                            dest: code.rs1_short(),
                            src1: code.rs1_short(),
                        },
                    )
                },
                // C.SRAI -> srai \rd', \rd', \imm
                0b01 => {
                    if bit12 != 0 {
                        return Err(decode_error(code.0 as u32, "C.SRLI imm"));
                    }
                    Ok(
                        Inst::Srai {
                            imm: Imm::new_u32(code.ext(2, 5) | (code.ext(12, 1) << 5)),
                            dest: code.rs1_short(),
                            src1: code.rs1_short(),
                        },
                    )
                },
                // C.ANDI -> andi \rd', \rd', \imm
                0b10 => Ok(
                    Inst::Andi {
                        imm: Imm::new_u32(code.ext(2, 5) | (code.ext(12, 1) << 5)),
                        dest: code.rs1_short(),
                        src1: code.rs1_short(),
                    },
                ),
                _ => {
                    if bit12 != 0 {
                        return Err(decode_error(code.0 as u32, "C1 Arith bit 12"));
                    }
                    let dest = code.rs1_short();
                    let src1 = code.rs1_short();
                    let src2 = code.rs2_short();
                    match code.ext(5, 2) {
                        // C.SUB -> sub \rd', \rd', \rs2'
                        0b00 => Ok(Inst::Sub { dest, src1, src2 }),
                        // C.XOR -> xor \rd', \rd', \rs2'
                        0b01 => Ok(Inst::Xor { dest, src1, src2 }),
                        // C.OR -> or \rd', \rd', \rs2'
                        0b10 => Ok(Inst::Or { dest, src1, src2 }),
                        // C.AND -> and \rd', \rd', \rs2'
                        _ => Ok(Inst::And { dest, src1, src2 }),
                    }
                },
            }
        },
        // C.J -> jal zero, \offset
        0b101 => Ok(Inst::Jal { offset: c_jump_offset(code), dest: Reg::zero() }),
        // C.BEQZ -> beq \rs1', zero, \offset
        0b110 => Ok(
            Inst::Beq { offset: c_branch_offset(code), src1: code.rs1_short(), src2: Reg::zero() },
        ),
        // C.BNEZ -> bne \rs1', zero, \offset
        _ => Ok(
            Inst::Bne { offset: c_branch_offset(code), src1: code.rs1_short(), src2: Reg::zero() },
        ),
    }
}

/// Quadrant `10`: stack-pointer forms and register-register moves.
fn decode_c2(code: InstCodeC, xlen: Xlen) -> (r: Result<Inst, DecodeError>)
    ensures
        decode_c_post(r, code.0, xlen),
        r is Ok <==> c2_valid(code.0, xlen),
        r matches Err(e) ==> e.unexpected_field@ == c2_err_field(code.0, xlen),
        r matches Ok(inst) ==> inst == c2_inst_spec(code.0, xlen),
{
    proof {
        crate::bits::lemma_low_mask_values();
        lemma_c_imm_windows(code.0);
    }
    match code.funct3() {
        // C.SLLI -> slli \rd, \rd, \imm
        0b000 => {
            if code.ext(12, 1) != 0 {
                return Err(decode_error(code.0 as u32, "C.SLLI shift amount must be zero"));
            }
            Ok(
                Inst::Slli {
                    imm: Imm::new_u32(code.ext(2, 5) | (code.ext(12, 1) << 5)),
                    dest: code.rd(),
                    src1: code.rd(),
                },
            )
        },
        // C.LWSP -> lw \reg, \offset(sp)
        0b010 => {
            let dest = code.rd();
            if dest.0 == 0 {
                return Err(decode_error(code.0 as u32, "C.LWSP rd must not be zero"));
            }
            Ok(
                Inst::Lw {
                    offset: Imm::new_u32(
                        (code.ext(12, 1) << 5) | (code.ext(4, 3) << 2) | (code.ext(2, 2) << 6),
                    ),
                    dest,
                    base: Reg::sp(),
                },
            )
        },
        // C.LDSP -> ld \reg, \offset(sp)
        0b011 => {
            if xlen.is_32() {
                return Err(decode_error(code.0 as u32, "C.LDSP is not allowed on RV32"));
            }
            let dest = code.rd();
            if dest.0 == 0 {
                return Err(decode_error(code.0 as u32, "C.LWSP rd must not be zero"));
            }
            Ok(
                Inst::Ld {
                    offset: Imm::new_u32(
                        (code.ext(12, 1) << 5) | (code.ext(4, 3) << 2) | (code.ext(2, 2) << 6),
                    ),
                    dest,
                    base: Reg::sp(),
                },
            )
        },
        0b100 => {
            let bit12 = code.ext(12, 1);
            let rs2 = code.rs2();
            let rd_rs1 = code.rd();
            if bit12 == 0 {
                if rs2.0 == 0 {
                    // C.JR -> jalr zero, 0(\rs1)
                    if rd_rs1.0 == 0 {
                        return Err(decode_error(code.0 as u32, "C.JR rs1 must not be zero"));
                    }
                    Ok(Inst::Jalr { offset: Imm::zero(), base: rd_rs1, dest: Reg::zero() })
                } else {
                    // C.MV -> add \rd, x0, \rs2
                    Ok(Inst::Add { dest: rd_rs1, src1: Reg::zero(), src2: rs2 })
                }
            } else {
                if rd_rs1.0 == 0 && rs2.0 == 0 {
                    // C.EBREAK -> ebreak
                    Ok(Inst::Ebreak)
                } else if rs2.0 == 0 {
                    // C.JALR -> jalr ra, 0(\rs1)
                    Ok(Inst::Jalr { offset: Imm::zero(), base: rd_rs1, dest: Reg::ra() })
                } else {
                    // C.ADD -> add \rd, \rd, \rs2
                    Ok(Inst::Add { dest: rd_rs1, src1: rd_rs1, src2: rs2 })
                }
            }
        },
        // C.SWSP -> sw \reg, \offset(sp)
        0b110 => Ok(
            Inst::Sw {
                offset: Imm::new_u32((code.ext(7, 2) << 6) | (code.ext(9, 4) << 2)),
                src: code.rs2(),
                base: Reg::sp(),
            },
        ),
        // C.SDSP -> sd \reg, \offset(sp)
        0b111 => {
            if xlen.is_32() {
                return Err(decode_error(code.0 as u32, "C.SDSP is not allowed on RV32"));
            }
            Ok(
                Inst::Sd {
                    offset: Imm::new_u32((code.ext(7, 3) << 6) | (code.ext(10, 3) << 3)),
                    src: code.rs2(),
                    base: Reg::sp(),
                },
            )
        },
        _ => Err(decode_error(code.0 as u32, "C2 funct3")),
    }
}

} // verus!
