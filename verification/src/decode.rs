use vstd::prelude::*;

use crate::bits::s_bit;
use crate::bits::s_csr_field;
use crate::bits::s_fm;
use crate::bits::s_fmt;
use crate::bits::s_frs3;
use crate::bits::s_funct3;
use crate::bits::s_funct6;
use crate::bits::s_funct7;
use crate::bits::s_imm_b;
use crate::bits::s_imm_j;
use crate::bits::s_imm_s;
use crate::bits::s_imm_u;
use crate::bits::s_rd;
use crate::bits::s_rs1;
use crate::bits::s_shamt6;
use crate::bits::s_imm_i;
use crate::bits::s_opcode;
use crate::bits::s_rs2;
use crate::bits::lemma_dec_amo;
use crate::bits::lemma_dec_b;
use crate::bits::lemma_dec_csr;
use crate::bits::lemma_dec_fence;
use crate::bits::lemma_dec_i;
use crate::bits::lemma_dec_j;
use crate::bits::lemma_dec_r;
use crate::bits::lemma_dec_r4;
use crate::bits::lemma_dec_s;
use crate::bits::lemma_dec_sh64;
use crate::bits::lemma_dec_u;
use crate::bits::InstCode;
use crate::decode_c::cdecode_err_field;
use crate::decode_c::compressed_inst_spec;
use crate::enc::encode_inst_spec;
use crate::valid::amo_valid;
use crate::valid::branch_valid;
use crate::valid::cword_valid;
use crate::valid::fma_valid;
use crate::valid::fp_mem_valid;
use crate::valid::jalr_valid;
use crate::valid::load_valid;
use crate::valid::misc_mem_valid;
use crate::valid::op_32_valid;
use crate::valid::op_fp_d_valid;
use crate::valid::op_fp_s_valid;
use crate::valid::op_fp_valid;
use crate::valid::op_imm_32_valid;
use crate::valid::op_imm_valid;
use crate::valid::op_valid;
use crate::valid::rm_field_valid;
use crate::valid::store_valid;
use crate::valid::system_valid;
use crate::valid::word_valid;
use crate::imm::Imm;
use crate::inst::inst_canonical;
use crate::inst::inst_wf;
use crate::inst::requires_rv64;
use crate::inst::AmoOp;
use crate::inst::AmoOrdering;
use crate::inst::DecodeError;
use crate::inst::Fence;
use crate::inst::FenceSet;
use crate::inst::Inst;
use crate::inst::IsCompressed;
use crate::inst::RoundingMode;
use crate::reg::Csr;
use crate::reg::FReg;
use crate::reg::Reg;
use crate::xlen::Xlen;

verus! {

broadcast use crate::mask::lemma_and_mask_le;

/// Build the structured error for a rejected instruction word.
pub(crate) fn decode_error(instruction: u32, unexpected_field: &'static str) -> (r: DecodeError)
    ensures
        r.instruction == instruction,
        r.unexpected_field@ == unexpected_field@,
{
    DecodeError { instruction, unexpected_field }
}

/// What every decoding step promises: a decoded instruction is well-formed
/// and canonical, is rejected on RV32 if it only exists on RV64, and
/// re-encodes to the very word it was decoded from; a rejection carries that
/// word.
spec fn decode_post(r: Result<Inst, DecodeError>, w: u32, xlen: Xlen) -> bool {
    &&& (r matches Ok(inst) ==> inst_wf(inst) && inst_canonical(inst, xlen) && (xlen == Xlen::Rv32
        ==> !requires_rv64(inst)) && encode_inst_spec(inst, xlen) == w)
    &&& (r matches Err(e) ==> e.instruction == w)
}


// ---------------------------------------------------------------------------
// The value an uncompressed word decodes to. For words that `word_valid`
// admits, `decode_normal` returns exactly this instruction.
// ---------------------------------------------------------------------------

/// The integer register named by a field value.
pub open spec fn reg_of(v: u32) -> Reg {
    Reg(v as u8)
}

/// The floating-point register named by a field value.
pub open spec fn freg_of(v: u32) -> FReg {
    FReg(v as u8)
}

/// The instruction a JALR word decodes to.
pub open spec fn jalr_inst_spec(w: u32, xlen: Xlen) -> Inst {
    Inst::Jalr {
        offset: Imm::spec_sext32(s_imm_i(w)),
        base: reg_of(s_rs1(w)),
        dest: reg_of(s_rd(w)),
    }
}

/// The instruction a BRANCH word decodes to.
pub open spec fn branch_inst_spec(w: u32, xlen: Xlen) -> Inst {
    let f3 = s_funct3(w);
    let offset = Imm::spec_sext32(s_imm_b(w));
    let src1 = reg_of(s_rs1(w));
    let src2 = reg_of(s_rs2(w));
    if f3 == 0 {
        Inst::Beq { offset, src1, src2 }
    } else if f3 == 1 {
        Inst::Bne { offset, src1, src2 }
    } else if f3 == 4 {
        Inst::Blt { offset, src1, src2 }
    } else if f3 == 5 {
        Inst::Bge { offset, src1, src2 }
    } else if f3 == 6 {
        Inst::Bltu { offset, src1, src2 }
    } else {
        Inst::Bgeu { offset, src1, src2 }
    }
}

/// The instruction a LOAD word decodes to.
pub open spec fn load_inst_spec(w: u32, xlen: Xlen) -> Inst {
    let f3 = s_funct3(w);
    let offset = Imm::spec_sext32(s_imm_i(w));
    let dest = reg_of(s_rd(w));
    let base = reg_of(s_rs1(w));
    if f3 == 0 {
        Inst::Lb { offset, dest, base }
    } else if f3 == 1 {
        Inst::Lh { offset, dest, base }
    } else if f3 == 2 {
        Inst::Lw { offset, dest, base }
    } else if f3 == 3 {
        Inst::Ld { offset, dest, base }
    } else if f3 == 4 {
        Inst::Lbu { offset, dest, base }
    } else if f3 == 5 {
        Inst::Lhu { offset, dest, base }
    } else {
        Inst::Lwu { offset, dest, base }
    }
}

/// The instruction a STORE word decodes to.
pub open spec fn store_inst_spec(w: u32, xlen: Xlen) -> Inst {
    let f3 = s_funct3(w);
    let offset = Imm::spec_sext32(s_imm_s(w));
    let src = reg_of(s_rs2(w));
    let base = reg_of(s_rs1(w));
    if f3 == 0 {
        Inst::Sb { offset, src, base }
    } else if f3 == 1 {
        Inst::Sh { offset, src, base }
    } else if f3 == 2 {
        Inst::Sw { offset, src, base }
    } else {
        Inst::Sd { offset, src, base }
    }
}

/// The instruction an OP-IMM word decodes to.
pub open spec fn op_imm_inst_spec(w: u32, xlen: Xlen) -> Inst {
    let f3 = s_funct3(w);
    let imm = Imm::spec_sext32(s_imm_i(w));
    let dest = reg_of(s_rd(w));
    let src1 = reg_of(s_rs1(w));
    if f3 == 0 {
        Inst::Addi { imm, dest, src1 }
    } else if f3 == 2 {
        Inst::Slti { imm, dest, src1 }
    } else if f3 == 3 {
        Inst::Sltiu { imm, dest, src1 }
    } else if f3 == 4 {
        Inst::Xori { imm, dest, src1 }
    } else if f3 == 6 {
        Inst::Ori { imm, dest, src1 }
    } else if f3 == 7 {
        Inst::Andi { imm, dest, src1 }
    } else if f3 == 1 {
        Inst::Slli { imm, dest, src1 }
    } else {
        if xlen == Xlen::Rv32 {
            if s_funct7(w) == 0 {
                Inst::Srli { imm: Imm::spec_zext32(s_rs2(w)), dest, src1 }
            } else {
                Inst::Srai { imm: Imm::spec_zext32(s_rs2(w)), dest, src1 }
            }
        } else {
            if s_funct6(w) == 0b010000 {
                Inst::Srai { imm: Imm::spec_zext32(s_shamt6(w)), dest, src1 }
            } else {
                Inst::Srli { imm: Imm::spec_zext32(s_shamt6(w)), dest, src1 }
            }
        }
    }
}

/// The instruction an OP-IMM-32 word decodes to.
pub open spec fn op_imm_32_inst_spec(w: u32, xlen: Xlen) -> Inst {
    let f3 = s_funct3(w);
    let dest = reg_of(s_rd(w));
    let src1 = reg_of(s_rs1(w));
    if f3 == 0 {
        Inst::AddiW { imm: Imm::spec_sext32(s_imm_i(w)), dest, src1 }
    } else if f3 == 1 {
        Inst::SlliW { imm: Imm::spec_zext32(s_rs2(w)), dest, src1 }
    } else {
        if s_funct7(w) == 0 {
            Inst::SrliW { imm: Imm::spec_zext32(s_rs2(w)), dest, src1 }
        } else {
            Inst::SraiW { imm: Imm::spec_zext32(s_rs2(w)), dest, src1 }
        }
    }
}

/// The instruction an OP word decodes to.
pub open spec fn op_inst_spec(w: u32, xlen: Xlen) -> Inst {
    let f3 = s_funct3(w);
    let f7 = s_funct7(w);
    let dest = reg_of(s_rd(w));
    let src1 = reg_of(s_rs1(w));
    let src2 = reg_of(s_rs2(w));
    if f7 == 0 {
        if f3 == 0 {
            Inst::Add { dest, src1, src2 }
        } else if f3 == 1 {
            Inst::Sll { dest, src1, src2 }
        } else if f3 == 2 {
            Inst::Slt { dest, src1, src2 }
        } else if f3 == 3 {
            Inst::Sltu { dest, src1, src2 }
        } else if f3 == 4 {
            Inst::Xor { dest, src1, src2 }
        } else if f3 == 5 {
            Inst::Srl { dest, src1, src2 }
        } else if f3 == 6 {
            Inst::Or { dest, src1, src2 }
        } else {
            Inst::And { dest, src1, src2 }
        }
    } else if f7 == 1 {
        if f3 == 0 {
            Inst::Mul { dest, src1, src2 }
        } else if f3 == 1 {
            Inst::Mulh { dest, src1, src2 }
        } else if f3 == 2 {
            Inst::Mulhsu { dest, src1, src2 }
        } else if f3 == 3 {
            Inst::Mulhu { dest, src1, src2 }
        } else if f3 == 4 {
            Inst::Div { dest, src1, src2 }
        } else if f3 == 5 {
            Inst::Divu { dest, src1, src2 }
        } else if f3 == 6 {
            Inst::Rem { dest, src1, src2 }
        } else {
            Inst::Remu { dest, src1, src2 }
        }
    } else {
        if f3 == 0 {
            Inst::Sub { dest, src1, src2 }
        } else {
            Inst::Sra { dest, src1, src2 }
        }
    }
}

/// The instruction an OP-32 word decodes to.
pub open spec fn op_32_inst_spec(w: u32, xlen: Xlen) -> Inst {
    let f3 = s_funct3(w);
    let f7 = s_funct7(w);
    let dest = reg_of(s_rd(w));
    let src1 = reg_of(s_rs1(w));
    let src2 = reg_of(s_rs2(w));
    if f7 == 0 {
        if f3 == 0 {
            Inst::AddW { dest, src1, src2 }
        } else if f3 == 1 {
            Inst::SllW { dest, src1, src2 }
        } else {
            Inst::SrlW { dest, src1, src2 }
        }
    } else if f7 == 1 {
        if f3 == 0 {
            Inst::MulW { dest, src1, src2 }
        } else if f3 == 4 {
            Inst::DivW { dest, src1, src2 }
        } else if f3 == 5 {
            Inst::DivuW { dest, src1, src2 }
        } else if f3 == 6 {
            Inst::RemW { dest, src1, src2 }
        } else {
            Inst::RemuW { dest, src1, src2 }
        }
    } else {
        if f3 == 0 {
            Inst::SubW { dest, src1, src2 }
        } else {
            Inst::SraW { dest, src1, src2 }
        }
    }
}

/// The instruction a MISC-MEM word decodes to.
pub open spec fn misc_mem_inst_spec(w: u32, xlen: Xlen) -> Inst {
    Inst::Fence {
        fence: Fence {
            fm: s_fm(w) as u8,
            pred: FenceSet {
                device_input: s_bit(w, 27),
                device_output: s_bit(w, 26),
                memory_read: s_bit(w, 25),
                memory_write: s_bit(w, 24),
            },
            succ: FenceSet {
                device_input: s_bit(w, 23),
                device_output: s_bit(w, 22),
                memory_read: s_bit(w, 21),
                memory_write: s_bit(w, 20),
            },
            dest: reg_of(s_rd(w)),
            src: reg_of(s_rs1(w)),
        },
    }
}

/// The instruction a SYSTEM word decodes to.
pub open spec fn system_inst_spec(w: u32, xlen: Xlen) -> Inst {
    let f3 = s_funct3(w);
    let csr = Csr(s_csr_field(w) as u16);
    let dest = reg_of(s_rd(w));
    let src = reg_of(s_rs1(w));
    if f3 == 0 {
        if s_imm_i(w) == 0 {
            Inst::Ecall
        } else {
            Inst::Ebreak
        }
    } else if f3 == 1 {
        Inst::Csrrw { csr, dest, src }
    } else if f3 == 2 {
        Inst::Csrrs { csr, dest, src }
    } else if f3 == 3 {
        Inst::Csrrc { csr, dest, src }
    } else if f3 == 5 {
        Inst::Csrrwi { csr, dest, uimm: Imm::spec_zext32(s_rs1(w)) }
    } else if f3 == 6 {
        Inst::Csrrsi { csr, dest, uimm: Imm::spec_zext32(s_rs1(w)) }
    } else {
        Inst::Csrrci { csr, dest, uimm: Imm::spec_zext32(s_rs1(w)) }
    }
}

/// The instruction an AMO word decodes to.
pub open spec fn amo_inst_spec(w: u32, xlen: Xlen) -> Inst {
    let kind = s_frs3(w);
    let order = AmoOrdering::of_bits(s_bit(w, 26), s_bit(w, 25));
    let dest = reg_of(s_rd(w));
    let addr = reg_of(s_rs1(w));
    if kind == 0b00010 {
        Inst::LrW { order, dest, addr }
    } else if kind == 0b00011 {
        Inst::ScW { order, dest, addr, src: reg_of(s_rs2(w)) }
    } else {
        Inst::AmoW { order, op: AmoOp::from_kind(kind), dest, addr, src: reg_of(s_rs2(w)) }
    }
}

/// The instruction a LOAD-FP word decodes to.
pub open spec fn load_fp_inst_spec(w: u32, xlen: Xlen) -> Inst {
    let offset = Imm::spec_sext32(s_imm_i(w));
    let dest = freg_of(s_rd(w));
    let base = reg_of(s_rs1(w));
    if s_funct3(w) == 2 {
        Inst::Flw { offset, dest, base }
    } else {
        Inst::Fld { offset, dest, base }
    }
}

/// The instruction a STORE-FP word decodes to.
pub open spec fn store_fp_inst_spec(w: u32, xlen: Xlen) -> Inst {
    let offset = Imm::spec_sext32(s_imm_s(w));
    let src = freg_of(s_rs2(w));
    let base = reg_of(s_rs1(w));
    if s_funct3(w) == 2 {
        Inst::Fsw { offset, src, base }
    } else {
        Inst::Fsd { offset, src, base }
    }
}

/// The instruction a fused-multiply-add word decodes to.
pub open spec fn fma_inst_spec(w: u32, xlen: Xlen) -> Inst {
    let op = s_opcode(w);
    let rm = RoundingMode::from_code(s_funct3(w));
    let dest = freg_of(s_rd(w));
    let src1 = freg_of(s_rs1(w));
    let src2 = freg_of(s_rs2(w));
    let src3 = freg_of(s_frs3(w));
    if s_fmt(w) == 0 {
        if op == 0b1000011 {
            Inst::FmaddS { rm, dest, src1, src2, src3 }
        } else if op == 0b1000111 {
            Inst::FmsubS { rm, dest, src1, src2, src3 }
        } else if op == 0b1001011 {
            Inst::FnmsubS { rm, dest, src1, src2, src3 }
        } else {
            Inst::FnmaddS { rm, dest, src1, src2, src3 }
        }
    } else {
        if op == 0b1000011 {
            Inst::FmaddD { rm, dest, src1, src2, src3 }
        } else if op == 0b1000111 {
            Inst::FmsubD { rm, dest, src1, src2, src3 }
        } else if op == 0b1001011 {
            Inst::FnmsubD { rm, dest, src1, src2, src3 }
        } else {
            Inst::FnmaddD { rm, dest, src1, src2, src3 }
        }
    }
}

/// The instruction a single-precision OP-FP word decodes to.
pub open spec fn op_fp_s_inst_spec(w: u32, xlen: Xlen) -> Inst {
    let f7 = s_funct7(w);
    let f3 = s_funct3(w);
    let rs2 = s_rs2(w);
    let rm = RoundingMode::from_code(f3);
    let frd = freg_of(s_rd(w));
    let frs1 = freg_of(s_rs1(w));
    let frs2 = freg_of(s_rs2(w));
    let rd = reg_of(s_rd(w));
    let rs1 = reg_of(s_rs1(w));
    if f7 == 0b0000000 {
        Inst::FaddS { rm, dest: frd, src1: frs1, src2: frs2 }
    } else if f7 == 0b0000100 {
        Inst::FsubS { rm, dest: frd, src1: frs1, src2: frs2 }
    } else if f7 == 0b0001000 {
        Inst::FmulS { rm, dest: frd, src1: frs1, src2: frs2 }
    } else if f7 == 0b0001100 {
        Inst::FdivS { rm, dest: frd, src1: frs1, src2: frs2 }
    } else if f7 == 0b0101100 {
        Inst::FsqrtS { rm, dest: frd, src: frs1 }
    } else if f7 == 0b0010000 {
        if f3 == 0 {
            Inst::FsgnjS { dest: frd, src1: frs1, src2: frs2 }
        } else if f3 == 1 {
            Inst::FsgnjnS { dest: frd, src1: frs1, src2: frs2 }
        } else {
            Inst::FsgnjxS { dest: frd, src1: frs1, src2: frs2 }
        }
    } else if f7 == 0b0010100 {
        if f3 == 0 {
            Inst::FminS { dest: frd, src1: frs1, src2: frs2 }
        } else {
            Inst::FmaxS { dest: frd, src1: frs1, src2: frs2 }
        }
    } else if f7 == 0b1100000 {
        if rs2 == 0 {
            Inst::FcvtWS { rm, dest: rd, src: frs1 }
        } else if rs2 == 1 {
            Inst::FcvtWuS { rm, dest: rd, src: frs1 }
        } else if rs2 == 2 {
            Inst::FcvtLS { rm, dest: rd, src: frs1 }
        } else {
            Inst::FcvtLuS { rm, dest: rd, src: frs1 }
        }
    } else if f7 == 0b1110000 {
        if f3 == 0 {
            Inst::FmvXW { dest: rd, src: frs1 }
        } else {
            Inst::FclassS { dest: rd, src: frs1 }
        }
    } else if f7 == 0b1010000 {
        if f3 == 2 {
            Inst::FeqS { dest: rd, src1: frs1, src2: frs2 }
        } else if f3 == 1 {
            Inst::FltS { dest: rd, src1: frs1, src2: frs2 }
        } else {
            Inst::FleS { dest: rd, src1: frs1, src2: frs2 }
        }
    } else if f7 == 0b1101000 {
        if rs2 == 0 {
            Inst::FcvtSW { rm, dest: frd, src: rs1 }
        } else if rs2 == 1 {
            Inst::FcvtSWu { rm, dest: frd, src: rs1 }
        } else if rs2 == 2 {
            Inst::FcvtSL { rm, dest: frd, src: rs1 }
        } else {
            Inst::FcvtSLu { rm, dest: frd, src: rs1 }
        }
    } else if f7 == 0b1111000 {
        Inst::FmvWX { dest: frd, src: rs1 }
    } else {
        Inst::FcvtSD { rm, dest: frd, src: frs1 }
    }
}

/// The instruction a double-precision OP-FP word decodes to.
pub open spec fn op_fp_d_inst_spec(w: u32, xlen: Xlen) -> Inst {
    let f7 = s_funct7(w);
    let f3 = s_funct3(w);
    let rs2 = s_rs2(w);
    let rm = RoundingMode::from_code(f3);
    let frd = freg_of(s_rd(w));
    let frs1 = freg_of(s_rs1(w));
    let frs2 = freg_of(s_rs2(w));
    let rd = reg_of(s_rd(w));
    let rs1 = reg_of(s_rs1(w));
    if f7 == 0b0000001 {
        Inst::FaddD { rm, dest: frd, src1: frs1, src2: frs2 }
    } else if f7 == 0b0000101 {
        Inst::FsubD { rm, dest: frd, src1: frs1, src2: frs2 }
    } else if f7 == 0b0001001 {
        Inst::FmulD { rm, dest: frd, src1: frs1, src2: frs2 }
    } else if f7 == 0b0001101 {
        Inst::FdivD { rm, dest: frd, src1: frs1, src2: frs2 }
    } else if f7 == 0b0101101 {
        Inst::FsqrtD { rm, dest: frd, src: frs1 }
    } else if f7 == 0b0010001 {
        if f3 == 0 {
            Inst::FsgnjD { dest: frd, src1: frs1, src2: frs2 }
        } else if f3 == 1 {
            Inst::FsgnjnD { dest: frd, src1: frs1, src2: frs2 }
        } else {
            Inst::FsgnjxD { dest: frd, src1: frs1, src2: frs2 }
        }
    } else if f7 == 0b0010101 {
        if f3 == 0 {
            Inst::FminD { dest: frd, src1: frs1, src2: frs2 }
        } else {
            Inst::FmaxD { dest: frd, src1: frs1, src2: frs2 }
        }
    } else if f7 == 0b0100001 {
        Inst::FcvtDS { rm, dest: frd, src: frs1 }
    } else if f7 == 0b1010001 {
        if f3 == 2 {
            Inst::FeqD { dest: rd, src1: frs1, src2: frs2 }
        } else if f3 == 1 {
            Inst::FltD { dest: rd, src1: frs1, src2: frs2 }
        } else {
            Inst::FleD { dest: rd, src1: frs1, src2: frs2 }
        }
    } else if f7 == 0b1110001 {
        if f3 == 0 {
            Inst::FmvXD { dest: rd, src: frs1 }
        } else {
            Inst::FclassD { dest: rd, src: frs1 }
        }
    } else if f7 == 0b1100001 {
        if rs2 == 0 {
            Inst::FcvtWD { rm, dest: rd, src: frs1 }
        } else if rs2 == 1 {
            Inst::FcvtWuD { rm, dest: rd, src: frs1 }
        } else if rs2 == 2 {
            Inst::FcvtLD { rm, dest: rd, src: frs1 }
        } else {
            Inst::FcvtLuD { rm, dest: rd, src: frs1 }
        }
    } else if f7 == 0b1101001 {
        if rs2 == 0 {
            Inst::FcvtDW { rm, dest: frd, src: rs1 }
        } else if rs2 == 1 {
            Inst::FcvtDWu { rm, dest: frd, src: rs1 }
        } else if rs2 == 2 {
            Inst::FcvtDL { rm, dest: frd, src: rs1 }
        } else {
            Inst::FcvtDLu { rm, dest: frd, src: rs1 }
        }
    } else {
        Inst::FmvDX { dest: frd, src: rs1 }
    }
}

/// The instruction an OP-FP word decodes to.
pub open spec fn op_fp_inst_spec(w: u32, xlen: Xlen) -> Inst {
    if s_fmt(w) == 0 {
        op_fp_s_inst_spec(w, xlen)
    } else {
        op_fp_d_inst_spec(w, xlen)
    }
}

/// The instruction an uncompressed word decodes to, for the given register
/// width. The value is meaningful only for words that `word_valid` admits;
/// on every other word the decoder returns an error and this mapping is
/// irrelevant.
pub open spec fn decode_inst_spec(w: u32, xlen: Xlen) -> Inst {
    let op = s_opcode(w);
    if op == 0b0110111 {
        Inst::Lui { uimm: Imm::spec_sext32(s_imm_u(w)), dest: reg_of(s_rd(w)) }
    } else if op == 0b0010111 {
        Inst::Auipc { uimm: Imm::spec_sext32(s_imm_u(w)), dest: reg_of(s_rd(w)) }
    } else if op == 0b1101111 {
        Inst::Jal { offset: Imm::spec_sext32(s_imm_j(w)), dest: reg_of(s_rd(w)) }
    } else if op == 0b1100111 {
        jalr_inst_spec(w, xlen)
    } else if op == 0b1100011 {
        branch_inst_spec(w, xlen)
    } else if op == 0b0000011 {
        load_inst_spec(w, xlen)
    } else if op == 0b0100011 {
        store_inst_spec(w, xlen)
    } else if op == 0b0010011 {
        op_imm_inst_spec(w, xlen)
    } else if op == 0b0011011 {
        op_imm_32_inst_spec(w, xlen)
    } else if op == 0b0110011 {
        op_inst_spec(w, xlen)
    } else if op == 0b0111011 {
        op_32_inst_spec(w, xlen)
    } else if op == 0b0001111 {
        misc_mem_inst_spec(w, xlen)
    } else if op == 0b1110011 {
        system_inst_spec(w, xlen)
    } else if op == 0b0101111 {
        amo_inst_spec(w, xlen)
    } else if op == 0b0000111 {
        load_fp_inst_spec(w, xlen)
    } else if op == 0b0100111 {
        store_fp_inst_spec(w, xlen)
    } else if op == 0b1000011 || op == 0b1000111 || op == 0b1001011 || op == 0b1001111 {
        fma_inst_spec(w, xlen)
    } else if op == 0b1010011 {
        op_fp_inst_spec(w, xlen)
    } else {
        Inst::Ecall
    }
}

// ---------------------------------------------------------------------------
// Which field tag a rejected word carries. For words that the validity
// predicates refuse, the decoder's error names exactly this field.
// ---------------------------------------------------------------------------

/// The field tag of a rejected JALR word.
pub open spec fn jalr_err_field(w: u32, xlen: Xlen) -> Seq<char> {
    "JALR funct3"@
}

/// The field tag of a rejected BRANCH word.
pub open spec fn branch_err_field(w: u32, xlen: Xlen) -> Seq<char> {
    "BRANCH funct3"@
}

/// The field tag of a rejected LOAD word.
pub open spec fn load_err_field(w: u32, xlen: Xlen) -> Seq<char> {
    let f3 = s_funct3(w);
    if f3 == 3 {
        "LD is not supported on RV32"@
    } else if f3 == 6 {
        "LWU is not supported on RV32"@
    } else {
        "Invalid funct3 for LOAD instruction"@
    }
}

/// The field tag of a rejected STORE word.
pub open spec fn store_err_field(w: u32, xlen: Xlen) -> Seq<char> {
    if s_funct3(w) == 3 {
        "SD is not supported on RV32"@
    } else {
        "STORE funct3"@
    }
}

/// The field tag of a rejected OP-IMM word.
pub open spec fn op_imm_err_field(w: u32, xlen: Xlen) -> Seq<char> {
    let f3 = s_funct3(w);
    if f3 == 1 {
        "slli shift overflow"@
    } else if f3 == 5 {
        if xlen == Xlen::Rv32 {
            "srli shift overflow"@
        } else {
            "srai/srli upper bits"@
        }
    } else {
        "OP-IMM funct3"@
    }
}

/// The field tag of a rejected OP-IMM-32 word.
pub open spec fn op_imm_32_err_field(w: u32, xlen: Xlen) -> Seq<char> {
    let f3 = s_funct3(w);
    if xlen == Xlen::Rv32 {
        "OP-IMM-32 only on RV64"@
    } else if f3 == 1 {
        "SLLIW funct7"@
    } else if f3 == 5 {
        "OP-IMM-32 funct7"@
    } else {
        "OP-IMM-32 funct3"@
    }
}

/// The field tag of a rejected OP word.
pub open spec fn op_err_field(w: u32, xlen: Xlen) -> Seq<char> {
    "OP funct3/funct7"@
}

/// The field tag of a rejected OP-32 word.
pub open spec fn op_32_err_field(w: u32, xlen: Xlen) -> Seq<char> {
    if xlen == Xlen::Rv32 {
        "OP-IMM-32 only on RV64"@
    } else {
        "OP-32 funct3/funct7"@
    }
}

/// The field tag of a rejected MISC-MEM word.
pub open spec fn misc_mem_err_field(w: u32, xlen: Xlen) -> Seq<char> {
    "MISC-MEM funct3"@
}

/// The field tag of a rejected SYSTEM word.
pub open spec fn system_err_field(w: u32, xlen: Xlen) -> Seq<char> {
    if w == 0xC0001073 {
        "unimp instruction"@
    } else if s_funct3(w) == 0 {
        if s_rd(w) != 0 {
            "SYSTEM rd"@
        } else if s_rs1(w) != 0 {
            "SYSTEM rs1"@
        } else {
            "SYSTEM imm"@
        }
    } else {
        "SYSTEM funct3"@
    }
}

/// The field tag of a rejected AMO word.
pub open spec fn amo_err_field(w: u32, xlen: Xlen) -> Seq<char> {
    if s_funct3(w) != 2 {
        "AMO width funct3"@
    } else if s_frs3(w) == 0b00010 {
        "AMO.LR rs2"@
    } else {
        "AMO op funct7"@
    }
}

/// The field tag of a rejected LOAD-FP word.
pub open spec fn load_fp_err_field(w: u32, xlen: Xlen) -> Seq<char> {
    "LOAD-FP funct3"@
}

/// The field tag of a rejected STORE-FP word.
pub open spec fn store_fp_err_field(w: u32, xlen: Xlen) -> Seq<char> {
    "STORE-FP funct3"@
}

/// The field tag of a rejected fused-multiply-add word.
pub open spec fn fma_err_field(w: u32, xlen: Xlen) -> Seq<char> {
    if !rm_field_valid(s_funct3(w)) {
        "invalid rounding mode"@
    } else if s_opcode(w) == 0b1000011 {
        "MADD fmt"@
    } else if s_opcode(w) == 0b1000111 {
        "MSUB fmt"@
    } else if s_opcode(w) == 0b1001011 {
        "NMSUB fmt"@
    } else {
        "NMADD fmt"@
    }
}

/// The field tag of a rejected single-precision OP-FP word.
pub open spec fn op_fp_s_err_field(w: u32, xlen: Xlen) -> Seq<char> {
    let f7 = s_funct7(w);
    let f3 = s_funct3(w);
    let rs2 = s_rs2(w);
    if f7 == 0b0000000 || f7 == 0b0000100 || f7 == 0b0001000 || f7 == 0b0001100 {
        "invalid rounding mode"@
    } else if f7 == 0b0101100 {
        if rs2 != 0 {
            "FSQRT.S rs2 must be 0"@
        } else {
            "invalid rounding mode"@
        }
    } else if f7 == 0b0010000 {
        "FSGNJ.S funct3"@
    } else if f7 == 0b0010100 {
        "FMIN/FMAX.S funct3"@
    } else if f7 == 0b1100000 {
        if !rm_field_valid(f3) {
            "invalid rounding mode"@
        } else if rs2 == 2 {
            "FCVT.L.S only on RV64"@
        } else if rs2 == 3 {
            "FCVT.LU.S only on RV64"@
        } else {
            "FCVT.W.S rs2"@
        }
    } else if f7 == 0b1110000 {
        if f3 == 0 {
            "FMV.X.W rs2 must be 0"@
        } else if f3 == 1 {
            "FCLASS.S rs2 must be 0"@
        } else {
            "FMV.X.W/FCLASS.S funct3"@
        }
    } else if f7 == 0b1010000 {
        "FEQ/FLT/FLE.S funct3"@
    } else if f7 == 0b1101000 {
        if !rm_field_valid(f3) {
            "invalid rounding mode"@
        } else if rs2 == 2 {
            "FCVT.S.L only on RV64"@
        } else if rs2 == 3 {
            "FCVT.S.LU only on RV64"@
        } else {
            "FCVT.S.W rs2"@
        }
    } else if f7 == 0b1111000 {
        if f3 != 0 {
            "FMV.W.X funct3"@
        } else {
            "FMV.W.X rs2 must be 0"@
        }
    } else if f7 == 0b0100000 {
        if rs2 != 1 {
            "FCVT.S.D rs2 must be 1"@
        } else {
            "invalid rounding mode"@
        }
    } else {
        "OP-FP.S funct7"@
    }
}

/// The field tag of a rejected double-precision OP-FP word.
pub open spec fn op_fp_d_err_field(w: u32, xlen: Xlen) -> Seq<char> {
    let f7 = s_funct7(w);
    let f3 = s_funct3(w);
    let rs2 = s_rs2(w);
    if f7 == 0b0000001 || f7 == 0b0000101 || f7 == 0b0001001 || f7 == 0b0001101 {
        "invalid rounding mode"@
    } else if f7 == 0b0101101 {
        if rs2 != 0 {
            "FSQRT.D rs2 must be 0"@
        } else {
            "invalid rounding mode"@
        }
    } else if f7 == 0b0010001 {
        "FSGNJ.D funct3"@
    } else if f7 == 0b0010101 {
        "FMIN/FMAX.D funct3"@
    } else if f7 == 0b0100001 {
        if rs2 != 0 {
            "FCVT.D.S rs2 must be 0"@
        } else {
            "invalid rounding mode"@
        }
    } else if f7 == 0b1010001 {
        "FEQ/FLT/FLE.D funct3"@
    } else if f7 == 0b1110001 {
        if f3 == 0 {
            if xlen == Xlen::Rv64 {
                "FMV.X.D rs2 must be 0"@
            } else {
                "0b1110001 funct3"@
            }
        } else if f3 == 1 {
            "FCLASS.D rs2 must be 0"@
        } else {
            "0b1110001 funct3"@
        }
    } else if f7 == 0b1100001 {
        if !rm_field_valid(f3) {
            "invalid rounding mode"@
        } else if rs2 == 2 {
            "FCVT.L.D only on RV64"@
        } else if rs2 == 3 {
            "FCVT.LU.D only on RV64"@
        } else {
            "FCVT.W.D rs2"@
        }
    } else if f7 == 0b1101001 {
        if !rm_field_valid(f3) {
            "invalid rounding mode"@
        } else if rs2 == 2 {
            "FCVT.D.L only on RV64"@
        } else if rs2 == 3 {
            "FCVT.D.LU only on RV64"@
        } else {
            "FCVT.D.W rs2"@
        }
    } else if f7 == 0b1111001 {
        if xlen == Xlen::Rv64 {
            if f3 != 0 {
                "FMV.D.X funct3"@
            } else {
                "FMV.D.X rs2 must be 0"@
            }
        } else {
            "OP-FP.D funct7"@
        }
    } else {
        "OP-FP.D funct7"@
    }
}

/// The field tag of a rejected OP-FP word.
pub open spec fn op_fp_err_field(w: u32, xlen: Xlen) -> Seq<char> {
    if s_fmt(w) == 0 {
        op_fp_s_err_field(w, xlen)
    } else if s_fmt(w) == 1 {
        op_fp_d_err_field(w, xlen)
    } else {
        "OP-FP fmt"@
    }
}

/// The field tag a rejected uncompressed word carries: for every word that
/// `word_valid` refuses, the decoder's error names exactly this field.
pub open spec fn decode_err_field(w: u32, xlen: Xlen) -> Seq<char> {
    let op = s_opcode(w);
    if op == 0b1100111 {
        jalr_err_field(w, xlen)
    } else if op == 0b1100011 {
        branch_err_field(w, xlen)
    } else if op == 0b0000011 {
        load_err_field(w, xlen)
    } else if op == 0b0100011 {
        store_err_field(w, xlen)
    } else if op == 0b0010011 {
        op_imm_err_field(w, xlen)
    } else if op == 0b0011011 {
        op_imm_32_err_field(w, xlen)
    } else if op == 0b0110011 {
        op_err_field(w, xlen)
    } else if op == 0b0111011 {
        op_32_err_field(w, xlen)
    } else if op == 0b0001111 {
        misc_mem_err_field(w, xlen)
    } else if op == 0b1110011 {
        system_err_field(w, xlen)
    } else if op == 0b0101111 {
        amo_err_field(w, xlen)
    } else if op == 0b0000111 {
        load_fp_err_field(w, xlen)
    } else if op == 0b0100111 {
        store_fp_err_field(w, xlen)
    } else if op == 0b1000011 || op == 0b1000111 || op == 0b1001011 || op == 0b1001111 {
        fma_err_field(w, xlen)
    } else if op == 0b1010011 {
        op_fp_err_field(w, xlen)
    } else {
        "opcode"@
    }
}

/// Every rejection tag is a non-empty name for the rejected field.
pub proof fn lemma_err_field_named(w: u32, xlen: Xlen)
    ensures
        decode_err_field(w, xlen).len() > 0,
{
    reveal_strlit("0b1110001 funct3");
    reveal_strlit("AMO op funct7");
    reveal_strlit("AMO width funct3");
    reveal_strlit("AMO.LR rs2");
    reveal_strlit("BRANCH funct3");
    reveal_strlit("FCLASS.D rs2 must be 0");
    reveal_strlit("FCLASS.S rs2 must be 0");
    reveal_strlit("FCVT.D.L only on RV64");
    reveal_strlit("FCVT.D.LU only on RV64");
    reveal_strlit("FCVT.D.S rs2 must be 0");
    reveal_strlit("FCVT.D.W rs2");
    reveal_strlit("FCVT.L.D only on RV64");
    reveal_strlit("FCVT.L.S only on RV64");
    reveal_strlit("FCVT.LU.D only on RV64");
    reveal_strlit("FCVT.LU.S only on RV64");
    reveal_strlit("FCVT.S.D rs2 must be 1");
    reveal_strlit("FCVT.S.L only on RV64");
    reveal_strlit("FCVT.S.LU only on RV64");
    reveal_strlit("FCVT.S.W rs2");
    reveal_strlit("FCVT.W.D rs2");
    reveal_strlit("FCVT.W.S rs2");
    reveal_strlit("FEQ/FLT/FLE.D funct3");
    reveal_strlit("FEQ/FLT/FLE.S funct3");
    reveal_strlit("FMIN/FMAX.D funct3");
    reveal_strlit("FMIN/FMAX.S funct3");
    reveal_strlit("FMV.D.X funct3");
    reveal_strlit("FMV.D.X rs2 must be 0");
    reveal_strlit("FMV.W.X funct3");
    reveal_strlit("FMV.W.X rs2 must be 0");
    reveal_strlit("FMV.X.D rs2 must be 0");
    reveal_strlit("FMV.X.W rs2 must be 0");
    reveal_strlit("FMV.X.W/FCLASS.S funct3");
    reveal_strlit("FSGNJ.D funct3");
    reveal_strlit("FSGNJ.S funct3");
    reveal_strlit("FSQRT.D rs2 must be 0");
    reveal_strlit("FSQRT.S rs2 must be 0");
    reveal_strlit("Invalid funct3 for LOAD instruction");
    reveal_strlit("JALR funct3");
    reveal_strlit("LD is not supported on RV32");
    reveal_strlit("LOAD-FP funct3");
    reveal_strlit("LWU is not supported on RV32");
    reveal_strlit("MADD fmt");
    reveal_strlit("MISC-MEM funct3");
    reveal_strlit("MSUB fmt");
    reveal_strlit("NMADD fmt");
    reveal_strlit("NMSUB fmt");
    reveal_strlit("OP funct3/funct7");
    reveal_strlit("OP-32 funct3/funct7");
    reveal_strlit("OP-FP fmt");
    reveal_strlit("OP-FP.D funct7");
    reveal_strlit("OP-FP.S funct7");
    reveal_strlit("OP-IMM funct3");
    reveal_strlit("OP-IMM-32 funct3");
    reveal_strlit("OP-IMM-32 funct7");
    reveal_strlit("OP-IMM-32 only on RV64");
    reveal_strlit("SD is not supported on RV32");
    reveal_strlit("SLLIW funct7");
    reveal_strlit("STORE funct3");
    reveal_strlit("STORE-FP funct3");
    reveal_strlit("SYSTEM funct3");
    reveal_strlit("SYSTEM imm");
    reveal_strlit("SYSTEM rd");
    reveal_strlit("SYSTEM rs1");
    reveal_strlit("invalid rounding mode");
    reveal_strlit("opcode");
    reveal_strlit("slli shift overflow");
    reveal_strlit("srai/srli upper bits");
    reveal_strlit("srli shift overflow");
    reveal_strlit("unimp instruction");
}

impl Inst {
    /// Whether the first byte of an instruction indicates a compressed or
    /// uncompressed instruction.
    ///
    /// The instruction stream is little-endian, so the two lowest bits of an
    /// instruction word sit in its first byte: `11` means uncompressed,
    /// anything else compressed. This lets a caller read only the bytes it
    /// needs.
    pub fn first_byte_is_compressed(byte: u8) -> (r: bool)
        ensures
            r == ((byte & 0b11) != 0b11),
    {
        (byte & 0b11) != 0b11
    }

    /// Decode an instruction from four bytes.
    ///
    /// The instruction may be compressed, in which case only two bytes are
    /// consumed. Even in these cases, the full next four bytes must be passed.
    ///
    /// If the caller wants to avoid reading more bytes than necessary,
    /// [`Self::first_byte_is_compressed`] can be used to check, read the
    /// required bytes, and then call [`Self::decode_compressed`] or
    /// [`Self::decode_normal`] directly.
    pub fn decode(code: u32, xlen: Xlen) -> (r: Result<(Inst, IsCompressed), DecodeError>)
        ensures
            r matches Ok(p) ==> inst_wf(p.0) && inst_canonical(p.0, xlen) && (xlen == Xlen::Rv32
                ==> !requires_rv64(p.0)),
            r matches Ok(p) ==> (p.1 == IsCompressed::No <==> code & 0b11 == 0b11),
            r matches Ok(p) ==> (code & 0b11 == 0b11 ==> encode_inst_spec(p.0, xlen) == code
                && p.0 == decode_inst_spec(code, xlen)),
            r matches Ok(p) ==> (code & 0b11 != 0b11 ==> p.0 == compressed_inst_spec(
                code as u16,
                xlen,
            ) && inst_canonical(p.0, xlen) && word_valid(encode_inst_spec(p.0, xlen), xlen)),
            r matches Err(e) ==> e.instruction == (
            if code & 0b11 == 0b11 {
                code
            } else {
                code & 0xffff
            }),
            r matches Err(e) ==> e.unexpected_field@ == (
            if code & 0b11 == 0b11 {
                decode_err_field(code, xlen)
            } else {
                cdecode_err_field(code as u16, xlen)
            }) && e.unexpected_field@.len() > 0,
            r is Ok <==> (if code & 0b11 == 0b11 {
                word_valid(code, xlen)
            } else {
                cword_valid(code as u16, xlen)
            }),
    {
        let is_compressed = (code & 0b11) != 0b11;
        if is_compressed {
            proof {
                assert((code as u16) as u32 == code & 0xffff) by (bit_vector);
            }
            match Self::decode_compressed(#[verifier::truncate] (code as u16), xlen) {
                Ok(inst) => Ok((inst, IsCompressed::Yes)),
                Err(e) => Err(e),
            }
        } else {
            match Self::decode_normal(code, xlen) {
                Ok(inst) => Ok((inst, IsCompressed::No)),
                Err(e) => Err(e),
            }
        }
    }

    /// Decode a normal (not compressed) instruction.
    ///
    /// Decoding is total: every word either yields an instruction or a
    /// structured error, and a decoded instruction re-encodes to exactly the
    /// word it came from.
    pub fn decode_normal(code: u32, xlen: Xlen) -> (r: Result<Inst, DecodeError>)
        ensures
            r matches Ok(inst) ==> inst_wf(inst) && inst_canonical(inst, xlen),
            r matches Ok(inst) ==> (xlen == Xlen::Rv32 ==> !requires_rv64(inst)),
            r matches Ok(inst) ==> encode_inst_spec(inst, xlen) == code,
            r matches Ok(inst) ==> inst == decode_inst_spec(code, xlen),
            r matches Err(e) ==> e.instruction == code && e.unexpected_field@ == decode_err_field(
                code,
                xlen,
            ) && e.unexpected_field@.len() > 0,
            r is Ok <==> word_valid(code, xlen),
    {
        proof {
            lemma_err_field_named(code, xlen);
        }
        let code = InstCode(code);
        match code.opcode() {
            // LUI
            0b0110111 => {
                proof {
                    lemma_dec_u(code.0);
                }
                Ok(Inst::Lui { uimm: code.imm_u(), dest: code.rd() })
            },
            // AUIPC
            0b0010111 => {
                proof {
                    lemma_dec_u(code.0);
                }
                Ok(Inst::Auipc { uimm: code.imm_u(), dest: code.rd() })
            },
            // JAL
            0b1101111 => {
                proof {
                    lemma_dec_j(code.0);
                }
                Ok(Inst::Jal { offset: code.imm_j(), dest: code.rd() })
            },
            // JALR
            0b1100111 => decode_jalr(code, xlen),
            // BRANCH
            0b1100011 => decode_branch(code, xlen),
            // LOAD
            0b0000011 => decode_load(code, xlen),
            // STORE
            0b0100011 => decode_store(code, xlen),
            // OP-IMM
            0b0010011 => decode_op_imm(code, xlen),
            // OP-IMM-32
            0b0011011 => decode_op_imm_32(code, xlen),
            // OP
            0b0110011 => decode_op(code, xlen),
            // OP-32
            0b0111011 => decode_op_32(code, xlen),
            // MISC-MEM
            0b0001111 => decode_misc_mem(code, xlen),
            // SYSTEM
            0b1110011 => decode_system(code, xlen),
            // AMO
            0b0101111 => decode_amo(code, xlen),
            // LOAD-FP
            0b0000111 => decode_load_fp(code, xlen),
            // STORE-FP
            0b0100111 => decode_store_fp(code, xlen),
            // MADD, MSUB, NMSUB, NMADD
            0b1000011 | 0b1000111 | 0b1001011 | 0b1001111 => decode_fma(code, xlen),
            // OP-FP
            0b1010011 => decode_op_fp(code, xlen),
            _ => Err(decode_error(code.0, "opcode")),
        }
    }
}

fn decode_jalr(code: InstCode, xlen: Xlen) -> (r: Result<Inst, DecodeError>)
    requires
        s_opcode(code.0) == 0b1100111,
    ensures
        decode_post(r, code.0, xlen),
        r matches Ok(inst) ==> inst == jalr_inst_spec(code.0, xlen),
        r matches Err(e) ==> e.unexpected_field@ == jalr_err_field(code.0, xlen),
        r is Ok <==> jalr_valid(code.0),
{
    match code.funct3() {
        0b000 => {
            proof {
                lemma_dec_i(code.0);
            }
            Ok(Inst::Jalr { offset: code.imm_i(), base: code.rs1(), dest: code.rd() })
        },
        _ => Err(decode_error(code.0, "JALR funct3")),
    }
}

fn decode_branch(code: InstCode, xlen: Xlen) -> (r: Result<Inst, DecodeError>)
    requires
        s_opcode(code.0) == 0b1100011,
    ensures
        decode_post(r, code.0, xlen),
        r matches Ok(inst) ==> inst == branch_inst_spec(code.0, xlen),
        r matches Err(e) ==> e.unexpected_field@ == branch_err_field(code.0, xlen),
        r is Ok <==> branch_valid(code.0),
{
    proof {
        lemma_dec_b(code.0);
    }
    let offset = code.imm_b();
    let src1 = code.rs1();
    let src2 = code.rs2();
    match code.funct3() {
        0b000 => Ok(Inst::Beq { offset, src1, src2 }),
        0b001 => Ok(Inst::Bne { offset, src1, src2 }),
        0b100 => Ok(Inst::Blt { offset, src1, src2 }),
        0b101 => Ok(Inst::Bge { offset, src1, src2 }),
        0b110 => Ok(Inst::Bltu { offset, src1, src2 }),
        0b111 => Ok(Inst::Bgeu { offset, src1, src2 }),
        _ => Err(decode_error(code.0, "BRANCH funct3")),
    }
}

fn decode_load(code: InstCode, xlen: Xlen) -> (r: Result<Inst, DecodeError>)
    requires
        s_opcode(code.0) == 0b0000011,
    ensures
        decode_post(r, code.0, xlen),
        r matches Ok(inst) ==> inst == load_inst_spec(code.0, xlen),
        r matches Err(e) ==> e.unexpected_field@ == load_err_field(code.0, xlen),
        r is Ok <==> load_valid(code.0, xlen),
{
    proof {
        lemma_dec_i(code.0);
    }
    let offset = code.imm_i();
    let dest = code.rd();
    let base = code.rs1();
    match code.funct3() {
        0b000 => Ok(Inst::Lb { offset, dest, base }),
        0b001 => Ok(Inst::Lh { offset, dest, base }),
        0b010 => Ok(Inst::Lw { offset, dest, base }),
        0b011 => {
            if xlen.is_32() {
                return Err(decode_error(code.0, "LD is not supported on RV32"));
            }
            Ok(Inst::Ld { offset, dest, base })
        },
        0b100 => Ok(Inst::Lbu { offset, dest, base }),
        0b101 => Ok(Inst::Lhu { offset, dest, base }),
        0b110 => {
            if xlen.is_32() {
                return Err(decode_error(code.0, "LWU is not supported on RV32"));
            }
            Ok(Inst::Lwu { offset, dest, base })
        },
        _ => Err(decode_error(code.0, "Invalid funct3 for LOAD instruction")),
    }
}

fn decode_store(code: InstCode, xlen: Xlen) -> (r: Result<Inst, DecodeError>)
    requires
        s_opcode(code.0) == 0b0100011,
    ensures
        decode_post(r, code.0, xlen),
        r matches Ok(inst) ==> inst == store_inst_spec(code.0, xlen),
        r matches Err(e) ==> e.unexpected_field@ == store_err_field(code.0, xlen),
        r is Ok <==> store_valid(code.0, xlen),
{
    proof {
        lemma_dec_s(code.0);
    }
    let offset = code.imm_s();
    let src = code.rs2();
    let base = code.rs1();
    match code.funct3() {
        0b000 => Ok(Inst::Sb { offset, src, base }),
        0b001 => Ok(Inst::Sh { offset, src, base }),
        0b010 => Ok(Inst::Sw { offset, src, base }),
        0b011 => {
            if xlen.is_32() {
                return Err(decode_error(code.0, "SD is not supported on RV32"));
            }
            Ok(Inst::Sd { offset, src, base })
        },
        _ => Err(decode_error(code.0, "STORE funct3")),
    }
}

fn decode_op_imm(code: InstCode, xlen: Xlen) -> (r: Result<Inst, DecodeError>)
    requires
        s_opcode(code.0) == 0b0010011,
    ensures
        decode_post(r, code.0, xlen),
        r matches Ok(inst) ==> inst == op_imm_inst_spec(code.0, xlen),
        r matches Err(e) ==> e.unexpected_field@ == op_imm_err_field(code.0, xlen),
        r is Ok <==> op_imm_valid(code.0, xlen),
{
    proof {
        lemma_dec_i(code.0);
    }
    let dest = code.rd();
    let src1 = code.rs1();
    match code.funct3() {
        0b000 => Ok(Inst::Addi { imm: code.imm_i(), dest, src1 }),
        0b010 => Ok(Inst::Slti { imm: code.imm_i(), dest, src1 }),
        0b011 => Ok(Inst::Sltiu { imm: code.imm_i(), dest, src1 }),
        0b100 => Ok(Inst::Xori { imm: code.imm_i(), dest, src1 }),
        0b110 => Ok(Inst::Ori { imm: code.imm_i(), dest, src1 }),
        0b111 => Ok(Inst::Andi { imm: code.imm_i(), dest, src1 }),
        0b001 => {
            proof {
                // Ties the upper-bit check below to the six-bit minor
                // opcode field that the validity predicate reads.
                lemma_dec_sh64(code.0);
                let w = code.0;
                // With the upper bits clear, the I-immediate is nothing but
                // the shift amount.
                assert((s_funct7(w) == 0 ==> s_imm_i(w) < 32) && (s_funct6(w) == 0 ==> s_imm_i(w)
                    < 64)) by (bit_vector);
            }
            // For RV32, bit 25 must be zero as well.
            let left_zeroes = if xlen.is_32() {
                code.funct7()
            } else {
                code.funct7() >> 1
            };
            if left_zeroes != 0 {
                return Err(decode_error(code.0, "slli shift overflow"));
            }
            Ok(Inst::Slli { imm: code.imm_i(), dest, src1 })
        },
        0b101 => match xlen {
            Xlen::Rv32 => match code.funct7() {
                0b0000000 => {
                    proof {
                        lemma_dec_r(code.0);
                    }
                    Ok(Inst::Srli { imm: Imm::new_u32(code.rs2_imm()), dest, src1 })
                },
                0b0100000 => {
                    proof {
                        lemma_dec_r(code.0);
                    }
                    Ok(Inst::Srai { imm: Imm::new_u32(code.rs2_imm()), dest, src1 })
                },
                _ => Err(decode_error(code.0, "srli shift overflow")),
            },
            Xlen::Rv64 => match code.funct6() {
                0b010000 => {
                    proof {
                        lemma_dec_sh64(code.0);
                    }
                    Ok(Inst::Srai { imm: Imm::new_u32(code.rs2_imm_plus()), dest, src1 })
                },
                0b000000 => {
                    proof {
                        lemma_dec_sh64(code.0);
                    }
                    Ok(Inst::Srli { imm: Imm::new_u32(code.rs2_imm_plus()), dest, src1 })
                },
                _ => Err(decode_error(code.0, "srai/srli upper bits")),
            },
        },
        _ => Err(decode_error(code.0, "OP-IMM funct3")),
    }
}

fn decode_op_imm_32(code: InstCode, xlen: Xlen) -> (r: Result<Inst, DecodeError>)
    requires
        s_opcode(code.0) == 0b0011011,
    ensures
        decode_post(r, code.0, xlen),
        r matches Ok(inst) ==> inst == op_imm_32_inst_spec(code.0, xlen),
        r matches Err(e) ==> e.unexpected_field@ == op_imm_32_err_field(code.0, xlen),
        r is Ok <==> op_imm_32_valid(code.0, xlen),
{
    if xlen.is_32() {
        return Err(decode_error(code.0, "OP-IMM-32 only on RV64"));
    }
    let dest = code.rd();
    let src1 = code.rs1();
    match code.funct3() {
        0b000 => {
            proof {
                lemma_dec_i(code.0);
            }
            Ok(Inst::AddiW { imm: code.imm_i(), dest, src1 })
        },
        // SLLIW
        0b001 => {
            if code.funct7() != 0 {
                return Err(decode_error(code.0, "SLLIW funct7"));
            }
            proof {
                lemma_dec_i(code.0);
                let w = code.0;
                assert(s_funct7(w) == 0 ==> s_imm_i(w) == s_rs2(w)) by (bit_vector);
            }
            Ok(Inst::SlliW { imm: Imm::new_u32(code.rs2_imm()), dest, src1 })
        },
        0b101 => match code.funct7() {
            0b0000000 => {
                proof {
                    lemma_dec_r(code.0);
                }
                Ok(Inst::SrliW { imm: Imm::new_u32(code.rs2_imm()), dest, src1 })
            },
            0b0100000 => {
                proof {
                    lemma_dec_r(code.0);
                }
                Ok(Inst::SraiW { imm: Imm::new_u32(code.rs2_imm()), dest, src1 })
            },
            _ => Err(decode_error(code.0, "OP-IMM-32 funct7")),
        },
        _ => Err(decode_error(code.0, "OP-IMM-32 funct3")),
    }
}

fn decode_op(code: InstCode, xlen: Xlen) -> (r: Result<Inst, DecodeError>)
    requires
        s_opcode(code.0) == 0b0110011,
    ensures
        decode_post(r, code.0, xlen),
        r matches Ok(inst) ==> inst == op_inst_spec(code.0, xlen),
        r matches Err(e) ==> e.unexpected_field@ == op_err_field(code.0, xlen),
        r is Ok <==> op_valid(code.0),
{
    proof {
        lemma_dec_r(code.0);
    }
    let dest = code.rd();
    let src1 = code.rs1();
    let src2 = code.rs2();
    match (code.funct3(), code.funct7()) {
        (0b000, 0b0000000) => Ok(Inst::Add { dest, src1, src2 }),
        (0b000, 0b0100000) => Ok(Inst::Sub { dest, src1, src2 }),
        (0b001, 0b0000000) => Ok(Inst::Sll { dest, src1, src2 }),
        (0b010, 0b0000000) => Ok(Inst::Slt { dest, src1, src2 }),
        (0b011, 0b0000000) => Ok(Inst::Sltu { dest, src1, src2 }),
        (0b100, 0b0000000) => Ok(Inst::Xor { dest, src1, src2 }),
        (0b101, 0b0000000) => Ok(Inst::Srl { dest, src1, src2 }),
        (0b101, 0b0100000) => Ok(Inst::Sra { dest, src1, src2 }),
        (0b110, 0b0000000) => Ok(Inst::Or { dest, src1, src2 }),
        (0b111, 0b0000000) => Ok(Inst::And { dest, src1, src2 }),
        (0b000, 0b0000001) => Ok(Inst::Mul { dest, src1, src2 }),
        (0b001, 0b0000001) => Ok(Inst::Mulh { dest, src1, src2 }),
        (0b010, 0b0000001) => Ok(Inst::Mulhsu { dest, src1, src2 }),
        (0b011, 0b0000001) => Ok(Inst::Mulhu { dest, src1, src2 }),
        (0b100, 0b0000001) => Ok(Inst::Div { dest, src1, src2 }),
        (0b101, 0b0000001) => Ok(Inst::Divu { dest, src1, src2 }),
        (0b110, 0b0000001) => Ok(Inst::Rem { dest, src1, src2 }),
        (0b111, 0b0000001) => Ok(Inst::Remu { dest, src1, src2 }),
        _ => Err(decode_error(code.0, "OP funct3/funct7")),
    }
}

fn decode_op_32(code: InstCode, xlen: Xlen) -> (r: Result<Inst, DecodeError>)
    requires
        s_opcode(code.0) == 0b0111011,
    ensures
        decode_post(r, code.0, xlen),
        r matches Ok(inst) ==> inst == op_32_inst_spec(code.0, xlen),
        r matches Err(e) ==> e.unexpected_field@ == op_32_err_field(code.0, xlen),
        r is Ok <==> op_32_valid(code.0, xlen),
{
    if xlen.is_32() {
        return Err(decode_error(code.0, "OP-IMM-32 only on RV64"));
    }
    proof {
        lemma_dec_r(code.0);
    }
    let dest = code.rd();
    let src1 = code.rs1();
    let src2 = code.rs2();
    match (code.funct3(), code.funct7()) {
        (0b000, 0b0000000) => Ok(Inst::AddW { dest, src1, src2 }),
        (0b000, 0b0100000) => Ok(Inst::SubW { dest, src1, src2 }),
        (0b001, 0b0000000) => Ok(Inst::SllW { dest, src1, src2 }),
        (0b101, 0b0000000) => Ok(Inst::SrlW { dest, src1, src2 }),
        (0b101, 0b0100000) => Ok(Inst::SraW { dest, src1, src2 }),
        (0b000, 0b0000001) => Ok(Inst::MulW { dest, src1, src2 }),
        (0b100, 0b0000001) => Ok(Inst::DivW { dest, src1, src2 }),
        (0b101, 0b0000001) => Ok(Inst::DivuW { dest, src1, src2 }),
        (0b110, 0b0000001) => Ok(Inst::RemW { dest, src1, src2 }),
        (0b111, 0b0000001) => Ok(Inst::RemuW { dest, src1, src2 }),
        _ => Err(decode_error(code.0, "OP-32 funct3/funct7")),
    }
}

fn decode_misc_mem(code: InstCode, xlen: Xlen) -> (r: Result<Inst, DecodeError>)
    requires
        s_opcode(code.0) == 0b0001111,
    ensures
        decode_post(r, code.0, xlen),
        r matches Ok(inst) ==> inst == misc_mem_inst_spec(code.0, xlen),
        r matches Err(e) ==> e.unexpected_field@ == misc_mem_err_field(code.0, xlen),
        r is Ok <==> misc_mem_valid(code.0),
{
    let fm = code.fm();
    let pred = FenceSet {
        device_input: code.bit(27),
        device_output: code.bit(26),
        memory_read: code.bit(25),
        memory_write: code.bit(24),
    };
    let succ = FenceSet {
        device_input: code.bit(23),
        device_output: code.bit(22),
        memory_read: code.bit(21),
        memory_write: code.bit(20),
    };
    match code.funct3() {
        0b000 => {
            proof {
                lemma_dec_fence(code.0);
            }
            Ok(
                Inst::Fence {
                    fence: Fence { fm: fm as u8, pred, succ, dest: code.rd(), src: code.rs1() },
                },
            )
        },
        _ => Err(decode_error(code.0, "MISC-MEM funct3")),
    }
}

fn decode_system(code: InstCode, xlen: Xlen) -> (r: Result<Inst, DecodeError>)
    requires
        s_opcode(code.0) == 0b1110011,
    ensures
        decode_post(r, code.0, xlen),
        r matches Ok(inst) ==> inst == system_inst_spec(code.0, xlen),
        r matches Err(e) ==> e.unexpected_field@ == system_err_field(code.0, xlen),
        r is Ok <==> system_valid(code.0),
{
    if code.0 == 0b11000000000000000001000001110011 {
        return Err(decode_error(code.0, "unimp instruction"));
    }
    match code.funct3() {
        // ECALL/EBREAK
        0b000 => {
            if code.rd().0 != 0 {
                return Err(decode_error(code.0, "SYSTEM rd"));
            }
            if code.rs1().0 != 0 {
                return Err(decode_error(code.0, "SYSTEM rs1"));
            }
            proof {
                lemma_dec_i(code.0);
            }
            match code.imm_i().as_u32() {
                0b000000000000 => Ok(Inst::Ecall),
                0b000000000001 => Ok(Inst::Ebreak),
                _ => Err(decode_error(code.0, "SYSTEM imm")),
            }
        },
        // CSRRW
        0b001 => {
            proof {
                lemma_dec_csr(code.0);
            }
            Ok(Inst::Csrrw { csr: code.csr(), dest: code.rd(), src: code.rs1() })
        },
        // CSRRS
        0b010 => {
            proof {
                lemma_dec_csr(code.0);
            }
            Ok(Inst::Csrrs { csr: code.csr(), dest: code.rd(), src: code.rs1() })
        },
        // CSRRC
        0b011 => {
            proof {
                lemma_dec_csr(code.0);
            }
            Ok(Inst::Csrrc { csr: code.csr(), dest: code.rd(), src: code.rs1() })
        },
        // CSRRWI
        0b101 => {
            proof {
                lemma_dec_csr(code.0);
            }
            Ok(Inst::Csrrwi { csr: code.csr(), dest: code.rd(), uimm: code.zimm() })
        },
        // CSRRSI
        0b110 => {
            proof {
                lemma_dec_csr(code.0);
            }
            Ok(Inst::Csrrsi { csr: code.csr(), dest: code.rd(), uimm: code.zimm() })
        },
        // CSRRCI
        0b111 => {
            proof {
                lemma_dec_csr(code.0);
            }
            Ok(Inst::Csrrci { csr: code.csr(), dest: code.rd(), uimm: code.zimm() })
        },
        _ => Err(decode_error(code.0, "SYSTEM funct3")),
    }
}

fn decode_amo(code: InstCode, xlen: Xlen) -> (r: Result<Inst, DecodeError>)
    requires
        s_opcode(code.0) == 0b0101111,
    ensures
        decode_post(r, code.0, xlen),
        r matches Ok(inst) ==> inst == amo_inst_spec(code.0, xlen),
        r matches Err(e) ==> e.unexpected_field@ == amo_err_field(code.0, xlen),
        r is Ok <==> amo_valid(code.0),
{
    // width must be W
    if code.funct3() != 0b010 {
        return Err(decode_error(code.0, "AMO width funct3"));
    }
    let kind = code.amo_kind();
    let aq = code.bit(26);
    let rl = code.bit(25);
    let order = AmoOrdering::from_aq_rl(aq, rl);
    proof {
        lemma_dec_amo(code.0);
    }
    match kind {
        // LR
        0b00010 => {
            if code.rs2().0 != 0 {
                return Err(decode_error(code.0, "AMO.LR rs2"));
            }
            Ok(Inst::LrW { order, dest: code.rd(), addr: code.rs1() })
        },
        // SC
        0b00011 => Ok(Inst::ScW { order, dest: code.rd(), addr: code.rs1(), src: code.rs2() }),
        _ => {
            let op = match kind {
                0b00001 => AmoOp::Swap,
                0b00000 => AmoOp::Add,
                0b00100 => AmoOp::Xor,
                0b01100 => AmoOp::And,
                0b01000 => AmoOp::Or,
                0b10000 => AmoOp::Min,
                0b10100 => AmoOp::Max,
                0b11000 => AmoOp::Minu,
                0b11100 => AmoOp::Maxu,
                _ => {
                    return Err(decode_error(code.0, "AMO op funct7"));
                },
            };
            Ok(Inst::AmoW { order, op, dest: code.rd(), addr: code.rs1(), src: code.rs2() })
        },
    }
}

fn decode_load_fp(code: InstCode, xlen: Xlen) -> (r: Result<Inst, DecodeError>)
    requires
        s_opcode(code.0) == 0b0000111,
    ensures
        decode_post(r, code.0, xlen),
        r matches Ok(inst) ==> inst == load_fp_inst_spec(code.0, xlen),
        r matches Err(e) ==> e.unexpected_field@ == load_fp_err_field(code.0, xlen),
        r is Ok <==> fp_mem_valid(code.0),
{
    proof {
        lemma_dec_i(code.0);
    }
    match code.funct3() {
        // FLW
        0b010 => Ok(Inst::Flw { offset: code.imm_i(), dest: code.frd(), base: code.rs1() }),
        // FLD
        0b011 => Ok(Inst::Fld { offset: code.imm_i(), dest: code.frd(), base: code.rs1() }),
        _ => Err(decode_error(code.0, "LOAD-FP funct3")),
    }
}

fn decode_store_fp(code: InstCode, xlen: Xlen) -> (r: Result<Inst, DecodeError>)
    requires
        s_opcode(code.0) == 0b0100111,
    ensures
        decode_post(r, code.0, xlen),
        r matches Ok(inst) ==> inst == store_fp_inst_spec(code.0, xlen),
        r matches Err(e) ==> e.unexpected_field@ == store_fp_err_field(code.0, xlen),
        r is Ok <==> fp_mem_valid(code.0),
{
    proof {
        lemma_dec_s(code.0);
    }
    match code.funct3() {
        // FSW
        0b010 => Ok(Inst::Fsw { offset: code.imm_s(), src: code.frs2(), base: code.rs1() }),
        // FSD
        0b011 => Ok(Inst::Fsd { offset: code.imm_s(), src: code.frs2(), base: code.rs1() }),
        _ => Err(decode_error(code.0, "STORE-FP funct3")),
    }
}

fn decode_fma(code: InstCode, xlen: Xlen) -> (r: Result<Inst, DecodeError>)
    requires
        s_opcode(code.0) == 0b1000011 || s_opcode(code.0) == 0b1000111 || s_opcode(code.0)
            == 0b1001011 || s_opcode(code.0) == 0b1001111,
    ensures
        decode_post(r, code.0, xlen),
        r matches Ok(inst) ==> inst == fma_inst_spec(code.0, xlen),
        r matches Err(e) ==> e.unexpected_field@ == fma_err_field(code.0, xlen),
        r is Ok <==> fma_valid(code.0),
{
    let rm = match RoundingMode::from_rm(code.rm()) {
        Some(rm) => rm,
        None => {
            return Err(decode_error(code.0, "invalid rounding mode"));
        },
    };
    let dest = code.frd();
    let src1 = code.frs1();
    let src2 = code.frs2();
    let src3 = code.frs3();
    proof {
        lemma_dec_r4(code.0);
    }
    match code.fmt() {
        0b00 => match code.opcode() {
            0b1000011 => Ok(Inst::FmaddS { rm, dest, src1, src2, src3 }),
            0b1000111 => Ok(Inst::FmsubS { rm, dest, src1, src2, src3 }),
            0b1001011 => Ok(Inst::FnmsubS { rm, dest, src1, src2, src3 }),
            _ => Ok(Inst::FnmaddS { rm, dest, src1, src2, src3 }),
        },
        0b01 => match code.opcode() {
            0b1000011 => Ok(Inst::FmaddD { rm, dest, src1, src2, src3 }),
            0b1000111 => Ok(Inst::FmsubD { rm, dest, src1, src2, src3 }),
            0b1001011 => Ok(Inst::FnmsubD { rm, dest, src1, src2, src3 }),
            _ => Ok(Inst::FnmaddD { rm, dest, src1, src2, src3 }),
        },
        _ => Err(
            decode_error(
                code.0,
                match code.opcode() {
                    0b1000011 => "MADD fmt",
                    0b1000111 => "MSUB fmt",
                    0b1001011 => "NMSUB fmt",
                    _ => "NMADD fmt",
                },
            ),
        ),
    }
}

fn decode_op_fp(code: InstCode, xlen: Xlen) -> (r: Result<Inst, DecodeError>)
    requires
        s_opcode(code.0) == 0b1010011,
    ensures
        decode_post(r, code.0, xlen),
        r matches Ok(inst) ==> inst == op_fp_inst_spec(code.0, xlen),
        r matches Err(e) ==> e.unexpected_field@ == op_fp_err_field(code.0, xlen),
        r is Ok <==> op_fp_valid(code.0, xlen),
{
    match code.fmt() {
        // Single-precision (fmt=00)
        0b00 => decode_op_fp_s(code, xlen),
        // Double-precision (fmt=01)
        0b01 => decode_op_fp_d(code, xlen),
        _ => Err(decode_error(code.0, "OP-FP fmt")),
    }
}

fn decode_op_fp_s(code: InstCode, xlen: Xlen) -> (r: Result<Inst, DecodeError>)
    requires
        s_opcode(code.0) == 0b1010011,
    ensures
        decode_post(r, code.0, xlen),
        r matches Ok(inst) ==> inst == op_fp_s_inst_spec(code.0, xlen),
        r matches Err(e) ==> e.unexpected_field@ == op_fp_s_err_field(code.0, xlen),
        r is Ok <==> op_fp_s_valid(code.0, xlen),
{
    proof {
        lemma_dec_r(code.0);
    }
    match code.funct7() {
        // FADD.S
        0b0000000 => {
            let rm = match RoundingMode::from_rm(code.rm()) {
                Some(rm) => rm,
                None => {
                    return Err(decode_error(code.0, "invalid rounding mode"));
                },
            };
            Ok(Inst::FaddS { rm, dest: code.frd(), src1: code.frs1(), src2: code.frs2() })
        },
        // FSUB.S
        0b0000100 => {
            let rm = match RoundingMode::from_rm(code.rm()) {
                Some(rm) => rm,
                None => {
                    return Err(decode_error(code.0, "invalid rounding mode"));
                },
            };
            Ok(Inst::FsubS { rm, dest: code.frd(), src1: code.frs1(), src2: code.frs2() })
        },
        // FMUL.S
        0b0001000 => {
            let rm = match RoundingMode::from_rm(code.rm()) {
                Some(rm) => rm,
                None => {
                    return Err(decode_error(code.0, "invalid rounding mode"));
                },
            };
            Ok(Inst::FmulS { rm, dest: code.frd(), src1: code.frs1(), src2: code.frs2() })
        },
        // FDIV.S
        0b0001100 => {
            let rm = match RoundingMode::from_rm(code.rm()) {
                Some(rm) => rm,
                None => {
                    return Err(decode_error(code.0, "invalid rounding mode"));
                },
            };
            Ok(Inst::FdivS { rm, dest: code.frd(), src1: code.frs1(), src2: code.frs2() })
        },
        // FSQRT.S
        0b0101100 => {
            if code.frs2().0 != 0 {
                return Err(decode_error(code.0, "FSQRT.S rs2 must be 0"));
            }
            let rm = match RoundingMode::from_rm(code.rm()) {
                Some(rm) => rm,
                None => {
                    return Err(decode_error(code.0, "invalid rounding mode"));
                },
            };
            Ok(Inst::FsqrtS { rm, dest: code.frd(), src: code.frs1() })
        },
        // FSGNJ.S, FSGNJN.S, FSGNJX.S
        0b0010000 => match code.funct3() {
            0b000 => Ok(Inst::FsgnjS { dest: code.frd(), src1: code.frs1(), src2: code.frs2() }),
            0b001 => Ok(Inst::FsgnjnS { dest: code.frd(), src1: code.frs1(), src2: code.frs2() }),
            0b010 => Ok(Inst::FsgnjxS { dest: code.frd(), src1: code.frs1(), src2: code.frs2() }),
            _ => Err(decode_error(code.0, "FSGNJ.S funct3")),
        },
        // FMIN.S, FMAX.S
        0b0010100 => match code.funct3() {
            0b000 => Ok(Inst::FminS { dest: code.frd(), src1: code.frs1(), src2: code.frs2() }),
            0b001 => Ok(Inst::FmaxS { dest: code.frd(), src1: code.frs1(), src2: code.frs2() }),
            _ => Err(decode_error(code.0, "FMIN/FMAX.S funct3")),
        },
        // FCVT.W.S, FCVT.WU.S, FCVT.L.S, FCVT.LU.S
        0b1100000 => {
            let rm = match RoundingMode::from_rm(code.rm()) {
                Some(rm) => rm,
                None => {
                    return Err(decode_error(code.0, "invalid rounding mode"));
                },
            };
            match code.frs2().0 {
                0b00000 => Ok(Inst::FcvtWS { rm, dest: code.rd(), src: code.frs1() }),
                0b00001 => Ok(Inst::FcvtWuS { rm, dest: code.rd(), src: code.frs1() }),
                0b00010 => {
                    if xlen.is_32() {
                        return Err(decode_error(code.0, "FCVT.L.S only on RV64"));
                    }
                    Ok(Inst::FcvtLS { rm, dest: code.rd(), src: code.frs1() })
                },
                0b00011 => {
                    if xlen.is_32() {
                        return Err(decode_error(code.0, "FCVT.LU.S only on RV64"));
                    }
                    Ok(Inst::FcvtLuS { rm, dest: code.rd(), src: code.frs1() })
                },
                _ => Err(decode_error(code.0, "FCVT.W.S rs2")),
            }
        },
        // FMV.X.W, FCLASS.S
        0b1110000 => match code.funct3() {
            0b000 => {
                if code.frs2().0 != 0 {
                    return Err(decode_error(code.0, "FMV.X.W rs2 must be 0"));
                }
                Ok(Inst::FmvXW { dest: code.rd(), src: code.frs1() })
            },
            0b001 => {
                if code.frs2().0 != 0 {
                    return Err(decode_error(code.0, "FCLASS.S rs2 must be 0"));
                }
                Ok(Inst::FclassS { dest: code.rd(), src: code.frs1() })
            },
            _ => Err(decode_error(code.0, "FMV.X.W/FCLASS.S funct3")),
        },
        // FEQ.S, FLT.S, FLE.S
        0b1010000 => match code.funct3() {
            0b010 => Ok(Inst::FeqS { dest: code.rd(), src1: code.frs1(), src2: code.frs2() }),
            0b001 => Ok(Inst::FltS { dest: code.rd(), src1: code.frs1(), src2: code.frs2() }),
            0b000 => Ok(Inst::FleS { dest: code.rd(), src1: code.frs1(), src2: code.frs2() }),
            _ => Err(decode_error(code.0, "FEQ/FLT/FLE.S funct3")),
        },
        // FCVT.S.W, FCVT.S.WU, FCVT.S.L, FCVT.S.LU
        0b1101000 => {
            let rm = match RoundingMode::from_rm(code.rm()) {
                Some(rm) => rm,
                None => {
                    return Err(decode_error(code.0, "invalid rounding mode"));
                },
            };
            match code.frs2().0 {
                0b00000 => Ok(Inst::FcvtSW { rm, dest: code.frd(), src: code.rs1() }),
                0b00001 => Ok(Inst::FcvtSWu { rm, dest: code.frd(), src: code.rs1() }),
                0b00010 => {
                    if xlen.is_32() {
                        return Err(decode_error(code.0, "FCVT.S.L only on RV64"));
                    }
                    Ok(Inst::FcvtSL { rm, dest: code.frd(), src: code.rs1() })
                },
                0b00011 => {
                    if xlen.is_32() {
                        return Err(decode_error(code.0, "FCVT.S.LU only on RV64"));
                    }
                    Ok(Inst::FcvtSLu { rm, dest: code.frd(), src: code.rs1() })
                },
                _ => Err(decode_error(code.0, "FCVT.S.W rs2")),
            }
        },
        // FMV.W.X
        0b1111000 => {
            if code.funct3() != 0b000 {
                return Err(decode_error(code.0, "FMV.W.X funct3"));
            }
            if code.frs2().0 != 0 {
                return Err(decode_error(code.0, "FMV.W.X rs2 must be 0"));
            }
            Ok(Inst::FmvWX { dest: code.frd(), src: code.rs1() })
        },
        // FCVT.S.D (converts double to single)
        0b0100000 => {
            if code.frs2().0 != 1 {
                return Err(decode_error(code.0, "FCVT.S.D rs2 must be 1"));
            }
            let rm = match RoundingMode::from_rm(code.rm()) {
                Some(rm) => rm,
                None => {
                    return Err(decode_error(code.0, "invalid rounding mode"));
                },
            };
            Ok(Inst::FcvtSD { rm, dest: code.frd(), src: code.frs1() })
        },
        _ => Err(decode_error(code.0, "OP-FP.S funct7")),
    }
}

fn decode_op_fp_d(code: InstCode, xlen: Xlen) -> (r: Result<Inst, DecodeError>)
    requires
        s_opcode(code.0) == 0b1010011,
    ensures
        decode_post(r, code.0, xlen),
        r matches Ok(inst) ==> inst == op_fp_d_inst_spec(code.0, xlen),
        r matches Err(e) ==> e.unexpected_field@ == op_fp_d_err_field(code.0, xlen),
        r is Ok <==> op_fp_d_valid(code.0, xlen),
{
    proof {
        lemma_dec_r(code.0);
    }
    match code.funct7() {
        // FADD.D
        0b0000001 => {
            let rm = match RoundingMode::from_rm(code.rm()) {
                Some(rm) => rm,
                None => {
                    return Err(decode_error(code.0, "invalid rounding mode"));
                },
            };
            Ok(Inst::FaddD { rm, dest: code.frd(), src1: code.frs1(), src2: code.frs2() })
        },
        // FSUB.D
        0b0000101 => {
            let rm = match RoundingMode::from_rm(code.rm()) {
                Some(rm) => rm,
                None => {
                    return Err(decode_error(code.0, "invalid rounding mode"));
                },
            };
            Ok(Inst::FsubD { rm, dest: code.frd(), src1: code.frs1(), src2: code.frs2() })
        },
        // FMUL.D
        0b0001001 => {
            let rm = match RoundingMode::from_rm(code.rm()) {
                Some(rm) => rm,
                None => {
                    return Err(decode_error(code.0, "invalid rounding mode"));
                },
            };
            Ok(Inst::FmulD { rm, dest: code.frd(), src1: code.frs1(), src2: code.frs2() })
        },
        // FDIV.D
        0b0001101 => {
            let rm = match RoundingMode::from_rm(code.rm()) {
                Some(rm) => rm,
                None => {
                    return Err(decode_error(code.0, "invalid rounding mode"));
                },
            };
            Ok(Inst::FdivD { rm, dest: code.frd(), src1: code.frs1(), src2: code.frs2() })
        },
        // FSQRT.D
        0b0101101 => {
            if code.frs2().0 != 0 {
                return Err(decode_error(code.0, "FSQRT.D rs2 must be 0"));
            }
            let rm = match RoundingMode::from_rm(code.rm()) {
                Some(rm) => rm,
                None => {
                    return Err(decode_error(code.0, "invalid rounding mode"));
                },
            };
            Ok(Inst::FsqrtD { rm, dest: code.frd(), src: code.frs1() })
        },
        // FSGNJ.D, FSGNJN.D, FSGNJX.D
        0b0010001 => match code.funct3() {
            0b000 => Ok(Inst::FsgnjD { dest: code.frd(), src1: code.frs1(), src2: code.frs2() }),
            0b001 => Ok(Inst::FsgnjnD { dest: code.frd(), src1: code.frs1(), src2: code.frs2() }),
            0b010 => Ok(Inst::FsgnjxD { dest: code.frd(), src1: code.frs1(), src2: code.frs2() }),
            _ => Err(decode_error(code.0, "FSGNJ.D funct3")),
        },
        // FMIN.D, FMAX.D
        0b0010101 => match code.funct3() {
            0b000 => Ok(Inst::FminD { dest: code.frd(), src1: code.frs1(), src2: code.frs2() }),
            0b001 => Ok(Inst::FmaxD { dest: code.frd(), src1: code.frs1(), src2: code.frs2() }),
            _ => Err(decode_error(code.0, "FMIN/FMAX.D funct3")),
        },
        // FCVT.D.S
        0b0100001 => {
            if code.frs2().0 != 0 {
                return Err(decode_error(code.0, "FCVT.D.S rs2 must be 0"));
            }
            let rm = match RoundingMode::from_rm(code.rm()) {
                Some(rm) => rm,
                None => {
                    return Err(decode_error(code.0, "invalid rounding mode"));
                },
            };
            Ok(Inst::FcvtDS { rm, dest: code.frd(), src: code.frs1() })
        },
        // FEQ.D, FLT.D, FLE.D
        0b1010001 => match code.funct3() {
            0b010 => Ok(Inst::FeqD { dest: code.rd(), src1: code.frs1(), src2: code.frs2() }),
            0b001 => Ok(Inst::FltD { dest: code.rd(), src1: code.frs1(), src2: code.frs2() }),
            0b000 => Ok(Inst::FleD { dest: code.rd(), src1: code.frs1(), src2: code.frs2() }),
            _ => Err(decode_error(code.0, "FEQ/FLT/FLE.D funct3")),
        },
        // FCLASS.D, FMV.X.D
        0b1110001 => match code.funct3() {
            // FMV.X.D (only on RV64)
            0b000 => {
                if xlen.is_64() {
                    if code.frs2().0 != 0 {
                        return Err(decode_error(code.0, "FMV.X.D rs2 must be 0"));
                    }
                    Ok(Inst::FmvXD { dest: code.rd(), src: code.frs1() })
                } else {
                    Err(decode_error(code.0, "0b1110001 funct3"))
                }
            },
            // FCLASS.D
            0b001 => {
                if code.frs2().0 != 0 {
                    return Err(decode_error(code.0, "FCLASS.D rs2 must be 0"));
                }
                Ok(Inst::FclassD { dest: code.rd(), src: code.frs1() })
            },
            _ => Err(decode_error(code.0, "0b1110001 funct3")),
        },
        // FCVT.W.D, FCVT.WU.D, FCVT.L.D, FCVT.LU.D
        0b1100001 => {
            let rm = match RoundingMode::from_rm(code.rm()) {
                Some(rm) => rm,
                None => {
                    return Err(decode_error(code.0, "invalid rounding mode"));
                },
            };
            match code.frs2().0 {
                0b00000 => Ok(Inst::FcvtWD { rm, dest: code.rd(), src: code.frs1() }),
                0b00001 => Ok(Inst::FcvtWuD { rm, dest: code.rd(), src: code.frs1() }),
                0b00010 => {
                    if xlen.is_32() {
                        return Err(decode_error(code.0, "FCVT.L.D only on RV64"));
                    }
                    Ok(Inst::FcvtLD { rm, dest: code.rd(), src: code.frs1() })
                },
                0b00011 => {
                    if xlen.is_32() {
                        return Err(decode_error(code.0, "FCVT.LU.D only on RV64"));
                    }
                    Ok(Inst::FcvtLuD { rm, dest: code.rd(), src: code.frs1() })
                },
                _ => Err(decode_error(code.0, "FCVT.W.D rs2")),
            }
        },
        // FCVT.D.W, FCVT.D.WU, FCVT.D.L, FCVT.D.LU
        0b1101001 => {
            let rm = match RoundingMode::from_rm(code.rm()) {
                Some(rm) => rm,
                None => {
                    return Err(decode_error(code.0, "invalid rounding mode"));
                },
            };
            match code.frs2().0 {
                0b00000 => Ok(Inst::FcvtDW { rm, dest: code.frd(), src: code.rs1() }),
                0b00001 => Ok(Inst::FcvtDWu { rm, dest: code.frd(), src: code.rs1() }),
                0b00010 => {
                    if xlen.is_32() {
                        return Err(decode_error(code.0, "FCVT.D.L only on RV64"));
                    }
                    Ok(Inst::FcvtDL { rm, dest: code.frd(), src: code.rs1() })
                },
                0b00011 => {
                    if xlen.is_32() {
                        return Err(decode_error(code.0, "FCVT.D.LU only on RV64"));
                    }
                    Ok(Inst::FcvtDLu { rm, dest: code.frd(), src: code.rs1() })
                },
                _ => Err(decode_error(code.0, "FCVT.D.W rs2")),
            }
        },
        // FMV.D.X
        0b1111001 => {
            if xlen.is_64() {
                if code.funct3() != 0b000 {
                    return Err(decode_error(code.0, "FMV.D.X funct3"));
                }
                if code.frs2().0 != 0 {
                    return Err(decode_error(code.0, "FMV.D.X rs2 must be 0"));
                }
                Ok(Inst::FmvDX { dest: code.frd(), src: code.rs1() })
            } else {
                Err(decode_error(code.0, "OP-FP.D funct7"))
            }
        },
        _ => Err(decode_error(code.0, "OP-FP.D funct7")),
    }
}

} // verus!
