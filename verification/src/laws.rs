use vstd::prelude::*;

use crate::bits::lemma_e_amo_fields;
use crate::bits::lemma_e_b_fields;
use crate::bits::lemma_e_fence_fields;
use crate::bits::lemma_e_i_fields;
use crate::bits::lemma_e_j_fields;
use crate::bits::lemma_e_r4_fields;
use crate::bits::lemma_e_r_fields;
use crate::bits::lemma_e_s_fields;
use crate::bits::lemma_e_sh64_fields;
use crate::bits::lemma_e_u_fields;
use crate::bits::lemma_unimp_word;
use crate::enc::encode_inst_spec;
use crate::inst::inst_canonical;
use crate::inst::inst_wf;
use crate::inst::requires_rv64;
use crate::inst::Inst;
use crate::valid::word_valid;
use crate::xlen::Xlen;

verus! {

/// One slice of the instruction set, for [`lemma_canonical_encoding_decodes`].
#[verifier::rlimit(100)]
proof fn lemma_canonical_encoding_part_1(inst: Inst, xlen: Xlen)
    requires
        inst_wf(inst),
        inst_canonical(inst, xlen),
        xlen == Xlen::Rv32 ==> !requires_rv64(inst),
        !(inst matches Inst::Csrrw { csr, dest, src } && csr.0 == 0xC00 && dest.0 == 0
            && src.0 == 0),
    ensures
        (inst matches Inst::Lui { .. }
        || inst matches Inst::Auipc { .. }
        || inst matches Inst::Jal { .. }
        || inst matches Inst::Jalr { .. }
        || inst matches Inst::Beq { .. }
        || inst matches Inst::Bne { .. }
        || inst matches Inst::Blt { .. }
        || inst matches Inst::Bge { .. }
        || inst matches Inst::Bltu { .. }
        || inst matches Inst::Bgeu { .. }
        || inst matches Inst::Lb { .. }
        || inst matches Inst::Lh { .. }) ==> word_valid(encode_inst_spec(inst, xlen), xlen),
{
    lemma_unimp_word();
    match inst {
        Inst::Lui { uimm, dest } => {
            assert(word_valid(encode_inst_spec(inst, xlen), xlen)) by {
                lemma_e_u_fields(0b0110111, dest.0 as u32, uimm.low());
            }
        },
        Inst::Auipc { uimm, dest } => {
            assert(word_valid(encode_inst_spec(inst, xlen), xlen)) by {
                lemma_e_u_fields(0b0010111, dest.0 as u32, uimm.low());
            }
        },
        Inst::Jal { offset, dest } => {
            assert(word_valid(encode_inst_spec(inst, xlen), xlen)) by {
                lemma_e_j_fields(0b1101111, dest.0 as u32, offset.low());
            }
        },
        Inst::Jalr { offset, base, dest } => {
            assert(word_valid(encode_inst_spec(inst, xlen), xlen)) by {
                lemma_e_i_fields(0b1100111, 0b000, dest.0 as u32, base.0 as u32, offset.low());
            }
        },
        Inst::Beq { offset, src1, src2 } => {
            assert(word_valid(encode_inst_spec(inst, xlen), xlen)) by {
                lemma_e_b_fields(0b1100011, 0b000, src1.0 as u32, src2.0 as u32, offset.low());
            }
        },
        Inst::Bne { offset, src1, src2 } => {
            assert(word_valid(encode_inst_spec(inst, xlen), xlen)) by {
                lemma_e_b_fields(0b1100011, 0b001, src1.0 as u32, src2.0 as u32, offset.low());
            }
        },
        Inst::Blt { offset, src1, src2 } => {
            assert(word_valid(encode_inst_spec(inst, xlen), xlen)) by {
                lemma_e_b_fields(0b1100011, 0b100, src1.0 as u32, src2.0 as u32, offset.low());
            }
        },
        Inst::Bge { offset, src1, src2 } => {
            assert(word_valid(encode_inst_spec(inst, xlen), xlen)) by {
                lemma_e_b_fields(0b1100011, 0b101, src1.0 as u32, src2.0 as u32, offset.low());
            }
        },
        Inst::Bltu { offset, src1, src2 } => {
            assert(word_valid(encode_inst_spec(inst, xlen), xlen)) by {
                lemma_e_b_fields(0b1100011, 0b110, src1.0 as u32, src2.0 as u32, offset.low());
            }
        },
        Inst::Bgeu { offset, src1, src2 } => {
            assert(word_valid(encode_inst_spec(inst, xlen), xlen)) by {
                lemma_e_b_fields(0b1100011, 0b111, src1.0 as u32, src2.0 as u32, offset.low());
            }
        },
        Inst::Lb { offset, dest, base } => {
            assert(word_valid(encode_inst_spec(inst, xlen), xlen)) by {
                lemma_e_i_fields(0b0000011, 0b000, dest.0 as u32, base.0 as u32, offset.low());
            }
        },
        Inst::Lh { offset, dest, base } => {
            assert(word_valid(encode_inst_spec(inst, xlen), xlen)) by {
                lemma_e_i_fields(0b0000011, 0b001, dest.0 as u32, base.0 as u32, offset.low());
            }
        },
        _ => {},
    }
}

/// One slice of the instruction set, for [`lemma_canonical_encoding_decodes`].
#[verifier::rlimit(100)]
proof fn lemma_canonical_encoding_part_2(inst: Inst, xlen: Xlen)
    requires
        inst_wf(inst),
        inst_canonical(inst, xlen),
        xlen == Xlen::Rv32 ==> !requires_rv64(inst),
        !(inst matches Inst::Csrrw { csr, dest, src } && csr.0 == 0xC00 && dest.0 == 0
            && src.0 == 0),
    ensures
        (inst matches Inst::Lw { .. }
        || inst matches Inst::Ld { .. }
        || inst matches Inst::Lbu { .. }
        || inst matches Inst::Lhu { .. }
        || inst matches Inst::Lwu { .. }
        || inst matches Inst::Sb { .. }
        || inst matches Inst::Sh { .. }
        || inst matches Inst::Sw { .. }
        || inst matches Inst::Sd { .. }
        || inst matches Inst::Addi { .. }
        || inst matches Inst::Slti { .. }
        || inst matches Inst::Sltiu { .. }) ==> word_valid(encode_inst_spec(inst, xlen), xlen),
{
    lemma_unimp_word();
    match inst {
        Inst::Lw { offset, dest, base } => {
            assert(word_valid(encode_inst_spec(inst, xlen), xlen)) by {
                lemma_e_i_fields(0b0000011, 0b010, dest.0 as u32, base.0 as u32, offset.low());
            }
        },
        Inst::Ld { offset, dest, base } => {
            assert(word_valid(encode_inst_spec(inst, xlen), xlen)) by {
                lemma_e_i_fields(0b0000011, 0b011, dest.0 as u32, base.0 as u32, offset.low());
            }
        },
        Inst::Lbu { offset, dest, base } => {
            assert(word_valid(encode_inst_spec(inst, xlen), xlen)) by {
                lemma_e_i_fields(0b0000011, 0b100, dest.0 as u32, base.0 as u32, offset.low());
            }
        },
        Inst::Lhu { offset, dest, base } => {
            assert(word_valid(encode_inst_spec(inst, xlen), xlen)) by {
                lemma_e_i_fields(0b0000011, 0b101, dest.0 as u32, base.0 as u32, offset.low());
            }
        },
        Inst::Lwu { offset, dest, base } => {
            assert(word_valid(encode_inst_spec(inst, xlen), xlen)) by {
                lemma_e_i_fields(0b0000011, 0b110, dest.0 as u32, base.0 as u32, offset.low());
            }
        },
        Inst::Sb { offset, src, base } => {
            assert(word_valid(encode_inst_spec(inst, xlen), xlen)) by {
                lemma_e_s_fields(0b0100011, 0b000, base.0 as u32, src.0 as u32, offset.low());
            }
        },
        Inst::Sh { offset, src, base } => {
            assert(word_valid(encode_inst_spec(inst, xlen), xlen)) by {
                lemma_e_s_fields(0b0100011, 0b001, base.0 as u32, src.0 as u32, offset.low());
            }
        },
        Inst::Sw { offset, src, base } => {
            assert(word_valid(encode_inst_spec(inst, xlen), xlen)) by {
                lemma_e_s_fields(0b0100011, 0b010, base.0 as u32, src.0 as u32, offset.low());
            }
        },
        Inst::Sd { offset, src, base } => {
            assert(word_valid(encode_inst_spec(inst, xlen), xlen)) by {
                lemma_e_s_fields(0b0100011, 0b011, base.0 as u32, src.0 as u32, offset.low());
            }
        },
        Inst::Addi { imm, dest, src1 } => {
            assert(word_valid(encode_inst_spec(inst, xlen), xlen)) by {
                lemma_e_i_fields(0b0010011, 0b000, dest.0 as u32, src1.0 as u32, imm.low());
            }
        },
        Inst::Slti { imm, dest, src1 } => {
            assert(word_valid(encode_inst_spec(inst, xlen), xlen)) by {
                lemma_e_i_fields(0b0010011, 0b010, dest.0 as u32, src1.0 as u32, imm.low());
            }
        },
        Inst::Sltiu { imm, dest, src1 } => {
            assert(word_valid(encode_inst_spec(inst, xlen), xlen)) by {
                lemma_e_i_fields(0b0010011, 0b011, dest.0 as u32, src1.0 as u32, imm.low());
            }
        },
        _ => {},
    }
}

/// One slice of the instruction set, for [`lemma_canonical_encoding_decodes`].
#[verifier::rlimit(100)]
proof fn lemma_canonical_encoding_part_3(inst: Inst, xlen: Xlen)
    requires
        inst_wf(inst),
        inst_canonical(inst, xlen),
        xlen == Xlen::Rv32 ==> !requires_rv64(inst),
        !(inst matches Inst::Csrrw { csr, dest, src } && csr.0 == 0xC00 && dest.0 == 0
            && src.0 == 0),
    ensures
        (inst matches Inst::Xori { .. }
        || inst matches Inst::Ori { .. }
        || inst matches Inst::Andi { .. }
        || inst matches Inst::Slli { .. }
        || inst matches Inst::AddiW { .. }
        || inst matches Inst::SlliW { .. }
        || inst matches Inst::SrliW { .. }
        || inst matches Inst::SraiW { .. }
        || inst matches Inst::Srli { .. }
        || inst matches Inst::Srai { .. }
        || inst matches Inst::Add { .. }
        || inst matches Inst::Sub { .. }) ==> word_valid(encode_inst_spec(inst, xlen), xlen),
{
    lemma_unimp_word();
    match inst {
        Inst::Xori { imm, dest, src1 } => {
            assert(word_valid(encode_inst_spec(inst, xlen), xlen)) by {
                lemma_e_i_fields(0b0010011, 0b100, dest.0 as u32, src1.0 as u32, imm.low());
            }
        },
        Inst::Ori { imm, dest, src1 } => {
            assert(word_valid(encode_inst_spec(inst, xlen), xlen)) by {
                lemma_e_i_fields(0b0010011, 0b110, dest.0 as u32, src1.0 as u32, imm.low());
            }
        },
        Inst::Andi { imm, dest, src1 } => {
            assert(word_valid(encode_inst_spec(inst, xlen), xlen)) by {
                lemma_e_i_fields(0b0010011, 0b111, dest.0 as u32, src1.0 as u32, imm.low());
            }
        },
        Inst::Slli { imm, dest, src1 } => {
            assert(word_valid(encode_inst_spec(inst, xlen), xlen)) by {
                lemma_e_i_fields(0b0010011, 0b001, dest.0 as u32, src1.0 as u32, imm.low());
            }
        },
        Inst::AddiW { imm, dest, src1 } => {
            assert(word_valid(encode_inst_spec(inst, xlen), xlen)) by {
                lemma_e_i_fields(0b0011011, 0b000, dest.0 as u32, src1.0 as u32, imm.low());
            }
        },
        Inst::SlliW { imm, dest, src1 } => {
            assert(word_valid(encode_inst_spec(inst, xlen), xlen)) by {
                lemma_e_i_fields(0b0011011, 0b001, dest.0 as u32, src1.0 as u32, imm.low());
            }
        },
        Inst::SrliW { imm, dest, src1 } => {
            assert(word_valid(encode_inst_spec(inst, xlen), xlen)) by {
                lemma_e_r_fields(0b0011011, 0b101, 0b0000000, dest.0 as u32, src1.0 as u32, imm.low());
            }
        },
        Inst::SraiW { imm, dest, src1 } => {
            assert(word_valid(encode_inst_spec(inst, xlen), xlen)) by {
                lemma_e_r_fields(0b0011011, 0b101, 0b0100000, dest.0 as u32, src1.0 as u32, imm.low());
            }
        },
        Inst::Srli { imm, dest, src1 } => {
            assert(word_valid(encode_inst_spec(inst, xlen), xlen)) by {
            match xlen {
                Xlen::Rv32 => lemma_e_r_fields(
                    0b0010011,
                    0b101,
                    0b0000000,
                    dest.0 as u32,
                    src1.0 as u32,
                    imm.low(),
                ),
                Xlen::Rv64 => lemma_e_sh64_fields(
                    0b0010011,
                    0b101,
                    0b000000,
                    dest.0 as u32,
                    src1.0 as u32,
                    imm.low(),
                ),
            }
            }
        },
        Inst::Srai { imm, dest, src1 } => {
            assert(word_valid(encode_inst_spec(inst, xlen), xlen)) by {
            match xlen {
                Xlen::Rv32 => lemma_e_r_fields(
                    0b0010011,
                    0b101,
                    0b0100000,
                    dest.0 as u32,
                    src1.0 as u32,
                    imm.low(),
                ),
                Xlen::Rv64 => lemma_e_sh64_fields(
                    0b0010011,
                    0b101,
                    0b010000,
                    dest.0 as u32,
                    src1.0 as u32,
                    imm.low(),
                ),
            }
            }
        },
        Inst::Add { dest, src1, src2 } => {
            assert(word_valid(encode_inst_spec(inst, xlen), xlen)) by {
                lemma_e_r_fields(0b0110011, 0b000, 0b0000000, dest.0 as u32, src1.0 as u32, src2.0 as u32);
            }
        },
        Inst::Sub { dest, src1, src2 } => {
            assert(word_valid(encode_inst_spec(inst, xlen), xlen)) by {
                lemma_e_r_fields(0b0110011, 0b000, 0b0100000, dest.0 as u32, src1.0 as u32, src2.0 as u32);
            }
        },
        _ => {},
    }
}

/// One slice of the instruction set, for [`lemma_canonical_encoding_decodes`].
#[verifier::rlimit(100)]
proof fn lemma_canonical_encoding_part_4(inst: Inst, xlen: Xlen)
    requires
        inst_wf(inst),
        inst_canonical(inst, xlen),
        xlen == Xlen::Rv32 ==> !requires_rv64(inst),
        !(inst matches Inst::Csrrw { csr, dest, src } && csr.0 == 0xC00 && dest.0 == 0
            && src.0 == 0),
    ensures
        (inst matches Inst::Sll { .. }
        || inst matches Inst::Slt { .. }
        || inst matches Inst::Sltu { .. }
        || inst matches Inst::Xor { .. }
        || inst matches Inst::Srl { .. }
        || inst matches Inst::Sra { .. }
        || inst matches Inst::Or { .. }
        || inst matches Inst::And { .. }
        || inst matches Inst::Mul { .. }
        || inst matches Inst::Mulh { .. }
        || inst matches Inst::Mulhsu { .. }
        || inst matches Inst::Mulhu { .. }) ==> word_valid(encode_inst_spec(inst, xlen), xlen),
{
    lemma_unimp_word();
    match inst {
        Inst::Sll { dest, src1, src2 } => {
            assert(word_valid(encode_inst_spec(inst, xlen), xlen)) by {
                lemma_e_r_fields(0b0110011, 0b001, 0b0000000, dest.0 as u32, src1.0 as u32, src2.0 as u32);
            }
        },
        Inst::Slt { dest, src1, src2 } => {
            assert(word_valid(encode_inst_spec(inst, xlen), xlen)) by {
                lemma_e_r_fields(0b0110011, 0b010, 0b0000000, dest.0 as u32, src1.0 as u32, src2.0 as u32);
            }
        },
        Inst::Sltu { dest, src1, src2 } => {
            assert(word_valid(encode_inst_spec(inst, xlen), xlen)) by {
                lemma_e_r_fields(0b0110011, 0b011, 0b0000000, dest.0 as u32, src1.0 as u32, src2.0 as u32);
            }
        },
        Inst::Xor { dest, src1, src2 } => {
            assert(word_valid(encode_inst_spec(inst, xlen), xlen)) by {
                lemma_e_r_fields(0b0110011, 0b100, 0b0000000, dest.0 as u32, src1.0 as u32, src2.0 as u32);
            }
        },
        Inst::Srl { dest, src1, src2 } => {
            assert(word_valid(encode_inst_spec(inst, xlen), xlen)) by {
                lemma_e_r_fields(0b0110011, 0b101, 0b0000000, dest.0 as u32, src1.0 as u32, src2.0 as u32);
            }
        },
        Inst::Sra { dest, src1, src2 } => {
            assert(word_valid(encode_inst_spec(inst, xlen), xlen)) by {
                lemma_e_r_fields(0b0110011, 0b101, 0b0100000, dest.0 as u32, src1.0 as u32, src2.0 as u32);
            }
        },
        Inst::Or { dest, src1, src2 } => {
            assert(word_valid(encode_inst_spec(inst, xlen), xlen)) by {
                lemma_e_r_fields(0b0110011, 0b110, 0b0000000, dest.0 as u32, src1.0 as u32, src2.0 as u32);
            }
        },
        Inst::And { dest, src1, src2 } => {
            assert(word_valid(encode_inst_spec(inst, xlen), xlen)) by {
                lemma_e_r_fields(0b0110011, 0b111, 0b0000000, dest.0 as u32, src1.0 as u32, src2.0 as u32);
            }
        },
        Inst::Mul { dest, src1, src2 } => {
            assert(word_valid(encode_inst_spec(inst, xlen), xlen)) by {
                lemma_e_r_fields(0b0110011, 0b000, 0b0000001, dest.0 as u32, src1.0 as u32, src2.0 as u32);
            }
        },
        Inst::Mulh { dest, src1, src2 } => {
            assert(word_valid(encode_inst_spec(inst, xlen), xlen)) by {
                lemma_e_r_fields(0b0110011, 0b001, 0b0000001, dest.0 as u32, src1.0 as u32, src2.0 as u32);
            }
        },
        Inst::Mulhsu { dest, src1, src2 } => {
            assert(word_valid(encode_inst_spec(inst, xlen), xlen)) by {
                lemma_e_r_fields(0b0110011, 0b010, 0b0000001, dest.0 as u32, src1.0 as u32, src2.0 as u32);
            }
        },
        Inst::Mulhu { dest, src1, src2 } => {
            assert(word_valid(encode_inst_spec(inst, xlen), xlen)) by {
                lemma_e_r_fields(0b0110011, 0b011, 0b0000001, dest.0 as u32, src1.0 as u32, src2.0 as u32);
            }
        },
        _ => {},
    }
}

/// One slice of the instruction set, for [`lemma_canonical_encoding_decodes`].
#[verifier::rlimit(100)]
proof fn lemma_canonical_encoding_part_5(inst: Inst, xlen: Xlen)
    requires
        inst_wf(inst),
        inst_canonical(inst, xlen),
        xlen == Xlen::Rv32 ==> !requires_rv64(inst),
        !(inst matches Inst::Csrrw { csr, dest, src } && csr.0 == 0xC00 && dest.0 == 0
            && src.0 == 0),
    ensures
        (inst matches Inst::Div { .. }
        || inst matches Inst::Divu { .. }
        || inst matches Inst::Rem { .. }
        || inst matches Inst::Remu { .. }
        || inst matches Inst::AddW { .. }
        || inst matches Inst::SubW { .. }
        || inst matches Inst::SllW { .. }
        || inst matches Inst::SrlW { .. }
        || inst matches Inst::SraW { .. }
        || inst matches Inst::MulW { .. }
        || inst matches Inst::DivW { .. }
        || inst matches Inst::DivuW { .. }) ==> word_valid(encode_inst_spec(inst, xlen), xlen),
{
    lemma_unimp_word();
    match inst {
        Inst::Div { dest, src1, src2 } => {
            assert(word_valid(encode_inst_spec(inst, xlen), xlen)) by {
                lemma_e_r_fields(0b0110011, 0b100, 0b0000001, dest.0 as u32, src1.0 as u32, src2.0 as u32);
            }
        },
        Inst::Divu { dest, src1, src2 } => {
            assert(word_valid(encode_inst_spec(inst, xlen), xlen)) by {
                lemma_e_r_fields(0b0110011, 0b101, 0b0000001, dest.0 as u32, src1.0 as u32, src2.0 as u32);
            }
        },
        Inst::Rem { dest, src1, src2 } => {
            assert(word_valid(encode_inst_spec(inst, xlen), xlen)) by {
                lemma_e_r_fields(0b0110011, 0b110, 0b0000001, dest.0 as u32, src1.0 as u32, src2.0 as u32);
            }
        },
        Inst::Remu { dest, src1, src2 } => {
            assert(word_valid(encode_inst_spec(inst, xlen), xlen)) by {
                lemma_e_r_fields(0b0110011, 0b111, 0b0000001, dest.0 as u32, src1.0 as u32, src2.0 as u32);
            }
        },
        Inst::AddW { dest, src1, src2 } => {
            assert(word_valid(encode_inst_spec(inst, xlen), xlen)) by {
                lemma_e_r_fields(0b0111011, 0b000, 0b0000000, dest.0 as u32, src1.0 as u32, src2.0 as u32);
            }
        },
        Inst::SubW { dest, src1, src2 } => {
            assert(word_valid(encode_inst_spec(inst, xlen), xlen)) by {
                lemma_e_r_fields(0b0111011, 0b000, 0b0100000, dest.0 as u32, src1.0 as u32, src2.0 as u32);
            }
        },
        Inst::SllW { dest, src1, src2 } => {
            assert(word_valid(encode_inst_spec(inst, xlen), xlen)) by {
                lemma_e_r_fields(0b0111011, 0b001, 0b0000000, dest.0 as u32, src1.0 as u32, src2.0 as u32);
            }
        },
        Inst::SrlW { dest, src1, src2 } => {
            assert(word_valid(encode_inst_spec(inst, xlen), xlen)) by {
                lemma_e_r_fields(0b0111011, 0b101, 0b0000000, dest.0 as u32, src1.0 as u32, src2.0 as u32);
            }
        },
        Inst::SraW { dest, src1, src2 } => {
            assert(word_valid(encode_inst_spec(inst, xlen), xlen)) by {
                lemma_e_r_fields(0b0111011, 0b101, 0b0100000, dest.0 as u32, src1.0 as u32, src2.0 as u32);
            }
        },
        Inst::MulW { dest, src1, src2 } => {
            assert(word_valid(encode_inst_spec(inst, xlen), xlen)) by {
                lemma_e_r_fields(0b0111011, 0b000, 0b0000001, dest.0 as u32, src1.0 as u32, src2.0 as u32);
            }
        },
        Inst::DivW { dest, src1, src2 } => {
            assert(word_valid(encode_inst_spec(inst, xlen), xlen)) by {
                lemma_e_r_fields(0b0111011, 0b100, 0b0000001, dest.0 as u32, src1.0 as u32, src2.0 as u32);
            }
        },
        Inst::DivuW { dest, src1, src2 } => {
            assert(word_valid(encode_inst_spec(inst, xlen), xlen)) by {
                lemma_e_r_fields(0b0111011, 0b101, 0b0000001, dest.0 as u32, src1.0 as u32, src2.0 as u32);
            }
        },
        _ => {},
    }
}

/// One slice of the instruction set, for [`lemma_canonical_encoding_decodes`].
#[verifier::rlimit(100)]
proof fn lemma_canonical_encoding_part_6(inst: Inst, xlen: Xlen)
    requires
        inst_wf(inst),
        inst_canonical(inst, xlen),
        xlen == Xlen::Rv32 ==> !requires_rv64(inst),
        !(inst matches Inst::Csrrw { csr, dest, src } && csr.0 == 0xC00 && dest.0 == 0
            && src.0 == 0),
    ensures
        (inst matches Inst::RemW { .. }
        || inst matches Inst::RemuW { .. }
        || inst matches Inst::Fence { .. }
        || inst matches Inst::Ecall
        || inst matches Inst::Ebreak
        || inst matches Inst::LrW { .. }
        || inst matches Inst::ScW { .. }
        || inst matches Inst::AmoW { .. }
        || inst matches Inst::Csrrw { .. }
        || inst matches Inst::Csrrs { .. }
        || inst matches Inst::Csrrc { .. }
        || inst matches Inst::Csrrwi { .. }) ==> word_valid(encode_inst_spec(inst, xlen), xlen),
{
    lemma_unimp_word();
    match inst {
        Inst::RemW { dest, src1, src2 } => {
            assert(word_valid(encode_inst_spec(inst, xlen), xlen)) by {
                lemma_e_r_fields(0b0111011, 0b110, 0b0000001, dest.0 as u32, src1.0 as u32, src2.0 as u32);
            }
        },
        Inst::RemuW { dest, src1, src2 } => {
            assert(word_valid(encode_inst_spec(inst, xlen), xlen)) by {
                lemma_e_r_fields(0b0111011, 0b111, 0b0000001, dest.0 as u32, src1.0 as u32, src2.0 as u32);
            }
        },
        Inst::Fence { fence } => {
            assert(word_valid(encode_inst_spec(inst, xlen), xlen)) by {
            lemma_e_fence_fields(
                0b0001111,
                0b000,
                fence.fm as u32,
                fence.pred.device_input,
                fence.pred.device_output,
                fence.pred.memory_read,
                fence.pred.memory_write,
                fence.succ.device_input,
                fence.succ.device_output,
                fence.succ.memory_read,
                fence.succ.memory_write,
                fence.dest.0 as u32,
                fence.src.0 as u32,
            );
            }
        },
        Inst::Ecall => {
            assert(word_valid(encode_inst_spec(inst, xlen), xlen)) by {
                lemma_e_i_fields(0b1110011, 0b000, 0, 0, 0);
            }
        },
        Inst::Ebreak => {
            assert(word_valid(encode_inst_spec(inst, xlen), xlen)) by {
                lemma_e_i_fields(0b1110011, 0b000, 0, 0, 1);
            }
        },
        Inst::LrW { order, dest, addr } => {
            assert(word_valid(encode_inst_spec(inst, xlen), xlen)) by {
                lemma_e_amo_fields(0b0101111, 0b010, 0b00010, order.aq(), order.rl(), dest.0 as u32, addr.0 as u32, 0);
            }
        },
        Inst::ScW { order, dest, addr, src } => {
            assert(word_valid(encode_inst_spec(inst, xlen), xlen)) by {
                lemma_e_amo_fields(0b0101111, 0b010, 0b00011, order.aq(), order.rl(), dest.0 as u32, addr.0 as u32, src.0 as u32);
            }
        },
        Inst::AmoW { order, op, dest, addr, src } => {
            assert(word_valid(encode_inst_spec(inst, xlen), xlen)) by {
                lemma_e_amo_fields(0b0101111, 0b010, op.code(), order.aq(), order.rl(), dest.0 as u32, addr.0 as u32, src.0 as u32);
            }
        },
        Inst::Csrrw { csr, dest, src } => {
            assert(word_valid(encode_inst_spec(inst, xlen), xlen)) by {
                lemma_e_i_fields(0b1110011, 0b001, dest.0 as u32, src.0 as u32, csr.0 as u32);
            }
        },
        Inst::Csrrs { csr, dest, src } => {
            assert(word_valid(encode_inst_spec(inst, xlen), xlen)) by {
                lemma_e_i_fields(0b1110011, 0b010, dest.0 as u32, src.0 as u32, csr.0 as u32);
            }
        },
        Inst::Csrrc { csr, dest, src } => {
            assert(word_valid(encode_inst_spec(inst, xlen), xlen)) by {
                lemma_e_i_fields(0b1110011, 0b011, dest.0 as u32, src.0 as u32, csr.0 as u32);
            }
        },
        Inst::Csrrwi { csr, dest, uimm } => {
            assert(word_valid(encode_inst_spec(inst, xlen), xlen)) by {
                lemma_e_i_fields(0b1110011, 0b101, dest.0 as u32, uimm.low(), csr.0 as u32);
            }
        },
        _ => {},
    }
}

/// One slice of the instruction set, for [`lemma_canonical_encoding_decodes`].
#[verifier::rlimit(100)]
proof fn lemma_canonical_encoding_part_7(inst: Inst, xlen: Xlen)
    requires
        inst_wf(inst),
        inst_canonical(inst, xlen),
        xlen == Xlen::Rv32 ==> !requires_rv64(inst),
        !(inst matches Inst::Csrrw { csr, dest, src } && csr.0 == 0xC00 && dest.0 == 0
            && src.0 == 0),
    ensures
        (inst matches Inst::Csrrsi { .. }
        || inst matches Inst::Csrrci { .. }
        || inst matches Inst::Flw { .. }
        || inst matches Inst::Fld { .. }
        || inst matches Inst::Fsw { .. }
        || inst matches Inst::Fsd { .. }
        || inst matches Inst::FmaddS { .. }
        || inst matches Inst::FmsubS { .. }
        || inst matches Inst::FnmsubS { .. }
        || inst matches Inst::FnmaddS { .. }
        || inst matches Inst::FmaddD { .. }
        || inst matches Inst::FmsubD { .. }) ==> word_valid(encode_inst_spec(inst, xlen), xlen),
{
    lemma_unimp_word();
    match inst {
        Inst::Csrrsi { csr, dest, uimm } => {
            assert(word_valid(encode_inst_spec(inst, xlen), xlen)) by {
                lemma_e_i_fields(0b1110011, 0b110, dest.0 as u32, uimm.low(), csr.0 as u32);
            }
        },
        Inst::Csrrci { csr, dest, uimm } => {
            assert(word_valid(encode_inst_spec(inst, xlen), xlen)) by {
                lemma_e_i_fields(0b1110011, 0b111, dest.0 as u32, uimm.low(), csr.0 as u32);
            }
        },
        Inst::Flw { offset, dest, base } => {
            assert(word_valid(encode_inst_spec(inst, xlen), xlen)) by {
                lemma_e_i_fields(0b0000111, 0b010, dest.0 as u32, base.0 as u32, offset.low());
            }
        },
        Inst::Fld { offset, dest, base } => {
            assert(word_valid(encode_inst_spec(inst, xlen), xlen)) by {
                lemma_e_i_fields(0b0000111, 0b011, dest.0 as u32, base.0 as u32, offset.low());
            }
        },
        Inst::Fsw { offset, src, base } => {
            assert(word_valid(encode_inst_spec(inst, xlen), xlen)) by {
                lemma_e_s_fields(0b0100111, 0b010, base.0 as u32, src.0 as u32, offset.low());
            }
        },
        Inst::Fsd { offset, src, base } => {
            assert(word_valid(encode_inst_spec(inst, xlen), xlen)) by {
                lemma_e_s_fields(0b0100111, 0b011, base.0 as u32, src.0 as u32, offset.low());
            }
        },
        Inst::FmaddS { rm, dest, src1, src2, src3 } => {
            assert(word_valid(encode_inst_spec(inst, xlen), xlen)) by {
                lemma_e_r4_fields(0b1000011, rm.code(), 0b00, dest.0 as u32, src1.0 as u32, src2.0 as u32, src3.0 as u32);
            }
        },
        Inst::FmsubS { rm, dest, src1, src2, src3 } => {
            assert(word_valid(encode_inst_spec(inst, xlen), xlen)) by {
                lemma_e_r4_fields(0b1000111, rm.code(), 0b00, dest.0 as u32, src1.0 as u32, src2.0 as u32, src3.0 as u32);
            }
        },
        Inst::FnmsubS { rm, dest, src1, src2, src3 } => {
            assert(word_valid(encode_inst_spec(inst, xlen), xlen)) by {
                lemma_e_r4_fields(0b1001011, rm.code(), 0b00, dest.0 as u32, src1.0 as u32, src2.0 as u32, src3.0 as u32);
            }
        },
        Inst::FnmaddS { rm, dest, src1, src2, src3 } => {
            assert(word_valid(encode_inst_spec(inst, xlen), xlen)) by {
                lemma_e_r4_fields(0b1001111, rm.code(), 0b00, dest.0 as u32, src1.0 as u32, src2.0 as u32, src3.0 as u32);
            }
        },
        Inst::FmaddD { rm, dest, src1, src2, src3 } => {
            assert(word_valid(encode_inst_spec(inst, xlen), xlen)) by {
                lemma_e_r4_fields(0b1000011, rm.code(), 0b01, dest.0 as u32, src1.0 as u32, src2.0 as u32, src3.0 as u32);
            }
        },
        Inst::FmsubD { rm, dest, src1, src2, src3 } => {
            assert(word_valid(encode_inst_spec(inst, xlen), xlen)) by {
                lemma_e_r4_fields(0b1000111, rm.code(), 0b01, dest.0 as u32, src1.0 as u32, src2.0 as u32, src3.0 as u32);
            }
        },
        _ => {},
    }
}

/// One slice of the instruction set, for [`lemma_canonical_encoding_decodes`].
#[verifier::rlimit(100)]
proof fn lemma_canonical_encoding_part_8(inst: Inst, xlen: Xlen)
    requires
        inst_wf(inst),
        inst_canonical(inst, xlen),
        xlen == Xlen::Rv32 ==> !requires_rv64(inst),
        !(inst matches Inst::Csrrw { csr, dest, src } && csr.0 == 0xC00 && dest.0 == 0
            && src.0 == 0),
    ensures
        (inst matches Inst::FnmsubD { .. }
        || inst matches Inst::FnmaddD { .. }
        || inst matches Inst::FaddS { .. }
        || inst matches Inst::FsubS { .. }
        || inst matches Inst::FmulS { .. }
        || inst matches Inst::FdivS { .. }
        || inst matches Inst::FsqrtS { .. }
        || inst matches Inst::FsgnjS { .. }
        || inst matches Inst::FsgnjnS { .. }
        || inst matches Inst::FsgnjxS { .. }
        || inst matches Inst::FminS { .. }
        || inst matches Inst::FmaxS { .. }) ==> word_valid(encode_inst_spec(inst, xlen), xlen),
{
    lemma_unimp_word();
    match inst {
        Inst::FnmsubD { rm, dest, src1, src2, src3 } => {
            assert(word_valid(encode_inst_spec(inst, xlen), xlen)) by {
                lemma_e_r4_fields(0b1001011, rm.code(), 0b01, dest.0 as u32, src1.0 as u32, src2.0 as u32, src3.0 as u32);
            }
        },
        Inst::FnmaddD { rm, dest, src1, src2, src3 } => {
            assert(word_valid(encode_inst_spec(inst, xlen), xlen)) by {
                lemma_e_r4_fields(0b1001111, rm.code(), 0b01, dest.0 as u32, src1.0 as u32, src2.0 as u32, src3.0 as u32);
            }
        },
        Inst::FaddS { rm, dest, src1, src2 } => {
            assert(word_valid(encode_inst_spec(inst, xlen), xlen)) by {
                lemma_e_r_fields(0b1010011, rm.code(), 0b0000000, dest.0 as u32, src1.0 as u32, src2.0 as u32);
            }
        },
        Inst::FsubS { rm, dest, src1, src2 } => {
            assert(word_valid(encode_inst_spec(inst, xlen), xlen)) by {
                lemma_e_r_fields(0b1010011, rm.code(), 0b0000100, dest.0 as u32, src1.0 as u32, src2.0 as u32);
            }
        },
        Inst::FmulS { rm, dest, src1, src2 } => {
            assert(word_valid(encode_inst_spec(inst, xlen), xlen)) by {
                lemma_e_r_fields(0b1010011, rm.code(), 0b0001000, dest.0 as u32, src1.0 as u32, src2.0 as u32);
            }
        },
        Inst::FdivS { rm, dest, src1, src2 } => {
            assert(word_valid(encode_inst_spec(inst, xlen), xlen)) by {
                lemma_e_r_fields(0b1010011, rm.code(), 0b0001100, dest.0 as u32, src1.0 as u32, src2.0 as u32);
            }
        },
        Inst::FsqrtS { rm, dest, src } => {
            assert(word_valid(encode_inst_spec(inst, xlen), xlen)) by {
                lemma_e_r_fields(0b1010011, rm.code(), 0b0101100, dest.0 as u32, src.0 as u32, 0);
            }
        },
        Inst::FsgnjS { dest, src1, src2 } => {
            assert(word_valid(encode_inst_spec(inst, xlen), xlen)) by {
                lemma_e_r_fields(0b1010011, 0b000, 0b0010000, dest.0 as u32, src1.0 as u32, src2.0 as u32);
            }
        },
        Inst::FsgnjnS { dest, src1, src2 } => {
            assert(word_valid(encode_inst_spec(inst, xlen), xlen)) by {
                lemma_e_r_fields(0b1010011, 0b001, 0b0010000, dest.0 as u32, src1.0 as u32, src2.0 as u32);
            }
        },
        Inst::FsgnjxS { dest, src1, src2 } => {
            assert(word_valid(encode_inst_spec(inst, xlen), xlen)) by {
                lemma_e_r_fields(0b1010011, 0b010, 0b0010000, dest.0 as u32, src1.0 as u32, src2.0 as u32);
            }
        },
        Inst::FminS { dest, src1, src2 } => {
            assert(word_valid(encode_inst_spec(inst, xlen), xlen)) by {
                lemma_e_r_fields(0b1010011, 0b000, 0b0010100, dest.0 as u32, src1.0 as u32, src2.0 as u32);
            }
        },
        Inst::FmaxS { dest, src1, src2 } => {
            assert(word_valid(encode_inst_spec(inst, xlen), xlen)) by {
                lemma_e_r_fields(0b1010011, 0b001, 0b0010100, dest.0 as u32, src1.0 as u32, src2.0 as u32);
            }
        },
        _ => {},
    }
}

/// One slice of the instruction set, for [`lemma_canonical_encoding_decodes`].
#[verifier::rlimit(100)]
proof fn lemma_canonical_encoding_part_9(inst: Inst, xlen: Xlen)
    requires
        inst_wf(inst),
        inst_canonical(inst, xlen),
        xlen == Xlen::Rv32 ==> !requires_rv64(inst),
        !(inst matches Inst::Csrrw { csr, dest, src } && csr.0 == 0xC00 && dest.0 == 0
            && src.0 == 0),
    ensures
        (inst matches Inst::FcvtWS { .. }
        || inst matches Inst::FcvtWuS { .. }
        || inst matches Inst::FmvXW { .. }
        || inst matches Inst::FeqS { .. }
        || inst matches Inst::FltS { .. }
        || inst matches Inst::FleS { .. }
        || inst matches Inst::FclassS { .. }
        || inst matches Inst::FcvtSW { .. }
        || inst matches Inst::FcvtSWu { .. }
        || inst matches Inst::FmvWX { .. }
        || inst matches Inst::FcvtSD { .. }
        || inst matches Inst::FcvtDS { .. }) ==> word_valid(encode_inst_spec(inst, xlen), xlen),
{
    lemma_unimp_word();
    match inst {
        Inst::FcvtWS { rm, dest, src } => {
            assert(word_valid(encode_inst_spec(inst, xlen), xlen)) by {
                lemma_e_r_fields(0b1010011, rm.code(), 0b1100000, dest.0 as u32, src.0 as u32, 0);
            }
        },
        Inst::FcvtWuS { rm, dest, src } => {
            assert(word_valid(encode_inst_spec(inst, xlen), xlen)) by {
                lemma_e_r_fields(0b1010011, rm.code(), 0b1100000, dest.0 as u32, src.0 as u32, 1);
            }
        },
        Inst::FmvXW { dest, src } => {
            assert(word_valid(encode_inst_spec(inst, xlen), xlen)) by {
                lemma_e_r_fields(0b1010011, 0b000, 0b1110000, dest.0 as u32, src.0 as u32, 0);
            }
        },
        Inst::FeqS { dest, src1, src2 } => {
            assert(word_valid(encode_inst_spec(inst, xlen), xlen)) by {
                lemma_e_r_fields(0b1010011, 0b010, 0b1010000, dest.0 as u32, src1.0 as u32, src2.0 as u32);
            }
        },
        Inst::FltS { dest, src1, src2 } => {
            assert(word_valid(encode_inst_spec(inst, xlen), xlen)) by {
                lemma_e_r_fields(0b1010011, 0b001, 0b1010000, dest.0 as u32, src1.0 as u32, src2.0 as u32);
            }
        },
        Inst::FleS { dest, src1, src2 } => {
            assert(word_valid(encode_inst_spec(inst, xlen), xlen)) by {
                lemma_e_r_fields(0b1010011, 0b000, 0b1010000, dest.0 as u32, src1.0 as u32, src2.0 as u32);
            }
        },
        Inst::FclassS { dest, src } => {
            assert(word_valid(encode_inst_spec(inst, xlen), xlen)) by {
                lemma_e_r_fields(0b1010011, 0b001, 0b1110000, dest.0 as u32, src.0 as u32, 0);
            }
        },
        Inst::FcvtSW { rm, dest, src } => {
            assert(word_valid(encode_inst_spec(inst, xlen), xlen)) by {
                lemma_e_r_fields(0b1010011, rm.code(), 0b1101000, dest.0 as u32, src.0 as u32, 0);
            }
        },
        Inst::FcvtSWu { rm, dest, src } => {
            assert(word_valid(encode_inst_spec(inst, xlen), xlen)) by {
                lemma_e_r_fields(0b1010011, rm.code(), 0b1101000, dest.0 as u32, src.0 as u32, 1);
            }
        },
        Inst::FmvWX { dest, src } => {
            assert(word_valid(encode_inst_spec(inst, xlen), xlen)) by {
                lemma_e_r_fields(0b1010011, 0b000, 0b1111000, dest.0 as u32, src.0 as u32, 0);
            }
        },
        Inst::FcvtSD { rm, dest, src } => {
            assert(word_valid(encode_inst_spec(inst, xlen), xlen)) by {
                lemma_e_r_fields(0b1010011, rm.code(), 0b0100000, dest.0 as u32, src.0 as u32, 1);
            }
        },
        Inst::FcvtDS { rm, dest, src } => {
            assert(word_valid(encode_inst_spec(inst, xlen), xlen)) by {
                lemma_e_r_fields(0b1010011, rm.code(), 0b0100001, dest.0 as u32, src.0 as u32, 0);
            }
        },
        _ => {},
    }
}

/// One slice of the instruction set, for [`lemma_canonical_encoding_decodes`].
#[verifier::rlimit(100)]
proof fn lemma_canonical_encoding_part_10(inst: Inst, xlen: Xlen)
    requires
        inst_wf(inst),
        inst_canonical(inst, xlen),
        xlen == Xlen::Rv32 ==> !requires_rv64(inst),
        !(inst matches Inst::Csrrw { csr, dest, src } && csr.0 == 0xC00 && dest.0 == 0
            && src.0 == 0),
    ensures
        (inst matches Inst::FaddD { .. }
        || inst matches Inst::FsubD { .. }
        || inst matches Inst::FmulD { .. }
        || inst matches Inst::FdivD { .. }
        || inst matches Inst::FsqrtD { .. }
        || inst matches Inst::FsgnjD { .. }
        || inst matches Inst::FsgnjnD { .. }
        || inst matches Inst::FsgnjxD { .. }
        || inst matches Inst::FminD { .. }
        || inst matches Inst::FmaxD { .. }
        || inst matches Inst::FeqD { .. }
        || inst matches Inst::FltD { .. }) ==> word_valid(encode_inst_spec(inst, xlen), xlen),
{
    lemma_unimp_word();
    match inst {
        Inst::FaddD { rm, dest, src1, src2 } => {
            assert(word_valid(encode_inst_spec(inst, xlen), xlen)) by {
                lemma_e_r_fields(0b1010011, rm.code(), 0b0000001, dest.0 as u32, src1.0 as u32, src2.0 as u32);
            }
        },
        Inst::FsubD { rm, dest, src1, src2 } => {
            assert(word_valid(encode_inst_spec(inst, xlen), xlen)) by {
                lemma_e_r_fields(0b1010011, rm.code(), 0b0000101, dest.0 as u32, src1.0 as u32, src2.0 as u32);
            }
        },
        Inst::FmulD { rm, dest, src1, src2 } => {
            assert(word_valid(encode_inst_spec(inst, xlen), xlen)) by {
                lemma_e_r_fields(0b1010011, rm.code(), 0b0001001, dest.0 as u32, src1.0 as u32, src2.0 as u32);
            }
        },
        Inst::FdivD { rm, dest, src1, src2 } => {
            assert(word_valid(encode_inst_spec(inst, xlen), xlen)) by {
                lemma_e_r_fields(0b1010011, rm.code(), 0b0001101, dest.0 as u32, src1.0 as u32, src2.0 as u32);
            }
        },
        Inst::FsqrtD { rm, dest, src } => {
            assert(word_valid(encode_inst_spec(inst, xlen), xlen)) by {
                lemma_e_r_fields(0b1010011, rm.code(), 0b0101101, dest.0 as u32, src.0 as u32, 0);
            }
        },
        Inst::FsgnjD { dest, src1, src2 } => {
            assert(word_valid(encode_inst_spec(inst, xlen), xlen)) by {
                lemma_e_r_fields(0b1010011, 0b000, 0b0010001, dest.0 as u32, src1.0 as u32, src2.0 as u32);
            }
        },
        Inst::FsgnjnD { dest, src1, src2 } => {
            assert(word_valid(encode_inst_spec(inst, xlen), xlen)) by {
                lemma_e_r_fields(0b1010011, 0b001, 0b0010001, dest.0 as u32, src1.0 as u32, src2.0 as u32);
            }
        },
        Inst::FsgnjxD { dest, src1, src2 } => {
            assert(word_valid(encode_inst_spec(inst, xlen), xlen)) by {
                lemma_e_r_fields(0b1010011, 0b010, 0b0010001, dest.0 as u32, src1.0 as u32, src2.0 as u32);
            }
        },
        Inst::FminD { dest, src1, src2 } => {
            assert(word_valid(encode_inst_spec(inst, xlen), xlen)) by {
                lemma_e_r_fields(0b1010011, 0b000, 0b0010101, dest.0 as u32, src1.0 as u32, src2.0 as u32);
            }
        },
        Inst::FmaxD { dest, src1, src2 } => {
            assert(word_valid(encode_inst_spec(inst, xlen), xlen)) by {
                lemma_e_r_fields(0b1010011, 0b001, 0b0010101, dest.0 as u32, src1.0 as u32, src2.0 as u32);
            }
        },
        Inst::FeqD { dest, src1, src2 } => {
            assert(word_valid(encode_inst_spec(inst, xlen), xlen)) by {
                lemma_e_r_fields(0b1010011, 0b010, 0b1010001, dest.0 as u32, src1.0 as u32, src2.0 as u32);
            }
        },
        Inst::FltD { dest, src1, src2 } => {
            assert(word_valid(encode_inst_spec(inst, xlen), xlen)) by {
                lemma_e_r_fields(0b1010011, 0b001, 0b1010001, dest.0 as u32, src1.0 as u32, src2.0 as u32);
            }
        },
        _ => {},
    }
}

/// One slice of the instruction set, for [`lemma_canonical_encoding_decodes`].
#[verifier::rlimit(100)]
proof fn lemma_canonical_encoding_part_11(inst: Inst, xlen: Xlen)
    requires
        inst_wf(inst),
        inst_canonical(inst, xlen),
        xlen == Xlen::Rv32 ==> !requires_rv64(inst),
        !(inst matches Inst::Csrrw { csr, dest, src } && csr.0 == 0xC00 && dest.0 == 0
            && src.0 == 0),
    ensures
        (inst matches Inst::FleD { .. }
        || inst matches Inst::FclassD { .. }
        || inst matches Inst::FmvXD { .. }
        || inst matches Inst::FcvtWD { .. }
        || inst matches Inst::FcvtWuD { .. }
        || inst matches Inst::FcvtLS { .. }
        || inst matches Inst::FcvtLuS { .. }
        || inst matches Inst::FcvtLD { .. }
        || inst matches Inst::FcvtLuD { .. }
        || inst matches Inst::FcvtDW { .. }
        || inst matches Inst::FcvtDWu { .. }
        || inst matches Inst::FcvtSL { .. }) ==> word_valid(encode_inst_spec(inst, xlen), xlen),
{
    lemma_unimp_word();
    match inst {
        Inst::FleD { dest, src1, src2 } => {
            assert(word_valid(encode_inst_spec(inst, xlen), xlen)) by {
                lemma_e_r_fields(0b1010011, 0b000, 0b1010001, dest.0 as u32, src1.0 as u32, src2.0 as u32);
            }
        },
        Inst::FclassD { dest, src } => {
            assert(word_valid(encode_inst_spec(inst, xlen), xlen)) by {
                lemma_e_r_fields(0b1010011, 0b001, 0b1110001, dest.0 as u32, src.0 as u32, 0);
            }
        },
        Inst::FmvXD { dest, src } => {
            assert(word_valid(encode_inst_spec(inst, xlen), xlen)) by {
                lemma_e_r_fields(0b1010011, 0b000, 0b1110001, dest.0 as u32, src.0 as u32, 0);
            }
        },
        Inst::FcvtWD { rm, dest, src } => {
            assert(word_valid(encode_inst_spec(inst, xlen), xlen)) by {
                lemma_e_r_fields(0b1010011, rm.code(), 0b1100001, dest.0 as u32, src.0 as u32, 0);
            }
        },
        Inst::FcvtWuD { rm, dest, src } => {
            assert(word_valid(encode_inst_spec(inst, xlen), xlen)) by {
                lemma_e_r_fields(0b1010011, rm.code(), 0b1100001, dest.0 as u32, src.0 as u32, 1);
            }
        },
        Inst::FcvtLS { rm, dest, src } => {
            assert(word_valid(encode_inst_spec(inst, xlen), xlen)) by {
                lemma_e_r_fields(0b1010011, rm.code(), 0b1100000, dest.0 as u32, src.0 as u32, 2);
            }
        },
        Inst::FcvtLuS { rm, dest, src } => {
            assert(word_valid(encode_inst_spec(inst, xlen), xlen)) by {
                lemma_e_r_fields(0b1010011, rm.code(), 0b1100000, dest.0 as u32, src.0 as u32, 3);
            }
        },
        Inst::FcvtLD { rm, dest, src } => {
            assert(word_valid(encode_inst_spec(inst, xlen), xlen)) by {
                lemma_e_r_fields(0b1010011, rm.code(), 0b1100001, dest.0 as u32, src.0 as u32, 2);
            }
        },
        Inst::FcvtLuD { rm, dest, src } => {
            assert(word_valid(encode_inst_spec(inst, xlen), xlen)) by {
                lemma_e_r_fields(0b1010011, rm.code(), 0b1100001, dest.0 as u32, src.0 as u32, 3);
            }
        },
        Inst::FcvtDW { rm, dest, src } => {
            assert(word_valid(encode_inst_spec(inst, xlen), xlen)) by {
                lemma_e_r_fields(0b1010011, rm.code(), 0b1101001, dest.0 as u32, src.0 as u32, 0);
            }
        },
        Inst::FcvtDWu { rm, dest, src } => {
            assert(word_valid(encode_inst_spec(inst, xlen), xlen)) by {
                lemma_e_r_fields(0b1010011, rm.code(), 0b1101001, dest.0 as u32, src.0 as u32, 1);
            }
        },
        Inst::FcvtSL { rm, dest, src } => {
            assert(word_valid(encode_inst_spec(inst, xlen), xlen)) by {
                lemma_e_r_fields(0b1010011, rm.code(), 0b1101000, dest.0 as u32, src.0 as u32, 2);
            }
        },
        _ => {},
    }
}

/// One slice of the instruction set, for [`lemma_canonical_encoding_decodes`].
#[verifier::rlimit(100)]
proof fn lemma_canonical_encoding_part_12(inst: Inst, xlen: Xlen)
    requires
        inst_wf(inst),
        inst_canonical(inst, xlen),
        xlen == Xlen::Rv32 ==> !requires_rv64(inst),
        !(inst matches Inst::Csrrw { csr, dest, src } && csr.0 == 0xC00 && dest.0 == 0
            && src.0 == 0),
    ensures
        (inst matches Inst::FcvtSLu { .. }
        || inst matches Inst::FcvtDL { .. }
        || inst matches Inst::FcvtDLu { .. }
        || inst matches Inst::FmvDX { .. }) ==> word_valid(encode_inst_spec(inst, xlen), xlen),
{
    lemma_unimp_word();
    match inst {
        Inst::FcvtSLu { rm, dest, src } => {
            assert(word_valid(encode_inst_spec(inst, xlen), xlen)) by {
                lemma_e_r_fields(0b1010011, rm.code(), 0b1101000, dest.0 as u32, src.0 as u32, 3);
            }
        },
        Inst::FcvtDL { rm, dest, src } => {
            assert(word_valid(encode_inst_spec(inst, xlen), xlen)) by {
                lemma_e_r_fields(0b1010011, rm.code(), 0b1101001, dest.0 as u32, src.0 as u32, 2);
            }
        },
        Inst::FcvtDLu { rm, dest, src } => {
            assert(word_valid(encode_inst_spec(inst, xlen), xlen)) by {
                lemma_e_r_fields(0b1010011, rm.code(), 0b1101001, dest.0 as u32, src.0 as u32, 3);
            }
        },
        Inst::FmvDX { dest, src } => {
            assert(word_valid(encode_inst_spec(inst, xlen), xlen)) by {
                lemma_e_r_fields(0b1010011, 0b000, 0b1111001, dest.0 as u32, src.0 as u32, 0);
            }
        },
        _ => {},
    }
}

/// Every well-formed, canonical instruction that exists at the selected
/// register width has a decodable encoding: its canonical word satisfies
/// [`word_valid`], so [`Inst::decode_normal`] accepts it, and by the
/// decoder's own contract the accepted value re-encodes to that same word.
///
/// The one exception is the CSR swap of the cycle counter with both
/// register operands x0: its encoding is the reserved `unimp` word, which
/// the decoder refuses.
pub proof fn lemma_canonical_encoding_decodes(inst: Inst, xlen: Xlen)
    requires
        inst_wf(inst),
        inst_canonical(inst, xlen),
        xlen == Xlen::Rv32 ==> !requires_rv64(inst),
        !(inst matches Inst::Csrrw { csr, dest, src } && csr.0 == 0xC00 && dest.0 == 0
            && src.0 == 0),
    ensures
        word_valid(encode_inst_spec(inst, xlen), xlen),
{
    lemma_canonical_encoding_part_1(inst, xlen);
    lemma_canonical_encoding_part_2(inst, xlen);
    lemma_canonical_encoding_part_3(inst, xlen);
    lemma_canonical_encoding_part_4(inst, xlen);
    lemma_canonical_encoding_part_5(inst, xlen);
    lemma_canonical_encoding_part_6(inst, xlen);
    lemma_canonical_encoding_part_7(inst, xlen);
    lemma_canonical_encoding_part_8(inst, xlen);
    lemma_canonical_encoding_part_9(inst, xlen);
    lemma_canonical_encoding_part_10(inst, xlen);
    lemma_canonical_encoding_part_11(inst, xlen);
    lemma_canonical_encoding_part_12(inst, xlen);
}

} // verus!
