use vstd::prelude::*;

use crate::bits::e_amo;
use crate::bits::e_b;
use crate::bits::e_fence;
use crate::bits::e_i;
use crate::bits::e_j;
use crate::bits::e_r;
use crate::bits::e_r4;
use crate::bits::e_s;
use crate::bits::e_sh64;
use crate::bits::e_u;
use crate::inst::AmoOp;
use crate::inst::Inst;
use crate::xlen::Xlen;

verus! {

/// The canonical 32-bit encoding of an instruction value, for the given
/// register width. This is the reference the encoder is held to, and the
/// decoder's contract states that every decoded instruction re-encodes to
/// the exact word it came from.
///
/// The width only matters for `srli`/`srai`, whose shift amount is five bits
/// wide on RV32 and six bits wide on RV64.
pub open spec fn encode_inst_spec(inst: Inst, xlen: Xlen) -> u32 {
    match inst {
        Inst::Lui { uimm, dest } => e_u(0b0110111, dest.0 as u32, uimm.low()),
        Inst::Auipc { uimm, dest } => e_u(0b0010111, dest.0 as u32, uimm.low()),
        Inst::Jal { offset, dest } => e_j(0b1101111, dest.0 as u32, offset.low()),
        Inst::Jalr { offset, base, dest } => e_i(0b1100111, 0b000, dest.0 as u32, base.0 as u32, offset.low()),
        Inst::Beq { offset, src1, src2 } => e_b(0b1100011, 0b000, src1.0 as u32, src2.0 as u32, offset.low()),
        Inst::Bne { offset, src1, src2 } => e_b(0b1100011, 0b001, src1.0 as u32, src2.0 as u32, offset.low()),
        Inst::Blt { offset, src1, src2 } => e_b(0b1100011, 0b100, src1.0 as u32, src2.0 as u32, offset.low()),
        Inst::Bge { offset, src1, src2 } => e_b(0b1100011, 0b101, src1.0 as u32, src2.0 as u32, offset.low()),
        Inst::Bltu { offset, src1, src2 } => e_b(0b1100011, 0b110, src1.0 as u32, src2.0 as u32, offset.low()),
        Inst::Bgeu { offset, src1, src2 } => e_b(0b1100011, 0b111, src1.0 as u32, src2.0 as u32, offset.low()),
        Inst::Lb { offset, dest, base } => e_i(0b0000011, 0b000, dest.0 as u32, base.0 as u32, offset.low()),
        Inst::Lh { offset, dest, base } => e_i(0b0000011, 0b001, dest.0 as u32, base.0 as u32, offset.low()),
        Inst::Lw { offset, dest, base } => e_i(0b0000011, 0b010, dest.0 as u32, base.0 as u32, offset.low()),
        Inst::Ld { offset, dest, base } => e_i(0b0000011, 0b011, dest.0 as u32, base.0 as u32, offset.low()),
        Inst::Lbu { offset, dest, base } => e_i(0b0000011, 0b100, dest.0 as u32, base.0 as u32, offset.low()),
        Inst::Lhu { offset, dest, base } => e_i(0b0000011, 0b101, dest.0 as u32, base.0 as u32, offset.low()),
        Inst::Lwu { offset, dest, base } => e_i(0b0000011, 0b110, dest.0 as u32, base.0 as u32, offset.low()),
        Inst::Sb { offset, src, base } => e_s(0b0100011, 0b000, base.0 as u32, src.0 as u32, offset.low()),
        Inst::Sh { offset, src, base } => e_s(0b0100011, 0b001, base.0 as u32, src.0 as u32, offset.low()),
        Inst::Sw { offset, src, base } => e_s(0b0100011, 0b010, base.0 as u32, src.0 as u32, offset.low()),
        Inst::Sd { offset, src, base } => e_s(0b0100011, 0b011, base.0 as u32, src.0 as u32, offset.low()),
        Inst::Addi { imm, dest, src1 } => e_i(0b0010011, 0b000, dest.0 as u32, src1.0 as u32, imm.low()),
        Inst::Slti { imm, dest, src1 } => e_i(0b0010011, 0b010, dest.0 as u32, src1.0 as u32, imm.low()),
        Inst::Sltiu { imm, dest, src1 } => e_i(0b0010011, 0b011, dest.0 as u32, src1.0 as u32, imm.low()),
        Inst::Xori { imm, dest, src1 } => e_i(0b0010011, 0b100, dest.0 as u32, src1.0 as u32, imm.low()),
        Inst::Ori { imm, dest, src1 } => e_i(0b0010011, 0b110, dest.0 as u32, src1.0 as u32, imm.low()),
        Inst::Andi { imm, dest, src1 } => e_i(0b0010011, 0b111, dest.0 as u32, src1.0 as u32, imm.low()),
        Inst::Slli { imm, dest, src1 } => e_i(0b0010011, 0b001, dest.0 as u32, src1.0 as u32, imm.low()),
        Inst::AddiW { imm, dest, src1 } => e_i(0b0011011, 0b000, dest.0 as u32, src1.0 as u32, imm.low()),
        Inst::SlliW { imm, dest, src1 } => e_i(0b0011011, 0b001, dest.0 as u32, src1.0 as u32, imm.low()),
        Inst::SrliW { imm, dest, src1 } => e_r(0b0011011, 0b101, 0b0000000, dest.0 as u32, src1.0 as u32, imm.low()),
        Inst::SraiW { imm, dest, src1 } => e_r(0b0011011, 0b101, 0b0100000, dest.0 as u32, src1.0 as u32, imm.low()),
        Inst::Srli { imm, dest, src1 } => match xlen {
            Xlen::Rv32 => e_r(0b0010011, 0b101, 0b0000000, dest.0 as u32, src1.0 as u32, imm.low()),
            Xlen::Rv64 => e_sh64(0b0010011, 0b101, 0b000000, dest.0 as u32, src1.0 as u32, imm.low()),
        },
        Inst::Srai { imm, dest, src1 } => match xlen {
            Xlen::Rv32 => e_r(0b0010011, 0b101, 0b0100000, dest.0 as u32, src1.0 as u32, imm.low()),
            Xlen::Rv64 => e_sh64(0b0010011, 0b101, 0b010000, dest.0 as u32, src1.0 as u32, imm.low()),
        },
        Inst::Add { dest, src1, src2 } => e_r(0b0110011, 0b000, 0b0000000, dest.0 as u32, src1.0 as u32, src2.0 as u32),
        Inst::Sub { dest, src1, src2 } => e_r(0b0110011, 0b000, 0b0100000, dest.0 as u32, src1.0 as u32, src2.0 as u32),
        Inst::Sll { dest, src1, src2 } => e_r(0b0110011, 0b001, 0b0000000, dest.0 as u32, src1.0 as u32, src2.0 as u32),
        Inst::Slt { dest, src1, src2 } => e_r(0b0110011, 0b010, 0b0000000, dest.0 as u32, src1.0 as u32, src2.0 as u32),
        Inst::Sltu { dest, src1, src2 } => e_r(0b0110011, 0b011, 0b0000000, dest.0 as u32, src1.0 as u32, src2.0 as u32),
        Inst::Xor { dest, src1, src2 } => e_r(0b0110011, 0b100, 0b0000000, dest.0 as u32, src1.0 as u32, src2.0 as u32),
        Inst::Srl { dest, src1, src2 } => e_r(0b0110011, 0b101, 0b0000000, dest.0 as u32, src1.0 as u32, src2.0 as u32),
        Inst::Sra { dest, src1, src2 } => e_r(0b0110011, 0b101, 0b0100000, dest.0 as u32, src1.0 as u32, src2.0 as u32),
        Inst::Or { dest, src1, src2 } => e_r(0b0110011, 0b110, 0b0000000, dest.0 as u32, src1.0 as u32, src2.0 as u32),
        Inst::And { dest, src1, src2 } => e_r(0b0110011, 0b111, 0b0000000, dest.0 as u32, src1.0 as u32, src2.0 as u32),
        Inst::Mul { dest, src1, src2 } => e_r(0b0110011, 0b000, 0b0000001, dest.0 as u32, src1.0 as u32, src2.0 as u32),
        Inst::Mulh { dest, src1, src2 } => e_r(0b0110011, 0b001, 0b0000001, dest.0 as u32, src1.0 as u32, src2.0 as u32),
        Inst::Mulhsu { dest, src1, src2 } => e_r(0b0110011, 0b010, 0b0000001, dest.0 as u32, src1.0 as u32, src2.0 as u32),
        Inst::Mulhu { dest, src1, src2 } => e_r(0b0110011, 0b011, 0b0000001, dest.0 as u32, src1.0 as u32, src2.0 as u32),
        Inst::Div { dest, src1, src2 } => e_r(0b0110011, 0b100, 0b0000001, dest.0 as u32, src1.0 as u32, src2.0 as u32),
        Inst::Divu { dest, src1, src2 } => e_r(0b0110011, 0b101, 0b0000001, dest.0 as u32, src1.0 as u32, src2.0 as u32),
        Inst::Rem { dest, src1, src2 } => e_r(0b0110011, 0b110, 0b0000001, dest.0 as u32, src1.0 as u32, src2.0 as u32),
        Inst::Remu { dest, src1, src2 } => e_r(0b0110011, 0b111, 0b0000001, dest.0 as u32, src1.0 as u32, src2.0 as u32),
        Inst::AddW { dest, src1, src2 } => e_r(0b0111011, 0b000, 0b0000000, dest.0 as u32, src1.0 as u32, src2.0 as u32),
        Inst::SubW { dest, src1, src2 } => e_r(0b0111011, 0b000, 0b0100000, dest.0 as u32, src1.0 as u32, src2.0 as u32),
        Inst::SllW { dest, src1, src2 } => e_r(0b0111011, 0b001, 0b0000000, dest.0 as u32, src1.0 as u32, src2.0 as u32),
        Inst::SrlW { dest, src1, src2 } => e_r(0b0111011, 0b101, 0b0000000, dest.0 as u32, src1.0 as u32, src2.0 as u32),
        Inst::SraW { dest, src1, src2 } => e_r(0b0111011, 0b101, 0b0100000, dest.0 as u32, src1.0 as u32, src2.0 as u32),
        Inst::MulW { dest, src1, src2 } => e_r(0b0111011, 0b000, 0b0000001, dest.0 as u32, src1.0 as u32, src2.0 as u32),
        Inst::DivW { dest, src1, src2 } => e_r(0b0111011, 0b100, 0b0000001, dest.0 as u32, src1.0 as u32, src2.0 as u32),
        Inst::DivuW { dest, src1, src2 } => e_r(0b0111011, 0b101, 0b0000001, dest.0 as u32, src1.0 as u32, src2.0 as u32),
        Inst::RemW { dest, src1, src2 } => e_r(0b0111011, 0b110, 0b0000001, dest.0 as u32, src1.0 as u32, src2.0 as u32),
        Inst::RemuW { dest, src1, src2 } => e_r(0b0111011, 0b111, 0b0000001, dest.0 as u32, src1.0 as u32, src2.0 as u32),
        Inst::Fence { fence } => e_fence(
            0b0001111,
            0b000,
            fence.fm as u32,
            fence.pred.device_input,
            fence.pred.device_output,
            fence.pred.memory_read,
            fence.pred.memory_write,
            fence.succ.device_input,
            fence.succ.device_output,
            fence.succ.memory_read,
            fence.succ.memory_write,
            fence.dest.0 as u32,
            fence.src.0 as u32,
        ),
        Inst::Ecall => e_i(0b1110011, 0b000, 0, 0, 0),
        Inst::Ebreak => e_i(0b1110011, 0b000, 0, 0, 1),
        Inst::LrW { order, dest, addr } => e_amo(0b0101111, 0b010, 0b00010, order.aq(), order.rl(), dest.0 as u32, addr.0 as u32, 0),
        Inst::ScW { order, dest, addr, src } => e_amo(0b0101111, 0b010, 0b00011, order.aq(), order.rl(), dest.0 as u32, addr.0 as u32, src.0 as u32),
        Inst::AmoW { order, op, dest, addr, src } => e_amo(0b0101111, 0b010, op.code(), order.aq(), order.rl(), dest.0 as u32, addr.0 as u32, src.0 as u32),
        Inst::Csrrw { csr, dest, src } => e_i(0b1110011, 0b001, dest.0 as u32, src.0 as u32, csr.0 as u32),
        Inst::Csrrs { csr, dest, src } => e_i(0b1110011, 0b010, dest.0 as u32, src.0 as u32, csr.0 as u32),
        Inst::Csrrc { csr, dest, src } => e_i(0b1110011, 0b011, dest.0 as u32, src.0 as u32, csr.0 as u32),
        Inst::Csrrwi { csr, dest, uimm } => e_i(0b1110011, 0b101, dest.0 as u32, uimm.low(), csr.0 as u32),
        Inst::Csrrsi { csr, dest, uimm } => e_i(0b1110011, 0b110, dest.0 as u32, uimm.low(), csr.0 as u32),
        Inst::Csrrci { csr, dest, uimm } => e_i(0b1110011, 0b111, dest.0 as u32, uimm.low(), csr.0 as u32),
        Inst::Flw { offset, dest, base } => e_i(0b0000111, 0b010, dest.0 as u32, base.0 as u32, offset.low()),
        Inst::Fld { offset, dest, base } => e_i(0b0000111, 0b011, dest.0 as u32, base.0 as u32, offset.low()),
        Inst::Fsw { offset, src, base } => e_s(0b0100111, 0b010, base.0 as u32, src.0 as u32, offset.low()),
        Inst::Fsd { offset, src, base } => e_s(0b0100111, 0b011, base.0 as u32, src.0 as u32, offset.low()),
        Inst::FmaddS { rm, dest, src1, src2, src3 } => e_r4(0b1000011, rm.code(), 0b00, dest.0 as u32, src1.0 as u32, src2.0 as u32, src3.0 as u32),
        Inst::FmsubS { rm, dest, src1, src2, src3 } => e_r4(0b1000111, rm.code(), 0b00, dest.0 as u32, src1.0 as u32, src2.0 as u32, src3.0 as u32),
        Inst::FnmsubS { rm, dest, src1, src2, src3 } => e_r4(0b1001011, rm.code(), 0b00, dest.0 as u32, src1.0 as u32, src2.0 as u32, src3.0 as u32),
        Inst::FnmaddS { rm, dest, src1, src2, src3 } => e_r4(0b1001111, rm.code(), 0b00, dest.0 as u32, src1.0 as u32, src2.0 as u32, src3.0 as u32),
        Inst::FmaddD { rm, dest, src1, src2, src3 } => e_r4(0b1000011, rm.code(), 0b01, dest.0 as u32, src1.0 as u32, src2.0 as u32, src3.0 as u32),
        Inst::FmsubD { rm, dest, src1, src2, src3 } => e_r4(0b1000111, rm.code(), 0b01, dest.0 as u32, src1.0 as u32, src2.0 as u32, src3.0 as u32),
        Inst::FnmsubD { rm, dest, src1, src2, src3 } => e_r4(0b1001011, rm.code(), 0b01, dest.0 as u32, src1.0 as u32, src2.0 as u32, src3.0 as u32),
        Inst::FnmaddD { rm, dest, src1, src2, src3 } => e_r4(0b1001111, rm.code(), 0b01, dest.0 as u32, src1.0 as u32, src2.0 as u32, src3.0 as u32),
        Inst::FaddS { rm, dest, src1, src2 } => e_r(0b1010011, rm.code(), 0b0000000, dest.0 as u32, src1.0 as u32, src2.0 as u32),
        Inst::FsubS { rm, dest, src1, src2 } => e_r(0b1010011, rm.code(), 0b0000100, dest.0 as u32, src1.0 as u32, src2.0 as u32),
        Inst::FmulS { rm, dest, src1, src2 } => e_r(0b1010011, rm.code(), 0b0001000, dest.0 as u32, src1.0 as u32, src2.0 as u32),
        Inst::FdivS { rm, dest, src1, src2 } => e_r(0b1010011, rm.code(), 0b0001100, dest.0 as u32, src1.0 as u32, src2.0 as u32),
        Inst::FsqrtS { rm, dest, src } => e_r(0b1010011, rm.code(), 0b0101100, dest.0 as u32, src.0 as u32, 0),
        Inst::FsgnjS { dest, src1, src2 } => e_r(0b1010011, 0b000, 0b0010000, dest.0 as u32, src1.0 as u32, src2.0 as u32),
        Inst::FsgnjnS { dest, src1, src2 } => e_r(0b1010011, 0b001, 0b0010000, dest.0 as u32, src1.0 as u32, src2.0 as u32),
        Inst::FsgnjxS { dest, src1, src2 } => e_r(0b1010011, 0b010, 0b0010000, dest.0 as u32, src1.0 as u32, src2.0 as u32),
        Inst::FminS { dest, src1, src2 } => e_r(0b1010011, 0b000, 0b0010100, dest.0 as u32, src1.0 as u32, src2.0 as u32),
        Inst::FmaxS { dest, src1, src2 } => e_r(0b1010011, 0b001, 0b0010100, dest.0 as u32, src1.0 as u32, src2.0 as u32),
        Inst::FcvtWS { rm, dest, src } => e_r(0b1010011, rm.code(), 0b1100000, dest.0 as u32, src.0 as u32, 0),
        Inst::FcvtWuS { rm, dest, src } => e_r(0b1010011, rm.code(), 0b1100000, dest.0 as u32, src.0 as u32, 1),
        Inst::FmvXW { dest, src } => e_r(0b1010011, 0b000, 0b1110000, dest.0 as u32, src.0 as u32, 0),
        Inst::FeqS { dest, src1, src2 } => e_r(0b1010011, 0b010, 0b1010000, dest.0 as u32, src1.0 as u32, src2.0 as u32),
        Inst::FltS { dest, src1, src2 } => e_r(0b1010011, 0b001, 0b1010000, dest.0 as u32, src1.0 as u32, src2.0 as u32),
        Inst::FleS { dest, src1, src2 } => e_r(0b1010011, 0b000, 0b1010000, dest.0 as u32, src1.0 as u32, src2.0 as u32),
        Inst::FclassS { dest, src } => e_r(0b1010011, 0b001, 0b1110000, dest.0 as u32, src.0 as u32, 0),
        Inst::FcvtSW { rm, dest, src } => e_r(0b1010011, rm.code(), 0b1101000, dest.0 as u32, src.0 as u32, 0),
        Inst::FcvtSWu { rm, dest, src } => e_r(0b1010011, rm.code(), 0b1101000, dest.0 as u32, src.0 as u32, 1),
        Inst::FmvWX { dest, src } => e_r(0b1010011, 0b000, 0b1111000, dest.0 as u32, src.0 as u32, 0),
        Inst::FcvtSD { rm, dest, src } => e_r(0b1010011, rm.code(), 0b0100000, dest.0 as u32, src.0 as u32, 1),
        Inst::FcvtDS { rm, dest, src } => e_r(0b1010011, rm.code(), 0b0100001, dest.0 as u32, src.0 as u32, 0),
        Inst::FaddD { rm, dest, src1, src2 } => e_r(0b1010011, rm.code(), 0b0000001, dest.0 as u32, src1.0 as u32, src2.0 as u32),
        Inst::FsubD { rm, dest, src1, src2 } => e_r(0b1010011, rm.code(), 0b0000101, dest.0 as u32, src1.0 as u32, src2.0 as u32),
        Inst::FmulD { rm, dest, src1, src2 } => e_r(0b1010011, rm.code(), 0b0001001, dest.0 as u32, src1.0 as u32, src2.0 as u32),
        Inst::FdivD { rm, dest, src1, src2 } => e_r(0b1010011, rm.code(), 0b0001101, dest.0 as u32, src1.0 as u32, src2.0 as u32),
        Inst::FsqrtD { rm, dest, src } => e_r(0b1010011, rm.code(), 0b0101101, dest.0 as u32, src.0 as u32, 0),
        Inst::FsgnjD { dest, src1, src2 } => e_r(0b1010011, 0b000, 0b0010001, dest.0 as u32, src1.0 as u32, src2.0 as u32),
        Inst::FsgnjnD { dest, src1, src2 } => e_r(0b1010011, 0b001, 0b0010001, dest.0 as u32, src1.0 as u32, src2.0 as u32),
        Inst::FsgnjxD { dest, src1, src2 } => e_r(0b1010011, 0b010, 0b0010001, dest.0 as u32, src1.0 as u32, src2.0 as u32),
        Inst::FminD { dest, src1, src2 } => e_r(0b1010011, 0b000, 0b0010101, dest.0 as u32, src1.0 as u32, src2.0 as u32),
        Inst::FmaxD { dest, src1, src2 } => e_r(0b1010011, 0b001, 0b0010101, dest.0 as u32, src1.0 as u32, src2.0 as u32),
        Inst::FeqD { dest, src1, src2 } => e_r(0b1010011, 0b010, 0b1010001, dest.0 as u32, src1.0 as u32, src2.0 as u32),
        Inst::FltD { dest, src1, src2 } => e_r(0b1010011, 0b001, 0b1010001, dest.0 as u32, src1.0 as u32, src2.0 as u32),
        Inst::FleD { dest, src1, src2 } => e_r(0b1010011, 0b000, 0b1010001, dest.0 as u32, src1.0 as u32, src2.0 as u32),
        Inst::FclassD { dest, src } => e_r(0b1010011, 0b001, 0b1110001, dest.0 as u32, src.0 as u32, 0),
        Inst::FmvXD { dest, src } => e_r(0b1010011, 0b000, 0b1110001, dest.0 as u32, src.0 as u32, 0),
        Inst::FcvtWD { rm, dest, src } => e_r(0b1010011, rm.code(), 0b1100001, dest.0 as u32, src.0 as u32, 0),
        Inst::FcvtWuD { rm, dest, src } => e_r(0b1010011, rm.code(), 0b1100001, dest.0 as u32, src.0 as u32, 1),
        Inst::FcvtLS { rm, dest, src } => e_r(0b1010011, rm.code(), 0b1100000, dest.0 as u32, src.0 as u32, 2),
        Inst::FcvtLuS { rm, dest, src } => e_r(0b1010011, rm.code(), 0b1100000, dest.0 as u32, src.0 as u32, 3),
        Inst::FcvtLD { rm, dest, src } => e_r(0b1010011, rm.code(), 0b1100001, dest.0 as u32, src.0 as u32, 2),
        Inst::FcvtLuD { rm, dest, src } => e_r(0b1010011, rm.code(), 0b1100001, dest.0 as u32, src.0 as u32, 3),
        Inst::FcvtDW { rm, dest, src } => e_r(0b1010011, rm.code(), 0b1101001, dest.0 as u32, src.0 as u32, 0),
        Inst::FcvtDWu { rm, dest, src } => e_r(0b1010011, rm.code(), 0b1101001, dest.0 as u32, src.0 as u32, 1),
        Inst::FcvtSL { rm, dest, src } => e_r(0b1010011, rm.code(), 0b1101000, dest.0 as u32, src.0 as u32, 2),
        Inst::FcvtSLu { rm, dest, src } => e_r(0b1010011, rm.code(), 0b1101000, dest.0 as u32, src.0 as u32, 3),
        Inst::FcvtDL { rm, dest, src } => e_r(0b1010011, rm.code(), 0b1101001, dest.0 as u32, src.0 as u32, 2),
        Inst::FcvtDLu { rm, dest, src } => e_r(0b1010011, rm.code(), 0b1101001, dest.0 as u32, src.0 as u32, 3),
        Inst::FmvDX { dest, src } => e_r(0b1010011, 0b000, 0b1111001, dest.0 as u32, src.0 as u32, 0),
    }
}

fn enc_r(op: u32, f3: u32, f7: u32, rd: u32, rs1: u32, rs2: u32) -> (r: u32)
    ensures
        r == e_r(op, f3, f7, rd, rs1, rs2),
{
    (op & 0x7f) | ((rd & 0x1f) << 7) | ((f3 & 0x7) << 12) | ((rs1 & 0x1f) << 15) | ((rs2 & 0x1f)
        << 20) | ((f7 & 0x7f) << 25)
}

fn enc_i(op: u32, f3: u32, rd: u32, rs1: u32, imm: u32) -> (r: u32)
    ensures
        r == e_i(op, f3, rd, rs1, imm),
{
    (op & 0x7f) | ((rd & 0x1f) << 7) | ((f3 & 0x7) << 12) | ((rs1 & 0x1f) << 15) | ((imm & 0xfff)
        << 20)
}

fn enc_s(op: u32, f3: u32, rs1: u32, rs2: u32, imm: u32) -> (r: u32)
    ensures
        r == e_s(op, f3, rs1, rs2, imm),
{
    (op & 0x7f) | ((imm & 0x1f) << 7) | ((f3 & 0x7) << 12) | ((rs1 & 0x1f) << 15) | ((rs2 & 0x1f)
        << 20) | (((imm >> 5) & 0x7f) << 25)
}

fn enc_b(op: u32, f3: u32, rs1: u32, rs2: u32, imm: u32) -> (r: u32)
    ensures
        r == e_b(op, f3, rs1, rs2, imm),
{
    (op & 0x7f) | (((imm >> 11) & 1) << 7) | (((imm >> 1) & 0xf) << 8) | ((f3 & 0x7) << 12) | ((rs1
        & 0x1f) << 15) | ((rs2 & 0x1f) << 20) | (((imm >> 5) & 0x3f) << 25) | (((imm >> 12) & 1)
        << 31)
}

fn enc_u(op: u32, rd: u32, imm: u32) -> (r: u32)
    ensures
        r == e_u(op, rd, imm),
{
    (op & 0x7f) | ((rd & 0x1f) << 7) | (imm & 0xfffff000)
}

fn enc_j(op: u32, rd: u32, imm: u32) -> (r: u32)
    ensures
        r == e_j(op, rd, imm),
{
    (op & 0x7f) | ((rd & 0x1f) << 7) | (((imm >> 12) & 0xff) << 12) | (((imm >> 11) & 1) << 20) | ((
    (imm >> 1) & 0x3ff) << 21) | (((imm >> 20) & 1) << 31)
}

fn enc_r4(op: u32, rm: u32, fmt: u32, rd: u32, rs1: u32, rs2: u32, rs3: u32) -> (r: u32)
    ensures
        r == e_r4(op, rm, fmt, rd, rs1, rs2, rs3),
{
    (op & 0x7f) | ((rd & 0x1f) << 7) | ((rm & 0x7) << 12) | ((rs1 & 0x1f) << 15) | ((rs2 & 0x1f)
        << 20) | ((fmt & 0x3) << 25) | ((rs3 & 0x1f) << 27)
}

fn enc_sh64(op: u32, f3: u32, f6: u32, rd: u32, rs1: u32, shamt: u32) -> (r: u32)
    ensures
        r == e_sh64(op, f3, f6, rd, rs1, shamt),
{
    (op & 0x7f) | ((rd & 0x1f) << 7) | ((f3 & 0x7) << 12) | ((rs1 & 0x1f) << 15) | ((shamt & 0x3f)
        << 20) | ((f6 & 0x3f) << 26)
}

fn enc_amo(op: u32, f3: u32, kind: u32, aq: bool, rl: bool, rd: u32, rs1: u32, rs2: u32) -> (r:
    u32)
    ensures
        r == e_amo(op, f3, kind, aq, rl, rd, rs1, rs2),
{
    (op & 0x7f) | ((rd & 0x1f) << 7) | ((f3 & 0x7) << 12) | ((rs1 & 0x1f) << 15) | ((rs2 & 0x1f)
        << 20) | ((if rl { 1u32 } else { 0u32 }) << 25) | ((if aq { 1u32 } else { 0u32 }) << 26) | (
    (kind & 0x1f) << 27)
}

fn enc_fence(
    op: u32,
    f3: u32,
    fm: u32,
    pdi: bool,
    pdo: bool,
    pr: bool,
    pw: bool,
    sdi: bool,
    sdo: bool,
    sr: bool,
    sw: bool,
    rd: u32,
    rs1: u32,
) -> (r: u32)
    ensures
        r == e_fence(op, f3, fm, pdi, pdo, pr, pw, sdi, sdo, sr, sw, rd, rs1),
{
    (op & 0x7f) | ((rd & 0x1f) << 7) | ((f3 & 0x7) << 12) | ((rs1 & 0x1f) << 15) | ((if sw { 1u32 } else { 0u32 })
        << 20) | ((if sr { 1u32 } else { 0u32 }) << 21) | ((if sdo { 1u32 } else { 0u32 }) << 22) | ((if sdi {
        1u32
    } else {
        0u32
    }) << 23) | ((if pw { 1u32 } else { 0u32 }) << 24) | ((if pr { 1u32 } else { 0u32 }) << 25) | ((if pdo {
        1u32
    } else {
        0u32
    }) << 26) | ((if pdi { 1u32 } else { 0u32 }) << 27) | ((fm & 0xf) << 28)
}

fn amo_op_code(op: AmoOp) -> (r: u32)
    ensures
        r == op.code(),
{
    match op {
        AmoOp::Swap => 0b00001,
        AmoOp::Add => 0b00000,
        AmoOp::Xor => 0b00100,
        AmoOp::And => 0b01100,
        AmoOp::Or => 0b01000,
        AmoOp::Min => 0b10000,
        AmoOp::Max => 0b10100,
        AmoOp::Minu => 0b11000,
        AmoOp::Maxu => 0b11100,
    }
}

impl Inst {
    /// Encode a normal (not compressed) instruction.
    pub fn encode_normal(&self, xlen: Xlen) -> (r: u32)
        ensures
            r == encode_inst_spec(*self, xlen),
    {
        match *self {
        Inst::Lui { uimm, dest } => enc_u(0b0110111, dest.0 as u32, uimm.as_u32()),
        Inst::Auipc { uimm, dest } => enc_u(0b0010111, dest.0 as u32, uimm.as_u32()),
        Inst::Jal { offset, dest } => enc_j(0b1101111, dest.0 as u32, offset.as_u32()),
        Inst::Jalr { offset, base, dest } => enc_i(0b1100111, 0b000, dest.0 as u32, base.0 as u32, offset.as_u32()),
        Inst::Beq { offset, src1, src2 } => enc_b(0b1100011, 0b000, src1.0 as u32, src2.0 as u32, offset.as_u32()),
        Inst::Bne { offset, src1, src2 } => enc_b(0b1100011, 0b001, src1.0 as u32, src2.0 as u32, offset.as_u32()),
        Inst::Blt { offset, src1, src2 } => enc_b(0b1100011, 0b100, src1.0 as u32, src2.0 as u32, offset.as_u32()),
        Inst::Bge { offset, src1, src2 } => enc_b(0b1100011, 0b101, src1.0 as u32, src2.0 as u32, offset.as_u32()),
        Inst::Bltu { offset, src1, src2 } => enc_b(0b1100011, 0b110, src1.0 as u32, src2.0 as u32, offset.as_u32()),
        Inst::Bgeu { offset, src1, src2 } => enc_b(0b1100011, 0b111, src1.0 as u32, src2.0 as u32, offset.as_u32()),
        Inst::Lb { offset, dest, base } => enc_i(0b0000011, 0b000, dest.0 as u32, base.0 as u32, offset.as_u32()),
        Inst::Lh { offset, dest, base } => enc_i(0b0000011, 0b001, dest.0 as u32, base.0 as u32, offset.as_u32()),
        Inst::Lw { offset, dest, base } => enc_i(0b0000011, 0b010, dest.0 as u32, base.0 as u32, offset.as_u32()),
        Inst::Ld { offset, dest, base } => enc_i(0b0000011, 0b011, dest.0 as u32, base.0 as u32, offset.as_u32()),
        Inst::Lbu { offset, dest, base } => enc_i(0b0000011, 0b100, dest.0 as u32, base.0 as u32, offset.as_u32()),
        Inst::Lhu { offset, dest, base } => enc_i(0b0000011, 0b101, dest.0 as u32, base.0 as u32, offset.as_u32()),
        Inst::Lwu { offset, dest, base } => enc_i(0b0000011, 0b110, dest.0 as u32, base.0 as u32, offset.as_u32()),
        Inst::Sb { offset, src, base } => enc_s(0b0100011, 0b000, base.0 as u32, src.0 as u32, offset.as_u32()),
        Inst::Sh { offset, src, base } => enc_s(0b0100011, 0b001, base.0 as u32, src.0 as u32, offset.as_u32()),
        Inst::Sw { offset, src, base } => enc_s(0b0100011, 0b010, base.0 as u32, src.0 as u32, offset.as_u32()),
        Inst::Sd { offset, src, base } => enc_s(0b0100011, 0b011, base.0 as u32, src.0 as u32, offset.as_u32()),
        Inst::Addi { imm, dest, src1 } => enc_i(0b0010011, 0b000, dest.0 as u32, src1.0 as u32, imm.as_u32()),
        Inst::Slti { imm, dest, src1 } => enc_i(0b0010011, 0b010, dest.0 as u32, src1.0 as u32, imm.as_u32()),
        Inst::Sltiu { imm, dest, src1 } => enc_i(0b0010011, 0b011, dest.0 as u32, src1.0 as u32, imm.as_u32()),
        Inst::Xori { imm, dest, src1 } => enc_i(0b0010011, 0b100, dest.0 as u32, src1.0 as u32, imm.as_u32()),
        Inst::Ori { imm, dest, src1 } => enc_i(0b0010011, 0b110, dest.0 as u32, src1.0 as u32, imm.as_u32()),
        Inst::Andi { imm, dest, src1 } => enc_i(0b0010011, 0b111, dest.0 as u32, src1.0 as u32, imm.as_u32()),
        Inst::Slli { imm, dest, src1 } => enc_i(0b0010011, 0b001, dest.0 as u32, src1.0 as u32, imm.as_u32()),
        Inst::AddiW { imm, dest, src1 } => enc_i(0b0011011, 0b000, dest.0 as u32, src1.0 as u32, imm.as_u32()),
        Inst::SlliW { imm, dest, src1 } => enc_i(0b0011011, 0b001, dest.0 as u32, src1.0 as u32, imm.as_u32()),
        Inst::SrliW { imm, dest, src1 } => enc_r(0b0011011, 0b101, 0b0000000, dest.0 as u32, src1.0 as u32, imm.as_u32()),
        Inst::SraiW { imm, dest, src1 } => enc_r(0b0011011, 0b101, 0b0100000, dest.0 as u32, src1.0 as u32, imm.as_u32()),
        Inst::Srli { imm, dest, src1 } => match xlen {
            Xlen::Rv32 => enc_r(0b0010011, 0b101, 0b0000000, dest.0 as u32, src1.0 as u32, imm.as_u32()),
            Xlen::Rv64 => enc_sh64(0b0010011, 0b101, 0b000000, dest.0 as u32, src1.0 as u32, imm.as_u32()),
        },
        Inst::Srai { imm, dest, src1 } => match xlen {
            Xlen::Rv32 => enc_r(0b0010011, 0b101, 0b0100000, dest.0 as u32, src1.0 as u32, imm.as_u32()),
            Xlen::Rv64 => enc_sh64(0b0010011, 0b101, 0b010000, dest.0 as u32, src1.0 as u32, imm.as_u32()),
        },
        Inst::Add { dest, src1, src2 } => enc_r(0b0110011, 0b000, 0b0000000, dest.0 as u32, src1.0 as u32, src2.0 as u32),
        Inst::Sub { dest, src1, src2 } => enc_r(0b0110011, 0b000, 0b0100000, dest.0 as u32, src1.0 as u32, src2.0 as u32),
        Inst::Sll { dest, src1, src2 } => enc_r(0b0110011, 0b001, 0b0000000, dest.0 as u32, src1.0 as u32, src2.0 as u32),
        Inst::Slt { dest, src1, src2 } => enc_r(0b0110011, 0b010, 0b0000000, dest.0 as u32, src1.0 as u32, src2.0 as u32),
        Inst::Sltu { dest, src1, src2 } => enc_r(0b0110011, 0b011, 0b0000000, dest.0 as u32, src1.0 as u32, src2.0 as u32),
        Inst::Xor { dest, src1, src2 } => enc_r(0b0110011, 0b100, 0b0000000, dest.0 as u32, src1.0 as u32, src2.0 as u32),
        Inst::Srl { dest, src1, src2 } => enc_r(0b0110011, 0b101, 0b0000000, dest.0 as u32, src1.0 as u32, src2.0 as u32),
        Inst::Sra { dest, src1, src2 } => enc_r(0b0110011, 0b101, 0b0100000, dest.0 as u32, src1.0 as u32, src2.0 as u32),
        Inst::Or { dest, src1, src2 } => enc_r(0b0110011, 0b110, 0b0000000, dest.0 as u32, src1.0 as u32, src2.0 as u32),
        Inst::And { dest, src1, src2 } => enc_r(0b0110011, 0b111, 0b0000000, dest.0 as u32, src1.0 as u32, src2.0 as u32),
        Inst::Mul { dest, src1, src2 } => enc_r(0b0110011, 0b000, 0b0000001, dest.0 as u32, src1.0 as u32, src2.0 as u32),
        Inst::Mulh { dest, src1, src2 } => enc_r(0b0110011, 0b001, 0b0000001, dest.0 as u32, src1.0 as u32, src2.0 as u32),
        Inst::Mulhsu { dest, src1, src2 } => enc_r(0b0110011, 0b010, 0b0000001, dest.0 as u32, src1.0 as u32, src2.0 as u32),
        Inst::Mulhu { dest, src1, src2 } => enc_r(0b0110011, 0b011, 0b0000001, dest.0 as u32, src1.0 as u32, src2.0 as u32),
        Inst::Div { dest, src1, src2 } => enc_r(0b0110011, 0b100, 0b0000001, dest.0 as u32, src1.0 as u32, src2.0 as u32),
        Inst::Divu { dest, src1, src2 } => enc_r(0b0110011, 0b101, 0b0000001, dest.0 as u32, src1.0 as u32, src2.0 as u32),
        Inst::Rem { dest, src1, src2 } => enc_r(0b0110011, 0b110, 0b0000001, dest.0 as u32, src1.0 as u32, src2.0 as u32),
        Inst::Remu { dest, src1, src2 } => enc_r(0b0110011, 0b111, 0b0000001, dest.0 as u32, src1.0 as u32, src2.0 as u32),
        Inst::AddW { dest, src1, src2 } => enc_r(0b0111011, 0b000, 0b0000000, dest.0 as u32, src1.0 as u32, src2.0 as u32),
        Inst::SubW { dest, src1, src2 } => enc_r(0b0111011, 0b000, 0b0100000, dest.0 as u32, src1.0 as u32, src2.0 as u32),
        Inst::SllW { dest, src1, src2 } => enc_r(0b0111011, 0b001, 0b0000000, dest.0 as u32, src1.0 as u32, src2.0 as u32),
        Inst::SrlW { dest, src1, src2 } => enc_r(0b0111011, 0b101, 0b0000000, dest.0 as u32, src1.0 as u32, src2.0 as u32),
        Inst::SraW { dest, src1, src2 } => enc_r(0b0111011, 0b101, 0b0100000, dest.0 as u32, src1.0 as u32, src2.0 as u32),
        Inst::MulW { dest, src1, src2 } => enc_r(0b0111011, 0b000, 0b0000001, dest.0 as u32, src1.0 as u32, src2.0 as u32),
        Inst::DivW { dest, src1, src2 } => enc_r(0b0111011, 0b100, 0b0000001, dest.0 as u32, src1.0 as u32, src2.0 as u32),
        Inst::DivuW { dest, src1, src2 } => enc_r(0b0111011, 0b101, 0b0000001, dest.0 as u32, src1.0 as u32, src2.0 as u32),
        Inst::RemW { dest, src1, src2 } => enc_r(0b0111011, 0b110, 0b0000001, dest.0 as u32, src1.0 as u32, src2.0 as u32),
        Inst::RemuW { dest, src1, src2 } => enc_r(0b0111011, 0b111, 0b0000001, dest.0 as u32, src1.0 as u32, src2.0 as u32),
        Inst::Fence { fence } => enc_fence(
            0b0001111,
            0b000,
            fence.fm as u32,
            fence.pred.device_input,
            fence.pred.device_output,
            fence.pred.memory_read,
            fence.pred.memory_write,
            fence.succ.device_input,
            fence.succ.device_output,
            fence.succ.memory_read,
            fence.succ.memory_write,
            fence.dest.0 as u32,
            fence.src.0 as u32,
        ),
        Inst::Ecall => enc_i(0b1110011, 0b000, 0, 0, 0),
        Inst::Ebreak => enc_i(0b1110011, 0b000, 0, 0, 1),
        Inst::LrW { order, dest, addr } => enc_amo(0b0101111, 0b010, 0b00010, order.aq_rl().0, order.aq_rl().1, dest.0 as u32, addr.0 as u32, 0),
        Inst::ScW { order, dest, addr, src } => enc_amo(0b0101111, 0b010, 0b00011, order.aq_rl().0, order.aq_rl().1, dest.0 as u32, addr.0 as u32, src.0 as u32),
        Inst::AmoW { order, op, dest, addr, src } => enc_amo(0b0101111, 0b010, amo_op_code(op), order.aq_rl().0, order.aq_rl().1, dest.0 as u32, addr.0 as u32, src.0 as u32),
        Inst::Csrrw { csr, dest, src } => enc_i(0b1110011, 0b001, dest.0 as u32, src.0 as u32, csr.0 as u32),
        Inst::Csrrs { csr, dest, src } => enc_i(0b1110011, 0b010, dest.0 as u32, src.0 as u32, csr.0 as u32),
        Inst::Csrrc { csr, dest, src } => enc_i(0b1110011, 0b011, dest.0 as u32, src.0 as u32, csr.0 as u32),
        Inst::Csrrwi { csr, dest, uimm } => enc_i(0b1110011, 0b101, dest.0 as u32, uimm.as_u32(), csr.0 as u32),
        Inst::Csrrsi { csr, dest, uimm } => enc_i(0b1110011, 0b110, dest.0 as u32, uimm.as_u32(), csr.0 as u32),
        Inst::Csrrci { csr, dest, uimm } => enc_i(0b1110011, 0b111, dest.0 as u32, uimm.as_u32(), csr.0 as u32),
        Inst::Flw { offset, dest, base } => enc_i(0b0000111, 0b010, dest.0 as u32, base.0 as u32, offset.as_u32()),
        Inst::Fld { offset, dest, base } => enc_i(0b0000111, 0b011, dest.0 as u32, base.0 as u32, offset.as_u32()),
        Inst::Fsw { offset, src, base } => enc_s(0b0100111, 0b010, base.0 as u32, src.0 as u32, offset.as_u32()),
        Inst::Fsd { offset, src, base } => enc_s(0b0100111, 0b011, base.0 as u32, src.0 as u32, offset.as_u32()),
        Inst::FmaddS { rm, dest, src1, src2, src3 } => enc_r4(0b1000011, rm.to_rm(), 0b00, dest.0 as u32, src1.0 as u32, src2.0 as u32, src3.0 as u32),
        Inst::FmsubS { rm, dest, src1, src2, src3 } => enc_r4(0b1000111, rm.to_rm(), 0b00, dest.0 as u32, src1.0 as u32, src2.0 as u32, src3.0 as u32),
        Inst::FnmsubS { rm, dest, src1, src2, src3 } => enc_r4(0b1001011, rm.to_rm(), 0b00, dest.0 as u32, src1.0 as u32, src2.0 as u32, src3.0 as u32),
        Inst::FnmaddS { rm, dest, src1, src2, src3 } => enc_r4(0b1001111, rm.to_rm(), 0b00, dest.0 as u32, src1.0 as u32, src2.0 as u32, src3.0 as u32),
        Inst::FmaddD { rm, dest, src1, src2, src3 } => enc_r4(0b1000011, rm.to_rm(), 0b01, dest.0 as u32, src1.0 as u32, src2.0 as u32, src3.0 as u32),
        Inst::FmsubD { rm, dest, src1, src2, src3 } => enc_r4(0b1000111, rm.to_rm(), 0b01, dest.0 as u32, src1.0 as u32, src2.0 as u32, src3.0 as u32),
        Inst::FnmsubD { rm, dest, src1, src2, src3 } => enc_r4(0b1001011, rm.to_rm(), 0b01, dest.0 as u32, src1.0 as u32, src2.0 as u32, src3.0 as u32),
        Inst::FnmaddD { rm, dest, src1, src2, src3 } => enc_r4(0b1001111, rm.to_rm(), 0b01, dest.0 as u32, src1.0 as u32, src2.0 as u32, src3.0 as u32),
        Inst::FaddS { rm, dest, src1, src2 } => enc_r(0b1010011, rm.to_rm(), 0b0000000, dest.0 as u32, src1.0 as u32, src2.0 as u32),
        Inst::FsubS { rm, dest, src1, src2 } => enc_r(0b1010011, rm.to_rm(), 0b0000100, dest.0 as u32, src1.0 as u32, src2.0 as u32),
        Inst::FmulS { rm, dest, src1, src2 } => enc_r(0b1010011, rm.to_rm(), 0b0001000, dest.0 as u32, src1.0 as u32, src2.0 as u32),
        Inst::FdivS { rm, dest, src1, src2 } => enc_r(0b1010011, rm.to_rm(), 0b0001100, dest.0 as u32, src1.0 as u32, src2.0 as u32),
        Inst::FsqrtS { rm, dest, src } => enc_r(0b1010011, rm.to_rm(), 0b0101100, dest.0 as u32, src.0 as u32, 0),
        Inst::FsgnjS { dest, src1, src2 } => enc_r(0b1010011, 0b000, 0b0010000, dest.0 as u32, src1.0 as u32, src2.0 as u32),
        Inst::FsgnjnS { dest, src1, src2 } => enc_r(0b1010011, 0b001, 0b0010000, dest.0 as u32, src1.0 as u32, src2.0 as u32),
        Inst::FsgnjxS { dest, src1, src2 } => enc_r(0b1010011, 0b010, 0b0010000, dest.0 as u32, src1.0 as u32, src2.0 as u32),
        Inst::FminS { dest, src1, src2 } => enc_r(0b1010011, 0b000, 0b0010100, dest.0 as u32, src1.0 as u32, src2.0 as u32),
        Inst::FmaxS { dest, src1, src2 } => enc_r(0b1010011, 0b001, 0b0010100, dest.0 as u32, src1.0 as u32, src2.0 as u32),
        Inst::FcvtWS { rm, dest, src } => enc_r(0b1010011, rm.to_rm(), 0b1100000, dest.0 as u32, src.0 as u32, 0),
        Inst::FcvtWuS { rm, dest, src } => enc_r(0b1010011, rm.to_rm(), 0b1100000, dest.0 as u32, src.0 as u32, 1),
        Inst::FmvXW { dest, src } => enc_r(0b1010011, 0b000, 0b1110000, dest.0 as u32, src.0 as u32, 0),
        Inst::FeqS { dest, src1, src2 } => enc_r(0b1010011, 0b010, 0b1010000, dest.0 as u32, src1.0 as u32, src2.0 as u32),
        Inst::FltS { dest, src1, src2 } => enc_r(0b1010011, 0b001, 0b1010000, dest.0 as u32, src1.0 as u32, src2.0 as u32),
        Inst::FleS { dest, src1, src2 } => enc_r(0b1010011, 0b000, 0b1010000, dest.0 as u32, src1.0 as u32, src2.0 as u32),
        Inst::FclassS { dest, src } => enc_r(0b1010011, 0b001, 0b1110000, dest.0 as u32, src.0 as u32, 0),
        Inst::FcvtSW { rm, dest, src } => enc_r(0b1010011, rm.to_rm(), 0b1101000, dest.0 as u32, src.0 as u32, 0),
        Inst::FcvtSWu { rm, dest, src } => enc_r(0b1010011, rm.to_rm(), 0b1101000, dest.0 as u32, src.0 as u32, 1),
        Inst::FmvWX { dest, src } => enc_r(0b1010011, 0b000, 0b1111000, dest.0 as u32, src.0 as u32, 0),
        Inst::FcvtSD { rm, dest, src } => enc_r(0b1010011, rm.to_rm(), 0b0100000, dest.0 as u32, src.0 as u32, 1),
        Inst::FcvtDS { rm, dest, src } => enc_r(0b1010011, rm.to_rm(), 0b0100001, dest.0 as u32, src.0 as u32, 0),
        Inst::FaddD { rm, dest, src1, src2 } => enc_r(0b1010011, rm.to_rm(), 0b0000001, dest.0 as u32, src1.0 as u32, src2.0 as u32),
        Inst::FsubD { rm, dest, src1, src2 } => enc_r(0b1010011, rm.to_rm(), 0b0000101, dest.0 as u32, src1.0 as u32, src2.0 as u32),
        Inst::FmulD { rm, dest, src1, src2 } => enc_r(0b1010011, rm.to_rm(), 0b0001001, dest.0 as u32, src1.0 as u32, src2.0 as u32),
        Inst::FdivD { rm, dest, src1, src2 } => enc_r(0b1010011, rm.to_rm(), 0b0001101, dest.0 as u32, src1.0 as u32, src2.0 as u32),
        Inst::FsqrtD { rm, dest, src } => enc_r(0b1010011, rm.to_rm(), 0b0101101, dest.0 as u32, src.0 as u32, 0),
        Inst::FsgnjD { dest, src1, src2 } => enc_r(0b1010011, 0b000, 0b0010001, dest.0 as u32, src1.0 as u32, src2.0 as u32),
        Inst::FsgnjnD { dest, src1, src2 } => enc_r(0b1010011, 0b001, 0b0010001, dest.0 as u32, src1.0 as u32, src2.0 as u32),
        Inst::FsgnjxD { dest, src1, src2 } => enc_r(0b1010011, 0b010, 0b0010001, dest.0 as u32, src1.0 as u32, src2.0 as u32),
        Inst::FminD { dest, src1, src2 } => enc_r(0b1010011, 0b000, 0b0010101, dest.0 as u32, src1.0 as u32, src2.0 as u32),
        Inst::FmaxD { dest, src1, src2 } => enc_r(0b1010011, 0b001, 0b0010101, dest.0 as u32, src1.0 as u32, src2.0 as u32),
        Inst::FeqD { dest, src1, src2 } => enc_r(0b1010011, 0b010, 0b1010001, dest.0 as u32, src1.0 as u32, src2.0 as u32),
        Inst::FltD { dest, src1, src2 } => enc_r(0b1010011, 0b001, 0b1010001, dest.0 as u32, src1.0 as u32, src2.0 as u32),
        Inst::FleD { dest, src1, src2 } => enc_r(0b1010011, 0b000, 0b1010001, dest.0 as u32, src1.0 as u32, src2.0 as u32),
        Inst::FclassD { dest, src } => enc_r(0b1010011, 0b001, 0b1110001, dest.0 as u32, src.0 as u32, 0),
        Inst::FmvXD { dest, src } => enc_r(0b1010011, 0b000, 0b1110001, dest.0 as u32, src.0 as u32, 0),
        Inst::FcvtWD { rm, dest, src } => enc_r(0b1010011, rm.to_rm(), 0b1100001, dest.0 as u32, src.0 as u32, 0),
        Inst::FcvtWuD { rm, dest, src } => enc_r(0b1010011, rm.to_rm(), 0b1100001, dest.0 as u32, src.0 as u32, 1),
        Inst::FcvtLS { rm, dest, src } => enc_r(0b1010011, rm.to_rm(), 0b1100000, dest.0 as u32, src.0 as u32, 2),
        Inst::FcvtLuS { rm, dest, src } => enc_r(0b1010011, rm.to_rm(), 0b1100000, dest.0 as u32, src.0 as u32, 3),
        Inst::FcvtLD { rm, dest, src } => enc_r(0b1010011, rm.to_rm(), 0b1100001, dest.0 as u32, src.0 as u32, 2),
        Inst::FcvtLuD { rm, dest, src } => enc_r(0b1010011, rm.to_rm(), 0b1100001, dest.0 as u32, src.0 as u32, 3),
        Inst::FcvtDW { rm, dest, src } => enc_r(0b1010011, rm.to_rm(), 0b1101001, dest.0 as u32, src.0 as u32, 0),
        Inst::FcvtDWu { rm, dest, src } => enc_r(0b1010011, rm.to_rm(), 0b1101001, dest.0 as u32, src.0 as u32, 1),
        Inst::FcvtSL { rm, dest, src } => enc_r(0b1010011, rm.to_rm(), 0b1101000, dest.0 as u32, src.0 as u32, 2),
        Inst::FcvtSLu { rm, dest, src } => enc_r(0b1010011, rm.to_rm(), 0b1101000, dest.0 as u32, src.0 as u32, 3),
        Inst::FcvtDL { rm, dest, src } => enc_r(0b1010011, rm.to_rm(), 0b1101001, dest.0 as u32, src.0 as u32, 2),
        Inst::FcvtDLu { rm, dest, src } => enc_r(0b1010011, rm.to_rm(), 0b1101001, dest.0 as u32, src.0 as u32, 3),
        Inst::FmvDX { dest, src } => enc_r(0b1010011, 0b000, 0b1111001, dest.0 as u32, src.0 as u32, 0),
        }
    }
}

} // verus!
