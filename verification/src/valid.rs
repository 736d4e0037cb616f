use vstd::prelude::*;

use crate::bits::c_ext;
use crate::bits::c_lui_imm;
use crate::bits::s_fmt;
use crate::bits::s_frs3;
use crate::bits::s_funct3;
use crate::bits::s_funct6;
use crate::bits::s_funct7;
use crate::bits::s_imm_i;
use crate::bits::s_opcode;
use crate::bits::s_rd;
use crate::bits::s_rs1;
use crate::bits::s_rs2;
use crate::xlen::Xlen;

verus! {

// ---------------------------------------------------------------------------
// Exactly which 32-bit words decode. The decoder returns an instruction for
// a word if and only if the word satisfies `word_valid`; everything else is
// rejected with a structured error.
// ---------------------------------------------------------------------------

/// Whether a 3-bit rounding-mode field holds one of the defined modes.
/// The values `101` and `110` are reserved.
pub open spec fn rm_field_valid(v: u32) -> bool {
    v == 0 || v == 1 || v == 2 || v == 3 || v == 4 || v == 7
}

/// JALR: only the zero minor opcode is defined.
pub open spec fn jalr_valid(w: u32) -> bool {
    s_funct3(w) == 0
}

/// BRANCH: six comparisons; `010` and `011` are reserved.
pub open spec fn branch_valid(w: u32) -> bool {
    let f3 = s_funct3(w);
    f3 == 0 || f3 == 1 || f3 == 4 || f3 == 5 || f3 == 6 || f3 == 7
}

/// LOAD: byte, half and word forms everywhere; `ld` and `lwu` only on RV64.
pub open spec fn load_valid(w: u32, xlen: Xlen) -> bool {
    let f3 = s_funct3(w);
    f3 == 0 || f3 == 1 || f3 == 2 || f3 == 4 || f3 == 5 || (xlen == Xlen::Rv64 && (f3 == 3 || f3
        == 6))
}

/// STORE: byte, half and word forms everywhere; `sd` only on RV64.
pub open spec fn store_valid(w: u32, xlen: Xlen) -> bool {
    let f3 = s_funct3(w);
    f3 == 0 || f3 == 1 || f3 == 2 || (xlen == Xlen::Rv64 && f3 == 3)
}

/// OP-IMM: the shift immediates constrain the upper bits, whose width
/// depends on the register width; everything else is total.
pub open spec fn op_imm_valid(w: u32, xlen: Xlen) -> bool {
    let f3 = s_funct3(w);
    if f3 == 1 {
        if xlen == Xlen::Rv32 {
            s_funct7(w) == 0
        } else {
            s_funct6(w) == 0
        }
    } else if f3 == 5 {
        if xlen == Xlen::Rv32 {
            s_funct7(w) == 0 || s_funct7(w) == 0b0100000
        } else {
            s_funct6(w) == 0 || s_funct6(w) == 0b010000
        }
    } else {
        true
    }
}

/// OP-IMM-32: RV64 only; `addiw` and the three word-sized shifts.
pub open spec fn op_imm_32_valid(w: u32, xlen: Xlen) -> bool {
    let f3 = s_funct3(w);
    let f7 = s_funct7(w);
    xlen == Xlen::Rv64 && (f3 == 0 || (f3 == 1 && f7 == 0) || (f3 == 5 && (f7 == 0 || f7
        == 0b0100000)))
}

/// OP: the base register-register operations and the M extension.
pub open spec fn op_valid(w: u32) -> bool {
    let f3 = s_funct3(w);
    let f7 = s_funct7(w);
    f7 == 0 || f7 == 1 || (f7 == 0b0100000 && (f3 == 0 || f3 == 5))
}

/// OP-32: RV64 only; the word-sized arithmetic of the base ISA and M.
pub open spec fn op_32_valid(w: u32, xlen: Xlen) -> bool {
    let f3 = s_funct3(w);
    let f7 = s_funct7(w);
    xlen == Xlen::Rv64 && ((f7 == 0 && (f3 == 0 || f3 == 1 || f3 == 5)) || (f7 == 0b0100000 && (f3
        == 0 || f3 == 5)) || (f7 == 1 && (f3 == 0 || f3 == 4 || f3 == 5 || f3 == 6 || f3 == 7)))
}

/// MISC-MEM: only the fence, which accepts every mode and set combination.
pub open spec fn misc_mem_valid(w: u32) -> bool {
    s_funct3(w) == 0
}

/// SYSTEM: `ecall` and `ebreak` with all other fields zero, and the six CSR
/// forms; the defined illegal instruction (`unimp`) is rejected.
pub open spec fn system_valid(w: u32) -> bool {
    w != 0xC0001073 && (if s_funct3(w) == 0 {
        s_rd(w) == 0 && s_rs1(w) == 0 && (s_imm_i(w) == 0 || s_imm_i(w) == 1)
    } else {
        s_funct3(w) != 4
    })
}

/// AMO: word width only; `lr.w` demands a zero rs2; the operation field
/// must name one of the defined operations.
pub open spec fn amo_valid(w: u32) -> bool {
    let kind = s_frs3(w);
    s_funct3(w) == 2 && (if kind == 0b00010 {
        s_rs2(w) == 0
    } else {
        kind == 0b00011 || kind == 0b00001 || kind == 0b00000 || kind == 0b00100 || kind == 0b01100
            || kind == 0b01000 || kind == 0b10000 || kind == 0b10100 || kind == 0b11000 || kind
            == 0b11100
    })
}

/// LOAD-FP / STORE-FP: word and double forms.
pub open spec fn fp_mem_valid(w: u32) -> bool {
    let f3 = s_funct3(w);
    f3 == 2 || f3 == 3
}

/// The fused multiply-add family: a defined rounding mode and a single- or
/// double-precision format field.
pub open spec fn fma_valid(w: u32) -> bool {
    rm_field_valid(s_funct3(w)) && (s_fmt(w) == 0 || s_fmt(w) == 1)
}

/// OP-FP with the single-precision format.
pub open spec fn op_fp_s_valid(w: u32, xlen: Xlen) -> bool {
    let f7 = s_funct7(w);
    let f3 = s_funct3(w);
    let rs2 = s_rs2(w);
    if f7 == 0b0000000 || f7 == 0b0000100 || f7 == 0b0001000 || f7 == 0b0001100 {
        rm_field_valid(f3)
    } else if f7 == 0b0101100 {
        rs2 == 0 && rm_field_valid(f3)
    } else if f7 == 0b0010000 {
        f3 == 0 || f3 == 1 || f3 == 2
    } else if f7 == 0b0010100 {
        f3 == 0 || f3 == 1
    } else if f7 == 0b1100000 || f7 == 0b1101000 {
        rm_field_valid(f3) && (rs2 == 0 || rs2 == 1 || (xlen == Xlen::Rv64 && (rs2 == 2 || rs2
            == 3)))
    } else if f7 == 0b1110000 {
        (f3 == 0 || f3 == 1) && rs2 == 0
    } else if f7 == 0b1010000 {
        f3 == 0 || f3 == 1 || f3 == 2
    } else if f7 == 0b1111000 {
        f3 == 0 && rs2 == 0
    } else if f7 == 0b0100000 {
        rs2 == 1 && rm_field_valid(f3)
    } else {
        false
    }
}

/// OP-FP with the double-precision format.
pub open spec fn op_fp_d_valid(w: u32, xlen: Xlen) -> bool {
    let f7 = s_funct7(w);
    let f3 = s_funct3(w);
    let rs2 = s_rs2(w);
    if f7 == 0b0000001 || f7 == 0b0000101 || f7 == 0b0001001 || f7 == 0b0001101 {
        rm_field_valid(f3)
    } else if f7 == 0b0101101 || f7 == 0b0100001 {
        rs2 == 0 && rm_field_valid(f3)
    } else if f7 == 0b0010001 {
        f3 == 0 || f3 == 1 || f3 == 2
    } else if f7 == 0b0010101 {
        f3 == 0 || f3 == 1
    } else if f7 == 0b1010001 {
        f3 == 0 || f3 == 1 || f3 == 2
    } else if f7 == 0b1110001 {
        (f3 == 0 && xlen == Xlen::Rv64 && rs2 == 0) || (f3 == 1 && rs2 == 0)
    } else if f7 == 0b1100001 || f7 == 0b1101001 {
        rm_field_valid(f3) && (rs2 == 0 || rs2 == 1 || (xlen == Xlen::Rv64 && (rs2 == 2 || rs2
            == 3)))
    } else if f7 == 0b1111001 {
        xlen == Xlen::Rv64 && f3 == 0 && rs2 == 0
    } else {
        false
    }
}

/// OP-FP: dispatch on the format field.
pub open spec fn op_fp_valid(w: u32, xlen: Xlen) -> bool {
    if s_fmt(w) == 0 {
        op_fp_s_valid(w, xlen)
    } else if s_fmt(w) == 1 {
        op_fp_d_valid(w, xlen)
    } else {
        false
    }
}

/// Whether an uncompressed 32-bit word is a defined encoding for the given
/// register width: [`crate::Inst::decode_normal`] returns an instruction for
/// exactly these words.
pub open spec fn word_valid(w: u32, xlen: Xlen) -> bool {
    let op = s_opcode(w);
    if op == 0b0110111 || op == 0b0010111 || op == 0b1101111 {
        true
    } else if op == 0b1100111 {
        jalr_valid(w)
    } else if op == 0b1100011 {
        branch_valid(w)
    } else if op == 0b0000011 {
        load_valid(w, xlen)
    } else if op == 0b0100011 {
        store_valid(w, xlen)
    } else if op == 0b0010011 {
        op_imm_valid(w, xlen)
    } else if op == 0b0011011 {
        op_imm_32_valid(w, xlen)
    } else if op == 0b0110011 {
        op_valid(w)
    } else if op == 0b0111011 {
        op_32_valid(w, xlen)
    } else if op == 0b0001111 {
        misc_mem_valid(w)
    } else if op == 0b1110011 {
        system_valid(w)
    } else if op == 0b0101111 {
        amo_valid(w)
    } else if op == 0b0000111 || op == 0b0100111 {
        fp_mem_valid(w)
    } else if op == 0b1000011 || op == 0b1000111 || op == 0b1001011 || op == 0b1001111 {
        fma_valid(w)
    } else if op == 0b1010011 {
        op_fp_valid(w, xlen)
    } else {
        false
    }
}

// ---------------------------------------------------------------------------
// Exactly which 16-bit words decode.
// ---------------------------------------------------------------------------

/// Quadrant `00`: C.ADDI4SPN demands a nonzero immediate; the word load and
/// store forms are total, and the doubleword forms exist only on RV64; the
/// rest of the quadrant is reserved or belongs to unsupported extensions.
pub open spec fn c0_valid(w: u16, xlen: Xlen) -> bool {
    let f3 = c_ext(w, 13, 3);
    if f3 == 0 {
        (c_ext(w, 5, 1) << 3) | (c_ext(w, 6, 1) << 2) | (c_ext(w, 7, 4) << 6) | (c_ext(w, 11, 2)
            << 4) != 0
    } else if f3 == 3 || f3 == 7 {
        xlen == Xlen::Rv64
    } else {
        f3 == 2 || f3 == 6
    }
}

/// Quadrant `01`: C.LUI demands a nonzero immediate, and the shift and
/// arithmetic forms demand a zero bit 12; the immediate and branch forms are
/// total.
pub open spec fn c1_valid(w: u16) -> bool {
    let f3 = c_ext(w, 13, 3);
    if f3 == 3 {
        c_ext(w, 7, 5) == 2 || c_lui_imm(w) != 0
    } else if f3 == 4 {
        let funct2 = c_ext(w, 10, 2);
        funct2 == 2 || c_ext(w, 12, 1) == 0
    } else {
        true
    }
}

/// Quadrant `10`: C.SLLI demands a zero bit 12, the stack loads a nonzero
/// destination, C.JR a nonzero base; the doubleword forms exist only on
/// RV64.
pub open spec fn c2_valid(w: u16, xlen: Xlen) -> bool {
    let f3 = c_ext(w, 13, 3);
    if f3 == 0 {
        c_ext(w, 12, 1) == 0
    } else if f3 == 2 {
        c_ext(w, 7, 5) != 0
    } else if f3 == 3 {
        xlen == Xlen::Rv64 && c_ext(w, 7, 5) != 0
    } else if f3 == 4 {
        c_ext(w, 12, 1) == 1 || c_ext(w, 2, 5) != 0 || c_ext(w, 7, 5) != 0
    } else if f3 == 6 {
        true
    } else if f3 == 7 {
        xlen == Xlen::Rv64
    } else {
        false
    }
}

/// Whether a 16-bit word is a defined compressed encoding for the given
/// register width: [`crate::Inst::decode_compressed`] returns an instruction
/// for exactly these words. The all-zero word and quadrant `11` never
/// decode.
pub open spec fn cword_valid(w: u16, xlen: Xlen) -> bool {
    let q = c_ext(w, 0, 2);
    w != 0 && (if q == 0 {
        c0_valid(w, xlen)
    } else if q == 1 {
        c1_valid(w)
    } else if q == 2 {
        c2_valid(w, xlen)
    } else {
        false
    })
}

} // verus!
