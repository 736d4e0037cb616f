use vstd::prelude::*;

use crate::imm::Imm;
use crate::reg::Csr;
use crate::reg::FReg;
use crate::reg::Reg;

verus! {

broadcast use crate::mask::lemma_and_mask_le;

// ---------------------------------------------------------------------------
// The fixed bit fields of an uncompressed 32-bit instruction word.
// ---------------------------------------------------------------------------

/// The 7-bit major opcode, bits 6..0.
pub open spec fn s_opcode(w: u32) -> u32 {
    w & 0x7f
}

/// The destination register field, bits 11..7.
pub open spec fn s_rd(w: u32) -> u32 {
    (w >> 7) & 0x1f
}

/// The minor opcode, bits 14..12.
pub open spec fn s_funct3(w: u32) -> u32 {
    (w >> 12) & 0x7
}

/// The first source register field, bits 19..15.
pub open spec fn s_rs1(w: u32) -> u32 {
    (w >> 15) & 0x1f
}

/// The second source register field, bits 24..20.
pub open spec fn s_rs2(w: u32) -> u32 {
    (w >> 20) & 0x1f
}

/// The upper minor opcode, bits 31..25.
pub open spec fn s_funct7(w: u32) -> u32 {
    (w >> 25) & 0x7f
}

/// The upper six bits, 31..26: the minor opcode of an RV64 shift-immediate.
pub open spec fn s_funct6(w: u32) -> u32 {
    (w >> 26) & 0x3f
}

/// The 6-bit shift amount of an RV64 shift-immediate, bits 25..20.
pub open spec fn s_shamt6(w: u32) -> u32 {
    (w >> 20) & 0x3f
}

/// The 12-bit CSR address, bits 31..20.
pub open spec fn s_csr_field(w: u32) -> u32 {
    (w >> 20) & 0xfff
}

/// The 2-bit FP format field, bits 26..25.
pub open spec fn s_fmt(w: u32) -> u32 {
    (w >> 25) & 0x3
}

/// The third FP source register field, bits 31..27; also the 5-bit
/// operation field of an AMO instruction.
pub open spec fn s_frs3(w: u32) -> u32 {
    (w >> 27) & 0x1f
}

/// The 4-bit fence mode field, bits 31..28.
pub open spec fn s_fm(w: u32) -> u32 {
    (w >> 28) & 0xf
}

/// A single bit of the word.
pub open spec fn s_bit(w: u32, i: u32) -> bool
    recommends
        i < 32,
{
    (w >> i) & 1 == 1
}

// ---------------------------------------------------------------------------
// The immediates, gathered from their scattered bit ranges and sign-extended
// to 32 bits.
// ---------------------------------------------------------------------------

/// The I-type immediate, bits 31..20, sign-extended.
pub open spec fn s_imm_i(w: u32) -> u32 {
    let v = (w >> 20) & 0xfff;
    if v & 0x800 != 0 {
        v | 0xfffff000
    } else {
        v
    }
}

/// The S-type immediate: bits 31..25 and 11..7, sign-extended.
pub open spec fn s_imm_s(w: u32) -> u32 {
    let v = (((w >> 25) & 0x7f) << 5) | ((w >> 7) & 0x1f);
    if v & 0x800 != 0 {
        v | 0xfffff000
    } else {
        v
    }
}

/// The B-type immediate: bit 31 is bit 12, bit 7 is bit 11, bits 30..25 are
/// bits 10..5, bits 11..8 are bits 4..1; sign-extended. Bit 0 is zero.
pub open spec fn s_imm_b(w: u32) -> u32 {
    let v = (((w >> 31) & 1) << 12) | (((w >> 7) & 1) << 11) | (((w >> 25) & 0x3f) << 5) | (((w
        >> 8) & 0xf) << 1);
    if v & 0x1000 != 0 {
        v | 0xffffe000
    } else {
        v
    }
}

/// The U-type immediate: bits 31..12, already shifted left by 12.
pub open spec fn s_imm_u(w: u32) -> u32 {
    w & 0xfffff000
}

/// The J-type immediate: bit 31 is bit 20, bits 30..21 are bits 10..1,
/// bit 20 is bit 11, bits 19..12 are bits 19..12; sign-extended. Bit 0 is zero.
pub open spec fn s_imm_j(w: u32) -> u32 {
    let v = (((w >> 31) & 1) << 20) | (((w >> 21) & 0x3ff) << 1) | (((w >> 20) & 1) << 11) | (((w
        >> 12) & 0xff) << 12);
    if v & 0x100000 != 0 {
        v | 0xffe00000
    } else {
        v
    }
}

// ---------------------------------------------------------------------------
// The canonical encodings: one builder per instruction format. Every field is
// masked to its width, so the builders are total.
// ---------------------------------------------------------------------------

/// One bit from a boolean.
pub open spec fn b2u(b: bool) -> u32 {
    if b {
        1
    } else {
        0
    }
}

/// R-type: register-register operations.
pub open spec fn e_r(op: u32, f3: u32, f7: u32, rd: u32, rs1: u32, rs2: u32) -> u32 {
    (op & 0x7f) | ((rd & 0x1f) << 7) | ((f3 & 0x7) << 12) | ((rs1 & 0x1f) << 15) | ((rs2 & 0x1f)
        << 20) | ((f7 & 0x7f) << 25)
}

/// I-type: 12-bit immediate in bits 31..20. Also the CSR format, whose
/// address occupies the same bits zero-extended.
pub open spec fn e_i(op: u32, f3: u32, rd: u32, rs1: u32, imm: u32) -> u32 {
    (op & 0x7f) | ((rd & 0x1f) << 7) | ((f3 & 0x7) << 12) | ((rs1 & 0x1f) << 15) | ((imm & 0xfff)
        << 20)
}

/// S-type: stores, immediate split across bits 31..25 and 11..7.
pub open spec fn e_s(op: u32, f3: u32, rs1: u32, rs2: u32, imm: u32) -> u32 {
    (op & 0x7f) | ((imm & 0x1f) << 7) | ((f3 & 0x7) << 12) | ((rs1 & 0x1f) << 15) | ((rs2 & 0x1f)
        << 20) | (((imm >> 5) & 0x7f) << 25)
}

/// B-type: branches, scrambled 13-bit immediate.
pub open spec fn e_b(op: u32, f3: u32, rs1: u32, rs2: u32, imm: u32) -> u32 {
    (op & 0x7f) | (((imm >> 11) & 1) << 7) | (((imm >> 1) & 0xf) << 8) | ((f3 & 0x7) << 12) | ((rs1
        & 0x1f) << 15) | ((rs2 & 0x1f) << 20) | (((imm >> 5) & 0x3f) << 25) | (((imm >> 12) & 1)
        << 31)
}

/// U-type: upper immediate, stored already shifted.
pub open spec fn e_u(op: u32, rd: u32, imm: u32) -> u32 {
    (op & 0x7f) | ((rd & 0x1f) << 7) | (imm & 0xfffff000)
}

/// J-type: jumps, scrambled 21-bit immediate.
pub open spec fn e_j(op: u32, rd: u32, imm: u32) -> u32 {
    (op & 0x7f) | ((rd & 0x1f) << 7) | (((imm >> 12) & 0xff) << 12) | (((imm >> 11) & 1) << 20) | ((
    (imm >> 1) & 0x3ff) << 21) | (((imm >> 20) & 1) << 31)
}

/// R4-type: fused multiply-add, three sources plus a rounding mode and format.
pub open spec fn e_r4(op: u32, rm: u32, fmt: u32, rd: u32, rs1: u32, rs2: u32, rs3: u32) -> u32 {
    (op & 0x7f) | ((rd & 0x1f) << 7) | ((rm & 0x7) << 12) | ((rs1 & 0x1f) << 15) | ((rs2 & 0x1f)
        << 20) | ((fmt & 0x3) << 25) | ((rs3 & 0x1f) << 27)
}

/// RV64 shift-immediate: 6-bit shift amount below a 6-bit minor opcode.
pub open spec fn e_sh64(op: u32, f3: u32, f6: u32, rd: u32, rs1: u32, shamt: u32) -> u32 {
    (op & 0x7f) | ((rd & 0x1f) << 7) | ((f3 & 0x7) << 12) | ((rs1 & 0x1f) << 15) | ((shamt & 0x3f)
        << 20) | ((f6 & 0x3f) << 26)
}

/// AMO: R-type with the upper seven bits split into operation, `aq` and `rl`.
pub open spec fn e_amo(
    op: u32,
    f3: u32,
    kind: u32,
    aq: bool,
    rl: bool,
    rd: u32,
    rs1: u32,
    rs2: u32,
) -> u32 {
    (op & 0x7f) | ((rd & 0x1f) << 7) | ((f3 & 0x7) << 12) | ((rs1 & 0x1f) << 15) | ((rs2 & 0x1f)
        << 20) | (b2u(rl) << 25) | (b2u(aq) << 26) | ((kind & 0x1f) << 27)
}

/// FENCE: mode, predecessor set, successor set, and the reserved rd/rs1.
pub open spec fn e_fence(
    op: u32,
    f3: u32,
    fm: u32,
    pdi: bool,
    pdo: bool,
    pr: bool,
    pw: bool,
    sdi: bool,
    sdo: bool,
    sr: bool,
    sw: bool,
    rd: u32,
    rs1: u32,
) -> u32 {
    (op & 0x7f) | ((rd & 0x1f) << 7) | ((f3 & 0x7) << 12) | ((rs1 & 0x1f) << 15) | (b2u(sw) << 20)
        | (b2u(sr) << 21) | (b2u(sdo) << 22) | (b2u(sdi) << 23) | (b2u(pw) << 24) | (b2u(pr) << 25)
        | (b2u(pdo) << 26) | (b2u(pdi) << 27) | ((fm & 0xf) << 28)
}

// ---------------------------------------------------------------------------
// The value windows of the gathered immediates: each is the sign extension
// of its field width, and the control-flow offsets are even. These shape the
// canonical form of a decoded instruction.
// ---------------------------------------------------------------------------

/// A sign-extended twelve-bit value: bits 31..11 are all equal.
pub open spec fn is_sext12(v: u32) -> bool {
    v >> 11 == 0 || v >> 11 == 0x1fffff
}

/// A sign-extended thirteen-bit value with a zero lowest bit: a branch
/// offset.
pub open spec fn is_sext13_even(v: u32) -> bool {
    (v >> 12 == 0 || v >> 12 == 0xfffff) && v & 1 == 0
}

/// A sign-extended 21-bit value with a zero lowest bit: a jump offset.
pub open spec fn is_sext21_even(v: u32) -> bool {
    (v >> 20 == 0 || v >> 20 == 0xfff) && v & 1 == 0
}

// ---------------------------------------------------------------------------
// Exactness: rebuilding a word from its own fields gives the word back.
// One lemma per format; together they make the decoder a partial inverse of
// the canonical encoding.
// ---------------------------------------------------------------------------

/// R-type exactness.
pub proof fn lemma_dec_r(w: u32)
    by (bit_vector)
    ensures
        e_r(s_opcode(w), s_funct3(w), s_funct7(w), s_rd(w), s_rs1(w), s_rs2(w)) == w,
{
}

/// I-type exactness, with the sign-extended immediate.
pub proof fn lemma_dec_i(w: u32)
    by (bit_vector)
    ensures
        e_i(s_opcode(w), s_funct3(w), s_rd(w), s_rs1(w), s_imm_i(w)) == w,
        is_sext12(s_imm_i(w)),
{
}

/// CSR-format exactness: the address field is read zero-extended.
pub proof fn lemma_dec_csr(w: u32)
    by (bit_vector)
    ensures
        e_i(s_opcode(w), s_funct3(w), s_rd(w), s_rs1(w), s_csr_field(w)) == w,
{
}

/// S-type exactness.
pub proof fn lemma_dec_s(w: u32)
    by (bit_vector)
    ensures
        e_s(s_opcode(w), s_funct3(w), s_rs1(w), s_rs2(w), s_imm_s(w)) == w,
        is_sext12(s_imm_s(w)),
{
}

/// B-type exactness.
pub proof fn lemma_dec_b(w: u32)
    by (bit_vector)
    ensures
        e_b(s_opcode(w), s_funct3(w), s_rs1(w), s_rs2(w), s_imm_b(w)) == w,
        is_sext13_even(s_imm_b(w)),
{
}

/// U-type exactness.
pub proof fn lemma_dec_u(w: u32)
    by (bit_vector)
    ensures
        e_u(s_opcode(w), s_rd(w), s_imm_u(w)) == w,
        s_imm_u(w) & 0xfff == 0,
{
}

/// J-type exactness.
pub proof fn lemma_dec_j(w: u32)
    by (bit_vector)
    ensures
        e_j(s_opcode(w), s_rd(w), s_imm_j(w)) == w,
        is_sext21_even(s_imm_j(w)),
{
}

/// R4-type exactness.
pub proof fn lemma_dec_r4(w: u32)
    by (bit_vector)
    ensures
        e_r4(s_opcode(w), s_funct3(w), s_fmt(w), s_rd(w), s_rs1(w), s_rs2(w), s_frs3(w)) == w,
{
}

/// RV64 shift-immediate exactness.
pub proof fn lemma_dec_sh64(w: u32)
    by (bit_vector)
    ensures
        e_sh64(s_opcode(w), s_funct3(w), s_funct6(w), s_rd(w), s_rs1(w), s_shamt6(w)) == w,
        s_funct7(w) >> 1 == s_funct6(w),
{
}

/// AMO exactness.
pub proof fn lemma_dec_amo(w: u32)
    by (bit_vector)
    ensures
        e_amo(
            s_opcode(w),
            s_funct3(w),
            s_frs3(w),
            s_bit(w, 26),
            s_bit(w, 25),
            s_rd(w),
            s_rs1(w),
            s_rs2(w),
        ) == w,
{
}

/// FENCE exactness.
pub proof fn lemma_dec_fence(w: u32)
    by (bit_vector)
    ensures
        e_fence(
            s_opcode(w),
            s_funct3(w),
            s_fm(w),
            s_bit(w, 27),
            s_bit(w, 26),
            s_bit(w, 25),
            s_bit(w, 24),
            s_bit(w, 23),
            s_bit(w, 22),
            s_bit(w, 21),
            s_bit(w, 20),
            s_rd(w),
            s_rs1(w),
        ) == w,
{
}

// ---------------------------------------------------------------------------
// Reading fields back out of the canonical builders.
// ---------------------------------------------------------------------------

/// The fields of an R-type encoding.
pub proof fn lemma_e_r_fields(op: u32, f3: u32, f7: u32, rd: u32, rs1: u32, rs2: u32)
    by (bit_vector)
    requires
        op < 0x80,
        f3 < 8,
        f7 < 0x80,
        rs2 < 32,
    ensures
        s_opcode(e_r(op, f3, f7, rd, rs1, rs2)) == op,
        s_funct3(e_r(op, f3, f7, rd, rs1, rs2)) == f3,
        s_funct7(e_r(op, f3, f7, rd, rs1, rs2)) == f7,
        s_funct6(e_r(op, f3, f7, rd, rs1, rs2)) == f7 >> 1,
        s_fmt(e_r(op, f3, f7, rd, rs1, rs2)) == f7 % 4,
        s_rs2(e_r(op, f3, f7, rd, rs1, rs2)) == rs2,
{
}

/// The fields of an I-type encoding.
pub proof fn lemma_e_i_fields(op: u32, f3: u32, rd: u32, rs1: u32, imm: u32)
    by (bit_vector)
    requires
        op < 0x80,
        f3 < 8,
        rd < 32,
        rs1 < 32,
    ensures
        s_opcode(e_i(op, f3, rd, rs1, imm)) == op,
        s_funct3(e_i(op, f3, rd, rs1, imm)) == f3,
        s_rd(e_i(op, f3, rd, rs1, imm)) == rd,
        s_rs1(e_i(op, f3, rd, rs1, imm)) == rs1,
        imm < 0x1000 ==> s_csr_field(e_i(op, f3, rd, rs1, imm)) == imm,
        imm == 0 ==> s_imm_i(e_i(op, f3, rd, rs1, imm)) == 0,
        imm == 1 ==> s_imm_i(e_i(op, f3, rd, rs1, imm)) == 1,
        imm < 32 ==> s_funct7(e_i(op, f3, rd, rs1, imm)) == 0,
        imm < 64 ==> s_funct6(e_i(op, f3, rd, rs1, imm)) == 0,
{
}

/// The dispatch fields of an S-type encoding.
pub proof fn lemma_e_s_fields(op: u32, f3: u32, rs1: u32, rs2: u32, imm: u32)
    by (bit_vector)
    requires
        op < 0x80,
        f3 < 8,
    ensures
        s_opcode(e_s(op, f3, rs1, rs2, imm)) == op,
        s_funct3(e_s(op, f3, rs1, rs2, imm)) == f3,
{
}

/// The dispatch fields of a B-type encoding.
pub proof fn lemma_e_b_fields(op: u32, f3: u32, rs1: u32, rs2: u32, imm: u32)
    by (bit_vector)
    requires
        op < 0x80,
        f3 < 8,
    ensures
        s_opcode(e_b(op, f3, rs1, rs2, imm)) == op,
        s_funct3(e_b(op, f3, rs1, rs2, imm)) == f3,
{
}

/// The opcode of a U-type encoding.
pub proof fn lemma_e_u_fields(op: u32, rd: u32, imm: u32)
    by (bit_vector)
    requires
        op < 0x80,
    ensures
        s_opcode(e_u(op, rd, imm)) == op,
{
}

/// The opcode of a J-type encoding.
pub proof fn lemma_e_j_fields(op: u32, rd: u32, imm: u32)
    by (bit_vector)
    requires
        op < 0x80,
    ensures
        s_opcode(e_j(op, rd, imm)) == op,
{
}

/// The dispatch fields of an R4-type encoding.
pub proof fn lemma_e_r4_fields(op: u32, rm: u32, fmt: u32, rd: u32, rs1: u32, rs2: u32, rs3: u32)
    by (bit_vector)
    requires
        op < 0x80,
        rm < 8,
        fmt < 4,
    ensures
        s_opcode(e_r4(op, rm, fmt, rd, rs1, rs2, rs3)) == op,
        s_funct3(e_r4(op, rm, fmt, rd, rs1, rs2, rs3)) == rm,
        s_fmt(e_r4(op, rm, fmt, rd, rs1, rs2, rs3)) == fmt,
{
}

/// The dispatch fields of an RV64 shift-immediate encoding.
pub proof fn lemma_e_sh64_fields(op: u32, f3: u32, f6: u32, rd: u32, rs1: u32, shamt: u32)
    by (bit_vector)
    requires
        op < 0x80,
        f3 < 8,
        f6 < 0x40,
    ensures
        s_opcode(e_sh64(op, f3, f6, rd, rs1, shamt)) == op,
        s_funct3(e_sh64(op, f3, f6, rd, rs1, shamt)) == f3,
        s_funct6(e_sh64(op, f3, f6, rd, rs1, shamt)) == f6,
{
}

/// The dispatch fields of an AMO encoding.
pub proof fn lemma_e_amo_fields(
    op: u32,
    f3: u32,
    kind: u32,
    aq: bool,
    rl: bool,
    rd: u32,
    rs1: u32,
    rs2: u32,
)
    by (bit_vector)
    requires
        op < 0x80,
        f3 < 8,
        kind < 32,
        rs2 < 32,
    ensures
        s_opcode(e_amo(op, f3, kind, aq, rl, rd, rs1, rs2)) == op,
        s_funct3(e_amo(op, f3, kind, aq, rl, rd, rs1, rs2)) == f3,
        s_frs3(e_amo(op, f3, kind, aq, rl, rd, rs1, rs2)) == kind,
        s_rs2(e_amo(op, f3, kind, aq, rl, rd, rs1, rs2)) == rs2,
{
}

/// The dispatch fields of a FENCE encoding.
pub proof fn lemma_e_fence_fields(
    op: u32,
    f3: u32,
    fm: u32,
    pdi: bool,
    pdo: bool,
    pr: bool,
    pw: bool,
    sdi: bool,
    sdo: bool,
    sr: bool,
    sw: bool,
    rd: u32,
    rs1: u32,
)
    by (bit_vector)
    requires
        op < 0x80,
        f3 < 8,
    ensures
        s_opcode(e_fence(op, f3, fm, pdi, pdo, pr, pw, sdi, sdo, sr, sw, rd, rs1)) == op,
        s_funct3(e_fence(op, f3, fm, pdi, pdo, pr, pw, sdi, sdo, sr, sw, rd, rs1)) == f3,
{
}

/// The fields of the one reserved SYSTEM word, `unimp`, which the decoder
/// refuses.
pub proof fn lemma_unimp_word()
    by (bit_vector)
    ensures
        s_funct3(0xC0001073u32) == 1,
        s_csr_field(0xC0001073u32) == 0xC00,
        s_rd(0xC0001073u32) == 0,
        s_rs1(0xC0001073u32) == 0,
{
}

// ---------------------------------------------------------------------------
// The executable view of an uncompressed instruction word.
// ---------------------------------------------------------------------------

/// A 32-bit instruction word with named accessors for its bit fields.
#[derive(Clone, Copy)]
pub(crate) struct InstCode(pub(crate) u32);

impl InstCode {
    pub(crate) fn opcode(self) -> (r: u32)
        ensures
            r == s_opcode(self.0),
            r < 0x80,
    {
        self.0 & 0x7f
    }

    pub(crate) fn funct3(self) -> (r: u32)
        ensures
            r == s_funct3(self.0),
            r < 8,
    {
        (self.0 >> 12) & 0x7
    }

    pub(crate) fn funct7(self) -> (r: u32)
        ensures
            r == s_funct7(self.0),
            r < 0x80,
    {
        (self.0 >> 25) & 0x7f
    }

    pub(crate) fn funct6(self) -> (r: u32)
        ensures
            r == s_funct6(self.0),
            r < 0x40,
    {
        (self.0 >> 26) & 0x3f
    }

    /// The rounding-mode field of an FP instruction, bits 14..12.
    pub(crate) fn rm(self) -> (r: u32)
        ensures
            r == s_funct3(self.0),
            r < 8,
    {
        (self.0 >> 12) & 0x7
    }

    /// The FP format field, bits 26..25.
    pub(crate) fn fmt(self) -> (r: u32)
        ensures
            r == s_fmt(self.0),
            r < 4,
    {
        (self.0 >> 25) & 0x3
    }

    pub(crate) fn rd(self) -> (r: Reg)
        ensures
            r.0 == s_rd(self.0),
            r.0 < 32,
    {
        Reg(((self.0 >> 7) & 0x1f) as u8)
    }

    pub(crate) fn rs1(self) -> (r: Reg)
        ensures
            r.0 == s_rs1(self.0),
            r.0 < 32,
    {
        Reg(((self.0 >> 15) & 0x1f) as u8)
    }

    pub(crate) fn rs2(self) -> (r: Reg)
        ensures
            r.0 == s_rs2(self.0),
            r.0 < 32,
    {
        Reg(((self.0 >> 20) & 0x1f) as u8)
    }

    pub(crate) fn frd(self) -> (r: FReg)
        ensures
            r.0 == s_rd(self.0),
            r.0 < 32,
    {
        FReg(((self.0 >> 7) & 0x1f) as u8)
    }

    pub(crate) fn frs1(self) -> (r: FReg)
        ensures
            r.0 == s_rs1(self.0),
            r.0 < 32,
    {
        FReg(((self.0 >> 15) & 0x1f) as u8)
    }

    pub(crate) fn frs2(self) -> (r: FReg)
        ensures
            r.0 == s_rs2(self.0),
            r.0 < 32,
    {
        FReg(((self.0 >> 20) & 0x1f) as u8)
    }

    pub(crate) fn frs3(self) -> (r: FReg)
        ensures
            r.0 == s_frs3(self.0),
            r.0 < 32,
    {
        FReg(((self.0 >> 27) & 0x1f) as u8)
    }

    /// The rs2 field read as a 5-bit shift amount.
    pub(crate) fn rs2_imm(self) -> (r: u32)
        ensures
            r == s_rs2(self.0),
            r < 32,
    {
        (self.0 >> 20) & 0x1f
    }

    /// The 6-bit shift amount of an RV64 shift (one bit more than rs2).
    pub(crate) fn rs2_imm_plus(self) -> (r: u32)
        ensures
            r == s_shamt6(self.0),
            r < 64,
    {
        (self.0 >> 20) & 0x3f
    }

    /// The 5-bit AMO operation field, bits 31..27.
    pub(crate) fn amo_kind(self) -> (r: u32)
        ensures
            r == s_frs3(self.0),
            r < 32,
    {
        (self.0 >> 27) & 0x1f
    }

    /// The 4-bit fence mode field, bits 31..28.
    pub(crate) fn fm(self) -> (r: u32)
        ensures
            r == s_fm(self.0),
            r < 16,
    {
        (self.0 >> 28) & 0xf
    }

    /// A single bit of the word.
    pub(crate) fn bit(self, i: u32) -> (r: bool)
        requires
            i < 32,
        ensures
            r == s_bit(self.0, i),
    {
        (self.0 >> i) & 1 == 1
    }

    pub(crate) fn csr(self) -> (r: Csr)
        ensures
            r.0 == s_csr_field(self.0),
            r.0 < 4096,
    {
        Csr(((self.0 >> 20) & 0xfff) as u16)
    }

    /// The 5-bit zero-extended immediate in the rs1 field.
    pub(crate) fn zimm(self) -> (r: Imm)
        ensures
            r.low() == s_rs1(self.0),
            r.bits() == s_rs1(self.0) as u64,
            r == Imm::spec_zext32(s_rs1(self.0)),
    {
        Imm::new_u32((self.0 >> 15) & 0x1f)
    }

    pub(crate) fn imm_i(self) -> (r: Imm)
        ensures
            r.low() == s_imm_i(self.0),
            r.bits() == ((s_imm_i(self.0) as i32) as i64) as u64,
            r == Imm::spec_sext32(s_imm_i(self.0)),
    {
        let raw = (self.0 >> 20) & 0xfff;
        let v = if raw & 0x800 != 0 {
            raw | 0xfffff000
        } else {
            raw
        };
        Imm::from_sext32(v)
    }

    pub(crate) fn imm_s(self) -> (r: Imm)
        ensures
            r.low() == s_imm_s(self.0),
            r.bits() == ((s_imm_s(self.0) as i32) as i64) as u64,
            r == Imm::spec_sext32(s_imm_s(self.0)),
    {
        let raw = (((self.0 >> 25) & 0x7f) << 5) | ((self.0 >> 7) & 0x1f);
        let v = if raw & 0x800 != 0 {
            raw | 0xfffff000
        } else {
            raw
        };
        Imm::from_sext32(v)
    }

    pub(crate) fn imm_b(self) -> (r: Imm)
        ensures
            r.low() == s_imm_b(self.0),
            r.bits() == ((s_imm_b(self.0) as i32) as i64) as u64,
            r == Imm::spec_sext32(s_imm_b(self.0)),
    {
        let raw = (((self.0 >> 31) & 1) << 12) | (((self.0 >> 7) & 1) << 11) | (((self.0 >> 25)
            & 0x3f) << 5) | (((self.0 >> 8) & 0xf) << 1);
        let v = if raw & 0x1000 != 0 {
            raw | 0xffffe000
        } else {
            raw
        };
        Imm::from_sext32(v)
    }

    pub(crate) fn imm_u(self) -> (r: Imm)
        ensures
            r.low() == s_imm_u(self.0),
            r.bits() == ((s_imm_u(self.0) as i32) as i64) as u64,
            r == Imm::spec_sext32(s_imm_u(self.0)),
    {
        Imm::from_sext32(self.0 & 0xfffff000)
    }

    pub(crate) fn imm_j(self) -> (r: Imm)
        ensures
            r.low() == s_imm_j(self.0),
            r.bits() == ((s_imm_j(self.0) as i32) as i64) as u64,
            r == Imm::spec_sext32(s_imm_j(self.0)),
    {
        let raw = (((self.0 >> 31) & 1) << 20) | (((self.0 >> 21) & 0x3ff) << 1) | (((self.0 >> 20)
            & 1) << 11) | (((self.0 >> 12) & 0xff) << 12);
        let v = if raw & 0x100000 != 0 {
            raw | 0xffe00000
        } else {
            raw
        };
        Imm::from_sext32(v)
    }
}

// ---------------------------------------------------------------------------
// The executable view of a compressed 16-bit instruction word.
// ---------------------------------------------------------------------------

/// A 16-bit compressed instruction word with named accessors. The compressed
/// decoder only maps into uncompressed instruction values, so these carry
/// bounds rather than exactness facts.
#[derive(Clone, Copy)]
pub(crate) struct InstCodeC(pub(crate) u16);

impl InstCodeC {
    /// Extract `len` bits starting at bit `lo`, zero-extended.
    pub(crate) fn ext(self, lo: u32, len: u32) -> (r: u32)
        requires
            lo < 16,
            0 < len <= 16,
        ensures
            r == c_ext(self.0, lo, len),
            r <= low_mask(len),
    {
        proof {
            assert(1u32 << len >= 1) by (bit_vector)
                requires
                    len <= 16,
            ;
        }
        ((self.0 as u32) >> lo) & ((1u32 << len) - 1)
    }

    /// The two-bit quadrant, bits 1..0.
    pub(crate) fn quadrant(self) -> (r: u32)
        ensures
            r == c_ext(self.0, 0, 2),
            r < 4,
    {
        proof {
            lemma_low_mask_values();
        }
        self.ext(0, 2)
    }

    pub(crate) fn funct3(self) -> (r: u32)
        ensures
            r == c_ext(self.0, 13, 3),
            r < 8,
    {
        proof {
            lemma_low_mask_values();
        }
        self.ext(13, 3)
    }

    pub(crate) fn funct2(self) -> (r: u32)
        ensures
            r == c_ext(self.0, 10, 2),
            r < 4,
    {
        proof {
            lemma_low_mask_values();
        }
        self.ext(10, 2)
    }

    /// rd/rs1 (bits 11..7)
    pub(crate) fn rd(self) -> (r: Reg)
        ensures
            r.0 == c_ext(self.0, 7, 5),
            r.0 < 32,
    {
        proof {
            lemma_low_mask_values();
        }
        Reg(self.ext(7, 5) as u8)
    }

    /// rs2 (bits 6..2)
    pub(crate) fn rs2(self) -> (r: Reg)
        ensures
            r.0 == c_ext(self.0, 2, 5),
            r.0 < 32,
    {
        proof {
            lemma_low_mask_values();
        }
        Reg(self.ext(2, 5) as u8)
    }

    /// rs1' (bits 9..7), mapped to x8..=x15
    pub(crate) fn rs1_short(self) -> (r: Reg)
        ensures
            r.0 == c_ext(self.0, 7, 3) + 8,
            8 <= r.0 < 16,
    {
        proof {
            lemma_low_mask_values();
        }
        Reg((self.ext(7, 3) + 8) as u8)
    }

    /// rs2' (bits 4..2), mapped to x8..=x15
    pub(crate) fn rs2_short(self) -> (r: Reg)
        ensures
            r.0 == c_ext(self.0, 2, 3) + 8,
            8 <= r.0 < 16,
    {
        proof {
            lemma_low_mask_values();
        }
        Reg((self.ext(2, 3) + 8) as u8)
    }
}

/// The lowest `len` bits set.
pub open spec fn low_mask(len: u32) -> u32
    recommends
        0 < len <= 16,
{
    ((1u32 << len) - 1) as u32
}

/// A field of a compressed word: `len` bits starting at `lo`, zero-extended.
pub open spec fn c_ext(w: u16, lo: u32, len: u32) -> u32
    recommends
        lo < 16,
        0 < len <= 16,
{
    ((w as u32) >> lo) & low_mask(len)
}

/// The values of the short masks, for the field widths the compressed
/// decoder reads.
pub proof fn lemma_low_mask_values()
    by (bit_vector)
    ensures
        low_mask(1) == 1,
        low_mask(2) == 3,
        low_mask(3) == 7,
        low_mask(4) == 0xf,
        low_mask(5) == 0x1f,
{
}

// ---------------------------------------------------------------------------
// The gathered immediates of the compressed forms, and their value windows.
// ---------------------------------------------------------------------------

/// The zero-extended immediate of C.ADDI4SPN.
pub open spec fn c_addi4spn_val(w: u16) -> u32 {
    (c_ext(w, 5, 1) << 3) | (c_ext(w, 6, 1) << 2) | (c_ext(w, 7, 4) << 6) | (c_ext(w, 11, 2) << 4)
}

/// The zero-extended offset of C.LW and C.SW.
pub open spec fn c_mem_off_val(w: u16) -> u32 {
    (c_ext(w, 10, 3) << 3) | (c_ext(w, 5, 1) << 6) | (c_ext(w, 6, 1) << 2)
}

/// The zero-extended offset of C.LD and C.SD.
pub open spec fn c_d_mem_off_val(w: u16) -> u32 {
    (c_ext(w, 10, 3) << 3) | (c_ext(w, 5, 2) << 6)
}

/// The zero-extended offset of C.LWSP and C.LDSP.
pub open spec fn c_sp_load_val(w: u16) -> u32 {
    (c_ext(w, 12, 1) << 5) | (c_ext(w, 4, 3) << 2) | (c_ext(w, 2, 2) << 6)
}

/// The zero-extended offset of C.SWSP.
pub open spec fn c_swsp_val(w: u16) -> u32 {
    (c_ext(w, 7, 2) << 6) | (c_ext(w, 9, 4) << 2)
}

/// The zero-extended offset of C.SDSP.
pub open spec fn c_sdsp_val(w: u16) -> u32 {
    (c_ext(w, 7, 3) << 6) | (c_ext(w, 10, 3) << 3)
}

/// The 6-bit unsigned immediate shared by the compressed shifts and C.ANDI.
pub open spec fn c_uimm6_val(w: u16) -> u32 {
    c_ext(w, 2, 5) | (c_ext(w, 12, 1) << 5)
}

/// The sign-extended 6-bit immediate of C.ADDI, C.ADDIW and C.LI.
pub open spec fn c_imm6_val(w: u16) -> u32 {
    let v = c_uimm6_val(w);
    if v & 0x20 != 0 {
        v | 0xffffffc0
    } else {
        v
    }
}

/// The scrambled, sign-extended jump offset of C.J and C.JAL.
pub open spec fn c_jump_off_val(w: u16) -> u32 {
    let v = (c_ext(w, 2, 1) << 5) | (c_ext(w, 3, 3) << 1) | (c_ext(w, 6, 1) << 7) | (c_ext(w, 7, 1)
        << 6) | (c_ext(w, 8, 1) << 10) | (c_ext(w, 9, 2) << 8) | (c_ext(w, 11, 1) << 4) | (c_ext(
        w,
        12,
        1,
    ) << 11);
    if v & 0x800 != 0 {
        v | 0xfffff000
    } else {
        v
    }
}

/// The scrambled, sign-extended branch offset of C.BEQZ and C.BNEZ.
pub open spec fn c_branch_off_val(w: u16) -> u32 {
    let v = (c_ext(w, 2, 1) << 5) | (c_ext(w, 3, 2) << 1) | (c_ext(w, 5, 2) << 6) | (c_ext(
        w,
        10,
        2,
    ) << 3) | (c_ext(w, 12, 1) << 8);
    if v & 0x100 != 0 {
        v | 0xfffffe00
    } else {
        v
    }
}

/// The sign-extended immediate of C.ADDI16SP.
pub open spec fn c_addi16sp_val(w: u16) -> u32 {
    let v = (c_ext(w, 2, 1) << 5) | (c_ext(w, 3, 2) << 7) | (c_ext(w, 5, 1) << 6) | (c_ext(w, 6, 1)
        << 4) | (c_ext(w, 12, 1) << 9);
    if v & 0x200 != 0 {
        v | 0xfffffc00
    } else {
        v
    }
}

/// The immediate of C.LUI: already shifted left by twelve and sign-extended
/// from its highest bit.
pub open spec fn c_lui_imm(w: u16) -> u32 {
    let v = (c_ext(w, 2, 5) << 12) | (c_ext(w, 12, 1) << 17);
    if v & 0x20000 != 0 {
        v | 0xfffc0000
    } else {
        v
    }
}

/// The value windows of every compressed immediate: the unsigned offsets are
/// small and positive, the sign-extended ones lie in the windows of the
/// uncompressed formats they map into, and the control-flow offsets are
/// even.
pub proof fn lemma_c_imm_windows(w: u16)
    by (bit_vector)
    ensures
        c_addi4spn_val(w) < 0x400,
        is_sext12(c_addi4spn_val(w)),
        c_mem_off_val(w) < 0x80,
        is_sext12(c_mem_off_val(w)),
        c_d_mem_off_val(w) < 0x100,
        is_sext12(c_d_mem_off_val(w)),
        c_sp_load_val(w) < 0x100,
        is_sext12(c_sp_load_val(w)),
        c_swsp_val(w) < 0x100,
        is_sext12(c_swsp_val(w)),
        c_sdsp_val(w) < 0x200,
        is_sext12(c_sdsp_val(w)),
        c_uimm6_val(w) < 0x40,
        is_sext12(c_uimm6_val(w)),
        c_ext(w, 12, 1) == 0 ==> c_uimm6_val(w) < 32,
        is_sext12(c_imm6_val(w)),
        is_sext21_even(c_jump_off_val(w)),
        is_sext13_even(c_branch_off_val(w)),
        is_sext12(c_addi16sp_val(w)),
        c_lui_imm(w) & 0xfff == 0,
        is_sext12(0),
{
}

} // verus!
