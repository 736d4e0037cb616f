use vstd::prelude::*;

use crate::bits::is_sext12;
use crate::bits::is_sext13_even;
use crate::bits::is_sext21_even;
use crate::imm::Imm;
use crate::reg::Csr;
use crate::reg::FReg;
use crate::reg::Reg;
use crate::xlen::Xlen;

verus! {

/// The details of a RISC-V `fence` instruction.
#[derive(Debug, Clone, Copy, PartialEq, Eq, Hash, Structural)]
pub struct Fence {
    /// The `fm` field of the instruction.
    /// - `0b0000` is a normal fence
    /// - `0b1000` with `rw,rw` implies a `fence.tso`
    pub fm: u8,
    /// The predecessor set.
    pub pred: FenceSet,
    /// The successor set.
    pub succ: FenceSet,
    /// The `rd` field of the instruction. Currently always zero.
    pub dest: Reg,
    /// The `rs1` field of the instruction. Currently always zero.
    pub src: Reg,
}

/// The affected parts of a fence.
#[derive(Debug, Clone, Copy, PartialEq, Eq, Hash, Structural)]
pub struct FenceSet {
    /// Device input is ordered.
    pub device_input: bool,
    /// Device output is ordered.
    pub device_output: bool,
    /// Memory reads are ordered.
    pub memory_read: bool,
    /// Memory writes are ordered.
    pub memory_write: bool,
}

impl Fence {
    /// Whether this is a `fence.tso`.
    /// `fm=0b1000` and `RW,RW`
    pub fn is_tso(&self) -> (r: bool)
        ensures
            r == (self.fm == 8 && self.pred.memory_read && self.pred.memory_write
                && self.succ.memory_read && self.succ.memory_write),
    {
        self.fm == 0b1000 && self.pred.memory_read && self.pred.memory_write
            && self.succ.memory_read && self.succ.memory_write
    }

    /// Whether this fence indicates a `pause` assembler pseudoinstruction.
    pub fn is_pause(&self) -> (r: bool)
        ensures
            r == (!self.pred.device_input && !self.pred.device_output && !self.pred.memory_read
                && self.pred.memory_write && !self.succ.device_input && !self.succ.device_output
                && !self.succ.memory_read && !self.succ.memory_write && self.dest.0 == 0
                && self.src.0 == 0),
    {
        !self.pred.device_input && !self.pred.device_output && !self.pred.memory_read
            && self.pred.memory_write && !self.succ.device_input && !self.succ.device_output
            && !self.succ.memory_read && !self.succ.memory_write && self.dest.0 == 0
            && self.src.0 == 0
    }
}

/// An atomic memory ordering for instructions from the A extension.
#[derive(Debug, Clone, Copy, PartialEq, Eq, Hash, Structural)]
pub enum AmoOrdering {
    /// No bits.
    Relaxed,
    /// `aq`
    Acquire,
    /// `rl`
    Release,
    /// `aq`, `rl`
    SeqCst,
}

impl AmoOrdering {
    /// The `aq` (acquire) bit of this ordering.
    pub open spec fn aq(self) -> bool {
        self == AmoOrdering::Acquire || self == AmoOrdering::SeqCst
    }

    /// The `rl` (release) bit of this ordering.
    pub open spec fn rl(self) -> bool {
        self == AmoOrdering::Release || self == AmoOrdering::SeqCst
    }

    /// The ordering holding the two given bits.
    pub open spec fn of_bits(aq: bool, rl: bool) -> AmoOrdering {
        if aq && rl {
            AmoOrdering::SeqCst
        } else if aq {
            AmoOrdering::Acquire
        } else if rl {
            AmoOrdering::Release
        } else {
            AmoOrdering::Relaxed
        }
    }

    /// Create a new [`AmoOrdering`] from the two ordering bits.
    pub fn from_aq_rl(aq: bool, rl: bool) -> (r: Self)
        ensures
            r.aq() == aq,
            r.rl() == rl,
            r == AmoOrdering::of_bits(aq, rl),
    {
        match (aq, rl) {
            (false, false) => Self::Relaxed,
            (true, false) => Self::Acquire,
            (false, true) => Self::Release,
            (true, true) => Self::SeqCst,
        }
    }

    /// Undoes [`AmoOrdering::from_aq_rl`], creating the two ordering bits.
    pub fn aq_rl(&self) -> (r: (bool, bool))
        ensures
            r.0 == self.aq(),
            r.1 == self.rl(),
    {
        match self {
            AmoOrdering::Relaxed => (false, false),
            AmoOrdering::Acquire => (true, false),
            AmoOrdering::Release => (false, true),
            AmoOrdering::SeqCst => (true, true),
        }
    }
}

/// An atomic memory operation from the Zaamo extension.
#[derive(Debug, Clone, Copy, PartialEq, Eq, Hash, Structural)]
pub enum AmoOp {
    /// Swap
    Swap,
    /// ADD
    Add,
    /// XOR
    Xor,
    /// AND
    And,
    /// OR
    Or,
    /// Signed minimum
    Min,
    /// Signed maximum
    Max,
    /// Unsigned minimum
    Minu,
    /// Unsigned maximum
    Maxu,
}

impl AmoOp {
    /// The operation named by a 5-bit operation field, for the defined
    /// field values.
    pub open spec fn from_kind(kind: u32) -> AmoOp {
        if kind == 0b00001 {
            AmoOp::Swap
        } else if kind == 0b00000 {
            AmoOp::Add
        } else if kind == 0b00100 {
            AmoOp::Xor
        } else if kind == 0b01100 {
            AmoOp::And
        } else if kind == 0b01000 {
            AmoOp::Or
        } else if kind == 0b10000 {
            AmoOp::Min
        } else if kind == 0b10100 {
            AmoOp::Max
        } else if kind == 0b11000 {
            AmoOp::Minu
        } else {
            AmoOp::Maxu
        }
    }

    /// The 5-bit operation field encoding this operation.
    pub open spec fn code(self) -> u32 {
        match self {
            AmoOp::Swap => 0b00001,
            AmoOp::Add => 0b00000,
            AmoOp::Xor => 0b00100,
            AmoOp::And => 0b01100,
            AmoOp::Or => 0b01000,
            AmoOp::Min => 0b10000,
            AmoOp::Max => 0b10100,
            AmoOp::Minu => 0b11000,
            AmoOp::Maxu => 0b11100,
        }
    }
}

/// Floating-point rounding mode.
///
/// The rounding mode is encoded in the `rm` field of the instruction. If
/// `rm` is `111`, the instruction uses the dynamic rounding mode held in the
/// `frm` field of the `fcsr` register. The field values `101` and `110` are
/// reserved and decode as an error.
#[derive(Debug, Clone, Copy, PartialEq, Eq, Hash, Structural)]
pub enum RoundingMode {
    /// Round to Nearest, ties to Even (RNE)
    RoundToNearestTiesToEven,
    /// Round Towards Zero (RTZ)
    RoundTowardsZero,
    /// Round Down (towards −∞) (RDN)
    RoundDown,
    /// Round Up (towards +∞) (RUP)
    RoundUp,
    /// Round to Nearest, ties to Max Magnitude (RMM)
    RoundToNearestTiesToMax,
    /// Dynamic rounding mode (read from fcsr.frm)
    Dynamic,
}

impl RoundingMode {
    /// The rounding mode named by a 3-bit field, for the defined field
    /// values.
    pub open spec fn from_code(v: u32) -> RoundingMode {
        if v == 0 {
            RoundingMode::RoundToNearestTiesToEven
        } else if v == 1 {
            RoundingMode::RoundTowardsZero
        } else if v == 2 {
            RoundingMode::RoundDown
        } else if v == 3 {
            RoundingMode::RoundUp
        } else if v == 4 {
            RoundingMode::RoundToNearestTiesToMax
        } else {
            RoundingMode::Dynamic
        }
    }

    /// The 3-bit `rm` field value of this rounding mode.
    pub open spec fn code(self) -> u32 {
        match self {
            RoundingMode::RoundToNearestTiesToEven => 0b000,
            RoundingMode::RoundTowardsZero => 0b001,
            RoundingMode::RoundDown => 0b010,
            RoundingMode::RoundUp => 0b011,
            RoundingMode::RoundToNearestTiesToMax => 0b100,
            RoundingMode::Dynamic => 0b111,
        }
    }

    /// Create a new [`RoundingMode`] from the 3-bit rm field.
    /// The reserved values `101` and `110` give `None`.
    pub fn from_rm(rm: u32) -> (r: Option<Self>)
        ensures
            r is Some <==> (rm == 0 || rm == 1 || rm == 2 || rm == 3 || rm == 4 || rm == 7),
            r matches Some(m) ==> m.code() == rm && m == RoundingMode::from_code(rm),
    {
        match rm {
            0b000 => Some(Self::RoundToNearestTiesToEven),
            0b001 => Some(Self::RoundTowardsZero),
            0b010 => Some(Self::RoundDown),
            0b011 => Some(Self::RoundUp),
            0b100 => Some(Self::RoundToNearestTiesToMax),
            0b111 => Some(Self::Dynamic),
            _ => None,
        }
    }

    /// Convert to the 3-bit rm field.
    pub fn to_rm(&self) -> (r: u32)
        ensures
            r == self.code(),
    {
        match self {
            Self::RoundToNearestTiesToEven => 0b000,
            Self::RoundTowardsZero => 0b001,
            Self::RoundDown => 0b010,
            Self::RoundUp => 0b011,
            Self::RoundToNearestTiesToMax => 0b100,
            Self::Dynamic => 0b111,
        }
    }
}

/// The error used for invalid instructions containing information about the instruction and error.
///
/// Note that this is also returned for the defined illegal instruction of all zero.
#[derive(Debug, Clone, Copy)]
pub struct DecodeError {
    /// The instruction bytes that failed to decode.
    pub instruction: u32,
    /// Which field of the instruction contained unexpected bits.
    pub unexpected_field: &'static str,
}

/// Whether the decoded instruction was a compressed instruction or not.
/// If it was compressed, only the first two bytes were used.
/// If it was not compressed, all four bytes are consumed.
#[derive(Debug, Clone, Copy, PartialEq, Eq, Hash, Structural)]
pub enum IsCompressed {
    /// Normal 4-byte instruction
    No,
    /// Compressed 2-byte instruction
    Yes,
}

/// A RISC-V instruction.
///
/// Every variant is a different instruction. For instructions that
/// sign-extend immediates, the immediates will have been sign-extended
/// already, so the value can be used as-is. For instructions that have
/// immediates in the upper bits (`lui`, `auipc`), the shift will have been
/// done already, so the value can also be used as-is.
#[derive(Debug, Clone, Copy, PartialEq, Eq, Hash, Structural)]
#[allow(inconsistent_fields)]
pub enum Inst {
    /// Load Upper Immediate
    Lui { uimm: Imm, dest: Reg },
    /// Add Upper Immediate to PC
    Auipc { uimm: Imm, dest: Reg },
    /// Jump And Link
    Jal { offset: Imm, dest: Reg },
    /// Jump And Link Register (indirect)
    Jalr { offset: Imm, base: Reg, dest: Reg },
    /// Branch Equal
    Beq { offset: Imm, src1: Reg, src2: Reg },
    /// Branch Not Equal
    Bne { offset: Imm, src1: Reg, src2: Reg },
    /// Branch Less Than (signed)
    Blt { offset: Imm, src1: Reg, src2: Reg },
    /// Branch Greater or Equal (signed)
    Bge { offset: Imm, src1: Reg, src2: Reg },
    /// Branch Less Than Unsigned
    Bltu { offset: Imm, src1: Reg, src2: Reg },
    /// Branch Greater or Equal Unsigned
    Bgeu { offset: Imm, src1: Reg, src2: Reg },
    /// Load Byte (sign-ext)
    Lb { offset: Imm, dest: Reg, base: Reg },
    /// Load Unsigned Byte (zero-ext)
    Lbu { offset: Imm, dest: Reg, base: Reg },
    /// Load Half (sign-ext)
    Lh { offset: Imm, dest: Reg, base: Reg },
    /// Load Unsigned Half (zero-ext)
    Lhu { offset: Imm, dest: Reg, base: Reg },
    /// Load Word (on RV64: sign-ext)
    Lw { offset: Imm, dest: Reg, base: Reg },
    /// Load Word (zero-ext) (**RV64 only**)
    Lwu { offset: Imm, dest: Reg, base: Reg },
    /// Load Doubleword (**RV64 only**)
    Ld { offset: Imm, dest: Reg, base: Reg },
    /// Store Byte
    Sb { offset: Imm, src: Reg, base: Reg },
    /// Store Half
    Sh { offset: Imm, src: Reg, base: Reg },
    /// Store Word
    Sw { offset: Imm, src: Reg, base: Reg },
    /// Store Doubleword (**RV64 only**)
    Sd { offset: Imm, src: Reg, base: Reg },
    /// Add Immediate
    Addi { imm: Imm, dest: Reg, src1: Reg },
    /// Add Immediate 32-bit (**RV64 only**)
    AddiW { imm: Imm, dest: Reg, src1: Reg },
    /// Set Less Than Immediate (signed)
    Slti { imm: Imm, dest: Reg, src1: Reg },
    /// Set Less Than Immediate Unsigned
    Sltiu { imm: Imm, dest: Reg, src1: Reg },
    /// XOR Immediate
    Xori { imm: Imm, dest: Reg, src1: Reg },
    /// OR Immediate
    Ori { imm: Imm, dest: Reg, src1: Reg },
    /// AND Immediate
    Andi { imm: Imm, dest: Reg, src1: Reg },
    /// Shift Left Logical Immediate
    Slli { imm: Imm, dest: Reg, src1: Reg },
    /// Shift Left Logical Immediate 32-bit (**RV64 only**)
    SlliW { imm: Imm, dest: Reg, src1: Reg },
    /// Shift Right Logical Immediate (unsigned)
    Srli { imm: Imm, dest: Reg, src1: Reg },
    /// Shift Right Logical Immediate (unsigned) 32-bit (**RV64 only**)
    SrliW { imm: Imm, dest: Reg, src1: Reg },
    /// Shift Right Arithmetic Immediate (signed)
    Srai { imm: Imm, dest: Reg, src1: Reg },
    /// Shift Right Arithmetic Immediate (signed) 32-bit (**RV64 only**)
    SraiW { imm: Imm, dest: Reg, src1: Reg },
    /// Add
    Add { dest: Reg, src1: Reg, src2: Reg },
    /// Add 32-bit (**RV64 only**)
    AddW { dest: Reg, src1: Reg, src2: Reg },
    /// Subtract
    Sub { dest: Reg, src1: Reg, src2: Reg },
    /// Subtract 32-bit (**RV64 only**)
    SubW { dest: Reg, src1: Reg, src2: Reg },
    /// Shift Left Logical
    Sll { dest: Reg, src1: Reg, src2: Reg },
    /// Shift Left Logical 32-bit (**RV64 only**)
    SllW { dest: Reg, src1: Reg, src2: Reg },
    /// Set Less Than (signed)
    Slt { dest: Reg, src1: Reg, src2: Reg },
    /// Set Less Than Unsigned
    Sltu { dest: Reg, src1: Reg, src2: Reg },
    /// XOR
    Xor { dest: Reg, src1: Reg, src2: Reg },
    /// Shift Right Logical (unsigned)
    Srl { dest: Reg, src1: Reg, src2: Reg },
    /// Shift Right Logical (unsigned) 32-bit (**RV64 only**)
    SrlW { dest: Reg, src1: Reg, src2: Reg },
    /// Shift Right Arithmetic (signed)
    Sra { dest: Reg, src1: Reg, src2: Reg },
    /// Shift Right Arithmetic (signed) 32-bit (**RV64 only**)
    SraW { dest: Reg, src1: Reg, src2: Reg },
    /// OR
    Or { dest: Reg, src1: Reg, src2: Reg },
    /// AND
    And { dest: Reg, src1: Reg, src2: Reg },
    /// Memory Fence
    Fence { fence: Fence },
    /// ECALL, call into environment
    Ecall,
    /// EBREAK, break into debugger
    Ebreak,
    /// Multiply
    Mul { dest: Reg, src1: Reg, src2: Reg },
    /// Multiply 32-bit (**RV64 only**)
    MulW { dest: Reg, src1: Reg, src2: Reg },
    /// Mul Upper Half Signed-Signed
    Mulh { dest: Reg, src1: Reg, src2: Reg },
    /// Mul Upper Half Signed-Unsigned
    Mulhsu { dest: Reg, src1: Reg, src2: Reg },
    /// Mul Upper Half Unsigned-Unsigned
    Mulhu { dest: Reg, src1: Reg, src2: Reg },
    /// Divide (signed)
    Div { dest: Reg, src1: Reg, src2: Reg },
    /// Divide (signed) 32-bit (**RV64 only**)
    DivW { dest: Reg, src1: Reg, src2: Reg },
    /// Divide Unsigned
    Divu { dest: Reg, src1: Reg, src2: Reg },
    /// Divide Unsigned 32-bit (**RV64 only**)
    DivuW { dest: Reg, src1: Reg, src2: Reg },
    /// Remainder (signed)
    Rem { dest: Reg, src1: Reg, src2: Reg },
    /// Remainder (signed) 32-bit (**RV64 only**)
    RemW { dest: Reg, src1: Reg, src2: Reg },
    /// Remainder Unsigned
    Remu { dest: Reg, src1: Reg, src2: Reg },
    /// Remainder Unsigned 32-bit (**RV64 only**)
    RemuW { dest: Reg, src1: Reg, src2: Reg },
    /// Load-Reserved Word
    LrW { order: AmoOrdering, dest: Reg, addr: Reg },
    /// Store-Conditional Word
    ScW { order: AmoOrdering, dest: Reg, addr: Reg, src: Reg },
    /// Atomic Memory Operation
    AmoW { order: AmoOrdering, op: AmoOp, dest: Reg, addr: Reg, src: Reg },
    /// Atomic Read/Write CSR
    Csrrw { csr: Csr, dest: Reg, src: Reg },
    /// Atomic Read and Set Bits in CSR
    Csrrs { csr: Csr, dest: Reg, src: Reg },
    /// Atomic Read and Clear Bits in CSR
    Csrrc { csr: Csr, dest: Reg, src: Reg },
    /// Atomic Read/Write CSR Immediate
    Csrrwi { csr: Csr, dest: Reg, uimm: Imm },
    /// Atomic Read and Set Bits in CSR Immediate
    Csrrsi { csr: Csr, dest: Reg, uimm: Imm },
    /// Atomic Read and Clear Bits in CSR Immediate
    Csrrci { csr: Csr, dest: Reg, uimm: Imm },
    /// Load Floating-Point Word
    Flw { offset: Imm, dest: FReg, base: Reg },
    /// Store Floating-Point Word
    Fsw { offset: Imm, src: FReg, base: Reg },
    /// Fused Multiply-Add Single-Precision
    FmaddS { rm: RoundingMode, dest: FReg, src1: FReg, src2: FReg, src3: FReg },
    /// Fused Multiply-Subtract Single-Precision
    FmsubS { rm: RoundingMode, dest: FReg, src1: FReg, src2: FReg, src3: FReg },
    /// Fused Negative Multiply-Subtract Single-Precision
    FnmsubS { rm: RoundingMode, dest: FReg, src1: FReg, src2: FReg, src3: FReg },
    /// Fused Negative Multiply-Add Single-Precision
    FnmaddS { rm: RoundingMode, dest: FReg, src1: FReg, src2: FReg, src3: FReg },
    /// Add Single-Precision
    FaddS { rm: RoundingMode, dest: FReg, src1: FReg, src2: FReg },
    /// Subtract Single-Precision
    FsubS { rm: RoundingMode, dest: FReg, src1: FReg, src2: FReg },
    /// Multiply Single-Precision
    FmulS { rm: RoundingMode, dest: FReg, src1: FReg, src2: FReg },
    /// Divide Single-Precision
    FdivS { rm: RoundingMode, dest: FReg, src1: FReg, src2: FReg },
    /// Square Root Single-Precision
    FsqrtS { rm: RoundingMode, dest: FReg, src: FReg },
    /// Sign-Inject Single-Precision
    FsgnjS { dest: FReg, src1: FReg, src2: FReg },
    /// Sign-Inject-Negate Single-Precision
    FsgnjnS { dest: FReg, src1: FReg, src2: FReg },
    /// Sign-Inject-XOR Single-Precision
    FsgnjxS { dest: FReg, src1: FReg, src2: FReg },
    /// Minimum Single-Precision
    FminS { dest: FReg, src1: FReg, src2: FReg },
    /// Maximum Single-Precision
    FmaxS { dest: FReg, src1: FReg, src2: FReg },
    /// Convert Single to Word
    FcvtWS { rm: RoundingMode, dest: Reg, src: FReg },
    /// Convert Single to Unsigned Word
    FcvtWuS { rm: RoundingMode, dest: Reg, src: FReg },
    /// Move from Floating-Point to Integer Register
    FmvXW { dest: Reg, src: FReg },
    /// Floating-Point Equal Single-Precision
    FeqS { dest: Reg, src1: FReg, src2: FReg },
    /// Floating-Point Less Than Single-Precision
    FltS { dest: Reg, src1: FReg, src2: FReg },
    /// Floating-Point Less Than or Equal Single-Precision
    FleS { dest: Reg, src1: FReg, src2: FReg },
    /// Floating-Point Classify Single-Precision
    FclassS { dest: Reg, src: FReg },
    /// Convert Word to Single
    FcvtSW { rm: RoundingMode, dest: FReg, src: Reg },
    /// Convert Unsigned Word to Single
    FcvtSWu { rm: RoundingMode, dest: FReg, src: Reg },
    /// Move from Integer to Floating-Point Register
    FmvWX { dest: FReg, src: Reg },
    /// Load Floating-Point Double
    Fld { offset: Imm, dest: FReg, base: Reg },
    /// Store Floating-Point Double
    Fsd { offset: Imm, src: FReg, base: Reg },
    /// Fused Multiply-Add Double-Precision
    FmaddD { rm: RoundingMode, dest: FReg, src1: FReg, src2: FReg, src3: FReg },
    /// Fused Multiply-Subtract Double-Precision
    FmsubD { rm: RoundingMode, dest: FReg, src1: FReg, src2: FReg, src3: FReg },
    /// Fused Negative Multiply-Subtract Double-Precision
    FnmsubD { rm: RoundingMode, dest: FReg, src1: FReg, src2: FReg, src3: FReg },
    /// Fused Negative Multiply-Add Double-Precision
    FnmaddD { rm: RoundingMode, dest: FReg, src1: FReg, src2: FReg, src3: FReg },
    /// Add Double-Precision
    FaddD { rm: RoundingMode, dest: FReg, src1: FReg, src2: FReg },
    /// Subtract Double-Precision
    FsubD { rm: RoundingMode, dest: FReg, src1: FReg, src2: FReg },
    /// Multiply Double-Precision
    FmulD { rm: RoundingMode, dest: FReg, src1: FReg, src2: FReg },
    /// Divide Double-Precision
    FdivD { rm: RoundingMode, dest: FReg, src1: FReg, src2: FReg },
    /// Square Root Double-Precision
    FsqrtD { rm: RoundingMode, dest: FReg, src: FReg },
    /// Sign-Inject Double-Precision
    FsgnjD { dest: FReg, src1: FReg, src2: FReg },
    /// Sign-Inject-Negate Double-Precision
    FsgnjnD { dest: FReg, src1: FReg, src2: FReg },
    /// Sign-Inject-XOR Double-Precision
    FsgnjxD { dest: FReg, src1: FReg, src2: FReg },
    /// Minimum Double-Precision
    FminD { dest: FReg, src1: FReg, src2: FReg },
    /// Maximum Double-Precision
    FmaxD { dest: FReg, src1: FReg, src2: FReg },
    /// Convert Double to Single
    FcvtSD { rm: RoundingMode, dest: FReg, src: FReg },
    /// Convert Single to Double
    FcvtDS { rm: RoundingMode, dest: FReg, src: FReg },
    /// Floating-Point Equal Double-Precision
    FeqD { dest: Reg, src1: FReg, src2: FReg },
    /// Floating-Point Less Than Double-Precision
    FltD { dest: Reg, src1: FReg, src2: FReg },
    /// Floating-Point Less Than or Equal Double-Precision
    FleD { dest: Reg, src1: FReg, src2: FReg },
    /// Floating-Point Classify Double-Precision
    FclassD { dest: Reg, src: FReg },
    /// Convert Double to Word
    FcvtWD { rm: RoundingMode, dest: Reg, src: FReg },
    /// Convert Double to Unsigned Word
    FcvtWuD { rm: RoundingMode, dest: Reg, src: FReg },
    /// Convert Word to Double
    FcvtDW { rm: RoundingMode, dest: FReg, src: Reg },
    /// Convert Unsigned Word to Double
    FcvtDWu { rm: RoundingMode, dest: FReg, src: Reg },
    /// Convert Single to Long (**RV64 only**)
    FcvtLS { rm: RoundingMode, dest: Reg, src: FReg },
    /// Convert Single to Unsigned Long (**RV64 only**)
    FcvtLuS { rm: RoundingMode, dest: Reg, src: FReg },
    /// Convert Long to Single (**RV64 only**)
    FcvtSL { rm: RoundingMode, dest: FReg, src: Reg },
    /// Convert Unsigned Long to Single (**RV64 only**)
    FcvtSLu { rm: RoundingMode, dest: FReg, src: Reg },
    /// Convert Double to Long (**RV64 only**)
    FcvtLD { rm: RoundingMode, dest: Reg, src: FReg },
    /// Convert Double to Unsigned Long (**RV64 only**)
    FcvtLuD { rm: RoundingMode, dest: Reg, src: FReg },
    /// Move Double to Integer Register (**RV64 only**)
    FmvXD { dest: Reg, src: FReg },
    /// Convert Long to Double (**RV64 only**)
    FcvtDL { rm: RoundingMode, dest: FReg, src: Reg },
    /// Convert Unsigned Long to Double (**RV64 only**)
    FcvtDLu { rm: RoundingMode, dest: FReg, src: Reg },
    /// Move Integer Register to Double (**RV64 only**)
    FmvDX { dest: FReg, src: Reg },
}

/// The structural invariant of a decoded instruction: every register
/// identifier fits in five bits, every CSR address in twelve, the fence mode
/// in four, and a CSR immediate in five. The decoders only produce values
/// satisfying this.
pub open spec fn inst_wf(inst: Inst) -> bool {
    match inst {
        Inst::Lui { uimm, dest } | Inst::Auipc { uimm, dest } => dest.0 < 32,
        Inst::Jal { offset, dest } => dest.0 < 32,
        Inst::Jalr { offset, base, dest } => base.0 < 32 && dest.0 < 32,
        Inst::Beq { offset, src1, src2 }
        | Inst::Bne { offset, src1, src2 }
        | Inst::Blt { offset, src1, src2 }
        | Inst::Bge { offset, src1, src2 }
        | Inst::Bltu { offset, src1, src2 }
        | Inst::Bgeu { offset, src1, src2 } => src1.0 < 32 && src2.0 < 32,
        Inst::Lb { offset, dest, base }
        | Inst::Lbu { offset, dest, base }
        | Inst::Lh { offset, dest, base }
        | Inst::Lhu { offset, dest, base }
        | Inst::Lw { offset, dest, base }
        | Inst::Lwu { offset, dest, base }
        | Inst::Ld { offset, dest, base } => dest.0 < 32 && base.0 < 32,
        Inst::Sb { offset, src, base }
        | Inst::Sh { offset, src, base }
        | Inst::Sw { offset, src, base }
        | Inst::Sd { offset, src, base } => src.0 < 32 && base.0 < 32,
        Inst::Addi { imm, dest, src1 }
        | Inst::AddiW { imm, dest, src1 }
        | Inst::Slti { imm, dest, src1 }
        | Inst::Sltiu { imm, dest, src1 }
        | Inst::Xori { imm, dest, src1 }
        | Inst::Ori { imm, dest, src1 }
        | Inst::Andi { imm, dest, src1 }
        | Inst::Slli { imm, dest, src1 }
        | Inst::SlliW { imm, dest, src1 }
        | Inst::Srli { imm, dest, src1 }
        | Inst::SrliW { imm, dest, src1 }
        | Inst::Srai { imm, dest, src1 }
        | Inst::SraiW { imm, dest, src1 } => dest.0 < 32 && src1.0 < 32,
        Inst::Add { dest, src1, src2 }
        | Inst::AddW { dest, src1, src2 }
        | Inst::Sub { dest, src1, src2 }
        | Inst::SubW { dest, src1, src2 }
        | Inst::Sll { dest, src1, src2 }
        | Inst::SllW { dest, src1, src2 }
        | Inst::Slt { dest, src1, src2 }
        | Inst::Sltu { dest, src1, src2 }
        | Inst::Xor { dest, src1, src2 }
        | Inst::Srl { dest, src1, src2 }
        | Inst::SrlW { dest, src1, src2 }
        | Inst::Sra { dest, src1, src2 }
        | Inst::SraW { dest, src1, src2 }
        | Inst::Or { dest, src1, src2 }
        | Inst::And { dest, src1, src2 }
        | Inst::Mul { dest, src1, src2 }
        | Inst::MulW { dest, src1, src2 }
        | Inst::Mulh { dest, src1, src2 }
        | Inst::Mulhsu { dest, src1, src2 }
        | Inst::Mulhu { dest, src1, src2 }
        | Inst::Div { dest, src1, src2 }
        | Inst::DivW { dest, src1, src2 }
        | Inst::Divu { dest, src1, src2 }
        | Inst::DivuW { dest, src1, src2 }
        | Inst::Rem { dest, src1, src2 }
        | Inst::RemW { dest, src1, src2 }
        | Inst::Remu { dest, src1, src2 }
        | Inst::RemuW { dest, src1, src2 } => dest.0 < 32 && src1.0 < 32 && src2.0 < 32,
        Inst::Fence { fence } => fence.fm < 16 && fence.dest.0 < 32 && fence.src.0 < 32,
        Inst::Ecall | Inst::Ebreak => true,
        Inst::LrW { order, dest, addr } => dest.0 < 32 && addr.0 < 32,
        Inst::ScW { order, dest, addr, src } => dest.0 < 32 && addr.0 < 32 && src.0 < 32,
        Inst::AmoW { order, op, dest, addr, src } => dest.0 < 32 && addr.0 < 32 && src.0 < 32,
        Inst::Csrrw { csr, dest, src } | Inst::Csrrs { csr, dest, src } | Inst::Csrrc {
            csr,
            dest,
            src,
        } => csr.0 < 4096 && dest.0 < 32 && src.0 < 32,
        Inst::Csrrwi { csr, dest, uimm } | Inst::Csrrsi { csr, dest, uimm } | Inst::Csrrci {
            csr,
            dest,
            uimm,
        } => csr.0 < 4096 && dest.0 < 32 && uimm.bits() < 32,
        Inst::Flw { offset, dest, base } | Inst::Fld { offset, dest, base } => dest.0 < 32 && base.0
            < 32,
        Inst::Fsw { offset, src, base } | Inst::Fsd { offset, src, base } => src.0 < 32 && base.0
            < 32,
        Inst::FmaddS { rm, dest, src1, src2, src3 }
        | Inst::FmsubS { rm, dest, src1, src2, src3 }
        | Inst::FnmsubS { rm, dest, src1, src2, src3 }
        | Inst::FnmaddS { rm, dest, src1, src2, src3 }
        | Inst::FmaddD { rm, dest, src1, src2, src3 }
        | Inst::FmsubD { rm, dest, src1, src2, src3 }
        | Inst::FnmsubD { rm, dest, src1, src2, src3 }
        | Inst::FnmaddD { rm, dest, src1, src2, src3 } => dest.0 < 32 && src1.0 < 32 && src2.0 < 32
            && src3.0 < 32,
        Inst::FaddS { rm, dest, src1, src2 }
        | Inst::FsubS { rm, dest, src1, src2 }
        | Inst::FmulS { rm, dest, src1, src2 }
        | Inst::FdivS { rm, dest, src1, src2 }
        | Inst::FaddD { rm, dest, src1, src2 }
        | Inst::FsubD { rm, dest, src1, src2 }
        | Inst::FmulD { rm, dest, src1, src2 }
        | Inst::FdivD { rm, dest, src1, src2 } => dest.0 < 32 && src1.0 < 32 && src2.0 < 32,
        Inst::FsqrtS { rm, dest, src } | Inst::FsqrtD { rm, dest, src } => dest.0 < 32 && src.0
            < 32,
        Inst::FsgnjS { dest, src1, src2 }
        | Inst::FsgnjnS { dest, src1, src2 }
        | Inst::FsgnjxS { dest, src1, src2 }
        | Inst::FminS { dest, src1, src2 }
        | Inst::FmaxS { dest, src1, src2 }
        | Inst::FsgnjD { dest, src1, src2 }
        | Inst::FsgnjnD { dest, src1, src2 }
        | Inst::FsgnjxD { dest, src1, src2 }
        | Inst::FminD { dest, src1, src2 }
        | Inst::FmaxD { dest, src1, src2 } => dest.0 < 32 && src1.0 < 32 && src2.0 < 32,
        Inst::FcvtWS { rm, dest, src }
        | Inst::FcvtWuS { rm, dest, src }
        | Inst::FcvtWD { rm, dest, src }
        | Inst::FcvtWuD { rm, dest, src }
        | Inst::FcvtLS { rm, dest, src }
        | Inst::FcvtLuS { rm, dest, src }
        | Inst::FcvtLD { rm, dest, src }
        | Inst::FcvtLuD { rm, dest, src } => dest.0 < 32 && src.0 < 32,
        Inst::FmvXW { dest, src } | Inst::FmvXD { dest, src } | Inst::FclassS { dest, src }
        | Inst::FclassD { dest, src } => dest.0 < 32 && src.0 < 32,
        Inst::FeqS { dest, src1, src2 }
        | Inst::FltS { dest, src1, src2 }
        | Inst::FleS { dest, src1, src2 }
        | Inst::FeqD { dest, src1, src2 }
        | Inst::FltD { dest, src1, src2 }
        | Inst::FleD { dest, src1, src2 } => dest.0 < 32 && src1.0 < 32 && src2.0 < 32,
        Inst::FcvtSW { rm, dest, src }
        | Inst::FcvtSWu { rm, dest, src }
        | Inst::FcvtDW { rm, dest, src }
        | Inst::FcvtDWu { rm, dest, src }
        | Inst::FcvtSL { rm, dest, src }
        | Inst::FcvtSLu { rm, dest, src }
        | Inst::FcvtDL { rm, dest, src }
        | Inst::FcvtDLu { rm, dest, src } => dest.0 < 32 && src.0 < 32,
        Inst::FcvtSD { rm, dest, src } | Inst::FcvtDS { rm, dest, src } => dest.0 < 32 && src.0
            < 32,
        Inst::FmvWX { dest, src } | Inst::FmvDX { dest, src } => dest.0 < 32 && src.0 < 32,
    }
}

/// The canonical form of a decoded instruction's immediates: each holds the
/// sign extension of its encoded field, control-flow offsets are even, the
/// upper immediates are page-aligned, and shift amounts fit the register
/// width. Together with [`inst_wf`] and the exact re-encoding promised by
/// the decoder, this pins a decoded value completely: no other canonical,
/// well-formed instruction shares its encoding.
pub open spec fn inst_canonical(inst: Inst, xlen: Xlen) -> bool {
    match inst {
        Inst::Lui { uimm, .. } | Inst::Auipc { uimm, .. } => uimm.is_sext64() && uimm.low() & 0xfff
            == 0,
        Inst::Jal { offset, .. } => offset.is_sext64() && is_sext21_even(offset.low()),
        Inst::Beq { offset, .. }
        | Inst::Bne { offset, .. }
        | Inst::Blt { offset, .. }
        | Inst::Bge { offset, .. }
        | Inst::Bltu { offset, .. }
        | Inst::Bgeu { offset, .. } => offset.is_sext64() && is_sext13_even(
            offset.low(),
        ),
        Inst::Jalr { offset, .. }
        | Inst::Lb { offset, .. }
        | Inst::Lbu { offset, .. }
        | Inst::Lh { offset, .. }
        | Inst::Lhu { offset, .. }
        | Inst::Lw { offset, .. }
        | Inst::Lwu { offset, .. }
        | Inst::Ld { offset, .. }
        | Inst::Sb { offset, .. }
        | Inst::Sh { offset, .. }
        | Inst::Sw { offset, .. }
        | Inst::Sd { offset, .. }
        | Inst::Flw { offset, .. }
        | Inst::Fld { offset, .. }
        | Inst::Fsw { offset, .. }
        | Inst::Fsd { offset, .. } => offset.is_sext64() && is_sext12(offset.low()),
        Inst::Addi { imm, .. }
        | Inst::AddiW { imm, .. }
        | Inst::Slti { imm, .. }
        | Inst::Sltiu { imm, .. }
        | Inst::Xori { imm, .. }
        | Inst::Ori { imm, .. }
        | Inst::Andi { imm, .. } => imm.is_sext64() && is_sext12(imm.low()),
        Inst::Slli { imm, .. } | Inst::Srli { imm, .. } | Inst::Srai { imm, .. } => imm.bits() < (
        if xlen == Xlen::Rv32 {
            32u64
        } else {
            64u64
        }),
        Inst::SlliW { imm, .. } | Inst::SrliW { imm, .. } | Inst::SraiW { imm, .. } => imm.bits()
            < 32,
        Inst::Csrrwi { uimm, .. } | Inst::Csrrsi { uimm, .. } | Inst::Csrrci { uimm, .. } =>
            uimm.bits() < 32,
        _ => true,
    }
}

/// Whether this instruction exists only on RV64. The decoders reject these
/// encodings when the selected register width is RV32.
pub open spec fn requires_rv64(inst: Inst) -> bool {
    match inst {
        Inst::Lwu { .. } | Inst::Ld { .. } | Inst::Sd { .. } | Inst::AddiW { .. } | Inst::SlliW {
            ..
        } | Inst::SrliW { .. } | Inst::SraiW { .. } | Inst::AddW { .. } | Inst::SubW { .. }
        | Inst::SllW { .. } | Inst::SrlW { .. } | Inst::SraW { .. } | Inst::MulW { .. }
        | Inst::DivW { .. } | Inst::DivuW { .. } | Inst::RemW { .. } | Inst::RemuW { .. }
        | Inst::FcvtLS { .. } | Inst::FcvtLuS { .. } | Inst::FcvtSL { .. } | Inst::FcvtSLu {
            ..
        } | Inst::FcvtLD { .. } | Inst::FcvtLuD { .. } | Inst::FmvXD { .. } | Inst::FcvtDL {
            ..
        } | Inst::FcvtDLu { .. } | Inst::FmvDX { .. } => true,
        _ => false,
    }
}

} // verus!
