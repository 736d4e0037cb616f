use vstd::prelude::*;

use crate::imm::Imm;
use crate::inst::inst_wf;
use crate::inst::AmoOp;
use crate::inst::AmoOrdering;
use crate::inst::DecodeError;
use crate::inst::FenceSet;
use crate::inst::Inst;
use crate::inst::RoundingMode;
use crate::reg::Csr;
use crate::reg::FReg;
use crate::reg::Reg;

verus! {

// ---------------------------------------------------------------------------
// Numbers as text, with their spec-level counterparts.
// ---------------------------------------------------------------------------

/// One decimal digit.
pub open spec fn dec_digit_char(d: nat) -> char
    recommends
        d < 10,
{
    if d == 0 {
        '0'
    } else if d == 1 {
        '1'
    } else if d == 2 {
        '2'
    } else if d == 3 {
        '3'
    } else if d == 4 {
        '4'
    } else if d == 5 {
        '5'
    } else if d == 6 {
        '6'
    } else if d == 7 {
        '7'
    } else if d == 8 {
        '8'
    } else {
        '9'
    }
}

/// A number in decimal, most significant digit first.
pub open spec fn dec_seq(n: nat) -> Seq<char>
    decreases n,
{
    if n < 10 {
        seq![dec_digit_char(n)]
    } else {
        dec_seq(n / 10) + seq![dec_digit_char(n % 10)]
    }
}

/// A signed number in decimal.
pub open spec fn dec_i_seq(n: int) -> Seq<char> {
    if n >= 0 {
        dec_seq(n as nat)
    } else {
        seq!['-'] + dec_seq((-n) as nat)
    }
}

/// One hexadecimal digit, lower case.
pub open spec fn hex_digit_char(d: nat) -> char
    recommends
        d < 16,
{
    if d == 0 {
        '0'
    } else if d == 1 {
        '1'
    } else if d == 2 {
        '2'
    } else if d == 3 {
        '3'
    } else if d == 4 {
        '4'
    } else if d == 5 {
        '5'
    } else if d == 6 {
        '6'
    } else if d == 7 {
        '7'
    } else if d == 8 {
        '8'
    } else if d == 9 {
        '9'
    } else if d == 10 {
        'a'
    } else if d == 11 {
        'b'
    } else if d == 12 {
        'c'
    } else if d == 13 {
        'd'
    } else if d == 14 {
        'e'
    } else {
        'f'
    }
}

/// A number in hexadecimal, lower case, most significant digit first.
pub open spec fn hex_seq(n: nat) -> Seq<char>
    decreases n,
{
    if n < 16 {
        seq![hex_digit_char(n)]
    } else {
        hex_seq(n / 16) + seq![hex_digit_char(n % 16)]
    }
}

/// One decimal digit as text.
fn dec_digit(d: u64) -> (r: &'static str)
    requires
        d < 10,
    ensures
        r@ == seq![dec_digit_char(d as nat)],
{
    let s = match d {
        0 => "0",
        1 => "1",
        2 => "2",
        3 => "3",
        4 => "4",
        5 => "5",
        6 => "6",
        7 => "7",
        8 => "8",
        _ => "9",
    };
    proof {
        reveal_strlit("0");
        reveal_strlit("1");
        reveal_strlit("2");
        reveal_strlit("3");
        reveal_strlit("4");
        reveal_strlit("5");
        reveal_strlit("6");
        reveal_strlit("7");
        reveal_strlit("8");
        reveal_strlit("9");
        assert(s@ =~= seq![dec_digit_char(d as nat)]);
    }
    s
}

/// One hexadecimal digit as text, lower case.
fn hex_digit(d: u32) -> (r: &'static str)
    requires
        d < 16,
    ensures
        r@ == seq![hex_digit_char(d as nat)],
{
    let s = match d {
        0 => "0",
        1 => "1",
        2 => "2",
        3 => "3",
        4 => "4",
        5 => "5",
        6 => "6",
        7 => "7",
        8 => "8",
        9 => "9",
        10 => "a",
        11 => "b",
        12 => "c",
        13 => "d",
        14 => "e",
        _ => "f",
    };
    proof {
        reveal_strlit("0");
        reveal_strlit("1");
        reveal_strlit("2");
        reveal_strlit("3");
        reveal_strlit("4");
        reveal_strlit("5");
        reveal_strlit("6");
        reveal_strlit("7");
        reveal_strlit("8");
        reveal_strlit("9");
        reveal_strlit("a");
        reveal_strlit("b");
        reveal_strlit("c");
        reveal_strlit("d");
        reveal_strlit("e");
        reveal_strlit("f");
        assert(s@ =~= seq![hex_digit_char(d as nat)]);
    }
    s
}

/// A number in decimal.
fn dec_u64(n: u64) -> (r: String)
    ensures
        r@ == dec_seq(n as nat),
    decreases n,
{
    if n < 10 {
        String::from_str(dec_digit(n))
    } else {
        let mut s = dec_u64(n / 10);
        s.append(dec_digit(n % 10));
        s
    }
}

/// A signed number in decimal.
fn dec_i64(n: i64) -> (r: String)
    ensures
        r@ == dec_i_seq(n as int),
{
    if n >= 0 {
        dec_u64(n as u64)
    } else {
        let magnitude = ((-(n + 1)) as u64) + 1;
        let mut s = String::from_str("-");
        proof {
            reveal_strlit("-");
            assert("-"@ =~= seq!['-']);
        }
        s.append(dec_u64(magnitude).as_str());
        s
    }
}

/// A signed 32-bit number in decimal.
fn dec_i32(n: i32) -> (r: String)
    ensures
        r@ == dec_i_seq(n as int),
{
    dec_i64(n as i64)
}

/// An unsigned 32-bit number in decimal.
fn dec_u32(n: u32) -> (r: String)
    ensures
        r@ == dec_seq(n as nat),
{
    dec_u64(n as u64)
}

/// The digits of a number in hexadecimal.
fn hex_digits(n: u32) -> (r: String)
    ensures
        r@ == hex_seq(n as nat),
    decreases n,
{
    if n < 16 {
        String::from_str(hex_digit(n))
    } else {
        let mut s = hex_digits(n / 16);
        s.append(hex_digit(n % 16));
        s
    }
}

/// A number in hexadecimal with the customary prefix.
pub open spec fn hex_text(n: nat) -> Seq<char> {
    "0x"@ + hex_seq(n)
}

fn hex_u32(n: u32) -> (r: String)
    ensures
        r@ == hex_text(n as nat),
{
    let mut s = String::from_str("0x");
    s.append(hex_digits(n).as_str());
    s
}

// ---------------------------------------------------------------------------
// The name tables, with their spec-level counterparts.
// ---------------------------------------------------------------------------

/// The ABI name of integer register `n`.
pub open spec fn reg_name(n: u8) -> Seq<char>
    recommends
        n < 32,
{
    if n == 0 {
        "zero"@
    } else if n == 1 {
        "ra"@
    } else if n == 2 {
        "sp"@
    } else if n == 3 {
        "gp"@
    } else if n == 4 {
        "tp"@
    } else if n == 5 {
        "t0"@
    } else if n == 6 {
        "t1"@
    } else if n == 7 {
        "t2"@
    } else if n == 8 {
        "s0"@
    } else if n == 9 {
        "s1"@
    } else if n == 10 {
        "a0"@
    } else if n == 11 {
        "a1"@
    } else if n == 12 {
        "a2"@
    } else if n == 13 {
        "a3"@
    } else if n == 14 {
        "a4"@
    } else if n == 15 {
        "a5"@
    } else if n == 16 {
        "a6"@
    } else if n == 17 {
        "a7"@
    } else if n == 18 {
        "s2"@
    } else if n == 19 {
        "s3"@
    } else if n == 20 {
        "s4"@
    } else if n == 21 {
        "s5"@
    } else if n == 22 {
        "s6"@
    } else if n == 23 {
        "s7"@
    } else if n == 24 {
        "s8"@
    } else if n == 25 {
        "s9"@
    } else if n == 26 {
        "s10"@
    } else if n == 27 {
        "s11"@
    } else if n == 28 {
        "t3"@
    } else if n == 29 {
        "t4"@
    } else if n == 30 {
        "t5"@
    } else {
        "t6"@
    }
}

/// The ABI name of floating-point register `n`.
pub open spec fn freg_name(n: u8) -> Seq<char>
    recommends
        n < 32,
{
    if n == 0 {
        "ft0"@
    } else if n == 1 {
        "ft1"@
    } else if n == 2 {
        "ft2"@
    } else if n == 3 {
        "ft3"@
    } else if n == 4 {
        "ft4"@
    } else if n == 5 {
        "ft5"@
    } else if n == 6 {
        "ft6"@
    } else if n == 7 {
        "ft7"@
    } else if n == 8 {
        "fs0"@
    } else if n == 9 {
        "fs1"@
    } else if n == 10 {
        "fa0"@
    } else if n == 11 {
        "fa1"@
    } else if n == 12 {
        "fa2"@
    } else if n == 13 {
        "fa3"@
    } else if n == 14 {
        "fa4"@
    } else if n == 15 {
        "fa5"@
    } else if n == 16 {
        "fa6"@
    } else if n == 17 {
        "fa7"@
    } else if n == 18 {
        "fs2"@
    } else if n == 19 {
        "fs3"@
    } else if n == 20 {
        "fs4"@
    } else if n == 21 {
        "fs5"@
    } else if n == 22 {
        "fs6"@
    } else if n == 23 {
        "fs7"@
    } else if n == 24 {
        "fs8"@
    } else if n == 25 {
        "fs9"@
    } else if n == 26 {
        "fs10"@
    } else if n == 27 {
        "fs11"@
    } else if n == 28 {
        "ft8"@
    } else if n == 29 {
        "ft9"@
    } else if n == 30 {
        "ft10"@
    } else {
        "ft11"@
    }
}

/// The text of a CSR address: hexadecimal.
pub open spec fn csr_text(csr: Csr) -> Seq<char> {
    hex_text(csr.0 as nat)
}

/// The text of an immediate: its signed 64-bit value in decimal.
pub open spec fn imm_text(imm: Imm) -> Seq<char> {
    dec_i_seq((imm.bits() as i64) as int)
}

/// The text of an immediate read at register width 32: its signed 32-bit
/// value in decimal.
pub open spec fn imm_i32_text(imm: Imm) -> Seq<char> {
    dec_i_seq((imm.bits() as i32) as int)
}

/// The text of an immediate read unsigned at register width 32.
pub open spec fn imm_u32_text(imm: Imm) -> Seq<char> {
    dec_seq((imm.bits() as u32) as nat)
}

/// The text of a fence set: a subset of `iorw`, or `0` when empty.
pub open spec fn fence_set_text(fs: FenceSet) -> Seq<char> {
    if !fs.device_input && !fs.device_output && !fs.memory_read && !fs.memory_write {
        "0"@
    } else {
        Seq::<char>::empty() + (if fs.device_input {
            "i"@
        } else {
            Seq::<char>::empty()
        }) + (if fs.device_output {
            "o"@
        } else {
            Seq::<char>::empty()
        }) + (if fs.memory_read {
            "r"@
        } else {
            Seq::<char>::empty()
        }) + (if fs.memory_write {
            "w"@
        } else {
            Seq::<char>::empty()
        })
    }
}

/// The ordering suffix of an atomic instruction.
pub open spec fn amo_order_name(order: AmoOrdering) -> Seq<char> {
    match order {
        AmoOrdering::Relaxed => ""@,
        AmoOrdering::Acquire => ".aq"@,
        AmoOrdering::Release => ".rl"@,
        AmoOrdering::SeqCst => ".aqrl"@,
    }
}

/// The name of an atomic operation.
pub open spec fn amo_op_name(op: AmoOp) -> Seq<char> {
    match op {
        AmoOp::Swap => "swap"@,
        AmoOp::Add => "add"@,
        AmoOp::Xor => "xor"@,
        AmoOp::And => "and"@,
        AmoOp::Or => "or"@,
        AmoOp::Min => "min"@,
        AmoOp::Max => "max"@,
        AmoOp::Minu => "minu"@,
        AmoOp::Maxu => "maxu"@,
    }
}

/// The assembler name of a rounding mode.
pub open spec fn rm_name(rm: RoundingMode) -> Seq<char> {
    match rm {
        RoundingMode::RoundToNearestTiesToEven => "rne"@,
        RoundingMode::RoundTowardsZero => "rtz"@,
        RoundingMode::RoundDown => "rdn"@,
        RoundingMode::RoundUp => "rup"@,
        RoundingMode::RoundToNearestTiesToMax => "rmm"@,
        RoundingMode::Dynamic => "dyn"@,
    }
}

// ---------------------------------------------------------------------------
// The executable renderers, each pinned to its spec-level text.
// ---------------------------------------------------------------------------

impl Reg {
    /// The ABI name of this register.
    pub fn render(&self) -> (r: String)
        requires
            self.0 < 32,
        ensures
            r@ == reg_name(self.0),
    {
        let name = match self.0 {
            0 => "zero",
            1 => "ra",
            2 => "sp",
            3 => "gp",
            4 => "tp",
            5 => "t0",
            6 => "t1",
            7 => "t2",
            8 => "s0",
            9 => "s1",
            10 => "a0",
            11 => "a1",
            12 => "a2",
            13 => "a3",
            14 => "a4",
            15 => "a5",
            16 => "a6",
            17 => "a7",
            18 => "s2",
            19 => "s3",
            20 => "s4",
            21 => "s5",
            22 => "s6",
            23 => "s7",
            24 => "s8",
            25 => "s9",
            26 => "s10",
            27 => "s11",
            28 => "t3",
            29 => "t4",
            30 => "t5",
            _ => "t6",
        };
        String::from_str(name)
    }
}

impl FReg {
    /// The ABI name of this floating-point register.
    pub fn render(&self) -> (r: String)
        requires
            self.0 < 32,
        ensures
            r@ == freg_name(self.0),
    {
        let name = match self.0 {
            0 => "ft0",
            1 => "ft1",
            2 => "ft2",
            3 => "ft3",
            4 => "ft4",
            5 => "ft5",
            6 => "ft6",
            7 => "ft7",
            8 => "fs0",
            9 => "fs1",
            10 => "fa0",
            11 => "fa1",
            12 => "fa2",
            13 => "fa3",
            14 => "fa4",
            15 => "fa5",
            16 => "fa6",
            17 => "fa7",
            18 => "fs2",
            19 => "fs3",
            20 => "fs4",
            21 => "fs5",
            22 => "fs6",
            23 => "fs7",
            24 => "fs8",
            25 => "fs9",
            26 => "fs10",
            27 => "fs11",
            28 => "ft8",
            29 => "ft9",
            30 => "ft10",
            _ => "ft11",
        };
        String::from_str(name)
    }
}

impl Csr {
    /// The CSR address in hexadecimal.
    pub fn render(&self) -> (r: String)
        ensures
            r@ == csr_text(*self),
    {
        hex_u32(self.0 as u32)
    }
}

impl Imm {
    /// The signed value of the immediate in decimal.
    pub fn render(&self) -> (r: String)
        ensures
            r@ == imm_text(*self),
    {
        dec_i64(self.as_i64())
    }
}

impl FenceSet {
    /// The fence set in assembler notation: a subset of `iorw`, or `0` when
    /// empty.
    pub fn render(&self) -> (r: String)
        ensures
            r@ == fence_set_text(*self),
    {
        if !self.device_input && !self.device_output && !self.memory_read && !self.memory_write {
            return String::from_str("0");
        }
        let mut s = String::new();
        if self.device_input {
            s.append("i");
        }
        if self.device_output {
            s.append("o");
        }
        if self.memory_read {
            s.append("r");
        }
        if self.memory_write {
            s.append("w");
        }
        s
    }
}

impl AmoOrdering {
    /// The ordering suffix in assembler notation.
    pub fn render(&self) -> (r: String)
        ensures
            r@ == amo_order_name(*self),
    {
        let name = match self {
            AmoOrdering::Relaxed => "",
            AmoOrdering::Acquire => ".aq",
            AmoOrdering::Release => ".rl",
            AmoOrdering::SeqCst => ".aqrl",
        };
        String::from_str(name)
    }
}

impl AmoOp {
    /// The operation name in assembler notation.
    pub fn render(&self) -> (r: String)
        ensures
            r@ == amo_op_name(*self),
    {
        let name = match self {
            AmoOp::Swap => "swap",
            AmoOp::Add => "add",
            AmoOp::Xor => "xor",
            AmoOp::And => "and",
            AmoOp::Or => "or",
            AmoOp::Min => "min",
            AmoOp::Max => "max",
            AmoOp::Minu => "minu",
            AmoOp::Maxu => "maxu",
        };
        String::from_str(name)
    }
}

impl RoundingMode {
    /// The rounding mode in assembler notation.
    pub fn render(&self) -> (r: String)
        ensures
            r@ == rm_name(*self),
    {
        let name = match self {
            RoundingMode::RoundToNearestTiesToEven => "rne",
            RoundingMode::RoundTowardsZero => "rtz",
            RoundingMode::RoundDown => "rdn",
            RoundingMode::RoundUp => "rup",
            RoundingMode::RoundToNearestTiesToMax => "rmm",
            RoundingMode::Dynamic => "dyn",
        };
        String::from_str(name)
    }
}

impl DecodeError {
    /// A human-readable description of the rejection.
    pub fn render(&self) -> (r: String)
        ensures
            r@ == "failed to decode instruction '"@ + hex_text(self.instruction as nat)
                + "' because of field '"@ + self.unexpected_field@ + "'"@,
    {
        let mut s = String::from_str("failed to decode instruction '");
        s.append(hex_u32(self.instruction).as_str());
        s.append("' because of field '");
        s.append(self.unexpected_field);
        s.append("'");
        s
    }
}

// ---------------------------------------------------------------------------
// Assembler lines from named pieces, with their spec-level counterparts.
// ---------------------------------------------------------------------------

/// A line with one operand.
pub open spec fn t1(name: Seq<char>, a: Seq<char>) -> Seq<char> {
    name + " "@ + a
}

/// A line with two operands.
pub open spec fn t2(name: Seq<char>, a: Seq<char>, b: Seq<char>) -> Seq<char> {
    t1(name, a) + ", "@ + b
}

/// A line with three operands.
pub open spec fn t3(name: Seq<char>, a: Seq<char>, b: Seq<char>, c: Seq<char>) -> Seq<char> {
    t2(name, a, b) + ", "@ + c
}

/// A line with four operands.
pub open spec fn t4(name: Seq<char>, a: Seq<char>, b: Seq<char>, c: Seq<char>, d: Seq<char>) -> Seq<
    char,
> {
    t3(name, a, b, c) + ", "@ + d
}

/// A line in base-plus-offset addressing: `name r, off(base)`.
pub open spec fn tmem(name: Seq<char>, r: Seq<char>, off: Seq<char>, base: Seq<char>) -> Seq<char> {
    t1(name, r) + ", "@ + off + "("@ + base + ")"@
}

/// Append the rounding-mode operand, unless it is the dynamic mode, whose
/// token assemblers leave out.
pub open spec fn t_rm(text: Seq<char>, rm: RoundingMode) -> Seq<char> {
    if rm == RoundingMode::Dynamic {
        text
    } else {
        text + ", "@ + rm_name(rm)
    }
}

fn r1(name: &str, a: String) -> (r: String)
    ensures
        r@ == t1(name@, a@),
{
    let mut s = String::from_str(name);
    s.append(" ");
    s.append(a.as_str());
    s
}

fn r2(name: &str, a: String, b: String) -> (r: String)
    ensures
        r@ == t2(name@, a@, b@),
{
    let mut s = r1(name, a);
    s.append(", ");
    s.append(b.as_str());
    s
}

fn r3(name: &str, a: String, b: String, c: String) -> (r: String)
    ensures
        r@ == t3(name@, a@, b@, c@),
{
    let mut s = r2(name, a, b);
    s.append(", ");
    s.append(c.as_str());
    s
}

fn r4(name: &str, a: String, b: String, c: String, d: String) -> (r: String)
    ensures
        r@ == t4(name@, a@, b@, c@, d@),
{
    let mut s = r3(name, a, b, c);
    s.append(", ");
    s.append(d.as_str());
    s
}

fn mem(name: &str, r: String, off: String, base: String) -> (res: String)
    ensures
        res@ == tmem(name@, r@, off@, base@),
{
    let mut s = r1(name, r);
    s.append(", ");
    s.append(off.as_str());
    s.append("(");
    s.append(base.as_str());
    s.append(")");
    s
}

fn with_rm(text: String, rm: RoundingMode) -> (r: String)
    ensures
        r@ == t_rm(text@, rm),
{
    if matches!(rm, RoundingMode::Dynamic) {
        text
    } else {
        let mut s = text;
        s.append(", ");
        s.append(rm.render().as_str());
        s
    }
}

// ---------------------------------------------------------------------------
// The instruction renderer.
// ---------------------------------------------------------------------------

/// The assembler text of an instruction: the mnemonic, the operands in
/// assembler order, and the common pseudo-instruction aliases (`nop`, `mv`,
/// `li`, `ret`, `j`, `pause`, `fence.tso`, `sext.w`) where they apply. The
/// rounding-mode operand is left out when it is the dynamic mode.
///
/// The definition is opaque to keep the renderer's own proof small; reveal
/// it to evaluate the text of a concrete instruction.
#[verifier::opaque]
pub open spec fn inst_text(inst: Inst) -> Seq<char> {
    match inst {
        Inst::Lui { uimm, dest } => t2("lui"@, reg_name(dest.0), dec_seq((((uimm.bits() as u32)) >> 12) as nat)),
        Inst::Auipc { uimm, dest } => t2("auipc"@, reg_name(dest.0), dec_seq((((uimm.bits() as u32)) >> 12) as nat)),
        Inst::Jal { offset, dest } => if dest.0 == 0 {
            t1("j"@, imm_i32_text(offset))
        } else {
            t2("jal"@, reg_name(dest.0), imm_i32_text(offset))
        },
        Inst::Jalr { offset, base, dest } => if dest.0 == 0 && offset.bits() as u32 == 0 && base.0 == 1 {
            "ret"@
        } else {
            tmem("jalr"@, reg_name(dest.0), imm_i32_text(offset), reg_name(base.0))
        },
        Inst::Beq { offset, src1, src2 } => t3("beq"@, reg_name(src1.0), reg_name(src2.0), imm_i32_text(offset)),
        Inst::Bne { offset, src1, src2 } => t3("bne"@, reg_name(src1.0), reg_name(src2.0), imm_i32_text(offset)),
        Inst::Blt { offset, src1, src2 } => t3("blt"@, reg_name(src1.0), reg_name(src2.0), imm_i32_text(offset)),
        Inst::Bge { offset, src1, src2 } => t3("bge"@, reg_name(src1.0), reg_name(src2.0), imm_i32_text(offset)),
        Inst::Bltu { offset, src1, src2 } => t3("bltu"@, reg_name(src1.0), reg_name(src2.0), imm_i32_text(offset)),
        Inst::Bgeu { offset, src1, src2 } => t3("bgeu"@, reg_name(src1.0), reg_name(src2.0), imm_i32_text(offset)),
        Inst::Lb { offset, dest, base } => tmem("lb"@, reg_name(dest.0), imm_i32_text(offset), reg_name(base.0)),
        Inst::Lbu { offset, dest, base } => tmem("lbu"@, reg_name(dest.0), imm_i32_text(offset), reg_name(base.0)),
        Inst::Lh { offset, dest, base } => tmem("lh"@, reg_name(dest.0), imm_i32_text(offset), reg_name(base.0)),
        Inst::Lhu { offset, dest, base } => tmem("lhu"@, reg_name(dest.0), imm_i32_text(offset), reg_name(base.0)),
        Inst::Lw { offset, dest, base } => tmem("lw"@, reg_name(dest.0), imm_i32_text(offset), reg_name(base.0)),
        Inst::Lwu { offset, dest, base } => tmem("lwu"@, reg_name(dest.0), imm_i32_text(offset), reg_name(base.0)),
        Inst::Ld { offset, dest, base } => tmem("ld"@, reg_name(dest.0), imm_i32_text(offset), reg_name(base.0)),
        Inst::Sb { offset, src, base } => tmem("sb"@, reg_name(src.0), imm_i32_text(offset), reg_name(base.0)),
        Inst::Sh { offset, src, base } => tmem("sh"@, reg_name(src.0), imm_i32_text(offset), reg_name(base.0)),
        Inst::Sw { offset, src, base } => tmem("sw"@, reg_name(src.0), imm_i32_text(offset), reg_name(base.0)),
        Inst::Sd { offset, src, base } => tmem("sd"@, reg_name(src.0), imm_i32_text(offset), reg_name(base.0)),
        Inst::Addi { imm, dest, src1 } => if dest.0 == 0 && src1.0 == 0 && imm.bits() as u32 == 0 {
            "nop"@
        } else if src1.0 == 0 {
            t2("li"@, reg_name(dest.0), imm_i32_text(imm))
        } else if imm.bits() as u32 == 0 {
            t2("mv"@, reg_name(dest.0), reg_name(src1.0))
        } else {
            t3("addi"@, reg_name(dest.0), reg_name(src1.0), imm_i32_text(imm))
        },
        Inst::AddiW { imm, dest, src1 } => if imm.bits() as u32 == 0 {
            t2("sext.w"@, reg_name(dest.0), reg_name(src1.0))
        } else {
            t3("addiw"@, reg_name(dest.0), reg_name(src1.0), imm_i32_text(imm))
        },
        Inst::Slti { imm, dest, src1 } => t3("slti"@, reg_name(dest.0), reg_name(src1.0), imm_i32_text(imm)),
        Inst::Sltiu { imm, dest, src1 } => t3("sltiu"@, reg_name(dest.0), reg_name(src1.0), imm_i32_text(imm)),
        Inst::Xori { imm, dest, src1 } => t3("xori"@, reg_name(dest.0), reg_name(src1.0), imm_i32_text(imm)),
        Inst::Ori { imm, dest, src1 } => t3("ori"@, reg_name(dest.0), reg_name(src1.0), imm_i32_text(imm)),
        Inst::Andi { imm, dest, src1 } => t3("andi"@, reg_name(dest.0), reg_name(src1.0), imm_i32_text(imm)),
        Inst::Slli { imm, dest, src1 } => t3("slli"@, reg_name(dest.0), reg_name(src1.0), imm_i32_text(imm)),
        Inst::SlliW { imm, dest, src1 } => t3("slliw"@, reg_name(dest.0), reg_name(src1.0), imm_i32_text(imm)),
        Inst::Srli { imm, dest, src1 } => t3("srli"@, reg_name(dest.0), reg_name(src1.0), imm_i32_text(imm)),
        Inst::SrliW { imm, dest, src1 } => t3("srliw"@, reg_name(dest.0), reg_name(src1.0), imm_i32_text(imm)),
        Inst::Srai { imm, dest, src1 } => t3("srai"@, reg_name(dest.0), reg_name(src1.0), imm_i32_text(imm)),
        Inst::SraiW { imm, dest, src1 } => t3("sraiw"@, reg_name(dest.0), reg_name(src1.0), imm_i32_text(imm)),
        Inst::Add { dest, src1, src2 } => t3("add"@, reg_name(dest.0), reg_name(src1.0), reg_name(src2.0)),
        Inst::AddW { dest, src1, src2 } => t3("addw"@, reg_name(dest.0), reg_name(src1.0), reg_name(src2.0)),
        Inst::Sub { dest, src1, src2 } => t3("sub"@, reg_name(dest.0), reg_name(src1.0), reg_name(src2.0)),
        Inst::SubW { dest, src1, src2 } => t3("subw"@, reg_name(dest.0), reg_name(src1.0), reg_name(src2.0)),
        Inst::Sll { dest, src1, src2 } => t3("sll"@, reg_name(dest.0), reg_name(src1.0), reg_name(src2.0)),
        Inst::SllW { dest, src1, src2 } => t3("sllw"@, reg_name(dest.0), reg_name(src1.0), reg_name(src2.0)),
        Inst::Slt { dest, src1, src2 } => t3("slt"@, reg_name(dest.0), reg_name(src1.0), reg_name(src2.0)),
        Inst::Sltu { dest, src1, src2 } => t3("sltu"@, reg_name(dest.0), reg_name(src1.0), reg_name(src2.0)),
        Inst::Xor { dest, src1, src2 } => t3("xor"@, reg_name(dest.0), reg_name(src1.0), reg_name(src2.0)),
        Inst::Srl { dest, src1, src2 } => t3("srl"@, reg_name(dest.0), reg_name(src1.0), reg_name(src2.0)),
        Inst::SrlW { dest, src1, src2 } => t3("srlw"@, reg_name(dest.0), reg_name(src1.0), reg_name(src2.0)),
        Inst::Sra { dest, src1, src2 } => t3("sra"@, reg_name(dest.0), reg_name(src1.0), reg_name(src2.0)),
        Inst::SraW { dest, src1, src2 } => t3("sraw"@, reg_name(dest.0), reg_name(src1.0), reg_name(src2.0)),
        Inst::Or { dest, src1, src2 } => t3("or"@, reg_name(dest.0), reg_name(src1.0), reg_name(src2.0)),
        Inst::And { dest, src1, src2 } => t3("and"@, reg_name(dest.0), reg_name(src1.0), reg_name(src2.0)),
        Inst::Mul { dest, src1, src2 } => t3("mul"@, reg_name(dest.0), reg_name(src1.0), reg_name(src2.0)),
        Inst::MulW { dest, src1, src2 } => t3("mulw"@, reg_name(dest.0), reg_name(src1.0), reg_name(src2.0)),
        Inst::Mulh { dest, src1, src2 } => t3("mulh"@, reg_name(dest.0), reg_name(src1.0), reg_name(src2.0)),
        Inst::Mulhsu { dest, src1, src2 } => t3("mulhsu"@, reg_name(dest.0), reg_name(src1.0), reg_name(src2.0)),
        Inst::Mulhu { dest, src1, src2 } => t3("mulhu"@, reg_name(dest.0), reg_name(src1.0), reg_name(src2.0)),
        Inst::Div { dest, src1, src2 } => t3("div"@, reg_name(dest.0), reg_name(src1.0), reg_name(src2.0)),
        Inst::DivW { dest, src1, src2 } => t3("divw"@, reg_name(dest.0), reg_name(src1.0), reg_name(src2.0)),
        Inst::Divu { dest, src1, src2 } => t3("divu"@, reg_name(dest.0), reg_name(src1.0), reg_name(src2.0)),
        Inst::DivuW { dest, src1, src2 } => t3("divuw"@, reg_name(dest.0), reg_name(src1.0), reg_name(src2.0)),
        Inst::Rem { dest, src1, src2 } => t3("rem"@, reg_name(dest.0), reg_name(src1.0), reg_name(src2.0)),
        Inst::RemW { dest, src1, src2 } => t3("remw"@, reg_name(dest.0), reg_name(src1.0), reg_name(src2.0)),
        Inst::Remu { dest, src1, src2 } => t3("remu"@, reg_name(dest.0), reg_name(src1.0), reg_name(src2.0)),
        Inst::RemuW { dest, src1, src2 } => t3("remuw"@, reg_name(dest.0), reg_name(src1.0), reg_name(src2.0)),
        Inst::Fence { fence } => if fence.fm == 8 && fence.pred.memory_read && fence.pred.memory_write
            && fence.succ.memory_read && fence.succ.memory_write {
            "fence.tso"@
        } else if fence.fm == 0 && !fence.pred.device_input && !fence.pred.device_output
            && !fence.pred.memory_read && fence.pred.memory_write && !fence.succ.device_input
            && !fence.succ.device_output && !fence.succ.memory_read && !fence.succ.memory_write
            && fence.dest.0 == 0 && fence.src.0 == 0 {
            "pause"@
        } else {
            "fence "@ + fence_set_text(fence.pred) + ","@ + fence_set_text(fence.succ)
        },
        Inst::Ecall => "ecall"@,
        Inst::Ebreak => "ebreak"@,
        Inst::LrW { order, dest, addr } => "lr.w"@ + amo_order_name(order) + " "@ + reg_name(dest.0) + ", ("@ + reg_name(addr.0)
            + ")"@,
        Inst::ScW { order, dest, addr, src } => "sc.w"@ + amo_order_name(order) + " "@ + reg_name(dest.0) + ", "@ + reg_name(src.0)
            + ", ("@ + reg_name(addr.0) + ")"@,
        Inst::AmoW { order, op, dest, addr, src } => "amo"@ + amo_op_name(op) + ".w"@ + amo_order_name(order) + " "@ + reg_name(dest.0)
            + ", "@ + reg_name(src.0) + ", ("@ + reg_name(addr.0) + ")"@,
        Inst::Csrrw { csr, dest, src } => t3("csrrw"@, reg_name(dest.0), csr_text(csr), reg_name(src.0)),
        Inst::Csrrs { csr, dest, src } => t3("csrrs"@, reg_name(dest.0), csr_text(csr), reg_name(src.0)),
        Inst::Csrrc { csr, dest, src } => t3("csrrc"@, reg_name(dest.0), csr_text(csr), reg_name(src.0)),
        Inst::Csrrwi { csr, dest, uimm } => t3("csrrwi"@, reg_name(dest.0), csr_text(csr), imm_u32_text(uimm)),
        Inst::Csrrsi { csr, dest, uimm } => t3("csrrsi"@, reg_name(dest.0), csr_text(csr), imm_u32_text(uimm)),
        Inst::Csrrci { csr, dest, uimm } => t3("csrrci"@, reg_name(dest.0), csr_text(csr), imm_u32_text(uimm)),
        Inst::Flw { offset, dest, base } => tmem("flw"@, freg_name(dest.0), imm_i32_text(offset), reg_name(base.0)),
        Inst::Fld { offset, dest, base } => tmem("fld"@, freg_name(dest.0), imm_i32_text(offset), reg_name(base.0)),
        Inst::Fsw { offset, src, base } => tmem("fsw"@, freg_name(src.0), imm_i32_text(offset), reg_name(base.0)),
        Inst::Fsd { offset, src, base } => tmem("fsd"@, freg_name(src.0), imm_i32_text(offset), reg_name(base.0)),
        Inst::FmaddS { rm, dest, src1, src2, src3 } => t_rm(t4("fmadd.s"@, freg_name(dest.0), freg_name(src1.0), freg_name(src2.0), freg_name(src3.0)), rm),
        Inst::FmsubS { rm, dest, src1, src2, src3 } => t_rm(t4("fmsub.s"@, freg_name(dest.0), freg_name(src1.0), freg_name(src2.0), freg_name(src3.0)), rm),
        Inst::FnmsubS { rm, dest, src1, src2, src3 } => t_rm(t4("fnmsub.s"@, freg_name(dest.0), freg_name(src1.0), freg_name(src2.0), freg_name(src3.0)), rm),
        Inst::FnmaddS { rm, dest, src1, src2, src3 } => t_rm(t4("fnmadd.s"@, freg_name(dest.0), freg_name(src1.0), freg_name(src2.0), freg_name(src3.0)), rm),
        Inst::FmaddD { rm, dest, src1, src2, src3 } => t_rm(t4("fmadd.d"@, freg_name(dest.0), freg_name(src1.0), freg_name(src2.0), freg_name(src3.0)), rm),
        Inst::FmsubD { rm, dest, src1, src2, src3 } => t_rm(t4("fmsub.d"@, freg_name(dest.0), freg_name(src1.0), freg_name(src2.0), freg_name(src3.0)), rm),
        Inst::FnmsubD { rm, dest, src1, src2, src3 } => t_rm(t4("fnmsub.d"@, freg_name(dest.0), freg_name(src1.0), freg_name(src2.0), freg_name(src3.0)), rm),
        Inst::FnmaddD { rm, dest, src1, src2, src3 } => t_rm(t4("fnmadd.d"@, freg_name(dest.0), freg_name(src1.0), freg_name(src2.0), freg_name(src3.0)), rm),
        Inst::FaddS { rm, dest, src1, src2 } => t_rm(t3("fadd.s"@, freg_name(dest.0), freg_name(src1.0), freg_name(src2.0)), rm),
        Inst::FsubS { rm, dest, src1, src2 } => t_rm(t3("fsub.s"@, freg_name(dest.0), freg_name(src1.0), freg_name(src2.0)), rm),
        Inst::FmulS { rm, dest, src1, src2 } => t_rm(t3("fmul.s"@, freg_name(dest.0), freg_name(src1.0), freg_name(src2.0)), rm),
        Inst::FdivS { rm, dest, src1, src2 } => t_rm(t3("fdiv.s"@, freg_name(dest.0), freg_name(src1.0), freg_name(src2.0)), rm),
        Inst::FaddD { rm, dest, src1, src2 } => t_rm(t3("fadd.d"@, freg_name(dest.0), freg_name(src1.0), freg_name(src2.0)), rm),
        Inst::FsubD { rm, dest, src1, src2 } => t_rm(t3("fsub.d"@, freg_name(dest.0), freg_name(src1.0), freg_name(src2.0)), rm),
        Inst::FmulD { rm, dest, src1, src2 } => t_rm(t3("fmul.d"@, freg_name(dest.0), freg_name(src1.0), freg_name(src2.0)), rm),
        Inst::FdivD { rm, dest, src1, src2 } => t_rm(t3("fdiv.d"@, freg_name(dest.0), freg_name(src1.0), freg_name(src2.0)), rm),
        Inst::FsgnjS { dest, src1, src2 } => t3("fsgnj.s"@, freg_name(dest.0), freg_name(src1.0), freg_name(src2.0)),
        Inst::FsgnjnS { dest, src1, src2 } => t3("fsgnjn.s"@, freg_name(dest.0), freg_name(src1.0), freg_name(src2.0)),
        Inst::FsgnjxS { dest, src1, src2 } => t3("fsgnjx.s"@, freg_name(dest.0), freg_name(src1.0), freg_name(src2.0)),
        Inst::FminS { dest, src1, src2 } => t3("fmin.s"@, freg_name(dest.0), freg_name(src1.0), freg_name(src2.0)),
        Inst::FmaxS { dest, src1, src2 } => t3("fmax.s"@, freg_name(dest.0), freg_name(src1.0), freg_name(src2.0)),
        Inst::FsgnjD { dest, src1, src2 } => t3("fsgnj.d"@, freg_name(dest.0), freg_name(src1.0), freg_name(src2.0)),
        Inst::FsgnjnD { dest, src1, src2 } => t3("fsgnjn.d"@, freg_name(dest.0), freg_name(src1.0), freg_name(src2.0)),
        Inst::FsgnjxD { dest, src1, src2 } => t3("fsgnjx.d"@, freg_name(dest.0), freg_name(src1.0), freg_name(src2.0)),
        Inst::FminD { dest, src1, src2 } => t3("fmin.d"@, freg_name(dest.0), freg_name(src1.0), freg_name(src2.0)),
        Inst::FmaxD { dest, src1, src2 } => t3("fmax.d"@, freg_name(dest.0), freg_name(src1.0), freg_name(src2.0)),
        Inst::FeqS { dest, src1, src2 } => t3("feq.s"@, reg_name(dest.0), freg_name(src1.0), freg_name(src2.0)),
        Inst::FltS { dest, src1, src2 } => t3("flt.s"@, reg_name(dest.0), freg_name(src1.0), freg_name(src2.0)),
        Inst::FleS { dest, src1, src2 } => t3("fle.s"@, reg_name(dest.0), freg_name(src1.0), freg_name(src2.0)),
        Inst::FeqD { dest, src1, src2 } => t3("feq.d"@, reg_name(dest.0), freg_name(src1.0), freg_name(src2.0)),
        Inst::FltD { dest, src1, src2 } => t3("flt.d"@, reg_name(dest.0), freg_name(src1.0), freg_name(src2.0)),
        Inst::FleD { dest, src1, src2 } => t3("fle.d"@, reg_name(dest.0), freg_name(src1.0), freg_name(src2.0)),
        Inst::FsqrtS { rm, dest, src } => t_rm(t2("fsqrt.s"@, freg_name(dest.0), freg_name(src.0)), rm),
        Inst::FsqrtD { rm, dest, src } => t_rm(t2("fsqrt.d"@, freg_name(dest.0), freg_name(src.0)), rm),
        Inst::FcvtWS { rm, dest, src } => t_rm(t2("fcvt.w.s"@, reg_name(dest.0), freg_name(src.0)), rm),
        Inst::FcvtWuS { rm, dest, src } => t_rm(t2("fcvt.wu.s"@, reg_name(dest.0), freg_name(src.0)), rm),
        Inst::FcvtWD { rm, dest, src } => t_rm(t2("fcvt.w.d"@, reg_name(dest.0), freg_name(src.0)), rm),
        Inst::FcvtWuD { rm, dest, src } => t_rm(t2("fcvt.wu.d"@, reg_name(dest.0), freg_name(src.0)), rm),
        Inst::FcvtLS { rm, dest, src } => t_rm(t2("fcvt.l.s"@, reg_name(dest.0), freg_name(src.0)), rm),
        Inst::FcvtLuS { rm, dest, src } => t_rm(t2("fcvt.lu.s"@, reg_name(dest.0), freg_name(src.0)), rm),
        Inst::FcvtLD { rm, dest, src } => t_rm(t2("fcvt.l.d"@, reg_name(dest.0), freg_name(src.0)), rm),
        Inst::FcvtLuD { rm, dest, src } => t_rm(t2("fcvt.lu.d"@, reg_name(dest.0), freg_name(src.0)), rm),
        Inst::FcvtSW { rm, dest, src } => t_rm(t2("fcvt.s.w"@, freg_name(dest.0), reg_name(src.0)), rm),
        Inst::FcvtSWu { rm, dest, src } => t_rm(t2("fcvt.s.wu"@, freg_name(dest.0), reg_name(src.0)), rm),
        Inst::FcvtDW { rm, dest, src } => t_rm(t2("fcvt.d.w"@, freg_name(dest.0), reg_name(src.0)), rm),
        Inst::FcvtDWu { rm, dest, src } => t_rm(t2("fcvt.d.wu"@, freg_name(dest.0), reg_name(src.0)), rm),
        Inst::FcvtSL { rm, dest, src } => t_rm(t2("fcvt.s.l"@, freg_name(dest.0), reg_name(src.0)), rm),
        Inst::FcvtSLu { rm, dest, src } => t_rm(t2("fcvt.s.lu"@, freg_name(dest.0), reg_name(src.0)), rm),
        Inst::FcvtDL { rm, dest, src } => t_rm(t2("fcvt.d.l"@, freg_name(dest.0), reg_name(src.0)), rm),
        Inst::FcvtDLu { rm, dest, src } => t_rm(t2("fcvt.d.lu"@, freg_name(dest.0), reg_name(src.0)), rm),
        Inst::FcvtSD { rm, dest, src } => t_rm(t2("fcvt.s.d"@, freg_name(dest.0), freg_name(src.0)), rm),
        Inst::FcvtDS { rm, dest, src } => t_rm(t2("fcvt.d.s"@, freg_name(dest.0), freg_name(src.0)), rm),
        Inst::FmvXW { dest, src } => t2("fmv.x.w"@, reg_name(dest.0), freg_name(src.0)),
        Inst::FmvXD { dest, src } => t2("fmv.x.d"@, reg_name(dest.0), freg_name(src.0)),
        Inst::FclassS { dest, src } => t2("fclass.s"@, reg_name(dest.0), freg_name(src.0)),
        Inst::FclassD { dest, src } => t2("fclass.d"@, reg_name(dest.0), freg_name(src.0)),
        Inst::FmvWX { dest, src } => t2("fmv.w.x"@, freg_name(dest.0), reg_name(src.0)),
        Inst::FmvDX { dest, src } => t2("fmv.d.x"@, freg_name(dest.0), reg_name(src.0)),
    }
}

/// One slice of the instruction set, for [`Inst::render`].
#[verifier::rlimit(100)]
fn render_part_1(inst: &Inst) -> (r: String)
    requires
        inst_wf(*inst),
        inst matches Inst::Lui { .. }
        || inst matches Inst::Auipc { .. }
        || inst matches Inst::Jal { .. }
        || inst matches Inst::Jalr { .. }
        || inst matches Inst::Beq { .. }
        || inst matches Inst::Bne { .. }
        || inst matches Inst::Blt { .. }
        || inst matches Inst::Bge { .. }
        || inst matches Inst::Bltu { .. }
        || inst matches Inst::Bgeu { .. }
        || inst matches Inst::Lb { .. }
        || inst matches Inst::Lbu { .. }
        || inst matches Inst::Lh { .. }
        || inst matches Inst::Lhu { .. }
        || inst matches Inst::Lw { .. }
        || inst matches Inst::Lwu { .. }
        || inst matches Inst::Ld { .. },
    ensures
        r@ == inst_text(*inst),
{
    match *inst {
            Inst::Lui { uimm, dest } => {
                let s = r2("lui", dest.render(), dec_u32(uimm.as_u32() >> 12));
                proof {
                    assert(s@ == inst_text(*inst)) by {
                        reveal(inst_text);
                    };
                }
                s
            },
            Inst::Auipc { uimm, dest } => {
                let s = r2("auipc", dest.render(), dec_u32(uimm.as_u32() >> 12));
                proof {
                    assert(s@ == inst_text(*inst)) by {
                        reveal(inst_text);
                    };
                }
                s
            },
            Inst::Jal { offset, dest } => {
                let s = if dest.0 == 0 {
                r1("j", dec_i32(offset.as_i32()))
            } else {
                r2("jal", dest.render(), dec_i32(offset.as_i32()))
            };
                proof {
                    assert(s@ == inst_text(*inst)) by {
                        reveal(inst_text);
                    };
                }
                s
            },
            Inst::Jalr { offset, base, dest } => {
                let s = if dest.0 == 0 && offset.as_u32() == 0 && base.0 == 1 {
                String::from_str("ret")
            } else {
                mem("jalr", dest.render(), dec_i32(offset.as_i32()), base.render())
            };
                proof {
                    assert(s@ == inst_text(*inst)) by {
                        reveal(inst_text);
                    };
                }
                s
            },
            Inst::Beq { offset, src1, src2 } => {
                let s = r3("beq", src1.render(), src2.render(), dec_i32(offset.as_i32()));
                proof {
                    assert(s@ == inst_text(*inst)) by {
                        reveal(inst_text);
                    };
                }
                s
            },
            Inst::Bne { offset, src1, src2 } => {
                let s = r3("bne", src1.render(), src2.render(), dec_i32(offset.as_i32()));
                proof {
                    assert(s@ == inst_text(*inst)) by {
                        reveal(inst_text);
                    };
                }
                s
            },
            Inst::Blt { offset, src1, src2 } => {
                let s = r3("blt", src1.render(), src2.render(), dec_i32(offset.as_i32()));
                proof {
                    assert(s@ == inst_text(*inst)) by {
                        reveal(inst_text);
                    };
                }
                s
            },
            Inst::Bge { offset, src1, src2 } => {
                let s = r3("bge", src1.render(), src2.render(), dec_i32(offset.as_i32()));
                proof {
                    assert(s@ == inst_text(*inst)) by {
                        reveal(inst_text);
                    };
                }
                s
            },
            Inst::Bltu { offset, src1, src2 } => {
                let s = r3("bltu", src1.render(), src2.render(), dec_i32(offset.as_i32()));
                proof {
                    assert(s@ == inst_text(*inst)) by {
                        reveal(inst_text);
                    };
                }
                s
            },
            Inst::Bgeu { offset, src1, src2 } => {
                let s = r3("bgeu", src1.render(), src2.render(), dec_i32(offset.as_i32()));
                proof {
                    assert(s@ == inst_text(*inst)) by {
                        reveal(inst_text);
                    };
                }
                s
            },
            Inst::Lb { offset, dest, base } => {
                let s = mem("lb", dest.render(), dec_i32(offset.as_i32()), base.render());
                proof {
                    assert(s@ == inst_text(*inst)) by {
                        reveal(inst_text);
                    };
                }
                s
            },
            Inst::Lbu { offset, dest, base } => {
                let s = mem("lbu", dest.render(), dec_i32(offset.as_i32()), base.render());
                proof {
                    assert(s@ == inst_text(*inst)) by {
                        reveal(inst_text);
                    };
                }
                s
            },
            Inst::Lh { offset, dest, base } => {
                let s = mem("lh", dest.render(), dec_i32(offset.as_i32()), base.render());
                proof {
                    assert(s@ == inst_text(*inst)) by {
                        reveal(inst_text);
                    };
                }
                s
            },
            Inst::Lhu { offset, dest, base } => {
                let s = mem("lhu", dest.render(), dec_i32(offset.as_i32()), base.render());
                proof {
                    assert(s@ == inst_text(*inst)) by {
                        reveal(inst_text);
                    };
                }
                s
            },
            Inst::Lw { offset, dest, base } => {
                let s = mem("lw", dest.render(), dec_i32(offset.as_i32()), base.render());
                proof {
                    assert(s@ == inst_text(*inst)) by {
                        reveal(inst_text);
                    };
                }
                s
            },
            Inst::Lwu { offset, dest, base } => {
                let s = mem("lwu", dest.render(), dec_i32(offset.as_i32()), base.render());
                proof {
                    assert(s@ == inst_text(*inst)) by {
                        reveal(inst_text);
                    };
                }
                s
            },
            Inst::Ld { offset, dest, base } => {
                let s = mem("ld", dest.render(), dec_i32(offset.as_i32()), base.render());
                proof {
                    assert(s@ == inst_text(*inst)) by {
                        reveal(inst_text);
                    };
                }
                s
            },
        _ => {
            proof {
                assert(false);
            }
            String::new()
        },
    }
}

/// One slice of the instruction set, for [`Inst::render`].
#[verifier::rlimit(100)]
fn render_part_2(inst: &Inst) -> (r: String)
    requires
        inst_wf(*inst),
        inst matches Inst::Sb { .. }
        || inst matches Inst::Sh { .. }
        || inst matches Inst::Sw { .. }
        || inst matches Inst::Sd { .. }
        || inst matches Inst::Addi { .. }
        || inst matches Inst::AddiW { .. }
        || inst matches Inst::Slti { .. }
        || inst matches Inst::Sltiu { .. }
        || inst matches Inst::Xori { .. }
        || inst matches Inst::Ori { .. }
        || inst matches Inst::Andi { .. }
        || inst matches Inst::Slli { .. }
        || inst matches Inst::SlliW { .. }
        || inst matches Inst::Srli { .. }
        || inst matches Inst::SrliW { .. }
        || inst matches Inst::Srai { .. }
        || inst matches Inst::SraiW { .. },
    ensures
        r@ == inst_text(*inst),
{
    match *inst {
            Inst::Sb { offset, src, base } => {
                let s = mem("sb", src.render(), dec_i32(offset.as_i32()), base.render());
                proof {
                    assert(s@ == inst_text(*inst)) by {
                        reveal(inst_text);
                    };
                }
                s
            },
            Inst::Sh { offset, src, base } => {
                let s = mem("sh", src.render(), dec_i32(offset.as_i32()), base.render());
                proof {
                    assert(s@ == inst_text(*inst)) by {
                        reveal(inst_text);
                    };
                }
                s
            },
            Inst::Sw { offset, src, base } => {
                let s = mem("sw", src.render(), dec_i32(offset.as_i32()), base.render());
                proof {
                    assert(s@ == inst_text(*inst)) by {
                        reveal(inst_text);
                    };
                }
                s
            },
            Inst::Sd { offset, src, base } => {
                let s = mem("sd", src.render(), dec_i32(offset.as_i32()), base.render());
                proof {
                    assert(s@ == inst_text(*inst)) by {
                        reveal(inst_text);
                    };
                }
                s
            },
            Inst::Addi { imm, dest, src1 } => {
                let s = if dest.0 == 0 && src1.0 == 0 && imm.as_u32() == 0 {
                String::from_str("nop")
            } else if src1.0 == 0 {
                r2("li", dest.render(), dec_i32(imm.as_i32()))
            } else if imm.as_u32() == 0 {
                r2("mv", dest.render(), src1.render())
            } else {
                r3("addi", dest.render(), src1.render(), dec_i32(imm.as_i32()))
            };
                proof {
                    assert(s@ == inst_text(*inst)) by {
                        reveal(inst_text);
                    };
                }
                s
            },
            Inst::AddiW { imm, dest, src1 } => {
                let s = if imm.as_u32() == 0 {
                r2("sext.w", dest.render(), src1.render())
            } else {
                r3("addiw", dest.render(), src1.render(), dec_i32(imm.as_i32()))
            };
                proof {
                    assert(s@ == inst_text(*inst)) by {
                        reveal(inst_text);
                    };
                }
                s
            },
            Inst::Slti { imm, dest, src1 } => {
                let s = r3("slti", dest.render(), src1.render(), dec_i32(imm.as_i32()));
                proof {
                    assert(s@ == inst_text(*inst)) by {
                        reveal(inst_text);
                    };
                }
                s
            },
            Inst::Sltiu { imm, dest, src1 } => {
                let s = r3("sltiu", dest.render(), src1.render(), dec_i32(imm.as_i32()));
                proof {
                    assert(s@ == inst_text(*inst)) by {
                        reveal(inst_text);
                    };
                }
                s
            },
            Inst::Xori { imm, dest, src1 } => {
                let s = r3("xori", dest.render(), src1.render(), dec_i32(imm.as_i32()));
                proof {
                    assert(s@ == inst_text(*inst)) by {
                        reveal(inst_text);
                    };
                }
                s
            },
            Inst::Ori { imm, dest, src1 } => {
                let s = r3("ori", dest.render(), src1.render(), dec_i32(imm.as_i32()));
                proof {
                    assert(s@ == inst_text(*inst)) by {
                        reveal(inst_text);
                    };
                }
                s
            },
            Inst::Andi { imm, dest, src1 } => {
                let s = r3("andi", dest.render(), src1.render(), dec_i32(imm.as_i32()));
                proof {
                    assert(s@ == inst_text(*inst)) by {
                        reveal(inst_text);
                    };
                }
                s
            },
            Inst::Slli { imm, dest, src1 } => {
                let s = r3("slli", dest.render(), src1.render(), dec_i32(imm.as_i32()));
                proof {
                    assert(s@ == inst_text(*inst)) by {
                        reveal(inst_text);
                    };
                }
                s
            },
            Inst::SlliW { imm, dest, src1 } => {
                let s = r3("slliw", dest.render(), src1.render(), dec_i32(imm.as_i32()));
                proof {
                    assert(s@ == inst_text(*inst)) by {
                        reveal(inst_text);
                    };
                }
                s
            },
            Inst::Srli { imm, dest, src1 } => {
                let s = r3("srli", dest.render(), src1.render(), dec_i32(imm.as_i32()));
                proof {
                    assert(s@ == inst_text(*inst)) by {
                        reveal(inst_text);
                    };
                }
                s
            },
            Inst::SrliW { imm, dest, src1 } => {
                let s = r3("srliw", dest.render(), src1.render(), dec_i32(imm.as_i32()));
                proof {
                    assert(s@ == inst_text(*inst)) by {
                        reveal(inst_text);
                    };
                }
                s
            },
            Inst::Srai { imm, dest, src1 } => {
                let s = r3("srai", dest.render(), src1.render(), dec_i32(imm.as_i32()));
                proof {
                    assert(s@ == inst_text(*inst)) by {
                        reveal(inst_text);
                    };
                }
                s
            },
            Inst::SraiW { imm, dest, src1 } => {
                let s = r3("sraiw", dest.render(), src1.render(), dec_i32(imm.as_i32()));
                proof {
                    assert(s@ == inst_text(*inst)) by {
                        reveal(inst_text);
                    };
                }
                s
            },
        _ => {
            proof {
                assert(false);
            }
            String::new()
        },
    }
}

/// One slice of the instruction set, for [`Inst::render`].
#[verifier::rlimit(100)]
fn render_part_3(inst: &Inst) -> (r: String)
    requires
        inst_wf(*inst),
        inst matches Inst::Add { .. }
        || inst matches Inst::AddW { .. }
        || inst matches Inst::Sub { .. }
        || inst matches Inst::SubW { .. }
        || inst matches Inst::Sll { .. }
        || inst matches Inst::SllW { .. }
        || inst matches Inst::Slt { .. }
        || inst matches Inst::Sltu { .. }
        || inst matches Inst::Xor { .. }
        || inst matches Inst::Srl { .. }
        || inst matches Inst::SrlW { .. }
        || inst matches Inst::Sra { .. }
        || inst matches Inst::SraW { .. }
        || inst matches Inst::Or { .. }
        || inst matches Inst::And { .. }
        || inst matches Inst::Mul { .. }
        || inst matches Inst::MulW { .. },
    ensures
        r@ == inst_text(*inst),
{
    match *inst {
            Inst::Add { dest, src1, src2 } => {
                let s = r3("add", dest.render(), src1.render(), src2.render());
                proof {
                    assert(s@ == inst_text(*inst)) by {
                        reveal(inst_text);
                    };
                }
                s
            },
            Inst::AddW { dest, src1, src2 } => {
                let s = r3("addw", dest.render(), src1.render(), src2.render());
                proof {
                    assert(s@ == inst_text(*inst)) by {
                        reveal(inst_text);
                    };
                }
                s
            },
            Inst::Sub { dest, src1, src2 } => {
                let s = r3("sub", dest.render(), src1.render(), src2.render());
                proof {
                    assert(s@ == inst_text(*inst)) by {
                        reveal(inst_text);
                    };
                }
                s
            },
            Inst::SubW { dest, src1, src2 } => {
                let s = r3("subw", dest.render(), src1.render(), src2.render());
                proof {
                    assert(s@ == inst_text(*inst)) by {
                        reveal(inst_text);
                    };
                }
                s
            },
            Inst::Sll { dest, src1, src2 } => {
                let s = r3("sll", dest.render(), src1.render(), src2.render());
                proof {
                    assert(s@ == inst_text(*inst)) by {
                        reveal(inst_text);
                    };
                }
                s
            },
            Inst::SllW { dest, src1, src2 } => {
                let s = r3("sllw", dest.render(), src1.render(), src2.render());
                proof {
                    assert(s@ == inst_text(*inst)) by {
                        reveal(inst_text);
                    };
                }
                s
            },
            Inst::Slt { dest, src1, src2 } => {
                let s = r3("slt", dest.render(), src1.render(), src2.render());
                proof {
                    assert(s@ == inst_text(*inst)) by {
                        reveal(inst_text);
                    };
                }
                s
            },
            Inst::Sltu { dest, src1, src2 } => {
                let s = r3("sltu", dest.render(), src1.render(), src2.render());
                proof {
                    assert(s@ == inst_text(*inst)) by {
                        reveal(inst_text);
                    };
                }
                s
            },
            Inst::Xor { dest, src1, src2 } => {
                let s = r3("xor", dest.render(), src1.render(), src2.render());
                proof {
                    assert(s@ == inst_text(*inst)) by {
                        reveal(inst_text);
                    };
                }
                s
            },
            Inst::Srl { dest, src1, src2 } => {
                let s = r3("srl", dest.render(), src1.render(), src2.render());
                proof {
                    assert(s@ == inst_text(*inst)) by {
                        reveal(inst_text);
                    };
                }
                s
            },
            Inst::SrlW { dest, src1, src2 } => {
                let s = r3("srlw", dest.render(), src1.render(), src2.render());
                proof {
                    assert(s@ == inst_text(*inst)) by {
                        reveal(inst_text);
                    };
                }
                s
            },
            Inst::Sra { dest, src1, src2 } => {
                let s = r3("sra", dest.render(), src1.render(), src2.render());
                proof {
                    assert(s@ == inst_text(*inst)) by {
                        reveal(inst_text);
                    };
                }
                s
            },
            Inst::SraW { dest, src1, src2 } => {
                let s = r3("sraw", dest.render(), src1.render(), src2.render());
                proof {
                    assert(s@ == inst_text(*inst)) by {
                        reveal(inst_text);
                    };
                }
                s
            },
            Inst::Or { dest, src1, src2 } => {
                let s = r3("or", dest.render(), src1.render(), src2.render());
                proof {
                    assert(s@ == inst_text(*inst)) by {
                        reveal(inst_text);
                    };
                }
                s
            },
            Inst::And { dest, src1, src2 } => {
                let s = r3("and", dest.render(), src1.render(), src2.render());
                proof {
                    assert(s@ == inst_text(*inst)) by {
                        reveal(inst_text);
                    };
                }
                s
            },
            Inst::Mul { dest, src1, src2 } => {
                let s = r3("mul", dest.render(), src1.render(), src2.render());
                proof {
                    assert(s@ == inst_text(*inst)) by {
                        reveal(inst_text);
                    };
                }
                s
            },
            Inst::MulW { dest, src1, src2 } => {
                let s = r3("mulw", dest.render(), src1.render(), src2.render());
                proof {
                    assert(s@ == inst_text(*inst)) by {
                        reveal(inst_text);
                    };
                }
                s
            },
        _ => {
            proof {
                assert(false);
            }
            String::new()
        },
    }
}

/// One slice of the instruction set, for [`Inst::render`].
#[verifier::rlimit(100)]
fn render_part_4(inst: &Inst) -> (r: String)
    requires
        inst_wf(*inst),
        inst matches Inst::Mulh { .. }
        || inst matches Inst::Mulhsu { .. }
        || inst matches Inst::Mulhu { .. }
        || inst matches Inst::Div { .. }
        || inst matches Inst::DivW { .. }
        || inst matches Inst::Divu { .. }
        || inst matches Inst::DivuW { .. }
        || inst matches Inst::Rem { .. }
        || inst matches Inst::RemW { .. }
        || inst matches Inst::Remu { .. }
        || inst matches Inst::RemuW { .. }
        || inst matches Inst::Fence { .. }
        || inst matches Inst::Ecall
        || inst matches Inst::Ebreak
        || inst matches Inst::LrW { .. }
        || inst matches Inst::ScW { .. }
        || inst matches Inst::AmoW { .. },
    ensures
        r@ == inst_text(*inst),
{
    match *inst {
            Inst::Mulh { dest, src1, src2 } => {
                let s = r3("mulh", dest.render(), src1.render(), src2.render());
                proof {
                    assert(s@ == inst_text(*inst)) by {
                        reveal(inst_text);
                    };
                }
                s
            },
            Inst::Mulhsu { dest, src1, src2 } => {
                let s = r3("mulhsu", dest.render(), src1.render(), src2.render());
                proof {
                    assert(s@ == inst_text(*inst)) by {
                        reveal(inst_text);
                    };
                }
                s
            },
            Inst::Mulhu { dest, src1, src2 } => {
                let s = r3("mulhu", dest.render(), src1.render(), src2.render());
                proof {
                    assert(s@ == inst_text(*inst)) by {
                        reveal(inst_text);
                    };
                }
                s
            },
            Inst::Div { dest, src1, src2 } => {
                let s = r3("div", dest.render(), src1.render(), src2.render());
                proof {
                    assert(s@ == inst_text(*inst)) by {
                        reveal(inst_text);
                    };
                }
                s
            },
            Inst::DivW { dest, src1, src2 } => {
                let s = r3("divw", dest.render(), src1.render(), src2.render());
                proof {
                    assert(s@ == inst_text(*inst)) by {
                        reveal(inst_text);
                    };
                }
                s
            },
            Inst::Divu { dest, src1, src2 } => {
                let s = r3("divu", dest.render(), src1.render(), src2.render());
                proof {
                    assert(s@ == inst_text(*inst)) by {
                        reveal(inst_text);
                    };
                }
                s
            },
            Inst::DivuW { dest, src1, src2 } => {
                let s = r3("divuw", dest.render(), src1.render(), src2.render());
                proof {
                    assert(s@ == inst_text(*inst)) by {
                        reveal(inst_text);
                    };
                }
                s
            },
            Inst::Rem { dest, src1, src2 } => {
                let s = r3("rem", dest.render(), src1.render(), src2.render());
                proof {
                    assert(s@ == inst_text(*inst)) by {
                        reveal(inst_text);
                    };
                }
                s
            },
            Inst::RemW { dest, src1, src2 } => {
                let s = r3("remw", dest.render(), src1.render(), src2.render());
                proof {
                    assert(s@ == inst_text(*inst)) by {
                        reveal(inst_text);
                    };
                }
                s
            },
            Inst::Remu { dest, src1, src2 } => {
                let s = r3("remu", dest.render(), src1.render(), src2.render());
                proof {
                    assert(s@ == inst_text(*inst)) by {
                        reveal(inst_text);
                    };
                }
                s
            },
            Inst::RemuW { dest, src1, src2 } => {
                let s = r3("remuw", dest.render(), src1.render(), src2.render());
                proof {
                    assert(s@ == inst_text(*inst)) by {
                        reveal(inst_text);
                    };
                }
                s
            },
            Inst::Fence { fence } => {
                let s = if fence.is_tso() {
                String::from_str("fence.tso")
            } else if fence.fm == 0 && fence.is_pause() {
                String::from_str("pause")
            } else {
                let mut s = String::from_str("fence ");
                s.append(fence.pred.render().as_str());
                s.append(",");
                s.append(fence.succ.render().as_str());
                s
            };
                proof {
                    assert(s@ == inst_text(*inst)) by {
                        reveal(inst_text);
                    };
                }
                s
            },
            Inst::Ecall => {
                let s = String::from_str("ecall");
                proof {
                    assert(s@ == inst_text(*inst)) by {
                        reveal(inst_text);
                    };
                }
                s
            },
            Inst::Ebreak => {
                let s = String::from_str("ebreak");
                proof {
                    assert(s@ == inst_text(*inst)) by {
                        reveal(inst_text);
                    };
                }
                s
            },
            Inst::LrW { order, dest, addr } => {
                let s = {
                let mut s = String::from_str("lr.w");
                s.append(order.render().as_str());
                s.append(" ");
                s.append(dest.render().as_str());
                s.append(", (");
                s.append(addr.render().as_str());
                s.append(")");
                s
            };
                proof {
                    assert(s@ == inst_text(*inst)) by {
                        reveal(inst_text);
                    };
                }
                s
            },
            Inst::ScW { order, dest, addr, src } => {
                let s = {
                let mut s = String::from_str("sc.w");
                s.append(order.render().as_str());
                s.append(" ");
                s.append(dest.render().as_str());
                s.append(", ");
                s.append(src.render().as_str());
                s.append(", (");
                s.append(addr.render().as_str());
                s.append(")");
                s
            };
                proof {
                    assert(s@ == inst_text(*inst)) by {
                        reveal(inst_text);
                    };
                }
                s
            },
            Inst::AmoW { order, op, dest, addr, src } => {
                let s = {
                let mut s = String::from_str("amo");
                s.append(op.render().as_str());
                s.append(".w");
                s.append(order.render().as_str());
                s.append(" ");
                s.append(dest.render().as_str());
                s.append(", ");
                s.append(src.render().as_str());
                s.append(", (");
                s.append(addr.render().as_str());
                s.append(")");
                s
            };
                proof {
                    assert(s@ == inst_text(*inst)) by {
                        reveal(inst_text);
                    };
                }
                s
            },
        _ => {
            proof {
                assert(false);
            }
            String::new()
        },
    }
}

/// One slice of the instruction set, for [`Inst::render`].
#[verifier::rlimit(100)]
fn render_part_5(inst: &Inst) -> (r: String)
    requires
        inst_wf(*inst),
        inst matches Inst::Csrrw { .. }
        || inst matches Inst::Csrrs { .. }
        || inst matches Inst::Csrrc { .. }
        || inst matches Inst::Csrrwi { .. }
        || inst matches Inst::Csrrsi { .. }
        || inst matches Inst::Csrrci { .. }
        || inst matches Inst::Flw { .. }
        || inst matches Inst::Fld { .. }
        || inst matches Inst::Fsw { .. }
        || inst matches Inst::Fsd { .. }
        || inst matches Inst::FmaddS { .. }
        || inst matches Inst::FmsubS { .. }
        || inst matches Inst::FnmsubS { .. }
        || inst matches Inst::FnmaddS { .. }
        || inst matches Inst::FmaddD { .. }
        || inst matches Inst::FmsubD { .. }
        || inst matches Inst::FnmsubD { .. },
    ensures
        r@ == inst_text(*inst),
{
    match *inst {
            Inst::Csrrw { csr, dest, src } => {
                let s = r3("csrrw", dest.render(), csr.render(), src.render());
                proof {
                    assert(s@ == inst_text(*inst)) by {
                        reveal(inst_text);
                    };
                }
                s
            },
            Inst::Csrrs { csr, dest, src } => {
                let s = r3("csrrs", dest.render(), csr.render(), src.render());
                proof {
                    assert(s@ == inst_text(*inst)) by {
                        reveal(inst_text);
                    };
                }
                s
            },
            Inst::Csrrc { csr, dest, src } => {
                let s = r3("csrrc", dest.render(), csr.render(), src.render());
                proof {
                    assert(s@ == inst_text(*inst)) by {
                        reveal(inst_text);
                    };
                }
                s
            },
            Inst::Csrrwi { csr, dest, uimm } => {
                let s = r3("csrrwi", dest.render(), csr.render(), dec_u32(uimm.as_u32()));
                proof {
                    assert(s@ == inst_text(*inst)) by {
                        reveal(inst_text);
                    };
                }
                s
            },
            Inst::Csrrsi { csr, dest, uimm } => {
                let s = r3("csrrsi", dest.render(), csr.render(), dec_u32(uimm.as_u32()));
                proof {
                    assert(s@ == inst_text(*inst)) by {
                        reveal(inst_text);
                    };
                }
                s
            },
            Inst::Csrrci { csr, dest, uimm } => {
                let s = r3("csrrci", dest.render(), csr.render(), dec_u32(uimm.as_u32()));
                proof {
                    assert(s@ == inst_text(*inst)) by {
                        reveal(inst_text);
                    };
                }
                s
            },
            Inst::Flw { offset, dest, base } => {
                let s = mem("flw", dest.render(), dec_i32(offset.as_i32()), base.render());
                proof {
                    assert(s@ == inst_text(*inst)) by {
                        reveal(inst_text);
                    };
                }
                s
            },
            Inst::Fld { offset, dest, base } => {
                let s = mem("fld", dest.render(), dec_i32(offset.as_i32()), base.render());
                proof {
                    assert(s@ == inst_text(*inst)) by {
                        reveal(inst_text);
                    };
                }
                s
            },
            Inst::Fsw { offset, src, base } => {
                let s = mem("fsw", src.render(), dec_i32(offset.as_i32()), base.render());
                proof {
                    assert(s@ == inst_text(*inst)) by {
                        reveal(inst_text);
                    };
                }
                s
            },
            Inst::Fsd { offset, src, base } => {
                let s = mem("fsd", src.render(), dec_i32(offset.as_i32()), base.render());
                proof {
                    assert(s@ == inst_text(*inst)) by {
                        reveal(inst_text);
                    };
                }
                s
            },
            Inst::FmaddS { rm, dest, src1, src2, src3 } => {
                let s = with_rm(r4("fmadd.s", dest.render(), src1.render(), src2.render(), src3.render()), rm);
                proof {
                    assert(s@ == inst_text(*inst)) by {
                        reveal(inst_text);
                    };
                }
                s
            },
            Inst::FmsubS { rm, dest, src1, src2, src3 } => {
                let s = with_rm(r4("fmsub.s", dest.render(), src1.render(), src2.render(), src3.render()), rm);
                proof {
                    assert(s@ == inst_text(*inst)) by {
                        reveal(inst_text);
                    };
                }
                s
            },
            Inst::FnmsubS { rm, dest, src1, src2, src3 } => {
                let s = with_rm(r4("fnmsub.s", dest.render(), src1.render(), src2.render(), src3.render()), rm);
                proof {
                    assert(s@ == inst_text(*inst)) by {
                        reveal(inst_text);
                    };
                }
                s
            },
            Inst::FnmaddS { rm, dest, src1, src2, src3 } => {
                let s = with_rm(r4("fnmadd.s", dest.render(), src1.render(), src2.render(), src3.render()), rm);
                proof {
                    assert(s@ == inst_text(*inst)) by {
                        reveal(inst_text);
                    };
                }
                s
            },
            Inst::FmaddD { rm, dest, src1, src2, src3 } => {
                let s = with_rm(r4("fmadd.d", dest.render(), src1.render(), src2.render(), src3.render()), rm);
                proof {
                    assert(s@ == inst_text(*inst)) by {
                        reveal(inst_text);
                    };
                }
                s
            },
            Inst::FmsubD { rm, dest, src1, src2, src3 } => {
                let s = with_rm(r4("fmsub.d", dest.render(), src1.render(), src2.render(), src3.render()), rm);
                proof {
                    assert(s@ == inst_text(*inst)) by {
                        reveal(inst_text);
                    };
                }
                s
            },
            Inst::FnmsubD { rm, dest, src1, src2, src3 } => {
                let s = with_rm(r4("fnmsub.d", dest.render(), src1.render(), src2.render(), src3.render()), rm);
                proof {
                    assert(s@ == inst_text(*inst)) by {
                        reveal(inst_text);
                    };
                }
                s
            },
        _ => {
            proof {
                assert(false);
            }
            String::new()
        },
    }
}

/// One slice of the instruction set, for [`Inst::render`].
#[verifier::rlimit(100)]
fn render_part_6(inst: &Inst) -> (r: String)
    requires
        inst_wf(*inst),
        inst matches Inst::FnmaddD { .. }
        || inst matches Inst::FaddS { .. }
        || inst matches Inst::FsubS { .. }
        || inst matches Inst::FmulS { .. }
        || inst matches Inst::FdivS { .. }
        || inst matches Inst::FaddD { .. }
        || inst matches Inst::FsubD { .. }
        || inst matches Inst::FmulD { .. }
        || inst matches Inst::FdivD { .. }
        || inst matches Inst::FsgnjS { .. }
        || inst matches Inst::FsgnjnS { .. }
        || inst matches Inst::FsgnjxS { .. }
        || inst matches Inst::FminS { .. }
        || inst matches Inst::FmaxS { .. }
        || inst matches Inst::FsgnjD { .. }
        || inst matches Inst::FsgnjnD { .. }
        || inst matches Inst::FsgnjxD { .. },
    ensures
        r@ == inst_text(*inst),
{
    match *inst {
            Inst::FnmaddD { rm, dest, src1, src2, src3 } => {
                let s = with_rm(r4("fnmadd.d", dest.render(), src1.render(), src2.render(), src3.render()), rm);
                proof {
                    assert(s@ == inst_text(*inst)) by {
                        reveal(inst_text);
                    };
                }
                s
            },
            Inst::FaddS { rm, dest, src1, src2 } => {
                let s = with_rm(r3("fadd.s", dest.render(), src1.render(), src2.render()), rm);
                proof {
                    assert(s@ == inst_text(*inst)) by {
                        reveal(inst_text);
                    };
                }
                s
            },
            Inst::FsubS { rm, dest, src1, src2 } => {
                let s = with_rm(r3("fsub.s", dest.render(), src1.render(), src2.render()), rm);
                proof {
                    assert(s@ == inst_text(*inst)) by {
                        reveal(inst_text);
                    };
                }
                s
            },
            Inst::FmulS { rm, dest, src1, src2 } => {
                let s = with_rm(r3("fmul.s", dest.render(), src1.render(), src2.render()), rm);
                proof {
                    assert(s@ == inst_text(*inst)) by {
                        reveal(inst_text);
                    };
                }
                s
            },
            Inst::FdivS { rm, dest, src1, src2 } => {
                let s = with_rm(r3("fdiv.s", dest.render(), src1.render(), src2.render()), rm);
                proof {
                    assert(s@ == inst_text(*inst)) by {
                        reveal(inst_text);
                    };
                }
                s
            },
            Inst::FaddD { rm, dest, src1, src2 } => {
                let s = with_rm(r3("fadd.d", dest.render(), src1.render(), src2.render()), rm);
                proof {
                    assert(s@ == inst_text(*inst)) by {
                        reveal(inst_text);
                    };
                }
                s
            },
            Inst::FsubD { rm, dest, src1, src2 } => {
                let s = with_rm(r3("fsub.d", dest.render(), src1.render(), src2.render()), rm);
                proof {
                    assert(s@ == inst_text(*inst)) by {
                        reveal(inst_text);
                    };
                }
                s
            },
            Inst::FmulD { rm, dest, src1, src2 } => {
                let s = with_rm(r3("fmul.d", dest.render(), src1.render(), src2.render()), rm);
                proof {
                    assert(s@ == inst_text(*inst)) by {
                        reveal(inst_text);
                    };
                }
                s
            },
            Inst::FdivD { rm, dest, src1, src2 } => {
                let s = with_rm(r3("fdiv.d", dest.render(), src1.render(), src2.render()), rm);
                proof {
                    assert(s@ == inst_text(*inst)) by {
                        reveal(inst_text);
                    };
                }
                s
            },
            Inst::FsgnjS { dest, src1, src2 } => {
                let s = r3("fsgnj.s", dest.render(), src1.render(), src2.render());
                proof {
                    assert(s@ == inst_text(*inst)) by {
                        reveal(inst_text);
                    };
                }
                s
            },
            Inst::FsgnjnS { dest, src1, src2 } => {
                let s = r3("fsgnjn.s", dest.render(), src1.render(), src2.render());
                proof {
                    assert(s@ == inst_text(*inst)) by {
                        reveal(inst_text);
                    };
                }
                s
            },
            Inst::FsgnjxS { dest, src1, src2 } => {
                let s = r3("fsgnjx.s", dest.render(), src1.render(), src2.render());
                proof {
                    assert(s@ == inst_text(*inst)) by {
                        reveal(inst_text);
                    };
                }
                s
            },
            Inst::FminS { dest, src1, src2 } => {
                let s = r3("fmin.s", dest.render(), src1.render(), src2.render());
                proof {
                    assert(s@ == inst_text(*inst)) by {
                        reveal(inst_text);
                    };
                }
                s
            },
            Inst::FmaxS { dest, src1, src2 } => {
                let s = r3("fmax.s", dest.render(), src1.render(), src2.render());
                proof {
                    assert(s@ == inst_text(*inst)) by {
                        reveal(inst_text);
                    };
                }
                s
            },
            Inst::FsgnjD { dest, src1, src2 } => {
                let s = r3("fsgnj.d", dest.render(), src1.render(), src2.render());
                proof {
                    assert(s@ == inst_text(*inst)) by {
                        reveal(inst_text);
                    };
                }
                s
            },
            Inst::FsgnjnD { dest, src1, src2 } => {
                let s = r3("fsgnjn.d", dest.render(), src1.render(), src2.render());
                proof {
                    assert(s@ == inst_text(*inst)) by {
                        reveal(inst_text);
                    };
                }
                s
            },
            Inst::FsgnjxD { dest, src1, src2 } => {
                let s = r3("fsgnjx.d", dest.render(), src1.render(), src2.render());
                proof {
                    assert(s@ == inst_text(*inst)) by {
                        reveal(inst_text);
                    };
                }
                s
            },
        _ => {
            proof {
                assert(false);
            }
            String::new()
        },
    }
}

/// One slice of the instruction set, for [`Inst::render`].
#[verifier::rlimit(100)]
fn render_part_7(inst: &Inst) -> (r: String)
    requires
        inst_wf(*inst),
        inst matches Inst::FminD { .. }
        || inst matches Inst::FmaxD { .. }
        || inst matches Inst::FeqS { .. }
        || inst matches Inst::FltS { .. }
        || inst matches Inst::FleS { .. }
        || inst matches Inst::FeqD { .. }
        || inst matches Inst::FltD { .. }
        || inst matches Inst::FleD { .. }
        || inst matches Inst::FsqrtS { .. }
        || inst matches Inst::FsqrtD { .. }
        || inst matches Inst::FcvtWS { .. }
        || inst matches Inst::FcvtWuS { .. }
        || inst matches Inst::FcvtWD { .. }
        || inst matches Inst::FcvtWuD { .. }
        || inst matches Inst::FcvtLS { .. }
        || inst matches Inst::FcvtLuS { .. }
        || inst matches Inst::FcvtLD { .. },
    ensures
        r@ == inst_text(*inst),
{
    match *inst {
            Inst::FminD { dest, src1, src2 } => {
                let s = r3("fmin.d", dest.render(), src1.render(), src2.render());
                proof {
                    assert(s@ == inst_text(*inst)) by {
                        reveal(inst_text);
                    };
                }
                s
            },
            Inst::FmaxD { dest, src1, src2 } => {
                let s = r3("fmax.d", dest.render(), src1.render(), src2.render());
                proof {
                    assert(s@ == inst_text(*inst)) by {
                        reveal(inst_text);
                    };
                }
                s
            },
            Inst::FeqS { dest, src1, src2 } => {
                let s = r3("feq.s", dest.render(), src1.render(), src2.render());
                proof {
                    assert(s@ == inst_text(*inst)) by {
                        reveal(inst_text);
                    };
                }
                s
            },
            Inst::FltS { dest, src1, src2 } => {
                let s = r3("flt.s", dest.render(), src1.render(), src2.render());
                proof {
                    assert(s@ == inst_text(*inst)) by {
                        reveal(inst_text);
                    };
                }
                s
            },
            Inst::FleS { dest, src1, src2 } => {
                let s = r3("fle.s", dest.render(), src1.render(), src2.render());
                proof {
                    assert(s@ == inst_text(*inst)) by {
                        reveal(inst_text);
                    };
                }
                s
            },
            Inst::FeqD { dest, src1, src2 } => {
                let s = r3("feq.d", dest.render(), src1.render(), src2.render());
                proof {
                    assert(s@ == inst_text(*inst)) by {
                        reveal(inst_text);
                    };
                }
                s
            },
            Inst::FltD { dest, src1, src2 } => {
                let s = r3("flt.d", dest.render(), src1.render(), src2.render());
                proof {
                    assert(s@ == inst_text(*inst)) by {
                        reveal(inst_text);
                    };
                }
                s
            },
            Inst::FleD { dest, src1, src2 } => {
                let s = r3("fle.d", dest.render(), src1.render(), src2.render());
                proof {
                    assert(s@ == inst_text(*inst)) by {
                        reveal(inst_text);
                    };
                }
                s
            },
            Inst::FsqrtS { rm, dest, src } => {
                let s = with_rm(r2("fsqrt.s", dest.render(), src.render()), rm);
                proof {
                    assert(s@ == inst_text(*inst)) by {
                        reveal(inst_text);
                    };
                }
                s
            },
            Inst::FsqrtD { rm, dest, src } => {
                let s = with_rm(r2("fsqrt.d", dest.render(), src.render()), rm);
                proof {
                    assert(s@ == inst_text(*inst)) by {
                        reveal(inst_text);
                    };
                }
                s
            },
            Inst::FcvtWS { rm, dest, src } => {
                let s = with_rm(r2("fcvt.w.s", dest.render(), src.render()), rm);
                proof {
                    assert(s@ == inst_text(*inst)) by {
                        reveal(inst_text);
                    };
                }
                s
            },
            Inst::FcvtWuS { rm, dest, src } => {
                let s = with_rm(r2("fcvt.wu.s", dest.render(), src.render()), rm);
                proof {
                    assert(s@ == inst_text(*inst)) by {
                        reveal(inst_text);
                    };
                }
                s
            },
            Inst::FcvtWD { rm, dest, src } => {
                let s = with_rm(r2("fcvt.w.d", dest.render(), src.render()), rm);
                proof {
                    assert(s@ == inst_text(*inst)) by {
                        reveal(inst_text);
                    };
                }
                s
            },
            Inst::FcvtWuD { rm, dest, src } => {
                let s = with_rm(r2("fcvt.wu.d", dest.render(), src.render()), rm);
                proof {
                    assert(s@ == inst_text(*inst)) by {
                        reveal(inst_text);
                    };
                }
                s
            },
            Inst::FcvtLS { rm, dest, src } => {
                let s = with_rm(r2("fcvt.l.s", dest.render(), src.render()), rm);
                proof {
                    assert(s@ == inst_text(*inst)) by {
                        reveal(inst_text);
                    };
                }
                s
            },
            Inst::FcvtLuS { rm, dest, src } => {
                let s = with_rm(r2("fcvt.lu.s", dest.render(), src.render()), rm);
                proof {
                    assert(s@ == inst_text(*inst)) by {
                        reveal(inst_text);
                    };
                }
                s
            },
            Inst::FcvtLD { rm, dest, src } => {
                let s = with_rm(r2("fcvt.l.d", dest.render(), src.render()), rm);
                proof {
                    assert(s@ == inst_text(*inst)) by {
                        reveal(inst_text);
                    };
                }
                s
            },
        _ => {
            proof {
                assert(false);
            }
            String::new()
        },
    }
}

/// One slice of the instruction set, for [`Inst::render`].
#[verifier::rlimit(100)]
fn render_part_8(inst: &Inst) -> (r: String)
    requires
        inst_wf(*inst),
        inst matches Inst::FcvtLuD { .. }
        || inst matches Inst::FcvtSW { .. }
        || inst matches Inst::FcvtSWu { .. }
        || inst matches Inst::FcvtDW { .. }
        || inst matches Inst::FcvtDWu { .. }
        || inst matches Inst::FcvtSL { .. }
        || inst matches Inst::FcvtSLu { .. }
        || inst matches Inst::FcvtDL { .. }
        || inst matches Inst::FcvtDLu { .. }
        || inst matches Inst::FcvtSD { .. }
        || inst matches Inst::FcvtDS { .. }
        || inst matches Inst::FmvXW { .. }
        || inst matches Inst::FmvXD { .. }
        || inst matches Inst::FclassS { .. }
        || inst matches Inst::FclassD { .. }
        || inst matches Inst::FmvWX { .. }
        || inst matches Inst::FmvDX { .. },
    ensures
        r@ == inst_text(*inst),
{
    match *inst {
            Inst::FcvtLuD { rm, dest, src } => {
                let s = with_rm(r2("fcvt.lu.d", dest.render(), src.render()), rm);
                proof {
                    assert(s@ == inst_text(*inst)) by {
                        reveal(inst_text);
                    };
                }
                s
            },
            Inst::FcvtSW { rm, dest, src } => {
                let s = with_rm(r2("fcvt.s.w", dest.render(), src.render()), rm);
                proof {
                    assert(s@ == inst_text(*inst)) by {
                        reveal(inst_text);
                    };
                }
                s
            },
            Inst::FcvtSWu { rm, dest, src } => {
                let s = with_rm(r2("fcvt.s.wu", dest.render(), src.render()), rm);
                proof {
                    assert(s@ == inst_text(*inst)) by {
                        reveal(inst_text);
                    };
                }
                s
            },
            Inst::FcvtDW { rm, dest, src } => {
                let s = with_rm(r2("fcvt.d.w", dest.render(), src.render()), rm);
                proof {
                    assert(s@ == inst_text(*inst)) by {
                        reveal(inst_text);
                    };
                }
                s
            },
            Inst::FcvtDWu { rm, dest, src } => {
                let s = with_rm(r2("fcvt.d.wu", dest.render(), src.render()), rm);
                proof {
                    assert(s@ == inst_text(*inst)) by {
                        reveal(inst_text);
                    };
                }
                s
            },
            Inst::FcvtSL { rm, dest, src } => {
                let s = with_rm(r2("fcvt.s.l", dest.render(), src.render()), rm);
                proof {
                    assert(s@ == inst_text(*inst)) by {
                        reveal(inst_text);
                    };
                }
                s
            },
            Inst::FcvtSLu { rm, dest, src } => {
                let s = with_rm(r2("fcvt.s.lu", dest.render(), src.render()), rm);
                proof {
                    assert(s@ == inst_text(*inst)) by {
                        reveal(inst_text);
                    };
                }
                s
            },
            Inst::FcvtDL { rm, dest, src } => {
                let s = with_rm(r2("fcvt.d.l", dest.render(), src.render()), rm);
                proof {
                    assert(s@ == inst_text(*inst)) by {
                        reveal(inst_text);
                    };
                }
                s
            },
            Inst::FcvtDLu { rm, dest, src } => {
                let s = with_rm(r2("fcvt.d.lu", dest.render(), src.render()), rm);
                proof {
                    assert(s@ == inst_text(*inst)) by {
                        reveal(inst_text);
                    };
                }
                s
            },
            Inst::FcvtSD { rm, dest, src } => {
                let s = with_rm(r2("fcvt.s.d", dest.render(), src.render()), rm);
                proof {
                    assert(s@ == inst_text(*inst)) by {
                        reveal(inst_text);
                    };
                }
                s
            },
            Inst::FcvtDS { rm, dest, src } => {
                let s = with_rm(r2("fcvt.d.s", dest.render(), src.render()), rm);
                proof {
                    assert(s@ == inst_text(*inst)) by {
                        reveal(inst_text);
                    };
                }
                s
            },
            Inst::FmvXW { dest, src } => {
                let s = r2("fmv.x.w", dest.render(), src.render());
                proof {
                    assert(s@ == inst_text(*inst)) by {
                        reveal(inst_text);
                    };
                }
                s
            },
            Inst::FmvXD { dest, src } => {
                let s = r2("fmv.x.d", dest.render(), src.render());
                proof {
                    assert(s@ == inst_text(*inst)) by {
                        reveal(inst_text);
                    };
                }
                s
            },
            Inst::FclassS { dest, src } => {
                let s = r2("fclass.s", dest.render(), src.render());
                proof {
                    assert(s@ == inst_text(*inst)) by {
                        reveal(inst_text);
                    };
                }
                s
            },
            Inst::FclassD { dest, src } => {
                let s = r2("fclass.d", dest.render(), src.render());
                proof {
                    assert(s@ == inst_text(*inst)) by {
                        reveal(inst_text);
                    };
                }
                s
            },
            Inst::FmvWX { dest, src } => {
                let s = r2("fmv.w.x", dest.render(), src.render());
                proof {
                    assert(s@ == inst_text(*inst)) by {
                        reveal(inst_text);
                    };
                }
                s
            },
            Inst::FmvDX { dest, src } => {
                let s = r2("fmv.d.x", dest.render(), src.render());
                proof {
                    assert(s@ == inst_text(*inst)) by {
                        reveal(inst_text);
                    };
                }
                s
            },
        _ => {
            proof {
                assert(false);
            }
            String::new()
        },
    }
}

impl Inst {
    /// Render the instruction in assembler style: exactly [`inst_text`].
    pub fn render(&self) -> (r: String)
        requires
            inst_wf(*self),
        ensures
            r@ == inst_text(*self),
    {
        match *self {
            Inst::Lui { .. } => render_part_1(self),
            Inst::Auipc { .. } => render_part_1(self),
            Inst::Jal { .. } => render_part_1(self),
            Inst::Jalr { .. } => render_part_1(self),
            Inst::Beq { .. } => render_part_1(self),
            Inst::Bne { .. } => render_part_1(self),
            Inst::Blt { .. } => render_part_1(self),
            Inst::Bge { .. } => render_part_1(self),
            Inst::Bltu { .. } => render_part_1(self),
            Inst::Bgeu { .. } => render_part_1(self),
            Inst::Lb { .. } => render_part_1(self),
            Inst::Lbu { .. } => render_part_1(self),
            Inst::Lh { .. } => render_part_1(self),
            Inst::Lhu { .. } => render_part_1(self),
            Inst::Lw { .. } => render_part_1(self),
            Inst::Lwu { .. } => render_part_1(self),
            Inst::Ld { .. } => render_part_1(self),
            Inst::Sb { .. } => render_part_2(self),
            Inst::Sh { .. } => render_part_2(self),
            Inst::Sw { .. } => render_part_2(self),
            Inst::Sd { .. } => render_part_2(self),
            Inst::Addi { .. } => render_part_2(self),
            Inst::AddiW { .. } => render_part_2(self),
            Inst::Slti { .. } => render_part_2(self),
            Inst::Sltiu { .. } => render_part_2(self),
            Inst::Xori { .. } => render_part_2(self),
            Inst::Ori { .. } => render_part_2(self),
            Inst::Andi { .. } => render_part_2(self),
            Inst::Slli { .. } => render_part_2(self),
            Inst::SlliW { .. } => render_part_2(self),
            Inst::Srli { .. } => render_part_2(self),
            Inst::SrliW { .. } => render_part_2(self),
            Inst::Srai { .. } => render_part_2(self),
            Inst::SraiW { .. } => render_part_2(self),
            Inst::Add { .. } => render_part_3(self),
            Inst::AddW { .. } => render_part_3(self),
            Inst::Sub { .. } => render_part_3(self),
            Inst::SubW { .. } => render_part_3(self),
            Inst::Sll { .. } => render_part_3(self),
            Inst::SllW { .. } => render_part_3(self),
            Inst::Slt { .. } => render_part_3(self),
            Inst::Sltu { .. } => render_part_3(self),
            Inst::Xor { .. } => render_part_3(self),
            Inst::Srl { .. } => render_part_3(self),
            Inst::SrlW { .. } => render_part_3(self),
            Inst::Sra { .. } => render_part_3(self),
            Inst::SraW { .. } => render_part_3(self),
            Inst::Or { .. } => render_part_3(self),
            Inst::And { .. } => render_part_3(self),
            Inst::Mul { .. } => render_part_3(self),
            Inst::MulW { .. } => render_part_3(self),
            Inst::Mulh { .. } => render_part_4(self),
            Inst::Mulhsu { .. } => render_part_4(self),
            Inst::Mulhu { .. } => render_part_4(self),
            Inst::Div { .. } => render_part_4(self),
            Inst::DivW { .. } => render_part_4(self),
            Inst::Divu { .. } => render_part_4(self),
            Inst::DivuW { .. } => render_part_4(self),
            Inst::Rem { .. } => render_part_4(self),
            Inst::RemW { .. } => render_part_4(self),
            Inst::Remu { .. } => render_part_4(self),
            Inst::RemuW { .. } => render_part_4(self),
            Inst::Fence { .. } => render_part_4(self),
            Inst::Ecall => render_part_4(self),
            Inst::Ebreak => render_part_4(self),
            Inst::LrW { .. } => render_part_4(self),
            Inst::ScW { .. } => render_part_4(self),
            Inst::AmoW { .. } => render_part_4(self),
            Inst::Csrrw { .. } => render_part_5(self),
            Inst::Csrrs { .. } => render_part_5(self),
            Inst::Csrrc { .. } => render_part_5(self),
            Inst::Csrrwi { .. } => render_part_5(self),
            Inst::Csrrsi { .. } => render_part_5(self),
            Inst::Csrrci { .. } => render_part_5(self),
            Inst::Flw { .. } => render_part_5(self),
            Inst::Fld { .. } => render_part_5(self),
            Inst::Fsw { .. } => render_part_5(self),
            Inst::Fsd { .. } => render_part_5(self),
            Inst::FmaddS { .. } => render_part_5(self),
            Inst::FmsubS { .. } => render_part_5(self),
            Inst::FnmsubS { .. } => render_part_5(self),
            Inst::FnmaddS { .. } => render_part_5(self),
            Inst::FmaddD { .. } => render_part_5(self),
            Inst::FmsubD { .. } => render_part_5(self),
            Inst::FnmsubD { .. } => render_part_5(self),
            Inst::FnmaddD { .. } => render_part_6(self),
            Inst::FaddS { .. } => render_part_6(self),
            Inst::FsubS { .. } => render_part_6(self),
            Inst::FmulS { .. } => render_part_6(self),
            Inst::FdivS { .. } => render_part_6(self),
            Inst::FaddD { .. } => render_part_6(self),
            Inst::FsubD { .. } => render_part_6(self),
            Inst::FmulD { .. } => render_part_6(self),
            Inst::FdivD { .. } => render_part_6(self),
            Inst::FsgnjS { .. } => render_part_6(self),
            Inst::FsgnjnS { .. } => render_part_6(self),
            Inst::FsgnjxS { .. } => render_part_6(self),
            Inst::FminS { .. } => render_part_6(self),
            Inst::FmaxS { .. } => render_part_6(self),
            Inst::FsgnjD { .. } => render_part_6(self),
            Inst::FsgnjnD { .. } => render_part_6(self),
            Inst::FsgnjxD { .. } => render_part_6(self),
            Inst::FminD { .. } => render_part_7(self),
            Inst::FmaxD { .. } => render_part_7(self),
            Inst::FeqS { .. } => render_part_7(self),
            Inst::FltS { .. } => render_part_7(self),
            Inst::FleS { .. } => render_part_7(self),
            Inst::FeqD { .. } => render_part_7(self),
            Inst::FltD { .. } => render_part_7(self),
            Inst::FleD { .. } => render_part_7(self),
            Inst::FsqrtS { .. } => render_part_7(self),
            Inst::FsqrtD { .. } => render_part_7(self),
            Inst::FcvtWS { .. } => render_part_7(self),
            Inst::FcvtWuS { .. } => render_part_7(self),
            Inst::FcvtWD { .. } => render_part_7(self),
            Inst::FcvtWuD { .. } => render_part_7(self),
            Inst::FcvtLS { .. } => render_part_7(self),
            Inst::FcvtLuS { .. } => render_part_7(self),
            Inst::FcvtLD { .. } => render_part_7(self),
            Inst::FcvtLuD { .. } => render_part_8(self),
            Inst::FcvtSW { .. } => render_part_8(self),
            Inst::FcvtSWu { .. } => render_part_8(self),
            Inst::FcvtDW { .. } => render_part_8(self),
            Inst::FcvtDWu { .. } => render_part_8(self),
            Inst::FcvtSL { .. } => render_part_8(self),
            Inst::FcvtSLu { .. } => render_part_8(self),
            Inst::FcvtDL { .. } => render_part_8(self),
            Inst::FcvtDLu { .. } => render_part_8(self),
            Inst::FcvtSD { .. } => render_part_8(self),
            Inst::FcvtDS { .. } => render_part_8(self),
            Inst::FmvXW { .. } => render_part_8(self),
            Inst::FmvXD { .. } => render_part_8(self),
            Inst::FclassS { .. } => render_part_8(self),
            Inst::FclassD { .. } => render_part_8(self),
            Inst::FmvWX { .. } => render_part_8(self),
            Inst::FmvDX { .. } => render_part_8(self),
        }
    }
}

} // verus!
