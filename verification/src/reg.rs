use vstd::prelude::*;

verus! {

/// A decoded RISC-V integer register.
///
/// A 5-bit identifier in `0..=31`; register 0 is hard-wired zero.
#[derive(Debug, Clone, Copy, PartialEq, Eq, Hash, Structural)]
pub struct Reg(pub u8);

/// A decoded RISC-V floating-point register.
///
/// A 5-bit identifier in `0..=31`, kept as a distinct type from [`Reg`]
/// so that mixing the two register files is a type error.
#[derive(Debug, Clone, Copy, PartialEq, Eq, Hash, Structural)]
pub struct FReg(pub u8);

/// A Control and Status Register (CSR) address.
///
/// CSRs are 12-bit addresses, allowing for 4096 unique CSRs.
#[derive(Debug, Clone, Copy, PartialEq, Eq, Hash, Structural)]
pub struct Csr(pub u16);

impl Reg {
    /// The zero register `zero` (`x0`)
    pub fn zero() -> (r: Reg)
        ensures
            r.0 == 0,
    {
        Reg(0)
    }

    /// The return address register `ra` (`x1`)
    pub fn ra() -> (r: Reg)
        ensures
            r.0 == 1,
    {
        Reg(1)
    }

    /// The stack pointer register `sp` (`x2`)
    pub fn sp() -> (r: Reg)
        ensures
            r.0 == 2,
    {
        Reg(2)
    }

    /// The global pointer register `gp` (`x3`)
    pub fn gp() -> (r: Reg)
        ensures
            r.0 == 3,
    {
        Reg(3)
    }

    /// The thread pointer register `tp` (`x4`)
    pub fn tp() -> (r: Reg)
        ensures
            r.0 == 4,
    {
        Reg(4)
    }

    /// Saved register `s0` (`x8`)
    pub fn s0() -> (r: Reg)
        ensures
            r.0 == 8,
    {
        Reg(8)
    }

    /// Saved register frame pointer `fp` (`s0`, `x8`)
    pub fn fp() -> (r: Reg)
        ensures
            r.0 == 8,
    {
        Reg(8)
    }

    /// Saved register `s1` (`x9`)
    pub fn s1() -> (r: Reg)
        ensures
            r.0 == 9,
    {
        Reg(9)
    }

    /// Saved register `s2` (`x18`)
    pub fn s2() -> (r: Reg)
        ensures
            r.0 == 18,
    {
        Reg(18)
    }

    /// Saved register `s3` (`x19`)
    pub fn s3() -> (r: Reg)
        ensures
            r.0 == 19,
    {
        Reg(19)
    }

    /// Saved register `s4` (`x20`)
    pub fn s4() -> (r: Reg)
        ensures
            r.0 == 20,
    {
        Reg(20)
    }

    /// Saved register `s5` (`x21`)
    pub fn s5() -> (r: Reg)
        ensures
            r.0 == 21,
    {
        Reg(21)
    }

    /// Saved register `s6` (`x22`)
    pub fn s6() -> (r: Reg)
        ensures
            r.0 == 22,
    {
        Reg(22)
    }

    /// Saved register `s7` (`x23`)
    pub fn s7() -> (r: Reg)
        ensures
            r.0 == 23,
    {
        Reg(23)
    }

    /// Saved register `s8` (`x24`)
    pub fn s8() -> (r: Reg)
        ensures
            r.0 == 24,
    {
        Reg(24)
    }

    /// Saved register `s9` (`x25`)
    pub fn s9() -> (r: Reg)
        ensures
            r.0 == 25,
    {
        Reg(25)
    }

    /// Saved register `s10` (`x26`)
    pub fn s10() -> (r: Reg)
        ensures
            r.0 == 26,
    {
        Reg(26)
    }

    /// Saved register `s11` (`x27`)
    pub fn s11() -> (r: Reg)
        ensures
            r.0 == 27,
    {
        Reg(27)
    }

    /// Argument/return value register `a0` (`x10`)
    pub fn a0() -> (r: Reg)
        ensures
            r.0 == 10,
    {
        Reg(10)
    }

    /// Argument/return value register `a1` (`x11`)
    pub fn a1() -> (r: Reg)
        ensures
            r.0 == 11,
    {
        Reg(11)
    }

    /// Argument register `a2` (`x12`)
    pub fn a2() -> (r: Reg)
        ensures
            r.0 == 12,
    {
        Reg(12)
    }

    /// Argument register `a3` (`x13`)
    pub fn a3() -> (r: Reg)
        ensures
            r.0 == 13,
    {
        Reg(13)
    }

    /// Argument register `a4` (`x14`)
    pub fn a4() -> (r: Reg)
        ensures
            r.0 == 14,
    {
        Reg(14)
    }

    /// Argument register `a5` (`x15`)
    pub fn a5() -> (r: Reg)
        ensures
            r.0 == 15,
    {
        Reg(15)
    }

    /// Argument register `a6` (`x16`)
    pub fn a6() -> (r: Reg)
        ensures
            r.0 == 16,
    {
        Reg(16)
    }

    /// Argument register `a7` (`x17`)
    pub fn a7() -> (r: Reg)
        ensures
            r.0 == 17,
    {
        Reg(17)
    }

    /// Temporary register `t0` (`x5`)
    pub fn t0() -> (r: Reg)
        ensures
            r.0 == 5,
    {
        Reg(5)
    }

    /// Temporary register `t1` (`x6`)
    pub fn t1() -> (r: Reg)
        ensures
            r.0 == 6,
    {
        Reg(6)
    }

    /// Temporary register `t2` (`x7`)
    pub fn t2() -> (r: Reg)
        ensures
            r.0 == 7,
    {
        Reg(7)
    }

    /// Temporary register `t3` (`x28`)
    pub fn t3() -> (r: Reg)
        ensures
            r.0 == 28,
    {
        Reg(28)
    }

    /// Temporary register `t4` (`x29`)
    pub fn t4() -> (r: Reg)
        ensures
            r.0 == 29,
    {
        Reg(29)
    }

    /// Temporary register `t5` (`x30`)
    pub fn t5() -> (r: Reg)
        ensures
            r.0 == 30,
    {
        Reg(30)
    }

    /// Temporary register `t6` (`x31`)
    pub fn t6() -> (r: Reg)
        ensures
            r.0 == 31,
    {
        Reg(31)
    }

}

impl FReg {
    /// Temporary floating-point register `ft0` (`f0`)
    pub fn ft0() -> (r: FReg)
        ensures
            r.0 == 0,
    {
        FReg(0)
    }

    /// Temporary floating-point register `ft1` (`f1`)
    pub fn ft1() -> (r: FReg)
        ensures
            r.0 == 1,
    {
        FReg(1)
    }

    /// Temporary floating-point register `ft2` (`f2`)
    pub fn ft2() -> (r: FReg)
        ensures
            r.0 == 2,
    {
        FReg(2)
    }

    /// Temporary floating-point register `ft3` (`f3`)
    pub fn ft3() -> (r: FReg)
        ensures
            r.0 == 3,
    {
        FReg(3)
    }

    /// Temporary floating-point register `ft4` (`f4`)
    pub fn ft4() -> (r: FReg)
        ensures
            r.0 == 4,
    {
        FReg(4)
    }

    /// Temporary floating-point register `ft5` (`f5`)
    pub fn ft5() -> (r: FReg)
        ensures
            r.0 == 5,
    {
        FReg(5)
    }

    /// Temporary floating-point register `ft6` (`f6`)
    pub fn ft6() -> (r: FReg)
        ensures
            r.0 == 6,
    {
        FReg(6)
    }

    /// Temporary floating-point register `ft7` (`f7`)
    pub fn ft7() -> (r: FReg)
        ensures
            r.0 == 7,
    {
        FReg(7)
    }

    /// Saved floating-point register `fs0` (`f8`)
    pub fn fs0() -> (r: FReg)
        ensures
            r.0 == 8,
    {
        FReg(8)
    }

    /// Saved floating-point register `fs1` (`f9`)
    pub fn fs1() -> (r: FReg)
        ensures
            r.0 == 9,
    {
        FReg(9)
    }

    /// Argument floating-point register `fa0` (`f10`)
    pub fn fa0() -> (r: FReg)
        ensures
            r.0 == 10,
    {
        FReg(10)
    }

    /// Argument floating-point register `fa1` (`f11`)
    pub fn fa1() -> (r: FReg)
        ensures
            r.0 == 11,
    {
        FReg(11)
    }

    /// Argument floating-point register `fa2` (`f12`)
    pub fn fa2() -> (r: FReg)
        ensures
            r.0 == 12,
    {
        FReg(12)
    }

    /// Argument floating-point register `fa3` (`f13`)
    pub fn fa3() -> (r: FReg)
        ensures
            r.0 == 13,
    {
        FReg(13)
    }

    /// Argument floating-point register `fa4` (`f14`)
    pub fn fa4() -> (r: FReg)
        ensures
            r.0 == 14,
    {
        FReg(14)
    }

    /// Argument floating-point register `fa5` (`f15`)
    pub fn fa5() -> (r: FReg)
        ensures
            r.0 == 15,
    {
        FReg(15)
    }

    /// Argument floating-point register `fa6` (`f16`)
    pub fn fa6() -> (r: FReg)
        ensures
            r.0 == 16,
    {
        FReg(16)
    }

    /// Argument floating-point register `fa7` (`f17`)
    pub fn fa7() -> (r: FReg)
        ensures
            r.0 == 17,
    {
        FReg(17)
    }

    /// Saved floating-point register `fs2` (`f18`)
    pub fn fs2() -> (r: FReg)
        ensures
            r.0 == 18,
    {
        FReg(18)
    }

    /// Saved floating-point register `fs3` (`f19`)
    pub fn fs3() -> (r: FReg)
        ensures
            r.0 == 19,
    {
        FReg(19)
    }

    /// Saved floating-point register `fs4` (`f20`)
    pub fn fs4() -> (r: FReg)
        ensures
            r.0 == 20,
    {
        FReg(20)
    }

    /// Saved floating-point register `fs5` (`f21`)
    pub fn fs5() -> (r: FReg)
        ensures
            r.0 == 21,
    {
        FReg(21)
    }

    /// Saved floating-point register `fs6` (`f22`)
    pub fn fs6() -> (r: FReg)
        ensures
            r.0 == 22,
    {
        FReg(22)
    }

    /// Saved floating-point register `fs7` (`f23`)
    pub fn fs7() -> (r: FReg)
        ensures
            r.0 == 23,
    {
        FReg(23)
    }

    /// Saved floating-point register `fs8` (`f24`)
    pub fn fs8() -> (r: FReg)
        ensures
            r.0 == 24,
    {
        FReg(24)
    }

    /// Saved floating-point register `fs9` (`f25`)
    pub fn fs9() -> (r: FReg)
        ensures
            r.0 == 25,
    {
        FReg(25)
    }

    /// Saved floating-point register `fs10` (`f26`)
    pub fn fs10() -> (r: FReg)
        ensures
            r.0 == 26,
    {
        FReg(26)
    }

    /// Saved floating-point register `fs11` (`f27`)
    pub fn fs11() -> (r: FReg)
        ensures
            r.0 == 27,
    {
        FReg(27)
    }

    /// Temporary floating-point register `ft8` (`f28`)
    pub fn ft8() -> (r: FReg)
        ensures
            r.0 == 28,
    {
        FReg(28)
    }

    /// Temporary floating-point register `ft9` (`f29`)
    pub fn ft9() -> (r: FReg)
        ensures
            r.0 == 29,
    {
        FReg(29)
    }

    /// Temporary floating-point register `ft10` (`f30`)
    pub fn ft10() -> (r: FReg)
        ensures
            r.0 == 30,
    {
        FReg(30)
    }

    /// Temporary floating-point register `ft11` (`f31`)
    pub fn ft11() -> (r: FReg)
        ensures
            r.0 == 31,
    {
        FReg(31)
    }

}

impl Csr {
    /// Machine status register
    pub fn mstatus() -> (r: Csr)
        ensures
            r.0 == 0x300,
    {
        Csr(0x300)
    }

    /// Machine ISA register
    pub fn misa() -> (r: Csr)
        ensures
            r.0 == 0x301,
    {
        Csr(0x301)
    }

    /// Machine exception delegation register
    pub fn medeleg() -> (r: Csr)
        ensures
            r.0 == 0x302,
    {
        Csr(0x302)
    }

    /// Machine interrupt delegation register
    pub fn mideleg() -> (r: Csr)
        ensures
            r.0 == 0x303,
    {
        Csr(0x303)
    }

    /// Machine interrupt-enable register
    pub fn mie() -> (r: Csr)
        ensures
            r.0 == 0x304,
    {
        Csr(0x304)
    }

    /// Machine trap-handler base address
    pub fn mtvec() -> (r: Csr)
        ensures
            r.0 == 0x305,
    {
        Csr(0x305)
    }

    /// Machine counter enable
    pub fn mcounteren() -> (r: Csr)
        ensures
            r.0 == 0x306,
    {
        Csr(0x306)
    }

    /// Machine scratch register
    pub fn mscratch() -> (r: Csr)
        ensures
            r.0 == 0x340,
    {
        Csr(0x340)
    }

    /// Machine exception program counter
    pub fn mepc() -> (r: Csr)
        ensures
            r.0 == 0x341,
    {
        Csr(0x341)
    }

    /// Machine trap cause
    pub fn mcause() -> (r: Csr)
        ensures
            r.0 == 0x342,
    {
        Csr(0x342)
    }

    /// Machine bad address or instruction
    pub fn mtval() -> (r: Csr)
        ensures
            r.0 == 0x343,
    {
        Csr(0x343)
    }

    /// Machine interrupt pending
    pub fn mip() -> (r: Csr)
        ensures
            r.0 == 0x344,
    {
        Csr(0x344)
    }

    /// Supervisor status register
    pub fn sstatus() -> (r: Csr)
        ensures
            r.0 == 0x100,
    {
        Csr(0x100)
    }

    /// Supervisor interrupt-enable register
    pub fn sie() -> (r: Csr)
        ensures
            r.0 == 0x104,
    {
        Csr(0x104)
    }

    /// Supervisor trap handler base address
    pub fn stvec() -> (r: Csr)
        ensures
            r.0 == 0x105,
    {
        Csr(0x105)
    }

    /// Supervisor counter enable
    pub fn scounteren() -> (r: Csr)
        ensures
            r.0 == 0x106,
    {
        Csr(0x106)
    }

    /// Supervisor scratch register
    pub fn sscratch() -> (r: Csr)
        ensures
            r.0 == 0x140,
    {
        Csr(0x140)
    }

    /// Supervisor exception program counter
    pub fn sepc() -> (r: Csr)
        ensures
            r.0 == 0x141,
    {
        Csr(0x141)
    }

    /// Supervisor trap cause
    pub fn scause() -> (r: Csr)
        ensures
            r.0 == 0x142,
    {
        Csr(0x142)
    }

    /// Supervisor bad address or instruction
    pub fn stval() -> (r: Csr)
        ensures
            r.0 == 0x143,
    {
        Csr(0x143)
    }

    /// Supervisor interrupt pending
    pub fn sip() -> (r: Csr)
        ensures
            r.0 == 0x144,
    {
        Csr(0x144)
    }

    /// Supervisor address translation and protection
    pub fn satp() -> (r: Csr)
        ensures
            r.0 == 0x180,
    {
        Csr(0x180)
    }

    /// Floating-Point Accrued Exceptions
    pub fn fflags() -> (r: Csr)
        ensures
            r.0 == 0x001,
    {
        Csr(0x001)
    }

    /// Floating-Point Dynamic Rounding Mode
    pub fn frm() -> (r: Csr)
        ensures
            r.0 == 0x002,
    {
        Csr(0x002)
    }

    /// Floating-Point Control and Status Register
    pub fn fcsr() -> (r: Csr)
        ensures
            r.0 == 0x003,
    {
        Csr(0x003)
    }

    /// Cycle counter for RDCYCLE instruction
    pub fn cycle() -> (r: Csr)
        ensures
            r.0 == 0xC00,
    {
        Csr(0xC00)
    }

    /// Timer for RDTIME instruction
    pub fn time() -> (r: Csr)
        ensures
            r.0 == 0xC01,
    {
        Csr(0xC01)
    }

    /// Instructions-retired counter for RDINSTRET instruction
    pub fn instret() -> (r: Csr)
        ensures
            r.0 == 0xC02,
    {
        Csr(0xC02)
    }

}

} // verus!
