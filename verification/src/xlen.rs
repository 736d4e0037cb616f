use vstd::prelude::*;

verus! {

/// The register size of the ISA, RV32 or RV64.
#[derive(Clone, Copy, Debug, PartialEq, Eq, Hash, Structural)]
pub enum Xlen {
    /// 32 bit
    Rv32,
    /// 64 bit
    Rv64,
}

impl Xlen {
    /// Whether this is [`Xlen::Rv32`].
    pub fn is_32(self) -> (r: bool)
        ensures
            r == (self == Xlen::Rv32),
    {
        matches!(self, Self::Rv32)
    }

    /// Whether this is [`Xlen::Rv64`].
    pub fn is_64(self) -> (r: bool)
        ensures
            r == (self == Xlen::Rv64),
    {
        matches!(self, Self::Rv64)
    }
}

} // verus!
