use vstd::prelude::*;

verus! {

/// An immediate in an instruction.
/// This represents the real value that will be put in the register,
/// so sign extension has been performed if necessary, and for instructions
/// like `lui` the value will have been shifted.
///
/// This type is XLEN-agnostic, use the XLEN-specific accessors to get the correct value.
#[derive(Debug, Copy, Clone, PartialEq, Eq, Hash, Structural)]
pub struct Imm(u64);

impl Imm {
    /// The 64-bit payload: the value as it would be written to an RV64 register.
    pub closed spec fn bits(self) -> u64 {
        self.0
    }

    /// The low 32 bits of the payload: the value as it would be written to an
    /// RV32 register.
    pub open spec fn low(self) -> u32 {
        self.bits() as u32
    }

    /// Whether the payload is the sign extension of its own low half: the
    /// form every I/S/B/U/J immediate takes when it leaves the decoder.
    pub open spec fn is_sext64(self) -> bool {
        self.bits() == ((self.low() as i32) as i64) as u64
    }

    /// The immediate holding `v` with its sign bit extended into the upper
    /// half of the payload.
    pub closed spec fn spec_sext32(v: u32) -> Imm {
        Imm(((v as i32) as i64) as u64)
    }

    /// The immediate holding `v` zero-extended.
    pub closed spec fn spec_zext32(v: u32) -> Imm {
        Imm(v as u64)
    }

    /// The immediate `0`.
    /// Useful as a shortcut for `Imm::new_u32(0)`.
    pub fn zero() -> (r: Imm)
        ensures
            r.bits() == 0,
            r.low() == 0,
            r == Imm::spec_zext32(0),
    {
        Imm(0)
    }

    /// Create a new immediate from the (if necessary) sign-extended value.
    pub fn new_i32(value: i32) -> (r: Self)
        ensures
            r.bits() == (value as i64) as u64,
            r.low() == value as u32,
            r == Imm::spec_sext32(value as u32),
    {
        let r = Self(#[verifier::truncate] ((value as i64) as u64));
        proof {
            assert(((value as i64) as u64) as u32 == value as u32 && (((value as u32) as i32) as i64)
                as u64 == (value as i64) as u64) by (bit_vector);
        }
        r
    }

    /// Create a new immediate from the (if necessary) zero-extended value.
    pub fn new_u32(value: u32) -> (r: Self)
        ensures
            r.bits() == value as u64,
            r.low() == value,
            r == Imm::spec_zext32(value),
    {
        let r = Self(value as u64);
        proof {
            assert((value as u64) as u32 == value) by (bit_vector);
        }
        r
    }

    /// Build an immediate from a value already sign-extended to 32 bits,
    /// extending the sign into the upper half of the payload.
    pub(crate) fn from_sext32(v: u32) -> (r: Self)
        ensures
            r.low() == v,
            r.bits() == ((v as i32) as i64) as u64,
            r == Imm::spec_sext32(v),
    {
        let r = Self::new_i32(#[verifier::truncate] (v as i32));
        proof {
            assert(((v as i32) as u32) == v) by (bit_vector);
        }
        r
    }

    /// Get the `u32` (RV32) value of the immediate.
    pub fn as_u32(self) -> (r: u32)
        ensures
            r == self.low(),
    {
        #[verifier::truncate] (self.0 as u32)
    }

    /// Get the `i32` (RV32) value of the immediate.
    pub fn as_i32(self) -> (r: i32)
        ensures
            r == self.bits() as i32,
    {
        #[verifier::truncate] (self.0 as i32)
    }

    /// Get the `u64` (RV64) value of the immediate.
    pub fn as_u64(self) -> (r: u64)
        ensures
            r == self.bits(),
    {
        self.0
    }

    /// Get the `i64` (RV64) value of the immediate.
    pub fn as_i64(self) -> (r: i64)
        ensures
            r == self.bits() as i64,
    {
        #[verifier::truncate] (self.0 as i64)
    }
}

/// The facts behind the immediate accessors: reading an immediate through the
/// 32-bit accessors always agrees with the low half of the 64-bit accessors,
/// and on a sign-extended payload (the only kind the decoder produces for
/// I/S/B/U/J immediates) the 64-bit value is the sign extension of the 32-bit
/// one.
pub proof fn lemma_imm_accessor_consistency(i: Imm)
    ensures
        i.low() == i.bits() as u32,
        i.bits() == ((i.bits() as i32) as i64) as u64 ==> i.bits() as i64 == (i.bits() as i32) as i64,
{
    let b = i.bits();
    assert(b == ((b as i32) as i64) as u64 ==> b as i64 == (b as i32) as i64) by (bit_vector);
}

} // verus!
