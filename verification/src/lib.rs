//! A bit-level codec for the RISC-V user-level instruction set.
//!
//! The decoder turns a raw 16- or 32-bit instruction word into a strongly
//! typed instruction value; the encoder turns that value back into the exact
//! canonical 32-bit word. Covered: the base integer ISA (RV32I/RV64I), the
//! compressed extension C (decode only), and the M, A, Zicsr, F and D
//! extensions, parameterised by the register width.
//!
//! The contracts pin the codec down completely:
//! - decoding is total, and accepts a word if and only if it is a defined
//!   encoding for the selected register width;
//! - every decoded instruction is the one spec-level value the word maps to,
//!   is well-formed and canonical, and re-encodes to exactly the word it was
//!   decoded from;
//! - every rejection carries the offending word and the spec-level name of
//!   the field that was rejected;
//! - the encoder produces exactly the canonical encoding, and every
//!   well-formed canonical instruction value decodes back (the reserved
//!   `unimp` word being the one exception);
//! - every successfully decoded compressed form maps to an instruction whose
//!   uncompressed encoding decodes as well;
//! - rendering returns exactly the spec-level assembler text, aliases and
//!   all.

mod bits;
mod decode;
mod decode_c;
mod enc;
mod imm;
mod inst;
mod laws;
mod mask;
mod reg;
mod render;
mod valid;
mod xlen;

pub use imm::Imm;
pub use inst::AmoOp;
pub use inst::AmoOrdering;
pub use inst::DecodeError;
pub use inst::Fence;
pub use inst::FenceSet;
pub use inst::Inst;
pub use inst::IsCompressed;
pub use inst::RoundingMode;
pub use reg::Csr;
pub use reg::FReg;
pub use reg::Reg;
pub use xlen::Xlen;
