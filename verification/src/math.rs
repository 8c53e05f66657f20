//! Exact arithmetic, digests and the decoding of signed attestations.

pub mod bytes;
pub mod ed25519;
pub mod fraction;
pub mod hash;

pub use ed25519::{
    deserialize_ed25519_instruction, AccountMeta, ED25519Data, ED25519SignatureOffsets,
    Instruction,
};
pub use fraction::Fraction;
