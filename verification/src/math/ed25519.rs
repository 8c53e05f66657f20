//! Decoding of signature attestations.
//!
//! An attestation is an instruction addressed to the Ed25519 signature
//! program, which the host has already executed: the host accepts such an
//! instruction only if the signature it carries is valid. What is left to
//! check is that the instruction has the one layout this library accepts, who
//! signed, and which message was signed.

use vstd::prelude::*;
use vstd::slice::slice_subrange;

use crate::error::JogoError;
use crate::math::bytes::{read_u16_le, slices_equal, u16_le};
use crate::pubkey::Pubkey;

verus! {

/// An account that an instruction refers to.
#[derive(Clone, Copy, Debug)]
pub struct AccountMeta {
    pub pubkey: Pubkey,
    pub is_signer: bool,
    pub is_writable: bool,
}

/// An instruction of the surrounding transaction: the program it addresses,
/// the accounts it names and its payload.
#[derive(Debug)]
pub struct Instruction {
    pub program_id: Pubkey,
    pub accounts: Vec<AccountMeta>,
    pub data: Vec<u8>,
}

/// What an attestation states: `signer` signed `msg`, and `sig` is the
/// signature.
#[derive(Debug)]
pub struct ED25519Data<'a> {
    pub signer: Pubkey,
    pub sig: &'a [u8],
    pub msg: &'a [u8],
}

/// The seven 16-bit fields that follow the two leading bytes of the payload
/// and say where signature, public key and message are found.
#[derive(Clone, Copy, Debug)]
pub struct ED25519SignatureOffsets {
    pub signature_offset: u16,
    pub signature_instruction_index: u16,
    pub public_key_offset: u16,
    pub public_key_instruction_index: u16,
    pub message_data_offset: u16,
    pub message_data_size: u16,
    pub message_instruction_index: u16,
}

/// Where the public key starts in the payload: after two bytes and seven
/// 16-bit fields.
pub const PUBLIC_KEY_OFFSET: u16 = 16;

/// Where the signature starts: after the 32 bytes of the public key.
pub const SIGNATURE_OFFSET: u16 = 48;

/// Where the message starts: after the 64 bytes of the signature.
pub const MESSAGE_DATA_OFFSET: u16 = 112;

/// The address of the Ed25519 signature program.
pub open spec fn ed25519_program_id() -> Seq<u8> {
    seq![
        3u8, 125, 70, 214, 124, 147, 251, 190, 18, 249, 66, 143, 131, 141, 64, 255, 5, 112, 116,
        73, 39, 244, 138, 100, 252, 202, 112, 68, 128, 0, 0, 0,
    ]
}

/// Hands out `solana_program::ed25519_program::ID`.
///
/// Trusted: the identifier is the thirty-two bytes that the base-58 string
/// `Ed25519SigVerify111111111111111111111111111` of its declaration decodes
/// to, which `ed25519_program_id` lists.
#[verifier::external_body]
fn ed25519_id() -> (id: Pubkey)
    ensures
        id@ == ed25519_program_id(),
{
    Pubkey::new_from_array(solana_program::ed25519_program::ID.to_bytes())
}

impl ED25519SignatureOffsets {
    /// The offsets of the one layout that is accepted: key, signature and
    /// message follow the header in this order, all three in the instruction
    /// itself (index `0xFFFF`), and the message has `msg_len` bytes, taken
    /// modulo 2^16.
    pub open spec fn valid_for(&self, msg_len: nat) -> bool {
        &&& self.signature_offset == SIGNATURE_OFFSET
        &&& self.signature_instruction_index == u16::MAX
        &&& self.public_key_offset == PUBLIC_KEY_OFFSET
        &&& self.public_key_instruction_index == u16::MAX
        &&& self.message_data_offset == MESSAGE_DATA_OFFSET
        &&& self.message_data_size == msg_len % 0x1_0000
        &&& self.message_instruction_index == u16::MAX
    }

    /// The offsets that the bytes 2 to 15 of a payload encode.
    pub open spec fn decode(data: Seq<u8>) -> ED25519SignatureOffsets
        recommends
            data.len() >= 16,
    {
        ED25519SignatureOffsets {
            signature_offset: u16_le(data.subrange(2, 4)) as u16,
            signature_instruction_index: u16_le(data.subrange(4, 6)) as u16,
            public_key_offset: u16_le(data.subrange(6, 8)) as u16,
            public_key_instruction_index: u16_le(data.subrange(8, 10)) as u16,
            message_data_offset: u16_le(data.subrange(10, 12)) as u16,
            message_data_size: u16_le(data.subrange(12, 14)) as u16,
            message_instruction_index: u16_le(data.subrange(14, 16)) as u16,
        }
    }

    /// Reads the offsets from the bytes 2 to 15 of a payload.
    pub fn parse(data: &[u8]) -> (out: ED25519SignatureOffsets)
        requires
            data.len() >= 16,
        ensures
            out == Self::decode(data@),
    {
        ED25519SignatureOffsets {
            signature_offset: read_u16_le(data, 2),
            signature_instruction_index: read_u16_le(data, 4),
            public_key_offset: read_u16_le(data, 6),
            public_key_instruction_index: read_u16_le(data, 8),
            message_data_offset: read_u16_le(data, 10),
            message_data_size: read_u16_le(data, 12),
            message_instruction_index: read_u16_le(data, 14),
        }
    }

    /// Whether the offsets are those of the accepted layout for a message of
    /// `msg_len` bytes.
    pub fn is_valid(&self, msg_len: usize) -> (ok: bool)
        ensures
            ok == self.valid_for(msg_len as nat),
    {
        let size: usize = msg_len % 0x1_0000;
        self.signature_offset == SIGNATURE_OFFSET && self.signature_instruction_index == u16::MAX
            && self.public_key_offset == PUBLIC_KEY_OFFSET && self.public_key_instruction_index
            == u16::MAX && self.message_data_offset == MESSAGE_DATA_OFFSET
            && self.message_data_size as usize == size && self.message_instruction_index
            == u16::MAX
    }
}

impl Instruction {
    /// The bytes of the payload that name the signer.
    pub open spec fn signer(&self) -> Seq<u8> {
        self.data@.subrange(16, 48)
    }

    /// The bytes of the payload that hold the signature.
    pub open spec fn signature(&self) -> Seq<u8> {
        self.data@.subrange(48, 112)
    }

    /// The bytes of the payload that were signed.
    pub open spec fn message(&self) -> Seq<u8> {
        self.data@.skip(112)
    }

    /// Why the instruction is no attestation by `signer`, if it is none:
    /// `InvalidEd25519Instruction` where the layout is not the accepted one,
    /// else `IncorrectEd25519Signer` where another key signed.
    pub open spec fn attestation_error(&self, signer: Pubkey) -> Option<JogoError> {
        if !self.is_attestation() {
            Some(JogoError::InvalidEd25519Instruction)
        } else if self.signer() != signer@ {
            Some(JogoError::IncorrectEd25519Signer)
        } else {
            None
        }
    }

    /// Whether the instruction is an attestation in the accepted layout: it
    /// addresses the Ed25519 signature program, names no account, carries
    /// one signature and no padding, and its offsets are valid for the
    /// message that follows the 112 bytes of header, key and signature.
    pub open spec fn is_attestation(&self) -> bool {
        &&& self.program_id@ == ed25519_program_id()
        &&& self.accounts@.len() == 0
        &&& self.data@.len() > 112
        &&& self.data@[0] == 1
        &&& self.data@[1] == 0
        &&& ED25519SignatureOffsets::decode(self.data@).valid_for((self.data@.len() - 112) as nat)
    }
}

impl<'a> ED25519Data<'a> {
    /// Accepts the attestation if `signer` signed it, and fails with
    /// `IncorrectEd25519Signer` if another key did.
    pub fn verify_signer(&self, signer: &Pubkey) -> (out: Result<(), JogoError>)
        ensures
            out is Ok <==> self.signer@ == signer@,
            out matches Err(e) ==> e == JogoError::IncorrectEd25519Signer,
    {
        if self.signer == *signer {
            Ok(())
        } else {
            Err(JogoError::IncorrectEd25519Signer)
        }
    }

    /// Accepts the attestation if `msg` is the message that was signed, and
    /// fails with `InvalidEd25519Message` if it is not.
    pub fn verify_message(&self, msg: &[u8]) -> (out: Result<(), JogoError>)
        ensures
            out is Ok <==> self.msg@ == msg@,
            out matches Err(e) ==> e == JogoError::InvalidEd25519Message,
    {
        if slices_equal(self.msg, msg) {
            Ok(())
        } else {
            Err(JogoError::InvalidEd25519Message)
        }
    }
}

/// Decodes an attestation: the signer is found in the bytes 16 to 47 of the
/// payload, the signature in the bytes 48 to 111, the message in the rest.
///
/// Fails with `InvalidEd25519Instruction` exactly when the instruction is not
/// an attestation in the accepted layout.
pub fn deserialize_ed25519_instruction<'a>(instruction: &'a Instruction) -> (out: Result<
    ED25519Data<'a>,
    JogoError,
>)
    ensures
        out is Ok <==> instruction.is_attestation(),
        out matches Err(e) ==> e == JogoError::InvalidEd25519Instruction,
        out matches Ok(found) ==> {
            &&& found.signer@ == instruction.signer()
            &&& found.sig@ == instruction.signature()
            &&& found.msg@ == instruction.message()
        },
{
    if instruction.program_id != ed25519_id() || instruction.accounts.len() != 0
        || instruction.data.len() <= 112 {
        return Err(JogoError::InvalidEd25519Instruction);
    }
    let data: &[u8] = instruction.data.as_slice();
    let num_signatures: u8 = data[0];
    let padding: u8 = data[1];
    let offsets = ED25519SignatureOffsets::parse(data);
    let signer = Pubkey::read(data, 16);
    let sig: &[u8] = slice_subrange(data, 48, 112);
    let msg: &[u8] = slice_subrange(data, 112, data.len());
    if num_signatures == 1 && padding == 0 && offsets.is_valid(msg.len()) {
        Ok(ED25519Data { signer, sig, msg })
    } else {
        Err(JogoError::InvalidEd25519Instruction)
    }
}

} // verus!
