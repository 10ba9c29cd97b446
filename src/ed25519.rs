//! Signature-verification records of the Ed25519 facility.
//!
//! Layout for `n` signers: a 2-byte header (count and padding), `n` blocks of
//! 14 bytes of offsets, then `n` signatures of 64 bytes, `n` public keys of 32
//! bytes and `n` messages of 32 bytes.
use crate::batch::{batch_outcome, check_records, copy_range, records_view, SignatureRecord};
use crate::errors::MultiSigErrors;
use crate::instruction::Instruction;
use crate::pubkey::{keys_to_bytes, keys_view, Pubkey};
use vstd::prelude::*;

verus! {

/// The address of the Ed25519 signature-verification program,
/// `Ed25519SigVerify111111111111111111111111111` in base 58.
pub open spec fn ed25519_program_id() -> Seq<u8> {
    seq![
        3u8, 125, 70, 214, 124, 147, 251, 190, 18, 249, 66, 143, 131, 141, 64, 255,
        5, 112, 116, 73, 39, 244, 138, 100, 252, 202, 112, 68, 128, 0, 0, 0,
    ]
}

/// Relies on `solana_program::ed25519_program::ID`: the address of the
/// Ed25519 signature-verification program.
#[verifier::external_body]
fn ed25519_program_key() -> (r: Pubkey)
    ensures
        r@ == ed25519_program_id(),
{
    Pubkey { bytes: anchor_lang::solana_program::ed25519_program::ID.to_bytes() }
}

/// Where the public keys begin: after the 2-byte header, `n` offset blocks of
/// 14 bytes and `n` signatures of 64 bytes.
pub open spec fn pubkeys_start(n: int) -> int {
    2 + 14 * n + 64 * n
}

/// Where the messages begin: after `n` public keys of 32 bytes.
pub open spec fn messages_start(n: int) -> int {
    pubkeys_start(n) + 32 * n
}

/// The number of bytes a record for `n` signers occupies: `n` messages of 32
/// bytes end it.
pub open spec fn record_len(n: int) -> int {
    messages_start(n) + 32 * n
}

/// The record comes from the Ed25519 program and carries no accounts.
pub open spec fn source_ok(ix: Instruction) -> bool {
    ix.program_id@ == ed25519_program_id() && ix.accounts@.len() == 0
}

/// The record is well-sourced and long enough for `n` signers.
pub open spec fn record_ok(ix: Instruction, n: nat) -> bool {
    source_ok(ix) && record_len(n as int) <= ix.data@.len()
}

/// The (public key, message) pairs of the first `n` signers of a record.
pub open spec fn records_of(data: Seq<u8>, n: nat) -> Seq<(Seq<u8>, Seq<u8>)> {
    Seq::new(
        n,
        |i: int|
            (
                data.subrange(pubkeys_start(n as int) + 32 * i, pubkeys_start(n as int) + 32 * i + 32),
                data.subrange(messages_start(n as int) + 32 * i, messages_start(n as int) + 32 * i + 32),
            ),
    )
}

/// What verifying a record against the claimed signers and digest yields.
pub open spec fn verify_outcome(ix: Instruction, signers: Seq<Seq<u8>>, digest: Seq<u8>) -> Result<
    (),
    MultiSigErrors,
> {
    if !record_ok(ix, signers.len()) {
        Err(MultiSigErrors::InvalidVerifierInstruction)
    } else {
        batch_outcome(records_of(ix.data@, signers.len()), signers, digest)
    }
}

/// A record that does not come from the Ed25519 program, or that carries
/// accounts, is rejected with `InvalidVerifierInstruction`, whatever its data
/// and whoever the claimed signers are.
pub proof fn lemma_foreign_record_rejected(ix: Instruction, signers: Seq<Seq<u8>>, digest: Seq<u8>)
    requires
        ix.program_id@ != ed25519_program_id() || ix.accounts@.len() != 0,
    ensures
        verify_outcome(ix, signers, digest) == Err::<(), MultiSigErrors>(
            MultiSigErrors::InvalidVerifierInstruction,
        ),
{
}

/// Extracts the public key and message of each of `n` signers from a record,
/// after checking its source and its length.
pub fn parse_signature_records(ix: &Instruction, n: usize) -> (r: Result<
    Vec<SignatureRecord>,
    MultiSigErrors,
>)
    ensures
        r is Ok <==> record_ok(*ix, n as nat),
        r matches Err(e) ==> e == MultiSigErrors::InvalidVerifierInstruction,
        r matches Ok(v) ==> v@.len() == n && records_view(v@) == records_of(ix.data@, n as nat),
{
    let data_len = ix.data.len();
    let expected = ed25519_program_key();
    if !ix.program_id.key_eq(&expected) || ix.accounts.len() != 0 {
        return Err(MultiSigErrors::InvalidVerifierInstruction);
    }
    // Each signer takes 14 bytes of offsets, a 64-byte signature, a 32-byte
    // key and a 32-byte message; the header takes 2 bytes.
    let body = match n.checked_mul(142) {
        Some(b) => b,
        None => {
            return Err(MultiSigErrors::InvalidVerifierInstruction);
        },
    };
    let total = match body.checked_add(2) {
        Some(t) => t,
        None => {
            return Err(MultiSigErrors::InvalidVerifierInstruction);
        },
    };
    if data_len < total {
        return Err(MultiSigErrors::InvalidVerifierInstruction);
    }
    let pubkeys_at: usize = 2 + 14 * n + 64 * n;
    let messages_at: usize = pubkeys_at + 32 * n;
    let ghost expected_records = records_of(ix.data@, n as nat);
    let mut records: Vec<SignatureRecord> = Vec::new();
    let mut i: usize = 0;
    while i < n
        invariant
            i <= n,
            pubkeys_at == pubkeys_start(n as int),
            pubkeys_at + 32 * n <= messages_at,
            messages_at + 32 * n <= data_len,
            data_len == ix.data@.len(),
            messages_at == messages_start(n as int),
            record_len(n as int) <= ix.data@.len(),
            expected_records == records_of(ix.data@, n as nat),
            records@.len() == i,
            forall|j: int| 0 <= j < i ==> #[trigger] records@[j]@ == expected_records[j],
        decreases n - i,
    {
        let recovered_identity = copy_range(ix.data.as_slice(), pubkeys_at + 32 * i, 32);
        let signed_message = copy_range(ix.data.as_slice(), messages_at + 32 * i, 32);
        records.push(SignatureRecord { recovered_identity, signed_message });
        i = i + 1;
    }
    proof {
        assert(records_view(records@) =~= expected_records);
    }
    Ok(records)
}

/// Checks a record of the Ed25519 facility against the claimed signers and
/// the digest they must have signed.
pub fn verify(ix: &Instruction, signers: Vec<Pubkey>, multi_sig_hash: [u8; 32]) -> (r: Result<
    (),
    MultiSigErrors,
>)
    ensures
        r == verify_outcome(*ix, keys_view(signers@), multi_sig_hash@),
{
    let records = parse_signature_records(ix, signers.len())?;
    let identities = keys_to_bytes(&signers);
    check_records(&records, &identities, multi_sig_hash.as_slice())
}

} // verus!
