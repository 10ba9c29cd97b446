//! Signature-verification records of the secp256k1 facility, whose signers
//! are 20-byte Ethereum addresses.
//!
//! Layout for `n` signers: a 1-byte header (the count), `n` blocks of 11 bytes
//! of offsets, then `n` addresses of 20 bytes, `n` signatures of 65 bytes (64
//! bytes and a recovery id) and `n` messages of 32 bytes.
use crate::batch::{batch_outcome, check_records, copy_range, records_view, SignatureRecord};
use crate::errors::MultiSigErrors;
use crate::instruction::Instruction;
use crate::pubkey::Pubkey;
use vstd::prelude::*;

verus! {

/// The address of the secp256k1 signature-verification program,
/// `KeccakSecp256k11111111111111111111111111111` in base 58.
pub open spec fn secp256k1_program_id() -> Seq<u8> {
    seq![
        4u8, 198, 252, 32, 240, 80, 204, 240, 85, 132, 215, 33, 28, 159, 140, 245,
        158, 193, 71, 133, 187, 22, 106, 30, 40, 48, 232, 18, 32, 0, 0, 0,
    ]
}

/// Relies on `solana_program::secp256k1_program::ID`: the address of the
/// secp256k1 signature-verification program.
#[verifier::external_body]
fn secp256k1_program_key() -> (r: Pubkey)
    ensures
        r@ == secp256k1_program_id(),
{
    Pubkey { bytes: anchor_lang::solana_program::secp256k1_program::ID.to_bytes() }
}

/// Where the addresses begin: after the 1-byte header and `n` offset blocks
/// of 11 bytes.
pub open spec fn addresses_start(n: int) -> int {
    1 + 11 * n
}

/// Where the messages begin: after `n` addresses of 20 bytes and `n`
/// signatures of 65 bytes.
pub open spec fn messages_start(n: int) -> int {
    addresses_start(n) + 20 * n + 65 * n
}

/// The number of bytes a record for `n` signers occupies: `n` messages of 32
/// bytes end it.
pub open spec fn record_len(n: int) -> int {
    messages_start(n) + 32 * n
}

/// The record comes from the secp256k1 program and carries no accounts.
pub open spec fn source_ok(ix: Instruction) -> bool {
    ix.program_id@ == secp256k1_program_id() && ix.accounts@.len() == 0
}

/// The record is well-sourced and long enough for `n` signers.
pub open spec fn record_ok(ix: Instruction, n: nat) -> bool {
    source_ok(ix) && record_len(n as int) <= ix.data@.len()
}

/// The (address, message) pairs of the first `n` signers of a record.
pub open spec fn records_of(data: Seq<u8>, n: nat) -> Seq<(Seq<u8>, Seq<u8>)> {
    Seq::new(
        n,
        |i: int|
            (
                data.subrange(addresses_start(n as int) + 20 * i, addresses_start(n as int) + 20 * i + 20),
                data.subrange(messages_start(n as int) + 32 * i, messages_start(n as int) + 32 * i + 32),
            ),
    )
}

/// The bytes of each address, in order.
pub open spec fn addresses_view(addresses: Seq<[u8; 20]>) -> Seq<Seq<u8>> {
    addresses.map_values(|a: [u8; 20]| a@)
}

/// What verifying a record against the claimed signers and digest yields.
pub open spec fn verify_outcome(ix: Instruction, signers: Seq<Seq<u8>>, digest: Seq<u8>) -> Result<
    (),
    MultiSigErrors,
> {
    if !record_ok(ix, signers.len()) {
        Err(MultiSigErrors::InvalidVerifierInstruction)
    } else {
        batch_outcome(records_of(ix.data@, signers.len()), signers, digest)
    }
}

/// Copies the bytes of each address into a vector of its own.
fn addresses_to_bytes(addresses: &Vec<[u8; 20]>) -> (r: Vec<Vec<u8>>)
    ensures
        r@.len() == addresses@.len(),
        r@.map_values(|s: Vec<u8>| s@) == addresses_view(addresses@),
{
    let mut out: Vec<Vec<u8>> = Vec::new();
    let mut i: usize = 0;
    while i < addresses.len()
        invariant
            i <= addresses@.len(),
            out@.len() == i,
            forall|j: int| 0 <= j < i ==> #[trigger] out@[j]@ == addresses@[j]@,
        decreases addresses@.len() - i,
    {
        let bytes = copy_range(addresses[i].as_slice(), 0, 20);
        proof {
            assert(bytes@ =~= addresses@[i as int]@);
        }
        out.push(bytes);
        i = i + 1;
    }
    proof {
        assert(out@.map_values(|s: Vec<u8>| s@) =~= addresses_view(addresses@));
    }
    out
}

/// A record that does not come from the secp256k1 program, or that carries
/// accounts, is rejected with `InvalidVerifierInstruction`, whatever its data
/// and whoever the claimed signers are.
pub proof fn lemma_foreign_record_rejected(ix: Instruction, signers: Seq<Seq<u8>>, digest: Seq<u8>)
    requires
        ix.program_id@ != secp256k1_program_id() || ix.accounts@.len() != 0,
    ensures
        verify_outcome(ix, signers, digest) == Err::<(), MultiSigErrors>(
            MultiSigErrors::InvalidVerifierInstruction,
        ),
{
}

/// Extracts the address and message of each of `n` signers from a record,
/// after checking its source and its length.
pub fn parse_signature_records(ix: &Instruction, n: usize) -> (r: Result<
    Vec<SignatureRecord>,
    MultiSigErrors,
>)
    ensures
        r is Ok <==> record_ok(*ix, n as nat),
        r matches Err(e) ==> e == MultiSigErrors::InvalidVerifierInstruction,
        r matches Ok(v) ==> v@.len() == n && records_view(v@) == records_of(ix.data@, n as nat),
{
    let data_len = ix.data.len();
    let expected = secp256k1_program_key();
    if !ix.program_id.key_eq(&expected) || ix.accounts.len() != 0 {
        return Err(MultiSigErrors::InvalidVerifierInstruction);
    }
    // Each signer takes 11 bytes of offsets, a 20-byte address, a 65-byte
    // signature and a 32-byte message; the header takes 1 byte.
    let body = match n.checked_mul(128) {
        Some(b) => b,
        None => {
            return Err(MultiSigErrors::InvalidVerifierInstruction);
        },
    };
    let total = match body.checked_add(1) {
        Some(t) => t,
        None => {
            return Err(MultiSigErrors::InvalidVerifierInstruction);
        },
    };
    if data_len < total {
        return Err(MultiSigErrors::InvalidVerifierInstruction);
    }
    let addresses_at: usize = 1 + 11 * n;
    let messages_at: usize = addresses_at + 20 * n + 65 * n;
    let ghost expected_records = records_of(ix.data@, n as nat);
    let mut records: Vec<SignatureRecord> = Vec::new();
    let mut i: usize = 0;
    while i < n
        invariant
            i <= n,
            addresses_at == addresses_start(n as int),
            messages_at == messages_start(n as int),
            addresses_at + 20 * n <= messages_at,
            messages_at + 32 * n <= data_len,
            data_len == ix.data@.len(),
            expected_records == records_of(ix.data@, n as nat),
            records@.len() == i,
            forall|j: int| 0 <= j < i ==> #[trigger] records@[j]@ == expected_records[j],
        decreases n - i,
    {
        let recovered_identity = copy_range(ix.data.as_slice(), addresses_at + 20 * i, 20);
        let signed_message = copy_range(ix.data.as_slice(), messages_at + 32 * i, 32);
        records.push(SignatureRecord { recovered_identity, signed_message });
        i = i + 1;
    }
    proof {
        assert(records_view(records@) =~= expected_records);
    }
    Ok(records)
}

/// Checks a record of the secp256k1 facility against the claimed signer
/// addresses and the digest they must have signed.
pub fn verify(ix: &Instruction, signers: Vec<[u8; 20]>, multi_sig_hash: [u8; 32]) -> (r: Result<
    (),
    MultiSigErrors,
>)
    ensures
        r == verify_outcome(*ix, addresses_view(signers@), multi_sig_hash@),
{
    let records = parse_signature_records(ix, signers.len())?;
    let identities = addresses_to_bytes(&signers);
    check_records(&records, &identities, multi_sig_hash.as_slice())
}

} // verus!
