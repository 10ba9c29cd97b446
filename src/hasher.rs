use crate::instruction::TransactionAccount;
use crate::pubkey::Pubkey;
use vstd::bytes::{lemma_auto_spec_u64_to_from_le_bytes, spec_u64_to_le_bytes, u64_to_le_bytes};
use vstd::prelude::*;

verus! {

/// The Keccak-256 digest of a byte string.
pub uninterp spec fn keccak_of(data: Seq<u8>) -> Seq<u8>;

/// Relies on `solana_program::keccak::hash` (solana-keccak-hasher): the
/// Keccak-256 digest of `data`, a function of its bytes alone.
#[verifier::external_body]
fn keccak_hash(data: &Vec<u8>) -> (r: [u8; 32])
    ensures
        r@ == keccak_of(data@),
{
    anchor_lang::solana_program::keccak::hash(data.as_slice()).to_bytes()
}

pub open spec fn flag_byte(b: bool) -> u8 {
    if b {
        1u8
    } else {
        0u8
    }
}

/// The bytes that one account reference contributes to the signed message.
pub open spec fn account_bytes(a: TransactionAccount) -> Seq<u8> {
    a.pubkey@ + seq![flag_byte(a.is_signer), flag_byte(a.is_writable)]
}

/// The account references serialized in order, 34 bytes each.
pub open spec fn accounts_bytes(accounts: Seq<TransactionAccount>) -> Seq<u8>
    decreases accounts.len(),
{
    if accounts.len() == 0 {
        Seq::empty()
    } else {
        accounts_bytes(accounts.drop_last()) + account_bytes(accounts.last())
    }
}

/// The canonical message that every signer signs the digest of: the
/// delegated authority, the nonce in little-endian order, each account
/// reference with its two flags, the target program and the action data.
pub open spec fn tx_message(
    authority: Seq<u8>,
    nonce: u64,
    accounts: Seq<TransactionAccount>,
    data: Seq<u8>,
    program: Seq<u8>,
) -> Seq<u8> {
    authority + spec_u64_to_le_bytes(nonce) + accounts_bytes(accounts) + program + data
}

/// The digest that every claimed signer must have signed.
pub open spec fn tx_digest(
    authority: Seq<u8>,
    nonce: u64,
    accounts: Seq<TransactionAccount>,
    data: Seq<u8>,
    program: Seq<u8>,
) -> Seq<u8> {
    keccak_of(tx_message(authority, nonce, accounts, data, program))
}

/// Two sequences of account references agree key for key and flag for flag.
pub open spec fn same_accounts(a: Seq<TransactionAccount>, b: Seq<TransactionAccount>) -> bool {
    &&& a.len() == b.len()
    &&& forall|i: int|
        0 <= i < a.len() ==> {
            &&& (#[trigger] a[i]).pubkey@ == b[i].pubkey@
            &&& a[i].is_signer == b[i].is_signer
            &&& a[i].is_writable == b[i].is_writable
        }
}

/// Each account reference contributes 34 bytes.
proof fn lemma_accounts_bytes_len(accounts: Seq<TransactionAccount>)
    ensures
        accounts_bytes(accounts).len() == 34 * accounts.len(),
    decreases accounts.len(),
{
    if accounts.len() > 0 {
        lemma_accounts_bytes_len(accounts.drop_last());
    }
}

/// The bytes of the `i`-th account reference stand at offset `34 * i`.
proof fn lemma_accounts_bytes_at(accounts: Seq<TransactionAccount>, i: int)
    requires
        0 <= i < accounts.len(),
    ensures
        accounts_bytes(accounts).subrange(34 * i, 34 * i + 34) == account_bytes(accounts[i]),
    decreases accounts.len(),
{
    let init = accounts.drop_last();
    lemma_accounts_bytes_len(init);
    if i < accounts.len() - 1 {
        lemma_accounts_bytes_at(init, i);
        assert(accounts_bytes(accounts).subrange(34 * i, 34 * i + 34) =~= accounts_bytes(
            init,
        ).subrange(34 * i, 34 * i + 34));
    } else {
        assert(accounts_bytes(accounts).subrange(34 * i, 34 * i + 34) =~= account_bytes(
            accounts.last(),
        ));
    }
}

/// Account references that agree key for key and flag for flag serialize
/// to the same bytes.
proof fn lemma_accounts_bytes_same(a: Seq<TransactionAccount>, b: Seq<TransactionAccount>)
    requires
        same_accounts(a, b),
    ensures
        accounts_bytes(a) == accounts_bytes(b),
    decreases a.len(),
{
    if a.len() > 0 {
        let (ia, ib) = (a.drop_last(), b.drop_last());
        assert(same_accounts(ia, ib)) by {
            assert forall|i: int| 0 <= i < ia.len() implies (#[trigger] ia[i]).pubkey@ == ib[i].pubkey@
                && ia[i].is_signer == ib[i].is_signer && ia[i].is_writable == ib[i].is_writable by {
                assert(ia[i] == a[i] && ib[i] == b[i]);
            }
        }
        lemma_accounts_bytes_same(ia, ib);
        assert(a.last() == a[a.len() - 1]);
        assert(account_bytes(a.last()) =~= account_bytes(b.last()));
    }
}

/// Serialized account references of equal count that are equal come from
/// references that agree key for key and flag for flag.
proof fn lemma_accounts_bytes_injective(a: Seq<TransactionAccount>, b: Seq<TransactionAccount>)
    requires
        a.len() == b.len(),
        accounts_bytes(a) == accounts_bytes(b),
    ensures
        same_accounts(a, b),
{
    assert forall|i: int| 0 <= i < a.len() implies (#[trigger] a[i]).pubkey@ == b[i].pubkey@
        && a[i].is_signer == b[i].is_signer && a[i].is_writable == b[i].is_writable by {
        lemma_accounts_bytes_at(a, i);
        lemma_accounts_bytes_at(b, i);
        let (x, y) = (account_bytes(a[i]), account_bytes(b[i]));
        assert(x == y);
        assert(a[i].pubkey@ =~= x.subrange(0, 32));
        assert(b[i].pubkey@ =~= y.subrange(0, 32));
        assert(x[32] == flag_byte(a[i].is_signer) && y[32] == flag_byte(b[i].is_signer));
        assert(x[33] == flag_byte(a[i].is_writable) && y[33] == flag_byte(b[i].is_writable));
    }
}

/// For requests with as many account references and as many data bytes,
/// the canonical messages under one authority are equal exactly when the
/// nonces, the account references (keys and both flags), the target programs
/// and the data are. So a change to any of these changes what is signed.
pub proof fn lemma_message_distinguishes(
    authority: Pubkey,
    nonce1: u64,
    accounts1: Seq<TransactionAccount>,
    data1: Seq<u8>,
    program1: Pubkey,
    nonce2: u64,
    accounts2: Seq<TransactionAccount>,
    data2: Seq<u8>,
    program2: Pubkey,
)
    requires
        accounts1.len() == accounts2.len(),
        data1.len() == data2.len(),
    ensures
        tx_message(authority@, nonce1, accounts1, data1, program1@) == tx_message(
            authority@,
            nonce2,
            accounts2,
            data2,
            program2@,
        ) <==> {
            &&& nonce1 == nonce2
            &&& same_accounts(accounts1, accounts2)
            &&& program1@ == program2@
            &&& data1 == data2
        },
{
    lemma_auto_spec_u64_to_from_le_bytes();
    let m1 = tx_message(authority@, nonce1, accounts1, data1, program1@);
    let m2 = tx_message(authority@, nonce2, accounts2, data2, program2@);
    if m1 == m2 {
        let k: int = 34 * accounts1.len() as int;
        lemma_accounts_bytes_len(accounts1);
        lemma_accounts_bytes_len(accounts2);
        assert(m1.subrange(32, 40) =~= spec_u64_to_le_bytes(nonce1));
        assert(m2.subrange(32, 40) =~= spec_u64_to_le_bytes(nonce2));
        assert(m1.subrange(40, 40 + k) =~= accounts_bytes(accounts1));
        assert(m2.subrange(40, 40 + k) =~= accounts_bytes(accounts2));
        lemma_accounts_bytes_injective(accounts1, accounts2);
        assert(m1.subrange(40 + k, 72 + k) =~= program1@);
        assert(m2.subrange(40 + k, 72 + k) =~= program2@);
        assert(m1.subrange(72 + k, m1.len() as int) =~= data1);
        assert(m2.subrange(72 + k, m2.len() as int) =~= data2);
    }
    if nonce1 == nonce2 && same_accounts(accounts1, accounts2) && program1@ == program2@ && data1
        == data2 {
        lemma_accounts_bytes_same(accounts1, accounts2);
    }
}

/// The digest depends on the bytes of the request alone: the same authority,
/// nonce, account references, data and target give the same digest.
pub proof fn lemma_digest_deterministic(
    authority: Pubkey,
    nonce: u64,
    accounts1: Seq<TransactionAccount>,
    accounts2: Seq<TransactionAccount>,
    data: Seq<u8>,
    program1: Pubkey,
    program2: Pubkey,
)
    requires
        same_accounts(accounts1, accounts2),
        program1@ == program2@,
    ensures
        tx_digest(authority@, nonce, accounts1, data, program1@) == tx_digest(
            authority@,
            nonce,
            accounts2,
            data,
            program2@,
        ),
{
    lemma_accounts_bytes_same(accounts1, accounts2);
}

fn push_bytes(out: &mut Vec<u8>, bytes: &[u8])
    ensures
        final(out)@ == old(out)@ + bytes@,
{
    let mut i: usize = 0;
    while i < bytes.len()
        invariant
            i <= bytes@.len(),
            out@ == old(out)@ + bytes@.subrange(0, i as int),
        decreases bytes@.len() - i,
    {
        out.push(bytes[i]);
        i = i + 1;
        proof {
            assert(bytes@.subrange(0, i as int) =~= bytes@.subrange(0, i - 1) + seq![bytes@[i - 1]]);
        }
    }
    proof {
        assert(bytes@.subrange(0, bytes@.len() as int) =~= bytes@);
    }
}

/// Builds the canonical message of a request (see [`tx_message`]).
pub fn create_multi_sig_tx_message(
    multisig_pda: &Pubkey,
    nonce: u64,
    accounts: &Vec<TransactionAccount>,
    data: &[u8],
    program: &Pubkey,
) -> (r: Vec<u8>)
    ensures
        r@ == tx_message(multisig_pda@, nonce, accounts@, data@, program@),
{
    let mut payload: Vec<u8> = Vec::new();
    push_bytes(&mut payload, multisig_pda.bytes.as_slice());
    let nonce_bytes = u64_to_le_bytes(nonce);
    push_bytes(&mut payload, nonce_bytes.as_slice());
    let ghost head = payload@;
    let mut i: usize = 0;
    while i < accounts.len()
        invariant
            i <= accounts@.len(),
            payload@ == head + accounts_bytes(accounts@.subrange(0, i as int)),
        decreases accounts@.len() - i,
    {
        let account = &accounts[i];
        push_bytes(&mut payload, account.pubkey.bytes.as_slice());
        payload.push(if account.is_signer { 1u8 } else { 0u8 });
        payload.push(if account.is_writable { 1u8 } else { 0u8 });
        proof {
            let prefix = accounts@.subrange(0, i as int + 1);
            assert(prefix.drop_last() =~= accounts@.subrange(0, i as int));
            assert(prefix.last() == accounts@[i as int]);
        }
        i = i + 1;
        proof {
            assert(payload@ =~= head + accounts_bytes(accounts@.subrange(0, i as int)));
        }
    }
    proof {
        assert(accounts@.subrange(0, accounts@.len() as int) =~= accounts@);
    }
    push_bytes(&mut payload, program.bytes.as_slice());
    push_bytes(&mut payload, data);
    proof {
        assert(payload@ =~= tx_message(multisig_pda@, nonce, accounts@, data@, program@));
    }
    payload
}

/// The Keccak-256 digest of the request's canonical message.
pub fn create_multi_sig_tx_hash(
    multisig_pda: &Pubkey,
    nonce: u64,
    accounts: &Vec<TransactionAccount>,
    data: &[u8],
    program: &Pubkey,
) -> (r: [u8; 32])
    ensures
        r@ == tx_digest(multisig_pda@, nonce, accounts@, data@, program@),
{
    let payload = create_multi_sig_tx_message(multisig_pda, nonce, accounts, data, program);
    keccak_hash(&payload)
}

} // verus!
