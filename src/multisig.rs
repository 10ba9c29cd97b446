//! Authorizing a request against a configuration and, on success, advancing
//! the nonce and handing the action on for execution.
use crate::config::{
    config_wf, has_duplicate, is_owner, is_owner_key, unique_signers, MultiSigConfig,
};
use crate::ed25519;
use crate::errors::MultiSigErrors;
use crate::hasher::{create_multi_sig_tx_hash, tx_digest};
use crate::instruction::{AccountMeta, ExecuteMultiSigTx, Instruction};
use crate::pubkey::{keys_view, Pubkey};
use vstd::prelude::*;

verus! {

/// Some claimed signer is not an owner.
pub open spec fn some_non_owner(owners: Seq<Pubkey>, signers: Seq<Pubkey>) -> bool {
    exists|i: int| 0 <= i < signers.len() && !is_owner(owners, #[trigger] signers[i]@)
}

/// The checks on a request that need no signature record, in order:
/// distinct signers, enough of them, the current nonce, all of them owners.
pub open spec fn request_outcome(config: MultiSigConfig, params: ExecuteMultiSigTx) -> Result<
    (),
    MultiSigErrors,
> {
    if has_duplicate(params.signers@) {
        Err(MultiSigErrors::DuplicateSigner)
    } else if params.signers@.len() < config.threshold {
        Err(MultiSigErrors::ThresholdNotMet)
    } else if params.nonce != config.nonce {
        Err(MultiSigErrors::ErrNonceTooOld)
    } else if some_non_owner(config.owners@, params.signers@) {
        Err(MultiSigErrors::InvalidSigner)
    } else {
        Ok(())
    }
}

/// All checks on a request, the record of signatures last, given the digest
/// the signers must have signed.
pub open spec fn authorize_outcome(
    config: MultiSigConfig,
    params: ExecuteMultiSigTx,
    ix: Instruction,
    digest: Seq<u8>,
) -> Result<(), MultiSigErrors> {
    match request_outcome(config, params) {
        Err(e) => Err(e),
        Ok(_) => ed25519::verify_outcome(ix, keys_view(params.signers@), digest),
    }
}

/// What executing a request yields: its authorization, then room for the
/// nonce to advance.
pub open spec fn execute_outcome(
    config: MultiSigConfig,
    params: ExecuteMultiSigTx,
    ix: Instruction,
    digest: Seq<u8>,
) -> Result<(), MultiSigErrors> {
    match authorize_outcome(config, params, ix, digest) {
        Err(e) => Err(e),
        Ok(_) => if config.nonce == u64::MAX {
            Err(MultiSigErrors::NonceOverflow)
        } else {
            Ok(())
        },
    }
}

/// The digest the signers of `params` must have signed under `config`.
pub open spec fn expected_digest(config: MultiSigConfig, params: ExecuteMultiSigTx) -> Seq<u8> {
    tx_digest(
        config.multisig_pda@,
        config.nonce,
        params.accounts@,
        params.data@,
        params.program_id@,
    )
}

/// `after` is `before` with the nonce one higher and all else kept.
pub open spec fn advanced(before: MultiSigConfig, after: MultiSigConfig) -> bool {
    &&& after.owners@ == before.owners@
    &&& after.threshold == before.threshold
    &&& after.multisig_pda@ == before.multisig_pda@
    &&& after.pda_bump == before.pda_bump
    &&& after.nonce == before.nonce + 1
}

/// `out` is the action of `params`, with each account that is the delegated
/// `authority` marked as a signer.
pub open spec fn is_dispatch_of(out: Instruction, params: ExecuteMultiSigTx, authority: Seq<u8>) -> bool {
    &&& out.program_id@ == params.program_id@
    &&& out.data@ == params.data@
    &&& out.accounts@.len() == params.accounts@.len()
    &&& forall|i: int|
        0 <= i < params.accounts@.len() ==> {
            let a = #[trigger] params.accounts@[i];
            let m = out.accounts@[i];
            &&& m.pubkey@ == a.pubkey@
            &&& m.is_signer == (a.is_signer || a.pubkey@ == authority)
            &&& m.is_writable == a.is_writable
        }
}

/// Runs the checks on a request that need no signature record.
pub fn check_request(config: &MultiSigConfig, params: &ExecuteMultiSigTx) -> (r: Result<
    (),
    MultiSigErrors,
>)
    ensures
        r == request_outcome(*config, *params),
{
    if unique_signers(&params.signers).is_err() {
        return Err(MultiSigErrors::DuplicateSigner);
    }
    if params.signers.len() < config.threshold as usize {
        return Err(MultiSigErrors::ThresholdNotMet);
    }
    if params.nonce != config.nonce {
        return Err(MultiSigErrors::ErrNonceTooOld);
    }
    let mut i: usize = 0;
    while i < params.signers.len()
        invariant
            i <= params.signers@.len(),
            !has_duplicate(params.signers@),
            params.signers@.len() >= config.threshold,
            params.nonce == config.nonce,
            forall|j: int| 0 <= j < i ==> is_owner(config.owners@, #[trigger] params.signers@[j]@),
        decreases params.signers@.len() - i,
    {
        if !is_owner_key(&config.owners, &params.signers[i]) {
            assert(!is_owner(config.owners@, params.signers@[i as int]@));
            return Err(MultiSigErrors::InvalidSigner);
        }
        i = i + 1;
    }
    Ok(())
}

/// Decides whether a request is authorized: the checks of
/// [`check_request`], then the signature record of the Ed25519 facility
/// against the claimed signers and `expected_hash`.
pub fn authorize(
    config: &MultiSigConfig,
    params: &ExecuteMultiSigTx,
    ix: &Instruction,
    expected_hash: [u8; 32],
) -> (r: Result<(), MultiSigErrors>)
    ensures
        r == authorize_outcome(*config, *params, *ix, expected_hash@),
{
    check_request(config, params)?;
    let signers = params.signers.clone();
    proof {
        assert(signers@ =~= params.signers@);
    }
    ed25519::verify(ix, signers, expected_hash)
}

/// Builds the action of `params` to run under `authority`: each account
/// whose key is the authority is marked as a signer, since the runtime signs
/// for it on the configuration's behalf.
pub fn dispatch_instruction(params: ExecuteMultiSigTx, authority: &Pubkey) -> (r: Instruction)
    ensures
        is_dispatch_of(r, params, authority@),
{
    let mut accounts: Vec<AccountMeta> = Vec::new();
    let mut i: usize = 0;
    while i < params.accounts.len()
        invariant
            i <= params.accounts@.len(),
            accounts@.len() == i,
            forall|j: int|
                0 <= j < i ==> {
                    let a = #[trigger] params.accounts@[j];
                    let m = accounts@[j];
                    &&& m.pubkey@ == a.pubkey@
                    &&& m.is_signer == (a.is_signer || a.pubkey@ == authority@)
                    &&& m.is_writable == a.is_writable
                },
        decreases params.accounts@.len() - i,
    {
        let account = params.accounts[i];
        let is_signer = account.is_signer || account.pubkey.key_eq(authority);
        accounts.push(
            AccountMeta { pubkey: account.pubkey, is_signer, is_writable: account.is_writable },
        );
        i = i + 1;
    }
    Instruction { program_id: params.program_id, accounts, data: params.data }
}

/// Authorizes a request against `expected_hash` and, on success, advances
/// the nonce by one and returns the action to run under the configuration's
/// signer address. On failure the configuration is left as it was.
pub fn execute_with_hash(
    config: &mut MultiSigConfig,
    params: ExecuteMultiSigTx,
    ix: &Instruction,
    expected_hash: [u8; 32],
) -> (r: Result<Instruction, MultiSigErrors>)
    ensures
        match r {
            Ok(out) => {
                &&& execute_outcome(*old(config), params, *ix, expected_hash@) is Ok
                &&& advanced(*old(config), *final(config))
                &&& is_dispatch_of(out, params, old(config).multisig_pda@)
            },
            Err(e) => {
                &&& execute_outcome(*old(config), params, *ix, expected_hash@) == Err::<
                    (),
                    MultiSigErrors,
                >(e)
                &&& *final(config) == *old(config)
            },
        },
        config_wf(*old(config)) ==> config_wf(*final(config)),
{
    authorize(config, &params, ix, expected_hash)?;
    if config.nonce == u64::MAX {
        return Err(MultiSigErrors::NonceOverflow);
    }
    config.nonce = config.nonce + 1;
    Ok(dispatch_instruction(params, &config.multisig_pda))
}

/// Executes a request: computes the digest its signers must have signed
/// from the configuration's signer address and current nonce, then proceeds
/// as [`execute_with_hash`].
pub fn execute(config: &mut MultiSigConfig, params: ExecuteMultiSigTx, ix: &Instruction) -> (r:
    Result<Instruction, MultiSigErrors>)
    ensures
        match r {
            Ok(out) => {
                &&& execute_outcome(
                    *old(config),
                    params,
                    *ix,
                    expected_digest(*old(config), params),
                ) is Ok
                &&& advanced(*old(config), *final(config))
                &&& is_dispatch_of(out, params, old(config).multisig_pda@)
            },
            Err(e) => {
                &&& execute_outcome(*old(config), params, *ix, expected_digest(*old(config), params))
                    == Err::<(), MultiSigErrors>(e)
                &&& *final(config) == *old(config)
            },
        },
        config_wf(*old(config)) ==> config_wf(*final(config)),
{
    let expected_hash = create_multi_sig_tx_hash(
        &config.multisig_pda,
        config.nonce,
        &params.accounts,
        params.data.as_slice(),
        &params.program_id,
    );
    execute_with_hash(config, params, ix, expected_hash)
}

/// A request whose claimed signers hold a key twice is rejected with
/// `DuplicateSigner`, whatever its signature record holds.
pub proof fn lemma_duplicate_signers_rejected(
    config: MultiSigConfig,
    params: ExecuteMultiSigTx,
    ix: Instruction,
    digest: Seq<u8>,
)
    requires
        has_duplicate(params.signers@),
    ensures
        execute_outcome(config, params, ix, digest) == Err::<(), MultiSigErrors>(
            MultiSigErrors::DuplicateSigner,
        ),
{
}

/// A request with fewer claimed signers than the threshold is rejected; with
/// distinct signers, the error is `ThresholdNotMet`, however valid its
/// signatures are.
pub proof fn lemma_below_threshold_rejected(
    config: MultiSigConfig,
    params: ExecuteMultiSigTx,
    ix: Instruction,
    digest: Seq<u8>,
)
    requires
        params.signers@.len() < config.threshold,
    ensures
        execute_outcome(config, params, ix, digest) is Err,
        !has_duplicate(params.signers@) ==> execute_outcome(config, params, ix, digest) == Err::<
            (),
            MultiSigErrors,
        >(MultiSigErrors::ThresholdNotMet),
{
}

/// A request whose nonce is not the configuration's is rejected; once its
/// signers are distinct and enough, the error is `ErrNonceTooOld`.
pub proof fn lemma_stale_nonce_rejected(
    config: MultiSigConfig,
    params: ExecuteMultiSigTx,
    ix: Instruction,
    digest: Seq<u8>,
)
    requires
        params.nonce != config.nonce,
    ensures
        execute_outcome(config, params, ix, digest) is Err,
        !has_duplicate(params.signers@) && params.signers@.len() >= config.threshold
            ==> execute_outcome(config, params, ix, digest) == Err::<(), MultiSigErrors>(
            MultiSigErrors::ErrNonceTooOld,
        ),
{
}

/// After a request has been executed, the configuration's nonce is one
/// higher and the same request, with any record and digest, is rejected with
/// `ErrNonceTooOld`.
pub proof fn lemma_no_replay(
    before: MultiSigConfig,
    after: MultiSigConfig,
    params: ExecuteMultiSigTx,
    ix: Instruction,
    digest: Seq<u8>,
    replay_ix: Instruction,
    replay_digest: Seq<u8>,
)
    requires
        execute_outcome(before, params, ix, digest) is Ok,
        advanced(before, after),
    ensures
        after.nonce == before.nonce + 1,
        execute_outcome(after, params, replay_ix, replay_digest) == Err::<(), MultiSigErrors>(
            MultiSigErrors::ErrNonceTooOld,
        ),
{
}

/// A request with a claimed signer that is no owner is rejected; once the
/// earlier checks pass (distinct signers, enough of them, the current nonce),
/// the error is `InvalidSigner`.
pub proof fn lemma_non_owner_rejected(
    config: MultiSigConfig,
    params: ExecuteMultiSigTx,
    ix: Instruction,
    digest: Seq<u8>,
    i: int,
)
    requires
        0 <= i < params.signers@.len(),
        !is_owner(config.owners@, params.signers@[i]@),
    ensures
        execute_outcome(config, params, ix, digest) is Err,
        !has_duplicate(params.signers@) && params.signers@.len() >= config.threshold
            && params.nonce == config.nonce ==> execute_outcome(config, params, ix, digest)
            == Err::<(), MultiSigErrors>(MultiSigErrors::InvalidSigner),
{
    assert(some_non_owner(config.owners@, params.signers@));
}

} // verus!
