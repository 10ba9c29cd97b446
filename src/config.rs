use crate::errors::MultiSigErrors;
use crate::pubkey::Pubkey;
use vstd::prelude::*;

verus! {

/// A persisted multisig configuration.
#[derive(Debug, Clone)]
pub struct MultiSigConfig {
    /// The keys allowed to sign, in the order they were given.
    pub owners: Vec<Pubkey>,
    /// How many distinct owners must sign a request.
    pub threshold: u8,
    /// The replay counter: the nonce the next request must carry.
    pub nonce: u64,
    /// The derived address that actions run under.
    pub multisig_pda: Pubkey,
    /// The bump seed that completed the derivation of `multisig_pda`.
    pub pda_bump: u8,
}

/// Two keys of the sequence have the same bytes.
pub open spec fn has_duplicate(keys: Seq<Pubkey>) -> bool {
    exists|i: int, j: int| 0 <= i < j < keys.len() && #[trigger] keys[i]@ == #[trigger] keys[j]@
}

/// `key` is the key of one of the owners.
pub open spec fn is_owner(owners: Seq<Pubkey>, key: Seq<u8>) -> bool {
    exists|i: int| 0 <= i < owners.len() && #[trigger] owners[i]@ == key
}

/// What validating a list of owners with a threshold yields.
pub open spec fn owners_outcome(owners: Seq<Pubkey>, threshold: u8) -> Result<(), MultiSigErrors> {
    if owners.len() == 0 {
        Err(MultiSigErrors::InvalidOwnersLen)
    } else if threshold == 0 || threshold > owners.len() {
        Err(MultiSigErrors::InvalidThreshold)
    } else if has_duplicate(owners) {
        Err(MultiSigErrors::DuplicateSigner)
    } else {
        Ok(())
    }
}

/// A configuration that creation can produce: distinct owners, at least one,
/// and a threshold between one and their number.
pub open spec fn config_wf(config: MultiSigConfig) -> bool {
    owners_outcome(config.owners@, config.threshold) is Ok
}

/// The seed that, with the configuration's address, derives its signer.
pub open spec fn signer_seed() -> Seq<u8> {
    // "multisig-signer"
    seq![109u8, 117, 108, 116, 105, 115, 105, 103, 45, 115, 105, 103, 110, 101, 114]
}

/// The seeds that derive the signer of the configuration at `config_address`.
pub open spec fn signer_seeds(config_address: Seq<u8>) -> Seq<Seq<u8>> {
    seq![signer_seed(), config_address]
}

/// The program-derived address and bump seed found for `seeds` under
/// `program`, if any.
pub uninterp spec fn program_address_of(seeds: Seq<Seq<u8>>, program: Seq<u8>) -> Option<
    (Seq<u8>, u8),
>;

pub open spec fn derived_view(derived: Option<(Pubkey, u8)>) -> Option<(Seq<u8>, u8)> {
    match derived {
        Some((key, bump)) => Some((key@, bump)),
        None => None,
    }
}

/// Relies on `Pubkey::try_find_program_address` (solana-pubkey): the first
/// bump seed, from 255 down, that gives an address off the curve, together
/// with that address; `None` where no bump does or the seeds are too many or
/// too long. The result depends on the seeds and the program alone.
#[verifier::external_body]
fn try_find_program_address(seeds: &Vec<Vec<u8>>, program_id: &Pubkey) -> (r: Option<(Pubkey, u8)>)
    ensures
        derived_view(r) == program_address_of(seeds@.map_values(|s: Vec<u8>| s@), program_id@),
{
    let seed_refs: Vec<&[u8]> = seeds.iter().map(|s| s.as_slice()).collect();
    let program = anchor_lang::prelude::Pubkey::new_from_array(program_id.bytes);
    match anchor_lang::prelude::Pubkey::try_find_program_address(&seed_refs, &program) {
        Some((key, bump)) => Some((Pubkey { bytes: key.to_bytes() }, bump)),
        None => None,
    }
}

/// Derives the address that actions of the configuration at
/// `config_address` run under, with its bump seed.
pub fn find_signer_address(config_address: &Pubkey, program_id: &Pubkey) -> (r: Option<
    (Pubkey, u8),
>)
    ensures
        derived_view(r) == program_address_of(signer_seeds(config_address@), program_id@),
{
    let seed: Vec<u8> = vec![109u8, 117, 108, 116, 105, 115, 105, 103, 45, 115, 105, 103, 110, 101, 114];
    let address = crate::batch::copy_range(config_address.bytes.as_slice(), 0, 32);
    proof {
        assert(seed@ =~= signer_seed());
        assert(address@ =~= config_address@);
    }
    let mut seeds: Vec<Vec<u8>> = Vec::new();
    seeds.push(seed);
    seeds.push(address);
    proof {
        assert(seeds@.map_values(|s: Vec<u8>| s@) =~= signer_seeds(config_address@));
    }
    try_find_program_address(&seeds, program_id)
}

/// Fails with `DuplicateSigner` exactly when two of the keys are equal.
pub fn unique_signers(signers: &Vec<Pubkey>) -> (r: Result<(), MultiSigErrors>)
    ensures
        r is Ok <==> !has_duplicate(signers@),
        r matches Err(e) ==> e == MultiSigErrors::DuplicateSigner,
{
    let mut i: usize = 0;
    while i < signers.len()
        invariant
            i <= signers@.len(),
            forall|a: int, b: int|
                0 <= a < i && a < b < signers@.len() ==> #[trigger] signers@[a]@ != #[trigger] signers@[b]@,
        decreases signers@.len() - i,
    {
        let mut j: usize = i + 1;
        while j < signers.len()
            invariant
                i < j <= signers@.len(),
                forall|b: int| i < b < j ==> signers@[i as int]@ != #[trigger] signers@[b]@,
            decreases signers@.len() - j,
        {
            if signers[i].key_eq(&signers[j]) {
                return Err(MultiSigErrors::DuplicateSigner);
            }
            j = j + 1;
        }
        i = i + 1;
    }
    Ok(())
}

/// Whether `key` is one of the owners.
pub fn is_owner_key(owners: &Vec<Pubkey>, key: &Pubkey) -> (r: bool)
    ensures
        r == is_owner(owners@, key@),
{
    let mut i: usize = 0;
    while i < owners.len()
        invariant
            i <= owners@.len(),
            forall|j: int| 0 <= j < i ==> #[trigger] owners@[j]@ != key@,
        decreases owners@.len() - i,
    {
        if owners[i].key_eq(key) {
            return true;
        }
        i = i + 1;
    }
    false
}

/// Checks a list of owners and a threshold for a new configuration: there is
/// at least one owner, the threshold is between one and the number of owners,
/// and no owner is listed twice.
pub fn validate_owners(owners: &Vec<Pubkey>, threshold: u8) -> (r: Result<(), MultiSigErrors>)
    ensures
        r == owners_outcome(owners@, threshold),
{
    if owners.len() == 0 {
        return Err(MultiSigErrors::InvalidOwnersLen);
    }
    if threshold == 0 || threshold as usize > owners.len() {
        return Err(MultiSigErrors::InvalidThreshold);
    }
    match unique_signers(owners) {
        Ok(()) => Ok(()),
        Err(_) => Err(MultiSigErrors::DuplicateSigner),
    }
}

/// What creating a configuration yields, given the result of deriving its
/// signer address.
pub open spec fn create_outcome(
    owners: Seq<Pubkey>,
    threshold: u8,
    derived: Option<(Seq<u8>, u8)>,
) -> Result<(), MultiSigErrors> {
    match owners_outcome(owners, threshold) {
        Err(e) => Err(e),
        Ok(_) => if derived is None {
            Err(MultiSigErrors::SignerDerivationFailed)
        } else {
            Ok(())
        },
    }
}

/// `config` is the fresh configuration of `owners` and `threshold` under the
/// derived signer address: nonce zero, owners in the order given.
pub open spec fn is_created(
    config: MultiSigConfig,
    owners: Seq<Pubkey>,
    threshold: u8,
    derived: Option<(Seq<u8>, u8)>,
) -> bool {
    &&& derived matches Some((address, bump))
    &&& config.owners@ == owners
    &&& config.threshold == threshold
    &&& config.nonce == 0
    &&& config.multisig_pda@ == address
    &&& config.pda_bump == bump
}

/// Creation without owners always fails with `InvalidOwnersLen`; with
/// owners, a threshold of zero or above their number always fails with
/// `InvalidThreshold`, whatever the derivation of the signer address gave.
pub proof fn lemma_create_rejects_bad_shape(
    owners: Seq<Pubkey>,
    threshold: u8,
    derived: Option<(Seq<u8>, u8)>,
)
    ensures
        owners.len() == 0 ==> create_outcome(owners, threshold, derived) == Err::<
            (),
            MultiSigErrors,
        >(MultiSigErrors::InvalidOwnersLen),
        owners.len() > 0 && (threshold == 0 || threshold > owners.len()) ==> create_outcome(
            owners,
            threshold,
            derived,
        ) == Err::<(), MultiSigErrors>(MultiSigErrors::InvalidThreshold),
{
}

/// Creates a configuration from validated owners and the already derived
/// signer address and bump.
pub fn create_with_signer(signers: Vec<Pubkey>, threshold: u8, derived: Option<(Pubkey, u8)>) -> (r:
    Result<MultiSigConfig, MultiSigErrors>)
    ensures
        r is Ok <==> create_outcome(signers@, threshold, derived_view(derived)) is Ok,
        r matches Err(e) ==> create_outcome(signers@, threshold, derived_view(derived)) == Err::<
            (),
            MultiSigErrors,
        >(e),
        r matches Ok(config) ==> is_created(config, signers@, threshold, derived_view(derived))
            && config_wf(config),
{
    validate_owners(&signers, threshold)?;
    match derived {
        Some((multisig_pda, pda_bump)) => Ok(
            MultiSigConfig { owners: signers, threshold, nonce: 0, multisig_pda, pda_bump },
        ),
        None => Err(MultiSigErrors::SignerDerivationFailed),
    }
}

/// Creates the configuration stored at `config_address` for `program_id`:
/// checks the owners and threshold, derives the signer address from the
/// configuration's address, and starts the nonce at zero.
pub fn create(config_address: &Pubkey, program_id: &Pubkey, signers: Vec<Pubkey>, threshold: u8) -> (r:
    Result<MultiSigConfig, MultiSigErrors>)
    ensures
        r is Ok <==> create_outcome(
            signers@,
            threshold,
            program_address_of(signer_seeds(config_address@), program_id@),
        ) is Ok,
        r matches Err(e) ==> create_outcome(
            signers@,
            threshold,
            program_address_of(signer_seeds(config_address@), program_id@),
        ) == Err::<(), MultiSigErrors>(e),
        r matches Ok(config) ==> is_created(
            config,
            signers@,
            threshold,
            program_address_of(signer_seeds(config_address@), program_id@),
        ) && config_wf(config),
{
    let derived = find_signer_address(config_address, program_id);
    create_with_signer(signers, threshold, derived)
}

} // verus!
