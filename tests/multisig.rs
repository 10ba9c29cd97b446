use anchor_lang::solana_program::ed25519_program;
use anchor_lang::solana_program::keccak;
use anchor_lang::solana_program::pubkey::Pubkey as RuntimePubkey;
use stateless_multisig::config::{create, create_with_signer, validate_owners, MultiSigConfig};
use stateless_multisig::errors::MultiSigErrors;
use stateless_multisig::hasher::{create_multi_sig_tx_hash, create_multi_sig_tx_message};
use stateless_multisig::instruction::{AccountMeta, ExecuteMultiSigTx, Instruction, TransactionAccount};
use stateless_multisig::multisig::{authorize, check_request, execute, execute_with_hash};
use stateless_multisig::pubkey::Pubkey;

fn key(b: u8) -> Pubkey {
    Pubkey::new_from_array([b; 32])
}

fn program_id() -> Pubkey {
    key(200)
}

fn config_address() -> Pubkey {
    key(100)
}

fn ed25519_id() -> Pubkey {
    Pubkey::new_from_array(ed25519_program::ID.to_bytes())
}

fn ed25519_record(keys: &[Pubkey], messages: &[[u8; 32]]) -> Instruction {
    let n = keys.len();
    let mut data = vec![n as u8, 0u8];
    data.extend(std::iter::repeat(0u8).take(14 * n));
    data.extend(std::iter::repeat(7u8).take(64 * n));
    for k in keys {
        data.extend_from_slice(&k.to_bytes());
    }
    for m in messages {
        data.extend_from_slice(m);
    }
    Instruction { program_id: ed25519_id(), accounts: vec![], data }
}

fn owners_abc() -> Vec<Pubkey> {
    vec![key(1), key(2), key(3)]
}

fn new_config() -> MultiSigConfig {
    create(&config_address(), &program_id(), owners_abc(), 2).unwrap()
}

fn request(config: &MultiSigConfig, signers: Vec<Pubkey>, nonce: u64) -> ExecuteMultiSigTx {
    ExecuteMultiSigTx {
        program_id: key(50),
        accounts: vec![
            TransactionAccount { pubkey: config.multisig_pda, is_signer: false, is_writable: true },
            TransactionAccount { pubkey: key(60), is_signer: false, is_writable: true },
        ],
        data: vec![1, 2, 3, 4],
        signers,
        nonce,
    }
}

fn digest_of(config: &MultiSigConfig, params: &ExecuteMultiSigTx) -> [u8; 32] {
    create_multi_sig_tx_hash(
        &config.multisig_pda,
        config.nonce,
        &params.accounts,
        &params.data,
        &params.program_id,
    )
}

fn signed_record(config: &MultiSigConfig, params: &ExecuteMultiSigTx) -> Instruction {
    let digest = digest_of(config, params);
    let messages: Vec<[u8; 32]> = params.signers.iter().map(|_| digest).collect();
    ed25519_record(&params.signers, &messages)
}

#[test]
fn create_rejects_empty_owners() {
    let r = create(&config_address(), &program_id(), vec![], 1);
    assert_eq!(r.unwrap_err(), MultiSigErrors::InvalidOwnersLen);
    let r = create(&config_address(), &program_id(), vec![], 0);
    assert_eq!(r.unwrap_err(), MultiSigErrors::InvalidOwnersLen);
}

#[test]
fn create_rejects_bad_threshold() {
    let r = create(&config_address(), &program_id(), owners_abc(), 0);
    assert_eq!(r.unwrap_err(), MultiSigErrors::InvalidThreshold);
    let r = create(&config_address(), &program_id(), owners_abc(), 4);
    assert_eq!(r.unwrap_err(), MultiSigErrors::InvalidThreshold);
    let r = create(&config_address(), &program_id(), owners_abc(), 255);
    assert_eq!(r.unwrap_err(), MultiSigErrors::InvalidThreshold);
}

#[test]
fn create_rejects_bad_threshold_even_with_duplicate_owners() {
    let r = create(&config_address(), &program_id(), vec![key(1), key(1)], 3);
    assert_eq!(r.unwrap_err(), MultiSigErrors::InvalidThreshold);
}

#[test]
fn create_rejects_duplicate_owners() {
    let r = create(&config_address(), &program_id(), vec![key(1), key(2), key(1)], 2);
    assert_eq!(r.unwrap_err(), MultiSigErrors::DuplicateSigner);
    assert_eq!(validate_owners(&vec![key(4), key(4)], 1), Err(MultiSigErrors::DuplicateSigner));
}

#[test]
fn create_stores_owners_and_derived_signer() {
    let config = new_config();
    assert_eq!(config.owners, owners_abc());
    assert_eq!(config.threshold, 2);
    assert_eq!(config.nonce, 0);
    let (expected, bump) = RuntimePubkey::find_program_address(
        &[b"multisig-signer", &config_address().to_bytes()],
        &RuntimePubkey::new_from_array(program_id().to_bytes()),
    );
    assert_eq!(config.multisig_pda.to_bytes(), expected.to_bytes());
    assert_eq!(config.pda_bump, bump);
    assert_ne!(config.multisig_pda, config_address());
}

#[test]
fn create_accepts_threshold_equal_to_owner_count() {
    let config = create(&config_address(), &program_id(), owners_abc(), 3).unwrap();
    assert_eq!(config.threshold, 3);
}

#[test]
fn create_with_signer_fails_without_derived_address() {
    let r = create_with_signer(owners_abc(), 2, None);
    assert_eq!(r.unwrap_err(), MultiSigErrors::SignerDerivationFailed);
    let r = create_with_signer(vec![], 2, None);
    assert_eq!(r.unwrap_err(), MultiSigErrors::InvalidOwnersLen);
    let config = create_with_signer(owners_abc(), 1, Some((key(9), 250))).unwrap();
    assert_eq!(config.multisig_pda, key(9));
    assert_eq!(config.pda_bump, 250);
    assert_eq!(config.nonce, 0);
}

#[test]
fn message_layout_is_exact() {
    let accounts = vec![
        TransactionAccount { pubkey: key(5), is_signer: true, is_writable: false },
        TransactionAccount { pubkey: key(6), is_signer: false, is_writable: true },
    ];
    let msg = create_multi_sig_tx_message(&key(1), 0x0102030405060708, &accounts, &[9, 8, 7], &key(2));
    let mut expected = vec![1u8; 32];
    expected.extend_from_slice(&[8, 7, 6, 5, 4, 3, 2, 1]);
    expected.extend_from_slice(&[5u8; 32]);
    expected.extend_from_slice(&[1, 0]);
    expected.extend_from_slice(&[6u8; 32]);
    expected.extend_from_slice(&[0, 1]);
    expected.extend_from_slice(&[2u8; 32]);
    expected.extend_from_slice(&[9, 8, 7]);
    assert_eq!(msg, expected);
}

#[test]
fn digest_is_keccak_of_message() {
    let config = new_config();
    let params = request(&config, vec![key(1), key(2)], 0);
    let msg = create_multi_sig_tx_message(
        &config.multisig_pda,
        0,
        &params.accounts,
        &params.data,
        &params.program_id,
    );
    let digest = digest_of(&config, &params);
    assert_eq!(digest, keccak::hash(&msg).to_bytes());
    assert_ne!(digest.to_vec(), msg[..32].to_vec());
}

#[test]
fn digest_of_empty_message_parts() {
    let digest = create_multi_sig_tx_hash(&key(0), 0, &vec![], &[], &key(0));
    let mut msg = vec![0u8; 32];
    msg.extend_from_slice(&[0u8; 8]);
    msg.extend_from_slice(&[0u8; 32]);
    assert_eq!(digest, keccak::hash(&msg).to_bytes());
}

#[test]
fn digest_is_deterministic_and_sensitive() {
    let config = new_config();
    let params = request(&config, vec![key(1), key(2)], 0);
    let d0 = digest_of(&config, &params);
    assert_eq!(d0, digest_of(&config, &params));

    let mut changed = params.clone();
    changed.data[2] ^= 1;
    assert_ne!(d0, digest_of(&config, &changed));

    let mut changed = params.clone();
    changed.accounts[1].is_signer = true;
    assert_ne!(d0, digest_of(&config, &changed));

    let mut changed = params.clone();
    changed.accounts[0].is_writable = false;
    assert_ne!(d0, digest_of(&config, &changed));

    let mut changed = params.clone();
    changed.program_id = key(51);
    assert_ne!(d0, digest_of(&config, &changed));

    let mut later = config.clone();
    later.nonce = 1;
    assert_ne!(d0, digest_of(&later, &params));
}

#[test]
fn scenario_two_of_three() {
    let mut config = new_config();
    let params = request(&config, vec![key(1), key(2)], 0);
    let ix = signed_record(&config, &params);

    let out = execute(&mut config, params.clone(), &ix).unwrap();
    assert_eq!(config.nonce, 1);
    assert_eq!(out.program_id, key(50));
    assert_eq!(out.data, vec![1, 2, 3, 4]);
    assert_eq!(out.accounts.len(), 2);
    assert_eq!(out.accounts[0].pubkey, config.multisig_pda);
    assert!(out.accounts[0].is_signer);
    assert!(out.accounts[0].is_writable);
    assert_eq!(out.accounts[1].pubkey, key(60));
    assert!(!out.accounts[1].is_signer);

    // The same request and record again.
    let r = execute(&mut config, params.clone(), &ix);
    assert_eq!(r.unwrap_err(), MultiSigErrors::ErrNonceTooOld);
    assert_eq!(config.nonce, 1);

    let dup = request(&config, vec![key(1), key(1)], 1);
    let ix = signed_record(&config, &dup);
    assert_eq!(execute(&mut config, dup, &ix).unwrap_err(), MultiSigErrors::DuplicateSigner);

    let one = request(&config, vec![key(1)], 1);
    let ix = signed_record(&config, &one);
    assert_eq!(execute(&mut config, one, &ix).unwrap_err(), MultiSigErrors::ThresholdNotMet);

    let stranger = request(&config, vec![key(1), key(4)], 1);
    let ix = signed_record(&config, &stranger);
    assert_eq!(execute(&mut config, stranger, &ix).unwrap_err(), MultiSigErrors::InvalidSigner);
    assert_eq!(config.nonce, 1);
}

#[test]
fn stale_or_future_nonce_is_rejected() {
    let mut config = new_config();
    let params = request(&config, vec![key(1), key(2)], 1);
    let ix = signed_record(&config, &params);
    assert_eq!(execute(&mut config, params, &ix).unwrap_err(), MultiSigErrors::ErrNonceTooOld);
    assert_eq!(config.nonce, 0);
}

#[test]
fn duplicate_checked_before_threshold_and_nonce() {
    let config = new_config();
    let params = request(&config, vec![key(7), key(7)], 5);
    assert_eq!(check_request(&config, &params), Err(MultiSigErrors::DuplicateSigner));
    let params = request(&config, vec![key(7)], 5);
    assert_eq!(check_request(&config, &params), Err(MultiSigErrors::ThresholdNotMet));
    let params = request(&config, vec![key(7), key(8)], 5);
    assert_eq!(check_request(&config, &params), Err(MultiSigErrors::ErrNonceTooOld));
    let params = request(&config, vec![key(7), key(8)], 0);
    assert_eq!(check_request(&config, &params), Err(MultiSigErrors::InvalidSigner));
    let params = request(&config, vec![key(3), key(1)], 0);
    assert_eq!(check_request(&config, &params), Ok(()));
}

#[test]
fn all_three_owners_may_sign() {
    let mut config = new_config();
    let params = request(&config, vec![key(3), key(1), key(2)], 0);
    let ix = signed_record(&config, &params);
    assert!(execute(&mut config, params, &ix).is_ok());
    assert_eq!(config.nonce, 1);
    let params = request(&config, vec![key(2), key(3)], 1);
    let ix = signed_record(&config, &params);
    assert!(execute(&mut config, params, &ix).is_ok());
    assert_eq!(config.nonce, 2);
}

#[test]
fn record_signer_mismatch() {
    let mut config = new_config();
    let params = request(&config, vec![key(1), key(2)], 0);
    let digest = digest_of(&config, &params);
    let ix = ed25519_record(&[key(2), key(1)], &[digest, digest]);
    assert_eq!(execute(&mut config, params, &ix).unwrap_err(), MultiSigErrors::InvalidMessageSigner);
    assert_eq!(config.nonce, 0);
}

#[test]
fn record_message_mismatch() {
    let mut config = new_config();
    let params = request(&config, vec![key(1), key(2)], 0);
    let digest = digest_of(&config, &params);
    let mut other = digest;
    other[31] ^= 0xff;
    let ix = ed25519_record(&[key(1), key(2)], &[digest, other]);
    assert_eq!(execute(&mut config, params, &ix).unwrap_err(), MultiSigErrors::InvalidMessage);
    assert_eq!(config.nonce, 0);
}

#[test]
fn identity_mismatch_reported_before_message_mismatch() {
    let config = new_config();
    let params = request(&config, vec![key(1), key(2)], 0);
    let digest = digest_of(&config, &params);
    let ix = ed25519_record(&[key(1), key(3)], &[[0u8; 32], digest]);
    assert_eq!(authorize(&config, &params, &ix, digest), Err(MultiSigErrors::InvalidMessageSigner));
}

#[test]
fn record_signed_for_old_nonce_is_rejected() {
    let mut config = new_config();
    let params = request(&config, vec![key(1), key(2)], 0);
    let ix = signed_record(&config, &params);
    let mut later = config.clone();
    later.nonce = 3;
    let params = request(&later, vec![key(1), key(2)], 3);
    config.nonce = 3;
    assert_eq!(execute(&mut config, params, &ix).unwrap_err(), MultiSigErrors::InvalidMessage);
}

#[test]
fn record_from_other_program_is_rejected() {
    let mut config = new_config();
    let params = request(&config, vec![key(1), key(2)], 0);
    let mut ix = signed_record(&config, &params);
    ix.program_id = key(77);
    assert_eq!(
        execute(&mut config, params, &ix).unwrap_err(),
        MultiSigErrors::InvalidVerifierInstruction
    );
    assert_eq!(config.nonce, 0);
}

#[test]
fn record_with_accounts_is_rejected() {
    let mut config = new_config();
    let params = request(&config, vec![key(1), key(2)], 0);
    let mut ix = signed_record(&config, &params);
    ix.accounts.push(AccountMeta { pubkey: key(1), is_signer: false, is_writable: false });
    assert_eq!(
        execute(&mut config, params, &ix).unwrap_err(),
        MultiSigErrors::InvalidVerifierInstruction
    );
}

#[test]
fn short_record_is_rejected() {
    let mut config = new_config();
    let params = request(&config, vec![key(1), key(2)], 0);
    let mut ix = signed_record(&config, &params);
    assert_eq!(ix.data.len(), 2 + 142 * 2);
    ix.data.pop();
    assert_eq!(
        execute(&mut config, params, &ix).unwrap_err(),
        MultiSigErrors::InvalidVerifierInstruction
    );
    let empty = Instruction { program_id: ed25519_id(), accounts: vec![], data: vec![] };
    let params = request(&config, vec![key(1), key(2)], 0);
    assert_eq!(
        execute(&mut config, params, &empty).unwrap_err(),
        MultiSigErrors::InvalidVerifierInstruction
    );
}

#[test]
fn nonce_overflow_is_an_error() {
    let mut config = new_config();
    config.nonce = u64::MAX;
    let params = request(&config, vec![key(1), key(2)], u64::MAX);
    let ix = signed_record(&config, &params);
    assert_eq!(execute(&mut config, params, &ix).unwrap_err(), MultiSigErrors::NonceOverflow);
    assert_eq!(config.nonce, u64::MAX);
}

#[test]
fn execute_with_given_hash() {
    let mut config = new_config();
    let params = request(&config, vec![key(1), key(2)], 0);
    let ix = ed25519_record(&[key(1), key(2)], &[[5u8; 32], [5u8; 32]]);
    let out = execute_with_hash(&mut config, params.clone(), &ix, [5u8; 32]).unwrap();
    assert_eq!(config.nonce, 1);
    assert!(out.accounts[0].is_signer);
    let mut other = new_config();
    assert_eq!(
        execute_with_hash(&mut other, params, &ix, [6u8; 32]).unwrap_err(),
        MultiSigErrors::InvalidMessage
    );
    assert_eq!(other.nonce, 0);
}
