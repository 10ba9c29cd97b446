use vstd::prelude::*;

verus! {

/// Every way in which creating a configuration or authorizing a request fails.
#[derive(Debug, Clone, Copy, PartialEq, Eq, Structural)]
pub enum MultiSigErrors {
    /// The request's nonce is not the configuration's current nonce.
    ErrNonceTooOld,
    /// A configuration was requested with no owners.
    InvalidOwnersLen,
    /// The threshold is zero or exceeds the number of owners.
    InvalidThreshold,
    /// The signature-verification record is not from the expected facility,
    /// carries accounts, or is too short for the claimed signers.
    InvalidVerifierInstruction,
    /// A recovered identity differs from the claimed signer at its position.
    InvalidMessageSigner,
    /// A signed message differs from the request's digest.
    InvalidMessage,
    /// A key occurs twice among the claimed signers (or the owners).
    DuplicateSigner,
    /// Fewer claimed signers than the threshold.
    ThresholdNotMet,
    /// A claimed signer is not an owner.
    InvalidSigner,
    /// The nonce is already at its largest value and cannot advance.
    NonceOverflow,
    /// No delegated-authority address could be derived for the configuration.
    SignerDerivationFailed,
}

} // verus!
