use vstd::prelude::*;

verus! {

/// The registry's singleton record: who set it up, and how many proofs it has
/// accepted so far.
#[derive(Clone, Copy, Debug)]
pub struct VerifierState {
    /// The identity that initialized the registry; never changes afterwards.
    pub authority: [u8; 32],
    /// How many verification records have been created.
    pub total_verifications: u64,
}

/// The write-once result of an accepted submission, keyed by its proof hash.
#[derive(Clone, Copy, Debug)]
pub struct VerificationAccount {
    pub proof_hash: [u8; 32],
    /// The identity that submitted the proof.
    pub verifier: [u8; 32],
    pub threshold: u64,
    pub commitment: u64,
    pub verified: bool,
    /// Wall-clock time of creation, in seconds since the Unix epoch.
    pub timestamp: i64,
    /// The slot discriminator under which the record's address was derived.
    pub bump: u8,
}

/// Why a call was rejected. A rejected call changes nothing.
#[derive(Clone, Copy, Debug, PartialEq, Eq, Structural)]
pub enum ErrorCode {
    /// Fewer than two public signals, or one of the first two is not a `u64`.
    InvalidPublicSignals,
    /// The threshold is zero.
    InvalidThreshold,
    /// The first public signal differs from the threshold.
    ThresholdMismatch,
    /// The second public signal differs from the commitment.
    CommitmentMismatch,
    /// The registry has been initialized already.
    AlreadyInitialized,
    /// The registry has not been initialized.
    NotInitialized,
    /// A record already exists for the proof hash.
    DuplicateProof,
    /// No record exists for the proof hash.
    NotFound,
    /// The verification counter is at its largest value.
    CounterOverflow,
}

/// What `initialize` is called with: the identity that becomes the authority.
#[derive(Clone, Copy, Debug)]
pub struct Initialize {
    pub authority: [u8; 32],
}

/// What `verify_proof` is called with besides the submission itself: the
/// submitter, the current time, and the slot discriminator of the record's
/// address.
#[derive(Clone, Copy, Debug)]
pub struct VerifyProof {
    pub verifier: [u8; 32],
    pub timestamp: i64,
    pub bump: u8,
}

/// What `get_verification_status` is called with: the proof hash to look up.
#[derive(Clone, Copy, Debug)]
pub struct GetVerificationStatus {
    pub proof_hash: [u8; 32],
}

} // verus!
