use vstd::prelude::*;

use crate::registry::{
    lemma_lookup_none, lemma_verify_step_wf, lookup, new_record, registry_wf, submission_check,
    verify_step, RegistryModel,
};
use crate::signal::signal_value;
use crate::state::{ErrorCode, VerifyProof};

verus! {

/// One call of `verify_proof`, as values.
pub ghost struct Submission {
    pub ctx: VerifyProof,
    pub proof_hash: [u8; 32],
    pub signals: Seq<String>,
    pub threshold: u64,
    pub commitment: u64,
}

/// The registry after the submissions `subs`, made one after another from `m`.
pub open spec fn run(m: RegistryModel, subs: Seq<Submission>) -> RegistryModel
    decreases subs.len(),
{
    if subs.len() == 0 {
        m
    } else {
        let s = subs.last();
        verify_step(
            run(m, subs.drop_last()),
            s.ctx,
            s.proof_hash,
            s.signals,
            s.threshold,
            s.commitment,
        ).1
    }
}

/// How many of the submissions `subs`, made one after another from `m`, were
/// accepted.
pub open spec fn accepted(m: RegistryModel, subs: Seq<Submission>) -> nat
    decreases subs.len(),
{
    if subs.len() == 0 {
        0
    } else {
        let s = subs.last();
        let before = run(m, subs.drop_last());
        accepted(m, subs.drop_last()) + if verify_step(
            before,
            s.ctx,
            s.proof_hash,
            s.signals,
            s.threshold,
            s.commitment,
        ).0 is Ok {
            1nat
        } else {
            0nat
        }
    }
}

/// A proof hash is accepted once only: after an accepted submission, exactly
/// one record carries the hash, and a second submission under it, even with
/// data that passes every check, fails with `DuplicateProof` and changes
/// nothing, the counter included.
pub proof fn law_duplicate_rejected(
    m: RegistryModel,
    first: VerifyProof,
    second: VerifyProof,
    proof_hash: [u8; 32],
    signals1: Seq<String>,
    threshold1: u64,
    commitment1: u64,
    signals2: Seq<String>,
    threshold2: u64,
    commitment2: u64,
)
    requires
        registry_wf(m),
        verify_step(m, first, proof_hash, signals1, threshold1, commitment1).0 is Ok,
        submission_check(signals2, threshold2, commitment2) is Ok,
    ensures
        ({
            let m1 = verify_step(m, first, proof_hash, signals1, threshold1, commitment1).1;
            &&& m1.records.len() == m.records.len() + 1
            &&& lookup(m1.records, proof_hash@) == Some(
                new_record(first, proof_hash, threshold1, commitment1),
            )
            &&& forall|i: int|
                0 <= i < m1.records.len() && (#[trigger] m1.records[i]).proof_hash@ == proof_hash@
                    ==> i == m.records.len()
            &&& verify_step(m1, second, proof_hash, signals2, threshold2, commitment2) == (
                Err::<(), ErrorCode>(ErrorCode::DuplicateProof),
                m1,
            )
        }),
{
    let m1 = verify_step(m, first, proof_hash, signals1, threshold1, commitment1).1;
    lemma_lookup_none(m.records, proof_hash@);
    assert(m1.records.drop_last() =~= m.records);
    assert forall|i: int|
        0 <= i < m1.records.len() && (#[trigger] m1.records[i]).proof_hash@ == proof_hash@
            implies i == m.records.len() by {
        if i < m.records.len() {
            assert(m1.records[i] == m.records[i]);
        }
    }
}

/// The counter counts accepted submissions: after any sequence of
/// submissions from an initialized registry, accepted or rejected in any
/// order, the counter has grown by exactly the number accepted, and so has
/// the number of records.
pub proof fn law_counter_counts_accepted(m: RegistryModel, subs: Seq<Submission>)
    requires
        registry_wf(m),
        m.state is Some,
    ensures
        registry_wf(run(m, subs)),
        run(m, subs).state is Some,
        run(m, subs).state->0.total_verifications == m.state->0.total_verifications + accepted(
            m,
            subs,
        ),
        run(m, subs).records.len() == m.records.len() + accepted(m, subs),
    decreases subs.len(),
{
    if subs.len() > 0 {
        let s = subs.last();
        let before = run(m, subs.drop_last());
        law_counter_counts_accepted(m, subs.drop_last());
        lemma_verify_step_wf(before, s.ctx, s.proof_hash, s.signals, s.threshold, s.commitment);
    }
}

/// A first signal that is a number other than the threshold fails the
/// submission with `ThresholdMismatch`, and nothing changes.
pub proof fn law_threshold_binding(
    m: RegistryModel,
    ctx: VerifyProof,
    proof_hash: [u8; 32],
    signals: Seq<String>,
    threshold: u64,
    commitment: u64,
)
    requires
        signals.len() >= 2,
        threshold > 0,
        signal_value(signals[0]) is Some,
        signal_value(signals[1]) is Some,
        signal_value(signals[0])->0 != threshold,
    ensures
        verify_step(m, ctx, proof_hash, signals, threshold, commitment) == (
            Err::<(), ErrorCode>(ErrorCode::ThresholdMismatch),
            m,
        ),
{
}

/// A second signal that is a number other than the commitment, where the
/// first matches the threshold, fails the submission with
/// `CommitmentMismatch`, and nothing changes.
pub proof fn law_commitment_binding(
    m: RegistryModel,
    ctx: VerifyProof,
    proof_hash: [u8; 32],
    signals: Seq<String>,
    threshold: u64,
    commitment: u64,
)
    requires
        signals.len() >= 2,
        threshold > 0,
        signal_value(signals[0]) == Some(threshold),
        signal_value(signals[1]) is Some,
        signal_value(signals[1])->0 != commitment,
    ensures
        verify_step(m, ctx, proof_hash, signals, threshold, commitment) == (
            Err::<(), ErrorCode>(ErrorCode::CommitmentMismatch),
            m,
        ),
{
}

/// A zero threshold fails the submission with `InvalidThreshold` whatever the
/// signals hold, so long as there are two of them; nothing changes.
pub proof fn law_zero_threshold(
    m: RegistryModel,
    ctx: VerifyProof,
    proof_hash: [u8; 32],
    signals: Seq<String>,
    commitment: u64,
)
    requires
        signals.len() >= 2,
    ensures
        verify_step(m, ctx, proof_hash, signals, 0, commitment) == (
            Err::<(), ErrorCode>(ErrorCode::InvalidThreshold),
            m,
        ),
{
}

} // verus!
