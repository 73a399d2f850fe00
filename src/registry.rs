use vstd::prelude::*;

use crate::signal::{parse_signal, signal_value};
use crate::state::{
    ErrorCode, GetVerificationStatus, Initialize, VerificationAccount, VerifierState, VerifyProof,
};

verus! {

/// The registry seen as values: its singleton state, once initialized, and
/// its verification records in order of creation.
pub ghost struct RegistryModel {
    pub state: Option<VerifierState>,
    pub records: Seq<VerificationAccount>,
}

/// The registry's singleton state together with its store of verification
/// records. A record is addressed by its proof hash alone.
pub struct Registry {
    state: Option<VerifierState>,
    records: Vec<VerificationAccount>,
}

impl View for Registry {
    type V = RegistryModel;

    closed spec fn view(&self) -> RegistryModel {
        RegistryModel { state: self.state, records: self.records@ }
    }
}

/// The record stored under the proof hash `h`, if any.
pub open spec fn lookup(records: Seq<VerificationAccount>, h: Seq<u8>) -> Option<VerificationAccount>
    decreases records.len(),
{
    if records.len() == 0 {
        None
    } else if records.last().proof_hash@ == h {
        Some(records.last())
    } else {
        lookup(records.drop_last(), h)
    }
}

/// The registry's invariant: no records before initialization; afterwards
/// the counter equals the number of records; at most one record per proof
/// hash; every record verified.
pub open spec fn registry_wf(m: RegistryModel) -> bool {
    &&& m.state is None ==> m.records.len() == 0
    &&& m.state is Some ==> m.state->0.total_verifications == m.records.len()
    &&& forall|i: int, j: int|
        0 <= i < j < m.records.len() ==> m.records[i].proof_hash@ != m.records[j].proof_hash@
    &&& forall|i: int| 0 <= i < m.records.len() ==> (#[trigger] m.records[i]).verified
}

/// What `initialize` returns and leaves behind.
pub open spec fn initialize_step(m: RegistryModel, ctx: Initialize) -> (
    Result<(), ErrorCode>,
    RegistryModel,
) {
    if m.state is Some {
        (Err(ErrorCode::AlreadyInitialized), m)
    } else {
        (
            Ok(()),
            RegistryModel {
                state: Some(VerifierState { authority: ctx.authority, total_verifications: 0 }),
                records: m.records,
            },
        )
    }
}

/// The structural checks on a submission, in their fixed order: at least two
/// signals, a positive threshold, both signals numbers, the first equal to
/// the threshold, the second equal to the commitment.
pub open spec fn submission_check(signals: Seq<String>, threshold: u64, commitment: u64) -> Result<
    (),
    ErrorCode,
> {
    if signals.len() < 2 {
        Err(ErrorCode::InvalidPublicSignals)
    } else if threshold == 0 {
        Err(ErrorCode::InvalidThreshold)
    } else if signal_value(signals[0]) is None || signal_value(signals[1]) is None {
        Err(ErrorCode::InvalidPublicSignals)
    } else if signal_value(signals[0])->0 != threshold {
        Err(ErrorCode::ThresholdMismatch)
    } else if signal_value(signals[1])->0 != commitment {
        Err(ErrorCode::CommitmentMismatch)
    } else {
        Ok(())
    }
}

/// The record that an accepted submission creates.
pub open spec fn new_record(
    ctx: VerifyProof,
    proof_hash: [u8; 32],
    threshold: u64,
    commitment: u64,
) -> VerificationAccount {
    VerificationAccount {
        proof_hash,
        verifier: ctx.verifier,
        threshold,
        commitment,
        verified: true,
        timestamp: ctx.timestamp,
        bump: ctx.bump,
    }
}

/// What `verify_proof` returns and leaves behind: the submission checks
/// first, then the registry's presence, the proof hash's absence and room in
/// the counter. On success one record is added and the counter goes up by
/// one; on failure nothing changes.
pub open spec fn verify_step(
    m: RegistryModel,
    ctx: VerifyProof,
    proof_hash: [u8; 32],
    signals: Seq<String>,
    threshold: u64,
    commitment: u64,
) -> (Result<(), ErrorCode>, RegistryModel) {
    let checked = submission_check(signals, threshold, commitment);
    if checked is Err {
        (checked, m)
    } else if m.state is None {
        (Err(ErrorCode::NotInitialized), m)
    } else if lookup(m.records, proof_hash@) is Some {
        (Err(ErrorCode::DuplicateProof), m)
    } else if m.state->0.total_verifications == u64::MAX {
        (Err(ErrorCode::CounterOverflow), m)
    } else {
        (
            Ok(()),
            RegistryModel {
                state: Some(
                    VerifierState {
                        authority: m.state->0.authority,
                        total_verifications: (m.state->0.total_verifications + 1) as u64,
                    },
                ),
                records: m.records.push(new_record(ctx, proof_hash, threshold, commitment)),
            },
        )
    }
}

/// What a status query for the proof hash `h` returns.
pub open spec fn status_of(m: RegistryModel, h: Seq<u8>) -> Result<bool, ErrorCode> {
    match lookup(m.records, h) {
        Some(r) => Ok(r.verified),
        None => Err(ErrorCode::NotFound),
    }
}

/// No record is found under `h` exactly when no record carries `h`.
pub proof fn lemma_lookup_none(records: Seq<VerificationAccount>, h: Seq<u8>)
    ensures
        lookup(records, h) is None <==> forall|i: int|
            0 <= i < records.len() ==> (#[trigger] records[i]).proof_hash@ != h,
    decreases records.len(),
{
    if records.len() > 0 {
        let p = records.drop_last();
        lemma_lookup_none(p, h);
        if lookup(records, h) is None {
            assert forall|i: int| 0 <= i < records.len() implies (
            #[trigger] records[i]).proof_hash@ != h by {
                if i < p.len() {
                    assert(records[i] == p[i]);
                }
            }
        } else {
            if records.last().proof_hash@ != h {
                let i = choose|i: int| 0 <= i < p.len() && (#[trigger] p[i]).proof_hash@ == h;
                assert(records[i] == p[i]);
            }
        }
    }
}

/// Every outcome of `verify_proof` keeps the registry's invariant.
pub proof fn lemma_verify_step_wf(
    m: RegistryModel,
    ctx: VerifyProof,
    proof_hash: [u8; 32],
    signals: Seq<String>,
    threshold: u64,
    commitment: u64,
)
    requires
        registry_wf(m),
    ensures
        registry_wf(verify_step(m, ctx, proof_hash, signals, threshold, commitment).1),
{
    let (r, m2) = verify_step(m, ctx, proof_hash, signals, threshold, commitment);
    if r is Ok {
        lemma_lookup_none(m.records, proof_hash@);
        let n = m.records.len();
        assert forall|i: int, j: int| 0 <= i < j < m2.records.len() implies m2.records[i].proof_hash@
            != m2.records[j].proof_hash@ by {
            if j == n {
                assert(m.records[i] == m2.records[i]);
            } else {
                assert(m.records[i] == m2.records[i]);
                assert(m.records[j] == m2.records[j]);
            }
        }
        assert forall|i: int| 0 <= i < m2.records.len() implies (#[trigger] m2.records[i]).verified by {
            if i < n {
                assert(m.records[i] == m2.records[i]);
            }
        }
    }
}

/// Whether two proof hashes are the same bytes.
fn same_hash(a: &[u8; 32], b: &[u8; 32]) -> (r: bool)
    ensures
        r == (a@ == b@),
{
    let mut i: usize = 0;
    while i < 32
        invariant
            0 <= i <= 32,
            a@.len() == 32,
            b@.len() == 32,
            forall|j: int| 0 <= j < i ==> a@[j] == b@[j],
        decreases 32 - i,
    {
        if a[i] != b[i] {
            return false;
        }
        i = i + 1;
    }
    assert(a@ =~= b@);
    true
}

/// Checks a submission's public signals against its threshold and
/// commitment, in the order that `submission_check` gives.
pub fn check_submission(public_signals: &Vec<String>, threshold: u64, commitment: u64) -> (r:
    Result<(), ErrorCode>)
    ensures
        r == submission_check(public_signals@, threshold, commitment),
{
    if public_signals.len() < 2 {
        return Err(ErrorCode::InvalidPublicSignals);
    }
    if threshold == 0 {
        return Err(ErrorCode::InvalidThreshold);
    }
    let signal_threshold = match parse_signal(&public_signals[0]) {
        Some(v) => v,
        None => return Err(ErrorCode::InvalidPublicSignals),
    };
    let signal_commitment = match parse_signal(&public_signals[1]) {
        Some(v) => v,
        None => return Err(ErrorCode::InvalidPublicSignals),
    };
    if signal_threshold != threshold {
        return Err(ErrorCode::ThresholdMismatch);
    }
    if signal_commitment != commitment {
        return Err(ErrorCode::CommitmentMismatch);
    }
    Ok(())
}

impl Registry {
    /// A registry that has not been initialized and holds no records.
    pub fn new() -> (r: Registry)
        ensures
            r@.state is None,
            r@.records.len() == 0,
            registry_wf(r@),
    {
        Registry { state: None, records: Vec::new() }
    }

    /// The singleton state, once initialized.
    pub fn state(&self) -> (r: Option<VerifierState>)
        ensures
            r == self@.state,
    {
        self.state
    }

    /// The record stored under `proof_hash`, if any.
    pub fn record(&self, proof_hash: &[u8; 32]) -> (r: Option<VerificationAccount>)
        ensures
            r == lookup(self@.records, proof_hash@),
    {
        let mut i: usize = self.records.len();
        assert(self.records@.take(i as int) =~= self.records@);
        while i > 0
            invariant
                i <= self.records@.len(),
                lookup(self.records@, proof_hash@) == lookup(self.records@.take(i as int), proof_hash@),
            decreases i,
        {
            let rec = self.records[i - 1];
            let ghost t = self.records@.take(i as int);
            assert(t.last() == rec);
            assert(t.drop_last() =~= self.records@.take(i - 1));
            if same_hash(&rec.proof_hash, proof_hash) {
                return Some(rec);
            }
            i = i - 1;
        }
        assert(self.records@.take(0) =~= Seq::<VerificationAccount>::empty());
        None
    }
}

/// Sets up the registry with `ctx.authority` as its authority and a counter
/// at zero; fails with `AlreadyInitialized` if it was set up before.
pub fn initialize(registry: &mut Registry, ctx: Initialize) -> (r: Result<(), ErrorCode>)
    requires
        registry_wf(old(registry)@),
    ensures
        (r, final(registry)@) == initialize_step(old(registry)@, ctx),
        registry_wf(final(registry)@),
{
    if registry.state.is_some() {
        return Err(ErrorCode::AlreadyInitialized);
    }
    registry.state = Some(VerifierState { authority: ctx.authority, total_verifications: 0 });
    Ok(())
}

/// Checks a submission and, if it passes, records it under `proof_hash` and
/// counts it; a rejected submission changes nothing.
pub fn verify_proof(
    registry: &mut Registry,
    ctx: VerifyProof,
    proof_hash: [u8; 32],
    public_signals: Vec<String>,
    threshold: u64,
    commitment: u64,
) -> (r: Result<(), ErrorCode>)
    requires
        registry_wf(old(registry)@),
    ensures
        (r, final(registry)@) == verify_step(
            old(registry)@,
            ctx,
            proof_hash,
            public_signals@,
            threshold,
            commitment,
        ),
        registry_wf(final(registry)@),
{
    proof {
        lemma_verify_step_wf(registry@, ctx, proof_hash, public_signals@, threshold, commitment);
    }
    match check_submission(&public_signals, threshold, commitment) {
        Ok(()) => {},
        Err(e) => return Err(e),
    }
    let state = match registry.state {
        Some(s) => s,
        None => return Err(ErrorCode::NotInitialized),
    };
    if registry.record(&proof_hash).is_some() {
        return Err(ErrorCode::DuplicateProof);
    }
    if state.total_verifications == u64::MAX {
        return Err(ErrorCode::CounterOverflow);
    }
    let rec = VerificationAccount {
        proof_hash,
        verifier: ctx.verifier,
        threshold,
        commitment,
        verified: true,
        timestamp: ctx.timestamp,
        bump: ctx.bump,
    };
    registry.records.push(rec);
    registry.state = Some(
        VerifierState {
            authority: state.authority,
            total_verifications: state.total_verifications + 1,
        },
    );
    Ok(())
}

/// Whether the proof stored under `ctx.proof_hash` was verified; fails with
/// `NotFound` if no record is stored under it.
pub fn get_verification_status(registry: &Registry, ctx: GetVerificationStatus) -> (r: Result<
    bool,
    ErrorCode,
>)
    ensures
        r == status_of(registry@, ctx.proof_hash@),
{
    match registry.record(&ctx.proof_hash) {
        Some(rec) => Ok(rec.verified),
        None => Err(ErrorCode::NotFound),
    }
}

} // verus!
