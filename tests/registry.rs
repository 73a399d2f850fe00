use zk_verifier::registry::{
    check_submission, get_verification_status, initialize, verify_proof, Registry,
};
use zk_verifier::signal::parse_signal;
use zk_verifier::state::{ErrorCode, GetVerificationStatus, Initialize, VerifyProof};

fn hash_ending(last: u8) -> [u8; 32] {
    let mut h = [0u8; 32];
    h[31] = last;
    h
}

fn signals(items: &[&str]) -> Vec<String> {
    items.iter().map(|s| s.to_string()).collect()
}

fn authority_a() -> Initialize {
    Initialize { authority: [0xAA; 32] }
}

fn submitter_b() -> VerifyProof {
    VerifyProof { verifier: [0xBB; 32], timestamp: 1_700_000_000, bump: 254 }
}

fn initialized() -> Registry {
    let mut r = Registry::new();
    assert_eq!(initialize(&mut r, authority_a()), Ok(()));
    r
}

fn total(r: &Registry) -> u64 {
    r.state().unwrap().total_verifications
}

fn status(r: &Registry, h: [u8; 32]) -> Result<bool, ErrorCode> {
    get_verification_status(r, GetVerificationStatus { proof_hash: h })
}

#[test]
fn initialize_sets_authority_and_zero_counter() {
    let r = initialized();
    let s = r.state().unwrap();
    assert_eq!(s.authority, [0xAA; 32]);
    assert_eq!(s.total_verifications, 0);
}

#[test]
fn initialize_twice_fails() {
    let mut r = initialized();
    let again = Initialize { authority: [0xCC; 32] };
    assert_eq!(initialize(&mut r, again), Err(ErrorCode::AlreadyInitialized));
    assert_eq!(r.state().unwrap().authority, [0xAA; 32]);
}

#[test]
fn end_to_end_accepts_and_reports_status() {
    let mut r = initialized();
    let h = hash_ending(1);
    let res = verify_proof(&mut r, submitter_b(), h, signals(&["100", "50"]), 100, 50);
    assert_eq!(res, Ok(()));
    assert_eq!(status(&r, h), Ok(true));
    assert_eq!(total(&r), 1);
    let rec = r.record(&h).unwrap();
    assert_eq!(rec.proof_hash, h);
    assert_eq!(rec.verifier, [0xBB; 32]);
    assert_eq!(rec.threshold, 100);
    assert_eq!(rec.commitment, 50);
    assert!(rec.verified);
    assert_eq!(rec.timestamp, 1_700_000_000);
    assert_eq!(rec.bump, 254);
}

#[test]
fn threshold_mismatch_leaves_no_record() {
    let mut r = initialized();
    let h = hash_ending(2);
    let res = verify_proof(&mut r, submitter_b(), h, signals(&["100", "50"]), 99, 50);
    assert_eq!(res, Err(ErrorCode::ThresholdMismatch));
    assert!(r.record(&h).is_none());
    assert_eq!(status(&r, h), Err(ErrorCode::NotFound));
    assert_eq!(total(&r), 0);
}

#[test]
fn commitment_mismatch_leaves_no_record() {
    let mut r = initialized();
    let h = hash_ending(3);
    let res = verify_proof(&mut r, submitter_b(), h, signals(&["100", "50"]), 100, 51);
    assert_eq!(res, Err(ErrorCode::CommitmentMismatch));
    assert!(r.record(&h).is_none());
    assert_eq!(total(&r), 0);
}

#[test]
fn zero_threshold_fails_before_parsing() {
    let mut r = initialized();
    let h = hash_ending(4);
    let res = verify_proof(&mut r, submitter_b(), h, signals(&["abc", "xyz"]), 0, 50);
    assert_eq!(res, Err(ErrorCode::InvalidThreshold));
    let res = verify_proof(&mut r, submitter_b(), h, signals(&["0", "50"]), 0, 50);
    assert_eq!(res, Err(ErrorCode::InvalidThreshold));
    assert_eq!(total(&r), 0);
}

#[test]
fn unparsable_or_missing_signals_fail() {
    let mut r = initialized();
    let h = hash_ending(5);
    for s in [signals(&["abc", "123"]), signals(&[]), signals(&["1"]), signals(&["100", "5x"])] {
        let res = verify_proof(&mut r, submitter_b(), h, s, 100, 123);
        assert_eq!(res, Err(ErrorCode::InvalidPublicSignals));
    }
    assert!(r.record(&h).is_none());
    assert_eq!(total(&r), 0);
}

#[test]
fn missing_signals_fail_before_zero_threshold() {
    assert_eq!(check_submission(&signals(&["1"]), 0, 0), Err(ErrorCode::InvalidPublicSignals));
}

#[test]
fn duplicate_proof_rejected_and_counter_unchanged() {
    let mut r = initialized();
    let h = hash_ending(6);
    assert_eq!(verify_proof(&mut r, submitter_b(), h, signals(&["7", "8"]), 7, 8), Ok(()));
    let other = VerifyProof { verifier: [0xCC; 32], timestamp: 5, bump: 1 };
    let res = verify_proof(&mut r, other, h, signals(&["9", "10"]), 9, 10);
    assert_eq!(res, Err(ErrorCode::DuplicateProof));
    assert_eq!(total(&r), 1);
    let rec = r.record(&h).unwrap();
    assert_eq!(rec.threshold, 7);
    assert_eq!(rec.verifier, [0xBB; 32]);
}

#[test]
fn counter_counts_only_accepted_calls() {
    let mut r = initialized();
    let mut accepted = 0u64;
    for i in 0..10u8 {
        let res = verify_proof(&mut r, submitter_b(), hash_ending(i), signals(&["3", "4"]), 3, 4);
        assert_eq!(res, Ok(()));
        accepted += 1;
        let bad = verify_proof(&mut r, submitter_b(), hash_ending(100 + i), signals(&["3", "4"]), 2, 4);
        assert_eq!(bad, Err(ErrorCode::ThresholdMismatch));
        let dup = verify_proof(&mut r, submitter_b(), hash_ending(i), signals(&["3", "4"]), 3, 4);
        assert_eq!(dup, Err(ErrorCode::DuplicateProof));
    }
    assert_eq!(total(&r), accepted);
    assert_eq!(total(&r), 10);
}

#[test]
fn verify_before_initialize_fails() {
    let mut r = Registry::new();
    let h = hash_ending(1);
    let res = verify_proof(&mut r, submitter_b(), h, signals(&["100", "50"]), 100, 50);
    assert_eq!(res, Err(ErrorCode::NotInitialized));
    assert!(r.state().is_none());
    assert!(r.record(&h).is_none());
}

#[test]
fn status_of_unknown_hash_is_not_found() {
    let r = initialized();
    assert_eq!(status(&r, hash_ending(42)), Err(ErrorCode::NotFound));
}

#[test]
fn extra_signals_are_ignored() {
    let mut r = initialized();
    let h = hash_ending(9);
    let res = verify_proof(&mut r, submitter_b(), h, signals(&["1", "2", "junk"]), 1, 2);
    assert_eq!(res, Ok(()));
    assert_eq!(status(&r, h), Ok(true));
}

#[test]
fn parse_signal_accepts_decimal_u64() {
    assert_eq!(parse_signal(&"0".to_string()), Some(0));
    assert_eq!(parse_signal(&"100".to_string()), Some(100));
    assert_eq!(parse_signal(&"+42".to_string()), Some(42));
    assert_eq!(parse_signal(&"007".to_string()), Some(7));
    assert_eq!(parse_signal(&"18446744073709551615".to_string()), Some(u64::MAX));
}

#[test]
fn parse_signal_rejects_other_text() {
    for s in ["", "+", "-", "-1", "abc", " 1", "1 ", "1.0", "18446744073709551616", "99999999999999999999", "١"] {
        assert_eq!(parse_signal(&s.to_string()), None, "{s:?}");
        assert_eq!(s.parse::<u64>().ok(), None, "{s:?}");
    }
}

#[test]
fn parse_signal_agrees_with_std() {
    for s in ["0", "1", "+0", "00000000000000000000001", "18446744073709551614", "4294967296"] {
        assert_eq!(parse_signal(&s.to_string()), s.parse::<u64>().ok(), "{s:?}");
    }
}
