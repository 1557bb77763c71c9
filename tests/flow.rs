use fckuipaid::encoding::ClaimArgs;
use fckuipaid::journal::{build_response, decode_journal, proof_id, COMMITMENT_LEN};
use fckuipaid::market::{FulfillmentWait, WaitStep};
use fckuipaid::pipeline::{
    advance, event_for_status, prepare_claim, resolve_block, response_for, BlockSelector,
    MarketStatus, PipelineError, Stage,
    StageEvent,
};
use fckuipaid::types::{get_supported_services, ErrorResponse, GenerateProofRequest};

fn request() -> GenerateProofRequest {
    GenerateProofRequest {
        user_address: "0x170f6F7b0925CF1447BAAF25a5AE61253EF31c1B".to_string(),
        payment_receiver: "0x6fEDEb0B4942A8b438AFE68ba7c8Af4637c41903".to_string(),
        month: 72025,
        signature: "0x184bdcdf".to_string(),
    }
}

fn journal() -> Vec<u8> {
    let mut j: Vec<u8> = (0..96u8).collect();
    j.extend([0u8; 32]);
    j
}

#[test]
fn claim_uses_request_fields() {
    let a = prepare_claim(&request()).unwrap();
    assert_eq!(a.contract[0], 0x6f);
    assert_eq!(a.user[0], 0x17);
    assert_eq!(a.period, 72025);
    assert_eq!(a.signature, vec![0x18, 0x4b, 0xdc, 0xdf]);
}

#[test]
fn bad_request_is_a_validation_error() {
    let mut r = request();
    r.signature = "0x1".to_string();
    assert!(matches!(prepare_claim(&r), Err(PipelineError::InputValidation)));
    let mut r = request();
    r.user_address = "nope".to_string();
    assert!(matches!(prepare_claim(&r), Err(PipelineError::InputValidation)));
}

#[test]
fn paid_claim_gives_full_response() {
    let claim = prepare_claim(&request()).unwrap();
    let seal = vec![0xabu8; 260];
    let expected: Vec<u8> = (0..96u8).collect();
    let resp = response_for(&claim, &journal(), &seal, &expected, 1_750_000_000).unwrap();
    assert!(resp.success);
    assert_eq!(resp.journal.len(), 2 * 128);
    assert_eq!(resp.seal.len(), 2 * 260);
    assert!(resp.seal.starts_with("abab"));
    assert_eq!(resp.commitment.len(), 2 * COMMITMENT_LEN);
    assert!(resp.commitment.starts_with("000102030405"));
    assert!(resp.commitment.ends_with("5d5e5f"));
    assert_eq!(resp.proof_id, "boundless_72025_1750000000");
    assert_eq!(
        resp.message,
        "Boundless ZK proof generated for user 0x170f6f7b0925cf1447baaf25a5ae61253ef31c1b payment to 0x6fedeb0b4942a8b438afe68ba7c8af4637c41903 for month 72025"
    );
    assert_eq!(resp.timestamp, 1_750_000_000);
}

#[test]
fn short_journal_is_a_decode_error() {
    let claim = prepare_claim(&request()).unwrap();
    assert!(matches!(
        response_for(&claim, &[0u8; 95], &[1], &[0u8; 95], 5),
        Err(PipelineError::JournalDecode)
    ));
    assert!(decode_journal(&[0u8; 95]).is_none());
    assert_eq!(decode_journal(&journal()).unwrap().len(), 96);
    assert!(build_response(&[], &[], &[0; 20], &[0; 20], 1, 1).is_none());
}

#[test]
fn foreign_commitment_is_refused() {
    let claim = prepare_claim(&request()).unwrap();
    let other = vec![0xeeu8; 96];
    assert!(matches!(
        response_for(&claim, &journal(), &[1], &other, 5),
        Err(PipelineError::JournalDecode)
    ));
}

#[test]
fn proof_id_digits() {
    assert_eq!(proof_id(0, 7), "boundless_0_7");
    assert_eq!(proof_id(u64::MAX, 10), "boundless_18446744073709551615_10");
}

#[test]
fn unpaid_claim_is_rejected_before_submission() {
    let s = advance(Stage::Preflight, StageEvent::Preflighted { paid: false });
    assert_eq!(s, Stage::Failed(PipelineError::PaymentNotFound));
    assert_eq!(advance(s, StageEvent::Committed), s);
    assert_eq!(advance(Stage::Preflight, StageEvent::Preflighted { paid: true }), Stage::Commit);
}

#[test]
fn unreachable_chain_never_submits() {
    let s = advance(
        Stage::BuildSnapshot,
        StageEvent::StageFailed(PipelineError::Connectivity),
    );
    assert_eq!(s, Stage::Failed(PipelineError::Connectivity));
    assert_eq!(advance(s, StageEvent::SnapshotBuilt), s);
    assert_eq!(advance(s, StageEvent::Submitted), s);
}

#[test]
fn whole_pipeline_reaches_done() {
    let events = [
        StageEvent::SnapshotBuilt,
        StageEvent::Preflighted { paid: true },
        StageEvent::Committed,
        StageEvent::Submitted,
        StageEvent::Fulfilled,
        StageEvent::JournalDecoded,
    ];
    let mut s = Stage::BuildSnapshot;
    for e in events {
        s = advance(s, e);
    }
    assert_eq!(s, Stage::Done);
    assert_eq!(advance(Stage::Submit, StageEvent::Fulfilled), Stage::Submit);
}

#[test]
fn deadline_passes_without_result() {
    let s = advance(Stage::AwaitFulfillment, StageEvent::Expired);
    assert_eq!(s, Stage::Failed(PipelineError::RequestExpired));
    assert_eq!(advance(s, StageEvent::Fulfilled), s);

    let mut w = FulfillmentWait::new([1; 32], 100, 120, 5);
    assert_eq!(w.next_step(100), WaitStep::Poll);
    w.record_poll(100);
    assert_eq!(w.next_step(102), WaitStep::Sleep(3));
    assert_eq!(w.next_step(120), WaitStep::Expired);
}

#[test]
fn polls_stay_within_bound() {
    // deadline 100 s away, one poll every 30 s: at most ceil(100 / 30) = 4 polls.
    let mut w = FulfillmentWait::new([7; 32], 1000, 1100, 30);
    let mut now = 1000u64;
    let mut polls = 0u64;
    loop {
        match w.next_step(now) {
            WaitStep::Poll => {
                w.record_poll(now);
                polls += 1;
            }
            WaitStep::Sleep(s) => now += s,
            WaitStep::Expired => break,
            WaitStep::Cancelled => unreachable!(),
        }
    }
    assert_eq!(polls, 4);
    assert_eq!(w.polls, 4);
    assert_eq!(now, 1100);
}

#[test]
fn sleep_stops_at_deadline() {
    let mut w = FulfillmentWait::new([0; 32], 0, 7, 5);
    w.record_poll(0);
    w.record_poll(5);
    assert_eq!(w.next_step(6), WaitStep::Sleep(1));
}

#[test]
fn cancel_keeps_request() {
    let mut w = FulfillmentWait::new([9; 32], 10, 100, 5);
    w.record_poll(10);
    w.cancel();
    assert_eq!(w.next_step(20), WaitStep::Cancelled);
    assert_eq!(w.request_id, [9; 32]);
    let mut again = FulfillmentWait::new(w.request_id, 20, w.expires_at, 5);
    assert_eq!(again.next_step(20), WaitStep::Poll);
    again.record_poll(20);
    assert_eq!(again.polls, 1);
}

#[test]
fn block_selection() {
    assert_eq!(resolve_block(BlockSelector::Latest, 50), Some(50));
    assert_eq!(resolve_block(BlockSelector::Parent, 50), Some(49));
    assert_eq!(resolve_block(BlockSelector::Parent, 0), None);
    assert_eq!(resolve_block(BlockSelector::Number(10), 50), Some(10));
    assert_eq!(resolve_block(BlockSelector::Number(51), 50), None);
}

#[test]
fn error_responses() {
    let e = ErrorResponse::validation_error("bad".to_string());
    assert_eq!(e.error, "Validation error");
    assert_eq!(e.error_code, "VALIDATION_ERROR");
    assert_eq!(e.details.as_deref(), Some("bad"));
    let e = ErrorResponse::proof_generation_error("x".to_string());
    assert_eq!(e.error, "Proof generation failed");
    assert_eq!(e.error_code, "PROOF_ERROR");
    let e = ErrorResponse::verification_error("y".to_string());
    assert_eq!(e.error, "Proof verification failed");
    assert_eq!(e.error_code, "VERIFICATION_ERROR");
    let e = ErrorResponse::new("a", "B", None);
    assert_eq!(e.error, "a");
    assert!(e.details.is_none());
}

#[test]
fn service_catalog() {
    let s = get_supported_services();
    assert_eq!(s.len(), 6);
    assert_eq!(s[0].id, 1);
    assert_eq!(s[0].name, "VitalikFeetPics.com");
    assert_eq!(s[0].min_amount, 20_000_000_000_000_000_000u128 as u64);
    assert_eq!(s[1].min_amount, 15_000_000_000_000_000_000u64);
    assert_eq!(s[5].name, "Hulu");
    assert_eq!(s[5].description, "Hulu streaming service");
    let _ = ClaimArgs { contract: [0; 20], period: 0, user: [0; 20], signature: vec![] };
}

#[test]
fn marketplace_status_events() {
    assert_eq!(event_for_status(MarketStatus::Pending), None);
    assert_eq!(event_for_status(MarketStatus::Fulfilled), Some(StageEvent::Fulfilled));
    assert_eq!(event_for_status(MarketStatus::Expired), Some(StageEvent::Expired));
    assert_eq!(
        event_for_status(MarketStatus::Failed),
        Some(StageEvent::StageFailed(PipelineError::Fulfillment))
    );
}
