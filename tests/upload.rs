use hoku_sdk::address::Address;
use hoku_sdk::error::Error;
use hoku_sdk::identify::{cid_from_digest, identify};
use hoku_sdk::signer::{Call, GasParams, Signer, Void};
use hoku_sdk::upload::{
    announce_from_signed, ingest_next, ingest_outcome, prepare_announce, IngestEvent, IngestState,
};

fn run(events: Vec<IngestEvent>) -> IngestState {
    let mut s = IngestState::Started;
    for e in events {
        s = ingest_next(s, e);
    }
    s
}

#[test]
fn ingest_completes_with_identifier_and_size() {
    let hash = [7u8; 32];
    let s = run(vec![
        IngestEvent::Found { size: 5000 },
        IngestEvent::Progress { offset: 1000 },
        IngestEvent::Progress { offset: 5000 },
        IngestEvent::Done,
        IngestEvent::AllDone { hash },
    ]);
    assert_eq!(s, IngestState::Complete { cid: cid_from_digest(&hash), size: 5000 });
    assert_eq!(ingest_outcome(s), Ok((cid_from_digest(&hash), 5000)));
}

#[test]
fn ingest_progress_is_capped_at_size() {
    let s = run(vec![IngestEvent::Found { size: 10 }, IngestEvent::Progress { offset: 99 }]);
    assert_eq!(s, IngestState::Ingesting { size: 10, position: 10 });
}

#[test]
fn ingest_abort_fails_and_stays_failed() {
    let s = run(vec![
        IngestEvent::Found { size: 10 },
        IngestEvent::Abort { reason: "disk full".to_string() },
        IngestEvent::AllDone { hash: [1u8; 32] },
    ]);
    let err = Error::UploadAborted { reason: "disk full".to_string() };
    assert_eq!(s, IngestState::Failed(err.clone()));
    assert_eq!(ingest_outcome(s), Err(err));
}

#[test]
fn ingest_progress_before_found_is_unexpected() {
    let s = run(vec![IngestEvent::Progress { offset: 1 }]);
    assert_eq!(s, IngestState::Failed(Error::UnexpectedIngestEvent));
}

#[test]
fn ingest_ending_early_fails() {
    let s = run(vec![IngestEvent::Found { size: 10 }, IngestEvent::Done]);
    assert_eq!(s, IngestState::Stored { size: 10 });
    assert_eq!(ingest_outcome(s), Err(Error::UnexpectedIngestEvent));
}

#[test]
fn announce_encodes_signed_message_url_safe() {
    let cid = identify(b"blob");
    let a = announce_from_signed(cid.clone(), 4, &[0xfb, 0xff], 42).unwrap();
    assert_eq!(a.signed_auth, "-_8=");
    assert_eq!(a.cid, cid);
    assert_eq!(a.size, 4);
    assert_eq!(a.chain_id, 42);
    let b = announce_from_signed(cid, 4, b"hello", 1).unwrap();
    assert_eq!(b.signed_auth, "aGVsbG8=");
}

#[test]
fn void_signer_cannot_announce() {
    let r = prepare_announce(&Void {}, &Address::Id(7), "k", identify(b"blob"), 4, false);
    assert_eq!(r, Err(Error::SigningDenied));
}

#[test]
fn void_signer_refuses_everything() {
    let mut v = Void {};
    assert_eq!(v.address(), Address::Id(0));
    assert_eq!(v.secret_key(), None);
    assert_eq!(v.chain_id(), 0);
    let call = Call::Delete(hoku_sdk::objectstore::delete_params("k"));
    assert_eq!(v.transaction(&Address::Id(1), &call, &GasParams::default()), Err(Error::SigningDenied));
    assert_eq!(v.sign_message(&Address::Id(1), &call), Err(Error::SigningDenied));
    assert_eq!(v.verify_message(b"m", b"s"), Err(Error::SigningDenied));
}
