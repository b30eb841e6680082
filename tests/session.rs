use hoku_sdk::address::Address;
use hoku_sdk::error::Error;
use hoku_sdk::identify::cid_from_digest;
use hoku_sdk::session::{AddAction, AddEvent, AddSession, AddStage};
use hoku_sdk::objectstore::ObjectKind;
use hoku_sdk::signer::{Call, GasParams, Signer, Void};
use hoku_sdk::upload::{IngestEvent, IngestState};

struct StubSigner;

impl Signer for StubSigner {
    fn holds_key(&self) -> bool {
        true
    }
    fn tx_message(&self, _to: Address, call: Call, _gas: GasParams) -> Vec<u8> {
        match call {
            Call::Put(_) => b"signed-put".to_vec(),
            Call::Delete(_) => b"signed-delete".to_vec(),
        }
    }
    fn auth_message(&self, _to: Address, _call: Call) -> Vec<u8> {
        b"hello".to_vec()
    }
    fn chain(&self) -> u64 {
        1
    }
    fn subnet_chain(&self) -> Option<u64> {
        Some(314)
    }
    fn address(&self) -> Address {
        Address::Id(99)
    }
    fn secret_key(&self) -> Option<Vec<u8>> {
        Some(vec![1; 32])
    }
    fn chain_id(&self) -> u64 {
        self.chain()
    }
    fn subnet_chain_id(&self) -> Option<u64> {
        self.subnet_chain()
    }
    fn transaction(&mut self, to: &Address, call: &Call, gas: &GasParams) -> Result<Vec<u8>, Error> {
        Ok(self.tx_message(to.clone(), call.clone(), *gas))
    }
    fn sign_message(&self, to: &Address, call: &Call) -> Result<Vec<u8>, Error> {
        Ok(self.auth_message(to.clone(), call.clone()))
    }
    fn verify_message(&self, _message: &[u8], _signature: &[u8]) -> Result<(), Error> {
        Ok(())
    }
}

fn submitted(a: &AddAction) -> Option<(Call, Vec<u8>)> {
    match a {
        AddAction::Submit { call, signed } => Some((call.clone(), signed.clone())),
        _ => None,
    }
}

fn session() -> AddSession {
    AddSession::new(Address::Id(5), "key".to_string(), false, GasParams::default())
}

#[test]
fn inline_add_submits_then_completes() {
    let mut signer = StubSigner;
    let (s, a) = session().step(&mut signer, AddEvent::Sampled(vec![1; 100]));
    assert_eq!(s.stage, AddStage::Submitting);
    let (call, signed) = submitted(&a).unwrap();
    assert_eq!(signed, b"signed-put".to_vec());
    match call {
        Call::Put(p) => {
            assert_eq!(p.key, "key");
            assert_eq!(p.kind, ObjectKind::Internal(vec![1; 100]));
            assert!(!p.overwrite);
        }
        other => panic!("expected a put, got {:?}", other),
    }
    let (s, a) = s.step(&mut signer, AddEvent::Submitted(Ok(())));
    assert_eq!(s.stage, AddStage::Done);
    assert_eq!(a, AddAction::Stop);
}

#[test]
fn detached_add_announces_before_submitting() {
    let mut signer = StubSigner;
    let hash = [3u8; 32];
    let (s, a) = session().step(&mut signer, AddEvent::Sampled(vec![1; 1025]));
    assert_eq!(s.stage, AddStage::Ingesting(IngestState::Started));
    assert_eq!(a, AddAction::StartIngest);
    let (s, a) = s.step(&mut signer, AddEvent::Ingest(IngestEvent::Found { size: 4096 }));
    assert_eq!(a, AddAction::Wait);
    let (s, a) = s.step(&mut signer, AddEvent::Ingest(IngestEvent::Done));
    assert_eq!(a, AddAction::Wait);
    let (s, a) = s.step(&mut signer, AddEvent::Ingest(IngestEvent::AllDone { hash }));
    match a {
        AddAction::Announce(announce) => {
            assert_eq!(announce.cid, cid_from_digest(&hash));
            assert_eq!(announce.size, 4096);
            assert_eq!(announce.signed_auth, "aGVsbG8=");
            assert_eq!(announce.chain_id, 314);
        }
        other => panic!("expected an announcement, got {:?}", other),
    }
    assert_eq!(s.stage, AddStage::Announcing { cid: cid_from_digest(&hash) });
    let (s, a) = s.step(&mut signer, AddEvent::Announced(Ok(())));
    let (call, signed) = submitted(&a).unwrap();
    assert_eq!(signed, b"signed-put".to_vec());
    match call {
        Call::Put(p) => assert_eq!(p.kind, ObjectKind::External(cid_from_digest(&hash))),
        other => panic!("expected a put, got {:?}", other),
    }
    let (s, a) = s.step(&mut signer, AddEvent::Submitted(Err("timeout".to_string())));
    assert_eq!(s.stage, AddStage::Failed(Error::TxFailed { cause: "timeout".to_string() }));
    assert_eq!(a, AddAction::Stop);
}

#[test]
fn aborted_ingest_ends_without_announcement() {
    let mut signer = StubSigner;
    let (s, _) = session().step(&mut signer, AddEvent::Sampled(vec![1; 1025]));
    let (s, a) = s.step(
        &mut signer,
        AddEvent::Ingest(IngestEvent::Abort { reason: "gone".to_string() }),
    );
    assert_eq!(s.stage, AddStage::Failed(Error::UploadAborted { reason: "gone".to_string() }));
    assert_eq!(a, AddAction::Stop);
    let (s, a) = s.step(&mut signer, AddEvent::Announced(Ok(())));
    assert_eq!(a, AddAction::Stop);
    assert_eq!(s.stage, AddStage::Failed(Error::UploadAborted { reason: "gone".to_string() }));
}

#[test]
fn failed_announcement_ends_the_add() {
    let mut signer = StubSigner;
    let (s, _) = session().step(&mut signer, AddEvent::Sampled(vec![1; 1025]));
    let (s, _) = s.step(&mut signer, AddEvent::Ingest(IngestEvent::AllDone { hash: [0; 32] }));
    let (s, a) = s.step(&mut signer, AddEvent::Announced(Err("refused".to_string())));
    assert_eq!(s.stage, AddStage::Failed(Error::AnnounceFailed { cause: "refused".to_string() }));
    assert_eq!(a, AddAction::Stop);
}

#[test]
fn read_only_signer_is_denied() {
    let mut signer = Void {};
    let (s, a) = session().step(&mut signer, AddEvent::Sampled(vec![1; 10]));
    assert_eq!(s.stage, AddStage::Failed(Error::SigningDenied));
    assert_eq!(a, AddAction::Stop);
}

#[test]
fn empty_sample_fails() {
    let mut signer = StubSigner;
    let (s, a) = session().step(&mut signer, AddEvent::Sampled(Vec::new()));
    assert_eq!(s.stage, AddStage::Failed(Error::EmptyObject));
    assert_eq!(a, AddAction::Stop);
}

#[test]
fn out_of_order_event_fails() {
    let mut signer = StubSigner;
    let (s, a) = session().step(&mut signer, AddEvent::Submitted(Ok(())));
    assert_eq!(s.stage, AddStage::Failed(Error::UnexpectedEvent));
    assert_eq!(a, AddAction::Stop);
}

#[test]
fn ingest_ending_without_identifier_fails() {
    let mut signer = StubSigner;
    let (s, _) = session().step(&mut signer, AddEvent::Sampled(vec![1; 1025]));
    let (s, _) = s.step(&mut signer, AddEvent::Ingest(IngestEvent::Found { size: 2000 }));
    let (s, a) = s.step(&mut signer, AddEvent::IngestEnded);
    assert_eq!(s.stage, AddStage::Failed(Error::UnexpectedIngestEvent));
    assert_eq!(a, AddAction::Stop);
}

#[test]
fn oversized_sample_is_refused() {
    let mut signer = StubSigner;
    let (s, a) = session().step(&mut signer, AddEvent::Sampled(vec![1; 2000]));
    assert_eq!(s.stage, AddStage::Failed(Error::UnexpectedEvent));
    assert_eq!(a, AddAction::Stop);
}

use hoku_sdk::identify::identify;
use hoku_sdk::objectstore::Object;
use hoku_sdk::session::{GetAction, GetEvent, GetSession, GetStage};

#[test]
fn get_missing_key_is_not_found() {
    let (s, a) = GetSession::new("k".to_string(), None).step(GetEvent::Descriptor(None));
    assert!(matches!(a, GetAction::Stop));
    assert!(matches!(s.stage, GetStage::Failed(Error::ObjectNotFound { ref key }) if key == "k"));
}

#[test]
fn get_internal_object_delivers_range() {
    let object = Object::Internal(b"0123456789".to_vec());
    let (s, a) = GetSession::new("k".to_string(), Some("2-4".to_string()))
        .step(GetEvent::Descriptor(Some(object)));
    assert!(matches!(s.stage, GetStage::Done));
    assert!(matches!(a, GetAction::Deliver(ref b) if b == b"234"));
}

#[test]
fn get_unresolved_blob_is_refused() {
    let object = Object::External(identify(b"blob"), false);
    let (s, _) = GetSession::new("k".to_string(), None).step(GetEvent::Descriptor(Some(object)));
    assert!(matches!(s.stage, GetStage::Failed(Error::ObjectNotResolved { ref key }) if key == "k"));
}

#[test]
fn get_resolved_blob_streams_chunks() {
    let object = Object::External(identify(b"blob"), true);
    let (s, a) = GetSession::new("k".to_string(), Some("-5".to_string()))
        .step(GetEvent::Descriptor(Some(object)));
    assert!(matches!(a, GetAction::QuerySize));
    let (s, a) = s.step(GetEvent::Size(Ok(10)));
    assert!(matches!(a, GetAction::Download(Some(ref r)) if r == "-5"));
    let (s, a) = s.step(GetEvent::Chunk(Ok(vec![1, 2, 3])));
    assert!(matches!(a, GetAction::Write(ref c) if c == &vec![1, 2, 3]));
    let (s, _) = s.step(GetEvent::Chunk(Ok(vec![0; 20])));
    match &s.stage {
        GetStage::Downloading(p) => assert_eq!((p.received, p.total), (10, 10)),
        _ => panic!("expected a download in progress"),
    }
    let (s, a) = s.step(GetEvent::StreamEnded);
    assert!(matches!(s.stage, GetStage::Done));
    assert!(matches!(a, GetAction::Stop));
}

#[test]
fn get_transport_error_fails_download() {
    let object = Object::External(identify(b"blob"), true);
    let (s, _) = GetSession::new("k".to_string(), None).step(GetEvent::Descriptor(Some(object)));
    let (s, _) = s.step(GetEvent::Size(Ok(10)));
    let (s, _) = s.step(GetEvent::Chunk(Ok(vec![1])));
    let (s, a) = s.step(GetEvent::Chunk(Err("reset".to_string())));
    assert!(matches!(a, GetAction::Stop));
    assert!(matches!(s.stage, GetStage::Failed(Error::DownloadFailed { ref cause }) if cause == "reset"));
}

use hoku_sdk::options::{AddOptions, DeleteOptions, GetOptions};
use hoku_sdk::objectstore::ObjectStore;

#[test]
fn machine_starts_sessions_for_its_address() {
    let store = ObjectStore::attach(Address::Id(42));
    assert_eq!(store.address(), &Address::Id(42));
    let options = AddOptions { overwrite: true, ..AddOptions::default() };
    let add = store.add("k", &options);
    assert_eq!(add.machine, Address::Id(42));
    assert_eq!(add.key, "k");
    assert!(add.overwrite);
    assert_eq!(add.stage, AddStage::Sampling);
    let get = store.get("k", &GetOptions { range: Some("1-2".to_string()), ..GetOptions::default() });
    assert_eq!(get.range, Some("1-2".to_string()));
    assert!(matches!(get.stage, GetStage::Resolving));
}

#[test]
fn machine_delete_needs_a_key() {
    let store = ObjectStore::attach(Address::Id(42));
    assert_eq!(store.delete(&mut Void {}, "k", &DeleteOptions::default()), Err(Error::SigningDenied));
    assert_eq!(store.delete(&mut StubSigner, "k", &DeleteOptions::default()), Ok(b"signed-delete".to_vec()));
}

#[test]
fn receipt_timeout_leaves_outcome_unknown() {
    let mut signer = StubSigner;
    let (s, _) = session().step(&mut signer, AddEvent::Sampled(vec![1; 10]));
    let (s, a) = s.step(&mut signer, AddEvent::ReceiptTimedOut);
    assert_eq!(s.stage, AddStage::Failed(Error::ReceiptUnavailable));
    assert_eq!(a, AddAction::Stop);
}

struct NoSubnetSigner;

impl Signer for NoSubnetSigner {
    fn holds_key(&self) -> bool {
        true
    }
    fn tx_message(&self, _to: Address, _call: Call, _gas: GasParams) -> Vec<u8> {
        b"tx".to_vec()
    }
    fn auth_message(&self, _to: Address, _call: Call) -> Vec<u8> {
        b"auth".to_vec()
    }
    fn chain(&self) -> u64 {
        1
    }
    fn subnet_chain(&self) -> Option<u64> {
        None
    }
    fn address(&self) -> Address {
        Address::Id(1)
    }
    fn secret_key(&self) -> Option<Vec<u8>> {
        Some(vec![2; 32])
    }
    fn chain_id(&self) -> u64 {
        1
    }
    fn subnet_chain_id(&self) -> Option<u64> {
        None
    }
    fn transaction(&mut self, _to: &Address, _call: &Call, _gas: &GasParams) -> Result<Vec<u8>, Error> {
        Ok(b"tx".to_vec())
    }
    fn sign_message(&self, _to: &Address, _call: &Call) -> Result<Vec<u8>, Error> {
        Ok(b"auth".to_vec())
    }
    fn verify_message(&self, _message: &[u8], _signature: &[u8]) -> Result<(), Error> {
        Ok(())
    }
}

#[test]
fn announcement_needs_a_subnet() {
    let mut signer = NoSubnetSigner;
    let (s, _) = session().step(&mut signer, AddEvent::Sampled(vec![1; 1025]));
    let (s, a) = s.step(&mut signer, AddEvent::Ingest(IngestEvent::AllDone { hash: [0; 32] }));
    assert_eq!(s.stage, AddStage::Failed(Error::MissingSubnet));
    assert_eq!(a, AddAction::Stop);
}
