use system76_firmware::{
    exceeded, payload_digest, resolve_manifest, CacheAction, CacheEvent, CacheState, FirmwareError, UPDATER_FILE,
};

#[test]
fn staleness_boundary() {
    assert!(!exceeded(1000, 1000 + 86400, 86400));
    assert!(exceeded(1000, 1000 + 86401, 86400));
    assert!(!exceeded(1000, 1000, 0));
    assert!(exceeded(0, 0, 86400));
    assert!(exceeded(2000, 1000, 86400));
    assert!(exceeded(1, 0, u64::MAX));
}

#[test]
fn fresh_cache_is_read() {
    let (s, a) = CacheState::Start.step(CacheEvent::Stat { modified: Some(100), now: 150 }, 50);
    assert_eq!((s, a), (CacheState::Reading, CacheAction::ReadCached));
    let (s, a) = s.step(CacheEvent::Loaded(Ok(())), 50);
    assert_eq!((s, a), (CacheState::Done, CacheAction::ReturnCached));
}

#[test]
fn stale_cache_is_refreshed_and_stored() {
    let (s, a) = CacheState::Start.step(CacheEvent::Stat { modified: Some(100), now: 151 }, 50);
    assert_eq!((s, a), (CacheState::Fetching, CacheAction::Fetch));
    let (s, a) = s.step(CacheEvent::Fetched(Ok(())), 50);
    assert_eq!((s, a), (CacheState::Storing, CacheAction::Store));
    let (s, a) = s.step(CacheEvent::Stored(Ok(())), 50);
    assert_eq!((s, a), (CacheState::Done, CacheAction::ReturnFetched));
}

#[test]
fn absent_or_skewed_cache_is_refreshed() {
    let ev = CacheEvent::Stat { modified: None, now: 150 };
    assert_eq!(CacheState::Start.step(ev, 50), (CacheState::Fetching, CacheAction::Fetch));
    let ev = CacheEvent::Stat { modified: Some(10), now: 0 };
    assert_eq!(CacheState::Start.step(ev, 50), (CacheState::Fetching, CacheAction::Fetch));
    let ev = CacheEvent::Stat { modified: Some(200), now: 150 };
    assert_eq!(CacheState::Start.step(ev, 50), (CacheState::Fetching, CacheAction::Fetch));
}

#[test]
fn corrupt_cache_fails_without_fetching() {
    let (s, _) = CacheState::Start.step(CacheEvent::Stat { modified: Some(100), now: 100 }, 86400);
    let (s, a) = s.step(CacheEvent::Loaded(Err("garbage".to_string())), 86400);
    assert_eq!(s, CacheState::Done);
    assert_eq!(a, CacheAction::Fail(FirmwareError::CacheCorrupt("garbage".to_string())));
}

#[test]
fn fetch_and_store_failures() {
    let a = CacheState::Fetching.step(CacheEvent::Fetched(Err("offline".to_string())), 1).1;
    assert_eq!(a, CacheAction::Fail(FirmwareError::Network("offline".to_string())));
    let a = CacheState::Storing.step(CacheEvent::Stored(Err("read-only".to_string())), 1).1;
    assert_eq!(a, CacheAction::Fail(FirmwareError::Filesystem("read-only".to_string())));
}

#[test]
fn cache_state_accepts_only_its_report() {
    assert!(CacheState::Start.accepts(&CacheEvent::Stat { modified: None, now: 1 }));
    assert!(!CacheState::Start.accepts(&CacheEvent::Loaded(Ok(()))));
    assert!(CacheState::Storing.accepts(&CacheEvent::Stored(Ok(()))));
    assert!(!CacheState::Done.accepts(&CacheEvent::Fetched(Ok(()))));
}

const MANIFEST: &str = r#"{"time":1560000000,"files":{"system76-firmware-update.tar.xz":"d-updater","galp3_abc.tar.xz":"d-firmware"}}"#;

#[test]
fn manifest_lookup_finds_both_payloads() {
    let m = resolve_manifest(MANIFEST.as_bytes()).unwrap();
    assert_eq!(m.files.len(), 2);
    assert_eq!(payload_digest(&m, UPDATER_FILE), Ok("d-updater".to_string()));
    assert_eq!(payload_digest(&m, "galp3_abc.tar.xz"), Ok("d-firmware".to_string()));
}

#[test]
fn manifest_lookup_reports_missing_name() {
    let m = resolve_manifest(MANIFEST.as_bytes()).unwrap();
    let e = payload_digest(&m, "oryp5_abc.tar.xz").unwrap_err();
    assert_eq!(e, FirmwareError::NotFound("oryp5_abc.tar.xz".to_string()));
    assert_eq!(e.message(), "oryp5_abc.tar.xz not found");
}

#[test]
fn malformed_manifest_is_an_error() {
    assert!(matches!(resolve_manifest(b"not json"), Err(FirmwareError::MalformedManifest(_))));
    assert!(matches!(resolve_manifest(br#"{"files":{}}"#), Err(FirmwareError::MalformedManifest(_))));
    let empty = resolve_manifest(br#"{"time":0,"files":{}}"#).unwrap();
    assert!(empty.files.is_empty());
}
