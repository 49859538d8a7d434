use pastebin::store::Store;
use pastebin::PasteError;

#[test]
fn write_then_read_round_trips() {
    let mut store = Store::new();
    let id = b"abc".to_vec();
    store.write(&id, b"hello".to_vec());
    assert_eq!(store.read(&id), Ok(b"hello".to_vec()));
}

#[test]
fn repeated_reads_return_identical_bytes() {
    let mut store = Store::new();
    let id = b"abc".to_vec();
    store.write(&id, b"some bytes \x00\xff".to_vec());
    let first = store.read(&id);
    let second = store.read(&id);
    assert_eq!(first, second);
    assert_eq!(first, Ok(b"some bytes \x00\xff".to_vec()));
}

#[test]
fn read_of_missing_identifier_is_not_found() {
    let store = Store::new();
    assert_eq!(store.read(&b"abc".to_vec()), Err(PasteError::NotFound));
}

#[test]
fn contains_id_reports_presence() {
    let mut store = Store::new();
    let id = b"xyz".to_vec();
    assert!(!store.contains_id(&id));
    store.write(&id, b"data".to_vec());
    assert!(store.contains_id(&id));
    assert!(!store.contains_id(&b"xy0".to_vec()));
}

#[test]
fn write_overwrites_existing_entry() {
    let mut store = Store::new();
    let id = b"abc".to_vec();
    store.write(&id, b"first".to_vec());
    store.write(&id, b"second".to_vec());
    assert_eq!(store.read(&id), Ok(b"second".to_vec()));
}

#[test]
fn claim_deposits_only_when_free() {
    let mut store = Store::new();
    let id = b"abc".to_vec();
    assert!(store.claim(&id, b"first".to_vec()));
    assert!(!store.claim(&id, b"second".to_vec()));
    assert_eq!(store.read(&id), Ok(b"first".to_vec()));
}

#[test]
fn writes_to_other_identifiers_leave_a_read_unchanged() {
    let mut store = Store::new();
    let id = b"abc".to_vec();
    store.write(&id, b"kept".to_vec());
    store.write(&b"def".to_vec(), b"other".to_vec());
    assert_eq!(store.read(&id), Ok(b"kept".to_vec()));
}

#[test]
fn empty_content_round_trips() {
    let mut store = Store::new();
    let id = b"abc".to_vec();
    store.write(&id, Vec::new());
    assert_eq!(store.read(&id), Ok(Vec::new()));
}
