use std::path::Path;
use libruntime::error::{ErrorType, RuntimeError};
use libruntime::store::{container_id_of, DirEntryOutcome, Store};

#[test]
fn new_store_has_no_entry() {
    let s: Store<u32> = Store::new("/var/lib/x");
    let e = s.persist_target("a").unwrap_err();
    assert_eq!(e, RuntimeError { message: "Entry not found".to_string(), error_type: ErrorType::Runtime });
}

#[test]
fn set_then_persist_reads_back() {
    let mut s: Store<u32> = Store::new("/var/lib/x");
    assert!(s.set("a".to_string(), 1).is_ok());
    assert!(s.set("b".to_string(), 2).is_ok());
    assert!(s.set("a".to_string(), 3).is_ok());
    let (path, v) = s.persist_target("a").unwrap();
    assert_eq!(path, "/var/lib/x/a");
    assert_eq!(*v, 3);
    let (path, v) = s.persist_target("b").unwrap();
    assert_eq!(path, "/var/lib/x/b");
    assert_eq!(*v, 2);
}

#[test]
fn persist_path_joins_directory() {
    let mut s: Store<u32> = Store::new("/var/lib/x/");
    s.set("c".to_string(), 1).unwrap();
    assert_eq!(s.persist_target("c").unwrap().0, "/var/lib/x/c");
}

#[test]
fn load_inserts_all_entries() {
    let mut s: Store<u32> = Store::new("d");
    let r = s.load(vec![
        DirEntryOutcome::Loaded("a".to_string(), 1),
        DirEntryOutcome::Loaded("b".to_string(), 2),
        DirEntryOutcome::Loaded("a".to_string(), 5),
    ]);
    assert!(r.is_ok());
    assert_eq!(*s.persist_target("a").unwrap().1, 5);
    assert_eq!(*s.persist_target("b").unwrap().1, 2);
    assert_eq!(s.persist_target("a").unwrap().0, "d/a");
}

#[test]
fn load_stops_at_first_failure() {
    let mut s: Store<u32> = Store::new("d");
    let r = s.load(vec![
        DirEntryOutcome::Loaded("a".to_string(), 1),
        DirEntryOutcome::Unnamed,
        DirEntryOutcome::Loaded("b".to_string(), 2),
    ]);
    assert_eq!(
        r.unwrap_err(),
        RuntimeError { message: "Failed to extract container ID".to_string(), error_type: ErrorType::Runtime }
    );
    assert_eq!(*s.persist_target("a").unwrap().1, 1);
    assert!(s.persist_target("b").is_err());
}

#[test]
fn load_reports_each_error() {
    let mut s: Store<u32> = Store::new("d");
    let r = s.load(vec![DirEntryOutcome::Unreadable("permission denied".to_string())]);
    assert_eq!(r.unwrap_err().message, "permission denied");
    let r = s.load(vec![DirEntryOutcome::ReadFailed("is a directory".to_string())]);
    assert_eq!(r.unwrap_err().message, "is a directory");
    let r = s.load(vec![DirEntryOutcome::Malformed("expected value at line 1".to_string())]);
    let e = r.unwrap_err();
    assert_eq!(e.message, "expected value at line 1");
    assert_eq!(e.error_type, ErrorType::Runtime);
}

#[test]
fn load_entry_keeps_records_on_error() {
    let mut s: Store<u32> = Store::new("d");
    s.set("a".to_string(), 1).unwrap();
    assert!(s.load_entry(DirEntryOutcome::Malformed("bad".to_string())).is_err());
    assert_eq!(*s.persist_target("a").unwrap().1, 1);
    assert!(s.load_entry(DirEntryOutcome::Loaded("z".to_string(), 9)).is_ok());
    assert_eq!(*s.persist_target("z").unwrap().1, 9);
}

#[test]
fn empty_load_succeeds() {
    let mut s: Store<u32> = Store::new("d");
    assert!(s.load(Vec::new()).is_ok());
    assert!(s.persist_target("a").is_err());
}

#[test]
fn set_keeps_other_records() {
    let mut s: Store<u32> = Store::new("/d");
    s.set("a".to_string(), 1).unwrap();
    s.set("b".to_string(), 2).unwrap();
    let (path, v) = s.persist_target("a").unwrap();
    assert_eq!(path, "/d/a");
    assert_eq!(*v, 1);
}

#[test]
fn container_id_is_file_name() {
    for p in [
        "/var/lib/x/abc", "/var/lib/x/abc.json", "abc", "a//b", "a/b/", "a/b/.", "./a", ".", "./", "/", "", "..",
        "a/..", "a/../", "/.", "b.", "...", ".../.", "a/./", ".hidden", "/x/.hidden/", "//", "~/c1",
    ] {
        let expected = Path::new(p).file_name().map(|n| n.to_str().unwrap().to_string());
        assert_eq!(container_id_of(p), expected, "path {:?}", p);
    }
    assert_eq!(container_id_of("/var/lib/x/c1.json"), Some("c1.json".to_string()));
}

#[test]
fn persisted_file_is_loaded_under_its_name() {
    let mut s: Store<u32> = Store::new("/var/lib/x");
    s.set("c1".to_string(), 4).unwrap();
    let (path, v) = s.persist_target("c1").unwrap();
    assert_eq!(container_id_of(&path), Some("c1".to_string()));
    let mut t: Store<u32> = Store::new("/var/lib/x");
    t.load(vec![DirEntryOutcome::Loaded(container_id_of(&path).unwrap(), *v)]).unwrap();
    assert_eq!(*t.persist_target("c1").unwrap().1, 4);
}
