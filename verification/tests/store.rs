use sled_typed::{Database, DiskMap, DropOutcome, StoreConfig, StoreError};
use std::path::{Path, PathBuf};
use std::sync::atomic::{AtomicUsize, Ordering};
use std::time::{SystemTime, UNIX_EPOCH};

static NEXT: AtomicUsize = AtomicUsize::new(0);

/// A directory of its own for one test. When the test is over the engine
/// is asked to treat the directory as temporary, which removes it.
struct Scratch {
    dir: PathBuf,
}

impl Scratch {
    fn path(&self) -> &Path {
        &self.dir
    }
}

impl Drop for Scratch {
    fn drop(&mut self) {
        drop(sled::Config::default().path(&self.dir).temporary(true));
    }
}

fn fresh_dir(tag: &str) -> Scratch {
    let nanos = SystemTime::now().duration_since(UNIX_EPOCH).unwrap().as_nanos();
    let n = NEXT.fetch_add(1, Ordering::SeqCst);
    Scratch { dir: PathBuf::from(format!("/tmp/sled_typed_{}_{}_{}", tag, nanos, n)) }
}

fn sorted(mut names: Vec<String>) -> Vec<String> {
    names.sort();
    names
}

#[test]
fn open_runs_under_the_standard_configuration() {
    let dir = fresh_dir("config");
    let db = Database::open(dir.path()).unwrap();
    let config = db.config();
    assert_eq!(config, StoreConfig { compression: true, flush_every_ms: Some(1000) });
    assert_eq!(config, StoreConfig::standard());
}

#[test]
fn fresh_store_lists_nothing() {
    let dir = fresh_dir("empty");
    let db = Database::open(dir.path()).unwrap();
    assert_eq!(db.list().unwrap(), Vec::<String>::new());
}

#[test]
fn users_alice_survives_flush_and_reopen() {
    let dir = fresh_dir("scenario");
    {
        let mut db = Database::open(dir.path()).unwrap();
        let users: DiskMap<String, String> = db.document("users").unwrap();
        users.as_tree().insert("1", "alice").unwrap();
        let flushed = db.flush().unwrap();
        assert!(flushed > 0);
    }
    let mut db = Database::open(dir.path()).unwrap();
    let users: DiskMap<String, String> = db.document("users").unwrap();
    let value = users.as_tree().get("1").unwrap().unwrap();
    assert_eq!(value.as_ref(), "alice".as_bytes());
}

#[test]
fn reopen_recovers_flushed_collections() {
    let dir = fresh_dir("reopen");
    {
        let mut db = Database::open(dir.path()).unwrap();
        let a: DiskMap<u8, u8> = db.document("a").unwrap();
        let b: DiskMap<u8, u8> = db.document("b").unwrap();
        for i in 0u8..20 {
            a.as_tree().insert([i], vec![i, i]).unwrap();
            b.as_tree().insert([i], vec![i]).unwrap();
        }
        db.flush().unwrap();
    }
    let mut db = Database::open(dir.path()).unwrap();
    assert_eq!(sorted(db.list().unwrap()), vec!["a".to_string(), "b".to_string()]);
    let a: DiskMap<u8, u8> = db.document("a").unwrap();
    let b: DiskMap<u8, u8> = db.document("b").unwrap();
    assert_eq!(a.as_tree().len(), 20);
    assert_eq!(b.as_tree().len(), 20);
    for i in 0u8..20 {
        assert_eq!(a.as_tree().get([i]).unwrap().unwrap().as_ref(), &[i, i]);
        assert_eq!(b.as_tree().get([i]).unwrap().unwrap().as_ref(), &[i]);
    }
}

#[test]
fn two_handles_on_one_name_see_each_others_writes() {
    let dir = fresh_dir("handles");
    let mut db = Database::open(dir.path()).unwrap();
    let first: DiskMap<String, String> = db.document("shared").unwrap();
    let second: DiskMap<String, String> = db.document("shared").unwrap();
    first.as_tree().insert("k", "from first").unwrap();
    assert_eq!(second.as_tree().get("k").unwrap().unwrap().as_ref(), b"from first");
    second.as_tree().insert("k", "from second").unwrap();
    assert_eq!(first.as_tree().get("k").unwrap().unwrap().as_ref(), b"from second");
    assert_eq!(db.list().unwrap(), vec!["shared".to_string()]);
}

#[test]
fn collections_are_kept_apart() {
    let dir = fresh_dir("apart");
    let mut db = Database::open(dir.path()).unwrap();
    let left: DiskMap<String, String> = db.document("left").unwrap();
    let right: DiskMap<String, String> = db.document("right").unwrap();
    left.as_tree().insert("k", "v").unwrap();
    assert!(right.as_tree().get("k").unwrap().is_none());
}

#[test]
fn handle_is_bound_to_the_name_asked_for() {
    let dir = fresh_dir("name");
    let mut db = Database::open(dir.path()).unwrap();
    let users: DiskMap<u64, String> = db.document("users").unwrap();
    assert_eq!(users.name(), b"users".to_vec());
    let tree = users.into_tree();
    assert_eq!(tree.name().as_ref(), b"users");
    let again: DiskMap<u64, String> = DiskMap::new(tree);
    assert_eq!(again.name(), b"users".to_vec());
}

#[test]
fn drop_of_unused_name_is_false() {
    let dir = fresh_dir("drop_unused");
    let mut db = Database::open(dir.path()).unwrap();
    assert!(!db.drop("never"));
    assert!(matches!(db.remove("never either"), DropOutcome::NotFound));
}

#[test]
fn drop_of_existing_name_is_true_and_unlists_it() {
    let dir = fresh_dir("drop_existing");
    let mut db = Database::open(dir.path()).unwrap();
    let _keep: DiskMap<u8, u8> = db.document("keep").unwrap();
    let _gone: DiskMap<u8, u8> = db.document("gone").unwrap();
    assert_eq!(sorted(db.list().unwrap()), vec!["gone".to_string(), "keep".to_string()]);
    assert!(db.drop("gone"));
    assert_eq!(db.list().unwrap(), vec!["keep".to_string()]);
    assert!(matches!(db.remove("keep"), DropOutcome::Removed));
    assert_eq!(db.list().unwrap(), Vec::<String>::new());
}

#[test]
fn second_drop_is_false() {
    let dir = fresh_dir("drop_twice");
    let mut db = Database::open(dir.path()).unwrap();
    let _c: DiskMap<u8, u8> = db.document("once").unwrap();
    assert!(db.drop("once"));
    assert!(!db.drop("once"));
    assert!(matches!(db.remove("once"), DropOutcome::NotFound));
}

#[test]
fn dropped_collection_comes_back_empty() {
    let dir = fresh_dir("drop_entries");
    let mut db = Database::open(dir.path()).unwrap();
    let c: DiskMap<String, String> = db.document("c").unwrap();
    c.as_tree().insert("k", "v").unwrap();
    assert!(db.drop("c"));
    let c: DiskMap<String, String> = db.document("c").unwrap();
    assert!(c.as_tree().get("k").unwrap().is_none());
    assert_eq!(c.as_tree().len(), 0);
}

#[test]
fn list_after_creating_a_b_c() {
    let dir = fresh_dir("list");
    let mut db = Database::open(dir.path()).unwrap();
    let _a: DiskMap<u8, u8> = db.document("a").unwrap();
    let _b: DiskMap<u8, u8> = db.document("b").unwrap();
    let _c: DiskMap<u8, u8> = db.document("c").unwrap();
    let names = db.list().unwrap();
    assert_eq!(names.len(), 3);
    assert_eq!(sorted(names), vec!["a".to_string(), "b".to_string(), "c".to_string()]);
}

#[test]
fn list_shows_names_beyond_ascii() {
    let dir = fresh_dir("unicode");
    let mut db = Database::open(dir.path()).unwrap();
    let _c: DiskMap<u8, u8> = db.document("größe-数").unwrap();
    assert_eq!(db.list().unwrap(), vec!["größe-数".to_string()]);
    assert!(db.drop("größe-数"));
}

#[test]
fn engines_own_keyspace_is_no_collection() {
    let dir = fresh_dir("reserved");
    let mut db = Database::open(dir.path()).unwrap();
    let own: DiskMap<u8, u8> = db.document("__sled__default").unwrap();
    assert_eq!(own.name(), b"__sled__default".to_vec());
    assert_eq!(db.list().unwrap(), Vec::<String>::new());
    assert!(!db.drop("__sled__default"));
    assert!(matches!(db.remove("__sled__default"), DropOutcome::Failed(_)));
    assert_eq!(db.flush_handle().name().as_ref(), b"__sled__default");
}

#[test]
fn list_rejects_a_name_that_is_not_text() {
    let dir = fresh_dir("not_text");
    {
        let raw = sled::Config::default().use_compression(true).path(dir.path()).open().unwrap();
        raw.open_tree([0x66u8, 0xff, 0xfe]).unwrap();
        raw.flush().unwrap();
    }
    let mut db = Database::open(dir.path()).unwrap();
    let _fine: DiskMap<u8, u8> = db.document("fine").unwrap();
    match db.list() {
        Err(StoreError::NameDecode(bytes)) => assert_eq!(bytes, vec![0x66u8, 0xff, 0xfe]),
        other => panic!("expected a name that cannot be decoded, got {:?}", other),
    }
}

#[test]
fn second_open_of_a_held_store_fails() {
    let dir = fresh_dir("held");
    let _first = Database::open(dir.path()).unwrap();
    match Database::open(dir.path()) {
        Err(StoreError::StoreOpen(_)) => {}
        Err(other) => panic!("wrong kind of failure: {:?}", other),
        Ok(_) => panic!("a store that is held was opened again"),
    }
}

#[test]
fn open_fails_where_no_directory_can_be_made() {
    let result = Database::open(Path::new("/proc/no_such_place/store"));
    assert!(matches!(result, Err(StoreError::StoreOpen(_))));
}

#[test]
fn open_accepts_what_was_closed() {
    let dir = fresh_dir("close");
    drop(Database::open(dir.path()).unwrap());
    let db = Database::open(dir.path()).unwrap();
    assert_eq!(db.list().unwrap(), Vec::<String>::new());
}

#[test]
fn size_on_disk_does_not_shrink_after_writes_and_flush() {
    let dir = fresh_dir("size");
    let mut db = Database::open(dir.path()).unwrap();
    let c: DiskMap<u64, Vec<u8>> = db.document("bulk").unwrap();
    db.flush().unwrap();
    let mut last = db.size_on_disk().unwrap();
    for round in 0u64..4 {
        for i in 0u64..200 {
            let key = (round * 1000 + i).to_be_bytes();
            c.as_tree().insert(key, vec![round as u8; 64]).unwrap();
        }
        db.flush().unwrap();
        let now = db.size_on_disk().unwrap();
        assert!(now >= last);
        last = now;
    }
    assert!(last > 0);
}

#[test]
fn flush_with_nothing_written_succeeds() {
    let dir = fresh_dir("flush_idle");
    let db = Database::open(dir.path()).unwrap();
    db.flush().unwrap();
    assert_eq!(db.flush().unwrap(), 0);
}

#[test]
fn flush_handle_flushes_the_whole_store() {
    let dir = fresh_dir("flush_handle");
    {
        let mut db = Database::open(dir.path()).unwrap();
        let c: DiskMap<String, String> = db.document("c").unwrap();
        c.as_tree().insert("k", "v").unwrap();
        assert!(db.flush_handle().flush().unwrap() > 0);
    }
    let mut db = Database::open(dir.path()).unwrap();
    let c: DiskMap<String, String> = db.document("c").unwrap();
    assert_eq!(c.as_tree().get("k").unwrap().unwrap().as_ref(), b"v");
}
