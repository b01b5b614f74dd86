use notmuch::database::Database;
use notmuch::error::Error;
use notmuch::handle::HandleStore;
use notmuch::status::DatabaseMode;
use notmuch::status::Status;

const OK: u32 = 0;
const FILE_ERROR: u32 = 4;

fn fresh_root(store: &mut HandleStore, raw: u64) -> Database {
    match Database::open(store, String::from("/tmp/x"), DatabaseMode::ReadWrite, OK, raw) {
        Ok(db) => db,
        Err(_) => panic!("opening with a success status must yield a root"),
    }
}

#[test]
fn create_on_fresh_path_succeeds() {
    let mut store = HandleStore::new();
    let r = Database::create(&mut store, String::from("/tmp/x"), OK, 71);
    match r {
        Ok(db) => {
            assert_eq!(db.slot, 0);
            assert_eq!(store.slots.len(), 1);
            assert_eq!(store.slots[0].raw, 71);
            assert_eq!(store.slots[0].shares, 1);
            assert!(!store.slots[0].closed);
            assert!(!store.slots[0].read_only);
        }
        Err(_) => panic!("create with a success status must yield a root"),
    }
}

#[test]
fn create_on_existing_path_reports_the_native_failure() {
    let mut store = HandleStore::new();
    let first = Database::create(&mut store, String::from("/tmp/x"), OK, 71);
    assert!(first.is_ok());
    let again = Database::create(&mut store, String::from("/tmp/x"), FILE_ERROR, 0);
    match again {
        Err(Error::NotmuchError(s)) => assert_eq!(s, Status::FileError),
        _ => panic!("a failing create must report the native status"),
    }
    assert_eq!(store.slots.len(), 1);
}

#[test]
fn destroy_fires_once_after_last_release() {
    let mut store = HandleStore::new();
    let db = fresh_root(&mut store, 5);
    let a = db.clone(&mut store);
    let b = db.clone(&mut store);
    let c = a.clone(&mut store);
    assert_eq!(store.slots[0].shares, 4);

    let mut destroys = 0;
    for d in [
        a.release(&mut store),
        db.release(&mut store),
        c.release(&mut store),
        b.release(&mut store),
    ] {
        if let Some(raw) = d {
            assert_eq!(raw, 5);
            destroys += 1;
        }
    }
    assert_eq!(destroys, 1);
    assert_eq!(store.slots[0].shares, 0);
}

#[test]
fn destroy_comes_only_with_the_final_release_whatever_the_order() {
    // Two interleavings of clone and release around the same root: in each,
    // every release but the last yields no destroy order, the last yields it.
    let mut store = HandleStore::new();
    let db = fresh_root(&mut store, 9);
    let a = db.clone(&mut store);
    assert!(a.release(&mut store).is_none());
    let b = db.clone(&mut store);
    let c = b.clone(&mut store);
    assert!(b.release(&mut store).is_none());
    assert!(db.release(&mut store).is_none());
    assert_eq!(c.release(&mut store), Some(9));

    let mut store2 = HandleStore::new();
    let db2 = fresh_root(&mut store2, 12);
    assert_eq!(db2.release(&mut store2), Some(12));
}

#[test]
fn clone_is_interchangeable_with_the_original() {
    let mut store = HandleStore::new();
    let db = fresh_root(&mut store, 8);
    let twin = db.clone(&mut store);
    assert_eq!(twin.slot, db.slot);
    let v1 = db.version(&store, 3);
    let v2 = twin.version(&store, 3);
    assert_eq!(v1.unwrap(), v2.unwrap());
    twin.release(&mut store);
    db.release(&mut store);
}

#[test]
fn tag_set_handle_keeps_the_root_alive() {
    // The scenario: open, derive the tag set, drop every other share; the
    // resource lives while the tag-set handle retains its share, and the
    // destroy order comes only when that last share goes.
    let mut store = HandleStore::new();
    let db = fresh_root(&mut store, 33);
    let extra = db.clone(&mut store);
    let tags = match db.all_tags(&mut store, 77) {
        Ok(t) => t,
        Err(_) => panic!("a non-null tag-set handle must be wrapped"),
    };
    assert_eq!(tags.sub, 77);
    assert!(extra.release(&mut store).is_none());
    assert!(db.release(&mut store).is_none());
    assert!(store.slots[0].shares == 1);
    assert_eq!(tags.release(&mut store), Some(33));
}

#[test]
fn spent_slot_stays_and_keeps_its_number() {
    let mut store = HandleStore::new();
    let db = fresh_root(&mut store, 4);
    assert_eq!(db.release(&mut store), Some(4));
    let db2 = fresh_root(&mut store, 6);
    assert_eq!(db2.slot, 1);
    assert_eq!(store.slots.len(), 2);
    assert_eq!(store.slots[0].shares, 0);
    db2.release(&mut store);
}
