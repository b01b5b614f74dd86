//! The top-level resource and its operations: create/open/close, the
//! read-only introspection calls, the maintenance operations with their
//! progress callbacks, and the derived handles that keep the root alive.
//!
//! The native calls themselves are issued by an unverified shell; each
//! operation here is the decision around one such call, taking the status
//! code and output handle the call reported and deciding, for every value
//! of them, what the caller gets and how the ownership table moves.

use vstd::prelude::*;

use crate::error::check_status;
use crate::error::spec_check_status;
use crate::error::Error;
use crate::handle::released;
use crate::handle::retained;
use crate::handle::HandleStore;
use crate::handle::Slot;
use crate::status::DatabaseMode;
use crate::status::Status;

verus! {

/// The on-disk schema version the native engine reports; compared for
/// equality and order only, never computed with.
#[derive(Clone, Copy, Debug, PartialEq, Eq, Structural)]
pub struct Version(pub u32);

/// A point in the resource's change history: a counter that grows within
/// one session, and the identifier of that session. Counters of different
/// sessions are not comparable.
#[derive(Clone, Debug)]
pub struct Revision {
    pub revision: u64,
    pub uuid: String,
}

/// One share of the root resource. Shares are taken and given back through
/// the `HandleStore` that the resource was registered in; the native
/// resource is destroyed exactly when the last share is given back.
#[derive(Debug)]
pub struct Database {
    pub slot: usize,
}

/// The failure reported for an operation on an explicitly closed resource.
pub open spec fn spec_closed_failure() -> Error {
    Error::NotmuchError(Status::XapianException)
}

/// What the upgrade operation yields: refused on a closed share and on a
/// read-only resource; otherwise the native status alone decides.
pub open spec fn spec_upgrade_outcome(slot: Slot, native_status: u32) -> Result<(), Error> {
    if slot.closed {
        Err(spec_closed_failure())
    } else if slot.read_only {
        Err(Error::NotmuchError(Status::ReadOnlyDatabase))
    } else {
        spec_check_status(native_status)
    }
}

/// What an upgrade issued with a progress callback yields, given also the
/// stream of numeric reports the native call delivered through it.
pub open spec fn spec_upgrade_with_status_outcome(
    slot: Slot,
    native_status: u32,
    report: Seq<u64>,
) -> Result<(), Error> {
    if slot.closed {
        Err(spec_closed_failure())
    } else if slot.read_only {
        Err(Error::NotmuchError(Status::ReadOnlyDatabase))
    } else {
        spec_check_status(native_status)
    }
}

/// The progress callback is neutral for upgrade: whatever stream of
/// reports the native call delivered through it, the outcome is the one
/// the plain upgrade promises for the same root state and native status.
pub proof fn lemma_upgrade_callback_neutral(slot: Slot, native_status: u32, report: Seq<u64>)
    ensures
        spec_upgrade_with_status_outcome(slot, native_status, report) == spec_upgrade_outcome(
            slot,
            native_status,
        ),
{
}

/// What a compaction issued with a progress callback yields, given also
/// the stream of text messages the native call delivered through it.
pub open spec fn spec_compact_with_status_outcome(native_status: u32, report: Seq<String>) -> Result<
    (),
    Error,
> {
    spec_check_status(native_status)
}

/// The progress callback is neutral for compaction: whatever stream of
/// messages the native call delivered through it, the outcome is the one
/// the plain compaction promises for the same native status.
pub proof fn lemma_compact_callback_neutral(native_status: u32, report: Seq<String>)
    ensures
        spec_compact_with_status_outcome(native_status, report) == spec_check_status(native_status),
{
}

impl Database {
    /// Decide the outcome of the native create call the shell issued for
    /// `path`: `native_status` is the code the call returned and `raw` the
    /// handle it wrote, meaningful only on success. On success the fresh
    /// resource is entered into the store with a single share out; on any
    /// failure nothing is constructed and the store is untouched.
    pub fn create(store: &mut HandleStore, path: String, native_status: u32, raw: u64) -> (r:
        Result<Database, Error>)
        requires
            old(store).wf(),
        ensures
            final(store).wf(),
            !(Status::spec_from_code(native_status) is Success) ==> (r matches Err(e) && e
                == Error::NotmuchError(Status::spec_from_code(native_status)) && *final(store)
                == *old(store)),
            Status::spec_from_code(native_status) is Success && raw == 0 ==> (r matches Err(e) && e
                == Error::NotmuchError(Status::NullPointer) && *final(store) == *old(store)),
            Status::spec_from_code(native_status) is Success && raw != 0 ==> (r matches Ok(db)
                && db.slot == old(store).slots@.len() && final(store).slots@.len() == old(
                store,
            ).slots@.len() + 1 && final(store).slots@[db.slot as int] == (Slot {
                raw,
                shares: 1,
                closed: false,
                read_only: false,
                path,
            }) && (forall|i: int|
                0 <= i < old(store).slots@.len() ==> final(store).slots@[i] == old(
                    store,
                ).slots@[i])),
    {
        let status = Status::from_code(native_status);
        if !status.is_success() {
            return Err(Error::NotmuchError(status));
        }
        if raw == 0 {
            return Err(Error::NotmuchError(Status::NullPointer));
        }
        let id = store.register(raw, false, path);
        Ok(Database { slot: id })
    }

    /// Decide the outcome of the native open call, as `create` does; the
    /// mode the shell passed to the call is recorded, and a resource opened
    /// read-only refuses the upgrade operation later.
    pub fn open(
        store: &mut HandleStore,
        path: String,
        mode: DatabaseMode,
        native_status: u32,
        raw: u64,
    ) -> (r: Result<Database, Error>)
        requires
            old(store).wf(),
        ensures
            final(store).wf(),
            !(Status::spec_from_code(native_status) is Success) ==> (r matches Err(e) && e
                == Error::NotmuchError(Status::spec_from_code(native_status)) && *final(store)
                == *old(store)),
            Status::spec_from_code(native_status) is Success && raw == 0 ==> (r matches Err(e) && e
                == Error::NotmuchError(Status::NullPointer) && *final(store) == *old(store)),
            Status::spec_from_code(native_status) is Success && raw != 0 ==> (r matches Ok(db)
                && db.slot == old(store).slots@.len() && final(store).slots@.len() == old(
                store,
            ).slots@.len() + 1 && final(store).slots@[db.slot as int] == (Slot {
                raw,
                shares: 1,
                closed: false,
                read_only: mode is ReadOnly,
                path,
            }) && (forall|i: int|
                0 <= i < old(store).slots@.len() ==> final(store).slots@[i] == old(
                    store,
                ).slots@[i])),
    {
        let status = Status::from_code(native_status);
        if !status.is_success() {
            return Err(Error::NotmuchError(status));
        }
        if raw == 0 {
            return Err(Error::NotmuchError(Status::NullPointer));
        }
        let read_only = match mode {
            DatabaseMode::ReadOnly => true,
            DatabaseMode::ReadWrite => false,
        };
        let id = store.register(raw, read_only, path);
        Ok(Database { slot: id })
    }

    /// Take another share of the same root: a cheap count increment,
    /// interchangeable with the original for every read operation.
    pub fn clone(&self, store: &mut HandleStore) -> (c: Database)
        requires
            old(store).wf(),
            old(store).live(self.slot),
            old(store).slots@[self.slot as int].shares < u64::MAX,
        ensures
            final(store).wf(),
            c.slot == self.slot,
            retained(*old(store), *final(store), self.slot as int),
            final(store).live(c.slot),
    {
        store.retain(self.slot);
        Database { slot: self.slot }
    }

    /// Give this share up without closing. Exactly when it was the last
    /// share, the raw handle comes back as the shell's order to run the
    /// native destroy.
    pub fn release(self, store: &mut HandleStore) -> (destroy: Option<u64>)
        requires
            old(store).wf(),
            old(store).live(self.slot),
        ensures
            final(store).wf(),
            released(*old(store), *final(store), self.slot as int),
            destroy == (if old(store).slots@[self.slot as int].shares == 1 {
                Some(old(store).slots@[self.slot as int].raw)
            } else {
                Option::<u64>::None
            }),
    {
        store.release(self.slot)
    }

    /// Explicitly close the resource: `native_status` is what the native
    /// close call returned. Whatever the status, the slot is marked closed
    /// — every later read operation on a retained share is refused — and
    /// this share is given up, with the destroy order exactly when it was
    /// the last one.
    pub fn close(self, store: &mut HandleStore, native_status: u32) -> (r: (
        Result<(), Error>,
        Option<u64>,
    ))
        requires
            old(store).wf(),
            old(store).live(self.slot),
        ensures
            final(store).wf(),
            r.0 == spec_check_status(native_status),
            final(store).slots@.len() == old(store).slots@.len(),
            final(store).slots@[self.slot as int].closed,
            final(store).slots@[self.slot as int].shares == old(store).slots@[self.slot as int].shares
                - 1,
            final(store).slots@[self.slot as int].raw == old(store).slots@[self.slot as int].raw,
            r.1 == (if old(store).slots@[self.slot as int].shares == 1 {
                Some(old(store).slots@[self.slot as int].raw)
            } else {
                Option::<u64>::None
            }),
            forall|i: int|
                0 <= i < final(store).slots@.len() && i != self.slot ==> final(store).slots@[i]
                    == old(store).slots@[i],
    {
        store.mark_closed(self.slot);
        let destroy = store.release(self.slot);
        (check_status(native_status), destroy)
    }

    /// The path the resource was opened under. Refused once the resource
    /// was explicitly closed.
    pub fn path<'a>(&self, store: &'a HandleStore) -> (r: Result<&'a str, Error>)
        requires
            store.wf(),
            store.live(self.slot),
        ensures
            store.slots@[self.slot as int].closed ==> (r matches Err(e) && e
                == spec_closed_failure()),
            !store.slots@[self.slot as int].closed ==> (r matches Ok(p) && p@
                == store.slots@[self.slot as int].path@),
    {
        let slot = &store.slots[self.slot];
        if slot.closed {
            Err(Error::NotmuchError(Status::XapianException))
        } else {
            Ok(slot.path.as_str())
        }
    }

    /// The schema version the native engine reported for this resource.
    /// Refused once the resource was explicitly closed.
    pub fn version(&self, store: &HandleStore, native_version: u32) -> (r: Result<Version, Error>)
        requires
            store.wf(),
            store.live(self.slot),
        ensures
            store.slots@[self.slot as int].closed ==> (r matches Err(e) && e
                == spec_closed_failure()),
            !store.slots@[self.slot as int].closed ==> (r matches Ok(v) && v == Version(
                native_version,
            )),
    {
        if store.slots[self.slot].closed {
            Err(Error::NotmuchError(Status::XapianException))
        } else {
            Ok(Version(native_version))
        }
    }

    /// The change-history point the native engine reported: a counter and
    /// the session identifier it belongs to. Refused once the resource was
    /// explicitly closed.
    pub fn revision(&self, store: &HandleStore, native_revision: u64, uuid: String) -> (r: Result<
        Revision,
        Error,
    >)
        requires
            store.wf(),
            store.live(self.slot),
        ensures
            store.slots@[self.slot as int].closed ==> (r matches Err(e) && e
                == spec_closed_failure()),
            !store.slots@[self.slot as int].closed ==> (r matches Ok(rev) && rev.revision
                == native_revision && rev.uuid == uuid),
    {
        if store.slots[self.slot].closed {
            Err(Error::NotmuchError(Status::XapianException))
        } else {
            Ok(Revision { revision: native_revision, uuid })
        }
    }

    /// Whether the native engine reported that the resource needs a schema
    /// upgrade: the native boolean is one. Refused once the resource was
    /// explicitly closed.
    pub fn needs_upgrade(&self, store: &HandleStore, native_flag: u32) -> (r: Result<bool, Error>)
        requires
            store.wf(),
            store.live(self.slot),
        ensures
            store.slots@[self.slot as int].closed ==> (r matches Err(e) && e
                == spec_closed_failure()),
            !store.slots@[self.slot as int].closed ==> (r matches Ok(b) && b == (native_flag
                == 1)),
    {
        if store.slots[self.slot].closed {
            Err(Error::NotmuchError(Status::XapianException))
        } else {
            Ok(native_flag == 1)
        }
    }

    /// Decide the outcome of the native upgrade call, issued without a
    /// progress callback.
    pub fn upgrade(&self, store: &HandleStore, native_status: u32) -> (r: Result<(), Error>)
        requires
            store.wf(),
            store.live(self.slot),
        ensures
            r == spec_upgrade_outcome(store.slots@[self.slot as int], native_status),
    {
        let slot = &store.slots[self.slot];
        if slot.closed {
            Err(Error::NotmuchError(Status::XapianException))
        } else if slot.read_only {
            Err(Error::NotmuchError(Status::ReadOnlyDatabase))
        } else {
            check_status(native_status)
        }
    }

    /// Decide the outcome of the native upgrade call issued with a
    /// progress callback bridged in; `report` is the stream of numeric
    /// reports the call delivered through it. The callback only adds those
    /// notifications: the outcome promised here does not depend on the
    /// stream (see `lemma_upgrade_callback_neutral`).
    pub fn upgrade_with_status(&self, store: &HandleStore, native_status: u32, report: &Vec<u64>) -> (r:
        Result<(), Error>)
        requires
            store.wf(),
            store.live(self.slot),
        ensures
            r == spec_upgrade_with_status_outcome(
                store.slots@[self.slot as int],
                native_status,
                report@,
            ),
    {
        self.upgrade(store, native_status)
    }

    /// Decide the outcome of the native compaction call, a static
    /// operation needing no open handle: the status alone decides.
    pub fn compact(native_status: u32) -> (r: Result<(), Error>)
        ensures
            r == spec_check_status(native_status),
    {
        check_status(native_status)
    }

    /// Decide the outcome of the native compaction call issued with a
    /// progress callback bridged in; `report` is the stream of text
    /// messages the call delivered through it. The callback only adds
    /// those notifications: the outcome promised here does not depend on
    /// the stream (see `lemma_compact_callback_neutral`).
    pub fn compact_with_status(native_status: u32, report: &Vec<String>) -> (r: Result<(), Error>)
        ensures
            r == spec_compact_with_status_outcome(native_status, report@),
    {
        check_status(native_status)
    }

    /// Decide the outcome of the native directory lookup: `native_status`
    /// is the code it returned and `raw` the sub-handle it wrote. A null
    /// sub-handle on success means the path is absent from the index — a
    /// value, not an error. A found directory retains one more share of
    /// this root, so the root outlives it.
    pub fn directory(&self, store: &mut HandleStore, native_status: u32, raw: u64) -> (r: Result<
        Option<Directory>,
        Error,
    >)
        requires
            old(store).wf(),
            old(store).live(self.slot),
            old(store).slots@[self.slot as int].shares < u64::MAX,
        ensures
            final(store).wf(),
            old(store).slots@[self.slot as int].closed ==> (r matches Err(e) && e
                == spec_closed_failure() && *final(store) == *old(store)),
            !old(store).slots@[self.slot as int].closed && !(Status::spec_from_code(native_status)
                is Success) ==> (r matches Err(e) && e == Error::NotmuchError(
                Status::spec_from_code(native_status),
            ) && *final(store) == *old(store)),
            !old(store).slots@[self.slot as int].closed && Status::spec_from_code(native_status)
                is Success && raw == 0 ==> (r matches Ok(d) && d is None && *final(store) == *old(
                store,
            )),
            !old(store).slots@[self.slot as int].closed && Status::spec_from_code(native_status)
                is Success && raw != 0 ==> (r matches Ok(d) && d matches Some(dir) && dir.sub == raw
                && dir.root.slot == self.slot && retained(
                *old(store),
                *final(store),
                self.slot as int,
            )),
    {
        if store.slots[self.slot].closed {
            return Err(Error::NotmuchError(Status::XapianException));
        }
        let status = Status::from_code(native_status);
        if !status.is_success() {
            return Err(Error::NotmuchError(status));
        }
        if raw == 0 {
            return Ok(None);
        }
        let root = self.clone(store);
        Ok(Some(Directory { sub: raw, root }))
    }

    /// Decide the outcome of the native query construction, which returns
    /// only a sub-handle, null when it failed. A null is refused here with
    /// a typed failure rather than wrapped into a dangling handle. A built
    /// query retains one more share of this root.
    pub fn create_query(&self, store: &mut HandleStore, query_string: String, raw: u64) -> (r:
        Result<Query, Error>)
        requires
            old(store).wf(),
            old(store).live(self.slot),
            old(store).slots@[self.slot as int].shares < u64::MAX,
        ensures
            final(store).wf(),
            old(store).slots@[self.slot as int].closed ==> (r matches Err(e) && e
                == spec_closed_failure() && *final(store) == *old(store)),
            !old(store).slots@[self.slot as int].closed && raw == 0 ==> (r matches Err(e) && e
                == Error::NotmuchError(Status::NullPointer) && *final(store) == *old(store)),
            !old(store).slots@[self.slot as int].closed && raw != 0 ==> (r matches Ok(q) && q.sub
                == raw && q.query == query_string && q.root.slot == self.slot && retained(
                *old(store),
                *final(store),
                self.slot as int,
            )),
    {
        if store.slots[self.slot].closed {
            return Err(Error::NotmuchError(Status::XapianException));
        }
        if raw == 0 {
            return Err(Error::NotmuchError(Status::NullPointer));
        }
        let root = self.clone(store);
        Ok(Query { sub: raw, query: query_string, root })
    }

    /// Decide the outcome of asking the native engine for the set of all
    /// tags, which returns only a sub-handle, null when it failed. A built
    /// tag-set handle retains one more share of this root.
    pub fn all_tags(&self, store: &mut HandleStore, raw: u64) -> (r: Result<Tags, Error>)
        requires
            old(store).wf(),
            old(store).live(self.slot),
            old(store).slots@[self.slot as int].shares < u64::MAX,
        ensures
            final(store).wf(),
            old(store).slots@[self.slot as int].closed ==> (r matches Err(e) && e
                == spec_closed_failure() && *final(store) == *old(store)),
            !old(store).slots@[self.slot as int].closed && raw == 0 ==> (r matches Err(e) && e
                == Error::NotmuchError(Status::NullPointer) && *final(store) == *old(store)),
            !old(store).slots@[self.slot as int].closed && raw != 0 ==> (r matches Ok(t) && t.sub
                == raw && t.root.slot == self.slot && retained(
                *old(store),
                *final(store),
                self.slot as int,
            )),
    {
        if store.slots[self.slot].closed {
            return Err(Error::NotmuchError(Status::XapianException));
        }
        if raw == 0 {
            return Err(Error::NotmuchError(Status::NullPointer));
        }
        let root = self.clone(store);
        Ok(Tags { sub: raw, root })
    }
}

/// A directory cursor derived from the root: the native sub-handle and the
/// retained root share that keeps the sub-handle valid.
#[derive(Debug)]
pub struct Directory {
    pub sub: u64,
    pub root: Database,
}

impl Directory {
    /// Give the derived handle up. The directory sub-resource belongs to
    /// the native engine's own object graph and is not destroyed here;
    /// only the retained root share is given back, with the root's destroy
    /// order exactly when it was the last share.
    pub fn release(self, store: &mut HandleStore) -> (destroy: Option<u64>)
        requires
            old(store).wf(),
            old(store).live(self.root.slot),
        ensures
            final(store).wf(),
            released(*old(store), *final(store), self.root.slot as int),
            destroy == (if old(store).slots@[self.root.slot as int].shares == 1 {
                Some(old(store).slots@[self.root.slot as int].raw)
            } else {
                Option::<u64>::None
            }),
    {
        self.root.release(store)
    }
}

/// A query object derived from the root: the native sub-handle, the query
/// text it was built from, and the retained root share.
#[derive(Debug)]
pub struct Query {
    pub sub: u64,
    pub query: String,
    pub root: Database,
}

impl Query {
    /// Give the query up. Unlike the other derived handles, the native
    /// engine expects the query object itself to be released explicitly:
    /// the first component is always this query's sub-handle, the shell's
    /// order to destroy it; the second is the root's destroy order, there
    /// exactly when this held the last share.
    pub fn release(self, store: &mut HandleStore) -> (r: (u64, Option<u64>))
        requires
            old(store).wf(),
            old(store).live(self.root.slot),
        ensures
            final(store).wf(),
            released(*old(store), *final(store), self.root.slot as int),
            r.0 == self.sub,
            r.1 == (if old(store).slots@[self.root.slot as int].shares == 1 {
                Some(old(store).slots@[self.root.slot as int].raw)
            } else {
                Option::<u64>::None
            }),
    {
        let destroy = self.root.release(store);
        (self.sub, destroy)
    }
}

/// A tag-set iterator derived from the root: the native sub-handle and the
/// retained root share.
#[derive(Debug)]
pub struct Tags {
    pub sub: u64,
    pub root: Database,
}

impl Tags {
    /// Give the derived handle up, as for `Directory`: only the retained
    /// root share is given back, with the root's destroy order exactly
    /// when it was the last share.
    pub fn release(self, store: &mut HandleStore) -> (destroy: Option<u64>)
        requires
            old(store).wf(),
            old(store).live(self.root.slot),
        ensures
            final(store).wf(),
            released(*old(store), *final(store), self.root.slot as int),
            destroy == (if old(store).slots@[self.root.slot as int].shares == 1 {
                Some(old(store).slots@[self.root.slot as int].raw)
            } else {
                Option::<u64>::None
            }),
    {
        self.root.release(store)
    }
}

} // verus!
