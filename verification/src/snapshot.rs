//! Snapshots: a frozen view of a database.
//!
//! A snapshot borrows its database, so it cannot outlive it, and it is
//! given up by value, so it cannot be released twice or read afterwards.

use vstd::prelude::*;
use crate::column_family::ColumnFamily;
use crate::column_family::Families;
use crate::db::Db;
use crate::error::Error;
use crate::error::ErrorKind;
use crate::iterator::CursorView;
use crate::iterator::DbRawIterator;
use crate::ops::family_ref_id;
use crate::ops::read_decided;
use crate::ops::read_options_of;
use crate::ops::ReadCall;
use crate::options::ReadOptions;

verus! {

/// A consistent view of the database as of the moment it was taken. Its
/// view is the identifier under which the engine knows it.
#[derive(Debug)]
pub struct Snapshot<'a> {
    db: &'a Db,
    id: u64,
}

impl<'a> View for Snapshot<'a> {
    type V = u64;

    closed spec fn view(&self) -> u64 {
        self.id
    }
}

/// Read options pinned to a snapshot: those given, or the defaults, with
/// the snapshot set.
pub open spec fn pinned_to(given: Option<&ReadOptions>, snapshot: u64) -> ReadOptions {
    match given {
        Some(o) => (ReadOptions { snapshot: Some(snapshot), ..*o }),
        None => (ReadOptions { snapshot: Some(snapshot) }),
    }
}

/// A read through a snapshot is pinned to it whatever options were given,
/// and a read under the default options is pinned to none.
pub proof fn lemma_snapshot_pins(given: Option<&ReadOptions>, snapshot: u64)
    ensures
        pinned_to(given, snapshot).snapshot == Some(snapshot),
        read_options_of(None).snapshot.is_none(),
{
}

impl<'a> Snapshot<'a> {
    /// The invariant of the database behind the snapshot.
    pub closed spec fn wf(&self) -> bool {
        self.db.wf()
    }

    /// The database's column families, in contracts.
    pub closed spec fn families(&self) -> Families {
        self.db.families()
    }

    /// The snapshot that the engine has taken of `db` under this
    /// identifier.
    pub fn new(db: &'a Db, id: u64) -> (s: Self)
        ensures
            s@ == id,
            s.families() == db.families(),
            db.wf() ==> s.wf(),
    {
        Snapshot { db, id }
    }

    /// The identifier under which the engine knows the snapshot.
    pub fn const_handle(&self) -> (id: u64)
        ensures
            id == self@,
    {
        self.id
    }

    fn pin(&self, readopts: Option<&ReadOptions>) -> (o: ReadOptions)
        ensures
            o == pinned_to(readopts, self@),
    {
        match readopts {
            Some(given) => {
                let mut o: ReadOptions = *given;
                o.snapshot = Some(self.id);
                o
            },
            None => ReadOptions { snapshot: Some(self.id) },
        }
    }

    /// Decides a read through the snapshot: as a read of the database,
    /// pinned to the snapshot whatever the options say.
    pub fn get_cf_full(&self, cf: Option<&ColumnFamily>, key: &[u8], readopts: Option<&ReadOptions>) -> (r:
        Result<ReadCall, Error>)
        requires
            self.wf(),
        ensures
            read_decided(self.families(), family_ref_id(cf), key@, pinned_to(readopts, self@), r),
    {
        let ro = self.pin(readopts);
        self.db.get_cf_full(cf, key, Some(&ro))
    }

    /// A cursor over the default family, pinned to the snapshot.
    pub fn get_raw_iter(&self, readopts: &ReadOptions) -> (it: DbRawIterator)
        ensures
            it@ == (CursorView { family: None, snapshot: Some(self@), entry: None }),
    {
        let ro = self.pin(Some(readopts));
        self.db.get_raw_iter(&ro)
    }

    /// A cursor over a column family, pinned to the snapshot, unless the
    /// family's handle is dead.
    pub fn get_raw_iter_cf(&self, cf_handle: &ColumnFamily, readopts: &ReadOptions) -> (r: Result<
        DbRawIterator,
        Error,
    >)
        requires
            self.wf(),
        ensures
            match r {
                Ok(it) => self.families().live(cf_handle@) && it@ == (CursorView {
                    family: Some(cf_handle@),
                    snapshot: Some(self@),
                    entry: None,
                }),
                Err(e) => !self.families().live(cf_handle@) && e.spec_kind()
                    == ErrorKind::ColumnFamilyError,
            },
    {
        let ro = self.pin(Some(readopts));
        self.db.get_raw_iter_cf(cf_handle, &ro)
    }

    /// Gives the snapshot up. The engine is owed one release, of the
    /// identifier returned.
    pub fn release(self) -> (id: u64)
        ensures
            id == self@,
    {
        self.id
    }
}

} // verus!
