//! The capabilities that database types share, each a contract of its
//! own. A type implements those it supports; what can be had from a
//! narrower capability is given once, for every type that has it.

use vstd::prelude::*;
use crate::column_family::has_nul;
use crate::column_family::ColumnFamily;
use crate::column_family::ColumnFamilyRegistry;
use crate::column_family::Families;
use crate::db::Db;
use crate::error::kind_of;
use crate::error::Error;
use crate::error::ErrorKind;
use crate::ops::plan_read;
use crate::ops::read_decided;
use crate::ops::ReadCall;
use crate::options::ReadOptions;
use crate::snapshot::Snapshot;
use crate::transaction_db::TransactionDB;

verus! {

/// Access to the registry of column families.
pub trait GetColumnFamilies {
    /// The invariant under which the registry can be used.
    spec fn cfs_wf(&self) -> bool;

    /// The content of the registry.
    spec fn cfs(&self) -> Families;

    /// The registry.
    fn get_cfs(&self) -> (cfs: &ColumnFamilyRegistry)
        requires
            self.cfs_wf(),
        ensures
            cfs.wf(),
            cfs@ == self.cfs(),
    ;

    /// The registry, for a change. What the registry is when the borrow
    /// ends is what the database then holds.
    fn get_mut_cfs(&mut self) -> (cfs: &mut ColumnFamilyRegistry)
        requires
            old(self).cfs_wf(),
        ensures
            cfs.wf(),
            cfs@ == old(self).cfs(),
            final(self).cfs() == final(cfs)@,
            final(cfs).wf() ==> final(self).cfs_wf(),
    ;
}

/// Lookup of a column family by name.
pub trait GetColumnFamily: GetColumnFamilies {
    /// The handle of the family of this name, if there is one.
    fn cf_handle(&self, name: &str) -> (r: Option<&ColumnFamily>)
        requires
            self.cfs_wf(),
        ensures
            match r {
                Some(h) => self.cfs().ids.contains_pair(name@, h@),
                None => !self.cfs().ids.dom().contains(name@),
            },
    ;
}

impl<T: GetColumnFamilies> GetColumnFamily for T {
    fn cf_handle(&self, name: &str) -> (r: Option<&ColumnFamily>) {
        self.get_cfs().handle_for(name)
    }
}

/// Creation of a column family: the decision, and what follows from the
/// engine's answer.
pub trait CreateColumnFamily: GetColumnFamilies {
    /// Decides the creation. A name with a zero byte, a name that is
    /// taken and a registry without identifiers left are each a
    /// `ColumnFamilyError`; otherwise the engine is to be asked.
    fn create_cf(&self, name: &str) -> (r: Result<(), Error>)
        requires
            self.cfs_wf(),
        ensures
            match r {
                Ok(_) => !has_nul(name@) && self.cfs().can_create(name@),
                Err(e) => (has_nul(name@) || !self.cfs().can_create(name@)) && e.spec_kind()
                    == ErrorKind::ColumnFamilyError,
            },
    ;

    /// Takes up the engine's answer to the creation: on success the
    /// family is entered under a fresh handle; a diagnostic is a failure
    /// of the kind that it names, and changes nothing.
    fn finish_create_cf(&mut self, name: &str, reply: Result<(), String>) -> (r: Result<
        ColumnFamily,
        Error,
    >)
        requires
            old(self).cfs_wf(),
        ensures
            final(self).cfs_wf(),
            match r {
                Ok(h) => reply is Ok && old(self).cfs().can_create(name@) && h@ == old(self).cfs().next
                    && final(self).cfs() == old(self).cfs().create(name@),
                Err(e) => final(self).cfs() == old(self).cfs() && match reply {
                    Err(message) => e.spec_message() == message@ && e.spec_kind() == kind_of(
                        message@,
                    ),
                    Ok(_) => !old(self).cfs().can_create(name@) && e.spec_kind()
                        == ErrorKind::ColumnFamilyError,
                },
            },
    ;
}

/// Removal of a column family.
pub trait DropColumnFamily: GetColumnFamilies {
    /// Takes the family of this name out of the registry and returns its
    /// handle, for which the engine is owed a drop. The handle is dead
    /// from here on. An unknown name is a `ColumnFamilyError`.
    fn drop_cf(&mut self, name: &str) -> (r: Result<ColumnFamily, Error>)
        requires
            old(self).cfs_wf(),
        ensures
            final(self).cfs_wf(),
            match r {
                Ok(h) => old(self).cfs().ids.contains_pair(name@, h@) && final(self).cfs() == old(self).cfs().drop_family(name@) && !final(self).cfs().live(h@),
                Err(e) => !old(self).cfs().ids.dom().contains(name@) && final(self).cfs() == old(self).cfs() && e.spec_kind() == ErrorKind::ColumnFamilyError,
            },
    ;
}

/// A pinned read in the default family, under given options.
pub trait GetPinnedOpt: GetColumnFamilies {
    /// Decides the read.
    fn get_pinned_opt(&self, key: &[u8], readopts: &ReadOptions) -> (r: Result<ReadCall, Error>)
        requires
            self.cfs_wf(),
        ensures
            read_decided(self.cfs(), None, key@, *readopts, r),
    ;
}

/// A pinned read in the default family, under the default options.
pub trait GetPinned: GetPinnedOpt {
    /// Decides the read.
    fn get_pinned(&self, key: &[u8]) -> (r: Result<ReadCall, Error>)
        requires
            self.cfs_wf(),
        ensures
            read_decided(self.cfs(), None, key@, ReadOptions { snapshot: None }, r),
    ;
}

impl<T: GetPinnedOpt> GetPinned for T {
    fn get_pinned(&self, key: &[u8]) -> (r: Result<ReadCall, Error>) {
        self.get_pinned_opt(key, &ReadOptions::new())
    }
}

/// A pinned read in a column family, under given options.
pub trait GetPinnedCFOpt: GetColumnFamilies {
    /// Decides the read. A dead handle is a `ColumnFamilyError`.
    fn get_pinned_cf_opt(&self, cf: &ColumnFamily, key: &[u8], readopts: &ReadOptions) -> (r: Result<
        ReadCall,
        Error,
    >)
        requires
            self.cfs_wf(),
        ensures
            read_decided(self.cfs(), Some(cf@), key@, *readopts, r),
    ;
}

/// A pinned read in a column family, under the default options.
pub trait GetPinnedCF: GetPinnedCFOpt {
    /// Decides the read. A dead handle is a `ColumnFamilyError`.
    fn get_pinned_cf(&self, cf: &ColumnFamily, key: &[u8]) -> (r: Result<ReadCall, Error>)
        requires
            self.cfs_wf(),
        ensures
            read_decided(self.cfs(), Some(cf@), key@, ReadOptions { snapshot: None }, r),
    ;
}

impl<T: GetPinnedCFOpt> GetPinnedCF for T {
    fn get_pinned_cf(&self, cf: &ColumnFamily, key: &[u8]) -> (r: Result<ReadCall, Error>) {
        self.get_pinned_cf_opt(cf, key, &ReadOptions::new())
    }
}

/// The taking of snapshots.
pub trait Snapshotable: GetColumnFamilies {
    /// The snapshot that the engine has taken under this identifier. It
    /// borrows the database until it is released.
    fn snapshot(&self, id: u64) -> (s: Snapshot<'_>)
        ensures
            s@ == id,
            s.families() == self.cfs(),
            self.cfs_wf() ==> s.wf(),
    ;
}

impl GetColumnFamilies for Db {
    open spec fn cfs_wf(&self) -> bool {
        self.wf()
    }

    open spec fn cfs(&self) -> Families {
        self.families()
    }

    fn get_cfs(&self) -> (cfs: &ColumnFamilyRegistry) {
        self.column_families()
    }

    fn get_mut_cfs(&mut self) -> (cfs: &mut ColumnFamilyRegistry) {
        self.column_families_mut()
    }
}

impl CreateColumnFamily for Db {
    fn create_cf(&self, name: &str) -> (r: Result<(), Error>) {
        Db::create_cf(self, name)
    }

    fn finish_create_cf(&mut self, name: &str, reply: Result<(), String>) -> (r: Result<
        ColumnFamily,
        Error,
    >) {
        Db::finish_create_cf(self, name, reply)
    }
}

impl DropColumnFamily for Db {
    fn drop_cf(&mut self, name: &str) -> (r: Result<ColumnFamily, Error>) {
        Db::drop_cf(self, name)
    }
}

impl GetPinnedOpt for Db {
    fn get_pinned_opt(&self, key: &[u8], readopts: &ReadOptions) -> (r: Result<ReadCall, Error>) {
        plan_read(self.column_families(), None, key, Some(readopts))
    }
}

impl GetPinnedCFOpt for Db {
    fn get_pinned_cf_opt(&self, cf: &ColumnFamily, key: &[u8], readopts: &ReadOptions) -> (r: Result<
        ReadCall,
        Error,
    >) {
        plan_read(self.column_families(), Some(cf), key, Some(readopts))
    }
}

impl Snapshotable for Db {
    fn snapshot(&self, id: u64) -> (s: Snapshot<'_>) {
        Db::snapshot(self, id)
    }
}

impl Snapshotable for TransactionDB {
    fn snapshot(&self, id: u64) -> (s: Snapshot<'_>) {
        TransactionDB::snapshot(self, id)
    }
}

impl GetColumnFamilies for TransactionDB {
    open spec fn cfs_wf(&self) -> bool {
        self.wf()
    }

    open spec fn cfs(&self) -> Families {
        self.families()
    }

    fn get_cfs(&self) -> (cfs: &ColumnFamilyRegistry) {
        self.column_families()
    }

    fn get_mut_cfs(&mut self) -> (cfs: &mut ColumnFamilyRegistry) {
        self.column_families_mut()
    }
}

impl CreateColumnFamily for TransactionDB {
    fn create_cf(&self, name: &str) -> (r: Result<(), Error>) {
        TransactionDB::create_cf(self, name)
    }

    fn finish_create_cf(&mut self, name: &str, reply: Result<(), String>) -> (r: Result<
        ColumnFamily,
        Error,
    >) {
        TransactionDB::finish_create_cf(self, name, reply)
    }
}

impl DropColumnFamily for TransactionDB {
    fn drop_cf(&mut self, name: &str) -> (r: Result<ColumnFamily, Error>) {
        TransactionDB::drop_cf(self, name)
    }
}

impl GetPinnedOpt for TransactionDB {
    fn get_pinned_opt(&self, key: &[u8], readopts: &ReadOptions) -> (r: Result<ReadCall, Error>) {
        plan_read(self.column_families(), None, key, Some(readopts))
    }
}

impl GetPinnedCFOpt for TransactionDB {
    fn get_pinned_cf_opt(&self, cf: &ColumnFamily, key: &[u8], readopts: &ReadOptions) -> (r: Result<
        ReadCall,
        Error,
    >) {
        plan_read(self.column_families(), Some(cf), key, Some(readopts))
    }
}

} // verus!
