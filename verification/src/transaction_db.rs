//! The transactional database.

use vstd::prelude::*;
use crate::column_family::has_nul;
use crate::column_family::ColumnFamily;
use crate::column_family::ColumnFamilyRegistry;
use crate::column_family::Families;
use crate::db::batch_decided;
use crate::db::names_view;
use crate::db::open_failure_kind;
use crate::db::BatchCall;
use crate::db::Db;
use crate::db::WriteBatch;
use crate::error::kind_of;
use crate::error::Error;
use crate::error::ErrorKind;
use crate::iterator::CursorView;
use crate::iterator::DbRawIterator;
use crate::ops::family_ref_id;
use crate::ops::read_decided;
use crate::ops::read_options_of;
use crate::ops::write_decided;
use crate::ops::write_options_of;
use crate::ops::ReadCall;
use crate::ops::WriteCall;
use crate::ops::WriteKind;
use crate::ops::WriteOpView;
use crate::options::DbOptions;
use crate::options::ReadOptions;
use crate::options::TransactionDBOptions;
use crate::options::TransactionOptions;
use crate::options::WriteOptions;
use crate::snapshot::Snapshot;
use crate::transaction::effective_timeout;
use crate::transaction::lock_wait;
use crate::transaction::lock_wait_of;
use crate::transaction::outside_wait_of;
use crate::transaction::LockWait;
use crate::transaction::Transaction;
use crate::transaction::TxnView;

verus! {

/// A transaction database.
#[derive(Debug)]
pub struct TransactionDB {
    base: Db,
    descriptor: TransactionDBOptions,
}

impl TransactionDB {
    /// The database's invariant.
    pub closed spec fn wf(&self) -> bool {
        self.base.wf()
    }

    /// The column families, in contracts.
    pub closed spec fn families(&self) -> Families {
        self.base.families()
    }

    /// The path, in contracts.
    pub closed spec fn spec_path(&self) -> Seq<char> {
        self.base.spec_path()
    }

    /// Whether a merge operator was registered, in contracts.
    pub closed spec fn merge_registered(&self) -> bool {
        self.base.merge_registered()
    }

    /// The settings that the database was opened with, in contracts.
    pub closed spec fn spec_descriptor(&self) -> TransactionDBOptions {
        self.descriptor
    }

    /// The database is what opening at `path` with these options and
    /// these families gives: it holds exactly the families named, the one
    /// at place `j` under identifier `j`.
    pub open spec fn opened_from(&self, path: Seq<char>, options: DbOptions, names: Seq<Seq<char>>) -> bool {
        &&& self.spec_path() == path
        &&& self.merge_registered() == options.merge_operator.is_some()
        &&& self.families().next == names.len()
        &&& forall|n: Seq<char>| self.families().ids.dom().contains(n) <==> names.contains(n)
        &&& forall|j: int|
            0 <= j < names.len() ==> self.families().ids.contains_pair(#[trigger] names[j], j as u64)
    }

    /// The content of a well-formed database's registry is well formed.
    pub proof fn lemma_families_wf(&self)
        requires
            self.wf(),
        ensures
            self.families().wf(),
    {
        self.base.lemma_families_wf();
    }

    /// Makes the database from the engine's answer to the open call. A
    /// diagnostic is a failure with the engine's message: a
    /// `ColumnFamilyError` where it speaks of a column family, else an
    /// `OpenError`. A family name that occurs twice is a
    /// `ColumnFamilyError`.
    pub fn build(
        path: String,
        options: DbOptions,
        open_descriptor: TransactionDBOptions,
        families: Vec<String>,
        reply: Result<(), String>,
    ) -> (r: Result<TransactionDB, Error>)
        ensures
            match r {
                Ok(db) => reply is Ok && names_view(families@).no_duplicates() && db.wf()
                    && db.opened_from(path@, options, names_view(families@))
                    && db.spec_descriptor() == open_descriptor,
                Err(e) => match reply {
                    Err(message) => e.spec_kind() == open_failure_kind(message@)
                        && e.spec_message() == message@,
                    Ok(_) => e.spec_kind() == ErrorKind::ColumnFamilyError && !names_view(
                        families@,
                    ).no_duplicates(),
                },
            },
    {
        match Db::build(path, options, families, reply) {
            Ok(base) => Ok(TransactionDB { base, descriptor: open_descriptor }),
            Err(e) => Err(e),
        }
    }

    /// The path that the database was opened at.
    pub fn path(&self) -> (p: &str)
        ensures
            p@ == self.spec_path(),
    {
        self.base.path()
    }

    /// The registry of column families.
    pub fn column_families(&self) -> (cfs: &ColumnFamilyRegistry)
        ensures
            cfs@ == self.families(),
            self.wf() ==> cfs.wf(),
    {
        self.base.column_families()
    }

    /// The registry of column families, for a change. Everything else
    /// about the database stays as it is.
    pub fn column_families_mut(&mut self) -> (cfs: &mut ColumnFamilyRegistry)
        ensures
            cfs@ == old(self).families(),
            old(self).wf() ==> cfs.wf(),
            final(self).families() == final(cfs)@,
            final(cfs).wf() ==> final(self).wf(),
            final(self).spec_path() == old(self).spec_path(),
            final(self).merge_registered() == old(self).merge_registered(),
            final(self).spec_descriptor() == old(self).spec_descriptor(),
    {
        self.base.column_families_mut()
    }

    /// How long a write outside any transaction waits for a key that an
    /// open transaction has locked, before it fails with a
    /// `LockConflict`: never without limit.
    pub fn write_lock_wait(&self) -> (w: LockWait)
        ensures
            w == outside_wait_of(self.spec_descriptor().default_lock_timeout),
            w != LockWait::Unbounded,
    {
        lock_wait(self.descriptor.for_engine().default_lock_timeout)
    }

    /// How long a transaction with these settings waits for a locked key.
    pub fn transaction_lock_wait(&self, tx_options: &TransactionOptions) -> (w: LockWait)
        ensures
            w == lock_wait_of(
                effective_timeout(
                    tx_options.lock_timeout,
                    self.spec_descriptor().transaction_lock_timeout,
                ),
            ),
    {
        if tx_options.lock_timeout < 0 {
            lock_wait(self.descriptor.transaction_lock_timeout)
        } else {
            lock_wait(tx_options.lock_timeout)
        }
    }

    /// Begins a transaction.
    pub fn transaction(&self, write_options: &WriteOptions, tx_options: &TransactionOptions) -> (t:
        Transaction<'_>)
        requires
            self.wf(),
        ensures
            t.wf(),
            t@ == TxnView::begin(),
            t.families() == self.families(),
            t.merge_registered() == self.merge_registered(),
            t.spec_options() == *tx_options,
            t.spec_write_options() == *write_options,
    {
        Transaction::new(&self.base, write_options, tx_options)
    }

    /// The snapshot that the engine has taken under this identifier.
    pub fn snapshot(&self, id: u64) -> (s: Snapshot<'_>)
        ensures
            s@ == id,
            s.families() == self.families(),
            self.wf() ==> s.wf(),
    {
        Snapshot::new(&self.base, id)
    }

    /// A cursor over the default family.
    pub fn get_raw_iter(&self, readopts: &ReadOptions) -> (it: DbRawIterator)
        ensures
            it@ == (CursorView { family: None, snapshot: readopts.snapshot, entry: None }),
    {
        self.base.get_raw_iter(readopts)
    }

    /// A cursor over a column family, unless its handle is dead.
    pub fn get_raw_iter_cf(&self, cf_handle: &ColumnFamily, readopts: &ReadOptions) -> (r: Result<
        DbRawIterator,
        Error,
    >)
        requires
            self.wf(),
        ensures
            match r {
                Ok(it) => self.families().live(cf_handle@) && it@ == (CursorView {
                    family: Some(cf_handle@),
                    snapshot: readopts.snapshot,
                    entry: None,
                }),
                Err(e) => !self.families().live(cf_handle@) && e.spec_kind()
                    == ErrorKind::ColumnFamilyError,
            },
    {
        self.base.get_raw_iter_cf(cf_handle, readopts)
    }

    /// Decides a read of `key`.
    pub fn get_cf_full(&self, cf: Option<&ColumnFamily>, key: &[u8], readopts: Option<&ReadOptions>) -> (r:
        Result<ReadCall, Error>)
        requires
            self.wf(),
        ensures
            read_decided(self.families(), family_ref_id(cf), key@, read_options_of(readopts), r),
    {
        self.base.get_cf_full(cf, key, readopts)
    }

    /// Decides a put.
    pub fn put_cf_full(
        &self,
        cf: Option<&ColumnFamily>,
        key: &[u8],
        value: &[u8],
        writeopts: Option<&WriteOptions>,
    ) -> (r: Result<WriteCall, Error>)
        requires
            self.wf(),
        ensures
            write_decided(
                self.families(),
                self.merge_registered(),
                WriteOpView { kind: WriteKind::Put, family: family_ref_id(cf), key: key@, value: value@ },
                write_options_of(writeopts),
                r,
            ),
    {
        self.base.write_cf_full(WriteKind::Put, cf, key, value, writeopts)
    }

    /// Decides a delete.
    pub fn delete_cf_full(&self, cf: Option<&ColumnFamily>, key: &[u8], writeopts: Option<&WriteOptions>) -> (r:
        Result<WriteCall, Error>)
        requires
            self.wf(),
        ensures
            write_decided(
                self.families(),
                self.merge_registered(),
                WriteOpView {
                    kind: WriteKind::Delete,
                    family: family_ref_id(cf),
                    key: key@,
                    value: Seq::<u8>::empty(),
                },
                write_options_of(writeopts),
                r,
            ),
    {
        let nothing: Vec<u8> = Vec::new();
        self.base.write_cf_full(WriteKind::Delete, cf, key, nothing.as_slice(), writeopts)
    }

    /// Decides a merge. Without a merge operator it is an
    /// `UnsupportedOperation`.
    pub fn merge_cf_full(
        &self,
        cf: Option<&ColumnFamily>,
        key: &[u8],
        value: &[u8],
        writeopts: Option<&WriteOptions>,
    ) -> (r: Result<WriteCall, Error>)
        requires
            self.wf(),
        ensures
            write_decided(
                self.families(),
                self.merge_registered(),
                WriteOpView {
                    kind: WriteKind::Merge,
                    family: family_ref_id(cf),
                    key: key@,
                    value: value@,
                },
                write_options_of(writeopts),
                r,
            ),
    {
        self.base.write_cf_full(WriteKind::Merge, cf, key, value, writeopts)
    }

    /// Decides the application of a batch.
    pub fn write_full(&self, batch: WriteBatch, writeopts: Option<&WriteOptions>) -> (r: Result<
        BatchCall,
        Error,
    >)
        requires
            self.wf(),
        ensures
            batch_decided(
                self.families(),
                self.merge_registered(),
                batch@,
                write_options_of(writeopts),
                r,
            ),
    {
        self.base.write_full(batch, writeopts)
    }

    /// The handle of the family of this name, if there is one.
    pub fn handle_for(&self, name: &str) -> (r: Option<&ColumnFamily>)
        requires
            self.wf(),
        ensures
            match r {
                Some(h) => self.families().ids.contains_pair(name@, h@),
                None => !self.families().ids.dom().contains(name@),
            },
    {
        self.base.handle_for(name)
    }

    /// Decides the creation of a column family.
    pub fn create_cf(&self, name: &str) -> (r: Result<(), Error>)
        requires
            self.wf(),
        ensures
            match r {
                Ok(_) => !has_nul(name@) && self.families().can_create(name@),
                Err(e) => (has_nul(name@) || !self.families().can_create(name@)) && e.spec_kind()
                    == ErrorKind::ColumnFamilyError,
            },
    {
        self.base.create_cf(name)
    }

    /// Takes up the engine's answer to the creation of a column family.
    pub fn finish_create_cf(&mut self, name: &str, reply: Result<(), String>) -> (r: Result<
        ColumnFamily,
        Error,
    >)
        requires
            old(self).wf(),
        ensures
            final(self).wf(),
            final(self).spec_path() == old(self).spec_path(),
            final(self).merge_registered() == old(self).merge_registered(),
            final(self).spec_descriptor() == old(self).spec_descriptor(),
            match r {
                Ok(h) => reply is Ok && old(self).families().can_create(name@) && h@ == old(self).families().next && final(self).families() == old(self).families().create(name@),
                Err(e) => final(self).families() == old(self).families() && match reply {
                    Err(message) => e.spec_message() == message@ && e.spec_kind() == kind_of(
                        message@,
                    ),
                    Ok(_) => !old(self).families().can_create(name@) && e.spec_kind()
                        == ErrorKind::ColumnFamilyError,
                },
            },
    {
        self.base.finish_create_cf(name, reply)
    }

    /// Takes the family of this name out of the registry; its handle is
    /// dead from here on.
    pub fn drop_cf(&mut self, name: &str) -> (r: Result<ColumnFamily, Error>)
        requires
            old(self).wf(),
        ensures
            final(self).wf(),
            final(self).spec_path() == old(self).spec_path(),
            final(self).merge_registered() == old(self).merge_registered(),
            final(self).spec_descriptor() == old(self).spec_descriptor(),
            match r {
                Ok(h) => old(self).families().ids.contains_pair(name@, h@) && final(self).families()
                    == old(self).families().drop_family(name@) && !final(self).families().live(h@),
                Err(e) => !old(self).families().ids.dom().contains(name@) && final(self).families()
                    == old(self).families() && e.spec_kind() == ErrorKind::ColumnFamilyError
                    && e.spec_message() == "Invalid column family: "@ + name@,
            },
    {
        self.base.drop_cf(name)
    }
}

} // verus!
