//! Transactions: a unit of isolated work over a transactional database.
//!
//! A transaction is open until it is committed or rolled back, and it
//! stays what it then is. While it is open it keeps a journal of the
//! changes that the engine has accepted for it, and a stack of savepoints.
//! Each savepoint marks a length of the journal; rolling back to the most
//! recent one cuts the journal back to that length and pops the mark.

use vstd::prelude::*;
use crate::column_family::ColumnFamily;
use crate::column_family::Families;
use crate::db::ops_view;
use crate::db::Db;
use crate::error::kind_of;
use crate::error::Error;
use crate::error::ErrorKind;
use crate::ops::family_ref_id;
use crate::ops::family_id;
use crate::ops::family_usable;
use crate::ops::plan_read;
use crate::ops::plan_write;
use crate::ops::read_options_of;
use crate::ops::write_refusal;
use crate::ops::ReadCall;
use crate::ops::WriteKind;
use crate::ops::WriteOp;
use crate::ops::WriteOpView;
use crate::options::ReadOptions;
use crate::options::TransactionOptions;
use crate::options::WriteOptions;
use crate::snapshot::Snapshot;

verus! {

/// Where a transaction stands in its life.
#[derive(Clone, Copy, Debug, PartialEq, Eq, Structural)]
pub enum TxnState {
    Open,
    Committed,
    RolledBack,
}

/// The calls that steer a transaction.
#[derive(Clone, Copy, Debug, PartialEq, Eq, Structural)]
pub enum TxnCall {
    Commit,
    Rollback,
    SetSavepoint,
    RollbackToSavepoint,
}

/// How long a write waits for a key that another transaction has locked.
#[derive(Clone, Copy, Debug, PartialEq, Eq, Structural)]
pub enum LockWait {
    /// The write fails at once.
    Immediate,
    /// The write waits up to this many milliseconds, then fails.
    UpTo(i64),
    /// The write waits until the lock is free.
    Unbounded,
}

/// The wait that a timeout in milliseconds stands for: none for zero,
/// no limit for a negative one.
pub open spec fn lock_wait_of(timeout: i64) -> LockWait {
    if timeout == 0 {
        LockWait::Immediate
    } else if timeout < 0 {
        LockWait::Unbounded
    } else {
        LockWait::UpTo(timeout)
    }
}

/// The wait of a write outside any transaction. Such a write never waits
/// without limit: it waits up to a timeout that is positive, and fails at
/// once under any other.
pub open spec fn outside_wait_of(timeout: i64) -> LockWait {
    if timeout > 0 {
        LockWait::UpTo(timeout)
    } else {
        LockWait::Immediate
    }
}

/// The timeout that governs a transaction: its own where that is not
/// negative, else the database's.
pub open spec fn effective_timeout(own: i64, of_database: i64) -> i64 {
    if own < 0 {
        of_database
    } else {
        own
    }
}

/// Reads a timeout.
pub fn lock_wait(timeout: i64) -> (w: LockWait)
    ensures
        w == lock_wait_of(timeout),
{
    if timeout == 0 {
        LockWait::Immediate
    } else if timeout < 0 {
        LockWait::Unbounded
    } else {
        LockWait::UpTo(timeout)
    }
}

/// The mathematical content of a transaction.
pub struct TxnView {
    pub state: TxnState,
    pub journal: Seq<WriteOpView>,
    pub savepoints: Seq<nat>,
}

impl TxnView {
    /// Every savepoint marks a length that the journal has reached, and
    /// later savepoints mark later lengths.
    pub open spec fn wf(self) -> bool {
        &&& forall|i: int| 0 <= i < self.savepoints.len() ==> self.savepoints[i] <= self.journal.len()
        &&& forall|i: int, j: int|
            0 <= i <= j < self.savepoints.len() ==> self.savepoints[i] <= self.savepoints[j]
    }

    /// A transaction that has just begun.
    pub open spec fn begin() -> TxnView {
        TxnView { state: TxnState::Open, journal: Seq::empty(), savepoints: Seq::empty() }
    }

    /// Neither committed nor rolled back.
    pub open spec fn is_open(self) -> bool {
        self.state == TxnState::Open
    }

    /// After the engine accepted a change.
    pub open spec fn record(self, op: WriteOpView) -> TxnView {
        TxnView { journal: self.journal.push(op), ..self }
    }

    /// After the engine accepted these changes, first to last.
    pub open spec fn record_all(self, ops: Seq<WriteOpView>) -> TxnView {
        TxnView { journal: self.journal + ops, ..self }
    }

    /// Why a steering call is refused before the engine is asked, if it
    /// is: a finished transaction takes no call, and there is nothing to
    /// roll back to without a savepoint.
    pub open spec fn refusal(self, call: TxnCall) -> Option<ErrorKind> {
        if !self.is_open() {
            Some(ErrorKind::UnsupportedOperation)
        } else if call == TxnCall::RollbackToSavepoint && self.savepoints.len() == 0 {
            Some(ErrorKind::IOError)
        } else {
            None
        }
    }

    /// After the engine carried out a steering call.
    pub open spec fn after(self, call: TxnCall) -> TxnView {
        match call {
            TxnCall::Commit => TxnView {
                state: TxnState::Committed,
                journal: self.journal,
                savepoints: Seq::empty(),
            },
            TxnCall::Rollback => TxnView {
                state: TxnState::RolledBack,
                journal: Seq::empty(),
                savepoints: Seq::empty(),
            },
            TxnCall::SetSavepoint => TxnView {
                savepoints: self.savepoints.push(self.journal.len()),
                ..self
            },
            TxnCall::RollbackToSavepoint => TxnView {
                state: self.state,
                journal: self.journal.take(self.savepoints.last() as int),
                savepoints: self.savepoints.drop_last(),
            },
        }
    }

    /// A steering call that is not refused keeps the content well formed.
    pub proof fn lemma_after_wf(self, call: TxnCall)
        requires
            self.wf(),
            self.refusal(call).is_none(),
        ensures
            self.after(call).wf(),
    {
        let next = self.after(call);
        match call {
            TxnCall::RollbackToSavepoint => {
                let last = self.savepoints.len() - 1;
                assert forall|i: int| 0 <= i < next.savepoints.len() implies next.savepoints[i]
                    <= next.journal.len() by {
                    assert(self.savepoints[i] <= self.savepoints[last]);
                }
            },
            _ => {},
        }
    }

    /// Rolling back to a savepoint undoes exactly what was accepted since
    /// it was set: the transaction is again what it was just before.
    pub proof fn lemma_savepoint_rollback(self, later: Seq<WriteOpView>)
        requires
            self.wf(),
            self.is_open(),
        ensures
            self.after(TxnCall::SetSavepoint).record_all(later).refusal(
                TxnCall::RollbackToSavepoint,
            ).is_none(),
            self.after(TxnCall::SetSavepoint).record_all(later).after(TxnCall::RollbackToSavepoint)
                == self,
    {
        let marked = self.after(TxnCall::SetSavepoint);
        let grown = marked.record_all(later);
        let back = grown.after(TxnCall::RollbackToSavepoint);
        assert(grown.savepoints.last() == self.journal.len());
        assert(back.journal =~= self.journal);
        assert(back.savepoints =~= self.savepoints);
    }

    /// A finished transaction takes no steering call, whichever it is.
    pub proof fn lemma_finished_is_final(self, call: TxnCall)
        requires
            !self.is_open(),
        ensures
            self.refusal(call) == Some(ErrorKind::UnsupportedOperation),
    {
    }

    /// What a commit would apply after savepoint rollback: the changes
    /// from before the savepoint, and none of those after it.
    pub proof fn lemma_commit_after_savepoint_rollback(self, later: Seq<WriteOpView>)
        requires
            self.wf(),
            self.is_open(),
        ensures
            self.after(TxnCall::SetSavepoint).record_all(later).after(TxnCall::RollbackToSavepoint).after(
                TxnCall::Commit,
            ).journal == self.journal,
    {
        self.lemma_savepoint_rollback(later);
    }
}

/// A read that a transaction owes to the engine. A read for update also
/// locks the key until the transaction ends.
#[derive(Debug)]
pub struct TxnRead {
    pub call: ReadCall,
    pub for_update: bool,
}

/// What the decision on a transaction's read is: a finished transaction
/// reads nothing, a dead family is a `ColumnFamilyError`, and otherwise
/// the engine is asked for exactly this key.
pub open spec fn txn_read_decided(
    txn: TxnView,
    families: Families,
    family: Option<u64>,
    key: Seq<u8>,
    options: ReadOptions,
    for_update: bool,
    r: Result<TxnRead, Error>,
) -> bool {
    match r {
        Ok(read) => txn.is_open() && family_usable(families, family) && family_id(read.call.family)
            == family && read.call.key@ == key && read.call.options == options && read.for_update
            == for_update,
        Err(e) => e.spec_kind() == if !txn.is_open() {
            ErrorKind::UnsupportedOperation
        } else {
            ErrorKind::ColumnFamilyError
        } && (!txn.is_open() || !family_usable(families, family)),
    }
}

/// Why a transaction's write is refused before the engine is asked, if
/// it is.
pub open spec fn txn_write_refusal(
    txn: TxnView,
    families: Families,
    merge_registered: bool,
    kind: WriteKind,
    family: Option<u64>,
) -> Option<ErrorKind> {
    if !txn.is_open() {
        Some(ErrorKind::UnsupportedOperation)
    } else {
        write_refusal(families, merge_registered, kind, family)
    }
}

/// A transaction over a database, which it borrows for as long as it
/// exists.
#[derive(Debug)]
pub struct Transaction<'a> {
    db: &'a Db,
    write_options: WriteOptions,
    options: TransactionOptions,
    state: TxnState,
    journal: Vec<WriteOp>,
    savepoints: Vec<usize>,
}

impl<'a> View for Transaction<'a> {
    type V = TxnView;

    closed spec fn view(&self) -> TxnView {
        TxnView {
            state: self.state,
            journal: ops_view(self.journal@),
            savepoints: self.savepoints@.map_values(|n: usize| n as nat),
        }
    }
}

fn finished() -> (e: Error)
    ensures
        e.spec_kind() == ErrorKind::UnsupportedOperation,
{
    Error::with_kind(
        ErrorKind::UnsupportedOperation,
        "The transaction was committed or rolled back".to_owned(),
    )
}

impl<'a> Transaction<'a> {
    /// The transaction's invariant.
    pub closed spec fn wf(&self) -> bool {
        self@.wf() && self.db.wf()
    }

    /// The database's column families, in contracts.
    pub closed spec fn families(&self) -> Families {
        self.db.families()
    }

    /// Whether the database has a merge operator, in contracts.
    pub closed spec fn merge_registered(&self) -> bool {
        self.db.merge_registered()
    }

    /// The transaction's settings, in contracts.
    pub closed spec fn spec_options(&self) -> TransactionOptions {
        self.options
    }

    /// The settings of the transaction's writes, in contracts.
    pub closed spec fn spec_write_options(&self) -> WriteOptions {
        self.write_options
    }

    /// A transaction that has just begun on `db`.
    pub fn new(db: &'a Db, write_options: &WriteOptions, options: &TransactionOptions) -> (t: Self)
        requires
            db.wf(),
        ensures
            t.wf(),
            t@ == TxnView::begin(),
            t.families() == db.families(),
            t.merge_registered() == db.merge_registered(),
            t.spec_options() == *options,
            t.spec_write_options() == *write_options,
    {
        let t = Transaction {
            db,
            write_options: *write_options,
            options: *options,
            state: TxnState::Open,
            journal: Vec::new(),
            savepoints: Vec::new(),
        };
        assert(t@.journal =~= Seq::<WriteOpView>::empty());
        assert(t@.savepoints =~= Seq::<nat>::empty());
        t
    }

    /// Where the transaction stands.
    pub fn state(&self) -> (s: TxnState)
        ensures
            s == self@.state,
    {
        self.state
    }

    /// The settings that the transaction began with.
    pub fn options(&self) -> (o: TransactionOptions)
        ensures
            o == self.spec_options(),
    {
        self.options
    }

    /// The settings of the transaction's writes.
    pub fn write_options(&self) -> (o: WriteOptions)
        ensures
            o == self.spec_write_options(),
    {
        self.write_options
    }

    /// The number of changes accepted so far and not rolled back.
    pub fn pending(&self) -> (n: usize)
        ensures
            n == self@.journal.len(),
    {
        self.journal.len()
    }

    /// The number of savepoints that can be rolled back to.
    pub fn savepoint_depth(&self) -> (n: usize)
        ensures
            n == self@.savepoints.len(),
    {
        self.savepoints.len()
    }

    /// The snapshot that the engine captured when the transaction began,
    /// known to the engine under this identifier. Only an open
    /// transaction that was begun with snapshot capture has one.
    pub fn snapshot(&self, id: u64) -> (r: Result<Snapshot<'a>, Error>)
        requires
            self.wf(),
        ensures
            match r {
                Ok(s) => self@.is_open() && self.spec_options().set_snapshot && s@ == id
                    && s.families() == self.families() && s.wf(),
                Err(e) => e.spec_kind() == ErrorKind::UnsupportedOperation && !(self@.is_open()
                    && self.spec_options().set_snapshot),
            },
    {
        match self.state {
            TxnState::Open => {
                if self.options.set_snapshot {
                    Ok(Snapshot::new(self.db, id))
                } else {
                    Err(
                        Error::with_kind(
                            ErrorKind::UnsupportedOperation,
                            "The transaction was begun without a snapshot".to_owned(),
                        ),
                    )
                }
            },
            _ => Err(finished()),
        }
    }

    /// Decides a read, plain or for update.
    pub fn get_cf_full(
        &self,
        cf: Option<&ColumnFamily>,
        key: &[u8],
        readopts: Option<&ReadOptions>,
        for_update: bool,
    ) -> (r: Result<TxnRead, Error>)
        requires
            self.wf(),
        ensures
            txn_read_decided(
                self@,
                self.families(),
                family_ref_id(cf),
                key@,
                read_options_of(readopts),
                for_update,
                r,
            ),
    {
        match self.state {
            TxnState::Open => {},
            _ => {
                return Err(finished());
            },
        }
        match plan_read(self.db.column_families(), cf, key, readopts) {
            Ok(call) => Ok(TxnRead { call, for_update }),
            Err(e) => Err(e),
        }
    }

    /// Decides a plain read in the default family.
    pub fn get(&self, key: &[u8]) -> (r: Result<TxnRead, Error>)
        requires
            self.wf(),
        ensures
            txn_read_decided(
                self@,
                self.families(),
                None,
                key@,
                ReadOptions { snapshot: None },
                false,
                r,
            ),
    {
        self.get_cf_full(None, key, None, false)
    }

    /// Decides a read in the default family that locks the key.
    pub fn get_for_update(&self, key: &[u8]) -> (r: Result<TxnRead, Error>)
        requires
            self.wf(),
        ensures
            txn_read_decided(
                self@,
                self.families(),
                None,
                key@,
                ReadOptions { snapshot: None },
                true,
                r,
            ),
    {
        self.get_cf_full(None, key, None, true)
    }

    /// Decides a read in a column family that locks the key.
    pub fn get_for_update_cf(&self, cf: &ColumnFamily, key: &[u8]) -> (r: Result<TxnRead, Error>)
        requires
            self.wf(),
        ensures
            txn_read_decided(
                self@,
                self.families(),
                Some(cf@),
                key@,
                ReadOptions { snapshot: None },
                true,
                r,
            ),
    {
        self.get_cf_full(Some(cf), key, None, true)
    }

    /// Decides a change. Nothing is entered in the journal before the
    /// engine has accepted the change.
    pub fn write_cf_full(&self, kind: WriteKind, cf: Option<&ColumnFamily>, key: &[u8], value: &[u8]) -> (r:
        Result<WriteOp, Error>)
        requires
            self.wf(),
        ensures
            match r {
                Ok(op) => txn_write_refusal(
                    self@,
                    self.families(),
                    self.merge_registered(),
                    kind,
                    family_ref_id(cf),
                ).is_none() && op@ == (WriteOpView {
                    kind,
                    family: family_ref_id(cf),
                    key: key@,
                    value: value@,
                }),
                Err(e) => txn_write_refusal(
                    self@,
                    self.families(),
                    self.merge_registered(),
                    kind,
                    family_ref_id(cf),
                ) == Some(e.spec_kind()),
            },
    {
        match self.state {
            TxnState::Open => {},
            _ => {
                return Err(finished());
            },
        }
        match plan_write(
            self.db.column_families(),
            self.db.has_merge_operator(),
            kind,
            cf,
            key,
            value,
            None,
        ) {
            Ok(call) => Ok(call.op),
            Err(e) => Err(e),
        }
    }

    /// Takes up the engine's answer to a change: an accepted change goes
    /// to the end of the journal; a diagnostic is a failure of the kind
    /// that it names. A failure leaves the transaction as it was.
    pub fn record(&mut self, op: WriteOp, reply: Result<(), String>) -> (r: Result<(), Error>)
        requires
            old(self).wf(),
        ensures
            final(self).wf(),
            final(self).families() == old(self).families(),
            final(self).merge_registered() == old(self).merge_registered(),
            final(self).spec_options() == old(self).spec_options(),
            match r {
                Ok(_) => reply is Ok && old(self)@.is_open() && final(self)@ == old(self)@.record(
                    op@,
                ),
                Err(e) => final(self)@ == old(self)@ && match reply {
                    Err(message) => e.spec_message() == message@ && e.spec_kind() == kind_of(
                        message@,
                    ),
                    Ok(_) => !old(self)@.is_open() && e.spec_kind()
                        == ErrorKind::UnsupportedOperation,
                },
            },
    {
        match reply {
            Err(message) => {
                return Err(Error::new(message));
            },
            Ok(_) => {},
        }
        match self.state {
            TxnState::Open => {},
            _ => {
                return Err(finished());
            },
        }
        self.journal.push(op);
        proof {
            assert(final(self)@.journal =~= old(self)@.journal.push(op@));
        }
        Ok(())
    }

    /// Decides a steering call.
    pub fn control(&self, call: TxnCall) -> (r: Result<TxnCall, Error>)
        ensures
            match r {
                Ok(c) => c == call && self@.refusal(call).is_none(),
                Err(e) => self@.refusal(call) == Some(e.spec_kind()),
            },
    {
        match self.state {
            TxnState::Open => {},
            _ => {
                return Err(finished());
            },
        }
        let to_savepoint = match call {
            TxnCall::RollbackToSavepoint => true,
            _ => false,
        };
        if to_savepoint && self.savepoints.len() == 0 {
            return Err(Error::with_kind(ErrorKind::IOError, "NotFound: ".to_owned()));
        }
        Ok(call)
    }

    /// Decides a commit.
    pub fn commit(&self) -> (r: Result<TxnCall, Error>)
        ensures
            match r {
                Ok(c) => c == TxnCall::Commit && self@.is_open(),
                Err(e) => !self@.is_open() && e.spec_kind() == ErrorKind::UnsupportedOperation,
            },
    {
        self.control(TxnCall::Commit)
    }

    /// Decides a rollback of the whole transaction.
    pub fn rollback(&self) -> (r: Result<TxnCall, Error>)
        ensures
            match r {
                Ok(c) => c == TxnCall::Rollback && self@.is_open(),
                Err(e) => !self@.is_open() && e.spec_kind() == ErrorKind::UnsupportedOperation,
            },
    {
        self.control(TxnCall::Rollback)
    }

    /// Decides the setting of a savepoint.
    pub fn set_savepoint(&self) -> (r: Result<TxnCall, Error>)
        ensures
            match r {
                Ok(c) => c == TxnCall::SetSavepoint && self@.is_open(),
                Err(e) => !self@.is_open() && e.spec_kind() == ErrorKind::UnsupportedOperation,
            },
    {
        self.control(TxnCall::SetSavepoint)
    }

    /// Decides a rollback to the most recent savepoint.
    pub fn rollback_to_savepoint(&self) -> (r: Result<TxnCall, Error>)
        ensures
            match r {
                Ok(c) => c == TxnCall::RollbackToSavepoint && self@.refusal(
                    TxnCall::RollbackToSavepoint,
                ).is_none(),
                Err(e) => self@.refusal(TxnCall::RollbackToSavepoint) == Some(e.spec_kind()),
            },
    {
        self.control(TxnCall::RollbackToSavepoint)
    }

    /// Takes up the engine's answer to a steering call: on success the
    /// transaction moves on; a diagnostic is a failure of the kind that it
    /// names. A failure leaves the transaction as it was.
    pub fn settle(&mut self, call: TxnCall, reply: Result<(), String>) -> (r: Result<(), Error>)
        requires
            old(self).wf(),
        ensures
            final(self).wf(),
            final(self).families() == old(self).families(),
            final(self).merge_registered() == old(self).merge_registered(),
            final(self).spec_options() == old(self).spec_options(),
            match r {
                Ok(_) => reply is Ok && old(self)@.refusal(call).is_none() && final(self)@ == old(self)@.after(call),
                Err(e) => final(self)@ == old(self)@ && match reply {
                    Err(message) => e.spec_message() == message@ && e.spec_kind() == kind_of(
                        message@,
                    ),
                    Ok(_) => old(self)@.refusal(call) == Some(e.spec_kind()),
                },
            },
    {
        match reply {
            Err(message) => {
                return Err(Error::new(message));
            },
            Ok(_) => {},
        }
        match self.control(call) {
            Err(e) => {
                return Err(e);
            },
            Ok(_) => {},
        }
        proof {
            old(self)@.lemma_after_wf(call);
        }
        match call {
            TxnCall::Commit => {
                self.state = TxnState::Committed;
                self.savepoints.clear();
            },
            TxnCall::Rollback => {
                self.state = TxnState::RolledBack;
                self.journal.clear();
                self.savepoints.clear();
            },
            TxnCall::SetSavepoint => {
                let mark = self.journal.len();
                self.savepoints.push(mark);
            },
            TxnCall::RollbackToSavepoint => {
                let mark = self.savepoints.pop().unwrap();
                assert(mark as nat == old(self)@.savepoints.last());
                self.journal.truncate(mark);
            },
        }
        proof {
            assert(final(self)@.journal =~= old(self)@.after(call).journal);
            assert(final(self)@.savepoints =~= old(self)@.after(call).savepoints);
        }
        Ok(())
    }
}

} // verus!
