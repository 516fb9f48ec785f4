use rocksdb::error::ErrorKind;
use rocksdb::ops::WriteKind;
use rocksdb::options::BlockBasedOptions;
use rocksdb::options::DbOptions;
use rocksdb::options::TransactionDBOptions;
use rocksdb::options::TransactionOptions;
use rocksdb::options::WriteOptions;
use rocksdb::transaction::lock_wait;
use rocksdb::transaction::LockWait;
use rocksdb::transaction::Transaction;
use rocksdb::transaction::TxnCall;
use rocksdb::transaction::TxnState;
use rocksdb::transaction_db::TransactionDB;

fn open(merge: bool) -> TransactionDB {
    let mut options = DbOptions::new();
    options.create_if_missing(true);
    if merge {
        options.set_merge_operator("test operator".to_string());
    }
    TransactionDB::build(
        "path".to_string(),
        options,
        TransactionDBOptions::new(),
        Vec::new(),
        Ok(()),
    )
    .unwrap()
}

fn accept(t: &mut Transaction, kind: WriteKind, key: &[u8], value: &[u8]) {
    let op = t.write_cf_full(kind, None, key, value).unwrap();
    t.record(op, Ok(())).unwrap();
}

fn carry_out(t: &mut Transaction, call: TxnCall) {
    t.settle(call, Ok(())).unwrap();
}

#[test]
fn transaction_database_defaults() {
    let o = TransactionDBOptions::new();
    assert_eq!(o.max_num_locks, -1);
    assert_eq!(o.num_stripes, 16);
    assert_eq!(o.transaction_lock_timeout, 1000);
    assert_eq!(o.default_lock_timeout, 1000);
}

#[test]
fn transaction_database_setters() {
    let mut o = TransactionDBOptions::new();
    o.set_default_lock_timeout(0);
    o.set_max_num_locks(100);
    o.set_num_stripes(4);
    o.set_transaction_lock_timeout(-1);
    assert_eq!(o.default_lock_timeout, 0);
    assert_eq!(o.max_num_locks, 100);
    assert_eq!(o.num_stripes, 4);
    assert_eq!(o.transaction_lock_timeout, -1);
}

#[test]
fn transaction_defaults_and_setters() {
    let mut o = TransactionOptions::new();
    assert!(!o.set_snapshot);
    assert!(!o.deadlock_detect);
    assert_eq!(o.lock_timeout, -1);
    assert_eq!(o.expiration, -1);
    assert_eq!(o.deadlock_detect_depth, 50);
    assert_eq!(o.max_write_batch_size, 0);
    o.set_snapshot(true);
    o.set_deadlock_detect(true);
    o.set_deadlock_detect_depth(10);
    o.set_expiration(5000);
    o.set_lock_timeout(20);
    o.set_max_write_batch_size(1024);
    assert!(o.set_snapshot);
    assert!(o.deadlock_detect);
    assert_eq!(o.deadlock_detect_depth, 10);
    assert_eq!(o.expiration, 5000);
    assert_eq!(o.lock_timeout, 20);
    assert_eq!(o.max_write_batch_size, 1024);
}

#[test]
fn other_defaults() {
    let b = BlockBasedOptions::new();
    assert_eq!(b.block_size, 4096);
    assert!(!b.cache_index_and_filter_blocks);
    let mut b = b;
    b.set_block_size(8192);
    b.set_cache_index_and_filter_blocks(true);
    assert_eq!(b.block_size, 8192);
    assert!(b.cache_index_and_filter_blocks);
    let d = DbOptions::new();
    assert!(!d.create_if_missing);
    assert_eq!(d.max_open_files, -1);
    assert!(d.merge_operator.is_none());
    let w = WriteOptions::new();
    assert!(!w.sync);
    assert!(!w.disable_wal);
}

#[test]
fn defaults_through_the_trait() {
    let d: TransactionDBOptions = Default::default();
    assert_eq!(d.default_lock_timeout, 1000);
    assert_eq!(d.num_stripes, 16);
    let t = TransactionOptions::default();
    assert_eq!(t.deadlock_detect_depth, 50);
    assert_eq!(t.lock_timeout, -1);
    assert!(!WriteOptions::default().sync);
    assert!(rocksdb::options::ReadOptions::default().snapshot.is_none());
    assert_eq!(DbOptions::default().max_open_files, -1);
}

#[test]
fn lock_waits() {
    assert_eq!(lock_wait(0), LockWait::Immediate);
    assert_eq!(lock_wait(-1), LockWait::Unbounded);
    assert_eq!(lock_wait(1000), LockWait::UpTo(1000));
    let mut d = TransactionDBOptions::new();
    d.set_default_lock_timeout(0);
    d.set_transaction_lock_timeout(250);
    let db = TransactionDB::build("p".to_string(), DbOptions::new(), d, Vec::new(), Ok(())).unwrap();
    assert_eq!(db.write_lock_wait(), LockWait::Immediate);
    let mut t = TransactionOptions::new();
    assert_eq!(db.transaction_lock_wait(&t), LockWait::UpTo(250));
    t.set_lock_timeout(0);
    assert_eq!(db.transaction_lock_wait(&t), LockWait::Immediate);
    t.set_lock_timeout(40);
    assert_eq!(db.transaction_lock_wait(&t), LockWait::UpTo(40));
    assert_eq!(open(false).write_lock_wait(), LockWait::UpTo(1000));
}

#[test]
fn outside_writes_never_wait_without_limit() {
    let mut d = TransactionDBOptions::new();
    d.set_default_lock_timeout(-1);
    assert_eq!(d.for_engine().default_lock_timeout, 0);
    assert_eq!(d.for_engine().transaction_lock_timeout, 1000);
    assert_eq!(d.for_engine().num_stripes, 16);
    assert_eq!(d.for_engine().max_num_locks, -1);
    let db = TransactionDB::build("p".to_string(), DbOptions::new(), d, Vec::new(), Ok(())).unwrap();
    assert_eq!(db.write_lock_wait(), LockWait::Immediate);
    let mut d = TransactionDBOptions::new();
    d.set_default_lock_timeout(30);
    assert_eq!(d.for_engine().default_lock_timeout, 30);
    d.set_transaction_lock_timeout(-1);
    assert_eq!(d.for_engine().transaction_lock_timeout, -1);
    let db = TransactionDB::build("p".to_string(), DbOptions::new(), d, Vec::new(), Ok(())).unwrap();
    assert_eq!(db.write_lock_wait(), LockWait::UpTo(30));
    assert_eq!(db.transaction_lock_wait(&TransactionOptions::new()), LockWait::Unbounded);
}

#[test]
fn transaction_begins_open_and_empty() {
    let db = open(false);
    let mut topts = TransactionOptions::new();
    topts.set_lock_timeout(5);
    let mut wopts = WriteOptions::new();
    wopts.set_sync(true);
    let t = db.transaction(&wopts, &topts);
    assert_eq!(t.state(), TxnState::Open);
    assert_eq!(t.pending(), 0);
    assert_eq!(t.savepoint_depth(), 0);
    assert_eq!(t.options().lock_timeout, 5);
    assert!(t.write_options().sync);
}

#[test]
fn savepoint_rollback_discards_later_changes() {
    let db = open(false);
    let mut t = db.transaction(&WriteOptions::new(), &TransactionOptions::new());
    accept(&mut t, WriteKind::Delete, b"k1", b"");
    let call = t.set_savepoint().unwrap();
    assert_eq!(call, TxnCall::SetSavepoint);
    carry_out(&mut t, call);
    assert_eq!(t.savepoint_depth(), 1);
    accept(&mut t, WriteKind::Put, b"k2", b"v2");
    assert_eq!(t.pending(), 2);
    let call = t.rollback_to_savepoint().unwrap();
    assert_eq!(call, TxnCall::RollbackToSavepoint);
    carry_out(&mut t, call);
    assert_eq!(t.pending(), 1);
    assert_eq!(t.savepoint_depth(), 0);
    let call = t.commit().unwrap();
    carry_out(&mut t, call);
    assert_eq!(t.state(), TxnState::Committed);
    assert_eq!(t.pending(), 1);
}

#[test]
fn nested_savepoints_unwind_in_order() {
    let db = open(false);
    let mut t = db.transaction(&WriteOptions::new(), &TransactionOptions::new());
    accept(&mut t, WriteKind::Put, b"a", b"1");
    carry_out(&mut t, TxnCall::SetSavepoint);
    accept(&mut t, WriteKind::Put, b"b", b"2");
    accept(&mut t, WriteKind::Put, b"c", b"3");
    carry_out(&mut t, TxnCall::SetSavepoint);
    accept(&mut t, WriteKind::Put, b"d", b"4");
    assert_eq!(t.pending(), 4);
    assert_eq!(t.savepoint_depth(), 2);
    carry_out(&mut t, TxnCall::RollbackToSavepoint);
    assert_eq!(t.pending(), 3);
    assert_eq!(t.savepoint_depth(), 1);
    carry_out(&mut t, TxnCall::RollbackToSavepoint);
    assert_eq!(t.pending(), 1);
    assert_eq!(t.savepoint_depth(), 0);
}

#[test]
fn rollback_without_savepoint() {
    let db = open(false);
    let mut t = db.transaction(&WriteOptions::new(), &TransactionOptions::new());
    let e = t.rollback_to_savepoint().unwrap_err();
    assert_eq!(e.kind(), ErrorKind::IOError);
    assert_eq!(e.description(), "NotFound: ");
    let e = t.settle(TxnCall::RollbackToSavepoint, Ok(())).unwrap_err();
    assert_eq!(e.kind(), ErrorKind::IOError);
    assert_eq!(t.state(), TxnState::Open);
}

#[test]
fn finished_transaction_takes_nothing() {
    let db = open(true);
    let mut t = db.transaction(&WriteOptions::new(), &TransactionOptions::new());
    accept(&mut t, WriteKind::Put, b"k1", b"v1");
    let call = t.commit().unwrap();
    carry_out(&mut t, call);
    assert_eq!(t.state(), TxnState::Committed);
    for call in [
        TxnCall::Commit,
        TxnCall::Rollback,
        TxnCall::SetSavepoint,
        TxnCall::RollbackToSavepoint,
    ] {
        assert_eq!(t.control(call).unwrap_err().kind(), ErrorKind::UnsupportedOperation);
        assert_eq!(t.settle(call, Ok(())).unwrap_err().kind(), ErrorKind::UnsupportedOperation);
    }
    assert_eq!(t.get(b"k1").unwrap_err().kind(), ErrorKind::UnsupportedOperation);
    assert_eq!(t.get_for_update(b"k1").unwrap_err().kind(), ErrorKind::UnsupportedOperation);
    for kind in [WriteKind::Put, WriteKind::Delete, WriteKind::Merge] {
        let e = t.write_cf_full(kind, None, b"k", b"v").unwrap_err();
        assert_eq!(e.kind(), ErrorKind::UnsupportedOperation);
    }
    assert_eq!(t.state(), TxnState::Committed);
    assert_eq!(t.pending(), 1);
}

#[test]
fn rollback_empties_the_journal() {
    let db = open(false);
    let mut t = db.transaction(&WriteOptions::new(), &TransactionOptions::new());
    accept(&mut t, WriteKind::Delete, b"k1", b"");
    carry_out(&mut t, TxnCall::SetSavepoint);
    let call = t.rollback().unwrap();
    assert_eq!(call, TxnCall::Rollback);
    carry_out(&mut t, call);
    assert_eq!(t.state(), TxnState::RolledBack);
    assert_eq!(t.pending(), 0);
    assert_eq!(t.savepoint_depth(), 0);
    assert!(t.commit().is_err());
}

#[test]
fn refused_change_is_not_journaled() {
    let db = open(false);
    let mut t = db.transaction(&WriteOptions::new(), &TransactionOptions::new());
    let op = t.write_cf_full(WriteKind::Put, None, b"k2", b"v6").unwrap();
    assert_eq!(op.key, b"k2".to_vec());
    assert_eq!(op.value, b"v6".to_vec());
    let e = t
        .record(op, Err("Operation timed out: Timeout waiting to lock key".to_string()))
        .unwrap_err();
    assert_eq!(e.kind(), ErrorKind::LockConflict);
    assert_eq!(t.pending(), 0);
    assert_eq!(t.state(), TxnState::Open);
    let call = t.commit().unwrap();
    carry_out(&mut t, call);
    assert_eq!(t.state(), TxnState::Committed);
}

#[test]
fn failed_commit_leaves_the_transaction_open() {
    let db = open(false);
    let mut t = db.transaction(&WriteOptions::new(), &TransactionOptions::new());
    accept(&mut t, WriteKind::Put, b"k1", b"v1");
    let e = t.settle(TxnCall::Commit, Err("Resource busy: ".to_string())).unwrap_err();
    assert_eq!(e.kind(), ErrorKind::LockConflict);
    assert_eq!(t.state(), TxnState::Open);
    assert_eq!(t.pending(), 1);
    let e = t
        .settle(TxnCall::Commit, Err("Operation expired: Transaction expired".to_string()))
        .unwrap_err();
    assert_eq!(e.kind(), ErrorKind::Expired);
    let e = t.settle(TxnCall::Commit, Err("Resource busy: Deadlock".to_string())).unwrap_err();
    assert_eq!(e.kind(), ErrorKind::Deadlock);
    carry_out(&mut t, TxnCall::Rollback);
    assert_eq!(t.state(), TxnState::RolledBack);
}

#[test]
fn transaction_reads() {
    let mut db = open(false);
    let cf1 = db.finish_create_cf("cf1", Ok(())).unwrap();
    let t = db.transaction(&WriteOptions::new(), &TransactionOptions::new());
    let read = t.get(b"k1").unwrap();
    assert!(!read.for_update);
    assert_eq!(read.call.key, b"k1".to_vec());
    assert_eq!(read.call.family, None);
    let read = t.get_for_update(b"k1").unwrap();
    assert!(read.for_update);
    let read = t.get_for_update_cf(&cf1, b"k1").unwrap();
    assert!(read.for_update);
    assert_eq!(read.call.family, Some(cf1));
}

#[test]
fn transaction_on_a_dropped_family() {
    let mut db = open(false);
    let cf1 = db.finish_create_cf("cf1", Ok(())).unwrap();
    db.drop_cf("cf1").unwrap();
    let t = db.transaction(&WriteOptions::new(), &TransactionOptions::new());
    assert_eq!(
        t.get_for_update_cf(&cf1, b"k1").unwrap_err().kind(),
        ErrorKind::ColumnFamilyError
    );
    let e = t.write_cf_full(WriteKind::Put, Some(&cf1), b"k1", b"v1").unwrap_err();
    assert_eq!(e.kind(), ErrorKind::ColumnFamilyError);
}

#[test]
fn transaction_merge_needs_an_operator() {
    let db = open(false);
    let t = db.transaction(&WriteOptions::new(), &TransactionOptions::new());
    let e = t.write_cf_full(WriteKind::Merge, None, b"k1", b"b").unwrap_err();
    assert_eq!(e.kind(), ErrorKind::UnsupportedOperation);
    let db = open(true);
    let mut t = db.transaction(&WriteOptions::new(), &TransactionOptions::new());
    accept(&mut t, WriteKind::Put, b"k1", b"a");
    accept(&mut t, WriteKind::Merge, b"k1", b"b");
    accept(&mut t, WriteKind::Merge, b"k1", b"c");
    assert_eq!(t.pending(), 3);
}

#[test]
fn transaction_snapshot_needs_capture() {
    let db = open(false);
    let t = db.transaction(&WriteOptions::new(), &TransactionOptions::new());
    assert_eq!(t.snapshot(3).unwrap_err().kind(), ErrorKind::UnsupportedOperation);
    let mut topts = TransactionOptions::new();
    topts.set_snapshot(true);
    let mut t = db.transaction(&WriteOptions::new(), &topts);
    {
        let s = t.snapshot(3).unwrap();
        assert_eq!(s.const_handle(), 3);
        let call = s.get_cf_full(None, b"k1", None).unwrap();
        assert_eq!(call.options.snapshot, Some(3));
    }
    carry_out(&mut t, TxnCall::Commit);
    assert_eq!(t.snapshot(3).unwrap_err().kind(), ErrorKind::UnsupportedOperation);
}

#[test]
fn transactional_database_decisions() {
    let mut db = open(false);
    assert_eq!(db.path(), "path");
    db.create_cf("cf1").unwrap();
    let cf1 = db.finish_create_cf("cf1", Ok(())).unwrap();
    assert_eq!(db.handle_for("cf1"), Some(&cf1));
    let call = db.put_cf_full(Some(&cf1), b"k1", b"v1", None).unwrap();
    assert_eq!(call.op.kind, WriteKind::Put);
    assert_eq!(call.op.family, Some(cf1));
    assert_eq!(call.op.value, b"v1".to_vec());
    let call = db.delete_cf_full(None, b"k1", None).unwrap();
    assert_eq!(call.op.kind, WriteKind::Delete);
    assert!(call.op.value.is_empty());
    let e = db.merge_cf_full(None, b"k1", b"b", None).unwrap_err();
    assert_eq!(e.kind(), ErrorKind::UnsupportedOperation);
    let call = db.get_cf_full(Some(&cf1), b"k1", None).unwrap();
    assert_eq!(call.family, Some(cf1));
    let dropped = db.drop_cf("cf1").unwrap();
    assert_eq!(dropped, cf1);
    assert_eq!(
        db.put_cf_full(Some(&cf1), b"k1", b"v2", None).unwrap_err().kind(),
        ErrorKind::ColumnFamilyError
    );
}
