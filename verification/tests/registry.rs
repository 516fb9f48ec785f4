use rocksdb::capability::CreateColumnFamily;
use rocksdb::capability::DropColumnFamily;
use rocksdb::capability::GetColumnFamilies;
use rocksdb::capability::GetColumnFamily;
use rocksdb::capability::GetPinned;
use rocksdb::capability::GetPinnedCF;
use rocksdb::capability::GetPinnedCFOpt;
use rocksdb::capability::GetPinnedOpt;
use rocksdb::capability::Snapshotable;
use rocksdb::column_family::name_has_nul;
use rocksdb::column_family::ColumnFamilyRegistry;
use rocksdb::db::has_duplicate;
use rocksdb::db::open_ffi;
use rocksdb::db::Db;
use rocksdb::db::OpenCall;
use rocksdb::db::WriteBatch;
use rocksdb::error::ErrorKind;
use rocksdb::ops::WriteKind;
use rocksdb::options::BlockBasedOptions;
use rocksdb::options::Comparator;
use rocksdb::options::DbOptions;
use rocksdb::options::ReadOptions;
use rocksdb::options::SliceTransform;
use rocksdb::options::WriteOptions;

fn open_plain() -> Db {
    Db::build("path".to_string(), DbOptions::new(), Vec::new(), Ok(())).unwrap()
}

fn open_with_merge() -> Db {
    let mut options = DbOptions::new();
    options.set_merge_operator("test operator".to_string());
    Db::build("path".to_string(), options, Vec::new(), Ok(())).unwrap()
}

#[test]
fn registry_starts_empty() {
    let r = ColumnFamilyRegistry::new();
    assert_eq!(r.len(), 0);
    assert!(r.handle_for("cf1").is_none());
    assert_eq!(r.next_handle(), Some(0));
}

#[test]
fn registry_insert_then_lookup() {
    let mut r = ColumnFamilyRegistry::new();
    let h1 = r.insert("cf1").unwrap();
    let h2 = r.insert("cf2").unwrap();
    assert_eq!(h1.id(), 0);
    assert_eq!(h2.id(), 1);
    assert_eq!(r.len(), 2);
    assert_eq!(r.handle_for("cf1"), Some(&h1));
    assert_eq!(r.handle_for("cf2"), Some(&h2));
    assert!(r.handle_for("cf3").is_none());
    assert!(r.is_live(&h1));
    assert!(r.is_live(&h2));
}

#[test]
fn registry_refuses_duplicate_name() {
    let mut r = ColumnFamilyRegistry::new();
    r.insert("cf1").unwrap();
    let e = r.insert("cf1").unwrap_err();
    assert_eq!(e.kind(), ErrorKind::ColumnFamilyError);
    assert_eq!(e.description(), "Column family already exists: cf1");
    assert_eq!(r.len(), 1);
    assert_eq!(r.next_handle(), Some(1));
}

#[test]
fn registry_remove_unknown_name() {
    let mut r = ColumnFamilyRegistry::new();
    let e = r.remove("nope").unwrap_err();
    assert_eq!(e.kind(), ErrorKind::ColumnFamilyError);
    assert_eq!(e.description(), "Invalid column family: nope");
}

#[test]
fn dropped_handle_stays_dead() {
    let mut r = ColumnFamilyRegistry::new();
    let old = r.insert("cf1").unwrap();
    let other = r.insert("cf2").unwrap();
    let dropped = r.remove("cf1").unwrap();
    assert_eq!(dropped, old);
    assert!(!r.is_live(&old));
    assert!(r.is_live(&other));
    let fresh = r.insert("cf1").unwrap();
    assert_eq!(fresh.id(), 2);
    assert!(r.is_live(&fresh));
    assert!(!r.is_live(&old));
    r.remove("cf2").unwrap();
    r.insert("cf3").unwrap();
    assert!(!r.is_live(&old));
    assert!(!r.is_live(&other));
}

#[test]
fn zero_byte_in_name() {
    assert!(!name_has_nul("cf1"));
    assert!(!name_has_nul(""));
    assert!(name_has_nul("c\0f"));
    assert!(name_has_nul("\0"));
}

#[test]
fn open_picks_the_call() {
    assert_eq!(open_ffi("path", &Vec::new()).unwrap(), OpenCall::Plain);
    let names = vec!["default".to_string(), "cf1".to_string()];
    assert_eq!(open_ffi("path", &names).unwrap(), OpenCall::WithFamilies);
}

#[test]
fn open_refuses_zero_bytes() {
    let e = open_ffi("pa\0th", &Vec::new()).unwrap_err();
    assert_eq!(e.kind(), ErrorKind::OpenError);
    let names = vec!["default".to_string(), "c\0f".to_string()];
    let e = open_ffi("path", &names).unwrap_err();
    assert_eq!(e.kind(), ErrorKind::ColumnFamilyError);
    let e = open_ffi("pa\0th", &names).unwrap_err();
    assert_eq!(e.kind(), ErrorKind::OpenError);
}

#[test]
fn open_refuses_a_name_twice() {
    let names = vec!["cf1".to_string(), "cf2".to_string(), "cf1".to_string()];
    assert!(has_duplicate(&names));
    let e = open_ffi("path", &names).unwrap_err();
    assert_eq!(e.kind(), ErrorKind::ColumnFamilyError);
    let names = vec!["cf1".to_string(), "cf2".to_string(), "cf3".to_string()];
    assert!(!has_duplicate(&names));
    assert!(!has_duplicate(&Vec::new()));
    assert!(has_duplicate(&vec!["a".to_string(), "a".to_string()]));
}

#[test]
fn build_after_a_missing_family() {
    let reply = Err("Invalid argument: Column family not found: cf9".to_string());
    let names = vec!["default".to_string(), "cf9".to_string()];
    let e = Db::build("p".to_string(), DbOptions::new(), names, reply).unwrap_err();
    assert_eq!(e.kind(), ErrorKind::ColumnFamilyError);
    assert_eq!(e.description(), "Invalid argument: Column family not found: cf9");
}

#[test]
fn snapshots_through_the_capability() {
    let db = open_plain();
    let s = Snapshotable::snapshot(&db, 5);
    assert_eq!(s.const_handle(), 5);
    let call = s.get_cf_full(None, b"k1", None).unwrap();
    assert_eq!(call.options.snapshot, Some(5));
    assert_eq!(s.release(), 5);
}

#[test]
fn block_based_tables() {
    let mut table = BlockBasedOptions::new();
    table.set_block_size(16384);
    let mut options = DbOptions::new();
    assert!(options.block_based.is_none());
    options.set_block_based_table_factory(&table);
    assert_eq!(options.block_based.unwrap().block_size, 16384);
    options.set_prefix_extractor(SliceTransform { name: "first three".to_string() });
    assert_eq!(options.prefix_extractor.unwrap().name, "first three");
}

#[test]
fn build_enters_the_families_in_order() {
    let names = vec!["default".to_string(), "cf1".to_string(), "cf2".to_string()];
    let db = Db::build("some/path".to_string(), DbOptions::new(), names, Ok(())).unwrap();
    assert_eq!(db.path(), "some/path");
    assert_eq!(db.handle_for("default").unwrap().id(), 0);
    assert_eq!(db.handle_for("cf1").unwrap().id(), 1);
    assert_eq!(db.handle_for("cf2").unwrap().id(), 2);
    assert!(db.handle_for("cf3").is_none());
    assert_eq!(db.column_families().len(), 3);
    assert!(!db.has_merge_operator());
}

#[test]
fn build_refuses_duplicate_names() {
    let names = vec!["cf1".to_string(), "cf2".to_string(), "cf1".to_string()];
    let e = Db::build("p".to_string(), DbOptions::new(), names, Ok(())).unwrap_err();
    assert_eq!(e.kind(), ErrorKind::ColumnFamilyError);
}

#[test]
fn build_after_failed_open() {
    let reply = Err("IO error: While lock file: p/LOCK: Resource temporarily unavailable".to_string());
    let e = Db::build("p".to_string(), DbOptions::new(), Vec::new(), reply).unwrap_err();
    assert_eq!(e.kind(), ErrorKind::OpenError);
    assert_eq!(
        e.description(),
        "IO error: While lock file: p/LOCK: Resource temporarily unavailable"
    );
}

#[test]
fn build_keeps_what_was_registered() {
    let mut options = DbOptions::new();
    options.create_if_missing(true);
    options.set_max_open_files(10000);
    options.set_comparator(Comparator { name: "reverse".to_string() });
    options.set_merge_operator("test operator".to_string());
    assert!(options.create_if_missing);
    assert_eq!(options.max_open_files, 10000);
    let db = Db::build("p".to_string(), options, Vec::new(), Ok(())).unwrap();
    assert!(db.has_merge_operator());
    assert_eq!(db.comparator().unwrap().name, "reverse");
    assert!(db.prefix_extractor().is_none());
}

#[test]
fn create_then_drop_column_family() {
    let mut db = open_plain();
    Db::create_cf(&db, "cf1").unwrap();
    let h = db.finish_create_cf("cf1", Ok(())).unwrap();
    assert_eq!(db.handle_for("cf1"), Some(&h));
    let e = Db::create_cf(&db, "cf1").unwrap_err();
    assert_eq!(e.kind(), ErrorKind::ColumnFamilyError);
    let e = Db::create_cf(&db, "c\0f").unwrap_err();
    assert_eq!(e.kind(), ErrorKind::ColumnFamilyError);
    assert_eq!(
        e.description(),
        "Failed to convert path to CString when creating cf: c\0f"
    );
    let dropped = Db::drop_cf(&mut db, "cf1").unwrap();
    assert_eq!(dropped, h);
    assert!(db.handle_for("cf1").is_none());
    let e = Db::drop_cf(&mut db, "cf1").unwrap_err();
    assert_eq!(e.description(), "Invalid column family: cf1");
}

#[test]
fn create_refused_by_the_engine() {
    let mut db = open_plain();
    let e = db
        .finish_create_cf("cf1", Err("IO error: No space left on device".to_string()))
        .unwrap_err();
    assert_eq!(e.kind(), ErrorKind::IOError);
    assert_eq!(e.description(), "IO error: No space left on device");
    assert!(db.handle_for("cf1").is_none());
}

#[test]
fn operations_on_a_dropped_family_fail() {
    let mut db = open_with_merge();
    let h = db.finish_create_cf("cf1", Ok(())).unwrap();
    assert!(db.get_cf_full(Some(&h), b"k1", None).is_ok());
    Db::drop_cf(&mut db, "cf1").unwrap();
    let e = db.get_cf_full(Some(&h), b"k1", None).unwrap_err();
    assert_eq!(e.kind(), ErrorKind::ColumnFamilyError);
    for kind in [WriteKind::Put, WriteKind::Delete, WriteKind::Merge] {
        let e = db.write_cf_full(kind, Some(&h), b"k1", b"v1", None).unwrap_err();
        assert_eq!(e.kind(), ErrorKind::ColumnFamilyError);
    }
    let e = db.get_raw_iter_cf(&h, &ReadOptions::new()).unwrap_err();
    assert_eq!(e.kind(), ErrorKind::ColumnFamilyError);
    let e = db.get_pinned_cf(&h, b"k1").unwrap_err();
    assert_eq!(e.kind(), ErrorKind::ColumnFamilyError);
    let mut batch = WriteBatch::new();
    batch.put(b"k0", b"v0");
    batch.push(WriteKind::Put, Some(&h), b"k1", b"v1");
    let e = db.write_full(batch, None).unwrap_err();
    assert_eq!(e.kind(), ErrorKind::ColumnFamilyError);
    let fresh = db.finish_create_cf("cf1", Ok(())).unwrap();
    assert!(db.get_cf_full(Some(&fresh), b"k1", None).is_ok());
    assert!(db.get_cf_full(Some(&h), b"k1", None).is_err());
}

#[test]
fn read_decision_carries_key_and_options() {
    let db = open_plain();
    let call = db.get_cf_full(None, b"my key", None).unwrap();
    assert_eq!(call.family, None);
    assert_eq!(call.key, b"my key".to_vec());
    assert_eq!(call.options.snapshot, None);
    let ro = ReadOptions { snapshot: Some(7) };
    let call = db.get_cf_full(None, b"k", Some(&ro)).unwrap();
    assert_eq!(call.options.snapshot, Some(7));
}

#[test]
fn write_decision_carries_the_change() {
    let mut db = open_plain();
    let h = db.finish_create_cf("cf1", Ok(())).unwrap();
    let call = db.write_cf_full(WriteKind::Put, Some(&h), b"k1", b"v1", None).unwrap();
    assert_eq!(call.op.kind, WriteKind::Put);
    assert_eq!(call.op.family, Some(h));
    assert_eq!(call.op.key, b"k1".to_vec());
    assert_eq!(call.op.value, b"v1".to_vec());
    assert!(!call.options.sync);
    assert!(!call.options.disable_wal);
    let mut wo = WriteOptions::new();
    wo.set_sync(true);
    wo.disable_wal(true);
    let call = db.write_cf_full(WriteKind::Delete, None, b"k1", b"", Some(&wo)).unwrap();
    assert_eq!(call.op.kind, WriteKind::Delete);
    assert!(call.options.sync);
    assert!(call.options.disable_wal);
}

#[test]
fn merge_needs_an_operator() {
    let db = open_plain();
    let e = db.write_cf_full(WriteKind::Merge, None, b"k", b"b", None).unwrap_err();
    assert_eq!(e.kind(), ErrorKind::UnsupportedOperation);
    let db = open_with_merge();
    let call = db.write_cf_full(WriteKind::Merge, None, b"k", b"b", None).unwrap();
    assert_eq!(call.op.kind, WriteKind::Merge);
    assert_eq!(call.op.value, b"b".to_vec());
}

#[test]
fn batch_keeps_the_order() {
    let db = open_with_merge();
    let mut batch = WriteBatch::new();
    batch.put(b"my key", b"my value");
    batch.delete(b"key2");
    batch.merge(b"key3", b"value3");
    assert_eq!(batch.len(), 3);
    let call = db.write_full(batch, None).unwrap();
    assert_eq!(call.ops.len(), 3);
    assert_eq!(call.ops[0].kind, WriteKind::Put);
    assert_eq!(call.ops[0].key, b"my key".to_vec());
    assert_eq!(call.ops[0].value, b"my value".to_vec());
    assert_eq!(call.ops[1].kind, WriteKind::Delete);
    assert_eq!(call.ops[1].key, b"key2".to_vec());
    assert!(call.ops[1].value.is_empty());
    assert_eq!(call.ops[2].kind, WriteKind::Merge);
    assert!(!call.options.sync);
}

#[test]
fn batch_with_merge_and_no_operator() {
    let db = open_plain();
    let mut batch = WriteBatch::new();
    batch.put(b"k1", b"v1");
    batch.merge(b"k1", b"v2");
    let e = db.write_full(batch, None).unwrap_err();
    assert_eq!(e.kind(), ErrorKind::UnsupportedOperation);
}

#[test]
fn empty_batch_is_applied() {
    let db = open_plain();
    let call = db.write_full(WriteBatch::new(), None).unwrap();
    assert!(call.ops.is_empty());
}

#[test]
fn capabilities_agree_with_the_database() {
    let mut db = open_plain();
    CreateColumnFamily::create_cf(&db, "cf1").unwrap();
    let h = CreateColumnFamily::finish_create_cf(&mut db, "cf1", Ok(())).unwrap();
    assert_eq!(db.cf_handle("cf1"), Some(&h));
    assert!(db.cf_handle("cf2").is_none());
    assert_eq!(db.get_cfs().len(), 1);
    let call = db.get_pinned(b"k1").unwrap();
    assert_eq!(call.family, None);
    assert_eq!(call.key, b"k1".to_vec());
    assert_eq!(call.options.snapshot, None);
    let ro = ReadOptions { snapshot: Some(3) };
    let call = db.get_pinned_opt(b"k1", &ro).unwrap();
    assert_eq!(call.options.snapshot, Some(3));
    let call = db.get_pinned_cf(&h, b"k1").unwrap();
    assert_eq!(call.family, Some(h));
    let call = db.get_pinned_cf_opt(&h, b"k2", &ro).unwrap();
    assert_eq!(call.key, b"k2".to_vec());
    assert_eq!(call.options.snapshot, Some(3));
    let dropped = DropColumnFamily::drop_cf(&mut db, "cf1").unwrap();
    assert_eq!(dropped, h);
    assert!(db.cf_handle("cf1").is_none());
    let h2 = db.get_mut_cfs().insert("cf2").unwrap();
    assert_eq!(h2.id(), 1);
    assert_eq!(db.cf_handle("cf2"), Some(&h2));
    assert!(db.get_cf_full(Some(&h2), b"k", None).is_ok());
    assert!(db.get_cf_full(Some(&h), b"k", None).is_err());
}
