//! The database: the single door through which column families, reads,
//! writes, snapshots and cursors are reached.

use vstd::prelude::*;
use vstd::string::StringExecFns;
use vstd::slice::slice_to_vec;
use crate::column_family::has_nul;
use crate::column_family::name_has_nul;
use crate::column_family::ColumnFamily;
use crate::column_family::ColumnFamilyRegistry;
use crate::column_family::Families;
use crate::error::classify;
use crate::error::kind_of;
use crate::error::Error;
use crate::error::ErrorKind;
use crate::iterator::CursorView;
use crate::iterator::DbRawIterator;
use crate::ops::check_family;
use crate::ops::family_ref_id;
use crate::ops::plan_read;
use crate::ops::plan_write;
use crate::ops::read_decided;
use crate::ops::read_options_of;
use crate::ops::write_decided;
use crate::ops::write_options_of;
use crate::ops::write_refusal;
use crate::ops::ReadCall;
use crate::ops::WriteCall;
use crate::ops::WriteKind;
use crate::ops::WriteOp;
use crate::ops::WriteOpView;
use crate::options::Comparator;
use crate::options::DbOptions;
use crate::options::ReadOptions;
use crate::options::SliceTransform;
use crate::options::WriteOptions;
use crate::snapshot::Snapshot;

verus! {

/// The content of a sequence of changes.
pub open spec fn ops_view(ops: Seq<WriteOp>) -> Seq<WriteOpView> {
    ops.map_values(|op: WriteOp| op@)
}

/// The content of a list of names.
pub open spec fn names_view(names: Seq<String>) -> Seq<Seq<char>> {
    names.map_values(|s: String| s@)
}

/// An ordered sequence of changes that is applied as one.
#[derive(Debug)]
pub struct WriteBatch {
    ops: Vec<WriteOp>,
}

impl View for WriteBatch {
    type V = Seq<WriteOpView>;

    closed spec fn view(&self) -> Seq<WriteOpView> {
        ops_view(self.ops@)
    }
}

impl WriteBatch {
    /// A batch without changes.
    pub fn new() -> (b: WriteBatch)
        ensures
            b@ == Seq::<WriteOpView>::empty(),
    {
        let b = WriteBatch { ops: Vec::new() };
        assert(b@ =~= Seq::<WriteOpView>::empty());
        b
    }

    /// The number of changes.
    pub fn len(&self) -> (n: usize)
        ensures
            n == self@.len(),
    {
        self.ops.len()
    }

    /// Adds a change at the end.
    pub fn push(&mut self, kind: WriteKind, cf: Option<&ColumnFamily>, key: &[u8], value: &[u8])
        ensures
            final(self)@ == old(self)@.push(
                WriteOpView { kind, family: family_ref_id(cf), key: key@, value: value@ },
            ),
    {
        let family = match cf {
            Some(h) => Some(*h),
            None => None,
        };
        self.ops.push(WriteOp { kind, family, key: slice_to_vec(key), value: slice_to_vec(value) });
        assert(final(self)@ =~= old(self)@.push(
            WriteOpView { kind, family: family_ref_id(cf), key: key@, value: value@ },
        ));
    }

    /// Adds a put in the default family.
    pub fn put(&mut self, key: &[u8], value: &[u8])
        ensures
            final(self)@ == old(self)@.push(
                WriteOpView { kind: WriteKind::Put, family: None, key: key@, value: value@ },
            ),
    {
        self.push(WriteKind::Put, None, key, value);
    }

    /// Adds a delete in the default family.
    pub fn delete(&mut self, key: &[u8])
        ensures
            final(self)@ == old(self)@.push(
                WriteOpView {
                    kind: WriteKind::Delete,
                    family: None,
                    key: key@,
                    value: Seq::<u8>::empty(),
                },
            ),
    {
        let nothing: Vec<u8> = Vec::new();
        self.push(WriteKind::Delete, None, key, nothing.as_slice());
    }

    /// Adds a merge in the default family.
    pub fn merge(&mut self, key: &[u8], value: &[u8])
        ensures
            final(self)@ == old(self)@.push(
                WriteOpView { kind: WriteKind::Merge, family: None, key: key@, value: value@ },
            ),
    {
        self.push(WriteKind::Merge, None, key, value);
    }

    /// Gives up the batch for its changes, first to last.
    pub fn into_ops(self) -> (ops: Vec<WriteOp>)
        ensures
            ops_view(ops@) == self@,
    {
        self.ops
    }
}

/// A batch that is owed to the engine.
#[derive(Debug)]
pub struct BatchCall {
    pub ops: Vec<WriteOp>,
    pub options: WriteOptions,
}

/// What the decision on a batch is: where one of its changes would be
/// refused alone, the refusal of the first such change; otherwise the
/// engine is asked to apply exactly these changes, in this order, under
/// these options.
pub open spec fn batch_decided(
    families: Families,
    merge_registered: bool,
    batch: Seq<WriteOpView>,
    options: WriteOptions,
    r: Result<BatchCall, Error>,
) -> bool {
    match r {
        Ok(call) => ops_view(call.ops@) == batch && call.options == options && forall|i: int|
            0 <= i < batch.len() ==> write_refusal(
                families,
                merge_registered,
                (#[trigger] batch[i]).kind,
                batch[i].family,
            ).is_none(),
        Err(e) => exists|i: int|
            0 <= i < batch.len() && write_refusal(
                families,
                merge_registered,
                (#[trigger] batch[i]).kind,
                batch[i].family,
            ) == Some(e.spec_kind()) && forall|j: int|
                0 <= j < i ==> write_refusal(
                    families,
                    merge_registered,
                    (#[trigger] batch[j]).kind,
                    batch[j].family,
                ).is_none(),
    }
}

/// Which of the engine's two ways to open is owed.
#[derive(Clone, Copy, Debug, PartialEq, Eq, Structural)]
pub enum OpenCall {
    /// Open with the default column family alone.
    Plain,
    /// Open with the column families that were named.
    WithFamilies,
}

/// Some name in the list holds a zero byte.
pub open spec fn some_name_has_nul(names: Seq<String>) -> bool {
    exists|i: int| 0 <= i < names.len() && has_nul(#[trigger] names[i]@)
}

/// Tells whether some name occurs twice in the list.
pub fn has_duplicate(names: &Vec<String>) -> (b: bool)
    ensures
        b == !names_view(names@).no_duplicates(),
{
    let ghost view = names_view(names@);
    let mut i: usize = 0;
    while i < names.len()
        invariant
            i <= names.len(),
            view == names_view(names@),
            forall|a: int, b: int| 0 <= a < i && 0 <= b < a ==> view[a] != view[b],
        decreases names.len() - i,
    {
        let mut j: usize = 0;
        while j < i
            invariant
                j <= i < names.len(),
                view == names_view(names@),
                forall|b: int| 0 <= b < j ==> view[i as int] != view[b],
            decreases i - j,
        {
            if names[i] == names[j] {
                assert(view[i as int] == view[j as int]);
                return true;
            }
            j += 1;
        }
        i += 1;
    }
    proof {
        assert forall|a: int, b: int|
            0 <= a < view.len() && 0 <= b < view.len() && a != b implies view[a] != view[b] by {
            if b < a {
                assert(view[a] != view[b]);
            } else {
                assert(view[b] != view[a]);
            }
        }
    }
    false
}

/// Why an open is refused before the engine is asked, if it is. The
/// engine takes the path and the names as zero-terminated strings: a zero
/// byte in the path is an `OpenError`, one in a family's name a
/// `ColumnFamilyError`, and so is a name that occurs twice.
pub open spec fn open_refusal(path: Seq<char>, names: Seq<String>) -> Option<ErrorKind> {
    if has_nul(path) {
        Some(ErrorKind::OpenError)
    } else if some_name_has_nul(names) || !names_view(names).no_duplicates() {
        Some(ErrorKind::ColumnFamilyError)
    } else {
        None
    }
}

/// Decides how a database is opened: not at all where the open is
/// refused, the plain way without families, and with the families named
/// otherwise.
pub fn open_ffi(path: &str, families: &Vec<String>) -> (r: Result<OpenCall, Error>)
    ensures
        match r {
            Ok(call) => open_refusal(path@, families@).is_none() && call == if families.len()
                == 0 {
                OpenCall::Plain
            } else {
                OpenCall::WithFamilies
            },
            Err(e) => open_refusal(path@, families@) == Some(e.spec_kind()),
        },
{
    if name_has_nul(path) {
        return Err(
            Error::with_kind(
                ErrorKind::OpenError,
                "Failed to convert path to CString when opening rocksdb".to_owned(),
            ),
        );
    }
    let mut i: usize = 0;
    while i < families.len()
        invariant
            i <= families.len(),
            !has_nul(path@),
            forall|j: int| 0 <= j < i ==> !has_nul(#[trigger] families@[j]@),
        decreases families.len() - i,
    {
        if name_has_nul(families[i].as_str()) {
            assert(has_nul(families@[i as int]@));
            return Err(
                Error::with_kind(
                    ErrorKind::ColumnFamilyError,
                    "Failed to convert path to CString when opening rocksdb".to_owned(),
                ),
            );
        }
        i += 1;
    }
    if has_duplicate(families) {
        return Err(
            Error::with_kind(
                ErrorKind::ColumnFamilyError,
                "Column family names must be unique".to_owned(),
            ),
        );
    }
    if families.len() == 0 {
        Ok(OpenCall::Plain)
    } else {
        Ok(OpenCall::WithFamilies)
    }
}

/// The kind of a failed open: a diagnostic about a column family is a
/// `ColumnFamilyError`, any other an `OpenError`.
pub open spec fn open_failure_kind(message: Seq<char>) -> ErrorKind {
    if kind_of(message) == ErrorKind::ColumnFamilyError {
        ErrorKind::ColumnFamilyError
    } else {
        ErrorKind::OpenError
    }
}

/// A database.
#[derive(Debug)]
pub struct Db {
    path: String,
    cfs: ColumnFamilyRegistry,
    merge_operator: Option<String>,
    comparator: Option<Comparator>,
    prefix_extractor: Option<SliceTransform>,
}

impl Db {
    /// The database's invariant.
    pub closed spec fn wf(&self) -> bool {
        self.cfs.wf()
    }

    /// The column families, in contracts.
    pub closed spec fn families(&self) -> Families {
        self.cfs@
    }

    /// The path, in contracts.
    pub closed spec fn spec_path(&self) -> Seq<char> {
        self.path@
    }

    /// Whether a merge operator was registered when the database was
    /// opened, in contracts.
    pub closed spec fn merge_registered(&self) -> bool {
        self.merge_operator.is_some()
    }

    /// The key ordering that the database keeps, in contracts.
    pub closed spec fn spec_comparator(&self) -> Option<Comparator> {
        self.comparator
    }

    /// The prefix extractor that the database keeps, in contracts.
    pub closed spec fn spec_prefix_extractor(&self) -> Option<SliceTransform> {
        self.prefix_extractor
    }

    /// The database is what opening at `path` with these options and
    /// these families gives: it keeps what the options registered, and
    /// holds exactly the families named, the one at place `j` under
    /// identifier `j`.
    pub open spec fn opened_from(&self, path: Seq<char>, options: DbOptions, names: Seq<Seq<char>>) -> bool {
        &&& self.spec_path() == path
        &&& self.merge_registered() == options.merge_operator.is_some()
        &&& self.spec_comparator() == options.comparator
        &&& self.spec_prefix_extractor() == options.prefix_extractor
        &&& self.families().next == names.len()
        &&& forall|n: Seq<char>| self.families().ids.dom().contains(n) <==> names.contains(n)
        &&& forall|j: int|
            0 <= j < names.len() ==> self.families().ids.contains_pair(#[trigger] names[j], j as u64)
    }

    /// The content of a well-formed database's registry is well formed.
    pub proof fn lemma_families_wf(&self)
        requires
            self.wf(),
        ensures
            self.families().wf(),
    {
        self.cfs.lemma_view_wf();
    }

    /// Makes the database from the engine's answer to the open call. A
    /// diagnostic is a failure with the engine's message: a
    /// `ColumnFamilyError` where it speaks of a column family, else an
    /// `OpenError`. Otherwise
    /// the families are entered in the order given, the first under
    /// identifier 0; a name that occurs twice is a `ColumnFamilyError`.
    /// The database takes over what was registered in the options.
    pub fn build(path: String, options: DbOptions, families: Vec<String>, reply: Result<(), String>) -> (r:
        Result<Db, Error>)
        ensures
            match r {
                Ok(db) => reply is Ok && names_view(families@).no_duplicates() && db.wf()
                    && db.opened_from(path@, options, names_view(families@)),
                Err(e) => match reply {
                    Err(message) => e.spec_kind() == open_failure_kind(message@)
                        && e.spec_message() == message@,
                    Ok(_) => e.spec_kind() == ErrorKind::ColumnFamilyError && !names_view(
                        families@,
                    ).no_duplicates(),
                },
            },
    {
        match reply {
            Err(message) => {
                let kind = match classify(message.as_str()) {
                    ErrorKind::ColumnFamilyError => ErrorKind::ColumnFamilyError,
                    _ => ErrorKind::OpenError,
                };
                return Err(Error::with_kind(kind, message));
            },
            Ok(_) => {},
        }
        let mut cfs = ColumnFamilyRegistry::new();
        let ghost names = names_view(families@);
        let mut i: usize = 0;
        while i < families.len()
            invariant
                i <= families.len(),
                reply is Ok,
                names == names_view(families@),
                cfs.wf(),
                cfs@.next == i,
                forall|n: Seq<char>|
                    cfs@.ids.dom().contains(n) <==> exists|j: int| 0 <= j < i && names[j] == n,
                forall|j: int| 0 <= j < i ==> cfs@.ids.contains_pair(#[trigger] names[j], j as u64),
                forall|a: int, b: int| 0 <= a < b < i ==> names[a] != names[b],
            decreases families.len() - i,
        {
            let ghost before = cfs@;
            match cfs.insert(families[i].as_str()) {
                Ok(_) => {
                    proof {
                        assert(names[i as int] == families@[i as int]@);
                        assert forall|n: Seq<char>|
                            cfs@.ids.dom().contains(n) <==> exists|j: int|
                                0 <= j < i + 1 && names[j] == n by {
                            if cfs@.ids.dom().contains(n) {
                                if n != names[i as int] {
                                    assert(before.ids.dom().contains(n));
                                    let j = choose|j: int| 0 <= j < i && names[j] == n;
                                    assert(0 <= j < i + 1 && names[j] == n);
                                } else {
                                    assert(0 <= i < i + 1 && names[i as int] == n);
                                }
                            }
                            if exists|j: int| 0 <= j < i + 1 && names[j] == n {
                                let j = choose|j: int| 0 <= j < i + 1 && names[j] == n;
                                if j < i {
                                    assert(before.ids.dom().contains(n));
                                }
                            }
                        }
                        assert forall|a: int, b: int| 0 <= a < b < i + 1 implies names[a]
                            != names[b] by {
                            if b == i && names[a] == names[b] {
                                assert(before.ids.dom().contains(names[b]));
                            }
                        }
                        assert forall|j: int| 0 <= j < i + 1 implies cfs@.ids.contains_pair(
                            #[trigger] names[j],
                            j as u64,
                        ) by {
                            if j < i {
                                assert(before.ids.contains_pair(names[j], j as u64));
                                assert(names[j] != names[i as int]);
                            }
                        }
                    }
                },
                Err(e) => {
                    proof {
                        assert(names[i as int] == families@[i as int]@);
                        assert(before.ids.dom().contains(names[i as int]));
                        let j = choose|j: int| 0 <= j < i && names[j] == names[i as int];
                        assert(names[j] == names[i as int] && j != i);
                    }
                    return Err(e);
                },
            }
            i += 1;
        }
        proof {
            assert forall|n: Seq<char>| cfs@.ids.dom().contains(n) <==> names.contains(n) by {
                if names.contains(n) {
                    let j = choose|j: int| 0 <= j < names.len() && names[j] == n;
                    assert(0 <= j < i && names[j] == n);
                }
            }
        }
        Ok(
            Db {
                path,
                cfs,
                merge_operator: options.merge_operator,
                comparator: options.comparator,
                prefix_extractor: options.prefix_extractor,
            },
        )
    }

    /// The path that the database was opened at.
    pub fn path(&self) -> (p: &str)
        ensures
            p@ == self.spec_path(),
    {
        self.path.as_str()
    }

    /// The registry of column families.
    pub fn column_families(&self) -> (cfs: &ColumnFamilyRegistry)
        ensures
            cfs@ == self.families(),
            self.wf() ==> cfs.wf(),
    {
        &self.cfs
    }

    /// The registry of column families, for a change. Everything else
    /// about the database stays as it is.
    pub fn column_families_mut(&mut self) -> (cfs: &mut ColumnFamilyRegistry)
        ensures
            cfs@ == old(self).families(),
            old(self).wf() ==> cfs.wf(),
            final(self).families() == final(cfs)@,
            final(cfs).wf() ==> final(self).wf(),
            final(self).spec_path() == old(self).spec_path(),
            final(self).merge_registered() == old(self).merge_registered(),
    {
        &mut self.cfs
    }

    /// The key ordering that the database keeps alive.
    pub fn comparator(&self) -> (c: Option<&Comparator>)
        ensures
            match c {
                Some(kept) => self.spec_comparator() == Some(*kept),
                None => self.spec_comparator().is_none(),
            },
    {
        self.comparator.as_ref()
    }

    /// The prefix extractor that the database keeps alive.
    pub fn prefix_extractor(&self) -> (p: Option<&SliceTransform>)
        ensures
            match p {
                Some(kept) => self.spec_prefix_extractor() == Some(*kept),
                None => self.spec_prefix_extractor().is_none(),
            },
    {
        self.prefix_extractor.as_ref()
    }

    /// Whether a merge operator was registered.
    pub fn has_merge_operator(&self) -> (b: bool)
        ensures
            b == self.merge_registered(),
    {
        self.merge_operator.is_some()
    }

    /// The handle of the family of this name, if there is one.
    pub fn handle_for(&self, name: &str) -> (r: Option<&ColumnFamily>)
        requires
            self.wf(),
        ensures
            match r {
                Some(h) => self.families().ids.contains_pair(name@, h@),
                None => !self.families().ids.dom().contains(name@),
            },
    {
        self.cfs.handle_for(name)
    }

    /// Decides the creation of a column family. A name with a zero byte,
    /// a name that is taken and a registry without identifiers left are
    /// each a `ColumnFamilyError`; otherwise the engine is to be asked.
    pub fn create_cf(&self, name: &str) -> (r: Result<(), Error>)
        requires
            self.wf(),
        ensures
            match r {
                Ok(_) => !has_nul(name@) && self.families().can_create(name@),
                Err(e) => (has_nul(name@) || !self.families().can_create(name@)) && e.spec_kind()
                    == ErrorKind::ColumnFamilyError,
            },
    {
        if name_has_nul(name) {
            return Err(
                Error::with_kind(
                    ErrorKind::ColumnFamilyError,
                    "Failed to convert path to CString when creating cf: ".to_owned().concat(name),
                ),
            );
        }
        if self.cfs.handle_for(name).is_some() {
            return Err(
                Error::with_kind(
                    ErrorKind::ColumnFamilyError,
                    "Column family already exists: ".to_owned().concat(name),
                ),
            );
        }
        if self.cfs.next_handle().is_none() {
            return Err(
                Error::with_kind(
                    ErrorKind::ColumnFamilyError,
                    "No column family handle left: ".to_owned().concat(name),
                ),
            );
        }
        Ok(())
    }

    /// Takes up the engine's answer to the creation of a column family:
    /// on success the family is entered under a fresh handle; a diagnostic
    /// is a failure of the kind that it names, and changes nothing.
    pub fn finish_create_cf(&mut self, name: &str, reply: Result<(), String>) -> (r: Result<
        ColumnFamily,
        Error,
    >)
        requires
            old(self).wf(),
        ensures
            final(self).wf(),
            final(self).spec_path() == old(self).spec_path(),
            final(self).merge_registered() == old(self).merge_registered(),
            match r {
                Ok(h) => reply is Ok && old(self).families().can_create(name@) && h@ == old(self).families().next && final(self).families() == old(self).families().create(name@),
                Err(e) => final(self).families() == old(self).families() && match reply {
                    Err(message) => e.spec_message() == message@ && e.spec_kind()
                        == kind_of(message@),
                    Ok(_) => !old(self).families().can_create(name@) && e.spec_kind()
                        == ErrorKind::ColumnFamilyError,
                },
            },
    {
        match reply {
            Err(message) => Err(Error::new(message)),
            Ok(_) => self.cfs.insert(name),
        }
    }

    /// Takes the family of this name out of the registry. Its handle is
    /// dead from here on, whatever the engine answers to the drop that is
    /// owed for it. An unknown name is a `ColumnFamilyError`.
    pub fn drop_cf(&mut self, name: &str) -> (r: Result<ColumnFamily, Error>)
        requires
            old(self).wf(),
        ensures
            final(self).wf(),
            final(self).spec_path() == old(self).spec_path(),
            final(self).merge_registered() == old(self).merge_registered(),
            match r {
                Ok(h) => old(self).families().ids.contains_pair(name@, h@) && final(self).families()
                    == old(self).families().drop_family(name@) && !final(self).families().live(h@),
                Err(e) => !old(self).families().ids.dom().contains(name@) && final(self).families()
                    == old(self).families() && e.spec_kind() == ErrorKind::ColumnFamilyError
                    && e.spec_message() == "Invalid column family: "@ + name@,
            },
    {
        self.cfs.remove(name)
    }

    /// The snapshot that the engine has taken under this identifier.
    pub fn snapshot(&self, id: u64) -> (s: Snapshot<'_>)
        ensures
            s@ == id,
            s.families() == self.families(),
            self.wf() ==> s.wf(),
    {
        Snapshot::new(self, id)
    }

    /// Decides a read of `key`.
    pub fn get_cf_full(&self, cf: Option<&ColumnFamily>, key: &[u8], readopts: Option<&ReadOptions>) -> (r:
        Result<ReadCall, Error>)
        requires
            self.wf(),
        ensures
            read_decided(self.families(), family_ref_id(cf), key@, read_options_of(readopts), r),
    {
        plan_read(&self.cfs, cf, key, readopts)
    }

    /// Decides a put, a delete or a merge of `key`.
    pub fn write_cf_full(
        &self,
        kind: WriteKind,
        cf: Option<&ColumnFamily>,
        key: &[u8],
        value: &[u8],
        writeopts: Option<&WriteOptions>,
    ) -> (r: Result<WriteCall, Error>)
        requires
            self.wf(),
        ensures
            write_decided(
                self.families(),
                self.merge_registered(),
                WriteOpView { kind, family: family_ref_id(cf), key: key@, value: value@ },
                write_options_of(writeopts),
                r,
            ),
    {
        plan_write(&self.cfs, self.merge_operator.is_some(), kind, cf, key, value, writeopts)
    }

    /// Decides the application of a batch. The batch is refused as a
    /// whole for the first of its changes that would be refused alone.
    pub fn write_full(&self, batch: WriteBatch, writeopts: Option<&WriteOptions>) -> (r: Result<
        BatchCall,
        Error,
    >)
        requires
            self.wf(),
        ensures
            batch_decided(
                self.families(),
                self.merge_registered(),
                batch@,
                write_options_of(writeopts),
                r,
            ),
    {
        let ops = batch.into_ops();
        let merge_registered = self.merge_operator.is_some();
        let mut i: usize = 0;
        while i < ops.len()
            invariant
                i <= ops.len(),
                self.wf(),
                merge_registered == self.merge_registered(),
                ops_view(ops@) == batch@,
                forall|j: int|
                    0 <= j < i ==> write_refusal(
                        self.families(),
                        self.merge_registered(),
                        (#[trigger] batch@[j]).kind,
                        batch@[j].family,
                    ).is_none(),
            decreases ops.len() - i,
        {
            let op = &ops[i];
            assert(batch@[i as int] == op@);
            let refused = match check_family(&self.cfs, op.family.as_ref()) {
                Err(e) => Some(e),
                Ok(_) => {
                    let is_merge = match op.kind {
                        WriteKind::Merge => true,
                        _ => false,
                    };
                    if is_merge && !merge_registered {
                        Some(
                            Error::with_kind(
                                ErrorKind::UnsupportedOperation,
                                "Not implemented: Provide a merge_operator when opening DB".to_owned(),
                            ),
                        )
                    } else {
                        None
                    }
                },
            };
            match refused {
                Some(e) => {
                    return Err(e);
                },
                None => {},
            }
            i += 1;
        }
        Ok(BatchCall { ops, options: WriteOptions::input_or_default(writeopts) })
    }

    /// A cursor over the default family.
    pub fn get_raw_iter(&self, readopts: &ReadOptions) -> (it: DbRawIterator)
        ensures
            it@ == (CursorView { family: None, snapshot: readopts.snapshot, entry: None }),
    {
        DbRawIterator::new(None, *readopts)
    }

    /// A cursor over a column family, unless its handle is dead.
    pub fn get_raw_iter_cf(&self, cf_handle: &ColumnFamily, readopts: &ReadOptions) -> (r: Result<
        DbRawIterator,
        Error,
    >)
        requires
            self.wf(),
        ensures
            match r {
                Ok(it) => self.families().live(cf_handle@) && it@ == (CursorView {
                    family: Some(cf_handle@),
                    snapshot: readopts.snapshot,
                    entry: None,
                }),
                Err(e) => !self.families().live(cf_handle@) && e.spec_kind()
                    == ErrorKind::ColumnFamilyError,
            },
    {
        match check_family(&self.cfs, Some(cf_handle)) {
            Ok(family) => Ok(DbRawIterator::new(family, *readopts)),
            Err(e) => Err(e),
        }
    }
}

} // verus!
