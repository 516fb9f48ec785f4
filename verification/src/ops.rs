//! The point operations: what is asked of the engine, and what its answer
//! means.
//!
//! A request names the column family by handle. The handle is checked
//! against the registry before anything is asked, so that a request on a
//! dropped family is refused here and never reaches the engine.

use vstd::prelude::*;
use vstd::slice::slice_to_vec;
use vstd::utf8::encode_utf8;
use vstd::utf8::valid_utf8;
use crate::column_family::ColumnFamily;
use crate::column_family::ColumnFamilyRegistry;
use crate::column_family::Families;
use crate::error::Error;
use crate::error::ErrorKind;
use crate::error::kind_of;
use crate::options::ReadOptions;
use crate::options::WriteOptions;

verus! {

/// The three ways to change a key.
#[derive(Clone, Copy, Debug, PartialEq, Eq, Structural)]
pub enum WriteKind {
    Put,
    Delete,
    Merge,
}

/// One change: the family it goes to (`None` for the default family), the
/// key, and the value (empty for a delete).
#[derive(Debug)]
pub struct WriteOp {
    pub kind: WriteKind,
    pub family: Option<ColumnFamily>,
    pub key: Vec<u8>,
    pub value: Vec<u8>,
}

/// The mathematical content of a change.
pub struct WriteOpView {
    pub kind: WriteKind,
    pub family: Option<u64>,
    pub key: Seq<u8>,
    pub value: Seq<u8>,
}

/// The identifier behind an optional handle.
pub open spec fn family_id(family: Option<ColumnFamily>) -> Option<u64> {
    match family {
        Some(h) => Some(h@),
        None => None,
    }
}

/// The identifier behind an optional borrowed handle.
pub open spec fn family_ref_id(family: Option<&ColumnFamily>) -> Option<u64> {
    match family {
        Some(h) => Some(h@),
        None => None,
    }
}

impl View for WriteOp {
    type V = WriteOpView;

    open spec fn view(&self) -> WriteOpView {
        WriteOpView {
            kind: self.kind,
            family: family_id(self.family),
            key: self.key@,
            value: self.value@,
        }
    }
}

/// A read that is owed to the engine.
#[derive(Debug)]
pub struct ReadCall {
    pub family: Option<ColumnFamily>,
    pub key: Vec<u8>,
    pub options: ReadOptions,
}

/// A write that is owed to the engine.
#[derive(Debug)]
pub struct WriteCall {
    pub op: WriteOp,
    pub options: WriteOptions,
}

/// Whether a request may name this family: the default family always,
/// another one while its handle is live.
pub open spec fn family_usable(families: Families, family: Option<u64>) -> bool {
    match family {
        Some(id) => families.live(id),
        None => true,
    }
}

/// The options of a read: those given, or the defaults.
pub open spec fn read_options_of(given: Option<&ReadOptions>) -> ReadOptions {
    match given {
        Some(o) => *o,
        None => (ReadOptions { snapshot: None }),
    }
}

/// The options of a write: those given, or the defaults.
pub open spec fn write_options_of(given: Option<&WriteOptions>) -> WriteOptions {
    match given {
        Some(o) => *o,
        None => (WriteOptions { sync: false, disable_wal: false }),
    }
}

/// What the decision on a read is: a dead family is a
/// `ColumnFamilyError`; otherwise the engine is asked for exactly this key
/// in this family under these options.
pub open spec fn read_decided(
    families: Families,
    family: Option<u64>,
    key: Seq<u8>,
    options: ReadOptions,
    r: Result<ReadCall, Error>,
) -> bool {
    match r {
        Ok(call) => family_usable(families, family) && family_id(call.family) == family
            && call.key@ == key && call.options == options,
        Err(e) => !family_usable(families, family) && e.spec_kind()
            == ErrorKind::ColumnFamilyError,
    }
}

/// Checks that a request may name this family.
pub fn check_family(cfs: &ColumnFamilyRegistry, cf: Option<&ColumnFamily>) -> (r: Result<
    Option<ColumnFamily>,
    Error,
>)
    requires
        cfs.wf(),
    ensures
        match r {
            Ok(family) => family_usable(cfs@, family_ref_id(cf)) && family_id(family)
                == family_ref_id(cf),
            Err(e) => !family_usable(cfs@, family_ref_id(cf)) && e.spec_kind()
                == ErrorKind::ColumnFamilyError,
        },
{
    match cf {
        Some(h) => {
            if cfs.is_live(h) {
                Ok(Some(*h))
            } else {
                Err(
                    Error::with_kind(
                        ErrorKind::ColumnFamilyError,
                        "Invalid column family: the handle was dropped".to_owned(),
                    ),
                )
            }
        },
        None => Ok(None),
    }
}

/// Decides a read: the engine is asked for `key` in the family, under the
/// options given or the defaults, unless the family's handle is dead.
pub fn plan_read(
    cfs: &ColumnFamilyRegistry,
    cf: Option<&ColumnFamily>,
    key: &[u8],
    readopts: Option<&ReadOptions>,
) -> (r: Result<ReadCall, Error>)
    requires
        cfs.wf(),
    ensures
        read_decided(cfs@, family_ref_id(cf), key@, read_options_of(readopts), r),
{
    match check_family(cfs, cf) {
        Ok(family) => Ok(
            ReadCall { family, key: slice_to_vec(key), options: ReadOptions::input_or_default(readopts) },
        ),
        Err(e) => Err(e),
    }
}

/// Whether a write is refused before the engine is asked, and why: a dead
/// family first, then a merge with no operator registered.
pub open spec fn write_refusal(
    families: Families,
    merge_registered: bool,
    kind: WriteKind,
    family: Option<u64>,
) -> Option<ErrorKind> {
    if !family_usable(families, family) {
        Some(ErrorKind::ColumnFamilyError)
    } else if kind == WriteKind::Merge && !merge_registered {
        Some(ErrorKind::UnsupportedOperation)
    } else {
        None
    }
}

/// What the decision on a write is: the refusal where there is one;
/// otherwise the engine is asked to apply exactly this change under these
/// options.
pub open spec fn write_decided(
    families: Families,
    merge_registered: bool,
    op: WriteOpView,
    options: WriteOptions,
    r: Result<WriteCall, Error>,
) -> bool {
    match r {
        Ok(call) => write_refusal(families, merge_registered, op.kind, op.family).is_none()
            && call.op@ == op && call.options == options,
        Err(e) => write_refusal(families, merge_registered, op.kind, op.family) == Some(
            e.spec_kind(),
        ),
    }
}

/// Decides a write: the engine is asked to apply the change under the
/// options given or the defaults, unless the change is refused.
pub fn plan_write(
    cfs: &ColumnFamilyRegistry,
    merge_registered: bool,
    kind: WriteKind,
    cf: Option<&ColumnFamily>,
    key: &[u8],
    value: &[u8],
    writeopts: Option<&WriteOptions>,
) -> (r: Result<WriteCall, Error>)
    requires
        cfs.wf(),
    ensures
        write_decided(
            cfs@,
            merge_registered,
            WriteOpView { kind, family: family_ref_id(cf), key: key@, value: value@ },
            write_options_of(writeopts),
            r,
        ),
{
    let family = match check_family(cfs, cf) {
        Ok(family) => family,
        Err(e) => {
            return Err(e);
        },
    };
    let is_merge = match kind {
        WriteKind::Merge => true,
        _ => false,
    };
    if is_merge && !merge_registered {
        return Err(
            Error::with_kind(
                ErrorKind::UnsupportedOperation,
                "Not implemented: Provide a merge_operator when opening DB".to_owned(),
            ),
        );
    }
    Ok(
        WriteCall {
            op: WriteOp { kind, family, key: slice_to_vec(key), value: slice_to_vec(value) },
            options: WriteOptions::input_or_default(writeopts),
        },
    )
}

/// A put and a read of one key in one family, decided against the same
/// registry, are refused or let through together; where they are let
/// through, the read asks for the very place that the put wrote to, and
/// the put hands on the value unchanged.
pub proof fn lemma_put_and_get_meet(
    families: Families,
    merge_registered: bool,
    family: Option<u64>,
    key: Seq<u8>,
    value: Seq<u8>,
    write_options: WriteOptions,
    read_options: ReadOptions,
    put: Result<WriteCall, Error>,
    get: Result<ReadCall, Error>,
)
    requires
        write_decided(
            families,
            merge_registered,
            WriteOpView { kind: WriteKind::Put, family, key, value },
            write_options,
            put,
        ),
        read_decided(families, family, key, read_options, get),
    ensures
        put is Ok <==> get is Ok,
        put is Ok ==> put->Ok_0.op@.family == family_id(get->Ok_0.family) && put->Ok_0.op@.key
            == get->Ok_0.key@ && put->Ok_0.op@.value == value,
        put is Err ==> put->Err_0.spec_kind() == ErrorKind::ColumnFamilyError
            && get->Err_0.spec_kind() == ErrorKind::ColumnFamilyError,
{
}

/// A delete and a read of one key in one family are refused or let
/// through together, and name the same place.
pub proof fn lemma_delete_and_get_meet(
    families: Families,
    merge_registered: bool,
    family: Option<u64>,
    key: Seq<u8>,
    write_options: WriteOptions,
    read_options: ReadOptions,
    delete: Result<WriteCall, Error>,
    get: Result<ReadCall, Error>,
)
    requires
        write_decided(
            families,
            merge_registered,
            WriteOpView { kind: WriteKind::Delete, family, key, value: Seq::empty() },
            write_options,
            delete,
        ),
        read_decided(families, family, key, read_options, get),
    ensures
        delete is Ok <==> get is Ok,
        delete is Ok ==> delete->Ok_0.op@.family == family_id(get->Ok_0.family)
            && delete->Ok_0.op@.key == get->Ok_0.key@,
{
}

/// Bytes that a read returned, owned by whoever received them.
#[derive(Debug)]
pub struct DbVector {
    bytes: Vec<u8>,
}

impl View for DbVector {
    type V = Seq<u8>;

    closed spec fn view(&self) -> Seq<u8> {
        self.bytes@
    }
}

/// `std::str::from_utf8`: the bytes as text where they are valid UTF-8,
/// and nothing where they are not. The text, encoded, is the bytes again.
#[verifier::external_body]
fn utf8_text(bytes: &[u8]) -> (r: Option<&str>)
    ensures
        match r {
            Some(s) => valid_utf8(bytes@) && encode_utf8(s@) == bytes@,
            None => !valid_utf8(bytes@),
        },
{
    std::str::from_utf8(bytes).ok()
}

impl DbVector {
    /// Takes ownership of the bytes.
    pub fn from_vec(bytes: Vec<u8>) -> (v: DbVector)
        ensures
            v@ == bytes@,
    {
        DbVector { bytes }
    }

    /// The bytes.
    pub fn as_slice(&self) -> (s: &[u8])
        ensures
            s@ == self@,
    {
        self.bytes.as_slice()
    }

    /// The number of bytes.
    pub fn len(&self) -> (n: usize)
        ensures
            n == self@.len(),
    {
        self.bytes.len()
    }

    /// A copy of the bytes.
    pub fn to_vec(&self) -> (v: Vec<u8>)
        ensures
            v@ == self@,
    {
        slice_to_vec(self.bytes.as_slice())
    }

    /// The bytes as text. Bytes that are not valid UTF-8 are an
    /// `EncodingError`.
    pub fn to_utf8(&self) -> (r: Result<&str, Error>)
        ensures
            match r {
                Ok(s) => valid_utf8(self@) && encode_utf8(s@) == self@,
                Err(e) => !valid_utf8(self@) && e.spec_kind() == ErrorKind::EncodingError,
            },
    {
        match utf8_text(self.bytes.as_slice()) {
            Some(s) => Ok(s),
            None => Err(
                Error::with_kind(ErrorKind::EncodingError, "The value is not valid UTF-8".to_owned()),
            ),
        }
    }
}

/// Bytes that a pinned read returned. The buffer is released when this
/// value goes out of scope.
#[derive(Debug)]
pub struct DbPinnableSlice {
    bytes: Vec<u8>,
}

impl View for DbPinnableSlice {
    type V = Seq<u8>;

    closed spec fn view(&self) -> Seq<u8> {
        self.bytes@
    }
}

impl DbPinnableSlice {
    /// Takes ownership of the bytes.
    pub fn from_vec(bytes: Vec<u8>) -> (v: DbPinnableSlice)
        ensures
            v@ == bytes@,
    {
        DbPinnableSlice { bytes }
    }

    /// The bytes.
    pub fn as_slice(&self) -> (s: &[u8])
        ensures
            s@ == self@,
    {
        self.bytes.as_slice()
    }
}

/// What a read's answer means. Absence is a success that carries no
/// value; a diagnostic is a failure of the kind that it names. The two are
/// never mixed up.
pub fn read_reply(reply: Result<Option<Vec<u8>>, String>) -> (r: Result<Option<DbVector>, Error>)
    ensures
        match reply {
            Ok(Some(bytes)) => r matches Ok(Some(v)) && v@ == bytes@,
            Ok(None) => r matches Ok(None),
            Err(message) => r matches Err(e) && e.spec_message() == message@ && e.spec_kind()
                == kind_of(message@),
        },
{
    match reply {
        Ok(Some(bytes)) => Ok(Some(DbVector::from_vec(bytes))),
        Ok(None) => Ok(None),
        Err(message) => Err(Error::new(message)),
    }
}

/// What a pinned read's answer means: as for `read_reply`.
pub fn pinned_reply(reply: Result<Option<Vec<u8>>, String>) -> (r: Result<
    Option<DbPinnableSlice>,
    Error,
>)
    ensures
        match reply {
            Ok(Some(bytes)) => r matches Ok(Some(v)) && v@ == bytes@,
            Ok(None) => r matches Ok(None),
            Err(message) => r matches Err(e) && e.spec_message() == message@ && e.spec_kind()
                == kind_of(message@),
        },
{
    match reply {
        Ok(Some(bytes)) => Ok(Some(DbPinnableSlice::from_vec(bytes))),
        Ok(None) => Ok(None),
        Err(message) => Err(Error::new(message)),
    }
}

/// What a write's answer means: done, or a failure of the kind that the
/// diagnostic names.
pub fn write_reply(reply: Result<(), String>) -> (r: Result<(), Error>)
    ensures
        match reply {
            Ok(_) => r is Ok,
            Err(message) => r matches Err(e) && e.spec_message() == message@ && e.spec_kind()
                == kind_of(message@),
        },
{
    match reply {
        Ok(_) => Ok(()),
        Err(message) => Err(Error::new(message)),
    }
}

} // verus!
