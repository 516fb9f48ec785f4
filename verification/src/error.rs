//! Typed errors, and the classification of engine diagnostics.

use vstd::prelude::*;
use vstd::string::StringSliceAdditionalSpecFns;
use vstd::utf8::encode_utf8;

verus! {

/// The kinds of failure that an operation can report.
#[derive(Clone, Copy, Debug, PartialEq, Eq, Structural)]
pub enum ErrorKind {
    /// Path, permission, format or corruption problem while opening.
    OpenError,
    /// Unknown, duplicate or dropped column family.
    ColumnFamilyError,
    /// Engine-level read or write failure.
    IOError,
    /// A key is locked by another transaction, or a lock wait timed out.
    LockConflict,
    /// The engine broke a lock cycle by aborting this transaction.
    Deadlock,
    /// The transaction outlived its expiration.
    Expired,
    /// The operation needs something that was not configured.
    UnsupportedOperation,
    /// Binary data was asked for as text and is not valid UTF-8.
    EncodingError,
}

/// `p` is a prefix of `s`.
pub open spec fn is_prefix(p: Seq<u8>, s: Seq<u8>) -> bool {
    p.len() <= s.len() && s.subrange(0, p.len() as int) == p
}

/// The kind that an engine diagnostic stands for. The engine starts each
/// diagnostic with the name of its status code; lock waits and deadlocks
/// are told apart by what follows "Resource busy".
pub open spec fn kind_of(text: Seq<char>) -> ErrorKind {
    let message = encode_utf8(text);
    if is_prefix("Operation timed out".spec_bytes(), message) {
        ErrorKind::LockConflict
    } else if is_prefix("Resource busy: Deadlock".spec_bytes(), message) {
        ErrorKind::Deadlock
    } else if is_prefix("Resource busy".spec_bytes(), message) {
        ErrorKind::LockConflict
    } else if is_prefix("Operation expired".spec_bytes(), message) {
        ErrorKind::Expired
    } else if is_prefix("Not implemented".spec_bytes(), message) {
        ErrorKind::UnsupportedOperation
    } else if is_prefix("Invalid argument: Column family".spec_bytes(), message) {
        ErrorKind::ColumnFamilyError
    } else if is_prefix("Column family dropped".spec_bytes(), message) {
        ErrorKind::ColumnFamilyError
    } else {
        ErrorKind::IOError
    }
}

/// Whether `hay` starts with `needle`.
pub fn starts_with(hay: &[u8], needle: &[u8]) -> (b: bool)
    ensures
        b == is_prefix(needle@, hay@),
{
    if needle.len() > hay.len() {
        return false;
    }
    let mut i: usize = 0;
    while i < needle.len()
        invariant
            i <= needle.len() <= hay.len(),
            hay@.subrange(0, i as int) == needle@.subrange(0, i as int),
        decreases needle.len() - i,
    {
        if hay[i] != needle[i] {
            proof {
                let full = hay@.subrange(0, needle@.len() as int);
                assert(full[i as int] == hay@[i as int]);
            }
            return false;
        }
        proof {
            assert(hay@.subrange(0, i + 1) =~= hay@.subrange(0, i as int).push(hay@[i as int]));
            assert(needle@.subrange(0, i + 1) =~= needle@.subrange(0, i as int).push(
                needle@[i as int],
            ));
        }
        i += 1;
    }
    proof {
        assert(needle@.subrange(0, i as int) =~= needle@);
    }
    true
}

/// Classifies an engine diagnostic.
pub fn classify(message: &str) -> (kind: ErrorKind)
    ensures
        kind == kind_of(message@),
{
    let m = message.as_bytes();
    if starts_with(m, "Operation timed out".as_bytes()) {
        ErrorKind::LockConflict
    } else if starts_with(m, "Resource busy: Deadlock".as_bytes()) {
        ErrorKind::Deadlock
    } else if starts_with(m, "Resource busy".as_bytes()) {
        ErrorKind::LockConflict
    } else if starts_with(m, "Operation expired".as_bytes()) {
        ErrorKind::Expired
    } else if starts_with(m, "Not implemented".as_bytes()) {
        ErrorKind::UnsupportedOperation
    } else if starts_with(m, "Invalid argument: Column family".as_bytes()) {
        ErrorKind::ColumnFamilyError
    } else if starts_with(m, "Column family dropped".as_bytes()) {
        ErrorKind::ColumnFamilyError
    } else {
        ErrorKind::IOError
    }
}

/// A failure: its kind, and the human-readable message that came with it.
#[derive(Debug)]
pub struct Error {
    kind: ErrorKind,
    message: String,
}

impl Error {
    /// The kind of this error, in contracts.
    pub closed spec fn spec_kind(&self) -> ErrorKind {
        self.kind
    }

    /// The message of this error, in contracts.
    pub closed spec fn spec_message(&self) -> Seq<char> {
        self.message@
    }

    /// An error for an engine diagnostic: the kind is read off the message.
    pub fn new(message: String) -> (e: Error)
        ensures
            e.spec_message() == message@,
            e.spec_kind() == kind_of(message@),
    {
        let kind = classify(message.as_str());
        Error { kind, message }
    }

    /// An error of a given kind.
    pub fn with_kind(kind: ErrorKind, message: String) -> (e: Error)
        ensures
            e.spec_message() == message@,
            e.spec_kind() == kind,
    {
        Error { kind, message }
    }

    /// The kind of this error.
    pub fn kind(&self) -> (k: ErrorKind)
        ensures
            k == self.spec_kind(),
    {
        self.kind
    }

    /// The message of this error.
    pub fn description(&self) -> (s: &str)
        ensures
            s@ == self.spec_message(),
    {
        self.message.as_str()
    }

    /// Gives up the error for its message.
    pub fn into_message(self) -> (s: String)
        ensures
            s@ == self.spec_message(),
    {
        self.message
    }
}

impl From<Error> for String {
    /// Gives up the error for its message.
    fn from(e: Error) -> (s: String)
        ensures
            s@ == e.spec_message(),
    {
        e.message
    }
}

impl vstd::std_specs::convert::FromSpecImpl<Error> for String {
    open spec fn obeys_from_spec() -> bool {
        true
    }

    closed spec fn from_spec(e: Error) -> String {
        e.message
    }
}

} // verus!
