//! The cursor over an ordered key range.
//!
//! A cursor is created unpositioned. A seek always goes to the engine; a
//! step goes there only from an entry, and is a no-op otherwise. After each
//! motion the engine reports where the cursor has landed, and the cursor
//! remembers that entry until the next motion.

use vstd::prelude::*;
use vstd::slice::slice_to_vec;
use crate::column_family::ColumnFamily;
use crate::ops::family_id;
use crate::options::ReadOptions;

verus! {

/// A motion that is owed to the engine.
#[derive(Debug)]
pub enum Motion {
    SeekToFirst,
    SeekToLast,
    /// To the smallest key at or after this one.
    Seek(Vec<u8>),
    /// To the largest key at or before this one.
    SeekForPrev(Vec<u8>),
    Next,
    Prev,
}

/// The mathematical content of a motion.
pub enum MotionView {
    SeekToFirst,
    SeekToLast,
    Seek(Seq<u8>),
    SeekForPrev(Seq<u8>),
    Next,
    Prev,
}

impl View for Motion {
    type V = MotionView;

    open spec fn view(&self) -> MotionView {
        match self {
            Motion::SeekToFirst => MotionView::SeekToFirst,
            Motion::SeekToLast => MotionView::SeekToLast,
            Motion::Seek(k) => MotionView::Seek(k@),
            Motion::SeekForPrev(k) => MotionView::SeekForPrev(k@),
            Motion::Next => MotionView::Next,
            Motion::Prev => MotionView::Prev,
        }
    }
}

/// The mathematical content of a cursor: its scope, and the entry it
/// stands on, if any.
pub struct CursorView {
    pub family: Option<u64>,
    pub snapshot: Option<u64>,
    pub entry: Option<(Seq<u8>, Seq<u8>)>,
}

/// A cursor, scoped to a column family and to a snapshot where one was
/// given.
#[derive(Debug)]
pub struct DbRawIterator {
    family: Option<ColumnFamily>,
    options: ReadOptions,
    entry: Option<(Vec<u8>, Vec<u8>)>,
}

/// The content of an entry that the engine reported.
pub open spec fn entry_view(entry: Option<(Vec<u8>, Vec<u8>)>) -> Option<(Seq<u8>, Seq<u8>)> {
    match entry {
        Some(e) => Some((e.0@, e.1@)),
        None => None,
    }
}

impl View for DbRawIterator {
    type V = CursorView;

    closed spec fn view(&self) -> CursorView {
        CursorView {
            family: family_id(self.family),
            snapshot: self.options.snapshot,
            entry: entry_view(self.entry),
        }
    }
}

impl DbRawIterator {
    /// A cursor that stands on no entry.
    pub fn new(family: Option<ColumnFamily>, options: ReadOptions) -> (it: DbRawIterator)
        ensures
            it@ == (CursorView {
                family: family_id(family),
                snapshot: options.snapshot,
                entry: None,
            }),
    {
        DbRawIterator { family, options, entry: None }
    }

    /// The family that the cursor is scoped to.
    pub fn family(&self) -> (f: Option<ColumnFamily>)
        ensures
            family_id(f) == self@.family,
    {
        self.family
    }

    /// The snapshot that the cursor is pinned to.
    pub fn snapshot(&self) -> (s: Option<u64>)
        ensures
            s == self@.snapshot,
    {
        self.options.snapshot
    }

    /// Whether the cursor stands on an entry.
    pub fn valid(&self) -> (b: bool)
        ensures
            b == self@.entry.is_some(),
    {
        self.entry.is_some()
    }

    /// The key of the entry, or nothing where the cursor stands on none.
    pub fn key(&self) -> (k: Option<Vec<u8>>)
        ensures
            match k {
                Some(bytes) => self@.entry matches Some(e) && bytes@ == e.0,
                None => self@.entry.is_none(),
            },
    {
        match &self.entry {
            Some(e) => Some(slice_to_vec(e.0.as_slice())),
            None => None,
        }
    }

    /// The value of the entry, or nothing where the cursor stands on none.
    pub fn value(&self) -> (v: Option<Vec<u8>>)
        ensures
            match v {
                Some(bytes) => self@.entry matches Some(e) && bytes@ == e.1,
                None => self@.entry.is_none(),
            },
    {
        match &self.entry {
            Some(e) => Some(slice_to_vec(e.1.as_slice())),
            None => None,
        }
    }

    /// To the first entry.
    pub fn seek_to_first(&self) -> (m: Motion)
        ensures
            m@ == MotionView::SeekToFirst,
    {
        Motion::SeekToFirst
    }

    /// To the last entry.
    pub fn seek_to_last(&self) -> (m: Motion)
        ensures
            m@ == MotionView::SeekToLast,
    {
        Motion::SeekToLast
    }

    /// To the smallest key at or after `key`.
    pub fn seek(&self, key: &[u8]) -> (m: Motion)
        ensures
            m@ == MotionView::Seek(key@),
    {
        Motion::Seek(slice_to_vec(key))
    }

    /// To the largest key at or before `key`.
    pub fn seek_for_prev(&self, key: &[u8]) -> (m: Motion)
        ensures
            m@ == MotionView::SeekForPrev(key@),
    {
        Motion::SeekForPrev(slice_to_vec(key))
    }

    /// One entry forward. From no entry there is nothing to do.
    pub fn next(&self) -> (m: Option<Motion>)
        ensures
            match m {
                Some(motion) => self@.entry.is_some() && motion@ == MotionView::Next,
                None => self@.entry.is_none(),
            },
    {
        if self.entry.is_some() {
            Some(Motion::Next)
        } else {
            None
        }
    }

    /// One entry backward. From no entry there is nothing to do.
    pub fn prev(&self) -> (m: Option<Motion>)
        ensures
            match m {
                Some(motion) => self@.entry.is_some() && motion@ == MotionView::Prev,
                None => self@.entry.is_none(),
            },
    {
        if self.entry.is_some() {
            Some(Motion::Prev)
        } else {
            None
        }
    }

    /// Records where the engine says the cursor has landed: on an entry,
    /// or past either end. The scope stays.
    pub fn land(&mut self, landed: Option<(Vec<u8>, Vec<u8>)>)
        ensures
            final(self)@ == (CursorView { entry: entry_view(landed), ..old(self)@ }),
    {
        self.entry = landed;
    }
}

} // verus!
