//! Column families: named keyspaces, the handles that stand for them, and
//! the registry that maps each name to its handle.
//!
//! A handle is an identifier that the registry issues once and never again,
//! so a handle whose family was dropped can be told from every live one for
//! as long as the registry exists.

use vstd::prelude::*;
use vstd::string::StringExecFns;
use vstd::utf8::encode_utf8;
use crate::error::Error;
use crate::error::ErrorKind;

verus! {

/// A handle to one column family. Its view is the identifier it was issued.
#[derive(Clone, Copy, Debug, PartialEq, Eq, Structural)]
pub struct ColumnFamily {
    id: u64,
}

impl View for ColumnFamily {
    type V = u64;

    closed spec fn view(&self) -> u64 {
        self.id
    }
}

impl ColumnFamily {
    /// The identifier behind the handle.
    pub fn id(&self) -> (id: u64)
        ensures
            id == self@,
    {
        self.id
    }
}

/// The mathematical content of a registry: which name has which
/// identifier, and the next identifier to be issued.
pub struct Families {
    pub ids: Map<Seq<char>, u64>,
    pub next: nat,
}

/// One change to a registry.
pub enum Step {
    Create(Seq<char>),
    Drop(Seq<char>),
}

impl Families {
    /// No two names share an identifier, and every identifier in use was
    /// issued before `next`.
    pub open spec fn wf(self) -> bool {
        &&& forall|a: Seq<char>, b: Seq<char>|
            self.ids.dom().contains(a) && self.ids.dom().contains(b) && a != b
                ==> self.ids[a] != self.ids[b]
        &&& forall|a: Seq<char>| self.ids.dom().contains(a) ==> (#[trigger] self.ids[a]) < self.next
        &&& self.next <= u64::MAX
    }

    /// Some name currently has this identifier.
    pub open spec fn live(self, id: u64) -> bool {
        exists|a: Seq<char>| self.ids.contains_pair(a, id)
    }

    /// The identifier has been handed out at some time.
    pub open spec fn issued(self, id: u64) -> bool {
        id < self.next
    }

    /// Whether a family of this name can be created.
    pub open spec fn can_create(self, name: Seq<char>) -> bool {
        !self.ids.dom().contains(name) && self.next < u64::MAX
    }

    /// The registry after a family was created under a fresh identifier.
    pub open spec fn create(self, name: Seq<char>) -> Families {
        Families { ids: self.ids.insert(name, self.next as u64), next: self.next + 1 }
    }

    /// The registry after the family of this name was dropped.
    pub open spec fn drop_family(self, name: Seq<char>) -> Families {
        Families { ids: self.ids.remove(name), next: self.next }
    }

    /// The registry after one change; a change that is refused leaves it
    /// as it was.
    pub open spec fn step(self, s: Step) -> Families {
        match s {
            Step::Create(name) => if self.can_create(name) {
                self.create(name)
            } else {
                self
            },
            Step::Drop(name) => if self.ids.dom().contains(name) {
                self.drop_family(name)
            } else {
                self
            },
        }
    }

    /// The registry after a sequence of changes, first to last.
    pub open spec fn run(self, steps: Seq<Step>) -> Families
        decreases steps.len(),
    {
        if steps.len() == 0 {
            self
        } else {
            self.run(steps.drop_last()).step(steps.last())
        }
    }

    /// Every change keeps the registry well formed and never takes an
    /// identifier back.
    pub proof fn lemma_step_wf(self, s: Step)
        requires
            self.wf(),
        ensures
            self.step(s).wf(),
            self.step(s).next >= self.next,
    {
        let after = self.step(s);
        match s {
            Step::Create(name) => {
                if self.can_create(name) {
                    assert forall|a: Seq<char>, b: Seq<char>|
                        after.ids.dom().contains(a) && after.ids.dom().contains(b) && a != b
                            implies after.ids[a] != after.ids[b] by {
                        if a != name {
                            assert(self.ids[a] < self.next);
                        }
                        if b != name {
                            assert(self.ids[b] < self.next);
                        }
                    }
                    assert forall|a: Seq<char>| after.ids.dom().contains(a) implies (
                    #[trigger] after.ids[a]) < after.next by {
                        if a != name {
                            assert(self.ids[a] < self.next);
                        }
                    }
                }
            },
            Step::Drop(name) => {},
        }
    }

    /// Dropping a family kills its handle.
    pub proof fn lemma_drop_kills(self, name: Seq<char>)
        requires
            self.wf(),
            self.ids.dom().contains(name),
        ensures
            !self.drop_family(name).live(self.ids[name]),
            self.issued(self.ids[name]),
    {
        let after = self.drop_family(name);
        let id = self.ids[name];
        if after.live(id) {
            let a = choose|a: Seq<char>| after.ids.contains_pair(a, id);
            assert(self.ids.dom().contains(a) && a != name);
        }
    }

    /// A handle that was issued and is dead stays dead through any change.
    pub proof fn lemma_dead_stays_dead_step(self, id: u64, s: Step)
        requires
            self.wf(),
            self.issued(id),
            !self.live(id),
        ensures
            !self.step(s).live(id),
            self.step(s).issued(id),
    {
        let after = self.step(s);
        if after.live(id) {
            let a = choose|a: Seq<char>| after.ids.contains_pair(a, id);
            match s {
                Step::Create(name) => {
                    if self.can_create(name) {
                        if a != name {
                            assert(self.ids.contains_pair(a, id));
                        }
                    }
                },
                Step::Drop(name) => {
                    assert(self.ids.contains_pair(a, id));
                },
            }
        }
    }

    /// A handle whose family was dropped stays dead whatever is created or
    /// dropped afterwards: its identifier is never issued again.
    pub proof fn lemma_dead_stays_dead(self, id: u64, steps: Seq<Step>)
        requires
            self.wf(),
            self.issued(id),
            !self.live(id),
        ensures
            self.run(steps).wf(),
            self.run(steps).issued(id),
            !self.run(steps).live(id),
        decreases steps.len(),
    {
        if steps.len() > 0 {
            self.lemma_dead_stays_dead(id, steps.drop_last());
            let mid = self.run(steps.drop_last());
            mid.lemma_step_wf(steps.last());
            mid.lemma_dead_stays_dead_step(id, steps.last());
        }
    }
}

/// Whether the UTF-8 form of a name holds a zero byte. The engine takes
/// names as zero-terminated strings, so such a name cannot be handed to it.
pub open spec fn has_nul(name: Seq<char>) -> bool {
    encode_utf8(name).contains(0u8)
}

/// Tells whether a name holds a zero byte.
pub fn name_has_nul(name: &str) -> (b: bool)
    ensures
        b == has_nul(name@),
{
    let bytes = name.as_bytes();
    let mut i: usize = 0;
    while i < bytes.len()
        invariant
            i <= bytes.len(),
            bytes@ == encode_utf8(name@),
            forall|j: int| 0 <= j < i ==> bytes@[j] != 0u8,
        decreases bytes.len() - i,
    {
        if bytes[i] == 0u8 {
            return true;
        }
        i += 1;
    }
    false
}

#[derive(Debug)]
struct Entry {
    name: String,
    handle: ColumnFamily,
}

spec fn to_map(s: Seq<Entry>) -> Map<Seq<char>, u64>
    decreases s.len(),
{
    if s.len() == 0 {
        Map::empty()
    } else {
        to_map(s.drop_last()).insert(s.last().name@, s.last().handle.id)
    }
}

spec fn distinct_names(s: Seq<Entry>) -> bool {
    forall|i: int, j: int| 0 <= i < j < s.len() ==> s[i].name@ != s[j].name@
}

spec fn distinct_ids(s: Seq<Entry>) -> bool {
    forall|i: int, j: int| 0 <= i < j < s.len() ==> s[i].handle.id != s[j].handle.id
}

proof fn lemma_dom(s: Seq<Entry>, n: Seq<char>)
    ensures
        to_map(s).dom().contains(n) <==> exists|i: int| 0 <= i < s.len() && s[i].name@ == n,
    decreases s.len(),
{
    if s.len() > 0 {
        let front = s.drop_last();
        lemma_dom(front, n);
        if exists|i: int| 0 <= i < s.len() && s[i].name@ == n {
            let i = choose|i: int| 0 <= i < s.len() && s[i].name@ == n;
            if i < s.len() - 1 {
                assert(front[i].name@ == n);
            }
        }
        if to_map(s).dom().contains(n) {
            if s.last().name@ == n {
                assert(s[s.len() - 1].name@ == n);
            } else {
                let i = choose|i: int| 0 <= i < front.len() && front[i].name@ == n;
                assert(s[i].name@ == n);
            }
        }
    }
}

proof fn lemma_lookup(s: Seq<Entry>, i: int)
    requires
        distinct_names(s),
        0 <= i < s.len(),
    ensures
        to_map(s).contains_pair(s[i].name@, s[i].handle.id),
    decreases s.len(),
{
    if i < s.len() - 1 {
        let front = s.drop_last();
        assert(distinct_names(front)) by {
            assert forall|a: int, b: int| 0 <= a < b < front.len() implies front[a].name@
                != front[b].name@ by {
                assert(s[a].name@ != s[b].name@);
            }
        }
        lemma_lookup(front, i);
        assert(front[i] == s[i]);
        assert(s[i].name@ != s[s.len() - 1].name@);
    }
}

proof fn lemma_remove(s: Seq<Entry>, i: int)
    requires
        distinct_names(s),
        0 <= i < s.len(),
    ensures
        to_map(s.remove(i)) == to_map(s).remove(s[i].name@),
    decreases s.len(),
{
    let front = s.drop_last();
    let n = s[i].name@;
    if i == s.len() - 1 {
        assert(s.remove(i) =~= front);
        lemma_dom(front, n);
        if to_map(front).dom().contains(n) {
            let j = choose|j: int| 0 <= j < front.len() && front[j].name@ == n;
            assert(s[j].name@ != s[i].name@);
        }
        assert(to_map(front) =~= to_map(s).remove(n));
    } else {
        assert(distinct_names(front)) by {
            assert forall|a: int, b: int| 0 <= a < b < front.len() implies front[a].name@
                != front[b].name@ by {
                assert(s[a].name@ != s[b].name@);
            }
        }
        lemma_remove(front, i);
        assert(front[i] == s[i]);
        assert(s.remove(i).drop_last() =~= front.remove(i));
        assert(s.remove(i).last() == s.last());
        assert(s[i].name@ != s[s.len() - 1].name@);
        assert(to_map(s.remove(i)) =~= to_map(s).remove(n));
    }
}

proof fn lemma_live(s: Seq<Entry>, id: u64)
    requires
        distinct_names(s),
    ensures
        (exists|a: Seq<char>| to_map(s).contains_pair(a, id)) <==> exists|i: int|
            0 <= i < s.len() && s[i].handle.id == id,
{
    if exists|a: Seq<char>| to_map(s).contains_pair(a, id) {
        let a = choose|a: Seq<char>| to_map(s).contains_pair(a, id);
        lemma_dom(s, a);
        let i = choose|i: int| 0 <= i < s.len() && s[i].name@ == a;
        lemma_lookup(s, i);
        assert(s[i].handle.id == id);
    }
    if exists|i: int| 0 <= i < s.len() && s[i].handle.id == id {
        let i = choose|i: int| 0 <= i < s.len() && s[i].handle.id == id;
        lemma_lookup(s, i);
    }
}

/// Maps each column family's name to its handle. Names are unique; the
/// order in which families were created plays no part.
#[derive(Debug)]
pub struct ColumnFamilyRegistry {
    entries: Vec<Entry>,
    next_id: u64,
}

impl View for ColumnFamilyRegistry {
    type V = Families;

    closed spec fn view(&self) -> Families {
        Families { ids: to_map(self.entries@), next: self.next_id as nat }
    }
}

impl ColumnFamilyRegistry {
    /// The registry's invariant.
    pub closed spec fn wf(&self) -> bool {
        &&& distinct_names(self.entries@)
        &&& distinct_ids(self.entries@)
        &&& forall|i: int| 0 <= i < self.entries.len() ==> self.entries[i].handle.id < self.next_id
    }

    /// A well-formed registry has a well-formed content.
    pub proof fn lemma_view_wf(&self)
        requires
            self.wf(),
        ensures
            self@.wf(),
    {
        let s = self.entries@;
        let m = to_map(s);
        assert forall|a: Seq<char>| m.dom().contains(a) implies (#[trigger] m[a]) < self.next_id by {
            lemma_dom(s, a);
            let i = choose|i: int| 0 <= i < s.len() && s[i].name@ == a;
            lemma_lookup(s, i);
        }
        assert forall|a: Seq<char>, b: Seq<char>|
            m.dom().contains(a) && m.dom().contains(b) && a != b implies m[a] != m[b] by {
            lemma_dom(s, a);
            lemma_dom(s, b);
            let i = choose|i: int| 0 <= i < s.len() && s[i].name@ == a;
            let j = choose|j: int| 0 <= j < s.len() && s[j].name@ == b;
            lemma_lookup(s, i);
            lemma_lookup(s, j);
            if i < j {
                assert(s[i].handle.id != s[j].handle.id);
            } else {
                assert(s[j].handle.id != s[i].handle.id);
            }
        }
    }

    /// A registry without families.
    pub fn new() -> (r: ColumnFamilyRegistry)
        ensures
            r.wf(),
            r@.ids == Map::<Seq<char>, u64>::empty(),
            r@.next == 0,
    {
        ColumnFamilyRegistry { entries: Vec::new(), next_id: 0 }
    }

    /// The number of families.
    pub fn len(&self) -> (n: usize)
        requires
            self.wf(),
        ensures
            n == self@.ids.dom().len(),
            self@.ids.dom().finite(),
    {
        proof {
            lemma_len(self.entries@);
        }
        self.entries.len()
    }

    fn position(&self, name: &String) -> (r: Option<usize>)
        ensures
            match r {
                Some(i) => i < self.entries.len() && self.entries[i as int].name@ == name@,
                None => forall|j: int| 0 <= j < self.entries.len() ==> self.entries[j].name@ != name@,
            },
    {
        let mut i: usize = 0;
        while i < self.entries.len()
            invariant
                i <= self.entries.len(),
                forall|j: int| 0 <= j < i ==> self.entries[j].name@ != name@,
            decreases self.entries.len() - i,
        {
            if self.entries[i].name == *name {
                return Some(i);
            }
            i += 1;
        }
        None
    }

    /// The handle of the family of this name, if there is one.
    pub fn handle_for(&self, name: &str) -> (r: Option<&ColumnFamily>)
        requires
            self.wf(),
        ensures
            match r {
                Some(h) => self@.ids.contains_pair(name@, h@),
                None => !self@.ids.dom().contains(name@),
            },
    {
        let owned = name.to_owned();
        proof {
            lemma_dom(self.entries@, name@);
        }
        match self.position(&owned) {
            Some(i) => {
                proof {
                    lemma_lookup(self.entries@, i as int);
                }
                Some(&self.entries[i].handle)
            },
            None => None,
        }
    }

    /// The identifier that the next family would get, if one is left.
    pub fn next_handle(&self) -> (r: Option<u64>)
        ensures
            match r {
                Some(id) => id == self@.next && self@.next < u64::MAX,
                None => self@.next >= u64::MAX,
            },
    {
        if self.next_id == u64::MAX {
            None
        } else {
            Some(self.next_id)
        }
    }

    /// Whether the handle's family is still in the registry.
    pub fn is_live(&self, handle: &ColumnFamily) -> (b: bool)
        requires
            self.wf(),
        ensures
            b == self@.live(handle@),
    {
        proof {
            lemma_live(self.entries@, handle.id);
        }
        let mut i: usize = 0;
        while i < self.entries.len()
            invariant
                self.wf(),
                i <= self.entries.len(),
                forall|j: int| 0 <= j < i ==> self.entries[j].handle.id != handle.id,
            decreases self.entries.len() - i,
        {
            if self.entries[i].handle.id == handle.id {
                proof {
                    lemma_lookup(self.entries@, i as int);
                    assert(self@.ids.contains_pair(self.entries@[i as int].name@, handle@));
                }
                return true;
            }
            i += 1;
        }
        false
    }

    /// Enters a family under a fresh handle. A name that is already there,
    /// or a registry that has issued every identifier, is an error and
    /// changes nothing.
    pub fn insert(&mut self, name: &str) -> (r: Result<ColumnFamily, Error>)
        requires
            old(self).wf(),
        ensures
            final(self).wf(),
            match r {
                Ok(h) => old(self)@.can_create(name@) && h@ == old(self)@.next && final(self)@
                    == old(self)@.create(name@),
                Err(e) => !old(self)@.can_create(name@) && final(self)@ == old(self)@
                    && e.spec_kind() == ErrorKind::ColumnFamilyError,
            },
    {
        let owned = name.to_owned();
        proof {
            lemma_dom(self.entries@, name@);
        }
        if self.position(&owned).is_some() {
            return Err(
                Error::with_kind(
                    ErrorKind::ColumnFamilyError,
                    "Column family already exists: ".to_owned().concat(name),
                ),
            );
        }
        if self.next_id == u64::MAX {
            return Err(
                Error::with_kind(
                    ErrorKind::ColumnFamilyError,
                    "No column family handle left: ".to_owned().concat(name),
                ),
            );
        }
        let handle = ColumnFamily { id: self.next_id };
        let ghost before = self.entries@;
        self.entries.push(Entry { name: owned, handle });
        self.next_id = self.next_id + 1;
        proof {
            assert(self.entries@.drop_last() =~= before);
        }
        Ok(handle)
    }

    /// Takes the family of this name out and returns its handle, which is
    /// dead from then on. An unknown name is an error and changes nothing.
    pub fn remove(&mut self, name: &str) -> (r: Result<ColumnFamily, Error>)
        requires
            old(self).wf(),
        ensures
            final(self).wf(),
            match r {
                Ok(h) => old(self)@.ids.contains_pair(name@, h@) && final(self)@ == old(self)@.drop_family(name@) && !final(self)@.live(h@),
                Err(e) => !old(self)@.ids.dom().contains(name@) && final(self)@ == old(self)@
                    && e.spec_kind() == ErrorKind::ColumnFamilyError && e.spec_message()
                    == "Invalid column family: "@ + name@,
            },
    {
        let owned = name.to_owned();
        proof {
            lemma_dom(self.entries@, name@);
        }
        match self.position(&owned) {
            Some(i) => {
                proof {
                    lemma_lookup(self.entries@, i as int);
                    lemma_remove(self.entries@, i as int);
                    self.lemma_view_wf();
                    self@.lemma_drop_kills(name@);
                }
                let entry = self.entries.remove(i);
                Ok(entry.handle)
            },
            None => Err(
                Error::with_kind(
                    ErrorKind::ColumnFamilyError,
                    "Invalid column family: ".to_owned().concat(name),
                ),
            ),
        }
    }
}

proof fn lemma_len(s: Seq<Entry>)
    requires
        distinct_names(s),
    ensures
        to_map(s).dom().finite(),
        to_map(s).dom().len() == s.len(),
    decreases s.len(),
{
    if s.len() > 0 {
        let front = s.drop_last();
        assert(distinct_names(front)) by {
            assert forall|a: int, b: int| 0 <= a < b < front.len() implies front[a].name@
                != front[b].name@ by {
                assert(s[a].name@ != s[b].name@);
            }
        }
        lemma_len(front);
        lemma_dom(front, s.last().name@);
        if to_map(front).dom().contains(s.last().name@) {
            let j = choose|j: int| 0 <= j < front.len() && front[j].name@ == s.last().name@;
            assert(s[j].name@ != s[s.len() - 1].name@);
        }
        assert(to_map(s).dom() =~= to_map(front).dom().insert(s.last().name@));
    }
}

} // verus!
