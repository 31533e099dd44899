//! The object map: protocol ids to object records.
//!
//! Ids below `SERVER_ID_LIMIT` are allocated by the client, the others by
//! the server. Id 0 is null and never holds a record.

use crate::protocol::Interface;
use std::collections::HashMap;
use vstd::prelude::*;

verus! {

broadcast use vstd::std_specs::hash::group_hash_axioms;

/// First id of the server's range.
pub const SERVER_ID_LIMIT: u32 = 0xFF00_0000;

/// The record of one protocol object.
pub struct Object<Data> {
    pub interface: &'static Interface,
    pub version: u32,
    pub data: Data,
}

/// The live objects of a connection, by protocol id.
pub struct ObjectMap<Data> {
    objects: HashMap<u32, Object<Data>>,
}

impl<Data> View for ObjectMap<Data> {
    type V = Map<u32, Object<Data>>;

    closed spec fn view(&self) -> Map<u32, Object<Data>> {
        self.objects@
    }
}

/// Whether `id` is the lowest id of the client range, display aside, that
/// `m` does not hold.
pub open spec fn lowest_free_client_id<Data>(m: Map<u32, Object<Data>>, id: u32) -> bool {
    &&& 2 <= id < SERVER_ID_LIMIT
    &&& !m.contains_key(id)
    &&& forall|j: u32| 2 <= j < id ==> m.contains_key(j)
}

/// Whether every id that a client may allocate is taken.
pub open spec fn client_range_full<Data>(m: Map<u32, Object<Data>>) -> bool {
    forall|j: u32| 2 <= j < SERVER_ID_LIMIT ==> m.contains_key(j)
}

/// Freeing an id of the client range and allocating again keeps the rule
/// of the lowest free id: the next id is the freed one where that is
/// below the id that was lowest before, and the latter otherwise.
pub proof fn lemma_realloc_after_free<Data>(
    m: Map<u32, Object<Data>>,
    freed: u32,
    before: u32,
    after: u32,
)
    requires
        2 <= freed < SERVER_ID_LIMIT,
        m.contains_key(freed),
        lowest_free_client_id(m, before),
        lowest_free_client_id(m.remove(freed), after),
    ensures
        after == if freed < before {
            freed
        } else {
            before
        },
{
    let left = m.remove(freed);
    if freed < before {
        if after < freed {
            assert(m.contains_key(after));
        } else if freed < after {
            assert(left.contains_key(freed));
        }
    } else {
        if after < before {
            assert(m.contains_key(after));
            assert(after == freed);
        } else if before < after {
            assert(left.contains_key(before));
        }
    }
}

/// At most one id is the lowest free one.
pub proof fn lemma_lowest_free_unique<Data>(m: Map<u32, Object<Data>>, a: u32, b: u32)
    requires
        lowest_free_client_id(m, a),
        lowest_free_client_id(m, b),
    ensures
        a == b,
{
    if a < b {
        assert(m.contains_key(a));
    } else if b < a {
        assert(m.contains_key(b));
    }
}

impl<Data> ObjectMap<Data> {
    /// The null id holds no record.
    pub open spec fn wf(&self) -> bool {
        !self@.contains_key(0)
    }

    /// An empty map.
    pub fn new() -> (m: Self)
        ensures
            m@ == Map::<u32, Object<Data>>::empty(),
            m.wf(),
    {
        ObjectMap { objects: HashMap::new() }
    }

    /// The record at `id`, if there is one.
    pub fn find(&self, id: u32) -> (r: Option<&Object<Data>>)
        ensures
            match r {
                Some(o) => self@.contains_key(id) && *o == self@[id],
                None => !self@.contains_key(id),
            },
    {
        self.objects.get(&id)
    }

    /// Whether a record is held at `id`.
    pub fn contains(&self, id: u32) -> (r: bool)
        ensures
            r == self@.contains_key(id),
    {
        self.objects.contains_key(&id)
    }

    /// Drops the record at `id`, if there is one.
    pub fn remove(&mut self, id: u32)
        ensures
            final(self)@ == old(self)@.remove(id),
            old(self).wf() ==> final(self).wf(),
    {
        let _ = self.objects.remove(&id);
    }

    /// Inserts `object` at `id`; fails, changing nothing, when `id` is null
    /// or taken.
    pub fn insert_at(&mut self, id: u32, object: Object<Data>) -> (r: Result<(), ()>)
        ensures
            r is Ok <==> id != 0 && !old(self)@.contains_key(id),
            r is Ok ==> final(self)@ == old(self)@.insert(id, object),
            r is Err ==> final(self)@ == old(self)@,
            old(self).wf() ==> final(self).wf(),
    {
        if id == 0 || self.objects.contains_key(&id) {
            Err(())
        } else {
            let _ = self.objects.insert(id, object);
            Ok(())
        }
    }

    /// Inserts `object` at the lowest free id of the client range and
    /// returns that id; `None`, changing nothing, when the range is full.
    pub fn client_insert_new(&mut self, object: Object<Data>) -> (r: Option<u32>)
        ensures
            match r {
                Some(id) => lowest_free_client_id(old(self)@, id) && final(self)@ == old(
                    self,
                )@.insert(id, object),
                None => client_range_full(old(self)@) && final(self)@ == old(self)@,
            },
            old(self).wf() ==> final(self).wf(),
    {
        let mut id: u32 = 2;
        while id < SERVER_ID_LIMIT && self.objects.contains_key(&id)
            invariant
                2 <= id <= SERVER_ID_LIMIT,
                forall|j: u32| 2 <= j < id ==> self.objects@.contains_key(j),
                self.objects@ == old(self).objects@,
            decreases SERVER_ID_LIMIT - id,
        {
            id = id + 1;
        }
        if id == SERVER_ID_LIMIT {
            None
        } else {
            let _ = self.objects.insert(id, object);
            Some(id)
        }
    }

    /// Applies `f` to the record at `id` and stores what it returns; fails,
    /// changing nothing, when no record is held there.
    pub fn with<T, F: FnOnce(Object<Data>) -> (Object<Data>, T)>(&mut self, id: u32, f: F) -> (r:
        Result<T, ()>)
        requires
            old(self)@.contains_key(id) ==> f.requires((old(self)@[id],)),
        ensures
            match r {
                Ok(t) => old(self)@.contains_key(id) && final(self)@.contains_key(id) && f.ensures(
                    (old(self)@[id],),
                    (final(self)@[id], t),
                ) && final(self)@ == old(self)@.insert(id, final(self)@[id]),
                Err(_) => !old(self)@.contains_key(id) && final(self)@ == old(self)@,
            },
            old(self).wf() ==> final(self).wf(),
    {
        match self.objects.remove(&id) {
            Some(object) => {
                let (object, t) = f(object);
                let _ = self.objects.insert(id, object);
                proof {
                    assert(self.objects@ =~= old(self).objects@.insert(id, object));
                }
                Ok(t)
            },
            None => {
                proof {
                    assert(self.objects@ =~= old(self).objects@);
                }
                Err(())
            },
        }
    }
}

} // verus!
