use vstd::prelude::*;
use crate::error::AppError;
use crate::model::{apply_patch, with_id, PatchView, Restaurant, RestaurantPatch, RestaurantView};
use crate::object_id::RecordId;

verus! {

// ---------------------------------------------------------------------------
// The collection as a value, and what each repository operation does to it.
// ---------------------------------------------------------------------------

/// Every stored record carries an identifier, and no two carry the same one.
pub open spec fn well_formed(s: Seq<RestaurantView>) -> bool {
    &&& forall|i: int| 0 <= i < s.len() ==> (#[trigger] s[i]).id is Some
    &&& forall|i: int, j: int|
        0 <= i < s.len() && 0 <= j < s.len() && i != j ==> (#[trigger] s[i]).id != (#[trigger] s[j]).id
}

/// Whether some stored record carries identifier `id`.
pub open spec fn has_id(s: Seq<RestaurantView>, id: Seq<u8>) -> bool {
    exists|i: int| 0 <= i < s.len() && (#[trigger] s[i]).id == Some(id)
}

/// The position of the record with identifier `id` (meaningful when `has_id`).
pub open spec fn index_of(s: Seq<RestaurantView>, id: Seq<u8>) -> int {
    choose|i: int| 0 <= i < s.len() && (#[trigger] s[i]).id == Some(id)
}

/// The collection after inserting `r` under identifier `id`; an identifier
/// already in use leaves it unchanged.
pub open spec fn create_state(s: Seq<RestaurantView>, r: RestaurantView, id: Seq<u8>) -> Seq<
    RestaurantView,
> {
    if has_id(s, id) {
        s
    } else {
        s.push(with_id(r, id))
    }
}

/// What a lookup of `id` yields.
pub open spec fn get_result(s: Seq<RestaurantView>, id: Seq<u8>) -> Result<RestaurantView, AppError> {
    if has_id(s, id) {
        Ok(s[index_of(s, id)])
    } else {
        Err(AppError::NotFound)
    }
}

/// The first `limit` records in storage order; none when `limit` is not
/// positive.
pub open spec fn list_result(s: Seq<RestaurantView>, limit: int) -> Seq<RestaurantView> {
    if limit <= 0 {
        Seq::empty()
    } else if limit < s.len() {
        s.take(limit)
    } else {
        s
    }
}

/// Whether merging `p` into the record with identifier `id` modifies it: the
/// record exists and the merge changes some field.
pub open spec fn update_modifies(s: Seq<RestaurantView>, id: Seq<u8>, p: PatchView) -> bool {
    has_id(s, id) && apply_patch(s[index_of(s, id)], p) != s[index_of(s, id)]
}

/// The collection after merging `p` into the record with identifier `id`.
pub open spec fn update_state(s: Seq<RestaurantView>, id: Seq<u8>, p: PatchView) -> Seq<
    RestaurantView,
> {
    if update_modifies(s, id, p) {
        s.update(index_of(s, id), apply_patch(s[index_of(s, id)], p))
    } else {
        s
    }
}

/// What an update yields: the merged record, or `NotFound` when nothing was
/// modified.
pub open spec fn update_result(s: Seq<RestaurantView>, id: Seq<u8>, p: PatchView) -> Result<
    RestaurantView,
    AppError,
> {
    if update_modifies(s, id, p) {
        Ok(apply_patch(s[index_of(s, id)], p))
    } else {
        Err(AppError::NotFound)
    }
}

/// The collection after deleting the record with identifier `id`.
pub open spec fn delete_state(s: Seq<RestaurantView>, id: Seq<u8>) -> Seq<RestaurantView> {
    if has_id(s, id) {
        s.remove(index_of(s, id))
    } else {
        s
    }
}

/// What a delete yields.
pub open spec fn delete_result(s: Seq<RestaurantView>, id: Seq<u8>) -> Result<(), AppError> {
    if has_id(s, id) {
        Ok(())
    } else {
        Err(AppError::NotFound)
    }
}

/// The storage failure that reports an identifier already in use.
pub open spec fn is_duplicate_key(e: AppError) -> bool {
    e matches AppError::MongoDB(m) && m@ == "duplicate key error on _id"@
}

/// In a well-formed collection the record that carries `id` is the one at
/// `index_of`.
pub proof fn lemma_index_unique(s: Seq<RestaurantView>, id: Seq<u8>, i: int)
    requires
        well_formed(s),
        0 <= i < s.len(),
        s[i].id == Some(id),
    ensures
        has_id(s, id),
        index_of(s, id) == i,
{
    assert(has_id(s, id));
    let k = index_of(s, id);
    assert(s[k].id == s[i].id);
}

// ---------------------------------------------------------------------------
// Decisions on what a storage round trip reported. Any backing store uses
// these, so that every repository reports the same outcomes.
// ---------------------------------------------------------------------------

/// A lookup that came back empty is `NotFound`.
pub fn found_or_not_found(found: Option<Restaurant>) -> (r: Result<Restaurant, AppError>)
    ensures
        found matches Some(x) ==> r == Ok::<Restaurant, AppError>(x),
        found is None ==> r == Err::<Restaurant, AppError>(AppError::NotFound),
{
    match found {
        Some(x) => Ok(x),
        None => Err(AppError::NotFound),
    }
}

/// Whether a listing that has gathered `fetched` records must stop reading.
pub fn cap_reached(fetched: usize, limit: i64) -> (r: bool)
    ensures
        r == (limit <= 0 || fetched as int >= limit as int),
{
    limit <= 0 || fetched as u64 >= limit as u64
}

/// An update that modified no record is `NotFound`.
pub fn modified_outcome(modified_count: u64) -> (r: Result<(), AppError>)
    ensures
        modified_count == 0 ==> r == Err::<(), AppError>(AppError::NotFound),
        modified_count > 0 ==> r == Ok::<(), AppError>(()),
{
    if modified_count == 0 {
        Err(AppError::NotFound)
    } else {
        Ok(())
    }
}

/// A delete that removed no record is `NotFound`.
pub fn deleted_outcome(deleted_count: u64) -> (r: Result<(), AppError>)
    ensures
        deleted_count == 0 ==> r == Err::<(), AppError>(AppError::NotFound),
        deleted_count > 0 ==> r == Ok::<(), AppError>(()),
{
    if deleted_count == 0 {
        Err(AppError::NotFound)
    } else {
        Ok(())
    }
}

// ---------------------------------------------------------------------------
// The repository held in memory.
// ---------------------------------------------------------------------------

pub open spec fn records_view(v: Seq<Restaurant>) -> Seq<RestaurantView> {
    v.map_values(|r: Restaurant| r@)
}

/// A repository whose storage is a vector in this process: records in
/// insertion order, one per identifier.
pub struct MemoryRepo {
    records: Vec<Restaurant>,
}

impl View for MemoryRepo {
    type V = Seq<RestaurantView>;

    closed spec fn view(&self) -> Seq<RestaurantView> {
        records_view(self.records@)
    }
}

impl MemoryRepo {
    pub open spec fn wf(&self) -> bool {
        well_formed(self@)
    }

    /// An empty repository.
    pub fn new() -> (r: MemoryRepo)
        ensures
            r.wf(),
            r@ == Seq::<RestaurantView>::empty(),
    {
        let r = MemoryRepo { records: Vec::new() };
        assert(r@ =~= Seq::<RestaurantView>::empty());
        r
    }

    /// How many records are stored.
    pub fn len(&self) -> (r: usize)
        ensures
            r == self@.len(),
    {
        self.records.len()
    }

    /// The position of the record with identifier `id`.
    fn position(&self, id: &RecordId) -> (r: Option<usize>)
        requires
            self.wf(),
        ensures
            r is None <==> !has_id(self@, id@),
            r matches Some(i) ==> i < self@.len() && i == index_of(self@, id@),
    {
        let mut i: usize = 0;
        while i < self.records.len()
            invariant
                0 <= i <= self.records@.len(),
                self@ == records_view(self.records@),
                well_formed(self@),
                forall|j: int| 0 <= j < i ==> (#[trigger] self@[j]).id != Some(id@),
            decreases self.records@.len() - i,
        {
            let found = match &self.records[i].id {
                Some(x) => x.same(id),
                None => false,
            };
            if found {
                proof {
                    lemma_index_unique(self@, id@, i as int);
                }
                return Some(i);
            }
            i = i + 1;
        }
        None
    }

    /// Stores `record` under identifier `id` and returns the stored copy. An
    /// identifier already in use is a storage failure (duplicate key) and
    /// leaves the collection unchanged.
    pub fn insert_with_id(&mut self, record: Restaurant, id: RecordId) -> (r: Result<
        Restaurant,
        AppError,
    >)
        requires
            old(self).wf(),
        ensures
            final(self).wf(),
            final(self)@ == create_state(old(self)@, record@, id@),
            r is Ok <==> !has_id(old(self)@, id@),
            r matches Ok(x) ==> x@ == with_id(record@, id@),
            r matches Err(e) ==> is_duplicate_key(e),
    {
        if self.position(&id).is_some() {
            return Err(AppError::MongoDB(String::from_str("duplicate key error on _id")));
        }
        let mut stored = record;
        stored.id = Some(id);
        let out = stored.copy();
        proof {
            let s = self@;
            assert forall|i: int| 0 <= i < s.len() implies (#[trigger] s[i]).id != Some(id@) by {
                if s[i].id == Some(id@) {
                    assert(has_id(s, id@));
                }
            }
        }
        self.records.push(stored);
        assert(self@ =~= create_state(old(self)@, record@, id@));
        Ok(out)
    }

    /// Stores `record` and returns what is now stored. A record without an
    /// identifier gets a fresh one; one with an identifier keeps it.
    pub fn create_restaurant(&mut self, record: Restaurant) -> (r: Result<Restaurant, AppError>)
        requires
            old(self).wf(),
        ensures
            final(self).wf(),
            r matches Ok(x) ==> x@.id is Some && x@ == with_id(record@, x@.id->Some_0)
                && final(self)@ == old(self)@.push(x@) && !has_id(old(self)@, x@.id->Some_0),
            r matches Ok(x) ==> (record.id matches Some(i) ==> x@.id == Some(i@)),
            r matches Err(e) ==> is_duplicate_key(e) && final(self)@ == old(self)@,
            record.id matches Some(i) ==> (r is Ok <==> !has_id(old(self)@, i@)),
            r is Err ==> old(self)@.len() > 0,
            old(self)@.len() == 0 ==> r is Ok,
    {
        let id = match record.id {
            Some(i) => i,
            None => RecordId::generate(),
        };
        self.insert_with_id(record, id)
    }

    /// The first `limit` records in storage order.
    pub fn get_restaurants(&self, limit: i64) -> (r: Result<Vec<Restaurant>, AppError>)
        requires
            self.wf(),
        ensures
            r matches Ok(v) && records_view(v@) == list_result(self@, limit as int),
    {
        let mut out: Vec<Restaurant> = Vec::new();
        let mut i: usize = 0;
        while i < self.records.len() && !cap_reached(out.len(), limit)
            invariant
                0 <= i <= self.records@.len(),
                out@.len() == i,
                limit > 0 ==> i <= limit,
                limit <= 0 ==> i == 0,
                self@ == records_view(self.records@),
                forall|j: int| 0 <= j < i ==> (#[trigger] out@[j])@ == self@[j],
            decreases self.records@.len() - i,
        {
            out.push(self.records[i].copy());
            i = i + 1;
        }
        proof {
            if limit <= 0 {
                assert(records_view(out@) =~= list_result(self@, limit as int));
            } else if (limit as int) < self@.len() {
                assert(i == limit);
                assert(records_view(out@) =~= self@.take(limit as int));
            } else {
                assert(i == self@.len());
                assert(records_view(out@) =~= self@);
            }
        }
        Ok(out)
    }

    /// The record with identifier `id`, or `NotFound`.
    pub fn get_restaurant_by_id(&self, id: RecordId) -> (r: Result<Restaurant, AppError>)
        requires
            self.wf(),
        ensures
            r matches Ok(x) ==> get_result(self@, id@) == Ok::<RestaurantView, AppError>(x@),
            r matches Err(e) ==> get_result(self@, id@) == Err::<RestaurantView, AppError>(e),
    {
        let found = match self.position(&id) {
            Some(i) => Some(self.records[i].copy()),
            None => None,
        };
        found_or_not_found(found)
    }

    /// Merges `patch` into the record with identifier `id` and returns the
    /// result. An update that modifies nothing (no such record, or every
    /// named field already holds the given value) is `NotFound`.
    pub fn update_restaurant(&mut self, id: RecordId, patch: &RestaurantPatch) -> (r: Result<
        Restaurant,
        AppError,
    >)
        requires
            old(self).wf(),
        ensures
            final(self).wf(),
            final(self)@ == update_state(old(self)@, id@, patch@),
            r matches Ok(x) ==> update_result(old(self)@, id@, patch@) == Ok::<
                RestaurantView,
                AppError,
            >(x@),
            r matches Err(e) ==> update_result(old(self)@, id@, patch@) == Err::<
                RestaurantView,
                AppError,
            >(e),
    {
        let modified_count: u64;
        let mut merged_record: Option<Restaurant> = None;
        match self.position(&id) {
            Some(i) => {
                let merged = patch.apply(&self.records[i]);
                if merged.same(&self.records[i]) {
                    modified_count = 0;
                } else {
                    let out = merged.copy();
                    proof {
                        let s = self@;
                        assert forall|a: int, b: int|
                            0 <= a < s.len() && 0 <= b < s.len() && a != b implies (#[trigger] s.update(
                                i as int,
                                merged@,
                            )[a]).id != (#[trigger] s.update(i as int, merged@)[b]).id by {}
                    }
                    self.records.set(i, merged);
                    assert(self@ =~= update_state(old(self)@, id@, patch@));
                    merged_record = Some(out);
                    modified_count = 1;
                }
            },
            None => {
                modified_count = 0;
            },
        }
        match modified_outcome(modified_count) {
            Ok(()) => found_or_not_found(merged_record),
            Err(e) => Err(e),
        }
    }

    /// Removes the record with identifier `id`, or reports `NotFound`.
    pub fn delete_restaurant(&mut self, id: RecordId) -> (r: Result<(), AppError>)
        requires
            old(self).wf(),
        ensures
            final(self).wf(),
            final(self)@ == delete_state(old(self)@, id@),
            r == delete_result(old(self)@, id@),
    {
        let deleted_count: u64 = match self.position(&id) {
            Some(i) => {
                proof {
                    let s = self@;
                    let t = s.remove(i as int);
                    assert forall|a: int, b: int|
                        0 <= a < t.len() && 0 <= b < t.len() && a != b implies (#[trigger] t[a]).id
                        != (#[trigger] t[b]).id by {
                        let a2 = if a < i { a } else { a + 1 };
                        let b2 = if b < i { b } else { b + 1 };
                        assert(t[a] == s[a2]);
                        assert(t[b] == s[b2]);
                    }
                }
                self.records.remove(i);
                assert(self@ =~= delete_state(old(self)@, id@));
                1
            },
            None => 0,
        };
        deleted_outcome(deleted_count)
    }
}

} // verus!
