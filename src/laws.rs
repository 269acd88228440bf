use vstd::prelude::*;
use crate::adapter::{
    created_view, delete_view, deleted_view, failure_view, get_view, list_view, record_view,
    update_view, BodyView, Status,
};
use crate::error::AppError;
use crate::model::{apply_patch, name_only, with_id, PatchView, RestaurantView};
use crate::object_id::{id_bytes_of, is_id_text};
use crate::repo::{
    create_state, delete_result, delete_state, get_result, has_id, index_of, lemma_index_unique,
    list_result, update_modifies, update_result, update_state, well_formed,
};

verus! {

/// A record created without an identifier, once storage has given it a fresh
/// one, is exactly what a lookup of that identifier returns.
pub proof fn create_then_get(s: Seq<RestaurantView>, r: RestaurantView, id: Seq<u8>)
    requires
        well_formed(s),
        r.id is None,
        !has_id(s, id),
    ensures
        well_formed(create_state(s, r, id)),
        get_result(create_state(s, r, id), id) == Ok::<RestaurantView, AppError>(with_id(r, id)),
{
    let t = create_state(s, r, id);
    assert(t == s.push(with_id(r, id)));
    assert forall|i: int, j: int|
        0 <= i < t.len() && 0 <= j < t.len() && i != j implies (#[trigger] t[i]).id != (#[trigger] t[j]).id by {
        if i == s.len() && t[i].id == t[j].id {
            assert(s[j].id == Some(id));
        }
        if j == s.len() && t[i].id == t[j].id {
            assert(s[i].id == Some(id));
        }
    }
    lemma_index_unique(t, id, s.len() as int);
}

/// An identifier that no stored record carries is `NotFound` for a lookup and
/// for a delete, and the delete changes nothing.
pub proof fn absent_id_not_found(s: Seq<RestaurantView>, id: Seq<u8>)
    requires
        !has_id(s, id),
    ensures
        get_result(s, id) == Err::<RestaurantView, AppError>(AppError::NotFound),
        delete_result(s, id) == Err::<(), AppError>(AppError::NotFound),
        delete_state(s, id) == s,
{
}

/// A listing of `n` records returns `min(n, total)` of them, and a listing of
/// none returns nothing.
pub proof fn list_is_capped(s: Seq<RestaurantView>, n: int)
    requires
        n >= 0,
    ensures
        list_result(s, n).len() == if n < s.len() { n } else { s.len() as int },
        list_result(s, 0) == Seq::<RestaurantView>::empty(),
{
}

/// After renaming a stored record, a lookup shows the new name and every other
/// field as it was.
pub proof fn rename_then_get(s: Seq<RestaurantView>, id: Seq<u8>, name: Seq<char>)
    requires
        well_formed(s),
        has_id(s, id),
    ensures
        well_formed(update_state(s, id, name_only(name))),
        get_result(update_state(s, id, name_only(name)), id) == Ok::<RestaurantView, AppError>(
            RestaurantView { name: name, ..s[index_of(s, id)] },
        ),
{
    let k = index_of(s, id);
    let p = name_only(name);
    let after = RestaurantView { name: name, ..s[k] };
    assert(apply_patch(s[k], p) == after);
    if update_modifies(s, id, p) {
        let t = s.update(k, after);
        assert(t == update_state(s, id, p));
        assert forall|i: int, j: int|
            0 <= i < t.len() && 0 <= j < t.len() && i != j implies (#[trigger] t[i]).id != (#[trigger] t[j]).id by {
            assert(s[i].id != s[j].id);
        }
        lemma_index_unique(t, id, k);
    } else {
        assert(s[k] == after);
        lemma_index_unique(s, id, k);
    }
}

/// Once a record is deleted, lookups of its identifier are `NotFound`, and so
/// is every further delete, which changes nothing.
pub proof fn delete_then_get(s: Seq<RestaurantView>, id: Seq<u8>)
    requires
        well_formed(s),
    ensures
        well_formed(delete_state(s, id)),
        !has_id(delete_state(s, id), id),
        get_result(delete_state(s, id), id) == Err::<RestaurantView, AppError>(AppError::NotFound),
        delete_result(delete_state(s, id), id) == Err::<(), AppError>(AppError::NotFound),
        delete_state(delete_state(s, id), id) == delete_state(s, id),
{
    if has_id(s, id) {
        let k = index_of(s, id);
        let t = s.remove(k);
        assert forall|i: int| 0 <= i < t.len() implies (#[trigger] t[i]).id != Some(id) by {
            let i2 = if i < k { i } else { i + 1 };
            assert(t[i] == s[i2]);
        }
        assert forall|a: int, b: int|
            0 <= a < t.len() && 0 <= b < t.len() && a != b implies (#[trigger] t[a]).id != (#[trigger] t[b]).id by {
            let a2 = if a < k { a } else { a + 1 };
            let b2 = if b < k { b } else { b + 1 };
            assert(t[a] == s[a2]);
            assert(t[b] == s[b2]);
        }
        assert forall|i: int| 0 <= i < t.len() implies (#[trigger] t[i]).id is Some by {
            let i2 = if i < k { i } else { i + 1 };
            assert(t[i] == s[i2]);
        }
    }
}

/// Every route answers `NotFound` the same way: an identifier that parses but
/// matches nothing gets a not-found status from get, update and delete, and a
/// record the repository returns is the body as it is.
pub proof fn routes_agree_on_outcomes(
    s: Seq<RestaurantView>,
    id_text: Seq<char>,
    p: PatchView,
    x: RestaurantView,
)
    requires
        is_id_text(id_text),
        !has_id(s, id_bytes_of(id_text)),
    ensures
        get_view(s, id_text).status == Status::NotFound,
        update_view(s, id_text, p).status == Status::NotFound,
        delete_view(s, id_text).status == Status::NotFound,
        failure_view(AppError::NotFound).status == Status::NotFound,
        record_view(Ok(x)).body == BodyView::Record(x),
        created_view(Ok(x)).body == BodyView::Record(x),
        list_view(Ok(seq![x])).body == BodyView::Records(seq![x]),
        deleted_view(Err(AppError::NotFound)).status == Status::NotFound,
{
    assert(!update_modifies(s, id_bytes_of(id_text), p));
    assert(update_result(s, id_bytes_of(id_text), p) == Err::<RestaurantView, AppError>(
        AppError::NotFound,
    ));
}

} // verus!
