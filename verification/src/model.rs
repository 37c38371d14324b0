//! Mathematical model of the credential record: the two token slots held
//! under the service namespace, and how each operation changes them.
//!
//! The backend may accept or reject each individual write, so the `set`
//! transition is parameterized by the per-slot outcomes. `get` returns the
//! slots as they stand; `clear` empties both slots unconditionally.
use vstd::prelude::*;

verus! {

/// The two token slots of the service namespace, as the credential store
/// holds them: each slot is either a stored secret or absent.
pub ghost struct StoreView {
    pub access_token: Option<Seq<char>>,
    pub refresh_token: Option<Seq<char>>,
}

/// A namespace in which no secret was ever stored.
pub open spec fn empty_store() -> StoreView {
    StoreView { access_token: None, refresh_token: None }
}

/// The store after `set(a, r)`, given which of the two writes the backend
/// accepted. The access token is written first; if that write is rejected
/// the refresh-token write is never attempted, so `refresh_ok` is
/// irrelevant in that case. A rejected write leaves its slot unchanged,
/// and an accepted one is not rolled back: the non-atomicity of the pair
/// is deliberate.
pub open spec fn store_after_set(
    s: StoreView,
    a: Seq<char>,
    r: Seq<char>,
    access_ok: bool,
    refresh_ok: bool,
) -> StoreView {
    if !access_ok {
        s
    } else if !refresh_ok {
        StoreView { access_token: Some(a), refresh_token: s.refresh_token }
    } else {
        StoreView { access_token: Some(a), refresh_token: Some(r) }
    }
}

/// Whether `set` reports success: it does exactly when both writes were
/// accepted.
pub open spec fn set_reports_ok(access_ok: bool, refresh_ok: bool) -> bool {
    access_ok && refresh_ok
}

/// The store after `clear()`: both slots are empty. Deletion of an absent
/// slot is not an error, so the transition is total and reports nothing.
pub open spec fn store_after_clear(s: StoreView) -> StoreView {
    StoreView { access_token: None, refresh_token: None }
}

/// A fully accepted `set(a, r)` followed by `get()` yields exactly the
/// pair that was stored, whatever the store held before.
pub proof fn lemma_set_then_get(s: StoreView, a: Seq<char>, r: Seq<char>)
    ensures
        store_after_set(s, a, r, true, true) == (StoreView {
            access_token: Some(a),
            refresh_token: Some(r),
        }),
        set_reports_ok(true, true),
{
}

/// `clear()` followed by `get()` finds both slots absent, whatever the
/// store held before.
pub proof fn lemma_clear_then_get(s: StoreView)
    ensures
        store_after_clear(s) == empty_store(),
        store_after_clear(s).access_token is None,
        store_after_clear(s).refresh_token is None,
{
}

/// `get()` on a namespace with no prior `set` finds both slots absent.
pub proof fn lemma_get_on_fresh_store()
    ensures
        empty_store().access_token is None,
        empty_store().refresh_token is None,
{
}

/// `clear()` is idempotent: clearing an already cleared store (and in
/// particular an empty one) changes nothing, and the transition is total,
/// so no outcome of it is an error.
pub proof fn lemma_clear_idempotent(s: StoreView)
    ensures
        store_after_clear(store_after_clear(s)) == store_after_clear(s),
        store_after_clear(empty_store()) == empty_store(),
{
}

/// Partial failure of `set(a, r)`: if the backend accepts the access-token
/// write but rejects the refresh-token write, `set` reports an error, yet
/// the access token remains persisted while the refresh slot keeps its
/// prior value — absent, when nothing was stored there before.
pub proof fn lemma_set_partial_failure(s: StoreView, a: Seq<char>, r: Seq<char>)
    ensures
        !set_reports_ok(true, false),
        store_after_set(s, a, r, true, false).access_token == Some(a),
        store_after_set(s, a, r, true, false).refresh_token == s.refresh_token,
        s.refresh_token is None ==> store_after_set(s, a, r, true, false) == (StoreView {
            access_token: Some(a),
            refresh_token: None,
        }),
{
}

} // verus!
