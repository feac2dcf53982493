//! The service as a whole, over a model of the store, and what holds of it.

use vstd::prelude::*;

use crate::form::query_key;
use crate::reply::{category_model, step_of, ReplyModel, StepModel, StoreError};
use crate::router::{handler_of, HandlerModel};

verus! {

/// The store as a request sees it: the values it holds by key, or `None`
/// when it cannot be reached.
pub type StoreModel = Option<Map<Seq<char>, Seq<char>>>;

/// The outcome of a single-key get against the store.
pub open spec fn store_lookup(store: StoreModel, key: Seq<char>) -> Result<Seq<char>, StoreError> {
    match store {
        None => Err(StoreError::Unavailable),
        Some(m) => if m.contains_key(key) {
            Ok(m[key])
        } else {
            Err(StoreError::NotFound)
        },
    }
}

/// The value a lookup of `key` yields, if any.
pub open spec fn value_at(store: StoreModel, key: Seq<char>) -> Option<Seq<char>> {
    match store_lookup(store, key) {
        Ok(v) => Some(v),
        Err(_) => None,
    }
}

/// The reply that a request gets from the service over `store`.
pub open spec fn served(
    method: Seq<char>,
    path: Seq<char>,
    query: Option<Seq<char>>,
    store: StoreModel,
) -> ReplyModel {
    match step_of(handler_of(method, path, query)) {
        StepModel::Reply(r) => r,
        StepModel::Lookup(k) => category_model(store_lookup(store, k)),
    }
}

/// The two routed paths are different strings.
proof fn lemma_paths_differ()
    ensures
        "/ready"@ != "/category"@,
{
    reveal_strlit("/ready");
    reveal_strlit("/category");
    assert("/ready"@.len() != "/category"@.len());
}

/// `GET /ready` answers 200 with body `1\n`, whatever its query and
/// whatever the state of the store.
pub proof fn law_ready(query: Option<Seq<char>>, store: StoreModel)
    ensures
        served("GET"@, "/ready"@, query, store) == (ReplyModel { status: 200, body: "1\n"@ }),
{
}

/// A request whose method is not `GET`, or whose path is neither `/ready`
/// nor `/category`, answers 404.
pub proof fn law_unmatched(
    method: Seq<char>,
    path: Seq<char>,
    query: Option<Seq<char>>,
    store: StoreModel,
)
    requires
        method != "GET"@ || (path != "/ready"@ && path != "/category"@),
    ensures
        served(method, path, query, store).status == 404,
        served(method, path, query, store).body == "\n"@,
{
}

/// `GET /category` without a query string answers 200 with an empty line,
/// never 404.
pub proof fn law_category_without_query(store: StoreModel)
    ensures
        served("GET"@, "/category"@, None, store) == (ReplyModel { status: 200, body: "\n"@ }),
{
    lemma_paths_differ();
}

/// `GET /category?url=K`, where the store maps `K` to `V`, answers 200 with
/// body `V` and a newline.
pub proof fn law_category_found(query: Seq<char>, values: Map<Seq<char>, Seq<char>>, key: Seq<char>)
    requires
        query_key(query) == Some(key),
        values.contains_key(key),
    ensures
        served("GET"@, "/category"@, Some(query), Some(values))
            == (ReplyModel { status: 200, body: values[key] + "\n"@ }),
{
    lemma_paths_differ();
}

/// `GET /category?url=K`, where the store lacks `K` or cannot be reached,
/// answers 200 with an empty line: both failures look the same.
pub proof fn law_category_missing(query: Seq<char>, store: StoreModel, key: Seq<char>)
    requires
        query_key(query) == Some(key),
        store is None || !store->0.contains_key(key),
    ensures
        served("GET"@, "/category"@, Some(query), store) == (ReplyModel { status: 200, body: "\n"@ }),
{
    lemma_paths_differ();
}

/// A reply depends on the store only through the value held under the
/// request's own key: the same request against a store that was not changed
/// there gets the same reply, and lookups of other keys, concurrent or not,
/// cannot alter it.
pub proof fn law_same_value_same_reply(
    method: Seq<char>,
    path: Seq<char>,
    query: Option<Seq<char>>,
    before: StoreModel,
    after: StoreModel,
)
    requires
        forall|k: Seq<char>|
            handler_of(method, path, query) == HandlerModel::Category(k) ==> #[trigger] value_at(before, k)
                == value_at(after, k),
    ensures
        served(method, path, query, before) == served(method, path, query, after),
{
    match handler_of(method, path, query) {
        HandlerModel::Category(k) => {
            assert(value_at(before, k) == value_at(after, k));
        },
        _ => {},
    }
}

} // verus!
