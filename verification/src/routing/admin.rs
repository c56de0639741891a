//! Admin routes.
//!
//! Admin routes that require an API key to use.

use vstd::prelude::*;
use vstd::string::StringExecFns;

use crate::schemas::{AuthErrorResponse, MessageResponse, RemoveItemResponse, STATUS_OK};
use crate::text::{decimal, u64_to_string};
use crate::routing::routes::{create_outcome, db_after_create, query_outcome, CreateOutcome};
use crate::types::{
    opt_view, valid_entries, valid_item_id, ApiKeyExtractor, AppState, Config, ItemMap, ItemView,
};

verus! {

/// Whether `res` is the answer to removing `name` from a store that held
/// `removed` under it.
pub open spec fn is_remove_answer(
    res: RemoveItemResponse,
    removed: Option<ItemView>,
    name: Seq<char>,
) -> bool {
    match removed {
        Some(item) => res matches RemoveItemResponse::Removed(existing) && existing@ == item,
        None => res matches RemoveItemResponse::Error(response) && response.message@
            == "Item does not exist: "@ + name,
    }
}

/// What is reported after `count` items were removed.
pub open spec fn removed_message(count: nat) -> Seq<char> {
    "Removed "@ + decimal(count) + " items"@
}

/// The key that a configuration holds, if there is a configuration.
pub open spec fn configured_key(config: Option<&Config>) -> Option<Seq<char>> {
    match config {
        Some(c) => Some(c.api_key@),
        None => None,
    }
}

/// Remove all items.
pub fn delete_all_items(_api_key: ApiKeyExtractor, state: &mut AppState) -> (res: (
    u16,
    MessageResponse,
))
    ensures
        valid_entries(final(state)@),
        final(state)@ == ItemMap::empty(),
        res.0 == STATUS_OK,
        res.1.message@ == removed_message(old(state)@.dom().len()),
{
    let number_of_items: usize = state.len();
    state.clear();
    let count = u64_to_string(number_of_items as u64);
    (
        STATUS_OK,
        MessageResponse::new(String::from_str("Removed ").concat(count.as_str()).concat(" items")),
    )
}

/// Remove item with given name.
pub fn remove_item(_api_key: ApiKeyExtractor, state: &mut AppState, name: &str) -> (res:
    RemoveItemResponse)
    ensures
        valid_entries(final(state)@),
        final(state)@ == old(state)@.remove(name@),
        is_remove_answer(
            res,
            if old(state)@.contains_key(name@) {
                Some(old(state)@[name@])
            } else {
                None
            },
            name@,
        ),
{
    match state.remove(name) {
        Some(existing_item) => RemoveItemResponse::Removed(existing_item),
        None => RemoveItemResponse::new_error(
            String::from_str("Item does not exist: ").concat(name),
        ),
    }
}

/// A request to remove all items: the key is checked first, and the store
/// is touched only where the check passes.
pub fn clear_items_request(
    config: Option<&Config>,
    api_key: Option<&str>,
    state: &mut AppState,
) -> (res: Result<(u16, MessageResponse), AuthErrorResponse>)
    ensures
        valid_entries(final(state)@),
        match res {
            Ok(answer) => ApiKeyExtractor::rejection(configured_key(config), opt_view(api_key))
                is None && final(state)@ == ItemMap::empty() && answer.0 == STATUS_OK
                && answer.1.message@ == removed_message(old(state)@.dom().len()),
            Err(response) => ApiKeyExtractor::rejection(
                configured_key(config),
                opt_view(api_key),
            ) == Some(response.message@) && final(state)@ == old(state)@,
        },
{
    match ApiKeyExtractor::from_request_parts(config, api_key) {
        Ok(key) => Ok(delete_all_items(key, state)),
        Err(response) => {
            proof {
                use_type_invariant(&*state);
            }
            Err(response)
        },
    }
}

/// A request to remove one item: the key is checked first, and the store
/// is touched only where the check passes.
pub fn remove_request(
    config: Option<&Config>,
    api_key: Option<&str>,
    state: &mut AppState,
    name: &str,
) -> (res: Result<RemoveItemResponse, AuthErrorResponse>)
    ensures
        valid_entries(final(state)@),
        match res {
            Ok(answer) => ApiKeyExtractor::rejection(configured_key(config), opt_view(api_key))
                is None && final(state)@ == old(state)@.remove(name@) && is_remove_answer(
                answer,
                if old(state)@.contains_key(name@) {
                    Some(old(state)@[name@])
                } else {
                    None
                },
                name@,
            ),
            Err(response) => ApiKeyExtractor::rejection(
                configured_key(config),
                opt_view(api_key),
            ) == Some(response.message@) && final(state)@ == old(state)@,
        },
{
    match ApiKeyExtractor::from_request_parts(config, api_key) {
        Ok(key) => Ok(remove_item(key, state, name)),
        Err(response) => {
            proof {
                use_type_invariant(&*state);
            }
            Err(response)
        },
    }
}

/// Removing keeps a valid store valid.
pub proof fn lemma_remove_keeps_valid(db: ItemMap, name: Seq<char>)
    requires
        valid_entries(db),
    ensures
        valid_entries(db.remove(name)),
{
}

/// Delete, then absent: after a name was removed a query for it finds nothing.
pub proof fn lemma_remove_then_absent(db: ItemMap, name: Seq<char>)
    ensures
        query_outcome(db.remove(name), name) is None,
{
}

/// A name that is absent stays absent while only other names are created
/// or removed.
pub proof fn lemma_absent_until_recreated(db: ItemMap, name: Seq<char>, other: Seq<char>, id: u64)
    requires
        !db.contains_key(name),
        other != name,
    ensures
        query_outcome(db_after_create(db, other, id), name) is None,
        query_outcome(db.remove(other), name) is None,
{
}

/// A name that was removed can be created again.
pub proof fn lemma_recreate_after_remove(db: ItemMap, name: Seq<char>, id: u64)
    requires
        valid_item_id(id),
    ensures
        create_outcome(db.remove(name), name, id) == CreateOutcome::Created(ItemView { id, name }),
        query_outcome(db_after_create(db.remove(name), name, id), name) == Some(
            ItemView { id, name },
        ),
{
}

/// Access guard: a request passes exactly where the route carries a
/// configuration and the presented key is the configured one.
pub proof fn lemma_only_configured_key_passes(
    configured: Option<Seq<char>>,
    presented: Option<Seq<char>>,
)
    ensures
        ApiKeyExtractor::rejection(configured, presented) is None <==> (configured is Some
            && presented == configured),
{
}

} // verus!
