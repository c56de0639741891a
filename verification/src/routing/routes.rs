//! Routes.
//!
//! Public routes that anyone can call.

use chrono::{SecondsFormat, Utc};
use vstd::prelude::*;
use vstd::string::StringExecFns;

use crate::schemas::{
    CreateItem, CreateItemResponse, ItemListResponse, ItemQuery, ItemResponse, MessageResponse,
    ServerError, VersionInfo, STATUS_OK,
};
use crate::text::views;
use crate::types::{
    valid_entries, valid_item_id, AppState, Item, ItemMap, ItemView, ValidationError,
};

verus! {

/// How a request to create an item ends.
pub enum CreateOutcome {
    /// The item was stored.
    Created(ItemView),
    /// The name is taken.
    Conflict,
    /// The requested identifier is out of range.
    Invalid,
}

/// How creating an item called `name` with identifier `id` ends on a store
/// that holds `db`. A taken name is reported before the identifier is looked at.
pub open spec fn create_outcome(db: ItemMap, name: Seq<char>, id: u64) -> CreateOutcome {
    if db.contains_key(name) {
        CreateOutcome::Conflict
    } else if !valid_item_id(id) {
        CreateOutcome::Invalid
    } else {
        CreateOutcome::Created(ItemView { id, name })
    }
}

/// What the store holds after a request to create an item.
pub open spec fn db_after_create(db: ItemMap, name: Seq<char>, id: u64) -> ItemMap {
    match create_outcome(db, name, id) {
        CreateOutcome::Created(item) => db.insert(name, item),
        _ => db,
    }
}

/// What a query for `name` finds in a store that holds `db`.
pub open spec fn query_outcome(db: ItemMap, name: Seq<char>) -> Option<ItemView> {
    if db.contains_key(name) {
        Some(db[name])
    } else {
        None
    }
}

/// Whether `res` is the answer that goes with `outcome`.
pub open spec fn is_create_answer(
    res: Result<CreateItemResponse, ServerError>,
    outcome: CreateOutcome,
    name: Seq<char>,
) -> bool {
    match outcome {
        CreateOutcome::Created(item) => res matches Ok(CreateItemResponse::Created(created))
            && created@ == item,
        CreateOutcome::Conflict => res matches Ok(CreateItemResponse::Error(response))
            && response.message@ == "Item already exists: "@ + name,
        CreateOutcome::Invalid => res matches Err(error) && error.0
            == ValidationError::IdOutOfRange,
    }
}

/// Whether `res` is the answer to a query for `name` that found `found`.
pub open spec fn is_query_answer(res: ItemResponse, found: Option<ItemView>, name: Seq<char>) -> bool {
    match found {
        Some(item) => res matches ItemResponse::Found(existing) && existing@ == item,
        None => res matches ItemResponse::Error(response) && response.message@
            == "Item does not exist: "@ + name,
    }
}

/// `Utc::now` and `DateTime::to_rfc3339_opts` of chrono: the current time,
/// written to the second. Nothing is stated of it.
#[verifier::external_body]
fn current_datetime() -> String {
    Utc::now().to_rfc3339_opts(SecondsFormat::Secs, true)
}

/// The health message for the given service name and time.
pub fn root_message(package_name: &str, datetime: &str) -> (res: (u16, MessageResponse))
    ensures
        res.0 == STATUS_OK,
        res.1.message@ == package_name@ + " "@ + datetime@,
{
    (STATUS_OK, MessageResponse::new(String::from_str(package_name).concat(" ").concat(datetime)))
}

/// Return the service name with the current date and time.
///
/// Used primarily as a health check to verify the API is up and responding.
pub fn root(package_name: &str) -> (res: (u16, MessageResponse))
    ensures
        res.0 == STATUS_OK,
        exists|datetime: Seq<char>| res.1.message@ == package_name@ + " "@ + datetime,
{
    let datetime = current_datetime();
    let res = root_message(package_name, datetime.as_str());
    assert(res.1.message@ == package_name@ + " "@ + datetime@);
    res
}

/// Return version and build information.
pub fn version(info: &VersionInfo) -> (res: (u16, &VersionInfo))
    ensures
        res.0 == STATUS_OK,
        res.1 == info,
{
    (STATUS_OK, info)
}

/// Get item info.
pub fn query_item(item: &ItemQuery, state: &AppState) -> (res: ItemResponse)
    ensures
        valid_entries(state@),
        is_query_answer(res, query_outcome(state@, item.name@), item.name@),
{
    match state.get(item.name.as_str()) {
        Some(existing_item) => ItemResponse::Found(existing_item),
        None => ItemResponse::Error(
            MessageResponse::new(
                String::from_str("Item does not exist: ").concat(item.name.as_str()),
            ),
        ),
    }
}

/// Create a new item called `name` with identifier `id`, wherever the
/// identifier comes from.
pub fn create_item_with_id(state: &mut AppState, name: String, id: u64) -> (res: Result<
    CreateItemResponse,
    ServerError,
>)
    ensures
        valid_entries(final(state)@),
        final(state)@ == db_after_create(old(state)@, name@, id),
        is_create_answer(res, create_outcome(old(state)@, name@, id), name@),
{
    if state.contains(name.as_str()) {
        return Ok(
            CreateItemResponse::Error(
                MessageResponse::new(
                    String::from_str("Item already exists: ").concat(name.as_str()),
                ),
            ),
        );
    }
    let item = match Item::new(name, id) {
        Ok(item) => item,
        Err(error) => {
            return Err(ServerError::from(error));
        },
    };
    let _ = state.insert(item.clone());
    Ok(CreateItemResponse::Created(item))
}

/// Create a new item. The identifier is the one that the client asks for,
/// and a random one where it asks for none.
pub fn create_item(state: &mut AppState, payload: CreateItem) -> (res: Result<
    CreateItemResponse,
    ServerError,
>)
    ensures
        valid_entries(final(state)@),
        payload.id matches Some(id) ==> final(state)@ == db_after_create(
            old(state)@,
            payload.name@,
            id,
        ) && is_create_answer(res, create_outcome(old(state)@, payload.name@, id), payload.name@),
        payload.id is None ==> exists|id: u64|
            valid_item_id(id) && final(state)@ == #[trigger] db_after_create(
                old(state)@,
                payload.name@,
                id,
            ) && is_create_answer(
                res,
                create_outcome(old(state)@, payload.name@, id),
                payload.name@,
            ),
{
    match payload.id {
        Some(id) => create_item_with_id(state, payload.name, id),
        None => {
            let id: u64 = Item::random_id();
            create_item_with_id(state, payload.name, id)
        },
    }
}

/// List all items.
pub fn list_items(state: &AppState) -> (res: (u16, ItemListResponse))
    ensures
        valid_entries(state@),
        res.0 == STATUS_OK,
        res.1.num_items == state@.dom().len(),
        res.1.num_items == res.1.names@.len(),
        views(res.1.names@).no_duplicates(),
        views(res.1.names@).to_set() == state@.dom(),
{
    let names = state.list_keys();
    let num_items: usize = names.len();
    (STATUS_OK, ItemListResponse { num_items, names })
}

/// Creating keeps a valid store valid.
pub proof fn lemma_create_keeps_valid(db: ItemMap, name: Seq<char>, id: u64)
    requires
        valid_entries(db),
    ensures
        valid_entries(db_after_create(db, name, id)),
{
}

/// Uniqueness: once a name was created, creating it again ends in a
/// conflict, whatever identifier is asked for, and changes nothing.
pub proof fn lemma_second_create_conflicts(db: ItemMap, name: Seq<char>, id: u64, again: u64)
    requires
        create_outcome(db, name, id) is Created,
    ensures
        create_outcome(db_after_create(db, name, id), name, again) is Conflict,
        db_after_create(db_after_create(db, name, id), name, again) == db_after_create(
            db,
            name,
            id,
        ),
{
}

/// A stored name stays stored, with the same item, whatever else is created.
pub proof fn lemma_create_keeps_stored(db: ItemMap, stored: Seq<char>, name: Seq<char>, id: u64)
    requires
        db.contains_key(stored),
    ensures
        db_after_create(db, name, id).contains_key(stored),
        db_after_create(db, name, id)[stored] == db[stored],
{
}

/// Round trip: a query for the name of an item that was just created finds
/// exactly that item, with the name and the identifier it was created with.
pub proof fn lemma_create_then_query(db: ItemMap, name: Seq<char>, id: u64)
    requires
        create_outcome(db, name, id) is Created,
    ensures
        query_outcome(db_after_create(db, name, id), name) == Some(ItemView { id, name }),
        create_outcome(db, name, id) == CreateOutcome::Created(ItemView { id, name }),
{
}

/// Identifier range, outside: an identifier out of range is never stored;
/// the request creates nothing and leaves the store as it was.
pub proof fn lemma_create_rejects_out_of_range(db: ItemMap, name: Seq<char>, id: u64)
    requires
        !valid_item_id(id),
    ensures
        !(create_outcome(db, name, id) is Created),
        db_after_create(db, name, id) == db,
{
}

/// Identifier range, inside: for a name that is free, an identifier in
/// range is accepted and stored exactly.
pub proof fn lemma_create_stores_in_range(db: ItemMap, name: Seq<char>, id: u64)
    requires
        valid_item_id(id),
        !db.contains_key(name),
    ensures
        create_outcome(db, name, id) == CreateOutcome::Created(ItemView { id, name }),
        db_after_create(db, name, id).contains_key(name),
        db_after_create(db, name, id)[name].id == id,
{
}

/// Every identifier in a valid store is in range, and so is the identifier
/// of whatever a query finds.
pub proof fn lemma_query_finds_valid(db: ItemMap, name: Seq<char>)
    requires
        valid_entries(db),
    ensures
        query_outcome(db, name) matches Some(item) ==> item.name == name && valid_item_id(item.id),
{
}

} // verus!
