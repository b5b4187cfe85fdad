use vstd::prelude::*;

use crate::types::{Epoch, VarEvent, Variable};
use crate::wire::{
    copies_of, decimal, decimal_text, event_to_wire, events_to_wire, owned_names,
    variable_to_wire, variables_to_wire, AuthenticateRequest, CollectionMeta,
    CreateCollectionsRequest, CreateVariablesRequest, DeleteCollectionsRequest,
    DeleteVariablesRequest, GetVariablesRequest, ListCollectionsRequest, ListVariablesRequest,
    SetVariablesRequest, SubscribeVariablesRequest,
};

verus! {

pub fn list_collections_request() -> (r: ListCollectionsRequest) {
    ListCollectionsRequest {  }
}

/// One collection entry per name, in order.
pub fn create_collections_request(names: &Vec<&str>) -> (r: CreateCollectionsRequest)
    ensures
        r.collections@.len() == names@.len(),
        forall|i: int|
            0 <= i < names@.len() ==> (#[trigger] r.collections@[i]).name@ == names@[i]@,
{
    let mut collections: Vec<CollectionMeta> = Vec::new();
    let mut i: usize = 0;
    while i < names.len()
        invariant
            i <= names@.len(),
            collections@.len() == i,
            forall|j: int| 0 <= j < i ==> (#[trigger] collections@[j]).name@ == names@[j]@,
        decreases names@.len() - i,
    {
        collections.push(CollectionMeta { name: names[i].to_owned() });
        i += 1;
    }
    CreateCollectionsRequest { collections }
}

pub fn delete_collections_request(names: &Vec<&str>) -> (r: DeleteCollectionsRequest)
    ensures
        copies_of(r.names@, names@),
{
    DeleteCollectionsRequest { names: owned_names(names) }
}

pub fn list_variables_request(collection: &str) -> (r: ListVariablesRequest)
    ensures
        r.collection@ == collection@,
{
    ListVariablesRequest { collection: collection.to_owned() }
}

pub fn create_variables_request(collection: &str, variables: Vec<Variable>) -> (r:
    CreateVariablesRequest)
    ensures
        r.collection@ == collection@,
        r.variables@.len() == variables@.len(),
        forall|i: int|
            0 <= i < variables@.len() ==> variable_to_wire(
                #[trigger] variables@[i],
                r.variables@[i],
            ),
{
    CreateVariablesRequest {
        collection: collection.to_owned(),
        variables: variables_to_wire(variables),
    }
}

pub fn delete_variables_request(collection: &str, names: &Vec<&str>) -> (r:
    DeleteVariablesRequest)
    ensures
        r.collection@ == collection@,
        copies_of(r.names@, names@),
{
    DeleteVariablesRequest { collection: collection.to_owned(), names: owned_names(names) }
}

/// Names and values travel paired by position as given; a length mismatch is
/// left for the service to report.
pub fn set_variables_request(
    collection: &str,
    names: Vec<&str>,
    timestamp: u128,
    values: Vec<&str>,
    epoch: Epoch,
) -> (r: SetVariablesRequest)
    ensures
        r.collection@ == collection@,
        copies_of(r.names@, names@),
        r.timestamp@ == decimal(timestamp as nat),
        copies_of(r.values@, values@),
        r.epoch as int == epoch.code(),
{
    SetVariablesRequest {
        collection: collection.to_owned(),
        names: owned_names(&names),
        timestamp: decimal_text(timestamp),
        values: owned_names(&values),
        epoch: epoch.to_code(),
    }
}

pub fn get_variables_request(
    collection: &str,
    names: Vec<&str>,
    derived_order: u32,
    epoch: Epoch,
) -> (r: GetVariablesRequest)
    ensures
        r.collection@ == collection@,
        copies_of(r.names@, names@),
        r.derived_order == derived_order,
        r.epoch as int == epoch.code(),
{
    GetVariablesRequest {
        collection: collection.to_owned(),
        names: owned_names(&names),
        derived_order,
        epoch: epoch.to_code(),
    }
}

pub fn subscribe_variables_request(collection: &str, names: Vec<&str>, events: Vec<VarEvent>) -> (r:
    SubscribeVariablesRequest)
    ensures
        r.collection@ == collection@,
        copies_of(r.names@, names@),
        r.events@.len() == events@.len(),
        forall|i: int| 0 <= i < events@.len() ==> event_to_wire(#[trigger] events@[i], r.events@[i]),
{
    SubscribeVariablesRequest {
        collection: collection.to_owned(),
        names: owned_names(&names),
        events: events_to_wire(events),
    }
}

pub fn authenticate_request(username: &str, password: &str) -> (r: AuthenticateRequest)
    ensures
        r.username@ == username@,
        r.password@ == password@,
{
    AuthenticateRequest { username: username.to_owned(), password: password.to_owned() }
}

} // verus!
