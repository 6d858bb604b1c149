//! The key-value service: how a request is answered from a store that the
//! connections share.

use crate::pb::{Command, Request, Response, CODE_NOT_FOUND, CODE_OK};
use dashmap::DashMap;
use vstd::prelude::*;

verus! {

/// The concurrent map of `dashmap`, opaque to the proofs.
#[verifier::external_type_specification]
#[verifier::external_body]
#[verifier::reject_recursive_types(K)]
#[verifier::reject_recursive_types(V)]
#[verifier::reject_recursive_types(S)]
pub struct ExDashMap<K, V, S>(dashmap::DashMap<K, V, S>);

/// Looks a key up with `DashMap::get` and copies the value out, so that no
/// reference into the map outlives the call. Other connections write to the
/// same map at any time: nothing is claimed of what is found.
#[verifier::external_body]
pub(crate) fn lookup(store: &DashMap<String, Vec<u8>>, key: &String) -> (found: Option<Vec<u8>>) {
    store.get(key).map(|entry| entry.value().clone())
}

/// Stores a value under a key with `DashMap::insert`. The map changes behind
/// a shared reference, so no contract can speak of it.
#[verifier::external_body]
pub(crate) fn put(store: &DashMap<String, Vec<u8>>, key: String, value: Vec<u8>) {
    store.insert(key, value);
}

/// The answer to a lookup of `key` that found `found`.
pub fn answer_get(key: String, found: Option<Vec<u8>>) -> (r: Response)
    ensures
        r.key == key,
        match found {
            Some(value) => r.code == CODE_OK && r.value == value,
            None => r.code == CODE_NOT_FOUND && r.value@ == Seq::<u8>::empty(),
        },
{
    match found {
        Some(value) => Response::new(key, value),
        None => Response::not_found(key),
    }
}

/// Answers one request from the store. A get is answered with what the
/// store holds under the key at that moment, or with not-found; a put
/// stores the value and is answered with the key and the value. A request
/// must carry a command.
pub fn respond(store: &DashMap<String, Vec<u8>>, request: Request) -> (r: Response)
    requires
        request.command is Some,
    ensures
        request.command matches Some(Command::Get(get)) ==> r.key == get.key && (r.code == CODE_OK
            || (r.code == CODE_NOT_FOUND && r.value@ == Seq::<u8>::empty())),
        request.command matches Some(Command::Put(put)) ==> r.code == CODE_OK && r.key == put.key
            && r.value == put.value,
{
    match request.command {
        Some(Command::Get(get)) => {
            let found = lookup(store, &get.key);
            answer_get(get.key, found)
        },
        Some(Command::Put(request_put)) => {
            let key = request_put.key.clone();
            let value = request_put.value.clone();
            self::put(store, key, value);
            Response::new(request_put.key, request_put.value)
        },
        None => vstd::pervasive::unreached(),
    }
}

} // verus!
