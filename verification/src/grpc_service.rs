//! The RPC service: Put, Get and Delete over the store, with the
//! request/response shapes of the wire protocol and its error conditions.
//! The transport that carries these messages lives outside; the service
//! itself maps a request and the store's state to a response or a status.
use vstd::prelude::*;

use vstd::string::StringExecFns;

use crate::key_value_store::KeyValueStore;
use crate::key_value_store::store_lookup;

verus! {

/// One stored entry as it crosses the wire.
pub struct KeyValuePair {
    pub key: String,
    pub value: String,
}

/// Asks the service to insert or overwrite `item`; a request without an item
/// is malformed.
pub struct PutItemRequest {
    pub item: Option<KeyValuePair>,
}

/// Carries the pair the service stored.
pub struct PutItemResponse {
    pub updated_item: Option<KeyValuePair>,
}

/// Asks the service for the entry under `key`.
pub struct GetItemRequest {
    pub key: String,
}

/// Carries the pair the service found.
pub struct GetItemResponse {
    pub item: Option<KeyValuePair>,
}

/// Asks the service to remove the entry under `key`.
pub struct DeleteItemRequest {
    pub key: String,
}

/// Carries the pair the service removed.
pub struct DeleteItemResponse {
    pub item: Option<KeyValuePair>,
}

/// The condition a failed call reports.
pub enum RpcCode {
    /// The request was malformed.
    InvalidArgument,
    /// The queried key has no entry.
    NotFound,
    /// Any other condition a peer might report.
    Other,
}

/// A failed call's status: a condition and a human-readable message.
pub struct RpcStatus {
    pub code: RpcCode,
    pub message: String,
}

/// The message a Put with no pair is refused with.
pub open spec fn invalid_put_message() -> Seq<char> {
    "key-value pair could not be parsed from the provided PutItemRequest."@
}

/// The message a Get or Delete of an absent key fails with; it embeds the
/// missing key.
pub open spec fn not_found_message(key: Seq<char>) -> Seq<char> {
    "key '"@ + key + "' was not found in the associated data store."@
}

fn make_not_found_message(key: &String) -> (r: String)
    ensures
        r@ == not_found_message(key@),
{
    let mut message = String::from_str("key '");
    message.append(key.as_str());
    message.append("' was not found in the associated data store.");
    message
}

/// The service: one store instance, created at startup, answering every
/// request for its lifetime.
pub struct GrpcService {
    store: KeyValueStore,
}

impl View for GrpcService {
    type V = Map<Seq<char>, Seq<char>>;

    closed spec fn view(&self) -> Map<Seq<char>, Seq<char>> {
        self.store@
    }
}

impl GrpcService {
    /// Wraps the given store; the service's entries are the store's.
    pub fn new(store: KeyValueStore) -> (s: Self)
        ensures
            s@ == store@,
    {
        GrpcService { store }
    }

    /// Put: a request with a pair stores it and echoes it back; one without a
    /// pair is refused as invalid before the store is touched.
    pub fn put_item(&mut self, request: PutItemRequest) -> (r: Result<PutItemResponse, RpcStatus>)
        ensures
            request.item is None ==> final(self)@ == old(self)@,
            request.item is None ==> (r matches Err(s) && s.code is InvalidArgument
                && s.message@ == invalid_put_message()),
            request.item matches Some(p) ==> final(self)@ == old(self)@.insert(p.key@, p.value@),
            request.item matches Some(p) ==> (r matches Ok(resp) && resp.updated_item matches Some(
                q,
            ) && q.key@ == p.key@ && q.value@ == p.value@),
    {
        if let Some(pair) = request.item {
            let (key, value) = self.store.put(pair.key, pair.value);
            Ok(PutItemResponse { updated_item: Some(KeyValuePair { key, value }) })
        } else {
            Err(
                RpcStatus {
                    code: RpcCode::InvalidArgument,
                    message: String::from_str(
                        "key-value pair could not be parsed from the provided PutItemRequest.",
                    ),
                },
            )
        }
    }

    /// Get: answers with the pair under the requested key, or fails with a
    /// Not-Found status whose message embeds the missing key.
    pub fn get_item(&self, request: GetItemRequest) -> (r: Result<GetItemResponse, RpcStatus>)
        ensures
            r is Ok <==> store_lookup(self@, request.key@) is Some,
            r matches Ok(resp) ==> (resp.item matches Some(p) && p.key@ == request.key@
                && store_lookup(self@, request.key@) == Some(p.value@)),
            r matches Err(s) ==> (s.code is NotFound && s.message@ == not_found_message(
                request.key@,
            )),
    {
        match self.store.get(request.key) {
            Ok((key, value)) => Ok(GetItemResponse { item: Some(KeyValuePair { key, value }) }),
            Err(key_not_found_error) => Err(
                RpcStatus {
                    code: RpcCode::NotFound,
                    message: make_not_found_message(&key_not_found_error.key),
                },
            ),
        }
    }

    /// Delete: removes and answers with the pair under the requested key, or
    /// fails with a Not-Found status whose message embeds the missing key.
    pub fn delete_item(&mut self, request: DeleteItemRequest) -> (r: Result<
        DeleteItemResponse,
        RpcStatus,
    >)
        ensures
            final(self)@ == old(self)@.remove(request.key@),
            r is Ok <==> store_lookup(old(self)@, request.key@) is Some,
            r matches Ok(resp) ==> (resp.item matches Some(p) && p.key@ == request.key@
                && store_lookup(old(self)@, request.key@) == Some(p.value@)),
            r matches Err(s) ==> (s.code is NotFound && s.message@ == not_found_message(
                request.key@,
            )),
    {
        match self.store.delete(request.key) {
            Ok((key, value)) => Ok(DeleteItemResponse { item: Some(KeyValuePair { key, value }) }),
            Err(key_not_found_error) => Err(
                RpcStatus {
                    code: RpcCode::NotFound,
                    message: make_not_found_message(&key_not_found_error.key),
                },
            ),
        }
    }
}

} // verus!
