//! The HTTP gateway: each route forwards one RPC call to the backing service
//! and maps its outcome to an HTTP status and body. The connection
//! and the call itself happen outside; everything that decides — building the
//! RPC request, and mapping the call's outcome to the HTTP reply — is here,
//! as pure functions over the outcome.
use vstd::prelude::*;

use vstd::string::StringExecFns;

use crate::grpc_service::DeleteItemRequest;
use crate::grpc_service::DeleteItemResponse;
use crate::grpc_service::GetItemRequest;
use crate::grpc_service::GetItemResponse;
use crate::grpc_service::KeyValuePair;
use crate::grpc_service::PutItemRequest;
use crate::grpc_service::PutItemResponse;
use crate::grpc_service::RpcCode;
use crate::grpc_service::RpcStatus;

verus! {

/// An HTTP reply: a status code and a body.
pub struct HttpResponse {
    pub status: u16,
    pub body: String,
}

/// How one RPC call against the backing service came out, as the gateway
/// sees it: the connection failed with some error text, the call succeeded
/// and its response carried the optional pair, or the call failed with a
/// status.
pub enum RpcCallOutcome {
    ConnectFailed(String),
    Replied(Option<KeyValuePair>),
    Failed(RpcStatus),
}

/// The JSON text of the object holding exactly one entry, the given key and
/// value, each rendered as a JSON string.
pub uninterp spec fn json_object_of(key: Seq<char>, value: Seq<char>) -> Seq<char>;

/// Relies on serde_json::Value::to_string on an Object holding the one
/// given entry: the result depends on the key and value characters alone.
#[verifier::external_body]
fn json_singleton(key: &String, value: &String) -> (r: String)
    ensures
        r@ == json_object_of(key@, value@),
{
    let mut object = serde_json::Map::new();
    object.insert(key.clone(), serde_json::Value::String(value.clone()));
    serde_json::Value::Object(object).to_string()
}

/// The body a gateway route answers with when its connection to the backing
/// service fails: a fixed prefix, then the connection error's text.
pub open spec fn connect_failure_text(error: Seq<char>) -> Seq<char> {
    "grpc client could not connect: "@ + error
}

/// The body a gateway route answers with when the call succeeded but the
/// response carried no pair.
pub open spec fn malformed_response_text() -> Seq<char> {
    "could not parse the server's response."@
}

/// A successful reply: 200, with the pair as a one-entry JSON object.
pub fn ok_reply(pair: KeyValuePair) -> (r: HttpResponse)
    ensures
        r.status == 200,
        r.body@ == json_object_of(pair.key@, pair.value@),
{
    HttpResponse { status: 200, body: json_singleton(&pair.key, &pair.value) }
}

/// A not-found reply: 404, with the given details as its body.
pub fn not_found_reply(details: String) -> (r: HttpResponse)
    ensures
        r.status == 404,
        r.body@ == details@,
{
    HttpResponse { status: 404, body: details }
}

/// An internal-error reply: 500, with the given text as its body.
pub fn error_reply(error: String) -> (r: HttpResponse)
    ensures
        r.status == 500,
        r.body@ == error@,
{
    HttpResponse { status: 500, body: error }
}

/// The uniform mapping every route applies to the outcome of its RPC
/// call: a failed connection and a response without a pair are internal
/// errors, a pair becomes a one-entry JSON object, a Not-Found status keeps
/// its message under 404, and any other status keeps its message under 500.
/// A failed connection never yields an empty body.
pub fn reply_for_outcome(outcome: RpcCallOutcome) -> (r: HttpResponse)
    ensures
        outcome matches RpcCallOutcome::ConnectFailed(e) ==> r.status == 500 && r.body@
            == connect_failure_text(e@) && r.body@.len() > 0,
        outcome matches RpcCallOutcome::Replied(Some(p)) ==> r.status == 200 && r.body@
            == json_object_of(p.key@, p.value@),
        outcome matches RpcCallOutcome::Replied(None) ==> r.status == 500 && r.body@
            == malformed_response_text(),
        outcome matches RpcCallOutcome::Failed(s) ==> (s.code is NotFound ==> r.status == 404
            && r.body@ == s.message@),
        outcome matches RpcCallOutcome::Failed(s) ==> (!(s.code is NotFound) ==> r.status == 500
            && r.body@ == s.message@),
{
    match outcome {
        RpcCallOutcome::ConnectFailed(error) => {
            let mut body = String::from_str("grpc client could not connect: ");
            body.append(error.as_str());
            proof {
                reveal_strlit("grpc client could not connect: ");
            }
            error_reply(body)
        },
        RpcCallOutcome::Replied(Some(pair)) => ok_reply(pair),
        RpcCallOutcome::Replied(None) => error_reply(
            String::from_str("could not parse the server's response."),
        ),
        RpcCallOutcome::Failed(status) => match status.code {
            RpcCode::NotFound => not_found_reply(status.message),
            _ => error_reply(status.message),
        },
    }
}

/// The gateway: stateless but for the address of the backing service its
/// routes forward to.
pub struct RestProxy {
    key_value_service_route: String,
}

impl View for RestProxy {
    type V = Seq<char>;

    closed spec fn view(&self) -> Seq<char> {
        self.key_value_service_route@
    }
}

impl RestProxy {
    /// A gateway forwarding to the backing service at the given address.
    pub fn new(key_value_service_route: String) -> (s: Self)
        ensures
            s@ == key_value_service_route@,
    {
        RestProxy { key_value_service_route }
    }

    /// The address of the backing service, for whoever opens the connection.
    pub fn key_value_service_route(&self) -> (r: &String)
        ensures
            r@ == self@,
    {
        &self.key_value_service_route
    }

    /// The RPC request a `PUT /store/item` body turns into.
    pub fn put_item_request(key: String, value: String) -> (r: PutItemRequest)
        ensures
            r.item matches Some(p) && p.key@ == key@ && p.value@ == value@,
    {
        PutItemRequest { item: Some(KeyValuePair { key, value }) }
    }

    /// The RPC request a `GET /store/items/{key}` path turns into.
    pub fn get_item_request(key: String) -> (r: GetItemRequest)
        ensures
            r.key@ == key@,
    {
        GetItemRequest { key }
    }

    /// The RPC request a `DELETE /store/items/{key}` path turns into.
    pub fn delete_item_request(key: String) -> (r: DeleteItemRequest)
        ensures
            r.key@ == key@,
    {
        DeleteItemRequest { key }
    }

    /// The HTTP reply for a Put call that reached the backing service.
    pub fn put_item_reply(result: Result<PutItemResponse, RpcStatus>) -> (r: HttpResponse)
        ensures
            result matches Ok(resp) ==> (resp.updated_item matches Some(p) ==> r.status == 200
                && r.body@ == json_object_of(p.key@, p.value@)),
            result matches Ok(resp) ==> (resp.updated_item is None ==> r.status == 500 && r.body@
                == malformed_response_text()),
            result matches Err(s) ==> (s.code is NotFound ==> r.status == 404 && r.body@
                == s.message@),
            result matches Err(s) ==> (!(s.code is NotFound) ==> r.status == 500 && r.body@
                == s.message@),
    {
        match result {
            Ok(response) => reply_for_outcome(RpcCallOutcome::Replied(response.updated_item)),
            Err(status) => reply_for_outcome(RpcCallOutcome::Failed(status)),
        }
    }

    /// The HTTP reply for a Get call that reached the backing service.
    pub fn get_item_reply(result: Result<GetItemResponse, RpcStatus>) -> (r: HttpResponse)
        ensures
            result matches Ok(resp) ==> (resp.item matches Some(p) ==> r.status == 200 && r.body@
                == json_object_of(p.key@, p.value@)),
            result matches Ok(resp) ==> (resp.item is None ==> r.status == 500 && r.body@
                == malformed_response_text()),
            result matches Err(s) ==> (s.code is NotFound ==> r.status == 404 && r.body@
                == s.message@),
            result matches Err(s) ==> (!(s.code is NotFound) ==> r.status == 500 && r.body@
                == s.message@),
    {
        match result {
            Ok(response) => reply_for_outcome(RpcCallOutcome::Replied(response.item)),
            Err(status) => reply_for_outcome(RpcCallOutcome::Failed(status)),
        }
    }

    /// The HTTP reply for a Delete call that reached the backing service.
    pub fn delete_item_reply(result: Result<DeleteItemResponse, RpcStatus>) -> (r: HttpResponse)
        ensures
            result matches Ok(resp) ==> (resp.item matches Some(p) ==> r.status == 200 && r.body@
                == json_object_of(p.key@, p.value@)),
            result matches Ok(resp) ==> (resp.item is None ==> r.status == 500 && r.body@
                == malformed_response_text()),
            result matches Err(s) ==> (s.code is NotFound ==> r.status == 404 && r.body@
                == s.message@),
            result matches Err(s) ==> (!(s.code is NotFound) ==> r.status == 500 && r.body@
                == s.message@),
    {
        match result {
            Ok(response) => reply_for_outcome(RpcCallOutcome::Replied(response.item)),
            Err(status) => reply_for_outcome(RpcCallOutcome::Failed(status)),
        }
    }
}

} // verus!
