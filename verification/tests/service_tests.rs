use key_value_service::grpc_service::DeleteItemRequest;
use key_value_service::grpc_service::GetItemRequest;
use key_value_service::grpc_service::GrpcService;
use key_value_service::grpc_service::KeyValuePair;
use key_value_service::grpc_service::PutItemRequest;
use key_value_service::grpc_service::RpcCode;
use key_value_service::key_value_store::KeyValueStore;

fn fresh_service() -> GrpcService {
    GrpcService::new(KeyValueStore::new())
}

#[test]
fn put_item_stores_and_echoes_pair() {
    let mut service = fresh_service();
    let request = PutItemRequest {
        item: Some(KeyValuePair { key: "a".to_string(), value: "1".to_string() }),
    };
    let response = service.put_item(request).ok().unwrap();
    let pair = response.updated_item.unwrap();
    assert_eq!(pair.key, "a");
    assert_eq!(pair.value, "1");
    let got = service.get_item(GetItemRequest { key: "a".to_string() }).ok().unwrap();
    let pair = got.item.unwrap();
    assert_eq!(pair.key, "a");
    assert_eq!(pair.value, "1");
}

#[test]
fn put_item_without_pair_is_invalid_argument() {
    let mut service = fresh_service();
    let status = service.put_item(PutItemRequest { item: None }).err().unwrap();
    assert!(matches!(status.code, RpcCode::InvalidArgument));
    assert_eq!(
        status.message,
        "key-value pair could not be parsed from the provided PutItemRequest."
    );
    // The store was never touched: nothing is found under any key.
    let status = service.get_item(GetItemRequest { key: "a".to_string() }).err().unwrap();
    assert!(matches!(status.code, RpcCode::NotFound));
}

#[test]
fn get_item_missing_key_embeds_key_in_message() {
    let service = fresh_service();
    let status = service.get_item(GetItemRequest { key: "a".to_string() }).err().unwrap();
    assert!(matches!(status.code, RpcCode::NotFound));
    assert_eq!(status.message, "key 'a' was not found in the associated data store.");
}

#[test]
fn delete_item_returns_pair_and_removes_it() {
    let mut service = fresh_service();
    let request = PutItemRequest {
        item: Some(KeyValuePair { key: "k".to_string(), value: "v".to_string() }),
    };
    service.put_item(request).ok().unwrap();
    let response = service.delete_item(DeleteItemRequest { key: "k".to_string() }).ok().unwrap();
    let pair = response.item.unwrap();
    assert_eq!(pair.key, "k");
    assert_eq!(pair.value, "v");
    let status = service.get_item(GetItemRequest { key: "k".to_string() }).err().unwrap();
    assert!(matches!(status.code, RpcCode::NotFound));
}

#[test]
fn delete_item_missing_key_embeds_key_in_message() {
    let mut service = fresh_service();
    let status = service.delete_item(DeleteItemRequest { key: "gone".to_string() }).err().unwrap();
    assert!(matches!(status.code, RpcCode::NotFound));
    assert_eq!(status.message, "key 'gone' was not found in the associated data store.");
}

#[test]
fn put_item_overwrites_previous_value() {
    let mut service = fresh_service();
    for value in ["old", "new"] {
        let request = PutItemRequest {
            item: Some(KeyValuePair { key: "k".to_string(), value: value.to_string() }),
        };
        service.put_item(request).ok().unwrap();
    }
    let got = service.get_item(GetItemRequest { key: "k".to_string() }).ok().unwrap();
    assert_eq!(got.item.unwrap().value, "new");
}
