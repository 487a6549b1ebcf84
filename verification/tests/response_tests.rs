use memcached_client::responses::{ResponseError, RetrievalResponse, StorageResponse};

#[test]
fn parse_storage_responses() {
    let stored_response = StorageResponse::serialize("STORED\r\n").unwrap();
    let not_stored_response = StorageResponse::serialize("NOT_STORED\r\n").unwrap();
    let exists_response = StorageResponse::serialize("EXISTS\r\n").unwrap();
    let not_found_response = StorageResponse::serialize("NOT_FOUND\r\n").unwrap();
    assert_eq!(
        stored_response.message,
        Some(String::from("storage successful"))
    );
    assert_eq!(
        not_stored_response.message,
        Some(String::from("data was not stored"))
    );
    assert_eq!(
        exists_response.message,
        Some(String::from(
            "item that you attempted to fetch has been modified"
        ))
    );
    assert_eq!(
        not_found_response.message,
        Some(String::from(
            "item that you are trying to store does not exist"
        ))
    );
}

#[test]
fn get_response() {
    let get_response =
        RetrievalResponse::serialize("VALUE dog 0 0\r\npissing\r\non\r\nthe\r\nbush\r\n").unwrap();
    let data_output = vec![
        String::from("pissing"),
        String::from("on"),
        String::from("the"),
        String::from("bush"),
    ];
    assert_eq!(
        Some(String::from("data returned successfully")),
        get_response.message
    );
    assert_eq!(Some(data_output), get_response.data);
}

#[test]
fn storage_response_unparsable() {
    let err = match StorageResponse::serialize("garbage") {
        Ok(_) => panic!("an unrecognized reply must not parse"),
        Err(e) => e,
    };
    assert!(matches!(err, ResponseError::UnparsableResponse));
}

#[test]
fn retrieval_response_unparsable() {
    let err = match RetrievalResponse::serialize("garbage") {
        Ok(_) => panic!("an unrecognized reply must not parse"),
        Err(e) => e,
    };
    assert!(matches!(err, ResponseError::UnparsableResponse));
}

#[test]
fn retrieval_not_found() {
    let response = RetrievalResponse::serialize("NOT_FOUND\r\n").unwrap();
    assert_eq!(response.data, None);
    assert_eq!(
        response.message,
        Some(String::from("value not found for provided key"))
    );
    assert_eq!(
        response.get_message(),
        Some(String::from("value not found for provided key"))
    );
}

#[test]
fn value_block_without_inner_lines() {
    let response = RetrievalResponse::serialize("VALUE dog 0 0\r\n").unwrap();
    assert_eq!(response.data, Some(Vec::new()));
    assert_eq!(
        response.message,
        Some(String::from("data returned successfully"))
    );
}

#[test]
fn value_block_bare_header() {
    let response = RetrievalResponse::serialize("VALUE").unwrap();
    assert_eq!(response.data, Some(Vec::new()));
    assert_eq!(
        response.message,
        Some(String::from("data returned successfully"))
    );
}

#[test]
fn value_block_keeps_empty_lines() {
    let response = RetrievalResponse::serialize("VALUE dog 0 0\r\na\r\n\r\nb\r\n").unwrap();
    let expected = vec![String::from("a"), String::from(""), String::from("b")];
    assert_eq!(response.data, Some(expected));
}

#[test]
fn storage_response_message_accessor() {
    let stored = StorageResponse::serialize("STORED\r\n").unwrap();
    assert_eq!(stored.get_message(), Some(String::from("storage successful")));
}
