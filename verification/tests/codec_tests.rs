use memcached_client::dispatch::{serialize_command, serialize_response};
use memcached_client::parsers::{Command, RetrievalCommand, StorageCommand};
use memcached_client::responses::ResponseError;

#[test]
fn storage_noreply_serialization() {
    let storage = StorageCommand {
        command: String::from("set"),
        key: String::from("dog"),
        flags: Some(10),
        exptime: Some(600),
        bytes: Some(5),
        no_reply: true,
        data: String::from("piss"),
    };
    assert_eq!(
        storage.deserialize(),
        String::from("set dog 10 600 5 noreply\r\npiss\r\n")
    );
}

#[test]
fn storage_largest_numeric_fields() {
    let storage = StorageCommand {
        command: String::from("add"),
        key: String::from("k"),
        flags: Some(65535),
        exptime: Some(4294967295),
        bytes: Some(4294967295),
        no_reply: false,
        data: String::from("v"),
    };
    assert_eq!(
        storage.deserialize(),
        String::from("add k 65535 4294967295 4294967295\r\nv\r\n")
    );
}

#[test]
fn storage_empty_payload() {
    let command = vec![String::from("set"), String::from("dog"), String::from("")];
    let parsed = StorageCommand::parse(command).unwrap();
    assert_eq!(parsed.deserialize(), String::from("set dog 0 0 0\r\n\r\n"));
}

#[test]
fn storage_four_tokens_ignores_third() {
    let command = vec![
        String::from("set"),
        String::from("dog"),
        String::from("x"),
        String::from("val"),
    ];
    let parsed = StorageCommand::parse(command).unwrap();
    assert_eq!(parsed.command, String::from("set"));
    assert_eq!(parsed.key, String::from("dog"));
    assert_eq!(parsed.data, String::from("val"));
    assert_eq!(parsed.deserialize(), String::from("set dog 0 0 3\r\nval\r\n"));
}

#[test]
fn storage_insufficient_arguments() {
    let command = vec![String::from("set"), String::from("dog")];
    let err = StorageCommand::parse(command).unwrap_err();
    assert_eq!(
        err,
        String::from("not enough arguments provided: <command> <key> <flags> <value>")
    );
}

#[test]
fn storage_unknown_verb() {
    let command = vec![
        String::from("bogus"),
        String::from("dog"),
        String::from("piss"),
    ];
    let err = StorageCommand::parse(command).unwrap_err();
    assert_eq!(err, String::from("bogus - command not found"));
}

#[test]
fn retrieval_insufficient_arguments() {
    let command = vec![String::from("get")];
    let err = RetrievalCommand::parse(command).unwrap_err();
    assert_eq!(
        err,
        String::from("not enough arguments provided: <command> <flags> <key>")
    );
}

#[test]
fn retrieval_unknown_verb() {
    let command = vec![String::from("bogus"), String::from("dog")];
    let err = RetrievalCommand::parse(command).unwrap_err();
    assert_eq!(err, String::from("bogus - command not found"));
}

#[test]
fn retrieval_extra_argument() {
    let command = vec![
        String::from("get"),
        String::from("bro"),
        String::from("-x"),
        String::from("4"),
        String::from("dog"),
    ];
    let err = RetrievalCommand::parse(command).unwrap_err();
    assert_eq!(err, String::from("-x - unexpected argument"));
}

#[test]
fn retrieval_all_verbs_serialize() {
    for verb in ["get", "gets", "gat", "gats"] {
        let command = vec![String::from(verb), String::from("dog")];
        let parsed = RetrievalCommand::parse(command).unwrap();
        assert_eq!(parsed.deserialize(), format!("{} dog\r\n", verb));
    }
}

#[test]
fn storage_all_verbs_serialize() {
    for verb in ["set", "add", "replace", "append", "prepend"] {
        let command = vec![String::from(verb), String::from("dog"), String::from("piss")];
        let parsed = StorageCommand::parse(command).unwrap();
        assert_eq!(parsed.deserialize(), format!("{} dog 0 0 4\r\npiss\r\n", verb));
    }
}

#[test]
fn storage_reparse_is_identical() {
    let command = vec![
        String::from("set"),
        String::from("dog"),
        String::from("piss"),
    ];
    let first = StorageCommand::parse(command).unwrap();
    let again = vec![first.command.clone(), first.key.clone(), first.data.clone()];
    let second = StorageCommand::parse(again).unwrap();
    assert_eq!(first.command, second.command);
    assert_eq!(first.key, second.key);
    assert_eq!(first.data, second.data);
    assert_eq!(first.flags, second.flags);
    assert_eq!(first.exptime, second.exptime);
    assert_eq!(first.bytes, second.bytes);
    assert_eq!(first.no_reply, second.no_reply);
}

#[test]
fn retrieval_reparse_is_identical() {
    let command = vec![String::from("gets"), String::from("dog")];
    let first = RetrievalCommand::parse(command).unwrap();
    let again = vec![first.command.clone(), first.key.clone()];
    let second = RetrievalCommand::parse(again).unwrap();
    assert_eq!(first.command, second.command);
    assert_eq!(first.key, second.key);
}

#[test]
fn dispatch_storage_command() {
    let tokens = vec![
        String::from("set"),
        String::from("dog"),
        String::from("piss"),
    ];
    let (wire, kind) = serialize_command(tokens);
    assert!(matches!(kind, Command::Storage));
    assert_eq!(wire.unwrap(), String::from("set dog 0 0 4\r\npiss\r\n"));
}

#[test]
fn dispatch_retrieval_command() {
    let tokens = vec![String::from("get"), String::from("dog")];
    let (wire, kind) = serialize_command(tokens);
    assert!(matches!(kind, Command::Retrieval));
    assert_eq!(wire.unwrap(), String::from("get dog\r\n"));
}

#[test]
fn dispatch_unknown_command() {
    let tokens = vec![String::from("bogus")];
    let (wire, kind) = serialize_command(tokens);
    assert!(matches!(kind, Command::Unknown));
    assert_eq!(wire.unwrap_err(), String::from("bogus - command does not exist"));
}

#[test]
fn dispatch_storage_parse_error_keeps_kind() {
    let tokens = vec![String::from("set"), String::from("dog")];
    let (wire, kind) = serialize_command(tokens);
    assert!(matches!(kind, Command::Storage));
    assert_eq!(
        wire.unwrap_err(),
        String::from("not enough arguments provided: <command> <key> <flags> <value>")
    );
}

#[test]
fn dispatch_storage_response() {
    let message = serialize_response(String::from("STORED\r\n"), Command::Storage).unwrap();
    assert_eq!(message, Some(String::from("storage successful")));
}

#[test]
fn dispatch_retrieval_response() {
    let message = serialize_response(
        String::from("VALUE dog 0 0\r\nbone\r\n"),
        Command::Retrieval,
    )
    .unwrap();
    assert_eq!(message, Some(String::from("data returned successfully")));
}

#[test]
fn dispatch_unknown_response() {
    let message = serialize_response(String::from("whatever"), Command::Unknown).unwrap();
    assert_eq!(message, None);
}

#[test]
fn dispatch_unparsable_response() {
    let err = serialize_response(String::from("garbage"), Command::Retrieval).unwrap_err();
    assert!(matches!(err, ResponseError::UnparsableResponse));
}
