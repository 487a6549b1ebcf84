//! Classification of raw input tokens into a command kind, and the glue that
//! turns tokens into wire bytes and raw replies into messages.

use vstd::prelude::*;
use crate::parsers::{
    Command, RetrievalCommand, StorageCommand, is_retrieval_verb, is_storage_verb,
    parse_retrieval_tokens, parse_storage_tokens, retrieval_verb, retrieval_wire, storage_verb,
    storage_wire,
};
use crate::responses::{
    ResponseError, RetrievalResponse, StorageResponse, not_found_reply, storage_reply_message,
    value_reply,
};
use crate::text::views_of;

verus! {

/// Classifies the tokens by their first token and, for a recognized kind,
/// parses and serializes them into the command's wire form.
pub fn serialize_command(cmd_args: Vec<String>) -> (r: (Result<String, String>, Command))
    requires
        cmd_args@.len() >= 1,
    ensures
        ({
            let ws = views_of(cmd_args@);
            if storage_verb(ws[0]) {
                r.1 is Storage && match parse_storage_tokens(ws) {
                    Ok(m) => r.0 matches Ok(w) && w@ == storage_wire(m),
                    Err(msg) => r.0 matches Err(e) && e@ == msg,
                }
            } else if retrieval_verb(ws[0]) {
                r.1 is Retrieval && match parse_retrieval_tokens(ws) {
                    Ok(m) => r.0 matches Ok(w) && w@ == retrieval_wire(m),
                    Err(msg) => r.0 matches Err(e) && e@ == msg,
                }
            } else {
                r.1 is Unknown && (r.0 matches Err(e) && e@ == ws[0] + " - command does not exist"@)
            }
        }),
{
    if is_storage_verb(cmd_args[0].as_str()) {
        match StorageCommand::parse(cmd_args) {
            Ok(command) => (Ok(command.deserialize()), Command::Storage),
            Err(string) => (Err(string), Command::Storage),
        }
    } else if is_retrieval_verb(cmd_args[0].as_str()) {
        match RetrievalCommand::parse(cmd_args) {
            Ok(command) => (Ok(command.deserialize()), Command::Retrieval),
            Err(string) => (Err(string), Command::Retrieval),
        }
    } else {
        let mut e = cmd_args[0].clone();
        e.append(" - command does not exist");
        (Err(e), Command::Unknown)
    }
}

/// Parses the raw reply according to the command kind that produced it and
/// returns the message to show; an unknown kind has no reply to parse.
pub fn serialize_response(response: String, cmd_type: Command) -> (r: Result<
    Option<String>,
    ResponseError,
>)
    ensures
        match cmd_type {
            Command::Storage => match storage_reply_message(response@) {
                Some(m) => r matches Ok(Some(msg)) && msg@ == m,
                None => r matches Err(e) && e is UnparsableResponse,
            },
            Command::Retrieval => if not_found_reply(response@) {
                r matches Ok(Some(msg)) && msg@ == "value not found for provided key"@
            } else if value_reply(response@) {
                r matches Ok(Some(msg)) && msg@ == "data returned successfully"@
            } else {
                r matches Err(e) && e is UnparsableResponse
            },
            Command::Unknown => r matches Ok(msg) && msg is None,
        },
{
    match cmd_type {
        Command::Storage => {
            match StorageResponse::serialize(response.as_str()) {
                Ok(parsed) => Ok(parsed.get_message()),
                Err(e) => Err(e),
            }
        },
        Command::Retrieval => {
            match RetrievalResponse::serialize(response.as_str()) {
                Ok(parsed) => Ok(parsed.get_message()),
                Err(e) => Err(e),
            }
        },
        Command::Unknown => Ok(None),
    }
}

} // verus!
