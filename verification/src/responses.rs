//! Parsing of the server's reply lines into structured, typed results.
//!
//! A storage reply is a single line from a closed set; a retrieval reply is
//! either `NOT_FOUND\r\n` or a multi-line `VALUE` block whose inner lines are
//! captured verbatim.  Any other shape is an unparsable-response error,
//! reported to the caller rather than aborting.

use vstd::prelude::*;
use crate::text::{split_crlf, str_eq, split_crlf_exec, views_of};

verus! {

/// A reply the grammar does not recognize.
#[derive(Debug)]
pub enum ResponseError {
    UnparsableResponse,
}

/// A parsed reply to a storage command.
pub struct StorageResponse {
    pub message: Option<String>,
}

/// A parsed reply to a retrieval command.
pub struct RetrievalResponse {
    pub data: Option<Vec<String>>,
    pub message: Option<String>,
}

/// The human-readable message for a storage reply line, or `None` when the
/// line is not part of the grammar.
pub open spec fn storage_reply_message(s: Seq<char>) -> Option<Seq<char>> {
    if s == "STORED\r\n"@ {
        Some("storage successful"@)
    } else if s == "NOT_STORED\r\n"@ {
        Some("data was not stored"@)
    } else if s == "EXISTS\r\n"@ {
        Some("item that you attempted to fetch has been modified"@)
    } else if s == "NOT_FOUND\r\n"@ {
        Some("item that you are trying to store does not exist"@)
    } else {
        None
    }
}

/// Whether a retrieval reply says the key has no value.
pub open spec fn not_found_reply(s: Seq<char>) -> bool {
    s == "NOT_FOUND\r\n"@
}

/// Whether a retrieval reply is a `VALUE` block.
pub open spec fn value_reply(s: Seq<char>) -> bool {
    s.len() >= 5 && s.subrange(0, 5) == "VALUE"@
}

/// The data lines of a `VALUE` block: everything strictly between the header
/// line and the final (empty, trailing) piece of the CRLF split.
pub open spec fn value_lines(s: Seq<char>) -> Seq<Seq<char>> {
    let pieces = split_crlf(s);
    if pieces.len() <= 1 {
        Seq::<Seq<char>>::empty()
    } else {
        pieces.subrange(1, pieces.len() - 1)
    }
}

impl StorageResponse {
    /// Parses a raw storage reply by exact match against the reply grammar.
    pub fn serialize(cmd_response: &str) -> (r: Result<Self, ResponseError>)
        ensures
            match r {
                Ok(resp) => storage_reply_message(cmd_response@) is Some && (resp.message matches
                Some(m) && m@ == storage_reply_message(cmd_response@)->0),
                Err(e) => storage_reply_message(cmd_response@) is None && e
                    is UnparsableResponse,
            },
    {
        if str_eq(cmd_response, "STORED\r\n") {
            Ok(StorageResponse { message: Some("storage successful".to_owned()) })
        } else if str_eq(cmd_response, "NOT_STORED\r\n") {
            Ok(StorageResponse { message: Some("data was not stored".to_owned()) })
        } else if str_eq(cmd_response, "EXISTS\r\n") {
            Ok(
                StorageResponse {
                    message: Some("item that you attempted to fetch has been modified".to_owned()),
                },
            )
        } else if str_eq(cmd_response, "NOT_FOUND\r\n") {
            Ok(
                StorageResponse {
                    message: Some("item that you are trying to store does not exist".to_owned()),
                },
            )
        } else {
            Err(ResponseError::UnparsableResponse)
        }
    }

    /// The message to show the user, if the reply carried one.
    pub fn get_message(&self) -> (r: Option<String>)
        ensures
            r == self.message,
    {
        match &self.message {
            Some(m) => Some(m.clone()),
            None => None,
        }
    }
}

impl RetrievalResponse {
    /// Parses a raw retrieval reply: `NOT_FOUND`, or a `VALUE` block whose
    /// inner lines become the returned data, in order.
    pub fn serialize(cmd_response: &str) -> (r: Result<Self, ResponseError>)
        ensures
            match r {
                Ok(resp) => if not_found_reply(cmd_response@) {
                    resp.data is None && (resp.message matches Some(m) && m@
                        == "value not found for provided key"@)
                } else {
                    value_reply(cmd_response@) && (resp.message matches Some(m) && m@
                        == "data returned successfully"@) && (resp.data matches Some(d) && views_of(
                        d@,
                    ) == value_lines(cmd_response@))
                },
                Err(e) => !not_found_reply(cmd_response@) && !value_reply(cmd_response@) && e
                    is UnparsableResponse,
            },
    {
        if str_eq(cmd_response, "NOT_FOUND\r\n") {
            return Ok(
                RetrievalResponse {
                    data: None,
                    message: Some("value not found for provided key".to_owned()),
                },
            );
        }
        let n = cmd_response.unicode_len();
        if n >= 5 && str_eq(cmd_response.substring_char(0, 5), "VALUE") {
            let lines = split_crlf_exec(cmd_response);
            let count = lines.len();
            proof {
                assert(count as int == split_crlf(cmd_response@).len());
            }
            let mut data: Vec<String> = Vec::new();
            let mut idx: usize = 1;
            proof {
                if count >= 2 {
                    assert(views_of(data@) =~~= split_crlf(cmd_response@).subrange(1, 1));
                }
            }
            while idx + 1 < count
                invariant
                    1 <= idx,
                    count == lines@.len(),
                    views_of(lines@) == split_crlf(cmd_response@),
                    count >= 2 ==> idx <= count - 1 && views_of(data@) == split_crlf(
                        cmd_response@,
                    ).subrange(1, idx as int),
                    count < 2 ==> idx == 1 && data@.len() == 0,
                decreases count - idx,
            {
                let ghost before = data@;
                data.push(lines[idx].clone());
                proof {
                    assert(lines@[idx as int]@ == split_crlf(cmd_response@)[idx as int]);
                    assert(views_of(data@) =~~= views_of(before).push(
                        split_crlf(cmd_response@)[idx as int],
                    ));
                    assert(views_of(data@) =~~= split_crlf(cmd_response@).subrange(
                        1,
                        idx + 1,
                    ));
                }
                idx += 1;
            }
            proof {
                assert(views_of(data@) =~~= value_lines(cmd_response@));
            }
            return Ok(
                RetrievalResponse {
                    data: Some(data),
                    message: Some("data returned successfully".to_owned()),
                },
            );
        }
        Err(ResponseError::UnparsableResponse)
    }

    /// The message to show the user, if the reply carried one.
    pub fn get_message(&self) -> (r: Option<String>)
        ensures
            r == self.message,
    {
        match &self.message {
            Some(m) => Some(m.clone()),
            None => None,
        }
    }
}

} // verus!
