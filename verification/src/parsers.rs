//! Validation and serialization of memcached storage and retrieval commands.
//!
//! A command is parsed from an ordered list of user-supplied tokens and, once
//! validated, serialized into the exact CRLF-terminated wire grammar the
//! server expects.

use vstd::prelude::*;
use vstd::utf8::encode_utf8;
use crate::text::{dec_digits, dec_u64, str_eq, views_of};

verus! {

/// The kind of command the first token selects.
pub enum Command {
    Storage,
    Retrieval,
    Unknown,
}

/// A validated storage request: writes or mutates a key's value.
#[derive(Debug)]
pub struct StorageCommand {
    pub command: String,
    pub key: String,
    pub flags: Option<u16>,
    pub exptime: Option<u32>,
    pub bytes: Option<u32>,
    pub no_reply: bool,
    pub data: String,
}

/// A validated retrieval request: reads a key's value.
#[derive(Debug)]
pub struct RetrievalCommand {
    pub command: String,
    pub key: String,
}

/// The mathematical content of a [`StorageCommand`].
pub ghost struct StorageModel {
    pub command: Seq<char>,
    pub key: Seq<char>,
    pub flags: Option<u16>,
    pub exptime: Option<u32>,
    pub bytes: Option<u32>,
    pub no_reply: bool,
    pub data: Seq<char>,
}

/// The mathematical content of a [`RetrievalCommand`].
pub ghost struct RetrievalModel {
    pub command: Seq<char>,
    pub key: Seq<char>,
}

impl View for StorageCommand {
    type V = StorageModel;

    open spec fn view(&self) -> StorageModel {
        StorageModel {
            command: self.command@,
            key: self.key@,
            flags: self.flags,
            exptime: self.exptime,
            bytes: self.bytes,
            no_reply: self.no_reply,
            data: self.data@,
        }
    }
}

impl View for RetrievalCommand {
    type V = RetrievalModel;

    open spec fn view(&self) -> RetrievalModel {
        RetrievalModel { command: self.command@, key: self.key@ }
    }
}

/// The verbs that name a storage command.
pub open spec fn storage_verb(s: Seq<char>) -> bool {
    s == "set"@ || s == "add"@ || s == "replace"@ || s == "append"@ || s == "prepend"@
}

/// The verbs that name a retrieval command.
pub open spec fn retrieval_verb(s: Seq<char>) -> bool {
    s == "get"@ || s == "gets"@ || s == "gat"@ || s == "gats"@
}

/// The error text for a storage command with too few tokens.
pub open spec fn storage_usage_msg() -> Seq<char> {
    "not enough arguments provided: <command> <key> <flags> <value>"@
}

/// The error text for a retrieval command with too few tokens.
pub open spec fn retrieval_usage_msg() -> Seq<char> {
    "not enough arguments provided: <command> <flags> <key>"@
}

/// The error text for an unrecognized verb.
pub open spec fn unknown_command_msg(w: Seq<char>) -> Seq<char> {
    w + " - command not found"@
}

/// The error text for a disallowed token between key and value.
pub open spec fn unexpected_argument_msg(w: Seq<char>) -> Seq<char> {
    w + " - unexpected argument"@
}

/// What parsing a token list as a storage command yields.
///
/// The tokens strictly between the second token and the last two are
/// disallowed; the first such token (present exactly when there are five or
/// more tokens) is reported.  No flag syntax is accepted: a valid command is
/// `<verb> <key> <value>`, with the numeric fields left to their defaults.
pub open spec fn parse_storage_tokens(ws: Seq<Seq<char>>) -> Result<StorageModel, Seq<char>> {
    if ws.len() < 3 {
        Err(storage_usage_msg())
    } else if !storage_verb(ws[0]) {
        Err(unknown_command_msg(ws[0]))
    } else if ws.len() >= 5 {
        Err(unexpected_argument_msg(ws[2]))
    } else {
        Ok(
            StorageModel {
                command: ws[0],
                key: ws[1],
                flags: None,
                exptime: None,
                bytes: None,
                no_reply: false,
                data: ws[ws.len() - 1],
            },
        )
    }
}

/// What parsing a token list as a retrieval command yields.
pub open spec fn parse_retrieval_tokens(ws: Seq<Seq<char>>) -> Result<RetrievalModel, Seq<char>> {
    if ws.len() < 2 {
        Err(retrieval_usage_msg())
    } else if !retrieval_verb(ws[0]) {
        Err(unknown_command_msg(ws[0]))
    } else if ws.len() >= 5 {
        Err(unexpected_argument_msg(ws[2]))
    } else {
        Ok(RetrievalModel { command: ws[0], key: ws[ws.len() - 1] })
    }
}

/// The flags field as sent: the stored value, or `0` when unset.
pub open spec fn wire_flags(m: StorageModel) -> nat {
    match m.flags {
        None => 0,
        Some(f) => f as nat,
    }
}

/// The exptime field as sent: the stored value, or `0` when unset.
pub open spec fn wire_exptime(m: StorageModel) -> nat {
    match m.exptime {
        None => 0,
        Some(e) => e as nat,
    }
}

/// The byte-count field as sent: the stored value, or the UTF-8 byte length
/// of the payload when unset.
pub open spec fn wire_bytes(m: StorageModel) -> nat {
    match m.bytes {
        None => encode_utf8(m.data).len() as usize as nat,
        Some(b) => b as nat,
    }
}

/// The wire form of a storage command:
/// `<command> <key> <flags> <exptime> <byte_count>[ noreply]\r\n<data>\r\n`.
pub open spec fn storage_wire(m: StorageModel) -> Seq<char> {
    m.command + seq![' '] + m.key + seq![' '] + dec_digits(wire_flags(m)) + seq![' ']
        + dec_digits(wire_exptime(m)) + seq![' '] + dec_digits(wire_bytes(m)) + (if m.no_reply {
        " noreply"@
    } else {
        Seq::<char>::empty()
    }) + seq!['\r', '\n'] + m.data + seq!['\r', '\n']
}

/// The wire form of a retrieval command: `<command> <key>\r\n`.
pub open spec fn retrieval_wire(m: RetrievalModel) -> Seq<char> {
    m.command + seq![' '] + m.key + seq!['\r', '\n']
}

/// Whether `s` is one of the storage verbs.
pub fn is_storage_verb(s: &str) -> (r: bool)
    ensures
        r == storage_verb(s@),
{
    str_eq(s, "set") || str_eq(s, "add") || str_eq(s, "replace") || str_eq(s, "append") || str_eq(
        s,
        "prepend",
    )
}

/// Whether `s` is one of the retrieval verbs.
pub fn is_retrieval_verb(s: &str) -> (r: bool)
    ensures
        r == retrieval_verb(s@),
{
    str_eq(s, "get") || str_eq(s, "gets") || str_eq(s, "gat") || str_eq(s, "gats")
}

impl StorageCommand {
    /// Serializes the command into the wire grammar the server expects.
    pub fn deserialize(&self) -> (r: String)
        ensures
            r@ == storage_wire(self@),
    {
        let mut out = self.command.clone();
        out.append(" ");
        out.append(self.key.as_str());
        out.append(" ");
        let flags = match self.flags {
            None => dec_u64(0),
            Some(f) => dec_u64(f as u64),
        };
        out.append(flags.as_str());
        out.append(" ");
        let exptime = match self.exptime {
            None => dec_u64(0),
            Some(e) => dec_u64(e as u64),
        };
        out.append(exptime.as_str());
        out.append(" ");
        let bytes = match self.bytes {
            Some(b) => dec_u64(b as u64),
            None => dec_u64(self.data.as_str().len() as u64),
        };
        out.append(bytes.as_str());
        if self.no_reply {
            out.append(" noreply");
        }
        out.append("\r\n");
        out.append(self.data.as_str());
        out.append("\r\n");
        proof {
            reveal_strlit(" ");
            reveal_strlit("\r\n");
            reveal_strlit(" noreply");
            assert(" "@ =~= seq![' ']);
            assert("\r\n"@ =~= seq!['\r', '\n']);
            assert(out@ =~= storage_wire(self@));
        }
        out
    }

    /// Validates a token list as a storage command.
    ///
    /// Succeeds exactly on `<verb> <key> <value>` shapes (a fourth token is
    /// tolerated because only the tokens strictly between the key and the
    /// last two are checked); the numeric fields keep their defaults.
    pub fn parse(words: Vec<String>) -> (r: Result<Self, String>)
        ensures
            match r {
                Ok(c) => parse_storage_tokens(views_of(words@)) == Ok::<StorageModel, Seq<char>>(
                    c@,
                ),
                Err(e) => parse_storage_tokens(views_of(words@)) == Err::<
                    StorageModel,
                    Seq<char>,
                >(e@),
            },
    {
        if words.len() < 3 {
            return Err("not enough arguments provided: <command> <key> <flags> <value>".to_owned());
        }
        if !is_storage_verb(words[0].as_str()) {
            let mut e = words[0].clone();
            e.append(" - command not found");
            return Err(e);
        }
        if words.len() >= 5 {
            let mut e = words[2].clone();
            e.append(" - unexpected argument");
            return Err(e);
        }
        let c = StorageCommand {
            command: words[0].clone(),
            key: words[1].clone(),
            flags: None,
            exptime: None,
            bytes: None,
            no_reply: false,
            data: words[words.len() - 1].clone(),
        };
        Ok(c)
    }
}

impl RetrievalCommand {
    /// Serializes the command into the wire grammar the server expects.
    pub fn deserialize(&self) -> (r: String)
        ensures
            r@ == retrieval_wire(self@),
    {
        let mut out = self.command.clone();
        out.append(" ");
        out.append(self.key.as_str());
        out.append("\r\n");
        proof {
            reveal_strlit(" ");
            reveal_strlit("\r\n");
            assert(out@ =~= retrieval_wire(self@));
        }
        out
    }

    /// Validates a token list as a retrieval command.
    ///
    /// Succeeds exactly on `<verb> <key>` shapes (a third and fourth token
    /// are tolerated because only the tokens strictly between the second and
    /// the last two are checked); the last token is the key.
    pub fn parse(words: Vec<String>) -> (r: Result<Self, String>)
        ensures
            match r {
                Ok(c) => parse_retrieval_tokens(views_of(words@)) == Ok::<
                    RetrievalModel,
                    Seq<char>,
                >(c@),
                Err(e) => parse_retrieval_tokens(views_of(words@)) == Err::<
                    RetrievalModel,
                    Seq<char>,
                >(e@),
            },
    {
        if words.len() < 2 {
            return Err("not enough arguments provided: <command> <flags> <key>".to_owned());
        }
        if !is_retrieval_verb(words[0].as_str()) {
            let mut e = words[0].clone();
            e.append(" - command not found");
            return Err(e);
        }
        if words.len() >= 5 {
            let mut e = words[2].clone();
            e.append(" - unexpected argument");
            return Err(e);
        }
        let c = RetrievalCommand { command: words[0].clone(), key: words[words.len() - 1].clone() };
        Ok(c)
    }
}

/// Law: every minimal, valid storage token list `[verb, key, value]` parses
/// successfully, and serializing the result yields exactly
/// `<verb> <key> 0 0 <len(value)>\r\n<value>\r\n`, with `len(value)` the
/// UTF-8 byte length of the payload.
pub proof fn lemma_storage_parse_then_wire(ws: Seq<Seq<char>>)
    requires
        ws.len() == 3,
        storage_verb(ws[0]),
    ensures
        parse_storage_tokens(ws) is Ok,
        storage_wire(parse_storage_tokens(ws)->Ok_0) == ws[0] + seq![' '] + ws[1] + seq![
            ' ',
            '0',
            ' ',
            '0',
            ' ',
        ] + dec_digits(encode_utf8(ws[2]).len() as usize as nat) + seq!['\r', '\n'] + ws[2] + seq![
            '\r',
            '\n',
        ],
{
    let m = parse_storage_tokens(ws)->Ok_0;
    assert(storage_wire(m) =~= ws[0] + seq![' '] + ws[1] + seq![' ', '0', ' ', '0', ' ']
        + dec_digits(encode_utf8(ws[2]).len() as usize as nat) + seq!['\r', '\n'] + ws[2] + seq![
        '\r',
        '\n',
    ]);
}

/// Law: serialization reproduces explicitly supplied flags, exptime and
/// byte-count fields verbatim, and appends `" noreply"` before the first
/// CRLF exactly when `no_reply` is set, never otherwise.
pub proof fn lemma_storage_wire_explicit_fields(m: StorageModel, f: u16, e: u32, b: u32)
    requires
        m.flags == Some(f),
        m.exptime == Some(e),
        m.bytes == Some(b),
    ensures
        ({
            let numeric = m.command + seq![' '] + m.key + seq![' '] + dec_digits(f as nat) + seq![
                ' ',
            ] + dec_digits(e as nat) + seq![' '] + dec_digits(b as nat);
            let tail = seq!['\r', '\n'] + m.data + seq!['\r', '\n'];
            storage_wire(m) == if m.no_reply {
                numeric + " noreply"@ + tail
            } else {
                numeric + tail
            }
        }),
{
    let numeric = m.command + seq![' '] + m.key + seq![' '] + dec_digits(f as nat) + seq![' ']
        + dec_digits(e as nat) + seq![' '] + dec_digits(b as nat);
    let tail = seq!['\r', '\n'] + m.data + seq!['\r', '\n'];
    if m.no_reply {
        assert(storage_wire(m) =~= numeric + " noreply"@ + tail);
    } else {
        assert(storage_wire(m) =~= numeric + tail);
    }
}

/// Law: every minimal, valid retrieval token list `[verb, key]` parses
/// successfully, and serializing the result yields exactly
/// `<verb> <key>\r\n`.
pub proof fn lemma_retrieval_parse_then_wire(ws: Seq<Seq<char>>)
    requires
        ws.len() == 2,
        retrieval_verb(ws[0]),
    ensures
        parse_retrieval_tokens(ws) is Ok,
        retrieval_wire(parse_retrieval_tokens(ws)->Ok_0) == ws[0] + seq![' '] + ws[1] + seq![
            '\r',
            '\n',
        ],
{
}

/// Law: a storage token list with a disallowed extra token between the key
/// and the value is rejected, and the first such token is the one reported.
pub proof fn lemma_storage_extra_argument_rejected(ws: Seq<Seq<char>>)
    requires
        ws.len() >= 5,
        storage_verb(ws[0]),
    ensures
        parse_storage_tokens(ws) == Err::<StorageModel, Seq<char>>(unexpected_argument_msg(ws[2])),
{
}

/// Law: a retrieval token list with a disallowed extra token between the
/// second token and the key is rejected the same way.
pub proof fn lemma_retrieval_extra_argument_rejected(ws: Seq<Seq<char>>)
    requires
        ws.len() >= 5,
        retrieval_verb(ws[0]),
    ensures
        parse_retrieval_tokens(ws) == Err::<RetrievalModel, Seq<char>>(
            unexpected_argument_msg(ws[2]),
        ),
{
}

/// Law: round-trip idempotence for storage commands.  Re-parsing the token
/// stream equivalent to a parsed command — its verb, key and payload —
/// yields a field-for-field identical structure, defaults included.
pub proof fn lemma_storage_reparse(ws: Seq<Seq<char>>)
    requires
        parse_storage_tokens(ws) is Ok,
    ensures
        ({
            let m = parse_storage_tokens(ws)->Ok_0;
            parse_storage_tokens(seq![m.command, m.key, m.data]) == Ok::<StorageModel, Seq<char>>(m)
        }),
{
    let m = parse_storage_tokens(ws)->Ok_0;
    let again = seq![m.command, m.key, m.data];
    assert(again[0] == ws[0]);
    assert(parse_storage_tokens(again)->Ok_0 == m);
}

/// Law: round-trip idempotence for retrieval commands.
pub proof fn lemma_retrieval_reparse(ws: Seq<Seq<char>>)
    requires
        parse_retrieval_tokens(ws) is Ok,
    ensures
        ({
            let m = parse_retrieval_tokens(ws)->Ok_0;
            parse_retrieval_tokens(seq![m.command, m.key]) == Ok::<RetrievalModel, Seq<char>>(m)
        }),
{
    let m = parse_retrieval_tokens(ws)->Ok_0;
    let again = seq![m.command, m.key];
    assert(again[0] == ws[0]);
    assert(parse_retrieval_tokens(again)->Ok_0 == m);
}

} // verus!
