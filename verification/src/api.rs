//! What the routes of the address service answer.

use vstd::prelude::*;
use vstd::slice::slice_subrange;
use std::collections::HashMap;
use base64::prelude::{Engine, BASE64_STANDARD};
use mail_parser::MessageParser;
use crate::routes::{
    Reply, ReplyModel, BAD_REQUEST, INTERNAL_SERVER_ERROR, NOT_FOUND, OK, UNAUTHORIZED,
};
use crate::text::bytes_of;
use crate::user::User;

verus! {

/// The body of a request for a new address.
#[derive(Debug, PartialEq, Eq)]
pub struct CreateAddressRequest {
    pub domain_id: i32,
    pub description: Option<String>,
}

/// What was known of a mail before it was parsed.
#[derive(Debug)]
pub struct MailMetadata {
    /// The intended recipient, if known.
    pub to: Option<String>,
    /// The sender, if known.
    pub from: Option<String>,
    /// E-mail headers, if known.
    pub headers: HashMap<String, String>,
}

/// One mail handed in for ingestion.
#[derive(Debug)]
pub struct Mail {
    /// The raw contents of the e-mail, encoded with base64.
    pub raw: String,
    /// The size of the (decoded) raw contents.
    pub raw_size: usize,
    /// Information about the e-mail that was known prior to parsing.
    pub metadata: MailMetadata,
}

/// The body of an ingestion request.
#[derive(Debug)]
pub struct MailIngestionRequest {
    pub mails: Vec<Mail>,
    pub started_at: String,
}

/// The token that an ingestion request presented.
#[derive(PartialEq, Eq)]
pub struct ExtractAuthToken(pub String);

/// The bytes of `Token `, the scheme that an authorization header has to name.
pub open spec fn token_scheme() -> Seq<u8> {
    seq![0x54u8, 0x6fu8, 0x6bu8, 0x65u8, 0x6eu8, 0x20u8]
}

/// The text that `String::from_utf8_lossy` makes of bytes.
pub uninterp spec fn lossy_text(bytes: Seq<u8>) -> Seq<char>;

/// `String::from_utf8_lossy`: the bytes as text, with each invalid sequence
/// replaced by U+FFFD. Valid UTF-8 comes out as it is.
#[verifier::external_body]
fn text_from_bytes(bytes: &[u8]) -> (text: String)
    ensures
        text@ == lossy_text(bytes@),
        vstd::utf8::valid_utf8(bytes@) ==> text@ == vstd::utf8::decode_utf8(bytes@),
{
    String::from_utf8_lossy(bytes).into_owned()
}

fn names_token_scheme(value: &[u8]) -> (named: bool)
    ensures
        named == (value@.len() >= 6 && value@.subrange(0, 6) == token_scheme()),
{
    if value.len() < 6 {
        return false;
    }
    let named = value[0] == 0x54 && value[1] == 0x6f && value[2] == 0x6b && value[3] == 0x65
        && value[4] == 0x6e && value[5] == 0x20;
    proof {
        let head = value@.subrange(0, 6);
        if named {
            assert(head =~= token_scheme());
        } else {
            assert(head[0] == value@[0] && head[1] == value@[1] && head[2] == value@[2]);
            assert(head[3] == value@[3] && head[4] == value@[4] && head[5] == value@[5]);
        }
    }
    named
}

impl ExtractAuthToken {
    /// Reads the token out of the authorization header of a request. The
    /// header has to be there and to begin with `Token `; what follows is the
    /// token, untrimmed. Bytes that are the UTF-8 of a text give that text; in
    /// other bytes each invalid sequence reads as U+FFFD.
    pub fn from_header(header: Option<&[u8]>) -> (token: Result<ExtractAuthToken, Reply>)
        ensures
            match header {
                None => token matches Err(reply) && reply@ == ReplyModel::Status(
                    BAD_REQUEST as int,
                    "authorization token is missing"@,
                ),
                Some(value) => if value@.len() >= 6 && value@.subrange(0, 6) == token_scheme() {
                    token matches Ok(found) && {
                        &&& found.0@ == lossy_text(value@.subrange(6, value@.len() as int))
                        &&& vstd::utf8::valid_utf8(value@.subrange(6, value@.len() as int))
                            ==> found.0@ == vstd::utf8::decode_utf8(
                            value@.subrange(6, value@.len() as int),
                        )
                        &&& forall|text: Seq<char>|
                            #[trigger] vstd::utf8::encode_utf8(text) == value@.subrange(
                                6,
                                value@.len() as int,
                            ) ==> found.0@ == text
                    }
                } else {
                    token matches Err(reply) && reply@ == ReplyModel::Status(
                        BAD_REQUEST as int,
                        "invalid authorization scheme"@,
                    )
                },
            },
    {
        match header {
            None => Err(Reply::Status(BAD_REQUEST, "authorization token is missing".to_owned())),
            Some(value) => if names_token_scheme(value) {
                let rest = slice_subrange(value, 6, value.len());
                let token = text_from_bytes(rest);
                proof {
                    assert forall|text: Seq<char>| #[trigger]
                        vstd::utf8::encode_utf8(text) == rest@ implies token@ == text by {
                        vstd::utf8::encode_utf8_valid_utf8(text);
                        vstd::utf8::encode_utf8_decode_utf8(text);
                    }
                }
                Ok(ExtractAuthToken(token))
            } else {
                Err(Reply::Status(BAD_REQUEST, "invalid authorization scheme".to_owned()))
            },
        }
    }
}

/// The identifier of the signed-in user, or the status for a request that
/// needs one and has none.
pub fn require_user(user: Option<&User>) -> (id: Result<i32, u16>)
    ensures
        id == match user {
            Some(user) => Ok::<i32, u16>(user.id),
            None => Err::<i32, u16>(UNAUTHORIZED),
        },
{
    match user {
        Some(user) => Ok(user.id),
        None => Err(UNAUTHORIZED),
    }
}

/// The status of a request for one item, given what the storage found.
pub fn found_status<T>(outcome: &Result<Option<T>, String>) -> (status: u16)
    ensures
        status == match *outcome {
            Ok(Some(_)) => OK,
            Ok(None) => NOT_FOUND,
            Err(_) => INTERNAL_SERVER_ERROR,
        },
{
    match outcome {
        Ok(Some(_)) => OK,
        Ok(None) => NOT_FOUND,
        Err(_) => INTERNAL_SERVER_ERROR,
    }
}

/// The status of a request that lists or creates, given what the storage
/// reported.
pub fn done_status<T>(outcome: &Result<T, String>) -> (status: u16)
    ensures
        status == match *outcome {
            Ok(_) => OK,
            Err(_) => INTERNAL_SERVER_ERROR,
        },
{
    match outcome {
        Ok(_) => OK,
        Err(_) => INTERNAL_SERVER_ERROR,
    }
}

/// The bytes that standard base64 text decodes to; `None` where the text is
/// not standard base64 with padding.
pub uninterp spec fn base64_decoded(text: Seq<char>) -> Option<Seq<u8>>;

/// Whether `mail_parser` reads the bytes as a message.
pub uninterp spec fn mail_accepted(raw: Seq<u8>) -> bool;

/// `base64::Engine::decode` of the standard engine.
#[verifier::external_body]
fn decode_base64(text: &str) -> (bytes: Option<Vec<u8>>)
    ensures
        bytes_of(bytes) == base64_decoded(text@),
{
    BASE64_STANDARD.decode(text).ok()
}

/// `mail_parser::MessageParser::parse`, with the parser set up for MIME,
/// date, address and message-id headers: reports whether a message came out.
#[verifier::external_body]
fn parses_as_mail(raw: &[u8]) -> (accepted: bool)
    ensures
        accepted == mail_accepted(raw@),
{
    let parser = MessageParser::new()
        .with_mime_headers()
        .with_date_headers()
        .with_address_headers()
        .with_message_ids();
    parser.parse(raw).is_some()
}

/// What became of one mail of an ingestion request.
#[derive(Debug, Clone, Copy, PartialEq, Eq, Structural)]
pub enum MailReport {
    /// The raw contents are not base64.
    Undecodable,
    /// The decoded contents are no message.
    Unparsable,
    /// The mail was read.
    Parsed,
}

/// What becomes of a mail with the given raw contents.
pub open spec fn examined(raw: Seq<char>) -> MailReport {
    match base64_decoded(raw) {
        None => MailReport::Undecodable,
        Some(bytes) => if mail_accepted(bytes) {
            MailReport::Parsed
        } else {
            MailReport::Unparsable
        },
    }
}

impl MailReport {
    /// The report for a mail, given whether it decoded and, if so, whether
    /// the decoded bytes were read as a message.
    pub fn of(decoded: Option<bool>) -> (report: MailReport)
        ensures
            report == match decoded {
                None => MailReport::Undecodable,
                Some(false) => MailReport::Unparsable,
                Some(true) => MailReport::Parsed,
            },
    {
        match decoded {
            None => MailReport::Undecodable,
            Some(false) => MailReport::Unparsable,
            Some(true) => MailReport::Parsed,
        }
    }
}

/// Decodes and parses one mail.
pub fn examine(mail: &Mail) -> (report: MailReport)
    ensures
        report == examined(mail.raw@),
{
    match decode_base64(mail.raw.as_str()) {
        Some(bytes) => MailReport::of(Some(parses_as_mail(bytes.as_slice()))),
        None => MailReport::of(None),
    }
}

/// What an ingestion request came to.
#[derive(Debug, PartialEq, Eq)]
pub enum Ingestion {
    /// The request did not present the configured token. No mail was looked at.
    Unauthorized,
    /// Every mail was looked at; one report per mail, in order.
    Accepted(Vec<MailReport>),
}

/// Handles an ingestion request. The token has to be the configured one;
/// then every mail is decoded and parsed, and a mail that cannot be decoded
/// or parsed does not stop the others.
pub fn ingest(token: &ExtractAuthToken, api_token: &String, payload: &MailIngestionRequest) -> (done:
    Ingestion)
    ensures
        match done {
            Ingestion::Unauthorized => token.0@ != api_token@,
            Ingestion::Accepted(reports) => {
                &&& token.0@ == api_token@
                &&& reports@.len() == payload.mails@.len()
                &&& forall|i: int|
                    0 <= i < reports@.len() ==> #[trigger] reports@[i] == examined(
                        payload.mails@[i].raw@,
                    )
            },
        },
{
    if token.0 != *api_token {
        return Ingestion::Unauthorized;
    }
    let mut reports: Vec<MailReport> = Vec::new();
    let mut i: usize = 0;
    while i < payload.mails.len()
        invariant
            i <= payload.mails.len(),
            reports@.len() == i,
            forall|j: int| 0 <= j < i ==> #[trigger] reports@[j] == examined(payload.mails@[j].raw@),
        decreases payload.mails.len() - i,
    {
        reports.push(examine(&payload.mails[i]));
        i += 1;
    }
    Ingestion::Accepted(reports)
}

/// The answer to an ingestion request.
pub fn ingestion_reply(done: &Ingestion) -> (reply: Reply)
    ensures
        reply@ == match *done {
            Ingestion::Unauthorized => ReplyModel::Status(
                UNAUTHORIZED as int,
                "invalid authorization token"@,
            ),
            Ingestion::Accepted(_) => ReplyModel::Status(OK as int, Seq::<char>::empty()),
        },
{
    match done {
        Ingestion::Unauthorized => Reply::Status(
            UNAUTHORIZED,
            "invalid authorization token".to_owned(),
        ),
        Ingestion::Accepted(_) => Reply::Status(OK, String::new()),
    }
}

} // verus!
