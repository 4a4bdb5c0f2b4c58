//! The three requests of an upload, as a transport hands them in: one that
//! opens a session, one that brings a chunk, and one that finalizes.
//!
//! Each function here takes what the transport has read and says what goes
//! back to the client. Reading the request, writing the bytes to storage,
//! unsealing the stream and sending mail are the caller's part.

use crate::email::mailbox_list;
use crate::email::mailbox_views;
use crate::email::parse_mailbox_list;
use crate::email::Language;
use crate::email::Mailbox;
use crate::error::refusal;
use crate::error::refusal_code;
use crate::error::refusal_text;
use crate::error::Error;
use crate::hex::bytes_to_hex;
use crate::hex::hex_of;
use crate::ident::parses_as_uuid;
use crate::ident::random_seed;
use crate::ident::uuid_text;
use crate::range::content_range;
use crate::range::range_fault_text;
use crate::range::ContentRange;
use crate::session::sender_position;
use crate::session::Attribute;
use crate::session::Chunk;
use crate::session::FileState;
use crate::session::Progress;
use crate::session::UploadError;
use crate::session::CHUNK_SIZE;
use crate::text::opt_str;
use vstd::prelude::*;
use vstd::string::StringExecFns;
use vstd::utf8::encode_utf8;

verus! {

/// How long an uploaded file is kept, in seconds: fourteen days.
pub const EXPIRY_SECONDS: i64 = 1_209_600;

/// What a client sends to open a session.
#[derive(Clone, Debug)]
pub struct InitBody {
    pub recipient: String,
    pub mail_content: String,
    pub mail_lang: Language,
    pub confirm: bool,
}

/// The headers of a request that brings a chunk.
#[derive(Clone, Debug)]
pub struct UploadHeaders {
    pub cryptify_token: String,
    pub content_range: ContentRange,
}

/// The headers of a request that finalizes an upload.
#[derive(Clone, Copy, Debug)]
pub struct FinalizeHeaders {
    pub content_range: ContentRange,
}

/// What becomes of a request that brings a chunk.
pub enum ChunkOutcome {
    /// The answer is that nothing was found.
    Missing,
    /// The range names no start or no end.
    Unreadable,
    /// The session turns the chunk down.
    Refused(UploadError),
    /// The session takes the chunk.
    Taken,
}

/// What becomes of a request that finalizes an upload.
pub enum FinalizeOutcome {
    /// The answer is that nothing was found.
    Missing,
    /// The session turns the request down.
    Refused(UploadError),
    /// The session is completed.
    Completed,
}

/// The chunk that a request brings, if its range names a start and an end.
pub open spec fn chunk_of(headers: &UploadHeaders, data: Seq<u8>) -> Chunk {
    Chunk {
        token: headers.cryptify_token@,
        start: headers.content_range.start->0,
        end: headers.content_range.end->0,
        data,
    }
}

/// What becomes of a request that brings a chunk for the session `uuid`,
/// as far as its headers tell: the bytes have not been read yet.
pub open spec fn range_outcome(session: Progress, uuid: Seq<char>, headers: &UploadHeaders)
    -> ChunkOutcome {
    if !uuid_text(encode_utf8(uuid)) {
        ChunkOutcome::Missing
    } else if headers.content_range.start is None || headers.content_range.end is None {
        ChunkOutcome::Unreadable
    } else {
        match session.range_verdict(
            headers.cryptify_token@,
            headers.content_range.start->0,
            headers.content_range.end->0,
            CHUNK_SIZE,
        ) {
            None => ChunkOutcome::Taken,
            Some(UploadError::NotFound) => ChunkOutcome::Missing,
            Some(e) => ChunkOutcome::Refused(e),
        }
    }
}

/// What becomes of a request that brings the bytes `data` for the session
/// `uuid`.
pub open spec fn chunk_outcome(
    session: Progress,
    uuid: Seq<char>,
    headers: &UploadHeaders,
    data: Seq<u8>,
) -> ChunkOutcome {
    match range_outcome(session, uuid, headers) {
        ChunkOutcome::Taken => if data.len() != headers.content_range.end->0
            - headers.content_range.start->0 {
            ChunkOutcome::Refused(UploadError::IncompleteData)
        } else {
            ChunkOutcome::Taken
        },
        other => other,
    }
}

/// What becomes of a request that finalizes, before the stream is unsealed.
pub open spec fn size_outcome(session: Progress, headers: &FinalizeHeaders) -> FinalizeOutcome {
    if session.completed {
        FinalizeOutcome::Missing
    } else if headers.content_range.size != Some(session.uploaded) {
        FinalizeOutcome::Refused(UploadError::SizeMismatch)
    } else {
        FinalizeOutcome::Completed
    }
}

/// What becomes of a request that finalizes. `unsealed` holds the attributes
/// that the sealed stream names, or nothing if the stream could not be read.
pub open spec fn finalize_outcome(
    session: Progress,
    headers: &FinalizeHeaders,
    unsealed: Option<Seq<Attribute>>,
) -> FinalizeOutcome {
    match size_outcome(session, headers) {
        FinalizeOutcome::Completed => match unsealed {
            None => FinalizeOutcome::Refused(UploadError::SealError),
            Some(attributes) => if sender_position(attributes) == attributes.len() {
                FinalizeOutcome::Refused(UploadError::NoSender)
            } else {
                FinalizeOutcome::Completed
            },
        },
        other => other,
    }
}

/// What the headers of a chunk request give: the token and the range, or
/// what is wrong with them.
pub open spec fn upload_headers(token: Option<Seq<char>>, range: Option<Seq<char>>) -> Result<
    (Seq<char>, ContentRange),
    Seq<char>,
> {
    match token {
        None => Err("Missing Cryptify Token header"@),
        Some(token) => match range {
            None => Err("Missing content range"@),
            Some(range) => match content_range(range) {
                Ok(r) => Ok((token, r)),
                Err(e) => Err(range_fault_text(e)),
            },
        },
    }
}

/// What the headers of a finalize request give: the range, or what is wrong
/// with them.
pub open spec fn finalize_headers(range: Option<Seq<char>>) -> Result<ContentRange, Seq<char>> {
    match range {
        None => Err("Missing content range"@),
        Some(range) => match content_range(range) {
            Ok(r) => Ok(r),
            Err(e) => Err(range_fault_text(e)),
        },
    }
}

impl UploadHeaders {
    /// Reads the headers of a chunk request from the values of the headers
    /// `CryptifyToken` and `Content-Range`, where the request has them.
    pub fn from_request(cryptify_token: Option<&str>, content_range: Option<&str>) -> (headers:
        Result<UploadHeaders, String>)
        ensures
            match headers {
                Ok(h) => upload_headers(opt_str(cryptify_token), opt_str(content_range)) == Ok::<
                    (Seq<char>, ContentRange),
                    Seq<char>,
                >((h.cryptify_token@, h.content_range)),
                Err(why) => upload_headers(opt_str(cryptify_token), opt_str(content_range))
                    == Err::<(Seq<char>, ContentRange), Seq<char>>(why@),
            },
    {
        let token = match cryptify_token {
            Some(token) => String::from_str(token),
            None => {
                return Err(String::from_str("Missing Cryptify Token header"));
            },
        };
        let text = match content_range {
            Some(text) => text,
            None => {
                return Err(String::from_str("Missing content range"));
            },
        };
        match ContentRange::from_str(text) {
            Ok(range) => Ok(UploadHeaders { cryptify_token: token, content_range: range }),
            Err(e) => Err(e.message()),
        }
    }
}

impl FinalizeHeaders {
    /// Reads the headers of a finalize request from the value of the header
    /// `Content-Range`, where the request has it.
    pub fn from_request(content_range: Option<&str>) -> (headers: Result<FinalizeHeaders, String>)
        ensures
            match headers {
                Ok(h) => finalize_headers(opt_str(content_range)) == Ok::<
                    ContentRange,
                    Seq<char>,
                >(h.content_range),
                Err(why) => finalize_headers(opt_str(content_range)) == Err::<
                    ContentRange,
                    Seq<char>,
                >(why@),
            },
    {
        let text = match content_range {
            Some(text) => text,
            None => {
                return Err(String::from_str("Missing content range"));
            },
        };
        match ContentRange::from_str(text) {
            Ok(range) => Ok(FinalizeHeaders { content_range: range }),
            Err(e) => Err(e.message()),
        }
    }
}

/// Whether `error` answers a request that the session refused with `e`.
pub open spec fn answers(error: Error, e: UploadError) -> bool {
    refusal_code(e) == Some(error.code()) && error.text() == refusal_text(e)
}

/// Whether `error` says that the range names no start or no end.
pub open spec fn says_unreadable(error: Error) -> bool {
    error.code() == 400 && error.text() == Some("Could not read Content-Range start"@)
}

/// Tells where the bytes of a chunk go, before any byte is read: the start
/// and the end of the range if the session would take the chunk, nothing if
/// the answer is that nothing was found, and the error otherwise.
pub fn upload_chunk_check(state: &FileState, uuid: &str, headers: &UploadHeaders) -> (bounds:
    Result<Option<(u64, u64)>, Error>)
    ensures
        match range_outcome(state@, uuid@, headers) {
            ChunkOutcome::Missing => bounds is Ok && bounds->Ok_0 is None,
            ChunkOutcome::Unreadable => bounds is Err && says_unreadable(bounds->Err_0),
            ChunkOutcome::Refused(e) => bounds is Err && answers(bounds->Err_0, e),
            ChunkOutcome::Taken => bounds is Ok && bounds->Ok_0 == Some(
                (headers.content_range.start->0, headers.content_range.end->0),
            ),
        },
{
    if !parses_as_uuid(uuid) {
        return Ok(None);
    }
    let start = match headers.content_range.start {
        Some(start) => start,
        None => {
            return Err(
                Error::BadRequest(Some(String::from_str("Could not read Content-Range start"))),
            );
        },
    };
    let end = match headers.content_range.end {
        Some(end) => end,
        None => {
            return Err(
                Error::BadRequest(Some(String::from_str("Could not read Content-Range start"))),
            );
        },
    };
    match state.check_chunk(headers.cryptify_token.as_str(), start, end, CHUNK_SIZE) {
        Ok(_) => Ok(Some((start, end))),
        Err(e) => match refusal(e) {
            None => Ok(None),
            Some(error) => Err(error),
        },
    }
}

/// Takes the chunk that a request brings. Where the session takes it, the
/// session moves on and the rotated token goes back; otherwise the session
/// stays as it is, and the answer is that nothing was found, or the error.
pub fn upload_chunk(state: &mut FileState, uuid: &str, headers: &UploadHeaders, data: &[u8]) -> (
    response: Result<Option<String>, Error>)
    ensures
        final(state).same_delivery(old(state)),
        final(state).sender == old(state).sender,
        match chunk_outcome(old(state)@, uuid@, headers, data@) {
            ChunkOutcome::Missing => response is Ok && response->Ok_0 is None && *final(state)
                == *old(state),
            ChunkOutcome::Unreadable => response is Err && says_unreadable(response->Err_0)
                && *final(state) == *old(state),
            ChunkOutcome::Refused(e) => response is Err && answers(response->Err_0, e) && *final(state) == *old(state),
            ChunkOutcome::Taken => {
                &&& response is Ok
                &&& response->Ok_0 is Some
                &&& response->Ok_0->0@ == final(state)@.token
                &&& final(state)@ == old(state)@.after_chunk(chunk_of(headers, data@))
            },
        },
{
    if !parses_as_uuid(uuid) {
        return Ok(None);
    }
    let start = match headers.content_range.start {
        Some(start) => start,
        None => {
            return Err(
                Error::BadRequest(Some(String::from_str("Could not read Content-Range start"))),
            );
        },
    };
    let end = match headers.content_range.end {
        Some(end) => end,
        None => {
            return Err(
                Error::BadRequest(Some(String::from_str("Could not read Content-Range start"))),
            );
        },
    };
    match state.accept_chunk(headers.cryptify_token.as_str(), start, end, data, CHUNK_SIZE) {
        Ok(token) => Ok(Some(token)),
        Err(e) => match refusal(e) {
            None => Ok(None),
            Some(error) => Err(error),
        },
    }
}

/// Tells whether a finalize request may go on to unseal the stream: yes,
/// the answer is that nothing was found, or the error.
pub fn upload_finalize_check(state: &FileState, headers: &FinalizeHeaders) -> (go: Result<
    Option<()>,
    Error,
>)
    ensures
        match size_outcome(state@, headers) {
            FinalizeOutcome::Missing => go is Ok && go->Ok_0 is None,
            FinalizeOutcome::Refused(e) => go is Err && answers(go->Err_0, e),
            FinalizeOutcome::Completed => go is Ok && go->Ok_0 is Some,
        },
{
    if state.completed {
        return Ok(None);
    }
    let claimed = match headers.content_range.size {
        Some(size) => size,
        None => {
            return Err(Error::UnprocessableEntity(None));
        },
    };
    match state.check_finalize(claimed) {
        Ok(_) => Ok(Some(())),
        Err(e) => match refusal(e) {
            None => Ok(None),
            Some(error) => Err(error),
        },
    }
}

/// Finalizes an upload. `unsealed` holds the attributes that the sealed
/// stream names, or nothing if the stream could not be read. Where the
/// session is completed it knows its sender; otherwise it stays as it is,
/// and the answer is that nothing was found, or the error.
pub fn upload_finalize(
    state: &mut FileState,
    headers: &FinalizeHeaders,
    unsealed: Option<Vec<Attribute>>,
) -> (response: Result<Option<()>, Error>)
    ensures
        final(state).same_delivery(old(state)),
        final(state).uploaded == old(state).uploaded,
        final(state).cryptify_token == old(state).cryptify_token,
        match finalize_outcome(
            old(state)@,
            headers,
            match unsealed {
                Some(attributes) => Some(attributes@),
                None => None,
            },
        ) {
            FinalizeOutcome::Missing => response is Ok && response->Ok_0 is None && *final(state)
                == *old(state),
            FinalizeOutcome::Refused(e) => response is Err && answers(response->Err_0, e)
                && *final(state) == *old(state),
            FinalizeOutcome::Completed => {
                &&& response is Ok
                &&& response->Ok_0 is Some
                &&& final(state).completed
                &&& final(state).sender == unsealed->0@[sender_position(unsealed->0@)].value
            },
        },
{
    if state.completed {
        return Ok(None);
    }
    let claimed = match headers.content_range.size {
        Some(size) => size,
        None => {
            return Err(Error::UnprocessableEntity(None));
        },
    };
    match state.finalize(claimed, unsealed) {
        Ok(_) => Ok(Some(())),
        Err(e) => match refusal(e) {
            None => Ok(None),
            Some(error) => Err(error),
        },
    }
}

/// The state of a session that has just been opened by `request` at
/// `current_time`, a time in seconds, with `seed` for its first token.
pub fn init_state(request: &InitBody, recipients: Vec<Mailbox>, current_time: i64, seed: &[u8])
    -> (state: FileState)
    requires
        current_time + EXPIRY_SECONDS <= i64::MAX,
    ensures
        state.uploaded == 0,
        state.cryptify_token@ == hex_of(seed@),
        state.expires == current_time + EXPIRY_SECONDS,
        state.recipients == recipients,
        state.mail_content == request.mail_content,
        state.mail_lang == request.mail_lang,
        state.sender is None,
        state.confirm == request.confirm,
        !state.completed,
{
    FileState {
        cryptify_token: bytes_to_hex(seed),
        uploaded: 0,
        expires: current_time + EXPIRY_SECONDS,
        recipients,
        mail_content: request.mail_content.clone(),
        mail_lang: request.mail_lang,
        sender: None,
        confirm: request.confirm,
        completed: false,
    }
}

/// Opens a session for `request` at `current_time`, a time in seconds. The
/// first token is drawn at random. The request is turned down where its
/// recipients cannot be read.
pub fn upload_init(request: &InitBody, current_time: i64) -> (opened: Result<FileState, Error>)
    requires
        current_time + EXPIRY_SECONDS <= i64::MAX,
    ensures
        match opened {
            Ok(state) => {
                &&& mailbox_list(request.recipient@) == Ok::<
                    Seq<crate::email::MailboxText>,
                    Seq<char>,
                >(mailbox_views(state.recipients@))
                &&& exists|seed: Seq<u8>| seed.len() == 32 && state.cryptify_token@ == #[trigger] hex_of(seed)
                &&& state.uploaded == 0
                &&& state.expires == current_time + EXPIRY_SECONDS
                &&& state.mail_content == request.mail_content
                &&& state.mail_lang == request.mail_lang
                &&& state.sender is None
                &&& state.confirm == request.confirm
                &&& !state.completed
            },
            Err(error) => {
                &&& mailbox_list(request.recipient@) is Err
                &&& error.code() == 400
                &&& error.text() == Some(
                    "Could not parse e-mail address: "@ + mailbox_list(request.recipient@)->Err_0,
                )
            },
        },
{
    let seed = random_seed();
    match parse_mailbox_list(request.recipient.as_str()) {
        Ok(recipients) => Ok(init_state(request, recipients, current_time, seed.as_slice())),
        Err(why) => Err(
            Error::BadRequest(
                Some(String::from_str("Could not parse e-mail address: ").concat(why.as_str())),
            ),
        ),
    }
}

} // verus!
