//! One upload in progress: which chunk it takes next, and when it is complete.
//!
//! A session starts open, with nothing uploaded and a token that the server
//! picked. Each chunk must start where the last one ended and carry the token
//! that the last one gave back. A session is completed once, by a finalize
//! that names the number of bytes uploaded and an unsealed stream that names
//! its sender.

use crate::email::Language;
use crate::email::Mailbox;
use crate::token::rotate_token;
use crate::token::rotated_token;
use crate::token::same_text;
use vstd::prelude::*;

verus! {

/// The largest number of bytes one chunk may hold.
pub const CHUNK_SIZE: u64 = 1048576;

/// Why a request on a session is turned down.
#[derive(Clone, Copy, Debug, PartialEq, Eq, Structural)]
pub enum UploadError {
    /// The session is unknown, purged or completed.
    NotFound,
    /// The range is empty or inverted, or does not start where the upload stands.
    BadRange,
    /// The range is longer than a chunk may be.
    ChunkTooLarge,
    /// The token is not the one the session holds.
    TokenMismatch,
    /// The bytes handed in are not as many as the range says.
    IncompleteData,
    /// The total named at finalize is not the number of bytes uploaded.
    SizeMismatch,
    /// The uploaded stream could not be unsealed.
    SealError,
    /// The unsealed stream names no sender.
    NoSender,
}

/// The kinds of failure that a caller tells apart.
#[derive(Clone, Copy, Debug, PartialEq, Eq, Structural)]
pub enum ErrorClass {
    /// The request breaks the protocol: the client is at fault, and the
    /// session stays as it is.
    ProtocolViolation,
    /// The session is gone.
    NotFound,
    /// The upload is not as long as the client says; the session stays open.
    SizeMismatch,
    /// The uploaded stream is not accepted; the session stays open.
    SealError,
}

impl UploadError {
    /// The kind of failure that this error is.
    pub open spec fn class_of(self) -> ErrorClass {
        match self {
            UploadError::NotFound => ErrorClass::NotFound,
            UploadError::BadRange => ErrorClass::ProtocolViolation,
            UploadError::ChunkTooLarge => ErrorClass::ProtocolViolation,
            UploadError::TokenMismatch => ErrorClass::ProtocolViolation,
            UploadError::IncompleteData => ErrorClass::ProtocolViolation,
            UploadError::SizeMismatch => ErrorClass::SizeMismatch,
            UploadError::SealError => ErrorClass::SealError,
            UploadError::NoSender => ErrorClass::SealError,
        }
    }

    /// The kind of failure that this error is.
    pub fn class(&self) -> (class: ErrorClass)
        ensures
            class == self.class_of(),
    {
        match self {
            UploadError::NotFound => ErrorClass::NotFound,
            UploadError::BadRange => ErrorClass::ProtocolViolation,
            UploadError::ChunkTooLarge => ErrorClass::ProtocolViolation,
            UploadError::TokenMismatch => ErrorClass::ProtocolViolation,
            UploadError::IncompleteData => ErrorClass::ProtocolViolation,
            UploadError::SizeMismatch => ErrorClass::SizeMismatch,
            UploadError::SealError => ErrorClass::SealError,
            UploadError::NoSender => ErrorClass::SealError,
        }
    }
}

/// One attribute of the identity that a sealed stream was signed with.
#[derive(Clone, Debug)]
pub struct Attribute {
    pub atype: String,
    pub value: Option<String>,
}

/// The state of one upload.
#[derive(Clone, Debug)]
pub struct FileState {
    pub uploaded: u64,
    pub cryptify_token: String,
    pub expires: i64,
    pub recipients: Vec<Mailbox>,
    pub mail_content: String,
    pub mail_lang: Language,
    pub sender: Option<String>,
    pub confirm: bool,
    pub completed: bool,
}

/// What the upload protocol reads and writes of a session.
pub struct Progress {
    pub uploaded: u64,
    pub token: Seq<char>,
    pub completed: bool,
}

/// A chunk as a client hands it in.
pub struct Chunk {
    pub token: Seq<char>,
    pub start: u64,
    pub end: u64,
    pub data: Seq<u8>,
}

impl Progress {
    /// Why a chunk with this token and range is turned down, if it is.
    pub open spec fn range_verdict(self, token: Seq<char>, start: u64, end: u64, limit: u64)
        -> Option<UploadError> {
        if self.completed {
            Some(UploadError::NotFound)
        } else if start >= end {
            Some(UploadError::BadRange)
        } else if end - start > limit {
            Some(UploadError::ChunkTooLarge)
        } else if start != self.uploaded {
            Some(UploadError::BadRange)
        } else if token != self.token {
            Some(UploadError::TokenMismatch)
        } else {
            None
        }
    }

    /// Why a chunk is turned down, if it is.
    pub open spec fn chunk_verdict(self, chunk: Chunk, limit: u64) -> Option<UploadError> {
        match self.range_verdict(chunk.token, chunk.start, chunk.end, limit) {
            Some(e) => Some(e),
            None => if chunk.data.len() != chunk.end - chunk.start {
                Some(UploadError::IncompleteData)
            } else {
                None
            },
        }
    }

    /// The session after it has taken a chunk.
    pub open spec fn after_chunk(self, chunk: Chunk) -> Progress {
        Progress {
            uploaded: chunk.end,
            token: rotated_token(self.token, chunk.data),
            completed: self.completed,
        }
    }

    /// The session after a chunk was handed in: moved on if the chunk is
    /// taken, as it was if not.
    pub open spec fn step(self, chunk: Chunk, limit: u64) -> Progress {
        if self.chunk_verdict(chunk, limit) is None {
            self.after_chunk(chunk)
        } else {
            self
        }
    }

    /// Why a finalize that names `claimed_total` is turned down before the
    /// stream is unsealed, if it is.
    pub open spec fn finalize_verdict(self, claimed_total: u64) -> Option<UploadError> {
        if self.completed {
            Some(UploadError::NotFound)
        } else if claimed_total != self.uploaded {
            Some(UploadError::SizeMismatch)
        } else {
            None
        }
    }
}

impl Progress {
    /// The session after each chunk of `chunks` was handed in, in turn.
    pub open spec fn run(self, chunks: Seq<Chunk>, limit: u64) -> Progress
        decreases chunks.len(),
    {
        if chunks.len() == 0 {
            self
        } else {
            self.run(chunks.drop_last(), limit).step(chunks.last(), limit)
        }
    }

    /// Whether each chunk of `chunks`, handed in in turn, is taken.
    pub open spec fn all_taken(self, chunks: Seq<Chunk>, limit: u64) -> bool
        decreases chunks.len(),
    {
        chunks.len() == 0 || (self.all_taken(chunks.drop_last(), limit) && self.run(
            chunks.drop_last(),
            limit,
        ).chunk_verdict(chunks.last(), limit) is None)
    }
}

/// The number of bytes that the chunks hold together.
pub open spec fn total_length(chunks: Seq<Chunk>) -> int
    decreases chunks.len(),
{
    if chunks.len() == 0 {
        0
    } else {
        total_length(chunks.drop_last()) + chunks.last().data.len()
    }
}

/// The token that a session holds after it took chunks with these bytes,
/// starting from `token`.
pub open spec fn token_chain(token: Seq<char>, chunks: Seq<Chunk>) -> Seq<char>
    decreases chunks.len(),
{
    if chunks.len() == 0 {
        token
    } else {
        rotated_token(token_chain(token, chunks.drop_last()), chunks.last().data)
    }
}

/// After a run of chunks that were all taken, the number of uploaded bytes is
/// what the session had before plus the lengths of the chunks, and it is the
/// end of the range of the last chunk.
pub proof fn lemma_uploaded_is_sum_of_chunks(start: Progress, chunks: Seq<Chunk>, limit: u64)
    requires
        start.all_taken(chunks, limit),
    ensures
        start.run(chunks, limit).uploaded == start.uploaded + total_length(chunks),
        chunks.len() > 0 ==> start.run(chunks, limit).uploaded == chunks.last().end,
        start.run(chunks, limit).completed == start.completed,
    decreases chunks.len(),
{
    if chunks.len() > 0 {
        lemma_uploaded_is_sum_of_chunks(start, chunks.drop_last(), limit);
    }
}

/// After a run of chunks that were all taken, the token is the chain of
/// digests over the first token and the bytes of the chunks in their order:
/// the ranges and the time play no part in it.
pub proof fn lemma_token_follows_chain(start: Progress, chunks: Seq<Chunk>, limit: u64)
    requires
        start.all_taken(chunks, limit),
    ensures
        start.run(chunks, limit).token == token_chain(start.token, chunks),
    decreases chunks.len(),
{
    if chunks.len() > 0 {
        lemma_token_follows_chain(start, chunks.drop_last(), limit);
    }
}

/// Two sessions that start from the same token and take chunks with the same
/// bytes in the same order hold the same token after every chunk.
pub proof fn lemma_token_chain_deterministic(
    a: Progress,
    b: Progress,
    xs: Seq<Chunk>,
    ys: Seq<Chunk>,
    limit: u64,
    n: int,
)
    requires
        a.token == b.token,
        xs.len() == ys.len(),
        forall|i: int| 0 <= i < xs.len() ==> (#[trigger] xs[i]).data == ys[i].data,
        a.all_taken(xs, limit),
        b.all_taken(ys, limit),
        0 <= n <= xs.len(),
    ensures
        a.run(xs.take(n), limit).token == b.run(ys.take(n), limit).token,
{
    lemma_all_taken_prefix(a, xs, limit, n);
    lemma_all_taken_prefix(b, ys, limit, n);
    lemma_token_follows_chain(a, xs.take(n), limit);
    lemma_token_follows_chain(b, ys.take(n), limit);
    lemma_chain_reads_bytes_only(a.token, xs.take(n), ys.take(n));
}

/// If every chunk of a run is taken, so is every chunk of a shorter run.
pub proof fn lemma_all_taken_prefix(start: Progress, chunks: Seq<Chunk>, limit: u64, n: int)
    requires
        start.all_taken(chunks, limit),
        0 <= n <= chunks.len(),
    ensures
        start.all_taken(chunks.take(n), limit),
    decreases chunks.len(),
{
    if n == chunks.len() {
        assert(chunks.take(n) =~= chunks);
    } else {
        lemma_all_taken_prefix(start, chunks.drop_last(), limit, n);
        assert(chunks.drop_last().take(n) =~= chunks.take(n));
    }
}

/// The chain of tokens reads nothing of a chunk but its bytes.
pub proof fn lemma_chain_reads_bytes_only(token: Seq<char>, xs: Seq<Chunk>, ys: Seq<Chunk>)
    requires
        xs.len() == ys.len(),
        forall|i: int| 0 <= i < xs.len() ==> (#[trigger] xs[i]).data == ys[i].data,
    ensures
        token_chain(token, xs) == token_chain(token, ys),
    decreases xs.len(),
{
    if xs.len() > 0 {
        lemma_chain_reads_bytes_only(token, xs.drop_last(), ys.drop_last());
    }
}

/// A chunk that carries another token than the one the session holds, be it
/// an earlier or a later one, is turned down, and so the session stays as it
/// is.
pub proof fn lemma_wrong_token_rejected(session: Progress, chunk: Chunk, limit: u64)
    requires
        chunk.token != session.token,
    ensures
        session.chunk_verdict(chunk, limit) is Some,
        session.step(chunk, limit) == session,
{
}

/// A chunk that does not start where the upload stands is turned down,
/// whether its range was taken before or lies ahead.
pub proof fn lemma_wrong_offset_rejected(session: Progress, chunk: Chunk, limit: u64)
    requires
        chunk.start != session.uploaded,
    ensures
        session.chunk_verdict(chunk, limit) is Some,
        !session.completed && chunk.start < chunk.end && chunk.end - chunk.start <= limit
            ==> session.chunk_verdict(chunk, limit) == Some(UploadError::BadRange),
        session.step(chunk, limit) == session,
{
}

/// An open session turns a chunk down for nothing but a breach of the
/// protocol, and a session that is completed is not found.
pub proof fn lemma_chunk_refusal_class(session: Progress, chunk: Chunk, limit: u64)
    requires
        session.chunk_verdict(chunk, limit) is Some,
    ensures
        session.chunk_verdict(chunk, limit)->0.class_of() == if session.completed {
            ErrorClass::NotFound
        } else {
            ErrorClass::ProtocolViolation
        },
{
}

/// On an open session a finalize passes its check exactly when it names the
/// number of bytes uploaded; any other total is a size mismatch.
pub proof fn lemma_finalize_needs_exact_size(session: Progress, claimed_total: u64)
    requires
        !session.completed,
    ensures
        session.finalize_verdict(claimed_total) is None <==> claimed_total == session.uploaded,
        claimed_total != session.uploaded ==> session.finalize_verdict(claimed_total) == Some(
            UploadError::SizeMismatch,
        ),
{
}

/// The type of the attribute that names a sender's mail address.
pub open spec fn email_attribute() -> Seq<char> {
    "pbdf.sidn-pbdf.email.email"@
}

/// The place of the first attribute that names a mail address, or the number
/// of attributes if none does.
pub open spec fn sender_position(attributes: Seq<Attribute>) -> int
    decreases attributes.len(),
{
    if attributes.len() == 0 {
        0
    } else if attributes[0].atype@ == email_attribute() {
        0
    } else {
        1 + sender_position(attributes.drop_first())
    }
}

/// The first attribute that names a mail address, if there is one.
pub fn find_sender(attributes: &Vec<Attribute>) -> (found: Option<usize>)
    ensures
        match found {
            Some(i) => i == sender_position(attributes@) && i < attributes@.len(),
            None => sender_position(attributes@) == attributes@.len(),
        },
{
    let mut i: usize = 0;
    assert(attributes@.subrange(0, attributes@.len() as int) =~= attributes@);
    while i < attributes.len()
        invariant
            i <= attributes.len(),
            sender_position(attributes@) == i + sender_position(
                attributes@.subrange(i as int, attributes@.len() as int),
            ),
        decreases attributes.len() - i,
    {
        let ghost rest = attributes@.subrange(i as int, attributes@.len() as int);
        if same_text(attributes[i].atype.as_str(), "pbdf.sidn-pbdf.email.email") {
            return Some(i);
        }
        assert(rest.drop_first() =~= attributes@.subrange(i + 1, attributes@.len() as int));
        i += 1;
    }
    None
}

impl View for FileState {
    type V = Progress;

    open spec fn view(&self) -> Progress {
        Progress {
            uploaded: self.uploaded,
            token: self.cryptify_token@,
            completed: self.completed,
        }
    }
}

impl FileState {
    /// Whether `other` differs from this state in nothing but the progress of
    /// the upload and the sender.
    pub open spec fn same_delivery(&self, other: &FileState) -> bool {
        &&& self.expires == other.expires
        &&& self.recipients == other.recipients
        &&& self.mail_content == other.mail_content
        &&& self.mail_lang == other.mail_lang
        &&& self.confirm == other.confirm
    }

    /// Tells whether a chunk with this token and range would be taken,
    /// without changing anything.
    pub fn check_chunk(&self, claimed_token: &str, start: u64, end: u64, limit: u64) -> (verdict:
        Result<(), UploadError>)
        ensures
            match verdict {
                Ok(_) => self@.range_verdict(claimed_token@, start, end, limit) is None,
                Err(e) => self@.range_verdict(claimed_token@, start, end, limit) == Some(e),
            },
    {
        if self.completed {
            Err(UploadError::NotFound)
        } else if start >= end {
            Err(UploadError::BadRange)
        } else if end - start > limit {
            Err(UploadError::ChunkTooLarge)
        } else if start != self.uploaded {
            Err(UploadError::BadRange)
        } else if !same_text(claimed_token, self.cryptify_token.as_str()) {
            Err(UploadError::TokenMismatch)
        } else {
            Ok(())
        }
    }

    /// Takes a chunk: on success the session stands at `end` and holds the
    /// rotated token, which is returned; on any error nothing has changed.
    pub fn accept_chunk(
        &mut self,
        claimed_token: &str,
        start: u64,
        end: u64,
        data: &[u8],
        limit: u64,
    ) -> (rotated: Result<String, UploadError>)
        ensures
            final(self).same_delivery(old(self)),
            final(self).sender == old(self).sender,
            match rotated {
                Ok(token) => {
                    &&& old(self)@.chunk_verdict(
                        (Chunk { token: claimed_token@, start, end, data: data@ }),
                        limit,
                    ) is None
                    &&& final(self)@ == old(self)@.after_chunk(
                        (Chunk { token: claimed_token@, start, end, data: data@ }),
                    )
                    &&& token@ == final(self)@.token
                },
                Err(e) => {
                    &&& old(self)@.chunk_verdict(
                        (Chunk { token: claimed_token@, start, end, data: data@ }),
                        limit,
                    ) == Some(e)
                    &&& *final(self) == *old(self)
                },
            },
    {
        match self.check_chunk(claimed_token, start, end, limit) {
            Err(e) => Err(e),
            Ok(_) => {
                if data.len() as u64 != end - start {
                    Err(UploadError::IncompleteData)
                } else {
                    let shasum = rotate_token(claimed_token, data);
                    self.cryptify_token = shasum.clone();
                    self.uploaded = end;
                    Ok(shasum)
                }
            },
        }
    }

    /// Tells whether a finalize that names `claimed_total` may go on to
    /// unseal the stream, without changing anything.
    pub fn check_finalize(&self, claimed_total: u64) -> (verdict: Result<(), UploadError>)
        ensures
            match verdict {
                Ok(_) => self@.finalize_verdict(claimed_total) is None,
                Err(e) => self@.finalize_verdict(claimed_total) == Some(e),
            },
    {
        if self.completed {
            Err(UploadError::NotFound)
        } else if claimed_total != self.uploaded {
            Err(UploadError::SizeMismatch)
        } else {
            Ok(())
        }
    }

    /// Completes the upload. `unsealed` holds the attributes that the sealed
    /// stream names, or nothing if the stream could not be read. On success
    /// the session is completed and knows its sender; on any error nothing
    /// has changed.
    pub fn finalize(&mut self, claimed_total: u64, unsealed: Option<Vec<Attribute>>) -> (done:
        Result<(), UploadError>)
        ensures
            final(self).same_delivery(old(self)),
            final(self).uploaded == old(self).uploaded,
            final(self).cryptify_token == old(self).cryptify_token,
            match done {
                Ok(_) => {
                    &&& old(self)@.finalize_verdict(claimed_total) is None
                    &&& final(self).completed
                    &&& unsealed is Some
                    &&& sender_position(unsealed->0@) < unsealed->0@.len()
                    &&& final(self).sender == unsealed->0@[sender_position(unsealed->0@)].value
                },
                Err(e) => {
                    &&& *final(self) == *old(self)
                    &&& e == match old(self)@.finalize_verdict(claimed_total) {
                        Some(early) => early,
                        None => if unsealed is None {
                            UploadError::SealError
                        } else {
                            UploadError::NoSender
                        },
                    }
                    &&& old(self)@.finalize_verdict(claimed_total) is None && unsealed is Some
                        ==> sender_position(unsealed->0@) == unsealed->0@.len()
                },
            },
    {
        match self.check_finalize(claimed_total) {
            Err(e) => Err(e),
            Ok(_) => match unsealed {
                None => Err(UploadError::SealError),
                Some(mut attributes) => match find_sender(&attributes) {
                    None => Err(UploadError::NoSender),
                    Some(i) => {
                        let found = attributes.swap_remove(i);
                        self.sender = found.value;
                        self.completed = true;
                        Ok(())
                    },
                },
            },
        }
    }
}

} // verus!
