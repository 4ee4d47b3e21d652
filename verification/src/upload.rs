//! The resumable upload of one file, chunk by chunk.
//!
//! A session knows which bytes of the file the server still misses: at first
//! all of them, then what the server's last response listed. A chunk is
//! accepted only where it lies within one of the missing ranges, so no byte
//! is sent twice. A failed request leaves the session as it was, and the same
//! chunk may be tried again.

use crate::conflict::ConflictBehavior;
use crate::error::{Error, MisuseError, ProtocolError};
use crate::range::{lemma_parse_range_well_formed, parse_range, range_text, ExpectRange};
use crate::resource::DriveItem;
use crate::text::{decimal_digits, push_decimal};
use vstd::prelude::*;
use vstd::string::StringExecFns;

verus! {

/// What to send for one chunk.
#[derive(Debug, PartialEq, Eq)]
pub struct ChunkRequest {
    /// Where to put the chunk: the session's upload URL, as the server gave it.
    pub url: String,
    /// The value of the content-range header that goes with the chunk.
    pub content_range: String,
}

/// What the server answers when it has taken a chunk.
#[derive(Debug, PartialEq)]
pub enum ChunkReply {
    /// The upload goes on. The server lists the ranges it still misses, each
    /// in its text form.
    Pending { next_expected_ranges: Vec<String> },
    /// The server has every byte, and has made this item of them.
    Completed { item: DriveItem },
}

/// The value of the content-range header for the chunk `range` of a file of
/// `file_size` bytes: `bytes {first}-{last}/{file_size}`.
pub open spec fn content_range(range: ExpectRange, file_size: u64) -> Seq<char> {
    "bytes "@ + range_text(range) + seq!['/'] + decimal_digits(file_size as nat)
}

/// What a list of range texts means: the ranges in order, or the first text
/// among them that means nothing.
pub open spec fn parse_ranges(texts: Seq<String>) -> Result<Seq<ExpectRange>, ProtocolError>
    decreases texts.len(),
{
    if texts.len() == 0 {
        Ok(Seq::empty())
    } else {
        match parse_ranges(texts.drop_last()) {
            Err(e) => Err(e),
            Ok(head) => match parse_range(texts.last()@) {
                None => Err(ProtocolError::MalformedRange { text: texts.last() }),
                Some(range) => Ok(head.push(range)),
            },
        }
    }
}

/// Whether every range of `ranges` is well-formed.
pub open spec fn all_well_formed(ranges: Seq<ExpectRange>) -> bool {
    forall|i: int| 0 <= i < ranges.len() ==> (#[trigger] ranges[i]).well_formed()
}

/// The ranges that a list of texts means are as many as the texts, and
/// well-formed.
pub proof fn lemma_parse_ranges(texts: Seq<String>)
    ensures
        parse_ranges(texts) matches Ok(ranges) ==> {
            &&& ranges.len() == texts.len()
            &&& all_well_formed(ranges)
            &&& forall|i: int| 0 <= i < texts.len() ==> parse_range(#[trigger] texts[i]@) == Some(ranges[i])
        },
    decreases texts.len(),
{
    if texts.len() > 0 {
        let head = texts.drop_last();
        lemma_parse_ranges(head);
        lemma_parse_range_well_formed(texts.last()@);
        if let Ok(ranges) = parse_ranges(texts) {
            let head_ranges = parse_ranges(head).unwrap();
            assert forall|i: int| 0 <= i < texts.len() implies parse_range(#[trigger] texts[i]@)
                == Some(ranges[i]) by {
                if i < head.len() {
                    assert(head[i] == texts[i]);
                    assert(ranges[i] == head_ranges[i]);
                }
            }
            assert forall|i: int| 0 <= i < ranges.len() implies (#[trigger] ranges[i]).well_formed() by {
                if i < head.len() {
                    assert(ranges[i] == head_ranges[i]);
                }
            }
        }
    }
}

/// Reads a list of range texts.
pub fn read_ranges(texts: &Vec<String>) -> (r: Result<Vec<ExpectRange>, ProtocolError>)
    ensures
        match parse_ranges(texts@) {
            Ok(ranges) => r matches Ok(v) && v@ == ranges,
            Err(e) => r == Err::<Vec<ExpectRange>, ProtocolError>(e),
        },
{
    let mut ranges: Vec<ExpectRange> = Vec::new();
    let mut i: usize = 0;
    while i < texts.len()
        invariant
            i <= texts.len(),
            parse_ranges(texts@.take(i as int)) == Ok::<Seq<ExpectRange>, ProtocolError>(ranges@),
        decreases texts.len() - i,
    {
        assert(texts@.take(i + 1).drop_last() =~= texts@.take(i as int));
        match ExpectRange::parse(texts[i].as_str()) {
            Some(range) => {
                ranges.push(range);
            },
            None => {
                proof {
                    lemma_parse_ranges_fails_on(texts@, i as int);
                }
                return Err(ProtocolError::MalformedRange { text: texts[i].clone() });
            },
        }
        i += 1;
    }
    assert(texts@.take(texts.len() as int) =~= texts@);
    Ok(ranges)
}

/// Where the texts before the `i`th all mean ranges and the `i`th does not,
/// the list as a whole fails on the `i`th.
proof fn lemma_parse_ranges_fails_on(texts: Seq<String>, i: int)
    requires
        0 <= i < texts.len(),
        parse_ranges(texts.take(i)) is Ok,
        parse_range(texts[i]@) is None,
    ensures
        parse_ranges(texts) == Err::<Seq<ExpectRange>, ProtocolError>(
            ProtocolError::MalformedRange { text: texts[i] },
        ),
    decreases texts.len(),
{
    if i == texts.len() - 1 {
        assert(texts.drop_last() =~= texts.take(i));
    } else {
        assert(texts.drop_last().take(i) =~= texts.take(i));
        lemma_parse_ranges_fails_on(texts.drop_last(), i);
    }
}

/// An upload session, as the protocol sees it.
pub struct UploadSessionView {
    /// The URL that the server issued for the session.
    pub upload_url: Seq<char>,
    /// The size of the file, in bytes.
    pub file_size: u64,
    /// What the server does if the file's name is taken; fixed for the session.
    pub conflict_behavior: ConflictBehavior,
    /// The ranges that the server still misses.
    pub missing: Seq<ExpectRange>,
    /// Whether the server has made the item.
    pub finished: bool,
}

impl UploadSessionView {
    /// As a session is when the server has just opened it: the whole file is
    /// missing.
    pub open spec fn fresh(
        upload_url: Seq<char>,
        file_size: u64,
        conflict_behavior: ConflictBehavior,
    ) -> UploadSessionView {
        UploadSessionView {
            upload_url,
            file_size,
            conflict_behavior,
            missing: seq![ExpectRange { start: 0, end: None }],
            finished: false,
        }
    }

    /// The missing ranges are well-formed, and a finished session misses none.
    pub open spec fn well_formed(self) -> bool {
        &&& all_well_formed(self.missing)
        &&& self.finished ==> self.missing.len() == 0
    }

    /// Whether the byte at `offset` is a byte of the file that the server
    /// still misses.
    pub open spec fn is_missing(self, offset: int) -> bool {
        &&& 0 <= offset < self.file_size
        &&& exists|i: int| 0 <= i < self.missing.len() && (#[trigger] self.missing[i]).contains(offset)
    }

    /// Whether the byte at `offset` is a byte of the file that the server has.
    pub open spec fn is_committed(self, offset: int) -> bool {
        0 <= offset < self.file_size && !self.is_missing(offset)
    }

    /// Whether one of the missing ranges holds all of `chunk`.
    pub open spec fn misses_all_of(self, chunk: ExpectRange) -> bool {
        exists|i: int| 0 <= i < self.missing.len() && (#[trigger] self.missing[i]).includes(chunk)
    }

    /// What is wrong with sending `len` bytes as the chunk `range`, if
    /// anything is.
    pub open spec fn chunk_misuse(self, range: ExpectRange, len: nat) -> Option<MisuseError> {
        if self.finished {
            Some(MisuseError::UploadFinished)
        } else {
            match range.end {
                None => Some(MisuseError::UnboundedRange),
                Some(end) => if end <= range.start {
                    Some(MisuseError::EmptyRange)
                } else if end > self.file_size {
                    Some(MisuseError::RangeExceedsFile)
                } else if len != end - range.start {
                    Some(MisuseError::LengthMismatch)
                } else if !self.misses_all_of(range) {
                    Some(MisuseError::RangeNotMissing)
                } else {
                    None
                },
            }
        }
    }

    /// What the session returns for the server's `reply` to a chunk.
    pub open spec fn reply_result(self, reply: ChunkReply) -> Result<Option<DriveItem>, Error> {
        if self.finished {
            Err(Error::Misuse(MisuseError::UploadFinished))
        } else {
            match reply {
                ChunkReply::Completed { item } => Ok(Some(item)),
                ChunkReply::Pending { next_expected_ranges } => match parse_ranges(
                    next_expected_ranges@,
                ) {
                    Err(e) => Err(Error::Protocol(e)),
                    Ok(_) => Ok(None),
                },
            }
        }
    }

    /// What the upload of a chunk returns: what is wrong with the chunk, or
    /// else what the server's `reply` to it gives.
    pub open spec fn upload_result(self, range: ExpectRange, len: nat, reply: ChunkReply) -> Result<
        Option<DriveItem>,
        Error,
    > {
        match self.chunk_misuse(range, len) {
            Some(misuse) => Err(Error::Misuse(misuse)),
            None => self.reply_result(reply),
        }
    }

    /// The session after the upload of a chunk: unchanged where the chunk
    /// was refused, else as the server's `reply` leaves it.
    pub open spec fn after_upload(self, range: ExpectRange, len: nat, reply: ChunkReply) -> UploadSessionView {
        match self.chunk_misuse(range, len) {
            Some(_) => self,
            None => self.after_reply(reply),
        }
    }

    /// The session after the server's `reply` to a chunk.
    pub open spec fn after_reply(self, reply: ChunkReply) -> UploadSessionView {
        if self.finished {
            self
        } else {
            match reply {
                ChunkReply::Completed { .. } => UploadSessionView {
                    missing: Seq::empty(),
                    finished: true,
                    ..self
                },
                ChunkReply::Pending { next_expected_ranges } => match parse_ranges(
                    next_expected_ranges@,
                ) {
                    Err(_) => self,
                    Ok(ranges) => UploadSessionView { missing: ranges, ..self },
                },
            }
        }
    }
}

/// A resumable upload of one file.
#[derive(Debug)]
pub struct UploadSession {
    upload_url: String,
    file_size: u64,
    conflict_behavior: ConflictBehavior,
    missing: Vec<ExpectRange>,
    finished: bool,
}

impl View for UploadSession {
    type V = UploadSessionView;

    closed spec fn view(&self) -> UploadSessionView {
        UploadSessionView {
            upload_url: self.upload_url@,
            file_size: self.file_size,
            conflict_behavior: self.conflict_behavior,
            missing: self.missing@,
            finished: self.finished,
        }
    }
}

impl UploadSession {
    #[verifier::type_invariant]
    spec fn inv(&self) -> bool {
        self@.well_formed()
    }

    /// The session that the server opened at `upload_url` for a file of
    /// `file_size` bytes. Nothing is uploaded yet.
    pub fn new(upload_url: String, file_size: u64, conflict_behavior: ConflictBehavior) -> (session:
        UploadSession)
        ensures
            session@ == UploadSessionView::fresh(upload_url@, file_size, conflict_behavior),
            session@.well_formed(),
    {
        let mut missing: Vec<ExpectRange> = Vec::new();
        missing.push(ExpectRange { start: 0, end: None });
        assert(missing@ =~= seq![ExpectRange { start: 0, end: None }]);
        UploadSession { upload_url, file_size, conflict_behavior, missing, finished: false }
    }

    /// Takes up a session that was opened earlier, from its upload URL, the
    /// size of the file and the ranges that the server still misses, each in
    /// its text form.
    pub fn resume(
        upload_url: String,
        file_size: u64,
        conflict_behavior: ConflictBehavior,
        next_expected_ranges: &Vec<String>,
    ) -> (r: Result<UploadSession, Error>)
        ensures
            match parse_ranges(next_expected_ranges@) {
                Err(e) => r == Err::<UploadSession, Error>(Error::Protocol(e)),
                Ok(ranges) => r matches Ok(session) && session@.well_formed() && session@
                    == (UploadSessionView {
                    upload_url: upload_url@,
                    file_size,
                    conflict_behavior,
                    missing: ranges,
                    finished: false,
                }),
            },
    {
        proof {
            lemma_parse_ranges(next_expected_ranges@);
        }
        match read_ranges(next_expected_ranges) {
            Err(e) => Err(Error::Protocol(e)),
            Ok(missing) => Ok(
                UploadSession { upload_url, file_size, conflict_behavior, missing, finished: false },
            ),
        }
    }

    /// The URL that the server issued for the session.
    pub fn upload_url(&self) -> (url: &str)
        ensures
            url@ == self@.upload_url,
    {
        self.upload_url.as_str()
    }

    /// The size of the file, in bytes.
    pub fn file_size(&self) -> (size: u64)
        ensures
            size == self@.file_size,
    {
        self.file_size
    }

    /// What the server does if the file's name is taken.
    pub fn conflict_behavior(&self) -> (behavior: ConflictBehavior)
        ensures
            behavior == self@.conflict_behavior,
    {
        self.conflict_behavior
    }

    /// The ranges that the server still misses, as its last response listed
    /// them.
    pub fn missing_ranges(&self) -> (ranges: &Vec<ExpectRange>)
        ensures
            ranges@ == self@.missing,
            all_well_formed(ranges@),
    {
        proof {
            use_type_invariant(self);
        }
        &self.missing
    }

    /// Whether the server has every byte and has made the item.
    pub fn is_finished(&self) -> (finished: bool)
        ensures
            finished == self@.finished,
    {
        self.finished
    }

    /// Whether one of the missing ranges holds all of `chunk`.
    pub fn misses(&self, chunk: &ExpectRange) -> (found: bool)
        ensures
            found == self@.misses_all_of(*chunk),
    {
        let mut i: usize = 0;
        while i < self.missing.len()
            invariant
                i <= self.missing.len(),
                forall|j: int| 0 <= j < i ==> !(#[trigger] self.missing@[j]).includes(*chunk),
            decreases self.missing.len() - i,
        {
            if self.missing[i].covers(chunk) {
                assert(self@.missing[i as int].includes(*chunk));
                return true;
            }
            i += 1;
        }
        false
    }

    /// Checks a chunk of `len` bytes for the range `range`, and says what to
    /// send for it. The session does not change.
    pub fn chunk_request(&self, range: &ExpectRange, len: usize) -> (r: Result<ChunkRequest, Error>)
        ensures
            match self@.chunk_misuse(*range, len as nat) {
                Some(misuse) => r == Err::<ChunkRequest, Error>(Error::Misuse(misuse)),
                None => r matches Ok(request) && request.url@ == self@.upload_url
                    && request.content_range@ == content_range(*range, self@.file_size),
            },
    {
        if self.finished {
            return Err(Error::Misuse(MisuseError::UploadFinished));
        }
        let end: u64 = match range.end {
            None => {
                return Err(Error::Misuse(MisuseError::UnboundedRange));
            },
            Some(end) => end,
        };
        if end <= range.start {
            return Err(Error::Misuse(MisuseError::EmptyRange));
        }
        if end > self.file_size {
            return Err(Error::Misuse(MisuseError::RangeExceedsFile));
        }
        if len as u64 != end - range.start {
            return Err(Error::Misuse(MisuseError::LengthMismatch));
        }
        if !self.misses(range) {
            return Err(Error::Misuse(MisuseError::RangeNotMissing));
        }
        let mut content_range = String::from_str("bytes ");
        let text = range.wire_text();
        content_range.append(text.as_str());
        content_range.push('/');
        push_decimal(&mut content_range, self.file_size);
        Ok(ChunkRequest { url: self.upload_url.clone(), content_range })
    }

    /// Takes the outcome of sending a chunk. A failed request changes
    /// nothing. A response that lists missing ranges replaces the session's
    /// list. A response with the item ends the session and hands the item
    /// out.
    pub fn chunk_response(&mut self, outcome: Result<ChunkReply, Error>) -> (r: Result<
        Option<DriveItem>,
        Error,
    >)
        ensures
            final(self)@.well_formed(),
            match outcome {
                Err(e) => r == Err::<Option<DriveItem>, Error>(e) && final(self)@ == old(self)@,
                Ok(reply) => r == old(self)@.reply_result(reply) && final(self)@ == old(
                    self,
                )@.after_reply(reply),
            },
    {
        proof {
            use_type_invariant(&*self);
        }
        let reply = match outcome {
            Err(e) => {
                return Err(e);
            },
            Ok(reply) => reply,
        };
        if self.finished {
            return Err(Error::Misuse(MisuseError::UploadFinished));
        }
        match reply {
            ChunkReply::Completed { item } => {
                self.missing = Vec::new();
                self.finished = true;
                Ok(Some(item))
            },
            ChunkReply::Pending { next_expected_ranges } => {
                proof {
                    lemma_parse_ranges(next_expected_ranges@);
                }
                match read_ranges(&next_expected_ranges) {
                    Err(e) => Err(Error::Protocol(e)),
                    Ok(ranges) => {
                        self.missing = ranges;
                        Ok(None)
                    },
                }
            },
        }
    }
}

/// The bytes that the first `k` of `chunks` hold between them.
pub open spec fn bytes_of(chunks: Seq<ExpectRange>, k: int) -> Set<int> {
    Set::new(|offset: int| exists|j: int| 0 <= j < k && (#[trigger] chunks[j]).contains(offset))
}

/// Whether `chunks` cut a file of `file_size` bytes into pieces: each is a
/// range within the file that is not empty, no two share a byte, and every
/// byte of the file is in one of them.
pub open spec fn is_partition(chunks: Seq<ExpectRange>, file_size: u64) -> bool {
    &&& forall|k: int|
        0 <= k < chunks.len() ==> ((#[trigger] chunks[k]).end matches Some(end) && chunks[k].start
            < end <= file_size)
    &&& forall|j: int, k: int, offset: int|
        #![trigger chunks[j].contains(offset), chunks[k].contains(offset)]
        0 <= j < k < chunks.len() && chunks[j].contains(offset) ==> !chunks[k].contains(offset)
    &&& forall|offset: int|
        0 <= offset < file_size ==> #[trigger] bytes_of(chunks, chunks.len() as int).contains(offset)
}

/// The number of bytes in a bounded range.
pub open spec fn len_of(range: ExpectRange) -> nat {
    match range.end {
        Some(end) if range.start <= end => (end - range.start) as nat,
        _ => 0,
    }
}

/// Whether no byte from `from` up to, not including, `to` is in `committed`.
pub open spec fn run_is_missing(committed: Set<int>, from: int, to: int) -> bool {
    forall|offset: int| from <= offset < to ==> !committed.contains(offset)
}

/// Whether one range of `ranges` holds every byte from `from` up to, not
/// including, `to`.
pub open spec fn lists_run(ranges: Seq<ExpectRange>, from: int, to: int) -> bool {
    exists|i: int|
        0 <= i < ranges.len() && (#[trigger] ranges[i]).start <= from && (ranges[i].end matches Some(
            end,
        ) ==> to <= end)
}

/// Whether `ranges` is a list by which a server that has the bytes
/// `committed` of a file of `file_size` bytes names what it misses: no range
/// holds a byte of the file that is committed, and each run of missing bytes
/// lies within one range.
pub open spec fn names_missing(ranges: Seq<ExpectRange>, file_size: u64, committed: Set<int>) -> bool {
    &&& forall|i: int, offset: int|
        0 <= i < ranges.len() && 0 <= offset < file_size && #[trigger] ranges[i].contains(offset)
            ==> !committed.contains(offset)
    &&& forall|from: int, to: int|
        0 <= from < to <= file_size && #[trigger] run_is_missing(committed, from, to) ==> lists_run(
            ranges,
            from,
            to,
        )
}

/// Whether every byte of a file of `file_size` bytes is in `committed`.
pub open spec fn holds_all(committed: Set<int>, file_size: u64) -> bool {
    forall|offset: int| 0 <= offset < file_size ==> committed.contains(offset)
}

/// Whether `reply` is what a server that has the bytes `committed` of a file
/// of `file_size` bytes answers: the item where it has them all, else a list
/// that names what it misses.
pub open spec fn honest_reply(reply: ChunkReply, file_size: u64, committed: Set<int>) -> bool {
    if holds_all(committed, file_size) {
        reply is Completed
    } else {
        reply matches ChunkReply::Pending { next_expected_ranges } && parse_ranges(
            next_expected_ranges@,
        ) matches Ok(ranges) && names_missing(ranges, file_size, committed)
    }
}

/// The session after the first `k` of `chunks` were uploaded in order, the
/// `j`th answered by `replies[j]`.
pub open spec fn session_after(
    start: UploadSessionView,
    chunks: Seq<ExpectRange>,
    replies: Seq<ChunkReply>,
    k: int,
) -> UploadSessionView
    decreases k,
{
    if k <= 0 {
        start
    } else {
        session_after(start, chunks, replies, k - 1).after_upload(
            chunks[k - 1],
            len_of(chunks[k - 1]),
            replies[k - 1],
        )
    }
}

/// What the upload of the `k`th of `chunks` returns.
pub open spec fn result_of(
    start: UploadSessionView,
    chunks: Seq<ExpectRange>,
    replies: Seq<ChunkReply>,
    k: int,
) -> Result<Option<DriveItem>, Error> {
    session_after(start, chunks, replies, k).upload_result(chunks[k], len_of(chunks[k]), replies[k])
}

/// A chunk that holds a byte which the server already has is refused,
/// whatever its length: no committed byte is sent again.
pub proof fn lemma_committed_byte_refused(
    session: UploadSessionView,
    range: ExpectRange,
    len: nat,
    offset: int,
)
    requires
        range.contains(offset),
        session.is_committed(offset),
    ensures
        session.chunk_misuse(range, len) is Some,
{
    if session.chunk_misuse(range, len) is None {
        let i = choose|i: int|
            0 <= i < session.missing.len() && (#[trigger] session.missing[i]).includes(range);
        assert(session.missing[i].contains(offset));
    }
}

/// Once the server has taken a chunk, the session refuses it: after an
/// honest reply of a server that has the byte at `offset`, no chunk that
/// holds this byte is accepted.
pub proof fn lemma_resubmission_refused(
    session: UploadSessionView,
    reply: ChunkReply,
    committed: Set<int>,
    range: ExpectRange,
    len: nat,
    offset: int,
)
    requires
        honest_reply(reply, session.file_size, committed),
        committed.contains(offset),
        0 <= offset < session.file_size,
        range.contains(offset),
    ensures
        session.after_reply(reply).chunk_misuse(range, len) is Some,
{
    let after = session.after_reply(reply);
    if after.chunk_misuse(range, len) is None {
        assert(!session.finished);
        if holds_all(committed, session.file_size) {
            assert(after.finished);
        } else {
            let i = choose|i: int|
                0 <= i < after.missing.len() && (#[trigger] after.missing[i]).includes(range);
            assert(after.missing[i].contains(offset));
        }
    }
}

/// Whatever error the outcome of a chunk gives, the session is as it was
/// before, and the same chunk can be sent again. The same reply then gives
/// the same error.
pub proof fn lemma_failed_chunk_changes_nothing(session: UploadSessionView, reply: ChunkReply)
    requires
        session.reply_result(reply) is Err,
    ensures
        session.after_reply(reply) == session,
        session.after_reply(reply).reply_result(reply) == session.reply_result(reply),
{
}

/// A session keeps its upload URL, the size of its file and its conflict
/// behavior, whatever the server replies.
pub proof fn lemma_session_keeps_its_terms(session: UploadSessionView, reply: ChunkReply)
    ensures
        session.after_reply(reply).upload_url == session.upload_url,
        session.after_reply(reply).file_size == session.file_size,
        session.after_reply(reply).conflict_behavior == session.conflict_behavior,
{
}

/// Before each chunk of an upload that cuts the file into pieces and is
/// answered honestly, the session is not finished, its list names what the
/// chunks sent so far leave missing, and the chunk is accepted.
proof fn lemma_upload_goes_on(
    start: UploadSessionView,
    chunks: Seq<ExpectRange>,
    replies: Seq<ChunkReply>,
    k: int,
)
    requires
        start == UploadSessionView::fresh(start.upload_url, start.file_size, start.conflict_behavior),
        is_partition(chunks, start.file_size),
        replies.len() == chunks.len(),
        forall|j: int|
            0 <= j < chunks.len() ==> honest_reply(
                #[trigger] replies[j],
                start.file_size,
                bytes_of(chunks, j + 1),
            ),
        0 <= k < chunks.len(),
    ensures
        ({
            let session = session_after(start, chunks, replies, k);
            &&& !session.finished
            &&& session.file_size == start.file_size
            &&& names_missing(session.missing, start.file_size, bytes_of(chunks, k))
            &&& session.chunk_misuse(chunks[k], len_of(chunks[k])) is None
        }),
    decreases k,
{
    let size = start.file_size;
    let session = session_after(start, chunks, replies, k);
    let sent = bytes_of(chunks, k);
    if k == 0 {
        assert forall|from: int, to: int|
            0 <= from < to <= size && #[trigger] run_is_missing(sent, from, to) implies lists_run(
            session.missing,
            from,
            to,
        ) by {
            assert(session.missing[0].start <= from);
        }
    } else {
        lemma_upload_goes_on(start, chunks, replies, k - 1);
        assert(honest_reply(replies[k - 1], size, sent));
        // The `k`th chunk is not empty, and none of its bytes is sent yet.
        let first = chunks[k].start as int;
        assert(chunks[k].contains(first));
        assert(!sent.contains(first)) by {
            if sent.contains(first) {
                let j = choose|j: int| 0 <= j < k && (#[trigger] chunks[j]).contains(first);
                assert(!chunks[k].contains(first));
            }
        }
        assert(!holds_all(sent, size));
    }
    // The `k`th chunk lies in a run of missing bytes, so the list holds it.
    let chunk = chunks[k];
    let from = chunk.start as int;
    let to = chunk.end->0 as int;
    assert(run_is_missing(sent, from, to)) by {
        assert forall|offset: int| from <= offset < to implies !sent.contains(offset) by {
            if sent.contains(offset) {
                let j = choose|j: int| 0 <= j < k && (#[trigger] chunks[j]).contains(offset);
                assert(chunks[k].contains(offset));
            }
        }
    }
    assert(lists_run(session.missing, from, to));
    let i = choose|i: int|
        0 <= i < session.missing.len() && (#[trigger] session.missing[i]).start <= from && (
        session.missing[i].end matches Some(end) ==> to <= end);
    assert(session.missing[i].includes(chunk));
}

/// Where the chunks cut the file into pieces, and the server answers each
/// honestly, the upload of every chunk but the last returns nothing, in
/// whatever order they are sent, and the upload of the last returns the item.
/// The session then is finished, and refuses every further chunk.
pub proof fn lemma_upload_completes(
    start: UploadSessionView,
    chunks: Seq<ExpectRange>,
    replies: Seq<ChunkReply>,
)
    requires
        start == UploadSessionView::fresh(start.upload_url, start.file_size, start.conflict_behavior),
        is_partition(chunks, start.file_size),
        replies.len() == chunks.len(),
        forall|j: int|
            0 <= j < chunks.len() ==> honest_reply(
                #[trigger] replies[j],
                start.file_size,
                bytes_of(chunks, j + 1),
            ),
    ensures
        forall|k: int|
            0 <= k < chunks.len() - 1 ==> #[trigger] result_of(start, chunks, replies, k) == Ok::<
                Option<DriveItem>,
                Error,
            >(None),
        chunks.len() > 0 ==> (replies.last() matches ChunkReply::Completed { item } && result_of(
            start,
            chunks,
            replies,
            chunks.len() - 1,
        ) == Ok::<Option<DriveItem>, Error>(Some(item))),
        chunks.len() > 0 ==> forall|range: ExpectRange, len: nat|
            #[trigger] session_after(start, chunks, replies, chunks.len() as int).chunk_misuse(range, len)
                == Some(MisuseError::UploadFinished),
{
    let size = start.file_size;
    let n = chunks.len() as int;
    assert forall|k: int| 0 <= k < n - 1 implies #[trigger] result_of(start, chunks, replies, k)
        == Ok::<Option<DriveItem>, Error>(None) by {
        lemma_upload_goes_on(start, chunks, replies, k);
        lemma_upload_goes_on(start, chunks, replies, k + 1);
        let session = session_after(start, chunks, replies, k);
        let next = session_after(start, chunks, replies, k + 1);
        assert(next == session.after_upload(chunks[k], len_of(chunks[k]), replies[k]));
        assert(!next.finished);
    }
    if n > 0 {
        lemma_upload_goes_on(start, chunks, replies, n - 1);
        let sent = bytes_of(chunks, n);
        assert(honest_reply(replies[n - 1], size, sent));
        assert(holds_all(sent, size));
    }
}

} // verus!
