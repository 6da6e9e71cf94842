//! The upload policy and the chunked-session state machine.
//!
//! [`plan_upload`] applies the size policy: an oversized payload is refused
//! outright, a small one goes up in a single request, anything else through a
//! resumable session. The session itself is a state machine: the caller holds
//! a [`SessionState`], asks [`next_chunk`] what to send, performs the request,
//! and feeds the server's answer to [`apply_chunk_response`]. The server
//! drives the loop: it reports the byte ranges still outstanding, and the next
//! chunk is addressed at the first reported range's start, wherever the
//! previous chunk ended.

use vstd::prelude::*;
use vstd::string::StrSliceExecFns;
use vstd::string::StringExecFns;

use crate::decimal::all_digits;
use crate::decimal::dec_value;
use crate::decimal::parse_u64;
use crate::decimal::spec_dec;
use crate::decimal::u64_to_string;
use crate::error::Error;
use crate::CHUNK_SIZE;
use crate::MAX_FILE_LIMIT;

verus! {

/// How an upload of a given declared size must proceed.
#[derive(Debug, Clone, Copy, PartialEq, Eq, Structural)]
pub enum UploadKind {
    /// The size exceeds the service maximum; nothing may be sent.
    TooLarge,
    /// The whole payload goes up in one request.
    Direct,
    /// The payload goes up through a resumable session, chunk by chunk.
    Chunked,
}

/// The size policy: refuse anything over [`MAX_FILE_LIMIT`], send anything
/// under [`CHUNK_SIZE`] directly, and open a session for the rest.
pub fn plan_upload(size: u64) -> (kind: UploadKind)
    ensures
        kind == UploadKind::TooLarge <==> size > MAX_FILE_LIMIT,
        kind == UploadKind::Direct <==> size < CHUNK_SIZE,
        kind == UploadKind::Chunked <==> CHUNK_SIZE <= size <= MAX_FILE_LIMIT,
{
    if size > MAX_FILE_LIMIT {
        UploadKind::TooLarge
    } else if size < CHUNK_SIZE {
        UploadKind::Direct
    } else {
        UploadKind::Chunked
    }
}

/// What a session-creation response grants: where to send chunks, and until
/// when the session lives.
#[derive(Debug, Clone)]
pub struct SessionGrant {
    pub upload_url: String,
    pub expiration: u64,
}

/// A live chunked-upload session: the grant, the declared total size, and the
/// offset the next chunk starts at.
#[derive(Debug, Clone)]
pub struct SessionState {
    pub upload_url: String,
    pub expiration: u64,
    pub total_size: u64,
    pub cursor: u64,
}

impl SessionState {
    /// The cursor always addresses a byte of the payload.
    pub open spec fn wf(&self) -> bool {
        self.cursor < self.total_size
    }
}

/// One byte range a session response reports as still outstanding; an absent
/// end means the range runs to the end of the payload.
#[derive(Debug, Clone, Copy)]
pub struct ByteRange {
    pub start: u64,
    pub end: Option<u64>,
}

/// What the server answered to one chunk request, reduced to plain values.
#[derive(Debug, Clone)]
pub enum ChunkOutcome {
    /// The chunk was accepted but the transfer is incomplete: these ranges
    /// are still expected, and the session now expires at this time.
    Accepted { next_expected_ranges: Vec<String>, expiration: u64 },
    /// The transfer is complete.
    Completed,
    /// The request failed in transport or with an unexpected status.
    Failed { message: String },
}

/// Whether the session loop goes on or has finished.
#[derive(Debug, Clone)]
pub enum SessionProgress {
    Continue(SessionState),
    Done,
}

/// The index of the first `-` in `s`, or `s.len()` if there is none.
pub open spec fn first_dash(s: Seq<char>) -> int
    decreases s.len(),
{
    if s.len() == 0 {
        0
    } else if s[0] == '-' {
        0
    } else {
        1 + first_dash(s.drop_first())
    }
}

/// Whether `s` is a well-formed range report: decimal digits, a `-`, then
/// either nothing or decimal digits again, both numbers fitting a `u64`.
pub open spec fn spec_range_ok(s: Seq<char>) -> bool {
    let d = first_dash(s);
    &&& 0 < d < s.len()
    &&& all_digits(s.subrange(0, d))
    &&& dec_value(s.subrange(0, d)) <= u64::MAX
    &&& {
        let rest = s.subrange(d + 1, s.len() as int);
        rest.len() == 0 || (all_digits(rest) && dec_value(rest) <= u64::MAX)
    }
}

/// The start offset a well-formed range report names.
pub open spec fn reported_start(s: Seq<char>) -> nat {
    dec_value(s.subrange(0, first_dash(s)))
}

/// The end offset a well-formed range report names, if it names one.
pub open spec fn reported_end(s: Seq<char>) -> Option<nat> {
    let d = first_dash(s);
    let rest = s.subrange(d + 1, s.len() as int);
    if rest.len() == 0 {
        None
    } else {
        Some(dec_value(rest))
    }
}

proof fn lemma_first_dash_found(s: Seq<char>, i: int)
    requires
        0 <= i < s.len(),
        s[i] == '-',
        forall|k: int| 0 <= k < i ==> #[trigger] s[k] != '-',
    ensures
        first_dash(s) == i,
    decreases i,
{
    if i > 0 {
        let t = s.drop_first();
        assert(forall|k: int| 0 <= k < i - 1 ==> #[trigger] t[k] != '-');
        lemma_first_dash_found(t, i - 1);
    }
}

proof fn lemma_first_dash_none(s: Seq<char>)
    requires
        forall|k: int| 0 <= k < s.len() ==> #[trigger] s[k] != '-',
    ensures
        first_dash(s) == s.len(),
    decreases s.len(),
{
    if s.len() > 0 {
        let t = s.drop_first();
        assert(forall|k: int| 0 <= k < t.len() ==> #[trigger] t[k] != '-');
        lemma_first_dash_none(t);
    }
}

/// Finds the first `-` of `s`, if any.
fn find_dash(s: &str) -> (r: Option<usize>)
    ensures
        match r {
            Some(d) => d < s@.len() && first_dash(s@) == d,
            None => first_dash(s@) == s@.len(),
        },
{
    let len = s.unicode_len();
    let mut i: usize = 0;
    while i < len
        invariant
            0 <= i <= len,
            len == s@.len(),
            forall|k: int| 0 <= k < i ==> #[trigger] s@[k] != '-',
        decreases len - i,
    {
        if s.get_char(i) == '-' {
            proof {
                lemma_first_dash_found(s@, i as int);
            }
            return Some(i);
        }
        i = i + 1;
    }
    proof {
        lemma_first_dash_none(s@);
    }
    None
}

/// Parses one reported byte range, `"start-"` or `"start-end"`.
pub fn parse_range(s: &str) -> (r: Option<ByteRange>)
    ensures
        match r {
            Some(br) => {
                &&& spec_range_ok(s@)
                &&& br.start as nat == reported_start(s@)
                &&& match br.end {
                    Some(e) => reported_end(s@) == Some(e as nat),
                    None => reported_end(s@) is None,
                }
            },
            None => !spec_range_ok(s@),
        },
{
    let len = s.unicode_len();
    let d = match find_dash(s) {
        Some(d) => d,
        None => {
            return None;
        },
    };
    if d == 0 {
        return None;
    }
    let left = s.substring_char(0, d);
    let start = match parse_u64(left) {
        Some(v) => v,
        None => {
            return None;
        },
    };
    let rest = s.substring_char(d + 1, len);
    if rest.unicode_len() == 0 {
        Some(ByteRange { start, end: None })
    } else {
        match parse_u64(rest) {
            Some(e) => Some(ByteRange { start, end: Some(e) }),
            None => None,
        }
    }
}

/// The `Content-Range` text of a chunk covering bytes `start..=end` of a
/// payload of `total` bytes.
pub open spec fn spec_content_range(start: nat, end: nat, total: nat) -> Seq<char> {
    "bytes "@ + spec_dec(start) + "-"@ + spec_dec(end) + "/"@ + spec_dec(total)
}

/// Renders the `Content-Range` header value for one chunk.
pub fn content_range_value(start: u64, end: u64, total: u64) -> (r: String)
    ensures
        r@ == spec_content_range(start as nat, end as nat, total as nat),
{
    let mut r = String::from_str("bytes ");
    r.append(u64_to_string(start).as_str());
    r.append("-");
    r.append(u64_to_string(end).as_str());
    r.append("/");
    r.append(u64_to_string(total).as_str());
    proof {
        assert(r@ =~= spec_content_range(start as nat, end as nat, total as nat));
    }
    r
}

/// One chunk request, ready to be performed: the byte window and the
/// `Content-Range` text that names it.
#[derive(Debug, Clone)]
pub struct ChunkPlan {
    pub start: u64,
    pub length: u64,
    pub content_range: String,
}

/// What the session-creation request produced, reduced to plain values.
#[derive(Debug, Clone)]
pub enum SessionRequestOutcome {
    /// The service granted a session.
    Granted(SessionGrant),
    /// The request failed in transport, with an unexpected status, or with
    /// an unreadable body.
    Failed { message: String },
}

/// Sorts the status of a chunk request's response: 202 means the body
/// carries the outstanding ranges, 200 and 201 mean the transfer is
/// complete, anything else is a failure.
#[derive(Debug, Clone, Copy, PartialEq, Eq, Structural)]
pub enum ChunkStatusClass {
    NeedsBody,
    Complete,
    Unexpected,
}

/// The status policy of the chunk loop.
pub fn classify_chunk_status(status: u16) -> (r: ChunkStatusClass)
    ensures
        r == ChunkStatusClass::NeedsBody <==> status == 202,
        r == ChunkStatusClass::Complete <==> (status == 200 || status == 201),
        r == ChunkStatusClass::Unexpected <==> !(status == 200 || status == 201 || status == 202),
{
    if status == 202 {
        ChunkStatusClass::NeedsBody
    } else if status == 200 || status == 201 {
        ChunkStatusClass::Complete
    } else {
        ChunkStatusClass::Unexpected
    }
}

/// Interprets the answer to a direct, single-request upload: any "ok" or
/// "created" status completes the upload, anything else fails it with the
/// carried failure text.
pub fn finish_direct_upload(status: u16, message: String) -> (r: Result<(), Error>)
    ensures
        match r {
            Ok(_) => status == 200 || status == 201,
            Err(e) => {
                &&& !(status == 200 || status == 201)
                &&& e matches Error::UploadFile { message: m } && m == message
            },
        },
{
    if status == 200 || status == 201 {
        Ok(())
    } else {
        Err(Error::UploadFile { message })
    }
}

/// Accepts a session grant, or refuses one that is already expired.
pub fn start_session(grant: SessionGrant, size: u64, now: u64) -> (r: Result<SessionState, Error>)
    requires
        size > 0,
    ensures
        match r {
            Ok(state) => {
                &&& grant.expiration >= now
                &&& state.upload_url == grant.upload_url
                &&& state.expiration == grant.expiration
                &&& state.total_size == size
                &&& state.cursor == 0
                &&& state.wf()
            },
            Err(e) => {
                &&& grant.expiration < now
                &&& e matches Error::UploadFileSession { message } && message@
                    == "Upload session expired"@
            },
        },
{
    if grant.expiration < now {
        return Err(Error::UploadFileSession { message: String::from_str("Upload session expired") });
    }
    Ok(SessionState { upload_url: grant.upload_url, expiration: grant.expiration, total_size: size, cursor: 0 })
}

/// Opens a session from the answer to a session-creation request: a grant
/// that has not expired opens the session, an expired one is refused without
/// a chunk ever being planned, and a failed request surfaces as a
/// session-request error.
pub fn open_session(outcome: SessionRequestOutcome, size: u64, now: u64) -> (r: Result<
    SessionState,
    Error,
>)
    requires
        size > 0,
    ensures
        match r {
            Ok(state) => {
                &&& outcome matches SessionRequestOutcome::Granted(g)
                &&& g.expiration >= now
                &&& state.upload_url == g.upload_url
                &&& state.expiration == g.expiration
                &&& state.total_size == size
                &&& state.cursor == 0
                &&& state.wf()
            },
            Err(e) => match e {
                Error::CreateUploadSessionRequest { message } => outcome matches
                    SessionRequestOutcome::Failed { message: m } && m == message,
                Error::UploadFileSession { message } => {
                    &&& outcome matches SessionRequestOutcome::Granted(g)
                    &&& g.expiration < now
                    &&& message@ == "Upload session expired"@
                },
                _ => false,
            },
        },
{
    match outcome {
        SessionRequestOutcome::Failed { message } => Err(
            Error::CreateUploadSessionRequest { message },
        ),
        SessionRequestOutcome::Granted(grant) => start_session(grant, size, now),
    }
}

/// Plans the next chunk of a live session, or refuses if the session has
/// expired; no further chunk is planned past that point.
pub fn next_chunk(state: &SessionState, now: u64) -> (r: Result<ChunkPlan, Error>)
    requires
        state.wf(),
    ensures
        match r {
            Ok(plan) => {
                &&& state.expiration >= now
                &&& plan.start == state.cursor
                &&& plan.length == if state.total_size - state.cursor < CHUNK_SIZE {
                    (state.total_size - state.cursor) as u64
                } else {
                    CHUNK_SIZE as u64
                }
                &&& plan.length > 0
                &&& plan.start + plan.length <= state.total_size
                &&& plan.content_range@ == spec_content_range(
                    plan.start as nat,
                    (plan.start + plan.length - 1) as nat,
                    state.total_size as nat,
                )
            },
            Err(e) => {
                &&& state.expiration < now
                &&& e matches Error::UploadFileSession { message } && message@
                    == "Upload session expired"@
            },
        },
{
    if state.expiration < now {
        return Err(Error::UploadFileSession { message: String::from_str("Upload session expired") });
    }
    let start = state.cursor;
    let remaining = state.total_size - start;
    let length = if remaining < CHUNK_SIZE {
        remaining
    } else {
        CHUNK_SIZE
    };
    let content_range = content_range_value(start, start + length - 1, state.total_size);
    Ok(ChunkPlan { start, length, content_range })
}

/// Applies the server's answer to one chunk request.
///
/// A completion status ends the session, as does an acceptance that leaves no
/// range outstanding. An acceptance with outstanding ranges moves the cursor
/// to the first reported range's start and adopts the reported expiration. A
/// report that is not a well-formed range, or that addresses a byte past the
/// payload, is an unexpected response shape and is refused.
pub fn apply_chunk_response(state: &SessionState, outcome: &ChunkOutcome) -> (r: Result<
    SessionProgress,
    Error,
>)
    requires
        state.wf(),
    ensures
        match r {
            Ok(progress) => match progress {
                SessionProgress::Done => {
                    ||| outcome is Completed
                    ||| (outcome matches ChunkOutcome::Accepted { next_expected_ranges, .. }
                        && next_expected_ranges@.len() == 0)
                },
                SessionProgress::Continue(next) => {
                    &&& outcome matches ChunkOutcome::Accepted { next_expected_ranges, expiration }
                        && next_expected_ranges@.len() > 0 && {
                        let r0 = next_expected_ranges.deep_view()[0];
                        &&& spec_range_ok(r0)
                        &&& next.cursor as nat == reported_start(r0)
                        &&& next.expiration == expiration
                    }
                    &&& next.upload_url == state.upload_url
                    &&& next.total_size == state.total_size
                    &&& next.wf()
                },
            },
            Err(e) => match e {
                Error::UploadFileSessionRequest { message } => outcome matches ChunkOutcome::Failed {
                    message: m,
                } && message == m,
                Error::Parsing { context } => outcome matches ChunkOutcome::Accepted {
                    next_expected_ranges,
                    ..
                } && next_expected_ranges@.len() > 0 && {
                    let r0 = next_expected_ranges.deep_view()[0];
                    &&& (!spec_range_ok(r0) || reported_start(r0) >= state.total_size)
                    &&& context@ == r0
                },
                _ => false,
            },
        },
{
    match outcome {
        ChunkOutcome::Completed => Ok(SessionProgress::Done),
        ChunkOutcome::Failed { message } => Err(
            Error::UploadFileSessionRequest { message: message.clone() },
        ),
        ChunkOutcome::Accepted { next_expected_ranges, expiration } => {
            if next_expected_ranges.len() == 0 {
                return Ok(SessionProgress::Done);
            }
            let first = &next_expected_ranges[0];
            match parse_range(first.as_str()) {
                None => Err(Error::Parsing { context: first.clone() }),
                Some(range) => {
                    if range.start >= state.total_size {
                        return Err(Error::Parsing { context: first.clone() });
                    }
                    Ok(
                        SessionProgress::Continue(
                            SessionState {
                                upload_url: state.upload_url.clone(),
                                expiration: *expiration,
                                total_size: state.total_size,
                                cursor: range.start,
                            },
                        ),
                    )
                },
            }
        },
    }
}

/// The Content-Range text of a chunk names the chunk's start offset right
/// after the word "bytes": the offset sent is visibly the offset planned, so
/// a cursor taken from a server report is what the wire carries.
pub proof fn lemma_content_range_names_start(start: u64, end: u64, total: u64)
    ensures
        spec_content_range(start as nat, end as nat, total as nat).subrange(0, 6) == "bytes "@,
        spec_content_range(start as nat, end as nat, total as nat).subrange(
            6,
            6 + spec_dec(start as nat).len() as int,
        ) == spec_dec(start as nat),
{
    reveal_strlit("bytes ");
    let s = spec_content_range(start as nat, end as nat, total as nat);
    assert(s.subrange(0, 6) =~= "bytes "@);
    assert(s.subrange(6, 6 + spec_dec(start as nat).len() as int) =~= spec_dec(start as nat));
}

} // verus!
