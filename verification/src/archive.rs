//! Getting a snapshot from the web archive: what to ask for, how long to keep
//! asking, when to fall back on a snapshot that already exists, and what the
//! finished record says.

use vstd::prelude::*;
use vstd::string::*;
use crate::error::AppError;
use crate::text::{all_digits, find_from, find_in, is_all_digits, same_text, slice_of};

verus! {

/// Seconds to wait after the archive accepted a capture request.
pub const SETTLE_SECS: u64 = 15;

/// Seconds between two availability queries.
pub const POLL_SECS: u64 = 5;

/// How many availability queries are made for one capture request.
pub const MAX_POLLS: u32 = 5;

/// One capture as the archive describes it.
#[derive(Debug, Clone)]
pub struct ArchiveSnapshot {
    pub available: bool,
    pub url: String,
    pub timestamp: String,
}

/// The archive's answer to an availability query: captures by label.
#[derive(Debug)]
pub struct ArchiveResponse {
    pub archived_snapshots: Vec<(String, ArchiveSnapshot)>,
}

/// A downloaded artifact, identified by version and content hash.
#[derive(Debug)]
pub struct ArchiveResult {
    pub original_url: String,
    pub archive_url: String,
    /// When the record was made, in seconds since the Unix epoch.
    pub timestamp: i64,
    pub sha256: String,
    pub version: String,
    /// True when the version was made from the clock because the snapshot's
    /// address held none.
    pub version_synthesized: bool,
}

/// What the archive said to a capture request.
#[derive(Debug, PartialEq, Eq, Structural)]
pub enum SubmitOutcome {
    /// Accepted: wait `settle_secs`, then query for the capture.
    Accepted { settle_secs: u64 },
    /// Throttled: do not ask again, use an existing snapshot.
    RateLimited,
    /// Refused for another reason: use an existing snapshot.
    Rejected,
}

/// What to do after one availability query.
#[derive(Debug)]
pub enum PollOutcome {
    /// The capture is there, at this address.
    Found(String),
    /// Not yet: wait `secs`, then make query number `next_attempt`.
    RetryAfter { secs: u64, next_attempt: u32 },
    /// No query is left: use an existing snapshot.
    Exhausted,
}

/// Where the snapshot to download came from.
#[derive(Debug)]
pub enum SnapshotSource {
    /// A capture made in this run, by its address.
    Created(String),
    /// A capture that the archive already had.
    Existing(ArchiveSnapshot),
}

/// Where a run stands in getting its snapshot.
#[derive(Debug)]
pub enum AcquireState {
    Start,
    /// The capture request is out.
    AwaitSubmit,
    /// The archive accepted the request and is given time to capture.
    Settle,
    /// Availability query number `attempt` is out.
    AwaitPoll { attempt: u32 },
    /// Query number `attempt` found nothing; the next one waits.
    Pause { attempt: u32 },
    /// The browsing address is being resolved to an existing capture.
    AwaitResolve,
    /// The snapshot `source` is being downloaded.
    AwaitDownload { source: SnapshotSource },
    Finished,
}

/// What happened since the last step.
#[derive(Debug)]
pub enum AcquireEvent {
    Begin,
    /// The capture request came back with `status`, or not at all.
    SubmitAnswered { status: Option<u16> },
    /// The wait is over.
    Slept,
    /// The availability query came back with `response`, or failed.
    PollAnswered { response: Option<ArchiveResponse> },
    /// The browsing address resolved to `final_url`, or the request failed.
    Resolved { final_url: Option<String> },
    /// The download gave `bytes`, or failed.
    Downloaded { bytes: Option<Vec<u8>> },
}

/// What the caller does next.
#[derive(Debug)]
pub enum AcquireAction {
    /// Ask the archive for a capture with a request to `url`.
    Request { url: String },
    Sleep { secs: u64 },
    /// Ask at `url` whether the capture is available.
    Query { url: String },
    /// Follow `url` to the archive's latest capture.
    Resolve { url: String },
    Download { url: String },
    /// The run has its snapshot.
    Finish { result: ArchiveResult },
    /// No snapshot can be had.
    Fail { error: AppError },
}

/// The lower-case hexadecimal SHA-256 digest of `bytes`.
pub uninterp spec fn sha256_hex(bytes: Seq<u8>) -> Seq<char>;

/// Hashes with `sha2::Sha256` (`new`, `update`, `finalize`) and prints the
/// digest in lower-case hexadecimal. The digest depends on the bytes alone.
#[verifier::external_body]
fn sha256_hex_of(bytes: &[u8]) -> (r: String)
    ensures
        r@ == sha256_hex(bytes@),
{
    let mut hasher = <sha2::Sha256 as sha2::Digest>::new();
    sha2::Digest::update(&mut hasher, bytes);
    let hash = sha2::Digest::finalize(hasher);
    format!("{hash:x}")
}

/// `chrono::Utc::now().timestamp()`: the clock's reading, of which nothing
/// is promised. `Utc::now` stops the process where the system clock stands
/// before 1970.
#[verifier::external_body]
fn current_unix_seconds() -> (r: i64) {
    chrono::Utc::now().timestamp()
}

/// `chrono::Utc::now()` printed by `format` as year, month, day, hour, minute
/// and second. It is the clock's reading, of which nothing is promised.
/// `Utc::now` stops the process where the system clock stands before 1970.
#[verifier::external_body]
fn current_time_token() -> (r: String) {
    chrono::Utc::now().format("%Y%m%d%H%M%S").to_string()
}

/// The entry filed under `key`, if there is one.
pub open spec fn entry_for(entries: Seq<(String, ArchiveSnapshot)>, key: Seq<char>) -> Option<
    ArchiveSnapshot,
>
    decreases entries.len(),
{
    if entries.len() == 0 {
        None
    } else if entries[0].0@ == key {
        Some(entries[0].1)
    } else {
        entry_for(entries.drop_first(), key)
    }
}

/// The text between the first `/web/` of `url` and the next `/`.
pub open spec fn url_timestamp(url: Seq<char>) -> Option<Seq<char>> {
    match find_from(url, "/web/"@, 0) {
        None => None,
        Some(start) => {
            let begin = start + "/web/"@.len();
            match find_from(url, "/"@, begin) {
                None => None,
                Some(end) => Some(url.subrange(begin, end)),
            }
        },
    }
}

/// The capture that a resolved address confirms: its segment after `/web/`
/// has at least eight characters, all of them digits.
pub open spec fn confirmed_snapshot(final_url: Seq<char>) -> Option<Seq<char>> {
    match url_timestamp(final_url) {
        Some(t) => if t.len() >= 8 && all_digits(t) {
            Some(t)
        } else {
            None
        },
        None => None,
    }
}

/// The decision after a capture request, as a function of the status code.
pub open spec fn submit_outcome(status: u16) -> SubmitOutcome {
    if 200 <= status && status < 300 {
        SubmitOutcome::Accepted { settle_secs: SETTLE_SECS }
    } else if status == 429 {
        SubmitOutcome::RateLimited
    } else {
        SubmitOutcome::Rejected
    }
}

/// The closest capture that an availability answer names.
pub open spec fn poll_answer(response: Option<ArchiveResponse>) -> Option<ArchiveSnapshot> {
    match response {
        Some(r) => entry_for(r.archived_snapshots@, "closest"@),
        None => None,
    }
}

/// `result` records the snapshot `source` of `url` with content `bytes`.
/// Where a created capture's address holds no timestamp the version comes
/// from the clock and is only marked as such.
pub open spec fn records(
    url: Seq<char>,
    source: SnapshotSource,
    bytes: Seq<u8>,
    result: ArchiveResult,
) -> bool {
    &&& result.original_url@ == url
    &&& result.sha256@ == sha256_hex(bytes)
    &&& match source {
        SnapshotSource::Created(u) => result.archive_url@ == u@ && match url_timestamp(u@) {
            Some(t) => result.version@ == t && !result.version_synthesized,
            None => result.version_synthesized,
        },
        SnapshotSource::Existing(s) => result.archive_url@ == s.url@ && result.version@
            == s.timestamp@ && !result.version_synthesized,
    }
}

/// The step turns to an existing capture of `url`.
pub open spec fn falls_back(url: Seq<char>, next: AcquireState, action: AcquireAction) -> bool {
    next is AwaitResolve && action is Resolve && action->Resolve_url@
        == "https://web.archive.org/web/"@ + url
}

/// The step ends the run without a snapshot, for `reason`.
pub open spec fn gives_up(next: AcquireState, action: AcquireAction, reason: Seq<char>) -> bool {
    next is Finished && action is Fail && action->error is Archive && action->error->Archive_0@
        == reason
}

/// The step sends availability query number `attempt` for `url`.
pub open spec fn queries(url: Seq<char>, attempt: int, next: AcquireState, action: AcquireAction)
    -> bool {
    next is AwaitPoll && next->AwaitPoll_attempt == attempt && action is Query
        && action->Query_url@ == "https://archive.org/wayback/available?url="@ + url
}

/// The step downloads from `address`.
pub open spec fn downloads(address: Seq<char>, next: AcquireState, action: AcquireAction) -> bool {
    next is AwaitDownload && action is Download && action->Download_url@ == address
}

/// The step waits `secs` seconds.
pub open spec fn sleeps(secs: u64, action: AcquireAction) -> bool {
    action is Sleep && action->secs == secs
}

/// The protocol: which state and action may follow `state` on `event`.
/// A capture is requested once; an accepted request is given `SETTLE_SECS`
/// and then up to `MAX_POLLS` queries `POLL_SECS` apart; a refused or
/// throttled request, a failed one and an exhausted poll all turn to the
/// latest existing capture; without one the run ends.
pub open spec fn step_allowed(
    url: Seq<char>,
    state: AcquireState,
    event: AcquireEvent,
    next: AcquireState,
    action: AcquireAction,
) -> bool {
    match (state, event) {
        (AcquireState::Start, AcquireEvent::Begin) => next is AwaitSubmit && action is Request
            && action->Request_url@ == "https://web.archive.org/save/"@ + url,
        (AcquireState::AwaitSubmit, AcquireEvent::SubmitAnswered { status }) => if status is Some
            && submit_outcome(status->0) is Accepted {
            next is Settle && sleeps(SETTLE_SECS, action)
        } else {
            falls_back(url, next, action)
        },
        (AcquireState::Settle, AcquireEvent::Slept) => queries(url, 1, next, action),
        (AcquireState::AwaitPoll { attempt }, AcquireEvent::PollAnswered { response }) => {
            let answer = poll_answer(response);
            if answer is Some && answer->0.available {
                downloads(answer->0.url@, next, action) && next->source is Created
                    && next->source->Created_0@ == answer->0.url@
            } else if attempt < MAX_POLLS {
                next is Pause && next->Pause_attempt == attempt && sleeps(POLL_SECS, action)
            } else {
                falls_back(url, next, action)
            }
        },
        (AcquireState::Pause { attempt }, AcquireEvent::Slept) => if attempt < MAX_POLLS {
            queries(url, attempt + 1, next, action)
        } else {
            falls_back(url, next, action)
        },
        (AcquireState::AwaitResolve, AcquireEvent::Resolved { final_url }) => if final_url is Some
            && confirmed_snapshot(final_url->0@) is Some {
            downloads(final_url->0@, next, action) && next->source is Existing
                && next->source->Existing_0.available && next->source->Existing_0.url@
                == final_url->0@ && Some(next->source->Existing_0.timestamp@) == confirmed_snapshot(
                final_url->0@,
            )
        } else {
            gives_up(next, action, "No archive available"@)
        },
        (AcquireState::AwaitDownload { source }, AcquireEvent::Downloaded { bytes }) => match bytes {
            Some(b) => next is Finished && action is Finish && records(
                url,
                source,
                b@,
                action->result,
            ),
            None => gives_up(next, action, "Download failed"@),
        },
        _ => gives_up(next, action, "Unexpected event"@),
    }
}

/// A state that the protocol can reach: queries are numbered from 1 to
/// `MAX_POLLS`, and a pause stands only before a query that is still due.
pub open spec fn reachable(state: AcquireState) -> bool {
    match state {
        AcquireState::AwaitPoll { attempt } => 1 <= attempt <= MAX_POLLS,
        AcquireState::Pause { attempt } => 1 <= attempt < MAX_POLLS,
        _ => true,
    }
}

/// Every step leads from a reachable state to a reachable state, so no
/// query is ever numbered above `MAX_POLLS`.
pub proof fn lemma_step_keeps_reachable(
    url: Seq<char>,
    state: AcquireState,
    event: AcquireEvent,
    next: AcquireState,
    action: AcquireAction,
)
    requires
        reachable(state),
        step_allowed(url, state, event, next, action),
    ensures
        reachable(next),
{
}

/// A throttled capture request is not repeated and never polled for: the
/// next step resolves an existing capture.
pub proof fn lemma_rate_limited_falls_back(
    url: Seq<char>,
    next: AcquireState,
    action: AcquireAction,
)
    requires
        step_allowed(
            url,
            AcquireState::AwaitSubmit,
            AcquireEvent::SubmitAnswered { status: Some(429) },
            next,
            action,
        ),
    ensures
        falls_back(url, next, action),
{
}

/// After query number `MAX_POLLS` has found nothing, no further query is
/// made: the next step resolves an existing capture.
pub proof fn lemma_last_poll_falls_back(
    url: Seq<char>,
    response: Option<ArchiveResponse>,
    next: AcquireState,
    action: AcquireAction,
)
    requires
        !(poll_answer(response) matches Some(s) && s.available),
        step_allowed(
            url,
            AcquireState::AwaitPoll { attempt: MAX_POLLS },
            AcquireEvent::PollAnswered { response },
            next,
            action,
        ),
    ensures
        falls_back(url, next, action),
{
}

impl ArchiveSnapshot {
    /// A copy of this description.
    pub fn duplicate(&self) -> (r: ArchiveSnapshot)
        ensures
            r == *self,
    {
        ArchiveSnapshot {
            available: self.available,
            url: self.url.clone(),
            timestamp: self.timestamp.clone(),
        }
    }
}

impl ArchiveResponse {
    /// The capture filed under `label`.
    pub fn get(&self, label: &str) -> (r: Option<ArchiveSnapshot>)
        ensures
            r == entry_for(self.archived_snapshots@, label@),
    {
        let n: usize = self.archived_snapshots.len();
        let mut i: usize = 0;
        assert(self.archived_snapshots@.skip(0) =~= self.archived_snapshots@);
        while i < n
            invariant
                n == self.archived_snapshots@.len(),
                i <= n,
                entry_for(self.archived_snapshots@, label@) == entry_for(
                    self.archived_snapshots@.skip(i as int),
                    label@,
                ),
            decreases n - i,
        {
            let entry = &self.archived_snapshots[i];
            proof {
                let rest = self.archived_snapshots@.skip(i as int);
                assert(rest[0] == *entry);
                assert(rest.drop_first() =~= self.archived_snapshots@.skip(i + 1));
            }
            if same_text(entry.0.as_str(), label) {
                return Some(entry.1.duplicate());
            }
            i += 1;
        }
        None
    }
}

/// The segment after `/web/` in a snapshot's address.
pub fn timestamp_segment(url: &str) -> (r: Option<String>)
    ensures
        match r {
            Some(t) => url_timestamp(url@) == Some(t@),
            None => url_timestamp(url@) is None,
        },
{
    let marker = "/web/";
    match find_in(url, marker, 0) {
        None => None,
        Some(start) => {
            let begin: usize = start + marker.unicode_len();
            match find_in(url, "/", begin) {
                None => None,
                Some(end) => Some(slice_of(url, begin, end)),
            }
        },
    }
}

/// The client's side of the conversation with the web archive.
pub struct WebArchiveClient {}

impl WebArchiveClient {
    pub fn new() -> (r: Self) {
        WebArchiveClient {  }
    }

    /// The address of the availability query for `url`.
    pub fn availability_url(&self, url: &str) -> (r: String)
        ensures
            r@ == "https://archive.org/wayback/available?url="@ + url@,
    {
        String::from_str("https://archive.org/wayback/available?url=").concat(url)
    }

    /// The address under which the archive shows its latest capture of `url`.
    pub fn browse_url(&self, url: &str) -> (r: String)
        ensures
            r@ == "https://web.archive.org/web/"@ + url@,
    {
        String::from_str("https://web.archive.org/web/").concat(url)
    }

    /// The address that asks the archive to capture `url`.
    pub fn save_url(&self, url: &str) -> (r: String)
        ensures
            r@ == "https://web.archive.org/save/"@ + url@,
    {
        String::from_str("https://web.archive.org/save/").concat(url)
    }

    /// The closest capture named in an availability answer.
    pub fn check_archived(&self, response: &ArchiveResponse) -> (r: Option<ArchiveSnapshot>)
        ensures
            r == entry_for(response.archived_snapshots@, "closest"@),
    {
        response.get("closest")
    }

    /// The existing capture that the resolved browsing address confirms.
    pub fn get_latest_archive(&self, final_url: &str) -> (r: Option<ArchiveSnapshot>)
        ensures
            match r {
                Some(s) => s.available && s.url@ == final_url@ && confirmed_snapshot(final_url@)
                    == Some(s.timestamp@),
                None => confirmed_snapshot(final_url@) is None,
            },
    {
        match timestamp_segment(final_url) {
            None => None,
            Some(t) => {
                if t.as_str().unicode_len() >= 8 && is_all_digits(t.as_str()) {
                    Some(
                        ArchiveSnapshot {
                            available: true,
                            url: String::from_str(final_url),
                            timestamp: t,
                        },
                    )
                } else {
                    None
                }
            },
        }
    }

    /// What to do once the archive has answered a capture request with `status`.
    pub fn after_submit(&self, status: u16) -> (r: SubmitOutcome)
        ensures
            r == submit_outcome(status),
    {
        if 200 <= status && status < 300 {
            SubmitOutcome::Accepted { settle_secs: SETTLE_SECS }
        } else if status == 429 {
            SubmitOutcome::RateLimited
        } else {
            SubmitOutcome::Rejected
        }
    }

    /// What to do after availability query number `attempt`, which found
    /// `answer` (nothing, where the query failed).
    pub fn archive_url(&self, attempt: u32, answer: Option<&ArchiveSnapshot>) -> (r: PollOutcome)
        ensures
            match r {
                PollOutcome::Found(u) => answer matches Some(s) && s.available && u@ == s.url@,
                PollOutcome::RetryAfter { secs, next_attempt } => !(answer matches Some(s)
                    && s.available) && attempt < MAX_POLLS && secs == POLL_SECS && next_attempt
                    == attempt + 1,
                PollOutcome::Exhausted => !(answer matches Some(s) && s.available) && attempt
                    >= MAX_POLLS,
            },
    {
        match answer {
            Some(s) => {
                if s.available {
                    return PollOutcome::Found(s.url.clone());
                }
            },
            None => {},
        }
        if attempt < MAX_POLLS {
            PollOutcome::RetryAfter { secs: POLL_SECS, next_attempt: attempt + 1 }
        } else {
            PollOutcome::Exhausted
        }
    }

    /// The snapshot to fall back on, or the error that ends the run.
    pub fn existing_snapshot(&self, found: Option<ArchiveSnapshot>) -> (r: Result<
        SnapshotSource,
        AppError,
    >)
        ensures
            match r {
                Ok(src) => found matches Some(s) && s.available && src == SnapshotSource::Existing(
                    s,
                ),
                Err(e) => !(found matches Some(s) && s.available) && e == AppError::Archive(
                    e->Archive_0,
                ) && e->Archive_0@ == "No archive available"@,
            },
    {
        match found {
            Some(s) => {
                if s.available {
                    Ok(SnapshotSource::Existing(s))
                } else {
                    Err(AppError::Archive(String::from_str("No archive available")))
                }
            },
            None => Err(AppError::Archive(String::from_str("No archive available"))),
        }
    }

    /// The downloaded bytes with their digest.
    pub fn download_and_hash(&self, bytes: Vec<u8>) -> (r: (Vec<u8>, String))
        ensures
            r.0@ == bytes@,
            r.1@ == sha256_hex(bytes@),
    {
        let digest = sha256_hex_of(bytes.as_slice());
        (bytes, digest)
    }

    /// The record of a downloaded snapshot, given the digest and the clock's
    /// reading: a created capture takes its version from its address, or from
    /// the clock where the address holds none; an existing one from its timestamp.
    pub fn assemble(
        &self,
        url: &str,
        source: SnapshotSource,
        sha256: String,
        now_secs: i64,
        now_token: String,
    ) -> (r: ArchiveResult)
        ensures
            r.original_url@ == url@,
            r.sha256@ == sha256@,
            r.timestamp == now_secs,
            match source {
                SnapshotSource::Created(u) => r.archive_url@ == u@ && match url_timestamp(u@) {
                    Some(t) => r.version@ == t && !r.version_synthesized,
                    None => r.version@ == now_token@ && r.version_synthesized,
                },
                SnapshotSource::Existing(s) => r.archive_url@ == s.url@ && r.version@
                    == s.timestamp@ && !r.version_synthesized,
            },
    {
        match source {
            SnapshotSource::Created(u) => {
                let found = timestamp_segment(u.as_str());
                let synthesized = found.is_none();
                let version = match found {
                    Some(t) => t,
                    None => now_token,
                };
                ArchiveResult {
                    original_url: String::from_str(url),
                    archive_url: u,
                    timestamp: now_secs,
                    sha256,
                    version,
                    version_synthesized: synthesized,
                }
            },
            SnapshotSource::Existing(s) => ArchiveResult {
                original_url: String::from_str(url),
                archive_url: s.url,
                timestamp: now_secs,
                sha256,
                version: s.timestamp,
                version_synthesized: false,
            },
        }
    }

    /// The record of the snapshot `source` whose downloaded content is
    /// `bytes`. Version and time of a capture without a timestamp in its
    /// address come from the clock, so only the rest is fixed.
    pub fn archive_and_download(&self, url: &str, source: SnapshotSource, bytes: &[u8]) -> (r:
        ArchiveResult)
        ensures
            records(url@, source, bytes@, r),
    {
        let digest = sha256_hex_of(bytes);
        let now_secs = current_unix_seconds();
        let now_token = current_time_token();
        self.assemble(url, source, digest, now_secs, now_token)
    }

    /// One step of getting the snapshot of `url`: the state and the action
    /// that follow `state` on `event`.
    pub fn step(&self, url: &str, state: AcquireState, event: AcquireEvent) -> (r: (
        AcquireState,
        AcquireAction,
    ))
        ensures
            step_allowed(url@, state, event, r.0, r.1),
    {
        match (state, event) {
            (AcquireState::Start, AcquireEvent::Begin) => (
                AcquireState::AwaitSubmit,
                AcquireAction::Request { url: self.save_url(url) },
            ),
            (AcquireState::AwaitSubmit, AcquireEvent::SubmitAnswered { status }) => {
                match status {
                    Some(code) => match self.after_submit(code) {
                        SubmitOutcome::Accepted { settle_secs } => (
                            AcquireState::Settle,
                            AcquireAction::Sleep { secs: settle_secs },
                        ),
                        _ => self.fall_back(url),
                    },
                    None => self.fall_back(url),
                }
            },
            (AcquireState::Settle, AcquireEvent::Slept) => (
                AcquireState::AwaitPoll { attempt: 1 },
                AcquireAction::Query { url: self.availability_url(url) },
            ),
            (AcquireState::AwaitPoll { attempt }, AcquireEvent::PollAnswered { response }) => {
                let answer = match &response {
                    Some(r) => self.check_archived(r),
                    None => None,
                };
                let outcome = match &answer {
                    Some(s) => self.archive_url(attempt, Some(s)),
                    None => self.archive_url(attempt, None),
                };
                match outcome {
                    PollOutcome::Found(u) => (
                        AcquireState::AwaitDownload { source: SnapshotSource::Created(u.clone()) },
                        AcquireAction::Download { url: u },
                    ),
                    PollOutcome::RetryAfter { secs, next_attempt: _ } => (
                        AcquireState::Pause { attempt },
                        AcquireAction::Sleep { secs },
                    ),
                    PollOutcome::Exhausted => self.fall_back(url),
                }
            },
            (AcquireState::Pause { attempt }, AcquireEvent::Slept) => {
                if attempt < MAX_POLLS {
                    (
                        AcquireState::AwaitPoll { attempt: attempt + 1 },
                        AcquireAction::Query { url: self.availability_url(url) },
                    )
                } else {
                    self.fall_back(url)
                }
            },
            (AcquireState::AwaitResolve, AcquireEvent::Resolved { final_url }) => {
                let found = match &final_url {
                    Some(f) => self.get_latest_archive(f.as_str()),
                    None => None,
                };
                match self.existing_snapshot(found) {
                    Ok(source) => {
                        let address = match &source {
                            SnapshotSource::Created(u) => u.clone(),
                            SnapshotSource::Existing(s) => s.url.clone(),
                        };
                        (AcquireState::AwaitDownload { source }, AcquireAction::Download { url: address })
                    },
                    Err(error) => (AcquireState::Finished, AcquireAction::Fail { error }),
                }
            },
            (AcquireState::AwaitDownload { source }, AcquireEvent::Downloaded { bytes }) => {
                match bytes {
                    Some(b) => {
                        let result = self.archive_and_download(url, source, b.as_slice());
                        (AcquireState::Finished, AcquireAction::Finish { result })
                    },
                    None => (
                        AcquireState::Finished,
                        AcquireAction::Fail {
                            error: AppError::Archive(String::from_str("Download failed")),
                        },
                    ),
                }
            },
            _ => (
                AcquireState::Finished,
                AcquireAction::Fail { error: AppError::Archive(String::from_str("Unexpected event")) },
            ),
        }
    }

    /// The step that turns to an existing capture of `url`.
    fn fall_back(&self, url: &str) -> (r: (AcquireState, AcquireAction))
        ensures
            falls_back(url@, r.0, r.1),
    {
        (AcquireState::AwaitResolve, AcquireAction::Resolve { url: self.browse_url(url) })
    }

    /// The version that a snapshot's address gives, or, where it gives none,
    /// one made from the clock.
    pub fn extract_version_from_archive_url(&self, archive_url: &str) -> (r: String)
        ensures
            url_timestamp(archive_url@) matches Some(t) ==> r@ == t,
    {
        match timestamp_segment(archive_url) {
            Some(t) => t,
            None => current_time_token(),
        }
    }
}

} // verus!
