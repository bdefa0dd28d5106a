use vstd::prelude::*;
use crate::errors::FailureCause;

verus! {

/// Attempts made for one file before giving up.
pub const MAX_ATTEMPTS: u32 = 5;

/// Seconds to wait between two attempts.
pub const RETRY_DELAY_SECS: u64 = 5;

/// Where the fetch of one file stands.
#[derive(Debug, Clone, Copy, PartialEq, Eq, Structural)]
pub enum FetchPhase {
    /// A request is out; its response is awaited.
    Requesting,
    /// The body is being received and written.
    Streaming,
    /// The body is written; its digest is being checked.
    Verifying,
    /// The file is written and verified.
    Succeeded,
    /// Every attempt failed.
    Exhausted,
    /// A local failure ended the fetch.
    Aborted,
}

/// What the caller observed while carrying out the last action.
#[derive(Debug, Clone, Copy, PartialEq, Eq, Structural)]
pub enum FetchEvent {
    /// The request was answered; `ok` when it succeeded with a 2xx status.
    Responded { ok: bool },
    /// A chunk of `len` bytes of the body arrived.
    Chunk { len: u64 },
    /// Reading the body failed.
    StreamFailed,
    /// The body ended.
    StreamEnded,
    /// The digest of the written file was computed; `ok` when it matched.
    Verified { ok: bool },
    /// Creating, writing or removing the local file failed.
    LocalFailure,
}

/// What the caller does next.
#[derive(Debug, Clone, Copy, PartialEq, Eq, Structural)]
pub enum FetchAction {
    /// Read the body.
    ReadBody,
    /// Write the chunk just received; `current` of `total` bytes are in.
    Write { current: u64, total: u64 },
    /// Compute the digest of the written file.
    Verify,
    /// Remove the partial file, wait `delay_secs` seconds, request again.
    Retry { delay_secs: u64, cause: FailureCause },
    /// The file is in place.
    Complete,
    /// Remove the partial file and report that every attempt failed.
    GiveUp { cause: FailureCause },
    /// Stop: a local failure is fatal.
    Abort,
    /// The event does not fit the current phase; nothing to do.
    Ignore,
}

/// The fetch of one file of `size` bytes: the attempt under way, how many
/// bytes of it have arrived, and the phase.
#[derive(Debug, Clone, Copy, PartialEq, Eq, Structural)]
pub struct FetchSession {
    pub size: u64,
    pub attempts: u32,
    pub received: u64,
    pub phase: FetchPhase,
}

impl FetchSession {
    pub open spec fn wf(&self) -> bool {
        &&& 1 <= self.attempts <= MAX_ATTEMPTS
        &&& self.received <= self.size
        &&& (self.phase is Requesting || self.phase is Exhausted || self.phase is Aborted) ==> self.received == 0
        &&& (self.phase is Verifying || self.phase is Succeeded) ==> self.received == self.size
    }

    pub open spec fn is_terminal(&self) -> bool {
        self.phase is Succeeded || self.phase is Exhausted || self.phase is Aborted
    }
}

/// The state and action after a failed attempt: another attempt after the
/// fixed delay while attempts remain, otherwise the end.
pub open spec fn fail_attempt(s: FetchSession, cause: FailureCause) -> (FetchSession, FetchAction) {
    if s.attempts < MAX_ATTEMPTS {
        (
            FetchSession { attempts: (s.attempts + 1) as u32, received: 0, phase: FetchPhase::Requesting, ..s },
            FetchAction::Retry { delay_secs: RETRY_DELAY_SECS, cause },
        )
    } else {
        (FetchSession { received: 0, phase: FetchPhase::Exhausted, ..s }, FetchAction::GiveUp { cause })
    }
}

/// One step of a fetch. A body longer or shorter than the declared size, or
/// one whose digest differs, fails the attempt like a transport failure does.
pub open spec fn fetch_next(s: FetchSession, e: FetchEvent) -> (FetchSession, FetchAction) {
    if s.is_terminal() {
        (s, FetchAction::Ignore)
    } else if e is LocalFailure {
        (FetchSession { received: 0, phase: FetchPhase::Aborted, ..s }, FetchAction::Abort)
    } else {
        match (s.phase, e) {
            (FetchPhase::Requesting, FetchEvent::Responded { ok }) => if ok {
                (FetchSession { received: 0, phase: FetchPhase::Streaming, ..s }, FetchAction::ReadBody)
            } else {
                fail_attempt(s, FailureCause::Transport)
            },
            (FetchPhase::Streaming, FetchEvent::Chunk { len }) => if len <= s.size - s.received {
                (
                    FetchSession { received: (s.received + len) as u64, ..s },
                    FetchAction::Write { current: (s.received + len) as u64, total: s.size },
                )
            } else {
                fail_attempt(s, FailureCause::IntegrityMismatch)
            },
            (FetchPhase::Streaming, FetchEvent::StreamFailed) => fail_attempt(s, FailureCause::Transport),
            (FetchPhase::Streaming, FetchEvent::StreamEnded) => if s.received == s.size {
                (FetchSession { phase: FetchPhase::Verifying, ..s }, FetchAction::Verify)
            } else {
                fail_attempt(s, FailureCause::IntegrityMismatch)
            },
            (FetchPhase::Verifying, FetchEvent::Verified { ok }) => if ok {
                (FetchSession { phase: FetchPhase::Succeeded, ..s }, FetchAction::Complete)
            } else {
                fail_attempt(s, FailureCause::IntegrityMismatch)
            },
            _ => (s, FetchAction::Ignore),
        }
    }
}

impl FetchSession {
    /// A fetch of a file of `size` bytes whose first request is going out.
    pub fn new(size: u64) -> (r: FetchSession)
        ensures
            r.wf(),
            r == (FetchSession { size, attempts: 1, received: 0, phase: FetchPhase::Requesting }),
    {
        FetchSession { size, attempts: 1, received: 0, phase: FetchPhase::Requesting }
    }

    fn fail(&mut self, cause: FailureCause) -> (r: FetchAction)
        requires
            old(self).wf(),
        ensures
            (*final(self), r) == fail_attempt(*old(self), cause),
    {
        if self.attempts < MAX_ATTEMPTS {
            self.attempts = self.attempts + 1;
            self.received = 0;
            self.phase = FetchPhase::Requesting;
            FetchAction::Retry { delay_secs: RETRY_DELAY_SECS, cause }
        } else {
            self.received = 0;
            self.phase = FetchPhase::Exhausted;
            FetchAction::GiveUp { cause }
        }
    }

    /// Takes in what the caller observed and says what it does next.
    pub fn step(&mut self, event: FetchEvent) -> (r: FetchAction)
        requires
            old(self).wf(),
        ensures
            final(self).wf(),
            (*final(self), r) == fetch_next(*old(self), event),
    {
        if self.is_finished() {
            return FetchAction::Ignore;
        }
        match (self.phase, event) {
            (_, FetchEvent::LocalFailure) => {
                self.received = 0;
                self.phase = FetchPhase::Aborted;
                FetchAction::Abort
            },
            (FetchPhase::Requesting, FetchEvent::Responded { ok }) => {
                if ok {
                    self.phase = FetchPhase::Streaming;
                    FetchAction::ReadBody
                } else {
                    self.fail(FailureCause::Transport)
                }
            },
            (FetchPhase::Streaming, FetchEvent::Chunk { len }) => {
                if len <= self.size - self.received {
                    self.received = self.received + len;
                    FetchAction::Write { current: self.received, total: self.size }
                } else {
                    self.fail(FailureCause::IntegrityMismatch)
                }
            },
            (FetchPhase::Streaming, FetchEvent::StreamFailed) => self.fail(FailureCause::Transport),
            (FetchPhase::Streaming, FetchEvent::StreamEnded) => {
                if self.received == self.size {
                    self.phase = FetchPhase::Verifying;
                    FetchAction::Verify
                } else {
                    self.fail(FailureCause::IntegrityMismatch)
                }
            },
            (FetchPhase::Verifying, FetchEvent::Verified { ok }) => {
                if ok {
                    self.phase = FetchPhase::Succeeded;
                    FetchAction::Complete
                } else {
                    self.fail(FailureCause::IntegrityMismatch)
                }
            },
            _ => FetchAction::Ignore,
        }
    }

    /// Whether the fetch has ended, in success or not.
    pub fn is_finished(&self) -> (r: bool)
        ensures
            r == self.is_terminal(),
    {
        match self.phase {
            FetchPhase::Succeeded | FetchPhase::Exhausted | FetchPhase::Aborted => true,
            _ => false,
        }
    }
}

/// Runs a fetch through a sequence of events: the final state and the actions.
pub open spec fn fetch_run(s: FetchSession, events: Seq<FetchEvent>) -> (FetchSession, Seq<FetchAction>)
    decreases events.len(),
{
    if events.len() == 0 {
        (s, Seq::empty())
    } else {
        let (s1, a) = fetch_next(s, events[0]);
        let (s2, rest) = fetch_run(s1, events.subrange(1, events.len() as int));
        (s2, seq![a] + rest)
    }
}

/// `n` failed responses in a row.
pub open spec fn failed_responses(n: nat) -> Seq<FetchEvent> {
    Seq::new(n, |i: int| FetchEvent::Responded { ok: false })
}

/// The actions of a fetch whose every response fails, from attempt `a` on:
/// a retry after the fixed delay until the last attempt, then giving up,
/// then nothing.
pub open spec fn failing_actions(a: nat, n: nat) -> Seq<FetchAction> {
    Seq::new(
        n,
        |i: int|
            if i + a < MAX_ATTEMPTS {
                FetchAction::Retry { delay_secs: RETRY_DELAY_SECS, cause: FailureCause::Transport }
            } else if i + a == MAX_ATTEMPTS {
                FetchAction::GiveUp { cause: FailureCause::Transport }
            } else {
                FetchAction::Ignore
            },
    )
}

proof fn lemma_failing_from(s: FetchSession, n: nat)
    requires
        s.wf(),
        s.phase is Requesting,
        n >= MAX_ATTEMPTS - s.attempts + 1,
    ensures
        fetch_run(s, failed_responses(n)).1 == failing_actions(s.attempts as nat, n),
        fetch_run(s, failed_responses(n)).0 == (FetchSession { attempts: MAX_ATTEMPTS, received: 0, phase: FetchPhase::Exhausted, ..s }),
    decreases n,
{
    let ev = failed_responses(n);
    let (s1, a) = fetch_next(s, ev[0]);
    let tail = ev.subrange(1, n as int);
    if s.attempts < MAX_ATTEMPTS {
        assert(tail =~= failed_responses((n - 1) as nat));
        lemma_failing_from(s1, (n - 1) as nat);
        assert(fetch_run(s, ev).1 =~= failing_actions(s.attempts as nat, n));
    } else {
        assert(tail =~= failed_responses((n - 1) as nat));
        lemma_exhausted_ignores(s1, tail);
        assert(fetch_run(s, ev).1 =~= failing_actions(s.attempts as nat, n));
    }
}

/// A fetch that has ended ignores every further event.
pub proof fn lemma_exhausted_ignores(s: FetchSession, events: Seq<FetchEvent>)
    requires
        s.is_terminal(),
    ensures
        fetch_run(s, events).0 == s,
        fetch_run(s, events).1 == Seq::new(events.len(), |i: int| FetchAction::Ignore),
    decreases events.len(),
{
    if events.len() > 0 {
        lemma_exhausted_ignores(s, events.subrange(1, events.len() as int));
        assert(fetch_run(s, events).1 =~= Seq::new(events.len(), |i: int| FetchAction::Ignore));
    }
}

/// A source that never answers with success gets exactly `MAX_ATTEMPTS`
/// attempts: a retry after the fixed delay follows each of the first four
/// failures, the fifth gives up, and no further attempt is made whatever
/// comes after.
pub proof fn lemma_retry_bound(size: u64, n: nat)
    requires
        n >= MAX_ATTEMPTS,
    ensures
        fetch_run(FetchSession { size, attempts: 1, received: 0, phase: FetchPhase::Requesting }, failed_responses(n)).1
            == failing_actions(1, n),
        fetch_run(FetchSession { size, attempts: 1, received: 0, phase: FetchPhase::Requesting }, failed_responses(n)).0.phase
            == FetchPhase::Exhausted,
        fetch_run(FetchSession { size, attempts: 1, received: 0, phase: FetchPhase::Requesting }, failed_responses(n)).0.attempts
            == MAX_ATTEMPTS,
{
    lemma_failing_from(FetchSession { size, attempts: 1, received: 0, phase: FetchPhase::Requesting }, n);
}

/// Whatever happens, a fetch never makes more than `MAX_ATTEMPTS` attempts.
pub proof fn lemma_attempts_bounded(s: FetchSession, events: Seq<FetchEvent>)
    requires
        s.wf(),
    ensures
        fetch_run(s, events).0.wf(),
        fetch_run(s, events).0.attempts >= s.attempts,
    decreases events.len(),
{
    if events.len() > 0 {
        let (s1, a) = fetch_next(s, events[0]);
        lemma_next_wf(s, events[0]);
        lemma_attempts_bounded(s1, events.subrange(1, events.len() as int));
    }
}

proof fn lemma_next_wf(s: FetchSession, e: FetchEvent)
    requires
        s.wf(),
    ensures
        fetch_next(s, e).0.wf(),
        fetch_next(s, e).0.attempts >= s.attempts,
        fetch_next(s, e).0.size == s.size,
{
}

/// A fetch succeeds only through a verified digest: a session that has
/// succeeded came from one that was verifying, on a matching digest.
pub proof fn lemma_success_needs_verified_digest(s: FetchSession, e: FetchEvent)
    requires
        s.wf(),
        !(s.phase is Succeeded),
        fetch_next(s, e).0.phase is Succeeded,
    ensures
        s.phase is Verifying,
        e == (FetchEvent::Verified { ok: true }),
        fetch_next(s, e).1 == FetchAction::Complete,
        fetch_next(s, e).0.received == s.size,
{
}

/// A fetch whose first attempt delivers the whole body and the right
/// digest writes the file once: no retry, and it ends in success.
pub proof fn lemma_clean_fetch_writes_once(size: u64)
    ensures
        fetch_run(
            FetchSession::spec_new(size),
            seq![FetchEvent::Responded { ok: true }, FetchEvent::Chunk { len: size }, FetchEvent::StreamEnded, FetchEvent::Verified { ok: true }],
        ) == (
            FetchSession { size, attempts: 1, received: size, phase: FetchPhase::Succeeded },
            seq![FetchAction::ReadBody, FetchAction::Write { current: size, total: size }, FetchAction::Verify, FetchAction::Complete],
        ),
{
    let ev = seq![FetchEvent::Responded { ok: true }, FetchEvent::Chunk { len: size }, FetchEvent::StreamEnded, FetchEvent::Verified { ok: true }];
    let s0 = FetchSession::spec_new(size);
    let s1 = FetchSession { size, attempts: 1, received: 0, phase: FetchPhase::Streaming };
    let s2 = FetchSession { size, attempts: 1, received: size, phase: FetchPhase::Streaming };
    let s3 = FetchSession { size, attempts: 1, received: size, phase: FetchPhase::Verifying };
    let s4 = FetchSession { size, attempts: 1, received: size, phase: FetchPhase::Succeeded };
    let e1 = ev.subrange(1, 4);
    let e2 = e1.subrange(1, 3);
    let e3 = e2.subrange(1, 2);
    let e4 = e3.subrange(1, 1);
    assert(e4.len() == 0);
    assert(fetch_run(s4, e4) == (s4, Seq::<FetchAction>::empty()));
    assert(e3[0] == FetchEvent::Verified { ok: true });
    assert(fetch_run(s3, e3) =~= (s4, seq![FetchAction::Complete]));
    assert(e2[0] == FetchEvent::StreamEnded);
    assert(fetch_run(s2, e2).1 =~= seq![FetchAction::Verify, FetchAction::Complete]);
    assert(e1[0] == FetchEvent::Chunk { len: size });
    assert(fetch_run(s1, e1).1 =~= seq![FetchAction::Write { current: size, total: size }, FetchAction::Verify, FetchAction::Complete]);
    assert(fetch_run(s0, ev).1 =~= seq![FetchAction::ReadBody, FetchAction::Write { current: size, total: size }, FetchAction::Verify, FetchAction::Complete]);
}

impl FetchSession {
    pub open spec fn spec_new(size: u64) -> FetchSession {
        FetchSession { size, attempts: 1, received: 0, phase: FetchPhase::Requesting }
    }
}

} // verus!
