//! The transfer engine and retry orchestrator over an explicit model of the
//! remote server and the destination file.
//!
//! One attempt proceeds exactly as the real engine does: decide whether to
//! resume, probe for range support, issue a (possibly ranged) request,
//! restart from zero when the server answers a ranged request with a full
//! body, stream and persist the body, and detect premature termination.
//! The destination file is a byte vector; the server's observable behavior
//! is a [`ServerModel`].  The orchestrator drives attempts, consults the
//! retry policy on each failure, and wraps exhaustion explicitly.
use vstd::prelude::*;
use crate::engine::classify_response_status;
use crate::engine::ResponseAction;
use crate::retry::retryable_chain;
use crate::retry::ErrorType;
use crate::retry::RetryManager;

verus! {

/// The observable behavior of the remote server for one resource.
pub struct ServerModel {
    /// The resource's full content.
    pub content: Vec<u8>,
    /// The metadata probe's capability header advertises byte ranges.
    pub advertises_ranges: bool,
    /// A ranged request is honored with 206 Partial Content; when false the
    /// server ignores the range header and answers 200 with the full body.
    pub honors_ranges: bool,
    /// The metadata probe fails outright, answering nothing either way.
    pub probe_fails: bool,
}

/// The mathematical view of a server model.
pub struct ServerSpec {
    pub content: Seq<u8>,
    pub advertises_ranges: bool,
    pub honors_ranges: bool,
    pub probe_fails: bool,
}

impl View for ServerModel {
    type V = ServerSpec;

    open spec fn view(&self) -> ServerSpec {
        ServerSpec {
            content: self.content@,
            advertises_ranges: self.advertises_ranges,
            honors_ranges: self.honors_ranges,
            probe_fails: self.probe_fails,
        }
    }
}

/// How one attempt's streaming goes: where (if anywhere) the body is cut
/// off, and whether the cut looks like a clean end of stream (caught by the
/// premature-termination check) rather than a connection error.
#[derive(Debug, Clone, Copy, PartialEq, Eq, Structural)]
pub struct AttemptPlan {
    pub fail_after: Option<usize>,
    pub clean_end: bool,
}

/// An attempt whose stream is not cut off.
pub open spec fn full_attempt() -> AttemptPlan {
    AttemptPlan { fail_after: None, clean_end: false }
}

/// A resume is requested and there are bytes on disk to resume from.
pub open spec fn resume_requested(disk0: Seq<u8>, resume: bool) -> bool {
    resume && disk0.len() > 0
}

/// The attempt issues a ranged request: a resume is requested and the probe
/// either confirms range support (capability header, or a one-byte probe
/// answered with 206) or fails to answer, in which case the engine proceeds
/// optimistically.  When the probe positively denies support, the partial
/// file is discarded up front and no range header is sent.
pub open spec fn attempt_is_ranged(disk0: Seq<u8>, sv: ServerSpec, resume: bool) -> bool {
    resume_requested(disk0, resume) && (sv.probe_fails || sv.advertises_ranges
        || sv.honors_ranges)
}

/// The offset at which the attempt writes: the resume offset when a ranged
/// request is honored with 206, and zero in every other case (fresh
/// download, probe-denied restart, or full-body answer to a ranged
/// request).
pub open spec fn attempt_write_start(disk0: Seq<u8>, sv: ServerSpec, resume: bool) -> int {
    if attempt_is_ranged(disk0, sv, resume) && sv.honors_ranges {
        disk0.len() as int
    } else {
        0
    }
}

/// The length of the response body the server serves.
pub open spec fn attempt_body_len(disk0: Seq<u8>, sv: ServerSpec, resume: bool) -> int {
    sv.content.len() - attempt_write_start(disk0, sv, resume)
}

/// How many body bytes reach the disk before the stream ends or is cut off.
pub open spec fn attempt_served(
    disk0: Seq<u8>,
    sv: ServerSpec,
    resume: bool,
    plan: AttemptPlan,
) -> int {
    let body = attempt_body_len(disk0, sv, resume);
    match plan.fail_after {
        Some(f) => if f < body {
            f as int
        } else {
            body
        },
        None => body,
    }
}

/// The file contents after the attempt: what was already on disk when the
/// attempt appends, followed by the served part of the body.
pub open spec fn attempt_final_disk(
    disk0: Seq<u8>,
    sv: ServerSpec,
    resume: bool,
    plan: AttemptPlan,
) -> Seq<u8> {
    let start = attempt_write_start(disk0, sv, resume);
    let served = attempt_served(disk0, sv, resume, plan);
    if start == 0 {
        sv.content.subrange(0, served)
    } else {
        disk0 + sv.content.subrange(start, start + served)
    }
}

/// The attempt succeeds exactly when the whole body was served.
pub open spec fn attempt_succeeds(
    disk0: Seq<u8>,
    sv: ServerSpec,
    resume: bool,
    plan: AttemptPlan,
) -> bool {
    attempt_served(disk0, sv, resume, plan) == attempt_body_len(disk0, sv, resume)
}

/// The message a failed attempt surfaces: a connection error when the
/// stream was cut, or the premature-termination report when the stream
/// ended cleanly short of the expected total.
pub open spec fn attempt_message(plan: AttemptPlan) -> Seq<char> {
    if plan.clean_end {
        "download ended prematurely"@
    } else {
        "connection reset by peer"@
    }
}

/// What one attempt did: the offset it wrote from, how many bytes it
/// persisted, and its outcome.
pub struct AttemptReport {
    pub write_start: usize,
    pub bytes_written: usize,
    pub outcome: Result<(), String>,
}

/// On-disk length after an attempt equals the offset the attempt began
/// writing at plus the bytes it persisted — the resume offset the next
/// attempt observes is exactly what this attempt left behind, with no
/// silent truncation or duplication.
pub proof fn lemma_attempt_accounting(
    disk0: Seq<u8>,
    sv: ServerSpec,
    resume: bool,
    plan: AttemptPlan,
)
    requires
        disk0.len() <= sv.content.len(),
    ensures
        attempt_final_disk(disk0, sv, resume, plan).len() == attempt_write_start(disk0, sv, resume)
            + attempt_served(disk0, sv, resume, plan),
{
}

/// Against a server that does not honor byte ranges (whether or not it
/// advertises them), a resume attempt never appends: it always writes from
/// offset zero, and an uninterrupted attempt leaves exactly the full
/// server-reported content on disk.
pub proof fn lemma_unsupported_range_never_appends(
    disk0: Seq<u8>,
    sv: ServerSpec,
    resume: bool,
    plan: AttemptPlan,
)
    requires
        !sv.honors_ranges,
        disk0.len() <= sv.content.len(),
    ensures
        attempt_write_start(disk0, sv, resume) == 0,
        attempt_final_disk(disk0, sv, resume, plan) == sv.content.subrange(
            0,
            attempt_served(disk0, sv, resume, plan),
        ),
        plan.fail_after is None ==> attempt_final_disk(disk0, sv, resume, plan) == sv.content
            && attempt_final_disk(disk0, sv, resume, plan).len() == sv.content.len(),
{
    if plan.fail_after is None {
        assert(attempt_final_disk(disk0, sv, resume, plan) =~= sv.content);
    }
}

/// Runs one transfer attempt against the server model, mutating the
/// destination file exactly as the engine's probe/request/stream phases
/// prescribe.
pub fn run_attempt(
    disk: &mut Vec<u8>,
    server: &ServerModel,
    resume: bool,
    plan: AttemptPlan,
) -> (r: AttemptReport)
    requires
        old(disk)@.len() <= server@.content.len(),
        old(disk)@ == server@.content.subrange(0, old(disk)@.len() as int),
    ensures
        final(disk)@ == attempt_final_disk(old(disk)@, server@, resume, plan),
        final(disk)@.len() <= server@.content.len(),
        final(disk)@ == server@.content.subrange(0, final(disk)@.len() as int),
        r.write_start as int == attempt_write_start(old(disk)@, server@, resume),
        r.bytes_written as int == attempt_served(old(disk)@, server@, resume, plan),
        final(disk)@.len() as int == r.write_start + r.bytes_written,
        r.outcome is Ok <==> attempt_succeeds(old(disk)@, server@, resume, plan),
        r.outcome is Ok ==> final(disk)@ == server@.content,
        r.outcome matches Err(m) ==> m@ == attempt_message(plan),
{
    let ghost disk0 = disk@;
    let ghost sv = server@;

    // Resume decision and range-support probe.
    let mut write_start: usize = 0;
    let mut ranged = false;
    if resume && disk.len() > 0 {
        if server.probe_fails || server.advertises_ranges || server.honors_ranges {
            // Confirmed support, or an unanswered probe handled
            // optimistically: request the tail from the current offset.
            ranged = true;
            write_start = disk.len();
        } else {
            // The probe denies range support: appending would corrupt the
            // file, so discard the partial file and restart from zero.
            disk.clear();
        }
    }

    // Request phase.  The model server answers a ranged request with 206
    // when it honors ranges and with a full-body 200 when it does not; a
    // plain request is answered 200.
    let status: u16 = if ranged && server.honors_ranges {
        206
    } else {
        200
    };
    match classify_response_status(ranged, status) {
        ResponseAction::RestartFromZero => {
            // A ranged request answered with a full body: delete the
            // partial file, reset the offset, reissue without a range.
            disk.clear();
            write_start = 0;
            ranged = false;
        },
        ResponseAction::Proceed => {},
        ResponseAction::Fail => {
            // Unreachable: the model only answers 200 or 206.
            proof {
                assert(false);
            }
        },
    }

    // Open phase: create/truncate the destination when writing from zero,
    // open it for appending otherwise.
    if write_start == 0 {
        disk.clear();
    }
    proof {
        assert(write_start as int == attempt_write_start(disk0, sv, resume));
        assert(disk@ == if attempt_write_start(disk0, sv, resume) == 0 {
            Seq::<u8>::empty()
        } else {
            disk0
        });
    }

    // Streaming phase: persist each chunk before counting it.
    let body_len = server.content.len() - write_start;
    let serve = match plan.fail_after {
        Some(f) => if f < body_len {
            f
        } else {
            body_len
        },
        None => body_len,
    };
    let ghost pre_stream = disk@;
    let mut i: usize = 0;
    while i < serve
        invariant
            0 <= i <= serve,
            write_start + serve <= server@.content.len(),
            server@.content.len() <= usize::MAX,
            disk@ == pre_stream + server@.content.subrange(
                write_start as int,
                write_start + i as int,
            ),
        decreases serve - i,
    {
        let byte = server.content[write_start + i];
        disk.push(byte);
        proof {
            assert(disk@ =~= pre_stream + server@.content.subrange(
                write_start as int,
                write_start + i as int + 1,
            ));
        }
        i += 1;
    }
    proof {
        assert(serve as int == attempt_served(disk0, sv, resume, plan));
        assert(disk@ =~= attempt_final_disk(disk0, sv, resume, plan));
        // The result is always a prefix of the content: a restart writes a
        // prefix outright, and an append extends a file that was a prefix.
        assert(disk@ =~= sv.content.subrange(0, disk@.len() as int));
    }

    // Premature-termination check: a clean stream end does not by itself
    // prove completeness.
    let outcome: Result<(), String> = if serve < body_len {
        if plan.clean_end {
            Err("download ended prematurely".to_owned())
        } else {
            Err("connection reset by peer".to_owned())
        }
    } else {
        proof {
            assert(disk@ =~= server@.content);
        }
        Ok(())
    };
    AttemptReport { write_start, bytes_written: serve, outcome }
}

/// The final error of a download run.
#[derive(Debug)]
pub enum DownloadError {
    /// The last permitted attempt failed on a retryable error: the run gave
    /// up after exhausting its attempt budget.
    Exhausted { message: String },
    /// An attempt failed on an error not worth retrying.
    Fatal { message: String },
}

/// The plan for attempt `k`: the given entry, or an uninterrupted attempt
/// past the end of the schedule.
pub open spec fn plan_at(plan: Seq<AttemptPlan>, k: int) -> AttemptPlan {
    if 0 <= k < plan.len() {
        plan[k]
    } else {
        full_attempt()
    }
}

/// What a whole download run does, starting at attempt number `attempt`:
/// the final file contents, whether it succeeded, the number of the last
/// attempt executed, and whether a failure is wrapped as exhaustion.
pub open spec fn run_model(
    disk: Seq<u8>,
    sv: ServerSpec,
    resume_hint: bool,
    plan: Seq<AttemptPlan>,
    attempt: nat,
    max_retries: nat,
    kinds: Seq<ErrorType>,
) -> (Seq<u8>, bool, nat, bool)
    decreases max_retries - attempt,
{
    let resume_now = resume_hint || disk.len() > 0;
    let p = plan_at(plan, attempt as int);
    let disk1 = attempt_final_disk(disk, sv, resume_now, p);
    if attempt_succeeds(disk, sv, resume_now, p) {
        (disk1, true, attempt, false)
    } else {
        let retryable = retryable_chain(seq![attempt_message(p)], kinds);
        if attempt < max_retries && retryable {
            run_model(disk1, sv, resume_hint, plan, attempt + 1, max_retries, kinds)
        } else {
            (disk1, false, attempt, attempt >= max_retries)
        }
    }
}

/// A run survives its interruptions when every scheduled failure is
/// retryable and the schedule is within the attempt budget: starting from a
/// partial file that is a prefix of the content, the run succeeds and the
/// destination ends as exactly the server's content.
pub proof fn lemma_retryable_interruptions_are_survived(
    disk: Seq<u8>,
    sv: ServerSpec,
    resume_hint: bool,
    plan: Seq<AttemptPlan>,
    attempt: nat,
    max_retries: nat,
    kinds: Seq<ErrorType>,
)
    requires
        disk.len() <= sv.content.len(),
        disk == sv.content.subrange(0, disk.len() as int),
        plan.len() <= max_retries,
        attempt <= max_retries,
        forall|k: int|
            0 <= k < plan.len() ==> retryable_chain(seq![attempt_message(plan[k])], kinds),
    ensures
        run_model(disk, sv, resume_hint, plan, attempt, max_retries, kinds).1,
        run_model(disk, sv, resume_hint, plan, attempt, max_retries, kinds).0 == sv.content,
    decreases max_retries - attempt,
{
    let resume_now = resume_hint || disk.len() > 0;
    let p = plan_at(plan, attempt as int);
    let disk1 = attempt_final_disk(disk, sv, resume_now, p);
    let start = attempt_write_start(disk, sv, resume_now);
    let served = attempt_served(disk, sv, resume_now, p);
    assert(disk1.len() == start + served);
    assert(disk1 =~= sv.content.subrange(0, disk1.len() as int));
    if attempt_succeeds(disk, sv, resume_now, p) {
        assert(disk1 =~= sv.content);
    } else {
        // A failing attempt must come from the schedule: past its end every
        // attempt is uninterrupted and succeeds.
        assert(attempt < plan.len());
        assert(retryable_chain(seq![attempt_message(p)], kinds));
        lemma_retryable_interruptions_are_survived(
            disk1,
            sv,
            resume_hint,
            plan,
            attempt + 1,
            max_retries,
            kinds,
        );
    }
}

/// The connection-reset message a cut stream surfaces matches the
/// connection-reset retry kind, so any policy that enables that kind
/// retries it.
pub proof fn lemma_connection_reset_is_retryable(plan: AttemptPlan, kinds: Seq<ErrorType>)
    requires
        !plan.clean_end,
        kinds.contains(ErrorType::ConnectionReset),
    ensures
        retryable_chain(seq![attempt_message(plan)], kinds),
{
    reveal_strlit("connection reset by peer");
    reveal_strlit("connection reset");
    crate::text::lemma_prefix_occurs_ci("connection reset by peer"@, "connection reset"@);
    assert(crate::retry::message_matches_kind(attempt_message(plan), ErrorType::ConnectionReset));
    let i = choose|i: int| 0 <= i < kinds.len() && kinds[i] == ErrorType::ConnectionReset;
    assert(seq![attempt_message(plan)][0] == attempt_message(plan));
    assert(crate::retry::message_matches_kind(seq![attempt_message(plan)][0], kinds[i]));
}

/// Under any policy that retries connection resets (the default does), a
/// run whose schedule only ever cuts the stream as a connection error and
/// stays within the attempt budget always completes: the destination ends
/// as exactly the server's content.
pub proof fn lemma_connection_resets_within_budget_complete(
    disk: Seq<u8>,
    sv: ServerSpec,
    resume_hint: bool,
    plan: Seq<AttemptPlan>,
    max_retries: nat,
    kinds: Seq<ErrorType>,
)
    requires
        disk.len() <= sv.content.len(),
        disk == sv.content.subrange(0, disk.len() as int),
        plan.len() <= max_retries,
        kinds.contains(ErrorType::ConnectionReset),
        forall|k: int| 0 <= k < plan.len() ==> !plan[k].clean_end,
    ensures
        run_model(disk, sv, resume_hint, plan, 0, max_retries, kinds).1,
        run_model(disk, sv, resume_hint, plan, 0, max_retries, kinds).0 == sv.content,
{
    assert forall|k: int| 0 <= k < plan.len() implies retryable_chain(
        seq![attempt_message(plan[k])],
        kinds,
    ) by {
        lemma_connection_reset_is_retryable(plan[k], kinds);
    }
    lemma_retryable_interruptions_are_survived(disk, sv, resume_hint, plan, 0, max_retries, kinds);
}

/// Drives repeated transfer attempts against the server model: once any
/// attempt has left bytes on disk, every later attempt in the run tries to
/// resume; each failure is retried exactly when its message matches an
/// enabled retry kind and the attempt budget is not spent; a failure on the
/// last permitted attempt is wrapped as exhaustion.  Returns the number of
/// the successful attempt.
pub fn run_download(
    disk: &mut Vec<u8>,
    server: &ServerModel,
    resume_hint: bool,
    plan: &Vec<AttemptPlan>,
    manager: &RetryManager,
) -> (r: Result<u32, DownloadError>)
    requires
        old(disk)@.len() <= server@.content.len(),
        old(disk)@ == server@.content.subrange(0, old(disk)@.len() as int),
    ensures
        ({
            let m = run_model(
                old(disk)@,
                server@,
                resume_hint,
                plan@,
                0,
                manager.max_retries as nat,
                manager.retry_policy.retry_on@,
            );
            &&& final(disk)@ == m.0
            &&& (r is Ok <==> m.1)
            &&& (r matches Ok(a) ==> a as nat == m.2)
            &&& (r matches Err(e) ==> (e is Exhausted <==> m.3) && (match e {
                DownloadError::Exhausted { message } => message@,
                DownloadError::Fatal { message } => message@,
            }) == attempt_message(plan_at(plan@, m.2 as int)))
        }),
        r is Ok ==> final(disk)@ == server@.content,
{
    let ghost m = run_model(
        old(disk)@,
        server@,
        resume_hint,
        plan@,
        0,
        manager.max_retries as nat,
        manager.retry_policy.retry_on@,
    );
    let mut attempt: u32 = 0;
    loop
        invariant
            attempt <= manager.max_retries,
            disk@.len() <= server@.content.len(),
            disk@ == server@.content.subrange(0, disk@.len() as int),
            m == run_model(
                old(disk)@,
                server@,
                resume_hint,
                plan@,
                0,
                manager.max_retries as nat,
                manager.retry_policy.retry_on@,
            ),
            m == run_model(
                disk@,
                server@,
                resume_hint,
                plan@,
                attempt as nat,
                manager.max_retries as nat,
                manager.retry_policy.retry_on@,
            ),
        decreases manager.max_retries - attempt,
    {
        let resume_now = resume_hint || disk.len() > 0;
        let idx = attempt as usize;
        let p = if idx < plan.len() {
            plan[idx]
        } else {
            AttemptPlan { fail_after: None, clean_end: false }
        };
        proof {
            assert(p == plan_at(plan@, attempt as int));
        }
        let report = run_attempt(disk, server, resume_now, p);
        match report.outcome {
            Ok(()) => {
                return Ok(attempt);
            },
            Err(message) => {
                let chain = vec![message.clone()];
                proof {
                    assert(chain.deep_view() =~= seq![attempt_message(p)]);
                }
                let retryable = manager.should_retry(&chain);
                if attempt < manager.max_retries && retryable {
                    // The real driver emits a retry notification and sleeps
                    // for the jittered backoff delay here; neither changes
                    // the file or the decision state.
                    attempt += 1;
                } else if attempt >= manager.max_retries {
                    return Err(DownloadError::Exhausted { message });
                } else {
                    return Err(DownloadError::Fatal { message });
                }
            },
        }
    }
}

} // verus!
