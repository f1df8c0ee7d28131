//! One run or submit attempt: the checks made before any call, the request
//! that is sent, and the poll-until-terminal protocol that follows.

use vstd::prelude::*;
use crate::config::{language_named, Config, Language, language_from_name};
use crate::extract::{extract_rust_solution, rust_extraction};
use crate::text::{join_with, push_char, same_text};
use crate::types::QuestionDetail;

verus! {

/// Whether an attempt runs the sample tests or submits for judging.
#[derive(Clone, Copy, Debug, PartialEq, Eq, Structural)]
pub enum JobKind {
    Run,
    Submit,
}

/// The judge's report on a job.
pub struct CheckResponse {
    /// `SUCCESS` once the job is judged; anything else while it is not.
    pub state: String,
    pub status_msg: String,
    pub run_success: bool,
    pub total_correct: Option<u32>,
    pub total_testcases: Option<u32>,
    pub runtime: Option<String>,
    pub memory: Option<String>,
    pub compile_message: Option<String>,
    pub runtime_error: Option<String>,
    pub code_answer: Vec<String>,
    pub expected_code_answer: Vec<String>,
}

/// The report carries a verdict.
pub open spec fn is_verdict(c: CheckResponse) -> bool {
    c.state@ == "SUCCESS"@
}

/// Whether the report carries a verdict.
pub fn has_verdict(c: &CheckResponse) -> (r: bool)
    ensures
        r == is_verdict(*c),
{
    same_text(c.state.as_str(), "SUCCESS")
}

/// What is sent to the judge to start a job.
pub struct JudgeRequest {
    pub kind: JobKind,
    pub slug: String,
    pub question_id: String,
    pub lang: String,
    pub code: String,
    /// The sample input of a run; a submission carries none.
    pub data_input: Option<String>,
}

/// Why an attempt stopped before anything was sent.
pub enum AttemptError {
    NoConfig,
    AuthenticationRequired,
    UnsupportedLanguage(String),
    /// The solution file is missing or unreadable.
    NotFound(String),
    /// No problem is on show to attempt.
    NoProblem,
}

/// The outcome of the checks made before any call.
pub open spec fn preconditions(config: Option<Config>) -> Result<Language, AttemptError> {
    match config {
        None => Err(AttemptError::NoConfig),
        Some(c) => if !c.authenticated() {
            Err(AttemptError::AuthenticationRequired)
        } else {
            match language_named(c.language@) {
                Some(l) => Ok(l),
                None => Err(AttemptError::UnsupportedLanguage(c.language)),
            }
        },
    }
}

/// The checks made before any call: settings exist, both session tokens
/// are present, and the language is a supported one.
pub fn check_preconditions(config: &Option<Config>) -> (r: Result<Language, AttemptError>)
    ensures
        r == preconditions(*config),
{
    match config {
        None => Err(AttemptError::NoConfig),
        Some(c) => {
            if !c.is_authenticated() {
                Err(AttemptError::AuthenticationRequired)
            } else {
                match language_from_name(c.language.as_str()) {
                    Some(l) => Ok(l),
                    None => Err(AttemptError::UnsupportedLanguage(c.language.clone())),
                }
            }
        },
    }
}

pub open spec fn views(v: Seq<String>) -> Seq<Seq<char>> {
    v.map_values(|s: String| s@)
}

/// The input of a run: the example test cases one per line, else the
/// sample test case, else nothing.
pub open spec fn sample_input_spec(d: QuestionDetail) -> Seq<char> {
    if d.example_testcase_list is Some && d.example_testcase_list->0@.len() > 0 {
        join_with(views(d.example_testcase_list->0@), seq!['\n'])
    } else if d.sample_test_case is Some {
        d.sample_test_case->0@
    } else {
        Seq::empty()
    }
}

/// Joins lines with a newline between neighbours.
pub fn join_lines(lines: &Vec<String>) -> (r: String)
    ensures
        r@ == join_with(views(lines@), seq!['\n']),
{
    let mut out = String::new();
    let mut i: usize = 0;
    while i < lines.len()
        invariant
            i <= lines@.len(),
            out@ == join_with(views(lines@.subrange(0, i as int)), seq!['\n']),
        decreases lines.len() - i,
    {
        let ghost pre = views(lines@.subrange(0, i as int));
        let ghost next = views(lines@.subrange(0, i + 1));
        assert(next =~= pre.push(lines@[i as int]@));
        assert(next.drop_last() =~= pre);
        if i > 0 {
            push_char(&mut out, '\n');
        } else {
            assert(pre.len() == 0);
        }
        out.append(lines[i].as_str());
        i = i + 1;
    }
    assert(lines@.subrange(0, lines@.len() as int) =~= lines@);
    out
}

/// The input of a run of this problem.
pub fn sample_input(detail: &QuestionDetail) -> (r: String)
    ensures
        r@ == sample_input_spec(*detail),
{
    match &detail.example_testcase_list {
        Some(v) => {
            if v.len() > 0 {
                return join_lines(v);
            }
        },
        None => {},
    }
    match &detail.sample_test_case {
        Some(s) => s.clone(),
        None => String::new(),
    }
}

/// The code sent for a solution file's text: for Rust, the extracted
/// snippet; for other languages, the file as it is.
pub open spec fn submitted_code(language: Language, text: Seq<char>) -> Seq<char> {
    if language == Language::Rust {
        rust_extraction(text)
    } else {
        text
    }
}

/// `q` is the request of an attempt of `kind` on `d` in `language`, for
/// a solution file holding `text`.
pub open spec fn request_for(
    q: JudgeRequest,
    kind: JobKind,
    d: QuestionDetail,
    language: Language,
    text: Seq<char>,
) -> bool {
    &&& q.kind == kind
    &&& q.slug == d.title_slug
    &&& q.question_id == d.question_id
    &&& q.lang@ == language.slug_spec()
    &&& q.code@ == submitted_code(language, text)
    &&& if kind == JobKind::Run {
        q.data_input matches Some(s) && s@ == sample_input_spec(d)
    } else {
        q.data_input is None
    }
}

/// The request for an attempt, from the solution file's text as read from
/// `path` (none where it could not be read).
pub fn build_request(
    kind: JobKind,
    detail: &QuestionDetail,
    language: Language,
    file_text: Option<String>,
    path: &str,
) -> (r: Result<JudgeRequest, AttemptError>)
    ensures
        file_text is None ==> (r matches Err(AttemptError::NotFound(p)) && p@ == path@),
        file_text matches Some(t) ==> (r matches Ok(q) && request_for(q, kind, *detail, language, t@)),
{
    match file_text {
        None => Err(AttemptError::NotFound(String::from_str(path))),
        Some(text) => {
            let code = if language == Language::Rust {
                extract_rust_solution(text.as_str())
            } else {
                text
            };
            let data_input = if kind == JobKind::Run {
                Some(sample_input(detail))
            } else {
                None
            };
            Ok(JudgeRequest {
                kind,
                slug: detail.title_slug.clone(),
                question_id: detail.question_id.clone(),
                lang: String::from_str(language.lang_slug()),
                code,
                data_input,
            })
        },
    }
}

/// Where a job stands. Phases only move forward.
pub enum JobPhase {
    /// Nothing sent yet.
    Idle,
    /// The request is sent; no job id yet.
    Submitted,
    /// The judge accepted the job under this id and is being polled.
    Polling(String),
    Completed(CheckResponse),
    Failed(String),
}

/// What the judge's side reported back.
pub enum JobEvent {
    /// The request was accepted under this job id.
    Accepted(String),
    /// The request could not be sent or was refused.
    SendFailed(String),
    /// A poll's answer.
    Status(CheckResponse),
    /// A poll could not be made.
    PollFailed(String),
}

/// What the protocol asks for next.
pub enum JobAction {
    /// Send the request.
    Send(JudgeRequest),
    /// Ask for the job's status.
    Poll(String),
    /// The job is over; its outcome is in its phase.
    Finished,
    /// Nothing to do.
    Wait,
}

/// One attempt, with the calls it made and the outcomes it reported.
pub struct JudgeJob {
    pub phase: JobPhase,
    pub send_calls: u64,
    pub poll_calls: u64,
    pub reports: u64,
}

pub open spec fn bump(n: u64) -> u64 {
    if n < u64::MAX {
        (n + 1) as u64
    } else {
        n
    }
}

fn bump_exec(n: u64) -> (r: u64)
    ensures
        r == bump(n),
{
    if n < u64::MAX {
        n + 1
    } else {
        n
    }
}

/// The job after an event, and what it asks for.
pub open spec fn job_step(j: JudgeJob, e: JobEvent) -> (JudgeJob, JobAction) {
    match (j.phase, e) {
        (JobPhase::Submitted, JobEvent::Accepted(id)) => (
            JudgeJob { phase: JobPhase::Polling(id), poll_calls: bump(j.poll_calls), ..j },
            JobAction::Poll(id),
        ),
        (JobPhase::Submitted, JobEvent::SendFailed(m)) => (
            JudgeJob { phase: JobPhase::Failed(m), reports: bump(j.reports), ..j },
            JobAction::Finished,
        ),
        (JobPhase::Polling(id), JobEvent::Status(c)) => if is_verdict(c) {
            (
                JudgeJob { phase: JobPhase::Completed(c), reports: bump(j.reports), ..j },
                JobAction::Finished,
            )
        } else {
            (JudgeJob { poll_calls: bump(j.poll_calls), ..j }, JobAction::Poll(id))
        },
        (JobPhase::Polling(_), JobEvent::PollFailed(m)) => (
            JudgeJob { phase: JobPhase::Failed(m), reports: bump(j.reports), ..j },
            JobAction::Finished,
        ),
        _ => (j, JobAction::Wait),
    }
}

/// A job that has sent nothing yet.
pub open spec fn fresh_job() -> JudgeJob {
    JudgeJob { phase: JobPhase::Idle, send_calls: 0, poll_calls: 0, reports: 0 }
}

/// The job once its request is sent.
pub open spec fn job_start(j: JudgeJob) -> JudgeJob {
    JudgeJob { phase: JobPhase::Submitted, send_calls: bump(j.send_calls), ..j }
}

/// The job after a sequence of events.
pub open spec fn job_after(j: JudgeJob, events: Seq<JobEvent>) -> JudgeJob
    decreases events.len(),
{
    if events.len() == 0 {
        j
    } else {
        job_after(job_step(j, events[0]).0, events.drop_first())
    }
}

impl JudgeJob {
    /// A job that has sent nothing yet.
    pub fn new() -> (r: Self)
        ensures
            r == fresh_job(),
    {
        JudgeJob { phase: JobPhase::Idle, send_calls: 0, poll_calls: 0, reports: 0 }
    }

    /// Starts the job: the request is to be sent.
    pub fn start(&mut self, request: JudgeRequest) -> (r: JobAction)
        requires
            old(self).phase is Idle,
        ensures
            *final(self) == job_start(*old(self)),
            r == JobAction::Send(request),
    {
        self.phase = JobPhase::Submitted;
        self.send_calls = bump_exec(self.send_calls);
        JobAction::Send(request)
    }

    /// Takes in what the judge's side reported.
    pub fn on_event(&mut self, event: JobEvent) -> (r: JobAction)
        ensures
            (*final(self), r) == job_step(*old(self), event),
    {
        let mut phase = JobPhase::Idle;
        std::mem::swap(&mut phase, &mut self.phase);
        match (phase, event) {
            (JobPhase::Submitted, JobEvent::Accepted(id)) => {
                self.phase = JobPhase::Polling(id.clone());
                self.poll_calls = bump_exec(self.poll_calls);
                JobAction::Poll(id)
            },
            (JobPhase::Submitted, JobEvent::SendFailed(m)) => {
                self.phase = JobPhase::Failed(m);
                self.reports = bump_exec(self.reports);
                JobAction::Finished
            },
            (JobPhase::Polling(id), JobEvent::Status(c)) => {
                if has_verdict(&c) {
                    self.phase = JobPhase::Completed(c);
                    self.reports = bump_exec(self.reports);
                    JobAction::Finished
                } else {
                    let next = id.clone();
                    self.phase = JobPhase::Polling(id);
                    self.poll_calls = bump_exec(self.poll_calls);
                    JobAction::Poll(next)
                }
            },
            (JobPhase::Polling(_), JobEvent::PollFailed(m)) => {
                self.phase = JobPhase::Failed(m);
                self.reports = bump_exec(self.reports);
                JobAction::Finished
            },
            (p, _) => {
                self.phase = p;
                JobAction::Wait
            },
        }
    }
}

/// Poll answers, as events.
pub open spec fn status_events(answers: Seq<CheckResponse>) -> Seq<JobEvent> {
    answers.map_values(|c: CheckResponse| JobEvent::Status(c))
}

proof fn lemma_pending_polls(j: JudgeJob, pending: Seq<CheckResponse>, last: CheckResponse)
    requires
        j.phase is Polling,
        forall|i: int| 0 <= i < pending.len() ==> !is_verdict(#[trigger] pending[i]),
        is_verdict(last),
        j.poll_calls + pending.len() < u64::MAX,
    ensures
        job_after(j, status_events(pending).push(JobEvent::Status(last))) == (JudgeJob {
            phase: JobPhase::Completed(last),
            poll_calls: (j.poll_calls + pending.len()) as u64,
            reports: bump(j.reports),
            ..j
        }),
    decreases pending.len(),
{
    let evs = status_events(pending).push(JobEvent::Status(last));
    if pending.len() == 0 {
        let f = job_step(j, JobEvent::Status(last)).0;
        assert(evs.drop_first() =~= Seq::<JobEvent>::empty());
        assert(job_after(f, evs.drop_first()) == f);
    } else {
        let j1 = job_step(j, JobEvent::Status(pending[0])).0;
        let rest = pending.drop_first();
        assert forall|i: int| 0 <= i < rest.len() implies !is_verdict(#[trigger] rest[i]) by {
            assert(rest[i] == pending[i + 1]);
        }
        lemma_pending_polls(j1, rest, last);
        assert(evs.drop_first() =~= status_events(rest).push(JobEvent::Status(last)));
    }
}

/// A job that the judge accepts and that reports a verdict at the
/// `n`-th poll (`n - 1` answers without one before it) has made exactly
/// one send call and `n` poll calls, and reported exactly one outcome;
/// later events change nothing.
pub proof fn lemma_polls_until_verdict(
    id: String,
    pending: Seq<CheckResponse>,
    last: CheckResponse,
)
    requires
        forall|i: int| 0 <= i < pending.len() ==> !is_verdict(#[trigger] pending[i]),
        is_verdict(last),
        pending.len() + 1 < u64::MAX,
    ensures
        ({
            let fresh = fresh_job();
            let events = seq![JobEvent::Accepted(id)] + status_events(pending).push(
                JobEvent::Status(last),
            );
            let f = job_after(job_start(fresh), events);
            &&& f.send_calls == 1
            &&& f.poll_calls == pending.len() + 1
            &&& f.reports == 1
            &&& f.phase == JobPhase::Completed(last)
            &&& forall|e: JobEvent| #[trigger] job_step(f, e) == (f, JobAction::Wait)
        }),
{
    let fresh = fresh_job();
    let tail = status_events(pending).push(JobEvent::Status(last));
    let events = seq![JobEvent::Accepted(id)] + tail;
    let s = job_start(fresh);
    let j1 = job_step(s, JobEvent::Accepted(id)).0;
    assert(events.drop_first() =~= tail);
    lemma_pending_polls(j1, pending, last);
}

} // verus!
