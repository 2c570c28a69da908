//! One check category as a state machine: measure the baseline, probe the
//! attack requests in order, confirm the first signal, score it, and stop.
//!
//! The machine sends nothing itself. It says which request is to be sent next
//! and is told what came back; whoever drives it does the sending.

use vstd::prelude::*;
use vstd::string::*;
use crate::baseline::{baseline_of, summarize_baseline, BaselineSample, SampleView, sample_views};
use crate::scanner::{
    classify_response, confidence_of, confirms, connection_timeout_signal, is_confirmed,
    score_confidence, signal_of_response, signal_view, timeout_signal, BaselineMeasurement,
    BaselineView,
    Confidence, SignalView, VulnerabilitySignal, BASELINE_SAMPLES, CONFIRM_RETRIES,
};
use crate::error::SmugglexError;
use crate::model::{CheckResult, CheckResultView};
use crate::scanner::CheckParams;
use crate::text::{first_line_of, text_of, texts_of};
use crate::utils::{
    benign_request, benign_request_of, export_file_name, export_file_name_of, first_line,
    timestamp_now,
};

verus! {

/// The numbers that govern one check category.
#[derive(Debug, Clone, Copy)]
pub struct Settings {
    /// The time budget of each request, in seconds.
    pub timeout_secs: u64,
    /// How many benign requests the baseline is measured from.
    pub baseline_samples: usize,
    /// How often a request that gave a signal is sent again.
    pub confirm_retries: usize,
}

impl Settings {
    /// A baseline needs at least one sample.
    pub open spec fn valid(self) -> bool {
        self.baseline_samples >= 1
    }

    /// The settings that the scanner uses: three samples, two retries.
    pub fn new(timeout_secs: u64) -> (s: Settings)
        ensures
            s.timeout_secs == timeout_secs,
            s.baseline_samples == BASELINE_SAMPLES,
            s.confirm_retries == CONFIRM_RETRIES,
            s.valid(),
    {
        Settings {
            timeout_secs,
            baseline_samples: BASELINE_SAMPLES,
            confirm_retries: CONFIRM_RETRIES,
        }
    }
}

/// What became of one request.
#[derive(Debug)]
pub enum ProbeOutcome {
    /// The response was read to its end.
    Response { text: String, duration_ms: u128 },
    /// The request ran into its time budget.
    TimedOut,
    /// The request failed for another reason.
    Failed,
}

/// The mathematical content of a `ProbeOutcome`.
pub enum OutcomeView {
    Response { text: Seq<char>, duration_ms: nat },
    TimedOut,
    Failed,
}

impl View for ProbeOutcome {
    type V = OutcomeView;

    open spec fn view(&self) -> OutcomeView {
        match self {
            ProbeOutcome::Response { text, duration_ms } => OutcomeView::Response {
                text: text@,
                duration_ms: *duration_ms as nat,
            },
            ProbeOutcome::TimedOut => OutcomeView::TimedOut,
            ProbeOutcome::Failed => OutcomeView::Failed,
        }
    }
}

/// What the result of the transport means to the machine: a response, a
/// timeout, or another failure.
pub open spec fn outcome_of(result: Result<(String, u128), SmugglexError>) -> OutcomeView {
    match result {
        Ok(exchange) => OutcomeView::Response {
            text: exchange.0@,
            duration_ms: exchange.1 as nat,
        },
        Err(e) => if e is Timeout {
            OutcomeView::TimedOut
        } else {
            OutcomeView::Failed
        },
    }
}

impl ProbeOutcome {
    /// Reads the result of the transport: the response text and the
    /// duration in milliseconds, or the error.
    pub fn from_result(result: &Result<(String, u128), SmugglexError>) -> (outcome: ProbeOutcome)
        ensures
            outcome@ == outcome_of(*result),
    {
        match result {
            Ok(exchange) => ProbeOutcome::Response {
                text: exchange.0.clone(),
                duration_ms: exchange.1,
            },
            Err(e) => if e.is_timeout() {
                ProbeOutcome::TimedOut
            } else {
                ProbeOutcome::Failed
            },
        }
    }
}

/// A confirmed and scored signal.
#[derive(Debug, Clone)]
pub struct Finding {
    /// The place of the request in the list of attack requests.
    pub payload_index: usize,
    /// The first signal that the request gave.
    pub signal: VulnerabilitySignal,
    /// The confidence given to the signal.
    pub confidence: Confidence,
}

/// The mathematical content of a `Finding`.
pub struct FindingView {
    pub payload_index: nat,
    pub signal: SignalView,
    pub confidence: Confidence,
}

impl View for Finding {
    type V = FindingView;

    open spec fn view(&self) -> FindingView {
        FindingView {
            payload_index: self.payload_index as nat,
            signal: self.signal@,
            confidence: self.confidence,
        }
    }
}

/// Where a check category stands.
#[derive(Debug)]
pub enum Phase {
    /// The baseline is being measured; before the first sample this is the idle state.
    Measuring { samples: Vec<BaselineSample> },
    /// The attack request at `index` has been or is to be sent for the first time.
    Probing { baseline: BaselineMeasurement, index: usize },
    /// The attack request at `index` gave `signal` and is being sent again.
    Confirming {
        baseline: BaselineMeasurement,
        index: usize,
        signal: VulnerabilitySignal,
        done: usize,
        reproduced: usize,
    },
    /// The category is finished, with a confirmed and scored signal or without.
    Done { baseline: BaselineMeasurement, finding: Option<Finding> },
    /// No baseline could be measured.
    Aborted,
}

/// The mathematical content of a `Phase`.
pub enum PhaseView {
    Measuring { samples: Seq<SampleView> },
    Probing { baseline: BaselineView, index: nat },
    Confirming { baseline: BaselineView, index: nat, signal: SignalView, done: nat, reproduced: nat },
    Done { baseline: BaselineView, finding: Option<FindingView> },
    Aborted,
}

impl View for Phase {
    type V = PhaseView;

    open spec fn view(&self) -> PhaseView {
        match self {
            Phase::Measuring { samples } => PhaseView::Measuring { samples: sample_views(samples@) },
            Phase::Probing { baseline, index } => PhaseView::Probing {
                baseline: baseline@,
                index: *index as nat,
            },
            Phase::Confirming { baseline, index, signal, done, reproduced } => PhaseView::Confirming {
                baseline: baseline@,
                index: *index as nat,
                signal: signal@,
                done: *done as nat,
                reproduced: *reproduced as nat,
            },
            Phase::Done { baseline, finding } => PhaseView::Done {
                baseline: baseline@,
                finding: match finding {
                    Some(f) => Some(f@),
                    None => None,
                },
            },
            Phase::Aborted => PhaseView::Aborted,
        }
    }
}

/// What is to be done next.
#[derive(Debug, Clone, Copy, PartialEq, Eq, Structural)]
pub enum Action {
    /// Send the benign request.
    SendBaseline,
    /// Send the attack request at `index`.
    SendAttack { index: usize },
    /// Nothing is left to send: the result can be read.
    Finish,
    /// Give up: the last outcome is the reason.
    Abort,
}

/// A phase is well formed for a list of `candidates` attack requests.
pub open spec fn phase_wf(settings: Settings, candidates: nat, phase: PhaseView) -> bool {
    match phase {
        PhaseView::Measuring { samples } => samples.len() < settings.baseline_samples,
        PhaseView::Probing { baseline, index } => index < candidates,
        PhaseView::Confirming { baseline, index, signal, done, reproduced } => {
            &&& index < candidates
            &&& reproduced <= done < settings.confirm_retries
        },
        PhaseView::Done { baseline, finding } => finding matches Some(f) ==> f.payload_index
            < candidates,
        PhaseView::Aborted => true,
    }
}

/// The phase in which the request at `next` is tried, or the end of the
/// category where the list is exhausted.
pub open spec fn advance(candidates: nat, baseline: BaselineView, next: nat) -> PhaseView {
    if next < candidates {
        PhaseView::Probing { baseline, index: next }
    } else {
        PhaseView::Done { baseline, finding: None }
    }
}

/// The phase after the last retry: the signal is reported where the retries
/// confirm it, else the next request is tried.
pub open spec fn decide(
    settings: Settings,
    candidates: nat,
    baseline: BaselineView,
    index: nat,
    signal: SignalView,
    reproduced: nat,
) -> PhaseView {
    if confirms(signal.is_connection_timeout, reproduced, settings.confirm_retries as nat) {
        PhaseView::Done {
            baseline,
            finding: Some(
                FindingView {
                    payload_index: index,
                    signal,
                    confidence: confidence_of(signal, baseline.duration_ms),
                },
            ),
        }
    } else {
        advance(candidates, baseline, index + 1)
    }
}

/// The signal that the outcome of a first attempt gives. A timeout is a
/// signal of its own; another failure is none.
pub open spec fn first_signal(
    settings: Settings,
    baseline: BaselineView,
    outcome: OutcomeView,
) -> Option<SignalView> {
    match outcome {
        OutcomeView::Response { text, duration_ms } => signal_of_response(
            first_line_of(text),
            duration_ms,
            baseline,
        ),
        OutcomeView::TimedOut => Some(timeout_signal(settings.timeout_secs as nat)),
        OutcomeView::Failed => None,
    }
}

/// The outcome of a retry gives a signal again, of whichever kind.
pub open spec fn reproduces(settings: Settings, baseline: BaselineView, outcome: OutcomeView) -> bool {
    first_signal(settings, baseline, outcome) is Some
}

/// The transition function: the phase that follows `phase` once the request
/// that `phase` asked for has had `outcome`.
pub open spec fn next_phase(
    settings: Settings,
    candidates: nat,
    phase: PhaseView,
    outcome: OutcomeView,
) -> PhaseView {
    match phase {
        PhaseView::Measuring { samples } => match outcome {
            OutcomeView::Response { text, duration_ms } => {
                let collected = samples.push(
                    SampleView { status_line: first_line_of(text), duration_ms },
                );
                if collected.len() >= settings.baseline_samples {
                    advance(candidates, baseline_of(collected), 0)
                } else {
                    PhaseView::Measuring { samples: collected }
                }
            },
            _ => PhaseView::Aborted,
        },
        PhaseView::Probing { baseline, index } => match first_signal(settings, baseline, outcome) {
            Some(signal) => if settings.confirm_retries == 0 {
                decide(settings, candidates, baseline, index, signal, 0)
            } else {
                PhaseView::Confirming { baseline, index, signal, done: 0, reproduced: 0 }
            },
            None => advance(candidates, baseline, index + 1),
        },
        PhaseView::Confirming { baseline, index, signal, done, reproduced } => {
            let again: nat = if reproduces(settings, baseline, outcome) {
                reproduced + 1
            } else {
                reproduced
            };
            if done + 1 >= settings.confirm_retries {
                decide(settings, candidates, baseline, index, signal, again)
            } else {
                PhaseView::Confirming { baseline, index, signal, done: done + 1, reproduced: again }
            }
        },
        PhaseView::Done { baseline, finding } => phase,
        PhaseView::Aborted => phase,
    }
}

/// What a phase asks for.
pub open spec fn action_for(phase: PhaseView) -> Action {
    match phase {
        PhaseView::Measuring { samples } => Action::SendBaseline,
        PhaseView::Probing { baseline, index } => Action::SendAttack { index: index as usize },
        PhaseView::Confirming { baseline, index, signal, done, reproduced } => Action::SendAttack {
            index: index as usize,
        },
        PhaseView::Done { baseline, finding } => Action::Finish,
        PhaseView::Aborted => Action::Abort,
    }
}

/// The low 64 bits of a number of milliseconds: what a result records.
pub open spec fn recorded_ms(ms: nat) -> nat {
    ms % 0x1_0000_0000_0000_0000
}

/// Cuts a number of milliseconds down to its low 64 bits.
pub fn record_ms(ms: u128) -> (r: u64)
    ensures
        r == recorded_ms(ms as nat),
{
    let r = #[verifier::truncate] (ms as u64);
    assert(r as u128 == ms % 0x1_0000_0000_0000_0000u128) by (bit_vector)
        requires
            r == ms as u64,
    ;
    r
}

/// The result that a finished category reports.
pub open spec fn result_of(
    check_name: Seq<char>,
    requests: Seq<Seq<char>>,
    baseline: BaselineView,
    finding: Option<FindingView>,
    timestamp: Seq<char>,
) -> CheckResultView {
    match finding {
        Some(f) => CheckResultView {
            check_type: check_name,
            vulnerable: true,
            payload_index: Some(f.payload_index),
            normal_status: baseline.status,
            attack_status: Some(f.signal.status_line),
            normal_duration_ms: recorded_ms(baseline.duration_ms),
            attack_duration_ms: Some(recorded_ms(f.signal.duration_ms)),
            timestamp,
            payload: Some(requests[f.payload_index as int]),
            confidence: Some(f.confidence),
        },
        None => CheckResultView {
            check_type: check_name,
            vulnerable: false,
            payload_index: None,
            normal_status: baseline.status,
            attack_status: None,
            normal_duration_ms: recorded_ms(baseline.duration_ms),
            attack_duration_ms: None,
            timestamp,
            payload: None,
            confidence: None,
        },
    }
}

/// A result is vulnerable exactly when the category ended with a finding,
/// and it then names the request, the signal and the confidence of that
/// finding; a result that is not vulnerable names none of them.
pub proof fn law_result_reports_the_finding(
    check_name: Seq<char>,
    requests: Seq<Seq<char>>,
    baseline: BaselineView,
    finding: Option<FindingView>,
    timestamp: Seq<char>,
)
    ensures
        ({
            let result = result_of(check_name, requests, baseline, finding, timestamp);
            &&& result.consistent()
            &&& result.vulnerable == finding is Some
            &&& result.attack_duration_ms is Some == finding is Some
            &&& result.check_type == check_name
            &&& result.normal_status == baseline.status
            &&& result.timestamp == timestamp
            &&& finding matches Some(f) ==> {
                &&& result.payload_index == Some(f.payload_index)
                &&& result.attack_status == Some(f.signal.status_line)
                &&& result.payload == Some(requests[f.payload_index as int])
                &&& result.confidence == Some(f.confidence)
            }
        }),
{
}

/// The request that a phase asks to be sent, if any.
pub open spec fn request_for(
    path: Seq<char>,
    host: Seq<char>,
    requests: Seq<Seq<char>>,
    phase: PhaseView,
) -> Option<Seq<char>> {
    match phase {
        PhaseView::Measuring { samples } => Some(benign_request_of(path, host)),
        PhaseView::Probing { baseline, index } => Some(requests[index as int]),
        PhaseView::Confirming { baseline, index, signal, done, reproduced } => Some(
            requests[index as int],
        ),
        PhaseView::Done { baseline, finding } => None,
        PhaseView::Aborted => None,
    }
}

/// How many attack requests a phase has taken up: those before the current
/// one and the current one; after a finding, those up to the winning one.
pub open spec fn tried(candidates: nat, phase: PhaseView) -> nat {
    match phase {
        PhaseView::Measuring { samples } => 0,
        PhaseView::Probing { baseline, index } => index + 1,
        PhaseView::Confirming { baseline, index, signal, done, reproduced } => index + 1,
        PhaseView::Done { baseline, finding } => match finding {
            Some(f) => f.payload_index + 1,
            None => candidates,
        },
        PhaseView::Aborted => 0,
    }
}

/// The file that the winning request of a finished category is written to.
#[derive(Debug)]
pub struct ExportJob {
    /// The name of the file.
    pub file_name: String,
    /// What is written to it.
    pub payload: String,
}

/// One check category in progress.
#[derive(Debug)]
pub struct Engine<'a> {
    params: CheckParams<'a>,
    settings: Settings,
    phase: Phase,
}

impl<'a> Engine<'a> {
    /// What holds of every engine: its settings are valid, its time budget is
    /// that of its parameters, and its phase is well formed for its requests.
    #[verifier::type_invariant]
    spec fn well_formed(self) -> bool {
        &&& self.settings.valid()
        &&& self.settings.timeout_secs == self.params.timeout
        &&& phase_wf(self.settings, self.params.attack_requests@.len(), self.phase@)
    }

    /// The numbers that govern the category.
    pub closed spec fn settings(self) -> Settings {
        self.settings
    }

    /// What the category was started with.
    pub closed spec fn params(self) -> CheckParams<'a> {
        self.params
    }

    /// How many attack requests there are.
    pub open spec fn candidates(self) -> nat {
        self.params().attack_requests@.len()
    }

    /// Where the category stands.
    pub closed spec fn phase(self) -> PhaseView {
        self.phase@
    }

    /// Starts a category with three baseline samples and two retries.
    pub fn new(params: CheckParams<'a>) -> (engine: Engine<'a>)
        ensures
            engine.params() == params,
            engine.settings().timeout_secs == params.timeout,
            engine.settings().baseline_samples == BASELINE_SAMPLES,
            engine.settings().confirm_retries == CONFIRM_RETRIES,
            engine.phase() == (PhaseView::Measuring { samples: Seq::empty() }),
    {
        let settings = Settings::new(params.timeout);
        let samples: Vec<BaselineSample> = Vec::new();
        assert(sample_views(samples@) == Seq::<SampleView>::empty());
        Engine { params, settings, phase: Phase::Measuring { samples } }
    }

    /// Starts a category with a number of baseline samples and of retries of
    /// the caller's choice. Without a sample no baseline can be measured: with
    /// `baseline_samples == 0` there is no engine.
    pub fn with_counts(
        params: CheckParams<'a>,
        baseline_samples: usize,
        confirm_retries: usize,
    ) -> (engine: Option<Engine<'a>>)
        ensures
            engine.is_some() == (baseline_samples >= 1),
            engine matches Some(e) ==> {
                &&& e.params() == params
                &&& e.settings() == (Settings {
                    timeout_secs: params.timeout,
                    baseline_samples,
                    confirm_retries,
                })
                &&& e.phase() == (PhaseView::Measuring { samples: Seq::empty() })
            },
    {
        if baseline_samples == 0 {
            return None;
        }
        let settings = Settings { timeout_secs: params.timeout, baseline_samples, confirm_retries };
        let samples: Vec<BaselineSample> = Vec::new();
        assert(sample_views(samples@) == Seq::<SampleView>::empty());
        Some(Engine { params, settings, phase: Phase::Measuring { samples } })
    }

    /// What is to be done next.
    pub fn action(&self) -> (a: Action)
        ensures
            a == action_for(self.phase()),
            phase_wf(self.settings(), self.candidates(), self.phase()),
            self.settings().valid(),
    {
        proof {
            use_type_invariant(self);
        }
        match &self.phase {
            Phase::Measuring { .. } => Action::SendBaseline,
            Phase::Probing { index, .. } => Action::SendAttack { index: *index },
            Phase::Confirming { index, .. } => Action::SendAttack { index: *index },
            Phase::Done { .. } => Action::Finish,
            Phase::Aborted => Action::Abort,
        }
    }

    /// Takes the outcome of the request that was asked for, and says what is
    /// to be done next.
    pub fn step(self, outcome: &ProbeOutcome) -> (next: (Engine<'a>, Action))
        ensures
            next.0.params() == self.params(),
            next.0.settings() == self.settings(),
            next.0.phase() == next_phase(
                self.settings(),
                self.candidates(),
                self.phase(),
                outcome@,
            ),
            next.1 == action_for(next.0.phase()),
    {
        proof {
            use_type_invariant(&self);
        }
        let Engine { params, settings, phase } = self;
        let candidates = params.attack_requests.len();
        let after = match phase {
            Phase::Measuring { samples } => measure(&settings, candidates, samples, outcome),
            Phase::Probing { baseline, index } => {
                match read_signal(&settings, &baseline, outcome) {
                    Some(signal) => {
                        if settings.confirm_retries == 0 {
                            decide_on(&settings, candidates, baseline, index, signal, 0)
                        } else {
                            Phase::Confirming { baseline, index, signal, done: 0, reproduced: 0 }
                        }
                    },
                    None => advance_to(candidates, baseline, index + 1),
                }
            },
            Phase::Confirming { baseline, index, signal, done, reproduced } => {
                let again = if read_signal(&settings, &baseline, outcome).is_some() {
                    reproduced + 1
                } else {
                    reproduced
                };
                if done + 1 >= settings.confirm_retries {
                    decide_on(&settings, candidates, baseline, index, signal, again)
                } else {
                    Phase::Confirming { baseline, index, signal, done: done + 1, reproduced: again }
                }
            },
            Phase::Done { baseline, finding } => Phase::Done { baseline, finding },
            Phase::Aborted => Phase::Aborted,
        };
        proof {
            lemma_next_phase_wf(settings, candidates as nat, phase@, outcome@);
        }
        let engine = Engine { params, settings, phase: after };
        let action = engine.action();
        (engine, action)
    }

    /// The request that is to be sent next, if any.
    pub fn request(&self) -> (text: Option<String>)
        ensures
            text_of(text) == request_for(
                self.params().path@,
                self.params().host@,
                texts_of(self.params().attack_requests@),
                self.phase(),
            ),
    {
        proof {
            use_type_invariant(self);
        }
        match &self.phase {
            Phase::Measuring { .. } => Some(benign_request(self.params.path, self.params.host)),
            Phase::Probing { index, .. } => Some(self.params.attack_requests[*index].clone()),
            Phase::Confirming { index, .. } => Some(self.params.attack_requests[*index].clone()),
            Phase::Done { .. } => None,
            Phase::Aborted => None,
        }
    }

    /// How many attack requests have been taken up so far, and how many there are.
    pub fn progress(&self) -> (p: (usize, usize))
        ensures
            p.1 == self.candidates(),
            p.0 == tried(self.candidates(), self.phase()),
            p.0 <= p.1,
    {
        proof {
            use_type_invariant(self);
        }
        let total = self.params.attack_requests.len();
        let current = match &self.phase {
            Phase::Measuring { .. } => 0,
            Phase::Probing { index, .. } => *index + 1,
            Phase::Confirming { index, .. } => *index + 1,
            Phase::Done { finding: Some(f), .. } => f.payload_index + 1,
            Phase::Done { finding: None, .. } => total,
            Phase::Aborted => 0,
        };
        (current, total)
    }

    /// The result of a finished category, stamped with `timestamp`. A category
    /// that is not finished has no result.
    pub fn result(&self, timestamp: String) -> (r: Option<CheckResult>)
        ensures
            r.is_some() == (self.phase() is Done),
            r matches Some(c) ==> {
                &&& c@ == result_of(
                    self.params().check_name@,
                    texts_of(self.params().attack_requests@),
                    self.phase()->Done_baseline,
                    self.phase()->Done_finding,
                    timestamp@,
                )
                &&& c@.consistent()
            },
    {
        proof {
            use_type_invariant(self);
        }
        match &self.phase {
            Phase::Done { baseline, finding } => {
                let check_type = String::from_str(self.params.check_name);
                let normal_status = baseline.representative_status.clone();
                let normal_duration_ms = record_ms(baseline.representative_duration_ms);
                match finding {
                    Some(f) => Some(
                        CheckResult {
                            check_type,
                            vulnerable: true,
                            payload_index: Some(f.payload_index),
                            normal_status,
                            attack_status: Some(f.signal.status_line.clone()),
                            normal_duration_ms,
                            attack_duration_ms: Some(record_ms(f.signal.duration_ms)),
                            timestamp,
                            payload: Some(self.params.attack_requests[f.payload_index].clone()),
                            confidence: Some(f.confidence),
                        },
                    ),
                    None => Some(
                        CheckResult {
                            check_type,
                            vulnerable: false,
                            payload_index: None,
                            normal_status,
                            attack_status: None,
                            normal_duration_ms,
                            attack_duration_ms: None,
                            timestamp,
                            payload: None,
                            confidence: None,
                        },
                    ),
                }
            },
            _ => None,
        }
    }

    /// The result of a finished category, stamped with the time of the call
    /// as the clock of the machine gives it. Use `result` to stamp it with a
    /// time of the caller's own.
    pub fn conclude(&self) -> (r: Option<CheckResult>)
        ensures
            r.is_some() == (self.phase() is Done),
            r matches Some(c) ==> {
                &&& c@ == result_of(
                    self.params().check_name@,
                    texts_of(self.params().attack_requests@),
                    self.phase()->Done_baseline,
                    self.phase()->Done_finding,
                    c@.timestamp,
                )
                &&& c@.consistent()
            },
    {
        self.result(timestamp_now())
    }

    /// The file to write the winning request to: there is one where the
    /// category ended with a finding and an export directory was given.
    pub fn export_job(&self) -> (job: Option<ExportJob>)
        ensures
            job.is_some() == (self.phase() matches PhaseView::Done { finding: Some(_), .. }
                && self.params().export_dir is Some),
            job matches Some(j) ==> {
                let index = self.phase()->Done_finding->0.payload_index;
                &&& j.file_name@ == export_file_name_of(
                    self.params().export_dir->0@,
                    self.params().host@,
                    self.params().check_name@,
                    index,
                    self.params().use_tls,
                )
                &&& j.payload@ == self.params().attack_requests@[index as int]@
            },
    {
        proof {
            use_type_invariant(self);
        }
        match (&self.phase, self.params.export_dir) {
            (Phase::Done { finding: Some(f), .. }, Some(dir)) => Some(
                ExportJob {
                    file_name: export_file_name(
                        dir,
                        self.params.host,
                        self.params.check_name,
                        f.payload_index,
                        self.params.use_tls,
                    ),
                    payload: self.params.attack_requests[f.payload_index].clone(),
                },
            ),
            _ => None,
        }
    }
}

/// Reads the signal that an outcome gives.
fn read_signal(settings: &Settings, baseline: &BaselineMeasurement, outcome: &ProbeOutcome) -> (signal:
    Option<VulnerabilitySignal>)
    ensures
        signal_view(signal) == first_signal(*settings, baseline@, outcome@),
{
    match outcome {
        ProbeOutcome::Response { text, duration_ms } => {
            let line = first_line(text.as_str());
            classify_response(line.as_str(), *duration_ms, baseline)
        },
        ProbeOutcome::TimedOut => Some(connection_timeout_signal(settings.timeout_secs)),
        ProbeOutcome::Failed => None,
    }
}

/// Moves on to the request at `next`, or ends the category.
fn advance_to(candidates: usize, baseline: BaselineMeasurement, next: usize) -> (phase: Phase)
    ensures
        phase@ == advance(candidates as nat, baseline@, next as nat),
{
    if next < candidates {
        Phase::Probing { baseline, index: next }
    } else {
        Phase::Done { baseline, finding: None }
    }
}

/// Ends the retries of the request at `index`.
fn decide_on(
    settings: &Settings,
    candidates: usize,
    baseline: BaselineMeasurement,
    index: usize,
    signal: VulnerabilitySignal,
    reproduced: usize,
) -> (phase: Phase)
    requires
        index < candidates,
    ensures
        phase@ == decide(
            *settings,
            candidates as nat,
            baseline@,
            index as nat,
            signal@,
            reproduced as nat,
        ),
{
    if is_confirmed(signal.is_connection_timeout, reproduced, settings.confirm_retries) {
        let confidence = score_confidence(&signal, baseline.representative_duration_ms);
        Phase::Done {
            baseline,
            finding: Some(Finding { payload_index: index, signal, confidence }),
        }
    } else {
        advance_to(candidates, baseline, index + 1)
    }
}

/// Takes one more baseline sample.
fn measure(
    settings: &Settings,
    candidates: usize,
    samples: Vec<BaselineSample>,
    outcome: &ProbeOutcome,
) -> (phase: Phase)
    requires
        samples.len() < settings.baseline_samples,
    ensures
        phase@ == next_phase(
            *settings,
            candidates as nat,
            PhaseView::Measuring { samples: sample_views(samples@) },
            outcome@,
        ),
{
    match outcome {
        ProbeOutcome::Response { text, duration_ms } => {
            let ghost before = sample_views(samples@);
            let mut samples = samples;
            let sample = BaselineSample {
                status_line: first_line(text.as_str()),
                duration_ms: *duration_ms,
            };
            samples.push(sample);
            assert(sample_views(samples@) == before.push(sample@));
            if samples.len() >= settings.baseline_samples {
                match summarize_baseline(&samples) {
                    Some(baseline) => advance_to(candidates, baseline, 0),
                    None => Phase::Aborted,
                }
            } else {
                Phase::Measuring { samples }
            }
        },
        _ => Phase::Aborted,
    }
}

/// Every phase that the transition function leads to is well formed.
pub proof fn lemma_next_phase_wf(
    settings: Settings,
    candidates: nat,
    phase: PhaseView,
    outcome: OutcomeView,
)
    requires
        settings.valid(),
        phase_wf(settings, candidates, phase),
    ensures
        phase_wf(settings, candidates, next_phase(settings, candidates, phase, outcome)),
{
}

} // verus!
