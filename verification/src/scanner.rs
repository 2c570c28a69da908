//! Classification of a single probe against a measured baseline, the rule that
//! confirms a signal, and the confidence given to a confirmed signal.

use vstd::prelude::*;
use vstd::string::*;
use crate::error::SmugglexError;
use crate::text::first_line_of;
use crate::utils::{first_line, parse_status_code, status_code_of};

verus! {

/// A response counts as delayed only when it is slower than this multiple of the baseline.
pub const TIMING_MULTIPLIER: u128 = 3;

/// A response counts as delayed only when it took longer than this many milliseconds.
pub const MIN_DELAY_MS: u128 = 1000;

/// A delay of this multiple of the baseline is strong evidence by itself.
pub const EXTREME_MULTIPLIER: u128 = 6;

/// How many benign requests a baseline is measured from.
pub const BASELINE_SAMPLES: usize = 3;

/// How often a request that gave a signal is sent again.
pub const CONFIRM_RETRIES: usize = 2;

/// What one check category is run with.
#[derive(Debug, Clone)]
pub struct CheckParams<'a> {
    /// The name of the check category.
    pub check_name: &'a str,
    /// The host to connect to.
    pub host: &'a str,
    /// The port to connect to.
    pub port: u16,
    /// The path of the benign request.
    pub path: &'a str,
    /// The attack requests, in the order in which they are tried.
    pub attack_requests: Vec<String>,
    /// The time budget of each request, in seconds.
    pub timeout: u64,
    /// Whether the driver reports every request and response.
    pub verbose: bool,
    /// Whether the connection is wrapped in TLS.
    pub use_tls: bool,
    /// Where the winning request is written to, if anywhere.
    pub export_dir: Option<&'a str>,
    /// The place of this category among those that run, from one.
    pub current_check: usize,
    /// How many categories run.
    pub total_checks: usize,
}

/// What normal behaviour of the target looks like.
#[derive(Debug, Clone)]
pub struct BaselineMeasurement {
    /// The status line of the last benign response.
    pub representative_status: String,
    /// The median duration of the benign requests, in milliseconds.
    pub representative_duration_ms: u128,
    /// The status code of each benign response, in the order of the requests.
    pub observed_status_codes: Vec<Option<u16>>,
}

/// The mathematical content of a `BaselineMeasurement`.
pub struct BaselineView {
    pub status: Seq<char>,
    pub duration_ms: nat,
    pub codes: Seq<Option<u16>>,
}

impl View for BaselineMeasurement {
    type V = BaselineView;

    open spec fn view(&self) -> BaselineView {
        BaselineView {
            status: self.representative_status@,
            duration_ms: self.representative_duration_ms as nat,
            codes: self.observed_status_codes@,
        }
    }
}

/// The evidence that one probe gave of a desynchronisation.
#[derive(Debug, Clone)]
pub struct VulnerabilitySignal {
    /// The status line of the response, or `Connection Timeout`.
    pub status_line: String,
    /// How long the request took, in milliseconds.
    pub duration_ms: u128,
    /// The request ran into the timeout instead of getting a response.
    pub is_connection_timeout: bool,
}

/// The mathematical content of a `VulnerabilitySignal`.
pub struct SignalView {
    pub status_line: Seq<char>,
    pub duration_ms: nat,
    pub is_connection_timeout: bool,
}

impl View for VulnerabilitySignal {
    type V = SignalView;

    open spec fn view(&self) -> SignalView {
        SignalView {
            status_line: self.status_line@,
            duration_ms: self.duration_ms as nat,
            is_connection_timeout: self.is_connection_timeout,
        }
    }
}

/// How much a confirmed signal is to be trusted.
#[derive(Debug, Clone, Copy, PartialEq, Eq, Structural)]
pub enum Confidence {
    High,
    Medium,
    Low,
}

impl Confidence {
    /// The rank of a level: the higher, the more trusted.
    pub open spec fn rank_of(self) -> nat {
        match self {
            Confidence::High => 3,
            Confidence::Medium => 2,
            Confidence::Low => 1,
        }
    }

    /// The rank of a level: 3 for high, 2 for medium, 1 for low.
    pub fn rank(&self) -> (r: u8)
        ensures
            r == self.rank_of(),
    {
        match self {
            Confidence::High => 3,
            Confidence::Medium => 2,
            Confidence::Low => 1,
        }
    }
}

/// The two status codes by which a server reports that it waited in vain.
pub open spec fn is_timeout_code(code: Option<u16>) -> bool {
    code == Some(408u16) || code == Some(504u16)
}

/// Tells whether a status code is 408 or 504.
pub fn is_timeout_status(code: Option<u16>) -> (r: bool)
    ensures
        r == is_timeout_code(code),
{
    match code {
        Some(c) => c == 408 || c == 504,
        None => false,
    }
}

/// A duration is slower than `factor` times the baseline and slower than the
/// absolute floor.
pub open spec fn exceeds(duration_ms: nat, baseline_ms: nat, factor: nat) -> bool {
    duration_ms > factor * baseline_ms && duration_ms > MIN_DELAY_MS
}

/// The timing indicator: the response took more than three times the baseline
/// and more than one second.
pub open spec fn is_delayed(duration_ms: nat, baseline_ms: nat) -> bool {
    exceeds(duration_ms, baseline_ms, TIMING_MULTIPLIER as nat)
}

/// Tells whether `duration_ms` is more than `factor` times `baseline_ms`.
fn more_than_times(duration_ms: u128, baseline_ms: u128, factor: u128) -> (r: bool)
    ensures
        r == (duration_ms > factor * baseline_ms),
{
    match baseline_ms.checked_mul(factor) {
        Some(threshold) => {
            assert(threshold == factor * baseline_ms) by (nonlinear_arith)
                requires
                    threshold == baseline_ms * factor,
            ;
            duration_ms > threshold
        },
        None => {
            assert(factor * baseline_ms > u128::MAX) by (nonlinear_arith)
                requires
                    baseline_ms * factor > u128::MAX,
            ;
            false
        },
    }
}

/// Tells whether a response was slow enough to count as delayed.
pub fn timing_indicator(duration_ms: u128, baseline_ms: u128) -> (r: bool)
    ensures
        r == is_delayed(duration_ms as nat, baseline_ms as nat),
{
    more_than_times(duration_ms, baseline_ms, TIMING_MULTIPLIER) && duration_ms > MIN_DELAY_MS
}

/// The status indicator: the line carries 408 or 504, and no benign response
/// carried that code.
pub open spec fn status_indicates(line: Seq<char>, observed: Seq<Option<u16>>) -> bool {
    is_timeout_code(status_code_of(line)) && !observed.contains(status_code_of(line))
}

/// Tells whether a status code is among those that the baseline saw.
pub fn was_observed(code: Option<u16>, observed: &Vec<Option<u16>>) -> (r: bool)
    ensures
        r == observed@.contains(code),
{
    let mut i: usize = 0;
    while i < observed.len()
        invariant
            i <= observed.len(),
            forall|j: int| 0 <= j < i ==> observed@[j] != code,
        decreases observed.len() - i,
    {
        let seen = observed[i];
        let same = match (seen, code) {
            (Some(a), Some(b)) => a == b,
            (None, None) => true,
            _ => false,
        };
        if same {
            assert(observed@[i as int] == code);
            return true;
        }
        i += 1;
    }
    false
}

/// Tells whether the status line of an attack response is a signal by itself.
pub fn status_indicator(status_line: &str, observed: &Vec<Option<u16>>) -> (r: bool)
    ensures
        r == status_indicates(status_line@, observed@),
{
    let code = parse_status_code(status_line);
    is_timeout_status(code) && !was_observed(code, observed)
}

/// The signal, if any, that a response gives: either indicator is enough.
pub open spec fn signal_of_response(
    line: Seq<char>,
    duration_ms: nat,
    baseline: BaselineView,
) -> Option<SignalView> {
    if status_indicates(line, baseline.codes) || is_delayed(duration_ms, baseline.duration_ms) {
        Some(SignalView { status_line: line, duration_ms, is_connection_timeout: false })
    } else {
        None
    }
}

/// The signal that a request gives when it runs into the timeout: no duration
/// was observed, so the signal carries the timeout itself.
pub open spec fn timeout_signal(timeout_secs: nat) -> SignalView {
    SignalView {
        status_line: "Connection Timeout"@,
        duration_ms: timeout_secs * 1000,
        is_connection_timeout: true,
    }
}

/// Classifies the response to one attack request.
pub fn classify_response(
    status_line: &str,
    duration_ms: u128,
    baseline: &BaselineMeasurement,
) -> (signal: Option<VulnerabilitySignal>)
    ensures
        signal.is_some() == signal_of_response(status_line@, duration_ms as nat, baseline@).is_some(),
        signal matches Some(s) ==> Some(s@) == signal_of_response(
            status_line@,
            duration_ms as nat,
            baseline@,
        ),
{
    let by_status = status_indicator(status_line, &baseline.observed_status_codes);
    let by_timing = timing_indicator(duration_ms, baseline.representative_duration_ms);
    if by_status || by_timing {
        Some(
            VulnerabilitySignal {
                status_line: String::from_str(status_line),
                duration_ms,
                is_connection_timeout: false,
            },
        )
    } else {
        None
    }
}

/// Makes the signal of a request that ran into the timeout.
pub fn connection_timeout_signal(timeout_secs: u64) -> (signal: VulnerabilitySignal)
    ensures
        signal@ == timeout_signal(timeout_secs as nat),
{
    let secs: u128 = timeout_secs as u128;
    VulnerabilitySignal {
        status_line: String::from_str("Connection Timeout"),
        duration_ms: secs * 1000,
        is_connection_timeout: true,
    }
}

/// The optional signal as a mathematical value.
pub open spec fn signal_view(signal: Option<VulnerabilitySignal>) -> Option<SignalView> {
    match signal {
        Some(s) => Some(s@),
        None => None,
    }
}

/// Classifies what the transport gave for one attack request: the response
/// text with the duration in milliseconds, or the error. A response is
/// classified by its first line and its duration. A timeout is a signal of
/// its own. Any other error is handed back to the caller.
pub fn classify_probe(
    outcome: Result<(String, u128), SmugglexError>,
    timeout_secs: u64,
    baseline: &BaselineMeasurement,
) -> (r: Result<Option<VulnerabilitySignal>, SmugglexError>)
    ensures
        match outcome {
            Ok(exchange) => r matches Ok(signal) && signal_view(signal) == signal_of_response(
                first_line_of(exchange.0@),
                exchange.1 as nat,
                baseline@,
            ),
            Err(e) => if e is Timeout {
                r matches Ok(Some(signal)) && signal@ == timeout_signal(timeout_secs as nat)
            } else {
                r == Err::<Option<VulnerabilitySignal>, SmugglexError>(e)
            },
        },
{
    match outcome {
        Ok(exchange) => {
            let line = first_line(exchange.0.as_str());
            Ok(classify_response(line.as_str(), exchange.1, baseline))
        },
        Err(e) => {
            if e.is_timeout() {
                Ok(Some(connection_timeout_signal(timeout_secs)))
            } else {
                Err(e)
            }
        },
    }
}

/// The rule that decides whether a first signal is reported, from how many of
/// the retries gave a signal again. A connection timeout must reproduce on
/// every retry; any other signal on at least half of them, rounded up.
pub open spec fn confirms(is_connection_timeout: bool, reproduced: nat, retries: nat) -> bool {
    if is_connection_timeout {
        reproduced == retries
    } else {
        reproduced >= (retries + 1) / 2
    }
}

/// Decides whether a first signal is confirmed.
pub fn is_confirmed(is_connection_timeout: bool, reproduced: usize, retries: usize) -> (r: bool)
    ensures
        r == confirms(is_connection_timeout, reproduced as nat, retries as nat),
{
    if is_connection_timeout {
        reproduced == retries
    } else {
        reproduced >= retries / 2 + retries % 2
    }
}

/// The confidence that follows from what was observed: whether the request
/// timed out, whether the status was 408 or 504, whether the timing indicator
/// fired, and whether the delay was extreme.
pub open spec fn confidence_from(
    is_connection_timeout: bool,
    timeout_status: bool,
    delayed: bool,
    extreme: bool,
) -> Confidence {
    if is_connection_timeout {
        Confidence::Low
    } else if (timeout_status && delayed) || extreme {
        Confidence::High
    } else {
        Confidence::Medium
    }
}

/// The delay is extreme: at least six times the baseline, which is twice the
/// threshold of the timing indicator.
pub open spec fn is_extreme(duration_ms: nat, baseline_ms: nat) -> bool {
    duration_ms >= EXTREME_MULTIPLIER * baseline_ms
}

/// The confidence given to a confirmed signal.
pub open spec fn confidence_of(signal: SignalView, baseline_ms: nat) -> Confidence {
    confidence_from(
        signal.is_connection_timeout,
        is_timeout_code(status_code_of(signal.status_line)),
        is_delayed(signal.duration_ms, baseline_ms),
        is_extreme(signal.duration_ms, baseline_ms),
    )
}

/// Scores a confirmed signal against the baseline duration.
pub fn score_confidence(signal: &VulnerabilitySignal, baseline_ms: u128) -> (c: Confidence)
    ensures
        c == confidence_of(signal@, baseline_ms as nat),
{
    if signal.is_connection_timeout {
        return Confidence::Low;
    }
    let timeout_status = is_timeout_status(parse_status_code(signal.status_line.as_str()));
    let delayed = timing_indicator(signal.duration_ms, baseline_ms);
    let extreme = match baseline_ms.checked_mul(EXTREME_MULTIPLIER) {
        Some(threshold) => signal.duration_ms >= threshold,
        None => false,
    };
    if (timeout_status && delayed) || extreme {
        Confidence::High
    } else {
        Confidence::Medium
    }
}

/// A status code that a benign response carried never makes a signal by
/// itself: where the code of the attack response is among the observed codes,
/// the status indicator stays silent, and there is a signal exactly when the
/// timing indicator fires.
pub proof fn law_observed_status_is_no_signal(
    line: Seq<char>,
    duration_ms: nat,
    baseline: BaselineView,
)
    requires
        baseline.codes.contains(status_code_of(line)),
    ensures
        !status_indicates(line, baseline.codes),
        signal_of_response(line, duration_ms, baseline) is Some <==> is_delayed(
            duration_ms,
            baseline.duration_ms,
        ),
{
}

/// A response gives a signal exactly when one of the two indicators fires,
/// and the signal then carries the line and the duration of the response.
pub proof fn law_signal_iff_indicator(line: Seq<char>, duration_ms: nat, baseline: BaselineView)
    ensures
        signal_of_response(line, duration_ms, baseline) is Some <==> (status_indicates(
            line,
            baseline.codes,
        ) || is_delayed(duration_ms, baseline.duration_ms)),
        signal_of_response(line, duration_ms, baseline) matches Some(s) ==> s.status_line == line
            && s.duration_ms == duration_ms && !s.is_connection_timeout,
{
}

/// A response that took no longer than the absolute floor, or no longer than
/// three times the baseline, is not delayed.
pub proof fn law_fast_response_is_not_delayed(duration_ms: nat, baseline_ms: nat)
    requires
        duration_ms <= MIN_DELAY_MS || duration_ms <= 3 * baseline_ms,
    ensures
        !is_delayed(duration_ms, baseline_ms),
{
}

/// A connection timeout is confirmed only if every retry gave a signal again:
/// one retry that did not is enough to reject it.
pub proof fn law_timeout_needs_every_retry(reproduced: nat, retries: nat)
    requires
        reproduced <= retries,
    ensures
        confirms(true, reproduced, retries) <==> reproduced == retries,
        reproduced < retries ==> !confirms(true, reproduced, retries),
{
}

/// Any other signal is confirmed exactly when at least half of the retries,
/// rounded up, gave a signal again.
pub proof fn law_other_signal_needs_half(reproduced: nat, retries: nat)
    ensures
        confirms(false, reproduced, retries) <==> 2 * reproduced >= retries,
        confirms(false, reproduced, retries) ==> reproduced >= (retries + 1) / 2,
{
}

/// A signal that is confirmed stays confirmed when more retries reproduce it,
/// and a connection timeout is never confirmed more easily than another signal.
pub proof fn law_confirmation_is_monotonic(
    is_connection_timeout: bool,
    fewer: nat,
    more: nat,
    retries: nat,
)
    requires
        fewer <= more <= retries,
    ensures
        confirms(is_connection_timeout, fewer, retries) ==> confirms(
            is_connection_timeout,
            more,
            retries,
        ),
        confirms(true, fewer, retries) ==> confirms(false, fewer, retries),
{
}

/// The confidence depends on nothing but the kind of the signal, whether its
/// status is 408 or 504, and how its duration compares with the baseline: two
/// signals that agree in these get the same confidence.
pub proof fn law_confidence_is_determined(
    a: SignalView,
    a_baseline_ms: nat,
    b: SignalView,
    b_baseline_ms: nat,
)
    requires
        a.is_connection_timeout == b.is_connection_timeout,
        is_timeout_code(status_code_of(a.status_line)) == is_timeout_code(
            status_code_of(b.status_line),
        ),
        is_delayed(a.duration_ms, a_baseline_ms) == is_delayed(b.duration_ms, b_baseline_ms),
        is_extreme(a.duration_ms, a_baseline_ms) == is_extreme(b.duration_ms, b_baseline_ms),
    ensures
        confidence_of(a, a_baseline_ms) == confidence_of(b, b_baseline_ms),
{
}

/// A connection timeout is always scored low, and nothing else is.
pub proof fn law_low_means_timeout(signal: SignalView, baseline_ms: nat)
    ensures
        confidence_of(signal, baseline_ms) == Confidence::Low <==> signal.is_connection_timeout,
{
}

} // verus!
