//! The records that a scan produces.

use vstd::prelude::*;
use vstd::string::*;
use crate::scanner::Confidence;
use crate::text::text_of;

verus! {

/// The outcome of one check category against one target.
#[derive(Debug, Clone)]
pub struct CheckResult {
    /// The name of the check category.
    pub check_type: String,
    /// A signal was found and confirmed.
    pub vulnerable: bool,
    /// The place of the winning request in the list of attack requests.
    pub payload_index: Option<usize>,
    /// The status line of the benign response.
    pub normal_status: String,
    /// The status line of the winning attack response.
    pub attack_status: Option<String>,
    /// The baseline duration in milliseconds.
    pub normal_duration_ms: u64,
    /// The duration of the winning attack request in milliseconds.
    pub attack_duration_ms: Option<u64>,
    /// When the result was made.
    pub timestamp: String,
    /// The text of the winning attack request.
    pub payload: Option<String>,
    /// How much the finding is to be trusted.
    pub confidence: Option<Confidence>,
}

/// The mathematical content of a `CheckResult`.
pub struct CheckResultView {
    pub check_type: Seq<char>,
    pub vulnerable: bool,
    pub payload_index: Option<nat>,
    pub normal_status: Seq<char>,
    pub attack_status: Option<Seq<char>>,
    pub normal_duration_ms: nat,
    pub attack_duration_ms: Option<nat>,
    pub timestamp: Seq<char>,
    pub payload: Option<Seq<char>>,
    pub confidence: Option<Confidence>,
}

impl View for CheckResult {
    type V = CheckResultView;

    open spec fn view(&self) -> CheckResultView {
        CheckResultView {
            check_type: self.check_type@,
            vulnerable: self.vulnerable,
            payload_index: match self.payload_index {
                Some(i) => Some(i as nat),
                None => None,
            },
            normal_status: self.normal_status@,
            attack_status: text_of(self.attack_status),
            normal_duration_ms: self.normal_duration_ms as nat,
            attack_duration_ms: match self.attack_duration_ms {
                Some(d) => Some(d as nat),
                None => None,
            },
            timestamp: self.timestamp@,
            payload: text_of(self.payload),
            confidence: self.confidence,
        }
    }
}

impl CheckResultView {
    /// A result that is not vulnerable names no request, no attack response
    /// and no confidence.
    pub open spec fn consistent(self) -> bool {
        !self.vulnerable ==> {
            &&& self.payload_index is None
            &&& self.attack_status is None
            &&& self.payload is None
            &&& self.confidence is None
        }
    }
}

impl CheckResult {
    /// Tells whether the result keeps the rule that only a vulnerable result
    /// names a request, an attack response and a confidence.
    pub fn is_consistent(&self) -> (r: bool)
        ensures
            r == self@.consistent(),
    {
        self.vulnerable || (self.payload_index.is_none() && self.attack_status.is_none()
            && self.payload.is_none() && self.confidence.is_none())
    }
}

/// The results of all check categories against one target.
#[derive(Debug)]
pub struct ScanResults {
    /// The URL that was scanned.
    pub target: String,
    /// The method of the attack requests.
    pub method: String,
    /// When the scan was reported.
    pub timestamp: String,
    /// One result for each check category that ran.
    pub checks: Vec<CheckResult>,
}

/// How many of the first `n` results are vulnerable.
pub open spec fn vulnerable_among(results: Seq<CheckResult>, n: int) -> nat
    decreases n,
{
    if n <= 0 {
        0
    } else {
        vulnerable_among(results, n - 1) + if results[n - 1].vulnerable {
            1nat
        } else {
            0nat
        }
    }
}

/// Counts the vulnerable results.
pub fn vulnerable_count(results: &Vec<CheckResult>) -> (count: usize)
    ensures
        count == vulnerable_among(results@, results.len() as int),
{
    let mut count: usize = 0;
    let mut i: usize = 0;
    while i < results.len()
        invariant
            i <= results.len(),
            count == vulnerable_among(results@, i as int),
            count <= i,
        decreases results.len() - i,
    {
        if results[i].vulnerable {
            count += 1;
        }
        i += 1;
    }
    count
}

} // verus!
