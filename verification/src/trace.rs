//! What sequences of outcomes lead the engine to: each step taken alone,
//! the retries of one request taken together, and a whole category from
//! the first benign request to the result.

use vstd::prelude::*;
use crate::baseline::{baseline_of, SampleView};
use crate::engine::{
    action_for, advance, decide, first_signal, lemma_next_phase_wf, next_phase, phase_wf,
    reproduces, Action, FindingView, OutcomeView, PhaseView, Settings,
};
use crate::scanner::{confidence_of, confirms, BaselineView, SignalView};
use crate::text::first_line_of;

verus! {

/// A finished or aborted category stays as it is, whatever it is told.
pub proof fn law_end_is_final(
    settings: Settings,
    candidates: nat,
    phase: PhaseView,
    outcome: OutcomeView,
)
    requires
        phase is Done || phase is Aborted,
    ensures
        next_phase(settings, candidates, phase, outcome) == phase,
        action_for(phase) == Action::Finish || action_for(phase) == Action::Abort,
{
}

/// No attack request is sent before the baseline is measured, and a baseline
/// that cannot be measured ends the category: from the measuring phase the
/// machine goes on measuring, aborts, or starts with the first attack request.
pub proof fn law_baseline_comes_first(
    settings: Settings,
    candidates: nat,
    samples: Seq<SampleView>,
    outcome: OutcomeView,
)
    requires
        settings.valid(),
        samples.len() < settings.baseline_samples,
    ensures
        ({
            let next = next_phase(
                settings,
                candidates,
                PhaseView::Measuring { samples },
                outcome,
            );
            &&& !(outcome is Response) <==> next is Aborted
            &&& next is Probing ==> next->Probing_index == 0 && samples.len() + 1
                == settings.baseline_samples
            &&& next is Done ==> candidates == 0 && next->Done_finding is None
            &&& !(next is Confirming)
        }),
{
}

/// The attack request that a phase is concerned with, if any.
pub open spec fn current_index(phase: PhaseView) -> Option<nat> {
    match phase {
        PhaseView::Probing { baseline, index } => Some(index),
        PhaseView::Confirming { baseline, index, signal, done, reproduced } => Some(index),
        _ => None,
    }
}

/// The attack requests are tried strictly in the order of the list: after the
/// request at `i` the machine sends the same request again, sends the request
/// at `i + 1`, or stops; and it keeps the baseline that it measured.
pub proof fn law_requests_in_order(
    settings: Settings,
    candidates: nat,
    phase: PhaseView,
    outcome: OutcomeView,
)
    requires
        phase_wf(settings, candidates, phase),
        current_index(phase) is Some,
    ensures
        ({
            let i = current_index(phase)->0;
            let next = next_phase(settings, candidates, phase, outcome);
            &&& next is Probing ==> next->Probing_index == i + 1
            &&& next is Confirming ==> next->Confirming_index == i
            &&& next is Done ==> (next->Done_finding matches Some(f) ==> f.payload_index == i)
            &&& next is Done && next->Done_finding is None ==> i + 1 == candidates
            &&& !(next is Measuring) && !(next is Aborted)
        }),
{
}

/// A finding is reported only for a signal that the retries confirmed: where
/// a step ends the category with a finding, the finding names the request
/// that was being tried and the first signal it gave, its confidence is the
/// one that the scoring rule gives, and the confirmation rule held of the
/// retries that gave a signal again.
pub proof fn law_finding_was_confirmed(
    settings: Settings,
    candidates: nat,
    phase: PhaseView,
    outcome: OutcomeView,
)
    requires
        phase_wf(settings, candidates, phase),
        !(phase is Done),
        next_phase(settings, candidates, phase, outcome) matches PhaseView::Done {
            finding: Some(_),
            ..
        },
    ensures
        ({
            let next = next_phase(settings, candidates, phase, outcome);
            let f = next->Done_finding->0;
            let retries = settings.confirm_retries as nat;
            &&& f.confidence == confidence_of(f.signal, next->Done_baseline.duration_ms)
            &&& match phase {
                PhaseView::Probing { baseline, index } => {
                    &&& retries == 0
                    &&& f.payload_index == index
                    &&& Some(f.signal) == first_signal(settings, baseline, outcome)
                    &&& next->Done_baseline == baseline
                },
                PhaseView::Confirming { baseline, index, signal, done, reproduced } => {
                    &&& done + 1 == retries
                    &&& f.payload_index == index
                    &&& f.signal == signal
                    &&& next->Done_baseline == baseline
                    &&& confirms(
                        signal.is_connection_timeout,
                        if reproduces(settings, baseline, outcome) {
                            reproduced + 1
                        } else {
                            reproduced
                        },
                        retries,
                    )
                },
                _ => false,
            }
        }),
{
}

/// The phase that a sequence of outcomes leads to, one step for each outcome.
pub open spec fn run(
    settings: Settings,
    candidates: nat,
    phase: PhaseView,
    outcomes: Seq<OutcomeView>,
) -> PhaseView
    decreases outcomes.len(),
{
    if outcomes.len() == 0 {
        phase
    } else {
        run(
            settings,
            candidates,
            next_phase(settings, candidates, phase, outcomes[0]),
            outcomes.drop_first(),
        )
    }
}

/// How many of the outcomes give a signal again.
pub open spec fn reproducing(
    settings: Settings,
    baseline: BaselineView,
    outcomes: Seq<OutcomeView>,
) -> nat
    decreases outcomes.len(),
{
    if outcomes.len() == 0 {
        0
    } else {
        reproducing(settings, baseline, outcomes.drop_first()) + if reproduces(
            settings,
            baseline,
            outcomes[0],
        ) {
            1nat
        } else {
            0nat
        }
    }
}

/// No more outcomes give a signal again than there are, and all of them do
/// exactly when each one does.
pub proof fn lemma_reproducing_bound(
    settings: Settings,
    baseline: BaselineView,
    outcomes: Seq<OutcomeView>,
)
    ensures
        reproducing(settings, baseline, outcomes) <= outcomes.len(),
        reproducing(settings, baseline, outcomes) == outcomes.len() <==> forall|i: int|
            0 <= i < outcomes.len() ==> reproduces(settings, baseline, #[trigger] outcomes[i]),
    decreases outcomes.len(),
{
    if outcomes.len() > 0 {
        let rest = outcomes.drop_first();
        lemma_reproducing_bound(settings, baseline, rest);
        assert forall|i: int| 0 <= i < rest.len() implies rest[i] == outcomes[i + 1] by {}
        if forall|i: int| 0 <= i < outcomes.len() ==> reproduces(settings, baseline, #[trigger] outcomes[i]) {
            assert forall|i: int| 0 <= i < rest.len() implies reproduces(
                settings,
                baseline,
                #[trigger] rest[i],
            ) by {
                assert(rest[i] == outcomes[i + 1]);
            }
        }
        if reproducing(settings, baseline, outcomes) == outcomes.len() {
            assert forall|i: int| 0 <= i < outcomes.len() implies reproduces(
                settings,
                baseline,
                #[trigger] outcomes[i],
            ) by {
                if i > 0 {
                    assert(rest[i - 1] == outcomes[i]);
                }
            }
        }
    }
}

/// The retries of one request, taken together: from a confirming phase the
/// outcomes of the retries that are still to come lead to the decision that
/// the confirmation rule makes of all retries that gave a signal again.
pub proof fn law_retries_decide(
    settings: Settings,
    candidates: nat,
    baseline: BaselineView,
    index: nat,
    signal: SignalView,
    done: nat,
    reproduced: nat,
    outcomes: Seq<OutcomeView>,
)
    requires
        done < settings.confirm_retries,
        outcomes.len() == settings.confirm_retries - done,
    ensures
        run(
            settings,
            candidates,
            PhaseView::Confirming { baseline, index, signal, done, reproduced },
            outcomes,
        ) == decide(
            settings,
            candidates,
            baseline,
            index,
            signal,
            reproduced + reproducing(settings, baseline, outcomes),
        ),
    decreases outcomes.len(),
{
    let phase = PhaseView::Confirming { baseline, index, signal, done, reproduced };
    let rest = outcomes.drop_first();
    let again: nat = if reproduces(settings, baseline, outcomes[0]) {
        reproduced + 1
    } else {
        reproduced
    };
    if outcomes.len() == 1 {
        assert(rest.len() == 0);
        assert(reproducing(settings, baseline, rest) == 0);
        let last = next_phase(settings, candidates, phase, outcomes[0]);
        assert(run(settings, candidates, last, rest) == last);
    } else {
        law_retries_decide(settings, candidates, baseline, index, signal, done + 1, again, rest);
    }
}

/// One attack request from its first attempt to the decision. Where the first
/// attempt gives no signal, the next request is tried without a retry. Where
/// it gives one, the outcomes of all retries lead to a finding for this
/// request exactly when the confirmation rule accepts the number of retries
/// that gave a signal again; else the next request is tried.
pub proof fn law_candidate_verdict(
    settings: Settings,
    candidates: nat,
    baseline: BaselineView,
    index: nat,
    first: OutcomeView,
    retries: Seq<OutcomeView>,
)
    requires
        index < candidates,
        retries.len() == settings.confirm_retries,
    ensures
        first_signal(settings, baseline, first) is None ==> next_phase(
            settings,
            candidates,
            PhaseView::Probing { baseline, index },
            first,
        ) == advance(candidates, baseline, index + 1),
        first_signal(settings, baseline, first) matches Some(signal) ==> {
            let end = run(
                settings,
                candidates,
                PhaseView::Probing { baseline, index },
                seq![first] + retries,
            );
            let accepted = confirms(
                signal.is_connection_timeout,
                reproducing(settings, baseline, retries),
                settings.confirm_retries as nat,
            );
            &&& accepted ==> end == (PhaseView::Done {
                baseline,
                finding: Some(
                    FindingView {
                        payload_index: index,
                        signal,
                        confidence: confidence_of(signal, baseline.duration_ms),
                    },
                ),
            })
            &&& !accepted ==> end == advance(candidates, baseline, index + 1)
        },
{
    let start = PhaseView::Probing { baseline, index };
    let all = seq![first] + retries;
    assert(all[0] == first);
    assert(all.drop_first() == retries);
    if let Some(signal) = first_signal(settings, baseline, first) {
        let after = next_phase(settings, candidates, start, first);
        if settings.confirm_retries == 0 {
            assert(retries.len() == 0);
            assert(run(settings, candidates, after, retries) == after);
        } else {
            law_retries_decide(settings, candidates, baseline, index, signal, 0, 0, retries);
        }
    }
}

/// A connection timeout leads to a finding only if every retry gives a signal
/// again: one retry that does not, and the request is given up.
pub proof fn law_timeout_must_reproduce_every_time(
    settings: Settings,
    candidates: nat,
    baseline: BaselineView,
    index: nat,
    retries: Seq<OutcomeView>,
)
    requires
        index < candidates,
        retries.len() == settings.confirm_retries,
    ensures
        ({
            let end = run(
                settings,
                candidates,
                PhaseView::Probing { baseline, index },
                seq![OutcomeView::TimedOut] + retries,
            );
            let every = forall|i: int|
                0 <= i < retries.len() ==> reproduces(settings, baseline, #[trigger] retries[i]);
            &&& every ==> end is Done && end->Done_finding is Some
            &&& !every ==> end == advance(candidates, baseline, index + 1)
            &&& !every && index + 1 == candidates ==> end == (PhaseView::Done {
                baseline,
                finding: None,
            })
        }),
{
    law_candidate_verdict(settings, candidates, baseline, index, OutcomeView::TimedOut, retries);
    lemma_reproducing_bound(settings, baseline, retries);
}

/// A signal other than a connection timeout leads to a finding only if at
/// least half of the retries, rounded up, give a signal again.
pub proof fn law_other_signal_must_reproduce_by_half(
    settings: Settings,
    candidates: nat,
    baseline: BaselineView,
    index: nat,
    first: OutcomeView,
    retries: Seq<OutcomeView>,
)
    requires
        index < candidates,
        retries.len() == settings.confirm_retries,
        first_signal(settings, baseline, first) matches Some(s) && !s.is_connection_timeout,
    ensures
        ({
            let end = run(
                settings,
                candidates,
                PhaseView::Probing { baseline, index },
                seq![first] + retries,
            );
            let enough = reproducing(settings, baseline, retries) >= (settings.confirm_retries
                + 1) / 2;
            &&& enough ==> end is Done && end->Done_finding is Some
            &&& !enough ==> end == advance(candidates, baseline, index + 1)
            &&& !enough && index + 1 == candidates ==> end == (PhaseView::Done {
                baseline,
                finding: None,
            })
        }),
{
    law_candidate_verdict(settings, candidates, baseline, index, first, retries);
}

/// The most requests that a phase can still ask for.
pub open spec fn requests_left(settings: Settings, candidates: nat, phase: PhaseView) -> int {
    let per_request = 1 + settings.confirm_retries;
    match phase {
        PhaseView::Measuring { samples } => settings.baseline_samples - samples.len() + candidates
            * per_request,
        PhaseView::Probing { baseline, index } => (candidates - index) * per_request,
        PhaseView::Confirming { baseline, index, signal, done, reproduced } =>
            settings.confirm_retries - done + (candidates - index - 1) * per_request,
        PhaseView::Done { baseline, finding } => 0,
        PhaseView::Aborted => 0,
    }
}

/// Nothing is retried without end: every step lowers the number of requests
/// that can still be asked for, which is never negative. A category therefore
/// sends at most as many requests as the baseline has samples, plus one first
/// attempt and the retries for each attack request.
pub proof fn law_requests_are_bounded(
    settings: Settings,
    candidates: nat,
    phase: PhaseView,
    outcome: OutcomeView,
)
    requires
        settings.valid(),
        phase_wf(settings, candidates, phase),
        !(phase is Done),
        !(phase is Aborted),
    ensures
        0 <= requests_left(
            settings,
            candidates,
            next_phase(settings, candidates, phase, outcome),
        ) < requests_left(settings, candidates, phase),
{
    let per_request: int = 1 + settings.confirm_retries;
    let next = next_phase(settings, candidates, phase, outcome);
    lemma_next_phase_wf(settings, candidates, phase, outcome);
    assert forall|k: int| 0 <= k implies 0 <= #[trigger] (k * per_request) by {
        assert(0 <= k * per_request) by (nonlinear_arith)
            requires
                0 <= k,
                0 <= per_request,
        ;
    }
    assert forall|k: int| #[trigger] ((k + 1) * per_request) == k * per_request + per_request by {
        assert((k + 1) * per_request == k * per_request + per_request) by (nonlinear_arith);
    }
    match phase {
        PhaseView::Measuring { samples } => {
            assert(0 <= candidates * per_request);
            if next is Probing {
                assert((candidates - 0) * per_request == candidates * per_request);
            }
        },
        PhaseView::Probing { baseline, index } => {
            let k = candidates - index - 1;
            assert(0 <= k * per_request);
            assert((k + 1) * per_request == k * per_request + per_request);
            assert((candidates - index) * per_request == k * per_request + per_request);
            if next is Probing {
                assert(next->Probing_index == index + 1);
                assert((candidates - (index + 1)) * per_request == k * per_request);
            }
        },
        PhaseView::Confirming { baseline, index, signal, done, reproduced } => {
            let k = candidates - index - 1;
            assert(0 <= k * per_request);
            if next is Probing {
                assert(next->Probing_index == index + 1);
                assert((candidates - (index + 1)) * per_request == k * per_request);
            }
        },
        _ => {},
    }
}

/// Running through two sequences of outcomes one after the other is running
/// through both written as one.
pub proof fn lemma_run_append(
    settings: Settings,
    candidates: nat,
    phase: PhaseView,
    first: Seq<OutcomeView>,
    second: Seq<OutcomeView>,
)
    ensures
        run(settings, candidates, phase, first + second) == run(
            settings,
            candidates,
            run(settings, candidates, phase, first),
            second,
        ),
    decreases first.len(),
{
    if first.len() == 0 {
        assert(first + second =~= second);
    } else {
        assert((first + second)[0] == first[0]);
        assert((first + second).drop_first() =~= first.drop_first() + second);
        lemma_run_append(
            settings,
            candidates,
            next_phase(settings, candidates, phase, first[0]),
            first.drop_first(),
            second,
        );
    }
}

/// A finished or aborted category stays as it is, however many outcomes it
/// is told.
pub proof fn lemma_run_from_end(
    settings: Settings,
    candidates: nat,
    phase: PhaseView,
    outcomes: Seq<OutcomeView>,
)
    requires
        phase is Done || phase is Aborted,
    ensures
        run(settings, candidates, phase, outcomes) == phase,
    decreases outcomes.len(),
{
    if outcomes.len() > 0 {
        lemma_run_from_end(settings, candidates, phase, outcomes.drop_first());
    }
}

/// What a category finds from the request at `index` on, given the outcomes
/// of the requests in the order in which they are sent: the finding for the
/// first request whose signal the retries confirm, or no finding where no
/// request is left. A request without a signal uses up one outcome, a
/// request with a signal one more for each retry. Where the outcomes run out
/// before the category is finished, nothing is said.
pub open spec fn expected_finding(
    settings: Settings,
    candidates: nat,
    baseline: BaselineView,
    index: nat,
    outcomes: Seq<OutcomeView>,
) -> Option<Option<FindingView>>
    decreases candidates - index,
{
    let retries = settings.confirm_retries as int;
    if index >= candidates {
        Some(None)
    } else if outcomes.len() == 0 {
        None
    } else {
        match first_signal(settings, baseline, outcomes[0]) {
            None => expected_finding(settings, candidates, baseline, index + 1, outcomes.skip(1)),
            Some(signal) => if outcomes.len() < 1 + retries {
                None
            } else if confirms(
                signal.is_connection_timeout,
                reproducing(settings, baseline, outcomes.subrange(1, 1 + retries)),
                retries as nat,
            ) {
                Some(
                    Some(
                        FindingView {
                            payload_index: index,
                            signal,
                            confidence: confidence_of(signal, baseline.duration_ms),
                        },
                    ),
                )
            } else {
                expected_finding(
                    settings,
                    candidates,
                    baseline,
                    index + 1,
                    outcomes.skip(1 + retries),
                )
            },
        }
    }
}

/// The first confirmed request wins: the machine, told the outcomes of the
/// requests that it asks for, ends with the finding for the first request
/// whose signal the retries confirm, and with no finding where there is no
/// such request. Requests after the winning one are never sent, and outcomes
/// that are told after the end change nothing.
pub proof fn law_first_confirmed_request_wins(
    settings: Settings,
    candidates: nat,
    baseline: BaselineView,
    index: nat,
    outcomes: Seq<OutcomeView>,
)
    requires
        expected_finding(settings, candidates, baseline, index, outcomes) is Some,
    ensures
        run(settings, candidates, advance(candidates, baseline, index), outcomes) == (
        PhaseView::Done {
            baseline,
            finding: expected_finding(settings, candidates, baseline, index, outcomes)->0,
        }),
    decreases candidates - index,
{
    let start = advance(candidates, baseline, index);
    let retries = settings.confirm_retries as int;
    if index >= candidates {
        lemma_run_from_end(settings, candidates, start, outcomes);
    } else {
        let first = outcomes[0];
        assert(outcomes.drop_first() == outcomes.skip(1));
        match first_signal(settings, baseline, first) {
            None => {
                law_first_confirmed_request_wins(
                    settings,
                    candidates,
                    baseline,
                    index + 1,
                    outcomes.skip(1),
                );
            },
            Some(signal) => {
                let again = outcomes.subrange(1, 1 + retries);
                let rest = outcomes.skip(1 + retries);
                assert(outcomes =~= (seq![first] + again) + rest);
                lemma_run_append(settings, candidates, start, seq![first] + again, rest);
                law_candidate_verdict(settings, candidates, baseline, index, first, again);
                let decided = run(settings, candidates, start, seq![first] + again);
                if confirms(
                    signal.is_connection_timeout,
                    reproducing(settings, baseline, again),
                    retries as nat,
                ) {
                    lemma_run_from_end(settings, candidates, decided, rest);
                } else {
                    law_first_confirmed_request_wins(
                        settings,
                        candidates,
                        baseline,
                        index + 1,
                        rest,
                    );
                }
            },
        }
    }
}

/// The samples that a sequence of responses gives.
pub open spec fn samples_of(responses: Seq<OutcomeView>) -> Seq<SampleView> {
    Seq::new(
        responses.len(),
        |i: int|
            SampleView {
                status_line: first_line_of(responses[i]->Response_text),
                duration_ms: responses[i]->Response_duration_ms,
            },
    )
}

/// The baseline is measured from as many responses as the settings ask for:
/// told that many responses, the measuring phase ends with the baseline of
/// all samples and moves on to the first attack request.
pub proof fn law_baseline_of_all_samples(
    settings: Settings,
    candidates: nat,
    samples: Seq<SampleView>,
    responses: Seq<OutcomeView>,
)
    requires
        samples.len() < settings.baseline_samples,
        responses.len() == settings.baseline_samples - samples.len(),
        forall|i: int| 0 <= i < responses.len() ==> (#[trigger] responses[i]) is Response,
    ensures
        run(settings, candidates, PhaseView::Measuring { samples }, responses) == advance(
            candidates,
            baseline_of(samples + samples_of(responses)),
            0,
        ),
    decreases responses.len(),
{
    let phase = PhaseView::Measuring { samples };
    let first = responses[0];
    let rest = responses.drop_first();
    let collected = samples.push(
        SampleView {
            status_line: first_line_of(first->Response_text),
            duration_ms: first->Response_duration_ms,
        },
    );
    assert(samples + samples_of(responses) =~= collected + samples_of(rest));
    if responses.len() == 1 {
        assert(collected + samples_of(rest) =~= collected);
        let after = next_phase(settings, candidates, phase, first);
        assert(run(settings, candidates, after, rest) == after);
    } else {
        assert forall|i: int| 0 <= i < rest.len() implies (#[trigger] rest[i]) is Response by {
            assert(rest[i] == responses[i + 1]);
        }
        law_baseline_of_all_samples(settings, candidates, collected, rest);
    }
}

/// A whole category: told the responses to the benign requests and then the
/// outcomes of the attack requests that it asks for, the machine ends with
/// the baseline of the benign responses and the finding for the first
/// request whose signal the retries confirm.
pub proof fn law_category_outcome(
    settings: Settings,
    candidates: nat,
    responses: Seq<OutcomeView>,
    outcomes: Seq<OutcomeView>,
)
    requires
        settings.valid(),
        responses.len() == settings.baseline_samples,
        forall|i: int| 0 <= i < responses.len() ==> (#[trigger] responses[i]) is Response,
        expected_finding(
            settings,
            candidates,
            baseline_of(samples_of(responses)),
            0,
            outcomes,
        ) is Some,
    ensures
        run(
            settings,
            candidates,
            PhaseView::Measuring { samples: Seq::empty() },
            responses + outcomes,
        ) == (PhaseView::Done {
            baseline: baseline_of(samples_of(responses)),
            finding: expected_finding(
                settings,
                candidates,
                baseline_of(samples_of(responses)),
                0,
                outcomes,
            )->0,
        }),
{
    let start = PhaseView::Measuring { samples: Seq::<SampleView>::empty() };
    let baseline = baseline_of(samples_of(responses));
    lemma_run_append(settings, candidates, start, responses, outcomes);
    law_baseline_of_all_samples(settings, candidates, Seq::empty(), responses);
    assert(Seq::<SampleView>::empty() + samples_of(responses) =~= samples_of(responses));
    law_first_confirmed_request_wins(settings, candidates, baseline, 0, outcomes);
}

} // verus!
