//! Whole runs of the solutions architect, and what holds of every one of
//! them.

use crate::ai_functions::aifunc_architect::PROJECT_SCOPE_INSTRUCTION;
use crate::helpers::general::{
    decoded_string_list, extended_prompt, DecodeError, TaskRequestView,
};
use crate::models::general::llm::system_role;
use crate::models::agent_basic::basic_agent::{AgentState, BasicAgentView};
use crate::helpers::command_line::PrintCommand;
use crate::models::agents::agent_architect::{
    asking, finished, fresh_architect, in_state, probe_reported, probing_started, scope_request,
    stepped, urls_request, waiting_for, ArchitectView, PendingView, Transition,
};
use crate::models::agents::agent_traits::{
    is_live, ActionView, EventView, FactSheetView, ProbeOutcomeView, ProjectScope, RunErrorView,
    StepView,
};
use vstd::prelude::*;

verus! {

/// The transitions of a run in which the driver reports `events` one after
/// the other.
pub open spec fn run(agent: ArchitectView, factsheet: FactSheetView, events: Seq<EventView>)
    -> Seq<Transition>
    decreases events.len(),
{
    if events.len() == 0 {
        Seq::empty()
    } else {
        let first = stepped(agent, factsheet, events[0]);
        seq![first] + run(first.agent, first.factsheet, events.drop_first())
    }
}

/// The events that report the outcomes of a series of probes.
pub open spec fn probe_events(outcomes: Seq<ProbeOutcomeView>) -> Seq<EventView> {
    Seq::new(outcomes.len(), |i: int| EventView::Probed(outcomes[i]))
}

/// The URLs whose probe found them alive, in the order of the list. Each URL
/// is judged by the outcome at its own position; one without an outcome does
/// not survive.
pub open spec fn survivors(urls: Seq<Seq<char>>, outcomes: Seq<ProbeOutcomeView>) -> Seq<
    Seq<char>,
>
    decreases urls.len(),
{
    if urls.len() == 0 || outcomes.len() == 0 {
        Seq::empty()
    } else if is_live(outcomes[0]) {
        seq![urls[0]] + survivors(urls.drop_first(), outcomes.drop_first())
    } else {
        survivors(urls.drop_first(), outcomes.drop_first())
    }
}

/// Filtering keeps a list whose URLs are all alive exactly as it is.
pub proof fn lemma_all_live_survive(urls: Seq<Seq<char>>, outcomes: Seq<ProbeOutcomeView>)
    requires
        outcomes.len() == urls.len(),
        forall|i: int| 0 <= i < outcomes.len() ==> is_live(#[trigger] outcomes[i]),
    ensures
        survivors(urls, outcomes) == urls,
    decreases urls.len(),
{
    if urls.len() > 0 {
        lemma_all_live_survive(urls.drop_first(), outcomes.drop_first());
        assert(seq![urls[0]] + urls.drop_first() =~= urls);
    } else {
        assert(urls =~= Seq::empty());
    }
}

/// Filtering never adds or reorders: the survivors are a selection of the
/// list's positions in rising order, exactly those whose probe was alive.
pub proof fn lemma_survivors_in_order(urls: Seq<Seq<char>>, outcomes: Seq<ProbeOutcomeView>)
    requires
        outcomes.len() == urls.len(),
    ensures
        exists|positions: Seq<int>|
            {
                &&& #[trigger] positions.len() == survivors(urls, outcomes).len()
                &&& forall|k: int|
                    0 <= k < positions.len() ==> 0 <= #[trigger] positions[k] < urls.len()
                        && is_live(outcomes[positions[k]]) && survivors(urls, outcomes)[k]
                        == urls[positions[k]]
                &&& forall|j: int, k: int|
                    0 <= j < k < positions.len() ==> #[trigger] positions[j]
                        < #[trigger] positions[k]
                &&& forall|i: int|
                    0 <= i < urls.len() && is_live(#[trigger] outcomes[i])
                        ==> positions.contains(i)
            },
    decreases urls.len(),
{
    if urls.len() == 0 {
        let positions = Seq::<int>::empty();
        assert(positions.len() == survivors(urls, outcomes).len());
    } else {
        let tail_urls = urls.drop_first();
        let tail_outcomes = outcomes.drop_first();
        lemma_survivors_in_order(tail_urls, tail_outcomes);
        let tail = choose|positions: Seq<int>|
            {
                &&& #[trigger] positions.len() == survivors(tail_urls, tail_outcomes).len()
                &&& forall|k: int|
                    0 <= k < positions.len() ==> 0 <= #[trigger] positions[k] < tail_urls.len()
                        && is_live(tail_outcomes[positions[k]]) && survivors(
                        tail_urls,
                        tail_outcomes,
                    )[k] == tail_urls[positions[k]]
                &&& forall|j: int, k: int|
                    0 <= j < k < positions.len() ==> #[trigger] positions[j]
                        < #[trigger] positions[k]
                &&& forall|i: int|
                    0 <= i < tail_urls.len() && is_live(#[trigger] tail_outcomes[i])
                        ==> positions.contains(i)
            };
        let shifted = Seq::new(tail.len(), |k: int| tail[k] + 1);
        let positions = if is_live(outcomes[0]) {
            seq![0int] + shifted
        } else {
            shifted
        };
        let kept = survivors(urls, outcomes);
        assert(positions.len() == kept.len());
        assert forall|k: int| 0 <= k < positions.len() implies 0 <= #[trigger] positions[k]
            < urls.len() && is_live(outcomes[positions[k]]) && kept[k] == urls[positions[k]] by {
            if is_live(outcomes[0]) {
                if k > 0 {
                    assert(positions[k] == tail[k - 1] + 1);
                    assert(tail_outcomes[tail[k - 1]] == outcomes[tail[k - 1] + 1]);
                    assert(tail_urls[tail[k - 1]] == urls[tail[k - 1] + 1]);
                }
            } else {
                assert(positions[k] == tail[k] + 1);
                assert(tail_outcomes[tail[k]] == outcomes[tail[k] + 1]);
                assert(tail_urls[tail[k]] == urls[tail[k] + 1]);
            }
        }
        assert forall|j: int, k: int| 0 <= j < k < positions.len() implies #[trigger] positions[j]
            < #[trigger] positions[k] by {
            if is_live(outcomes[0]) {
                if j > 0 {
                    assert(tail[j - 1] < tail[k - 1]);
                } else {
                    assert(positions[k] == tail[k - 1] + 1);
                }
            } else {
                assert(tail[j] < tail[k]);
            }
        }
        assert forall|i: int|
            0 <= i < urls.len() && is_live(#[trigger] outcomes[i]) implies positions.contains(
            i,
        ) by {
            if i == 0 {
                assert(positions[0] == 0);
            } else {
                assert(tail_outcomes[i - 1] == outcomes[i]);
                assert(tail.contains(i - 1));
                let k = choose|k: int| 0 <= k < tail.len() && tail[k] == i - 1;
                if is_live(outcomes[0]) {
                    assert(positions[k + 1] == i);
                } else {
                    assert(positions[k] == i);
                }
            }
        }
    }
}

/// The probes of a list, reported one by one to an agent that waits for the
/// first of them. Until the last report the agent stays as it is but for what
/// it waits for, the fact sheet keeps its list, and each step asks for the
/// probe of the next URL. The last report ends the run: the agent is
/// `Finished`, and the fact sheet holds the URLs that were alive before
/// followed by the survivors of the list.
pub proof fn lemma_probing_run(
    agent: ArchitectView,
    factsheet: FactSheetView,
    rest: Seq<Seq<char>>,
    live: Seq<Seq<char>>,
    outcomes: Seq<ProbeOutcomeView>,
)
    requires
        agent.pending == (PendingView::Probing { rest, live }),
        rest.len() > 0,
        outcomes.len() == rest.len(),
    ensures
        ({
            let steps = run(agent, factsheet, probe_events(outcomes));
            &&& steps.len() == rest.len()
            &&& forall|i: int|
                0 <= i < steps.len() - 1 ==> {
                    &&& (#[trigger] steps[i]).agent.attributes == agent.attributes
                    &&& steps[i].agent.pending is Probing
                    &&& steps[i].factsheet == factsheet
                    &&& steps[i].outcome matches Ok(step)
                    &&& step.action == (ActionView::Probe { url: rest[i + 1] })
                }
            &&& steps.last().agent == waiting_for(
                in_state(agent, AgentState::Finished),
                PendingView::Idle,
            )
            &&& steps.last().factsheet == (FactSheetView {
                external_urls: Some(live + survivors(rest, outcomes)),
                ..factsheet
            })
            &&& steps.last().outcome matches Ok(step)
            &&& step.action is Finish
        }),
    decreases rest.len(),
{
    let events = probe_events(outcomes);
    let first = stepped(agent, factsheet, events[0]);
    assert(first == probe_reported(agent, factsheet, rest, live, outcomes[0]));
    let left = rest.drop_first();
    let kept = if is_live(outcomes[0]) {
        live.push(rest[0])
    } else {
        live
    };
    assert(events.drop_first() =~= probe_events(outcomes.drop_first()));
    let steps = run(agent, factsheet, events);
    let later = run(first.agent, first.factsheet, events.drop_first());
    assert(steps == seq![first] + later);
    assert(live + survivors(rest, outcomes) =~= kept + survivors(left, outcomes.drop_first()));
    if left.len() > 0 {
        lemma_probing_run(first.agent, first.factsheet, left, kept, outcomes.drop_first());
        assert(steps.last() == later.last());
        assert forall|i: int| 0 <= i < steps.len() - 1 implies {
            &&& (#[trigger] steps[i]).agent.attributes == agent.attributes
            &&& steps[i].agent.pending is Probing
            &&& steps[i].factsheet == factsheet
            &&& steps[i].outcome matches Ok(step)
            &&& step.action == (ActionView::Probe { url: rest[i + 1] })
        } by {
            if i > 0 {
                assert(steps[i] == later[i - 1]);
                assert(left[i] == rest[i + 1]);
            }
        }
    } else {
        assert(events.drop_first() =~= Seq::empty());
        assert(later =~= Seq::empty());
        assert(steps =~= seq![first]);
        assert(survivors(left, outcomes.drop_first()) =~= Seq::empty());
        assert(kept + Seq::<Seq<char>>::empty() =~= kept);
    }
}

/// Unit testing keeps the order of the list. An agent that enters unit
/// testing on a fact sheet with URLs probes them one by one in their order,
/// stays in `UnitTesting` with the list untouched until the last probe is
/// reported, and then is `Finished` with exactly the URLs left whose own
/// probe returned 200, in the order they had.
pub proof fn law_unit_testing_keeps_the_live_urls_in_order(
    agent: ArchitectView,
    factsheet: FactSheetView,
    urls: Seq<Seq<char>>,
    outcomes: Seq<ProbeOutcomeView>,
)
    requires
        agent.attributes.state == AgentState::UnitTesting,
        agent.pending is Idle,
        factsheet.external_urls == Some(urls),
        urls.len() > 0,
        outcomes.len() == urls.len(),
    ensures
        ({
            let entry = stepped(agent, factsheet, EventView::Start);
            let steps = run(entry.agent, entry.factsheet, probe_events(outcomes));
            &&& entry.factsheet == factsheet
            &&& entry.agent.attributes == agent.attributes
            &&& entry.outcome matches Ok(step)
            &&& step.action == (ActionView::Probe { url: urls[0] })
            &&& steps.len() == urls.len()
            &&& forall|i: int|
                0 <= i < steps.len() - 1 ==> {
                    &&& (#[trigger] steps[i]).agent.attributes.state == AgentState::UnitTesting
                    &&& steps[i].factsheet == factsheet
                    &&& steps[i].outcome matches Ok(step)
                    &&& step.action == (ActionView::Probe { url: urls[i + 1] })
                }
            &&& steps.last().agent == waiting_for(
                in_state(agent, AgentState::Finished),
                PendingView::Idle,
            )
            &&& steps.last().factsheet == (FactSheetView {
                external_urls: Some(survivors(urls, outcomes)),
                ..factsheet
            })
            &&& steps.last().outcome matches Ok(step)
            &&& step.action is Finish
        }),
{
    let entry = stepped(agent, factsheet, EventView::Start);
    assert(entry == probing_started(agent, factsheet));
    lemma_probing_run(entry.agent, entry.factsheet, urls, Seq::empty(), outcomes);
    assert(Seq::<Seq<char>>::empty() + survivors(urls, outcomes) =~= survivors(urls, outcomes));
}

/// A scope that asks for external URLs takes the run through unit testing.
/// From the decoded scope the agent goes on to the request for URLs, still in
/// its state; the reply puts the list on the fact sheet and the agent into
/// `UnitTesting`; the list stays there, untouched, while the URLs are probed
/// in their order; and after the last probe the agent is `Finished` with the
/// URLs left whose own probe returned 200. The fact sheet holds a list from
/// the reply to the end.
pub proof fn law_required_urls_are_tested(
    agent: ArchitectView,
    factsheet: FactSheetView,
    scope: ProjectScope,
    reply: Seq<char>,
    urls: Seq<Seq<char>>,
    outcomes: Seq<ProbeOutcomeView>,
)
    requires
        agent.pending is ScopeDecoding,
        scope.is_external_urls_required,
        decoded_string_list(reply) == Ok::<Seq<Seq<char>>, DecodeError>(urls),
        urls.len() > 0,
        outcomes.len() == urls.len(),
    ensures
        ({
            let asked = stepped(agent, factsheet, EventView::ScopeDecoded(scope));
            let listed = stepped(asked.agent, asked.factsheet, EventView::ModelReplied(reply));
            let steps = run(listed.agent, listed.factsheet, probe_events(outcomes));
            let written = FactSheetView { project_scope: Some(scope), ..factsheet };
            &&& asked.agent.attributes == agent.attributes
            &&& asked.agent.pending is Urls
            &&& asked.factsheet == written
            &&& listed.agent.attributes.state == AgentState::UnitTesting
            &&& listed.factsheet == (FactSheetView { external_urls: Some(urls), ..written })
            &&& steps.len() == urls.len()
            &&& forall|i: int|
                0 <= i < steps.len() - 1 ==> {
                    &&& (#[trigger] steps[i]).agent.attributes.state == AgentState::UnitTesting
                    &&& steps[i].factsheet == listed.factsheet
                }
            &&& steps.last().agent.attributes.state == AgentState::Finished
            &&& steps.last().agent.pending is Idle
            &&& steps.last().factsheet == (FactSheetView {
                external_urls: Some(survivors(urls, outcomes)),
                ..written
            })
        }),
{
    let asked = stepped(agent, factsheet, EventView::ScopeDecoded(scope));
    let listed = stepped(asked.agent, asked.factsheet, EventView::ModelReplied(reply));
    assert(listed == probing_started(
        in_state(asked.agent, AgentState::UnitTesting),
        FactSheetView { external_urls: Some(urls), ..asked.factsheet },
    ));
    lemma_probing_run(listed.agent, listed.factsheet, urls, Seq::empty(), outcomes);
    assert(Seq::<Seq<char>>::empty() + survivors(urls, outcomes) =~= survivors(urls, outcomes));
}

/// Unit testing changes nothing on a list that is alive throughout. Where
/// every probe returns 200, the fact sheet after the run is the fact sheet
/// before it.
pub proof fn law_unit_testing_keeps_a_live_list(
    agent: ArchitectView,
    factsheet: FactSheetView,
    urls: Seq<Seq<char>>,
    outcomes: Seq<ProbeOutcomeView>,
)
    requires
        agent.attributes.state == AgentState::UnitTesting,
        agent.pending is Idle,
        factsheet.external_urls == Some(urls),
        outcomes.len() == urls.len(),
        forall|i: int| 0 <= i < outcomes.len() ==> is_live(#[trigger] outcomes[i]),
    ensures
        ({
            let entry = stepped(agent, factsheet, EventView::Start);
            let steps = run(entry.agent, entry.factsheet, probe_events(outcomes));
            let last = if urls.len() == 0 {
                entry
            } else {
                steps.last()
            };
            &&& last.factsheet == factsheet
            &&& last.agent == waiting_for(in_state(agent, AgentState::Finished), PendingView::Idle)
        }),
{
    if urls.len() > 0 {
        law_unit_testing_keeps_the_live_urls_in_order(agent, factsheet, urls, outcomes);
        lemma_all_live_survive(urls, outcomes);
    }
}

/// Discovery begins with the request for the scope. The request is announced
/// and carries one system message: the instruction of the scope capability
/// on the project description. The reply goes to the decoder as it is.
pub proof fn law_discovery_asks_for_the_scope(
    agent: ArchitectView,
    factsheet: FactSheetView,
    reply: Seq<char>,
)
    requires
        agent.attributes.state == AgentState::Discovery,
        agent.pending is Idle,
    ensures
        ({
            let request = scope_request(agent, factsheet);
            let first = stepped(agent, factsheet, EventView::Start);
            let second = stepped(first.agent, first.factsheet, EventView::ModelReplied(reply));
            &&& request.message.role == system_role()
            &&& request.message.content == extended_prompt(
                PROJECT_SCOPE_INSTRUCTION@,
                factsheet.project_description,
            )
            &&& first == (Transition {
                agent: waiting_for(agent, PendingView::Scope(request)),
                factsheet,
                outcome: Ok(
                    StepView {
                        notices: seq![request.notice],
                        action: ActionView::AskModel { messages: seq![request.message] },
                    },
                ),
            })
            &&& second == (Transition {
                agent: waiting_for(agent, PendingView::ScopeDecoding),
                factsheet,
                outcome: Ok(
                    StepView {
                        notices: Seq::empty(),
                        action: ActionView::DecodeScope { text: reply },
                    },
                ),
            })
        }),
{
}

/// A successful discovery leaves a scope that asks for something. Whatever
/// the decoder reports to an agent that waits for it, a step that succeeds
/// has written a scope to the fact sheet, and at least one of its three
/// answers is yes.
pub proof fn law_discovery_leaves_a_valid_scope(
    agent: ArchitectView,
    factsheet: FactSheetView,
    event: EventView,
)
    requires
        agent.pending is ScopeDecoding,
        stepped(agent, factsheet, event).outcome is Ok,
    ensures
        stepped(agent, factsheet, event).factsheet.project_scope matches Some(scope)
            && scope.valid() && event == EventView::ScopeDecoded(scope),
{
}

/// No step writes a scope that asks for nothing: where a step changes the
/// scope on the fact sheet, the new scope has a yes among its answers.
pub proof fn law_every_written_scope_is_valid(
    agent: ArchitectView,
    factsheet: FactSheetView,
    event: EventView,
)
    ensures
        ({
            let next = stepped(agent, factsheet, event);
            next.factsheet.project_scope != factsheet.project_scope ==> (
            next.factsheet.project_scope matches Some(scope) && scope.valid())
        }),
{
}

/// A scope without external URLs ends the run at once. The agent is
/// `Finished`, the step asks for nothing, no request for URLs goes out, and
/// the URLs on the fact sheet stay what they were: none at all in a run that
/// started without any.
pub proof fn law_no_urls_unless_required(
    agent: ArchitectView,
    factsheet: FactSheetView,
    scope: ProjectScope,
)
    requires
        agent.pending is ScopeDecoding,
        scope.valid(),
        !scope.is_external_urls_required,
    ensures
        stepped(agent, factsheet, EventView::ScopeDecoded(scope)) == (Transition {
            agent: waiting_for(in_state(agent, AgentState::Finished), PendingView::Idle),
            factsheet: FactSheetView { project_scope: Some(scope), ..factsheet },
            outcome: Ok(StepView { notices: Seq::empty(), action: ActionView::Finish }),
        }),
{
}

/// A request for URLs goes out only for a scope that asks for them. After any
/// step at whose end the agent waits for the reply to a URL request, either
/// it waited for that reply before and the request is being retried, or the
/// step took in a decoded scope whose third answer is yes.
pub proof fn law_url_request_needs_a_scope_that_asks(
    agent: ArchitectView,
    factsheet: FactSheetView,
    event: EventView,
)
    requires
        stepped(agent, factsheet, event).agent.pending is Urls,
    ensures
        agent.pending is Urls || (agent.pending is ScopeDecoding && (
        event matches EventView::ScopeDecoded(scope) && scope.is_external_urls_required)),
{
}

/// A scope that asks for external URLs leads to the request for them, with
/// the agent still in its state and the scope on the fact sheet.
pub proof fn law_urls_requested_when_required(
    agent: ArchitectView,
    factsheet: FactSheetView,
    scope: ProjectScope,
)
    requires
        agent.pending is ScopeDecoding,
        scope.is_external_urls_required,
    ensures
        ({
            let written = FactSheetView { project_scope: Some(scope), ..factsheet };
            let request = urls_request(agent, written);
            stepped(agent, factsheet, EventView::ScopeDecoded(scope)) == (Transition {
                agent: waiting_for(agent, PendingView::Urls(request)),
                factsheet: written,
                outcome: Ok(asking(request)),
            })
        }),
{
}

/// The reply to the URL request puts the agent into unit testing with the
/// decoded list on the fact sheet, and the probe of its first URL is asked
/// for. An empty list leaves nothing to test: it stays on the fact sheet and
/// the run ends.
pub proof fn law_urls_lead_to_unit_testing(
    agent: ArchitectView,
    factsheet: FactSheetView,
    reply: Seq<char>,
    urls: Seq<Seq<char>>,
)
    requires
        agent.pending is Urls,
        decoded_string_list(reply) == Ok::<Seq<Seq<char>>, DecodeError>(urls),
    ensures
        ({
            let next = stepped(agent, factsheet, EventView::ModelReplied(reply));
            let listed = FactSheetView { external_urls: Some(urls), ..factsheet };
            &&& next.factsheet == listed
            &&& urls.len() > 0 ==> {
                &&& next.agent == waiting_for(
                    in_state(agent, AgentState::UnitTesting),
                    PendingView::Probing { rest: urls, live: Seq::empty() },
                )
                &&& next.outcome matches Ok(step)
                &&& step.action == (ActionView::Probe { url: urls[0] })
            }
            &&& urls.len() == 0 ==> next == finished(agent, listed, Seq::empty())
        }),
{
}

/// A failed step loses nothing. Whatever the error, the fact sheet holds what
/// it held before the step, and the agent keeps its state and its other
/// attributes.
pub proof fn law_failure_keeps_what_was_written(
    agent: ArchitectView,
    factsheet: FactSheetView,
    event: EventView,
)
    requires
        stepped(agent, factsheet, event).outcome is Err,
    ensures
        stepped(agent, factsheet, event).factsheet == factsheet,
        stepped(agent, factsheet, event).agent.attributes == agent.attributes,
{
}

/// A reply that cannot be decoded is fatal and writes nothing. The rejected
/// scope reply, the scope that asks for nothing and the reply that is no list
/// of URLs each end the step with their decode error, and the fact sheet
/// stays as it was.
pub proof fn law_decode_failure_is_fatal(
    agent: ArchitectView,
    factsheet: FactSheetView,
    scope: ProjectScope,
    reply: Seq<char>,
)
    ensures
        agent.pending is ScopeDecoding ==> stepped(agent, factsheet, EventView::ScopeRejected) == (
        Transition {
            agent: waiting_for(agent, PendingView::Idle),
            factsheet,
            outcome: Err(RunErrorView::Decode(DecodeError::Malformed)),
        }),
        agent.pending is ScopeDecoding && !scope.valid() ==> stepped(
            agent,
            factsheet,
            EventView::ScopeDecoded(scope),
        ) == (Transition {
            agent: waiting_for(agent, PendingView::Idle),
            factsheet,
            outcome: Err(RunErrorView::Decode(DecodeError::NothingRequested)),
        }),
        agent.pending is Urls && decoded_string_list(reply) is Err ==> stepped(
            agent,
            factsheet,
            EventView::ModelReplied(reply),
        ) == (Transition {
            agent: waiting_for(agent, PendingView::Idle),
            factsheet,
            outcome: Err(RunErrorView::Decode(DecodeError::Malformed)),
        }),
{
}

/// The gateway is called at most twice for one request. The first failure of
/// a request asks for the same message once more, without a notice. The
/// second failure ends the run with the transport error of that failure, and
/// the agent waits for nothing: there is no third call.
pub proof fn law_gateway_failure_is_retried_once(
    agent: ArchitectView,
    factsheet: FactSheetView,
    request: TaskRequestView,
    first: Seq<char>,
    second: Seq<char>,
)
    requires
        agent.pending == PendingView::Scope(request) || agent.pending == PendingView::Urls(
            request,
        ),
        !request.retried,
    ensures
        ({
            let retry = stepped(agent, factsheet, EventView::ModelFailed(first));
            let end = stepped(retry.agent, retry.factsheet, EventView::ModelFailed(second));
            let again = TaskRequestView { retried: true, ..request };
            &&& retry.outcome == Ok::<StepView, RunErrorView>(
                StepView {
                    notices: Seq::empty(),
                    action: ActionView::AskModel { messages: seq![request.message] },
                },
            )
            &&& retry.factsheet == factsheet
            &&& retry.agent.attributes == agent.attributes
            &&& retry.agent.pending == (if agent.pending is Scope {
                PendingView::Scope(again)
            } else {
                PendingView::Urls(again)
            })
            &&& end == (Transition {
                agent: waiting_for(agent, PendingView::Idle),
                factsheet,
                outcome: Err(RunErrorView::Transport(second)),
            })
        }),
{
}

/// A run that has ended stays ended: a finished agent that is started again
/// asks for nothing and changes nothing.
pub proof fn law_finished_is_final(agent: ArchitectView, factsheet: FactSheetView)
    requires
        agent.attributes.state == AgentState::Finished,
        agent.pending is Idle,
    ensures
        stepped(agent, factsheet, EventView::Start) == (Transition {
            agent,
            factsheet,
            outcome: Ok(StepView { notices: Seq::empty(), action: ActionView::Finish }),
        }),
{
}

/// The states follow one another in one direction. A step leaves the agent
/// in the state it was in, or takes it to `Finished`, or takes it to
/// `UnitTesting` with the reply to the URL request. No step leads to
/// `Discovery` or to `Working`.
pub proof fn law_states_only_advance(
    agent: ArchitectView,
    factsheet: FactSheetView,
    event: EventView,
)
    ensures
        ({
            let before = agent.attributes.state;
            let after = stepped(agent, factsheet, event).agent.attributes.state;
            ||| after == before
            ||| after == AgentState::Finished
            ||| (after == AgentState::UnitTesting && agent.pending is Urls && event is ModelReplied)
        }),
{
}

/// How far an agent is from the end of its run: the phases still ahead, and
/// within a phase the calls or probes that it may still ask for.
pub open spec fn distance(agent: ArchitectView) -> (nat, nat) {
    match agent.pending {
        PendingView::Scope(request) => (4, if request.retried {
            0
        } else {
            1
        }),
        PendingView::ScopeDecoding => (3, 0),
        PendingView::Urls(request) => (2, if request.retried {
            0
        } else {
            1
        }),
        PendingView::Probing { rest, live } => (1, rest.len()),
        PendingView::Idle => match agent.attributes.state {
            AgentState::Discovery => (5, 0),
            AgentState::UnitTesting => (2, 0),
            AgentState::Working => (1, 0),
            AgentState::Finished => (0, 0),
        },
    }
}

/// Whether one distance is shorter than another: fewer phases, or in the
/// same phase less to ask for.
pub open spec fn shorter(left: (nat, nat), right: (nat, nat)) -> bool {
    left.0 < right.0 || (left.0 == right.0 && left.1 < right.1)
}

/// No run goes on forever. Every step that asks the driver for more work
/// brings the agent closer to its end, and a step that asks for nothing
/// leaves it `Finished` and waiting for nothing.
pub proof fn law_every_step_makes_progress(
    agent: ArchitectView,
    factsheet: FactSheetView,
    event: EventView,
)
    ensures
        ({
            let next = stepped(agent, factsheet, event);
            next.outcome matches Ok(step) ==> if step.action is Finish {
                next.agent.attributes.state == AgentState::Finished && next.agent.pending is Idle
            } else {
                shorter(distance(next.agent), distance(agent))
            }
        }),
{
}

/// A probe never ends a run with an error. Whatever is reported to an agent
/// that waits for a probe, the step succeeds: a URL that did not answer with
/// 200 is left out and the run goes on.
pub proof fn law_probe_failure_is_never_fatal(
    agent: ArchitectView,
    factsheet: FactSheetView,
    outcome: ProbeOutcomeView,
)
    requires
        agent.pending is Probing,
    ensures
        stepped(agent, factsheet, EventView::Probed(outcome)).outcome is Ok,
{
}

/// A step writes the scope and the URLs and nothing else. The description,
/// the generated code and the endpoint schema of the fact sheet pass through
/// every step as they are; so do the objective, the position and the
/// transcript of the agent.
pub proof fn law_step_writes_scope_and_urls_only(
    agent: ArchitectView,
    factsheet: FactSheetView,
    event: EventView,
)
    ensures
        ({
            let next = stepped(agent, factsheet, event);
            &&& next.factsheet == (FactSheetView {
                project_scope: next.factsheet.project_scope,
                external_urls: next.factsheet.external_urls,
                ..factsheet
            })
            &&& next.agent.attributes == (BasicAgentView {
                state: next.agent.attributes.state,
                ..agent.attributes
            })
        }),
{
}

/// A well-formed fact sheet stays well formed: no step puts a scope that
/// asks for nothing on a fact sheet that held none.
pub proof fn law_step_keeps_fact_sheet_well_formed(
    agent: ArchitectView,
    factsheet: FactSheetView,
    event: EventView,
)
    requires
        factsheet.well_formed(),
    ensures
        stepped(agent, factsheet, event).factsheet.well_formed(),
{
}

/// What holds of every agent that a run can lead to: a request that is with
/// the gateway carries a system message and an announcement of a call to the
/// model, and an agent that waits for a probe has a URL under probe.
pub open spec fn well_formed(agent: ArchitectView) -> bool {
    match agent.pending {
        PendingView::Scope(request) | PendingView::Urls(request) => {
            &&& request.message.role == system_role()
            &&& request.notice.command == PrintCommand::AICall
            &&& request.notice.position == agent.attributes.position
        },
        PendingView::Probing { rest, live } => rest.len() > 0,
        PendingView::Idle | PendingView::ScopeDecoding => true,
    }
}

/// Every agent of a run is well formed: the fresh architect is, and every
/// step leads from a well-formed agent to a well-formed one.
pub proof fn law_runs_keep_the_agent_well_formed(
    agent: ArchitectView,
    factsheet: FactSheetView,
    event: EventView,
)
    requires
        well_formed(agent),
    ensures
        well_formed(fresh_architect()),
        well_formed(stepped(agent, factsheet, event).agent),
{
}

/// What the gateway is given is a conversation it accepts: whenever a step
/// of a well-formed agent asks for a call, the conversation consists of one
/// message, and that message speaks in the system role.
pub proof fn law_the_gateway_gets_one_system_message(
    agent: ArchitectView,
    factsheet: FactSheetView,
    event: EventView,
)
    requires
        well_formed(agent),
    ensures
        stepped(agent, factsheet, event).outcome matches Ok(step) ==> (
        step.action matches ActionView::AskModel { messages } ==> messages.len() == 1
            && messages[0].role == system_role() && messages[0].well_formed()),
{
}

} // verus!
