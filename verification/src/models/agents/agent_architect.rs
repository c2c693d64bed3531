//! The solutions architect: from a project description to a project scope
//! and, where the scope asks for them, to external URLs that answer.

use crate::ai_functions::aifunc_architect::{
    print_project_scope, print_site_urls, PROJECT_SCOPE_INSTRUCTION, PROJECT_SCOPE_NAME,
    SITE_URLS_INSTRUCTION, SITE_URLS_NAME,
};
use crate::apis::call_request::TransportError;
use crate::helpers::command_line::{AgentNotice, AgentNoticeView, PrintCommand};
use crate::helpers::general::{
    ai_task_request, ai_task_request_decoded, copy_texts, decoded_string_list, settled,
    string_list_view, task_request_of, texts, DecodeError, TaskOutcome, TaskOutcomeView,
    TaskRequest, TaskRequestView,
};
use crate::models::agent_basic::basic_agent::{AgentState, BasicAgent, BasicAgentView};
use crate::models::agent_basic::basic_traits::BasicTraits;
use crate::models::agents::agent_traits::{
    conversation_view, is_live, notices_view, outcome_view, Action, ActionView, Event, EventView,
    FactSheet, FactSheetView, ProbeOutcome, ProbeOutcomeView, ProjectScope, RunError,
    RunErrorView, SpecialFunctions, Step, StepView,
};
use vstd::prelude::*;

verus! {

/// The outside work that the agent is waiting for.
#[derive(Debug, Clone)]
pub enum Pending {
    /// Nothing has been asked for.
    Idle,
    /// The request for the project scope is with the gateway.
    Scope(TaskRequest),
    /// The reply to the scope request is with the decoder.
    ScopeDecoding,
    /// The request for the external URLs is with the gateway.
    Urls(TaskRequest),
    /// The first URL of `rest` is being probed. `live` holds the URLs probed
    /// before it that answered with 200.
    Probing { rest: Vec<String>, live: Vec<String> },
}

/// The mathematical content of a [`Pending`].
pub enum PendingView {
    Idle,
    Scope(TaskRequestView),
    ScopeDecoding,
    Urls(TaskRequestView),
    Probing { rest: Seq<Seq<char>>, live: Seq<Seq<char>> },
}

impl View for Pending {
    type V = PendingView;

    open spec fn view(&self) -> PendingView {
        match self {
            Pending::Idle => PendingView::Idle,
            Pending::Scope(request) => PendingView::Scope(request@),
            Pending::ScopeDecoding => PendingView::ScopeDecoding,
            Pending::Urls(request) => PendingView::Urls(request@),
            Pending::Probing { rest, live } => PendingView::Probing {
                rest: texts(rest@),
                live: texts(live@),
            },
        }
    }
}

/// The agent in the role of the solutions architect.
#[derive(Debug)]
pub struct AgentSolutionArchitect {
    attributes: BasicAgent,
    pending: Pending,
}

/// The mathematical content of an [`AgentSolutionArchitect`].
pub struct ArchitectView {
    pub attributes: BasicAgentView,
    pub pending: PendingView,
}

impl View for AgentSolutionArchitect {
    type V = ArchitectView;

    closed spec fn view(&self) -> ArchitectView {
        ArchitectView { attributes: self.attributes@, pending: self.pending@ }
    }
}

/// What a step makes of the agent and the fact sheet, and what it returns.
pub struct Transition {
    pub agent: ArchitectView,
    pub factsheet: FactSheetView,
    pub outcome: Result<StepView, RunErrorView>,
}

/// The objective of every solutions architect.
pub open spec fn architect_objective() -> Seq<char> {
    "Gathers information and design solutions for website development"@
}

/// The position of every solutions architect.
pub open spec fn architect_position() -> Seq<char> {
    "Solutions Architect"@
}

/// The architect before its run.
pub open spec fn fresh_architect() -> ArchitectView {
    ArchitectView {
        attributes: BasicAgentView {
            objective: architect_objective(),
            position: architect_position(),
            state: AgentState::Discovery,
            memory: Seq::empty(),
        },
        pending: PendingView::Idle,
    }
}

/// The agent in another state, with nothing else changed.
pub open spec fn in_state(agent: ArchitectView, state: AgentState) -> ArchitectView {
    ArchitectView { attributes: BasicAgentView { state, ..agent.attributes }, ..agent }
}

/// The agent waiting for other work, with nothing else changed.
pub open spec fn waiting_for(agent: ArchitectView, pending: PendingView) -> ArchitectView {
    ArchitectView { pending, ..agent }
}

/// The request for the project scope of the fact sheet's description.
pub open spec fn scope_request(agent: ArchitectView, factsheet: FactSheetView) -> TaskRequestView {
    task_request_of(
        factsheet.project_description,
        agent.attributes.position,
        PROJECT_SCOPE_NAME@,
        PROJECT_SCOPE_INSTRUCTION@,
    )
}

/// The request for the external URLs of the fact sheet's description.
pub open spec fn urls_request(agent: ArchitectView, factsheet: FactSheetView) -> TaskRequestView {
    task_request_of(
        factsheet.project_description,
        agent.attributes.position,
        SITE_URLS_NAME@,
        SITE_URLS_INSTRUCTION@,
    )
}

/// The step that sends a request to the gateway. Only the first call of a
/// request is announced.
pub open spec fn asking(request: TaskRequestView) -> StepView {
    StepView {
        notices: if request.retried {
            Seq::empty()
        } else {
            seq![request.notice]
        },
        action: ActionView::AskModel { messages: seq![request.message] },
    }
}

/// The notice that announces the probe of `url`.
pub open spec fn probe_notice(position: Seq<char>, url: Seq<char>) -> AgentNoticeView {
    AgentNoticeView {
        command: PrintCommand::UnitTest,
        position,
        statement: "Testing URL Endpoint: "@ + url,
    }
}

/// The notice about a probe that did not find its URL alive.
pub open spec fn exclusion_notice(
    position: Seq<char>,
    url: Seq<char>,
    outcome: ProbeOutcomeView,
) -> AgentNoticeView {
    AgentNoticeView {
        command: PrintCommand::Issue,
        position,
        statement: match outcome {
            ProbeOutcomeView::Status(_) => "Excluding URL Endpoint: "@ + url,
            ProbeOutcomeView::Unreachable(detail) => "Error checking "@ + url + ": "@ + detail,
        },
    }
}

/// The notices that the report of a probe gives rise to: none for a live
/// URL, one for any other.
pub open spec fn probe_report(position: Seq<char>, url: Seq<char>, outcome: ProbeOutcomeView)
    -> Seq<AgentNoticeView> {
    if is_live(outcome) {
        Seq::empty()
    } else {
        seq![exclusion_notice(position, url, outcome)]
    }
}

/// The run ends here: the agent is `Finished` and waits for nothing.
pub open spec fn finished(
    agent: ArchitectView,
    factsheet: FactSheetView,
    notices: Seq<AgentNoticeView>,
) -> Transition {
    Transition {
        agent: waiting_for(in_state(agent, AgentState::Finished), PendingView::Idle),
        factsheet,
        outcome: Ok(StepView { notices, action: ActionView::Finish }),
    }
}

/// The run fails here: the agent stays in its state and waits for nothing;
/// the fact sheet keeps what it holds.
pub open spec fn failed(agent: ArchitectView, factsheet: FactSheetView, error: RunErrorView)
    -> Transition {
    Transition { agent: waiting_for(agent, PendingView::Idle), factsheet, outcome: Err(error) }
}

/// The driver reported what the agent did not wait for: nothing changes.
pub open spec fn out_of_turn(agent: ArchitectView, factsheet: FactSheetView) -> Transition {
    Transition { agent, factsheet, outcome: Err(RunErrorView::UnexpectedEvent) }
}

/// The entry into unit testing: the first URL of the fact sheet is probed, or,
/// where the fact sheet holds no URL, the run ends.
pub open spec fn probing_started(
    agent: ArchitectView,
    factsheet: FactSheetView,
) -> Transition {
    match factsheet.external_urls {
        Some(urls) if urls.len() > 0 => Transition {
            agent: waiting_for(agent, PendingView::Probing { rest: urls, live: Seq::empty() }),
            factsheet,
            outcome: Ok(
                StepView {
                    notices: seq![probe_notice(agent.attributes.position, urls[0])],
                    action: ActionView::Probe { url: urls[0] },
                },
            ),
        },
        _ => finished(agent, factsheet, Seq::empty()),
    }
}

/// The start of a run, or its resumption after a failure: the entry action of
/// the state the agent is in. A state without one leads to `Finished`.
pub open spec fn started(agent: ArchitectView, factsheet: FactSheetView) -> Transition {
    match agent.attributes.state {
        AgentState::Discovery => {
            let request = scope_request(agent, factsheet);
            Transition {
                agent: waiting_for(agent, PendingView::Scope(request)),
                factsheet,
                outcome: Ok(asking(request)),
            }
        },
        AgentState::UnitTesting => probing_started(agent, factsheet),
        AgentState::Working | AgentState::Finished => finished(agent, factsheet, Seq::empty()),
    }
}

/// The gateway has answered the scope request: the text goes to the decoder.
pub open spec fn scope_replied(agent: ArchitectView, factsheet: FactSheetView, text: Seq<char>)
    -> Transition {
    Transition {
        agent: waiting_for(agent, PendingView::ScopeDecoding),
        factsheet,
        outcome: Ok(StepView { notices: Seq::empty(), action: ActionView::DecodeScope { text } }),
    }
}

/// The decoder has spoken. A scope that asks for something is written to the
/// fact sheet; it leads to the request for URLs where it asks for them, and
/// to the end of the run where it does not. Anything else is a decode error
/// that leaves the fact sheet as it is.
pub open spec fn scope_decoded(
    agent: ArchitectView,
    factsheet: FactSheetView,
    decoded: Option<ProjectScope>,
) -> Transition {
    match decoded {
        None => failed(agent, factsheet, RunErrorView::Decode(DecodeError::Malformed)),
        Some(scope) => if !scope.valid() {
            failed(agent, factsheet, RunErrorView::Decode(DecodeError::NothingRequested))
        } else {
            let written = FactSheetView { project_scope: Some(scope), ..factsheet };
            if scope.is_external_urls_required {
                let request = urls_request(agent, written);
                Transition {
                    agent: waiting_for(agent, PendingView::Urls(request)),
                    factsheet: written,
                    outcome: Ok(asking(request)),
                }
            } else {
                finished(agent, written, Seq::empty())
            }
        },
    }
}

/// The reply to the URL request has been decoded. A list is written to the
/// fact sheet and the agent enters unit testing; a decode error leaves both
/// as they are.
pub open spec fn urls_decoded(
    agent: ArchitectView,
    factsheet: FactSheetView,
    decoded: Result<Seq<Seq<char>>, DecodeError>,
) -> Transition {
    match decoded {
        Ok(urls) => probing_started(
            in_state(agent, AgentState::UnitTesting),
            FactSheetView { external_urls: Some(urls), ..factsheet },
        ),
        Err(error) => failed(agent, factsheet, RunErrorView::Decode(error)),
    }
}

/// The gateway call of `request` has failed: the one retry, or the end.
pub open spec fn gateway_failed(
    agent: ArchitectView,
    factsheet: FactSheetView,
    request: TaskRequestView,
    for_urls: bool,
    detail: Seq<char>,
) -> Transition {
    match settled(request, Err(detail)) {
        TaskOutcomeView::Retry(again) => Transition {
            agent: waiting_for(
                agent,
                if for_urls {
                    PendingView::Urls(again)
                } else {
                    PendingView::Scope(again)
                },
            ),
            factsheet,
            outcome: Ok(asking(again)),
        },
        TaskOutcomeView::Fatal(last) => failed(agent, factsheet, RunErrorView::Transport(last)),
        TaskOutcomeView::Reply(_) => out_of_turn(agent, factsheet),
    }
}

/// The probe of the first URL of `rest` has been reported. The URL joins the
/// live ones if it answered with 200. Then the next URL is probed, or, after
/// the last one, the live URLs replace the list on the fact sheet and the run
/// ends.
pub open spec fn probe_reported(
    agent: ArchitectView,
    factsheet: FactSheetView,
    rest: Seq<Seq<char>>,
    live: Seq<Seq<char>>,
    outcome: ProbeOutcomeView,
) -> Transition {
    if rest.len() == 0 {
        finished(agent, FactSheetView { external_urls: Some(live), ..factsheet }, Seq::empty())
    } else {
        let position = agent.attributes.position;
        let report = probe_report(position, rest[0], outcome);
        let kept = if is_live(outcome) {
            live.push(rest[0])
        } else {
            live
        };
        let left = rest.drop_first();
        if left.len() > 0 {
            Transition {
                agent: waiting_for(agent, PendingView::Probing { rest: left, live: kept }),
                factsheet,
                outcome: Ok(
                    StepView {
                        notices: report.push(probe_notice(position, left[0])),
                        action: ActionView::Probe { url: left[0] },
                    },
                ),
            }
        } else {
            finished(agent, FactSheetView { external_urls: Some(kept), ..factsheet }, report)
        }
    }
}

/// One step of the architect: what an event makes of the agent and the fact
/// sheet, and what the driver is asked to do next. An event that does not
/// answer what the agent waits for changes nothing and is an error.
pub open spec fn stepped(agent: ArchitectView, factsheet: FactSheetView, event: EventView)
    -> Transition {
    match (agent.pending, event) {
        (PendingView::Idle, EventView::Start) => started(agent, factsheet),
        (PendingView::Scope(_), EventView::ModelReplied(text)) => scope_replied(
            agent,
            factsheet,
            text,
        ),
        (PendingView::Scope(request), EventView::ModelFailed(detail)) => gateway_failed(
            agent,
            factsheet,
            request,
            false,
            detail,
        ),
        (PendingView::ScopeDecoding, EventView::ScopeDecoded(scope)) => scope_decoded(
            agent,
            factsheet,
            Some(scope),
        ),
        (PendingView::ScopeDecoding, EventView::ScopeRejected) => scope_decoded(
            agent,
            factsheet,
            None,
        ),
        (PendingView::Urls(_), EventView::ModelReplied(text)) => urls_decoded(
            agent,
            factsheet,
            decoded_string_list(text),
        ),
        (PendingView::Urls(request), EventView::ModelFailed(detail)) => gateway_failed(
            agent,
            factsheet,
            request,
            true,
            detail,
        ),
        (PendingView::Probing { rest, live }, EventView::Probed(outcome)) => probe_reported(
            agent,
            factsheet,
            rest,
            live,
            outcome,
        ),
        _ => out_of_turn(agent, factsheet),
    }
}

/// The notice that announces the probe of `url`.
fn probe_announcement(position: &str, url: &str) -> (notice: AgentNotice)
    ensures
        notice@ == probe_notice(position@, url@),
{
    let mut statement = String::from_str("Testing URL Endpoint: ");
    statement.append(url);
    AgentNotice {
        command: PrintCommand::UnitTest,
        position: String::from_str(position),
        statement,
    }
}

/// The notice about a probe that did not find `url` alive.
fn exclusion(position: &str, url: &str, outcome: &ProbeOutcome) -> (notice: AgentNotice)
    ensures
        notice@ == exclusion_notice(position@, url@, outcome@),
{
    let statement = match outcome {
        ProbeOutcome::Status(_) => {
            let mut statement = String::from_str("Excluding URL Endpoint: ");
            statement.append(url);
            statement
        },
        ProbeOutcome::Unreachable(detail) => {
            let mut statement = String::from_str("Error checking ");
            statement.append(url);
            statement.append(": ");
            statement.append(detail.as_str());
            statement
        },
    };
    AgentNotice { command: PrintCommand::Issue, position: String::from_str(position), statement }
}

/// The step that sends `request` to the gateway.
fn asking_step(request: &TaskRequest) -> (step: Step)
    ensures
        step@ == asking(request@),
{
    let mut notices: Vec<AgentNotice> = Vec::new();
    if !request.retried {
        notices.push(request.notice.duplicate());
    }
    let messages = request.conversation();
    assert(notices_view(notices@) =~= asking(request@).notices);
    assert(conversation_view(messages@) =~= seq![request.message@]);
    Step { notices, action: Action::AskModel { messages } }
}

impl AgentSolutionArchitect {
    /// The architect before its run: in `Discovery`, waiting for nothing.
    pub fn new() -> (agent: Self)
        ensures
            agent@ == fresh_architect(),
    {
        let attributes = BasicAgent::new(
            "Gathers information and design solutions for website development".to_string(),
            "Solutions Architect".to_string(),
        );
        Self { attributes, pending: Pending::Idle }
    }

    /// What the agent is waiting for.
    pub fn pending(&self) -> (pending: &Pending)
        ensures
            pending@ == self@.pending,
    {
        &self.pending
    }

    /// Hands out what the agent is waiting for and leaves it waiting for
    /// nothing.
    fn take_pending(&mut self) -> (pending: Pending)
        ensures
            pending@ == old(self)@.pending,
            final(self)@ == waiting_for(old(self)@, PendingView::Idle),
    {
        let mut pending = Pending::Idle;
        core::mem::swap(&mut self.pending, &mut pending);
        pending
    }

    /// Ends the run.
    fn finish(&mut self, notices: Vec<AgentNotice>) -> (step: Step)
        ensures
            final(self)@ == waiting_for(
                in_state(old(self)@, AgentState::Finished),
                PendingView::Idle,
            ),
            step@ == (StepView { notices: notices_view(notices@), action: ActionView::Finish }),
    {
        self.attributes.state = AgentState::Finished;
        self.pending = Pending::Idle;
        Step { notices, action: Action::Finish }
    }

    /// Asks the model for the scope of the project that the fact sheet
    /// describes.
    fn call_project_scope(&mut self, factsheet: &FactSheet) -> (step: Step)
        ensures
            final(self)@ == waiting_for(
                old(self)@,
                PendingView::Scope(scope_request(old(self)@, factsheet@)),
            ),
            step@ == asking(scope_request(old(self)@, factsheet@)),
    {
        let capability = print_project_scope();
        let request = ai_task_request(
            factsheet.project_description.clone(),
            self.attributes.position.as_str(),
            capability.name,
            &capability,
        );
        let step = asking_step(&request);
        self.pending = Pending::Scope(request);
        step
    }

    /// Asks the model for the external URLs of the project that the fact
    /// sheet describes.
    fn call_determine_external_urls(&mut self, factsheet: &FactSheet) -> (step: Step)
        ensures
            final(self)@ == waiting_for(
                old(self)@,
                PendingView::Urls(urls_request(old(self)@, factsheet@)),
            ),
            step@ == asking(urls_request(old(self)@, factsheet@)),
    {
        let capability = print_site_urls();
        let request = ai_task_request(
            factsheet.project_description.clone(),
            self.attributes.position.as_str(),
            capability.name,
            &capability,
        );
        let step = asking_step(&request);
        self.pending = Pending::Urls(request);
        step
    }

    /// Enters unit testing on the URLs of the fact sheet.
    fn start_probing(&mut self, factsheet: &FactSheet) -> (outcome: Result<Step, RunError>)
        ensures
            (Transition {
                agent: final(self)@,
                factsheet: factsheet@,
                outcome: outcome_view(outcome),
            }) == probing_started(old(self)@, factsheet@),
    {
        match &factsheet.external_urls {
            Some(urls) => {
                if urls.len() > 0 {
                    let rest = copy_texts(urls);
                    assert(texts(rest@).len() == rest@.len());
                    assert(texts(rest@)[0] == rest@[0]@);
                    let first = rest[0].clone();
                    let mut notices: Vec<AgentNotice> = Vec::new();
                    notices.push(
                        probe_announcement(self.attributes.position.as_str(), first.as_str()),
                    );
                    let live: Vec<String> = Vec::new();
                    assert(texts(live@) =~= Seq::empty());
                    assert(notices_view(notices@) =~= seq![
                        probe_notice(old(self)@.attributes.position, texts(urls@)[0]),
                    ]);
                    self.pending = Pending::Probing { rest, live };
                    return Ok(Step { notices, action: Action::Probe { url: first } });
                }
            },
            None => {},
        }
        let notices: Vec<AgentNotice> = Vec::new();
        assert(notices_view(notices@) =~= Seq::empty());
        Ok(self.finish(notices))
    }

    /// Starts the run, or takes it up again, with the entry action of the
    /// agent's state.
    fn begin(&mut self, factsheet: &FactSheet) -> (outcome: Result<Step, RunError>)
        ensures
            (Transition {
                agent: final(self)@,
                factsheet: factsheet@,
                outcome: outcome_view(outcome),
            }) == started(old(self)@, factsheet@),
    {
        match self.attributes.state {
            AgentState::Discovery => Ok(self.call_project_scope(factsheet)),
            AgentState::UnitTesting => self.start_probing(factsheet),
            _ => {
                let notices: Vec<AgentNotice> = Vec::new();
                assert(notices_view(notices@) =~= Seq::empty());
                Ok(self.finish(notices))
            },
        }
    }

    /// Takes in the completion that the gateway returned.
    fn on_reply(&mut self, factsheet: &mut FactSheet, text: String) -> (outcome: Result<
        Step,
        RunError,
    >)
        ensures
            (Transition {
                agent: final(self)@,
                factsheet: final(factsheet)@,
                outcome: outcome_view(outcome),
            }) == stepped(old(self)@, old(factsheet)@, EventView::ModelReplied(text@)),
    {
        let pending = self.take_pending();
        match pending {
            Pending::Scope(_) => {
                self.pending = Pending::ScopeDecoding;
                let notices: Vec<AgentNotice> = Vec::new();
                assert(notices_view(notices@) =~= Seq::empty());
                Ok(Step { notices, action: Action::DecodeScope { text } })
            },
            Pending::Urls(request) => {
                self.pending = Pending::Urls(request);
                let decoded = ai_task_request_decoded(text.as_str());
                self.take_urls(factsheet, decoded)
            },
            other => {
                self.pending = other;
                Err(RunError::UnexpectedEvent)
            },
        }
    }

    /// Takes in the decoded reply to the request for URLs: writes the list to
    /// the fact sheet and enters unit testing, or fails with the decode
    /// error. Where the agent does not wait for that reply, nothing changes.
    pub fn take_urls(
        &mut self,
        factsheet: &mut FactSheet,
        decoded: Result<Vec<String>, DecodeError>,
    ) -> (outcome: Result<Step, RunError>)
        ensures
            (Transition {
                agent: final(self)@,
                factsheet: final(factsheet)@,
                outcome: outcome_view(outcome),
            }) == if old(self)@.pending is Urls {
                urls_decoded(old(self)@, old(factsheet)@, string_list_view(decoded))
            } else {
                out_of_turn(old(self)@, old(factsheet)@)
            },
    {
        match &self.pending {
            Pending::Urls(_) => {},
            _ => {
                return Err(RunError::UnexpectedEvent);
            },
        }
        match decoded {
            Ok(urls) => {
                factsheet.external_urls = Some(urls);
                self.attributes.state = AgentState::UnitTesting;
                self.start_probing(factsheet)
            },
            Err(error) => {
                self.pending = Pending::Idle;
                Err(RunError::Decode(error))
            },
        }
    }

    /// Takes in the failure of a gateway call.
    fn on_failure(&mut self, factsheet: &FactSheet, error: TransportError) -> (outcome: Result<
        Step,
        RunError,
    >)
        ensures
            (Transition {
                agent: final(self)@,
                factsheet: factsheet@,
                outcome: outcome_view(outcome),
            }) == stepped(old(self)@, factsheet@, EventView::ModelFailed(error.detail@)),
    {
        let pending = self.take_pending();
        match pending {
            Pending::Scope(request) => {
                match request.settle(Err(error)) {
                    TaskOutcome::Retry(again) => {
                        let step = asking_step(&again);
                        self.pending = Pending::Scope(again);
                        Ok(step)
                    },
                    TaskOutcome::Fatal(last) => Err(RunError::Transport(last)),
                    TaskOutcome::Reply(_) => Err(RunError::UnexpectedEvent),
                }
            },
            Pending::Urls(request) => {
                match request.settle(Err(error)) {
                    TaskOutcome::Retry(again) => {
                        let step = asking_step(&again);
                        self.pending = Pending::Urls(again);
                        Ok(step)
                    },
                    TaskOutcome::Fatal(last) => Err(RunError::Transport(last)),
                    TaskOutcome::Reply(_) => Err(RunError::UnexpectedEvent),
                }
            },
            other => {
                self.pending = other;
                Err(RunError::UnexpectedEvent)
            },
        }
    }

    /// Takes in what the decoder made of the reply to the scope request.
    fn on_scope(&mut self, factsheet: &mut FactSheet, decoded: Option<ProjectScope>) -> (outcome:
        Result<Step, RunError>)
        ensures
            (Transition {
                agent: final(self)@,
                factsheet: final(factsheet)@,
                outcome: outcome_view(outcome),
            }) == if old(self)@.pending is ScopeDecoding {
                scope_decoded(old(self)@, old(factsheet)@, decoded)
            } else {
                out_of_turn(old(self)@, old(factsheet)@)
            },
    {
        match &self.pending {
            Pending::ScopeDecoding => {},
            _ => {
                return Err(RunError::UnexpectedEvent);
            },
        }
        self.pending = Pending::Idle;
        match decoded {
            None => Err(RunError::Decode(DecodeError::Malformed)),
            Some(scope) => {
                if !scope.is_valid() {
                    Err(RunError::Decode(DecodeError::NothingRequested))
                } else {
                    factsheet.project_scope = Some(scope);
                    if scope.is_external_urls_required {
                        Ok(self.call_determine_external_urls(factsheet))
                    } else {
                        let notices: Vec<AgentNotice> = Vec::new();
                        assert(notices_view(notices@) =~= Seq::empty());
                        Ok(self.finish(notices))
                    }
                }
            },
        }
    }

    /// Takes in the report of a probe.
    fn on_probe(&mut self, factsheet: &mut FactSheet, outcome: ProbeOutcome) -> (next: Result<
        Step,
        RunError,
    >)
        ensures
            (Transition {
                agent: final(self)@,
                factsheet: final(factsheet)@,
                outcome: outcome_view(next),
            }) == stepped(old(self)@, old(factsheet)@, EventView::Probed(outcome@)),
    {
        let pending = self.take_pending();
        match pending {
            Pending::Probing { rest, live } => {
                let mut rest = rest;
                let mut live = live;
                let mut notices: Vec<AgentNotice> = Vec::new();
                assert(notices_view(notices@) =~= Seq::empty());
                if rest.len() == 0 {
                    assert(texts(rest@).len() == 0);
                    factsheet.external_urls = Some(live);
                    return Ok(self.finish(notices));
                }
                let ghost before = texts(rest@);
                let ghost kept = texts(live@);
                assert(before.len() == rest@.len());
                assert(before[0] == rest@[0]@);
                let url = rest.remove(0);
                assert(texts(rest@) =~= before.drop_first());
                if outcome.is_live() {
                    live.push(url);
                    assert(texts(live@) =~= kept.push(before[0]));
                } else {
                    notices.push(
                        exclusion(self.attributes.position.as_str(), url.as_str(), &outcome),
                    );
                }
                assert(notices_view(notices@) =~= probe_report(
                    old(self)@.attributes.position,
                    before[0],
                    outcome@,
                ));
                if rest.len() > 0 {
                    assert(texts(rest@)[0] == rest@[0]@);
                    let next_url = rest[0].clone();
                    let ghost report = notices_view(notices@);
                    notices.push(
                        probe_announcement(self.attributes.position.as_str(), next_url.as_str()),
                    );
                    assert(notices_view(notices@) =~= report.push(
                        probe_notice(old(self)@.attributes.position, before.drop_first()[0]),
                    ));
                    self.pending = Pending::Probing { rest, live };
                    Ok(Step { notices, action: Action::Probe { url: next_url } })
                } else {
                    factsheet.external_urls = Some(live);
                    Ok(self.finish(notices))
                }
            },
            other => {
                self.pending = other;
                Err(RunError::UnexpectedEvent)
            },
        }
    }
}

impl SpecialFunctions for AgentSolutionArchitect {
    open spec fn attributes(&self) -> BasicAgentView {
        self@.attributes
    }

    fn get_attributes_from_agent(&self) -> (attributes: &BasicAgent) {
        &self.attributes
    }

    /// One step of the architect, as [`stepped`] defines it.
    fn execute(&mut self, factsheet: &mut FactSheet, event: Event) -> (outcome: Result<
        Step,
        RunError,
    >)
        ensures
            (Transition {
                agent: final(self)@,
                factsheet: final(factsheet)@,
                outcome: outcome_view(outcome),
            }) == stepped(old(self)@, old(factsheet)@, event@),
    {
        match event {
            Event::Start => {
                match &self.pending {
                    Pending::Idle => self.begin(factsheet),
                    _ => Err(RunError::UnexpectedEvent),
                }
            },
            Event::ModelReplied(text) => self.on_reply(factsheet, text),
            Event::ModelFailed(error) => self.on_failure(factsheet, error),
            Event::ScopeDecoded(scope) => self.on_scope(factsheet, Some(scope)),
            Event::ScopeRejected => self.on_scope(factsheet, None),
            Event::Probed(outcome) => self.on_probe(factsheet, outcome),
        }
    }
}

} // verus!
