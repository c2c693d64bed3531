//! The fact sheet that a run fills in, and the exchange between an agent and
//! the driver that does its outside work.

use crate::apis::call_request::TransportError;
use crate::helpers::command_line::{AgentNotice, AgentNoticeView};
use crate::helpers::general::{texts, DecodeError};
use crate::models::agent_basic::basic_agent::{AgentState, BasicAgent, BasicAgentView};
use crate::models::general::llm::{Message, MessageView};
use vstd::prelude::*;

verus! {

/// A JSON value of `serde_json`. The engine never looks inside one; it only
/// carries the values that later stages put on the fact sheet.
#[verifier::external_type_specification]
#[verifier::external_body]
pub struct ExJsonValue(serde_json::Value);

/// `Clone::clone` of `serde_json::Value`, which the crate derives: the copy
/// is the same JSON value.
pub assume_specification[ <serde_json::Value as Clone>::clone ](value: &serde_json::Value) -> (copy:
    serde_json::Value)
    ensures
        copy == *value,
;

/// One endpoint of the generated back end, as a later stage records it.
#[derive(Debug, Clone, PartialEq)]
pub struct RouteObject {
    pub is_route_dynamic: String,
    pub method: String,
    pub request_body: serde_json::Value,
    pub response: serde_json::Value,
    pub route: String,
}

/// What the project needs, as three yes/no answers.
#[derive(Debug, Clone, Copy, PartialEq, Eq, Structural)]
pub struct ProjectScope {
    pub is_crud_required: bool,
    pub is_user_login_and_logout: bool,
    pub is_external_urls_required: bool,
}

impl ProjectScope {
    /// A scope asks for something: at least one of the three answers is yes.
    pub open spec fn valid(&self) -> bool {
        self.is_crud_required || self.is_user_login_and_logout || self.is_external_urls_required
    }

    /// Whether the scope asks for anything at all.
    pub fn is_valid(&self) -> (valid: bool)
        ensures
            valid == self.valid(),
    {
        self.is_crud_required || self.is_user_login_and_logout || self.is_external_urls_required
    }
}

/// The work product of one run. The caller owns it and lends it to the agent
/// for each step.
#[derive(Debug, Clone, PartialEq)]
pub struct FactSheet {
    pub project_description: String,
    pub project_scope: Option<ProjectScope>,
    pub external_urls: Option<Vec<String>>,
    pub backend_code: Option<String>,
    pub api_endpoint_schema: Option<Vec<RouteObject>>,
}

/// The mathematical content of a [`FactSheet`]. The last two fields belong to
/// later stages and are carried as they are.
pub struct FactSheetView {
    pub project_description: Seq<char>,
    pub project_scope: Option<ProjectScope>,
    pub external_urls: Option<Seq<Seq<char>>>,
    pub backend_code: Option<String>,
    pub api_endpoint_schema: Option<Vec<RouteObject>>,
}

impl FactSheetView {
    /// A fact sheet is well formed when the scope it holds, if it holds one,
    /// asks for something.
    pub open spec fn well_formed(&self) -> bool {
        self.project_scope matches Some(scope) ==> scope.valid()
    }
}

impl View for FactSheet {
    type V = FactSheetView;

    open spec fn view(&self) -> FactSheetView {
        FactSheetView {
            project_description: self.project_description@,
            project_scope: self.project_scope,
            external_urls: match self.external_urls {
                Some(urls) => Some(texts(urls@)),
                None => None,
            },
            backend_code: self.backend_code,
            api_endpoint_schema: self.api_endpoint_schema,
        }
    }
}

impl FactSheet {
    /// The fact sheet at the start of a run: the description and nothing else.
    pub fn new(project_description: String) -> (factsheet: FactSheet)
        ensures
            factsheet@ == (FactSheetView {
                project_description: project_description@,
                project_scope: None,
                external_urls: None,
                backend_code: None,
                api_endpoint_schema: None,
            }),
    {
        FactSheet {
            project_description,
            project_scope: None,
            external_urls: None,
            backend_code: None,
            api_endpoint_schema: None,
        }
    }
}

/// Why a run ended before the agent had finished.
#[derive(Debug, Clone, PartialEq, Eq)]
pub enum RunError {
    /// No credential for the model gateway is configured.
    Configuration,
    /// The gateway failed, and failed again on the one retry.
    Transport(TransportError),
    /// The model ignored the output contract.
    Decode(DecodeError),
    /// The driver reported something that the agent had not asked for.
    UnexpectedEvent,
}

/// The mathematical content of a [`RunError`].
pub enum RunErrorView {
    Configuration,
    Transport(Seq<char>),
    Decode(DecodeError),
    UnexpectedEvent,
}

impl View for RunError {
    type V = RunErrorView;

    open spec fn view(&self) -> RunErrorView {
        match self {
            RunError::Configuration => RunErrorView::Configuration,
            RunError::Transport(error) => RunErrorView::Transport(error.detail@),
            RunError::Decode(error) => RunErrorView::Decode(*error),
            RunError::UnexpectedEvent => RunErrorView::UnexpectedEvent,
        }
    }
}

/// What a liveness probe of one URL came back with.
#[derive(Debug, Clone, PartialEq, Eq)]
pub enum ProbeOutcome {
    /// The status code of the response.
    Status(u16),
    /// No response: the request failed or ran into its timeout.
    Unreachable(String),
}

/// The mathematical content of a [`ProbeOutcome`].
pub enum ProbeOutcomeView {
    Status(u16),
    Unreachable(Seq<char>),
}

impl View for ProbeOutcome {
    type V = ProbeOutcomeView;

    open spec fn view(&self) -> ProbeOutcomeView {
        match self {
            ProbeOutcome::Status(code) => ProbeOutcomeView::Status(*code),
            ProbeOutcome::Unreachable(detail) => ProbeOutcomeView::Unreachable(detail@),
        }
    }
}

/// Whether a probe found its URL alive: the response had status 200.
pub open spec fn is_live(outcome: ProbeOutcomeView) -> bool {
    outcome == ProbeOutcomeView::Status(200)
}

impl ProbeOutcome {
    /// Whether the probed URL is alive. Any other status, and no response at
    /// all, count against it.
    pub fn is_live(&self) -> (live: bool)
        ensures
            live == is_live(self@),
    {
        match self {
            ProbeOutcome::Status(code) => *code == 200,
            ProbeOutcome::Unreachable(_) => false,
        }
    }
}

/// What the driver tells the agent: that the run begins, or how the action
/// that the agent asked for last has ended.
#[derive(Debug, Clone, PartialEq, Eq)]
pub enum Event {
    /// Nothing has been asked yet.
    Start,
    /// The gateway returned this completion.
    ModelReplied(String),
    /// The gateway call failed.
    ModelFailed(TransportError),
    /// The text handed out for decoding is this project scope.
    ScopeDecoded(ProjectScope),
    /// The text handed out for decoding is no project scope.
    ScopeRejected,
    /// The probe ended like this.
    Probed(ProbeOutcome),
}

/// The mathematical content of an [`Event`].
pub enum EventView {
    Start,
    ModelReplied(Seq<char>),
    ModelFailed(Seq<char>),
    ScopeDecoded(ProjectScope),
    ScopeRejected,
    Probed(ProbeOutcomeView),
}

impl View for Event {
    type V = EventView;

    open spec fn view(&self) -> EventView {
        match self {
            Event::Start => EventView::Start,
            Event::ModelReplied(text) => EventView::ModelReplied(text@),
            Event::ModelFailed(error) => EventView::ModelFailed(error.detail@),
            Event::ScopeDecoded(scope) => EventView::ScopeDecoded(*scope),
            Event::ScopeRejected => EventView::ScopeRejected,
            Event::Probed(outcome) => EventView::Probed(outcome@),
        }
    }
}

/// The outside work that the agent asks of its driver.
#[derive(Debug, Clone)]
pub enum Action {
    /// Send this conversation to the model gateway.
    AskModel { messages: Vec<Message> },
    /// Decode this text as a project scope.
    DecodeScope { text: String },
    /// Request this URL and report the status.
    Probe { url: String },
    /// Nothing: the agent has finished.
    Finish,
}

/// The views of the messages of a conversation, in order.
pub open spec fn conversation_view(messages: Seq<Message>) -> Seq<MessageView> {
    Seq::new(messages.len(), |i: int| messages[i]@)
}

/// The mathematical content of an [`Action`].
pub enum ActionView {
    AskModel { messages: Seq<MessageView> },
    DecodeScope { text: Seq<char> },
    Probe { url: Seq<char> },
    Finish,
}

impl View for Action {
    type V = ActionView;

    open spec fn view(&self) -> ActionView {
        match self {
            Action::AskModel { messages } => ActionView::AskModel {
                messages: conversation_view(messages@),
            },
            Action::DecodeScope { text } => ActionView::DecodeScope { text: text@ },
            Action::Probe { url } => ActionView::Probe { url: url@ },
            Action::Finish => ActionView::Finish,
        }
    }
}

/// The views of a list of notices, in order.
pub open spec fn notices_view(notices: Seq<AgentNotice>) -> Seq<AgentNoticeView> {
    Seq::new(notices.len(), |i: int| notices[i]@)
}

/// One step of a run: what to show the operator, then what to do.
#[derive(Debug, Clone)]
pub struct Step {
    pub notices: Vec<AgentNotice>,
    pub action: Action,
}

/// The mathematical content of a [`Step`].
pub struct StepView {
    pub notices: Seq<AgentNoticeView>,
    pub action: ActionView,
}

impl View for Step {
    type V = StepView;

    open spec fn view(&self) -> StepView {
        StepView { notices: notices_view(self.notices@), action: self.action@ }
    }
}

/// What every agent offers to the one that runs it.
pub trait SpecialFunctions {
    /// The attributes of the agent.
    spec fn attributes(&self) -> BasicAgentView;

    /// Read access to the attributes of the agent.
    fn get_attributes_from_agent(&self) -> (attributes: &BasicAgent)
        ensures
            attributes@ == self.attributes(),
    ;

    /// Takes the run one step further: `event` reports how the last action
    /// ended, and the result says what to do next. Objective, position and
    /// transcript never change, and a step that asks for nothing more leaves
    /// the agent `Finished`.
    fn execute(&mut self, factsheet: &mut FactSheet, event: Event) -> (outcome: Result<
        Step,
        RunError,
    >)
        ensures
            final(self).attributes().objective == old(self).attributes().objective,
            final(self).attributes().position == old(self).attributes().position,
            final(self).attributes().memory == old(self).attributes().memory,
            outcome matches Ok(step) && step.action is Finish ==> final(self).attributes().state
                == AgentState::Finished,
    ;
}

/// The mathematical content of the result of a step.
pub open spec fn outcome_view(outcome: Result<Step, RunError>) -> Result<StepView, RunErrorView> {
    match outcome {
        Ok(step) => Ok(step@),
        Err(error) => Err(error@),
    }
}

} // verus!
