//! The task request protocol: how a capability and a context become the one
//! message that is sent, how a failed call is retried once, and how the reply
//! is decoded.

use crate::ai_functions::aifunc_architect::Capability;
use crate::apis::call_request::TransportError;
use crate::helpers::command_line::{AgentNotice, AgentNoticeView, PrintCommand};
use crate::models::general::llm::{system_role, Message, MessageView};
use vstd::prelude::*;

verus! {

/// The texts of a list of strings, in order.
pub open spec fn texts(list: Seq<String>) -> Seq<Seq<char>> {
    Seq::new(list.len(), |i: int| list[i]@)
}

/// A copy of a list of strings: the same texts in the same order.
pub fn copy_texts(list: &Vec<String>) -> (copy: Vec<String>)
    ensures
        texts(copy@) == texts(list@),
{
    let mut copy: Vec<String> = Vec::new();
    let mut i: usize = 0;
    while i < list.len()
        invariant
            i <= list.len(),
            copy@.len() == i,
            forall|j: int| 0 <= j < i ==> copy@[j]@ == list@[j]@,
        decreases list.len() - i,
    {
        copy.push(list[i].clone());
        i += 1;
    }
    assert(texts(copy@) =~= texts(list@));
    copy
}

/// The instruction that is sent for a capability on a given input: the
/// capability's own text, then the directive to print the result and nothing
/// else, with the input in its middle.
pub open spec fn extended_prompt(instruction: Seq<char>, input: Seq<char>) -> Seq<char> {
    "FUNCTION: "@ + instruction
        + "\n  INSTRUCTION: You are a function printer. You ONLY print the results of functions.\n  Nothing else. No commentary. Here is the input to the function: "@
        + input + ".\n  Print out what the function will return."@
}

/// The message that asks the model for the result of `ai_func` on
/// `func_input`.
pub fn extend_ai_function(ai_func: &Capability, func_input: &str) -> (message: Message)
    ensures
        message@ == (MessageView {
            role: system_role(),
            content: extended_prompt(ai_func.instruction@, func_input@),
        }),
{
    let mut msg = String::from_str("FUNCTION: ");
    msg.append(ai_func.instruction);
    msg.append(
        "\n  INSTRUCTION: You are a function printer. You ONLY print the results of functions.\n  Nothing else. No commentary. Here is the input to the function: ",
    );
    msg.append(func_input);
    msg.append(".\n  Print out what the function will return.");
    Message::system(msg)
}

/// One exchange with the model gateway that has not ended yet.
#[derive(Debug, Clone)]
pub struct TaskRequest {
    /// What the operator is told before the first call.
    pub notice: AgentNotice,
    /// The one message of the conversation, the same for every call.
    pub message: Message,
    /// Whether the one retry has been used.
    pub retried: bool,
}

/// The mathematical content of a [`TaskRequest`].
pub struct TaskRequestView {
    pub notice: AgentNoticeView,
    pub message: MessageView,
    pub retried: bool,
}

impl View for TaskRequest {
    type V = TaskRequestView;

    open spec fn view(&self) -> TaskRequestView {
        TaskRequestView { notice: self.notice@, message: self.message@, retried: self.retried }
    }
}

/// The request that `ai_task_request` prepares.
pub open spec fn task_request_of(
    msg_context: Seq<char>,
    agent_position: Seq<char>,
    agent_operation: Seq<char>,
    instruction: Seq<char>,
) -> TaskRequestView {
    TaskRequestView {
        notice: AgentNoticeView {
            command: PrintCommand::AICall,
            position: agent_position,
            statement: agent_operation,
        },
        message: MessageView {
            role: system_role(),
            content: extended_prompt(instruction, msg_context),
        },
        retried: false,
    }
}

/// Prepares the exchange in which `agent_position` asks the model for
/// `function_pass` on `msg_context`: the notice that announces
/// `agent_operation`, the message to send, and the retry still unused.
pub fn ai_task_request(
    msg_context: String,
    agent_position: &str,
    agent_operation: &str,
    function_pass: &Capability,
) -> (request: TaskRequest)
    ensures
        request@ == task_request_of(
            msg_context@,
            agent_position@,
            agent_operation@,
            function_pass.instruction@,
        ),
{
    let message = extend_ai_function(function_pass, msg_context.as_str());
    let notice = AgentNotice {
        command: PrintCommand::AICall,
        position: String::from_str(agent_position),
        statement: String::from_str(agent_operation),
    };
    TaskRequest { notice, message, retried: false }
}

/// How an exchange goes on after a call to the gateway.
#[derive(Debug, Clone)]
pub enum TaskOutcome {
    /// The gateway answered: the exchange is over, with this text.
    Reply(String),
    /// The call failed for the first time: send the same message once more.
    Retry(TaskRequest),
    /// The call failed for the second time: the exchange is over.
    Fatal(TransportError),
}

/// The mathematical content of a [`TaskOutcome`].
pub enum TaskOutcomeView {
    Reply(Seq<char>),
    Retry(TaskRequestView),
    Fatal(Seq<char>),
}

impl View for TaskOutcome {
    type V = TaskOutcomeView;

    open spec fn view(&self) -> TaskOutcomeView {
        match self {
            TaskOutcome::Reply(text) => TaskOutcomeView::Reply(text@),
            TaskOutcome::Retry(request) => TaskOutcomeView::Retry(request@),
            TaskOutcome::Fatal(error) => TaskOutcomeView::Fatal(error.detail@),
        }
    }
}

/// The mathematical content of what a gateway call came back with: the text,
/// or the detail of the failure.
pub open spec fn gateway_view(outcome: Result<String, TransportError>) -> Result<
    Seq<char>,
    Seq<char>,
> {
    match outcome {
        Ok(text) => Ok(text@),
        Err(error) => Err(error.detail@),
    }
}

/// The retry rule. A reply ends the exchange. A first failure asks for one
/// more call with the same message. A second failure is final.
pub open spec fn settled(request: TaskRequestView, outcome: Result<Seq<char>, Seq<char>>)
    -> TaskOutcomeView {
    match outcome {
        Ok(text) => TaskOutcomeView::Reply(text),
        Err(detail) => if request.retried {
            TaskOutcomeView::Fatal(detail)
        } else {
            TaskOutcomeView::Retry(TaskRequestView { retried: true, ..request })
        },
    }
}

impl TaskRequest {
    /// The conversation to send: the one message of the request.
    pub fn conversation(&self) -> (messages: Vec<Message>)
        ensures
            messages@.len() == 1,
            messages@[0]@ == self.message@,
    {
        let mut messages = Vec::new();
        messages.push(self.message.duplicate());
        messages
    }

    /// Takes in what the gateway call came back with and says how the
    /// exchange goes on.
    pub fn settle(self, outcome: Result<String, TransportError>) -> (next: TaskOutcome)
        ensures
            next@ == settled(self@, gateway_view(outcome)),
    {
        match outcome {
            Ok(text) => TaskOutcome::Reply(text),
            Err(error) => {
                if self.retried {
                    TaskOutcome::Fatal(error)
                } else {
                    TaskOutcome::Retry(
                        TaskRequest { notice: self.notice, message: self.message, retried: true },
                    )
                }
            },
        }
    }
}

/// A request is sent at most twice. The first failure of a fresh request asks
/// for one more call with the same message. Whatever that call comes back
/// with ends the exchange: its text as the reply, or its failure as the fatal
/// error. Nothing asks for a third call.
pub proof fn law_exactly_one_retry(
    request: TaskRequestView,
    first: Seq<char>,
    second: Result<Seq<char>, Seq<char>>,
)
    requires
        !request.retried,
    ensures
        ({
            let again = TaskRequestView { retried: true, ..request };
            &&& settled(request, Err(first)) == TaskOutcomeView::Retry(again)
            &&& again.message == request.message
            &&& settled(again, second) == match second {
                Ok(text) => TaskOutcomeView::Reply(text),
                Err(detail) => TaskOutcomeView::Fatal(detail),
            }
            &&& !(settled(again, second) is Retry)
        }),
{
}

/// A reply ends an exchange whenever it comes: no call is made after a call
/// that succeeded.
pub proof fn law_reply_ends_the_exchange(request: TaskRequestView, text: Seq<char>)
    ensures
        settled(request, Ok(text)) == TaskOutcomeView::Reply(text),
{
}

/// The model's text did not keep to the contract of the capability.
#[derive(Debug, Clone, Copy, PartialEq, Eq, Structural)]
pub enum DecodeError {
    /// The text is not a value of the expected shape.
    Malformed,
    /// The text is a project scope that asks for nothing.
    NothingRequested,
}

/// The error of `serde_json`. It is taken from the parser and mapped to
/// [`DecodeError`] at once.
#[verifier::external_type_specification]
#[verifier::external_body]
pub struct ExJsonError(serde_json::Error);

/// What `serde_json::from_str::<Vec<String>>` makes of a text: the strings of
/// the JSON array that the text holds, in order, or `None` where the text is
/// not a JSON array of strings.
pub uninterp spec fn json_string_list(text: Seq<char>) -> Option<Seq<Seq<char>>>;

/// `serde_json::from_str` at the type `Vec<String>`. The contract names the
/// result after the text alone: the parser reads nothing else.
#[verifier::external_body]
fn parse_string_list(text: &str) -> (parsed: Result<Vec<String>, serde_json::Error>)
    ensures
        match parsed {
            Ok(list) => json_string_list(text@) == Some(texts(list@)),
            Err(_) => json_string_list(text@) is None,
        },
{
    serde_json::from_str::<Vec<String>>(text)
}

/// What is made of the parser's result: the list as it is, or the one error
/// that stands for every parse failure.
pub fn string_list_from(parsed: Result<Vec<String>, serde_json::Error>) -> (decoded: Result<
    Vec<String>,
    DecodeError,
>)
    ensures
        match parsed {
            Ok(list) => decoded == Ok::<Vec<String>, DecodeError>(list),
            Err(_) => decoded == Err::<Vec<String>, DecodeError>(DecodeError::Malformed),
        },
{
    match parsed {
        Ok(list) => Ok(list),
        Err(_) => Err(DecodeError::Malformed),
    }
}

/// The decoded reply of a request for a list of strings.
pub open spec fn decoded_string_list(llm_response: Seq<char>) -> Result<
    Seq<Seq<char>>,
    DecodeError,
> {
    match json_string_list(llm_response) {
        Some(list) => Ok(list),
        None => Err(DecodeError::Malformed),
    }
}

/// The mathematical content of a decoded list of strings.
pub open spec fn string_list_view(decoded: Result<Vec<String>, DecodeError>) -> Result<
    Seq<Seq<char>>,
    DecodeError,
> {
    match decoded {
        Ok(list) => Ok(texts(list@)),
        Err(error) => Err(error),
    }
}

/// Decodes the reply of a task request whose capability prints a JSON array
/// of strings. A reply of any other shape is an error; nothing is put in its
/// place.
pub fn ai_task_request_decoded(llm_response: &str) -> (decoded: Result<Vec<String>, DecodeError>)
    ensures
        string_list_view(decoded) == decoded_string_list(llm_response@),
{
    string_list_from(parse_string_list(llm_response))
}

} // verus!
