//! What is shown to the operator, and in which colour.

use vstd::prelude::*;

verus! {

/// The kind of a notice; it decides the colour of the statement.
#[derive(Debug, Clone, Copy, PartialEq, Eq, Structural)]
pub enum PrintCommand {
    AICall,
    UnitTest,
    Issue,
}

/// The colours that notices and questions are shown in.
#[derive(Debug, Clone, Copy, PartialEq, Eq, Structural)]
pub enum Color {
    Green,
    Cyan,
    Magenta,
    Red,
    Blue,
}

/// A piece of text and the colour to show it in.
#[derive(Debug, Clone, PartialEq, Eq)]
pub struct Styled {
    pub color: Color,
    pub text: String,
}

/// The mathematical content of a [`Styled`] text.
pub struct StyledView {
    pub color: Color,
    pub text: Seq<char>,
}

impl View for Styled {
    type V = StyledView;

    open spec fn view(&self) -> StyledView {
        StyledView { color: self.color, text: self.text@ }
    }
}

/// The colour of the statement of a notice of the given kind.
pub open spec fn statement_color_of(command: PrintCommand) -> Color {
    match command {
        PrintCommand::AICall => Color::Cyan,
        PrintCommand::UnitTest => Color::Magenta,
        PrintCommand::Issue => Color::Red,
    }
}

/// What precedes the agent's position in every notice.
pub open spec fn agent_label() -> Seq<char> {
    "Agent:"@
}

/// The line break that ends every notice.
pub open spec fn line_end() -> Seq<char> {
    "\n"@
}

/// The two parts of a notice as they are shown: the agent's position behind
/// its label, in green, and the statement with its line break, in the colour
/// of its kind.
pub open spec fn agent_message_of(
    command: PrintCommand,
    agent_pos: Seq<char>,
    agent_statement: Seq<char>,
) -> (StyledView, StyledView) {
    (
        StyledView { color: Color::Green, text: agent_label() + agent_pos },
        StyledView { color: statement_color_of(command), text: agent_statement + line_end() },
    )
}

impl PrintCommand {
    /// The colour in which a statement of this kind is shown.
    pub fn statement_color(&self) -> (color: Color)
        ensures
            color == statement_color_of(*self),
    {
        match self {
            PrintCommand::AICall => Color::Cyan,
            PrintCommand::UnitTest => Color::Magenta,
            PrintCommand::Issue => Color::Red,
        }
    }

    /// The notice of this kind, ready to be written out part by part.
    pub fn agent_message(&self, agent_pos: &str, agent_statement: &str) -> (parts: (Styled, Styled))
        ensures
            (parts.0@, parts.1@) == agent_message_of(*self, agent_pos@, agent_statement@),
    {
        let mut position = String::from_str("Agent:");
        position.append(agent_pos);
        let mut statement = String::from_str(agent_statement);
        statement.append("\n");
        (
            Styled { color: Color::Green, text: position },
            Styled { color: self.statement_color(), text: statement },
        )
    }
}

/// A notice for the operator: who speaks, and what is said.
#[derive(Debug, Clone, PartialEq, Eq)]
pub struct AgentNotice {
    pub command: PrintCommand,
    pub position: String,
    pub statement: String,
}

/// The mathematical content of an [`AgentNotice`].
pub struct AgentNoticeView {
    pub command: PrintCommand,
    pub position: Seq<char>,
    pub statement: Seq<char>,
}

impl View for AgentNotice {
    type V = AgentNoticeView;

    open spec fn view(&self) -> AgentNoticeView {
        AgentNoticeView {
            command: self.command,
            position: self.position@,
            statement: self.statement@,
        }
    }
}

impl AgentNotice {
    /// A copy of this notice: the same kind, position and statement.
    pub fn duplicate(&self) -> (copy: AgentNotice)
        ensures
            copy@ == self@,
    {
        AgentNotice {
            command: self.command,
            position: self.position.clone(),
            statement: self.statement.clone(),
        }
    }

    /// The notice as it is shown.
    pub fn render(&self) -> (parts: (Styled, Styled))
        ensures
            (parts.0@, parts.1@) == agent_message_of(self.command, self.position@, self.statement@),
    {
        self.command.agent_message(self.position.as_str(), self.statement.as_str())
    }
}

/// Whether two texts are the same.
pub fn same_text(left: &str, right: &str) -> (same: bool)
    ensures
        same == (left@ == right@),
{
    String::from_str(left) == String::from_str(right)
}

/// The kind of notice that goes by a name.
pub open spec fn command_named(name: Seq<char>) -> Option<PrintCommand> {
    if name == "AICall"@ {
        Some(PrintCommand::AICall)
    } else if name == "UnitTest"@ {
        Some(PrintCommand::UnitTest)
    } else if name == "Issue"@ {
        Some(PrintCommand::Issue)
    } else {
        None
    }
}

impl PrintCommand {
    /// The kind of notice that `name` stands for, if it stands for one.
    pub fn from_name(name: &str) -> (command: Option<PrintCommand>)
        ensures
            command == command_named(name@),
    {
        if same_text(name, "AICall") {
            Some(PrintCommand::AICall)
        } else if same_text(name, "UnitTest") {
            Some(PrintCommand::UnitTest)
        } else if same_text(name, "Issue") {
            Some(PrintCommand::Issue)
        } else {
            None
        }
    }
}

/// A question to the operator as it is shown: in blue, without a line break.
pub fn user_question(question: &str) -> (shown: Styled)
    ensures
        shown@ == (StyledView { color: Color::Blue, text: question@ }),
{
    Styled { color: Color::Blue, text: String::from_str(question) }
}

/// What `str::trim` makes of a text: the text without the white space at its
/// start and at its end.
pub uninterp spec fn trimmed(text: Seq<char>) -> Seq<char>;

/// `str::trim`. The contract names the result after the text.
#[verifier::external_body]
fn trim(text: &str) -> (inner: &str)
    ensures
        inner@ == trimmed(text@),
{
    text.trim()
}

/// What `str::to_lowercase` makes of a text: its lowercase equivalent.
pub uninterp spec fn lowercased(text: Seq<char>) -> Seq<char>;

/// `str::to_lowercase`. The contract names the result after the text.
#[verifier::external_body]
fn to_lowercase(text: &str) -> (lower: String)
    ensures
        lower@ == lowercased(text@),
{
    text.to_lowercase()
}

/// The operator's answer to a question, taken from the line that was read:
/// the line without the white space around it.
pub fn user_response(line: &str) -> (response: String)
    ensures
        response@ == trimmed(line@),
{
    String::from_str(trim(line))
}

/// The question that asks for confirmation before generated code is run.
pub const CONFIRM_QUESTION: &'static str = "Are you sure the code is safe to execute? (y/n): ";

/// What is said to an answer that is neither yes nor no.
pub const CONFIRM_INVALID: &'static str = "Invalid input. Please enter 'y' or 'n'.";

/// What a cleaned answer says: yes, no, or neither.
pub open spec fn answer_of(cleaned: Seq<char>) -> Option<bool> {
    if cleaned == "y"@ || cleaned == "yes"@ {
        Some(true)
    } else if cleaned == "n"@ || cleaned == "no"@ {
        Some(false)
    } else {
        None
    }
}

/// What a cleaned answer says. The answer is compared as it is: trimming and
/// lowercasing come before.
pub fn read_answer(cleaned: &str) -> (answer: Option<bool>)
    ensures
        answer == answer_of(cleaned@),
{
    if same_text(cleaned, "y") || same_text(cleaned, "yes") {
        Some(true)
    } else if same_text(cleaned, "n") || same_text(cleaned, "no") {
        Some(false)
    } else {
        None
    }
}

/// How the confirmation goes on after an answer.
#[derive(Debug, Clone, Copy, PartialEq, Eq, Structural)]
pub enum Confirmation {
    /// The operator has answered: yes or no.
    Answered(bool),
    /// The answer was neither; ask again, with this many attempts left after
    /// the next one.
    AskAgain(u32),
    /// The answer was neither, and no attempt is left.
    GaveUp,
}

/// The confirmation rule: a yes or a no decides; anything else asks again
/// while attempts are left, and gives up when they are used up.
pub open spec fn confirmation_of(answer: Option<bool>, attempts_left: u32) -> Confirmation {
    match answer {
        Some(decision) => Confirmation::Answered(decision),
        None => if attempts_left > 0 {
            Confirmation::AskAgain((attempts_left - 1) as u32)
        } else {
            Confirmation::GaveUp
        },
    }
}

/// What follows from an answer that says `answer`, with `attempts_left`
/// further attempts allowed.
pub fn confirmation_step(answer: Option<bool>, attempts_left: u32) -> (next: Confirmation)
    ensures
        next == confirmation_of(answer, attempts_left),
{
    match answer {
        Some(decision) => Confirmation::Answered(decision),
        None => {
            if attempts_left > 0 {
                Confirmation::AskAgain(attempts_left - 1)
            } else {
                Confirmation::GaveUp
            }
        },
    }
}

/// Takes in the line that the operator typed in answer to the question
/// whether the code is safe to run. White space around the answer and the
/// case of its letters do not count.
pub fn confirm_safe_code(input: &str, attempts_left: u32) -> (next: Confirmation)
    ensures
        next == confirmation_of(answer_of(lowercased(trimmed(input@))), attempts_left),
{
    let lower = to_lowercase(trim(input));
    confirmation_step(read_answer(lower.as_str()), attempts_left)
}

/// The question is put a bounded number of times: every invalid answer uses
/// up one attempt, and the answer after the last one ends the asking.
pub proof fn law_confirmation_is_bounded(answer: Option<bool>, attempts_left: u32)
    ensures
        confirmation_of(answer, attempts_left) matches Confirmation::AskAgain(remaining)
            ==> remaining < attempts_left,
        attempts_left == 0 ==> !(confirmation_of(answer, attempts_left) is AskAgain),
{
}

} // verus!
