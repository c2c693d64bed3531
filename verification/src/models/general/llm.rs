//! The unit exchanged with the model gateway.

use vstd::prelude::*;

verus! {

/// One role-tagged message of a conversation with the model.
#[derive(Debug, Clone)]
pub struct Message {
    pub role: String,
    pub content: String,
}

/// The mathematical content of a [`Message`].
pub struct MessageView {
    pub role: Seq<char>,
    pub content: Seq<char>,
}

impl View for Message {
    type V = MessageView;

    open spec fn view(&self) -> MessageView {
        MessageView { role: self.role@, content: self.content@ }
    }
}

/// The role under which task instructions are sent.
pub open spec fn system_role() -> Seq<char> {
    "system"@
}

impl MessageView {
    /// A message speaks in one of the three roles of a conversation.
    pub open spec fn well_formed(&self) -> bool {
        self.role == system_role() || self.role == "user"@ || self.role == "assistant"@
    }
}

impl Message {
    /// A message that carries `content` as a task instruction.
    pub fn system(content: String) -> (message: Message)
        ensures
            message@ == (MessageView { role: system_role(), content: content@ }),
    {
        Message { role: "system".to_string(), content }
    }

    /// A copy of this message with the same role and content.
    pub fn duplicate(&self) -> (copy: Message)
        ensures
            copy@ == self@,
    {
        Message { role: self.role.clone(), content: self.content.clone() }
    }
}

} // verus!
