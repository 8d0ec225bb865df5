//! The context window handed to the summarization service: a fixed system
//! instruction followed by the whole conversation history in order. The
//! newest user entry is already part of the history, so it is not repeated.

use vstd::prelude::*;

use crate::history::ConversationHistory;
use crate::history::EntryModel;
use crate::history::Role;

verus! {

/// A chat participant as the summarization service understands it.
#[derive(Clone, Copy, PartialEq, Eq, Structural, Debug)]
pub enum ChatRole {
    System,
    User,
    Assistant,
}

/// One message of the context window.
#[derive(Debug)]
pub struct ChatMessage {
    pub role: ChatRole,
    pub content: String,
}

/// The mathematical value of a chat message.
#[verifier::ext_equal]
pub struct MessageModel {
    pub role: ChatRole,
    pub content: Seq<char>,
}

impl View for ChatMessage {
    type V = MessageModel;

    open spec fn view(&self) -> MessageModel {
        MessageModel { role: self.role, content: self.content@ }
    }
}

/// The values of a sequence of chat messages.
pub open spec fn messages_model(v: Seq<ChatMessage>) -> Seq<MessageModel> {
    v.map_values(|m: ChatMessage| m@)
}

/// The fixed system instruction that opens every context window.
pub open spec fn system_prompt() -> Seq<char> {
    "You are listening in on a conversation. You will display your response on a monitor mounted on the wall, so the goal should be 50 words or less so they are not too small. If there is something said that you could provide some interesting information about, return a response. If there is nothing interesting to share, just return Listening..."@
}

/// The system instruction as an executable string.
pub fn system_prompt_text() -> (s: &'static str)
    ensures
        s@ == system_prompt(),
{
    "You are listening in on a conversation. You will display your response on a monitor mounted on the wall, so the goal should be 50 words or less so they are not too small. If there is something said that you could provide some interesting information about, return a response. If there is nothing interesting to share, just return Listening..."
}

/// How a history role appears in the context window.
pub open spec fn chat_role_of(r: Role) -> ChatRole {
    match r {
        Role::User => ChatRole::User,
        Role::Assistant => ChatRole::Assistant,
    }
}

/// The whole context window for a given history: the system instruction,
/// then every history entry in order under its chat role.
pub open spec fn context_of(h: Seq<EntryModel>) -> Seq<MessageModel> {
    seq![MessageModel { role: ChatRole::System, content: system_prompt() }] + h.map_values(
        |e: EntryModel| MessageModel { role: chat_role_of(e.role), content: e.text },
    )
}

/// Builds the context window for the current history.
pub fn build_context(history: &ConversationHistory) -> (msgs: Vec<ChatMessage>)
    ensures
        messages_model(msgs@) == context_of(history@),
{
    let mut msgs: Vec<ChatMessage> = Vec::new();
    msgs.push(ChatMessage { role: ChatRole::System, content: String::from_str(system_prompt_text()) });
    let len = history.len();
    let mut i: usize = 0;
    while i < len
        invariant
            len == history@.len(),
            i <= len,
            msgs@.len() == i + 1,
            msgs@[0]@ == (MessageModel { role: ChatRole::System, content: system_prompt() }),
            forall|j: int| 0 <= j < i ==> (#[trigger] msgs@[j + 1])@ == (MessageModel {
                role: chat_role_of(history@[j].role),
                content: history@[j].text,
            }),
        decreases len - i,
    {
        let entry = history.entry(i);
        let role = match entry.role {
            Role::User => ChatRole::User,
            Role::Assistant => ChatRole::Assistant,
        };
        msgs.push(ChatMessage { role, content: entry.text.clone() });
        i = i + 1;
    }
    proof {
        let target = context_of(history@);
        assert forall|j: int| 0 <= j < messages_model(msgs@).len() implies messages_model(msgs@)[j]
            == target[j] by {
            assert(messages_model(msgs@)[j] == msgs@[j]@);
            if j > 0 {
                assert(msgs@[(j - 1) + 1]@ == (MessageModel {
                    role: chat_role_of(history@[j - 1].role),
                    content: history@[j - 1].text,
                }));
            }
        }
        assert(messages_model(msgs@) =~= target);
    }
    msgs
}

} // verus!
