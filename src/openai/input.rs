//! The messages that a chat request carries.

use crate::prompt::{ResolvedPrompt, ResolvedPromptList};
use crate::tag::{first_role, role_of, Role};
use crate::traits::{message_views, FinalizedPrompt, MessageView};
use vstd::prelude::*;

verus! {

/// Who speaks a chat message.
#[derive(Debug, Clone, Copy, PartialEq, Eq, Structural)]
pub enum ChatRole {
    System,
    User,
    Assistant,
}

/// The name under which a chat role is sent.
pub open spec fn chat_role_name(r: ChatRole) -> Seq<char> {
    match r {
        ChatRole::System => "system"@,
        ChatRole::User => "user"@,
        ChatRole::Assistant => "assistant"@,
    }
}

impl ChatRole {
    /// The name under which this role is sent.
    pub fn name(&self) -> (r: &'static str)
        ensures
            r@ == chat_role_name(*self),
    {
        match self {
            ChatRole::System => "system",
            ChatRole::User => "user",
            ChatRole::Assistant => "assistant",
        }
    }
}

/// The chat role that a prompt role is sent as.
pub open spec fn spec_chat_role(role: Role) -> ChatRole {
    match role {
        Role::System => ChatRole::System,
        Role::User => ChatRole::User,
        Role::Assistant => ChatRole::Assistant,
    }
}

/// The chat role that `role` is sent as.
pub fn chat_role(role: Role) -> (r: ChatRole)
    ensures
        r == spec_chat_role(role),
{
    match role {
        Role::System => ChatRole::System,
        Role::User => ChatRole::User,
        Role::Assistant => ChatRole::Assistant,
    }
}

/// One message of a chat request.
#[derive(Debug)]
pub struct ChatMessage {
    pub role: ChatRole,
    pub content: String,
}

/// A piece of a chat answer streamed back; either part may be missing.
#[derive(Debug)]
pub struct ChatStreamMessage {
    pub role: Option<ChatRole>,
    pub content: Option<String>,
}

/// The messages of a chat request, in order.
#[derive(Debug)]
pub struct ChatMessages(Vec<ChatMessage>);

/// The role and text of each message in `v`.
pub open spec fn chat_views(v: Seq<ChatMessage>) -> Seq<(ChatRole, Seq<char>)> {
    v.map_values(|m: ChatMessage| (m.role, m.content@))
}

/// The chat messages that the prompt messages `msgs` are sent as: each keeps
/// its text and speaks in the role of its first role tag, `User` where it has
/// none.
pub open spec fn chat_of_messages(msgs: Seq<MessageView>) -> Seq<(ChatRole, Seq<char>)> {
    msgs.map_values(|m: MessageView| (spec_chat_role(first_role(m.1)), m.0))
}

impl View for ChatMessages {
    type V = Seq<(ChatRole, Seq<char>)>;

    closed spec fn view(&self) -> Seq<(ChatRole, Seq<char>)> {
        chat_views(self.0@)
    }
}

impl ChatMessages {
    /// No message.
    pub fn empty() -> (r: ChatMessages)
        ensures
            r@ == Seq::<(ChatRole, Seq<char>)>::empty(),
    {
        let r = ChatMessages(Vec::new());
        proof {
            assert(r@ =~= Seq::<(ChatRole, Seq<char>)>::empty());
        }
        r
    }

    /// The messages `v`, in their order.
    pub fn from_messages(v: Vec<ChatMessage>) -> (r: ChatMessages)
        ensures
            r@ == chat_views(v@),
    {
        ChatMessages(v)
    }

    /// The one message `text`, spoken by the user.
    pub fn from_text(text: &str) -> (r: ChatMessages)
        ensures
            r@ == seq![(ChatRole::User, text@)],
    {
        let mut v: Vec<ChatMessage> = Vec::new();
        v.push(ChatMessage { role: ChatRole::User, content: text.to_owned() });
        let r = ChatMessages(v);
        proof {
            assert(r@ =~= seq![(ChatRole::User, text@)]);
        }
        r
    }

    /// The text of a resolved single-message prompt, spoken by the user.
    pub fn from_resolved_prompt(prompt: ResolvedPrompt) -> (r: ChatMessages)
        ensures
            r@ == chat_of_messages(prompt.messages()),
    {
        let ghost msgs = prompt.messages();
        let text = prompt.into_text();
        let mut v: Vec<ChatMessage> = Vec::new();
        v.push(ChatMessage { role: ChatRole::User, content: text });
        let r = ChatMessages(v);
        proof {
            assert(first_role(msgs[0].1) == Role::User);
            assert(r@ =~= chat_of_messages(msgs));
        }
        r
    }

    /// The messages of a resolved prompt list, in order, each in the role of
    /// its first role tag, `User` where it has none.
    pub fn from_resolved_list(list: ResolvedPromptList) -> (r: ChatMessages)
        ensures
            r@ == chat_of_messages(list.messages()),
    {
        let ghost target = chat_of_messages(list.messages());
        let messages = list.into_messages();
        let mut v: Vec<ChatMessage> = Vec::new();
        let n = messages.len();
        let mut i: usize = 0;
        while i < n
            invariant
                i <= n,
                n == messages@.len(),
                target == chat_of_messages(message_views(messages@)),
                chat_views(v@) == target.take(i as int),
            decreases n - i,
        {
            let role = chat_role(role_of(&messages[i].1));
            let content = messages[i].0.clone();
            v.push(ChatMessage { role, content });
            proof {
                assert(chat_views(v@) =~= target.take(i as int).push(target[i as int]));
                assert(target.take(i as int).push(target[i as int]) =~= target.take(i + 1));
            }
            i = i + 1;
        }
        proof {
            assert(target.take(n as int) =~= target);
        }
        ChatMessages(v)
    }

    /// The number of messages.
    pub fn len(&self) -> (r: usize)
        ensures
            r == self@.len(),
    {
        self.0.len()
    }

    /// The messages, taken out.
    pub fn into_vec(self) -> (r: Vec<ChatMessage>)
        ensures
            chat_views(r@) == self@,
    {
        self.0
    }
}

} // verus!
