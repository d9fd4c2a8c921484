//! The data model exchanged with the service.

use crate::error::{error_detail, SdkError};
use vstd::prelude::*;

verus! {

/// The author of one turn of a conversation.
#[derive(Clone, Copy, Debug, PartialEq, Eq, Structural)]
pub enum Role {
    System,
    User,
    Assistant,
    Tool,
}

/// The lowercase wire token of each role.
pub open spec fn role_token(r: Role) -> Seq<char> {
    match r {
        Role::System => seq!['s', 'y', 's', 't', 'e', 'm'],
        Role::User => seq!['u', 's', 'e', 'r'],
        Role::Assistant => seq!['a', 's', 's', 'i', 's', 't', 'a', 'n', 't'],
        Role::Tool => seq!['t', 'o', 'o', 'l'],
    }
}

/// The role whose wire token is `t`, if any.
pub open spec fn role_of_token(t: Seq<char>) -> Option<Role> {
    if t == role_token(Role::System) {
        Some(Role::System)
    } else if t == role_token(Role::User) {
        Some(Role::User)
    } else if t == role_token(Role::Assistant) {
        Some(Role::Assistant)
    } else if t == role_token(Role::Tool) {
        Some(Role::Tool)
    } else {
        None
    }
}

impl Role {
    /// The token that stands for this role on the wire.
    pub fn token(&self) -> (t: String)
        ensures
            t@ == role_token(*self),
    {
        match self {
            Role::System => {
                proof { reveal_strlit("system"); }
                "system".to_owned()
            },
            Role::User => {
                proof { reveal_strlit("user"); }
                "user".to_owned()
            },
            Role::Assistant => {
                proof { reveal_strlit("assistant"); }
                "assistant".to_owned()
            },
            Role::Tool => {
                proof { reveal_strlit("tool"); }
                "tool".to_owned()
            },
        }
    }

    /// Reads a wire token back; `None` for a token that names no role.
    pub fn from_token(t: &str) -> (r: Option<Role>)
        ensures
            r == role_of_token(t@),
    {
        let s = t.to_owned();
        if s == Role::System.token() {
            Some(Role::System)
        } else if s == Role::User.token() {
            Some(Role::User)
        } else if s == Role::Assistant.token() {
            Some(Role::Assistant)
        } else if s == Role::Tool.token() {
            Some(Role::Tool)
        } else {
            None
        }
    }
}

/// Each role's token reads back as that role, and no two roles share a token.
pub proof fn lemma_role_token_round_trip(r: Role)
    ensures
        role_of_token(role_token(r)) == Some(r),
{
    assert(role_token(Role::System) != role_token(Role::User)) by {
        assert(role_token(Role::System).len() != role_token(Role::User).len());
    }
    assert(role_token(Role::System) != role_token(Role::Assistant)) by {
        assert(role_token(Role::System).len() != role_token(Role::Assistant).len());
    }
    assert(role_token(Role::System) != role_token(Role::Tool)) by {
        assert(role_token(Role::System).len() != role_token(Role::Tool).len());
    }
    assert(role_token(Role::User) != role_token(Role::Assistant)) by {
        assert(role_token(Role::User).len() != role_token(Role::Assistant).len());
    }
    assert(role_token(Role::User) != role_token(Role::Tool)) by {
        assert(role_token(Role::User)[0] != role_token(Role::Tool)[0]);
    }
    assert(role_token(Role::Assistant) != role_token(Role::Tool)) by {
        assert(role_token(Role::Assistant).len() != role_token(Role::Tool).len());
    }
}

/// One turn of a conversation.
#[derive(Clone, Debug)]
pub struct Message {
    pub role: Role,
    pub content: String,
}

impl View for Message {
    type V = (Role, Seq<char>);

    open spec fn view(&self) -> (Role, Seq<char>) {
        (self.role, self.content@)
    }
}

impl Message {
    /// A message from the system.
    pub fn system(content: &str) -> (m: Message)
        ensures
            m@ == (Role::System, content@),
    {
        Message { role: Role::System, content: content.to_owned() }
    }

    /// A message from the user.
    pub fn user(content: &str) -> (m: Message)
        ensures
            m@ == (Role::User, content@),
    {
        Message { role: Role::User, content: content.to_owned() }
    }

    /// A message from the assistant.
    pub fn assistant(content: &str) -> (m: Message)
        ensures
            m@ == (Role::Assistant, content@),
    {
        Message { role: Role::Assistant, content: content.to_owned() }
    }
}

/// One message as it travels: the role as its token, and the text.
#[derive(Clone, Debug)]
pub struct WireMessage {
    pub role: String,
    pub content: String,
}

impl View for WireMessage {
    type V = (Seq<char>, Seq<char>);

    open spec fn view(&self) -> (Seq<char>, Seq<char>) {
        (self.role@, self.content@)
    }
}

/// The views of a sequence of messages.
pub open spec fn messages_view(ms: Seq<Message>) -> Seq<(Role, Seq<char>)> {
    ms.map_values(|m: Message| m@)
}

/// The views of a sequence of wire records.
pub open spec fn wire_view(ws: Seq<WireMessage>) -> Seq<(Seq<char>, Seq<char>)> {
    ws.map_values(|w: WireMessage| w@)
}

/// The wire records of a conversation: each role by its token, in order.
pub open spec fn encode_messages(ms: Seq<(Role, Seq<char>)>) -> Seq<(Seq<char>, Seq<char>)> {
    ms.map_values(|m: (Role, Seq<char>)| (role_token(m.0), m.1))
}

/// Whether every record names a known role.
pub open spec fn roles_known(ws: Seq<(Seq<char>, Seq<char>)>) -> bool {
    forall|i: int| 0 <= i < ws.len() ==> (#[trigger] role_of_token(ws[i].0)) is Some
}

/// The conversation that wire records stand for; `None` where one record
/// names no known role.
pub open spec fn decode_messages(ws: Seq<(Seq<char>, Seq<char>)>) -> Option<
    Seq<(Role, Seq<char>)>,
> {
    if roles_known(ws) {
        Some(ws.map_values(|w: (Seq<char>, Seq<char>)| (role_of_token(w.0).unwrap(), w.1)))
    } else {
        None
    }
}

/// The detail of the error for a record whose role token `t` is unknown.
pub open spec fn unknown_role_detail(t: Seq<char>) -> Seq<char> {
    "unknown role: "@ + t
}

/// A conversation to send to the service.
#[derive(Clone, Debug)]
pub struct ChatRequest {
    pub messages: Vec<Message>,
}

impl View for ChatRequest {
    type V = Seq<(Role, Seq<char>)>;

    open spec fn view(&self) -> Seq<(Role, Seq<char>)> {
        messages_view(self.messages@)
    }
}

impl ChatRequest {
    /// A request holding `messages` in the order given.
    pub fn new(messages: Vec<Message>) -> (r: ChatRequest)
        ensures
            r.messages@ == messages@,
            r@ == messages_view(messages@),
    {
        ChatRequest { messages }
    }

    /// A request of one user message.
    pub fn user_message(content: &str) -> (r: ChatRequest)
        ensures
            r@ == seq![(Role::User, content@)],
    {
        let r = ChatRequest { messages: vec![Message::user(content)] };
        assert(r@ =~= seq![(Role::User, content@)]);
        r
    }

    /// The wire records of this request, one for each message, in order.
    pub fn to_wire(&self) -> (ws: Vec<WireMessage>)
        ensures
            wire_view(ws@) == encode_messages(self@),
    {
        let mut ws: Vec<WireMessage> = Vec::new();
        let n: usize = self.messages.len();
        let mut i: usize = 0;
        while i < n
            invariant
                n == self.messages@.len(),
                i <= n,
                ws@.len() == i,
                wire_view(ws@) =~= encode_messages(self@).subrange(0, i as int),
            decreases n - i,
        {
            let m = &self.messages[i];
            assert(encode_messages(self@)[i as int] == (role_token(m.role), m.content@));
            ws.push(WireMessage { role: m.role.token(), content: m.content.clone() });
            assert(wire_view(ws@)[i as int] == ws@[i as int]@);
            i = i + 1;
        }
        assert(encode_messages(self@).subrange(0, n as int) =~= encode_messages(self@));
        ws
    }

    /// Reads wire records back into a request. It fails, naming the first
    /// unknown token, where a record names no known role.
    pub fn from_wire(ws: &Vec<WireMessage>) -> (r: Result<ChatRequest, SdkError>)
        ensures
            r is Ok <==> decode_messages(wire_view(ws@)) is Some,
            r matches Ok(req) ==> decode_messages(wire_view(ws@)) == Some(req@),
            r matches Err(e) ==> e is Serialization && exists|k: int|
                0 <= k < ws@.len() && role_of_token(#[trigger] ws@[k].role@) is None
                    && roles_known(wire_view(ws@).subrange(0, k))
                    && error_detail(e) == unknown_role_detail(ws@[k].role@),
    {
        let mut messages: Vec<Message> = Vec::new();
        let n: usize = ws.len();
        let mut i: usize = 0;
        while i < n
            invariant
                n == ws@.len(),
                i <= n,
                messages@.len() == i,
                forall|j: int|
                    0 <= j < i ==> (#[trigger] role_of_token(ws@[j].role@)) == Some(
                        messages@[j].role,
                    ) && messages@[j].content@ == ws@[j].content@,
            decreases n - i,
        {
            let w = &ws[i];
            match Role::from_token(w.role.as_str()) {
                Some(role) => {
                    messages.push(Message { role, content: w.content.clone() });
                },
                None => {
                    assert(!roles_known(wire_view(ws@))) by {
                        assert(role_of_token(wire_view(ws@)[i as int].0) is None);
                    }
                    assert(roles_known(wire_view(ws@).subrange(0, i as int))) by {
                        assert forall|j: int| 0 <= j < i implies (#[trigger] role_of_token(
                            wire_view(ws@).subrange(0, i as int)[j].0,
                        )) is Some by {
                            assert(wire_view(ws@).subrange(0, i as int)[j] == ws@[j]@);
                            assert(role_of_token(ws@[j].role@) is Some);
                        }
                    }
                    let detail = "unknown role: ".to_owned().concat(w.role.as_str());
                    return Err(SdkError::Serialization(detail));
                },
            }
            i = i + 1;
        }
        let ghost wv = wire_view(ws@);
        assert(roles_known(wv)) by {
            assert forall|j: int| 0 <= j < wv.len() implies (#[trigger] role_of_token(
                wv[j].0,
            )) is Some by {
                assert(wv[j] == ws@[j]@);
                assert(role_of_token(ws@[j].role@) is Some);
            }
        }
        assert(messages_view(messages@) =~= wv.map_values(
            |w: (Seq<char>, Seq<char>)| (role_of_token(w.0).unwrap(), w.1),
        )) by {
            assert forall|j: int| 0 <= j < wv.len() implies #[trigger] messages_view(messages@)[j]
                == (role_of_token(wv[j].0).unwrap(), wv[j].1) by {
                assert(wv[j] == ws@[j]@);
                assert(role_of_token(ws@[j].role@) == Some(messages@[j].role));
            }
        }
        Ok(ChatRequest { messages })
    }
}

/// Encoding a conversation to wire records and reading them back gives the
/// same roles and texts in the same order.
pub proof fn lemma_chat_request_round_trip(ms: Seq<(Role, Seq<char>)>)
    ensures
        decode_messages(encode_messages(ms)) == Some(ms),
{
    let ws = encode_messages(ms);
    assert forall|i: int| 0 <= i < ws.len() implies (#[trigger] role_of_token(ws[i].0)) == Some(
        ms[i].0,
    ) by {
        lemma_role_token_round_trip(ms[i].0);
    }
    assert(roles_known(ws));
    assert(ws.map_values(|w: (Seq<char>, Seq<char>)| (role_of_token(w.0).unwrap(), w.1)) =~= ms);
}

/// serde_json's `Value`, declared so that tool arguments can be carried
/// through unread.
#[verifier::external_type_specification]
#[verifier::external_body]
pub struct ExJsonValue(serde_json::Value);

/// A tool invocation that the service asks for: the tool's name and its
/// arguments, passed through unread.
#[derive(Debug)]
pub struct ToolCall {
    pub tool: String,
    pub args: serde_json::Value,
}

impl ToolCall {
    /// A call of `tool` with `args`.
    pub fn new(tool: &str, args: serde_json::Value) -> (c: ToolCall)
        ensures
            c.tool@ == tool@,
            c.args == args,
    {
        ToolCall { tool: tool.to_owned(), args }
    }
}

/// The service's answer to a chat: a text, a tool call, or, as the service
/// may send it, both or neither.
#[derive(Debug)]
pub struct Response {
    pub message: Option<String>,
    pub tool_call: Option<ToolCall>,
}

impl Response {
    /// An answer holding the text `content` alone.
    pub fn message(content: &str) -> (r: Response)
        ensures
            r.message matches Some(m) && m@ == content@,
            r.tool_call is None,
    {
        Response { message: Some(content.to_owned()), tool_call: None }
    }

    /// An answer holding a call of `tool` with `args` alone.
    pub fn tool_call(tool: &str, args: serde_json::Value) -> (r: Response)
        ensures
            r.message is None,
            r.tool_call matches Some(c) && c.tool@ == tool@ && c.args == args,
    {
        Response { message: None, tool_call: Some(ToolCall::new(tool, args)) }
    }

    /// Whether the answer holds a text.
    pub fn is_message(&self) -> (b: bool)
        ensures
            b == self.message is Some,
    {
        self.message.is_some()
    }

    /// Whether the answer holds a tool call.
    pub fn is_tool_call(&self) -> (b: bool)
        ensures
            b == self.tool_call is Some,
    {
        self.tool_call.is_some()
    }
}

/// A direct request to run a named tool with arguments.
#[derive(Debug)]
pub struct ToolRequest {
    pub tool: String,
    pub args: serde_json::Value,
}

impl ToolRequest {
    /// A request to run `tool` with `args`.
    pub fn new(tool: &str, args: serde_json::Value) -> (r: ToolRequest)
        ensures
            r.tool@ == tool@,
            r.args == args,
    {
        ToolRequest { tool: tool.to_owned(), args }
    }
}

} // verus!
