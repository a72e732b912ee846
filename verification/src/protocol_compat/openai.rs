//! The OpenAI Assistant API: its messages and assistants, and their
//! conversion to and from agent-to-agent messages.
use vstd::prelude::*;
use crate::a2a::{A2AMessage, MessagePart, MessageRole, MetaValue, call_view, clone_tool_calls, main_text, meta_get, meta_keys, meta_text, tool_calls_view};
pub use crate::a2a::{FunctionCall, ToolCall};
use crate::listing::{first_at, first_index, lemma_first_index, lemma_no_first_index};

verus! {

/// A message of the Assistant API.
#[derive(Debug)]
pub struct OpenAIMessage {
    /// Role: `user`, `assistant` or `system`.
    pub role: String,
    /// Content.
    pub content: String,
    /// Name of the sender, if any.
    pub name: Option<String>,
    /// Function call, if any.
    pub function_call: Option<FunctionCall>,
    /// Tool calls, if any.
    pub tool_calls: Option<Vec<ToolCall>>,
}

/// A function an assistant can call.
#[derive(Debug, Clone)]
pub struct OpenAIFunction {
    /// Name.
    pub name: String,
    /// What it does.
    pub description: String,
    /// Parameters, as a JSON schema text.
    pub parameters: String,
}

/// A tool of an assistant.
#[derive(Debug, Clone)]
pub struct OpenAITool {
    /// Kind of tool.
    pub tool_type: String,
    /// Function.
    pub function: OpenAIFunction,
}

/// An assistant.
#[derive(Debug, Clone)]
pub struct OpenAIAssistant {
    /// Id.
    pub id: String,
    /// Name.
    pub name: String,
    /// Description.
    pub description: Option<String>,
    /// Model.
    pub model: String,
    /// Instructions.
    pub instructions: Option<String>,
    /// Tools.
    pub tools: Vec<OpenAITool>,
}

/// The view of an optional text.
pub open spec fn opt_text(t: Option<String>) -> Option<Seq<char>> {
    match t {
        Some(s) => Some(s@),
        None => None,
    }
}

/// The texts of an optional function call.
pub open spec fn opt_call(f: Option<FunctionCall>) -> Option<(Seq<char>, Seq<char>)> {
    match f {
        Some(c) => Some(call_view(c)),
        None => None,
    }
}

/// The texts of optional tool calls.
pub open spec fn opt_tools(t: Option<Vec<ToolCall>>) -> Option<Seq<(Seq<char>, Seq<char>, (Seq<char>, Seq<char>))>> {
    match t {
        Some(v) => Some(tool_calls_view(v@)),
        None => None,
    }
}

/// The sender of the agent-to-agent message for an Assistant API role: an
/// agent for `assistant` and `system`, a user otherwise.
pub open spec fn role_of(role: Seq<char>) -> MessageRole {
    if role == "assistant"@ || role == "system"@ { MessageRole::Agent } else { MessageRole::User }
}

/// The Assistant API role of a sender.
pub open spec fn role_name(role: MessageRole) -> Seq<char> {
    match role {
        MessageRole::User => "user"@,
        MessageRole::Agent => "assistant"@,
    }
}

/// Whether `r` is the agent-to-agent message for `m`: the sender by role, one
/// text part holding the content, and metadata holding the protocol, the
/// original role, and the name, function call and tool calls that `m` has.
pub open spec fn converts_openai(m: OpenAIMessage, r: A2AMessage) -> bool {
    &&& r.role == role_of(m.role@)
    &&& r.parts@.len() == 1
    &&& r.parts@[0] matches MessagePart::Text(t) && t@ == m.content@
    &&& meta_text(r.metadata@, "protocol"@) == Some("openai"@)
    &&& meta_text(r.metadata@, "original_role"@) == Some(m.role@)
    &&& meta_text(r.metadata@, "name"@) == opt_text(m.name)
    &&& match m.name {
        Some(_) => true,
        None => meta_get(r.metadata@, "name"@) is None,
    }
    &&& meta_get(r.metadata@, "function_call"@) == match m.function_call {
        Some(f) => Some(MetaValue::Function(f)),
        None => None,
    }
    &&& meta_get(r.metadata@, "tool_calls"@) == match m.tool_calls {
        Some(t) => Some(MetaValue::Tools(t)),
        None => None,
    }
}

/// Whether `o` is the Assistant API message for `a`: the role of its sender,
/// its main text, and the name, function call and tool calls its metadata
/// holds.
pub open spec fn converts_a2a(a: A2AMessage, o: OpenAIMessage) -> bool {
    &&& o.role@ == role_name(a.role)
    &&& o.content@ == main_text(a.parts@)
    &&& opt_text(o.name) == meta_text(a.metadata@, "name"@)
    &&& opt_call(o.function_call) == match meta_get(a.metadata@, "function_call"@) {
        Some(MetaValue::Function(f)) => Some(call_view(f)),
        _ => None,
    }
    &&& opt_tools(o.tool_calls) == match meta_get(a.metadata@, "tool_calls"@) {
        Some(MetaValue::Tools(t)) => Some(tool_calls_view(t@)),
        _ => None,
    }
}

/// The ids of a sequence of assistants.
pub open spec fn assistant_ids(v: Seq<OpenAIAssistant>) -> Seq<Seq<char>> {
    v.map_values(|a: OpenAIAssistant| a.id@)
}

/// Converts between Assistant API messages and agent-to-agent messages, and
/// keeps the assistants registered.
pub struct OpenAIAdapter {
    assistants: Vec<OpenAIAssistant>,
}

impl OpenAIAdapter {
    /// The assistants, in the order they were first registered.
    pub closed spec fn assistants_spec(&self) -> Seq<OpenAIAssistant> {
        self.assistants@
    }

    /// An adapter with no assistant.
    pub fn new() -> (r: Self)
        ensures
            r.assistants_spec().len() == 0,
    {
        OpenAIAdapter { assistants: Vec::new() }
    }

    /// Registers an assistant, in place of an assistant with the same id.
    pub fn register_assistant(&mut self, assistant: OpenAIAssistant)
        ensures
            final(self).assistants_spec() == match first_index(assistant_ids(old(self).assistants_spec()), assistant.id@) {
                Some(i) => old(self).assistants_spec().update(i, assistant),
                None => old(self).assistants_spec().push(assistant),
            },
    {
        let ghost ids = assistant_ids(self.assistants@);
        let mut i: usize = 0;
        while i < self.assistants.len()
            invariant
                ids == assistant_ids(self.assistants@),
                self.assistants@ == old(self).assistants@,
                i <= self.assistants@.len(),
                forall|j: int| 0 <= j < i ==> ids[j] != assistant.id@,
            decreases self.assistants@.len() - i,
        {
            if crate::text::same_text(self.assistants[i].id.as_str(), assistant.id.as_str()) {
                proof {
                    assert(first_at(ids, assistant.id@, i as int));
                    lemma_first_index(ids, assistant.id@, i as int);
                }
                self.assistants.set(i, assistant);
                return;
            }
            i = i + 1;
        }
        proof {
            lemma_no_first_index(ids, assistant.id@);
        }
        self.assistants.push(assistant);
    }

    /// The agent-to-agent message for an Assistant API message.
    pub fn openai_to_a2a(&self, openai_msg: OpenAIMessage) -> (r: A2AMessage)
        ensures
            converts_openai(openai_msg, r),
    {
        let ghost m = openai_msg;
        let role = if crate::text::same_text(openai_msg.role.as_str(), "assistant")
            || crate::text::same_text(openai_msg.role.as_str(), "system") {
            MessageRole::Agent
        } else {
            MessageRole::User
        };
        let OpenAIMessage { role: original_role, content, name, function_call, tool_calls } = openai_msg;
        let mut msg = A2AMessage::new_text(role, content);
        proof {
            reveal_strlit("protocol");
            reveal_strlit("original_role");
            reveal_strlit("name");
            reveal_strlit("function_call");
            reveal_strlit("tool_calls");
            assert(meta_keys(msg.metadata@) =~= Seq::<Seq<char>>::empty());
            lemma_no_first_index(meta_keys(msg.metadata@), "name"@);
            lemma_no_first_index(meta_keys(msg.metadata@), "function_call"@);
            lemma_no_first_index(meta_keys(msg.metadata@), "tool_calls"@);
        }
        proof {
            assert("protocol"@[0] != "original_role"@[0]);
            assert("protocol"@[0] != "name"@[0]);
            assert("protocol"@[0] != "function_call"@[0]);
            assert("protocol"@[0] != "tool_calls"@[0]);
            assert("original_role"@[0] != "name"@[0]);
            assert("original_role"@[0] != "function_call"@[0]);
            assert("original_role"@[0] != "tool_calls"@[0]);
            assert("name"@[0] != "function_call"@[0]);
            assert("name"@[0] != "tool_calls"@[0]);
            assert("function_call"@[0] != "tool_calls"@[0]);
        }
        msg.set_meta("protocol", MetaValue::Text(String::from_str("openai")));
        msg.set_meta("original_role", MetaValue::Text(original_role));
        match name {
            Some(n) => { msg.set_meta("name", MetaValue::Text(n)); },
            None => {},
        }
        match function_call {
            Some(f) => { msg.set_meta("function_call", MetaValue::Function(f)); },
            None => {},
        }
        match tool_calls {
            Some(t) => { msg.set_meta("tool_calls", MetaValue::Tools(t)); },
            None => {},
        }
        msg
    }

    /// The Assistant API message for an agent-to-agent message.
    pub fn a2a_to_openai(&self, a2a_msg: &A2AMessage) -> (r: OpenAIMessage)
        ensures
            converts_a2a(*a2a_msg, r),
    {
        let role = match a2a_msg.role {
            MessageRole::User => String::from_str("user"),
            MessageRole::Agent => String::from_str("assistant"),
        };
        let content = a2a_msg.main_text();
        let name = match a2a_msg.meta_str("name") {
            Some(n) => Some(String::from_str(n)),
            None => None,
        };
        let function_call = match a2a_msg.meta_value("function_call") {
            Some(MetaValue::Function(f)) => Some(f.clone()),
            _ => None,
        };
        let tool_calls = match a2a_msg.meta_value("tool_calls") {
            Some(MetaValue::Tools(t)) => Some(clone_tool_calls(t)),
            _ => None,
        };
        OpenAIMessage { role, content, name, function_call, tool_calls }
    }

    /// Every assistant, in the order first registered.
    pub fn list_assistants(&self) -> (r: Vec<&OpenAIAssistant>)
        ensures
            r@.len() == self.assistants_spec().len(),
            forall|i: int| 0 <= i < r@.len() ==> *(#[trigger] r@[i]) == self.assistants_spec()[i],
    {
        let mut out: Vec<&OpenAIAssistant> = Vec::new();
        let mut i: usize = 0;
        while i < self.assistants.len()
            invariant
                i <= self.assistants@.len(),
                out@.len() == i,
                forall|j: int| 0 <= j < i ==> *(#[trigger] out@[j]) == self.assistants@[j],
            decreases self.assistants@.len() - i,
        {
            out.push(&self.assistants[i]);
            i = i + 1;
        }
        out
    }
}

impl Default for OpenAIAdapter {
    fn default() -> (r: Self)
        ensures
            r.assistants_spec().len() == 0,
    {
        OpenAIAdapter::new()
    }
}

/// Converting an Assistant API message of a user or an assistant to an
/// agent-to-agent message and back gives the same role, content, name,
/// function call and tool calls.
pub proof fn lemma_openai_round_trip(m: OpenAIMessage, a: A2AMessage, o: OpenAIMessage)
    requires
        m.role@ == "user"@ || m.role@ == "assistant"@,
        converts_openai(m, a),
        converts_a2a(a, o),
    ensures
        o.role@ == m.role@,
        o.content@ == m.content@,
        opt_text(o.name) == opt_text(m.name),
        opt_call(o.function_call) == opt_call(m.function_call),
        opt_tools(o.tool_calls) == opt_tools(m.tool_calls),
{
    reveal_strlit("user");
    reveal_strlit("assistant");
    reveal_strlit("system");
    assert("user"@ != "assistant"@) by {
        assert("user"@[0] != "assistant"@[0]);
    }
    assert("user"@ != "system"@) by {
        assert("user"@[0] != "system"@[0]);
    }
}

} // verus!
