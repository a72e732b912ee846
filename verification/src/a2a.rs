//! The agent-to-agent message that protocol adapters convert to and from.
use vstd::prelude::*;
use crate::listing::{first_at, first_index, lemma_first_index, lemma_first_index_push, lemma_first_index_push_new, lemma_no_first_index};

verus! {

/// Who sent a message.
#[derive(Debug, Clone, Copy, PartialEq, Eq, Structural)]
pub enum MessageRole {
    /// A user.
    User,
    /// An agent.
    Agent,
}

/// A part of a message.
#[derive(Debug, Clone)]
pub enum MessagePart {
    /// Text.
    Text(String),
    /// Structured data, as JSON text.
    Data(String),
}

/// A call of a function requested by a model.
#[derive(Debug)]
pub struct FunctionCall {
    /// Function name.
    pub name: String,
    /// Arguments, as JSON text.
    pub arguments: String,
}

/// A call of a tool requested by a model.
#[derive(Debug)]
pub struct ToolCall {
    /// Call id.
    pub id: String,
    /// Kind of tool.
    pub call_type: String,
    /// Function called.
    pub function: FunctionCall,
}

/// The texts of a function call: its name and arguments.
pub open spec fn call_view(f: FunctionCall) -> (Seq<char>, Seq<char>) {
    (f.name@, f.arguments@)
}

/// The texts of tool calls: id, kind and function of each.
pub open spec fn tool_calls_view(v: Seq<ToolCall>) -> Seq<(Seq<char>, Seq<char>, (Seq<char>, Seq<char>))> {
    v.map_values(|t: ToolCall| (t.id@, t.call_type@, call_view(t.function)))
}

impl Clone for FunctionCall {
    fn clone(&self) -> (r: Self)
        ensures
            call_view(r) == call_view(*self),
    {
        FunctionCall { name: self.name.clone(), arguments: self.arguments.clone() }
    }
}

impl Clone for ToolCall {
    fn clone(&self) -> (r: Self)
        ensures
            r.id@ == self.id@,
            r.call_type@ == self.call_type@,
            call_view(r.function) == call_view(self.function),
    {
        ToolCall { id: self.id.clone(), call_type: self.call_type.clone(), function: self.function.clone() }
    }
}

/// Copies tool calls.
pub fn clone_tool_calls(v: &Vec<ToolCall>) -> (r: Vec<ToolCall>)
    ensures
        tool_calls_view(r@) == tool_calls_view(v@),
{
    let mut out: Vec<ToolCall> = Vec::new();
    let mut i: usize = 0;
    while i < v.len()
        invariant
            i <= v@.len(),
            out@.len() == i,
            forall|j: int| 0 <= j < i ==> #[trigger] out@[j].id@ == v@[j].id@ && out@[j].call_type@ == v@[j].call_type@
                && call_view(out@[j].function) == call_view(v@[j].function),
        decreases v@.len() - i,
    {
        out.push(v[i].clone());
        i = i + 1;
    }
    assert(tool_calls_view(out@) =~= tool_calls_view(v@));
    out
}

/// A metadata value of a message.
#[derive(Debug, Clone)]
pub enum MetaValue {
    /// A text.
    Text(String),
    /// A function call.
    Function(FunctionCall),
    /// Tool calls.
    Tools(Vec<ToolCall>),
}

/// A message between agents. Its metadata is a list of distinct keys with
/// their values.
#[derive(Debug, Clone)]
pub struct A2AMessage {
    /// Sender.
    pub role: MessageRole,
    /// Parts, the main one first.
    pub parts: Vec<MessagePart>,
    /// Metadata.
    pub metadata: Vec<(String, MetaValue)>,
}

/// The keys of a message's metadata.
pub open spec fn meta_keys(m: Seq<(String, MetaValue)>) -> Seq<Seq<char>> {
    m.map_values(|e: (String, MetaValue)| e.0@)
}

/// The value of a metadata key, if any.
pub open spec fn meta_get(m: Seq<(String, MetaValue)>, key: Seq<char>) -> Option<MetaValue> {
    match first_index(meta_keys(m), key) {
        Some(i) => Some(m[i].1),
        None => None,
    }
}

/// The text of a metadata key, if it holds a text.
pub open spec fn meta_text(m: Seq<(String, MetaValue)>, key: Seq<char>) -> Option<Seq<char>> {
    match meta_get(m, key) {
        Some(MetaValue::Text(t)) => Some(t@),
        _ => None,
    }
}

/// The text of the main part, or a placeholder for a message whose main part
/// is not text or that has no part.
pub open spec fn main_text(parts: Seq<MessagePart>) -> Seq<char> {
    if parts.len() == 0 {
        "空消息"@
    } else {
        match parts[0] {
            MessagePart::Text(t) => t@,
            MessagePart::Data(_) => "非文本消息"@,
        }
    }
}

impl A2AMessage {
    /// A message with one text part and no metadata.
    pub fn new_text(role: MessageRole, text: String) -> (r: Self)
        ensures
            r.role == role,
            r.parts@.len() == 1,
            r.parts@[0] matches MessagePart::Text(t) && t@ == text@,
            r.metadata@.len() == 0,
    {
        let mut parts: Vec<MessagePart> = Vec::new();
        parts.push(MessagePart::Text(text));
        A2AMessage { role, parts, metadata: Vec::new() }
    }

    /// A message of a user with one text part.
    pub fn user_message(text: String) -> (r: Self)
        ensures
            r.role == MessageRole::User,
            r.parts@.len() == 1,
            r.parts@[0] matches MessagePart::Text(t) && t@ == text@,
            r.metadata@.len() == 0,
    {
        A2AMessage::new_text(MessageRole::User, text)
    }

    /// The position of a metadata key, if any.
    fn meta_position(&self, key: &str) -> (r: Option<usize>)
        ensures
            match r {
                Some(i) => i < self.metadata@.len() && first_index(meta_keys(self.metadata@), key@) == Some(i as int),
                None => first_index(meta_keys(self.metadata@), key@) is None,
            },
    {
        let ghost keys = meta_keys(self.metadata@);
        let mut i: usize = 0;
        while i < self.metadata.len()
            invariant
                keys == meta_keys(self.metadata@),
                i <= self.metadata@.len(),
                forall|j: int| 0 <= j < i ==> keys[j] != key@,
            decreases self.metadata@.len() - i,
        {
            if crate::text::same_text(self.metadata[i].0.as_str(), key) {
                proof {
                    assert(first_at(keys, key@, i as int));
                    lemma_first_index(keys, key@, i as int);
                }
                return Some(i);
            }
            i = i + 1;
        }
        proof {
            lemma_no_first_index(keys, key@);
        }
        None
    }

    /// Sets a metadata key to a value, replacing a value it had.
    pub fn set_meta(&mut self, key: &str, value: MetaValue)
        ensures
            final(self).role == old(self).role,
            final(self).parts == old(self).parts,
            meta_get(final(self).metadata@, key@) == Some(value),
            forall|k: Seq<char>| k != key@ ==> meta_get(#[trigger] final(self).metadata@, k) == meta_get(old(self).metadata@, k),
    {
        let ghost before = self.metadata@;
        match self.meta_position(key) {
            Some(i) => {
                self.metadata.set(i, (String::from_str(key), value));
                proof {
                    let keys = meta_keys(self.metadata@);
                    assert(keys =~= meta_keys(before));
                }
            },
            None => {
                self.metadata.push((String::from_str(key), value));
                proof {
                    let keys = meta_keys(self.metadata@);
                    assert(keys =~= meta_keys(before).push(key@));
                    lemma_first_index_push_new(meta_keys(before), key@);
                    assert forall|k: Seq<char>| k != key@ implies meta_get(#[trigger] self.metadata@, k) == meta_get(before, k) by {
                        lemma_first_index_push(meta_keys(before), key@, k);
                    }
                }
            },
        }
    }

    /// The value of a metadata key, if any.
    pub fn meta_value(&self, key: &str) -> (r: Option<&MetaValue>)
        ensures
            match meta_get(self.metadata@, key@) {
                Some(v) => r matches Some(x) && *x == v,
                None => r is None,
            },
    {
        match self.meta_position(key) {
            Some(i) => Some(&self.metadata[i].1),
            None => None,
        }
    }

    /// The text of a metadata key, if it holds a text.
    pub fn meta_str(&self, key: &str) -> (r: Option<&str>)
        ensures
            match meta_text(self.metadata@, key@) {
                Some(t) => r matches Some(s) && s@ == t,
                None => r is None,
            },
    {
        match self.meta_position(key) {
            Some(i) => match &self.metadata[i].1 {
                MetaValue::Text(t) => Some(t.as_str()),
                _ => None,
            },
            None => None,
        }
    }

    /// The text of the main part, or a placeholder.
    pub fn main_text(&self) -> (r: String)
        ensures
            r@ == main_text(self.parts@),
    {
        if self.parts.len() == 0 {
            String::from_str("空消息")
        } else {
            match &self.parts[0] {
                MessagePart::Text(t) => t.clone(),
                MessagePart::Data(_) => String::from_str("非文本消息"),
            }
        }
    }
}

} // verus!
