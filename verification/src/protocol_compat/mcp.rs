//! The Model Context Protocol: its messages, tools and resources, and their
//! conversion to agent-to-agent messages.
use vstd::prelude::*;
use crate::a2a::{A2AMessage, MessagePart, MessageRole, MetaValue, main_text, meta_get, meta_keys, meta_text};
use crate::listing::{first_at, first_index, lemma_first_index, lemma_first_index_none, lemma_no_first_index};

verus! {

/// An MCP error.
#[derive(Debug, Clone)]
pub struct McpError {
    /// Code.
    pub code: i32,
    /// Message.
    pub message: String,
    /// Data, as JSON text.
    pub data: Option<String>,
}

/// An MCP message. Parameters and result are JSON texts.
#[derive(Debug, Clone)]
pub struct McpMessage {
    /// Protocol version.
    pub jsonrpc: String,
    /// Request id.
    pub id: Option<String>,
    /// Method.
    pub method: String,
    /// Parameters.
    pub params: Option<String>,
    /// Result.
    pub result: Option<String>,
    /// Error.
    pub error: Option<McpError>,
}

/// An MCP tool.
#[derive(Debug, Clone)]
pub struct McpTool {
    /// Name.
    pub name: String,
    /// What it does.
    pub description: String,
    /// Schema of its input, as JSON text.
    pub input_schema: String,
}

/// An MCP resource.
#[derive(Debug, Clone)]
pub struct McpResource {
    /// URI.
    pub uri: String,
    /// Name.
    pub name: String,
    /// Description.
    pub description: Option<String>,
    /// MIME type.
    pub mime_type: Option<String>,
}

/// The view of an optional text.
pub open spec fn opt_text(t: Option<String>) -> Option<Seq<char>> {
    match t {
        Some(s) => Some(s@),
        None => None,
    }
}

/// Whether a method is one that a user asks for: a tool call, a resource read
/// or a completion.
pub open spec fn user_method(method: Seq<char>) -> bool {
    method == "tools/call"@ || method == "resources/read"@ || method == "completion/complete"@
}

/// The JSON text of optional parameters: the parameters, or `null`.
pub open spec fn params_text(params: Option<Seq<char>>) -> Seq<char> {
    match params {
        Some(p) => p,
        None => "null"@,
    }
}

/// The text of the agent-to-agent message for an MCP message.
pub open spec fn mcp_content(method: Seq<char>, params: Option<Seq<char>>) -> Seq<char> {
    if method == "tools/call"@ {
        "MCP工具调用: "@ + params_text(params)
    } else if method == "resources/read"@ {
        "MCP资源读取: "@ + params_text(params)
    } else if method == "completion/complete"@ {
        "MCP补全请求: "@ + params_text(params)
    } else {
        "MCP通用消息: "@ + method
    }
}

/// The names of a sequence of tools.
pub open spec fn tool_names(v: Seq<McpTool>) -> Seq<Seq<char>> {
    v.map_values(|t: McpTool| t.name@)
}

/// The URIs of a sequence of resources.
pub open spec fn resource_uris(v: Seq<McpResource>) -> Seq<Seq<char>> {
    v.map_values(|t: McpResource| t.uri@)
}

/// Whether `r` is the agent-to-agent message for the MCP message `m`: a user
/// message for a tool call, a resource read or a completion, an agent message
/// otherwise, with one text part (see `mcp_content`), and metadata holding the
/// method, the request id if there is one (no `mcp_id` key otherwise), and the
/// protocol.
pub open spec fn converts_mcp(m: McpMessage, r: A2AMessage) -> bool {
    &&& r.role == (if user_method(m.method@) { MessageRole::User } else { MessageRole::Agent })
    &&& r.parts@.len() == 1
    &&& r.parts@[0] matches MessagePart::Text(t) && t@ == mcp_content(m.method@, opt_text(m.params))
    &&& meta_text(r.metadata@, "mcp_method"@) == Some(m.method@)
    &&& meta_text(r.metadata@, "mcp_id"@) == opt_text(m.id)
    &&& (m.id is None ==> meta_get(r.metadata@, "mcp_id"@) is None)
    &&& meta_text(r.metadata@, "protocol"@) == Some("mcp"@)
}

/// Whether `r` is the MCP message answering the agent-to-agent message `a`
/// with `params` as its parameters: version 2.0, the MCP method and request id
/// that the metadata of `a` holds (the method defaulting to `notification`),
/// no result and no error.
pub open spec fn answers_a2a(a: A2AMessage, params: Seq<char>, r: McpMessage) -> bool {
    &&& r.jsonrpc@ == "2.0"@
    &&& r.method@ == match meta_text(a.metadata@, "mcp_method"@) {
        Some(m) => m,
        None => "notification"@,
    }
    &&& opt_text(r.id) == meta_text(a.metadata@, "mcp_id"@)
    &&& opt_text(r.params) == Some(params)
    &&& r.result is None
    &&& r.error is None
}

/// Converts between MCP messages and agent-to-agent messages, and keeps the
/// tools and resources registered.
pub struct McpAdapter {
    tools: Vec<McpTool>,
    resources: Vec<McpResource>,
}

impl McpAdapter {
    /// The tools, in the order they were first registered.
    pub closed spec fn tools_spec(&self) -> Seq<McpTool> {
        self.tools@
    }

    /// The resources, in the order they were first registered.
    pub closed spec fn resources_spec(&self) -> Seq<McpResource> {
        self.resources@
    }

    /// An adapter with nothing registered.
    pub fn new() -> (r: Self)
        ensures
            r.tools_spec().len() == 0,
            r.resources_spec().len() == 0,
    {
        McpAdapter { tools: Vec::new(), resources: Vec::new() }
    }

    /// Registers a tool, in place of a tool of the same name.
    pub fn register_tool(&mut self, tool: McpTool)
        ensures
            final(self).resources_spec() == old(self).resources_spec(),
            final(self).tools_spec() == tools_after_register(old(self).tools_spec(), tool),
    {
        let ghost names = tool_names(self.tools@);
        let mut i: usize = 0;
        while i < self.tools.len()
            invariant
                names == tool_names(self.tools@),
                self.tools@ == old(self).tools@,
                self.resources@ == old(self).resources@,
                i <= self.tools@.len(),
                forall|j: int| 0 <= j < i ==> names[j] != tool.name@,
            decreases self.tools@.len() - i,
        {
            if crate::text::same_text(self.tools[i].name.as_str(), tool.name.as_str()) {
                proof {
                    assert(first_at(names, tool.name@, i as int));
                    lemma_first_index(names, tool.name@, i as int);
                }
                self.tools.set(i, tool);
                return;
            }
            i = i + 1;
        }
        proof {
            lemma_no_first_index(names, tool.name@);
        }
        self.tools.push(tool);
    }

    /// Registers a resource, in place of a resource of the same URI.
    pub fn register_resource(&mut self, resource: McpResource)
        ensures
            final(self).tools_spec() == old(self).tools_spec(),
            final(self).resources_spec() == match first_index(resource_uris(old(self).resources_spec()), resource.uri@) {
                Some(i) => old(self).resources_spec().update(i, resource),
                None => old(self).resources_spec().push(resource),
            },
    {
        let ghost uris = resource_uris(self.resources@);
        let mut i: usize = 0;
        while i < self.resources.len()
            invariant
                uris == resource_uris(self.resources@),
                self.resources@ == old(self).resources@,
                self.tools@ == old(self).tools@,
                i <= self.resources@.len(),
                forall|j: int| 0 <= j < i ==> uris[j] != resource.uri@,
            decreases self.resources@.len() - i,
        {
            if crate::text::same_text(self.resources[i].uri.as_str(), resource.uri.as_str()) {
                proof {
                    assert(first_at(uris, resource.uri@, i as int));
                    lemma_first_index(uris, resource.uri@, i as int);
                }
                self.resources.set(i, resource);
                return;
            }
            i = i + 1;
        }
        proof {
            lemma_no_first_index(uris, resource.uri@);
        }
        self.resources.push(resource);
    }

    /// The agent-to-agent message for an MCP message: a user message for a
    /// tool call, a resource read or a completion, holding the method's name
    /// and its parameters; an agent message naming the method otherwise. Its
    /// metadata holds the method, the request id if any, and the protocol.
    pub fn mcp_to_a2a(&self, mcp_msg: McpMessage) -> (r: A2AMessage)
        ensures
            converts_mcp(mcp_msg, r),
    {
        let params = match &mcp_msg.params {
            Some(p) => p.clone(),
            None => String::from_str("null"),
        };
        let method = mcp_msg.method.as_str();
        let mut msg = if crate::text::same_text(method, "tools/call") {
            A2AMessage::user_message(crate::text::join2("MCP工具调用: ", params.as_str()))
        } else if crate::text::same_text(method, "resources/read") {
            A2AMessage::user_message(crate::text::join2("MCP资源读取: ", params.as_str()))
        } else if crate::text::same_text(method, "completion/complete") {
            A2AMessage::user_message(crate::text::join2("MCP补全请求: ", params.as_str()))
        } else {
            A2AMessage::new_text(MessageRole::Agent, crate::text::join2("MCP通用消息: ", method))
        };
        proof {
            reveal_strlit("mcp_method");
            reveal_strlit("mcp_id");
            reveal_strlit("protocol");
            assert(meta_keys(msg.metadata@) =~= Seq::<Seq<char>>::empty());
            assert("mcp_method"@[4] != "mcp_id"@[4]);
            assert("protocol"@[0] != "mcp_id"@[0]);
            assert("protocol"@[0] != "mcp_method"@[0]);
            lemma_no_first_index(meta_keys(msg.metadata@), "mcp_id"@);
        }
        msg.set_meta("mcp_method", MetaValue::Text(mcp_msg.method.clone()));
        match &mcp_msg.id {
            Some(id) => { msg.set_meta("mcp_id", MetaValue::Text(id.clone())); },
            None => {},
        }
        msg.set_meta("protocol", MetaValue::Text(String::from_str("mcp")));
        msg
    }

    /// The method of the MCP message answering an agent-to-agent message: the
    /// MCP method its metadata holds, or `notification`.
    pub fn reply_method(&self, a2a_msg: &A2AMessage) -> (r: String)
        ensures
            r@ == match meta_text(a2a_msg.metadata@, "mcp_method"@) {
                Some(m) => m,
                None => "notification"@,
            },
    {
        match a2a_msg.meta_str("mcp_method") {
            Some(m) => String::from_str(m),
            None => String::from_str("notification"),
        }
    }

    /// The MCP message answering an agent-to-agent message, with `params` as
    /// its parameters: version 2.0, the MCP method and request id its
    /// metadata holds (the method defaulting to `notification`), no result
    /// and no error.
    pub fn a2a_to_mcp(&self, a2a_msg: &A2AMessage, params: String) -> (r: McpMessage)
        ensures
            answers_a2a(*a2a_msg, params@, r),
    {
        let method = self.reply_method(a2a_msg);
        let id = match a2a_msg.meta_str("mcp_id") {
            Some(i) => Some(String::from_str(i)),
            None => None,
        };
        McpMessage {
            jsonrpc: String::from_str("2.0"),
            id,
            method,
            params: Some(params),
            result: None,
            error: None,
        }
    }

    /// The text that the parameters of the MCP message answering an
    /// agent-to-agent message carry: the message's main text.
    pub fn reply_content(&self, a2a_msg: &A2AMessage) -> (r: String)
        ensures
            r@ == main_text(a2a_msg.parts@),
    {
        a2a_msg.main_text()
    }

    /// Every tool, in the order first registered.
    pub fn list_tools(&self) -> (r: Vec<&McpTool>)
        ensures
            r@.len() == self.tools_spec().len(),
            forall|i: int| 0 <= i < r@.len() ==> *(#[trigger] r@[i]) == self.tools_spec()[i],
    {
        let mut out: Vec<&McpTool> = Vec::new();
        let mut i: usize = 0;
        while i < self.tools.len()
            invariant
                i <= self.tools@.len(),
                out@.len() == i,
                forall|j: int| 0 <= j < i ==> *(#[trigger] out@[j]) == self.tools@[j],
            decreases self.tools@.len() - i,
        {
            out.push(&self.tools[i]);
            i = i + 1;
        }
        out
    }

    /// Every resource, in the order first registered.
    pub fn list_resources(&self) -> (r: Vec<&McpResource>)
        ensures
            r@.len() == self.resources_spec().len(),
            forall|i: int| 0 <= i < r@.len() ==> *(#[trigger] r@[i]) == self.resources_spec()[i],
    {
        let mut out: Vec<&McpResource> = Vec::new();
        let mut i: usize = 0;
        while i < self.resources.len()
            invariant
                i <= self.resources@.len(),
                out@.len() == i,
                forall|j: int| 0 <= j < i ==> *(#[trigger] out@[j]) == self.resources@[j],
            decreases self.resources@.len() - i,
        {
            out.push(&self.resources[i]);
            i = i + 1;
        }
        out
    }
}

impl Default for McpAdapter {
    fn default() -> (r: Self)
        ensures
            r.tools_spec().len() == 0,
            r.resources_spec().len() == 0,
    {
        McpAdapter::new()
    }
}

/// The answer to an MCP request, carried through an agent-to-agent message,
/// goes back under the request's method and id.
pub proof fn lemma_mcp_answer_matches_request(m: McpMessage, a: A2AMessage, params: Seq<char>, r: McpMessage)
    requires
        converts_mcp(m, a),
        answers_a2a(a, params, r),
    ensures
        r.method@ == m.method@,
        opt_text(r.id) == opt_text(m.id),
        opt_text(r.params) == Some(params),
{
}

/// The tools after registering `tool` (see `McpAdapter::register_tool`):
/// it replaces the first tool of its name, or is added last.
pub open spec fn tools_after_register(tools: Seq<McpTool>, tool: McpTool) -> Seq<McpTool> {
    match first_index(tool_names(tools), tool.name@) {
        Some(i) => tools.update(i, tool),
        None => tools.push(tool),
    }
}

/// A registered tool is listed, and registration keeps one tool per name.
pub proof fn lemma_register_tool_lists_it(tools: Seq<McpTool>, tool: McpTool)
    requires
        tool_names(tools).no_duplicates(),
    ensures
        tools_after_register(tools, tool).contains(tool),
        tool_names(tools_after_register(tools, tool)).no_duplicates(),
{
    let names = tool_names(tools);
    let after = tools_after_register(tools, tool);
    match first_index(names, tool.name@) {
        Some(i) => {
            assert(first_at(names, tool.name@, i)) by {
                assert(exists|k: int| first_at(names, tool.name@, k));
            }
            assert(after[i] == tool);
            assert(tool_names(after) =~= names.update(i, tool.name@));
        },
        None => {
            lemma_first_index_none(names, tool.name@);
            assert(after[tools.len() as int] == tool);
            assert(tool_names(after) =~= names.push(tool.name@));
            assert forall|a: int, b: int| 0 <= a < b < tool_names(after).len()
                implies tool_names(after)[a] != tool_names(after)[b] by {
                if b == tools.len() {
                    assert(names[a] != tool.name@);
                }
            }
        },
    }
}

} // verus!
