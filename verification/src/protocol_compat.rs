//! Compatibility with other agent protocols: the Model Context Protocol and
//! the OpenAI Assistant API, converted to and from agent-to-agent messages.
use vstd::prelude::*;

pub mod mcp;
pub mod openai;

use crate::a2a::A2AMessage;
use mcp::{McpMessage, McpTool, converts_mcp, tool_names, tools_after_register};
use openai::{OpenAIMessage, converts_openai};

verus! {

/// The protocol adapters.
pub struct ProtocolCompatManager {
    mcp_adapter: mcp::McpAdapter,
    openai_adapter: openai::OpenAIAdapter,
}

impl ProtocolCompatManager {
    /// The MCP adapter.
    pub closed spec fn mcp_spec(&self) -> mcp::McpAdapter {
        self.mcp_adapter
    }

    /// The OpenAI adapter.
    pub closed spec fn openai_spec(&self) -> openai::OpenAIAdapter {
        self.openai_adapter
    }

    /// Adapters with nothing registered.
    pub fn new() -> (r: Self)
        ensures
            r.mcp_spec().tools_spec().len() == 0,
            r.mcp_spec().resources_spec().len() == 0,
            r.openai_spec().assistants_spec().len() == 0,
    {
        ProtocolCompatManager { mcp_adapter: mcp::McpAdapter::new(), openai_adapter: openai::OpenAIAdapter::new() }
    }

    /// The MCP adapter.
    pub fn mcp(&mut self) -> (r: &mut mcp::McpAdapter)
        ensures
            *r == old(self).mcp_spec(),
            final(self).mcp_spec() == *final(r),
            final(self).openai_spec() == old(self).openai_spec(),
    {
        &mut self.mcp_adapter
    }

    /// The OpenAI adapter.
    pub fn openai(&mut self) -> (r: &mut openai::OpenAIAdapter)
        ensures
            *r == old(self).openai_spec(),
            final(self).openai_spec() == *final(r),
            final(self).mcp_spec() == old(self).mcp_spec(),
    {
        &mut self.openai_adapter
    }
}

/// A message of one of the protocols, once read.
#[derive(Debug)]
pub enum IncomingMessage {
    /// A Model Context Protocol message.
    Mcp(McpMessage),
    /// An OpenAI Assistant API message.
    OpenAI(OpenAIMessage),
    /// An agent-to-agent message.
    A2A(A2AMessage),
}

impl ProtocolCompatManager {
    /// The agent-to-agent message for a message read in any protocol: an MCP
    /// or OpenAI message is converted by the manager's own adapter for its
    /// protocol; an agent-to-agent message is passed on. The adapters are left
    /// as they were.
    pub fn convert_to_a2a(&mut self, message: IncomingMessage) -> (r: A2AMessage)
        ensures
            final(self).mcp_spec() == old(self).mcp_spec(),
            final(self).openai_spec() == old(self).openai_spec(),
            match message {
                IncomingMessage::Mcp(m) => converts_mcp(m, r),
                IncomingMessage::OpenAI(o) => converts_openai(o, r),
                IncomingMessage::A2A(a) => r == a,
            },
    {
        match message {
            IncomingMessage::Mcp(m) => self.mcp().mcp_to_a2a(m),
            IncomingMessage::OpenAI(o) => self.openai().openai_to_a2a(o),
            IncomingMessage::A2A(a) => a,
        }
    }
}

/// The MCP accessor hands out the manager's own adapter: a tool registered
/// through it is then listed by the manager's adapter, one tool per name, and
/// the OpenAI adapter is left as it was.
pub proof fn lemma_tool_registered_through_accessor(
    before: ProtocolCompatManager,
    lent: mcp::McpAdapter,
    returned: mcp::McpAdapter,
    after: ProtocolCompatManager,
    tool: McpTool,
)
    requires
        tool_names(before.mcp_spec().tools_spec()).no_duplicates(),
        lent == before.mcp_spec(),
        after.mcp_spec() == returned,
        after.openai_spec() == before.openai_spec(),
        returned.tools_spec() == tools_after_register(lent.tools_spec(), tool),
    ensures
        after.mcp_spec().tools_spec().contains(tool),
        tool_names(after.mcp_spec().tools_spec()).no_duplicates(),
        after.openai_spec() == before.openai_spec(),
{
    mcp::lemma_register_tool_lists_it(before.mcp_spec().tools_spec(), tool);
}

impl Default for ProtocolCompatManager {
    fn default() -> (r: Self)
        ensures
            r.mcp_spec().tools_spec().len() == 0,
            r.mcp_spec().resources_spec().len() == 0,
            r.openai_spec().assistants_spec().len() == 0,
    {
        ProtocolCompatManager::new()
    }
}

/// The protocol that a JSON message is taken to speak.
#[derive(Debug, Clone, Copy, PartialEq, Eq, Structural)]
pub enum DetectedProtocol {
    /// JSON-RPC of the Model Context Protocol.
    Mcp,
    /// A chat message of the OpenAI API.
    OpenAI,
    /// An agent-to-agent message.
    A2A,
}

/// The protocol of a JSON object with the top-level keys `keys`: MCP when it
/// has `jsonrpc`, else OpenAI when it has both `role` and `content`, else A2A.
pub open spec fn protocol_of(keys: Seq<Seq<char>>) -> DetectedProtocol {
    if keys.contains("jsonrpc"@) {
        DetectedProtocol::Mcp
    } else if keys.contains("role"@) && keys.contains("content"@) {
        DetectedProtocol::OpenAI
    } else {
        DetectedProtocol::A2A
    }
}

/// Whether `key` is among `keys`.
fn has_key(keys: &Vec<String>, key: &str) -> (r: bool)
    ensures
        r == keys@.map_values(|k: String| k@).contains(key@),
{
    let ghost names = keys@.map_values(|k: String| k@);
    let mut i: usize = 0;
    while i < keys.len()
        invariant
            names == keys@.map_values(|k: String| k@),
            i <= keys@.len(),
            forall|j: int| 0 <= j < i ==> names[j] != key@,
        decreases keys@.len() - i,
    {
        if crate::text::same_text(keys[i].as_str(), key) {
            assert(names[i as int] == key@);
            return true;
        }
        i = i + 1;
    }
    false
}

impl ProtocolCompatManager {
    /// The protocol of a JSON object with the top-level keys `keys` (see
    /// `protocol_of`), which decides the adapter that converts it.
    pub fn detect_protocol(&self, keys: &Vec<String>) -> (r: DetectedProtocol)
        ensures
            r == protocol_of(keys@.map_values(|k: String| k@)),
    {
        if has_key(keys, "jsonrpc") {
            DetectedProtocol::Mcp
        } else if has_key(keys, "role") && has_key(keys, "content") {
            DetectedProtocol::OpenAI
        } else {
            DetectedProtocol::A2A
        }
    }
}

} // verus!
