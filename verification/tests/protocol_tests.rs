use agentx::a2a::{A2AMessage, MessagePart, MessageRole};
use agentx::protocol_compat::mcp::{McpAdapter, McpMessage, McpTool};
use agentx::protocol_compat::openai::{OpenAIAdapter, OpenAIAssistant, OpenAIMessage};
use agentx::protocol_compat::{DetectedProtocol, IncomingMessage, ProtocolCompatManager};

fn keys(k: &[&str]) -> Vec<String> {
    k.iter().map(|s| s.to_string()).collect()
}

fn text_of(m: &A2AMessage) -> String {
    match &m.parts[0] {
        MessagePart::Text(t) => t.clone(),
        _ => panic!("expected text"),
    }
}

#[test]
fn test_mcp_adapter() {
    let mut adapter = McpAdapter::new();
    adapter.register_tool(McpTool {
        name: "test_tool".to_string(),
        description: "Test tool".to_string(),
        input_schema: "{\"type\":\"object\"}".to_string(),
    });

    let mcp_msg = McpMessage {
        jsonrpc: "2.0".to_string(),
        id: Some("1".to_string()),
        method: "tools/call".to_string(),
        params: Some("{\"tool\":\"test_tool\"}".to_string()),
        result: None,
        error: None,
    };
    let a2a_msg = adapter.mcp_to_a2a(mcp_msg);
    assert_eq!(a2a_msg.meta_str("protocol"), Some("mcp"));
    assert_eq!(a2a_msg.role, MessageRole::User);
    assert_eq!(text_of(&a2a_msg), "MCP工具调用: {\"tool\":\"test_tool\"}");

    let mcp_result = adapter.a2a_to_mcp(&a2a_msg, "null".to_string());
    assert_eq!(mcp_result.jsonrpc, "2.0");
    assert_eq!(mcp_result.method, "tools/call");
    assert_eq!(mcp_result.id, Some("1".to_string()));
    assert_eq!(adapter.list_tools().len(), 1);
}

#[test]
fn test_openai_adapter() {
    let mut adapter = OpenAIAdapter::new();
    adapter.register_assistant(OpenAIAssistant {
        id: "asst_123".to_string(),
        name: "Test Assistant".to_string(),
        description: Some("Test assistant".to_string()),
        model: "gpt-4".to_string(),
        instructions: Some("You are a helpful assistant".to_string()),
        tools: vec![],
    });

    let openai_msg = OpenAIMessage {
        role: "user".to_string(),
        content: "Hello, assistant!".to_string(),
        name: None,
        function_call: None,
        tool_calls: None,
    };
    let a2a_msg = adapter.openai_to_a2a(openai_msg);
    assert_eq!(a2a_msg.role, MessageRole::User);
    assert_eq!(a2a_msg.meta_str("protocol"), Some("openai"));

    let openai_result = adapter.a2a_to_openai(&a2a_msg);
    assert_eq!(openai_result.role, "user");
    assert_eq!(openai_result.content, "Hello, assistant!");
    assert_eq!(adapter.list_assistants().len(), 1);
}

#[test]
fn test_protocol_compat_manager() {
    let manager = ProtocolCompatManager::new();
    assert_eq!(manager.detect_protocol(&keys(&["jsonrpc", "id", "method", "params"])), DetectedProtocol::Mcp);
    assert_eq!(manager.detect_protocol(&keys(&["role", "content"])), DetectedProtocol::OpenAI);
    assert_eq!(manager.detect_protocol(&keys(&["role", "parts"])), DetectedProtocol::A2A);
    assert_eq!(manager.detect_protocol(&keys(&["jsonrpc", "role", "content"])), DetectedProtocol::Mcp);
}

#[test]
fn mcp_methods_map_to_roles_and_texts() {
    let adapter = McpAdapter::new();
    let msg = |method: &str, params: Option<&str>| McpMessage {
        jsonrpc: "2.0".to_string(),
        id: None,
        method: method.to_string(),
        params: params.map(|p| p.to_string()),
        result: None,
        error: None,
    };
    let read = adapter.mcp_to_a2a(msg("resources/read", Some("{\"uri\":\"x\"}")));
    assert_eq!(text_of(&read), "MCP资源读取: {\"uri\":\"x\"}");
    let complete = adapter.mcp_to_a2a(msg("completion/complete", None));
    assert_eq!(text_of(&complete), "MCP补全请求: null");
    let other = adapter.mcp_to_a2a(msg("ping", None));
    assert_eq!(other.role, MessageRole::Agent);
    assert_eq!(text_of(&other), "MCP通用消息: ping");
    assert_eq!(other.meta_str("mcp_id"), None);
    let plain = A2AMessage::user_message("hi".to_string());
    assert_eq!(adapter.reply_method(&plain), "notification");
}

#[test]
fn openai_round_trip_keeps_role_content_and_name() {
    let adapter = OpenAIAdapter::new();
    for role in ["user", "assistant"] {
        let original = OpenAIMessage {
            role: role.to_string(),
            content: "Hello!".to_string(),
            name: Some("test_user".to_string()),
            function_call: None,
            tool_calls: None,
        };
        let back = adapter.a2a_to_openai(&adapter.openai_to_a2a(original));
        assert_eq!(back.role, role);
        assert_eq!(back.content, "Hello!");
        assert_eq!(back.name, Some("test_user".to_string()));
    }
    let system = OpenAIMessage { role: "system".to_string(), content: "rules".to_string(), name: None, function_call: None, tool_calls: None };
    assert_eq!(adapter.openai_to_a2a(system).role, MessageRole::Agent);
}

#[test]
fn mcp_notification_carries_no_id() {
    let adapter = McpAdapter::new();
    let msg = McpMessage {
        jsonrpc: "2.0".to_string(),
        id: None,
        method: "notifications/progress".to_string(),
        params: None,
        result: None,
        error: None,
    };
    let a2a = adapter.mcp_to_a2a(msg);
    assert_eq!(a2a.meta_str("mcp_id"), None);
    assert_eq!(a2a.meta_str("mcp_method"), Some("notifications/progress"));
    let reply = adapter.a2a_to_mcp(&a2a, "null".to_string());
    assert_eq!(reply.id, None);
    assert_eq!(reply.method, "notifications/progress");
}

#[test]
fn parsed_messages_convert_through_the_managers_adapters() {
    let mut manager = ProtocolCompatManager::new();
    let mcp = McpMessage {
        jsonrpc: "2.0".to_string(),
        id: Some("7".to_string()),
        method: "tools/call".to_string(),
        params: Some("{}".to_string()),
        result: None,
        error: None,
    };
    let a2a = manager.convert_to_a2a(IncomingMessage::Mcp(mcp));
    assert_eq!(a2a.meta_str("protocol"), Some("mcp"));
    assert_eq!(a2a.meta_str("mcp_id"), Some("7"));
    let again = manager.convert_to_a2a(IncomingMessage::A2A(a2a.clone()));
    assert_eq!(again.meta_str("mcp_method"), Some("tools/call"));
}
