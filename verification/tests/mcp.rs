use chattor::daemon::rpc::{route_method, RpcMethod, METHOD_NOT_FOUND};
use chattor::mcp::server::{
    expects_reply, method_not_found_message, not_found_code, protocol_version, route_mcp_request, tool_error_text,
    unknown_tool_message, McpRequest,
};
use chattor::mcp::tools::{tool_definitions, tool_specs, tool_to_rpc};
use serde_json::Value;

fn empty() -> Value {
    Value::Object(serde_json::Map::new())
}

#[test]
fn test_tool_to_rpc_mapping() {
    assert_eq!(tool_to_rpc("send_message", &empty()).unwrap().0, "send_message");
    assert_eq!(tool_to_rpc("receive_messages", &empty()).unwrap().0, "recv_messages");
    assert_eq!(tool_to_rpc("list_friends", &empty()).unwrap().0, "friends_list");
    assert_eq!(tool_to_rpc("add_friend", &empty()).unwrap().0, "friends_add");
    assert_eq!(tool_to_rpc("accept_friend_request", &empty()).unwrap().0, "friends_accept");
    assert_eq!(tool_to_rpc("get_identity", &empty()).unwrap().0, "identity");
    assert_eq!(tool_to_rpc("get_status", &empty()).unwrap().0, "status");
    assert_eq!(tool_to_rpc("publish_channel_post", &empty()).unwrap().0, "channels_publish");
    assert_eq!(tool_to_rpc("list_channel_posts", &empty()).unwrap().0, "channels_feed");
}

#[test]
fn test_tool_to_rpc_unknown() {
    assert!(tool_to_rpc("nonexistent_tool", &empty()).is_none());
}

#[test]
fn test_tool_to_rpc_passes_arguments() {
    let args: Value = serde_json::from_str(r#"{"peer": "abc.onion", "message": "hello"}"#).unwrap();
    let (_, params) = tool_to_rpc("send_message", &args).unwrap();
    let params = params.into_value();
    assert_eq!(params["peer"], "abc.onion");
    assert_eq!(params["message"], "hello");
}

#[test]
fn argument_free_tools_get_an_empty_object() {
    let args: Value = serde_json::from_str(r#"{"ignored": 1}"#).unwrap();
    for tool in ["list_friends", "get_identity", "get_status"] {
        let (_, params) = tool_to_rpc(tool, &args).unwrap();
        assert_eq!(params.into_value(), empty());
    }
    for tool in ["receive_messages", "add_friend", "accept_friend_request", "publish_channel_post", "list_channel_posts"] {
        let (_, params) = tool_to_rpc(tool, &args).unwrap();
        assert_eq!(params.into_value(), args);
    }
}

#[test]
fn daemon_routes_its_methods() {
    assert_eq!(route_method("status").unwrap(), RpcMethod::Status);
    assert_eq!(route_method("friends_reject").unwrap(), RpcMethod::FriendsReject);
    assert_eq!(route_method("notifications_toggle").unwrap(), RpcMethod::NotificationsToggle);
    let e = route_method("nonexistent").unwrap_err();
    assert_eq!(e.code, METHOD_NOT_FOUND);
    assert_eq!(e.message, "Method not found: nonexistent");
}

#[test]
fn every_tool_reaches_a_routed_method() {
    let args = serde_json::Value::Null;
    for tool in [
        "send_message",
        "receive_messages",
        "list_friends",
        "add_friend",
        "accept_friend_request",
        "get_identity",
        "get_status",
        "publish_channel_post",
        "list_channel_posts",
    ] {
        let (method, _) = tool_to_rpc(tool, &args).unwrap();
        assert!(route_method(method).is_ok(), "{} -> {}", tool, method);
    }
}

#[test]
fn test_tool_definitions_count() {
    let tools = tool_definitions();
    assert_eq!(tools.len(), 9); // 9 MCP tools
}

#[test]
fn tool_definitions_carry_their_schema() {
    let tools = tool_definitions();
    let names: Vec<&str> = tools.iter().map(|t| t.name).collect();
    assert_eq!(
        names,
        vec![
            "send_message",
            "receive_messages",
            "list_friends",
            "add_friend",
            "accept_friend_request",
            "get_identity",
            "get_status",
            "publish_channel_post",
            "list_channel_posts",
        ]
    );
    for t in &tools {
        assert!(!t.description.is_empty());
        assert_eq!(t.schema_type, "object");
        for p in &t.properties {
            if let Some(c) = &p.choices {
                assert!(!c.is_empty());
            }
        }
    }
    assert_eq!(tools[0].required.as_deref(), Some(&["peer", "message"][..]));
    assert!(tools[2].required.is_none());
    assert!(tools[2].properties.is_empty());
    let channel = tools[7].properties.iter().find(|p| p.name == "channel_type").unwrap();
    assert!(channel.choices.is_some());
    assert!(tools[0].properties[0].choices.is_none());
}

#[test]
fn test_tool_definitions_have_required_fields() {
    for tool in tool_specs() {
        assert!(!tool.name.is_empty());
        assert!(!tool.description.is_empty());
        for r in &tool.required {
            assert!(tool.params.iter().any(|p| p.name == *r), "{} requires {}", tool.name, r);
        }
        assert!(tool_to_rpc(tool.name, &Value::Null).is_some());
    }
}

#[test]
fn mcp_requests_are_routed_by_method() {
    assert_eq!(route_mcp_request("initialize"), McpRequest::Initialize);
    assert_eq!(route_mcp_request("notifications/initialized"), McpRequest::Initialized);
    assert_eq!(route_mcp_request("tools/list"), McpRequest::ListTools);
    assert_eq!(route_mcp_request("tools/call"), McpRequest::CallTool);
    assert_eq!(route_mcp_request(""), McpRequest::Unknown);
    assert_eq!(route_mcp_request("tools/lists"), McpRequest::Unknown);
    assert!(!expects_reply(&McpRequest::Initialized));
    assert!(expects_reply(&McpRequest::Unknown));
}

#[test]
fn mcp_error_texts() {
    assert_eq!(protocol_version(), "2024-11-05");
    assert_eq!(not_found_code(), -32601);
    assert_eq!(method_not_found_message("x/y"), "Method not found: x/y");
    assert_eq!(unknown_tool_message("nope"), "Unknown tool: nope");
    assert_eq!(tool_error_text("daemon down"), "Error: daemon down");
}
