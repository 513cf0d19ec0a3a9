//! The MCP tools and the daemon RPC methods that serve them.

use vstd::prelude::*;

use crate::daemon::rpc::method_named;
use crate::text::str_equals;

verus! {

#[verifier::external_type_specification]
#[verifier::external_body]
pub struct ExJsonValue(serde_json::Value);

/// `Value::clone`: an equal value.
#[verifier::external_body]
fn clone_value(v: &serde_json::Value) -> (r: serde_json::Value)
    ensures
        r == *v,
{
    v.clone()
}

/// `Value::Object(Map::new())`: the empty JSON object. Nothing is claimed
/// of the value.
#[verifier::external_body]
fn empty_object() -> (r: serde_json::Value) {
    serde_json::Value::Object(serde_json::Map::new())
}

/// The daemon RPC method that serves an MCP tool, and whether the tool's
/// arguments are passed on as the method's parameters (otherwise the
/// parameters are an empty object).
pub open spec fn tool_method(tool_name: Seq<char>) -> Option<(Seq<char>, bool)> {
    if tool_name == "send_message"@ {
        Some(("send_message"@, true))
    } else if tool_name == "receive_messages"@ {
        Some(("recv_messages"@, true))
    } else if tool_name == "list_friends"@ {
        Some(("friends_list"@, false))
    } else if tool_name == "add_friend"@ {
        Some(("friends_add"@, true))
    } else if tool_name == "accept_friend_request"@ {
        Some(("friends_accept"@, true))
    } else if tool_name == "get_identity"@ {
        Some(("identity"@, false))
    } else if tool_name == "get_status"@ {
        Some(("status"@, false))
    } else if tool_name == "publish_channel_post"@ {
        Some(("channels_publish"@, true))
    } else if tool_name == "list_channel_posts"@ {
        Some(("channels_feed"@, true))
    } else {
        None
    }
}

/// The parameters a tool call hands to its daemon method: the tool's
/// arguments, or the empty JSON object for tools that take none.
#[derive(Debug)]
pub enum RpcParams {
    Arguments(serde_json::Value),
    EmptyObject,
}

impl RpcParams {
    /// The parameters as the JSON value sent to the daemon.
    pub fn into_value(self) -> (r: serde_json::Value)
        ensures
            self matches RpcParams::Arguments(v) ==> r == v,
    {
        match self {
            RpcParams::Arguments(v) => v,
            RpcParams::EmptyObject => empty_object(),
        }
    }
}

/// Map MCP tool name to daemon RPC method + params.
pub fn tool_to_rpc(tool_name: &str, arguments: &serde_json::Value) -> (r: Option<(&'static str, RpcParams)>)
    ensures
        match tool_method(tool_name@) {
            None => r is None,
            Some((method, forwards)) => r matches Some((m, params)) && m@ == method && params == if forwards {
                RpcParams::Arguments(*arguments)
            } else {
                RpcParams::EmptyObject
            },
        },
{
    let (method, forwards): (&'static str, bool) = if str_equals(tool_name, "send_message") {
        ("send_message", true)
    } else if str_equals(tool_name, "receive_messages") {
        ("recv_messages", true)
    } else if str_equals(tool_name, "list_friends") {
        ("friends_list", false)
    } else if str_equals(tool_name, "add_friend") {
        ("friends_add", true)
    } else if str_equals(tool_name, "accept_friend_request") {
        ("friends_accept", true)
    } else if str_equals(tool_name, "get_identity") {
        ("identity", false)
    } else if str_equals(tool_name, "get_status") {
        ("status", false)
    } else if str_equals(tool_name, "publish_channel_post") {
        ("channels_publish", true)
    } else if str_equals(tool_name, "list_channel_posts") {
        ("channels_feed", true)
    } else {
        return None;
    };
    let params = if forwards {
        RpcParams::Arguments(clone_value(arguments))
    } else {
        RpcParams::EmptyObject
    };
    Some((method, params))
}

/// Every MCP tool is served by a method the daemon routes.
pub proof fn lemma_tools_reach_daemon_methods(tool_name: Seq<char>)
    ensures
        tool_method(tool_name) matches Some((method, _)) ==> method_named(method) is Some,
{
}

/// One parameter of an MCP tool's input schema.
#[derive(Debug, Clone)]
pub struct ToolParam {
    pub name: &'static str,
    /// The JSON type: `string` or `integer`.
    pub kind: &'static str,
    pub description: &'static str,
    /// The values a string parameter is limited to (none: any).
    pub choices: Vec<&'static str>,
}

/// An MCP tool as the server lists it: its input schema is an object with
/// these parameters, of which `required` must be given.
#[derive(Debug, Clone)]
pub struct ToolSpec {
    pub name: &'static str,
    pub description: &'static str,
    pub params: Vec<ToolParam>,
    pub required: Vec<&'static str>,
}

/// The names of the tools the server offers, in the order it lists them.
pub open spec fn tool_names() -> Seq<Seq<char>> {
    seq![
        "send_message"@,
        "receive_messages"@,
        "list_friends"@,
        "add_friend"@,
        "accept_friend_request"@,
        "get_identity"@,
        "get_status"@,
        "publish_channel_post"@,
        "list_channel_posts"@,
    ]
}

/// The names of the parameters of each tool, in order.
pub open spec fn tool_param_names(i: int) -> Seq<Seq<char>> {
    if i == 0 {
        seq!["peer"@, "message"@]
    } else if i == 1 {
        seq!["peer"@, "since"@]
    } else if i == 3 {
        seq!["code"@]
    } else if i == 4 {
        seq!["id"@]
    } else if i == 7 {
        seq!["channel_type"@, "message"@]
    } else if i == 8 {
        seq!["channel_id"@]
    } else {
        seq![]
    }
}

/// The names of the required parameters of each tool.
pub open spec fn tool_required(i: int) -> Seq<Seq<char>> {
    if i == 0 {
        seq!["peer"@, "message"@]
    } else if i == 3 {
        seq!["code"@]
    } else if i == 4 {
        seq!["id"@]
    } else if i == 7 {
        seq!["channel_type"@, "message"@]
    } else {
        seq![]
    }
}

fn param(name: &'static str, kind: &'static str, description: &'static str) -> (p: ToolParam)
    ensures
        p.name == name,
        p.kind == kind,
        p.description == description,
        p.choices@.len() == 0,
{
    ToolParam { name, kind, description, choices: Vec::new() }
}

/// The tools the MCP server offers.
pub fn tool_specs() -> (r: Vec<ToolSpec>)
    ensures
        r@.len() == tool_names().len(),
        forall|i: int| 0 <= i < r@.len() ==> (#[trigger] r@[i]).name@ == tool_names()[i],
        forall|i: int| 0 <= i < r@.len() ==> (#[trigger] r@[i]).params@.map_values(|p: ToolParam| p.name@)
            == tool_param_names(i),
        forall|i: int| 0 <= i < r@.len() ==> (#[trigger] r@[i]).required@.map_values(|n: &'static str| n@)
            == tool_required(i),
        forall|i: int| 0 <= i < r@.len() ==> (#[trigger] r@[i]).description@.len() > 0,
{
    let mut r: Vec<ToolSpec> = Vec::new();
    r.push(ToolSpec {
        name: "send_message",
        description: "Send a private encrypted message to a peer over Tor",
        params: vec![
            param("peer", "string", "Peer .onion address or friend code"),
            param("message", "string", "Message text to send"),
        ],
        required: vec!["peer", "message"],
    });
    r.push(ToolSpec {
        name: "receive_messages",
        description: "Get unread messages, optionally filtered by peer",
        params: vec![
            param("peer", "string", "Optional: filter by peer onion/code"),
            param("since", "integer", "Optional: Unix timestamp, return messages after this time"),
        ],
        required: vec![],
    });
    r.push(ToolSpec {
        name: "list_friends",
        description: "List all friends with their online/typing status and unread counts",
        params: vec![],
        required: vec![],
    });
    r.push(ToolSpec {
        name: "add_friend",
        description: "Send a friend request to a peer via their .onion address or friend code",
        params: vec![param("code", "string", ".onion address or friend code")],
        required: vec!["code"],
    });
    r.push(ToolSpec {
        name: "accept_friend_request",
        description: "Accept a pending friend request by ID",
        params: vec![param("id", "integer", "Friend request ID")],
        required: vec!["id"],
    });
    r.push(ToolSpec {
        name: "get_identity",
        description: "Get own friend code and .onion address for sharing with peers",
        params: vec![],
        required: vec![],
    });
    r.push(ToolSpec {
        name: "get_status",
        description: "Check daemon status, Tor connection, and .onion address",
        params: vec![],
        required: vec![],
    });
    let mut channel_type = param("channel_type", "string", "Channel type");
    channel_type.choices = vec!["public", "friends"];
    r.push(ToolSpec {
        name: "publish_channel_post",
        description: "Publish a post to own broadcast channel",
        params: vec![channel_type, param("message", "string", "Post content")],
        required: vec!["channel_type", "message"],
    });
    r.push(ToolSpec {
        name: "list_channel_posts",
        description: "Read posts from a broadcast channel",
        params: vec![param("channel_id", "integer", "Optional: specific channel ID")],
        required: vec![],
    });
    proof {
        reveal_strlit("Send a private encrypted message to a peer over Tor");
        reveal_strlit("Get unread messages, optionally filtered by peer");
        reveal_strlit("List all friends with their online/typing status and unread counts");
        reveal_strlit("Send a friend request to a peer via their .onion address or friend code");
        reveal_strlit("Accept a pending friend request by ID");
        reveal_strlit("Get own friend code and .onion address for sharing with peers");
        reveal_strlit("Check daemon status, Tor connection, and .onion address");
        reveal_strlit("Publish a post to own broadcast channel");
        reveal_strlit("Read posts from a broadcast channel");
        assert forall|i: int| 0 <= i < r@.len() implies (#[trigger] r@[i]).params@.map_values(|p: ToolParam| p.name@)
            == tool_param_names(i) && r@[i].required@.map_values(|n: &'static str| n@) == tool_required(i) by {
            assert(r@[i].params@.map_values(|p: ToolParam| p.name@) =~= tool_param_names(i));
            assert(r@[i].required@.map_values(|n: &'static str| n@) =~= tool_required(i));
        }
    }
    r
}

/// Every tool the server lists is served by a daemon method.
pub proof fn lemma_listed_tools_are_served(i: int)
    requires
        0 <= i < tool_names().len(),
    ensures
        tool_method(tool_names()[i]) is Some,
{
}

/// One property of a tool's input schema as the server writes it: its
/// `type`, the `enum` of allowed values only when the parameter is limited
/// to some, and its `description`.
#[derive(Debug)]
pub struct SchemaProperty {
    pub name: &'static str,
    pub kind: &'static str,
    pub choices: Option<Vec<&'static str>>,
    pub description: &'static str,
}

/// A tool as the server lists it: its `name`, its `description` and its
/// `inputSchema`, an object schema (`schema_type`) with these `properties`
/// and, only when some parameter is required, the `required` list.
#[derive(Debug)]
pub struct ToolDefinition {
    pub name: &'static str,
    pub description: &'static str,
    pub schema_type: &'static str,
    pub properties: Vec<SchemaProperty>,
    pub required: Option<Vec<&'static str>>,
}

/// The property a parameter is written as.
pub open spec fn property_of(p: ToolParam, q: SchemaProperty) -> bool {
    &&& q.name == p.name
    &&& q.kind == p.kind
    &&& q.description == p.description
    &&& q.choices == if p.choices@.len() == 0 {
        None::<Vec<&'static str>>
    } else {
        Some(p.choices)
    }
}

/// The definition a tool is listed as.
pub open spec fn definition_of(t: ToolSpec, d: ToolDefinition) -> bool {
    &&& d.name == t.name
    &&& d.description == t.description
    &&& d.schema_type@ == "object"@
    &&& d.properties@.len() == t.params@.len()
    &&& forall|j: int| 0 <= j < t.params@.len() ==> property_of(t.params@[j], #[trigger] d.properties@[j])
    &&& d.required == if t.required@.len() == 0 {
        None::<Vec<&'static str>>
    } else {
        Some(t.required)
    }
}

/// The definition of one tool.
pub fn tool_definition(tool: ToolSpec) -> (d: ToolDefinition)
    ensures
        definition_of(tool, d),
{
    let ghost params = tool.params@;
    let mut rest = tool.params;
    let mut properties: Vec<SchemaProperty> = Vec::new();
    while rest.len() > 0
        invariant
            properties@.len() + rest@.len() == params.len(),
            rest@ == params.skip(properties@.len() as int),
            forall|j: int| 0 <= j < properties@.len() ==> property_of(params[j], #[trigger] properties@[j]),
        decreases rest@.len(),
    {
        let ghost k = properties@.len() as int;
        let p = rest.remove(0);
        assert(p == params[k]);
        let choices = if p.choices.len() == 0 {
            None
        } else {
            Some(p.choices)
        };
        properties.push(SchemaProperty { name: p.name, kind: p.kind, choices, description: p.description });
        assert(rest@ =~= params.skip(properties@.len() as int));
    }
    let required = if tool.required.len() == 0 {
        None
    } else {
        Some(tool.required)
    };
    ToolDefinition { name: tool.name, description: tool.description, schema_type: "object", properties, required }
}

/// The definitions of the tools the MCP server offers, in the order it
/// lists them.
pub fn tool_definitions() -> (r: Vec<ToolDefinition>)
    ensures
        r@.len() == tool_names().len(),
        forall|i: int| 0 <= i < r@.len() ==> (#[trigger] r@[i]).name@ == tool_names()[i],
        forall|i: int| 0 <= i < r@.len() ==> (#[trigger] r@[i]).description@.len() > 0,
        forall|i: int| 0 <= i < r@.len() ==> (#[trigger] r@[i]).schema_type@ == "object"@,
        forall|i: int| 0 <= i < r@.len() ==> (#[trigger] r@[i]).properties@.map_values(|q: SchemaProperty| q.name@)
            == tool_param_names(i),
        forall|i: int| 0 <= i < r@.len() ==> match (#[trigger] r@[i]).required {
            None => tool_required(i).len() == 0,
            Some(v) => tool_required(i).len() > 0 && v@.map_values(|n: &'static str| n@) == tool_required(i),
        },
        forall|i: int, j: int|
            0 <= i < r@.len() && 0 <= j < r@[i].properties@.len() ==> ((#[trigger] r@[i].properties@[j]).choices
                matches Some(c) ==> c@.len() > 0),
{
    let specs = tool_specs();
    let ghost all = specs@;
    let mut rest = specs;
    let mut r: Vec<ToolDefinition> = Vec::new();
    while rest.len() > 0
        invariant
            r@.len() + rest@.len() == all.len(),
            rest@ == all.skip(r@.len() as int),
            forall|i: int| 0 <= i < r@.len() ==> definition_of(all[i], #[trigger] r@[i]),
        decreases rest@.len(),
    {
        let ghost k = r@.len() as int;
        let t = rest.remove(0);
        assert(t == all[k]);
        r.push(tool_definition(t));
        assert(rest@ =~= all.skip(r@.len() as int));
    }
    assert forall|i: int| 0 <= i < r@.len() implies (#[trigger] r@[i]).properties@.map_values(|q: SchemaProperty| q.name@)
        == tool_param_names(i) by {
        assert(definition_of(all[i], r@[i]));
        assert(r@[i].properties@.map_values(|q: SchemaProperty| q.name@) =~= all[i].params@.map_values(
            |p: ToolParam| p.name@,
        ));
    }
    assert forall|i: int| 0 <= i < r@.len() implies match (#[trigger] r@[i]).required {
        None => tool_required(i).len() == 0,
        Some(v) => tool_required(i).len() > 0 && v@.map_values(|n: &'static str| n@) == tool_required(i),
    } by {
        assert(definition_of(all[i], r@[i]));
        assert(all[i].required@.map_values(|n: &'static str| n@) == tool_required(i));
        if all[i].required@.len() == 0 {
            assert(all[i].required@.map_values(|n: &'static str| n@).len() == 0);
        }
    }
    assert forall|i: int, j: int|
        0 <= i < r@.len() && 0 <= j < r@[i].properties@.len() implies ((#[trigger] r@[i].properties@[j]).choices
        matches Some(c) ==> c@.len() > 0) by {
        assert(definition_of(all[i], r@[i]));
        assert(property_of(all[i].params@[j], r@[i].properties@[j]));
    }
    r
}

} // verus!
