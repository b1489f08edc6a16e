//! The crate's data model: messages, content blocks, configuration options
//! and the control-protocol envelope types, together with their
//! mathematical views.

use vstd::prelude::*;
use crate::json::{json_view, JsonV};

verus! {

// ---------------------------------------------------------------------------
// Permission modes and related configuration values
// ---------------------------------------------------------------------------

#[derive(Debug, Clone, Copy, PartialEq, Eq, Structural)]
pub enum PermissionMode {
    Default,
    AcceptEdits,
    Plan,
    BypassPermissions,
}

#[derive(Debug, Clone, Copy, PartialEq, Eq, Structural)]
pub enum SettingSource {
    User,
    Project,
    Local,
}

#[derive(Debug, Clone)]
pub struct SystemPromptPreset {
    /// The wire tag of this shape; always "preset".
    pub kind: String,
    pub preset: String,
    pub append: Option<String>,
}

#[derive(Debug, Clone)]
pub struct AgentDefinition {
    pub description: String,
    pub prompt: String,
    pub tools: Option<Vec<String>>,
    pub model: Option<String>,
}

#[derive(Debug, Clone, Copy, PartialEq, Eq, Structural)]
pub enum PermissionUpdateDestination {
    UserSettings,
    ProjectSettings,
    LocalSettings,
    Session,
}

#[derive(Debug, Clone, Copy, PartialEq, Eq, Structural)]
pub enum PermissionBehavior {
    Allow,
    Deny,
    Ask,
}

#[derive(Debug, Clone)]
pub struct PermissionRuleValue {
    pub tool_name: String,
    pub rule_content: Option<String>,
}

#[derive(Debug, Clone)]
pub struct PermissionUpdate {
    /// One of "addRules", "replaceRules", "removeRules", "setMode",
    /// "addDirectories", "removeDirectories".
    pub kind: String,
    pub rules: Option<Vec<PermissionRuleValue>>,
    pub behavior: Option<PermissionBehavior>,
    pub mode: Option<PermissionMode>,
    pub directories: Option<Vec<String>>,
    pub destination: Option<PermissionUpdateDestination>,
}

/// Context handed to a permission callback.
#[derive(Debug, Clone)]
pub struct ToolPermissionContext {
    pub suggestions: Vec<PermissionUpdate>,
}

/// The decision a permission callback returns.
#[derive(Debug, Clone)]
pub enum PermissionResult {
    Allow {
        updated_input: Option<Vec<(String, serde_json::Value)>>,
        updated_permissions: Option<Vec<PermissionUpdate>>,
    },
    Deny { message: String, interrupt: bool },
}

// ---------------------------------------------------------------------------
// Hook types
// ---------------------------------------------------------------------------

#[derive(Debug, Clone, Copy, PartialEq, Eq, Structural)]
pub enum HookEvent {
    PreToolUse,
    PostToolUse,
    UserPromptSubmit,
    Stop,
    SubagentStop,
    PreCompact,
}

#[derive(Debug, Clone)]
pub struct HookJSONOutput {
    pub decision: Option<String>,
    pub system_message: Option<String>,
    pub hook_specific_output: Option<serde_json::Value>,
}

#[derive(Debug, Clone)]
pub struct HookContext {
    pub signal: Option<String>,
}

#[derive(Debug, Clone)]
pub struct HookMatcher {
    pub matcher: Option<String>,
}

// ---------------------------------------------------------------------------
// MCP server configuration
// ---------------------------------------------------------------------------

#[derive(Debug, Clone)]
pub enum McpServerConfig {
    Stdio {
        command: String,
        args: Option<Vec<String>>,
        env: Option<Vec<(String, String)>>,
    },
    SSE { url: String, headers: Option<Vec<(String, String)>> },
    Http { url: String, headers: Option<Vec<(String, String)>> },
}

// ---------------------------------------------------------------------------
// Messages and content blocks
// ---------------------------------------------------------------------------

#[derive(Debug, Clone)]
pub enum ContentBlock {
    Text { text: String },
    Thinking { thinking: String, signature: String },
    ToolUse { id: String, name: String, input: serde_json::Value },
    ToolResult {
        tool_use_id: String,
        content: Option<serde_json::Value>,
        is_error: Option<bool>,
    },
}

pub enum ContentBlockV {
    Text { text: Seq<char> },
    Thinking { thinking: Seq<char>, signature: Seq<char> },
    ToolUse { id: Seq<char>, name: Seq<char>, input: JsonV },
    ToolResult { tool_use_id: Seq<char>, content: Option<JsonV>, is_error: Option<bool> },
}

/// The view of an optional owned string.
pub open spec fn ostr(o: Option<String>) -> Option<Seq<char>> {
    match o {
        Some(s) => Some(s@),
        None => None,
    }
}

/// The view of an optional stored JSON value.
pub open spec fn ojson(o: Option<serde_json::Value>) -> Option<JsonV> {
    match o {
        Some(v) => Some(json_view(v)),
        None => None,
    }
}

impl View for ContentBlock {
    type V = ContentBlockV;

    open spec fn view(&self) -> ContentBlockV {
        match self {
            ContentBlock::Text { text } => ContentBlockV::Text { text: text@ },
            ContentBlock::Thinking { thinking, signature } => ContentBlockV::Thinking {
                thinking: thinking@,
                signature: signature@,
            },
            ContentBlock::ToolUse { id, name, input } => ContentBlockV::ToolUse {
                id: id@,
                name: name@,
                input: json_view(*input),
            },
            ContentBlock::ToolResult { tool_use_id, content, is_error } => {
                ContentBlockV::ToolResult {
                    tool_use_id: tool_use_id@,
                    content: ojson(*content),
                    is_error: *is_error,
                }
            },
        }
    }
}

/// The views of a sequence of content blocks.
pub open spec fn blocks_view(bs: Seq<ContentBlock>) -> Seq<ContentBlockV> {
    bs.map_values(|b: ContentBlock| b@)
}

#[derive(Debug, Clone)]
pub enum UserMessageContent {
    Text(String),
    Blocks(Vec<ContentBlock>),
}

pub enum UserMessageContentV {
    Text(Seq<char>),
    Blocks(Seq<ContentBlockV>),
}

impl View for UserMessageContent {
    type V = UserMessageContentV;

    open spec fn view(&self) -> UserMessageContentV {
        match self {
            UserMessageContent::Text(s) => UserMessageContentV::Text(s@),
            UserMessageContent::Blocks(bs) => UserMessageContentV::Blocks(blocks_view(bs@)),
        }
    }
}

#[derive(Debug, Clone)]
pub struct UserMessage {
    pub content: UserMessageContent,
    pub parent_tool_use_id: Option<String>,
}

pub struct UserMessageV {
    pub content: UserMessageContentV,
    pub parent_tool_use_id: Option<Seq<char>>,
}

impl View for UserMessage {
    type V = UserMessageV;

    open spec fn view(&self) -> UserMessageV {
        UserMessageV {
            content: self.content@,
            parent_tool_use_id: ostr(self.parent_tool_use_id),
        }
    }
}

#[derive(Debug, Clone)]
pub struct AssistantMessage {
    pub content: Vec<ContentBlock>,
    pub model: String,
    pub parent_tool_use_id: Option<String>,
}

pub struct AssistantMessageV {
    pub content: Seq<ContentBlockV>,
    pub model: Seq<char>,
    pub parent_tool_use_id: Option<Seq<char>>,
}

impl View for AssistantMessage {
    type V = AssistantMessageV;

    open spec fn view(&self) -> AssistantMessageV {
        AssistantMessageV {
            content: blocks_view(self.content@),
            model: self.model@,
            parent_tool_use_id: ostr(self.parent_tool_use_id),
        }
    }
}

#[derive(Debug, Clone)]
pub struct SystemMessage {
    pub subtype: String,
    /// The whole decoded message object, kept as received.
    pub data: serde_json::Value,
}

pub struct SystemMessageV {
    pub subtype: Seq<char>,
    pub data: JsonV,
}

impl View for SystemMessage {
    type V = SystemMessageV;

    open spec fn view(&self) -> SystemMessageV {
        SystemMessageV { subtype: self.subtype@, data: json_view(self.data) }
    }
}

#[derive(Debug, Clone)]
pub struct ResultMessage {
    pub subtype: String,
    pub duration_ms: i64,
    pub duration_api_ms: i64,
    pub is_error: bool,
    pub num_turns: i32,
    pub session_id: String,
    /// The raw JSON number under "total_cost_usd", when one was present.
    pub total_cost_usd: Option<serde_json::Value>,
    pub usage: Option<serde_json::Value>,
    pub result: Option<String>,
}

pub struct ResultMessageV {
    pub subtype: Seq<char>,
    pub duration_ms: int,
    pub duration_api_ms: int,
    pub is_error: bool,
    pub num_turns: int,
    pub session_id: Seq<char>,
    pub total_cost_usd: Option<JsonV>,
    pub usage: Option<JsonV>,
    pub result: Option<Seq<char>>,
}

impl View for ResultMessage {
    type V = ResultMessageV;

    open spec fn view(&self) -> ResultMessageV {
        ResultMessageV {
            subtype: self.subtype@,
            duration_ms: self.duration_ms as int,
            duration_api_ms: self.duration_api_ms as int,
            is_error: self.is_error,
            num_turns: self.num_turns as int,
            session_id: self.session_id@,
            total_cost_usd: ojson(self.total_cost_usd),
            usage: ojson(self.usage),
            result: ostr(self.result),
        }
    }
}

#[derive(Debug, Clone)]
pub struct StreamEvent {
    pub uuid: String,
    pub session_id: String,
    pub event: serde_json::Value,
    pub parent_tool_use_id: Option<String>,
}

pub struct StreamEventV {
    pub uuid: Seq<char>,
    pub session_id: Seq<char>,
    pub event: JsonV,
    pub parent_tool_use_id: Option<Seq<char>>,
}

impl View for StreamEvent {
    type V = StreamEventV;

    open spec fn view(&self) -> StreamEventV {
        StreamEventV {
            uuid: self.uuid@,
            session_id: self.session_id@,
            event: json_view(self.event),
            parent_tool_use_id: ostr(self.parent_tool_use_id),
        }
    }
}

/// One message delivered to the caller.
#[derive(Debug, Clone)]
pub enum Message {
    User(UserMessage),
    Assistant(AssistantMessage),
    System(SystemMessage),
    Result(ResultMessage),
    Stream(StreamEvent),
}

pub enum MessageV {
    User(UserMessageV),
    Assistant(AssistantMessageV),
    System(SystemMessageV),
    Result(ResultMessageV),
    Stream(StreamEventV),
}

impl View for Message {
    type V = MessageV;

    open spec fn view(&self) -> MessageV {
        match self {
            Message::User(m) => MessageV::User(m@),
            Message::Assistant(m) => MessageV::Assistant(m@),
            Message::System(m) => MessageV::System(m@),
            Message::Result(m) => MessageV::Result(m@),
            Message::Stream(m) => MessageV::Stream(m@),
        }
    }
}

// ---------------------------------------------------------------------------
// Options
// ---------------------------------------------------------------------------

#[derive(Debug, Clone)]
pub enum SystemPromptConfig {
    Text(String),
    Preset(SystemPromptPreset),
}

/// Configuration for one session with the child process.
#[derive(Debug, Clone)]
pub struct ClaudeAgentOptions {
    pub allowed_tools: Vec<String>,
    pub system_prompt: Option<SystemPromptConfig>,
    pub mcp_servers: Vec<(String, McpServerConfig)>,
    pub permission_mode: Option<PermissionMode>,
    pub continue_conversation: bool,
    pub resume: Option<String>,
    pub max_turns: Option<i32>,
    pub disallowed_tools: Vec<String>,
    pub model: Option<String>,
    pub permission_prompt_tool_name: Option<String>,
    pub cwd: Option<String>,
    pub settings: Option<String>,
    pub add_dirs: Vec<String>,
    /// Environment settings, applied in order: a later entry for a name
    /// overrides an earlier one.
    pub env: Vec<(String, String)>,
    pub extra_args: Vec<(String, Option<String>)>,
    pub max_buffer_size: Option<usize>,
    pub user: Option<String>,
    pub include_partial_messages: bool,
    pub fork_session: bool,
    pub agents: Option<Vec<(String, AgentDefinition)>>,
    pub setting_sources: Option<Vec<SettingSource>>,
}

/// Whether every field holds its starting value.
pub open spec fn options_default(o: ClaudeAgentOptions) -> bool {
    &&& o.allowed_tools@ == Seq::<String>::empty()
    &&& o.system_prompt is None
    &&& o.mcp_servers@ == Seq::<(String, McpServerConfig)>::empty()
    &&& o.permission_mode is None
    &&& o.continue_conversation == false
    &&& o.resume is None
    &&& o.max_turns is None
    &&& o.disallowed_tools@ == Seq::<String>::empty()
    &&& o.model is None
    &&& o.permission_prompt_tool_name is None
    &&& o.cwd is None
    &&& o.settings is None
    &&& o.add_dirs@ == Seq::<String>::empty()
    &&& o.env@ == Seq::<(String, String)>::empty()
    &&& o.extra_args@ == Seq::<(String, Option<String>)>::empty()
    &&& o.max_buffer_size is None
    &&& o.user is None
    &&& o.include_partial_messages == false
    &&& o.fork_session == false
    &&& o.agents is None
    &&& o.setting_sources is None
}

impl Default for ClaudeAgentOptions {
    /// All fields empty or absent.
    fn default() -> (o: ClaudeAgentOptions)
        ensures
            options_default(o),
    {
        ClaudeAgentOptions {
            allowed_tools: Vec::new(),
            system_prompt: None,
            mcp_servers: Vec::new(),
            permission_mode: None,
            continue_conversation: false,
            resume: None,
            max_turns: None,
            disallowed_tools: Vec::new(),
            model: None,
            permission_prompt_tool_name: None,
            cwd: None,
            settings: None,
            add_dirs: Vec::new(),
            env: Vec::new(),
            extra_args: Vec::new(),
            max_buffer_size: None,
            user: None,
            include_partial_messages: false,
            fork_session: false,
            agents: None,
            setting_sources: None,
        }
    }
}

// ---------------------------------------------------------------------------
// Control protocol envelope types
// ---------------------------------------------------------------------------

/// A control request as decoded from, or sent on, the wire.
#[derive(Debug, Clone)]
pub enum ControlRequest {
    Interrupt {},
    CanUseTool {
        tool_name: String,
        input: serde_json::Value,
        permission_suggestions: Option<Vec<serde_json::Value>>,
        blocked_path: Option<String>,
    },
    Initialize { hooks: Option<serde_json::Value> },
    SetPermissionMode { mode: String },
    HookCallback { callback_id: String, input: serde_json::Value, tool_use_id: Option<String> },
    McpMessage { server_name: String, message: serde_json::Value },
}

/// A full control-request envelope.
#[derive(Debug, Clone)]
pub struct SDKControlRequest {
    /// The wire tag; always "control_request".
    pub kind: String,
    pub request_id: String,
    pub request: ControlRequest,
}

/// The body of a control response.
#[derive(Debug, Clone)]
pub enum ControlResponseType {
    Success { request_id: String, response: Option<serde_json::Value> },
    Error { request_id: String, error: String },
}

pub enum ControlResponseTypeV {
    Success { request_id: Seq<char>, response: Option<JsonV> },
    Error { request_id: Seq<char>, error: Seq<char> },
}

impl View for ControlResponseType {
    type V = ControlResponseTypeV;

    open spec fn view(&self) -> ControlResponseTypeV {
        match self {
            ControlResponseType::Success { request_id, response } => {
                ControlResponseTypeV::Success {
                    request_id: request_id@,
                    response: ojson(*response),
                }
            },
            ControlResponseType::Error { request_id, error } => ControlResponseTypeV::Error {
                request_id: request_id@,
                error: error@,
            },
        }
    }
}

/// A full control-response envelope.
#[derive(Debug, Clone)]
pub struct SDKControlResponse {
    /// The wire tag; always "control_response".
    pub kind: String,
    pub response: ControlResponseType,
}

} // verus!
