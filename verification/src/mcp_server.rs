//! In-process tool servers: tool metadata, lookup and the configuration
//! handed to the child process.
//!
//! A tool's handler is an asynchronous value owned by the unverified
//! runtime; this module owns everything else about a server: its tools,
//! their order, name lookup and the configuration object.

use vstd::prelude::*;
use crate::json::{
    json_insert, json_object_new, json_string, json_view, json_array_value, JsonV,
};
use crate::strutil::str_eq;

verus! {

broadcast use vstd::seq::Seq::group_seq_extra;

/// Tool metadata for an in-process tool server.
#[derive(Debug, Clone)]
pub struct McpTool {
    pub name: String,
    pub description: String,
    /// The JSON schema of the tool's input.
    pub input_schema: serde_json::Value,
}

pub struct McpToolV {
    pub name: Seq<char>,
    pub description: Seq<char>,
    pub input_schema: JsonV,
}

impl View for McpTool {
    type V = McpToolV;

    open spec fn view(&self) -> McpToolV {
        McpToolV {
            name: self.name@,
            description: self.description@,
            input_schema: json_view(self.input_schema),
        }
    }
}

impl McpTool {
    /// A new tool description.
    pub fn new(name: String, description: String, input_schema: serde_json::Value) -> (t: McpTool)
        ensures
            t.name == name,
            t.description == description,
            t.input_schema == input_schema,
    {
        McpTool { name, description, input_schema }
    }
}

/// One piece of content in a tool's result.
#[derive(Debug, Clone)]
pub enum ToolResultContent {
    Text { text: String },
    Image { source: ImageSource },
}

/// An image in a tool's result.
#[derive(Debug, Clone)]
pub struct ImageSource {
    pub source_type: String,
    pub media_type: String,
    pub data: String,
}

/// The result of one tool execution.
#[derive(Debug, Clone)]
pub struct ToolResult {
    pub content: Vec<ToolResultContent>,
    pub is_error: Option<bool>,
}

impl ToolResult {
    /// A successful result holding one text block.
    pub fn text(text: String) -> (r: ToolResult)
        ensures
            r.content@.len() == 1,
            r.content@[0] matches ToolResultContent::Text { text: t } && t == text,
            r.is_error is None,
    {
        ToolResult { content: vec![ToolResultContent::Text { text }], is_error: None }
    }

    /// A failed result holding one text block.
    pub fn error(text: String) -> (r: ToolResult)
        ensures
            r.content@.len() == 1,
            r.content@[0] matches ToolResultContent::Text { text: t } && t == text,
            r.is_error == Some(true),
    {
        ToolResult { content: vec![ToolResultContent::Text { text }], is_error: Some(true) }
    }

    /// A successful result with the given content blocks.
    pub fn with_content(content: Vec<ToolResultContent>) -> (r: ToolResult)
        ensures
            r.content == content,
            r.is_error is None,
    {
        ToolResult { content, is_error: None }
    }
}

/// The views of a server's tools.
pub open spec fn tools_view(ts: Seq<McpTool>) -> Seq<McpToolV> {
    ts.map_values(|t: McpTool| t@)
}

/// An in-process tool server: its identity and its tools, in the order
/// given at construction.
#[derive(Debug, Clone)]
pub struct SdkMcpServer {
    pub name: String,
    pub version: String,
    pub tools: Vec<McpTool>,
}

impl SdkMcpServer {
    /// A new server with the given tools.
    pub fn new(name: String, version: String, tools: Vec<McpTool>) -> (s: SdkMcpServer)
        ensures
            s.name == name,
            s.version == version,
            s.tools == tools,
    {
        SdkMcpServer { name, version, tools }
    }

    /// Look a tool up by name; when several tools share a name, the last
    /// one given wins.
    pub fn get_tool(&self, name: &str) -> (r: Option<&McpTool>)
        ensures
            match r {
                Some(t) => {
                    &&& exists|i: int|
                        0 <= i < self.tools@.len() && (#[trigger] self.tools@[i]).name@ == name@
                    &&& t.name@ == name@
                    &&& exists|i: int|
                        {
                            &&& 0 <= i < self.tools@.len()
                            &&& *t == self.tools@[i]
                            &&& forall|k: int|
                                i < k < self.tools@.len() ==> (#[trigger] self.tools@[k]).name@
                                    != name@
                        }
                },
                None => forall|i: int|
                    0 <= i < self.tools@.len() ==> (#[trigger] self.tools@[i]).name@ != name@,
            },
    {
        let n = self.tools.len();
        let mut i: usize = n;
        while i > 0
            invariant
                n == self.tools@.len(),
                i <= n,
                forall|k: int| i <= k < n ==> (#[trigger] self.tools@[k]).name@ != name@,
            decreases i,
        {
            i = i - 1;
            if str_eq(self.tools[i].name.as_str(), name) {
                return Some(&self.tools[i]);
            }
        }
        None
    }

    /// The server's tools.
    pub fn list_tools(&self) -> (r: &Vec<McpTool>)
        ensures
            r == &self.tools,
    {
        &self.tools
    }

    /// The configuration object announcing this server and its tools.
    pub open spec fn spec_config(&self) -> JsonV {
        JsonV::Obj(
            Map::<Seq<char>, JsonV>::empty().insert("name"@, JsonV::Str(self.name@)).insert(
                "version"@,
                JsonV::Str(self.version@),
            ).insert("type"@, JsonV::Str("sdk"@)).insert(
                "tools"@,
                JsonV::Arr(tools_view(self.tools@).map_values(|t: McpToolV| spec_tool_config(t))),
            ),
        )
    }

    /// Build the configuration object announcing this server and its
    /// tools.
    pub fn to_config(&self) -> (v: serde_json::Value)
        ensures
            json_view(v) == self.spec_config(),
    {
        let mut tool_list: Vec<serde_json::Value> = Vec::new();
        let n = self.tools.len();
        let mut i: usize = 0;
        while i < n
            invariant
                n == self.tools@.len(),
                i <= n,
                tool_list@.map_values(|x: serde_json::Value| json_view(x)) == tools_view(
                    self.tools@,
                ).map_values(|t: McpToolV| spec_tool_config(t)).take(i as int),
            decreases n - i,
        {
            let t = &self.tools[i];
            let mut tv = json_object_new();
            json_insert(&mut tv, "name", json_string(t.name.as_str()));
            json_insert(&mut tv, "description", json_string(t.description.as_str()));
            json_insert(&mut tv, "inputSchema", t.input_schema.clone());
            tool_list.push(tv);
            proof {
                let f = |x: serde_json::Value| json_view(x);
                let g = |t: McpToolV| spec_tool_config(t);
                let full = tools_view(self.tools@).map_values(g);
                assert(tools_view(self.tools@)[i as int] == self.tools@[i as int]@);
                assert(full[i as int] == spec_tool_config(self.tools@[i as int]@));
                assert(full.take(i + 1).drop_last() =~= full.take(i as int));
                assert(full.take(i + 1).last() == full[i as int]);
                assert(tool_list@.map_values(f) =~= full.take(i + 1));
            }
            i += 1;
        }
        proof {
            let g = |t: McpToolV| spec_tool_config(t);
            assert(tools_view(self.tools@).map_values(g).take(n as int) =~= tools_view(
                self.tools@,
            ).map_values(g));
        }
        let tools = json_array_value(tool_list);
        let mut v = json_object_new();
        json_insert(&mut v, "name", json_string(self.name.as_str()));
        json_insert(&mut v, "version", json_string(self.version.as_str()));
        json_insert(&mut v, "type", json_string("sdk"));
        json_insert(&mut v, "tools", tools);
        v
    }
}

/// The configuration entry for one tool.
pub open spec fn spec_tool_config(t: McpToolV) -> JsonV {
    JsonV::Obj(
        Map::<Seq<char>, JsonV>::empty().insert("name"@, JsonV::Str(t.name)).insert(
            "description"@,
            JsonV::Str(t.description),
        ).insert("inputSchema"@, t.input_schema),
    )
}

} // verus!
