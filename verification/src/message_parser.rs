//! Decoding of raw JSON values from the child process into typed messages.
//!
//! Each parsing function is specified against a mathematical description of
//! the accepted shape, stated over the JSON model: it succeeds exactly when
//! the description does, and returns exactly the value the description
//! gives.

use vstd::prelude::*;
use crate::errors::ClaudeSDKError;
use crate::json::{
    jfield_bool, jfield_int64, jfield_str, jget, jis_number, json_as_array, json_as_bool,
    json_as_i64, json_as_str, json_get, json_is_number, json_is_object, json_view, JsonV,
};
use crate::strutil::str_eq;
use crate::types::{
    blocks_view, ostr, AssistantMessage, AssistantMessageV, ContentBlock, ContentBlockV, Message,
    MessageV, ResultMessage, ResultMessageV, StreamEvent, StreamEventV, SystemMessage,
    SystemMessageV, UserMessage, UserMessageContent, UserMessageContentV, UserMessageV,
};

verus! {

/// The models of a sequence of stored JSON values.
pub open spec fn vals_view(a: Seq<serde_json::Value>) -> Seq<JsonV> {
    a.map_values(|x: serde_json::Value| json_view(x))
}

/// The shape a single content block must have.
pub open spec fn spec_parse_content_block(b: JsonV) -> Option<ContentBlockV> {
    match jfield_str(b, "type"@) {
        Some(t) => if t == "text"@ {
            match jfield_str(b, "text"@) {
                Some(text) => Some(ContentBlockV::Text { text }),
                None => None,
            }
        } else if t == "thinking"@ {
            match jfield_str(b, "thinking"@) {
                Some(thinking) => match jfield_str(b, "signature"@) {
                    Some(signature) => Some(ContentBlockV::Thinking { thinking, signature }),
                    None => None,
                },
                None => None,
            }
        } else if t == "tool_use"@ {
            match jfield_str(b, "id"@) {
                Some(id) => match jfield_str(b, "name"@) {
                    Some(name) => match jget(b, "input"@) {
                        Some(input) => if input is Obj {
                            Some(ContentBlockV::ToolUse { id, name, input })
                        } else {
                            None
                        },
                        None => None,
                    },
                    None => None,
                },
                None => None,
            }
        } else if t == "tool_result"@ {
            match jfield_str(b, "tool_use_id"@) {
                Some(tool_use_id) => Some(
                    ContentBlockV::ToolResult {
                        tool_use_id,
                        content: jget(b, "content"@),
                        is_error: jfield_bool(b, "is_error"@),
                    },
                ),
                None => None,
            }
        } else {
            None
        },
        None => None,
    }
}

/// Whether every element of a content array is a well-formed block.
pub open spec fn all_blocks_ok(elems: Seq<JsonV>) -> bool {
    forall|i: int| 0 <= i < elems.len() ==> spec_parse_content_block(#[trigger] elems[i]) is Some
}

/// The parsed blocks of a well-formed content array.
pub open spec fn spec_blocks(elems: Seq<JsonV>) -> Seq<ContentBlockV> {
    Seq::new(elems.len(), |i: int| spec_parse_content_block(elems[i])->Some_0)
}

/// The shape of a user message.
pub open spec fn spec_parse_user(j: JsonV) -> Option<UserMessageV> {
    match jget(j, "message"@) {
        Some(m) => if !(m is Obj) {
            None
        } else {
            match jget(m, "content"@) {
                Some(c) => match c {
                    JsonV::Arr(elems) => if all_blocks_ok(elems) {
                        Some(
                            UserMessageV {
                                content: UserMessageContentV::Blocks(spec_blocks(elems)),
                                parent_tool_use_id: jfield_str(j, "parent_tool_use_id"@),
                            },
                        )
                    } else {
                        None
                    },
                    JsonV::Str(s) => Some(
                        UserMessageV {
                            content: UserMessageContentV::Text(s),
                            parent_tool_use_id: jfield_str(j, "parent_tool_use_id"@),
                        },
                    ),
                    _ => None,
                },
                None => None,
            }
        },
        None => None,
    }
}

/// The shape of an assistant message.
pub open spec fn spec_parse_assistant(j: JsonV) -> Option<AssistantMessageV> {
    match jget(j, "message"@) {
        Some(m) => if !(m is Obj) {
            None
        } else {
            match jget(m, "content"@) {
                Some(c) => match c {
                    JsonV::Arr(elems) => if all_blocks_ok(elems) {
                        match jfield_str(m, "model"@) {
                            Some(model) => Some(
                                AssistantMessageV {
                                    content: spec_blocks(elems),
                                    model,
                                    parent_tool_use_id: jfield_str(j, "parent_tool_use_id"@),
                                },
                            ),
                            None => None,
                        }
                    } else {
                        None
                    },
                    _ => None,
                },
                None => None,
            }
        },
        None => None,
    }
}

/// The shape of a system message: only the subtype is required; the whole
/// object is kept as its data.
pub open spec fn spec_parse_system(j: JsonV) -> Option<SystemMessageV> {
    match jfield_str(j, "subtype"@) {
        Some(subtype) => Some(SystemMessageV { subtype, data: j }),
        None => None,
    }
}

/// The shape of a result message.  The turn count must fit a signed 32-bit
/// value.
pub open spec fn spec_parse_result(j: JsonV) -> Option<ResultMessageV> {
    match jfield_str(j, "subtype"@) {
        Some(subtype) => match jfield_int64(j, "duration_ms"@) {
            Some(duration_ms) => match jfield_int64(j, "duration_api_ms"@) {
                Some(duration_api_ms) => match jfield_bool(j, "is_error"@) {
                    Some(is_error) => match jfield_int64(j, "num_turns"@) {
                        Some(num_turns) => if i32::MIN <= num_turns <= i32::MAX {
                            match jfield_str(j, "session_id"@) {
                                Some(session_id) => Some(
                                    ResultMessageV {
                                        subtype,
                                        duration_ms,
                                        duration_api_ms,
                                        is_error,
                                        num_turns,
                                        session_id,
                                        total_cost_usd: match jget(j, "total_cost_usd"@) {
                                            Some(v) => if jis_number(v) {
                                                Some(v)
                                            } else {
                                                None
                                            },
                                            None => None,
                                        },
                                        usage: match jget(j, "usage"@) {
                                            Some(v) => if v is Obj {
                                                Some(v)
                                            } else {
                                                None
                                            },
                                            None => None,
                                        },
                                        result: jfield_str(j, "result"@),
                                    },
                                ),
                                None => None,
                            }
                        } else {
                            None
                        },
                        None => None,
                    },
                    None => None,
                },
                None => None,
            },
            None => None,
        },
        None => None,
    }
}

/// The shape of a stream event.
pub open spec fn spec_parse_stream(j: JsonV) -> Option<StreamEventV> {
    match jfield_str(j, "uuid"@) {
        Some(uuid) => match jfield_str(j, "session_id"@) {
            Some(session_id) => match jget(j, "event"@) {
                Some(e) => if e is Obj {
                    Some(
                        StreamEventV {
                            uuid,
                            session_id,
                            event: e,
                            parent_tool_use_id: jfield_str(j, "parent_tool_use_id"@),
                        },
                    )
                } else {
                    None
                },
                None => None,
            },
            None => None,
        },
        None => None,
    }
}

/// The shape of any message: an object whose string `type` tag selects one
/// of the five message kinds.
pub open spec fn spec_parse_message(j: JsonV) -> Option<MessageV> {
    if !(j is Obj) {
        None
    } else {
        match jfield_str(j, "type"@) {
            Some(t) => if t == "user"@ {
                match spec_parse_user(j) {
                    Some(u) => Some(MessageV::User(u)),
                    None => None,
                }
            } else if t == "assistant"@ {
                match spec_parse_assistant(j) {
                    Some(a) => Some(MessageV::Assistant(a)),
                    None => None,
                }
            } else if t == "system"@ {
                match spec_parse_system(j) {
                    Some(s) => Some(MessageV::System(s)),
                    None => None,
                }
            } else if t == "result"@ {
                match spec_parse_result(j) {
                    Some(r) => Some(MessageV::Result(r)),
                    None => None,
                }
            } else if t == "stream_event"@ {
                match spec_parse_stream(j) {
                    Some(s) => Some(MessageV::Stream(s)),
                    None => None,
                }
            } else {
                None
            },
            None => None,
        }
    }
}

/// Whether an error is a parse error carrying the offending value.
pub open spec fn parse_err_for(e: ClaudeSDKError, j: JsonV) -> bool {
    &&& e matches ClaudeSDKError::MessageParseError { data: Some(d), .. } && json_view(d) == j
}

/// A parse error that carries the offending value.
fn parse_err(msg: &str, data: &serde_json::Value) -> (e: ClaudeSDKError)
    ensures
        parse_err_for(e, json_view(*data)),
{
    ClaudeSDKError::message_parse_error(msg.to_owned(), Some(data.clone()))
}

/// Read a string field of an object into an owned option, `None` when the
/// field is absent or not a string.
fn opt_str_field(data: &serde_json::Value, key: &str) -> (r: Option<String>)
    ensures
        ostr(r) == jfield_str(json_view(*data), key@),
{
    match json_get(data, key) {
        Some(v) => match json_as_str(v) {
            Some(s) => Some(s.to_owned()),
            None => None,
        },
        None => None,
    }
}

/// Parse one content block.
pub fn parse_content_block(block: &serde_json::Value, data: &serde_json::Value) -> (r: Result<
    ContentBlock,
    ClaudeSDKError,
>)
    ensures
        match r {
            Ok(cb) => spec_parse_content_block(json_view(*block)) == Some(cb@),
            Err(e) => spec_parse_content_block(json_view(*block)) is None && parse_err_for(
                e,
                json_view(*data),
            ),
        },
{
    let tv = match json_get(block, "type") {
        Some(v) => v,
        None => {
            return Err(parse_err("Content block missing 'type' field", data));
        },
    };
    let t = match json_as_str(tv) {
        Some(s) => s,
        None => {
            return Err(parse_err("Content block missing 'type' field", data));
        },
    };
    if str_eq(t, "text") {
        let text = match json_get(block, "text") {
            Some(v) => match json_as_str(v) {
                Some(s) => s.to_owned(),
                None => {
                    return Err(parse_err("Text block missing 'text' field", data));
                },
            },
            None => {
                return Err(parse_err("Text block missing 'text' field", data));
            },
        };
        Ok(ContentBlock::Text { text })
    } else if str_eq(t, "thinking") {
        let thinking = match json_get(block, "thinking") {
            Some(v) => match json_as_str(v) {
                Some(s) => s.to_owned(),
                None => {
                    return Err(parse_err("Thinking block missing 'thinking' field", data));
                },
            },
            None => {
                return Err(parse_err("Thinking block missing 'thinking' field", data));
            },
        };
        let signature = match json_get(block, "signature") {
            Some(v) => match json_as_str(v) {
                Some(s) => s.to_owned(),
                None => {
                    return Err(parse_err("Thinking block missing 'signature' field", data));
                },
            },
            None => {
                return Err(parse_err("Thinking block missing 'signature' field", data));
            },
        };
        Ok(ContentBlock::Thinking { thinking, signature })
    } else if str_eq(t, "tool_use") {
        let id = match json_get(block, "id") {
            Some(v) => match json_as_str(v) {
                Some(s) => s.to_owned(),
                None => {
                    return Err(parse_err("Tool use block missing 'id' field", data));
                },
            },
            None => {
                return Err(parse_err("Tool use block missing 'id' field", data));
            },
        };
        let name = match json_get(block, "name") {
            Some(v) => match json_as_str(v) {
                Some(s) => s.to_owned(),
                None => {
                    return Err(parse_err("Tool use block missing 'name' field", data));
                },
            },
            None => {
                return Err(parse_err("Tool use block missing 'name' field", data));
            },
        };
        let input = match json_get(block, "input") {
            Some(v) => if json_is_object(v) {
                v.clone()
            } else {
                return Err(parse_err("Tool use block missing or invalid 'input' field", data));
            },
            None => {
                return Err(parse_err("Tool use block missing or invalid 'input' field", data));
            },
        };
        Ok(ContentBlock::ToolUse { id, name, input })
    } else if str_eq(t, "tool_result") {
        let tool_use_id = match json_get(block, "tool_use_id") {
            Some(v) => match json_as_str(v) {
                Some(s) => s.to_owned(),
                None => {
                    return Err(parse_err("Tool result block missing 'tool_use_id' field", data));
                },
            },
            None => {
                return Err(parse_err("Tool result block missing 'tool_use_id' field", data));
            },
        };
        let content = match json_get(block, "content") {
            Some(v) => Some(v.clone()),
            None => None,
        };
        let is_error = match json_get(block, "is_error") {
            Some(v) => json_as_bool(v),
            None => None,
        };
        Ok(ContentBlock::ToolResult { tool_use_id, content, is_error })
    } else {
        Err(parse_err("Unknown content block type", data))
    }
}

/// Parse every element of a content array.
fn parse_blocks(arr: &Vec<serde_json::Value>, data: &serde_json::Value) -> (r: Result<
    Vec<ContentBlock>,
    ClaudeSDKError,
>)
    ensures
        match r {
            Ok(bs) => all_blocks_ok(vals_view(arr@)) && blocks_view(bs@) == spec_blocks(
                vals_view(arr@),
            ),
            Err(e) => !all_blocks_ok(vals_view(arr@)) && parse_err_for(e, json_view(*data)),
        },
{
    let ghost s = vals_view(arr@);
    let mut out: Vec<ContentBlock> = Vec::new();
    let n = arr.len();
    assert(s.len() == arr@.len());
    let mut i: usize = 0;
    while i < n
        invariant
            n == arr@.len(),
            s == vals_view(arr@),
            s.len() == n,
            i <= n,
            out@.len() == i,
            forall|k: int|
                0 <= k < i ==> spec_parse_content_block(#[trigger] s[k]) == Some(out@[k]@),
        decreases n - i,
    {
        assert(s[i as int] == json_view(arr@[i as int]));
        match parse_content_block(&arr[i], data) {
            Ok(cb) => {
                out.push(cb);
            },
            Err(e) => {
                assert(spec_parse_content_block(s[i as int]) is None);
                return Err(e);
            },
        }
        i += 1;
    }
    assert(all_blocks_ok(s));
    assert(blocks_view(out@) =~= spec_blocks(s));
    Ok(out)
}

/// Parse a user message.
fn parse_user_message(data: &serde_json::Value) -> (r: Result<Message, ClaudeSDKError>)
    ensures
        match r {
            Ok(m) => {
                &&& spec_parse_user(json_view(*data)) matches Some(u) && m@ == MessageV::User(u)
            },
            Err(e) => spec_parse_user(json_view(*data)) is None && parse_err_for(
                e,
                json_view(*data),
            ),
        },
{
    let mv = match json_get(data, "message") {
        Some(v) => v,
        None => {
            return Err(parse_err("Missing required field in user message: message", data));
        },
    };
    if !json_is_object(mv) {
        return Err(parse_err("Invalid message field type", data));
    }
    let parent_tool_use_id = opt_str_field(data, "parent_tool_use_id");
    let cv = match json_get(mv, "content") {
        Some(v) => v,
        None => {
            return Err(parse_err("Missing required field in user message: content", data));
        },
    };
    match json_as_array(cv) {
        Some(arr) => {
            proof {
                assert(vals_view(arr@) =~= json_view(*cv)->Arr_0);
            }
            let blocks = match parse_blocks(arr, data) {
                Ok(bs) => bs,
                Err(e) => {
                    return Err(e);
                },
            };
            Ok(
                Message::User(
                    UserMessage { content: UserMessageContent::Blocks(blocks), parent_tool_use_id },
                ),
            )
        },
        None => match json_as_str(cv) {
            Some(s) => Ok(
                Message::User(
                    UserMessage {
                        content: UserMessageContent::Text(s.to_owned()),
                        parent_tool_use_id,
                    },
                ),
            ),
            None => Err(parse_err("Invalid content type in user message", data)),
        },
    }
}

/// Parse an assistant message.
fn parse_assistant_message(data: &serde_json::Value) -> (r: Result<Message, ClaudeSDKError>)
    ensures
        match r {
            Ok(m) => {
                &&& spec_parse_assistant(json_view(*data)) matches Some(a) && m@
                    == MessageV::Assistant(a)
            },
            Err(e) => spec_parse_assistant(json_view(*data)) is None && parse_err_for(
                e,
                json_view(*data),
            ),
        },
{
    let mv = match json_get(data, "message") {
        Some(v) => v,
        None => {
            return Err(parse_err("Missing required field in assistant message: message", data));
        },
    };
    if !json_is_object(mv) {
        return Err(parse_err("Invalid message field type", data));
    }
    let cv = match json_get(mv, "content") {
        Some(v) => v,
        None => {
            return Err(
                parse_err("Missing or invalid content field in assistant message", data),
            );
        },
    };
    let arr = match json_as_array(cv) {
        Some(a) => a,
        None => {
            return Err(
                parse_err("Missing or invalid content field in assistant message", data),
            );
        },
    };
    proof {
        assert(vals_view(arr@) =~= json_view(*cv)->Arr_0);
    }
    let blocks = match parse_blocks(arr, data) {
        Ok(bs) => bs,
        Err(e) => {
            return Err(e);
        },
    };
    let model = match opt_str_field(mv, "model") {
        Some(s) => s,
        None => {
            return Err(parse_err("Missing required field in assistant message: model", data));
        },
    };
    let parent_tool_use_id = opt_str_field(data, "parent_tool_use_id");
    Ok(Message::Assistant(AssistantMessage { content: blocks, model, parent_tool_use_id }))
}

/// Parse a system message.
fn parse_system_message(data: &serde_json::Value) -> (r: Result<Message, ClaudeSDKError>)
    ensures
        match r {
            Ok(m) => {
                &&& spec_parse_system(json_view(*data)) matches Some(s) && m@ == MessageV::System(s)
            },
            Err(e) => spec_parse_system(json_view(*data)) is None && parse_err_for(
                e,
                json_view(*data),
            ),
        },
{
    let subtype = match opt_str_field(data, "subtype") {
        Some(s) => s,
        None => {
            return Err(parse_err("Missing required field in system message: subtype", data));
        },
    };
    Ok(Message::System(SystemMessage { subtype, data: data.clone() }))
}

/// Read a required signed 64-bit integer field.
fn req_i64_field(data: &serde_json::Value, key: &str) -> (r: Option<i64>)
    ensures
        match r {
            Some(i) => jfield_int64(json_view(*data), key@) == Some(i as int),
            None => jfield_int64(json_view(*data), key@) is None,
        },
{
    match json_get(data, key) {
        Some(v) => json_as_i64(v),
        None => None,
    }
}

/// Parse a result message.
fn parse_result_message(data: &serde_json::Value) -> (r: Result<Message, ClaudeSDKError>)
    ensures
        match r {
            Ok(m) => {
                &&& spec_parse_result(json_view(*data)) matches Some(rm) && m@ == MessageV::Result(
                    rm,
                )
            },
            Err(e) => spec_parse_result(json_view(*data)) is None && parse_err_for(
                e,
                json_view(*data),
            ),
        },
{
    let subtype = match opt_str_field(data, "subtype") {
        Some(s) => s,
        None => {
            return Err(parse_err("Missing required field in result message: subtype", data));
        },
    };
    let duration_ms = match req_i64_field(data, "duration_ms") {
        Some(i) => i,
        None => {
            return Err(parse_err("Missing required field in result message: duration_ms", data));
        },
    };
    let duration_api_ms = match req_i64_field(data, "duration_api_ms") {
        Some(i) => i,
        None => {
            return Err(
                parse_err("Missing required field in result message: duration_api_ms", data),
            );
        },
    };
    let is_error = match json_get(data, "is_error") {
        Some(v) => match json_as_bool(v) {
            Some(b) => b,
            None => {
                return Err(
                    parse_err("Missing required field in result message: is_error", data),
                );
            },
        },
        None => {
            return Err(parse_err("Missing required field in result message: is_error", data));
        },
    };
    let num_turns_raw = match req_i64_field(data, "num_turns") {
        Some(i) => i,
        None => {
            return Err(parse_err("Missing required field in result message: num_turns", data));
        },
    };
    if num_turns_raw < i32::MIN as i64 || num_turns_raw > i32::MAX as i64 {
        return Err(parse_err("Field num_turns is out of range in result message", data));
    }
    let num_turns: i32 = num_turns_raw as i32;
    let session_id = match opt_str_field(data, "session_id") {
        Some(s) => s,
        None => {
            return Err(parse_err("Missing required field in result message: session_id", data));
        },
    };
    let total_cost_usd = match json_get(data, "total_cost_usd") {
        Some(v) => if json_is_number(v) {
            Some(v.clone())
        } else {
            None
        },
        None => None,
    };
    let usage = match json_get(data, "usage") {
        Some(v) => if json_is_object(v) {
            Some(v.clone())
        } else {
            None
        },
        None => None,
    };
    let result = opt_str_field(data, "result");
    Ok(
        Message::Result(
            ResultMessage {
                subtype,
                duration_ms,
                duration_api_ms,
                is_error,
                num_turns,
                session_id,
                total_cost_usd,
                usage,
                result,
            },
        ),
    )
}

/// Parse a stream event.
fn parse_stream_event(data: &serde_json::Value) -> (r: Result<Message, ClaudeSDKError>)
    ensures
        match r {
            Ok(m) => {
                &&& spec_parse_stream(json_view(*data)) matches Some(s) && m@ == MessageV::Stream(s)
            },
            Err(e) => spec_parse_stream(json_view(*data)) is None && parse_err_for(
                e,
                json_view(*data),
            ),
        },
{
    let uuid = match opt_str_field(data, "uuid") {
        Some(s) => s,
        None => {
            return Err(parse_err("Missing required field in stream_event message: uuid", data));
        },
    };
    let session_id = match opt_str_field(data, "session_id") {
        Some(s) => s,
        None => {
            return Err(
                parse_err("Missing required field in stream_event message: session_id", data),
            );
        },
    };
    let event = match json_get(data, "event") {
        Some(v) => if json_is_object(v) {
            v.clone()
        } else {
            return Err(
                parse_err("Missing required field in stream_event message: event", data),
            );
        },
        None => {
            return Err(parse_err("Missing required field in stream_event message: event", data));
        },
    };
    let parent_tool_use_id = opt_str_field(data, "parent_tool_use_id");
    Ok(Message::Stream(StreamEvent { uuid, session_id, event, parent_tool_use_id }))
}

/// Parse a raw JSON value from the child process into a typed message.
///
/// Succeeds exactly when the value matches one of the five message shapes;
/// every failure is a parse error carrying the offending value.
pub fn parse_message(data: &serde_json::Value) -> (r: Result<Message, ClaudeSDKError>)
    ensures
        match r {
            Ok(m) => spec_parse_message(json_view(*data)) == Some(m@),
            Err(e) => spec_parse_message(json_view(*data)) is None && parse_err_for(
                e,
                json_view(*data),
            ),
        },
{
    if !json_is_object(data) {
        return Err(parse_err("Invalid message data type (expected object)", data));
    }
    let tv = match json_get(data, "type") {
        Some(v) => v,
        None => {
            return Err(parse_err("Message missing 'type' field", data));
        },
    };
    let t = match json_as_str(tv) {
        Some(s) => s,
        None => {
            return Err(parse_err("Message missing 'type' field", data));
        },
    };
    if str_eq(t, "user") {
        parse_user_message(data)
    } else if str_eq(t, "assistant") {
        parse_assistant_message(data)
    } else if str_eq(t, "system") {
        parse_system_message(data)
    } else if str_eq(t, "result") {
        parse_result_message(data)
    } else if str_eq(t, "stream_event") {
        parse_stream_event(data)
    } else {
        Err(parse_err("Unknown message type", data))
    }
}

} // verus!
