//! Fluent construction of session options.

use vstd::prelude::*;
use crate::types::{
    ClaudeAgentOptions, PermissionMode, SystemPromptConfig, SystemPromptPreset, options_default,
};

verus! {

/// The value an environment list gives a name: entries are applied in
/// order, so the last entry for the name wins.
pub open spec fn env_value(env: Seq<(String, String)>, key: Seq<char>) -> Option<Seq<char>>
    decreases env.len(),
{
    if env.len() == 0 {
        None
    } else if env.last().0@ == key {
        Some(env.last().1@)
    } else {
        env_value(env.drop_last(), key)
    }
}

/// Looking a name up in an appended list falls back to the earlier list
/// only when the appended part has no entry for it.
proof fn lemma_env_value_concat(a: Seq<(String, String)>, b: Seq<(String, String)>, key: Seq<char>)
    ensures
        env_value(a + b, key) == match env_value(b, key) {
            Some(v) => Some(v),
            None => env_value(a, key),
        },
    decreases b.len(),
{
    if b.len() == 0 {
        assert(a + b =~= a);
    } else {
        assert((a + b).last() == b.last());
        assert((a + b).drop_last() =~= a + b.drop_last());
        lemma_env_value_concat(a, b.drop_last(), key);
    }
}

/// Chainable builder for [`ClaudeAgentOptions`].
#[derive(Clone)]
pub struct ClaudeOptionsBuilder {
    pub inner: ClaudeAgentOptions,
}

impl ClaudeOptionsBuilder {
    /// A builder holding the default options.
    pub fn new() -> (r: ClaudeOptionsBuilder)
        ensures
            options_default(r.inner),
    {
        ClaudeOptionsBuilder { inner: ClaudeAgentOptions::default() }
    }

    /// Set the system prompt as plain text.
    pub fn system_prompt(self, prompt: String) -> (r: Self)
        ensures
            r.inner == (ClaudeAgentOptions {
                system_prompt: Some(SystemPromptConfig::Text(prompt)),
                ..self.inner
            }),
    {
        let mut inner = self.inner;
        inner.system_prompt = Some(SystemPromptConfig::Text(prompt));
        ClaudeOptionsBuilder { inner }
    }

    /// Set the system prompt from a named preset.
    pub fn system_prompt_preset(self, preset: String) -> (r: Self)
        ensures
            r.inner.system_prompt matches Some(SystemPromptConfig::Preset(p)) && p.preset == preset
                && p.append is None && p.kind@ == "preset"@,
            r.inner == (ClaudeAgentOptions { system_prompt: r.inner.system_prompt, ..self.inner }),
    {
        let mut inner = self.inner;
        inner.system_prompt = Some(
            SystemPromptConfig::Preset(
                SystemPromptPreset { kind: "preset".to_owned(), preset, append: None },
            ),
        );
        ClaudeOptionsBuilder { inner }
    }

    /// Set the system prompt from a named preset with appended text.
    pub fn system_prompt_preset_with_append(self, preset: String, append: String) -> (r: Self)
        ensures
            r.inner.system_prompt matches Some(SystemPromptConfig::Preset(p)) && p.preset == preset
                && p.append == Some(append) && p.kind@ == "preset"@,
            r.inner == (ClaudeAgentOptions { system_prompt: r.inner.system_prompt, ..self.inner }),
    {
        let mut inner = self.inner;
        inner.system_prompt = Some(
            SystemPromptConfig::Preset(
                SystemPromptPreset { kind: "preset".to_owned(), preset, append: Some(append) },
            ),
        );
        ClaudeOptionsBuilder { inner }
    }

    /// Limit the number of turns.
    pub fn max_turns(self, turns: i32) -> (r: Self)
        ensures
            r.inner == (ClaudeAgentOptions { max_turns: Some(turns), ..self.inner }),
    {
        let mut inner = self.inner;
        inner.max_turns = Some(turns);
        ClaudeOptionsBuilder { inner }
    }

    /// Choose the model.
    pub fn model(self, model: String) -> (r: Self)
        ensures
            r.inner == (ClaudeAgentOptions { model: Some(model), ..self.inner }),
    {
        let mut inner = self.inner;
        inner.model = Some(model);
        ClaudeOptionsBuilder { inner }
    }

    /// Choose the permission mode.
    pub fn permission_mode(self, mode: PermissionMode) -> (r: Self)
        ensures
            r.inner == (ClaudeAgentOptions { permission_mode: Some(mode), ..self.inner }),
    {
        let mut inner = self.inner;
        inner.permission_mode = Some(mode);
        ClaudeOptionsBuilder { inner }
    }

    /// Replace the allowed-tool list.
    pub fn allow_tools(self, tools: Vec<String>) -> (r: Self)
        ensures
            r.inner == (ClaudeAgentOptions { allowed_tools: tools, ..self.inner }),
    {
        let mut inner = self.inner;
        inner.allowed_tools = tools;
        ClaudeOptionsBuilder { inner }
    }

    /// Add one allowed tool.
    pub fn allow_tool(self, tool: String) -> (r: Self)
        ensures
            r.inner.allowed_tools@ == self.inner.allowed_tools@.push(tool),
            r.inner == (ClaudeAgentOptions { allowed_tools: r.inner.allowed_tools, ..self.inner }),
    {
        let mut inner = self.inner;
        inner.allowed_tools.push(tool);
        ClaudeOptionsBuilder { inner }
    }

    /// Replace the disallowed-tool list.
    pub fn deny_tools(self, tools: Vec<String>) -> (r: Self)
        ensures
            r.inner == (ClaudeAgentOptions { disallowed_tools: tools, ..self.inner }),
    {
        let mut inner = self.inner;
        inner.disallowed_tools = tools;
        ClaudeOptionsBuilder { inner }
    }

    /// Add one disallowed tool.
    pub fn deny_tool(self, tool: String) -> (r: Self)
        ensures
            r.inner.disallowed_tools@ == self.inner.disallowed_tools@.push(tool),
            r.inner == (ClaudeAgentOptions {
                disallowed_tools: r.inner.disallowed_tools,
                ..self.inner
            }),
    {
        let mut inner = self.inner;
        inner.disallowed_tools.push(tool);
        ClaudeOptionsBuilder { inner }
    }

    /// Set the working directory of the child process.
    pub fn cwd(self, path: String) -> (r: Self)
        ensures
            r.inner == (ClaudeAgentOptions { cwd: Some(path), ..self.inner }),
    {
        let mut inner = self.inner;
        inner.cwd = Some(path);
        ClaudeOptionsBuilder { inner }
    }

    /// Add a directory to the context.
    pub fn add_directory(self, dir: String) -> (r: Self)
        ensures
            r.inner.add_dirs@ == self.inner.add_dirs@.push(dir),
            r.inner == (ClaudeAgentOptions { add_dirs: r.inner.add_dirs, ..self.inner }),
    {
        let mut inner = self.inner;
        inner.add_dirs.push(dir);
        ClaudeOptionsBuilder { inner }
    }

    /// Append several environment variables; for each name, the latest
    /// entry overall is the one that takes effect.
    pub fn envs(self, vars: Vec<(String, String)>) -> (r: Self)
        ensures
            r.inner.env@ == self.inner.env@ + vars@,
            r.inner == (ClaudeAgentOptions { env: r.inner.env, ..self.inner }),
            forall|k: Seq<char>|
                #[trigger] env_value(r.inner.env@, k) == match env_value(vars@, k) {
                    Some(v) => Some(v),
                    None => env_value(self.inner.env@, k),
                },
    {
        let ghost old_env = self.inner.env@;
        let ghost added = vars@;
        let mut inner = self.inner;
        let mut vars = vars;
        inner.env.append(&mut vars);
        proof {
            assert forall|k: Seq<char>|
                #[trigger] env_value(inner.env@, k) == match env_value(added, k) {
                    Some(v) => Some(v),
                    None => env_value(old_env, k),
                } by {
                lemma_env_value_concat(old_env, added, k);
            }
        }
        ClaudeOptionsBuilder { inner }
    }

    /// Append one environment variable, which takes effect over any
    /// earlier entry for the same name.
    pub fn env(self, key: String, value: String) -> (r: Self)
        ensures
            r.inner.env@ == self.inner.env@.push((key, value)),
            r.inner == (ClaudeAgentOptions { env: r.inner.env, ..self.inner }),
            env_value(r.inner.env@, key@) == Some(value@),
            forall|k: Seq<char>|
                k != key@ ==> #[trigger] env_value(r.inner.env@, k) == env_value(
                    self.inner.env@,
                    k,
                ),
    {
        let ghost old_env = self.inner.env@;
        let ghost key_view = key@;
        let ghost value_view = value@;
        let mut inner = self.inner;
        inner.env.push((key, value));
        proof {
            assert(inner.env@.last() == (inner.env@.last().0, inner.env@.last().1));
            assert(inner.env@.last().0@ == key_view);
            assert(inner.env@.last().1@ == value_view);
            assert(inner.env@.drop_last() =~= old_env);
            assert forall|k: Seq<char>|
                k != key_view implies #[trigger] env_value(inner.env@, k) == env_value(
                old_env,
                k,
            ) by {
                assert(env_value(inner.env@, k) == env_value(inner.env@.drop_last(), k));
            }
        }
        ClaudeOptionsBuilder { inner }
    }

    /// Continue the most recent conversation.
    pub fn continue_conversation(self, enable: bool) -> (r: Self)
        ensures
            r.inner == (ClaudeAgentOptions { continue_conversation: enable, ..self.inner }),
    {
        let mut inner = self.inner;
        inner.continue_conversation = enable;
        ClaudeOptionsBuilder { inner }
    }

    /// Resume a previous session.
    pub fn resume_session(self, session_id: String) -> (r: Self)
        ensures
            r.inner == (ClaudeAgentOptions {
                resume: Some(session_id),
                fork_session: false,
                ..self.inner
            }),
    {
        let mut inner = self.inner;
        inner.resume = Some(session_id);
        inner.fork_session = false;
        ClaudeOptionsBuilder { inner }
    }

    /// Fork from a previous session.
    pub fn fork_session(self, session_id: String) -> (r: Self)
        ensures
            r.inner == (ClaudeAgentOptions {
                resume: Some(session_id),
                fork_session: true,
                ..self.inner
            }),
    {
        let mut inner = self.inner;
        inner.resume = Some(session_id);
        inner.fork_session = true;
        ClaudeOptionsBuilder { inner }
    }

    /// Name the tool used for permission prompts.
    pub fn permission_prompt_tool(self, name: String) -> (r: Self)
        ensures
            r.inner == (ClaudeAgentOptions {
                permission_prompt_tool_name: Some(name),
                ..self.inner
            }),
    {
        let mut inner = self.inner;
        inner.permission_prompt_tool_name = Some(name);
        ClaudeOptionsBuilder { inner }
    }

    /// Set the settings file path.
    pub fn settings(self, path: String) -> (r: Self)
        ensures
            r.inner == (ClaudeAgentOptions { settings: Some(path), ..self.inner }),
    {
        let mut inner = self.inner;
        inner.settings = Some(path);
        ClaudeOptionsBuilder { inner }
    }

    /// Limit the output buffer size.
    pub fn max_buffer_size(self, size: usize) -> (r: Self)
        ensures
            r.inner == (ClaudeAgentOptions { max_buffer_size: Some(size), ..self.inner }),
    {
        let mut inner = self.inner;
        inner.max_buffer_size = Some(size);
        ClaudeOptionsBuilder { inner }
    }

    /// Set the user identifier.
    pub fn user(self, user: String) -> (r: Self)
        ensures
            r.inner == (ClaudeAgentOptions { user: Some(user), ..self.inner }),
    {
        let mut inner = self.inner;
        inner.user = Some(user);
        ClaudeOptionsBuilder { inner }
    }

    /// Ask for partial messages in streaming output.
    pub fn include_partial_messages(self, enable: bool) -> (r: Self)
        ensures
            r.inner == (ClaudeAgentOptions { include_partial_messages: enable, ..self.inner }),
    {
        let mut inner = self.inner;
        inner.include_partial_messages = enable;
        ClaudeOptionsBuilder { inner }
    }

    /// The finished options.
    pub fn build(self) -> (r: ClaudeAgentOptions)
        ensures
            r == self.inner,
    {
        self.inner
    }
}

impl ClaudeAgentOptions {
    /// A fresh builder.
    pub fn builder() -> (r: ClaudeOptionsBuilder)
        ensures
            options_default(r.inner),
    {
        ClaudeOptionsBuilder::new()
    }

    /// Options holding only a text system prompt: every other field keeps
    /// its default.
    pub fn with_system_prompt(prompt: String) -> (r: ClaudeAgentOptions)
        ensures
            r.system_prompt == Some(SystemPromptConfig::Text(prompt)),
            options_default(ClaudeAgentOptions { system_prompt: None, ..r }),
    {
        ClaudeOptionsBuilder::new().system_prompt(prompt).build()
    }

    /// Options holding only a model choice: every other field keeps its
    /// default.
    pub fn with_model(model: String) -> (r: ClaudeAgentOptions)
        ensures
            r.model == Some(model),
            options_default(ClaudeAgentOptions { model: None, ..r }),
    {
        ClaudeOptionsBuilder::new().model(model).build()
    }
}

} // verus!
