//! A small fluent front door for one-shot queries.
//!
//! The asynchronous execution of a quick query lives in the unverified
//! runtime; this module owns the prompt and the options it accumulates.

use vstd::prelude::*;
use crate::builders::ClaudeOptionsBuilder;
use crate::types::{options_default, ClaudeAgentOptions, SystemPromptConfig};

verus! {

/// A prompt with chainable configuration.
pub struct QuickQuery {
    pub prompt: String,
    pub options: ClaudeOptionsBuilder,
}

impl QuickQuery {
    /// A quick query for one prompt, with default options.
    pub fn new(prompt: String) -> (r: QuickQuery)
        ensures
            r.prompt == prompt,
            options_default(r.options.inner),
    {
        QuickQuery { prompt, options: ClaudeOptionsBuilder::new() }
    }

    /// Set the system prompt.
    pub fn with_system_prompt(self, prompt: String) -> (r: Self)
        ensures
            r.prompt == self.prompt,
            r.options.inner == (ClaudeAgentOptions {
                system_prompt: Some(SystemPromptConfig::Text(prompt)),
                ..self.options.inner
            }),
    {
        QuickQuery { prompt: self.prompt, options: self.options.system_prompt(prompt) }
    }

    /// Choose the model.
    pub fn with_model(self, model: String) -> (r: Self)
        ensures
            r.prompt == self.prompt,
            r.options.inner == (ClaudeAgentOptions { model: Some(model), ..self.options.inner }),
    {
        QuickQuery { prompt: self.prompt, options: self.options.model(model) }
    }

    /// Limit the number of turns.
    pub fn max_turns(self, turns: i32) -> (r: Self)
        ensures
            r.prompt == self.prompt,
            r.options.inner == (ClaudeAgentOptions {
                max_turns: Some(turns),
                ..self.options.inner
            }),
    {
        QuickQuery { prompt: self.prompt, options: self.options.max_turns(turns) }
    }

    /// Replace the allowed-tool list.
    pub fn allow_tools(self, tools: Vec<String>) -> (r: Self)
        ensures
            r.prompt == self.prompt,
            r.options.inner == (ClaudeAgentOptions {
                allowed_tools: tools,
                ..self.options.inner
            }),
    {
        QuickQuery { prompt: self.prompt, options: self.options.allow_tools(tools) }
    }
}

} // verus!
