//! The verified core of the subprocess transport: its readiness state
//! machine, the write gate, the argument list handed to the child process,
//! and the framing of its output lines.
//!
//! Spawning, killing and actually reading or writing the child process are
//! input/output and live outside the verified crate; that code consults the
//! functions here for every decision.

use vstd::prelude::*;
use vstd::string::StringExecFns;
use crate::errors::ClaudeSDKError;
use crate::json::{json_from_str, json_view, parsed_json};
use crate::strutil::{i64_to_dec, spec_dec_int, spec_trimmed, trim_ws};
use crate::types::{ClaudeAgentOptions, PermissionMode, SystemPromptConfig};

verus! {

/// The flag value for a permission mode.
pub open spec fn spec_mode_flag(m: PermissionMode) -> Seq<char> {
    match m {
        PermissionMode::Default => "default"@,
        PermissionMode::AcceptEdits => "acceptEdits"@,
        PermissionMode::Plan => "plan"@,
        PermissionMode::BypassPermissions => "bypassPermissions"@,
    }
}

/// The flag value for a permission mode.
pub fn mode_flag(m: &PermissionMode) -> (r: &'static str)
    ensures
        r@ == spec_mode_flag(*m),
{
    match m {
        PermissionMode::Default => "default",
        PermissionMode::AcceptEdits => "acceptEdits",
        PermissionMode::Plan => "plan",
        PermissionMode::BypassPermissions => "bypassPermissions",
    }
}

/// The elements of `xs` joined with `sep` between them.
pub open spec fn spec_join(xs: Seq<Seq<char>>, sep: Seq<char>) -> Seq<char>
    decreases xs.len(),
{
    if xs.len() == 0 {
        Seq::empty()
    } else if xs.len() == 1 {
        xs[0]
    } else {
        spec_join(xs.drop_last(), sep) + sep + xs.last()
    }
}

/// The views of a vector of strings.
pub open spec fn strs_view(v: Seq<String>) -> Seq<Seq<char>> {
    v.map_values(|s: String| s@)
}

/// Join strings with a separator.
pub fn join_strings(xs: &Vec<String>, sep: &str) -> (r: String)
    ensures
        r@ == spec_join(strs_view(xs@), sep@),
{
    let mut acc = String::new();
    let n = xs.len();
    let mut i: usize = 0;
    while i < n
        invariant
            n == xs@.len(),
            i <= n,
            acc@ == spec_join(strs_view(xs@).take(i as int), sep@),
        decreases n - i,
    {
        if i > 0 {
            acc.append(sep);
        }
        acc.append(xs[i].as_str());
        proof {
            let s = strs_view(xs@);
            assert(s.take(i + 1).drop_last() =~= s.take(i as int));
            assert(s.take(i + 1).last() == s[i as int]);
            assert(s[i as int] == xs@[i as int]@);
        }
        i += 1;
    }
    proof {
        assert(strs_view(xs@).take(n as int) =~= strs_view(xs@));
    }
    acc
}

/// The arguments derived from the system-prompt configuration.
pub open spec fn spec_prompt_args(o: ClaudeAgentOptions) -> Seq<Seq<char>> {
    match o.system_prompt {
        Some(SystemPromptConfig::Text(t)) => seq!["--system-prompt"@, t@],
        Some(SystemPromptConfig::Preset(p)) => match p.append {
            Some(a) => seq!["--append-system-prompt"@, a@],
            None => Seq::empty(),
        },
        None => Seq::empty(),
    }
}

/// The arguments derived from the allowed-tool list.
pub open spec fn spec_tools_args(o: ClaudeAgentOptions) -> Seq<Seq<char>> {
    if o.allowed_tools@.len() > 0 {
        seq!["--allowedTools"@, spec_join(strs_view(o.allowed_tools@), ","@)]
    } else {
        Seq::empty()
    }
}

/// The arguments derived from the turn limit.
pub open spec fn spec_turns_args(o: ClaudeAgentOptions) -> Seq<Seq<char>> {
    match o.max_turns {
        Some(n) => seq!["--max-turns"@, spec_dec_int(n as int)],
        None => Seq::empty(),
    }
}

/// The arguments derived from the permission mode.
pub open spec fn spec_perm_args(o: ClaudeAgentOptions) -> Seq<Seq<char>> {
    match o.permission_mode {
        Some(m) => seq!["--permission-mode"@, spec_mode_flag(m)],
        None => Seq::empty(),
    }
}

/// The arguments derived from the model choice.
pub open spec fn spec_model_args(o: ClaudeAgentOptions) -> Seq<Seq<char>> {
    match o.model {
        Some(m) => seq!["--model"@, m@],
        None => Seq::empty(),
    }
}

/// The trailing arguments for a one-shot prompt; an interactive session
/// (empty prompt) adds none.
pub open spec fn spec_print_args(prompt: Seq<char>) -> Seq<Seq<char>> {
    if prompt.len() > 0 {
        seq!["--print"@, "--"@, prompt]
    } else {
        Seq::empty()
    }
}

/// The full argument list handed to the child process.
pub open spec fn spec_build_command(prompt: Seq<char>, o: ClaudeAgentOptions) -> Seq<Seq<char>> {
    seq!["--output-format"@, "stream-json"@, "--verbose"@] + spec_prompt_args(o)
        + spec_tools_args(o) + spec_turns_args(o) + spec_perm_args(o) + spec_model_args(o)
        + spec_print_args(prompt)
}

/// The verified state of the subprocess transport.
///
/// `ready` means a connection was made and no write has failed and the
/// transport was not closed; every write must pass [`Self::check_writable`]
/// first.
pub struct SubprocessTransport {
    pub prompt: String,
    pub options: ClaudeAgentOptions,
    pub cli_path: String,
    pub ready: bool,
}

impl SubprocessTransport {
    /// A transport that is not yet connected.
    pub fn new(prompt: String, options: ClaudeAgentOptions, cli_path: String) -> (t:
        SubprocessTransport)
        ensures
            t.prompt == prompt,
            t.options == options,
            t.cli_path == cli_path,
            !t.ready,
    {
        SubprocessTransport { prompt, options, cli_path, ready: false }
    }

    /// Whether the transport accepts writes.
    pub fn is_ready(&self) -> (r: bool)
        ensures
            r == self.ready,
    {
        self.ready
    }

    /// Record that the child process was spawned.
    pub fn mark_connected(&mut self)
        ensures
            final(self).ready,
            final(self).prompt == old(self).prompt,
            final(self).options == old(self).options,
            final(self).cli_path == old(self).cli_path,
    {
        self.ready = true;
    }

    /// Record that a write failed or the transport was closed; the
    /// transport never becomes ready again by itself.
    pub fn mark_not_ready(&mut self)
        ensures
            !final(self).ready,
            final(self).prompt == old(self).prompt,
            final(self).options == old(self).options,
            final(self).cli_path == old(self).cli_path,
    {
        self.ready = false;
    }

    /// Decide whether a write may proceed.
    ///
    /// `stdin_available` reports whether the input handle still exists;
    /// `exited` is `Some(code)` when the process has already exited, where
    /// `code` is its exit code if known.  No bytes may be sent unless the
    /// result is `Ok`.
    pub fn check_writable(&self, stdin_available: bool, exited: Option<Option<i32>>) -> (r: Result<
        (),
        ClaudeSDKError,
    >)
        ensures
            match r {
                Ok(()) => self.ready && stdin_available && exited is None,
                Err(e) => {
                    &&& !(self.ready && stdin_available && exited is None)
                    &&& !self.ready ==> (e matches ClaudeSDKError::CLIConnectionError(m) && m@
                        == "Transport is not ready for writing"@)
                    &&& (self.ready && !stdin_available) ==> (e matches
                        ClaudeSDKError::CLIConnectionError(m) && m@
                        == "Stdin not available for writing"@)
                    &&& (self.ready && stdin_available) ==> match exited {
                        Some(code) => e matches ClaudeSDKError::ProcessError {
                            exit_code,
                            stderr,
                            ..
                        } && exit_code == code && stderr is None,
                        None => true,
                    }
                },
            },
    {
        if !self.ready {
            return Err(
                ClaudeSDKError::cli_connection_error("Transport is not ready for writing".to_owned()),
            );
        }
        if !stdin_available {
            return Err(
                ClaudeSDKError::cli_connection_error("Stdin not available for writing".to_owned()),
            );
        }
        match exited {
            Some(code) => {
                let mut msg: String = "Cannot write to terminated process (exit code: ".to_owned();
                match code {
                    Some(c) => {
                        let d = i64_to_dec(c as i64);
                        msg.append(d.as_str());
                    },
                    None => {
                        msg.append("unknown");
                    },
                }
                msg.append(")");
                Err(ClaudeSDKError::process_error(msg, code, None))
            },
            None => Ok(()),
        }
    }

    /// Build the argument list for spawning the child process.
    #[verifier::rlimit(100)]
    pub fn build_command(&self) -> (r: Vec<String>)
        ensures
            strs_view(r@) == spec_build_command(self.prompt@, self.options),
    {
        let o = &self.options;
        let mut cmd: Vec<String> = Vec::new();
        cmd.push("--output-format".to_owned());
        cmd.push("stream-json".to_owned());
        cmd.push("--verbose".to_owned());
        proof {
            assert(strs_view(cmd@) =~= seq!["--output-format"@, "stream-json"@, "--verbose"@]);
        }
        let ghost seg0 = strs_view(cmd@);

        match &o.system_prompt {
            Some(SystemPromptConfig::Text(t)) => {
                cmd.push("--system-prompt".to_owned());
                cmd.push(t.clone());
            },
            Some(SystemPromptConfig::Preset(p)) => {
                match &p.append {
                    Some(a) => {
                        cmd.push("--append-system-prompt".to_owned());
                        cmd.push(a.clone());
                    },
                    None => {},
                }
            },
            None => {},
        }
        proof {
            assert(strs_view(cmd@) =~= seg0 + spec_prompt_args(*o));
        }
        let ghost seg1 = strs_view(cmd@);

        if o.allowed_tools.len() > 0 {
            cmd.push("--allowedTools".to_owned());
            let joined = join_strings(&o.allowed_tools, ",");
            cmd.push(joined);
        }
        proof {
            assert(strs_view(cmd@) =~= seg1 + spec_tools_args(*o));
        }
        let ghost seg2 = strs_view(cmd@);

        match o.max_turns {
            Some(n) => {
                cmd.push("--max-turns".to_owned());
                cmd.push(i64_to_dec(n as i64));
            },
            None => {},
        }
        proof {
            assert(strs_view(cmd@) =~= seg2 + spec_turns_args(*o));
        }
        let ghost seg3 = strs_view(cmd@);

        match &o.permission_mode {
            Some(m) => {
                cmd.push("--permission-mode".to_owned());
                cmd.push(mode_flag(m).to_owned());
            },
            None => {},
        }
        proof {
            assert(strs_view(cmd@) =~= seg3 + spec_perm_args(*o));
        }
        let ghost seg4 = strs_view(cmd@);

        match &o.model {
            Some(m) => {
                cmd.push("--model".to_owned());
                cmd.push(m.clone());
            },
            None => {},
        }
        proof {
            assert(strs_view(cmd@) =~= seg4 + spec_model_args(*o));
        }
        let ghost seg5 = strs_view(cmd@);

        if !self.prompt.as_str().is_empty() {
            cmd.push("--print".to_owned());
            cmd.push("--".to_owned());
            cmd.push(self.prompt.clone());
        }
        proof {
            assert(strs_view(cmd@) =~= seg5 + spec_print_args(self.prompt@));
            assert(strs_view(cmd@) =~= spec_build_command(self.prompt@, self.options));
        }
        cmd
    }
}

/// Classify one line of the child's output.  The line is first trimmed of
/// Unicode whitespace; a line that is then empty is skipped, and any other
/// becomes a decoded JSON value or a decode error carrying the trimmed
/// offending line.
pub fn frame_line(line: &str) -> (r: Option<Result<serde_json::Value, ClaudeSDKError>>)
    ensures
        match r {
            None => spec_trimmed(line@).len() == 0,
            Some(inner) => {
                &&& spec_trimmed(line@).len() > 0
                &&& match inner {
                    Ok(v) => parsed_json(spec_trimmed(line@)) == Some(json_view(v)),
                    Err(e) => {
                        &&& parsed_json(spec_trimmed(line@)) is None
                        &&& e matches ClaudeSDKError::CLIJSONDecodeError { line: l, .. } && l@
                            == spec_trimmed(line@)
                    },
                }
            },
        },
{
    let trimmed = trim_ws(line);
    if trimmed.as_str().is_empty() {
        return None;
    }
    match json_from_str(trimmed.as_str()) {
        Ok(v) => Some(Ok(v)),
        Err(et) => Some(Err(ClaudeSDKError::json_decode_error(trimmed, et))),
    }
}

} // verus!
