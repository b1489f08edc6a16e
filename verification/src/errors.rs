//! The crate's error taxonomy, with verified constructors and a verified
//! human-readable rendering.

use vstd::prelude::*;
use vstd::string::StringExecFns;
use crate::strutil::{i64_to_dec, spec_dec_int, spec_truncated, truncate_chars};

verus! {

/// Base error type for every failure this crate reports.
#[derive(Debug)]
pub enum ClaudeSDKError {
    /// Unable to reach, or write to, the child process.
    CLIConnectionError(String),
    /// The executable could not be located.
    CLINotFoundError { message: String, cli_path: Option<String> },
    /// The child process failed; the exit code is carried when known.
    ProcessError { message: String, exit_code: Option<i32>, stderr: Option<String> },
    /// A line of the child's output was not valid JSON.
    CLIJSONDecodeError { line: String, original_error: String },
    /// A decoded JSON value matched no known message shape.
    MessageParseError { message: String, data: Option<serde_json::Value> },
}

/// The rendered text of an error, one line per variant.
pub open spec fn spec_error_message(e: ClaudeSDKError) -> Seq<char> {
    match e {
        ClaudeSDKError::CLIConnectionError(m) => "CLI Connection Error: "@ + m@,
        ClaudeSDKError::CLINotFoundError { message, cli_path } => match cli_path {
            Some(p) => message@ + ": "@ + p@,
            None => message@,
        },
        ClaudeSDKError::ProcessError { message, exit_code, stderr } => {
            let with_code = match exit_code {
                Some(c) => message@ + " (exit code: "@ + spec_dec_int(c as int) + ")"@,
                None => message@,
            };
            match stderr {
                Some(s) => with_code + "\nError output: "@ + s@,
                None => with_code,
            }
        },
        ClaudeSDKError::CLIJSONDecodeError { line, original_error } => "Failed to decode JSON: "@
            + spec_truncated(line@, 100) + " (error: "@ + original_error@ + ")"@,
        ClaudeSDKError::MessageParseError { message, .. } => "Message Parse Error: "@ + message@,
    }
}

impl ClaudeSDKError {
    /// An error for a connection that could not be made or used.
    pub fn cli_connection_error(message: String) -> (e: ClaudeSDKError)
        ensures
            e == ClaudeSDKError::CLIConnectionError(message),
    {
        ClaudeSDKError::CLIConnectionError(message)
    }

    /// An error for an executable that could not be found.
    pub fn cli_not_found(cli_path: Option<String>) -> (e: ClaudeSDKError)
        ensures
            e matches ClaudeSDKError::CLINotFoundError { message, cli_path: p } && p == cli_path
                && message@ == "CLI executable not found"@,
    {
        ClaudeSDKError::CLINotFoundError { message: "CLI executable not found".to_owned(), cli_path }
    }

    /// An error for a child process that failed.
    pub fn process_error(message: String, exit_code: Option<i32>, stderr: Option<String>) -> (e:
        ClaudeSDKError)
        ensures
            e == (ClaudeSDKError::ProcessError { message, exit_code, stderr }),
    {
        ClaudeSDKError::ProcessError { message, exit_code, stderr }
    }

    /// An error for a line that was not valid JSON.
    pub fn json_decode_error(line: String, original_error: String) -> (e: ClaudeSDKError)
        ensures
            e == (ClaudeSDKError::CLIJSONDecodeError { line, original_error }),
    {
        ClaudeSDKError::CLIJSONDecodeError { line, original_error }
    }

    /// An error for a JSON value that matched no known message shape.
    pub fn message_parse_error(message: String, data: Option<serde_json::Value>) -> (e:
        ClaudeSDKError)
        ensures
            e == (ClaudeSDKError::MessageParseError { message, data }),
    {
        ClaudeSDKError::MessageParseError { message, data }
    }

    /// Render the error as one line of text.
    pub fn message(&self) -> (r: String)
        ensures
            r@ == spec_error_message(*self),
    {
        proof {
            reveal_strlit("CLI Connection Error: ");
            reveal_strlit(": ");
            reveal_strlit(" (exit code: ");
            reveal_strlit(")");
            reveal_strlit("\nError output: ");
            reveal_strlit("Failed to decode JSON: ");
            reveal_strlit(" (error: ");
            reveal_strlit("Message Parse Error: ");
        }
        match self {
            ClaudeSDKError::CLIConnectionError(m) => {
                let mut out: String = "CLI Connection Error: ".to_owned();
                out.append(m.as_str());
                out
            },
            ClaudeSDKError::CLINotFoundError { message, cli_path } => {
                match cli_path {
                    Some(p) => {
                        let mut out: String = message.clone();
                        out.append(": ");
                        out.append(p.as_str());
                        out
                    },
                    None => message.clone(),
                }
            },
            ClaudeSDKError::ProcessError { message, exit_code, stderr } => {
                let mut out: String = message.clone();
                match exit_code {
                    Some(c) => {
                        out.append(" (exit code: ");
                        let d = i64_to_dec(*c as i64);
                        out.append(d.as_str());
                        out.append(")");
                    },
                    None => {},
                }
                match stderr {
                    Some(s) => {
                        out.append("\nError output: ");
                        out.append(s.as_str());
                    },
                    None => {},
                }
                out
            },
            ClaudeSDKError::CLIJSONDecodeError { line, original_error } => {
                let mut out: String = "Failed to decode JSON: ".to_owned();
                let t = truncate_chars(line.as_str(), 100);
                out.append(t.as_str());
                out.append(" (error: ");
                out.append(original_error.as_str());
                out.append(")");
                out
            },
            ClaudeSDKError::MessageParseError { message, .. } => {
                let mut out: String = "Message Parse Error: ".to_owned();
                out.append(message.as_str());
                out
            },
        }
    }
}

} // verus!
