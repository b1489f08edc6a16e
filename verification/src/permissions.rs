//! Helpers for constructing permission decisions.
//!
//! The permission callback itself is an asynchronous value owned by the
//! unverified runtime; it returns a [`PermissionResult`], whose reply
//! envelope the engine builds and proves in `query`.

use vstd::prelude::*;
use crate::types::PermissionResult;

verus! {

impl PermissionResult {
    /// Allow the tool call, leaving its input unchanged.
    pub fn allow() -> (r: PermissionResult)
        ensures
            r matches PermissionResult::Allow { updated_input, updated_permissions } &&
                updated_input is None && updated_permissions is None,
    {
        PermissionResult::Allow { updated_input: None, updated_permissions: None }
    }

    /// Allow the tool call with a replacement input.
    pub fn allow_with_input(input: Vec<(String, serde_json::Value)>) -> (r: PermissionResult)
        ensures
            r matches PermissionResult::Allow { updated_input, updated_permissions } &&
                updated_input == Some(input) && updated_permissions is None,
    {
        PermissionResult::Allow { updated_input: Some(input), updated_permissions: None }
    }

    /// Deny the tool call with a reason.
    pub fn deny(message: String) -> (r: PermissionResult)
        ensures
            r matches PermissionResult::Deny { message: m, interrupt } && m == message
                && !interrupt,
    {
        PermissionResult::Deny { message, interrupt: false }
    }

    /// Deny the tool call and ask for the conversation to be interrupted.
    pub fn deny_with_interrupt(message: String) -> (r: PermissionResult)
        ensures
            r matches PermissionResult::Deny { message: m, interrupt } && m == message
                && interrupt,
    {
        PermissionResult::Deny { message, interrupt: true }
    }
}

} // verus!
