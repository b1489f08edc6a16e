//! The control-protocol engine: correlation of outbound control requests
//! with inbound responses, classification of every decoded value read from
//! the child process, and construction of every envelope written to it.
//!
//! The engine is a state machine over a table of reply slots.  The
//! asynchronous runtime around it performs one call into this module per
//! decoded line and acts on the returned [`ReaderAction`]; it owns the
//! channels and timers, while every decision is made — and proved — here.

use vstd::prelude::*;
use vstd::string::StringExecFns;
use crate::errors::ClaudeSDKError;
use crate::hooks::HookManager;
use crate::json::{
    jget, jfield_str, json_bool_value, json_get, json_insert, json_is_null, json_is_object,
    json_as_array, json_as_str, json_null_value, json_object_new, json_string, json_to_text,
    json_view, json_text, JsonV,
};
use crate::mcp_server::SdkMcpServer;
use crate::message_parser::{parse_err_for, parse_message, spec_parse_message};
use crate::strutil::{lemma_dec_injective, spec_dec, str_eq, u64_to_dec};
use crate::types::{Message, MessageV, PermissionResult};

verus! {

broadcast use vstd::seq::Seq::group_seq_extra;

// ---------------------------------------------------------------------------
// The pending-request table
// ---------------------------------------------------------------------------

/// The lifecycle of one reply slot: it is created `Pending`, and is
/// resolved exactly once — `Fulfilled` when its response arrives first,
/// `TimedOut` when its timer fires first.
#[derive(Debug, Clone, Copy, PartialEq, Eq, Structural)]
pub enum SlotState {
    Pending,
    Fulfilled,
    TimedOut,
}

/// One outstanding control request.
#[derive(Debug, Clone)]
pub struct PendingEntry {
    pub request_id: String,
    pub state: SlotState,
}

/// The mathematical view of the pending table: correlation id and state of
/// each slot, in allocation order.
pub type TableV = Seq<(Seq<char>, SlotState)>;

/// The correlation id of the `n`-th allocated request.
pub open spec fn req_id_seq(n: int) -> Seq<char> {
    "req_"@ + spec_dec(n as nat)
}

/// Distinct allocation numbers give distinct correlation ids.
pub proof fn lemma_req_id_injective(a: int, b: int)
    requires
        a >= 0,
        b >= 0,
        req_id_seq(a) == req_id_seq(b),
    ensures
        a == b,
{
    let p = "req_"@;
    let da = spec_dec(a as nat);
    let db = spec_dec(b as nat);
    assert(da =~= (p + da).subrange(p.len() as int, (p + da).len() as int));
    assert(db =~= (p + db).subrange(p.len() as int, (p + db).len() as int));
    assert(da == db);
    lemma_dec_injective(a as nat, b as nat);
}

/// Whether some slot with this correlation id is still pending.
pub open spec fn has_pending(tbl: TableV, rid: Seq<char>) -> bool {
    exists|i: int| 0 <= i < tbl.len() && (#[trigger] tbl[i]).0 == rid && tbl[i].1 is Pending
}

/// The table after the pending slot under `rid` is fulfilled.
pub open spec fn spec_fulfilled(tbl: TableV, rid: Seq<char>) -> TableV {
    Seq::new(
        tbl.len(),
        |i: int|
            if tbl[i].0 == rid && tbl[i].1 is Pending {
                (tbl[i].0, SlotState::Fulfilled)
            } else {
                tbl[i]
            },
    )
}

/// The table after the pending slot under `rid` times out.
pub open spec fn spec_timed_out(tbl: TableV, rid: Seq<char>) -> TableV {
    Seq::new(
        tbl.len(),
        |i: int|
            if tbl[i].0 == rid && tbl[i].1 is Pending {
                (tbl[i].0, SlotState::TimedOut)
            } else {
                tbl[i]
            },
    )
}

// ---------------------------------------------------------------------------
// Decoded control traffic
// ---------------------------------------------------------------------------

/// A decoded control response: the fulfilment it carries for the matching
/// waiter.
pub enum CtrlRespV {
    Success { request_id: Seq<char>, payload: JsonV },
    Failure { request_id: Seq<char>, error: Seq<char> },
}

/// The correlation id a decoded control response names.
pub open spec fn resp_rid(r: CtrlRespV) -> Seq<char> {
    match r {
        CtrlRespV::Success { request_id, .. } => request_id,
        CtrlRespV::Failure { request_id, .. } => request_id,
    }
}

/// The shape of a control response, as decoded from a value whose `type`
/// tag is "control_response".  A missing or null success payload stands for
/// the empty object; any other non-object payload is malformed, as are a
/// missing id, subtype or error text, and an unknown subtype.
pub open spec fn spec_ctrl_response(j: JsonV) -> Option<CtrlRespV> {
    match jget(j, "response"@) {
        Some(r) => match jfield_str(r, "subtype"@) {
            Some(st) => if st == "success"@ {
                match jfield_str(r, "request_id"@) {
                    Some(request_id) => match jget(r, "response"@) {
                        None => Some(
                            CtrlRespV::Success {
                                request_id,
                                payload: JsonV::Obj(Map::<Seq<char>, JsonV>::empty()),
                            },
                        ),
                        Some(p) => match p {
                            JsonV::Null => Some(
                                CtrlRespV::Success {
                                    request_id,
                                    payload: JsonV::Obj(Map::<Seq<char>, JsonV>::empty()),
                                },
                            ),
                            JsonV::Obj(m) => Some(
                                CtrlRespV::Success { request_id, payload: JsonV::Obj(m) },
                            ),
                            _ => None,
                        },
                    },
                    None => None,
                }
            } else if st == "error"@ {
                match jfield_str(r, "request_id"@) {
                    Some(request_id) => match jfield_str(r, "error"@) {
                        Some(error) => Some(CtrlRespV::Failure { request_id, error }),
                        None => None,
                    },
                    None => None,
                }
            } else {
                None
            },
            None => None,
        },
        None => None,
    }
}

/// Whether an optional field admits the shapes an optional list accepts:
/// absent, null, or an array.
pub open spec fn opt_array_ok(j: JsonV, key: Seq<char>) -> bool {
    match jget(j, key) {
        None => true,
        Some(v) => v is Null || v is Arr,
    }
}

/// Whether an optional field admits the shapes an optional string accepts:
/// absent, null, or a string.
pub open spec fn opt_str_ok(j: JsonV, key: Seq<char>) -> bool {
    match jget(j, key) {
        None => true,
        Some(v) => v is Null || v is Str,
    }
}

/// The shape of a permission-check control request, as decoded from a
/// value whose `type` tag is "control_request": its correlation id, tool
/// name and input object.  Any other subtype, and any shape violation,
/// yields `None`.
pub open spec fn spec_can_use_tool(j: JsonV) -> Option<(Seq<char>, Seq<char>, JsonV)> {
    match jfield_str(j, "request_id"@) {
        Some(rid) => match jget(j, "request"@) {
            Some(req) => match jfield_str(req, "subtype"@) {
                Some(st) => if st == "can_use_tool"@ {
                    match jfield_str(req, "tool_name"@) {
                        Some(tool) => match jget(req, "input"@) {
                            Some(input) => if input is Obj && opt_array_ok(
                                req,
                                "permission_suggestions"@,
                            ) && opt_str_ok(req, "blocked_path"@) {
                                Some((rid, tool, input))
                            } else {
                                None
                            },
                            None => None,
                        },
                        None => None,
                    }
                } else {
                    None
                },
                None => None,
            },
            None => None,
        },
        None => None,
    }
}

// ---------------------------------------------------------------------------
// Reader actions
// ---------------------------------------------------------------------------

/// What the runtime fulfils the matching waiter with.
pub enum ReplyOutcome {
    /// The success payload, an object ({} when the response carried none).
    Success(serde_json::Value),
    /// The error text of an error response.
    Failure(String),
}

pub enum ReplyOutcomeV {
    Success(JsonV),
    Failure(Seq<char>),
}

impl View for ReplyOutcome {
    type V = ReplyOutcomeV;

    open spec fn view(&self) -> ReplyOutcomeV {
        match self {
            ReplyOutcome::Success(v) => ReplyOutcomeV::Success(json_view(*v)),
            ReplyOutcome::Failure(e) => ReplyOutcomeV::Failure(e@),
        }
    }
}

/// The engine's decision for one decoded value.
pub enum ReaderAction {
    /// Fulfil the waiter registered under `request_id`; its slot has just
    /// been marked fulfilled.
    Deliver { request_id: String, outcome: ReplyOutcome },
    /// A control response that matched no pending request, or was
    /// malformed: drop it and read on.
    DropResponse,
    /// A permission check from the child: run the permission callback in a
    /// task of its own and write its reply under the same id.
    Dispatch { request_id: String, tool_name: String, input: serde_json::Value },
    /// A control request this engine does not handle, or a malformed one:
    /// ignore it and read on.
    IgnoreControl,
    /// A plain message for the caller.
    Emit(Message),
    /// A plain message that did not parse: deliver this error as the final
    /// item and stop reading.
    Fatal(ClaudeSDKError),
}

pub enum ReaderActionV {
    Deliver { request_id: Seq<char>, outcome: ReplyOutcomeV },
    DropResponse,
    Dispatch { request_id: Seq<char>, tool_name: Seq<char>, input: JsonV },
    IgnoreControl,
    Emit(MessageV),
    Fatal,
}

impl View for ReaderAction {
    type V = ReaderActionV;

    open spec fn view(&self) -> ReaderActionV {
        match self {
            ReaderAction::Deliver { request_id, outcome } => ReaderActionV::Deliver {
                request_id: request_id@,
                outcome: outcome@,
            },
            ReaderAction::DropResponse => ReaderActionV::DropResponse,
            ReaderAction::Dispatch { request_id, tool_name, input } => ReaderActionV::Dispatch {
                request_id: request_id@,
                tool_name: tool_name@,
                input: json_view(*input),
            },
            ReaderAction::IgnoreControl => ReaderActionV::IgnoreControl,
            ReaderAction::Emit(m) => ReaderActionV::Emit(m@),
            ReaderAction::Fatal(_) => ReaderActionV::Fatal,
        }
    }
}

/// The engine's decision for one decoded value, over the model.
pub open spec fn spec_step_act(has_cb: bool, tbl: TableV, j: JsonV) -> ReaderActionV {
    if jfield_str(j, "type"@) == Some("control_response"@) {
        match spec_ctrl_response(j) {
            Some(resp) => if has_pending(tbl, resp_rid(resp)) {
                match resp {
                    CtrlRespV::Success { request_id, payload } => ReaderActionV::Deliver {
                        request_id,
                        outcome: ReplyOutcomeV::Success(payload),
                    },
                    CtrlRespV::Failure { request_id, error } => ReaderActionV::Deliver {
                        request_id,
                        outcome: ReplyOutcomeV::Failure(error),
                    },
                }
            } else {
                ReaderActionV::DropResponse
            },
            None => ReaderActionV::DropResponse,
        }
    } else if jfield_str(j, "type"@) == Some("control_request"@) {
        match spec_can_use_tool(j) {
            Some((rid, tool, input)) => if has_cb {
                ReaderActionV::Dispatch { request_id: rid, tool_name: tool, input }
            } else {
                ReaderActionV::IgnoreControl
            },
            None => ReaderActionV::IgnoreControl,
        }
    } else {
        match spec_parse_message(j) {
            Some(m) => ReaderActionV::Emit(m),
            None => ReaderActionV::Fatal,
        }
    }
}

/// The table after the engine handles one decoded value: only a matched
/// control response changes it.
pub open spec fn spec_step_tbl(tbl: TableV, j: JsonV) -> TableV {
    if jfield_str(j, "type"@) == Some("control_response"@) {
        match spec_ctrl_response(j) {
            Some(resp) => if has_pending(tbl, resp_rid(resp)) {
                spec_fulfilled(tbl, resp_rid(resp))
            } else {
                tbl
            },
            None => tbl,
        }
    } else {
        tbl
    }
}

// ---------------------------------------------------------------------------
// The engine
// ---------------------------------------------------------------------------

/// The control-protocol engine's verified state.
pub struct Query {
    /// Whether the session is interactive; the initialization handshake is
    /// only sent in streaming mode.
    pub is_streaming_mode: bool,
    /// Whether a permission callback is registered; without one,
    /// permission checks from the child are ignored.
    pub has_can_use_tool: bool,
    /// The hook manager, when hooks were configured.
    pub hook_manager: Option<HookManager>,
    /// In-process tool servers by name.
    pub mcp_servers: Vec<(String, SdkMcpServer)>,
    /// The reply slots, one per allocated control request.
    pub slots: Vec<PendingEntry>,
}

impl Query {
    /// The pending table.
    pub open spec fn table(&self) -> TableV {
        self.slots@.map_values(|e: PendingEntry| (e.request_id@, e.state))
    }

    /// Every slot carries the correlation id of its allocation number.
    pub open spec fn wf(&self) -> bool {
        forall|i: int|
            0 <= i < self.table().len() ==> (#[trigger] self.table()[i]).0 == req_id_seq(i + 1)
    }

    /// A fresh engine with no pending requests.
    pub fn new(is_streaming_mode: bool) -> (q: Query)
        ensures
            q.wf(),
            q.table() == Seq::<(Seq<char>, SlotState)>::empty(),
            q.is_streaming_mode == is_streaming_mode,
            !q.has_can_use_tool,
            q.hook_manager is None,
    {
        let q = Query {
            is_streaming_mode,
            has_can_use_tool: false,
            hook_manager: None,
            mcp_servers: Vec::new(),
            slots: Vec::new(),
        };
        proof {
            assert(q.table() =~= Seq::<(Seq<char>, SlotState)>::empty());
        }
        q
    }

    /// A fresh engine whose reader dispatches permission checks to a
    /// registered callback.
    pub fn with_can_use_tool(is_streaming_mode: bool) -> (q: Query)
        ensures
            q.wf(),
            q.table() == Seq::<(Seq<char>, SlotState)>::empty(),
            q.is_streaming_mode == is_streaming_mode,
            q.has_can_use_tool,
            q.hook_manager is None,
    {
        let q = Query {
            is_streaming_mode,
            has_can_use_tool: true,
            hook_manager: None,
            mcp_servers: Vec::new(),
            slots: Vec::new(),
        };
        proof {
            assert(q.table() =~= Seq::<(Seq<char>, SlotState)>::empty());
        }
        q
    }

    /// A fresh engine with hook support.
    pub fn with_hooks(is_streaming_mode: bool, hook_manager: HookManager) -> (q: Query)
        ensures
            q.wf(),
            q.table() == Seq::<(Seq<char>, SlotState)>::empty(),
            q.is_streaming_mode == is_streaming_mode,
            !q.has_can_use_tool,
            q.hook_manager == Some(hook_manager),
    {
        let q = Query {
            is_streaming_mode,
            has_can_use_tool: false,
            hook_manager: Some(hook_manager),
            mcp_servers: Vec::new(),
            slots: Vec::new(),
        };
        proof {
            assert(q.table() =~= Seq::<(Seq<char>, SlotState)>::empty());
        }
        q
    }

    /// A fresh engine with in-process tool servers.
    pub fn with_mcp_servers(is_streaming_mode: bool, mcp_servers: Vec<(String, SdkMcpServer)>) -> (q:
        Query)
        ensures
            q.wf(),
            q.table() == Seq::<(Seq<char>, SlotState)>::empty(),
            q.is_streaming_mode == is_streaming_mode,
            !q.has_can_use_tool,
            q.mcp_servers == mcp_servers,
    {
        let q = Query {
            is_streaming_mode,
            has_can_use_tool: false,
            hook_manager: None,
            mcp_servers,
            slots: Vec::new(),
        };
        proof {
            assert(q.table() =~= Seq::<(Seq<char>, SlotState)>::empty());
        }
        q
    }

    /// A fresh engine with any combination of callback and tool servers.
    pub fn with_options(
        is_streaming_mode: bool,
        has_can_use_tool: bool,
        mcp_servers: Option<Vec<(String, SdkMcpServer)>>,
    ) -> (q: Query)
        ensures
            q.wf(),
            q.table() == Seq::<(Seq<char>, SlotState)>::empty(),
            q.is_streaming_mode == is_streaming_mode,
            q.has_can_use_tool == has_can_use_tool,
    {
        let servers = match mcp_servers {
            Some(s) => s,
            None => Vec::new(),
        };
        let q = Query {
            is_streaming_mode,
            has_can_use_tool,
            hook_manager: None,
            mcp_servers: servers,
            slots: Vec::new(),
        };
        proof {
            assert(q.table() =~= Seq::<(Seq<char>, SlotState)>::empty());
        }
        q
    }

    /// Allocate the next control request: a fresh correlation id, distinct
    /// from every id this engine has issued, with a new pending slot.
    pub fn allocate_request(&mut self) -> (rid: String)
        requires
            old(self).wf(),
            old(self).slots@.len() < 0xffff_ffff_ffff_ffff,
        ensures
            final(self).wf(),
            rid@ == req_id_seq(old(self).table().len() as int + 1),
            final(self).table() == old(self).table().push((rid@, SlotState::Pending)),
            forall|i: int| 0 <= i < old(self).table().len() ==> old(self).table()[i].0 != rid@,
            final(self).is_streaming_mode == old(self).is_streaming_mode,
            final(self).has_can_use_tool == old(self).has_can_use_tool,
    {
        let n = self.slots.len();
        let num: u64 = (n as u64) + 1;
        let mut rid: String = "req_".to_owned();
        let d = u64_to_dec(num);
        rid.append(d.as_str());
        self.slots.push(PendingEntry { request_id: rid.clone(), state: SlotState::Pending });
        proof {
            assert(self.table() =~= old(self).table().push((rid@, SlotState::Pending)));
            assert forall|i: int| 0 <= i < old(self).table().len() implies old(self).table()[i].0
                != rid@ by {
                if old(self).table()[i].0 == rid@ {
                    lemma_req_id_injective(i + 1, n as int + 1);
                }
            }
            assert forall|i: int| 0 <= i < self.table().len() implies (
            #[trigger] self.table()[i]).0 == req_id_seq(i + 1) by {
                if i < old(self).table().len() {
                    assert(self.table()[i] == old(self).table()[i]);
                } else {
                    assert(self.table()[i] == (rid@, SlotState::Pending));
                }
            }
        }
        rid
    }

    /// Mark the pending slot under `rid` fulfilled; reports whether one
    /// existed.
    fn fulfill(&mut self, rid: &str) -> (delivered: bool)
        requires
            old(self).wf(),
        ensures
            final(self).wf(),
            delivered == has_pending(old(self).table(), rid@),
            final(self).table() == if delivered {
                spec_fulfilled(old(self).table(), rid@)
            } else {
                old(self).table()
            },
            final(self).is_streaming_mode == old(self).is_streaming_mode,
            final(self).has_can_use_tool == old(self).has_can_use_tool,
    {
        let n = self.slots.len();
        let mut i: usize = 0;
        while i < n
            invariant
                *self == *old(self),
                old(self).wf(),
                n == self.slots@.len(),
                i <= n,
                forall|k: int| 0 <= k < i ==> (#[trigger] self.table()[k]).0 != rid@,
            decreases n - i,
        {
            if str_eq(self.slots[i].request_id.as_str(), rid) {
                proof {
                    assert(old(self).table()[i as int].0 == rid@);
                }
                if matches!(self.slots[i].state, SlotState::Pending) {
                    self.slots[i].state = SlotState::Fulfilled;
                    proof {
                        assert(old(self).table()[i as int].1 is Pending);
                        assert(has_pending(old(self).table(), rid@));
                        assert forall|q: int|
                            0 <= q < self.table().len() implies self.table()[q] == spec_fulfilled(
                            old(self).table(),
                            rid@,
                        )[q] by {
                            if q != i as int && old(self).table()[q].0 == rid@ {
                                lemma_req_id_injective(q + 1, i as int + 1);
                            }
                        }
                        assert(self.table() =~= spec_fulfilled(old(self).table(), rid@));
                        assert forall|q: int|
                            0 <= q < self.table().len() implies (#[trigger] self.table()[q]).0
                            == req_id_seq(q + 1) by {
                            assert(old(self).table()[q].0 == req_id_seq(q + 1));
                        }
                    }
                    return true;
                } else {
                    proof {
                        assert forall|q: int|
                            0 <= q < old(self).table().len() && (#[trigger] old(self).table()[
                            q]).0 == rid@ implies !(old(self).table()[q].1 is Pending) by {
                            if q != i as int {
                                lemma_req_id_injective(q + 1, i as int + 1);
                            }
                        }
                        assert(!has_pending(old(self).table(), rid@));
                    }
                    return false;
                }
            }
            i += 1;
        }
        proof {
            assert(!has_pending(old(self).table(), rid@));
        }
        false
    }

    /// Report a timeout for the request under `rid`: its slot, if still
    /// pending, becomes timed out, and the caller is owed the timeout
    /// error exactly when this returns true.
    pub fn expire(&mut self, rid: &str) -> (timed_out: bool)
        requires
            old(self).wf(),
        ensures
            final(self).wf(),
            timed_out == has_pending(old(self).table(), rid@),
            final(self).table() == if timed_out {
                spec_timed_out(old(self).table(), rid@)
            } else {
                old(self).table()
            },
            final(self).is_streaming_mode == old(self).is_streaming_mode,
            final(self).has_can_use_tool == old(self).has_can_use_tool,
    {
        let n = self.slots.len();
        let mut i: usize = 0;
        while i < n
            invariant
                *self == *old(self),
                old(self).wf(),
                n == self.slots@.len(),
                i <= n,
                forall|k: int| 0 <= k < i ==> (#[trigger] self.table()[k]).0 != rid@,
            decreases n - i,
        {
            if str_eq(self.slots[i].request_id.as_str(), rid) {
                proof {
                    assert(old(self).table()[i as int].0 == rid@);
                }
                if matches!(self.slots[i].state, SlotState::Pending) {
                    self.slots[i].state = SlotState::TimedOut;
                    proof {
                        assert(old(self).table()[i as int].1 is Pending);
                        assert(has_pending(old(self).table(), rid@));
                        assert forall|q: int|
                            0 <= q < self.table().len() implies self.table()[q] == spec_timed_out(
                            old(self).table(),
                            rid@,
                        )[q] by {
                            if q != i as int && old(self).table()[q].0 == rid@ {
                                lemma_req_id_injective(q + 1, i as int + 1);
                            }
                        }
                        assert(self.table() =~= spec_timed_out(old(self).table(), rid@));
                        assert forall|q: int|
                            0 <= q < self.table().len() implies (#[trigger] self.table()[q]).0
                            == req_id_seq(q + 1) by {
                            assert(old(self).table()[q].0 == req_id_seq(q + 1));
                        }
                    }
                    return true;
                } else {
                    proof {
                        assert forall|q: int|
                            0 <= q < old(self).table().len() && (#[trigger] old(self).table()[
                            q]).0 == rid@ implies !(old(self).table()[q].1 is Pending) by {
                            if q != i as int {
                                lemma_req_id_injective(q + 1, i as int + 1);
                            }
                        }
                        assert(!has_pending(old(self).table(), rid@));
                    }
                    return false;
                }
            }
            i += 1;
        }
        proof {
            assert(!has_pending(old(self).table(), rid@));
        }
        false
    }

    /// Decode a control response envelope; `None` when it is malformed.
    fn decode_ctrl_response(v: &serde_json::Value) -> (r: Option<(String, ReplyOutcome)>)
        ensures
            match r {
                Some((rid, outcome)) => match outcome@ {
                    ReplyOutcomeV::Success(p) => spec_ctrl_response(json_view(*v)) == Some(
                        CtrlRespV::Success { request_id: rid@, payload: p },
                    ),
                    ReplyOutcomeV::Failure(e) => spec_ctrl_response(json_view(*v)) == Some(
                        CtrlRespV::Failure { request_id: rid@, error: e },
                    ),
                },
                None => spec_ctrl_response(json_view(*v)) is None,
            },
    {
        let resp = match json_get(v, "response") {
            Some(r) => r,
            None => {
                return None;
            },
        };
        let st = match json_get(resp, "subtype") {
            Some(sv) => match json_as_str(sv) {
                Some(s) => s,
                None => {
                    return None;
                },
            },
            None => {
                return None;
            },
        };
        if str_eq(st, "success") {
            let rid = match json_get(resp, "request_id") {
                Some(rv) => match json_as_str(rv) {
                    Some(s) => s.to_owned(),
                    None => {
                        return None;
                    },
                },
                None => {
                    return None;
                },
            };
            let payload = match json_get(resp, "response") {
                Some(pv) => {
                    if json_is_null(pv) {
                        json_object_new()
                    } else if json_is_object(pv) {
                        pv.clone()
                    } else {
                        return None;
                    }
                },
                None => json_object_new(),
            };
            Some((rid, ReplyOutcome::Success(payload)))
        } else if str_eq(st, "error") {
            let rid = match json_get(resp, "request_id") {
                Some(rv) => match json_as_str(rv) {
                    Some(s) => s.to_owned(),
                    None => {
                        return None;
                    },
                },
                None => {
                    return None;
                },
            };
            let error = match json_get(resp, "error") {
                Some(ev) => match json_as_str(ev) {
                    Some(s) => s.to_owned(),
                    None => {
                        return None;
                    },
                },
                None => {
                    return None;
                },
            };
            Some((rid, ReplyOutcome::Failure(error)))
        } else {
            None
        }
    }

    /// Decode a permission-check control request; `None` for any other
    /// subtype or a malformed envelope.
    fn decode_can_use_tool(v: &serde_json::Value) -> (r: Option<(String, String, serde_json::Value)>)
        ensures
            match r {
                Some((rid, tool, input)) => spec_can_use_tool(json_view(*v)) == Some(
                    (rid@, tool@, json_view(input)),
                ),
                None => spec_can_use_tool(json_view(*v)) is None,
            },
    {
        let rid = match json_get(v, "request_id") {
            Some(rv) => match json_as_str(rv) {
                Some(s) => s.to_owned(),
                None => {
                    return None;
                },
            },
            None => {
                return None;
            },
        };
        let req = match json_get(v, "request") {
            Some(r) => r,
            None => {
                return None;
            },
        };
        let st = match json_get(req, "subtype") {
            Some(sv) => match json_as_str(sv) {
                Some(s) => s,
                None => {
                    return None;
                },
            },
            None => {
                return None;
            },
        };
        if !str_eq(st, "can_use_tool") {
            return None;
        }
        let tool = match json_get(req, "tool_name") {
            Some(tv) => match json_as_str(tv) {
                Some(s) => s.to_owned(),
                None => {
                    return None;
                },
            },
            None => {
                return None;
            },
        };
        let input = match json_get(req, "input") {
            Some(iv) => {
                if json_is_object(iv) {
                    iv.clone()
                } else {
                    return None;
                }
            },
            None => {
                return None;
            },
        };
        match json_get(req, "permission_suggestions") {
            Some(sv) => {
                if !(json_is_null(sv) || json_as_array(sv).is_some()) {
                    return None;
                }
            },
            None => {},
        }
        match json_get(req, "blocked_path") {
            Some(bv) => {
                if !(json_is_null(bv) || json_as_str(bv).is_some()) {
                    return None;
                }
            },
            None => {},
        }
        Some((rid, tool, input))
    }

    /// Classify one decoded value from the child process and update the
    /// pending table accordingly.  This is the whole decision the reader
    /// task takes per value:
    ///
    /// - a control response fulfils its pending request, or is dropped
    ///   when unmatched or malformed — never ending the stream;
    /// - a permission check becomes a `Dispatch` when a callback is
    ///   registered, and is ignored otherwise, like every other control
    ///   request — never ending the stream;
    /// - any other value is a plain message: parsed and emitted, or, on
    ///   parse failure, returned as the fatal final error.
    pub fn handle_line(&mut self, v: &serde_json::Value) -> (act: ReaderAction)
        requires
            old(self).wf(),
        ensures
            final(self).wf(),
            act@ == spec_step_act(old(self).has_can_use_tool, old(self).table(), json_view(*v)),
            final(self).table() == spec_step_tbl(old(self).table(), json_view(*v)),
            final(self).is_streaming_mode == old(self).is_streaming_mode,
            final(self).has_can_use_tool == old(self).has_can_use_tool,
            match act {
                ReaderAction::Fatal(e) => parse_err_for(e, json_view(*v)),
                _ => true,
            },
    {
        let kind: Option<&str> = match json_get(v, "type") {
            Some(tv) => json_as_str(tv),
            None => None,
        };
        match kind {
            Some(t) => {
                if str_eq(t, "control_response") {
                    proof {
                        assert(jfield_str(json_view(*v), "type"@) == Some("control_response"@));
                    }
                    match Self::decode_ctrl_response(v) {
                        Some((rid, outcome)) => {
                            let delivered = self.fulfill(rid.as_str());
                            if delivered {
                                ReaderAction::Deliver { request_id: rid, outcome }
                            } else {
                                ReaderAction::DropResponse
                            }
                        },
                        None => ReaderAction::DropResponse,
                    }
                } else if str_eq(t, "control_request") {
                    proof {
                        assert(jfield_str(json_view(*v), "type"@) == Some("control_request"@));
                    }
                    if self.has_can_use_tool {
                        match Self::decode_can_use_tool(v) {
                            Some((rid, tool, input)) => ReaderAction::Dispatch {
                                request_id: rid,
                                tool_name: tool,
                                input,
                            },
                            None => ReaderAction::IgnoreControl,
                        }
                    } else {
                        ReaderAction::IgnoreControl
                    }
                } else {
                    proof {
                        assert(jfield_str(json_view(*v), "type"@) == Some(t@));
                    }
                    match parse_message(v) {
                        Ok(m) => ReaderAction::Emit(m),
                        Err(e) => ReaderAction::Fatal(e),
                    }
                }
            },
            None => {
                proof {
                    assert(jfield_str(json_view(*v), "type"@) is None);
                }
                match parse_message(v) {
                    Ok(m) => ReaderAction::Emit(m),
                    Err(e) => ReaderAction::Fatal(e),
                }
            },
        }
    }
}

// ---------------------------------------------------------------------------
// Outbound envelopes
// ---------------------------------------------------------------------------

/// The control-request envelope for a correlation id and payload.
pub open spec fn spec_control_envelope(rid: Seq<char>, payload: JsonV) -> JsonV {
    JsonV::Obj(
        Map::<Seq<char>, JsonV>::empty().insert("type"@, JsonV::Str("control_request"@)).insert(
            "request_id"@,
            JsonV::Str(rid),
        ).insert("request"@, payload),
    )
}

/// Serialize the control-request envelope for one outbound request.
pub fn control_request_line(request_id: &str, payload: serde_json::Value) -> (line: String)
    ensures
        line@ == json_text(spec_control_envelope(request_id@, json_view(payload))),
{
    let mut v = json_object_new();
    json_insert(&mut v, "type", json_string("control_request"));
    json_insert(&mut v, "request_id", json_string(request_id));
    json_insert(&mut v, "request", payload);
    json_to_text(&v)
}

/// The payload of an interrupt request.
pub open spec fn spec_interrupt_payload() -> JsonV {
    JsonV::Obj(Map::<Seq<char>, JsonV>::empty().insert("subtype"@, JsonV::Str("interrupt"@)))
}

/// Build the payload of an interrupt request.
pub fn interrupt_payload() -> (v: serde_json::Value)
    ensures
        json_view(v) == spec_interrupt_payload(),
{
    let mut v = json_object_new();
    json_insert(&mut v, "subtype", json_string("interrupt"));
    v
}

/// The payload of a permission-mode change.
pub open spec fn spec_set_permission_mode_payload(mode: Seq<char>) -> JsonV {
    JsonV::Obj(
        Map::<Seq<char>, JsonV>::empty().insert(
            "subtype"@,
            JsonV::Str("set_permission_mode"@),
        ).insert("mode"@, JsonV::Str(mode)),
    )
}

/// Build the payload of a permission-mode change.
pub fn set_permission_mode_payload(mode: &str) -> (v: serde_json::Value)
    ensures
        json_view(v) == spec_set_permission_mode_payload(mode@),
{
    let mut v = json_object_new();
    json_insert(&mut v, "subtype", json_string("set_permission_mode"));
    json_insert(&mut v, "mode", json_string(mode));
    v
}

/// The payload of a model change; a missing model is sent as null.
pub open spec fn spec_set_model_payload(model: Option<Seq<char>>) -> JsonV {
    JsonV::Obj(
        Map::<Seq<char>, JsonV>::empty().insert("subtype"@, JsonV::Str("set_model"@)).insert(
            "model"@,
            match model {
                Some(m) => JsonV::Str(m),
                None => JsonV::Null,
            },
        ),
    )
}

/// Build the payload of a model change.
pub fn set_model_payload(model: Option<&str>) -> (v: serde_json::Value)
    ensures
        json_view(v) == spec_set_model_payload(
            match model {
                Some(m) => Some(m@),
                None => None,
            },
        ),
{
    let mut v = json_object_new();
    json_insert(&mut v, "subtype", json_string("set_model"));
    match model {
        Some(m) => {
            json_insert(&mut v, "model", json_string(m));
        },
        None => {
            json_insert(&mut v, "model", json_null_value());
        },
    }
    v
}

/// The payload of the initialization handshake; missing hook configuration
/// is sent as null.
pub open spec fn spec_initialize_payload(hooks: Option<JsonV>) -> JsonV {
    JsonV::Obj(
        Map::<Seq<char>, JsonV>::empty().insert("subtype"@, JsonV::Str("initialize"@)).insert(
            "hooks"@,
            match hooks {
                Some(h) => h,
                None => JsonV::Null,
            },
        ),
    )
}

/// Build the payload of the initialization handshake.
pub fn initialize_payload(hooks: Option<serde_json::Value>) -> (v: serde_json::Value)
    ensures
        json_view(v) == spec_initialize_payload(
            match hooks {
                Some(h) => Some(json_view(h)),
                None => None,
            },
        ),
{
    let mut v = json_object_new();
    json_insert(&mut v, "subtype", json_string("initialize"));
    match hooks {
        Some(h) => {
            json_insert(&mut v, "hooks", h);
        },
        None => {
            json_insert(&mut v, "hooks", json_null_value());
        },
    }
    v
}

/// The envelope of one user prompt, as the interactive session writes it.
pub open spec fn spec_user_message(prompt: Seq<char>, session: Seq<char>) -> JsonV {
    JsonV::Obj(
        Map::<Seq<char>, JsonV>::empty().insert("type"@, JsonV::Str("user"@)).insert(
            "message"@,
            JsonV::Obj(
                Map::<Seq<char>, JsonV>::empty().insert("role"@, JsonV::Str("user"@)).insert(
                    "content"@,
                    JsonV::Str(prompt),
                ),
            ),
        ).insert("parent_tool_use_id"@, JsonV::Null).insert("session_id"@, JsonV::Str(session)),
    )
}

/// Serialize one user prompt for the child process.
pub fn user_message_line(prompt: &str, session_id: &str) -> (line: String)
    ensures
        line@ == json_text(spec_user_message(prompt@, session_id@)),
{
    let mut message = json_object_new();
    json_insert(&mut message, "role", json_string("user"));
    json_insert(&mut message, "content", json_string(prompt));
    let mut v = json_object_new();
    json_insert(&mut v, "type", json_string("user"));
    json_insert(&mut v, "message", message);
    json_insert(&mut v, "parent_tool_use_id", json_null_value());
    json_insert(&mut v, "session_id", json_string(session_id));
    json_to_text(&v)
}

/// The views of the entries of an updated-input list.
pub open spec fn pairs_view(ps: Seq<(String, serde_json::Value)>) -> Seq<(Seq<char>, JsonV)> {
    ps.map_values(|p: (String, serde_json::Value)| (p.0@, json_view(p.1)))
}

/// The object holding the given members; a later duplicate key wins.
pub open spec fn pairs_map(ps: Seq<(Seq<char>, JsonV)>) -> Map<Seq<char>, JsonV>
    decreases ps.len(),
{
    if ps.len() == 0 {
        Map::<Seq<char>, JsonV>::empty()
    } else {
        pairs_map(ps.drop_last()).insert(ps.last().0, ps.last().1)
    }
}

/// The reply data for a permission decision: `{"allow": true}` with the
/// updated input when one was given, or `{"allow": false, "reason": ...}`.
pub open spec fn spec_permission_data(r: PermissionResult) -> JsonV {
    match r {
        PermissionResult::Allow { updated_input, .. } => match updated_input {
            Some(ps) => JsonV::Obj(
                Map::<Seq<char>, JsonV>::empty().insert("allow"@, JsonV::Bool(true)).insert(
                    "input"@,
                    JsonV::Obj(pairs_map(pairs_view(ps@))),
                ),
            ),
            None => JsonV::Obj(
                Map::<Seq<char>, JsonV>::empty().insert("allow"@, JsonV::Bool(true)),
            ),
        },
        PermissionResult::Deny { message, .. } => JsonV::Obj(
            Map::<Seq<char>, JsonV>::empty().insert("allow"@, JsonV::Bool(false)).insert(
                "reason"@,
                JsonV::Str(message@),
            ),
        ),
    }
}

/// The success control-response envelope carrying reply data under a
/// correlation id.
pub open spec fn spec_success_envelope(rid: Seq<char>, data: JsonV) -> JsonV {
    JsonV::Obj(
        Map::<Seq<char>, JsonV>::empty().insert("type"@, JsonV::Str("control_response"@)).insert(
            "response"@,
            JsonV::Obj(
                Map::<Seq<char>, JsonV>::empty().insert("subtype"@, JsonV::Str("success"@)).insert(
                    "request_id"@,
                    JsonV::Str(rid),
                ).insert("response"@, data),
            ),
        ),
    )
}

/// The error control-response envelope under a correlation id.
pub open spec fn spec_error_envelope(rid: Seq<char>, error: Seq<char>) -> JsonV {
    JsonV::Obj(
        Map::<Seq<char>, JsonV>::empty().insert("type"@, JsonV::Str("control_response"@)).insert(
            "response"@,
            JsonV::Obj(
                Map::<Seq<char>, JsonV>::empty().insert("subtype"@, JsonV::Str("error"@)).insert(
                    "request_id"@,
                    JsonV::Str(rid),
                ).insert("error"@, JsonV::Str(error)),
            ),
        ),
    )
}

/// Serialize the reply to a permission check, under the same correlation
/// id the request carried.
pub fn permission_response_line(request_id: &str, result: &PermissionResult) -> (line: String)
    ensures
        line@ == json_text(spec_success_envelope(request_id@, spec_permission_data(*result))),
{
    let data = match result {
        PermissionResult::Allow { updated_input, .. } => {
            let mut d = json_object_new();
            json_insert(&mut d, "allow", json_bool_value(true));
            match updated_input {
                Some(ps) => {
                    let mut input = json_object_new();
                    let n = ps.len();
                    let mut i: usize = 0;
                    while i < n
                        invariant
                            n == ps@.len(),
                            i <= n,
                            json_view(d) == JsonV::Obj(
                                Map::<Seq<char>, JsonV>::empty().insert("allow"@, JsonV::Bool(true)),
                            ),
                            json_view(input) == JsonV::Obj(pairs_map(pairs_view(ps@).take(i as int))),
                        decreases n - i,
                    {
                        json_insert(&mut input, ps[i].0.as_str(), ps[i].1.clone());
                        proof {
                            assert(pairs_view(ps@).take(i + 1).drop_last() =~= pairs_view(
                                ps@,
                            ).take(i as int));
                            assert(pairs_view(ps@).take(i + 1).last() == (
                                ps@[i as int].0@,
                                json_view(ps@[i as int].1),
                            ));
                        }
                        i += 1;
                    }
                    proof {
                        assert(pairs_view(ps@).take(n as int) =~= pairs_view(ps@));
                    }
                    json_insert(&mut d, "input", input);
                },
                None => {},
            }
            d
        },
        PermissionResult::Deny { message, .. } => {
            let mut d = json_object_new();
            json_insert(&mut d, "allow", json_bool_value(false));
            json_insert(&mut d, "reason", json_string(message.as_str()));
            d
        },
    };
    let mut response = json_object_new();
    json_insert(&mut response, "subtype", json_string("success"));
    json_insert(&mut response, "request_id", json_string(request_id));
    json_insert(&mut response, "response", data);
    let mut v = json_object_new();
    json_insert(&mut v, "type", json_string("control_response"));
    json_insert(&mut v, "response", response);
    json_to_text(&v)
}

/// Serialize the error reply to a permission check whose callback failed.
pub fn error_response_line(request_id: &str, error: &str) -> (line: String)
    ensures
        line@ == json_text(spec_error_envelope(request_id@, error@)),
{
    let mut response = json_object_new();
    json_insert(&mut response, "subtype", json_string("error"));
    json_insert(&mut response, "request_id", json_string(request_id));
    json_insert(&mut response, "error", json_string(error));
    let mut v = json_object_new();
    json_insert(&mut v, "type", json_string("control_response"));
    json_insert(&mut v, "response", response);
    json_to_text(&v)
}

// ---------------------------------------------------------------------------
// Laws of the reader
// ---------------------------------------------------------------------------

/// Whether a value is a well-formed plain message: not control traffic,
/// and accepted by the message parser.
pub open spec fn is_plain_ok(j: JsonV) -> bool {
    &&& jfield_str(j, "type"@) != Some("control_response"@)
    &&& jfield_str(j, "type"@) != Some("control_request"@)
    &&& spec_parse_message(j) is Some
}

/// The pending table after the reader handles a sequence of values.
pub open spec fn spec_run_tbl(tbl: TableV, js: Seq<JsonV>) -> TableV
    decreases js.len(),
{
    if js.len() == 0 {
        tbl
    } else {
        spec_run_tbl(spec_step_tbl(tbl, js[0]), js.drop_first())
    }
}

/// The messages the reader emits while handling a sequence of values.
pub open spec fn spec_run_emits(has_cb: bool, tbl: TableV, js: Seq<JsonV>) -> Seq<MessageV>
    decreases js.len(),
{
    if js.len() == 0 {
        Seq::empty()
    } else {
        let head = spec_step_act(has_cb, tbl, js[0]);
        let rest = spec_run_emits(has_cb, spec_step_tbl(tbl, js[0]), js.drop_first());
        match head {
            ReaderActionV::Emit(m) => seq![m] + rest,
            ReaderActionV::Fatal => Seq::empty(),
            _ => rest,
        }
    }
}

/// For well-formed plain messages received in order, the reader emits
/// exactly their parsed forms, in the same order, unaltered, whatever the
/// pending table holds.
pub proof fn lemma_plain_messages_in_order(has_cb: bool, tbl: TableV, js: Seq<JsonV>)
    requires
        forall|i: int| 0 <= i < js.len() ==> is_plain_ok(#[trigger] js[i]),
    ensures
        spec_run_emits(has_cb, tbl, js) == js.map_values(
            |j: JsonV| spec_parse_message(j)->Some_0,
        ),
    decreases js.len(),
{
    let f = |j: JsonV| spec_parse_message(j)->Some_0;
    if js.len() == 0 {
        assert(spec_run_emits(has_cb, tbl, js) =~= js.map_values(f));
    } else {
        assert(is_plain_ok(js[0]));
        assert(spec_step_tbl(tbl, js[0]) == tbl);
        lemma_plain_messages_in_order(has_cb, tbl, js.drop_first());
        assert(forall|i: int|
            0 <= i < js.drop_first().len() ==> js.drop_first()[i] == #[trigger] js[i + 1]);
        assert(spec_run_emits(has_cb, tbl, js) =~= js.map_values(f));
    }
}

/// A control response whose correlation id matches no pending request is
/// dropped: no pending request changes, and nothing reaches the message
/// stream.
pub proof fn lemma_unmatched_response_dropped(has_cb: bool, tbl: TableV, j: JsonV)
    requires
        jfield_str(j, "type"@) == Some("control_response"@),
        match spec_ctrl_response(j) {
            Some(resp) => !has_pending(tbl, resp_rid(resp)),
            None => true,
        },
    ensures
        spec_step_act(has_cb, tbl, j) is DropResponse,
        spec_step_tbl(tbl, j) == tbl,
{
}

/// For every issued control request, fulfilment and timeout exclude each
/// other: each is delivered only from a pending slot, and each leaves the
/// slot no longer pending, so no later step can deliver the other — never
/// both, and, once the slot is resolved, never again.
pub proof fn lemma_resolution_exclusive(tbl: TableV, rid: Seq<char>)
    ensures
        !has_pending(spec_fulfilled(tbl, rid), rid),
        !has_pending(spec_timed_out(tbl, rid), rid),
{
    assert forall|i: int|
        0 <= i < spec_fulfilled(tbl, rid).len() && (#[trigger] spec_fulfilled(tbl, rid)[i]).0
        == rid implies !(spec_fulfilled(tbl, rid)[i].1 is Pending) by {}
    assert forall|i: int|
        0 <= i < spec_timed_out(tbl, rid).len() && (#[trigger] spec_timed_out(tbl, rid)[i]).0
        == rid implies !(spec_timed_out(tbl, rid)[i].1 is Pending) by {}
}

/// Correlation ids never collide: any two slots of one engine carry
/// distinct ids, however many requests were issued.
pub proof fn lemma_correlation_ids_distinct(q: Query)
    requires
        q.wf(),
    ensures
        forall|i: int, j: int|
            0 <= i < q.table().len() && 0 <= j < q.table().len() && i != j ==> (
            #[trigger] q.table()[i]).0 != (#[trigger] q.table()[j]).0,
{
    assert forall|i: int, j: int|
        0 <= i < q.table().len() && 0 <= j < q.table().len() && i != j implies (
    #[trigger] q.table()[i]).0 != (#[trigger] q.table()[j]).0 by {
        if q.table()[i].0 == q.table()[j].0 {
            lemma_req_id_injective(i + 1, j + 1);
        }
    }
}

/// A resolved request stays resolved: once no slot under `rid` is
/// pending — because its response was delivered or its timeout was
/// reported — no later value the reader handles can make one pending
/// again, so no second resolution can ever be delivered.
pub proof fn lemma_resolved_stays_resolved(tbl: TableV, rid: Seq<char>, j: JsonV)
    requires
        !has_pending(tbl, rid),
    ensures
        !has_pending(spec_step_tbl(tbl, j), rid),
        !(spec_step_act(true, tbl, j) matches ReaderActionV::Deliver { request_id, .. }
            && request_id == rid),
        !(spec_step_act(false, tbl, j) matches ReaderActionV::Deliver { request_id, .. }
            && request_id == rid),
{
    let stepped = spec_step_tbl(tbl, j);
    assert forall|i: int|
        0 <= i < stepped.len() && (#[trigger] stepped[i]).0 == rid implies !(stepped[i].1
        is Pending) by {
        assert(tbl[i].0 == rid ==> !(tbl[i].1 is Pending));
    }
}

/// A malformed control envelope — missing id, unknown subtype, wrong field
/// shapes — never terminates the message stream and never emits a
/// message; only a malformed plain message is fatal.
pub proof fn lemma_malformed_control_not_fatal(has_cb: bool, tbl: TableV, j: JsonV)
    requires
        jfield_str(j, "type"@) == Some("control_response"@) || jfield_str(j, "type"@) == Some(
            "control_request"@,
        ),
    ensures
        !(spec_step_act(has_cb, tbl, j) is Fatal),
        !(spec_step_act(has_cb, tbl, j) is Emit),
{
}

} // verus!
