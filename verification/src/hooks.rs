//! Registries of caller-supplied callbacks and their pattern-matching
//! dispatch.
//!
//! The callback functions themselves are asynchronous values owned by the
//! unverified runtime; the registries here own their identities, their
//! registration order and the matching rules, which is everything the
//! protocol depends on.

use vstd::prelude::*;
use vstd::string::StringExecFns;
use crate::json::{
    json_array_value, json_insert, json_object_new, json_string, json_view, JsonV,
};
use crate::query::pairs_map;
use crate::strutil::{lemma_dec_injective, spec_dec, str_eq, u64_to_dec};

verus! {

broadcast use vstd::seq::Seq::group_seq_extra;

/// The identifier assigned to the `n`-th registered callback.
pub open spec fn hook_id_seq(n: int) -> Seq<char> {
    "hook_"@ + spec_dec(n as nat)
}

/// Distinct registration numbers give distinct identifiers.
pub proof fn lemma_hook_id_injective(a: int, b: int)
    requires
        a >= 0,
        b >= 0,
        hook_id_seq(a) == hook_id_seq(b),
    ensures
        a == b,
{
    let p = "hook_"@;
    let da = spec_dec(a as nat);
    let db = spec_dec(b as nat);
    assert(da =~= (p + da).subrange(p.len() as int, (p + da).len() as int));
    assert(db =~= (p + db).subrange(p.len() as int, (p + db).len() as int));
    assert(da == db);
    lemma_dec_injective(a as nat, b as nat);
}

/// Whether an identifier was issued by one of the first `next`
/// registrations.
pub open spec fn issued(next: int, s: Seq<char>) -> bool {
    exists|m: int| 0 <= m < next && s == #[trigger] hook_id_seq(m)
}

/// An issued identifier stays issued as the counter grows.
pub proof fn lemma_issued_widen(next1: int, next2: int, s: Seq<char>)
    requires
        issued(next1, s),
        next1 <= next2,
    ensures
        issued(next2, s),
{
    let m = choose|m: int| 0 <= m < next1 && s == #[trigger] hook_id_seq(m);
    assert(0 <= m < next2 && s == hook_id_seq(m));
}

/// An issued identifier differs from the one the counter will give next.
pub proof fn lemma_issued_fresh(next: int, s: Seq<char>)
    requires
        issued(next, s),
        next >= 0,
    ensures
        s != hook_id_seq(next),
{
    let m = choose|m: int| 0 <= m < next && s == #[trigger] hook_id_seq(m);
    if s == hook_id_seq(next) {
        lemma_hook_id_injective(m, next);
    }
}

/// Every registered identifier of a well-formed registry is issued.
proof fn lemma_registry_issued(r: HookRegistry, i: int)
    requires
        r.wf(),
        0 <= i < r.ids().len(),
    ensures
        issued(r.next_id as int, r.ids()[i]),
{
}

/// Stores the identities of registered hook callbacks.
///
/// Identifiers are assigned in registration order and never reused within
/// one registry instance.
pub struct HookRegistry {
    pub callback_ids: Vec<String>,
    pub next_id: u64,
}

impl HookRegistry {
    /// The registered identifiers, in registration order.
    pub open spec fn ids(&self) -> Seq<Seq<char>> {
        self.callback_ids@.map_values(|s: String| s@)
    }

    /// Every identifier stems from an earlier registration number — so no
    /// registered identifier can collide with a future one — and no
    /// identifier is registered twice.
    pub open spec fn wf(&self) -> bool {
        &&& forall|i: int|
            0 <= i < self.ids().len() ==> issued(self.next_id as int, #[trigger] self.ids()[i])
        &&& forall|i: int, j: int|
            0 <= i < j < self.ids().len() ==> #[trigger] self.ids()[i] != #[trigger] self.ids()[j]
    }

    /// A fresh, empty registry.
    pub fn new() -> (r: HookRegistry)
        ensures
            r.wf(),
            r.ids() == Seq::<Seq<char>>::empty(),
            r.next_id == 0,
    {
        let r = HookRegistry { callback_ids: Vec::new(), next_id: 0 };
        proof {
            assert(r.ids() =~= Seq::<Seq<char>>::empty());
        }
        r
    }

    /// Register the next callback and return its fresh identifier, which
    /// differs from every identifier handed out before.
    pub fn register(&mut self) -> (id: String)
        requires
            old(self).wf(),
            old(self).next_id < 0xffff_ffff_ffff_ffff,
        ensures
            final(self).wf(),
            id@ == hook_id_seq(old(self).next_id as int),
            final(self).next_id == old(self).next_id + 1,
            final(self).ids() == old(self).ids().push(id@),
            forall|i: int| 0 <= i < old(self).ids().len() ==> old(self).ids()[i] != id@,
    {
        let mut id: String = "hook_".to_owned();
        let d = u64_to_dec(self.next_id);
        id.append(d.as_str());
        self.callback_ids.push(id.clone());
        self.next_id = self.next_id + 1;
        proof {
            assert(self.ids() =~= old(self).ids().push(id@));
            assert forall|i: int| 0 <= i < old(self).ids().len() implies old(self).ids()[i]
                != id@ by {
                lemma_issued_fresh(old(self).next_id as int, old(self).ids()[i]);
            }
            assert forall|i: int| 0 <= i < self.ids().len() implies issued(
                self.next_id as int,
                #[trigger] self.ids()[i],
            ) by {
                if i < old(self).ids().len() {
                    assert(self.ids()[i] == old(self).ids()[i]);
                    lemma_issued_widen(
                        old(self).next_id as int,
                        self.next_id as int,
                        old(self).ids()[i],
                    );
                } else {
                    let m: int = old(self).next_id as int;
                    assert(self.ids()[i] == hook_id_seq(m));
                    assert(0 <= m && m < self.next_id as int && self.ids()[i] == hook_id_seq(m));
                }
            }
            assert forall|i: int, j: int| 0 <= i < j < self.ids().len() implies #[trigger] self
                .ids()[i] != #[trigger] self.ids()[j] by {
                if j < old(self).ids().len() {
                    assert(old(self).ids()[i] != old(self).ids()[j]);
                } else {
                    assert(self.ids()[j] == id@);
                    assert(self.ids()[i] == old(self).ids()[i]);
                    assert(old(self).ids()[i] != id@);
                }
            }
        }
        id
    }

    /// Whether an identifier is registered.
    pub fn contains(&self, id: &str) -> (r: bool)
        ensures
            r == self.ids().contains(id@),
    {
        let n = self.callback_ids.len();
        let mut i: usize = 0;
        while i < n
            invariant
                n == self.callback_ids@.len(),
                i <= n,
                forall|k: int| 0 <= k < i ==> self.ids()[k] != id@,
            decreases n - i,
        {
            if str_eq(self.callback_ids[i].as_str(), id) {
                assert(self.ids()[i as int] == id@);
                return true;
            }
            i += 1;
        }
        false
    }

    /// Remove an identifier; reports whether it was registered.  A removed
    /// identifier is gone afterwards, since no identifier is ever
    /// registered twice.
    pub fn unregister(&mut self, id: &str) -> (removed: bool)
        requires
            old(self).wf(),
        ensures
            final(self).wf(),
            removed == old(self).ids().contains(id@),
            final(self).next_id == old(self).next_id,
            !removed ==> final(self).ids() == old(self).ids(),
            removed ==> final(self).ids().len() == old(self).ids().len() - 1,
            removed ==> exists|k: int|
                0 <= k < old(self).ids().len() && old(self).ids()[k] == id@ && final(self).ids()
                    == old(self).ids().remove(k),
            !final(self).ids().contains(id@),
    {
        let n = self.callback_ids.len();
        let mut i: usize = 0;
        while i < n
            invariant
                *self == *old(self),
                old(self).wf(),
                n == self.callback_ids@.len(),
                i <= n,
                forall|k: int| 0 <= k < i ==> self.ids()[k] != id@,
            decreases n - i,
        {
            if str_eq(self.callback_ids[i].as_str(), id) {
                proof {
                    assert(old(self).ids()[i as int] == id@);
                }
                self.callback_ids.remove(i);
                proof {
                    assert(self.ids() =~= old(self).ids().remove(i as int));
                    assert forall|k: int| 0 <= k < self.ids().len() implies issued(
                        self.next_id as int,
                        #[trigger] self.ids()[k],
                    ) by {
                        let src: int = if k < i as int {
                            k
                        } else {
                            k + 1
                        };
                        assert(0 <= src && src < old(self).ids().len());
                        assert(self.ids()[k] == old(self).ids()[src]);
                        lemma_registry_issued(*old(self), src);
                        lemma_issued_widen(
                            old(self).next_id as int,
                            self.next_id as int,
                            old(self).ids()[src],
                        );
                    }
                    assert forall|p: int, q: int| 0 <= p < q < self.ids().len() implies #[trigger]
                        self.ids()[p] != #[trigger] self.ids()[q] by {
                        let sp: int = if p < i as int {
                            p
                        } else {
                            p + 1
                        };
                        let sq: int = if q < i as int {
                            q
                        } else {
                            q + 1
                        };
                        assert(self.ids()[p] == old(self).ids()[sp]);
                        assert(self.ids()[q] == old(self).ids()[sq]);
                        assert(old(self).ids()[sp] != old(self).ids()[sq]);
                    }
                    assert forall|k: int| 0 <= k < self.ids().len() implies #[trigger] self.ids()[
                        k] != id@ by {
                        let src: int = if k < i as int {
                            k
                        } else {
                            k + 1
                        };
                        assert(self.ids()[k] == old(self).ids()[src]);
                        if src != i as int && old(self).ids()[src] == id@ {
                            assert(old(self).ids()[i as int] == id@);
                            if src < i as int {
                                assert(old(self).ids()[src] != old(self).ids()[i as int]);
                            } else {
                                assert(old(self).ids()[i as int] != old(self).ids()[src]);
                            }
                        }
                    }
                    assert(!self.ids().contains(id@));
                }
                return true;
            }
            i += 1;
        }
        proof {
            assert(forall|k: int| 0 <= k < self.ids().len() ==> #[trigger] self.ids()[k] != id@);
            assert(!self.ids().contains(id@));
        }
        false
    }

    /// The number of registered callbacks.
    pub fn len(&self) -> (r: usize)
        ensures
            r == self.ids().len(),
    {
        self.callback_ids.len()
    }

    /// Whether nothing is registered.
    pub fn is_empty(&self) -> (r: bool)
        ensures
            r == (self.ids().len() == 0),
    {
        self.callback_ids.is_empty()
    }
}

/// A tool-name pattern together with the callbacks it selects.
#[derive(Debug, Clone)]
pub struct HookMatcherConfig {
    /// The pattern: `"*"` matches any tool name, anything else matches by
    /// exact equality.
    pub matcher: String,
    /// Identifiers of the callbacks to run when matched, in order.
    pub callback_ids: Vec<String>,
}

pub struct HookMatcherConfigV {
    pub matcher: Seq<char>,
    pub callback_ids: Seq<Seq<char>>,
}

impl View for HookMatcherConfig {
    type V = HookMatcherConfigV;

    open spec fn view(&self) -> HookMatcherConfigV {
        HookMatcherConfigV {
            matcher: self.matcher@,
            callback_ids: self.callback_ids@.map_values(|s: String| s@),
        }
    }
}

/// Whether a pattern selects a tool name.
pub open spec fn spec_matches(pattern: Seq<char>, tool: Seq<char>) -> bool {
    pattern == "*"@ || pattern == tool
}

impl HookMatcherConfig {
    /// A new matcher configuration.
    pub fn new(matcher: String, callback_ids: Vec<String>) -> (r: HookMatcherConfig)
        ensures
            r.matcher == matcher,
            r.callback_ids == callback_ids,
    {
        HookMatcherConfig { matcher, callback_ids }
    }

    /// Whether this matcher selects the given tool name.
    pub fn matches(&self, tool_name: &str) -> (r: bool)
        ensures
            r == spec_matches(self.matcher@, tool_name@),
    {
        if str_eq(self.matcher.as_str(), "*") {
            return true;
        }
        str_eq(self.matcher.as_str(), tool_name)
    }
}

/// The callback identifiers selected by a matcher list for one tool name,
/// in registration order.
pub open spec fn spec_matching_ids(ms: Seq<HookMatcherConfigV>, tool: Seq<char>) -> Seq<Seq<char>>
    decreases ms.len(),
{
    if ms.len() == 0 {
        Seq::empty()
    } else {
        spec_matching_ids(ms.drop_last(), tool) + if spec_matches(ms.last().matcher, tool) {
            ms.last().callback_ids
        } else {
            Seq::empty()
        }
    }
}

/// The views of a matcher list.
pub open spec fn matchers_view(ms: Seq<HookMatcherConfig>) -> Seq<HookMatcherConfigV> {
    ms.map_values(|m: HookMatcherConfig| m@)
}

/// First index of an event name in the event table.
pub open spec fn spec_event_index(
    events: Seq<(Seq<char>, Seq<HookMatcherConfigV>)>,
    event: Seq<char>,
) -> Option<int> {
    if exists|i: int| 0 <= i < events.len() && (#[trigger] events[i]).0 == event {
        Some(choose|i: int| 0 <= i < events.len() && (#[trigger] events[i]).0 == event)
    } else {
        None
    }
}

/// Two different rows of a well-formed event table name different events.
proof fn lemma_events_distinct(m: HookManager, i: int, j: int)
    requires
        m.wf(),
        0 <= i < m.events().len(),
        0 <= j < m.events().len(),
        i != j,
    ensures
        m.events()[i].0 != m.events()[j].0,
{
}

/// Manages hook matchers per event name, with the registry of callback
/// identities.
pub struct HookManager {
    pub registry: HookRegistry,
    pub matchers: Vec<(String, Vec<HookMatcherConfig>)>,
}

impl HookManager {
    /// The event table: for each event name, its matchers in the order
    /// added.
    pub open spec fn events(&self) -> Seq<(Seq<char>, Seq<HookMatcherConfigV>)> {
        self.matchers@.map_values(
            |e: (String, Vec<HookMatcherConfig>)| (e.0@, matchers_view(e.1@)),
        )
    }

    /// Event names are distinct, and the registry is well formed.
    pub open spec fn wf(&self) -> bool {
        &&& self.registry.wf()
        &&& forall|i: int, j: int|
            0 <= i < j < self.events().len() ==> (#[trigger] self.events()[i]).0 != (
            #[trigger] self.events()[j]).0
    }

    /// A fresh manager with no callbacks and no matchers.
    pub fn new() -> (r: HookManager)
        ensures
            r.wf(),
            r.events() == Seq::<(Seq<char>, Seq<HookMatcherConfigV>)>::empty(),
            r.registry.ids() == Seq::<Seq<char>>::empty(),
    {
        let r = HookManager { registry: HookRegistry::new(), matchers: Vec::new() };
        proof {
            assert(r.events() =~= Seq::<(Seq<char>, Seq<HookMatcherConfigV>)>::empty());
        }
        r
    }

    /// Register a callback identity and return its identifier.
    pub fn register_callback(&mut self) -> (id: String)
        requires
            old(self).wf(),
            old(self).registry.next_id < 0xffff_ffff_ffff_ffff,
        ensures
            final(self).wf(),
            final(self).events() == old(self).events(),
            id@ == hook_id_seq(old(self).registry.next_id as int),
            final(self).registry.ids() == old(self).registry.ids().push(id@),
    {
        let id = self.registry.register();
        proof {
            assert(self.events() =~= old(self).events());
        }
        id
    }

    /// Add a matcher under an event name, keeping the order of additions.
    pub fn add_matcher(&mut self, event: String, matcher: HookMatcherConfig)
        requires
            old(self).wf(),
        ensures
            final(self).wf(),
            final(self).registry == old(self).registry,
            match spec_event_index(old(self).events(), event@) {
                Some(k) => {
                    &&& final(self).events().len() == old(self).events().len()
                    &&& forall|i: int|
                        0 <= i < old(self).events().len() && i != k ==> final(self).events()[i]
                            == old(self).events()[i]
                    &&& final(self).events()[k].0 == event@
                    &&& final(self).events()[k].1 == old(self).events()[k].1.push(matcher@)
                },
                None => final(self).events() == old(self).events().push((event@, seq![matcher@])),
            },
    {
        let n = self.matchers.len();
        let mut i: usize = 0;
        while i < n
            invariant
                *self == *old(self),
                old(self).wf(),
                n == self.matchers@.len(),
                i <= n,
                forall|k: int| 0 <= k < i ==> (#[trigger] self.events()[k]).0 != event@,
            decreases n - i,
        {
            if str_eq(self.matchers[i].0.as_str(), event.as_str()) {
                proof {
                    assert(old(self).events()[i as int].0 == event@);
                }
                self.matchers[i].1.push(matcher);
                proof {
                    let k = spec_event_index(old(self).events(), event@)->Some_0;
                    assert(old(self).events()[k].0 == event@);
                    if k != i as int {
                        if k < i as int {
                            assert(old(self).events()[k].0 != event@);
                        } else {
                            lemma_events_distinct(*old(self), i as int, k);
                        }
                        assert(false);
                    }
                    assert(self.events()[i as int].1 =~= old(self).events()[i as int].1.push(
                        matcher@,
                    ));
                    assert(forall|q: int|
                        0 <= q < old(self).events().len() && q != i as int ==> self.events()[q]
                            == old(self).events()[q]);
                }
                return ;
            }
            i += 1;
        }
        self.matchers.push((event, vec![matcher]));
        proof {
            assert(spec_event_index(old(self).events(), event@) is None);
            assert(self.events() =~~= old(self).events().push((event@, seq![matcher@])));
        }
    }

    /// The matchers registered under an event name.
    pub fn get_matchers(&self, event: &str) -> (r: Option<&Vec<HookMatcherConfig>>)
        requires
            self.wf(),
        ensures
            match r {
                Some(ms) => {
                    &&& spec_event_index(self.events(), event@) matches Some(k) && matchers_view(
                        ms@,
                    ) == self.events()[k].1
                },
                None => spec_event_index(self.events(), event@) is None,
            },
    {
        let n = self.matchers.len();
        let mut i: usize = 0;
        while i < n
            invariant
                self.wf(),
                n == self.matchers@.len(),
                i <= n,
                forall|k: int| 0 <= k < i ==> (#[trigger] self.events()[k]).0 != event@,
            decreases n - i,
        {
            if str_eq(self.matchers[i].0.as_str(), event) {
                proof {
                    assert(self.events()[i as int].0 == event@);
                    let k = spec_event_index(self.events(), event@)->Some_0;
                    assert(self.events()[k].0 == event@);
                    if k != i as int {
                        if k < i as int {
                            assert(self.events()[k].0 != event@);
                        } else {
                            lemma_events_distinct(*self, i as int, k);
                        }
                        assert(false);
                    }
                    assert(matchers_view(self.matchers@[i as int].1@) == self.events()[i as int].1);
                }
                return Some(&self.matchers[i].1);
            }
            i += 1;
        }
        None
    }

    /// The callback identifiers to run for an event and tool name, in
    /// registration order; empty when the event has no matchers.
    pub fn find_matching_callbacks(&self, event: &str, tool_name: &str) -> (r: Vec<String>)
        requires
            self.wf(),
        ensures
            r@.map_values(|s: String| s@) == match spec_event_index(self.events(), event@) {
                Some(k) => spec_matching_ids(self.events()[k].1, tool_name@),
                None => Seq::<Seq<char>>::empty(),
            },
    {
        let ms = match self.get_matchers(event) {
            Some(ms) => ms,
            None => {
                let r: Vec<String> = Vec::new();
                proof {
                    assert(r@.map_values(|s: String| s@) =~= Seq::<Seq<char>>::empty());
                }
                return r;
            },
        };
        let ghost msv = matchers_view(ms@);
        let mut out: Vec<String> = Vec::new();
        let n = ms.len();
        let mut i: usize = 0;
        proof {
            assert(out@.map_values(|s: String| s@) =~= spec_matching_ids(msv.take(0), tool_name@));
        }
        while i < n
            invariant
                n == ms@.len(),
                msv == matchers_view(ms@),
                i <= n,
                out@.map_values(|s: String| s@) == spec_matching_ids(msv.take(i as int), tool_name@),
            decreases n - i,
        {
            proof {
                assert(msv.take(i + 1).drop_last() =~= msv.take(i as int));
                assert(msv.take(i + 1).last() == msv[i as int]);
                assert(msv[i as int] == ms@[i as int]@);
            }
            if ms[i].matches(tool_name) {
                let ids = &ms[i].callback_ids;
                let m = ids.len();
                let mut k: usize = 0;
                while k < m
                    invariant
                        m == ids@.len(),
                        msv == matchers_view(ms@),
                        i < n,
                        n == ms@.len(),
                        ids == &ms@[i as int].callback_ids,
                        spec_matches(msv[i as int].matcher, tool_name@),
                        k <= m,
                        out@.map_values(|s: String| s@) == spec_matching_ids(
                            msv.take(i as int),
                            tool_name@,
                        ) + msv[i as int].callback_ids.take(k as int),
                    decreases m - k,
                {
                    out.push(ids[k].clone());
                    proof {
                        assert(msv[i as int].callback_ids[k as int] == ids@[k as int]@);
                        assert(msv[i as int].callback_ids.take(k + 1) =~= msv[
                            i as int
                        ].callback_ids.take(k as int).push(ids@[k as int]@));
                        assert(out@.map_values(|s: String| s@) =~= spec_matching_ids(
                            msv.take(i as int),
                            tool_name@,
                        ) + msv[i as int].callback_ids.take(k + 1));
                    }
                    k += 1;
                }
                proof {
                    assert(msv[i as int].callback_ids.take(m as int) =~= msv[i as int].callback_ids);
                    assert(out@.map_values(|s: String| s@) =~= spec_matching_ids(
                        msv.take(i + 1),
                        tool_name@,
                    ));
                }
            } else {
                proof {
                    assert(out@.map_values(|s: String| s@) =~= spec_matching_ids(
                        msv.take(i + 1),
                        tool_name@,
                    ));
                }
            }
            i += 1;
        }
        proof {
            assert(msv.take(n as int) =~= msv);
        }
        out
    }
}


/// The configuration entry for one matcher: its pattern and the callbacks
/// it selects.
pub open spec fn spec_matcher_config(m: HookMatcherConfigV) -> JsonV {
    JsonV::Obj(
        Map::<Seq<char>, JsonV>::empty().insert("matcher"@, JsonV::Str(m.matcher)).insert(
            "callback_ids"@,
            JsonV::Arr(m.callback_ids.map_values(|s: Seq<char>| JsonV::Str(s))),
        ),
    )
}

/// The configuration array for one event's matchers.
pub open spec fn spec_event_entry(ms: Seq<HookMatcherConfigV>) -> JsonV {
    JsonV::Arr(ms.map_values(|m: HookMatcherConfigV| spec_matcher_config(m)))
}

/// The hook configuration sent in the initialization handshake: one member
/// per event name, holding that event's matcher configurations in order.
pub open spec fn spec_init_config(events: Seq<(Seq<char>, Seq<HookMatcherConfigV>)>) -> JsonV {
    JsonV::Obj(
        pairs_map(
            events.map_values(
                |e: (Seq<char>, Seq<HookMatcherConfigV>)| (e.0, spec_event_entry(e.1)),
            ),
        ),
    )
}

impl HookManager {
    /// Build the hook configuration for the initialization handshake.
    pub fn get_initialization_config(&self) -> (v: serde_json::Value)
        ensures
            json_view(v) == spec_init_config(self.events()),
    {
        let ghost ev = self.events();
        let ghost entries = ev.map_values(
            |e: (Seq<char>, Seq<HookMatcherConfigV>)| (e.0, spec_event_entry(e.1)),
        );
        let mut cfg = json_object_new();
        let n = self.matchers.len();
        let mut i: usize = 0;
        proof {
            assert(json_view(cfg) == JsonV::Obj(pairs_map(entries.take(0))));
        }
        while i < n
            invariant
                n == self.matchers@.len(),
                ev == self.events(),
                entries == ev.map_values(
                    |e: (Seq<char>, Seq<HookMatcherConfigV>)| (e.0, spec_event_entry(e.1)),
                ),
                i <= n,
                json_view(cfg) == JsonV::Obj(pairs_map(entries.take(i as int))),
            decreases n - i,
        {
            let ms = &self.matchers[i].1;
            let ghost msv = matchers_view(ms@);
            let mut items: Vec<serde_json::Value> = Vec::new();
            let m = ms.len();
            let mut j: usize = 0;
            proof {
                let g = |m: HookMatcherConfigV| spec_matcher_config(m);
                assert(items@.map_values(|x: serde_json::Value| json_view(x)) =~= msv.map_values(
                    g,
                ).take(0));
            }
            while j < m
                invariant
                    n == self.matchers@.len(),
                    i < n,
                    m == ms@.len(),
                    ms == &self.matchers@[i as int].1,
                    msv == matchers_view(ms@),
                    ev == self.events(),
                    entries == ev.map_values(
                        |e: (Seq<char>, Seq<HookMatcherConfigV>)| (e.0, spec_event_entry(e.1)),
                    ),
                    j <= m,
                    json_view(cfg) == JsonV::Obj(pairs_map(entries.take(i as int))),
                    items@.map_values(|x: serde_json::Value| json_view(x)) == msv.map_values(
                        |m: HookMatcherConfigV| spec_matcher_config(m),
                    ).take(j as int),
                decreases m - j,
            {
                let mc = &ms[j];
                let mut ids: Vec<serde_json::Value> = Vec::new();
                let p = mc.callback_ids.len();
                let mut k: usize = 0;
                proof {
                    assert(ids@.map_values(|x: serde_json::Value| json_view(x)) =~= mc@
                        .callback_ids.map_values(|s: Seq<char>| JsonV::Str(s)).take(0));
                }
                while k < p
                    invariant
                        p == mc.callback_ids@.len(),
                        k <= p,
                        ids@.map_values(|x: serde_json::Value| json_view(x)) == mc@
                            .callback_ids.map_values(|s: Seq<char>| JsonV::Str(s)).take(k as int),
                    decreases p - k,
                {
                    ids.push(json_string(mc.callback_ids[k].as_str()));
                    proof {
                        let h = |s: Seq<char>| JsonV::Str(s);
                        let full = mc@.callback_ids.map_values(h);
                        assert(mc@.callback_ids[k as int] == mc.callback_ids@[k as int]@);
                        assert(full[k as int] == JsonV::Str(mc.callback_ids@[k as int]@));
                        assert(full.take(k + 1).drop_last() =~= full.take(k as int));
                        assert(full.take(k + 1).last() == full[k as int]);
                        assert(ids@.map_values(|x: serde_json::Value| json_view(x)) =~= full.take(
                            k + 1,
                        ));
                    }
                    k += 1;
                }
                proof {
                    let h = |s: Seq<char>| JsonV::Str(s);
                    assert(mc@.callback_ids.map_values(h).take(p as int) =~= mc@.callback_ids
                        .map_values(h));
                }
                let ids_arr = json_array_value(ids);
                let mut item = json_object_new();
                json_insert(&mut item, "matcher", json_string(mc.matcher.as_str()));
                json_insert(&mut item, "callback_ids", ids_arr);
                items.push(item);
                proof {
                    let g = |m: HookMatcherConfigV| spec_matcher_config(m);
                    let full = msv.map_values(g);
                    assert(msv[j as int] == ms@[j as int]@);
                    assert(full[j as int] == spec_matcher_config(ms@[j as int]@));
                    assert(full.take(j + 1).drop_last() =~= full.take(j as int));
                    assert(full.take(j + 1).last() == full[j as int]);
                    assert(items@.map_values(|x: serde_json::Value| json_view(x)) =~= full.take(
                        j + 1,
                    ));
                }
                j += 1;
            }
            proof {
                let g = |m: HookMatcherConfigV| spec_matcher_config(m);
                assert(msv.map_values(g).take(m as int) =~= msv.map_values(g));
            }
            let entry = json_array_value(items);
            proof {
                assert(json_view(entry) == spec_event_entry(msv));
            }
            json_insert(&mut cfg, self.matchers[i].0.as_str(), entry);
            proof {
                assert(entries[i as int] == (ev[i as int].0, spec_event_entry(ev[i as int].1)));
                assert(ev[i as int] == (self.matchers@[i as int].0@, matchers_view(
                    self.matchers@[i as int].1@,
                )));
                assert(entries.take(i + 1).drop_last() =~= entries.take(i as int));
                assert(entries.take(i + 1).last() == entries[i as int]);
                assert(json_view(cfg) == JsonV::Obj(pairs_map(entries.take(i + 1))));
            }
            i += 1;
        }
        proof {
            assert(entries.take(n as int) =~= entries);
        }
        cfg
    }
}

} // verus!
