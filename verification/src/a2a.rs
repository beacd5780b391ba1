//! Agent-to-agent (A2A) service rules: cursor pagination of task
//! listings and the agent card the daemon advertises.

use vstd::prelude::*;
use vstd::string::StringExecFns;

use crate::ids::{uuid_text, uuid_to_text, TaskId};
use crate::model::{ToolInfo, ToolInfoView};
use crate::sort::{id_leq, lemma_uuid_text_less, less_text, sort_ids, sorted_ids, text_less};
use crate::store::keys_unique;
use crate::task_manager::{task_id_of, task_refs_view};
use crate::task_types::{spec_filter_matches, Task, TaskFilter, TaskView};
use crate::text::{str_chars, u64_to_decimal, decimal};

verus! {

/// The page size a request asks for: 50 by default, kept within 1..=100.
pub open spec fn effective_page_size(requested: Option<i32>) -> int {
    let n = match requested {
        Some(n) => n as int,
        None => 50,
    };
    if n < 1 { 1 } else if n > 100 { 100 } else { n }
}

/// The position of the first identifier, in `ids`, whose text sorts after
/// the cursor `token` (`ids.len()` when there is none).
pub open spec fn first_after(ids: Seq<u128>, token: Seq<char>) -> int
    decreases ids.len(),
{
    if ids.len() == 0 {
        0
    } else if text_less(token, uuid_text(ids[0])) {
        0
    } else {
        1 + first_after(ids.drop_first(), token)
    }
}

/// Where a page starts in the sorted identifiers: at the beginning without
/// a cursor, otherwise after the cursor.
pub open spec fn page_start(sorted: Seq<u128>, token: Seq<char>) -> int {
    if token.len() == 0 { 0 } else { first_after(sorted, token) }
}

/// Where a page ends in the sorted identifiers.
pub open spec fn page_end(sorted: Seq<u128>, token: Seq<char>, requested: Option<i32>) -> int {
    let e = page_start(sorted, token) + effective_page_size(requested);
    if e > sorted.len() { sorted.len() as int } else { e }
}

/// The identifiers of some tasks.
pub open spec fn task_ids<'a>(tasks: Seq<&'a Task>) -> Seq<u128> {
    tasks.map_values(|t: &'a Task| t.id.0)
}

/// One page of a task listing.
pub struct TaskPage<'a> {
    /// The tasks of the page, in identifier order.
    pub tasks: Vec<&'a Task>,
    /// The cursor for the next page; empty on the last page.
    pub next_page_token: String,
    /// How many tasks the page holds.
    pub page_size: i32,
    /// How many tasks match in all (capped at `i32::MAX`).
    pub total_size: i32,
}

/// The position of the first sorted identifier whose text follows `token`.
fn find_start(sorted: &Vec<u128>, token: &Vec<char>) -> (r: usize)
    ensures
        r == first_after(sorted@, token@),
{
    let mut i: usize = 0;
    assert(sorted@.skip(0) =~= sorted@);
    while i < sorted.len()
        invariant
            i <= sorted@.len(),
            first_after(sorted@, token@) == i + first_after(sorted@.skip(i as int), token@),
        decreases sorted.len() - i,
    {
        let text = uuid_to_text(sorted[i]);
        let chars = str_chars(text.as_str());
        if less_text(token, &chars) {
            return i;
        }
        proof {
            assert(sorted@.skip(i as int).drop_first() =~= sorted@.skip(i + 1));
        }
        i = i + 1;
    }
    i
}

/// One page of a task listing: the tasks in identifier order, starting
/// after the cursor `page_token` (from the beginning when it is empty),
/// at most the requested page size (50 by default, kept within 1..=100).
/// The next cursor is the text of the page's last identifier when more
/// tasks follow, and empty otherwise.
pub fn paginate_tasks<'a>(tasks: &Vec<&'a Task>, page_size: Option<i32>, page_token: &str) -> (r: TaskPage<'a>)
    ensures
        ({
            let sorted = sorted_ids(task_ids(tasks@));
            let start = page_start(sorted, page_token@);
            let end = page_end(sorted, page_token@, page_size);
            &&& 0 <= start <= end <= sorted.len()
            &&& r.tasks@.len() == end - start
            &&& forall|k: int| 0 <= k < r.tasks@.len() ==> (#[trigger] r.tasks@[k]).id.0 == sorted[start + k]
                && tasks@.contains(r.tasks@[k])
            &&& r.next_page_token@ == (if end < sorted.len() { uuid_text(sorted[end - 1]) } else { Seq::empty() })
            &&& r.page_size == end - start
            &&& r.total_size == (if sorted.len() > i32::MAX { i32::MAX as int } else { sorted.len() as int })
        }),
{
    let mut ids: Vec<u128> = Vec::new();
    let mut i: usize = 0;
    while i < tasks.len()
        invariant
            i <= tasks@.len(),
            ids@ == task_ids(tasks@).subrange(0, i as int),
        decreases tasks.len() - i,
    {
        ids.push(tasks[i].id.0);
        i = i + 1;
        assert(ids@ =~= task_ids(tasks@).subrange(0, i as int));
    }
    assert(ids@ =~= task_ids(tasks@));
    let sorted = sort_ids(&ids);
    proof {
        task_ids(tasks@).lemma_sort_by_ensures(crate::sort::id_leq());
        vstd::seq_lib::to_multiset_len(task_ids(tasks@));
        vstd::seq_lib::to_multiset_len(sorted@);
    }
    let n = sorted.len();
    let token = str_chars(page_token);
    let start: usize = if token.len() == 0 { 0 } else { find_start(&sorted, &token) };
    proof {
        if token@.len() > 0 {
            lemma_first_after_bound(sorted@, token@);
        }
    }
    let size: usize = match page_size {
        Some(s) => if s < 1 { 1 } else if s > 100 { 100 } else { s as usize },
        None => 50,
    };
    let end: usize = if size > n - start { n } else { start + size };
    let mut page: Vec<&'a Task> = Vec::new();
    let mut k: usize = start;
    while k < end
        invariant
            start <= k <= end <= n,
            n == sorted@.len(),
            sorted@ == sorted_ids(task_ids(tasks@)),
            page@.len() == k - start,
            forall|j: int| 0 <= j < page@.len() ==> (#[trigger] page@[j]).id.0 == sorted@[start + j]
                && tasks@.contains(page@[j]),
        decreases end - k,
    {
        let want = sorted[k];
        proof {
            lemma_sorted_member(task_ids(tasks@), k as int);
            let q = choose|q: int| 0 <= q < task_ids(tasks@).len() && task_ids(tasks@)[q] == want;
            assert(tasks@[q].id.0 == want);
        }
        let mut j: usize = 0;
        while j < tasks.len() && tasks[j].id.0 != want
            invariant
                j <= tasks@.len(),
                exists|q: int| j <= q < tasks@.len() && #[trigger] tasks@[q].id.0 == want,
            decreases tasks.len() - j,
        {
            j = j + 1;
        }
        assert(j < tasks@.len());
        let t = tasks[j];
        assert(tasks@[j as int] == t);
        page.push(t);
        k = k + 1;
    }
    let next = if end < n {
        uuid_to_text(sorted[end - 1])
    } else {
        String::new()
    };
    let total: i32 = if n > 2147483647 { 2147483647 } else { n as i32 };
    TaskPage { tasks: page, next_page_token: next, page_size: (end - start) as i32, total_size: total }
}

/// The cursor position lies within the identifiers.
proof fn lemma_first_after_bound(ids: Seq<u128>, token: Seq<char>)
    ensures
        0 <= first_after(ids, token) <= ids.len(),
    decreases ids.len(),
{
    if ids.len() > 0 {
        lemma_first_after_bound(ids.drop_first(), token);
    }
}

/// Every sorted identifier is the identifier of some task.
proof fn lemma_sorted_member(ids: Seq<u128>, k: int)
    requires
        0 <= k < sorted_ids(ids).len(),
    ensures
        ids.contains(sorted_ids(ids)[k]),
{
    ids.lemma_sort_by_ensures(crate::sort::id_leq());
    let s = sorted_ids(ids);
    assert(s.contains(s[k]));
    vstd::seq_lib::to_multiset_contains(s, s[k]);
    vstd::seq_lib::to_multiset_contains(ids, s[k]);
}

/// `first_after` is the first position whose identifier's text follows
/// the cursor.
proof fn lemma_first_after_is(ids: Seq<u128>, token: Seq<char>, i: int)
    requires
        0 <= i <= ids.len(),
        forall|j: int| 0 <= j < i ==> !text_less(token, #[trigger] uuid_text(ids[j])),
        i < ids.len() ==> text_less(token, uuid_text(ids[i])),
    ensures
        first_after(ids, token) == i,
    decreases i,
{
    if i > 0 {
        assert(!text_less(token, uuid_text(ids[0])));
        assert forall|j: int| 0 <= j < i - 1 implies !text_less(token, #[trigger] uuid_text(ids.drop_first()[j])) by {
            assert(ids.drop_first()[j] == ids[j + 1]);
        }
        lemma_first_after_is(ids.drop_first(), token, i - 1);
    }
}

/// Sorting identifiers that are all distinct gives a strictly increasing
/// sequence.
proof fn lemma_sorted_strict(ids: Seq<u128>)
    requires
        ids.no_duplicates(),
    ensures
        forall|i: int, j: int| 0 <= i < j < sorted_ids(ids).len() ==> sorted_ids(ids)[i] < sorted_ids(ids)[j],
{
    let s = sorted_ids(ids);
    ids.lemma_sort_by_ensures(id_leq());
    ids.lemma_multiset_has_no_duplicates();
    s.lemma_multiset_has_no_duplicates_conv();
    assert forall|i: int, j: int| 0 <= i < j < s.len() implies s[i] < s[j] by {
        assert(id_leq()(s[i], s[j]));
    }
}

/// Paging through a listing with the cursor visits every task once: when
/// a page is not the last, the page the returned cursor asks for starts
/// exactly where this one ended (task identifiers being distinct).
pub proof fn lemma_next_page_follows(ids: Seq<u128>, token: Seq<char>, requested: Option<i32>)
    requires
        ids.no_duplicates(),
    ensures
        ({
            let sorted = sorted_ids(ids);
            let end = page_end(sorted, token, requested);
            end < sorted.len() ==> page_start(sorted, uuid_text(sorted[end - 1])) == end
        }),
{
    let sorted = sorted_ids(ids);
    let end = page_end(sorted, token, requested);
    if token.len() > 0 {
        lemma_first_after_bound(sorted, token);
    }
    if end < sorted.len() {
        lemma_sorted_strict(ids);
        let cursor = uuid_text(sorted[end - 1]);
        assert(cursor.len() == 36);
        assert forall|j: int| 0 <= j < end implies !text_less(cursor, #[trigger] uuid_text(sorted[j])) by {
            lemma_uuid_text_less(sorted[j], sorted[end - 1]);
        }
        lemma_uuid_text_less(sorted[end - 1], sorted[end]);
        lemma_first_after_is(sorted, cursor, end);
    }
}

/// Every task a filter keeps is one of the tasks filtered.
proof fn lemma_filter_subset(s: Seq<TaskView>, pred: spec_fn(TaskView) -> bool)
    ensures
        forall|i: int| 0 <= i < s.filter(pred).len() ==> s.contains(#[trigger] s.filter(pred)[i]),
    decreases s.len(),
{
    reveal(Seq::filter);
    if s.len() > 0 {
        let init = s.drop_last();
        lemma_filter_subset(init, pred);
        let f = init.filter(pred);
        assert forall|i: int| 0 <= i < s.filter(pred).len() implies s.contains(#[trigger] s.filter(pred)[i]) by {
            if i < f.len() {
                assert(s.filter(pred)[i] == f[i]);
                let q = choose|q: int| 0 <= q < init.len() && init[q] == f[i];
                assert(s[q] == init[q]);
            } else {
                assert(s.filter(pred)[i] == s.last());
                assert(s[s.len() - 1] == s.last());
            }
        }
    }
}

/// Filtering tasks whose identifiers are distinct keeps them distinct.
proof fn lemma_filter_keys_unique(s: Seq<TaskView>, pred: spec_fn(TaskView) -> bool)
    requires
        keys_unique(s, task_id_of()),
    ensures
        keys_unique(s.filter(pred), task_id_of()),
    decreases s.len(),
{
    reveal(Seq::filter);
    if s.len() > 0 {
        let init = s.drop_last();
        assert(keys_unique(init, task_id_of())) by {
            assert forall|i: int, j: int|
                0 <= i < init.len() && 0 <= j < init.len() && i != j implies #[trigger] task_id_of()(init[i])
                != #[trigger] task_id_of()(init[j]) by {
                assert(init[i] == s[i] && init[j] == s[j]);
            }
        }
        lemma_filter_keys_unique(init, pred);
        lemma_filter_subset(init, pred);
        let f = init.filter(pred);
        if pred(s.last()) {
            assert forall|i: int| 0 <= i < f.len() implies f[i].id != s.last().id by {
                assert(init.contains(f[i]));
                let q = choose|q: int| 0 <= q < init.len() && init[q] == f[i];
                assert(s[q] == init[q]);
                assert(task_id_of()(s[q]) != task_id_of()(s[s.len() - 1]));
            }
            let g = s.filter(pred);
            assert(g == f.push(s.last()));
            assert forall|i: int, j: int|
                0 <= i < g.len() && 0 <= j < g.len() && i != j implies #[trigger] task_id_of()(g[i])
                != #[trigger] task_id_of()(g[j]) by {
                if i < f.len() && j < f.len() {
                    assert(g[i] == f[i] && g[j] == f[j]);
                    assert(task_id_of()(f[i]) != task_id_of()(f[j]));
                } else if i < f.len() {
                    assert(g[i] == f[i] && g[j] == s.last());
                } else {
                    assert(g[j] == f[j] && g[i] == s.last());
                }
            }
        }
    }
}

/// The identifiers of the tasks behind some references are those of their
/// views.
pub proof fn lemma_task_ids_of_refs<'a>(tasks: Seq<&'a Task>)
    ensures
        task_ids(tasks) == task_refs_view(tasks).map_values(|t: TaskView| t.id.0),
{
    assert(task_ids(tasks) =~= task_refs_view(tasks).map_values(|t: TaskView| t.id.0));
}

/// Paging through a filtered listing of a task manager's tasks with the
/// cursor visits every matching task once: the manager's task identifiers
/// are distinct, so those of any filtered listing are too, and the page
/// the returned cursor asks for starts exactly where the last one ended.
pub proof fn lemma_listing_pages_follow(s: Seq<TaskView>, filter: TaskFilter, token: Seq<char>, requested: Option<i32>)
    requires
        keys_unique(s, task_id_of()),
    ensures
        ({
            let ids = s.filter(|t: TaskView| spec_filter_matches(filter, t)).map_values(|t: TaskView| t.id.0);
            let sorted = sorted_ids(ids);
            let end = page_end(sorted, token, requested);
            &&& ids.no_duplicates()
            &&& end < sorted.len() ==> page_start(sorted, uuid_text(sorted[end - 1])) == end
        }),
{
    let pred = |t: TaskView| spec_filter_matches(filter, t);
    lemma_filter_keys_unique(s, pred);
    let f = s.filter(pred);
    let ids = f.map_values(|t: TaskView| t.id.0);
    assert forall|i: int, j: int| 0 <= i < ids.len() && 0 <= j < ids.len() && i != j implies ids[i] != ids[j] by {
        assert(task_id_of()(f[i]) != task_id_of()(f[j]));
    }
    assert(ids.no_duplicates());
    lemma_next_page_follows(ids, token, requested);
}

// ── Agent card ───────────────────────────────────────────────────────────────

/// A skill the daemon advertises: one registered tool.
#[derive(Debug)]
pub struct AgentSkill {
    pub id: String,
    pub name: String,
    pub description: String,
    pub tags: Vec<String>,
    pub examples: Vec<String>,
    pub input_modes: Vec<String>,
    pub output_modes: Vec<String>,
}

/// An endpoint at which the daemon speaks A2A.
#[derive(Debug)]
pub struct AgentInterface {
    pub url: String,
    pub protocol_binding: String,
    pub tenant: String,
    pub protocol_version: String,
}

/// The organisation behind the agent.
#[derive(Debug)]
pub struct AgentProvider {
    pub url: String,
    pub organization: String,
}

/// The optional protocol features the daemon supports.
#[derive(Clone, Copy, Debug, PartialEq, Eq, Structural)]
pub struct AgentCardCapabilities {
    pub streaming: Option<bool>,
    pub push_notifications: Option<bool>,
    pub extended_agent_card: Option<bool>,
}

/// The card describing the daemon to A2A clients.
#[derive(Debug)]
pub struct AgentCard {
    pub name: String,
    pub description: String,
    pub supported_interfaces: Vec<AgentInterface>,
    pub provider: Option<AgentProvider>,
    pub version: String,
    pub capabilities: Option<AgentCardCapabilities>,
    pub default_input_modes: Vec<String>,
    pub default_output_modes: Vec<String>,
    pub skills: Vec<AgentSkill>,
}

/// The address of the gRPC endpoint: `grpc://{host}:{port}`.
pub open spec fn grpc_url(host: Seq<char>, port: u16) -> Seq<char> {
    "grpc://"@ + host + ":"@ + decimal(port as nat)
}

/// The skill a tool is advertised as.
fn skill_of(t: &ToolInfo) -> (r: AgentSkill)
    ensures
        r.id@ == uuid_text(t.id.0),
        r.name@ == t.name@,
        r.description@ == t.description@,
        r.tags@.len() == 0 && r.examples@.len() == 0,
        r.input_modes@.len() == 0 && r.output_modes@.len() == 0,
{
    AgentSkill {
        id: t.id.to_string(),
        name: t.name.clone(),
        description: t.description.clone(),
        tags: Vec::new(),
        examples: Vec::new(),
        input_modes: Vec::new(),
        output_modes: Vec::new(),
    }
}

/// The card the daemon advertises: named `trumpet`, reachable over gRPC at
/// the configured host and port (protocol 0.3), supporting streaming, push
/// notifications and the extended card, speaking plain text, with one
/// skill per registered tool in registry order.
pub fn extended_agent_card(host: &str, grpc_port: u16, version: &str, tools: &Vec<&ToolInfo>) -> (r: AgentCard)
    ensures
        r.name@ == "trumpet"@,
        r.description@ == "Trumpet agent nexus daemon"@,
        r.version@ == version@,
        r.supported_interfaces@.len() == 1,
        r.supported_interfaces@[0].url@ == grpc_url(host@, grpc_port),
        r.supported_interfaces@[0].protocol_binding@ == "GRPC"@,
        r.supported_interfaces@[0].tenant@.len() == 0,
        r.supported_interfaces@[0].protocol_version@ == "0.3"@,
        r.provider matches Some(p) && p.url@.len() == 0 && p.organization@ == "trumpet"@,
        r.capabilities == Some(
            AgentCardCapabilities { streaming: Some(true), push_notifications: Some(true), extended_agent_card: Some(true) },
        ),
        r.default_input_modes@.len() == 1 && r.default_input_modes@[0]@ == "text/plain"@,
        r.default_output_modes@.len() == 1 && r.default_output_modes@[0]@ == "text/plain"@,
        r.skills@.len() == tools@.len(),
        forall|i: int| 0 <= i < r.skills@.len() ==> (#[trigger] r.skills@[i]).id@ == uuid_text(tools@[i].id.0)
            && r.skills@[i].name@ == tools@[i].name@ && r.skills@[i].description@ == tools@[i].description@,
{
    let mut skills: Vec<AgentSkill> = Vec::new();
    let mut i: usize = 0;
    while i < tools.len()
        invariant
            i <= tools@.len(),
            skills@.len() == i,
            forall|j: int| 0 <= j < i ==> (#[trigger] skills@[j]).id@ == uuid_text(tools@[j].id.0)
                && skills@[j].name@ == tools@[j].name@ && skills@[j].description@ == tools@[j].description@,
        decreases tools.len() - i,
    {
        skills.push(skill_of(tools[i]));
        i = i + 1;
    }
    let mut url = String::from_str("grpc://");
    url.append(host);
    url.append(":");
    let p = u64_to_decimal(grpc_port as u64);
    url.append(p.as_str());
    let mut interfaces: Vec<AgentInterface> = Vec::new();
    interfaces.push(AgentInterface {
        url,
        protocol_binding: String::from_str("GRPC"),
        tenant: String::new(),
        protocol_version: String::from_str("0.3"),
    });
    let mut inputs: Vec<String> = Vec::new();
    inputs.push(String::from_str("text/plain"));
    let mut outputs: Vec<String> = Vec::new();
    outputs.push(String::from_str("text/plain"));
    AgentCard {
        name: String::from_str("trumpet"),
        description: String::from_str("Trumpet agent nexus daemon"),
        supported_interfaces: interfaces,
        provider: Some(AgentProvider { url: String::new(), organization: String::from_str("trumpet") }),
        version: version.to_owned(),
        capabilities: Some(
            AgentCardCapabilities { streaming: Some(true), push_notifications: Some(true), extended_agent_card: Some(true) },
        ),
        default_input_modes: inputs,
        default_output_modes: outputs,
        skills,
    }
}

} // verus!
