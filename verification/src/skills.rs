//! Tool registry: tracks the tools (skills) that agents or the daemon
//! expose, by identifier and by name.
//!
//! Like the agent registry it is a keyed sequence in registration order in
//! which identifiers and names are each pairwise distinct.

use std::sync::Arc;

use vstd::prelude::*;
use vstd::string::StringSliceAdditionalSpecFns;
use vstd::utf8::encode_utf8;

use crate::error::Error;
use crate::events::{Event, EventView, MessageBus};
use crate::ids::{uuid_text, ToolId};
use crate::model::{ToolInfo, ToolInfoView, ToolProvider};
use crate::store::{has_key, key_index, keys_unique, lemma_key_index, lemma_remove_key,
    lemma_remove_second_key, lemma_remove_undoes_fresh_upsert, lemma_upsert, lemma_upsert_second_key, lookup,
    remove_key, upsert};

verus! {

/// Whether a byte may appear in a tool name: ASCII letters and digits,
/// hyphen, underscore and dot.
pub open spec fn is_tool_name_byte(b: u8) -> bool {
    (48 <= b <= 57) || (65 <= b <= 90) || (97 <= b <= 122) || b == 45 || b == 95 || b == 46
}

/// Why the UTF-8 bytes `b` are not a valid tool name, if they are not.
///
/// Rules, checked in this order: not empty; at most 64 bytes; no leading
/// or trailing hyphen; no leading or trailing dot; no two dots in a row;
/// only ASCII alphanumerics, hyphens, underscores and dots.
pub open spec fn tool_name_rejection(b: Seq<u8>) -> Option<Seq<char>> {
    if b.len() == 0 {
        Some("name must not be empty"@)
    } else if b.len() > 64 {
        Some("name must be 64 characters or fewer"@)
    } else if b[0] == 45 || b[b.len() - 1] == 45 {
        Some("name must not start or end with a hyphen"@)
    } else if b[0] == 46 || b[b.len() - 1] == 46 {
        Some("name must not start or end with a dot"@)
    } else if exists|i: int| 0 <= i < b.len() - 1 && #[trigger] b[i] == 46 && b[i + 1] == 46 {
        Some("name must not contain consecutive dots"@)
    } else if !(forall|i: int| 0 <= i < b.len() ==> #[trigger] is_tool_name_byte(b[i])) {
        Some("name may only contain ASCII alphanumeric characters, hyphens, underscores, and dots"@)
    } else {
        None
    }
}

/// Validates a tool name against the allowed character set.
///
/// Rules: 1–64 ASCII bytes, alphanumeric plus hyphens, underscores and
/// dots; no leading or trailing hyphen or dot; no consecutive dots.
pub fn validate_name(name: &str) -> (r: Result<(), Error>)
    ensures
        match tool_name_rejection(name.spec_bytes()) {
            None => r is Ok,
            Some(reason) => r matches Err(Error::ToolInvalidName { name: n, reason: m })
                && n@ == name@ && m@ == reason,
        },
{
    let b = name.as_bytes();
    let n = b.len();
    if n == 0 {
        return Err(Error::ToolInvalidName { name: name.to_owned(), reason: "name must not be empty".to_owned() });
    }
    if n > 64 {
        return Err(Error::ToolInvalidName {
            name: name.to_owned(),
            reason: "name must be 64 characters or fewer".to_owned(),
        });
    }
    if b[0] == 45u8 || b[n - 1] == 45u8 {
        return Err(Error::ToolInvalidName {
            name: name.to_owned(),
            reason: "name must not start or end with a hyphen".to_owned(),
        });
    }
    if b[0] == 46u8 || b[n - 1] == 46u8 {
        return Err(Error::ToolInvalidName {
            name: name.to_owned(),
            reason: "name must not start or end with a dot".to_owned(),
        });
    }
    let mut i: usize = 0;
    while i + 1 < n
        invariant
            n == b@.len(),
            b@ == name.spec_bytes(),
            0 < n <= 64,
            b@[0] != 45 && b@[n - 1] != 45,
            b@[0] != 46 && b@[n - 1] != 46,
            i < n,
            forall|j: int| 0 <= j < i ==> !(#[trigger] b@[j] == 46 && b@[j + 1] == 46),
        decreases n - i,
    {
        if b[i] == 46u8 && b[i + 1] == 46u8 {
            return Err(Error::ToolInvalidName {
                name: name.to_owned(),
                reason: "name must not contain consecutive dots".to_owned(),
            });
        }
        i = i + 1;
    }
    assert(!(exists|j: int| 0 <= j < b@.len() - 1 && #[trigger] b@[j] == 46 && b@[j + 1] == 46));
    let mut i: usize = 0;
    while i < n
        invariant
            n == b@.len(),
            b@ == name.spec_bytes(),
            0 < n <= 64,
            b@[0] != 45 && b@[n - 1] != 45,
            b@[0] != 46 && b@[n - 1] != 46,
            !(exists|j: int| 0 <= j < b@.len() - 1 && #[trigger] b@[j] == 46 && b@[j + 1] == 46),
            i <= n,
            forall|j: int| 0 <= j < i ==> #[trigger] is_tool_name_byte(b@[j]),
        decreases n - i,
    {
        let c = b[i];
        let ok = (48u8 <= c && c <= 57u8) || (65u8 <= c && c <= 90u8) || (97u8 <= c && c <= 122u8)
            || c == 45u8 || c == 95u8 || c == 46u8;
        if !ok {
            assert(!is_tool_name_byte(b@[i as int]));
            return Err(Error::ToolInvalidName {
                name: name.to_owned(),
                reason: "name may only contain ASCII alphanumeric characters, hyphens, underscores, and dots".to_owned(),
            });
        }
        i = i + 1;
    }
    Ok(())
}

/// The identifier of a tool: the registry's primary key.
pub open spec fn tool_id_of() -> spec_fn(ToolInfoView) -> ToolId {
    |t: ToolInfoView| t.id
}

/// The name of a tool: unique within the registry.
pub open spec fn tool_name_of() -> spec_fn(ToolInfoView) -> Seq<char> {
    |t: ToolInfoView| t.name
}

/// The tools a registry holds, in registration order.
pub open spec fn tools_view(v: Seq<ToolInfo>) -> Seq<ToolInfoView> {
    v.map_values(|t: ToolInfo| t@)
}

/// One step of a restore: a tool whose name is invalid is skipped;
/// otherwise it displaces the tool holding its name and the tool holding
/// its identifier.
pub open spec fn restore_step(s: Seq<ToolInfoView>, t: ToolInfoView) -> Seq<ToolInfoView> {
    if tool_name_rejection(encode_utf8(t.name)) is Some {
        s
    } else {
        upsert(remove_key(s, tool_name_of(), t.name), tool_id_of(), t)
    }
}

/// What restoring `items` into an empty registry leaves: each item in
/// turn, by [`restore_step`].
pub open spec fn spec_restore(items: Seq<ToolInfoView>) -> Seq<ToolInfoView> {
    items.fold_left(Seq::<ToolInfoView>::empty(), |acc: Seq<ToolInfoView>, t: ToolInfoView| restore_step(acc, t))
}

/// Registry of all tools available in the nexus.
pub struct SkillRegistry {
    skills: Vec<ToolInfo>,
    bus: Arc<MessageBus>,
    /// The events announced on the bus so far, oldest first.
    announced: Ghost<Seq<EventView>>,
}

impl View for SkillRegistry {
    type V = Seq<ToolInfoView>;

    closed spec fn view(&self) -> Seq<ToolInfoView> {
        tools_view(self.skills@)
    }
}

/// Keeping identifiers and names distinct is preserved by a restore step.
proof fn lemma_restore_step(s: Seq<ToolInfoView>, t: ToolInfoView)
    requires
        keys_unique(s, tool_id_of()),
        keys_unique(s, tool_name_of()),
    ensures
        keys_unique(restore_step(s, t), tool_id_of()),
        keys_unique(restore_step(s, t), tool_name_of()),
{
    if tool_name_rejection(encode_utf8(t.name)) is None {
        let r = remove_key(s, tool_name_of(), t.name);
        lemma_remove_key(s, tool_name_of(), t.name);
        lemma_remove_second_key(s, tool_name_of(), tool_id_of(), t.name);
        lemma_upsert(r, tool_id_of(), t);
        lemma_upsert_second_key(r, tool_id_of(), tool_name_of(), t);
    }
}

impl SkillRegistry {
    /// Identifiers and names are each pairwise distinct.
    pub open spec fn wf(&self) -> bool {
        keys_unique(self@, tool_id_of()) && keys_unique(self@, tool_name_of())
    }

    /// The bus this manager announces its changes on.
    pub closed spec fn bus(&self) -> Arc<MessageBus> {
        self.bus
    }

    /// The events this registry has announced on its bus, oldest first.
    pub closed spec fn announced(&self) -> Seq<EventView> {
        self.announced@
    }

    /// Announce `event` on the bus.
    fn announce(&mut self, event: Event)
        ensures
            final(self)@ == old(self)@,
            final(self).bus() == old(self).bus(),
            final(self).announced() == old(self).announced().push(event@),
    {
        self.announced = Ghost(self.announced@.push(event@));
        self.bus.publish(event);
    }

    /// Create a new, empty registry backed by the given [`MessageBus`].
    pub fn new(bus: Arc<MessageBus>) -> (r: Self)
        ensures
            r.wf(),
            r@ == Seq::<ToolInfoView>::empty(),
            r.bus() == bus,
            r.announced() == Seq::<EventView>::empty(),
    {
        let r = SkillRegistry { skills: Vec::new(), bus, announced: Ghost(Seq::empty()) };
        assert(r@ =~= Seq::<ToolInfoView>::empty());
        r
    }

    /// The position of the tool with identifier `id`, if any.
    fn index_of_id(&self, id: ToolId) -> (r: Option<usize>)
        requires
            self.wf(),
        ensures
            match r {
                Some(i) => i < self@.len() && self@[i as int].id == id
                    && key_index(self@, tool_id_of(), id) == i as int,
                None => !has_key(self@, tool_id_of(), id),
            },
            r is Some <==> has_key(self@, tool_id_of(), id),
    {
        let mut i: usize = 0;
        while i < self.skills.len()
            invariant
                i <= self.skills@.len(),
                self@.len() == self.skills@.len(),
                self.wf(),
                forall|j: int| 0 <= j < i ==> #[trigger] self@[j].id != id,
            decreases self.skills.len() - i,
        {
            if self.skills[i].id == id {
                proof {
                    assert(self@[i as int] == self.skills@[i as int]@);
                    lemma_key_index(self@, tool_id_of(), i as int);
                }
                return Some(i);
            }
            assert(self@[i as int] == self.skills@[i as int]@);
            i = i + 1;
        }
        proof {
            if has_key(self@, tool_id_of(), id) {
                let j = key_index(self@, tool_id_of(), id);
                assert(tool_id_of()(self@[j]) == id);
            }
        }
        None
    }

    /// The position of the tool named `name`, if any.
    fn index_of_name(&self, name: &str) -> (r: Option<usize>)
        requires
            self.wf(),
        ensures
            match r {
                Some(i) => i < self@.len() && self@[i as int].name == name@
                    && key_index(self@, tool_name_of(), name@) == i as int,
                None => !has_key(self@, tool_name_of(), name@),
            },
            r is Some <==> has_key(self@, tool_name_of(), name@),
    {
        let wanted = name.to_owned();
        let mut i: usize = 0;
        while i < self.skills.len()
            invariant
                i <= self.skills@.len(),
                self@.len() == self.skills@.len(),
                self.wf(),
                wanted@ == name@,
                forall|j: int| 0 <= j < i ==> #[trigger] self@[j].name != name@,
            decreases self.skills.len() - i,
        {
            if self.skills[i].name == wanted {
                proof {
                    assert(self@[i as int] == self.skills@[i as int]@);
                    lemma_key_index(self@, tool_name_of(), i as int);
                }
                return Some(i);
            }
            assert(self@[i as int] == self.skills@[i as int]@);
            i = i + 1;
        }
        proof {
            if has_key(self@, tool_name_of(), name@) {
                let j = key_index(self@, tool_name_of(), name@);
                assert(tool_name_of()(self@[j]) == name@);
            }
        }
        None
    }

    /// Register a new tool and announce it on the bus.
    ///
    /// The schemas are JSON texts.
    ///
    /// # Errors
    ///
    /// - [`Error::ToolInvalidName`]: `name` fails the validation rules.
    /// - [`Error::ToolInvalidDescription`]: `description` is empty.
    /// - [`Error::ToolAlreadyRegistered`]: a tool named `name` exists.
    pub fn register(
        &mut self,
        name: &str,
        description: &str,
        input_schema: String,
        output_schema: String,
        provider: ToolProvider,
    ) -> (r: Result<ToolInfo, Error>)
        requires
            old(self).wf(),
        ensures
            final(self).wf(),
            final(self).bus() == old(self).bus(),
            r is Ok <==> (tool_name_rejection(name.spec_bytes()) is None && description@.len() > 0
                && !has_key(old(self)@, tool_name_of(), name@)),
            match r {
                Ok(info) => {
                    &&& info@.name == name@
                    &&& info@.description == description@
                    &&& info@.input_schema == input_schema@
                    &&& info@.output_schema == output_schema@
                    &&& info@.provider == provider
                    &&& final(self)@ == upsert(old(self)@, tool_id_of(), info@)
                    &&& final(self).announced() == old(self).announced().push(EventView::ToolRegistered(info@))
                },
                Err(e) => {
                    &&& final(self)@ == old(self)@
                    &&& final(self).announced() == old(self).announced()
                    &&& match tool_name_rejection(name.spec_bytes()) {
                        Some(reason) => e matches Error::ToolInvalidName { name: n, reason: m }
                            && n@ == name@ && m@ == reason,
                        None => if description@.len() == 0 {
                            e matches Error::ToolInvalidDescription { name: n, reason: m }
                                && n@ == name@ && m@ == "description must not be empty"@
                        } else {
                            e matches Error::ToolAlreadyRegistered { name: n } && n@ == name@
                        },
                    }
                },
            },
    {
        match validate_name(name) {
            Err(e) => return Err(e),
            Ok(()) => {},
        }
        if description.is_empty() {
            return Err(Error::ToolInvalidDescription {
                name: name.to_owned(),
                reason: "description must not be empty".to_owned(),
            });
        }
        if self.index_of_name(name).is_some() {
            return Err(Error::ToolAlreadyRegistered { name: name.to_owned() });
        }
        let info = ToolInfo {
            id: ToolId::new(),
            name: name.to_owned(),
            description: description.to_owned(),
            input_schema,
            output_schema,
            provider,
        };
        let ghost old_view = self@;
        proof {
            lemma_upsert(old_view, tool_id_of(), info@);
            lemma_upsert_second_key(old_view, tool_id_of(), tool_name_of(), info@);
        }
        match self.index_of_id(info.id) {
            Some(i) => {
                self.skills.set(i, info.clone());
                assert(self@ =~= old_view.update(i as int, info@));
            },
            None => {
                self.skills.push(info.clone());
                assert(self@ =~= old_view.push(info@));
            },
        }
        self.announce(Event::ToolRegistered(info.clone()));
        Ok(info)
    }

    /// Remove the tool identified by `id` from the registry, announce it on
    /// the bus, and return it.
    ///
    /// # Errors
    ///
    /// - [`Error::ToolNotFoundById`]: no tool with `id` is registered; the
    ///   error carries the identifier's text.
    pub fn deregister(&mut self, id: &ToolId) -> (r: Result<ToolInfo, Error>)
        requires
            old(self).wf(),
        ensures
            final(self).wf(),
            final(self).bus() == old(self).bus(),
            match lookup(old(self)@, tool_id_of(), *id) {
                Some(t) => r matches Ok(info) && info@ == t
                    && final(self)@ == remove_key(old(self)@, tool_id_of(), *id)
                    && final(self).announced() == old(self).announced().push(EventView::ToolDeregistered(*id)),
                None => r matches Err(Error::ToolNotFoundById { id: n }) && n@ == uuid_text(id.0)
                    && final(self)@ == old(self)@ && final(self).announced() == old(self).announced(),
            },
    {
        let ghost old_view = self@;
        proof {
            lemma_remove_key(old_view, tool_id_of(), *id);
            lemma_remove_second_key(old_view, tool_id_of(), tool_name_of(), *id);
        }
        match self.index_of_id(*id) {
            None => Err(Error::ToolNotFoundById { id: id.to_string() }),
            Some(i) => {
                let info = self.skills.remove(i);
                assert(self@ =~= old_view.remove(i as int));
                self.announce(Event::ToolDeregistered(*id));
                Ok(info)
            },
        }
    }

    /// Look up a tool by its identifier.
    pub fn get(&self, id: &ToolId) -> (r: Option<&ToolInfo>)
        requires
            self.wf(),
        ensures
            match r {
                Some(a) => lookup(self@, tool_id_of(), *id) == Some(a@),
                None => lookup(self@, tool_id_of(), *id) is None,
            },
    {
        match self.index_of_id(*id) {
            Some(i) => {
                assert(self@[i as int] == self.skills@[i as int]@);
                Some(&self.skills[i])
            },
            None => None,
        }
    }

    /// All registered tools, in registration order.
    pub fn list(&self) -> (r: Vec<&ToolInfo>)
        ensures
            r@.len() == self@.len(),
            forall|i: int| 0 <= i < r@.len() ==> (#[trigger] r@[i])@ == self@[i],
    {
        let mut r: Vec<&ToolInfo> = Vec::new();
        let mut i: usize = 0;
        while i < self.skills.len()
            invariant
                i <= self.skills@.len(),
                self@.len() == self.skills@.len(),
                r@.len() == i,
                forall|j: int| 0 <= j < i ==> (#[trigger] r@[j])@ == self@[j],
            decreases self.skills.len() - i,
        {
            r.push(&self.skills[i]);
            i = i + 1;
        }
        r
    }

    /// Find a tool by name; names are unique, so there is at most one.
    pub fn find_by_name(&self, name: &str) -> (r: Option<&ToolInfo>)
        requires
            self.wf(),
        ensures
            match r {
                Some(a) => lookup(self@, tool_name_of(), name@) == Some(a@),
                None => lookup(self@, tool_name_of(), name@) is None,
            },
    {
        match self.index_of_name(name) {
            Some(i) => {
                assert(self@[i as int] == self.skills@[i as int]@);
                Some(&self.skills[i])
            },
            None => None,
        }
    }
    /// Clear all entries and repopulate from `skills`, in order, skipping
    /// tools whose names fail validation; a later tool displaces an earlier
    /// one with the same identifier or name. No bus events are published.
    pub fn restore(&mut self, skills: Vec<ToolInfo>)
        ensures
            final(self).wf(),
            final(self)@ == spec_restore(tools_view(skills@)),
            final(self).bus() == old(self).bus(),
            final(self).announced() == old(self).announced(),
    {
        let ghost bus0 = self.bus();
        let ghost announced0 = self.announced();
        self.skills = Vec::new();
        let ghost items = tools_view(skills@);
        let mut i: usize = 0;
        assert(self@ =~= Seq::<ToolInfoView>::empty());
        assert(items.subrange(0, 0) =~= Seq::<ToolInfoView>::empty());
        while i < skills.len()
            invariant
                i <= skills@.len(),
                items == tools_view(skills@),
                self.wf(),
                self@ == spec_restore(items.subrange(0, i as int)),
                self.bus() == bus0,
                self.announced() == announced0,
            decreases skills.len() - i,
        {
            let info = skills[i].clone();
            proof {
                assert(items.subrange(0, i + 1).drop_last() =~= items.subrange(0, i as int));
                assert(items.subrange(0, i + 1).last() == items[i as int]);
                assert(items[i as int] == info@);
                lemma_restore_step(self@, info@);
            }
            let ghost before = self@;
            if validate_name(info.name.as_str()).is_ok() {
                proof {
                    lemma_remove_key(before, tool_name_of(), info@.name);
                    lemma_remove_second_key(before, tool_name_of(), tool_id_of(), info@.name);
                }
                match self.index_of_name(info.name.as_str()) {
                    Some(j) => {
                        self.skills.remove(j);
                        assert(self@ =~= before.remove(j as int));
                    },
                    None => {},
                }
                let ghost mid = self@;
                assert(mid == remove_key(before, tool_name_of(), info@.name));
                proof {
                    lemma_upsert(mid, tool_id_of(), info@);
                }
                match self.index_of_id(info.id) {
                    Some(j) => {
                        self.skills.set(j, info);
                        assert(self@ =~= mid.update(j as int, info@));
                    },
                    None => {
                        self.skills.push(info);
                        assert(self@ =~= mid.push(info@));
                    },
                }
            }
            i = i + 1;
        }
        assert(items.subrange(0, i as int) =~= items);
    }
}

// ── Laws ─────────────────────────────────────────────────────────────────────

/// After a successful registration the new tool is found both by its
/// identifier and by its name, and every other identifier finds what it
/// found before.
pub proof fn lemma_registered_tool_is_found(s: Seq<ToolInfoView>, info: ToolInfoView)
    requires
        keys_unique(s, tool_id_of()),
        keys_unique(s, tool_name_of()),
        !has_key(s, tool_name_of(), info.name),
    ensures
        lookup(upsert(s, tool_id_of(), info), tool_id_of(), info.id) == Some(info),
        lookup(upsert(s, tool_id_of(), info), tool_name_of(), info.name) == Some(info),
        forall|k: ToolId| k != info.id ==> #[trigger] lookup(upsert(s, tool_id_of(), info), tool_id_of(), k)
            == lookup(s, tool_id_of(), k),
{
    lemma_upsert(s, tool_id_of(), info);
    lemma_upsert_second_key(s, tool_id_of(), tool_name_of(), info);
}

/// After deregistering an identifier no tool has it, the name the tool
/// held is free for a new registration, and every other identifier finds
/// what it found before.
pub proof fn lemma_deregistered_tool_is_gone(s: Seq<ToolInfoView>, id: ToolId)
    requires
        keys_unique(s, tool_id_of()),
        keys_unique(s, tool_name_of()),
    ensures
        lookup(remove_key(s, tool_id_of(), id), tool_id_of(), id) is None,
        lookup(s, tool_id_of(), id) matches Some(a)
            ==> !has_key(remove_key(s, tool_id_of(), id), tool_name_of(), a.name),
        forall|k: ToolId| k != id ==> #[trigger] lookup(remove_key(s, tool_id_of(), id), tool_id_of(), k)
            == lookup(s, tool_id_of(), k),
{
    lemma_remove_key(s, tool_id_of(), id);
    lemma_remove_second_key(s, tool_id_of(), tool_name_of(), id);
}

/// Registering a tool under a fresh identifier and then deregistering
/// that identifier leaves the registry as it was.
pub proof fn lemma_deregister_undoes_register(s: Seq<ToolInfoView>, info: ToolInfoView)
    requires
        keys_unique(s, tool_id_of()),
        !has_key(s, tool_id_of(), info.id),
    ensures
        remove_key(upsert(s, tool_id_of(), info), tool_id_of(), info.id) == s,
{
    lemma_remove_undoes_fresh_upsert(s, tool_id_of(), info);
}

/// Restoring tools whose names are valid and whose identifiers and names
/// are each distinct reproduces them exactly, in order.
pub proof fn lemma_restore_keeps_distinct_valid_tools(items: Seq<ToolInfoView>)
    requires
        keys_unique(items, tool_id_of()),
        keys_unique(items, tool_name_of()),
        forall|i: int| 0 <= i < items.len() ==> (#[trigger] tool_name_rejection(encode_utf8(items[i].name))) is None,
    ensures
        spec_restore(items) == items,
    decreases items.len(),
{
    if items.len() > 0 {
        let init = items.drop_last();
        let t = items.last();
        assert(keys_unique(init, tool_id_of()));
        assert(keys_unique(init, tool_name_of()));
        assert(forall|i: int| 0 <= i < init.len() ==> init[i] == items[i]);
        lemma_restore_keeps_distinct_valid_tools(init);
        assert(tool_name_rejection(encode_utf8(items[items.len() - 1].name)) is None);
        assert(!has_key(init, tool_name_of(), t.name)) by {
            if has_key(init, tool_name_of(), t.name) {
                let q = key_index(init, tool_name_of(), t.name);
                assert(items[q] == init[q]);
                assert(tool_name_of()(items[q]) == tool_name_of()(items[items.len() - 1]));
            }
        }
        assert(!has_key(init, tool_id_of(), t.id)) by {
            if has_key(init, tool_id_of(), t.id) {
                let q = key_index(init, tool_id_of(), t.id);
                assert(items[q] == init[q]);
            }
        }
        assert(remove_key(init, tool_name_of(), t.name) == init);
        assert(upsert(init, tool_id_of(), t) == init.push(t));
        assert(init.push(t) =~= items);
    }
}

} // verus!
