//! Agent registry: tracks registered agents by identifier and by name.
//!
//! The registry is a keyed sequence of agents in registration order in
//! which both the identifiers and the names are pairwise distinct.

use std::sync::Arc;

use vstd::prelude::*;
use vstd::string::StringSliceAdditionalSpecFns;

use crate::error::Error;
use crate::events::{Event, EventView, MessageBus};
use crate::ids::{uuid_text, AgentId};
use crate::model::{caps_view, now, AgentCapabilities, AgentInfo, AgentInfoView, AgentStatus};
use crate::store::{has_key, key_index, keys_unique, lemma_key_index, lemma_remove_key,
    lemma_remove_second_key, lemma_remove_undoes_fresh_upsert, lemma_upsert, lemma_upsert_second_key, lookup,
    remove_key, upsert};

verus! {

/// Whether a byte may appear in an agent name: ASCII letters and digits,
/// hyphen and underscore.
pub open spec fn is_agent_name_byte(b: u8) -> bool {
    (48 <= b <= 57) || (65 <= b <= 90) || (97 <= b <= 122) || b == 45 || b == 95
}

/// Why the UTF-8 bytes `b` are not a valid agent name, if they are not.
///
/// Rules, checked in this order: not empty; at most 64 bytes; no leading
/// or trailing hyphen; only ASCII alphanumerics, hyphens and underscores.
pub open spec fn agent_name_rejection(b: Seq<u8>) -> Option<Seq<char>> {
    if b.len() == 0 {
        Some("name must not be empty"@)
    } else if b.len() > 64 {
        Some("name must be 64 characters or fewer"@)
    } else if b[0] == 45 || b[b.len() - 1] == 45 {
        Some("name must not start or end with a hyphen"@)
    } else if !(forall|i: int| 0 <= i < b.len() ==> #[trigger] is_agent_name_byte(b[i])) {
        Some("name may only contain ASCII alphanumeric characters, hyphens, and underscores"@)
    } else {
        None
    }
}

/// Validates an agent name against the allowed character set.
///
/// Rules: 1–64 characters, ASCII alphanumeric plus hyphens and
/// underscores, no leading or trailing hyphen.
pub fn validate_name(name: &str) -> (r: Result<(), Error>)
    ensures
        match agent_name_rejection(name.spec_bytes()) {
            None => r is Ok,
            Some(reason) => r matches Err(Error::AgentInvalidName { name: n, reason: m })
                && n@ == name@ && m@ == reason,
        },
{
    let b = name.as_bytes();
    let n = b.len();
    if n == 0 {
        return Err(Error::AgentInvalidName {
            name: name.to_owned(),
            reason: "name must not be empty".to_owned(),
        });
    }
    if n > 64 {
        return Err(Error::AgentInvalidName {
            name: name.to_owned(),
            reason: "name must be 64 characters or fewer".to_owned(),
        });
    }
    if b[0] == 45u8 || b[n - 1] == 45u8 {
        return Err(Error::AgentInvalidName {
            name: name.to_owned(),
            reason: "name must not start or end with a hyphen".to_owned(),
        });
    }
    let mut i: usize = 0;
    while i < n
        invariant
            n == b@.len(),
            b@ == name.spec_bytes(),
            0 < n <= 64,
            b@[0] != 45 && b@[n - 1] != 45,
            i <= n,
            forall|j: int| 0 <= j < i ==> #[trigger] is_agent_name_byte(b@[j]),
        decreases n - i,
    {
        let c = b[i];
        let ok = (48u8 <= c && c <= 57u8) || (65u8 <= c && c <= 90u8) || (97u8 <= c && c <= 122u8)
            || c == 45u8 || c == 95u8;
        if !ok {
            assert(!is_agent_name_byte(b@[i as int]));
            return Err(Error::AgentInvalidName {
                name: name.to_owned(),
                reason: "name may only contain ASCII alphanumeric characters, hyphens, and underscores".to_owned(),
            });
        }
        i = i + 1;
    }
    proof {
        reveal_strlit("name must not be empty");
    }
    Ok(())
}

/// The identifier of an agent: the registry's primary key.
pub open spec fn agent_id_of() -> spec_fn(AgentInfoView) -> AgentId {
    |a: AgentInfoView| a.id
}

/// The name of an agent: unique within the registry.
pub open spec fn agent_name_of() -> spec_fn(AgentInfoView) -> Seq<char> {
    |a: AgentInfoView| a.name
}

/// The agents a registry holds, in registration order.
pub open spec fn agents_view(v: Seq<AgentInfo>) -> Seq<AgentInfoView> {
    v.map_values(|a: AgentInfo| a@)
}

/// Registry of all agents currently connected to the nexus.
pub struct AgentRegistry {
    agents: Vec<AgentInfo>,
    bus: Arc<MessageBus>,
    /// The events announced on the bus so far, oldest first.
    announced: Ghost<Seq<EventView>>,
}

impl View for AgentRegistry {
    type V = Seq<AgentInfoView>;

    closed spec fn view(&self) -> Seq<AgentInfoView> {
        agents_view(self.agents@)
    }
}

/// What a successful registration of `info` leaves in registry `s`: the
/// entry with the same identifier is replaced, otherwise `info` is
/// appended.
pub open spec fn spec_register(s: Seq<AgentInfoView>, info: AgentInfoView) -> Seq<AgentInfoView> {
    upsert(s, agent_id_of(), info)
}

impl AgentRegistry {
    /// Identifiers and names are each pairwise distinct.
    pub open spec fn wf(&self) -> bool {
        keys_unique(self@, agent_id_of()) && keys_unique(self@, agent_name_of())
    }

    /// The bus this manager announces its changes on.
    pub closed spec fn bus(&self) -> Arc<MessageBus> {
        self.bus
    }

    /// The events this registry has announced on its bus, oldest first.
    pub closed spec fn announced(&self) -> Seq<EventView> {
        self.announced@
    }

    /// Announce `event` on the bus.
    fn announce(&mut self, event: Event)
        ensures
            final(self)@ == old(self)@,
            final(self).bus() == old(self).bus(),
            final(self).announced() == old(self).announced().push(event@),
    {
        self.announced = Ghost(self.announced@.push(event@));
        self.bus.publish(event);
    }

    /// Create a new, empty registry backed by the given [`MessageBus`].
    pub fn new(bus: Arc<MessageBus>) -> (r: Self)
        ensures
            r.wf(),
            r@ == Seq::<AgentInfoView>::empty(),
            r.bus() == bus,
            r.announced() == Seq::<EventView>::empty(),
    {
        let r = AgentRegistry { agents: Vec::new(), bus, announced: Ghost(Seq::empty()) };
        assert(r@ =~= Seq::<AgentInfoView>::empty());
        r
    }

    /// The position of the agent with identifier `id`, if any.
    fn index_of_id(&self, id: AgentId) -> (r: Option<usize>)
        requires
            self.wf(),
        ensures
            match r {
                Some(i) => i < self@.len() && self@[i as int].id == id
                    && key_index(self@, agent_id_of(), id) == i as int,
                None => !has_key(self@, agent_id_of(), id),
            },
            r is Some <==> has_key(self@, agent_id_of(), id),
    {
        let mut i: usize = 0;
        while i < self.agents.len()
            invariant
                i <= self.agents@.len(),
                self@.len() == self.agents@.len(),
                self.wf(),
                forall|j: int| 0 <= j < i ==> #[trigger] self@[j].id != id,
            decreases self.agents.len() - i,
        {
            if self.agents[i].id == id {
                proof {
                    assert(self@[i as int] == self.agents@[i as int]@);
                    lemma_key_index(self@, agent_id_of(), i as int);
                }
                return Some(i);
            }
            assert(self@[i as int] == self.agents@[i as int]@);
            i = i + 1;
        }
        proof {
            if has_key(self@, agent_id_of(), id) {
                let j = key_index(self@, agent_id_of(), id);
                assert(agent_id_of()(self@[j]) == id);
            }
        }
        None
    }

    /// The position of the agent named `name`, if any.
    fn index_of_name(&self, name: &str) -> (r: Option<usize>)
        requires
            self.wf(),
        ensures
            match r {
                Some(i) => i < self@.len() && self@[i as int].name == name@
                    && key_index(self@, agent_name_of(), name@) == i as int,
                None => !has_key(self@, agent_name_of(), name@),
            },
            r is Some <==> has_key(self@, agent_name_of(), name@),
    {
        let wanted = name.to_owned();
        let mut i: usize = 0;
        while i < self.agents.len()
            invariant
                i <= self.agents@.len(),
                self@.len() == self.agents@.len(),
                self.wf(),
                wanted@ == name@,
                forall|j: int| 0 <= j < i ==> #[trigger] self@[j].name != name@,
            decreases self.agents.len() - i,
        {
            if self.agents[i].name == wanted {
                proof {
                    assert(self@[i as int] == self.agents@[i as int]@);
                    lemma_key_index(self@, agent_name_of(), i as int);
                }
                return Some(i);
            }
            assert(self@[i as int] == self.agents@[i as int]@);
            i = i + 1;
        }
        proof {
            if has_key(self@, agent_name_of(), name@) {
                let j = key_index(self@, agent_name_of(), name@);
                assert(agent_name_of()(self@[j]) == name@);
            }
        }
        None
    }

    /// Register a new agent with the given `name` and optional declared
    /// capabilities, and announce it on the bus.
    ///
    /// # Errors
    ///
    /// - [`Error::AgentInvalidName`]: `name` fails the validation rules.
    /// - [`Error::AgentAlreadyRegistered`]: an agent named `name` exists.
    pub fn register(&mut self, name: &str, capabilities: Option<AgentCapabilities>) -> (r: Result<AgentInfo, Error>)
        requires
            old(self).wf(),
        ensures
            final(self).wf(),
            final(self).bus() == old(self).bus(),
            r is Ok <==> (agent_name_rejection(name.spec_bytes()) is None
                && !has_key(old(self)@, agent_name_of(), name@)),
            match r {
                Ok(info) => {
                    &&& info@.name == name@
                    &&& info@.status == AgentStatus::Connected
                    &&& info@.capabilities == caps_view(capabilities)
                    &&& final(self)@ == spec_register(old(self)@, info@)
                    &&& final(self).announced() == old(self).announced().push(EventView::AgentRegistered(info@))
                },
                Err(e) => {
                    &&& final(self)@ == old(self)@
                    &&& final(self).announced() == old(self).announced()
                    &&& match agent_name_rejection(name.spec_bytes()) {
                        Some(reason) => e matches Error::AgentInvalidName { name: n, reason: m }
                            && n@ == name@ && m@ == reason,
                        None => e matches Error::AgentAlreadyRegistered { name: n } && n@ == name@,
                    }
                },
            },
    {
        match validate_name(name) {
            Err(e) => return Err(e),
            Ok(()) => {},
        }
        if self.index_of_name(name).is_some() {
            return Err(Error::AgentAlreadyRegistered { name: name.to_owned() });
        }
        let info = AgentInfo {
            id: AgentId::new(),
            name: name.to_owned(),
            registered_at: now(),
            status: AgentStatus::Connected,
            capabilities,
        };
        let ghost old_view = self@;
        proof {
            lemma_upsert(old_view, agent_id_of(), info@);
            lemma_upsert_second_key(old_view, agent_id_of(), agent_name_of(), info@);
        }
        match self.index_of_id(info.id) {
            Some(i) => {
                self.agents.set(i, info.clone());
                assert(self@ =~= old_view.update(i as int, info@));
            },
            None => {
                self.agents.push(info.clone());
                assert(self@ =~= old_view.push(info@));
            },
        }
        self.announce(Event::AgentRegistered(info.clone()));
        Ok(info)
    }

    /// Remove the agent identified by `id` from the registry, announce it on
    /// the bus, and return it.
    ///
    /// # Errors
    ///
    /// - [`Error::AgentNotFound`]: no agent with `id` is registered; the
    ///   error carries the identifier's text.
    pub fn deregister(&mut self, id: &AgentId) -> (r: Result<AgentInfo, Error>)
        requires
            old(self).wf(),
        ensures
            final(self).wf(),
            final(self).bus() == old(self).bus(),
            match lookup(old(self)@, agent_id_of(), *id) {
                Some(a) => r matches Ok(info) && info@ == a
                    && final(self)@ == remove_key(old(self)@, agent_id_of(), *id)
                    && final(self).announced() == old(self).announced().push(EventView::AgentDeregistered(*id)),
                None => r matches Err(Error::AgentNotFound { name: n }) && n@ == uuid_text(id.0)
                    && final(self)@ == old(self)@ && final(self).announced() == old(self).announced(),
            },
    {
        let ghost old_view = self@;
        proof {
            lemma_remove_key(old_view, agent_id_of(), *id);
            lemma_remove_second_key(old_view, agent_id_of(), agent_name_of(), *id);
        }
        match self.index_of_id(*id) {
            None => Err(Error::AgentNotFound { name: id.to_string() }),
            Some(i) => {
                let info = self.agents.remove(i);
                assert(self@ =~= old_view.remove(i as int));
                self.announce(Event::AgentDeregistered(*id));
                Ok(info)
            },
        }
    }

    /// Look up an agent by its identifier.
    pub fn get(&self, id: &AgentId) -> (r: Option<&AgentInfo>)
        requires
            self.wf(),
        ensures
            match r {
                Some(a) => lookup(self@, agent_id_of(), *id) == Some(a@),
                None => lookup(self@, agent_id_of(), *id) is None,
            },
    {
        match self.index_of_id(*id) {
            Some(i) => {
                assert(self@[i as int] == self.agents@[i as int]@);
                Some(&self.agents[i])
            },
            None => None,
        }
    }

    /// All registered agents, in registration order.
    pub fn list(&self) -> (r: Vec<&AgentInfo>)
        ensures
            r@.len() == self@.len(),
            forall|i: int| 0 <= i < r@.len() ==> (#[trigger] r@[i])@ == self@[i],
    {
        let mut r: Vec<&AgentInfo> = Vec::new();
        let mut i: usize = 0;
        while i < self.agents.len()
            invariant
                i <= self.agents@.len(),
                self@.len() == self.agents@.len(),
                r@.len() == i,
                forall|j: int| 0 <= j < i ==> (#[trigger] r@[j])@ == self@[j],
            decreases self.agents.len() - i,
        {
            r.push(&self.agents[i]);
            i = i + 1;
        }
        r
    }

    /// Find an agent by name; names are unique, so there is at most one.
    pub fn find_by_name(&self, name: &str) -> (r: Option<&AgentInfo>)
        requires
            self.wf(),
        ensures
            match r {
                Some(a) => lookup(self@, agent_name_of(), name@) == Some(a@),
                None => lookup(self@, agent_name_of(), name@) is None,
            },
    {
        match self.index_of_name(name) {
            Some(i) => {
                assert(self@[i as int] == self.agents@[i as int]@);
                Some(&self.agents[i])
            },
            None => None,
        }
    }
}

// ── Laws ─────────────────────────────────────────────────────────────────────

/// After a successful registration the new agent is found both by its
/// identifier and by its name, and every other identifier finds what it
/// found before.
pub proof fn lemma_registered_agent_is_found(s: Seq<AgentInfoView>, info: AgentInfoView)
    requires
        keys_unique(s, agent_id_of()),
        keys_unique(s, agent_name_of()),
        !has_key(s, agent_name_of(), info.name),
    ensures
        lookup(spec_register(s, info), agent_id_of(), info.id) == Some(info),
        lookup(spec_register(s, info), agent_name_of(), info.name) == Some(info),
        forall|k: AgentId| k != info.id ==> #[trigger] lookup(spec_register(s, info), agent_id_of(), k)
            == lookup(s, agent_id_of(), k),
{
    lemma_upsert(s, agent_id_of(), info);
    lemma_upsert_second_key(s, agent_id_of(), agent_name_of(), info);
}

/// After deregistering an identifier no agent has it, the name the agent
/// held is free for a new registration, and every other identifier finds
/// what it found before.
pub proof fn lemma_deregistered_agent_is_gone(s: Seq<AgentInfoView>, id: AgentId)
    requires
        keys_unique(s, agent_id_of()),
        keys_unique(s, agent_name_of()),
    ensures
        lookup(remove_key(s, agent_id_of(), id), agent_id_of(), id) is None,
        lookup(s, agent_id_of(), id) matches Some(a)
            ==> !has_key(remove_key(s, agent_id_of(), id), agent_name_of(), a.name),
        forall|k: AgentId| k != id ==> #[trigger] lookup(remove_key(s, agent_id_of(), id), agent_id_of(), k)
            == lookup(s, agent_id_of(), k),
{
    lemma_remove_key(s, agent_id_of(), id);
    lemma_remove_second_key(s, agent_id_of(), agent_name_of(), id);
}

/// Registering an agent under a fresh identifier and then deregistering
/// that identifier leaves the registry as it was.
pub proof fn lemma_deregister_undoes_register(s: Seq<AgentInfoView>, info: AgentInfoView)
    requires
        keys_unique(s, agent_id_of()),
        !has_key(s, agent_id_of(), info.id),
    ensures
        remove_key(spec_register(s, info), agent_id_of(), info.id) == s,
{
    lemma_remove_undoes_fresh_upsert(s, agent_id_of(), info);
}

} // verus!
