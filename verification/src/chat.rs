//! Conversation manager.
//!
//! Conversations and their message histories are kept apart, each as a
//! keyed sequence by conversation identifier, so that listing
//! conversations never walks message bodies. Every successful send is
//! announced on the bus.

use std::sync::Arc;

use vstd::prelude::*;

use crate::error::Error;
use crate::events::{Event, EventView, MessageBus};
use crate::ids::{uuid_parse, uuid_text, AgentId, ConversationId, MessageId};
use crate::model::{now, opt_view, ChatMessage, ChatMessageView, Conversation, ConversationView};
use crate::store::{has_key, key_index, keys_unique, lemma_contains_push, lemma_key_index, lemma_upsert, lookup, upsert};

verus! {

/// Read a conversation identifier from a request path: a text that is not
/// a UUID names no conversation.
///
/// # Errors
///
/// [`Error::ConversationNotFound`] carrying the raw text when it is not a
/// UUID.
pub fn parse_conversation_id(raw: &str) -> (r: Result<ConversationId, Error>)
    ensures
        match uuid_parse(raw@) {
            Some(v) => r matches Ok(id) && id == ConversationId(v),
            None => r matches Err(Error::ConversationNotFound { id }) && id@ == raw@,
        },
{
    match ConversationId::from_text(raw) {
        Ok(id) => Ok(id),
        Err(_) => Err(Error::ConversationNotFound { id: raw.to_owned() }),
    }
}

/// A conversation's message history, oldest first.
pub type ThreadView = (ConversationId, Seq<ChatMessageView>);

/// The views of a sequence of messages.
pub open spec fn chat_msgs_view(v: Seq<ChatMessage>) -> Seq<ChatMessageView> {
    v.map_values(|m: ChatMessage| m@)
}

/// The identifier of a conversation.
pub open spec fn conv_id_of() -> spec_fn(ConversationView) -> ConversationId {
    |c: ConversationView| c.id
}

/// The conversation a history belongs to.
pub open spec fn thread_id_of() -> spec_fn(ThreadView) -> ConversationId {
    |t: ThreadView| t.0
}

/// `s` with each agent kept at its first occurrence only.
pub open spec fn dedup(s: Seq<AgentId>) -> Seq<AgentId> {
    s.fold_left(Seq::<AgentId>::empty(), |acc: Seq<AgentId>, a: AgentId| if acc.contains(a) { acc } else { acc.push(a) })
}

/// The history stored for conversation `id`, if any.
pub open spec fn thread_of(threads: Seq<ThreadView>, id: ConversationId) -> Option<Seq<ChatMessageView>> {
    match lookup(threads, thread_id_of(), id) {
        Some(t) => Some(t.1),
        None => None,
    }
}

/// The history of conversation `id` with `m` appended (an absent history
/// counts as empty).
pub open spec fn spec_append(threads: Seq<ThreadView>, id: ConversationId, m: ChatMessageView) -> Seq<ThreadView> {
    let prior = match thread_of(threads, id) {
        Some(ms) => ms,
        None => Seq::<ChatMessageView>::empty(),
    };
    upsert(threads, thread_id_of(), (id, prior.push(m)))
}

/// The abstract state of a [`ChatManager`].
pub struct ChatState {
    /// Conversations in creation order.
    pub conversations: Seq<ConversationView>,
    /// Message histories by conversation.
    pub threads: Seq<ThreadView>,
}

struct MessageThread {
    conversation_id: ConversationId,
    messages: Vec<ChatMessage>,
}

impl View for MessageThread {
    type V = ThreadView;

    closed spec fn view(&self) -> ThreadView {
        (self.conversation_id, chat_msgs_view(self.messages@))
    }
}

/// Manages conversations and their message histories.
pub struct ChatManager {
    conversations: Vec<Conversation>,
    threads: Vec<MessageThread>,
    bus: Arc<MessageBus>,
    /// The events announced on the bus so far, oldest first.
    announced: Ghost<Seq<EventView>>,
}

impl View for ChatManager {
    type V = ChatState;

    closed spec fn view(&self) -> ChatState {
        ChatState {
            conversations: self.conversations@.map_values(|c: Conversation| c@),
            threads: self.threads@.map_values(|t: MessageThread| t@),
        }
    }
}

/// The conversations behind a sequence of references.
pub open spec fn conv_refs_view<'a>(v: Seq<&'a Conversation>) -> Seq<ConversationView> {
    v.map_values(|c: &'a Conversation| c@)
}

/// What restoring leaves: the conversations and the histories, each in
/// turn, a later entry replacing an earlier one with the same identifier.
pub open spec fn spec_restore_chat(convs: Seq<ConversationView>, threads: Seq<ThreadView>) -> ChatState {
    ChatState {
        conversations: convs.fold_left(
            Seq::<ConversationView>::empty(),
            |acc: Seq<ConversationView>, c: ConversationView| upsert(acc, conv_id_of(), c),
        ),
        threads: threads.fold_left(
            Seq::<ThreadView>::empty(),
            |acc: Seq<ThreadView>, t: ThreadView| upsert(acc, thread_id_of(), t),
        ),
    }
}

/// A copy of `participants` with each agent kept at its first occurrence.
fn dedup_agents(participants: &Vec<AgentId>) -> (r: Vec<AgentId>)
    ensures
        r@ == dedup(participants@),
{
    let mut r: Vec<AgentId> = Vec::new();
    let mut i: usize = 0;
    assert(participants@.subrange(0, 0) =~= Seq::<AgentId>::empty());
    while i < participants.len()
        invariant
            i <= participants@.len(),
            r@ == dedup(participants@.subrange(0, i as int)),
        decreases participants.len() - i,
    {
        let a = participants[i];
        let mut seen = false;
        let mut j: usize = 0;
        while j < r.len()
            invariant
                j <= r@.len(),
                seen <==> r@.subrange(0, j as int).contains(a),
            decreases r.len() - j,
        {
            if r[j] == a {
                seen = true;
            }
            proof {
                assert(r@.subrange(0, j + 1) =~= r@.subrange(0, j as int).push(r@[j as int]));
                lemma_contains_push(r@.subrange(0, j as int), r@[j as int], a);
            }
            j = j + 1;
        }
        assert(r@.subrange(0, j as int) =~= r@);
        proof {
            assert(participants@.subrange(0, i + 1).drop_last() =~= participants@.subrange(0, i as int));
            assert(participants@.subrange(0, i + 1).last() == a);
        }
        if !seen {
            r.push(a);
        }
        i = i + 1;
    }
    assert(participants@.subrange(0, i as int) =~= participants@);
    r
}

impl ChatManager {
    /// Conversation identifiers and history identifiers are each pairwise
    /// distinct.
    pub open spec fn wf(&self) -> bool {
        keys_unique(self@.conversations, conv_id_of()) && keys_unique(self@.threads, thread_id_of())
    }

    /// The bus this manager announces its changes on.
    pub closed spec fn bus(&self) -> Arc<MessageBus> {
        self.bus
    }

    /// The events this manager has announced on its bus, oldest first.
    pub closed spec fn announced(&self) -> Seq<EventView> {
        self.announced@
    }

    /// Announce `event` on the bus.
    fn announce(&mut self, event: Event)
        ensures
            final(self)@ == old(self)@,
            final(self).bus() == old(self).bus(),
            final(self).announced() == old(self).announced().push(event@),
    {
        self.announced = Ghost(self.announced@.push(event@));
        self.bus.publish(event);
    }

    /// Create an empty manager backed by `bus` for event publishing.
    pub fn new(bus: Arc<MessageBus>) -> (r: Self)
        ensures
            r.wf(),
            r@.conversations == Seq::<ConversationView>::empty(),
            r@.threads == Seq::<ThreadView>::empty(),
            r.bus() == bus,
            r.announced() == Seq::<EventView>::empty(),
    {
        let r = ChatManager { conversations: Vec::new(), threads: Vec::new(), bus, announced: Ghost(Seq::empty()) };
        assert(r@.conversations =~= Seq::<ConversationView>::empty());
        assert(r@.threads =~= Seq::<ThreadView>::empty());
        r
    }

    fn conv_index(&self, id: ConversationId) -> (r: Option<usize>)
        requires
            self.wf(),
        ensures
            match r {
                Some(i) => i < self@.conversations.len()
                    && lookup(self@.conversations, conv_id_of(), id) == Some(self@.conversations[i as int]),
                None => lookup(self@.conversations, conv_id_of(), id) is None,
            },
    {
        let ghost s = self@.conversations;
        let mut i: usize = 0;
        while i < self.conversations.len()
            invariant
                i <= self.conversations@.len(),
                s == self@.conversations,
                s.len() == self.conversations@.len(),
                keys_unique(s, conv_id_of()),
                forall|j: int| 0 <= j < i ==> #[trigger] s[j].id != id,
            decreases self.conversations.len() - i,
        {
            assert(s[i as int] == self.conversations@[i as int]@);
            if self.conversations[i].id == id {
                proof {
                    lemma_key_index(s, conv_id_of(), i as int);
                }
                return Some(i);
            }
            i = i + 1;
        }
        proof {
            if has_key(s, conv_id_of(), id) {
                let j = key_index(s, conv_id_of(), id);
                assert(conv_id_of()(s[j]) == id);
            }
        }
        None
    }

    fn thread_index(&self, id: ConversationId) -> (r: Option<usize>)
        requires
            self.wf(),
        ensures
            match r {
                Some(i) => i < self@.threads.len() && self@.threads[i as int].0 == id
                    && key_index(self@.threads, thread_id_of(), id) == i as int
                    && lookup(self@.threads, thread_id_of(), id) == Some(self@.threads[i as int]),
                None => !has_key(self@.threads, thread_id_of(), id)
                    && lookup(self@.threads, thread_id_of(), id) is None,
            },
    {
        let ghost s = self@.threads;
        let mut i: usize = 0;
        while i < self.threads.len()
            invariant
                i <= self.threads@.len(),
                s == self@.threads,
                s.len() == self.threads@.len(),
                keys_unique(s, thread_id_of()),
                forall|j: int| 0 <= j < i ==> #[trigger] s[j].0 != id,
            decreases self.threads.len() - i,
        {
            assert(s[i as int] == self.threads@[i as int]@);
            if self.threads[i].conversation_id == id {
                proof {
                    lemma_key_index(s, thread_id_of(), i as int);
                }
                return Some(i);
            }
            i = i + 1;
        }
        proof {
            if has_key(s, thread_id_of(), id) {
                let j = key_index(s, thread_id_of(), id);
                assert(thread_id_of()(s[j]) == id);
            }
        }
        None
    }

    fn put_conversation(&mut self, c: Conversation)
        requires
            old(self).wf(),
        ensures
            final(self).wf(),
            final(self)@.conversations == upsert(old(self)@.conversations, conv_id_of(), c@),
            final(self)@.threads == old(self)@.threads,
            final(self).bus() == old(self).bus(),
            final(self).announced() == old(self).announced(),
    {
        let ghost before = self@.conversations;
        proof {
            lemma_upsert(before, conv_id_of(), c@);
        }
        match self.conv_index(c.id) {
            Some(i) => {
                proof {
                    lemma_key_index(before, conv_id_of(), i as int);
                }
                self.conversations.set(i, c);
                assert(self@.conversations =~= before.update(i as int, c@));
            },
            None => {
                self.conversations.push(c);
                assert(self@.conversations =~= before.push(c@));
            },
        }
    }

    fn put_thread(&mut self, t: MessageThread)
        requires
            old(self).wf(),
        ensures
            final(self).wf(),
            final(self)@.threads == upsert(old(self)@.threads, thread_id_of(), t@),
            final(self)@.conversations == old(self)@.conversations,
            final(self).bus() == old(self).bus(),
            final(self).announced() == old(self).announced(),
    {
        let ghost before = self@.threads;
        proof {
            lemma_upsert(before, thread_id_of(), t@);
        }
        match self.thread_index(t.conversation_id) {
            Some(i) => {
                self.threads.set(i, t);
                assert(self@.threads =~= before.update(i as int, t@));
            },
            None => {
                self.threads.push(t);
                assert(self@.threads =~= before.push(t@));
            },
        }
    }

    /// Create a conversation with an optional display name and the given
    /// participants (each kept once), with an empty history.
    ///
    /// # Errors
    ///
    /// - [`Error::ConversationEmptyParticipants`]: `participants` is empty.
    pub fn create_conversation(&mut self, name: Option<String>, participants: Vec<AgentId>) -> (r: Result<
        Conversation,
        Error,
    >)
        requires
            old(self).wf(),
        ensures
            final(self).wf(),
            final(self).bus() == old(self).bus(),
            final(self).announced() == old(self).announced(),
            participants@.len() == 0 ==> (r matches Err(Error::ConversationEmptyParticipants)
                && final(self)@ == old(self)@),
            participants@.len() > 0 ==> (r matches Ok(c) && {
                &&& c@.name == opt_view(name)
                &&& c@.participants == dedup(participants@)
                &&& final(self)@.conversations == upsert(old(self)@.conversations, conv_id_of(), c@)
                &&& final(self)@.threads == upsert(
                    old(self)@.threads,
                    thread_id_of(),
                    (c@.id, Seq::<ChatMessageView>::empty()),
                )
            }),
    {
        if participants.len() == 0 {
            return Err(Error::ConversationEmptyParticipants);
        }
        let conv = Conversation {
            id: ConversationId::new(),
            name,
            participants: dedup_agents(&participants),
            created_at: now(),
        };
        self.put_conversation(conv.clone());
        let t = MessageThread { conversation_id: conv.id, messages: Vec::new() };
        assert(t@ =~= (conv@.id, Seq::<ChatMessageView>::empty()));
        self.put_thread(t);
        Ok(conv)
    }

    /// Send a message from `sender` into a conversation; on success the
    /// message is appended to the conversation's history and announced on
    /// the bus.
    ///
    /// # Errors
    ///
    /// - [`Error::ConversationNotFound`]: no conversation has that
    ///   identifier.
    /// - [`Error::ConversationNotParticipant`]: `sender` is not one of its
    ///   participants.
    pub fn send_message(&mut self, conversation_id: &ConversationId, sender: AgentId, content: String) -> (r: Result<
        ChatMessage,
        Error,
    >)
        requires
            old(self).wf(),
        ensures
            final(self).wf(),
            final(self).bus() == old(self).bus(),
            r is Err ==> final(self).announced() == old(self).announced(),
            r matches Ok(m) ==> final(self).announced() == old(self).announced().push(EventView::NewMessage(m@)),
            match lookup(old(self)@.conversations, conv_id_of(), *conversation_id) {
                None => r matches Err(Error::ConversationNotFound { id }) && id@ == uuid_text(conversation_id.0)
                    && final(self)@ == old(self)@,
                Some(c) => if !c.participants.contains(sender) {
                    r matches Err(Error::ConversationNotParticipant { agent, id })
                        && agent@ == uuid_text(sender.0) && id@ == uuid_text(conversation_id.0)
                        && final(self)@ == old(self)@
                } else {
                    r matches Ok(m) && {
                        &&& m@.conversation_id == *conversation_id
                        &&& m@.sender == sender
                        &&& m@.content == content@
                        &&& final(self)@.conversations == old(self)@.conversations
                        &&& final(self)@.threads == spec_append(old(self)@.threads, *conversation_id, m@)
                    }
                },
            },
    {
        let ci = match self.conv_index(*conversation_id) {
            None => return Err(Error::ConversationNotFound { id: conversation_id.to_string() }),
            Some(ci) => ci,
        };
        assert(self@.conversations[ci as int] == self.conversations@[ci as int]@);
        let mut found = false;
        let mut k: usize = 0;
        let ghost ps = self.conversations@[ci as int].participants@;
        while k < self.conversations[ci].participants.len()
            invariant
                ci < self.conversations@.len(),
                ps == self.conversations@[ci as int].participants@,
                k <= ps.len(),
                found <==> ps.subrange(0, k as int).contains(sender),
            decreases ps.len() - k,
        {
            if self.conversations[ci].participants[k] == sender {
                found = true;
            }
            assert(ps.subrange(0, k + 1) =~= ps.subrange(0, k as int).push(ps[k as int]));
            proof {
                lemma_contains_push(ps.subrange(0, k as int), ps[k as int], sender);
            }
            k = k + 1;
        }
        assert(ps.subrange(0, k as int) =~= ps);
        if !found {
            return Err(Error::ConversationNotParticipant { agent: sender.to_string(), id: conversation_id.to_string() });
        }
        let msg = ChatMessage {
            id: MessageId::new(),
            conversation_id: *conversation_id,
            sender,
            content,
            timestamp: now(),
        };
        let ghost threads = self@.threads;
        let mut messages = match self.thread_index(*conversation_id) {
            Some(ti) => {
                assert(threads[ti as int] == self.threads@[ti as int]@);
                self.threads[ti].messages.clone()
            },
            None => Vec::new(),
        };
        let ghost prior = chat_msgs_view(messages@);
        messages.push(msg.clone());
        assert(chat_msgs_view(messages@) =~= prior.push(msg@));
        assert(prior == (match thread_of(threads, *conversation_id) {
            Some(ms) => ms,
            None => Seq::<ChatMessageView>::empty(),
        }));
        self.put_thread(MessageThread { conversation_id: *conversation_id, messages });
        self.announce(Event::NewMessage(msg.clone()));
        Ok(msg)
    }

    /// The conversation with identifier `id`, if any.
    pub fn get_conversation(&self, id: &ConversationId) -> (r: Option<&Conversation>)
        requires
            self.wf(),
        ensures
            match r {
                Some(c) => lookup(self@.conversations, conv_id_of(), *id) == Some(c@),
                None => lookup(self@.conversations, conv_id_of(), *id) is None,
            },
    {
        match self.conv_index(*id) {
            Some(i) => {
                assert(self@.conversations[i as int] == self.conversations@[i as int]@);
                Some(&self.conversations[i])
            },
            None => None,
        }
    }

    /// The message history of a conversation, oldest first.
    ///
    /// # Errors
    ///
    /// - [`Error::ConversationNotFound`]: no history is stored under that
    ///   identifier.
    pub fn get_messages(&self, conversation_id: &ConversationId) -> (r: Result<&[ChatMessage], Error>)
        requires
            self.wf(),
        ensures
            match thread_of(self@.threads, *conversation_id) {
                Some(ms) => r matches Ok(s) && chat_msgs_view(s@) == ms,
                None => r matches Err(Error::ConversationNotFound { id }) && id@ == uuid_text(conversation_id.0),
            },
    {
        match self.thread_index(*conversation_id) {
            Some(i) => {
                assert(self@.threads[i as int] == self.threads@[i as int]@);
                Ok(self.threads[i].messages.as_slice())
            },
            None => Err(Error::ConversationNotFound { id: conversation_id.to_string() }),
        }
    }

    /// All conversations, in creation order.
    pub fn list_conversations(&self) -> (r: Vec<&Conversation>)
        ensures
            conv_refs_view(r@) == self@.conversations,
    {
        let ghost s = self@.conversations;
        let mut r: Vec<&Conversation> = Vec::new();
        let mut i: usize = 0;
        while i < self.conversations.len()
            invariant
                i <= self.conversations@.len(),
                s == self@.conversations,
                s.len() == self.conversations@.len(),
                conv_refs_view(r@) == s.subrange(0, i as int),
            decreases self.conversations.len() - i,
        {
            assert(s[i as int] == self.conversations@[i as int]@);
            assert(s.subrange(0, i + 1) =~= s.subrange(0, i as int).push(s[i as int]));
            r.push(&self.conversations[i]);
            assert(conv_refs_view(r@) =~= s.subrange(0, i as int).push(s[i as int]));
            i = i + 1;
        }
        assert(s.subrange(0, i as int) =~= s);
        r
    }

    /// The conversations `agent_id` participates in, in creation order.
    pub fn conversations_for_agent(&self, agent_id: &AgentId) -> (r: Vec<&Conversation>)
        ensures
            conv_refs_view(r@) == self@.conversations.filter(|c: ConversationView| c.participants.contains(*agent_id)),
    {
        let ghost s = self@.conversations;
        let ghost pred = |c: ConversationView| c.participants.contains(*agent_id);
        let mut r: Vec<&Conversation> = Vec::new();
        let mut i: usize = 0;
        while i < self.conversations.len()
            invariant
                i <= self.conversations@.len(),
                s == self@.conversations,
                s.len() == self.conversations@.len(),
                pred == (|c: ConversationView| c.participants.contains(*agent_id)),
                conv_refs_view(r@) == s.subrange(0, i as int).filter(pred),
            decreases self.conversations.len() - i,
        {
            proof {
                reveal(Seq::filter);
                assert(s.subrange(0, i + 1).drop_last() =~= s.subrange(0, i as int));
                assert(s.subrange(0, i + 1).last() == self.conversations@[i as int]@);
            }
            let c = &self.conversations[i];
            let ghost ps = c.participants@;
            let mut found = false;
            let mut k: usize = 0;
            while k < c.participants.len()
                invariant
                    ps == c.participants@,
                    k <= ps.len(),
                    found <==> ps.subrange(0, k as int).contains(*agent_id),
                decreases ps.len() - k,
            {
                if c.participants[k] == *agent_id {
                    found = true;
                }
                assert(ps.subrange(0, k + 1) =~= ps.subrange(0, k as int).push(ps[k as int]));
                proof {
                    lemma_contains_push(ps.subrange(0, k as int), ps[k as int], *agent_id);
                }
                k = k + 1;
            }
            assert(ps.subrange(0, k as int) =~= ps);
            if found {
                r.push(c);
                assert(conv_refs_view(r@) =~= s.subrange(0, i as int).filter(pred).push(c@));
            }
            i = i + 1;
        }
        assert(s.subrange(0, i as int) =~= s);
        r
    }

    /// Clear all conversations and histories, then repopulate from the
    /// given ones, in order; a later entry replaces an earlier one with the
    /// same identifier. No bus events are published.
    pub fn restore(&mut self, conversations: Vec<Conversation>, messages: Vec<(ConversationId, Vec<ChatMessage>)>)
        ensures
            final(self).wf(),
            final(self)@ == spec_restore_chat(
                conversations@.map_values(|c: Conversation| c@),
                messages@.map_values(|p: (ConversationId, Vec<ChatMessage>)| (p.0, chat_msgs_view(p.1@))),
            ),
            final(self).bus() == old(self).bus(),
            final(self).announced() == old(self).announced(),
    {
        let ghost bus0 = self.bus();
        let ghost announced0 = self.announced();
        self.conversations = Vec::new();
        self.threads = Vec::new();
        let ghost cs = conversations@.map_values(|c: Conversation| c@);
        let ghost ts = messages@.map_values(|p: (ConversationId, Vec<ChatMessage>)| (p.0, chat_msgs_view(p.1@)));
        assert(self@.conversations =~= Seq::<ConversationView>::empty());
        assert(self@.threads =~= Seq::<ThreadView>::empty());
        assert(cs.subrange(0, 0) =~= Seq::<ConversationView>::empty());
        assert(ts.subrange(0, 0) =~= Seq::<ThreadView>::empty());
        let mut i: usize = 0;
        while i < conversations.len()
            invariant
                i <= conversations@.len(),
                cs == conversations@.map_values(|c: Conversation| c@),
                self.wf(),
                self@.conversations == spec_restore_chat(cs.subrange(0, i as int), Seq::empty()).conversations,
                self@.threads == Seq::<ThreadView>::empty(),
                self.bus() == bus0,
                self.announced() == announced0,
            decreases conversations.len() - i,
        {
            let c = conversations[i].clone();
            proof {
                assert(cs.subrange(0, i + 1).drop_last() =~= cs.subrange(0, i as int));
                assert(cs.subrange(0, i + 1).last() == c@);
            }
            self.put_conversation(c);
            i = i + 1;
        }
        assert(cs.subrange(0, i as int) =~= cs);
        let mut i: usize = 0;
        while i < messages.len()
            invariant
                i <= messages@.len(),
                ts == messages@.map_values(|p: (ConversationId, Vec<ChatMessage>)| (p.0, chat_msgs_view(p.1@))),
                self.wf(),
                self@.conversations == spec_restore_chat(cs, Seq::empty()).conversations,
                self@.threads == spec_restore_chat(Seq::empty(), ts.subrange(0, i as int)).threads,
                self.bus() == bus0,
                self.announced() == announced0,
            decreases messages.len() - i,
        {
            let mut msgs: Vec<ChatMessage> = Vec::new();
            let mut k: usize = 0;
            while k < messages[i].1.len()
                invariant
                    i < messages@.len(),
                    k <= messages@[i as int].1@.len(),
                    chat_msgs_view(msgs@) == chat_msgs_view(messages@[i as int].1@).subrange(0, k as int),
                decreases messages@[i as int].1@.len() - k,
            {
                let ghost src = chat_msgs_view(messages@[i as int].1@);
                let m = messages[i].1[k].clone();
                assert(m@ == src[k as int]);
                assert(src.subrange(0, k + 1) =~= src.subrange(0, k as int).push(src[k as int]));
                msgs.push(m);
                assert(chat_msgs_view(msgs@) =~= src.subrange(0, k as int).push(src[k as int]));
                k = k + 1;
            }
            assert(chat_msgs_view(msgs@) =~= chat_msgs_view(messages@[i as int].1@));
            let t = MessageThread { conversation_id: messages[i].0, messages: msgs };
            proof {
                assert(ts.subrange(0, i + 1).drop_last() =~= ts.subrange(0, i as int));
                assert(ts.subrange(0, i + 1).last() == t@);
            }
            self.put_thread(t);
            i = i + 1;
        }
        assert(ts.subrange(0, i as int) =~= ts);
    }
}

// ── Laws ─────────────────────────────────────────────────────────────────────

/// The participants of a new conversation hold each agent once, and hold
/// exactly the agents it was created with.
pub proof fn lemma_dedup_is_a_set(s: Seq<AgentId>)
    ensures
        dedup(s).no_duplicates(),
        forall|a: AgentId| #[trigger] dedup(s).contains(a) <==> s.contains(a),
    decreases s.len(),
{
    if s.len() > 0 {
        let init = s.drop_last();
        let x = s.last();
        lemma_dedup_is_a_set(init);
        let d = dedup(init);
        assert(dedup(s) == (if d.contains(x) { d } else { d.push(x) }));
        assert forall|a: AgentId| #[trigger] dedup(s).contains(a) <==> s.contains(a) by {
            lemma_contains_push(d, x, a);
            lemma_contains_push(init, x, a);
            assert(init.push(x) =~= s);
        }
        if !d.contains(x) {
            assert forall|i: int, j: int| 0 <= i < d.push(x).len() && 0 <= j < d.push(x).len() && i != j
                implies d.push(x)[i] != d.push(x)[j] by {
                if i == d.len() {
                    assert(d[j] != x);
                } else if j == d.len() {
                    assert(d[i] != x);
                }
            }
        }
    }
}

/// A message sent to a conversation becomes the last of its history, after
/// everything sent before it; other histories are unchanged.
pub proof fn lemma_sent_message_is_last(threads: Seq<ThreadView>, id: ConversationId, m: ChatMessageView)
    requires
        keys_unique(threads, thread_id_of()),
    ensures
        thread_of(spec_append(threads, id, m), id) == Some(
            match thread_of(threads, id) {
                Some(ms) => ms,
                None => Seq::<ChatMessageView>::empty(),
            }.push(m),
        ),
        forall|k: ConversationId| k != id ==> #[trigger] thread_of(spec_append(threads, id, m), k)
            == thread_of(threads, k),
{
    let prior = match thread_of(threads, id) {
        Some(ms) => ms,
        None => Seq::<ChatMessageView>::empty(),
    };
    lemma_upsert(threads, thread_id_of(), (id, prior.push(m)));
    assert forall|k: ConversationId| k != id implies #[trigger] thread_of(spec_append(threads, id, m), k)
        == thread_of(threads, k) by {
        assert(lookup(upsert(threads, thread_id_of(), (id, prior.push(m))), thread_id_of(), k)
            == lookup(threads, thread_id_of(), k));
    }
}

} // verus!
