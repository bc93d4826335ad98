use vstd::prelude::*;
use vstd::pervasive::VecAdditionalExecFns;
use vstd::string::StringExecFns;

use crate::context::RawUpdate;
use crate::textutil::str_eq;

verus! {

/// The match rule of one registered message handler: an optional list of
/// accepted command names, and whether the registration carries a caller
/// predicate that must also pass before the callback runs.
pub struct MessageRule {
    pub commands: Option<Vec<String>>,
    pub has_filter: bool,
}

/// The match rule of one registered callback handler: the button it
/// claims, if it claims one.
pub struct CallbackRule {
    pub button_id: Option<String>,
}

/// One key/value pair of a chat's session bag.
pub struct SessionEntry {
    pub key: String,
    pub value: String,
}

/// The per-chat ephemeral state bag.
pub struct ChatSession {
    pub chat_id: String,
    pub entries: Vec<SessionEntry>,
}

/// One fetched batch: the raw updates and the server's fresh cursor.
pub struct Batch {
    pub updates: Vec<RawUpdate>,
    pub next_offset: Option<String>,
}

/// The engine state: identity and configuration, the update cursor, the
/// handler registrations, and the session map. The embedder owns the
/// transport and the user callbacks; this state decides everything else.
///
/// The cursor belongs to the poll loop alone: `prime` and `poll_step`
/// are the only operations that move it, and every other operation
/// promises to leave it unchanged. The handler lists only ever grow, so
/// a dispatch that read them keeps its indices valid.
pub struct Robot {
    pub token: String,
    pub timeout: u64,
    pub auth: Option<String>,
    pub session_name: Option<String>,
    pub key: Option<String>,
    pub platform: String,
    pub offset_id: Option<String>,
    pub message_handlers: Vec<MessageRule>,
    pub callback_handlers: Vec<CallbackRule>,
    pub inline_registered: bool,
    pub sessions: Vec<ChatSession>,
}

/// Whether two states agree on identity and configuration.
pub open spec fn same_config(a: Robot, b: Robot) -> bool {
    &&& a.token == b.token
    &&& a.timeout == b.timeout
    &&& a.auth == b.auth
    &&& a.session_name == b.session_name
    &&& a.key == b.key
    &&& a.platform == b.platform
}

/// Whether two states agree on every handler registration.
pub open spec fn same_registry(a: Robot, b: Robot) -> bool {
    &&& a.message_handlers == b.message_handlers
    &&& a.callback_handlers == b.callback_handlers
    &&& a.inline_registered == b.inline_registered
}

/// The value stored under `key`, reading entries front to back.
pub open spec fn entry_value(entries: Seq<SessionEntry>, key: Seq<char>) -> Option<Seq<char>>
    decreases entries.len(),
{
    if entries.len() == 0 {
        None::<Seq<char>>
    } else if entries[0].key@ == key {
        Some(entries[0].value@)
    } else {
        entry_value(entries.drop_first(), key)
    }
}

/// The value stored for `chat` under `key`, reading chats front to back.
pub open spec fn session_value(sessions: Seq<ChatSession>, chat: Seq<char>, key: Seq<char>) -> Option<
    Seq<char>,
>
    decreases sessions.len(),
{
    if sessions.len() == 0 {
        None::<Seq<char>>
    } else if sessions[0].chat_id@ == chat {
        entry_value(sessions[0].entries@, key)
    } else {
        session_value(sessions.drop_first(), chat, key)
    }
}

proof fn lemma_entry_value_skip(entries: Seq<SessionEntry>, key: Seq<char>, i: int)
    requires
        0 <= i <= entries.len(),
        forall|j: int| 0 <= j < i ==> (#[trigger] entries[j]).key@ != key,
    ensures
        entry_value(entries, key) == entry_value(entries.skip(i), key),
    decreases i,
{
    if i > 0 {
        let t = entries.drop_first();
        assert forall|j: int| 0 <= j < i - 1 implies (#[trigger] t[j]).key@ != key by {
            assert(t[j] == entries[j + 1]);
        }
        lemma_entry_value_skip(t, key, i - 1);
        assert(t.skip(i - 1) =~= entries.skip(i));
    } else {
        assert(entries.skip(0) =~= entries);
    }
}

proof fn lemma_session_value_skip(sessions: Seq<ChatSession>, chat: Seq<char>, key: Seq<char>, i: int)
    requires
        0 <= i <= sessions.len(),
        forall|j: int| 0 <= j < i ==> (#[trigger] sessions[j]).chat_id@ != chat,
    ensures
        session_value(sessions, chat, key) == session_value(sessions.skip(i), chat, key),
    decreases i,
{
    if i > 0 {
        let t = sessions.drop_first();
        assert forall|j: int| 0 <= j < i - 1 implies (#[trigger] t[j]).chat_id@ != chat by {
            assert(t[j] == sessions[j + 1]);
        }
        lemma_session_value_skip(t, chat, key, i - 1);
        assert(t.skip(i - 1) =~= sessions.skip(i));
    } else {
        assert(sessions.skip(0) =~= sessions);
    }
}

/// Reading a chat found by first match reads its entry bag.
proof fn lemma_session_value_at(sessions: Seq<ChatSession>, chat: Seq<char>, ci: int)
    requires
        0 <= ci < sessions.len(),
        forall|j: int| 0 <= j < ci ==> (#[trigger] sessions[j]).chat_id@ != chat,
        sessions[ci].chat_id@ == chat,
    ensures
        forall|k: Seq<char>|
            #[trigger] session_value(sessions, chat, k) == entry_value(sessions[ci].entries@, k),
{
    assert forall|k: Seq<char>|
        #[trigger] session_value(sessions, chat, k) == entry_value(sessions[ci].entries@, k) by {
        lemma_session_value_skip(sessions, chat, k, ci);
        assert(sessions.skip(ci)[0] == sessions[ci]);
    }
}

proof fn lemma_entry_value_update(
    pre: Seq<SessionEntry>,
    post: Seq<SessionEntry>,
    ki: int,
    key: Seq<char>,
    value: Seq<char>,
)
    requires
        0 <= ki < pre.len(),
        post.len() == pre.len(),
        forall|j: int| 0 <= j < pre.len() && j != ki ==> post[j] == pre[j],
        forall|j: int| 0 <= j < ki ==> (#[trigger] pre[j]).key@ != key,
        pre[ki].key@ == key,
        post[ki].key@ == key,
        post[ki].value@ == value,
    ensures
        forall|k: Seq<char>|
            #[trigger] entry_value(post, k) == if k == key {
                Some(value)
            } else {
                entry_value(pre, k)
            },
    decreases ki,
{
    if ki == 0 {
        assert forall|k: Seq<char>|
            #[trigger] entry_value(post, k) == if k == key {
                Some(value)
            } else {
                entry_value(pre, k)
            } by {
            if k == key {
                assert(entry_value(post, k) == Some(post[0].value@));
            } else {
                assert(post.drop_first() =~= pre.drop_first());
                assert(entry_value(post, k) == entry_value(post.drop_first(), k));
                assert(entry_value(pre, k) == entry_value(pre.drop_first(), k));
            }
        }
    } else {
        let tpre = pre.drop_first();
        let tpost = post.drop_first();
        assert forall|j: int| 0 <= j < tpre.len() && j != ki - 1 implies tpost[j] == tpre[j] by {
            assert(tpost[j] == post[j + 1]);
            assert(tpre[j] == pre[j + 1]);
        }
        assert forall|j: int| 0 <= j < ki - 1 implies (#[trigger] tpre[j]).key@ != key by {
            assert(tpre[j] == pre[j + 1]);
        }
        assert(tpre[ki - 1] == pre[ki]);
        assert(tpost[ki - 1] == post[ki]);
        lemma_entry_value_update(tpre, tpost, ki - 1, key, value);
        assert(post[0] == pre[0]);
        assert(pre[0].key@ != key);
        assert forall|k: Seq<char>|
            #[trigger] entry_value(post, k) == if k == key {
                Some(value)
            } else {
                entry_value(pre, k)
            } by {
            assert(entry_value(tpost, k) == if k == key {
                Some(value)
            } else {
                entry_value(tpre, k)
            });
            assert(entry_value(post, k) == if post[0].key@ == k {
                Some(post[0].value@)
            } else {
                entry_value(tpost, k)
            });
            assert(entry_value(pre, k) == if pre[0].key@ == k {
                Some(pre[0].value@)
            } else {
                entry_value(tpre, k)
            });
        }
    }
}

proof fn lemma_entry_value_push(
    pre: Seq<SessionEntry>,
    e: SessionEntry,
    key: Seq<char>,
    value: Seq<char>,
)
    requires
        forall|j: int| 0 <= j < pre.len() ==> (#[trigger] pre[j]).key@ != key,
        e.key@ == key,
        e.value@ == value,
    ensures
        forall|k: Seq<char>|
            #[trigger] entry_value(pre.push(e), k) == if k == key {
                Some(value)
            } else {
                entry_value(pre, k)
            },
    decreases pre.len(),
{
    let post = pre.push(e);
    if pre.len() == 0 {
        assert forall|k: Seq<char>|
            #[trigger] entry_value(post, k) == if k == key {
                Some(value)
            } else {
                entry_value(pre, k)
            } by {
            assert(post[0] == e);
            if k == key {
                assert(entry_value(post, k) == Some(e.value@));
            } else {
                assert(post.drop_first() =~= pre);
                assert(entry_value(post, k) == entry_value(pre, k));
            }
        }
    } else {
        let tpre = pre.drop_first();
        assert forall|j: int| 0 <= j < tpre.len() implies (#[trigger] tpre[j]).key@ != key by {
            assert(tpre[j] == pre[j + 1]);
        }
        lemma_entry_value_push(tpre, e, key, value);
        assert(post[0] == pre[0]);
        assert(pre[0].key@ != key);
        assert forall|k: Seq<char>|
            #[trigger] entry_value(post, k) == if k == key {
                Some(value)
            } else {
                entry_value(pre, k)
            } by {
            assert(post.drop_first() =~= tpre.push(e));
            assert(entry_value(tpre.push(e), k) == if k == key {
                Some(value)
            } else {
                entry_value(tpre, k)
            });
            assert(entry_value(post, k) == if post[0].key@ == k {
                Some(post[0].value@)
            } else {
                entry_value(post.drop_first(), k)
            });
            assert(entry_value(pre, k) == if pre[0].key@ == k {
                Some(pre[0].value@)
            } else {
                entry_value(tpre, k)
            });
        }
    }
}

proof fn lemma_session_value_update(
    pre: Seq<ChatSession>,
    post: Seq<ChatSession>,
    ci: int,
    chat: Seq<char>,
)
    requires
        0 <= ci < pre.len(),
        post.len() == pre.len(),
        forall|j: int| 0 <= j < pre.len() && j != ci ==> post[j] == pre[j],
        forall|j: int| 0 <= j < ci ==> (#[trigger] pre[j]).chat_id@ != chat,
        pre[ci].chat_id@ == chat,
        post[ci].chat_id@ == chat,
    ensures
        forall|c: Seq<char>, k: Seq<char>|
            #[trigger] session_value(post, c, k) == if c == chat {
                entry_value(post[ci].entries@, k)
            } else {
                session_value(pre, c, k)
            },
    decreases ci,
{
    if ci == 0 {
        assert forall|c: Seq<char>, k: Seq<char>|
            #[trigger] session_value(post, c, k) == if c == chat {
                entry_value(post[ci].entries@, k)
            } else {
                session_value(pre, c, k)
            } by {
            if c == chat {
                assert(session_value(post, c, k) == entry_value(post[0].entries@, k));
            } else {
                assert(post.drop_first() =~= pre.drop_first());
                assert(session_value(post, c, k) == session_value(post.drop_first(), c, k));
                assert(session_value(pre, c, k) == session_value(pre.drop_first(), c, k));
            }
        }
    } else {
        let tpre = pre.drop_first();
        let tpost = post.drop_first();
        assert forall|j: int| 0 <= j < tpre.len() && j != ci - 1 implies tpost[j] == tpre[j] by {
            assert(tpost[j] == post[j + 1]);
            assert(tpre[j] == pre[j + 1]);
        }
        assert forall|j: int| 0 <= j < ci - 1 implies (#[trigger] tpre[j]).chat_id@ != chat by {
            assert(tpre[j] == pre[j + 1]);
        }
        assert(tpre[ci - 1] == pre[ci]);
        assert(tpost[ci - 1] == post[ci]);
        lemma_session_value_update(tpre, tpost, ci - 1, chat);
        assert(post[0] == pre[0]);
        assert(pre[0].chat_id@ != chat);
        assert forall|c: Seq<char>, k: Seq<char>|
            #[trigger] session_value(post, c, k) == if c == chat {
                entry_value(post[ci].entries@, k)
            } else {
                session_value(pre, c, k)
            } by {
            assert(session_value(tpost, c, k) == if c == chat {
                entry_value(tpost[ci - 1].entries@, k)
            } else {
                session_value(tpre, c, k)
            });
            assert(session_value(post, c, k) == if post[0].chat_id@ == c {
                entry_value(post[0].entries@, k)
            } else {
                session_value(tpost, c, k)
            });
            assert(session_value(pre, c, k) == if pre[0].chat_id@ == c {
                entry_value(pre[0].entries@, k)
            } else {
                session_value(tpre, c, k)
            });
        }
    }
}

proof fn lemma_session_value_push(pre: Seq<ChatSession>, cs: ChatSession, chat: Seq<char>)
    requires
        forall|j: int| 0 <= j < pre.len() ==> (#[trigger] pre[j]).chat_id@ != chat,
        cs.chat_id@ == chat,
    ensures
        forall|c: Seq<char>, k: Seq<char>|
            #[trigger] session_value(pre.push(cs), c, k) == if c == chat {
                entry_value(cs.entries@, k)
            } else {
                session_value(pre, c, k)
            },
    decreases pre.len(),
{
    let post = pre.push(cs);
    if pre.len() == 0 {
        assert forall|c: Seq<char>, k: Seq<char>|
            #[trigger] session_value(post, c, k) == if c == chat {
                entry_value(cs.entries@, k)
            } else {
                session_value(pre, c, k)
            } by {
            assert(post[0] == cs);
            if c == chat {
                assert(session_value(post, c, k) == entry_value(cs.entries@, k));
            } else {
                assert(post.drop_first() =~= pre);
                assert(session_value(post, c, k) == session_value(pre, c, k));
            }
        }
    } else {
        let tpre = pre.drop_first();
        assert forall|j: int| 0 <= j < tpre.len() implies (#[trigger] tpre[j]).chat_id@ != chat by {
            assert(tpre[j] == pre[j + 1]);
        }
        lemma_session_value_push(tpre, cs, chat);
        assert(post[0] == pre[0]);
        assert(pre[0].chat_id@ != chat);
        assert forall|c: Seq<char>, k: Seq<char>|
            #[trigger] session_value(post, c, k) == if c == chat {
                entry_value(cs.entries@, k)
            } else {
                session_value(pre, c, k)
            } by {
            assert(post.drop_first() =~= tpre.push(cs));
            assert(session_value(tpre.push(cs), c, k) == if c == chat {
                entry_value(cs.entries@, k)
            } else {
                session_value(tpre, c, k)
            });
            assert(session_value(post, c, k) == if post[0].chat_id@ == c {
                entry_value(post[0].entries@, k)
            } else {
                session_value(post.drop_first(), c, k)
            });
            assert(session_value(pre, c, k) == if pre[0].chat_id@ == c {
                entry_value(pre[0].entries@, k)
            } else {
                session_value(tpre, c, k)
            });
        }
    }
}

/// A chat that no bag is registered for reads as absent under every key.
proof fn lemma_session_value_absent(sessions: Seq<ChatSession>, chat: Seq<char>)
    requires
        forall|j: int| 0 <= j < sessions.len() ==> (#[trigger] sessions[j]).chat_id@ != chat,
    ensures
        forall|k: Seq<char>| #[trigger] session_value(sessions, chat, k) is None,
{
    assert forall|k: Seq<char>| #[trigger] session_value(sessions, chat, k) is None by {
        lemma_session_value_skip(sessions, chat, k, sessions.len() as int);
        assert(sessions.skip(sessions.len() as int) =~= Seq::<ChatSession>::empty());
    }
}

/// Finds the first chat bag registered for `chat_id`, or the list's
/// length if there is none.
fn find_chat(sessions: &Vec<ChatSession>, chat_id: &str) -> (ci: usize)
    ensures
        ci <= sessions@.len(),
        forall|j: int| 0 <= j < ci ==> (#[trigger] sessions@[j]).chat_id@ != chat_id@,
        ci < sessions@.len() ==> sessions@[ci as int].chat_id@ == chat_id@,
{
    let mut i: usize = 0;
    while i < sessions.len()
        invariant
            0 <= i <= sessions@.len(),
            forall|j: int| 0 <= j < i ==> (#[trigger] sessions@[j]).chat_id@ != chat_id@,
        decreases sessions@.len() - i,
    {
        if str_eq(sessions[i].chat_id.as_str(), chat_id) {
            return i;
        }
        i += 1;
    }
    i
}

/// Finds the first entry stored under `key`, or the bag's length if
/// there is none.
fn find_entry(entries: &Vec<SessionEntry>, key: &str) -> (ki: usize)
    ensures
        ki <= entries@.len(),
        forall|j: int| 0 <= j < ki ==> (#[trigger] entries@[j]).key@ != key@,
        ki < entries@.len() ==> entries@[ki as int].key@ == key@,
{
    let mut i: usize = 0;
    while i < entries.len()
        invariant
            0 <= i <= entries@.len(),
            forall|j: int| 0 <= j < i ==> (#[trigger] entries@[j]).key@ != key@,
        decreases entries@.len() - i,
    {
        if str_eq(entries[i].key.as_str(), key) {
            return i;
        }
        i += 1;
    }
    i
}

impl Robot {
    /// A fresh engine state: no cursor, no registrations, no sessions,
    /// with the platform defaulting to "web" and the timeout to ten
    /// seconds.
    pub fn new(
        token: String,
        session_name: Option<String>,
        auth: Option<String>,
        key: Option<String>,
        platform: Option<String>,
        timeout: Option<u64>,
    ) -> (r: Robot)
        ensures
            r.token == token,
            r.session_name == session_name,
            r.auth == auth,
            r.key == key,
            match platform {
                Some(p) => r.platform == p,
                None => r.platform@ == "web"@,
            },
            r.timeout == (match timeout {
                Some(t) => t,
                None => 10u64,
            }),
            r.offset_id is None,
            r.message_handlers@.len() == 0,
            r.callback_handlers@.len() == 0,
            !r.inline_registered,
            r.sessions@.len() == 0,
    {
        Robot {
            token,
            timeout: match timeout {
                Some(t) => t,
                None => 10,
            },
            auth,
            session_name,
            key,
            platform: match platform {
                Some(p) => p,
                None => String::from_str("web"),
            },
            offset_id: None,
            message_handlers: Vec::new(),
            callback_handlers: Vec::new(),
            inline_registered: false,
            sessions: Vec::new(),
        }
    }

    /// Appends a message-handler registration and returns its index,
    /// under which the embedder keeps the user callback.
    pub fn on_message(&mut self, has_filter: bool, commands: Option<Vec<String>>) -> (id: usize)
        ensures
            same_config(*old(self), *final(self)),
            final(self).offset_id == old(self).offset_id,
            final(self).sessions == old(self).sessions,
            final(self).callback_handlers == old(self).callback_handlers,
            final(self).inline_registered == old(self).inline_registered,
            final(self).message_handlers@ == old(self).message_handlers@.push(
                (MessageRule { commands, has_filter }),
            ),
            id == old(self).message_handlers@.len(),
    {
        let id = self.message_handlers.len();
        self.message_handlers.push(MessageRule { commands, has_filter });
        id
    }

    /// Appends a callback-handler registration and returns its index.
    pub fn on_callback(&mut self, button_id: Option<String>) -> (id: usize)
        ensures
            same_config(*old(self), *final(self)),
            final(self).offset_id == old(self).offset_id,
            final(self).sessions == old(self).sessions,
            final(self).message_handlers == old(self).message_handlers,
            final(self).inline_registered == old(self).inline_registered,
            final(self).callback_handlers@ == old(self).callback_handlers@.push(
                (CallbackRule { button_id }),
            ),
            id == old(self).callback_handlers@.len(),
    {
        let id = self.callback_handlers.len();
        self.callback_handlers.push(CallbackRule { button_id });
        id
    }

    /// Fills the single inline-query slot; a later registration replaces
    /// the embedder's callback, so the slot stays occupied either way.
    pub fn on_inline_query(&mut self)
        ensures
            same_config(*old(self), *final(self)),
            final(self).offset_id == old(self).offset_id,
            final(self).sessions == old(self).sessions,
            final(self).message_handlers == old(self).message_handlers,
            final(self).callback_handlers == old(self).callback_handlers,
            final(self).inline_registered,
    {
        self.inline_registered = true;
    }

    /// The priming step: records the first fetch's cursor, if that fetch
    /// carried any updates, and dispatches nothing — the pending backlog
    /// is deliberately discarded at startup.
    pub fn prime(&mut self, batch: &Batch)
        ensures
            same_config(*old(self), *final(self)),
            same_registry(*old(self), *final(self)),
            final(self).sessions == old(self).sessions,
            final(self).offset_id == if batch.updates@.len() > 0 && batch.next_offset is Some {
                batch.next_offset
            } else {
                old(self).offset_id
            },
    {
        if batch.updates.len() > 0 {
            match &batch.next_offset {
                Some(o) => {
                    self.offset_id = Some(o.clone());
                },
                None => {},
            }
        }
    }

    /// One steady-state iteration on a fetched batch: hands every update
    /// of the batch back for dispatch, in server order, and advances the
    /// cursor to the batch's fresh offset whether or not the batch is
    /// empty. A batch without a fresh offset leaves the cursor alone.
    pub fn poll_step(&mut self, batch: Batch) -> (to_dispatch: Vec<RawUpdate>)
        ensures
            same_config(*old(self), *final(self)),
            same_registry(*old(self), *final(self)),
            final(self).sessions == old(self).sessions,
            final(self).offset_id == if batch.next_offset is Some {
                batch.next_offset
            } else {
                old(self).offset_id
            },
            to_dispatch == batch.updates,
    {
        let Batch { updates, next_offset } = batch;
        match next_offset {
            Some(o) => {
                self.offset_id = Some(o);
            },
            None => {},
        }
        updates
    }

    /// Reads the value stored for a chat under a key.
    pub fn session_get(&self, chat_id: &str, key: &str) -> (r: Option<String>)
        ensures
            match r {
                Some(v) => session_value(self.sessions@, chat_id@, key@) == Some(v@),
                None => session_value(self.sessions@, chat_id@, key@) is None,
            },
    {
        let ci = find_chat(&self.sessions, chat_id);
        if ci == self.sessions.len() {
            proof {
                lemma_session_value_skip(self.sessions@, chat_id@, key@, ci as int);
                assert(self.sessions@.skip(ci as int) =~= Seq::<ChatSession>::empty());
            }
            return None;
        }
        proof {
            lemma_session_value_at(self.sessions@, chat_id@, ci as int);
        }
        let entries = &self.sessions[ci].entries;
        let ki = find_entry(entries, key);
        if ki == entries.len() {
            proof {
                lemma_entry_value_skip(entries@, key@, ki as int);
                assert(entries@.skip(ki as int) =~= Seq::<SessionEntry>::empty());
            }
            None
        } else {
            proof {
                lemma_entry_value_skip(entries@, key@, ki as int);
                assert(entries@.skip(ki as int)[0] == entries@[ki as int]);
            }
            Some(entries[ki].value.clone())
        }
    }

    /// Stores a value for a chat under a key, creating the chat's bag
    /// lazily on first access. Every other chat and key reads unchanged.
    pub fn session_set(&mut self, chat_id: &str, key: &str, value: String)
        ensures
            same_config(*old(self), *final(self)),
            same_registry(*old(self), *final(self)),
            final(self).offset_id == old(self).offset_id,
            forall|c: Seq<char>, k: Seq<char>|
                #[trigger] session_value(final(self).sessions@, c, k) == if c == chat_id@ && k
                    == key@ {
                    Some(value@)
                } else {
                    session_value(old(self).sessions@, c, k)
                },
    {
        let ghost pre = self.sessions@;
        let ghost chat = chat_id@;
        let ghost ky = key@;
        let ghost v = value@;
        let ci = find_chat(&self.sessions, chat_id);
        if ci == self.sessions.len() {
            let mut entries: Vec<SessionEntry> = Vec::new();
            entries.push(SessionEntry { key: key.to_owned(), value });
            let cs = ChatSession { chat_id: chat_id.to_owned(), entries };
            proof {
                lemma_entry_value_push(Seq::<SessionEntry>::empty(), cs.entries@[0], ky, v);
                assert(Seq::<SessionEntry>::empty().push(cs.entries@[0]) =~= cs.entries@);
                lemma_session_value_push(pre, cs, chat);
                lemma_session_value_absent(pre, chat);
            }
            self.sessions.push(cs);
            proof {
                let post = self.sessions@;
                assert(post == pre.push(cs));
                assert forall|c: Seq<char>, k: Seq<char>|
                    #[trigger] session_value(post, c, k) == if c == chat && k == ky {
                        Some(v)
                    } else {
                        session_value(pre, c, k)
                    } by {
                    assert(session_value(pre.push(cs), c, k) == if c == chat {
                        entry_value(cs.entries@, k)
                    } else {
                        session_value(pre, c, k)
                    });
                    if c == chat {
                        assert(entry_value(cs.entries@, k) == if k == ky {
                            Some(v)
                        } else {
                            entry_value(Seq::<SessionEntry>::empty(), k)
                        });
                        assert(session_value(pre, c, k) is None);
                    }
                }
            }
        } else {
            let mut cs = self.sessions.remove(ci);
            let ghost cs_pre = cs;
            let ki = find_entry(&cs.entries, key);
            if ki == cs.entries.len() {
                cs.entries.push(SessionEntry { key: key.to_owned(), value });
                proof {
                    assert(cs.entries@[ki as int].key@ == ky);
                    lemma_entry_value_push(cs_pre.entries@, cs.entries@[ki as int], ky, v);
                    assert(cs_pre.entries@.push(cs.entries@[ki as int]) =~= cs.entries@);
                }
            } else {
                cs.entries.set(ki, SessionEntry { key: key.to_owned(), value });
                proof {
                    lemma_entry_value_update(cs_pre.entries@, cs.entries@, ki as int, ky, v);
                }
            }
            let ghost cs_post = cs;
            self.sessions.insert(ci, cs);
            proof {
                let post = self.sessions@;
                assert(post =~= pre.update(ci as int, cs_post));
                lemma_session_value_update(pre, post, ci as int, chat);
                lemma_session_value_at(pre, chat, ci as int);
                assert forall|c: Seq<char>, k: Seq<char>|
                    #[trigger] session_value(post, c, k) == if c == chat && k == ky {
                        Some(v)
                    } else {
                        session_value(pre, c, k)
                    } by {
                    assert(session_value(post, c, k) == if c == chat {
                        entry_value(post[ci as int].entries@, k)
                    } else {
                        session_value(pre, c, k)
                    });
                    if c == chat {
                        assert(post[ci as int] == cs_post);
                        assert(entry_value(cs_post.entries@, k) == if k == ky {
                            Some(v)
                        } else {
                            entry_value(cs_pre.entries@, k)
                        });
                        assert(session_value(pre, chat, k) == entry_value(pre[ci as int].entries@, k));
                        assert(pre[ci as int] == cs_pre);
                    }
                }
            }
        }
    }
}

} // verus!
