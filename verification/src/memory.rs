//! Agent memory: modes, store handles and their keys, context-overflow
//! handling, embedding providers' settings and the text retrieved context
//! reads as.
use vstd::prelude::*;
use vstd::string::StringExecFns;
use crate::error::{cat2, cat3, cat5, MemoryError};
use crate::seqs::{keep, lemma_keep_step};
use crate::text::{
    count_words, join, lemma_word_count_join, string_debug, string_debug_text, texts, word_count,
};

verus! {

// ---------------------------------------------------------------- modes

/// The lower-case form of a text, as `str::to_lowercase` gives it.
pub uninterp spec fn lowercase(s: Seq<char>) -> Seq<char>;

/// The lower-case form of an ASCII character: `A` to `Z` become `a` to
/// `z`, every other character stays.
pub open spec fn ascii_lower(c: char) -> char {
    if 'A' <= c && c <= 'Z' {
        ((c as u32) + 32) as char
    } else {
        c
    }
}

/// Whether every character of `s` is ASCII.
pub open spec fn is_ascii_text(s: Seq<char>) -> bool {
    forall|i: int| 0 <= i < s.len() ==> (#[trigger] s[i] as u32) < 128
}

/// Whether the lower-case form of `s` is its ASCII lower-casing, as it is
/// for ASCII text.
pub open spec fn lower_ascii_agrees(s: Seq<char>) -> bool {
    is_ascii_text(s) ==> lowercase(s) == s.map_values(|c: char| ascii_lower(c))
}

/// Lower-cases `s` with `str::to_lowercase` (Unicode's lower-case mapping).
/// Claims that the result is a function of the characters of `s`, and that
/// on ASCII text it maps each letter to its lower-case form and keeps
/// every other character, as Unicode's mapping does for ASCII.
#[verifier::external_body]
pub(crate) fn to_lower(s: &str) -> (r: String)
    ensures
        r@ == lowercase(s@),
        is_ascii_text(s@) ==> r@ == s@.map_values(|c: char| ascii_lower(c)),
{
    s.to_lowercase()
}

/// How agents share memory.
#[derive(Clone, Copy, Debug, PartialEq, Eq, Structural)]
pub enum MemoryMode {
    /// All agents read and write one memory.
    Shared,
    /// Each calling agent has its own memory.
    Isolated,
    /// Memory belongs to the configured agent and outlives runs.
    Persistent,
}

/// The mode a configuration word names: "shared" and "isolated" in any
/// case; anything else means persistent.
pub open spec fn mode_named(s: Seq<char>) -> MemoryMode {
    if lowercase(s) == "shared"@ {
        MemoryMode::Shared
    } else if lowercase(s) == "isolated"@ {
        MemoryMode::Isolated
    } else {
        MemoryMode::Persistent
    }
}

impl MemoryMode {
    /// The mode `s` names, ignoring case; persistent when it names none.
    pub fn from_str(s: &str) -> (m: MemoryMode)
        ensures
            m == mode_named(s@),
            lower_ascii_agrees(s@),
    {
        let l = to_lower(s);
        if crate::text::str_eq(l.as_str(), "shared") {
            MemoryMode::Shared
        } else if crate::text::str_eq(l.as_str(), "isolated") {
            MemoryMode::Isolated
        } else {
            MemoryMode::Persistent
        }
    }
}

// ---------------------------------------------------------------- stores

#[verifier::external_type_specification]
#[verifier::external_body]
pub struct ExRedisClient(redis::Client);

#[verifier::external_type_specification]
#[verifier::external_body]
pub struct ExJsonValue(serde_json::Value);

/// `serde_json::Value`'s derived `clone`: a deep copy, equal to the original.
pub assume_specification[<serde_json::Value as Clone>::clone](v: &serde_json::Value) -> (r: serde_json::Value)
    ensures
        r == *v,
;

/// Whether `redis::Client::open` accepts the connection URL.
pub uninterp spec fn redis_url_accepted(url: Seq<char>) -> bool;

/// Parses a Redis connection URL with `redis::Client::open`, which checks
/// the URL without connecting. Claims that acceptance depends on the URL
/// alone; on refusal the error's text is returned.
#[verifier::external_body]
fn open_redis_client(url: &str) -> (r: Result<redis::Client, String>)
    ensures
        r is Ok == redis_url_accepted(url@),
{
    match redis::Client::open(url) {
        Ok(c) => Ok(c),
        Err(e) => Err(e.to_string()),
    }
}

/// The short-term store: a Redis client.
pub struct RedisMemory {
    client: redis::Client,
}

/// One turn of a conversation.
#[derive(Debug)]
pub struct StoredTurn {
    pub role: String,
    pub content: String,
}

impl StoredTurn {
    /// A copy of the turn.
    pub fn duplicate(&self) -> (r: StoredTurn)
        ensures
            r == *self,
    {
        StoredTurn { role: self.role.clone(), content: self.content.clone() }
    }
}

/// The key under which an agent's run stores one kind of value.
pub open spec fn run_key(agent_id: Seq<char>, run_id: Seq<char>, kind: Seq<char>) -> Seq<char> {
    "argo:agent:"@ + agent_id + ":run:"@ + run_id + ":"@ + kind
}

impl RedisMemory {
    /// A client for the Redis server at `url`; fails, without connecting,
    /// when the URL is refused.
    pub fn new(url: &str) -> (r: Result<RedisMemory, MemoryError>)
        ensures
            r is Ok == redis_url_accepted(url@),
            r matches Err(e) ==> e is ConnectionFailed,
    {
        match open_redis_client(url) {
            Ok(client) => Ok(RedisMemory { client }),
            Err(msg) => Err(MemoryError::ConnectionFailed(msg)),
        }
    }

    /// The client this store holds.
    pub closed spec fn client_spec(&self) -> redis::Client {
        self.client
    }

    /// The client, for the operations that talk to the server.
    pub fn client(&self) -> (c: &redis::Client)
        ensures
            *c == self.client_spec(),
    {
        &self.client
    }

    fn key(agent_id: &str, run_id: &str, kind: &str) -> (k: String)
        ensures
            k@ == run_key(agent_id@, run_id@, kind@),
    {
        cat5("argo:agent:", agent_id, ":run:", run_id, ":").concat(kind)
    }

    /// The key of a run's context.
    pub fn context_key(agent_id: &str, run_id: &str) -> (k: String)
        ensures
            k@ == run_key(agent_id@, run_id@, "context"@),
    {
        Self::key(agent_id, run_id, "context")
    }

    /// The key of a run's turns.
    pub fn turns_key(agent_id: &str, run_id: &str) -> (k: String)
        ensures
            k@ == run_key(agent_id@, run_id@, "turns"@),
    {
        Self::key(agent_id, run_id, "turns")
    }

    /// The key of a run's scratch data.
    pub fn scratch_key(agent_id: &str, run_id: &str) -> (k: String)
        ensures
            k@ == run_key(agent_id@, run_id@, "scratch"@),
    {
        Self::key(agent_id, run_id, "scratch")
    }

    /// The key of a run's plan.
    pub fn plan_key(agent_id: &str, run_id: &str) -> (k: String)
        ensures
            k@ == run_key(agent_id@, run_id@, "plan"@),
    {
        Self::key(agent_id, run_id, "plan")
    }

    /// The keys a run's clean-up deletes, in order.
    pub fn run_keys(agent_id: &str, run_id: &str) -> (v: Vec<String>)
        ensures
            texts(v@) == seq![
                run_key(agent_id@, run_id@, "context"@),
                run_key(agent_id@, run_id@, "turns"@),
                run_key(agent_id@, run_id@, "scratch"@),
                run_key(agent_id@, run_id@, "plan"@),
            ],
    {
        let mut v: Vec<String> = Vec::new();
        v.push(Self::context_key(agent_id, run_id));
        v.push(Self::turns_key(agent_id, run_id));
        v.push(Self::scratch_key(agent_id, run_id));
        v.push(Self::plan_key(agent_id, run_id));
        assert(texts(v@) =~= seq![
            run_key(agent_id@, run_id@, "context"@),
            run_key(agent_id@, run_id@, "turns"@),
            run_key(agent_id@, run_id@, "scratch"@),
            run_key(agent_id@, run_id@, "plan"@),
        ]);
        v
    }
}

/// The record of a finished task.
#[derive(Debug)]
pub struct TaskRecord {
    pub agent_id: String,
    pub goal: String,
    pub outcome: String,
    pub summary: String,
    pub tools_used: Vec<String>,
    pub duration_ms: i64,
    pub run_id: String,
    pub started_at: String,
    pub ended_at: String,
}

/// Whether two task records hold the same values.
pub open spec fn same_record(a: TaskRecord, b: TaskRecord) -> bool {
    &&& a.agent_id@ == b.agent_id@
    &&& a.goal@ == b.goal@
    &&& a.outcome@ == b.outcome@
    &&& a.summary@ == b.summary@
    &&& texts(a.tools_used@) == texts(b.tools_used@)
    &&& a.duration_ms == b.duration_ms
    &&& a.run_id@ == b.run_id@
    &&& a.started_at@ == b.started_at@
    &&& a.ended_at@ == b.ended_at@
}

fn copy_texts(v: &Vec<String>) -> (r: Vec<String>)
    ensures
        texts(r@) == texts(v@),
{
    let mut r: Vec<String> = Vec::new();
    let mut i: usize = 0;
    while i < v.len()
        invariant
            0 <= i <= v.len(),
            r@.len() == i,
            forall|j: int| 0 <= j < i ==> r@[j]@ == v@[j]@,
        decreases v.len() - i,
    {
        r.push(v[i].clone());
        i = i + 1;
    }
    assert(texts(r@) =~= texts(v@));
    r
}

impl TaskRecord {
    /// A copy of the record.
    pub fn duplicate(&self) -> (r: TaskRecord)
        ensures
            same_record(r, *self),
    {
        TaskRecord {
            agent_id: self.agent_id.clone(),
            goal: self.goal.clone(),
            outcome: self.outcome.clone(),
            summary: self.summary.clone(),
            tools_used: copy_texts(&self.tools_used),
            duration_ms: self.duration_ms,
            run_id: self.run_id.clone(),
            started_at: self.started_at.clone(),
            ended_at: self.ended_at.clone(),
        }
    }
}

/// An entity of the knowledge graph.
#[derive(Debug)]
pub struct Entity {
    pub id: Option<String>,
    pub entity_type: String,
    pub identifier: String,
    pub metadata: Option<serde_json::Value>,
}

impl Entity {
    /// A copy of the entity.
    pub fn duplicate(&self) -> (r: Entity)
        ensures
            r == *self,
    {
        let id = match &self.id {
            Some(i) => Some(i.clone()),
            None => None,
        };
        let metadata = match &self.metadata {
            Some(m) => Some(m.clone()),
            None => None,
        };
        Entity { id, entity_type: self.entity_type.clone(), identifier: self.identifier.clone(), metadata }
    }
}

/// A typed link from one entity to another.
#[derive(Debug)]
pub struct Relationship {
    pub from_id: String,
    pub to_id: String,
    pub rel_type: String,
}

/// A relationship by its characters: from, to, type.
pub open spec fn link_of(r: Relationship) -> (Seq<char>, Seq<char>, Seq<char>) {
    (r.from_id@, r.to_id@, r.rel_type@)
}

/// The task record last stored for `run_id`, if any.
pub open spec fn lookup_task(s: Seq<TaskRecord>, run_id: Seq<char>) -> Option<TaskRecord>
    decreases s.len(),
{
    if s.len() == 0 {
        None
    } else if s.last().run_id@ == run_id {
        Some(s.last())
    } else {
        lookup_task(s.drop_last(), run_id)
    }
}

/// The entity last stored with this type and identifier, if any.
pub open spec fn lookup_entity(s: Seq<Entity>, entity_type: Seq<char>, identifier: Seq<char>) -> Option<Entity>
    decreases s.len(),
{
    if s.len() == 0 {
        None
    } else if s.last().entity_type@ == entity_type && s.last().identifier@ == identifier {
        Some(s.last())
    } else {
        lookup_entity(s.drop_last(), entity_type, identifier)
    }
}

/// Whether `e` is the target of a link of type `rel_type` from `from_id`.
pub open spec fn related(links: Seq<(Seq<char>, Seq<char>, Seq<char>)>, from_id: Seq<char>, rel_type: Seq<char>, e: Entity) -> bool {
    e.id matches Some(i) && links.contains((from_id, i@, rel_type))
}

/// Whether `after` is `before` with a copy of `record` stored last.
pub open spec fn task_appended(before: Seq<TaskRecord>, after: Seq<TaskRecord>, record: TaskRecord) -> bool {
    &&& after.len() == before.len() + 1
    &&& after.drop_last() == before
    &&& same_record(after.last(), record)
}

/// A lookup after a store finds what was stored: the run's own record
/// comes back, and every other run's lookup is as before.
pub proof fn lemma_task_lookup_after_store(before: Seq<TaskRecord>, after: Seq<TaskRecord>, record: TaskRecord, run_id: Seq<char>)
    requires
        task_appended(before, after, record),
    ensures
        lookup_task(after, record.run_id@) matches Some(t) && same_record(t, record),
        run_id != record.run_id@ ==> lookup_task(after, run_id) == lookup_task(before, run_id),
{
}

/// An entity lookup after a store finds that entity by its type and
/// identifier; other lookups are as before.
pub proof fn lemma_entity_lookup_after_store(before: Seq<Entity>, entity: Entity, entity_type: Seq<char>, identifier: Seq<char>)
    ensures
        lookup_entity(before.push(entity), entity.entity_type@, entity.identifier@) == Some(entity),
        !(entity_type == entity.entity_type@ && identifier == entity.identifier@) ==>
            lookup_entity(before.push(entity), entity_type, identifier) == lookup_entity(before, entity_type, identifier),
{
    assert(before.push(entity).drop_last() =~= before);
}

/// The long-term store: its settings, and the task records, entities and
/// relationships stored through it, in the order stored.
pub struct SurrealMemory {
    namespace: String,
    database: String,
    endpoint: String,
    tasks: Vec<TaskRecord>,
    entities: Vec<Entity>,
    relationships: Vec<Relationship>,
}

impl SurrealMemory {
    /// The store at `endpoint`, in `namespace` and `database`, holding
    /// nothing yet.
    pub fn new(endpoint: &str, namespace: &str, database: &str) -> (m: SurrealMemory)
        ensures
            m.endpoint()@ == endpoint@,
            m.namespace()@ == namespace@,
            m.database()@ == database@,
            m.tasks().len() == 0,
            m.entities().len() == 0,
            m.links().len() == 0,
    {
        SurrealMemory {
            namespace: String::from_str(namespace),
            database: String::from_str(database),
            endpoint: String::from_str(endpoint),
            tasks: Vec::new(),
            entities: Vec::new(),
            relationships: Vec::new(),
        }
    }

    /// The endpoint.
    pub closed spec fn endpoint(self) -> String {
        self.endpoint
    }

    /// The namespace.
    pub closed spec fn namespace(self) -> String {
        self.namespace
    }

    /// The database.
    pub closed spec fn database(self) -> String {
        self.database
    }

    /// The task records stored, oldest first.
    pub closed spec fn tasks(self) -> Seq<TaskRecord> {
        self.tasks@
    }

    /// The entities stored, oldest first.
    pub closed spec fn entities(self) -> Seq<Entity> {
        self.entities@
    }

    /// The relationships recorded, oldest first, by their characters.
    pub closed spec fn links(self) -> Seq<(Seq<char>, Seq<char>, Seq<char>)> {
        self.relationships@.map_values(|r: Relationship| link_of(r))
    }

    /// Stores a task record; a later lookup of its run finds it.
    pub fn store_task_record(&mut self, record: &TaskRecord) -> (r: Result<(), MemoryError>)
        ensures
            r is Ok,
            task_appended(old(self).tasks(), final(self).tasks(), *record),
            final(self).entities() == old(self).entities(),
            final(self).links() == old(self).links(),
            final(self).endpoint() == old(self).endpoint(),
            final(self).namespace() == old(self).namespace(),
            final(self).database() == old(self).database(),
    {
        let copy = record.duplicate();
        self.tasks.push(copy);
        assert(self.tasks@.drop_last() =~= old(self).tasks@);
        Ok(())
    }

    /// The task record last stored for `run_id`; `None` when there is none.
    pub fn get_task_record(&self, run_id: &str) -> (r: Result<Option<TaskRecord>, MemoryError>)
        ensures
            match lookup_task(self.tasks(), run_id@) {
                Some(t) => r matches Ok(Some(x)) && same_record(x, t),
                None => r matches Ok(None),
            },
    {
        let mut i: usize = self.tasks.len();
        assert(self.tasks@.take(i as int) =~= self.tasks@);
        while i > 0
            invariant
                0 <= i <= self.tasks@.len(),
                lookup_task(self.tasks@, run_id@) == lookup_task(self.tasks@.take(i as int), run_id@),
            decreases i,
        {
            let ghost pre = self.tasks@.take(i as int);
            assert(pre.drop_last() =~= self.tasks@.take(i - 1));
            assert(pre.last() == self.tasks@[i - 1]);
            if crate::text::str_eq(self.tasks[i - 1].run_id.as_str(), run_id) {
                return Ok(Some(self.tasks[i - 1].duplicate()));
            }
            i = i - 1;
        }
        assert(self.tasks@.take(0) =~= Seq::<TaskRecord>::empty());
        Ok(None)
    }

    /// Stores an entity; a later lookup of its type and identifier finds it.
    pub fn store_entity(&mut self, entity: &Entity) -> (r: Result<(), MemoryError>)
        ensures
            r is Ok,
            final(self).entities() == old(self).entities().push(*entity),
            final(self).tasks() == old(self).tasks(),
            final(self).links() == old(self).links(),
            final(self).endpoint() == old(self).endpoint(),
            final(self).namespace() == old(self).namespace(),
            final(self).database() == old(self).database(),
    {
        let copy = entity.duplicate();
        self.entities.push(copy);
        Ok(())
    }

    /// The entity last stored with this type and identifier; `None` when
    /// there is none.
    pub fn get_entity(&self, entity_type: &str, identifier: &str) -> (r: Result<Option<Entity>, MemoryError>)
        ensures
            r == Ok::<Option<Entity>, MemoryError>(lookup_entity(self.entities(), entity_type@, identifier@)),
    {
        let mut i: usize = self.entities.len();
        assert(self.entities@.take(i as int) =~= self.entities@);
        while i > 0
            invariant
                0 <= i <= self.entities@.len(),
                lookup_entity(self.entities@, entity_type@, identifier@)
                    == lookup_entity(self.entities@.take(i as int), entity_type@, identifier@),
            decreases i,
        {
            let ghost pre = self.entities@.take(i as int);
            assert(pre.drop_last() =~= self.entities@.take(i - 1));
            assert(pre.last() == self.entities@[i - 1]);
            let e = &self.entities[i - 1];
            if crate::text::str_eq(e.entity_type.as_str(), entity_type)
                && crate::text::str_eq(e.identifier.as_str(), identifier) {
                return Ok(Some(e.duplicate()));
            }
            i = i - 1;
        }
        assert(self.entities@.take(0) =~= Seq::<Entity>::empty());
        Ok(None)
    }

    /// Records a relationship of type `rel_type` from one entity to another.
    pub fn create_relationship(&mut self, from_id: &str, to_id: &str, rel_type: &str) -> (r: Result<(), MemoryError>)
        ensures
            r is Ok,
            final(self).links() == old(self).links().push((from_id@, to_id@, rel_type@)),
            final(self).tasks() == old(self).tasks(),
            final(self).entities() == old(self).entities(),
            final(self).endpoint() == old(self).endpoint(),
            final(self).namespace() == old(self).namespace(),
            final(self).database() == old(self).database(),
    {
        let link = Relationship {
            from_id: String::from_str(from_id),
            to_id: String::from_str(to_id),
            rel_type: String::from_str(rel_type),
        };
        self.relationships.push(link);
        assert(self.links() =~= old(self).links().push((from_id@, to_id@, rel_type@)));
        Ok(())
    }

    fn has_link(&self, from_id: &str, to_id: &str, rel_type: &str) -> (b: bool)
        ensures
            b == self.links().contains((from_id@, to_id@, rel_type@)),
    {
        let mut i: usize = 0;
        while i < self.relationships.len()
            invariant
                0 <= i <= self.relationships@.len(),
                forall|j: int| 0 <= j < i ==> self.links()[j] != (from_id@, to_id@, rel_type@),
            decreases self.relationships.len() - i,
        {
            let l = &self.relationships[i];
            assert(self.links()[i as int] == link_of(self.relationships@[i as int]));
            if crate::text::str_eq(l.from_id.as_str(), from_id)
                && crate::text::str_eq(l.to_id.as_str(), to_id)
                && crate::text::str_eq(l.rel_type.as_str(), rel_type) {
                assert(self.links()[i as int] == (from_id@, to_id@, rel_type@));
                return true;
            }
            i = i + 1;
        }
        false
    }

    /// The stored entities that a relationship of type `rel_type` leads to
    /// from `entity_id`, in the order stored.
    pub fn query_relationships(&self, entity_id: &str, rel_type: &str) -> (r: Result<Vec<Entity>, MemoryError>)
        ensures
            r matches Ok(v) && v@ == keep(self.entities(), |e: Entity| related(self.links(), entity_id@, rel_type@, e)),
    {
        let ghost p = |e: Entity| related(self.links(), entity_id@, rel_type@, e);
        let mut out: Vec<Entity> = Vec::new();
        let mut i: usize = 0;
        while i < self.entities.len()
            invariant
                0 <= i <= self.entities@.len(),
                p == (|e: Entity| related(self.links(), entity_id@, rel_type@, e)),
                out@ == keep(self.entities@.take(i as int), p),
            decreases self.entities.len() - i,
        {
            proof {
                lemma_keep_step(self.entities@, p, i as int);
            }
            let e = &self.entities[i];
            let hit = match &e.id {
                Some(id) => self.has_link(entity_id, id.as_str(), rel_type),
                None => false,
            };
            if hit {
                out.push(e.duplicate());
            }
            i = i + 1;
        }
        assert(self.entities@.take(self.entities@.len() as int) =~= self.entities@);
        Ok(out)
    }
}

/// How long short-term values live, in seconds.
pub const SHORT_TERM_TTL_SECS: u64 = 3600;

/// Access to an agent's memory stores in one of the memory modes.
pub struct MemoryHandle {
    pub redis: RedisMemory,
    pub surreal: SurrealMemory,
    pub mode: MemoryMode,
    pub agent_id: Option<String>,
}

/// The agent whose memory a caller reaches: everyone's shared memory, the
/// caller's own, or (persistent) the configured agent's, else the caller's.
pub open spec fn effective_agent(mode: MemoryMode, agent_id: Option<Seq<char>>, caller: Seq<char>) -> Seq<char> {
    match mode {
        MemoryMode::Shared => "shared"@,
        MemoryMode::Isolated => caller,
        MemoryMode::Persistent => match agent_id {
            Some(a) => a,
            None => caller,
        },
    }
}

impl MemoryHandle {
    /// The configured agent, by its characters.
    pub open spec fn agent(self) -> Option<Seq<char>> {
        match self.agent_id {
            Some(a) => Some(a@),
            None => None,
        }
    }

    /// Persistent memory with no configured agent.
    pub fn new(redis: RedisMemory, surreal: SurrealMemory) -> (h: MemoryHandle)
        ensures
            h.mode == MemoryMode::Persistent,
            h.agent_id is None,
            h.redis == redis,
            h.surreal == surreal,
    {
        MemoryHandle { redis, surreal, mode: MemoryMode::Persistent, agent_id: None }
    }

    /// Memory in `mode` configured for `agent_id`.
    pub fn with_mode(redis: RedisMemory, surreal: SurrealMemory, mode: MemoryMode, agent_id: &str) -> (h: MemoryHandle)
        ensures
            h.mode == mode,
            h.agent() == Some(agent_id@),
            h.redis == redis,
            h.surreal == surreal,
    {
        MemoryHandle { redis, surreal, mode, agent_id: Some(String::from_str(agent_id)) }
    }

    /// Shared memory, configured for the agent "shared".
    pub fn shared(redis: RedisMemory, surreal: SurrealMemory) -> (h: MemoryHandle)
        ensures
            h.mode == MemoryMode::Shared,
            h.agent() == Some("shared"@),
            h.redis == redis,
            h.surreal == surreal,
    {
        Self::with_mode(redis, surreal, MemoryMode::Shared, "shared")
    }

    /// Isolated memory configured for `agent_id`.
    pub fn isolated(redis: RedisMemory, surreal: SurrealMemory, agent_id: &str) -> (h: MemoryHandle)
        ensures
            h.mode == MemoryMode::Isolated,
            h.agent() == Some(agent_id@),
            h.redis == redis,
            h.surreal == surreal,
    {
        Self::with_mode(redis, surreal, MemoryMode::Isolated, agent_id)
    }

    /// Persistent memory configured for `agent_id`.
    pub fn persistent(redis: RedisMemory, surreal: SurrealMemory, agent_id: &str) -> (h: MemoryHandle)
        ensures
            h.mode == MemoryMode::Persistent,
            h.agent() == Some(agent_id@),
            h.redis == redis,
            h.surreal == surreal,
    {
        Self::with_mode(redis, surreal, MemoryMode::Persistent, agent_id)
    }

    /// The agent whose memory `caller_agent_id` reaches.
    pub fn effective_agent_id(&self, caller_agent_id: &str) -> (r: String)
        ensures
            r@ == effective_agent(self.mode, self.agent(), caller_agent_id@),
    {
        match self.mode {
            MemoryMode::Shared => String::from_str("shared"),
            MemoryMode::Isolated => String::from_str(caller_agent_id),
            MemoryMode::Persistent => match &self.agent_id {
                Some(a) => a.clone(),
                None => String::from_str(caller_agent_id),
            },
        }
    }
}

// ---------------------------------------------------------------- context overflow

/// The estimated token count of a text: its number of words.
pub open spec fn tokens_of(s: Seq<char>) -> nat {
    word_count(s)
}

/// The estimated tokens of the first `k` turns.
pub open spec fn tokens_upto(turns: Seq<StoredTurn>, k: int) -> nat
    decreases k,
{
    if k <= 0 || turns.len() == 0 {
        0
    } else if k > turns.len() {
        tokens_upto(turns, turns.len() as int)
    } else {
        tokens_upto(turns, k - 1) + tokens_of(turns[k - 1].content@)
    }
}

/// The estimated tokens of all turns.
pub open spec fn total_tokens(turns: Seq<StoredTurn>) -> nat {
    tokens_upto(turns, turns.len() as int)
}

/// The first position `i >= from` at which the running token count passes
/// `bound`, if any.
pub open spec fn first_over(turns: Seq<StoredTurn>, bound: nat, from: int) -> Option<int>
    decreases turns.len() - from,
{
    if from < 0 || from >= turns.len() {
        None
    } else if tokens_upto(turns, from + 1) > bound {
        Some(from)
    } else {
        first_over(turns, bound, from + 1)
    }
}

/// The last turn summarised: the first at which the running token count
/// passes half the limit, else the middle turn.
pub open spec fn summary_cutoff(turns: Seq<StoredTurn>, limit: usize) -> int {
    match first_over(turns, (limit / 2) as nat, 0) {
        Some(i) => i,
        None => (turns.len() / 2) as int,
    }
}

/// Decides when a conversation is too long and which turns to summarise.
pub struct ContextOverflowHandler {
    pub surreal: SurrealMemory,
    pub context_limit: usize,
}

proof fn lemma_tokens_upto_mono(turns: Seq<StoredTurn>, a: int, b: int)
    requires
        0 <= a <= b <= turns.len(),
    ensures
        tokens_upto(turns, a) <= tokens_upto(turns, b),
    decreases b - a,
{
    if a < b {
        lemma_tokens_upto_mono(turns, a, b - 1);
    }
}

proof fn lemma_first_over_skip(turns: Seq<StoredTurn>, bound: nat, from: int)
    requires
        0 <= from < turns.len(),
        tokens_upto(turns, from + 1) <= bound,
    ensures
        first_over(turns, bound, from) == first_over(turns, bound, from + 1),
{
}

proof fn lemma_first_over_bounds(turns: Seq<StoredTurn>, bound: nat, from: int)
    ensures
        first_over(turns, bound, from) matches Some(i) ==> 0 <= from <= i < turns.len(),
    decreases turns.len() - from,
{
    if 0 <= from < turns.len() && !(tokens_upto(turns, from + 1) > bound) {
        lemma_first_over_bounds(turns, bound, from + 1);
    }
}

/// Token estimates add over two texts joined by a space, and the empty
/// text holds none.
pub proof fn lemma_tokens_join(a: Seq<char>, b: Seq<char>)
    ensures
        tokens_of(a + seq![' '] + b) == tokens_of(a) + tokens_of(b),
        tokens_of(Seq::<char>::empty()) == 0,
{
    lemma_word_count_join(a, b);
}

proof fn lemma_tokens_upto_prefix(t1: Seq<StoredTurn>, t2: Seq<StoredTurn>, k: int)
    requires
        t1.len() <= t2.len(),
        t2.take(t1.len() as int) == t1,
        0 <= k <= t1.len(),
    ensures
        tokens_upto(t1, k) == tokens_upto(t2, k),
    decreases k,
{
    if k > 0 {
        lemma_tokens_upto_prefix(t1, t2, k - 1);
        assert(t1[k - 1] == t2.take(t1.len() as int)[k - 1]);
    }
}

/// The decision to compress only grows as a conversation grows: a
/// conversation's tokens are at least those of any prefix, so once a prefix
/// passes the limit the whole does too; the empty conversation holds none.
pub proof fn lemma_compress_monotone(t1: Seq<StoredTurn>, t2: Seq<StoredTurn>, limit: usize)
    requires
        t1.len() <= t2.len(),
        t2.take(t1.len() as int) == t1,
    ensures
        total_tokens(t1) <= total_tokens(t2),
        total_tokens(t1) > limit ==> total_tokens(t2) > limit,
        total_tokens(Seq::<StoredTurn>::empty()) == 0,
{
    lemma_tokens_upto_prefix(t1, t2, t1.len() as int);
    lemma_tokens_upto_mono(t2, t1.len() as int, t2.len() as int);
}

/// Summarising splits a conversation without losing or reordering turns:
/// at least one turn is summarised, and the turns summarised followed by
/// the turns kept are the whole conversation.
pub proof fn lemma_summary_split(turns: Seq<StoredTurn>, limit: usize)
    requires
        turns.len() > 0,
    ensures
        0 <= summary_cutoff(turns, limit) < turns.len(),
        turns.subrange(0, summary_cutoff(turns, limit) + 1) + turns.subrange(
            summary_cutoff(turns, limit) + 1,
            turns.len() as int,
        ) == turns,
{
    lemma_first_over_bounds(turns, (limit / 2) as nat, 0);
    let c = summary_cutoff(turns, limit);
    assert(turns.subrange(0, c + 1) + turns.subrange(c + 1, turns.len() as int) =~= turns);
}

impl ContextOverflowHandler {
    /// A handler for a context of `context_limit` tokens.
    pub fn new(surreal: SurrealMemory, context_limit: usize) -> (h: ContextOverflowHandler)
        ensures
            h.surreal == surreal,
            h.context_limit == context_limit,
    {
        ContextOverflowHandler { surreal, context_limit }
    }

    /// The estimated token count of `text`: its number of whitespace-
    /// separated words.
    pub fn estimate_tokens(text: &str) -> (n: usize)
        ensures
            n == tokens_of(text@),
    {
        count_words(text)
    }

    /// Whether the turns hold more estimated tokens than the limit.
    pub fn should_compress(&self, turns: &[StoredTurn]) -> (r: bool)
        requires
            total_tokens(turns@) <= usize::MAX,
        ensures
            r == (total_tokens(turns@) > self.context_limit),
    {
        let mut total: usize = 0;
        let mut i: usize = 0;
        while i < turns.len()
            invariant
                0 <= i <= turns.len(),
                total == tokens_upto(turns@, i as int),
                total_tokens(turns@) <= usize::MAX,
            decreases turns.len() - i,
        {
            proof {
                lemma_tokens_upto_mono(turns@, i + 1, turns@.len() as int);
            }
            let t = Self::estimate_tokens(turns[i].content.as_str());
            total = total + t;
            i = i + 1;
        }
        total > self.context_limit
    }

    /// Accepts summarised turns for archiving; the turns are not stored,
    /// and the call always succeeds.
    pub fn archive_turns(&self, run_id: &str, turns: &[StoredTurn]) -> (r: Result<(), MemoryError>)
        ensures
            r is Ok,
    {
        Ok(())
    }

    /// Splits the turns into those to summarise (up to and including the
    /// first at which the running token count passes half the limit, else
    /// up to the middle turn) and those kept.
    pub fn select_turns_to_summarize(&self, turns: &[StoredTurn]) -> (r: (Vec<StoredTurn>, Vec<StoredTurn>))
        requires
            turns@.len() > 0,
            total_tokens(turns@) <= usize::MAX,
        ensures
            r.0@ == turns@.subrange(0, summary_cutoff(turns@, self.context_limit) + 1),
            r.1@ == turns@.subrange(summary_cutoff(turns@, self.context_limit) + 1, turns@.len() as int),
    {
        let half = self.context_limit / 2;
        let mut accumulated: usize = 0;
        let mut i: usize = 0;
        let mut found: Option<usize> = None;
        while i < turns.len()
            invariant_except_break
                found is None,
                accumulated == tokens_upto(turns@, i as int),
                first_over(turns@, half as nat, 0) == first_over(turns@, half as nat, i as int),
            invariant
                0 <= i <= turns.len(),
                total_tokens(turns@) <= usize::MAX,
                half == self.context_limit / 2,
            ensures
                found matches Some(c) ==> first_over(turns@, half as nat, 0) == Some(c as int) && c < turns.len(),
                found is None ==> first_over(turns@, half as nat, 0) is None,
            decreases turns.len() - i,
        {
            proof {
                lemma_tokens_upto_mono(turns@, i + 1, turns@.len() as int);
            }
            accumulated = accumulated + Self::estimate_tokens(turns[i].content.as_str());
            if accumulated > half {
                found = Some(i);
                break;
            }
            proof {
                lemma_first_over_skip(turns@, half as nat, i as int);
            }
            i = i + 1;
        }
        let cutoff = match found {
            Some(c) => c,
            None => turns.len() / 2,
        };
        assert(cutoff == summary_cutoff(turns@, self.context_limit));
        let mut first: Vec<StoredTurn> = Vec::new();
        let mut rest: Vec<StoredTurn> = Vec::new();
        let mut k: usize = 0;
        while k < turns.len()
            invariant
                0 <= k <= turns.len(),
                cutoff < turns.len(),
                k <= cutoff + 1 ==> first@ == turns@.subrange(0, k as int) && rest@.len() == 0,
                k > cutoff + 1 ==> first@ == turns@.subrange(0, cutoff + 1) && rest@ == turns@.subrange(cutoff + 1, k as int),
            decreases turns.len() - k,
        {
            let t = turns[k].duplicate();
            if k <= cutoff {
                first.push(t);
                assert(first@ =~= turns@.subrange(0, k + 1));
            } else {
                rest.push(t);
                assert(rest@ =~= turns@.subrange(cutoff + 1, k + 1));
            }
            k = k + 1;
        }
        if cutoff + 1 == turns.len() {
            assert(rest@ =~= turns@.subrange(cutoff + 1, turns@.len() as int));
        }
        (first, rest)
    }
}

// ---------------------------------------------------------------- embeddings

/// Embeddings from OpenAI.
#[derive(Clone, Debug)]
pub struct OpenAIEmbedding {
    pub api_key: String,
    pub model: String,
}

impl OpenAIEmbedding {
    /// The default OpenAI embedding model with `api_key`.
    pub fn new(api_key: String) -> (e: OpenAIEmbedding)
        ensures
            e.api_key == api_key,
            e.model@ == "text-embedding-3-small"@,
    {
        OpenAIEmbedding { api_key, model: String::from_str("text-embedding-3-small") }
    }

    /// The vector length.
    pub fn dimension(&self) -> (d: usize)
        ensures
            d == 1536,
    {
        1536
    }

    /// The provider's name.
    pub fn name(&self) -> (r: &'static str)
        ensures
            r@ == "openai"@,
    {
        "openai"
    }

    /// The authorisation header's value.
    pub fn authorization(&self) -> (r: String)
        ensures
            r@ == "Bearer "@ + self.api_key@,
    {
        cat2("Bearer ", self.api_key.as_str())
    }
}

/// Embeddings from an Ollama server.
#[derive(Clone, Debug)]
pub struct OllamaEmbedding {
    pub base_url: String,
    pub model: String,
}

impl OllamaEmbedding {
    /// The default Ollama embedding model at `base_url`.
    pub fn new(base_url: String) -> (e: OllamaEmbedding)
        ensures
            e.base_url == base_url,
            e.model@ == "nomic-embed-text"@,
    {
        OllamaEmbedding { base_url, model: String::from_str("nomic-embed-text") }
    }

    /// The vector length.
    pub fn dimension(&self) -> (d: usize)
        ensures
            d == 768,
    {
        768
    }

    /// The provider's name.
    pub fn name(&self) -> (r: &'static str)
        ensures
            r@ == "ollama"@,
    {
        "ollama"
    }

    /// The URL embeddings are requested from.
    pub fn endpoint(&self) -> (r: String)
        ensures
            r@ == self.base_url@ + "/api/embeddings"@,
    {
        cat2(self.base_url.as_str(), "/api/embeddings")
    }
}

/// Deterministic embeddings for tests, of a chosen length.
#[derive(Clone, Copy, Debug)]
pub struct MockEmbedding {
    pub dimension: usize,
}

impl MockEmbedding {
    /// Mock embeddings of length `dimension`.
    pub fn new(dimension: usize) -> (e: MockEmbedding)
        ensures
            e.dimension == dimension,
    {
        MockEmbedding { dimension }
    }

    /// The vector length.
    pub fn dimension(&self) -> (d: usize)
        ensures
            d == self.dimension,
    {
        self.dimension
    }

    /// The provider's name.
    pub fn name(&self) -> (r: &'static str)
        ensures
            r@ == "mock"@,
    {
        "mock"
    }
}

// ---------------------------------------------------------------- retrieval

/// A past task as the experience store keeps it.
#[derive(Debug)]
pub struct ExperienceRecord {
    pub task_summary: String,
    pub outcome: String,
    pub tools_used: Vec<String>,
    pub duration_ms: i64,
    pub agent_id: String,
    pub run_id: String,
    pub created_at: String,
}

/// What a retrieved lesson contributes to a prompt.
#[derive(Debug)]
pub struct LessonNote {
    pub error_type: String,
    pub root_cause: String,
    pub prevention: String,
}

/// A list of strings as `{:?}` renders it: bracketed, each quoted.
pub open spec fn list_debug(v: Seq<Seq<char>>) -> Seq<char> {
    "["@ + join(v.map_values(|s: Seq<char>| string_debug(s)), ", "@) + "]"@
}

/// The line for one past experience.
pub open spec fn experience_line(e: ExperienceRecord) -> Seq<char> {
    "- ["@ + e.run_id@ + "] "@ + e.task_summary@ + " (outcome: "@ + e.outcome@ + ", tools: "@
        + list_debug(texts(e.tools_used@)) + ")\n"@
}

/// The lines for the experiences, in order.
pub open spec fn experience_lines(es: Seq<ExperienceRecord>) -> Seq<char>
    decreases es.len(),
{
    if es.len() == 0 {
        Seq::empty()
    } else {
        experience_lines(es.drop_last()) + experience_line(es.last())
    }
}

/// The line for one lesson.
pub open spec fn lesson_line(l: LessonNote) -> Seq<char> {
    "- Error: "@ + l.error_type@ + " | Root cause: "@ + l.root_cause@ + " | Prevention: "@
        + l.prevention@ + "\n"@
}

/// The lines for the lessons, in order.
pub open spec fn lesson_lines(ls: Seq<LessonNote>) -> Seq<char>
    decreases ls.len(),
{
    if ls.len() == 0 {
        Seq::empty()
    } else {
        lesson_lines(ls.drop_last()) + lesson_line(ls.last())
    }
}

fn list_debug_text(v: &Vec<String>) -> (s: String)
    ensures
        s@ == list_debug(texts(v@)),
{
    let mut quoted: Vec<String> = Vec::new();
    let mut i: usize = 0;
    while i < v.len()
        invariant
            0 <= i <= v.len(),
            texts(quoted@) == texts(v@).take(i as int).map_values(|s: Seq<char>| string_debug(s)),
        decreases v.len() - i,
    {
        let ghost before = texts(quoted@);
        quoted.push(string_debug_text(v[i].as_str()));
        assert(texts(v@)[i as int] == v@[i as int]@);
        assert(texts(v@).take(i + 1) =~= texts(v@).take(i as int).push(v@[i as int]@));
        assert(texts(quoted@) =~= before.push(string_debug(v@[i as int]@)));
        assert(texts(quoted@) =~= texts(v@).take(i + 1).map_values(|s: Seq<char>| string_debug(s)));
        i = i + 1;
    }
    assert(texts(v@).take(v.len() as int) =~= texts(v@));
    let inner = crate::text::join_texts(&quoted, ", ");
    cat3("[", inner.as_str(), "]")
}

/// The context text for retrieved experiences: empty when there are none,
/// else a heading and one line per experience.
pub fn experience_context(items: &Vec<ExperienceRecord>) -> (s: String)
    ensures
        items@.len() == 0 ==> s@ == Seq::<char>::empty(),
        items@.len() > 0 ==> s@ == "Past experience:\n"@ + experience_lines(items@),
{
    if items.len() == 0 {
        return String::new();
    }
    let mut s = String::from_str("Past experience:\n");
    let mut i: usize = 0;
    while i < items.len()
        invariant
            0 <= i <= items.len(),
            s@ == "Past experience:\n"@ + experience_lines(items@.take(i as int)),
        decreases items.len() - i,
    {
        let e = &items[i];
        let tools = list_debug_text(&e.tools_used);
        let line = cat5("- [", e.run_id.as_str(), "] ", e.task_summary.as_str(), " (outcome: ").concat(
            e.outcome.as_str(),
        ).concat(", tools: ").concat(tools.as_str()).concat(")\n");
        s.append(line.as_str());
        assert(items@.take(i + 1).drop_last() =~= items@.take(i as int));
        i = i + 1;
    }
    assert(items@.take(items.len() as int) =~= items@);
    s
}

/// The context text for retrieved lessons: empty when there are none, else
/// a heading and one line per lesson.
pub fn lesson_context(items: &Vec<LessonNote>) -> (s: String)
    ensures
        items@.len() == 0 ==> s@ == Seq::<char>::empty(),
        items@.len() > 0 ==> s@ == "Lessons from past errors:\n"@ + lesson_lines(items@),
{
    if items.len() == 0 {
        return String::new();
    }
    let mut s = String::from_str("Lessons from past errors:\n");
    let mut i: usize = 0;
    while i < items.len()
        invariant
            0 <= i <= items.len(),
            s@ == "Lessons from past errors:\n"@ + lesson_lines(items@.take(i as int)),
        decreases items.len() - i,
    {
        let l = &items[i];
        let line = cat5("- Error: ", l.error_type.as_str(), " | Root cause: ", l.root_cause.as_str(), " | Prevention: ").concat(
            l.prevention.as_str(),
        ).concat("\n");
        s.append(line.as_str());
        assert(items@.take(i + 1).drop_last() =~= items@.take(i as int));
        i = i + 1;
    }
    assert(items@.take(items.len() as int) =~= items@);
    s
}

} // verus!
