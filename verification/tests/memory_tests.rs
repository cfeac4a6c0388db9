use argo::error::MemoryError;
use argo::memory::{Entity, TaskRecord, experience_context, lesson_context, ExperienceRecord, LessonNote, MemoryMode, ContextOverflowHandler, MemoryHandle, MockEmbedding, OllamaEmbedding, OpenAIEmbedding, RedisMemory, StoredTurn, SurrealMemory};

#[test]
fn mock_embedding_name() {
    let embedder = MockEmbedding::new(1536);
    assert_eq!(embedder.name(), "mock");
}

#[test]
fn mock_embedding_dimension() {
    let embedder = MockEmbedding::new(768);
    assert_eq!(embedder.dimension(), 768);
}

#[test]
fn test_memory_error_display() {
    let err = MemoryError::Redis("connection refused".to_string());
    assert!(err.to_string().contains("connection refused"));
}

#[test]
fn memory_error_messages() {
    assert_eq!(MemoryError::Redis("x".to_string()).to_string(), "Redis error: x");
    assert_eq!(MemoryError::Surreal("x".to_string()).to_string(), "SurrealDB error: x");
    assert_eq!(MemoryError::KeyNotFound("k".to_string()).to_string(), "Key not found: k");
}

#[test]
fn embedding_providers_describe_themselves() {
    let openai = OpenAIEmbedding::new("sk-test".to_string());
    assert_eq!(openai.dimension(), 1536);
    assert_eq!(openai.authorization(), "Bearer sk-test");
    let ollama = OllamaEmbedding::new("http://localhost:11434".to_string());
    assert_eq!(ollama.dimension(), 768);
    assert_eq!(ollama.endpoint(), "http://localhost:11434/api/embeddings");
}

#[test]
fn redis_keys_are_namespaced_by_agent_and_run() {
    assert_eq!(RedisMemory::context_key("coder", "r1"), "argo:agent:coder:run:r1:context");
    assert_eq!(RedisMemory::turns_key("coder", "r1"), "argo:agent:coder:run:r1:turns");
    assert_eq!(RedisMemory::scratch_key("coder", "r1"), "argo:agent:coder:run:r1:scratch");
    assert_eq!(RedisMemory::plan_key("coder", "r1"), "argo:agent:coder:run:r1:plan");
}

fn handle(mode: &str, agent: Option<&str>) -> MemoryHandle {
    let redis = RedisMemory::new("redis://localhost:6379").unwrap();
    let surreal = SurrealMemory::new("ws://localhost:8000", "argo", "memory");
    match (mode, agent) {
        ("shared", _) => MemoryHandle::shared(redis, surreal),
        ("isolated", Some(a)) => MemoryHandle::isolated(redis, surreal, a),
        ("persistent", Some(a)) => MemoryHandle::persistent(redis, surreal, a),
        _ => MemoryHandle::new(redis, surreal),
    }
}

#[test]
fn effective_agent_follows_the_mode() {
    assert_eq!(handle("shared", None).effective_agent_id("caller"), "shared");
    assert_eq!(handle("isolated", Some("owner")).effective_agent_id("caller"), "caller");
    assert_eq!(handle("persistent", Some("owner")).effective_agent_id("caller"), "owner");
    assert_eq!(handle("default", None).effective_agent_id("caller"), "caller");
}

#[test]
fn memory_mode_names() {
    assert_eq!(MemoryMode::from_str("Shared"), MemoryMode::Shared);
    assert_eq!(MemoryMode::from_str("ISOLATED"), MemoryMode::Isolated);
    assert_eq!(MemoryMode::from_str("other"), MemoryMode::Persistent);
}

fn turn(content: &str) -> StoredTurn {
    StoredTurn { role: "user".to_string(), content: content.to_string() }
}

#[test]
fn overflow_handler_estimates_and_splits() {
    assert_eq!(ContextOverflowHandler::estimate_tokens("one two three four"), 4);
    let surreal = SurrealMemory::new("ws://localhost:8000", "argo", "memory");
    let handler = ContextOverflowHandler::new(surreal, 10);
    let turns = vec![turn("a b c d e f"), turn("g h i j k l"), turn("m n o p q r")];
    assert!(handler.should_compress(&turns));
    let (old, recent) = handler.select_turns_to_summarize(&turns);
    assert_eq!(old.len() + recent.len(), turns.len());
    let short = vec![turn("a")];
    assert!(!handler.should_compress(&short));
}

#[test]
fn retrieved_experience_reads_as_context() {
    let items = vec![ExperienceRecord {
        task_summary: "fix the build".to_string(),
        outcome: "success".to_string(),
        tools_used: vec!["bash".to_string(), "fi\"les".to_string()],
        duration_ms: 5,
        agent_id: "a".to_string(),
        run_id: "r1".to_string(),
        created_at: "now".to_string(),
    }];
    assert_eq!(
        experience_context(&items),
        "Past experience:\n- [r1] fix the build (outcome: success, tools: [\"bash\", \"fi\\\"les\"])\n"
    );
    assert_eq!(experience_context(&vec![]), "");
    let lessons = vec![LessonNote {
        error_type: "ToolTimeout".to_string(),
        root_cause: "slow".to_string(),
        prevention: "cache".to_string(),
    }];
    assert_eq!(
        lesson_context(&lessons),
        "Lessons from past errors:\n- Error: ToolTimeout | Root cause: slow | Prevention: cache\n"
    );
}

#[test]
fn redis_urls_are_checked() {
    assert!(RedisMemory::new("not a url").is_err());
    assert!(RedisMemory::new("redis://127.0.0.1:6379").is_ok());
}

fn task(run_id: &str, outcome: &str) -> TaskRecord {
    TaskRecord {
        agent_id: "test-agent".to_string(),
        goal: "test goal".to_string(),
        outcome: outcome.to_string(),
        summary: "test summary".to_string(),
        tools_used: vec!["bash".to_string()],
        duration_ms: 1000,
        run_id: run_id.to_string(),
        started_at: "2024-01-01T00:00:00+00:00".to_string(),
        ended_at: "2024-01-01T00:00:01+00:00".to_string(),
    }
}

#[test]
fn task_record_comes_back_after_store() {
    let mut store = SurrealMemory::new("http://127.0.0.1:8000", "argo_test", "full_test");
    assert!(store.get_task_record("run-002").unwrap().is_none());
    store.store_task_record(&task("run-002", "success")).unwrap();
    store.store_task_record(&task("run-003", "failure")).unwrap();
    let r = store.get_task_record("run-002").unwrap().expect("stored record");
    assert_eq!(r.agent_id, "test-agent");
    assert_eq!(r.outcome, "success");
    assert_eq!(r.tools_used, vec!["bash".to_string()]);
    assert!(store.get_task_record("run-004").unwrap().is_none());
    store.store_task_record(&task("run-002", "partial")).unwrap();
    assert_eq!(store.get_task_record("run-002").unwrap().unwrap().outcome, "partial");
}

fn entity(id: &str, kind: &str, ident: &str) -> Entity {
    Entity { id: Some(id.to_string()), entity_type: kind.to_string(), identifier: ident.to_string(), metadata: None }
}

#[test]
fn entities_and_relationships_are_kept() {
    let mut store = SurrealMemory::new("ws://localhost:8000", "argo", "memory");
    store.store_entity(&entity("e1", "file", "main.rs")).unwrap();
    store.store_entity(&entity("e2", "file", "lib.rs")).unwrap();
    store.store_entity(&entity("e3", "tool", "bash")).unwrap();
    let got = store.get_entity("file", "lib.rs").unwrap().expect("stored entity");
    assert_eq!(got.id.as_deref(), Some("e2"));
    assert!(store.get_entity("tool", "main.rs").unwrap().is_none());
    store.create_relationship("e1", "e2", "imports").unwrap();
    store.create_relationship("e1", "e3", "uses").unwrap();
    let related = store.query_relationships("e1", "imports").unwrap();
    assert_eq!(related.len(), 1);
    assert_eq!(related[0].identifier, "lib.rs");
    assert!(store.query_relationships("e2", "imports").unwrap().is_empty());
}
