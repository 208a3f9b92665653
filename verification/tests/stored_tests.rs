use evolith::query::{Runtime, Visibility};
use evolith::records::{
    git_repo_from_stored, git_repo_insert_statement, new_git_repo_record, new_skill_record,
    new_snippet_record, skill_from_stored, skill_insert_statement, snippet_from_stored,
    snippet_insert_statement, tool_from_stored, NewGitRepo, NewSkill, NewSnippet, RowError,
    SkillDependency, SnippetDependency, SqlValue, StoredGitRepo, StoredSkill, StoredSnippet,
    StoredTool,
};
use evolith::query::Dialect;

const ID: &str = "7f3b2c9e-1a4d-4e8b-9c2f-0d5e6a7b8c9d";
const OWNER: &str = "11111111-2222-3333-4444-555555555555";
const TENANT: &str = "aaaaaaaa-bbbb-cccc-dddd-eeeeeeeeeeee";
const NOW: &str = "2024-05-01T10:00:00+00:00";
const NOW_SECS: i64 = 1714557600;

fn txt(v: &SqlValue) -> String {
    match v {
        SqlValue::Text(s) => s.clone(),
        other => panic!("expected text, got {:?}", other),
    }
}

fn opt(v: &SqlValue) -> Option<String> {
    match v {
        SqlValue::Text(s) => Some(s.clone()),
        SqlValue::Null => None,
        other => panic!("expected text or NULL, got {:?}", other),
    }
}

fn int_of(v: &SqlValue) -> Option<i32> {
    match v {
        SqlValue::Int(i) => Some(*i as i32),
        SqlValue::Null => None,
        other => panic!("expected an integer, got {:?}", other),
    }
}

fn new_skill() -> NewSkill {
    NewSkill {
        name: "data-analyzer".to_string(),
        version: "1.0.0".to_string(),
        description: "Analyzes data".to_string(),
        skill_md: "# Data".to_string(),
        code_package_path: None,
        runtime: Runtime::Node20,
        dependencies: vec![
            SkillDependency { name: "requests".to_string(), version: "2.28.0".to_string() },
            SkillDependency { name: "numpy".to_string(), version: "1.24.0".to_string() },
        ],
        visibility: Some(Visibility::Public),
        author: Some("team".to_string()),
        tags: vec!["data".to_string(), "say \"hi\"\n".to_string(), "tab\tand\u{1}".to_string()],
        skill_type: "hybrid".to_string(),
        execution: "server".to_string(),
        entrypoint: Some("main.js".to_string()),
        timeout: 60,
        memory_mb: 512,
        permissions: Some("{\"filesystem\":\"read\"}".to_string()),
        license: None,
        compatibility: None,
        disable_model_invocation: true,
        user_invocable: false,
        argument_hint: None,
    }
}

#[test]
fn skill_row_reads_back_as_the_skill() {
    let k = new_skill_record(new_skill(), 0x7f3b2c9e_1a4d_4e8b_9c2f_0d5e6a7b8c9d, 0x11111111_2222_3333_4444_555555555555, 0xaaaaaaaa_bbbb_cccc_dddd_eeeeeeeeeeee, NOW_SECS);
    let (_, v) = skill_insert_statement(k.clone(), ID, OWNER, TENANT, NOW);
    let row = StoredSkill {
        id: txt(&v[0]),
        name: txt(&v[1]),
        version: txt(&v[2]),
        description: txt(&v[3]),
        skill_md: txt(&v[4]),
        code_package_path: opt(&v[5]),
        runtime: txt(&v[6]),
        dependencies: opt(&v[7]),
        visibility: txt(&v[8]),
        owner_id: txt(&v[9]),
        tenant_id: opt(&v[10]),
        author: opt(&v[11]),
        tags: opt(&v[12]),
        skill_type: opt(&v[13]),
        execution: opt(&v[14]),
        entrypoint: opt(&v[15]),
        timeout: int_of(&v[16]),
        memory_mb: int_of(&v[17]),
        permissions: opt(&v[18]),
        license: opt(&v[19]),
        compatibility: opt(&v[20]),
        disable_model_invocation: int_of(&v[21]),
        user_invocable: int_of(&v[22]),
        argument_hint: opt(&v[23]),
        created_at: txt(&v[24]),
        updated_at: txt(&v[25]),
    };
    // The dependency column is JSON that serde_json reads as the objects stored.
    let parsed: Vec<serde_json::Value> = serde_json::from_str(row.dependencies.as_deref().unwrap()).unwrap();
    assert_eq!(parsed[0]["name"], "requests");
    assert_eq!(parsed[1]["version"], "1.24.0");
    let back = skill_from_stored(row, Some(k.dependencies.clone()), 0);
    assert_eq!(back.id, k.id);
    assert_eq!(back.owner_id, k.owner_id);
    assert_eq!(back.tenant_id, k.tenant_id);
    assert_eq!(back.tags, k.tags);
    assert_eq!(back.dependencies, k.dependencies);
    assert_eq!(back.runtime, Runtime::Node20);
    assert_eq!(back.visibility, Visibility::Public);
    assert_eq!(back.permissions, k.permissions);
    assert_eq!((back.timeout, back.memory_mb), (60, 512));
    assert!(back.disable_model_invocation && !back.user_invocable);
    assert_eq!((back.created_at, back.updated_at), (NOW_SECS, NOW_SECS));
}

#[test]
fn skill_row_defaults() {
    let row = StoredSkill {
        id: "not-a-uuid".to_string(),
        name: "n".to_string(),
        version: "1".to_string(),
        description: "d".to_string(),
        skill_md: "m".to_string(),
        code_package_path: None,
        runtime: "cobol".to_string(),
        dependencies: None,
        visibility: "secret".to_string(),
        owner_id: OWNER.to_string(),
        tenant_id: None,
        author: None,
        tags: Some("not json".to_string()),
        skill_type: None,
        execution: None,
        entrypoint: None,
        timeout: None,
        memory_mb: None,
        permissions: Some("{broken".to_string()),
        license: None,
        compatibility: None,
        disable_model_invocation: None,
        user_invocable: None,
        argument_hint: None,
        created_at: "yesterday".to_string(),
        updated_at: NOW.to_string(),
    };
    let k = skill_from_stored(row, None, 42);
    assert_eq!(k.id, 0);
    assert_eq!(k.tenant_id, 0);
    assert_eq!(k.runtime, Runtime::Wasm);
    assert_eq!(k.visibility, Visibility::Private);
    assert!(k.tags.is_empty() && k.dependencies.is_empty());
    assert_eq!(k.skill_type, "instruction");
    assert_eq!(k.execution, "client");
    assert_eq!((k.timeout, k.memory_mb), (30, 256));
    assert!(!k.disable_model_invocation && k.user_invocable);
    assert!(k.permissions.is_none());
    assert_eq!((k.created_at, k.updated_at), (42, NOW_SECS));
}

fn new_snippet() -> NewSnippet {
    NewSnippet {
        name: "tagged-snippet".to_string(),
        language: "typescript".to_string(),
        framework: Some("next.js".to_string()),
        tags: vec!["react".to_string(), "ssr".to_string(), "frontend".to_string()],
        content: "Server-side rendering".to_string(),
        code: "export default function Page() {}".to_string(),
        dependencies: vec![
            SnippetDependency { name: "tokio".to_string(), version: "1.0".to_string(), required: true },
            SnippetDependency { name: "serde".to_string(), version: "1.0".to_string(), required: false },
        ],
        visibility: Some(Visibility::Public),
        version: "2.0.0".to_string(),
        summary: Some("A CLI tool snippet".to_string()),
        command: Some("mytool".to_string()),
        subcommands: "[{\"name\":\"init\"},{\"name\":\"build\"}]".to_string(),
        inputs: "[{\"name\":\"project_name\",\"type\":\"string\"}]".to_string(),
        output: Some("{\"type\":\"object\"}".to_string()),
        examples: "[{\"command\":\"mytool init\"}]".to_string(),
        error_model: Some("{\"codes\":[1,2,3]}".to_string()),
    }
}

#[test]
fn snippet_row_reads_back_tags_dependencies_and_cli_fields() {
    let n = new_snippet_record(new_snippet(), 0x7f3b2c9e_1a4d_4e8b_9c2f_0d5e6a7b8c9d, 0x11111111_2222_3333_4444_555555555555, 0xaaaaaaaa_bbbb_cccc_dddd_eeeeeeeeeeee, NOW_SECS);
    let (_, v) = snippet_insert_statement(n.clone(), ID, OWNER, TENANT, NOW, Dialect::Sqlite);
    let row = StoredSnippet {
        id: txt(&v[0]),
        name: txt(&v[1]),
        language: txt(&v[2]),
        framework: opt(&v[3]),
        tags: opt(&v[4]),
        content: txt(&v[5]),
        code: txt(&v[6]),
        dependencies: opt(&v[7]),
        estimated_tokens: int_of(&v[8]).unwrap(),
        visibility: txt(&v[9]),
        owner_id: txt(&v[10]),
        tenant_id: opt(&v[11]),
        version: opt(&v[12]),
        summary: opt(&v[13]),
        command: opt(&v[14]),
        subcommands: opt(&v[15]),
        inputs: opt(&v[16]),
        output: opt(&v[17]),
        examples: opt(&v[18]),
        error_model: opt(&v[19]),
        created_at: txt(&v[20]),
        updated_at: txt(&v[21]),
    };
    assert_eq!(
        row.dependencies.as_deref(),
        Some("[{\"name\":\"tokio\",\"version\":\"1.0\",\"required\":true},{\"name\":\"serde\",\"version\":\"1.0\",\"required\":false}]")
    );
    let back = snippet_from_stored(row, Some(n.dependencies.clone()), 0);
    assert_eq!(back.tags, vec!["react".to_string(), "ssr".to_string(), "frontend".to_string()]);
    assert_eq!(back.dependencies[0].name, "tokio");
    assert_eq!(back.dependencies[1].name, "serde");
    assert_eq!(back.version, "2.0.0");
    assert_eq!(back.summary.as_deref(), Some("A CLI tool snippet"));
    assert_eq!(back.command.as_deref(), Some("mytool"));
    assert_eq!(back.subcommands, n.subcommands);
    assert_eq!(back.inputs, n.inputs);
    assert_eq!(back.output, n.output);
    assert_eq!(back.examples, n.examples);
    assert_eq!(back.error_model, n.error_model);
    assert_eq!(back.estimated_tokens, n.estimated_tokens);
    assert_eq!(back.visibility, Visibility::Public);
    assert_eq!(back.created_at, NOW_SECS);
}

#[test]
fn snippet_row_defaults() {
    let row = StoredSnippet {
        id: ID.to_string(),
        name: "n".to_string(),
        language: "rust".to_string(),
        framework: None,
        tags: None,
        content: "c".to_string(),
        code: "x".to_string(),
        dependencies: None,
        estimated_tokens: -1,
        visibility: "public".to_string(),
        owner_id: OWNER.to_string(),
        tenant_id: Some(TENANT.to_string()),
        version: None,
        summary: None,
        command: None,
        subcommands: Some("{\"not\":\"an array\"}".to_string()),
        inputs: None,
        output: Some("nope".to_string()),
        examples: Some("[1]".to_string()),
        error_model: None,
        created_at: NOW.to_string(),
        updated_at: "bad".to_string(),
    };
    let n = snippet_from_stored(row, None, 9);
    assert_eq!(n.version, "1.0.0");
    assert_eq!(n.subcommands, "[]");
    assert_eq!(n.inputs, "[]");
    assert_eq!(n.examples, "[1]");
    assert!(n.output.is_none());
    assert_eq!(n.estimated_tokens, u32::MAX);
    assert_eq!(n.tenant_id, 0xaaaaaaaa_bbbb_cccc_dddd_eeeeeeeeeeee);
    assert_eq!(n.updated_at, 9);
}

#[test]
fn tool_row_defaults() {
    let row = StoredTool {
        id: ID.to_string(),
        name: "search".to_string(),
        description: "d".to_string(),
        input_schema: "not json".to_string(),
        output_schema: Some("{\"type\":\"string\"}".to_string()),
        handler_type: "ftp".to_string(),
        handler_url: None,
        handler_method: Some("GET".to_string()),
        handler_timeout: Some(30),
        visibility: "private".to_string(),
        owner_id: OWNER.to_string(),
        tenant_id: None,
        created_at: NOW.to_string(),
        updated_at: NOW.to_string(),
    };
    let t = tool_from_stored(row, 0);
    assert_eq!(t.input_schema, "null");
    assert_eq!(t.output_schema.as_deref(), Some("{\"type\":\"string\"}"));
    assert_eq!(t.handler.handler_type, evolith::records::HandlerType::Function);
    assert_eq!(t.handler.timeout, Some(30));
    assert_eq!(t.created_at, NOW_SECS);
}

fn repo_row() -> StoredGitRepo {
    let g = new_git_repo_record(
        NewGitRepo {
            name: "test-repo".to_string(),
            description: Some("Test repository".to_string()),
            default_branch: None,
            visibility: None,
            auto_merge: None,
            require_review: None,
        },
        0x7f3b2c9e_1a4d_4e8b_9c2f_0d5e6a7b8c9d,
        0xaaaaaaaa_bbbb_cccc_dddd_eeeeeeeeeeee,
        TENANT,
        NOW_SECS,
    );
    let (_, v) = git_repo_insert_statement(g, ID, TENANT, NOW);
    StoredGitRepo {
        id: txt(&v[0]),
        tenant_id: txt(&v[1]),
        name: txt(&v[2]),
        description: txt(&v[3]),
        default_branch: txt(&v[4]),
        storage_path: txt(&v[5]),
        visibility: txt(&v[6]),
        auto_merge: int_of(&v[7]).unwrap() as i64,
        require_review: int_of(&v[8]).unwrap() as i64,
        last_commit_sha: None,
        last_committed_at: None,
        created_at: txt(&v[9]),
        updated_at: txt(&v[10]),
    }
}

#[test]
fn repository_row_reads_back() {
    let g = git_repo_from_stored(repo_row()).expect("readable");
    assert_eq!(g.name, "test-repo");
    assert_eq!(g.description, "Test repository");
    assert_eq!(g.default_branch, "main");
    assert_eq!(g.visibility, Visibility::Private);
    assert!(!g.auto_merge);
    assert!(g.require_review);
    assert!(g.storage_path.contains(TENANT) && g.storage_path.contains("test-repo"));
    assert_eq!(g.created_at, NOW_SECS);
}

#[test]
fn repository_row_errors() {
    let mut row = repo_row();
    row.visibility = "secret".to_string();
    match git_repo_from_stored(row) {
        Err(RowError::Decode(m)) => assert_eq!(m, "Unknown visibility: secret"),
        Ok(_) => panic!("unknown visibility must be refused"),
    }
    let mut row = repo_row();
    row.created_at = "yesterday".to_string();
    match git_repo_from_stored(row) {
        Err(RowError::Decode(m)) => assert!(m.starts_with("Failed to parse created_at: ")),
        Ok(_) => panic!("a bad time must be refused"),
    }
    let mut row = repo_row();
    row.last_committed_at = Some("later".to_string());
    match git_repo_from_stored(row) {
        Err(RowError::Decode(m)) => assert!(m.starts_with("Failed to parse last_committed_at: ")),
        Ok(_) => panic!("a bad time must be refused"),
    }
}

#[test]
fn json_strings_escape_like_serde_json() {
    let items = vec!["a\"b".to_string(), "\u{1}\u{1f}\n".to_string(), "é/".to_string()];
    let ours = evolith::json::encode_string_array(&items);
    assert_eq!(ours, serde_json::to_string(&items).unwrap());
    assert_eq!(ours, "[\"a\\\"b\",\"\\u0001\\u001f\\n\",\"é/\"]");
    assert_eq!(evolith::json::json_decode_strings(&ours), Some(items));
    assert_eq!(evolith::json::encode_string_array(&Vec::new()), "[]");
}
