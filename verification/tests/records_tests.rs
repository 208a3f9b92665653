use evolith::records::{
    SkillDependency, SnippetDependency,
    apply_git_repo_update, record_last_commit, UpdateGitRepo, new_tool_record, pg_skill_update_statement, tool_insert_statement, NewTool,
    accept_invitation, new_api_key_record, new_invitation_record, revoke_api_key, ApiKeyStatus,
    NewApiKey, NewInvitation,
};
use evolith::query::{Dialect, Runtime, Visibility};
use evolith::records::{
    apply_skill_update, apply_snippet_update, apply_tool_update, git_repo_insert_statement,
    new_git_repo_record, new_skill_record, new_snippet_record, skill_insert_statement,
    skill_update_statement, snippet_insert_statement, snippet_update_statement,
    tool_update_statements, HandlerConfig, HandlerType, NewGitRepo, NewSkill, NewSnippet, SqlValue,
    Tool, UpdateSkill, UpdateSnippet, UpdateTool,
};

fn dep(name: &str, version: &str) -> SkillDependency {
    SkillDependency { name: name.to_string(), version: version.to_string() }
}

fn text(s: &str) -> SqlValue {
    SqlValue::Text(s.to_string())
}

fn new_skill() -> NewSkill {
    NewSkill {
        name: "data-analyzer".to_string(),
        version: "1.0.0".to_string(),
        description: "Analyzes data".to_string(),
        skill_md: "# Data".to_string(),
        code_package_path: None,
        runtime: Runtime::Python311,
        dependencies: vec![dep("pandas", "2.0.0"), dep("numpy", "1.24.0")],
        visibility: None,
        author: Some("team".to_string()),
        tags: vec!["data".to_string()],
        skill_type: "instruction".to_string(),
        execution: "client".to_string(),
        entrypoint: None,
        timeout: 30,
        memory_mb: 256,
        permissions: None,
        license: None,
        compatibility: None,
        disable_model_invocation: false,
        user_invocable: true,
        argument_hint: None,
    }
}

fn empty_skill_update() -> UpdateSkill {
    UpdateSkill {
        name: None,
        version: None,
        description: None,
        skill_md: None,
        runtime: None,
        dependencies: None,
        visibility: None,
        author: None,
        tags: None,
        skill_type: None,
        execution: None,
        entrypoint: None,
        timeout: None,
        memory_mb: None,
        permissions: None,
        license: None,
        compatibility: None,
        disable_model_invocation: None,
        user_invocable: None,
        argument_hint: None,
    }
}

#[test]
fn new_skill_is_private_unless_asked() {
    let k = new_skill_record(new_skill(), 7, 8, 9, 1000);
    assert_eq!(k.visibility, Visibility::Private);
    assert_eq!((k.id, k.owner_id, k.tenant_id), (7, 8, 9));
    assert_eq!((k.created_at, k.updated_at), (1000, 1000));
    let mut n = new_skill();
    n.visibility = Some(Visibility::Public);
    assert_eq!(new_skill_record(n, 7, 8, 9, 1000).visibility, Visibility::Public);
}

#[test]
fn skill_update_changes_only_present_fields() {
    let k = new_skill_record(new_skill(), 7, 8, 9, 1000);
    let mut u = empty_skill_update();
    u.version = Some("1.1.0".to_string());
    u.runtime = Some(Runtime::Node20);
    u.entrypoint = Some("main.js".to_string());
    u.user_invocable = Some(false);
    let s = apply_skill_update(k, u, 2000);
    assert_eq!(s.version, "1.1.0");
    assert_eq!(s.name, "data-analyzer");
    assert_eq!(s.runtime, Runtime::Node20);
    assert_eq!(s.entrypoint.as_deref(), Some("main.js"));
    assert_eq!(s.author.as_deref(), Some("team"));
    assert!(!s.user_invocable);
    assert_eq!((s.created_at, s.updated_at), (1000, 2000));
    assert_eq!(s.dependencies, vec![dep("pandas", "2.0.0"), dep("numpy", "1.24.0")]);
}

#[test]
fn skill_statements_bind_every_column_in_order() {
    let k = new_skill_record(new_skill(), 7, 8, 9, 1000);
    let (sql, values) = skill_insert_statement(k.clone(), "id-7", "owner-8", "tenant-9", "t0");
    assert!(sql.starts_with("INSERT INTO skills (id, name, version"));
    assert_eq!(values.len(), 26);
    assert_eq!(sql.matches('?').count(), 26);
    assert_eq!(values[0], text("id-7"));
    assert_eq!(values[6], text("python311"));
    assert_eq!(values[7], text("[{\"name\":\"pandas\",\"version\":\"2.0.0\"},{\"name\":\"numpy\",\"version\":\"1.24.0\"}]"));
    assert_eq!(values[8], text("private"));
    assert_eq!(values[5], SqlValue::Null);
    assert_eq!(values[21], SqlValue::Int(0));
    assert_eq!(values[22], SqlValue::Int(1));
    assert_eq!(values[25], text("t0"));
    let (sql, values) = skill_update_statement(k, "id-7", "t1");
    assert!(sql.starts_with("UPDATE skills SET name = ?"));
    assert_eq!(values.len(), 22);
    assert_eq!(sql.matches('?').count(), 22);
    assert_eq!(values[8], text("[\"data\"]"));
    assert_eq!(values[20], text("t1"));
    assert_eq!(values[21], text("id-7"));
}

#[test]
fn list_encoding_escapes_quotes() {
    let mut n = new_skill();
    n.tags = vec!["a\"b".to_string(), "c\\d".to_string()];
    let k = new_skill_record(n, 1, 2, 3, 0);
    let (_, values) = skill_update_statement(k, "x", "y");
    assert_eq!(values[8], text("[\"a\\\"b\",\"c\\\\d\"]"));
}

fn new_snippet() -> NewSnippet {
    NewSnippet {
        name: "retry".to_string(),
        language: "rust".to_string(),
        framework: None,
        tags: vec![],
        content: "Retries a call".to_string(),
        code: "loop {}".to_string(),
        dependencies: vec![],
        visibility: None,
        version: "1".to_string(),
        summary: None,
        command: None,
        subcommands: "[]".to_string(),
        inputs: "[]".to_string(),
        output: None,
        examples: "[]".to_string(),
        error_model: None,
    }
}

#[test]
fn new_snippet_estimates_tokens_by_characters() {
    let k = new_snippet_record(new_snippet(), 1, 2, 3, 50);
    assert_eq!(k.estimated_tokens, (14 + 7) / 4);
    let mut n = new_snippet();
    n.content = "éééé".to_string();
    n.code = "éééé".to_string();
    assert_eq!(new_snippet_record(n, 1, 2, 3, 50).estimated_tokens, 2);
    assert_eq!(k.visibility, Visibility::Private);
}

#[test]
fn snippet_update_keeps_estimate_unless_given() {
    let k = new_snippet_record(new_snippet(), 1, 2, 3, 50);
    let u = UpdateSnippet {
        name: None,
        language: None,
        framework: Some("tokio".to_string()),
        tags: None,
        content: Some("a much longer description of the snippet".to_string()),
        code: None,
        dependencies: None,
        estimated_tokens: None,
        visibility: Some(Visibility::Public),
        version: None,
        summary: None,
        command: None,
        subcommands: None,
        inputs: None,
        output: None,
        examples: None,
        error_model: None,
    };
    let s = apply_snippet_update(k, u, 60);
    assert_eq!(s.estimated_tokens, 5);
    assert_eq!(s.framework.as_deref(), Some("tokio"));
    assert_eq!(s.visibility, Visibility::Public);
    assert_eq!((s.created_at, s.updated_at), (50, 60));
}

#[test]
fn snippet_statements_in_both_dialects() {
    let k = new_snippet_record(new_snippet(), 1, 2, 3, 50);
    let (sql, values) = snippet_update_statement(k.clone(), "id", "now", Dialect::Postgres);
    assert!(sql.starts_with("UPDATE snippets SET name = $1, language = $2"));
    assert!(sql.ends_with("WHERE id = $19"));
    assert_eq!(values.len(), 19);
    assert_eq!(values[7], SqlValue::Int(5));
    assert_eq!(values[18], text("id"));
    let (sql, values) = snippet_update_statement(k.clone(), "id", "now", Dialect::Sqlite);
    assert_eq!(sql.matches('?').count(), values.len());
    let (sql, values) = snippet_insert_statement(k, "id", "o", "t", "now", Dialect::Sqlite);
    assert_eq!(values.len(), 22);
    assert_eq!(sql.matches('?').count(), 22);
    assert_eq!(values[10], text("o"));
    assert_eq!(values[2], text("rust"));
}

fn tool() -> Tool {
    Tool {
        id: 1,
        name: "search".to_string(),
        description: "Searches".to_string(),
        input_schema: "{}".to_string(),
        output_schema: None,
        handler: HandlerConfig {
            handler_type: HandlerType::Http,
            url: Some("https://x".to_string()),
            method: Some("GET".to_string()),
            timeout: Some(5),
        },
        owner_id: 2,
        tenant_id: 3,
        visibility: Visibility::Private,
        created_at: 10,
        updated_at: 10,
    }
}

fn no_tool_change() -> UpdateTool {
    UpdateTool {
        name: None,
        description: None,
        input_schema: None,
        output_schema: None,
        handler: None,
        visibility: None,
    }
}

#[test]
fn tool_update_issues_one_statement_per_field() {
    assert!(tool_update_statements(no_tool_change(), "id", "now").is_empty());
    let t = apply_tool_update(tool(), no_tool_change(), 20);
    assert_eq!(t.updated_at, 10);
    let mut u = no_tool_change();
    u.name = Some("find".to_string());
    u.visibility = Some(Visibility::Public);
    let st = tool_update_statements(u.clone(), "id", "now");
    assert_eq!(st.len(), 2);
    assert_eq!(st[0].0, "UPDATE tools SET name = ?, updated_at = ? WHERE id = ?");
    assert_eq!(st[0].1, vec![text("find"), text("now"), text("id")]);
    assert_eq!(st[1].0, "UPDATE tools SET visibility = ?, updated_at = ? WHERE id = ?");
    assert_eq!(st[1].1[0], text("public"));
    let t = apply_tool_update(tool(), u, 20);
    assert_eq!((t.name.as_str(), t.visibility, t.updated_at), ("find", Visibility::Public, 20));
    assert_eq!(t.description, "Searches");
}

#[test]
fn tool_handler_update_binds_its_parts() {
    let mut u = no_tool_change();
    u.handler = Some(HandlerConfig {
        handler_type: HandlerType::Function,
        url: None,
        method: None,
        timeout: None,
    });
    let st = tool_update_statements(u, "id", "now");
    assert_eq!(st.len(), 1);
    assert!(st[0].0.starts_with("UPDATE tools SET handler_type = ?"));
    assert_eq!(
        st[0].1,
        vec![text("function"), SqlValue::Null, SqlValue::Null, SqlValue::Null, text("now"), text("id")]
    );
}

#[test]
fn new_repository_defaults() {
    let g = new_git_repo_record(
        NewGitRepo {
            name: "demo".to_string(),
            description: None,
            default_branch: None,
            visibility: None,
            auto_merge: None,
            require_review: None,
        },
        1,
        2,
        "tenant-2",
        100,
    );
    assert_eq!(g.description, "");
    assert_eq!(g.default_branch, "main");
    assert_eq!(g.storage_path, "repos/tenant-2/demo");
    assert_eq!(g.visibility, Visibility::Private);
    assert!(!g.auto_merge);
    assert!(g.require_review);
    assert!(g.last_commit_sha.is_none());
    let (sql, values) = git_repo_insert_statement(g, "id-1", "tenant-2", "now");
    assert!(sql.starts_with("INSERT INTO git_repos"));
    assert_eq!(values.len(), 11);
    assert_eq!(values[7], SqlValue::Int(0));
    assert_eq!(values[8], SqlValue::Int(1));
    assert_eq!(values[5], text("repos/tenant-2/demo"));
}

#[test]
fn api_keys_start_active_and_can_be_revoked() {
    let n = NewApiKey {
        tenant_id: 1,
        user_id: 2,
        name: "ci".to_string(),
        key_hash: "h".to_string(),
        key_prefix: "evk_".to_string(),
        permissions: "[]".to_string(),
        rate_limit: None,
        expires_at: Some(500),
    };
    let mut k = new_api_key_record(n.clone(), 9, 100);
    assert_eq!(k.status, ApiKeyStatus::Active);
    assert_eq!(k.rate_limit, 1000);
    assert_eq!(k.request_count, 0);
    assert_eq!(k.expires_at, Some(500));
    let mut custom = n;
    custom.rate_limit = Some(60);
    assert_eq!(new_api_key_record(custom, 9, 100).rate_limit, 60);
    revoke_api_key(&mut k, 200);
    assert_eq!(k.status, ApiKeyStatus::Revoked);
    assert_eq!((k.created_at, k.updated_at), (100, 200));
    assert_eq!(ApiKeyStatus::from_stored(Some("expired")), ApiKeyStatus::Expired);
    assert_eq!(ApiKeyStatus::from_stored(Some("bogus")), ApiKeyStatus::Active);
    assert_eq!(ApiKeyStatus::from_stored(None), ApiKeyStatus::Active);
}

#[test]
fn invitations_are_accepted_once_recorded() {
    let mut v = new_invitation_record(
        NewInvitation {
            tenant_id: 1,
            email: "a@b.c".to_string(),
            role: "member".to_string(),
            token: "tok".to_string(),
            expires_at: 900,
            created_by: 2,
        },
        3,
        100,
    );
    assert!(v.accepted_at.is_none());
    accept_invitation(&mut v, 150);
    assert_eq!(v.accepted_at, Some(150));
    assert_eq!(v.token, "tok");
}

#[test]
fn audit_entries_leave_request_info_out() {
    let e = evolith::audit::log_entry(1, Some(2), None, "skill.create", Some("skill"), None, "{}".to_string(), 77);
    assert_eq!(e.action, "skill.create");
    assert_eq!(e.resource_type.as_deref(), Some("skill"));
    assert!(e.resource_id.is_none());
    assert!(e.ip_address.is_none() && e.user_agent.is_none());
    assert_eq!(e.created_at, 77);
}

#[test]
fn new_tool_and_its_statement() {
    let t = new_tool_record(
        NewTool {
            name: "search".to_string(),
            description: "Searches".to_string(),
            input_schema: "{}".to_string(),
            output_schema: None,
            handler: HandlerConfig {
                handler_type: HandlerType::Http,
                url: Some("https://x".to_string()),
                method: None,
                timeout: Some(5),
            },
            visibility: None,
        },
        1,
        2,
        3,
        10,
    );
    assert_eq!(t.visibility, Visibility::Private);
    assert_eq!((t.created_at, t.updated_at), (10, 10));
    let (sql, values) = tool_insert_statement(t, "id", "o", "t", "now", Dialect::Postgres);
    assert!(sql.ends_with("VALUES ($1, $2, $3, $4, $5, $6, $7, $8, $9, $10, $11, $12, $13, $14)"));
    assert_eq!(values.len(), 14);
    assert_eq!(values[5], text("http"));
    assert_eq!(values[7], SqlValue::Null);
    assert_eq!(values[8], SqlValue::Int(5));
    assert_eq!(values[9], text("private"));
}

#[test]
fn postgres_skill_update_sets_the_core_fields() {
    let k = new_skill_record(new_skill(), 7, 8, 9, 1000);
    let (sql, values) = pg_skill_update_statement(k, "id-7", "t1");
    assert!(sql.starts_with("UPDATE skills SET name = $1"));
    assert!(sql.ends_with("WHERE id = $9"));
    assert_eq!(values.len(), 9);
    assert_eq!(values[5], text("[{\"name\":\"pandas\",\"version\":\"2.0.0\"},{\"name\":\"numpy\",\"version\":\"1.24.0\"}]"));
    assert_eq!(values[8], text("id-7"));
}

#[test]
fn repository_updates_keep_the_directory() {
    let g = new_git_repo_record(
        NewGitRepo {
            name: "demo".to_string(),
            description: Some("first".to_string()),
            default_branch: Some("trunk".to_string()),
            visibility: Some(Visibility::Public),
            auto_merge: Some(false),
            require_review: Some(true),
        },
        1,
        2,
        "tenant-2",
        100,
    );
    assert_eq!(g.default_branch, "trunk");
    assert!(!g.auto_merge && g.require_review);
    let mut g = apply_git_repo_update(
        g,
        UpdateGitRepo {
            name: Some("renamed".to_string()),
            description: None,
            default_branch: None,
            visibility: None,
            auto_merge: Some(true),
            require_review: None,
        },
        200,
    );
    assert_eq!(g.name, "renamed");
    assert_eq!(g.storage_path, "repos/tenant-2/demo");
    assert_eq!(g.description, "first");
    assert!(g.auto_merge && g.require_review);
    assert_eq!((g.created_at, g.updated_at), (100, 200));
    record_last_commit(&mut g, "abc123".to_string(), 150, 300);
    assert_eq!(g.last_commit_sha.as_deref(), Some("abc123"));
    assert_eq!(g.last_committed_at, Some(150));
    assert_eq!(g.updated_at, 300);
}
