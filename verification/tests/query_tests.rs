use evolith::query::{
    estimate_tokens,
    skill_count_query, skill_list_query, snippet_count_query, snippet_list_query,
    tool_count_query, tool_list_query, Dialect, Runtime, SkillFilter, SnippetFilter, ToolFilter,
    RepoLifecycleStatus, Visibility,
};

fn full_skill_filter() -> SkillFilter {
    SkillFilter {
        tenant_id: Some("t1".to_string()),
        search: Some("pdf".to_string()),
        runtime: Some(Runtime::Python311),
        visibility: Some(Visibility::Public),
        owner_id: Some("o1".to_string()),
        page: Some(3),
        per_page: Some(10),
    }
}

#[test]
fn skill_listing_numbers_postgres_placeholders_in_order() {
    let (sql, binds) = skill_list_query(&full_skill_filter(), Dialect::Postgres);
    assert_eq!(
        sql,
        "SELECT * FROM skills WHERE 1=1 AND tenant_id = $1 AND (name LIKE $2 OR description LIKE $3) \
         AND runtime = $4 AND visibility = $5 AND owner_id = $6 ORDER BY created_at DESC LIMIT 10 OFFSET 20"
    );
    assert_eq!(binds, vec!["t1", "%pdf%", "%pdf%", "python311", "public", "o1"]);
}

#[test]
fn skill_listing_in_sqlite_and_count() {
    let (sql, binds) = skill_list_query(&full_skill_filter(), Dialect::Sqlite);
    assert_eq!(
        sql,
        "SELECT * FROM skills WHERE 1=1 AND tenant_id = ? AND (name LIKE ? OR description LIKE ?) \
         AND runtime = ? AND visibility = ? AND owner_id = ? ORDER BY created_at DESC LIMIT 10 OFFSET 20"
    );
    let (count_sql, count_binds) = skill_count_query(&full_skill_filter(), Dialect::Sqlite);
    assert_eq!(
        count_sql,
        "SELECT COUNT(*) as count FROM skills WHERE 1=1 AND tenant_id = ? AND (name LIKE ? OR description LIKE ?) \
         AND runtime = ? AND visibility = ? AND owner_id = ?"
    );
    assert_eq!(count_binds, binds);
}

#[test]
fn empty_filters_page_with_defaults() {
    let f = SkillFilter {
        tenant_id: None,
        search: None,
        runtime: Some(Runtime::Wasm),
        visibility: None,
        owner_id: None,
        page: None,
        per_page: None,
    };
    let (sql, binds) = skill_list_query(&f, Dialect::Postgres);
    assert_eq!(
        sql,
        "SELECT * FROM skills WHERE 1=1 AND runtime = $1 ORDER BY created_at DESC LIMIT 20 OFFSET 0"
    );
    assert_eq!(binds, vec!["wasm"]);
    let t = ToolFilter {
        tenant_id: None,
        search: None,
        visibility: None,
        owner_id: None,
        page: Some(0),
        per_page: Some(5),
    };
    let (sql, binds) = tool_list_query(&t, Dialect::Sqlite);
    assert_eq!(sql, "SELECT * FROM tools WHERE 1=1 ORDER BY created_at DESC LIMIT 5 OFFSET 0");
    assert!(binds.is_empty());
}

#[test]
fn tool_queries() {
    let t = ToolFilter {
        tenant_id: Some("t".to_string()),
        search: Some("x".to_string()),
        visibility: Some(Visibility::Private),
        owner_id: None,
        page: Some(2),
        per_page: Some(50),
    };
    let (sql, binds) = tool_list_query(&t, Dialect::Postgres);
    assert_eq!(
        sql,
        "SELECT * FROM tools WHERE 1=1 AND tenant_id = $1 AND (name LIKE $2 OR description LIKE $3) \
         AND visibility = $4 ORDER BY created_at DESC LIMIT 50 OFFSET 50"
    );
    assert_eq!(binds, vec!["t", "%x%", "%x%", "private"]);
    let (sql, count_binds) = tool_count_query(&t, Dialect::Postgres);
    assert_eq!(
        sql,
        "SELECT COUNT(*) as count FROM tools WHERE 1=1 AND tenant_id = $1 AND (name LIKE $2 OR description LIKE $3) \
         AND visibility = $4"
    );
    assert_eq!(count_binds, binds);
}

fn snippet_filter() -> SnippetFilter {
    SnippetFilter {
        tenant_id: None,
        search: Some("sort".to_string()),
        language: Some("rust".to_string()),
        framework: None,
        tags: vec!["algo".to_string(), "fast".to_string()],
        visibility: None,
        owner_id: Some("o".to_string()),
        page: Some(1),
        per_page: Some(20),
    }
}

#[test]
fn snippet_tags_differ_by_dialect_but_bind_alike() {
    let (pg, pg_binds) = snippet_list_query(&snippet_filter(), Dialect::Postgres);
    assert_eq!(
        pg,
        "SELECT * FROM snippets WHERE 1=1 AND (name LIKE $1 OR code LIKE $2 OR content LIKE $3) \
         AND language = $4 AND tags::text LIKE $5 AND tags::text LIKE $6 AND owner_id = $7 \
         ORDER BY created_at DESC LIMIT 20 OFFSET 0"
    );
    let (lite, lite_binds) = snippet_list_query(&snippet_filter(), Dialect::Sqlite);
    assert_eq!(
        lite,
        "SELECT * FROM snippets WHERE 1=1 AND (name LIKE ? OR code LIKE ? OR content LIKE ?) \
         AND language = ? AND tags LIKE ? AND tags LIKE ? AND owner_id = ? \
         ORDER BY created_at DESC LIMIT 20 OFFSET 0"
    );
    assert_eq!(
        pg_binds,
        vec!["%sort%", "%sort%", "%sort%", "rust", "%\"algo\"", "%\"fast\"", "o"]
    );
    assert_eq!(lite_binds, pg_binds);
    let (count, count_binds) = snippet_count_query(&snippet_filter(), Dialect::Postgres);
    assert!(count.starts_with("SELECT COUNT(*) as count FROM snippets WHERE 1=1 AND (name LIKE $1"));
    assert!(count.ends_with("AND owner_id = $7"));
    assert_eq!(count_binds, pg_binds);
}

#[test]
fn many_placeholders_are_numbered_past_nine() {
    let mut f = snippet_filter();
    f.tags = (0..8).map(|i| format!("t{}", i)).collect();
    let (sql, binds) = snippet_list_query(&f, Dialect::Postgres);
    assert_eq!(binds.len(), 13);
    assert!(sql.contains("tags::text LIKE $12 AND owner_id = $13"));
}

#[test]
fn test_estimated_tokens_calculation() {
    // (100 + 300) / 4 = 100
    assert_eq!(estimate_tokens(&"a".repeat(100), &"b".repeat(300)), 100);
    // Characters, not bytes, are counted; the quotient is rounded down.
    assert_eq!(estimate_tokens("ééé", "é"), 1);
    assert_eq!(estimate_tokens("abc", ""), 0);
}

#[test]
fn stored_names_read_back() {
    for r in [Runtime::Python311, Runtime::Node20, Runtime::Wasm] {
        assert_eq!(Runtime::from_stored(r.as_str()), r);
    }
    assert_eq!(Runtime::from_stored("ruby"), Runtime::Wasm);
    assert_eq!(Visibility::from_stored("public"), Visibility::Public);
    assert_eq!(Visibility::from_stored("PUBLIC"), Visibility::Private);
    assert_eq!(Visibility::parse_strict("private"), Ok(Visibility::Private));
    assert_eq!(Visibility::parse_strict("team"), Err("Unknown visibility: team".to_string()));
    for l in [
        RepoLifecycleStatus::Creating,
        RepoLifecycleStatus::Active,
        RepoLifecycleStatus::Error,
        RepoLifecycleStatus::Deleting,
    ] {
        assert_eq!(RepoLifecycleStatus::parse(l.as_str()), Ok(l));
    }
    assert_eq!(
        RepoLifecycleStatus::parse("active"),
        Err("Unknown lifecycle status: active".to_string())
    );
}
