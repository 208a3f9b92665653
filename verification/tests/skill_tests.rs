use evolith::skill::{
    default_execution, default_memory, default_skill_type, default_timeout, split_frontmatter,
    validate_metadata, SkillError, SkillMetadata, SkillParser,
};

fn metadata(name: &str, description: &str) -> SkillMetadata {
    SkillMetadata {
        name: name.to_string(),
        description: description.to_string(),
        version: None,
        author: None,
        tags: Vec::new(),
        skill_type: default_skill_type(),
        execution: default_execution(),
        runtime: None,
        entrypoint: None,
        timeout: default_timeout(),
        memory: default_memory(),
        dependencies: Vec::new(),
        permissions: None,
        license: None,
        compatibility: None,
        metadata_extra: Vec::new(),
    }
}

fn error_text(r: Result<(), SkillError>) -> String {
    match r {
        Err(SkillError::ValidationError(m)) => m,
        other => panic!("unexpected {:?}", other),
    }
}

#[test]
fn parses_minimal_skill_md() {
    let input = "---\nname: simple-skill\ndescription: A minimal skill with only required fields.\n---\n\nBody content here.\n";
    let (front, body) = split_frontmatter(input).expect("frontmatter");
    assert_eq!(
        front,
        "name: simple-skill\ndescription: A minimal skill with only required fields."
    );
    assert_eq!(body, "\nBody content here.\n");
    let doc = SkillParser::new()
        .document(
            metadata("simple-skill", "A minimal skill with only required fields."),
            &body,
        )
        .expect("valid");
    assert_eq!(doc.metadata.name, "simple-skill");
    assert_eq!(doc.metadata.skill_type, "instruction");
    assert_eq!(doc.metadata.execution, "client");
    assert_eq!(doc.metadata.timeout, 30);
    assert_eq!(doc.metadata.memory, 256);
    assert!(doc.metadata.tags.is_empty());
    assert_eq!(doc.body, "Body content here.");
}

#[test]
fn rejects_missing_frontmatter() {
    match split_frontmatter("name: missing-frontmatter") {
        Err(SkillError::ValidationError(m)) => {
            assert!(m.contains("frontmatter"));
            assert_eq!(m, "SKILL.md must start with YAML frontmatter");
        }
        other => panic!("unexpected {:?}", other),
    }
    match split_frontmatter("---\nname: x\nno closing marker") {
        Err(SkillError::ValidationError(m)) => assert_eq!(m, "SKILL.md frontmatter is not closed"),
        other => panic!("unexpected {:?}", other),
    }
}

#[test]
fn frontmatter_after_leading_space_and_empty_body() {
    let (front, body) = split_frontmatter("  \n---\na: 1\n---").expect("frontmatter");
    assert_eq!(front, "a: 1");
    assert_eq!(body, "");
    let (front, body) = split_frontmatter("---\n\n---\nrest").expect("frontmatter");
    assert_eq!(front, "");
    assert_eq!(body, "rest");
}

#[test]
fn rejects_invalid_name() {
    let e = error_text(validate_metadata(&metadata("Invalid-Name", "A skill with uppercase.")));
    assert!(e.contains("lowercase"));
    let e = error_text(validate_metadata(&metadata("-bad-name", "A skill starting with hyphen.")));
    assert!(e.contains("start or end"));
    let e = error_text(validate_metadata(&metadata("bad name", "A skill with spaces.")));
    assert!(e.contains("lowercase"));
    let e = error_text(validate_metadata(&metadata("bad--name", "d")));
    assert_eq!(e, "Skill name cannot contain consecutive hyphens");
    let e = error_text(validate_metadata(&metadata("bad-", "d")));
    assert_eq!(e, "Skill name cannot start or end with a hyphen");
}

#[test]
fn rejects_missing_required_fields() {
    let e = error_text(validate_metadata(&metadata("", "Missing name field.")));
    assert!(e.contains("name"));
    let e = error_text(validate_metadata(&metadata("valid-name", "")));
    assert!(e.contains("description"));
}

#[test]
fn rejects_description_too_long() {
    let long_desc = "x".repeat(1025);
    let e = error_text(validate_metadata(&metadata("valid-name", &long_desc)));
    assert!(e.contains("1024"));
    assert!(validate_metadata(&metadata("valid-name", &"x".repeat(1024))).is_ok());
}

#[test]
fn name_length_counts_bytes() {
    assert!(validate_metadata(&metadata(&"a".repeat(64), "d")).is_ok());
    let e = error_text(validate_metadata(&metadata(&"a".repeat(65), "d")));
    assert_eq!(e, "Skill name must be 1-64 characters");
}

#[test]
fn document_refuses_invalid_metadata() {
    match SkillParser::default().document(metadata("Bad", "d"), "body") {
        Err(SkillError::ValidationError(m)) => {
            assert_eq!(m, "Skill name must contain only lowercase letters, numbers, and hyphens")
        }
        other => panic!("unexpected {:?}", other.map(|d| d.body)),
    }
}

#[test]
fn description_length_counts_characters() {
    assert!(validate_metadata(&metadata("valid-name", &"é".repeat(600))).is_ok());
    assert!(validate_metadata(&metadata("valid-name", &"é".repeat(1024))).is_ok());
    let e = error_text(validate_metadata(&metadata("valid-name", &"é".repeat(1025))));
    assert!(e.contains("1024"));
}

#[test]
fn parses_valid_skill_md() {
    let input = "---\nname: data-analyzer\nversion: 1.0.0\ndescription: Analyze data files (CSV, JSON, Excel) and generate statistical reports with visualizations.\nauthor: evolith-team\ntags: [data, analysis, statistics, visualization]\n\ntype: hybrid\nexecution: server\nruntime: python3.11\nentrypoint: src/main.py\ntimeout: 60\nmemory: 512\n\ndependencies:\n  - pandas>=2.0.0\n  - numpy>=1.24.0\n\npermissions:\n  filesystem: read\n  network: none\n  environment: []\n\ndisable-model-invocation: false\nuser-invocable: true\n---\n\n# Data Analyzer Skill\n\nA powerful skill for analyzing data files.\n";
    let (front, body) = split_frontmatter(input).expect("frontmatter");
    assert!(front.starts_with("name: data-analyzer\nversion: 1.0.0\n"));
    assert!(front.ends_with("user-invocable: true"));
    // The frontmatter decoded (the YAML decoding runs in the application).
    let mut m = metadata(
        "data-analyzer",
        "Analyze data files (CSV, JSON, Excel) and generate statistical reports with visualizations.",
    );
    m.version = Some("1.0.0".to_string());
    m.author = Some("evolith-team".to_string());
    m.tags = vec!["data".into(), "analysis".into(), "statistics".into(), "visualization".into()];
    m.skill_type = "hybrid".to_string();
    m.execution = "server".to_string();
    m.runtime = Some("python3.11".to_string());
    m.entrypoint = Some("src/main.py".to_string());
    m.timeout = 60;
    m.memory = 512;
    m.dependencies = vec!["pandas>=2.0.0".into(), "numpy>=1.24.0".into()];
    m.permissions = Some(evolith::skill::SkillPermissions {
        filesystem: Some("read".to_string()),
        network: Some("none".to_string()),
        environment: Vec::new(),
    });
    m.metadata_extra = vec![
        ("disable-model-invocation".to_string(), "false".to_string()),
        ("user-invocable".to_string(), "true".to_string()),
    ];
    let doc = SkillParser::new().document(m, &body).expect("document should parse");
    assert_eq!(doc.metadata.name, "data-analyzer");
    assert_eq!(doc.metadata.version, Some("1.0.0".to_string()));
    assert_eq!(doc.metadata.skill_type, "hybrid");
    assert_eq!(doc.metadata.timeout, 60);
    assert!(doc.metadata.metadata_extra.iter().any(|(k, _)| k == "user-invocable"));
    assert!(doc.body.contains("# Data Analyzer Skill"));
}
