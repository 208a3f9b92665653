use evolith::sandbox::{
    append_capped, build_command, memory_limit_bytes, network_mode, pool_container_name,
    resolve_runtime, runtime_image, sandbox_container_name, DefaultSkillExecutor, PoolConfig,
    PooledContainer, RuntimePool, SandboxConfig,
};
use evolith::skill::SkillError;

const NOW: u64 = 100_000;

#[test]
fn pool_config_default() {
    let cfg = PoolConfig::default();
    assert_eq!(cfg.min_idle, 1);
    assert_eq!(cfg.max_total, 5);
    assert_eq!(cfg.idle_timeout_secs, 300);
    assert_eq!(cfg.max_lifetime_secs, 3600);
    assert_eq!(cfg.wait_timeout_secs, 30);
}

#[test]
fn pooled_container_expires_by_idle_timeout() {
    let container = PooledContainer {
        container_id: "abc".to_string(),
        runtime: "python311".to_string(),
        created_at: NOW,
        last_used: NOW - 400,
    };
    let config = PoolConfig::default();
    assert!(container.is_expired(&config, NOW));
}

#[test]
fn pooled_container_expires_by_max_lifetime() {
    let container = PooledContainer {
        container_id: "abc".to_string(),
        runtime: "python311".to_string(),
        created_at: NOW - 4000,
        last_used: NOW,
    };
    let config = PoolConfig::default();
    assert!(container.is_expired(&config, NOW));
}

#[test]
fn pooled_container_not_expired() {
    let container = PooledContainer {
        container_id: "abc".to_string(),
        runtime: "python311".to_string(),
        created_at: NOW,
        last_used: NOW,
    };
    let config = PoolConfig::default();
    assert!(!container.is_expired(&config, NOW));
}

#[test]
fn build_command_python() {
    let cmd = build_command("python311", "print('hi')");
    assert_eq!(cmd, vec!["python3", "-c", "print('hi')"]);
}

#[test]
fn resolve_runtime_node() {
    let cmd = build_command("node20", "console.log('hi')");
    assert_eq!(cmd, vec!["node", "-e", "console.log('hi')"]);
}

#[test]
fn build_command_fallback() {
    let cmd = build_command("unknown", "echo hi");
    assert_eq!(cmd, vec!["sh", "-c", "echo hi"]);
}

#[test]
fn language_names_resolve_to_runtimes() {
    for l in ["python311", "python", "py"] {
        assert_eq!(resolve_runtime(l).ok(), Some("python311".to_string()));
    }
    for l in ["node20", "node", "javascript", "js"] {
        assert_eq!(resolve_runtime(l).ok(), Some("node20".to_string()));
    }
    match resolve_runtime("ruby") {
        Err(SkillError::ValidationError(m)) => assert_eq!(m, "Unsupported runtime: ruby"),
        other => panic!("unexpected {:?}", other),
    }
}

#[test]
fn runtimes_have_images() {
    assert_eq!(runtime_image("python311").ok(), Some("evolith-python-sandbox:latest"));
    assert_eq!(runtime_image("node20").ok(), Some("evolith-node-sandbox:latest"));
    match runtime_image("python") {
        Err(SkillError::ValidationError(m)) => assert_eq!(m, "Unsupported runtime: python"),
        other => panic!("unexpected {:?}", other),
    }
}

#[test]
fn sandbox_defaults_and_limits() {
    let mut c = SandboxConfig::default();
    assert!(c.enabled);
    assert_eq!(c.timeout_seconds, 30);
    assert_eq!(c.max_output_bytes, 10 * 1024 * 1024);
    assert_eq!(network_mode(&c), "none");
    assert_eq!(memory_limit_bytes(&c), 256 * 1024 * 1024);
    c.network_enabled = true;
    c.memory_mb = u32::MAX;
    assert_eq!(network_mode(&c), "bridge");
    assert_eq!(memory_limit_bytes(&c), (u32::MAX as i64) * 1024 * 1024);
}

#[test]
fn pool_settings_come_from_variables_or_defaults() {
    let c = PoolConfig::from_env_values(
        Some("2".to_string()),
        Some("not-a-number".to_string()),
        None,
        Some("60".to_string()),
        Some("-1".to_string()),
    );
    assert_eq!(c.min_idle, 2);
    assert_eq!(c.max_total, 5);
    assert_eq!(c.idle_timeout_secs, 300);
    assert_eq!(c.max_lifetime_secs, 60);
    assert_eq!(c.wait_timeout_secs, 30);
}

fn container(id: &str, created_at: u64, last_used: u64) -> PooledContainer {
    PooledContainer {
        container_id: id.to_string(),
        runtime: "python311".to_string(),
        created_at,
        last_used,
    }
}

#[test]
fn pool_hands_out_the_latest_unexpired_container() {
    let config = PoolConfig::default();
    let mut pool = RuntimePool::new();
    assert!(pool.give_back(container("a", NOW - 10, NOW - 10), &config, NOW - 5));
    assert!(pool.give_back(container("b", NOW - 10, NOW - 10), &config, NOW - 4));
    // Expired by lifetime: not kept.
    assert!(!pool.give_back(container("old", NOW - 4000, NOW - 1), &config, NOW));
    assert_eq!(pool.idle.len(), 2);
    assert_eq!(pool.idle[1].last_used, NOW - 4);
    let got = pool.take_idle(&config, NOW).expect("a container");
    assert_eq!(got.container_id, "b");
    // Much later, the remaining one has idled out and is dropped.
    assert!(pool.take_idle(&config, NOW + 1000).is_none());
    assert!(pool.idle.is_empty());
}

#[test]
fn captured_output_stops_at_the_limit() {
    let mut buf = String::new();
    append_capped(&mut buf, "hello", 8);
    assert_eq!(buf, "hello");
    append_capped(&mut buf, "world", 8);
    assert_eq!(buf, "hellowor");
    append_capped(&mut buf, "more", 8);
    assert_eq!(buf, "hellowor");
}

#[test]
fn container_names() {
    assert_eq!(pool_container_name("node20", "x1"), "evolith-pool-node20-x1");
    assert_eq!(sandbox_container_name("x1"), "evolith-sandbox-x1");
}

#[test]
fn default_executor_refuses() {
    match DefaultSkillExecutor::new().execute() {
        Err(SkillError::ConfigError(m)) => assert!(m.contains("sandbox executor is disabled")),
        other => panic!("unexpected {:?}", other),
    }
}

#[test]
fn capture_cut_counts_bytes() {
    // The cut is made by bytes, after the last whole character that fits.
    let mut buf = String::new();
    append_capped(&mut buf, "éé", 3);
    assert_eq!(buf, "é");
    let mut two = String::new();
    append_capped(&mut two, "éé", 2);
    assert_eq!(two, "é");
    let mut tight = String::from("a");
    append_capped(&mut tight, "é", 2);
    assert_eq!(tight, "a");
    let mut ascii = String::from("ab");
    append_capped(&mut ascii, "cdef", 4);
    assert_eq!(ascii, "abcd");
    assert!(ascii.len() <= 4);
}

#[test]
fn containers_are_hardened() {
    let c = evolith::sandbox::container_security();
    assert_eq!(c.security_opt, vec!["no-new-privileges".to_string()]);
    assert_eq!(c.cap_drop, vec!["NET_RAW".to_string(), "SYS_ADMIN".to_string(), "MKNOD".to_string()]);
    assert_eq!(c.user, "sandbox");
    assert_eq!(c.working_dir, "/workspace");
    assert_eq!(c.cmd, vec!["tail".to_string(), "-f".to_string(), "/dev/null".to_string()]);
}
