//! The sandbox that skills run in: its limits, the pool of pre-warmed
//! containers, the runtimes it offers and the capture of a run's output.

use vstd::prelude::*;
use crate::config;
use vstd::utf8::{char_is_scalar, encode_scalar, encode_utf8};
use crate::skill::SkillError;
use crate::text::{chars_slice, parse_int, parse_u64, parse_usize, str_equals, string_from_chars, string_from_str, to_chars};

verus! {

/// Sandbox execution configuration for container-based skill execution.
#[derive(Debug, Clone)]
pub struct SandboxConfig {
    pub enabled: bool,
    pub timeout_seconds: u32,
    pub memory_mb: u32,
    pub cpu_shares: i64,
    pub pids_limit: i64,
    pub network_enabled: bool,
    pub max_output_bytes: usize,
}

impl Default for SandboxConfig {
    fn default() -> (c: Self)
        ensures
            c.enabled,
            c.timeout_seconds == 30,
            c.memory_mb == 256,
            c.cpu_shares == 512,
            c.pids_limit == 256,
            !c.network_enabled,
            c.max_output_bytes == 10 * 1024 * 1024,
    {
        SandboxConfig {
            enabled: true,
            timeout_seconds: 30,
            memory_mb: 256,
            cpu_shares: 512,
            pids_limit: 256,
            network_enabled: false,
            max_output_bytes: 10 * 1024 * 1024,
        }
    }
}

impl SandboxConfig {
    /// The sandbox settings of the application configuration.
    pub fn from_infra(config: &config::SandboxConfig) -> (c: Self)
        ensures
            c.enabled == config.enabled,
            c.timeout_seconds == config.timeout_seconds,
            c.memory_mb == config.memory_mb,
            c.cpu_shares == config.cpu_shares,
            c.pids_limit == config.pids_limit,
            c.network_enabled == config.network_enabled,
            c.max_output_bytes == config.max_output_bytes,
    {
        SandboxConfig {
            enabled: config.enabled,
            timeout_seconds: config.timeout_seconds,
            memory_mb: config.memory_mb,
            cpu_shares: config.cpu_shares,
            pids_limit: config.pids_limit,
            network_enabled: config.network_enabled,
            max_output_bytes: config.max_output_bytes,
        }
    }
}

/// The settings of the container pool.
#[derive(Debug, Clone)]
pub struct PoolConfig {
    pub min_idle: usize,
    pub max_total: usize,
    pub idle_timeout_secs: u64,
    pub max_lifetime_secs: u64,
    pub wait_timeout_secs: u64,
}

impl Default for PoolConfig {
    fn default() -> (c: Self)
        ensures
            c.min_idle == 1,
            c.max_total == 5,
            c.idle_timeout_secs == 300,
            c.max_lifetime_secs == 3600,
            c.wait_timeout_secs == 30,
    {
        PoolConfig {
            min_idle: 1,
            max_total: 5,
            idle_timeout_secs: 300,
            max_lifetime_secs: 3600,
            wait_timeout_secs: 30,
        }
    }
}

/// A pooled container. Instants are whole seconds on a monotonic clock.
#[derive(Debug, Clone)]
pub struct PooledContainer {
    pub container_id: String,
    pub runtime: String,
    pub created_at: u64,
    pub last_used: u64,
}

/// Whether a container created at `created_at` and last used at `last_used` is past its
/// idle timeout or its lifetime at instant `now`.
pub open spec fn container_expired(
    created_at: u64,
    last_used: u64,
    config: PoolConfig,
    now: u64,
) -> bool {
    (now - last_used > config.idle_timeout_secs) || (now - created_at > config.max_lifetime_secs)
}

impl PooledContainer {
    /// Whether the container has been idle longer than the idle timeout, or alive
    /// longer than the maximum lifetime, at instant `now`.
    pub fn is_expired(&self, config: &PoolConfig, now: u64) -> (r: bool)
        requires
            self.created_at <= now,
            self.last_used <= now,
        ensures
            r == container_expired(self.created_at, self.last_used, *config, now),
    {
        let idle = now - self.last_used;
        let lifetime = now - self.created_at;
        idle > config.idle_timeout_secs || lifetime > config.max_lifetime_secs
    }
}

/// The value of a pool setting read from its environment variable, or the default
/// where the variable is unset or does not read as a number.
pub open spec fn setting(var: Option<String>, max: int, default: int) -> int {
    match var {
        Some(v) => match parse_int(v@, false, 0, max) {
            Some(n) => n,
            None => default,
        },
        None => default,
    }
}

fn usize_setting(var: Option<String>, default: usize) -> (r: usize)
    ensures
        r == setting(var, usize::MAX as int, default as int),
{
    match var {
        Some(v) => match parse_usize(v.as_str()) {
            Some(n) => n,
            None => default,
        },
        None => default,
    }
}

fn u64_setting(var: Option<String>, default: u64) -> (r: u64)
    ensures
        r == setting(var, u64::MAX as int, default as int),
{
    match var {
        Some(v) => match parse_u64(v.as_str()) {
            Some(n) => n,
            None => default,
        },
        None => default,
    }
}

impl PoolConfig {
    /// The pool settings that the variables `SANDBOX__POOL_MIN_IDLE`,
    /// `SANDBOX__POOL_MAX_TOTAL`, `SANDBOX__POOL_IDLE_TIMEOUT`, `SANDBOX__POOL_MAX_LIFETIME`
    /// and `SANDBOX__POOL_WAIT_TIMEOUT` give, each `None` where unset.
    pub fn from_env_values(
        min_idle: Option<String>,
        max_total: Option<String>,
        idle_timeout: Option<String>,
        max_lifetime: Option<String>,
        wait_timeout: Option<String>,
    ) -> (c: Self)
        ensures
            c.min_idle == setting(min_idle, usize::MAX as int, 1),
            c.max_total == setting(max_total, usize::MAX as int, 5),
            c.idle_timeout_secs == setting(idle_timeout, u64::MAX as int, 300),
            c.max_lifetime_secs == setting(max_lifetime, u64::MAX as int, 3600),
            c.wait_timeout_secs == setting(wait_timeout, u64::MAX as int, 30),
    {
        PoolConfig {
            min_idle: usize_setting(min_idle, 1),
            max_total: usize_setting(max_total, 5),
            idle_timeout_secs: u64_setting(idle_timeout, 300),
            max_lifetime_secs: u64_setting(max_lifetime, 3600),
            wait_timeout_secs: u64_setting(wait_timeout, 30),
        }
    }
}

/// Whether every container of `s` was created and last used no later than `now`.
pub open spec fn all_in_past(s: Seq<PooledContainer>, now: u64) -> bool {
    forall|i: int| 0 <= i < s.len() ==> (#[trigger] s[i]).created_at <= now && s[i].last_used <= now
}

/// The containers of `s` that are not expired at `now`, in their order.
pub open spec fn unexpired(s: Seq<PooledContainer>, config: PoolConfig, now: u64) -> Seq<PooledContainer>
    decreases s.len(),
{
    if s.len() == 0 {
        Seq::empty()
    } else {
        let r = unexpired(s.drop_last(), config, now);
        if container_expired(s.last().created_at, s.last().last_used, config, now) {
            r
        } else {
            r.push(s.last())
        }
    }
}

proof fn lemma_unexpired_in_past(s: Seq<PooledContainer>, config: PoolConfig, now: u64)
    requires
        all_in_past(s, now),
    ensures
        all_in_past(unexpired(s, config, now), now),
        forall|i: int|
            0 <= i < unexpired(s, config, now).len() ==> !container_expired(
                #[trigger] unexpired(s, config, now)[i].created_at,
                unexpired(s, config, now)[i].last_used,
                config,
                now,
            ),
    decreases s.len(),
{
    if s.len() > 0 {
        assert(all_in_past(s.drop_last(), now)) by {
            assert forall|i: int| 0 <= i < s.drop_last().len() implies (#[trigger] s.drop_last()[i]).created_at <= now
                && s.drop_last()[i].last_used <= now by {
                assert(s.drop_last()[i] == s[i]);
            }
        }
        lemma_unexpired_in_past(s.drop_last(), config, now);
        assert(s[s.len() - 1] == s.last());
    }
}

/// A container given back at `now` and not expired is the one that the next take at
/// the same instant hands out, and the idle containers before it stay as they were.
pub proof fn law_returned_container_is_taken_next(
    idle: Seq<PooledContainer>,
    c: PooledContainer,
    config: PoolConfig,
    now: u64,
)
    requires
        c.created_at <= now,
        !container_expired(c.created_at, now, config, now),
    ensures
        ({
            let returned = PooledContainer { last_used: now, ..c };
            let kept = unexpired(idle.push(returned), config, now);
            kept.len() > 0 && kept.last() == returned && kept.drop_last() == unexpired(
                idle,
                config,
                now,
            )
        }),
{
    let returned = PooledContainer { last_used: now, ..c };
    assert(idle.push(returned).drop_last() =~= idle);
}

/// The idle containers of one runtime.
pub struct RuntimePool {
    pub idle: Vec<PooledContainer>,
}

impl RuntimePool {
    /// A pool with no idle container.
    pub fn new() -> (p: Self)
        ensures
            p.idle@.len() == 0,
    {
        RuntimePool { idle: Vec::new() }
    }

    /// Drops the idle containers that have expired at `now`, then hands out the most
    /// recently returned of the others; `None` where none is left, and a new container
    /// must be made.
    pub fn take_idle(&mut self, config: &PoolConfig, now: u64) -> (r: Option<PooledContainer>)
        requires
            all_in_past(old(self).idle@, now),
        ensures
            ({
                let kept = unexpired(old(self).idle@, *config, now);
                if kept.len() > 0 {
                    r == Some(kept.last()) && final(self).idle@ == kept.drop_last()
                } else {
                    r is None && final(self).idle@ == kept
                }
            }),
            r matches Some(c) ==> !container_expired(c.created_at, c.last_used, *config, now),
            all_in_past(final(self).idle@, now),
    {
        proof {
            lemma_unexpired_in_past(old(self).idle@, *config, now);
        }
        let ghost orig = self.idle@;
        assert(orig.len() == self.idle.len());
        let mut pending: Vec<PooledContainer> = Vec::new();
        std::mem::swap(&mut pending, &mut self.idle);
        let mut k: usize = 0;
        assert(orig.take(0) =~= Seq::<PooledContainer>::empty());
        assert(orig.skip(0) =~= orig);
        while pending.len() > 0
            invariant
                k <= orig.len(),
                orig.len() <= usize::MAX,
                k + pending@.len() == orig.len(),
                pending@ == orig.skip(k as int),
                self.idle@ == unexpired(orig.take(k as int), *config, now),
                all_in_past(orig, now),
            decreases pending@.len(),
        {
            let c = pending.remove(0);
            assert(orig.take(k + 1).drop_last() =~= orig.take(k as int));
            assert(orig.take(k + 1).last() == orig[k as int]);
            assert(orig.skip(k + 1) =~= orig.skip(k as int).drop_first());
            assert(c == orig[k as int]);
            if !c.is_expired(config, now) {
                self.idle.push(c);
            }
            k = k + 1;
        }
        assert(orig.take(k as int) =~= orig);
        let r = self.idle.pop();
        proof {
            let kept = unexpired(orig, *config, now);
            if kept.len() > 0 {
                assert(kept.last() == kept[kept.len() - 1]);
                assert forall|i: int| 0 <= i < self.idle@.len() implies (#[trigger] self.idle@[i]).created_at <= now
                    && self.idle@[i].last_used <= now by {
                    assert(self.idle@[i] == kept[i]);
                }
            }
        }
        r
    }

    /// Takes a container back after use at `now`: an expired one is not kept (the
    /// caller removes it), any other is kept as idle, last used at `now`. The result
    /// says whether it was kept.
    pub fn give_back(&mut self, container: PooledContainer, config: &PoolConfig, now: u64) -> (kept: bool)
        requires
            container.created_at <= now,
            container.last_used <= now,
        ensures
            kept == !container_expired(container.created_at, container.last_used, *config, now),
            kept ==> final(self).idle@ == old(self).idle@.push(
                PooledContainer { last_used: now, ..container },
            ),
            !kept ==> final(self).idle@ == old(self).idle@,
    {
        if container.is_expired(config, now) {
            return false;
        }
        self.idle.push(PooledContainer { last_used: now, ..container });
        true
    }
}

// ---------------------------------------------------------------------------
// Runtimes and commands
// ---------------------------------------------------------------------------

/// The runtime that a language name selects: `python311` for `python311`, `python`
/// and `py`; `node20` for `node20`, `node`, `javascript` and `js`.
pub open spec fn runtime_of(language: Seq<char>) -> Option<Seq<char>> {
    if language == "python311"@ || language == "python"@ || language == "py"@ {
        Some("python311"@)
    } else if language == "node20"@ || language == "node"@ || language == "javascript"@
        || language == "js"@ {
        Some("node20"@)
    } else {
        None
    }
}

/// The runtime that runs code in `language`.
pub fn resolve_runtime(language: &str) -> (r: Result<String, SkillError>)
    ensures
        match runtime_of(language@) {
            Some(rt) => r matches Ok(s) && s@ == rt,
            None => r matches Err(SkillError::ValidationError(m)) && m@ == "Unsupported runtime: "@
                + language@,
        },
{
    if str_equals(language, "python311") || str_equals(language, "python") || str_equals(
        language,
        "py",
    ) {
        Ok(string_from_str("python311"))
    } else if str_equals(language, "node20") || str_equals(language, "node") || str_equals(
        language,
        "javascript",
    ) || str_equals(language, "js") {
        Ok(string_from_str("node20"))
    } else {
        let mut m = string_from_str("Unsupported runtime: ");
        m.append(language);
        Err(SkillError::ValidationError(m))
    }
}

/// The command that runs `source` in a container of `runtime`: `python3 -c` for
/// `python311`, `node -e` for `node20`, and `sh -c` for any other.
pub fn build_command(runtime: &str, source: &str) -> (r: Vec<String>)
    ensures
        r@.len() == 3,
        r@[0]@ == (if runtime@ == "python311"@ {
            "python3"@
        } else if runtime@ == "node20"@ {
            "node"@
        } else {
            "sh"@
        }),
        r@[1]@ == (if runtime@ == "python311"@ {
            "-c"@
        } else if runtime@ == "node20"@ {
            "-e"@
        } else {
            "-c"@
        }),
        r@[2]@ == source@,
{
    let (program, flag) = if str_equals(runtime, "python311") {
        ("python3", "-c")
    } else if str_equals(runtime, "node20") {
        ("node", "-e")
    } else {
        ("sh", "-c")
    };
    let mut r: Vec<String> = Vec::new();
    r.push(string_from_str(program));
    r.push(string_from_str(flag));
    r.push(string_from_str(source));
    r
}

/// The container image of a runtime.
pub fn runtime_image(runtime: &str) -> (r: Result<&'static str, SkillError>)
    ensures
        runtime@ == "python311"@ ==> (r matches Ok(i) && i@ == "evolith-python-sandbox:latest"@),
        runtime@ == "node20"@ ==> (r matches Ok(i) && i@ == "evolith-node-sandbox:latest"@),
        runtime@ != "python311"@ && runtime@ != "node20"@ ==> (r matches Err(
            SkillError::ValidationError(m),
        ) && m@ == "Unsupported runtime: "@ + runtime@),
{
    proof {
        reveal_strlit("python311");
        reveal_strlit("node20");
        assert("python311"@.len() != "node20"@.len());
    }
    if str_equals(runtime, "python311") {
        Ok("evolith-python-sandbox:latest")
    } else if str_equals(runtime, "node20") {
        Ok("evolith-node-sandbox:latest")
    } else {
        let mut m = string_from_str("Unsupported runtime: ");
        m.append(runtime);
        Err(SkillError::ValidationError(m))
    }
}

/// The network mode of sandbox containers: `bridge` where network access is enabled,
/// `none` otherwise.
pub fn network_mode(config: &SandboxConfig) -> (r: &'static str)
    ensures
        r@ == if config.network_enabled {
            "bridge"@
        } else {
            "none"@
        },
{
    if config.network_enabled {
        "bridge"
    } else {
        "none"
    }
}

/// The memory limit of sandbox containers, in bytes.
pub fn memory_limit_bytes(config: &SandboxConfig) -> (r: i64)
    ensures
        r == config.memory_mb as int * 1024 * 1024,
{
    (config.memory_mb as i64) * 1024 * 1024
}

/// The number of bytes of the UTF-8 encoding of `c`.
pub open spec fn utf8_width(c: char) -> int {
    encode_scalar(c as u32).len() as int
}

/// The number of leading characters of `data` whose UTF-8 encoding fits, whole, in
/// `room` bytes.
pub open spec fn fitting_chars(data: Seq<char>, room: int) -> nat
    decreases data.len(),
{
    if data.len() == 0 || utf8_width(data[0]) > room {
        0
    } else {
        1 + fitting_chars(data.drop_first(), room - utf8_width(data[0]))
    }
}

/// The capture of an output stream after a chunk `data` arrives: the whole chunk where
/// it fits within `max` bytes; otherwise, where the capture is still below `max`, the
/// longest run of leading characters of the chunk that fits in the bytes left;
/// otherwise nothing.
pub open spec fn capped_append(buf: Seq<char>, data: Seq<char>, max: int) -> Seq<char> {
    let b = encode_utf8(buf).len();
    if b + encode_utf8(data).len() <= max {
        buf + data
    } else if b < max {
        buf + data.take(fitting_chars(data, max - b) as int)
    } else {
        buf
    }
}

proof fn lemma_encode_concat(a: Seq<char>, b: Seq<char>)
    ensures
        encode_utf8(a + b).len() == encode_utf8(a).len() + encode_utf8(b).len(),
    decreases a.len(),
{
    if a.len() > 0 {
        assert((a + b).drop_first() =~= a.drop_first() + b);
        assert((a + b)[0] == a[0]);
        lemma_encode_concat(a.drop_first(), b);
    } else {
        assert(a + b =~= b);
    }
}

/// The characters that `fitting_chars` counts fit in `room` bytes, and one more does
/// not.
proof fn lemma_fitting_chars(data: Seq<char>, room: int)
    requires
        room >= 0,
    ensures
        fitting_chars(data, room) <= data.len(),
        encode_utf8(data.take(fitting_chars(data, room) as int)).len() <= room,
        fitting_chars(data, room) < data.len() ==> encode_utf8(
            data.take(fitting_chars(data, room) as int + 1),
        ).len() > room,
    decreases data.len(),
{
    let k = fitting_chars(data, room) as int;
    if data.len() == 0 {
        assert(data.take(0) =~= Seq::<char>::empty());
    } else if utf8_width(data[0]) > room {
        assert(data.take(0) =~= Seq::<char>::empty());
        assert(data.take(1).drop_first() =~= Seq::<char>::empty());
        assert(data.take(1)[0] == data[0]);
    } else {
        let rest = data.drop_first();
        let r = room - utf8_width(data[0]);
        lemma_fitting_chars(rest, r);
        assert(data.take(k).drop_first() =~= rest.take(k - 1));
        assert(data.take(k)[0] == data[0]);
        if k < data.len() {
            assert(data.take(k + 1).drop_first() =~= rest.take(k));
            assert(data.take(k + 1)[0] == data[0]);
        }
    }
}

/// A capture that starts within `max` bytes stays within `max` bytes after any chunk
/// arrives, and a chunk that is cut keeps as many leading characters as fit.
pub proof fn law_capture_stays_within_limit(buf: Seq<char>, data: Seq<char>, max: int)
    requires
        encode_utf8(buf).len() <= max,
    ensures
        encode_utf8(capped_append(buf, data, max)).len() <= max,
        capped_append(buf, data, max) == buf + data.take(
            (capped_append(buf, data, max).len() - buf.len()) as int,
        ),
        encode_utf8(buf).len() + encode_utf8(data).len() > max
            && capped_append(buf, data, max).len() < buf.len() + data.len() ==> encode_utf8(
            buf + data.take(capped_append(buf, data, max).len() - buf.len() + 1),
        ).len() > max,
{
    let b = encode_utf8(buf).len() as int;
    let c = capped_append(buf, data, max);
    if b + encode_utf8(data).len() <= max {
        lemma_encode_concat(buf, data);
        assert(data.take(data.len() as int) =~= data);
    } else {
        lemma_fitting_chars(data, max - b);
        let k = fitting_chars(data, max - b) as int;
        if b < max {
            lemma_encode_concat(buf, data.take(k));
            assert(c.len() - buf.len() == k);
            if k < data.len() {
                lemma_encode_concat(buf, data.take(k + 1));
            }
        } else {
            assert(data.take(0) =~= Seq::<char>::empty());
            assert(buf + data.take(0) =~= buf);
            assert(fitting_chars(data, 0) == 0 || max - b == 0);
            assert(k == 0);
            assert(c.len() - buf.len() == 0);
            assert(data.take(1).drop_first() =~= Seq::<char>::empty());
            assert(data.take(1)[0] == data[0]);
            lemma_encode_concat(buf, data.take(1));
        }
    }
}

/// The number of bytes of the UTF-8 encoding of `c`.
fn char_utf8_width(c: char) -> (w: usize)
    ensures
        w == utf8_width(c),
        1 <= w <= 4,
{
    let v = c as u32;
    proof {
        char_is_scalar(c);
    }
    if v < 0x80 {
        1
    } else if v < 0x800 {
        2
    } else if v < 0x10000 {
        3
    } else {
        4
    }
}

/// Appends a chunk of a container's output to its capture, within `max` bytes as
/// `capped_append` says.
pub fn append_capped(buf: &mut String, data: &str, max: usize)
    ensures
        final(buf)@ == capped_append(old(buf)@, data@, max as int),
{
    let b = buf.as_str().as_bytes().len();
    let d = data.as_bytes().len();
    if b <= max && d <= max - b {
        buf.append(data);
    } else if b < max {
        let room = max - b;
        let cs = to_chars(data);
        let mut used: usize = 0;
        let mut i: usize = 0;
        assert(data@.subrange(0, data@.len() as int) =~= data@);
        while i < cs.len()
            invariant
                cs@ == data@,
                i <= cs@.len(),
                used <= room,
                fitting_chars(data@, room as int) == i + fitting_chars(
                    data@.subrange(i as int, data@.len() as int),
                    room - used,
                ),
            ensures
                i <= cs@.len(),
                fitting_chars(data@, room as int) == i,
            decreases cs@.len() - i,
        {
            let w = char_utf8_width(cs[i]);
            let ghost rest = data@.subrange(i as int, data@.len() as int);
            assert(rest[0] == data@[i as int]);
            if w > room - used {
                break;
            }
            assert(rest.drop_first() =~= data@.subrange(i + 1, data@.len() as int));
            used = used + w;
            i = i + 1;
        }
        assert(cs@.subrange(0, i as int) =~= data@.take(i as int));
        let part = string_from_chars(&chars_slice(&cs, 0, i));
        buf.append(part.as_str());
    }
}

/// The hardening of a sandbox container: privileges never grow, the raw-socket,
/// administration and device-node capabilities are dropped, and the container idles
/// as the unprivileged user `sandbox` in `/workspace` until commands are run in it.
pub struct ContainerSecurity {
    pub security_opt: Vec<String>,
    pub cap_drop: Vec<String>,
    pub user: String,
    pub working_dir: String,
    pub cmd: Vec<String>,
}

/// The hardening that every sandbox container is created with.
pub fn container_security() -> (c: ContainerSecurity)
    ensures
        c.security_opt@.map_values(|s: String| s@) == seq!["no-new-privileges"@],
        c.cap_drop@.map_values(|s: String| s@) == seq!["NET_RAW"@, "SYS_ADMIN"@, "MKNOD"@],
        c.user@ == "sandbox"@,
        c.working_dir@ == "/workspace"@,
        c.cmd@.map_values(|s: String| s@) == seq!["tail"@, "-f"@, "/dev/null"@],
{
    let mut security_opt: Vec<String> = Vec::new();
    security_opt.push(string_from_str("no-new-privileges"));
    let mut cap_drop: Vec<String> = Vec::new();
    cap_drop.push(string_from_str("NET_RAW"));
    cap_drop.push(string_from_str("SYS_ADMIN"));
    cap_drop.push(string_from_str("MKNOD"));
    let mut cmd: Vec<String> = Vec::new();
    cmd.push(string_from_str("tail"));
    cmd.push(string_from_str("-f"));
    cmd.push(string_from_str("/dev/null"));
    let c = ContainerSecurity {
        security_opt,
        cap_drop,
        user: string_from_str("sandbox"),
        working_dir: string_from_str("/workspace"),
        cmd,
    };
    assert(c.security_opt@.map_values(|s: String| s@) =~= seq!["no-new-privileges"@]);
    assert(c.cap_drop@.map_values(|s: String| s@) =~= seq!["NET_RAW"@, "SYS_ADMIN"@, "MKNOD"@]);
    assert(c.cmd@.map_values(|s: String| s@) =~= seq!["tail"@, "-f"@, "/dev/null"@]);
    c
}

/// The name of a pooled container.
pub fn pool_container_name(runtime: &str, sandbox_id: &str) -> (r: String)
    ensures
        r@ == "evolith-pool-"@ + runtime@ + "-"@ + sandbox_id@,
{
    let mut r = string_from_str("evolith-pool-");
    r.append(runtime);
    r.append("-");
    r.append(sandbox_id);
    r
}

/// The name of a one-shot sandbox container.
pub fn sandbox_container_name(sandbox_id: &str) -> (r: String)
    ensures
        r@ == "evolith-sandbox-"@ + sandbox_id@,
{
    let mut r = string_from_str("evolith-sandbox-");
    r.append(sandbox_id);
    r
}

/// The answer of the executor that stands in while no sandbox is configured: every
/// request fails with a configuration error.
pub struct DefaultSkillExecutor;

impl DefaultSkillExecutor {
    pub fn new() -> (e: Self) {
        DefaultSkillExecutor
    }

    /// Refuses a request: skill execution is unavailable.
    pub fn execute(&self) -> (r: Result<(), SkillError>)
        ensures
            r matches Err(SkillError::ConfigError(m)) && m@
                == "Skill execution is unavailable because the sandbox executor is disabled or not initialized"@,
    {
        Err(
            SkillError::ConfigError(
                string_from_str(
                    "Skill execution is unavailable because the sandbox executor is disabled or not initialized",
                ),
            ),
        )
    }
}

impl Default for DefaultSkillExecutor {
    fn default() -> (e: Self) {
        DefaultSkillExecutor::new()
    }
}

} // verus!
