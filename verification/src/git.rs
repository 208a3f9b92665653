//! Git storage rules: the Smart HTTP services, the resource bounds of the
//! repository context reads, the breadth-first file-tree collector, the
//! bounded diff collector and the naming of repositories on disk.

use std::collections::VecDeque;
use vstd::prelude::*;
use crate::crypto::{from_utf8_lossy, utf8_lossy};
use crate::ids::{parse_uuid, uuid_parse};
use crate::text::{
    chars_eq, chars_end_with, chars_slice, format_u64, has_suffix, is_blank, nat_decimal,
    string_from_chars, string_from_str, to_chars, trim_is_empty,
};

verus! {

/// The errors of git storage operations.
#[derive(Debug)]
pub enum GitStorageError {
    InitError(String),
    SeedWriteError { path: String, source: String },
    RemoveError { path: String, source: String },
    NoBasePath,
    SubprocessError(String),
    InvalidService(String),
    ReadError(String),
    ResourceExceeded(String),
    InvalidInput(String),
    NotFound(String),
    Timeout(String),
}

/// Maximum bytes returned by a blob read.
pub const BLOB_MAX_BYTES: usize = 1_048_576;

/// Maximum entries returned by a file-tree read.
pub const FILE_TREE_MAX_ENTRIES: usize = 5_000;

/// Maximum entries returned by a diff read.
pub const DIFF_MAX_ENTRIES: usize = 5_000;

/// Upper bound, in seconds, on a single blocking repository read.
pub const CONTEXT_BLOCKING_TIMEOUT_SECS: u64 = 5;

/// Upper bound, in seconds, on a single git subprocess operation.
pub const GIT_SUBPROCESS_TIMEOUT_SECS: u64 = 30;

/// Entry in a file tree listing.
#[derive(Debug, Clone)]
pub struct FileTreeEntry {
    pub name: String,
    /// `"blob"` or `"tree"`.
    pub kind: String,
    pub oid: String,
    pub is_tree: bool,
}

/// Information about a single commit.
#[derive(Debug, Clone)]
pub struct CommitInfo {
    pub sha: String,
    pub author_name: String,
    pub author_email: String,
    pub message: String,
    pub timestamp: i64,
}

/// Complete, immutable evidence for one commit within a verified ref context.
#[derive(Debug, Clone)]
pub struct CommitDetail {
    pub sha: String,
    pub author_name: String,
    pub author_email: String,
    pub authored_at: i64,
    pub committer_name: String,
    pub committer_email: String,
    pub committed_at: i64,
    pub message: String,
    pub parents: Vec<String>,
    pub git_ref: String,
    pub changes: Vec<DiffEntry>,
}

/// A single change in a diff between two refs.
#[derive(Debug, Clone)]
pub struct DiffEntry {
    pub path: String,
    /// `"added"`, `"deleted"` or `"modified"`.
    pub change_type: String,
    pub old_oid: String,
    pub new_oid: String,
}

/// A diff entry as plain values: path, change type, old and new object ids.
pub open spec fn diff_view(d: DiffEntry) -> (Seq<char>, Seq<char>, Seq<char>, Seq<char>) {
    (d.path@, d.change_type@, d.old_oid@, d.new_oid@)
}

// ---------------------------------------------------------------------------
// Smart HTTP services
// ---------------------------------------------------------------------------

/// Smart HTTP git service types.
#[derive(Debug, Clone, Copy, PartialEq, Eq, Structural)]
pub enum GitService {
    UploadPack,
    ReceivePack,
}

/// The service's name in the Smart HTTP protocol.
pub open spec fn spec_service_name(s: GitService) -> Seq<char> {
    match s {
        GitService::UploadPack => "git-upload-pack"@,
        GitService::ReceivePack => "git-receive-pack"@,
    }
}

/// The git subcommand that serves the service.
pub open spec fn spec_command_name(s: GitService) -> Seq<char> {
    match s {
        GitService::UploadPack => "upload-pack"@,
        GitService::ReceivePack => "receive-pack"@,
    }
}

/// The service that a Smart HTTP `service` parameter names, if any.
pub open spec fn spec_parse_service(s: Seq<char>) -> Option<GitService> {
    if s == "git-upload-pack"@ {
        Some(GitService::UploadPack)
    } else if s == "git-receive-pack"@ {
        Some(GitService::ReceivePack)
    } else {
        None
    }
}

impl GitService {
    /// The service that a Smart HTTP `service` parameter names; `None` for any other text.
    pub fn parse_service(s: &str) -> (r: Option<Self>)
        ensures
            r == spec_parse_service(s@),
    {
        let cs = to_chars(s);
        if chars_eq(&cs, &to_chars("git-upload-pack")) {
            Some(GitService::UploadPack)
        } else if chars_eq(&cs, &to_chars("git-receive-pack")) {
            Some(GitService::ReceivePack)
        } else {
            None
        }
    }

    /// The git subcommand that serves the service.
    pub fn command_name(&self) -> (r: &'static str)
        ensures
            r@ == spec_command_name(*self),
    {
        match self {
            GitService::UploadPack => "upload-pack",
            GitService::ReceivePack => "receive-pack",
        }
    }

    /// The service's name in the Smart HTTP protocol.
    pub fn service_name(&self) -> (r: &'static str)
        ensures
            r@ == spec_service_name(*self),
    {
        match self {
            GitService::UploadPack => "git-upload-pack",
            GitService::ReceivePack => "git-receive-pack",
        }
    }

    /// The content type of the ref advertisement.
    pub fn content_type_advertisement(&self) -> (r: &'static str)
        ensures
            r@ == match *self {
                GitService::UploadPack => "application/x-git-upload-pack-advertisement"@,
                GitService::ReceivePack => "application/x-git-receive-pack-advertisement"@,
            },
    {
        match self {
            GitService::UploadPack => "application/x-git-upload-pack-advertisement",
            GitService::ReceivePack => "application/x-git-receive-pack-advertisement",
        }
    }

    /// The content type of the RPC result.
    pub fn content_type_result(&self) -> (r: &'static str)
        ensures
            r@ == match *self {
                GitService::UploadPack => "application/x-git-upload-pack-result"@,
                GitService::ReceivePack => "application/x-git-receive-pack-result"@,
            },
    {
        match self {
            GitService::UploadPack => "application/x-git-upload-pack-result",
            GitService::ReceivePack => "application/x-git-receive-pack-result",
        }
    }
}

/// Reading a service's protocol name gives the service back, and the two services
/// have different names.
pub proof fn law_parse_service_name(s: GitService)
    ensures
        spec_parse_service(spec_service_name(s)) == Some(s),
        spec_service_name(GitService::UploadPack) != spec_service_name(GitService::ReceivePack),
{
    reveal_strlit("git-upload-pack");
    reveal_strlit("git-receive-pack");
    assert("git-upload-pack"@[4] != "git-receive-pack"@[4]);
}

/// A service's protocol name is `git-` followed by the git command that serves it, so
/// a fetch runs `git upload-pack` and a push `git receive-pack`, and the two services
/// run different commands. Reading a command's protocol name back gives its service.
pub proof fn law_service_runs_its_command(s: GitService)
    ensures
        spec_service_name(s) == "git-"@ + spec_command_name(s),
        spec_command_name(GitService::UploadPack) != spec_command_name(GitService::ReceivePack),
        spec_parse_service("git-"@ + spec_command_name(s)) == Some(s),
{
    reveal_strlit("git-");
    reveal_strlit("upload-pack");
    reveal_strlit("receive-pack");
    reveal_strlit("git-upload-pack");
    reveal_strlit("git-receive-pack");
    assert("git-upload-pack"@ =~= "git-"@ + "upload-pack"@);
    assert("git-receive-pack"@ =~= "git-"@ + "receive-pack"@);
    assert("upload-pack"@[0] != "receive-pack"@[0]);
    assert("git-upload-pack"@[4] != "git-receive-pack"@[4]);
}

/// The lower-case hexadecimal digit of `d` (for `0 <= d < 16`).
pub open spec fn hex_digit(d: int) -> char {
    if d < 10 {
        (d + '0' as int) as char
    } else {
        (d - 10 + 'a' as int) as char
    }
}

/// `n` written with four lower-case hexadecimal digits (`{:04x}`), for `n < 65536`.
pub open spec fn hex4(n: int) -> Seq<char> {
    seq![hex_digit((n / 4096) % 16), hex_digit((n / 256) % 16), hex_digit((n / 16) % 16), hex_digit(n % 16)]
}

/// The pkt-line that announces the service in a ref advertisement.
pub open spec fn service_line(s: GitService) -> Seq<char> {
    "# service="@ + spec_service_name(s) + "\n"@
}

/// The text that precedes git's own ref advertisement: the service pkt-line with its
/// four-digit length, then a flush packet.
pub open spec fn advertisement_head(s: GitService) -> Seq<char> {
    hex4(4 + service_line(s).len() as int) + service_line(s) + "0000"@
}

fn hex_char(d: u32) -> (c: char)
    requires
        d < 16,
    ensures
        c == hex_digit(d as int),
{
    if d < 10 {
        ((d + 48) as u8) as char
    } else {
        ((d - 10 + 97) as u8) as char
    }
}

/// `{:04x}` of `n`.
fn format_hex4(n: u32) -> (r: Vec<char>)
    requires
        n < 65536,
    ensures
        r@ == hex4(n as int),
{
    let mut r: Vec<char> = Vec::new();
    r.push(hex_char((n / 4096) % 16));
    r.push(hex_char((n / 256) % 16));
    r.push(hex_char((n / 16) % 16));
    r.push(hex_char(n % 16));
    assert(r@ =~= hex4(n as int));
    r
}

/// Prefixes git's ref advertisement `refs` with the service pkt-line and a flush
/// packet, as a Smart HTTP response body.
pub fn advertisement(service: GitService, refs: &[u8]) -> (r: Vec<u8>)
    ensures
        r@ == vstd::utf8::encode_utf8(advertisement_head(service)) + refs@,
{
    let mut line = String::new();
    line.append("# service=");
    line.append(service.service_name());
    line.append("\n");
    proof {
        reveal_strlit("# service=");
        reveal_strlit("\n");
        reveal_strlit("git-upload-pack");
        reveal_strlit("git-receive-pack");
    }
    assert(line@ == service_line(service));
    assert(line@.len() <= 27);
    let line_len = line.as_str().unicode_len();
    let mut head = format_hex4((4 + line_len) as u32);
    let line_chars = to_chars(line.as_str());
    let mut i: usize = 0;
    let ghost start = head@;
    while i < line_chars.len()
        invariant
            i <= line_chars@.len(),
            head@ == start + line_chars@.take(i as int),
        decreases line_chars@.len() - i,
    {
        head.push(line_chars[i]);
        i = i + 1;
        assert(head@ == start + line_chars@.take(i as int));
    }
    assert(line_chars@.take(line_chars@.len() as int) == line_chars@);
    head.push('0');
    head.push('0');
    head.push('0');
    head.push('0');
    proof {
        reveal_strlit("0000");
    }
    assert(head@ =~= advertisement_head(service));
    let text = string_from_chars(&head);
    let mut out = text.as_str().as_bytes_vec();
    let mut i: usize = 0;
    let ghost prefix = out@;
    while i < refs.len()
        invariant
            i <= refs@.len(),
            out@ == prefix + refs@.take(i as int),
        decreases refs@.len() - i,
    {
        out.push(refs[i]);
        i = i + 1;
        assert(out@ == prefix + refs@.take(i as int));
    }
    assert(refs@.take(refs@.len() as int) == refs@);
    out
}

// ---------------------------------------------------------------------------
// Inputs of the repository context reads
// ---------------------------------------------------------------------------

/// Whether `c` is an ASCII hexadecimal digit.
pub open spec fn is_hex_char(c: char) -> bool {
    ('0' <= c && c <= '9') || ('a' <= c && c <= 'f') || ('A' <= c && c <= 'F')
}

/// Whether `s` is a full commit id: exactly 40 hexadecimal digits.
pub open spec fn is_full_sha(s: Seq<char>) -> bool {
    s.len() == 40 && forall|i: int| 0 <= i < s.len() ==> is_hex_char(#[trigger] s[i])
}

/// Checks the inputs of a commit-detail read: a full commit id and a ref that is not
/// blank.
pub fn validate_commit_request(sha: &str, git_ref: &str) -> (r: Result<(), GitStorageError>)
    ensures
        !is_full_sha(sha@) ==> (r matches Err(GitStorageError::InvalidInput(m)) && m@
            == "commit sha must be exactly 40 hexadecimal characters"@),
        is_full_sha(sha@) && is_blank(git_ref@) ==> (r matches Err(
            GitStorageError::InvalidInput(m),
        ) && m@ == "ref must not be empty"@),
        is_full_sha(sha@) && !is_blank(git_ref@) ==> r is Ok,
{
    let cs = to_chars(sha);
    let mut ok = cs.len() == 40;
    let mut i: usize = 0;
    while ok && i < cs.len()
        invariant
            cs@ == sha@,
            i <= cs@.len(),
            ok ==> cs@.len() == 40,
            ok ==> forall|j: int| 0 <= j < i ==> is_hex_char(#[trigger] cs@[j]),
            !ok ==> !is_full_sha(sha@),
        decreases cs@.len() - i,
    {
        let c = cs[i];
        if !(('0' <= c && c <= '9') || ('a' <= c && c <= 'f') || ('A' <= c && c <= 'F')) {
            ok = false;
        }
        i = i + 1;
    }
    if !ok {
        return Err(
            GitStorageError::InvalidInput(
                string_from_str("commit sha must be exactly 40 hexadecimal characters"),
            ),
        );
    }
    if trim_is_empty(git_ref) {
        return Err(GitStorageError::InvalidInput(string_from_str("ref must not be empty")));
    }
    Ok(())
}

/// Checks the input of a blob read: the id must not be blank.
pub fn validate_blob_sha(sha: &str) -> (r: Result<(), GitStorageError>)
    ensures
        is_blank(sha@) ==> (r matches Err(GitStorageError::InvalidInput(m)) && m@
            == "blob sha is empty"@),
        !is_blank(sha@) ==> r is Ok,
{
    if trim_is_empty(sha) {
        Err(GitStorageError::InvalidInput(string_from_str("blob sha is empty")))
    } else {
        Ok(())
    }
}

/// Checks what the object store says of the requested blob `sha`: it must be a blob,
/// of at most `BLOB_MAX_BYTES` bytes. The messages name the object and its size.
pub fn check_blob_header(sha: &str, is_blob: bool, size: u64) -> (r: Result<(), GitStorageError>)
    ensures
        !is_blob ==> (r matches Err(GitStorageError::NotFound(m)) && m@ == "object '"@ + sha@
            + "' is not a blob"@),
        is_blob && size > BLOB_MAX_BYTES ==> (r matches Err(GitStorageError::ResourceExceeded(m))
            && m@ == "blob size "@ + nat_decimal(size as nat) + " exceeds max 1048576 bytes"@),
        is_blob && size <= BLOB_MAX_BYTES ==> r is Ok,
{
    if !is_blob {
        let mut m = string_from_str("object '");
        m.append(sha);
        m.append("' is not a blob");
        return Err(GitStorageError::NotFound(m));
    }
    if size > BLOB_MAX_BYTES as u64 {
        let mut m = string_from_str("blob size ");
        m.append(format_u64(size).as_str());
        m.append(" exceeds max 1048576 bytes");
        return Err(GitStorageError::ResourceExceeded(m));
    }
    Ok(())
}

/// Whether the commit id that a lookup resolved is the requested one, compared without
/// regard to the case of ASCII letters.
pub open spec fn same_commit_id(resolved: Seq<char>, requested: Seq<char>) -> bool {
    resolved.len() == requested.len() && forall|i: int|
        0 <= i < resolved.len() ==> ascii_lower(#[trigger] resolved[i]) == ascii_lower(requested[i])
}

/// A character with an ASCII upper-case letter made lower-case.
pub open spec fn ascii_lower(c: char) -> char {
    if 'A' <= c && c <= 'Z' {
        ((c as u32) + 32) as char
    } else {
        c
    }
}

fn lower_ascii(c: char) -> (r: char)
    ensures
        r == ascii_lower(c),
{
    if 'A' <= c && c <= 'Z' {
        ((c as u8) + 32) as char
    } else {
        c
    }
}

/// Whether the commit that a lookup of `requested` found, `resolved`, is that very
/// commit (and not one that the text merely abbreviates).
pub fn is_same_commit(resolved: &str, requested: &str) -> (r: bool)
    ensures
        r == same_commit_id(resolved@, requested@),
{
    let a = to_chars(resolved);
    let b = to_chars(requested);
    if a.len() != b.len() {
        return false;
    }
    let mut i: usize = 0;
    while i < a.len()
        invariant
            a@ == resolved@,
            b@ == requested@,
            a@.len() == b@.len(),
            i <= a@.len(),
            forall|j: int| 0 <= j < i ==> ascii_lower(#[trigger] a@[j]) == ascii_lower(b@[j]),
        decreases a@.len() - i,
    {
        if lower_ascii(a[i]) != lower_ascii(b[i]) {
            return false;
        }
        i = i + 1;
    }
    true
}

/// The number of commits that a history read returns for a requested `limit`: the
/// limit brought into the range from 1 to 100.
pub fn commit_limit(limit: usize) -> (r: usize)
    ensures
        r == if limit < 1 {
            1
        } else if limit > 100 {
            100
        } else {
            limit
        },
{
    if limit < 1 {
        1
    } else if limit > 100 {
        100
    } else {
        limit
    }
}

// ---------------------------------------------------------------------------
// Naming of repositories on disk
// ---------------------------------------------------------------------------

/// The name of a repository's directory in its tenant's storage: the repository id
/// followed by `.git`.
pub fn repo_dir_name(repo_id: &str) -> (r: String)
    ensures
        r@ == repo_id@ + ".git"@,
{
    let mut r = string_from_str(repo_id);
    r.append(".git");
    r
}

/// The repository id that a directory entry of a tenant's storage stands for: the
/// entry's name must end in `.git`, and what comes before must read as a UUID.
pub fn repo_id_from_dir_name(name: &str) -> (r: Option<u128>)
    ensures
        r == if has_suffix(name@, ".git"@) {
            uuid_parse(name@.take(name@.len() - 4))
        } else {
            None
        },
{
    let cs = to_chars(name);
    let suffix = to_chars(".git");
    proof {
        reveal_strlit(".git");
    }
    if !chars_end_with(&cs, &suffix) {
        return None;
    }
    let stem = chars_slice(&cs, 0, cs.len() - 4);
    let stem_text = string_from_chars(&stem);
    match parse_uuid(stem_text.as_str()) {
        Ok(u) => Some(u),
        Err(_) => None,
    }
}

/// The repository id that a directory name stands for (see `repo_id_from_dir_name`).
pub open spec fn dir_repo_id(name: Seq<char>) -> Option<u128> {
    if has_suffix(name, ".git"@) {
        uuid_parse(name.take(name.len() - 4))
    } else {
        None
    }
}

/// Whether some entry of a tenant's storage, given by its name and whether it is a
/// directory, is a repository directory with the id `id`.
pub open spec fn lists_repo(entries: Seq<(String, bool)>, id: u128) -> bool {
    exists|i: int| 0 <= i < entries.len() && (#[trigger] entries[i]).1 && dir_repo_id(entries[i].0@)
        == Some(id)
}

/// The repositories of a tenant's storage directory, from its entries (name, and
/// whether the entry is a directory): the ids of the directories named `<uuid>.git`,
/// each once. Other entries, quarantine data among them, are ignored.
pub fn repo_ids_in(entries: &[(String, bool)]) -> (r: Vec<u128>)
    ensures
        forall|id: u128| r@.contains(id) <==> lists_repo(entries@, id),
        r@.no_duplicates(),
{
    let mut r: Vec<u128> = Vec::new();
    let mut i: usize = 0;
    while i < entries.len()
        invariant
            i <= entries@.len(),
            forall|id: u128| r@.contains(id) <==> lists_repo(entries@.take(i as int), id),
            r@.no_duplicates(),
        decreases entries@.len() - i,
    {
        let ghost prefix = entries@.take(i as int);
        let ghost next = entries@.take(i + 1);
        let ghost before = r@;
        assert(forall|x: u128| before.contains(x) <==> lists_repo(prefix, x));
        let ghost new_id: Option<u128> = if entries@[i as int].1 {
            dir_repo_id(entries@[i as int].0@)
        } else {
            None
        };
        assert(next =~= prefix.push(entries@[i as int]));
        let found_id: Option<u128> = if entries[i].1 {
            repo_id_from_dir_name(entries[i].0.as_str())
        } else {
            None
        };
        assert(found_id == new_id);
        match found_id {
            Some(id) => {
                let mut found = false;
                let mut k: usize = 0;
                while k < r.len()
                    invariant
                        r@ == before,
                        k <= r@.len(),
                        found <==> exists|j: int| 0 <= j < k && r@[j] == id,
                    decreases r@.len() - k,
                {
                    if r[k] == id {
                        found = true;
                    }
                    k = k + 1;
                }
                if !found {
                    r.push(id);
                }
                proof {
                    assert forall|x: u128| r@.contains(x) <==> (before.contains(x) || x == id) by {
                        if found {
                            if x == id {
                                let j = choose|j: int| 0 <= j < before.len() && before[j] == id;
                                assert(before.contains(id));
                            }
                        } else {
                            if r@.contains(x) {
                                let j = choose|j: int| 0 <= j < r@.len() && r@[j] == x;
                                if j < before.len() {
                                    assert(before[j] == r@[j]);
                                }
                            }
                            if before.contains(x) {
                                let j = choose|j: int| 0 <= j < before.len() && before[j] == x;
                                assert(r@[j] == before[j]);
                            }
                            if x == id {
                                assert(r@[before.len() as int] == id);
                            }
                        }
                    }
                    if !found {
                        assert forall|a: int, b: int| 0 <= a < r@.len() && 0 <= b < r@.len() && a != b
                            implies r@[a] != r@[b] by {
                            if a < before.len() && b < before.len() {
                                assert(before[a] == r@[a] && before[b] == r@[b]);
                            } else if a < before.len() {
                                assert(before[a] == r@[a]);
                            } else if b < before.len() {
                                assert(before[b] == r@[b]);
                            }
                        }
                    }
                }
            },
            None => {},
        }
        assert(forall|x: u128| r@.contains(x) <==> (before.contains(x) || new_id == Some(x)));
        assert forall|id: u128| lists_repo(next, id) <==> (lists_repo(prefix, id) || new_id == Some(id))
            by {
            if lists_repo(next, id) {
                let j = choose|j: int| 0 <= j < next.len() && (#[trigger] next[j]).1 && dir_repo_id(
                    next[j].0@,
                ) == Some(id);
                if j < prefix.len() {
                    assert(prefix[j] == next[j]);
                }
            }
            if lists_repo(prefix, id) {
                let j = choose|j: int| 0 <= j < prefix.len() && (#[trigger] prefix[j]).1 && dir_repo_id(
                    prefix[j].0@,
                ) == Some(id);
                assert(next[j] == prefix[j]);
            }
            if new_id == Some(id) {
                assert(next[prefix.len() as int] == entries@[i as int]);
            }
        }
        assert forall|x: u128| r@.contains(x) <==> lists_repo(next, x) by {
            assert(r@.contains(x) <==> (before.contains(x) || new_id == Some(x)));
            assert(before.contains(x) <==> lists_repo(prefix, x));
            assert(lists_repo(next, x) <==> (lists_repo(prefix, x) || new_id == Some(x)));
        }
        i = i + 1;
    }
    assert(entries@.take(entries@.len() as int) =~= entries@);
    r
}

/// The name under which a repository is moved into quarantine: the repository id,
/// `.git.`, and a fresh nonce.
pub fn quarantine_entry_name(repo_id: &str, nonce: &str) -> (r: String)
    ensures
        r@ == repo_id@ + ".git."@ + nonce@,
{
    let mut r = string_from_str(repo_id);
    r.append(".git.");
    r.append(nonce);
    r
}

/// The README of a new repository's initial commit.
pub fn seed_readme(repo_name: &str, default_branch: &str) -> (r: String)
    ensures
        r@ == "# "@ + repo_name@ + "\n\nDefault branch: `"@ + default_branch@ + "`\n"@,
{
    let mut r = String::new();
    r.append("# ");
    r.append(repo_name);
    r.append("\n\nDefault branch: `");
    r.append(default_branch);
    r.append("`\n");
    r
}

/// The policy file of a new repository's initial commit.
pub fn seed_policy() -> (r: &'static str)
    ensures
        r@ == "default_action: require_review\n"@,
{
    "default_action: require_review\n"
}

/// The agents file of a new repository's initial commit.
pub fn seed_agents() -> (r: &'static str)
    ensures
        r@ == "agents: []\n"@,
{
    "agents: []\n"
}

// ---------------------------------------------------------------------------
// Breadth-first collection of a file tree
// ---------------------------------------------------------------------------

/// The index of the last `/` in a path, or -1 where there is none.
pub open spec fn last_slash(p: Seq<u8>) -> int
    decreases p.len(),
{
    if p.len() == 0 {
        -1
    } else if p.last() == 47 {
        p.len() - 1
    } else {
        last_slash(p.drop_last())
    }
}

/// The path after entering the component `name`: unchanged for an empty name, otherwise
/// the name appended after a `/` (no `/` in front of the first component).
pub open spec fn pushed_path(p: Seq<u8>, name: Seq<u8>) -> Seq<u8> {
    if name.len() == 0 {
        p
    } else if p.len() == 0 {
        name
    } else {
        p.push(47) + name
    }
}

/// The path after leaving its last component: what comes before the last `/`, or
/// nothing where there is no `/`.
pub open spec fn popped_path(p: Seq<u8>) -> Seq<u8> {
    if last_slash(p) >= 0 {
        p.take(last_slash(p))
    } else {
        Seq::empty()
    }
}

/// The kind of a tree entry: `tree` for a subtree, `blob` for anything else.
pub open spec fn entry_kind(is_tree: bool) -> Seq<char> {
    if is_tree {
        "tree"@
    } else {
        "blob"@
    }
}

proof fn lemma_last_slash_bounds(p: Seq<u8>)
    ensures
        -1 <= last_slash(p) < p.len(),
        last_slash(p) >= 0 ==> p[last_slash(p)] == 47,
        forall|j: int| last_slash(p) < j < p.len() ==> p[j] != 47,
    decreases p.len(),
{
    if p.len() > 0 && p.last() != 47 {
        lemma_last_slash_bounds(p.drop_last());
        assert forall|j: int| last_slash(p) < j < p.len() implies p[j] != 47 by {
            if j < p.len() - 1 {
                assert(p.drop_last()[j] == p[j]);
            }
        }
    }
}

proof fn lemma_last_slash_after(a: Seq<u8>, b: Seq<u8>)
    requires
        forall|j: int| 0 <= j < b.len() ==> b[j] != 47,
    ensures
        last_slash(a.push(47) + b) == a.len(),
    decreases b.len(),
{
    if b.len() == 0 {
        assert(a.push(47) + b =~= a.push(47));
    } else {
        let c = a.push(47) + b;
        assert(c.drop_last() =~= a.push(47) + b.drop_last());
        assert(c.last() == b.last());
        lemma_last_slash_after(a, b.drop_last());
    }
}

proof fn lemma_last_slash_none(b: Seq<u8>)
    requires
        forall|j: int| 0 <= j < b.len() ==> b[j] != 47,
    ensures
        last_slash(b) == -1,
    decreases b.len(),
{
    if b.len() > 0 {
        lemma_last_slash_none(b.drop_last());
    }
}

/// Entering a component that holds no `/` and then leaving it gives the path back.
pub proof fn law_push_then_pop_restores_path(p: Seq<u8>, name: Seq<u8>)
    requires
        name.len() > 0,
        forall|j: int| 0 <= j < name.len() ==> name[j] != 47,
    ensures
        popped_path(pushed_path(p, name)) == p,
{
    if p.len() == 0 {
        lemma_last_slash_none(name);
        assert(popped_path(name) =~= p);
    } else {
        lemma_last_slash_after(p, name);
        assert((p.push(47) + name).take(p.len() as int) =~= p);
    }
}

fn copy_bytes(v: &[u8]) -> (r: Vec<u8>)
    ensures
        r@ == v@,
{
    let mut r: Vec<u8> = Vec::new();
    let mut i: usize = 0;
    while i < v.len()
        invariant
            i <= v@.len(),
            r@ == v@.take(i as int),
        decreases v@.len() - i,
    {
        r.push(v[i]);
        i = i + 1;
        assert(r@ == v@.take(i as int));
    }
    assert(v@.take(v@.len() as int) =~= v@);
    r
}

/// Collects the entries of a tree in breadth-first order, with their full paths, up to
/// a maximum number of entries.
pub struct BoundedTreeVisitor {
    path_deque: VecDeque<Vec<u8>>,
    path: Vec<u8>,
    entries: Vec<FileTreeEntry>,
    max_entries: usize,
    exceeded: bool,
}

impl BoundedTreeVisitor {
    /// The path of the current entry.
    pub closed spec fn current_path(&self) -> Seq<u8> {
        self.path@
    }

    /// The paths queued for later visits, front first.
    pub closed spec fn queued(&self) -> Seq<Seq<u8>> {
        self.path_deque@.map_values(|v: Vec<u8>| v@)
    }

    /// The entries collected so far.
    pub closed spec fn collected(&self) -> Seq<FileTreeEntry> {
        self.entries@
    }

    /// The maximum number of entries.
    pub closed spec fn limit(&self) -> nat {
        self.max_entries as nat
    }

    /// Whether an entry was refused because the maximum had been reached.
    pub closed spec fn was_exceeded(&self) -> bool {
        self.exceeded
    }

    /// A collector that has seen nothing, with room for `max_entries` entries.
    pub fn new(max_entries: usize) -> (v: Self)
        ensures
            v.current_path().len() == 0,
            v.queued().len() == 0,
            v.collected().len() == 0,
            v.limit() == max_entries,
            !v.was_exceeded(),
    {
        let v = BoundedTreeVisitor {
            path_deque: VecDeque::new(),
            path: Vec::new(),
            entries: Vec::new(),
            max_entries,
            exceeded: false,
        };
        assert(v.queued() =~= Seq::<Seq<u8>>::empty());
        v
    }

    /// Enters the path component `name`.
    pub fn push_element(&mut self, name: &[u8])
        ensures
            final(self).current_path() == pushed_path(old(self).current_path(), name@),
            final(self).queued() == old(self).queued(),
            final(self).collected() == old(self).collected(),
            final(self).limit() == old(self).limit(),
            final(self).was_exceeded() == old(self).was_exceeded(),
    {
        if name.len() == 0 {
            return;
        }
        let ghost old_path = self.path@;
        let mut path: Vec<u8> = Vec::new();
        std::mem::swap(&mut path, &mut self.path);
        if path.len() > 0 {
            path.push(47u8);
        }
        let ghost base = path@;
        let mut i: usize = 0;
        while i < name.len()
            invariant
                i <= name@.len(),
                path@ == base + name@.take(i as int),
            decreases name@.len() - i,
        {
            path.push(name[i]);
            i = i + 1;
            assert(path@ == base + name@.take(i as int));
        }
        assert(name@.take(name@.len() as int) =~= name@);
        self.path = path;
        assert(self.path@ =~= pushed_path(old_path, name@));
    }

    /// Leaves the last path component.
    pub fn pop_element(&mut self)
        ensures
            final(self).current_path() == popped_path(old(self).current_path()),
            final(self).queued() == old(self).queued(),
            final(self).collected() == old(self).collected(),
            final(self).limit() == old(self).limit(),
            final(self).was_exceeded() == old(self).was_exceeded(),
    {
        proof {
            lemma_last_slash_bounds(self.path@);
        }
        let mut i: usize = self.path.len();
        while i > 0 && self.path[i - 1] != 47u8
            invariant
                i <= self.path@.len(),
                forall|j: int| i <= j < self.path@.len() ==> self.path@[j] != 47,
                -1 <= last_slash(self.path@) < self.path@.len(),
                last_slash(self.path@) >= 0 ==> self.path@[last_slash(self.path@)] == 47,
                forall|j: int| last_slash(self.path@) < j < self.path@.len() ==> self.path@[j] != 47,
            decreases i,
        {
            i = i - 1;
        }
        if i > 0 {
            assert(last_slash(self.path@) == i - 1);
            self.path.truncate(i - 1);
        } else {
            assert(last_slash(self.path@) == -1);
            self.path.clear();
        }
    }

    /// Records the entry at the current path. Where the maximum has been reached the
    /// entry is refused, the collector marks itself exceeded, and the result (`false`)
    /// tells the traversal to stop.
    pub fn record(&mut self, is_tree: bool, oid: String) -> (cont: bool)
        ensures
            final(self).current_path() == old(self).current_path(),
            final(self).queued() == old(self).queued(),
            final(self).limit() == old(self).limit(),
            old(self).collected().len() <= old(self).limit() ==> final(self).collected().len()
                <= final(self).limit(),
            old(self).collected().len() >= old(self).limit() ==> !cont && final(self).was_exceeded()
                && final(self).collected() == old(self).collected(),
            old(self).collected().len() < old(self).limit() ==> cont && final(self).was_exceeded()
                == old(self).was_exceeded() && final(self).collected().len() == old(self).collected().len() + 1
                && final(self).collected().drop_last() == old(self).collected() && ({
                let e = final(self).collected().last();
                e.name@ == utf8_lossy(old(self).current_path()) && e.kind@ == entry_kind(is_tree)
                    && e.oid == oid && e.is_tree == is_tree
            }),
    {
        if self.entries.len() >= self.max_entries {
            self.exceeded = true;
            return false;
        }
        let kind = if is_tree {
            string_from_str("tree")
        } else {
            string_from_str("blob")
        };
        let name = from_utf8_lossy(self.path.as_slice());
        let ghost before = self.entries@;
        self.entries.push(FileTreeEntry { name, kind, oid, is_tree });
        assert(self.entries@.drop_last() =~= before);
        true
    }

    /// Makes the last queued path current, taking it off the queue (an empty path where
    /// the queue is empty).
    pub fn pop_back_tracked_path_and_set_current(&mut self)
        ensures
            old(self).queued().len() > 0 ==> final(self).current_path() == old(self).queued().last()
                && final(self).queued() == old(self).queued().drop_last(),
            old(self).queued().len() == 0 ==> final(self).current_path().len() == 0
                && final(self).queued() == old(self).queued(),
            final(self).collected() == old(self).collected(),
            final(self).limit() == old(self).limit(),
            final(self).was_exceeded() == old(self).was_exceeded(),
    {
        let ghost q = self.path_deque@;
        match self.path_deque.pop_back() {
            Some(p) => {
                self.path = p;
                assert(self.path_deque@.map_values(|v: Vec<u8>| v@) =~= q.map_values(
                    |v: Vec<u8>| v@,
                ).drop_last());
            },
            None => {
                self.path = Vec::new();
            },
        }
    }

    /// Makes the first queued path current, taking it off the queue (an empty path where
    /// the queue is empty).
    pub fn pop_front_tracked_path_and_set_current(&mut self)
        ensures
            old(self).queued().len() > 0 ==> final(self).current_path() == old(self).queued()[0]
                && final(self).queued() == old(self).queued().drop_first(),
            old(self).queued().len() == 0 ==> final(self).current_path().len() == 0
                && final(self).queued() == old(self).queued(),
            final(self).collected() == old(self).collected(),
            final(self).limit() == old(self).limit(),
            final(self).was_exceeded() == old(self).was_exceeded(),
    {
        let ghost q = self.path_deque@;
        match self.path_deque.pop_front() {
            Some(p) => {
                self.path = p;
                assert(self.path_deque@.map_values(|v: Vec<u8>| v@) =~= q.map_values(
                    |v: Vec<u8>| v@,
                ).drop_first());
            },
            None => {
                self.path = Vec::new();
            },
        }
    }

    /// Enters `component` and queues the resulting path for a later visit.
    pub fn push_back_tracked_path_component(&mut self, component: &[u8])
        ensures
            final(self).current_path() == pushed_path(old(self).current_path(), component@),
            final(self).queued() == old(self).queued().push(final(self).current_path()),
            final(self).collected() == old(self).collected(),
            final(self).limit() == old(self).limit(),
            final(self).was_exceeded() == old(self).was_exceeded(),
    {
        self.push_element(component);
        let copy = copy_bytes(self.path.as_slice());
        let ghost q = self.path_deque@;
        self.path_deque.push_back(copy);
        assert(self.path_deque@.map_values(|v: Vec<u8>| v@) =~= q.map_values(|v: Vec<u8>| v@).push(
            self.path@,
        ));
    }

    /// Enters `component`.
    pub fn push_path_component(&mut self, component: &[u8])
        ensures
            final(self).current_path() == pushed_path(old(self).current_path(), component@),
            final(self).queued() == old(self).queued(),
            final(self).collected() == old(self).collected(),
            final(self).limit() == old(self).limit(),
            final(self).was_exceeded() == old(self).was_exceeded(),
    {
        self.push_element(component);
    }

    /// Leaves the last path component.
    pub fn pop_path_component(&mut self)
        ensures
            final(self).current_path() == popped_path(old(self).current_path()),
            final(self).queued() == old(self).queued(),
            final(self).collected() == old(self).collected(),
            final(self).limit() == old(self).limit(),
            final(self).was_exceeded() == old(self).was_exceeded(),
    {
        self.pop_element();
    }

    /// Whether an entry was refused because the maximum had been reached.
    pub fn exceeded(&self) -> (r: bool)
        ensures
            r == self.was_exceeded(),
    {
        self.exceeded
    }

    /// The collected entries.
    pub fn into_entries(self) -> (r: Vec<FileTreeEntry>)
        ensures
            r@ == self.collected(),
    {
        self.entries
    }
}

// ---------------------------------------------------------------------------
// Bounded diffs
// ---------------------------------------------------------------------------

/// One change between two trees, as the tree diff reports it.
pub enum TreeChange {
    Addition { location: String, id: String },
    Deletion { location: String, id: String },
    Modification { location: String, previous_id: String, id: String },
    Rewrite { location: String, source_id: String, id: String },
}

/// The diff entry of a change: additions have no old id, deletions no new id, and
/// modifications and rewrites are both `modified`.
pub open spec fn change_view(c: TreeChange) -> (Seq<char>, Seq<char>, Seq<char>, Seq<char>) {
    match c {
        TreeChange::Addition { location, id } => (location@, "added"@, Seq::empty(), id@),
        TreeChange::Deletion { location, id } => (location@, "deleted"@, id@, Seq::empty()),
        TreeChange::Modification { location, previous_id, id } => (
            location@,
            "modified"@,
            previous_id@,
            id@,
        ),
        TreeChange::Rewrite { location, source_id, id } => (location@, "modified"@, source_id@, id@),
    }
}

/// A diff entry records the changed path, the blob before the change as its old id
/// and the blob after it as its new id: an addition has no old blob and a deletion no
/// new one, and a modification or a rewrite goes from the blob it had (its previous or
/// source id) to the one it has now.
pub proof fn law_diff_entry_old_and_new(c: TreeChange)
    ensures
        match c {
            TreeChange::Addition { location, id } => change_view(c).0 == location@
                && change_view(c).1 == "added"@ && change_view(c).2.len() == 0
                && change_view(c).3 == id@,
            TreeChange::Deletion { location, id } => change_view(c).0 == location@
                && change_view(c).1 == "deleted"@ && change_view(c).2 == id@
                && change_view(c).3.len() == 0,
            TreeChange::Modification { location, previous_id, id } => change_view(c).0 == location@
                && change_view(c).1 == "modified"@ && change_view(c).2 == previous_id@
                && change_view(c).3 == id@,
            TreeChange::Rewrite { location, source_id, id } => change_view(c).0 == location@
                && change_view(c).1 == "modified"@ && change_view(c).2 == source_id@
                && change_view(c).3 == id@,
        },
{
}

/// The diff entry of a change.
pub fn diff_entry_of(change: TreeChange) -> (d: DiffEntry)
    ensures
        diff_view(d) == change_view(change),
{
    match change {
        TreeChange::Addition { location, id } => DiffEntry {
            path: location,
            change_type: string_from_str("added"),
            old_oid: String::new(),
            new_oid: id,
        },
        TreeChange::Deletion { location, id } => DiffEntry {
            path: location,
            change_type: string_from_str("deleted"),
            old_oid: id,
            new_oid: String::new(),
        },
        TreeChange::Modification { location, previous_id, id } => DiffEntry {
            path: location,
            change_type: string_from_str("modified"),
            old_oid: previous_id,
            new_oid: id,
        },
        TreeChange::Rewrite { location, source_id, id } => DiffEntry {
            path: location,
            change_type: string_from_str("modified"),
            old_oid: source_id,
            new_oid: id,
        },
    }
}

/// Collects the changes of a diff, up to `DIFF_MAX_ENTRIES` of them.
pub struct DiffCollector {
    entries: Vec<DiffEntry>,
    exceeded: bool,
}

impl DiffCollector {
    /// The entries collected so far, as plain values.
    pub closed spec fn collected(&self) -> Seq<(Seq<char>, Seq<char>, Seq<char>, Seq<char>)> {
        self.entries@.map_values(|d: DiffEntry| diff_view(d))
    }

    /// Whether a change was refused because the maximum had been reached.
    pub closed spec fn was_exceeded(&self) -> bool {
        self.exceeded
    }

    /// A collector with no change.
    pub fn new() -> (c: Self)
        ensures
            c.collected().len() == 0,
            !c.was_exceeded(),
    {
        let c = DiffCollector { entries: Vec::new(), exceeded: false };
        assert(c.collected() =~= Seq::<(Seq<char>, Seq<char>, Seq<char>, Seq<char>)>::empty());
        c
    }

    /// Adds a change; where `DIFF_MAX_ENTRIES` changes are already held, refuses it, marks
    /// the collector exceeded and tells the diff to stop (`false`).
    pub fn push(&mut self, change: TreeChange) -> (cont: bool)
        ensures
            old(self).collected().len() >= DIFF_MAX_ENTRIES ==> !cont && final(self).was_exceeded()
                && final(self).collected() == old(self).collected(),
            old(self).collected().len() < DIFF_MAX_ENTRIES ==> cont && final(self).was_exceeded()
                == old(self).was_exceeded() && final(self).collected() == old(self).collected().push(
                change_view(change),
            ),
    {
        if self.entries.len() >= DIFF_MAX_ENTRIES {
            self.exceeded = true;
            return false;
        }
        let ghost before = self.entries@;
        let d = diff_entry_of(change);
        self.entries.push(d);
        assert(self.entries@.map_values(|d: DiffEntry| diff_view(d)) =~= before.map_values(
            |d: DiffEntry| diff_view(d),
        ).push(change_view(change)));
        true
    }

    /// Whether a change was refused because the maximum had been reached.
    pub fn exceeded(&self) -> (r: bool)
        ensures
            r == self.was_exceeded(),
    {
        self.exceeded
    }

    /// The collected diff, or an error where a change was refused.
    pub fn finish(self) -> (r: Result<Vec<DiffEntry>, GitStorageError>)
        ensures
            self.was_exceeded() ==> r matches Err(GitStorageError::ResourceExceeded(_)),
            !self.was_exceeded() ==> (r matches Ok(v) && v@.map_values(|d: DiffEntry| diff_view(d))
                == self.collected()),
    {
        if self.exceeded {
            return Err(
                GitStorageError::ResourceExceeded(string_from_str("diff exceeds max 5000 entries")),
            );
        }
        Ok(self.entries)
    }
}

/// The files of a tree listing, in order: its entries that are not trees.
pub open spec fn blobs_of(entries: Seq<FileTreeEntry>) -> Seq<FileTreeEntry>
    decreases entries.len(),
{
    if entries.len() == 0 {
        Seq::empty()
    } else if entries.last().is_tree {
        blobs_of(entries.drop_last())
    } else {
        blobs_of(entries.drop_last()).push(entries.last())
    }
}

/// The diff entry that adds a file.
pub open spec fn added_view(e: FileTreeEntry) -> (Seq<char>, Seq<char>, Seq<char>, Seq<char>) {
    (e.name@, "added"@, Seq::empty(), e.oid@)
}

/// The changes of a root commit: every file of its tree, added. Fails where there are
/// more than `DIFF_MAX_ENTRIES` files.
pub fn root_commit_changes(entries: Vec<FileTreeEntry>) -> (r: Result<Vec<DiffEntry>, GitStorageError>)
    ensures
        blobs_of(entries@).len() > DIFF_MAX_ENTRIES ==> r matches Err(GitStorageError::ResourceExceeded(_)),
        blobs_of(entries@).len() <= DIFF_MAX_ENTRIES ==> (r matches Ok(v) && v@.map_values(
            |d: DiffEntry| diff_view(d),
        ) == blobs_of(entries@).map_values(|e: FileTreeEntry| added_view(e))),
{
    let ghost orig = entries@;
    assert(orig.len() == entries.len());
    let mut out: Vec<DiffEntry> = Vec::new();
    let mut count: usize = 0;
    let mut pending = entries;
    let mut k: usize = 0;
    assert(orig.take(0) =~= Seq::<FileTreeEntry>::empty());
    assert(orig.skip(0) =~= orig);
    while pending.len() > 0
        invariant
            k <= orig.len(),
            orig.len() <= usize::MAX,
            k + pending@.len() == orig.len(),
            pending@ == orig.skip(k as int),
            count == blobs_of(orig.take(k as int)).len(),
            count <= DIFF_MAX_ENTRIES ==> out@.map_values(|d: DiffEntry| diff_view(d))
                == blobs_of(orig.take(k as int)).map_values(|e: FileTreeEntry| added_view(e)),
            count <= k,
        decreases pending@.len(),
    {
        let e = pending.remove(0);
        assert(orig.take(k + 1).drop_last() =~= orig.take(k as int));
        assert(orig.take(k + 1).last() == orig[k as int]);
        assert(orig.skip(k + 1) =~= orig.skip(k as int).drop_first());
        assert(e == orig[k as int]);
        if !e.is_tree {
            let ghost before = out@;
            if count < DIFF_MAX_ENTRIES {
                let ghost ev = e;
                out.push(DiffEntry {
                    path: e.name,
                    change_type: string_from_str("added"),
                    old_oid: String::new(),
                    new_oid: e.oid,
                });
                assert(out@.map_values(|d: DiffEntry| diff_view(d)) =~= before.map_values(
                    |d: DiffEntry| diff_view(d),
                ).push(added_view(ev)));
                assert(blobs_of(orig.take(k + 1)) == blobs_of(orig.take(k as int)).push(ev));
                assert(blobs_of(orig.take(k + 1)).map_values(|e: FileTreeEntry| added_view(e))
                    =~= blobs_of(orig.take(k as int)).map_values(|e: FileTreeEntry| added_view(e)).push(
                    added_view(ev),
                ));
            }
            count = count + 1;
        }
        k = k + 1;
    }
    assert(orig.take(k as int) =~= orig);
    if count > DIFF_MAX_ENTRIES {
        return Err(GitStorageError::ResourceExceeded(string_from_str("diff exceeds max 5000 entries")));
    }
    Ok(out)
}

} // verus!
