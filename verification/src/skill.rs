//! SKILL.md documents: the YAML frontmatter and Markdown body they are made of,
//! the metadata they declare and the rules that metadata must meet.

use vstd::prelude::*;
use vstd::utf8::encode_utf8;
use crate::text::{
    chars_slice, string_from_chars, string_from_str, to_chars, trim, trim_chars, trim_start,
    trim_start_at, trim_start_index,
};

verus! {

/// The error of reading a skill.
#[derive(Debug)]
pub enum SkillError {
    ValidationError(String),
    ConfigError(String),
}

/// Permission declarations for skill execution.
#[derive(Debug, Clone)]
pub struct SkillPermissions {
    pub filesystem: Option<String>,
    pub network: Option<String>,
    pub environment: Vec<String>,
}

/// Machine-readable metadata from the YAML frontmatter.
#[derive(Debug, Clone)]
pub struct SkillMetadata {
    pub name: String,
    pub description: String,
    pub version: Option<String>,
    pub author: Option<String>,
    pub tags: Vec<String>,
    /// The `type` field.
    pub skill_type: String,
    pub execution: String,
    pub runtime: Option<String>,
    pub entrypoint: Option<String>,
    pub timeout: u32,
    pub memory: u32,
    pub dependencies: Vec<String>,
    pub permissions: Option<SkillPermissions>,
    pub license: Option<String>,
    pub compatibility: Option<String>,
    /// Fields that the format does not define, each with its value written as JSON.
    pub metadata_extra: Vec<(String, String)>,
}

/// A parsed skill document.
#[derive(Debug, Clone)]
pub struct SkillDocument {
    pub metadata: SkillMetadata,
    pub body: String,
}

/// The skill type where the frontmatter gives none.
pub fn default_skill_type() -> (r: String)
    ensures
        r@ == "instruction"@,
{
    string_from_str("instruction")
}

/// The execution mode where the frontmatter gives none.
pub fn default_execution() -> (r: String)
    ensures
        r@ == "client"@,
{
    string_from_str("client")
}

/// The timeout in seconds where the frontmatter gives none.
pub fn default_timeout() -> (r: u32)
    ensures
        r == 30,
{
    30
}

/// The memory in MB where the frontmatter gives none.
pub fn default_memory() -> (r: u32)
    ensures
        r == 256,
{
    256
}

/// The first index at or after `from` where `pat` occurs in `s`.
pub open spec fn find_from(s: Seq<char>, pat: Seq<char>, from: int) -> Option<int>
    decreases s.len() + 1 - from,
{
    if from < 0 || from + pat.len() > s.len() {
        None
    } else if s.subrange(from, from + pat.len()) == pat {
        Some(from)
    } else {
        find_from(s, pat, from + 1)
    }
}

/// The frontmatter and body of a SKILL.md text, or the message of why it has none: the
/// text (without leading white space) must start with a `---` line, and the
/// frontmatter runs to the first line that starts with `---`. The body starts after
/// that marker and one line break.
pub open spec fn frontmatter_split(content: Seq<char>) -> Result<(Seq<char>, Seq<char>), Seq<char>> {
    let c = trim_start(content);
    if !(c.len() >= 4 && c.take(4) == "---\n"@) {
        Err("SKILL.md must start with YAML frontmatter"@)
    } else {
        let rest = c.skip(4);
        match find_from(rest, "\n---"@, 0) {
            None => Err("SKILL.md frontmatter is not closed"@),
            Some(end) => {
                let after = rest.skip(end + 4);
                let body = if after.len() > 0 && after[0] == '\n' {
                    after.skip(1)
                } else {
                    after
                };
                Ok((rest.take(end), body))
            },
        }
    }
}

/// The first index at or after `from` where `\n---` occurs in `s`.
fn find_marker(s: &[char], from: usize) -> (r: Option<usize>)
    requires
        from <= s@.len(),
    ensures
        r matches Some(i) ==> find_from(s@, "\n---"@, from as int) == Some(i as int),
        r is None ==> find_from(s@, "\n---"@, from as int) is None,
    decreases s@.len() - from,
{
    proof {
        reveal_strlit("\n---");
    }
    if from >= s.len() || s.len() - from < 4 {
        return None;
    }
    if s[from] == '\n' && s[from + 1] == '-' && s[from + 2] == '-' && s[from + 3] == '-' {
        assert(s@.subrange(from as int, from + 4) =~= "\n---"@);
        Some(from)
    } else {
        assert(s@.subrange(from as int, from + 4) != "\n---"@) by {
            if s@.subrange(from as int, from + 4) == "\n---"@ {
                assert(s@.subrange(from as int, from + 4)[0] == s@[from as int]);
                assert(s@.subrange(from as int, from + 4)[1] == s@[from + 1]);
                assert(s@.subrange(from as int, from + 4)[2] == s@[from + 2]);
                assert(s@.subrange(from as int, from + 4)[3] == s@[from + 3]);
            }
        }
        find_marker(s, from + 1)
    }
}

/// Splits a SKILL.md text into its YAML frontmatter and its Markdown body.
pub fn split_frontmatter(content: &str) -> (r: Result<(String, String), SkillError>)
    ensures
        match frontmatter_split(content@) {
            Ok((f, b)) => r matches Ok((fm, body)) && fm@ == f && body@ == b,
            Err(m) => r matches Err(SkillError::ValidationError(msg)) && msg@ == m,
        },
{
    proof {
        reveal_strlit("---\n");
    }
    let all = to_chars(content);
    let start = trim_start_at(&all);
    let c = chars_slice(&all, start, all.len());
    assert(c@ == trim_start(content@));
    if !(c.len() >= 4 && c[0] == '-' && c[1] == '-' && c[2] == '-' && c[3] == '\n') {
        assert(!(c@.len() >= 4 && c@.take(4) == "---\n"@)) by {
            if c@.len() >= 4 && c@.take(4) == "---\n"@ {
                assert(c@.take(4)[0] == c@[0]);
                assert(c@.take(4)[1] == c@[1]);
                assert(c@.take(4)[2] == c@[2]);
                assert(c@.take(4)[3] == c@[3]);
            }
        }
        return Err(SkillError::ValidationError(string_from_str("SKILL.md must start with YAML frontmatter")));
    }
    assert(c@.take(4) =~= "---\n"@);
    let rest = chars_slice(&c, 4, c.len());
    assert(rest@ == c@.skip(4));
    let end = match find_marker(&rest, 0) {
        Some(e) => e,
        None => {
            return Err(SkillError::ValidationError(string_from_str("SKILL.md frontmatter is not closed")));
        },
    };
    proof {
        lemma_find_from_bounds(rest@, "\n---"@, 0);
        reveal_strlit("\n---");
    }
    let frontmatter = chars_slice(&rest, 0, end);
    let after = chars_slice(&rest, end + 4, rest.len());
    let body = if after.len() > 0 && after[0] == '\n' {
        chars_slice(&after, 1, after.len())
    } else {
        after
    };
    assert(frontmatter@ == rest@.take(end as int));
    assert(after@ == rest@.skip(end + 4));
    Ok((string_from_chars(&frontmatter), string_from_chars(&body)))
}

proof fn lemma_find_from_bounds(s: Seq<char>, pat: Seq<char>, from: int)
    ensures
        find_from(s, pat, from) matches Some(i) ==> from <= i && i + pat.len() <= s.len(),
    decreases s.len() + 1 - from,
{
    if !(from < 0 || from + pat.len() > s.len()) && s.subrange(from, from + pat.len()) != pat {
        lemma_find_from_bounds(s, pat, from + 1);
    }
}

proof fn lemma_find_none_means_no_match(s: Seq<char>, pat: Seq<char>, from: int, i: int)
    requires
        0 <= from <= i,
        i + pat.len() <= s.len(),
        find_from(s, pat, from) is None,
    ensures
        s.subrange(i, i + pat.len()) != pat,
    decreases i - from,
{
    if from < i {
        lemma_find_none_means_no_match(s, pat, from + 1, i);
    }
}

proof fn lemma_find_first(s: Seq<char>, pat: Seq<char>, from: int, k: int)
    requires
        0 <= from <= k,
        k + pat.len() <= s.len(),
        forall|i: int| from <= i < k ==> #[trigger] s.subrange(i, i + pat.len()) != pat,
        s.subrange(k, k + pat.len()) == pat,
    ensures
        find_from(s, pat, from) == Some(k),
    decreases k - from,
{
    if from < k {
        lemma_find_first(s, pat, from + 1, k);
    }
}

/// A SKILL.md text made of a `---` line, frontmatter `f`, a `---` line and body `b`
/// splits back into `f` and `b`, where `f` holds no line that starts with `---`.
pub proof fn law_split_recovers_parts(f: Seq<char>, b: Seq<char>)
    requires
        find_from(f, "\n---"@, 0) is None,
    ensures
        frontmatter_split("---\n"@ + f + "\n---\n"@ + b) == Ok::<(Seq<char>, Seq<char>), Seq<char>>((f, b)),
{
    reveal_strlit("---\n");
    reveal_strlit("\n---");
    reveal_strlit("\n---\n");
    let pat = "\n---"@;
    let content = "---\n"@ + f + "\n---\n"@ + b;
    assert(content[0] == '-');
    assert(trim_start_index(content) == 0);
    assert(trim_start(content) =~= content);
    assert(content.take(4) =~= "---\n"@);
    let rest = content.skip(4);
    assert(rest =~= f + "\n---\n"@ + b);
    let k = f.len() as int;
    assert forall|i: int| 0 <= i < k implies #[trigger] rest.subrange(i, i + pat.len()) != pat by {
        if i + 4 <= k {
            lemma_find_none_means_no_match(f, pat, 0, i);
            assert(rest.subrange(i, i + 4) =~= f.subrange(i, i + 4));
        } else {
            let d = k - i;
            assert(rest[k] == '\n');
            assert(rest.subrange(i, i + 4)[d] == '\n');
            assert(pat[d] == '-');
        }
    }
    assert(rest.subrange(k, k + 4) =~= pat);
    lemma_find_first(rest, pat, 0, k);
    assert(rest.take(k) =~= f);
    let after = rest.skip(k + 4);
    assert(after =~= seq!['\n'] + b);
    assert(after.skip(1) =~= b);
}

/// Whether `c` may stand in a skill name: a lower-case ASCII letter, a digit or a hyphen.
pub open spec fn name_char(c: char) -> bool {
    ('a' <= c && c <= 'z') || ('0' <= c && c <= '9') || c == '-'
}

/// The message of the first rule that a skill's name and description break: the name
/// has 1 to 64 bytes of lower-case letters, digits and hyphens, neither starts nor ends
/// with a hyphen and holds no two hyphens in a row; the description has 1 to 1024
/// characters.
pub open spec fn metadata_failure(name: Seq<char>, description: Seq<char>) -> Option<Seq<char>> {
    if name.len() == 0 || encode_utf8(name).len() > 64 {
        Some("Skill name must be 1-64 characters"@)
    } else if exists|i: int| 0 <= i < name.len() && !name_char(#[trigger] name[i]) {
        Some("Skill name must contain only lowercase letters, numbers, and hyphens"@)
    } else if name[0] == '-' || name.last() == '-' {
        Some("Skill name cannot start or end with a hyphen"@)
    } else if exists|i: int| 0 <= i < name.len() - 1 && #[trigger] name[i] == '-' && name[i + 1] == '-' {
        Some("Skill name cannot contain consecutive hyphens"@)
    } else if description.len() == 0 || description.len() > 1024 {
        Some("Skill description must be 1-1024 characters"@)
    } else {
        None
    }
}

/// Checks the name and description of skill metadata.
pub fn validate_metadata(metadata: &SkillMetadata) -> (r: Result<(), SkillError>)
    ensures
        match metadata_failure(metadata.name@, metadata.description@) {
            None => r is Ok,
            Some(m) => r matches Err(SkillError::ValidationError(msg)) && msg@ == m,
        },
{
    let name = to_chars(metadata.name.as_str());
    if name.len() == 0 || metadata.name.as_str().as_bytes().len() > 64 {
        return Err(SkillError::ValidationError(string_from_str("Skill name must be 1-64 characters")));
    }
    let mut i: usize = 0;
    while i < name.len()
        invariant
            name@ == metadata.name@,
            name@.len() > 0,
            encode_utf8(metadata.name@).len() <= 64,
            i <= name@.len(),
            forall|j: int| 0 <= j < i ==> name_char(#[trigger] name@[j]),
        decreases name@.len() - i,
    {
        let c = name[i];
        if !(('a' <= c && c <= 'z') || ('0' <= c && c <= '9') || c == '-') {
            assert(!name_char(name@[i as int]));
            assert(!name_char(metadata.name@[i as int]));
            assert(metadata_failure(metadata.name@, metadata.description@) == Some(
                "Skill name must contain only lowercase letters, numbers, and hyphens"@,
            ));
            return Err(
                SkillError::ValidationError(
                    string_from_str(
                        "Skill name must contain only lowercase letters, numbers, and hyphens",
                    ),
                ),
            );
        }
        i = i + 1;
    }
    if name[0] == '-' || name[name.len() - 1] == '-' {
        return Err(
            SkillError::ValidationError(string_from_str("Skill name cannot start or end with a hyphen")),
        );
    }
    let mut i: usize = 0;
    while i < name.len() - 1
        invariant
            name@ == metadata.name@,
            name@.len() >= 1,
            encode_utf8(metadata.name@).len() <= 64,
            forall|j: int| 0 <= j < name@.len() ==> name_char(#[trigger] name@[j]),
            name@[0] != '-' && name@.last() != '-',
            i + 1 <= name@.len(),
            forall|j: int| 0 <= j < i ==> !(#[trigger] name@[j] == '-' && name@[j + 1] == '-'),
        decreases name@.len() - i,
    {
        if name[i] == '-' && name[i + 1] == '-' {
            assert(metadata.name@[i as int] == '-' && metadata.name@[i + 1] == '-');
            assert(metadata_failure(metadata.name@, metadata.description@) == Some(
                "Skill name cannot contain consecutive hyphens"@,
            ));
            return Err(
                SkillError::ValidationError(
                    string_from_str("Skill name cannot contain consecutive hyphens"),
                ),
            );
        }
        i = i + 1;
    }
    let dn = to_chars(metadata.description.as_str()).len();
    if dn == 0 || dn > 1024 {
        return Err(
            SkillError::ValidationError(string_from_str("Skill description must be 1-1024 characters")),
        );
    }
    Ok(())
}

/// Parser for the SKILL.md format.
pub struct SkillParser;

impl SkillParser {
    pub fn new() -> (p: Self) {
        SkillParser
    }

    /// The document that checked metadata and a body make: the metadata must meet the
    /// rules of `validate_metadata`, and the body is kept without surrounding white
    /// space.
    pub fn document(&self, metadata: SkillMetadata, body: &str) -> (r: Result<SkillDocument, SkillError>)
        ensures
            match metadata_failure(metadata.name@, metadata.description@) {
                None => r matches Ok(d) && d.metadata == metadata && d.body@ == trim(body@),
                Some(m) => r matches Err(SkillError::ValidationError(msg)) && msg@ == m,
            },
    {
        match validate_metadata(&metadata) {
            Ok(()) => {},
            Err(e) => {
                return Err(e);
            },
        }
        let b = trim_chars(&to_chars(body));
        Ok(SkillDocument { metadata, body: string_from_chars(&b) })
    }
}

impl Default for SkillParser {
    fn default() -> (p: Self) {
        SkillParser::new()
    }
}

/// The registry of published skills. It stores none yet: every listing is empty.
pub struct SkillRegistry;

impl SkillRegistry {
    /// The number of registered skills.
    pub fn count(&self) -> (r: u32)
        ensures
            r == 0,
    {
        0
    }
}

} // verus!
