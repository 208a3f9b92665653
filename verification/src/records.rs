//! The stored records of skills, snippets, tools and git repositories: how a new
//! record is made from a creation request, how an update request changes a stored
//! record, the values that the repositories bind to their INSERT and UPDATE
//! statements, and how a stored row is read back (a row that stores a record reads
//! back as that record).

use vstd::prelude::*;
use crate::query::{estimate_tokens, runtime_name, visibility_name, Dialect, Runtime, Visibility};
use crate::text::string_from_str;
use crate::ids::{parse_uuid, uuid_parse};
use crate::query::{stored_runtime, stored_visibility};
use crate::json::{
    encode_string_array, json_array, json_encode_string, json_list, json_string, json_string_array,
    json_decode_strings, json_kind, json_strings_parse, json_value_kind, lemma_json_list_step,
    push_element, strings_view,
};

verus! {

// ---------------------------------------------------------------------------
// Values bound to statements
// ---------------------------------------------------------------------------

/// A value bound to a placeholder of a statement.
#[derive(Debug, Clone, PartialEq, Eq)]
pub enum SqlValue {
    Null,
    Int(i64),
    Text(String),
}

/// What a bound value denotes.
pub enum SqlDatum {
    Null,
    Int(int),
    Text(Seq<char>),
}

impl View for SqlValue {
    type V = SqlDatum;

    open spec fn view(&self) -> SqlDatum {
        match self {
            SqlValue::Null => SqlDatum::Null,
            SqlValue::Int(i) => SqlDatum::Int(*i as int),
            SqlValue::Text(s) => SqlDatum::Text(s@),
        }
    }
}

/// The values of a list of bound values.
pub open spec fn datums(v: Seq<SqlValue>) -> Seq<SqlDatum> {
    v.map_values(|x: SqlValue| x@)
}

/// A text value, or NULL where there is none.
pub open spec fn text_or_null(o: Option<Seq<char>>) -> SqlDatum {
    match o {
        Some(t) => SqlDatum::Text(t),
        None => SqlDatum::Null,
    }
}

/// The view of an optional string.
pub open spec fn opt_view(o: Option<String>) -> Option<Seq<char>> {
    match o {
        Some(s) => Some(s@),
        None => None,
    }
}

/// A flag as the integer the tables store: 1 or 0.
pub open spec fn flag(b: bool) -> int {
    if b {
        1
    } else {
        0
    }
}

fn text_value(s: &str) -> (v: SqlValue)
    ensures
        v@ == SqlDatum::Text(s@),
{
    SqlValue::Text(string_from_str(s))
}

fn opt_value(o: Option<String>) -> (v: SqlValue)
    ensures
        v@ == text_or_null(opt_view(o)),
{
    match o {
        Some(s) => SqlValue::Text(s),
        None => SqlValue::Null,
    }
}

fn flag_value(b: bool) -> (v: SqlValue)
    ensures
        v@ == SqlDatum::Int(flag(b)),
{
    if b {
        SqlValue::Int(1)
    } else {
        SqlValue::Int(0)
    }
}

/// A dependency of a skill: a package and its version.
#[derive(Debug, Clone, PartialEq, Eq)]
pub struct SkillDependency {
    pub name: String,
    pub version: String,
}

/// A dependency of a snippet: a package, its version, and whether it is required.
#[derive(Debug, Clone, PartialEq, Eq)]
pub struct SnippetDependency {
    pub name: String,
    pub version: String,
    pub required: bool,
}

/// The JSON object of a skill dependency, its fields in declaration order.
pub open spec fn json_skill_dependency(d: SkillDependency) -> Seq<char> {
    "{\"name\":"@ + json_string(d.name@) + ",\"version\":"@ + json_string(d.version@) + "}"@
}

/// The JSON object of a snippet dependency, its fields in declaration order.
pub open spec fn json_snippet_dependency(d: SnippetDependency) -> Seq<char> {
    "{\"name\":"@ + json_string(d.name@) + ",\"version\":"@ + json_string(d.version@)
        + ",\"required\":"@ + (if d.required {
        "true"@
    } else {
        "false"@
    }) + "}"@
}

/// The JSON array of a skill's dependencies.
pub open spec fn json_skill_dependencies(v: Seq<SkillDependency>) -> Seq<char> {
    json_array(v.map_values(|d: SkillDependency| json_skill_dependency(d)))
}

/// The JSON array of a snippet's dependencies.
pub open spec fn json_snippet_dependencies(v: Seq<SnippetDependency>) -> Seq<char> {
    json_array(v.map_values(|d: SnippetDependency| json_snippet_dependency(d)))
}

fn skill_dependency_json(d: &SkillDependency) -> (r: String)
    ensures
        r@ == json_skill_dependency(*d),
{
    let mut r = string_from_str("{\"name\":");
    r.append(json_encode_string(d.name.as_str()).as_str());
    r.append(",\"version\":");
    r.append(json_encode_string(d.version.as_str()).as_str());
    r.append("}");
    r
}

fn snippet_dependency_json(d: &SnippetDependency) -> (r: String)
    ensures
        r@ == json_snippet_dependency(*d),
{
    let mut r = string_from_str("{\"name\":");
    r.append(json_encode_string(d.name.as_str()).as_str());
    r.append(",\"version\":");
    r.append(json_encode_string(d.version.as_str()).as_str());
    r.append(",\"required\":");
    if d.required {
        r.append("true");
    } else {
        r.append("false");
    }
    r.append("}");
    r
}

/// The JSON text that the repositories store for a skill's dependencies (the
/// serialisation of the list: an array of objects with the name and the version).
pub fn encode_skill_dependencies(deps: &Vec<SkillDependency>) -> (r: String)
    ensures
        r@ == json_skill_dependencies(deps@),
{
    let ghost texts = deps@.map_values(|d: SkillDependency| json_skill_dependency(d));
    let mut out = string_from_str("[");
    proof {
        reveal_strlit("[");
        reveal_strlit("]");
        assert(texts.take(0) =~= Seq::<Seq<char>>::empty());
    }
    let mut i: usize = 0;
    while i < deps.len()
        invariant
            i <= deps@.len(),
            texts.len() == deps@.len(),
            forall|j: int| 0 <= j < deps@.len() ==> #[trigger] texts[j] == json_skill_dependency(deps@[j]),
            out@ == seq!['['] + json_list(texts.take(i as int)),
        decreases deps@.len() - i,
    {
        let e = skill_dependency_json(&deps[i]);
        proof {
            lemma_json_list_step(texts, i as int);
        }
        push_element(&mut out, e.as_str(), i == 0);
        i = i + 1;
    }
    out.append("]");
    assert(texts.take(deps@.len() as int) =~= texts);
    out
}

/// The JSON text that the repositories store for a snippet's dependencies (an array
/// of objects with the name, the version and whether it is required).
pub fn encode_snippet_dependencies(deps: &Vec<SnippetDependency>) -> (r: String)
    ensures
        r@ == json_snippet_dependencies(deps@),
{
    let ghost texts = deps@.map_values(|d: SnippetDependency| json_snippet_dependency(d));
    let mut out = string_from_str("[");
    proof {
        reveal_strlit("[");
        reveal_strlit("]");
        assert(texts.take(0) =~= Seq::<Seq<char>>::empty());
    }
    let mut i: usize = 0;
    while i < deps.len()
        invariant
            i <= deps@.len(),
            texts.len() == deps@.len(),
            forall|j: int| 0 <= j < deps@.len() ==> #[trigger] texts[j] == json_snippet_dependency(deps@[j]),
            out@ == seq!['['] + json_list(texts.take(i as int)),
        decreases deps@.len() - i,
    {
        let e = snippet_dependency_json(&deps[i]);
        proof {
            lemma_json_list_step(texts, i as int);
        }
        push_element(&mut out, e.as_str(), i == 0);
        i = i + 1;
    }
    out.append("]");
    assert(texts.take(deps@.len() as int) =~= texts);
    out
}

/// The first of two optional values that is present (`a.or(b)`).
pub open spec fn first_present<T>(a: Option<T>, b: Option<T>) -> Option<T> {
    if a is Some {
        a
    } else {
        b
    }
}

fn or_keep<T>(a: Option<T>, b: Option<T>) -> (r: Option<T>)
    ensures
        r == first_present(a, b),
{
    match a {
        Some(x) => Some(x),
        None => b,
    }
}

// ---------------------------------------------------------------------------
// Skills
// ---------------------------------------------------------------------------

/// A stored skill. Structured fields (the permissions) are held as their JSON text;
/// identifiers are UUIDs as integers and times are Unix seconds.
#[derive(Debug, Clone)]
pub struct Skill {
    pub id: u128,
    pub name: String,
    pub version: String,
    pub description: String,
    pub skill_md: String,
    pub code_package_path: Option<String>,
    pub runtime: Runtime,
    pub dependencies: Vec<SkillDependency>,
    pub owner_id: u128,
    pub tenant_id: u128,
    pub visibility: Visibility,
    pub author: Option<String>,
    pub tags: Vec<String>,
    pub skill_type: String,
    pub execution: String,
    pub entrypoint: Option<String>,
    pub timeout: i32,
    pub memory_mb: i32,
    pub permissions: Option<String>,
    pub license: Option<String>,
    pub compatibility: Option<String>,
    pub disable_model_invocation: bool,
    pub user_invocable: bool,
    pub argument_hint: Option<String>,
    pub created_at: i64,
    pub updated_at: i64,
}

/// A request to publish a skill.
#[derive(Debug, Clone)]
pub struct NewSkill {
    pub name: String,
    pub version: String,
    pub description: String,
    pub skill_md: String,
    pub code_package_path: Option<String>,
    pub runtime: Runtime,
    pub dependencies: Vec<SkillDependency>,
    pub visibility: Option<Visibility>,
    pub author: Option<String>,
    pub tags: Vec<String>,
    pub skill_type: String,
    pub execution: String,
    pub entrypoint: Option<String>,
    pub timeout: i32,
    pub memory_mb: i32,
    pub permissions: Option<String>,
    pub license: Option<String>,
    pub compatibility: Option<String>,
    pub disable_model_invocation: bool,
    pub user_invocable: bool,
    pub argument_hint: Option<String>,
}

/// A request to change a skill: each field that is present replaces the stored one.
#[derive(Debug, Clone)]
pub struct UpdateSkill {
    pub name: Option<String>,
    pub version: Option<String>,
    pub description: Option<String>,
    pub skill_md: Option<String>,
    pub runtime: Option<Runtime>,
    pub dependencies: Option<Vec<SkillDependency>>,
    pub visibility: Option<Visibility>,
    pub author: Option<String>,
    pub tags: Option<Vec<String>>,
    pub skill_type: Option<String>,
    pub execution: Option<String>,
    pub entrypoint: Option<String>,
    pub timeout: Option<i32>,
    pub memory_mb: Option<i32>,
    pub permissions: Option<String>,
    pub license: Option<String>,
    pub compatibility: Option<String>,
    pub disable_model_invocation: Option<bool>,
    pub user_invocable: Option<bool>,
    pub argument_hint: Option<String>,
}

/// The record of a newly published skill with identifier `id`, owned by `owner` in
/// `tenant`, at time `now`: the request's fields, private unless it asks otherwise.
pub fn new_skill_record(new: NewSkill, id: u128, owner: u128, tenant: u128, now: i64) -> (k: Skill)
    ensures
        k.id == id,
        k.owner_id == owner,
        k.tenant_id == tenant,
        k.visibility == new.visibility.unwrap_or(Visibility::Private),
        k.created_at == now,
        k.updated_at == now,
        k.name == new.name,
        k.version == new.version,
        k.description == new.description,
        k.skill_md == new.skill_md,
        k.code_package_path == new.code_package_path,
        k.runtime == new.runtime,
        k.dependencies == new.dependencies,
        k.author == new.author,
        k.tags == new.tags,
        k.skill_type == new.skill_type,
        k.execution == new.execution,
        k.entrypoint == new.entrypoint,
        k.timeout == new.timeout,
        k.memory_mb == new.memory_mb,
        k.permissions == new.permissions,
        k.license == new.license,
        k.compatibility == new.compatibility,
        k.disable_model_invocation == new.disable_model_invocation,
        k.user_invocable == new.user_invocable,
        k.argument_hint == new.argument_hint,
{
    Skill {
        id,
        name: new.name,
        version: new.version,
        description: new.description,
        skill_md: new.skill_md,
        code_package_path: new.code_package_path,
        runtime: new.runtime,
        dependencies: new.dependencies,
        owner_id: owner,
        tenant_id: tenant,
        visibility: new.visibility.unwrap_or(Visibility::Private),
        author: new.author,
        tags: new.tags,
        skill_type: new.skill_type,
        execution: new.execution,
        entrypoint: new.entrypoint,
        timeout: new.timeout,
        memory_mb: new.memory_mb,
        permissions: new.permissions,
        license: new.license,
        compatibility: new.compatibility,
        disable_model_invocation: new.disable_model_invocation,
        user_invocable: new.user_invocable,
        argument_hint: new.argument_hint,
        created_at: now,
        updated_at: now,
    }
}

/// A stored skill after an update at time `now`: each field of the request that is
/// present replaces the stored one; the identifier, owner, tenant, code package and
/// creation time stay.
pub fn apply_skill_update(existing: Skill, u: UpdateSkill, now: i64) -> (s: Skill)
    ensures
        s.id == existing.id,
        s.owner_id == existing.owner_id,
        s.tenant_id == existing.tenant_id,
        s.code_package_path == existing.code_package_path,
        s.created_at == existing.created_at,
        s.updated_at == now,
        s.name == u.name.unwrap_or(existing.name),
        s.version == u.version.unwrap_or(existing.version),
        s.description == u.description.unwrap_or(existing.description),
        s.skill_md == u.skill_md.unwrap_or(existing.skill_md),
        s.runtime == u.runtime.unwrap_or(existing.runtime),
        s.dependencies == u.dependencies.unwrap_or(existing.dependencies),
        s.visibility == u.visibility.unwrap_or(existing.visibility),
        s.author == first_present(u.author, existing.author),
        s.tags == u.tags.unwrap_or(existing.tags),
        s.skill_type == u.skill_type.unwrap_or(existing.skill_type),
        s.execution == u.execution.unwrap_or(existing.execution),
        s.entrypoint == first_present(u.entrypoint, existing.entrypoint),
        s.timeout == u.timeout.unwrap_or(existing.timeout),
        s.memory_mb == u.memory_mb.unwrap_or(existing.memory_mb),
        s.permissions == first_present(u.permissions, existing.permissions),
        s.license == first_present(u.license, existing.license),
        s.compatibility == first_present(u.compatibility, existing.compatibility),
        s.disable_model_invocation == u.disable_model_invocation.unwrap_or(
            existing.disable_model_invocation,
        ),
        s.user_invocable == u.user_invocable.unwrap_or(existing.user_invocable),
        s.argument_hint == first_present(u.argument_hint, existing.argument_hint),
{
    Skill {
        id: existing.id,
        name: u.name.unwrap_or(existing.name),
        version: u.version.unwrap_or(existing.version),
        description: u.description.unwrap_or(existing.description),
        skill_md: u.skill_md.unwrap_or(existing.skill_md),
        code_package_path: existing.code_package_path,
        runtime: u.runtime.unwrap_or(existing.runtime),
        dependencies: u.dependencies.unwrap_or(existing.dependencies),
        owner_id: existing.owner_id,
        tenant_id: existing.tenant_id,
        visibility: u.visibility.unwrap_or(existing.visibility),
        author: or_keep(u.author, existing.author),
        tags: u.tags.unwrap_or(existing.tags),
        skill_type: u.skill_type.unwrap_or(existing.skill_type),
        execution: u.execution.unwrap_or(existing.execution),
        entrypoint: or_keep(u.entrypoint, existing.entrypoint),
        timeout: u.timeout.unwrap_or(existing.timeout),
        memory_mb: u.memory_mb.unwrap_or(existing.memory_mb),
        permissions: or_keep(u.permissions, existing.permissions),
        license: or_keep(u.license, existing.license),
        compatibility: or_keep(u.compatibility, existing.compatibility),
        disable_model_invocation: u.disable_model_invocation.unwrap_or(
            existing.disable_model_invocation,
        ),
        user_invocable: u.user_invocable.unwrap_or(existing.user_invocable),
        argument_hint: or_keep(u.argument_hint, existing.argument_hint),
        created_at: existing.created_at,
        updated_at: now,
    }
}

/// The text of the statement that stores a new skill in SQLite.
pub open spec fn skill_insert_sql() -> Seq<char> {
    "INSERT INTO skills (id, name, version, description, skill_md, code_package_path, runtime, dependencies, visibility, owner_id, tenant_id, author, tags, skill_type, execution, entrypoint, timeout, memory_mb, permissions, license, compatibility, disable_model_invocation, user_invocable, argument_hint, created_at, updated_at) VALUES (?, ?, ?, ?, ?, ?, ?, ?, ?, ?, ?, ?, ?, ?, ?, ?, ?, ?, ?, ?, ?, ?, ?, ?, ?, ?)"@
}

/// The text of the statement that rewrites a stored skill in SQLite.
pub open spec fn skill_update_sql() -> Seq<char> {
    "UPDATE skills SET name = ?, version = ?, description = ?, skill_md = ?, runtime = ?, dependencies = ?, visibility = ?, author = ?, tags = ?, skill_type = ?, execution = ?, entrypoint = ?, timeout = ?, memory_mb = ?, permissions = ?, license = ?, compatibility = ?, disable_model_invocation = ?, user_invocable = ?, argument_hint = ?, updated_at = ? WHERE id = ?"@
}

/// The values that the statement storing the new skill `k` binds, in column order,
/// with the texts of its identifier, owner and tenant and of the creation time.
pub open spec fn skill_insert_datums(k: Skill, id: Seq<char>, owner: Seq<char>, tenant: Seq<char>, now: Seq<char>) -> Seq<SqlDatum> {
    seq![
        SqlDatum::Text(id),
        SqlDatum::Text(k.name@),
        SqlDatum::Text(k.version@),
        SqlDatum::Text(k.description@),
        SqlDatum::Text(k.skill_md@),
        text_or_null(opt_view(k.code_package_path)),
        SqlDatum::Text(runtime_name(k.runtime)),
        SqlDatum::Text(json_skill_dependencies(k.dependencies@)),
        SqlDatum::Text(visibility_name(k.visibility)),
        SqlDatum::Text(owner),
        SqlDatum::Text(tenant),
        text_or_null(opt_view(k.author)),
        SqlDatum::Text(json_string_array(strings_view(k.tags@))),
        SqlDatum::Text(k.skill_type@),
        SqlDatum::Text(k.execution@),
        text_or_null(opt_view(k.entrypoint)),
        SqlDatum::Int(k.timeout as int),
        SqlDatum::Int(k.memory_mb as int),
        text_or_null(opt_view(k.permissions)),
        text_or_null(opt_view(k.license)),
        text_or_null(opt_view(k.compatibility)),
        SqlDatum::Int(flag(k.disable_model_invocation)),
        SqlDatum::Int(flag(k.user_invocable)),
        text_or_null(opt_view(k.argument_hint)),
        SqlDatum::Text(now),
        SqlDatum::Text(now),
    ]
}

/// The statement that stores the new skill `k` in SQLite, with the texts of its
/// identifier, owner and tenant and of the creation time: its text and the values
/// bound to its placeholders, in order.
pub fn skill_insert_statement(k: Skill, id: &str, owner: &str, tenant: &str, now: &str) -> (r: (
    String,
    Vec<SqlValue>,
))
    ensures
        r.0@ == skill_insert_sql(),
        datums(r.1@) == seq![
            SqlDatum::Text(id@),
            SqlDatum::Text(k.name@),
            SqlDatum::Text(k.version@),
            SqlDatum::Text(k.description@),
            SqlDatum::Text(k.skill_md@),
            text_or_null(opt_view(k.code_package_path)),
            SqlDatum::Text(runtime_name(k.runtime)),
            SqlDatum::Text(json_skill_dependencies(k.dependencies@)),
            SqlDatum::Text(visibility_name(k.visibility)),
            SqlDatum::Text(owner@),
            SqlDatum::Text(tenant@),
            text_or_null(opt_view(k.author)),
            SqlDatum::Text(json_string_array(strings_view(k.tags@))),
            SqlDatum::Text(k.skill_type@),
            SqlDatum::Text(k.execution@),
            text_or_null(opt_view(k.entrypoint)),
            SqlDatum::Int(k.timeout as int),
            SqlDatum::Int(k.memory_mb as int),
            text_or_null(opt_view(k.permissions)),
            text_or_null(opt_view(k.license)),
            text_or_null(opt_view(k.compatibility)),
            SqlDatum::Int(flag(k.disable_model_invocation)),
            SqlDatum::Int(flag(k.user_invocable)),
            text_or_null(opt_view(k.argument_hint)),
            SqlDatum::Text(now@),
            SqlDatum::Text(now@),
        ],
{
    let ghost k0 = k;
    let deps = encode_skill_dependencies(&k.dependencies);
    let tags = encode_string_array(&k.tags);
    let mut v: Vec<SqlValue> = Vec::new();
    v.push(text_value(id));
    v.push(SqlValue::Text(k.name));
    v.push(SqlValue::Text(k.version));
    v.push(SqlValue::Text(k.description));
    v.push(SqlValue::Text(k.skill_md));
    v.push(opt_value(k.code_package_path));
    v.push(text_value(k.runtime.as_str()));
    v.push(SqlValue::Text(deps));
    v.push(text_value(k.visibility.as_str()));
    v.push(text_value(owner));
    v.push(text_value(tenant));
    v.push(opt_value(k.author));
    v.push(SqlValue::Text(tags));
    v.push(SqlValue::Text(k.skill_type));
    v.push(SqlValue::Text(k.execution));
    v.push(opt_value(k.entrypoint));
    v.push(SqlValue::Int(k.timeout as i64));
    v.push(SqlValue::Int(k.memory_mb as i64));
    v.push(opt_value(k.permissions));
    v.push(opt_value(k.license));
    v.push(opt_value(k.compatibility));
    v.push(flag_value(k.disable_model_invocation));
    v.push(flag_value(k.user_invocable));
    v.push(opt_value(k.argument_hint));
    v.push(text_value(now));
    v.push(text_value(now));
    let sql = string_from_str(
        "INSERT INTO skills (id, name, version, description, skill_md, code_package_path, runtime, dependencies, visibility, owner_id, tenant_id, author, tags, skill_type, execution, entrypoint, timeout, memory_mb, permissions, license, compatibility, disable_model_invocation, user_invocable, argument_hint, created_at, updated_at) VALUES (?, ?, ?, ?, ?, ?, ?, ?, ?, ?, ?, ?, ?, ?, ?, ?, ?, ?, ?, ?, ?, ?, ?, ?, ?, ?)",
    );
    assert(datums(v@) =~= seq![
        SqlDatum::Text(id@),
        SqlDatum::Text(k0.name@),
        SqlDatum::Text(k0.version@),
        SqlDatum::Text(k0.description@),
        SqlDatum::Text(k0.skill_md@),
        text_or_null(opt_view(k0.code_package_path)),
        SqlDatum::Text(runtime_name(k0.runtime)),
        SqlDatum::Text(json_skill_dependencies(k0.dependencies@)),
        SqlDatum::Text(visibility_name(k0.visibility)),
        SqlDatum::Text(owner@),
        SqlDatum::Text(tenant@),
        text_or_null(opt_view(k0.author)),
        SqlDatum::Text(json_string_array(strings_view(k0.tags@))),
        SqlDatum::Text(k0.skill_type@),
        SqlDatum::Text(k0.execution@),
        text_or_null(opt_view(k0.entrypoint)),
        SqlDatum::Int(k0.timeout as int),
        SqlDatum::Int(k0.memory_mb as int),
        text_or_null(opt_view(k0.permissions)),
        text_or_null(opt_view(k0.license)),
        text_or_null(opt_view(k0.compatibility)),
        SqlDatum::Int(flag(k0.disable_model_invocation)),
        SqlDatum::Int(flag(k0.user_invocable)),
        text_or_null(opt_view(k0.argument_hint)),
        SqlDatum::Text(now@),
        SqlDatum::Text(now@),
    ]);
    (sql, v)
}

/// The statement that rewrites the stored skill with identifier text `id` to `s` in
/// SQLite at time `now`: its text and the values bound to its placeholders, in order.
pub fn skill_update_statement(s: Skill, id: &str, now: &str) -> (r: (String, Vec<SqlValue>))
    ensures
        r.0@ == skill_update_sql(),
        datums(r.1@) == seq![
            SqlDatum::Text(s.name@),
            SqlDatum::Text(s.version@),
            SqlDatum::Text(s.description@),
            SqlDatum::Text(s.skill_md@),
            SqlDatum::Text(runtime_name(s.runtime)),
            SqlDatum::Text(json_skill_dependencies(s.dependencies@)),
            SqlDatum::Text(visibility_name(s.visibility)),
            text_or_null(opt_view(s.author)),
            SqlDatum::Text(json_string_array(strings_view(s.tags@))),
            SqlDatum::Text(s.skill_type@),
            SqlDatum::Text(s.execution@),
            text_or_null(opt_view(s.entrypoint)),
            SqlDatum::Int(s.timeout as int),
            SqlDatum::Int(s.memory_mb as int),
            text_or_null(opt_view(s.permissions)),
            text_or_null(opt_view(s.license)),
            text_or_null(opt_view(s.compatibility)),
            SqlDatum::Int(flag(s.disable_model_invocation)),
            SqlDatum::Int(flag(s.user_invocable)),
            text_or_null(opt_view(s.argument_hint)),
            SqlDatum::Text(now@),
            SqlDatum::Text(id@),
        ],
{
    let ghost s0 = s;
    let deps = encode_skill_dependencies(&s.dependencies);
    let tags = encode_string_array(&s.tags);
    let mut v: Vec<SqlValue> = Vec::new();
    v.push(SqlValue::Text(s.name));
    v.push(SqlValue::Text(s.version));
    v.push(SqlValue::Text(s.description));
    v.push(SqlValue::Text(s.skill_md));
    v.push(text_value(s.runtime.as_str()));
    v.push(SqlValue::Text(deps));
    v.push(text_value(s.visibility.as_str()));
    v.push(opt_value(s.author));
    v.push(SqlValue::Text(tags));
    v.push(SqlValue::Text(s.skill_type));
    v.push(SqlValue::Text(s.execution));
    v.push(opt_value(s.entrypoint));
    v.push(SqlValue::Int(s.timeout as i64));
    v.push(SqlValue::Int(s.memory_mb as i64));
    v.push(opt_value(s.permissions));
    v.push(opt_value(s.license));
    v.push(opt_value(s.compatibility));
    v.push(flag_value(s.disable_model_invocation));
    v.push(flag_value(s.user_invocable));
    v.push(opt_value(s.argument_hint));
    v.push(text_value(now));
    v.push(text_value(id));
    let sql = string_from_str(
        "UPDATE skills SET name = ?, version = ?, description = ?, skill_md = ?, runtime = ?, dependencies = ?, visibility = ?, author = ?, tags = ?, skill_type = ?, execution = ?, entrypoint = ?, timeout = ?, memory_mb = ?, permissions = ?, license = ?, compatibility = ?, disable_model_invocation = ?, user_invocable = ?, argument_hint = ?, updated_at = ? WHERE id = ?",
    );
    assert(datums(v@) =~= seq![
        SqlDatum::Text(s0.name@),
        SqlDatum::Text(s0.version@),
        SqlDatum::Text(s0.description@),
        SqlDatum::Text(s0.skill_md@),
        SqlDatum::Text(runtime_name(s0.runtime)),
        SqlDatum::Text(json_skill_dependencies(s0.dependencies@)),
        SqlDatum::Text(visibility_name(s0.visibility)),
        text_or_null(opt_view(s0.author)),
        SqlDatum::Text(json_string_array(strings_view(s0.tags@))),
        SqlDatum::Text(s0.skill_type@),
        SqlDatum::Text(s0.execution@),
        text_or_null(opt_view(s0.entrypoint)),
        SqlDatum::Int(s0.timeout as int),
        SqlDatum::Int(s0.memory_mb as int),
        text_or_null(opt_view(s0.permissions)),
        text_or_null(opt_view(s0.license)),
        text_or_null(opt_view(s0.compatibility)),
        SqlDatum::Int(flag(s0.disable_model_invocation)),
        SqlDatum::Int(flag(s0.user_invocable)),
        text_or_null(opt_view(s0.argument_hint)),
        SqlDatum::Text(now@),
        SqlDatum::Text(id@),
    ]);
    (sql, v)
}

/// The text of the statement that rewrites a stored skill in PostgreSQL, which sets
/// the descriptive fields, the runtime, the dependencies and the visibility.
pub open spec fn pg_skill_update_sql() -> Seq<char> {
    "UPDATE skills SET name = $1, version = $2, description = $3, skill_md = $4, runtime = $5, dependencies = $6, visibility = $7, updated_at = $8 WHERE id = $9"@
}

/// The statement that rewrites the stored skill with identifier text `id` to `s` in
/// PostgreSQL at time `now`: its text and the values bound to its placeholders, in
/// order.
pub fn pg_skill_update_statement(s: Skill, id: &str, now: &str) -> (r: (String, Vec<SqlValue>))
    ensures
        r.0@ == pg_skill_update_sql(),
        datums(r.1@) == seq![
            SqlDatum::Text(s.name@),
            SqlDatum::Text(s.version@),
            SqlDatum::Text(s.description@),
            SqlDatum::Text(s.skill_md@),
            SqlDatum::Text(runtime_name(s.runtime)),
            SqlDatum::Text(json_skill_dependencies(s.dependencies@)),
            SqlDatum::Text(visibility_name(s.visibility)),
            SqlDatum::Text(now@),
            SqlDatum::Text(id@),
        ],
{
    let ghost s0 = s;
    let deps = encode_skill_dependencies(&s.dependencies);
    let mut v: Vec<SqlValue> = Vec::new();
    v.push(SqlValue::Text(s.name));
    v.push(SqlValue::Text(s.version));
    v.push(SqlValue::Text(s.description));
    v.push(SqlValue::Text(s.skill_md));
    v.push(text_value(s.runtime.as_str()));
    v.push(SqlValue::Text(deps));
    v.push(text_value(s.visibility.as_str()));
    v.push(text_value(now));
    v.push(text_value(id));
    let sql = string_from_str(
        "UPDATE skills SET name = $1, version = $2, description = $3, skill_md = $4, runtime = $5, dependencies = $6, visibility = $7, updated_at = $8 WHERE id = $9",
    );
    assert(datums(v@) =~= seq![
        SqlDatum::Text(s0.name@),
        SqlDatum::Text(s0.version@),
        SqlDatum::Text(s0.description@),
        SqlDatum::Text(s0.skill_md@),
        SqlDatum::Text(runtime_name(s0.runtime)),
        SqlDatum::Text(json_skill_dependencies(s0.dependencies@)),
        SqlDatum::Text(visibility_name(s0.visibility)),
        SqlDatum::Text(now@),
        SqlDatum::Text(id@),
    ]);
    (sql, v)
}

// ---------------------------------------------------------------------------
// Reading stored rows back
// ---------------------------------------------------------------------------

/// The instant, in Unix seconds, that chrono reads from an RFC 3339 text.
pub uninterp spec fn rfc3339_seconds(s: Seq<char>) -> Option<i64>;

/// The text of the error that chrono gives for an RFC 3339 text it refuses.
pub uninterp spec fn rfc3339_error(s: Seq<char>) -> Seq<char>;

/// `chrono::DateTime::parse_from_rfc3339(s)`, the instant taken as Unix seconds
/// (`timestamp`), or the text of chrono's error. Both depend on `s` alone and are
/// named.
#[verifier::external_body]
fn parse_rfc3339(s: &str) -> (r: Result<i64, String>)
    ensures
        match r {
            Ok(t) => rfc3339_seconds(s@) == Some(t),
            Err(e) => rfc3339_seconds(s@) is None && e@ == rfc3339_error(s@),
        },
{
    match chrono::DateTime::parse_from_rfc3339(s) {
        Ok(d) => Ok(d.timestamp()),
        Err(e) => Err(e.to_string()),
    }
}

/// A stored time: the instant its text names, or the clock where it names none.
pub open spec fn time_or(s: Seq<char>, clock: i64) -> i64 {
    match rfc3339_seconds(s) {
        Some(t) => t,
        None => clock,
    }
}

fn time_or_clock(s: &str, clock: i64) -> (r: i64)
    ensures
        r == time_or(s@, clock),
{
    match parse_rfc3339(s) {
        Ok(t) => t,
        Err(_) => clock,
    }
}

/// A stored identifier: the UUID its text names, or the nil UUID.
pub open spec fn uuid_or_nil(s: Seq<char>) -> u128 {
    match uuid_parse(s) {
        Some(u) => u,
        None => 0,
    }
}

fn uuid_or_nil_of(s: &str) -> (r: u128)
    ensures
        r == uuid_or_nil(s@),
{
    match parse_uuid(s) {
        Ok(u) => u,
        Err(_) => 0,
    }
}

/// The text of an optional column, empty where it is NULL.
pub open spec fn text_or_empty(o: Option<String>) -> Seq<char> {
    match o {
        Some(t) => t@,
        None => Seq::empty(),
    }
}

/// A stored tenant: the UUID that the column's text (empty where NULL) names, or nil.
fn tenant_of(o: Option<String>) -> (r: u128)
    ensures
        r == uuid_or_nil(text_or_empty(o)),
{
    match o {
        Some(t) => uuid_or_nil_of(t.as_str()),
        None => {
            proof {
                reveal_strlit("");
            }
            assert(""@ =~= Seq::<char>::empty());
            uuid_or_nil_of("")
        },
    }
}

/// A stored list of strings: what serde_json reads from the column, or no string
/// where it is NULL or reads as no array of strings.
pub open spec fn stored_strings(o: Option<String>) -> Seq<Seq<char>> {
    match o {
        Some(t) => match json_strings_parse(t@) {
            Some(v) => v,
            None => Seq::empty(),
        },
        None => Seq::empty(),
    }
}

fn decode_strings_column(o: Option<String>) -> (r: Vec<String>)
    ensures
        strings_view(r@) == stored_strings(o),
        o is Some ==> forall|v: Seq<Seq<char>>| #[trigger] json_string_array(v) == o->0@ ==> strings_view(r@) == v,
{
    match o {
        Some(t) => match json_decode_strings(t.as_str()) {
            Some(v) => v,
            None => {
                let e: Vec<String> = Vec::new();
                assert(strings_view(e@) =~= Seq::<Seq<char>>::empty());
                e
            },
        },
        None => {
            let e: Vec<String> = Vec::new();
            assert(strings_view(e@) =~= Seq::<Seq<char>>::empty());
            e
        },
    }
}

/// A stored JSON value column: its text where serde_json reads a JSON value from it,
/// nothing where it is NULL or not JSON.
pub open spec fn stored_json(o: Option<String>) -> Option<Seq<char>> {
    match o {
        Some(t) => if json_kind(t@) is Some {
            Some(t@)
        } else {
            None
        },
        None => None,
    }
}

fn decode_json_column(o: Option<String>) -> (r: Option<String>)
    ensures
        opt_view(r) == stored_json(o),
{
    match o {
        Some(t) => match json_value_kind(t.as_str()) {
            Some(_) => Some(t),
            None => None,
        },
        None => None,
    }
}

/// A stored JSON array column: its text where serde_json reads an array from it, the
/// empty array `[]` where it is NULL or holds no array.
pub open spec fn stored_json_array(o: Option<String>) -> Seq<char> {
    match o {
        Some(t) => if json_kind(t@) == Some(true) {
            t@
        } else {
            "[]"@
        },
        None => "[]"@,
    }
}

fn decode_json_array_column(o: Option<String>) -> (r: String)
    ensures
        r@ == stored_json_array(o),
{
    match o {
        Some(t) => match json_value_kind(t.as_str()) {
            Some(true) => t,
            _ => string_from_str("[]"),
        },
        None => string_from_str("[]"),
    }
}

/// A dependency list that the application's decoder read from a stored column
/// (`None` where the column is NULL or does not read as one): the list, or none.
pub open spec fn deps_or_empty<T>(d: Option<Vec<T>>) -> Seq<T> {
    match d {
        Some(v) => v@,
        None => Seq::empty(),
    }
}

fn deps_or_empty_of<T>(d: Option<Vec<T>>) -> (r: Vec<T>)
    ensures
        r@ == deps_or_empty(d),
{
    match d {
        Some(v) => v,
        None => Vec::new(),
    }
}

/// An integer column as a bound value: the integer, or NULL.
pub open spec fn int_or_null(o: Option<i32>) -> SqlDatum {
    match o {
        Some(v) => SqlDatum::Int(v as int),
        None => SqlDatum::Null,
    }
}

/// A row of the `skills` table, as the repositories read it.
#[derive(Debug, Clone)]
pub struct StoredSkill {
    pub id: String,
    pub name: String,
    pub version: String,
    pub description: String,
    pub skill_md: String,
    pub code_package_path: Option<String>,
    pub runtime: String,
    pub dependencies: Option<String>,
    pub visibility: String,
    pub owner_id: String,
    pub tenant_id: Option<String>,
    pub author: Option<String>,
    pub tags: Option<String>,
    pub skill_type: Option<String>,
    pub execution: Option<String>,
    pub entrypoint: Option<String>,
    pub timeout: Option<i32>,
    pub memory_mb: Option<i32>,
    pub permissions: Option<String>,
    pub license: Option<String>,
    pub compatibility: Option<String>,
    pub disable_model_invocation: Option<i32>,
    pub user_invocable: Option<i32>,
    pub argument_hint: Option<String>,
    pub created_at: String,
    pub updated_at: String,
}

/// The values that a skills row holds, in the column order of the INSERT statement.
pub open spec fn skill_row_datums(r: StoredSkill) -> Seq<SqlDatum> {
    seq![
        SqlDatum::Text(r.id@),
        SqlDatum::Text(r.name@),
        SqlDatum::Text(r.version@),
        SqlDatum::Text(r.description@),
        SqlDatum::Text(r.skill_md@),
        text_or_null(opt_view(r.code_package_path)),
        SqlDatum::Text(r.runtime@),
        text_or_null(opt_view(r.dependencies)),
        SqlDatum::Text(r.visibility@),
        SqlDatum::Text(r.owner_id@),
        text_or_null(opt_view(r.tenant_id)),
        text_or_null(opt_view(r.author)),
        text_or_null(opt_view(r.tags)),
        text_or_null(opt_view(r.skill_type)),
        text_or_null(opt_view(r.execution)),
        text_or_null(opt_view(r.entrypoint)),
        int_or_null(r.timeout),
        int_or_null(r.memory_mb),
        text_or_null(opt_view(r.permissions)),
        text_or_null(opt_view(r.license)),
        text_or_null(opt_view(r.compatibility)),
        int_or_null(r.disable_model_invocation),
        int_or_null(r.user_invocable),
        text_or_null(opt_view(r.argument_hint)),
        SqlDatum::Text(r.created_at@),
        SqlDatum::Text(r.updated_at@),
    ]
}

/// Whether `k` is the skill that the repositories read from `row` at `clock`, given
/// what the application's decoder read from its dependency column: identifiers that
/// do not parse are nil, NULL or unreadable lists are empty, a missing type, execution,
/// timeout, memory and flags take their defaults (`instruction`, `client`, 30 seconds,
/// 256 MB, invocable by the model and by users), permissions that are not JSON are
/// dropped, and a time that does not parse is the clock.
pub open spec fn skill_read_from(row: StoredSkill, dependencies: Option<Vec<SkillDependency>>, clock: i64, k: Skill) -> bool {
    &&& k.id == uuid_or_nil(row.id@)
    &&& k.name == row.name
    &&& k.version == row.version
    &&& k.description == row.description
    &&& k.skill_md == row.skill_md
    &&& k.code_package_path == row.code_package_path
    &&& k.runtime == stored_runtime(row.runtime@)
    &&& k.dependencies@ == deps_or_empty(dependencies)
    &&& k.owner_id == uuid_or_nil(row.owner_id@)
    &&& k.tenant_id == uuid_or_nil(text_or_empty(row.tenant_id))
    &&& k.visibility == stored_visibility(row.visibility@)
    &&& k.author == row.author
    &&& strings_view(k.tags@) == stored_strings(row.tags)
    &&& k.skill_type@ == match row.skill_type {
        Some(t) => t@,
        None => "instruction"@,
    }
    &&& k.execution@ == match row.execution {
        Some(t) => t@,
        None => "client"@,
    }
    &&& k.entrypoint == row.entrypoint
    &&& k.timeout == row.timeout.unwrap_or(30)
    &&& k.memory_mb == row.memory_mb.unwrap_or(256)
    &&& opt_view(k.permissions) == stored_json(row.permissions)
    &&& k.license == row.license
    &&& k.compatibility == row.compatibility
    &&& k.disable_model_invocation == (row.disable_model_invocation.unwrap_or(0) != 0)
    &&& k.user_invocable == (row.user_invocable.unwrap_or(1) != 0)
    &&& k.argument_hint == row.argument_hint
    &&& k.created_at == time_or(row.created_at@, clock)
    &&& k.updated_at == time_or(row.updated_at@, clock)
}

/// Whether two skills hold the same values, field by field.
pub open spec fn same_skill(a: Skill, b: Skill) -> bool {
    &&& a.id == b.id
    &&& a.name@ == b.name@
    &&& a.version@ == b.version@
    &&& a.description@ == b.description@
    &&& a.skill_md@ == b.skill_md@
    &&& opt_view(a.code_package_path) == opt_view(b.code_package_path)
    &&& a.runtime == b.runtime
    &&& a.dependencies@ == b.dependencies@
    &&& a.owner_id == b.owner_id
    &&& a.tenant_id == b.tenant_id
    &&& a.visibility == b.visibility
    &&& opt_view(a.author) == opt_view(b.author)
    &&& strings_view(a.tags@) == strings_view(b.tags@)
    &&& a.skill_type@ == b.skill_type@
    &&& a.execution@ == b.execution@
    &&& opt_view(a.entrypoint) == opt_view(b.entrypoint)
    &&& a.timeout == b.timeout
    &&& a.memory_mb == b.memory_mb
    &&& opt_view(a.permissions) == opt_view(b.permissions)
    &&& opt_view(a.license) == opt_view(b.license)
    &&& opt_view(a.compatibility) == opt_view(b.compatibility)
    &&& a.disable_model_invocation == b.disable_model_invocation
    &&& a.user_invocable == b.user_invocable
    &&& opt_view(a.argument_hint) == opt_view(b.argument_hint)
    &&& a.created_at == b.created_at
    &&& a.updated_at == b.updated_at
}

/// Whether `row` stores the skill `k`: each column holds what the INSERT statement
/// binds for `k`, with identifier texts that name `k`'s identifiers and a creation
/// time that names `k`'s (which is also its update time); the application's decoder
/// read `k`'s dependencies back from their column, and `k`'s permissions are JSON.
pub open spec fn skill_stored_as(row: StoredSkill, dependencies: Option<Vec<SkillDependency>>, k: Skill) -> bool {
    &&& exists|id: Seq<char>, owner: Seq<char>, tenant: Seq<char>, now: Seq<char>|
        #[trigger] skill_insert_datums(k, id, owner, tenant, now) == skill_row_datums(row)
            && uuid_parse(id) == Some(k.id) && uuid_parse(owner) == Some(k.owner_id)
            && uuid_parse(tenant) == Some(k.tenant_id) && rfc3339_seconds(now) == Some(k.created_at)
    &&& k.updated_at == k.created_at
    &&& dependencies == Some(k.dependencies)
    &&& (k.permissions matches Some(p) ==> json_kind(p@) is Some)
}

/// Reads a skills row back at `clock`, as `skill_read_from` says; `dependencies` is what
/// the application's decoder read from the row's dependency column. A row that stores
/// a skill reads back as that skill.
pub fn skill_from_stored(row: StoredSkill, dependencies: Option<Vec<SkillDependency>>, clock: i64) -> (k: Skill)
    ensures
        skill_read_from(row, dependencies, clock, k),
        forall|orig: Skill| #[trigger] skill_stored_as(row, dependencies, orig) ==> same_skill(k, orig),
{
    let ghost row0 = row;
    let tags_text = row.tags;
    let tags = decode_strings_column(tags_text);
    let k = Skill {
        id: uuid_or_nil_of(row.id.as_str()),
        runtime: Runtime::from_stored(row.runtime.as_str()),
        owner_id: uuid_or_nil_of(row.owner_id.as_str()),
        tenant_id: tenant_of(row.tenant_id),
        visibility: Visibility::from_stored(row.visibility.as_str()),
        created_at: time_or_clock(row.created_at.as_str(), clock),
        updated_at: time_or_clock(row.updated_at.as_str(), clock),
        name: row.name,
        version: row.version,
        description: row.description,
        skill_md: row.skill_md,
        code_package_path: row.code_package_path,
        dependencies: deps_or_empty_of(dependencies),
        author: row.author,
        tags,
        skill_type: match row.skill_type {
            Some(t) => t,
            None => string_from_str("instruction"),
        },
        execution: match row.execution {
            Some(t) => t,
            None => string_from_str("client"),
        },
        entrypoint: row.entrypoint,
        timeout: row.timeout.unwrap_or(30),
        memory_mb: row.memory_mb.unwrap_or(256),
        permissions: decode_json_column(row.permissions),
        license: row.license,
        compatibility: row.compatibility,
        disable_model_invocation: row.disable_model_invocation.unwrap_or(0) != 0,
        user_invocable: row.user_invocable.unwrap_or(1) != 0,
        argument_hint: row.argument_hint,
    };
    assert forall|orig: Skill| #[trigger] skill_stored_as(row0, dependencies, orig) implies same_skill(k, orig) by {
        let (id, owner, tenant, now) = choose|id: Seq<char>, owner: Seq<char>, tenant: Seq<char>, now: Seq<char>|
            #[trigger] skill_insert_datums(orig, id, owner, tenant, now) == skill_row_datums(row0)
                && uuid_parse(id) == Some(orig.id) && uuid_parse(owner) == Some(orig.owner_id)
                && uuid_parse(tenant) == Some(orig.tenant_id) && rfc3339_seconds(now) == Some(orig.created_at);
        let a = skill_insert_datums(orig, id, owner, tenant, now);
        let b = skill_row_datums(row0);
        assert(a[0] == b[0] && a[1] == b[1] && a[2] == b[2] && a[3] == b[3] && a[4] == b[4]);
        assert(a[5] == b[5] && a[6] == b[6] && a[7] == b[7] && a[8] == b[8] && a[9] == b[9]);
        assert(a[10] == b[10] && a[11] == b[11] && a[12] == b[12] && a[13] == b[13] && a[14] == b[14]);
        assert(a[15] == b[15] && a[16] == b[16] && a[17] == b[17] && a[18] == b[18] && a[19] == b[19]);
        assert(a[20] == b[20] && a[21] == b[21] && a[22] == b[22] && a[23] == b[23] && a[24] == b[24]);
        assert(a[25] == b[25]);
        lemma_stored_runtime(orig.runtime);
        lemma_stored_visibility(orig.visibility);
    }
    k
}

proof fn lemma_stored_runtime(r: Runtime)
    ensures
        stored_runtime(runtime_name(r)) == r,
{
    reveal_strlit("python311");
    reveal_strlit("node20");
    reveal_strlit("wasm");
    assert("python311"@.len() != "node20"@.len());
    assert("wasm"@.len() != "node20"@.len());
    assert("wasm"@.len() != "python311"@.len());
}

proof fn lemma_stored_visibility(v: Visibility)
    ensures
        stored_visibility(visibility_name(v)) == v,
{
    reveal_strlit("public");
    reveal_strlit("private");
    assert("public"@.len() != "private"@.len());
}

// ---------------------------------------------------------------------------
// Snippets
// ---------------------------------------------------------------------------

/// A stored snippet. Structured fields (subcommands, inputs, output, examples and the
/// error model) are held as their JSON text.
#[derive(Debug, Clone)]
pub struct Snippet {
    pub id: u128,
    pub name: String,
    pub language: String,
    pub framework: Option<String>,
    pub tags: Vec<String>,
    pub content: String,
    pub code: String,
    pub dependencies: Vec<SnippetDependency>,
    pub estimated_tokens: u32,
    pub owner_id: u128,
    pub tenant_id: u128,
    pub visibility: Visibility,
    pub version: String,
    pub summary: Option<String>,
    pub command: Option<String>,
    pub subcommands: String,
    pub inputs: String,
    pub output: Option<String>,
    pub examples: String,
    pub error_model: Option<String>,
    pub created_at: i64,
    pub updated_at: i64,
}

/// A request to publish a snippet.
#[derive(Debug, Clone)]
pub struct NewSnippet {
    pub name: String,
    pub language: String,
    pub framework: Option<String>,
    pub tags: Vec<String>,
    pub content: String,
    pub code: String,
    pub dependencies: Vec<SnippetDependency>,
    pub visibility: Option<Visibility>,
    pub version: String,
    pub summary: Option<String>,
    pub command: Option<String>,
    pub subcommands: String,
    pub inputs: String,
    pub output: Option<String>,
    pub examples: String,
    pub error_model: Option<String>,
}

/// A request to change a snippet: each field that is present replaces the stored one.
#[derive(Debug, Clone)]
pub struct UpdateSnippet {
    pub name: Option<String>,
    pub language: Option<String>,
    pub framework: Option<String>,
    pub tags: Option<Vec<String>>,
    pub content: Option<String>,
    pub code: Option<String>,
    pub dependencies: Option<Vec<SnippetDependency>>,
    pub estimated_tokens: Option<u32>,
    pub visibility: Option<Visibility>,
    pub version: Option<String>,
    pub summary: Option<String>,
    pub command: Option<String>,
    pub subcommands: Option<String>,
    pub inputs: Option<String>,
    pub output: Option<String>,
    pub examples: Option<String>,
    pub error_model: Option<String>,
}

/// The record of a newly published snippet with identifier `id`, owned by `owner` in
/// `tenant`, at time `now`: the request's fields, private unless it asks otherwise,
/// with the token estimate of its content and code.
pub fn new_snippet_record(new: NewSnippet, id: u128, owner: u128, tenant: u128, now: i64) -> (k: Snippet)
    requires
        new.content@.len() + new.code@.len() <= usize::MAX,
    ensures
        k.id == id,
        k.owner_id == owner,
        k.tenant_id == tenant,
        k.visibility == new.visibility.unwrap_or(Visibility::Private),
        k.estimated_tokens == ((new.content@.len() + new.code@.len()) / 4) as u32,
        k.created_at == now,
        k.updated_at == now,
        k.name == new.name,
        k.language == new.language,
        k.framework == new.framework,
        k.tags == new.tags,
        k.content == new.content,
        k.code == new.code,
        k.dependencies == new.dependencies,
        k.version == new.version,
        k.summary == new.summary,
        k.command == new.command,
        k.subcommands == new.subcommands,
        k.inputs == new.inputs,
        k.output == new.output,
        k.examples == new.examples,
        k.error_model == new.error_model,
{
    let estimated_tokens = estimate_tokens(new.content.as_str(), new.code.as_str());
    Snippet {
        id,
        name: new.name,
        language: new.language,
        framework: new.framework,
        tags: new.tags,
        content: new.content,
        code: new.code,
        dependencies: new.dependencies,
        estimated_tokens,
        owner_id: owner,
        tenant_id: tenant,
        visibility: new.visibility.unwrap_or(Visibility::Private),
        version: new.version,
        summary: new.summary,
        command: new.command,
        subcommands: new.subcommands,
        inputs: new.inputs,
        output: new.output,
        examples: new.examples,
        error_model: new.error_model,
        created_at: now,
        updated_at: now,
    }
}

/// A stored snippet after an update at time `now`: each field of the request that is
/// present replaces the stored one (the token estimate too, which is otherwise kept);
/// the identifier, owner, tenant and creation time stay.
pub fn apply_snippet_update(existing: Snippet, u: UpdateSnippet, now: i64) -> (s: Snippet)
    ensures
        s.id == existing.id,
        s.owner_id == existing.owner_id,
        s.tenant_id == existing.tenant_id,
        s.created_at == existing.created_at,
        s.updated_at == now,
        s.name == u.name.unwrap_or(existing.name),
        s.language == u.language.unwrap_or(existing.language),
        s.framework == first_present(u.framework, existing.framework),
        s.tags == u.tags.unwrap_or(existing.tags),
        s.content == u.content.unwrap_or(existing.content),
        s.code == u.code.unwrap_or(existing.code),
        s.dependencies == u.dependencies.unwrap_or(existing.dependencies),
        s.estimated_tokens == u.estimated_tokens.unwrap_or(existing.estimated_tokens),
        s.visibility == u.visibility.unwrap_or(existing.visibility),
        s.version == u.version.unwrap_or(existing.version),
        s.summary == first_present(u.summary, existing.summary),
        s.command == first_present(u.command, existing.command),
        s.subcommands == u.subcommands.unwrap_or(existing.subcommands),
        s.inputs == u.inputs.unwrap_or(existing.inputs),
        s.output == first_present(u.output, existing.output),
        s.examples == u.examples.unwrap_or(existing.examples),
        s.error_model == first_present(u.error_model, existing.error_model),
{
    Snippet {
        id: existing.id,
        name: u.name.unwrap_or(existing.name),
        language: u.language.unwrap_or(existing.language),
        framework: or_keep(u.framework, existing.framework),
        tags: u.tags.unwrap_or(existing.tags),
        content: u.content.unwrap_or(existing.content),
        code: u.code.unwrap_or(existing.code),
        dependencies: u.dependencies.unwrap_or(existing.dependencies),
        estimated_tokens: u.estimated_tokens.unwrap_or(existing.estimated_tokens),
        owner_id: existing.owner_id,
        tenant_id: existing.tenant_id,
        visibility: u.visibility.unwrap_or(existing.visibility),
        version: u.version.unwrap_or(existing.version),
        summary: or_keep(u.summary, existing.summary),
        command: or_keep(u.command, existing.command),
        subcommands: u.subcommands.unwrap_or(existing.subcommands),
        inputs: u.inputs.unwrap_or(existing.inputs),
        output: or_keep(u.output, existing.output),
        examples: u.examples.unwrap_or(existing.examples),
        error_model: or_keep(u.error_model, existing.error_model),
        created_at: existing.created_at,
        updated_at: now,
    }
}

/// The text of the statement that stores a new snippet.
pub open spec fn snippet_insert_sql(d: Dialect) -> Seq<char> {
    match d {
        Dialect::Sqlite => "INSERT INTO snippets (id, name, language, framework, tags, content, code, dependencies, estimated_tokens, visibility, owner_id, tenant_id, version, summary, command, subcommands, inputs, output, examples, error_model, created_at, updated_at) VALUES (?, ?, ?, ?, ?, ?, ?, ?, ?, ?, ?, ?, ?, ?, ?, ?, ?, ?, ?, ?, ?, ?)"@,
        Dialect::Postgres => "INSERT INTO snippets (id, name, language, framework, tags, content, code, dependencies, estimated_tokens, visibility, owner_id, tenant_id, version, summary, command, subcommands, inputs, output, examples, error_model, created_at, updated_at) VALUES ($1, $2, $3, $4, $5, $6, $7, $8, $9, $10, $11, $12, $13, $14, $15, $16, $17, $18, $19, $20, $21, $22)"@,
    }
}

/// The text of the statement that rewrites a stored snippet.
pub open spec fn snippet_update_sql(d: Dialect) -> Seq<char> {
    match d {
        Dialect::Sqlite => "UPDATE snippets SET name = ?, language = ?, framework = ?, tags = ?, content = ?, code = ?, dependencies = ?, estimated_tokens = ?, visibility = ?, version = ?, summary = ?, command = ?, subcommands = ?, inputs = ?, output = ?, examples = ?, error_model = ?, updated_at = ? WHERE id = ?"@,
        Dialect::Postgres => "UPDATE snippets SET name = $1, language = $2, framework = $3, tags = $4, content = $5, code = $6, dependencies = $7, estimated_tokens = $8, visibility = $9, version = $10, summary = $11, command = $12, subcommands = $13, inputs = $14, output = $15, examples = $16, error_model = $17, updated_at = $18 WHERE id = $19"@,
    }
}

/// The values that the statement storing the new snippet `n` binds, in column order,
/// with the texts of its identifier, owner and tenant and of the creation time.
pub open spec fn snippet_insert_datums(n: Snippet, id: Seq<char>, owner: Seq<char>, tenant: Seq<char>, now: Seq<char>) -> Seq<SqlDatum> {
    seq![
        SqlDatum::Text(id),
        SqlDatum::Text(n.name@),
        SqlDatum::Text(n.language@),
        text_or_null(opt_view(n.framework)),
        SqlDatum::Text(json_string_array(strings_view(n.tags@))),
        SqlDatum::Text(n.content@),
        SqlDatum::Text(n.code@),
        SqlDatum::Text(json_snippet_dependencies(n.dependencies@)),
        SqlDatum::Int((n.estimated_tokens as i32) as int),
        SqlDatum::Text(visibility_name(n.visibility)),
        SqlDatum::Text(owner),
        SqlDatum::Text(tenant),
        SqlDatum::Text(n.version@),
        text_or_null(opt_view(n.summary)),
        text_or_null(opt_view(n.command)),
        SqlDatum::Text(n.subcommands@),
        SqlDatum::Text(n.inputs@),
        text_or_null(opt_view(n.output)),
        SqlDatum::Text(n.examples@),
        text_or_null(opt_view(n.error_model)),
        SqlDatum::Text(now),
        SqlDatum::Text(now),
    ]
}

/// The statement that stores the new snippet `n` in dialect `d`, with the texts of its
/// identifier, owner and tenant and of the creation time: its text and the values
/// bound to its placeholders, in order.
pub fn snippet_insert_statement(n: Snippet, id: &str, owner: &str, tenant: &str, now: &str, d: Dialect) -> (r: (
    String,
    Vec<SqlValue>,
))
    ensures
        r.0@ == snippet_insert_sql(d),
        datums(r.1@) == snippet_insert_datums(n, id@, owner@, tenant@, now@),
{
    let ghost n0 = n;
    let tags = encode_string_array(&n.tags);
    let deps = encode_snippet_dependencies(&n.dependencies);
    let mut v: Vec<SqlValue> = Vec::new();
    v.push(text_value(id));
    v.push(SqlValue::Text(n.name));
    v.push(SqlValue::Text(n.language));
    v.push(opt_value(n.framework));
    v.push(SqlValue::Text(tags));
    v.push(SqlValue::Text(n.content));
    v.push(SqlValue::Text(n.code));
    v.push(SqlValue::Text(deps));
    v.push(SqlValue::Int((n.estimated_tokens as i32) as i64));
    v.push(text_value(n.visibility.as_str()));
    v.push(text_value(owner));
    v.push(text_value(tenant));
    v.push(SqlValue::Text(n.version));
    v.push(opt_value(n.summary));
    v.push(opt_value(n.command));
    v.push(SqlValue::Text(n.subcommands));
    v.push(SqlValue::Text(n.inputs));
    v.push(opt_value(n.output));
    v.push(SqlValue::Text(n.examples));
    v.push(opt_value(n.error_model));
    v.push(text_value(now));
    v.push(text_value(now));
    let sql = match d {
        Dialect::Sqlite => string_from_str(
            "INSERT INTO snippets (id, name, language, framework, tags, content, code, dependencies, estimated_tokens, visibility, owner_id, tenant_id, version, summary, command, subcommands, inputs, output, examples, error_model, created_at, updated_at) VALUES (?, ?, ?, ?, ?, ?, ?, ?, ?, ?, ?, ?, ?, ?, ?, ?, ?, ?, ?, ?, ?, ?)",
        ),
        Dialect::Postgres => string_from_str(
            "INSERT INTO snippets (id, name, language, framework, tags, content, code, dependencies, estimated_tokens, visibility, owner_id, tenant_id, version, summary, command, subcommands, inputs, output, examples, error_model, created_at, updated_at) VALUES ($1, $2, $3, $4, $5, $6, $7, $8, $9, $10, $11, $12, $13, $14, $15, $16, $17, $18, $19, $20, $21, $22)",
        ),
    };
    assert(datums(v@) =~= seq![
        SqlDatum::Text(id@),
            SqlDatum::Text(n0.name@),
            SqlDatum::Text(n0.language@),
            text_or_null(opt_view(n0.framework)),
            SqlDatum::Text(json_string_array(strings_view(n0.tags@))),
            SqlDatum::Text(n0.content@),
            SqlDatum::Text(n0.code@),
            SqlDatum::Text(json_snippet_dependencies(n0.dependencies@)),
            SqlDatum::Int((n0.estimated_tokens as i32) as int),
            SqlDatum::Text(visibility_name(n0.visibility)),
        SqlDatum::Text(owner@),
        SqlDatum::Text(tenant@),
            SqlDatum::Text(n0.version@),
            text_or_null(opt_view(n0.summary)),
            text_or_null(opt_view(n0.command)),
            SqlDatum::Text(n0.subcommands@),
            SqlDatum::Text(n0.inputs@),
            text_or_null(opt_view(n0.output)),
            SqlDatum::Text(n0.examples@),
            text_or_null(opt_view(n0.error_model)),
        SqlDatum::Text(now@),
        SqlDatum::Text(now@),
    ]);
    (sql, v)
}

/// The statement that rewrites the stored snippet with identifier text `id` to `n` in
/// dialect `d` at time `now`: its text and the values bound to its placeholders, in
/// order.
pub fn snippet_update_statement(n: Snippet, id: &str, now: &str, d: Dialect) -> (r: (String, Vec<SqlValue>))
    ensures
        r.0@ == snippet_update_sql(d),
        datums(r.1@) == seq![
            SqlDatum::Text(n.name@),
            SqlDatum::Text(n.language@),
            text_or_null(opt_view(n.framework)),
            SqlDatum::Text(json_string_array(strings_view(n.tags@))),
            SqlDatum::Text(n.content@),
            SqlDatum::Text(n.code@),
            SqlDatum::Text(json_snippet_dependencies(n.dependencies@)),
            SqlDatum::Int((n.estimated_tokens as i32) as int),
            SqlDatum::Text(visibility_name(n.visibility)),
            SqlDatum::Text(n.version@),
            text_or_null(opt_view(n.summary)),
            text_or_null(opt_view(n.command)),
            SqlDatum::Text(n.subcommands@),
            SqlDatum::Text(n.inputs@),
            text_or_null(opt_view(n.output)),
            SqlDatum::Text(n.examples@),
            text_or_null(opt_view(n.error_model)),
            SqlDatum::Text(now@),
            SqlDatum::Text(id@),
        ],
{
    let ghost n0 = n;
    let tags = encode_string_array(&n.tags);
    let deps = encode_snippet_dependencies(&n.dependencies);
    let mut v: Vec<SqlValue> = Vec::new();
    v.push(SqlValue::Text(n.name));
    v.push(SqlValue::Text(n.language));
    v.push(opt_value(n.framework));
    v.push(SqlValue::Text(tags));
    v.push(SqlValue::Text(n.content));
    v.push(SqlValue::Text(n.code));
    v.push(SqlValue::Text(deps));
    v.push(SqlValue::Int((n.estimated_tokens as i32) as i64));
    v.push(text_value(n.visibility.as_str()));
    v.push(SqlValue::Text(n.version));
    v.push(opt_value(n.summary));
    v.push(opt_value(n.command));
    v.push(SqlValue::Text(n.subcommands));
    v.push(SqlValue::Text(n.inputs));
    v.push(opt_value(n.output));
    v.push(SqlValue::Text(n.examples));
    v.push(opt_value(n.error_model));
    v.push(text_value(now));
    v.push(text_value(id));
    let sql = match d {
        Dialect::Sqlite => string_from_str(
            "UPDATE snippets SET name = ?, language = ?, framework = ?, tags = ?, content = ?, code = ?, dependencies = ?, estimated_tokens = ?, visibility = ?, version = ?, summary = ?, command = ?, subcommands = ?, inputs = ?, output = ?, examples = ?, error_model = ?, updated_at = ? WHERE id = ?",
        ),
        Dialect::Postgres => string_from_str(
            "UPDATE snippets SET name = $1, language = $2, framework = $3, tags = $4, content = $5, code = $6, dependencies = $7, estimated_tokens = $8, visibility = $9, version = $10, summary = $11, command = $12, subcommands = $13, inputs = $14, output = $15, examples = $16, error_model = $17, updated_at = $18 WHERE id = $19",
        ),
    };
    assert(datums(v@) =~= seq![
            SqlDatum::Text(n0.name@),
            SqlDatum::Text(n0.language@),
            text_or_null(opt_view(n0.framework)),
            SqlDatum::Text(json_string_array(strings_view(n0.tags@))),
            SqlDatum::Text(n0.content@),
            SqlDatum::Text(n0.code@),
            SqlDatum::Text(json_snippet_dependencies(n0.dependencies@)),
            SqlDatum::Int((n0.estimated_tokens as i32) as int),
            SqlDatum::Text(visibility_name(n0.visibility)),
            SqlDatum::Text(n0.version@),
            text_or_null(opt_view(n0.summary)),
            text_or_null(opt_view(n0.command)),
            SqlDatum::Text(n0.subcommands@),
            SqlDatum::Text(n0.inputs@),
            text_or_null(opt_view(n0.output)),
            SqlDatum::Text(n0.examples@),
            text_or_null(opt_view(n0.error_model)),
        SqlDatum::Text(now@),
        SqlDatum::Text(id@),
    ]);
    (sql, v)
}

/// A row of the `snippets` table, as the repositories read it.
#[derive(Debug, Clone)]
pub struct StoredSnippet {
    pub id: String,
    pub name: String,
    pub language: String,
    pub framework: Option<String>,
    pub tags: Option<String>,
    pub content: String,
    pub code: String,
    pub dependencies: Option<String>,
    pub estimated_tokens: i32,
    pub visibility: String,
    pub owner_id: String,
    pub tenant_id: Option<String>,
    pub version: Option<String>,
    pub summary: Option<String>,
    pub command: Option<String>,
    pub subcommands: Option<String>,
    pub inputs: Option<String>,
    pub output: Option<String>,
    pub examples: Option<String>,
    pub error_model: Option<String>,
    pub created_at: String,
    pub updated_at: String,
}

/// The values that a snippets row holds, in the column order of the INSERT statement.
pub open spec fn snippet_row_datums(r: StoredSnippet) -> Seq<SqlDatum> {
    seq![
        SqlDatum::Text(r.id@),
        SqlDatum::Text(r.name@),
        SqlDatum::Text(r.language@),
        text_or_null(opt_view(r.framework)),
        text_or_null(opt_view(r.tags)),
        SqlDatum::Text(r.content@),
        SqlDatum::Text(r.code@),
        text_or_null(opt_view(r.dependencies)),
        SqlDatum::Int(r.estimated_tokens as int),
        SqlDatum::Text(r.visibility@),
        SqlDatum::Text(r.owner_id@),
        text_or_null(opt_view(r.tenant_id)),
        text_or_null(opt_view(r.version)),
        text_or_null(opt_view(r.summary)),
        text_or_null(opt_view(r.command)),
        text_or_null(opt_view(r.subcommands)),
        text_or_null(opt_view(r.inputs)),
        text_or_null(opt_view(r.output)),
        text_or_null(opt_view(r.examples)),
        text_or_null(opt_view(r.error_model)),
        SqlDatum::Text(r.created_at@),
        SqlDatum::Text(r.updated_at@),
    ]
}

/// Whether `n` is the snippet that the repositories read from `row` at `clock`, given
/// what the application's decoder read from its dependency column: identifiers that
/// do not parse are nil, NULL or unreadable lists are empty (the JSON lists as `[]`),
/// a missing version is `1.0.0`, an output or error model that is not JSON is dropped,
/// the token estimate is read back as unsigned, and a time that does not parse is the
/// clock.
pub open spec fn snippet_read_from(row: StoredSnippet, dependencies: Option<Vec<SnippetDependency>>, clock: i64, n: Snippet) -> bool {
    &&& n.id == uuid_or_nil(row.id@)
    &&& n.name == row.name
    &&& n.language == row.language
    &&& n.framework == row.framework
    &&& strings_view(n.tags@) == stored_strings(row.tags)
    &&& n.content == row.content
    &&& n.code == row.code
    &&& n.dependencies@ == deps_or_empty(dependencies)
    &&& n.estimated_tokens == row.estimated_tokens as u32
    &&& n.owner_id == uuid_or_nil(row.owner_id@)
    &&& n.tenant_id == uuid_or_nil(text_or_empty(row.tenant_id))
    &&& n.visibility == stored_visibility(row.visibility@)
    &&& n.version@ == match row.version {
        Some(t) => t@,
        None => "1.0.0"@,
    }
    &&& n.summary == row.summary
    &&& n.command == row.command
    &&& n.subcommands@ == stored_json_array(row.subcommands)
    &&& n.inputs@ == stored_json_array(row.inputs)
    &&& opt_view(n.output) == stored_json(row.output)
    &&& n.examples@ == stored_json_array(row.examples)
    &&& opt_view(n.error_model) == stored_json(row.error_model)
    &&& n.created_at == time_or(row.created_at@, clock)
    &&& n.updated_at == time_or(row.updated_at@, clock)
}

/// Whether two snippets hold the same values, field by field.
pub open spec fn same_snippet(a: Snippet, b: Snippet) -> bool {
    &&& a.id == b.id
    &&& a.name@ == b.name@
    &&& a.language@ == b.language@
    &&& opt_view(a.framework) == opt_view(b.framework)
    &&& strings_view(a.tags@) == strings_view(b.tags@)
    &&& a.content@ == b.content@
    &&& a.code@ == b.code@
    &&& a.dependencies@ == b.dependencies@
    &&& a.estimated_tokens == b.estimated_tokens
    &&& a.owner_id == b.owner_id
    &&& a.tenant_id == b.tenant_id
    &&& a.visibility == b.visibility
    &&& a.version@ == b.version@
    &&& opt_view(a.summary) == opt_view(b.summary)
    &&& opt_view(a.command) == opt_view(b.command)
    &&& a.subcommands@ == b.subcommands@
    &&& a.inputs@ == b.inputs@
    &&& opt_view(a.output) == opt_view(b.output)
    &&& a.examples@ == b.examples@
    &&& opt_view(a.error_model) == opt_view(b.error_model)
    &&& a.created_at == b.created_at
    &&& a.updated_at == b.updated_at
}

/// Whether `row` stores the snippet `n`: each column holds what the INSERT statement
/// binds for `n`, with identifier texts that name `n`'s identifiers and a creation
/// time that names `n`'s (which is also its update time); the application's decoder
/// read `n`'s dependencies back from their column; its subcommands, inputs and
/// examples are JSON arrays and its output and error model JSON values.
pub open spec fn snippet_stored_as(row: StoredSnippet, dependencies: Option<Vec<SnippetDependency>>, n: Snippet) -> bool {
    &&& exists|id: Seq<char>, owner: Seq<char>, tenant: Seq<char>, now: Seq<char>|
        #[trigger] snippet_insert_datums(n, id, owner, tenant, now) == snippet_row_datums(row)
            && uuid_parse(id) == Some(n.id) && uuid_parse(owner) == Some(n.owner_id)
            && uuid_parse(tenant) == Some(n.tenant_id) && rfc3339_seconds(now) == Some(n.created_at)
    &&& n.updated_at == n.created_at
    &&& dependencies == Some(n.dependencies)
    &&& json_kind(n.subcommands@) == Some(true)
    &&& json_kind(n.inputs@) == Some(true)
    &&& json_kind(n.examples@) == Some(true)
    &&& (n.output matches Some(o) ==> json_kind(o@) is Some)
    &&& (n.error_model matches Some(e) ==> json_kind(e@) is Some)
}

/// Reads a snippets row back at `clock`, as `snippet_read_from` says; `dependencies`
/// is what the application's decoder read from the row's dependency column. A row
/// that stores a snippet reads back as that snippet: its tags, dependencies (in
/// order) and command-line fields included.
pub fn snippet_from_stored(row: StoredSnippet, dependencies: Option<Vec<SnippetDependency>>, clock: i64) -> (n: Snippet)
    ensures
        snippet_read_from(row, dependencies, clock, n),
        forall|orig: Snippet| #[trigger] snippet_stored_as(row, dependencies, orig) ==> same_snippet(n, orig),
{
    let ghost row0 = row;
    let tags = decode_strings_column(row.tags);
    let n = Snippet {
        id: uuid_or_nil_of(row.id.as_str()),
        owner_id: uuid_or_nil_of(row.owner_id.as_str()),
        tenant_id: tenant_of(row.tenant_id),
        visibility: Visibility::from_stored(row.visibility.as_str()),
        created_at: time_or_clock(row.created_at.as_str(), clock),
        updated_at: time_or_clock(row.updated_at.as_str(), clock),
        name: row.name,
        language: row.language,
        framework: row.framework,
        tags,
        content: row.content,
        code: row.code,
        dependencies: deps_or_empty_of(dependencies),
        estimated_tokens: row.estimated_tokens as u32,
        version: match row.version {
            Some(t) => t,
            None => string_from_str("1.0.0"),
        },
        summary: row.summary,
        command: row.command,
        subcommands: decode_json_array_column(row.subcommands),
        inputs: decode_json_array_column(row.inputs),
        output: decode_json_column(row.output),
        examples: decode_json_array_column(row.examples),
        error_model: decode_json_column(row.error_model),
    };
    assert forall|orig: Snippet| #[trigger] snippet_stored_as(row0, dependencies, orig) implies same_snippet(n, orig) by {
        let (id, owner, tenant, now) = choose|id: Seq<char>, owner: Seq<char>, tenant: Seq<char>, now: Seq<char>|
            #[trigger] snippet_insert_datums(orig, id, owner, tenant, now) == snippet_row_datums(row0)
                && uuid_parse(id) == Some(orig.id) && uuid_parse(owner) == Some(orig.owner_id)
                && uuid_parse(tenant) == Some(orig.tenant_id) && rfc3339_seconds(now) == Some(orig.created_at);
        let a = snippet_insert_datums(orig, id, owner, tenant, now);
        let b = snippet_row_datums(row0);
        assert(a[0] == b[0] && a[1] == b[1] && a[2] == b[2] && a[3] == b[3] && a[4] == b[4]);
        assert(a[5] == b[5] && a[6] == b[6] && a[7] == b[7] && a[8] == b[8] && a[9] == b[9]);
        assert(a[10] == b[10] && a[11] == b[11] && a[12] == b[12] && a[13] == b[13] && a[14] == b[14]);
        assert(a[15] == b[15] && a[16] == b[16] && a[17] == b[17] && a[18] == b[18] && a[19] == b[19]);
        assert(a[20] == b[20] && a[21] == b[21]);
        let x = orig.estimated_tokens;
        let y = row0.estimated_tokens;
        assert(y == x as i32 ==> y as u32 == x) by (bit_vector);
        lemma_stored_visibility(orig.visibility);
    }
    n
}

// ---------------------------------------------------------------------------
// Tools
// ---------------------------------------------------------------------------

/// How a tool is called.
#[derive(Debug, Clone, Copy, PartialEq, Eq, Structural)]
pub enum HandlerType {
    Http,
    Function,
}

/// The stored name of a handler type.
pub open spec fn handler_type_name(h: HandlerType) -> Seq<char> {
    match h {
        HandlerType::Http => "http"@,
        HandlerType::Function => "function"@,
    }
}

impl HandlerType {
    pub fn as_str(&self) -> (r: &'static str)
        ensures
            r@ == handler_type_name(*self),
    {
        match self {
            HandlerType::Http => "http",
            HandlerType::Function => "function",
        }
    }
}

/// Where and how a tool's handler is reached.
#[derive(Debug, Clone)]
pub struct HandlerConfig {
    pub handler_type: HandlerType,
    pub url: Option<String>,
    pub method: Option<String>,
    pub timeout: Option<u32>,
}

/// A stored tool; its schemas are held as their JSON text.
#[derive(Debug, Clone)]
pub struct Tool {
    pub id: u128,
    pub name: String,
    pub description: String,
    pub input_schema: String,
    pub output_schema: Option<String>,
    pub handler: HandlerConfig,
    pub owner_id: u128,
    pub tenant_id: u128,
    pub visibility: Visibility,
    pub created_at: i64,
    pub updated_at: i64,
}

/// A request to change a tool: each field that is present replaces the stored one.
#[derive(Debug, Clone)]
pub struct UpdateTool {
    pub name: Option<String>,
    pub description: Option<String>,
    pub input_schema: Option<String>,
    pub output_schema: Option<String>,
    pub handler: Option<HandlerConfig>,
    pub visibility: Option<Visibility>,
}

/// Whether an update request changes anything.
pub open spec fn tool_update_changes(u: UpdateTool) -> bool {
    u.name is Some || u.description is Some || u.input_schema is Some || u.output_schema is Some
        || u.handler is Some || u.visibility is Some
}

/// A request to register a tool.
#[derive(Debug, Clone)]
pub struct NewTool {
    pub name: String,
    pub description: String,
    pub input_schema: String,
    pub output_schema: Option<String>,
    pub handler: HandlerConfig,
    pub visibility: Option<Visibility>,
}

/// The record of a newly registered tool with identifier `id`, owned by `owner` in
/// `tenant`, at time `now`: the request's fields, private unless it asks otherwise.
pub fn new_tool_record(new: NewTool, id: u128, owner: u128, tenant: u128, now: i64) -> (t: Tool)
    ensures
        t.id == id,
        t.owner_id == owner,
        t.tenant_id == tenant,
        t.name == new.name,
        t.description == new.description,
        t.input_schema == new.input_schema,
        t.output_schema == new.output_schema,
        t.handler == new.handler,
        t.visibility == new.visibility.unwrap_or(Visibility::Private),
        t.created_at == now,
        t.updated_at == now,
{
    Tool {
        id,
        name: new.name,
        description: new.description,
        input_schema: new.input_schema,
        output_schema: new.output_schema,
        handler: new.handler,
        owner_id: owner,
        tenant_id: tenant,
        visibility: new.visibility.unwrap_or(Visibility::Private),
        created_at: now,
        updated_at: now,
    }
}

/// The text of the statement that stores a new tool.
pub open spec fn tool_insert_sql(d: Dialect) -> Seq<char> {
    match d {
        Dialect::Sqlite => "INSERT INTO tools (id, name, description, input_schema, output_schema, handler_type, handler_url, handler_method, handler_timeout, visibility, owner_id, tenant_id, created_at, updated_at) VALUES (?, ?, ?, ?, ?, ?, ?, ?, ?, ?, ?, ?, ?, ?)"@,
        Dialect::Postgres => "INSERT INTO tools (id, name, description, input_schema, output_schema, handler_type, handler_url, handler_method, handler_timeout, visibility, owner_id, tenant_id, created_at, updated_at) VALUES ($1, $2, $3, $4, $5, $6, $7, $8, $9, $10, $11, $12, $13, $14)"@,
    }
}

/// The statement that stores the new tool `t` in dialect `d`, with the texts of its
/// identifier, owner and tenant and of the creation time: its text and the values
/// The values that the statement storing the new tool `t` binds, in column order,
/// with the texts of its identifier, owner and tenant and of the creation time.
pub open spec fn tool_insert_datums(t: Tool, id: Seq<char>, owner: Seq<char>, tenant: Seq<char>, now: Seq<char>) -> Seq<SqlDatum> {
    seq![
        SqlDatum::Text(id),
        SqlDatum::Text(t.name@),
        SqlDatum::Text(t.description@),
        SqlDatum::Text(t.input_schema@),
        text_or_null(opt_view(t.output_schema)),
        SqlDatum::Text(handler_type_name(t.handler.handler_type)),
        text_or_null(opt_view(t.handler.url)),
        text_or_null(opt_view(t.handler.method)),
        timeout_datum(t.handler.timeout),
        SqlDatum::Text(visibility_name(t.visibility)),
        SqlDatum::Text(owner),
        SqlDatum::Text(tenant),
        SqlDatum::Text(now),
        SqlDatum::Text(now),
    ]
}

/// bound to its placeholders, in order.
pub fn tool_insert_statement(t: Tool, id: &str, owner: &str, tenant: &str, now: &str, d: Dialect) -> (r: (
    String,
    Vec<SqlValue>,
))
    ensures
        r.0@ == tool_insert_sql(d),
        datums(r.1@) == tool_insert_datums(t, id@, owner@, tenant@, now@),
{
    let ghost t0 = t;
    let mut v: Vec<SqlValue> = Vec::new();
    v.push(text_value(id));
    v.push(SqlValue::Text(t.name));
    v.push(SqlValue::Text(t.description));
    v.push(SqlValue::Text(t.input_schema));
    v.push(opt_value(t.output_schema));
    v.push(text_value(t.handler.handler_type.as_str()));
    v.push(opt_value(t.handler.url));
    v.push(opt_value(t.handler.method));
    v.push(
        match t.handler.timeout {
            Some(x) => SqlValue::Int((x as i32) as i64),
            None => SqlValue::Null,
        },
    );
    v.push(text_value(t.visibility.as_str()));
    v.push(text_value(owner));
    v.push(text_value(tenant));
    v.push(text_value(now));
    v.push(text_value(now));
    let sql = match d {
        Dialect::Sqlite => string_from_str(
            "INSERT INTO tools (id, name, description, input_schema, output_schema, handler_type, handler_url, handler_method, handler_timeout, visibility, owner_id, tenant_id, created_at, updated_at) VALUES (?, ?, ?, ?, ?, ?, ?, ?, ?, ?, ?, ?, ?, ?)",
        ),
        Dialect::Postgres => string_from_str(
            "INSERT INTO tools (id, name, description, input_schema, output_schema, handler_type, handler_url, handler_method, handler_timeout, visibility, owner_id, tenant_id, created_at, updated_at) VALUES ($1, $2, $3, $4, $5, $6, $7, $8, $9, $10, $11, $12, $13, $14)",
        ),
    };
    assert(datums(v@) =~= seq![
        SqlDatum::Text(id@),
        SqlDatum::Text(t0.name@),
        SqlDatum::Text(t0.description@),
        SqlDatum::Text(t0.input_schema@),
        text_or_null(opt_view(t0.output_schema)),
        SqlDatum::Text(handler_type_name(t0.handler.handler_type)),
        text_or_null(opt_view(t0.handler.url)),
        text_or_null(opt_view(t0.handler.method)),
        timeout_datum(t0.handler.timeout),
        SqlDatum::Text(visibility_name(t0.visibility)),
        SqlDatum::Text(owner@),
        SqlDatum::Text(tenant@),
        SqlDatum::Text(now@),
        SqlDatum::Text(now@),
    ]);
    (sql, v)
}

/// A row of the `tools` table, as the repositories read it.
#[derive(Debug, Clone)]
pub struct StoredTool {
    pub id: String,
    pub name: String,
    pub description: String,
    pub input_schema: String,
    pub output_schema: Option<String>,
    pub handler_type: String,
    pub handler_url: Option<String>,
    pub handler_method: Option<String>,
    pub handler_timeout: Option<i32>,
    pub visibility: String,
    pub owner_id: String,
    pub tenant_id: Option<String>,
    pub created_at: String,
    pub updated_at: String,
}

/// The values that a tools row holds, in the column order of the INSERT statement.
pub open spec fn tool_row_datums(r: StoredTool) -> Seq<SqlDatum> {
    seq![
        SqlDatum::Text(r.id@),
        SqlDatum::Text(r.name@),
        SqlDatum::Text(r.description@),
        SqlDatum::Text(r.input_schema@),
        text_or_null(opt_view(r.output_schema)),
        SqlDatum::Text(r.handler_type@),
        text_or_null(opt_view(r.handler_url)),
        text_or_null(opt_view(r.handler_method)),
        int_or_null(r.handler_timeout),
        SqlDatum::Text(r.visibility@),
        SqlDatum::Text(r.owner_id@),
        text_or_null(opt_view(r.tenant_id)),
        SqlDatum::Text(r.created_at@),
        SqlDatum::Text(r.updated_at@),
    ]
}

/// The handler type that a stored name reads as: `http`, and a function for any other
/// name.
pub open spec fn stored_handler_type(s: Seq<char>) -> HandlerType {
    if s == "http"@ {
        HandlerType::Http
    } else {
        HandlerType::Function
    }
}

/// The input schema that a stored text reads as: the text where it is JSON, JSON
/// `null` otherwise.
pub open spec fn stored_schema(s: Seq<char>) -> Seq<char> {
    if json_kind(s) is Some {
        s
    } else {
        "null"@
    }
}

/// Whether `t` is the tool that the repositories read from `row` at `clock`:
/// identifiers that do not parse are nil, an input schema that is not JSON is `null`
/// and an output schema that is not JSON is dropped, any handler type but `http` is a
/// function, the timeout is read back as unsigned, and a time that does not parse is
/// the clock.
pub open spec fn tool_read_from(row: StoredTool, clock: i64, t: Tool) -> bool {
    &&& t.id == uuid_or_nil(row.id@)
    &&& t.name == row.name
    &&& t.description == row.description
    &&& t.input_schema@ == stored_schema(row.input_schema@)
    &&& opt_view(t.output_schema) == stored_json(row.output_schema)
    &&& t.handler.handler_type == stored_handler_type(row.handler_type@)
    &&& t.handler.url == row.handler_url
    &&& t.handler.method == row.handler_method
    &&& t.handler.timeout == match row.handler_timeout {
        Some(v) => Some(v as u32),
        None => None,
    }
    &&& t.owner_id == uuid_or_nil(row.owner_id@)
    &&& t.tenant_id == uuid_or_nil(text_or_empty(row.tenant_id))
    &&& t.visibility == stored_visibility(row.visibility@)
    &&& t.created_at == time_or(row.created_at@, clock)
    &&& t.updated_at == time_or(row.updated_at@, clock)
}

/// Whether two tools hold the same values, field by field.
pub open spec fn same_tool(a: Tool, b: Tool) -> bool {
    &&& a.id == b.id
    &&& a.name@ == b.name@
    &&& a.description@ == b.description@
    &&& a.input_schema@ == b.input_schema@
    &&& opt_view(a.output_schema) == opt_view(b.output_schema)
    &&& a.handler.handler_type == b.handler.handler_type
    &&& opt_view(a.handler.url) == opt_view(b.handler.url)
    &&& opt_view(a.handler.method) == opt_view(b.handler.method)
    &&& a.handler.timeout == b.handler.timeout
    &&& a.owner_id == b.owner_id
    &&& a.tenant_id == b.tenant_id
    &&& a.visibility == b.visibility
    &&& a.created_at == b.created_at
    &&& a.updated_at == b.updated_at
}

/// Whether `row` stores the tool `t`: each column holds what the INSERT statement binds
/// for `t`, with identifier texts that name `t`'s identifiers and a creation time that
/// names `t`'s (which is also its update time); its schemas are JSON.
pub open spec fn tool_stored_as(row: StoredTool, t: Tool) -> bool {
    &&& exists|id: Seq<char>, owner: Seq<char>, tenant: Seq<char>, now: Seq<char>|
        #[trigger] tool_insert_datums(t, id, owner, tenant, now) == tool_row_datums(row)
            && uuid_parse(id) == Some(t.id) && uuid_parse(owner) == Some(t.owner_id)
            && uuid_parse(tenant) == Some(t.tenant_id) && rfc3339_seconds(now) == Some(t.created_at)
    &&& t.updated_at == t.created_at
    &&& json_kind(t.input_schema@) is Some
    &&& (t.output_schema matches Some(o) ==> json_kind(o@) is Some)
}

/// Reads a tools row back at `clock`, as `tool_read_from` says. A row that stores a
/// tool reads back as that tool.
pub fn tool_from_stored(row: StoredTool, clock: i64) -> (t: Tool)
    ensures
        tool_read_from(row, clock, t),
        forall|orig: Tool| #[trigger] tool_stored_as(row, orig) ==> same_tool(t, orig),
{
    let ghost row0 = row;
    let input_schema = match json_value_kind(row.input_schema.as_str()) {
        Some(_) => row.input_schema,
        None => string_from_str("null"),
    };
    let t = Tool {
        id: uuid_or_nil_of(row.id.as_str()),
        owner_id: uuid_or_nil_of(row.owner_id.as_str()),
        tenant_id: tenant_of(row.tenant_id),
        visibility: Visibility::from_stored(row.visibility.as_str()),
        created_at: time_or_clock(row.created_at.as_str(), clock),
        updated_at: time_or_clock(row.updated_at.as_str(), clock),
        handler: HandlerConfig {
            handler_type: if crate::text::str_equals(row.handler_type.as_str(), "http") {
                HandlerType::Http
            } else {
                HandlerType::Function
            },
            url: row.handler_url,
            method: row.handler_method,
            timeout: match row.handler_timeout {
                Some(v) => Some(v as u32),
                None => None,
            },
        },
        name: row.name,
        description: row.description,
        input_schema,
        output_schema: decode_json_column(row.output_schema),
    };
    assert forall|orig: Tool| #[trigger] tool_stored_as(row0, orig) implies same_tool(t, orig) by {
        let (id, owner, tenant, now) = choose|id: Seq<char>, owner: Seq<char>, tenant: Seq<char>, now: Seq<char>|
            #[trigger] tool_insert_datums(orig, id, owner, tenant, now) == tool_row_datums(row0)
                && uuid_parse(id) == Some(orig.id) && uuid_parse(owner) == Some(orig.owner_id)
                && uuid_parse(tenant) == Some(orig.tenant_id) && rfc3339_seconds(now) == Some(orig.created_at);
        let a = tool_insert_datums(orig, id, owner, tenant, now);
        let b = tool_row_datums(row0);
        assert(a[0] == b[0] && a[1] == b[1] && a[2] == b[2] && a[3] == b[3] && a[4] == b[4]);
        assert(a[5] == b[5] && a[6] == b[6] && a[7] == b[7] && a[8] == b[8] && a[9] == b[9]);
        assert(a[10] == b[10] && a[11] == b[11] && a[12] == b[12] && a[13] == b[13]);
        lemma_stored_visibility(orig.visibility);
        reveal_strlit("http");
        reveal_strlit("function");
        assert("http"@.len() != "function"@.len());
        match orig.handler.timeout {
            Some(x) => {
                let y = row0.handler_timeout->0;
                assert(y == x as i32 ==> y as u32 == x) by (bit_vector);
            },
            None => {},
        }
    }
    t
}

/// A stored tool after an update at time `now`: each field of the request that is
/// present replaces the stored one, and the update time moves to `now` where any
/// field is present; the rest stays.
pub fn apply_tool_update(existing: Tool, u: UpdateTool, now: i64) -> (t: Tool)
    ensures
        t.id == existing.id,
        t.owner_id == existing.owner_id,
        t.tenant_id == existing.tenant_id,
        t.created_at == existing.created_at,
        t.updated_at == if tool_update_changes(u) {
            now
        } else {
            existing.updated_at
        },
        t.name == u.name.unwrap_or(existing.name),
        t.description == u.description.unwrap_or(existing.description),
        t.input_schema == u.input_schema.unwrap_or(existing.input_schema),
        t.output_schema == first_present(u.output_schema, existing.output_schema),
        t.handler == u.handler.unwrap_or(existing.handler),
        t.visibility == u.visibility.unwrap_or(existing.visibility),
{
    let changes = u.name.is_some() || u.description.is_some() || u.input_schema.is_some()
        || u.output_schema.is_some() || u.handler.is_some() || u.visibility.is_some();
    Tool {
        id: existing.id,
        name: u.name.unwrap_or(existing.name),
        description: u.description.unwrap_or(existing.description),
        input_schema: u.input_schema.unwrap_or(existing.input_schema),
        output_schema: or_keep(u.output_schema, existing.output_schema),
        handler: u.handler.unwrap_or(existing.handler),
        owner_id: existing.owner_id,
        tenant_id: existing.tenant_id,
        visibility: u.visibility.unwrap_or(existing.visibility),
        created_at: existing.created_at,
        updated_at: if changes {
            now
        } else {
            existing.updated_at
        },
    }
}

/// A statement's text and the values bound to it.
pub open spec fn statement_view(st: (String, Vec<SqlValue>)) -> (Seq<char>, Seq<SqlDatum>) {
    (st.0@, datums(st.1@))
}

/// One statement that sets a single column of the tool `id` and its update time.
pub open spec fn set_column(column: Seq<char>, value: SqlDatum, id: Seq<char>, now: Seq<char>) -> (
    Seq<char>,
    Seq<SqlDatum>,
) {
    (
        "UPDATE tools SET "@ + column + " = ?, updated_at = ? WHERE id = ?"@,
        seq![value, SqlDatum::Text(now), SqlDatum::Text(id)],
    )
}

/// The text of the statement that sets a tool's handler.
pub open spec fn handler_update_sql() -> Seq<char> {
    "UPDATE tools SET handler_type = ?, handler_url = ?, handler_method = ?, handler_timeout = ?, updated_at = ? WHERE id = ?"@
}

/// A handler timeout as the table stores it: `timeout as i32`, or NULL.
pub open spec fn timeout_datum(t: Option<u32>) -> SqlDatum {
    match t {
        Some(v) => SqlDatum::Int((v as i32) as int),
        None => SqlDatum::Null,
    }
}

/// The statement that sets a column where the request gives it a value.
pub open spec fn column_part(o: Option<String>, column: Seq<char>, id: Seq<char>, now: Seq<char>) -> Seq<
    (Seq<char>, Seq<SqlDatum>),
> {
    match o {
        Some(v) => seq![set_column(column, SqlDatum::Text(v@), id, now)],
        None => seq![],
    }
}

/// The statement that sets the handler where the request gives one.
pub open spec fn handler_part(o: Option<HandlerConfig>, id: Seq<char>, now: Seq<char>) -> Seq<
    (Seq<char>, Seq<SqlDatum>),
> {
    match o {
        Some(h) => seq![
            (
                handler_update_sql(),
                seq![
                    SqlDatum::Text(handler_type_name(h.handler_type)),
                    text_or_null(opt_view(h.url)),
                    text_or_null(opt_view(h.method)),
                    timeout_datum(h.timeout),
                    SqlDatum::Text(now),
                    SqlDatum::Text(id),
                ],
            ),
        ],
        None => seq![],
    }
}

/// The statement that sets the visibility where the request gives one.
pub open spec fn visibility_part(o: Option<Visibility>, id: Seq<char>, now: Seq<char>) -> Seq<
    (Seq<char>, Seq<SqlDatum>),
> {
    match o {
        Some(v) => seq![set_column("visibility"@, SqlDatum::Text(visibility_name(v)), id, now)],
        None => seq![],
    }
}

/// The statements, in order, that apply an update to the tool with identifier text
/// `id` at time `now`: one for each field of the request that is present, in the
/// order name, description, input schema, output schema, handler, visibility.
pub open spec fn tool_update_plan(u: UpdateTool, id: Seq<char>, now: Seq<char>) -> Seq<
    (Seq<char>, Seq<SqlDatum>),
> {
    column_part(u.name, "name"@, id, now) + column_part(u.description, "description"@, id, now)
        + column_part(u.input_schema, "input_schema"@, id, now) + column_part(
        u.output_schema,
        "output_schema"@,
        id,
        now,
    ) + handler_part(u.handler, id, now) + visibility_part(u.visibility, id, now)
}

/// The texts and values of a list of statements.
pub open spec fn statement_views(v: Seq<(String, Vec<SqlValue>)>) -> Seq<(Seq<char>, Seq<SqlDatum>)> {
    v.map_values(|st: (String, Vec<SqlValue>)| statement_view(st))
}

proof fn lemma_views_push(v: Seq<(String, Vec<SqlValue>)>, st: (String, Vec<SqlValue>))
    ensures
        statement_views(v.push(st)) == statement_views(v) + seq![statement_view(st)],
{
    assert(statement_views(v.push(st)) =~= statement_views(v) + seq![statement_view(st)]);
}

fn set_column_statement(column: &str, value: SqlValue, id: &str, now: &str) -> (r: (String, Vec<SqlValue>))
    ensures
        statement_view(r) == set_column(column@, value@, id@, now@),
{
    let ghost v0 = value@;
    let mut sql = string_from_str("UPDATE tools SET ");
    sql.append(column);
    sql.append(" = ?, updated_at = ? WHERE id = ?");
    let mut v: Vec<SqlValue> = Vec::new();
    v.push(value);
    v.push(text_value(now));
    v.push(text_value(id));
    assert(datums(v@) =~= seq![v0, SqlDatum::Text(now@), SqlDatum::Text(id@)]);
    (sql, v)
}

/// The statements that apply the update `u` to the tool with identifier text `id` at
/// time `now`, as `tool_update_plan` lists them.
pub fn tool_update_statements(u: UpdateTool, id: &str, now: &str) -> (r: Vec<(String, Vec<SqlValue>)>)
    ensures
        statement_views(r@) == tool_update_plan(u, id@, now@),
{
    let ghost u0 = u;
    let mut out: Vec<(String, Vec<SqlValue>)> = Vec::new();
    assert(statement_views(out@) =~= Seq::<(Seq<char>, Seq<SqlDatum>)>::empty());
    let ghost mut acc: Seq<(Seq<char>, Seq<SqlDatum>)> = seq![];
    if let Some(n) = u.name {
        let st = set_column_statement("name", SqlValue::Text(n), id, now);
        proof { lemma_views_push(out@, st); }
        out.push(st);
    }
    proof {
        acc = acc + column_part(u0.name, "name"@, id@, now@);
        assert(statement_views(out@) =~= acc);
    }
    if let Some(d) = u.description {
        let st = set_column_statement("description", SqlValue::Text(d), id, now);
        proof { lemma_views_push(out@, st); }
        out.push(st);
    }
    proof {
        acc = acc + column_part(u0.description, "description"@, id@, now@);
        assert(statement_views(out@) =~= acc);
    }
    if let Some(i) = u.input_schema {
        let st = set_column_statement("input_schema", SqlValue::Text(i), id, now);
        proof { lemma_views_push(out@, st); }
        out.push(st);
    }
    proof {
        acc = acc + column_part(u0.input_schema, "input_schema"@, id@, now@);
        assert(statement_views(out@) =~= acc);
    }
    if let Some(o) = u.output_schema {
        let st = set_column_statement("output_schema", SqlValue::Text(o), id, now);
        proof { lemma_views_push(out@, st); }
        out.push(st);
    }
    proof {
        acc = acc + column_part(u0.output_schema, "output_schema"@, id@, now@);
        assert(statement_views(out@) =~= acc);
    }
    if let Some(h) = u.handler {
        let st = handler_statement(h, id, now);
        proof { lemma_views_push(out@, st); }
        out.push(st);
    }
    proof {
        acc = acc + handler_part(u0.handler, id@, now@);
        assert(statement_views(out@) =~= acc);
    }
    if let Some(vis) = u.visibility {
        let st = set_column_statement("visibility", text_value(vis.as_str()), id, now);
        proof { lemma_views_push(out@, st); }
        out.push(st);
    }
    proof {
        acc = acc + visibility_part(u0.visibility, id@, now@);
        assert(statement_views(out@) =~= acc);
        assert(acc =~= tool_update_plan(u0, id@, now@));
    }
    out
}

fn handler_statement(h: HandlerConfig, id: &str, now: &str) -> (r: (String, Vec<SqlValue>))
    ensures
        seq![statement_view(r)] == handler_part(Some(h), id@, now@),
{
    let ghost h0 = h;
    let mut v: Vec<SqlValue> = Vec::new();
    v.push(text_value(h.handler_type.as_str()));
    v.push(opt_value(h.url));
    v.push(opt_value(h.method));
    v.push(
        match h.timeout {
            Some(t) => SqlValue::Int((t as i32) as i64),
            None => SqlValue::Null,
        },
    );
    v.push(text_value(now));
    v.push(text_value(id));
    let sql = string_from_str(
        "UPDATE tools SET handler_type = ?, handler_url = ?, handler_method = ?, handler_timeout = ?, updated_at = ? WHERE id = ?",
    );
    assert(datums(v@) =~= seq![
        SqlDatum::Text(handler_type_name(h0.handler_type)),
        text_or_null(opt_view(h0.url)),
        text_or_null(opt_view(h0.method)),
        timeout_datum(h0.timeout),
        SqlDatum::Text(now@),
        SqlDatum::Text(id@),
    ]);
    (sql, v)
}

// ---------------------------------------------------------------------------
// Git repositories
// ---------------------------------------------------------------------------

/// A stored git repository.
#[derive(Debug, Clone)]
pub struct GitRepo {
    pub id: u128,
    pub tenant_id: u128,
    pub name: String,
    pub description: String,
    pub default_branch: String,
    pub storage_path: String,
    pub visibility: Visibility,
    pub auto_merge: bool,
    pub require_review: bool,
    pub last_commit_sha: Option<String>,
    pub last_committed_at: Option<i64>,
    pub created_at: i64,
    pub updated_at: i64,
}

/// A request to create a git repository.
#[derive(Debug, Clone)]
pub struct NewGitRepo {
    pub name: String,
    pub description: Option<String>,
    pub default_branch: Option<String>,
    pub visibility: Option<Visibility>,
    pub auto_merge: Option<bool>,
    pub require_review: Option<bool>,
}

/// The storage path of a tenant's repository: `repos/<tenant>/<name>`.
pub open spec fn repo_storage_path(tenant: Seq<char>, name: Seq<char>) -> Seq<char> {
    "repos/"@ + tenant + "/"@ + name
}

/// The record of a newly created repository with identifier `id` in the tenant
/// `tenant_id`, whose identifier text is `tenant`, at time `now`: no description and
/// the branch `main` unless the request names them, private, not merged
/// automatically and with review required unless it asks otherwise, with no commit
/// yet.
pub fn new_git_repo_record(new: NewGitRepo, id: u128, tenant_id: u128, tenant: &str, now: i64) -> (g: GitRepo)
    ensures
        g.id == id,
        g.tenant_id == tenant_id,
        g.name == new.name,
        g.description@ == match new.description {
            Some(d) => d@,
            None => ""@,
        },
        g.default_branch@ == match new.default_branch {
            Some(b) => b@,
            None => "main"@,
        },
        g.storage_path@ == repo_storage_path(tenant@, new.name@),
        g.visibility == new.visibility.unwrap_or(Visibility::Private),
        g.auto_merge == new.auto_merge.unwrap_or(false),
        g.require_review == new.require_review.unwrap_or(true),
        g.last_commit_sha is None,
        g.last_committed_at is None,
        g.created_at == now,
        g.updated_at == now,
{
    let mut storage_path = string_from_str("repos/");
    storage_path.append(tenant);
    storage_path.append("/");
    storage_path.append(new.name.as_str());
    GitRepo {
        id,
        tenant_id,
        name: new.name,
        description: match new.description {
            Some(d) => d,
            None => string_from_str(""),
        },
        default_branch: match new.default_branch {
            Some(b) => b,
            None => string_from_str("main"),
        },
        storage_path,
        visibility: new.visibility.unwrap_or(Visibility::Private),
        auto_merge: new.auto_merge.unwrap_or(false),
        require_review: new.require_review.unwrap_or(true),
        last_commit_sha: None,
        last_committed_at: None,
        created_at: now,
        updated_at: now,
    }
}

/// A request to change a repository: each field that is present replaces the stored
/// one.
#[derive(Debug, Clone)]
pub struct UpdateGitRepo {
    pub name: Option<String>,
    pub description: Option<String>,
    pub default_branch: Option<String>,
    pub visibility: Option<Visibility>,
    pub auto_merge: Option<bool>,
    pub require_review: Option<bool>,
}

/// A stored repository after an update at time `now`: each field of the request that
/// is present replaces the stored one; the storage path stays where it is (a renamed
/// repository keeps its directory), and so do the last commit and the creation time.
pub fn apply_git_repo_update(existing: GitRepo, u: UpdateGitRepo, now: i64) -> (g: GitRepo)
    ensures
        g.id == existing.id,
        g.tenant_id == existing.tenant_id,
        g.storage_path == existing.storage_path,
        g.last_commit_sha == existing.last_commit_sha,
        g.last_committed_at == existing.last_committed_at,
        g.created_at == existing.created_at,
        g.updated_at == now,
        g.name == u.name.unwrap_or(existing.name),
        g.description == u.description.unwrap_or(existing.description),
        g.default_branch == u.default_branch.unwrap_or(existing.default_branch),
        g.visibility == u.visibility.unwrap_or(existing.visibility),
        g.auto_merge == u.auto_merge.unwrap_or(existing.auto_merge),
        g.require_review == u.require_review.unwrap_or(existing.require_review),
{
    GitRepo {
        id: existing.id,
        tenant_id: existing.tenant_id,
        name: u.name.unwrap_or(existing.name),
        description: u.description.unwrap_or(existing.description),
        default_branch: u.default_branch.unwrap_or(existing.default_branch),
        storage_path: existing.storage_path,
        visibility: u.visibility.unwrap_or(existing.visibility),
        auto_merge: u.auto_merge.unwrap_or(existing.auto_merge),
        require_review: u.require_review.unwrap_or(existing.require_review),
        last_commit_sha: existing.last_commit_sha,
        last_committed_at: existing.last_committed_at,
        created_at: existing.created_at,
        updated_at: now,
    }
}

/// Records the latest commit `sha`, made at `committed_at`, at time `now`; everything
/// else stays.
pub fn record_last_commit(g: &mut GitRepo, sha: String, committed_at: i64, now: i64)
    ensures
        *final(g) == (GitRepo {
            last_commit_sha: Some(sha),
            last_committed_at: Some(committed_at),
            updated_at: now,
            ..*old(g)
        }),
{
    g.last_commit_sha = Some(sha);
    g.last_committed_at = Some(committed_at);
    g.updated_at = now;
}

/// A row of the `git_repos` table, as the repositories read it.
#[derive(Debug, Clone)]
pub struct StoredGitRepo {
    pub id: String,
    pub tenant_id: String,
    pub name: String,
    pub description: String,
    pub default_branch: String,
    pub storage_path: String,
    pub visibility: String,
    pub auto_merge: i64,
    pub require_review: i64,
    pub last_commit_sha: Option<String>,
    pub last_committed_at: Option<String>,
    pub created_at: String,
    pub updated_at: String,
}

/// Why a stored row could not be read.
#[derive(Debug)]
pub enum RowError {
    Decode(String),
}

/// The message of the first column of a repositories row that does not read: an
/// unknown visibility, then the times of the last commit, the creation and the
/// update, each with chrono's error; `None` where every column reads.
pub open spec fn git_repo_row_failure(row: StoredGitRepo) -> Option<Seq<char>> {
    if row.visibility@ != "public"@ && row.visibility@ != "private"@ {
        Some("Unknown visibility: "@ + row.visibility@)
    } else if row.last_committed_at matches Some(t) && rfc3339_seconds(t@) is None {
        Some("Failed to parse last_committed_at: "@ + rfc3339_error(row.last_committed_at->0@))
    } else if rfc3339_seconds(row.created_at@) is None {
        Some("Failed to parse created_at: "@ + rfc3339_error(row.created_at@))
    } else if rfc3339_seconds(row.updated_at@) is None {
        Some("Failed to parse updated_at: "@ + rfc3339_error(row.updated_at@))
    } else {
        None
    }
}

/// Whether `g` is the repository read from `row`, where every column reads:
/// identifiers that do not parse are nil, the flags are set where non-zero.
pub open spec fn git_repo_read_from(row: StoredGitRepo, g: GitRepo) -> bool {
    &&& g.id == uuid_or_nil(row.id@)
    &&& g.tenant_id == uuid_or_nil(row.tenant_id@)
    &&& g.name == row.name
    &&& g.description == row.description
    &&& g.default_branch == row.default_branch
    &&& g.storage_path == row.storage_path
    &&& g.visibility == stored_visibility(row.visibility@)
    &&& g.auto_merge == (row.auto_merge != 0)
    &&& g.require_review == (row.require_review != 0)
    &&& g.last_commit_sha == row.last_commit_sha
    &&& g.last_committed_at == match row.last_committed_at {
        Some(t) => rfc3339_seconds(t@),
        None => None,
    }
    &&& Some(g.created_at) == rfc3339_seconds(row.created_at@)
    &&& Some(g.updated_at) == rfc3339_seconds(row.updated_at@)
}

/// The values that a repositories row holds in the columns that its INSERT statement
/// fills, in that order.
pub open spec fn git_repo_row_datums(r: StoredGitRepo) -> Seq<SqlDatum> {
    seq![
        SqlDatum::Text(r.id@),
        SqlDatum::Text(r.tenant_id@),
        SqlDatum::Text(r.name@),
        SqlDatum::Text(r.description@),
        SqlDatum::Text(r.default_branch@),
        SqlDatum::Text(r.storage_path@),
        SqlDatum::Text(r.visibility@),
        SqlDatum::Int(r.auto_merge as int),
        SqlDatum::Int(r.require_review as int),
        SqlDatum::Text(r.created_at@),
        SqlDatum::Text(r.updated_at@),
    ]
}

/// Whether two repositories hold the same values, field by field.
pub open spec fn same_git_repo(a: GitRepo, b: GitRepo) -> bool {
    &&& a.id == b.id
    &&& a.tenant_id == b.tenant_id
    &&& a.name@ == b.name@
    &&& a.description@ == b.description@
    &&& a.default_branch@ == b.default_branch@
    &&& a.storage_path@ == b.storage_path@
    &&& a.visibility == b.visibility
    &&& a.auto_merge == b.auto_merge
    &&& a.require_review == b.require_review
    &&& opt_view(a.last_commit_sha) == opt_view(b.last_commit_sha)
    &&& a.last_committed_at == b.last_committed_at
    &&& a.created_at == b.created_at
    &&& a.updated_at == b.updated_at
}

/// Whether `row` stores the new repository `g`: the columns that the INSERT statement
/// fills hold what it binds for `g`, with identifier texts that name `g`'s identifiers
/// and a creation time that names `g`'s (which is also its update time), and no
/// commit is recorded yet.
pub open spec fn git_repo_stored_as(row: StoredGitRepo, g: GitRepo) -> bool {
    &&& exists|id: Seq<char>, tenant: Seq<char>, now: Seq<char>|
        #[trigger] git_repo_insert_datums(g, id, tenant, now) == git_repo_row_datums(row)
            && uuid_parse(id) == Some(g.id) && uuid_parse(tenant) == Some(g.tenant_id)
            && rfc3339_seconds(now) == Some(g.created_at)
    &&& g.updated_at == g.created_at
    &&& row.last_commit_sha is None && row.last_committed_at is None
    &&& g.last_commit_sha is None && g.last_committed_at is None
}

fn column_error(prefix: &str, e: String) -> (r: RowError)
    ensures
        r matches RowError::Decode(m) && m@ == prefix@ + e@,
{
    let mut m = string_from_str(prefix);
    m.append(e.as_str());
    RowError::Decode(m)
}

/// Reads a repositories row back: an error, with the message that
/// `git_repo_row_failure` gives, where a column does not read, and the repository as
/// `git_repo_read_from` says otherwise. A row that stores a new repository reads back
/// as that repository.
pub fn git_repo_from_stored(row: StoredGitRepo) -> (r: Result<GitRepo, RowError>)
    ensures
        match git_repo_row_failure(row) {
            Some(m) => r matches Err(RowError::Decode(msg)) && msg@ == m,
            None => r matches Ok(g) && git_repo_read_from(row, g),
        },
        forall|orig: GitRepo| #[trigger] git_repo_stored_as(row, orig) ==> (r matches Ok(g) && same_git_repo(g, orig)),
{
    let ghost row0 = row;
    let visibility = match Visibility::parse_strict(row.visibility.as_str()) {
        Ok(v) => v,
        Err(m) => {
            return Err(RowError::Decode(m));
        },
    };
    let last_committed_at = match &row.last_committed_at {
        Some(t) => match parse_rfc3339(t.as_str()) {
            Ok(v) => Some(v),
            Err(e) => {
                return Err(column_error("Failed to parse last_committed_at: ", e));
            },
        },
        None => None,
    };
    let created_at = match parse_rfc3339(row.created_at.as_str()) {
        Ok(v) => v,
        Err(e) => {
            return Err(column_error("Failed to parse created_at: ", e));
        },
    };
    let updated_at = match parse_rfc3339(row.updated_at.as_str()) {
        Ok(v) => v,
        Err(e) => {
            return Err(column_error("Failed to parse updated_at: ", e));
        },
    };
    proof {
        lemma_stored_visibility(visibility);
    }
    let g = GitRepo {
        id: uuid_or_nil_of(row.id.as_str()),
        tenant_id: uuid_or_nil_of(row.tenant_id.as_str()),
        name: row.name,
        description: row.description,
        default_branch: row.default_branch,
        storage_path: row.storage_path,
        visibility,
        auto_merge: row.auto_merge != 0,
        require_review: row.require_review != 0,
        last_commit_sha: row.last_commit_sha,
        last_committed_at,
        created_at,
        updated_at,
    };
    assert forall|orig: GitRepo| #[trigger] git_repo_stored_as(row0, orig) implies same_git_repo(g, orig) by {
        let (id, tenant, now) = choose|id: Seq<char>, tenant: Seq<char>, now: Seq<char>|
            #[trigger] git_repo_insert_datums(orig, id, tenant, now) == git_repo_row_datums(row0)
                && uuid_parse(id) == Some(orig.id) && uuid_parse(tenant) == Some(orig.tenant_id)
                && rfc3339_seconds(now) == Some(orig.created_at);
        let a = git_repo_insert_datums(orig, id, tenant, now);
        let b = git_repo_row_datums(row0);
        assert(a[0] == b[0] && a[1] == b[1] && a[2] == b[2] && a[3] == b[3] && a[4] == b[4]);
        assert(a[5] == b[5] && a[6] == b[6] && a[7] == b[7] && a[8] == b[8] && a[9] == b[9]);
        assert(a[10] == b[10]);
        lemma_stored_visibility(orig.visibility);
    }
    Ok(g)
}

/// The text of the statement that stores a new repository.
pub open spec fn git_repo_insert_sql() -> Seq<char> {
    "INSERT INTO git_repos (id, tenant_id, name, description, default_branch, storage_path, visibility, auto_merge, require_review, created_at, updated_at) VALUES (?, ?, ?, ?, ?, ?, ?, ?, ?, ?, ?)"@
}

/// The statement that stores the new repository `g`, with the texts of its
/// The values that the statement storing the new repository `g` binds, in column
/// order, with the texts of its identifier and tenant and of the creation time.
pub open spec fn git_repo_insert_datums(g: GitRepo, id: Seq<char>, tenant: Seq<char>, now: Seq<char>) -> Seq<SqlDatum> {
    seq![
        SqlDatum::Text(id),
        SqlDatum::Text(tenant),
        SqlDatum::Text(g.name@),
        SqlDatum::Text(g.description@),
        SqlDatum::Text(g.default_branch@),
        SqlDatum::Text(g.storage_path@),
        SqlDatum::Text(visibility_name(g.visibility)),
        SqlDatum::Int(flag(g.auto_merge)),
        SqlDatum::Int(flag(g.require_review)),
        SqlDatum::Text(now),
        SqlDatum::Text(now),
    ]
}

/// identifier and tenant and of the creation time.
pub fn git_repo_insert_statement(g: GitRepo, id: &str, tenant: &str, now: &str) -> (r: (String, Vec<SqlValue>))
    ensures
        r.0@ == git_repo_insert_sql(),
        datums(r.1@) == git_repo_insert_datums(g, id@, tenant@, now@),
{
    let ghost g0 = g;
    let mut v: Vec<SqlValue> = Vec::new();
    v.push(text_value(id));
    v.push(text_value(tenant));
    v.push(SqlValue::Text(g.name));
    v.push(SqlValue::Text(g.description));
    v.push(SqlValue::Text(g.default_branch));
    v.push(SqlValue::Text(g.storage_path));
    v.push(text_value(g.visibility.as_str()));
    v.push(flag_value(g.auto_merge));
    v.push(flag_value(g.require_review));
    v.push(text_value(now));
    v.push(text_value(now));
    let sql = string_from_str(
        "INSERT INTO git_repos (id, tenant_id, name, description, default_branch, storage_path, visibility, auto_merge, require_review, created_at, updated_at) VALUES (?, ?, ?, ?, ?, ?, ?, ?, ?, ?, ?)",
    );
    assert(datums(v@) =~= seq![
        SqlDatum::Text(id@),
        SqlDatum::Text(tenant@),
        SqlDatum::Text(g0.name@),
        SqlDatum::Text(g0.description@),
        SqlDatum::Text(g0.default_branch@),
        SqlDatum::Text(g0.storage_path@),
        SqlDatum::Text(visibility_name(g0.visibility)),
        SqlDatum::Int(flag(g0.auto_merge)),
        SqlDatum::Int(flag(g0.require_review)),
        SqlDatum::Text(now@),
        SqlDatum::Text(now@),
    ]);
    (sql, v)
}

// ---------------------------------------------------------------------------
// API keys and invitations
// ---------------------------------------------------------------------------

/// The state of an API key.
#[derive(Debug, Clone, Copy, PartialEq, Eq, Structural)]
pub enum ApiKeyStatus {
    Active,
    Revoked,
    Expired,
}

/// The status that a stored name reads as: `revoked` and `expired` name theirs; any
/// other name, or none, reads as active.
pub open spec fn stored_api_key_status(s: Option<Seq<char>>) -> ApiKeyStatus {
    match s {
        Some(n) => if n == "revoked"@ {
            ApiKeyStatus::Revoked
        } else if n == "expired"@ {
            ApiKeyStatus::Expired
        } else {
            ApiKeyStatus::Active
        },
        None => ApiKeyStatus::Active,
    }
}

impl ApiKeyStatus {
    /// The status that a stored row names.
    pub fn from_stored(s: Option<&str>) -> (r: ApiKeyStatus)
        ensures
            r == stored_api_key_status(
                match s {
                    Some(t) => Some(t@),
                    None => None,
                },
            ),
    {
        match s {
            Some(t) => if crate::text::str_equals(t, "revoked") {
                ApiKeyStatus::Revoked
            } else if crate::text::str_equals(t, "expired") {
                ApiKeyStatus::Expired
            } else {
                ApiKeyStatus::Active
            },
            None => ApiKeyStatus::Active,
        }
    }
}

/// A stored API key; only the hash of the secret is kept, with its visible prefix.
/// The permissions are held as their JSON text.
#[derive(Debug, Clone)]
pub struct ApiKey {
    pub id: u128,
    pub tenant_id: u128,
    pub user_id: u128,
    pub name: String,
    pub key_hash: String,
    pub key_prefix: String,
    pub permissions: String,
    pub status: ApiKeyStatus,
    pub rate_limit: u32,
    pub request_count: u32,
    pub last_used_at: Option<i64>,
    pub expires_at: Option<i64>,
    pub created_at: i64,
    pub updated_at: i64,
}

/// A request to issue an API key.
#[derive(Debug, Clone)]
pub struct NewApiKey {
    pub tenant_id: u128,
    pub user_id: u128,
    pub name: String,
    pub key_hash: String,
    pub key_prefix: String,
    pub permissions: String,
    pub rate_limit: Option<u32>,
    pub expires_at: Option<i64>,
}

/// The record of a newly issued API key with identifier `id` at time `now`: active,
/// unused, limited to 1000 requests a minute unless the request says otherwise.
pub fn new_api_key_record(new: NewApiKey, id: u128, now: i64) -> (k: ApiKey)
    ensures
        k.id == id,
        k.tenant_id == new.tenant_id,
        k.user_id == new.user_id,
        k.name == new.name,
        k.key_hash == new.key_hash,
        k.key_prefix == new.key_prefix,
        k.permissions == new.permissions,
        k.status == ApiKeyStatus::Active,
        k.rate_limit == new.rate_limit.unwrap_or(1000),
        k.request_count == 0,
        k.last_used_at is None,
        k.expires_at == new.expires_at,
        k.created_at == now,
        k.updated_at == now,
{
    ApiKey {
        id,
        tenant_id: new.tenant_id,
        user_id: new.user_id,
        name: new.name,
        key_hash: new.key_hash,
        key_prefix: new.key_prefix,
        permissions: new.permissions,
        status: ApiKeyStatus::Active,
        rate_limit: new.rate_limit.unwrap_or(1000),
        request_count: 0,
        last_used_at: None,
        expires_at: new.expires_at,
        created_at: now,
        updated_at: now,
    }
}

/// Revokes an API key at `now`; everything else stays.
pub fn revoke_api_key(k: &mut ApiKey, now: i64)
    ensures
        *final(k) == (ApiKey { status: ApiKeyStatus::Revoked, updated_at: now, ..*old(k) }),
{
    k.status = ApiKeyStatus::Revoked;
    k.updated_at = now;
}

/// A stored invitation into a tenant.
#[derive(Debug, Clone)]
pub struct Invitation {
    pub id: u128,
    pub tenant_id: u128,
    pub email: String,
    pub role: String,
    pub token: String,
    pub expires_at: i64,
    pub created_by: u128,
    pub accepted_at: Option<i64>,
    pub created_at: i64,
}

/// A request to invite someone into a tenant.
#[derive(Debug, Clone)]
pub struct NewInvitation {
    pub tenant_id: u128,
    pub email: String,
    pub role: String,
    pub token: String,
    pub expires_at: i64,
    pub created_by: u128,
}

/// The record of a new invitation with identifier `id` at time `now`: not yet
/// accepted.
pub fn new_invitation_record(new: NewInvitation, id: u128, now: i64) -> (v: Invitation)
    ensures
        v.id == id,
        v.tenant_id == new.tenant_id,
        v.email == new.email,
        v.role == new.role,
        v.token == new.token,
        v.expires_at == new.expires_at,
        v.created_by == new.created_by,
        v.accepted_at is None,
        v.created_at == now,
{
    Invitation {
        id,
        tenant_id: new.tenant_id,
        email: new.email,
        role: new.role,
        token: new.token,
        expires_at: new.expires_at,
        created_by: new.created_by,
        accepted_at: None,
        created_at: now,
    }
}

/// Accepts an invitation at `now`; everything else stays.
pub fn accept_invitation(v: &mut Invitation, now: i64)
    ensures
        *final(v) == (Invitation { accepted_at: Some(now), ..*old(v) }),
{
    v.accepted_at = Some(now);
}

} // verus!
