//! The listing and counting statements of the skill, snippet and tool
//! repositories. A statement is built from pieces, fixed text and placeholders,
//! so that its text and the values bound to it cannot drift apart: the k-th
//! placeholder of the text is bound to the k-th value, for SQLite (`?`) and
//! PostgreSQL (`$k`) alike.

use vstd::prelude::*;
use crate::text::{nat_decimal, push_decimal, string_from_str};

verus! {

/// The SQL dialects of the repositories.
#[derive(Debug, Clone, Copy, PartialEq, Eq, Structural)]
pub enum Dialect {
    Sqlite,
    Postgres,
}

/// A piece of a statement: fixed text, or a placeholder bound to a value.
pub enum Piece {
    Text(Seq<char>),
    Param(Seq<char>),
}

/// The placeholder of the `k`-th bound value (counted from 1).
pub open spec fn placeholder(d: Dialect, k: nat) -> Seq<char> {
    match d {
        Dialect::Sqlite => "?"@,
        Dialect::Postgres => "$"@ + nat_decimal(k),
    }
}

/// The number of placeholders among the pieces.
pub open spec fn param_count(p: Seq<Piece>) -> nat
    decreases p.len(),
{
    if p.len() == 0 {
        0
    } else {
        param_count(p.drop_last()) + if p.last() is Param {
            1nat
        } else {
            0nat
        }
    }
}

/// The text of a statement: each placeholder numbered by its position among the
/// placeholders.
pub open spec fn render(p: Seq<Piece>, d: Dialect) -> Seq<char>
    decreases p.len(),
{
    if p.len() == 0 {
        Seq::empty()
    } else {
        let r = render(p.drop_last(), d);
        match p.last() {
            Piece::Text(t) => r + t,
            Piece::Param(_) => r + placeholder(d, param_count(p.drop_last()) + 1),
        }
    }
}

/// The values bound to a statement's placeholders, in order.
pub open spec fn bound_values(p: Seq<Piece>) -> Seq<Seq<char>>
    decreases p.len(),
{
    if p.len() == 0 {
        Seq::empty()
    } else {
        let r = bound_values(p.drop_last());
        match p.last() {
            Piece::Text(_) => r,
            Piece::Param(v) => r.push(v),
        }
    }
}

/// Every placeholder of a statement has its value: there are as many values as
/// placeholders.
pub proof fn law_every_placeholder_is_bound(p: Seq<Piece>)
    ensures
        bound_values(p).len() == param_count(p),
    decreases p.len(),
{
    if p.len() > 0 {
        law_every_placeholder_is_bound(p.drop_last());
    }
}

proof fn lemma_bound_values_concat(a: Seq<Piece>, b: Seq<Piece>)
    ensures
        bound_values(a + b) == bound_values(a) + bound_values(b),
    decreases b.len(),
{
    if b.len() == 0 {
        assert(a + b =~= a);
        assert(bound_values(a) + bound_values(b) =~= bound_values(a));
    } else {
        assert((a + b).drop_last() =~= a + b.drop_last());
        lemma_bound_values_concat(a, b.drop_last());
        assert((a + b).last() == b.last());
        match b.last() {
            Piece::Text(_) => {},
            Piece::Param(v) => {
                assert(bound_values(a) + bound_values(b.drop_last()).push(v) =~= (bound_values(a)
                    + bound_values(b.drop_last())).push(v));
            },
        }
    }
}

/// The values bound to a piece sequence as views.
pub open spec fn values_view(v: Seq<String>) -> Seq<Seq<char>> {
    v.map_values(|s: String| s@)
}

/// A statement under construction.
pub struct Statement {
    sql: String,
    bindings: Vec<String>,
    dialect: Dialect,
    pieces: Ghost<Seq<Piece>>,
}

impl Statement {
    /// The pieces the statement is made of.
    pub closed spec fn pieces(&self) -> Seq<Piece> {
        self.pieces@
    }

    /// The dialect the statement is written in.
    pub closed spec fn dialect(&self) -> Dialect {
        self.dialect
    }

    /// The text and the bound values are those of the pieces.
    pub closed spec fn wf(&self) -> bool {
        &&& self.sql@ == render(self.pieces@, self.dialect)
        &&& values_view(self.bindings@) == bound_values(self.pieces@)
    }

    /// A statement that starts with the fixed text `head`.
    pub fn new(dialect: Dialect, head: &str) -> (st: Self)
        ensures
            st.wf(),
            st.dialect() == dialect,
            st.pieces() == seq![Piece::Text(head@)],
    {
        let ghost p = seq![Piece::Text(head@)];
        let st = Statement {
            sql: string_from_str(head),
            bindings: Vec::new(),
            dialect,
            pieces: Ghost(p),
        };
        assert(p.drop_last() =~= Seq::<Piece>::empty());
        assert(p.last() == Piece::Text(head@));
        assert(render(Seq::<Piece>::empty(), dialect) == Seq::<char>::empty());
        assert(bound_values(Seq::<Piece>::empty()) == Seq::<Seq<char>>::empty());
        assert(Seq::<char>::empty() + head@ =~= head@);
        assert(render(p, dialect) =~= head@);
        assert(values_view(st.bindings@) =~= bound_values(p));
        st
    }

    /// Appends fixed text.
    pub fn text(&mut self, t: &str)
        requires
            old(self).wf(),
        ensures
            final(self).wf(),
            final(self).dialect() == old(self).dialect(),
            final(self).pieces() == old(self).pieces().push(Piece::Text(t@)),
    {
        let ghost p = self.pieces@.push(Piece::Text(t@));
        assert(p.drop_last() =~= self.pieces@);
        self.sql.append(t);
        self.pieces = Ghost(p);
    }

    /// Appends a placeholder bound to `value`.
    pub fn param(&mut self, value: String)
        requires
            old(self).wf(),
        ensures
            final(self).wf(),
            final(self).dialect() == old(self).dialect(),
            final(self).pieces() == old(self).pieces().push(Piece::Param(value@)),
    {
        proof {
            law_every_placeholder_is_bound(self.pieces@);
        }
        let ghost v = value@;
        let ghost p = self.pieces@.push(Piece::Param(v));
        assert(p.drop_last() =~= self.pieces@);
        assert(values_view(self.bindings@).len() == self.bindings@.len());
        assert(self.bindings@.len() == param_count(self.pieces@));
        let ghost old_sql = self.sql@;
        match self.dialect {
            Dialect::Sqlite => {
                self.sql.append("?");
            },
            Dialect::Postgres => {
                let k = self.bindings.len() as u128 + 1;
                self.sql.append("$");
                push_decimal(&mut self.sql, k);
                assert(self.sql@ =~= old_sql + ("$"@ + nat_decimal(k as nat)));
            },
        }
        let ghost before = self.bindings@;
        self.bindings.push(value);
        assert(values_view(self.bindings@) =~= values_view(before).push(v));
        assert(bound_values(p) == bound_values(self.pieces@).push(v));
        assert(render(p, self.dialect) == render(self.pieces@, self.dialect) + placeholder(
            self.dialect,
            param_count(self.pieces@) + 1,
        ));
        self.pieces = Ghost(p);
    }

    /// The statement's text and its bound values.
    pub fn finish(self) -> (r: (String, Vec<String>))
        requires
            self.wf(),
        ensures
            r.0@ == render(self.pieces(), self.dialect()),
            values_view(r.1@) == bound_values(self.pieces()),
    {
        (self.sql, self.bindings)
    }
}

// ---------------------------------------------------------------------------
// Filters
// ---------------------------------------------------------------------------

/// Who may see a published item.
#[derive(Debug, Clone, Copy, PartialEq, Eq, Structural)]
pub enum Visibility {
    Public,
    Private,
}

/// The runtime a skill runs on.
#[derive(Debug, Clone, Copy, PartialEq, Eq, Structural)]
pub enum Runtime {
    Python311,
    Node20,
    Wasm,
}

/// The stored name of a visibility.
pub open spec fn visibility_name(v: Visibility) -> Seq<char> {
    match v {
        Visibility::Public => "public"@,
        Visibility::Private => "private"@,
    }
}

/// The stored name of a runtime.
pub open spec fn runtime_name(r: Runtime) -> Seq<char> {
    match r {
        Runtime::Python311 => "python311"@,
        Runtime::Node20 => "node20"@,
        Runtime::Wasm => "wasm"@,
    }
}

impl Visibility {
    pub fn as_str(&self) -> (r: &'static str)
        ensures
            r@ == visibility_name(*self),
    {
        match self {
            Visibility::Public => "public",
            Visibility::Private => "private",
        }
    }
}

impl Runtime {
    pub fn as_str(&self) -> (r: &'static str)
        ensures
            r@ == runtime_name(*self),
    {
        match self {
            Runtime::Python311 => "python311",
            Runtime::Node20 => "node20",
            Runtime::Wasm => "wasm",
        }
    }
}

/// The runtime that a stored name reads as: `python311` and `node20` name theirs, any
/// other name reads as WebAssembly.
pub open spec fn stored_runtime(s: Seq<char>) -> Runtime {
    if s == "python311"@ {
        Runtime::Python311
    } else if s == "node20"@ {
        Runtime::Node20
    } else {
        Runtime::Wasm
    }
}

/// The visibility that a stored name reads as: `public`, and private for any other
/// name.
pub open spec fn stored_visibility(s: Seq<char>) -> Visibility {
    if s == "public"@ {
        Visibility::Public
    } else {
        Visibility::Private
    }
}

impl Runtime {
    /// The runtime that a stored row names.
    pub fn from_stored(s: &str) -> (r: Runtime)
        ensures
            r == stored_runtime(s@),
    {
        if crate::text::str_equals(s, "python311") {
            Runtime::Python311
        } else if crate::text::str_equals(s, "node20") {
            Runtime::Node20
        } else {
            Runtime::Wasm
        }
    }
}

impl Visibility {
    /// The visibility that a stored row names.
    pub fn from_stored(s: &str) -> (r: Visibility)
        ensures
            r == stored_visibility(s@),
    {
        if crate::text::str_equals(s, "public") {
            Visibility::Public
        } else {
            Visibility::Private
        }
    }

    /// The visibility of a stored repository row, which must name one.
    pub fn parse_strict(s: &str) -> (r: Result<Visibility, String>)
        ensures
            s@ == "public"@ ==> r == Ok::<Visibility, String>(Visibility::Public),
            s@ == "private"@ ==> r == Ok::<Visibility, String>(Visibility::Private),
            s@ != "public"@ && s@ != "private"@ ==> (r matches Err(m) && m@ == "Unknown visibility: "@
                + s@),
    {
        proof {
            reveal_strlit("public");
            reveal_strlit("private");
            assert("public"@.len() != "private"@.len());
        }
        if crate::text::str_equals(s, "public") {
            Ok(Visibility::Public)
        } else if crate::text::str_equals(s, "private") {
            Ok(Visibility::Private)
        } else {
            let mut m = string_from_str("Unknown visibility: ");
            m.append(s);
            Err(m)
        }
    }
}

/// The life cycle of a stored repository.
#[derive(Debug, Clone, Copy, PartialEq, Eq, Structural)]
pub enum RepoLifecycleStatus {
    Creating,
    Active,
    Error,
    Deleting,
}

/// The stored name of a life-cycle status.
pub open spec fn lifecycle_name(s: RepoLifecycleStatus) -> Seq<char> {
    match s {
        RepoLifecycleStatus::Creating => "CREATING"@,
        RepoLifecycleStatus::Active => "ACTIVE"@,
        RepoLifecycleStatus::Error => "ERROR"@,
        RepoLifecycleStatus::Deleting => "DELETING"@,
    }
}

/// The status that a stored name denotes.
pub open spec fn lifecycle_of_name(s: Seq<char>) -> Option<RepoLifecycleStatus> {
    if s == "CREATING"@ {
        Some(RepoLifecycleStatus::Creating)
    } else if s == "ACTIVE"@ {
        Some(RepoLifecycleStatus::Active)
    } else if s == "ERROR"@ {
        Some(RepoLifecycleStatus::Error)
    } else if s == "DELETING"@ {
        Some(RepoLifecycleStatus::Deleting)
    } else {
        None
    }
}

impl RepoLifecycleStatus {
    /// The stored name of the status.
    pub fn as_str(&self) -> (r: &'static str)
        ensures
            r@ == lifecycle_name(*self),
    {
        match self {
            RepoLifecycleStatus::Creating => "CREATING",
            RepoLifecycleStatus::Active => "ACTIVE",
            RepoLifecycleStatus::Error => "ERROR",
            RepoLifecycleStatus::Deleting => "DELETING",
        }
    }

    /// The status that a stored row names; an error for any other name.
    pub fn parse(s: &str) -> (r: Result<RepoLifecycleStatus, String>)
        ensures
            match lifecycle_of_name(s@) {
                Some(x) => r == Ok::<RepoLifecycleStatus, String>(x),
                None => r matches Err(m) && m@ == "Unknown lifecycle status: "@ + s@,
            },
    {
        if crate::text::str_equals(s, "CREATING") {
            Ok(RepoLifecycleStatus::Creating)
        } else if crate::text::str_equals(s, "ACTIVE") {
            Ok(RepoLifecycleStatus::Active)
        } else if crate::text::str_equals(s, "ERROR") {
            Ok(RepoLifecycleStatus::Error)
        } else if crate::text::str_equals(s, "DELETING") {
            Ok(RepoLifecycleStatus::Deleting)
        } else {
            let mut m = string_from_str("Unknown lifecycle status: ");
            m.append(s);
            Err(m)
        }
    }
}

/// What is stored reads back as what was stored: runtimes, visibilities and life-cycle
/// statuses round-trip through their stored names.
pub proof fn law_stored_names_round_trip(r: Runtime, v: Visibility, l: RepoLifecycleStatus)
    ensures
        stored_runtime(runtime_name(r)) == r,
        stored_visibility(visibility_name(v)) == v,
        lifecycle_of_name(lifecycle_name(l)) == Some(l),
{
    reveal_strlit("python311");
    reveal_strlit("node20");
    reveal_strlit("wasm");
    reveal_strlit("public");
    reveal_strlit("private");
    reveal_strlit("CREATING");
    reveal_strlit("ACTIVE");
    reveal_strlit("ERROR");
    reveal_strlit("DELETING");
    assert("python311"@.len() != "node20"@.len());
    assert("python311"@.len() != "wasm"@.len());
    assert("node20"@.len() != "wasm"@.len());
    assert("public"@.len() != "private"@.len());
    assert("CREATING"@.len() != "ACTIVE"@.len());
    assert("CREATING"@.len() != "ERROR"@.len());
    assert("CREATING"@[0] != "DELETING"@[0]);
    assert("ACTIVE"@.len() != "ERROR"@.len());
    assert("ACTIVE"@.len() != "DELETING"@.len());
    assert("ERROR"@.len() != "DELETING"@.len());
}

/// The conditions of a skill listing. Ids are written as the text of their UUIDs.
#[derive(Debug, Clone)]
pub struct SkillFilter {
    pub tenant_id: Option<String>,
    pub search: Option<String>,
    pub runtime: Option<Runtime>,
    pub visibility: Option<Visibility>,
    pub owner_id: Option<String>,
    pub page: Option<u32>,
    pub per_page: Option<u32>,
}

/// The conditions of a snippet listing.
#[derive(Debug, Clone)]
pub struct SnippetFilter {
    pub tenant_id: Option<String>,
    pub search: Option<String>,
    pub language: Option<String>,
    pub framework: Option<String>,
    pub tags: Vec<String>,
    pub visibility: Option<Visibility>,
    pub owner_id: Option<String>,
    pub page: Option<u32>,
    pub per_page: Option<u32>,
}

/// The conditions of a tool listing.
#[derive(Debug, Clone)]
pub struct ToolFilter {
    pub tenant_id: Option<String>,
    pub search: Option<String>,
    pub visibility: Option<Visibility>,
    pub owner_id: Option<String>,
    pub page: Option<u32>,
    pub per_page: Option<u32>,
}

/// `column = value` where a value is given.
pub open spec fn equals_pieces(prefix: Seq<char>, v: Option<Seq<char>>) -> Seq<Piece> {
    match v {
        Some(s) => seq![Piece::Text(prefix), Piece::Param(s)],
        None => Seq::empty(),
    }
}

/// The view of an optional text.
pub open spec fn opt_view(v: Option<String>) -> Option<Seq<char>> {
    match v {
        Some(s) => Some(s@),
        None => None,
    }
}

/// The pattern that finds `s` anywhere in a column.
pub open spec fn like_pattern(s: Seq<char>) -> Seq<char> {
    "%"@ + s + "%"@
}

/// The search over a name and a description, where a search text is given.
pub open spec fn search2_pieces(search: Option<Seq<char>>) -> Seq<Piece> {
    match search {
        Some(s) => seq![
            Piece::Text(" AND (name LIKE "@),
            Piece::Param(like_pattern(s)),
            Piece::Text(" OR description LIKE "@),
            Piece::Param(like_pattern(s)),
            Piece::Text(")"@),
        ],
        None => Seq::empty(),
    }
}

/// The search over a snippet's name, code and content, where a search text is given.
pub open spec fn search3_pieces(search: Option<Seq<char>>) -> Seq<Piece> {
    match search {
        Some(s) => seq![
            Piece::Text(" AND (name LIKE "@),
            Piece::Param(like_pattern(s)),
            Piece::Text(" OR code LIKE "@),
            Piece::Param(like_pattern(s)),
            Piece::Text(" OR content LIKE "@),
            Piece::Param(like_pattern(s)),
            Piece::Text(")"@),
        ],
        None => Seq::empty(),
    }
}

/// The condition on a tags column holding a tag.
pub open spec fn tag_prefix(d: Dialect) -> Seq<char> {
    match d {
        Dialect::Sqlite => " AND tags LIKE "@,
        Dialect::Postgres => " AND tags::text LIKE "@,
    }
}

/// The pattern that finds a tag in the stored JSON list of tags.
pub open spec fn tag_pattern(tag: Seq<char>) -> Seq<char> {
    "%\""@ + tag + "\""@
}

/// One condition per tag, in order.
pub open spec fn tags_pieces(tags: Seq<String>, d: Dialect) -> Seq<Piece>
    decreases tags.len(),
{
    if tags.len() == 0 {
        Seq::empty()
    } else {
        tags_pieces(tags.drop_last(), d) + seq![
            Piece::Text(tag_prefix(d)),
            Piece::Param(tag_pattern(tags.last()@)),
        ]
    }
}

/// The condition on the visibility, where one is given.
pub open spec fn visibility_pieces(v: Option<Visibility>) -> Seq<Piece> {
    match v {
        Some(x) => equals_pieces(" AND visibility = "@, Some(visibility_name(x))),
        None => Seq::empty(),
    }
}

/// The condition on the runtime, where one is given.
pub open spec fn runtime_pieces(r: Option<Runtime>) -> Seq<Piece> {
    match r {
        Some(x) => equals_pieces(" AND runtime = "@, Some(runtime_name(x))),
        None => Seq::empty(),
    }
}

/// The conditions of a skill filter, in the order the repositories write them.
pub open spec fn skill_conditions(f: SkillFilter) -> Seq<Piece> {
    equals_pieces(" AND tenant_id = "@, opt_view(f.tenant_id)) + search2_pieces(opt_view(f.search))
        + runtime_pieces(f.runtime) + visibility_pieces(f.visibility) + equals_pieces(
        " AND owner_id = "@,
        opt_view(f.owner_id),
    )
}

/// The conditions of a snippet filter on its scope and its text: tenant, search,
/// language and framework.
pub open spec fn snippet_text_conditions(f: SnippetFilter) -> Seq<Piece> {
    equals_pieces(" AND tenant_id = "@, opt_view(f.tenant_id)) + search3_pieces(opt_view(f.search))
        + equals_pieces(" AND language = "@, opt_view(f.language)) + equals_pieces(
        " AND framework = "@,
        opt_view(f.framework),
    )
}

/// The conditions of a snippet filter on its tags, visibility and owner.
pub open spec fn snippet_tag_conditions(f: SnippetFilter, d: Dialect) -> Seq<Piece> {
    tags_pieces(f.tags@, d) + visibility_pieces(f.visibility) + equals_pieces(
        " AND owner_id = "@,
        opt_view(f.owner_id),
    )
}

/// The conditions of a snippet filter.
pub open spec fn snippet_conditions(f: SnippetFilter, d: Dialect) -> Seq<Piece> {
    snippet_text_conditions(f) + snippet_tag_conditions(f, d)
}

/// The conditions of a tool filter.
pub open spec fn tool_conditions(f: ToolFilter) -> Seq<Piece> {
    equals_pieces(" AND tenant_id = "@, opt_view(f.tenant_id)) + search2_pieces(opt_view(f.search))
        + visibility_pieces(f.visibility) + equals_pieces(" AND owner_id = "@, opt_view(f.owner_id))
}

/// The page size: 20 where none is given.
pub open spec fn per_page_of(per_page: Option<u32>) -> int {
    match per_page {
        Some(n) => n as int,
        None => 20,
    }
}

/// The rows skipped before a page: the pages before it (page 1 where none is given;
/// page 0 counts as page 1) times the page size.
pub open spec fn offset_of(page: Option<u32>, per_page: Option<u32>) -> int {
    let p = match page {
        Some(n) => n as int,
        None => 1,
    };
    (if p >= 1 {
        p - 1
    } else {
        0
    }) * per_page_of(per_page)
}

/// The ordering and the page of a listing.
pub open spec fn page_pieces(page: Option<u32>, per_page: Option<u32>) -> Seq<Piece> {
    seq![
        Piece::Text(" ORDER BY created_at DESC"@),
        Piece::Text(
            " LIMIT "@ + nat_decimal(per_page_of(per_page) as nat) + " OFFSET "@ + nat_decimal(
                offset_of(page, per_page) as nat,
            ),
        ),
    ]
}

/// Whether the offset of a page fits the 32 bits it is computed in.
pub open spec fn page_fits(page: Option<u32>, per_page: Option<u32>) -> bool {
    offset_of(page, per_page) <= u32::MAX
}

/// The listing of skills.
pub open spec fn skill_list_pieces(f: SkillFilter) -> Seq<Piece> {
    seq![Piece::Text("SELECT * FROM skills WHERE 1=1"@)] + skill_conditions(f) + page_pieces(
        f.page,
        f.per_page,
    )
}

/// The count of skills.
pub open spec fn skill_count_pieces(f: SkillFilter) -> Seq<Piece> {
    seq![Piece::Text("SELECT COUNT(*) as count FROM skills WHERE 1=1"@)] + skill_conditions(f)
}

/// The listing of snippets.
pub open spec fn snippet_list_pieces(f: SnippetFilter, d: Dialect) -> Seq<Piece> {
    seq![Piece::Text("SELECT * FROM snippets WHERE 1=1"@)] + snippet_conditions(f, d) + page_pieces(
        f.page,
        f.per_page,
    )
}

/// The count of snippets.
pub open spec fn snippet_count_pieces(f: SnippetFilter, d: Dialect) -> Seq<Piece> {
    seq![Piece::Text("SELECT COUNT(*) as count FROM snippets WHERE 1=1"@)] + snippet_conditions(f, d)
}

/// The listing of tools.
pub open spec fn tool_list_pieces(f: ToolFilter) -> Seq<Piece> {
    seq![Piece::Text("SELECT * FROM tools WHERE 1=1"@)] + tool_conditions(f) + page_pieces(
        f.page,
        f.per_page,
    )
}

/// The count of tools.
pub open spec fn tool_count_pieces(f: ToolFilter) -> Seq<Piece> {
    seq![Piece::Text("SELECT COUNT(*) as count FROM tools WHERE 1=1"@)] + tool_conditions(f)
}

// ---------------------------------------------------------------------------
// Building the statements
// ---------------------------------------------------------------------------

fn push_equals(st: &mut Statement, prefix: &str, v: &Option<String>)
    requires
        old(st).wf(),
    ensures
        final(st).wf(),
        final(st).dialect() == old(st).dialect(),
        final(st).pieces() == old(st).pieces() + equals_pieces(prefix@, opt_view(*v)),
{
    match v {
        Some(s) => {
            st.text(prefix);
            st.param(s.clone());
        },
        None => {},
    }
    assert(final(st).pieces() =~= old(st).pieces() + equals_pieces(prefix@, opt_view(*v)));
}

fn like(s: &str) -> (r: String)
    ensures
        r@ == like_pattern(s@),
{
    let mut r = string_from_str("%");
    r.append(s);
    r.append("%");
    r
}

fn push_search2(st: &mut Statement, search: &Option<String>)
    requires
        old(st).wf(),
    ensures
        final(st).wf(),
        final(st).dialect() == old(st).dialect(),
        final(st).pieces() == old(st).pieces() + search2_pieces(opt_view(*search)),
{
    match search {
        Some(s) => {
            st.text(" AND (name LIKE ");
            st.param(like(s.as_str()));
            st.text(" OR description LIKE ");
            st.param(like(s.as_str()));
            st.text(")");
        },
        None => {},
    }
    assert(final(st).pieces() =~= old(st).pieces() + search2_pieces(opt_view(*search)));
}

fn push_search3(st: &mut Statement, search: &Option<String>)
    requires
        old(st).wf(),
    ensures
        final(st).wf(),
        final(st).dialect() == old(st).dialect(),
        final(st).pieces() == old(st).pieces() + search3_pieces(opt_view(*search)),
{
    match search {
        Some(s) => {
            st.text(" AND (name LIKE ");
            st.param(like(s.as_str()));
            st.text(" OR code LIKE ");
            st.param(like(s.as_str()));
            st.text(" OR content LIKE ");
            st.param(like(s.as_str()));
            st.text(")");
        },
        None => {},
    }
    assert(final(st).pieces() =~= old(st).pieces() + search3_pieces(opt_view(*search)));
}

fn push_visibility(st: &mut Statement, v: &Option<Visibility>)
    requires
        old(st).wf(),
    ensures
        final(st).wf(),
        final(st).dialect() == old(st).dialect(),
        final(st).pieces() == old(st).pieces() + visibility_pieces(*v),
{
    match v {
        Some(x) => {
            st.text(" AND visibility = ");
            st.param(string_from_str(x.as_str()));
        },
        None => {},
    }
    assert(final(st).pieces() =~= old(st).pieces() + visibility_pieces(*v));
}

fn push_runtime(st: &mut Statement, r: &Option<Runtime>)
    requires
        old(st).wf(),
    ensures
        final(st).wf(),
        final(st).dialect() == old(st).dialect(),
        final(st).pieces() == old(st).pieces() + runtime_pieces(*r),
{
    match r {
        Some(x) => {
            st.text(" AND runtime = ");
            st.param(string_from_str(x.as_str()));
        },
        None => {},
    }
    assert(final(st).pieces() =~= old(st).pieces() + runtime_pieces(*r));
}

fn push_tags(st: &mut Statement, tags: &Vec<String>)
    requires
        old(st).wf(),
    ensures
        final(st).wf(),
        final(st).dialect() == old(st).dialect(),
        final(st).pieces() == old(st).pieces() + tags_pieces(tags@, old(st).dialect()),
{
    let ghost start = st.pieces();
    let ghost d = st.dialect();
    let prefix = match st.dialect {
        Dialect::Sqlite => " AND tags LIKE ",
        Dialect::Postgres => " AND tags::text LIKE ",
    };
    let mut i: usize = 0;
    assert(tags@.take(0) =~= Seq::<String>::empty());
    assert(start + tags_pieces(Seq::<String>::empty(), d) =~= start);
    while i < tags.len()
        invariant
            st.wf(),
            st.dialect() == d,
            prefix@ == tag_prefix(d),
            i <= tags@.len(),
            st.pieces() == start + tags_pieces(tags@.take(i as int), d),
        decreases tags@.len() - i,
    {
        let mut pattern = string_from_str("%\"");
        pattern.append(tags[i].as_str());
        pattern.append("\"");
        st.text(prefix);
        st.param(pattern);
        assert(tags@.take(i + 1).drop_last() =~= tags@.take(i as int));
        assert(tags@.take(i + 1).last() == tags@[i as int]);
        assert(st.pieces() =~= start + tags_pieces(tags@.take(i + 1), d));
        i = i + 1;
    }
    assert(tags@.take(tags@.len() as int) =~= tags@);
}

fn push_page(st: &mut Statement, page: Option<u32>, per_page: Option<u32>)
    requires
        old(st).wf(),
        page_fits(page, per_page),
    ensures
        final(st).wf(),
        final(st).dialect() == old(st).dialect(),
        final(st).pieces() == old(st).pieces() + page_pieces(page, per_page),
{
    st.text(" ORDER BY created_at DESC");
    let p: u32 = match page {
        Some(n) => n,
        None => 1,
    };
    let size: u32 = match per_page {
        Some(n) => n,
        None => 20,
    };
    let before: u32 = p.saturating_sub(1);
    assert(before * size == offset_of(page, per_page));
    let offset: u32 = before * size;
    let mut tail = string_from_str(" LIMIT ");
    push_decimal(&mut tail, size as u128);
    tail.append(" OFFSET ");
    push_decimal(&mut tail, offset as u128);
    st.text(tail.as_str());
    assert(final(st).pieces() =~= old(st).pieces() + page_pieces(page, per_page));
}

fn push_skill_conditions(st: &mut Statement, f: &SkillFilter)
    requires
        old(st).wf(),
    ensures
        final(st).wf(),
        final(st).dialect() == old(st).dialect(),
        final(st).pieces() == old(st).pieces() + skill_conditions(*f),
{
    push_equals(st, " AND tenant_id = ", &f.tenant_id);
    push_search2(st, &f.search);
    push_runtime(st, &f.runtime);
    push_visibility(st, &f.visibility);
    push_equals(st, " AND owner_id = ", &f.owner_id);
    assert(final(st).pieces() =~= old(st).pieces() + skill_conditions(*f));
}

fn push_snippet_text_conditions(st: &mut Statement, f: &SnippetFilter)
    requires
        old(st).wf(),
    ensures
        final(st).wf(),
        final(st).dialect() == old(st).dialect(),
        final(st).pieces() == old(st).pieces() + snippet_text_conditions(*f),
{
    push_equals(st, " AND tenant_id = ", &f.tenant_id);
    push_search3(st, &f.search);
    push_equals(st, " AND language = ", &f.language);
    push_equals(st, " AND framework = ", &f.framework);
    assert(final(st).pieces() =~= old(st).pieces() + snippet_text_conditions(*f));
}

fn push_snippet_tag_conditions(st: &mut Statement, f: &SnippetFilter)
    requires
        old(st).wf(),
    ensures
        final(st).wf(),
        final(st).dialect() == old(st).dialect(),
        final(st).pieces() == old(st).pieces() + snippet_tag_conditions(*f, old(st).dialect()),
{
    push_tags(st, &f.tags);
    push_visibility(st, &f.visibility);
    push_equals(st, " AND owner_id = ", &f.owner_id);
    assert(final(st).pieces() =~= old(st).pieces() + snippet_tag_conditions(*f, old(st).dialect()));
}

fn push_snippet_conditions(st: &mut Statement, f: &SnippetFilter)
    requires
        old(st).wf(),
    ensures
        final(st).wf(),
        final(st).dialect() == old(st).dialect(),
        final(st).pieces() == old(st).pieces() + snippet_conditions(*f, old(st).dialect()),
{
    push_snippet_text_conditions(st, f);
    push_snippet_tag_conditions(st, f);
    assert(final(st).pieces() =~= old(st).pieces() + snippet_conditions(*f, old(st).dialect()));
}

fn push_tool_conditions(st: &mut Statement, f: &ToolFilter)
    requires
        old(st).wf(),
    ensures
        final(st).wf(),
        final(st).dialect() == old(st).dialect(),
        final(st).pieces() == old(st).pieces() + tool_conditions(*f),
{
    push_equals(st, " AND tenant_id = ", &f.tenant_id);
    push_search2(st, &f.search);
    push_visibility(st, &f.visibility);
    push_equals(st, " AND owner_id = ", &f.owner_id);
    assert(final(st).pieces() =~= old(st).pieces() + tool_conditions(*f));
}

/// The statement that lists a page of skills, and its bound values.
pub fn skill_list_query(f: &SkillFilter, dialect: Dialect) -> (r: (String, Vec<String>))
    requires
        page_fits(f.page, f.per_page),
    ensures
        r.0@ == render(skill_list_pieces(*f), dialect),
        values_view(r.1@) == bound_values(skill_list_pieces(*f)),
{
    let mut st = Statement::new(dialect, "SELECT * FROM skills WHERE 1=1");
    push_skill_conditions(&mut st, f);
    push_page(&mut st, f.page, f.per_page);
    assert(st.pieces() =~= skill_list_pieces(*f));
    st.finish()
}

/// The statement that counts the skills of a filter, and its bound values.
pub fn skill_count_query(f: &SkillFilter, dialect: Dialect) -> (r: (String, Vec<String>))
    ensures
        r.0@ == render(skill_count_pieces(*f), dialect),
        values_view(r.1@) == bound_values(skill_count_pieces(*f)),
{
    let mut st = Statement::new(dialect, "SELECT COUNT(*) as count FROM skills WHERE 1=1");
    push_skill_conditions(&mut st, f);
    assert(st.pieces() =~= skill_count_pieces(*f));
    st.finish()
}

/// The statement that lists a page of snippets, and its bound values.
pub fn snippet_list_query(f: &SnippetFilter, dialect: Dialect) -> (r: (String, Vec<String>))
    requires
        page_fits(f.page, f.per_page),
    ensures
        r.0@ == render(snippet_list_pieces(*f, dialect), dialect),
        values_view(r.1@) == bound_values(snippet_list_pieces(*f, dialect)),
{
    let mut st = Statement::new(dialect, "SELECT * FROM snippets WHERE 1=1");
    push_snippet_conditions(&mut st, f);
    push_page(&mut st, f.page, f.per_page);
    assert(st.pieces() =~= snippet_list_pieces(*f, dialect));
    st.finish()
}

/// The statement that counts the snippets of a filter, and its bound values.
pub fn snippet_count_query(f: &SnippetFilter, dialect: Dialect) -> (r: (String, Vec<String>))
    ensures
        r.0@ == render(snippet_count_pieces(*f, dialect), dialect),
        values_view(r.1@) == bound_values(snippet_count_pieces(*f, dialect)),
{
    let mut st = Statement::new(dialect, "SELECT COUNT(*) as count FROM snippets WHERE 1=1");
    push_snippet_conditions(&mut st, f);
    assert(st.pieces() =~= snippet_count_pieces(*f, dialect));
    st.finish()
}

/// The statement that lists a page of tools, and its bound values.
pub fn tool_list_query(f: &ToolFilter, dialect: Dialect) -> (r: (String, Vec<String>))
    requires
        page_fits(f.page, f.per_page),
    ensures
        r.0@ == render(tool_list_pieces(*f), dialect),
        values_view(r.1@) == bound_values(tool_list_pieces(*f)),
{
    let mut st = Statement::new(dialect, "SELECT * FROM tools WHERE 1=1");
    push_tool_conditions(&mut st, f);
    push_page(&mut st, f.page, f.per_page);
    assert(st.pieces() =~= tool_list_pieces(*f));
    st.finish()
}

/// The statement that counts the tools of a filter, and its bound values.
pub fn tool_count_query(f: &ToolFilter, dialect: Dialect) -> (r: (String, Vec<String>))
    ensures
        r.0@ == render(tool_count_pieces(*f), dialect),
        values_view(r.1@) == bound_values(tool_count_pieces(*f)),
{
    let mut st = Statement::new(dialect, "SELECT COUNT(*) as count FROM tools WHERE 1=1");
    push_tool_conditions(&mut st, f);
    assert(st.pieces() =~= tool_count_pieces(*f));
    st.finish()
}

/// The token estimate stored with a snippet: a quarter of the characters of its
/// content and code together, as a 32-bit count (cut to its low 32 bits).
pub fn estimate_tokens(content: &str, code: &str) -> (r: u32)
    requires
        content@.len() + code@.len() <= usize::MAX,
    ensures
        r == ((content@.len() + code@.len()) / 4) as u32,
{
    let total: usize = content.unicode_len() + code.unicode_len();
    (total / 4) as u32
}

// ---------------------------------------------------------------------------
// Laws of the statements
// ---------------------------------------------------------------------------

proof fn lemma_text_binds_nothing(t: Seq<char>)
    ensures
        bound_values(seq![Piece::Text(t)]) == Seq::<Seq<char>>::empty(),
{
    let p = seq![Piece::Text(t)];
    assert(p.drop_last() =~= Seq::<Piece>::empty());
    assert(p.last() == Piece::Text(t));
    assert(bound_values(Seq::<Piece>::empty()) == Seq::<Seq<char>>::empty());
    assert(bound_values(p) == bound_values(p.drop_last()));
}

proof fn lemma_page_binds_nothing(page: Option<u32>, per_page: Option<u32>)
    ensures
        bound_values(page_pieces(page, per_page)) == Seq::<Seq<char>>::empty(),
{
    let p = page_pieces(page, per_page);
    assert(p.drop_last() =~= seq![Piece::Text(" ORDER BY created_at DESC"@)]);
    lemma_text_binds_nothing(" ORDER BY created_at DESC"@);
}

/// The count of skills binds the same values, in the same order, as the listing of
/// the same filter: both select the same rows, so the total agrees with the pages.
pub proof fn law_skill_count_matches_listing(f: SkillFilter)
    ensures
        bound_values(skill_count_pieces(f)) == bound_values(skill_list_pieces(f)),
        bound_values(skill_count_pieces(f)) == bound_values(skill_conditions(f)),
{
    let head_l = seq![Piece::Text("SELECT * FROM skills WHERE 1=1"@)];
    let head_c = seq![Piece::Text("SELECT COUNT(*) as count FROM skills WHERE 1=1"@)];
    lemma_text_binds_nothing("SELECT * FROM skills WHERE 1=1"@);
    lemma_text_binds_nothing("SELECT COUNT(*) as count FROM skills WHERE 1=1"@);
    lemma_page_binds_nothing(f.page, f.per_page);
    lemma_bound_values_concat(head_l, skill_conditions(f));
    lemma_bound_values_concat(head_l + skill_conditions(f), page_pieces(f.page, f.per_page));
    lemma_bound_values_concat(head_c, skill_conditions(f));
    assert(Seq::<Seq<char>>::empty() + bound_values(skill_conditions(f)) =~= bound_values(
        skill_conditions(f),
    ));
    assert(bound_values(skill_conditions(f)) + Seq::<Seq<char>>::empty() =~= bound_values(
        skill_conditions(f),
    ));
}

/// The count of snippets binds the same values as the listing of the same filter.
pub proof fn law_snippet_count_matches_listing(f: SnippetFilter, d: Dialect)
    ensures
        bound_values(snippet_count_pieces(f, d)) == bound_values(snippet_list_pieces(f, d)),
        bound_values(snippet_count_pieces(f, d)) == bound_values(snippet_conditions(f, d)),
{
    let head_l = seq![Piece::Text("SELECT * FROM snippets WHERE 1=1"@)];
    let head_c = seq![Piece::Text("SELECT COUNT(*) as count FROM snippets WHERE 1=1"@)];
    let c = snippet_conditions(f, d);
    lemma_text_binds_nothing("SELECT * FROM snippets WHERE 1=1"@);
    lemma_text_binds_nothing("SELECT COUNT(*) as count FROM snippets WHERE 1=1"@);
    lemma_page_binds_nothing(f.page, f.per_page);
    lemma_bound_values_concat(head_l, c);
    lemma_bound_values_concat(head_l + c, page_pieces(f.page, f.per_page));
    lemma_bound_values_concat(head_c, c);
    assert(Seq::<Seq<char>>::empty() + bound_values(c) =~= bound_values(c));
    assert(bound_values(c) + Seq::<Seq<char>>::empty() =~= bound_values(c));
}

/// The count of tools binds the same values as the listing of the same filter.
pub proof fn law_tool_count_matches_listing(f: ToolFilter)
    ensures
        bound_values(tool_count_pieces(f)) == bound_values(tool_list_pieces(f)),
        bound_values(tool_count_pieces(f)) == bound_values(tool_conditions(f)),
{
    let head_l = seq![Piece::Text("SELECT * FROM tools WHERE 1=1"@)];
    let head_c = seq![Piece::Text("SELECT COUNT(*) as count FROM tools WHERE 1=1"@)];
    let c = tool_conditions(f);
    lemma_text_binds_nothing("SELECT * FROM tools WHERE 1=1"@);
    lemma_text_binds_nothing("SELECT COUNT(*) as count FROM tools WHERE 1=1"@);
    lemma_page_binds_nothing(f.page, f.per_page);
    lemma_bound_values_concat(head_l, c);
    lemma_bound_values_concat(head_l + c, page_pieces(f.page, f.per_page));
    lemma_bound_values_concat(head_c, c);
    assert(Seq::<Seq<char>>::empty() + bound_values(c) =~= bound_values(c));
    assert(bound_values(c) + Seq::<Seq<char>>::empty() =~= bound_values(c));
}

proof fn lemma_tags_bind_alike(tags: Seq<String>)
    ensures
        bound_values(tags_pieces(tags, Dialect::Sqlite)) == bound_values(
            tags_pieces(tags, Dialect::Postgres),
        ),
    decreases tags.len(),
{
    if tags.len() > 0 {
        let t = tags.drop_last();
        lemma_tags_bind_alike(t);
        let pat = tag_pattern(tags.last()@);
        let two_s = seq![Piece::Text(tag_prefix(Dialect::Sqlite)), Piece::Param(pat)];
        let two_p = seq![Piece::Text(tag_prefix(Dialect::Postgres)), Piece::Param(pat)];
        lemma_bound_values_concat(tags_pieces(t, Dialect::Sqlite), two_s);
        lemma_bound_values_concat(tags_pieces(t, Dialect::Postgres), two_p);
        assert(two_s.drop_last() =~= seq![Piece::Text(tag_prefix(Dialect::Sqlite))]);
        assert(two_p.drop_last() =~= seq![Piece::Text(tag_prefix(Dialect::Postgres))]);
        lemma_text_binds_nothing(tag_prefix(Dialect::Sqlite));
        lemma_text_binds_nothing(tag_prefix(Dialect::Postgres));
    }
}

/// A snippet filter binds the same values under SQLite and PostgreSQL: the dialects
/// differ in the text of placeholders and of the tag condition only.
pub proof fn law_snippet_dialects_bind_alike(f: SnippetFilter)
    ensures
        bound_values(snippet_list_pieces(f, Dialect::Sqlite)) == bound_values(
            snippet_list_pieces(f, Dialect::Postgres),
        ),
{
    law_snippet_count_matches_listing(f, Dialect::Sqlite);
    law_snippet_count_matches_listing(f, Dialect::Postgres);
    lemma_tags_bind_alike(f.tags@);
    let a = snippet_text_conditions(f);
    let rest_s = visibility_pieces(f.visibility) + equals_pieces(" AND owner_id = "@, opt_view(f.owner_id));
    assert(snippet_tag_conditions(f, Dialect::Sqlite) =~= tags_pieces(f.tags@, Dialect::Sqlite) + rest_s);
    assert(snippet_tag_conditions(f, Dialect::Postgres) =~= tags_pieces(f.tags@, Dialect::Postgres) + rest_s);
    lemma_bound_values_concat(tags_pieces(f.tags@, Dialect::Sqlite), rest_s);
    lemma_bound_values_concat(tags_pieces(f.tags@, Dialect::Postgres), rest_s);
    lemma_bound_values_concat(a, snippet_tag_conditions(f, Dialect::Sqlite));
    lemma_bound_values_concat(a, snippet_tag_conditions(f, Dialect::Postgres));
}

/// Whether the pieces hold the condition text `cond` followed at once by a placeholder
/// bound to `v`.
pub open spec fn binds_condition(p: Seq<Piece>, cond: Seq<char>, v: Seq<char>) -> bool {
    exists|i: int|
        0 <= i && i + 1 < p.len() && #[trigger] p[i] == Piece::Text(cond) && p[i + 1] == Piece::Param(v)
}

proof fn lemma_binds_within(a: Seq<Piece>, b: Seq<Piece>, c: Seq<Piece>, cond: Seq<char>, v: Seq<char>)
    requires
        binds_condition(b, cond, v),
    ensures
        binds_condition(a + b + c, cond, v),
{
    let i = choose|i: int|
        0 <= i && i + 1 < b.len() && #[trigger] b[i] == Piece::Text(cond) && b[i + 1] == Piece::Param(v);
    let s = a + b + c;
    assert(s[a.len() + i] == b[i]);
    assert(s[a.len() + i + 1] == b[i + 1]);
}

proof fn lemma_equals_binds(cond: Seq<char>, v: Seq<char>)
    ensures
        binds_condition(equals_pieces(cond, Some(v)), cond, v),
        bound_values(equals_pieces(cond, Some(v))) == seq![v],
        bound_values(equals_pieces(cond, None)) == Seq::<Seq<char>>::empty(),
{
    let p = equals_pieces(cond, Some(v));
    assert(p[0] == Piece::Text(cond));
    assert(p.drop_last() =~= seq![Piece::Text(cond)]);
    lemma_text_binds_nothing(cond);
}

proof fn lemma_search2_binds(s: Seq<char>)
    ensures
        binds_condition(search2_pieces(Some(s)), " AND (name LIKE "@, like_pattern(s)),
        binds_condition(search2_pieces(Some(s)), " OR description LIKE "@, like_pattern(s)),
        bound_values(search2_pieces(Some(s))) == seq![like_pattern(s), like_pattern(s)],
        bound_values(search2_pieces(None)) == Seq::<Seq<char>>::empty(),
{
    let x = like_pattern(s);
    let p = search2_pieces(Some(s));
    assert(p[0] == Piece::Text(" AND (name LIKE "@));
    assert(p[2] == Piece::Text(" OR description LIKE "@));
    let p1 = p.drop_last();
    let p2 = p1.drop_last();
    let p3 = p2.drop_last();
    let p4 = p3.drop_last();
    assert(p4 =~= seq![Piece::Text(" AND (name LIKE "@)]);
    lemma_text_binds_nothing(" AND (name LIKE "@);
    assert(p3.last() == Piece::Param(x));
    assert(bound_values(p3) == seq![x]);
    assert(p2.last() == Piece::Text(" OR description LIKE "@));
    assert(bound_values(p2) == seq![x]);
    assert(p1.last() == Piece::Param(x));
    assert(bound_values(p1) =~= seq![x, x]);
    assert(p.last() == Piece::Text(")"@));
    assert(bound_values(p) =~= seq![x, x]);
}

proof fn lemma_search3_binds(s: Seq<char>)
    ensures
        binds_condition(search3_pieces(Some(s)), " AND (name LIKE "@, like_pattern(s)),
        binds_condition(search3_pieces(Some(s)), " OR code LIKE "@, like_pattern(s)),
        binds_condition(search3_pieces(Some(s)), " OR content LIKE "@, like_pattern(s)),
        bound_values(search3_pieces(Some(s))) == seq![like_pattern(s), like_pattern(s), like_pattern(s)],
        bound_values(search3_pieces(None)) == Seq::<Seq<char>>::empty(),
{
    let x = like_pattern(s);
    let p = search3_pieces(Some(s));
    assert(p[0] == Piece::Text(" AND (name LIKE "@));
    assert(p[2] == Piece::Text(" OR code LIKE "@));
    assert(p[4] == Piece::Text(" OR content LIKE "@));
    let p1 = p.drop_last();
    let p2 = p1.drop_last();
    let p3 = p2.drop_last();
    let p4 = p3.drop_last();
    let p5 = p4.drop_last();
    let p6 = p5.drop_last();
    assert(p6 =~= seq![Piece::Text(" AND (name LIKE "@)]);
    lemma_text_binds_nothing(" AND (name LIKE "@);
    assert(p5.last() == Piece::Param(x));
    assert(bound_values(p5) == seq![x]);
    assert(p4.last() == Piece::Text(" OR code LIKE "@));
    assert(bound_values(p4) == seq![x]);
    assert(p3.last() == Piece::Param(x));
    assert(bound_values(p3) =~= seq![x, x]);
    assert(p2.last() == Piece::Text(" OR content LIKE "@));
    assert(bound_values(p2) =~= seq![x, x]);
    assert(p1.last() == Piece::Param(x));
    assert(bound_values(p1) =~= seq![x, x, x]);
    assert(p.last() == Piece::Text(")"@));
    assert(bound_values(p) =~= seq![x, x, x]);
}

/// Where one of four consecutive groups of conditions binds a condition, so does the
/// whole statement that holds them between a head and a tail.
proof fn lemma_groups_bind(
    head: Seq<Piece>,
    g1: Seq<Piece>,
    g2: Seq<Piece>,
    g3: Seq<Piece>,
    g4: Seq<Piece>,
    tail: Seq<Piece>,
    cond: Seq<char>,
    v: Seq<char>,
)
    ensures
        binds_condition(g1, cond, v) || binds_condition(g2, cond, v) || binds_condition(g3, cond, v)
            || binds_condition(g4, cond, v) ==> binds_condition(head + g1 + g2 + g3 + g4 + tail, cond, v),
{
    let all = head + g1 + g2 + g3 + g4 + tail;
    if binds_condition(g1, cond, v) {
        assert(all =~= head + g1 + (g2 + g3 + g4 + tail));
        lemma_binds_within(head, g1, g2 + g3 + g4 + tail, cond, v);
    } else if binds_condition(g2, cond, v) {
        assert(all =~= (head + g1) + g2 + (g3 + g4 + tail));
        lemma_binds_within(head + g1, g2, g3 + g4 + tail, cond, v);
    } else if binds_condition(g3, cond, v) {
        assert(all =~= (head + g1 + g2) + g3 + (g4 + tail));
        lemma_binds_within(head + g1 + g2, g3, g4 + tail, cond, v);
    } else if binds_condition(g4, cond, v) {
        lemma_binds_within(head + g1 + g2 + g3, g4, tail, cond, v);
    }
}

/// The values bound for an optional filter value: the value where it is given.
pub open spec fn given(v: Option<Seq<char>>) -> Seq<Seq<char>> {
    match v {
        Some(x) => seq![x],
        None => Seq::empty(),
    }
}

/// The values bound for an optional search: its pattern once per searched column.
pub open spec fn searched(v: Option<Seq<char>>, columns: nat) -> Seq<Seq<char>> {
    match v {
        Some(x) => Seq::new(columns, |i: int| like_pattern(x)),
        None => Seq::empty(),
    }
}

/// A tool listing and a tool count apply every condition that the filter gives: the
/// tenant, the search (in the name and in the description), the visibility and the
/// owner, each as its condition followed by a placeholder bound to the given value;
/// and they bind nothing else: their values are, in that order, the ones given.
pub proof fn law_tool_filter_is_applied(f: ToolFilter)
    ensures
        f.tenant_id matches Some(t) ==> binds_condition(tool_list_pieces(f), " AND tenant_id = "@, t@)
            && binds_condition(tool_count_pieces(f), " AND tenant_id = "@, t@),
        f.search matches Some(q) ==> binds_condition(tool_list_pieces(f), " AND (name LIKE "@, like_pattern(q@))
            && binds_condition(tool_list_pieces(f), " OR description LIKE "@, like_pattern(q@))
            && binds_condition(tool_count_pieces(f), " AND (name LIKE "@, like_pattern(q@))
            && binds_condition(tool_count_pieces(f), " OR description LIKE "@, like_pattern(q@)),
        f.visibility matches Some(v) ==> binds_condition(tool_list_pieces(f), " AND visibility = "@, visibility_name(v))
            && binds_condition(tool_count_pieces(f), " AND visibility = "@, visibility_name(v)),
        f.owner_id matches Some(o) ==> binds_condition(tool_list_pieces(f), " AND owner_id = "@, o@)
            && binds_condition(tool_count_pieces(f), " AND owner_id = "@, o@),
        bound_values(tool_list_pieces(f)) == given(opt_view(f.tenant_id)) + searched(opt_view(f.search), 2)
            + given_visibility(f.visibility) + given(opt_view(f.owner_id)),
        bound_values(tool_count_pieces(f)) == bound_values(tool_list_pieces(f)),
{
    let head_l = seq![Piece::Text("SELECT * FROM tools WHERE 1=1"@)];
    let head_c = seq![Piece::Text("SELECT COUNT(*) as count FROM tools WHERE 1=1"@)];
    let t = equals_pieces(" AND tenant_id = "@, opt_view(f.tenant_id));
    let q = search2_pieces(opt_view(f.search));
    let v = visibility_pieces(f.visibility);
    let o = equals_pieces(" AND owner_id = "@, opt_view(f.owner_id));
    let pg = page_pieces(f.page, f.per_page);
    let e = Seq::<Piece>::empty();
    assert(tool_list_pieces(f) =~= head_l + t + q + v + o + pg);
    assert(tool_count_pieces(f) =~= head_c + t + q + v + o + e);
    if let Some(x) = f.tenant_id {
        lemma_equals_binds(" AND tenant_id = "@, x@);
        lemma_groups_bind(head_l, t, q, v, o, pg, " AND tenant_id = "@, x@);
        lemma_groups_bind(head_c, t, q, v, o, e, " AND tenant_id = "@, x@);
    }
    if let Some(x) = f.search {
        lemma_search2_binds(x@);
        lemma_groups_bind(head_l, t, q, v, o, pg, " AND (name LIKE "@, like_pattern(x@));
        lemma_groups_bind(head_l, t, q, v, o, pg, " OR description LIKE "@, like_pattern(x@));
        lemma_groups_bind(head_c, t, q, v, o, e, " AND (name LIKE "@, like_pattern(x@));
        lemma_groups_bind(head_c, t, q, v, o, e, " OR description LIKE "@, like_pattern(x@));
        assert(searched(Some(x@), 2) =~= seq![like_pattern(x@), like_pattern(x@)]);
    } else {
        lemma_search2_binds(Seq::empty());
    }
    if let Some(x) = f.visibility {
        lemma_equals_binds(" AND visibility = "@, visibility_name(x));
        lemma_groups_bind(head_l, t, q, v, o, pg, " AND visibility = "@, visibility_name(x));
        lemma_groups_bind(head_c, t, q, v, o, e, " AND visibility = "@, visibility_name(x));
    }
    if let Some(x) = f.owner_id {
        lemma_equals_binds(" AND owner_id = "@, x@);
        lemma_groups_bind(head_l, t, q, v, o, pg, " AND owner_id = "@, x@);
        lemma_groups_bind(head_c, t, q, v, o, e, " AND owner_id = "@, x@);
    }
    lemma_bound_parts(f);
    law_tool_count_matches_listing(f);
}

proof fn lemma_bound_parts(f: ToolFilter)
    ensures
        bound_values(tool_conditions(f)) == given(opt_view(f.tenant_id)) + searched(opt_view(f.search), 2)
            + given_visibility(f.visibility) + given(opt_view(f.owner_id)),
{
    let t = equals_pieces(" AND tenant_id = "@, opt_view(f.tenant_id));
    let q = search2_pieces(opt_view(f.search));
    let v = visibility_pieces(f.visibility);
    let o = equals_pieces(" AND owner_id = "@, opt_view(f.owner_id));
    lemma_equals_binds(" AND tenant_id = "@, Seq::empty());
    lemma_equals_binds(" AND owner_id = "@, Seq::empty());
    lemma_search2_binds(Seq::empty());
    if let Some(x) = f.tenant_id {
        lemma_equals_binds(" AND tenant_id = "@, x@);
    }
    if let Some(x) = f.owner_id {
        lemma_equals_binds(" AND owner_id = "@, x@);
    }
    if let Some(x) = f.visibility {
        lemma_equals_binds(" AND visibility = "@, visibility_name(x));
    }
    if let Some(x) = f.search {
        lemma_search2_binds(x@);
        assert(searched(Some(x@), 2) =~= seq![like_pattern(x@), like_pattern(x@)]);
    }
    lemma_bound_values_concat(t, q);
    lemma_bound_values_concat(t + q, v);
    lemma_bound_values_concat(t + q + v, o);
    assert(tool_conditions(f) =~= t + q + v + o);
}

proof fn lemma_group_pair(a: Seq<Piece>, b: Seq<Piece>, cond: Seq<char>, v: Seq<char>)
    ensures
        binds_condition(a, cond, v) || binds_condition(b, cond, v) ==> binds_condition(a + b, cond, v),
{
    let e = Seq::<Piece>::empty();
    if binds_condition(a, cond, v) {
        assert(e + a + b =~= a + b);
        lemma_binds_within(e, a, b, cond, v);
    } else if binds_condition(b, cond, v) {
        assert(a + b + e =~= a + b);
        lemma_binds_within(a, b, e, cond, v);
    }
}

/// The visibility or runtime name bound for an optional filter value.
pub open spec fn given_visibility(v: Option<Visibility>) -> Seq<Seq<char>> {
    match v {
        Some(x) => seq![visibility_name(x)],
        None => Seq::empty(),
    }
}

/// The runtime name bound for an optional runtime.
pub open spec fn given_runtime(r: Option<Runtime>) -> Seq<Seq<char>> {
    match r {
        Some(x) => seq![runtime_name(x)],
        None => Seq::empty(),
    }
}

/// A skill listing and a skill count apply every condition that the filter gives: the
/// tenant, the search (in the name and in the description), the runtime, the
/// visibility and the owner, each as its condition followed by a placeholder bound to
/// the given value; and they bind nothing else.
pub proof fn law_skill_filter_is_applied(f: SkillFilter)
    ensures
        f.tenant_id matches Some(t) ==> binds_condition(skill_list_pieces(f), " AND tenant_id = "@, t@)
            && binds_condition(skill_count_pieces(f), " AND tenant_id = "@, t@),
        f.search matches Some(q) ==> binds_condition(skill_list_pieces(f), " AND (name LIKE "@, like_pattern(q@))
            && binds_condition(skill_list_pieces(f), " OR description LIKE "@, like_pattern(q@))
            && binds_condition(skill_count_pieces(f), " AND (name LIKE "@, like_pattern(q@))
            && binds_condition(skill_count_pieces(f), " OR description LIKE "@, like_pattern(q@)),
        f.runtime matches Some(r) ==> binds_condition(skill_list_pieces(f), " AND runtime = "@, runtime_name(r))
            && binds_condition(skill_count_pieces(f), " AND runtime = "@, runtime_name(r)),
        f.visibility matches Some(v) ==> binds_condition(skill_list_pieces(f), " AND visibility = "@, visibility_name(v))
            && binds_condition(skill_count_pieces(f), " AND visibility = "@, visibility_name(v)),
        f.owner_id matches Some(o) ==> binds_condition(skill_list_pieces(f), " AND owner_id = "@, o@)
            && binds_condition(skill_count_pieces(f), " AND owner_id = "@, o@),
        bound_values(skill_list_pieces(f)) == given(opt_view(f.tenant_id)) + searched(opt_view(f.search), 2)
            + given_runtime(f.runtime) + given_visibility(f.visibility) + given(opt_view(f.owner_id)),
        bound_values(skill_count_pieces(f)) == bound_values(skill_list_pieces(f)),
{
    let head_l = seq![Piece::Text("SELECT * FROM skills WHERE 1=1"@)];
    let head_c = seq![Piece::Text("SELECT COUNT(*) as count FROM skills WHERE 1=1"@)];
    let t = equals_pieces(" AND tenant_id = "@, opt_view(f.tenant_id));
    let q = search2_pieces(opt_view(f.search));
    let r = runtime_pieces(f.runtime);
    let v = visibility_pieces(f.visibility);
    let o = equals_pieces(" AND owner_id = "@, opt_view(f.owner_id));
    let pg = page_pieces(f.page, f.per_page);
    let e = Seq::<Piece>::empty();
    assert(skill_list_pieces(f) =~= head_l + t + q + (r + v) + o + pg);
    assert(skill_count_pieces(f) =~= head_c + t + q + (r + v) + o + e);
    if let Some(x) = f.tenant_id {
        lemma_equals_binds(" AND tenant_id = "@, x@);
        lemma_groups_bind(head_l, t, q, r + v, o, pg, " AND tenant_id = "@, x@);
        lemma_groups_bind(head_c, t, q, r + v, o, e, " AND tenant_id = "@, x@);
    }
    if let Some(x) = f.search {
        lemma_search2_binds(x@);
        lemma_groups_bind(head_l, t, q, r + v, o, pg, " AND (name LIKE "@, like_pattern(x@));
        lemma_groups_bind(head_l, t, q, r + v, o, pg, " OR description LIKE "@, like_pattern(x@));
        lemma_groups_bind(head_c, t, q, r + v, o, e, " AND (name LIKE "@, like_pattern(x@));
        lemma_groups_bind(head_c, t, q, r + v, o, e, " OR description LIKE "@, like_pattern(x@));
    }
    if let Some(x) = f.runtime {
        lemma_equals_binds(" AND runtime = "@, runtime_name(x));
        lemma_group_pair(r, v, " AND runtime = "@, runtime_name(x));
        lemma_groups_bind(head_l, t, q, r + v, o, pg, " AND runtime = "@, runtime_name(x));
        lemma_groups_bind(head_c, t, q, r + v, o, e, " AND runtime = "@, runtime_name(x));
    }
    if let Some(x) = f.visibility {
        lemma_equals_binds(" AND visibility = "@, visibility_name(x));
        lemma_group_pair(r, v, " AND visibility = "@, visibility_name(x));
        lemma_groups_bind(head_l, t, q, r + v, o, pg, " AND visibility = "@, visibility_name(x));
        lemma_groups_bind(head_c, t, q, r + v, o, e, " AND visibility = "@, visibility_name(x));
    }
    if let Some(x) = f.owner_id {
        lemma_equals_binds(" AND owner_id = "@, x@);
        lemma_groups_bind(head_l, t, q, r + v, o, pg, " AND owner_id = "@, x@);
        lemma_groups_bind(head_c, t, q, r + v, o, e, " AND owner_id = "@, x@);
    }
    lemma_skill_bound_parts(f);
    law_skill_count_matches_listing(f);
}

proof fn lemma_skill_bound_parts(f: SkillFilter)
    ensures
        bound_values(skill_conditions(f)) == given(opt_view(f.tenant_id)) + searched(opt_view(f.search), 2)
            + given_runtime(f.runtime) + given_visibility(f.visibility) + given(opt_view(f.owner_id)),
{
    let t = equals_pieces(" AND tenant_id = "@, opt_view(f.tenant_id));
    let q = search2_pieces(opt_view(f.search));
    let r = runtime_pieces(f.runtime);
    let v = visibility_pieces(f.visibility);
    let o = equals_pieces(" AND owner_id = "@, opt_view(f.owner_id));
    lemma_equals_binds(" AND tenant_id = "@, Seq::empty());
    lemma_equals_binds(" AND owner_id = "@, Seq::empty());
    lemma_search2_binds(Seq::empty());
    if let Some(x) = f.tenant_id {
        lemma_equals_binds(" AND tenant_id = "@, x@);
    }
    if let Some(x) = f.owner_id {
        lemma_equals_binds(" AND owner_id = "@, x@);
    }
    if let Some(x) = f.visibility {
        lemma_equals_binds(" AND visibility = "@, visibility_name(x));
    }
    if let Some(x) = f.runtime {
        lemma_equals_binds(" AND runtime = "@, runtime_name(x));
    }
    if let Some(x) = f.search {
        lemma_search2_binds(x@);
        assert(searched(Some(x@), 2) =~= seq![like_pattern(x@), like_pattern(x@)]);
    }
    lemma_bound_values_concat(t, q);
    lemma_bound_values_concat(t + q, r);
    lemma_bound_values_concat(t + q + r, v);
    lemma_bound_values_concat(t + q + r + v, o);
    assert(skill_conditions(f) =~= t + q + r + v + o);
}

/// The patterns bound for the tags of a snippet filter, in order.
pub open spec fn tag_patterns(tags: Seq<String>) -> Seq<Seq<char>> {
    tags.map_values(|t: String| tag_pattern(t@))
}

proof fn lemma_tags_bind(tags: Seq<String>, d: Dialect)
    ensures
        forall|j: int| 0 <= j < tags.len() ==> binds_condition(tags_pieces(tags, d), tag_prefix(d), tag_pattern(#[trigger] tags[j]@)),
        bound_values(tags_pieces(tags, d)) == tag_patterns(tags),
    decreases tags.len(),
{
    if tags.len() == 0 {
        assert(tag_patterns(tags) =~= Seq::<Seq<char>>::empty());
    } else {
        let init = tags.drop_last();
        lemma_tags_bind(init, d);
        let last = seq![Piece::Text(tag_prefix(d)), Piece::Param(tag_pattern(tags.last()@))];
        let e = Seq::<Piece>::empty();
        assert(tags_pieces(tags, d) == tags_pieces(init, d) + last);
        assert(last[0] == Piece::Text(tag_prefix(d)));
        assert(binds_condition(last, tag_prefix(d), tag_pattern(tags.last()@)));
        assert forall|j: int| 0 <= j < tags.len() implies binds_condition(tags_pieces(tags, d), tag_prefix(d), tag_pattern(#[trigger] tags[j]@)) by {
            if j < init.len() {
                assert(tags[j] == init[j]);
                assert(tags_pieces(init, d) + last + e =~= tags_pieces(tags, d));
                lemma_binds_within(e, tags_pieces(init, d), last, tag_prefix(d), tag_pattern(init[j]@));
                assert(e + tags_pieces(init, d) + last =~= tags_pieces(tags, d));
            } else {
                assert(tags_pieces(init, d) + last + e =~= tags_pieces(tags, d));
                lemma_binds_within(tags_pieces(init, d), last, e, tag_prefix(d), tag_pattern(tags.last()@));
            }
        }
        lemma_bound_values_concat(tags_pieces(init, d), last);
        assert(last.drop_last() =~= seq![Piece::Text(tag_prefix(d))]);
        lemma_text_binds_nothing(tag_prefix(d));
        assert(tag_patterns(tags) =~= tag_patterns(init).push(tag_pattern(tags.last()@)));
    }
}

/// A snippet listing and a snippet count apply every condition that the filter gives:
/// the tenant, the search (in the name, the code and the content), the language, the
/// framework, each tag, the visibility and the owner, each as its condition followed
/// by a placeholder bound to the given value; and they bind nothing else.
pub proof fn law_snippet_filter_is_applied(f: SnippetFilter, d: Dialect)
    ensures
        f.tenant_id matches Some(t) ==> binds_condition(snippet_list_pieces(f, d), " AND tenant_id = "@, t@)
            && binds_condition(snippet_count_pieces(f, d), " AND tenant_id = "@, t@),
        f.search matches Some(q) ==> binds_condition(snippet_list_pieces(f, d), " AND (name LIKE "@, like_pattern(q@))
            && binds_condition(snippet_list_pieces(f, d), " OR code LIKE "@, like_pattern(q@))
            && binds_condition(snippet_list_pieces(f, d), " OR content LIKE "@, like_pattern(q@)),
        f.language matches Some(l) ==> binds_condition(snippet_list_pieces(f, d), " AND language = "@, l@)
            && binds_condition(snippet_count_pieces(f, d), " AND language = "@, l@),
        f.framework matches Some(w) ==> binds_condition(snippet_list_pieces(f, d), " AND framework = "@, w@)
            && binds_condition(snippet_count_pieces(f, d), " AND framework = "@, w@),
        forall|j: int| 0 <= j < f.tags@.len() ==> binds_condition(snippet_list_pieces(f, d), tag_prefix(d), tag_pattern(#[trigger] f.tags@[j]@)),
        f.visibility matches Some(v) ==> binds_condition(snippet_list_pieces(f, d), " AND visibility = "@, visibility_name(v))
            && binds_condition(snippet_count_pieces(f, d), " AND visibility = "@, visibility_name(v)),
        f.owner_id matches Some(o) ==> binds_condition(snippet_list_pieces(f, d), " AND owner_id = "@, o@)
            && binds_condition(snippet_count_pieces(f, d), " AND owner_id = "@, o@),
        bound_values(snippet_list_pieces(f, d)) == given(opt_view(f.tenant_id)) + searched(opt_view(f.search), 3)
            + given(opt_view(f.language)) + given(opt_view(f.framework)) + tag_patterns(f.tags@)
            + given_visibility(f.visibility) + given(opt_view(f.owner_id)),
        bound_values(snippet_count_pieces(f, d)) == bound_values(snippet_list_pieces(f, d)),
{
    let head_l = seq![Piece::Text("SELECT * FROM snippets WHERE 1=1"@)];
    let head_c = seq![Piece::Text("SELECT COUNT(*) as count FROM snippets WHERE 1=1"@)];
    let pg = page_pieces(f.page, f.per_page);
    let e = Seq::<Piece>::empty();
    assert(snippet_list_pieces(f, d) =~= head_l + snippet_conditions(f, d) + pg);
    assert(snippet_count_pieces(f, d) =~= head_c + snippet_conditions(f, d) + e);
    lemma_snippet_binds(f, d, head_l, pg);
    lemma_snippet_binds(f, d, head_c, e);
    lemma_snippet_bound_parts(f, d);
    law_snippet_count_matches_listing(f, d);
}

/// Each condition that a snippet filter gives is bound in any statement that holds the
/// filter's conditions between a head and a tail.
proof fn lemma_snippet_binds(f: SnippetFilter, d: Dialect, head: Seq<Piece>, tail: Seq<Piece>)
    ensures
        ({
            let s = head + snippet_conditions(f, d) + tail;
            &&& f.tenant_id matches Some(t) ==> binds_condition(s, " AND tenant_id = "@, t@)
            &&& f.search matches Some(q) ==> binds_condition(s, " AND (name LIKE "@, like_pattern(q@))
                && binds_condition(s, " OR code LIKE "@, like_pattern(q@))
                && binds_condition(s, " OR content LIKE "@, like_pattern(q@))
            &&& f.language matches Some(l) ==> binds_condition(s, " AND language = "@, l@)
            &&& f.framework matches Some(w) ==> binds_condition(s, " AND framework = "@, w@)
            &&& forall|j: int| 0 <= j < f.tags@.len() ==> binds_condition(s, tag_prefix(d), tag_pattern(#[trigger] f.tags@[j]@))
            &&& f.visibility matches Some(v) ==> binds_condition(s, " AND visibility = "@, visibility_name(v))
            &&& f.owner_id matches Some(o) ==> binds_condition(s, " AND owner_id = "@, o@)
        }),
{
    let a = snippet_text_conditions(f);
    let b = snippet_tag_conditions(f, d);
    assert(head + snippet_conditions(f, d) + tail =~= head + a + (b + tail));
    assert(head + snippet_conditions(f, d) + tail =~= (head + a) + b + tail);
    lemma_snippet_text_binds(f, head, b + tail);
    lemma_snippet_tag_binds(f, d, head + a, tail);
}

proof fn lemma_snippet_text_binds(f: SnippetFilter, head: Seq<Piece>, tail: Seq<Piece>)
    ensures
        ({
            let s = head + snippet_text_conditions(f) + tail;
            &&& f.tenant_id matches Some(t) ==> binds_condition(s, " AND tenant_id = "@, t@)
            &&& f.search matches Some(q) ==> binds_condition(s, " AND (name LIKE "@, like_pattern(q@))
                && binds_condition(s, " OR code LIKE "@, like_pattern(q@))
                && binds_condition(s, " OR content LIKE "@, like_pattern(q@))
            &&& f.language matches Some(l) ==> binds_condition(s, " AND language = "@, l@)
            &&& f.framework matches Some(w) ==> binds_condition(s, " AND framework = "@, w@)
        }),
{
    let t = equals_pieces(" AND tenant_id = "@, opt_view(f.tenant_id));
    let q = search3_pieces(opt_view(f.search));
    let l = equals_pieces(" AND language = "@, opt_view(f.language));
    let w = equals_pieces(" AND framework = "@, opt_view(f.framework));
    let e = Seq::<Piece>::empty();
    assert(head + snippet_text_conditions(f) + tail =~= head + t + q + l + w + tail);
    if let Some(x) = f.tenant_id {
        lemma_equals_binds(" AND tenant_id = "@, x@);
        lemma_groups_bind(head, t, q, l, w, tail, " AND tenant_id = "@, x@);
    }
    if let Some(x) = f.search {
        lemma_search3_binds(x@);
        lemma_groups_bind(head, t, q, l, w, tail, " AND (name LIKE "@, like_pattern(x@));
        lemma_groups_bind(head, t, q, l, w, tail, " OR code LIKE "@, like_pattern(x@));
        lemma_groups_bind(head, t, q, l, w, tail, " OR content LIKE "@, like_pattern(x@));
    }
    if let Some(x) = f.language {
        lemma_equals_binds(" AND language = "@, x@);
        lemma_groups_bind(head, t, q, l, w, tail, " AND language = "@, x@);
    }
    if let Some(x) = f.framework {
        lemma_equals_binds(" AND framework = "@, x@);
        lemma_groups_bind(head, t, q, l, w, tail, " AND framework = "@, x@);
    }
}

proof fn lemma_snippet_tag_binds(f: SnippetFilter, d: Dialect, head: Seq<Piece>, tail: Seq<Piece>)
    ensures
        ({
            let s = head + snippet_tag_conditions(f, d) + tail;
            &&& forall|j: int| 0 <= j < f.tags@.len() ==> binds_condition(s, tag_prefix(d), tag_pattern(#[trigger] f.tags@[j]@))
            &&& f.visibility matches Some(v) ==> binds_condition(s, " AND visibility = "@, visibility_name(v))
            &&& f.owner_id matches Some(o) ==> binds_condition(s, " AND owner_id = "@, o@)
        }),
{
    let g = tags_pieces(f.tags@, d);
    let v = visibility_pieces(f.visibility);
    let o = equals_pieces(" AND owner_id = "@, opt_view(f.owner_id));
    let e = Seq::<Piece>::empty();
    let s = head + snippet_tag_conditions(f, d) + tail;
    assert(s =~= head + g + v + o + e + tail);
    lemma_tags_bind(f.tags@, d);
    assert forall|j: int| 0 <= j < f.tags@.len() implies binds_condition(s, tag_prefix(d), tag_pattern(#[trigger] f.tags@[j]@)) by {
        lemma_groups_bind(head, g, v, o, e, tail, tag_prefix(d), tag_pattern(f.tags@[j]@));
    }
    if let Some(x) = f.visibility {
        lemma_equals_binds(" AND visibility = "@, visibility_name(x));
        lemma_groups_bind(head, g, v, o, e, tail, " AND visibility = "@, visibility_name(x));
    }
    if let Some(x) = f.owner_id {
        lemma_equals_binds(" AND owner_id = "@, x@);
        lemma_groups_bind(head, g, v, o, e, tail, " AND owner_id = "@, x@);
    }
}

proof fn lemma_snippet_text_bound(f: SnippetFilter)
    ensures
        bound_values(snippet_text_conditions(f)) == given(opt_view(f.tenant_id)) + searched(opt_view(f.search), 3)
            + given(opt_view(f.language)) + given(opt_view(f.framework)),
{
    let t = equals_pieces(" AND tenant_id = "@, opt_view(f.tenant_id));
    let q = search3_pieces(opt_view(f.search));
    let l = equals_pieces(" AND language = "@, opt_view(f.language));
    let w = equals_pieces(" AND framework = "@, opt_view(f.framework));
    lemma_equals_binds(" AND tenant_id = "@, Seq::empty());
    lemma_equals_binds(" AND language = "@, Seq::empty());
    lemma_equals_binds(" AND framework = "@, Seq::empty());
    lemma_search3_binds(Seq::empty());
    if let Some(x) = f.tenant_id {
        lemma_equals_binds(" AND tenant_id = "@, x@);
    }
    if let Some(x) = f.language {
        lemma_equals_binds(" AND language = "@, x@);
    }
    if let Some(x) = f.framework {
        lemma_equals_binds(" AND framework = "@, x@);
    }
    if let Some(x) = f.search {
        lemma_search3_binds(x@);
        assert(searched(Some(x@), 3) =~= seq![like_pattern(x@), like_pattern(x@), like_pattern(x@)]);
    }
    lemma_bound_values_concat(t, q);
    lemma_bound_values_concat(t + q, l);
    lemma_bound_values_concat(t + q + l, w);
    assert(snippet_text_conditions(f) =~= t + q + l + w);
}

proof fn lemma_snippet_tag_bound(f: SnippetFilter, d: Dialect)
    ensures
        bound_values(snippet_tag_conditions(f, d)) == tag_patterns(f.tags@) + given_visibility(f.visibility)
            + given(opt_view(f.owner_id)),
{
    let g = tags_pieces(f.tags@, d);
    let v = visibility_pieces(f.visibility);
    let o = equals_pieces(" AND owner_id = "@, opt_view(f.owner_id));
    lemma_equals_binds(" AND owner_id = "@, Seq::empty());
    lemma_tags_bind(f.tags@, d);
    if let Some(x) = f.owner_id {
        lemma_equals_binds(" AND owner_id = "@, x@);
    }
    if let Some(x) = f.visibility {
        lemma_equals_binds(" AND visibility = "@, visibility_name(x));
    }
    lemma_bound_values_concat(g, v);
    lemma_bound_values_concat(g + v, o);
    assert(snippet_tag_conditions(f, d) =~= g + v + o);
}

proof fn lemma_snippet_bound_parts(f: SnippetFilter, d: Dialect)
    ensures
        bound_values(snippet_conditions(f, d)) == given(opt_view(f.tenant_id)) + searched(opt_view(f.search), 3)
            + given(opt_view(f.language)) + given(opt_view(f.framework)) + tag_patterns(f.tags@)
            + given_visibility(f.visibility) + given(opt_view(f.owner_id)),
{
    lemma_snippet_text_bound(f);
    lemma_snippet_tag_bound(f, d);
    lemma_bound_values_concat(snippet_text_conditions(f), snippet_tag_conditions(f, d));
    let a = given(opt_view(f.tenant_id)) + searched(opt_view(f.search), 3) + given(opt_view(f.language))
        + given(opt_view(f.framework));
    let b = tag_patterns(f.tags@) + given_visibility(f.visibility) + given(opt_view(f.owner_id));
    assert(a + b =~= given(opt_view(f.tenant_id)) + searched(opt_view(f.search), 3)
        + given(opt_view(f.language)) + given(opt_view(f.framework)) + tag_patterns(f.tags@)
        + given_visibility(f.visibility) + given(opt_view(f.owner_id)));
}

} // verus!
