//! Listing and searching crates: which crates a request selects, in which
//! order they are listed, and where a seek page continues.
use crate::owners::{lowercase, to_lowercase};
use crate::text::{chars_of, owned, push_str, split_words, str_eq, words};
use vstd::prelude::*;

verus! {

// ---------------------------------------------------------------------------
// Parameters
// ---------------------------------------------------------------------------

/// The query parameters of `GET /api/v1/crates`.
#[derive(Debug, Clone, Default)]
pub struct ListQueryParams {
    /// The sort order: `alphabetical`, `relevance`, `downloads`,
    /// `recent-downloads`, `recent-updates` or `new`. Defaults to `relevance`
    /// if `q` is set, otherwise `alphabetical`.
    pub sort: Option<String>,
    /// A search query string (`q`).
    pub q_string: Option<String>,
    /// Set to `yes` to list yanked crates too.
    pub include_yanked: Option<String>,
    /// Only crates in this category, or one of its subcategories.
    pub category: Option<String>,
    /// Only crates with all of these space-separated keywords.
    pub all_keywords: Option<String>,
    /// Only crates with this keyword (ignored with `all_keywords`).
    pub keyword: Option<String>,
    /// Only crates whose name starts with this letter (ignored with
    /// `all_keywords` or `keyword`).
    pub letter: Option<String>,
    /// Only crates owned by this user (ignored with the filters above).
    pub user_id: Option<i32>,
    /// Only crates owned by this team (ignored with the filters above).
    pub team_id: Option<i32>,
    /// Only crates that the signed-in user follows (ignored with the filters
    /// above); its value is ignored.
    pub following: Option<String>,
    /// Only crates with these names (ignored with the filters above).
    pub ids: Vec<String>,
}

impl ListQueryParams {
    /// Whether yanked crates are listed: unless `include_yanked` is given and
    /// is not `yes`.
    pub fn include_yanked(&self) -> (r: bool)
        ensures
            r == match self.include_yanked {
                Some(s) => s@ == "yes"@,
                None => true,
            },
    {
        match &self.include_yanked {
            Some(s) => str_eq(s.as_str(), "yes"),
            None => true,
        }
    }
}

/// An empty `letter` parameter (`400 Bad Request`).
#[derive(Debug, Clone, Copy, PartialEq, Eq)]
pub struct LetterError;

impl LetterError {
    pub fn message(&self) -> (s: String)
        ensures
            s@ == "letter value must contain 1 character"@,
    {
        owned("letter value must contain 1 character")
    }
}

/// The first character of the `letter` parameter; an empty one is refused.
pub fn first_letter(letter: &Option<String>) -> (r: Result<Option<char>, LetterError>)
    ensures
        match letter {
            None => r == Ok::<Option<char>, LetterError>(None),
            Some(s) => if s@.len() == 0 {
                r == Err::<Option<char>, LetterError>(LetterError)
            } else {
                r == Ok::<Option<char>, LetterError>(Some(s@[0]))
            },
        },
{
    match letter {
        None => Ok(None),
        Some(s) => {
            let chars = chars_of(s.as_str());
            if chars.len() == 0 {
                Err(LetterError)
            } else {
                Ok(Some(chars[0]))
            }
        },
    }
}

// ---------------------------------------------------------------------------
// Filters
// ---------------------------------------------------------------------------

/// What `char::to_lowercase` yields for this character.
pub uninterp spec fn char_lowercase(c: char) -> Seq<char>;

/// `char::to_lowercase`, collected into a string.
#[verifier::external_body]
fn lowercase_char(c: char) -> (s: String)
    ensures
        s@ == char_lowercase(c),
{
    c.to_lowercase().collect()
}

/// The filter that narrows the listing to one group of crates; the first of
/// the parameters that is given decides.
#[derive(Debug, Clone, PartialEq, Eq)]
pub enum Selection {
    /// Crates with all of these keywords (in lower case).
    AllKeywords(Vec<String>),
    /// Crates with this keyword, compared in lower case.
    Keyword(String),
    /// Crates whose canonical name matches this `LIKE` pattern.
    NamePattern(String),
    /// Crates owned by this user.
    OwnedByUser(i32),
    /// Crates owned by this team.
    OwnedByTeam(i32),
    /// Crates followed by this (signed-in) user.
    FollowedBy(i32),
    /// Crates with these names.
    Names(Vec<String>),
    /// All crates.
    All,
}

/// The filters of a crate listing.
#[derive(Debug, Clone, PartialEq, Eq)]
pub struct CrateFilter {
    /// The full-text query, where `q` is given and not empty.
    pub text_query: Option<String>,
    /// The category slug, and the `LIKE` pattern of its subcategories.
    pub category: Option<(String, String)>,
    pub selection: Selection,
    /// Whether only crates with a version that is not yanked are listed.
    pub only_unyanked: bool,
}

pub open spec fn opt_view(o: Option<String>) -> Option<Seq<char>> {
    match o {
        Some(s) => Some(s@),
        None => None,
    }
}

/// A selection as the contracts speak of it.
pub enum SelectionView {
    AllKeywords(Seq<Seq<char>>),
    Keyword(Seq<char>),
    NamePattern(Seq<char>),
    OwnedByUser(i32),
    OwnedByTeam(i32),
    FollowedBy(i32),
    Names(Seq<Seq<char>>),
    All,
}

impl View for Selection {
    type V = SelectionView;

    open spec fn view(&self) -> SelectionView {
        match self {
            Selection::AllKeywords(names) => SelectionView::AllKeywords(names.deep_view()),
            Selection::Keyword(k) => SelectionView::Keyword(k@),
            Selection::NamePattern(p) => SelectionView::NamePattern(p@),
            Selection::OwnedByUser(id) => SelectionView::OwnedByUser(*id),
            Selection::OwnedByTeam(id) => SelectionView::OwnedByTeam(*id),
            Selection::FollowedBy(id) => SelectionView::FollowedBy(*id),
            Selection::Names(names) => SelectionView::Names(names.deep_view()),
            Selection::All => SelectionView::All,
        }
    }
}

/// The selection, by the first parameter given: `all_keywords` (its words
/// in lower case), `keyword`, the letter (a `LIKE` pattern of its lower
/// case), `user_id`, `team_id`, the followed crates of the signed-in user,
/// the names in `ids`.
pub open spec fn selection_of(
    params: ListQueryParams,
    letter: Option<char>,
    auth_user_id: Option<i32>,
) -> SelectionView {
    if let Some(kws) = params.all_keywords {
        SelectionView::AllKeywords(words(kws@).map_values(|w: Seq<char>| lowercase(w)))
    } else if let Some(kw) = params.keyword {
        SelectionView::Keyword(kw@)
    } else if let Some(c) = letter {
        SelectionView::NamePattern(char_lowercase(c) + "%"@)
    } else if let Some(id) = params.user_id {
        SelectionView::OwnedByUser(id)
    } else if let Some(id) = params.team_id {
        SelectionView::OwnedByTeam(id)
    } else if let Some(id) = auth_user_id {
        SelectionView::FollowedBy(id)
    } else if params.ids.len() > 0 {
        SelectionView::Names(params.ids.deep_view())
    } else {
        SelectionView::All
    }
}

fn lowercase_all(ws: &Vec<String>) -> (r: Vec<String>)
    ensures
        r.deep_view() == ws.deep_view().map_values(|w: Seq<char>| lowercase(w)),
{
    let mut out: Vec<String> = Vec::new();
    let mut i: usize = 0;
    while i < ws.len()
        invariant
            i <= ws.len(),
            out.deep_view() == ws.deep_view().take(i as int).map_values(
                |w: Seq<char>| lowercase(w),
            ),
        decreases ws.len() - i,
    {
        let l = to_lowercase(ws[i].as_str());
        let ghost before = out.deep_view();
        out.push(l);
        assert(out.deep_view() =~= before.push(lowercase(ws.deep_view()[i as int])));
        assert(ws.deep_view().take(i + 1) =~= ws.deep_view().take(i as int).push(
            ws.deep_view()[i as int],
        ));
        assert(out.deep_view() =~= ws.deep_view().take(i + 1).map_values(
            |w: Seq<char>| lowercase(w),
        ));
        i = i + 1;
    }
    assert(ws.deep_view().take(ws.len() as int) =~= ws.deep_view());
    out
}

fn copy_all(v: &Vec<String>) -> (r: Vec<String>)
    ensures
        r.deep_view() == v.deep_view(),
{
    let mut out: Vec<String> = Vec::new();
    let mut i: usize = 0;
    while i < v.len()
        invariant
            i <= v.len(),
            out.deep_view() == v.deep_view().take(i as int),
        decreases v.len() - i,
    {
        let ghost before = out.deep_view();
        out.push(owned(v[i].as_str()));
        assert(out.deep_view() =~= before.push(v.deep_view()[i as int]));
        assert(out.deep_view() =~= v.deep_view().take(i + 1));
        i = i + 1;
    }
    assert(v.deep_view().take(v.len() as int) =~= v.deep_view());
    out
}

/// The filters of a listing: `letter` is the first character of the
/// `letter` parameter (see [`first_letter`]), and `auth_user_id` the
/// signed-in user where `following` is given.
pub fn crate_filter(params: &ListQueryParams, letter: Option<char>, auth_user_id: Option<i32>) -> (f:
    CrateFilter)
    ensures
        opt_view(f.text_query) == match params.q_string {
            Some(q) => if q@.len() > 0 {
                Some(q@)
            } else {
                None
            },
            None => None,
        },
        match params.category {
            Some(c) => f.category matches Some((slug, pattern)) && slug@ == c@ && pattern@ == c@
                + "::%"@,
            None => f.category is None,
        },
        f.selection@ == selection_of(*params, letter, auth_user_id),
        f.only_unyanked == !match params.include_yanked {
            Some(s) => s@ == "yes"@,
            None => true,
        },
{
    let text_query = match &params.q_string {
        Some(q) => if q.as_str().is_empty() {
            None
        } else {
            Some(owned(q.as_str()))
        },
        None => None,
    };
    let category = match &params.category {
        Some(c) => {
            let mut pattern = owned(c.as_str());
            push_str(&mut pattern, "::%");
            Some((owned(c.as_str()), pattern))
        },
        None => None,
    };
    let selection = if let Some(kws) = &params.all_keywords {
        let ws = split_words(kws.as_str());
        Selection::AllKeywords(lowercase_all(&ws))
    } else if let Some(kw) = &params.keyword {
        Selection::Keyword(owned(kw.as_str()))
    } else if let Some(c) = letter {
        let mut pattern = lowercase_char(c);
        push_str(&mut pattern, "%");
        Selection::NamePattern(pattern)
    } else if let Some(id) = params.user_id {
        Selection::OwnedByUser(id)
    } else if let Some(id) = params.team_id {
        Selection::OwnedByTeam(id)
    } else if let Some(id) = auth_user_id {
        Selection::FollowedBy(id)
    } else if params.ids.len() > 0 {
        Selection::Names(copy_all(&params.ids))
    } else {
        Selection::All
    };
    CrateFilter { text_query, category, selection, only_unyanked: !params.include_yanked() }
}

// ---------------------------------------------------------------------------
// Order and seek keys
// ---------------------------------------------------------------------------

/// The key that seek pages of a listing continue from.
#[derive(Debug, Clone, Copy, PartialEq, Eq)]
pub enum SeekKind {
    Name,
    New,
    RecentUpdates,
    RecentDownloads,
    Downloads,
    Query,
    Relevance,
}

/// A column that a listing is ordered by.
#[derive(Debug, Clone, Copy, PartialEq, Eq)]
pub enum Column {
    /// Whether the crate's name equals the search query.
    ExactMatch,
    /// The full-text rank of the crate for the search query.
    Rank,
    Name,
    Downloads,
    /// Downloads of the last 90 days; crates without a count sort lowest.
    RecentDownloads,
    UpdatedAt,
    CreatedAt,
    Id,
}

/// One column of the order, and its direction.
#[derive(Debug, Clone, Copy, PartialEq, Eq)]
pub struct OrderTerm {
    pub column: Column,
    pub descending: bool,
}

pub open spec fn term(column: Column, descending: bool) -> OrderTerm {
    OrderTerm { column, descending }
}

/// The order of a seek key's listing. Forward, the largest values come
/// first, with the crate id (descending) or name (ascending) breaking ties;
/// backward, every direction is reversed.
pub open spec fn seek_order(kind: SeekKind, forward: bool) -> Seq<OrderTerm> {
    match kind {
        SeekKind::Name => seq![term(Column::Name, !forward)],
        SeekKind::New => seq![term(Column::CreatedAt, forward), term(Column::Id, forward)],
        SeekKind::RecentUpdates => seq![term(Column::UpdatedAt, forward), term(Column::Id, forward)],
        SeekKind::RecentDownloads => seq![
            term(Column::RecentDownloads, forward),
            term(Column::Id, forward),
        ],
        SeekKind::Downloads => seq![term(Column::Downloads, forward), term(Column::Id, forward)],
        SeekKind::Query => seq![term(Column::ExactMatch, forward), term(Column::Name, !forward)],
        SeekKind::Relevance => seq![
            term(Column::ExactMatch, forward),
            term(Column::Rank, forward),
            term(Column::Name, !forward),
        ],
    }
}

/// The seek key of a listing: `downloads`, `recent-downloads`,
/// `recent-updates` and `new` sort by their column; otherwise a non-empty
/// query sorts by relevance (the default) or by exact name match, and
/// without a query crates are listed by name.
pub open spec fn list_seek_kind(q_nonempty: bool, sort: Option<Seq<char>>) -> SeekKind {
    if sort == Some("downloads"@) {
        SeekKind::Downloads
    } else if sort == Some("recent-downloads"@) {
        SeekKind::RecentDownloads
    } else if sort == Some("recent-updates"@) {
        SeekKind::RecentUpdates
    } else if sort == Some("new"@) {
        SeekKind::New
    } else if q_nonempty && (sort is None || sort == Some("relevance"@)) {
        SeekKind::Relevance
    } else if q_nonempty {
        SeekKind::Query
    } else {
        SeekKind::Name
    }
}

fn push_term(v: &mut Vec<OrderTerm>, column: Column, descending: bool)
    ensures
        final(v)@ == old(v)@.push(term(column, descending)),
{
    v.push(OrderTerm { column, descending });
}

/// The order of a seek key's listing, as [`seek_order`] gives it.
pub fn seek_order_terms(kind: SeekKind, is_forward: bool) -> (v: Vec<OrderTerm>)
    ensures
        v@ == seek_order(kind, is_forward),
{
    let mut v: Vec<OrderTerm> = Vec::new();
    match kind {
        SeekKind::Name => {
            push_term(&mut v, Column::Name, !is_forward);
        },
        SeekKind::New => {
            push_term(&mut v, Column::CreatedAt, is_forward);
            push_term(&mut v, Column::Id, is_forward);
        },
        SeekKind::RecentUpdates => {
            push_term(&mut v, Column::UpdatedAt, is_forward);
            push_term(&mut v, Column::Id, is_forward);
        },
        SeekKind::RecentDownloads => {
            push_term(&mut v, Column::RecentDownloads, is_forward);
            push_term(&mut v, Column::Id, is_forward);
        },
        SeekKind::Downloads => {
            push_term(&mut v, Column::Downloads, is_forward);
            push_term(&mut v, Column::Id, is_forward);
        },
        SeekKind::Query => {
            push_term(&mut v, Column::ExactMatch, is_forward);
            push_term(&mut v, Column::Name, !is_forward);
        },
        SeekKind::Relevance => {
            push_term(&mut v, Column::ExactMatch, is_forward);
            push_term(&mut v, Column::Rank, is_forward);
            push_term(&mut v, Column::Name, !is_forward);
        },
    }
    assert(v@ =~= seek_order(kind, is_forward));
    v
}

/// The seek key and the order of a crate listing for the search query and
/// `sort` parameter, in the direction of the page.
pub fn crate_list_order(q_string: &Option<String>, sort: &Option<String>, is_forward: bool) -> (r: (
    SeekKind,
    Vec<OrderTerm>,
))
    ensures
        r.0 == list_seek_kind(
            match q_string {
                Some(q) => q@.len() > 0,
                None => false,
            },
            opt_view(*sort),
        ),
        r.1@ == seek_order(r.0, is_forward),
{
    let q_nonempty = match q_string {
        Some(q) => !q.as_str().is_empty(),
        None => false,
    };
    let kind = match sort {
        Some(s) => {
            let s = s.as_str();
            if str_eq(s, "downloads") {
                SeekKind::Downloads
            } else if str_eq(s, "recent-downloads") {
                SeekKind::RecentDownloads
            } else if str_eq(s, "recent-updates") {
                SeekKind::RecentUpdates
            } else if str_eq(s, "new") {
                SeekKind::New
            } else if q_nonempty && str_eq(s, "relevance") {
                SeekKind::Relevance
            } else if q_nonempty {
                SeekKind::Query
            } else {
                SeekKind::Name
            }
        },
        None => if q_nonempty {
            SeekKind::Relevance
        } else {
            SeekKind::Name
        },
    };
    (kind, seek_order_terms(kind, is_forward))
}

/// A value of the column of an order term, as a seek key holds it.
#[derive(Debug, Clone, Copy, PartialEq, Eq)]
pub enum Value {
    Bool(bool),
    Int(i64),
    /// A count that may be absent (`NULL`), which sorts lowest.
    Nullable(Option<i64>),
    /// The bits of a full-text rank (an `f32`).
    Rank(u32),
    /// The name of the crate with this id.
    NameOf(i32),
}

/// How a column compares with a value. `NULL` sorts lowest: it equals only
/// an absent value (`IS NULL`), it is below every present value (`< v`
/// holds for it), and `> absent` means `IS NOT NULL`.
#[derive(Debug, Clone, Copy, PartialEq, Eq)]
pub enum CmpOp {
    Eq,
    Lt,
    Gt,
}

#[derive(Debug, Clone, Copy, PartialEq, Eq)]
pub struct Comparison {
    pub column: Column,
    pub op: CmpOp,
    pub value: Value,
}

/// The comparisons that keep a row tied with the key on the first `i` terms.
pub open spec fn ties(terms: Seq<OrderTerm>, key: Seq<Value>, i: int) -> Seq<Comparison> {
    Seq::new(i as nat, |j: int| Comparison { column: terms[j].column, op: CmpOp::Eq, value: key[j] })
}

/// The comparison that puts a row after the key on term `i`.
pub open spec fn beyond(t: OrderTerm, v: Value) -> Comparison {
    Comparison { column: t.column, op: if t.descending { CmpOp::Lt } else { CmpOp::Gt }, value: v }
}

/// Whether a row can come after the key on this term: nothing sorts below
/// an absent value.
pub open spec fn can_pass(t: OrderTerm, v: Value) -> bool {
    !(t.descending && v == Value::Nullable(None))
}

/// The conditions under which a row comes after the key in the order of the
/// first `i` terms, as a disjunction of conjunctions: tied on the terms
/// before some term and beyond the key on it; the longest ties come first.
pub open spec fn keyset_after(terms: Seq<OrderTerm>, key: Seq<Value>, i: int) -> Seq<Seq<Comparison>>
    decreases i,
{
    if i <= 0 {
        Seq::empty()
    } else {
        let rest = keyset_after(terms, key, i - 1);
        if can_pass(terms[i - 1], key[i - 1]) {
            seq![ties(terms, key, i - 1).push(beyond(terms[i - 1], key[i - 1]))] + rest
        } else {
            rest
        }
    }
}

pub open spec fn condition_view(c: Vec<Vec<Comparison>>) -> Seq<Seq<Comparison>> {
    c@.map_values(|d: Vec<Comparison>| d@)
}

/// The keyset condition of a seek page: the rows that come after `key` in
/// the order of `terms`.
pub fn keyset_condition(terms: &Vec<OrderTerm>, key: &Vec<Value>) -> (c: Vec<Vec<Comparison>>)
    requires
        terms.len() == key.len(),
    ensures
        condition_view(c) == keyset_after(terms@, key@, terms.len() as int),
{
    let n = terms.len();
    let mut out: Vec<Vec<Comparison>> = Vec::new();
    let mut i = n;
    while i > 0
        invariant
            i <= n == terms.len() == key.len(),
            condition_view(out) + keyset_after(terms@, key@, i as int) == keyset_after(
                terms@,
                key@,
                n as int,
            ),
        decreases i,
    {
        let t = terms[i - 1];
        let v = key[i - 1];
        let ghost before = condition_view(out);
        if !(t.descending && matches!(v, Value::Nullable(None))) {
            let mut d: Vec<Comparison> = Vec::new();
            let mut j: usize = 0;
            while j < i - 1
                invariant
                    j <= i - 1,
                    i <= n == terms.len() == key.len(),
                    d@ == ties(terms@, key@, j as int),
                decreases i - 1 - j,
            {
                d.push(Comparison { column: terms[j].column, op: CmpOp::Eq, value: key[j] });
                assert(d@ =~= ties(terms@, key@, j + 1));
                j = j + 1;
            }
            let op = if t.descending {
                CmpOp::Lt
            } else {
                CmpOp::Gt
            };
            d.push(Comparison { column: t.column, op, value: v });
            assert(d@ == ties(terms@, key@, i - 1).push(beyond(terms@[i - 1], key@[i - 1])));
            out.push(d);
            assert(condition_view(out) =~= before.push(
                ties(terms@, key@, i - 1).push(beyond(terms@[i - 1], key@[i - 1])),
            ));
            assert(condition_view(out) + keyset_after(terms@, key@, i - 1) =~= before + (seq![
                ties(terms@, key@, i - 1).push(beyond(terms@[i - 1], key@[i - 1])),
            ] + keyset_after(terms@, key@, i - 1)));
        } else {
            assert(!can_pass(terms@[i - 1], key@[i - 1]));
        }
        i = i - 1;
    }
    assert(condition_view(out) + keyset_after(terms@, key@, 0) =~= condition_view(out));
    out
}

/// The key of a seek page: the values of the last (or, backward, first)
/// crate of the previous page in the columns of the order. Times are
/// microseconds since the Unix epoch; the rank is the bits of an `f32`.
#[derive(Debug, Clone, Copy, PartialEq, Eq)]
pub enum SeekPayload {
    Name { id: i32 },
    New { created_at: i64, id: i32 },
    RecentUpdates { updated_at: i64, id: i32 },
    RecentDownloads { recent_downloads: Option<i64>, id: i32 },
    Downloads { downloads: i64, id: i32 },
    Query { exact_match: bool, id: i32 },
    Relevance { exact_match: bool, rank: u32, id: i32 },
}

/// The seek key a payload belongs to.
pub open spec fn payload_kind(p: SeekPayload) -> SeekKind {
    match p {
        SeekPayload::Name { .. } => SeekKind::Name,
        SeekPayload::New { .. } => SeekKind::New,
        SeekPayload::RecentUpdates { .. } => SeekKind::RecentUpdates,
        SeekPayload::RecentDownloads { .. } => SeekKind::RecentDownloads,
        SeekPayload::Downloads { .. } => SeekKind::Downloads,
        SeekPayload::Query { .. } => SeekKind::Query,
        SeekPayload::Relevance { .. } => SeekKind::Relevance,
    }
}

/// The values of a payload, one for each term of its order.
pub open spec fn payload_values(p: SeekPayload) -> Seq<Value> {
    match p {
        SeekPayload::Name { id } => seq![Value::NameOf(id)],
        SeekPayload::New { created_at, id } => seq![Value::Int(created_at), Value::Int(id as i64)],
        SeekPayload::RecentUpdates { updated_at, id } => seq![
            Value::Int(updated_at),
            Value::Int(id as i64),
        ],
        SeekPayload::RecentDownloads { recent_downloads, id } => seq![
            Value::Nullable(recent_downloads),
            Value::Int(id as i64),
        ],
        SeekPayload::Downloads { downloads, id } => seq![
            Value::Int(downloads),
            Value::Int(id as i64),
        ],
        SeekPayload::Query { exact_match, id } => seq![Value::Bool(exact_match), Value::NameOf(id)],
        SeekPayload::Relevance { exact_match, rank, id } => seq![
            Value::Bool(exact_match),
            Value::Rank(rank),
            Value::NameOf(id),
        ],
    }
}

impl SeekPayload {
    /// The seek key this payload belongs to.
    pub fn kind(&self) -> (k: SeekKind)
        ensures
            k == payload_kind(*self),
    {
        match self {
            SeekPayload::Name { .. } => SeekKind::Name,
            SeekPayload::New { .. } => SeekKind::New,
            SeekPayload::RecentUpdates { .. } => SeekKind::RecentUpdates,
            SeekPayload::RecentDownloads { .. } => SeekKind::RecentDownloads,
            SeekPayload::Downloads { .. } => SeekKind::Downloads,
            SeekPayload::Query { .. } => SeekKind::Query,
            SeekPayload::Relevance { .. } => SeekKind::Relevance,
        }
    }

    /// The payload's values, one for each term of its order.
    pub fn values(&self) -> (v: Vec<Value>)
        ensures
            v@ == payload_values(*self),
    {
        let v = match *self {
            SeekPayload::Name { id } => vec![Value::NameOf(id)],
            SeekPayload::New { created_at, id } => vec![Value::Int(created_at), Value::Int(id as i64)],
            SeekPayload::RecentUpdates { updated_at, id } => vec![
                Value::Int(updated_at),
                Value::Int(id as i64),
            ],
            SeekPayload::RecentDownloads { recent_downloads, id } => vec![
                Value::Nullable(recent_downloads),
                Value::Int(id as i64),
            ],
            SeekPayload::Downloads { downloads, id } => vec![
                Value::Int(downloads),
                Value::Int(id as i64),
            ],
            SeekPayload::Query { exact_match, id } => vec![
                Value::Bool(exact_match),
                Value::NameOf(id),
            ],
            SeekPayload::Relevance { exact_match, rank, id } => vec![
                Value::Bool(exact_match),
                Value::Rank(rank),
                Value::NameOf(id),
            ],
        };
        assert(v@ =~= payload_values(*self));
        v
    }

    /// The condition of the page that continues after this key, in the
    /// direction of the page: the rows that come after the key in the order
    /// of its listing.
    pub fn condition(&self, is_forward: bool) -> (c: Vec<Vec<Comparison>>)
        ensures
            condition_view(c) == keyset_after(
                seek_order(payload_kind(*self), is_forward),
                payload_values(*self),
                seek_order(payload_kind(*self), is_forward).len() as int,
            ),
    {
        let terms = seek_order_terms(self.kind(), is_forward);
        let key = self.values();
        keyset_condition(&terms, &key)
    }
}

/// The columns of a listed crate that its seek keys read.
#[derive(Debug, Clone, Copy, PartialEq, Eq)]
pub struct CrateSortKey {
    pub id: i32,
    /// Microseconds since the Unix epoch.
    pub created_at: i64,
    /// Microseconds since the Unix epoch.
    pub updated_at: i64,
    pub downloads: i64,
    pub recent_downloads: Option<i64>,
    pub exact_match: bool,
    /// The bits of the full-text rank.
    pub rank: u32,
}

/// The values of a crate in the columns of a seek key's order.
pub open spec fn row_values(kind: SeekKind, row: CrateSortKey) -> Seq<Value> {
    match kind {
        SeekKind::Name => seq![Value::NameOf(row.id)],
        SeekKind::New => seq![Value::Int(row.created_at), Value::Int(row.id as i64)],
        SeekKind::RecentUpdates => seq![Value::Int(row.updated_at), Value::Int(row.id as i64)],
        SeekKind::RecentDownloads => seq![
            Value::Nullable(row.recent_downloads),
            Value::Int(row.id as i64),
        ],
        SeekKind::Downloads => seq![Value::Int(row.downloads), Value::Int(row.id as i64)],
        SeekKind::Query => seq![Value::Bool(row.exact_match), Value::NameOf(row.id)],
        SeekKind::Relevance => seq![
            Value::Bool(row.exact_match),
            Value::Rank(row.rank),
            Value::NameOf(row.id),
        ],
    }
}

impl SeekKind {
    /// The seek key of a listed crate, from which the neighbouring page
    /// continues.
    pub fn to_payload(&self, row: &CrateSortKey) -> (p: SeekPayload)
        ensures
            payload_kind(p) == *self,
            payload_values(p) == row_values(*self, *row),
    {
        let id = row.id;
        match *self {
            SeekKind::Name => SeekPayload::Name { id },
            SeekKind::New => SeekPayload::New { created_at: row.created_at, id },
            SeekKind::RecentUpdates => SeekPayload::RecentUpdates { updated_at: row.updated_at, id },
            SeekKind::RecentDownloads => SeekPayload::RecentDownloads {
                recent_downloads: row.recent_downloads,
                id,
            },
            SeekKind::Downloads => SeekPayload::Downloads { downloads: row.downloads, id },
            SeekKind::Query => SeekPayload::Query { exact_match: row.exact_match, id },
            SeekKind::Relevance => SeekPayload::Relevance {
                exact_match: row.exact_match,
                rank: row.rank,
                id,
            },
        }
    }
}

/// Whether `a` sorts below `b`: booleans with `false` first, integers by
/// value, absent counts below all present ones; ranks and names sort as the
/// database orders them (`db_lt`).
pub open spec fn value_lt(a: Value, b: Value, db_lt: spec_fn(Value, Value) -> bool) -> bool {
    match (a, b) {
        (Value::Bool(x), Value::Bool(y)) => !x && y,
        (Value::Int(x), Value::Int(y)) => x < y,
        (Value::Nullable(x), Value::Nullable(y)) => match (x, y) {
            (None, Some(_)) => true,
            (Some(p), Some(q)) => p < q,
            _ => false,
        },
        _ => db_lt(a, b),
    }
}

/// Whether two values are of the same kind.
pub open spec fn same_kind(a: Value, b: Value) -> bool {
    match (a, b) {
        (Value::Bool(_), Value::Bool(_)) => true,
        (Value::Int(_), Value::Int(_)) => true,
        (Value::Nullable(_), Value::Nullable(_)) => true,
        (Value::Rank(_), Value::Rank(_)) => true,
        (Value::NameOf(_), Value::NameOf(_)) => true,
        _ => false,
    }
}

/// Whether a row, given by its value in each column, satisfies a comparison.
pub open spec fn comparison_holds(
    c: Comparison,
    row: spec_fn(Column) -> Value,
    db_lt: spec_fn(Value, Value) -> bool,
) -> bool {
    match c.op {
        CmpOp::Eq => row(c.column) == c.value,
        CmpOp::Lt => value_lt(row(c.column), c.value, db_lt),
        CmpOp::Gt => value_lt(c.value, row(c.column), db_lt),
    }
}

/// Whether a row satisfies every comparison of a conjunction.
pub open spec fn conjunction_holds(
    d: Seq<Comparison>,
    row: spec_fn(Column) -> Value,
    db_lt: spec_fn(Value, Value) -> bool,
) -> bool {
    forall|k: int| 0 <= k < d.len() ==> comparison_holds(#[trigger] d[k], row, db_lt)
}

/// Whether a row satisfies one of the conjunctions of a condition.
pub open spec fn condition_holds(
    c: Seq<Seq<Comparison>>,
    row: spec_fn(Column) -> Value,
    db_lt: spec_fn(Value, Value) -> bool,
) -> bool {
    exists|m: int| 0 <= m < c.len() && conjunction_holds(#[trigger] c[m], row, db_lt)
}

/// Whether the row comes strictly after the key at term `i`: tied on the
/// terms before it, and beyond the key on it in the term's direction.
pub open spec fn after_at(
    terms: Seq<OrderTerm>,
    key: Seq<Value>,
    row: spec_fn(Column) -> Value,
    db_lt: spec_fn(Value, Value) -> bool,
    i: int,
) -> bool {
    &&& forall|j: int| 0 <= j < i ==> row(terms[j].column) == #[trigger] key[j]
    &&& if terms[i].descending {
        value_lt(row(terms[i].column), key[i], db_lt)
    } else {
        value_lt(key[i], row(terms[i].column), db_lt)
    }
}

/// Whether the row comes strictly after the key in the lexicographic order
/// of the first `n` terms.
pub open spec fn lex_after(
    terms: Seq<OrderTerm>,
    key: Seq<Value>,
    row: spec_fn(Column) -> Value,
    db_lt: spec_fn(Value, Value) -> bool,
    n: int,
) -> bool {
    exists|i: int| 0 <= i < n && #[trigger] after_at(terms, key, row, db_lt, i)
}

proof fn lemma_disjunct_holds(
    terms: Seq<OrderTerm>,
    key: Seq<Value>,
    row: spec_fn(Column) -> Value,
    db_lt: spec_fn(Value, Value) -> bool,
    i: int,
)
    requires
        0 <= i < terms.len() == key.len(),
    ensures
        conjunction_holds(ties(terms, key, i).push(beyond(terms[i], key[i])), row, db_lt)
            <==> after_at(terms, key, row, db_lt, i),
{
    let d = ties(terms, key, i).push(beyond(terms[i], key[i]));
    if conjunction_holds(d, row, db_lt) {
        assert forall|j: int| 0 <= j < i implies row(terms[j].column) == #[trigger] key[j] by {
            assert(comparison_holds(d[j], row, db_lt));
        }
        assert(comparison_holds(d[i], row, db_lt));
    }
    if after_at(terms, key, row, db_lt, i) {
        assert forall|k: int| 0 <= k < d.len() implies comparison_holds(#[trigger] d[k], row, db_lt) by {
            if k < i {
                assert(row(terms[k].column) == key[k]);
            }
        }
    }
}

/// The keyset condition of a seek page selects exactly the rows that come
/// strictly after its key in the lexicographic order of the listing (with
/// absent counts sorting lowest, and ranks and names in the database's
/// order): rows are neither skipped nor repeated from page to page.
pub proof fn lemma_keyset_condition_is_lexicographic(
    terms: Seq<OrderTerm>,
    key: Seq<Value>,
    row: spec_fn(Column) -> Value,
    db_lt: spec_fn(Value, Value) -> bool,
    n: int,
)
    requires
        0 <= n <= terms.len() == key.len(),
        forall|j: int| 0 <= j < terms.len() ==> same_kind(row(terms[j].column), #[trigger] key[j]),
    ensures
        condition_holds(keyset_after(terms, key, n), row, db_lt) <==> lex_after(
            terms,
            key,
            row,
            db_lt,
            n,
        ),
    decreases n,
{
    if n > 0 {
        lemma_keyset_condition_is_lexicographic(terms, key, row, db_lt, n - 1);
        let rest = keyset_after(terms, key, n - 1);
        let i = n - 1;
        lemma_disjunct_holds(terms, key, row, db_lt, i);
        let d = ties(terms, key, i).push(beyond(terms[i], key[i]));
        if can_pass(terms[i], key[i]) {
            let all = seq![d] + rest;
            assert(keyset_after(terms, key, n) == all);
            if condition_holds(all, row, db_lt) {
                let m = choose|m: int| 0 <= m < all.len() && conjunction_holds(#[trigger] all[m], row, db_lt);
                if m == 0 {
                    assert(after_at(terms, key, row, db_lt, i));
                } else {
                    assert(all[m] == rest[m - 1]);
                    assert(condition_holds(rest, row, db_lt));
                }
            }
            if lex_after(terms, key, row, db_lt, n) {
                let k = choose|k: int| 0 <= k < n && #[trigger] after_at(terms, key, row, db_lt, k);
                if k == i {
                    assert(conjunction_holds(all[0], row, db_lt));
                } else {
                    assert(lex_after(terms, key, row, db_lt, n - 1));
                    let m = choose|m: int| 0 <= m < rest.len() && conjunction_holds(#[trigger] rest[m], row, db_lt);
                    assert(all[m + 1] == rest[m]);
                }
            }
        } else {
            assert(keyset_after(terms, key, n) == rest);
            assert(same_kind(row(terms[i].column), key[i]));
            assert(!after_at(terms, key, row, db_lt, i));
            if lex_after(terms, key, row, db_lt, n) {
                let k = choose|k: int| 0 <= k < n && #[trigger] after_at(terms, key, row, db_lt, k);
                assert(k != i);
                assert(lex_after(terms, key, row, db_lt, n - 1));
            }
        }
    }
}

/// A listing's seek page continues exactly after the previous page: its
/// condition, for a key of the listing's own seek kind, selects the rows
/// after the key in the order the listing sorts by.
pub proof fn lemma_seek_page_follows_listing_order(
    q_nonempty: bool,
    sort: Option<Seq<char>>,
    forward: bool,
    p: SeekPayload,
    row: spec_fn(Column) -> Value,
    db_lt: spec_fn(Value, Value) -> bool,
)
    requires
        list_seek_kind(q_nonempty, sort) == payload_kind(p),
        forall|j: int|
            0 <= j < payload_values(p).len() ==> same_kind(
                row(seek_order(payload_kind(p), forward)[j].column),
                #[trigger] payload_values(p)[j],
            ),
    ensures
        ({
            let terms = seek_order(list_seek_kind(q_nonempty, sort), forward);
            condition_holds(
                keyset_after(terms, payload_values(p), terms.len() as int),
                row,
                db_lt,
            ) <==> lex_after(terms, payload_values(p), row, db_lt, terms.len() as int)
        }),
{
    let terms = seek_order(payload_kind(p), forward);
    assert(terms.len() == payload_values(p).len());
    lemma_keyset_condition_is_lexicographic(terms, payload_values(p), row, db_lt, terms.len() as int);
}


/// The terms with every direction reversed: the order a backward seek uses.
pub open spec fn reversed_terms(terms: Seq<OrderTerm>) -> Seq<OrderTerm> {
    Seq::new(
        terms.len(),
        |j: int| OrderTerm { column: terms[j].column, descending: !terms[j].descending },
    )
}

/// Whether the database orders ranks and names strictly and totally: never
/// both ways round, and two different values of one of these kinds one way
/// or the other.
pub open spec fn db_order_is_strict_total(db_lt: spec_fn(Value, Value) -> bool) -> bool {
    &&& forall|a: Value, b: Value| #[trigger] db_lt(a, b) ==> !db_lt(b, a)
    &&& forall|a: Value, b: Value|
        #[trigger] same_kind(a, b) && (a is Rank || a is NameOf) && a != b ==> db_lt(a, b) || db_lt(
            b,
            a,
        )
}

proof fn lemma_value_trichotomy(a: Value, b: Value, db_lt: spec_fn(Value, Value) -> bool)
    requires
        same_kind(a, b),
        db_order_is_strict_total(db_lt),
    ensures
        a == b ==> !value_lt(a, b, db_lt),
        a != b ==> value_lt(a, b, db_lt) != value_lt(b, a, db_lt),
{
    match (a, b) {
        (Value::Rank(_), Value::Rank(_)) | (Value::NameOf(_), Value::NameOf(_)) => {
            if db_lt(a, b) {
                assert(!db_lt(b, a));
            }
            if db_lt(b, a) {
                assert(!db_lt(a, b));
            }
        },
        _ => {},
    }
}

proof fn lemma_lex_after_step(
    terms: Seq<OrderTerm>,
    key: Seq<Value>,
    row: spec_fn(Column) -> Value,
    db_lt: spec_fn(Value, Value) -> bool,
    n: int,
)
    requires
        0 <= n,
    ensures
        lex_after(terms, key, row, db_lt, n + 1) <==> (lex_after(terms, key, row, db_lt, n)
            || after_at(terms, key, row, db_lt, n)),
{
    if lex_after(terms, key, row, db_lt, n + 1) {
        let k = choose|k: int| 0 <= k < n + 1 && #[trigger] after_at(terms, key, row, db_lt, k);
        if k < n {
            assert(lex_after(terms, key, row, db_lt, n));
        }
    }
    if lex_after(terms, key, row, db_lt, n) {
        let k = choose|k: int| 0 <= k < n && #[trigger] after_at(terms, key, row, db_lt, k);
        assert(after_at(terms, key, row, db_lt, k));
    }
}

/// Whether the row holds the key's value on each of the first `n` terms.
pub open spec fn tied_on(terms: Seq<OrderTerm>, key: Seq<Value>, row: spec_fn(Column) -> Value, n: int) -> bool {
    forall|j: int| 0 <= j < n ==> row(terms[j].column) == #[trigger] key[j]
}

proof fn lemma_directions_split(
    terms: Seq<OrderTerm>,
    key: Seq<Value>,
    row: spec_fn(Column) -> Value,
    db_lt: spec_fn(Value, Value) -> bool,
    n: int,
)
    requires
        0 <= n <= terms.len() == key.len(),
        forall|j: int| 0 <= j < terms.len() ==> same_kind(row(terms[j].column), #[trigger] key[j]),
        db_order_is_strict_total(db_lt),
    ensures
        tied_on(terms, key, row, n) ==> !lex_after(terms, key, row, db_lt, n) && !lex_after(
            reversed_terms(terms),
            key,
            row,
            db_lt,
            n,
        ),
        !tied_on(terms, key, row, n) ==> lex_after(terms, key, row, db_lt, n) != lex_after(
            reversed_terms(terms),
            key,
            row,
            db_lt,
            n,
        ),
    decreases n,
{
    let back = reversed_terms(terms);
    if n > 0 {
        let i = n - 1;
        lemma_directions_split(terms, key, row, db_lt, i);
        lemma_lex_after_step(terms, key, row, db_lt, i);
        lemma_lex_after_step(back, key, row, db_lt, i);
        assert(back[i].column == terms[i].column && back[i].descending == !terms[i].descending);
        let a = row(terms[i].column);
        lemma_value_trichotomy(a, key[i], db_lt);
        lemma_value_trichotomy(key[i], a, db_lt);
        assert(same_kind(a, key[i]));
        if tied_on(terms, key, row, i) {
            assert(forall|j: int| 0 <= j < i ==> row(back[j].column) == #[trigger] key[j]);
            if a == key[i] {
                assert(tied_on(terms, key, row, n));
                assert(!after_at(terms, key, row, db_lt, i));
                assert(!after_at(back, key, row, db_lt, i));
            } else {
                assert(!tied_on(terms, key, row, n));
                assert(after_at(terms, key, row, db_lt, i) != after_at(back, key, row, db_lt, i));
            }
        } else {
            let j = choose|j: int| 0 <= j < i && row(terms[j].column) != #[trigger] key[j];
            assert(!tied_on(terms, key, row, n));
            assert(!after_at(terms, key, row, db_lt, i));
            assert(row(back[j].column) != key[j]);
            assert(!after_at(back, key, row, db_lt, i));
        }
    }
}

/// A forward and a backward seek from the same key split the other rows:
/// a row that differs from the key on some term of the listing's order
/// comes after the key in exactly one of the two directions, so no row is
/// lost or repeated between them (each order ends with the crate's id or
/// name, on which every other crate differs). The key's own row is in
/// neither.
pub proof fn lemma_seek_directions_split_rows(
    p: SeekPayload,
    row: spec_fn(Column) -> Value,
    db_lt: spec_fn(Value, Value) -> bool,
)
    requires
        forall|j: int|
            0 <= j < payload_values(p).len() ==> same_kind(
                row(seek_order(payload_kind(p), true)[j].column),
                #[trigger] payload_values(p)[j],
            ),
        db_order_is_strict_total(db_lt),
    ensures
        ({
            let fwd = seek_order(payload_kind(p), true);
            let bwd = seek_order(payload_kind(p), false);
            let key = payload_values(p);
            &&& tied_on(fwd, key, row, fwd.len() as int) ==> !lex_after(
                fwd,
                key,
                row,
                db_lt,
                fwd.len() as int,
            ) && !lex_after(bwd, key, row, db_lt, bwd.len() as int)
            &&& !tied_on(fwd, key, row, fwd.len() as int) ==> lex_after(
                fwd,
                key,
                row,
                db_lt,
                fwd.len() as int,
            ) != lex_after(bwd, key, row, db_lt, bwd.len() as int)
        }),
{
    let fwd = seek_order(payload_kind(p), true);
    let bwd = seek_order(payload_kind(p), false);
    assert(bwd =~= reversed_terms(fwd));
    lemma_directions_split(fwd, payload_values(p), row, db_lt, fwd.len() as int);
}

/// The id of the crate a payload was taken from.
pub open spec fn payload_id(p: SeekPayload) -> i32 {
    match p {
        SeekPayload::Name { id } => id,
        SeekPayload::New { id, .. } => id,
        SeekPayload::RecentUpdates { id, .. } => id,
        SeekPayload::RecentDownloads { id, .. } => id,
        SeekPayload::Downloads { id, .. } => id,
        SeekPayload::Query { id, .. } => id,
        SeekPayload::Relevance { id, .. } => id,
    }
}

/// The forward and the backward seek from a crate's key split the other
/// crates: a crate whose id differs from the key's comes after the key in
/// exactly one of the two directions (where the database orders ranks and
/// names strictly and totally, and the row's id and name columns are those
/// of its id).
pub proof fn lemma_seek_directions_split_other_crates(
    p: SeekPayload,
    row: spec_fn(Column) -> Value,
    db_lt: spec_fn(Value, Value) -> bool,
    id: i32,
)
    requires
        row(Column::Id) == Value::Int(id as i64),
        row(Column::Name) == Value::NameOf(id),
        id != payload_id(p),
        forall|j: int|
            0 <= j < payload_values(p).len() ==> same_kind(
                row(seek_order(payload_kind(p), true)[j].column),
                #[trigger] payload_values(p)[j],
            ),
        db_order_is_strict_total(db_lt),
    ensures
        ({
            let fwd = seek_order(payload_kind(p), true);
            let bwd = seek_order(payload_kind(p), false);
            let key = payload_values(p);
            lex_after(fwd, key, row, db_lt, fwd.len() as int) != lex_after(
                bwd,
                key,
                row,
                db_lt,
                bwd.len() as int,
            )
        }),
{
    let fwd = seek_order(payload_kind(p), true);
    let key = payload_values(p);
    let last = fwd.len() - 1;
    assert(row(fwd[last].column) != key[last]);
    assert(!tied_on(fwd, key, row, fwd.len() as int));
    lemma_seek_directions_split_rows(p, row, db_lt);
}

/// The value a listed crate holds in a column, as the database reads it.
pub open spec fn row_column(row: CrateSortKey, column: Column) -> Value {
    match column {
        Column::ExactMatch => Value::Bool(row.exact_match),
        Column::Rank => Value::Rank(row.rank),
        Column::Name => Value::NameOf(row.id),
        Column::Downloads => Value::Int(row.downloads),
        Column::RecentDownloads => Value::Nullable(row.recent_downloads),
        Column::UpdatedAt => Value::Int(row.updated_at),
        Column::CreatedAt => Value::Int(row.created_at),
        Column::Id => Value::Int(row.id as i64),
    }
}

/// The seek key of a listed crate holds, for each term of the listing's
/// order (either direction), that crate's own value in the term's column:
/// the neighbouring page continues exactly from the crate.
pub proof fn lemma_payload_holds_the_crates_values(kind: SeekKind, row: CrateSortKey, forward: bool)
    ensures
        row_values(kind, row).len() == seek_order(kind, forward).len(),
        forall|j: int|
            0 <= j < row_values(kind, row).len() ==> #[trigger] row_values(kind, row)[j] == row_column(
                row,
                seek_order(kind, forward)[j].column,
            ),
{
}

/// Whether a row comes strictly after the key of a page in its listing's
/// order, over all the order's terms.
pub open spec fn comes_after(
    p: SeekPayload,
    forward: bool,
    row: spec_fn(Column) -> Value,
    db_lt: spec_fn(Value, Value) -> bool,
) -> bool {
    let terms = seek_order(payload_kind(p), forward);
    lex_after(terms, payload_values(p), row, db_lt, terms.len() as int)
}

/// A row whose value `x` in the sort column is below the key's `k` comes
/// after the key forward and not backward; one above it, the other way round.
pub open spec fn split_by_value(
    p: SeekPayload,
    row: spec_fn(Column) -> Value,
    db_lt: spec_fn(Value, Value) -> bool,
    x: int,
    k: int,
) -> bool {
    &&& x < k ==> comes_after(p, true, row, db_lt) && !comes_after(p, false, row, db_lt)
    &&& x > k ==> !comes_after(p, true, row, db_lt) && comes_after(p, false, row, db_lt)
}

/// Listings sorted by a count or a time put the largest values first: a
/// forward page continues with the crates whose value is smaller than the
/// key's, and a backward page with those whose value is larger. This holds
/// for `sort=new` (creation time), `sort=recent-updates` (update time),
/// `sort=downloads` and `sort=recent-downloads` (present counts).
pub proof fn lemma_sorted_listings_put_largest_first(
    p: SeekPayload,
    row: spec_fn(Column) -> Value,
    db_lt: spec_fn(Value, Value) -> bool,
    x: i64,
)
    ensures
        p is New && row(Column::CreatedAt) == Value::Int(x) ==> split_by_value(
            p,
            row,
            db_lt,
            x as int,
            p->New_created_at as int,
        ),
        p is RecentUpdates && row(Column::UpdatedAt) == Value::Int(x) ==> split_by_value(
            p,
            row,
            db_lt,
            x as int,
            p->RecentUpdates_updated_at as int,
        ),
        p is Downloads && row(Column::Downloads) == Value::Int(x) ==> split_by_value(
            p,
            row,
            db_lt,
            x as int,
            p->Downloads_downloads as int,
        ),
        p is RecentDownloads && p->RecentDownloads_recent_downloads is Some && row(
            Column::RecentDownloads,
        ) == Value::Nullable(Some(x)) ==> split_by_value(
            p,
            row,
            db_lt,
            x as int,
            p->RecentDownloads_recent_downloads->0 as int,
        ),
{
    let key = payload_values(p);
    let f = seek_order(payload_kind(p), true);
    let b = seek_order(payload_kind(p), false);
    match p {
        SeekPayload::New { .. } | SeekPayload::RecentUpdates { .. } | SeekPayload::Downloads {
            ..
        } | SeekPayload::RecentDownloads { .. } => {
            lemma_lex_after_step(f, key, row, db_lt, 0);
            lemma_lex_after_step(f, key, row, db_lt, 1);
            lemma_lex_after_step(b, key, row, db_lt, 0);
            lemma_lex_after_step(b, key, row, db_lt, 1);
            assert(!lex_after(f, key, row, db_lt, 0));
            assert(!lex_after(b, key, row, db_lt, 0));
            assert(f.len() == 2 && b.len() == 2);
        },
        _ => {},
    }
}

/// Listings by name go alphabetically: a forward page continues with the
/// crates whose name the database orders after the key's, a backward page
/// with those before it. Searches list exact name matches first: forward,
/// a crate that does not match exactly comes after one that does.
pub proof fn lemma_name_and_match_order(
    p: SeekPayload,
    row: spec_fn(Column) -> Value,
    db_lt: spec_fn(Value, Value) -> bool,
    name: Value,
)
    requires
        db_order_is_strict_total(db_lt),
    ensures
        p is Name && row(Column::Name) == name && db_lt(Value::NameOf(p->Name_id), name)
            ==> comes_after(p, true, row, db_lt) && !comes_after(p, false, row, db_lt),
        p is Name && row(Column::Name) == name && db_lt(name, Value::NameOf(p->Name_id))
            ==> !comes_after(p, true, row, db_lt) && comes_after(p, false, row, db_lt),
        p is Query && p->Query_exact_match && row(Column::ExactMatch) == Value::Bool(false)
            ==> comes_after(p, true, row, db_lt) && !comes_after(p, false, row, db_lt),
        p is Query && !p->Query_exact_match && row(Column::ExactMatch) == Value::Bool(true)
            ==> !comes_after(p, true, row, db_lt) && comes_after(p, false, row, db_lt),
        p is Relevance && p->Relevance_exact_match && row(Column::ExactMatch) == Value::Bool(false)
            ==> comes_after(p, true, row, db_lt) && !comes_after(p, false, row, db_lt),
        p is Relevance && !p->Relevance_exact_match && row(Column::ExactMatch) == Value::Bool(true)
            ==> !comes_after(p, true, row, db_lt) && comes_after(p, false, row, db_lt),
{
    let key = payload_values(p);
    let f = seek_order(payload_kind(p), true);
    let b = seek_order(payload_kind(p), false);
    lemma_lex_after_step(f, key, row, db_lt, 0);
    lemma_lex_after_step(b, key, row, db_lt, 0);
    assert(!lex_after(f, key, row, db_lt, 0));
    assert(!lex_after(b, key, row, db_lt, 0));
    match p {
        SeekPayload::Name { id } => {
            assert(f.len() == 1);
            if db_lt(Value::NameOf(id), name) {
                assert(!db_lt(name, Value::NameOf(id)));
            }
            if db_lt(name, Value::NameOf(id)) {
                assert(!db_lt(Value::NameOf(id), name));
            }
        },
        SeekPayload::Query { .. } => {
            lemma_lex_after_step(f, key, row, db_lt, 1);
            lemma_lex_after_step(b, key, row, db_lt, 1);
        },
        SeekPayload::Relevance { .. } => {
            lemma_lex_after_step(f, key, row, db_lt, 1);
            lemma_lex_after_step(b, key, row, db_lt, 1);
            lemma_lex_after_step(f, key, row, db_lt, 2);
            lemma_lex_after_step(b, key, row, db_lt, 2);
        },
        _ => {},
    }
}

} // verus!
