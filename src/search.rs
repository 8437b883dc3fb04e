//! Full-text search with structured filters, and the excerpts that show
//! where a query matched.

use vstd::prelude::*;
use vstd::string::*;
use crate::error::KbError;
use crate::models::{page_type_name, PageType, SearchResult};
use crate::sql::{
    args_are_texts, opt_term, query, term_conditions, term_texts, where_clause, FilterTerm, QueryTerms, SqlValue,
};
use crate::text::{push_char, slice_chars, to_chars};

verus! {

/// What `str::to_lowercase` yields: Unicode's full lowercase mapping.
pub uninterp spec fn lower_of(s: Seq<char>) -> Seq<char>;

/// Relies on `str::to_lowercase`: the lowercase form, which depends on the
/// text alone.
#[verifier::external_body]
fn lowercase(s: &str) -> (r: String)
    ensures
        r@ == lower_of(s@),
{
    s.to_lowercase()
}

/// Parameters of a search: a text query and filters, each optional.
#[derive(Debug, Clone)]
pub struct SearchParams {
    pub query: Option<String>,
    pub space_id: Option<String>,
    pub page_type: Option<PageType>,
    pub label: Option<String>,
    pub created_by_agent: Option<String>,
    /// Only pages whose sections hold this key.
    pub section: Option<String>,
}

/// `s` without the double quotes at its start and at its end.
pub open spec fn trim_quotes(s: Seq<char>) -> Seq<char>
    decreases s.len(),
{
    if s.len() > 0 && s[0] == '"' {
        trim_quotes(s.drop_first())
    } else if s.len() > 0 && s.last() == '"' {
        trim_quotes(s.drop_last())
    } else {
        s
    }
}

fn trim_quote_chars(v: &Vec<char>) -> (r: (usize, usize))
    ensures
        r.0 <= r.1 <= v@.len(),
        v@.subrange(r.0 as int, r.1 as int) == trim_quotes(v@),
{
    let mut start: usize = 0;
    let mut end: usize = v.len();
    assert(v@.subrange(0, v@.len() as int) =~= v@);
    while start < end && v[start] == '"'
        invariant
            start <= end == v@.len(),
            trim_quotes(v@.subrange(start as int, end as int)) == trim_quotes(v@),
        decreases end - start,
    {
        assert(v@.subrange(start as int, end as int).drop_first() =~= v@.subrange(start + 1, end as int));
        start += 1;
    }
    while start < end && v[end - 1] == '"'
        invariant
            start <= end <= v@.len(),
            trim_quotes(v@.subrange(start as int, end as int)) == trim_quotes(v@),
            start < end ==> v@[start as int] != '"',
        decreases end - start,
    {
        assert(v@.subrange(start as int, end as int).drop_last() =~= v@.subrange(start as int, end - 1));
        end -= 1;
    }
    proof {
        lemma_trim_fixed(v@.subrange(start as int, end as int));
    }
    (start, end)
}

proof fn lemma_trim_fixed(s: Seq<char>)
    requires
        s.len() == 0 || (s[0] != '"' && s.last() != '"'),
    ensures
        trim_quotes(s) == s,
{
}

/// Whether `n` occurs in `h` at index `i`.
pub open spec fn occurs_at(h: Seq<char>, n: Seq<char>, i: int) -> bool {
    0 <= i && i + n.len() <= h.len() && h.subrange(i, i + n.len()) == n
}

/// The first index at or after `i` where `n` occurs in `h`.
pub open spec fn first_match_from(h: Seq<char>, n: Seq<char>, i: int) -> Option<int>
    decreases h.len() + 1 - i,
{
    if i < 0 || i + n.len() > h.len() {
        None
    } else if h.subrange(i, i + n.len()) == n {
        Some(i)
    } else {
        first_match_from(h, n, i + 1)
    }
}

fn matches_at(h: &Vec<char>, n: &Vec<char>, i: usize) -> (r: bool)
    requires
        i + n@.len() <= h@.len(),
    ensures
        r == (h@.subrange(i as int, i + n@.len()) == n@),
{
    let hl = h.len();
    let mut j: usize = 0;
    while j < n.len()
        invariant
            hl == h@.len(),
            i + n@.len() <= h@.len(),
            j <= n@.len(),
            forall|k: int| 0 <= k < j ==> h@[i + k] == n@[k],
        decreases n@.len() - j,
    {
        if h[i + j] != n[j] {
            assert(h@.subrange(i as int, i + n@.len())[j as int] != n@[j as int]);
            return false;
        }
        j += 1;
    }
    assert(h@.subrange(i as int, i + n@.len()) =~= n@);
    true
}

/// The first index where `n` occurs in `h`, by characters.
fn find_chars(h: &Vec<char>, n: &Vec<char>) -> (r: Option<usize>)
    ensures
        r matches Some(i) ==> first_match_from(h@, n@, 0) == Some(i as int),
        r is None ==> first_match_from(h@, n@, 0) is None,
{
    if n.len() > h.len() {
        return None;
    }
    let last = h.len() - n.len();
    let mut i: usize = 0;
    loop
        invariant
            last + n@.len() == h@.len(),
            i <= last,
            first_match_from(h@, n@, 0) == first_match_from(h@, n@, i as int),
        decreases last - i,
    {
        if matches_at(h, n, i) {
            return Some(i);
        }
        if i == last {
            assert(first_match_from(h@, n@, i + 1) is None);
            return None;
        }
        i += 1;
    }
}

/// Context kept on each side of a match, and the length of the opening shown
/// when nothing matches, in characters.
pub const EXCERPT_CONTEXT: usize = 40;
pub const EXCERPT_FALLBACK: usize = 100;

/// The excerpt for a match at `pos` of a query of `qlen` characters: up to
/// `EXCERPT_CONTEXT` characters on each side, with an ellipsis where the
/// content was cut.
pub open spec fn excerpt_around(content: Seq<char>, pos: int, qlen: int) -> Seq<char> {
    let end = if pos + qlen + EXCERPT_CONTEXT < content.len() {
        pos + qlen + EXCERPT_CONTEXT
    } else {
        content.len() as int
    };
    let start0 = if pos > EXCERPT_CONTEXT { pos - EXCERPT_CONTEXT } else { 0 };
    let start = if start0 < end { start0 } else { end };
    (if start > 0 { "..."@ } else { Seq::empty() }) + content.subrange(start, end) + (if end
        < content.len() {
        "..."@
    } else {
        Seq::empty()
    })
}

/// The excerpt of `content` for `query`: around the first case-insensitive
/// occurrence of the query (without surrounding double quotes), or the
/// opening of the content when it does not occur.
pub open spec fn excerpt_of(content: Seq<char>, query: Seq<char>) -> Seq<char> {
    let q = lower_of(trim_quotes(query));
    match first_match_from(lower_of(content), q, 0) {
        Some(pos) => excerpt_around(content, pos, q.len() as int),
        None => if content.len() > EXCERPT_FALLBACK {
            content.subrange(0, EXCERPT_FALLBACK as int) + "..."@
        } else {
            content
        },
    }
}

/// The query as one FTS5 phrase: wrapped in double quotes, inner double
/// quotes doubled, so that no character of it reads as query syntax.
pub open spec fn fts_phrase(q: Seq<char>) -> Seq<char> {
    seq!['"'] + quote_doubled(q) + seq!['"']
}

pub open spec fn quote_doubled(q: Seq<char>) -> Seq<char>
    decreases q.len(),
{
    if q.len() == 0 {
        Seq::empty()
    } else if q.last() == '"' {
        quote_doubled(q.drop_last()) + seq!['"', '"']
    } else {
        quote_doubled(q.drop_last()).push(q.last())
    }
}

pub fn fts_quote(q: &str) -> (r: String)
    ensures
        r@ == fts_phrase(q@),
{
    let chars = to_chars(q);
    let mut out = String::new();
    push_char(&mut out, '"');
    let mut i: usize = 0;
    while i < chars.len()
        invariant
            i <= chars@.len(),
            chars@ == q@,
            out@ == seq!['"'] + quote_doubled(q@.subrange(0, i as int)),
        decreases chars@.len() - i,
    {
        assert(q@.subrange(0, i + 1).drop_last() =~= q@.subrange(0, i as int));
        let c = chars[i];
        push_char(&mut out, c);
        if c == '"' {
            push_char(&mut out, '"');
        }
        proof {
            let prev = quote_doubled(q@.subrange(0, i as int));
            if c == '"' {
                assert(out@ =~= seq!['"'] + (prev + seq!['"', '"']));
            } else {
                assert(out@ =~= seq!['"'] + prev.push(c));
            }
        }
        i += 1;
    }
    assert(q@.subrange(0, q@.len() as int) =~= q@);
    push_char(&mut out, '"');
    out
}

/// The JSON path of a top-level key.
pub fn section_path(key: &str) -> (r: String)
    ensures
        r@ == "$."@ + key@,
{
    let mut p = String::from_str("$.");
    p.append(key);
    p
}

/// The parameters of a search that are set, in a fixed order, each with its
/// condition and the text bound to it: the query as one phrase, then the
/// filters.
pub open spec fn search_terms(p: SearchParams) -> Seq<FilterTerm> {
    query_term(p) + opt_term(p.space_id, "p.space_id = ?"@) + type_term(p.page_type) + opt_term(
        p.label,
        "filter_labels.label = ?"@,
    ) + opt_term(p.created_by_agent, "p.created_by_agent = ?"@) + section_term(p)
}

pub open spec fn query_term(p: SearchParams) -> Seq<FilterTerm> {
    match p.query {
        Some(q) => seq![("pages_fts MATCH ?"@, fts_phrase(q@))],
        None => Seq::empty(),
    }
}

pub open spec fn type_term(t: Option<PageType>) -> Seq<FilterTerm> {
    match t {
        Some(t) => seq![("p.page_type = ?"@, page_type_name(t))],
        None => Seq::empty(),
    }
}

pub open spec fn section_term(p: SearchParams) -> Seq<FilterTerm> {
    match p.section {
        Some(k) => seq![("json_extract(p.sections, ?) IS NOT NULL"@, "$."@ + k@)],
        None => Seq::empty(),
    }
}

/// The statement of a search: over the full-text index when there is a
/// query (ranked), over all pages otherwise; labels joined exactly when a
/// label filter is set; one row per page.
pub open spec fn search_sql(p: SearchParams) -> Seq<char> {
    "SELECT p.id, p.space_id, p.parent_id, p.title, p.page_type, p.content, p.created_by_user, p.created_by_agent, p.created_at, p.updated_at, p.version, p.sections"@
        + (if p.query.is_some() {
        " FROM pages_fts JOIN pages p ON p.rowid = pages_fts.rowid"@
    } else {
        " FROM pages p"@
    }) + (if p.label.is_some() {
        " JOIN labels filter_labels ON p.id = filter_labels.page_id"@
    } else {
        Seq::empty()
    }) + where_clause(term_conditions(search_terms(p))) + " GROUP BY p.id"@ + (if p.query.is_some() {
        " ORDER BY rank"@
    } else {
        Seq::empty()
    })
}

fn push_opt(terms: &mut QueryTerms, condition: &str, value: &Option<String>, Ghost(ts): Ghost<Seq<FilterTerm>>)
    requires
        old(terms).holds(ts),
    ensures
        final(terms).holds(ts + opt_term(*value, condition@)),
{
    match value {
        Some(v) => {
            terms.push(condition, v.as_str(), Ghost(ts));
            assert(ts.push((condition@, v@)) =~= ts + opt_term(*value, condition@));
        },
        None => {
            assert(ts =~= ts + opt_term(*value, condition@));
        },
    }
}

/// The statement and arguments of a search.
pub fn search_query(params: &SearchParams) -> (r: (String, Vec<SqlValue>))
    ensures
        r.0@ == search_sql(*params),
        args_are_texts(r.1@, term_texts(search_terms(*params))),
{
    let mut terms = QueryTerms::new();
    let ghost t0 = Seq::<FilterTerm>::empty();
    let ghost q_term = query_term(*params);
    match &params.query {
        Some(q) => {
            let phrase = fts_quote(q.as_str());
            terms.push("pages_fts MATCH ?", phrase.as_str(), Ghost(t0));
            assert(t0.push(("pages_fts MATCH ?"@, phrase@)) =~= t0 + q_term);
        },
        None => {
            assert(t0 =~= t0 + q_term);
        },
    }
    let ghost t1 = t0 + q_term;
    push_opt(&mut terms, "p.space_id = ?", &params.space_id, Ghost(t1));
    let ghost t2 = t1 + opt_term(params.space_id, "p.space_id = ?"@);
    let ghost tt = type_term(params.page_type);
    match &params.page_type {
        Some(t) => {
            terms.push("p.page_type = ?", t.as_str(), Ghost(t2));
            assert(t2.push(("p.page_type = ?"@, page_type_name(*t))) =~= t2 + tt);
        },
        None => {
            assert(t2 =~= t2 + tt);
        },
    }
    let ghost t3 = t2 + tt;
    push_opt(&mut terms, "filter_labels.label = ?", &params.label, Ghost(t3));
    let ghost t4 = t3 + opt_term(params.label, "filter_labels.label = ?"@);
    push_opt(&mut terms, "p.created_by_agent = ?", &params.created_by_agent, Ghost(t4));
    let ghost t5 = t4 + opt_term(params.created_by_agent, "p.created_by_agent = ?"@);
    let ghost st = section_term(*params);
    match &params.section {
        Some(k) => {
            let path = section_path(k.as_str());
            terms.push("json_extract(p.sections, ?) IS NOT NULL", path.as_str(), Ghost(t5));
            assert(t5.push(("json_extract(p.sections, ?) IS NOT NULL"@, path@)) =~= t5 + st);
        },
        None => {
            assert(t5 =~= t5 + st);
        },
    }
    let ghost t6 = t5 + st;
    assert(t6 =~= search_terms(*params));
    let mut sql = String::from_str(
        "SELECT p.id, p.space_id, p.parent_id, p.title, p.page_type, p.content, p.created_by_user, p.created_by_agent, p.created_at, p.updated_at, p.version, p.sections",
    );
    if params.query.is_some() {
        sql.append(" FROM pages_fts JOIN pages p ON p.rowid = pages_fts.rowid");
    } else {
        sql.append(" FROM pages p");
    }
    if params.label.is_some() {
        sql.append(" JOIN labels filter_labels ON p.id = filter_labels.page_id");
    }
    let w = terms.where_text();
    sql.append(w.as_str());
    sql.append(" GROUP BY p.id");
    if params.query.is_some() {
        sql.append(" ORDER BY rank");
    }
    (sql, terms.args)
}

/// Pages matching the text query and every filter that is set, with their
/// labels, through the statement [`search_query`] builds. With a query,
/// results come by relevance and each carries an
/// excerpt around the match (taken from the filtered section when one is
/// named and present as text); without one, the excerpt is empty.
pub fn search_pages(conn: &rusqlite::Connection, params: &SearchParams) -> (r: Result<Vec<SearchResult>, KbError>)
    ensures
        r is Err ==> r->Err_0 is Db,
        r is Ok && params.query.is_none() ==> forall|i: int| 0 <= i < r->Ok_0@.len()
            ==> (#[trigger] r->Ok_0@[i]).excerpt@.len() == 0,
        r is Ok && params.query.is_some() && params.section.is_none() ==> forall|i: int|
            0 <= i < r->Ok_0@.len() ==> (#[trigger] r->Ok_0@[i]).excerpt@ == excerpt_of(
                r->Ok_0@[i].page.content@,
                params.query->0@,
            ),
{
    let (sql, args) = search_query(params);
    let rows = query(conn, sql.as_str(), &args)?;
    let mut results: Vec<SearchResult> = Vec::new();
    let mut i: usize = 0;
    while i < rows.len()
        invariant
            i <= rows@.len(),
            params.query.is_none() ==> forall|j: int| 0 <= j < results@.len()
                ==> (#[trigger] results@[j]).excerpt@.len() == 0,
            params.query.is_some() && params.section.is_none() ==> forall|j: int|
                0 <= j < results@.len() ==> (#[trigger] results@[j]).excerpt@ == excerpt_of(
                    results@[j].page.content@,
                    params.query->0@,
                ),
        decreases rows@.len() - i,
    {
        let mut page = crate::repo::row_to_page(&rows[i])?;
        page.labels = crate::repo::get_labels(conn, page.id.as_str())?;
        let excerpt = match &params.query {
            Some(q) => {
                let section_text = match (&params.section, &page.sections) {
                    (Some(key), Some(secs)) => secs.get_text(key.as_str()),
                    _ => None,
                };
                match section_text {
                    Some(t) => make_excerpt(t.as_str(), q.as_str()),
                    None => make_excerpt(page.content.as_str(), q.as_str()),
                }
            },
            None => String::new(),
        };
        results.push(SearchResult { page, excerpt });
        i += 1;
    }
    Ok(results)
}

/// Shows the query in context within the content. Positions count characters.
pub fn make_excerpt(content: &str, query: &str) -> (r: String)
    ensures
        r@ == excerpt_of(content@, query@),
{
    let chars = to_chars(content);
    let lower_content = lowercase(content);
    let qchars = to_chars(query);
    let (qs, qe) = trim_quote_chars(&qchars);
    let trimmed = slice_chars(&qchars, qs, qe);
    let clean_query = lowercase(trimmed.as_str());
    let hay = to_chars(lower_content.as_str());
    let needle = to_chars(clean_query.as_str());
    let n = chars.len();
    match find_chars(&hay, &needle) {
        Some(pos) => {
            let qlen = needle.len();
            let end = if pos <= n && qlen <= n - pos && EXCERPT_CONTEXT < n - pos - qlen {
                pos + qlen + EXCERPT_CONTEXT
            } else {
                n
            };
            let start0 = if pos > EXCERPT_CONTEXT { pos - EXCERPT_CONTEXT } else { 0 };
            let start = if start0 < end { start0 } else { end };
            let mut out = String::new();
            if start > 0 {
                out.append("...");
            }
            let middle = slice_chars(&chars, start, end);
            out.append(middle.as_str());
            if end < n {
                out.append("...");
            }
            out
        },
        None => {
            if n > EXCERPT_FALLBACK {
                let mut out = slice_chars(&chars, 0, EXCERPT_FALLBACK);
                out.append("...");
                out
            } else {
                String::from_str(content)
            }
        },
    }
}

} // verus!
