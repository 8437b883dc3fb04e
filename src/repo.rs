//! The document store: spaces, pages, labels and links over SQLite, with the
//! version-checked mutation protocol.
//!
//! Every mutation is one conditional statement, or one transaction rolled back
//! on the first failure, so no caller sees a half-applied change. What the
//! store holds lives on disk and is shared with other writers; the contracts
//! here state what holds of every outcome, and the decisions taken on an
//! outcome stand in functions of their own with exact contracts.

use vstd::prelude::*;
use vstd::string::*;
use crate::error::KbError;
use crate::models::{
    flatten_sections, page_type_name, page_type_named, relation_named, sections_entries, sections_to_content, Link, LinkRelation,
    Page, PageType, Sections, Space,
};
use crate::sql::{
    args_are_texts, begin, commit, execute, get_int, get_opt_text, get_text, is_text_at, opt_term, opt_text,
    query, rollback, term_conditions, term_texts, text, text_at, where_clause, FilterTerm, QueryTerms,
    SqlValue,
};
use crate::text::str_eq;

verus! {

/// Relies on `uuid::Uuid::new_v4` and its hyphenated `Display`: a fresh
/// random identifier.
#[verifier::external_body]
fn new_id() -> (r: String) {
    uuid::Uuid::new_v4().to_string()
}

/// Relies on `chrono::Utc::now` and `DateTime::to_rfc3339`: the current time
/// as RFC 3339 text.
#[verifier::external_body]
fn now_timestamp() -> (r: String) {
    chrono::Utc::now().to_rfc3339()
}

/// Filters for listing pages; unset filters match every page.
pub struct PageFilters {
    pub space_id: Option<String>,
    pub page_type: Option<PageType>,
    pub label: Option<String>,
    pub created_by_user: Option<String>,
    pub created_by_agent: Option<String>,
}

/// `before`, then `subject`, then `after`.
fn message(before: &str, subject: &str, after: &str) -> (r: String)
    ensures
        r@ == before@ + subject@ + after@,
{
    let mut s = String::from_str(before);
    s.append(subject);
    s.append(after);
    s
}

fn page_not_found(id: &str) -> (e: KbError)
    ensures
        e is NotFound,
{
    KbError::NotFound(message("Page with ID '", id, "' not found"))
}

fn copy_strings(v: &[String]) -> (r: Vec<String>)
    ensures
        r@ == v@,
{
    let mut out: Vec<String> = Vec::new();
    let mut i: usize = 0;
    while i < v.len()
        invariant
            i <= v@.len(),
            out@ == v@.subrange(0, i as int),
        decreases v@.len() - i,
    {
        out.push(v[i].clone());
        i += 1;
    }
    assert(v@.subrange(0, v@.len() as int) =~= v@);
    out
}

fn to_owned_opt(s: Option<&str>) -> (r: Option<String>)
    ensures
        s.is_none() == r.is_none(),
        s.is_some() ==> r->0@ == s->0@,
{
    match s {
        Some(v) => Some(String::from_str(v)),
        None => None,
    }
}

fn opt_string(s: &Option<String>) -> (r: SqlValue)
    ensures
        s.is_none() ==> r is Null,
        s.is_some() ==> (r matches SqlValue::Text(t) && t@ == s->0@),
{
    match s {
        Some(v) => SqlValue::Text(v.clone()),
        None => SqlValue::Null,
    }
}

// ---------------------------------------------------------------------------
// Rows
// ---------------------------------------------------------------------------

pub open spec fn is_opt_text_at(row: Seq<SqlValue>, i: int) -> bool {
    0 <= i < row.len() && (row[i] is Text || row[i] is Null)
}

/// The columns of a space row: id, slug, name, description, created_at, updated_at.
pub open spec fn space_row_ok(row: Seq<SqlValue>) -> bool {
    forall|i: int| 0 <= i < 6 ==> #[trigger] is_text_at(row, i)
}

pub open spec fn space_matches_row(s: Space, row: Seq<SqlValue>) -> bool {
    &&& s.id@ == text_at(row, 0)
    &&& s.slug@ == text_at(row, 1)
    &&& s.name@ == text_at(row, 2)
    &&& s.description@ == text_at(row, 3)
    &&& s.created_at@ == text_at(row, 4)
    &&& s.updated_at@ == text_at(row, 5)
}

/// Reads a space from the columns of a space row.
pub fn row_to_space(row: &Vec<SqlValue>) -> (r: Result<Space, KbError>)
    ensures
        r is Ok <==> space_row_ok(row@),
        r is Ok ==> space_matches_row(r->Ok_0, row@),
        r is Err ==> r->Err_0 is Db,
{
    let id = get_text(row, 0, "id")?;
    let slug = get_text(row, 1, "slug")?;
    let name = get_text(row, 2, "name")?;
    let description = get_text(row, 3, "description")?;
    let created_at = get_text(row, 4, "created_at")?;
    let updated_at = get_text(row, 5, "updated_at")?;
    assert(forall|i: int| 0 <= i < 6 ==> #[trigger] is_text_at(row@, i) <== (i == 0 || i == 1 || i == 2 || i == 3 || i == 4 || i == 5));
    Ok(Space { id, slug, name, description, created_at, updated_at })
}

/// The columns of a page row: id, space_id, parent_id, title, page_type,
/// content, created_by_user, created_by_agent, created_at, updated_at,
/// version, sections.
pub open spec fn page_row_ok(row: Seq<SqlValue>) -> bool {
    &&& is_text_at(row, 0)
    &&& is_text_at(row, 1)
    &&& is_opt_text_at(row, 2)
    &&& is_text_at(row, 3)
    &&& is_text_at(row, 4)
    &&& page_type_named(text_at(row, 4)).is_some()
    &&& is_text_at(row, 5)
    &&& is_text_at(row, 6)
    &&& is_text_at(row, 7)
    &&& is_text_at(row, 8)
    &&& is_text_at(row, 9)
    &&& 10 < row.len() && row[10] is Int
    &&& is_opt_text_at(row, 11)
}

pub open spec fn page_matches_row(p: Page, row: Seq<SqlValue>) -> bool {
    &&& p.created_at@ == text_at(row, 8)
    &&& p.updated_at@ == text_at(row, 9)
    &&& p.id@ == text_at(row, 0)
    &&& p.space_id@ == text_at(row, 1)
    &&& (row[2] is Null <==> p.parent_id.is_none())
    &&& (p.parent_id.is_some() ==> p.parent_id->0@ == text_at(row, 2))
    &&& p.title@ == text_at(row, 3)
    &&& page_type_named(text_at(row, 4)) == Some(p.page_type)
    &&& p.content@ == text_at(row, 5)
    &&& p.created_by_user@ == text_at(row, 6)
    &&& p.created_by_agent@ == text_at(row, 7)
    &&& row[10] == SqlValue::Int(p.version)
}

/// Reads a page from a row; its labels are left empty. Stored sections that
/// are not JSON read as absent.
pub fn row_to_page(row: &Vec<SqlValue>) -> (r: Result<Page, KbError>)
    ensures
        r is Ok <==> page_row_ok(row@),
        r is Ok ==> page_matches_row(r->Ok_0, row@) && r->Ok_0.labels@.len() == 0,
        r is Err ==> r->Err_0 is Db,
{
    let id = get_text(row, 0, "id")?;
    let space_id = get_text(row, 1, "space_id")?;
    let parent_id = get_opt_text(row, 2, "parent_id")?;
    let title = get_text(row, 3, "title")?;
    let stored_type = get_text(row, 4, "page_type")?;
    let page_type = match PageType::from_str(stored_type.as_str()) {
        Some(t) => t,
        None => {
            return Err(KbError::Db(crate::sql::column_error(4, "page_type")));
        },
    };
    let content = get_text(row, 5, "content")?;
    let created_by_user = get_text(row, 6, "created_by_user")?;
    let created_by_agent = get_text(row, 7, "created_by_agent")?;
    let created_at = get_text(row, 8, "created_at")?;
    let updated_at = get_text(row, 9, "updated_at")?;
    let version = get_int(row, 10, "version")?;
    let sections_text = get_opt_text(row, 11, "sections")?;
    let sections = match sections_text {
        Some(t) => match Sections::from_json(t.as_str()) {
            Ok(s) => Some(s),
            Err(_) => None,
        },
        None => None,
    };
    Ok(Page {
        id,
        space_id,
        parent_id,
        title,
        page_type,
        content,
        sections,
        created_by_user,
        created_by_agent,
        created_at,
        updated_at,
        version,
        labels: Vec::new(),
    })
}

/// Reads every row as a page and attaches each page's labels.
fn pages_with_labels(conn: &rusqlite::Connection, rows: &Vec<Vec<SqlValue>>) -> (r: Result<Vec<Page>, KbError>)
    ensures
        r is Ok ==> r->Ok_0@.len() == rows@.len(),
        r is Ok ==> forall|i: int| 0 <= i < rows@.len()
            ==> page_matches_row(#[trigger] r->Ok_0@[i], rows@[i]@),
        r is Err ==> r->Err_0 is Db,
{
    let mut pages: Vec<Page> = Vec::new();
    let mut i: usize = 0;
    while i < rows.len()
        invariant
            i <= rows@.len(),
            pages@.len() == i,
            forall|j: int| 0 <= j < i ==> page_matches_row(#[trigger] pages@[j], rows@[j]@),
        decreases rows@.len() - i,
    {
        let mut page = row_to_page(&rows[i])?;
        page.labels = get_labels(conn, page.id.as_str())?;
        pages.push(page);
        i += 1;
    }
    Ok(pages)
}

// ---------------------------------------------------------------------------
// Spaces
// ---------------------------------------------------------------------------

/// Every row read as a space, in order; `Db` when one of them is not a space row.
pub fn spaces_from_rows(rows: &Vec<Vec<SqlValue>>) -> (r: Result<Vec<Space>, KbError>)
    ensures
        r is Ok <==> forall|i: int| 0 <= i < rows@.len() ==> space_row_ok(#[trigger] rows@[i]@),
        r is Ok ==> r->Ok_0@.len() == rows@.len() && forall|i: int| 0 <= i < rows@.len()
            ==> space_matches_row(#[trigger] r->Ok_0@[i], rows@[i]@),
        r is Err ==> r->Err_0 is Db,
{
    let mut spaces: Vec<Space> = Vec::new();
    let mut i: usize = 0;
    while i < rows.len()
        invariant
            i <= rows@.len(),
            spaces@.len() == i,
            forall|j: int| 0 <= j < i ==> space_row_ok(#[trigger] rows@[j]@),
            forall|j: int| 0 <= j < i ==> space_matches_row(#[trigger] spaces@[j], rows@[j]@),
        decreases rows@.len() - i,
    {
        spaces.push(row_to_space(&rows[i])?);
        i += 1;
    }
    Ok(spaces)
}

/// The first column of every row as a label, in order; `Db` when one is not text.
pub fn labels_from_rows(rows: &Vec<Vec<SqlValue>>) -> (r: Result<Vec<String>, KbError>)
    ensures
        r is Ok <==> forall|i: int| 0 <= i < rows@.len() ==> is_text_at(#[trigger] rows@[i]@, 0),
        r is Ok ==> r->Ok_0@.len() == rows@.len() && forall|i: int| 0 <= i < rows@.len()
            ==> (#[trigger] r->Ok_0@[i])@ == text_at(rows@[i]@, 0),
        r is Err ==> r->Err_0 is Db,
{
    let mut labels: Vec<String> = Vec::new();
    let mut i: usize = 0;
    while i < rows.len()
        invariant
            i <= rows@.len(),
            labels@.len() == i,
            forall|j: int| 0 <= j < i ==> is_text_at(#[trigger] rows@[j]@, 0),
            forall|j: int| 0 <= j < i ==> (#[trigger] labels@[j])@ == text_at(rows@[j]@, 0),
        decreases rows@.len() - i,
    {
        labels.push(get_text(&rows[i], 0, "label")?);
        i += 1;
    }
    Ok(labels)
}

/// Whether a count query found anything: no row counts as none; a first row
/// holding `n` gives `n > 0`; anything else is `Db`.
pub fn count_outcome(rows: &Vec<Vec<SqlValue>>) -> (r: Result<bool, KbError>)
    ensures
        rows@.len() == 0 ==> r == Ok::<bool, KbError>(false),
        rows@.len() > 0 ==> (r is Ok <==> (rows@[0]@.len() > 0 && rows@[0]@[0] is Int)),
        rows@.len() > 0 && rows@[0]@.len() > 0 ==> (rows@[0]@[0] matches SqlValue::Int(n)
            ==> r == Ok::<bool, KbError>(n > 0)),
        r is Err ==> r->Err_0 is Db,
{
    if rows.len() == 0 {
        return Ok(false);
    }
    let count = get_int(&rows[0], 0, "count")?;
    Ok(count > 0)
}

/// The space in the first row when it has this slug: no row, or a row of
/// another slug, is `NotFound`; a row that is not a space row is `Db`.
pub fn first_space(rows: &Vec<Vec<SqlValue>>, slug: &str) -> (r: Result<Space, KbError>)
    ensures
        rows@.len() == 0 ==> r matches Err(KbError::NotFound(_)),
        rows@.len() > 0 ==> (r is Ok <==> space_row_ok(rows@[0]@) && text_at(rows@[0]@, 1) == slug@),
        rows@.len() > 0 && !space_row_ok(rows@[0]@) ==> r matches Err(KbError::Db(_)),
        r is Ok ==> space_matches_row(r->Ok_0, rows@[0]@),
        r is Err ==> (r->Err_0 is NotFound || r->Err_0 is Db),
{
    if rows.len() == 0 {
        return Err(KbError::NotFound(message("Space with slug '", slug, "' not found")));
    }
    let space = row_to_space(&rows[0])?;
    if !str_eq(space.slug.as_str(), slug) {
        return Err(KbError::NotFound(message("Space with slug '", slug, "' not found")));
    }
    Ok(space)
}

/// The page in the first row when it has this id, labels left empty: no
/// row, or a row of another id, is `NotFound`; a row that is not a page row
/// is `Db`.
pub fn first_page(rows: &Vec<Vec<SqlValue>>, id: &str) -> (r: Result<Page, KbError>)
    ensures
        rows@.len() == 0 ==> r matches Err(KbError::NotFound(_)),
        rows@.len() > 0 ==> (r is Ok <==> page_row_ok(rows@[0]@) && text_at(rows@[0]@, 0) == id@),
        rows@.len() > 0 && !page_row_ok(rows@[0]@) ==> r matches Err(KbError::Db(_)),
        r is Ok ==> page_matches_row(r->Ok_0, rows@[0]@) && r->Ok_0.labels@.len() == 0,
        r is Err ==> (r->Err_0 is NotFound || r->Err_0 is Db),
{
    if rows.len() == 0 {
        return Err(page_not_found(id));
    }
    let page = row_to_page(&rows[0])?;
    if !str_eq(page.id.as_str(), id) {
        return Err(page_not_found(id));
    }
    Ok(page)
}

/// The pages of a space that have no parent, in the order given.
pub open spec fn top_level_of(ps: Seq<Page>, space_id: Seq<char>) -> Seq<Page>
    decreases ps.len(),
{
    if ps.len() == 0 {
        Seq::empty()
    } else {
        let prev = top_level_of(ps.drop_last(), space_id);
        if ps.last().space_id@ == space_id && ps.last().parent_id.is_none() {
            prev.push(ps.last())
        } else {
            prev
        }
    }
}

/// The pages whose parent is `parent_id`, in the order given.
pub open spec fn children_of(ps: Seq<Page>, parent_id: Seq<char>) -> Seq<Page>
    decreases ps.len(),
{
    if ps.len() == 0 {
        Seq::empty()
    } else {
        let prev = children_of(ps.drop_last(), parent_id);
        if ps.last().parent_id matches Some(p) && p@ == parent_id {
            prev.push(ps.last())
        } else {
            prev
        }
    }
}

/// The links where `page_id` is source or target, in the order given.
pub open spec fn touching(ls: Seq<Link>, page_id: Seq<char>) -> Seq<Link>
    decreases ls.len(),
{
    if ls.len() == 0 {
        Seq::empty()
    } else {
        let prev = touching(ls.drop_last(), page_id);
        if ls.last().source_id@ == page_id || ls.last().target_id@ == page_id {
            prev.push(ls.last())
        } else {
            prev
        }
    }
}

/// Keeps the pages of the space that have no parent.
pub fn keep_top_level(pages: Vec<Page>, space_id: &str) -> (r: Vec<Page>)
    ensures
        r@ == top_level_of(pages@, space_id@),
{
    let mut rest = pages;
    let ghost all = rest@;
    let ghost mut k: int = 0;
    let mut kept: Vec<Page> = Vec::new();
    while rest.len() > 0
        invariant
            0 <= k <= all.len(),
            rest@ == all.subrange(k, all.len() as int),
            kept@ == top_level_of(all.subrange(0, k), space_id@),
        decreases rest@.len(),
    {
        let page = rest.remove(0);
        proof {
            assert(all.subrange(0, k + 1).drop_last() =~= all.subrange(0, k));
            assert(page == all[k]);
            assert(rest@ =~= all.subrange(k + 1, all.len() as int));
        }
        if str_eq(page.space_id.as_str(), space_id) && page.parent_id.is_none() {
            kept.push(page);
        }
        proof {
            k = k + 1;
        }
    }
    assert(all.subrange(0, all.len() as int) =~= all);
    kept
}

/// Keeps the pages whose parent is `parent_id`.
pub fn keep_children(pages: Vec<Page>, parent_id: &str) -> (r: Vec<Page>)
    ensures
        r@ == children_of(pages@, parent_id@),
{
    let mut rest = pages;
    let ghost all = rest@;
    let ghost mut k: int = 0;
    let mut kept: Vec<Page> = Vec::new();
    while rest.len() > 0
        invariant
            0 <= k <= all.len(),
            rest@ == all.subrange(k, all.len() as int),
            kept@ == children_of(all.subrange(0, k), parent_id@),
        decreases rest@.len(),
    {
        let page = rest.remove(0);
        proof {
            assert(all.subrange(0, k + 1).drop_last() =~= all.subrange(0, k));
            assert(page == all[k]);
            assert(rest@ =~= all.subrange(k + 1, all.len() as int));
        }
        let is_child = match &page.parent_id {
            Some(p) => str_eq(p.as_str(), parent_id),
            None => false,
        };
        if is_child {
            kept.push(page);
        }
        proof {
            k = k + 1;
        }
    }
    assert(all.subrange(0, all.len() as int) =~= all);
    kept
}

/// Keeps the links where `page_id` is source or target.
pub fn keep_touching(links: Vec<Link>, page_id: &str) -> (r: Vec<Link>)
    ensures
        r@ == touching(links@, page_id@),
{
    let mut rest = links;
    let ghost all = rest@;
    let ghost mut k: int = 0;
    let mut kept: Vec<Link> = Vec::new();
    while rest.len() > 0
        invariant
            0 <= k <= all.len(),
            rest@ == all.subrange(k, all.len() as int),
            kept@ == touching(all.subrange(0, k), page_id@),
        decreases rest@.len(),
    {
        let link = rest.remove(0);
        proof {
            assert(all.subrange(0, k + 1).drop_last() =~= all.subrange(0, k));
            assert(link == all[k]);
            assert(rest@ =~= all.subrange(k + 1, all.len() as int));
        }
        if str_eq(link.source_id.as_str(), page_id) || str_eq(link.target_id.as_str(), page_id) {
            kept.push(link);
        }
        proof {
            k = k + 1;
        }
    }
    assert(all.subrange(0, all.len() as int) =~= all);
    kept
}


/// Creates a space under a fresh identifier, stamped with the current time.
/// A slug already taken is refused by the store (`Db`).
pub fn create_space(conn: &rusqlite::Connection, slug: &str, name: &str, description: &str) -> (r: Result<Space, KbError>)
    ensures
        r is Ok ==> r->Ok_0.slug@ == slug@ && r->Ok_0.name@ == name@
            && r->Ok_0.description@ == description@
            && r->Ok_0.created_at@ == r->Ok_0.updated_at@,
        r is Err ==> r->Err_0 is Db,
{
    let id = new_id();
    let created_at = now_timestamp();
    let args = vec![
        text(id.as_str()),
        text(slug),
        text(name),
        text(description),
        text(created_at.as_str()),
        text(created_at.as_str()),
    ];
    execute(
        conn,
        "INSERT INTO spaces (id, slug, name, description, created_at, updated_at) VALUES (?1, ?2, ?3, ?4, ?5, ?6)",
        &args,
    )?;
    Ok(Space {
        id,
        slug: String::from_str(slug),
        name: String::from_str(name),
        description: String::from_str(description),
        created_at: created_at.clone(),
        updated_at: created_at,
    })
}

/// The space with this slug; `NotFound` when there is none.
pub fn get_space_by_slug(conn: &rusqlite::Connection, slug: &str) -> (r: Result<Space, KbError>)
    ensures
        r is Ok ==> r->Ok_0.slug@ == slug@,
        r is Err ==> (r->Err_0 is NotFound || r->Err_0 is Db),
{
    let args = vec![text(slug)];
    let rows = query(
        conn,
        "SELECT id, slug, name, description, created_at, updated_at FROM spaces WHERE slug = ?1",
        &args,
    )?;
    first_space(&rows, slug)
}

/// The id of the space with this slug; `NotFound` when there is none.
pub fn resolve_space_id(conn: &rusqlite::Connection, slug: &str) -> (r: Result<String, KbError>)
    ensures
        r is Err ==> (r->Err_0 is NotFound || r->Err_0 is Db),
{
    let space = get_space_by_slug(conn, slug)?;
    Ok(space.id)
}

/// All spaces, newest first.
pub fn list_spaces(conn: &rusqlite::Connection) -> (r: Result<Vec<Space>, KbError>)
    ensures
        r is Err ==> r->Err_0 is Db,
{
    let args: Vec<SqlValue> = Vec::new();
    let rows = query(
        conn,
        "SELECT id, slug, name, description, created_at, updated_at FROM spaces ORDER BY created_at DESC",
        &args,
    )?;
    spaces_from_rows(&rows)
}

/// Deletes the space with this slug: `NotFound` when there is none. A space
/// that still owns pages is kept, and the store refuses the delete (`Db`).
pub fn delete_space(conn: &rusqlite::Connection, slug: &str) -> (r: Result<(), KbError>)
    ensures
        r is Err ==> (r->Err_0 is NotFound || r->Err_0 is Db),
{
    let space = get_space_by_slug(conn, slug)?;
    let args = vec![text(space.id.as_str())];
    execute(conn, "DELETE FROM spaces WHERE id = ?1", &args)?;
    Ok(())
}

// ---------------------------------------------------------------------------
// Pages
// ---------------------------------------------------------------------------

/// The content stored for a new page: derived from the sections when they
/// are given and the content is empty, the content as given otherwise.
pub open spec fn effective_content(content: Seq<char>, sections: Option<Sections>, t: PageType) -> Seq<char> {
    match sections {
        Some(s) => if content.len() == 0 {
            flatten_sections(sections_entries(s), t)
        } else {
            content
        },
        None => content,
    }
}

fn derive_content(content: &str, sections: Option<&Sections>, page_type: PageType) -> (r: String)
    ensures
        r@ == effective_content(content@, match sections {
            Some(s) => Some(*s),
            None => None,
        }, page_type),
{
    match sections {
        Some(secs) => if content.is_empty() {
            sections_to_content(secs, page_type)
        } else {
            String::from_str(content)
        },
        None => String::from_str(content),
    }
}

/// Creates a page at version 1 with its labels. The page row and every label
/// row are written in one transaction: when any insert fails (a label given
/// twice, an unknown space) the transaction is rolled back and no part of the
/// page remains.
/// Sections that do not fit the type's schema are no reason to refuse the
/// page; [`crate::models::section_warnings`] lists what to warn about.
pub fn create_page(
    conn: &rusqlite::Connection,
    space_id: &str,
    parent_id: Option<&str>,
    title: &str,
    page_type: PageType,
    content: &str,
    sections: Option<&Sections>,
    labels: &[String],
    user: &str,
    agent: &str,
) -> (r: Result<Page, KbError>)
    ensures
        r is Ok ==> ({
            let p = r->Ok_0;
            &&& p.version == 1
            &&& p.space_id@ == space_id@
            &&& p.parent_id.is_some() == parent_id.is_some()
            &&& (parent_id.is_some() ==> p.parent_id->0@ == parent_id->0@)
            &&& p.title@ == title@
            &&& p.page_type == page_type
            &&& p.content@ == effective_content(content@, match sections {
                Some(s) => Some(*s),
                None => None,
            }, page_type)
            &&& p.labels@ == labels@
            &&& p.sections.is_some() == sections.is_some()
            &&& (sections.is_some() ==> sections_entries(p.sections->0) == sections_entries(*sections->0)
                && p.sections->0.json@ == sections->0.json@)
            &&& p.created_by_user@ == user@
            &&& p.created_by_agent@ == agent@
            &&& p.created_at@ == p.updated_at@
        }),
        r is Err ==> r->Err_0 is Db,
{
    let id = new_id();
    let now = now_timestamp();
    let effective = derive_content(content, sections, page_type);
    let sections_json: Option<String> = match sections {
        Some(s) => Some(s.json.clone()),
        None => None,
    };
    let args = vec![
        text(id.as_str()),
        text(space_id),
        opt_text(parent_id),
        text(title),
        text(page_type.as_str()),
        text(effective.as_str()),
        opt_string(&sections_json),
        text(user),
        text(agent),
        text(now.as_str()),
        text(now.as_str()),
    ];
    begin(conn)?;
    match execute(
        conn,
        "INSERT INTO pages (id, space_id, parent_id, title, page_type, content, sections, created_by_user, created_by_agent, created_at, updated_at, version) VALUES (?1, ?2, ?3, ?4, ?5, ?6, ?7, ?8, ?9, ?10, ?11, 1)",
        &args,
    ) {
        Ok(_) => {},
        Err(e) => {
            rollback(conn);
            return Err(e);
        },
    }
    let mut i: usize = 0;
    while i < labels.len()
        invariant
            i <= labels@.len(),
        decreases labels@.len() - i,
    {
        let label_args = vec![text(id.as_str()), text(labels[i].as_str())];
        match execute(conn, "INSERT INTO labels (page_id, label) VALUES (?1, ?2)", &label_args) {
            Ok(_) => {},
            Err(e) => {
                rollback(conn);
                return Err(e);
            },
        }
        i += 1;
    }
    match commit(conn) {
        Ok(()) => {},
        Err(e) => {
            rollback(conn);
            return Err(e);
        },
    }
    Ok(Page {
        id,
        space_id: String::from_str(space_id),
        parent_id: to_owned_opt(parent_id),
        title: String::from_str(title),
        page_type,
        content: effective,
        sections: match sections {
            Some(s) => Some(s.duplicate()),
            None => None,
        },
        created_by_user: String::from_str(user),
        created_by_agent: String::from_str(agent),
        created_at: now.clone(),
        updated_at: now,
        version: 1,
        labels: copy_strings(labels),
    })
}

/// The page with this id, with its labels; `NotFound` when there is none.
pub fn get_page(conn: &rusqlite::Connection, id: &str) -> (r: Result<Page, KbError>)
    ensures
        r is Ok ==> r->Ok_0.id@ == id@,
        r is Err ==> (r->Err_0 is NotFound || r->Err_0 is Db),
{
    let args = vec![text(id)];
    let rows = query(
        conn,
        "SELECT id, space_id, parent_id, title, page_type, content, created_by_user, created_by_agent, created_at, updated_at, version, sections FROM pages WHERE id = ?1",
        &args,
    )?;
    let mut page = first_page(&rows, id)?;
    page.labels = get_labels(conn, id)?;
    Ok(page)
}

/// Fails with `NotFound` unless a page with this id exists.
fn require_page(conn: &rusqlite::Connection, id: &str) -> (r: Result<(), KbError>)
    ensures
        r is Err ==> (r->Err_0 is NotFound || r->Err_0 is Db),
{
    let args = vec![text(id)];
    let rows = query(conn, "SELECT id FROM pages WHERE id = ?1", &args)?;
    page_write_outcome(rows.len(), id)
}

/// The outcome of a statement addressed to one page by id: done when it
/// matched a row, `NotFound` when it matched none.
pub fn page_write_outcome(rows_changed: usize, id: &str) -> (r: Result<(), KbError>)
    ensures
        r is Ok <==> rows_changed > 0,
        r is Err ==> r->Err_0 is NotFound,
{
    if rows_changed == 0 {
        Err(page_not_found(id))
    } else {
        Ok(())
    }
}

/// The error to report when a conditional write changed no row, from what a
/// fresh read of the page found: a page that exists under another version is
/// a `VersionConflict` carrying the version read now; a page that is gone is
/// `NotFound`; a failed read is reported as it is.
pub fn zero_rows_outcome(lookup: Result<Page, KbError>, id: &str, expected_version: Option<i64>) -> (e: KbError)
    ensures
        lookup is Ok && expected_version.is_some() ==> e == (KbError::VersionConflict {
            expected: expected_version->0,
            actual: lookup->Ok_0.version,
        }),
        lookup is Ok && expected_version.is_none() ==> e is NotFound,
        lookup matches Err(KbError::NotFound(_)) ==> e is NotFound,
        lookup is Err && !(lookup->Err_0 is NotFound) ==> e == lookup->Err_0,
{
    match lookup {
        Ok(page) => match expected_version {
            Some(expected) => KbError::VersionConflict { expected, actual: page.version },
            None => page_not_found(id),
        },
        Err(KbError::NotFound(_)) => page_not_found(id),
        Err(e) => e,
    }
}

/// Updates a page's title, content or sections in one conditional write that
/// also increments its version. With `expected_version`, the write applies
/// only to that version; otherwise the last writer wins. Sections, when
/// given, replace the content with their flattening for the page's type.
/// When no row was written, a fresh read decides the error (see
/// [`zero_rows_outcome`]); on success the page is read back.
pub fn update_page(
    conn: &rusqlite::Connection,
    id: &str,
    title: Option<&str>,
    content: Option<&str>,
    sections: Option<&Sections>,
    expected_version: Option<i64>,
) -> (r: Result<Page, KbError>)
    ensures
        r is Ok ==> r->Ok_0.id@ == id@,
        r matches Err(KbError::VersionConflict { expected, actual }) ==> expected_version == Some(expected),
{
    let now = now_timestamp();
    let (new_content, sections_json): (Option<String>, Option<String>) = match sections {
        Some(secs) => {
            let existing = get_page(conn, id)?;
            (Some(sections_to_content(secs, existing.page_type)), Some(secs.json.clone()))
        },
        None => (to_owned_opt(content), None),
    };
    let rows = match expected_version {
        Some(expected) => {
            let args = vec![
                opt_text(title),
                opt_string(&new_content),
                opt_string(&sections_json),
                text(now.as_str()),
                text(id),
                SqlValue::Int(expected),
            ];
            execute(
                conn,
                "UPDATE pages SET title = COALESCE(?1, title), content = COALESCE(?2, content), sections = COALESCE(?3, sections), updated_at = ?4, version = version + 1 WHERE id = ?5 AND version = ?6",
                &args,
            )?
        },
        None => {
            let args = vec![
                opt_text(title),
                opt_string(&new_content),
                opt_string(&sections_json),
                text(now.as_str()),
                text(id),
            ];
            execute(
                conn,
                "UPDATE pages SET title = COALESCE(?1, title), content = COALESCE(?2, content), sections = COALESCE(?3, sections), updated_at = ?4, version = version + 1 WHERE id = ?5",
                &args,
            )?
        },
    };
    if rows == 0 {
        let lookup = get_page(conn, id);
        return Err(zero_rows_outcome(lookup, id, expected_version));
    }
    get_page(conn, id)
}

/// Appends text to a page's content in one statement that also increments
/// its version: joined to non-empty content by a newline, and taking the
/// place of empty content. `NotFound` when the page does not exist.
pub fn append_to_page(conn: &rusqlite::Connection, id: &str, content_to_append: &str) -> (r: Result<Page, KbError>)
    ensures
        r is Ok ==> r->Ok_0.id@ == id@,
        r is Err ==> (r->Err_0 is NotFound || r->Err_0 is Db),
{
    let now = now_timestamp();
    let args = vec![text(content_to_append), text(now.as_str()), text(id)];
    let rows = execute(
        conn,
        "UPDATE pages SET content = CASE WHEN content = '' THEN ?1 ELSE content || char(10) || ?1 END, updated_at = ?2, version = version + 1 WHERE id = ?3",
        &args,
    )?;
    page_write_outcome(rows, id)?;
    get_page(conn, id)
}

/// The filters of a page listing that are set, in a fixed order, each with
/// its condition and the text bound to it.
pub open spec fn page_filter_terms(f: PageFilters) -> Seq<FilterTerm> {
    opt_term(f.space_id, "p.space_id = ?"@) + match f.page_type {
        Some(t) => seq![("p.page_type = ?"@, page_type_name(t))],
        None => Seq::<FilterTerm>::empty(),
    } + opt_term(f.label, "l.label = ?"@) + opt_term(f.created_by_user, "p.created_by_user = ?"@)
        + opt_term(f.created_by_agent, "p.created_by_agent = ?"@)
}

/// The statement of a page listing: labels joined exactly when a label
/// filter is set, one condition per set filter, newest first.
pub open spec fn page_list_sql(f: PageFilters) -> Seq<char> {
    "SELECT DISTINCT p.id, p.space_id, p.parent_id, p.title, p.page_type, p.content, p.created_by_user, p.created_by_agent, p.created_at, p.updated_at, p.version, p.sections FROM pages p"@
        + (if f.label.is_some() {
        " INNER JOIN labels l ON p.id = l.page_id"@
    } else {
        Seq::empty()
    }) + where_clause(term_conditions(page_filter_terms(f))) + " ORDER BY p.created_at DESC"@
}

fn push_opt(terms: &mut QueryTerms, condition: &str, value: &Option<String>, Ghost(ts): Ghost<Seq<FilterTerm>>)
    requires
        old(terms).holds(ts),
    ensures
        final(terms).holds(ts + opt_term(*value, condition@)),
{
    match value {
        Some(v) => {
            terms.push(condition, v.as_str(), Ghost(ts));
            assert(ts.push((condition@, v@)) =~= ts + opt_term(*value, condition@));
        },
        None => {
            assert(ts =~= ts + opt_term(*value, condition@));
        },
    }
}

/// The statement and arguments that list the pages matching `filters`.
pub fn page_list_query(filters: &PageFilters) -> (r: (String, Vec<SqlValue>))
    ensures
        r.0@ == page_list_sql(*filters),
        args_are_texts(r.1@, term_texts(page_filter_terms(*filters))),
{
    let mut terms = QueryTerms::new();
    let ghost t0 = Seq::<FilterTerm>::empty();
    push_opt(&mut terms, "p.space_id = ?", &filters.space_id, Ghost(t0));
    let ghost t1 = t0 + opt_term(filters.space_id, "p.space_id = ?"@);
    let ghost type_term = match filters.page_type {
        Some(t) => seq![("p.page_type = ?"@, page_type_name(t))],
        None => Seq::<FilterTerm>::empty(),
    };
    match &filters.page_type {
        Some(t) => {
            terms.push("p.page_type = ?", t.as_str(), Ghost(t1));
            assert(t1.push(("p.page_type = ?"@, page_type_name(*t))) =~= t1 + type_term);
        },
        None => {
            assert(t1 =~= t1 + type_term);
        },
    }
    let ghost t2 = t1 + type_term;
    push_opt(&mut terms, "l.label = ?", &filters.label, Ghost(t2));
    let ghost t3 = t2 + opt_term(filters.label, "l.label = ?"@);
    push_opt(&mut terms, "p.created_by_user = ?", &filters.created_by_user, Ghost(t3));
    let ghost t4 = t3 + opt_term(filters.created_by_user, "p.created_by_user = ?"@);
    push_opt(&mut terms, "p.created_by_agent = ?", &filters.created_by_agent, Ghost(t4));
    let ghost t5 = t4 + opt_term(filters.created_by_agent, "p.created_by_agent = ?"@);
    assert(t5 =~= page_filter_terms(*filters));
    let mut sql = String::from_str(
        "SELECT DISTINCT p.id, p.space_id, p.parent_id, p.title, p.page_type, p.content, p.created_by_user, p.created_by_agent, p.created_at, p.updated_at, p.version, p.sections FROM pages p",
    );
    if filters.label.is_some() {
        sql.append(" INNER JOIN labels l ON p.id = l.page_id");
    }
    let w = terms.where_text();
    sql.append(w.as_str());
    sql.append(" ORDER BY p.created_at DESC");
    (sql, terms.args)
}

/// Pages matching every filter that is set, newest first, with their labels.
/// The statement sent is the one [`page_list_query`] builds.
pub fn list_pages(conn: &rusqlite::Connection, filters: &PageFilters) -> (r: Result<Vec<Page>, KbError>)
    ensures
        r is Err ==> r->Err_0 is Db,
{
    let (sql, args) = page_list_query(filters);
    let rows = query(conn, sql.as_str(), &args)?;
    pages_with_labels(conn, &rows)
}

/// Deletes a page; its labels and every link where it is source or target go
/// with it. `NotFound` when the page does not exist.
pub fn delete_page(conn: &rusqlite::Connection, id: &str) -> (r: Result<(), KbError>)
    ensures
        r is Err ==> (r->Err_0 is NotFound || r->Err_0 is Db),
{
    let args = vec![text(id)];
    let rows = execute(conn, "DELETE FROM pages WHERE id = ?1", &args)?;
    page_write_outcome(rows, id)
}

// ---------------------------------------------------------------------------
// Labels
// ---------------------------------------------------------------------------

/// Replaces a page's labels in one transaction. A page that does not exist
/// is `NotFound`. A label given twice makes the store refuse an insert; the
/// transaction is then rolled back and the previous labels stay as they were.
pub fn set_labels(conn: &rusqlite::Connection, page_id: &str, labels: &[String]) -> (r: Result<(), KbError>)
    ensures
        r is Err ==> (r->Err_0 is NotFound || r->Err_0 is Db),
{
    begin(conn)?;
    match require_page(conn, page_id) {
        Ok(()) => {},
        Err(e) => {
            rollback(conn);
            return Err(e);
        },
    }
    let args = vec![text(page_id)];
    match execute(conn, "DELETE FROM labels WHERE page_id = ?1", &args) {
        Ok(_) => {},
        Err(e) => {
            rollback(conn);
            return Err(e);
        },
    }
    let mut i: usize = 0;
    while i < labels.len()
        invariant
            i <= labels@.len(),
        decreases labels@.len() - i,
    {
        let label_args = vec![text(page_id), text(labels[i].as_str())];
        match execute(conn, "INSERT INTO labels (page_id, label) VALUES (?1, ?2)", &label_args) {
            Ok(_) => {},
            Err(e) => {
                rollback(conn);
                return Err(e);
            },
        }
        i += 1;
    }
    match commit(conn) {
        Ok(()) => Ok(()),
        Err(e) => {
            rollback(conn);
            Err(e)
        },
    }
}

/// Adds one label; a label already present is left as it is, without error.
/// A page that does not exist is `NotFound`.
pub fn add_label(conn: &rusqlite::Connection, page_id: &str, label: &str) -> (r: Result<(), KbError>)
    ensures
        r is Err ==> (r->Err_0 is NotFound || r->Err_0 is Db),
{
    require_page(conn, page_id)?;
    let args = vec![text(page_id), text(label)];
    execute(conn, "INSERT OR IGNORE INTO labels (page_id, label) VALUES (?1, ?2)", &args)?;
    Ok(())
}

/// A page's labels in ascending order.
pub fn get_labels(conn: &rusqlite::Connection, page_id: &str) -> (r: Result<Vec<String>, KbError>)
    ensures
        r is Err ==> r->Err_0 is Db,
{
    let args = vec![text(page_id)];
    let rows = query(conn, "SELECT label FROM labels WHERE page_id = ?1 ORDER BY label", &args)?;
    labels_from_rows(&rows)
}

// ---------------------------------------------------------------------------
// Links
// ---------------------------------------------------------------------------

/// Links a source page to a target page. A missing source or target page is
/// `NotFound`; a second link between the same ordered pair is refused by the
/// store (`Db`).
pub fn create_link(conn: &rusqlite::Connection, source_id: &str, target_id: &str, relation: LinkRelation) -> (r: Result<Link, KbError>)
    ensures
        r is Ok ==> r->Ok_0.source_id@ == source_id@ && r->Ok_0.target_id@ == target_id@
            && r->Ok_0.relation == relation,
        r is Err ==> (r->Err_0 is NotFound || r->Err_0 is Db),
{
    require_page(conn, source_id)?;
    require_page(conn, target_id)?;
    let now = now_timestamp();
    let args = vec![
        text(source_id),
        text(target_id),
        text(relation.as_str()),
        text(now.as_str()),
        text(now.as_str()),
    ];
    execute(
        conn,
        "INSERT INTO links (source_id, target_id, relation, created_at, updated_at) VALUES (?1, ?2, ?3, ?4, ?5)",
        &args,
    )?;
    Ok(Link {
        source_id: String::from_str(source_id),
        target_id: String::from_str(target_id),
        relation,
        created_at: now.clone(),
        updated_at: now,
    })
}

/// The columns of a link row: source_id, target_id, relation, created_at, updated_at.
pub open spec fn link_row_ok(row: Seq<SqlValue>) -> bool {
    &&& is_text_at(row, 0)
    &&& is_text_at(row, 1)
    &&& is_text_at(row, 2)
    &&& relation_named(text_at(row, 2)).is_some()
    &&& is_text_at(row, 3)
    &&& is_text_at(row, 4)
}

/// Reads a link from the columns of a link row.
pub fn row_to_link(row: &Vec<SqlValue>) -> (r: Result<Link, KbError>)
    ensures
        r is Ok <==> link_row_ok(row@),
        r is Ok ==> r->Ok_0.source_id@ == text_at(row@, 0) && r->Ok_0.target_id@ == text_at(row@, 1)
            && Some(r->Ok_0.relation) == relation_named(text_at(row@, 2))
            && r->Ok_0.created_at@ == text_at(row@, 3) && r->Ok_0.updated_at@ == text_at(row@, 4),
        r is Err ==> r->Err_0 is Db,
{
    let source_id = get_text(row, 0, "source_id")?;
    let target_id = get_text(row, 1, "target_id")?;
    let relation_name = get_text(row, 2, "relation")?;
    let relation = match LinkRelation::from_str(relation_name.as_str()) {
        Some(r) => r,
        None => {
            return Err(KbError::Db(crate::sql::column_error(2, "relation")));
        },
    };
    let created_at = get_text(row, 3, "created_at")?;
    let updated_at = get_text(row, 4, "updated_at")?;
    Ok(Link { source_id, target_id, relation, created_at, updated_at })
}

pub open spec fn link_matches_row(l: Link, row: Seq<SqlValue>) -> bool {
    &&& l.source_id@ == text_at(row, 0)
    &&& l.target_id@ == text_at(row, 1)
    &&& Some(l.relation) == relation_named(text_at(row, 2))
    &&& l.created_at@ == text_at(row, 3)
    &&& l.updated_at@ == text_at(row, 4)
}

/// Every row read as a link, in order; `Db` when one of them is not a link row.
pub fn links_from_rows(rows: &Vec<Vec<SqlValue>>) -> (r: Result<Vec<Link>, KbError>)
    ensures
        r is Ok <==> forall|i: int| 0 <= i < rows@.len() ==> link_row_ok(#[trigger] rows@[i]@),
        r is Ok ==> r->Ok_0@.len() == rows@.len() && forall|i: int| 0 <= i < rows@.len()
            ==> link_matches_row(#[trigger] r->Ok_0@[i], rows@[i]@),
        r is Err ==> r->Err_0 is Db,
{
    let mut links: Vec<Link> = Vec::new();
    let mut i: usize = 0;
    while i < rows.len()
        invariant
            i <= rows@.len(),
            links@.len() == i,
            forall|j: int| 0 <= j < i ==> link_row_ok(#[trigger] rows@[j]@),
            forall|j: int| 0 <= j < i ==> link_matches_row(#[trigger] links@[j], rows@[j]@),
        decreases rows@.len() - i,
    {
        links.push(row_to_link(&rows[i])?);
        i += 1;
    }
    Ok(links)
}

proof fn lemma_touching_all_touch(ls: Seq<Link>, page_id: Seq<char>)
    ensures
        forall|i: int| 0 <= i < touching(ls, page_id).len() ==> (#[trigger] touching(ls, page_id)[i]).source_id@
            == page_id || touching(ls, page_id)[i].target_id@ == page_id,
    decreases ls.len(),
{
    if ls.len() > 0 {
        lemma_touching_all_touch(ls.drop_last(), page_id);
    }
}

proof fn lemma_top_level_all(ps: Seq<Page>, space_id: Seq<char>)
    ensures
        forall|i: int| 0 <= i < top_level_of(ps, space_id).len() ==> (#[trigger] top_level_of(ps, space_id)[i]).space_id@
            == space_id && top_level_of(ps, space_id)[i].parent_id.is_none(),
    decreases ps.len(),
{
    if ps.len() > 0 {
        lemma_top_level_all(ps.drop_last(), space_id);
    }
}

proof fn lemma_children_all(ps: Seq<Page>, parent_id: Seq<char>)
    ensures
        forall|i: int| 0 <= i < children_of(ps, parent_id).len() ==> ((#[trigger] children_of(ps, parent_id)[i]).parent_id
            matches Some(p) && p@ == parent_id),
    decreases ps.len(),
{
    if ps.len() > 0 {
        lemma_children_all(ps.drop_last(), parent_id);
    }
}

/// The links where the page is source or target.
pub fn list_links(conn: &rusqlite::Connection, page_id: &str) -> (r: Result<Vec<Link>, KbError>)
    ensures
        r is Ok ==> forall|i: int| 0 <= i < r->Ok_0@.len()
            ==> (#[trigger] r->Ok_0@[i]).source_id@ == page_id@ || r->Ok_0@[i].target_id@ == page_id@,
        r is Err ==> r->Err_0 is Db,
{
    let args = vec![text(page_id)];
    let rows = query(
        conn,
        "SELECT source_id, target_id, relation, created_at, updated_at FROM links WHERE source_id = ?1 OR target_id = ?1",
        &args,
    )?;
    let links = links_from_rows(&rows)?;
    let ghost all = links@;
    let kept = keep_touching(links, page_id);
    proof {
        lemma_touching_all_touch(all, page_id@);
    }
    Ok(kept)
}

/// Deletes the link from source to target; `NotFound` when there is none.
pub fn delete_link(conn: &rusqlite::Connection, source_id: &str, target_id: &str) -> (r: Result<(), KbError>)
    ensures
        r is Err ==> (r->Err_0 is NotFound || r->Err_0 is Db),
{
    let args = vec![text(source_id), text(target_id)];
    let rows = execute(conn, "DELETE FROM links WHERE source_id = ?1 AND target_id = ?2", &args)?;
    if rows == 0 {
        let mut msg = message("Link from '", source_id, "' to '");
        msg.append(target_id);
        msg.append("' not found");
        return Err(KbError::NotFound(msg));
    }
    Ok(())
}

// ---------------------------------------------------------------------------
// Hierarchy
// ---------------------------------------------------------------------------

/// The pages of a space that have no parent, by title, ignoring case.
pub fn list_top_level_pages(conn: &rusqlite::Connection, space_id: &str) -> (r: Result<Vec<Page>, KbError>)
    ensures
        r is Ok ==> forall|i: int| 0 <= i < r->Ok_0@.len()
            ==> (#[trigger] r->Ok_0@[i]).space_id@ == space_id@ && r->Ok_0@[i].parent_id.is_none(),
        r is Err ==> r->Err_0 is Db,
{
    let args = vec![text(space_id)];
    let rows = query(
        conn,
        "SELECT id, space_id, parent_id, title, page_type, content, created_by_user, created_by_agent, created_at, updated_at, version, sections FROM pages WHERE space_id = ?1 AND parent_id IS NULL ORDER BY title COLLATE NOCASE",
        &args,
    )?;
    let pages = pages_with_labels(conn, &rows)?;
    let ghost all = pages@;
    let kept = keep_top_level(pages, space_id);
    proof {
        lemma_top_level_all(all, space_id@);
    }
    Ok(kept)
}

/// The children of a page, by title, ignoring case.
pub fn list_child_pages(conn: &rusqlite::Connection, parent_id: &str) -> (r: Result<Vec<Page>, KbError>)
    ensures
        r is Ok ==> forall|i: int| 0 <= i < r->Ok_0@.len()
            ==> ((#[trigger] r->Ok_0@[i]).parent_id matches Some(p) && p@ == parent_id@),
        r is Err ==> r->Err_0 is Db,
{
    let args = vec![text(parent_id)];
    let rows = query(
        conn,
        "SELECT id, space_id, parent_id, title, page_type, content, created_by_user, created_by_agent, created_at, updated_at, version, sections FROM pages WHERE parent_id = ?1 ORDER BY title COLLATE NOCASE",
        &args,
    )?;
    let pages = pages_with_labels(conn, &rows)?;
    let ghost all = pages@;
    let kept = keep_children(pages, parent_id);
    proof {
        lemma_children_all(all, parent_id@);
    }
    Ok(kept)
}

/// Whether any page has this one as its parent.
pub fn has_children(conn: &rusqlite::Connection, page_id: &str) -> (r: Result<bool, KbError>)
    ensures
        r is Err ==> r->Err_0 is Db,
{
    let args = vec![text(page_id)];
    let rows = query(conn, "SELECT COUNT(*) FROM pages WHERE parent_id = ?1 LIMIT 1", &args)?;
    count_outcome(&rows)
}

} // verus!
