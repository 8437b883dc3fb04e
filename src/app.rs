//! The navigation state machine of the terminal browser: which view is
//! shown, the list cursor, the focused pane, the input mode, and the lines
//! of the content pane derived from the selected item.

use vstd::prelude::*;
use vstd::string::*;
use crate::error::KbError;
use crate::models::{
    entries_view, lookup, page_type_name, relation_name, schema_of, schema_view, in_schema,
    key_in_schema, lookup_entry, EntryView, Link, Page, SearchResult, SectionDef, SectionEntry, SectionSpec,
    Space,
};
use crate::repo::{get_page, has_children, list_child_pages, list_links, list_spaces, list_top_level_pages};
use crate::search::{search_pages, SearchParams};
use crate::text::{decimal, decimal_of, join, join_strings, lines_of, split_lines, str_eq, views};

verus! {

/// Which pane receives input.
#[derive(Debug, Clone, Copy, PartialEq, Eq, Structural)]
pub enum Focus {
    List,
    Content,
}

/// Whether keystrokes are commands or search text.
#[derive(Debug, Clone, Copy, PartialEq, Eq, Structural)]
pub enum Mode {
    Normal,
    Search,
}

/// What the list pane shows.
#[derive(Debug)]
pub enum NavState {
    SpaceList,
    PageList { space: Space },
    ChildPageList { space: Space, parent: Box<Page> },
    /// Search results, with the view that was active when the search was
    /// entered, to which going back returns.
    SearchResults { query: String, previous: Box<NavState> },
}

/// One entry of the list pane.
#[derive(Debug)]
pub enum ListItem {
    Space(Space),
    Page { page: Page, expandable: bool },
    SearchResult(SearchResult),
}

pub open spec fn display_text_of(item: ListItem) -> Seq<char> {
    match item {
        ListItem::Space(s) => s.name@ + " ("@ + s.slug@ + ")"@,
        ListItem::Page { page, expandable } => (if expandable {
            "[+] "@
        } else {
            "    "@
        }) + page.title@,
        ListItem::SearchResult(r) => r.page.title@ + " ["@ + page_type_name(r.page.page_type) + "]"@,
    }
}

impl ListItem {
    /// The text of this entry in the list pane.
    pub fn display_text(&self) -> (r: String)
        ensures
            r@ == display_text_of(*self),
    {
        match self {
            ListItem::Space(s) => {
                let mut t = String::from_str(s.name.as_str());
                t.append(" (");
                t.append(s.slug.as_str());
                t.append(")");
                t
            },
            ListItem::Page { page, expandable } => {
                let mut t = if *expandable {
                    String::from_str("[+] ")
                } else {
                    String::from_str("    ")
                };
                t.append(page.title.as_str());
                t
            },
            ListItem::SearchResult(r) => {
                let mut t = String::from_str(r.page.title.as_str());
                t.append(" [");
                t.append(r.page.page_type.as_str());
                t.append("]");
                t
            },
        }
    }
}

/// What an edit session starts from: the page, the version it was read at,
/// and the text written to the scratch file.
#[derive(Debug)]
pub struct EditSnapshot {
    pub page_id: String,
    pub version: i64,
    pub text: String,
}

/// The state of the browser.
pub struct App {
    pub running: bool,
    pub focus: Focus,
    pub mode: Mode,
    pub nav_state: NavState,
    pub items: Vec<ListItem>,
    pub cursor: usize,
    pub content_scroll: u16,
    pub search_input: String,
    /// Lines of the content pane.
    pub content_lines: Vec<String>,
    /// Links of the page shown in the content pane.
    pub links: Vec<Link>,
    /// The first key of the jump-to-top chord was pressed.
    pub pending_g: bool,
    /// A content edit waits for the editor.
    pub pending_edit: Option<EditSnapshot>,
    /// A label edit waits for the editor.
    pub pending_label_edit: Option<EditSnapshot>,
}

/// The cursor after the list changed to `n` items: kept where it is valid,
/// else on the last item, and 0 for an empty list.
pub open spec fn clamp_cursor(c: int, n: int) -> int {
    if n <= 0 {
        0
    } else if c >= n {
        n - 1
    } else {
        c
    }
}

// ---------------------------------------------------------------------------
// Content pane
// ---------------------------------------------------------------------------

pub open spec fn space_lines(s: Space) -> Seq<Seq<char>> {
    seq![
        "Space:   "@ + s.name@,
        "Slug:    "@ + s.slug@,
        "ID:      "@ + s.id@,
        "Created: "@ + s.created_at@,
        "Updated: "@ + s.updated_at@,
    ] + if s.description@.len() > 0 {
        seq![Seq::empty(), s.description@]
    } else {
        Seq::empty()
    }
}

pub open spec fn page_header_lines(p: Page) -> Seq<Seq<char>> {
    seq!["Title:   "@ + p.title@, "Type:    "@ + page_type_name(p.page_type), "ID:      "@ + p.id@]
        + (if p.labels@.len() > 0 {
        seq!["Labels:  "@ + join(views(p.labels@), ", "@)]
    } else {
        Seq::empty()
    }) + seq![
        "Author:  "@ + p.created_by_user@ + " / "@ + p.created_by_agent@,
        "Created: "@ + p.created_at@,
        "Updated: "@ + p.updated_at@,
        "Version: "@ + decimal_of(p.version as int),
        Seq::empty(),
    ]
}

/// A section shown under a heading, one line per line of its text.
pub open spec fn block(name: Seq<char>, text: Seq<char>) -> Seq<Seq<char>> {
    seq!["--- "@ + name + " ---"@] + lines_of(text)
}

/// Blocks separated by one empty line.
pub open spec fn join_blocks(bs: Seq<Seq<Seq<char>>>) -> Seq<Seq<char>>
    decreases bs.len(),
{
    if bs.len() == 0 {
        Seq::empty()
    } else if bs.len() == 1 {
        bs[0]
    } else {
        join_blocks(bs.drop_last()) + seq![Seq::<char>::empty()] + bs.last()
    }
}

/// Blocks of the schema's sections present as text, under their display names.
pub open spec fn schema_blocks(schema: Seq<SectionSpec>, es: Seq<EntryView>) -> Seq<Seq<Seq<char>>>
    decreases schema.len(),
{
    if schema.len() == 0 {
        Seq::empty()
    } else {
        let prev = schema_blocks(schema.drop_last(), es);
        match lookup(es, schema.last().0) {
            Some(Some(t)) => prev.push(block(schema.last().1, t)),
            _ => prev,
        }
    }
}

/// Blocks of the text entries the schema lacks, under their keys.
pub open spec fn other_blocks(schema: Seq<SectionSpec>, es: Seq<EntryView>) -> Seq<Seq<Seq<char>>>
    decreases es.len(),
{
    if es.len() == 0 {
        Seq::empty()
    } else {
        let prev = other_blocks(schema, es.drop_last());
        let e = es.last();
        if !in_schema(schema, e.0) && e.1.is_some() {
            prev.push(block(e.0, e.1->0))
        } else {
            prev
        }
    }
}

/// The body of a page: its sections under their headings when it has a
/// sections object, its content line by line otherwise.
pub open spec fn page_body_lines(p: Page) -> Seq<Seq<char>> {
    match p.sections {
        Some(s) => match s.entries {
            Some(v) => {
                let es = entries_view(v@);
                match schema_of(p.page_type) {
                    Some(schema) => join_blocks(schema_blocks(schema, es) + other_blocks(schema, es)),
                    None => join_blocks(other_blocks(Seq::empty(), es)),
                }
            },
            None => lines_of(p.content@),
        },
        None => lines_of(p.content@),
    }
}

pub open spec fn link_line(page_id: Seq<char>, l: Link) -> Seq<char> {
    if l.source_id@ == page_id {
        "  "@ + relation_name(l.relation) + " -> "@ + l.target_id@
    } else {
        "  "@ + relation_name(l.relation) + " <- "@ + l.source_id@
    }
}

pub open spec fn link_lines(page_id: Seq<char>, links: Seq<Link>) -> Seq<Seq<char>> {
    if links.len() == 0 {
        Seq::empty()
    } else {
        seq![Seq::empty(), "--- Links ---"@] + links.map_values(|l: Link| link_line(page_id, l))
    }
}

/// The content pane for a page whose links are `links`.
pub open spec fn page_lines(p: Page, links: Seq<Link>) -> Seq<Seq<char>> {
    page_header_lines(p) + page_body_lines(p) + link_lines(p.id@, links)
}

pub open spec fn excerpt_lines(excerpt: Seq<char>) -> Seq<Seq<char>> {
    if excerpt.len() > 0 {
        seq![Seq::empty(), "--- Match ---"@, excerpt]
    } else {
        Seq::empty()
    }
}

fn labeled(prefix: &str, value: &str) -> (r: String)
    ensures
        r@ == prefix@ + value@,
{
    let mut s = String::from_str(prefix);
    s.append(value);
    s
}

fn push_lines(dst: &mut Vec<String>, src: Vec<String>)
    ensures
        views(final(dst)@) == views(old(dst)@) + views(src@),
{
    let mut src = src;
    let ghost before = dst@;
    let ghost added = src@;
    dst.append(&mut src);
    assert(views(dst@) =~= views(before) + views(added));
}

fn push_line(dst: &mut Vec<String>, line: String)
    ensures
        views(final(dst)@) == views(old(dst)@).push(line@),
{
    let ghost before = dst@;
    dst.push(line);
    assert(views(dst@) =~= views(before).push(line@));
}

fn space_content(s: &Space) -> (r: Vec<String>)
    ensures
        views(r@) == space_lines(*s),
{
    let mut lines: Vec<String> = Vec::new();
    push_line(&mut lines, labeled("Space:   ", s.name.as_str()));
    push_line(&mut lines, labeled("Slug:    ", s.slug.as_str()));
    push_line(&mut lines, labeled("ID:      ", s.id.as_str()));
    push_line(&mut lines, labeled("Created: ", s.created_at.as_str()));
    push_line(&mut lines, labeled("Updated: ", s.updated_at.as_str()));
    if !s.description.as_str().is_empty() {
        push_line(&mut lines, String::new());
        push_line(&mut lines, s.description.clone());
    }
    assert(views(lines@) =~= space_lines(*s));
    lines
}

fn page_header(p: &Page) -> (r: Vec<String>)
    ensures
        views(r@) == page_header_lines(*p),
{
    let mut lines: Vec<String> = Vec::new();
    push_line(&mut lines, labeled("Title:   ", p.title.as_str()));
    push_line(&mut lines, labeled("Type:    ", p.page_type.as_str()));
    push_line(&mut lines, labeled("ID:      ", p.id.as_str()));
    if p.labels.len() > 0 {
        let joined = join_strings(&p.labels, ", ");
        push_line(&mut lines, labeled("Labels:  ", joined.as_str()));
    }
    let mut author = labeled("Author:  ", p.created_by_user.as_str());
    author.append(" / ");
    author.append(p.created_by_agent.as_str());
    push_line(&mut lines, author);
    push_line(&mut lines, labeled("Created: ", p.created_at.as_str()));
    push_line(&mut lines, labeled("Updated: ", p.updated_at.as_str()));
    let version = decimal(p.version);
    push_line(&mut lines, labeled("Version: ", version.as_str()));
    push_line(&mut lines, String::new());
    assert(views(lines@) =~= page_header_lines(*p));
    lines
}

proof fn lemma_join_blocks_push(bs: Seq<Seq<Seq<char>>>, b: Seq<Seq<char>>)
    ensures
        join_blocks(bs.push(b)) == join_blocks(bs) + (if bs.len() == 0 {
            Seq::<Seq<char>>::empty()
        } else {
            seq![Seq::<char>::empty()]
        }) + b,
{
    assert(bs.push(b).drop_last() =~= bs);
    if bs.len() == 0 {
        assert(join_blocks(bs.push(b)) =~= b);
        assert(join_blocks(bs) + Seq::<Seq<char>>::empty() + b =~= b);
    }
}

/// Appends a block, after an empty line unless it is the first.
fn add_block(out: &mut Vec<String>, first: bool, name: &str, text: &str)
    ensures
        views(final(out)@) == views(old(out)@) + (if first {
            Seq::<Seq<char>>::empty()
        } else {
            seq![Seq::<char>::empty()]
        }) + block(name@, text@),
{
    let ghost start = views(out@);
    if !first {
        push_line(out, String::new());
    }
    let mut heading = String::from_str("--- ");
    heading.append(name);
    heading.append(" ---");
    push_line(out, heading);
    push_lines(out, split_lines(text));
    assert(views(out@) =~= start + (if first {
        Seq::<Seq<char>>::empty()
    } else {
        seq![Seq::<char>::empty()]
    }) + block(name@, text@));
}

/// The blocks of the sections, for a typed page (non-empty `schema`) or a
/// freeform one (empty `schema`).
fn section_body(schema: &Vec<SectionDef>, entries: &Vec<SectionEntry>) -> (r: Vec<String>)
    ensures
        views(r@) == join_blocks(schema_blocks(schema_view(schema@), entries_view(entries@))
            + other_blocks(schema_view(schema@), entries_view(entries@))),
{
    let ghost sv = schema_view(schema@);
    let ghost ev = entries_view(entries@);
    let mut out: Vec<String> = Vec::new();
    let mut first = true;
    let mut i: usize = 0;
    while i < schema.len()
        invariant
            i <= schema@.len(),
            sv == schema_view(schema@),
            ev == entries_view(entries@),
            views(out@) == join_blocks(schema_blocks(schema_view(schema@.subrange(0, i as int)), ev)),
            first == (schema_blocks(schema_view(schema@.subrange(0, i as int)), ev).len() == 0),
        decreases schema@.len() - i,
    {
        let ghost prev = schema_blocks(schema_view(schema@.subrange(0, i as int)), ev);
        proof {
            assert(schema_view(schema@.subrange(0, i + 1)).drop_last()
                =~= schema_view(schema@.subrange(0, i as int)));
        }
        let def = schema[i];
        match lookup_entry(entries, def.key) {
            Some(Some(t)) => {
                add_block(&mut out, first, def.name, t.as_str());
                proof {
                    lemma_join_blocks_push(prev, block(def.name@, t@));
                }
                first = false;
            },
            _ => {},
        }
        i += 1;
    }
    assert(schema@.subrange(0, schema@.len() as int) =~= schema@);
    let ghost sb = schema_blocks(sv, ev);
    let mut j: usize = 0;
    while j < entries.len()
        invariant
            j <= entries@.len(),
            sv == schema_view(schema@),
            ev == entries_view(entries@),
            sb == schema_blocks(sv, ev),
            views(out@) == join_blocks(sb + other_blocks(sv, entries_view(entries@.subrange(0, j as int)))),
            first == ((sb + other_blocks(sv, entries_view(entries@.subrange(0, j as int)))).len() == 0),
        decreases entries@.len() - j,
    {
        let ghost prev = other_blocks(sv, entries_view(entries@.subrange(0, j as int)));
        proof {
            assert(entries_view(entries@.subrange(0, j + 1)).drop_last()
                =~= entries_view(entries@.subrange(0, j as int)));
        }
        let e = &entries[j];
        if !key_in_schema(schema, e.key.as_str()) {
            match &e.text {
                Some(t) => {
                    add_block(&mut out, first, e.key.as_str(), t.as_str());
                    proof {
                        lemma_join_blocks_push(sb + prev, block(e.key@, t@));
                        assert(sb + prev.push(block(e.key@, t@)) =~= (sb + prev).push(block(e.key@, t@)));
                    }
                    first = false;
                },
                None => {},
            }
        }
        j += 1;
    }
    assert(entries@.subrange(0, entries@.len() as int) =~= entries@);
    out
}

/// The body lines of a page as the content pane shows them.
pub fn page_body(p: &Page) -> (r: Vec<String>)
    ensures
        views(r@) == page_body_lines(*p),
{
    match &p.sections {
        Some(s) => match &s.entries {
            Some(entries) => match p.page_type.section_schema() {
                Some(schema) => section_body(&schema, entries),
                None => {
                    let empty: Vec<SectionDef> = Vec::new();
                    assert(schema_view(empty@) =~= Seq::<SectionSpec>::empty());
                    let r = section_body(&empty, entries);
                    assert(schema_blocks(Seq::<SectionSpec>::empty(), entries_view(entries@)) =~= Seq::empty());
                    assert(Seq::<Seq<Seq<char>>>::empty() + other_blocks(Seq::empty(), entries_view(entries@))
                        =~= other_blocks(Seq::empty(), entries_view(entries@)));
                    r
                },
            },
            None => split_lines(p.content.as_str()),
        },
        None => split_lines(p.content.as_str()),
    }
}

fn link_content(page_id: &str, links: &Vec<Link>) -> (r: Vec<String>)
    ensures
        views(r@) == link_lines(page_id@, links@),
{
    let mut out: Vec<String> = Vec::new();
    if links.len() == 0 {
        return out;
    }
    push_line(&mut out, String::new());
    push_line(&mut out, String::from_str("--- Links ---"));
    let ghost head = views(out@);
    let mut i: usize = 0;
    while i < links.len()
        invariant
            i <= links@.len(),
            views(out@) == head + links@.subrange(0, i as int).map_values(|l: Link| link_line(page_id@, l)),
        decreases links@.len() - i,
    {
        let l = &links[i];
        let mut line = String::from_str("  ");
        line.append(l.relation.as_str());
        if str_eq(l.source_id.as_str(), page_id) {
            line.append(" -> ");
            line.append(l.target_id.as_str());
        } else {
            line.append(" <- ");
            line.append(l.source_id.as_str());
        }
        push_line(&mut out, line);
        assert(links@.subrange(0, i + 1).map_values(|l: Link| link_line(page_id@, l))
            =~= links@.subrange(0, i as int).map_values(|l: Link| link_line(page_id@, l)).push(link_line(page_id@, links@[i as int])));
        i += 1;
    }
    assert(links@.subrange(0, links@.len() as int) =~= links@);
    out
}

/// The content pane for an item of the list, given the links read for it.
pub open spec fn item_lines(item: ListItem, links: Seq<Link>) -> Seq<Seq<char>> {
    match item {
        ListItem::Space(s) => space_lines(s),
        ListItem::Page { page, .. } => page_lines(page, links),
        ListItem::SearchResult(r) => page_lines(r.page, links) + excerpt_lines(r.excerpt@),
    }
}

/// The lines of a page and the links they show.
fn page_content(conn: &rusqlite::Connection, page: &Page) -> (r: Result<(Vec<String>, Vec<Link>), KbError>)
    ensures
        r is Ok ==> views(r->Ok_0.0@) == page_lines(*page, r->Ok_0.1@),
{
    let mut lines = page_header(page);
    push_lines(&mut lines, page_body(page));
    let links = list_links(conn, page.id.as_str())?;
    push_lines(&mut lines, link_content(page.id.as_str(), &links));
    assert(views(lines@) =~= page_lines(*page, links@));
    Ok((lines, links))
}

/// The text of the scratch file of a label edit: a heading naming the page,
/// a line of instructions, then one label per line.
pub open spec fn label_file_of(title: Seq<char>, labels: Seq<Seq<char>>) -> Seq<char> {
    "# Labels for: "@ + title + seq!['\n']
        + "# One label per line. Empty lines and lines starting with # are ignored."@ + seq!['\n']
        + label_list_of(labels)
}

pub open spec fn label_list_of(labels: Seq<Seq<char>>) -> Seq<char>
    decreases labels.len(),
{
    if labels.len() == 0 {
        Seq::empty()
    } else {
        label_list_of(labels.drop_last()) + labels.last() + seq!['\n']
    }
}

/// The scratch-file text for editing a page's labels.
pub fn label_file_text(title: &str, labels: &Vec<String>) -> (r: String)
    ensures
        r@ == label_file_of(title@, views(labels@)),
{
    let mut out = String::from_str("# Labels for: ");
    out.append(title);
    crate::text::push_char(&mut out, '\n');
    out.append("# One label per line. Empty lines and lines starting with # are ignored.");
    crate::text::push_char(&mut out, '\n');
    let ghost head = out@;
    let mut i: usize = 0;
    while i < labels.len()
        invariant
            i <= labels@.len(),
            out@ == head + label_list_of(views(labels@.subrange(0, i as int))),
        decreases labels@.len() - i,
    {
        assert(views(labels@.subrange(0, i + 1)).drop_last() =~= views(labels@.subrange(0, i as int)));
        out.append(labels[i].as_str());
        crate::text::push_char(&mut out, '\n');
        assert(out@ =~= head + label_list_of(views(labels@.subrange(0, i + 1))));
        i += 1;
    }
    assert(labels@.subrange(0, labels@.len() as int) =~= labels@);
    out
}

fn clone_space(s: &Space) -> (r: Space)
    ensures
        r == *s,
{
    Space {
        id: s.id.clone(),
        slug: s.slug.clone(),
        name: s.name.clone(),
        description: s.description.clone(),
        created_at: s.created_at.clone(),
        updated_at: s.updated_at.clone(),
    }
}

/// The space of the view, for the views inside a space.
pub open spec fn space_of(nav: NavState) -> Option<Space> {
    match nav {
        NavState::PageList { space } => Some(space),
        NavState::ChildPageList { space, .. } => Some(space),
        _ => None,
    }
}

/// The kind of items each view lists.
pub open spec fn items_fit_view(nav: NavState, items: Seq<ListItem>) -> bool {
    forall|i: int| 0 <= i < items.len() ==> match nav {
        NavState::SpaceList => #[trigger] items[i] is Space,
        NavState::SearchResults { .. } => items[i] is SearchResult,
        _ => items[i] is Page,
    }
}

fn spaces_to_items(spaces: Vec<Space>) -> (r: Vec<ListItem>)
    ensures
        r@.len() == spaces@.len(),
        forall|i: int| 0 <= i < r@.len() ==> #[trigger] r@[i] == ListItem::Space(spaces@[i]),
{
    let mut rest = spaces;
    let ghost all = rest@;
    let mut items: Vec<ListItem> = Vec::new();
    while rest.len() > 0
        invariant
            items@.len() + rest@.len() == all.len(),
            rest@ == all.subrange(items@.len() as int, all.len() as int),
            forall|i: int| 0 <= i < items@.len() ==> #[trigger] items@[i] == ListItem::Space(all[i]),
        decreases rest@.len(),
    {
        let s = rest.remove(0);
        items.push(ListItem::Space(s));
    }
    items
}

fn results_to_items(results: Vec<SearchResult>) -> (r: Vec<ListItem>)
    ensures
        r@.len() == results@.len(),
        forall|i: int| 0 <= i < r@.len() ==> #[trigger] r@[i] == ListItem::SearchResult(results@[i]),
{
    let mut rest = results;
    let ghost all = rest@;
    let mut items: Vec<ListItem> = Vec::new();
    while rest.len() > 0
        invariant
            items@.len() + rest@.len() == all.len(),
            rest@ == all.subrange(items@.len() as int, all.len() as int),
            forall|i: int| 0 <= i < items@.len() ==> #[trigger] items@[i] == ListItem::SearchResult(all[i]),
        decreases rest@.len(),
    {
        let s = rest.remove(0);
        items.push(ListItem::SearchResult(s));
    }
    items
}

/// Each page as an item, expandable when it has children.
fn pages_to_items(conn: &rusqlite::Connection, pages: Vec<Page>) -> (r: Result<Vec<ListItem>, KbError>)
    ensures
        r is Ok ==> r->Ok_0@.len() == pages@.len(),
        r is Ok ==> forall|i: int| 0 <= i < r->Ok_0@.len()
            ==> (#[trigger] r->Ok_0@[i] matches ListItem::Page { page, .. } && page == pages@[i]),
{
    let mut rest = pages;
    let ghost all = rest@;
    let mut items: Vec<ListItem> = Vec::new();
    while rest.len() > 0
        invariant
            items@.len() + rest@.len() == all.len(),
            rest@ == all.subrange(items@.len() as int, all.len() as int),
            forall|i: int| 0 <= i < items@.len()
                ==> (#[trigger] items@[i] matches ListItem::Page { page, .. } && page == all[i]),
        decreases rest@.len(),
    {
        let page = rest.remove(0);
        let expandable = has_children(conn, page.id.as_str())?;
        items.push(ListItem::Page { page, expandable });
    }
    Ok(items)
}

/// The content pane after showing the item under the cursor: scrolled to
/// the top; success is owed when showing it reads nothing from the store (an
/// empty list, a space); on success the lines are those of the item.
pub open spec fn content_shown(a: App, ok: bool) -> bool {
    &&& a.content_scroll == 0
    &&& (a.items@.len() == 0 ==> ok)
    &&& (a.items@.len() > 0 && a.items@[a.cursor as int] is Space ==> ok)
    &&& (ok && a.items@.len() == 0 ==> views(a.content_lines@) == seq!["(empty)"@])
    &&& (ok && a.items@.len() > 0 ==> views(a.content_lines@) == item_lines(a.items@[a.cursor as int], a.links@))
}

/// Everything but the content pane is as it was.
pub open spec fn same_but_content(a: App, b: App) -> bool {
    &&& b.running == a.running
    &&& b.focus == a.focus
    &&& b.mode == a.mode
    &&& b.nav_state == a.nav_state
    &&& b.items == a.items
    &&& b.cursor == a.cursor
    &&& b.search_input == a.search_input
    &&& b.pending_g == a.pending_g
    &&& b.pending_edit == a.pending_edit
    &&& b.pending_label_edit == a.pending_label_edit
}

/// What opening the item under the cursor does (`ok`: the call succeeded).
pub open spec fn select_effect(pre: App, post: App, ok: bool) -> bool {
    &&& post.running == pre.running
    &&& if pre.items@.len() == 0 {
        ok && post == pre
    } else {
        match pre.items@[pre.cursor as int] {
            ListItem::Space(s) => post.nav_state == (NavState::PageList { space: s }) && (ok ==> post.cursor
                == 0),
            ListItem::Page { page, expandable } => if expandable && space_of(pre.nav_state).is_some() {
                post.nav_state == (NavState::ChildPageList {
                    space: space_of(pre.nav_state)->0,
                    parent: Box::new(page),
                }) && (ok ==> post.cursor == 0)
            } else {
                ok && post == (App { focus: Focus::Content, ..pre })
            },
            ListItem::SearchResult(_) => ok && post == (App { focus: Focus::Content, ..pre }),
        }
    }
}

/// What going up one level does (`ok`: the call succeeded).
pub open spec fn go_back_effect(pre: App, post: App, ok: bool) -> bool {
    match pre.nav_state {
        NavState::SpaceList => ok && !post.running && post.nav_state is SpaceList,
        NavState::PageList { .. } => post.running == pre.running && post.nav_state is SpaceList && (ok
            ==> post.cursor == 0),
        NavState::ChildPageList { space, parent } => post.running == pre.running && (ok ==> post.cursor == 0)
            && if parent.parent_id.is_none() {
            post.nav_state == (NavState::PageList { space })
        } else {
            ok ==> (post.nav_state matches NavState::ChildPageList { space: s2, parent: p2 } && s2 == space
                && p2.id@ == parent.parent_id->0@)
        },
        NavState::SearchResults { previous, .. } => post.running == pre.running && post.nav_state == *previous
            && (ok ==> post.cursor == 0),
    }
}

/// What submitting the search input does (`ok`: the call succeeded).
pub open spec fn submit_effect(pre: App, post: App, ok: bool) -> bool {
    &&& post.mode == Mode::Normal
    &&& post.running == pre.running
    &&& if pre.search_input@.len() == 0 {
        ok && post == (App { mode: Mode::Normal, ..pre })
    } else {
        &&& post.nav_state == (NavState::SearchResults {
            query: pre.search_input,
            previous: Box::new(pre.nav_state),
        })
        &&& post.focus == Focus::List
        &&& (ok ==> post.cursor == 0)
    }
}

impl App {
    /// The cursor is on an item, or at 0 when the list is empty.
    pub open spec fn cursor_ok(&self) -> bool {
        if self.items@.len() == 0 {
            self.cursor == 0
        } else {
            self.cursor < self.items@.len()
        }
    }

    /// A browser at the list of spaces, nothing loaded yet.
    pub fn new() -> (r: App)
        ensures
            r.running,
            r.focus == Focus::List,
            r.mode == Mode::Normal,
            r.nav_state is SpaceList,
            r.items@.len() == 0,
            r.cursor == 0,
            r.content_scroll == 0,
            r.search_input@.len() == 0,
            r.content_lines@.len() == 0,
            r.links@.len() == 0,
            !r.pending_g,
            r.pending_edit.is_none(),
            r.pending_label_edit.is_none(),
    {
        App {
            running: true,
            focus: Focus::List,
            mode: Mode::Normal,
            nav_state: NavState::SpaceList,
            items: Vec::new(),
            cursor: 0,
            content_scroll: 0,
            search_input: String::new(),
            content_lines: Vec::new(),
            links: Vec::new(),
            pending_g: false,
            pending_edit: None,
            pending_label_edit: None,
        }
    }

    /// Shows the list of spaces.
    pub fn load_initial(&mut self, conn: &rusqlite::Connection) -> (r: Result<(), KbError>)
        ensures
            final(self).nav_state is SpaceList,
            r is Ok ==> final(self).cursor_ok() && items_fit_view(final(self).nav_state, final(self).items@),
    {
        self.nav_state = NavState::SpaceList;
        self.load_items(conn)
    }

    /// Re-reads the current view, keeping the cursor (clamped) and the
    /// content scroll offset (clamped to the new content).
    pub fn refresh(&mut self, conn: &rusqlite::Connection) -> (r: Result<(), KbError>)
        ensures
            final(self).nav_state == old(self).nav_state,
            r is Ok ==> final(self).cursor == clamp_cursor(old(self).cursor as int, final(self).items@.len() as int),
            r is Ok ==> ({
                let n = final(self).content_lines@.len();
                let limit: int = if n > 0 { n - 1 } else { 0 };
                final(self).content_scroll as int == if (old(self).content_scroll as int) < limit {
                    old(self).content_scroll as int
                } else {
                    limit
                }
            }),
    {
        let prev_scroll = self.content_scroll;
        self.load_items(conn)?;
        let n = self.content_lines.len();
        let limit: usize = if n > 0 { n - 1 } else { 0 };
        self.content_scroll = if (prev_scroll as usize) < limit { prev_scroll } else { limit as u16 };
        Ok(())
    }

    /// Re-reads the items of the current view from the store, clamps the
    /// cursor, and rebuilds the content pane.
    pub fn load_items(&mut self, conn: &rusqlite::Connection) -> (r: Result<(), KbError>)
        ensures
            final(self).nav_state == old(self).nav_state,
            final(self).running == old(self).running,
            final(self).focus == old(self).focus,
            final(self).mode == old(self).mode,
            final(self).search_input == old(self).search_input,
            old(self).cursor_ok() ==> final(self).cursor_ok(),
            r is Ok ==> final(self).cursor_ok(),
            r is Ok ==> final(self).cursor == clamp_cursor(old(self).cursor as int, final(self).items@.len() as int),
            r is Ok ==> items_fit_view(final(self).nav_state, final(self).items@),
            r is Ok ==> final(self).content_scroll == 0,
            r is Ok && final(self).items@.len() == 0 ==> views(final(self).content_lines@) == seq!["(empty)"@],
            r is Ok && final(self).items@.len() > 0 ==> views(final(self).content_lines@)
                == item_lines(final(self).items@[final(self).cursor as int], final(self).links@),
    {
        let items = match &self.nav_state {
            NavState::SpaceList => {
                let spaces = list_spaces(conn)?;
                spaces_to_items(spaces)
            },
            NavState::PageList { space } => {
                let pages = list_top_level_pages(conn, space.id.as_str())?;
                pages_to_items(conn, pages)?
            },
            NavState::ChildPageList { parent, .. } => {
                let pages = list_child_pages(conn, parent.id.as_str())?;
                pages_to_items(conn, pages)?
            },
            NavState::SearchResults { query, .. } => {
                let params = SearchParams {
                    query: Some(query.clone()),
                    space_id: None,
                    page_type: None,
                    label: None,
                    created_by_agent: None,
                    section: None,
                };
                let results = search_pages(conn, &params)?;
                results_to_items(results)
            },
        };
        self.items = items;
        if self.items.len() == 0 {
            self.cursor = 0;
        } else if self.cursor >= self.items.len() {
            self.cursor = self.items.len() - 1;
        }
        self.content_scroll = 0;
        self.update_content(conn)
    }

    /// Rebuilds the content pane from the item under the cursor.
    pub fn update_content(&mut self, conn: &rusqlite::Connection) -> (r: Result<(), KbError>)
        requires
            old(self).cursor_ok(),
        ensures
            same_but_content(*old(self), *final(self)),
            content_shown(*final(self), r is Ok),
    {
        self.content_lines = Vec::new();
        self.links = Vec::new();
        self.content_scroll = 0;
        if self.items.len() == 0 {
            let mut lines: Vec<String> = Vec::new();
            push_line(&mut lines, String::from_str("(empty)"));
            assert(views(lines@) =~= seq!["(empty)"@]);
            self.content_lines = lines;
            return Ok(());
        }
        let c = self.cursor;
        match &self.items[c] {
            ListItem::Space(s) => {
                self.content_lines = space_content(s);
            },
            ListItem::Page { page, .. } => {
                let (lines, links) = page_content(conn, page)?;
                self.content_lines = lines;
                self.links = links;
            },
            ListItem::SearchResult(res) => {
                let (mut lines, links) = page_content(conn, &res.page)?;
                if !res.excerpt.as_str().is_empty() {
                    push_line(&mut lines, String::new());
                    push_line(&mut lines, String::from_str("--- Match ---"));
                    push_line(&mut lines, res.excerpt.clone());
                }
                assert(views(lines@) =~= page_lines(res.page, links@) + excerpt_lines(res.excerpt@));
                self.content_lines = lines;
                self.links = links;
            },
        }
        Ok(())
    }

    pub fn move_cursor_down(&mut self)
        ensures
            *final(self) == (App {
                cursor: if old(self).items@.len() > 0 && old(self).cursor + 1 < old(self).items@.len() {
                    (old(self).cursor + 1) as usize
                } else {
                    old(self).cursor
                },
                ..*old(self)
            }),
    {
        if self.items.len() > 0 && self.cursor < self.items.len() - 1 {
            self.cursor += 1;
        }
    }

    pub fn move_cursor_up(&mut self)
        ensures
            *final(self) == (App {
                cursor: if old(self).cursor > 0 { (old(self).cursor - 1) as usize } else { 0 },
                ..*old(self)
            }),
    {
        if self.cursor > 0 {
            self.cursor -= 1;
        }
    }

    pub fn jump_to_top(&mut self)
        ensures
            *final(self) == (App { cursor: 0, ..*old(self) }),
    {
        self.cursor = 0;
    }

    pub fn jump_to_bottom(&mut self)
        ensures
            *final(self) == (App {
                cursor: if old(self).items@.len() > 0 {
                    (old(self).items@.len() - 1) as usize
                } else {
                    old(self).cursor
                },
                ..*old(self)
            }),
    {
        if self.items.len() > 0 {
            self.cursor = self.items.len() - 1;
        }
    }

    pub fn scroll_content_down(&mut self)
        ensures
            *final(self) == (App {
                content_scroll: if old(self).content_scroll < u16::MAX {
                    (old(self).content_scroll + 1) as u16
                } else {
                    u16::MAX
                },
                ..*old(self)
            }),
    {
        if self.content_scroll < u16::MAX {
            self.content_scroll += 1;
        }
    }

    pub fn scroll_content_up(&mut self)
        ensures
            *final(self) == (App {
                content_scroll: if old(self).content_scroll > 0 {
                    (old(self).content_scroll - 1) as u16
                } else {
                    0
                },
                ..*old(self)
            }),
    {
        if self.content_scroll > 0 {
            self.content_scroll -= 1;
        }
    }

    pub fn scroll_content_to_top(&mut self)
        ensures
            *final(self) == (App { content_scroll: 0, ..*old(self) }),
    {
        self.content_scroll = 0;
    }

    /// Scrolls so that the last line sits at the bottom of a pane of
    /// `visible_height` lines; content that fits leaves the offset alone.
    pub fn scroll_content_to_bottom(&mut self, visible_height: u16)
        ensures
            *final(self) == (App {
                content_scroll: if (old(self).content_lines@.len() as u16) > visible_height {
                    ((old(self).content_lines@.len() as u16) - visible_height) as u16
                } else {
                    old(self).content_scroll
                },
                ..*old(self)
            }),
    {
        let total = self.content_lines.len() as u16;
        if total > visible_height {
            self.content_scroll = total - visible_height;
        }
    }

    /// Opens the item under the cursor. A space opens its pages; a page with
    /// children opens them; a leaf page or a search result moves the focus to
    /// the content pane. Reports whether anything changed.
    pub fn select(&mut self, conn: &rusqlite::Connection) -> (r: Result<bool, KbError>)
        requires
            old(self).cursor_ok(),
        ensures
            final(self).cursor_ok(),
            select_effect(*old(self), *final(self), r is Ok),
            r is Ok ==> r->Ok_0 == (old(self).items@.len() > 0),
    {
        if self.items.len() == 0 {
            return Ok(false);
        }
        let c = self.cursor;
        let kind: u8 = match &self.items[c] {
            ListItem::Space(_) => 0,
            ListItem::Page { expandable, .. } => if *expandable {
                1
            } else {
                2
            },
            ListItem::SearchResult(_) => 2,
        };
        if kind == 0 {
            let item = self.items.remove(c);
            match item {
                ListItem::Space(space) => {
                    self.nav_state = NavState::PageList { space };
                },
                _ => {},
            }
            self.cursor = 0;
            self.load_items(conn)?;
            return Ok(true);
        }
        if kind == 1 {
            let space = match &self.nav_state {
                NavState::PageList { space } => Some(clone_space(space)),
                NavState::ChildPageList { space, .. } => Some(clone_space(space)),
                _ => None,
            };
            match space {
                Some(space) => {
                    let item = self.items.remove(c);
                    match item {
                        ListItem::Page { page, .. } => {
                            self.nav_state = NavState::ChildPageList { space, parent: Box::new(page) };
                        },
                        _ => {},
                    }
                    self.cursor = 0;
                    self.load_items(conn)?;
                    return Ok(true);
                },
                None => {},
            }
        }
        self.focus = Focus::Content;
        Ok(true)
    }

    /// Goes up one level: from the spaces it ends the session; from a page
    /// list to the spaces; from a child list to its parent's list (the
    /// grandparent re-read from the store); from search results to the view
    /// the search was entered from.
    pub fn go_back(&mut self, conn: &rusqlite::Connection) -> (r: Result<(), KbError>)
        ensures
            old(self).cursor_ok() ==> final(self).cursor_ok(),
            go_back_effect(*old(self), *final(self), r is Ok),
    {
        let mut state = NavState::SpaceList;
        std::mem::swap(&mut state, &mut self.nav_state);
        match state {
            NavState::SpaceList => {
                self.running = false;
                Ok(())
            },
            NavState::PageList { .. } => {
                self.cursor = 0;
                self.load_items(conn)
            },
            NavState::ChildPageList { space, parent } => {
                match &parent.parent_id {
                    Some(gp_id) => {
                        match get_page(conn, gp_id.as_str()) {
                            Ok(grandparent) => {
                                self.nav_state = NavState::ChildPageList { space, parent: Box::new(grandparent) };
                            },
                            Err(e) => {
                                self.nav_state = NavState::ChildPageList { space, parent };
                                return Err(e);
                            },
                        }
                    },
                    None => {
                        self.nav_state = NavState::PageList { space };
                    },
                }
                self.cursor = 0;
                self.load_items(conn)
            },
            NavState::SearchResults { previous, .. } => {
                self.nav_state = *previous;
                self.cursor = 0;
                self.load_items(conn)
            },
        }
    }

    /// Starts typing a search query, from an empty input.
    pub fn enter_search(&mut self)
        ensures
            final(self).mode == Mode::Search,
            final(self).search_input@.len() == 0,
            *final(self) == (App { mode: Mode::Search, search_input: final(self).search_input, ..*old(self) }),
    {
        self.mode = Mode::Search;
        self.search_input = String::new();
    }

    /// Leaves search input. A non-empty query opens its results, remembering
    /// the current view to return to; an empty one changes nothing else.
    pub fn submit_search(&mut self, conn: &rusqlite::Connection) -> (r: Result<(), KbError>)
        ensures
            old(self).cursor_ok() ==> final(self).cursor_ok(),
            submit_effect(*old(self), *final(self), r is Ok),
    {
        self.mode = Mode::Normal;
        if self.search_input.as_str().is_empty() {
            return Ok(());
        }
        let query = self.search_input.clone();
        let mut previous = NavState::SpaceList;
        std::mem::swap(&mut previous, &mut self.nav_state);
        self.nav_state = NavState::SearchResults { query, previous: Box::new(previous) };
        self.cursor = 0;
        self.focus = Focus::List;
        self.load_items(conn)
    }

    /// Discards the search input and returns to normal mode; the view stays.
    pub fn cancel_search(&mut self)
        ensures
            final(self).mode == Mode::Normal,
            final(self).search_input@.len() == 0,
            *final(self) == (App { mode: Mode::Normal, search_input: final(self).search_input, ..*old(self) }),
    {
        self.mode = Mode::Normal;
        self.search_input = String::new();
    }

    /// The id of the page under the cursor, if the item there is a page or a
    /// search result.
    pub open spec fn selected_page_id(&self) -> Option<Seq<char>> {
        if self.items@.len() == 0 {
            None
        } else {
            match self.items@[self.cursor as int] {
                ListItem::Space(_) => None,
                ListItem::Page { page, .. } => Some(page.id@),
                ListItem::SearchResult(r) => Some(r.page.id@),
            }
        }
    }

    fn selected_id(&self) -> (r: Option<&String>)
        requires
            self.cursor_ok(),
        ensures
            r.is_some() == self.selected_page_id().is_some(),
            r.is_some() ==> r->0@ == self.selected_page_id()->0,
    {
        if self.items.len() == 0 {
            return None;
        }
        match &self.items[self.cursor] {
            ListItem::Space(_) => None,
            ListItem::Page { page, .. } => Some(&page.id),
            ListItem::SearchResult(r) => Some(&r.page.id),
        }
    }

    /// Starts a content edit of the selected page: reads the page afresh (for
    /// its current version) and takes its content as the scratch text.
    /// Nothing to edit on an empty list or a space.
    pub fn prepare_edit(&self, conn: &rusqlite::Connection) -> (r: Result<Option<EditSnapshot>, KbError>)
        requires
            self.cursor_ok(),
        ensures
            self.selected_page_id().is_none() ==> r matches Ok(None),
            r matches Ok(Some(e)) ==> self.selected_page_id() == Some(e.page_id@),
            self.selected_page_id().is_some() ==> !(r matches Ok(None)),
    {
        let id = match self.selected_id() {
            Some(id) => id,
            None => {
                return Ok(None);
            },
        };
        let page = get_page(conn, id.as_str())?;
        Ok(Some(EditSnapshot { page_id: page.id, version: page.version, text: page.content }))
    }

    /// Starts a label edit of the selected page: reads the page afresh and
    /// takes its labels, one per line under a heading, as the scratch text.
    pub fn prepare_edit_labels(&self, conn: &rusqlite::Connection) -> (r: Result<Option<EditSnapshot>, KbError>)
        requires
            self.cursor_ok(),
        ensures
            self.selected_page_id().is_none() ==> r matches Ok(None),
            r matches Ok(Some(e)) ==> self.selected_page_id() == Some(e.page_id@),
            self.selected_page_id().is_some() ==> !(r matches Ok(None)),
    {
        let id = match self.selected_id() {
            Some(id) => id,
            None => {
                return Ok(None);
            },
        };
        let page = get_page(conn, id.as_str())?;
        let text = label_file_text(page.title.as_str(), &page.labels);
        Ok(Some(EditSnapshot { page_id: page.id, version: page.version, text }))
    }

    /// The space of the current view, for the views inside a space.
    pub fn current_space(&self) -> (r: Option<&Space>)
        ensures
            r.is_some() == space_of(self.nav_state).is_some(),
            r.is_some() ==> *r->0 == space_of(self.nav_state)->0,
    {
        match &self.nav_state {
            NavState::PageList { space } => Some(space),
            NavState::ChildPageList { space, .. } => Some(space),
            _ => None,
        }
    }

    /// The title of the list pane.
    pub fn left_pane_title(&self) -> (r: String)
        ensures
            r@ == match self.nav_state {
                NavState::SpaceList => "Spaces"@,
                NavState::PageList { space } => space.slug@ + " / Pages"@,
                NavState::ChildPageList { space, parent } => space.slug@ + " / "@ + parent.title@,
                NavState::SearchResults { query, .. } => "Search: "@ + query@,
            },
    {
        match &self.nav_state {
            NavState::SpaceList => String::from_str("Spaces"),
            NavState::PageList { space } => {
                let mut t = space.slug.clone();
                t.append(" / Pages");
                t
            },
            NavState::ChildPageList { space, parent } => {
                let mut t = space.slug.clone();
                t.append(" / ");
                t.append(parent.title.as_str());
                t
            },
            NavState::SearchResults { query, .. } => {
                let mut t = String::from_str("Search: ");
                t.append(query.as_str());
                t
            },
        }
    }

    /// The key hints of the status line for the current mode and focus.
    pub fn status_hint(&self) -> (r: &'static str)
        ensures
            r@ == match self.mode {
                Mode::Search => "Type query, Enter:submit, Esc:cancel"@,
                Mode::Normal => match self.focus {
                    Focus::List => "j/k:nav  Enter:select  e:edit  L:labels  Esc:back  /:search  q:quit"@,
                    Focus::Content => "j/k:scroll  e:edit  L:labels  h/Esc:back  /:search  q:quit"@,
                },
            },
    {
        match self.mode {
            Mode::Search => "Type query, Enter:submit, Esc:cancel",
            Mode::Normal => match self.focus {
                Focus::List => "j/k:nav  Enter:select  e:edit  L:labels  Esc:back  /:search  q:quit",
                Focus::Content => "j/k:scroll  e:edit  L:labels  h/Esc:back  /:search  q:quit",
            },
        }
    }
}

} // verus!
