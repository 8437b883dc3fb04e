//! The data model: spaces, pages and their types, links, search results, and
//! the structured sections of a page with their flattening into text.

use vstd::prelude::*;
use vstd::string::*;
use crate::text::{str_eq, join, join_strings, push_char};

verus! {

/// A top-level organisational unit.
#[derive(Debug, Clone)]
pub struct Space {
    pub id: String,
    pub slug: String,
    pub name: String,
    pub description: String,
    pub created_at: String,
    pub updated_at: String,
}

/// The closed set of page types.
#[derive(Debug, Clone, Copy, PartialEq, Eq, Structural)]
pub enum PageType {
    Decision,
    Architecture,
    SessionLog,
    Reference,
    Troubleshooting,
    Runbook,
}

/// The name under which a page type is stored and displayed.
pub open spec fn page_type_name(t: PageType) -> Seq<char> {
    match t {
        PageType::Decision => "decision"@,
        PageType::Architecture => "architecture"@,
        PageType::SessionLog => "session-log"@,
        PageType::Reference => "reference"@,
        PageType::Troubleshooting => "troubleshooting"@,
        PageType::Runbook => "runbook"@,
    }
}

/// The page type whose name is `s`, if any.
pub open spec fn page_type_named(s: Seq<char>) -> Option<PageType> {
    if s == "decision"@ {
        Some(PageType::Decision)
    } else if s == "architecture"@ {
        Some(PageType::Architecture)
    } else if s == "session-log"@ {
        Some(PageType::SessionLog)
    } else if s == "reference"@ {
        Some(PageType::Reference)
    } else if s == "troubleshooting"@ {
        Some(PageType::Troubleshooting)
    } else if s == "runbook"@ {
        Some(PageType::Runbook)
    } else {
        None
    }
}

/// One section of a page type's schema: its key in the sections object, its
/// display name, and whether the type expects it.
#[derive(Debug, Clone, Copy)]
pub struct SectionDef {
    pub key: &'static str,
    pub name: &'static str,
    pub required: bool,
}

/// A schema entry as plain values: key, display name, required.
pub type SectionSpec = (Seq<char>, Seq<char>, bool);

pub open spec fn section_def_view(d: SectionDef) -> SectionSpec {
    (d.key@, d.name@, d.required)
}

/// The ordered section schema of each page type; freeform types have none.
pub open spec fn schema_of(t: PageType) -> Option<Seq<SectionSpec>> {
    match t {
        PageType::Decision => Some(seq![
            ("context"@, "Context"@, true),
            ("options_considered"@, "Options Considered"@, true),
            ("decision"@, "Decision"@, true),
            ("consequences"@, "Consequences"@, false),
        ]),
        PageType::Troubleshooting => Some(seq![
            ("problem"@, "Problem"@, true),
            ("diagnosis"@, "Diagnosis"@, true),
            ("solution"@, "Solution"@, true),
        ]),
        PageType::Architecture => Some(seq![
            ("context"@, "Context"@, true),
            ("design"@, "Design"@, true),
            ("rationale"@, "Rationale"@, false),
            ("constraints"@, "Constraints"@, false),
        ]),
        PageType::Runbook => Some(seq![
            ("prerequisites"@, "Prerequisites"@, false),
            ("steps"@, "Steps"@, true),
            ("rollback"@, "Rollback"@, false),
        ]),
        PageType::SessionLog | PageType::Reference => None,
    }
}

pub open spec fn schema_view(v: Seq<SectionDef>) -> Seq<SectionSpec> {
    v.map_values(|d: SectionDef| section_def_view(d))
}

impl PageType {
    /// Parses a page type from its name; unknown names give `None`.
    pub fn from_str(s: &str) -> (r: Option<PageType>)
        ensures
            r == page_type_named(s@),
    {
        if str_eq(s, "decision") {
            Some(PageType::Decision)
        } else if str_eq(s, "architecture") {
            Some(PageType::Architecture)
        } else if str_eq(s, "session-log") {
            Some(PageType::SessionLog)
        } else if str_eq(s, "reference") {
            Some(PageType::Reference)
        } else if str_eq(s, "troubleshooting") {
            Some(PageType::Troubleshooting)
        } else if str_eq(s, "runbook") {
            Some(PageType::Runbook)
        } else {
            None
        }
    }

    /// The name under which this type is stored and displayed.
    pub fn as_str(&self) -> (r: &'static str)
        ensures
            r@ == page_type_name(*self),
    {
        match self {
            PageType::Decision => "decision",
            PageType::Architecture => "architecture",
            PageType::SessionLog => "session-log",
            PageType::Reference => "reference",
            PageType::Troubleshooting => "troubleshooting",
            PageType::Runbook => "runbook",
        }
    }

    /// The name as an owned string (what `Display` prints elsewhere).
    pub fn to_string(&self) -> (r: String)
        ensures
            r@ == page_type_name(*self),
    {
        String::from_str(self.as_str())
    }

    /// The ordered section schema of this type, `None` for freeform types.
    pub fn section_schema(&self) -> (r: Option<Vec<SectionDef>>)
        ensures
            r.is_some() == schema_of(*self).is_some(),
            r.is_some() ==> schema_view(r->0@) == schema_of(*self)->0,
    {
        let r = match self {
            PageType::Decision => Some(vec![
                SectionDef { key: "context", name: "Context", required: true },
                SectionDef { key: "options_considered", name: "Options Considered", required: true },
                SectionDef { key: "decision", name: "Decision", required: true },
                SectionDef { key: "consequences", name: "Consequences", required: false },
            ]),
            PageType::Troubleshooting => Some(vec![
                SectionDef { key: "problem", name: "Problem", required: true },
                SectionDef { key: "diagnosis", name: "Diagnosis", required: true },
                SectionDef { key: "solution", name: "Solution", required: true },
            ]),
            PageType::Architecture => Some(vec![
                SectionDef { key: "context", name: "Context", required: true },
                SectionDef { key: "design", name: "Design", required: true },
                SectionDef { key: "rationale", name: "Rationale", required: false },
                SectionDef { key: "constraints", name: "Constraints", required: false },
            ]),
            PageType::Runbook => Some(vec![
                SectionDef { key: "prerequisites", name: "Prerequisites", required: false },
                SectionDef { key: "steps", name: "Steps", required: true },
                SectionDef { key: "rollback", name: "Rollback", required: false },
            ]),
            PageType::SessionLog | PageType::Reference => None,
        };
        proof {
            if r.is_some() {
                assert(schema_view(r->0@) =~= schema_of(*self)->0);
            }
        }
        r
    }
}

/// The closed set of relations a link can carry.
#[derive(Debug, Clone, Copy, PartialEq, Eq, Structural)]
pub enum LinkRelation {
    RelatesTo,
    Supersedes,
    DependsOn,
    Elaborates,
}

pub open spec fn relation_name(r: LinkRelation) -> Seq<char> {
    match r {
        LinkRelation::RelatesTo => "relates-to"@,
        LinkRelation::Supersedes => "supersedes"@,
        LinkRelation::DependsOn => "depends-on"@,
        LinkRelation::Elaborates => "elaborates"@,
    }
}

pub open spec fn relation_named(s: Seq<char>) -> Option<LinkRelation> {
    if s == "relates-to"@ {
        Some(LinkRelation::RelatesTo)
    } else if s == "supersedes"@ {
        Some(LinkRelation::Supersedes)
    } else if s == "depends-on"@ {
        Some(LinkRelation::DependsOn)
    } else if s == "elaborates"@ {
        Some(LinkRelation::Elaborates)
    } else {
        None
    }
}

impl LinkRelation {
    /// Parses a relation from its name; unknown names give `None`.
    pub fn from_str(s: &str) -> (r: Option<LinkRelation>)
        ensures
            r == relation_named(s@),
    {
        if str_eq(s, "relates-to") {
            Some(LinkRelation::RelatesTo)
        } else if str_eq(s, "supersedes") {
            Some(LinkRelation::Supersedes)
        } else if str_eq(s, "depends-on") {
            Some(LinkRelation::DependsOn)
        } else if str_eq(s, "elaborates") {
            Some(LinkRelation::Elaborates)
        } else {
            None
        }
    }

    pub fn as_str(&self) -> (r: &'static str)
        ensures
            r@ == relation_name(*self),
    {
        match self {
            LinkRelation::RelatesTo => "relates-to",
            LinkRelation::Supersedes => "supersedes",
            LinkRelation::DependsOn => "depends-on",
            LinkRelation::Elaborates => "elaborates",
        }
    }

    pub fn to_string(&self) -> (r: String)
        ensures
            r@ == relation_name(*self),
    {
        String::from_str(self.as_str())
    }
}

/// One key of a page's sections object with its value: the text when the
/// value is a JSON string, `None` for any other JSON value.
#[derive(Debug, Clone)]
pub struct SectionEntry {
    pub key: String,
    pub text: Option<String>,
}

/// A section entry as plain values.
pub type EntryView = (Seq<char>, Option<Seq<char>>);

pub open spec fn entry_view(e: SectionEntry) -> EntryView {
    (e.key@, match e.text {
        Some(t) => Some(t@),
        None => None,
    })
}

pub open spec fn entries_view(v: Seq<SectionEntry>) -> Seq<EntryView> {
    v.map_values(|e: SectionEntry| entry_view(e))
}

/// Lexicographic order of strings by code point, which is the order of
/// their UTF-8 bytes.
pub open spec fn key_lt(a: Seq<char>, b: Seq<char>) -> bool
    decreases a.len(),
{
    if a.len() == 0 {
        b.len() > 0
    } else if b.len() == 0 {
        false
    } else if a[0] != b[0] {
        (a[0] as u32) < (b[0] as u32)
    } else {
        key_lt(a.drop_first(), b.drop_first())
    }
}

/// Keys strictly ascending, hence unique.
pub open spec fn keys_ascending(es: Seq<EntryView>) -> bool {
    forall|i: int, j: int| 0 <= i < j < es.len() ==> key_lt(#[trigger] es[i].0, #[trigger] es[j].0)
}

/// The structured sections of a page. `entries` is `None` when the JSON
/// value is not an object; otherwise it lists the object's keys in ascending
/// order. `json` is the compact JSON text that is stored.
#[derive(Debug, Clone)]
pub struct Sections {
    pub entries: Option<Vec<SectionEntry>>,
    pub json: String,
}

impl Sections {
    pub open spec fn wf(&self) -> bool {
        self.entries.is_some() ==> keys_ascending(entries_view(self.entries->0@))
    }
}

/// Whether `c` has Unicode's White_Space property (what `char::is_whitespace` tests).
pub open spec fn is_ws(c: char) -> bool {
    let u = c as u32;
    (0x09 <= u && u <= 0x0D) || u == 0x20 || u == 0x85 || u == 0xA0 || u == 0x1680
        || (0x2000 <= u && u <= 0x200A) || u == 0x2028 || u == 0x2029 || u == 0x202F
        || u == 0x205F || u == 0x3000
}

pub fn is_whitespace(c: char) -> (r: bool)
    ensures
        r == is_ws(c),
{
    let u = c as u32;
    (0x09 <= u && u <= 0x0D) || u == 0x20 || u == 0x85 || u == 0xA0 || u == 0x1680
        || (0x2000 <= u && u <= 0x200A) || u == 0x2028 || u == 0x2029 || u == 0x202F
        || u == 0x205F || u == 0x3000
}

/// What `char::to_uppercase` yields for `c`: Unicode's full uppercase mapping.
pub uninterp spec fn upper_of(c: char) -> Seq<char>;

/// Relies on `char::to_uppercase`: the uppercase mapping of one character,
/// which depends on the character alone.
#[verifier::external_body]
fn char_to_upper(c: char) -> (r: String)
    ensures
        r@ == upper_of(c),
{
    c.to_uppercase().collect()
}

pub open spec fn is_key_sep(c: char) -> bool {
    c == '_' || is_ws(c)
}

/// Reading a key left to right: the title so far, whether a word is open,
/// and whether any word has been emitted.
pub open spec fn title_state(s: Seq<char>) -> (Seq<char>, bool, bool)
    decreases s.len(),
{
    if s.len() == 0 {
        (Seq::empty(), false, false)
    } else {
        let (out, in_word, any) = title_state(s.drop_last());
        let c = s.last();
        if is_key_sep(c) {
            (out, false, any)
        } else if in_word {
            (out.push(c), true, any)
        } else if any {
            (out.push(' ') + upper_of(c), true, true)
        } else {
            (out + upper_of(c), true, true)
        }
    }
}

/// The display title of a section key: underscores read as spaces, words
/// split on whitespace, each word's first character uppercased, words joined
/// by single spaces.
pub open spec fn title_of(key: Seq<char>) -> Seq<char> {
    title_state(key).0
}

pub fn section_title(key: &str) -> (r: String)
    ensures
        r@ == title_of(key@),
{
    let n = key.unicode_len();
    let mut out = String::new();
    let mut in_word = false;
    let mut any = false;
    let mut i: usize = 0;
    while i < n
        invariant
            n == key@.len(),
            i <= n,
            (out@, in_word, any) == title_state(key@.subrange(0, i as int)),
        decreases n - i,
    {
        let c = key.get_char(i);
        proof {
            assert(key@.subrange(0, i + 1).drop_last() =~= key@.subrange(0, i as int));
        }
        if c == '_' || is_whitespace(c) {
            in_word = false;
        } else if in_word {
            push_char(&mut out, c);
        } else {
            if any {
                push_char(&mut out, ' ');
            }
            let u = char_to_upper(c);
            out.append(u.as_str());
            in_word = true;
            any = true;
        }
        i += 1;
    }
    assert(key@.subrange(0, n as int) =~= key@);
    out
}

/// One rendered section: a level-two heading, a newline, the text.
pub open spec fn section_part(name: Seq<char>, text: Seq<char>) -> Seq<char> {
    "## "@ + name + seq!['\n'] + text
}

fn render_part(name: &str, text: &str) -> (r: String)
    ensures
        r@ == section_part(name@, text@),
{
    let mut out = String::from_str("## ");
    out.append(name);
    push_char(&mut out, '\n');
    out.append(text);
    out
}

/// The value under `key`: `None` when absent, `Some(None)` when not text.
pub open spec fn lookup(es: Seq<EntryView>, key: Seq<char>) -> Option<Option<Seq<char>>>
    decreases es.len(),
{
    if es.len() == 0 {
        None
    } else if es.last().0 == key {
        Some(es.last().1)
    } else {
        lookup(es.drop_last(), key)
    }
}

pub open spec fn in_schema(schema: Seq<SectionSpec>, key: Seq<char>) -> bool {
    exists|i: int| 0 <= i < schema.len() && (#[trigger] schema[i]).0 == key
}

/// Parts for the schema's sections, in schema order, for those present as text.
pub open spec fn schema_parts(schema: Seq<SectionSpec>, es: Seq<EntryView>) -> Seq<Seq<char>>
    decreases schema.len(),
{
    if schema.len() == 0 {
        Seq::empty()
    } else {
        let prev = schema_parts(schema.drop_last(), es);
        let d = schema.last();
        match lookup(es, d.0) {
            Some(Some(t)) => prev.push(section_part(d.1, t)),
            _ => prev,
        }
    }
}

/// Parts for the text entries whose keys the schema lacks, in entry order,
/// titled from their keys.
pub open spec fn extra_parts(schema: Seq<SectionSpec>, es: Seq<EntryView>) -> Seq<Seq<char>>
    decreases es.len(),
{
    if es.len() == 0 {
        Seq::empty()
    } else {
        let prev = extra_parts(schema, es.drop_last());
        let e = es.last();
        if !in_schema(schema, e.0) && e.1.is_some() {
            prev.push(section_part(title_of(e.0), e.1->0))
        } else {
            prev
        }
    }
}

/// The flattened text of a sections value for a page type: schema sections
/// first, in schema order, then the other keys in order; for a freeform type
/// all keys in order. Parts are separated by a blank line.
pub open spec fn flatten_sections(entries: Option<Seq<EntryView>>, t: PageType) -> Seq<char> {
    match entries {
        None => Seq::empty(),
        Some(es) => match schema_of(t) {
            Some(schema) => join(schema_parts(schema, es) + extra_parts(schema, es), "\n\n"@),
            None => join(extra_parts(Seq::empty(), es), "\n\n"@),
        },
    }
}

pub open spec fn sections_entries(s: Sections) -> Option<Seq<EntryView>> {
    match s.entries {
        Some(v) => Some(entries_view(v@)),
        None => None,
    }
}

pub(crate) fn lookup_entry<'a>(entries: &'a Vec<SectionEntry>, key: &str) -> (r: Option<Option<&'a String>>)
    ensures
        lookup(entries_view(entries@), key@) == match r {
            Some(Some(t)) => Some(Some(t@)),
            Some(None) => Some(None),
            None => None,
        },
{
    let mut found: Option<Option<&'a String>> = None;
    let mut i: usize = 0;
    while i < entries.len()
        invariant
            i <= entries@.len(),
            lookup(entries_view(entries@.subrange(0, i as int)), key@) == match found {
                Some(Some(t)) => Some(Some(t@)),
                Some(None) => Some(None),
                None => None::<Option<Seq<char>>>,
            },
        decreases entries@.len() - i,
    {
        proof {
            assert(entries_view(entries@.subrange(0, i + 1)).drop_last()
                =~= entries_view(entries@.subrange(0, i as int)));
        }
        let e = &entries[i];
        if str_eq(e.key.as_str(), key) {
            found = match &e.text {
                Some(t) => Some(Some(t)),
                None => Some(None),
            };
        }
        i += 1;
    }
    assert(entries@.subrange(0, entries@.len() as int) =~= entries@);
    found
}

pub(crate) fn key_in_schema(schema: &Vec<SectionDef>, key: &str) -> (r: bool)
    ensures
        r == in_schema(schema_view(schema@), key@),
{
    let mut i: usize = 0;
    while i < schema.len()
        invariant
            i <= schema@.len(),
            forall|j: int| 0 <= j < i ==> (#[trigger] schema@[j]).key@ != key@,
        decreases schema@.len() - i,
    {
        if str_eq(schema[i].key, key) {
            assert(schema_view(schema@)[i as int].0 == key@);
            return true;
        }
        i += 1;
    }
    proof {
        if in_schema(schema_view(schema@), key@) {
            let k = choose|k: int| 0 <= k < schema@.len() && (#[trigger] schema_view(schema@)[k]).0 == key@;
            assert(schema@[k].key@ == key@);
        }
    }
    false
}

/// Appends the parts of the entries whose keys `schema` lacks.
fn push_extra_parts(parts: &mut Vec<String>, schema: &Vec<SectionDef>, entries: &Vec<SectionEntry>)
    ensures
        crate::text::views(final(parts)@) == crate::text::views(old(parts)@)
            + extra_parts(schema_view(schema@), entries_view(entries@)),
{
    let ghost start = crate::text::views(parts@);
    let mut i: usize = 0;
    while i < entries.len()
        invariant
            i <= entries@.len(),
            crate::text::views(parts@) == start
                + extra_parts(schema_view(schema@), entries_view(entries@.subrange(0, i as int))),
        decreases entries@.len() - i,
    {
        proof {
            assert(entries_view(entries@.subrange(0, i + 1)).drop_last()
                =~= entries_view(entries@.subrange(0, i as int)));
        }
        let e = &entries[i];
        if !key_in_schema(schema, e.key.as_str()) {
            match &e.text {
                Some(t) => {
                    let title = section_title(e.key.as_str());
                    let part = render_part(title.as_str(), t.as_str());
                    let ghost before = parts@;
                    parts.push(part);
                    proof {
                        assert(crate::text::views(parts@) =~= crate::text::views(before).push(part@));
                    }
                },
                None => {},
            }
        }
        i += 1;
    }
    assert(entries@.subrange(0, entries@.len() as int) =~= entries@);
}

/// Flattens structured sections into markdown text for a page type.
pub fn sections_to_content(sections: &Sections, page_type: PageType) -> (r: String)
    ensures
        r@ == flatten_sections(sections_entries(*sections), page_type),
{
    let entries = match &sections.entries {
        Some(es) => es,
        None => return String::new(),
    };
    let mut parts: Vec<String> = Vec::new();
    match page_type.section_schema() {
        Some(schema) => {
            let mut i: usize = 0;
            while i < schema.len()
                invariant
                    i <= schema@.len(),
                    crate::text::views(parts@) == schema_parts(
                        schema_view(schema@.subrange(0, i as int)),
                        entries_view(entries@),
                    ),
                decreases schema@.len() - i,
            {
                proof {
                    assert(schema_view(schema@.subrange(0, i + 1)).drop_last()
                        =~= schema_view(schema@.subrange(0, i as int)));
                }
                let def = schema[i];
                match lookup_entry(entries, def.key) {
                    Some(Some(t)) => {
                        let part = render_part(def.name, t.as_str());
                        let ghost before = parts@;
                        parts.push(part);
                        proof {
                            assert(crate::text::views(parts@) =~= crate::text::views(before).push(part@));
                        }
                    },
                    _ => {},
                }
                i += 1;
            }
            assert(schema@.subrange(0, schema@.len() as int) =~= schema@);
            push_extra_parts(&mut parts, &schema, entries);
        },
        None => {
            let empty: Vec<SectionDef> = Vec::new();
            assert(schema_view(empty@) =~= Seq::<SectionSpec>::empty());
            push_extra_parts(&mut parts, &empty, entries);
            assert(crate::text::views(parts@) =~= extra_parts(Seq::empty(), entries_view(entries@)));
        },
    }
    join_strings(&parts, "\n\n")
}

/// The warning for a key that the type's schema does not know.
pub open spec fn unknown_warning(key: Seq<char>, t: PageType) -> Seq<char> {
    "Warning: unknown section '"@ + key + "' for page type '"@ + page_type_name(t) + "'"@
}

/// The warning for a required section that is absent.
pub open spec fn missing_warning(key: Seq<char>, t: PageType) -> Seq<char> {
    "Warning: missing required section '"@ + key + "' for page type '"@ + page_type_name(t) + "'"@
}

pub open spec fn unknown_warnings(schema: Seq<SectionSpec>, es: Seq<EntryView>, t: PageType) -> Seq<Seq<char>>
    decreases es.len(),
{
    if es.len() == 0 {
        Seq::empty()
    } else {
        let prev = unknown_warnings(schema, es.drop_last(), t);
        if !in_schema(schema, es.last().0) {
            prev.push(unknown_warning(es.last().0, t))
        } else {
            prev
        }
    }
}

pub open spec fn missing_warnings(schema: Seq<SectionSpec>, es: Seq<EntryView>, t: PageType) -> Seq<Seq<char>>
    decreases schema.len(),
{
    if schema.len() == 0 {
        Seq::empty()
    } else {
        let prev = missing_warnings(schema.drop_last(), es, t);
        let d = schema.last();
        if d.2 && lookup(es, d.0).is_none() {
            prev.push(missing_warning(d.0, t))
        } else {
            prev
        }
    }
}

/// The warnings about sections given for a typed page: each key the
/// schema does not know, in key order, then each required section that is
/// absent, in schema order. Freeform types and non-object sections give none.
pub open spec fn section_warnings_of(entries: Option<Seq<EntryView>>, t: PageType) -> Seq<Seq<char>> {
    match (schema_of(t), entries) {
        (Some(schema), Some(es)) => unknown_warnings(schema, es, t) + missing_warnings(schema, es, t),
        _ => Seq::empty(),
    }
}

fn warning_text(before: &str, key: &str, t: PageType) -> (r: String)
    ensures
        r@ == before@ + key@ + "' for page type '"@ + page_type_name(t) + "'"@,
{
    let mut w = String::from_str(before);
    w.append(key);
    w.append("' for page type '");
    w.append(t.as_str());
    w.append("'");
    w
}

/// The warnings to report before creating a page with these sections; they
/// never prevent the creation.
pub fn section_warnings(sections: &Sections, page_type: PageType) -> (r: Vec<String>)
    ensures
        crate::text::views(r@) == section_warnings_of(sections_entries(*sections), page_type),
{
    let mut out: Vec<String> = Vec::new();
    let entries = match &sections.entries {
        Some(es) => es,
        None => {
            assert(crate::text::views(out@) =~= Seq::<Seq<char>>::empty());
            return out;
        },
    };
    let schema = match page_type.section_schema() {
        Some(s) => s,
        None => {
            assert(crate::text::views(out@) =~= Seq::<Seq<char>>::empty());
            return out;
        },
    };
    let ghost sv = schema_view(schema@);
    let ghost ev = entries_view(entries@);
    let mut i: usize = 0;
    while i < entries.len()
        invariant
            i <= entries@.len(),
            sv == schema_view(schema@),
            ev == entries_view(entries@),
            crate::text::views(out@) == unknown_warnings(sv, entries_view(entries@.subrange(0, i as int)), page_type),
        decreases entries@.len() - i,
    {
        assert(entries_view(entries@.subrange(0, i + 1)).drop_last() =~= entries_view(entries@.subrange(0, i as int)));
        let key = entries[i].key.as_str();
        if !key_in_schema(&schema, key) {
            let w = warning_text("Warning: unknown section '", key, page_type);
            let ghost before = out@;
            out.push(w);
            assert(crate::text::views(out@) =~= crate::text::views(before).push(w@));
        }
        i += 1;
    }
    assert(entries@.subrange(0, entries@.len() as int) =~= entries@);
    let ghost unknown = crate::text::views(out@);
    let mut j: usize = 0;
    while j < schema.len()
        invariant
            j <= schema@.len(),
            sv == schema_view(schema@),
            ev == entries_view(entries@),
            crate::text::views(out@) == unknown + missing_warnings(schema_view(schema@.subrange(0, j as int)), ev, page_type),
        decreases schema@.len() - j,
    {
        assert(schema_view(schema@.subrange(0, j + 1)).drop_last() =~= schema_view(schema@.subrange(0, j as int)));
        let def = schema[j];
        if def.required && lookup_entry(entries, def.key).is_none() {
            let w = warning_text("Warning: missing required section '", def.key, page_type);
            let ghost before = out@;
            out.push(w);
            assert(crate::text::views(out@) =~= crate::text::views(before).push(w@));
        }
        j += 1;
    }
    assert(schema@.subrange(0, schema@.len() as int) =~= schema@);
    out
}

/// Declares serde_json's dynamic JSON value.
#[verifier::external_type_specification]
#[verifier::external_body]
pub struct ExJsonValue(serde_json::Value);

/// Declares serde_json's error type.
#[verifier::external_type_specification]
#[verifier::external_body]
pub struct ExJsonError(serde_json::Error);

/// Relies on `serde_json::from_str`: parses JSON text into a value.
#[verifier::external_body]
fn parse_json(text: &str) -> (r: Result<serde_json::Value, serde_json::Error>) {
    serde_json::from_str(text)
}

/// Relies on the `Display` of `serde_json::Value`: its compact JSON text.
#[verifier::external_body]
fn json_text(v: &serde_json::Value) -> (r: String) {
    v.to_string()
}

/// Relies on the `Display` of `serde_json::Error`: its message.
#[verifier::external_body]
fn json_error_text(e: &serde_json::Error) -> (r: String) {
    e.to_string()
}

/// Relies on `serde_json::Value::as_object`, the iteration of
/// `serde_json::Map` and `Value::as_str`: the members of an object, each key
/// with its value's text if the value is a string. The map is a `BTreeMap`
/// (the crate's `preserve_order` feature is off), so keys come ascending.
#[verifier::external_body]
fn object_entries(v: &serde_json::Value) -> (r: Option<Vec<SectionEntry>>)
    ensures
        r.is_some() ==> keys_ascending(entries_view(r->0@)),
{
    v.as_object().map(|o| {
        o.iter().map(|(k, x)| SectionEntry { key: k.clone(), text: x.as_str().map(String::from) }).collect()
    })
}

impl Sections {
    /// Parses sections from JSON text; text that is not JSON is `InvalidInput`.
    pub fn from_json(text: &str) -> (r: Result<Sections, crate::error::KbError>)
        ensures
            r is Ok ==> r->Ok_0.wf(),
            r is Err ==> r->Err_0 is InvalidInput,
    {
        match parse_json(text) {
            Ok(v) => Ok(Sections { entries: object_entries(&v), json: json_text(&v) }),
            Err(e) => {
                let mut msg = String::from_str("Invalid sections JSON: ");
                let detail = json_error_text(&e);
                msg.append(detail.as_str());
                Err(crate::error::KbError::InvalidInput(msg))
            },
        }
    }

    /// A copy with the same entries and JSON text.
    pub fn duplicate(&self) -> (r: Sections)
        ensures
            sections_entries(r) == sections_entries(*self),
            r.json@ == self.json@,
    {
        let entries = match &self.entries {
            Some(es) => {
                let mut out: Vec<SectionEntry> = Vec::new();
                let mut i: usize = 0;
                while i < es.len()
                    invariant
                        i <= es@.len(),
                        entries_view(out@) == entries_view(es@.subrange(0, i as int)),
                    decreases es@.len() - i,
                {
                    let e = &es[i];
                    let text = match &e.text {
                        Some(t) => Some(t.clone()),
                        None => None,
                    };
                    let ghost before = out@;
                    out.push(SectionEntry { key: e.key.clone(), text });
                    assert(entries_view(out@) =~= entries_view(es@.subrange(0, i + 1))) by {
                        assert(entries_view(out@) =~= entries_view(before).push(entry_view(es@[i as int])));
                        assert(es@.subrange(0, i + 1) =~= es@.subrange(0, i as int).push(es@[i as int]));
                    }
                    i += 1;
                }
                assert(es@.subrange(0, es@.len() as int) =~= es@);
                Some(out)
            },
            None => None,
        };
        Sections { entries, json: self.json.clone() }
    }

    /// The text of the entry under `key`, if it is present and a JSON string.
    pub fn get_text(&self, key: &str) -> (r: Option<String>)
        ensures
            r.is_some() <==> (self.entries.is_some()
                && lookup(entries_view(self.entries->0@), key@) matches Some(Some(_))),
            r.is_some() ==> lookup(entries_view(self.entries->0@), key@) == Some(Some(r->0@)),
    {
        match &self.entries {
            Some(es) => match lookup_entry(es, key) {
                Some(Some(t)) => Some(t.clone()),
                _ => None,
            },
            None => None,
        }
    }
}

/// A document of a space.
#[derive(Debug, Clone)]
pub struct Page {
    pub id: String,
    pub space_id: String,
    pub parent_id: Option<String>,
    pub title: String,
    pub page_type: PageType,
    pub content: String,
    pub sections: Option<Sections>,
    pub created_by_user: String,
    pub created_by_agent: String,
    pub created_at: String,
    pub updated_at: String,
    pub version: i64,
    /// Labels of the page, read from their own table.
    pub labels: Vec<String>,
}

/// A typed, directed edge between two pages.
#[derive(Debug, Clone)]
pub struct Link {
    pub source_id: String,
    pub target_id: String,
    pub relation: LinkRelation,
    pub created_at: String,
    pub updated_at: String,
}

/// A page found by a search, with the excerpt that shows the match.
#[derive(Debug, Clone)]
pub struct SearchResult {
    pub page: Page,
    pub excerpt: String,
}

/// Who performs an operation: a user and the agent acting for them.
#[derive(Debug, Clone)]
pub struct AgentIdentity {
    pub user: String,
    pub agent: String,
}

/// The identity of a caller from what it states: the user given by flag,
/// else by the store's own variable, else the login name, else "unknown";
/// the agent given by flag, else by variable, else "unknown".
pub fn resolve_identity(
    flag_user: Option<String>,
    env_kb_user: Option<String>,
    env_user: Option<String>,
    flag_agent: Option<String>,
    env_kb_agent: Option<String>,
) -> (r: AgentIdentity)
    ensures
        r.user@ == match (flag_user, env_kb_user, env_user) {
            (Some(u), _, _) => u@,
            (None, Some(u), _) => u@,
            (None, None, Some(u)) => u@,
            (None, None, None) => "unknown"@,
        },
        r.agent@ == match (flag_agent, env_kb_agent) {
            (Some(a), _) => a@,
            (None, Some(a)) => a@,
            (None, None) => "unknown"@,
        },
{
    let user = match flag_user {
        Some(u) => u,
        None => match env_kb_user {
            Some(u) => u,
            None => match env_user {
                Some(u) => u,
                None => String::from_str("unknown"),
            },
        },
    };
    let agent = match flag_agent {
        Some(a) => a,
        None => match env_kb_agent {
            Some(a) => a,
            None => String::from_str("unknown"),
        },
    };
    AgentIdentity { user, agent }
}

/// Parsing the name of a page type gives the type back.
pub proof fn lemma_page_type_round_trip(t: PageType)
    ensures
        page_type_named(page_type_name(t)) == Some(t),
{
    reveal_strlit("decision");
    reveal_strlit("architecture");
    reveal_strlit("session-log");
    reveal_strlit("reference");
    reveal_strlit("troubleshooting");
    reveal_strlit("runbook");
    assert("decision"@.len() == 8);
    assert("architecture"@.len() == 12);
    assert("session-log"@.len() == 11);
    assert("reference"@.len() == 9);
    assert("troubleshooting"@.len() == 15);
    assert("runbook"@.len() == 7);
}

/// Parsing the name of a relation gives the relation back.
pub proof fn lemma_relation_round_trip(r: LinkRelation)
    ensures
        relation_named(relation_name(r)) == Some(r),
{
    reveal_strlit("relates-to");
    reveal_strlit("supersedes");
    reveal_strlit("depends-on");
    reveal_strlit("elaborates");
    assert("relates-to"@[0] == 'r');
    assert("supersedes"@[0] == 's');
    assert("depends-on"@[0] == 'd');
    assert("elaborates"@[0] == 'e');
}

} // verus!
