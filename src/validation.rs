//! Shape checks on caller input: lengths, and the alphabet of slugs.

use vstd::prelude::*;
use vstd::string::*;
use crate::error::KbError;
use crate::models::{page_type_named, relation_named, LinkRelation, PageType};
use crate::edit::{trim, trim_ws};
use crate::text::{from_chars, to_chars, views};

verus! {

pub const MAX_SLUG_LEN: usize = 128;
pub const MAX_TITLE_LEN: usize = 500;
pub const MAX_BODY_LEN: usize = 10_000_000;
pub const MAX_LABEL_LEN: usize = 100;
pub const MAX_LABELS_COUNT: usize = 50;
pub const MAX_SECTIONS_LEN: usize = 10_000_000;
pub const MAX_NAME_LEN: usize = 256;
pub const MAX_DESCRIPTION_LEN: usize = 2000;

/// The number of bytes that `str::len` reports for a string of these characters.
pub open spec fn byte_len(s: Seq<char>) -> usize {
    vstd::utf8::encode_utf8(s).len() as usize
}

pub open spec fn is_slug_char(c: char) -> bool {
    ('a' <= c && c <= 'z') || ('0' <= c && c <= '9') || c == '-' || c == '_'
}

/// A slug: non-empty, at most `MAX_SLUG_LEN` bytes, starting with a lowercase
/// ASCII letter, made of lowercase letters, digits, `-` and `_`.
pub open spec fn valid_slug(slug: &str) -> bool {
    &&& slug@.len() > 0
    &&& slug.len() <= MAX_SLUG_LEN
    &&& 'a' <= slug@[0] && slug@[0] <= 'z'
    &&& forall|i: int| 0 <= i < slug@.len() ==> is_slug_char(#[trigger] slug@[i])
}

fn invalid(msg: &str) -> (e: KbError)
    ensures
        e is InvalidInput,
{
    KbError::InvalidInput(msg.to_string())
}

pub fn validate_slug(slug: &str) -> (r: Result<(), KbError>)
    ensures
        r is Ok <==> valid_slug(slug),
        r is Err ==> r->Err_0 is InvalidInput,
{
    if slug.is_empty() {
        return Err(invalid("Slug must not be empty"));
    }
    if slug.len() > MAX_SLUG_LEN {
        return Err(invalid("Slug too long (max 128 characters)"));
    }
    let n = slug.unicode_len();
    let first = slug.get_char(0);
    if !('a' <= first && first <= 'z') {
        return Err(invalid("Slug must start with a lowercase letter"));
    }
    let mut i: usize = 0;
    while i < n
        invariant
            n == slug@.len(),
            i <= n,
            forall|j: int| 0 <= j < i ==> is_slug_char(#[trigger] slug@[j]),
        decreases n - i,
    {
        let c = slug.get_char(i);
        if !(('a' <= c && c <= 'z') || ('0' <= c && c <= '9') || c == '-' || c == '_') {
            return Err(invalid(
                "Slug must contain only lowercase letters, digits, hyphens, and underscores",
            ));
        }
        i += 1;
    }
    Ok(())
}

pub fn validate_title(title: &str) -> (r: Result<(), KbError>)
    ensures
        r is Ok <==> (title@.len() > 0 && title.len() <= MAX_TITLE_LEN),
        r is Err ==> r->Err_0 is InvalidInput,
{
    if title.is_empty() {
        return Err(invalid("Title must not be empty"));
    }
    if title.len() > MAX_TITLE_LEN {
        return Err(invalid("Title too long (max 500 characters)"));
    }
    Ok(())
}

pub fn validate_body(body: &str) -> (r: Result<(), KbError>)
    ensures
        r is Ok <==> body.len() <= MAX_BODY_LEN,
        r is Err ==> r->Err_0 is InvalidInput,
{
    if body.len() > MAX_BODY_LEN {
        return Err(invalid("Body too long (max 10000000 bytes)"));
    }
    Ok(())
}

/// At most `MAX_LABELS_COUNT` labels, none longer than `MAX_LABEL_LEN` bytes.
pub open spec fn valid_labels(labels: Seq<String>) -> bool {
    &&& labels.len() <= MAX_LABELS_COUNT
    &&& forall|i: int| 0 <= i < labels.len() ==> byte_len((#[trigger] labels[i])@) <= MAX_LABEL_LEN
}

pub fn validate_labels(labels: &[String]) -> (r: Result<(), KbError>)
    ensures
        r is Ok <==> valid_labels(labels@),
        r is Err ==> r->Err_0 is InvalidInput,
{
    if labels.len() > MAX_LABELS_COUNT {
        return Err(invalid("Too many labels (max 50)"));
    }
    let mut i: usize = 0;
    while i < labels.len()
        invariant
            i <= labels@.len(),
            forall|j: int| 0 <= j < i ==> byte_len((#[trigger] labels@[j])@) <= MAX_LABEL_LEN,
        decreases labels@.len() - i,
    {
        let label = &labels[i];
        if label.as_str().len() > MAX_LABEL_LEN {
            let mut msg = String::from_str("Label '");
            msg.append(label.as_str());
            msg.append("' too long (max 100 characters)");
            return Err(KbError::InvalidInput(msg));
        }
        i += 1;
    }
    Ok(())
}

pub fn validate_sections_json(json_str: &str) -> (r: Result<(), KbError>)
    ensures
        r is Ok <==> json_str.len() <= MAX_SECTIONS_LEN,
        r is Err ==> r->Err_0 is InvalidInput,
{
    if json_str.len() > MAX_SECTIONS_LEN {
        return Err(invalid("Sections JSON too long (max 10000000 bytes)"));
    }
    Ok(())
}

pub fn validate_name(name: &str) -> (r: Result<(), KbError>)
    ensures
        r is Ok <==> name.len() <= MAX_NAME_LEN,
        r is Err ==> r->Err_0 is InvalidInput,
{
    if name.len() > MAX_NAME_LEN {
        return Err(invalid("Name too long (max 256 characters)"));
    }
    Ok(())
}

pub fn validate_description(desc: &str) -> (r: Result<(), KbError>)
    ensures
        r is Ok <==> desc.len() <= MAX_DESCRIPTION_LEN,
        r is Err ==> r->Err_0 is InvalidInput,
{
    if desc.len() > MAX_DESCRIPTION_LEN {
        return Err(invalid("Description too long (max 2000 characters)"));
    }
    Ok(())
}

/// Parses a page type name; an unknown name is `InvalidInput`.
pub fn parse_page_type(s: &str) -> (r: Result<PageType, KbError>)
    ensures
        r is Ok <==> page_type_named(s@).is_some(),
        r is Ok ==> Some(r->Ok_0) == page_type_named(s@),
        r is Err ==> r->Err_0 is InvalidInput,
{
    match PageType::from_str(s) {
        Some(t) => Ok(t),
        None => {
            let mut msg = String::from_str("Unknown page type '");
            msg.append(s);
            msg.append("'. Valid types: decision, architecture, session-log, reference, troubleshooting, runbook");
            Err(KbError::InvalidInput(msg))
        },
    }
}

/// Parses a link relation name; an unknown name is `InvalidInput`.
pub fn parse_link_relation(s: &str) -> (r: Result<LinkRelation, KbError>)
    ensures
        r is Ok <==> relation_named(s@).is_some(),
        r is Ok ==> Some(r->Ok_0) == relation_named(s@),
        r is Err ==> r->Err_0 is InvalidInput,
{
    match LinkRelation::from_str(s) {
        Some(rel) => Ok(rel),
        None => {
            let mut msg = String::from_str("Unknown relation '");
            msg.append(s);
            msg.append("'. Valid relations: relates-to, supersedes, depends-on, elaborates");
            Err(KbError::InvalidInput(msg))
        },
    }
}

/// Reading a comma-separated list left to right: the pieces completed so
/// far and the piece being read.
pub open spec fn pieces_state(s: Seq<char>) -> (Seq<Seq<char>>, Seq<char>)
    decreases s.len(),
{
    if s.len() == 0 {
        (Seq::empty(), Seq::empty())
    } else {
        let (done, cur) = pieces_state(s.drop_last());
        if s.last() == ',' {
            (done.push(cur), Seq::empty())
        } else {
            (done, cur.push(s.last()))
        }
    }
}

/// The trimmed, non-empty pieces.
pub open spec fn kept_pieces(ps: Seq<Seq<char>>) -> Seq<Seq<char>>
    decreases ps.len(),
{
    if ps.len() == 0 {
        Seq::empty()
    } else {
        let prev = kept_pieces(ps.drop_last());
        let t = trim_ws(ps.last());
        if t.len() > 0 {
            prev.push(t)
        } else {
            prev
        }
    }
}

/// The labels of a comma-separated list: each piece trimmed, empty pieces
/// left out.
pub open spec fn label_list(s: Seq<char>) -> Seq<Seq<char>> {
    let (done, cur) = pieces_state(s);
    kept_pieces(done.push(cur))
}

fn keep_piece(labels: &mut Vec<String>, piece: &Vec<char>)
    ensures
        views(final(labels)@) == if trim_ws(piece@).len() > 0 {
            views(old(labels)@).push(trim_ws(piece@))
        } else {
            views(old(labels)@)
        },
{
    let text = from_chars(piece.as_slice());
    let t = trim(text.as_str());
    if !t.as_str().is_empty() {
        let ghost before = labels@;
        labels.push(t);
        assert(views(labels@) =~= views(before).push(t@));
    }
}

/// Splits a comma-separated label list.
pub fn parse_label_list(s: &str) -> (r: Vec<String>)
    ensures
        views(r@) == label_list(s@),
{
    let chars = to_chars(s);
    let mut labels: Vec<String> = Vec::new();
    let mut cur: Vec<char> = Vec::new();
    let ghost mut done: Seq<Seq<char>> = Seq::empty();
    let mut i: usize = 0;
    while i < chars.len()
        invariant
            chars@ == s@,
            i <= chars@.len(),
            (done, cur@) == pieces_state(s@.subrange(0, i as int)),
            views(labels@) == kept_pieces(done),
        decreases chars@.len() - i,
    {
        assert(s@.subrange(0, i + 1).drop_last() =~= s@.subrange(0, i as int));
        let c = chars[i];
        if c == ',' {
            keep_piece(&mut labels, &cur);
            proof {
                assert(done.push(cur@).drop_last() =~= done);
                done = done.push(cur@);
            }
            cur = Vec::new();
        } else {
            cur.push(c);
        }
        i += 1;
    }
    assert(s@.subrange(0, s@.len() as int) =~= s@);
    keep_piece(&mut labels, &cur);
    assert(done.push(cur@).drop_last() =~= done);
    labels
}

} // verus!
