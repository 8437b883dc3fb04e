//! The edit session: what the scratch file is read back as, whether an edit
//! is saved, how it is saved under the version protocol, and what the
//! content pane then shows.
//!
//! The event loop owns the terminal and the editor process; it hands this
//! module the snapshot taken when the edit was prepared, the editor's exit
//! status, and the text of the scratch file before and after.

use vstd::prelude::*;
use vstd::string::*;
use crate::app::{label_file_of, label_list_of, App, EditSnapshot};
use crate::error::KbError;
use crate::models::{is_whitespace, is_ws};
use crate::repo::{add_label, set_labels, update_page};
use crate::text::{
    decimal, decimal_of, lines_of, lines_state, slice_chars, split_lines, str_eq, strip_cr, to_chars, views,
};

verus! {

/// The label added to a page after a person saved an edit of it.
pub const AUDIT_LABEL: &'static str = "human-edited";

/// What an edit session changes: the page's content or its label set.
#[derive(Debug, Clone, Copy, PartialEq, Eq, Structural)]
pub enum EditKind {
    Content,
    Labels,
}

/// `s` without leading and trailing whitespace, as `str::trim` gives it.
pub open spec fn trim_ws(s: Seq<char>) -> Seq<char>
    decreases s.len(),
{
    if s.len() > 0 && is_ws(s[0]) {
        trim_ws(s.drop_first())
    } else if s.len() > 0 && is_ws(s.last()) {
        trim_ws(s.drop_last())
    } else {
        s
    }
}

/// The labels listed by lines of a label file: each line trimmed, empty
/// lines and lines starting with `#` left out.
pub open spec fn labels_from_lines(ls: Seq<Seq<char>>) -> Seq<Seq<char>>
    decreases ls.len(),
{
    if ls.len() == 0 {
        Seq::empty()
    } else {
        let prev = labels_from_lines(ls.drop_last());
        let t = trim_ws(ls.last());
        if t.len() > 0 && t[0] != '#' {
            prev.push(t)
        } else {
            prev
        }
    }
}

pub fn trim(s: &str) -> (r: String)
    ensures
        r@ == trim_ws(s@),
{
    let v = to_chars(s);
    let mut start: usize = 0;
    let mut end: usize = v.len();
    assert(v@.subrange(0, v@.len() as int) =~= v@);
    while start < end && is_whitespace(v[start])
        invariant
            v@ == s@,
            start <= end == v@.len(),
            trim_ws(v@.subrange(start as int, end as int)) == trim_ws(v@),
        decreases end - start,
    {
        assert(v@.subrange(start as int, end as int).drop_first() =~= v@.subrange(start + 1, end as int));
        start += 1;
    }
    while start < end && is_whitespace(v[end - 1])
        invariant
            v@ == s@,
            start <= end <= v@.len(),
            trim_ws(v@.subrange(start as int, end as int)) == trim_ws(v@),
            start < end ==> !is_ws(v@[start as int]),
        decreases end - start,
    {
        assert(v@.subrange(start as int, end as int).drop_last() =~= v@.subrange(start as int, end - 1));
        end -= 1;
    }
    slice_chars(&v, start, end)
}

/// The labels of an edited label file, in file order.
pub fn parse_label_lines(text: &str) -> (r: Vec<String>)
    ensures
        views(r@) == labels_from_lines(lines_of(text@)),
{
    let lines = split_lines(text);
    let mut labels: Vec<String> = Vec::new();
    let mut i: usize = 0;
    while i < lines.len()
        invariant
            i <= lines@.len(),
            views(lines@) == lines_of(text@),
            views(labels@) == labels_from_lines(views(lines@).subrange(0, i as int)),
        decreases lines@.len() - i,
    {
        assert(views(lines@).subrange(0, i + 1).drop_last() =~= views(lines@).subrange(0, i as int));
        let t = trim(lines[i].as_str());
        if !t.as_str().is_empty() && t.as_str().get_char(0) != '#' {
            let ghost before = labels@;
            labels.push(t);
            assert(views(labels@) =~= views(before).push(t@));
        }
        i += 1;
    }
    assert(views(lines@).subrange(0, lines@.len() as int) =~= views(lines@));
    labels
}

/// Whether an edit is saved: only when the editor succeeded and the file
/// differs from what was written.
pub open spec fn edit_changed(editor_ok: bool, written: Seq<char>, edited: Seq<char>) -> bool {
    editor_ok && written != edited
}

pub fn should_save(editor_ok: bool, written: &str, edited: &str) -> (r: bool)
    ensures
        r == edit_changed(editor_ok, written@, edited@),
{
    editor_ok && !str_eq(written, edited)
}

/// Saves an edit. Content goes through a write checked against the version
/// of the snapshot; labels replace the label set unchecked. After a save the
/// audit label is added, whose own failure is not reported.
pub fn save_edit(conn: &rusqlite::Connection, snapshot: &EditSnapshot, kind: EditKind, edited: &str) -> (r: Result<(), KbError>)
    ensures
        r matches Err(KbError::VersionConflict { expected, .. }) ==> kind == EditKind::Content
            && expected == snapshot.version,
        kind == EditKind::Labels && r is Err ==> (r->Err_0 is NotFound || r->Err_0 is Db),
{
    match kind {
        EditKind::Content => {
            update_page(conn, snapshot.page_id.as_str(), None, Some(edited), None, Some(snapshot.version))?;
        },
        EditKind::Labels => {
            let labels = parse_label_lines(edited);
            set_labels(conn, snapshot.page_id.as_str(), labels.as_slice())?;
        },
    }
    let _ = add_label(conn, snapshot.page_id.as_str(), AUDIT_LABEL);
    Ok(())
}

/// The content pane after a content edit lost the race.
pub open spec fn conflict_lines(expected: i64, actual: i64) -> Seq<Seq<char>> {
    seq![
        "Edit conflict: expected version "@ + decimal_of(expected as int) + ", page is now version "@
            + decimal_of(actual as int) + ". Your changes were NOT saved."@,
        "Re-select the page and try again."@,
    ]
}

fn conflict_message(expected: i64, actual: i64) -> (r: Vec<String>)
    ensures
        views(r@) == conflict_lines(expected, actual),
{
    let mut first = String::from_str("Edit conflict: expected version ");
    let e = decimal(expected);
    first.append(e.as_str());
    first.append(", page is now version ");
    let a = decimal(actual);
    first.append(a.as_str());
    first.append(". Your changes were NOT saved.");
    let r = vec![first, String::from_str("Re-select the page and try again.")];
    assert(views(r@) =~= conflict_lines(expected, actual));
    r
}

/// Shows the outcome of a save. A success reloads the view; a version
/// conflict replaces the content pane with the conflict message and nothing
/// else; any other failure replaces it with the error's message. Only a
/// failed reload is returned.
pub fn report_save(app: &mut App, conn: &rusqlite::Connection, kind: EditKind, saved: Result<(), KbError>) -> (r: Result<(), KbError>)
    ensures
        saved matches Err(KbError::VersionConflict { expected, actual }) ==> r is Ok
            && views(final(app).content_lines@) == conflict_lines(expected, actual)
            && final(app).nav_state == old(app).nav_state
            && final(app).items == old(app).items
            && final(app).cursor == old(app).cursor,
        saved is Err && !(saved->Err_0 is VersionConflict) ==> r is Ok
            && final(app).content_lines@.len() == 1
            && final(app).nav_state == old(app).nav_state
            && final(app).items == old(app).items,
        saved is Ok ==> final(app).nav_state == old(app).nav_state,
        final(app).running == old(app).running,
        old(app).cursor_ok() ==> final(app).cursor_ok(),
{
    match saved {
        Ok(()) => app.load_items(conn),
        Err(KbError::VersionConflict { expected, actual }) => {
            app.content_lines = conflict_message(expected, actual);
            Ok(())
        },
        Err(e) => {
            let mut line = match kind {
                EditKind::Content => String::from_str("Error saving: "),
                EditKind::Labels => String::from_str("Error saving labels: "),
            };
            let m = e.message();
            line.append(m.as_str());
            app.content_lines = vec![line];
            Ok(())
        },
    }
}

/// Reconciles a finished editor run: nothing happens unless the editor
/// succeeded and the file changed; otherwise the edit is saved and the
/// outcome shown (see [`report_save`]).
pub fn finish_edit(
    app: &mut App,
    conn: &rusqlite::Connection,
    snapshot: &EditSnapshot,
    kind: EditKind,
    editor_ok: bool,
    written: &str,
    edited: &str,
) -> (r: Result<(), KbError>)
    ensures
        !edit_changed(editor_ok, written@, edited@) ==> r is Ok && *final(app) == *old(app),
        final(app).nav_state == old(app).nav_state,
        final(app).running == old(app).running,
        old(app).cursor_ok() ==> final(app).cursor_ok(),
{
    if !should_save(editor_ok, written, edited) {
        return Ok(());
    }
    let saved = save_edit(conn, snapshot, kind, edited);
    report_save(app, conn, kind, saved)
}

/// Shows that the editor could not be started.
pub fn report_launch_failure(app: &mut App, editor: &str, detail: &str)
    ensures
        views(final(app).content_lines@) == seq!["Failed to launch editor '"@ + editor@ + "': "@ + detail@],
        final(app).nav_state == old(app).nav_state,
        final(app).items == old(app).items,
        final(app).cursor == old(app).cursor,
        final(app).running == old(app).running,
{
    let mut line = String::from_str("Failed to launch editor '");
    line.append(editor);
    line.append("': ");
    line.append(detail);
    let ghost l = line@;
    app.content_lines = vec![line];
    assert(views(app.content_lines@) =~= seq![l]);
}

pub open spec fn no_newline(s: Seq<char>) -> bool {
    forall|i: int| 0 <= i < s.len() ==> s[i] != '\n'
}

/// A label that a label file carries unchanged: one line, non-empty, without
/// surrounding whitespace, not starting with `#`.
pub open spec fn is_plain_label(l: Seq<char>) -> bool {
    &&& l.len() > 0
    &&& l[0] != '#'
    &&& trim_ws(l) == l
    &&& no_newline(l)
}

proof fn lemma_lines_state_append(a: Seq<char>, b: Seq<char>)
    requires
        lines_state(a).1.len() == 0,
    ensures
        lines_state(a + b) == (lines_state(a).0 + lines_state(b).0, lines_state(b).1),
    decreases b.len(),
{
    if b.len() == 0 {
        assert(a + b =~= a);
        assert(lines_state(a).1 =~= Seq::<char>::empty());
        assert(lines_state(a).0 + Seq::<Seq<char>>::empty() =~= lines_state(a).0);
    } else {
        lemma_lines_state_append(a, b.drop_last());
        assert((a + b).drop_last() =~= a + b.drop_last());
        let (d, c) = lines_state(b.drop_last());
        assert((lines_state(a).0 + d).push(strip_cr(c)) =~= lines_state(a).0 + d.push(strip_cr(c)));
    }
}

proof fn lemma_lines_state_one_line(l: Seq<char>)
    requires
        no_newline(l),
    ensures
        lines_state(l) == (Seq::<Seq<char>>::empty(), l),
    decreases l.len(),
{
    if l.len() == 0 {
        assert(l =~= Seq::<char>::empty());
    } else {
        lemma_lines_state_one_line(l.drop_last());
        assert(l.drop_last().push(l.last()) =~= l);
    }
}

proof fn lemma_lines_state_line(l: Seq<char>)
    requires
        no_newline(l),
    ensures
        lines_state(l + seq!['\n']) == (seq![strip_cr(l)], Seq::<char>::empty()),
{
    lemma_lines_state_one_line(l);
    assert((l + seq!['\n']).drop_last() =~= l);
    assert(Seq::<Seq<char>>::empty().push(strip_cr(l)) =~= seq![strip_cr(l)]);
}

proof fn lemma_trim_keeps_first(s: Seq<char>)
    requires
        s.len() > 0,
        !is_ws(s[0]),
    ensures
        trim_ws(s).len() > 0,
        trim_ws(s)[0] == s[0],
    decreases s.len(),
{
    if s.len() > 1 && is_ws(s.last()) {
        lemma_trim_keeps_first(s.drop_last());
    }
}

proof fn lemma_label_list_lines(labels: Seq<Seq<char>>)
    requires
        forall|i: int| 0 <= i < labels.len() ==> is_plain_label(#[trigger] labels[i]),
    ensures
        lines_state(label_list_of(labels)) == (labels, Seq::<char>::empty()),
    decreases labels.len(),
{
    if labels.len() == 0 {
        assert(label_list_of(labels) =~= Seq::<char>::empty());
        assert(labels =~= Seq::<Seq<char>>::empty());
    } else {
        let prev = labels.drop_last();
        let l = labels.last();
        assert(is_plain_label(labels[labels.len() - 1]));
        lemma_label_list_lines(prev);
        lemma_lines_state_line(l);
        assert(label_list_of(prev) + l + seq!['\n'] =~= label_list_of(prev) + (l + seq!['\n']));
        lemma_lines_state_append(label_list_of(prev), l + seq!['\n']);
        assert(!is_ws(l.last())) by {
            if is_ws(l.last()) {
                if is_ws(l[0]) {
                    lemma_trim_shorter(l.drop_first());
                } else {
                    lemma_trim_shorter(l.drop_last());
                }
            }
        }
        assert(strip_cr(l) == l);
        assert(prev + seq![l] =~= labels);
    }
}

proof fn lemma_trim_shorter(s: Seq<char>)
    ensures
        trim_ws(s).len() <= s.len(),
    decreases s.len(),
{
    if s.len() > 0 && is_ws(s[0]) {
        lemma_trim_shorter(s.drop_first());
    } else if s.len() > 0 && is_ws(s.last()) {
        lemma_trim_shorter(s.drop_last());
    }
}

proof fn lemma_labels_from_lines_append(pre: Seq<Seq<char>>, ls: Seq<Seq<char>>)
    ensures
        labels_from_lines(pre + ls) == labels_from_lines(pre) + labels_from_lines(ls),
    decreases ls.len(),
{
    if ls.len() == 0 {
        assert(pre + ls =~= pre);
        assert(labels_from_lines(pre) + Seq::<Seq<char>>::empty() =~= labels_from_lines(pre));
    } else {
        lemma_labels_from_lines_append(pre, ls.drop_last());
        assert((pre + ls).drop_last() =~= pre + ls.drop_last());
        let t = trim_ws(ls.last());
        assert((labels_from_lines(pre) + labels_from_lines(ls.drop_last())).push(t)
            =~= labels_from_lines(pre) + labels_from_lines(ls.drop_last()).push(t));
    }
}

proof fn lemma_plain_labels_kept(labels: Seq<Seq<char>>)
    requires
        forall|i: int| 0 <= i < labels.len() ==> is_plain_label(#[trigger] labels[i]),
    ensures
        labels_from_lines(labels) == labels,
    decreases labels.len(),
{
    if labels.len() > 0 {
        assert(is_plain_label(labels[labels.len() - 1]));
        lemma_plain_labels_kept(labels.drop_last());
        assert(labels.drop_last().push(labels.last()) =~= labels);
    }
}

/// Reading back an untouched label file gives exactly the labels it was
/// written from, when the title is one line and each label is one line,
/// non-empty, without surrounding whitespace, and not starting with `#`.
pub proof fn lemma_label_file_round_trip(title: Seq<char>, labels: Seq<Seq<char>>)
    requires
        no_newline(title),
        forall|i: int| 0 <= i < labels.len() ==> is_plain_label(#[trigger] labels[i]),
    ensures
        labels_from_lines(lines_of(label_file_of(title, labels))) == labels,
{
    let h1 = "# Labels for: "@ + title;
    let h2 = "# One label per line. Empty lines and lines starting with # are ignored."@;
    reveal_strlit("# Labels for: ");
    reveal_strlit("# One label per line. Empty lines and lines starting with # are ignored.");
    assert(no_newline(h1)) by {
        assert forall|i: int| 0 <= i < h1.len() implies h1[i] != '\n' by {
            if i >= "# Labels for: "@.len() {
                assert(h1[i] == title[i - "# Labels for: "@.len()]);
            }
        }
    }
    assert(no_newline(h2));
    let a1 = h1 + seq!['\n'];
    let a2 = h2 + seq!['\n'];
    let body = label_list_of(labels);
    lemma_lines_state_line(h1);
    lemma_lines_state_line(h2);
    lemma_lines_state_append(a1, a2);
    lemma_label_list_lines(labels);
    lemma_lines_state_append(a1 + a2, body);
    assert(label_file_of(title, labels) =~= (a1 + a2) + body);
    let heads = seq![strip_cr(h1)] + seq![strip_cr(h2)];
    assert(lines_of(label_file_of(title, labels)) == heads + labels);
    lemma_labels_from_lines_append(heads, labels);
    lemma_plain_labels_kept(labels);
    assert(strip_cr(h1).len() > 0 && strip_cr(h1)[0] == '#');
    assert(strip_cr(h2).len() > 0 && strip_cr(h2)[0] == '#');
    lemma_trim_keeps_first(strip_cr(h1));
    lemma_trim_keeps_first(strip_cr(h2));
    let first = seq![strip_cr(h1)];
    assert(labels_from_lines(first) =~= Seq::<Seq<char>>::empty()) by {
        assert(first.drop_last() =~= Seq::<Seq<char>>::empty());
        assert(labels_from_lines(first.drop_last()) =~= Seq::<Seq<char>>::empty());
        assert(first.last() == strip_cr(h1));
        assert(trim_ws(first.last())[0] == '#');
    }
    assert(labels_from_lines(heads) =~= Seq::<Seq<char>>::empty()) by {
        assert(heads.drop_last() =~= first);
        assert(heads.last() == strip_cr(h2));
        assert(trim_ws(heads.last())[0] == '#');
    }
    assert(Seq::<Seq<char>>::empty() + labels =~= labels);
}

} // verus!
