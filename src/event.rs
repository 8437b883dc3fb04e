//! Keys, the semantic actions they stand for in each mode and focus, the
//! jump-to-top chord, and the application of an action to the browser.

use vstd::prelude::*;
use crate::app::{content_shown, go_back_effect, same_but_content, select_effect, submit_effect, App, Focus, Mode};
use crate::error::KbError;
use crate::text::{pop_char, push_char};

verus! {

/// A key as the browser reads it.
#[derive(Debug, Clone, Copy, PartialEq, Eq, Structural)]
pub enum KeyCode {
    Char(char),
    Enter,
    Esc,
    Backspace,
    Up,
    Down,
    Left,
    Right,
    Tab,
    F(u8),
    /// Any key the browser does not use.
    Other,
}

/// A key press, with whether Control was held.
#[derive(Debug, Clone, Copy, PartialEq, Eq, Structural)]
pub struct KeyEvent {
    pub code: KeyCode,
    pub ctrl: bool,
}

/// What a key asks the browser to do.
#[derive(Debug, Clone, Copy, PartialEq, Eq, Structural)]
pub enum Action {
    Quit,
    MoveDown,
    MoveUp,
    Select,
    GoBack,
    FocusContent,
    FocusList,
    JumpToTop,
    JumpToBottom,
    EnterSearch,
    SubmitSearch,
    CancelSearch,
    SearchInput(char),
    SearchBackspace,
    Edit,
    EditLabels,
    NoOp,
}

pub open spec fn search_action(code: KeyCode) -> Action {
    match code {
        KeyCode::Enter => Action::SubmitSearch,
        KeyCode::Esc => Action::CancelSearch,
        KeyCode::Backspace => Action::SearchBackspace,
        KeyCode::Char(c) => Action::SearchInput(c),
        _ => Action::NoOp,
    }
}

/// Keys shared by both panes in normal mode; `None` for the others.
pub open spec fn common_action(code: KeyCode, pending_g: bool) -> Option<Action> {
    match code {
        KeyCode::Char('q') => Some(Action::Quit),
        KeyCode::Char('j') | KeyCode::Down => Some(Action::MoveDown),
        KeyCode::Char('k') | KeyCode::Up => Some(Action::MoveUp),
        KeyCode::Char('/') => Some(Action::EnterSearch),
        KeyCode::Char('e') => Some(Action::Edit),
        KeyCode::Char('L') => Some(Action::EditLabels),
        KeyCode::Char('G') => Some(Action::JumpToBottom),
        KeyCode::Char('g') => Some(if pending_g {
            Action::JumpToTop
        } else {
            Action::NoOp
        }),
        _ => None,
    }
}

pub open spec fn list_action(code: KeyCode, pending_g: bool) -> Action {
    match common_action(code, pending_g) {
        Some(a) => a,
        None => match code {
            KeyCode::Enter => Action::Select,
            KeyCode::Esc | KeyCode::Char('h') | KeyCode::Left => Action::GoBack,
            KeyCode::Char('l') | KeyCode::Right | KeyCode::Tab => Action::FocusContent,
            _ => Action::NoOp,
        },
    }
}

pub open spec fn content_action(code: KeyCode, pending_g: bool) -> Action {
    match common_action(code, pending_g) {
        Some(a) => a,
        None => match code {
            KeyCode::Esc | KeyCode::Char('h') | KeyCode::Left | KeyCode::Tab => Action::FocusList,
            _ => Action::NoOp,
        },
    }
}

/// The action of a key in a mode and focus. Control-C always quits.
pub open spec fn action_for(mode: Mode, focus: Focus, pending_g: bool, key: KeyEvent) -> Action {
    if key.ctrl && key.code == KeyCode::Char('c') {
        Action::Quit
    } else {
        match mode {
            Mode::Search => search_action(key.code),
            Mode::Normal => match focus {
                Focus::List => list_action(key.code, pending_g),
                Focus::Content => content_action(key.code, pending_g),
            },
        }
    }
}

fn map_search_key(code: KeyCode) -> (r: Action)
    ensures
        r == search_action(code),
{
    match code {
        KeyCode::Enter => Action::SubmitSearch,
        KeyCode::Esc => Action::CancelSearch,
        KeyCode::Backspace => Action::SearchBackspace,
        KeyCode::Char(c) => Action::SearchInput(c),
        _ => Action::NoOp,
    }
}

fn map_common_key(code: KeyCode, pending_g: bool) -> (r: Option<Action>)
    ensures
        r == common_action(code, pending_g),
{
    match code {
        KeyCode::Char('q') => Some(Action::Quit),
        KeyCode::Char('j') | KeyCode::Down => Some(Action::MoveDown),
        KeyCode::Char('k') | KeyCode::Up => Some(Action::MoveUp),
        KeyCode::Char('/') => Some(Action::EnterSearch),
        KeyCode::Char('e') => Some(Action::Edit),
        KeyCode::Char('L') => Some(Action::EditLabels),
        KeyCode::Char('G') => Some(Action::JumpToBottom),
        KeyCode::Char('g') => Some(if pending_g {
            Action::JumpToTop
        } else {
            Action::NoOp
        }),
        _ => None,
    }
}

fn map_list_key(code: KeyCode, pending_g: bool) -> (r: Action)
    ensures
        r == list_action(code, pending_g),
{
    match map_common_key(code, pending_g) {
        Some(a) => a,
        None => match code {
            KeyCode::Enter => Action::Select,
            KeyCode::Esc | KeyCode::Char('h') | KeyCode::Left => Action::GoBack,
            KeyCode::Char('l') | KeyCode::Right | KeyCode::Tab => Action::FocusContent,
            _ => Action::NoOp,
        },
    }
}

fn map_content_key(code: KeyCode, pending_g: bool) -> (r: Action)
    ensures
        r == content_action(code, pending_g),
{
    match map_common_key(code, pending_g) {
        Some(a) => a,
        None => match code {
            KeyCode::Esc | KeyCode::Char('h') | KeyCode::Left | KeyCode::Tab => Action::FocusList,
            _ => Action::NoOp,
        },
    }
}

/// The action a key stands for in the browser's current mode and focus.
pub fn map_key(app: &App, key: KeyEvent) -> (r: Action)
    ensures
        r == action_for(app.mode, app.focus, app.pending_g, key),
{
    if key.ctrl && key.code == KeyCode::Char('c') {
        return Action::Quit;
    }
    match app.mode {
        Mode::Search => map_search_key(key.code),
        Mode::Normal => match app.focus {
            Focus::List => map_list_key(key.code, app.pending_g),
            Focus::Content => map_content_key(key.code, app.pending_g),
        },
    }
}

/// Whether a key opens the jump-to-top chord: a plain `g` in normal mode
/// with no chord pending.
pub open spec fn opens_chord(app: App, key: KeyEvent) -> bool {
    &&& key.code == KeyCode::Char('g')
    &&& app.mode == Mode::Normal
    &&& !app.pending_g
    &&& action_for(app.mode, app.focus, app.pending_g, key) == Action::NoOp
}

/// Reads one key with the chord in mind. A key that opens the chord is held
/// as pending and yields no action; any other key clears what was pending and
/// yields its action, so a second `g` right after the first jumps to the top
/// and any other key in between cancels the chord.
pub fn handle_key(app: &mut App, key: KeyEvent) -> (r: Option<Action>)
    ensures
        opens_chord(*old(app), key) ==> r is None && *final(app) == (App { pending_g: true, ..*old(app) }),
        !opens_chord(*old(app), key) ==> r == Some(action_for(old(app).mode, old(app).focus, old(app).pending_g, key))
            && *final(app) == (App { pending_g: false, ..*old(app) }),
{
    let action = map_key(app, key);
    if key.code == KeyCode::Char('g') && app.mode == Mode::Normal && action == Action::NoOp && !app.pending_g {
        app.pending_g = true;
        return None;
    }
    app.pending_g = false;
    Some(action)
}

/// The jump-to-top chord: in normal mode with nothing pending, a plain `g`
/// opens the chord, and while it is pending a second plain `g` is the jump
/// to the top; any other key is not held back and reads as it would
/// without the chord, apart from a second `g`.
pub proof fn lemma_chord(app: App, key: KeyEvent)
    requires
        app.mode == Mode::Normal,
        !app.pending_g,
    ensures
        key == (KeyEvent { code: KeyCode::Char('g'), ctrl: false }) ==> opens_chord(app, key)
            && action_for(app.mode, app.focus, true, key) == Action::JumpToTop,
        key.code != KeyCode::Char('g') ==> !opens_chord(app, key)
            && action_for(app.mode, app.focus, true, key) == action_for(app.mode, app.focus, false, key),
{
}

/// The cursor moved to `c` and the content pane shows what is under it;
/// nothing else changed.
pub open spec fn moved_to(pre: App, post: App, c: usize, ok: bool) -> bool {
    &&& same_but_content(App { cursor: c, ..pre }, post)
    &&& content_shown(post, ok)
}

/// What starting an edit does (`ok`: the call succeeded): nothing without a
/// selected page or on failure; on success a snapshot of the selected page
/// waits for the editor, for its content or (`labels`) its label set.
pub open spec fn edit_effect(pre: App, post: App, ok: bool, labels: bool) -> bool {
    if pre.selected_page_id().is_none() {
        ok && post == pre
    } else if !ok {
        post == pre
    } else if labels {
        post == (App { pending_label_edit: post.pending_label_edit, ..pre })
            && (post.pending_label_edit matches Some(e) && pre.selected_page_id() == Some(e.page_id@))
    } else {
        post == (App { pending_edit: post.pending_edit, ..pre })
            && (post.pending_edit matches Some(e) && pre.selected_page_id() == Some(e.page_id@))
    }
}

/// Applies an action to the browser, reading from the store where the view
/// or the content pane changes. Cursor moves act on the list or scroll the
/// content, by focus; edits only prepare the snapshot that the event loop
/// then hands to the editor.
pub fn apply_action(app: &mut App, action: Action, conn: &rusqlite::Connection, content_height: u16) -> (r: Result<(), KbError>)
    requires
        old(app).cursor_ok(),
    ensures
        final(app).cursor_ok(),
        match action {
            Action::Quit => r is Ok && *final(app) == (App { running: false, ..*old(app) }),
            Action::MoveDown => if old(app).focus == Focus::List {
                moved_to(*old(app), *final(app), if old(app).items@.len() > 0 && old(app).cursor + 1
                    < old(app).items@.len() {
                    (old(app).cursor + 1) as usize
                } else {
                    old(app).cursor
                }, r is Ok)
            } else {
                r is Ok && *final(app) == (App {
                    content_scroll: if old(app).content_scroll < u16::MAX {
                        (old(app).content_scroll + 1) as u16
                    } else {
                        u16::MAX
                    },
                    ..*old(app)
                })
            },
            Action::MoveUp => if old(app).focus == Focus::List {
                moved_to(*old(app), *final(app), if old(app).cursor > 0 {
                    (old(app).cursor - 1) as usize
                } else {
                    0
                }, r is Ok)
            } else {
                r is Ok && *final(app) == (App {
                    content_scroll: if old(app).content_scroll > 0 {
                        (old(app).content_scroll - 1) as u16
                    } else {
                        0
                    },
                    ..*old(app)
                })
            },
            Action::Select => select_effect(*old(app), *final(app), r is Ok),
            Action::GoBack => go_back_effect(*old(app), *final(app), r is Ok),
            Action::FocusContent => r is Ok && *final(app) == (App {
                focus: if old(app).items@.len() > 0 {
                    Focus::Content
                } else {
                    old(app).focus
                },
                ..*old(app)
            }),
            Action::FocusList => r is Ok && *final(app) == (App { focus: Focus::List, ..*old(app) }),
            Action::JumpToTop => if old(app).focus == Focus::List {
                moved_to(*old(app), *final(app), 0, r is Ok)
            } else {
                r is Ok && *final(app) == (App { content_scroll: 0, ..*old(app) })
            },
            Action::JumpToBottom => if old(app).focus == Focus::List {
                moved_to(*old(app), *final(app), if old(app).items@.len() > 0 {
                    (old(app).items@.len() - 1) as usize
                } else {
                    old(app).cursor
                }, r is Ok)
            } else {
                r is Ok && *final(app) == (App {
                    content_scroll: if (old(app).content_lines@.len() as u16) > content_height {
                        ((old(app).content_lines@.len() as u16) - content_height) as u16
                    } else {
                        old(app).content_scroll
                    },
                    ..*old(app)
                })
            },
            Action::EnterSearch => r is Ok && final(app).search_input@.len() == 0 && *final(app) == (App {
                mode: Mode::Search,
                search_input: final(app).search_input,
                ..*old(app)
            }),
            Action::SubmitSearch => submit_effect(*old(app), *final(app), r is Ok),
            Action::CancelSearch => r is Ok && final(app).search_input@.len() == 0 && *final(app) == (App {
                mode: Mode::Normal,
                search_input: final(app).search_input,
                ..*old(app)
            }),
            Action::SearchInput(c) => r is Ok && final(app).search_input@ == old(app).search_input@.push(c)
                && *final(app) == (App { search_input: final(app).search_input, ..*old(app) }),
            Action::SearchBackspace => r is Ok && final(app).search_input@ == (if old(app).search_input@.len()
                > 0 {
                old(app).search_input@.drop_last()
            } else {
                old(app).search_input@
            }) && *final(app) == (App { search_input: final(app).search_input, ..*old(app) }),
            Action::Edit => edit_effect(*old(app), *final(app), r is Ok, false),
            Action::EditLabels => edit_effect(*old(app), *final(app), r is Ok, true),
            Action::NoOp => r is Ok && *final(app) == *old(app),
        },
{
    match action {
        Action::Quit => {
            app.running = false;
        },
        Action::MoveDown => match app.focus {
            Focus::List => {
                app.move_cursor_down();
                app.update_content(conn)?;
            },
            Focus::Content => {
                app.scroll_content_down();
            },
        },
        Action::MoveUp => match app.focus {
            Focus::List => {
                app.move_cursor_up();
                app.update_content(conn)?;
            },
            Focus::Content => {
                app.scroll_content_up();
            },
        },
        Action::Select => {
            app.select(conn)?;
        },
        Action::GoBack => {
            app.go_back(conn)?;
        },
        Action::FocusContent => {
            if app.items.len() > 0 {
                app.focus = Focus::Content;
            }
        },
        Action::FocusList => {
            app.focus = Focus::List;
        },
        Action::JumpToTop => match app.focus {
            Focus::List => {
                app.jump_to_top();
                app.update_content(conn)?;
            },
            Focus::Content => {
                app.scroll_content_to_top();
            },
        },
        Action::JumpToBottom => match app.focus {
            Focus::List => {
                app.jump_to_bottom();
                app.update_content(conn)?;
            },
            Focus::Content => {
                app.scroll_content_to_bottom(content_height);
            },
        },
        Action::EnterSearch => {
            app.enter_search();
        },
        Action::SubmitSearch => {
            app.submit_search(conn)?;
        },
        Action::CancelSearch => {
            app.cancel_search();
        },
        Action::SearchInput(c) => {
            push_char(&mut app.search_input, c);
        },
        Action::SearchBackspace => {
            pop_char(&mut app.search_input);
        },
        Action::Edit => {
            match app.prepare_edit(conn)? {
                Some(snapshot) => {
                    app.pending_edit = Some(snapshot);
                },
                None => {},
            }
        },
        Action::EditLabels => {
            match app.prepare_edit_labels(conn)? {
                Some(snapshot) => {
                    app.pending_label_edit = Some(snapshot);
                },
                None => {},
            }
        },
        Action::NoOp => {},
    }
    Ok(())
}

} // verus!
