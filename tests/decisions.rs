use kb::app::{label_file_text, App, Focus, ListItem, Mode, NavState};
use kb::error::KbError;
use kb::models::{LinkRelation, Page, PageType, SearchResult, Space};
use kb::repo::{page_write_outcome, row_to_link, row_to_page, row_to_space, zero_rows_outcome};
use kb::sql::SqlValue;

fn text(s: &str) -> SqlValue {
    SqlValue::Text(s.to_string())
}

fn page(id: &str, version: i64) -> Page {
    Page {
        id: id.to_string(),
        space_id: "s".to_string(),
        parent_id: None,
        title: "Title".to_string(),
        page_type: PageType::Decision,
        content: "body".to_string(),
        sections: None,
        created_by_user: "u".to_string(),
        created_by_agent: "a".to_string(),
        created_at: "t0".to_string(),
        updated_at: "t1".to_string(),
        version,
        labels: vec![],
    }
}

fn space(slug: &str) -> Space {
    Space {
        id: "sid".to_string(),
        slug: slug.to_string(),
        name: "Name".to_string(),
        description: String::new(),
        created_at: String::new(),
        updated_at: String::new(),
    }
}

#[test]
fn zero_rows_with_existing_page_is_conflict() {
    let e = zero_rows_outcome(Ok(page("p", 7)), "p", Some(5));
    assert!(matches!(e, KbError::VersionConflict { expected: 5, actual: 7 }));
}

#[test]
fn zero_rows_without_page_is_not_found() {
    let e = zero_rows_outcome(Err(KbError::NotFound("gone".to_string())), "p", Some(5));
    assert!(matches!(e, KbError::NotFound(_)));
    let e = zero_rows_outcome(Ok(page("p", 7)), "p", None);
    assert!(matches!(e, KbError::NotFound(_)));
    let e = zero_rows_outcome(Err(KbError::InvalidInput("x".to_string())), "p", Some(1));
    assert!(matches!(e, KbError::InvalidInput(_)));
}

#[test]
fn write_outcome_by_rows_changed() {
    assert!(page_write_outcome(1, "p").is_ok());
    assert!(matches!(page_write_outcome(0, "p"), Err(KbError::NotFound(_))));
}

#[test]
fn page_row_decoding() {
    let row = vec![
        text("id1"),
        text("sp"),
        SqlValue::Null,
        text("T"),
        text("runbook"),
        text("c"),
        text("u"),
        text("a"),
        text("t0"),
        text("t1"),
        SqlValue::Int(4),
        text(r#"{"steps":"go"}"#),
    ];
    let p = row_to_page(&row).unwrap();
    assert_eq!(p.id, "id1");
    assert_eq!(p.page_type, PageType::Runbook);
    assert_eq!(p.version, 4);
    assert!(p.parent_id.is_none());
    assert_eq!(p.sections.unwrap().get_text("steps").unwrap(), "go");
    let mut bad = row.clone();
    bad[4] = text("blog");
    assert!(matches!(row_to_page(&bad), Err(KbError::Db(_))));
    let mut bad = row.clone();
    bad[10] = text("4");
    assert!(matches!(row_to_page(&bad), Err(KbError::Db(_))));
    assert!(matches!(row_to_page(&row[..5].to_vec()), Err(KbError::Db(_))));
}

#[test]
fn space_and_link_row_decoding() {
    let row = vec![text("i"), text("slug"), text("n"), text("d"), text("c"), text("u")];
    assert_eq!(row_to_space(&row).unwrap().slug, "slug");
    let link = row_to_link(&vec![text("a"), text("b"), text("supersedes"), text("c"), text("u")]).unwrap();
    assert_eq!(link.relation, LinkRelation::Supersedes);
    assert!(row_to_link(&vec![text("a"), text("b"), text("blocks"), text("c"), text("u")]).is_err());
}

#[test]
fn label_file_layout() {
    let labels = vec!["a".to_string(), "b c".to_string()];
    assert_eq!(
        label_file_text("T", &labels),
        "# Labels for: T\n# One label per line. Empty lines and lines starting with # are ignored.\na\nb c\n"
    );
    assert_eq!(kb::edit::parse_label_lines(&label_file_text("T", &labels)), labels);
}

#[test]
fn list_item_texts() {
    let item = ListItem::Page { page: page("p", 1), expandable: true };
    assert_eq!(item.display_text(), "[+] Title");
    let item = ListItem::Page { page: page("p", 1), expandable: false };
    assert_eq!(item.display_text(), "    Title");
    let item = ListItem::SearchResult(SearchResult { page: page("p", 1), excerpt: String::new() });
    assert_eq!(item.display_text(), "Title [decision]");
}

#[test]
fn pane_titles_and_hints() {
    let mut app = App::new();
    assert_eq!(app.status_hint(), "j/k:nav  Enter:select  e:edit  L:labels  Esc:back  /:search  q:quit");
    app.nav_state = NavState::PageList { space: space("proj") };
    assert_eq!(app.left_pane_title(), "proj / Pages");
    app.nav_state = NavState::ChildPageList { space: space("proj"), parent: Box::new(page("p", 1)) };
    assert_eq!(app.left_pane_title(), "proj / Title");
    app.nav_state = NavState::SearchResults { query: "q".to_string(), previous: Box::new(NavState::SpaceList) };
    assert_eq!(app.left_pane_title(), "Search: q");
    app.focus = Focus::Content;
    assert_eq!(app.status_hint(), "j/k:scroll  e:edit  L:labels  h/Esc:back  /:search  q:quit");
    app.mode = Mode::Search;
    assert_eq!(app.status_hint(), "Type query, Enter:submit, Esc:cancel");
}

#[test]
fn scrolling_content() {
    let mut app = App::new();
    app.content_lines = (0..30).map(|i| i.to_string()).collect();
    app.scroll_content_to_bottom(10);
    assert_eq!(app.content_scroll, 20);
    app.scroll_content_down();
    assert_eq!(app.content_scroll, 21);
    app.scroll_content_up();
    app.scroll_content_up();
    assert_eq!(app.content_scroll, 19);
    app.scroll_content_to_top();
    app.scroll_content_up();
    assert_eq!(app.content_scroll, 0);
    app.content_lines = vec!["one".to_string()];
    app.scroll_content_to_bottom(10);
    assert_eq!(app.content_scroll, 0);
}

#[test]
fn search_returns_to_previous_view() {
    let mut conn = rusqlite::Connection::open_in_memory().unwrap();
    kb::db::configure(&conn).unwrap();
    kb::db::run_migrations(&mut conn).unwrap();
    let s = kb::repo::create_space(&conn, "s", "S", "").unwrap();
    kb::repo::create_page(&conn, &s.id, None, "Alpha", PageType::Reference, "alpha text", None, &[], "u", "a").unwrap();
    let mut app = App::new();
    app.load_initial(&conn).unwrap();
    app.select(&conn).unwrap();
    app.enter_search();
    app.search_input = "alpha".to_string();
    app.submit_search(&conn).unwrap();
    assert_eq!(app.items.len(), 1);
    assert_eq!(app.left_pane_title(), "Search: alpha");
    app.go_back(&conn).unwrap();
    assert!(matches!(app.nav_state, NavState::PageList { .. }));
    app.submit_search(&conn).unwrap();
    assert!(matches!(app.nav_state, NavState::SearchResults { .. }));
    app.enter_search();
    app.submit_search(&conn).unwrap();
    assert!(matches!(app.nav_state, NavState::SearchResults { .. }));
    assert_eq!(app.mode, Mode::Normal);
}

#[test]
fn child_list_and_back() {
    let mut conn = rusqlite::Connection::open_in_memory().unwrap();
    kb::db::configure(&conn).unwrap();
    kb::db::run_migrations(&mut conn).unwrap();
    let s = kb::repo::create_space(&conn, "s", "S", "").unwrap();
    let top = kb::repo::create_page(&conn, &s.id, None, "Top", PageType::Reference, "", None, &[], "u", "a").unwrap();
    let mid = kb::repo::create_page(&conn, &s.id, Some(&top.id), "Mid", PageType::Reference, "", None, &[], "u", "a").unwrap();
    kb::repo::create_page(&conn, &s.id, Some(&mid.id), "Leaf", PageType::Reference, "", None, &[], "u", "a").unwrap();
    let mut app = App::new();
    app.load_initial(&conn).unwrap();
    app.select(&conn).unwrap();
    assert_eq!(app.items[0].display_text(), "[+] Top");
    app.select(&conn).unwrap();
    assert_eq!(app.left_pane_title(), "s / Top");
    app.select(&conn).unwrap();
    assert_eq!(app.left_pane_title(), "s / Mid");
    assert_eq!(app.items[0].display_text(), "    Leaf");
    app.select(&conn).unwrap();
    assert_eq!(app.focus, Focus::Content);
    app.go_back(&conn).unwrap();
    assert_eq!(app.left_pane_title(), "s / Top");
    app.go_back(&conn).unwrap();
    assert_eq!(app.left_pane_title(), "s / Pages");
    app.go_back(&conn).unwrap();
    assert_eq!(app.left_pane_title(), "Spaces");
    assert!(app.running);
}
