use kb::models::PageType;
use kb::search::{search_pages, SearchParams};
use rusqlite::Connection;

fn setup_test_db() -> Connection {
    let mut conn = Connection::open_in_memory().expect("Failed to create in-memory DB");
    kb::db::configure(&conn).expect("Failed to configure connection");
    kb::db::run_migrations(&mut conn).expect("Failed to run migrations");
    conn
}

fn insert_test_data(conn: &Connection) {
    // Create a test space
    conn.execute(
        "INSERT INTO spaces (id, slug, name, description, created_at)
         VALUES ('space-1', 'test-space', 'Test Space', 'A test space', datetime('now'))",
        [],
    ).expect("Failed to insert space");

    // Page 1: Decision about Rust with label "important"
    conn.execute(
        "INSERT INTO pages (id, space_id, parent_id, title, page_type, content,
                            created_by_user, created_by_agent, created_at, updated_at, version)
         VALUES ('page-1', 'space-1', NULL, 'Use Rust for CLI', 'decision',
                 'We decided to use Rust because of its memory safety and performance guarantees. Rust concurrency model is excellent.',
                 'logan', 'code-agent', datetime('now'), datetime('now'), 1)",
        [],
    ).expect("Failed to insert page 1");

    conn.execute(
        "INSERT INTO labels (page_id, label) VALUES ('page-1', 'important')",
        [],
    ).expect("Failed to insert label for page 1");

    // Page 2: Architecture doc about SQLite
    conn.execute(
        "INSERT INTO pages (id, space_id, parent_id, title, page_type, content,
                            created_by_user, created_by_agent, created_at, updated_at, version)
         VALUES ('page-2', 'space-1', NULL, 'Database Architecture', 'architecture',
                 'We use SQLite for local storage. FTS5 provides full-text search capabilities.',
                 'logan', 'code-agent', datetime('now'), datetime('now'), 1)",
        [],
    ).expect("Failed to insert page 2");

    conn.execute(
        "INSERT INTO labels (page_id, label) VALUES ('page-2', 'database')",
        [],
    ).expect("Failed to insert label for page 2");

    // Page 3: Reference doc about testing, different agent
    conn.execute(
        "INSERT INTO pages (id, space_id, parent_id, title, page_type, content,
                            created_by_user, created_by_agent, created_at, updated_at, version)
         VALUES ('page-3', 'space-1', NULL, 'Testing Guidelines', 'reference',
                 'All code must have unit tests. Use the built-in Rust testing framework.',
                 'logan', 'copilot', datetime('now'), datetime('now'), 1)",
        [],
    ).expect("Failed to insert page 3");

    conn.execute(
        "INSERT INTO labels (page_id, label) VALUES ('page-3', 'testing')",
        [],
    ).expect("Failed to insert label for page 3");

    // Page 4: No labels, contains "Rust" for FTS testing
    conn.execute(
        "INSERT INTO pages (id, space_id, parent_id, title, page_type, content,
                            created_by_user, created_by_agent, created_at, updated_at, version)
         VALUES ('page-4', 'space-1', NULL, 'Rust Best Practices', 'runbook',
                 'Follow idiomatic Rust patterns. Avoid unsafe code unless necessary.',
                 'logan', 'code-agent', datetime('now'), datetime('now'), 1)",
        [],
    ).expect("Failed to insert page 4");

    // Create a second space with one page
    conn.execute(
        "INSERT INTO spaces (id, slug, name, description, created_at)
         VALUES ('space-2', 'other-space', 'Other Space', 'Another space', datetime('now'))",
        [],
    ).expect("Failed to insert space 2");

    conn.execute(
        "INSERT INTO pages (id, space_id, parent_id, title, page_type, content,
                            created_by_user, created_by_agent, created_at, updated_at, version)
         VALUES ('page-5', 'space-2', NULL, 'Different Space Page', 'reference',
                 'This page is in a different space and mentions Rust.',
                 'logan', 'code-agent', datetime('now'), datetime('now'), 1)",
        [],
    ).expect("Failed to insert page 5");
}

#[test]
fn test_fts_search_finds_matching_pages() {
    let conn = setup_test_db();
    insert_test_data(&conn);

    let results = search_pages(&conn, &SearchParams {
        query: Some("Rust".to_string()),
        space_id: None,
        page_type: None,
        label: None,
        created_by_agent: None,
        section: None,
    }).expect("Search should succeed");

    // Should find pages 1, 3, 4, and 5 which contain "Rust"
    // (page 3 mentions "built-in Rust testing framework")
    assert_eq!(results.len(), 4);

    let ids: Vec<&str> = results.iter().map(|r| r.page.id.as_str()).collect();
    assert!(ids.contains(&"page-1"));
    assert!(ids.contains(&"page-3"));
    assert!(ids.contains(&"page-4"));
    assert!(ids.contains(&"page-5"));
}

#[test]
fn test_fts_search_returns_snippets() {
    let conn = setup_test_db();
    insert_test_data(&conn);

    let results = search_pages(&conn, &SearchParams {
        query: Some("Rust".to_string()),
        space_id: None,
        page_type: None,
        label: None,
        created_by_agent: None,
        section: None,
    }).expect("Search should succeed");

    // Every result should have a non-empty excerpt containing the search term
    for result in &results {
        assert!(!result.excerpt.is_empty(), "Excerpt should not be empty for FTS search");
        assert!(
            result.excerpt.to_lowercase().contains("rust"),
            "Excerpt should contain the search term: {}",
            result.excerpt
        );
    }
}

#[test]
fn test_metadata_filter_without_fts() {
    let conn = setup_test_db();
    insert_test_data(&conn);

    // Filter by page_type only, no FTS query
    let results = search_pages(&conn, &SearchParams {
        query: None,
        space_id: None,
        page_type: Some(PageType::Decision),
        label: None,
        created_by_agent: None,
        section: None,
    }).expect("Search should succeed");

    assert_eq!(results.len(), 1);
    assert_eq!(results[0].page.id, "page-1");
    assert_eq!(results[0].excerpt, "", "Excerpt should be empty for non-FTS search");
}

#[test]
fn test_filter_by_space_id() {
    let conn = setup_test_db();
    insert_test_data(&conn);

    let results = search_pages(&conn, &SearchParams {
        query: None,
        space_id: Some("space-2".to_string()),
        page_type: None,
        label: None,
        created_by_agent: None,
        section: None,
    }).expect("Search should succeed");

    assert_eq!(results.len(), 1);
    assert_eq!(results[0].page.id, "page-5");
}

#[test]
fn test_filter_by_label() {
    let conn = setup_test_db();
    insert_test_data(&conn);

    let results = search_pages(&conn, &SearchParams {
        query: None,
        space_id: None,
        page_type: None,
        label: Some("important".to_string()),
        created_by_agent: None,
        section: None,
    }).expect("Search should succeed");

    assert_eq!(results.len(), 1);
    assert_eq!(results[0].page.id, "page-1");
    assert!(results[0].page.labels.contains(&"important".to_string()));
}

#[test]
fn test_filter_by_agent() {
    let conn = setup_test_db();
    insert_test_data(&conn);

    let results = search_pages(&conn, &SearchParams {
        query: None,
        space_id: None,
        page_type: None,
        label: None,
        created_by_agent: Some("copilot".to_string()),
        section: None,
    }).expect("Search should succeed");

    assert_eq!(results.len(), 1);
    assert_eq!(results[0].page.id, "page-3");
}

#[test]
fn test_combined_fts_and_filters() {
    let conn = setup_test_db();
    insert_test_data(&conn);

    // Search for "Rust" but only in space-1
    let results = search_pages(&conn, &SearchParams {
        query: Some("Rust".to_string()),
        space_id: Some("space-1".to_string()),
        page_type: None,
        label: None,
        created_by_agent: None,
        section: None,
    }).expect("Search should succeed");

    // Should find pages 1, 3, and 4 (not page-5 which is in space-2)
    // (page 3 mentions "built-in Rust testing framework")
    assert_eq!(results.len(), 3);
    let ids: Vec<&str> = results.iter().map(|r| r.page.id.as_str()).collect();
    assert!(ids.contains(&"page-1"));
    assert!(ids.contains(&"page-3"));
    assert!(ids.contains(&"page-4"));
}

#[test]
fn test_combined_multiple_filters() {
    let conn = setup_test_db();
    insert_test_data(&conn);

    // Filter by space, page_type, and agent
    let results = search_pages(&conn, &SearchParams {
        query: None,
        space_id: Some("space-1".to_string()),
        page_type: Some(PageType::Decision),
        label: None,
        created_by_agent: Some("code-agent".to_string()),
        section: None,
    }).expect("Search should succeed");

    assert_eq!(results.len(), 1);
    assert_eq!(results[0].page.id, "page-1");
}

#[test]
fn test_empty_results_not_an_error() {
    let conn = setup_test_db();
    insert_test_data(&conn);

    // Search for something that doesn't exist
    let results = search_pages(&conn, &SearchParams {
        query: Some("nonexistent-term-xyz".to_string()),
        space_id: None,
        page_type: None,
        label: None,
        created_by_agent: None,
        section: None,
    }).expect("Search should succeed even with no results");

    assert_eq!(results.len(), 0);
}

#[test]
fn test_labels_populated_correctly() {
    let conn = setup_test_db();
    insert_test_data(&conn);

    // Get page 1 which has one label
    let results = search_pages(&conn, &SearchParams {
        query: None,
        space_id: None,
        page_type: Some(PageType::Decision),
        label: None,
        created_by_agent: None,
        section: None,
    }).expect("Search should succeed");

    assert_eq!(results.len(), 1);
    assert_eq!(results[0].page.labels, vec!["important"]);

    // Get page 4 which has no labels
    let results = search_pages(&conn, &SearchParams {
        query: None,
        space_id: None,
        page_type: Some(PageType::Runbook),
        label: None,
        created_by_agent: None,
        section: None,
    }).expect("Search should succeed");

    assert_eq!(results.len(), 1);
    assert_eq!(results[0].page.labels.len(), 0);
}

#[test]
fn test_page_with_multiple_labels() {
    let conn = setup_test_db();
    insert_test_data(&conn);

    // Add multiple labels to a page
    conn.execute(
        "INSERT INTO labels (page_id, label) VALUES ('page-1', 'reviewed')",
        [],
    ).expect("Failed to insert additional label");

    conn.execute(
        "INSERT INTO labels (page_id, label) VALUES ('page-1', 'archived')",
        [],
    ).expect("Failed to insert additional label");

    let results = search_pages(&conn, &SearchParams {
        query: None,
        space_id: None,
        page_type: Some(PageType::Decision),
        label: None,
        created_by_agent: None,
        section: None,
    }).expect("Search should succeed");

    assert_eq!(results.len(), 1);
    assert_eq!(results[0].page.labels.len(), 3);
    assert!(results[0].page.labels.contains(&"important".to_string()));
    assert!(results[0].page.labels.contains(&"reviewed".to_string()));
    assert!(results[0].page.labels.contains(&"archived".to_string()));
}

#[test]
fn test_fts_search_in_title() {
    let conn = setup_test_db();
    insert_test_data(&conn);

    // Search for a word that appears in the title
    let results = search_pages(&conn, &SearchParams {
        query: Some("Database".to_string()),
        space_id: None,
        page_type: None,
        label: None,
        created_by_agent: None,
        section: None,
    }).expect("Search should succeed");

    assert_eq!(results.len(), 1);
    assert_eq!(results[0].page.id, "page-2");
    assert!(results[0].page.title.contains("Database"));
}

#[test]
fn test_no_filters_returns_all_pages() {
    let conn = setup_test_db();
    insert_test_data(&conn);

    let results = search_pages(&conn, &SearchParams {
        query: None,
        space_id: None,
        page_type: None,
        label: None,
        created_by_agent: None,
        section: None,
    }).expect("Search should succeed");

    // Should return all 5 pages
    assert_eq!(results.len(), 5);
}

#[test]
fn test_filter_by_section() {
    let conn = setup_test_db();
    insert_test_data(&conn);

    // Add sections to page-1
    conn.execute(
        "UPDATE pages SET sections = ? WHERE id = 'page-1'",
        [r#"{"context":"why we chose rust","decision":"use rust"}"#],
    ).expect("update sections");

    let results = search_pages(&conn, &SearchParams {
        query: None,
        space_id: None,
        page_type: None,
        label: None,
        created_by_agent: None,
        section: Some("context".to_string()),
    }).expect("search");

    assert_eq!(results.len(), 1);
    assert_eq!(results[0].page.id, "page-1");
}

#[test]
fn test_fts_with_section_filter() {
    let conn = setup_test_db();
    insert_test_data(&conn);

    // Add sections to page-1
    conn.execute(
        "UPDATE pages SET sections = ? WHERE id = 'page-1'",
        [r#"{"context":"why we chose rust","decision":"use rust"}"#],
    ).expect("update sections");

    let results = search_pages(&conn, &SearchParams {
        query: Some("Rust".to_string()),
        space_id: None,
        page_type: None,
        label: None,
        created_by_agent: None,
        section: Some("context".to_string()),
    }).expect("search");

    // Only page-1 has sections with 'context' key AND matches 'Rust'
    assert_eq!(results.len(), 1);
    assert_eq!(results[0].page.id, "page-1");
}

#[test]
fn test_search_results_include_sections() {
    let conn = setup_test_db();
    insert_test_data(&conn);

    conn.execute(
        "UPDATE pages SET sections = ? WHERE id = 'page-1'",
        [r#"{"context":"test context","decision":"test decision"}"#],
    ).expect("update sections");

    let results = search_pages(&conn, &SearchParams {
        query: None,
        space_id: None,
        page_type: Some(PageType::Decision),
        label: None,
        created_by_agent: None,
        section: None,
    }).expect("search");

    assert_eq!(results.len(), 1);
    assert!(results[0].page.sections.is_some());
}

#[test]
fn excerpt_centres_on_first_match() {
    let content = format!("{}needle{}", "a".repeat(50), "b".repeat(50));
    let e = kb::search::make_excerpt(&content, "NEEDLE");
    assert_eq!(e, format!("...{}needle{}...", "a".repeat(40), "b".repeat(40)));
}

#[test]
fn excerpt_strips_quotes_from_query() {
    assert_eq!(kb::search::make_excerpt("short text here", "\"text\""), "short text here");
}

#[test]
fn excerpt_without_match_takes_opening() {
    let content = "x".repeat(120);
    assert_eq!(kb::search::make_excerpt(&content, "zzz"), format!("{}...", "x".repeat(100)));
    assert_eq!(kb::search::make_excerpt("tiny", "zzz"), "tiny");
}

#[test]
fn fts_quote_doubles_inner_quotes() {
    assert_eq!(kb::search::fts_quote("say \"hi\""), "\"say \"\"hi\"\"\"");
    assert_eq!(kb::search::fts_quote("foo-bar"), "\"foo-bar\"");
}
