use kb::error::KbError;
use kb::models::{LinkRelation, PageType, Sections};
use kb::repo::{
    add_label, append_to_page, create_link, create_page, create_space, delete_link, delete_page,
    delete_space, get_labels, get_page, get_space_by_slug, has_children, list_child_pages, list_links,
    list_pages, list_spaces, list_top_level_pages, set_labels, update_page, PageFilters,
};
use rusqlite::Connection;

fn setup_test_db() -> Connection {
    let mut conn = Connection::open_in_memory().expect("Failed to create in-memory database");
    kb::db::configure(&conn).expect("Failed to configure connection");
    kb::db::run_migrations(&mut conn).expect("Failed to run migrations");
    conn
}

#[test]
fn test_create_and_get_space() {
    let conn = setup_test_db();

    let space = create_space(
        &conn,
        "test-space",
        "Test Space",
        "A test space for testing",
    )
    .expect("Failed to create space");

    assert_eq!(space.slug, "test-space");
    assert_eq!(space.name, "Test Space");
    assert_eq!(space.description, "A test space for testing");
    assert!(!space.id.is_empty());
    assert!(!space.created_at.is_empty());

    let retrieved = get_space_by_slug(&conn, "test-space").expect("Failed to get space");
    assert_eq!(retrieved.id, space.id);
    assert_eq!(retrieved.slug, space.slug);
    assert_eq!(retrieved.name, space.name);
}

#[test]
fn test_get_space_not_found() {
    let conn = setup_test_db();

    let result = get_space_by_slug(&conn, "nonexistent");
    assert!(matches!(result, Err(KbError::NotFound(_))));
}

#[test]
fn test_list_spaces() {
    let conn = setup_test_db();

    create_space(&conn, "space1", "Space One", "First space").expect("Failed to create space1");
    create_space(&conn, "space2", "Space Two", "Second space").expect("Failed to create space2");

    let spaces = list_spaces(&conn).expect("Failed to list spaces");
    assert_eq!(spaces.len(), 2);
    // Should be ordered by created_at DESC, so space2 first
    assert_eq!(spaces[0].slug, "space2");
    assert_eq!(spaces[1].slug, "space1");
}

#[test]
fn test_delete_space() {
    let conn = setup_test_db();

    create_space(&conn, "temp-space", "Temp", "Temporary").expect("Failed to create space");
    delete_space(&conn, "temp-space").expect("Failed to delete space");

    let result = get_space_by_slug(&conn, "temp-space");
    assert!(matches!(result, Err(KbError::NotFound(_))));
}

#[test]
fn test_delete_space_with_pages_fails() {
    let conn = setup_test_db();

    let space = create_space(&conn, "space-with-pages", "Space", "").expect("Failed to create space");
    create_page(
        &conn,
        &space.id,
        None,
        "Test Page",
        PageType::Reference,
        "Content",
        None,
        &[],
        "testuser",
        "testagent",
    )
    .expect("Failed to create page");

    let result = delete_space(&conn, "space-with-pages");
    assert!(matches!(result, Err(KbError::Db(_))));
}

#[test]
fn test_create_and_get_page_with_labels() {
    let conn = setup_test_db();

    let space = create_space(&conn, "test-space", "Test", "").expect("Failed to create space");
    let labels = vec!["rust".to_string(), "testing".to_string()];

    let page = create_page(
        &conn,
        &space.id,
        None,
        "Test Page",
        PageType::Decision,
        "# Decision\n\nWe chose Rust.",
        None,
        &labels,
        "alice",
        "code-agent",
    )
    .expect("Failed to create page");

    assert_eq!(page.title, "Test Page");
    assert_eq!(page.page_type, PageType::Decision);
    assert_eq!(page.content, "# Decision\n\nWe chose Rust.");
    assert_eq!(page.created_by_user, "alice");
    assert_eq!(page.created_by_agent, "code-agent");
    assert_eq!(page.version, 1);
    assert_eq!(page.labels, labels);

    let retrieved = get_page(&conn, &page.id).expect("Failed to get page");
    assert_eq!(retrieved.id, page.id);
    assert_eq!(retrieved.labels.len(), 2);
    assert!(retrieved.labels.contains(&"rust".to_string()));
    assert!(retrieved.labels.contains(&"testing".to_string()));
}

#[test]
fn test_get_page_not_found() {
    let conn = setup_test_db();

    let result = get_page(&conn, "nonexistent-id");
    assert!(matches!(result, Err(KbError::NotFound(_))));
}

#[test]
fn test_update_page_title_and_content() {
    let conn = setup_test_db();

    let space = create_space(&conn, "test-space", "Test", "").expect("Failed to create space");
    let page = create_page(
        &conn,
        &space.id,
        None,
        "Original Title",
        PageType::Reference,
        "Original content",
        None,
        &[],
        "user",
        "agent",
    )
    .expect("Failed to create page");

    let updated = update_page(
        &conn,
        &page.id,
        Some("Updated Title"),
        Some("Updated content"),
        None,
        None,
    )
    .expect("Failed to update page");

    assert_eq!(updated.title, "Updated Title");
    assert_eq!(updated.content, "Updated content");
    assert_eq!(updated.version, 2);
    assert_ne!(updated.updated_at, page.updated_at);
}

#[test]
fn test_update_page_with_version_check_success() {
    let conn = setup_test_db();

    let space = create_space(&conn, "test-space", "Test", "").expect("Failed to create space");
    let page = create_page(
        &conn,
        &space.id,
        None,
        "Title",
        PageType::Reference,
        "Content",
        None,
        &[],
        "user",
        "agent",
    )
    .expect("Failed to create page");

    let updated = update_page(&conn, &page.id, Some("New Title"), None, None, Some(1))
        .expect("Failed to update page");

    assert_eq!(updated.title, "New Title");
    assert_eq!(updated.version, 2);
}

#[test]
fn test_update_page_version_conflict() {
    let conn = setup_test_db();

    let space = create_space(&conn, "test-space", "Test", "").expect("Failed to create space");
    let page = create_page(
        &conn,
        &space.id,
        None,
        "Title",
        PageType::Reference,
        "Content",
        None,
        &[],
        "user",
        "agent",
    )
    .expect("Failed to create page");

    // Update once to bump version
    update_page(&conn, &page.id, Some("Updated"), None, None, None).expect("Failed to update page");

    // Try to update with stale version
    let result = update_page(&conn, &page.id, Some("Another Update"), None, None, Some(1));

    match result {
        Err(KbError::VersionConflict { expected, actual }) => {
            assert_eq!(expected, 1);
            assert_eq!(actual, 2);
        }
        _ => panic!("Expected VersionConflict error"),
    }
}

#[test]
fn test_append_to_page() {
    let conn = setup_test_db();

    let space = create_space(&conn, "test-space", "Test", "").expect("Failed to create space");
    let page = create_page(
        &conn,
        &space.id,
        None,
        "Log",
        PageType::SessionLog,
        "First entry",
        None,
        &[],
        "user",
        "agent",
    )
    .expect("Failed to create page");

    let updated = append_to_page(&conn, &page.id, "Second entry")
        .expect("Failed to append to page");

    assert_eq!(updated.content, "First entry\nSecond entry");
    assert_eq!(updated.version, 2);
}

#[test]
fn test_append_to_empty_page() {
    let conn = setup_test_db();

    let space = create_space(&conn, "test-space", "Test", "").expect("Failed to create space");
    let page = create_page(
        &conn,
        &space.id,
        None,
        "Empty",
        PageType::Reference,
        "",
        None,
        &[],
        "user",
        "agent",
    )
    .expect("Failed to create page");

    let updated = append_to_page(&conn, &page.id, "First content")
        .expect("Failed to append to page");

    assert_eq!(updated.content, "First content");
}

#[test]
fn test_list_pages_no_filters() {
    let conn = setup_test_db();

    let space = create_space(&conn, "test-space", "Test", "").expect("Failed to create space");
    create_page(
        &conn,
        &space.id,
        None,
        "Page 1",
        PageType::Reference,
        "Content 1",
        None,
        &[],
        "user",
        "agent",
    )
    .expect("Failed to create page");
    create_page(
        &conn,
        &space.id,
        None,
        "Page 2",
        PageType::Decision,
        "Content 2",
        None,
        &[],
        "user",
        "agent",
    )
    .expect("Failed to create page");

    let filters = PageFilters {
        space_id: None,
        page_type: None,
        label: None,
        created_by_user: None,
        created_by_agent: None,
    };

    let pages = list_pages(&conn, &filters).expect("Failed to list pages");
    assert_eq!(pages.len(), 2);
}

#[test]
fn test_list_pages_filter_by_space() {
    let conn = setup_test_db();

    let space1 = create_space(&conn, "space1", "Space 1", "").expect("Failed to create space");
    let space2 = create_space(&conn, "space2", "Space 2", "").expect("Failed to create space");

    create_page(
        &conn,
        &space1.id,
        None,
        "Page in Space 1",
        PageType::Reference,
        "Content",
        None,
        &[],
        "user",
        "agent",
    )
    .expect("Failed to create page");
    create_page(
        &conn,
        &space2.id,
        None,
        "Page in Space 2",
        PageType::Reference,
        "Content",
        None,
        &[],
        "user",
        "agent",
    )
    .expect("Failed to create page");

    let filters = PageFilters {
        space_id: Some(space1.id.clone()),
        page_type: None,
        label: None,
        created_by_user: None,
        created_by_agent: None,
    };

    let pages = list_pages(&conn, &filters).expect("Failed to list pages");
    assert_eq!(pages.len(), 1);
    assert_eq!(pages[0].title, "Page in Space 1");
}

#[test]
fn test_list_pages_filter_by_type() {
    let conn = setup_test_db();

    let space = create_space(&conn, "test-space", "Test", "").expect("Failed to create space");
    create_page(
        &conn,
        &space.id,
        None,
        "Decision",
        PageType::Decision,
        "Content",
        None,
        &[],
        "user",
        "agent",
    )
    .expect("Failed to create page");
    create_page(
        &conn,
        &space.id,
        None,
        "Reference",
        PageType::Reference,
        "Content",
        None,
        &[],
        "user",
        "agent",
    )
    .expect("Failed to create page");

    let filters = PageFilters {
        space_id: None,
        page_type: Some(PageType::Decision),
        label: None,
        created_by_user: None,
        created_by_agent: None,
    };

    let pages = list_pages(&conn, &filters).expect("Failed to list pages");
    assert_eq!(pages.len(), 1);
    assert_eq!(pages[0].page_type, PageType::Decision);
}

#[test]
fn test_list_pages_filter_by_label() {
    let conn = setup_test_db();

    let space = create_space(&conn, "test-space", "Test", "").expect("Failed to create space");
    create_page(
        &conn,
        &space.id,
        None,
        "Rust Page",
        PageType::Reference,
        "Content",
        None,
        &vec!["rust".to_string()],
        "user",
        "agent",
    )
    .expect("Failed to create page");
    create_page(
        &conn,
        &space.id,
        None,
        "Python Page",
        PageType::Reference,
        "Content",
        None,
        &vec!["python".to_string()],
        "user",
        "agent",
    )
    .expect("Failed to create page");

    let filters = PageFilters {
        space_id: None,
        page_type: None,
        label: Some("rust".to_string()),
        created_by_user: None,
        created_by_agent: None,
    };

    let pages = list_pages(&conn, &filters).expect("Failed to list pages");
    assert_eq!(pages.len(), 1);
    assert_eq!(pages[0].title, "Rust Page");
}

#[test]
fn test_list_pages_filter_by_user_and_agent() {
    let conn = setup_test_db();

    let space = create_space(&conn, "test-space", "Test", "").expect("Failed to create space");
    create_page(
        &conn,
        &space.id,
        None,
        "Alice's Page",
        PageType::Reference,
        "Content",
        None,
        &[],
        "alice",
        "code-agent",
    )
    .expect("Failed to create page");
    create_page(
        &conn,
        &space.id,
        None,
        "Bob's Page",
        PageType::Reference,
        "Content",
        None,
        &[],
        "bob",
        "cursor",
    )
    .expect("Failed to create page");

    let filters = PageFilters {
        space_id: None,
        page_type: None,
        label: None,
        created_by_user: Some("alice".to_string()),
        created_by_agent: Some("code-agent".to_string()),
    };

    let pages = list_pages(&conn, &filters).expect("Failed to list pages");
    assert_eq!(pages.len(), 1);
    assert_eq!(pages[0].title, "Alice's Page");
}

#[test]
fn test_delete_page() {
    let conn = setup_test_db();

    let space = create_space(&conn, "test-space", "Test", "").expect("Failed to create space");
    let page = create_page(
        &conn,
        &space.id,
        None,
        "To Delete",
        PageType::Reference,
        "Content",
        None,
        &[],
        "user",
        "agent",
    )
    .expect("Failed to create page");

    delete_page(&conn, &page.id).expect("Failed to delete page");

    let result = get_page(&conn, &page.id);
    assert!(matches!(result, Err(KbError::NotFound(_))));
}

#[test]
fn test_delete_page_cascades_labels() {
    let conn = setup_test_db();

    let space = create_space(&conn, "test-space", "Test", "").expect("Failed to create space");
    let page = create_page(
        &conn,
        &space.id,
        None,
        "Page",
        PageType::Reference,
        "Content",
        None,
        &vec!["label1".to_string(), "label2".to_string()],
        "user",
        "agent",
    )
    .expect("Failed to create page");

    delete_page(&conn, &page.id).expect("Failed to delete page");

    // Verify labels are gone
    let labels = get_labels(&conn, &page.id).expect("Failed to get labels");
    assert_eq!(labels.len(), 0);
}

#[test]
fn test_set_labels_replaces_existing() {
    let conn = setup_test_db();

    let space = create_space(&conn, "test-space", "Test", "").expect("Failed to create space");
    let page = create_page(
        &conn,
        &space.id,
        None,
        "Page",
        PageType::Reference,
        "Content",
        None,
        &vec!["old1".to_string(), "old2".to_string()],
        "user",
        "agent",
    )
    .expect("Failed to create page");

    set_labels(&conn, &page.id, &vec!["new1".to_string(), "new2".to_string()])
        .expect("Failed to set labels");

    let labels = get_labels(&conn, &page.id).expect("Failed to get labels");
    assert_eq!(labels.len(), 2);
    assert!(labels.contains(&"new1".to_string()));
    assert!(labels.contains(&"new2".to_string()));
    assert!(!labels.contains(&"old1".to_string()));
}

#[test]
fn test_create_and_list_links() {
    let conn = setup_test_db();

    let space = create_space(&conn, "test-space", "Test", "").expect("Failed to create space");
    let page1 = create_page(
        &conn,
        &space.id,
        None,
        "Page 1",
        PageType::Reference,
        "Content",
        None,
        &[],
        "user",
        "agent",
    )
    .expect("Failed to create page");
    let page2 = create_page(
        &conn,
        &space.id,
        None,
        "Page 2",
        PageType::Reference,
        "Content",
        None,
        &[],
        "user",
        "agent",
    )
    .expect("Failed to create page");

    let link = create_link(&conn, &page1.id, &page2.id, LinkRelation::RelatesTo)
        .expect("Failed to create link");

    assert_eq!(link.source_id, page1.id);
    assert_eq!(link.target_id, page2.id);
    assert_eq!(link.relation, LinkRelation::RelatesTo);

    let links = list_links(&conn, &page1.id).expect("Failed to list links");
    assert_eq!(links.len(), 1);
    assert_eq!(links[0].source_id, page1.id);
    assert_eq!(links[0].target_id, page2.id);

    // Verify bidirectional listing
    let links_from_page2 = list_links(&conn, &page2.id).expect("Failed to list links");
    assert_eq!(links_from_page2.len(), 1);
}

#[test]
fn test_create_link_with_different_relations() {
    let conn = setup_test_db();

    let space = create_space(&conn, "test-space", "Test", "").expect("Failed to create space");
    let page1 = create_page(
        &conn,
        &space.id,
        None,
        "Page 1",
        PageType::Reference,
        "Content",
        None,
        &[],
        "user",
        "agent",
    )
    .expect("Failed to create page");
    let page2 = create_page(
        &conn,
        &space.id,
        None,
        "Page 2",
        PageType::Reference,
        "Content",
        None,
        &[],
        "user",
        "agent",
    )
    .expect("Failed to create page");

    let link = create_link(&conn, &page1.id, &page2.id, LinkRelation::Supersedes)
        .expect("Failed to create link");

    assert_eq!(link.relation, LinkRelation::Supersedes);
}

#[test]
fn test_delete_link() {
    let conn = setup_test_db();

    let space = create_space(&conn, "test-space", "Test", "").expect("Failed to create space");
    let page1 = create_page(
        &conn,
        &space.id,
        None,
        "Page 1",
        PageType::Reference,
        "Content",
        None,
        &[],
        "user",
        "agent",
    )
    .expect("Failed to create page");
    let page2 = create_page(
        &conn,
        &space.id,
        None,
        "Page 2",
        PageType::Reference,
        "Content",
        None,
        &[],
        "user",
        "agent",
    )
    .expect("Failed to create page");

    create_link(&conn, &page1.id, &page2.id, LinkRelation::RelatesTo)
        .expect("Failed to create link");

    delete_link(&conn, &page1.id, &page2.id).expect("Failed to delete link");

    let links = list_links(&conn, &page1.id).expect("Failed to list links");
    assert_eq!(links.len(), 0);
}

#[test]
fn test_delete_link_not_found() {
    let conn = setup_test_db();

    let result = delete_link(&conn, "nonexistent-source", "nonexistent-target");
    assert!(matches!(result, Err(KbError::NotFound(_))));
}

#[test]
fn test_delete_page_cascades_links() {
    let conn = setup_test_db();

    let space = create_space(&conn, "test-space", "Test", "").expect("Failed to create space");
    let page1 = create_page(
        &conn,
        &space.id,
        None,
        "Page 1",
        PageType::Reference,
        "Content",
        None,
        &[],
        "user",
        "agent",
    )
    .expect("Failed to create page");
    let page2 = create_page(
        &conn,
        &space.id,
        None,
        "Page 2",
        PageType::Reference,
        "Content",
        None,
        &[],
        "user",
        "agent",
    )
    .expect("Failed to create page");
    let page3 = create_page(
        &conn,
        &space.id,
        None,
        "Page 3",
        PageType::Reference,
        "Content",
        None,
        &[],
        "user",
        "agent",
    )
    .expect("Failed to create page");

    create_link(&conn, &page1.id, &page2.id, LinkRelation::RelatesTo)
        .expect("Failed to create link");
    create_link(&conn, &page2.id, &page3.id, LinkRelation::Elaborates)
        .expect("Failed to create link");

    delete_page(&conn, &page2.id).expect("Failed to delete page");

    // Verify links involving page2 are gone
    let links_from_page1 = list_links(&conn, &page1.id).expect("Failed to list links");
    assert_eq!(links_from_page1.len(), 0);

    let links_from_page3 = list_links(&conn, &page3.id).expect("Failed to list links");
    assert_eq!(links_from_page3.len(), 0);
}

#[test]
fn test_update_page_atomic_version_check() {
    let conn = setup_test_db();

    let space = create_space(&conn, "test-space", "Test", "").expect("Failed to create space");
    let page = create_page(
        &conn,
        &space.id,
        None,
        "Original",
        PageType::Reference,
        "Content",
        None,
        &[],
        "user",
        "agent",
    )
    .expect("Failed to create page");

    // This should succeed and return version 2
    let updated = update_page(&conn, &page.id, Some("First Update"), None, None, Some(1))
        .expect("First update should succeed");
    assert_eq!(updated.title, "First Update");
    assert_eq!(updated.version, 2);

    // This should fail because version is now 2, not 1
    let result = update_page(&conn, &page.id, Some("Second Update"), None, None, Some(1));
    match result {
        Err(KbError::VersionConflict { expected, actual }) => {
            assert_eq!(expected, 1);
            assert_eq!(actual, 2);
        }
        _ => panic!("Expected VersionConflict error"),
    }

    // Verify the page still has the first update (atomic operation prevented race)
    let current = get_page(&conn, &page.id).expect("Should get page");
    assert_eq!(current.title, "First Update");
    assert_eq!(current.version, 2);
}

#[test]
fn test_update_page_not_found() {
    let conn = setup_test_db();

    let result = update_page(&conn, "nonexistent-id", Some("Title"), None, None, None);
    assert!(matches!(result, Err(KbError::NotFound(_))));
}

#[test]
fn test_update_page_partial_updates_with_coalesce() {
    let conn = setup_test_db();

    let space = create_space(&conn, "test-space", "Test", "").expect("Failed to create space");
    let page = create_page(
        &conn,
        &space.id,
        None,
        "Original Title",
        PageType::Reference,
        "Original Content",
        None,
        &[],
        "user",
        "agent",
    )
    .expect("Failed to create page");

    // Update only title, keep content
    let updated = update_page(&conn, &page.id, Some("New Title"), None, None, None)
        .expect("Update should succeed");
    assert_eq!(updated.title, "New Title");
    assert_eq!(updated.content, "Original Content");

    // Update only content, keep title
    let updated = update_page(&conn, &page.id, None, Some("New Content"), None, None)
        .expect("Update should succeed");
    assert_eq!(updated.title, "New Title");
    assert_eq!(updated.content, "New Content");
}

#[test]
fn test_append_to_page_atomic() {
    let conn = setup_test_db();

    let space = create_space(&conn, "test-space", "Test", "").expect("Failed to create space");
    let page = create_page(
        &conn,
        &space.id,
        None,
        "Log",
        PageType::SessionLog,
        "First entry",
        None,
        &[],
        "user",
        "agent",
    )
    .expect("Failed to create page");

    // Append should work atomically
    let updated = append_to_page(&conn, &page.id, "Second entry")
        .expect("Append should succeed");
    assert_eq!(updated.content, "First entry\nSecond entry");
    assert_eq!(updated.version, 2);

    // Another append
    let updated = append_to_page(&conn, &page.id, "Third entry")
        .expect("Append should succeed");
    assert_eq!(updated.content, "First entry\nSecond entry\nThird entry");
    assert_eq!(updated.version, 3);
}

#[test]
fn test_append_to_page_not_found() {
    let conn = setup_test_db();

    let result = append_to_page(&conn, "nonexistent-id", "content");
    assert!(matches!(result, Err(KbError::NotFound(_))));
}

#[test]
fn test_update_page_prevents_toctou_race_condition() {
    let conn = setup_test_db();

    let space = create_space(&conn, "test-space", "Test", "").expect("Failed to create space");
    let page = create_page(
        &conn,
        &space.id,
        None,
        "Original",
        PageType::Reference,
        "Content v1",
        None,
        &[],
        "user",
        "agent",
    )
    .expect("Failed to create page");

    // Simulate what would happen in a race condition:
    // 1. First agent tries to update with version check
    let update1 = update_page(&conn, &page.id, Some("Update 1"), None, None, Some(1));
    assert!(update1.is_ok());
    assert_eq!(update1.unwrap().version, 2);

    // 2. Second agent tries to update with stale version (simulating TOCTOU)
    // This MUST fail because the version is now 2, not 1
    let update2 = update_page(&conn, &page.id, Some("Update 2"), None, None, Some(1));
    match update2 {
        Err(KbError::VersionConflict { expected, actual }) => {
            assert_eq!(expected, 1);
            assert_eq!(actual, 2);
        }
        _ => panic!("Expected VersionConflict, got: {:?}", update2),
    }

    // Verify the page has the first update only
    let final_page = get_page(&conn, &page.id).expect("Should get page");
    assert_eq!(final_page.title, "Update 1");
    assert_eq!(final_page.version, 2);
}

#[test]
fn test_append_to_page_prevents_lost_updates() {
    let conn = setup_test_db();

    let space = create_space(&conn, "test-space", "Test", "").expect("Failed to create space");
    let page = create_page(
        &conn,
        &space.id,
        None,
        "Log",
        PageType::SessionLog,
        "Entry 1",
        None,
        &[],
        "user",
        "agent",
    )
    .expect("Failed to create page");

    // Multiple appends should all succeed atomically
    let result1 = append_to_page(&conn, &page.id, "Entry 2");
    assert!(result1.is_ok());
    assert_eq!(result1.unwrap().version, 2);

    let result2 = append_to_page(&conn, &page.id, "Entry 3");
    assert!(result2.is_ok());
    assert_eq!(result2.unwrap().version, 3);

    let result3 = append_to_page(&conn, &page.id, "Entry 4");
    assert!(result3.is_ok());
    assert_eq!(result3.unwrap().version, 4);

    // Verify all appends are present
    let final_page = get_page(&conn, &page.id).expect("Should get page");
    assert_eq!(final_page.content, "Entry 1\nEntry 2\nEntry 3\nEntry 4");
    assert_eq!(final_page.version, 4);
}

#[test]
fn test_create_page_with_duplicate_labels_fails_atomically() {
    let conn = setup_test_db();

    let space = create_space(&conn, "test-space", "Test", "").expect("Failed to create space");

    // Try to create a page with duplicate labels (violates PRIMARY KEY constraint)
    let duplicate_labels = vec!["rust".to_string(), "rust".to_string()];
    let result = create_page(
        &conn,
        &space.id,
        None,
        "Test Page",
        PageType::Reference,
        "Content",
        None,
        &duplicate_labels,
        "user",
        "agent",
    );

    // Should fail due to constraint violation
    assert!(matches!(result, Err(KbError::Db(_))));

    // Verify that the page was NOT created (transaction rolled back)
    let pages = list_pages(&conn, &PageFilters {
        space_id: Some(space.id.clone()),
        page_type: None,
        label: None,
        created_by_user: None,
        created_by_agent: None,
    })
    .expect("Failed to list pages");

    assert_eq!(pages.len(), 0, "No pages should exist after failed transaction");
}

#[test]
fn test_set_labels_with_duplicate_fails_atomically() {
    let conn = setup_test_db();

    let space = create_space(&conn, "test-space", "Test", "").expect("Failed to create space");
    let page = create_page(
        &conn,
        &space.id,
        None,
        "Test Page",
        PageType::Reference,
        "Content",
        None,
        &vec!["original".to_string()],
        "user",
        "agent",
    )
    .expect("Failed to create page");

    // Verify original label exists
    let labels = get_labels(&conn, &page.id).expect("Failed to get labels");
    assert_eq!(labels.len(), 1);
    assert_eq!(labels[0], "original");

    // Try to set labels with duplicates (violates PRIMARY KEY constraint)
    let duplicate_labels = vec!["new".to_string(), "new".to_string()];
    let result = set_labels(&conn, &page.id, &duplicate_labels);

    // Should fail due to constraint violation
    assert!(matches!(result, Err(KbError::Db(_))));

    // Verify that the original label is still there (transaction rolled back)
    let labels = get_labels(&conn, &page.id).expect("Failed to get labels");
    assert_eq!(labels.len(), 1);
    assert_eq!(labels[0], "original", "Original label should still exist after failed set_labels");
}

#[test]
fn test_list_top_level_pages() {
    let conn = setup_test_db();
    let space = create_space(&conn, "s", "S", "").expect("create space");

    let p1 = create_page(&conn, &space.id, None, "Bravo", PageType::Reference, "", None, &[], "u", "a")
        .expect("create p1");
    let _p2 = create_page(&conn, &space.id, Some(&p1.id), "Child", PageType::Reference, "", None, &[], "u", "a")
        .expect("create p2");
    let _p3 = create_page(&conn, &space.id, None, "Alpha", PageType::Decision, "", None, &["lbl".to_string()], "u", "a")
        .expect("create p3");

    let top = list_top_level_pages(&conn, &space.id).expect("list top-level");
    assert_eq!(top.len(), 2);
    assert_eq!(top[0].title, "Alpha");
    assert_eq!(top[1].title, "Bravo");
    assert!(top[0].labels.contains(&"lbl".to_string()));
}

#[test]
fn test_list_child_pages() {
    let conn = setup_test_db();
    let space = create_space(&conn, "s", "S", "").expect("create space");

    let parent = create_page(&conn, &space.id, None, "Parent", PageType::Reference, "", None, &[], "u", "a")
        .expect("create parent");
    let _c1 = create_page(&conn, &space.id, Some(&parent.id), "Zebra", PageType::Reference, "", None, &[], "u", "a")
        .expect("create c1");
    let _c2 = create_page(&conn, &space.id, Some(&parent.id), "Apple", PageType::Decision, "", None, &[], "u", "a")
        .expect("create c2");

    let children = list_child_pages(&conn, &parent.id).expect("list children");
    assert_eq!(children.len(), 2);
    assert_eq!(children[0].title, "Apple");
    assert_eq!(children[1].title, "Zebra");
}

#[test]
fn test_has_children() {
    let conn = setup_test_db();
    let space = create_space(&conn, "s", "S", "").expect("create space");

    let parent = create_page(&conn, &space.id, None, "Parent", PageType::Reference, "", None, &[], "u", "a")
        .expect("create parent");
    let leaf = create_page(&conn, &space.id, None, "Leaf", PageType::Reference, "", None, &[], "u", "a")
        .expect("create leaf");
    let _child = create_page(&conn, &space.id, Some(&parent.id), "Child", PageType::Reference, "", None, &[], "u", "a")
        .expect("create child");

    assert!(has_children(&conn, &parent.id).expect("check parent"));
    assert!(!has_children(&conn, &leaf.id).expect("check leaf"));
}

#[test]
fn test_create_page_with_sections() {
    let conn = setup_test_db();
    let space = create_space(&conn, "test-space", "Test", "").expect("create space");
    let sections = Sections::from_json(r#"{
        "context": "We need a DB.",
        "decision": "Use SQLite.",
        "options_considered": "Postgres, SQLite",
        "consequences": "Single-file storage."
    }"#).unwrap();
    let page = create_page(
        &conn, &space.id, None, "DB Choice", PageType::Decision,
        "", Some(&sections), &[], "user", "agent",
    ).expect("create page with sections");
    assert!(page.sections.is_some());
    assert!(page.content.contains("## Context"));
    assert!(page.content.contains("## Decision"));
}

#[test]
fn test_get_page_returns_sections() {
    let conn = setup_test_db();
    let space = create_space(&conn, "test-space", "Test", "").expect("create space");
    let sections = Sections::from_json(r#"{"context": "test", "decision": "test"}"#).unwrap();
    let page = create_page(
        &conn, &space.id, None, "Test", PageType::Decision,
        "", Some(&sections), &[], "user", "agent",
    ).expect("create");
    let retrieved = get_page(&conn, &page.id).expect("get");
    assert!(retrieved.sections.is_some());
    let secs = retrieved.sections.unwrap();
    assert_eq!(secs.get_text("context").unwrap(), "test");
}

#[test]
fn test_update_page_with_sections() {
    let conn = setup_test_db();
    let space = create_space(&conn, "test-space", "Test", "").expect("create space");
    let page = create_page(
        &conn, &space.id, None, "Test", PageType::Decision,
        "old content", None, &[], "user", "agent",
    ).expect("create");
    let new_sections = Sections::from_json(r#"{"context": "updated", "decision": "new choice"}"#).unwrap();
    let updated = update_page(&conn, &page.id, None, None, Some(&new_sections), None)
        .expect("update");
    assert!(updated.sections.is_some());
    assert!(updated.content.contains("## Context"));
}

#[test]
fn test_add_label_new() {
    let conn = setup_test_db();
    let space = create_space(&conn, "s", "S", "").expect("create space");
    let page = create_page(
        &conn, &space.id, None, "Page", PageType::Reference, "", None,
        &[], "u", "a",
    ).expect("create page");

    add_label(&conn, &page.id, "new-label").expect("add label");
    let labels = get_labels(&conn, &page.id).expect("get labels");
    assert_eq!(labels, vec!["new-label"]);
}

#[test]
fn test_add_label_duplicate_is_noop() {
    let conn = setup_test_db();
    let space = create_space(&conn, "s", "S", "").expect("create space");
    let page = create_page(
        &conn, &space.id, None, "Page", PageType::Reference, "", None,
        &["existing".to_string()], "u", "a",
    ).expect("create page");

    // Adding the same label again should not error
    add_label(&conn, &page.id, "existing").expect("add duplicate label");
    let labels = get_labels(&conn, &page.id).expect("get labels");
    assert_eq!(labels, vec!["existing"]);
}

#[test]
fn test_add_label_preserves_existing() {
    let conn = setup_test_db();
    let space = create_space(&conn, "s", "S", "").expect("create space");
    let page = create_page(
        &conn, &space.id, None, "Page", PageType::Reference, "", None,
        &["alpha".to_string(), "beta".to_string()], "u", "a",
    ).expect("create page");

    add_label(&conn, &page.id, "gamma").expect("add label");
    let labels = get_labels(&conn, &page.id).expect("get labels");
    assert_eq!(labels, vec!["alpha", "beta", "gamma"]);
}

#[test]
fn test_list_pages_includes_sections() {
    let conn = setup_test_db();
    let space = create_space(&conn, "test-space", "Test", "").expect("create space");
    let sections = Sections::from_json(r#"{"context": "test"}"#).unwrap();
    create_page(
        &conn, &space.id, None, "Test", PageType::Decision,
        "", Some(&sections), &[], "user", "agent",
    ).expect("create");
    let filters = PageFilters {
        space_id: Some(space.id), page_type: None, label: None,
        created_by_user: None, created_by_agent: None,
    };
    let pages = list_pages(&conn, &filters).expect("list");
    assert_eq!(pages.len(), 1);
    assert!(pages[0].sections.is_some());
}
