use rusqlite::Connection;
use tix::domain::AuthError;
use tix::domain::CreateTicketRequest;
use tix::domain::GetError;
use tix::domain::LoginRequest;
use tix::domain::UpdateError;
use tix::domain::UpdateTicketRequest;
use tix::query::build_update_plan;
use tix::store::Store;

fn fresh_store() -> Store {
    Store::init_database(Connection::open_in_memory().unwrap()).unwrap()
}

fn login_req(username: &str, password: &str) -> LoginRequest {
    LoginRequest {
        username: username.to_string(),
        password: password.to_string(),
        remember_me: false,
    }
}

fn create_req(category: &str, title: &str, description: &str, assignee: &str, reporter: &str) -> CreateTicketRequest {
    CreateTicketRequest {
        category: category.to_string(),
        title: title.to_string(),
        description: description.to_string(),
        assignee: assignee.to_string(),
        reporter: reporter.to_string(),
    }
}

fn empty_patch(id: &str) -> UpdateTicketRequest {
    UpdateTicketRequest {
        id: id.to_string(),
        status: None,
        assignee: None,
        category: None,
        title: None,
        description: None,
    }
}

#[test]
fn bootstrap_seeds_admin_and_samples() {
    let store = fresh_store();
    let tickets = store.get_tickets().unwrap();
    assert_eq!(tickets.len(), 4);
    let titles: Vec<&str> = tickets.iter().map(|t| t.title.as_str()).collect();
    assert!(titles.contains(&"Login page not responsive"));
    assert!(titles.contains(&"Add dark mode"));
    assert!(titles.contains(&"Database connection timeout"));
    assert!(titles.contains(&"Improve search functionality"));
    for t in &tickets {
        assert_eq!(t.assignee, "admin");
        assert_eq!(t.created_date, t.updated_at);
    }
    let statuses: Vec<&str> = tickets.iter().map(|t| t.status.as_str()).collect();
    assert!(statuses.contains(&"Open"));
    assert!(statuses.contains(&"In Progress"));
    assert!(statuses.contains(&"Closed"));
    assert!(store.login(&login_req("admin", "admin123")).is_ok());
}

#[test]
fn bootstrap_twice_is_idempotent() {
    let mut store = fresh_store();
    let before = store.get_tickets().unwrap();
    store.bootstrap().unwrap();
    let after = store.get_tickets().unwrap();
    assert_eq!(after.len(), 4);
    assert_eq!(before.len(), after.len());
    for (a, b) in before.iter().zip(after.iter()) {
        assert_eq!(a.id, b.id);
        assert_eq!(a.title, b.title);
        assert_eq!(a.updated_at, b.updated_at);
    }
    // Still exactly one admin account: its login works, and a third pass
    // changes nothing either.
    assert!(store.login(&login_req("admin", "admin123")).is_ok());
    store.bootstrap().unwrap();
    assert_eq!(store.get_tickets().unwrap().len(), 4);
}

#[test]
fn bootstrap_does_not_seed_where_admin_exists() {
    // A store whose tables and admin row already exist gets no sample
    // tickets: the empty listing comes back as an empty sequence.
    let conn = Connection::open_in_memory().unwrap();
    conn.execute(
        "CREATE TABLE IF NOT EXISTS users (id TEXT PRIMARY KEY, username TEXT UNIQUE NOT NULL, password_hash TEXT NOT NULL, created_at TEXT NOT NULL)",
        [],
    )
    .unwrap();
    let hash = bcrypt::hash("admin123", 4).unwrap();
    conn.execute(
        "INSERT INTO users (id, username, password_hash, created_at) VALUES (?, ?, ?, ?)",
        ["some-id", "admin", hash.as_str(), "2020-01-01T00:00:00+00:00"],
    )
    .unwrap();
    let store = Store::init_database(conn).unwrap();
    assert_eq!(store.get_tickets().unwrap().len(), 0);
    assert!(store.login(&login_req("admin", "admin123")).is_ok());
}

#[test]
fn login_never_returns_the_hash() {
    let store = fresh_store();
    let user = store.login(&login_req("admin", "admin123")).unwrap();
    assert_eq!(user.password_hash, "");
    assert_eq!(user.username, "admin");
    assert!(!user.id.is_empty());
    assert!(!user.created_at.is_empty());
}

#[test]
fn login_failures_are_indistinguishable() {
    let store = fresh_store();
    let unknown_user = store.login(&login_req("nosuchuser", "x")).unwrap_err();
    let wrong_password = store.login(&login_req("admin", "wrongpassword")).unwrap_err();
    assert_eq!(unknown_user, wrong_password);
    assert_eq!(unknown_user, AuthError::InvalidCredentials);
    assert_eq!(unknown_user.message(), "Invalid credentials");
}

#[test]
fn create_forces_open_status_and_one_timestamp() {
    let mut store = fresh_store();
    let t = store.create_ticket(&create_req("Bug", "T", "D", "a", "r")).unwrap();
    assert_eq!(t.status, "Open");
    assert_eq!(t.created_date, t.updated_at);
    assert_eq!(t.category, "Bug");
    assert_eq!(t.title, "T");
    assert_eq!(t.description, "D");
    assert_eq!(t.assignee, "a");
    assert_eq!(t.reporter, "r");
    assert_eq!(t.id.len(), 36);
}

#[test]
fn create_then_get_round_trips() {
    let mut store = fresh_store();
    let created = store.create_ticket(&create_req("Feature", "Round", "Trip", "alice", "bob")).unwrap();
    let got = store.get_ticket_by_id(&created.id).unwrap();
    assert_eq!(got.id, created.id);
    assert_eq!(got.category, created.category);
    assert_eq!(got.title, created.title);
    assert_eq!(got.description, created.description);
    assert_eq!(got.created_date, created.created_date);
    assert_eq!(got.assignee, created.assignee);
    assert_eq!(got.reporter, created.reporter);
    assert_eq!(got.status, created.status);
    assert_eq!(got.updated_at, created.updated_at);
}

#[test]
fn update_touches_exactly_the_present_fields() {
    let mut store = fresh_store();
    let t = store.create_ticket(&create_req("Bug", "Old title", "Desc", "ann", "rep")).unwrap();
    let patch = UpdateTicketRequest {
        id: t.id.clone(),
        status: Some("Closed".to_string()),
        assignee: None,
        category: None,
        title: Some("New title".to_string()),
        description: None,
    };
    let updated = store.update_ticket(&patch).unwrap();
    assert_eq!(updated.status, "Closed");
    assert_eq!(updated.title, "New title");
    assert_eq!(updated.id, t.id);
    assert_eq!(updated.category, t.category);
    assert_eq!(updated.description, t.description);
    assert_eq!(updated.assignee, t.assignee);
    assert_eq!(updated.reporter, t.reporter);
    assert_eq!(updated.created_date, t.created_date);
    // The re-read record is the authoritative stored row.
    let got = store.get_ticket_by_id(&t.id).unwrap();
    assert_eq!(got.status, updated.status);
    assert_eq!(got.title, updated.title);
    assert_eq!(got.updated_at, updated.updated_at);
}

#[test]
fn update_each_field_alone() {
    let mut store = fresh_store();
    let t = store.create_ticket(&create_req("Bug", "T", "D", "a", "r")).unwrap();
    let mut patch = empty_patch(&t.id);
    patch.assignee = Some("carol".to_string());
    let updated = store.update_ticket(&patch).unwrap();
    assert_eq!(updated.assignee, "carol");
    assert_eq!(updated.status, "Open");
    let mut patch = empty_patch(&t.id);
    patch.category = Some("Feature".to_string());
    patch.description = Some("D2".to_string());
    let updated = store.update_ticket(&patch).unwrap();
    assert_eq!(updated.category, "Feature");
    assert_eq!(updated.description, "D2");
    assert_eq!(updated.assignee, "carol");
    assert_eq!(updated.title, "T");
}

#[test]
fn empty_update_is_rejected_and_changes_nothing() {
    let mut store = fresh_store();
    let t = store.create_ticket(&create_req("Bug", "T", "D", "a", "r")).unwrap();
    let err = store.update_ticket(&empty_patch(&t.id)).unwrap_err();
    assert_eq!(err, UpdateError::NoFields);
    assert_eq!(err.message(), "No fields to update");
    let got = store.get_ticket_by_id(&t.id).unwrap();
    assert_eq!(got.status, t.status);
    assert_eq!(got.title, t.title);
    assert_eq!(got.updated_at, t.updated_at);
}

#[test]
fn missing_id_is_not_found_for_get_and_update() {
    let mut store = fresh_store();
    let unused = "00000000-0000-4000-8000-000000000000".to_string();
    let get_err = store.get_ticket_by_id(&unused).unwrap_err();
    assert_eq!(get_err, GetError::NotFound);
    assert_eq!(get_err.message(), "Ticket not found");
    let mut patch = empty_patch(&unused);
    patch.status = Some("Closed".to_string());
    let update_err = store.update_ticket(&patch).unwrap_err();
    assert_eq!(update_err, UpdateError::NotFound);
    assert_eq!(update_err.message(), "Ticket not found");
}

#[test]
fn listing_is_ordered_by_created_date_descending() {
    let mut store = fresh_store();
    store.create_ticket(&create_req("Bug", "newer", "D", "a", "r")).unwrap();
    let tickets = store.get_tickets().unwrap();
    assert_eq!(tickets.len(), 5);
    for pair in tickets.windows(2) {
        assert!(pair[0].created_date >= pair[1].created_date);
    }
    // The freshly created ticket has the newest creation date.
    assert_eq!(tickets[0].title, "newer");
}

#[test]
fn update_plan_builds_one_parameterized_statement() {
    let now = "2024-01-01T00:00:00+00:00".to_string();
    let mut patch = empty_patch("some-id");
    patch.status = Some("Closed".to_string());
    let plan = build_update_plan(&patch, &now);
    assert_eq!(plan.sql, "UPDATE tickets SET status = ?, updated_at = ? WHERE id = ?");
    assert_eq!(plan.params, vec!["Closed".to_string(), now.clone(), "some-id".to_string()]);
    patch.title = Some("T".to_string());
    patch.description = Some("D".to_string());
    let plan = build_update_plan(&patch, &now);
    assert_eq!(
        plan.sql,
        "UPDATE tickets SET status = ?, title = ?, description = ?, updated_at = ? WHERE id = ?"
    );
    assert_eq!(
        plan.params,
        vec![
            "Closed".to_string(),
            "T".to_string(),
            "D".to_string(),
            now.clone(),
            "some-id".to_string()
        ]
    );
}

#[test]
fn error_messages_are_stable() {
    assert_eq!(AuthError::InvalidCredentials.message(), "Invalid credentials");
    assert_eq!(AuthError::Storage.message(), "Storage error");
    assert_eq!(GetError::NotFound.message(), "Ticket not found");
    assert_eq!(GetError::Storage.message(), "Storage error");
    assert_eq!(UpdateError::NoFields.message(), "No fields to update");
    assert_eq!(UpdateError::NotFound.message(), "Ticket not found");
    assert_eq!(UpdateError::Storage.message(), "Storage error");
    assert_eq!(tix::domain::StorageError.message(), "Storage error");
}
