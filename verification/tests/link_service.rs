use url_shortener::database::{Link, LinkTable, StoreError};
use url_shortener::service::{
    check_id, create_link, delete_link, link_created, link_deleted, link_resolved, new_link,
    resolve_link, store_link, Attempt, ServiceError,
};

fn link(id: &str, url: &str) -> Link {
    Link { id: id.to_string(), url: url.to_string() }
}

#[test]
fn new_link_keeps_the_url_and_mints_an_id() {
    let made = new_link("https://www.example.com");
    assert_eq!(made.url, "https://www.example.com");
    assert_eq!(made.id.len(), 8);
}

#[test]
fn check_id_accepts_only_eight_characters() {
    assert_eq!(check_id("abcd1234"), Ok(()));
    assert_eq!(check_id(""), Err(ServiceError::InvalidId));
    assert_eq!(check_id("abc"), Err(ServiceError::InvalidId));
    assert_eq!(check_id("abcd12345"), Err(ServiceError::InvalidId));
}

#[test]
fn create_without_connection_is_service_unavailable() {
    let result = link_created(link("abcd1234", "https://a.example"), Attempt::NoConnection);
    assert_eq!(result, Err(ServiceError::ServiceUnavailable));
}

#[test]
fn create_reports_the_stored_link() {
    let result = link_created(link("abcd1234", "https://a.example"), Attempt::Ran(Ok(())));
    assert_eq!(result, Ok(link("abcd1234", "https://a.example")));
}

#[test]
fn create_folds_every_store_error_into_store_failure() {
    for e in [StoreError::AlreadyExists, StoreError::Unavailable, StoreError::NotFound] {
        let result = link_created(link("abcd1234", "https://a.example"), Attempt::Ran(Err(e)));
        assert_eq!(result, Err(ServiceError::StoreFailure));
    }
}

#[test]
fn delete_outcomes() {
    assert_eq!(link_deleted(Attempt::NoConnection), Err(ServiceError::ServiceUnavailable));
    assert_eq!(link_deleted(Attempt::Ran(Ok(()))), Ok(()));
    assert_eq!(
        link_deleted(Attempt::Ran(Err(StoreError::Unavailable))),
        Err(ServiceError::StoreFailure)
    );
}

#[test]
fn resolve_outcomes() {
    assert_eq!(link_resolved(Attempt::NoConnection), Err(ServiceError::ServiceUnavailable));
    assert_eq!(
        link_resolved(Attempt::Ran(Ok("https://a.example".to_string()))),
        Ok("https://a.example".to_string())
    );
    assert_eq!(link_resolved(Attempt::Ran(Err(StoreError::NotFound))), Err(ServiceError::NotFound));
    assert_eq!(
        link_resolved(Attempt::Ran(Err(StoreError::Unavailable))),
        Err(ServiceError::StoreFailure)
    );
    assert_eq!(
        link_resolved(Attempt::Ran(Err(StoreError::AlreadyExists))),
        Err(ServiceError::StoreFailure)
    );
}

#[test]
fn created_link_round_trips() {
    let mut table = LinkTable::new();
    let made = create_link(&mut table, "https://www.example.com").unwrap();
    assert_eq!(made.id.chars().count(), 8);
    assert_eq!(made.url, "https://www.example.com");
    assert_eq!(resolve_link(&table, &made.id), Ok("https://www.example.com".to_string()));
}

#[test]
fn many_creates_all_resolve() {
    let mut table = LinkTable::new();
    let mut made = Vec::new();
    for i in 0..50 {
        let url = format!("https://example.com/{}", i);
        if let Ok(l) = create_link(&mut table, &url) {
            assert_eq!(l.url, url);
            made.push(l);
        }
    }
    assert_eq!(table.len(), made.len());
    for l in &made {
        assert_eq!(resolve_link(&table, &l.id), Ok(l.url.clone()));
    }
}

#[test]
fn clash_fails_and_keeps_the_first_link() {
    let mut table = LinkTable::new();
    assert_eq!(
        store_link(&mut table, link("abcd1234", "https://first.example")),
        Ok(link("abcd1234", "https://first.example"))
    );
    assert_eq!(
        store_link(&mut table, link("abcd1234", "https://second.example")),
        Err(ServiceError::StoreFailure)
    );
    assert_eq!(resolve_link(&table, "abcd1234"), Ok("https://first.example".to_string()));
}

#[test]
fn delete_then_resolve_is_not_found() {
    let mut table = LinkTable::new();
    let made = create_link(&mut table, "https://www.example.com").unwrap();
    assert_eq!(delete_link(&mut table, &made.id), Ok(()));
    assert_eq!(resolve_link(&table, &made.id), Err(ServiceError::NotFound));
    assert_eq!(table.len(), 0);
}

#[test]
fn delete_of_unknown_id_succeeds() {
    let mut table = LinkTable::new();
    assert_eq!(delete_link(&mut table, "abcd1234"), Ok(()));
    assert_eq!(delete_link(&mut table, "abcd1234"), Ok(()));
}

#[test]
fn delete_of_malformed_id_is_refused_and_changes_nothing() {
    let mut table = LinkTable::new();
    assert_eq!(store_link(&mut table, link("short", "https://a.example")).is_ok(), true);
    assert_eq!(delete_link(&mut table, "short"), Err(ServiceError::InvalidId));
    assert_eq!(delete_link(&mut table, ""), Err(ServiceError::InvalidId));
    assert_eq!(delete_link(&mut table, "abcd12345"), Err(ServiceError::InvalidId));
    assert_eq!(table.len(), 1);
    assert_eq!(resolve_link(&table, "short"), Ok("https://a.example".to_string()));
}

#[test]
fn resolve_does_not_check_the_length() {
    let table = LinkTable::new();
    assert_eq!(resolve_link(&table, "nonexistent"), Err(ServiceError::NotFound));
    assert_eq!(resolve_link(&table, ""), Err(ServiceError::NotFound));
}
