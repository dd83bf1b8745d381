use url_shortener::api::{Body, CreateLinkRequest, ErrorResponse, Response, Route};
use url_shortener::database::{Link, LinkTable};
use url_shortener::exchange::{execute, plan, Statement, Step};

fn error(status: u16, message: &str) -> Response {
    Response {
        status,
        location: None,
        body: Body::Error(ErrorResponse { error: message.to_string() }),
    }
}

#[test]
fn create_with_body_plans_an_insert() {
    let body = Some(CreateLinkRequest { url: "https://www.example.com".to_string() });
    match plan(Route::CreateLink, body) {
        Step::Run(Statement::Insert(link)) => {
            assert_eq!(link.url, "https://www.example.com");
            assert_eq!(link.id.len(), 8);
        }
        other => panic!("unexpected step {:?}", other),
    }
}

#[test]
fn create_without_body_is_answered_at_once() {
    assert_eq!(plan(Route::CreateLink, None), Step::Done(error(400, "Invalid request body")));
}

#[test]
fn delete_with_malformed_id_is_answered_at_once() {
    assert_eq!(
        plan(Route::DeleteLink("abc".to_string()), None),
        Step::Done(error(400, "Invalid ID format"))
    );
    assert_eq!(
        plan(Route::DeleteLink("abcd12345".to_string()), None),
        Step::Done(error(400, "Invalid ID format"))
    );
}

#[test]
fn delete_with_well_formed_id_plans_a_delete() {
    assert_eq!(
        plan(Route::DeleteLink("abcd1234".to_string()), None),
        Step::Run(Statement::Delete("abcd1234".to_string()))
    );
}

#[test]
fn redirect_plans_a_select_for_any_id() {
    assert_eq!(
        plan(Route::Redirect("nonexistent".to_string()), None),
        Step::Run(Statement::Select("nonexistent".to_string()))
    );
}

#[test]
fn unknown_route_is_answered_at_once() {
    assert_eq!(plan(Route::Unknown, None), Step::Done(error(404, "Not found")));
}

#[test]
fn execute_runs_each_statement() {
    let mut table = LinkTable::new();
    let link = Link { id: "abcd1234".to_string(), url: "https://www.example.com".to_string() };
    assert_eq!(execute(&mut table, Statement::Insert(link)).status, 201);
    let clash = Link { id: "abcd1234".to_string(), url: "https://other.example".to_string() };
    assert_eq!(
        execute(&mut table, Statement::Insert(clash)),
        error(500, "Failed to create link")
    );
    assert_eq!(
        execute(&mut table, Statement::Select("abcd1234".to_string())).location,
        Some("https://www.example.com".to_string())
    );
    assert_eq!(execute(&mut table, Statement::Delete("abcd1234".to_string())).status, 204);
    assert_eq!(
        execute(&mut table, Statement::Select("abcd1234".to_string())),
        error(404, "Not found")
    );
    assert_eq!(execute(&mut table, Statement::Delete("abcd1234".to_string())).status, 204);
}
