//! One request against a link table, from route to response, and what holds
//! of every such request.

use vstd::prelude::*;
use vstd::string::*;
use crate::api::{
    bad_body, bad_body_response, create_response, created, delete_response, failure, no_content,
    not_found, not_found_response, redirect_response, route, route_of, see_other,
    CreateLinkRequest, Method, Reply, Response, Route, Target,
};
use crate::database::{Link, LinkTable};
use crate::id::{is_minted_id, is_valid_id};
use crate::service::{check_id, link_deleted, new_link, resolve_link, store_link, Attempt};

verus! {

/// A create request that was given the identifier `id`: a free identifier
/// takes the link, a taken one keeps what it has and the request fails.
pub open spec fn create_outcome(
    before: Map<Seq<char>, Seq<char>>,
    id: Seq<char>,
    url: Seq<char>,
) -> (Reply, Map<Seq<char>, Seq<char>>) {
    if before.dom().contains(id) {
        (failure(500, "Failed to create link"@), before)
    } else {
        (created(id, url), before.insert(id, url))
    }
}

/// A delete request: refused for an identifier of the wrong length, and
/// otherwise a success that leaves no link under `id`.
pub open spec fn delete_outcome(before: Map<Seq<char>, Seq<char>>, id: Seq<char>) -> (
    Reply,
    Map<Seq<char>, Seq<char>>,
) {
    if is_valid_id(id) {
        (no_content(), before.remove(id))
    } else {
        (failure(400, "Invalid ID format"@), before)
    }
}

/// A redirect request: to the stored URL, or a miss.
pub open spec fn redirect_outcome(table: Map<Seq<char>, Seq<char>>, id: Seq<char>) -> Reply {
    if table.dom().contains(id) {
        see_other(table[id])
    } else {
        not_found()
    }
}

/// `reply` and `after` are what a request for `target`, with the URL of its
/// decoded body if it had one, may give on the table `before`. Only a create
/// request leaves a choice: the identifier that was minted for it.
pub open spec fn answers(
    before: Map<Seq<char>, Seq<char>>,
    target: Target,
    body: Option<Seq<char>>,
    reply: Reply,
    after: Map<Seq<char>, Seq<char>>,
) -> bool {
    match target {
        Target::CreateLink => match body {
            Some(url) => exists|id: Seq<char>| #[trigger]
                is_minted_id(id) && (reply, after) == create_outcome(before, id, url),
            None => reply == bad_body() && after == before,
        },
        Target::DeleteLink(id) => (reply, after) == delete_outcome(before, id),
        Target::Redirect(id) => reply == redirect_outcome(before, id) && after == before,
        Target::Unknown => reply == not_found() && after == before,
    }
}

/// The URL of a decoded body, as a sequence of characters.
pub open spec fn url_of(body: Option<CreateLinkRequest>) -> Option<Seq<char>> {
    match body {
        Some(request) => Some(request.url@),
        None => None,
    }
}

/// One statement on the store.
#[derive(Debug, PartialEq, Eq)]
pub enum Statement {
    /// Insert this link.
    Insert(Link),
    /// Delete the link with this identifier.
    Delete(String),
    /// Look up the link with this identifier.
    Select(String),
}

/// What a request asks for before anything has touched the store.
#[derive(Debug, PartialEq, Eq)]
pub enum Step {
    /// Ask for a connection and run this statement.
    Run(Statement),
    /// Answer at once with this response: the store is not needed.
    Done(Response),
}

/// `step` is what a request for `target`, with the URL of its decoded body
/// if it had one, may begin with. A create request with a body inserts the
/// URL under a minted identifier; a delete request reaches the store only
/// with an identifier of the right length; a redirect request looks up
/// whatever identifier it names.
pub open spec fn begins(target: Target, body: Option<Seq<char>>, step: Step) -> bool {
    match (target, step) {
        (Target::CreateLink, Step::Run(Statement::Insert(link))) => body == Some(link.url@)
            && is_minted_id(link.id@),
        (Target::CreateLink, Step::Done(response)) => body is None && response@ == bad_body(),
        (Target::DeleteLink(id), Step::Run(Statement::Delete(key))) => is_valid_id(id) && key@
            == id,
        (Target::DeleteLink(id), Step::Done(response)) => !is_valid_id(id) && response@
            == failure(400, "Invalid ID format"@),
        (Target::Redirect(id), Step::Run(Statement::Select(key))) => key@ == id,
        (Target::Unknown, Step::Done(response)) => response@ == not_found(),
        _ => false,
    }
}

/// Decides what a request begins with: the statement to run, or the
/// response where none is to be run.
pub fn plan(target: Route, body: Option<CreateLinkRequest>) -> (step: Step)
    ensures
        begins(target@, url_of(body), step),
{
    match target {
        Route::CreateLink => match body {
            Some(request) => Step::Run(Statement::Insert(new_link(request.url.as_str()))),
            None => Step::Done(bad_body_response()),
        },
        Route::DeleteLink(id) => match check_id(id.as_str()) {
            Ok(_) => Step::Run(Statement::Delete(id)),
            Err(refused) => Step::Done(delete_response(Err(refused))),
        },
        Route::Redirect(id) => Step::Run(Statement::Select(id)),
        Route::Unknown => Step::Done(not_found_response()),
    }
}

/// Runs `statement` on `table` and reports what came of it.
pub fn execute(table: &mut LinkTable, statement: Statement) -> (response: Response)
    requires
        old(table).is_valid(),
    ensures
        final(table).is_valid(),
        match statement {
            Statement::Insert(link) => (response@, final(table)@) == create_outcome(
                old(table)@,
                link.id@,
                link.url@,
            ),
            Statement::Delete(id) => {
                &&& response@ == no_content()
                &&& final(table)@ == old(table)@.remove(id@)
            },
            Statement::Select(id) => {
                &&& response@ == redirect_outcome(old(table)@, id@)
                &&& final(table)@ == old(table)@
            },
        },
{
    match statement {
        Statement::Insert(link) => create_response(store_link(table, link)),
        Statement::Delete(id) => {
            let done = crate::database::delete_link(table, id.as_str());
            delete_response(link_deleted(Attempt::Ran(done)))
        },
        Statement::Select(id) => redirect_response(resolve_link(table, id.as_str())),
    }
}

/// Carries out the operation that `target` names and reports it.
pub fn respond(table: &mut LinkTable, target: Route, body: Option<CreateLinkRequest>) -> (response:
    Response)
    requires
        old(table).is_valid(),
    ensures
        final(table).is_valid(),
        answers(old(table)@, target@, url_of(body), response@, final(table)@),
{
    match plan(target, body) {
        Step::Run(statement) => {
            let ghost asked = statement;
            let response = execute(table, statement);
            assert(asked matches Statement::Insert(link) ==> is_minted_id(link.id@) && (
                response@,
                table@,
            ) == create_outcome(old(table)@, link.id@, url_of(body)->0));
            response
        },
        Step::Done(response) => response,
    }
}

/// Serves one request: finds its route, carries out the operation, and
/// reports it.
pub fn serve(
    table: &mut LinkTable,
    method: Method,
    path: &str,
    body: Option<CreateLinkRequest>,
) -> (response: Response)
    requires
        old(table).is_valid(),
    ensures
        final(table).is_valid(),
        answers(old(table)@, route_of(method, path@), url_of(body), response@, final(table)@),
{
    respond(table, route(method, path), body)
}

/// A create request that succeeded reports an identifier of eight
/// characters and the URL as it came, and a redirect request for that
/// identifier then leads to the same URL.
pub proof fn created_link_resolves(
    before: Map<Seq<char>, Seq<char>>,
    url: Seq<char>,
    reply: Reply,
    after: Map<Seq<char>, Seq<char>>,
)
    requires
        answers(before, Target::CreateLink, Some(url), reply, after),
        reply.status == 201,
    ensures
        exists|id: Seq<char>| #[trigger]
            is_valid_id(id) && reply == created(id, url) && redirect_outcome(after, id)
                == see_other(url),
{
    let id = choose|id: Seq<char>| #[trigger]
        is_minted_id(id) && (reply, after) == create_outcome(before, id, url);
    assert(is_valid_id(id) && reply == created(id, url) && redirect_outcome(after, id)
        == see_other(url));
}

/// A create request fails only on a clash: the identifier minted for it
/// already had a link, and that link stays as it was.
pub proof fn failed_create_keeps_table(
    before: Map<Seq<char>, Seq<char>>,
    url: Seq<char>,
    reply: Reply,
    after: Map<Seq<char>, Seq<char>>,
)
    requires
        answers(before, Target::CreateLink, Some(url), reply, after),
        reply.status != 201,
    ensures
        after == before,
        reply == failure(500, "Failed to create link"@),
        exists|id: Seq<char>| #[trigger] is_minted_id(id) && before.dom().contains(id),
{
    let id = choose|id: Seq<char>| #[trigger]
        is_minted_id(id) && (reply, after) == create_outcome(before, id, url);
    assert(is_minted_id(id) && before.dom().contains(id));
}

/// A create request never replaces a link: whatever identifier was minted
/// for it, every link that was there before is still there, under the same
/// identifier and with the same URL. So no identifier ever stands for two
/// links, though nothing keeps two requests from minting the same one.
pub proof fn create_never_replaces(
    before: Map<Seq<char>, Seq<char>>,
    url: Seq<char>,
    reply: Reply,
    after: Map<Seq<char>, Seq<char>>,
    id: Seq<char>,
)
    requires
        answers(before, Target::CreateLink, Some(url), reply, after),
        before.dom().contains(id),
    ensures
        after.dom().contains(id),
        after[id] == before[id],
{
}

/// Every identifier has the fixed length: if that holds of the links in the
/// table before a request, it holds of them after it.
pub proof fn ids_stay_well_formed(
    before: Map<Seq<char>, Seq<char>>,
    target: Target,
    body: Option<Seq<char>>,
    reply: Reply,
    after: Map<Seq<char>, Seq<char>>,
)
    requires
        answers(before, target, body, reply, after),
        forall|id: Seq<char>| before.dom().contains(id) ==> is_valid_id(id),
    ensures
        forall|id: Seq<char>| after.dom().contains(id) ==> is_valid_id(id),
{
}

/// Deleting a link of a well-formed identifier succeeds whether or not the
/// link was there, a redirect request for it then misses, and deleting it
/// once more changes nothing.
pub proof fn deleted_link_is_gone(before: Map<Seq<char>, Seq<char>>, id: Seq<char>)
    requires
        is_valid_id(id),
    ensures
        delete_outcome(before, id).0 == no_content(),
        redirect_outcome(delete_outcome(before, id).1, id) == not_found(),
        !before.dom().contains(id) ==> delete_outcome(before, id).1 == before,
        delete_outcome(delete_outcome(before, id).1, id) == delete_outcome(before, id),
{
    let after = before.remove(id);
    assert(after.remove(id) =~= after);
    if !before.dom().contains(id) {
        assert(after =~= before);
    }
}

/// A delete request for an identifier of any other length is refused
/// before any statement is run, and the table stays as it was.
pub proof fn malformed_id_is_refused(
    before: Map<Seq<char>, Seq<char>>,
    id: Seq<char>,
    body: Option<Seq<char>>,
    step: Step,
)
    requires
        id.len() != 8,
        begins(Target::DeleteLink(id), body, step),
    ensures
        step matches Step::Done(response) && response@ == failure(400, "Invalid ID format"@),
        delete_outcome(before, id) == (failure(400, "Invalid ID format"@), before),
{
}

/// A request that no route takes, or a redirect request for an identifier
/// that no link has, gets the one not-found response, and the table stays as
/// it was.
pub proof fn unmatched_request_is_not_found(
    before: Map<Seq<char>, Seq<char>>,
    method: Method,
    path: Seq<char>,
    body: Option<Seq<char>>,
    reply: Reply,
    after: Map<Seq<char>, Seq<char>>,
)
    requires
        answers(before, route_of(method, path), body, reply, after),
        match route_of(method, path) {
            Target::Unknown => true,
            Target::Redirect(id) => !before.dom().contains(id),
            _ => false,
        },
    ensures
        reply == not_found(),
        reply.status == 404,
        after == before,
{
}

/// A path of more than one segment is no link's address: whatever the
/// method, only the two routes under `/api/links` can take it.
pub proof fn deep_path_is_no_redirect(method: Method, path: Seq<char>)
    requires
        exists|i: int| 1 <= i < path.len() && path[i] == '/',
    ensures
        !(route_of(method, path) is Redirect),
{
    reveal_strlit("/");
    let i = choose|i: int| 1 <= i < path.len() && path[i] == '/';
    assert(path.skip(1)[i - 1] == '/');
}

} // verus!
