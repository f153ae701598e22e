//! What holds of every request and every set of records.

use vstd::prelude::*;
use crate::model::DraftGameView;
use crate::service::{
    drafts_reply, health_reply, refusal, respond_spec, route_spec, BodyView, HealthView,
    ReplyView, Route, DRAFTS_PATH, GET, HEALTH_PATH, STATUS_METHOD_NOT_ALLOWED,
    STATUS_NOT_FOUND, STATUS_OK,
};

verus! {

/// The two defined paths differ, so a request has at most one handler.
pub proof fn lemma_paths_differ()
    ensures
        HEALTH_PATH@ != DRAFTS_PATH@,
{
    reveal_strlit("/api/healthz");
    reveal_strlit("/api/drafts");
    assert(HEALTH_PATH@.len() == 12);
    assert(DRAFTS_PATH@.len() == 11);
}

/// Every `GET` request to the health path is answered with status 200 and the
/// payload whose status is `ok`, whatever records the service holds.
pub proof fn health_check_always_succeeds(
    method: Seq<char>,
    path: Seq<char>,
    state: Seq<DraftGameView>,
)
    requires
        method == GET@,
        path == HEALTH_PATH@,
    ensures
        respond_spec(method, path, state).status == 200,
        respond_spec(method, path, state).body == BodyView::Health(
            HealthView { status: "ok"@ },
        ),
{
}

/// Every `GET` request to the listing path is answered with status 200 and with
/// all the records: as many as the service holds, each in its place.
pub proof fn listing_returns_every_record(
    method: Seq<char>,
    path: Seq<char>,
    state: Seq<DraftGameView>,
)
    requires
        method == GET@,
        path == DRAFTS_PATH@,
    ensures
        respond_spec(method, path, state).status == 200,
        respond_spec(method, path, state).body matches BodyView::Drafts(listed) && {
            &&& listed.len() == state.len()
            &&& forall|i: int| 0 <= i < state.len() ==> listed[i] == state[i]
            &&& forall|i: int|
                0 <= i < state.len() ==> listed[i].players == #[trigger] state[i].players
        },
{
    lemma_paths_differ();
}

/// Asking again changes nothing: two replies to the same request, made from the
/// same records, are equal.
pub proof fn same_request_same_reply(
    method: Seq<char>,
    path: Seq<char>,
    state: Seq<DraftGameView>,
    first: ReplyView,
    second: ReplyView,
)
    requires
        first == respond_spec(method, path, state),
        second == respond_spec(method, path, state),
    ensures
        first == second,
{
}

/// The listing shows the records and nothing else: two listings are equal exactly
/// when they are made from the same records.
pub proof fn listing_reflects_records(a: Seq<DraftGameView>, b: Seq<DraftGameView>)
    ensures
        (drafts_reply(a) == drafts_reply(b)) <==> a == b,
        respond_spec(GET@, DRAFTS_PATH@, a) == drafts_reply(a),
{
    lemma_paths_differ();
}

/// A request to a path that is not defined is refused as not found, whatever its
/// method: the status is 404, neither a success nor a server error.
pub proof fn undefined_path_is_not_found(
    method: Seq<char>,
    path: Seq<char>,
    state: Seq<DraftGameView>,
)
    requires
        path != HEALTH_PATH@,
        path != DRAFTS_PATH@,
    ensures
        route_spec(method, path) == Route::NotFound,
        respond_spec(method, path, state) == refusal(404),
        respond_spec(method, path, state).status != 200,
        respond_spec(method, path, state).status != 500,
{
}

/// A request to a defined path with another method than `GET` is refused with
/// status 405.
pub proof fn other_method_is_not_allowed(
    method: Seq<char>,
    path: Seq<char>,
    state: Seq<DraftGameView>,
)
    requires
        method != GET@,
        path == HEALTH_PATH@ || path == DRAFTS_PATH@,
    ensures
        route_spec(method, path) == Route::MethodNotAllowed,
        respond_spec(method, path, state) == refusal(405),
{
}

/// The status tells the outcome. It is 200, 404 or 405 and never a server error;
/// it is 200 exactly for a `GET` request to a defined path; and a reply has a
/// body exactly when its status is 200.
pub proof fn status_tells_outcome(method: Seq<char>, path: Seq<char>, state: Seq<DraftGameView>)
    ensures
        ({
            let reply = respond_spec(method, path, state);
            let served = method == GET@ && (path == HEALTH_PATH@ || path == DRAFTS_PATH@);
            &&& reply.status == STATUS_OK || reply.status == STATUS_NOT_FOUND || reply.status
                == STATUS_METHOD_NOT_ALLOWED
            &&& reply.status != 500
            &&& reply.status == 200 <==> served
            &&& reply.body is Empty <==> !served
            &&& served ==> reply == health_reply() || reply == drafts_reply(state)
        }),
{
}

} // verus!
