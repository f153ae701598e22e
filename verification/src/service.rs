//! Requests, replies, and the rule that maps one to the other.

use vstd::prelude::*;
use crate::model::{DraftGame, DraftGameView};
use crate::text::same_text;

verus! {

/// The only method that the service answers.
pub const GET: &'static str = "GET";

/// The path of the health check.
pub const HEALTH_PATH: &'static str = "/api/healthz";

/// The path of the listing of draft games.
pub const DRAFTS_PATH: &'static str = "/api/drafts";

/// Status of a request that was served.
pub const STATUS_OK: u16 = 200;

/// Status of a request whose path is not defined.
pub const STATUS_NOT_FOUND: u16 = 404;

/// Status of a request to a defined path with another method than `GET`.
pub const STATUS_METHOD_NOT_ALLOWED: u16 = 405;

/// Where a request goes.
#[derive(Debug, Clone, Copy, PartialEq, Eq)]
pub enum Route {
    /// To the health check.
    Health,
    /// To the listing of draft games.
    Drafts,
    /// Nowhere: the path is defined, the method is not `GET`.
    MethodNotAllowed,
    /// Nowhere: the path is not defined.
    NotFound,
}

/// Routing is an exact match on the path, then on the method. The path is the
/// path component of the request target, without a query; both are compared
/// character by character, so case and a trailing slash count.
pub open spec fn route_spec(method: Seq<char>, path: Seq<char>) -> Route {
    if path != HEALTH_PATH@ && path != DRAFTS_PATH@ {
        Route::NotFound
    } else if method != GET@ {
        Route::MethodNotAllowed
    } else if path == HEALTH_PATH@ {
        Route::Health
    } else {
        Route::Drafts
    }
}

/// Decides where the request with this method and path goes.
pub fn route(method: &str, path: &str) -> (r: Route)
    ensures
        r == route_spec(method@, path@),
{
    let health = same_text(path, HEALTH_PATH);
    let drafts = same_text(path, DRAFTS_PATH);
    if !health && !drafts {
        Route::NotFound
    } else if !same_text(method, GET) {
        Route::MethodNotAllowed
    } else if health {
        Route::Health
    } else {
        Route::Drafts
    }
}

/// The payload of the health check.
#[derive(Debug, PartialEq, Eq)]
pub struct Health {
    pub status: String,
}

/// What a [`Health`] holds.
pub ghost struct HealthView {
    pub status: Seq<char>,
}

impl View for Health {
    type V = HealthView;

    open spec fn view(&self) -> HealthView {
        HealthView { status: self.status@ }
    }
}

/// What a reply carries, before it is written out as JSON.
#[derive(Debug, PartialEq, Eq)]
pub enum Body {
    /// The health payload, a JSON object.
    Health(Health),
    /// The records, a JSON array in this order.
    Drafts(Vec<DraftGame>),
    /// No body.
    Empty,
}

/// What a [`Body`] holds.
pub ghost enum BodyView {
    Health(HealthView),
    Drafts(Seq<DraftGameView>),
    Empty,
}

impl View for Body {
    type V = BodyView;

    open spec fn view(&self) -> BodyView {
        match self {
            Body::Health(health) => BodyView::Health(health@),
            Body::Drafts(games) => BodyView::Drafts(games.deep_view()),
            Body::Empty => BodyView::Empty,
        }
    }
}

/// The answer to one request.
#[derive(Debug, PartialEq, Eq)]
pub struct Reply {
    /// The HTTP status code.
    pub status: u16,
    /// What the response carries.
    pub body: Body,
}

/// What a [`Reply`] holds.
pub ghost struct ReplyView {
    pub status: u16,
    pub body: BodyView,
}

impl View for Reply {
    type V = ReplyView;

    open spec fn view(&self) -> ReplyView {
        ReplyView { status: self.status, body: self.body@ }
    }
}

/// The health check succeeds and reports the status `ok`.
pub open spec fn health_reply() -> ReplyView {
    ReplyView { status: STATUS_OK, body: BodyView::Health(HealthView { status: "ok"@ }) }
}

/// The listing succeeds and carries every record of `state`, in the order of `state`.
pub open spec fn drafts_reply(state: Seq<DraftGameView>) -> ReplyView {
    ReplyView { status: STATUS_OK, body: BodyView::Drafts(state) }
}

/// A refusal carries its status and no body.
pub open spec fn refusal(status: u16) -> ReplyView {
    ReplyView { status, body: BodyView::Empty }
}

/// The reply to a request is decided by its route and, for the listing, by `state`.
pub open spec fn respond_spec(
    method: Seq<char>,
    path: Seq<char>,
    state: Seq<DraftGameView>,
) -> ReplyView {
    match route_spec(method, path) {
        Route::Health => health_reply(),
        Route::Drafts => drafts_reply(state),
        Route::MethodNotAllowed => refusal(STATUS_METHOD_NOT_ALLOWED),
        Route::NotFound => refusal(STATUS_NOT_FOUND),
    }
}

/// Answers the health check.
pub fn health() -> (reply: Reply)
    ensures
        reply@ == health_reply(),
{
    Reply { status: STATUS_OK, body: Body::Health(Health { status: "ok".to_owned() }) }
}

/// Answers the listing with a copy of every record of `state`, in the order of `state`.
pub fn list_drafts(state: &Vec<DraftGame>) -> (reply: Reply)
    ensures
        reply@ == drafts_reply(state.deep_view()),
{
    let games = state.clone();
    assert(games.deep_view() =~= state.deep_view());
    Reply { status: STATUS_OK, body: Body::Drafts(games) }
}

/// Answers the request with this method and path from the records in `state`.
pub fn respond(method: &str, path: &str, state: &Vec<DraftGame>) -> (reply: Reply)
    ensures
        reply@ == respond_spec(method@, path@, state.deep_view()),
{
    match route(method, path) {
        Route::Health => health(),
        Route::Drafts => list_drafts(state),
        Route::MethodNotAllowed => Reply { status: STATUS_METHOD_NOT_ALLOWED, body: Body::Empty },
        Route::NotFound => Reply { status: STATUS_NOT_FOUND, body: Body::Empty },
    }
}

} // verus!
