use vstd::prelude::*;
use crate::error::{error_text, AppError};
use crate::model::{with_id, PatchView, Restaurant, RestaurantPatch, RestaurantView};
use crate::object_id::{id_bytes_of, is_id_text, RecordId};
use crate::repo::{
    delete_result, delete_state, get_result, has_id, list_result, records_view, update_result,
    update_state, MemoryRepo,
};

verus! {

/// How many records `GET /api/restaurants` returns at most.
pub const PAGE_SIZE: i64 = 10;

/// The outcome classes a binding may answer with; no others.
#[derive(Debug, Clone, Copy, PartialEq, Eq, Structural)]
pub enum Status {
    Success,
    Created,
    NoContent,
    BadRequest,
    NotFound,
    InternalServerError,
}

/// The HTTP status code of each class.
pub open spec fn status_code(s: Status) -> u16 {
    match s {
        Status::Success => 200,
        Status::Created => 201,
        Status::NoContent => 204,
        Status::BadRequest => 400,
        Status::NotFound => 404,
        Status::InternalServerError => 500,
    }
}

impl Status {
    /// The HTTP status code.
    pub fn code(&self) -> (r: u16)
        ensures
            r == status_code(*self),
    {
        match self {
            Status::Success => 200,
            Status::Created => 201,
            Status::NoContent => 204,
            Status::BadRequest => 400,
            Status::NotFound => 404,
            Status::InternalServerError => 500,
        }
    }
}

/// A response payload before a binding encodes it.
#[derive(Debug)]
pub enum Body {
    Empty,
    Record(Restaurant),
    Records(Vec<Restaurant>),
    Text(String),
}

/// A transport-neutral response: a binding only frames it.
#[derive(Debug)]
pub struct Response {
    pub status: Status,
    pub body: Body,
}

pub enum BodyView {
    Empty,
    Record(RestaurantView),
    Records(Seq<RestaurantView>),
    Text(Seq<char>),
}

pub struct ResponseView {
    pub status: Status,
    pub body: BodyView,
}

impl View for Response {
    type V = ResponseView;

    open spec fn view(&self) -> ResponseView {
        ResponseView {
            status: self.status,
            body: match self.body {
                Body::Empty => BodyView::Empty,
                Body::Record(r) => BodyView::Record(r@),
                Body::Records(v) => BodyView::Records(records_view(v@)),
                Body::Text(t) => BodyView::Text(t@),
            },
        }
    }
}

/// The answer to an identifier that does not parse.
pub open spec fn invalid_id_view() -> ResponseView {
    ResponseView { status: Status::BadRequest, body: BodyView::Text("Invalid ID format"@) }
}

/// The answer to a body that does not decode.
pub open spec fn invalid_body_view() -> ResponseView {
    ResponseView { status: Status::BadRequest, body: BodyView::Text("Invalid request body"@) }
}

/// The answer to an update body that decodes but is no field mapping.
pub open spec fn invalid_update_view() -> ResponseView {
    ResponseView { status: Status::BadRequest, body: BodyView::Text("Invalid update document"@) }
}

/// The one mapping from errors to responses: client mistakes get a fixed short
/// message, `NotFound` an empty not-found answer, and storage or runtime
/// failures a server error that carries the error's description.
pub open spec fn failure_view(e: AppError) -> ResponseView {
    match e {
        AppError::NotFound => ResponseView { status: Status::NotFound, body: BodyView::Empty },
        AppError::InvalidObjectId(_) => invalid_id_view(),
        AppError::Serialization(_) => invalid_body_view(),
        AppError::BadRequest(_) => invalid_body_view(),
        AppError::MongoDB(_) => ResponseView {
            status: Status::InternalServerError,
            body: BodyView::Text(error_text(e)),
        },
        AppError::HandlerError(_) => ResponseView {
            status: Status::InternalServerError,
            body: BodyView::Text(error_text(e)),
        },
    }
}

/// The answer to a create.
pub open spec fn created_view(r: Result<RestaurantView, AppError>) -> ResponseView {
    match r {
        Ok(x) => ResponseView { status: Status::Created, body: BodyView::Record(x) },
        Err(e) => failure_view(e),
    }
}

/// The answer to a get or an update.
pub open spec fn record_view(r: Result<RestaurantView, AppError>) -> ResponseView {
    match r {
        Ok(x) => ResponseView { status: Status::Success, body: BodyView::Record(x) },
        Err(e) => failure_view(e),
    }
}

/// The answer to a listing.
pub open spec fn list_view(r: Result<Seq<RestaurantView>, AppError>) -> ResponseView {
    match r {
        Ok(v) => ResponseView { status: Status::Success, body: BodyView::Records(v) },
        Err(e) => failure_view(e),
    }
}

/// The answer to a delete.
pub open spec fn deleted_view(r: Result<(), AppError>) -> ResponseView {
    match r {
        Ok(()) => ResponseView { status: Status::NoContent, body: BodyView::Empty },
        Err(e) => failure_view(e),
    }
}

pub open spec fn result_view(r: Result<Restaurant, AppError>) -> Result<RestaurantView, AppError> {
    match r {
        Ok(x) => Ok(x@),
        Err(e) => Err(e),
    }
}

pub open spec fn list_result_view(r: Result<Vec<Restaurant>, AppError>) -> Result<
    Seq<RestaurantView>,
    AppError,
> {
    match r {
        Ok(v) => Ok(records_view(v@)),
        Err(e) => Err(e),
    }
}

fn text(s: &str) -> (r: String)
    ensures
        r@ == s@,
{
    String::from_str(s)
}

/// Parses a path identifier; text that is not an identifier is answered
/// before any repository call.
pub fn decode_id(id_text: &str) -> (r: Result<RecordId, Response>)
    ensures
        r is Ok <==> is_id_text(id_text@),
        r matches Ok(id) ==> id@ == id_bytes_of(id_text@),
        r matches Err(resp) ==> resp@ == invalid_id_view(),
{
    match RecordId::parse(id_text) {
        Ok(id) => Ok(id),
        Err(_) => Err(Response { status: Status::BadRequest, body: Body::Text(text("Invalid ID format")) }),
    }
}

/// The answer to a request body that failed to decode.
pub fn invalid_body_response() -> (r: Response)
    ensures
        r@ == invalid_body_view(),
{
    Response { status: Status::BadRequest, body: Body::Text(text("Invalid request body")) }
}

/// The answer to an update body that is no field mapping.
pub fn invalid_update_response() -> (r: Response)
    ensures
        r@ == invalid_update_view(),
{
    Response { status: Status::BadRequest, body: Body::Text(text("Invalid update document")) }
}

/// The response for a repository error.
pub fn failure_response(e: AppError) -> (r: Response)
    ensures
        r@ == failure_view(e),
{
    match e {
        AppError::NotFound => Response { status: Status::NotFound, body: Body::Empty },
        AppError::InvalidObjectId(_) => Response {
            status: Status::BadRequest,
            body: Body::Text(text("Invalid ID format")),
        },
        AppError::Serialization(_) => invalid_body_response(),
        AppError::BadRequest(_) => invalid_body_response(),
        AppError::MongoDB(_) => Response {
            status: Status::InternalServerError,
            body: Body::Text(e.message()),
        },
        AppError::HandlerError(_) => Response {
            status: Status::InternalServerError,
            body: Body::Text(e.message()),
        },
    }
}

/// Encodes the outcome of a create.
pub fn created_response(r: Result<Restaurant, AppError>) -> (resp: Response)
    ensures
        resp@ == created_view(result_view(r)),
{
    match r {
        Ok(x) => Response { status: Status::Created, body: Body::Record(x) },
        Err(e) => failure_response(e),
    }
}

/// Encodes the outcome of a get or an update.
pub fn record_response(r: Result<Restaurant, AppError>) -> (resp: Response)
    ensures
        resp@ == record_view(result_view(r)),
{
    match r {
        Ok(x) => Response { status: Status::Success, body: Body::Record(x) },
        Err(e) => failure_response(e),
    }
}

/// Encodes the outcome of a listing.
pub fn list_response(r: Result<Vec<Restaurant>, AppError>) -> (resp: Response)
    ensures
        resp@ == list_view(list_result_view(r)),
{
    match r {
        Ok(v) => Response { status: Status::Success, body: Body::Records(v) },
        Err(e) => failure_response(e),
    }
}

/// Encodes the outcome of a delete.
pub fn deleted_response(r: Result<(), AppError>) -> (resp: Response)
    ensures
        resp@ == deleted_view(r),
{
    match r {
        Ok(()) => Response { status: Status::NoContent, body: Body::Empty },
        Err(e) => failure_response(e),
    }
}

// ---------------------------------------------------------------------------
// The routes, served from the in-memory repository.
// ---------------------------------------------------------------------------

/// What `GET /api/restaurants/{id}` answers on collection `s`.
pub open spec fn get_view(s: Seq<RestaurantView>, id_text: Seq<char>) -> ResponseView {
    if is_id_text(id_text) {
        record_view(get_result(s, id_bytes_of(id_text)))
    } else {
        invalid_id_view()
    }
}

/// What `PUT /api/restaurants/{id}` answers on collection `s`.
pub open spec fn update_view(
    s: Seq<RestaurantView>,
    id_text: Seq<char>,
    p: PatchView,
) -> ResponseView {
    if is_id_text(id_text) {
        record_view(update_result(s, id_bytes_of(id_text), p))
    } else {
        invalid_id_view()
    }
}

/// What `DELETE /api/restaurants/{id}` answers on collection `s`.
pub open spec fn delete_view(s: Seq<RestaurantView>, id_text: Seq<char>) -> ResponseView {
    if is_id_text(id_text) {
        deleted_view(delete_result(s, id_bytes_of(id_text)))
    } else {
        invalid_id_view()
    }
}

/// `POST /api/restaurants`.
pub fn create_restaurant(repo: &mut MemoryRepo, record: Restaurant) -> (resp: Response)
    requires
        old(repo).wf(),
    ensures
        final(repo).wf(),
        resp.status == Status::Created || resp.status == Status::InternalServerError,
        resp.status == Status::Created ==> (resp@.body matches BodyView::Record(x) && x.id is Some
            && final(repo)@ == old(repo)@.push(x) && x == with_id(record@, x.id->Some_0)),
        resp.status == Status::InternalServerError ==> final(repo)@ == old(repo)@
            && old(repo)@.len() > 0 && resp@.body == BodyView::Text(
            "MongoDB error: "@ + "duplicate key error on _id"@,
        ),
        record.id matches Some(i) ==> (resp.status == Status::Created <==> !has_id(old(repo)@, i@)),
        old(repo)@.len() == 0 ==> resp.status == Status::Created,
{
    let r = repo.create_restaurant(record);
    created_response(r)
}

/// `GET /api/restaurants`: the first page of records.
pub fn list_restaurants(repo: &MemoryRepo) -> (resp: Response)
    requires
        repo.wf(),
    ensures
        resp@ == list_view(Ok(list_result(repo@, PAGE_SIZE as int))),
{
    list_response(repo.get_restaurants(PAGE_SIZE))
}

/// `GET /api/restaurants/{id}`.
pub fn get_restaurant(repo: &MemoryRepo, id_text: &str) -> (resp: Response)
    requires
        repo.wf(),
    ensures
        resp@ == get_view(repo@, id_text@),
{
    match decode_id(id_text) {
        Ok(id) => record_response(repo.get_restaurant_by_id(id)),
        Err(resp) => resp,
    }
}

/// `PUT /api/restaurants/{id}` with a decoded partial update.
pub fn update_restaurant(repo: &mut MemoryRepo, id_text: &str, patch: &RestaurantPatch) -> (resp:
    Response)
    requires
        old(repo).wf(),
    ensures
        final(repo).wf(),
        resp@ == update_view(old(repo)@, id_text@, patch@),
        final(repo)@ == (if is_id_text(id_text@) {
            update_state(old(repo)@, id_bytes_of(id_text@), patch@)
        } else {
            old(repo)@
        }),
{
    match decode_id(id_text) {
        Ok(id) => record_response(repo.update_restaurant(id, patch)),
        Err(resp) => resp,
    }
}

/// `DELETE /api/restaurants/{id}`.
pub fn delete_restaurant(repo: &mut MemoryRepo, id_text: &str) -> (resp: Response)
    requires
        old(repo).wf(),
    ensures
        final(repo).wf(),
        resp@ == delete_view(old(repo)@, id_text@),
        final(repo)@ == (if is_id_text(id_text@) {
            delete_state(old(repo)@, id_bytes_of(id_text@))
        } else {
            old(repo)@
        }),
{
    match decode_id(id_text) {
        Ok(id) => deleted_response(repo.delete_restaurant(id)),
        Err(resp) => resp,
    }
}

} // verus!
