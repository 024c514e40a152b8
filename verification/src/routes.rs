//! The answers of the library and media routes, given the outcome of the
//! database work each route does, and the bodies of the error catchers.
use vstd::prelude::*;

verus! {

/// The HTTP statuses that the routes answer with.
#[derive(Debug, Clone, Copy, PartialEq, Eq, Structural)]
pub enum RouteStatus {
    Success,
    NotFound,
    NotImplemented,
}

/// The numeric code of a status.
pub open spec fn status_code(s: RouteStatus) -> u16 {
    match s {
        RouteStatus::Success => 200,
        RouteStatus::NotFound => 404,
        RouteStatus::NotImplemented => 501,
    }
}

impl RouteStatus {
    /// The numeric code of the status.
    pub fn code(&self) -> (r: u16)
        ensures
            r == status_code(*self),
    {
        match self {
            RouteStatus::Success => 200,
            RouteStatus::NotFound => 404,
            RouteStatus::NotImplemented => 501,
        }
    }
}

/// The answer to a write whose only result is whether it succeeded:
/// `Success` on success, `failure` otherwise.
pub open spec fn write_answer<T, E>(outcome: Result<T, E>, failure: RouteStatus) -> Result<
    RouteStatus,
    RouteStatus,
> {
    match outcome {
        Ok(_) => Ok(RouteStatus::Success),
        Err(_) => Err(failure),
    }
}

/// The answer to a read: the data read, or `NotFound`.
pub open spec fn read_answer<T, E>(outcome: Result<T, E>) -> Result<T, RouteStatus> {
    match outcome {
        Ok(data) => Ok(data),
        Err(_) => Err(RouteStatus::NotFound),
    }
}

fn answer_write<T, E>(outcome: Result<T, E>, failure: RouteStatus) -> (r: Result<
    RouteStatus,
    RouteStatus,
>)
    ensures
        r == write_answer(outcome, failure),
{
    match outcome {
        Ok(_) => Ok(RouteStatus::Success),
        Err(_) => Err(failure),
    }
}

fn answer_read<T, E>(outcome: Result<T, E>) -> (r: Result<T, RouteStatus>)
    ensures
        r == read_answer(outcome),
{
    match outcome {
        Ok(data) => Ok(data),
        Err(_) => Err(RouteStatus::NotFound),
    }
}

/// `POST /api/v1/library`: the answer to inserting a library.
pub fn library_post<T, E>(inserted: Result<T, E>) -> (r: Result<RouteStatus, RouteStatus>)
    ensures
        r == write_answer(inserted, RouteStatus::NotImplemented),
        inserted is Ok <==> r == Ok::<RouteStatus, RouteStatus>(RouteStatus::Success),
        inserted is Err <==> r == Err::<RouteStatus, RouteStatus>(RouteStatus::NotImplemented),
{
    answer_write(inserted, RouteStatus::NotImplemented)
}

/// `DELETE /api/v1/library/<id>`: the answer to deleting a library.
pub fn library_delete<T, E>(deleted: Result<T, E>) -> (r: Result<RouteStatus, RouteStatus>)
    ensures
        r == write_answer(deleted, RouteStatus::NotFound),
        deleted is Ok <==> r == Ok::<RouteStatus, RouteStatus>(RouteStatus::Success),
        deleted is Err <==> r == Err::<RouteStatus, RouteStatus>(RouteStatus::NotFound),
{
    answer_write(deleted, RouteStatus::NotFound)
}

/// `GET /api/v1/library/<id>`: the media of a library, or `NotFound`.
pub fn get_all_library<T, E>(media: Result<T, E>) -> (r: Result<T, RouteStatus>)
    ensures
        r == read_answer(media),
        media matches Ok(d) ==> r == Ok::<T, RouteStatus>(d),
        media is Err ==> r == Err::<T, RouteStatus>(RouteStatus::NotFound),
{
    answer_read(media)
}

/// `GET /api/v1/media/<id>`: a media entry, or `NotFound`.
pub fn get_media_by_id<T, E>(media: Result<T, E>) -> (r: Result<T, RouteStatus>)
    ensures
        r == read_answer(media),
        media matches Ok(d) ==> r == Ok::<T, RouteStatus>(d),
        media is Err ==> r == Err::<T, RouteStatus>(RouteStatus::NotFound),
{
    answer_read(media)
}

/// `POST /api/v1/media`: the answer to inserting a media entry.
pub fn insert_media_by_lib_id<T, E>(inserted: Result<T, E>) -> (r: Result<
    RouteStatus,
    RouteStatus,
>)
    ensures
        r == write_answer(inserted, RouteStatus::NotFound),
        inserted is Ok <==> r == Ok::<RouteStatus, RouteStatus>(RouteStatus::Success),
        inserted is Err <==> r == Err::<RouteStatus, RouteStatus>(RouteStatus::NotFound),
{
    answer_write(inserted, RouteStatus::NotFound)
}

/// `PATCH /api/v1/media/<id>`: the answer to updating a media entry.
pub fn update_media_by_id<T, E>(updated: Result<T, E>) -> (r: Result<RouteStatus, RouteStatus>)
    ensures
        r == write_answer(updated, RouteStatus::NotFound),
        updated is Ok <==> r == Ok::<RouteStatus, RouteStatus>(RouteStatus::Success),
        updated is Err <==> r == Err::<RouteStatus, RouteStatus>(RouteStatus::NotFound),
{
    answer_write(updated, RouteStatus::NotFound)
}

/// A route answers with success exactly when its database work succeeded,
/// and a refused request is answered with an error status, never `Success`.
pub proof fn lemma_refusals_are_errors<T, E>(outcome: Result<T, E>, failure: RouteStatus)
    ensures
        write_answer(outcome, failure) is Ok <==> outcome is Ok,
        read_answer(outcome) is Ok <==> outcome is Ok,
        write_answer(outcome, failure) matches Ok(s) ==> s == RouteStatus::Success,
{
}

/// The JSON body of an error answer: `{"type": kind, "error": error}`.
#[derive(Debug, Clone)]
pub struct ErrorReply {
    pub kind: u16,
    pub error: String,
}

/// Catcher for 503: the database is down.
pub fn service_not_available() -> (r: ErrorReply)
    ensures
        r.kind == 503,
        r.error@ == "Database is down"@,
{
    ErrorReply { kind: 503, error: "Database is down".to_string() }
}

/// Catcher for 404: no such endpoint.
pub fn service_not_found() -> (r: ErrorReply)
    ensures
        r.kind == 404,
        r.error@ == "Endpoint not found"@,
{
    ErrorReply { kind: 404, error: "Endpoint not found".to_string() }
}

/// Catcher for 422: the request body was not valid JSON.
pub fn unprocessable_entity() -> (r: ErrorReply)
    ensures
        r.kind == 422,
        r.error@ == "Invalid json supplied"@,
{
    ErrorReply { kind: 422, error: "Invalid json supplied".to_string() }
}

} // verus!
