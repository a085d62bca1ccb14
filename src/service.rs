use vstd::prelude::*;

use crate::ident::{is_random_id, parse_id, parsed_id, random_id};
use crate::movie::{CreateMoviePayload, Movie, MovieView};
use crate::store::{created, MovieStore};

verus! {

/// Status of a successful fetch.
pub const STATUS_OK: u16 = 200;

/// Status of a successful creation.
pub const STATUS_CREATED: u16 = 201;

/// Status of a fetch whose identifier is unknown or not an identifier.
pub const STATUS_NOT_FOUND: u16 = 404;

/// Whether `status` is an HTTP client-error status.
pub open spec fn is_client_error(status: u16) -> bool {
    400 <= status < 500
}

/// The outcome of fetching `id` from a store holding `s`.
pub open spec fn lookup(s: Map<u128, MovieView>, id: u128) -> Result<MovieView, u16> {
    if s.contains_key(id) {
        Ok(s[id])
    } else {
        Err(STATUS_NOT_FOUND)
    }
}

/// The outcome of fetching by the path segment `text`.
pub open spec fn lookup_text(s: Map<u128, MovieView>, text: Seq<char>) -> Result<MovieView, u16> {
    match parsed_id(text) {
        Some(id) => lookup(s, id),
        None => Err(STATUS_NOT_FOUND),
    }
}

/// The mathematical value of a fetch outcome.
pub open spec fn outcome_view(r: Result<Movie, u16>) -> Result<MovieView, u16> {
    match r {
        Ok(m) => Ok(m@),
        Err(s) => Err(s),
    }
}

/// The status that a fetch outcome is answered with.
pub fn fetch_status(r: &Result<Movie, u16>) -> (s: u16)
    ensures
        s == match r {
            Ok(_) => STATUS_OK,
            Err(e) => *e,
        },
{
    match r {
        Ok(_) => STATUS_OK,
        Err(e) => *e,
    }
}

/// Fetches the record stored under `id`: the record, or the not-found status.
pub fn get_movie(db: &MovieStore, id: u128) -> (r: Result<Movie, u16>)
    ensures
        outcome_view(r) == lookup(db@, id),
{
    match db.get(id) {
        Some(m) => Ok(m),
        None => Err(STATUS_NOT_FOUND),
    }
}

/// Fetches the record named by the path segment `segment`; a segment that is
/// not an identifier text is answered like an unknown identifier.
pub fn get_movie_by_path(db: &MovieStore, segment: &str) -> (r: Result<Movie, u16>)
    ensures
        outcome_view(r) == lookup_text(db@, segment@),
        parsed_id(segment@) is None ==> (r matches Err(status) && is_client_error(status)),
{
    match parse_id(segment) {
        Some(id) => get_movie(db, id),
        None => Err(STATUS_NOT_FOUND),
    }
}

/// Creates a record from `payload` under a fresh random identifier and
/// answers with the created status and the record. Creation fails only when
/// the random identifier drawn is already stored: that identifier is then
/// returned, the store is left as it was, and a caller draws again.
pub fn create_movie(db: &mut MovieStore, payload: CreateMoviePayload) -> (r: Result<
    (u16, Movie),
    u128,
>)
    ensures
        match r {
            Ok((status, m)) => {
                &&& status == STATUS_CREATED
                &&& is_random_id(m.id)
                &&& created(old(db)@, final(db)@, m@, payload@)
            },
            Err(id) => {
                &&& is_random_id(id)
                &&& old(db)@.contains_key(id)
                &&& final(db)@ == old(db)@
            },
        },
        (forall|k: u128| #[trigger] old(db)@.contains_key(k) ==> !is_random_id(k)) ==> r is Ok,
{
    let id = random_id();
    match db.insert_new(id, payload) {
        Some(m) => Ok((STATUS_CREATED, m)),
        None => Err(id),
    }
}

} // verus!
