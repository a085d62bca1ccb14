use vstd::prelude::*;

verus! {

/// A movie record as it is stored and returned.
#[derive(Debug, Clone)]
pub struct Movie {
    /// The 128-bit identifier, in its big-endian integer form.
    pub id: u128,
    pub name: String,
    pub year: u16,
    pub was_good: bool,
}

/// What a caller supplies to create a record; the identifier is never
/// supplied and is assigned by the store.
#[derive(Debug, Clone)]
pub struct CreateMoviePayload {
    pub name: String,
    pub year: u16,
    pub was_good: bool,
}

/// The mathematical value of a [`Movie`].
pub struct MovieView {
    pub id: u128,
    pub name: Seq<char>,
    pub year: u16,
    pub was_good: bool,
}

/// The mathematical value of a [`CreateMoviePayload`].
pub struct PayloadView {
    pub name: Seq<char>,
    pub year: u16,
    pub was_good: bool,
}

impl View for Movie {
    type V = MovieView;

    open spec fn view(&self) -> MovieView {
        MovieView { id: self.id, name: self.name@, year: self.year, was_good: self.was_good }
    }
}

impl View for CreateMoviePayload {
    type V = PayloadView;

    open spec fn view(&self) -> PayloadView {
        PayloadView { name: self.name@, year: self.year, was_good: self.was_good }
    }
}

/// The record that a payload becomes under identifier `id`.
pub open spec fn record_of(id: u128, p: PayloadView) -> MovieView {
    MovieView { id, name: p.name, year: p.year, was_good: p.was_good }
}

impl Movie {
    /// Builds the record for `payload` under identifier `id`.
    pub fn from_payload(id: u128, payload: CreateMoviePayload) -> (r: Movie)
        ensures
            r@ == record_of(id, payload@),
    {
        Movie { id, name: payload.name, year: payload.year, was_good: payload.was_good }
    }

    /// A field-by-field copy of the record.
    pub fn duplicate(&self) -> (r: Movie)
        ensures
            r@ == self@,
    {
        Movie { id: self.id, name: self.name.clone(), year: self.year, was_good: self.was_good }
    }
}

impl CreateMoviePayload {
    pub fn new(name: String, year: u16, was_good: bool) -> (r: CreateMoviePayload)
        ensures
            r@ == (PayloadView { name: name@, year, was_good }),
    {
        CreateMoviePayload { name, year, was_good }
    }
}

} // verus!
