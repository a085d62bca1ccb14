use std::collections::HashMap;
use vstd::prelude::*;

use crate::movie::{record_of, CreateMoviePayload, Movie, MovieView, PayloadView};

verus! {

broadcast use vstd::std_specs::hash::group_hash_axioms;

/// Every record is stored under its own identifier.
pub open spec fn ids_match(s: Map<u128, MovieView>) -> bool {
    forall|k: u128| #[trigger] s.contains_key(k) ==> s[k].id == k
}

/// `after` is `before` with `m` added, `m` being the record that payload `p`
/// becomes under an identifier that `before` does not hold yet.
pub open spec fn created(
    before: Map<u128, MovieView>,
    after: Map<u128, MovieView>,
    m: MovieView,
    p: PayloadView,
) -> bool {
    &&& !before.contains_key(m.id)
    &&& m == record_of(m.id, p)
    &&& after == before.insert(m.id, m)
}

/// The collection of movie records, keyed by identifier. Records are only
/// ever added, never changed or removed.
pub struct MovieStore {
    movies: HashMap<u128, Movie>,
}

/// The records that a map holds, as values.
spec fn records(movies: HashMap<u128, Movie>) -> Map<u128, MovieView> {
    movies@.map_values(|m: Movie| m@)
}

impl View for MovieStore {
    type V = Map<u128, MovieView>;

    closed spec fn view(&self) -> Map<u128, MovieView> {
        records(self.movies)
    }
}

impl MovieStore {
    #[verifier::type_invariant]
    spec fn wf(&self) -> bool {
        &&& ids_match(self@)
        &&& self@.dom().finite()
    }

    /// An empty store.
    pub fn new() -> (r: MovieStore)
        ensures
            r@ == Map::<u128, MovieView>::empty(),
    {
        let movies: HashMap<u128, Movie> = HashMap::new();
        assert(records(movies) =~= Map::<u128, MovieView>::empty());
        MovieStore { movies }
    }

    /// The number of records.
    pub fn len(&self) -> (r: usize)
        ensures
            r == self@.len(),
            self@.dom().finite(),
    {
        proof {
            use_type_invariant(self);
        }
        assert(self@.dom() =~= self.movies@.dom());
        self.movies.len()
    }

    /// Whether a record is stored under `id`.
    pub fn contains(&self, id: u128) -> (r: bool)
        ensures
            r == self@.contains_key(id),
    {
        self.movies.contains_key(&id)
    }

    /// A copy of the record stored under `id`, if any.
    pub fn get(&self, id: u128) -> (r: Option<Movie>)
        ensures
            match r {
                Some(m) => self@.contains_key(id) && m@ == self@[id] && m.id == id,
                None => !self@.contains_key(id),
            },
    {
        proof {
            use_type_invariant(self);
        }
        match self.movies.get(&id) {
            Some(m) => Some(m.duplicate()),
            None => None,
        }
    }

    /// Adds the record that `payload` becomes under `id`, unless a record is
    /// already stored under `id`; then the store is left as it was and
    /// nothing is returned.
    pub fn insert_new(&mut self, id: u128, payload: CreateMoviePayload) -> (r: Option<Movie>)
        ensures
            match r {
                Some(m) => m.id == id && created(old(self)@, final(self)@, m@, payload@),
                None => old(self)@.contains_key(id) && final(self)@ == old(self)@,
            },
    {
        proof {
            use_type_invariant(&*self);
        }
        if self.movies.contains_key(&id) {
            return None;
        }
        let m = Movie::from_payload(id, payload);
        let kept = m.duplicate();
        let mut movies: HashMap<u128, Movie> = HashMap::new();
        assert(records(movies) =~= Map::<u128, MovieView>::empty());
        std::mem::swap(&mut self.movies, &mut movies);
        movies.insert(id, m);
        assert(records(movies) =~= old(self)@.insert(id, kept@));
        std::mem::swap(&mut self.movies, &mut movies);
        Some(kept)
    }
}

} // verus!
