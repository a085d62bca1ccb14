use vstd::prelude::*;

use crate::ident::parsed_id;
use crate::movie::{MovieView, PayloadView};
use crate::service::{is_client_error, lookup, lookup_text, STATUS_NOT_FOUND};
use crate::store::created;

verus! {

/// A record just created is found again, equal to what creation returned,
/// whether it is fetched by its identifier or by any text that denotes it.
pub proof fn lemma_fetch_after_create(
    before: Map<u128, MovieView>,
    after: Map<u128, MovieView>,
    m: MovieView,
    p: PayloadView,
    text: Seq<char>,
)
    requires
        created(before, after, m, p),
    ensures
        lookup(after, m.id) == Ok::<MovieView, u16>(m),
        parsed_id(text) == Some(m.id) ==> lookup_text(after, text) == Ok::<MovieView, u16>(m),
{
}

/// A path segment that is not an identifier text is answered with a client
/// error, whatever the store holds.
pub proof fn lemma_malformed_segment_is_client_error(s: Map<u128, MovieView>, text: Seq<char>)
    requires
        parsed_id(text) is None,
    ensures
        lookup_text(s, text) == Err::<MovieView, u16>(STATUS_NOT_FOUND),
        is_client_error(STATUS_NOT_FOUND),
{
}

/// After a run of successful creations (each one as `create_movie` reports
/// it on success), one after another from any store, as the store's lock
/// orders concurrent requests,
/// no two created records share an identifier, the store has gained
/// exactly one entry per creation, and every created record is fetchable
/// as it was returned.
pub proof fn lemma_creation_run(
    stores: Seq<Map<u128, MovieView>>,
    ms: Seq<MovieView>,
    ps: Seq<PayloadView>,
)
    requires
        stores.len() == ms.len() + 1,
        ps.len() == ms.len(),
        stores[0].dom().finite(),
        forall|i: int|
            0 <= i < ms.len() ==> #[trigger] created(stores[i], stores[i + 1], ms[i], ps[i]),
    ensures
        stores.last().dom().finite(),
        stores.last().len() == stores[0].len() + ms.len(),
        forall|i: int|
            0 <= i < ms.len() ==> lookup(stores.last(), #[trigger] ms[i].id) == Ok::<
                MovieView,
                u16,
            >(ms[i]),
        forall|i: int, j: int| 0 <= i < j < ms.len() ==> #[trigger] ms[i].id != #[trigger] ms[j].id,
    decreases ms.len(),
{
    let n = ms.len() as int;
    if n > 0 {
        let s0 = stores.drop_last();
        let m0 = ms.drop_last();
        let p0 = ps.drop_last();
        assert forall|i: int| 0 <= i < m0.len() implies #[trigger] created(
            s0[i],
            s0[i + 1],
            m0[i],
            p0[i],
        ) by {
            assert(created(stores[i], stores[i + 1], ms[i], ps[i]));
        }
        lemma_creation_run(s0, m0, p0);
        let prev = stores[n - 1];
        assert(s0.last() == prev);
        assert(created(stores[n - 1], stores[n], ms[n - 1], ps[n - 1]));
        assert forall|i: int| 0 <= i < n implies lookup(stores.last(), #[trigger] ms[i].id) == Ok::<
            MovieView,
            u16,
        >(ms[i]) by {
            if i < n - 1 {
                assert(m0[i] == ms[i]);
                assert(lookup(prev, m0[i].id) == Ok::<MovieView, u16>(m0[i]));
            }
        }
        assert forall|i: int, j: int| 0 <= i < j < n implies #[trigger] ms[i].id
            != #[trigger] ms[j].id by {
            if j < n - 1 {
                assert(m0[i] == ms[i] && m0[j] == ms[j]);
                assert(m0[i].id != m0[j].id);
            } else {
                assert(m0[i] == ms[i]);
                assert(lookup(prev, m0[i].id) == Ok::<MovieView, u16>(m0[i]));
            }
        }
    }
}

} // verus!
