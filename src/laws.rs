use crate::flush::{marked, stepped, taken, FlushAction, FlushEvent, FlushState};
use crate::song::{field_of_key, filter_admits, song_matches, Field, Song};
use crate::store::{bumped, dense, inserted, lookup, play_outcome, played, selected, stored};
use crate::text::contains_ignoring_case;
use vstd::prelude::*;

verus! {

/// The records after record `id` is played `n` times in a row.
pub open spec fn played_times(songs: Seq<Song>, id: int, n: nat) -> Seq<Song>
    decreases n,
{
    if n == 0 {
        songs
    } else {
        played(played_times(songs, id, (n - 1) as nat), id)
    }
}

/// Inserting into a well-formed store gives the new record id "count before
/// the insert plus one" and no plays, whatever the payload carried, finds it
/// under that id, and keeps the store well formed.
pub proof fn lemma_insert_takes_next_id(songs: Seq<Song>, payload: Song)
    requires
        dense(songs),
        songs.len() < i64::MAX,
    ensures
        stored(payload, songs.len() + 1 as int).id == songs.len() + 1,
        stored(payload, songs.len() + 1 as int).play_count == 0,
        lookup(inserted(songs, payload), songs.len() + 1 as int) == Some(
            stored(payload, songs.len() + 1 as int),
        ),
        dense(inserted(songs, payload)),
{
}

/// Playing a record raises its play count by exactly one, a lookup right
/// after sees the new count, and every other record is left as it was.
pub proof fn lemma_play_is_observed(songs: Seq<Song>, id: int)
    requires
        dense(songs),
        play_outcome(songs, id) is Ok,
    ensures
        lookup(played(songs, id), id) == Some(bumped(lookup(songs, id).unwrap())),
        lookup(played(songs, id), id).unwrap().play_count == lookup(songs, id).unwrap().play_count
            + 1,
        forall|other: int| other != id ==> lookup(played(songs, id), other) == lookup(songs, other),
        dense(played(songs, id)),
{
}

/// Plays applied one after another (as a lock around the store makes
/// concurrent plays) lose no update: `n` plays of a record raise its count by
/// exactly `n`, and each of them succeeds while the count stays in range.
pub proof fn lemma_plays_accumulate(songs: Seq<Song>, id: int, n: nat)
    requires
        dense(songs),
        lookup(songs, id) is Some,
        lookup(songs, id).unwrap().play_count + n <= i64::MAX,
    ensures
        dense(played_times(songs, id, n)),
        lookup(played_times(songs, id, n), id) is Some,
        lookup(played_times(songs, id, n), id).unwrap().play_count == lookup(songs, id).unwrap().play_count
            + n,
        played_times(songs, id, n).len() == songs.len(),
        forall|k: nat| k < n ==> (#[trigger] play_outcome(played_times(songs, id, k), id)) is Ok,
    decreases n,
{
    if n > 0 {
        lemma_plays_accumulate(songs, id, (n - 1) as nat);
        let prev = played_times(songs, id, (n - 1) as nat);
        lemma_play_is_observed(prev, id);
        assert forall|k: nat| k < n implies (#[trigger] play_outcome(
            played_times(songs, id, k),
            id,
        )) is Ok by {
            if k < n - 1 {
            } else {
                assert(k == n - 1);
            }
        }
    }
}

/// Filtering twice keeps what both predicates admit.
proof fn lemma_filter_twice(s: Seq<Song>, p: spec_fn(Song) -> bool, q: spec_fn(Song) -> bool)
    ensures
        s.filter(p).filter(q) == s.filter(|x: Song| p(x) && q(x)),
    decreases s.len(),
{
    reveal(Seq::filter);
    let both = |x: Song| p(x) && q(x);
    if s.len() > 0 {
        let t = s.drop_last();
        lemma_filter_twice(t, p, q);
        if p(s.last()) {
            assert(t.filter(p).push(s.last()).drop_last() =~= t.filter(p));
        }
    }
    assert(s.filter(p).filter(q) =~= s.filter(both));
}

/// A search with no filters returns every record, in order.
pub proof fn lemma_search_without_filters(songs: Seq<Song>)
    ensures
        selected(songs, Seq::empty()) == songs,
    decreases songs.len(),
{
    reveal(Seq::filter);
    if songs.len() > 0 {
        lemma_search_without_filters(songs.drop_last());
        assert(song_matches(songs.last(), Seq::empty()));
        assert(songs.drop_last().push(songs.last()) =~= songs);
    }
}

/// A search with one filter on a known field returns exactly the records
/// whose field contains the value, ignoring case, in order.
pub proof fn lemma_search_one_filter(songs: Seq<Song>, key: String, value: String)
    requires
        field_of_key(key@) is Some,
    ensures
        selected(songs, seq![(key, value)]) == songs.filter(
            |s: Song| contains_ignoring_case(s.field_text(field_of_key(key@).unwrap()), value@),
        ),
{
    let f: Field = field_of_key(key@).unwrap();
    let filters = seq![(key, value)];
    let p = |s: Song| song_matches(s, filters);
    let q = |s: Song| contains_ignoring_case(s.field_text(f), value@);
    assert forall|s: Song| #[trigger] p(s) == q(s) by {
        if q(s) {
            assert forall|k: int| 0 <= k < filters.len() implies #[trigger] filter_admits(
                s,
                filters[k],
            ) by {
                assert(filters[k] == (key, value));
            }
        }
        if p(s) {
            assert(filter_admits(s, filters[0]));
        }
    }
    assert(p =~= q);
}

/// A search with the filters of `a` and then of `b` returns the records that
/// both searches return: the search by `a` narrowed by `b`.
pub proof fn lemma_search_filters_intersect(
    songs: Seq<Song>,
    a: Seq<(String, String)>,
    b: Seq<(String, String)>,
)
    ensures
        selected(songs, a + b) == selected(selected(songs, a), b),
        forall|s: Song|
            selected(songs, a + b).contains(s) <==> selected(songs, a).contains(s) && selected(
                songs,
                b,
            ).contains(s),
{
    let pa = |s: Song| song_matches(s, a);
    let pb = |s: Song| song_matches(s, b);
    let pab = |s: Song| song_matches(s, a + b);
    lemma_filter_twice(songs, pa, pb);
    assert forall|s: Song| #[trigger] pab(s) == (pa(s) && pb(s)) by {
        if pab(s) {
            assert forall|k: int| 0 <= k < a.len() implies #[trigger] filter_admits(s, a[k]) by {
                assert((a + b)[k] == a[k]);
            }
            assert forall|k: int| 0 <= k < b.len() implies #[trigger] filter_admits(s, b[k]) by {
                assert((a + b)[a.len() + k] == b[k]);
            }
        }
        if pa(s) && pb(s) {
            assert forall|k: int| 0 <= k < (a + b).len() implies #[trigger] filter_admits(
                s,
                (a + b)[k],
            ) by {
                if k < a.len() {
                    assert(filter_admits(s, a[k]));
                } else {
                    assert(filter_admits(s, b[k - a.len()]));
                }
            }
        }
    }
    assert(pab =~= (|x: Song| pa(x) && pb(x)));
    assert forall|s: Song|
        selected(songs, a + b).contains(s) <==> selected(songs, a).contains(s) && selected(
            songs,
            b,
        ).contains(s) by {
        if selected(songs, a).contains(s) && selected(songs, b).contains(s) {
            songs.lemma_filter_contains_rev(pa, s);
            let i = choose|i: int| 0 <= i < songs.len() && songs[i] == s;
            let ia = choose|i: int| 0 <= i < selected(songs, a).len() && selected(songs, a)[i] == s;
            let ib = choose|i: int| 0 <= i < selected(songs, b).len() && selected(songs, b)[i] == s;
            songs.lemma_filter_pred(pa, ia);
            songs.lemma_filter_pred(pb, ib);
            assert(pab(songs[i]));
            songs.lemma_filter_contains(pab, i);
        }
        if selected(songs, a + b).contains(s) {
            songs.lemma_filter_contains_rev(pab, s);
            let i = choose|i: int| 0 <= i < songs.len() && songs[i] == s;
            let k = choose|k: int|
                0 <= k < selected(songs, a + b).len() && selected(songs, a + b)[k] == s;
            songs.lemma_filter_pred(pab, k);
            songs.lemma_filter_contains(pa, i);
            songs.lemma_filter_contains(pb, i);
        }
    }
}

/// Test-and-clear twice in a row: the second call always finds the flag
/// clear, and after a mutation the first finds it set.
pub proof fn lemma_take_twice(s: FlushState)
    ensures
        taken(s).1 == s.dirty,
        !taken(taken(s).0).1,
        taken(marked(s)).1,
        !taken(taken(marked(s)).0).1,
{
}

/// A failed flush does not lose the pending write: the flag is set again,
/// the next tick asks for a flush again, and once that one succeeds the
/// state is clean and idle.
pub proof fn lemma_failed_flush_is_retried(s: FlushState)
    requires
        s.dirty,
        !s.flushing,
    ensures
        stepped(s, FlushEvent::Tick).1 == FlushAction::Flush,
        stepped(stepped(s, FlushEvent::Tick).0, FlushEvent::FlushFailed).0.dirty,
        stepped(
            stepped(stepped(s, FlushEvent::Tick).0, FlushEvent::FlushFailed).0,
            FlushEvent::Tick,
        ).1 == FlushAction::Flush,
        stepped(
            stepped(
                stepped(stepped(s, FlushEvent::Tick).0, FlushEvent::FlushFailed).0,
                FlushEvent::Tick,
            ).0,
            FlushEvent::Flushed,
        ).0 == (FlushState { dirty: false, flushing: false }),
{
}

/// A write that arrives while a flush is under way stays pending after that
/// flush, whatever its outcome, and the next tick flushes it.
pub proof fn lemma_write_during_flush_is_kept(s: FlushState, e: FlushEvent)
    requires
        s.flushing,
        e != FlushEvent::Tick,
    ensures
        stepped(marked(s), e).0.dirty,
        !stepped(marked(s), e).0.flushing,
        stepped(stepped(marked(s), e).0, FlushEvent::Tick).1 == FlushAction::Flush,
{
}

} // verus!
