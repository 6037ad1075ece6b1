use crate::flush::{marked, stepped, FlushAction, FlushEvent, FlushState};
use crate::ids::{parse_song_id, parsed_i64};
use crate::song::Song;
use crate::store::{inserted, play_outcome, played, selected, stored, CatalogError, SongStore};
use vstd::prelude::*;

verus! {

/// The shared state of the service: the records and the flush bookkeeping.
/// Every successful mutation marks the state dirty in the same call, so a
/// single lock around a `Catalog` makes write and mark one step.
pub struct Catalog {
    pub store: SongStore,
    pub flush: FlushState,
}

impl Catalog {
    pub open spec fn well_formed(&self) -> bool {
        self.store.well_formed()
    }

    /// No records, clean and idle.
    pub fn new() -> (r: Catalog)
        ensures
            r.well_formed(),
            r.store@ == Seq::<Song>::empty(),
            !r.flush.dirty,
            !r.flush.flushing,
    {
        Catalog { store: SongStore::new(), flush: FlushState::new() }
    }

    /// Stores `payload` under the next id and marks the catalog dirty.
    pub fn add_song(&mut self, payload: Song) -> (r: Song)
        requires
            old(self).well_formed(),
            old(self).store@.len() < i64::MAX,
        ensures
            final(self).well_formed(),
            final(self).store@ == inserted(old(self).store@, payload),
            r == stored(payload, old(self).store@.len() + 1 as int),
            final(self).flush == marked(old(self).flush),
    {
        let r = self.store.add_song(payload);
        self.flush.mark_dirty();
        r
    }

    /// Adds one play to record `id`; marks the catalog dirty when it did.
    pub fn play_song(&mut self, id: i64) -> (r: Result<Song, CatalogError>)
        requires
            old(self).well_formed(),
        ensures
            final(self).well_formed(),
            r == play_outcome(old(self).store@, id as int),
            r is Ok ==> final(self).store@ == played(old(self).store@, id as int),
            r is Ok ==> final(self).flush == marked(old(self).flush),
            r is Err ==> final(self).store@ == old(self).store@,
            r is Err ==> final(self).flush == old(self).flush,
    {
        let r = self.store.play_song(id);
        if r.is_ok() {
            self.flush.mark_dirty();
        }
        r
    }

    /// Adds one play to the record whose id is written in `text`.
    pub fn play_song_by_text(&mut self, text: &str) -> (r: Result<Song, CatalogError>)
        requires
            old(self).well_formed(),
        ensures
            final(self).well_formed(),
            parsed_i64(text@) is None ==> r == Err::<Song, _>(CatalogError::InvalidId)
                && final(self).store@ == old(self).store@ && final(self).flush == old(self).flush,
            parsed_i64(text@) matches Some(id) ==> {
                &&& r == play_outcome(old(self).store@, id as int)
                &&& r is Ok ==> final(self).store@ == played(old(self).store@, id as int)
                &&& r is Ok ==> final(self).flush == marked(old(self).flush)
            },
            r is Err ==> final(self).store@ == old(self).store@ && final(self).flush == old(
                self,
            ).flush,
    {
        match parse_song_id(text) {
            Ok(id) => self.play_song(id),
            Err(e) => Err(e),
        }
    }

    /// The records that every filter admits, in id order.
    pub fn search_song(&self, filters: &Vec<(String, String)>) -> (r: Vec<Song>)
        ensures
            r@ == selected(self.store@, filters@),
    {
        self.store.search_song(filters)
    }

    /// Advances the flush loop by one event.
    pub fn flush_step(&mut self, e: FlushEvent) -> (r: FlushAction)
        ensures
            final(self).store@ == old(self).store@,
            (final(self).flush, r) == stepped(old(self).flush, e),
    {
        self.flush.step(e)
    }
}

} // verus!
