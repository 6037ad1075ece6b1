use crate::song::{song_matches, Song};
use vstd::prelude::*;

verus! {

/// Why an operation on the store did not happen.
#[derive(Clone, Copy, Debug, PartialEq, Eq, Structural)]
pub enum CatalogError {
    /// The id text is not a decimal integer.
    InvalidId,
    /// No record has the id.
    NotFound,
    /// The play counter is at the largest value it can hold.
    CountExhausted,
    /// A record handed back from storage does not take the next id.
    OutOfSequence,
}

/// The record that `payload` becomes when stored under `id`: the client's
/// id and play count are ignored.
pub open spec fn stored(payload: Song, id: int) -> Song {
    Song {
        id: id as i64,
        title: payload.title,
        artist: payload.artist,
        genre: payload.genre,
        play_count: 0,
    }
}

/// `s` with one more play.
pub open spec fn bumped(s: Song) -> Song {
    Song {
        id: s.id,
        title: s.title,
        artist: s.artist,
        genre: s.genre,
        play_count: (s.play_count + 1) as i64,
    }
}

/// `song` with its id set to `id`.
pub open spec fn with_id(song: Song, id: int) -> Song {
    Song {
        id: id as i64,
        title: song.title,
        artist: song.artist,
        genre: song.genre,
        play_count: song.play_count,
    }
}

/// Record `k` (from 0) carries id `k + 1`, and no play count is negative.
pub open spec fn dense(songs: Seq<Song>) -> bool {
    &&& songs.len() <= i64::MAX
    &&& forall|k: int| 0 <= k < songs.len() ==> (#[trigger] songs[k]).id == k + 1
    &&& forall|k: int| 0 <= k < songs.len() ==> (#[trigger] songs[k]).play_count >= 0
}

/// The record with id `id`.
pub open spec fn lookup(songs: Seq<Song>, id: int) -> Option<Song> {
    if 1 <= id <= songs.len() {
        Some(songs[id - 1])
    } else {
        None
    }
}

/// The records after `payload` is inserted: it takes the next id.
pub open spec fn inserted(songs: Seq<Song>, payload: Song) -> Seq<Song> {
    songs.push(stored(payload, songs.len() + 1 as int))
}

/// The records after record `id` is played once.
pub open spec fn played(songs: Seq<Song>, id: int) -> Seq<Song> {
    songs.update(id - 1, bumped(songs[id - 1]))
}

/// What playing record `id` returns.
pub open spec fn play_outcome(songs: Seq<Song>, id: int) -> Result<Song, CatalogError> {
    match lookup(songs, id) {
        None => Err(CatalogError::NotFound),
        Some(s) => if s.play_count == i64::MAX {
            Err(CatalogError::CountExhausted)
        } else {
            Ok(bumped(s))
        },
    }
}

/// The records that every filter admits, in store order.
pub open spec fn selected(songs: Seq<Song>, filters: Seq<(String, String)>) -> Seq<Song> {
    songs.filter(|s: Song| song_matches(s, filters))
}

/// The records of the catalog, in id order.
pub struct SongStore {
    songs: Vec<Song>,
}

impl View for SongStore {
    type V = Seq<Song>;

    closed spec fn view(&self) -> Seq<Song> {
        self.songs@
    }
}

impl SongStore {
    pub open spec fn well_formed(&self) -> bool {
        dense(self@)
    }

    /// An empty store.
    pub fn new() -> (r: SongStore)
        ensures
            r.well_formed(),
            r@ == Seq::<Song>::empty(),
    {
        SongStore { songs: Vec::new() }
    }

    /// The number of records.
    pub fn len(&self) -> (r: usize)
        ensures
            r == self@.len(),
    {
        self.songs.len()
    }

    /// Stores `payload` under the next id, `len() + 1`, with no plays, and
    /// returns the stored record.
    pub fn add_song(&mut self, payload: Song) -> (r: Song)
        requires
            old(self).well_formed(),
            old(self)@.len() < i64::MAX,
        ensures
            final(self).well_formed(),
            final(self)@ == inserted(old(self)@, payload),
            r == stored(payload, old(self)@.len() + 1 as int),
    {
        let id = self.songs.len() as i64 + 1;
        let song = Song {
            id,
            title: payload.title,
            artist: payload.artist,
            genre: payload.genre,
            play_count: 0,
        };
        let r = song.duplicate();
        self.songs.push(song);
        assert(self@ =~= inserted(old(self)@, payload));
        r
    }

    /// Takes back a record read from durable storage. It must carry the next
    /// id and a play count that is not negative.
    pub fn restore(&mut self, song: Song) -> (r: Result<(), CatalogError>)
        requires
            old(self).well_formed(),
        ensures
            final(self).well_formed(),
            r is Ok <==> (song.id == old(self)@.len() + 1 && song.play_count >= 0),
            r is Ok ==> final(self)@ == old(self)@.push(song),
            r is Err ==> final(self)@ == old(self)@ && r == Err::<(), _>(
                CatalogError::OutOfSequence,
            ),
    {
        if song.play_count < 0 || song.id < 1 || song.id as u64 - 1 != self.songs.len() as u64 {
            return Err(CatalogError::OutOfSequence);
        }
        self.songs.push(song);
        Ok(())
    }

    /// The record with id `id`.
    pub fn get(&self, id: i64) -> (r: Option<Song>)
        requires
            self.well_formed(),
        ensures
            r == lookup(self@, id as int),
    {
        if id < 1 || id as u64 > self.songs.len() as u64 {
            None
        } else {
            Some(self.songs[(id - 1) as usize].duplicate())
        }
    }

    /// Overwrites the record with id `id`; the stored copy keeps that id.
    pub fn put(&mut self, id: i64, song: Song) -> (r: Result<(), CatalogError>)
        requires
            old(self).well_formed(),
            song.play_count >= 0,
        ensures
            final(self).well_formed(),
            r is Err <==> lookup(old(self)@, id as int) is None,
            r is Ok ==> final(self)@ == old(self)@.update(id - 1, with_id(song, id as int)),
            r is Err ==> final(self)@ == old(self)@ && r == Err::<(), _>(CatalogError::NotFound),
    {
        if id < 1 || id as u64 > self.songs.len() as u64 {
            return Err(CatalogError::NotFound);
        }
        let stored = Song {
            id,
            title: song.title,
            artist: song.artist,
            genre: song.genre,
            play_count: song.play_count,
        };
        self.songs.set((id - 1) as usize, stored);
        Ok(())
    }

    /// Adds one play to record `id` and returns the updated record.
    pub fn play_song(&mut self, id: i64) -> (r: Result<Song, CatalogError>)
        requires
            old(self).well_formed(),
        ensures
            final(self).well_formed(),
            r == play_outcome(old(self)@, id as int),
            r is Ok ==> final(self)@ == played(old(self)@, id as int),
            r is Err ==> final(self)@ == old(self)@,
    {
        let song = match self.get(id) {
            Some(s) => s,
            None => return Err(CatalogError::NotFound),
        };
        if song.play_count == i64::MAX {
            return Err(CatalogError::CountExhausted);
        }
        let updated = Song {
            id: song.id,
            title: song.title,
            artist: song.artist,
            genre: song.genre,
            play_count: song.play_count + 1,
        };
        let r = updated.duplicate();
        let written = self.put(id, updated);
        assert(written is Ok);
        assert(self@ =~= played(old(self)@, id as int));
        Ok(r)
    }

    /// The records that every `(key, value)` filter admits, in id order: a
    /// filter on `title`, `artist` or `genre` admits a record whose field
    /// holds `value` ignoring ASCII case; other keys admit every record.
    pub fn search_song(&self, filters: &Vec<(String, String)>) -> (r: Vec<Song>)
        ensures
            r@ == selected(self@, filters@),
    {
        proof {
            reveal(Seq::filter);
            assert(selected(self@.subrange(0, 0), filters@) =~= Seq::<Song>::empty());
        }
        let mut out: Vec<Song> = Vec::new();
        let mut i: usize = 0;
        while i < self.songs.len()
            invariant
                i <= self@.len(),
                self@ == self.songs@,
                out@ == selected(self@.subrange(0, i as int), filters@),
            decreases self@.len() - i,
        {
            let s = &self.songs[i];
            let ghost t = self@.subrange(0, i + 1);
            proof {
                reveal(Seq::filter);
                assert(t.drop_last() =~= self@.subrange(0, i as int));
                assert(t.last() == *s);
            }
            if s.matches(filters) {
                out.push(s.duplicate());
                assert(out@ =~= selected(t, filters@));
            } else {
                assert(out@ =~= selected(t, filters@));
            }
            i = i + 1;
        }
        assert(self@.subrange(0, self@.len() as int) =~= self@);
        out
    }

    /// Every record, in id order.
    pub fn songs(&self) -> (r: Vec<Song>)
        ensures
            r@ == self@,
    {
        let mut out: Vec<Song> = Vec::new();
        let mut i: usize = 0;
        while i < self.songs.len()
            invariant
                i <= self@.len(),
                self@ == self.songs@,
                out@ == self@.subrange(0, i as int),
            decreases self@.len() - i,
        {
            out.push(self.songs[i].duplicate());
            i = i + 1;
            assert(out@ =~= self@.subrange(0, i as int));
        }
        assert(self@.subrange(0, self@.len() as int) =~= self@);
        out
    }
}

} // verus!
