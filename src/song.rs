use crate::text::{contains_ignoring_case, contains_text_ignoring_case, text_eq};
use vstd::prelude::*;

verus! {

/// One catalog record.
#[derive(Debug)]
pub struct Song {
    pub id: i64,
    pub title: String,
    pub artist: String,
    pub genre: String,
    pub play_count: i64,
}

/// The text fields a search can filter on.
#[derive(Clone, Copy, Debug, PartialEq, Eq, Structural)]
pub enum Field {
    Title,
    Artist,
    Genre,
}

/// The field that a filter key names, if it names one.
pub open spec fn field_of_key(key: Seq<char>) -> Option<Field> {
    if key == "title"@ {
        Some(Field::Title)
    } else if key == "artist"@ {
        Some(Field::Artist)
    } else if key == "genre"@ {
        Some(Field::Genre)
    } else {
        None
    }
}

/// One filter `(key, value)` admits `s`: an unknown key admits every record.
pub open spec fn filter_admits(s: Song, filter: (String, String)) -> bool {
    match field_of_key(filter.0@) {
        Some(f) => contains_ignoring_case(s.field_text(f), filter.1@),
        None => true,
    }
}

/// Every filter of `filters` admits `s`.
pub open spec fn song_matches(s: Song, filters: Seq<(String, String)>) -> bool {
    forall|k: int| 0 <= k < filters.len() ==> #[trigger] filter_admits(s, filters[k])
}

/// Reads the field that a filter key names.
pub fn field_for_key(key: &str) -> (r: Option<Field>)
    ensures
        r == field_of_key(key@),
{
    if text_eq(key, "title") {
        Some(Field::Title)
    } else if text_eq(key, "artist") {
        Some(Field::Artist)
    } else if text_eq(key, "genre") {
        Some(Field::Genre)
    } else {
        None
    }
}

impl Song {
    /// A record as a client proposes it: no id yet and no plays.
    pub fn new(title: String, artist: String, genre: String) -> (r: Song)
        ensures
            r.id == 0,
            r.title == title,
            r.artist == artist,
            r.genre == genre,
            r.play_count == 0,
    {
        Song { id: 0, title, artist, genre, play_count: 0 }
    }

    /// The text of one field.
    pub open spec fn field_text(&self, f: Field) -> Seq<char> {
        match f {
            Field::Title => self.title@,
            Field::Artist => self.artist@,
            Field::Genre => self.genre@,
        }
    }

    /// A field by name.
    pub fn field(&self, f: Field) -> (r: &String)
        ensures
            r@ == self.field_text(f),
    {
        match f {
            Field::Title => &self.title,
            Field::Artist => &self.artist,
            Field::Genre => &self.genre,
        }
    }

    /// A copy that is equal to `self` in every field.
    pub fn duplicate(&self) -> (r: Song)
        ensures
            r == *self,
    {
        Song {
            id: self.id,
            title: self.title.clone(),
            artist: self.artist.clone(),
            genre: self.genre.clone(),
            play_count: self.play_count,
        }
    }

    /// Whether one filter `(key, value)` admits this record.
    pub fn admits(&self, key: &String, value: &String) -> (r: bool)
        ensures
            r == filter_admits(*self, (*key, *value)),
    {
        match field_for_key(key.as_str()) {
            Some(f) => contains_text_ignoring_case(self.field(f).as_str(), value.as_str()),
            None => true,
        }
    }

    /// Whether every filter admits this record.
    pub fn matches(&self, filters: &Vec<(String, String)>) -> (r: bool)
        ensures
            r == song_matches(*self, filters@),
    {
        let mut k: usize = 0;
        while k < filters.len()
            invariant
                k <= filters@.len(),
                forall|t: int| 0 <= t < k ==> #[trigger] filter_admits(*self, filters@[t]),
            decreases filters@.len() - k,
        {
            let pair = &filters[k];
            if !self.admits(&pair.0, &pair.1) {
                assert(!filter_admits(*self, filters@[k as int]));
                return false;
            }
            k = k + 1;
        }
        true
    }
}

} // verus!
