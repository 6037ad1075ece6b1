use song_catalog::{
    contains_folded, contains_text_ignoring_case, field_for_key, fold_text, parse_song_id,
    text_eq, Catalog, CatalogError, Field, FlushAction, FlushEvent, FlushState, Song, SongStore,
    VisitCounter,
};

fn song(title: &str, artist: &str, genre: &str) -> Song {
    Song::new(title.to_string(), artist.to_string(), genre.to_string())
}

fn filters(pairs: &[(&str, &str)]) -> Vec<(String, String)> {
    pairs.iter().map(|(k, v)| (k.to_string(), v.to_string())).collect()
}

fn ids(songs: &[Song]) -> Vec<i64> {
    songs.iter().map(|s| s.id).collect()
}

#[test]
fn hey_jude_scenario() {
    let mut c = Catalog::new();
    let first = c.add_song(song("Hey Jude", "The Beatles", "Rock"));
    assert_eq!(first.id, 1);
    assert_eq!(first.play_count, 0);
    assert_eq!(first.title, "Hey Jude");
    assert_eq!(first.artist, "The Beatles");
    assert_eq!(first.genre, "Rock");
    let second = c.add_song(song("Let It Be", "The Beatles", "Rock"));
    assert_eq!(second.id, 2);
    let played = c.play_song_by_text("1").unwrap();
    assert_eq!(played.id, 1);
    assert_eq!(played.play_count, 1);
    let found = c.search_song(&filters(&[("artist", "beatles")]));
    assert_eq!(ids(&found), vec![1, 2]);
    assert_eq!(c.play_song_by_text("999").unwrap_err(), CatalogError::NotFound);
}

#[test]
fn insert_ignores_client_id_and_play_count() {
    let mut store = SongStore::new();
    let mut payload = song("A", "B", "C");
    payload.id = 42;
    payload.play_count = 7;
    let stored = store.add_song(payload);
    assert_eq!(stored.id, 1);
    assert_eq!(stored.play_count, 0);
    assert_eq!(store.len(), 1);
    let again = store.add_song(song("D", "E", "F"));
    assert_eq!(again.id, 2);
}

#[test]
fn play_is_visible_to_lookup() {
    let mut store = SongStore::new();
    store.add_song(song("A", "B", "C"));
    store.add_song(song("D", "E", "F"));
    let r = store.play_song(2).unwrap();
    assert_eq!(r.play_count, 1);
    assert_eq!(store.get(2).unwrap().play_count, 1);
    assert_eq!(store.get(1).unwrap().play_count, 0);
    assert!(store.get(3).is_none());
    assert!(store.get(0).is_none());
}

#[test]
fn repeated_plays_accumulate() {
    let mut store = SongStore::new();
    store.add_song(song("A", "B", "C"));
    for _ in 0..25 {
        store.play_song(1).unwrap();
    }
    assert_eq!(store.get(1).unwrap().play_count, 25);
}

#[test]
fn play_missing_and_exhausted() {
    let mut store = SongStore::new();
    assert_eq!(store.play_song(1).unwrap_err(), CatalogError::NotFound);
    store.add_song(song("A", "B", "C"));
    assert_eq!(store.play_song(-1).unwrap_err(), CatalogError::NotFound);
    let mut full = song("A", "B", "C");
    full.play_count = i64::MAX;
    assert!(store.put(1, full).is_ok());
    assert_eq!(store.play_song(1).unwrap_err(), CatalogError::CountExhausted);
    assert_eq!(store.get(1).unwrap().play_count, i64::MAX);
}

#[test]
fn put_keeps_id_and_rejects_missing() {
    let mut store = SongStore::new();
    store.add_song(song("A", "B", "C"));
    let mut replacement = song("X", "Y", "Z");
    replacement.id = 9;
    replacement.play_count = 3;
    assert!(store.put(1, replacement).is_ok());
    let got = store.get(1).unwrap();
    assert_eq!(got.id, 1);
    assert_eq!(got.title, "X");
    assert_eq!(got.play_count, 3);
    assert_eq!(store.put(2, song("Q", "R", "S")).unwrap_err(), CatalogError::NotFound);
}

#[test]
fn restore_takes_records_in_sequence() {
    let mut store = SongStore::new();
    let mut first = song("A", "B", "C");
    first.id = 1;
    first.play_count = 4;
    assert!(store.restore(first).is_ok());
    let mut skipped = song("D", "E", "F");
    skipped.id = 3;
    assert_eq!(store.restore(skipped).unwrap_err(), CatalogError::OutOfSequence);
    let mut negative = song("D", "E", "F");
    negative.id = 2;
    negative.play_count = -1;
    assert_eq!(store.restore(negative).unwrap_err(), CatalogError::OutOfSequence);
    assert_eq!(store.len(), 1);
    assert_eq!(store.add_song(song("G", "H", "I")).id, 2);
}

#[test]
fn search_without_filters_returns_all() {
    let mut store = SongStore::new();
    store.add_song(song("One", "A", "Pop"));
    store.add_song(song("Two", "B", "Jazz"));
    store.add_song(song("Three", "C", "Rock"));
    assert_eq!(ids(&store.search_song(&Vec::new())), vec![1, 2, 3]);
    assert_eq!(ids(&store.songs()), vec![1, 2, 3]);
}

#[test]
fn search_single_filter_is_case_insensitive() {
    let mut store = SongStore::new();
    store.add_song(song("Xylophone Song", "A", "Pop"));
    store.add_song(song("Plain", "B", "Jazz"));
    store.add_song(song("maxim", "C", "Rock"));
    assert_eq!(ids(&store.search_song(&filters(&[("title", "x")]))), vec![1, 3]);
    assert_eq!(ids(&store.search_song(&filters(&[("title", "PLAIN")]))), vec![2]);
    assert_eq!(ids(&store.search_song(&filters(&[("title", "")]))), vec![1, 2, 3]);
    assert!(store.search_song(&filters(&[("title", "zzz")])).is_empty());
}

#[test]
fn search_two_filters_intersect() {
    let mut store = SongStore::new();
    store.add_song(song("Hey Jude", "The Beatles", "Rock"));
    store.add_song(song("Help", "The Beatles", "Pop"));
    store.add_song(song("Hey Ya", "OutKast", "Rock"));
    let both = store.search_song(&filters(&[("title", "hey"), ("genre", "ROCK")]));
    assert_eq!(ids(&both), vec![1, 3]);
    let narrow = store.search_song(&filters(&[("artist", "beatles"), ("genre", "rock")]));
    assert_eq!(ids(&narrow), vec![1]);
}

#[test]
fn search_ignores_unknown_keys() {
    let mut store = SongStore::new();
    store.add_song(song("One", "A", "Pop"));
    store.add_song(song("Two", "B", "Jazz"));
    let r = store.search_song(&filters(&[("year", "1968"), ("Title", "nothing")]));
    assert_eq!(ids(&r), vec![1, 2]);
    let r2 = store.search_song(&filters(&[("year", "1968"), ("genre", "jazz")]));
    assert_eq!(ids(&r2), vec![2]);
}

#[test]
fn field_keys() {
    assert_eq!(field_for_key("title"), Some(Field::Title));
    assert_eq!(field_for_key("artist"), Some(Field::Artist));
    assert_eq!(field_for_key("genre"), Some(Field::Genre));
    assert_eq!(field_for_key("id"), None);
    assert_eq!(field_for_key("TITLE"), None);
    assert_eq!(field_for_key(""), None);
}

#[test]
fn text_helpers() {
    assert!(text_eq("abc", "abc"));
    assert!(!text_eq("abc", "abd"));
    assert!(!text_eq("abc", "ab"));
    assert_eq!(fold_text("AbZ-z"), vec![97, 98, 122, 45, 122]);
    assert!(contains_folded(&vec![1, 2, 3], &vec![2, 3]));
    assert!(!contains_folded(&vec![1, 2, 3], &vec![3, 2]));
    assert!(contains_folded(&vec![], &vec![]));
    assert!(!contains_folded(&vec![1], &vec![1, 1]));
    assert!(contains_text_ignoring_case("The Beatles", "BEAT"));
    assert!(contains_text_ignoring_case("The Beatles", ""));
    assert!(!contains_text_ignoring_case("The Beatles", "stones"));
    assert!(!contains_text_ignoring_case("", "a"));
}

#[test]
fn parse_ids() {
    assert_eq!(parse_song_id("17"), Ok(17));
    assert_eq!(parse_song_id("+5"), Ok(5));
    assert_eq!(parse_song_id("-3"), Ok(-3));
    assert_eq!(parse_song_id("9223372036854775807"), Ok(i64::MAX));
    assert_eq!(parse_song_id("9223372036854775808"), Err(CatalogError::InvalidId));
    assert_eq!(parse_song_id("abc"), Err(CatalogError::InvalidId));
    assert_eq!(parse_song_id(""), Err(CatalogError::InvalidId));
    assert_eq!(parse_song_id("-"), Err(CatalogError::InvalidId));
    assert_eq!(parse_song_id(" 1"), Err(CatalogError::InvalidId));
}

#[test]
fn play_by_text_rejects_malformed_id() {
    let mut c = Catalog::new();
    c.add_song(song("A", "B", "C"));
    let before = c.flush;
    assert_eq!(c.play_song_by_text("one").unwrap_err(), CatalogError::InvalidId);
    assert_eq!(c.flush, before);
    assert_eq!(c.store.get(1).unwrap().play_count, 0);
}

#[test]
fn mutations_mark_dirty_failures_do_not() {
    let mut c = Catalog::new();
    assert!(!c.flush.dirty);
    assert!(c.play_song(1).is_err());
    assert!(!c.flush.dirty);
    c.add_song(song("A", "B", "C"));
    assert!(c.flush.dirty);
    assert!(c.flush.take_if_dirty());
    c.play_song(1).unwrap();
    assert!(c.flush.dirty);
}

#[test]
fn take_if_dirty_twice() {
    let mut f = FlushState::new();
    assert!(!f.take_if_dirty());
    f.mark_dirty();
    f.mark_dirty();
    assert!(f.take_if_dirty());
    assert!(!f.take_if_dirty());
}

#[test]
fn failed_flush_is_retried() {
    let mut c = Catalog::new();
    c.add_song(song("A", "B", "C"));
    assert_eq!(c.flush_step(FlushEvent::Tick), FlushAction::Flush);
    assert_eq!(c.flush_step(FlushEvent::FlushFailed), FlushAction::Wait);
    assert!(c.flush.dirty);
    assert_eq!(c.flush_step(FlushEvent::Tick), FlushAction::Flush);
    assert_eq!(c.flush_step(FlushEvent::Flushed), FlushAction::Wait);
    assert_eq!(c.flush, FlushState { dirty: false, flushing: false });
    assert_eq!(c.flush_step(FlushEvent::Tick), FlushAction::Wait);
}

#[test]
fn write_during_flush_is_kept() {
    let mut f = FlushState::new();
    f.mark_dirty();
    assert_eq!(f.step(FlushEvent::Tick), FlushAction::Flush);
    assert_eq!(f.step(FlushEvent::Tick), FlushAction::Wait);
    f.mark_dirty();
    assert_eq!(f.step(FlushEvent::Flushed), FlushAction::Wait);
    assert!(f.dirty);
    assert_eq!(f.step(FlushEvent::Tick), FlushAction::Flush);
}

#[test]
fn stray_reports_are_ignored() {
    let mut f = FlushState::new();
    assert_eq!(f.step(FlushEvent::FlushFailed), FlushAction::Wait);
    assert_eq!(f, FlushState { dirty: false, flushing: false });
    assert_eq!(f.step(FlushEvent::Flushed), FlushAction::Wait);
    assert_eq!(f.step(FlushEvent::Tick), FlushAction::Wait);
}

#[test]
fn visit_counter_counts_and_saturates() {
    let mut v = VisitCounter::new();
    assert_eq!(v.visit(), 1);
    assert_eq!(v.visit(), 2);
    v.count = u64::MAX;
    assert_eq!(v.visit(), u64::MAX);
}
