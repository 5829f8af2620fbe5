use lbxd::cache::{Cache, Data};
use lbxd::records::{FetchError, FilmResult, ImageSet};
use std::cell::Cell;

fn film(title: &str) -> FilmResult {
    let mut f = FilmResult::default();
    f.found = true;
    f.title = title.to_string();
    f
}

#[test]
fn the_second_lookup_does_not_fetch() {
    let mut cache: Cache<FilmResult> = Cache::new();
    let fetches = Cell::new(0);
    let first = cache.get_or_fetch("heat", || {
        fetches.set(fetches.get() + 1);
        film("Heat (1995)")
    });
    let second = cache.get_or_fetch("heat", || {
        fetches.set(fetches.get() + 1);
        film("Something else")
    });
    assert_eq!(fetches.get(), 1);
    assert_eq!(first.title, "Heat (1995)");
    assert_eq!(second.title, first.title);
    assert_eq!(second.found, first.found);
    assert_eq!(second.url, first.url);
}

#[test]
fn keys_are_taken_as_they_are_written() {
    let mut cache: Cache<FilmResult> = Cache::new();
    let fetches = Cell::new(0);
    for key in ["heat", "Heat", "heat ", "heat"] {
        cache.get_or_fetch(key, || {
            fetches.set(fetches.get() + 1);
            film(key)
        });
    }
    assert_eq!(fetches.get(), 3);
    assert_eq!(cache.lookup("Heat").unwrap().title, "Heat");
    assert_eq!(cache.lookup("heat").unwrap().title, "heat");
    assert!(cache.lookup("HEAT").is_none());
}

#[test]
fn a_film_not_found_is_kept_too() {
    let mut cache: Cache<FilmResult> = Cache::new();
    let fetches = Cell::new(0);
    for _ in 0..3 {
        let got = cache.get_or_fetch("nothing", || {
            fetches.set(fetches.get() + 1);
            FilmResult::default()
        });
        assert!(!got.found);
    }
    assert_eq!(fetches.get(), 1);
}

#[test]
fn a_later_record_replaces_the_one_kept() {
    let mut cache: Cache<FilmResult> = Cache::new();
    assert!(!cache.contains("heat"));
    assert!(cache.lookup("heat").is_none());
    cache.store("heat".to_string(), film("first"));
    cache.store("heat".to_string(), film("second"));
    assert!(cache.contains("heat"));
    assert_eq!(cache.lookup("heat").unwrap().title, "second");
}

#[test]
fn the_stores_do_not_touch_one_another() {
    let mut data = Data::default();
    data.poster_cache.store(
        "heat".to_string(),
        ImageSet { title: "Heat (1995)".to_string(), images: vec!["p".to_string()] },
    );
    assert!(data.poster_cache.contains("heat"));
    assert!(!data.backdrop_cache.contains("heat"));
    assert!(!data.film_cache.contains("heat"));
    assert!(!data.diary_cache.contains("heat"));
    assert!(!data.profile_cache.contains("heat"));
    assert_eq!(data.poster_cache.lookup("heat").unwrap().images, vec!["p"]);
}

#[test]
fn a_fetch_that_failed_leaves_the_store_as_it_was() {
    let mut cache: Cache<FilmResult> = Cache::new();
    cache.store("heat".to_string(), film("kept"));
    let got = cache.keep_fetched("heat".to_string(), Err(FetchError::TransientNetworkFailure));
    assert_eq!(got.err(), Some(FetchError::TransientNetworkFailure));
    assert_eq!(cache.lookup("heat").unwrap().title, "kept");
    let got = cache.keep_fetched("ran".to_string(), Err(FetchError::ParseAssumptionViolation));
    assert_eq!(got.err(), Some(FetchError::ParseAssumptionViolation));
    assert!(!cache.contains("ran"));
}

#[test]
fn a_fetch_that_brought_a_record_keeps_it() {
    let mut cache: Cache<FilmResult> = Cache::new();
    let got = cache.keep_fetched("heat".to_string(), Ok(film("Heat (1995)")));
    assert_eq!(got.unwrap().title, "Heat (1995)");
    assert_eq!(cache.lookup("heat").unwrap().title, "Heat (1995)");
    let got = cache.keep_fetched("heat".to_string(), Ok(film("again")));
    assert_eq!(got.unwrap().title, "again");
    assert_eq!(cache.lookup("heat").unwrap().title, "again");
}
