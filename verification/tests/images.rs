use lbxd::images::{get_images, images_request, images_url, search_url, SearchHit};
use lbxd::pager::{button_id, press_of, Pager, Press};

fn hit() -> SearchHit {
    SearchHit {
        id: "949".to_string(),
        original_title: "Heat".to_string(),
        release_date: "1995-12-15".to_string(),
    }
}

#[test]
fn search_addresses_carry_the_year_where_there_is_one() {
    assert_eq!(
        search_url("KEY", "heat", 0),
        "https://api.themoviedb.org/3/search/movie?api_key=KEY&language=en-US&query=heat&page=1&include_adult=false"
    );
    assert_eq!(
        search_url("KEY", "heat", 1995),
        "https://api.themoviedb.org/3/search/movie?api_key=KEY&language=en-US&query=heat&page=1&include_adult=false&year=1995"
    );
    assert_eq!(
        search_url("KEY", "heat", -7),
        "https://api.themoviedb.org/3/search/movie?api_key=KEY&language=en-US&query=heat&page=1&include_adult=false&year=-7"
    );
    assert!(search_url("K", "x", i32::MIN).ends_with("&year=-2147483648"));
}

#[test]
fn posters_are_asked_for_in_english_only() {
    assert_eq!(
        images_url("KEY", "949", "posters"),
        "https://api.themoviedb.org/3/movie/949/images?api_key=KEY&language=en-US&include_image_language=en"
    );
    assert_eq!(
        images_url("KEY", "949", "backdrops"),
        "https://api.themoviedb.org/3/movie/949/images?api_key=KEY"
    );
}

#[test]
fn a_search_without_hits_asks_for_nothing_more() {
    assert_eq!(images_request("KEY", &vec![], "posters"), None);
    assert_eq!(
        images_request("KEY", &vec![hit()], "backdrops"),
        Some("https://api.themoviedb.org/3/movie/949/images?api_key=KEY".to_string())
    );
}

#[test]
fn a_search_without_hits_gives_the_empty_set() {
    let set = get_images(&vec![], &vec![]);
    assert_eq!(set.title, "");
    assert!(set.images.is_empty());
    let set = get_images(&vec![], &vec!["/a.jpg".to_string()]);
    assert_eq!(set.title, "");
    assert!(set.images.is_empty());
}

#[test]
fn the_first_hit_gives_the_set() {
    let mut second = hit();
    second.original_title = "Heat 2".to_string();
    let set = get_images(&vec![hit(), second], &vec!["/a.jpg".to_string(), "/b.jpg".to_string()]);
    assert_eq!(set.title, "Heat (1995)");
    assert_eq!(
        set.images,
        vec![
            "https://www.themoviedb.org/t/p/original/a.jpg",
            "https://www.themoviedb.org/t/p/original/b.jpg"
        ]
    );
}

#[test]
fn a_short_release_day_is_taken_whole() {
    let mut h = hit();
    h.release_date = "19".to_string();
    assert_eq!(get_images(&vec![h], &vec![]).title, "Heat (19)");
    let mut h = hit();
    h.release_date = String::new();
    assert_eq!(get_images(&vec![h], &vec![]).title, "Heat ()");
}

#[test]
fn there_is_no_pager_without_pages() {
    assert!(Pager::new(0).is_none());
    let p = Pager::new(3).unwrap();
    assert_eq!(p.current(), 0);
    assert_eq!(p.pages(), 3);
}

#[test]
fn the_pager_goes_round() {
    let p = Pager::new(3).unwrap();
    assert!(p.at_start());
    assert!(!p.at_end());
    assert_eq!(p.footer(), "Page 1/3");
    let p = p.press(Press::Next);
    assert_eq!(p.current(), 1);
    assert!(!p.at_start());
    assert!(!p.at_end());
    let p = p.press(Press::Next);
    assert_eq!(p.current(), 2);
    assert!(p.at_end());
    assert_eq!(p.footer(), "Page 3/3");
    let p = p.press(Press::Next);
    assert_eq!(p.current(), 0);
    let p = p.press(Press::Prev);
    assert_eq!(p.current(), 2);
    let p = p.press(Press::Prev);
    assert_eq!(p.current(), 1);
    let p = p.press(Press::First);
    assert_eq!(p.current(), 0);
    let p = p.press(Press::Last);
    assert_eq!(p.current(), 2);
    assert_eq!(p.pages(), 3);
}

#[test]
fn a_pager_of_one_page_stays() {
    let mut p = Pager::new(1).unwrap();
    for press in [Press::Next, Press::Prev, Press::First, Press::Last] {
        p = p.press(press);
        assert_eq!(p.current(), 0);
        assert_eq!(p.pages(), 1);
        assert!(p.at_start() && p.at_end());
    }
}

#[test]
fn the_page_shown_is_always_one_of_the_pages() {
    for pages in 1..6 {
        let mut p = Pager::new(pages).unwrap();
        for step in 0..40 {
            let press = [Press::Next, Press::Next, Press::Prev, Press::Last, Press::Next, Press::First, Press::Prev][step % 7];
            p = p.press(press);
            assert!(p.current() < p.pages());
            assert_eq!(p.pages(), pages);
        }
    }
}

#[test]
fn buttons_are_known_by_their_identifiers() {
    assert_eq!(press_of("42next", "42"), Some(Press::Next));
    assert_eq!(press_of("42prev", "42"), Some(Press::Prev));
    assert_eq!(press_of("42first", "42"), Some(Press::First));
    assert_eq!(press_of("42last", "42"), Some(Press::Last));
    assert_eq!(press_of("43next", "42"), None);
    assert_eq!(press_of("42", "42"), None);
    assert_eq!(press_of("42nextx", "42"), None);
    assert_eq!(button_id("42", "next"), "42next");
    assert_eq!(press_of(&button_id("7", "last"), "7"), Some(Press::Last));
}
