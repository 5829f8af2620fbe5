use lbxd::records::{DiaryPage, DiaryResult, FilmInfo, FilmResult, ImageSet, ProfileResult};
use lbxd::render::{
    diary_description, diary_reply, film_description, film_reply, images_reply, profile_reply,
    website_buttons, Label, Reply,
};

fn film() -> FilmResult {
    FilmResult {
        found: true,
        title: "Heat (1995)".to_string(),
        tagline: "A Los Angeles crime saga.".to_string(),
        synopsis: "Obsessive master thief.".to_string(),
        rating: "**** 4.2".to_string(),
        genre: "Crime, Drama".to_string(),
        duration: "2h 50m".to_string(),
        directors: "Michael Mann".to_string(),
        countries: "USA".to_string(),
        poster: "https://p/heat.jpg".to_string(),
        info: FilmInfo {
            people: Some("1.2m".to_string()),
            likes: Some("400.0k".to_string()),
            reviews: None,
        },
        url: "https://letterboxd.com/film/heat-1995/".to_string(),
    }
}

fn entry(title: &str) -> DiaryResult {
    DiaryResult {
        found: true,
        title: title.to_string(),
        rating: String::new(),
        rewatched: false,
        liked: false,
        reviewed: false,
        date: "Mar 05".to_string(),
        url: "https://letterboxd.com/film/x".to_string(),
    }
}

fn card(reply: Reply) -> lbxd::render::Card {
    match reply {
        Reply::Card(c) => c,
        Reply::Apology(a) => panic!("an apology: {}", a),
    }
}

fn apology(reply: Reply) -> String {
    match reply {
        Reply::Apology(a) => a,
        Reply::Card(c) => panic!("a card: {}", c.title),
    }
}

#[test]
fn a_film_is_shown_in_full() {
    assert_eq!(
        film_description(&film()),
        "**A Los Angeles crime saga.**\nObsessive master thief.\n\n**** 4.2\nDirector: Michael Mann\nUSA | Crime, Drama\n2h 50m\n\u{1f440} 1.2m | \u{2764}\u{fe0f} 400.0k | \u{1f4ac} 0"
    );
}

#[test]
fn what_a_film_lacks_is_left_out() {
    let mut f = film();
    f.tagline = String::new();
    f.rating = " 0.0".to_string();
    f.duration = "0m".to_string();
    f.countries = String::new();
    f.directors = "A, B".to_string();
    f.info = FilmInfo { people: None, likes: None, reviews: Some("3".to_string()) };
    assert_eq!(
        film_description(&f),
        "Obsessive master thief.\n\nDirectors: A, B\n  Crime, Drama\n\u{1f440} 0 | \u{2764}\u{fe0f} 0 | \u{1f4ac} 3"
    );
}

#[test]
fn a_film_found_gives_a_card() {
    let c = card(film_reply("heat", &film()));
    assert_eq!(c.title, "Heat (1995)");
    assert_eq!(c.url, "https://letterboxd.com/film/heat-1995/");
    assert_eq!(c.thumbnail, "https://p/heat.jpg");
    assert_eq!(c.description, film_description(&film()));
    assert_eq!(c.author, "");
    assert_eq!(c.footer, "");
}

#[test]
fn a_film_not_found_gives_an_apology() {
    assert_eq!(apology(film_reply("heat", &FilmResult::default())), "Couldn't find `heat` film.");
    let mut f = film();
    f.found = false;
    assert_eq!(apology(film_reply("x", &f)), "Couldn't find `x` film.");
}

#[test]
fn entries_are_shown_with_their_marks() {
    let mut full = entry("Heat (1995)");
    full.rating = "***".to_string();
    full.rewatched = true;
    full.liked = true;
    full.reviewed = true;
    assert_eq!(
        diary_description(&vec![full, entry("Alien (1979)")]),
        "[**Heat (1995)**](https://letterboxd.com/film/x)\nMar 05 *** \u{1f504} \u{2764}\u{fe0f} \u{1f4ac}\n[**Alien (1979)**](https://letterboxd.com/film/x)\nMar 05 \n"
    );
    assert_eq!(diary_description(&vec![]), "");
}

#[test]
fn a_diary_gives_a_card_or_one_of_two_apologies() {
    assert_eq!(
        apology(diary_reply("jane", &DiaryPage::sentinel(false))),
        "Couldn't find `jane` user.\nMake sure to provide your Letterboxd **username**, not the link."
    );
    assert_eq!(
        apology(diary_reply("jane", &DiaryPage::sentinel(true))),
        "`jane` doesn't have any recent diaries."
    );
    let page = DiaryPage {
        avatar: String::new(),
        name: "Jane".to_string(),
        entries: vec![entry("Heat (1995)")],
    };
    let c = card(diary_reply("jane", &page));
    assert_eq!(c.title, "Jane's Recent Diary Entries");
    assert_eq!(c.url, "https://letterboxd.com/jane/films/diary");
    assert_eq!(c.thumbnail, "");
    assert_eq!(c.description, diary_description(&page.entries));
}

#[test]
fn a_profile_gives_a_card_or_an_apology() {
    assert_eq!(
        apology(profile_reply("jane", &ProfileResult::default())),
        "Couldn't find `jane` user.\nMake sure to provide your Letterboxd **username**, not the link."
    );
    let mut p = ProfileResult::default();
    p.found = true;
    p.username = "JaneDoe".to_string();
    p.name = "Jane".to_string();
    p.followers = "1,204".to_string();
    p.films_count = "10 films logged, 2 this year.".to_string();
    p.url = "https://letterboxd.com/jane".to_string();
    let c = card(profile_reply("jane", &p));
    assert_eq!(c.author, "JaneDoe");
    assert_eq!(c.title, "Jane");
    assert_eq!(c.description, "");
    assert_eq!(c.footer, "1,204 followers, 10 films logged, 2 this year.");
    assert_eq!(c.url, "https://letterboxd.com/jane");
    p.followers = "1".to_string();
    p.bio = "Hello".to_string();
    p.favorites = "\u{2022} [A](b)".to_string();
    let c = card(profile_reply("jane", &p));
    assert_eq!(c.footer, "1 follower, 10 films logged, 2 this year.");
    assert_eq!(
        c.description,
        "\nHello\n\u{2014}\u{2014}\u{2014}\u{2014}\u{2014}\u{2014}\u{2014}\u{2014}\u{2014}\u{2014}\u{2014}\u{2014}\u{2014}\u{2014}\u{2014}\n\u{2022} [A](b)\n"
    );
    p.followers = "many".to_string();
    assert_eq!(card(profile_reply("jane", &p)).footer, "many follower, 10 films logged, 2 this year.");
}

#[test]
fn buttons_are_labelled_by_number_and_address() {
    let s = |v: &[&str]| -> Vec<String> { v.iter().map(|x| x.to_string()).collect() };
    assert_eq!(website_buttons(&s(&[])), vec![]);
    assert_eq!(website_buttons(&s(&["https://a.b"])), vec![Label::Website]);
    assert_eq!(website_buttons(&s(&["https://twitter.com/x"])), vec![Label::Twitter]);
    assert_eq!(
        website_buttons(&s(&["https://twitter.com/x", "https://a.b"])),
        vec![Label::Website, Label::Twitter]
    );
    assert_eq!(website_buttons(&s(&["a", "b", "c"])), vec![Label::Website, Label::Twitter]);
}

#[test]
fn images_are_paged_where_there_are_any() {
    let set = ImageSet { title: "Heat (1995)".to_string(), images: vec!["a".to_string()] };
    assert_eq!(images_reply("heat", &set), None);
    assert_eq!(
        images_reply("heat", &ImageSet::default()),
        Some("Couldn't find `heat` film.".to_string())
    );
    let set = ImageSet { title: "Heat (1995)".to_string(), images: vec![] };
    assert_eq!(images_reply("heat", &set), Some("Couldn't find `heat` film.".to_string()));
}
