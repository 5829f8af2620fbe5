use lbxd::bio::{format_bio, plain_bio};
use lbxd::profile::{
    assemble_profile, choose_bio, get_profile, pair_favorites, profile_url,
    read_favorite_titles, RawProfile,
};
use lbxd::records::FetchError;

const PAGE: &str = r#"<html><head>
<meta property="og:title" content="Jane Doe’s profile">
<meta name="description" content="Jane Doe uses the site to share film reviews. 12 films watched. Favorites: Heat (1995), Alien (1979), Ran (1985), Persona (1966). Bio: I like films.">
</head><body>
<div data-profile="true" data-username="JaneDoe"></div>
<img width="110" src="https://a.ltrbxd.com/avatar.jpg">
<div class="metadatum -has-label js-metadatum"><span> Paris </span></div>
<a class="metadatum -has-label js-metadatum" href="https://example.com">example.com</a>
<a class="metadatum -has-label js-metadatum" href="https://twitter.com/jane">jane</a>
<a class="metadatum -has-label js-metadatum" href="https://third.example">third</a>
<section id="favourites"><ul><li><div data-film-slug="/film/heat-1995/"></div></li><li><div data-film-slug="/film/alien/"></div></li></ul></section>
<section id="person-bio"><div class="collapsed-text"><p>I like <b>films</b> &amp; <a href="https://x.org" rel="nofollow">this</a></p></div></section>
<h4 class="profile-statistic statistic"><span>1,234</span><span>Films</span></h4>
<h4 class="profile-statistic statistic"><span>56</span></h4>
<h4 class="profile-statistic statistic"><span>7</span></h4>
<h4 class="profile-statistic statistic"><span>89</span></h4>
</body></html>"#;

fn chars(s: &str) -> Vec<char> {
    s.chars().collect()
}

fn text(v: Vec<char>) -> String {
    v.into_iter().collect()
}

fn raw() -> RawProfile {
    RawProfile {
        not_found: false,
        username: Some("JaneDoe".to_string()),
        title: None,
        location: None,
        websites: vec![],
        description: None,
        slugs: vec![],
        avatar: None,
        bio: String::new(),
        stats: vec![],
    }
}

#[test]
fn a_profile_is_read_off_its_page() {
    let p = get_profile("janedoe", PAGE).unwrap();
    assert!(p.found);
    assert_eq!(p.avatar, "https://a.ltrbxd.com/avatar.jpg");
    assert_eq!(p.username, "JaneDoe");
    assert_eq!(p.name, "Jane Doe");
    assert_eq!(p.bio, "I like **films** & [this](https://x.org)");
    assert_eq!(p.followers, "89");
    assert_eq!(
        p.favorites,
        "• [Heat (1995)](https://letterboxd.com/film/heat-1995/)\n• [Alien (1979)](https://letterboxd.com/film/alien/)"
    );
    assert_eq!(p.location, "📍 ***Paris***");
    assert_eq!(p.films_count, "1,234 films logged, 56 this year.");
    assert_eq!(p.websites, vec!["https://example.com", "https://twitter.com/jane"]);
    assert_eq!(p.url, "https://letterboxd.com/janedoe");
}

#[test]
fn a_missing_profile_gives_the_empty_record() {
    let page = "<html><body>Sorry, we can’t find the page you’ve requested.</body></html>";
    let p = get_profile("nobody", page).unwrap();
    assert!(!p.found);
    assert_eq!(p.username, "");
    assert_eq!(p.url, "");
    assert_eq!(p.bio, "");
    assert!(p.websites.is_empty());
}

#[test]
fn a_page_that_states_no_username_is_an_error() {
    let got = get_profile("jane", "<html><body></body></html>");
    assert_eq!(got.err(), Some(FetchError::ParseAssumptionViolation));
    let mut r = raw();
    r.username = None;
    assert_eq!(assemble_profile("jane", &r).err(), Some(FetchError::ParseAssumptionViolation));
}

#[test]
fn a_bare_profile_is_filled_with_defaults() {
    let p = assemble_profile("jane", &raw()).unwrap();
    assert!(p.found);
    assert_eq!(p.username, "JaneDoe");
    assert_eq!(p.avatar, "");
    assert_eq!(p.name, "");
    assert_eq!(p.bio, "");
    assert_eq!(p.followers, "");
    assert_eq!(p.favorites, "");
    assert_eq!(p.location, "");
    assert_eq!(p.films_count, "");
    assert!(p.websites.is_empty());
    assert_eq!(p.url, "https://letterboxd.com/jane");
}

#[test]
fn a_stock_avatar_is_left_out() {
    let mut r = raw();
    r.avatar = Some("https://s.ltrbxd.com/static/img/avatar220.png".to_string());
    assert_eq!(assemble_profile("jane", &r).unwrap().avatar, "");
}

#[test]
fn statistics_fill_the_counts_by_their_places() {
    let mut r = raw();
    r.stats = vec![vec!["10".to_string()]];
    let p = assemble_profile("jane", &r).unwrap();
    assert_eq!(p.films_count, "10 films logged, ");
    assert_eq!(p.followers, "");
    r.stats = vec![vec!["10".to_string()], vec![]];
    let p = assemble_profile("jane", &r).unwrap();
    assert_eq!(p.films_count, "10 films logged,  this year.");
    assert_eq!(p.followers, "");
    r.stats = vec![vec!["10".to_string()], vec!["2".to_string()], vec!["5".to_string(), "x".to_string()]];
    let p = assemble_profile("jane", &r).unwrap();
    assert_eq!(p.films_count, "10 films logged, 2 this year.");
    assert_eq!(p.followers, "5");
}

#[test]
fn websites_without_an_address_are_passed_over() {
    let mut r = raw();
    r.websites = vec![None, Some("a".to_string()), None, Some("b".to_string()), Some("c".to_string())];
    assert_eq!(assemble_profile("jane", &r).unwrap().websites, vec!["a", "b"]);
}

#[test]
fn favorite_titles_are_read_out_of_the_description() {
    let titles = |d: &str| -> Vec<String> {
        read_favorite_titles(&chars(d)).into_iter().map(text).collect()
    };
    assert_eq!(titles("Nothing named."), Vec::<String>::new());
    assert_eq!(titles("x. Favorites: A, B, C."), vec!["A", "B", "C"]);
    assert_eq!(titles("x. Favorites: A, B. Bio: hello"), vec!["A", "B"]);
    assert_eq!(titles("x. Favorites: "), vec![""]);
    assert_eq!(titles("Favorites: A. Favorites: B."), vec!["A."]);
}

#[test]
fn favorites_are_paired_by_their_places() {
    let pair = |t: &[&str], s: &[&str]| -> String {
        let t: Vec<Vec<char>> = t.iter().map(|x| chars(x)).collect();
        let s: Vec<Vec<char>> = s.iter().map(|x| chars(x)).collect();
        text(pair_favorites(&t, &s))
    };
    assert_eq!(pair(&[], &["/film/a/"]), "");
    assert_eq!(pair(&["A"], &[]), "");
    assert_eq!(pair(&["A"], &["/film/a/"]), "• [A](https://letterboxd.com/film/a/)");
    assert_eq!(
        pair(&["A", "B", "C"], &["/film/a/", "/film/b/"]),
        "• [A](https://letterboxd.com/film/a/)\n• [B](https://letterboxd.com/film/b/)"
    );
}

#[test]
fn the_bio_is_chosen_by_rank() {
    let s = |x: &str| Some(x.to_string());
    assert_eq!(choose_bio(true, s("c"), s("m"), s("s")), s("c"));
    assert_eq!(choose_bio(true, None, s("m"), s("s")), s("m"));
    assert_eq!(choose_bio(true, None, None, s("s")), None);
    assert_eq!(choose_bio(false, s("c"), s("m"), s("s")), s("s"));
    assert_eq!(choose_bio(false, s("c"), s("m"), None), None);
}

#[test]
fn tags_become_markup() {
    assert_eq!(plain_bio("  <p>a<br>b</p><p><b>c</b> <i>d</i></p> \n"), "a\nb\n**c** *d*");
    assert_eq!(plain_bio("plain"), "plain");
    assert_eq!(plain_bio(" \t\u{a0}\u{3000}x\u{2003}"), "x");
    assert_eq!(plain_bio("   "), "");
}

#[test]
fn a_bio_is_made_ready_for_the_chat() {
    assert_eq!(
        format_bio(r#"<p>See <a href="https://a.b/c">my site</a> &amp; more &lt;3</p>"#),
        "See [my site](https://a.b/c) & more <3"
    );
    assert_eq!(format_bio("no tags"), "no tags");
}

#[test]
fn each_anchor_of_a_bio_becomes_a_link_of_its_own() {
    assert_eq!(
        format_bio(r#"<a href="u1">A</a> and <a href="u2">B</a>"#),
        "[A](u1) and [B](u2)"
    );
    assert_eq!(
        format_bio(r#"<p>See <a class="x" href="https://a.b" rel="nofollow">one</a>,<br><a href="https://c.d">two</a></p>"#),
        "See [one](https://a.b),\n[two](https://c.d)"
    );
}

#[test]
fn the_short_bio_is_used_without_a_section() {
    let page = r#"<html><body><div data-profile="true" data-username="J"></div>
<div class="collapsible-text body-text -small js-bio-content"><p>Short one</p></div></body></html>"#;
    assert_eq!(get_profile("j", page).unwrap().bio, "Short one");
}

#[test]
fn profile_addresses() {
    assert_eq!(profile_url("Jane"), "https://letterboxd.com/Jane");
}
