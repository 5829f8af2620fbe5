use lbxd::film::{
    assemble_film, film_path, film_search_url, film_url, first_result, get_film, reviews_url,
    search_url_of, RawFilm,
};
use lbxd::records::{FetchError, FilmResult};

const WHOLE: &str = "<:lbstar:1061604009783341117>";
const HALF: &str = "<:lbhstar:1061603475949096991>";

const FILM_PAGE: &str = r#"<html><head>
<meta property="og:title" content="Parasite (2019)">
<meta name="description" content="All unemployed, Ki-taek's family takes peculiar interest in the wealthy and glamorous Parks for their livelihood until they get entangled in an unexpected incident.">
<meta name="twitter:data1" content="Bong Joon-ho">
<meta name="twitter:data2" content="4.56 out of 5">
<script type="application/ld+json">{"image":"https://a.ltrbxd.com/poster.jpg","genre":["Comedy","Thriller","Drama"]}</script>
</head><body>
<h4 class="tagline">Act like you own the place.</h4>
<a href="/films/country/south-korea/" class="text-slug">South Korea</a>
<p class="text-link text-footer">133&nbsp;mins &nbsp; More at IMDb</p>
</body></html>"#;

const REVIEWS_PAGE: &str = r#"<html><body>
<a title="3,456,789&nbsp;people">Watched</a>
<a title="1,500,000&nbsp;likes">Likes</a>
<a title="98,765&nbsp;reviews">Reviews</a>
</body></html>"#;

fn raw() -> RawFilm {
    RawFilm {
        title: None,
        description: None,
        tagline: None,
        poster: None,
        score: None,
        directors: None,
        countries: None,
        minutes: None,
        genres: None,
        counts: vec![],
    }
}

#[test]
fn a_film_is_read_off_its_pages() {
    let film = get_film("/film/parasite-2019/", FILM_PAGE, REVIEWS_PAGE);
    assert!(film.found);
    assert_eq!(film.title, "Parasite (2019)");
    assert_eq!(film.tagline, "Act like you own the place.");
    assert_eq!(
        film.synopsis,
        "All unemployed, Ki-taek's family takes peculiar interest in the wealthy and glamorous Parks for thei..."
    );
    assert_eq!(film.rating, format!("{}{} 4.56", WHOLE.repeat(4), HALF));
    assert_eq!(film.genre, "Comedy, Thriller, Drama");
    assert_eq!(film.duration, "2h 13m");
    assert_eq!(film.directors, "Bong Joon-ho");
    assert_eq!(film.countries, "South Korea");
    assert_eq!(film.poster, "https://a.ltrbxd.com/poster.jpg");
    assert_eq!(film.info.people.as_deref(), Some("3.46m"));
    assert_eq!(film.info.likes.as_deref(), Some("1.50m"));
    assert_eq!(film.info.reviews.as_deref(), Some("98.8k"));
    assert_eq!(film.url, "https://letterboxd.com/film/parasite-2019/");
}

#[test]
fn a_bare_page_gives_a_film_with_defaults() {
    let film = get_film("/film/x/", "<html></html>", "");
    assert!(film.found);
    assert_eq!(film.title, "");
    assert_eq!(film.tagline, "");
    assert_eq!(film.synopsis, "");
    assert_eq!(film.rating, " 0.0");
    assert_eq!(film.genre, "");
    assert_eq!(film.duration, "0m");
    assert_eq!(film.directors, "");
    assert_eq!(film.countries, "");
    assert_eq!(film.poster, "");
    assert_eq!(film.info.people, None);
    assert_eq!(film.info.likes, None);
    assert_eq!(film.info.reviews, None);
    assert_eq!(film.url, "https://letterboxd.com/film/x/");
}

#[test]
fn a_synopsis_of_a_hundred_characters_stays_whole() {
    let mut r = raw();
    r.description = Some("a".repeat(100));
    assert_eq!(assemble_film("/p", &r).synopsis, "a".repeat(100));
    r.description = Some("a".repeat(101));
    assert_eq!(assemble_film("/p", &r).synopsis, "a".repeat(100) + "...");
    r.description = Some("é".repeat(101));
    assert_eq!(assemble_film("/p", &r).synopsis, "é".repeat(100) + "...");
}

#[test]
fn ratings_are_read_and_shown() {
    let mut r = raw();
    r.score = Some("4.0 out of 5".to_string());
    assert_eq!(assemble_film("/p", &r).rating, format!("{} 4.0", WHOLE.repeat(4)));
    r.score = Some("3.5 out of 5".to_string());
    assert_eq!(assemble_film("/p", &r).rating, format!("{}{} 3.5", WHOLE.repeat(3), HALF));
    r.score = Some("3.85 out of 5".to_string());
    assert_eq!(assemble_film("/p", &r).rating, format!("{} 3.85", WHOLE.repeat(4)));
    r.score = Some("3".to_string());
    assert_eq!(assemble_film("/p", &r).rating, format!("{} 3.0", WHOLE.repeat(3)));
    r.score = Some("n/a out of 5".to_string());
    assert_eq!(assemble_film("/p", &r).rating, " 0.0");
    r.score = Some("3.857 out of 5".to_string());
    assert_eq!(assemble_film("/p", &r).rating, " 0.0");
}

#[test]
fn countries_are_listed_with_commas() {
    let mut r = raw();
    r.countries = Some(
        r#"/films/country/france/" class="text-slug">France</a> <a href="/films/country/italy/" class="text-slug">Italy</a>"#
            .to_string(),
    );
    assert_eq!(assemble_film("/p", &r).countries, "France, Italy");
    r.countries = Some("no names here".to_string());
    assert_eq!(assemble_film("/p", &r).countries, "");
}

#[test]
fn later_counts_replace_earlier_ones() {
    let mut r = raw();
    r.counts = vec![
        ("people".to_string(), "12".to_string()),
        ("likes".to_string(), "many".to_string()),
        ("people".to_string(), "1,000".to_string()),
        ("fans".to_string(), "5".to_string()),
    ];
    let film = assemble_film("/p", &r);
    assert_eq!(film.info.people.as_deref(), Some("1.0k"));
    assert_eq!(film.info.likes, None);
    assert_eq!(film.info.reviews, None);
}

#[test]
fn minutes_that_are_no_number_count_as_zero() {
    let mut r = raw();
    r.minutes = Some("95".to_string());
    assert_eq!(assemble_film("/p", &r).duration, "1h 35m");
    r.minutes = Some("soon".to_string());
    assert_eq!(assemble_film("/p", &r).duration, "0m");
    r.minutes = Some("4294967296".to_string());
    assert_eq!(assemble_film("/p", &r).duration, "0m");
}

#[test]
fn search_addresses() {
    assert_eq!(search_url_of("heat"), "https://letterboxd.com/search/films/heat/?adult");
    assert_eq!(film_search_url("Heat"), "https://letterboxd.com/search/films/heat/?adult");
    assert_eq!(
        film_search_url("The Godfather"),
        "https://letterboxd.com/search/films/the godfather/?adult"
    );
    assert_eq!(film_url("/film/heat/"), "https://letterboxd.com/film/heat/");
    assert_eq!(reviews_url("/film/heat/"), "https://letterboxd.com/film/heat//reviews");
}

#[test]
fn the_first_result_of_a_search_is_taken() {
    let page = r#"<html><body><ul class="results">
<li><div data-target-link="/film/heat-1995/">Heat</div></li>
<li><div data-target-link="/film/heat-1986/">Heat</div></li>
</ul></body></html>"#;
    assert_eq!(film_path(page), Ok(Some("/film/heat-1995/".to_string())));
}

#[test]
fn a_search_without_results_finds_nothing() {
    let page = r#"<html><body><ul class="results"></ul></body></html>"#;
    assert_eq!(film_path(page), Ok(None));
    assert_eq!(first_result(true, None), Ok(None));
}

#[test]
fn a_search_page_without_a_list_is_an_error() {
    assert_eq!(film_path("<html><body></body></html>"), Err(FetchError::ParseAssumptionViolation));
    assert_eq!(
        first_result(false, Some("/film/x/".to_string())),
        Err(FetchError::ParseAssumptionViolation)
    );
}

#[test]
fn a_film_not_found_holds_nothing() {
    let film = FilmResult::default();
    assert!(!film.found);
    assert_eq!(film.title, "");
    assert_eq!(film.url, "");
    assert_eq!(film.info.people, None);
}
