//! Films: the address to search at, what a search found, and the record
//! that the pages of a film give.

use vstd::prelude::*;
use crate::extract::{
    attr_of_first, capture_of_first, first_attribute, first_capture, first_inner, inner_of_first,
    or_empty,
};
use crate::markup::{inner_markup, select_inner};
use crate::numbers::{
    all_digits, count_of, count_text, duration_text, is_count, number_of, parse_number,
    try_format_number, convert_duration,
};
use crate::pattern::{captures_all, pattern_captures, pattern_replaced, replace_matches};
use crate::rating::{parse_score, rating_line, rating_text, score_of};
use crate::records::{text_of, FetchError, Film, FilmInfo, FilmInfoView, FilmResult};
use crate::site::{BASE_URL, DESCRIPTION, OG_TITLE};
use crate::text::{
    before, chars_of, chars_or_empty, cut, cut_at, head_before, is_text, join, joined, lowercase,
    lowercased, prefix, push_str, replace, replaced, split, split_on, string_of, views,
};

verus! {

/// What a title is stripped of before it is searched for: the characters
/// around its run of plain ones.
pub const TITLE_PATTERN: &'static str =
    r#"([^[:ascii:][:alnum:]'\s]|^)([[:ascii:][:alnum:]'\s\u{4e00}-\u{9fff}]*)([^[:ascii:][:alnum:]'\s]|$)"#;

/// The list that holds the results of a search.
pub const RESULTS: &'static str = "ul.results";

/// The element of a search result that carries the film's path.
pub const RESULT_LINK: &'static str = "ul.results li div";

/// The element that holds the tagline.
pub const TAGLINE: &'static str = "h4.tagline";

/// The element that carries the average rating.
pub const SCORE: &'static str = r#"meta[name="twitter:data2"]"#;

/// The element that carries the directors.
pub const DIRECTORS: &'static str = r#"meta[name="twitter:data1"]"#;

/// The element that holds the running time.
pub const FOOTER: &'static str = r#"p[class="text-link text-footer"]"#;

/// The address of the poster, in the data of the page.
pub const POSTER_PATTERN: &'static str = r#""image":"([^\s"']+)"#;

/// The links to the countries, from the first to the last on a line.
pub const COUNTRIES_PATTERN: &'static str = r#"/films/country/.*/" class=".*">(.*)</a>"#;

/// The running time in minutes, in the markup of the footer.
pub const DURATION_PATTERN: &'static str = r#"(\d+)&nbsp;mins &nbsp;"#;

/// The list of genres, in the data of the page.
pub const GENRE_PATTERN: &'static str = r#""genre":[\[](.*)"[\]]"#;

/// A count, and what it counts, in the markup of the page of reviews.
pub const INFO_PATTERN: &'static str = r#"title="(.*)&nbsp;(people|likes|reviews)"#;

/// The longest synopsis that is shown whole, in characters.
pub const SYNOPSIS_LIMIT: usize = 100;

/// A title as it is searched for: in lower case, and stripped by
/// `TITLE_PATTERN`, which keeps the second group of each match.
pub open spec fn normal_title(title: Seq<char>) -> Seq<char> {
    match pattern_replaced(TITLE_PATTERN@, lowercased(title), "$2"@) {
        Some(t) => t,
        None => lowercased(title),
    }
}

/// The address of the search for a title already made normal.
pub open spec fn search_address(normal: Seq<char>) -> Seq<char> {
    BASE_URL@ + "/search/films/"@ + normal + "/?adult"@
}

/// Writes the address of the search for a title already made normal.
pub fn search_url_of(normal: &str) -> (out: String)
    ensures
        out@ == search_address(normal@),
{
    let mut out = chars_of(BASE_URL);
    push_str(&mut out, "/search/films/");
    push_str(&mut out, normal);
    push_str(&mut out, "/?adult");
    string_of(&out)
}

/// Writes the address at which a title is searched for.
pub fn film_search_url(title: &str) -> (out: String)
    ensures
        out@ == search_address(normal_title(title@)),
{
    let lower = lowercase(title);
    match replace_matches(TITLE_PATTERN, lower.as_str(), "$2") {
        Some(t) => search_url_of(t.as_str()),
        None => search_url_of(lower.as_str()),
    }
}

/// What a search found: an error where the page has no list of results,
/// nothing where the list names no film, else the path of the first film.
pub open spec fn found_path(has_list: bool, link: Option<Seq<char>>) -> Result<
    Option<Seq<char>>,
    FetchError,
> {
    if !has_list {
        Err(FetchError::ParseAssumptionViolation)
    } else {
        Ok(link)
    }
}

/// The view of a path that was or was not found.
pub open spec fn path_view(r: Result<Option<String>, FetchError>) -> Result<
    Option<Seq<char>>,
    FetchError,
> {
    match r {
        Ok(o) => Ok(text_of(o)),
        Err(e) => Err(e),
    }
}

/// Decides what a search found, from whether the page has a list of results
/// and from the link of the first result.
pub fn first_result(has_list: bool, link: Option<String>) -> (out: Result<
    Option<String>,
    FetchError,
>)
    ensures
        path_view(out) == found_path(has_list, text_of(link)),
{
    if !has_list {
        Err(FetchError::ParseAssumptionViolation)
    } else {
        Ok(link)
    }
}

/// Reads the path of the first film off the page of a search. The first
/// result is taken as it comes.
pub fn film_path(search_page: &str) -> (out: Result<Option<String>, FetchError>)
    ensures
        path_view(out) == found_path(
            inner_markup(search_page@, RESULTS@).len() > 0,
            first_attribute(search_page@, RESULT_LINK@, "data-target-link"@),
        ),
{
    let lists = select_inner(search_page, RESULTS);
    let link = attr_of_first(search_page, RESULT_LINK, "data-target-link");
    first_result(lists.len() > 0, link)
}

/// What the pages of a film hold, as it was read off them.
#[derive(Debug)]
pub struct RawFilm {
    /// The title and year.
    pub title: Option<String>,
    /// The description, from which the synopsis is made.
    pub description: Option<String>,
    pub tagline: Option<String>,
    pub poster: Option<String>,
    /// The average rating, as in `3.85 out of 5`.
    pub score: Option<String>,
    pub directors: Option<String>,
    /// The markup that lists the countries.
    pub countries: Option<String>,
    /// The running time in minutes, in digits.
    pub minutes: Option<String>,
    /// The genres, quoted and set apart by commas.
    pub genres: Option<String>,
    /// Pairs of what was counted (`people`, `likes`, `reviews`) and the count.
    pub counts: Vec<(String, String)>,
}

/// What a `RawFilm` holds.
pub struct RawFilmView {
    pub title: Option<Seq<char>>,
    pub description: Option<Seq<char>>,
    pub tagline: Option<Seq<char>>,
    pub poster: Option<Seq<char>>,
    pub score: Option<Seq<char>>,
    pub directors: Option<Seq<char>>,
    pub countries: Option<Seq<char>>,
    pub minutes: Option<Seq<char>>,
    pub genres: Option<Seq<char>>,
    pub counts: Seq<(Seq<char>, Seq<char>)>,
}

/// The views of pairs of strings, in order.
pub open spec fn pairs(v: Seq<(String, String)>) -> Seq<(Seq<char>, Seq<char>)> {
    v.map_values(|p: (String, String)| (p.0@, p.1@))
}

impl View for RawFilm {
    type V = RawFilmView;

    open spec fn view(&self) -> RawFilmView {
        RawFilmView {
            title: text_of(self.title),
            description: text_of(self.description),
            tagline: text_of(self.tagline),
            poster: text_of(self.poster),
            score: text_of(self.score),
            directors: text_of(self.directors),
            countries: text_of(self.countries),
            minutes: text_of(self.minutes),
            genres: text_of(self.genres),
            counts: pairs(self.counts@),
        }
    }
}

/// A description cut down to a synopsis: its first hundred characters and
/// three dots where it is longer than that, else all of it.
pub open spec fn synopsis_text(description: Seq<char>) -> Seq<char> {
    if description.len() > SYNOPSIS_LIMIT {
        description.take(SYNOPSIS_LIMIT as int) + "..."@
    } else {
        description
    }
}

/// Cuts a description down to a synopsis.
pub fn synopsis(description: &Vec<char>) -> (out: Vec<char>)
    ensures
        out@ == synopsis_text(description@),
{
    let mut out = prefix(description, SYNOPSIS_LIMIT);
    if description.len() > SYNOPSIS_LIMIT {
        push_str(&mut out, "...");
    }
    out
}

/// The rating that the score of a film states, in hundredths of a star: what
/// stands before ` out`, read as a rating; zero where that is none.
pub open spec fn film_rating(score: Option<Seq<char>>) -> nat {
    match score {
        Some(s) => match score_of(head_before(s, " out"@)) {
            Some(r) => if r <= u32::MAX {
                r
            } else {
                0
            },
            None => 0,
        },
        None => 0,
    }
}

/// Reads the rating that the score of a film states.
pub fn rating_of(score: &Option<String>) -> (r: u32)
    ensures
        r == film_rating(text_of(*score)),
{
    match score {
        Some(s) => {
            let head = before(&chars_of(s.as_str()), &chars_of(" out"));
            match parse_score(&head) {
                Some(r) => r,
                None => 0,
            }
        },
        None => 0,
    }
}

/// The names in pieces of markup: of each piece that holds `</a>`, what
/// stands before it.
pub open spec fn country_names(parts: Seq<Seq<char>>) -> Seq<Seq<char>>
    decreases parts.len(),
{
    if parts.len() == 0 {
        Seq::empty()
    } else {
        let rest = country_names(parts.drop_last());
        match cut(parts.last(), "</a>"@) {
            Some((name, _)) => rest.push(name),
            None => rest,
        }
    }
}

/// The countries of a film, set apart by commas: the names in the pieces
/// into which `text-slug">` splits the markup.
pub open spec fn countries_text(markup: Seq<char>) -> Seq<char> {
    joined(country_names(split(markup, "text-slug\">"@)), ", "@)
}

/// Reads the countries of a film out of the markup that lists them.
pub fn countries(markup: &Vec<char>) -> (out: Vec<char>)
    ensures
        out@ == countries_text(markup@),
{
    let parts = split_on(markup, &chars_of("text-slug\">"));
    let close = chars_of("</a>");
    let mut names: Vec<Vec<char>> = Vec::new();
    let mut i: usize = 0;
    assert(views(parts@).take(0) =~= Seq::<Seq<char>>::empty());
    assert(views(names@) =~= Seq::<Seq<char>>::empty());
    while i < parts.len()
        invariant
            i <= parts.len(),
            close@ == "</a>"@,
            views(names@) == country_names(views(parts@).take(i as int)),
        decreases parts.len() - i,
    {
        let ghost old_names = views(names@);
        proof {
            let next = views(parts@).take(i + 1);
            assert(next.drop_last() =~= views(parts@).take(i as int));
            assert(next.last() == parts@[i as int]@);
        }
        match cut_at(&parts[i], &close) {
            Some((name, _)) => {
                names.push(name);
                assert(views(names@) =~= old_names.push(name@));
            },
            None => {},
        }
        i += 1;
    }
    assert(views(parts@).take(parts.len() as int) =~= views(parts@));
    join(&names, &chars_of(", "))
}

/// The running time that a text of digits states, in minutes; zero where
/// the text is none, or states a time too long for 32 bits.
pub open spec fn minutes_of(text: Option<Seq<char>>) -> nat {
    match text {
        Some(t) => if t.len() > 0 && all_digits(t) && number_of(t) <= u32::MAX {
            number_of(t)
        } else {
            0
        },
        None => 0,
    }
}

/// Reads the running time that a text of digits states.
pub fn read_minutes(text: &Option<String>) -> (m: u32)
    ensures
        m == minutes_of(text_of(*text)),
{
    match text {
        Some(t) => match parse_number(&chars_of(t.as_str())) {
            Some(v) => if v <= u32::MAX as u64 {
                v as u32
            } else {
                0
            },
            None => 0,
        },
        None => 0,
    }
}

/// The genres of a film as shown: without the quotes, and with a space
/// after each comma.
pub open spec fn genre_text(genres: Seq<char>) -> Seq<char> {
    replaced(replaced(genres, "\""@, ""@), ","@, ", "@)
}

/// Writes the genres of a film as they are shown.
pub fn genre(genres: &Vec<char>) -> (out: Vec<char>)
    ensures
        out@ == genre_text(genres@),
{
    let plain = replace(genres, &chars_of("\""), &chars_of(""));
    replace(&plain, &chars_of(","), &chars_of(", "))
}

/// The counts of a film: of each kind the display form of the last count
/// that was read for it. A pair of another kind, or whose text writes no
/// count, leaves the counts as they are.
pub open spec fn info_of(counts: Seq<(Seq<char>, Seq<char>)>) -> FilmInfoView
    decreases counts.len(),
{
    if counts.len() == 0 {
        FilmInfoView::none()
    } else {
        let rest = info_of(counts.drop_last());
        let (kind, number) = counts.last();
        if !is_count(number) {
            rest
        } else if kind == "people"@ {
            FilmInfoView { people: Some(count_text(count_of(number))), ..rest }
        } else if kind == "likes"@ {
            FilmInfoView { likes: Some(count_text(count_of(number))), ..rest }
        } else if kind == "reviews"@ {
            FilmInfoView { reviews: Some(count_text(count_of(number))), ..rest }
        } else {
            rest
        }
    }
}

/// Gathers the counts of a film.
pub fn gather_info(counts: &Vec<(String, String)>) -> (out: FilmInfo)
    ensures
        out@ == info_of(pairs(counts@)),
{
    let mut out = FilmInfo { people: None, likes: None, reviews: None };
    let mut i: usize = 0;
    assert(pairs(counts@).take(0) =~= Seq::<(Seq<char>, Seq<char>)>::empty());
    while i < counts.len()
        invariant
            i <= counts.len(),
            out@ == info_of(pairs(counts@).take(i as int)),
        decreases counts.len() - i,
    {
        proof {
            let next = pairs(counts@).take(i + 1);
            assert(next.drop_last() =~= pairs(counts@).take(i as int));
            assert(next.last() == (counts@[i as int].0@, counts@[i as int].1@));
        }
        let kind = chars_of(counts[i].0.as_str());
        match try_format_number(counts[i].1.as_str()) {
            Some(shown) => {
                if is_text(&kind, "people") {
                    out.people = Some(shown);
                } else if is_text(&kind, "likes") {
                    out.likes = Some(shown);
                } else if is_text(&kind, "reviews") {
                    out.reviews = Some(shown);
                }
            },
            None => {},
        }
        i += 1;
    }
    assert(pairs(counts@).take(counts.len() as int) =~= pairs(counts@));
    out
}

/// The record of a film found at `path`, made of what its pages hold. What
/// the pages lack is left empty, a rating or running time that is lacking
/// counts as zero.
pub open spec fn film_of(path: Seq<char>, raw: RawFilmView) -> Film {
    Film {
        found: true,
        title: or_empty(raw.title),
        tagline: or_empty(raw.tagline),
        synopsis: synopsis_text(or_empty(raw.description)),
        rating: rating_line(film_rating(raw.score)),
        genre: genre_text(or_empty(raw.genres)),
        duration: duration_text(minutes_of(raw.minutes)),
        directors: or_empty(raw.directors),
        countries: countries_text(or_empty(raw.countries)),
        poster: or_empty(raw.poster),
        info: info_of(raw.counts),
        url: BASE_URL@ + path,
    }
}

/// Makes the record of a film found at `path` of what its pages hold.
pub fn assemble_film(path: &str, raw: &RawFilm) -> (out: FilmResult)
    ensures
        out@ == film_of(path@, raw@),
        out@.wf(),
{
    let mut url = chars_of(BASE_URL);
    push_str(&mut url, path);
    FilmResult {
        found: true,
        title: string_of(&chars_or_empty(&raw.title)),
        tagline: string_of(&chars_or_empty(&raw.tagline)),
        synopsis: string_of(&synopsis(&chars_or_empty(&raw.description))),
        rating: rating_text(rating_of(&raw.score)),
        genre: string_of(&genre(&chars_or_empty(&raw.genres))),
        duration: convert_duration(read_minutes(&raw.minutes)),
        directors: string_of(&chars_or_empty(&raw.directors)),
        countries: string_of(&countries(&chars_or_empty(&raw.countries))),
        poster: string_of(&chars_or_empty(&raw.poster)),
        info: gather_info(&raw.counts),
        url: string_of(&url),
    }
}

/// The record of a film that was not found.
pub fn film_not_found() -> (out: FilmResult)
    ensures
        out@ == Film::not_found(),
        out@.wf(),
{
    FilmResult::default()
}

/// The pairs of kind and count in the matches of `INFO_PATTERN`: of each
/// match in which both groups took part, the second group and the first.
pub open spec fn pairs_in(all: Seq<Seq<Option<Seq<char>>>>) -> Seq<(Seq<char>, Seq<char>)>
    decreases all.len(),
{
    if all.len() == 0 {
        Seq::empty()
    } else {
        let rest = pairs_in(all.drop_last());
        let m = all.last();
        if m.len() > 2 && m[1] is Some && m[2] is Some {
            rest.push((m[2]->0, m[1]->0))
        } else {
            rest
        }
    }
}

/// The pairs of kind and count that a page of reviews states.
pub open spec fn count_pairs(captures: Option<Seq<Seq<Option<Seq<char>>>>>) -> Seq<
    (Seq<char>, Seq<char>),
> {
    match captures {
        Some(all) => pairs_in(all),
        None => Seq::empty(),
    }
}

/// Picks the pairs of kind and count out of the matches of `INFO_PATTERN`.
pub fn pick_counts(captures: &Option<Vec<Vec<Option<String>>>>) -> (out: Vec<(String, String)>)
    ensures
        pairs(out@) == count_pairs(captures.deep_view()),
{
    let mut out: Vec<(String, String)> = Vec::new();
    assert(pairs(out@) =~= Seq::<(Seq<char>, Seq<char>)>::empty());
    match captures {
        Some(all) => {
            let mut i: usize = 0;
            assert(all.deep_view().take(0) =~= Seq::<Seq<Option<Seq<char>>>>::empty());
            while i < all.len()
                invariant
                    i <= all.len(),
                    pairs(out@) == pairs_in(all.deep_view().take(i as int)),
                decreases all.len() - i,
            {
                let ghost before = pairs(out@);
                proof {
                    let next = all.deep_view().take(i + 1);
                    assert(next.drop_last() =~= all.deep_view().take(i as int));
                    assert(next.last() == all@[i as int].deep_view());
                }
                let m = &all[i];
                if m.len() > 2 {
                    assert(m.deep_view()[1] == text_of(m@[1]));
                    assert(m.deep_view()[2] == text_of(m@[2]));
                    match (&m[1], &m[2]) {
                        (Some(number), Some(kind)) => {
                            out.push((kind.clone(), number.clone()));
                            assert(pairs(out@) =~= before.push((kind@, number@)));
                        },
                        _ => {},
                    }
                }
                i += 1;
            }
            assert(all.deep_view().take(all.len() as int) =~= all.deep_view());
        },
        None => {},
    }
    out
}

/// What the page of a film and the page of its reviews hold.
pub open spec fn scraped_film(film_page: Seq<char>, reviews_page: Seq<char>) -> RawFilmView {
    RawFilmView {
        title: first_attribute(film_page, OG_TITLE@, "content"@),
        description: first_attribute(film_page, DESCRIPTION@, "content"@),
        tagline: first_inner(film_page, TAGLINE@),
        poster: first_capture(POSTER_PATTERN@, film_page, 1),
        score: first_attribute(film_page, SCORE@, "content"@),
        directors: first_attribute(film_page, DIRECTORS@, "content"@),
        countries: first_capture(COUNTRIES_PATTERN@, film_page, 0),
        minutes: first_capture(DURATION_PATTERN@, or_empty(first_inner(film_page, FOOTER@)), 1),
        genres: first_capture(GENRE_PATTERN@, film_page, 1),
        counts: count_pairs(pattern_captures(INFO_PATTERN@, reviews_page)),
    }
}

/// Reads what the page of a film and the page of its reviews hold.
pub fn scrape_film(film_page: &str, reviews_page: &str) -> (out: RawFilm)
    ensures
        out@ == scraped_film(film_page@, reviews_page@),
{
    let footer = string_of(&chars_or_empty(&inner_of_first(film_page, FOOTER)));
    RawFilm {
        title: attr_of_first(film_page, OG_TITLE, "content"),
        description: attr_of_first(film_page, DESCRIPTION, "content"),
        tagline: inner_of_first(film_page, TAGLINE),
        poster: capture_of_first(POSTER_PATTERN, film_page, 1),
        score: attr_of_first(film_page, SCORE, "content"),
        directors: attr_of_first(film_page, DIRECTORS, "content"),
        countries: capture_of_first(COUNTRIES_PATTERN, film_page, 0),
        minutes: capture_of_first(DURATION_PATTERN, footer.as_str(), 1),
        genres: capture_of_first(GENRE_PATTERN, film_page, 1),
        counts: pick_counts(&captures_all(INFO_PATTERN, reviews_page)),
    }
}

/// Gives the record of the film found at `path`, from the text of its page
/// and of the page of its reviews.
pub fn get_film(path: &str, film_page: &str, reviews_page: &str) -> (out: FilmResult)
    ensures
        out@ == film_of(path@, scraped_film(film_page@, reviews_page@)),
        out@.wf(),
{
    let raw = scrape_film(film_page, reviews_page);
    assemble_film(path, &raw)
}

/// The address of the page of the film at `path`.
pub fn film_url(path: &str) -> (out: String)
    ensures
        out@ == BASE_URL@ + path@,
{
    let mut out = chars_of(BASE_URL);
    push_str(&mut out, path);
    string_of(&out)
}

/// The address of the page of reviews of the film at `path`.
pub fn reviews_url(path: &str) -> (out: String)
    ensures
        out@ == BASE_URL@ + path@ + "/reviews"@,
{
    let mut out = chars_of(BASE_URL);
    push_str(&mut out, path);
    push_str(&mut out, "/reviews");
    string_of(&out)
}

} // verus!
