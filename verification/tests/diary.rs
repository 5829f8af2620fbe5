use lbxd::diary::{
    assemble_diary, assemble_entry, diary_url, format_viewing_date, get_diary, RawDiary,
    RawDiaryRow,
};
use lbxd::records::{DiaryOutcome, DiaryPage, FetchError};

const WHOLE: &str = "<:lbstar:1061604009783341117>";
const HALF: &str = "<:lbhstar:1061603475949096991>";

fn row_markup(name: &str, year: &str, date: &str, rating: &str, liked: bool) -> String {
    let like = if liked {
        r#"<span class="has-icon icon-16 large-liked icon-liked hide-for-owner"></span>"#
    } else {
        ""
    };
    format!(
        r#"<tr><td><a class="edit-review-button has-icon icon-16 icon-edit" data-film-name="{}" data-film-year="{}" data-film-poster="/film/{}/image-150/" data-viewing-date-str="{}" data-rating="{}" data-review-text="" data-rewatch="false"></a>{}</td></tr>"#,
        name,
        year,
        name.to_lowercase(),
        date,
        rating,
        like
    )
}

fn page_with(rows: &[String]) -> String {
    format!(
        r#"<html><head><meta property="og:title" content="Jane Doe’s film diary"></head><body>
<img width="24" src="https://a.ltrbxd.com/avatar-0-48-0-48-crop.jpg">
<table><tbody>{}</tbody></table></body></html>"#,
        rows.join("\n")
    )
}

fn row(name: Option<&str>) -> RawDiaryRow {
    RawDiaryRow {
        film_name: name.map(|n| n.to_string()),
        film_year: None,
        poster: None,
        viewed: None,
        rating: None,
        review: None,
        rewatch: None,
        liked: false,
    }
}

fn raw(rows: Vec<RawDiaryRow>) -> RawDiary {
    RawDiary { not_found: false, empty: false, has_table: true, avatar: None, title: None, rows }
}

fn chars(s: &str) -> Vec<char> {
    s.chars().collect()
}

fn date(raw: &str, year: u32) -> String {
    format_viewing_date(&chars(raw), year).into_iter().collect()
}

#[test]
fn a_diary_is_read_off_its_page() {
    let first = r#"<tr><td><a class="edit-review-button has-icon icon-16 icon-edit" data-film-name="Heat" data-film-year="1995" data-film-poster="/film/heat-1995/image-150/" data-viewing-date-str="05 Mar 2023" data-rating="9" data-review-text="Great" data-rewatch=" true "></a><span class="has-icon icon-16 large-liked icon-liked hide-for-owner"></span></td></tr>"#;
    let page = page_with(&[first.to_string(), row_markup("Alien", "1979", "31 Dec 2022", "0", false)]);
    let diary = get_diary(&page, 2023).unwrap();
    assert_eq!(diary.outcome(), DiaryOutcome::Listed);
    assert_eq!(diary.avatar, "https://a.ltrbxd.com/avatar-0-220-0-220-crop.jpg");
    assert_eq!(diary.name, "Jane Doe");
    assert_eq!(diary.entries.len(), 2);
    let e = &diary.entries[0];
    assert!(e.found);
    assert_eq!(e.title, "Heat (1995)");
    assert_eq!(e.rating, format!("{}{}", WHOLE.repeat(4), HALF));
    assert!(e.rewatched);
    assert!(e.liked);
    assert!(e.reviewed);
    assert_eq!(e.date, "Mar 05");
    assert_eq!(e.url, "https://letterboxd.com/film/heat-1995");
    let e = &diary.entries[1];
    assert!(e.found);
    assert_eq!(e.title, "Alien (1979)");
    assert_eq!(e.rating, "");
    assert!(!e.rewatched);
    assert!(!e.liked);
    assert!(!e.reviewed);
    assert_eq!(e.date, "Dec 31, 2022");
    assert_eq!(e.url, "https://letterboxd.com/film/alien");
}

#[test]
fn a_diary_keeps_its_five_newest_entries() {
    let rows: Vec<String> = ["A", "B", "C", "D", "E", "F", "G"]
        .iter()
        .map(|n| row_markup(n, "2000", "01 Jan 2023", "6", false))
        .collect();
    let diary = get_diary(&page_with(&rows), 2023).unwrap();
    let titles: Vec<&str> = diary.entries.iter().map(|e| e.title.as_str()).collect();
    assert_eq!(titles, vec!["A (2000)", "B (2000)", "C (2000)", "D (2000)", "E (2000)"]);
}

#[test]
fn a_missing_profile_gives_the_sentinel_that_is_not_found() {
    let page = "<html><body>Sorry, we can’t find the page you’ve requested.</body></html>";
    let diary = get_diary(page, 2023).unwrap();
    assert_eq!(diary.outcome(), DiaryOutcome::NotFound);
    assert_eq!(diary.entries.len(), 1);
    assert!(!diary.entries[0].found);
    assert_eq!(diary.entries[0].title, "");
    assert_eq!(diary.avatar, "");
    assert_eq!(diary.name, "");
}

#[test]
fn an_empty_diary_gives_the_sentinel_that_is_found() {
    let page = "<html><body><p>No diary entries yet</p></body></html>";
    let diary = get_diary(page, 2023).unwrap();
    assert_eq!(diary.outcome(), DiaryOutcome::Empty);
    assert_eq!(diary.entries.len(), 1);
    assert!(diary.entries[0].found);
    assert_eq!(diary.entries[0].title, "");
}

#[test]
fn a_table_without_rows_is_an_empty_diary() {
    let diary = get_diary(&page_with(&[]), 2023).unwrap();
    assert_eq!(diary.outcome(), DiaryOutcome::Empty);
    assert_eq!(diary.entries.len(), 1);
    assert!(diary.entries[0].found);
    assert_eq!(diary.entries[0].title, "");
    let diary = assemble_diary(&raw(vec![row(None), row(None)]), 2023).unwrap();
    assert_eq!(diary.outcome(), DiaryOutcome::Empty);
}

#[test]
fn a_page_without_a_table_is_an_error() {
    let got = get_diary("<html><body><p>hello</p></body></html>", 2023);
    assert_eq!(got.err(), Some(FetchError::ParseAssumptionViolation));
    let mut r = raw(vec![row(Some("A"))]);
    r.has_table = false;
    assert_eq!(assemble_diary(&r, 2023).err(), Some(FetchError::ParseAssumptionViolation));
}

#[test]
fn the_sentinels_differ() {
    let missing = DiaryPage::sentinel(false);
    let empty = DiaryPage::sentinel(true);
    assert_eq!(missing.outcome(), DiaryOutcome::NotFound);
    assert_eq!(empty.outcome(), DiaryOutcome::Empty);
    assert_ne!(missing.entries[0].found, empty.entries[0].found);
    let mut r = raw(vec![]);
    r.not_found = true;
    r.empty = true;
    assert_eq!(assemble_diary(&r, 2023).unwrap().outcome(), DiaryOutcome::NotFound);
    r.not_found = false;
    assert_eq!(assemble_diary(&r, 2023).unwrap().outcome(), DiaryOutcome::Empty);
}

#[test]
fn rows_that_name_no_film_are_passed_over() {
    let diary = assemble_diary(&raw(vec![row(None), row(Some("A")), row(None), row(Some("B"))]), 2023)
        .unwrap();
    let titles: Vec<&str> = diary.entries.iter().map(|e| e.title.as_str()).collect();
    assert_eq!(titles, vec!["A ()", "B ()"]);
}

#[test]
fn a_bare_row_is_filled_with_defaults() {
    let e = assemble_entry(&row(Some("A")), 2023).unwrap();
    assert!(e.found);
    assert_eq!(e.title, "A ()");
    assert_eq!(e.rating, "");
    assert!(!e.rewatched);
    assert!(!e.liked);
    assert!(!e.reviewed);
    assert_eq!(e.date, "");
    assert_eq!(e.url, "https://letterboxd.com");
    assert!(assemble_entry(&row(None), 2023).is_none());
}

#[test]
fn ratings_of_entries_are_half_stars() {
    let stars = |r: &str| {
        let mut x = row(Some("A"));
        x.rating = Some(r.to_string());
        assemble_entry(&x, 2023).unwrap().rating
    };
    assert_eq!(stars("0"), "");
    assert_eq!(stars("1"), HALF);
    assert_eq!(stars("2"), WHOLE);
    assert_eq!(stars("10"), WHOLE.repeat(5));
    assert_eq!(stars("x"), "");
    assert_eq!(stars("85899346"), "");
}

#[test]
fn viewing_dates() {
    assert_eq!(date("05 Mar 2023", 2023), "Mar 05");
    assert_eq!(date("05 Mar 2022", 2023), "Mar 05, 2022");
    assert_eq!(date("05 Mar 2023", 2024), "Mar 05, 2023");
    assert_eq!(date("05 Mar 2024", 2024), "Mar 05");
    assert_eq!(date("yesterday", 2023), "yesterday");
    assert_eq!(date("", 2023), "");
    assert_eq!(date("a b c d", 2023), "b a, c");
}

#[test]
fn diary_addresses() {
    assert_eq!(diary_url("jane"), "https://letterboxd.com/jane/films/diary");
}
