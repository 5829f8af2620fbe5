//! Diaries: the newest entries that the page of a diary gives.

use vstd::prelude::*;
use crate::extract::{attr_of_first, first_attribute, or_empty};
use crate::markup::{inner_markup, select_inner};
use crate::numbers::{all_digits, decimal, number_of, parse_number, push_decimal};
use crate::rating::{starrize, stars};
use crate::records::{
    entries_of, text_of, DiaryEntry, DiaryOutcome, DiaryPage, DiaryPageView, DiaryResult,
    FetchError, DIARY_LIMIT,
};
use crate::site::{BASE_URL, NOT_FOUND_MARKER, OG_TITLE};
use crate::text::{
    before, chars_of, chars_or_empty, contains, has, head_before, is_text, join, joined,
    push_all, push_str, replace, replaced, split, split_on, string_of, trim, trimmed, views,
};

verus! {

/// What a page says where a profile has no diary entries.
pub const EMPTY_MARKER: &'static str = "No diary entries";

/// The body of the table of entries.
pub const TABLE: &'static str = "tbody";

/// A row of the table of entries.
pub const ROWS: &'static str = "tbody tr";

/// The element of a row that carries what was logged.
pub const ENTRY: &'static str = r#"a[class="edit-review-button has-icon icon-16 icon-edit"]"#;

/// The element of a row that is there where the film was liked.
pub const LIKED: &'static str =
    r#"span[class="has-icon icon-16 large-liked icon-liked hide-for-owner"]"#;

/// The picture of the profile, in its small size.
pub const DIARY_AVATAR: &'static str = r#"img[width="24"]"#;

/// What a row of a diary holds, as it was read off it.
#[derive(Debug)]
pub struct RawDiaryRow {
    pub film_name: Option<String>,
    pub film_year: Option<String>,
    /// The path of the poster, from which the path of the film is made.
    pub poster: Option<String>,
    /// The day of the viewing, as in `05 Mar 2023`.
    pub viewed: Option<String>,
    /// The rating in half stars, in digits.
    pub rating: Option<String>,
    pub review: Option<String>,
    /// `true` or `false`.
    pub rewatch: Option<String>,
    pub liked: bool,
}

/// What a `RawDiaryRow` holds.
pub struct RawRowView {
    pub film_name: Option<Seq<char>>,
    pub film_year: Option<Seq<char>>,
    pub poster: Option<Seq<char>>,
    pub viewed: Option<Seq<char>>,
    pub rating: Option<Seq<char>>,
    pub review: Option<Seq<char>>,
    pub rewatch: Option<Seq<char>>,
    pub liked: bool,
}

impl View for RawDiaryRow {
    type V = RawRowView;

    open spec fn view(&self) -> RawRowView {
        RawRowView {
            film_name: text_of(self.film_name),
            film_year: text_of(self.film_year),
            poster: text_of(self.poster),
            viewed: text_of(self.viewed),
            rating: text_of(self.rating),
            review: text_of(self.review),
            rewatch: text_of(self.rewatch),
            liked: self.liked,
        }
    }
}

/// What the page of a diary holds, as it was read off it.
#[derive(Debug)]
pub struct RawDiary {
    /// Whether the page says that there is no such profile.
    pub not_found: bool,
    /// Whether the page says that the profile has no diary entries.
    pub empty: bool,
    /// Whether the page has a table of entries.
    pub has_table: bool,
    pub avatar: Option<String>,
    /// The title of the page: the name shown, and `’s` with more.
    pub title: Option<String>,
    /// The rows of the table, newest first.
    pub rows: Vec<RawDiaryRow>,
}

/// What a `RawDiary` holds.
pub struct RawDiaryView {
    pub not_found: bool,
    pub empty: bool,
    pub has_table: bool,
    pub avatar: Option<Seq<char>>,
    pub title: Option<Seq<char>>,
    pub rows: Seq<RawRowView>,
}

/// Rows seen as what they hold, in order.
pub open spec fn rows_of(v: Seq<RawDiaryRow>) -> Seq<RawRowView> {
    v.map_values(|r: RawDiaryRow| r@)
}

impl View for RawDiary {
    type V = RawDiaryView;

    open spec fn view(&self) -> RawDiaryView {
        RawDiaryView {
            not_found: self.not_found,
            empty: self.empty,
            has_table: self.has_table,
            avatar: text_of(self.avatar),
            title: text_of(self.title),
            rows: rows_of(self.rows@),
        }
    }
}

/// The day of a viewing as it is shown. A day of the year `year` loses the
/// year, and its other parts change places: `05 Mar 2023` becomes `Mar 05`.
/// A day of another year becomes month, day, comma, year: `Mar 05, 2022`. A
/// text of another year with fewer than three parts stays as it is.
pub open spec fn viewing_date(raw: Seq<char>, year: nat) -> Seq<char> {
    if contains(raw, decimal(year)) {
        joined(split(replaced(raw, " "@ + decimal(year), ""@), " "@).reverse(), " "@)
    } else {
        let p = split(raw, " "@);
        if p.len() >= 3 {
            p[1] + " "@ + p[0] + ", "@ + p[2]
        } else {
            raw
        }
    }
}

/// Copies the parts in the opposite order.
pub fn reversed(parts: &Vec<Vec<char>>) -> (out: Vec<Vec<char>>)
    ensures
        views(out@) == views(parts@).reverse(),
{
    let mut out: Vec<Vec<char>> = Vec::new();
    let n = parts.len();
    let mut i: usize = 0;
    while i < n
        invariant
            i <= n,
            n == parts.len(),
            out.len() == i,
            forall|j: int| 0 <= j < i ==> out@[j]@ == parts@[n - 1 - j]@,
        decreases n - i,
    {
        let p = &parts[n - 1 - i];
        let mut c: Vec<char> = Vec::new();
        push_all(&mut c, p);
        out.push(c);
        i += 1;
    }
    assert(views(out@) =~= views(parts@).reverse());
    out
}

/// Writes the day of a viewing as it is shown.
pub fn format_viewing_date(raw: &Vec<char>, year: u32) -> (out: Vec<char>)
    ensures
        out@ == viewing_date(raw@, year as nat),
{
    let mut y: Vec<char> = Vec::new();
    push_decimal(&mut y, year as u64);
    let space = chars_of(" ");
    if has(raw, &y) {
        let mut pat = chars_of(" ");
        push_all(&mut pat, &y);
        let plain = replace(raw, &pat, &chars_of(""));
        join(&reversed(&split_on(&plain, &space)), &space)
    } else {
        let p = split_on(raw, &space);
        if p.len() >= 3 {
            assert(views(p@).len() == p.len());
            assert(views(p@)[0] == p@[0]@);
            assert(views(p@)[1] == p@[1]@);
            assert(views(p@)[2] == p@[2]@);
            let mut out: Vec<char> = Vec::new();
            push_all(&mut out, &p[1]);
            push_str(&mut out, " ");
            push_all(&mut out, &p[0]);
            push_str(&mut out, ", ");
            push_all(&mut out, &p[2]);
            out
        } else {
            assert(views(p@).len() == p.len());
            let mut out: Vec<char> = Vec::new();
            push_all(&mut out, raw);
            out
        }
    }
}

/// The rating of an entry in hundredths of a star, from its rating in half
/// stars; zero where the text is no number, or too great a one.
pub open spec fn entry_rating(text: Option<Seq<char>>) -> nat {
    match text {
        Some(t) => if t.len() > 0 && all_digits(t) && number_of(t) * 50 <= u32::MAX {
            number_of(t) * 50
        } else {
            0
        },
        None => 0,
    }
}

/// Reads the rating of an entry.
pub fn read_entry_rating(text: &Option<String>) -> (r: u32)
    ensures
        r == entry_rating(text_of(*text)),
{
    match text {
        Some(t) => match parse_number(&chars_of(t.as_str())) {
            Some(v) => if v <= 85_899_345 {
                (v * 50) as u32
            } else {
                0
            },
            None => 0,
        },
        None => 0,
    }
}

/// The entry that a row gives: none where the row names no film.
pub open spec fn entry_of(row: RawRowView, year: nat) -> Option<DiaryEntry> {
    match row.film_name {
        Some(name) => Some(
            DiaryEntry {
                found: true,
                title: name + " ("@ + or_empty(row.film_year) + ")"@,
                rating: stars(entry_rating(row.rating)),
                rewatched: trimmed(or_empty(row.rewatch)) == "true"@,
                liked: row.liked,
                reviewed: or_empty(row.review).len() > 0,
                date: viewing_date(or_empty(row.viewed), year),
                url: BASE_URL@ + replaced(or_empty(row.poster), "/image-150/"@, ""@),
            },
        ),
        None => None,
    }
}

/// The view of an entry that may be absent.
pub open spec fn entry_view(o: Option<DiaryResult>) -> Option<DiaryEntry> {
    match o {
        Some(e) => Some(e@),
        None => None,
    }
}

/// Makes the entry that a row gives.
pub fn assemble_entry(row: &RawDiaryRow, year: u32) -> (out: Option<DiaryResult>)
    ensures
        entry_view(out) == entry_of(row@, year as nat),
{
    match &row.film_name {
        Some(name) => {
            let mut title = chars_of(name.as_str());
            push_str(&mut title, " (");
            push_all(&mut title, &chars_or_empty(&row.film_year));
            push_str(&mut title, ")");
            let mut url = chars_of(BASE_URL);
            let path = replace(
                &chars_or_empty(&row.poster),
                &chars_of("/image-150/"),
                &chars_of(""),
            );
            push_all(&mut url, &path);
            let rewatch = trim(&chars_or_empty(&row.rewatch));
            let review = chars_or_empty(&row.review);
            Some(
                DiaryResult {
                    found: true,
                    title: string_of(&title),
                    rating: starrize(read_entry_rating(&row.rating)),
                    rewatched: is_text(&rewatch, "true"),
                    liked: row.liked,
                    reviewed: review.len() > 0,
                    date: string_of(&format_viewing_date(&chars_or_empty(&row.viewed), year)),
                    url: string_of(&url),
                },
            )
        },
        None => None,
    }
}

/// The entries that rows give, in the order of the rows.
pub open spec fn listed(rows: Seq<RawRowView>, year: nat) -> Seq<DiaryEntry>
    decreases rows.len(),
{
    if rows.len() == 0 {
        Seq::empty()
    } else {
        let rest = listed(rows.drop_last(), year);
        match entry_of(rows.last(), year) {
            Some(e) => rest.push(e),
            None => rest,
        }
    }
}

/// The first five of the entries, or all of them where there are fewer.
pub open spec fn newest(entries: Seq<DiaryEntry>) -> Seq<DiaryEntry> {
    if entries.len() > DIARY_LIMIT {
        entries.take(DIARY_LIMIT as int)
    } else {
        entries
    }
}

/// The avatar of a diary: its address in the larger size, or nothing where
/// the address is that of a stock picture, which holds `static`.
pub open spec fn diary_avatar(avatar: Option<Seq<char>>) -> Seq<char> {
    let a = or_empty(avatar);
    if contains(a, "static"@) {
        Seq::empty()
    } else {
        replaced(a, "0-48-0-48"@, "0-220-0-220"@)
    }
}

/// The page of a diary, made of what was read off it, for the viewing year
/// `year`: the sentinel of a missing profile where the page says that there
/// is none; the sentinel of an empty diary where the page says so, or has a
/// table that gives no entry; an error where the page has no table; and
/// else the five newest entries.
pub open spec fn diary_of(year: nat, raw: RawDiaryView) -> Result<DiaryPageView, FetchError> {
    if raw.not_found {
        Ok(DiaryPageView::sentinel(false))
    } else if raw.empty {
        Ok(DiaryPageView::sentinel(true))
    } else if !raw.has_table {
        Err(FetchError::ParseAssumptionViolation)
    } else if listed(raw.rows, year).len() == 0 {
        Ok(DiaryPageView::sentinel(true))
    } else {
        Ok(
            DiaryPageView {
                avatar: diary_avatar(raw.avatar),
                name: head_before(or_empty(raw.title), "’s"@),
                entries: newest(listed(raw.rows, year)),
            },
        )
    }
}

/// Every entry that rows give is found and has a title.
pub proof fn lemma_listed_titled(rows: Seq<RawRowView>, year: nat)
    ensures
        forall|i: int|
            0 <= i < listed(rows, year).len() ==> (#[trigger] listed(rows, year)[i]).found
                && listed(rows, year)[i].title.len() > 0,
    decreases rows.len(),
{
    if rows.len() > 0 {
        lemma_listed_titled(rows.drop_last(), year);
        reveal_strlit(" (");
        let rest = listed(rows.drop_last(), year);
        let all = listed(rows, year);
        assert forall|i: int| 0 <= i < all.len() implies (#[trigger] all[i]).found
            && all[i].title.len() > 0 by {
            if i < rest.len() {
                assert(all[i] == rest[i]);
            } else {
                let e = entry_of(rows.last(), year)->0;
                assert(all[i] == e);
                assert(" ("@.len() == 2);
            }
        }
    }
}

/// What a diary page says can be told from the page alone, and tells the
/// three answers apart: a page made of what was read says that the
/// profile is missing exactly where the text read said so; that the diary is
/// empty exactly where, the profile being there, the text said so or its
/// table gave no entry; and lists entries, at least one and at most five, in
/// every other case in which it is made at all.
pub proof fn lemma_diary_outcome(year: nat, raw: RawDiaryView)
    ensures
        diary_of(year, raw) is Err <==> !raw.not_found && !raw.empty && !raw.has_table,
        diary_of(year, raw) matches Ok(page) ==> {
            &&& page.wf()
            &&& page.outcome() == DiaryOutcome::NotFound <==> raw.not_found
            &&& page.outcome() == DiaryOutcome::Empty <==> !raw.not_found && (raw.empty || listed(
                raw.rows,
                year,
            ).len() == 0)
            &&& page.outcome() == DiaryOutcome::Listed ==> 1 <= page.entries.len() <= DIARY_LIMIT
        },
{
    lemma_listed_titled(raw.rows, year);
    let all = listed(raw.rows, year);
    if !raw.not_found && !raw.empty && raw.has_table && all.len() > 0 {
        let page = diary_of(year, raw)->Ok_0;
        assert forall|i: int| 0 <= i < page.entries.len() implies (#[trigger] page.entries[i]).found
            && page.entries[i].title.len() > 0 by {
            assert(page.entries[i] == all[i]);
        }
    }
}

/// The view of a diary page that was or was not made.
pub open spec fn diary_view(r: Result<DiaryPage, FetchError>) -> Result<DiaryPageView, FetchError> {
    match r {
        Ok(p) => Ok(p@),
        Err(e) => Err(e),
    }
}

/// Makes the entries that rows give.
pub fn list_entries(rows: &Vec<RawDiaryRow>, year: u32) -> (out: Vec<DiaryResult>)
    ensures
        entries_of(out@) == listed(rows_of(rows@), year as nat),
{
    let mut out: Vec<DiaryResult> = Vec::new();
    let mut i: usize = 0;
    assert(rows_of(rows@).take(0) =~= Seq::<RawRowView>::empty());
    assert(entries_of(out@) =~= Seq::<DiaryEntry>::empty());
    while i < rows.len()
        invariant
            i <= rows.len(),
            entries_of(out@) == listed(rows_of(rows@).take(i as int), year as nat),
        decreases rows.len() - i,
    {
        let ghost old_out = entries_of(out@);
        proof {
            let next = rows_of(rows@).take(i + 1);
            assert(next.drop_last() =~= rows_of(rows@).take(i as int));
            assert(next.last() == rows@[i as int]@);
        }
        match assemble_entry(&rows[i], year) {
            Some(e) => {
                let ghost ev = e@;
                out.push(e);
                assert(entries_of(out@) =~= old_out.push(ev));
            },
            None => {},
        }
        i += 1;
    }
    assert(rows_of(rows@).take(rows.len() as int) =~= rows_of(rows@));
    out
}

/// Makes the page of a diary of what was read off it, for the viewing year
/// `year`.
pub fn assemble_diary(raw: &RawDiary, year: u32) -> (out: Result<DiaryPage, FetchError>)
    ensures
        diary_view(out) == diary_of(year as nat, raw@),
        out is Ok ==> out->Ok_0@.wf(),
{
    proof {
        lemma_diary_outcome(year as nat, raw@);
    }
    if raw.not_found {
        return Ok(DiaryPage::sentinel(false));
    }
    if raw.empty {
        return Ok(DiaryPage::sentinel(true));
    }
    if !raw.has_table {
        return Err(FetchError::ParseAssumptionViolation);
    }
    let mut entries = list_entries(&raw.rows, year);
    if entries.len() == 0 {
        assert(entries_of(entries@).len() == 0);
        return Ok(DiaryPage::sentinel(true));
    }
    let ghost all = entries_of(entries@);
    assert(all.len() == entries.len());
    if entries.len() > DIARY_LIMIT {
        entries.truncate(DIARY_LIMIT);
        assert(entries_of(entries@) =~= all.take(DIARY_LIMIT as int));
    }
    let a = chars_or_empty(&raw.avatar);
    let avatar = if has(&a, &chars_of("static")) {
        Vec::new()
    } else {
        replace(&a, &chars_of("0-48-0-48"), &chars_of("0-220-0-220"))
    };
    let name = before(&chars_or_empty(&raw.title), &chars_of("’s"));
    Ok(DiaryPage { avatar: string_of(&avatar), name: string_of(&name), entries })
}

/// What a row of a diary holds, from its markup.
pub open spec fn scraped_row(row: Seq<char>) -> RawRowView {
    RawRowView {
        film_name: first_attribute(row, ENTRY@, "data-film-name"@),
        film_year: first_attribute(row, ENTRY@, "data-film-year"@),
        poster: first_attribute(row, ENTRY@, "data-film-poster"@),
        viewed: first_attribute(row, ENTRY@, "data-viewing-date-str"@),
        rating: first_attribute(row, ENTRY@, "data-rating"@),
        review: first_attribute(row, ENTRY@, "data-review-text"@),
        rewatch: first_attribute(row, ENTRY@, "data-rewatch"@),
        liked: inner_markup(row, LIKED@).len() > 0,
    }
}

/// Reads what a row of a diary holds.
pub fn scrape_row(row: &str) -> (out: RawDiaryRow)
    ensures
        out@ == scraped_row(row@),
{
    RawDiaryRow {
        film_name: attr_of_first(row, ENTRY, "data-film-name"),
        film_year: attr_of_first(row, ENTRY, "data-film-year"),
        poster: attr_of_first(row, ENTRY, "data-film-poster"),
        viewed: attr_of_first(row, ENTRY, "data-viewing-date-str"),
        rating: attr_of_first(row, ENTRY, "data-rating"),
        review: attr_of_first(row, ENTRY, "data-review-text"),
        rewatch: attr_of_first(row, ENTRY, "data-rewatch"),
        liked: select_inner(row, LIKED).len() > 0,
    }
}

/// What the page of a diary holds.
pub open spec fn scraped_diary(page: Seq<char>) -> RawDiaryView {
    RawDiaryView {
        not_found: contains(page, NOT_FOUND_MARKER@),
        empty: contains(page, EMPTY_MARKER@),
        has_table: inner_markup(page, TABLE@).len() > 0,
        avatar: first_attribute(page, DIARY_AVATAR@, "src"@),
        title: first_attribute(page, OG_TITLE@, "content"@),
        rows: inner_markup(page, ROWS@).map_values(|row: Seq<char>| scraped_row(row)),
    }
}

/// Reads what the page of a diary holds.
pub fn scrape_diary(page: &str) -> (out: RawDiary)
    ensures
        out@ == scraped_diary(page@),
{
    let text = chars_of(page);
    let markup = select_inner(page, ROWS);
    let mut rows: Vec<RawDiaryRow> = Vec::new();
    let mut i: usize = 0;
    while i < markup.len()
        invariant
            i <= markup.len(),
            rows.len() == i,
            forall|j: int| 0 <= j < i ==> rows@[j]@ == scraped_row(markup@[j]@),
        decreases markup.len() - i,
    {
        rows.push(scrape_row(markup[i].as_str()));
        i += 1;
    }
    assert(rows_of(rows@) =~= markup.deep_view().map_values(|row: Seq<char>| scraped_row(row)));
    RawDiary {
        not_found: has(&text, &chars_of(NOT_FOUND_MARKER)),
        empty: has(&text, &chars_of(EMPTY_MARKER)),
        has_table: select_inner(page, TABLE).len() > 0,
        avatar: attr_of_first(page, DIARY_AVATAR, "src"),
        title: attr_of_first(page, OG_TITLE, "content"),
        rows,
    }
}

/// Gives the page of a diary from the text of the page, for the viewing
/// year `year`.
pub fn get_diary(page: &str, year: u32) -> (out: Result<DiaryPage, FetchError>)
    ensures
        diary_view(out) == diary_of(year as nat, scraped_diary(page@)),
        out is Ok ==> out->Ok_0@.wf(),
{
    let raw = scrape_diary(page);
    assemble_diary(&raw, year)
}

/// The address of the diary of the profile asked for as `username`.
pub fn diary_url(username: &str) -> (out: String)
    ensures
        out@ == BASE_URL@ + "/"@ + username@ + "/films/diary"@,
{
    let mut out = chars_of(BASE_URL);
    push_str(&mut out, "/");
    push_str(&mut out, username);
    push_str(&mut out, "/films/diary");
    string_of(&out)
}

} // verus!
