//! What is said in answer to a command: a card made of a record, or an
//! apology where there is nothing to show.

use vstd::prelude::*;
use crate::numbers::{count_of, is_count, parse_number, remove_char};
use crate::records::{
    entries_of, text_of, DiaryEntry, DiaryOutcome, DiaryPage, DiaryPageView, DiaryResult, Film,
    FilmResult, ImageSet, Images, Profile, ProfileResult,
};
use crate::site::BASE_URL;
use crate::text::{
    chars_of, contains, has, is_text, push_all, push_str, split, split_on,
    string_of, views,
};

verus! {

/// A card: what is shown of a record.
#[derive(Debug)]
pub struct Card {
    /// The line above the title; empty where there is none.
    pub author: String,
    pub title: String,
    pub description: String,
    pub url: String,
    /// The address of the small picture; empty where there is none.
    pub thumbnail: String,
    /// The line below everything; empty where there is none.
    pub footer: String,
}

/// What a `Card` holds.
pub struct CardView {
    pub author: Seq<char>,
    pub title: Seq<char>,
    pub description: Seq<char>,
    pub url: Seq<char>,
    pub thumbnail: Seq<char>,
    pub footer: Seq<char>,
}

impl View for Card {
    type V = CardView;

    open spec fn view(&self) -> CardView {
        CardView {
            author: self.author@,
            title: self.title@,
            description: self.description@,
            url: self.url@,
            thumbnail: self.thumbnail@,
            footer: self.footer@,
        }
    }
}

/// An answer: a card, or words of apology that are taken back after a
/// while.
#[derive(Debug)]
pub enum Reply {
    Card(Card),
    Apology(String),
}

/// What a `Reply` holds.
pub enum ReplyView {
    Card(CardView),
    Apology(Seq<char>),
}

impl View for Reply {
    type V = ReplyView;

    open spec fn view(&self) -> ReplyView {
        match self {
            Reply::Card(c) => ReplyView::Card(c@),
            Reply::Apology(a) => ReplyView::Apology(a@),
        }
    }
}

/// How long an apology stays before it is taken back, in seconds.
pub const APOLOGY_SECONDS: u64 = 5;

/// The apology for a film that was not found.
pub open spec fn film_apology(asked: Seq<char>) -> Seq<char> {
    "Couldn't find `"@ + asked + "` film."@
}

/// The apology for a user that was not found.
pub open spec fn user_apology(asked: Seq<char>) -> Seq<char> {
    "Couldn't find `"@ + asked
        + "` user.\nMake sure to provide your Letterboxd **username**, not the link."@
}

/// The apology for a diary without entries.
pub open spec fn diary_apology(asked: Seq<char>) -> Seq<char> {
    "`"@ + asked + "` doesn't have any recent diaries."@
}

/// A count as it is shown on a card: zero where it is not known.
pub open spec fn shown_count(count: Option<Seq<char>>) -> Seq<char> {
    match count {
        Some(c) => c,
        None => "0"@,
    }
}

/// `text` where `flag` holds, and nothing else.
pub open spec fn mark(flag: bool, text: Seq<char>) -> Seq<char> {
    if flag {
        text
    } else {
        Seq::empty()
    }
}

/// What a card says of a film: the tagline in bold, the synopsis, the
/// rating, the directors, the countries and genres, the duration, and the
/// counts. A rating of zero, a duration of zero and a tagline that is empty
/// are left out, each with its line.
pub open spec fn film_text(film: Film) -> Seq<char> {
    mark(film.tagline.len() > 0, "**"@ + film.tagline + "**\n"@) + film.synopsis + "\n\n"@ + mark(
        film.rating != " 0.0"@,
        film.rating + "\n"@,
    ) + "Director"@ + mark(split(film.directors, ", "@).len() > 1, "s"@) + ": "@ + film.directors
        + "\n"@ + film.countries + " "@ + mark(film.countries.len() > 0, "|"@) + " "@ + film.genre
        + "\n"@ + mark(film.duration != "0m"@, film.duration + "\n"@) + "\u{1f440} "@
        + shown_count(film.info.people) + " | \u{2764}\u{fe0f} "@ + shown_count(film.info.likes)
        + " | \u{1f4ac} "@ + shown_count(film.info.reviews)
}

/// The answer to a request for the film `asked`: a card for a film that was
/// found, an apology for one that was not.
pub open spec fn film_answer(asked: Seq<char>, film: Film) -> ReplyView {
    if film.found {
        ReplyView::Card(
            CardView {
                author: Seq::empty(),
                title: film.title,
                description: film_text(film),
                url: film.url,
                thumbnail: film.poster,
                footer: Seq::empty(),
            },
        )
    } else {
        ReplyView::Apology(film_apology(asked))
    }
}

/// Appends a count as it is shown on a card.
fn push_count(out: &mut Vec<char>, count: &Option<String>)
    ensures
        final(out)@ == old(out)@ + shown_count(text_of(*count)),
{
    match count {
        Some(c) => push_str(out, c.as_str()),
        None => push_str(out, "0"),
    }
}

/// Gives `text` where `flag` holds, and nothing else.
fn marked(flag: bool, text: Vec<char>) -> (out: Vec<char>)
    ensures
        out@ == mark(flag, text@),
{
    if flag {
        text
    } else {
        Vec::new()
    }
}

/// Appends `text` where `flag` holds.
fn push_if(out: &mut Vec<char>, flag: bool, text: &str)
    ensures
        final(out)@ == old(out)@ + mark(flag, text@),
{
    if flag {
        push_str(out, text);
    } else {
        assert(out@ + Seq::<char>::empty() =~= out@);
    }
}

/// Appends `text` where `flag` holds.
fn push_all_if(out: &mut Vec<char>, flag: bool, text: &Vec<char>)
    ensures
        final(out)@ == old(out)@ + mark(flag, text@),
{
    if flag {
        push_all(out, text);
    } else {
        assert(out@ + Seq::<char>::empty() =~= out@);
    }
}

/// `text` and after it `end`.
fn ended(text: &Vec<char>, end: &str) -> (out: Vec<char>)
    ensures
        out@ == text@ + end@,
{
    let mut out: Vec<char> = Vec::new();
    push_all(&mut out, text);
    push_str(&mut out, end);
    assert(out@ =~= text@ + end@);
    out
}

/// Writes what a card says of a film.
pub fn film_description(film: &FilmResult) -> (out: String)
    ensures
        out@ == film_text(film@),
{
    let tagline = chars_of(film.tagline.as_str());
    let rating = chars_of(film.rating.as_str());
    let directors = chars_of(film.directors.as_str());
    let countries = chars_of(film.countries.as_str());
    let duration = chars_of(film.duration.as_str());
    let mut bold = chars_of("**");
    push_all(&mut bold, &tagline);
    push_str(&mut bold, "**\n");
    let parts = split_on(&directors, &chars_of(", "));
    assert(views(parts@).len() == parts.len());
    let mut out = marked(tagline.len() > 0, bold);
    push_str(&mut out, film.synopsis.as_str());
    push_str(&mut out, "\n\n");
    push_all_if(&mut out, !is_text(&rating, " 0.0"), &ended(&rating, "\n"));
    push_str(&mut out, "Director");
    push_if(&mut out, parts.len() > 1, "s");
    push_str(&mut out, ": ");
    push_all(&mut out, &directors);
    push_str(&mut out, "\n");
    push_all(&mut out, &countries);
    push_str(&mut out, " ");
    push_if(&mut out, countries.len() > 0, "|");
    push_str(&mut out, " ");
    push_str(&mut out, film.genre.as_str());
    push_str(&mut out, "\n");
    push_all_if(&mut out, !is_text(&duration, "0m"), &ended(&duration, "\n"));
    push_str(&mut out, "\u{1f440} ");
    push_count(&mut out, &film.info.people);
    push_str(&mut out, " | \u{2764}\u{fe0f} ");
    push_count(&mut out, &film.info.likes);
    push_str(&mut out, " | \u{1f4ac} ");
    push_count(&mut out, &film.info.reviews);
    string_of(&out)
}

/// Writes an apology: `head`, what was asked for, `tail`.
fn apology(head: &str, asked: &str, tail: &str) -> (out: String)
    ensures
        out@ == head@ + asked@ + tail@,
{
    let mut out = chars_of(head);
    push_str(&mut out, asked);
    push_str(&mut out, tail);
    string_of(&out)
}

/// Answers a request for the film `asked` with what was found.
pub fn film_reply(asked: &str, film: &FilmResult) -> (out: Reply)
    ensures
        out@ == film_answer(asked@, film@),
        !film.found ==> out is Apology,
{
    if film.found {
        Reply::Card(
            Card {
                author: String::new(),
                title: film.title.clone(),
                description: film_description(film),
                url: film.url.clone(),
                thumbnail: film.poster.clone(),
                footer: String::new(),
            },
        )
    } else {
        Reply::Apology(apology("Couldn't find `", asked, "` film."))
    }
}

/// The lines that show an entry of a diary: its title as a link, and below
/// it the day, the rating, and the marks for a rewatch, a like and a review.
pub open spec fn entry_text(e: DiaryEntry) -> Seq<char> {
    "[**"@ + e.title + "**]("@ + e.url + ")\n"@ + e.date + " "@ + mark(
        e.rating.len() > 0,
        e.rating + " "@,
    ) + mark(e.rewatched, "\u{1f504} "@) + mark(e.liked, "\u{2764}\u{fe0f} "@) + mark(
        e.reviewed,
        "\u{1f4ac}"@,
    ) + "\n"@
}

/// The lines of the entries, one entry after another.
pub open spec fn entries_text(entries: Seq<DiaryEntry>) -> Seq<char>
    decreases entries.len(),
{
    if entries.len() == 0 {
        Seq::empty()
    } else {
        entries_text(entries.drop_last()) + entry_text(entries.last())
    }
}

/// The answer to a request for the diary of `asked`: an apology for a user
/// that was not found, another for a diary without entries, and else a card
/// with the entries.
pub open spec fn diary_answer(asked: Seq<char>, page: DiaryPageView) -> ReplyView {
    match page.outcome() {
        DiaryOutcome::NotFound => ReplyView::Apology(user_apology(asked)),
        DiaryOutcome::Empty => ReplyView::Apology(diary_apology(asked)),
        DiaryOutcome::Listed => ReplyView::Card(
            CardView {
                author: Seq::empty(),
                title: page.name + "'s Recent Diary Entries"@,
                description: entries_text(page.entries),
                url: BASE_URL@ + "/"@ + asked + "/films/diary"@,
                thumbnail: page.avatar,
                footer: Seq::empty(),
            },
        ),
    }
}

/// Writes the lines that show an entry of a diary.
fn entry_lines(e: &DiaryResult) -> (out: Vec<char>)
    ensures
        out@ == entry_text(e@),
{
    let rating = chars_of(e.rating.as_str());
    let mut out = chars_of("[**");
    push_str(&mut out, e.title.as_str());
    push_str(&mut out, "**](");
    push_str(&mut out, e.url.as_str());
    push_str(&mut out, ")\n");
    push_str(&mut out, e.date.as_str());
    push_str(&mut out, " ");
    push_all_if(&mut out, rating.len() > 0, &ended(&rating, " "));
    push_if(&mut out, e.rewatched, "\u{1f504} ");
    push_if(&mut out, e.liked, "\u{2764}\u{fe0f} ");
    push_if(&mut out, e.reviewed, "\u{1f4ac}");
    push_str(&mut out, "\n");
    out
}

/// Writes the lines of the entries of a diary.
pub fn diary_description(entries: &Vec<DiaryResult>) -> (out: String)
    ensures
        out@ == entries_text(entries_of(entries@)),
{
    let mut out: Vec<char> = Vec::new();
    let mut i: usize = 0;
    assert(entries_of(entries@).take(0) =~= Seq::<DiaryEntry>::empty());
    while i < entries.len()
        invariant
            i <= entries.len(),
            out@ == entries_text(entries_of(entries@).take(i as int)),
        decreases entries.len() - i,
    {
        proof {
            let next = entries_of(entries@).take(i + 1);
            assert(next.drop_last() =~= entries_of(entries@).take(i as int));
            assert(next.last() == entries@[i as int]@);
        }
        push_all(&mut out, &entry_lines(&entries[i]));
        i += 1;
    }
    assert(entries_of(entries@).take(entries.len() as int) =~= entries_of(entries@));
    string_of(&out)
}

/// Answers a request for the diary of `asked` with what was found.
pub fn diary_reply(asked: &str, page: &DiaryPage) -> (out: Reply)
    ensures
        out@ == diary_answer(asked@, page@),
        page@.outcome() != DiaryOutcome::Listed ==> out is Apology,
{
    match page.outcome() {
        DiaryOutcome::NotFound => Reply::Apology(
            apology(
                "Couldn't find `",
                asked,
                "` user.\nMake sure to provide your Letterboxd **username**, not the link.",
            ),
        ),
        DiaryOutcome::Empty => Reply::Apology(
            apology("`", asked, "` doesn't have any recent diaries."),
        ),
        DiaryOutcome::Listed => {
            let mut title = chars_of(page.name.as_str());
            push_str(&mut title, "'s Recent Diary Entries");
            Reply::Card(
                Card {
                    author: String::new(),
                    title: string_of(&title),
                    description: diary_description(&page.entries),
                    url: crate::diary::diary_url(asked),
                    thumbnail: page.avatar.clone(),
                    footer: String::new(),
                },
            )
        },
    }
}

/// The rule below the location and the bio.
pub const RULE: &'static str =
    "\n\u{2014}\u{2014}\u{2014}\u{2014}\u{2014}\u{2014}\u{2014}\u{2014}\u{2014}\u{2014}\u{2014}\u{2014}\u{2014}\u{2014}\u{2014}\n";

/// What a card says of a profile: the location and the bio above a rule,
/// where there is either, and the favorites, where there are any.
pub open spec fn profile_text(p: Profile) -> Seq<char> {
    mark(p.location.len() > 0 || p.bio.len() > 0, p.location + "\n"@ + p.bio + RULE@) + mark(
        p.favorites.len() > 0,
        p.favorites + "\n"@,
    )
}

/// Whether a text writes a count greater than one.
pub open spec fn is_many(followers: Seq<char>) -> bool {
    is_count(followers) && count_of(followers) > 1
}

/// The line below the card of a profile: the followers, in the plural where
/// there are more than one, and the films logged.
pub open spec fn profile_footer(p: Profile) -> Seq<char> {
    p.followers + " follower"@ + mark(is_many(p.followers), "s"@) + ", "@ + p.films_count
}

/// The answer to a request for the profile of `asked`: a card for a profile
/// that was found, an apology for one that was not.
pub open spec fn profile_answer(asked: Seq<char>, p: Profile) -> ReplyView {
    if p.found {
        ReplyView::Card(
            CardView {
                author: p.username,
                title: p.name,
                description: profile_text(p),
                url: p.url,
                thumbnail: p.avatar,
                footer: profile_footer(p),
            },
        )
    } else {
        ReplyView::Apology(user_apology(asked))
    }
}

/// Answers a request for the profile of `asked` with what was found.
pub fn profile_reply(asked: &str, p: &ProfileResult) -> (out: Reply)
    ensures
        out@ == profile_answer(asked@, p@),
        !p.found ==> out is Apology,
{
    if !p.found {
        return Reply::Apology(
            apology(
                "Couldn't find `",
                asked,
                "` user.\nMake sure to provide your Letterboxd **username**, not the link.",
            ),
        );
    }
    let location = chars_of(p.location.as_str());
    let bio = chars_of(p.bio.as_str());
    let favorites = chars_of(p.favorites.as_str());
    let mut above: Vec<char> = Vec::new();
    push_all(&mut above, &location);
    push_str(&mut above, "\n");
    push_all(&mut above, &bio);
    push_str(&mut above, RULE);
    assert(above@ =~= p@.location + "\n"@ + p@.bio + RULE@);
    let mut description = marked(location.len() > 0 || bio.len() > 0, above);
    push_all_if(&mut description, favorites.len() > 0, &ended(&favorites, "\n"));
    let followers = chars_of(p.followers.as_str());
    let many = match parse_number(&remove_char(&followers, ',')) {
        Some(n) => n > 1,
        None => false,
    };
    let mut footer: Vec<char> = Vec::new();
    push_all(&mut footer, &followers);
    assert(footer@ =~= followers@);
    push_str(&mut footer, " follower");
    push_if(&mut footer, many, "s");
    push_str(&mut footer, ", ");
    push_str(&mut footer, p.films_count.as_str());
    Reply::Card(
        Card {
            author: p.username.clone(),
            title: p.name.clone(),
            description: string_of(&description),
            url: p.url.clone(),
            thumbnail: p.avatar.clone(),
            footer: string_of(&footer),
        },
    )
}

/// What a button under the card of a profile leads to.
#[derive(Clone, Copy, Debug, PartialEq, Eq, Structural)]
pub enum Label {
    Website,
    Twitter,
}

/// The labels of the buttons under the card of a profile, one for each of
/// its first two websites: a lone website is a Twitter page where its address
/// says so and a website else; of two the first is a website and the second
/// a Twitter page.
pub open spec fn button_labels(websites: Seq<Seq<char>>) -> Seq<Label> {
    if websites.len() == 0 {
        Seq::empty()
    } else if websites.len() == 1 {
        if contains(websites[0], "twitter"@) {
            seq![Label::Twitter]
        } else {
            seq![Label::Website]
        }
    } else {
        seq![Label::Website, Label::Twitter]
    }
}

/// Gives the labels of the buttons under the card of a profile. Button `i`
/// leads to website `i`.
pub fn website_buttons(websites: &Vec<String>) -> (out: Vec<Label>)
    ensures
        out@ == button_labels(crate::records::texts(websites@)),
        out.len() <= websites.len(),
{
    let mut out: Vec<Label> = Vec::new();
    if websites.len() == 1 {
        if has(&chars_of(websites[0].as_str()), &chars_of("twitter")) {
            out.push(Label::Twitter);
        } else {
            out.push(Label::Website);
        }
    } else if websites.len() >= 2 {
        out.push(Label::Website);
        out.push(Label::Twitter);
    }
    proof {
        assert(out@ =~= button_labels(crate::records::texts(websites@)));
    }
    out
}

/// The answer to a request for images of the film `asked` where there is
/// nothing to page through: no apology where the set has a title and at
/// least one image.
pub open spec fn images_answer(asked: Seq<char>, set: Images) -> Option<Seq<char>> {
    if set.title.len() > 0 && set.images.len() > 0 {
        None
    } else {
        Some(film_apology(asked))
    }
}

/// Says whether a set of images can be paged through, and gives the apology
/// where it cannot.
pub fn images_reply(asked: &str, set: &ImageSet) -> (out: Option<String>)
    ensures
        text_of(out) == images_answer(asked@, set@),
{
    let title = chars_of(set.title.as_str());
    assert(crate::records::texts(set.images@).len() == set.images.len());
    if title.len() > 0 && set.images.len() > 0 {
        None
    } else {
        Some(apology("Couldn't find `", asked, "` film."))
    }
}

} // verus!
