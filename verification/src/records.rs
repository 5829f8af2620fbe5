//! The records that the fetchers hand out, and their views.

use vstd::prelude::*;

verus! {

/// The views of the strings, in order.
pub open spec fn texts(v: Seq<String>) -> Seq<Seq<char>> {
    v.map_values(|s: String| s@)
}

/// One entry of a diary, or a lone entry that stands for a negative answer.
#[derive(Debug)]
pub struct DiaryResult {
    pub found: bool,
    pub title: String,
    pub rating: String,
    pub rewatched: bool,
    pub liked: bool,
    pub reviewed: bool,
    pub date: String,
    pub url: String,
}

/// What a `DiaryResult` holds.
pub struct DiaryEntry {
    pub found: bool,
    pub title: Seq<char>,
    pub rating: Seq<char>,
    pub rewatched: bool,
    pub liked: bool,
    pub reviewed: bool,
    pub date: Seq<char>,
    pub url: Seq<char>,
}

impl DiaryEntry {
    /// The entry with nothing in it but the flag `found`.
    pub open spec fn blank(found: bool) -> DiaryEntry {
        DiaryEntry {
            found,
            title: Seq::empty(),
            rating: Seq::empty(),
            rewatched: false,
            liked: false,
            reviewed: false,
            date: Seq::empty(),
            url: Seq::empty(),
        }
    }
}

impl View for DiaryResult {
    type V = DiaryEntry;

    open spec fn view(&self) -> DiaryEntry {
        DiaryEntry {
            found: self.found,
            title: self.title@,
            rating: self.rating@,
            rewatched: self.rewatched,
            liked: self.liked,
            reviewed: self.reviewed,
            date: self.date@,
            url: self.url@,
        }
    }
}

impl Clone for DiaryResult {
    fn clone(&self) -> (out: Self)
        ensures
            out == *self,
            out@ == self@,
    {
        DiaryResult {
            found: self.found,
            title: self.title.clone(),
            rating: self.rating.clone(),
            rewatched: self.rewatched,
            liked: self.liked,
            reviewed: self.reviewed,
            date: self.date.clone(),
            url: self.url.clone(),
        }
    }
}

impl Default for DiaryResult {
    fn default() -> (out: Self)
        ensures
            out@ == DiaryEntry::blank(false),
    {
        DiaryResult::blank(false)
    }
}

impl DiaryResult {
    /// An entry with nothing in it but the flag `found`.
    pub fn blank(found: bool) -> (out: Self)
        ensures
            out@ == DiaryEntry::blank(found),
    {
        DiaryResult {
            found,
            title: String::new(),
            rating: String::new(),
            rewatched: false,
            liked: false,
            reviewed: false,
            date: String::new(),
            url: String::new(),
        }
    }
}

/// Diary entries seen as what they hold, in order.
pub open spec fn entries_of(v: Seq<DiaryResult>) -> Seq<DiaryEntry> {
    v.map_values(|e: DiaryResult| e@)
}

/// The most entries that a diary page carries.
pub const DIARY_LIMIT: usize = 5;

/// The head of a diary: whose it is, and its newest entries, newest first.
///
/// A page that holds the lone entry `DiaryEntry::blank(false)` says that
/// there is no such profile; one that holds the lone entry
/// `DiaryEntry::blank(true)` says that the profile has no diary entries.
#[derive(Debug)]
pub struct DiaryPage {
    pub avatar: String,
    pub name: String,
    pub entries: Vec<DiaryResult>,
}

/// What a `DiaryPage` holds.
pub struct DiaryPageView {
    pub avatar: Seq<char>,
    pub name: Seq<char>,
    pub entries: Seq<DiaryEntry>,
}

/// What a diary page says.
#[derive(Clone, Copy, Debug, PartialEq, Eq, Structural)]
pub enum DiaryOutcome {
    /// There is no such profile.
    NotFound,
    /// The profile has no diary entries.
    Empty,
    /// The page lists entries.
    Listed,
}

impl DiaryPageView {
    /// The page that stands for a negative answer with the flag `found`.
    pub open spec fn sentinel(found: bool) -> DiaryPageView {
        DiaryPageView {
            avatar: Seq::empty(),
            name: Seq::empty(),
            entries: seq![DiaryEntry::blank(found)],
        }
    }

    /// What the page says: read off its lone entry, if it has just one.
    pub open spec fn outcome(self) -> DiaryOutcome {
        if self.entries.len() == 1 && !self.entries[0].found {
            DiaryOutcome::NotFound
        } else if self.entries.len() == 1 && self.entries[0].title.len() == 0 {
            DiaryOutcome::Empty
        } else {
            DiaryOutcome::Listed
        }
    }

    /// A page has at most five entries. One that lists entries has them all
    /// found and titled; any other is one of the two sentinels.
    pub open spec fn wf(self) -> bool {
        &&& self.entries.len() <= DIARY_LIMIT
        &&& self.outcome() == DiaryOutcome::NotFound ==> self == Self::sentinel(false)
        &&& self.outcome() == DiaryOutcome::Empty ==> self == Self::sentinel(true)
        &&& self.outcome() == DiaryOutcome::Listed ==> forall|i: int|
            0 <= i < self.entries.len() ==> (#[trigger] self.entries[i]).found
                && self.entries[i].title.len() > 0
    }
}

impl View for DiaryPage {
    type V = DiaryPageView;

    open spec fn view(&self) -> DiaryPageView {
        DiaryPageView { avatar: self.avatar@, name: self.name@, entries: entries_of(self.entries@) }
    }
}

impl Clone for DiaryPage {
    fn clone(&self) -> (out: Self)
        ensures
            out@ == self@,
    {
        let entries = self.entries.clone();
        assert(entries_of(entries@) =~= entries_of(self.entries@));
        DiaryPage { avatar: self.avatar.clone(), name: self.name.clone(), entries }
    }
}

impl Default for DiaryPage {
    fn default() -> (out: Self)
        ensures
            out@ == (DiaryPageView {
                avatar: Seq::empty(),
                name: Seq::empty(),
                entries: Seq::empty(),
            }),
    {
        let entries: Vec<DiaryResult> = Vec::new();
        assert(entries_of(entries@) =~= Seq::empty());
        DiaryPage { avatar: String::new(), name: String::new(), entries }
    }
}

impl DiaryPage {
    /// The page that stands for a negative answer with the flag `found`.
    pub fn sentinel(found: bool) -> (out: Self)
        ensures
            out@ == DiaryPageView::sentinel(found),
            out@.wf(),
    {
        let mut entries: Vec<DiaryResult> = Vec::new();
        entries.push(DiaryResult::blank(found));
        assert(entries_of(entries@) =~= seq![DiaryEntry::blank(found)]);
        DiaryPage { avatar: String::new(), name: String::new(), entries }
    }

    /// Tells what the page says.
    pub fn outcome(&self) -> (out: DiaryOutcome)
        ensures
            out == self@.outcome(),
    {
        if self.entries.len() == 1 && !self.entries[0].found {
            DiaryOutcome::NotFound
        } else if self.entries.len() == 1 && self.entries[0].title.as_str().unicode_len() == 0 {
            DiaryOutcome::Empty
        } else {
            DiaryOutcome::Listed
        }
    }
}

/// The counts shown with a film, each in its display form.
#[derive(Debug)]
pub struct FilmInfo {
    pub people: Option<String>,
    pub likes: Option<String>,
    pub reviews: Option<String>,
}

/// What a `FilmInfo` holds.
pub struct FilmInfoView {
    pub people: Option<Seq<char>>,
    pub likes: Option<Seq<char>>,
    pub reviews: Option<Seq<char>>,
}

impl FilmInfoView {
    /// No count at all.
    pub open spec fn none() -> FilmInfoView {
        FilmInfoView { people: None, likes: None, reviews: None }
    }
}

/// The view of a string that may be absent.
pub open spec fn text_of(o: Option<String>) -> Option<Seq<char>> {
    match o {
        Some(s) => Some(s@),
        None => None,
    }
}

impl View for FilmInfo {
    type V = FilmInfoView;

    open spec fn view(&self) -> FilmInfoView {
        FilmInfoView {
            people: text_of(self.people),
            likes: text_of(self.likes),
            reviews: text_of(self.reviews),
        }
    }
}

impl Clone for FilmInfo {
    fn clone(&self) -> (out: Self)
        ensures
            out@ == self@,
    {
        FilmInfo {
            people: copy_text(&self.people),
            likes: copy_text(&self.likes),
            reviews: copy_text(&self.reviews),
        }
    }
}

impl Default for FilmInfo {
    fn default() -> (out: Self)
        ensures
            out@ == FilmInfoView::none(),
    {
        FilmInfo { people: None, likes: None, reviews: None }
    }
}

/// A copy of a string that may be absent.
pub fn copy_text(o: &Option<String>) -> (out: Option<String>)
    ensures
        text_of(out) == text_of(*o),
{
    match o {
        Some(s) => Some(s.clone()),
        None => None,
    }
}

/// What is known of a film.
#[derive(Debug)]
pub struct FilmResult {
    pub found: bool,
    pub title: String,
    pub tagline: String,
    pub synopsis: String,
    pub rating: String,
    pub genre: String,
    pub duration: String,
    pub directors: String,
    pub countries: String,
    pub poster: String,
    pub info: FilmInfo,
    pub url: String,
}

/// What a `FilmResult` holds.
pub struct Film {
    pub found: bool,
    pub title: Seq<char>,
    pub tagline: Seq<char>,
    pub synopsis: Seq<char>,
    pub rating: Seq<char>,
    pub genre: Seq<char>,
    pub duration: Seq<char>,
    pub directors: Seq<char>,
    pub countries: Seq<char>,
    pub poster: Seq<char>,
    pub info: FilmInfoView,
    pub url: Seq<char>,
}

impl Film {
    /// The record of a film that was not found: nothing in it.
    pub open spec fn not_found() -> Film {
        Film {
            found: false,
            title: Seq::empty(),
            tagline: Seq::empty(),
            synopsis: Seq::empty(),
            rating: Seq::empty(),
            genre: Seq::empty(),
            duration: Seq::empty(),
            directors: Seq::empty(),
            countries: Seq::empty(),
            poster: Seq::empty(),
            info: FilmInfoView::none(),
            url: Seq::empty(),
        }
    }

    /// A record that says "not found" holds nothing else.
    pub open spec fn wf(self) -> bool {
        !self.found ==> self == Self::not_found()
    }
}

impl View for FilmResult {
    type V = Film;

    open spec fn view(&self) -> Film {
        Film {
            found: self.found,
            title: self.title@,
            tagline: self.tagline@,
            synopsis: self.synopsis@,
            rating: self.rating@,
            genre: self.genre@,
            duration: self.duration@,
            directors: self.directors@,
            countries: self.countries@,
            poster: self.poster@,
            info: self.info@,
            url: self.url@,
        }
    }
}

impl Clone for FilmResult {
    fn clone(&self) -> (out: Self)
        ensures
            out@ == self@,
    {
        FilmResult {
            found: self.found,
            title: self.title.clone(),
            tagline: self.tagline.clone(),
            synopsis: self.synopsis.clone(),
            rating: self.rating.clone(),
            genre: self.genre.clone(),
            duration: self.duration.clone(),
            directors: self.directors.clone(),
            countries: self.countries.clone(),
            poster: self.poster.clone(),
            info: self.info.clone(),
            url: self.url.clone(),
        }
    }
}

impl Default for FilmResult {
    fn default() -> (out: Self)
        ensures
            out@ == Film::not_found(),
    {
        FilmResult {
            found: false,
            title: String::new(),
            tagline: String::new(),
            synopsis: String::new(),
            rating: String::new(),
            genre: String::new(),
            duration: String::new(),
            directors: String::new(),
            countries: String::new(),
            poster: String::new(),
            info: FilmInfo::default(),
            url: String::new(),
        }
    }
}

/// What is known of a profile.
#[derive(Debug)]
pub struct ProfileResult {
    pub found: bool,
    pub avatar: String,
    pub username: String,
    pub name: String,
    pub bio: String,
    pub followers: String,
    pub favorites: String,
    pub location: String,
    pub films_count: String,
    pub websites: Vec<String>,
    pub url: String,
}

/// What a `ProfileResult` holds.
pub struct Profile {
    pub found: bool,
    pub avatar: Seq<char>,
    pub username: Seq<char>,
    pub name: Seq<char>,
    pub bio: Seq<char>,
    pub followers: Seq<char>,
    pub favorites: Seq<char>,
    pub location: Seq<char>,
    pub films_count: Seq<char>,
    pub websites: Seq<Seq<char>>,
    pub url: Seq<char>,
}

/// The most websites that a profile carries.
pub const WEBSITE_LIMIT: usize = 2;

impl Profile {
    /// The record of a profile that was not found: nothing in it.
    pub open spec fn not_found() -> Profile {
        Profile {
            found: false,
            avatar: Seq::empty(),
            username: Seq::empty(),
            name: Seq::empty(),
            bio: Seq::empty(),
            followers: Seq::empty(),
            favorites: Seq::empty(),
            location: Seq::empty(),
            films_count: Seq::empty(),
            websites: Seq::empty(),
            url: Seq::empty(),
        }
    }

    /// A record that says "not found" holds nothing else, and no record
    /// holds more than two websites.
    pub open spec fn wf(self) -> bool {
        &&& !self.found ==> self == Self::not_found()
        &&& self.websites.len() <= WEBSITE_LIMIT
    }
}

impl View for ProfileResult {
    type V = Profile;

    open spec fn view(&self) -> Profile {
        Profile {
            found: self.found,
            avatar: self.avatar@,
            username: self.username@,
            name: self.name@,
            bio: self.bio@,
            followers: self.followers@,
            favorites: self.favorites@,
            location: self.location@,
            films_count: self.films_count@,
            websites: texts(self.websites@),
            url: self.url@,
        }
    }
}

impl Clone for ProfileResult {
    fn clone(&self) -> (out: Self)
        ensures
            out@ == self@,
    {
        let websites = self.websites.clone();
        assert(texts(websites@) =~= texts(self.websites@));
        ProfileResult {
            found: self.found,
            avatar: self.avatar.clone(),
            username: self.username.clone(),
            name: self.name.clone(),
            bio: self.bio.clone(),
            followers: self.followers.clone(),
            favorites: self.favorites.clone(),
            location: self.location.clone(),
            films_count: self.films_count.clone(),
            websites,
            url: self.url.clone(),
        }
    }
}

impl Default for ProfileResult {
    fn default() -> (out: Self)
        ensures
            out@ == Profile::not_found(),
    {
        let websites: Vec<String> = Vec::new();
        assert(texts(websites@) =~= Seq::empty());
        ProfileResult {
            found: false,
            avatar: String::new(),
            username: String::new(),
            name: String::new(),
            bio: String::new(),
            followers: String::new(),
            favorites: String::new(),
            location: String::new(),
            films_count: String::new(),
            websites,
            url: String::new(),
        }
    }
}

/// The images of a film: its title and the addresses of the images. No
/// address says that no film was found.
#[derive(Debug)]
pub struct ImageSet {
    pub title: String,
    pub images: Vec<String>,
}

/// What an `ImageSet` holds.
pub struct Images {
    pub title: Seq<char>,
    pub images: Seq<Seq<char>>,
}

impl Images {
    /// The answer for a film that was not found.
    pub open spec fn none() -> Images {
        Images { title: Seq::empty(), images: Seq::empty() }
    }
}

impl View for ImageSet {
    type V = Images;

    open spec fn view(&self) -> Images {
        Images { title: self.title@, images: texts(self.images@) }
    }
}

impl Clone for ImageSet {
    fn clone(&self) -> (out: Self)
        ensures
            out@ == self@,
    {
        let images = self.images.clone();
        assert(texts(images@) =~= texts(self.images@));
        ImageSet { title: self.title.clone(), images }
    }
}

impl Default for ImageSet {
    fn default() -> (out: Self)
        ensures
            out@ == Images::none(),
    {
        let images: Vec<String> = Vec::new();
        assert(texts(images@) =~= Seq::empty());
        ImageSet { title: String::new(), images }
    }
}

/// Why a fetch gave no record.
#[derive(Clone, Copy, Debug, PartialEq, Eq, Structural)]
pub enum FetchError {
    /// The source did not answer, or did not answer in time or in number.
    TransientNetworkFailure,
    /// A part of the page that everything else hangs on is not there.
    ParseAssumptionViolation,
}

} // verus!
