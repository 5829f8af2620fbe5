//! Profiles: the record that the page of a profile gives.

use vstd::prelude::*;
use crate::bio::{bio_text, format_bio};
use crate::extract::{attr_of_first, first_attribute, first_inner, inner_of_first, or_empty};
use crate::markup::{
    attribute_values, inner_markup, select_attr, select_inner, select_text, text_nodes,
};
use crate::records::{text_of, texts, FetchError, Profile, ProfileResult, WEBSITE_LIMIT};
use crate::site::{BASE_URL, DESCRIPTION, NOT_FOUND_MARKER, OG_TITLE};
use crate::text::{
    before, chars_of, chars_or_empty, contains, has, head_before, join, joined, push_all,
    push_str, slice, split, split_on, string_of, trim, trimmed, views,
};

verus! {

/// The element that carries the name under which a profile is kept.
pub const PROFILE: &'static str = r#"div[data-profile="true"]"#;

/// The element that holds the location.
pub const LOCATION: &'static str = r#"div[class="metadatum -has-label js-metadatum"]"#;

/// A link to a website.
pub const LINKS: &'static str = r#"a[class="metadatum -has-label js-metadatum"]"#;

/// An element of the list of favorites, which may carry the path of a film.
pub const FAVOURITES: &'static str = r#"section[id="favourites"] div"#;

/// The picture of the profile.
pub const AVATAR: &'static str = r#"img[width="110"]"#;

/// The section of the bio.
pub const BIO_SECTION: &'static str = r#"section[id="person-bio"]"#;

/// The collapsed text of a long bio.
pub const BIO_COLLAPSED: &'static str = r#"section[id="person-bio"] div[class="collapsed-text"]"#;

/// The text of a bio of middle length.
pub const BIO_MEDIUM: &'static str =
    r#"section[id="person-bio"] div[class="collapsible-text body-text -small"]"#;

/// The text of a short bio.
pub const BIO_SHORT: &'static str =
    r#"div[class="collapsible-text body-text -small js-bio-content"]"#;

/// A statistic of the profile.
pub const STATISTIC: &'static str = r#"h4[class="profile-statistic statistic"]"#;

/// What the page of a profile holds, as it was read off it.
#[derive(Debug)]
pub struct RawProfile {
    /// Whether the page says that there is no such profile.
    pub not_found: bool,
    /// The name under which the profile is kept.
    pub username: Option<String>,
    /// The title of the page: the name shown, and `’s profile`.
    pub title: Option<String>,
    /// The text nodes of the location.
    pub location: Option<Vec<String>>,
    /// The address of each link to a website.
    pub websites: Vec<Option<String>>,
    /// The description, which names the favorites and may quote the bio.
    pub description: Option<String>,
    /// The path of each favorite film.
    pub slugs: Vec<Option<String>>,
    pub avatar: Option<String>,
    /// The bio as it is shown.
    pub bio: String,
    /// The text nodes of each statistic: films, films this year, and so on
    /// to the followers.
    pub stats: Vec<Vec<String>>,
}

/// What a `RawProfile` holds.
pub struct RawProfileView {
    pub not_found: bool,
    pub username: Option<Seq<char>>,
    pub title: Option<Seq<char>>,
    pub location: Option<Seq<Seq<char>>>,
    pub websites: Seq<Option<Seq<char>>>,
    pub description: Option<Seq<char>>,
    pub slugs: Seq<Option<Seq<char>>>,
    pub avatar: Option<Seq<char>>,
    pub bio: Seq<char>,
    pub stats: Seq<Seq<Seq<char>>>,
}

impl View for RawProfile {
    type V = RawProfileView;

    open spec fn view(&self) -> RawProfileView {
        RawProfileView {
            not_found: self.not_found,
            username: text_of(self.username),
            title: text_of(self.title),
            location: self.location.deep_view(),
            websites: self.websites.deep_view(),
            description: text_of(self.description),
            slugs: self.slugs.deep_view(),
            avatar: text_of(self.avatar),
            bio: self.bio@,
            stats: self.stats.deep_view(),
        }
    }
}

/// The values that are there, in order.
pub open spec fn present(values: Seq<Option<Seq<char>>>) -> Seq<Seq<char>>
    decreases values.len(),
{
    if values.len() == 0 {
        Seq::empty()
    } else {
        let rest = present(values.drop_last());
        match values.last() {
            Some(v) => rest.push(v),
            None => rest,
        }
    }
}

/// Copies the values that are there.
pub fn present_values(values: &Vec<Option<String>>) -> (out: Vec<Vec<char>>)
    ensures
        views(out@) == present(values.deep_view()),
{
    let mut out: Vec<Vec<char>> = Vec::new();
    let mut i: usize = 0;
    assert(values.deep_view().take(0) =~= Seq::<Option<Seq<char>>>::empty());
    assert(views(out@) =~= Seq::<Seq<char>>::empty());
    while i < values.len()
        invariant
            i <= values.len(),
            views(out@) == present(values.deep_view().take(i as int)),
        decreases values.len() - i,
    {
        let ghost old_out = views(out@);
        proof {
            let next = values.deep_view().take(i + 1);
            assert(next.drop_last() =~= values.deep_view().take(i as int));
            assert(next.last() == text_of(values@[i as int]));
        }
        match &values[i] {
            Some(v) => {
                let c = chars_of(v.as_str());
                out.push(c);
                assert(views(out@) =~= old_out.push(c@));
            },
            None => {},
        }
        i += 1;
    }
    assert(values.deep_view().take(values.len() as int) =~= values.deep_view());
    out
}

/// Copies the characters of each string.
pub fn all_chars(v: &Vec<String>) -> (out: Vec<Vec<char>>)
    ensures
        views(out@) == v.deep_view(),
{
    let mut out: Vec<Vec<char>> = Vec::new();
    let mut i: usize = 0;
    while i < v.len()
        invariant
            i <= v.len(),
            out.len() == i,
            forall|j: int| 0 <= j < i ==> out@[j]@ == v@[j]@,
        decreases v.len() - i,
    {
        out.push(chars_of(v[i].as_str()));
        i += 1;
    }
    assert(views(out@) =~= v.deep_view());
    out
}

/// Writes each text as a string.
pub fn all_strings(v: &Vec<Vec<char>>) -> (out: Vec<String>)
    ensures
        texts(out@) == views(v@),
{
    let mut out: Vec<String> = Vec::new();
    let mut i: usize = 0;
    while i < v.len()
        invariant
            i <= v.len(),
            out.len() == i,
            forall|j: int| 0 <= j < i ==> out@[j]@ == v@[j]@,
        decreases v.len() - i,
    {
        out.push(string_of(&v[i]));
        i += 1;
    }
    assert(texts(out@) =~= views(v@));
    out
}

/// The name shown on a profile: what stands in the title of its page before
/// `’s profile`.
pub open spec fn name_text(title: Option<Seq<char>>) -> Seq<char> {
    head_before(or_empty(title), "’s profile"@)
}

/// The location as it is shown: a pin, and between stars the text nodes
/// written one after another and trimmed. Empty where there is no location.
pub open spec fn location_text(nodes: Option<Seq<Seq<char>>>) -> Seq<char> {
    match nodes {
        Some(n) => "📍 ***"@ + trimmed(joined(n, ""@)) + "***"@,
        None => Seq::empty(),
    }
}

/// Writes the location as it is shown.
pub fn location(nodes: &Option<Vec<String>>) -> (out: Vec<char>)
    ensures
        out@ == location_text(nodes.deep_view()),
{
    match nodes {
        Some(n) => {
            let whole = trim(&join(&all_chars(n), &chars_of("")));
            let mut out = chars_of("📍 ***");
            push_all(&mut out, &whole);
            push_str(&mut out, "***");
            out
        },
        None => Vec::new(),
    }
}

/// The websites of a profile: the addresses that are there, the first two
/// of them at most.
pub open spec fn websites_of(values: Seq<Option<Seq<char>>>) -> Seq<Seq<char>> {
    let p = present(values);
    if p.len() > WEBSITE_LIMIT {
        p.take(WEBSITE_LIMIT as int)
    } else {
        p
    }
}

/// Gathers the websites of a profile.
pub fn websites(values: &Vec<Option<String>>) -> (out: Vec<String>)
    ensures
        texts(out@) == websites_of(values.deep_view()),
        out.len() <= WEBSITE_LIMIT,
{
    let mut p = present_values(values);
    let ghost all = views(p@);
    if p.len() > WEBSITE_LIMIT {
        p.truncate(WEBSITE_LIMIT);
        assert(views(p@) =~= all.take(WEBSITE_LIMIT as int));
    }
    let out = all_strings(&p);
    assert(out.len() == texts(out@).len());
    out
}

/// The avatar of a profile: its address, or nothing where the address is
/// that of a stock picture, which holds `static`.
pub open spec fn avatar_text(avatar: Option<Seq<char>>) -> Seq<char> {
    let a = or_empty(avatar);
    if contains(a, "static"@) {
        Seq::empty()
    } else {
        a
    }
}

/// Reads the avatar of a profile.
pub fn avatar(raw: &Option<String>) -> (out: Vec<char>)
    ensures
        out@ == avatar_text(text_of(*raw)),
{
    let a = chars_or_empty(raw);
    if has(&a, &chars_of("static")) {
        Vec::new()
    } else {
        a
    }
}

/// The first text node of statistic `i`, or nothing where it has none.
pub open spec fn stat(stats: Seq<Seq<Seq<char>>>, i: int) -> Seq<char> {
    if 0 <= i < stats.len() && stats[i].len() > 0 {
        stats[i][0]
    } else {
        Seq::empty()
    }
}

/// Reads the first text node of statistic `i`.
pub fn read_stat(stats: &Vec<Vec<String>>, i: usize) -> (out: Vec<char>)
    ensures
        out@ == stat(stats.deep_view(), i as int),
{
    if i < stats.len() && stats[i].len() > 0 {
        assert(stats.deep_view()[i as int] == stats@[i as int].deep_view());
        assert(stats@[i as int].deep_view()[0] == stats@[i as int]@[0]@);
        chars_of(stats[i][0].as_str())
    } else {
        proof {
            if i < stats.len() {
                assert(stats.deep_view()[i as int] == stats@[i as int].deep_view());
            }
        }
        Vec::new()
    }
}

/// The films that a profile has logged, in words: the first statistic, and
/// the second where there is one.
pub open spec fn films_count_text(stats: Seq<Seq<Seq<char>>>) -> Seq<char> {
    if stats.len() == 0 {
        Seq::empty()
    } else if stats.len() == 1 {
        stat(stats, 0) + " films logged, "@
    } else {
        stat(stats, 0) + " films logged, "@ + stat(stats, 1) + " this year."@
    }
}

/// The followers of a profile: the last statistic, where there are more
/// than the two on films.
pub open spec fn followers_text(stats: Seq<Seq<Seq<char>>>) -> Seq<char> {
    if stats.len() > 2 {
        stat(stats, stats.len() - 1)
    } else {
        Seq::empty()
    }
}

/// Writes the films that a profile has logged, in words.
pub fn films_count(stats: &Vec<Vec<String>>) -> (out: Vec<char>)
    ensures
        out@ == films_count_text(stats.deep_view()),
{
    let mut out: Vec<char> = Vec::new();
    if stats.len() >= 1 {
        push_all(&mut out, &read_stat(stats, 0));
        push_str(&mut out, " films logged, ");
    }
    if stats.len() >= 2 {
        push_all(&mut out, &read_stat(stats, 1));
        push_str(&mut out, " this year.");
    }
    proof {
        assert(out@ =~= films_count_text(stats.deep_view()));
    }
    out
}

/// Reads the followers of a profile.
pub fn followers(stats: &Vec<Vec<String>>) -> (out: Vec<char>)
    ensures
        out@ == followers_text(stats.deep_view()),
{
    if stats.len() > 2 {
        read_stat(stats, stats.len() - 1)
    } else {
        Vec::new()
    }
}

/// The titles of the favorites that a description names: what follows the
/// first `Favorites: `, up to `. Bio: ` where a bio follows and else without
/// its last character, split at `, `. None where nothing is named.
pub open spec fn favorite_titles(description: Seq<char>) -> Seq<Seq<char>> {
    let parts = split(description, "Favorites: "@);
    if parts.len() < 2 {
        Seq::empty()
    } else {
        let d = parts[1];
        if contains(d, "Bio: "@) {
            split(head_before(d, ". Bio: "@), ", "@)
        } else if d.len() > 0 {
            split(d.drop_last(), ", "@)
        } else {
            split(d, ", "@)
        }
    }
}

/// Reads the titles of the favorites that a description names.
pub fn read_favorite_titles(description: &Vec<char>) -> (out: Vec<Vec<char>>)
    ensures
        views(out@) == favorite_titles(description@),
{
    let parts = split_on(description, &chars_of("Favorites: "));
    if parts.len() < 2 {
        let out: Vec<Vec<char>> = Vec::new();
        assert(views(out@) =~= Seq::<Seq<char>>::empty());
        assert(views(parts@).len() == parts.len());
        return out;
    }
    assert(views(parts@).len() == parts.len());
    assert(views(parts@)[1] == parts@[1]@);
    let d = &parts[1];
    let sep = chars_of(", ");
    if has(d, &chars_of("Bio: ")) {
        split_on(&before(d, &chars_of(". Bio: ")), &sep)
    } else if d.len() > 0 {
        let cut = slice(d, 0, d.len() - 1);
        assert(cut@ =~= d@.drop_last());
        split_on(&cut, &sep)
    } else {
        split_on(d, &sep)
    }
}

/// The line that shows a favorite: a bullet, its title in square brackets,
/// its address in round ones, and a line end.
pub open spec fn favorite_line(title: Seq<char>, slug: Seq<char>) -> Seq<char> {
    "• ["@ + title + "]("@ + BASE_URL@ + slug + ")\n"@
}

/// The lines of the first `n` favorites: title `i` goes with path `i`.
pub open spec fn favorite_lines(titles: Seq<Seq<char>>, slugs: Seq<Seq<char>>, n: nat) -> Seq<char>
    decreases n,
{
    if n == 0 {
        Seq::empty()
    } else {
        favorite_lines(titles, slugs, (n - 1) as nat) + favorite_line(
            titles[n - 1],
            slugs[n - 1],
        )
    }
}

/// The favorites as they are shown: a line for each title that has a path
/// and each path that has a title, paired in order, without the last line
/// end.
pub open spec fn favorites_text(titles: Seq<Seq<char>>, slugs: Seq<Seq<char>>) -> Seq<char> {
    let n = if titles.len() <= slugs.len() {
        titles.len()
    } else {
        slugs.len()
    };
    let all = favorite_lines(titles, slugs, n);
    if all.len() > 0 {
        all.drop_last()
    } else {
        all
    }
}

/// Pairs the titles of the favorites with their paths, by their places, and
/// writes the favorites as they are shown.
pub fn pair_favorites(titles: &Vec<Vec<char>>, slugs: &Vec<Vec<char>>) -> (out: Vec<char>)
    ensures
        out@ == favorites_text(views(titles@), views(slugs@)),
{
    let n: usize = if titles.len() <= slugs.len() {
        titles.len()
    } else {
        slugs.len()
    };
    let mut out: Vec<char> = Vec::new();
    let mut i: usize = 0;
    while i < n
        invariant
            i <= n,
            n <= titles.len(),
            n <= slugs.len(),
            out@ == favorite_lines(views(titles@), views(slugs@), i as nat),
        decreases n - i,
    {
        let ghost old_out = out@;
        push_str(&mut out, "• [");
        push_all(&mut out, &titles[i]);
        push_str(&mut out, "](");
        push_str(&mut out, BASE_URL);
        push_all(&mut out, &slugs[i]);
        push_str(&mut out, ")\n");
        proof {
            assert(views(titles@)[i as int] == titles@[i as int]@);
            assert(views(slugs@)[i as int] == slugs@[i as int]@);
            assert(out@ =~= old_out + favorite_line(titles@[i as int]@, slugs@[i as int]@));
        }
        i += 1;
    }
    if out.len() > 0 {
        out.pop();
    }
    out
}

/// The favorites of a profile as they are shown, from the description that
/// names them and the paths of their films.
pub open spec fn favorites_of(
    description: Option<Seq<char>>,
    slugs: Seq<Option<Seq<char>>>,
) -> Seq<char> {
    favorites_text(favorite_titles(or_empty(description)), present(slugs))
}

/// The record of a profile asked for as `username`, made of what its page
/// holds: the empty record where the page says that there is no such
/// profile, an error where the page does not state under which name the
/// profile is kept, and else a record in which what the page lacks is left
/// empty.
pub open spec fn profile_of(username: Seq<char>, raw: RawProfileView) -> Result<
    Profile,
    FetchError,
> {
    if raw.not_found {
        Ok(Profile::not_found())
    } else {
        match raw.username {
            None => Err(FetchError::ParseAssumptionViolation),
            Some(kept) => Ok(
                Profile {
                    found: true,
                    avatar: avatar_text(raw.avatar),
                    username: kept,
                    name: name_text(raw.title),
                    bio: raw.bio,
                    followers: followers_text(raw.stats),
                    favorites: favorites_of(raw.description, raw.slugs),
                    location: location_text(raw.location),
                    films_count: films_count_text(raw.stats),
                    websites: websites_of(raw.websites),
                    url: BASE_URL@ + "/"@ + username,
                },
            ),
        }
    }
}

/// The view of a profile that was or was not made.
pub open spec fn profile_view(r: Result<ProfileResult, FetchError>) -> Result<Profile, FetchError> {
    match r {
        Ok(p) => Ok(p@),
        Err(e) => Err(e),
    }
}

/// Makes the record of a profile asked for as `username` of what its page
/// holds.
pub fn assemble_profile(username: &str, raw: &RawProfile) -> (out: Result<
    ProfileResult,
    FetchError,
>)
    ensures
        profile_view(out) == profile_of(username@, raw@),
        out is Ok ==> out->Ok_0@.wf(),
{
    if raw.not_found {
        return Ok(ProfileResult::default());
    }
    match &raw.username {
        None => Err(FetchError::ParseAssumptionViolation),
        Some(kept) => {
            let mut url = chars_of(BASE_URL);
            push_str(&mut url, "/");
            push_str(&mut url, username);
            let title = chars_or_empty(&raw.title);
            let titles = read_favorite_titles(&chars_or_empty(&raw.description));
            let slugs = present_values(&raw.slugs);
            Ok(
                ProfileResult {
                    found: true,
                    avatar: string_of(&avatar(&raw.avatar)),
                    username: kept.clone(),
                    name: string_of(&before(&title, &chars_of("’s profile"))),
                    bio: raw.bio.clone(),
                    followers: string_of(&followers(&raw.stats)),
                    favorites: string_of(&pair_favorites(&titles, &slugs)),
                    location: string_of(&location(&raw.location)),
                    films_count: string_of(&films_count(&raw.stats)),
                    websites: websites(&raw.websites),
                    url: string_of(&url),
                },
            )
        },
    }
}

/// The markup of the bio of a profile: inside the section of the bio the
/// collapsed text, or the text of middle length where there is none;
/// without such a section the short text.
pub open spec fn chosen_bio(
    has_section: bool,
    collapsed: Option<Seq<char>>,
    medium: Option<Seq<char>>,
    short: Option<Seq<char>>,
) -> Option<Seq<char>> {
    if has_section {
        match collapsed {
            Some(c) => Some(c),
            None => medium,
        }
    } else {
        short
    }
}

/// Chooses the markup of the bio of a profile.
pub fn choose_bio(
    has_section: bool,
    collapsed: Option<String>,
    medium: Option<String>,
    short: Option<String>,
) -> (out: Option<String>)
    ensures
        text_of(out) == chosen_bio(has_section, text_of(collapsed), text_of(medium), text_of(short)),
{
    if has_section {
        match collapsed {
            Some(c) => Some(c),
            None => medium,
        }
    } else {
        short
    }
}

/// The text nodes of the first element, if there is one.
pub open spec fn first_nodes(all: Seq<Seq<Seq<char>>>) -> Option<Seq<Seq<char>>> {
    if all.len() > 0 {
        Some(all[0])
    } else {
        None
    }
}

/// The bio of a profile as it is shown, from the page of the profile.
pub open spec fn scraped_bio(page: Seq<char>) -> Seq<char> {
    match chosen_bio(
        inner_markup(page, BIO_SECTION@).len() > 0,
        first_inner(page, BIO_COLLAPSED@),
        first_inner(page, BIO_MEDIUM@),
        first_inner(page, BIO_SHORT@),
    ) {
        Some(m) => bio_text(m),
        None => Seq::empty(),
    }
}

/// What the page of a profile holds.
pub open spec fn scraped_profile(page: Seq<char>) -> RawProfileView {
    RawProfileView {
        not_found: contains(page, NOT_FOUND_MARKER@),
        username: first_attribute(page, PROFILE@, "data-username"@),
        title: first_attribute(page, OG_TITLE@, "content"@),
        location: first_nodes(text_nodes(page, LOCATION@)),
        websites: attribute_values(page, LINKS@, "href"@),
        description: first_attribute(page, DESCRIPTION@, "content"@),
        slugs: attribute_values(page, FAVOURITES@, "data-film-slug"@),
        avatar: first_attribute(page, AVATAR@, "src"@),
        bio: scraped_bio(page),
        stats: text_nodes(page, STATISTIC@),
    }
}

/// Reads what the page of a profile holds.
pub fn scrape_profile(page: &str) -> (out: RawProfile)
    ensures
        out@ == scraped_profile(page@),
{
    let has_section = select_inner(page, BIO_SECTION).len() > 0;
    let bio = match choose_bio(
        has_section,
        inner_of_first(page, BIO_COLLAPSED),
        inner_of_first(page, BIO_MEDIUM),
        inner_of_first(page, BIO_SHORT),
    ) {
        Some(m) => format_bio(m.as_str()),
        None => String::new(),
    };
    let mut located = select_text(page, LOCATION);
    let ghost all = located.deep_view();
    let location = if located.len() > 0 {
        let first = located.swap_remove(0);
        assert(first.deep_view() == all[0]);
        Some(first)
    } else {
        None
    };
    RawProfile {
        not_found: has(&chars_of(page), &chars_of(NOT_FOUND_MARKER)),
        username: attr_of_first(page, PROFILE, "data-username"),
        title: attr_of_first(page, OG_TITLE, "content"),
        location,
        websites: select_attr(page, LINKS, "href"),
        description: attr_of_first(page, DESCRIPTION, "content"),
        slugs: select_attr(page, FAVOURITES, "data-film-slug"),
        avatar: attr_of_first(page, AVATAR, "src"),
        bio,
        stats: select_text(page, STATISTIC),
    }
}

/// Gives the record of the profile asked for as `username`, from the text
/// of its page.
pub fn get_profile(username: &str, page: &str) -> (out: Result<ProfileResult, FetchError>)
    ensures
        profile_view(out) == profile_of(username@, scraped_profile(page@)),
        out is Ok ==> out->Ok_0@.wf(),
{
    let raw = scrape_profile(page);
    assemble_profile(username, &raw)
}

/// The address of the page of the profile asked for as `username`.
pub fn profile_url(username: &str) -> (out: String)
    ensures
        out@ == BASE_URL@ + "/"@ + username@,
{
    let mut out = chars_of(BASE_URL);
    push_str(&mut out, "/");
    push_str(&mut out, username);
    string_of(&out)
}

} // verus!
