//! Posters and backdrops: the two requests to the film database, and the
//! set of images that their answers give.

use vstd::prelude::*;
use crate::numbers::{decimal, push_decimal};
use crate::records::{texts, ImageSet, Images};
use crate::text::{chars_of, is_text, prefix, push_all, push_str, string_of};

verus! {

/// Where the film database answers.
pub const API_URL: &'static str = "https://api.themoviedb.org/3";

/// Where the film database keeps its images.
pub const IMAGE_URL: &'static str = "https://www.themoviedb.org/t/p/original";

/// The kind of image that is restricted to one language.
pub const POSTERS: &'static str = "posters";

/// The kind of image that is taken in any language.
pub const BACKDROPS: &'static str = "backdrops";

/// A film that a search of the film database found.
#[derive(Debug)]
pub struct SearchHit {
    /// The number under which the database keeps the film, as it writes it.
    pub id: String,
    pub original_title: String,
    /// The day of the release, year first.
    pub release_date: String,
}

/// What a `SearchHit` holds.
pub struct SearchHitView {
    pub id: Seq<char>,
    pub original_title: Seq<char>,
    pub release_date: Seq<char>,
}

impl View for SearchHit {
    type V = SearchHitView;

    open spec fn view(&self) -> SearchHitView {
        SearchHitView {
            id: self.id@,
            original_title: self.original_title@,
            release_date: self.release_date@,
        }
    }
}

/// Hits seen as what they hold, in order.
pub open spec fn hits_of(v: Seq<SearchHit>) -> Seq<SearchHitView> {
    v.map_values(|h: SearchHit| h@)
}

/// A whole number in decimal, with a minus sign where it is negative.
pub open spec fn signed_decimal(i: int) -> Seq<char> {
    if i < 0 {
        seq!['-'] + decimal((-i) as nat)
    } else {
        decimal(i as nat)
    }
}

/// What restricts a search to a year: nothing for the year zero.
pub open spec fn year_filter(year: int) -> Seq<char> {
    if year != 0 {
        "&year="@ + signed_decimal(year)
    } else {
        Seq::empty()
    }
}

/// The address of the search for a film, with the key of the caller.
pub open spec fn search_address(token: Seq<char>, film: Seq<char>, year: int) -> Seq<char> {
    API_URL@ + "/search/movie?api_key="@ + token + "&language=en-US&query="@ + film
        + "&page=1&include_adult=false"@ + year_filter(year)
}

/// Writes the address of the search for a film. The year zero stands for
/// any year.
pub fn search_url(token: &str, film: &str, year: i32) -> (out: String)
    ensures
        out@ == search_address(token@, film@, year as int),
{
    let mut out = chars_of(API_URL);
    push_str(&mut out, "/search/movie?api_key=");
    push_str(&mut out, token);
    push_str(&mut out, "&language=en-US&query=");
    push_str(&mut out, film);
    push_str(&mut out, "&page=1&include_adult=false");
    if year != 0 {
        push_str(&mut out, "&year=");
        if year < 0 {
            out.push('-');
            push_decimal(&mut out, (-(year as i64)) as u64);
        } else {
            push_decimal(&mut out, year as u64);
        }
    }
    proof {
        assert(out@ =~= search_address(token@, film@, year as int));
    }
    string_of(&out)
}

/// What restricts the images asked for: posters come in English only,
/// anything else in any language.
pub open spec fn language_filter(choice: Seq<char>) -> Seq<char> {
    if choice == POSTERS@ {
        "&language=en-US&include_image_language=en"@
    } else {
        Seq::empty()
    }
}

/// The address of the images of the film kept under `id`.
pub open spec fn images_address(token: Seq<char>, id: Seq<char>, choice: Seq<char>) -> Seq<char> {
    API_URL@ + "/movie/"@ + id + "/images?api_key="@ + token + language_filter(choice)
}

/// Writes the address of the images of the film kept under `id`.
pub fn images_url(token: &str, id: &str, choice: &str) -> (out: String)
    ensures
        out@ == images_address(token@, id@, choice@),
{
    let mut out = chars_of(API_URL);
    push_str(&mut out, "/movie/");
    push_str(&mut out, id);
    push_str(&mut out, "/images?api_key=");
    push_str(&mut out, token);
    if is_text(&chars_of(choice), POSTERS) {
        push_str(&mut out, "&language=en-US&include_image_language=en");
    }
    proof {
        assert(out@ =~= images_address(token@, id@, choice@));
    }
    string_of(&out)
}

/// The address to ask for images at, after a search: that of the images of
/// the first hit, or none where the search found nothing.
pub open spec fn next_address(
    token: Seq<char>,
    hits: Seq<SearchHitView>,
    choice: Seq<char>,
) -> Option<Seq<char>> {
    if hits.len() > 0 {
        Some(images_address(token, hits[0].id, choice))
    } else {
        None
    }
}

/// Says where to ask for images after a search, if anywhere.
pub fn images_request(token: &str, hits: &Vec<SearchHit>, choice: &str) -> (out: Option<String>)
    ensures
        crate::records::text_of(out) == next_address(token@, hits_of(hits@), choice@),
{
    if hits.len() > 0 {
        Some(images_url(token, hits[0].id.as_str(), choice))
    } else {
        None
    }
}

/// The title of a set of images: the title of the film, and in brackets
/// the first four characters of the day of its release.
pub open spec fn set_title(hit: SearchHitView) -> Seq<char> {
    hit.original_title + " ("@ + (if hit.release_date.len() > 4 {
        hit.release_date.take(4)
    } else {
        hit.release_date
    }) + ")"@
}

/// The addresses of the images kept under the paths, in order.
pub open spec fn image_links(paths: Seq<Seq<char>>) -> Seq<Seq<char>> {
    paths.map_values(|p: Seq<char>| IMAGE_URL@ + p)
}

/// The set of images that a search and the paths of the images of its
/// first hit give: the empty set where the search found nothing.
pub open spec fn image_set(hits: Seq<SearchHitView>, paths: Seq<Seq<char>>) -> Images {
    if hits.len() > 0 {
        Images { title: set_title(hits[0]), images: image_links(paths) }
    } else {
        Images::none()
    }
}

/// Gives the set of images of the first film that a search found, from the
/// hits of the search and the paths of the images of the first hit. A
/// search that found nothing gives the empty set, whatever the paths.
pub fn get_images(hits: &Vec<SearchHit>, paths: &Vec<String>) -> (out: ImageSet)
    ensures
        out@ == image_set(hits_of(hits@), texts(paths@)),
        hits.len() == 0 ==> out@ == Images::none(),
{
    if hits.len() == 0 {
        return ImageSet::default();
    }
    let hit = &hits[0];
    let mut title = chars_of(hit.original_title.as_str());
    push_str(&mut title, " (");
    push_all(&mut title, &prefix(&chars_of(hit.release_date.as_str()), 4));
    push_str(&mut title, ")");
    let mut images: Vec<String> = Vec::new();
    let mut i: usize = 0;
    while i < paths.len()
        invariant
            i <= paths.len(),
            images.len() == i,
            forall|j: int| 0 <= j < i ==> images@[j]@ == IMAGE_URL@ + paths@[j]@,
        decreases paths.len() - i,
    {
        let mut link = chars_of(IMAGE_URL);
        push_str(&mut link, paths[i].as_str());
        images.push(string_of(&link));
        i += 1;
    }
    proof {
        assert(texts(images@) =~= image_links(texts(paths@)));
        assert(hits_of(hits@)[0] == hits@[0]@);
    }
    ImageSet { title: string_of(&title), images }
}

} // verus!
