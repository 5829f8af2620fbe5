//! The roulette: short addresses drawn at random and probed until one leads
//! to a film or a review, within a budget of probes.

use vstd::prelude::*;
use crate::chance::pick_below;
use crate::extract::{attr_of_first, first_attribute};
use crate::records::{text_of, FetchError};
use crate::site::OG_TITLE;
use crate::text::{
    chars_of, contains, has, is_text, slice, split, split_on, string_of, views,
};

verus! {

/// Where the short addresses live.
pub const SHORT_URL: &'static str = "https://boxd.it/";

/// The characters of which a short address is made.
pub const ALPHABET: &'static str = "0123456789abcdefghijklmnopqrstuvwxyzABCDEFGHIJKLMNOPQRSTUVWXYZ";

/// The length of the part of a short address that is drawn.
pub const CODE_LENGTH: usize = 6;

/// The probes that one roulette is allowed.
pub const PROBE_BUDGET: u32 = 64;

/// How often the whole roulette is tried before it fails.
pub const ATTEMPTS: u32 = 3;

/// What the type of a page is called where the page is a film.
pub const FILM: &'static str = "Film";

/// What the type of a page is called where the page is an entry or a review.
pub const LOG_ENTRY: &'static str = "LogEntry";

/// Whether a text is a short address as it is drawn: `SHORT_URL` and six
/// characters of `ALPHABET`.
pub open spec fn is_link(s: Seq<char>) -> bool {
    &&& s.len() == SHORT_URL@.len() + CODE_LENGTH
    &&& s.take(SHORT_URL@.len() as int) == SHORT_URL@
    &&& forall|i: int| SHORT_URL@.len() <= i < s.len() ==> ALPHABET@.contains(#[trigger] s[i])
}

/// The character that a draw stands for: the one at its place in `ALPHABET`,
/// counted round.
pub open spec fn letter(pick: int) -> char {
    ALPHABET@[pick % (ALPHABET@.len() as int)]
}

/// The short address that draws stand for: `SHORT_URL` and the character
/// of each draw, in order.
pub open spec fn link_text(picks: Seq<usize>) -> Seq<char> {
    SHORT_URL@ + picks.map_values(|p: usize| letter(p as int))
}

/// `ALPHABET` has sixty-two characters.
pub proof fn lemma_alphabet()
    ensures
        ALPHABET@.len() == 62,
{
    reveal_strlit("0123456789abcdefghijklmnopqrstuvwxyzABCDEFGHIJKLMNOPQRSTUVWXYZ");
}

/// Six draws stand for a short address as it is drawn.
pub proof fn lemma_link_text(picks: Seq<usize>)
    requires
        picks.len() == CODE_LENGTH,
    ensures
        is_link(link_text(picks)),
{
    lemma_alphabet();
    let s = link_text(picks);
    let n = SHORT_URL@.len() as int;
    assert(s.take(n) =~= SHORT_URL@);
    assert forall|i: int| n <= i < s.len() implies ALPHABET@.contains(#[trigger] s[i]) by {
        let p = picks[i - n] as int;
        assert(s[i] == letter(p));
        assert(0 <= p % 62 < 62);
    }
}

/// Writes the short address that draws stand for.
pub fn link_of(picks: &Vec<usize>) -> (out: String)
    ensures
        out@ == link_text(picks@),
{
    let letters = chars_of(ALPHABET);
    proof {
        lemma_alphabet();
    }
    let mut out = chars_of(SHORT_URL);
    let mut i: usize = 0;
    while i < picks.len()
        invariant
            i <= picks.len(),
            letters@ == ALPHABET@,
            letters.len() == 62,
            out@ == SHORT_URL@ + picks@.take(i as int).map_values(|p: usize| letter(p as int)),
        decreases picks.len() - i,
    {
        let ghost before = out@;
        out.push(letters[picks[i] % letters.len()]);
        proof {
            let f = |p: usize| letter(p as int);
            assert(picks@.take(i + 1).map_values(f) =~= picks@.take(i as int).map_values(f).push(
                letter(picks@[i as int] as int),
            ));
            assert(out@ =~= SHORT_URL@ + picks@.take(i + 1).map_values(f));
        }
        i += 1;
    }
    assert(picks@.take(picks.len() as int) =~= picks@);
    string_of(&out)
}

/// Draws a short address: six draws, each below the length of `ALPHABET`,
/// and the address they stand for.
pub fn generate_lbxd_link() -> (out: String)
    ensures
        is_link(out@),
        exists|picks: Seq<usize>|
            picks.len() == CODE_LENGTH && out@ == #[trigger] link_text(picks) && forall|i: int|
                0 <= i < picks.len() ==> picks[i] < ALPHABET@.len(),
{
    proof {
        lemma_alphabet();
    }
    let mut picks: Vec<usize> = Vec::new();
    let mut i: usize = 0;
    while i < CODE_LENGTH
        invariant
            i <= CODE_LENGTH,
            picks.len() == i,
            forall|j: int| 0 <= j < picks.len() ==> picks@[j] < 62,
        decreases CODE_LENGTH - i,
    {
        picks.push(pick_below(62));
        i += 1;
    }
    let out = link_of(&picks);
    proof {
        lemma_link_text(picks@);
        assert(out@ == link_text(picks@));
    }
    out
}

/// What a probe of an address brought.
#[derive(Debug)]
pub enum Probe {
    /// The request failed.
    Failed,
    /// The site answered, and called the type of the page so, or did not
    /// call it anything.
    Answered(Option<String>),
}

/// What a `Probe` holds.
pub enum ProbeView {
    Failed,
    Answered(Option<Seq<char>>),
}

impl View for Probe {
    type V = ProbeView;

    open spec fn view(&self) -> ProbeView {
        match self {
            Probe::Failed => ProbeView::Failed,
            Probe::Answered(kind) => ProbeView::Answered(text_of(*kind)),
        }
    }
}

/// Whether a probe found a page of one of the two types that are taken.
pub open spec fn accepted(probe: ProbeView) -> bool {
    probe matches ProbeView::Answered(Some(kind)) && (kind == FILM@ || kind == LOG_ENTRY@)
}

/// What to do after a probe.
#[derive(Clone, Copy, Debug, PartialEq, Eq, Structural)]
pub enum Step {
    /// The page probed is taken.
    Accept,
    /// The next address is to be probed.
    Retry,
    /// The budget is spent: the roulette fails.
    GiveUp,
}

/// A roulette under way: the address to probe next, and the probes that
/// are still allowed.
#[derive(Debug)]
pub struct Roulette {
    pub url: String,
    pub probes_left: u32,
}

/// What a `Roulette` holds.
pub struct RouletteView {
    pub url: Seq<char>,
    pub probes_left: nat,
}

impl View for Roulette {
    type V = RouletteView;

    open spec fn view(&self) -> RouletteView {
        RouletteView { url: self.url@, probes_left: self.probes_left as nat }
    }
}

/// The last `n` characters of `s`, or all of `s` where it has fewer.
pub open spec fn tail(s: Seq<char>, n: nat) -> Seq<char> {
    if s.len() > n {
        s.skip(s.len() - n)
    } else {
        s
    }
}

/// The address to probe after `url` was probed: a fresh one where the last
/// four characters of `url` hold a slash, else `url`; and that without its
/// last character where the probe was answered and the page not taken.
pub open spec fn next_url(url: Seq<char>, probe: ProbeView, fresh: Seq<char>) -> Seq<char> {
    let kept = if contains(tail(url, 4), "/"@) {
        fresh
    } else {
        url
    };
    if probe is Answered && !accepted(probe) && kept.len() > 0 {
        kept.drop_last()
    } else {
        kept
    }
}

/// The roulette after a probe, and what to do then. A page of a type that
/// is taken is accepted, and the roulette stays as it is. Any other probe
/// costs one of the probes left and moves to the next address; with none
/// left after it the roulette gives up.
pub open spec fn stepped(r: RouletteView, probe: ProbeView, fresh: Seq<char>) -> (
    RouletteView,
    Step,
) {
    if accepted(probe) {
        (r, Step::Accept)
    } else {
        let left = if r.probes_left > 0 {
            (r.probes_left - 1) as nat
        } else {
            0
        };
        (
            RouletteView { url: next_url(r.url, probe, fresh), probes_left: left },
            if left == 0 {
                Step::GiveUp
            } else {
                Step::Retry
            },
        )
    }
}

/// What the roulette comes to when it is fed the probes in order, each with
/// its fresh address, until one is accepted or the roulette gives up: the
/// last step, and how many probes were used. With the probes used up before
/// that, it is still to retry.
pub open spec fn played(r: RouletteView, probes: Seq<ProbeView>, fresh: Seq<Seq<char>>) -> (
    Step,
    nat,
)
    decreases probes.len(),
{
    if probes.len() == 0 || fresh.len() == 0 {
        (Step::Retry, 0)
    } else {
        let (next, step) = stepped(r, probes[0], fresh[0]);
        if step == Step::Retry {
            let (last, used) = played(next, probes.skip(1), fresh.skip(1));
            (last, used + 1)
        } else {
            (step, 1)
        }
    }
}

/// A roulette whose probes are all refused gives up, and does so when the
/// probes it was allowed are used: it neither accepts nor goes on beyond
/// its budget, whatever addresses are drawn.
pub proof fn lemma_roulette_gives_up(
    r: RouletteView,
    probes: Seq<ProbeView>,
    fresh: Seq<Seq<char>>,
)
    requires
        r.probes_left > 0,
        probes.len() >= r.probes_left,
        fresh.len() >= r.probes_left,
        forall|i: int| 0 <= i < probes.len() ==> !accepted(#[trigger] probes[i]),
    ensures
        played(r, probes, fresh) == (Step::GiveUp, r.probes_left),
    decreases probes.len(),
{
    let (next, step) = stepped(r, probes[0], fresh[0]);
    assert(!accepted(probes[0]));
    if step == Step::Retry {
        assert forall|i: int| 0 <= i < probes.skip(1).len() implies !accepted(
            #[trigger] probes.skip(1)[i],
        ) by {
            assert(probes.skip(1)[i] == probes[i + 1]);
        }
        lemma_roulette_gives_up(next, probes.skip(1), fresh.skip(1));
    }
}

/// A roulette never uses more probes than it was allowed, whatever the
/// probes bring.
pub proof fn lemma_roulette_bounded(
    r: RouletteView,
    probes: Seq<ProbeView>,
    fresh: Seq<Seq<char>>,
)
    requires
        r.probes_left > 0,
    ensures
        played(r, probes, fresh).1 <= r.probes_left,
    decreases probes.len(),
{
    if probes.len() > 0 && fresh.len() > 0 {
        let (next, step) = stepped(r, probes[0], fresh[0]);
        if step == Step::Retry {
            lemma_roulette_bounded(next, probes.skip(1), fresh.skip(1));
        }
    }
}

impl Roulette {
    /// A roulette that starts at `url` and may probe `budget` times.
    pub fn start(url: String, budget: u32) -> (out: Self)
        ensures
            out@ == (RouletteView { url: url@, probes_left: budget as nat }),
    {
        Roulette { url, probes_left: budget }
    }

    /// Tells whether a probe found a page of a type that is taken.
    pub fn accepts(probe: &Probe) -> (b: bool)
        ensures
            b == accepted(probe@),
    {
        match probe {
            Probe::Answered(Some(kind)) => {
                let k = chars_of(kind.as_str());
                is_text(&k, FILM) || is_text(&k, LOG_ENTRY)
            },
            _ => false,
        }
    }

    /// Takes in what the probe of `self.url` brought, and `fresh`, an address
    /// to go on with where this one is used up, and says what to do next.
    pub fn advance(&mut self, probe: &Probe, fresh: String) -> (step: Step)
        ensures
            (final(self)@, step) == stepped(old(self)@, probe@, fresh@),
    {
        if Self::accepts(probe) {
            return Step::Accept;
        }
        let url = chars_of(self.url.as_str());
        let n = url.len();
        let last = if n > 4 {
            slice(&url, n - 4, n)
        } else {
            slice(&url, 0, n)
        };
        proof {
            assert(last@ =~= tail(url@, 4));
        }
        let mut kept = if has(&last, &chars_of("/")) {
            chars_of(fresh.as_str())
        } else {
            url
        };
        match probe {
            Probe::Answered(_) => {
                if kept.len() > 0 {
                    kept.pop();
                }
            },
            Probe::Failed => {},
        }
        self.url = string_of(&kept);
        if self.probes_left > 0 {
            self.probes_left = self.probes_left - 1;
        }
        if self.probes_left == 0 {
            Step::GiveUp
        } else {
            Step::Retry
        }
    }

    /// Takes in what the probe of `self.url` brought, draws the address to go
    /// on with, and says what to do next.
    pub fn turn(&mut self, probe: &Probe) -> (step: Step)
        ensures
            exists|fresh: Seq<char>|
                is_link(fresh) && (final(self)@, step) == stepped(old(self)@, probe@, fresh),
    {
        let fresh = generate_lbxd_link();
        let ghost drawn = fresh@;
        let step = self.advance(probe, fresh);
        assert(is_link(drawn) && (self@, step) == stepped(old(self)@, probe@, drawn));
        step
    }
}

/// The title of the film that a page taken by the roulette is about. The
/// page of a film states it as its own title. Any other page states it
/// after `entry for ` where its title speaks of an entry, and else after
/// `review of `; what follows up to the next such words is the title.
/// Nothing where the page has no title, or its title lacks those words.
pub open spec fn landing_title(kind: Seq<char>, title: Option<Seq<char>>) -> Option<Seq<char>> {
    match title {
        None => None,
        Some(t) => if kind == FILM@ {
            Some(t)
        } else {
            let parts = if contains(t, "entry for"@) {
                split(t, "entry for "@)
            } else {
                split(t, "review of "@)
            };
            if parts.len() >= 2 {
                Some(parts[1])
            } else {
                None
            }
        },
    }
}

/// The title to search for, or the error that there is none.
pub open spec fn landed(kind: Seq<char>, title: Option<Seq<char>>) -> Result<
    Seq<char>,
    FetchError,
> {
    match landing_title(kind, title) {
        Some(t) => Ok(t),
        None => Err(FetchError::ParseAssumptionViolation),
    }
}

/// The view of a title that was or was not found.
pub open spec fn title_view(r: Result<String, FetchError>) -> Result<Seq<char>, FetchError> {
    match r {
        Ok(t) => Ok(t@),
        Err(e) => Err(e),
    }
}

/// Reads the title of the film off the title of a page that the roulette
/// took.
pub fn roulette_title(kind: &str, title: Option<String>) -> (out: Result<String, FetchError>)
    ensures
        title_view(out) == landed(kind@, text_of(title)),
{
    match title {
        None => Err(FetchError::ParseAssumptionViolation),
        Some(t) => {
            if is_text(&chars_of(kind), FILM) {
                return Ok(t);
            }
            let c = chars_of(t.as_str());
            let parts = if has(&c, &chars_of("entry for")) {
                split_on(&c, &chars_of("entry for "))
            } else {
                split_on(&c, &chars_of("review of "))
            };
            assert(views(parts@).len() == parts.len());
            if parts.len() >= 2 {
                assert(views(parts@)[1] == parts@[1]@);
                Ok(string_of(&parts[1]))
            } else {
                Err(FetchError::ParseAssumptionViolation)
            }
        },
    }
}

/// Gives the title of the film that the roulette landed on, from the type
/// of the page it took and the text of that page.
pub fn get_roulette(kind: &str, landing_page: &str) -> (out: Result<String, FetchError>)
    ensures
        title_view(out) == landed(kind@, first_attribute(landing_page@, OG_TITLE@, "content"@)),
{
    roulette_title(kind, attr_of_first(landing_page, OG_TITLE, "content"))
}

/// The error that a step stands for: a roulette that gives up has failed
/// for the time being, any other step is no error.
pub fn failure_of(step: Step) -> (out: Option<FetchError>)
    ensures
        out == if step == Step::GiveUp {
            Some(FetchError::TransientNetworkFailure)
        } else {
            None
        },
{
    match step {
        Step::GiveUp => Some(FetchError::TransientNetworkFailure),
        _ => None,
    }
}

/// Whether the whole roulette may be tried once more after `failures`
/// failures.
pub fn may_retry(failures: u32) -> (b: bool)
    ensures
        b == (failures < ATTEMPTS),
{
    failures < ATTEMPTS
}

} // verus!
