//! Paging through a set of images, one page shown at a time.

use vstd::prelude::*;
use crate::numbers::{decimal, push_decimal};
use crate::text::{chars_of, equal, push_str, string_of};

verus! {

/// A button of the pager.
#[derive(Clone, Copy, Debug, PartialEq, Eq, Structural)]
pub enum Press {
    First,
    Prev,
    Next,
    Last,
}

/// Where a pager stands: the page shown, counted from zero, among its
/// pages. A pager has at least one page and shows one of its pages.
#[derive(Clone, Copy, Debug)]
pub struct Pager {
    current: usize,
    pages: usize,
}

/// The page shown after a button is pressed on page `current` of `pages`.
/// Going on from the last page leads to the first, going back from the first
/// to the last.
pub open spec fn turned(current: int, pages: int, press: Press) -> int {
    match press {
        Press::First => 0,
        Press::Prev => if current == 0 {
            pages - 1
        } else {
            current - 1
        },
        Press::Next => if current + 1 >= pages {
            0
        } else {
            current + 1
        },
        Press::Last => pages - 1,
    }
}

/// The line below the image: which page of how many, counted from one.
pub open spec fn footer_text(current: int, pages: int) -> Seq<char> {
    "Page "@ + decimal((current + 1) as nat) + "/"@ + decimal(pages as nat)
}

impl Pager {
    #[verifier::type_invariant]
    spec fn shows_a_page(self) -> bool {
        self.current < self.pages
    }

    /// The page shown, counted from zero.
    pub closed spec fn shown(self) -> int {
        self.current as int
    }

    /// The number of pages.
    pub closed spec fn count(self) -> int {
        self.pages as int
    }

    /// A pager on the first of `pages` pages; none where there is no page.
    pub fn new(pages: usize) -> (out: Option<Pager>)
        ensures
            out is Some <==> pages > 0,
            out is Some ==> out->0.shown() == 0 && out->0.count() == pages,
    {
        if pages > 0 {
            Some(Pager { current: 0, pages })
        } else {
            None
        }
    }

    /// The page shown, counted from zero.
    pub fn current(&self) -> (out: usize)
        ensures
            out == self.shown(),
            out < self.count(),
    {
        proof {
            use_type_invariant(self);
        }
        self.current
    }

    /// The number of pages.
    pub fn pages(&self) -> (out: usize)
        ensures
            out == self.count(),
            out > 0,
    {
        proof {
            use_type_invariant(self);
        }
        self.pages
    }

    /// The pager after a button is pressed.
    pub fn press(self, press: Press) -> (out: Pager)
        ensures
            out.count() == self.count(),
            out.shown() == turned(self.shown(), self.count(), press),
    {
        proof {
            use_type_invariant(self);
        }
        let current = match press {
            Press::First => 0,
            Press::Prev => if self.current == 0 {
                self.pages - 1
            } else {
                self.current - 1
            },
            Press::Next => if self.current + 1 >= self.pages {
                0
            } else {
                self.current + 1
            },
            Press::Last => self.pages - 1,
        };
        Pager { current, pages: self.pages }
    }

    /// Whether the buttons that lead back are switched off: on the first
    /// page.
    pub fn at_start(&self) -> (b: bool)
        ensures
            b == (self.shown() == 0),
    {
        self.current == 0
    }

    /// Whether the buttons that lead on are switched off: on the last page.
    pub fn at_end(&self) -> (b: bool)
        ensures
            b == (self.shown() == self.count() - 1),
    {
        proof {
            use_type_invariant(self);
        }
        self.current == self.pages - 1
    }

    /// Writes the line below the image.
    pub fn footer(&self) -> (out: String)
        ensures
            out@ == footer_text(self.shown(), self.count()),
    {
        proof {
            use_type_invariant(self);
        }
        let mut out = chars_of("Page ");
        push_decimal(&mut out, (self.current + 1) as u64);
        push_str(&mut out, "/");
        push_decimal(&mut out, self.pages as u64);
        string_of(&out)
    }
}

/// Whatever buttons are pressed, the page shown stays one of the pages.
pub proof fn lemma_turned_in_range(current: int, pages: int, press: Press)
    requires
        0 <= current < pages,
    ensures
        0 <= turned(current, pages, press) < pages,
{
}

/// The button that an identifier names, for the pager of the exchange
/// `owner`: the identifier is that of the exchange with the name of the
/// button after it.
pub open spec fn pressed(id: Seq<char>, owner: Seq<char>) -> Option<Press> {
    if id == owner + "next"@ {
        Some(Press::Next)
    } else if id == owner + "prev"@ {
        Some(Press::Prev)
    } else if id == owner + "first"@ {
        Some(Press::First)
    } else if id == owner + "last"@ {
        Some(Press::Last)
    } else {
        None
    }
}

/// The identifier of the button `name` of the pager of the exchange
/// `owner`.
pub fn button_id(owner: &str, name: &str) -> (out: String)
    ensures
        out@ == owner@ + name@,
{
    let mut out = chars_of(owner);
    push_str(&mut out, name);
    string_of(&out)
}

/// Tells which button an identifier names, if any.
pub fn press_of(id: &str, owner: &str) -> (out: Option<Press>)
    ensures
        out == pressed(id@, owner@),
{
    let i = chars_of(id);
    if equal(&i, &chars_of(button_id(owner, "next").as_str())) {
        Some(Press::Next)
    } else if equal(&i, &chars_of(button_id(owner, "prev").as_str())) {
        Some(Press::Prev)
    } else if equal(&i, &chars_of(button_id(owner, "first").as_str())) {
        Some(Press::First)
    } else if equal(&i, &chars_of(button_id(owner, "last").as_str())) {
        Some(Press::Last)
    } else {
        None
    }
}

} // verus!
