//! Ratings, held in hundredths of a star, and their display forms.

use vstd::prelude::*;
use crate::numbers::{
    all_digits, decimal, digit, digit_of, is_digit, number_of, parse_number, push_decimal,
};
use crate::text::{chars_of, cut, cut_at, push_str, string_of};

verus! {

/// The glyph for a whole star.
pub const WHOLE_STAR: &'static str = "<:lbstar:1061604009783341117>";

/// The glyph for half a star.
pub const HALF_STAR: &'static str = "<:lbhstar:1061603475949096991>";

/// `s` written `n` times over.
pub open spec fn repeated(s: Seq<char>, n: nat) -> Seq<char>
    decreases n,
{
    if n == 0 {
        Seq::empty()
    } else {
        repeated(s, (n - 1) as nat) + s
    }
}

/// A rating in half stars, rounded to the nearest; a rating halfway between
/// two goes up.
pub open spec fn half_stars(rating: nat) -> nat {
    (rating + 25) / 50
}

/// The glyphs for a rating: one for each whole star of the rounded rating,
/// then one for the half star if there is one.
pub open spec fn stars(rating: nat) -> Seq<char> {
    let h = half_stars(rating);
    repeated(WHOLE_STAR@, h / 2) + if h % 2 == 1 {
        HALF_STAR@
    } else {
        Seq::empty()
    }
}

/// Gives the star glyphs for a rating in hundredths of a star.
pub fn starrize(rating: u32) -> (out: String)
    ensures
        out@ == stars(rating as nat),
{
    let h: u64 = (rating as u64 + 25) / 50;
    let whole: u64 = h / 2;
    let mut out: Vec<char> = Vec::new();
    let mut i: u64 = 0;
    while i < whole
        invariant
            i <= whole,
            out@ == repeated(WHOLE_STAR@, i as nat),
        decreases whole - i,
    {
        push_str(&mut out, WHOLE_STAR);
        i += 1;
    }
    if h % 2 == 1 {
        push_str(&mut out, HALF_STAR);
    }
    proof {
        assert(out@ =~= stars(rating as nat));
    }
    string_of(&out)
}

/// The rating that a text writes, in hundredths of a star: digits, and after
/// them, if anything, a point and one or two digits.
pub open spec fn score_of(s: Seq<char>) -> Option<nat> {
    match cut(s, seq!['.']) {
        None => if s.len() > 0 && all_digits(s) {
            Some(number_of(s) * 100)
        } else {
            None
        },
        Some((whole, part)) => if whole.len() > 0 && all_digits(whole) && all_digits(part) && 1
            <= part.len() <= 2 {
            Some(
                number_of(whole) * 100 + if part.len() == 1 {
                    number_of(part) * 10
                } else {
                    number_of(part)
                },
            )
        } else {
            None
        },
    }
}

/// Reads the rating that a text writes. There is none where the text writes
/// no rating, or one too great for 32 bits.
pub fn parse_score(s: &Vec<char>) -> (r: Option<u32>)
    ensures
        r is Some <==> score_of(s@) is Some && score_of(s@)->0 <= u32::MAX,
        r is Some ==> r->0 == score_of(s@)->0,
{
    let point: Vec<char> = vec!['.'];
    assert(point@ =~= seq!['.']);
    match cut_at(s, &point) {
        None => {
            match parse_number(s) {
                Some(w) => {
                    if w <= 42_949_672 {
                        Some((w * 100) as u32)
                    } else {
                        None
                    }
                },
                None => None,
            }
        },
        Some((whole, part)) => {
            if part.len() < 1 || part.len() > 2 {
                return None;
            }
            let w = parse_number(&whole);
            let p = parse_number(&part);
            proof {
                reveal_with_fuel(number_of, 3);
                if all_digits(part@) {
                    assert(is_digit(part@[0]));
                    if part.len() == 2 {
                        assert(is_digit(part@[1]));
                        assert(part@.drop_last().len() == 1);
                        assert(part@.drop_last()[0] == part@[0]);
                    }
                    assert(number_of(part@) <= 99);
                }
            }
            match (w, p) {
                (Some(w), Some(p)) => {
                    let f: u64 = if part.len() == 1 {
                        p * 10
                    } else {
                        p
                    };
                    if w <= 42_949_672 && w * 100 + f <= 4_294_967_295 {
                        Some((w * 100 + f) as u32)
                    } else {
                        None
                    }
                },
                _ => None,
            }
        },
    }
}

/// A rating written out: the whole stars, a point, and one decimal, or two
/// where the second is not zero.
pub open spec fn score_text(r: nat) -> Seq<char> {
    let w = r / 100;
    let f = r % 100;
    if f % 10 == 0 {
        decimal(w) + seq!['.', digit(f / 10)]
    } else {
        decimal(w) + seq!['.', digit(f / 10), digit(f % 10)]
    }
}

/// The line that shows a rating: its stars, a space, and the rating written
/// out.
pub open spec fn rating_line(r: nat) -> Seq<char> {
    stars(r) + seq![' '] + score_text(r)
}

/// Writes the line that shows a rating in hundredths of a star.
pub fn rating_text(rating: u32) -> (out: String)
    ensures
        out@ == rating_line(rating as nat),
{
    let mut out: Vec<char> = chars_of(starrize(rating).as_str());
    out.push(' ');
    let w: u32 = rating / 100;
    let f: u32 = rating % 100;
    push_decimal(&mut out, w as u64);
    out.push('.');
    out.push(digit_of((f / 10) as u8));
    if f % 10 != 0 {
        out.push(digit_of((f % 10) as u8));
    }
    proof {
        assert(out@ =~= rating_line(rating as nat));
    }
    string_of(&out)
}

} // verus!
