//! Display forms of counts and durations.

use vstd::prelude::*;
use crate::binary::{
    binary_scaled, binary_whole, hold_scaled, hold_whole, lemma_binary_scaled_bounds,
    lemma_binary_scaled_monotonic, lemma_binary_whole_bounds, lemma_binary_whole_fits,
    lemma_binary_whole_monotonic, TWO_53,
};
use crate::text::{chars_of, string_of};

verus! {

/// The character for a decimal digit.
pub open spec fn digit(d: nat) -> char {
    ((48 + d) as u8) as char
}

/// Whether a character is one of `0` to `9`.
pub open spec fn is_digit(c: char) -> bool {
    48 <= c as u32 <= 57
}

/// The value of a decimal digit.
pub open spec fn digit_value(c: char) -> nat {
    (c as u32 - 48) as nat
}

/// A natural number in decimal, without leading zeros.
pub open spec fn decimal(n: nat) -> Seq<char>
    decreases n,
{
    if n < 10 {
        seq![digit(n)]
    } else {
        decimal(n / 10).push(digit(n % 10))
    }
}

/// Whether every character is a decimal digit.
pub open spec fn all_digits(s: Seq<char>) -> bool {
    forall|i: int| 0 <= i < s.len() ==> is_digit(#[trigger] s[i])
}

/// The number that a sequence of decimal digits writes.
pub open spec fn number_of(s: Seq<char>) -> nat
    decreases s.len(),
{
    if s.len() == 0 {
        0
    } else {
        number_of(s.drop_last()) * 10 + digit_value(s.last())
    }
}

/// `s` without the occurrences of the character `c`.
pub open spec fn without(s: Seq<char>, c: char) -> Seq<char>
    decreases s.len(),
{
    if s.len() == 0 {
        Seq::empty()
    } else if s.last() == c {
        without(s.drop_last(), c)
    } else {
        without(s.drop_last(), c).push(s.last())
    }
}

/// The character for a decimal digit.
pub fn digit_of(d: u8) -> (c: char)
    requires
        d < 10,
    ensures
        c == digit(d as nat),
{
    (48 + d) as char
}

/// Appends `n` in decimal to `out`.
pub fn push_decimal(out: &mut Vec<char>, n: u64)
    ensures
        final(out)@ == old(out)@ + decimal(n as nat),
    decreases n,
{
    if n >= 10 {
        push_decimal(out, n / 10);
    }
    out.push(digit_of((n % 10) as u8));
    proof {
        if n >= 10 {
            assert(final(out)@ =~= old(out)@ + decimal(n as nat / 10).push(digit(n as nat % 10)));
        } else {
            assert(final(out)@ =~= old(out)@ + seq![digit(n as nat)]);
        }
    }
}

/// The number that a prefix writes is no greater than the whole number.
pub proof fn lemma_prefix_number(s: Seq<char>, i: int)
    requires
        0 <= i <= s.len(),
    ensures
        number_of(s.take(i)) <= number_of(s),
    decreases s.len() - i,
{
    if i < s.len() {
        lemma_prefix_number(s, i + 1);
        assert(s.take(i + 1).drop_last() =~= s.take(i));
        assert(number_of(s.take(i)) <= number_of(s.take(i)) * 10) by (nonlinear_arith);
    } else {
        assert(s.take(i) =~= s);
    }
}

/// Reads a number written in decimal digits. The text is a number where it
/// is not empty, holds digits only and writes a value that fits.
pub fn parse_number(s: &Vec<char>) -> (r: Option<u64>)
    ensures
        r is Some <==> s.len() > 0 && all_digits(s@) && number_of(s@) <= u64::MAX,
        r is Some ==> r->0 == number_of(s@),
{
    if s.len() == 0 {
        return None;
    }
    let mut acc: u64 = 0;
    let mut i: usize = 0;
    while i < s.len()
        invariant
            i <= s.len(),
            all_digits(s@.take(i as int)),
            acc == number_of(s@.take(i as int)),
        decreases s.len() - i,
    {
        let c = s[i];
        let n: u32 = c as u32;
        if n < 48 || n > 57 {
            assert(!is_digit(s@[i as int]));
            return None;
        }
        let d: u64 = (n - 48) as u64;
        proof {
            assert(s@.take(i + 1).drop_last() =~= s@.take(i as int));
            lemma_prefix_number(s@, i + 1);
            assert forall|j: int| 0 <= j < i + 1 implies is_digit(#[trigger] s@.take(i + 1)[j]) by {
                if j < i {
                    assert(s@.take(i as int)[j] == s@[j]);
                }
            }
        }
        if acc > (u64::MAX - d) / 10 {
            assert(acc * 10 + d > u64::MAX) by (nonlinear_arith)
                requires
                    acc > (u64::MAX - d) / 10,
                    d < 10,
            ;
            return None;
        }
        assert(acc * 10 + d <= u64::MAX) by (nonlinear_arith)
            requires
                acc <= (u64::MAX - d) / 10,
                d < 10,
        ;
        acc = acc * 10 + d;
        i += 1;
    }
    assert(s@.take(s.len() as int) =~= s@);
    Some(acc)
}

/// Copies `s` without the occurrences of the character `c`.
pub fn remove_char(s: &Vec<char>, c: char) -> (out: Vec<char>)
    ensures
        out@ == without(s@, c),
{
    let mut out: Vec<char> = Vec::new();
    let mut i: usize = 0;
    while i < s.len()
        invariant
            i <= s.len(),
            out@ == without(s@.take(i as int), c),
        decreases s.len() - i,
    {
        proof {
            assert(s@.take(i + 1).drop_last() =~= s@.take(i as int));
        }
        if s[i] != c {
            out.push(s[i]);
        }
        i += 1;
    }
    assert(s@.take(s.len() as int) =~= s@);
    out
}

/// The unit in which a count is shown.
#[derive(Clone, Copy, Debug, PartialEq, Eq, Structural)]
pub enum Unit {
    /// The count itself.
    One,
    /// Thousands, written with `k`.
    Thousand,
    /// Millions, written with `m`.
    Million,
}

/// The unit in which a count is shown: millions from a million on,
/// thousands from a thousand on.
pub open spec fn count_unit(n: nat) -> Unit {
    if n >= 1_000_000 {
        Unit::Million
    } else if n >= 1_000 {
        Unit::Thousand
    } else {
        Unit::One
    }
}

/// The number that is written for a count: the count itself, or tenths of
/// thousands, or hundredths of millions. Thousands and millions are worked
/// out in binary floating point: the count is read as the nearest number of
/// 53 significant bits, divided to the nearest such number, and that
/// quotient is rounded to the nearest tenth or hundredth. Only a quotient
/// that is held exactly halfway between two goes to the even one.
pub open spec fn count_scaled(n: nat) -> nat {
    match count_unit(n) {
        Unit::Million => binary_scaled(binary_whole(n), 1_000_000, 100),
        Unit::Thousand => binary_scaled(binary_whole(n), 1_000, 10),
        Unit::One => n,
    }
}

/// The display form of a count: below a thousand the number itself; from a
/// thousand on, thousands with one decimal and `k`; from a million on,
/// millions with two decimals and `m`.
pub open spec fn count_text(n: nat) -> Seq<char> {
    let v = count_scaled(n);
    match count_unit(n) {
        Unit::Million => decimal(v / 100) + seq!['.', digit(v / 10 % 10), digit(v % 10), 'm'],
        Unit::Thousand => decimal(v / 10) + seq!['.', digit(v % 10), 'k'],
        Unit::One => decimal(v),
    }
}

/// The magnitude that the display form of a count shows.
pub open spec fn count_shown(n: nat) -> nat {
    match count_unit(n) {
        Unit::Million => count_scaled(n) * 10_000,
        Unit::Thousand => count_scaled(n) * 100,
        Unit::One => count_scaled(n),
    }
}

/// A count below two to the 53 is held as it is.
pub proof fn lemma_small_count_is_held(n: nat)
    requires
        n < TWO_53,
    ensures
        binary_whole(n) == n,
{
    lemma_binary_whole_bounds(n);
}

/// A greater count is never shown in a smaller unit, nor as a smaller
/// magnitude: the display form does not fall where the count rises, at the
/// bounds between the units either.
pub proof fn lemma_count_monotonic(a: nat, b: nat)
    requires
        a <= b,
    ensures
        count_shown(a) <= count_shown(b),
        count_unit(a) == Unit::Million ==> count_unit(b) == Unit::Million,
        count_unit(b) == Unit::One ==> count_unit(a) == Unit::One,
{
    if b >= 1_000_000 {
        lemma_small_count_is_held(1_000_000);
        lemma_binary_whole_monotonic(1_000_000, b);
        lemma_binary_scaled_bounds(binary_whole(b), 1_000_000, 100, 1);
        if a >= 1_000_000 {
            lemma_binary_whole_monotonic(a, b);
            lemma_binary_scaled_monotonic(binary_whole(a), binary_whole(b), 1_000_000, 100);
        } else if a >= 1_000 {
            lemma_small_count_is_held(a);
            lemma_binary_scaled_bounds(a, 1_000, 10, 1_000);
        }
    } else if b >= 1_000 {
        lemma_small_count_is_held(b);
        lemma_binary_scaled_bounds(b, 1_000, 10, 1);
        if a >= 1_000 {
            lemma_small_count_is_held(a);
            lemma_binary_scaled_monotonic(a, b, 1_000, 10);
        }
    }
}

/// Whether a text writes a count: decimal digits, with commas anywhere
/// among them, and a value that fits in 64 bits.
pub open spec fn is_count(s: Seq<char>) -> bool {
    let t = without(s, ',');
    t.len() > 0 && all_digits(t) && number_of(t) <= u64::MAX
}

/// The count that a text writes.
pub open spec fn count_of(s: Seq<char>) -> nat {
    number_of(without(s, ','))
}

/// A number written in decimal is made of digits, and they write the
/// number.
pub proof fn lemma_decimal_round_trip(n: nat)
    ensures
        decimal(n).len() > 0,
        all_digits(decimal(n)),
        number_of(decimal(n)) == n,
        without(decimal(n), ',') == decimal(n),
    decreases n,
{
    let d = decimal(n);
    if n < 10 {
        assert(d.drop_last() =~= Seq::<char>::empty());
        assert(number_of(d.drop_last()) == 0);
        assert(without(d.drop_last(), ',') =~= Seq::<char>::empty());
        assert(without(d, ',') =~= d);
    } else {
        lemma_decimal_round_trip(n / 10);
        assert(d.drop_last() =~= decimal(n / 10));
        assert(d.last() == digit(n % 10));
        assert forall|i: int| 0 <= i < d.len() implies is_digit(#[trigger] d[i]) by {
            if i < d.len() - 1 {
                assert(d[i] == decimal(n / 10)[i]);
            }
        }
        assert(without(d, ',') =~= d);
    }
}

/// Formatting a count below a thousand that is written in decimal gives
/// back the text that went in: on such a text formatting changes nothing,
/// however often it is done. Any number that fits, written in decimal, is a
/// count and is read as itself.
pub proof fn lemma_plain_count_is_fixed(n: nat)
    requires
        n <= u64::MAX,
    ensures
        is_count(decimal(n)),
        count_of(decimal(n)) == n,
        n < 1_000 ==> count_text(count_of(decimal(n))) == decimal(n),
{
    lemma_decimal_round_trip(n);
}

/// Writes the display form of a count.
pub fn count_chars(n: u64) -> (out: Vec<char>)
    ensures
        out@ == count_text(n as nat),
{
    let mut out: Vec<char> = Vec::new();
    if n >= 1_000_000 {
        let w = hold_whole(n);
        proof {
            lemma_binary_whole_fits(n as nat);
            lemma_small_count_is_held(1_000_000);
            lemma_binary_whole_monotonic(1_000_000, n as nat);
            lemma_binary_scaled_bounds(w as nat, 1_000_000, 100, 40_000_000_000_000);
        }
        let h = hold_scaled(w, 1_000_000, 100) as u64;
        push_decimal(&mut out, h / 100);
        out.push('.');
        out.push(digit_of((h / 10 % 10) as u8));
        out.push(digit_of((h % 10) as u8));
        out.push('m');
        proof {
            let hn = h as nat;
            assert(out@ =~= decimal(hn / 100) + seq!['.', digit(hn / 10 % 10), digit(hn % 10), 'm']);
        }
    } else if n >= 1_000 {
        let w = hold_whole(n);
        proof {
            lemma_small_count_is_held(n as nat);
            lemma_binary_scaled_bounds(w as nat, 1_000, 10, 1_000);
        }
        let t = hold_scaled(w, 1_000, 10) as u64;
        push_decimal(&mut out, t / 10);
        out.push('.');
        out.push(digit_of((t % 10) as u8));
        out.push('k');
        proof {
            let tn = t as nat;
            assert(out@ =~= decimal(tn / 10) + seq!['.', digit(tn % 10), 'k']);
        }
    } else {
        push_decimal(&mut out, n);
    }
    out
}

/// Reads the count that `n` writes and gives its display form, or nothing
/// where `n` writes no count.
pub fn try_format_number(n: &str) -> (out: Option<String>)
    ensures
        out is Some <==> is_count(n@),
        out is Some ==> out->0@ == count_text(count_of(n@)),
{
    let plain = remove_char(&chars_of(n), ',');
    match parse_number(&plain) {
        Some(v) => Some(string_of(&count_chars(v))),
        None => None,
    }
}

/// Gives the display form of the count that `n` writes.
pub fn format_number(n: &str) -> (out: String)
    requires
        is_count(n@),
    ensures
        out@ == count_text(count_of(n@)),
{
    let plain = remove_char(&chars_of(n), ',');
    let v = parse_number(&plain).unwrap();
    string_of(&count_chars(v))
}

/// The display form of a duration: hours and minutes, a part of zero left
/// out, and `0m` for no time at all.
pub open spec fn duration_text(minutes: nat) -> Seq<char> {
    let h = minutes / 60;
    let m = minutes % 60;
    if h == 0 {
        decimal(m) + seq!['m']
    } else if m == 0 {
        decimal(h) + seq!['h']
    } else {
        decimal(h) + seq!['h', ' '] + decimal(m) + seq!['m']
    }
}

/// Gives the display form of a duration in minutes.
pub fn convert_duration(minutes: u32) -> (out: String)
    ensures
        out@ == duration_text(minutes as nat),
{
    let h: u32 = minutes / 60;
    let m: u32 = minutes % 60;
    let mut out: Vec<char> = Vec::new();
    if h == 0 {
        push_decimal(&mut out, m as u64);
        out.push('m');
        proof {
            assert(out@ =~= decimal(m as nat) + seq!['m']);
        }
    } else if m == 0 {
        push_decimal(&mut out, h as u64);
        out.push('h');
        proof {
            assert(out@ =~= decimal(h as nat) + seq!['h']);
        }
    } else {
        push_decimal(&mut out, h as u64);
        out.push('h');
        out.push(' ');
        push_decimal(&mut out, m as u64);
        out.push('m');
        proof {
            assert(out@ =~= decimal(h as nat) + seq!['h', ' '] + decimal(m as nat) + seq!['m']);
        }
    }
    string_of(&out)
}

} // verus!
