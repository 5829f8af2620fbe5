//! Character sequences: searching, replacing, splitting and trimming.
//!
//! Text is handled as a vector of characters, whose view is the sequence
//! that the contracts speak of.

use vstd::prelude::*;

verus! {

/// The characters of a string slice, in order.
pub fn chars_of(s: &str) -> (out: Vec<char>)
    ensures
        out@ == s@,
{
    let mut out: Vec<char> = Vec::new();
    for c in it: s.chars()
        invariant
            out@ == it.seq().take(it.index() as int),
            it.seq() == s@,
    {
        out.push(c);
    }
    out
}

/// Collects characters into a `String` with `String::from_iter`: the string
/// holds exactly the given characters, in the same order.
#[verifier::external_body]
pub(crate) fn string_of(chars: &Vec<char>) -> (out: String)
    ensures
        out@ == chars@,
{
    chars.iter().collect()
}

/// `pat` stands in `s` at index `i`.
pub open spec fn occurs_at(s: Seq<char>, pat: Seq<char>, i: int) -> bool {
    &&& 0 <= i
    &&& i + pat.len() <= s.len()
    &&& s.subrange(i, i + pat.len()) == pat
}

/// `pat` stands somewhere in `s`.
pub open spec fn contains(s: Seq<char>, pat: Seq<char>) -> bool {
    exists|i: int| occurs_at(s, pat, i)
}

/// `pat` stands in `s` at index `i` and nowhere before it.
pub open spec fn first_at(s: Seq<char>, pat: Seq<char>, i: int) -> bool {
    &&& occurs_at(s, pat, i)
    &&& forall|j: int| 0 <= j < i ==> !occurs_at(s, pat, j)
}

/// The index at which `pat` first stands in `s`, if it stands in it at all.
pub open spec fn position(s: Seq<char>, pat: Seq<char>) -> Option<int> {
    if contains(s, pat) {
        Some(choose|i: int| first_at(s, pat, i))
    } else {
        None
    }
}

/// A first occurrence is the one that `position` names.
pub proof fn lemma_position_is(s: Seq<char>, pat: Seq<char>, i: int)
    requires
        first_at(s, pat, i),
    ensures
        position(s, pat) == Some(i),
{
    assert(occurs_at(s, pat, i));
    let k = choose|k: int| first_at(s, pat, k);
    assert(first_at(s, pat, k));
    if k < i {
        assert(!occurs_at(s, pat, k));
    }
    if i < k {
        assert(!occurs_at(s, pat, i));
    }
}

/// Where nothing occurs, `position` names nothing.
pub proof fn lemma_position_none(s: Seq<char>, pat: Seq<char>)
    requires
        forall|j: int| 0 <= j <= s.len() ==> !occurs_at(s, pat, j),
    ensures
        position(s, pat) is None,
        !contains(s, pat),
{
    if contains(s, pat) {
        let i = choose|i: int| occurs_at(s, pat, i);
        assert(occurs_at(s, pat, i));
        assert(0 <= i <= s.len());
    }
}

/// What `position` names is a first occurrence.
pub proof fn lemma_position_some(s: Seq<char>, pat: Seq<char>)
    requires
        contains(s, pat),
    ensures
        position(s, pat) is Some,
        first_at(s, pat, position(s, pat)->0),
        0 <= position(s, pat)->0,
        position(s, pat)->0 + pat.len() <= s.len(),
{
    let w = choose|i: int| occurs_at(s, pat, i);
    lemma_first_exists(s, pat, w);
}

proof fn lemma_first_exists(s: Seq<char>, pat: Seq<char>, w: int)
    requires
        occurs_at(s, pat, w),
    ensures
        exists|i: int| first_at(s, pat, i),
    decreases w,
{
    if forall|j: int| 0 <= j < w ==> !occurs_at(s, pat, j) {
        assert(first_at(s, pat, w));
    } else {
        let j = choose|j: int| 0 <= j < w && occurs_at(s, pat, j);
        lemma_first_exists(s, pat, j);
    }
}

/// Tells whether `pat` stands in `s` at index `i`.
pub fn matches_at(s: &Vec<char>, pat: &Vec<char>, i: usize) -> (b: bool)
    ensures
        b == occurs_at(s@, pat@, i as int),
{
    if pat.len() > s.len() || i > s.len() - pat.len() {
        return false;
    }
    let mut k: usize = 0;
    while k < pat.len()
        invariant
            k <= pat.len(),
            i + pat.len() <= s.len(),
            forall|j: int| 0 <= j < k ==> s@[i + j] == pat@[j],
        decreases pat.len() - k,
    {
        if s[i + k] != pat[k] {
            proof {
                let sub = s@.subrange(i as int, i + pat.len());
                assert(sub[k as int] == s@[i + k]);
            }
            return false;
        }
        k += 1;
    }
    assert(s@.subrange(i as int, i + pat.len()) =~= pat@);
    true
}

/// The index at or after `from` at which `pat` first stands in `s`.
pub fn find_from(s: &Vec<char>, pat: &Vec<char>, from: usize) -> (r: Option<usize>)
    ensures
        match r {
            Some(i) => from <= i && occurs_at(s@, pat@, i as int) && forall|j: int|
                from <= j < i ==> !occurs_at(s@, pat@, j),
            None => forall|j: int| from <= j ==> !occurs_at(s@, pat@, j),
        },
{
    if pat.len() > s.len() || from > s.len() - pat.len() {
        return None;
    }
    let last: usize = s.len() - pat.len();
    let mut i: usize = from;
    loop
        invariant
            from <= i <= last,
            last == s.len() - pat.len(),
            forall|j: int| from <= j < i ==> !occurs_at(s@, pat@, j),
        decreases last - i,
    {
        if matches_at(s, pat, i) {
            return Some(i);
        }
        if i == last {
            return None;
        }
        i += 1;
    }
}

/// The index at which `pat` first stands in `s`.
pub fn find(s: &Vec<char>, pat: &Vec<char>) -> (r: Option<usize>)
    ensures
        match r {
            Some(i) => position(s@, pat@) == Some(i as int),
            None => position(s@, pat@) is None,
        },
{
    let r = find_from(s, pat, 0);
    proof {
        match r {
            Some(i) => {
                lemma_position_is(s@, pat@, i as int);
            },
            None => {
                lemma_position_none(s@, pat@);
            },
        }
    }
    r
}

/// Tells whether `pat` stands somewhere in `s`.
pub fn has(s: &Vec<char>, pat: &Vec<char>) -> (b: bool)
    ensures
        b == contains(s@, pat@),
{
    find(s, pat).is_some()
}

/// A copy of the characters of `s` from index `from` up to, not including, `to`.
pub fn slice(s: &Vec<char>, from: usize, to: usize) -> (out: Vec<char>)
    requires
        from <= to <= s.len(),
    ensures
        out@ == s@.subrange(from as int, to as int),
{
    let mut out: Vec<char> = Vec::new();
    let mut i: usize = from;
    while i < to
        invariant
            from <= i <= to <= s.len(),
            out@ == s@.subrange(from as int, i as int),
        decreases to - i,
    {
        out.push(s[i]);
        i += 1;
    }
    out
}

/// Appends the characters of `more` to `out`.
pub fn push_all(out: &mut Vec<char>, more: &Vec<char>)
    ensures
        final(out)@ == old(out)@ + more@,
{
    let mut i: usize = 0;
    while i < more.len()
        invariant
            i <= more.len(),
            out@ == old(out)@ + more@.take(i as int),
        decreases more.len() - i,
    {
        out.push(more[i]);
        i += 1;
    }
    assert(more@.take(more.len() as int) == more@);
}

/// Appends the characters of a string slice to `out`.
pub fn push_str(out: &mut Vec<char>, more: &str)
    ensures
        final(out)@ == old(out)@ + more@,
{
    let v = chars_of(more);
    push_all(out, &v);
}

/// `s` cut at the first occurrence of `pat`: what stands before it and what
/// stands after it.
pub open spec fn cut(s: Seq<char>, pat: Seq<char>) -> Option<(Seq<char>, Seq<char>)> {
    match position(s, pat) {
        Some(i) => Some((s.take(i), s.skip(i + pat.len()))),
        None => None,
    }
}

/// The parts of `s` between the occurrences of `sep`, found from left to
/// right without overlap. A text without `sep` is its own single part.
pub open spec fn split(s: Seq<char>, sep: Seq<char>) -> Seq<Seq<char>>
    decreases s.len(),
{
    match cut(s, sep) {
        Some((head, rest)) => if rest.len() < s.len() {
            seq![head] + split(rest, sep)
        } else {
            seq![s]
        },
        None => seq![s],
    }
}

/// `s` with every occurrence of `pat`, found from left to right without
/// overlap, replaced by `to`.
pub open spec fn replaced(s: Seq<char>, pat: Seq<char>, to: Seq<char>) -> Seq<char>
    decreases s.len(),
{
    match cut(s, pat) {
        Some((head, rest)) => if rest.len() < s.len() {
            head + to + replaced(rest, pat, to)
        } else {
            s
        },
        None => s,
    }
}

/// The parts written one after another with `sep` between neighbours.
pub open spec fn joined(parts: Seq<Seq<char>>, sep: Seq<char>) -> Seq<char>
    decreases parts.len(),
{
    if parts.len() == 0 {
        Seq::empty()
    } else if parts.len() == 1 {
        parts[0]
    } else {
        joined(parts.drop_last(), sep) + sep + parts.last()
    }
}

/// An occurrence in a suffix is an occurrence in the whole, shifted.
pub proof fn lemma_occurs_shift(s: Seq<char>, pat: Seq<char>, k: int, j: int)
    requires
        0 <= k <= s.len(),
        0 <= j,
    ensures
        occurs_at(s.skip(k), pat, j) == occurs_at(s, pat, j + k),
{
    if j + pat.len() <= s.len() - k {
        assert(s.skip(k).subrange(j, j + pat.len()) =~= s.subrange(j + k, j + k + pat.len()));
    }
}

/// A search from `start` that finds `pat` at `i` cuts the suffix there.
pub proof fn lemma_cut_found(s: Seq<char>, pat: Seq<char>, start: int, i: int)
    requires
        0 <= start <= i,
        occurs_at(s, pat, i),
        forall|j: int| start <= j < i ==> !occurs_at(s, pat, j),
    ensures
        cut(s.skip(start), pat) == Some((s.subrange(start, i), s.skip(i + pat.len()))),
{
    let t = s.skip(start);
    lemma_occurs_shift(s, pat, start, i - start);
    assert forall|j: int| 0 <= j < i - start implies !occurs_at(t, pat, j) by {
        lemma_occurs_shift(s, pat, start, j);
    }
    lemma_position_is(t, pat, i - start);
    assert(t.take(i - start) =~= s.subrange(start, i));
    assert(t.skip(i - start + pat.len()) =~= s.skip(i + pat.len()));
}

/// A search from `start` that finds nothing leaves the suffix uncut.
pub proof fn lemma_cut_missing(s: Seq<char>, pat: Seq<char>, start: int)
    requires
        0 <= start <= s.len(),
        forall|j: int| start <= j ==> !occurs_at(s, pat, j),
    ensures
        cut(s.skip(start), pat) is None,
{
    let t = s.skip(start);
    assert forall|j: int| 0 <= j <= t.len() implies !occurs_at(t, pat, j) by {
        lemma_occurs_shift(s, pat, start, j);
    }
    lemma_position_none(t, pat);
}

/// A text always splits into at least one part.
pub proof fn lemma_split_some(s: Seq<char>, sep: Seq<char>)
    ensures
        split(s, sep).len() >= 1,
    decreases s.len(),
{
    match cut(s, sep) {
        Some((head, rest)) => {
            if rest.len() < s.len() {
                lemma_split_some(rest, sep);
            }
        },
        None => {},
    }
}

/// Joining after a first part joins that part on in front.
pub proof fn lemma_join_front(head: Seq<char>, parts: Seq<Seq<char>>, sep: Seq<char>)
    requires
        parts.len() >= 1,
    ensures
        joined(seq![head] + parts, sep) == head + sep + joined(parts, sep),
    decreases parts.len(),
{
    let all = seq![head] + parts;
    assert(all.drop_last() =~= seq![head] + parts.drop_last());
    assert(all.last() == parts.last());
    if parts.len() == 1 {
        assert(all.drop_last() =~= seq![head]);
        assert(joined(all.drop_last(), sep) == head);
    } else {
        lemma_join_front(head, parts.drop_last(), sep);
        assert(joined(all, sep) =~= head + sep + joined(parts, sep));
    }
}

/// To replace a pattern is to split at it and to join the parts with what
/// replaces it.
pub proof fn lemma_replace_is_split_join(s: Seq<char>, pat: Seq<char>, to: Seq<char>)
    ensures
        replaced(s, pat, to) == joined(split(s, pat), to),
    decreases s.len(),
{
    match cut(s, pat) {
        Some((head, rest)) => {
            if rest.len() < s.len() {
                lemma_replace_is_split_join(rest, pat, to);
                lemma_split_some(rest, pat);
                lemma_join_front(head, split(rest, pat), to);
            }
        },
        None => {},
    }
}

/// A text splits into more than one part exactly where the separator,
/// which is not empty, stands in it.
pub proof fn lemma_split_many(s: Seq<char>, sep: Seq<char>)
    requires
        sep.len() > 0,
    ensures
        split(s, sep).len() >= 2 <==> contains(s, sep),
{
    if contains(s, sep) {
        lemma_position_some(s, sep);
        let (_, rest) = cut(s, sep)->Some_0;
        lemma_split_some(rest, sep);
    }
}

/// Cuts `s` at the first occurrence of `pat`.
pub fn cut_at(s: &Vec<char>, pat: &Vec<char>) -> (r: Option<(Vec<char>, Vec<char>)>)
    ensures
        match r {
            Some((head, rest)) => cut(s@, pat@) == Some((head@, rest@)),
            None => cut(s@, pat@) is None,
        },
{
    match find_from(s, pat, 0) {
        Some(i) => {
            let head = slice(s, 0, i);
            let rest = slice(s, i + pat.len(), s.len());
            proof {
                lemma_cut_found(s@, pat@, 0, i as int);
                assert(s@.skip(0) =~= s@);
                assert(s@.subrange(i + pat.len(), s.len() as int) =~= s@.skip(i + pat.len()));
            }
            Some((head, rest))
        },
        None => {
            proof {
                lemma_cut_missing(s@, pat@, 0);
                assert(s@.skip(0) =~= s@);
            }
            None
        },
    }
}

/// The views of the parts, in order.
pub open spec fn views(parts: Seq<Vec<char>>) -> Seq<Seq<char>> {
    parts.map_values(|p: Vec<char>| p@)
}

/// Splits `s` at the occurrences of `sep`.
pub fn split_on(s: &Vec<char>, sep: &Vec<char>) -> (parts: Vec<Vec<char>>)
    ensures
        views(parts@) == split(s@, sep@),
        parts.len() >= 1,
{
    let mut parts: Vec<Vec<char>> = Vec::new();
    if sep.len() == 0 {
        proof {
            if cut(s@, sep@) is Some {
                lemma_position_some(s@, sep@);
                assert(occurs_at(s@, sep@, 0)) by {
                    assert(s@.subrange(0, 0) =~= sep@);
                }
                assert(position(s@, sep@)->0 == 0);
                assert(s@.skip(0) =~= s@);
            }
        }
        parts.push(slice(s, 0, s.len()));
        proof {
            assert(s@.subrange(0, s.len() as int) =~= s@);
            assert(views(parts@) =~= seq![s@]);
        }
        return parts;
    }
    let mut start: usize = 0;
    proof {
        assert(s@.skip(0) =~= s@);
        assert(views(parts@) =~= Seq::<Seq<char>>::empty());
    }
    loop
        invariant
            start <= s.len(),
            sep.len() > 0,
            views(parts@) + split(s@.skip(start as int), sep@) == split(s@, sep@),
        decreases s.len() - start,
    {
        let ghost before = views(parts@);
        match find_from(s, sep, start) {
            Some(i) => {
                parts.push(slice(s, start, i));
                proof {
                    lemma_cut_found(s@, sep@, start as int, i as int);
                    assert(views(parts@) =~= before + seq![s@.subrange(start as int, i as int)]);
                }
                start = i + sep.len();
            },
            None => {
                parts.push(slice(s, start, s.len()));
                proof {
                    lemma_cut_missing(s@, sep@, start as int);
                    assert(s@.subrange(start as int, s.len() as int) =~= s@.skip(start as int));
                    assert(views(parts@) =~= before + seq![s@.skip(start as int)]);
                }
                return parts;
            },
        }
    }
}

/// Replaces every occurrence of `pat` in `s` by `to`.
pub fn replace(s: &Vec<char>, pat: &Vec<char>, to: &Vec<char>) -> (out: Vec<char>)
    ensures
        out@ == replaced(s@, pat@, to@),
{
    if pat.len() == 0 {
        proof {
            if cut(s@, pat@) is Some {
                lemma_position_some(s@, pat@);
                assert(occurs_at(s@, pat@, 0)) by {
                    assert(s@.subrange(0, 0) =~= pat@);
                }
                assert(position(s@, pat@)->0 == 0);
                assert(s@.skip(0) =~= s@);
            }
            assert(s@.subrange(0, s.len() as int) =~= s@);
        }
        return slice(s, 0, s.len());
    }
    let mut out: Vec<char> = Vec::new();
    let mut start: usize = 0;
    proof {
        assert(s@.skip(0) =~= s@);
    }
    loop
        invariant
            start <= s.len(),
            pat.len() > 0,
            out@ + replaced(s@.skip(start as int), pat@, to@) == replaced(s@, pat@, to@),
        decreases s.len() - start,
    {
        let ghost before = out@;
        match find_from(s, pat, start) {
            Some(i) => {
                let head = slice(s, start, i);
                push_all(&mut out, &head);
                push_all(&mut out, to);
                proof {
                    lemma_cut_found(s@, pat@, start as int, i as int);
                    let rest = s@.skip(i + pat.len());
                    assert(out@ + replaced(rest, pat@, to@) =~= before + (head@ + to@ + replaced(
                        rest,
                        pat@,
                        to@,
                    )));
                }
                start = i + pat.len();
            },
            None => {
                let tail = slice(s, start, s.len());
                push_all(&mut out, &tail);
                proof {
                    lemma_cut_missing(s@, pat@, start as int);
                    assert(s@.subrange(start as int, s.len() as int) =~= s@.skip(start as int));
                }
                return out;
            },
        }
    }
}

/// Writes the parts one after another with `sep` between neighbours.
pub fn join(parts: &Vec<Vec<char>>, sep: &Vec<char>) -> (out: Vec<char>)
    ensures
        out@ == joined(views(parts@), sep@),
{
    let mut out: Vec<char> = Vec::new();
    let mut i: usize = 0;
    while i < parts.len()
        invariant
            i <= parts.len(),
            out@ == joined(views(parts@).take(i as int), sep@),
        decreases parts.len() - i,
    {
        proof {
            let next = views(parts@).take(i + 1);
            assert(next.drop_last() =~= views(parts@).take(i as int));
            assert(next.last() == parts@[i as int]@);
        }
        if i > 0 {
            push_all(&mut out, sep);
        }
        push_all(&mut out, &parts[i]);
        i += 1;
    }
    assert(views(parts@).take(parts.len() as int) =~= views(parts@));
    out
}

/// The characters that Unicode gives the property `White_Space`.
pub open spec fn is_space(c: char) -> bool {
    let n = c as u32;
    ||| 0x09 <= n <= 0x0D
    ||| n == 0x20
    ||| n == 0x85
    ||| n == 0xA0
    ||| n == 0x1680
    ||| 0x2000 <= n <= 0x200A
    ||| n == 0x2028
    ||| n == 0x2029
    ||| n == 0x202F
    ||| n == 0x205F
    ||| n == 0x3000
}

/// `s` without the white space at its start.
pub open spec fn trimmed_start(s: Seq<char>) -> Seq<char>
    decreases s.len(),
{
    if s.len() > 0 && is_space(s[0]) {
        trimmed_start(s.skip(1))
    } else {
        s
    }
}

/// `s` without the white space at its end.
pub open spec fn trimmed_end(s: Seq<char>) -> Seq<char>
    decreases s.len(),
{
    if s.len() > 0 && is_space(s.last()) {
        trimmed_end(s.drop_last())
    } else {
        s
    }
}

/// `s` without the white space at its start and at its end.
pub open spec fn trimmed(s: Seq<char>) -> Seq<char> {
    trimmed_end(trimmed_start(s))
}

/// What is left of a text without the white space at its start does not
/// start with white space.
pub proof fn lemma_trimmed_start(s: Seq<char>)
    ensures
        trimmed_start(s).len() > 0 ==> !is_space(trimmed_start(s)[0]),
        trimmed_start(s).len() <= s.len(),
    decreases s.len(),
{
    if s.len() > 0 && is_space(s[0]) {
        lemma_trimmed_start(s.skip(1));
    }
}

/// What is left of a text without the white space at its end does not end
/// in white space, and starts as the text does.
pub proof fn lemma_trimmed_end(s: Seq<char>)
    ensures
        trimmed_end(s).len() > 0 ==> !is_space(trimmed_end(s).last()),
        trimmed_end(s).len() <= s.len(),
        trimmed_end(s).len() > 0 ==> trimmed_end(s)[0] == s[0],
    decreases s.len(),
{
    if s.len() > 0 && is_space(s.last()) {
        lemma_trimmed_end(s.drop_last());
    }
}

/// A trimmed text neither starts nor ends with white space, so that to trim
/// it again changes nothing.
pub proof fn lemma_trimmed(s: Seq<char>)
    ensures
        trimmed(s).len() > 0 ==> !is_space(trimmed(s)[0]) && !is_space(trimmed(s).last()),
        trimmed(trimmed(s)) == trimmed(s),
{
    lemma_trimmed_start(s);
    lemma_trimmed_end(trimmed_start(s));
}

/// Tells whether a character is white space.
pub fn space(c: char) -> (b: bool)
    ensures
        b == is_space(c),
{
    let n: u32 = c as u32;
    (0x09 <= n && n <= 0x0D) || n == 0x20 || n == 0x85 || n == 0xA0 || n == 0x1680 || (0x2000 <= n
        && n <= 0x200A) || n == 0x2028 || n == 0x2029 || n == 0x202F || n == 0x205F || n == 0x3000
}

/// Removes the white space at both ends of `s`.
pub fn trim(s: &Vec<char>) -> (out: Vec<char>)
    ensures
        out@ == trimmed(s@),
{
    let mut a: usize = 0;
    proof {
        assert(s@.skip(0) =~= s@);
    }
    while a < s.len() && space(s[a])
        invariant
            a <= s.len(),
            trimmed_start(s@) == trimmed_start(s@.skip(a as int)),
        decreases s.len() - a,
    {
        proof {
            assert(s@.skip(a as int).skip(1) =~= s@.skip(a + 1));
        }
        a += 1;
    }
    let mut b: usize = s.len();
    proof {
        assert(s@.subrange(a as int, b as int) =~= s@.skip(a as int));
    }
    while b > a && space(s[b - 1])
        invariant
            a <= b <= s.len(),
            trimmed(s@) == trimmed_end(s@.subrange(a as int, b as int)),
        decreases b,
    {
        proof {
            assert(s@.subrange(a as int, b as int).drop_last() =~= s@.subrange(
                a as int,
                b - 1,
            ));
        }
        b -= 1;
    }
    slice(s, a, b)
}

/// What stands in `s` before the first occurrence of `pat`; all of `s` where
/// `pat` does not occur.
pub open spec fn head_before(s: Seq<char>, pat: Seq<char>) -> Seq<char> {
    match cut(s, pat) {
        Some((head, _)) => head,
        None => s,
    }
}

/// Copies what stands in `s` before the first occurrence of `pat`.
pub fn before(s: &Vec<char>, pat: &Vec<char>) -> (out: Vec<char>)
    ensures
        out@ == head_before(s@, pat@),
{
    match cut_at(s, pat) {
        Some((head, _)) => head,
        None => {
            assert(s@.subrange(0, s.len() as int) =~= s@);
            slice(s, 0, s.len())
        },
    }
}

/// The view of a string that may be absent, or the empty text.
pub fn chars_or_empty(o: &Option<String>) -> (out: Vec<char>)
    ensures
        out@ == match *o {
            Some(s) => s@,
            None => Seq::<char>::empty(),
        },
{
    match o {
        Some(s) => chars_of(s.as_str()),
        None => Vec::new(),
    }
}

/// Tells whether two texts hold the same characters.
pub fn equal(a: &Vec<char>, b: &Vec<char>) -> (r: bool)
    ensures
        r == (a@ == b@),
{
    if a.len() != b.len() {
        return false;
    }
    let r = matches_at(a, b, 0);
    proof {
        assert(a@.subrange(0, a.len() as int) =~= a@);
    }
    r
}

/// Tells whether a text holds the characters of a string slice.
pub fn is_text(a: &Vec<char>, b: &str) -> (r: bool)
    ensures
        r == (a@ == b@),
{
    equal(a, &chars_of(b))
}

/// The first `n` characters of `s`, or all of `s` where it has fewer.
pub fn prefix(s: &Vec<char>, n: usize) -> (out: Vec<char>)
    ensures
        out@ == if s.len() > n {
            s@.take(n as int)
        } else {
            s@
        },
{
    if s.len() > n {
        slice(s, 0, n)
    } else {
        assert(s@.subrange(0, s.len() as int) =~= s@);
        slice(s, 0, s.len())
    }
}

/// `s` in lower case, as `str::to_lowercase` writes it.
pub uninterp spec fn lowercased(s: Seq<char>) -> Seq<char>;

/// Calls `str::to_lowercase`. The contract only names the result: the same
/// text always has the same lower case.
#[verifier::external_body]
pub(crate) fn lowercase(s: &str) -> (out: String)
    ensures
        out@ == lowercased(s@),
{
    s.to_lowercase()
}

} // verus!
