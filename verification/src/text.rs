//! Text as sequences of characters.
//!
//! Every rule of the library that reads or builds text is stated over
//! `Seq<char>`. The functions here are the executable counterparts of those
//! statements, working on `Vec<char>`, together with the two conversions from
//! and to Rust strings.

use vstd::prelude::*;

verus! {

/// `String::push` of std: the string grows by exactly the given character.
#[verifier::external_body]
fn push_char(s: &mut String, c: char)
    ensures
        final(s)@ == old(s)@.push(c),
{
    s.push(c);
}

/// The characters of `s`, in order.
pub fn chars_of(s: &str) -> (v: Vec<char>)
    ensures
        v@ == s@,
{
    broadcast use vstd::string::axiom_spec_iter;

    let mut v: Vec<char> = Vec::new();
    for c in it: s.chars()
        invariant
            it.seq() == s@,
            v@ == s@.take(it.index()),
    {
        v.push(c);
    }
    v
}

/// The string made of the characters of `v`, in order.
pub fn string_of(v: &Vec<char>) -> (s: String)
    ensures
        s@ == v@,
{
    let mut s = String::new();
    let mut i: usize = 0;
    while i < v.len()
        invariant
            i <= v.len(),
            s@ == v@.take(i as int),
        decreases v.len() - i,
    {
        push_char(&mut s, v[i]);
        i += 1;
    }
    s
}

/// `needle` stands in `hay` at position `i`.
pub open spec fn occurs_at(hay: Seq<char>, needle: Seq<char>, i: int) -> bool {
    &&& 0 <= i
    &&& i + needle.len() <= hay.len()
    &&& hay.subrange(i, i + needle.len()) == needle
}

/// `needle` stands somewhere in `hay`.
pub open spec fn contains(hay: Seq<char>, needle: Seq<char>) -> bool {
    exists|i: int| occurs_at(hay, needle, i)
}

/// The first position at or after `from` where `needle` stands in `hay`.
pub open spec fn find_from(hay: Seq<char>, needle: Seq<char>, from: int) -> Option<int>
    decreases hay.len() - from + 1,
{
    if from < 0 || from + needle.len() > hay.len() {
        None
    } else if occurs_at(hay, needle, from) {
        Some(from)
    } else {
        find_from(hay, needle, from + 1)
    }
}

/// The first position where `needle` stands in `hay`.
pub open spec fn find(hay: Seq<char>, needle: Seq<char>) -> Option<int> {
    find_from(hay, needle, 0)
}

/// `hay` begins with `prefix`.
pub open spec fn starts_with(hay: Seq<char>, prefix: Seq<char>) -> bool {
    occurs_at(hay, prefix, 0)
}

/// `hay` ends with `suffix`.
pub open spec fn ends_with(hay: Seq<char>, suffix: Seq<char>) -> bool {
    occurs_at(hay, suffix, hay.len() - suffix.len())
}

/// What `find_from` returns is the least position at or after `from` where
/// the needle stands, and it returns `None` only where there is none.
pub proof fn lemma_find_from(hay: Seq<char>, needle: Seq<char>, from: int)
    requires
        0 <= from,
    ensures
        match find_from(hay, needle, from) {
            Some(i) => from <= i && occurs_at(hay, needle, i) && forall|j: int|
                from <= j < i ==> !occurs_at(hay, needle, j),
            None => forall|j: int| from <= j ==> !occurs_at(hay, needle, j),
        },
    decreases hay.len() - from + 1,
{
    if from + needle.len() > hay.len() {
    } else if occurs_at(hay, needle, from) {
    } else {
        lemma_find_from(hay, needle, from + 1);
    }
}

/// `find` succeeds exactly where the needle is contained.
pub proof fn lemma_find_contains(hay: Seq<char>, needle: Seq<char>)
    ensures
        find(hay, needle) is Some <==> contains(hay, needle),
{
    lemma_find_from(hay, needle, 0);
    if contains(hay, needle) {
        let i = choose|i: int| occurs_at(hay, needle, i);
        assert(occurs_at(hay, needle, i));
    }
}

/// Whether `needle` stands in `hay` at position `i`.
pub fn matches_at(hay: &Vec<char>, needle: &Vec<char>, i: usize) -> (b: bool)
    ensures
        b == occurs_at(hay@, needle@, i as int),
{
    if needle.len() > hay.len() || i > hay.len() - needle.len() {
        return false;
    }
    let mut k: usize = 0;
    while k < needle.len()
        invariant
            k <= needle.len(),
            i + needle.len() <= hay.len(),
            forall|j: int| 0 <= j < k ==> hay@[i + j] == needle@[j],
        decreases needle.len() - k,
    {
        if hay[i + k] != needle[k] {
            assert(hay@.subrange(i as int, i + needle.len())[k as int] == hay@[i + k]);
            return false;
        }
        k += 1;
    }
    assert(hay@.subrange(i as int, i + needle.len()) =~= needle@);
    true
}

/// The first position at or after `from` where `needle` stands in `hay`.
pub fn find_in_from(hay: &Vec<char>, needle: &Vec<char>, from: usize) -> (r: Option<usize>)
    ensures
        match r {
            Some(i) => find_from(hay@, needle@, from as int) == Some(i as int),
            None => find_from(hay@, needle@, from as int) is None,
        },
{
    if needle.len() > hay.len() {
        return None;
    }
    let last: usize = hay.len() - needle.len();
    if from > last {
        return None;
    }
    let mut i: usize = from;
    loop
        invariant
            from <= i <= last,
            last == hay.len() - needle.len(),
            find_from(hay@, needle@, from as int) == find_from(hay@, needle@, i as int),
        decreases last - i,
    {
        if matches_at(hay, needle, i) {
            return Some(i);
        }
        if i == last {
            assert(find_from(hay@, needle@, i + 1) is None);
            return None;
        }
        i += 1;
    }
}

/// The first position where `needle` stands in `hay`.
pub fn find_in(hay: &Vec<char>, needle: &Vec<char>) -> (r: Option<usize>)
    ensures
        match r {
            Some(i) => find(hay@, needle@) == Some(i as int),
            None => find(hay@, needle@) is None,
        },
{
    find_in_from(hay, needle, 0)
}

/// Whether `needle` stands somewhere in `hay`.
pub fn has_substring(hay: &Vec<char>, needle: &Vec<char>) -> (b: bool)
    ensures
        b == contains(hay@, needle@),
{
    proof {
        lemma_find_contains(hay@, needle@);
    }
    find_in(hay, needle).is_some()
}

/// Whether `hay` begins with `prefix`.
pub fn has_prefix(hay: &Vec<char>, prefix: &Vec<char>) -> (b: bool)
    ensures
        b == starts_with(hay@, prefix@),
{
    matches_at(hay, prefix, 0)
}

/// Whether `hay` ends with `suffix`.
pub fn has_suffix(hay: &Vec<char>, suffix: &Vec<char>) -> (b: bool)
    ensures
        b == ends_with(hay@, suffix@),
{
    if suffix.len() > hay.len() {
        return false;
    }
    matches_at(hay, suffix, hay.len() - suffix.len())
}

/// A copy of the characters of `v` from `from` up to, not including, `to`.
pub fn slice_of(v: &Vec<char>, from: usize, to: usize) -> (r: Vec<char>)
    requires
        from <= to <= v.len(),
    ensures
        r@ == v@.subrange(from as int, to as int),
{
    let mut r: Vec<char> = Vec::new();
    let mut i: usize = from;
    while i < to
        invariant
            from <= i <= to,
            to <= v.len(),
            r@ == v@.subrange(from as int, i as int),
        decreases to - i,
    {
        r.push(v[i]);
        i += 1;
    }
    r
}

/// Appends the characters of `tail` to `v`.
pub fn append_chars(v: &mut Vec<char>, tail: &Vec<char>)
    ensures
        final(v)@ == old(v)@ + tail@,
{
    let mut i: usize = 0;
    while i < tail.len()
        invariant
            i <= tail.len(),
            v@ == old(v)@ + tail@.take(i as int),
        decreases tail.len() - i,
    {
        v.push(tail[i]);
        i += 1;
    }
}

/// Appends the characters of the string `tail` to `v`.
pub fn append_str(v: &mut Vec<char>, tail: &str)
    ensures
        final(v)@ == old(v)@ + tail@,
{
    let t = chars_of(tail);
    append_chars(v, &t);
}

/// Whether `c` is white space, as `char::is_whitespace` of std decides it.
pub uninterp spec fn is_whitespace(c: char) -> bool;

/// `char::is_whitespace` of std.
#[verifier::external_body]
fn char_is_whitespace(c: char) -> (b: bool)
    ensures
        b == is_whitespace(c),
{
    c.is_whitespace()
}

/// The lower-case form of `s`, as `str::to_lowercase` of std gives it.
pub uninterp spec fn lowercase(s: Seq<char>) -> Seq<char>;

/// `str::to_lowercase` of std.
#[verifier::external_body]
pub(crate) fn to_lowercase(s: &str) -> (r: String)
    ensures
        r@ == lowercase(s@),
{
    s.to_lowercase()
}

/// The first position at or after `i` that holds no white space.
pub open spec fn skip_space(s: Seq<char>, i: int) -> int
    decreases s.len() - i,
{
    if 0 <= i < s.len() && is_whitespace(s[i]) {
        skip_space(s, i + 1)
    } else {
        i
    }
}

/// The least position `k` between `lo` and `j` such that only white space
/// stands from `k` up to `j`.
pub open spec fn skip_space_back(s: Seq<char>, lo: int, j: int) -> int
    decreases j - lo,
{
    if lo < j <= s.len() && is_whitespace(s[j - 1]) {
        skip_space_back(s, lo, j - 1)
    } else {
        j
    }
}

/// `s` without its leading and trailing white space.
pub open spec fn trimmed(s: Seq<char>) -> Seq<char> {
    let a = skip_space(s, 0);
    let b = skip_space_back(s, a, s.len() as int);
    s.subrange(a, b)
}

/// `v` without its leading and trailing white space.
pub fn trim(v: &Vec<char>) -> (r: Vec<char>)
    ensures
        r@ == trimmed(v@),
{
    let mut a: usize = 0;
    while a < v.len() && char_is_whitespace(v[a])
        invariant
            a <= v.len(),
            skip_space(v@, 0) == skip_space(v@, a as int),
        decreases v.len() - a,
    {
        a += 1;
    }
    let mut b: usize = v.len();
    while b > a && char_is_whitespace(v[b - 1])
        invariant
            a <= b <= v.len(),
            skip_space_back(v@, a as int, v.len() as int) == skip_space_back(
                v@,
                a as int,
                b as int,
            ),
        decreases b - a,
    {
        b -= 1;
    }
    slice_of(v, a, b)
}

/// The first position at or after `from` that holds `c`, or the length of
/// `s` where there is none.
pub open spec fn index_of_from(s: Seq<char>, c: char, from: int) -> int
    decreases s.len() - from,
{
    if from < 0 || from >= s.len() {
        s.len() as int
    } else if s[from] == c {
        from
    } else {
        index_of_from(s, c, from + 1)
    }
}

/// The pieces of `s` from `from` on, cut at every `sep`; the separators
/// belong to no piece.
pub open spec fn split_from(s: Seq<char>, sep: char, from: int) -> Seq<Seq<char>>
    decreases s.len() - from,
{
    let e = index_of_from(s, sep, from);
    if from < 0 || from > s.len() {
        Seq::empty()
    } else if e >= s.len() || e < from {
        seq![s.subrange(from, s.len() as int)]
    } else {
        seq![s.subrange(from, e)] + split_from(s, sep, e + 1)
    }
}

/// The pieces of `s`, cut at every `sep`: one more than there are separators.
pub open spec fn split(s: Seq<char>, sep: char) -> Seq<Seq<char>> {
    split_from(s, sep, 0)
}

/// The views of the rows of `v`.
pub open spec fn rows(v: Seq<Vec<char>>) -> Seq<Seq<char>> {
    Seq::new(v.len(), |i: int| v[i]@)
}

/// The first position at or after `from` that holds `c`, or the length of
/// `v` where there is none.
pub fn position_from(v: &Vec<char>, c: char, from: usize) -> (r: usize)
    requires
        from <= v.len(),
    ensures
        r == index_of_from(v@, c, from as int),
        from <= r <= v.len(),
{
    let mut i: usize = from;
    while i < v.len() && v[i] != c
        invariant
            from <= i <= v.len(),
            index_of_from(v@, c, from as int) == index_of_from(v@, c, i as int),
        decreases v.len() - i,
    {
        i += 1;
    }
    i
}

/// The pieces of `v`, cut at every `sep`.
pub fn split_chars(v: &Vec<char>, sep: char) -> (r: Vec<Vec<char>>)
    ensures
        rows(r@) == split(v@, sep),
        r.len() >= 1,
{
    let mut out: Vec<Vec<char>> = Vec::new();
    let mut start: usize = 0;
    loop
        invariant
            start <= v.len(),
            split(v@, sep) == rows(out@) + split_from(v@, sep, start as int),
        decreases v.len() - start,
    {
        let e = position_from(v, sep, start);
        let piece = slice_of(v, start, e);
        let ghost before = rows(out@);
        out.push(piece);
        assert(rows(out@) =~= before.push(v@.subrange(start as int, e as int)));
        if e == v.len() {
            assert(rows(out@) =~= split(v@, sep));
            return out;
        }
        assert(rows(out@) + split_from(v@, sep, e + 1) =~= before + split_from(
            v@,
            sep,
            start as int,
        ));
        start = e + 1;
    }
}

/// The last position that holds `c`, if any.
pub open spec fn last_index_of(s: Seq<char>, c: char) -> Option<int>
    decreases s.len(),
{
    if s.len() == 0 {
        None
    } else if s.last() == c {
        Some(s.len() - 1)
    } else {
        last_index_of(s.drop_last(), c)
    }
}

/// The last position of `v` that holds `c`, if any.
pub fn last_position(v: &Vec<char>, c: char) -> (r: Option<usize>)
    ensures
        match r {
            Some(i) => last_index_of(v@, c) == Some(i as int) && i < v.len(),
            None => last_index_of(v@, c) is None,
        },
{
    let mut j: usize = v.len();
    assert(v@.take(j as int) =~= v@);
    while j > 0
        invariant
            j <= v.len(),
            last_index_of(v@, c) == last_index_of(v@.take(j as int), c),
        decreases j,
    {
        if v[j - 1] == c {
            return Some(j - 1);
        }
        assert(v@.take(j as int).drop_last() =~= v@.take(j - 1));
        j -= 1;
    }
    assert(v@.take(0).len() == 0);
    None
}

/// `line` without one carriage return at its end.
pub open spec fn strip_cr(line: Seq<char>) -> Seq<char> {
    if line.len() > 0 && line.last() == '\r' {
        line.drop_last()
    } else {
        line
    }
}

/// The lines of `s`: what stands between line feeds, each without the
/// carriage return that may precede its line feed. What follows the last
/// line feed is a line only where it is not empty, and it is kept as it is.
pub open spec fn lines(s: Seq<char>) -> Seq<Seq<char>> {
    let parts = split(s, '\n');
    let n = parts.len() - 1;
    let head = Seq::new(n as nat, |k: int| strip_cr(parts[k]));
    if parts[n].len() == 0 {
        head
    } else {
        head.push(parts[n])
    }
}

/// The lines of `v`.
pub fn lines_of(v: &Vec<char>) -> (r: Vec<Vec<char>>)
    ensures
        rows(r@) == lines(v@),
{
    let parts = split_chars(v, '\n');
    let n: usize = parts.len() - 1;
    let mut out: Vec<Vec<char>> = Vec::new();
    let mut k: usize = 0;
    while k < n
        invariant
            k <= n,
            n == parts.len() - 1,
            rows(parts@) == split(v@, '\n'),
            rows(out@) == Seq::new(k as nat, |i: int| strip_cr(split(v@, '\n')[i])),
        decreases n - k,
    {
        let part = &parts[k];
        assert(rows(parts@)[k as int] == part@);
        let ghost before = rows(out@);
        if part.len() > 0 && part[part.len() - 1] == '\r' {
            out.push(slice_of(part, 0, part.len() - 1));
        } else {
            out.push(slice_of(part, 0, part.len()));
            assert(part@.subrange(0, part.len() as int) =~= part@);
        }
        assert(rows(out@) =~= before.push(strip_cr(part@)));
        k += 1;
        assert(rows(out@) =~= Seq::new(k as nat, |i: int| strip_cr(split(v@, '\n')[i])));
    }
    let rest = &parts[n];
    assert(rows(parts@)[n as int] == rest@);
    if rest.len() > 0 {
        let ghost before = rows(out@);
        out.push(slice_of(rest, 0, rest.len()));
        assert(rest@.subrange(0, rest.len() as int) =~= rest@);
        assert(rows(out@) =~= before.push(rest@));
    }
    out
}

/// The rows of `v`, with `sep` between each two that follow one another.
pub open spec fn joined(v: Seq<Seq<char>>, sep: Seq<char>) -> Seq<char>
    decreases v.len(),
{
    if v.len() == 0 {
        Seq::empty()
    } else if v.len() == 1 {
        v[0]
    } else {
        joined(v.drop_last(), sep) + sep + v.last()
    }
}

/// The rows of `v`, with `sep` between each two that follow one another.
pub fn join(v: &Vec<Vec<char>>, sep: &Vec<char>) -> (r: Vec<char>)
    ensures
        r@ == joined(rows(v@), sep@),
{
    let mut r: Vec<char> = Vec::new();
    let mut k: usize = 0;
    while k < v.len()
        invariant
            k <= v.len(),
            r@ == joined(rows(v@).take(k as int), sep@),
        decreases v.len() - k,
    {
        let ghost head = rows(v@).take(k as int);
        let ghost next = rows(v@).take(k + 1);
        assert(next.drop_last() =~= head);
        assert(next.last() == v@[k as int]@);
        if k > 0 {
            append_chars(&mut r, sep);
        } else {
            assert(r@ =~= Seq::<char>::empty());
        }
        append_chars(&mut r, &v[k]);
        assert(r@ =~= joined(next, sep@));
        k += 1;
    }
    assert(rows(v@).take(v.len() as int) =~= rows(v@));
    r
}

/// Whether `c` is one of the ten decimal digits of ASCII.
pub open spec fn is_digit(c: char) -> bool {
    '0' <= c <= '9'
}

/// The value of the digit `c`.
pub open spec fn digit_value(c: char) -> nat {
    (c as nat - '0' as nat) as nat
}

/// Every character of `s` is a decimal digit of ASCII.
pub open spec fn all_digits(s: Seq<char>) -> bool {
    forall|i: int| 0 <= i < s.len() ==> is_digit(#[trigger] s[i])
}

/// The number that the digits of `s` write in base ten; 0 for no digits.
pub open spec fn number(s: Seq<char>) -> nat
    decreases s.len(),
{
    if s.len() == 0 {
        0
    } else {
        number(s.drop_last()) * 10 + digit_value(s.last())
    }
}

/// `n`, or the largest `u64` where `n` is larger than that.
pub open spec fn capped(n: nat) -> u64 {
    if n > u64::MAX {
        u64::MAX
    } else {
        n as u64
    }
}

/// Whether `c` is a decimal digit of ASCII.
pub fn is_ascii_digit(c: char) -> (b: bool)
    ensures
        b == is_digit(c),
{
    c >= '0' && c <= '9'
}

/// Reads the characters of `v` from `from` up to `to` as a number in base
/// ten. `None` unless they are one or more ASCII digits; a number too large
/// for `u64` is read as the largest `u64`.
pub fn read_number(v: &Vec<char>, from: usize, to: usize) -> (r: Option<u64>)
    requires
        from <= to <= v.len(),
    ensures
        r is Some <==> from < to && all_digits(v@.subrange(from as int, to as int)),
        r matches Some(n) ==> n == capped(number(v@.subrange(from as int, to as int))),
{
    if from == to {
        return None;
    }
    let ghost s = v@.subrange(from as int, to as int);
    let mut acc: u64 = 0;
    let mut i: usize = from;
    while i < to
        invariant
            from <= i <= to,
            to <= v.len(),
            s == v@.subrange(from as int, to as int),
            all_digits(s.take(i - from)),
            acc == capped(number(s.take(i - from))),
        decreases to - i,
    {
        let c = v[i];
        let ghost head = s.take(i - from);
        let ghost next = s.take(i + 1 - from);
        assert(next.drop_last() =~= head);
        assert(next.last() == c);
        if !is_ascii_digit(c) {
            assert(s[i - from] == c);
            return None;
        }
        let d: u64 = (c as u32 - '0' as u32) as u64;
        assert(d == digit_value(c));
        assert(number(next) == number(head) * 10 + d);
        acc = if acc > (u64::MAX - d) / 10 {
            u64::MAX
        } else {
            acc * 10 + d
        };
        i += 1;
        assert(all_digits(next)) by {
            assert forall|k: int| 0 <= k < next.len() implies is_digit(#[trigger] next[k]) by {
                if k < head.len() {
                    assert(next[k] == head[k]);
                }
            }
        }
    }
    assert(s.take(to - from) =~= s);
    Some(acc)
}

/// Whether every character of `v` from `from` on is a decimal digit.
pub fn digits_from(v: &Vec<char>, from: usize) -> (b: bool)
    requires
        from <= v.len(),
    ensures
        b == all_digits(v@.subrange(from as int, v.len() as int)),
{
    let ghost s = v@.subrange(from as int, v.len() as int);
    let mut i: usize = from;
    while i < v.len()
        invariant
            from <= i <= v.len(),
            s == v@.subrange(from as int, v.len() as int),
            all_digits(s.take(i - from)),
        decreases v.len() - i,
    {
        if !is_ascii_digit(v[i]) {
            assert(s[i - from] == v@[i as int]);
            return false;
        }
        assert forall|k: int| 0 <= k < i + 1 - from implies is_digit(
            #[trigger] s.take(i + 1 - from)[k],
        ) by {
            if k < i - from {
                assert(s.take(i - from)[k] == s[k]);
            }
        }
        i += 1;
    }
    assert(s.take(v.len() - from) =~= s);
    true
}

/// The character that writes the digit `d`.
pub open spec fn digit_char(d: nat) -> char {
    if d == 0 {
        '0'
    } else if d == 1 {
        '1'
    } else if d == 2 {
        '2'
    } else if d == 3 {
        '3'
    } else if d == 4 {
        '4'
    } else if d == 5 {
        '5'
    } else if d == 6 {
        '6'
    } else if d == 7 {
        '7'
    } else if d == 8 {
        '8'
    } else {
        '9'
    }
}

/// `n` written in base ten, without leading zeros.
pub open spec fn decimal(n: nat) -> Seq<char>
    decreases n,
{
    if n < 10 {
        seq![digit_char(n)]
    } else {
        decimal(n / 10).push(digit_char(n % 10))
    }
}

/// `n` written in base ten with at least two digits.
pub open spec fn two_digits(n: nat) -> Seq<char> {
    if n < 10 {
        seq!['0', digit_char(n)]
    } else {
        decimal(n)
    }
}

/// The character that writes the digit `d`.
pub fn digit_to_char(d: u64) -> (c: char)
    requires
        d < 10,
    ensures
        c == digit_char(d as nat),
{
    if d == 0 {
        '0'
    } else if d == 1 {
        '1'
    } else if d == 2 {
        '2'
    } else if d == 3 {
        '3'
    } else if d == 4 {
        '4'
    } else if d == 5 {
        '5'
    } else if d == 6 {
        '6'
    } else if d == 7 {
        '7'
    } else if d == 8 {
        '8'
    } else {
        '9'
    }
}

/// Appends `n`, written in base ten, to `v`.
pub fn append_decimal(v: &mut Vec<char>, n: u64)
    ensures
        final(v)@ == old(v)@ + decimal(n as nat),
    decreases n,
{
    if n >= 10 {
        append_decimal(v, n / 10);
    }
    v.push(digit_to_char(n % 10));
}

/// Appends `n`, written in base ten with at least two digits, to `v`.
pub fn append_two_digits(v: &mut Vec<char>, n: u64)
    ensures
        final(v)@ == old(v)@ + two_digits(n as nat),
{
    if n < 10 {
        v.push('0');
    }
    append_decimal(v, n);
}

/// Appends the string `arg` to the list `args`.
pub fn push_text(args: &mut Vec<String>, arg: &str)
    ensures
        final(args).deep_view() == old(args).deep_view().push(arg@),
{
    let owned = arg.to_owned();
    args.push(owned);
    assert(args.deep_view() =~= old(args).deep_view().push(arg@));
}

/// Appends the string made of `arg` to the list `args`.
pub fn push_chars(args: &mut Vec<String>, arg: &Vec<char>)
    ensures
        final(args).deep_view() == old(args).deep_view().push(arg@),
{
    let owned = string_of(arg);
    args.push(owned);
    assert(args.deep_view() =~= old(args).deep_view().push(arg@));
}

/// `head` followed by `tail`.
pub fn conjoin(head: &str, tail: &str) -> (r: String)
    ensures
        r@ == head@ + tail@,
{
    let mut v = chars_of(head);
    append_str(&mut v, tail);
    string_of(&v)
}

/// A whole number of milliseconds written in seconds: the seconds in base
/// ten, then, unless the milliseconds are a whole second, a point and the
/// thousandths without trailing zeros; a minus sign first where `ms` is
/// negative.
pub open spec fn seconds_text(ms: int) -> Seq<char> {
    let m = if ms < 0 {
        -ms
    } else {
        ms
    };
    let sign = if ms < 0 {
        seq!['-']
    } else {
        Seq::<char>::empty()
    };
    sign + decimal((m / 1000) as nat) + thousandths_text((m % 1000) as nat)
}

/// The point and the digits that write `t` thousandths, without trailing
/// zeros; nothing for none.
pub open spec fn thousandths_text(t: nat) -> Seq<char> {
    let a = digit_char(t / 100);
    let b = digit_char(t / 10 % 10);
    let c = digit_char(t % 10);
    if t == 0 {
        Seq::<char>::empty()
    } else if t % 10 != 0 {
        seq!['.', a, b, c]
    } else if t / 10 % 10 != 0 {
        seq!['.', a, b]
    } else {
        seq!['.', a]
    }
}

/// Appends `ms` milliseconds, written in seconds, to `v`.
pub fn append_seconds(v: &mut Vec<char>, ms: i64)
    ensures
        final(v)@ == old(v)@ + seconds_text(ms as int),
{
    let ghost start = v@;
    let m: u64 = if ms < 0 {
        v.push('-');
        ((-(ms + 1)) as u64) + 1
    } else {
        ms as u64
    };
    let ghost signed = v@;
    append_decimal(v, m / 1000);
    let t: u64 = m % 1000;
    if t != 0 {
        v.push('.');
        v.push(digit_to_char(t / 100));
        if t % 100 != 0 {
            v.push(digit_to_char(t / 10 % 10));
            if t % 10 != 0 {
                v.push(digit_to_char(t % 10));
            }
        }
    }
    assert(v@ =~= start + seconds_text(ms as int));
}

/// `ms` milliseconds written in seconds.
pub fn format_seconds(ms: i64) -> (r: String)
    ensures
        r@ == seconds_text(ms as int),
{
    let mut v: Vec<char> = Vec::new();
    append_seconds(&mut v, ms);
    assert(v@ =~= seconds_text(ms as int));
    string_of(&v)
}

/// Whether two texts are the same.
pub fn same_text(a: &Vec<char>, b: &Vec<char>) -> (r: bool)
    ensures
        r == (a@ == b@),
{
    if a.len() != b.len() {
        return false;
    }
    let r = matches_at(a, b, 0);
    assert(a@.subrange(0, a.len() as int) =~= a@);
    r
}

/// `s` from `start` on, with `to` in place of every occurrence of `from`,
/// taken from left to right without overlap.
pub open spec fn replaced_from(s: Seq<char>, from: Seq<char>, to: Seq<char>, start: int) -> Seq<
    char,
>
    decreases s.len() - start,
{
    if from.len() == 0 || start < 0 || start > s.len() {
        Seq::empty()
    } else {
        match find_from(s, from, start) {
            Some(i) => if start <= i && i + from.len() <= s.len() {
                s.subrange(start, i) + to + replaced_from(s, from, to, i + from.len())
            } else {
                s.subrange(start, s.len() as int)
            },
            None => s.subrange(start, s.len() as int),
        }
    }
}

/// `s` with `to` in place of every occurrence of `from`, taken from left to
/// right without overlap; `s` itself where `from` is empty.
pub open spec fn replaced(s: Seq<char>, from: Seq<char>, to: Seq<char>) -> Seq<char> {
    if from.len() == 0 {
        s
    } else {
        replaced_from(s, from, to, 0)
    }
}

/// `s` with `to` in place of every occurrence of `from`.
pub fn replace_all(s: &Vec<char>, from: &Vec<char>, to: &Vec<char>) -> (r: Vec<char>)
    ensures
        r@ == replaced(s@, from@, to@),
{
    if from.len() == 0 {
        let r = slice_of(s, 0, s.len());
        assert(r@ =~= s@);
        return r;
    }
    let mut out: Vec<char> = Vec::new();
    let mut start: usize = 0;
    loop
        invariant
            start <= s.len(),
            from.len() > 0,
            replaced_from(s@, from@, to@, 0) == out@ + replaced_from(
                s@,
                from@,
                to@,
                start as int,
            ),
        decreases s.len() - start,
    {
        match find_in_from(s, from, start) {
            Some(i) => {
                proof {
                    lemma_find_from(s@, from@, start as int);
                }
                let length = s.len();
                assert(i + from.len() <= length);
                append_chars(&mut out, &slice_of(s, start, i));
                append_chars(&mut out, to);
                start = i + from.len();
            },
            None => {
                append_chars(&mut out, &slice_of(s, start, s.len()));
                return out;
            },
        }
    }
}

/// `s` with `to` in place of every occurrence of `from`.
pub fn replace(s: &str, from: &str, to: &str) -> (r: String)
    ensures
        r@ == replaced(s@, from@, to@),
{
    string_of(&replace_all(&chars_of(s), &chars_of(from), &chars_of(to)))
}

/// A whole number of milliseconds written in seconds with two decimals,
/// rounded to the nearest hundredth, halves up.
pub open spec fn hundredths_text(ms: nat) -> Seq<char> {
    let h = (ms + 5) / 10;
    decimal(h / 100) + seq!['.', digit_char(h / 10 % 10), digit_char(h % 10)]
}

/// Appends `ms` milliseconds, written in seconds with two decimals, to `v`.
pub fn append_hundredths(v: &mut Vec<char>, ms: u64)
    ensures
        final(v)@ == old(v)@ + hundredths_text(ms as nat),
{
    let h: u64 = ms / 10 + (if ms % 10 >= 5 {
        1
    } else {
        0
    });
    assert(h == (ms + 5) / 10);
    append_decimal(v, h / 100);
    v.push('.');
    v.push(digit_to_char(h / 10 % 10));
    v.push(digit_to_char(h % 10));
    assert(v@ =~= old(v)@ + hundredths_text(ms as nat));
}

} // verus!
