//! Text as sequences of characters: reading a string's characters,
//! comparing and searching texts, writing a number, and cleaning the text of
//! a table cell.

use vstd::prelude::*;

verus! {

/// `needle` stands in `hay` at position `at`.
pub open spec fn occurs_at(needle: Seq<char>, hay: Seq<char>, at: int) -> bool {
    &&& 0 <= at
    &&& at + needle.len() <= hay.len()
    &&& hay.subrange(at, at + needle.len()) == needle
}

/// `needle` stands somewhere in `hay`, as one unbroken run of characters.
pub open spec fn occurs_in(needle: Seq<char>, hay: Seq<char>) -> bool {
    exists|at: int| occurs_at(needle, hay, at)
}

/// The characters of a string, in order.
pub fn chars_of(s: &str) -> (chars: Vec<char>)
    ensures
        chars@ == s@,
{
    let mut chars: Vec<char> = Vec::new();
    for c in it: s.chars()
        invariant
            it.seq() == s@,
            chars@ == it.seq().take(it.index()),
    {
        chars.push(c);
    }
    chars
}

/// Whether `needle` stands in `hay` at position `at`.
fn matches_at(hay: &Vec<char>, needle: &Vec<char>, at: usize) -> (b: bool)
    requires
        at + needle.len() <= hay.len(),
    ensures
        b == occurs_at(needle@, hay@, at as int),
{
    let ghost window = hay@.subrange(at as int, at + needle.len());
    let mut k: usize = 0;
    while k < needle.len()
        invariant
            k <= needle.len(),
            at + needle.len() <= hay.len(),
            window == hay@.subrange(at as int, at + needle.len()),
            forall|j: int| 0 <= j < k ==> window[j] == needle@[j],
        decreases needle.len() - k,
    {
        if hay[at + k] != needle[k] {
            return false;
        }
        k += 1;
    }
    assert(window =~= needle@);
    true
}

/// Whether `needle` stands somewhere in `hay`.
pub fn contains(hay: &str, needle: &str) -> (b: bool)
    ensures
        b == occurs_in(needle@, hay@),
{
    let h = chars_of(hay);
    let n = chars_of(needle);
    if n.len() > h.len() {
        return false;
    }
    let last = h.len() - n.len();
    let mut at: usize = 0;
    loop
        invariant
            n.len() <= h.len(),
            last == h.len() - n.len(),
            at <= last,
            h@ == hay@,
            n@ == needle@,
            forall|j: int| 0 <= j < at ==> !occurs_at(needle@, hay@, j),
        decreases last - at,
    {
        if matches_at(&h, &n, at) {
            return true;
        }
        if at == last {
            return false;
        }
        at += 1;
    }
}

/// Whether two strings hold the same text.
pub fn same(a: &str, b: &str) -> (eq: bool)
    ensures
        eq == (a@ == b@),
{
    let x = chars_of(a);
    let y = chars_of(b);
    if x.len() != y.len() {
        return false;
    }
    let mut i: usize = 0;
    while i < x.len()
        invariant
            i <= x.len(),
            x.len() == y.len(),
            x@ == a@,
            y@ == b@,
            forall|j: int| 0 <= j < i ==> x@[j] == y@[j],
        decreases x.len() - i,
    {
        if x[i] != y[i] {
            return false;
        }
        i += 1;
    }
    assert(x@ =~= y@);
    true
}

/// The character that writes the digit `d`.
pub open spec fn digit(d: nat) -> char {
    if d == 0 {
        '0'
    } else if d == 1 {
        '1'
    } else if d == 2 {
        '2'
    } else if d == 3 {
        '3'
    } else if d == 4 {
        '4'
    } else if d == 5 {
        '5'
    } else if d == 6 {
        '6'
    } else if d == 7 {
        '7'
    } else if d == 8 {
        '8'
    } else {
        '9'
    }
}

/// The number `n` written in decimal, without leading zeros.
pub open spec fn decimal(n: nat) -> Seq<char>
    decreases n,
{
    if n < 10 {
        seq![digit(n)]
    } else {
        decimal(n / 10).push(digit(n % 10))
    }
}

/// The character that writes the digit `d`.
fn digit_char(d: usize) -> (c: char)
    requires
        d < 10,
    ensures
        c == digit(d as nat),
{
    match d {
        0 => '0',
        1 => '1',
        2 => '2',
        3 => '3',
        4 => '4',
        5 => '5',
        6 => '6',
        7 => '7',
        8 => '8',
        _ => '9',
    }
}

/// Writes `n` in decimal.
pub fn decimal_text(n: usize) -> (s: String)
    ensures
        s@ == decimal(n as nat),
    decreases n,
{
    if n < 10 {
        let mut s = String::new();
        s.push(digit_char(n));
        s
    } else {
        let mut s = decimal_text(n / 10);
        s.push(digit_char(n % 10));
        s
    }
}

/// Whether the character is white space, as `char::is_whitespace` tells it.
pub uninterp spec fn is_white_space(c: char) -> bool;

/// `char::is_whitespace` of std: whether the character has the Unicode
/// property White_Space. The result is given the name `is_white_space`.
pub assume_specification[ char::is_whitespace ](c: char) -> (b: bool)
    ensures
        b == is_white_space(c),
;

/// `String::push` of std: appends the character to the end of the string.
pub assume_specification[ String::push ](s: &mut String, ch: char)
    ensures
        final(s)@ == old(s)@.push(ch),
;

/// The text without its line feeds.
pub open spec fn without_newlines(s: Seq<char>) -> Seq<char> {
    s.filter(|c: char| c != '\n')
}

/// The text without the white space it starts with.
pub open spec fn trim_start(s: Seq<char>) -> Seq<char>
    decreases s.len(),
{
    if s.len() > 0 && is_white_space(s[0]) {
        trim_start(s.drop_first())
    } else {
        s
    }
}

/// The text without the white space it ends with.
pub open spec fn trim_end(s: Seq<char>) -> Seq<char>
    decreases s.len(),
{
    if s.len() > 0 && is_white_space(s.last()) {
        trim_end(s.drop_last())
    } else {
        s
    }
}

/// The text of a cell as the listing shows it: without line feeds, and
/// without white space at either end.
pub open spec fn cleaned(s: Seq<char>) -> Seq<char> {
    trim_end(trim_start(without_newlines(s)))
}

/// The text has no line feed in it and no white space at either end.
pub open spec fn is_clean(s: Seq<char>) -> bool {
    &&& forall|i: int| 0 <= i < s.len() ==> s[i] != '\n'
    &&& s.len() > 0 ==> !is_white_space(s[0]) && !is_white_space(s.last())
}

/// `trim_start` drops the first `n` characters, where those are white space
/// and the one after them is not.
pub proof fn lemma_trim_start_is(s: Seq<char>, n: int)
    requires
        0 <= n <= s.len(),
        forall|i: int| 0 <= i < n ==> is_white_space(s[i]),
        n == s.len() || !is_white_space(s[n]),
    ensures
        trim_start(s) == s.skip(n),
    decreases n,
{
    if n > 0 {
        let rest = s.drop_first();
        assert forall|i: int| 0 <= i < n - 1 implies is_white_space(rest[i]) by {
        }
        lemma_trim_start_is(rest, n - 1);
    }
}

/// `trim_end` keeps the first `n` characters, where all after them are white
/// space and the last of them is not.
pub proof fn lemma_trim_end_is(s: Seq<char>, n: int)
    requires
        0 <= n <= s.len(),
        forall|i: int| n <= i < s.len() ==> is_white_space(s[i]),
        n == 0 || !is_white_space(s[n - 1]),
    ensures
        trim_end(s) == s.take(n),
    decreases s.len() - n,
{
    if n < s.len() {
        lemma_trim_end_is(s.drop_last(), n);
    }
}

/// The characters of `chars` that are no line feeds, in order.
fn drop_newlines(chars: &Vec<char>) -> (kept: Vec<char>)
    ensures
        kept@ == without_newlines(chars@),
{
    let ghost keep = |c: char| c != '\n';
    let mut kept: Vec<char> = Vec::new();
    let mut i: usize = 0;
    proof {
        reveal(Seq::filter);
    }
    while i < chars.len()
        invariant
            i <= chars.len(),
            keep == |c: char| c != '\n',
            kept@ == chars@.take(i as int).filter(keep),
        decreases chars.len() - i,
    {
        proof {
            assert(chars@.take(i + 1) =~= chars@.take(i as int).push(chars@[i as int]));
            chars@.take(i as int).lemma_filter_push(chars@[i as int], keep);
        }
        if chars[i] != '\n' {
            kept.push(chars[i]);
        }
        i += 1;
    }
    assert(chars@.take(chars.len() as int) =~= chars@);
    kept
}

/// The text of a cell as the listing shows it: `raw` without line feeds and
/// without white space at either end.
pub fn clean(raw: &str) -> (text: String)
    ensures
        text@ == cleaned(raw@),
        is_clean(text@),
{
    let chars = chars_of(raw);
    let kept = drop_newlines(&chars);
    proof {
        assert forall|i: int| 0 <= i < kept@.len() implies kept@[i] != '\n' by {
            chars@.lemma_filter_pred(|c: char| c != '\n', i);
        }
    }
    let mut from: usize = 0;
    while from < kept.len() && kept[from].is_whitespace()
        invariant
            from <= kept.len(),
            forall|i: int| 0 <= i < from ==> is_white_space(kept@[i]),
        decreases kept.len() - from,
    {
        from += 1;
    }
    let mut to: usize = kept.len();
    while to > from && kept[to - 1].is_whitespace()
        invariant
            from <= to <= kept.len(),
            forall|i: int| to <= i < kept.len() ==> is_white_space(kept@[i]),
        decreases to - from,
    {
        to -= 1;
    }
    let ghost body = kept@.skip(from as int);
    proof {
        lemma_trim_start_is(kept@, from as int);
        lemma_trim_end_is(body, to - from);
    }
    let mut text = String::new();
    let mut i: usize = from;
    while i < to
        invariant
            from <= i <= to <= kept.len(),
            text@ == kept@.subrange(from as int, i as int),
        decreases to - i,
    {
        text.push(kept[i]);
        i += 1;
    }
    text
}

} // verus!
