//! Text in the shapes that requests, tokens and messages arrive in: trimming, searching, joining
//! and decimal numbers, each with its meaning on sequences of characters.
use vstd::prelude::*;

use crate::order::{chars_of, same_text};

verus! {

/// `String::push`: the documentation says that the character is appended to the end.
pub assume_specification[ String::push ](s: &mut String, c: char)
    ensures
        final(s)@ == old(s)@.push(c),
;

/// The code points with the Unicode property White_Space.
pub open spec fn is_white_space(c: char) -> bool {
    let n = c as u32;
    ||| 0x9 <= n <= 0xD
    ||| n == 0x20
    ||| n == 0x85
    ||| n == 0xA0
    ||| n == 0x1680
    ||| 0x2000 <= n <= 0x200A
    ||| n == 0x2028
    ||| n == 0x2029
    ||| n == 0x202F
    ||| n == 0x205F
    ||| n == 0x3000
}

/// `s` without the white space at its start.
pub open spec fn trimmed_start(s: Seq<char>) -> Seq<char>
    decreases s.len(),
{
    if s.len() > 0 && is_white_space(s[0]) {
        trimmed_start(s.drop_first())
    } else {
        s
    }
}

/// `s` without the white space at its end.
pub open spec fn trimmed_end(s: Seq<char>) -> Seq<char>
    decreases s.len(),
{
    if s.len() > 0 && is_white_space(s.last()) {
        trimmed_end(s.drop_last())
    } else {
        s
    }
}

/// `s` without the white space at its two ends.
pub open spec fn trimmed(s: Seq<char>) -> Seq<char> {
    trimmed_end(trimmed_start(s))
}

/// `pattern` stands in `s` from position `at` on.
pub open spec fn occurs_at(s: Seq<char>, pattern: Seq<char>, at: int) -> bool {
    &&& 0 <= at
    &&& at + pattern.len() <= s.len()
    &&& s.subrange(at, at + pattern.len()) == pattern
}

/// `pattern` stands somewhere in `s`.
pub open spec fn holds_text(s: Seq<char>, pattern: Seq<char>) -> bool {
    exists|at: int| occurs_at(s, pattern, at)
}

/// `at` is the first position at which `pattern` stands in `s`.
pub open spec fn first_at(s: Seq<char>, pattern: Seq<char>, at: int) -> bool {
    &&& occurs_at(s, pattern, at)
    &&& forall|j: int| 0 <= j < at ==> !occurs_at(s, pattern, j)
}

/// What stands before and after the first `separator` in `s`.
pub open spec fn split_first(s: Seq<char>, separator: Seq<char>) -> Option<(Seq<char>, Seq<char>)> {
    if holds_text(s, separator) {
        let at = choose|at: int| first_at(s, separator, at);
        Some((s.take(at), s.skip(at + separator.len())))
    } else {
        None
    }
}

/// `s` without `prefix`, where it starts with it.
pub open spec fn without_prefix(s: Seq<char>, prefix: Seq<char>) -> Option<Seq<char>> {
    if prefix.is_prefix_of(s) {
        Some(s.skip(prefix.len() as int))
    } else {
        None
    }
}

/// `c` with an ASCII capital turned into the small letter.
pub open spec fn ascii_lower_char(c: char) -> char {
    if 'A' <= c && c <= 'Z' {
        ((c as u32 + 32) as u32) as char
    } else {
        c
    }
}

/// `s` with its ASCII capitals turned into small letters.
pub open spec fn ascii_lower(s: Seq<char>) -> Seq<char> {
    s.map_values(|c: char| ascii_lower_char(c))
}

/// The decimal digit that stands for `d`.
pub open spec fn digit(d: nat) -> char {
    ((48 + d) as u32) as char
}

/// `n` in decimal, without leading zeros.
pub open spec fn decimal(n: nat) -> Seq<char>
    decreases n,
{
    if n < 10 {
        seq![digit(n)]
    } else {
        decimal(n / 10).push(digit(n % 10))
    }
}

/// `parts`, one after the other, with `separator` between them.
pub open spec fn joined(parts: Seq<Seq<char>>, separator: Seq<char>) -> Seq<char>
    decreases parts.len(),
{
    if parts.len() == 0 {
        Seq::empty()
    } else if parts.len() == 1 {
        parts[0]
    } else {
        joined(parts.drop_last(), separator) + separator + parts.last()
    }
}

/// Trimming leaves nothing to trim.
pub proof fn lemma_trimmed_twice(s: Seq<char>)
    ensures
        trimmed(trimmed(s)) == trimmed(s),
{
    lemma_trimmed_start_first(s);
    lemma_trimmed_end_last(trimmed_start(s));
    lemma_trimmed_end_first(trimmed_start(s));
}

proof fn lemma_trimmed_start_first(s: Seq<char>)
    ensures
        trimmed_start(s).len() == 0 || !is_white_space(trimmed_start(s)[0]),
    decreases s.len(),
{
    if s.len() > 0 && is_white_space(s[0]) {
        lemma_trimmed_start_first(s.drop_first());
    }
}

proof fn lemma_trimmed_end_last(s: Seq<char>)
    ensures
        trimmed_end(s).len() == 0 || !is_white_space(trimmed_end(s).last()),
    decreases s.len(),
{
    if s.len() > 0 && is_white_space(s.last()) {
        lemma_trimmed_end_last(s.drop_last());
    }
}

proof fn lemma_trimmed_end_first(s: Seq<char>)
    ensures
        trimmed_end(s).len() > 0 ==> s.len() > 0 && trimmed_end(s)[0] == s[0],
    decreases s.len(),
{
    if s.len() > 0 && is_white_space(s.last()) {
        lemma_trimmed_end_first(s.drop_last());
    }
}

/// A text that was trimmed neither starts nor ends with white space.
pub proof fn lemma_trimmed_ends(s: Seq<char>)
    ensures
        trimmed(s).len() > 0 ==> !is_white_space(trimmed(s)[0]) && !is_white_space(
            trimmed(s).last(),
        ),
{
    lemma_trimmed_start_first(s);
    lemma_trimmed_end_last(trimmed_start(s));
    lemma_trimmed_end_first(trimmed_start(s));
}

/// Whether `c` is white space.
pub fn white_space(c: char) -> (white: bool)
    ensures
        white == is_white_space(c),
{
    let n: u32 = c as u32;
    (0x9 <= n && n <= 0xD) || n == 0x20 || n == 0x85 || n == 0xA0 || n == 0x1680 || (0x2000 <= n && n
        <= 0x200A) || n == 0x2028 || n == 0x2029 || n == 0x202F || n == 0x205F || n == 0x3000
}

/// The text without the white space at its two ends.
pub fn trim(s: &str) -> (t: &str)
    ensures
        t@ == trimmed(s@),
{
    let chars = chars_of(s);
    let n: usize = chars.len();
    let mut start: usize = 0;
    assert(s@.skip(0) =~= s@);
    while start < n && white_space(chars[start])
        invariant
            start <= n,
            n == chars@.len(),
            chars@ == s@,
            trimmed_start(s@) == trimmed_start(s@.skip(start as int)),
        decreases n - start,
    {
        assert(s@.skip(start as int).drop_first() =~= s@.skip(start + 1));
        start += 1;
    }
    let ghost rest = s@.skip(start as int);
    assert(trimmed_start(s@) == rest);
    let mut end: usize = n;
    assert(rest.take(n - start) =~= rest);
    while end > start && white_space(chars[end - 1])
        invariant
            start <= end <= n,
            n == chars@.len(),
            chars@ == s@,
            rest == s@.skip(start as int),
            trimmed_end(rest) == trimmed_end(rest.take(end - start)),
        decreases end,
    {
        assert(rest.take(end - start).drop_last() =~= rest.take(end - 1 - start));
        end -= 1;
    }
    assert(s@.subrange(start as int, end as int) =~= rest.take(end - start));
    s.substring_char(start, end)
}

/// Whether nothing but white space stands in the text.
pub fn is_blank(s: &str) -> (blank: bool)
    ensures
        blank == (trimmed(s@).len() == 0),
{
    trim(s).is_empty()
}

/// Whether `pattern` stands in `chars` from position `at` on.
fn matches_at(chars: &Vec<char>, pattern: &Vec<char>, at: usize) -> (found: bool)
    ensures
        found == occurs_at(chars@, pattern@, at as int),
{
    if at > chars.len() || pattern.len() > chars.len() - at {
        return false;
    }
    let mut i: usize = 0;
    while i < pattern.len()
        invariant
            i <= pattern.len(),
            at + pattern.len() <= chars.len(),
            forall|j: int| 0 <= j < i ==> chars@[at + j] == pattern@[j],
        decreases pattern.len() - i,
    {
        if chars[at + i] != pattern[i] {
            assert(chars@.subrange(at as int, at + pattern@.len())[i as int] != pattern@[i as int]);
            return false;
        }
        i += 1;
    }
    assert(chars@.subrange(at as int, at + pattern@.len()) =~= pattern@);
    true
}

/// The first position at which `pattern` stands in `s`, counted in characters.
fn find(s: &str, pattern: &str) -> (at: Option<usize>)
    ensures
        at matches Some(i) ==> first_at(s@, pattern@, i as int),
        at is None ==> !holds_text(s@, pattern@),
{
    let chars = chars_of(s);
    let wanted = chars_of(pattern);
    let mut at: usize = 0;
    while at <= chars.len()
        invariant
            at <= chars.len() + 1,
            chars@ == s@,
            wanted@ == pattern@,
            forall|j: int| 0 <= j < at ==> !occurs_at(s@, pattern@, j),
        decreases chars.len() + 1 - at,
    {
        if matches_at(&chars, &wanted, at) {
            return Some(at);
        }
        if at == chars.len() {
            return None;
        }
        at += 1;
    }
    None
}

/// Whether `pattern` stands somewhere in `s`.
pub fn contains(s: &str, pattern: &str) -> (found: bool)
    ensures
        found == holds_text(s@, pattern@),
{
    find(s, pattern).is_some()
}

/// Whether `s` starts with `prefix`.
pub fn starts_with(s: &str, prefix: &str) -> (found: bool)
    ensures
        found == prefix@.is_prefix_of(s@),
{
    let chars = chars_of(s);
    let wanted = chars_of(prefix);
    let found = matches_at(&chars, &wanted, 0);
    assert(found ==> s@.subrange(0, prefix@.len() as int) == prefix@);
    found
}

/// Whether `s` ends with `suffix`.
pub fn ends_with(s: &str, suffix: &str) -> (found: bool)
    ensures
        found == suffix@.is_suffix_of(s@),
{
    let chars = chars_of(s);
    let wanted = chars_of(suffix);
    if wanted.len() > chars.len() {
        return false;
    }
    let at: usize = chars.len() - wanted.len();
    matches_at(&chars, &wanted, at)
}

/// `s` without `prefix`, where it starts with it.
pub fn strip_prefix<'a>(s: &'a str, prefix: &str) -> (rest: Option<&'a str>)
    ensures
        rest.deep_view() == without_prefix(s@, prefix@),
{
    if starts_with(s, prefix) {
        let from: usize = prefix.unicode_len();
        let to: usize = s.unicode_len();
        assert(s@.subrange(from as int, to as int) =~= s@.skip(prefix@.len() as int));
        Some(s.substring_char(from, to))
    } else {
        None
    }
}

/// What stands before and after the first `separator`.
pub fn split_once<'a>(s: &'a str, separator: &str) -> (parts: Option<(&'a str, &'a str)>)
    ensures
        parts.deep_view() == split_first(s@, separator@),
{
    match find(s, separator) {
        Some(at) => {
            let width: usize = separator.unicode_len();
            let to: usize = s.unicode_len();
            proof {
                let chosen = choose|i: int| first_at(s@, separator@, i);
                assert(first_at(s@, separator@, at as int));
                assert(chosen == at) by {
                    if chosen < at {
                        assert(!occurs_at(s@, separator@, chosen));
                    } else if at < chosen {
                        assert(!occurs_at(s@, separator@, at as int));
                    }
                }
                assert(s@.subrange(0, at as int) =~= s@.take(at as int));
                assert(s@.subrange(at + width, to as int) =~= s@.skip(at + separator@.len()));
            }
            Some((s.substring_char(0, at), s.substring_char(at + width, to)))
        },
        None => None,
    }
}

/// `s` with its ASCII capitals turned into small letters.
pub fn to_ascii_lowercase(s: &str) -> (lower: String)
    ensures
        lower@ == ascii_lower(s@),
{
    let chars = chars_of(s);
    let mut lower = String::new();
    let mut i: usize = 0;
    while i < chars.len()
        invariant
            i <= chars.len(),
            chars@ == s@,
            lower@ =~= ascii_lower(s@.take(i as int)),
        decreases chars.len() - i,
    {
        let c: char = chars[i];
        if 'A' <= c && c <= 'Z' {
            lower.push((c as u8 + 32) as char);
        } else {
            lower.push(c);
        }
        assert(ascii_lower(s@.take(i + 1)) =~= ascii_lower(s@.take(i as int)).push(
            ascii_lower_char(c),
        ));
        i += 1;
    }
    assert(s@.take(s@.len() as int) =~= s@);
    lower
}

/// `n` in decimal.
pub fn decimal_text(n: u128) -> (digits: String)
    ensures
        digits@ == decimal(n as nat),
    decreases n,
{
    if n < 10 {
        let mut digits = String::new();
        digits.push((48u8 + n as u8) as char);
        assert(digits@ =~= seq![digit(n as nat)]);
        digits
    } else {
        let mut digits = decimal_text(n / 10);
        digits.push((48u8 + (n % 10) as u8) as char);
        digits
    }
}

/// `a` followed by `b`.
pub fn concat(a: &str, b: &str) -> (text: String)
    ensures
        text@ == a@ + b@,
{
    let mut text = a.to_owned();
    text.append(b);
    text
}

/// `a`, `b` and `c`, one after the other.
pub fn concat3(a: &str, b: &str, c: &str) -> (text: String)
    ensures
        text@ == a@ + b@ + c@,
{
    let mut text = a.to_owned();
    text.append(b);
    text.append(c);
    text
}

/// `parts`, one after the other, with `separator` between them.
pub fn join(parts: &Vec<String>, separator: &str) -> (text: String)
    ensures
        text@ == joined(parts.deep_view(), separator@),
{
    let mut text = String::new();
    let ghost all = parts.deep_view();
    let mut i: usize = 0;
    assert(all.take(0) =~= Seq::empty());
    while i < parts.len()
        invariant
            i <= parts.len(),
            all == parts.deep_view(),
            text@ == joined(all.take(i as int), separator@),
        decreases parts.len() - i,
    {
        proof {
            assert(all.take(i + 1).drop_last() =~= all.take(i as int));
            assert(all.take(i + 1).last() == parts@[i as int]@);
        }
        if i > 0 {
            text.append(separator);
        }
        text.append(parts[i].as_str());
        proof {
            if i == 0 {
                assert(text@ =~= parts@[0]@);
            }
        }
        i += 1;
    }
    assert(all.take(parts@.len() as int) =~= all);
    text
}

/// A copy of a text that may be absent.
pub fn owned(text: Option<&str>) -> (copy: Option<String>)
    ensures
        copy.deep_view() == text.deep_view(),
{
    match text {
        Some(t) => Some(t.to_owned()),
        None => None,
    }
}

/// A text that may be absent, without a copy.
pub fn borrowed(text: &Option<String>) -> (t: Option<&str>)
    ensures
        t.deep_view() == text.deep_view(),
{
    match text {
        Some(t) => Some(t.as_str()),
        None => None,
    }
}

/// The two texts are the same, or neither is there.
pub fn same_option(a: Option<&str>, b: Option<&str>) -> (same: bool)
    ensures
        same == (a.deep_view() == b.deep_view()),
{
    match (a, b) {
        (Some(x), Some(y)) => same_text(x, y),
        (None, None) => true,
        _ => false,
    }
}

/// How many characters stand before the first white space.
pub open spec fn word_len(s: Seq<char>) -> nat
    decreases s.len(),
{
    if s.len() == 0 || is_white_space(s[0]) {
        0
    } else {
        1 + word_len(s.drop_first())
    }
}

/// The words of a text: what stands between white space.
pub open spec fn words_of(s: Seq<char>) -> Seq<Seq<char>>
    decreases s.len(),
{
    if s.len() == 0 {
        Seq::empty()
    } else if is_white_space(s[0]) {
        words_of(s.drop_first())
    } else if word_len(s) >= s.len() {
        seq![s]
    } else {
        seq![s.take(word_len(s) as int)] + words_of(s.skip(word_len(s) as int + 1))
    }
}

/// How many characters stand before the first line feed.
pub open spec fn line_len(s: Seq<char>) -> nat
    decreases s.len(),
{
    if s.len() == 0 || s[0] == '\n' {
        0
    } else {
        1 + line_len(s.drop_first())
    }
}

/// `s` without a carriage return at its end.
pub open spec fn without_return(s: Seq<char>) -> Seq<char> {
    if s.len() > 0 && s.last() == '\r' {
        s.drop_last()
    } else {
        s
    }
}

/// The lines of a text: each ends with a line feed, before which a carriage return may stand; the last
/// one may go without.
pub open spec fn lines_of(s: Seq<char>) -> Seq<Seq<char>>
    decreases s.len(),
{
    if s.len() == 0 {
        Seq::empty()
    } else if line_len(s) >= s.len() {
        seq![s]
    } else {
        seq![without_return(s.take(line_len(s) as int))] + lines_of(s.skip(line_len(s) as int + 1))
    }
}

/// The words of a text.
pub fn words(s: &str) -> (list: Vec<String>)
    ensures
        list.deep_view() == words_of(s@),
{
    let chars = chars_of(s);
    let mut list: Vec<String> = Vec::new();
    let mut at: usize = 0;
    assert(chars@.skip(0) =~= chars@);
    assert(list.deep_view() + words_of(chars@) =~= words_of(chars@));
    while at < chars.len()
        invariant
            at <= chars@.len(),
            chars@ == s@,
            list.deep_view() + words_of(chars@.skip(at as int)) == words_of(chars@),
        decreases chars@.len() - at,
    {
        let ghost rest = chars@.skip(at as int);
        if white_space(chars[at]) {
            assert(rest.drop_first() =~= chars@.skip(at + 1));
            at = at + 1;
        } else {
            let mut word = String::new();
            let start: usize = at;
            let ghost before = list.deep_view();
            assert(word@ =~= chars@.subrange(start as int, at as int));
            while at < chars.len() && !white_space(chars[at])
                invariant
                    start <= at <= chars@.len(),
                    word@ == chars@.subrange(start as int, at as int),
                    rest == chars@.skip(start as int),
                    word_len(rest) == (at - start) + word_len(chars@.skip(at as int)),
                decreases chars@.len() - at,
            {
                assert(chars@.skip(at as int).drop_first() =~= chars@.skip(at + 1));
                word.push(chars[at]);
                assert(word@ =~= chars@.subrange(start as int, at + 1));
                at = at + 1;
            }
            assert(word_len(chars@.skip(at as int)) == 0);
            assert(word@ =~= rest.take(word_len(rest) as int));
            let ghost found = word@;
            list.push(word);
            assert(list.deep_view() =~= before.push(found));
            if at < chars.len() {
                proof {
                    assert(rest.skip(word_len(rest) as int + 1) =~= chars@.skip(at + 1));
                    assert(before + (seq![found] + words_of(chars@.skip(at + 1))) =~= before.push(
                        found,
                    ) + words_of(chars@.skip(at + 1)));
                }
                at = at + 1;
            } else {
                proof {
                    assert(found =~= rest);
                    assert(chars@.skip(at as int) =~= Seq::empty());
                    assert(before + seq![found] =~= before.push(found) + words_of(
                        chars@.skip(at as int),
                    ));
                }
            }
        }
    }
    assert(chars@.skip(at as int) =~= Seq::empty());
    assert(list.deep_view() + words_of(chars@.skip(at as int)) =~= list.deep_view());
    list
}

/// The lines of a text.
pub fn lines(s: &str) -> (list: Vec<String>)
    ensures
        list.deep_view() == lines_of(s@),
{
    let chars = chars_of(s);
    let mut list: Vec<String> = Vec::new();
    let mut at: usize = 0;
    assert(chars@.skip(0) =~= chars@);
    assert(list.deep_view() + lines_of(chars@) =~= lines_of(chars@));
    while at < chars.len()
        invariant
            at <= chars@.len(),
            chars@ == s@,
            list.deep_view() + lines_of(chars@.skip(at as int)) == lines_of(chars@),
        decreases chars@.len() - at,
    {
        let ghost rest = chars@.skip(at as int);
        let start: usize = at;
        let ghost before = list.deep_view();
        while at < chars.len() && chars[at] != '\n'
            invariant
                start <= at <= chars@.len(),
                rest == chars@.skip(start as int),
                line_len(rest) == (at - start) + line_len(chars@.skip(at as int)),
            decreases chars@.len() - at,
        {
            assert(chars@.skip(at as int).drop_first() =~= chars@.skip(at + 1));
            at = at + 1;
        }
        assert(line_len(chars@.skip(at as int)) == 0);
        let mut end: usize = at;
        if at < chars.len() && at > start && chars[at - 1] == '\r' {
            end = at - 1;
        }
        let mut line = String::new();
        let mut i: usize = start;
        assert(line@ =~= chars@.subrange(start as int, i as int));
        while i < end
            invariant
                start <= i <= end <= chars@.len(),
                line@ == chars@.subrange(start as int, i as int),
            decreases end - i,
        {
            line.push(chars[i]);
            assert(line@ =~= chars@.subrange(start as int, i + 1));
            i = i + 1;
        }
        let ghost found = line@;
        list.push(line);
        assert(list.deep_view() =~= before.push(found));
        if at < chars.len() {
            proof {
                assert(rest.take(line_len(rest) as int) =~= chars@.subrange(
                    start as int,
                    at as int,
                ));
                assert(found =~= without_return(rest.take(line_len(rest) as int)));
                assert(rest.skip(line_len(rest) as int + 1) =~= chars@.skip(at + 1));
                assert(before + (seq![found] + lines_of(chars@.skip(at + 1))) =~= before.push(found)
                    + lines_of(chars@.skip(at + 1)));
            }
            at = at + 1;
        } else {
            proof {
                assert(found =~= rest);
                assert(chars@.skip(at as int) =~= Seq::empty());
                assert(before + seq![found] =~= before.push(found) + lines_of(
                    chars@.skip(at as int),
                ));
            }
        }
    }
    assert(chars@.skip(at as int) =~= Seq::empty());
    assert(list.deep_view() + lines_of(chars@.skip(at as int)) =~= list.deep_view());
    list
}

/// `s` without the characters `c` at its start.
pub open spec fn without_leading(s: Seq<char>, c: char) -> Seq<char>
    decreases s.len(),
{
    if s.len() > 0 && s[0] == c {
        without_leading(s.drop_first(), c)
    } else {
        s
    }
}

/// `s` without the characters `c` at its end.
pub open spec fn without_trailing(s: Seq<char>, c: char) -> Seq<char>
    decreases s.len(),
{
    if s.len() > 0 && s.last() == c {
        without_trailing(s.drop_last(), c)
    } else {
        s
    }
}

/// `s` without the characters `c` at its two ends.
pub open spec fn without_ends(s: Seq<char>, c: char) -> Seq<char> {
    without_trailing(without_leading(s, c), c)
}

/// `chars` without the characters `c` at its two ends.
pub(crate) fn cut_ends(chars: &Vec<char>, c: char) -> (rest: Vec<char>)
    ensures
        rest@ == without_ends(chars@, c),
{
    let mut from: usize = 0;
    assert(chars@.skip(0) =~= chars@);
    while from < chars.len() && chars[from] == c
        invariant
            from <= chars@.len(),
            without_leading(chars@.skip(from as int), c) == without_leading(chars@, c),
        decreases chars@.len() - from,
    {
        assert(chars@.skip(from as int).drop_first() =~= chars@.skip(from + 1));
        from = from + 1;
    }
    let mut to: usize = chars.len();
    let ghost body = chars@.skip(from as int);
    assert(without_leading(chars@, c) == body);
    assert(chars@.subrange(from as int, to as int) =~= body);
    while to > from && chars[to - 1] == c
        invariant
            from <= to <= chars@.len(),
            without_trailing(chars@.subrange(from as int, to as int), c) == without_trailing(
                body,
                c,
            ),
        decreases to - from,
    {
        assert(chars@.subrange(from as int, to as int).drop_last() =~= chars@.subrange(
            from as int,
            to - 1,
        ));
        to = to - 1;
    }
    let mut rest: Vec<char> = Vec::new();
    let mut i: usize = from;
    while i < to
        invariant
            from <= i <= to <= chars@.len(),
            rest@ == chars@.subrange(from as int, i as int),
        decreases to - i,
    {
        rest.push(chars[i]);
        assert(rest@ =~= chars@.subrange(from as int, i + 1));
        i = i + 1;
    }
    rest
}

/// The characters as a text.
pub(crate) fn text_of(chars: &Vec<char>) -> (text: String)
    ensures
        text@ == chars@,
{
    let mut text = String::new();
    let mut i: usize = 0;
    assert(text@ =~= chars@.take(0));
    while i < chars.len()
        invariant
            i <= chars@.len(),
            text@ == chars@.take(i as int),
        decreases chars@.len() - i,
    {
        text.push(chars[i]);
        assert(text@ =~= chars@.take(i + 1));
        i = i + 1;
    }
    assert(chars@.take(chars@.len() as int) =~= chars@);
    text
}


/// `s` without the characters `c` at its start.
pub fn trim_start_char(s: &str, c: char) -> (rest: &str)
    ensures
        rest@ == without_leading(s@, c),
{
    let chars = chars_of(s);
    let mut from: usize = 0;
    assert(chars@.skip(0) =~= chars@);
    while from < chars.len() && chars[from] == c
        invariant
            from <= chars@.len(),
            without_leading(chars@.skip(from as int), c) == without_leading(chars@, c),
        decreases chars@.len() - from,
    {
        assert(chars@.skip(from as int).drop_first() =~= chars@.skip(from + 1));
        from = from + 1;
    }
    let end: usize = chars.len();
    assert(chars@.subrange(from as int, end as int) =~= chars@.skip(from as int));
    s.substring_char(from, end)
}

/// The text in lower case.
pub uninterp spec fn lower_case(text: Seq<char>) -> Seq<char>;

/// `str::to_lowercase`: the lower case of a text by the tables of Unicode is a function of the text.
#[verifier::external_body]
pub(crate) fn to_lowercase(text: &str) -> (lower: String)
    ensures
        lower@ == lower_case(text@),
{
    text.to_lowercase()
}

/// The text that bytes stand for as UTF-8, with a replacement character where they are not.
pub uninterp spec fn lossy_text(bytes: Seq<u8>) -> Seq<char>;

/// `String::from_utf8_lossy`: the text that the bytes stand for as UTF-8, in which a replacement
/// character takes the place of what is not UTF-8. It is a function of the bytes; how far one
/// replacement reaches is not written out.
#[verifier::external_body]
pub(crate) fn decode_lossy(bytes: &[u8]) -> (text: String)
    ensures
        text@ == lossy_text(bytes@),
{
    String::from_utf8_lossy(bytes).into_owned()
}

} // verus!
