//! What the small parts promise: texts, addresses, spans of time, tokens and names.
use vstd::prelude::*;

use crate::auth::TokenPlanView;

verus! {

/// What is picked out of a list is what was in it and fits.
pub proof fn lemma_picked<A>(list: Seq<A>, fits: spec_fn(A) -> bool, item: A)
    ensures
        list.filter(fits).contains(item) <==> list.contains(item) && fits(item),
    decreases list.len(),
{
    reveal(Seq::filter);
    let picked = list.filter(fits);
    if list.len() > 0 {
        let front = list.drop_last();
        let before = front.filter(fits);
        lemma_picked(front, fits, item);
        if list.contains(item) {
            let p = list.index_of(item);
            if p < front.len() {
                assert(front[p] == item);
            }
        }
        if front.contains(item) {
            let p = front.index_of(item);
            assert(list[p] == item);
        }
        assert(list[list.len() - 1] == list.last());
        if fits(list.last()) {
            assert(picked == before.push(list.last()));
            assert(picked[before.len() as int] == list.last());
            if before.contains(item) {
                let p = before.index_of(item);
                assert(picked[p] == item);
            }
            if picked.contains(item) && item != list.last() {
                let p = picked.index_of(item);
                assert(before[p] == item);
            }
        }
    }
}

/// Spans of time are never negative, are cut to whole milliseconds, and stop at the largest number.
pub proof fn law_spans(now: u128, then: u128, sec: u64, a: u64, b: u64)
    ensures
        now >= then ==> crate::clock::since(now, then) == now - then,
        now < then ==> crate::clock::since(now, then) == 0,
        now >= then ==> crate::clock::since_ms(now, then) * 1_000_000 <= now - then < (
        crate::clock::since_ms(now, then) + 1) * 1_000_000,
        now < then ==> crate::clock::since_ms(now, then) == 0,
        crate::clock::age_of(now, Some(then)) == Some(crate::clock::since_ms(now, then)),
        crate::clock::age_of(now, None) is None,
        sec * 1000 <= u64::MAX ==> crate::clock::seconds_ms(sec) == sec * 1000,
        sec * 1000 > u64::MAX ==> crate::clock::seconds_ms(sec) == u64::MAX,
        a >= b ==> crate::clock::less(a, b) == a - b,
        a < b ==> crate::clock::less(a, b) == 0,
        a + b <= u64::MAX ==> crate::clock::more(a, b) == a + b,
        a + b > u64::MAX ==> crate::clock::more(a, b) == u64::MAX,
{
}

/// All of the text between the two positions is white space.
pub open spec fn white(s: Seq<char>, from: int, to: int) -> bool {
    forall|i: int| from <= i < to ==> crate::text::is_white_space(#[trigger] s[i])
}

proof fn lemma_start(s: Seq<char>) -> (a: int)
    ensures
        0 <= a <= s.len(),
        crate::text::trimmed_start(s) == s.skip(a),
        white(s, 0, a),
        a < s.len() ==> !crate::text::is_white_space(s[a]),
    decreases s.len(),
{
    if s.len() > 0 && crate::text::is_white_space(s[0]) {
        let a = lemma_start(s.drop_first());
        assert(s.drop_first().skip(a) =~= s.skip(a + 1));
        assert forall|i: int| 0 <= i < a + 1 implies crate::text::is_white_space(#[trigger] s[i]) by {
            if i > 0 {
                assert(s.drop_first()[i - 1] == s[i]);
            }
        }
        a + 1
    } else {
        assert(s.skip(0) =~= s);
        0
    }
}

proof fn lemma_end(s: Seq<char>) -> (b: int)
    ensures
        0 <= b <= s.len(),
        crate::text::trimmed_end(s) == s.take(b),
        white(s, b, s.len() as int),
        b > 0 ==> !crate::text::is_white_space(s[b - 1]),
    decreases s.len(),
{
    if s.len() > 0 && crate::text::is_white_space(s.last()) {
        let b = lemma_end(s.drop_last());
        assert(s.drop_last().take(b) =~= s.take(b));
        assert forall|i: int| b <= i < s.len() implies crate::text::is_white_space(#[trigger] s[i]) by {
            if i < s.len() - 1 {
                assert(s.drop_last()[i] == s[i]);
            }
        }
        b
    } else {
        assert(s.take(s.len() as int) =~= s);
        s.len() as int
    }
}

/// A text is trimmed of the white space at its two ends, of all of it and of nothing else; spaces, tabs and
/// ends of lines are among it, and letters and digits are not.
pub proof fn law_trimming(s: Seq<char>, i: int)
    ensures
        exists|a: int, b: int|
            #![trigger s.subrange(a, b)]
            0 <= a <= b <= s.len() && crate::text::trimmed(s) == s.subrange(a, b) && white(s, 0, a)
                && white(s, b, s.len() as int) && (a < b ==> !crate::text::is_white_space(s[a])
                && !crate::text::is_white_space(s[b - 1])),
        0 <= i < s.len() && !crate::text::is_white_space(s[i]) ==> crate::text::trimmed(s).len() > 0,
        crate::text::is_white_space(' '),
        crate::text::is_white_space('\t'),
        crate::text::is_white_space('\n'),
        crate::text::is_white_space('\r'),
        forall|c: char|
            ('0' <= c && c <= '9') || ('a' <= c && c <= 'z') || ('A' <= c && c <= 'Z')
                ==> !#[trigger] crate::text::is_white_space(c),
{
    let a = lemma_start(s);
    let rest = s.skip(a);
    let n = lemma_end(rest);
    let b = a + n;
    assert(rest.take(n) =~= s.subrange(a, b));
    assert forall|k: int| b <= k < s.len() implies crate::text::is_white_space(#[trigger] s[k]) by {
        assert(rest[k - a] == s[k]);
    }
    if a < b {
        assert(rest[n - 1] == s[b - 1]);
        assert(rest[0] == s[a]);
    }
    if 0 <= i < s.len() && !crate::text::is_white_space(s[i]) {
        assert(a <= i);
        assert(i < b);
    }
}

/// A field is given where something other than white space is in it; it is taken without the white space
/// around it, and a message names the field that is not.
pub proof fn law_fields_are_trimmed(value: Seq<char>, label: Seq<char>)
    ensures
        crate::fields::required(value) is Some <==> crate::text::trimmed(value).len() > 0,
        crate::fields::required(value) matches Some(text) ==> text == crate::text::trimmed(value),
        crate::fields::optional(Some(value)) == crate::fields::required(value),
        crate::fields::optional(None) is None,
        crate::fields::empty_message(label) == label + " must not be empty"@,
{
}

/// A universe is the one that the newer field names; the older field counts only where the newer is not
/// there at all, and a blank text names none.
pub proof fn law_universe_is_named(newer: Option<Seq<char>>, older: Option<Seq<char>>)
    ensures
        ({
            let named = crate::fields::universe(newer, older);
            &&& newer matches Some(text) ==> named == if crate::text::trimmed(text).len() > 0 {
                newer
            } else {
                None
            }
            &&& newer is None && older is Some ==> named == if crate::text::trimmed(
                older->0,
            ).len() > 0 {
                older
            } else {
                None
            }
            &&& newer is None && older is None ==> named is None
        }),
{
}

/// A token is never blank and has no white space around it; a text without one is no token.
pub proof fn law_tokens_are_bare(text: Seq<char>)
    ensures
        crate::fields::bearer(text) matches Some(token) ==> token.len() > 0 && crate::text::trimmed(
            token,
        ) == token,
        crate::text::trimmed(text).len() == 0 ==> crate::fields::bearer(text) is None,
        crate::text::trimmed(text).len() > 0 && !"Bearer "@.is_prefix_of(crate::text::trimmed(text))
            ==> crate::fields::bearer(text) == Some(crate::text::trimmed(text)),
{
    let whole = crate::text::trimmed(text);
    let raw = match crate::text::without_prefix(whole, "Bearer "@) {
        Some(rest) => rest,
        None => whole,
    };
    crate::text::lemma_trimmed_twice(raw);
    crate::text::lemma_trimmed_twice(text);
}

/// A request passes exactly where no token is asked for or where it carries the token that is.
pub proof fn law_requests_carry_the_token(expected: Option<Seq<char>>, header: Option<Seq<char>>)
    ensures
        expected is None ==> crate::auth::may_pass(expected, header),
        expected is Some && header is None ==> !crate::auth::may_pass(expected, header),
        expected is Some && header is Some ==> (crate::auth::may_pass(expected, header)
            <==> crate::fields::bearer(header->0) == expected),
{
}

/// A server asks for no token where it is told not to; else for the one that is given, else for the one in
/// the file that is given, else for the one in the first of the usual files that is there; and for none
/// where there is no such file.
pub proof fn law_token_of_a_server(
    plan: TokenPlanView,
    no_auth: bool,
    token: Option<Seq<char>>,
    file_given: bool,
    exist: Seq<bool>,
    j: int,
)
    requires
        crate::auth::is_plan(plan, no_auth, token, file_given, exist),
    ensures
        ({
            let given = token is Some && crate::fields::bearer(token->0) is Some;
            &&& no_auth ==> plan is NoToken
            &&& !no_auth && given ==> plan == TokenPlanView::Token(
                crate::fields::bearer(token->0)->0,
            )
            &&& !no_auth && !given && file_given ==> plan is GivenFile
            &&& !no_auth && !given && !file_given && 0 <= j < exist.len() && exist[j]
                ==> plan is UsualFile && plan->UsualFile_0 <= j && exist[plan->UsualFile_0 as int]
            &&& plan matches TokenPlanView::UsualFile(i) ==> !no_auth && !given && !file_given && (0
                <= j < i ==> !exist[j])
            &&& plan is NoToken && !no_auth ==> !given && !file_given
        }),
{
}

/// The number that a text of digits stands for.
pub open spec fn number_of(s: Seq<char>) -> int
    decreases s.len(),
{
    if s.len() == 0 {
        0
    } else {
        number_of(s.drop_last()) * 10 + (s.last() as int - '0' as int)
    }
}

/// A number is written in digits, and is what the digits stand for.
pub proof fn law_numbers_read_back(n: nat)
    ensures
        number_of(crate::text::decimal(n)) == n,
        crate::text::decimal(n).len() > 0,
        forall|i: int|
            0 <= i < crate::text::decimal(n).len() ==> '0' <= #[trigger] crate::text::decimal(n)[i]
                && crate::text::decimal(n)[i] <= '9',
    decreases n,
{
    let text = crate::text::decimal(n);
    if n < 10 {
        let c = crate::text::digit(n);
        assert(text =~= seq![c]);
        assert(c as u32 == 48 + n);
        assert(text.drop_last() =~= Seq::<char>::empty());
        assert(number_of(text.drop_last()) == 0);
    } else {
        law_numbers_read_back(n / 10);
        let front = crate::text::decimal(n / 10);
        let c = crate::text::digit(n % 10);
        assert(c as u32 == 48 + n % 10);
        assert(text.drop_last() =~= front);
        assert forall|i: int| 0 <= i < text.len() implies '0' <= #[trigger] text[i] && text[i]
            <= '9' by {
            if i < front.len() {
                assert(text[i] == front[i]);
            }
        }
    }
}

/// Letters from A to Z are made small, and nothing else is changed.
pub proof fn law_small_letters(s: Seq<char>, i: int)
    requires
        0 <= i < s.len(),
    ensures
        crate::text::ascii_lower(s).len() == s.len(),
        'A' <= s[i] && s[i] <= 'Z' ==> crate::text::ascii_lower(s)[i] as u32 == s[i] as u32 + 32,
        !('A' <= s[i] && s[i] <= 'Z') ==> crate::text::ascii_lower(s)[i] == s[i],
{
    if 'A' <= s[i] && s[i] <= 'Z' {
        let n: u32 = (s[i] as u32 + 32) as u32;
        assert(97 <= n <= 122);
        assert((n as char) as u32 == n);
    }
}

/// Texts are joined in their order, with the separator between any two and nowhere else.
pub proof fn law_joining(parts: Seq<Seq<char>>, part: Seq<char>, separator: Seq<char>)
    ensures
        crate::text::joined(seq![], separator).len() == 0,
        crate::text::joined(seq![part], separator) == part,
        parts.len() > 0 ==> crate::text::joined(parts.push(part), separator)
            == crate::text::joined(parts, separator) + separator + part,
{
    assert(parts.push(part).drop_last() =~= parts);
}

proof fn lemma_first_occurrence(s: Seq<char>, pattern: Seq<char>, at: int) -> (first: int)
    requires
        crate::text::occurs_at(s, pattern, at),
    ensures
        crate::text::first_at(s, pattern, first),
    decreases at,
{
    if exists|j: int| 0 <= j < at && crate::text::occurs_at(s, pattern, j) {
        let j = choose|j: int| 0 <= j < at && crate::text::occurs_at(s, pattern, j);
        lemma_first_occurrence(s, pattern, j)
    } else {
        at
    }
}

/// A text is split at the first separator in it: what was before it and what was after it, with the
/// separator between them, make up the text.
pub proof fn law_splitting(s: Seq<char>, separator: Seq<char>, j: int)
    ensures
        ({
            let parts = crate::text::split_first(s, separator);
            &&& parts is Some <==> crate::text::holds_text(s, separator)
            &&& parts matches Some((before, after)) ==> {
                &&& s == before + separator + after
                &&& 0 <= j < before.len() ==> !crate::text::occurs_at(s, separator, j)
            }
        }),
{
    if crate::text::holds_text(s, separator) {
        let some = choose|at: int| crate::text::occurs_at(s, separator, at);
        let first = lemma_first_occurrence(s, separator, some);
        let at = choose|at: int| crate::text::first_at(s, separator, at);
        assert(crate::text::first_at(s, separator, at));
        assert(s.take(at) + separator + s.skip(at + separator.len()) =~= s) by {
            assert forall|i: int| at <= i < at + separator.len() implies s[i] == separator[i
                - at] by {
                assert(s.subrange(at, at + separator.len())[i - at] == s[i]);
            }
        }
    }
}

proof fn lemma_word(s: Seq<char>)
    ensures
        crate::text::word_len(s) <= s.len(),
        forall|i: int|
            0 <= i < crate::text::word_len(s) ==> !crate::text::is_white_space(#[trigger] s[i]),
        crate::text::word_len(s) < s.len() ==> crate::text::is_white_space(
            s[crate::text::word_len(s) as int],
        ),
    decreases s.len(),
{
    if s.len() > 0 && !crate::text::is_white_space(s[0]) {
        let rest = s.drop_first();
        lemma_word(rest);
        assert forall|i: int| 0 <= i < crate::text::word_len(s) implies !crate::text::is_white_space(
            #[trigger] s[i],
        ) by {
            if i > 0 {
                assert(rest[i - 1] == s[i]);
            }
        }
        if crate::text::word_len(s) < s.len() {
            assert(rest[crate::text::word_len(rest) as int] == s[crate::text::word_len(s) as int]);
        }
    }
}

/// The words of a text are not empty and hold no white space.
pub proof fn law_words(s: Seq<char>, i: int)
    requires
        0 <= i < crate::text::words_of(s).len(),
    ensures
        crate::text::words_of(s)[i].len() > 0,
        forall|j: int|
            0 <= j < crate::text::words_of(s)[i].len() ==> !crate::text::is_white_space(
                #[trigger] crate::text::words_of(s)[i][j],
            ),
    decreases s.len(),
{
    let n = crate::text::word_len(s);
    lemma_word(s);
    if s.len() == 0 {
    } else if crate::text::is_white_space(s[0]) {
        law_words(s.drop_first(), i);
    } else if n >= s.len() {
        assert(crate::text::words_of(s)[i] == s);
    } else if i == 0 {
        assert(crate::text::words_of(s)[0] == s.take(n as int));
    } else {
        let rest = s.skip(n as int + 1);
        assert(crate::text::words_of(s)[i] == crate::text::words_of(rest)[i - 1]);
        law_words(rest, i - 1);
    }
}

proof fn lemma_line(s: Seq<char>)
    ensures
        crate::text::line_len(s) <= s.len(),
        forall|i: int| 0 <= i < crate::text::line_len(s) ==> #[trigger] s[i] != '\n',
        crate::text::line_len(s) < s.len() ==> s[crate::text::line_len(s) as int] == '\n',
    decreases s.len(),
{
    if s.len() > 0 && s[0] != '\n' {
        let rest = s.drop_first();
        lemma_line(rest);
        assert forall|i: int| 0 <= i < crate::text::line_len(s) implies #[trigger] s[i] != '\n' by {
            if i > 0 {
                assert(rest[i - 1] == s[i]);
            }
        }
        if crate::text::line_len(s) < s.len() {
            assert(rest[crate::text::line_len(rest) as int] == s[crate::text::line_len(s) as int]);
        }
    }
}

/// Lines, each ended.
pub open spec fn ended(lines: Seq<Seq<char>>) -> Seq<char>
    decreases lines.len(),
{
    if lines.len() == 0 {
        Seq::empty()
    } else {
        lines[0].push('\n') + ended(lines.drop_first())
    }
}

/// A text that ends its last line and has no carriage returns is made up of its lines, each ended; no line
/// holds the end of another.
pub proof fn law_lines(s: Seq<char>, i: int)
    requires
        s.len() > 0 ==> s.last() == '\n',
        forall|j: int| 0 <= j < s.len() ==> #[trigger] s[j] != '\r',
    ensures
        ended(crate::text::lines_of(s)) == s,
        0 <= i < crate::text::lines_of(s).len() ==> !crate::text::lines_of(s)[i].contains('\n'),
    decreases s.len(),
{
    let n = crate::text::line_len(s);
    lemma_line(s);
    let lines = crate::text::lines_of(s);
    if s.len() > 0 {
        assert(s[s.len() - 1] == '\n');
        assert(n < s.len());
        let first = s.take(n as int);
        let rest = s.skip(n as int + 1);
        if first.len() > 0 {
            assert(first.last() == s[n - 1]);
        }
        assert(crate::text::without_return(first) == first);
        law_lines(rest, i - 1);
        assert(lines.drop_first() =~= crate::text::lines_of(rest));
        assert(first.push('\n') + rest =~= s);
        if i == 0 {
            assert(lines[0] == first);
            assert(!first.contains('\n')) by {
                if first.contains('\n') {
                    let p = first.index_of('\n');
                    assert(s[p] == '\n');
                }
            }
        } else if 0 < i < lines.len() {
            assert(lines[i] == crate::text::lines_of(rest)[i - 1]);
        }
    } else {
        assert(ended(lines) =~= s);
    }
}

/// All slashes at the end of an address go, and nothing else.
pub proof fn law_slashes_at_the_end(s: Seq<char>)
    ensures
        ({
            let cut = crate::urls::unslashed_end(s);
            &&& cut.len() <= s.len()
            &&& cut == s.take(cut.len() as int)
            &&& cut.len() > 0 ==> cut.last() != '/'
            &&& forall|i: int| cut.len() <= i < s.len() ==> #[trigger] s[i] == '/'
        }),
    decreases s.len(),
{
    if s.len() > 0 && s.last() == '/' {
        let shorter = s.drop_last();
        law_slashes_at_the_end(shorter);
        let cut = crate::urls::unslashed_end(s);
        assert(shorter.take(cut.len() as int) =~= s.take(cut.len() as int));
        assert forall|i: int| cut.len() <= i < s.len() implies #[trigger] s[i] == '/' by {
            if i < s.len() - 1 {
                assert(shorter[i] == s[i]);
            }
        }
    } else {
        assert(s.take(s.len() as int) =~= s);
    }
}

/// All slashes at the start of a path go, and nothing else.
pub proof fn law_slashes_at_the_start(s: Seq<char>)
    ensures
        ({
            let cut = crate::urls::unslashed_start(s);
            let n = s.len() - cut.len();
            &&& cut.len() <= s.len()
            &&& cut == s.skip(n)
            &&& cut.len() > 0 ==> cut[0] != '/'
            &&& forall|i: int| 0 <= i < n ==> #[trigger] s[i] == '/'
        }),
    decreases s.len(),
{
    if s.len() > 0 && s[0] == '/' {
        let shorter = s.drop_first();
        law_slashes_at_the_start(shorter);
        let cut = crate::urls::unslashed_start(s);
        let n = s.len() - cut.len();
        assert(shorter.skip(n - 1) =~= s.skip(n));
        assert forall|i: int| 0 <= i < n implies #[trigger] s[i] == '/' by {
            if i > 0 {
                assert(shorter[i - 1] == s[i]);
            }
        }
    } else {
        assert(s.skip(0) =~= s);
    }
}

/// A path that is sent on starts with one slash and ends with the query where there is one.
pub proof fn law_paths_are_sent_on(path: Seq<char>, query: Option<Seq<char>>)
    ensures
        ({
            let target = crate::urls::target_path(path, query);
            let bare = "/"@ + crate::urls::unslashed_start(path);
            &&& query is Some && query->0.len() > 0 ==> target == bare + "?"@ + query->0
            &&& query is None || query->0.len() == 0 ==> target == bare
        }),
{
}

/// An address of the web becomes one of a web socket, and a safe one becomes a safe one; an address of a
/// web socket stays as it is.
pub proof fn law_sockets_follow_the_address(rest: Seq<char>)
    ensures
        crate::urls::ws_base("https://"@ + rest) == Some("wss://"@ + rest),
        crate::urls::ws_base("http://"@ + rest) == Some("ws://"@ + rest),
        crate::urls::ws_base("wss://"@ + rest) == Some("wss://"@ + rest),
        crate::urls::ws_base("ws://"@ + rest) == Some("ws://"@ + rest),
        crate::urls::ws_base("ftp://"@ + rest) is None,
        crate::urls::remote_ws("https://"@ + rest) == crate::urls::unslashed_end("wss://"@ + rest)
            + "/ws/helper"@,
        crate::urls::remote_ws("http://"@ + rest) == crate::urls::unslashed_end("ws://"@ + rest)
            + "/ws/helper"@,
        crate::urls::remote_ws("wss://"@ + rest) == crate::urls::unslashed_end("wss://"@ + rest)
            + "/ws/helper"@,
{
    reveal_strlit("https://");
    reveal_strlit("http://");
    reveal_strlit("wss://");
    reveal_strlit("ws://");
    reveal_strlit("ftp://");
    assert(("https://"@ + rest).skip(8) =~= rest);
    assert(("http://"@ + rest).skip(7) =~= rest);
    assert("https://"@.is_prefix_of("https://"@ + rest));
    assert("http://"@.is_prefix_of("http://"@ + rest));
    assert("wss://"@.is_prefix_of("wss://"@ + rest));
    assert("ws://"@.is_prefix_of("ws://"@ + rest));
    assert(!"https://"@.is_prefix_of("http://"@ + rest)) by {
        if "https://"@.is_prefix_of("http://"@ + rest) {
            assert(("http://"@ + rest).subrange(0, 8)[4] == ("http://"@ + rest)[4]);
            assert("https://"@[4] == 's');
        }
    }
    assert(!"https://"@.is_prefix_of("wss://"@ + rest)) by {
        if "https://"@.is_prefix_of("wss://"@ + rest) {
            assert(("wss://"@ + rest).subrange(0, 8)[0] == ("wss://"@ + rest)[0]);
        }
    }
    assert(!"http://"@.is_prefix_of("wss://"@ + rest)) by {
        if "http://"@.is_prefix_of("wss://"@ + rest) {
            assert(("wss://"@ + rest).subrange(0, 7)[0] == ("wss://"@ + rest)[0]);
        }
    }
    assert(!"https://"@.is_prefix_of("ws://"@ + rest)) by {
        if "https://"@.is_prefix_of("ws://"@ + rest) {
            assert(("ws://"@ + rest).subrange(0, 8)[0] == ("ws://"@ + rest)[0]);
        }
    }
    assert(!"http://"@.is_prefix_of("ws://"@ + rest)) by {
        if "http://"@.is_prefix_of("ws://"@ + rest) {
            assert(("ws://"@ + rest).subrange(0, 7)[0] == ("ws://"@ + rest)[0]);
        }
    }
    assert(!"https://"@.is_prefix_of("ftp://"@ + rest)) by {
        if "https://"@.is_prefix_of("ftp://"@ + rest) {
            assert(("ftp://"@ + rest).subrange(0, 8)[0] == ("ftp://"@ + rest)[0]);
        }
    }
    assert(!"http://"@.is_prefix_of("ftp://"@ + rest)) by {
        if "http://"@.is_prefix_of("ftp://"@ + rest) {
            assert(("ftp://"@ + rest).subrange(0, 7)[0] == ("ftp://"@ + rest)[0]);
        }
    }
    assert(!"wss://"@.is_prefix_of("ftp://"@ + rest)) by {
        if "wss://"@.is_prefix_of("ftp://"@ + rest) {
            assert(("ftp://"@ + rest).subrange(0, 6)[0] == ("ftp://"@ + rest)[0]);
        }
    }
    assert(!"ws://"@.is_prefix_of("ftp://"@ + rest)) by {
        if "ws://"@.is_prefix_of("ftp://"@ + rest) {
            assert(("ftp://"@ + rest).subrange(0, 5)[0] == ("ftp://"@ + rest)[0]);
        }
    }
}

/// A digit of a number to the base sixteen.
pub open spec fn is_hex(c: char) -> bool {
    ('0' <= c && c <= '9') || ('a' <= c && c <= 'f')
}

proof fn lemma_hex(bytes: Seq<u8>)
    ensures
        crate::ids::hex(bytes).len() == bytes.len() * 2,
        forall|i: int|
            0 <= i < bytes.len() * 2 ==> is_hex(#[trigger] crate::ids::hex(bytes)[i]),
{
    assert forall|i: int| 0 <= i < bytes.len() * 2 implies is_hex(
        #[trigger] crate::ids::hex(bytes)[i],
    ) by {
        let b: u8 = bytes[i / 2];
        assert(b / 16 < 16 && b % 16 < 16);
        let n: nat = if i % 2 == 0 {
            (b / 16) as nat
        } else {
            (b % 16) as nat
        };
        assert(crate::ids::hex(bytes)[i] == crate::ids::hex_digit(n));
        if n < 10 {
            assert(((48 + n) as u32) as char as u32 == 48 + n);
        } else {
            assert(((87 + n) as u32) as char as u32 == 87 + n);
        }
    }
}

/// A short name is a prefix and ten digits to the base sixteen; a token is thirty-two of them, in groups
/// of eight, four, four, four and twelve with hyphens between.
pub proof fn law_shape_of_names(text: Seq<char>, prefix: Seq<char>, i: int)
    ensures
        crate::ids::is_short_id(text, prefix) ==> text.len() == prefix.len() + 10 && text.take(
            prefix.len() as int,
        ) == prefix && (prefix.len() <= i < text.len() ==> is_hex(text[i])),
        crate::ids::is_token(text) ==> text.len() == 36 && (0 <= i < 36 ==> if i == 8 || i == 13 || i
            == 18 || i == 23 {
            text[i] == '-'
        } else {
            is_hex(text[i])
        }),
{
    if crate::ids::is_short_id(text, prefix) {
        let bytes = choose|bytes: Seq<u8>| #[trigger]
            crate::ids::is_uuid(bytes, 4) && text == prefix + crate::ids::short(bytes);
        lemma_hex(bytes);
        assert(text.take(prefix.len() as int) =~= prefix);
        if prefix.len() <= i < text.len() {
            assert(text[i] == crate::ids::hex(bytes)[i - prefix.len()]);
        }
    }
    if crate::ids::is_token(text) {
        let bytes = choose|bytes: Seq<u8>| #[trigger]
            crate::ids::is_uuid(bytes, 4) && text == crate::ids::hyphenated(bytes);
        lemma_hex(bytes);
        reveal_strlit("-");
        let digits = crate::ids::hex(bytes);
        assert(text.len() == 36);
        if 0 <= i < 8 {
            assert(text[i] == digits[i]);
        } else if 8 < i < 13 {
            assert(text[i] == digits[i - 1]);
        } else if 13 < i < 18 {
            assert(text[i] == digits[i - 2]);
        } else if 18 < i < 23 {
            assert(text[i] == digits[i - 3]);
        } else if 23 < i < 36 {
            assert(text[i] == digits[i - 4]);
        }
    }
}

/// A message of at most 180 bytes is told whole, without the white space around it; a longer one is cut
/// there and ends in dots.
pub proof fn law_messages_are_cut(value: Seq<char>)
    ensures
        ({
            let text = crate::text::trimmed(value);
            let bytes = vstd::utf8::encode_utf8(text);
            &&& bytes.len() <= 180 ==> crate::sanitize::can_summarize(value)
                && crate::sanitize::summary(value) == text
            &&& bytes.len() > 180 ==> crate::sanitize::summary(value) == vstd::utf8::decode_utf8(
                bytes.subrange(0, 180),
            ) + "..."@
        }),
{
}

/// White space is what the standard for characters says it is.
pub proof fn law_white_space(c: char)
    ensures
        crate::text::is_white_space(c) <==> seq![
            0x9u32,
            0xA,
            0xB,
            0xC,
            0xD,
            0x20,
            0x85,
            0xA0,
            0x1680,
            0x2000,
            0x2001,
            0x2002,
            0x2003,
            0x2004,
            0x2005,
            0x2006,
            0x2007,
            0x2008,
            0x2009,
            0x200A,
            0x2028,
            0x2029,
            0x202F,
            0x205F,
            0x3000,
        ].contains(c as u32),
{
    let all = seq![
        0x9u32,
        0xA,
        0xB,
        0xC,
        0xD,
        0x20,
        0x85,
        0xA0,
        0x1680,
        0x2000,
        0x2001,
        0x2002,
        0x2003,
        0x2004,
        0x2005,
        0x2006,
        0x2007,
        0x2008,
        0x2009,
        0x200A,
        0x2028,
        0x2029,
        0x202F,
        0x205F,
        0x3000,
    ];
    let n = c as u32;
    if 0x9 <= n <= 0xD {
        assert(all[n - 0x9] == n);
    } else if n == 0x20 {
        assert(all[5] == n);
    } else if n == 0x85 {
        assert(all[6] == n);
    } else if n == 0xA0 {
        assert(all[7] == n);
    } else if n == 0x1680 {
        assert(all[8] == n);
    } else if 0x2000 <= n <= 0x200A {
        assert(all[n - 0x2000 + 9] == n);
    } else if n == 0x2028 {
        assert(all[20] == n);
    } else if n == 0x2029 {
        assert(all[21] == n);
    } else if n == 0x202F {
        assert(all[22] == n);
    } else if n == 0x205F {
        assert(all[23] == n);
    } else if n == 0x3000 {
        assert(all[24] == n);
    }
    if all.contains(n) {
        let p = all.index_of(n);
        assert(all[p] == n);
    }
}

proof fn lemma_word_ends(word: Seq<char>, rest: Seq<char>)
    requires
        forall|i: int| 0 <= i < word.len() ==> !crate::text::is_white_space(#[trigger] word[i]),
        rest.len() > 0 ==> crate::text::is_white_space(rest[0]),
    ensures
        crate::text::word_len(word + rest) == word.len(),
    decreases word.len(),
{
    if word.len() > 0 {
        assert((word + rest).drop_first() =~= word.drop_first() + rest);
        assert forall|i: int| 0 <= i < word.drop_first().len() implies !crate::text::is_white_space(
            #[trigger] word.drop_first()[i],
        ) by {
            assert(word.drop_first()[i] == word[i + 1]);
        }
        lemma_word_ends(word.drop_first(), rest);
    } else {
        assert(word + rest =~= rest);
    }
}

/// Every word of a text is told, in order: what white space does not part is one word, what it parts are the
/// words before it and those after it, and white space before a text changes nothing.
pub proof fn law_every_word_is_told(word: Seq<char>, space: char, rest: Seq<char>)
    requires
        word.len() > 0,
        forall|i: int| 0 <= i < word.len() ==> !crate::text::is_white_space(#[trigger] word[i]),
        crate::text::is_white_space(space),
    ensures
        crate::text::words_of(word) == seq![word],
        crate::text::words_of(word + seq![space] + rest) == seq![word] + crate::text::words_of(rest),
        crate::text::words_of(seq![space] + rest) == crate::text::words_of(rest),
{
    let more = seq![space] + rest;
    assert(word + seq![space] + rest =~= word + more);
    lemma_word_ends(word, more);
    lemma_word_ends(word, Seq::empty());
    assert(word + Seq::<char>::empty() =~= word);
    assert((word + more).take(word.len() as int) =~= word);
    assert((word + more).skip(word.len() as int + 1) =~= rest);
    assert((word + more)[0] == word[0]);
    assert(more.drop_first() =~= rest);
}

/// A carriage return before the end of a line is left out, and nothing else is.
pub proof fn law_returns_are_left_out(line: Seq<char>)
    ensures
        crate::text::without_return(line.push('\r')) == line,
        line.len() == 0 || line.last() != '\r' ==> crate::text::without_return(line) == line,
{
    assert(line.push('\r').drop_last() =~= line);
}

/// Of two records of the same rank the one with the last key is taken where the last is wanted, else the one
/// with the first.
pub proof fn law_ties_go_by_key<V>(
    map: Map<Seq<char>, V>,
    test: spec_fn(Seq<char>, V) -> bool,
    rank: spec_fn(V) -> (u128, u128, u128),
    k: Seq<char>,
    j: Seq<char>,
)
    requires
        map.dom().finite(),
        map.contains_key(j),
        map.contains_key(k),
        test(j, map[j]),
        test(k, map[k]),
        rank(map[j]) == rank(map[k]),
        crate::order::lex_lt(j, k),
    ensures
        crate::table::best(map, test, rank, true) != Some(j),
        crate::table::best(map, test, rank, false) != Some(k),
{
    crate::table::lemma_best_exists(map, test, rank, true, j);
    crate::table::lemma_best_exists(map, test, rank, false, j);
    crate::order::lemma_lex_irreflexive(j);
    if crate::order::lex_lt(k, j) {
        crate::order::lemma_lex_transitive(j, k, j);
    }
}

/// The version of a UUID is the first half of its seventh byte, and its ninth byte starts with the bits 10.
pub proof fn law_uuid_bits(bytes: Seq<u8>)
    ensures
        crate::ids::is_uuid(bytes, 4) <==> bytes.len() == 16 && 0x40 <= bytes[6] <= 0x4f && 0x80
            <= bytes[8] <= 0xbf,
{
}

} // verus!
