//! What is needed to start Studio and to reach the servers of a task.
use vstd::prelude::*;

use super::config::ResolvedToken;
use super::records::ClaimedTask;
use super::timing::{REMOTE_WS_CONNECT_TIMEOUT, ROBLOX_PLACE_UNIVERSE_LOOKUP_TIMEOUT};
use crate::order::{chars_of, same_text};
use crate::sanitize::{sanitize_place_id, summarize_error};
use crate::table::Dup;
use crate::text::{concat, concat3, decimal_text, ends_with, is_blank};

verus! {

use super::records::ClaimedTaskView;

/// How many characters stand before the first quote.
pub open spec fn piece_len(s: Seq<char>) -> nat
    decreases s.len(),
{
    if s.len() == 0 || s[0] == '"' {
        0
    } else {
        1 + piece_len(s.drop_first())
    }
}

/// The pieces of a text between its quotes.
pub open spec fn pieces(s: Seq<char>) -> Seq<Seq<char>>
    decreases s.len(),
{
    if piece_len(s) >= s.len() {
        seq![s]
    } else {
        seq![s.take(piece_len(s) as int)] + pieces(s.skip(piece_len(s) as int + 1))
    }
}

/// The pieces of a start script that name the server for the official tools.
pub open spec fn tool_servers(script: Seq<char>) -> Seq<Seq<char>> {
    pieces(script).filter(|p: Seq<char>| "StudioMCP.exe"@.is_suffix_of(p))
}

/// The universe of a task's place has to be looked up.
pub open spec fn lacks_universe(task: ClaimedTaskView) -> bool {
    crate::fields::optional(task.universe_id) is None
}

/// Seconds, in words of a message.
pub open spec fn seconds(nanos: u128) -> Seq<char> {
    crate::text::decimal((nanos / 1_000_000_000) as nat) + "s"@
}

/// The pieces of a text between its quotes.
fn split_quotes(s: &str) -> (list: Vec<String>)
    ensures
        list.deep_view() == pieces(s@),
{
    let chars = chars_of(s);
    let mut list: Vec<String> = Vec::new();
    let mut at: usize = 0;
    assert(chars@.skip(0) =~= chars@);
    assert(list.deep_view() + pieces(chars@) =~= pieces(chars@));
    loop
        invariant
            at <= chars@.len(),
            chars@ == s@,
            list.deep_view() + pieces(chars@.skip(at as int)) == pieces(chars@),
        decreases chars@.len() - at,
    {
        let ghost rest = chars@.skip(at as int);
        let start: usize = at;
        let ghost before = list.deep_view();
        let mut piece = String::new();
        while at < chars.len() && chars[at] != '"'
            invariant
                start <= at <= chars@.len(),
                rest == chars@.skip(start as int),
                piece@ == chars@.subrange(start as int, at as int),
                piece_len(rest) == (at - start) + piece_len(chars@.skip(at as int)),
            decreases chars@.len() - at,
        {
            assert(chars@.skip(at as int).drop_first() =~= chars@.skip(at + 1));
            piece.push(chars[at]);
            assert(piece@ =~= chars@.subrange(start as int, at + 1));
            at = at + 1;
        }
        assert(piece_len(chars@.skip(at as int)) == 0);
        let ghost found = piece@;
        list.push(piece);
        assert(list.deep_view() =~= before.push(found));
        if at >= chars.len() {
            proof {
                assert(found =~= rest);
                assert(before + seq![found] =~= before.push(found));
            }
            return list;
        }
        proof {
            assert(rest.take(piece_len(rest) as int) =~= found);
            assert(rest.skip(piece_len(rest) as int + 1) =~= chars@.skip(at + 1));
            assert(before + (seq![found] + pieces(chars@.skip(at + 1))) =~= before.push(found)
                + pieces(chars@.skip(at + 1)));
        }
        at = at + 1;
    }
}

/// Where a start script says that the server for the official tools is; the first that exists is used.
pub fn official_server_paths(script: &str) -> (paths: Vec<String>)
    ensures
        paths.deep_view() == tool_servers(script@),
{
    let all = split_quotes(script);
    let ghost texts = all.deep_view();
    let ghost keep = |p: Seq<char>| "StudioMCP.exe"@.is_suffix_of(p);
    let mut paths: Vec<String> = Vec::new();
    let mut i: usize = 0;
    proof {
        reveal(Seq::filter);
        assert(texts.take(0).filter(keep) =~= Seq::empty());
        assert(paths.deep_view() =~= Seq::empty());
    }
    while i < all.len()
        invariant
            i <= all@.len(),
            texts == all.deep_view(),
            keep == (|p: Seq<char>| "StudioMCP.exe"@.is_suffix_of(p)),
            paths.deep_view() == texts.take(i as int).filter(keep),
        decreases all@.len() - i,
    {
        let ghost before = paths.deep_view();
        proof {
            reveal(Seq::filter);
            assert(texts.take(i + 1).drop_last() =~= texts.take(i as int));
            assert(texts.take(i + 1).last() == all@[i as int]@);
        }
        if ends_with(all[i].as_str(), "StudioMCP.exe") {
            paths.push(all[i].clone());
            assert(paths.deep_view() =~= before.push(all@[i as int]@));
        }
        i += 1;
    }
    assert(texts.take(all@.len() as int) =~= texts);
    paths
}

/// The universe of a task's place has to be looked up.
pub fn needs_universe_id(task: &ClaimedTask) -> (needed: bool)
    ensures
        needed == lacks_universe(task@),
{
    match &task.universe_id {
        Some(id) => is_blank(id.as_str()),
        None => true,
    }
}

/// Where the universe of a place is looked up.
pub fn universe_lookup_url(place_id: &str) -> (result: Result<String, String>)
    ensures
        crate::table::outcome(result) == (if crate::sanitize::is_place_id(
            crate::text::trimmed(place_id@),
        ) {
            Ok(
                "https://apis.roblox.com/universes/v1/places/"@ + crate::text::trimmed(place_id@)
                    + "/universe"@,
            )
        } else {
            Err("placeId must be digits only"@)
        }),
{
    match sanitize_place_id(place_id) {
        Ok(place) => Ok(
            concat3("https://apis.roblox.com/universes/v1/places/", place.as_str(), "/universe"),
        ),
        Err(message) => Err(message),
    }
}

/// What is said of a lookup that took too long.
pub fn universe_lookup_timed_out(place_id: &str) -> (message: String)
    ensures
        message@ == "timed out resolving universeId for placeId "@ + place_id@ + " after "@ + seconds(
            ROBLOX_PLACE_UNIVERSE_LOOKUP_TIMEOUT,
        ),
{
    let head = concat3("timed out resolving universeId for placeId ", place_id, " after ");
    let time = concat(
        decimal_text(ROBLOX_PLACE_UNIVERSE_LOOKUP_TIMEOUT / 1_000_000_000).as_str(),
        "s",
    );
    concat(head.as_str(), time.as_str())
}

/// What is said of a lookup that was answered badly.
pub fn universe_lookup_failed(place_id: &str, status_text: &str, body: &str) -> (message: String)
    requires
        crate::sanitize::can_summarize(body@),
    ensures
        message@ == "failed to resolve universeId for placeId "@ + place_id@ + ": HTTP "@
            + status_text@ + ": "@ + crate::sanitize::summary(body@),
{
    let head = concat3("failed to resolve universeId for placeId ", place_id, ": HTTP ");
    let middle = concat3(head.as_str(), status_text, ": ");
    concat(middle.as_str(), summarize_error(body).as_str())
}

/// What is said of a connection that took too long to come up.
pub fn connect_timed_out() -> (message: String)
    ensures
        message@ == "websocket connect timed out after "@ + seconds(REMOTE_WS_CONNECT_TIMEOUT),
{
    let time = concat(decimal_text(REMOTE_WS_CONNECT_TIMEOUT / 1_000_000_000).as_str(), "s");
    concat("websocket connect timed out after ", time.as_str())
}

/// What is said where no token led to a connection.
pub fn connect_failed(last_error: Option<&str>) -> (message: String)
    ensures
        message@ == (match last_error.deep_view() {
            Some(error) => error,
            None => "websocket connect failed"@,
        }),
{
    match last_error {
        Some(error) => error.to_owned(),
        None => "websocket connect failed".to_owned(),
    }
}

/// The token that a helper goes on with after it led to a connection, where it is another one.
pub fn token_to_keep(candidate: &ResolvedToken, current_token: &str) -> (token: Option<
    ResolvedToken,
>)
    ensures
        crate::table::opt_view(token) == (if candidate@.value != current_token@ {
            Some(candidate@)
        } else {
            None
        }),
{
    if same_text(candidate.value.as_str(), current_token) {
        None
    } else {
        Some(candidate.dup())
    }
}

/// The pieces of a text, with the quotes between them, are the text.
pub proof fn law_pieces_make_the_text(s: Seq<char>)
    ensures
        crate::text::joined(pieces(s), seq!['"']) == s,
    decreases s.len(),
{
    lemma_piece(s);
    if piece_len(s) < s.len() {
        let n = piece_len(s) as int;
        let rest = s.skip(n + 1);
        law_pieces_make_the_text(rest);
        lemma_pieces_some(rest);
        lemma_joined_first(s.take(n), pieces(rest), seq!['"']);
        assert(s.take(n) + seq!['"'] + rest =~= s);
    }
}

proof fn lemma_piece(s: Seq<char>)
    ensures
        piece_len(s) <= s.len(),
        piece_len(s) < s.len() ==> s[piece_len(s) as int] == '"',
    decreases s.len(),
{
    if s.len() > 0 && s[0] != '"' {
        lemma_piece(s.drop_first());
    }
}

proof fn lemma_pieces_some(s: Seq<char>)
    ensures
        pieces(s).len() > 0,
    decreases s.len(),
{
}

proof fn lemma_joined_first(first: Seq<char>, rest: Seq<Seq<char>>, separator: Seq<char>)
    requires
        rest.len() > 0,
    ensures
        crate::text::joined(seq![first] + rest, separator) == first + separator
            + crate::text::joined(rest, separator),
    decreases rest.len(),
{
    let all = seq![first] + rest;
    if rest.len() == 1 {
        assert(all.drop_last() =~= seq![first]);
        assert(all.last() == rest[0]);
        assert(crate::text::joined(seq![first], separator) == first);
    } else {
        assert(all.drop_last() =~= seq![first] + rest.drop_last());
        lemma_joined_first(first, rest.drop_last(), separator);
        assert(all.last() == rest.last());
        assert(crate::text::joined(all, separator) == crate::text::joined(all.drop_last(), separator)
            + separator + all.last());
        assert(first + separator + crate::text::joined(rest.drop_last(), separator) + separator
            + rest.last() =~= first + separator + (crate::text::joined(rest.drop_last(), separator)
            + separator + rest.last()));
    }
}

} // verus!
