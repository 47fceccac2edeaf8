//! Who the helper is: its tokens, its identifier, the name of its user, and the arguments that it
//! launches Studio with.
use vstd::prelude::*;

use super::records::ClaimedTask;
use crate::ids::id_of_name;
use crate::order::{chars_of, same_text};
use crate::sanitize::sanitize_identifier;
use crate::table::Dup;
use crate::text::{
    concat3, decode_lossy, is_blank, join, lines, starts_with, strip_prefix, to_ascii_lowercase,
    to_lowercase, trim, trim_start_char, words,
};

verus! {

/// A token, and where it comes from.
pub struct ResolvedToken {
    pub value: String,
    pub source: String,
}

/// What a [`ResolvedToken`] stands for.
#[verifier::ext_equal]
pub struct ResolvedTokenView {
    pub value: Seq<char>,
    pub source: Seq<char>,
}

impl View for ResolvedToken {
    type V = ResolvedTokenView;

    open spec fn view(&self) -> ResolvedTokenView {
        ResolvedTokenView {
            value: self.value@,
            source: self.source@,
        }
    }
}

impl Dup for ResolvedToken {
    fn dup(&self) -> (copy: Self) {
        ResolvedToken {
            value: self.value.clone(),
            source: self.source.clone(),
        }
    }
}

/// The token in a text: white space, a byte order mark and the word Bearer before it are left out.
pub open spec fn marked_bearer(value: Seq<char>) -> Option<Seq<char>> {
    let text = crate::text::trimmed(
        crate::text::without_leading(crate::text::trimmed(value), '\u{feff}'),
    );
    let raw = match crate::text::without_prefix(text, "Bearer "@) {
        Some(rest) => rest,
        None => text,
    };
    if text.len() == 0 {
        None
    } else {
        crate::fields::required(raw)
    }
}

/// The text of a file that holds one line.
pub open spec fn one_line(content: Seq<char>) -> Seq<char> {
    crate::text::trimmed(content.filter(|c: char| c != '\r' && c != '\n'))
}

/// The name of the user in a text.
pub open spec fn user_of(text: Seq<char>) -> Option<Seq<char>> {
    let name = crate::text::lower_case(text);
    if name.len() > 0 {
        Some(name)
    } else {
        None
    }
}

/// The first name of a user in the contents of files.
pub open spec fn user_in_files(files: Seq<Seq<char>>) -> Option<Seq<char>>
    decreases files.len(),
{
    if files.len() == 0 {
        None
    } else {
        match user_of(one_line(files[0])) {
            Some(name) => Some(name),
            None => user_in_files(files.drop_first()),
        }
    }
}

/// The name of the user: the given one, else the first in the files.
pub open spec fn user_resolved(given: Option<Seq<char>>, files: Seq<Seq<char>>) -> Option<Seq<char>> {
    let named = match given {
        Some(text) => user_of(crate::text::trimmed(text)),
        None => None,
    };
    match named {
        Some(name) => Some(name),
        None => user_in_files(files),
    }
}

/// The tokens in the given texts, each with its source.
pub open spec fn tokens_in(items: Seq<ResolvedTokenView>) -> Seq<ResolvedTokenView>
    decreases items.len(),
{
    if items.len() == 0 {
        Seq::empty()
    } else {
        let before = tokens_in(items.drop_last());
        match marked_bearer(items.last().value) {
            Some(token) => before.push(
                ResolvedTokenView { value: token, source: items.last().source },
            ),
            None => before,
        }
    }
}

/// The token is among the items.
pub open spec fn holds_token(items: Seq<ResolvedTokenView>, value: Seq<char>) -> bool {
    exists|i: int| 0 <= i < items.len() && (#[trigger] items[i]).value == value
}

/// The items without those whose token came before.
pub open spec fn first_tokens(items: Seq<ResolvedTokenView>) -> Seq<ResolvedTokenView>
    decreases items.len(),
{
    if items.len() == 0 {
        Seq::empty()
    } else {
        let before = first_tokens(items.drop_last());
        if holds_token(before, items.last().value) {
            before
        } else {
            before.push(items.last())
        }
    }
}

/// The tokens that may be tried, the given one first.
pub open spec fn token_candidates(given: Option<Seq<char>>, files: Seq<ResolvedTokenView>) -> Seq<
    ResolvedTokenView,
> {
    let first = match given {
        Some(text) => seq![ResolvedTokenView { value: text, source: "cli --bearer-token"@ }],
        None => Seq::empty(),
    };
    first_tokens(tokens_in(first + one_lines(files)))
}

/// The contents of the files, each on one line.
pub open spec fn one_lines(files: Seq<ResolvedTokenView>) -> Seq<ResolvedTokenView> {
    files.map_values(
        |f: ResolvedTokenView| ResolvedTokenView { value: one_line(f.value), source: f.source },
    )
}

/// The tokens to try: the current one, then the others.
pub open spec fn attempts(current: ResolvedTokenView, candidates: Seq<ResolvedTokenView>) -> Seq<
    ResolvedTokenView,
> {
    seq![current] + candidates.filter(|c: ResolvedTokenView| c.value != current.value)
}

/// The identifier of a helper on a machine.
pub open spec fn machine_helper_id(machine_guid: Seq<char>) -> Seq<char> {
    "h_"@ + crate::ids::hex(
        crate::ids::name_uuid(
            "windows-machine-guid:"@ + crate::text::ascii_lower(
                crate::text::trimmed(machine_guid),
            ),
        ),
    ).take(12)
}

/// The identifier of the machine in a line of the registry tool.
pub open spec fn guid_in_line(line: Seq<char>) -> Option<Seq<char>> {
    let text = crate::text::trimmed(line);
    let parts = crate::text::words_of(text);
    let value = crate::text::joined(parts.skip(2), " "@);
    if "MachineGuid"@.is_prefix_of(text) && parts.len() >= 2 && parts[0] == "MachineGuid"@
        && parts[1] == "REG_SZ"@ && value.len() > 0 {
        Some(crate::text::trimmed(value))
    } else {
        None
    }
}

/// The identifier of the machine in the first line that holds it.
pub open spec fn guid_in_lines(lines: Seq<Seq<char>>) -> Option<Seq<char>>
    decreases lines.len(),
{
    if lines.len() == 0 {
        None
    } else {
        match guid_in_line(lines[0]) {
            Some(guid) => Some(guid),
            None => guid_in_lines(lines.drop_first()),
        }
    }
}

/// The token in a text.
pub fn normalize_bearer_token(value: &str) -> (token: Option<String>)
    ensures
        token.deep_view() == marked_bearer(value@),
{
    let text = trim(trim_start_char(trim(value), '\u{feff}'));
    if is_blank(text) {
        proof {
            crate::text::lemma_trimmed_twice(
                crate::text::without_leading(crate::text::trimmed(value@), '\u{feff}'),
            );
        }
        return None;
    }
    proof {
        crate::text::lemma_trimmed_twice(
            crate::text::without_leading(crate::text::trimmed(value@), '\u{feff}'),
        );
    }
    let raw: &str = match strip_prefix(text, "Bearer ") {
        Some(rest) => rest,
        None => text,
    };
    let token = trim(raw);
    if is_blank(raw) {
        None
    } else {
        Some(token.to_owned())
    }
}

/// The text of a file that holds one line.
pub fn file_text(content: &str) -> (text: String)
    ensures
        text@ == one_line(content@),
{
    let chars = chars_of(content);
    let ghost keep = |c: char| c != '\r' && c != '\n';
    let mut kept = String::new();
    let mut i: usize = 0;
    proof {
        reveal(Seq::filter);
        assert(chars@.take(0).filter(keep) =~= Seq::empty());
    }
    while i < chars.len()
        invariant
            i <= chars@.len(),
            keep == (|c: char| c != '\r' && c != '\n'),
            kept@ == chars@.take(i as int).filter(keep),
        decreases chars@.len() - i,
    {
        proof {
            reveal(Seq::filter);
            assert(chars@.take(i + 1).drop_last() =~= chars@.take(i as int));
            assert(chars@.take(i + 1).last() == chars@[i as int]);
        }
        let c = chars[i];
        if c != '\r' && c != '\n' {
            kept.push(c);
        }
        i = i + 1;
    }
    assert(chars@.take(chars@.len() as int) =~= chars@);
    trim(kept.as_str()).to_owned()
}

/// The name of the user in a text.
fn user_in(text: &str) -> (name: Option<String>)
    ensures
        name.deep_view() == user_of(text@),
{
    let name = to_lowercase(text);
    if chars_of(name.as_str()).len() > 0 {
        Some(name)
    } else {
        None
    }
}

/// The name of the user: the given one, else the first in the contents of the files.
pub fn resolve_user_name(given: Option<&str>, files: &Vec<String>) -> (result: Result<String, String>)
    ensures
        match user_resolved(given.deep_view(), files.deep_view()) {
            Some(name) => result matches Ok(n) && n@ == name,
            None => result matches Err(message) && message@
                == "cannot resolve feishu-user_name for helper"@,
        },
{
    if let Some(text) = given {
        if let Some(name) = user_in(trim(text)) {
            return Ok(name);
        }
    }
    let ghost contents = files.deep_view();
    let mut i: usize = 0;
    assert(contents.skip(0) =~= contents);
    while i < files.len()
        invariant
            i <= files@.len(),
            contents == files.deep_view(),
            user_in_files(contents.skip(i as int)) == user_in_files(contents),
            user_resolved(given.deep_view(), contents) == user_in_files(contents),
        decreases files@.len() - i,
    {
        assert(contents.skip(i as int)[0] == files@[i as int]@);
        if let Some(name) = user_in(file_text(files[i].as_str()).as_str()) {
            return Ok(name);
        }
        assert(contents.skip(i as int).drop_first() =~= contents.skip(i + 1));
        i = i + 1;
    }
    Err("cannot resolve feishu-user_name for helper".to_owned())
}

/// The tokens in the given texts, each with its source.
fn find_tokens(items: &Vec<ResolvedToken>) -> (tokens: Vec<ResolvedToken>)
    ensures
        crate::table::views(tokens@) == tokens_in(crate::table::views(items@)),
{
    let ghost all = crate::table::views(items@);
    let mut tokens: Vec<ResolvedToken> = Vec::new();
    let mut i: usize = 0;
    assert(crate::table::views(tokens@) =~= tokens_in(all.take(0)));
    while i < items.len()
        invariant
            i <= items@.len(),
            all == crate::table::views(items@),
            crate::table::views(tokens@) == tokens_in(all.take(i as int)),
        decreases items@.len() - i,
    {
        let ghost before = tokens@;
        assert(all.take(i + 1).drop_last() =~= all.take(i as int));
        assert(all.take(i + 1).last() == items@[i as int]@);
        if let Some(value) = normalize_bearer_token(items[i].value.as_str()) {
            let token = ResolvedToken { value, source: items[i].source.clone() };
            assert(crate::table::views(before.push(token)) =~= crate::table::views(before).push(
                token@,
            ));
            tokens.push(token);
        }
        i = i + 1;
    }
    assert(all.take(all.len() as int) =~= all);
    tokens
}

/// The token is among the items.
fn has_token(items: &Vec<ResolvedToken>, value: &str) -> (found: bool)
    ensures
        found == holds_token(crate::table::views(items@), value@),
{
    let ghost all = crate::table::views(items@);
    let mut i: usize = 0;
    while i < items.len()
        invariant
            i <= items@.len(),
            all == crate::table::views(items@),
            forall|j: int| 0 <= j < i ==> (#[trigger] all[j]).value != value@,
        decreases items@.len() - i,
    {
        assert(all[i as int] == items@[i as int]@);
        if same_text(items[i].value.as_str(), value) {
            return true;
        }
        i = i + 1;
    }
    false
}

/// The items without those whose token came before.
fn keep_first_tokens(items: &Vec<ResolvedToken>) -> (tokens: Vec<ResolvedToken>)
    ensures
        crate::table::views(tokens@) == first_tokens(crate::table::views(items@)),
{
    let ghost all = crate::table::views(items@);
    let mut tokens: Vec<ResolvedToken> = Vec::new();
    let mut i: usize = 0;
    assert(crate::table::views(tokens@) =~= first_tokens(all.take(0)));
    while i < items.len()
        invariant
            i <= items@.len(),
            all == crate::table::views(items@),
            crate::table::views(tokens@) == first_tokens(all.take(i as int)),
        decreases items@.len() - i,
    {
        let ghost before = tokens@;
        assert(all.take(i + 1).drop_last() =~= all.take(i as int));
        assert(all.take(i + 1).last() == items@[i as int]@);
        if !has_token(&tokens, items[i].value.as_str()) {
            let token = items[i].dup();
            assert(crate::table::views(before.push(token)) =~= crate::table::views(before).push(
                token@,
            ));
            tokens.push(token);
        }
        i = i + 1;
    }
    assert(all.take(all.len() as int) =~= all);
    tokens
}

/// The tokens that may be tried, the given one first; `files` holds the contents of the token files.
pub fn resolve_bearer_token_candidates(given: Option<&str>, files: &Vec<ResolvedToken>) -> (result: Result<
    Vec<ResolvedToken>,
    String,
>)
    ensures
        match result {
            Ok(tokens) => tokens@.len() > 0 && crate::table::views(tokens@) == token_candidates(
                given.deep_view(),
                crate::table::views(files@),
            ),
            Err(message) => token_candidates(
                given.deep_view(),
                crate::table::views(files@),
            ).len() == 0 && message@ == "cannot resolve feishu-token for helper"@,
        },
{
    let mut items: Vec<ResolvedToken> = Vec::new();
    if let Some(text) = given {
        items.push(
            ResolvedToken { value: text.to_owned(), source: "cli --bearer-token".to_owned() },
        );
    }
    let ghost first = match given.deep_view() {
        Some(text) => seq![ResolvedTokenView { value: text, source: "cli --bearer-token"@ }],
        None => Seq::<ResolvedTokenView>::empty(),
    };
    let ghost rest = one_lines(crate::table::views(files@));
    let mut i: usize = 0;
    assert(crate::table::views(items@) =~= first + rest.take(0));
    while i < files.len()
        invariant
            i <= files@.len(),
            rest == one_lines(crate::table::views(files@)),
            crate::table::views(items@) == first + rest.take(i as int),
        decreases files@.len() - i,
    {
        let ghost before = items@;
        let item = ResolvedToken {
            value: file_text(files[i].value.as_str()),
            source: files[i].source.clone(),
        };
        proof {
            assert(item@ == rest[i as int]);
            assert(crate::table::views(before.push(item)) =~= crate::table::views(before).push(
                item@,
            ));
            assert((first + rest.take(i as int)).push(rest[i as int]) =~= first + rest.take(i + 1));
        }
        items.push(item);
        i = i + 1;
    }
    assert(rest.take(rest.len() as int) =~= rest);
    let found = find_tokens(&items);
    let tokens = keep_first_tokens(&found);
    assert(crate::table::views(tokens@).len() == tokens@.len());
    if tokens.len() == 0 {
        Err("cannot resolve feishu-token for helper".to_owned())
    } else {
        Ok(tokens)
    }
}

/// The token to begin with.
pub fn resolve_bearer_token(given: Option<&str>, files: &Vec<ResolvedToken>) -> (result: Result<
    ResolvedToken,
    String,
>)
    ensures
        ({
            let tokens = token_candidates(given.deep_view(), crate::table::views(files@));
            crate::table::outcome(result) == if tokens.len() > 0 {
                Ok(tokens[0])
            } else {
                Err("cannot resolve feishu-token for helper"@)
            }
        }),
{
    match resolve_bearer_token_candidates(given, files) {
        Ok(tokens) => {
            assert(crate::table::views(tokens@)[0] == tokens@[0]@);
            Ok(tokens[0].dup())
        },
        Err(message) => Err(message),
    }
}

/// The tokens to try: the current one, then the others.
pub fn token_attempts(current: &ResolvedToken, candidates: &Vec<ResolvedToken>) -> (list: Vec<
    ResolvedToken,
>)
    ensures
        crate::table::views(list@) == attempts(current@, crate::table::views(candidates@)),
{
    let ghost all = crate::table::views(candidates@);
    let ghost other = |c: ResolvedTokenView| c.value != current@.value;
    let mut list: Vec<ResolvedToken> = Vec::new();
    list.push(current.dup());
    let mut i: usize = 0;
    proof {
        reveal(Seq::filter);
        assert(all.take(0).filter(other) =~= Seq::empty());
        assert(crate::table::views(list@) =~= seq![current@] + all.take(0).filter(other));
    }
    while i < candidates.len()
        invariant
            i <= candidates@.len(),
            all == crate::table::views(candidates@),
            other == (|c: ResolvedTokenView| c.value != current@.value),
            crate::table::views(list@) == seq![current@] + all.take(i as int).filter(other),
        decreases candidates@.len() - i,
    {
        let ghost before = list@;
        proof {
            reveal(Seq::filter);
            assert(all.take(i + 1).drop_last() =~= all.take(i as int));
            assert(all.take(i + 1).last() == candidates@[i as int]@);
        }
        if !same_text(candidates[i].value.as_str(), current.value.as_str()) {
            let token = candidates[i].dup();
            proof {
                assert(crate::table::views(before.push(token)) =~= crate::table::views(before).push(
                    token@,
                ));
                assert((seq![current@] + all.take(i as int).filter(other)).push(token@) =~= seq![
                    current@,
                ] + all.take(i as int).filter(other).push(token@));
            }
            list.push(token);
        }
        i = i + 1;
    }
    assert(all.take(all.len() as int) =~= all);
    list
}

/// A name stays as it is when it is trimmed.
proof fn lemma_name_trimmed(s: Seq<char>)
    requires
        crate::sanitize::is_name(s),
    ensures
        crate::text::trimmed(s) == s,
{
    assert(crate::sanitize::is_name_char(s[0]));
    assert(crate::sanitize::is_name_char(s.last()));
}

/// The identifier of a helper on a machine.
pub fn helper_id_from_machine_guid(machine_guid: &str) -> (result: Result<String, String>)
    ensures
        crate::table::outcome(result) == if crate::text::trimmed(machine_guid@).len() == 0 {
            Err("MachineGuid must not be empty"@)
        } else {
            Ok(machine_helper_id(machine_guid@))
        },
{
    if is_blank(machine_guid) {
        return Err("MachineGuid must not be empty".to_owned());
    }
    let normalized = to_ascii_lowercase(trim(machine_guid));
    let source = crate::text::concat("windows-machine-guid:", normalized.as_str());
    let id = id_of_name("h_", source.as_str());
    proof {
        reveal_strlit("h_");
        let digits = crate::ids::hex(crate::ids::name_uuid(source@)).take(12);
        assert(crate::sanitize::is_name(id@)) by {
            assert forall|i: int| 0 <= i < id@.len() implies crate::sanitize::is_name_char(
                #[trigger] id@[i],
            ) by {
                if i >= 2 {
                    assert(id@[i] == digits[i - 2]);
                }
            }
        }
        lemma_name_trimmed(id@);
    }
    sanitize_identifier("helper_id", id.as_str())
}

/// The identifier of the machine in a line of the registry tool.
fn find_guid(line: &str) -> (guid: Option<String>)
    ensures
        guid.deep_view() == guid_in_line(line@),
{
    let text = trim(line);
    if !starts_with(text, "MachineGuid") {
        return None;
    }
    let parts = words(text);
    if parts.len() < 2 {
        return None;
    }
    let mut values: Vec<String> = Vec::new();
    let mut i: usize = 2;
    assert(values.deep_view() =~= parts.deep_view().subrange(2, 2));
    while i < parts.len()
        invariant
            2 <= i <= parts@.len(),
            values.deep_view() == parts.deep_view().subrange(2, i as int),
        decreases parts@.len() - i,
    {
        let ghost before = values.deep_view();
        values.push(parts[i].clone());
        assert(values.deep_view() =~= before.push(parts.deep_view()[i as int]));
        assert(values.deep_view() =~= parts.deep_view().subrange(2, i + 1));
        i = i + 1;
    }
    assert(parts.deep_view().subrange(2, i as int) =~= parts.deep_view().skip(2));
    let value = join(&values, " ");
    if same_text(parts[0].as_str(), "MachineGuid") && same_text(parts[1].as_str(), "REG_SZ")
        && chars_of(value.as_str()).len() > 0 {
        Some(trim(value.as_str()).to_owned())
    } else {
        None
    }
}

/// The identifier of the machine in what the registry tool prints.
pub fn parse_machine_guid_reg_query_output(output: &str) -> (result: Result<String, String>)
    ensures
        match guid_in_lines(crate::text::lines_of(output@)) {
            Some(guid) => result matches Ok(g) && g@ == guid,
            None => result matches Err(message) && message@
                == "reg query did not return MachineGuid"@,
        },
{
    let all = lines(output);
    let ghost texts = all.deep_view();
    let mut i: usize = 0;
    assert(texts.skip(0) =~= texts);
    while i < all.len()
        invariant
            i <= all@.len(),
            texts == all.deep_view(),
            texts == crate::text::lines_of(output@),
            guid_in_lines(texts.skip(i as int)) == guid_in_lines(texts),
        decreases all@.len() - i,
    {
        assert(texts.skip(i as int)[0] == all@[i as int]@);
        if let Some(guid) = find_guid(all[i].as_str()) {
            return Ok(guid);
        }
        assert(texts.skip(i as int).drop_first() =~= texts.skip(i + 1));
        i = i + 1;
    }
    Err("reg query did not return MachineGuid".to_owned())
}

/// The identifier of the helper on the machine, from what the registry tool has written.
pub fn helper_id_from_reg_query(stdout: &[u8]) -> (result: Result<String, String>)
    ensures
        crate::table::outcome(result) == match guid_in_lines(
            crate::text::lines_of(crate::text::lossy_text(stdout@)),
        ) {
            Some(guid) => if crate::text::trimmed(guid).len() == 0 {
                Err("MachineGuid must not be empty"@)
            } else {
                Ok(machine_helper_id(guid))
            },
            None => Err("reg query did not return MachineGuid"@),
        },
{
    let output = decode_lossy(stdout);
    match parse_machine_guid_reg_query_output(output.as_str()) {
        Ok(guid) => helper_id_from_machine_guid(guid.as_str()),
        Err(message) => Err(message),
    }
}

/// The arguments that Studio is launched with for a task.
pub fn studio_launch_args_for_claim(task: &ClaimedTask) -> (result: Result<Vec<String>, String>)
    ensures
        match task@.universe_id {
            Some(universe_id) => result matches Ok(args) && args.deep_view() == seq![
                "-task"@,
                "EditPlace"@,
                "-placeId"@,
                task@.place_id,
                "-universeId"@,
                universe_id,
            ],
            None => result matches Err(message) && message@
                == "cannot launch Studio for placeId "@ + task@.place_id + " without universeId"@,
        },
{
    let universe_id = match &task.universe_id {
        Some(id) => id.clone(),
        None => return Err(
            concat3(
                "cannot launch Studio for placeId ",
                task.place_id.as_str(),
                " without universeId",
            ),
        ),
    };
    let ghost universe = universe_id@;
    let mut args: Vec<String> = Vec::new();
    args.push("-task".to_owned());
    args.push("EditPlace".to_owned());
    args.push("-placeId".to_owned());
    args.push(task.place_id.clone());
    args.push("-universeId".to_owned());
    args.push(universe_id);
    assert(args.deep_view() =~= seq![
        "-task"@,
        "EditPlace"@,
        "-placeId"@,
        task@.place_id,
        "-universeId"@,
        universe,
    ]);
    Ok(args)
}

/// Every token among those that may be tried stands there once.
pub proof fn law_candidates_are_distinct(given: Option<Seq<char>>, files: Seq<ResolvedTokenView>)
    ensures
        ({
            let tokens = token_candidates(given, files);
            forall|i: int, j: int|
                0 <= i < j < tokens.len() ==> (#[trigger] tokens[i]).value != (
                #[trigger] tokens[j]).value
        }),
{
    let first = match given {
        Some(text) => seq![ResolvedTokenView { value: text, source: "cli --bearer-token"@ }],
        None => Seq::empty(),
    };
    lemma_first_tokens(tokens_in(first + one_lines(files)));
}

proof fn lemma_first_tokens(items: Seq<ResolvedTokenView>)
    ensures
        forall|i: int, j: int|
            0 <= i < j < first_tokens(items).len() ==> (#[trigger] first_tokens(items)[i]).value
                != (#[trigger] first_tokens(items)[j]).value,
        forall|i: int|
            0 <= i < items.len() ==> holds_token(first_tokens(items), (#[trigger] items[i]).value),
    decreases items.len(),
{
    if items.len() > 0 {
        let rest = items.drop_last();
        lemma_first_tokens(rest);
        let before = first_tokens(rest);
        let after = first_tokens(items);
        assert forall|i: int, j: int| 0 <= i < j < after.len() implies (#[trigger] after[i]).value
            != (#[trigger] after[j]).value by {
            if j < before.len() {
                assert(before[i].value != before[j].value);
            } else {
                assert(after[j] == items.last());
                assert(before[i] == after[i]);
            }
        }
        assert forall|i: int| 0 <= i < items.len() implies holds_token(
            after,
            (#[trigger] items[i]).value,
        ) by {
            if i < rest.len() {
                assert(rest[i] == items[i]);
                assert(holds_token(before, rest[i].value));
                let k = choose|k: int|
                    0 <= k < before.len() && (#[trigger] before[k]).value == rest[i].value;
                assert(after[k] == before[k]);
            } else if !holds_token(before, items.last().value) {
                assert(after[before.len() as int] == items.last());
            }
        }
    }
}

/// Every token that was found may be tried.
pub proof fn law_no_token_is_lost(items: Seq<ResolvedTokenView>, i: int)
    requires
        0 <= i < items.len(),
    ensures
        holds_token(first_tokens(items), items[i].value),
{
    lemma_first_tokens(items);
}

/// The token that is in use is always tried first, and no other attempt repeats it.
pub proof fn law_current_token_comes_first(
    current: ResolvedTokenView,
    candidates: Seq<ResolvedTokenView>,
)
    ensures
        attempts(current, candidates)[0] == current,
        forall|i: int|
            1 <= i < attempts(current, candidates).len() ==> (#[trigger] attempts(
                current,
                candidates,
            )[i]).value != current.value,
{
    let other = |c: ResolvedTokenView| c.value != current.value;
    let rest = candidates.filter(other);
    assert forall|i: int| 1 <= i < attempts(current, candidates).len() implies (#[trigger] attempts(
        current,
        candidates,
    )[i]).value != current.value by {
        assert(attempts(current, candidates)[i] == rest[i - 1]);
        candidates.lemma_filter_pred(other, i - 1);
    }
}

} // verus!
