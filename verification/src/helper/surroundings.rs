//! What a helper makes of its surroundings: who it is, which token it uses, which windows, processes and
//! files of Studio it takes, said of what it finds there.
use vstd::prelude::*;

use super::capture::{ChildWindowCandidate, TcpRow, WindowCandidateView};
use super::config::ResolvedTokenView;
use super::records::ClaimedTaskView;
use super::studio_log::DatedFileView;
use crate::folders::UserFolder;

verus! {

/// A token in a file or an argument may lead with a byte order mark and with the word for it; it is never
/// blank.
pub proof fn law_marked_tokens_are_bare(text: Seq<char>)
    ensures
        super::config::marked_bearer(text) matches Some(token) ==> token.len() > 0
            && crate::text::trimmed(token) == token,
        crate::text::trimmed(text).len() == 0 ==> super::config::marked_bearer(text) is None,
{
    let whole = crate::text::trimmed(
        crate::text::without_leading(crate::text::trimmed(text), '\u{feff}'),
    );
    let raw = match crate::text::without_prefix(whole, "Bearer "@) {
        Some(rest) => rest,
        None => whole,
    };
    crate::text::lemma_trimmed_twice(raw);
    assert(crate::text::trimmed(Seq::<char>::empty()) =~= Seq::<char>::empty());
    if crate::text::trimmed(text).len() == 0 {
        assert(crate::text::trimmed(text) =~= Seq::<char>::empty());
    }
}

/// The user is the one that is named, in small letters, where one is; else the first that a file names.
pub proof fn law_user_is_found(given: Option<Seq<char>>, files: Seq<Seq<char>>)
    ensures
        ({
            let found = super::config::user_resolved(given, files);
            let named = if given is Some {
                crate::text::lower_case(crate::text::trimmed(given->0))
            } else {
                Seq::empty()
            };
            &&& named.len() > 0 ==> found == Some(named)
            &&& named.len() == 0 && files.len() == 0 ==> found is None
            &&& named.len() == 0 && files.len() > 0 ==> {
                let first = crate::text::lower_case(super::config::one_line(files[0]));
                found == if first.len() > 0 {
                    Some(first)
                } else {
                    super::config::user_resolved(None, files.drop_first())
                }
            }
        }),
{
}

/// What stands in a file is taken as one line, without the ends of lines and the white space around it.
pub proof fn law_files_hold_one_line(content: Seq<char>, c: char)
    ensures
        ({
            let line = super::config::one_line(content);
            &&& !line.contains('\n')
            &&& !line.contains('\r')
            &&& line.contains(c) ==> content.contains(c)
        }),
{
    let test = |c: char| c != '\r' && c != '\n';
    let bare = content.filter(test);
    let line = super::config::one_line(content);
    crate::basics::law_trimming(bare, 0);
    let (a, b) = choose|a: int, b: int|
        #![trigger bare.subrange(a, b)]
        0 <= a <= b <= bare.len() && crate::text::trimmed(bare) == bare.subrange(a, b)
            && crate::basics::white(bare, 0, a) && crate::basics::white(bare, b, bare.len() as int)
            && (a < b ==> !crate::text::is_white_space(bare[a]) && !crate::text::is_white_space(
            bare[b - 1],
        ));
    assert forall|x: char| #[trigger] line.contains(x) implies bare.contains(x) by {
        let p = line.index_of(x);
        assert(bare[a + p] == x);
    }
    crate::basics::lemma_picked(content, test, '\n');
    crate::basics::lemma_picked(content, test, '\r');
    crate::basics::lemma_picked(content, test, c);
    assert(line.contains('\n') ==> bare.contains('\n'));
    assert(line.contains('\r') ==> bare.contains('\r'));
    assert(line.contains(c) ==> bare.contains(c));
}

/// The token that was given is tried before those in files, and is told to be from the argument.
pub proof fn law_given_token_comes_first(
    given: Seq<char>,
    files: Seq<ResolvedTokenView>,
)
    requires
        super::config::marked_bearer(given) is Some,
    ensures
        ({
            let tokens = super::config::token_candidates(Some(given), files);
            &&& tokens.len() > 0
            &&& tokens[0].value == super::config::marked_bearer(given)->0
            &&& tokens[0].source == "cli --bearer-token"@
        }),
{
    let first = seq![ResolvedTokenView { value: given, source: "cli --bearer-token"@ }];
    let all = first + super::config::one_lines(files);
    lemma_first_token(all, first[0]);
}

proof fn lemma_first_token(items: Seq<ResolvedTokenView>, first: ResolvedTokenView)
    requires
        items.len() > 0,
        items[0] == first,
        super::config::marked_bearer(first.value) is Some,
    ensures
        ({
            let tokens = super::config::tokens_in(items);
            let kept = super::config::first_tokens(tokens);
            let token = ResolvedTokenView {
                value: super::config::marked_bearer(first.value)->0,
                source: first.source,
            };
            &&& tokens.len() > 0 && tokens[0] == token
            &&& kept.len() > 0 && kept[0] == token
        }),
    decreases items.len(),
{
    let token = ResolvedTokenView {
        value: super::config::marked_bearer(first.value)->0,
        source: first.source,
    };
    let tokens = super::config::tokens_in(items);
    if items.len() == 1 {
        assert(super::config::tokens_in(items.drop_last()) =~= Seq::<ResolvedTokenView>::empty());
        assert(tokens =~= seq![token]);
    } else {
        lemma_first_token(items.drop_last(), first);
    }
    lemma_first_kept(tokens);
}

proof fn lemma_first_kept(tokens: Seq<ResolvedTokenView>)
    requires
        tokens.len() > 0,
    ensures
        super::config::first_tokens(tokens).len() > 0,
        super::config::first_tokens(tokens)[0] == tokens[0],
    decreases tokens.len(),
{
    if tokens.len() == 1 {
        assert(super::config::first_tokens(tokens.drop_last()) =~= Seq::<
            ResolvedTokenView,
        >::empty());
    } else {
        lemma_first_kept(tokens.drop_last());
    }
}

/// Of the files of logs the newest comes first; where some are Studio's own, those are taken, else any.
pub proof fn law_logs_are_listed(
    files: Seq<DatedFileView>,
    logs_dir: Seq<char>,
    file: DatedFileView,
)
    requires
        files.contains(file),
        file.extension == Some("log"@),
    ensures
        ({
            let found = super::studio_log::log_candidates(files, logs_dir);
            &&& found is Ok
            &&& found->Ok_0.len() > 0
            &&& crate::text::holds_text(file.name, "_Studio_"@) ==> found->Ok_0.contains(file.path)
        }),
{
    let test = |f: DatedFileView| super::studio_log::is_log(f);
    let own = |f: DatedFileView| super::studio_log::is_studio_log(f);
    let logs = files.filter(test);
    let ordered = super::studio_log::newest_first(logs);
    let studio = ordered.filter(own);
    crate::basics::lemma_picked(files, test, file);
    super::studio_log::law_newest_first(logs);
    assert(ordered.contains(file)) by {
        broadcast use vstd::seq_lib::group_to_multiset_ensures;

        assert(logs.to_multiset().contains(file));
        assert(ordered.to_multiset().contains(file));
    }
    if crate::text::holds_text(file.name, "_Studio_"@) {
        crate::basics::lemma_picked(ordered, own, file);
        let p = studio.index_of(file);
        assert(super::studio_log::paths(studio)[p] == file.path);
    }
}

/// The lines that are told start where they are asked to: counted from the first line, or from the last
/// where the number is negative, and within the log; as many as are asked for, where there are as many.
pub proof fn law_lines_are_selected(
    path: Seq<char>,
    all: Seq<Seq<char>>,
    start_line: Option<i64>,
    line_count: Option<usize>,
)
    requires
        0 < all.len() <= usize::MAX,
    ensures
        ({
            let told = super::studio_log::selected_lines(path, all, start_line, line_count);
            let n = start_line->0;
            let start = told.range_start as int;
            &&& told.path == path
            &&& told.total_lines == all.len()
            &&& start_line is None ==> start == 1
            &&& start_line is Some && 1 <= n <= all.len() ==> start == n
            &&& start_line is Some && n > all.len() ==> start == all.len()
            &&& start_line is Some && n == 0 ==> start == 1
            &&& start_line is Some && -all.len() <= n < 0 ==> start == all.len() + n + 1
            &&& start_line is Some && n < -all.len() ==> start == 1
            &&& line_count is None ==> told.range_end == all.len()
            &&& line_count is Some && line_count->0 > 0 && start + line_count->0 - 1 <= all.len()
                ==> told.range_end == start + line_count->0 - 1
            &&& line_count is Some && line_count->0 > 0 && start + line_count->0 - 1 > all.len()
                ==> told.range_end == all.len()
            &&& line_count == Some(0usize) ==> told.range_end == start
            &&& told.lines == all.subrange(start - 1, told.range_end as int)
        }),
{
}

/// A log that is searched is told in those of its lines that fit.
pub proof fn law_searched_lines_fit(content: Seq<char>, pattern: Seq<char>, line: Seq<char>)
    ensures
        super::studio_log::matching_lines(content, Some(pattern)).contains(line)
            <==> crate::text::lines_of(content).contains(line) && crate::pattern::regex_matches(
            pattern,
            line,
        ),
        super::studio_log::matching_lines(content, None) == crate::text::lines_of(content),
{
    crate::basics::lemma_picked(
        crate::text::lines_of(content),
        |line: Seq<char>| crate::pattern::regex_matches(pattern, line),
        line,
    );
}

/// The process at the other end of a connection is the one that owns the row for it: from the peer's
/// address and port to this machine, on the helper's port. The first such row counts.
pub proof fn law_peer_owns_its_row(
    rows: Seq<TcpRow>,
    peer_addr: u32,
    peer_port: u16,
    helper_port: u16,
    i: int,
)
    ensures
        ({
            let fits = |row: TcpRow|
                super::capture::swapped(row.local_addr) == peer_addr && super::capture::swapped_low(
                    row.local_port,
                ) == peer_port && super::capture::swapped(row.remote_addr) == 0x7f00_0001
                    && super::capture::swapped_low(row.remote_port) == helper_port;
            let found = super::capture::peer_process(rows, peer_addr, peer_port, helper_port);
            &&& found matches Some(pid) ==> exists|k: int|
                0 <= k < rows.len() && fits(#[trigger] rows[k]) && rows[k].owning_pid == pid && (0
                    <= i < k ==> !fits(rows[i]))
            &&& 0 <= i < rows.len() && fits(rows[i]) ==> found is Some
        }),
    decreases rows.len(),
{
    let fits = |row: TcpRow|
        super::capture::swapped(row.local_addr) == peer_addr && super::capture::swapped_low(
            row.local_port,
        ) == peer_port && super::capture::swapped(row.remote_addr) == 0x7f00_0001
            && super::capture::swapped_low(row.remote_port) == helper_port;
    if rows.len() > 0 {
        if super::capture::is_peer_row(rows[0], peer_addr, peer_port, helper_port) {
            assert(fits(rows[0]));
        } else {
            let rest = rows.drop_first();
            law_peer_owns_its_row(rest, peer_addr, peer_port, helper_port, i - 1);
            if let Some(pid) = super::capture::peer_process(
                rest,
                peer_addr,
                peer_port,
                helper_port,
            ) {
                let k = choose|k: int|
                    0 <= k < rest.len() && fits(#[trigger] rest[k]) && rest[k].owning_pid == pid && (
                    0 <= i - 1 < k ==> !fits(rest[i - 1]));
                assert(rows[k + 1] == rest[k]);
                if 0 < i < k + 1 {
                    assert(rows[i] == rest[i - 1]);
                }
            }
            if 0 < i < rows.len() && fits(rows[i]) {
                assert(rest[i - 1] == rows[i]);
            }
        }
    }
}

/// The window of Studio is one of its process: one that says it is Studio before one that does not, and of
/// those the largest. Where the process has none, the only window that says it is Studio will do.
pub proof fn law_window_of_studio(
    windows: Seq<WindowCandidateView>,
    pid: u32,
    w: WindowCandidateView,
)
    requires
        windows.contains(w),
        w.process_id == pid,
    ensures
        ({
            let found = super::capture::studio_window(windows, pid);
            let named = |v: WindowCandidateView|
                crate::text::holds_text(v.title, "Roblox Studio"@);
            &&& found is Ok
            &&& found->Ok_0.process_id == pid
            &&& windows.contains(found->Ok_0)
            &&& named(w) ==> named(found->Ok_0)
            &&& named(w) == named(found->Ok_0) ==> found->Ok_0.width * found->Ok_0.height >= w.width
                * w.height
        }),
{
    super::capture::law_likeliest_window(windows, pid);
    let p = windows.index_of(w);
    assert(windows[p] == w);
}

/// A child window that is found is the first that fits.
proof fn lemma_first_child(
    windows: Seq<ChildWindowCandidate>,
    fits: spec_fn(ChildWindowCandidate) -> bool,
    i: int,
)
    ensures
        ({
            let found = super::capture::first_child(windows, fits);
            &&& found matches Some(hwnd) ==> exists|k: int|
                0 <= k < windows.len() && fits(#[trigger] windows[k]) && windows[k].hwnd == hwnd
            &&& 0 <= i < windows.len() && fits(windows[i]) ==> found is Some
        }),
    decreases windows.len(),
{
    if windows.len() > 0 && !fits(windows[0]) {
        let rest = windows.drop_first();
        lemma_first_child(rest, fits, i - 1);
        if let Some(hwnd) = super::capture::first_child(rest, fits) {
            let k = choose|k: int|
                0 <= k < rest.len() && fits(#[trigger] rest[k]) && rest[k].hwnd == hwnd;
            assert(windows[k + 1] == rest[k]);
        }
        if 0 < i < windows.len() && fits(windows[i]) {
            assert(rest[i - 1] == windows[i]);
        }
    }
}

/// The view into the place is a child window of the right size where there is one, else one that is large
/// enough, else the window of Studio itself.
pub proof fn law_viewport_is_chosen(windows: Seq<ChildWindowCandidate>, studio: usize, i: int)
    ensures
        ({
            let found = super::capture::viewport(windows, studio);
            let right = |w: ChildWindowCandidate|
                1000 < w.width && w.width < 1660 && 500 < w.height && w.height < 680;
            let large = |w: ChildWindowCandidate| w.width > 1000 && w.height > 500;
            &&& 0 <= i < windows.len() && right(windows[i]) ==> exists|k: int|
                0 <= k < windows.len() && right(#[trigger] windows[k]) && windows[k].hwnd == found
            &&& 0 <= i < windows.len() && large(windows[i]) ==> exists|k: int|
                0 <= k < windows.len() && large(#[trigger] windows[k]) && windows[k].hwnd == found
            &&& (forall|k: int| 0 <= k < windows.len() ==> !large(#[trigger] windows[k])) ==> found
                == studio
        }),
{
    let right = |w: ChildWindowCandidate|
        1000 < w.width && w.width < 1660 && 500 < w.height && w.height < 680;
    let large = |w: ChildWindowCandidate| w.width > 1000 && w.height > 500;
    let a = |w: ChildWindowCandidate| super::capture::is_viewport(w);
    let b = |w: ChildWindowCandidate| super::capture::may_be_viewport(w);
    lemma_first_child(windows, a, i);
    lemma_first_child(windows, b, i);
    if let Some(hwnd) = super::capture::first_child(windows, a) {
        let k = choose|k: int|
            0 <= k < windows.len() && a(#[trigger] windows[k]) && windows[k].hwnd == hwnd;
        assert(a(windows[k]));
        assert(right(windows[k]) && large(windows[k]));
    } else if let Some(hwnd) = super::capture::first_child(windows, b) {
        let k = choose|k: int|
            0 <= k < windows.len() && b(#[trigger] windows[k]) && windows[k].hwnd == hwnd;
        assert(b(windows[k]));
        assert(large(windows[k]));
    }
    if 0 <= i < windows.len() {
        assert(right(windows[i]) ==> a(windows[i]));
        assert(large(windows[i]) ==> b(windows[i]));
    }
}

/// The content of Studio is a child window of the right size where there is one.
pub proof fn law_content_is_chosen(windows: Seq<ChildWindowCandidate>, studio: usize, i: int)
    ensures
        ({
            let found = super::capture::content_area(windows, studio);
            let right = |w: ChildWindowCandidate|
                600 < w.height && w.height < 750 && w.width > 2000;
            &&& 0 <= i < windows.len() && right(windows[i]) ==> exists|k: int|
                0 <= k < windows.len() && right(#[trigger] windows[k]) && windows[k].hwnd == found
            &&& (forall|k: int|
                0 <= k < windows.len() ==> (#[trigger] windows[k]).width <= windows[k].height)
                ==> found == studio || exists|k: int|
                0 <= k < windows.len() && right(#[trigger] windows[k])
        }),
{
    let right = |w: ChildWindowCandidate| 600 < w.height && w.height < 750 && w.width > 2000;
    let a = |w: ChildWindowCandidate| super::capture::is_content(w);
    lemma_first_child(windows, a, i);
    if let Some(hwnd) = super::capture::first_child(windows, a) {
        let k = choose|k: int|
            0 <= k < windows.len() && a(#[trigger] windows[k]) && windows[k].hwnd == hwnd;
        assert(right(windows[k]));
    } else {
        lemma_largest_child(windows);
    }
}

proof fn lemma_largest_child(windows: Seq<ChildWindowCandidate>)
    ensures
        match super::capture::largest_child(windows) {
            Some(w) => exists|k: int|
                0 <= k < windows.len() && #[trigger] windows[k] == w && w.width > w.height && forall|
                    j: int,
                |
                    0 <= j < windows.len() && (#[trigger] windows[j]).width > windows[j].height
                        ==> w.width * w.height >= windows[j].width * windows[j].height,
            None => forall|k: int|
                0 <= k < windows.len() ==> (#[trigger] windows[k]).width <= windows[k].height,
        },
    decreases windows.len(),
{
    if windows.len() > 0 {
        let front = windows.drop_last();
        let last = windows.last();
        lemma_largest_child(front);
        assert(windows[windows.len() - 1] == last);
        match super::capture::largest_child(front) {
            Some(best) => {
                let k = choose|k: int| 0 <= k < front.len() && #[trigger] front[k] == best;
                assert(windows[k] == best);
                assert forall|j: int|
                    0 <= j < front.len() && (#[trigger] windows[j]).width
                        > windows[j].height implies best.width * best.height >= windows[j].width
                    * windows[j].height by {
                    assert(front[j] == windows[j]);
                }
            },
            None => {
                assert forall|j: int| 0 <= j < front.len() implies (#[trigger] windows[j]).width
                    <= windows[j].height by {
                    assert(front[j] == windows[j]);
                }
            },
        }
    }
}

/// Among wide child windows the one that is taken for the content is the largest.
pub proof fn law_largest_child_is_taken(windows: Seq<ChildWindowCandidate>, i: int)
    requires
        0 <= i < windows.len(),
        windows[i].width > windows[i].height,
    ensures
        ({
            let found = super::capture::largest_child(windows);
            &&& found is Some
            &&& windows.contains(found->0)
            &&& found->0.width > found->0.height
            &&& found->0.width * found->0.height >= windows[i].width * windows[i].height
        }),
{
    lemma_largest_child(windows);
}

/// An address and a port are written in the other order of bytes: the first byte comes last.
pub proof fn law_addresses_are_turned(a: u8, b: u8, c: u8, d: u8)
    ensures
        ({
            let n = (a * 16777216 + b * 65536 + c * 256 + d) as u32;
            &&& super::capture::swapped(n) == d * 16777216 + c * 65536 + b * 256 + a
            &&& super::capture::swapped_low(n) == d * 256 + c
        }),
{
    let m: int = a * 16777216 + b * 65536 + c * 256 + d;
    let n = m as u32;
    assert(n == m);
    assert(n % 256 == d);
    assert(n / 256 == a * 65536 + b * 256 + c);
    assert((n / 256) % 256 == c);
    assert(n / 65536 == a * 256 + b);
    assert((n / 65536) % 256 == b);
    assert(n / 16777216 == a);
}

/// A task lacks its universe where none is named, or a blank one is.
pub proof fn law_universe_is_lacking(task: ClaimedTaskView)
    ensures
        super::launch::lacks_universe(task) <==> task.universe_id is None || crate::text::trimmed(
            task.universe_id->0,
        ).len() == 0,
{
}

/// The files of a user are looked for where programs keep theirs first, then at home; a helper takes the
/// profile only for want of a home, a hub takes it as well unless it is there already.
pub proof fn law_folders_in_order(app_data: bool, home: bool, profile: bool, listed: bool)
    ensures
        ({
            let own = crate::folders::helper_order(app_data, home, profile);
            let hub = crate::folders::hub_order(app_data, home, profile, listed);
            &&& own.contains(UserFolder::AppData) <==> app_data
            &&& own.contains(UserFolder::Home) <==> home
            &&& own.contains(UserFolder::Profile) <==> profile && !home
            &&& hub.contains(UserFolder::AppData) <==> app_data
            &&& hub.contains(UserFolder::Home) <==> home
            &&& hub.contains(UserFolder::Profile) <==> profile && !listed
            &&& app_data ==> own[0] == UserFolder::AppData && hub[0] == UserFolder::AppData
            &&& home && hub.len() > 0 ==> hub[hub.len() - 1] == UserFolder::Home || hub[hub.len()
                - 1] == UserFolder::Profile
        }),
{
    let own = crate::folders::helper_order(app_data, home, profile);
    let hub = crate::folders::hub_order(app_data, home, profile, listed);
    let a = crate::folders::with_folder(Seq::empty(), app_data, UserFolder::AppData);
    if app_data {
        assert(own[0] == UserFolder::AppData);
        assert(hub[0] == UserFolder::AppData);
    }
    if home {
        assert(own[own.len() - 1] == UserFolder::Home);
        assert(hub[a.len() as int] == UserFolder::Home);
    }
    if profile && !home {
        assert(own[own.len() - 1] == UserFolder::Profile);
    }
    if profile && !listed {
        assert(hub[hub.len() - 1] == UserFolder::Profile);
    }
}

/// The identifier of a machine is read off the one line that names it: its first word is the name, its
/// second the kind, and the rest is the value.
pub proof fn law_machine_is_read(line: Seq<char>)
    ensures
        ({
            let found = super::config::guid_in_line(line);
            let words = crate::text::words_of(crate::text::trimmed(line));
            &&& found matches Some(guid) ==> {
                &&& words.len() > 2
                &&& words[0] == "MachineGuid"@
                &&& words[1] == "REG_SZ"@
                &&& guid == crate::text::trimmed(crate::text::joined(words.skip(2), " "@))
            }
        }),
{
    let words = crate::text::words_of(crate::text::trimmed(line));
    if super::config::guid_in_line(line) is Some && words.len() == 2 {
        assert(words.skip(2) =~= Seq::<Seq<char>>::empty());
    }
}

/// The first line that names the machine counts.
pub proof fn law_first_machine_counts(lines: Seq<Seq<char>>, i: int)
    requires
        0 <= i < lines.len(),
        super::config::guid_in_line(lines[i]) is Some,
        forall|j: int| 0 <= j < i ==> super::config::guid_in_line(#[trigger] lines[j]) is None,
    ensures
        super::config::guid_in_lines(lines) == super::config::guid_in_line(lines[i]),
    decreases lines.len(),
{
    if i > 0 {
        let rest = lines.drop_first();
        assert(super::config::guid_in_line(lines[0]) is None);
        assert(rest[i - 1] == lines[i]);
        assert forall|j: int| 0 <= j < i - 1 implies super::config::guid_in_line(
            #[trigger] rest[j],
        ) is None by {
            assert(rest[j] == lines[j + 1]);
        }
        law_first_machine_counts(rest, i - 1);
    }
}

/// A machine has one name, however its identifier is written: in large or small letters, with or without
/// white space around it.
pub proof fn law_machine_has_one_name(a: Seq<char>, b: Seq<char>)
    requires
        crate::text::ascii_lower(crate::text::trimmed(a)) == crate::text::ascii_lower(
            crate::text::trimmed(b),
        ),
    ensures
        super::config::machine_helper_id(a) == super::config::machine_helper_id(b),
        super::config::machine_helper_id(a) == "h_"@ + crate::ids::hex(
            crate::ids::name_uuid(
                "windows-machine-guid:"@ + crate::text::ascii_lower(crate::text::trimmed(a)),
            ),
        ).take(12),
{
}

/// The servers of the tools are the quoted texts of a script that end in their name.
pub proof fn law_servers_of_tools(script: Seq<char>, path: Seq<char>)
    ensures
        super::launch::tool_servers(script).contains(path) <==> super::launch::pieces(
            script,
        ).contains(path) && "StudioMCP.exe"@.is_suffix_of(path),
{
    crate::basics::lemma_picked(
        super::launch::pieces(script),
        |p: Seq<char>| "StudioMCP.exe"@.is_suffix_of(p),
        path,
    );
}

/// A wait is told in whole seconds.
pub proof fn law_waits_are_told(nanos: u128)
    ensures
        super::launch::seconds(nanos) == crate::text::decimal((nanos / 1_000_000_000) as nat)
            + "s"@,
{
}

/// Of an empty log no line is told.
pub proof fn law_empty_log_is_told(path: Seq<char>, start_line: Option<i64>, line_count: Option<usize>)
    ensures
        ({
            let told = super::studio_log::selected_lines(path, Seq::empty(), start_line, line_count);
            &&& told.path == path
            &&& told.total_lines == 0
            &&& told.range_start == 0
            &&& told.range_end == 0
            &&& told.lines.len() == 0
        }),
{
}

/// A file that is as old as another comes before those that were listed before it.
pub proof fn law_later_files_come_first(list: Seq<DatedFileView>, file: DatedFileView)
    requires
        list.len() > 0,
    ensures
        list[0].modified <= file.modified ==> super::studio_log::placed(list, file)[0] == file,
        list[0].modified > file.modified ==> super::studio_log::placed(list, file)[0] == list[0],
{
}

/// Of windows that are as likely and as large the last one is taken.
pub proof fn law_last_window_is_taken(windows: Seq<WindowCandidateView>, w: WindowCandidateView)
    ensures
        ({
            let before = super::capture::likeliest_window(windows, w.process_id);
            let after = super::capture::likeliest_window(windows.push(w), w.process_id);
            before matches Some(v) ==> (v.width * v.height == w.width * w.height
                && crate::text::holds_text(v.title, "Roblox Studio"@) == crate::text::holds_text(
                w.title,
                "Roblox Studio"@,
            ) ==> after == Some(w))
        }),
{
    assert(windows.push(w).drop_last() =~= windows);
}

/// Of child windows that are as large the last one is taken.
pub proof fn law_last_child_is_taken(windows: Seq<ChildWindowCandidate>, w: ChildWindowCandidate)
    requires
        w.width > w.height,
    ensures
        ({
            let before = super::capture::largest_child(windows);
            let after = super::capture::largest_child(windows.push(w));
            &&& before is None ==> after == Some(w)
            &&& before matches Some(v) ==> after == if w.width * w.height >= v.width * v.height {
                Some(w)
            } else {
                before
            }
        }),
{
    assert(windows.push(w).drop_last() =~= windows);
}

/// Where the process of Studio has no window, the only window that says it is Studio is taken; there is none
/// where no window does, or more than one.
pub proof fn law_only_named_window_is_taken(
    windows: Seq<WindowCandidateView>,
    pid: u32,
    w: WindowCandidateView,
)
    requires
        forall|i: int| 0 <= i < windows.len() ==> (#[trigger] windows[i]).process_id != pid,
    ensures
        ({
            let named = windows.filter(
                |w: WindowCandidateView| crate::text::holds_text(w.title, "Roblox Studio"@),
            );
            let found = super::capture::studio_window(windows, pid);
            &&& found is Ok <==> named.len() == 1
            &&& named == seq![w] ==> found == Ok::<WindowCandidateView, Seq<char>>(w)
        }),
{
    super::capture::law_likeliest_window(windows, pid);
    if let Some(v) = super::capture::likeliest_window(windows, pid) {
        let p = windows.index_of(v);
        assert(windows[p].process_id == pid);
    }
    let mine = |w: WindowCandidateView| crate::text::holds_text(w.title, "Roblox Studio"@);
    let own = |w: WindowCandidateView| super::capture::named_studio(w);
    assert(mine =~= own);
}

/// Where the process of Studio has no window, what is wrong is told: that no window is Studio's, or that more
/// than one is, and which.
pub proof fn law_missing_window_is_told(windows: Seq<WindowCandidateView>, pid: u32)
    requires
        super::capture::likeliest_window(windows, pid) is None,
    ensures
        ({
            let named = super::capture::studio_windows(windows);
            let found = super::capture::studio_window(windows, pid);
            let number = crate::text::decimal(pid as nat);
            &&& named.len() == 0 ==> found == Err::<WindowCandidateView, Seq<char>>(
                "could not find any visible Roblox Studio window while resolving pid "@ + number,
            )
            &&& named.len() > 1 ==> found == Err::<WindowCandidateView, Seq<char>>(
                "could not find an exact visible Roblox Studio window for pid "@ + number
                    + "; visible Studio windows: "@ + crate::text::joined(
                    named.map_values(
                        |w: WindowCandidateView|
                            "pid="@ + crate::text::decimal(w.process_id as nat) + " title="@
                                + w.title,
                    ),
                    " | "@,
                ),
            )
        }),
{
    let own = |w: WindowCandidateView| super::capture::window_text(w);
    let mine = |w: WindowCandidateView|
        "pid="@ + crate::text::decimal(w.process_id as nat) + " title="@ + w.title;
    assert(own =~= mine);
}

/// Where no file is a log, that is told.
pub proof fn law_missing_logs_are_told(files: Seq<DatedFileView>, logs_dir: Seq<char>)
    requires
        forall|i: int| 0 <= i < files.len() ==> (#[trigger] files[i]).extension != Some("log"@),
    ensures
        super::studio_log::log_candidates(files, logs_dir) == Err::<Seq<Seq<char>>, Seq<char>>(
            "no Studio log file found in "@ + logs_dir,
        ),
{
    let test = |f: DatedFileView| super::studio_log::is_log(f);
    let own = |f: DatedFileView| super::studio_log::is_studio_log(f);
    let logs = files.filter(test);
    if logs.len() > 0 {
        let file = logs[0];
        assert(logs.contains(file));
        crate::basics::lemma_picked(files, test, file);
        let p = files.index_of(file);
        assert(files[p].extension != Some("log"@));
    }
    let ordered = super::studio_log::newest_first(logs);
    assert(ordered =~= Seq::empty());
    if ordered.filter(own).len() > 0 {
        let file = ordered.filter(own)[0];
        assert(ordered.filter(own).contains(file));
        crate::basics::lemma_picked(ordered, own, file);
    }
}

/// A token that stands alone is the token, and so is one that stands after the word for it.
pub proof fn law_tokens_are_read(token: Seq<char>)
    requires
        token.len() > 0,
        !crate::text::is_white_space(token[0]),
        !crate::text::is_white_space(token.last()),
        token[0] != '\u{feff}',
    ensures
        !"Bearer "@.is_prefix_of(token) ==> super::config::marked_bearer(token) == Some(token),
        super::config::marked_bearer("Bearer "@ + token) == Some(token),
{
    reveal_strlit("Bearer ");
    let whole = "Bearer "@ + token;
    assert(whole[0] == 'B');
    assert(whole.last() == token.last());
    assert(crate::text::trimmed(token) == token);
    assert(crate::text::trimmed(whole) == whole);
    assert("Bearer "@.is_prefix_of(whole)) by {
        assert(whole.subrange(0, 7) =~= "Bearer "@);
    }
    assert(whole.skip(7) =~= token);
}

proof fn lemma_piece_ends(piece: Seq<char>, rest: Seq<char>)
    requires
        !piece.contains('"'),
        rest.len() > 0 ==> rest[0] == '"',
    ensures
        super::launch::piece_len(piece + rest) == piece.len(),
    decreases piece.len(),
{
    if piece.len() > 0 {
        assert((piece + rest).drop_first() =~= piece.drop_first() + rest);
        assert(piece[0] != '"');
        assert(!piece.drop_first().contains('"')) by {
            if piece.drop_first().contains('"') {
                let p = piece.drop_first().index_of('"');
                assert(piece[p + 1] == '"');
            }
        }
        lemma_piece_ends(piece.drop_first(), rest);
    } else {
        assert(piece + rest =~= rest);
    }
}

/// The pieces of a script are what its quotes part, in order.
pub proof fn law_quotes_part_a_script(piece: Seq<char>, rest: Seq<char>)
    requires
        !piece.contains('"'),
    ensures
        super::launch::pieces(piece) == seq![piece],
        super::launch::pieces(piece + seq!['"'] + rest) == seq![piece] + super::launch::pieces(rest),
{
    let more = seq!['"'] + rest;
    assert(piece + seq!['"'] + rest =~= piece + more);
    lemma_piece_ends(piece, more);
    lemma_piece_ends(piece, Seq::empty());
    assert(piece + Seq::<char>::empty() =~= piece);
    assert((piece + more).take(piece.len() as int) =~= piece);
    assert((piece + more).skip(piece.len() as int + 1) =~= rest);
}

} // verus!
