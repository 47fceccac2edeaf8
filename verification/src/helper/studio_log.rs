//! Studio's files: which version is started, which log is read, and which lines of it are handed out.
use vstd::prelude::*;

use crate::order::same_text;
use crate::pattern::{compile, is_match};
use crate::table::{dup_text, Dup};
use crate::text::{concat, contains, decode_lossy, lines};

verus! {

/// A file, with the extension of its name where that has one, and when it was last changed: in
/// nanoseconds from the beginning of 1970, below zero before that.
pub struct DatedFile {
    pub path: String,
    pub name: String,
    pub extension: Option<String>,
    pub modified: i128,
}

/// What a [`DatedFile`] stands for.
#[verifier::ext_equal]
pub struct DatedFileView {
    pub path: Seq<char>,
    pub name: Seq<char>,
    pub extension: Option<Seq<char>>,
    pub modified: i128,
}

impl View for DatedFile {
    type V = DatedFileView;

    open spec fn view(&self) -> DatedFileView {
        DatedFileView {
            path: self.path@,
            name: self.name@,
            extension: self.extension.deep_view(),
            modified: self.modified,
        }
    }
}

impl Dup for DatedFile {
    fn dup(&self) -> (copy: Self) {
        DatedFile {
            path: self.path.clone(),
            name: self.name.clone(),
            extension: dup_text(&self.extension),
            modified: self.modified,
        }
    }
}

/// Which lines of a log are asked for.
pub struct ReadStudioLogArgs {
    pub start_line: Option<i64>,
    pub line_count: Option<usize>,
    pub regex: Option<String>,
}

/// What a [`ReadStudioLogArgs`] stands for.
#[verifier::ext_equal]
pub struct ReadStudioLogArgsView {
    pub start_line: Option<i64>,
    pub line_count: Option<usize>,
    pub regex: Option<Seq<char>>,
}

impl View for ReadStudioLogArgs {
    type V = ReadStudioLogArgsView;

    open spec fn view(&self) -> ReadStudioLogArgsView {
        ReadStudioLogArgsView {
            start_line: self.start_line,
            line_count: self.line_count,
            regex: self.regex.deep_view(),
        }
    }
}

/// Lines of a log. The range counts from 1, both ends within.
pub struct ReadStudioLogResponse {
    pub path: String,
    pub total_lines: usize,
    pub range_start: usize,
    pub range_end: usize,
    pub lines: Vec<String>,
}

/// What a [`ReadStudioLogResponse`] stands for.
#[verifier::ext_equal]
pub struct ReadStudioLogResponseView {
    pub path: Seq<char>,
    pub total_lines: usize,
    pub range_start: usize,
    pub range_end: usize,
    pub lines: Seq<Seq<char>>,
}

impl View for ReadStudioLogResponse {
    type V = ReadStudioLogResponseView;

    open spec fn view(&self) -> ReadStudioLogResponseView {
        ReadStudioLogResponseView {
            path: self.path@,
            total_lines: self.total_lines,
            range_start: self.range_start,
            range_end: self.range_end,
            lines: self.lines.deep_view(),
        }
    }
}

/// The list with one more file, before the first that is no newer.
pub open spec fn placed(list: Seq<DatedFileView>, file: DatedFileView) -> Seq<DatedFileView>
    decreases list.len(),
{
    if list.len() == 0 || list[0].modified <= file.modified {
        seq![file] + list
    } else {
        seq![list[0]] + placed(list.drop_first(), file)
    }
}

/// The files, the newest first. Of files that are as new, the one listed last comes first.
pub open spec fn newest_first(files: Seq<DatedFileView>) -> Seq<DatedFileView>
    decreases files.len(),
{
    if files.len() == 0 {
        Seq::empty()
    } else {
        placed(newest_first(files.drop_last()), files.last())
    }
}

/// The file is a log.
pub open spec fn is_log(file: DatedFileView) -> bool {
    file.extension == Some("log"@)
}

/// The name says that the log is Studio's.
pub open spec fn is_studio_log(file: DatedFileView) -> bool {
    crate::text::holds_text(file.name, "_Studio_"@)
}

/// Where files are.
pub open spec fn paths(files: Seq<DatedFileView>) -> Seq<Seq<char>> {
    files.map_values(|f: DatedFileView| f.path)
}

/// The logs among the files of a folder that are to be read, in the order in which they are tried:
/// Studio's, or all of them where none is.
pub open spec fn log_candidates(files: Seq<DatedFileView>, logs_dir: Seq<char>) -> Result<
    Seq<Seq<char>>,
    Seq<char>,
> {
    let ordered = newest_first(files.filter(|f: DatedFileView| is_log(f)));
    let studio = ordered.filter(|f: DatedFileView| is_studio_log(f));
    if studio.len() > 0 {
        Ok(paths(studio))
    } else if ordered.len() > 0 {
        Ok(paths(ordered))
    } else {
        Err("no Studio log file found in "@ + logs_dir)
    }
}

/// The larger of two numbers.
pub open spec fn larger(a: int, b: int) -> int {
    if a >= b {
        a
    } else {
        b
    }
}

/// The smaller of two numbers.
pub open spec fn smaller(a: int, b: int) -> int {
    if a <= b {
        a
    } else {
        b
    }
}

/// The line that a range starts with, counted from 1: a number below 0 counts from the end.
pub open spec fn first_line(total: nat, start_line: Option<i64>) -> int {
    let asked = match start_line {
        Some(n) => if n < 0 {
            total + n + 1
        } else {
            n as int
        },
        None => 1,
    };
    smaller(larger(asked, 1), larger(total as int, 1))
}

/// The line that a range ends with.
pub open spec fn last_line(total: nat, start_line: Option<i64>, line_count: Option<usize>) -> int {
    let count = match line_count {
        Some(n) => larger(n as int, 1),
        None => larger(total as int, 1),
    };
    if total == 0 {
        0
    } else {
        smaller(first_line(total, start_line) + count - 1, total as int)
    }
}

/// The lines that are asked for.
pub open spec fn selected_lines(
    path: Seq<char>,
    all: Seq<Seq<char>>,
    start_line: Option<i64>,
    line_count: Option<usize>,
) -> ReadStudioLogResponseView {
    let total = all.len();
    let start = first_line(total, start_line);
    let end = last_line(total, start_line, line_count);
    ReadStudioLogResponseView {
        path,
        total_lines: total as usize,
        range_start: if total == 0 {
            0
        } else {
            start as usize
        },
        range_end: end as usize,
        lines: if total == 0 {
            Seq::empty()
        } else {
            all.subrange(start - 1, end)
        },
    }
}

/// The lines of a log that match, where a pattern is given.
pub open spec fn matching_lines(content: Seq<char>, regex: Option<Seq<char>>) -> Seq<Seq<char>> {
    match regex {
        Some(pattern) => crate::text::lines_of(content).filter(
            |line: Seq<char>| crate::pattern::regex_matches(pattern, line),
        ),
        None => crate::text::lines_of(content),
    }
}

/// A file takes its place where every file before is newer and none after is.
proof fn lemma_placed(list: Seq<DatedFileView>, file: DatedFileView, at: int)
    requires
        0 <= at <= list.len(),
        forall|i: int| 0 <= i < at ==> (#[trigger] list[i]).modified > file.modified,
        at < list.len() ==> list[at].modified <= file.modified,
    ensures
        placed(list, file) == list.insert(at, file),
    decreases list.len(),
{
    if at == 0 {
        assert(list.insert(0, file) =~= seq![file] + list);
    } else {
        assert(list[0].modified > file.modified);
        let rest = list.drop_first();
        assert forall|i: int| 0 <= i < at - 1 implies (#[trigger] rest[i]).modified
            > file.modified by {
            assert(rest[i] == list[i + 1]);
        }
        lemma_placed(rest, file, at - 1);
        assert(list.insert(at, file) =~= seq![list[0]] + rest.insert(at - 1, file));
    }
}

/// The files, the newest first.
fn order_files(files: &Vec<DatedFile>) -> (ordered: Vec<DatedFile>)
    ensures
        crate::table::views(ordered@) == newest_first(crate::table::views(files@)),
{
    let ghost all = crate::table::views(files@);
    let mut ordered: Vec<DatedFile> = Vec::new();
    let mut i: usize = 0;
    assert(crate::table::views(ordered@) =~= newest_first(all.take(0)));
    while i < files.len()
        invariant
            i <= files@.len(),
            all == crate::table::views(files@),
            crate::table::views(ordered@) == newest_first(all.take(i as int)),
        decreases files@.len() - i,
    {
        let file = files[i].dup();
        let ghost before = ordered@;
        let mut at: usize = 0;
        while at < ordered.len() && ordered[at].modified > file.modified
            invariant
                at <= ordered@.len(),
                before == ordered@,
                forall|j: int| 0 <= j < at ==> (#[trigger] ordered@[j])@.modified > file@.modified,
            decreases ordered@.len() - at,
        {
            at += 1;
        }
        proof {
            let seen = crate::table::views(before);
            assert forall|j: int| 0 <= j < at implies (#[trigger] seen[j]).modified
                > file@.modified by {
                assert(seen[j] == before[j]@);
            }
            lemma_placed(seen, file@, at as int);
            assert(all.take(i + 1).drop_last() =~= all.take(i as int));
            assert(all.take(i + 1).last() == files@[i as int]@);
        }
        let ghost given = file@;
        ordered.insert(at, file);
        assert(crate::table::views(ordered@) =~= crate::table::views(before).insert(
            at as int,
            given,
        ));
        i += 1;
    }
    assert(all.take(files@.len() as int) =~= all);
    ordered
}

/// Where files are.
fn paths_of(files: &Vec<DatedFile>) -> (list: Vec<String>)
    ensures
        list.deep_view() == paths(crate::table::views(files@)),
{
    let mut list: Vec<String> = Vec::new();
    let mut i: usize = 0;
    while i < files.len()
        invariant
            i <= files@.len(),
            list@.len() == i,
            forall|j: int| 0 <= j < i ==> (#[trigger] list@[j])@ == files@[j].path@,
        decreases files@.len() - i,
    {
        list.push(files[i].path.clone());
        i += 1;
    }
    assert(list.deep_view() =~= paths(crate::table::views(files@)));
    list
}

/// The files that are logs.
fn logs_among(files: &Vec<DatedFile>) -> (list: Vec<DatedFile>)
    ensures
        crate::table::views(list@) == crate::table::views(files@).filter(
            |f: DatedFileView| is_log(f),
        ),
{
    let ghost all = crate::table::views(files@);
    let ghost keep = |f: DatedFileView| is_log(f);
    let mut list: Vec<DatedFile> = Vec::new();
    let mut i: usize = 0;
    proof {
        reveal(Seq::filter);
        assert(all.take(0).filter(keep) =~= Seq::empty());
        assert(crate::table::views(list@) =~= Seq::empty());
    }
    while i < files.len()
        invariant
            i <= files@.len(),
            all == crate::table::views(files@),
            keep == (|f: DatedFileView| is_log(f)),
            crate::table::views(list@) == all.take(i as int).filter(keep),
        decreases files@.len() - i,
    {
        let ghost before = list@;
        proof {
            reveal(Seq::filter);
            assert(all.take(i + 1).drop_last() =~= all.take(i as int));
            assert(all.take(i + 1).last() == files@[i as int]@);
        }
        let is_log_file = match &files[i].extension {
            Some(extension) => same_text(extension.as_str(), "log"),
            None => false,
        };
        if is_log_file {
            list.push(files[i].dup());
            assert(crate::table::views(list@) =~= crate::table::views(before).push(
                files@[i as int]@,
            ));
        }
        i += 1;
    }
    assert(all.take(files@.len() as int) =~= all);
    list
}

/// The files whose name says that they are logs of Studio.
fn studio_logs(files: &Vec<DatedFile>) -> (list: Vec<DatedFile>)
    ensures
        crate::table::views(list@) == crate::table::views(files@).filter(
            |f: DatedFileView| is_studio_log(f),
        ),
{
    let ghost all = crate::table::views(files@);
    let ghost keep = |f: DatedFileView| is_studio_log(f);
    let mut list: Vec<DatedFile> = Vec::new();
    let mut i: usize = 0;
    proof {
        reveal(Seq::filter);
        assert(all.take(0).filter(keep) =~= Seq::empty());
        assert(crate::table::views(list@) =~= Seq::empty());
    }
    while i < files.len()
        invariant
            i <= files@.len(),
            all == crate::table::views(files@),
            keep == (|f: DatedFileView| is_studio_log(f)),
            crate::table::views(list@) == all.take(i as int).filter(keep),
        decreases files@.len() - i,
    {
        let ghost before = list@;
        proof {
            reveal(Seq::filter);
            assert(all.take(i + 1).drop_last() =~= all.take(i as int));
            assert(all.take(i + 1).last() == files@[i as int]@);
        }
        if contains(files[i].name.as_str(), "_Studio_") {
            list.push(files[i].dup());
            assert(crate::table::views(list@) =~= crate::table::views(before).push(
                files@[i as int]@,
            ));
        }
        i += 1;
    }
    assert(all.take(files@.len() as int) =~= all);
    list
}

/// The logs to read, in the order in which they are tried.
pub fn list_candidate_log_files(files: &Vec<DatedFile>, logs_dir: &str) -> (result: Result<
    Vec<String>,
    String,
>)
    ensures
        match result {
            Ok(list) => log_candidates(crate::table::views(files@), logs_dir@) == Ok::<
                Seq<Seq<char>>,
                Seq<char>,
            >(list.deep_view()),
            Err(message) => log_candidates(crate::table::views(files@), logs_dir@) == Err::<
                Seq<Seq<char>>,
                Seq<char>,
            >(message@),
        },
{
    let logs = logs_among(files);
    let ordered = order_files(&logs);
    let studio = studio_logs(&ordered);
    if studio.len() > 0 {
        return Ok(paths_of(&studio));
    }
    if ordered.len() > 0 {
        return Ok(paths_of(&ordered));
    }
    Err(concat("no Studio log file found in ", logs_dir))
}

/// What is said where no log could be read.
pub fn unread_logs_message(logs_dir: &str, last_error: Option<&str>) -> (message: String)
    ensures
        message@ == "failed to read any Studio log file in "@ + logs_dir@ + (match last_error {
            Some(error) => "; last error: "@ + error@,
            None => Seq::<char>::empty(),
        }),
{
    let head = concat("failed to read any Studio log file in ", logs_dir);
    match last_error {
        Some(error) => {
            let tail = concat("; last error: ", error);
            concat(head.as_str(), tail.as_str())
        },
        None => {
            assert(head@ + Seq::<char>::empty() =~= head@);
            head
        },
    }
}

/// The file that was changed last.
pub fn newest_studio(files: &Vec<DatedFile>, versions_root: &str) -> (result: Result<String, String>)
    ensures
        crate::table::outcome(result) == (if files@.len() == 0 {
            Err("could not locate RobloxStudioBeta.exe under "@ + versions_root@)
        } else {
            Ok(newest_first(crate::table::views(files@))[0].path)
        }),
{
    let ordered = order_files(files);
    proof {
        lemma_newest_len(crate::table::views(files@));
    }
    if ordered.len() == 0 {
        return Err(concat("could not locate RobloxStudioBeta.exe under ", versions_root));
    }
    assert(crate::table::views(ordered@)[0] == ordered@[0]@);
    Ok(ordered[0].path.clone())
}

/// The lines of a log that match a pattern.
fn keep_matching(all: &Vec<String>, regex: &regex::Regex) -> (kept: Vec<String>)
    ensures
        kept.deep_view() == all.deep_view().filter(
            |line: Seq<char>|
                crate::pattern::regex_matches(crate::pattern::source_of(*regex), line),
        ),
{
    let ghost texts = all.deep_view();
    let ghost keep = |line: Seq<char>|
        crate::pattern::regex_matches(crate::pattern::source_of(*regex), line);
    let mut kept: Vec<String> = Vec::new();
    let mut i: usize = 0;
    proof {
        reveal(Seq::filter);
        assert(texts.take(0).filter(keep) =~= Seq::empty());
        assert(kept.deep_view() =~= Seq::empty());
    }
    while i < all.len()
        invariant
            i <= all@.len(),
            texts == all.deep_view(),
            keep == (|line: Seq<char>|
                crate::pattern::regex_matches(crate::pattern::source_of(*regex), line)),
            kept.deep_view() == texts.take(i as int).filter(keep),
        decreases all@.len() - i,
    {
        let ghost before = kept.deep_view();
        proof {
            reveal(Seq::filter);
            assert(texts.take(i + 1).drop_last() =~= texts.take(i as int));
            assert(texts.take(i + 1).last() == all@[i as int]@);
        }
        if is_match(regex, all[i].as_str()) {
            kept.push(all[i].clone());
            assert(kept.deep_view() =~= before.push(all@[i as int]@));
        }
        i += 1;
    }
    assert(texts.take(all@.len() as int) =~= texts);
    kept
}

/// The lines that are asked for, among those that match.
pub fn select_log_lines(
    path: &str,
    all_lines: &Vec<String>,
    start_line: Option<i64>,
    line_count: Option<usize>,
) -> (response: ReadStudioLogResponse)
    ensures
        response@ == selected_lines(path@, all_lines.deep_view(), start_line, line_count),
{
    let total: usize = all_lines.len();
    let most: i128 = if total == 0 {
        1
    } else {
        total as i128
    };
    let count: i128 = match line_count {
        Some(n) => if n == 0 {
            1
        } else {
            n as i128
        },
        None => most,
    };
    let asked: i128 = match start_line {
        Some(n) => if n < 0 {
            total as i128 + n as i128 + 1
        } else {
            n as i128
        },
        None => 1,
    };
    let low: i128 = if asked < 1 {
        1
    } else {
        asked
    };
    let start: i128 = if low > most {
        most
    } else {
        low
    };
    let mut picked: Vec<String> = Vec::new();
    if total == 0 {
        assert(picked.deep_view() =~= Seq::empty());
        return ReadStudioLogResponse {
            path: path.to_owned(),
            total_lines: 0,
            range_start: 0,
            range_end: 0,
            lines: picked,
        };
    }
    let end: i128 = if start + count - 1 < total as i128 {
        start + count - 1
    } else {
        total as i128
    };
    let first: usize = start as usize;
    let last: usize = end as usize;
    let mut i: usize = first - 1;
    while i < last
        invariant
            1 <= first <= last <= all_lines@.len(),
            first - 1 <= i <= last,
            picked@.len() == i - (first - 1),
            forall|j: int|
                0 <= j < picked@.len() ==> (#[trigger] picked@[j])@ == all_lines@[first - 1 + j]@,
        decreases last - i,
    {
        picked.push(all_lines[i].clone());
        i += 1;
    }
    assert(picked.deep_view() =~= all_lines.deep_view().subrange(first - 1, last as int));
    ReadStudioLogResponse {
        path: path.to_owned(),
        total_lines: total,
        range_start: first,
        range_end: last,
        lines: picked,
    }
}

/// The lines of the text of a log that are asked for.
pub fn read_log_text(path: &str, content: &str, args: &ReadStudioLogArgs) -> (result: Result<
    ReadStudioLogResponse,
    String,
>)
    ensures
        match result {
            Ok(response) => {
                &&& args@.regex matches Some(pattern) ==> crate::pattern::regex_fault(pattern)
                    is None
                &&& response@ == selected_lines(
                    path@,
                    matching_lines(content@, args@.regex),
                    args@.start_line,
                    args@.line_count,
                )
            },
            Err(message) => args@.regex is Some && crate::pattern::regex_fault(args@.regex->0)
                == Some(message@),
        },
{
    let all = lines(content);
    match &args.regex {
        None => Ok(select_log_lines(path, &all, args.start_line, args.line_count)),
        Some(pattern) => {
            let regex = match compile(pattern.as_str()) {
                Ok(regex) => regex,
                Err(message) => return Err(message),
            };
            let kept = keep_matching(&all, &regex);
            proof {
                assert((|line: Seq<char>|
                    crate::pattern::regex_matches(crate::pattern::source_of(regex), line)) =~= (
                |line: Seq<char>| crate::pattern::regex_matches(pattern@, line)));
            }
            Ok(select_log_lines(path, &kept, args.start_line, args.line_count))
        },
    }
}

/// The lines of a log that are asked for, from the bytes of its file.
pub fn read_studio_log(path: &str, bytes: &[u8], args: &ReadStudioLogArgs) -> (result: Result<
    ReadStudioLogResponse,
    String,
>)
    ensures
        match result {
            Ok(response) => {
                &&& args@.regex matches Some(pattern) ==> crate::pattern::regex_fault(pattern)
                    is None
                &&& response@ == selected_lines(
                    path@,
                    matching_lines(crate::text::lossy_text(bytes@), args@.regex),
                    args@.start_line,
                    args@.line_count,
                )
            },
            Err(message) => args@.regex is Some && crate::pattern::regex_fault(args@.regex->0)
                == Some(message@),
        },
{
    let content = decode_lossy(bytes);
    read_log_text(path, content.as_str(), args)
}

/// The order holds as many files as there are.
proof fn lemma_newest_len(files: Seq<DatedFileView>)
    ensures
        newest_first(files).len() == files.len(),
    decreases files.len(),
{
    if files.len() > 0 {
        lemma_newest_len(files.drop_last());
        lemma_placed_len(newest_first(files.drop_last()), files.last());
    }
}

proof fn lemma_placed_len(list: Seq<DatedFileView>, file: DatedFileView)
    ensures
        placed(list, file).len() == list.len() + 1,
    decreases list.len(),
{
    if list.len() > 0 && list[0].modified > file.modified {
        lemma_placed_len(list.drop_first(), file);
    }
}

proof fn lemma_placed_ordered(list: Seq<DatedFileView>, file: DatedFileView)
    requires
        forall|i: int, j: int|
            0 <= i < j < list.len() ==> (#[trigger] list[i]).modified >= (#[trigger] list[j]).modified,
    ensures
        ({
            let longer = placed(list, file);
            &&& forall|i: int, j: int|
                0 <= i < j < longer.len() ==> (#[trigger] longer[i]).modified >= (
                #[trigger] longer[j]).modified
            &&& longer.to_multiset() =~= list.to_multiset().insert(file)
            &&& list.len() > 0 ==> longer[0].modified >= list[0].modified && (longer[0] == file
                || longer[0] == list[0])
            &&& list.len() == 0 ==> longer[0] == file
        }),
    decreases list.len(),
{
    broadcast use vstd::seq_lib::group_to_multiset_ensures;

    let longer = placed(list, file);
    if list.len() == 0 || list[0].modified <= file.modified {
        assert(longer =~= list.insert(0, file));
    } else {
        let rest = list.drop_first();
        assert forall|i: int, j: int| 0 <= i < j < rest.len() implies (
        #[trigger] rest[i]).modified >= (#[trigger] rest[j]).modified by {
            assert(rest[i] == list[i + 1]);
            assert(rest[j] == list[j + 1]);
        }
        lemma_placed_ordered(rest, file);
        let tail = placed(rest, file);
        assert(longer == seq![list[0]] + tail);
        lemma_placed_len(rest, file);
        if rest.len() > 0 {
            assert(rest[0] == list[1]);
        }
        assert forall|i: int, j: int| 0 <= i < j < longer.len() implies (
        #[trigger] longer[i]).modified >= (#[trigger] longer[j]).modified by {
            assert(longer[j] == tail[j - 1]);
            if i > 0 {
                assert(longer[i] == tail[i - 1]);
            } else if j > 1 {
                assert(tail[0].modified >= tail[j - 1].modified);
            }
        }
        assert(longer =~= tail.insert(0, list[0]));
        assert(list =~= rest.insert(0, list[0]));
    }
}

/// The order loses no file, adds none, and never has an older file before a newer one.
pub proof fn law_newest_first(files: Seq<DatedFileView>)
    ensures
        newest_first(files).to_multiset() == files.to_multiset(),
        forall|i: int, j: int|
            0 <= i < j < files.len() ==> (#[trigger] newest_first(files)[i]).modified >= (
            #[trigger] newest_first(files)[j]).modified,
    decreases files.len(),
{
    broadcast use vstd::seq_lib::group_to_multiset_ensures;

    lemma_newest_len(files);
    if files.len() > 0 {
        law_newest_first(files.drop_last());
        lemma_newest_len(files.drop_last());
        lemma_placed_ordered(newest_first(files.drop_last()), files.last());
        assert(files =~= files.drop_last().push(files.last()));
    }
}

/// The range of lines is never larger than what was asked for, and lies within the log.
pub proof fn law_range_within_log(
    path: Seq<char>,
    all: Seq<Seq<char>>,
    start_line: Option<i64>,
    line_count: Option<usize>,
)
    requires
        0 < all.len() <= usize::MAX,
    ensures
        ({
            let told = selected_lines(path, all, start_line, line_count);
            &&& 1 <= told.range_start <= told.range_end <= all.len()
            &&& told.lines.len() == told.range_end - told.range_start + 1
            &&& line_count matches Some(n) ==> n > 0 ==> told.lines.len() <= n
            &&& forall|i: int|
                0 <= i < told.lines.len() ==> #[trigger] told.lines[i] == all[told.range_start - 1 + i]
        }),
{
}

} // verus!
