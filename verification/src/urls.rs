//! The URLs under which a helper is reached and reaches others.
use vstd::prelude::*;

use crate::helper_ws::HELPER_WS_PATH;
use crate::order::chars_of;
use crate::text::{concat, concat3, decimal_text, starts_with, strip_prefix};

verus! {

/// `s` without the slashes at its end.
pub open spec fn unslashed_end(s: Seq<char>) -> Seq<char>
    decreases s.len(),
{
    if s.len() > 0 && s.last() == '/' {
        unslashed_end(s.drop_last())
    } else {
        s
    }
}

/// `s` without the slashes at its start.
pub open spec fn unslashed_start(s: Seq<char>) -> Seq<char>
    decreases s.len(),
{
    if s.len() > 0 && s[0] == '/' {
        unslashed_start(s.drop_first())
    } else {
        s
    }
}

/// The address at which the helper forwards `kind` for a task.
pub open spec fn forward_url(port: u16, kind: Seq<char>, place_id: Seq<char>, task_id: Seq<char>) -> Seq<
    char,
> {
    "http://127.0.0.1:"@ + crate::text::decimal(port as nat) + "/"@ + kind + "/"@ + place_id
        + "/task/"@ + task_id
}

/// A path with its query, led by exactly one slash.
pub open spec fn target_path(path: Seq<char>, query: Option<Seq<char>>) -> Seq<char> {
    let base = "/"@ + unslashed_start(path);
    match query {
        Some(q) if q.len() > 0 => base + "?"@ + q,
        _ => base,
    }
}

/// The base URL with the scheme of web sockets; nothing for any other scheme.
pub open spec fn ws_base(base_url: Seq<char>) -> Option<Seq<char>> {
    match crate::text::without_prefix(base_url, "https://"@) {
        Some(rest) => Some("wss://"@ + rest),
        None => match crate::text::without_prefix(base_url, "http://"@) {
            Some(rest) => Some("ws://"@ + rest),
            None => if "wss://"@.is_prefix_of(base_url) || "ws://"@.is_prefix_of(base_url) {
                Some(base_url)
            } else {
                None
            },
        },
    }
}

/// The web socket of the remote server at a base URL.
pub open spec fn remote_ws(base_url: Seq<char>) -> Seq<char> {
    let base = match crate::text::without_prefix(base_url, "https://"@) {
        Some(rest) => "wss://"@ + rest,
        None => match crate::text::without_prefix(base_url, "http://"@) {
            Some(rest) => "ws://"@ + rest,
            None => base_url,
        },
    };
    unslashed_end(base) + HELPER_WS_PATH@
}

/// `s` without the slashes at its end.
pub fn trim_end_slashes(s: &str) -> (t: &str)
    ensures
        t@ == unslashed_end(s@),
{
    let chars = chars_of(s);
    let mut end: usize = chars.len();
    assert(s@.take(s@.len() as int) =~= s@);
    while end > 0 && chars[end - 1] == '/'
        invariant
            end <= chars.len(),
            chars@ == s@,
            unslashed_end(s@) == unslashed_end(s@.take(end as int)),
        decreases end,
    {
        assert(s@.take(end as int).drop_last() =~= s@.take(end - 1));
        end -= 1;
    }
    assert(s@.subrange(0, end as int) =~= s@.take(end as int));
    s.substring_char(0, end)
}

/// `s` without the slashes at its start.
pub fn trim_start_slashes(s: &str) -> (t: &str)
    ensures
        t@ == unslashed_start(s@),
{
    let chars = chars_of(s);
    let n: usize = chars.len();
    let mut start: usize = 0;
    assert(s@.skip(0) =~= s@);
    while start < n && chars[start] == '/'
        invariant
            start <= n,
            n == chars.len(),
            chars@ == s@,
            unslashed_start(s@) == unslashed_start(s@.skip(start as int)),
        decreases n - start,
    {
        assert(s@.skip(start as int).drop_first() =~= s@.skip(start + 1));
        start += 1;
    }
    assert(s@.subrange(start as int, n as int) =~= s@.skip(start as int));
    s.substring_char(start, n)
}

fn forward_address(port: u16, kind: &str, place_id: &str, task_id: &str) -> (url: String)
    ensures
        url@ == forward_url(port, kind@, place_id@, task_id@),
{
    let mut url = concat3("http://127.0.0.1:", decimal_text(port as u128).as_str(), "/");
    url.append(kind);
    url.append("/");
    url.append(place_id);
    url.append("/task/");
    url.append(task_id);
    url
}

/// Where screenshots go at a base URL.
pub fn runtime_screenshot_upload_url_for_base_url(base_url: &str) -> (url: String)
    ensures
        url@ == unslashed_end(base_url@) + "/v1/runtime-screenshots"@,
{
    concat(trim_end_slashes(base_url), "/v1/runtime-screenshots")
}

/// Where the helper takes the files of a Rojo project.
pub fn rojo_forward_base_url(helper_port: u16, place_id: &str, task_id: &str) -> (url: String)
    ensures
        url@ == forward_url(helper_port, "rojo-forward"@, place_id@, task_id@),
{
    forward_address(helper_port, "rojo-forward", place_id, task_id)
}

/// Where the helper takes what a runtime sends.
pub fn runtime_log_forward_base_url(helper_port: u16, place_id: &str, task_id: &str) -> (url: String)
    ensures
        url@ == forward_url(helper_port, "runtime-log-forward"@, place_id@, task_id@),
{
    forward_address(helper_port, "runtime-log-forward", place_id, task_id)
}

/// Where the helper takes the logs of a runtime.
pub fn runtime_log_forward_upload_url(helper_port: u16, place_id: &str, task_id: &str) -> (url:
    String)
    ensures
        url@ == forward_url(helper_port, "runtime-log-forward"@, place_id@, task_id@)
            + "/v1/runtime-logs"@,
{
    concat(
        runtime_log_forward_base_url(helper_port, place_id, task_id).as_str(),
        "/v1/runtime-logs",
    )
}

/// Where the helper takes the screenshots of a runtime.
pub fn runtime_screenshot_helper_upload_url(helper_port: u16, place_id: &str, task_id: &str) -> (url:
    String)
    ensures
        url@ == forward_url(helper_port, "runtime-log-forward"@, place_id@, task_id@)
            + "/v1/runtime-screenshots"@,
{
    concat(
        runtime_log_forward_base_url(helper_port, place_id, task_id).as_str(),
        "/v1/runtime-screenshots",
    )
}

/// A path with its query, led by exactly one slash.
pub fn rojo_forward_target_path(path: &str, query: Option<&str>) -> (target: String)
    ensures
        target@ == target_path(path@, query.deep_view()),
{
    let mut target = concat("/", trim_start_slashes(path));
    if let Some(query) = query {
        if !query.is_empty() {
            target.append("?");
            target.append(query);
        }
    }
    target
}

/// The web socket that a forwarded path stands for.
pub fn rojo_forward_target_ws_url(base_url: &str, path: &str, query: Option<&str>) -> (result: Result<
    String,
    String,
>)
    ensures
        match result {
            Ok(url) => ws_base(base_url@) is Some && url@ == unslashed_end(ws_base(base_url@)->0)
                + target_path(path@, query.deep_view()),
            Err(message) => ws_base(base_url@) is None && message@
                == "Rojo forward base_url must use http(s) or ws(s)"@,
        },
{
    let base = match strip_prefix(base_url, "https://") {
        Some(rest) => concat("wss://", rest),
        None => match strip_prefix(base_url, "http://") {
            Some(rest) => concat("ws://", rest),
            None => {
                if starts_with(base_url, "wss://") || starts_with(base_url, "ws://") {
                    base_url.to_owned()
                } else {
                    return Err("Rojo forward base_url must use http(s) or ws(s)".to_owned());
                }
            },
        },
    };
    Ok(
        concat(
            trim_end_slashes(base.as_str()),
            rojo_forward_target_path(path, query).as_str(),
        ),
    )
}

/// The web socket of the remote server at a base URL.
pub fn derive_remote_helper_ws_url_from_base_url(remote_base_url: &str) -> (url: String)
    ensures
        url@ == remote_ws(remote_base_url@),
{
    let base = match strip_prefix(remote_base_url, "https://") {
        Some(rest) => concat("wss://", rest),
        None => match strip_prefix(remote_base_url, "http://") {
            Some(rest) => concat("ws://", rest),
            None => remote_base_url.to_owned(),
        },
    };
    concat(trim_end_slashes(base.as_str()), HELPER_WS_PATH)
}

proof fn lemma_unslashed_end_all(s: Seq<char>, n: nat)
    ensures
        unslashed_end(s + Seq::new(n, |i: int| '/')) == unslashed_end(s),
    decreases n,
{
    let slashes = Seq::new(n, |i: int| '/');
    if n > 0 {
        let fewer = Seq::new((n - 1) as nat, |i: int| '/');
        assert((s + slashes).drop_last() =~= s + fewer);
        lemma_unslashed_end_all(s, (n - 1) as nat);
    } else {
        assert(s + slashes =~= s);
    }
}

proof fn lemma_prefix_stays(base: Seq<char>, n: nat, prefix: Seq<char>)
    requires
        prefix.len() >= 2,
        forall|i: int| 0 <= i < prefix.len() - 2 ==> prefix[i] != '/',
        base != prefix.take(prefix.len() - 2),
        base != prefix.take(prefix.len() - 1),
    ensures
        prefix.is_prefix_of(base + Seq::new(n, |i: int| '/')) == prefix.is_prefix_of(base),
{
    let slashes = Seq::new(n, |i: int| '/');
    let longer = base + slashes;
    let m = prefix.len() as int;
    if base.len() >= m {
        assert(longer.subrange(0, m) =~= base.subrange(0, m));
    } else if prefix.is_prefix_of(longer) {
        let head = longer.subrange(0, m);
        assert(head == prefix);
        let k = base.len() as int;
        assert(base =~= prefix.take(k)) by {
            assert forall|i: int| 0 <= i < k implies base[i] == prefix[i] by {
                assert(head[i] == longer[i]);
            }
        }
        if k < m - 2 {
            assert(head[k] == longer[k]);
            assert(longer[k] == slashes[0]);
            assert(prefix[k] == '/');
        }
    }
}

/// Slashes at the end of a base URL make no difference to the web socket of the remote server, as
/// long as they do not complete the scheme.
pub proof fn law_remote_ws_ignores_trailing_slashes(base_url: Seq<char>, n: nat)
    requires
        base_url != "https:"@,
        base_url != "https:/"@,
        base_url != "http:"@,
        base_url != "http:/"@,
    ensures
        remote_ws(base_url + Seq::new(n, |i: int| '/')) == remote_ws(base_url),
{
    reveal_strlit("https://");
    reveal_strlit("http://");
    reveal_strlit("https:");
    reveal_strlit("https:/");
    reveal_strlit("http:");
    reveal_strlit("http:/");
    assert("https://"@.take(6) =~= "https:"@);
    assert("https://"@.take(7) =~= "https:/"@);
    assert("http://"@.take(5) =~= "http:"@);
    assert("http://"@.take(6) =~= "http:/"@);
    let slashes = Seq::new(n, |i: int| '/');
    let longer = base_url + slashes;
    lemma_prefix_stays(base_url, n, "https://"@);
    lemma_prefix_stays(base_url, n, "http://"@);
    if "https://"@.is_prefix_of(base_url) {
        assert(longer.skip(8) =~= base_url.skip(8) + slashes);
        assert("wss://"@ + longer.skip(8) =~= ("wss://"@ + base_url.skip(8)) + slashes);
        lemma_unslashed_end_all("wss://"@ + base_url.skip(8), n);
    } else if "http://"@.is_prefix_of(base_url) {
        assert(longer.skip(7) =~= base_url.skip(7) + slashes);
        assert("ws://"@ + longer.skip(7) =~= ("ws://"@ + base_url.skip(7)) + slashes);
        lemma_unslashed_end_all("ws://"@ + base_url.skip(7), n);
    } else {
        lemma_unslashed_end_all(base_url, n);
    }
}

} // verus!
