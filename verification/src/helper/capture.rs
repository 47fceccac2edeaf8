//! What is captured of Studio: which process, which window, and which part of it.
use vstd::prelude::*;

use super::records::{HelperState, PluginInstance};
use super::routing::select_instance_for_route;
use crate::table::Dup;
use crate::text::{concat, concat3, contains, decimal_text, join};

verus! {

use super::records::{HelperStateView, PluginInstanceView};

/// A window that may be the one of Studio.
pub struct WindowCandidate {
    pub hwnd: usize,
    pub process_id: u32,
    pub title: String,
    pub width: i32,
    pub height: i32,
}

/// What a [`WindowCandidate`] stands for.
#[verifier::ext_equal]
pub struct WindowCandidateView {
    pub hwnd: usize,
    pub process_id: u32,
    pub title: Seq<char>,
    pub width: i32,
    pub height: i32,
}

impl View for WindowCandidate {
    type V = WindowCandidateView;

    open spec fn view(&self) -> WindowCandidateView {
        WindowCandidateView {
            hwnd: self.hwnd,
            process_id: self.process_id,
            title: self.title@,
            width: self.width,
            height: self.height,
        }
    }
}

impl Dup for WindowCandidate {
    fn dup(&self) -> (copy: Self) {
        WindowCandidate {
            hwnd: self.hwnd,
            process_id: self.process_id,
            title: self.title.clone(),
            width: self.width,
            height: self.height,
        }
    }
}

/// A window inside another one.
#[derive(Clone, Copy)]
pub struct ChildWindowCandidate {
    pub hwnd: usize,
    pub width: i32,
    pub height: i32,
}

/// A connection as the system lists it: addresses and ports are held as they stand in memory, the
/// first byte lowest.
#[derive(Clone, Copy)]
pub struct TcpRow {
    pub local_addr: u32,
    pub local_port: u32,
    pub remote_addr: u32,
    pub remote_port: u32,
    pub owning_pid: u32,
}

/// What to do after the process behind a connection was looked up.
pub enum PeerLookup {
    Found(u32),
    /// Wait a little and look again.
    LookAgain,
    GiveUp,
}

/// How often the process behind a connection is looked up.
pub const PEER_LOOKUP_ATTEMPTS: u32 = 10;

/// The address of this machine, for itself.
pub const LOCALHOST: u32 = 0x7f00_0001;

/// How wide a window must be to show anything of use.
pub const MIN_CHILD_WIDTH: i32 = 500;

/// How high a window must be to show anything of use.
pub const MIN_CHILD_HEIGHT: i32 = 400;

/// The four bytes of a number, the other way round.
pub open spec fn swapped(value: u32) -> int {
    (value % 256) * 16777216 + ((value / 256) % 256) * 65536 + ((value / 65536) % 256) * 256 + value
        / 16777216
}

/// The two low bytes of a number, the other way round.
pub open spec fn swapped_low(value: u32) -> int {
    (value % 256) * 256 + (value / 256) % 256
}

/// The row is the one of the peer's end of its connection with the helper.
pub open spec fn is_peer_row(row: TcpRow, peer_addr: u32, peer_port: u16, helper_port: u16) -> bool {
    &&& swapped(row.local_addr) == peer_addr
    &&& swapped_low(row.local_port) == peer_port
    &&& swapped(row.remote_addr) == LOCALHOST
    &&& swapped_low(row.remote_port) == helper_port
}

/// The process of the first row that is the peer's.
pub open spec fn peer_process(
    rows: Seq<TcpRow>,
    peer_addr: u32,
    peer_port: u16,
    helper_port: u16,
) -> Option<u32>
    decreases rows.len(),
{
    if rows.len() == 0 {
        None
    } else if is_peer_row(rows[0], peer_addr, peer_port, helper_port) {
        Some(rows[0].owning_pid)
    } else {
        peer_process(rows.drop_first(), peer_addr, peer_port, helper_port)
    }
}

/// The title says that the window is Studio's.
pub open spec fn named_studio(w: WindowCandidateView) -> bool {
    crate::text::holds_text(w.title, "Roblox Studio"@)
}

/// How much a window shows.
pub open spec fn area(width: i32, height: i32) -> int {
    width * height
}

/// The one window is at least as likely as the other to be Studio's: its title says so, or the titles
/// agree and it is no smaller.
pub open spec fn window_at_least(a: WindowCandidateView, b: WindowCandidateView) -> bool {
    if named_studio(a) == named_studio(b) {
        area(a.width, a.height) >= area(b.width, b.height)
    } else {
        named_studio(a)
    }
}

/// The likeliest window of a process, the last of them where several are alike.
pub open spec fn likeliest_window(windows: Seq<WindowCandidateView>, pid: u32) -> Option<
    WindowCandidateView,
>
    decreases windows.len(),
{
    if windows.len() == 0 {
        None
    } else {
        let w = windows.last();
        match likeliest_window(windows.drop_last(), pid) {
            Some(best) => Some(
                if w.process_id == pid && window_at_least(w, best) {
                    w
                } else {
                    best
                },
            ),
            None => if w.process_id == pid {
                Some(w)
            } else {
                None
            },
        }
    }
}

/// The windows whose title says that they are Studio's.
pub open spec fn studio_windows(windows: Seq<WindowCandidateView>) -> Seq<WindowCandidateView> {
    windows.filter(|w: WindowCandidateView| named_studio(w))
}

/// What is said of a window.
pub open spec fn window_text(w: WindowCandidateView) -> Seq<char> {
    "pid="@ + crate::text::decimal(w.process_id as nat) + " title="@ + w.title
}

/// The window of a process. Where the process has none, the only window that is Studio's stands for it.
pub open spec fn studio_window(windows: Seq<WindowCandidateView>, pid: u32) -> Result<
    WindowCandidateView,
    Seq<char>,
> {
    match likeliest_window(windows, pid) {
        Some(w) => Ok(w),
        None => {
            let named = studio_windows(windows);
            if named.len() == 1 {
                Ok(named[0])
            } else if named.len() == 0 {
                Err(
                    "could not find any visible Roblox Studio window while resolving pid "@
                        + crate::text::decimal(pid as nat),
                )
            } else {
                Err(
                    "could not find an exact visible Roblox Studio window for pid "@
                        + crate::text::decimal(pid as nat) + "; visible Studio windows: "@
                        + crate::text::joined(
                        named.map_values(|w: WindowCandidateView| window_text(w)),
                        " | "@,
                    ),
                )
            }
        },
    }
}

/// The first window of a kind.
pub open spec fn first_child(
    windows: Seq<ChildWindowCandidate>,
    fits: spec_fn(ChildWindowCandidate) -> bool,
) -> Option<usize>
    decreases windows.len(),
{
    if windows.len() == 0 {
        None
    } else if fits(windows[0]) {
        Some(windows[0].hwnd)
    } else {
        first_child(windows.drop_first(), fits)
    }
}

/// The window that is wider than high and shows most, the last of them where several show as much.
pub open spec fn largest_child(windows: Seq<ChildWindowCandidate>) -> Option<ChildWindowCandidate>
    decreases windows.len(),
{
    if windows.len() == 0 {
        None
    } else {
        let w = windows.last();
        match largest_child(windows.drop_last()) {
            Some(best) => Some(
                if w.width > w.height && area(w.width, w.height) >= area(best.width, best.height) {
                    w
                } else {
                    best
                },
            ),
            None => if w.width > w.height {
                Some(w)
            } else {
                None
            },
        }
    }
}

/// The size is the one of Studio's content.
pub open spec fn is_content(w: ChildWindowCandidate) -> bool {
    600 < w.height < 750 && w.width > 2000
}

/// The size is the one of a viewport.
pub open spec fn is_viewport(w: ChildWindowCandidate) -> bool {
    1000 < w.width < 1660 && 500 < w.height < 680
}

/// The size may be the one of a viewport.
pub open spec fn may_be_viewport(w: ChildWindowCandidate) -> bool {
    w.width > 1000 && w.height > 500
}

/// The window that holds Studio's content, among those inside it.
pub open spec fn content_area(windows: Seq<ChildWindowCandidate>, studio: usize) -> usize {
    match first_child(windows, |w: ChildWindowCandidate| is_content(w)) {
        Some(hwnd) => hwnd,
        None => match largest_child(windows) {
            Some(w) => w.hwnd,
            None => studio,
        },
    }
}

/// The viewport, among the windows inside the content area.
pub open spec fn viewport(windows: Seq<ChildWindowCandidate>, studio: usize) -> usize {
    match first_child(windows, |w: ChildWindowCandidate| is_viewport(w)) {
        Some(hwnd) => hwnd,
        None => match first_child(windows, |w: ChildWindowCandidate| may_be_viewport(w)) {
            Some(hwnd) => hwnd,
            None => studio,
        },
    }
}

/// The place and the process that a screenshot is taken of.
pub open spec fn captured_process(
    s: HelperStateView,
    place_id: Option<Seq<char>>,
    task_id: Option<Seq<char>>,
) -> Result<(Option<Seq<char>>, u32), Seq<char>> {
    let selected: Result<PluginInstanceView, Seq<char>> = match place_id {
        Some(place) => match super::routing::route_instance(s.instances, place, task_id) {
            Some(key) => Ok(s.instances[key]),
            None => Err("no active Studio plugin registered for placeId "@ + place),
        },
        None => if s.instances.dom().len() == 1 {
            Ok(s.instances[crate::table::sorted(s.instances.dom())[0]])
        } else if s.instances.dom().len() == 0 {
            Err("no active Studio plugin registered"@)
        } else {
            Err("multiple Studio instances are active; pass placeId explicitly"@)
        },
    };
    match selected {
        Err(message) => Err(message),
        Ok(instance) => match instance.studio_pid {
            None => Err(
                "helper could not resolve a Studio process id for the selected plugin instance"@,
            ),
            Some(pid) => Ok(
                (
                    Some(
                        match place_id {
                            Some(place) => place,
                            None => instance.place_id,
                        },
                    ),
                    pid,
                ),
            ),
        },
    }
}

/// The name of the file that a screenshot is kept in.
pub open spec fn screenshot_file(place_id: Option<Seq<char>>, stamp: Seq<char>) -> Seq<char> {
    match place_id {
        Some(place) => "studio-"@ + place + "-"@ + stamp + ".png"@,
        None => "studio-"@ + stamp + ".png"@,
    }
}

/// The address that a row of the system's table holds, as a number with the first byte highest.
pub fn decode_ipv4_addr(value: u32) -> (addr: u32)
    ensures
        addr == swapped(value),
{
    (value % 256) * 16777216 + ((value / 256) % 256) * 65536 + ((value / 65536) % 256) * 256 + value
        / 16777216
}

/// The port that a row of the system's table holds.
pub fn decode_ipv4_port(value: u32) -> (port: u16)
    ensures
        port == swapped_low(value),
{
    ((value % 256) * 256 + (value / 256) % 256) as u16
}

/// The process behind a connection to the helper.
pub fn resolve_peer_process_id(
    rows: &Vec<TcpRow>,
    peer_addr: u32,
    peer_port: u16,
    helper_port: u16,
) -> (pid: Option<u32>)
    ensures
        pid == peer_process(rows@, peer_addr, peer_port, helper_port),
{
    let mut i: usize = 0;
    assert(rows@.skip(0) =~= rows@);
    while i < rows.len()
        invariant
            i <= rows@.len(),
            peer_process(rows@.skip(i as int), peer_addr, peer_port, helper_port) == peer_process(
                rows@,
                peer_addr,
                peer_port,
                helper_port,
            ),
        decreases rows@.len() - i,
    {
        let row = rows[i];
        assert(rows@.skip(i as int).drop_first() =~= rows@.skip(i + 1));
        if decode_ipv4_addr(row.local_addr) == peer_addr && decode_ipv4_port(row.local_port)
            == peer_port && decode_ipv4_addr(row.remote_addr) == LOCALHOST && decode_ipv4_port(
            row.remote_port,
        ) == helper_port {
            return Some(row.owning_pid);
        }
        i += 1;
    }
    None
}

/// What to do after the lookup with that number, counted from 0.
pub fn after_peer_lookup(attempt: u32, found: Option<u32>) -> (next: PeerLookup)
    ensures
        next == (match found {
            Some(pid) => PeerLookup::Found(pid),
            None => if attempt + 1 < PEER_LOOKUP_ATTEMPTS {
                PeerLookup::LookAgain
            } else {
                PeerLookup::GiveUp
            },
        }),
{
    match found {
        Some(pid) => PeerLookup::Found(pid),
        None => {
            if attempt < PEER_LOOKUP_ATTEMPTS - 1 {
                PeerLookup::LookAgain
            } else {
                PeerLookup::GiveUp
            }
        },
    }
}

/// How much a window shows.
fn area_of(width: i32, height: i32) -> (size: i64)
    ensures
        size == area(width, height),
{
    assert(-0x4000_0000_0000_0000 <= width * height <= 0x4000_0000_0000_0000) by (nonlinear_arith)
        requires
            -0x8000_0000 <= width <= 0x7fff_ffff,
            -0x8000_0000 <= height <= 0x7fff_ffff,
    ;
    width as i64 * height as i64
}

/// The title says that the window is Studio's.
fn is_named_studio(w: &WindowCandidate) -> (named: bool)
    ensures
        named == named_studio(w@),
{
    contains(w.title.as_str(), "Roblox Studio")
}

/// The one window is at least as likely as the other to be Studio's.
fn is_at_least(a: &WindowCandidate, b: &WindowCandidate) -> (likely: bool)
    ensures
        likely == window_at_least(a@, b@),
{
    let first = is_named_studio(a);
    let second = is_named_studio(b);
    if first == second {
        area_of(a.width, a.height) >= area_of(b.width, b.height)
    } else {
        first
    }
}

/// The likeliest window of a process.
fn find_likeliest(windows: &Vec<WindowCandidate>, pid: u32) -> (best: Option<WindowCandidate>)
    ensures
        crate::table::opt_view(best) == likeliest_window(crate::table::views(windows@), pid),
{
    let ghost all = crate::table::views(windows@);
    let mut best: Option<WindowCandidate> = None;
    let mut i: usize = 0;
    while i < windows.len()
        invariant
            i <= windows@.len(),
            all == crate::table::views(windows@),
            crate::table::opt_view(best) == likeliest_window(all.take(i as int), pid),
        decreases windows@.len() - i,
    {
        assert(all.take(i + 1).drop_last() =~= all.take(i as int));
        assert(all.take(i + 1).last() == windows@[i as int]@);
        let w = &windows[i];
        if w.process_id == pid {
            let better = match &best {
                None => true,
                Some(b) => is_at_least(w, b),
            };
            if better {
                best = Some(w.dup());
            }
        }
        i += 1;
    }
    assert(all.take(windows@.len() as int) =~= all);
    best
}

/// The windows whose title says that they are Studio's.
fn find_named(windows: &Vec<WindowCandidate>) -> (named: Vec<WindowCandidate>)
    ensures
        crate::table::views(named@) == studio_windows(crate::table::views(windows@)),
{
    let ghost all = crate::table::views(windows@);
    let ghost keep = |w: WindowCandidateView| named_studio(w);
    let mut named: Vec<WindowCandidate> = Vec::new();
    let mut i: usize = 0;
    proof {
        reveal(Seq::filter);
        assert(all.take(0).filter(keep) =~= Seq::empty());
        assert(crate::table::views(named@) =~= Seq::empty());
    }
    while i < windows.len()
        invariant
            i <= windows@.len(),
            all == crate::table::views(windows@),
            keep == (|w: WindowCandidateView| named_studio(w)),
            crate::table::views(named@) == all.take(i as int).filter(keep),
        decreases windows@.len() - i,
    {
        let ghost before = named@;
        proof {
            reveal(Seq::filter);
            assert(all.take(i + 1).drop_last() =~= all.take(i as int));
            assert(all.take(i + 1).last() == windows@[i as int]@);
        }
        if is_named_studio(&windows[i]) {
            named.push(windows[i].dup());
            assert(crate::table::views(named@) =~= crate::table::views(before).push(
                windows@[i as int]@,
            ));
        }
        i += 1;
    }
    assert(all.take(windows@.len() as int) =~= all);
    named
}

/// What is said of each of some windows.
fn window_texts(windows: &Vec<WindowCandidate>) -> (texts: Vec<String>)
    ensures
        texts.deep_view() == crate::table::views(windows@).map_values(
            |w: WindowCandidateView| window_text(w),
        ),
{
    let mut texts: Vec<String> = Vec::new();
    let mut i: usize = 0;
    while i < windows.len()
        invariant
            i <= windows@.len(),
            texts@.len() == i,
            forall|j: int| 0 <= j < i ==> (#[trigger] texts@[j])@ == window_text(windows@[j]@),
        decreases windows@.len() - i,
    {
        let w = &windows[i];
        let head = concat3("pid=", decimal_text(w.process_id as u128).as_str(), " title=");
        texts.push(concat(head.as_str(), w.title.as_str()));
        i += 1;
    }
    assert(texts.deep_view() =~= crate::table::views(windows@).map_values(
        |w: WindowCandidateView| window_text(w),
    ));
    texts
}

/// The window of a Studio process, among the visible ones.
pub fn choose_studio_window(windows: &Vec<WindowCandidate>, studio_pid: u32) -> (result: Result<
    WindowCandidate,
    String,
>)
    ensures
        crate::table::outcome(result) == studio_window(crate::table::views(windows@), studio_pid),
{
    if let Some(w) = find_likeliest(windows, studio_pid) {
        return Ok(w);
    }
    let named = find_named(windows);
    let pid = decimal_text(studio_pid as u128);
    if named.len() == 1 {
        assert(crate::table::views(named@)[0] == named@[0]@);
        return Ok(named[0].dup());
    }
    if named.len() == 0 {
        return Err(
            concat(
                "could not find any visible Roblox Studio window while resolving pid ",
                pid.as_str(),
            ),
        );
    }
    let texts = window_texts(&named);
    let head = concat3(
        "could not find an exact visible Roblox Studio window for pid ",
        pid.as_str(),
        "; visible Studio windows: ",
    );
    Err(concat(head.as_str(), join(&texts, " | ").as_str()))
}

/// The windows that are large enough to show anything of use.
pub fn large_child_windows(
    windows: &Vec<ChildWindowCandidate>,
    min_width: i32,
    min_height: i32,
) -> (large: Vec<ChildWindowCandidate>)
    ensures
        large@ == windows@.filter(
            |w: ChildWindowCandidate| w.width >= min_width && w.height >= min_height,
        ),
{
    let ghost keep = |w: ChildWindowCandidate| w.width >= min_width && w.height >= min_height;
    let mut large: Vec<ChildWindowCandidate> = Vec::new();
    let mut i: usize = 0;
    proof {
        reveal(Seq::filter);
        assert(windows@.take(0).filter(keep) =~= Seq::empty());
    }
    while i < windows.len()
        invariant
            i <= windows@.len(),
            keep == (|w: ChildWindowCandidate| w.width >= min_width && w.height >= min_height),
            large@ == windows@.take(i as int).filter(keep),
        decreases windows@.len() - i,
    {
        proof {
            reveal(Seq::filter);
            assert(windows@.take(i + 1).drop_last() =~= windows@.take(i as int));
        }
        let w = windows[i];
        if w.width >= min_width && w.height >= min_height {
            large.push(w);
        }
        i += 1;
    }
    assert(windows@.take(windows@.len() as int) =~= windows@);
    large
}

/// The first window of a kind.
fn find_first<F: Fn(ChildWindowCandidate) -> bool>(
    windows: &Vec<ChildWindowCandidate>,
    fits: F,
    Ghost(kind): Ghost<spec_fn(ChildWindowCandidate) -> bool>,
) -> (hwnd: Option<usize>)
    requires
        forall|w: ChildWindowCandidate| call_requires(fits, (w,)),
        forall|w: ChildWindowCandidate, b: bool| call_ensures(fits, (w,), b) ==> b == kind(w),
    ensures
        hwnd == first_child(windows@, kind),
{
    let mut i: usize = 0;
    assert(windows@.skip(0) =~= windows@);
    while i < windows.len()
        invariant
            i <= windows@.len(),
            forall|w: ChildWindowCandidate| call_requires(fits, (w,)),
            forall|w: ChildWindowCandidate, b: bool| call_ensures(fits, (w,), b) ==> b == kind(w),
            first_child(windows@.skip(i as int), kind) == first_child(windows@, kind),
        decreases windows@.len() - i,
    {
        let w = windows[i];
        assert(windows@.skip(i as int).drop_first() =~= windows@.skip(i + 1));
        if fits(w) {
            return Some(w.hwnd);
        }
        i += 1;
    }
    None
}

/// The window that is wider than high and shows most.
fn find_largest(windows: &Vec<ChildWindowCandidate>) -> (best: Option<ChildWindowCandidate>)
    ensures
        best == largest_child(windows@),
{
    let mut best: Option<ChildWindowCandidate> = None;
    let mut i: usize = 0;
    while i < windows.len()
        invariant
            i <= windows@.len(),
            best == largest_child(windows@.take(i as int)),
        decreases windows@.len() - i,
    {
        assert(windows@.take(i + 1).drop_last() =~= windows@.take(i as int));
        let w = windows[i];
        if w.width > w.height {
            let better = match best {
                None => true,
                Some(b) => area_of(w.width, w.height) >= area_of(b.width, b.height),
            };
            if better {
                best = Some(w);
            }
        }
        i += 1;
    }
    assert(windows@.take(windows@.len() as int) =~= windows@);
    best
}

/// The window that holds Studio's content, among those inside the Studio window.
pub fn choose_content_area(descendants: &Vec<ChildWindowCandidate>, studio_hwnd: usize) -> (hwnd:
    usize)
    ensures
        hwnd == content_area(descendants@, studio_hwnd),
{
    let fits = |w: ChildWindowCandidate| -> (b: bool)
        ensures
            b == is_content(w),
        { w.height > 600 && w.height < 750 && w.width > 2000 };
    match find_first(descendants, fits, Ghost(|w: ChildWindowCandidate| is_content(w))) {
        Some(hwnd) => hwnd,
        None => match find_largest(descendants) {
            Some(w) => w.hwnd,
            None => studio_hwnd,
        },
    }
}

/// The viewport, among the windows inside the content area.
pub fn choose_viewport(candidates: &Vec<ChildWindowCandidate>, studio_hwnd: usize) -> (hwnd: usize)
    ensures
        hwnd == viewport(candidates@, studio_hwnd),
{
    let fits = |w: ChildWindowCandidate| -> (b: bool)
        ensures
            b == is_viewport(w),
        { w.width < 1660 && w.height < 680 && w.width > 1000 && w.height > 500 };
    let close = |w: ChildWindowCandidate| -> (b: bool)
        ensures
            b == may_be_viewport(w),
        { w.width > 1000 && w.height > 500 };
    match find_first(candidates, fits, Ghost(|w: ChildWindowCandidate| is_viewport(w))) {
        Some(hwnd) => hwnd,
        None => match find_first(
            candidates,
            close,
            Ghost(|w: ChildWindowCandidate| may_be_viewport(w)),
        ) {
            Some(hwnd) => hwnd,
            None => studio_hwnd,
        },
    }
}

/// The process id of a plugin, or why there is none.
fn pid_of(instance: &PluginInstance) -> (result: Result<u32, String>)
    ensures
        match result {
            Ok(pid) => instance@.studio_pid == Some(pid),
            Err(message) => instance@.studio_pid is None && message@
                == "helper could not resolve a Studio process id for the selected plugin instance"@,
        },
{
    match instance.studio_pid {
        Some(pid) => Ok(pid),
        None => Err(
            "helper could not resolve a Studio process id for the selected plugin instance".to_owned(),
        ),
    }
}

/// The place and the process that a screenshot is taken of: those of the plugin on the route, or of
/// the only plugin.
pub fn resolve_capture_pid(
    state: &HelperState,
    place_id: Option<&str>,
    task_id: Option<&str>,
) -> (result: Result<(Option<String>, u32), String>)
    ensures
        match result {
            Ok((place, pid)) => captured_process(state@, place_id.deep_view(), task_id.deep_view())
                == Ok::<(Option<Seq<char>>, u32), Seq<char>>((place.deep_view(), pid)),
            Err(message) => captured_process(state@, place_id.deep_view(), task_id.deep_view())
                == Err::<(Option<Seq<char>>, u32), Seq<char>>(message@),
        },
{
    match place_id {
        Some(place) => {
            let key = match select_instance_for_route(place, task_id, &state.instances) {
                Some(key) => key,
                None => return Err(
                    concat("no active Studio plugin registered for placeId ", place),
                ),
            };
            match state.instances.get(key.as_str()) {
                Some(instance) => match pid_of(instance) {
                    Ok(pid) => Ok((Some(place.to_owned()), pid)),
                    Err(message) => Err(message),
                },
                None => Err("selected helper instance disappeared".to_owned()),
            }
        },
        None => {
            let count = state.instances.len();
            if count == 1 {
                let instance = state.instances.value_at(0);
                match pid_of(instance) {
                    Ok(pid) => Ok((Some(instance.place_id.clone()), pid)),
                    Err(message) => Err(message),
                }
            } else if count == 0 {
                Err("no active Studio plugin registered".to_owned())
            } else {
                Err("multiple Studio instances are active; pass placeId explicitly".to_owned())
            }
        },
    }
}

/// The name of the file that a screenshot is kept in.
pub fn screenshot_file_name(place_id: Option<&str>, stamp: &str) -> (name: String)
    ensures
        name@ == screenshot_file(place_id.deep_view(), stamp@),
{
    match place_id {
        Some(place) => {
            let head = concat3("studio-", place, "-");
            concat3(head.as_str(), stamp, ".png")
        },
        None => concat3("studio-", stamp, ".png"),
    }
}

/// The likeliest window of a process is one of its windows, and no window of the process is likelier.
pub proof fn law_likeliest_window(windows: Seq<WindowCandidateView>, pid: u32)
    ensures
        match likeliest_window(windows, pid) {
            Some(w) => windows.contains(w) && w.process_id == pid && forall|i: int|
                0 <= i < windows.len() && (#[trigger] windows[i]).process_id == pid
                    ==> window_at_least(w, windows[i]),
            None => forall|i: int|
                0 <= i < windows.len() ==> (#[trigger] windows[i]).process_id != pid,
        },
    decreases windows.len(),
{
    if windows.len() > 0 {
        let rest = windows.drop_last();
        law_likeliest_window(rest, pid);
        assert forall|i: int| 0 <= i < rest.len() implies windows[i] == rest[i] by {}
        if let Some(b) = likeliest_window(rest, pid) {
            let k = choose|k: int| 0 <= k < rest.len() && rest[k] == b;
            assert(windows[k] == b);
        }
        assert(windows[windows.len() - 1] == windows.last());
        assert forall|i: int|
            0 <= i < windows.len() && likeliest_window(windows, pid) is Some
                && (#[trigger] windows[i]).process_id == pid implies window_at_least(
            likeliest_window(windows, pid)->0,
            windows[i],
        ) by {
            if i < rest.len() {
                assert(rest[i] == windows[i]);
            }
        }
        assert forall|i: int|
            0 <= i < windows.len() && likeliest_window(windows, pid)
                is None implies (#[trigger] windows[i]).process_id != pid by {
            if i < rest.len() {
                assert(rest[i] == windows[i]);
            }
        }
    }
}

/// The bytes of a number that is made of them.
proof fn lemma_bytes(v: int, a: int, b: int, c: int, d: int)
    requires
        0 <= a < 256,
        0 <= b < 256,
        0 <= c < 256,
        0 <= d < 256,
        v == a + 256 * b + 65536 * c + 16777216 * d,
    ensures
        v % 256 == a,
        (v / 256) % 256 == b,
        (v / 65536) % 256 == c,
        v / 16777216 == d,
{
    assert(v / 256 == b + 256 * c + 65536 * d);
    assert(v / 65536 == c + 256 * d);
}

/// Reading an address twice gives back what is held in memory.
pub proof fn law_decoding_twice_undoes(value: u32)
    ensures
        0 <= swapped(value) <= u32::MAX,
        swapped(swapped(value) as u32) == value,
{
    let a = (value % 256) as int;
    let b = ((value / 256) % 256) as int;
    let c = ((value / 65536) % 256) as int;
    let d = (value / 16777216) as int;
    assert(value == a + 256 * b + 65536 * c + 16777216 * d) by {
        assert(value / 65536 == (value / 256) / 256);
        assert(value / 16777216 == (value / 65536) / 256);
    }
    lemma_bytes(swapped(value), d, c, b, a);
}

} // verus!
