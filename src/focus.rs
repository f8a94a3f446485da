//! The window-focus resolver: which window a focus request means, found
//! through a per-window-id cache or a scored search over the visible windows.
//! The operating-system calls (enumerating windows, checking a handle,
//! raising a window) are made by the caller; the decisions are made here.
use std::collections::HashMap;
use vstd::prelude::*;
use crate::text::{contains, ends_with, is_infix, is_suffix, lower_of, lowercase};

verus! {

broadcast use vstd::std_specs::hash::group_hash_axioms;

/// A request to bring a browser window to the front.
#[derive(Debug, Clone)]
pub struct FocusWindowPayload {
    pub window_id: Option<i32>,
    pub title: Option<String>,
    pub url: Option<String>,
    pub browser: Option<String>,
    pub connection_id: Option<String>,
}

/// One visible top-level window, as the platform reported it. An empty
/// `process_name` means the owning process could not be resolved.
#[derive(Debug, Clone)]
pub struct WindowInfo {
    pub handle: isize,
    pub process_name: String,
    pub title: String,
}

/// Why a focus request failed.
#[derive(Debug, Clone, Copy, PartialEq, Eq, Structural)]
pub enum FocusError {
    /// No visible window scored above zero.
    NotFound,
}

/// The view of an optional text.
pub open spec fn opt_view(o: Option<&str>) -> Option<Seq<char>> {
    match o {
        Some(s) => Some(s@),
        None => None,
    }
}

/// The view of an optional owned text.
pub open spec fn opt_string_view(o: Option<String>) -> Option<Seq<char>> {
    match o {
        Some(s) => Some(s@),
        None => None,
    }
}

/// The executables tried when no browser is named.
pub open spec fn default_process_names() -> Seq<Seq<char>> {
    seq!["chrome.exe"@, "msedge.exe"@, "brave.exe"@, "comet.exe"@, "firefox.exe"@]
}

/// The executable names a browser label stands for.
pub open spec fn process_names_for(browser: Option<Seq<char>>) -> Seq<Seq<char>> {
    match browser {
        None => default_process_names(),
        Some(name) => {
            let lower = lower_of(name);
            if is_infix("chrome"@, lower) {
                seq!["chrome.exe"@]
            } else if is_infix("edge"@, lower) {
                seq!["msedge.exe"@]
            } else if is_infix("brave"@, lower) {
                seq!["brave.exe"@]
            } else if is_infix("firefox"@, lower) {
                seq!["firefox.exe"@]
            } else if is_infix("comet"@, lower) || is_infix("perplexity"@, lower) {
                seq!["comet.exe"@, "chrome.exe"@]
            } else {
                seq![lower + ".exe"@]
            }
        },
    }
}

/// The executable names a browser label stands for: known browsers map to
/// their executable, other labels to `<label>.exe` in lower case, and no
/// label to a list of common browsers.
pub fn expected_process_names(browser: Option<&str>) -> (r: Vec<String>)
    ensures
        r.deep_view() == process_names_for(opt_view(browser)),
{
    let mut result: Vec<String> = Vec::new();
    match browser {
        None => {
            result.push(String::from_str("chrome.exe"));
            result.push(String::from_str("msedge.exe"));
            result.push(String::from_str("brave.exe"));
            result.push(String::from_str("comet.exe"));
            result.push(String::from_str("firefox.exe"));
        },
        Some(name) => {
            let lower = lowercase(name);
            if contains(lower.as_str(), "chrome") {
                result.push(String::from_str("chrome.exe"));
            } else if contains(lower.as_str(), "edge") {
                result.push(String::from_str("msedge.exe"));
            } else if contains(lower.as_str(), "brave") {
                result.push(String::from_str("brave.exe"));
            } else if contains(lower.as_str(), "firefox") {
                result.push(String::from_str("firefox.exe"));
            } else if contains(lower.as_str(), "comet") || contains(lower.as_str(), "perplexity") {
                result.push(String::from_str("comet.exe"));
                result.push(String::from_str("chrome.exe"));
            } else {
                let mut exe = lower;
                exe.append(".exe");
                result.push(exe);
            }
        },
    }
    assert(result.deep_view() =~= process_names_for(opt_view(browser)));
    result
}

/// The lower-cased text a window title is matched against: the title, else
/// the URL.
pub open spec fn hint_for(title: Option<Seq<char>>, url: Option<Seq<char>>) -> Option<Seq<char>> {
    match title {
        Some(t) => Some(lower_of(t)),
        None => match url {
            Some(u) => Some(lower_of(u)),
            None => None,
        },
    }
}

/// The lower-cased title of a request, else its lower-cased URL.
pub fn target_hint(title: Option<&str>, url: Option<&str>) -> (r: Option<String>)
    ensures
        opt_string_view(r) == hint_for(opt_view(title), opt_view(url)),
{
    match title {
        Some(t) => Some(lowercase(t)),
        None => match url {
            Some(u) => Some(lowercase(u)),
            None => None,
        },
    }
}

/// Some expected name is a suffix of `name`.
pub open spec fn name_matches(name: Seq<char>, names: Seq<Seq<char>>) -> bool {
    exists|i: int| 0 <= i < names.len() && is_suffix(names[i], name)
}

/// A window is passed over when its process is known, names are expected,
/// and none of them ends its process name.
pub open spec fn rejected(name: Seq<char>, names: Seq<Seq<char>>) -> bool {
    name.len() > 0 && names.len() > 0 && !name_matches(name, names)
}

/// The score of a window that is not passed over: 100 for its process, 50
/// when its lower-cased title holds a non-empty hint, 5 for any title.
pub open spec fn score_of(
    name: Seq<char>,
    title: Seq<char>,
    hint: Option<Seq<char>>,
    names: Seq<Seq<char>>,
) -> nat {
    (if name.len() > 0 { 100nat } else { 0nat }) + (if hint matches Some(h) && h.len() > 0
        && is_infix(h, lower_of(title)) {
        50nat
    } else {
        0nat
    }) + (if title.len() > 0 { 5nat } else { 0nat })
}

/// Whether some name of `names` ends `name`.
fn any_suffix(name: &str, names: &Vec<String>) -> (r: bool)
    ensures
        r == name_matches(name@, names.deep_view()),
{
    let mut i: usize = 0;
    while i < names.len()
        invariant
            i <= names@.len(),
            forall|j: int| 0 <= j < i ==> !is_suffix(names.deep_view()[j], name@),
        decreases names@.len() - i,
    {
        if ends_with(name, names[i].as_str()) {
            assert(is_suffix(names.deep_view()[i as int], name@));
            return true;
        }
        i = i + 1;
    }
    false
}

/// Scores one window, or `None` when it is passed over.
pub fn score_window(window: &WindowInfo, hint: Option<&str>, names: &Vec<String>) -> (r: Option<u32>)
    ensures
        rejected(window.process_name@, names.deep_view()) ==> r.is_none(),
        !rejected(window.process_name@, names.deep_view()) ==> r == Some(
            score_of(window.process_name@, window.title@, opt_view(hint), names.deep_view()) as u32,
        ),
{
    let name = window.process_name.as_str();
    let mut score: u32 = 0;
    if name.unicode_len() > 0 {
        if names.len() > 0 && !any_suffix(name, names) {
            return None;
        }
        score = score + 100;
    }
    if let Some(h) = hint {
        if h.unicode_len() > 0 {
            let lower_title = lowercase(window.title.as_str());
            if contains(lower_title.as_str(), h) {
                score = score + 50;
            }
        }
    }
    if window.title.as_str().unicode_len() > 0 {
        score = score + 5;
    }
    Some(score)
}

/// The best window among the first `n`, with its score: the highest score
/// above zero, the earliest on ties.
pub open spec fn best_among(
    ws: Seq<WindowInfo>,
    n: nat,
    hint: Option<Seq<char>>,
    names: Seq<Seq<char>>,
) -> (Option<int>, nat)
    decreases n,
{
    if n == 0 {
        (None, 0)
    } else {
        let prev = best_among(ws, (n - 1) as nat, hint, names);
        let w = ws[n - 1];
        if !rejected(w.process_name@, names) && score_of(w.process_name@, w.title@, hint, names)
            > prev.1 {
            (Some(n - 1), score_of(w.process_name@, w.title@, hint, names))
        } else {
            prev
        }
    }
}

proof fn lemma_best_bounds(ws: Seq<WindowInfo>, n: nat, hint: Option<Seq<char>>, names: Seq<Seq<char>>)
    requires
        n <= ws.len(),
    ensures
        best_among(ws, n, hint, names).1 <= 155,
        best_among(ws, n, hint, names).0 matches Some(i) ==> 0 <= i < n && best_among(
            ws,
            n,
            hint,
            names,
        ).1 > 0,
        best_among(ws, n, hint, names).0 is None ==> best_among(ws, n, hint, names).1 == 0,
    decreases n,
{
    if n > 0 {
        lemma_best_bounds(ws, (n - 1) as nat, hint, names);
    }
}

/// What a search over `ws` selects.
pub open spec fn selection(ws: Seq<WindowInfo>, hint: Option<Seq<char>>, names: Seq<Seq<char>>) -> Result<isize, FocusError> {
    match best_among(ws, ws.len(), hint, names).0 {
        Some(i) => Ok(ws[i].handle),
        None => Err(FocusError::NotFound),
    }
}

/// Picks the window to raise: the first of the highest-scoring windows, or
/// `NotFound` when none scores above zero.
pub fn select_window(windows: &Vec<WindowInfo>, hint: Option<&str>, names: &Vec<String>) -> (r: Result<isize, FocusError>)
    ensures
        r == selection(windows@, opt_view(hint), names.deep_view()),
{
    let ghost h = opt_view(hint);
    let ghost ns = names.deep_view();
    let mut best: Option<usize> = None;
    let mut best_score: u32 = 0;
    let mut i: usize = 0;
    while i < windows.len()
        invariant
            i <= windows@.len(),
            h == opt_view(hint),
            ns == names.deep_view(),
            best_among(windows@, i as nat, h, ns).1 == best_score as nat,
            best_among(windows@, i as nat, h, ns).0 == match best {
                Some(b) => Some(b as int),
                None => None::<int>,
            },
        decreases windows@.len() - i,
    {
        proof {
            lemma_best_bounds(windows@, i as nat, h, ns);
        }
        match score_window(&windows[i], hint, names) {
            Some(s) => {
                if s > best_score {
                    best_score = s;
                    best = Some(i);
                }
            },
            None => {},
        }
        i = i + 1;
    }
    proof {
        lemma_best_bounds(windows@, windows@.len(), h, ns);
    }
    match best {
        Some(b) => Ok(windows[b].handle),
        None => Err(FocusError::NotFound),
    }
}


/// A window whose process ends with an expected name and whose lower-cased
/// non-empty title, lower-cased, holds a non-empty hint scores 155 (100 for the process, 50 for the
/// title, 5 for having one); alone among the visible windows it is selected.
pub proof fn matching_window_is_selected(w: WindowInfo, hint: Seq<char>, names: Seq<Seq<char>>)
    requires
        w.process_name@.len() > 0,
        name_matches(w.process_name@, names),
        w.title@.len() > 0,
        hint.len() > 0,
        is_infix(hint, lower_of(w.title@)),
    ensures
        !rejected(w.process_name@, names),
        score_of(w.process_name@, w.title@, Some(hint), names) == 155,
        selection(seq![w], Some(hint), names) == Ok::<isize, FocusError>(w.handle),
{
    assert(best_among(seq![w], 0, Some(hint), names) == (None::<int>, 0nat));
}

/// Remembers, per logical window id, the platform handle of the window that
/// was last focused for it.
pub struct FocusResolver {
    cache: HashMap<i32, isize>,
}

impl FocusResolver {
    /// The cached handles by window id.
    pub closed spec fn cache_view(&self) -> Map<i32, isize> {
        self.cache@
    }

    /// A resolver with nothing cached.
    pub fn new() -> (r: FocusResolver)
        ensures
            r.cache_view() == Map::<i32, isize>::empty(),
    {
        FocusResolver { cache: HashMap::new() }
    }

    /// The cached handle for the request's window id, if there is one. The
    /// caller checks that it still names a live window.
    pub fn cached(&self, window_id: Option<i32>) -> (r: Option<isize>)
        ensures
            r == (match window_id {
                Some(id) => if self.cache_view().contains_key(id) {
                    Some(self.cache_view()[id])
                } else {
                    None
                },
                None => None,
            }),
    {
        match window_id {
            Some(id) => match self.cache.get(&id) {
                Some(h) => Some(*h),
                None => None,
            },
            None => None,
        }
    }

    /// Acts on the liveness of a cached handle: a live one is raised as it
    /// is; a dead one is evicted, and a search follows (`None`).
    pub fn confirm_cached(&mut self, window_id: i32, handle: isize, live: bool) -> (r: Option<isize>)
        ensures
            live ==> r == Some(handle) && final(self).cache_view() == old(self).cache_view(),
            !live ==> r.is_none() && final(self).cache_view() == old(self).cache_view().remove(
                window_id,
            ),
    {
        if live {
            Some(handle)
        } else {
            self.cache.remove(&window_id);
            None
        }
    }

    /// Searches `windows` for the request's target and, on success, caches
    /// the winner under the request's window id when it has one.
    pub fn resolve(&mut self, request: &FocusWindowPayload, windows: &Vec<WindowInfo>) -> (r: Result<isize, FocusError>)
        ensures
            r == selection(
                windows@,
                hint_for(opt_string_view(request.title), opt_string_view(request.url)),
                process_names_for(opt_string_view(request.browser)),
            ),
            final(self).cache_view() == (match (r, request.window_id) {
                (Ok(h), Some(id)) => old(self).cache_view().insert(id, h),
                _ => old(self).cache_view(),
            }),
    {
        let title = match &request.title {
            Some(t) => Some(t.as_str()),
            None => None,
        };
        let url = match &request.url {
            Some(u) => Some(u.as_str()),
            None => None,
        };
        let browser = match &request.browser {
            Some(b) => Some(b.as_str()),
            None => None,
        };
        let hint = target_hint(title, url);
        let names = expected_process_names(browser);
        let hint_ref = match &hint {
            Some(h) => Some(h.as_str()),
            None => None,
        };
        let r = select_window(windows, hint_ref, &names);
        if let Ok(h) = r {
            if let Some(id) = request.window_id {
                self.cache.insert(id, h);
            }
        }
        r
    }
}

} // verus!
