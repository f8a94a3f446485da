//! Who this sidecar is: its connection id, the browser that launched it, and
//! the clock it stamps presence envelopes with.
use std::time::{Duration, SystemTime};
use vstd::prelude::*;
use crate::focus::opt_view;
use crate::text::{
    contains, digits, is_infix, lower_of, lowercase, matches_at, occurs_at, parse_u32, push_digits,
    trim_text, trimmed, u32_of,
};

verus! {

#[verifier::external_type_specification]
#[verifier::external_body]
pub struct ExSystemTime(SystemTime);

/// Relies on `std::time::SystemTime::now`: the current wall-clock time.
#[verifier::external_body]
fn clock_now() -> (r: SystemTime) {
    SystemTime::now()
}

/// Relies on `std::time::SystemTime::duration_since`: the time elapsed since
/// the Unix epoch, or `None` when the clock reads earlier than it.
#[verifier::external_body]
fn since_epoch(t: &SystemTime) -> (r: Option<Duration>) {
    t.duration_since(std::time::UNIX_EPOCH).ok()
}

/// Relies on `std::time::Duration::as_millis`: the whole milliseconds of a
/// duration.
#[verifier::external_body]
fn whole_millis(d: &Duration) -> (r: u128) {
    d.as_millis()
}

/// The milliseconds since the Unix epoch that a clock reading gave, or 0
/// when the clock read earlier than the epoch.
pub fn millis_or_zero(elapsed: Option<u128>) -> (r: u128)
    ensures
        r == match elapsed {
            Some(ms) => ms,
            None => 0,
        },
{
    match elapsed {
        Some(ms) => ms,
        None => 0,
    }
}

/// Milliseconds since the Unix epoch, or 0 when the clock reads earlier.
pub fn unix_ms() -> (r: u128) {
    let now = clock_now();
    let elapsed = match since_epoch(&now) {
        Some(d) => Some(whole_millis(&d)),
        None => None,
    };
    millis_or_zero(elapsed)
}

/// `<timestamp in hex>-<process id in hex>`.
pub open spec fn connection_id_text(timestamp: nat, process_id: nat) -> Seq<char> {
    digits(timestamp, 16) + "-"@ + digits(process_id, 16)
}

/// The connection id of a sidecar process started at `timestamp` (in
/// milliseconds since the Unix epoch) with process id `process_id`.
pub fn generate_connection_id(timestamp: u128, process_id: u32) -> (r: String)
    ensures
        r@ == connection_id_text(timestamp as nat, process_id as nat),
{
    let mut out = String::new();
    push_digits(&mut out, timestamp, 16);
    out.append("-");
    push_digits(&mut out, process_id as u128, 16);
    out
}

/// The browser label of a launching process name.
pub open spec fn label_of_process(name: Seq<char>) -> Seq<char> {
    let lower = lower_of(name);
    if is_infix("chrome.exe"@, lower) {
        "Chrome"@
    } else if is_infix("msedge.exe"@, lower) {
        "Edge"@
    } else if is_infix("brave.exe"@, lower) {
        "Brave"@
    } else if is_infix("comet.exe"@, lower) || is_infix("perplexity"@, lower) {
        "Comet"@
    } else {
        name
    }
}

/// The browser label a sidecar reports.
pub open spec fn browser_label(configured: Option<Seq<char>>, parent: Option<Seq<char>>) -> Seq<char> {
    match configured {
        Some(b) => b,
        None => match parent {
            Some(p) => label_of_process(p),
            None => "Unknown"@,
        },
    }
}

/// The browser label: the configured one if any, else one read from the
/// launching process's name (known browsers by name, others as they are),
/// else `Unknown`.
pub fn detect_browser(configured: Option<&str>, parent: Option<&str>) -> (r: String)
    ensures
        r@ == browser_label(opt_view(configured), opt_view(parent)),
{
    match configured {
        Some(b) => String::from_str(b),
        None => match parent {
            Some(p) => {
                let lower = lowercase(p);
                let l = lower.as_str();
                if contains(l, "chrome.exe") {
                    String::from_str("Chrome")
                } else if contains(l, "msedge.exe") {
                    String::from_str("Edge")
                } else if contains(l, "brave.exe") {
                    String::from_str("Brave")
                } else if contains(l, "comet.exe") || contains(l, "perplexity") {
                    String::from_str("Comet")
                } else {
                    String::from_str(p)
                }
            },
            None => String::from_str("Unknown"),
        },
    }
}

/// How many processes up the tree the launching browser is looked for.
pub const MAX_ANCESTOR_DEPTH: u32 = 5;

/// The next move of the walk up the process tree.
#[derive(Debug, Clone, PartialEq, Eq)]
pub enum AncestorStep {
    /// This process is the one to report.
    Found(String),
    /// Look at the parent, which has this process id.
    Climb(u32),
    /// Stop without an answer.
    GiveUp,
}

/// A process that launches the sidecar without being the browser: a shell,
/// a console host, or the sidecar itself.
pub open spec fn is_intermediate(lower: Seq<char>) -> bool {
    lower == "cmd.exe"@ || lower == "conhost.exe"@ || is_infix("bridge-sidecar"@, lower)
}

/// A browser executable.
pub open spec fn is_browser_process(lower: Seq<char>) -> bool {
    is_infix("chrome.exe"@, lower) || is_infix("msedge.exe"@, lower) || is_infix("brave.exe"@, lower)
        || is_infix("comet.exe"@, lower) || is_infix("firefox.exe"@, lower)
}

/// The decision at one process of the walk, given its name and parent id
/// (`None` when they could not be read) and its distance from the sidecar.
pub open spec fn ancestor_step_spec(info: Option<(Seq<char>, u32)>, depth: u32) -> Option<Result<Seq<char>, u32>> {
    if depth >= MAX_ANCESTOR_DEPTH {
        None
    } else {
        match info {
            None => None,
            Some((name, parent)) => {
                let lower = lower_of(name);
                if is_browser_process(lower) {
                    Some(Ok(name))
                } else if !is_intermediate(lower) && lower.len() > 0 {
                    Some(Ok(name))
                } else if depth + 1 < MAX_ANCESTOR_DEPTH {
                    Some(Err(parent))
                } else {
                    None
                }
            },
        }
    }
}

/// The spec-level value of a step: `Ok` to report a name, `Err` to climb.
pub open spec fn step_view(s: AncestorStep) -> Option<Result<Seq<char>, u32>> {
    match s {
        AncestorStep::Found(n) => Some(Ok(n@)),
        AncestorStep::Climb(p) => Some(Err(p)),
        AncestorStep::GiveUp => None,
    }
}

/// Decides the walk's next move: a browser is reported; shells, console
/// hosts and the sidecar itself are climbed past; any other named process is
/// reported; the walk gives up after a fixed number of levels, and at once
/// when called at or past that depth.
pub fn ancestor_step(info: Option<(&str, u32)>, depth: u32) -> (r: AncestorStep)
    ensures
        step_view(r) == ancestor_step_spec(
            match info {
                Some((n, p)) => Some((n@, p)),
                None => None,
            },
            depth,
        ),
{
    if depth >= MAX_ANCESTOR_DEPTH {
        return AncestorStep::GiveUp;
    }
    match info {
        None => AncestorStep::GiveUp,
        Some((name, parent)) => {
            let lower = lowercase(name);
            let l = lower.as_str();
            if contains(l, "chrome.exe") || contains(l, "msedge.exe") || contains(l, "brave.exe")
                || contains(l, "comet.exe") || contains(l, "firefox.exe") {
                return AncestorStep::Found(String::from_str(name));
            }
            let intermediate = l.to_owned().eq(&String::from_str("cmd.exe")) || l.to_owned().eq(
                &String::from_str("conhost.exe"),
            ) || contains(l, "bridge-sidecar");
            if !intermediate && l.unicode_len() > 0 {
                AncestorStep::Found(String::from_str(name))
            } else if depth + 1 < MAX_ANCESTOR_DEPTH {
                AncestorStep::Climb(parent)
            } else {
                AncestorStep::GiveUp
            }
        },
    }
}


/// A line of `s` starts at position `i`.
pub open spec fn line_start(s: Seq<char>, i: int) -> bool {
    i == 0 || (0 < i <= s.len() && s[i - 1] == '\n')
}

/// The first position from `i` on where a line of `s` starts with `key`.
pub open spec fn keyed_line(s: Seq<char>, key: Seq<char>, i: int) -> Option<int>
    decreases s.len() + 1 - i,
{
    if i < 0 || i > s.len() {
        None
    } else if line_start(s, i) && occurs_at(s, key, i) {
        Some(i)
    } else {
        keyed_line(s, key, i + 1)
    }
}

/// The end of the line that holds position `i`: the next newline, or the end.
pub open spec fn line_end(s: Seq<char>, i: int) -> int
    decreases s.len() - i,
{
    if i < 0 || i >= s.len() {
        s.len() as int
    } else if s[i] == '\n' {
        i
    } else {
        line_end(s, i + 1)
    }
}

proof fn lemma_keyed_line(s: Seq<char>, key: Seq<char>, i: int)
    ensures
        keyed_line(s, key, i) matches Some(f) ==> i <= f <= s.len() && occurs_at(s, key, f),
    decreases s.len() + 1 - i,
{
    if 0 <= i <= s.len() && !(line_start(s, i) && occurs_at(s, key, i)) {
        lemma_keyed_line(s, key, i + 1);
    }
}

/// The trimmed rest of the first line that starts with `key`.
pub open spec fn field_spec(s: Seq<char>, key: Seq<char>) -> Option<Seq<char>> {
    match keyed_line(s, key, 0) {
        Some(i) => Some(trimmed(s.subrange(i + key.len(), line_end(s, i + key.len())))),
        None => None,
    }
}

/// The name and parent process id in a process query's `Key=value` lines.
pub open spec fn process_record_spec(s: Seq<char>) -> Option<(Seq<char>, u32)> {
    match field_spec(s, "Name="@) {
        Some(name) => match field_spec(s, "ParentProcessId="@) {
            Some(p) => match u32_of(p) {
                Some(v) => Some((name, v)),
                None => None,
            },
            None => None,
        },
        None => None,
    }
}

/// The position of the first line of `s` that starts with `key`.
fn find_keyed_line(s: &str, key: &str) -> (r: Option<usize>)
    ensures
        match r {
            Some(f) => keyed_line(s@, key@, 0) == Some(f as int),
            None => keyed_line(s@, key@, 0) is None,
        },
{
    let n = s.unicode_len();
    let k = key.unicode_len();
    let mut i: usize = 0;
    while i < n
        invariant
            n == s@.len(),
            k == key@.len(),
            i <= n,
            keyed_line(s@, key@, 0) == keyed_line(s@, key@, i as int),
        decreases n - i,
    {
        let at_start = i == 0 || s.get_char(i - 1) == '\n';
        if at_start && k <= n - i && matches_at(s, key, i) {
            assert(line_start(s@, i as int));
            return Some(i);
        }
        i = i + 1;
    }
    let at_start = n == 0 || s.get_char(n - 1) == '\n';
    if at_start && k == 0 && matches_at(s, key, n) {
        assert(line_start(s@, n as int));
        Some(n)
    } else {
        assert(keyed_line(s@, key@, n + 1) is None);
        None
    }
}

/// The trimmed rest of the first line of `s` that starts with `key`.
pub fn field_value(s: &str, key: &str) -> (r: Option<String>)
    ensures
        match r {
            Some(v) => field_spec(s@, key@) == Some(v@),
            None => field_spec(s@, key@) is None,
        },
{
    let n = s.unicode_len();
    let k = key.unicode_len();
    let found = find_keyed_line(s, key);
    match found {
        None => None,
        Some(f) => {
            proof {
                lemma_keyed_line(s@, key@, 0);
            }
            let start = f + k;
            let ghost v = start as int;
            let mut j: usize = start;
            while j < n && s.get_char(j) != '\n'
                invariant
                    start <= j <= n,
                    n == s@.len(),
                    line_end(s@, v) == line_end(s@, j as int),
                decreases n - j,
            {
                j = j + 1;
            }
            assert(line_end(s@, j as int) == j);
            let line = s.substring_char(start, j);
            let t = trim_text(line);
            Some(t)
        },
    }
}

/// Reads the name and parent process id from a process query's output.
pub fn parse_process_record(output: &str) -> (r: Option<(String, u32)>)
    ensures
        match r {
            Some((n, p)) => process_record_spec(output@) == Some((n@, p)),
            None => process_record_spec(output@) is None,
        },
{
    let name = match field_value(output, "Name=") {
        Some(n) => n,
        None => return None,
    };
    let parent = match field_value(output, "ParentProcessId=") {
        Some(p) => p,
        None => return None,
    };
    match parse_u32(parent.as_str()) {
        Some(v) => Some((name, v)),
        None => None,
    }
}

} // verus!
