use bridge_relay::focus::{
    expected_process_names, score_window, select_window, target_hint, FocusError, FocusResolver,
    FocusWindowPayload, WindowInfo,
};

fn window(handle: isize, process: &str, title: &str) -> WindowInfo {
    WindowInfo { handle, process_name: process.to_string(), title: title.to_string() }
}

fn request(window_id: Option<i32>, title: Option<&str>, browser: Option<&str>) -> FocusWindowPayload {
    FocusWindowPayload {
        window_id,
        title: title.map(|s| s.to_string()),
        url: None,
        browser: browser.map(|s| s.to_string()),
        connection_id: None,
    }
}

#[test]
fn expected_names_for_known_and_unknown_browsers() {
    assert_eq!(expected_process_names(Some("Google Chrome")), vec!["chrome.exe"]);
    assert_eq!(expected_process_names(Some("Edge")), vec!["msedge.exe"]);
    assert_eq!(expected_process_names(Some("Brave")), vec!["brave.exe"]);
    assert_eq!(expected_process_names(Some("Firefox")), vec!["firefox.exe"]);
    assert_eq!(expected_process_names(Some("Perplexity")), vec!["comet.exe", "chrome.exe"]);
    assert_eq!(expected_process_names(Some("Vivaldi")), vec!["vivaldi.exe"]);
    assert_eq!(
        expected_process_names(None),
        vec!["chrome.exe", "msedge.exe", "brave.exe", "comet.exe", "firefox.exe"]
    );
}

#[test]
fn hint_prefers_title_then_url() {
    assert_eq!(target_hint(Some("Example"), Some("HTTP://X")), Some("example".to_string()));
    assert_eq!(target_hint(None, Some("HTTP://X")), Some("http://x".to_string()));
    assert_eq!(target_hint(None, None), None);
}

#[test]
fn chrome_window_with_matching_title_is_selected() {
    let names = expected_process_names(None);
    let w = window(42, "chrome.exe", "Example — Chrome");
    // 100 for the process, 50 for the title hint, 5 for having a title.
    assert_eq!(score_window(&w, Some("example"), &names), Some(155));
    let mut resolver = FocusResolver::new();
    let req = request(Some(7), Some("example"), None);
    assert_eq!(resolver.cached(Some(7)), None);
    assert_eq!(resolver.resolve(&req, &vec![w]), Ok(42));
    assert_eq!(resolver.cached(Some(7)), Some(42));
}

#[test]
fn unexpected_process_is_rejected() {
    let names = expected_process_names(Some("Chrome"));
    assert_eq!(score_window(&window(1, "notepad.exe", "Example"), Some("example"), &names), None);
    assert_eq!(score_window(&window(1, "", "Example"), Some("example"), &names), Some(55));
    assert_eq!(score_window(&window(1, "chrome.exe", ""), Some("example"), &names), Some(100));
}

#[test]
fn ties_keep_first_and_nothing_is_not_found() {
    let names = expected_process_names(None);
    let ws = vec![window(1, "chrome.exe", "a"), window(2, "msedge.exe", "b"), window(3, "brave.exe", "example")];
    assert_eq!(select_window(&ws, None, &names), Ok(1));
    assert_eq!(select_window(&ws, Some("example"), &names), Ok(3));
    assert_eq!(select_window(&vec![], None, &names), Err(FocusError::NotFound));
    let names_chrome = expected_process_names(Some("chrome"));
    assert_eq!(
        select_window(&vec![window(9, "notepad.exe", "x")], None, &names_chrome),
        Err(FocusError::NotFound)
    );
}

#[test]
fn dead_cached_handle_is_evicted() {
    let mut resolver = FocusResolver::new();
    let req = request(Some(3), None, Some("Chrome"));
    assert_eq!(resolver.resolve(&req, &vec![window(5, "chrome.exe", "t")]), Ok(5));
    assert_eq!(resolver.confirm_cached(3, 5, true), Some(5));
    assert_eq!(resolver.cached(Some(3)), Some(5));
    assert_eq!(resolver.confirm_cached(3, 5, false), None);
    assert_eq!(resolver.cached(Some(3)), None);
}

#[test]
fn failed_search_caches_nothing() {
    let mut resolver = FocusResolver::new();
    let req = request(Some(1), None, Some("Chrome"));
    assert_eq!(resolver.resolve(&req, &vec![]), Err(FocusError::NotFound));
    assert_eq!(resolver.cached(Some(1)), None);
    assert_eq!(resolver.cached(None), None);
}
