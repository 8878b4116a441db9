use ytsearch::App;
use ytsearch::FetchOutcome;
use ytsearch::KeyInput;
use ytsearch::SessionAction;
use ytsearch::YoutubeVideoInfo;
use ytsearch::search_request_url;

fn app_with_results(n: usize) -> App {
    let mut app = App::new();
    let mut entries = String::new();
    for i in 0..n {
        if i > 0 {
            entries.push(',');
        }
        entries.push_str(&format!("{{\"videoRenderer\":{{\"videoId\":\"v{}\"}}}}", i));
    }
    let json = format!(
        "{{\"contents\":{{\"twoColumnSearchResultsRenderer\":{{\"primaryContents\":{{\"sectionListRenderer\":{{\"contents\":[{{\"itemSectionRenderer\":{{\"contents\":[{}]}}}}]}}}}}}}}}}",
        entries
    );
    let page = format!("var ytInitialData = {};", json);
    app.apply_fetch_outcome("q", FetchOutcome::Body(page));
    assert_eq!(app.videos.len(), n);
    app
}

#[test]
fn new_session_starts_idle_and_empty() {
    let app = App::new();
    assert_eq!(app.videos.len(), 0);
    assert_eq!(app.selected, 0);
    assert_eq!(app.query, "");
    assert_eq!(app.message, "Ketik query lalu enter");
}

#[test]
fn typing_appends_and_backspace_removes() {
    let mut app = App::new();
    assert!(matches!(app.handle_key(KeyInput::Char('a')), SessionAction::Continue));
    assert!(matches!(app.handle_key(KeyInput::Char('b')), SessionAction::Continue));
    assert_eq!(app.query, "ab");
    assert!(matches!(app.handle_key(KeyInput::Backspace), SessionAction::Continue));
    assert_eq!(app.query, "a");
    app.handle_key(KeyInput::Backspace);
    app.handle_key(KeyInput::Backspace);
    assert_eq!(app.query, "");
}

#[test]
fn zero_and_escape_end_the_session() {
    let mut app = App::new();
    assert!(matches!(app.handle_key(KeyInput::Char('0')), SessionAction::Exit));
    let mut app2 = App::new();
    assert!(matches!(app2.handle_key(KeyInput::Esc), SessionAction::Exit));
}

#[test]
fn submit_trims_query_and_clears_buffer() {
    let mut app = App::new();
    for c in "  rust talks  ".chars() {
        app.handle_key(KeyInput::Char(c));
    }
    match app.handle_key(KeyInput::Enter) {
        SessionAction::Search(q) => assert_eq!(q, "rust talks"),
        _ => panic!("expected a search"),
    }
    assert_eq!(app.query, "");
    assert_eq!(app.message, "Mencari: rust talks...");
}

#[test]
fn blank_submit_never_fetches_or_touches_results() {
    let mut app = app_with_results(2);
    let before: Vec<String> = app.videos.iter().map(|v| v.id.clone()).collect();
    for c in " \t ".chars() {
        app.handle_key(KeyInput::Char(c));
    }
    let act = app.handle_key(KeyInput::Enter);
    assert!(matches!(act, SessionAction::Continue));
    let after: Vec<String> = app.videos.iter().map(|v| v.id.clone()).collect();
    assert_eq!(before, after);
}

#[test]
fn empty_submit_with_results_shows_selected_url() {
    let mut app = app_with_results(2);
    app.handle_key(KeyInput::Down);
    let act = app.handle_key(KeyInput::Enter);
    assert!(matches!(act, SessionAction::Continue));
    assert_eq!(app.message, "https://www.youtube.com/watch?v=v1");
}

#[test]
fn empty_submit_without_results_is_a_no_op() {
    let mut app = App::new();
    let act = app.handle_key(KeyInput::Enter);
    assert!(matches!(act, SessionAction::Continue));
    assert_eq!(app.videos.len(), 0);
    assert_eq!(app.message, "Ketik query lalu enter");
}

#[test]
fn navigation_stays_in_range() {
    let mut app = app_with_results(3);
    assert_eq!(app.selected, 0);
    app.handle_key(KeyInput::Up);
    assert_eq!(app.selected, 0);
    app.handle_key(KeyInput::Down);
    app.handle_key(KeyInput::Down);
    assert_eq!(app.selected, 2);
    app.handle_key(KeyInput::Down);
    assert_eq!(app.selected, 2);
    app.handle_key(KeyInput::Up);
    assert_eq!(app.selected, 1);
}

#[test]
fn down_on_last_of_three_is_clamped() {
    let mut app = app_with_results(3);
    app.selected = 2;
    app.handle_key(KeyInput::Down);
    assert_eq!(app.selected, 2);
}

#[test]
fn navigation_on_empty_results_keeps_zero() {
    let mut app = App::new();
    app.handle_key(KeyInput::Up);
    assert_eq!(app.selected, 0);
    app.handle_key(KeyInput::Down);
    assert_eq!(app.selected, 0);
}

#[test]
fn successful_fetch_replaces_results_and_resets_selection() {
    let mut app = app_with_results(3);
    app.handle_key(KeyInput::Down);
    assert_eq!(app.selected, 1);
    let page = "var ytInitialData = {\"contents\":{\"twoColumnSearchResultsRenderer\":{\"primaryContents\":{\"sectionListRenderer\":{\"contents\":[{\"itemSectionRenderer\":{\"contents\":[{\"videoRenderer\":{\"videoId\":\"fresh\"}}]}}]}}}}};";
    app.apply_fetch_outcome("kittens", FetchOutcome::Body(page.to_string()));
    assert_eq!(app.videos.len(), 1);
    assert_eq!(app.videos[0].id, "fresh");
    assert_eq!(app.selected, 0);
    assert_eq!(app.message, "Hasil untuk: kittens");
}

#[test]
fn failed_fetch_leaves_placeholder_and_session_stays_alive() {
    let mut app = App::new();
    app.apply_fetch_outcome("anything", FetchOutcome::Failed("connection refused".to_string()));
    assert_eq!(app.videos.len(), 1);
    let placeholder = &app.videos[0];
    let empty = YoutubeVideoInfo::default();
    assert_eq!(placeholder.id, empty.id);
    assert_eq!(placeholder.url, empty.url);
    assert_eq!(placeholder.title, "");
    assert_eq!(app.message, "connection refused");
    assert_eq!(app.selected, 0);
    // Still in the idle state: further events are interpreted as usual.
    assert!(matches!(app.handle_key(KeyInput::Char('x')), SessionAction::Continue));
    assert_eq!(app.query, "x");
    app.handle_key(KeyInput::Down);
    assert_eq!(app.selected, 0);
}

#[test]
fn default_record_is_all_empty() {
    let r = YoutubeVideoInfo::default();
    assert_eq!(r.id, "");
    assert_eq!(r.title, "");
    assert_eq!(r.channel, "");
    assert_eq!(r.duration, "");
    assert_eq!(r.avatar, "");
    assert_eq!(r.url, "");
    assert_eq!(r.thumbnail, "");
    assert_eq!(r.viewers, "");
}

#[test]
fn request_url_is_base_plus_raw_query() {
    let u = search_request_url("rust");
    assert_eq!(u, "https://www.youtube.com/results?search_query=rust");
}
