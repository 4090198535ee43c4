use thw_dash::dashboard::{App, AppEvent, TickData};
use thw_dash::list::SelectableList;
use thw_dash::mux::Key;
use thw_dash::record::ThwDatum;
use thw_dash::sched::RefreshScheduler;
use thw_dash::signal::Signal;
use thw_dash::tabs::TabCycle;
use thw_dash::worker::normalize_records;

fn rec(title: &str, forum: &str, href: &str) -> ThwDatum {
    ThwDatum { title: title.to_string(), forum: forum.to_string(), href: href.to_string() }
}

fn fresh_app() -> App {
    App::new("THW Subscriber".to_string(), true, 0, vec![0; 300])
}

/// An app whose filter set is chosen by the test.
fn app_with_filters(filters: Vec<String>) -> App {
    App {
        title: "THW Subscriber".to_string(),
        should_quit: false,
        tabs: TabCycle::new(vec!["New posts".to_string(), "Filters".to_string()]),
        show_chart: true,
        scheduler: RefreshScheduler::new(0, 60_000),
        sparkline: Signal::new(vec![0; 10], 1),
        tasks: SelectableList::new(),
        logs: SelectableList::new(),
        enhanced_graphics: false,
        errors: Vec::new(),
        filters,
    }
}

fn tick(now_ms: u64, results: Vec<ThwDatum>) -> AppEvent {
    AppEvent::Tick(TickData { now_ms, fresh: vec![0], results })
}

#[test]
fn new_app_has_documented_defaults() {
    let app = fresh_app();
    assert!(!app.should_quit);
    assert!(app.show_chart);
    assert_eq!(app.tabs.index, 0);
    assert_eq!(app.tabs.titles, vec!["New posts", "Filters"]);
    assert_eq!(app.scheduler.period_ms, 60_000);
    assert_eq!(app.scheduler.deadline_ms, 60_000);
    assert_eq!(app.sparkline.points.len(), 300);
    assert!(app.tasks.items.is_empty());
    assert!(app.errors.is_empty());
    assert_eq!(
        app.filters,
        vec!["Maps", "Models", "Site Discussion", "Multiplayer LFG", "Skins", "Something Else"]
    );
}

#[test]
fn filtered_and_duplicate_records_are_dropped() {
    let mut app = app_with_filters(vec!["Off-topic".to_string()]);
    let batch = vec![
        rec("first", "Maps", "m1"),
        rec("noise", "Off-topic", "o1"),
        rec("first", "Maps", "m1"),
    ];
    let eff = app.advance(tick(1, batch));
    assert!(!eff.fire_refresh);
    assert_eq!(app.tasks.items.len(), 1);
    assert_eq!(app.tasks.items[0].forum, "Maps");
    assert!(app.tasks.items.iter().all(|r| r.forum != "Off-topic"));
}

#[test]
fn filtered_record_never_present_whatever_the_order() {
    let mut app = app_with_filters(vec!["Off-topic".to_string()]);
    app.advance(tick(1, vec![rec("noise", "Off-topic", "o1"), rec("a", "Maps", "m1")]));
    app.advance(tick(2, vec![rec("b", "Maps", "m2"), rec("noise", "Off-topic", "o1")]));
    assert_eq!(app.tasks.items.len(), 2);
    assert!(app.tasks.items.iter().all(|r| r.forum != "Off-topic"));
}

#[test]
fn records_insert_most_recent_first() {
    let mut app = app_with_filters(Vec::new());
    app.advance(tick(1, vec![rec("a", "Maps", "m1"), rec("b", "Maps", "m2")]));
    assert_eq!(app.tasks.items[0].title, "b");
    assert_eq!(app.tasks.items[1].title, "a");
}

#[test]
fn default_filter_set_blocks_maps() {
    let mut app = fresh_app();
    let eff = app.advance(tick(1, vec![rec("a", "Maps", "m1"), rec("b", "Heroes", "h1")]));
    assert!(!eff.fire_refresh);
    assert_eq!(app.tasks.items.len(), 1);
    assert_eq!(app.tasks.items[0].forum, "Heroes");
}

#[test]
fn refresh_fires_once_after_period_elapses() {
    let mut app = fresh_app();
    let mut fires = 0;
    for t in 1..=61u64 {
        let eff = app.advance(tick(t * 1000, Vec::new()));
        if eff.fire_refresh {
            fires += 1;
        }
    }
    assert_eq!(fires, 1);
    assert_eq!(app.scheduler.deadline_ms, 120_000);
}

#[test]
fn quit_key_sets_flag() {
    let mut app = fresh_app();
    let eff = app.advance(AppEvent::Input(Key::Char('q')));
    assert!(app.should_quit);
    assert!(!eff.fire_refresh);
    assert!(eff.copy_request.is_none());
}

#[test]
fn toggle_key_flips_chart() {
    let mut app = fresh_app();
    app.advance(AppEvent::Input(Key::Char('t')));
    assert!(!app.show_chart);
    app.advance(AppEvent::Input(Key::Char('t')));
    assert!(app.show_chart);
}

#[test]
fn unknown_key_changes_nothing() {
    let mut app = fresh_app();
    let eff = app.advance(AppEvent::Input(Key::Char('z')));
    assert!(!app.should_quit);
    assert!(app.show_chart);
    assert!(eff.copy_request.is_none());
    let eff = app.advance(AppEvent::Input(Key::Other));
    assert!(eff.copy_request.is_none());
}

#[test]
fn copy_without_selection_requests_nothing() {
    let mut app = fresh_app();
    let eff = app.advance(AppEvent::Input(Key::Char('c')));
    assert!(eff.copy_request.is_none());
    assert_eq!(app.get_uri(), None);
}

#[test]
fn copy_with_selection_requests_full_url() {
    let mut app = app_with_filters(Vec::new());
    app.advance(tick(1, vec![rec("a", "Maps", "threads/a.123/")]));
    app.advance(AppEvent::Input(Key::Down));
    let eff = app.advance(AppEvent::Input(Key::Char('c')));
    assert_eq!(
        eff.copy_request.as_deref(),
        Some("https://www.hiveworkshop.com/threads/a.123/")
    );
}

#[test]
fn arrow_keys_move_cursor_and_tabs() {
    let mut app = app_with_filters(Vec::new());
    app.advance(tick(1, vec![rec("a", "Maps", "m1"), rec("b", "Maps", "m2")]));
    app.advance(AppEvent::Input(Key::Down));
    assert_eq!(app.tasks.cursor, Some(0));
    app.advance(AppEvent::Input(Key::Down));
    assert_eq!(app.tasks.cursor, Some(1));
    app.advance(AppEvent::Input(Key::Up));
    assert_eq!(app.tasks.cursor, Some(0));
    app.advance(AppEvent::Input(Key::Right));
    assert_eq!(app.tabs.index, 1);
    app.advance(AppEvent::Input(Key::Right));
    assert_eq!(app.tabs.index, 0);
    app.advance(AppEvent::Input(Key::Left));
    assert_eq!(app.tabs.index, 1);
}

#[test]
fn tick_slides_sparkline_window() {
    let mut app = app_with_filters(Vec::new());
    let before = app.sparkline.points.len();
    app.advance(AppEvent::Tick(TickData { now_ms: 1, fresh: vec![42], results: Vec::new() }));
    assert_eq!(app.sparkline.points.len(), before);
    assert_eq!(*app.sparkline.points.last().unwrap(), 42);
}

#[test]
fn copy_error_is_recorded_for_the_footer() {
    let mut app = fresh_app();
    app.on_copy_error("clipboard unavailable".to_string());
    assert_eq!(app.errors, vec!["clipboard unavailable"]);
}

#[test]
fn normalize_reverses_fetch_order() {
    let batch = vec![rec("oldest", "A", "1"), rec("middle", "B", "2"), rec("newest", "C", "3")];
    let out = normalize_records(batch);
    assert_eq!(out[0].title, "newest");
    assert_eq!(out[1].title, "middle");
    assert_eq!(out[2].title, "oldest");
}

#[test]
fn tab_cycle_of_two_toggles_either_way() {
    let mut t = TabCycle::new(vec!["a".to_string(), "b".to_string()]);
    t.next();
    assert_eq!(t.index, 1);
    t.next();
    assert_eq!(t.index, 0);
    t.previous();
    assert_eq!(t.index, 1);
    t.previous();
    assert_eq!(t.index, 0);
}
