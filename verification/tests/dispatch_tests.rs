use fokus::dispatch::{validated_default_minutes, App, Key};
use fokus::history::History;

fn fresh_app(default_minutes: u64) -> App {
    App::new(default_minutes, History::new())
}

fn today() -> String {
    "2024-05-06".to_string()
}

#[test]
fn pages_cycle_right_and_left_when_idle() {
    let mut app = fresh_app(25);
    let day = today();
    assert_eq!(app.page, 0);
    app.handle_key(Key::Right, 0, &day);
    assert_eq!(app.page, 1);
    app.handle_key(Key::Right, 0, &day);
    assert_eq!(app.page, 2);
    app.handle_key(Key::Right, 0, &day);
    assert_eq!(app.page, 0);
    app.handle_key(Key::Left, 0, &day);
    assert_eq!(app.page, 2);
    app.handle_key(Key::Left, 0, &day);
    assert_eq!(app.page, 1);
}

#[test]
fn navigation_is_rejected_while_stopwatch_runs() {
    let mut app = fresh_app(25);
    let day = today();
    app.handle_key(Key::Space, 0, &day);
    assert!(app.stopwatch.running);
    app.handle_key(Key::Right, 10, &day);
    assert_eq!(app.page, 0);
    app.handle_key(Key::Left, 10, &day);
    assert_eq!(app.page, 0);
}

#[test]
fn navigation_is_rejected_while_timer_runs() {
    let mut app = fresh_app(25);
    let day = today();
    app.handle_key(Key::Right, 0, &day);
    app.handle_key(Key::Space, 0, &day);
    assert!(app.timer.running);
    app.handle_key(Key::Right, 10, &day);
    assert_eq!(app.page, 1);
    app.handle_key(Key::Left, 10, &day);
    assert_eq!(app.page, 1);
}

#[test]
fn stopwatch_session_commits_to_todays_entry() {
    let mut app = fresh_app(25);
    let day = today();
    app.handle_key(Key::Space, 0, &day);
    let eff = app.handle_key(Key::Space, 150_000, &day);
    assert_eq!(eff.minutes, 2);
    assert!(!eff.quit);
    assert_eq!(app.minutes_today(&day), 2);
}

#[test]
fn short_stopwatch_session_creates_no_entry() {
    let mut app = fresh_app(25);
    let day = today();
    app.handle_key(Key::Space, 0, &day);
    let eff = app.handle_key(Key::Space, 59_000, &day);
    assert_eq!(eff.minutes, 0);
    assert_eq!(app.history.len(), 0);
    assert_eq!(app.minutes_today(&day), 0);
}

#[test]
fn quit_while_stopwatch_runs_commits_before_exit() {
    let mut app = fresh_app(25);
    let day = today();
    app.handle_key(Key::Space, 0, &day);
    let eff = app.handle_key(Key::Quit, 75_000, &day);
    assert!(eff.quit);
    assert_eq!(eff.minutes, 1);
    assert_eq!(app.minutes_today(&day), 1);
}

#[test]
fn quit_while_idle_commits_nothing() {
    let mut app = fresh_app(25);
    let day = today();
    let eff = app.handle_key(Key::Quit, 75_000, &day);
    assert!(eff.quit);
    assert_eq!(eff.minutes, 0);
    assert_eq!(app.history.len(), 0);
}

#[test]
fn timer_expiry_commits_once_across_many_ticks() {
    let mut app = fresh_app(1);
    let day = today();
    app.handle_key(Key::Right, 0, &day);
    app.handle_key(Key::Space, 0, &day);
    assert_eq!(app.on_tick(30_000, &day), 0);
    assert_eq!(app.on_tick(60_000, &day), 1);
    assert_eq!(app.on_tick(60_005, &day), 0);
    assert_eq!(app.on_tick(61_000, &day), 0);
    assert_eq!(app.minutes_today(&day), 1);
    assert!(app.timer.done);
}

#[test]
fn up_and_down_adjust_timer_only_on_timer_page() {
    let mut app = fresh_app(5);
    let day = today();
    app.handle_key(Key::Up, 0, &day);
    assert_eq!(app.timer.total_secs, 300);
    app.handle_key(Key::Right, 0, &day);
    app.handle_key(Key::Up, 0, &day);
    assert_eq!(app.timer.total_secs, 360);
    app.handle_key(Key::Down, 0, &day);
    app.handle_key(Key::Down, 0, &day);
    assert_eq!(app.timer.total_secs, 240);
}

#[test]
fn up_and_down_scroll_history_on_history_page() {
    let mut app = fresh_app(5);
    let day = today();
    app.handle_key(Key::Left, 0, &day);
    assert_eq!(app.page, 2);
    app.handle_key(Key::Down, 0, &day);
    app.handle_key(Key::Down, 0, &day);
    assert_eq!(app.history_offset, 2);
    app.handle_key(Key::Up, 0, &day);
    assert_eq!(app.history_offset, 1);
    app.handle_key(Key::Up, 0, &day);
    app.handle_key(Key::Up, 0, &day);
    assert_eq!(app.history_offset, 0);
}

#[test]
fn offset_clamps_to_full_last_page() {
    let mut app = fresh_app(5);
    for i in 0..10 {
        app.history.add_minutes(&format!("2024-01-{:02}", i + 1), 1);
    }
    app.history_offset = 100;
    app.clamp_history_offset(4);
    assert_eq!(app.history_offset, 6);
    app.clamp_history_offset(20);
    assert_eq!(app.history_offset, 0);
}

#[test]
fn config_minutes_out_of_range_fall_back_to_default() {
    assert_eq!(validated_default_minutes(0), 25);
    assert_eq!(validated_default_minutes(1000), 25);
    assert_eq!(validated_default_minutes(1), 1);
    assert_eq!(validated_default_minutes(999), 999);
    assert_eq!(validated_default_minutes(42), 42);
}
