use mail_tui::config::ExchangeConfig;
use mail_tui::email::exchange::{sample_inbox, ExchangeClient};
use mail_tui::ui::app::{App, FocusPanel, InputMode, Key};

fn key_client() -> ExchangeClient {
    ExchangeClient::new(&ExchangeConfig {
        email: "me@company.com".to_string(),
        password: "hunter2".to_string(),
        server: "outlook.office365.com".to_string(),
    })
}

fn loaded() -> App<ExchangeClient> {
    let mut app = App::new(key_client());
    app.replace_all(sample_inbox(1_700_000_000));
    app
}

fn in_mode(mode: InputMode) -> App<ExchangeClient> {
    let mut app = loaded();
    match mode {
        InputMode::Normal => {}
        InputMode::Help => app.handle_key_at(Key::Char('?'), 0),
        InputMode::EmailView => app.handle_key_at(Key::Enter, 0),
        InputMode::Search => app.handle_key_at(Key::Char('/'), 0),
    }
    assert_eq!(app.input_mode(), mode);
    app
}

fn typed(app: &mut App<ExchangeClient>, text: &str) {
    for c in text.chars() {
        app.handle_key_at(Key::Char(c), 0);
    }
}

fn status_of(app: &App<ExchangeClient>) -> Option<String> {
    app.status_message().as_ref().map(|message| message.text.clone())
}

#[test]
fn normal_quit_key_raises_the_flag() {
    let mut app = loaded();
    app.handle_key_at(Key::Char('q'), 0);
    assert!(app.should_quit());
    assert_eq!(app.input_mode(), InputMode::Normal);
}

#[test]
fn normal_help_key_opens_help() {
    let mut app = loaded();
    app.handle_key_at(Key::Char('?'), 0);
    assert_eq!(app.input_mode(), InputMode::Help);
    assert!(!app.should_quit());
}

#[test]
fn normal_refresh_key_only_says_so() {
    let mut app = loaded();
    app.start_loading();
    app.handle_key_at(Key::Char('r'), 42);
    assert_eq!(
        status_of(&app),
        Some("Can't refresh emails during UI running. Restart app to refresh.".to_string())
    );
    assert_eq!(app.status_message().as_ref().unwrap().created, 42);
    assert_eq!(app.emails().len(), 4);
    assert_eq!(app.input_mode(), InputMode::Normal);
    assert!(!app.is_loading());
}

#[test]
fn normal_search_key_opens_an_empty_search() {
    let mut app = in_mode(InputMode::Search);
    typed(&mut app, "old");
    app.handle_key_at(Key::Enter, 0);
    assert_eq!(app.search_input(), "old");
    app.handle_key_at(Key::Char('/'), 0);
    assert_eq!(app.input_mode(), InputMode::Search);
    assert_eq!(app.search_input(), "");
}

#[test]
fn normal_navigation_keys() {
    let mut app = loaded();
    app.handle_key_at(Key::Char('j'), 0);
    assert_eq!(app.selected_index(), 1);
    app.handle_key_at(Key::Down, 0);
    assert_eq!(app.selected_index(), 2);
    app.handle_key_at(Key::Char('k'), 0);
    assert_eq!(app.selected_index(), 1);
    app.handle_key_at(Key::Up, 0);
    assert_eq!(app.selected_index(), 0);
    app.handle_key_at(Key::Up, 0);
    assert_eq!(app.selected_index(), 3);
    app.handle_key_at(Key::Down, 0);
    assert_eq!(app.selected_index(), 0);
    app.handle_key_at(Key::Char('G'), 0);
    assert_eq!(app.selected_index(), 3);
    app.handle_key_at(Key::Char('g'), 0);
    assert_eq!(app.selected_index(), 0);
    assert_eq!(app.input_mode(), InputMode::Normal);
}

#[test]
fn normal_select_keys_open_the_message() {
    for key in [Key::Char('l'), Key::Right, Key::Enter] {
        let mut app = loaded();
        app.handle_key_at(key, 0);
        assert_eq!(app.input_mode(), InputMode::EmailView);
        assert_eq!(app.focus(), FocusPanel::EmailContent);
        assert_eq!(app.selected_index(), 0);
    }
}

#[test]
fn normal_select_keys_need_a_message() {
    for key in [Key::Char('l'), Key::Right, Key::Enter] {
        let mut app = App::new(key_client());
        app.handle_key_at(key, 0);
        assert_eq!(app.input_mode(), InputMode::Normal);
        assert_eq!(app.focus(), FocusPanel::EmailList);

        let mut app = loaded();
        app.search_at("zzz".to_string(), 0);
        app.handle_key_at(key, 0);
        assert_eq!(app.input_mode(), InputMode::Normal);
        assert_eq!(app.focus(), FocusPanel::EmailList);
    }
}

#[test]
fn normal_left_keys_focus_the_list() {
    for key in [Key::Char('h'), Key::Left] {
        let mut app = loaded();
        app.set_focus(FocusPanel::EmailContent);
        app.handle_key_at(key, 0);
        assert_eq!(app.focus(), FocusPanel::EmailList);
        assert_eq!(app.input_mode(), InputMode::Normal);
    }
}

#[test]
fn normal_ignores_other_keys() {
    for key in [Key::Esc, Key::Backspace, Key::Other, Key::Char('x'), Key::Char('Q'), Key::Char('J')] {
        let mut app = loaded();
        app.move_next();
        app.handle_key_at(key, 0);
        assert_eq!(app.input_mode(), InputMode::Normal);
        assert_eq!(app.focus(), FocusPanel::EmailList);
        assert_eq!(app.selected_index(), 1);
        assert!(!app.should_quit());
        assert!(app.status_message().is_none());
        assert_eq!(app.filtered_emails(), &vec![0, 1, 2, 3]);
    }
}

#[test]
fn view_back_keys_return_to_the_list() {
    for key in [Key::Esc, Key::Char('h'), Key::Left] {
        let mut app = in_mode(InputMode::EmailView);
        assert_eq!(app.focus(), FocusPanel::EmailContent);
        app.handle_key_at(key, 0);
        assert_eq!(app.input_mode(), InputMode::Normal);
        assert_eq!(app.focus(), FocusPanel::EmailList);
    }
}

#[test]
fn view_navigation_follows_the_selection() {
    let mut app = in_mode(InputMode::EmailView);
    app.handle_key_at(Key::Char('j'), 0);
    assert_eq!(app.selected_index(), 1);
    app.handle_key_at(Key::Down, 0);
    assert_eq!(app.selected_index(), 2);
    app.handle_key_at(Key::Char('k'), 0);
    assert_eq!(app.selected_index(), 1);
    app.handle_key_at(Key::Up, 0);
    app.handle_key_at(Key::Up, 0);
    assert_eq!(app.selected_index(), 3);
    assert_eq!(app.input_mode(), InputMode::EmailView);
    assert_eq!(app.focus(), FocusPanel::EmailContent);
    assert_eq!(app.selected_email().unwrap().id, "4");
}

#[test]
fn view_quit_and_help_keys() {
    let mut app = in_mode(InputMode::EmailView);
    app.handle_key_at(Key::Char('q'), 0);
    assert!(app.should_quit());
    assert_eq!(app.input_mode(), InputMode::EmailView);
    let mut app = in_mode(InputMode::EmailView);
    app.handle_key_at(Key::Char('?'), 0);
    assert_eq!(app.input_mode(), InputMode::Help);
    assert_eq!(app.focus(), FocusPanel::EmailContent);
}

#[test]
fn view_ignores_other_keys() {
    for key in [
        Key::Enter,
        Key::Right,
        Key::Backspace,
        Key::Other,
        Key::Char('g'),
        Key::Char('G'),
        Key::Char('r'),
        Key::Char('/'),
        Key::Char('l'),
    ] {
        let mut app = in_mode(InputMode::EmailView);
        app.handle_key_at(key, 0);
        assert_eq!(app.input_mode(), InputMode::EmailView);
        assert_eq!(app.focus(), FocusPanel::EmailContent);
        assert_eq!(app.selected_index(), 0);
        assert!(!app.should_quit());
        assert!(app.status_message().is_none());
    }
}

#[test]
fn help_is_dismissed_by_any_key() {
    for key in [
        Key::Char('q'),
        Key::Char('?'),
        Key::Char('j'),
        Key::Esc,
        Key::Enter,
        Key::Up,
        Key::Down,
        Key::Left,
        Key::Right,
        Key::Backspace,
        Key::Other,
    ] {
        let mut app = in_mode(InputMode::Help);
        app.handle_key_at(key, 0);
        assert_eq!(app.input_mode(), InputMode::Normal);
        assert!(!app.should_quit());
        assert_eq!(app.selected_index(), 0);
    }
}

#[test]
fn help_from_the_view_returns_to_normal() {
    let mut app = in_mode(InputMode::EmailView);
    app.handle_key_at(Key::Char('?'), 0);
    app.handle_key_at(Key::Char('x'), 0);
    assert_eq!(app.input_mode(), InputMode::Normal);
    assert_eq!(app.focus(), FocusPanel::EmailContent);
}

#[test]
fn search_collects_what_is_typed() {
    let mut app = in_mode(InputMode::Search);
    typed(&mut app, "team");
    assert_eq!(app.search_input(), "team");
    // Nothing is filtered before the search is confirmed.
    assert_eq!(app.filtered_emails(), &vec![0, 1, 2, 3]);
    assert!(app.status_message().is_none());
    app.handle_key_at(Key::Backspace, 0);
    assert_eq!(app.search_input(), "tea");
    typed(&mut app, "qj?/ G");
    assert_eq!(app.search_input(), "teaqj?/ G");
    assert_eq!(app.input_mode(), InputMode::Search);
    assert!(!app.should_quit());
    assert_eq!(app.selected_index(), 0);
}

#[test]
fn search_backspace_stops_at_the_empty_buffer() {
    let mut app = in_mode(InputMode::Search);
    app.handle_key_at(Key::Backspace, 0);
    assert_eq!(app.search_input(), "");
    typed(&mut app, "a\u{e9}");
    app.handle_key_at(Key::Backspace, 0);
    assert_eq!(app.search_input(), "a");
    app.handle_key_at(Key::Backspace, 0);
    app.handle_key_at(Key::Backspace, 0);
    assert_eq!(app.search_input(), "");
    assert_eq!(app.input_mode(), InputMode::Search);
}

#[test]
fn search_enter_confirms() {
    let mut app = in_mode(InputMode::Search);
    typed(&mut app, "Vacation");
    app.handle_key_at(Key::Enter, 9);
    assert_eq!(app.input_mode(), InputMode::Normal);
    assert_eq!(app.filtered_emails(), &vec![2]);
    assert_eq!(status_of(&app), Some("Found 1 emails matching 'Vacation'".to_string()));
    assert_eq!(app.status_message().as_ref().unwrap().created, 9);
    assert_eq!(app.search_input(), "Vacation");
    assert_eq!(app.selected_email().unwrap().id, "3");
}

#[test]
fn search_enter_with_nothing_typed_shows_everything() {
    let mut app = loaded();
    app.search_at("vacation".to_string(), 1);
    app.handle_key_at(Key::Char('/'), 2);
    app.handle_key_at(Key::Enter, 3);
    assert_eq!(app.input_mode(), InputMode::Normal);
    assert_eq!(app.filtered_emails(), &vec![0, 1, 2, 3]);
    assert_eq!(app.status_message().as_ref().unwrap().created, 1);
}

#[test]
fn search_escape_cancels() {
    let mut app = loaded();
    app.search_at("vacation".to_string(), 1);
    assert_eq!(app.filtered_emails(), &vec![2]);
    app.handle_key_at(Key::Char('/'), 2);
    typed(&mut app, "team");
    app.handle_key_at(Key::Esc, 3);
    assert_eq!(app.input_mode(), InputMode::Normal);
    assert_eq!(app.search_input(), "");
    assert_eq!(app.filtered_emails(), &vec![0, 1, 2, 3]);
    assert_eq!(app.selected_index(), 0);
    // Cancelling is silent: the message of the earlier search stays.
    assert_eq!(status_of(&app), Some("Found 1 emails matching 'vacation'".to_string()));
}

#[test]
fn search_ignores_other_keys() {
    for key in [Key::Up, Key::Down, Key::Left, Key::Right, Key::Other] {
        let mut app = in_mode(InputMode::Search);
        typed(&mut app, "ab");
        app.handle_key_at(key, 0);
        assert_eq!(app.input_mode(), InputMode::Search);
        assert_eq!(app.search_input(), "ab");
        assert_eq!(app.selected_index(), 0);
    }
}

#[test]
fn keys_read_the_clock() {
    let mut app = loaded();
    let before = app.now();
    app.handle_key(Key::Char('r'));
    let after = app.now();
    let created = app.status_message().as_ref().unwrap().created;
    assert!(before <= created && created <= after);
    app.handle_key(Key::Char('/'));
    app.handle_key(Key::Char('h'));
    app.handle_key(Key::Char('r'));
    app.handle_key(Key::Enter);
    assert_eq!(app.filtered_emails(), &vec![2]);
    assert_eq!(status_of(&app), Some("Found 1 emails matching 'hr'".to_string()));
}

#[test]
fn a_session_from_start_to_quit() {
    let mut app = App::new(key_client());
    app.set_status_message_at("Loading emails...".to_string(), 0);
    assert!(app.refresh_emails().is_ok());
    app.restart_ticks_at(0);
    app.handle_key_at(Key::Char('/'), 10);
    typed(&mut app, "project");
    app.handle_key_at(Key::Enter, 20);
    assert_eq!(app.filtered_emails(), &vec![0, 1, 3]);
    app.handle_key_at(Key::Down, 30);
    app.handle_key_at(Key::Enter, 40);
    assert_eq!(app.input_mode(), InputMode::EmailView);
    assert_eq!(app.selected_email().unwrap().id, "2");
    app.handle_key_at(Key::Esc, 50);
    assert!(app.tick_at(5_020));
    assert!(app.status_message().is_none());
    app.handle_key_at(Key::Char('q'), 5_030);
    assert!(app.should_quit());
}
