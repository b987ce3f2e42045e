use news_tui::domain::Article;
use news_tui::ui::app::{App, Key, Screen};
use news_tui::ui::text::{article_row, decimal_string, header_line};

fn article(title: &str) -> Article {
    Article {
        id: None,
        feed_id: 1,
        guid: title.into(),
        title: title.into(),
        link: String::new(),
        summary: None,
        content: None,
        author: None,
        published_at: None,
    }
}

fn app_with(n: usize) -> App {
    App::new((0..n).map(|i| article(&format!("a{i}"))).collect())
}

#[test]
fn new_app_starts_at_the_top() {
    let app = app_with(3);
    assert_eq!(app.selected, 0);
    assert_eq!(app.screen, Screen::ArticleList);
    assert_eq!(app.status, "");
    assert_eq!(app.articles.len(), 3);
}

#[test]
fn moving_stays_within_the_list() {
    let mut app = app_with(3);
    assert!(app.handle_key(Key::Up));
    assert_eq!(app.selected, 0);
    assert!(app.handle_key(Key::Down));
    assert!(app.handle_key(Key::Char('j')));
    assert_eq!(app.selected, 2);
    assert!(app.handle_key(Key::Down));
    assert_eq!(app.selected, 2);
    assert!(app.handle_key(Key::Char('k')));
    assert_eq!(app.selected, 1);
    assert!(app.handle_key(Key::Char('g')));
    assert_eq!(app.selected, 0);
    assert!(app.handle_key(Key::End));
    assert_eq!(app.selected, 2);
    assert!(app.handle_key(Key::Home));
    assert_eq!(app.selected, 0);
    assert!(app.handle_key(Key::Char('G')));
    assert_eq!(app.selected, 2);
}

#[test]
fn down_then_up_returns() {
    let mut app = app_with(5);
    app.selected = 2;
    app.handle_key(Key::Down);
    app.handle_key(Key::Up);
    assert_eq!(app.selected, 2);
}

#[test]
fn empty_list_keeps_selection_at_zero() {
    let mut app = app_with(0);
    for key in [Key::Down, Key::End, Key::Up, Key::Char('G')] {
        assert!(app.handle_key(key));
        assert_eq!(app.selected, 0);
    }
    assert_eq!(app.current_title(), "");
}

#[test]
fn bookmark_reports_the_selected_title() {
    let mut app = app_with(2);
    app.handle_key(Key::Down);
    assert!(app.handle_key(Key::Char('b')));
    assert_eq!(app.status, "bookmarked: a1");
    assert_eq!(app.current_title(), "a1");
}

#[test]
fn quitting_ignores_further_keys() {
    let mut app = app_with(2);
    assert!(app.handle_key(Key::Char('q')));
    assert_eq!(app.screen, Screen::Quitting);
    assert!(!app.handle_key(Key::Down));
    assert_eq!(app.selected, 0);
    let mut app = app_with(2);
    assert!(app.handle_key(Key::Esc));
    assert_eq!(app.screen, Screen::Quitting);
}

#[test]
fn unused_keys_change_nothing() {
    let mut app = app_with(2);
    assert!(!app.handle_key(Key::Char('x')));
    assert!(!app.handle_key(Key::Other));
    assert_eq!(app.selected, 0);
    assert_eq!(app.screen, Screen::ArticleList);
}

#[test]
fn header_and_rows() {
    let mut app = app_with(12);
    app.status = "ok".into();
    assert_eq!(header_line(&app), " News Reader │ 12 articles │ ok ");
    assert_eq!(article_row(&app.articles[3]), " a3");
    assert_eq!(decimal_string(0), "0");
    assert_eq!(decimal_string(907), "907");
    assert_eq!(decimal_string(usize::MAX), usize::MAX.to_string());
}
