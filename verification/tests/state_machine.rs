use typst_ansi_gui::buffer::{Action, Edit, Motion};
use typst_ansi_gui::highlight::highlight_typst_to_ansi;
use typst_ansi_gui::state::{App, Command, Message};
use typst_ansi_gui::theme::{AppTheme, ThemeIcon};

fn chars(s: &str) -> Vec<char> {
    s.chars().collect()
}

fn paste(app: &mut App, s: &str) {
    let cmd = app.update(Message::TypstInput(Action::Edit(Edit::Paste(chars(s)))));
    assert!(matches!(cmd, Command::Nothing));
}

#[test]
fn starts_empty_and_dark() {
    let app = App::default();
    assert_eq!(app.code_text(), chars(""));
    assert_eq!(app.result_text(), chars(""));
    assert_eq!(app.theme(), AppTheme::Dark);
}

#[test]
fn empty_input_disables_highlight_button() {
    let app = App::default();
    let vm = app.view();
    assert!(!vm.highlight_enabled);
}

#[test]
fn nonempty_input_enables_highlight_button() {
    let mut app = App::default();
    paste(&mut app, "x");
    let vm = app.view();
    assert!(vm.highlight_enabled);
}

#[test]
fn forced_submit_on_empty_input_leaves_output_unchanged() {
    let mut app = App::default();
    let before = app.result_text();
    let cmd = app.update(Message::Submit);
    assert!(matches!(cmd, Command::Nothing));
    assert_eq!(app.result_text(), before);
    assert_eq!(app.result_text(), chars(""));
}

#[test]
fn stubbed_highlight_result_replaces_output() {
    let mut app = App::default();
    paste(&mut app, "hello");
    app.apply_highlight(chars("HELLO"));
    assert_eq!(app.result_text(), chars("HELLO"));
    assert_eq!(app.code_text(), chars("hello"));
}

#[test]
fn submit_fills_output_with_highlighter_result() {
    let mut app = App::default();
    paste(&mut app, "= Heading\n_emph_ #let x = 1");
    let cmd = app.update(Message::Submit);
    assert!(matches!(cmd, Command::Nothing));
    let out = app.result_text();
    let direct = highlight_typst_to_ansi(&chars("= Heading\n_emph_ #let x = 1"));
    assert_eq!(out, direct);
    assert!(!out.is_empty());
    // The highlighter colors this markup, so the output is not the input.
    assert_ne!(out, app.code_text());
    assert!(out.contains(&'\u{1b}'));
}

#[test]
fn submit_replaces_earlier_output_wholly() {
    let mut app = App::default();
    app.apply_highlight(chars("old output"));
    paste(&mut app, "plain");
    app.update(Message::Submit);
    let out = app.result_text();
    assert_eq!(out, highlight_typst_to_ansi(&chars("plain")));
    assert!(!out.starts_with(&['o', 'l', 'd'][..]));
}

#[test]
fn copy_button_disabled_iff_output_empty() {
    let mut app = App::default();
    assert!(!app.view().copy_enabled);
    app.apply_highlight(chars("colored"));
    assert!(app.view().copy_enabled);
    app.apply_highlight(chars(""));
    assert!(!app.view().copy_enabled);
}

#[test]
fn copy_returns_output_text_for_clipboard() {
    let mut app = App::default();
    app.apply_highlight(chars("payload"));
    let cmd = app.update(Message::Copy);
    match cmd {
        Command::CopyToClipboard(t) => assert_eq!(t, chars("payload")),
        Command::Nothing => panic!("copy produced no clipboard command"),
    }
    assert_eq!(app.result_text(), chars("payload"));
}

#[test]
fn toggling_theme_twice_restores_it() {
    let mut app = App::default();
    let before = app.theme();
    app.update(Message::InvertTheme);
    assert_eq!(app.theme(), AppTheme::Light);
    app.update(Message::InvertTheme);
    assert_eq!(app.theme(), before);
}

#[test]
fn theme_inv_and_icon_mapping() {
    assert_eq!(AppTheme::Light.inv(), AppTheme::Dark);
    assert_eq!(AppTheme::Dark.inv(), AppTheme::Light);
    assert_eq!(AppTheme::Light.icon(), ThemeIcon::MoonStars);
    assert_eq!(AppTheme::Dark.icon(), ThemeIcon::MoonStarsFill);
    assert_eq!(AppTheme::default(), AppTheme::Dark);
}

#[test]
fn view_reports_theme_and_icon() {
    let mut app = App::default();
    let vm = app.view();
    assert_eq!(vm.theme, AppTheme::Dark);
    assert_eq!(vm.theme_icon, ThemeIcon::MoonStarsFill);
    app.update(Message::InvertTheme);
    let vm = app.view();
    assert_eq!(vm.theme, AppTheme::Light);
    assert_eq!(vm.theme_icon, ThemeIcon::MoonStars);
}

#[test]
fn output_edits_are_discarded() {
    let mut app = App::default();
    app.apply_highlight(chars("locked"));
    let cur = app.result_cursor();
    for edit in [
        Edit::Insert('x'),
        Edit::Enter,
        Edit::Paste(chars("overwrite")),
        Edit::Backspace,
        Edit::Delete,
    ] {
        let cmd = app.update(Message::ResultAction(Action::Edit(edit)));
        assert!(matches!(cmd, Command::Nothing));
        assert_eq!(app.result_text(), chars("locked"));
        assert_eq!(app.result_cursor(), cur);
    }
}

#[test]
fn output_cursor_moves_without_changing_text() {
    let mut app = App::default();
    app.apply_highlight(chars("ab"));
    assert_eq!(app.result_cursor(), 2);
    app.update(Message::ResultAction(Action::Move(Motion::Left)));
    assert_eq!(app.result_text(), chars("ab"));
    assert_eq!(app.result_cursor(), 1);
    assert_eq!(app.result_anchor(), 1);
    app.update(Message::ResultAction(Action::Select(Motion::Start)));
    assert_eq!(app.result_text(), chars("ab"));
    assert_eq!(app.result_cursor(), 0);
    assert_eq!(app.result_anchor(), 1);
    app.update(Message::ResultAction(Action::SelectAll));
    assert_eq!(app.result_text(), chars("ab"));
    assert_eq!(app.result_cursor(), 2);
    assert_eq!(app.result_anchor(), 0);
}

#[test]
fn input_edits_do_not_touch_output_or_theme() {
    let mut app = App::default();
    app.apply_highlight(chars("kept"));
    paste(&mut app, "typed");
    app.update(Message::TypstInput(Action::Edit(Edit::Backspace)));
    assert_eq!(app.code_text(), chars("type"));
    assert_eq!(app.result_text(), chars("kept"));
    assert_eq!(app.theme(), AppTheme::Dark);
}

#[test]
fn highlighting_empty_text_directly_yields_empty_output() {
    let out = highlight_typst_to_ansi(&chars(""));
    // The highlighter has nothing to color; whatever it returns is what the
    // output buffer would receive.
    let mut app = App::default();
    app.apply_highlight(out.clone());
    assert_eq!(app.result_text(), out);
}
