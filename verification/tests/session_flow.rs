use volnita::config::repo::{SavedRepositories, SerializedRepository};
use volnita::git::GitRepo;
use volnita::keys::{KeyCode, KeyEvent};
use volnita::views::opened_repo_view::OpenedRepoView;
use volnita::views::start_view::StartView;
use volnita::volnita::open_arg_repo;

fn press(code: KeyCode) -> KeyEvent {
    KeyEvent::press(code)
}

fn quit_chord() -> KeyEvent {
    KeyEvent { code: KeyCode::Char('c'), ctrl: true, press: true }
}

fn store_with_one() -> SavedRepositories {
    let mut store = SavedRepositories::default();
    store.merge(SerializedRepository {
        path: "/work/remembered".to_string(),
        name: "remembered".to_string(),
        repo_url: "https://example.com/r.git".to_string(),
    });
    store
}

#[test]
fn no_arguments_yield_no_repository() {
    assert!(open_arg_repo(&Vec::new()).is_none());
}

#[test]
fn invalid_argument_path_yields_no_repository() {
    let args = vec!["volnita".to_string(), "/no/such/repository/anywhere".to_string()];
    assert!(open_arg_repo(&args).is_none());
    assert!(GitRepo::open_repo("/no/such/repository/anywhere").is_err());
}

#[test]
fn selector_first_cycle_only_draws() {
    let mut view = StartView::default();
    view.load_table(&store_with_one());
    let flag = view.handle_cycle(None);
    assert!(flag.should_continue());
    assert!(view.repo_selected.is_none());
}

#[test]
fn selector_accept_carries_the_remembered_descriptor_not_the_typed_text() {
    let mut view = StartView::default();
    view.load_table(&store_with_one());
    let _ = view.handle_cycle(None);
    // typed text that must not leak into the selection
    let _ = view.handle_cycle(Some(press(KeyCode::Char('z'))));
    let _ = view.handle_cycle(Some(press(KeyCode::Char('z'))));
    // navigation makes the accept key mean the highlighted row again
    let _ = view.handle_cycle(Some(press(KeyCode::Down)));
    let flag = view.handle_cycle(Some(press(KeyCode::Enter)));
    assert!(flag.should_terminate());
    let d = view.repo_selected.as_ref().unwrap();
    assert_eq!(d.path, "/work/remembered");
    assert_eq!(d.name, "remembered");
    assert_eq!(d.repo_url, "https://example.com/r.git");
}

#[test]
fn selector_typed_path_that_does_not_open_keeps_the_screen() {
    let mut view = StartView::default();
    view.load_table(&store_with_one());
    let _ = view.handle_cycle(None);
    for c in "/no/such/repository".chars() {
        let _ = view.handle_cycle(Some(press(KeyCode::Char(c))));
    }
    let flag = view.handle_cycle(Some(press(KeyCode::Enter)));
    assert!(flag.should_continue());
    assert!(view.repo_selected.is_none());
    // the line was still submitted into the history
    assert_eq!(
        view.input_field.last_message(),
        Some("/no/such/repository".to_string())
    );
}

#[test]
fn selector_quit_chord_aborts_without_selection() {
    let mut view = StartView::default();
    view.load_table(&store_with_one());
    let _ = view.handle_cycle(None);
    let flag = view.handle_cycle(Some(quit_chord()));
    assert!(flag.should_terminate());
    assert!(view.repo_selected.is_none());
}

#[test]
fn selector_key_release_moves_nothing() {
    let mut view = StartView::default();
    view.load_table(&store_with_one());
    let _ = view.handle_cycle(None);
    let before = view.repositories.table_state.selected();
    let release = KeyEvent { code: KeyCode::Down, ctrl: false, press: false };
    let flag = view.handle_cycle(Some(release));
    assert!(flag.should_continue());
    assert_eq!(view.repositories.table_state.selected(), before);
}

#[test]
fn browser_quit_command_terminates_the_loop() {
    let mut view = OpenedRepoView::default();
    let _ = view.handle_cycle(None);
    for c in "quit".chars() {
        let flag = view.handle_cycle(Some(press(KeyCode::Char(c))));
        assert!(flag.should_continue());
    }
    let flag = view.handle_cycle(Some(press(KeyCode::Enter)));
    assert!(flag.should_terminate());
}

#[test]
fn browser_unknown_command_is_ignored() {
    let mut view = OpenedRepoView::default();
    let _ = view.handle_cycle(None);
    for c in "unknown-cmd arg1".chars() {
        let _ = view.handle_cycle(Some(press(KeyCode::Char(c))));
    }
    let flag = view.handle_cycle(Some(press(KeyCode::Enter)));
    assert!(flag.should_continue());
    assert_eq!(view.input_field.last_message(), Some("unknown-cmd arg1".to_string()));
}

#[test]
fn browser_arrows_move_the_commit_list() {
    let mut view = OpenedRepoView::default();
    view.repo_commits.table_items = vec![
        vec!["m1".to_string(), "a".to_string(), "1".to_string()],
        vec!["m2".to_string(), "a".to_string(), "2".to_string()],
    ];
    let _ = view.handle_cycle(None);
    assert_eq!(view.repo_commits.table_state.selected(), Some(0));
    let _ = view.handle_cycle(Some(press(KeyCode::Down)));
    assert_eq!(view.repo_commits.table_state.selected(), Some(1));
    let _ = view.handle_cycle(Some(press(KeyCode::Down)));
    assert_eq!(view.repo_commits.table_state.selected(), Some(0));
    let _ = view.handle_cycle(Some(press(KeyCode::Up)));
    assert_eq!(view.repo_commits.table_state.selected(), Some(1));
}

#[test]
fn browser_quit_chord_terminates_immediately() {
    let mut view = OpenedRepoView::default();
    let _ = view.handle_cycle(None);
    let flag = view.handle_cycle(Some(quit_chord()));
    assert!(flag.should_terminate());
}

#[test]
fn loop_flag_reports_both_sides() {
    let flag = volnita::app_flags::AppLoopFlag::default();
    assert!(flag.should_continue());
    assert!(!flag.should_terminate());
    let flag = volnita::app_flags::AppLoopFlag::terminate();
    assert!(flag.should_terminate());
    let flag = volnita::app_flags::AppLoopFlag::continue_();
    assert!(flag.should_continue());
    let flag = volnita::app_flags::AppLoopFlag::new(true);
    assert!(flag.should_terminate());
    let flag = volnita::app_flags::AppLoopFlag::new(false);
    assert!(flag.should_continue());
}
