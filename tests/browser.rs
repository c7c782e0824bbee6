use file_mover::paths::{move_target, nav_target, parent_dir, start_dir};
use file_mover::selection::{holds, without};
use file_mover::{Action, App, DestMode, Input, MoveRequest, Status};

fn strings(items: &[&str]) -> Vec<String> {
    items.iter().map(|s| s.to_string()).collect()
}

fn app_with(items: &[&str]) -> App {
    let mut app = App::new();
    app.show_listing(Ok(strings(items)));
    app
}

#[test]
fn new_app_is_empty_and_inactive() {
    let app = App::new();
    assert!(app.list.is_empty());
    assert_eq!(app.cursor, None);
    assert!(app.selected.is_empty());
    assert_eq!(app.dest, DestMode::Inactive);
    assert_eq!(app.status, Status::Start);
    assert_eq!(app.title(), "Select files: ");
    let d = App::default();
    assert_eq!(d.cursor, None);
    assert_eq!(d.dest, DestMode::Inactive);
}

#[test]
fn first_move_sets_cursor_to_top() {
    let mut app = app_with(&["./a", "./b", "./c"]);
    app.next();
    assert_eq!(app.cursor, Some(0));
    let mut app = app_with(&["./a", "./b", "./c"]);
    app.previous();
    assert_eq!(app.cursor, Some(0));
}

#[test]
fn down_wraps_after_last() {
    let mut app = app_with(&["./a", "./b", "./c"]);
    app.next();
    app.next();
    app.next();
    assert_eq!(app.cursor, Some(2));
    app.next();
    assert_eq!(app.cursor, Some(0));
}

#[test]
fn up_wraps_from_top() {
    let mut app = app_with(&["./a", "./b", "./c"]);
    app.previous();
    assert_eq!(app.cursor, Some(0));
    app.previous();
    assert_eq!(app.cursor, Some(2));
    app.previous();
    assert_eq!(app.cursor, Some(1));
}

#[test]
fn down_or_up_len_times_returns_to_start() {
    let mut app = app_with(&["./a", "./b", "./c", "./d"]);
    app.step(Input::Down);
    app.step(Input::Down);
    assert_eq!(app.cursor, Some(1));
    for _ in 0..4 {
        app.step(Input::Down);
    }
    assert_eq!(app.cursor, Some(1));
    for _ in 0..4 {
        app.step(Input::Up);
    }
    assert_eq!(app.cursor, Some(1));
}

#[test]
fn cursor_moves_on_empty_listing_do_nothing() {
    let mut app = App::new();
    assert_eq!(app.step(Input::Down), Action::Nothing);
    assert_eq!(app.cursor, None);
    assert_eq!(app.step(Input::Up), Action::Nothing);
    assert_eq!(app.cursor, None);
    assert_eq!(app.step(Input::Toggle), Action::Nothing);
    assert!(app.selected.is_empty());
    assert_eq!(app.step(Input::Open), Action::Nothing);
}

#[test]
fn toggle_without_cursor_changes_nothing() {
    let mut app = app_with(&["./a"]);
    app.toggle();
    assert!(app.selected.is_empty());
    assert_eq!(app.status, Status::Start);
}

#[test]
fn toggle_adds_then_removes() {
    let mut app = app_with(&["./a", "./b"]);
    app.step(Input::Down);
    app.step(Input::Toggle);
    assert_eq!(app.selected, strings(&["./a"]));
    assert_eq!(app.status, Status::Selection);
    assert_eq!(app.title(), "Select files: [\"./a\"]");
    app.step(Input::Down);
    app.step(Input::Toggle);
    assert_eq!(app.selected, strings(&["./a", "./b"]));
    assert_eq!(app.title(), "Select files: [\"./a\", \"./b\"]");
    app.step(Input::Up);
    app.step(Input::Toggle);
    assert_eq!(app.selected, strings(&["./b"]));
    assert_eq!(app.title(), "Select files: [\"./b\"]");
}

#[test]
fn toggle_twice_restores_selection() {
    let mut app = app_with(&["./a", "./b"]);
    app.step(Input::Down);
    app.step(Input::Toggle);
    let before = app.selected.clone();
    app.step(Input::Down);
    app.step(Input::Toggle);
    app.step(Input::Toggle);
    assert_eq!(app.selected, before);
    app.step(Input::Up);
    app.step(Input::Toggle);
    app.step(Input::Toggle);
    assert_eq!(app.selected, before);
    assert_eq!(app.title(), "Select files: [\"./a\"]");
}

#[test]
fn selection_survives_navigation() {
    let mut app = app_with(&["./a", "./b"]);
    app.step(Input::Down);
    app.step(Input::Toggle);
    assert_eq!(app.step(Input::Open), Action::List("./a".to_string()));
    app.show_listing(Ok(strings(&["./a/x", "./a/y"])));
    assert_eq!(app.selected, strings(&["./a"]));
    assert_eq!(app.step(Input::Back), Action::List("../".to_string()));
    app.show_listing(Ok(strings(&["./a", "./b"])));
    assert_eq!(app.selected, strings(&["./a"]));
    app.step(Input::Down);
    app.step(Input::Up);
    assert_eq!(app.cursor, Some(0));
    app.step(Input::Toggle);
    assert!(app.selected.is_empty());
}

#[test]
fn new_listing_clamps_cursor() {
    let mut app = app_with(&["./a", "./b", "./c"]);
    app.step(Input::Up);
    app.step(Input::Up);
    assert_eq!(app.cursor, Some(2));
    app.show_listing(Ok(strings(&["./x"])));
    assert_eq!(app.cursor, Some(0));
    app.show_listing(Ok(Vec::new()));
    assert_eq!(app.cursor, None);
    app.show_listing(Ok(strings(&["./y", "./z"])));
    assert_eq!(app.cursor, None);
}

#[test]
fn open_on_file_keeps_listing() {
    let mut app = app_with(&["./notes.txt", "./docs"]);
    app.step(Input::Down);
    let action = app.step(Input::Open);
    assert_eq!(action, Action::List("./notes.txt".to_string()));
    app.show_listing(Err("Not a directory (os error 20)".to_string()));
    assert_eq!(app.list, strings(&["./notes.txt", "./docs"]));
    assert_eq!(app.cursor, Some(0));
    assert_eq!(
        app.status,
        Status::ListingFailed("Not a directory (os error 20)".to_string())
    );
    assert_eq!(app.title(), "Error: Not a directory (os error 20)");
    app.step(Input::Down);
    assert_eq!(app.cursor, Some(1));
}

#[test]
fn open_prefixes_plain_entries() {
    let mut app = app_with(&["docs"]);
    app.step(Input::Down);
    assert_eq!(app.step(Input::Open), Action::List("./docs".to_string()));
    let mut app = app_with(&["/tmp/docs"]);
    app.step(Input::Down);
    assert_eq!(app.step(Input::Open), Action::List("/tmp/docs".to_string()));
}

#[test]
fn nav_target_cases() {
    assert_eq!(nav_target("a"), "./a");
    assert_eq!(nav_target("./a"), "./a");
    assert_eq!(nav_target("../a"), "../a");
    assert_eq!(nav_target("/a"), "/a");
    assert_eq!(nav_target(".a"), "./.a");
    assert_eq!(nav_target(""), "./");
    assert_eq!(start_dir(), "./");
    assert_eq!(parent_dir(), "../");
}

#[test]
fn move_target_joins_with_separator() {
    assert_eq!(move_target("./b", "x.txt"), "./b/x.txt");
    assert_eq!(move_target("", "x"), "/x");
}

#[test]
fn holds_and_without() {
    let v = strings(&["a", "b", "a"]);
    assert!(holds(&v, &"a".to_string()));
    assert!(!holds(&v, &"c".to_string()));
    assert_eq!(without(&v, &"a".to_string()), strings(&["b"]));
    assert_eq!(without(&v, &"c".to_string()), v);
}

#[test]
fn first_commit_arms_destination() {
    let mut app = app_with(&["./a"]);
    assert_eq!(app.step(Input::Commit), Action::Nothing);
    assert_eq!(app.dest, DestMode::Armed);
    assert_eq!(app.status, Status::ChooseDestination);
    assert_eq!(app.title(), "Use <Left> <Right> to choose destination dir: ");
    // armed, but no cursor: nothing to move into
    assert_eq!(app.step(Input::Commit), Action::Nothing);
    assert_eq!(app.dest, DestMode::Armed);
}

#[test]
fn commit_plans_moves_by_file_name() {
    let mut app = app_with(&["./a/x.txt", "./a/y.txt", "./b"]);
    app.step(Input::Down);
    app.step(Input::Toggle);
    app.step(Input::Down);
    app.step(Input::Toggle);
    app.step(Input::Commit);
    app.step(Input::Down);
    assert_eq!(app.cursor, Some(2));
    let expected = vec![
        MoveRequest {
            source: "./a/x.txt".to_string(),
            target: Some("./b/x.txt".to_string()),
        },
        MoveRequest {
            source: "./a/y.txt".to_string(),
            target: Some("./b/y.txt".to_string()),
        },
    ];
    assert_eq!(app.step(Input::Commit), Action::Move(expected));
    // the selection is kept and the mode stays armed
    assert_eq!(app.selected.len(), 2);
    assert_eq!(app.dest, DestMode::Armed);
    // a repeated commit asks for the same moves again
    match app.step(Input::Commit) {
        Action::Move(reqs) => assert_eq!(reqs.len(), 2),
        other => panic!("unexpected action {:?}", other),
    }
}

#[test]
fn plan_reports_paths_without_file_name() {
    let mut app = app_with(&["..", "./a/x.txt", "./b"]);
    app.selected = strings(&["..", "./a/x.txt"]);
    let plan = app.plan_moves("./b");
    assert_eq!(
        plan,
        vec![
            MoveRequest {
                source: "..".to_string(),
                target: None,
            },
            MoveRequest {
                source: "./a/x.txt".to_string(),
                target: Some("./b/x.txt".to_string()),
            },
        ]
    );
    let plan = app.plan_moves("/dst");
    assert_eq!(plan[1].target, Some("/dst/x.txt".to_string()));
    app.record_unmovable(&plan[0].source);
    assert_eq!(
        app.status,
        Status::MoveFailed("..: no file name to move".to_string())
    );
    assert_eq!(app.title(), "Error: ..: no file name to move");
    assert_eq!(app.selected, strings(&["..", "./a/x.txt"]));
}

#[test]
fn selection_title_escapes_like_debug() {
    let mut app = app_with(&["a\"b", "c\\d"]);
    app.step(Input::Down);
    app.step(Input::Toggle);
    assert_eq!(app.title(), "Select files: [\"a\\\"b\"]");
    app.step(Input::Down);
    app.step(Input::Toggle);
    assert_eq!(app.title(), "Select files: [\"a\\\"b\", \"c\\\\d\"]");
    assert_eq!(
        app.title(),
        format!("Select files: {:?}", vec!["a\"b".to_string(), "c\\d".to_string()])
    );
}

#[test]
fn empty_selection_title_after_toggle_off() {
    let mut app = app_with(&["./a"]);
    app.step(Input::Down);
    app.step(Input::Toggle);
    app.step(Input::Toggle);
    assert_eq!(app.title(), "Select files: []");
}

#[test]
fn move_failure_is_reported_and_loop_goes_on() {
    let mut app = app_with(&["./a/x.txt", "./ro"]);
    app.step(Input::Down);
    app.step(Input::Toggle);
    app.step(Input::Commit);
    app.step(Input::Down);
    let action = app.step(Input::Commit);
    assert!(matches!(action, Action::Move(_)));
    app.record_move(Err("Permission denied (os error 13)".to_string()));
    assert_eq!(
        app.status,
        Status::MoveFailed("Permission denied (os error 13)".to_string())
    );
    assert!(app.title().contains("Permission denied (os error 13)"));
    app.record_move(Ok(()));
    assert!(app.title().contains("Permission denied"));
    // the next key is still handled
    assert_eq!(app.step(Input::Up), Action::Nothing);
    assert_eq!(app.cursor, Some(0));
}

#[test]
fn last_move_failure_wins() {
    let mut app = app_with(&["./a"]);
    app.record_move(Err("first".to_string()));
    app.record_move(Err("second".to_string()));
    assert_eq!(app.title(), "Error: second");
}

#[test]
fn quit_in_any_state_asks_for_nothing_else() {
    let mut app = app_with(&["./a", "./b"]);
    assert_eq!(app.step(Input::Quit), Action::Quit);
    app.step(Input::Down);
    app.step(Input::Toggle);
    assert_eq!(app.step(Input::Quit), Action::Quit);
    app.step(Input::Commit);
    assert_eq!(app.dest, DestMode::Armed);
    assert_eq!(app.step(Input::Quit), Action::Quit);
    assert_eq!(app.selected, strings(&["./a"]));
    assert_eq!(app.dest, DestMode::Armed);
}

#[test]
fn ignored_keys_change_nothing() {
    let mut app = app_with(&["./a"]);
    app.step(Input::Down);
    assert_eq!(app.step(Input::Ignored), Action::Nothing);
    assert_eq!(app.cursor, Some(0));
    assert_eq!(app.status, Status::Start);
}
