use branch_explorer::{
    App, Branch, BranchRow, Control, Event, HeadRef, KeyCode, KeyEvent, KeyEventKind,
    OperationStatusType, Request, Response,
};

/// A repository that answers from a script and keeps a record of what it was
/// asked.
struct FakeRepo {
    branches: Result<Vec<Branch>, String>,
    head: Result<HeadRef, String>,
    clean: Result<bool, String>,
    checkout: Result<(), String>,
    fetch: Result<(), String>,
    asked: Vec<Request>,
}

impl FakeRepo {
    fn with_branches(names: &[&str]) -> FakeRepo {
        FakeRepo {
            branches: Ok(names.iter().map(|name| Branch::named(name)).collect()),
            head: Ok(HeadRef::Branch(Some("main".to_string()))),
            clean: Ok(true),
            checkout: Ok(()),
            fetch: Ok(()),
            asked: Vec::new(),
        }
    }

    fn carry_out(&mut self, request: Request) -> Response {
        let response = match &request {
            Request::ListLocalBranches => Response::LocalBranches(self.branches.clone()),
            Request::CurrentHead => Response::Head(self.head.clone()),
            Request::IsWorkingTreeClean => Response::WorkingTreeClean(self.clean.clone()),
            Request::Checkout { .. } => Response::CheckedOut(self.checkout.clone()),
            Request::FetchRemoteFor { .. } => Response::Fetched(self.fetch.clone()),
        };
        self.asked.push(request);
        response
    }

    fn checkouts(&self) -> Vec<&Request> {
        self.asked.iter().filter(|r| matches!(r, Request::Checkout { .. })).collect()
    }

    fn tree_checks(&self) -> usize {
        self.asked.iter().filter(|r| matches!(r, Request::IsWorkingTreeClean)).count()
    }
}

/// A session that has taken the first listing in. The record of the
/// repository starts after that.
fn open(repo: &mut FakeRepo) -> App {
    let mut app = App::new();
    let mut next = app.refresh_branches(0);
    while let Some(request) = next {
        let response = repo.carry_out(request);
        next = app.resume(response, 0);
    }
    repo.asked.clear();
    app
}

/// Presses a key and carries out whatever the session asks for until it
/// asks for nothing more.
fn press(app: &mut App, repo: &mut FakeRepo, code: KeyCode, now: u64) {
    let mut next = app.handle_key(KeyEvent::press(code), now);
    while let Some(request) = next {
        let response = repo.carry_out(request);
        next = app.resume(response, now);
    }
}

fn status_of(app: &App) -> (String, OperationStatusType) {
    let status = app.operation_status();
    (status.message().clone(), status.status_type())
}

fn said(message: &str, kind: OperationStatusType) -> (String, OperationStatusType) {
    (message.to_string(), kind)
}

#[test]
fn a_new_session_has_no_branches_and_no_selection() {
    let mut app = App::new();
    assert_eq!(app.selected(), None);
    assert_eq!(app.branch_names(), Vec::<String>::new());
    assert_eq!(app.branch_manager().len(), 0);
    assert!(!app.should_exit());
    assert!(!app.is_busy());
    assert_eq!(status_of(&app), said("", OperationStatusType::Info));
    assert_eq!(app.status(0), said("Ready", OperationStatusType::Info));
    assert_eq!(app.status_line(0), said("Ready", OperationStatusType::Info));
}

#[test]
fn the_first_listing_comes_in_by_a_refresh() {
    let mut repo = FakeRepo::with_branches(&["main", "dev"]);
    let mut app = App::new();
    press(&mut app, &mut repo, KeyCode::Char('r'), 20);
    assert_eq!(repo.asked, vec![Request::ListLocalBranches]);
    assert_eq!(app.selected(), Some(0));
    assert_eq!(app.branch_names(), vec!["main".to_string(), "dev".to_string()]);
    assert_eq!(app.branch_manager().len(), 2);
    assert_eq!(status_of(&app), said("Refreshed Branches", OperationStatusType::Success));
}

#[test]
fn a_first_listing_of_no_branches_selects_nothing() {
    let mut repo = FakeRepo::with_branches(&[]);
    let app = open(&mut repo);
    assert_eq!(app.selected(), None);
    assert_eq!(app.branch_names(), Vec::<String>::new());
}

#[test]
fn a_failed_first_listing_is_shown_and_the_session_goes_on() {
    let mut repo = FakeRepo::with_branches(&["main"]);
    repo.branches = Err("not a repository".to_string());
    let mut app = App::new();
    press(&mut app, &mut repo, KeyCode::Char('r'), 1);
    assert_eq!(
        status_of(&app),
        said("Failed to refresh branches: not a repository", OperationStatusType::Error)
    );
    assert_eq!(app.selected(), None);
    assert!(!app.is_busy());
    assert!(!app.should_exit());
    repo.branches = Ok(vec![Branch::named("main")]);
    press(&mut app, &mut repo, KeyCode::Char('r'), 2);
    assert_eq!(app.branch_names(), vec!["main".to_string()]);
    assert_eq!(app.selected(), Some(0));
}

#[test]
fn switch_and_fetch_on_a_new_session_find_no_branch() {
    let mut repo = FakeRepo::with_branches(&["main"]);
    let mut app = App::new();
    press(&mut app, &mut repo, KeyCode::Char('s'), 1);
    assert_eq!(status_of(&app), said("No branch selected", OperationStatusType::Info));
    press(&mut app, &mut repo, KeyCode::Char('f'), 2);
    assert_eq!(status_of(&app), said("No branch selected", OperationStatusType::Info));
    assert!(repo.asked.is_empty());
}

#[test]
fn scenario_switch_on_clean_tree_checks_out_once() {
    let mut repo = FakeRepo::with_branches(&["main", "dev"]);
    let mut app = open(&mut repo);
    assert_eq!(app.selected(), Some(0));
    press(&mut app, &mut repo, KeyCode::Char('s'), 1);
    assert_eq!(
        repo.checkouts(),
        vec![&Request::Checkout {
            branch: "main".to_string(),
            reference: "refs/heads/main".to_string(),
        }]
    );
    assert_eq!(
        status_of(&app),
        said("Successfully switched to branch main", OperationStatusType::Success)
    );
    assert!(!app.is_busy());
}

#[test]
fn scenario_switch_on_dirty_tree_never_checks_out() {
    let mut repo = FakeRepo::with_branches(&["main", "dev"]);
    repo.clean = Ok(false);
    let mut app = open(&mut repo);
    press(&mut app, &mut repo, KeyCode::Down, 0);
    assert_eq!(app.selected(), Some(1));
    press(&mut app, &mut repo, KeyCode::Char('s'), 1);
    assert!(repo.checkouts().is_empty());
    assert_eq!(
        status_of(&app),
        said(
            "Error switching to dev: Uncommitted local changes on branch main",
            OperationStatusType::Error
        )
    );
    assert_eq!(repo.asked, vec![Request::CurrentHead, Request::IsWorkingTreeClean]);
    assert!(!app.is_busy());
}

#[test]
fn scenario_switch_without_branches_asks_nothing() {
    let mut repo = FakeRepo::with_branches(&[]);
    let mut app = open(&mut repo);
    press(&mut app, &mut repo, KeyCode::Char('s'), 1);
    assert_eq!(status_of(&app), said("No branch selected", OperationStatusType::Info));
    assert!(repo.asked.is_empty());
    assert!(!app.is_busy());
}

#[test]
fn scenario_fetch_succeeds_with_the_exact_refspec() {
    let mut repo = FakeRepo::with_branches(&["main", "dev"]);
    let mut app = open(&mut repo);
    press(&mut app, &mut repo, KeyCode::Down, 0);
    press(&mut app, &mut repo, KeyCode::Char('f'), 1);
    assert_eq!(status_of(&app), said("Successfully fetched dev", OperationStatusType::Success));
    assert_eq!(
        repo.asked,
        vec![Request::FetchRemoteFor {
            branch: "dev".to_string(),
            remote: "origin".to_string(),
            refspec: "+refs/heads/dev:refs/remotes/origin/dev".to_string(),
            download_tags: false,
        }]
    );
}

#[test]
fn fetch_never_asks_about_the_working_tree() {
    for clean in [Ok(true), Ok(false), Err("index locked".to_string())] {
        for fetch in [Ok(()), Err("no route to host".to_string())] {
            let mut repo = FakeRepo::with_branches(&["main", "dev"]);
            repo.clean = clean.clone();
            repo.fetch = fetch;
            let mut app = open(&mut repo);
            press(&mut app, &mut repo, KeyCode::Char('f'), 1);
            assert_eq!(repo.tree_checks(), 0);
            assert_eq!(repo.asked.len(), 1);
            assert!(matches!(repo.asked[0], Request::FetchRemoteFor { .. }));
        }
    }
}

#[test]
fn fetch_without_branches_asks_nothing() {
    let mut repo = FakeRepo::with_branches(&[]);
    let mut app = open(&mut repo);
    press(&mut app, &mut repo, KeyCode::Char('f'), 1);
    assert_eq!(status_of(&app), said("No branch selected", OperationStatusType::Info));
    assert!(repo.asked.is_empty());
}

#[test]
fn a_failed_fetch_shows_the_error_of_the_repository() {
    let mut repo = FakeRepo::with_branches(&["main"]);
    repo.fetch = Err("remote 'origin' does not exist".to_string());
    let mut app = open(&mut repo);
    press(&mut app, &mut repo, KeyCode::Char('f'), 1);
    assert_eq!(
        status_of(&app),
        said(
            "Error fetching main: remote 'origin' does not exist",
            OperationStatusType::Error
        )
    );
    assert!(!app.is_busy());
}

#[test]
fn a_failed_checkout_shows_the_error_of_the_repository() {
    let mut repo = FakeRepo::with_branches(&["main", "dev"]);
    repo.checkout = Err("reference 'refs/heads/main' not found".to_string());
    let mut app = open(&mut repo);
    press(&mut app, &mut repo, KeyCode::Char('s'), 1);
    assert_eq!(repo.checkouts().len(), 1);
    assert_eq!(
        status_of(&app),
        said(
            "Error switching to main: reference 'refs/heads/main' not found",
            OperationStatusType::Error
        )
    );
}

#[test]
fn an_unreadable_tree_blocks_the_switch() {
    let mut repo = FakeRepo::with_branches(&["main", "dev"]);
    repo.clean = Err("index locked".to_string());
    let mut app = open(&mut repo);
    press(&mut app, &mut repo, KeyCode::Char('s'), 1);
    assert!(repo.checkouts().is_empty());
    assert_eq!(
        status_of(&app),
        said("Error switching to main: index locked", OperationStatusType::Error)
    );
}

#[test]
fn an_unknown_head_does_not_block_the_switch() {
    let mut repo = FakeRepo::with_branches(&["main", "dev"]);
    repo.head = Err("reference 'HEAD' not found".to_string());
    let mut app = open(&mut repo);
    press(&mut app, &mut repo, KeyCode::Char('s'), 1);
    assert_eq!(repo.checkouts().len(), 1);
    assert_eq!(
        status_of(&app),
        said("Successfully switched to branch main", OperationStatusType::Success)
    );
}

#[test]
fn a_refusal_names_head_where_head_is_unknown() {
    let mut repo = FakeRepo::with_branches(&["main", "dev"]);
    repo.head = Err("reference 'HEAD' not found".to_string());
    repo.clean = Ok(false);
    let mut app = open(&mut repo);
    press(&mut app, &mut repo, KeyCode::Char('s'), 1);
    assert!(repo.checkouts().is_empty());
    assert_eq!(
        status_of(&app),
        said(
            "Error switching to main: Uncommitted local changes on branch HEAD",
            OperationStatusType::Error
        )
    );
}

#[test]
fn a_refusal_names_the_commit_where_head_is_detached() {
    let mut repo = FakeRepo::with_branches(&["main"]);
    repo.head = Ok(HeadRef::Detached("0a1b2c3d".to_string()));
    repo.clean = Ok(false);
    let mut app = open(&mut repo);
    press(&mut app, &mut repo, KeyCode::Char('s'), 1);
    assert_eq!(
        status_of(&app),
        said(
            "Error switching to main: Uncommitted local changes on branch 0a1b2c3d",
            OperationStatusType::Error
        )
    );
}

#[test]
fn a_branch_without_a_name_cannot_be_switched_to() {
    let mut repo = FakeRepo::with_branches(&[]);
    repo.branches = Ok(vec![Branch::unnamed(), Branch::named("main")]);
    let mut app = open(&mut repo);
    press(&mut app, &mut repo, KeyCode::Char('s'), 1);
    assert!(repo.asked.is_empty());
    assert_eq!(
        status_of(&app),
        said(
            "Error switching to unknown branch: Invalid UTF-8 in branch name.",
            OperationStatusType::Error
        )
    );
    assert!(!app.is_busy());
}

#[test]
fn a_branch_without_a_name_cannot_be_fetched() {
    let mut repo = FakeRepo::with_branches(&[]);
    repo.branches = Ok(vec![Branch::unnamed(), Branch::named("main")]);
    let mut app = open(&mut repo);
    press(&mut app, &mut repo, KeyCode::Char('f'), 1);
    assert!(repo.asked.is_empty());
    assert_eq!(
        status_of(&app),
        said(
            "Error fetching unknown branch: Invalid UTF-8 in branch name",
            OperationStatusType::Error
        )
    );
}

#[test]
fn the_status_says_what_is_under_way_before_the_answer_is_in() {
    let mut repo = FakeRepo::with_branches(&["main", "dev"]);
    let mut app = open(&mut repo);
    let request = app.handle_key(KeyEvent::press(KeyCode::Char('s')), 5);
    assert_eq!(request, Some(Request::CurrentHead));
    assert!(app.is_busy());
    assert_eq!(status_of(&app), said("Switching to main...", OperationStatusType::Info));
    assert_eq!(app.operation_status().timestamp(), 5);

    let mut app = open(&mut repo);
    let request = app.handle_key(KeyEvent::press(KeyCode::Char('f')), 6);
    assert_eq!(request, Some(Request::fetch("main")));
    assert_eq!(status_of(&app), said("Fetching main...", OperationStatusType::Info));

    let mut app = open(&mut repo);
    let request = app.handle_key(KeyEvent::press(KeyCode::Char('r')), 7);
    assert_eq!(request, Some(Request::ListLocalBranches));
    assert_eq!(status_of(&app), said("Refreshing", OperationStatusType::Info));
    assert_eq!(app.operation_status().timestamp(), 7);
}

#[test]
fn a_switch_asks_head_then_tree_then_checkout() {
    let mut repo = FakeRepo::with_branches(&["main", "dev"]);
    let mut app = open(&mut repo);
    assert_eq!(app.switch_branch(1), Some(Request::CurrentHead));
    assert_eq!(
        app.resume(Response::Head(Ok(HeadRef::Branch(Some("dev".to_string())))), 2),
        Some(Request::IsWorkingTreeClean)
    );
    assert_eq!(status_of(&app), said("Switching to main...", OperationStatusType::Info));
    assert_eq!(
        app.resume(Response::WorkingTreeClean(Ok(true)), 3),
        Some(Request::checkout("main"))
    );
    assert!(app.is_busy());
    assert_eq!(app.resume(Response::CheckedOut(Ok(())), 4), None);
    assert!(!app.is_busy());
    assert_eq!(
        status_of(&app),
        said("Successfully switched to branch main", OperationStatusType::Success)
    );
    assert_eq!(app.operation_status().timestamp(), 4);
}

#[test]
fn navigation_stays_in_the_list() {
    let mut repo = FakeRepo::with_branches(&["a", "b", "c"]);
    let mut app = open(&mut repo);
    let moves = [
        KeyCode::Up,
        KeyCode::Up,
        KeyCode::Down,
        KeyCode::Down,
        KeyCode::Down,
        KeyCode::Down,
        KeyCode::Down,
        KeyCode::Up,
        KeyCode::Down,
        KeyCode::Down,
        KeyCode::Up,
        KeyCode::Up,
        KeyCode::Up,
        KeyCode::Up,
    ];
    let expected = [0, 0, 1, 2, 2, 2, 2, 1, 2, 2, 1, 0, 0, 0];
    for (code, at) in moves.iter().zip(expected.iter()) {
        press(&mut app, &mut repo, *code, 0);
        assert_eq!(app.selected(), Some(*at));
    }
    assert!(repo.asked.is_empty());
    assert_eq!(status_of(&app), said("Refreshed Branches", OperationStatusType::Success));
}

#[test]
fn navigation_does_not_wrap() {
    let mut repo = FakeRepo::with_branches(&["a", "b"]);
    let mut app = open(&mut repo);
    app.select_previous();
    assert_eq!(app.selected(), Some(0));
    app.select_next();
    assert_eq!(app.selected(), Some(1));
    app.select_next();
    assert_eq!(app.selected(), Some(1));
}

#[test]
fn navigation_over_no_branches_selects_nothing() {
    let mut repo = FakeRepo::with_branches(&[]);
    for mut app in [App::new(), open(&mut repo)] {
        for code in [KeyCode::Down, KeyCode::Up, KeyCode::Down, KeyCode::Down, KeyCode::Up] {
            press(&mut app, &mut repo, code, 0);
            assert_eq!(app.selected(), None);
        }
        assert_eq!(
            app.rows(&Ok(HeadRef::Branch(Some("main".to_string())))),
            Vec::<BranchRow>::new()
        );
        assert_eq!(app.status_line(5000).0, "Ready");
    }
}

#[test]
fn refresh_takes_the_new_listing_in() {
    let mut repo = FakeRepo::with_branches(&["main"]);
    let mut app = open(&mut repo);
    repo.branches = Ok(vec![Branch::named("main"), Branch::named("topic")]);
    press(&mut app, &mut repo, KeyCode::Char('r'), 9);
    assert_eq!(repo.asked, vec![Request::ListLocalBranches]);
    assert_eq!(app.branch_names(), vec!["main".to_string(), "topic".to_string()]);
    assert_eq!(app.selected(), Some(0));
    assert_eq!(status_of(&app), said("Refreshed Branches", OperationStatusType::Success));
    assert_eq!(app.operation_status().timestamp(), 9);
    assert!(!app.is_busy());
}

#[test]
fn refresh_is_idempotent() {
    let mut repo = FakeRepo::with_branches(&["a", "b", "c"]);
    let mut app = open(&mut repo);
    press(&mut app, &mut repo, KeyCode::Down, 0);
    press(&mut app, &mut repo, KeyCode::Down, 0);
    repo.branches = Ok(vec![Branch::named("a"), Branch::named("b")]);
    press(&mut app, &mut repo, KeyCode::Char('r'), 1);
    let names = app.branch_names();
    let selected = app.selected();
    assert_eq!(names, vec!["a".to_string(), "b".to_string()]);
    assert_eq!(selected, Some(1));
    for now in 2..5 {
        press(&mut app, &mut repo, KeyCode::Char('r'), now);
        assert_eq!(app.branch_names(), names);
        assert_eq!(app.selected(), selected);
    }
}

#[test]
fn refresh_keeps_a_selection_that_is_still_in_the_list() {
    let mut repo = FakeRepo::with_branches(&["a", "b", "c"]);
    let mut app = open(&mut repo);
    press(&mut app, &mut repo, KeyCode::Down, 0);
    repo.branches = Ok(vec![Branch::named("x"), Branch::named("y")]);
    press(&mut app, &mut repo, KeyCode::Char('r'), 1);
    assert_eq!(app.selected(), Some(1));
}

#[test]
fn refresh_to_an_empty_list_selects_nothing() {
    let mut repo = FakeRepo::with_branches(&["a", "b"]);
    let mut app = open(&mut repo);
    repo.branches = Ok(Vec::new());
    press(&mut app, &mut repo, KeyCode::Char('r'), 1);
    assert_eq!(app.selected(), None);
    assert_eq!(app.branch_names(), Vec::<String>::new());
    press(&mut app, &mut repo, KeyCode::Char('s'), 2);
    assert_eq!(status_of(&app), said("No branch selected", OperationStatusType::Info));
}

#[test]
fn refresh_from_an_empty_list_selects_the_first_branch() {
    let mut repo = FakeRepo::with_branches(&[]);
    let mut app = open(&mut repo);
    repo.branches = Ok(vec![Branch::named("a"), Branch::named("b")]);
    press(&mut app, &mut repo, KeyCode::Char('r'), 1);
    assert_eq!(app.selected(), Some(0));
}

#[test]
fn a_failed_refresh_keeps_the_list_and_shows_the_error() {
    let mut repo = FakeRepo::with_branches(&["a", "b"]);
    let mut app = open(&mut repo);
    press(&mut app, &mut repo, KeyCode::Down, 0);
    repo.branches = Err("object database unreadable".to_string());
    press(&mut app, &mut repo, KeyCode::Char('r'), 1);
    assert_eq!(app.branch_names(), vec!["a".to_string(), "b".to_string()]);
    assert_eq!(app.selected(), Some(1));
    assert_eq!(
        status_of(&app),
        said(
            "Failed to refresh branches: object database unreadable",
            OperationStatusType::Error
        )
    );
    assert!(!app.is_busy());
}

#[test]
fn quit_asks_to_leave_and_ends_all_action() {
    let mut repo = FakeRepo::with_branches(&["a", "b"]);
    let mut app = open(&mut repo);
    press(&mut app, &mut repo, KeyCode::Char('q'), 0);
    assert!(app.should_exit());
    for code in [KeyCode::Down, KeyCode::Char('s'), KeyCode::Char('f'), KeyCode::Char('r')] {
        press(&mut app, &mut repo, code, 1);
    }
    assert_eq!(app.selected(), Some(0));
    assert!(repo.asked.is_empty());
    assert_eq!(status_of(&app), said("Refreshed Branches", OperationStatusType::Success));
    assert!(app.should_exit());
}

#[test]
fn only_a_press_counts() {
    let mut repo = FakeRepo::with_branches(&["a", "b"]);
    let mut app = open(&mut repo);
    for kind in [KeyEventKind::Release, KeyEventKind::Repeat] {
        for code in [KeyCode::Down, KeyCode::Char('q'), KeyCode::Char('s')] {
            assert_eq!(app.handle_key(KeyEvent { code, kind }, 0), None);
        }
    }
    assert_eq!(app.selected(), Some(0));
    assert!(!app.should_exit());
    assert!(!app.is_busy());
}

#[test]
fn a_key_without_an_action_changes_nothing() {
    let mut repo = FakeRepo::with_branches(&["a", "b"]);
    let mut app = open(&mut repo);
    for code in [KeyCode::Char('x'), KeyCode::Char('Q'), KeyCode::Other] {
        assert_eq!(app.handle_key(KeyEvent::press(code), 0), None);
    }
    assert_eq!(app.selected(), Some(0));
    assert!(!app.should_exit());
    assert_eq!(status_of(&app), said("Refreshed Branches", OperationStatusType::Success));
}

#[test]
fn keys_wait_while_a_request_is_out() {
    let mut repo = FakeRepo::with_branches(&["a", "b"]);
    let mut app = open(&mut repo);
    assert_eq!(app.handle_key(KeyEvent::press(KeyCode::Char('f')), 0), Some(Request::fetch("a")));
    for code in [KeyCode::Down, KeyCode::Char('q'), KeyCode::Char('s'), KeyCode::Char('r')] {
        assert_eq!(app.handle_key(KeyEvent::press(code), 1), None);
    }
    assert_eq!(app.selected(), Some(0));
    assert!(!app.should_exit());
    assert!(app.is_busy());
    assert_eq!(status_of(&app), said("Fetching a...", OperationStatusType::Info));
    assert_eq!(app.resume(Response::Fetched(Ok(())), 2), None);
    assert!(!app.is_busy());
    assert_eq!(app.handle_key(KeyEvent::press(KeyCode::Down), 3), None);
    assert_eq!(app.selected(), Some(1));
}

#[test]
fn an_answer_that_nobody_waits_for_changes_nothing() {
    let mut repo = FakeRepo::with_branches(&["a", "b"]);
    let mut app = open(&mut repo);
    assert_eq!(app.resume(Response::CheckedOut(Ok(())), 1), None);
    assert_eq!(app.resume(Response::LocalBranches(Ok(Vec::new())), 1), None);
    assert_eq!(app.branch_names(), vec!["a".to_string(), "b".to_string()]);
    assert_eq!(status_of(&app), said("Refreshed Branches", OperationStatusType::Success));

    assert_eq!(app.switch_branch(2), Some(Request::CurrentHead));
    assert_eq!(app.resume(Response::WorkingTreeClean(Ok(true)), 3), None);
    assert_eq!(app.resume(Response::CheckedOut(Ok(())), 3), None);
    assert!(app.is_busy());
    assert_eq!(status_of(&app), said("Switching to a...", OperationStatusType::Info));
    assert_eq!(
        app.resume(Response::Head(Err("unborn".to_string())), 4),
        Some(Request::IsWorkingTreeClean)
    );
}

#[test]
fn step_takes_keys_and_answers_alike() {
    let mut repo = FakeRepo::with_branches(&["a", "b"]);
    let mut app = open(&mut repo);
    assert_eq!(app.step(Event::Key(KeyEvent::press(KeyCode::Down)), 0), None);
    assert_eq!(app.selected(), Some(1));
    assert_eq!(
        app.step(Event::Key(KeyEvent::press(KeyCode::Char('f'))), 1),
        Some(Request::fetch("b"))
    );
    assert_eq!(app.step(Event::Answer(Response::Fetched(Ok(()))), 2), None);
    assert_eq!(status_of(&app), said("Successfully fetched b", OperationStatusType::Success));
}

#[test]
fn perform_acts_on_an_action() {
    let mut repo = FakeRepo::with_branches(&["a", "b"]);
    let mut app = open(&mut repo);
    assert_eq!(app.perform(Control::Down, 0), None);
    assert_eq!(app.selected(), Some(1));
    assert_eq!(app.perform(Control::Up, 0), None);
    assert_eq!(app.selected(), Some(0));
    assert_eq!(app.perform(Control::Refresh, 0), Some(Request::ListLocalBranches));
    assert_eq!(app.resume(Response::LocalBranches(Ok(Vec::new())), 0), None);
    assert_eq!(app.perform(Control::Quit, 0), None);
    assert!(app.should_exit());
}

#[test]
fn the_status_of_an_operation_expires() {
    let mut repo = FakeRepo::with_branches(&["main", "dev"]);
    let mut app = open(&mut repo);
    press(&mut app, &mut repo, KeyCode::Char('f'), 10_000);
    assert_eq!(
        app.status(10_000),
        said("Successfully fetched main", OperationStatusType::Success)
    );
    assert_eq!(
        app.status(13_000),
        said("Successfully fetched main", OperationStatusType::Success)
    );
    assert_eq!(
        app.status_line(13_000),
        said("\u{2705} Successfully fetched main", OperationStatusType::Success)
    );
    assert_eq!(app.status(13_500), said("Ready", OperationStatusType::Info));
    assert_eq!(app.status_line(13_500), said("Ready", OperationStatusType::Info));
    assert_eq!(app.selected(), Some(0));
}

#[test]
fn set_status_puts_a_message_on_the_line() {
    let mut repo = FakeRepo::with_branches(&["main"]);
    let mut app = open(&mut repo);
    app.set_status("hello", OperationStatusType::Success, 3);
    assert_eq!(status_of(&app), said("hello", OperationStatusType::Success));
    assert_eq!(app.operation_status().timestamp(), 3);
}

#[test]
fn the_title_names_head() {
    let mut repo = FakeRepo::with_branches(&["main"]);
    let app = open(&mut repo);
    assert_eq!(
        app.title(&Ok(HeadRef::Branch(Some("main".to_string())))),
        "Git Branch Explorer (\u{f126} main)"
    );
    assert_eq!(
        app.title(&Ok(HeadRef::Detached("0a1b2c3d".to_string()))),
        "Git Branch Explorer (\u{f126} 0a1b2c3d)"
    );
    assert_eq!(app.title(&Ok(HeadRef::Branch(None))), "Git Branch Explorer (\u{f126} HEAD)");
    assert_eq!(
        app.title(&Err("unborn".to_string())),
        "Git Branch Explorer (\u{f126} ERROR)"
    );
}

#[test]
fn the_rows_mark_the_current_branch_and_every_other_line() {
    let mut repo = FakeRepo::with_branches(&[]);
    repo.branches = Ok(vec![
        Branch::named("main"),
        Branch::unnamed(),
        Branch::named("dev"),
        Branch::named("topic"),
    ]);
    let app = open(&mut repo);
    let rows = app.rows(&Ok(HeadRef::Branch(Some("dev".to_string()))));
    assert_eq!(
        rows,
        vec![
            BranchRow { name: "main".to_string(), is_current: false, is_alternate: false },
            BranchRow { name: "dev".to_string(), is_current: true, is_alternate: true },
            BranchRow { name: "topic".to_string(), is_current: false, is_alternate: false },
        ]
    );
    let rows = app.rows(&Err("unborn".to_string()));
    assert!(rows.iter().all(|row| !row.is_current));
}

#[test]
fn the_help_line_of_a_session_is_that_of_the_table() {
    let mut repo = FakeRepo::with_branches(&["main"]);
    let app = open(&mut repo);
    assert_eq!(
        app.help_text(),
        "Switch <s> | Fetch <f> | Refresh <r> | Up <\u{2191}> | Down <\u{2193}> | Quit <q>"
    );
}
