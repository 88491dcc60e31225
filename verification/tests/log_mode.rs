use vcs_modes::backend::LogEntry;
use vcs_modes::mode::log::command_failure;
use vcs_modes::mode::log::command_for_key;
use vcs_modes::mode::log::request;
use vcs_modes::mode::log::wait_operation;
use vcs_modes::mode::log::wrapped_row_count;
use vcs_modes::mode::log::Mode;
use vcs_modes::mode::log::Response;
use vcs_modes::mode::log::State;
use vcs_modes::mode::log::WaitOperation;
use vcs_modes::mode::Command;
use vcs_modes::mode::ModeChange;
use vcs_modes::mode::ModeChangeInfo;
use vcs_modes::mode::ModeContext;
use vcs_modes::mode::ModeKind;
use vcs_modes::mode::ModeResponse;
use vcs_modes::mode::ModeStatus;
use vcs_modes::mode::ModeTrait;
use vcs_modes::mode::Request;
use vcs_modes::platform::Key;
use vcs_modes::ui::Color;
use vcs_modes::ui::DrawOp;
use vcs_modes::ui::Drawer;

fn ctx() -> ModeContext {
    ModeContext { viewport_size: (80, 24) }
}

fn entry(n: usize) -> LogEntry {
    LogEntry {
        graph: String::from("*"),
        hash: format!("hash{}", n),
        date: String::from("2024-01-01"),
        author: String::from("Alice"),
        refs: String::new(),
        message: format!("message {}", n),
    }
}

fn entries(range: std::ops::Range<usize>) -> Vec<LogEntry> {
    range.map(entry).collect()
}

fn page(start: usize, entries: Vec<LogEntry>) -> ModeResponse {
    ModeResponse::Log(Response::Refresh(Ok((start, entries))))
}

fn failure(message: &str) -> ModeResponse {
    ModeResponse::Log(Response::Refresh(Err(String::from(message))))
}

fn info() -> ModeChangeInfo {
    ModeChangeInfo::new(ModeKind::Log)
}

fn loaded(count: usize) -> Mode {
    let mut mode = Mode::new();
    assert_eq!(mode.on_response(&ctx(), page(0, entries(0..count))), Ok(()));
    mode
}

fn refresh(command: Option<Command>) -> Request {
    Request { command, start: 0, limit: 22 }
}

fn settled() -> ModeStatus {
    ModeStatus::settled(false)
}

#[test]
fn new_mode_is_idle_and_empty() {
    let mode = Mode::default();
    assert_eq!(mode.state(), State::Idle);
    assert!(!mode.is_waiting_response());
    assert!(mode.entries().is_empty());
    assert_eq!(mode.select().cursor, 0);
    assert_eq!(mode.output().text(), "");
    assert!(!mode.show_full_hovered_message());
    assert_eq!(State::default(), State::Idle);
}

#[test]
fn on_enter_asks_for_the_first_page() {
    let mut mode = Mode::new();
    let request = mode.on_enter(&ctx(), info());
    assert_eq!(request, Some(refresh(None)));
    assert_eq!(mode.state(), State::Waiting(WaitOperation::Refresh));
    assert!(mode.is_waiting_response());
}

#[test]
fn on_enter_while_waiting_asks_for_nothing() {
    let mut mode = loaded(3);
    assert!(mode.on_enter(&ctx(), info()).is_some());
    let before = format!("{:?}", mode);
    for _ in 0..3 {
        assert_eq!(mode.on_enter(&ctx(), info()), None);
        assert_eq!(format!("{:?}", mode), before);
    }
}

#[test]
fn on_enter_while_waiting_for_a_command_asks_for_nothing() {
    let mut mode = loaded(3);
    let status = mode.on_key(&ctx(), Key::Char('f'));
    assert!(status.command_request.is_some());
    assert_eq!(mode.on_enter(&ctx(), info()), None);
    assert_eq!(mode.state(), State::Waiting(WaitOperation::Fetch));
}

#[test]
fn on_enter_clears_output_and_full_message() {
    let mut mode = Mode::new();
    assert_eq!(mode.on_response(&ctx(), failure("boom")), Ok(()));
    mode.on_key(&ctx(), Key::Tab);
    assert_eq!(mode.output().text(), "boom");
    assert!(mode.show_full_hovered_message());
    assert!(mode.on_enter(&ctx(), info()).is_some());
    assert_eq!(mode.output().text(), "");
    assert!(!mode.show_full_hovered_message());
}

#[test]
fn refresh_appends_the_next_page() {
    let mut mode = loaded(5);
    assert_eq!(mode.on_response(&ctx(), page(5, entries(5..7))), Ok(()));
    assert_eq!(mode.entries(), &entries(0..7)[..]);
}

#[test]
fn refresh_from_zero_replaces_the_list() {
    let mut mode = loaded(5);
    let fresh: Vec<LogEntry> = entries(100..103);
    assert_eq!(mode.on_response(&ctx(), page(0, fresh.clone())), Ok(()));
    assert_eq!(mode.entries(), &fresh[..]);
}

#[test]
fn the_same_page_twice_is_merged_once() {
    let mut mode = loaded(5);
    assert_eq!(mode.on_response(&ctx(), page(5, entries(5..7))), Ok(()));
    assert_eq!(mode.on_response(&ctx(), page(5, entries(5..7))), Ok(()));
    assert_eq!(mode.entries(), &entries(0..7)[..]);
    assert_eq!(mode.on_response(&ctx(), page(0, entries(0..3))), Ok(()));
    assert_eq!(mode.on_response(&ctx(), page(0, entries(0..3))), Ok(()));
    assert_eq!(mode.entries(), &entries(0..3)[..]);
}

#[test]
fn refresh_in_the_middle_cuts_the_tail() {
    let mut mode = loaded(5);
    assert_eq!(mode.on_response(&ctx(), page(2, entries(10..11))), Ok(()));
    let mut expected = entries(0..2);
    expected.push(entry(10));
    assert_eq!(mode.entries(), &expected[..]);
}

#[test]
fn refresh_past_the_end_keeps_everything() {
    let mut mode = loaded(2);
    assert_eq!(mode.on_response(&ctx(), page(9, entries(9..10))), Ok(()));
    let mut expected = entries(0..2);
    expected.push(entry(9));
    assert_eq!(mode.entries(), &expected[..]);
}

#[test]
fn failure_clears_entries_and_shows_the_message() {
    let mut mode = loaded(5);
    mode.on_key(&ctx(), Key::End);
    assert_eq!(mode.select().cursor, 4);
    assert_eq!(mode.on_response(&ctx(), failure("fatal: not a repository")), Ok(()));
    assert!(mode.entries().is_empty());
    assert_eq!(mode.output().text(), "fatal: not a repository");
    assert_eq!(mode.select().cursor, 0);
    assert!(mode.filter().visible_indices().is_empty());
    assert_eq!(mode.state(), State::Idle);
}

#[test]
fn success_clears_an_earlier_message() {
    let mut mode = Mode::new();
    assert_eq!(mode.on_response(&ctx(), failure("boom")), Ok(()));
    assert_eq!(mode.on_response(&ctx(), page(0, entries(0..2))), Ok(()));
    assert_eq!(mode.output().text(), "");
    assert_eq!(mode.entries().len(), 2);
}

#[test]
fn response_makes_the_mode_idle() {
    let mut mode = Mode::new();
    assert!(mode.on_enter(&ctx(), info()).is_some());
    assert!(mode.is_waiting_response());
    assert_eq!(mode.on_response(&ctx(), page(0, entries(0..2))), Ok(()));
    assert!(!mode.is_waiting_response());
    assert_eq!(mode.state(), State::Idle);
}

#[test]
fn cursor_stays_in_range_after_every_merge() {
    let mut mode = loaded(10);
    mode.on_key(&ctx(), Key::End);
    assert_eq!(mode.select().cursor, 9);
    assert_eq!(mode.on_response(&ctx(), page(0, entries(0..4))), Ok(()));
    assert_eq!(mode.select().cursor, 3);
    assert_eq!(mode.on_response(&ctx(), page(1, Vec::new())), Ok(()));
    assert_eq!(mode.select().cursor, 0);
    assert_eq!(mode.on_response(&ctx(), page(0, Vec::new())), Ok(()));
    assert_eq!(mode.select().cursor, 0);
    assert_eq!(mode.filter().visible_indices().len(), 0);
    assert_eq!(mode.on_response(&ctx(), failure("x")), Ok(()));
    assert_eq!(mode.select().cursor, 0);
}

#[test]
fn merge_runs_the_filter_again() {
    let mut mode = loaded(12);
    mode.on_key(&ctx(), Key::Ctrl('f'));
    mode.on_key(&ctx(), Key::Char('e'));
    mode.on_key(&ctx(), Key::Char(' '));
    mode.on_key(&ctx(), Key::Char('1'));
    mode.on_key(&ctx(), Key::Enter);
    assert_eq!(mode.filter().visible_indices(), &[1, 10, 11]);
    assert_eq!(mode.on_response(&ctx(), page(12, entries(12..22))), Ok(()));
    assert_eq!(
        mode.filter().visible_indices(),
        &[1, 10, 11, 12, 13, 14, 15, 16, 17, 18, 19, 21]
    );
    assert_eq!(mode.on_response(&ctx(), page(0, entries(0..2))), Ok(()));
    assert_eq!(mode.filter().visible_indices(), &[1]);
    assert_eq!(mode.select().cursor, 0);
}

#[test]
fn arrows_move_the_cursor() {
    let mut mode = loaded(30);
    assert_eq!(mode.on_key(&ctx(), Key::Down), settled());
    assert_eq!(mode.select().cursor, 1);
    mode.on_key(&ctx(), Key::PageDown);
    assert_eq!(mode.select().cursor, 12);
    mode.on_key(&ctx(), Key::Up);
    assert_eq!(mode.select().cursor, 11);
    mode.on_key(&ctx(), Key::PageUp);
    assert_eq!(mode.select().cursor, 0);
    mode.on_key(&ctx(), Key::Up);
    assert_eq!(mode.select().cursor, 0);
    mode.on_key(&ctx(), Key::Home);
    assert_eq!(mode.select().cursor, 0);
}

#[test]
fn cursor_on_the_last_entry_asks_for_the_next_page() {
    let mut mode = loaded(30);
    let status = mode.on_key(&ctx(), Key::End);
    assert_eq!(mode.select().cursor, 29);
    assert_eq!(
        status.page_request,
        Some(Request { command: None, start: 30, limit: 22 })
    );
    assert_eq!(status.command_request, None);
    assert_eq!(mode.state(), State::Idle);
    assert!(!mode.is_waiting_response());
}

#[test]
fn page_request_leaves_commands_available() {
    let mut mode = loaded(1);
    let status = mode.on_key(&ctx(), Key::Char('c'));
    assert_eq!(
        status.page_request,
        Some(Request { command: None, start: 1, limit: 22 })
    );
    assert_eq!(
        status.command_request,
        Some(refresh(Some(Command::Checkout(String::from("hash0")))))
    );
    assert_eq!(mode.state(), State::Waiting(WaitOperation::Checkout));
}

#[test]
fn no_page_request_while_waiting() {
    let mut mode = loaded(3);
    assert!(mode.on_enter(&ctx(), info()).is_some());
    let status = mode.on_key(&ctx(), Key::End);
    assert_eq!(mode.select().cursor, 2);
    assert_eq!(status, settled());
}

#[test]
fn no_page_request_away_from_the_end_or_without_entries() {
    let mut mode = loaded(3);
    assert_eq!(mode.on_key(&ctx(), Key::Down).page_request, None);
    let mut empty = Mode::new();
    assert_eq!(empty.on_key(&ctx(), Key::Down), settled());
}

#[test]
fn page_request_counts_all_entries_under_a_filter() {
    let mut mode = loaded(12);
    mode.on_key(&ctx(), Key::Ctrl('f'));
    mode.on_key(&ctx(), Key::Char('e'));
    mode.on_key(&ctx(), Key::Char(' '));
    mode.on_key(&ctx(), Key::Char('1'));
    mode.on_key(&ctx(), Key::Enter);
    let status = mode.on_key(&ctx(), Key::End);
    assert_eq!(mode.select().cursor, 2);
    assert_eq!(
        status.page_request,
        Some(Request { command: None, start: 12, limit: 22 })
    );
}

#[test]
fn command_keys_on_the_selected_revision() {
    let cases = [
        ('c', Command::Checkout(String::from("hash1")), WaitOperation::Checkout),
        ('r', Command::Reset(String::from("hash1")), WaitOperation::Reset),
        ('m', Command::Merge(String::from("hash1")), WaitOperation::Merge),
        ('R', Command::Reset(String::new()), WaitOperation::Reset),
        ('f', Command::Fetch, WaitOperation::Fetch),
        ('p', Command::Pull, WaitOperation::Pull),
        ('P', Command::Push, WaitOperation::Push),
        ('g', Command::PushToAlternateRemote, WaitOperation::Push),
    ];
    for (key, command, operation) in cases {
        let mut mode = loaded(3);
        mode.on_key(&ctx(), Key::Down);
        let status = mode.on_key(&ctx(), Key::Char(key));
        assert_eq!(status.command_request, Some(refresh(Some(command))));
        assert_eq!(status.page_request, None);
        assert_eq!(status.mode_change, None);
        assert!(!status.pending_input);
        assert_eq!(mode.state(), State::Waiting(operation));
        assert!(mode.is_waiting_response());
    }
}

#[test]
fn command_keys_are_ignored_while_waiting() {
    for key in ['c', 'r', 'R', 'm', 'f', 'p', 'P', 'g'] {
        let mut mode = loaded(3);
        assert!(mode.on_key(&ctx(), Key::Char('f')).command_request.is_some());
        assert_eq!(mode.on_key(&ctx(), Key::Char(key)), settled());
        assert_eq!(mode.state(), State::Waiting(WaitOperation::Fetch));
    }
}

#[test]
fn revision_commands_need_a_selected_entry() {
    for key in ['c', 'r', 'm'] {
        let mut mode = Mode::new();
        assert_eq!(mode.on_key(&ctx(), Key::Char(key)), settled());
        assert_eq!(mode.state(), State::Idle);
    }
    for (key, operation) in [
        ('R', WaitOperation::Reset),
        ('f', WaitOperation::Fetch),
        ('p', WaitOperation::Pull),
        ('P', WaitOperation::Push),
        ('g', WaitOperation::Push),
    ] {
        let mut mode = Mode::new();
        assert!(mode.on_key(&ctx(), Key::Char(key)).command_request.is_some());
        assert_eq!(mode.state(), State::Waiting(operation));
    }
}

#[test]
fn other_keys_are_no_commands() {
    let mut mode = loaded(3);
    for key in [Key::Char('x'), Key::Char('C'), Key::Ctrl('c'), Key::Esc, Key::Left] {
        assert_eq!(mode.on_key(&ctx(), key), settled());
        assert_eq!(mode.state(), State::Idle);
    }
}

#[test]
fn enter_opens_the_details_of_the_selected_revision() {
    let mut mode = loaded(3);
    mode.on_key(&ctx(), Key::Down);
    let status = mode.on_key(&ctx(), Key::Enter);
    assert_eq!(
        status.mode_change,
        Some(ModeChange {
            to: ModeKind::RevisionDetails,
            info: ModeChangeInfo::revision(ModeKind::Log, String::from("hash1")),
        })
    );
    assert_eq!(status.command_request, None);
    assert_eq!(mode.state(), State::Idle);
}

#[test]
fn enter_works_while_waiting() {
    let mut mode = loaded(3);
    assert!(mode.on_enter(&ctx(), info()).is_some());
    let status = mode.on_key(&ctx(), Key::Enter);
    assert!(status.mode_change.is_some());
    assert_eq!(status.page_request, None);
    assert!(mode.is_waiting_response());
}

#[test]
fn enter_without_entries_changes_nothing() {
    let mut mode = Mode::new();
    assert_eq!(mode.on_key(&ctx(), Key::Enter), settled());
}

#[test]
fn tab_toggles_the_full_message() {
    let mut mode = loaded(3);
    assert_eq!(mode.on_key(&ctx(), Key::Tab), settled());
    assert!(mode.show_full_hovered_message());
    mode.on_key(&ctx(), Key::Tab);
    assert!(!mode.show_full_hovered_message());
    assert!(mode.on_enter(&ctx(), info()).is_some());
    mode.on_key(&ctx(), Key::Tab);
    assert!(mode.show_full_hovered_message());
}

#[test]
fn filter_typing_narrows_the_list() {
    let mut mode = loaded(12);
    mode.on_key(&ctx(), Key::End);
    assert_eq!(mode.select().cursor, 11);
    let status = mode.on_key(&ctx(), Key::Ctrl('f'));
    assert!(!status.pending_input);
    assert!(mode.filter().has_focus());
    let status = mode.on_key(&ctx(), Key::Char('e'));
    assert_eq!(status, ModeStatus::settled(true));
    assert_eq!(mode.filter().visible_indices().len(), 12);
    assert_eq!(mode.select().cursor, 11);
    mode.on_key(&ctx(), Key::Char(' '));
    let status = mode.on_key(&ctx(), Key::Char('1'));
    assert_eq!(status, ModeStatus::settled(true));
    assert_eq!(mode.filter().text(), "e 1");
    assert_eq!(mode.filter().visible_indices(), &[1, 10, 11]);
    assert_eq!(mode.select().cursor, 2);
    mode.on_key(&ctx(), Key::Char('1'));
    assert_eq!(mode.filter().visible_indices(), &[11]);
    assert_eq!(mode.select().cursor, 0);
    mode.on_key(&ctx(), Key::Char('z'));
    assert_eq!(mode.filter().visible_indices(), &[] as &[usize]);
    assert_eq!(mode.select().cursor, 0);
    mode.on_key(&ctx(), Key::Backspace);
    assert_eq!(mode.filter().visible_indices(), &[11]);
    mode.on_key(&ctx(), Key::Esc);
    assert!(!mode.filter().has_focus());
    assert_eq!(mode.filter().text(), "");
    assert_eq!(mode.filter().visible_indices().len(), 12);
}

#[test]
fn filter_typing_takes_command_keys_as_text() {
    let mut mode = loaded(3);
    mode.on_key(&ctx(), Key::Ctrl('f'));
    let status = mode.on_key(&ctx(), Key::Char('f'));
    assert_eq!(status, ModeStatus::settled(true));
    assert_eq!(mode.state(), State::Idle);
    assert_eq!(mode.filter().text(), "f");
}

#[test]
fn command_for_key_and_its_operation() {
    let hash = String::from("abc");
    assert_eq!(
        command_for_key(Key::Char('c'), Some(&hash)),
        Some(Command::Checkout(String::from("abc")))
    );
    assert_eq!(command_for_key(Key::Char('c'), None), None);
    assert_eq!(
        command_for_key(Key::Char('R'), Some(&hash)),
        Some(Command::Reset(String::new()))
    );
    assert_eq!(command_for_key(Key::Ctrl('c'), Some(&hash)), None);
    assert_eq!(command_for_key(Key::Enter, Some(&hash)), None);
    assert_eq!(wait_operation(&Command::PushToAlternateRemote), WaitOperation::Push);
    assert_eq!(wait_operation(&Command::Merge(hash)), WaitOperation::Merge);
}

#[test]
fn request_starts_at_the_first_page() {
    assert_eq!(request(&ctx(), None), refresh(None));
    assert_eq!(
        request(&ModeContext { viewport_size: (80, 1) }, Some(Command::Pull)),
        Request { command: Some(Command::Pull), start: 0, limit: 0 }
    );
    assert_eq!(
        request(&ModeContext { viewport_size: (80, 65535) }, None),
        Request { command: None, start: 0, limit: 65533 }
    );
}

#[test]
fn command_failure_becomes_the_response() {
    assert_eq!(command_failure(Ok(())), None);
    assert_eq!(
        command_failure(Err(String::from("denied"))),
        Some(Response::Refresh(Err(String::from("denied"))))
    );
}

#[test]
fn header_names_the_operation() {
    let left = "[c]checkout [enter]details [f]fetch [p]pull [P]push [g]gerrit [r]reset [R]reset to remote";
    let right = "[tab]full message [Left]back [arrows]move [ctrl+f]filter";
    let mut mode = loaded(2);
    assert_eq!(mode.header(), ("log", left, right));
    for (key, name) in [
        ('c', "checkout"),
        ('r', "reset"),
        ('R', "reset"),
        ('m', "merge"),
        ('f', "fetch"),
        ('p', "pull"),
        ('P', "push"),
        ('g', "push"),
    ] {
        let mut mode = loaded(2);
        mode.on_key(&ctx(), Key::Char(key));
        assert_eq!(mode.header(), (name, left, right));
    }
    assert!(mode.on_enter(&ctx(), info()).is_some());
    assert_eq!(mode.header().0, "log");
}

#[test]
fn draw_shows_the_list_or_the_output() {
    let mode = loaded(2);
    let mut drawer = Drawer::new((80, 24));
    mode.draw(&mut drawer);
    assert_eq!(
        drawer.into_ops(),
        vec![DrawOp::SelectMenu { header_height: 0, show_full_hovered_message: false }]
    );

    let mut mode = loaded(2);
    mode.on_key(&ctx(), Key::Tab);
    mode.on_key(&ctx(), Key::Ctrl('f'));
    let mut drawer = Drawer::new((80, 24));
    mode.draw(&mut drawer);
    assert_eq!(
        drawer.into_ops(),
        vec![
            DrawOp::Filter,
            DrawOp::SelectMenu { header_height: 1, show_full_hovered_message: true }
        ]
    );

    let mut mode = Mode::new();
    assert_eq!(mode.on_response(&ctx(), failure("boom")), Ok(()));
    let mut drawer = Drawer::new((80, 24));
    mode.draw(&mut drawer);
    assert_eq!(drawer.into_ops(), vec![DrawOp::Output]);
}

fn text(s: &str) -> DrawOp {
    DrawOp::Text(String::from(s))
}

fn sample() -> LogEntry {
    LogEntry {
        graph: String::from("*"),
        hash: String::from("abc1234"),
        date: String::from("2024-01-01"),
        author: String::from("Alice"),
        refs: String::new(),
        message: String::from("Fix the parser\n\nIt lost lines."),
    }
}

#[test]
fn entry_row_collapsed() {
    let mut drawer = Drawer::new((80, 24));
    let rows = sample().draw(&mut drawer, false, false);
    assert_eq!(rows, 1);
    assert_eq!(
        drawer.into_ops(),
        vec![
            DrawOp::Color(Color::White),
            text("* "),
            DrawOp::Color(Color::DarkYellow),
            text("abc1234 "),
            DrawOp::Color(Color::DarkBlue),
            text("2024-01-01 "),
            DrawOp::Color(Color::DarkGreen),
            text("Alice "),
            DrawOp::Color(Color::DarkRed),
            text(""),
            DrawOp::Color(Color::White),
            text("Fix the parser"),
        ]
    );
}

#[test]
fn entry_row_hovered_is_white() {
    let mut drawer = Drawer::new((80, 24));
    sample().draw(&mut drawer, true, false);
    let colors: Vec<DrawOp> = drawer
        .into_ops()
        .into_iter()
        .filter(|op| matches!(op, DrawOp::Color(_)))
        .collect();
    assert_eq!(colors, vec![DrawOp::Color(Color::White); 6]);
}

#[test]
fn entry_row_with_refs_and_long_author() {
    let entry = LogEntry {
        author: String::from("Bartholomew Fitzgerald III"),
        refs: String::from("HEAD -> main"),
        ..sample()
    };
    let mut drawer = Drawer::new((80, 24));
    entry.draw(&mut drawer, false, false);
    let ops = drawer.into_ops();
    assert_eq!(ops[7], text("Bartholomew Fitzge "));
    assert_eq!(ops[9], text("(HEAD -> main) "));
    // 2 + 8 + 11 + 19 + 15 = 55 columns of summary leave 25 of 80
    assert_eq!(ops[11], text("Fix the parser"));
}

#[test]
fn entry_row_cuts_the_message_to_the_remaining_width() {
    // the summary takes 2 + 8 + 11 + 6 = 27 columns
    let mut drawer = Drawer::new((32, 24));
    assert_eq!(sample().draw(&mut drawer, false, false), 1);
    assert_eq!(drawer.into_ops()[11], text("Fix t"));

    let mut drawer = Drawer::new((27, 24));
    assert_eq!(sample().draw(&mut drawer, false, false), 1);
    assert_eq!(drawer.into_ops().len(), 11);

    let mut drawer = Drawer::new((3, 24));
    assert_eq!(sample().draw(&mut drawer, false, false), 1);
    assert_eq!(drawer.into_ops().len(), 11);
}

#[test]
fn entry_row_without_message() {
    let entry = LogEntry { message: String::new(), ..sample() };
    let mut drawer = Drawer::new((80, 24));
    assert_eq!(entry.draw(&mut drawer, false, false), 1);
    assert_eq!(drawer.into_ops().len(), 11);
    let mut drawer = Drawer::new((80, 24));
    assert_eq!(entry.draw(&mut drawer, false, true), 1);
    assert_eq!(drawer.into_ops().len(), 12);
}

#[test]
fn entry_row_in_full() {
    let mut drawer = Drawer::new((80, 24));
    let rows = sample().draw(&mut drawer, true, true);
    assert_eq!(rows, 4);
    let ops = drawer.into_ops();
    assert_eq!(
        ops[11..],
        [
            DrawOp::NextLine,
            text("Fix the parser"),
            DrawOp::NextLine,
            text(""),
            DrawOp::NextLine,
            text("It lost lines."),
        ]
    );
}

#[test]
fn entry_rows_count_wrapped_lines() {
    let with_message = |message: &str| LogEntry { message: String::from(message), ..sample() };
    let rows = |message: &str, width: u16| {
        let mut drawer = Drawer::new((width, 24));
        with_message(message).draw(&mut drawer, false, true)
    };
    assert_eq!(rows("abcdefghij", 4), 4);
    assert_eq!(rows("abcd", 4), 2);
    assert_eq!(rows("abcde", 4), 3);
    assert_eq!(rows("abcde\nxy", 2), 5);
    assert_eq!(rows("abc", 0), 5);
    assert_eq!(rows("a\n\nb\n", 10), 4);
}

#[test]
fn wrapped_row_count_formula() {
    assert_eq!(wrapped_row_count(0, 10), 0);
    assert_eq!(wrapped_row_count(0, 0), 0);
    assert_eq!(wrapped_row_count(1, 10), 0);
    assert_eq!(wrapped_row_count(10, 10), 0);
    assert_eq!(wrapped_row_count(11, 10), 1);
    assert_eq!(wrapped_row_count(20, 10), 1);
    assert_eq!(wrapped_row_count(21, 10), 2);
    assert_eq!(wrapped_row_count(5, 1), 4);
    assert_eq!(wrapped_row_count(5, 0), 5);
}
