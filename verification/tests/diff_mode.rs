use vcs_modes::mode::diff::Mode;
use vcs_modes::mode::diff::ParseError;
use vcs_modes::mode::diff::ParseStateKind;
use vcs_modes::mode::diff::Response;
use vcs_modes::mode::diff::State;
use vcs_modes::mode::ModeChangeInfo;
use vcs_modes::mode::ModeContext;
use vcs_modes::mode::ModeKind;
use vcs_modes::mode::ModeResponse;
use vcs_modes::mode::ModeStatus;
use vcs_modes::mode::ModeTrait;
use vcs_modes::platform::Key;
use vcs_modes::ui::DrawOp;
use vcs_modes::ui::Drawer;

const DIFF: &str = "diff --git a/f b/f\n--- a/f\n+++ b/f\n@@ -1,3 +1,3 @@ fn f()\n a\n-b\n+c\n d\n";
const MARKUP: &str =
    "@@@L\n@@@HModified: f\n@@@L\n@@@N@--- f:Line 1 ---@\nfn f()\n a\n-b\n+c\n d\n";

fn ctx() -> ModeContext {
    ModeContext { viewport_size: (80, 6) }
}

fn diff(text: &str) -> ModeResponse {
    ModeResponse::Diff(Response::Refresh(String::from(text)))
}

fn entered() -> Mode {
    let mut mode = Mode::new();
    assert_eq!(mode.on_enter(&ctx(), ModeChangeInfo::new(ModeKind::RevisionDetails)), None);
    mode
}

#[test]
fn new_diff_mode_is_idle() {
    let mode = Mode::default();
    assert!(!mode.is_waiting_response());
    assert_eq!(mode.output().text(), "");
    assert_eq!(mode.from(), ModeKind::Log);
    assert_eq!(State::default(), State::Idle);
}

#[test]
fn diff_on_enter_waits_and_remembers_where_it_came_from() {
    let mode = entered();
    assert!(mode.is_waiting_response());
    assert_eq!(mode.from(), ModeKind::RevisionDetails);
    assert_eq!(mode.output().text(), "");
}

#[test]
fn diff_on_enter_while_waiting_changes_nothing() {
    let mut mode = entered();
    assert_eq!(mode.on_enter(&ctx(), ModeChangeInfo::new(ModeKind::Log)), None);
    assert!(mode.is_waiting_response());
    assert_eq!(mode.from(), ModeKind::RevisionDetails);
}

#[test]
fn diff_on_enter_clears_the_output() {
    let mut mode = entered();
    assert_eq!(mode.on_response(&ctx(), diff(DIFF)), Ok(()));
    assert_eq!(mode.output().text(), MARKUP);
    assert_eq!(mode.on_enter(&ctx(), ModeChangeInfo::new(ModeKind::Log)), None);
    assert_eq!(mode.output().text(), "");
    assert_eq!(mode.from(), ModeKind::Log);
    assert!(mode.is_waiting_response());
}

#[test]
fn diff_response_is_formatted_into_the_output() {
    let mut mode = entered();
    assert_eq!(mode.on_response(&ctx(), diff(DIFF)), Ok(()));
    assert!(!mode.is_waiting_response());
    assert_eq!(mode.output().text(), MARKUP);
    assert_eq!(mode.output().line_count(), 9);
    assert_eq!(mode.output().scroll(), 0);
}

#[test]
fn diff_response_on_an_idle_mode_is_taken_too() {
    let mut mode = Mode::new();
    assert_eq!(mode.on_response(&ctx(), diff(DIFF)), Ok(()));
    assert!(!mode.is_waiting_response());
    assert_eq!(mode.output().text(), MARKUP);
}

#[test]
fn malformed_diff_is_reported_and_leaves_the_output() {
    let mut mode = entered();
    assert_eq!(mode.on_response(&ctx(), diff(DIFF)), Ok(()));
    assert_eq!(
        mode.on_response(&ctx(), diff("no diff at all\n")),
        Err(ParseError::InvalidTransition(ParseStateKind::Start))
    );
    assert!(!mode.is_waiting_response());
    assert_eq!(mode.output().text(), MARKUP);

    let mut mode = entered();
    assert_eq!(
        mode.on_response(&ctx(), diff("diff --git a/f b/f\n--- a/f\n+++ b/f\nbad\n")),
        Err(ParseError::InvalidTransition(ParseStateKind::FileEnd))
    );
    assert!(!mode.is_waiting_response());
    assert_eq!(mode.output().text(), "");
}

#[test]
fn diff_keys_scroll_an_idle_mode() {
    let mut mode = entered();
    assert_eq!(mode.on_response(&ctx(), diff(DIFF)), Ok(()));
    // nine lines on four rows: the scroll offset ends at five
    assert_eq!(mode.on_key(&ctx(), Key::Down), ModeStatus::settled(false));
    assert_eq!(mode.output().scroll(), 1);
    mode.on_key(&ctx(), Key::PageDown);
    assert_eq!(mode.output().scroll(), 3);
    mode.on_key(&ctx(), Key::PageDown);
    assert_eq!(mode.output().scroll(), 5);
    mode.on_key(&ctx(), Key::Down);
    assert_eq!(mode.output().scroll(), 5);
    mode.on_key(&ctx(), Key::Up);
    assert_eq!(mode.output().scroll(), 4);
    mode.on_key(&ctx(), Key::Home);
    assert_eq!(mode.output().scroll(), 0);
    mode.on_key(&ctx(), Key::End);
    assert_eq!(mode.output().scroll(), 5);
    mode.on_key(&ctx(), Key::PageUp);
    assert_eq!(mode.output().scroll(), 3);
    mode.on_key(&ctx(), Key::Char('x'));
    assert_eq!(mode.output().scroll(), 3);
}

#[test]
fn diff_keys_do_nothing_while_waiting() {
    let mut mode = entered();
    assert_eq!(mode.on_response(&ctx(), diff(DIFF)), Ok(()));
    mode.on_key(&ctx(), Key::Down);
    assert_eq!(mode.on_enter(&ctx(), ModeChangeInfo::new(ModeKind::Log)), None);
    assert_eq!(mode.on_key(&ctx(), Key::Down), ModeStatus::settled(false));
    assert_eq!(mode.output().scroll(), 0);
    assert!(mode.is_waiting_response());
}

#[test]
fn diff_keys_do_nothing_on_a_single_line() {
    let mut mode = Mode::new();
    assert_eq!(mode.on_key(&ctx(), Key::Down), ModeStatus::settled(false));
    assert_eq!(mode.output().scroll(), 0);
}

#[test]
fn diff_header() {
    assert_eq!(Mode::new().header(), ("details", "", "[Left]back [arrows]move"));
}

#[test]
fn diff_draw_shows_the_markup() {
    let mut drawer = Drawer::new((80, 24));
    Mode::new().draw(&mut drawer);
    assert_eq!(drawer.into_ops(), vec![DrawOp::DiffFormat]);
}
