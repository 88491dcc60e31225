//! The log screen: a list of revisions that grows page by page, narrowed
//! by a filter, with the commands that act on the selected revision.
//!
//! The screen is idle or waits for the response of one command. The fetch
//! of the next page is the exception: it is asked for whenever a key leaves
//! the cursor on the last loaded entry of an idle screen, and it does not
//! make the screen wait, so that scrolling stays responsive. A page fetch
//! and a command can therefore be in flight together, and their responses
//! come in whatever order the backend finishes them. Each response is
//! merged as it arrives.

use crate::backend::entries_view;
use crate::backend::BackendResult;
use crate::backend::LogEntry;
use crate::backend::LogEntryView;
use crate::mode::available_height;
use crate::mode::diff::ParseError;
use crate::mode::filter::typed;
use crate::mode::filter::visible_entries;
use crate::mode::select::moved_cursor;
use crate::mode::select::saturated;
use crate::mode::select::scroll_to;
use crate::mode::Command;
use crate::mode::CommandView;
use crate::mode::Filter;
use crate::mode::FilterView;
use crate::mode::ModeChange;
use crate::mode::ModeChangeInfo;
use crate::mode::ModeChangeInfoView;
use crate::mode::ModeChangeView;
use crate::mode::ModeContext;
use crate::mode::ModeKind;
use crate::mode::ModeResponse;
use crate::mode::ModeStatus;
use crate::mode::ModeStatusView;
use crate::mode::ModeTrait;
use crate::mode::Output;
use crate::mode::OutputView;
use crate::mode::Request;
use crate::mode::RequestView;
use crate::mode::SelectMenu;
use crate::platform::Key;
use crate::text::chars_of;
use crate::text::lines;
use crate::text::split_lines;
use crate::text::string_of;
use crate::text::strings_view;
use crate::ui::Color;
use crate::ui::DrawOpView;
use crate::ui::Drawer;
use crate::ui::DrawerView;
use crate::ui::filter_line_count;
use vstd::pervasive::unreached;
use vstd::prelude::*;

verus! {

// ---------------------------------------------------------------------------
// One row of the list
// ---------------------------------------------------------------------------

/// The most characters of an author's name that a row shows.
pub const MAX_AUTHOR_CHAR_COUNT: usize = 18;

/// The color of a part of a row: white on the hovered row, its own
/// elsewhere.
pub open spec fn tint(color: Color, hovered: bool) -> Color {
    if hovered {
        Color::White
    } else {
        color
    }
}

/// The first `max` characters of `s`; all of `s` where it has no more.
pub open spec fn truncated(s: Seq<char>, max: nat) -> Seq<char> {
    if s.len() > max {
        s.take(max as int)
    } else {
        s
    }
}

/// The refs of an entry as a row shows them: in parentheses and followed
/// by a space, or nothing where the entry has none.
pub open spec fn shown_refs(refs: Seq<char>) -> Seq<char> {
    if refs.len() == 0 {
        Seq::empty()
    } else {
        "("@ + refs + ") "@
    }
}

/// The columns that the summary of an entry takes before its message:
/// graph, hash, date and author, each followed by a space, and the refs.
pub open spec fn summary_width(entry: LogEntryView) -> nat {
    entry.graph.len() + 1 + entry.hash.len() + 1 + entry.date.len() + 1 + truncated(
        entry.author,
        MAX_AUTHOR_CHAR_COUNT as nat,
    ).len() + 1 + if entry.refs.len() == 0 {
        0
    } else {
        entry.refs.len() + 3
    }
}

/// The summary of an entry, part by part, each in its color.
pub open spec fn summary_ops(entry: LogEntryView, hovered: bool) -> Seq<DrawOpView> {
    seq![
        DrawOpView::Color(tint(Color::White, hovered)),
        DrawOpView::Text(entry.graph + " "@),
        DrawOpView::Color(tint(Color::DarkYellow, hovered)),
        DrawOpView::Text(entry.hash + " "@),
        DrawOpView::Color(tint(Color::DarkBlue, hovered)),
        DrawOpView::Text(entry.date + " "@),
        DrawOpView::Color(tint(Color::DarkGreen, hovered)),
        DrawOpView::Text(truncated(entry.author, MAX_AUTHOR_CHAR_COUNT as nat) + " "@),
        DrawOpView::Color(tint(Color::DarkRed, hovered)),
        DrawOpView::Text(shown_refs(entry.refs)),
        DrawOpView::Color(tint(Color::White, hovered)),
    ]
}

/// The first line of `message`; empty where it has none.
pub open spec fn first_line(message: Seq<char>) -> Seq<char> {
    if split_lines(message).len() > 0 {
        split_lines(message)[0]
    } else {
        Seq::empty()
    }
}

/// The lines of the message that a row shows. In full, all of them. Else
/// the first line, cut to the columns that the summary leaves of `width`,
/// and no line at all where nothing is left of it.
pub open spec fn shown_lines(entry: LogEntryView, width: nat, full: bool) -> Seq<Seq<char>> {
    if full {
        split_lines(entry.message)
    } else {
        let room = if width >= summary_width(entry) {
            (width - summary_width(entry)) as nat
        } else {
            0
        };
        let line = truncated(first_line(entry.message), room);
        if line.len() == 0 {
            Seq::empty()
        } else {
            seq![line]
        }
    }
}

/// Drawing `lines` one below the other, starting at the cursor.
pub open spec fn message_ops(lines: Seq<Seq<char>>) -> Seq<DrawOpView>
    decreases lines.len(),
{
    if lines.len() == 0 {
        Seq::empty()
    } else if lines.len() == 1 {
        seq![DrawOpView::Text(lines[0])]
    } else {
        message_ops(lines.drop_last()) + seq![DrawOpView::NextLine, DrawOpView::Text(lines.last())]
    }
}

/// Drawing one entry: its summary, then its message, on a row of its own
/// where it is shown in full.
pub open spec fn entry_ops(entry: LogEntryView, width: nat, hovered: bool, full: bool) -> Seq<
    DrawOpView,
> {
    summary_ops(entry, hovered) + if full {
        seq![DrawOpView::NextLine]
    } else {
        Seq::empty()
    } + message_ops(shown_lines(entry, width, full))
}

/// The rows that a line of `len` characters takes beyond its first on a
/// screen of `width` columns: one more each time a character is to be
/// printed on a row that already holds `width` of them.
pub open spec fn wrapped_rows(len: nat, width: nat) -> nat {
    if len == 0 {
        0
    } else if width == 0 {
        len
    } else {
        ((len - 1) / (width as int)) as nat
    }
}

/// The rows that `lines` take on a screen of `width` columns: for each
/// line one row and the rows it wraps to.
pub open spec fn message_rows(lines: Seq<Seq<char>>, width: nat) -> nat
    decreases lines.len(),
{
    if lines.len() == 0 {
        0
    } else {
        message_rows(lines.drop_last(), width) + wrapped_rows(lines.last().len(), width) + 1
    }
}

/// The rows that an entry takes: one for its summary and, in full, those
/// of its message.
pub open spec fn entry_height(entry: LogEntryView, width: nat, full: bool) -> nat {
    if full {
        1 + message_rows(split_lines(entry.message), width)
    } else {
        1
    }
}

/// `n`, held to what a `usize` can count.
pub open spec fn counted(n: nat) -> usize {
    if n > usize::MAX {
        usize::MAX
    } else {
        n as usize
    }
}

/// The rows that a line of `len` characters wraps to on `width` columns.
pub fn wrapped_row_count(len: usize, width: usize) -> (rows: usize)
    ensures
        rows == wrapped_rows(len as nat, width as nat),
{
    if len == 0 {
        0
    } else if width == 0 {
        len
    } else {
        (len - 1) / width
    }
}

/// The color of a part of a row: white on the hovered row, its own
/// elsewhere.
fn tinted(color: Color, hovered: bool) -> (shown: Color)
    ensures
        shown == tint(color, hovered),
{
    if hovered {
        Color::White
    } else {
        color
    }
}

/// The string `text` followed by a space.
fn spaced(text: &str) -> (out: String)
    ensures
        out@ == text@ + " "@,
{
    let mut out = text.to_owned();
    out.append(" ");
    out
}

impl LogEntry {
    /// Draws the summary of the entry, and returns the columns it takes,
    /// held to what a `usize` can count.
    fn draw_summary(&self, drawer: &mut Drawer, hovered: bool) -> (width: usize)
        ensures
            final(drawer)@ == (DrawerView {
                ops: old(drawer)@.ops + summary_ops(self@, hovered),
                ..old(drawer)@
            }),
            width == counted(summary_width(self@)),
    {
        let author_chars = chars_of(self.author.as_str());
        let author_len = if author_chars.len() > MAX_AUTHOR_CHAR_COUNT {
            MAX_AUTHOR_CHAR_COUNT
        } else {
            author_chars.len()
        };
        let mut author = string_of(author_chars.as_slice(), 0, author_len);
        proof {
            assert(author@ =~= truncated(self@.author, MAX_AUTHOR_CHAR_COUNT as nat));
        }
        author.append(" ");

        let mut refs = String::new();
        let mut refs_len: usize = 0;
        if !self.refs.as_str().is_empty() {
            refs.append("(");
            refs.append(self.refs.as_str());
            refs.append(") ");
            refs_len = self.refs.as_str().unicode_len().saturating_add(3);
        }
        proof {
            assert(refs@ =~= shown_refs(self@.refs));
        }

        drawer.color(Color::White);
        drawer.str(spaced(self.graph.as_str()).as_str());
        drawer.color(tinted(Color::DarkYellow, hovered));
        drawer.str(spaced(self.hash.as_str()).as_str());
        drawer.color(tinted(Color::DarkBlue, hovered));
        drawer.str(spaced(self.date.as_str()).as_str());
        drawer.color(tinted(Color::DarkGreen, hovered));
        drawer.str(author.as_str());
        drawer.color(tinted(Color::DarkRed, hovered));
        drawer.str(refs.as_str());
        drawer.color(Color::White);
        proof {
            assert(drawer@.ops =~= old(drawer)@.ops + summary_ops(self@, hovered));
        }

        self.graph.as_str().unicode_len().saturating_add(1).saturating_add(
            self.hash.as_str().unicode_len(),
        ).saturating_add(1).saturating_add(self.date.as_str().unicode_len()).saturating_add(
            1,
        ).saturating_add(author_len).saturating_add(1).saturating_add(refs_len)
    }

    /// Draws the lines of the message one below the other, and returns the
    /// rows they take, held to what a `usize` can count.
    fn draw_message(&self, drawer: &mut Drawer) -> (rows: usize)
        ensures
            final(drawer)@ == (DrawerView {
                ops: old(drawer)@.ops + message_ops(split_lines(self@.message)),
                ..old(drawer)@
            }),
            rows == counted(
                message_rows(split_lines(self@.message), old(drawer)@.viewport_size.0 as nat),
            ),
    {
        let width = drawer.viewport_size().0 as usize;
        let message_lines = lines(self.message.as_str());
        let ghost base = drawer@.ops;
        let ghost shown = split_lines(self@.message);
        let mut rows: usize = 0;
        let mut i: usize = 0;
        proof {
            assert(base + message_ops(shown.take(0)) =~= base);
        }
        while i < message_lines.len()
            invariant
                i <= message_lines@.len(),
                strings_view(message_lines@) == shown,
                base == old(drawer)@.ops,
                width == old(drawer)@.viewport_size.0,
                drawer@ == (DrawerView {
                    ops: base + message_ops(shown.take(i as int)),
                    ..old(drawer)@
                }),
                rows == counted(message_rows(shown.take(i as int), width as nat)),
            decreases message_lines@.len() - i,
        {
            let line = message_lines[i].as_str();
            proof {
                assert(line@ == shown[i as int]);
                assert(shown.take(i + 1).drop_last() =~= shown.take(i as int));
                assert(shown.take(i + 1).last() == line@);
            }
            if i > 0 {
                drawer.next_line();
            }
            drawer.str(line);
            proof {
                assert(drawer@.ops =~= base + message_ops(shown.take(i + 1)));
            }
            let wrapped = wrapped_row_count(line.unicode_len(), width);
            rows = rows.saturating_add(wrapped).saturating_add(1);
            i += 1;
        }
        proof {
            assert(shown.take(i as int) =~= shown);
        }
        rows
    }

    /// Draws the first line of the message, cut to `room` columns.
    fn draw_first_line(&self, drawer: &mut Drawer, room: usize)
        ensures
            final(drawer)@ == (DrawerView {
                ops: old(drawer)@.ops + (if truncated(
                    first_line(self@.message),
                    room as nat,
                ).len() == 0 {
                    Seq::<DrawOpView>::empty()
                } else {
                    seq![DrawOpView::Text(truncated(first_line(self@.message), room as nat))]
                }),
                ..old(drawer)@
            }),
    {
        let message_lines = lines(self.message.as_str());
        let first_chars = if message_lines.len() > 0 {
            chars_of(message_lines[0].as_str())
        } else {
            Vec::new()
        };
        proof {
            assert(first_chars@ =~= first_line(self@.message));
        }
        let shown_len = if first_chars.len() > room {
            room
        } else {
            first_chars.len()
        };
        let message = string_of(first_chars.as_slice(), 0, shown_len);
        proof {
            assert(message@ =~= truncated(first_line(self@.message), room as nat));
        }
        if !message.as_str().is_empty() {
            drawer.str(message.as_str());
            proof {
                assert(drawer@.ops =~= old(drawer)@.ops + seq![DrawOpView::Text(message@)]);
            }
        } else {
            proof {
                assert(drawer@.ops =~= old(drawer)@.ops + Seq::<DrawOpView>::empty());
            }
        }
    }

    /// Draws the entry as one row of the list, and returns the rows it
    /// takes, held to what a `usize` can count.
    pub fn draw(&self, drawer: &mut Drawer, hovered: bool, full: bool) -> (rows: usize)
        ensures
            final(drawer)@ == (DrawerView {
                ops: old(drawer)@.ops + entry_ops(
                    self@,
                    old(drawer)@.viewport_size.0 as nat,
                    hovered,
                    full,
                ),
                ..old(drawer)@
            }),
            rows == counted(entry_height(self@, old(drawer)@.viewport_size.0 as nat, full)),
    {
        let width = drawer.viewport_size().0 as usize;
        let total_chars = self.draw_summary(drawer, hovered);
        if full {
            drawer.next_line();
            let rows = self.draw_message(drawer);
            proof {
                assert(drawer@.ops =~= old(drawer)@.ops + entry_ops(
                    self@,
                    width as nat,
                    hovered,
                    full,
                ));
            }
            rows.saturating_add(1)
        } else {
            let available_width = width.saturating_sub(total_chars);
            self.draw_first_line(drawer, available_width);
            proof {
                assert(drawer@.ops =~= old(drawer)@.ops + entry_ops(
                    self@,
                    width as nat,
                    hovered,
                    full,
                ));
            }
            1
        }
    }
}

// ---------------------------------------------------------------------------
// The screen
// ---------------------------------------------------------------------------

/// What the backend sends to the log screen.
#[derive(Debug, PartialEq, Eq)]
pub enum Response {
    /// A page of the log: the index at which it starts, and its entries.
    /// Or the message of the backend call that failed.
    Refresh(BackendResult<(usize, Vec<LogEntry>)>),
}

impl View for Response {
    type V = Result<(usize, Seq<LogEntryView>), Seq<char>>;

    open spec fn view(&self) -> Result<(usize, Seq<LogEntryView>), Seq<char>> {
        match self {
            Response::Refresh(Ok((start, entries))) => Ok((*start, entries_view(entries@))),
            Response::Refresh(Err(message)) => Err(message@),
        }
    }
}

/// The backend work that the screen can wait for.
#[derive(Clone, Copy, Debug, PartialEq, Eq, Structural)]
pub enum WaitOperation {
    Refresh,
    Checkout,
    Merge,
    Fetch,
    Pull,
    Push,
    Reset,
}

/// Whether the screen waits, and for what.
#[derive(Clone, Copy, Debug, PartialEq, Eq, Structural)]
pub enum State {
    Idle,
    Waiting(WaitOperation),
}

impl Default for State {
    fn default() -> (state: Self)
        ensures
            state == State::Idle,
    {
        State::Idle
    }
}

/// The log screen.
#[derive(Clone, Debug)]
pub struct Mode {
    state: State,
    entries: Vec<LogEntry>,
    output: Output,
    select: SelectMenu,
    filter: Filter,
    show_full_hovered_message: bool,
}

/// What the log screen holds.
pub ghost struct ModeView {
    pub state: State,
    pub entries: Seq<LogEntryView>,
    pub output: OutputView,
    pub select: SelectMenu,
    pub filter: FilterView,
    pub show_full_hovered_message: bool,
}

/// The cursor is on a visible entry, or at zero where none is visible.
pub open spec fn cursor_in_range(mode: ModeView) -> bool {
    mode.select.cursor < mode.filter.visible.len() || (mode.filter.visible.len() == 0
        && mode.select.cursor == 0)
}

/// The filter lets through what its text matches among the entries, and
/// the cursor is in range.
pub open spec fn coherent(mode: ModeView) -> bool {
    mode.filter.visible == visible_entries(mode.entries, mode.filter.text) && cursor_in_range(mode)
}

/// `mode` with the filter run over its entries again and the cursor held
/// to what it lets through.
pub open spec fn refiltered(mode: ModeView) -> ModeView {
    let visible = visible_entries(mode.entries, mode.filter.text);
    ModeView {
        filter: FilterView { visible, ..mode.filter },
        select: SelectMenu {
            cursor: saturated(mode.select.cursor as nat, visible.len()) as usize,
            ..mode.select
        },
        ..mode
    }
}

/// The request for a page of the log after `command`, where there is one:
/// the first page, as many entries as fit on a screen of `rows` rows.
pub open spec fn refresh_request(command: Option<CommandView>, rows: u16) -> RequestView {
    RequestView { command, start: 0, limit: available_height(rows) as usize }
}

/// The screen after it was entered: as it was where it waits, else
/// waiting for a refresh, with its output cleared.
pub open spec fn entered(mode: ModeView) -> ModeView {
    if mode.state is Waiting {
        mode
    } else {
        refiltered(
            ModeView {
                state: State::Waiting(WaitOperation::Refresh),
                output: OutputView { text: Seq::empty(), scroll: 0 },
                show_full_hovered_message: false,
                ..mode
            },
        )
    }
}

/// The entries after a response: the page replaces what was held from its
/// start on, and a failure leaves none.
pub open spec fn merged(
    entries: Seq<LogEntryView>,
    response: Result<(usize, Seq<LogEntryView>), Seq<char>>,
) -> Seq<LogEntryView> {
    match response {
        Ok((start, page)) => if start < entries.len() {
            entries.take(start as int) + page
        } else {
            entries + page
        },
        Err(_) => Seq::empty(),
    }
}

/// The screen after a response: idle, with the page merged into its
/// entries, or with no entries and the error message as its output.
pub open spec fn responded(
    mode: ModeView,
    response: Result<(usize, Seq<LogEntryView>), Seq<char>>,
) -> ModeView {
    refiltered(
        ModeView {
            state: State::Idle,
            entries: merged(mode.entries, response),
            output: OutputView {
                text: match response {
                    Ok(_) => Seq::empty(),
                    Err(message) => message,
                },
                scroll: 0,
            },
            ..mode
        },
    )
}

/// The index of the entry under the cursor.
pub open spec fn current_entry(mode: ModeView) -> Option<int> {
    if mode.select.cursor < mode.filter.visible.len() {
        Some(mode.filter.visible[mode.select.cursor as int] as int)
    } else {
        None
    }
}

/// The hash of the entry under the cursor.
pub open spec fn current_hash(mode: ModeView) -> Option<Seq<char>> {
    match current_entry(mode) {
        Some(index) => if index < mode.entries.len() {
            Some(mode.entries[index].hash)
        } else {
            None
        },
        None => None,
    }
}

/// The command that `key` stands for, on the revision `hash` where it
/// needs one: `c` checks it out, `r` resets to it, `m` merges it; `R`
/// resets to the upstream, `f` fetches, `p` pulls, `P` pushes and `g`
/// pushes to the alternate remote.
pub open spec fn command_for(key: Key, hash: Option<Seq<char>>) -> Option<CommandView> {
    match key {
        Key::Char(c) => if c == 'c' {
            match hash {
                Some(revision) => Some(CommandView::Checkout(revision)),
                None => None,
            }
        } else if c == 'r' {
            match hash {
                Some(revision) => Some(CommandView::Reset(revision)),
                None => None,
            }
        } else if c == 'R' {
            Some(CommandView::Reset(Seq::empty()))
        } else if c == 'm' {
            match hash {
                Some(revision) => Some(CommandView::Merge(revision)),
                None => None,
            }
        } else if c == 'f' {
            Some(CommandView::Fetch)
        } else if c == 'p' {
            Some(CommandView::Pull)
        } else if c == 'P' {
            Some(CommandView::Push)
        } else if c == 'g' {
            Some(CommandView::PushToAlternateRemote)
        } else {
            None
        },
        _ => None,
    }
}

/// What the screen waits for while `command` runs.
pub open spec fn operation_of(command: CommandView) -> WaitOperation {
    match command {
        CommandView::Checkout(_) => WaitOperation::Checkout,
        CommandView::Merge(_) => WaitOperation::Merge,
        CommandView::Reset(_) => WaitOperation::Reset,
        CommandView::Fetch => WaitOperation::Fetch,
        CommandView::Pull => WaitOperation::Pull,
        CommandView::Push => WaitOperation::Push,
        CommandView::PushToAlternateRemote => WaitOperation::Push,
    }
}

/// `mode` with the cursor moved as `key` asks on a screen of `rows` rows.
pub open spec fn navigated(mode: ModeView, rows: u16, key: Key) -> ModeView {
    let height = available_height(rows);
    let cursor = moved_cursor(mode.select.cursor as nat, mode.filter.visible.len(), height, key);
    ModeView {
        select: SelectMenu {
            cursor: cursor as usize,
            scroll: scroll_to(mode.select.scroll as nat, cursor, height) as usize,
        },
        ..mode
    }
}

/// The screen after `key`. While the filter has the focus the key is typed
/// into it. Else the key moves the cursor, and then: `Tab` turns the full
/// message of the hovered row on or off, `Ctrl` with `f` gives the filter
/// the focus, and the key of a command makes an idle screen wait for it.
pub open spec fn keyed(mode: ModeView, rows: u16, key: Key) -> ModeView {
    if mode.filter.has_focus {
        refiltered(ModeView { filter: typed(mode.filter, key), ..mode })
    } else {
        let moved = navigated(mode, rows, key);
        ModeView {
            show_full_hovered_message: if key == Key::Tab {
                !moved.show_full_hovered_message
            } else {
                moved.show_full_hovered_message
            },
            filter: if key == Key::Ctrl('f') {
                FilterView { has_focus: true, ..moved.filter }
            } else {
                moved.filter
            },
            state: match command_for(key, current_hash(moved)) {
                Some(command) => if moved.state is Idle {
                    State::Waiting(operation_of(command))
                } else {
                    moved.state
                },
                None => moved.state,
            },
            ..moved
        }
    }
}

/// What `key` asks of the outer loop. Nothing while the filter has the
/// focus, but more input. Else, on an idle screen, the next page where the
/// cursor came to rest on the last entry, and the command of the key with
/// the refresh that follows it; and for `Enter`, the details of the
/// revision under the cursor.
pub open spec fn key_status(mode: ModeView, rows: u16, key: Key) -> ModeStatusView {
    if mode.filter.has_focus {
        ModeStatusView {
            pending_input: true,
            page_request: None,
            command_request: None,
            mode_change: None,
        }
    } else {
        let moved = navigated(mode, rows, key);
        ModeStatusView {
            pending_input: false,
            page_request: if moved.state is Idle && current_entry(moved) is Some && current_entry(
                moved,
            )->Some_0 + 1 == moved.entries.len() {
                Some(
                    RequestView {
                        command: None,
                        start: moved.entries.len() as usize,
                        limit: available_height(rows) as usize,
                    },
                )
            } else {
                None
            },
            command_request: match command_for(key, current_hash(moved)) {
                Some(command) => if moved.state is Idle {
                    Some(refresh_request(Some(command), rows))
                } else {
                    None
                },
                None => None,
            },
            mode_change: match current_hash(moved) {
                Some(hash) => if key == Key::Enter {
                    Some(
                        ModeChangeView {
                            to: ModeKind::RevisionDetails,
                            info: ModeChangeInfoView { from: ModeKind::Log, revision: Some(hash) },
                        },
                    )
                } else {
                    None
                },
                None => None,
            },
        }
    }
}

/// The title of the screen in `state`.
pub open spec fn title(state: State) -> Seq<char> {
    match state {
        State::Idle => "log"@,
        State::Waiting(WaitOperation::Refresh) => "log"@,
        State::Waiting(WaitOperation::Reset) => "reset"@,
        State::Waiting(WaitOperation::Checkout) => "checkout"@,
        State::Waiting(WaitOperation::Merge) => "merge"@,
        State::Waiting(WaitOperation::Fetch) => "fetch"@,
        State::Waiting(WaitOperation::Pull) => "pull"@,
        State::Waiting(WaitOperation::Push) => "push"@,
    }
}

/// Merging the same page twice is merging it once, for a page that starts
/// within the entries held or directly after them.
pub proof fn lemma_merge_idempotent(
    entries: Seq<LogEntryView>,
    start: usize,
    page: Seq<LogEntryView>,
)
    requires
        start <= entries.len(),
    ensures
        merged(merged(entries, Ok((start, page))), Ok((start, page))) == merged(
            entries,
            Ok((start, page)),
        ),
{
    let once = merged(entries, Ok((start, page)));
    assert(once =~= entries.take(start as int) + page);
    assert(once.take(start as int) =~= entries.take(start as int));
    assert(merged(once, Ok((start, page))) =~= once);
}

/// A page that starts at the end of the entries held is added to them, and
/// a page that starts at zero replaces them.
pub proof fn lemma_merge_appends_and_replaces(entries: Seq<LogEntryView>, page: Seq<LogEntryView>)
    requires
        entries.len() <= usize::MAX,
    ensures
        merged(entries, Ok((entries.len() as usize, page))) == entries + page,
        merged(entries, Ok((0usize, page))) == page,
{
    assert(entries.take(0) + page =~= page);
    assert(merged(entries, Ok((0usize, page))) =~= page);
}

/// After a response the screen is idle and its cursor is in range,
/// whatever the screen held before and whatever the response brought.
pub proof fn lemma_responded_in_range(
    mode: ModeView,
    response: Result<(usize, Seq<LogEntryView>), Seq<char>>,
)
    ensures
        responded(mode, response).state == State::Idle,
        coherent(responded(mode, response)),
        cursor_in_range(responded(mode, response)),
{
}

/// The command that `key` stands for, on the revision `hash`.
pub fn command_for_key(key: Key, hash: Option<&String>) -> (command: Option<Command>)
    ensures
        match command {
            Some(command) => Some(command@),
            None => None,
        } == command_for(
            key,
            match hash {
                Some(hash) => Some(hash@),
                None => None,
            },
        ),
{
    match key {
        Key::Char(c) => {
            if c == 'c' {
                match hash {
                    Some(revision) => Some(Command::Checkout(revision.clone())),
                    None => None,
                }
            } else if c == 'r' {
                match hash {
                    Some(revision) => Some(Command::Reset(revision.clone())),
                    None => None,
                }
            } else if c == 'R' {
                Some(Command::Reset(String::new()))
            } else if c == 'm' {
                match hash {
                    Some(revision) => Some(Command::Merge(revision.clone())),
                    None => None,
                }
            } else if c == 'f' {
                Some(Command::Fetch)
            } else if c == 'p' {
                Some(Command::Pull)
            } else if c == 'P' {
                Some(Command::Push)
            } else if c == 'g' {
                Some(Command::PushToAlternateRemote)
            } else {
                None
            }
        },
        _ => None,
    }
}

/// What the screen waits for while `command` runs.
pub fn wait_operation(command: &Command) -> (operation: WaitOperation)
    ensures
        operation == operation_of(command@),
{
    match command {
        Command::Checkout(_) => WaitOperation::Checkout,
        Command::Merge(_) => WaitOperation::Merge,
        Command::Reset(_) => WaitOperation::Reset,
        Command::Fetch => WaitOperation::Fetch,
        Command::Pull => WaitOperation::Pull,
        Command::Push => WaitOperation::Push,
        Command::PushToAlternateRemote => WaitOperation::Push,
    }
}

/// The request to run `command`, where there is one, and then to refresh
/// the log from its first page.
pub fn request(ctx: &ModeContext, command: Option<Command>) -> (request: Request)
    ensures
        request@ == refresh_request(
            match command {
                Some(command) => Some(command@),
                None => None,
            },
            ctx.viewport_size.1,
        ),
{
    Request { command, start: 0, limit: ctx.available_height() }
}

/// What the command of a request came to, for the worker that runs the
/// request: the response to send where the command failed, and nothing
/// where it succeeded and the page is to be fetched.
pub fn command_failure(outcome: BackendResult<()>) -> (response: Option<Response>)
    ensures
        match outcome {
            Ok(_) => response is None,
            Err(message) => response is Some && response->Some_0@ == Err::<
                (usize, Seq<LogEntryView>),
                Seq<char>,
            >(message@),
        },
{
    match outcome {
        Ok(_) => None,
        Err(message) => Some(Response::Refresh(Err(message))),
    }
}

impl View for Mode {
    type V = ModeView;

    closed spec fn view(&self) -> ModeView {
        ModeView {
            state: self.state,
            entries: entries_view(self.entries@),
            output: self.output@,
            select: self.select,
            filter: self.filter@,
            show_full_hovered_message: self.show_full_hovered_message,
        }
    }
}

impl Mode {
    /// An idle screen without entries.
    pub fn new() -> (mode: Self)
        ensures
            mode@ == (ModeView {
                state: State::Idle,
                entries: Seq::empty(),
                output: OutputView { text: Seq::empty(), scroll: 0 },
                select: SelectMenu { cursor: 0, scroll: 0 },
                filter: FilterView { has_focus: false, text: Seq::empty(), visible: Seq::empty() },
                show_full_hovered_message: false,
            }),
            coherent(mode@),
    {
        let mode = Mode {
            state: State::Idle,
            entries: Vec::new(),
            output: Output::new(),
            select: SelectMenu::new(),
            filter: Filter::new(),
            show_full_hovered_message: false,
        };
        assert(mode@.entries =~= Seq::<LogEntryView>::empty());
        mode
    }

    /// Whether the screen waits, and for what.
    pub fn state(&self) -> (state: State)
        ensures
            state == self@.state,
    {
        self.state
    }

    /// The entries held, oldest page first.
    pub fn entries(&self) -> (entries: &[LogEntry])
        ensures
            entries_view(entries@) == self@.entries,
    {
        self.entries.as_slice()
    }

    /// The output shown in place of the list, where it is not empty.
    pub fn output(&self) -> (output: &Output)
        ensures
            output@ == self@.output,
    {
        &self.output
    }

    /// Cursor and scroll offset of the list.
    pub fn select(&self) -> (select: &SelectMenu)
        ensures
            *select == self@.select,
    {
        &self.select
    }

    /// The filter of the list.
    pub fn filter(&self) -> (filter: &Filter)
        ensures
            filter@ == self@.filter,
    {
        &self.filter
    }

    /// Whether the hovered row shows its message in full.
    pub fn show_full_hovered_message(&self) -> (full: bool)
        ensures
            full == self@.show_full_hovered_message,
    {
        self.show_full_hovered_message
    }

    /// Runs the filter over the entries again and holds the cursor to what
    /// it lets through.
    fn refilter(&mut self)
        ensures
            final(self)@ == refiltered(old(self)@),
    {
        self.filter.filter(self.entries.as_slice());
        self.select.saturate_cursor(self.filter.visible_indices().len());
    }
}

impl Default for Mode {
    fn default() -> (mode: Self)
        ensures
            mode@.state == State::Idle,
            mode@.entries.len() == 0,
            coherent(mode@),
    {
        Mode::new()
    }
}

impl ModeTrait for Mode {
    open spec fn waiting(&self) -> bool {
        self@.state is Waiting
    }

    open spec fn consistent(&self) -> bool {
        coherent(self@)
    }

    open spec fn accepts(response: &ModeResponse) -> bool {
        response is Log
    }

    /// Enters the screen. A screen that waits stays as it is and asks for
    /// nothing. Any other clears its output and asks for the first page of
    /// the log, whatever it held.
    fn on_enter(&mut self, ctx: &ModeContext, info: ModeChangeInfo) -> (request: Option<Request>)
        ensures
            final(self)@ == entered(old(self)@),
            crate::mode::request_view(request) == if old(self)@.state is Waiting {
                None
            } else {
                Some(refresh_request(None, ctx.viewport_size.1))
            },
    {
        if let State::Waiting(_) = self.state {
            return None;
        }
        self.state = State::Waiting(WaitOperation::Refresh);
        self.output.set(String::new());
        self.show_full_hovered_message = false;
        self.refilter();
        Some(self::request(ctx, None))
    }

    /// Handles one key. While the filter has the focus, the key is typed
    /// into it and the list is filtered again. Else the key moves the
    /// cursor; an idle screen whose cursor then rests on the last entry
    /// asks for the next page, without waiting for it; `Enter` asks for the
    /// details of the revision under the cursor, `Tab` turns its full
    /// message on or off, `Ctrl` with `f` gives the filter the focus; and
    /// the key of a command makes an idle screen ask for the command and
    /// wait for it.
    fn on_key(&mut self, ctx: &ModeContext, key: Key) -> (status: ModeStatus)
        ensures
            final(self)@ == keyed(old(self)@, ctx.viewport_size.1, key),
            status@ == key_status(old(self)@, ctx.viewport_size.1, key),
    {
        if self.filter.has_focus() {
            self.filter.on_key(key);
            self.refilter();
            return ModeStatus::settled(true);
        }
        let available_height = ctx.available_height();
        self.select.on_key(self.filter.visible_indices().len(), available_height, key);
        let current_entry_index = self.filter.get_visible_index(self.select.cursor);
        let mut status = ModeStatus::settled(false);
        let idle = match self.state {
            State::Idle => true,
            _ => false,
        };
        let entries_len = self.entries.len();
        match current_entry_index {
            Some(index) => {
                if idle && index < entries_len && index + 1 == entries_len {
                    let next_page = Request {
                        command: None,
                        start: entries_len,
                        limit: available_height,
                    };
                    status.page_request = Some(next_page);
                }
            },
            None => {},
        }
        let current_hash = match current_entry_index {
            Some(index) => if index < entries_len {
                Some(&self.entries[index].hash)
            } else {
                None
            },
            None => None,
        };

        match key {
            Key::Enter => {
                match current_hash {
                    Some(hash) => {
                        let details = ModeChange {
                            to: ModeKind::RevisionDetails,
                            info: ModeChangeInfo::revision(ModeKind::Log, hash.clone()),
                        };
                        status.mode_change = Some(details);
                    },
                    None => {},
                }
            },
            Key::Tab => {
                self.show_full_hovered_message = !self.show_full_hovered_message;
            },
            Key::Ctrl('f') => {
                self.filter.enter();
            },
            _ => {
                if idle {
                    match command_for_key(key, current_hash) {
                        Some(command) => {
                            self.state = State::Waiting(wait_operation(&command));
                            status.command_request = Some(self::request(ctx, Some(command)));
                        },
                        None => {},
                    }
                }
            },
        }
        status
    }

    /// Takes the response that arrived: the screen is idle again, the page
    /// is merged into the entries, or a failure clears them and shows its
    /// message, and the filter and the cursor follow.
    fn on_response(&mut self, ctx: &ModeContext, response: ModeResponse) -> (result: Result<
        (),
        ParseError,
    >)
        ensures
            result is Ok,
            response matches ModeResponse::Log(refresh) && final(self)@ == responded(
                old(self)@,
                refresh@,
            ),
    {
        match response {
            ModeResponse::Log(Response::Refresh(result)) => {
                self.output.set(String::new());
                if let State::Waiting(_) = self.state {
                    self.state = State::Idle;
                }
                match result {
                    Ok((start_index, mut entries)) => {
                        self.entries.truncate(start_index);
                        self.entries.append(&mut entries);
                    },
                    Err(error) => {
                        self.entries.clear();
                        self.output.set(error);
                    },
                }
                proof {
                    assert(entries_view(self.entries@) =~= merged(
                        old(self)@.entries,
                        Response::Refresh(result)@,
                    ));
                }
                self.refilter();
            },
            ModeResponse::Diff(_) => unreached(),
        }
        Ok(())
    }

    fn is_waiting_response(&self) -> (waiting: bool) {
        match self.state {
            State::Idle => false,
            State::Waiting(_) => true,
        }
    }

    fn header(&self) -> (header: (&'static str, &'static str, &'static str))
        ensures
            header.0@ == title(self@.state),
            header.1@
                == "[c]checkout [enter]details [f]fetch [p]pull [P]push [g]gerrit [r]reset [R]reset to remote"@,
            header.2@ == "[tab]full message [Left]back [arrows]move [ctrl+f]filter"@,
    {
        let name = match self.state {
            State::Idle => "log",
            State::Waiting(WaitOperation::Refresh) => "log",
            State::Waiting(WaitOperation::Reset) => "reset",
            State::Waiting(WaitOperation::Checkout) => "checkout",
            State::Waiting(WaitOperation::Merge) => "merge",
            State::Waiting(WaitOperation::Fetch) => "fetch",
            State::Waiting(WaitOperation::Pull) => "pull",
            State::Waiting(WaitOperation::Push) => "push",
        };
        let left_help =
            "[c]checkout [enter]details [f]fetch [p]pull [P]push [g]gerrit [r]reset [R]reset to remote";
        let right_help = "[tab]full message [Left]back [arrows]move [ctrl+f]filter";
        (name, left_help, right_help)
    }

    /// Draws the filter line, and below it the list of entries, or the
    /// output in its place where the output is not empty.
    fn draw(&self, drawer: &mut Drawer)
        ensures
            final(drawer)@ == (DrawerView {
                ops: old(drawer)@.ops + (if filter_line_count(
                    self@.filter.has_focus,
                    self@.filter.text,
                ) == 0 {
                    Seq::<DrawOpView>::empty()
                } else {
                    seq![DrawOpView::Filter]
                }) + seq![
                    if self@.output.text.len() == 0 {
                        DrawOpView::SelectMenu {
                            header_height: filter_line_count(
                                self@.filter.has_focus,
                                self@.filter.text,
                            ) as usize,
                            show_full_hovered_message: self@.show_full_hovered_message,
                        }
                    } else {
                        DrawOpView::Output
                    },
                ],
                ..old(drawer)@
            }),
    {
        let filter_line_count = drawer.filter(&self.filter);
        if self.output.text().is_empty() {
            drawer.select_menu(filter_line_count, self.show_full_hovered_message);
        } else {
            drawer.output();
        }
        proof {
            assert(drawer@.ops =~= old(drawer)@.ops + (if filter_line_count == 0 {
                Seq::<DrawOpView>::empty()
            } else {
                seq![DrawOpView::Filter]
            }) + seq![
                if self@.output.text.len() == 0 {
                    DrawOpView::SelectMenu {
                        header_height: filter_line_count,
                        show_full_hovered_message: self@.show_full_hovered_message,
                    }
                } else {
                    DrawOpView::Output
                },
            ]);
        }
    }
}

} // verus!
