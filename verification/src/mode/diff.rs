//! The diff screen, and the parser that turns unified diff text into the
//! markup that the screen displays.
//!
//! The parser reads the text line by line. Each line is classified into a
//! `ParseEvent`, the event moves the `ParseState`, and the state just
//! entered says what the line adds to the `FilesDiff` under construction.
//! A line for which the state has no transition ends the parse with a
//! `ParseError`.

use crate::mode::ModeChangeInfo;
use crate::mode::ModeContext;
use crate::mode::ModeKind;
use crate::mode::ModeResponse;
use crate::mode::ModeStatus;
use crate::mode::ModeStatusView;
use crate::mode::ModeTrait;
use crate::mode::Output;
use crate::mode::OutputView;
use crate::mode::Request;
use crate::mode::output::scrolled;
use crate::platform::Key;
use crate::text::chars_of;
use crate::text::decimal;
use crate::text::find;
use crate::text::find_in;
use crate::text::lines;
use crate::text::parse_number;
use crate::text::parse_u32;
use crate::text::push_decimal;
use crate::text::split_lines;
use crate::text::starts_with;
use crate::text::string_of;
use crate::text::strings_view;
use crate::ui::Drawer;
use crate::ui::DrawerView;
use crate::ui::DrawOpView;
use vstd::pervasive::unreached;
use vstd::prelude::*;
use vstd::slice::slice_subrange;

verus! {

// ---------------------------------------------------------------------------
// The document
// ---------------------------------------------------------------------------

/// Starts the line that brackets a file header.
pub const DIFF_FORMAT_FILE_HEADER_LINE: &'static str = "@@@L";

/// Starts the line that names a file and its mode.
pub const DIFF_FORMAT_FILE_HEADER_CONTENT: &'static str = "@@@H";

/// Starts the line that introduces a hunk.
pub const DIFF_FORMAT_LINE_HEADER: &'static str = "@@@N";

/// What became of a file.
#[derive(Clone, Copy, Debug, PartialEq, Eq, Structural)]
pub enum FileMode {
    Modified,
    Deleted,
}

/// The name of `mode` in the markup.
pub open spec fn mode_name(mode: FileMode) -> Seq<char> {
    match mode {
        FileMode::Modified => "Modified"@,
        FileMode::Deleted => "Deleted"@,
    }
}

impl FileMode {
    /// The name of the mode in the markup.
    pub fn name(&self) -> (name: &'static str)
        ensures
            name@ == mode_name(*self),
    {
        match self {
            FileMode::Modified => "Modified",
            FileMode::Deleted => "Deleted",
        }
    }
}

/// One hunk: the line of the new file at which it starts, zero where the
/// hunk marker gives none, and the text gathered for it.
#[derive(Debug)]
pub struct LineDiff {
    line_number: u32,
    text: String,
}

/// What a `LineDiff` holds.
pub ghost struct LineDiffView {
    pub line_number: u32,
    pub text: Seq<char>,
}

impl View for LineDiff {
    type V = LineDiffView;

    closed spec fn view(&self) -> LineDiffView {
        LineDiffView { line_number: self.line_number, text: self.text@ }
    }
}

impl LineDiff {
    /// A hunk that starts at `line_number`, without text.
    pub fn new(line_number: u32) -> (line: Self)
        ensures
            line@ == (LineDiffView { line_number, text: Seq::empty() }),
    {
        LineDiff { line_number, text: String::new() }
    }
}

/// One file of a diff, with its hunks in the order they were read.
#[derive(Debug)]
pub struct FileDiff {
    filename: String,
    mode: FileMode,
    lines: Vec<LineDiff>,
}

/// What a `FileDiff` holds.
pub ghost struct FileDiffView {
    pub filename: Seq<char>,
    pub mode: FileMode,
    pub lines: Seq<LineDiffView>,
}

impl View for FileDiff {
    type V = FileDiffView;

    closed spec fn view(&self) -> FileDiffView {
        FileDiffView {
            filename: self.filename@,
            mode: self.mode,
            lines: self.lines@.map_values(|line: LineDiff| line@),
        }
    }
}

impl FileDiff {
    /// A file without hunks.
    pub fn new(filename: String, mode: FileMode) -> (file: Self)
        ensures
            file@ == (FileDiffView { filename: filename@, mode, lines: Seq::empty() }),
    {
        let file = FileDiff { filename, mode, lines: Vec::new() };
        assert(file@.lines =~= Seq::<LineDiffView>::empty());
        file
    }

    /// Opens a hunk that starts at `line_number`.
    pub fn new_line(&mut self, line_number: u32)
        ensures
            final(self)@ == (FileDiffView {
                lines: old(self)@.lines.push(LineDiffView { line_number, text: Seq::empty() }),
                ..old(self)@
            }),
    {
        let line_diff = LineDiff::new(line_number);
        self.lines.push(line_diff);
        assert(self@.lines =~= old(self)@.lines.push(line_diff@));
    }
}

/// `doc` with a new file, without hunks, at its end.
pub open spec fn with_new_file(doc: Seq<FileDiffView>, filename: Seq<char>, mode: FileMode) -> Seq<
    FileDiffView,
> {
    doc.push(FileDiffView { filename, mode, lines: Seq::empty() })
}

/// `doc` with the mode of its last file replaced.
pub open spec fn with_file_mode(doc: Seq<FileDiffView>, mode: FileMode) -> Seq<FileDiffView> {
    doc.update(doc.len() - 1, FileDiffView { mode, ..doc.last() })
}

/// `doc` with a new hunk, without text, at the end of its last file.
pub open spec fn with_new_line(doc: Seq<FileDiffView>, line_number: u32) -> Seq<FileDiffView> {
    doc.update(
        doc.len() - 1,
        FileDiffView {
            lines: doc.last().lines.push(LineDiffView { line_number, text: Seq::empty() }),
            ..doc.last()
        },
    )
}

/// `doc` with `text` added to the last hunk of its last file.
pub open spec fn with_text(doc: Seq<FileDiffView>, text: Seq<char>) -> Seq<FileDiffView> {
    let file = doc.last();
    let line = file.lines.last();
    doc.update(
        doc.len() - 1,
        FileDiffView {
            lines: file.lines.update(
                file.lines.len() - 1,
                LineDiffView { text: line.text + text, ..line },
            ),
            ..file
        },
    )
}

/// `doc` holds a file.
pub open spec fn has_file(doc: Seq<FileDiffView>) -> bool {
    doc.len() > 0
}

/// The last file of `doc` holds a hunk.
pub open spec fn has_line(doc: Seq<FileDiffView>) -> bool {
    doc.len() > 0 && doc.last().lines.len() > 0
}

/// The markup of one hunk of the file `filename`: the line that introduces
/// it, then its text as it is.
pub open spec fn render_line(filename: Seq<char>, line: LineDiffView) -> Seq<char> {
    DIFF_FORMAT_LINE_HEADER@ + "@--- "@ + filename + ":Line "@ + decimal(line.line_number as nat) + " ---@\n"@
        + line.text
}

/// The markup of the hunks `lines` of the file `filename`, in their order.
pub open spec fn render_lines(filename: Seq<char>, lines: Seq<LineDiffView>) -> Seq<char>
    decreases lines.len(),
{
    if lines.len() == 0 {
        Seq::empty()
    } else {
        render_lines(filename, lines.drop_last()) + render_line(filename, lines.last())
    }
}

/// The markup of one file: the header block of three lines, which names
/// the mode and the file between two bracket lines, then the hunks.
pub open spec fn render_file(file: FileDiffView) -> Seq<char> {
    DIFF_FORMAT_FILE_HEADER_LINE@ + "\n"@ + DIFF_FORMAT_FILE_HEADER_CONTENT@ + mode_name(file.mode)
        + ": "@ + file.filename + "\n"@ + DIFF_FORMAT_FILE_HEADER_LINE@ + "\n"@ + render_lines(
        file.filename,
        file.lines,
    )
}

/// The markup of a document: that of its files, in their order.
pub open spec fn render(doc: Seq<FileDiffView>) -> Seq<char>
    decreases doc.len(),
{
    if doc.len() == 0 {
        Seq::empty()
    } else {
        render(doc.drop_last()) + render_file(doc.last())
    }
}

/// The files of a diff, in the order they were read. Files and hunks are
/// only ever added at the end, and mode and text only ever change in the
/// last file and its last hunk.
#[derive(Debug)]
pub struct FilesDiff {
    files: Vec<FileDiff>,
}

impl View for FilesDiff {
    type V = Seq<FileDiffView>;

    closed spec fn view(&self) -> Seq<FileDiffView> {
        self.files@.map_values(|file: FileDiff| file@)
    }
}

impl FilesDiff {
    /// A document without files.
    pub fn new() -> (doc: Self)
        ensures
            doc@ == Seq::<FileDiffView>::empty(),
    {
        let doc = FilesDiff { files: Vec::new() };
        assert(doc@ =~= Seq::<FileDiffView>::empty());
        doc
    }

    /// Adds a file without hunks.
    pub fn new_file(&mut self, filename: String, mode: FileMode)
        ensures
            final(self)@ == with_new_file(old(self)@, filename@, mode),
    {
        let file_diff = FileDiff::new(filename, mode);
        self.files.push(file_diff);
        assert(self@ =~= with_new_file(old(self)@, filename@, mode));
    }

    /// Replaces the mode of the last file.
    pub fn file_mode(&mut self, mode: FileMode)
        requires
            has_file(old(self)@),
        ensures
            final(self)@ == with_file_mode(old(self)@, mode),
    {
        let last = self.files.len() - 1;
        let file_diff = &mut self.files[last];
        file_diff.mode = mode;
        assert(self@ =~= with_file_mode(old(self)@, mode));
    }

    /// Opens a hunk that starts at `line_number` in the last file.
    pub fn new_line(&mut self, line_number: u32)
        requires
            has_file(old(self)@),
        ensures
            final(self)@ == with_new_line(old(self)@, line_number),
    {
        let last = self.files.len() - 1;
        let file_diff = &mut self.files[last];
        file_diff.new_line(line_number);
        assert(self@ =~= with_new_line(old(self)@, line_number));
    }

    /// Adds `text` to the last hunk of the last file.
    pub fn add_text(&mut self, text: &str)
        requires
            has_line(old(self)@),
        ensures
            final(self)@ == with_text(old(self)@, text@),
    {
        let last = self.files.len() - 1;
        let file_diff = &mut self.files[last];
        let ghost before = file_diff@;
        let last_line = file_diff.lines.len() - 1;
        let line_diff = &mut file_diff.lines[last_line];
        line_diff.text.append(text);
        assert(file_diff@.lines =~= before.lines.update(
            last_line as int,
            LineDiffView { text: before.lines.last().text + text@, ..before.lines.last() },
        ));
        assert(self@ =~= with_text(old(self)@, text@));
    }

    /// The markup of the document.
    pub fn output(&self) -> (text: String)
        ensures
            text@ == render(self@),
    {
        let mut text = String::new();
        let mut i: usize = 0;
        while i < self.files.len()
            invariant
                i <= self.files@.len(),
                text@ == render(self@.take(i as int)),
            decreases self.files@.len() - i,
        {
            let file_diff = &self.files[i];
            let ghost start = text@;
            text.append(DIFF_FORMAT_FILE_HEADER_LINE);
            text.append("\n");
            text.append(DIFF_FORMAT_FILE_HEADER_CONTENT);
            text.append(file_diff.mode.name());
            text.append(": ");
            text.append(file_diff.filename.as_str());
            text.append("\n");
            text.append(DIFF_FORMAT_FILE_HEADER_LINE);
            text.append("\n");
            let ghost header = text@;
            let mut j: usize = 0;
            while j < file_diff.lines.len()
                invariant
                    j <= file_diff.lines@.len(),
                    text@ == header + render_lines(file_diff@.filename, file_diff@.lines.take(j as int)),
                decreases file_diff.lines@.len() - j,
            {
                let line_diff = &file_diff.lines[j];
                let ghost done = text@;
                text.append(DIFF_FORMAT_LINE_HEADER);
                text.append("@--- ");
                text.append(file_diff.filename.as_str());
                text.append(":Line ");
                push_decimal(&mut text, line_diff.line_number);
                text.append(" ---@\n");
                text.append(line_diff.text.as_str());
                proof {
                    let shown = file_diff@.lines.take(j + 1);
                    assert(shown.drop_last() =~= file_diff@.lines.take(j as int));
                    assert(shown.last() == line_diff@);
                    assert(text@ =~= done + render_line(file_diff@.filename, line_diff@));
                    assert(text@ =~= header + render_lines(file_diff@.filename, shown));
                }
                j += 1;
            }
            proof {
                assert(file_diff@.lines.take(j as int) =~= file_diff@.lines);
                let shown = self@.take(i + 1);
                assert(shown.drop_last() =~= self@.take(i as int));
                assert(shown.last() == file_diff@);
                assert(header =~= start + (DIFF_FORMAT_FILE_HEADER_LINE@ + "\n"@
                    + DIFF_FORMAT_FILE_HEADER_CONTENT@ + mode_name(file_diff@.mode) + ": "@
                    + file_diff@.filename + "\n"@ + DIFF_FORMAT_FILE_HEADER_LINE@ + "\n"@));
                assert(text@ =~= start + render_file(file_diff@));
            }
            i += 1;
        }
        proof {
            assert(self@.take(i as int) =~= self@);
        }
        text
    }
}

// ---------------------------------------------------------------------------
// The parser
// ---------------------------------------------------------------------------

/// The states of the parser, without what they carry.
#[derive(Clone, Copy, Debug, PartialEq, Eq, Structural)]
pub enum ParseStateKind {
    Start,
    FileHeader,
    FileMode,
    FileContent,
    FileEnd,
    LineHeader,
    LineContent,
}

/// Why a diff could not be parsed.
#[derive(Clone, Copy, Debug, PartialEq, Eq, Structural)]
pub enum ParseError {
    /// A line that introduces a file names no file after ` b/`.
    MissingFileName,
    /// A hunk marker holds no ` +` before the range of the new file.
    MissingLineRange,
    /// The start of the new file's range in a hunk marker is no number of
    /// 32 bits.
    InvalidLineNumber,
    /// The parser was in this state, which has no transition for the line.
    InvalidTransition(ParseStateKind),
}

/// The error in words: what is wrong with the line, or the state that had
/// no transition for it.
pub open spec fn description(error: ParseError) -> Seq<char> {
    match error {
        ParseError::MissingFileName => "malformed diff: no file name after the file marker"@,
        ParseError::MissingLineRange => "malformed diff: no line range in the hunk marker"@,
        ParseError::InvalidLineNumber => "malformed diff: invalid line number in the hunk marker"@,
        ParseError::InvalidTransition(kind) => match kind {
            ParseStateKind::Start => "malformed diff: unexpected line in state Start"@,
            ParseStateKind::FileHeader => "malformed diff: unexpected line in state FileHeader"@,
            ParseStateKind::FileMode => "malformed diff: unexpected line in state FileMode"@,
            ParseStateKind::FileContent => "malformed diff: unexpected line in state FileContent"@,
            ParseStateKind::FileEnd => "malformed diff: unexpected line in state FileEnd"@,
            ParseStateKind::LineHeader => "malformed diff: unexpected line in state LineHeader"@,
            ParseStateKind::LineContent => "malformed diff: unexpected line in state LineContent"@,
        },
    }
}

impl ParseError {
    /// The error in words.
    pub fn describe(&self) -> (words: &'static str)
        ensures
            words@ == description(*self),
    {
        match self {
            ParseError::MissingFileName => "malformed diff: no file name after the file marker",
            ParseError::MissingLineRange => "malformed diff: no line range in the hunk marker",
            ParseError::InvalidLineNumber => "malformed diff: invalid line number in the hunk marker",
            ParseError::InvalidTransition(kind) => match kind {
                ParseStateKind::Start => "malformed diff: unexpected line in state Start",
                ParseStateKind::FileHeader => "malformed diff: unexpected line in state FileHeader",
                ParseStateKind::FileMode => "malformed diff: unexpected line in state FileMode",
                ParseStateKind::FileContent => "malformed diff: unexpected line in state FileContent",
                ParseStateKind::FileEnd => "malformed diff: unexpected line in state FileEnd",
                ParseStateKind::LineHeader => "malformed diff: unexpected line in state LineHeader",
                ParseStateKind::LineContent => "malformed diff: unexpected line in state LineContent",
            },
        }
    }
}

/// Where the parser stands after a line.
#[derive(Clone, Debug, PartialEq, Eq)]
pub enum ParseState {
    /// No line was read yet.
    Start,
    /// The line introduced the file of this name.
    FileHeader(String, FileMode),
    /// The line gave the mode of the file.
    FileMode(FileMode),
    /// The line belongs to the header of the file.
    FileContent,
    /// The line ended the header of the file.
    FileEnd,
    /// The line opened a hunk that starts at this line number.
    LineHeader(u32),
    /// The line belongs to the hunk.
    LineContent,
}

/// What a `ParseState` holds.
pub ghost enum ParseStateView {
    Start,
    FileHeader(Seq<char>, FileMode),
    FileMode(FileMode),
    FileContent,
    FileEnd,
    LineHeader(u32),
    LineContent,
}

impl View for ParseState {
    type V = ParseStateView;

    open spec fn view(&self) -> ParseStateView {
        match self {
            ParseState::Start => ParseStateView::Start,
            ParseState::FileHeader(filename, mode) => ParseStateView::FileHeader(filename@, *mode),
            ParseState::FileMode(mode) => ParseStateView::FileMode(*mode),
            ParseState::FileContent => ParseStateView::FileContent,
            ParseState::FileEnd => ParseStateView::FileEnd,
            ParseState::LineHeader(line_number) => ParseStateView::LineHeader(*line_number),
            ParseState::LineContent => ParseStateView::LineContent,
        }
    }
}

/// What a line means to the parser.
#[derive(Clone, Debug, PartialEq, Eq)]
pub enum ParseEvent {
    /// A new file starts, of this name.
    FileDiffStart(String, FileMode),
    /// The file has this mode.
    FileDiffMode(FileMode),
    /// The header of the file goes on.
    FileDiffContent,
    /// The header of the file ends.
    FileDiffEnd,
    /// A new hunk starts at this line number.
    LineDiffStart(u32),
    /// Ordinary content of the hunk.
    LineDiffContent,
}

/// What a `ParseEvent` holds.
pub ghost enum ParseEventView {
    FileDiffStart(Seq<char>, FileMode),
    FileDiffMode(FileMode),
    FileDiffContent,
    FileDiffEnd,
    LineDiffStart(u32),
    LineDiffContent,
}

impl View for ParseEvent {
    type V = ParseEventView;

    open spec fn view(&self) -> ParseEventView {
        match self {
            ParseEvent::FileDiffStart(filename, mode) => ParseEventView::FileDiffStart(
                filename@,
                *mode,
            ),
            ParseEvent::FileDiffMode(mode) => ParseEventView::FileDiffMode(*mode),
            ParseEvent::FileDiffContent => ParseEventView::FileDiffContent,
            ParseEvent::FileDiffEnd => ParseEventView::FileDiffEnd,
            ParseEvent::LineDiffStart(line_number) => ParseEventView::LineDiffStart(*line_number),
            ParseEvent::LineDiffContent => ParseEventView::LineDiffContent,
        }
    }
}

/// The state without what it carries.
pub open spec fn kind_of(state: ParseStateView) -> ParseStateKind {
    match state {
        ParseStateView::Start => ParseStateKind::Start,
        ParseStateView::FileHeader(_, _) => ParseStateKind::FileHeader,
        ParseStateView::FileMode(_) => ParseStateKind::FileMode,
        ParseStateView::FileContent => ParseStateKind::FileContent,
        ParseStateView::FileEnd => ParseStateKind::FileEnd,
        ParseStateView::LineHeader(_) => ParseStateKind::LineHeader,
        ParseStateView::LineContent => ParseStateKind::LineContent,
    }
}

/// What follows the first occurrence of `mark` in `line`.
pub open spec fn after_mark(line: Seq<char>, mark: Seq<char>) -> Option<Seq<char>> {
    match find(line, mark) {
        Some(pos) => Some(line.skip(pos + mark.len())),
        None => None,
    }
}

/// The range of the new file in a hunk marker. `rest` is what follows the
/// first ` +` of the marker; the range ends before the first space of it,
/// or with the line. What comes after the range, the closing `@@` and any
/// trailing context, is no part of it.
pub open spec fn range_token(rest: Seq<char>) -> Seq<char> {
    match find(rest, " "@) {
        Some(end) => rest.take(end),
        None => rest,
    }
}

/// The line number that a hunk marker gives for the new file. `rest` is
/// what follows the first ` +` of the marker. Where the range of the new
/// file holds a comma, the number before its first comma; where it holds
/// none, as the range of a single line does, zero.
pub open spec fn hunk_start(rest: Seq<char>) -> Result<u32, ParseError> {
    let range = range_token(rest);
    match find(range, ","@) {
        Some(comma) => match parse_u32(range.take(comma)) {
            Some(line_number) => Ok(line_number),
            None => Err(ParseError::InvalidLineNumber),
        },
        None => Ok(0u32),
    }
}

/// What `line` means in `state`. The markers at the start of a line decide
/// first, whatever the state; a line without a marker is read by the state.
pub open spec fn classify(state: ParseStateView, line: Seq<char>) -> Result<
    ParseEventView,
    ParseError,
> {
    if "diff --git"@.is_prefix_of(line) {
        match after_mark(line, " b/"@) {
            Some(filename) => Ok(ParseEventView::FileDiffStart(filename, FileMode::Modified)),
            None => Err(ParseError::MissingFileName),
        }
    } else if "---"@.is_prefix_of(line) {
        Ok(ParseEventView::FileDiffContent)
    } else if "+++"@.is_prefix_of(line) {
        Ok(ParseEventView::FileDiffEnd)
    } else if "@@ "@.is_prefix_of(line) {
        match after_mark(line, " +"@) {
            Some(range) => match hunk_start(range) {
                Ok(line_number) => Ok(ParseEventView::LineDiffStart(line_number)),
                Err(error) => Err(error),
            },
            None => Err(ParseError::MissingLineRange),
        }
    } else {
        match state {
            ParseStateView::FileHeader(_, _) => if "deleted"@.is_prefix_of(line) {
                Ok(ParseEventView::FileDiffMode(FileMode::Deleted))
            } else {
                Ok(ParseEventView::FileDiffContent)
            },
            ParseStateView::FileContent => Ok(ParseEventView::FileDiffContent),
            _ => Ok(ParseEventView::LineDiffContent),
        }
    }
}

/// The state that `event` leads to from `state`, or the error where `state`
/// has no transition for it.
pub open spec fn transition(state: ParseStateView, event: ParseEventView) -> Result<
    ParseStateView,
    ParseError,
> {
    match state {
        ParseStateView::Start => match event {
            ParseEventView::FileDiffStart(filename, mode) => Ok(
                ParseStateView::FileHeader(filename, mode),
            ),
            _ => Err(ParseError::InvalidTransition(ParseStateKind::Start)),
        },
        ParseStateView::FileHeader(_, _) => match event {
            ParseEventView::FileDiffMode(mode) => Ok(ParseStateView::FileMode(mode)),
            _ => Ok(ParseStateView::FileContent),
        },
        ParseStateView::FileMode(_) => Ok(ParseStateView::FileContent),
        ParseStateView::FileContent => match event {
            ParseEventView::FileDiffEnd => Ok(ParseStateView::FileEnd),
            _ => Ok(ParseStateView::FileContent),
        },
        ParseStateView::FileEnd => match event {
            ParseEventView::LineDiffStart(line_number) => Ok(
                ParseStateView::LineHeader(line_number),
            ),
            _ => Err(ParseError::InvalidTransition(ParseStateKind::FileEnd)),
        },
        ParseStateView::LineHeader(_) => match event {
            ParseEventView::LineDiffContent => Ok(ParseStateView::LineContent),
            _ => Err(ParseError::InvalidTransition(ParseStateKind::LineHeader)),
        },
        ParseStateView::LineContent => match event {
            ParseEventView::LineDiffContent => Ok(ParseStateView::LineContent),
            ParseEventView::FileDiffStart(filename, mode) => Ok(
                ParseStateView::FileHeader(filename, mode),
            ),
            ParseEventView::LineDiffStart(line_number) => Ok(
                ParseStateView::LineHeader(line_number),
            ),
            _ => Err(ParseError::InvalidTransition(ParseStateKind::LineContent)),
        },
    }
}

/// The state after `line` was read in `state`.
pub open spec fn step(state: ParseStateView, line: Seq<char>) -> Result<
    ParseStateView,
    ParseError,
> {
    match classify(state, line) {
        Ok(event) => transition(state, event),
        Err(error) => Err(error),
    }
}

/// What `line` adds to `doc` when it has led into `state`.
pub open spec fn accumulate(state: ParseStateView, line: Seq<char>, doc: Seq<FileDiffView>) -> Seq<
    FileDiffView,
> {
    match state {
        ParseStateView::FileHeader(filename, mode) => with_new_file(doc, filename, mode),
        ParseStateView::FileMode(mode) => with_file_mode(doc, mode),
        ParseStateView::LineHeader(line_number) => {
            let opened = with_new_line(doc, line_number);
            match after_mark(line, " @@ "@) {
                Some(context) => with_text(opened, context + "\n"@),
                None => opened,
            }
        },
        ParseStateView::LineContent => with_text(doc, line + "\n"@),
        _ => doc,
    }
}

/// `doc` holds what entering `state` changes: a file for a mode or a hunk,
/// a hunk for content.
pub open spec fn fits(state: ParseStateView, doc: Seq<FileDiffView>) -> bool {
    match state {
        ParseStateView::FileMode(_) => has_file(doc),
        ParseStateView::LineHeader(_) => has_file(doc),
        ParseStateView::LineContent => has_line(doc),
        _ => true,
    }
}

/// `doc` is as far as `state` says: empty before the first line, with a
/// file once one was introduced, and with a hunk in its last file once one
/// was opened there.
pub open spec fn tracks(state: ParseStateView, doc: Seq<FileDiffView>) -> bool {
    match state {
        ParseStateView::Start => doc.len() == 0,
        ParseStateView::LineHeader(_) => has_line(doc),
        ParseStateView::LineContent => has_line(doc),
        _ => has_file(doc),
    }
}

/// State and document after `lines` were read from the start, or the error
/// of the first line that could not be read.
pub open spec fn parse_lines(lines: Seq<Seq<char>>) -> Result<
    (ParseStateView, Seq<FileDiffView>),
    ParseError,
>
    decreases lines.len(),
{
    if lines.len() == 0 {
        Ok((ParseStateView::Start, Seq::empty()))
    } else {
        match parse_lines(lines.drop_last()) {
            Ok((state, doc)) => match step(state, lines.last()) {
                Ok(next) => Ok((next, accumulate(next, lines.last(), doc))),
                Err(error) => Err(error),
            },
            Err(error) => Err(error),
        }
    }
}

/// The markup of the diff `text`, or the error that ends its parse.
pub open spec fn formatted(text: Seq<char>) -> Result<Seq<char>, ParseError> {
    match parse_lines(split_lines(text)) {
        Ok((_, doc)) => Ok(render(doc)),
        Err(error) => Err(error),
    }
}

/// A transition that fails names the state the parser was in. Only the
/// states before a file, after the end of a file header, and inside a hunk
/// have lines they cannot take.
pub proof fn lemma_error_names_state(state: ParseStateView, event: ParseEventView)
    requires
        transition(state, event) is Err,
    ensures
        transition(state, event) == Err::<ParseStateView, ParseError>(
            ParseError::InvalidTransition(kind_of(state)),
        ),
        state is Start || state is FileEnd || state is LineHeader || state is LineContent,
{
}

/// A step from a state whose document is as far as the state says leads to
/// a state that the document fits, and to a document as far as that state
/// says.
pub proof fn lemma_step_tracks(state: ParseStateView, line: Seq<char>, doc: Seq<FileDiffView>)
    requires
        tracks(state, doc),
        step(state, line) is Ok,
    ensures
        fits(step(state, line)->Ok_0, doc),
        tracks(step(state, line)->Ok_0, accumulate(step(state, line)->Ok_0, line, doc)),
        !(step(state, line)->Ok_0 is Start),
{
}

/// A line only ever adds at the end of the document: the files before the
/// last stay as they are, and so do the hunks before the last hunk of the
/// last file, unless the line opens a new file.
pub proof fn lemma_accumulate_adds_at_the_end(
    state: ParseStateView,
    line: Seq<char>,
    doc: Seq<FileDiffView>,
)
    requires
        fits(state, doc),
    ensures
        accumulate(state, line, doc).len() >= doc.len(),
        forall|i: int| 0 <= i < doc.len() - 1 ==> accumulate(state, line, doc)[i] == doc[i],
        doc.len() > 0 ==> {
            let before = doc.last();
            let after = accumulate(state, line, doc)[doc.len() - 1];
            &&& after.filename == before.filename
            &&& after.lines.len() >= before.lines.len()
            &&& forall|j: int| 0 <= j < before.lines.len() - 1 ==> after.lines[j] == before.lines[j]
            &&& before.lines.len() > 0 ==> after.lines[before.lines.len() - 1].line_number
                == before.lines.last().line_number && before.lines.last().text.is_prefix_of(
                after.lines[before.lines.len() - 1].text,
            )
        },
{
}

/// After any lines that parse, the document is as far as the state says.
pub proof fn lemma_parse_tracks(lines: Seq<Seq<char>>)
    requires
        parse_lines(lines) is Ok,
    ensures
        tracks(parse_lines(lines)->Ok_0.0, parse_lines(lines)->Ok_0.1),
        lines.len() > 0 ==> parse_lines(lines)->Ok_0.1.len() > 0,
    decreases lines.len(),
{
    if lines.len() > 0 {
        lemma_parse_tracks(lines.drop_last());
        let (state, doc) = parse_lines(lines.drop_last())->Ok_0;
        lemma_step_tracks(state, lines.last(), doc);
    }
}

/// A parse that fails on some of the first lines fails with the same error
/// on all of them: no later line repairs it.
pub proof fn lemma_parse_error_stays(lines: Seq<Seq<char>>, count: int)
    requires
        0 <= count <= lines.len(),
        parse_lines(lines.take(count)) is Err,
    ensures
        parse_lines(lines) == parse_lines(lines.take(count)),
    decreases lines.len(),
{
    if count == lines.len() {
        assert(lines.take(count) =~= lines);
    } else {
        assert(lines.drop_last().take(count) =~= lines.take(count));
        lemma_parse_error_stays(lines.drop_last(), count);
    }
}

/// A diff whose first line does not introduce a file does not parse: it
/// gives an error, never an empty document.
pub proof fn lemma_first_line_opens_file(text: Seq<char>)
    requires
        split_lines(text).len() > 0,
        !"diff --git"@.is_prefix_of(split_lines(text)[0]),
    ensures
        formatted(text) is Err,
{
    let lines = split_lines(text);
    let first = lines.take(1);
    assert(first.drop_last() =~= Seq::<Seq<char>>::empty());
    assert(first.last() == lines[0]);
    assert(parse_lines(first.drop_last()) == Ok::<
        (ParseStateView, Seq<FileDiffView>),
        ParseError,
    >((ParseStateView::Start, Seq::empty())));
    assert(step(ParseStateView::Start, lines[0]) is Err);
    assert(parse_lines(first) is Err);
    lemma_parse_error_stays(lines, 1);
}

/// The view of a classified line.
pub open spec fn event_view(result: Result<ParseEvent, ParseError>) -> Result<
    ParseEventView,
    ParseError,
> {
    match result {
        Ok(event) => Ok(event@),
        Err(error) => Err(error),
    }
}

/// The view of a state reached.
pub open spec fn state_view(result: Result<ParseState, ParseError>) -> Result<
    ParseStateView,
    ParseError,
> {
    match result {
        Ok(state) => Ok(state@),
        Err(error) => Err(error),
    }
}

/// The view of a markup produced.
pub open spec fn markup_view(result: Result<String, ParseError>) -> Result<Seq<char>, ParseError> {
    match result {
        Ok(markup) => Ok(markup@),
        Err(error) => Err(error),
    }
}

/// Where what follows the first occurrence of `mark` in `text` starts.
fn find_after(text: &[char], mark: &str) -> (start: Option<usize>)
    ensures
        match start {
            Some(start) => start <= text@.len() && after_mark(text@, mark@) == Some(
                text@.skip(start as int),
            ),
            None => after_mark(text@, mark@) is None,
        },
{
    let mark_chars = chars_of(mark);
    match find_in(text, mark_chars.as_slice()) {
        Some(pos) => Some(pos + mark_chars.len()),
        None => None,
    }
}

/// Reads the line number of a hunk marker from `rest`, the characters
/// that follow its first ` +`.
fn read_hunk_start(rest: &[char]) -> (result: Result<u32, ParseError>)
    ensures
        result == hunk_start(rest@),
{
    let space_mark = chars_of(" ");
    let range = match find_in(rest, space_mark.as_slice()) {
        Some(end) => slice_subrange(rest, 0, end),
        None => rest,
    };
    proof {
        assert(range@ =~= range_token(rest@));
    }
    let comma_mark = chars_of(",");
    match find_in(range, comma_mark.as_slice()) {
        Some(comma) => {
            proof {
                assert(range@.take(comma as int) =~= range@.subrange(0, comma as int));
            }
            match parse_number(range, 0, comma) {
                Some(line_number) => Ok(line_number),
                None => Err(ParseError::InvalidLineNumber),
            }
        },
        None => Ok(0),
    }
}

impl ParseEvent {
    /// Classifies `line` as read in `state`.
    pub fn new(state: &ParseState, line: &str) -> (result: Result<ParseEvent, ParseError>)
        ensures
            event_view(result) == classify(state@, line@),
    {
        let chars = chars_of(line);
        let text = chars.as_slice();
        let n = text.len();
        if starts_with(text, chars_of("diff --git").as_slice()) {
            match find_after(text, " b/") {
                Some(start) => {
                    let filename = string_of(text, start, n);
                    proof {
                        assert(filename@ =~= line@.skip(start as int));
                    }
                    Ok(ParseEvent::FileDiffStart(filename, FileMode::Modified))
                },
                None => Err(ParseError::MissingFileName),
            }
        } else if starts_with(text, chars_of("---").as_slice()) {
            Ok(ParseEvent::FileDiffContent)
        } else if starts_with(text, chars_of("+++").as_slice()) {
            Ok(ParseEvent::FileDiffEnd)
        } else if starts_with(text, chars_of("@@ ").as_slice()) {
            match find_after(text, " +") {
                Some(start) => {
                    let range = slice_subrange(text, start, n);
                    proof {
                        assert(range@ =~= line@.skip(start as int));
                    }
                    match read_hunk_start(range) {
                        Ok(line_number) => Ok(ParseEvent::LineDiffStart(line_number)),
                        Err(error) => Err(error),
                    }
                },
                None => Err(ParseError::MissingLineRange),
            }
        } else {
            match state {
                ParseState::FileHeader(_, _) => {
                    if starts_with(text, chars_of("deleted").as_slice()) {
                        Ok(ParseEvent::FileDiffMode(FileMode::Deleted))
                    } else {
                        Ok(ParseEvent::FileDiffContent)
                    }
                },
                ParseState::FileContent => Ok(ParseEvent::FileDiffContent),
                _ => Ok(ParseEvent::LineDiffContent),
            }
        }
    }
}

impl ParseState {
    /// The state after `line`, or the error where the state has no
    /// transition for it. The state itself stays as it is.
    pub fn line(&mut self, line: &str) -> (result: Result<ParseState, ParseError>)
        ensures
            *final(self) == *old(self),
            state_view(result) == step(old(self)@, line@),
    {
        let parse_event = match ParseEvent::new(self, line) {
            Ok(event) => event,
            Err(error) => {
                return Err(error);
            },
        };
        match self {
            ParseState::Start => match parse_event {
                ParseEvent::FileDiffStart(filename, mode) => Ok(
                    ParseState::FileHeader(filename, mode),
                ),
                _ => Err(ParseError::InvalidTransition(ParseStateKind::Start)),
            },
            ParseState::FileHeader(_, _) => match parse_event {
                ParseEvent::FileDiffMode(mode) => Ok(ParseState::FileMode(mode)),
                _ => Ok(ParseState::FileContent),
            },
            ParseState::FileMode(_) => Ok(ParseState::FileContent),
            ParseState::FileContent => match parse_event {
                ParseEvent::FileDiffEnd => Ok(ParseState::FileEnd),
                _ => Ok(ParseState::FileContent),
            },
            ParseState::FileEnd => match parse_event {
                ParseEvent::LineDiffStart(line_number) => Ok(ParseState::LineHeader(line_number)),
                _ => Err(ParseError::InvalidTransition(ParseStateKind::FileEnd)),
            },
            ParseState::LineHeader(_) => match parse_event {
                ParseEvent::LineDiffContent => Ok(ParseState::LineContent),
                _ => Err(ParseError::InvalidTransition(ParseStateKind::LineHeader)),
            },
            ParseState::LineContent => match parse_event {
                ParseEvent::LineDiffContent => Ok(ParseState::LineContent),
                ParseEvent::FileDiffStart(filename, mode) => Ok(
                    ParseState::FileHeader(filename, mode),
                ),
                ParseEvent::LineDiffStart(line_number) => Ok(ParseState::LineHeader(line_number)),
                _ => Err(ParseError::InvalidTransition(ParseStateKind::LineContent)),
            },
        }
    }

    /// Adds to `files_diff` what `line` brings, `line` being the line that
    /// led into this state. The state itself stays as it is.
    pub fn output(&mut self, line: &str, files_diff: &mut FilesDiff)
        requires
            fits(old(self)@, old(files_diff)@),
        ensures
            *final(self) == *old(self),
            final(files_diff)@ == accumulate(old(self)@, line@, old(files_diff)@),
    {
        match self {
            ParseState::FileHeader(filename, mode) => {
                files_diff.new_file(filename.clone(), *mode);
            },
            ParseState::FileMode(mode) => {
                files_diff.file_mode(*mode);
            },
            ParseState::LineHeader(line_number) => {
                files_diff.new_line(*line_number);
                let chars = chars_of(line);
                let text = chars.as_slice();
                match find_after(text, " @@ ") {
                    Some(start) => {
                        let mut context = string_of(text, start, text.len());
                        context.append("\n");
                        proof {
                            assert(context@ =~= line@.skip(start as int) + "\n"@);
                        }
                        files_diff.add_text(context.as_str());
                    },
                    None => {},
                }
            },
            ParseState::LineContent => {
                let mut content = line.to_owned();
                content.append("\n");
                files_diff.add_text(content.as_str());
            },
            _ => {},
        }
    }
}

/// Parses the diff `text` and writes it out as markup. A diff that does
/// not parse gives the error of its first line that could not be read.
pub fn format_files_diff(text: &str) -> (result: Result<String, ParseError>)
    ensures
        markup_view(result) == formatted(text@),
{
    let mut files_diff = FilesDiff::new();
    let mut parse_state = ParseState::Start;
    let all = lines(text);
    let ghost spec_lines = split_lines(text@);
    let mut i: usize = 0;
    proof {
        assert(spec_lines.take(0) =~= Seq::<Seq<char>>::empty());
    }
    while i < all.len()
        invariant
            i <= all@.len(),
            spec_lines == split_lines(text@),
            strings_view(all@) == spec_lines,
            parse_lines(spec_lines.take(i as int)) == Ok::<
                (ParseStateView, Seq<FileDiffView>),
                ParseError,
            >((parse_state@, files_diff@)),
            tracks(parse_state@, files_diff@),
        decreases all@.len() - i,
    {
        let line = all[i].as_str();
        proof {
            assert(line@ == spec_lines[i as int]);
            assert(spec_lines.take(i + 1).drop_last() =~= spec_lines.take(i as int));
            assert(spec_lines.take(i + 1).last() == line@);
        }
        let ghost before = parse_state@;
        match parse_state.line(line) {
            Ok(next) => {
                parse_state = next;
            },
            Err(error) => {
                proof {
                    lemma_parse_error_stays(spec_lines, i + 1);
                }
                return Err(error);
            },
        }
        proof {
            lemma_step_tracks(before, line@, files_diff@);
        }
        parse_state.output(line, &mut files_diff);
        i += 1;
    }
    proof {
        assert(spec_lines.take(i as int) =~= spec_lines);
    }
    Ok(files_diff.output())
}

// ---------------------------------------------------------------------------
// The screen
// ---------------------------------------------------------------------------

/// What the backend sends to the diff screen.
#[derive(Clone, Debug, PartialEq, Eq)]
pub enum Response {
    /// The raw text of the diff to show.
    Refresh(String),
}

/// Whether the diff screen waits for its diff.
#[derive(Clone, Copy, Debug, PartialEq, Eq, Structural)]
pub enum State {
    Idle,
    Waiting,
}

impl Default for State {
    fn default() -> (state: Self)
        ensures
            state == State::Idle,
    {
        State::Idle
    }
}

/// The diff screen.
#[derive(Clone, Debug)]
pub struct Mode {
    state: State,
    output: Output,
    from: ModeKind,
}

/// What the diff screen holds.
pub ghost struct ModeView {
    pub state: State,
    pub output: OutputView,
    pub from: ModeKind,
}

/// The screen after it was entered from the mode `from`.
pub open spec fn entered(mode: ModeView, from: ModeKind) -> ModeView {
    if mode.state == State::Waiting {
        mode
    } else {
        ModeView {
            state: State::Waiting,
            output: OutputView { text: Seq::empty(), scroll: 0 },
            from,
        }
    }
}

/// The screen after `key`: an idle screen whose text spans more than one
/// line scrolls, any other stays as it is.
pub open spec fn keyed(mode: ModeView, rows: u16, key: Key) -> ModeView {
    if mode.state == State::Idle && split_lines(mode.output.text).len() > 1 {
        ModeView {
            output: OutputView {
                scroll: scrolled(
                    mode.output.scroll,
                    split_lines(mode.output.text).len(),
                    crate::mode::available_height(rows),
                    key,
                ),
                ..mode.output
            },
            ..mode
        }
    } else {
        mode
    }
}

/// The screen after the diff `text` arrived: idle, and showing the markup
/// of the diff where it parses, its earlier output where it does not.
pub open spec fn responded(mode: ModeView, text: Seq<char>) -> ModeView {
    match formatted(text) {
        Ok(markup) => ModeView {
            state: State::Idle,
            output: OutputView { text: markup, scroll: 0 },
            ..mode
        },
        Err(_) => ModeView { state: State::Idle, ..mode },
    }
}

impl View for Mode {
    type V = ModeView;

    closed spec fn view(&self) -> ModeView {
        ModeView { state: self.state, output: self.output@, from: self.from }
    }
}

impl Mode {
    /// An idle screen without output.
    pub fn new() -> (mode: Self)
        ensures
            mode@ == (ModeView {
                state: State::Idle,
                output: OutputView { text: Seq::empty(), scroll: 0 },
                from: ModeKind::Log,
            }),
    {
        Mode { state: State::Idle, output: Output::new(), from: ModeKind::Log }
    }

    /// The text shown.
    pub fn output(&self) -> (output: &Output)
        ensures
            output@ == self@.output,
    {
        &self.output
    }

    /// The mode that the screen was entered from.
    pub fn from(&self) -> (from: ModeKind)
        ensures
            from == self@.from,
    {
        self.from
    }
}

impl Default for Mode {
    fn default() -> (mode: Self)
        ensures
            mode@ == (ModeView {
                state: State::Idle,
                output: OutputView { text: Seq::empty(), scroll: 0 },
                from: ModeKind::Log,
            }),
    {
        Mode::new()
    }
}

impl ModeTrait for Mode {
    open spec fn waiting(&self) -> bool {
        self@.state == State::Waiting
    }

    open spec fn consistent(&self) -> bool {
        true
    }

    open spec fn accepts(response: &ModeResponse) -> bool {
        response is Diff
    }

    /// Enters the screen: it clears its output, remembers the mode it was
    /// entered from, and waits for the diff. The diff is sent to it from
    /// outside, so the screen asks for nothing itself.
    fn on_enter(&mut self, ctx: &ModeContext, info: ModeChangeInfo) -> (request: Option<Request>)
        ensures
            final(self)@ == entered(old(self)@, info.from),
            request is None,
    {
        if let State::Waiting = self.state {
            return None;
        }
        self.state = State::Waiting;
        self.from = info.from;
        self.output.set(String::new());
        None
    }

    /// Scrolls the output of an idle screen that spans more than one line.
    fn on_key(&mut self, ctx: &ModeContext, key: Key) -> (status: ModeStatus)
        ensures
            final(self)@ == keyed(old(self)@, ctx.viewport_size.1, key),
            status@ == (ModeStatusView {
                pending_input: false,
                page_request: None,
                command_request: None,
                mode_change: None,
            }),
    {
        match self.state {
            State::Idle => {
                if self.output.line_count() > 1 {
                    let available_height = ctx.available_height();
                    self.output.on_key(available_height, key);
                }
            },
            _ => {},
        }
        ModeStatus::settled(false)
    }

    /// Takes the diff that arrived: the screen is idle again and shows the
    /// markup of the diff. A diff that does not parse leaves the output as
    /// it was, and its error is handed back.
    fn on_response(&mut self, ctx: &ModeContext, response: ModeResponse) -> (result: Result<
        (),
        ParseError,
    >)
        ensures
            response matches ModeResponse::Diff(Response::Refresh(info)) && final(self)@
                == responded(old(self)@, info@) && match formatted(info@) {
                Ok(_) => result is Ok,
                Err(error) => result == Err::<(), ParseError>(error),
            },
    {
        match response {
            ModeResponse::Diff(Response::Refresh(info)) => {
                if let State::Waiting = self.state {
                    self.state = State::Idle;
                }
                match format_files_diff(info.as_str()) {
                    Ok(markup) => {
                        self.output.set(markup);
                        Ok(())
                    },
                    Err(error) => Err(error),
                }
            },
            ModeResponse::Log(_) => unreached(),
        }
    }

    fn is_waiting_response(&self) -> (waiting: bool) {
        match self.state {
            State::Idle => false,
            State::Waiting => true,
        }
    }

    fn header(&self) -> (header: (&'static str, &'static str, &'static str))
        ensures
            header.0@ == "details"@,
            header.1@ == ""@,
            header.2@ == "[Left]back [arrows]move"@,
    {
        ("details", "", "[Left]back [arrows]move")
    }

    /// Draws the output as diff markup.
    fn draw(&self, drawer: &mut Drawer)
        ensures
            final(drawer)@ == (DrawerView {
                ops: old(drawer)@.ops.push(DrawOpView::DiffFormat),
                ..old(drawer)@
            }),
    {
        drawer.diff_format();
    }
}

} // verus!
