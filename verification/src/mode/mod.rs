//! The screens of the client and what they share: the context a mode is
//! called with, the requests it hands to the outer loop, and the contract
//! that every mode keeps.
//!
//! A mode never calls the backend itself. Where a key or an entry asks for
//! backend work, the mode returns a `Request`; the outer loop runs it on a
//! worker and brings the result back as a `ModeResponse`.

pub mod diff;
pub mod filter;
pub mod log;
pub mod output;
pub mod select;

pub use self::filter::Filter;
pub use self::filter::FilterView;
pub use self::output::Output;
pub use self::output::OutputView;
pub use self::select::SelectMenu;

use crate::mode::diff::ParseError;
use crate::platform::Key;
use crate::ui::Drawer;
use crate::ui::RESERVED_LINES_COUNT;
use vstd::prelude::*;

verus! {

/// The screens.
#[derive(Clone, Copy, Debug, PartialEq, Eq, Structural)]
pub enum ModeKind {
    Log,
    RevisionDetails,
    Diff,
}

impl Default for ModeKind {
    fn default() -> (kind: Self)
        ensures
            kind == ModeKind::Log,
    {
        ModeKind::Log
    }
}

/// What a mode is told when it becomes active: the mode that was left, and
/// the revision to show, where there is one.
#[derive(Clone, Debug, PartialEq, Eq)]
pub struct ModeChangeInfo {
    pub from: ModeKind,
    pub revision: Option<String>,
}

/// What a `ModeChangeInfo` holds.
pub ghost struct ModeChangeInfoView {
    pub from: ModeKind,
    pub revision: Option<Seq<char>>,
}

impl View for ModeChangeInfo {
    type V = ModeChangeInfoView;

    open spec fn view(&self) -> ModeChangeInfoView {
        ModeChangeInfoView {
            from: self.from,
            revision: match self.revision {
                Some(revision) => Some(revision@),
                None => None,
            },
        }
    }
}

impl ModeChangeInfo {
    /// A change that carries no revision.
    pub fn new(from: ModeKind) -> (info: Self)
        ensures
            info@ == (ModeChangeInfoView { from, revision: None }),
    {
        ModeChangeInfo { from, revision: None }
    }

    /// A change that carries `revision`.
    pub fn revision(from: ModeKind, revision: String) -> (info: Self)
        ensures
            info@ == (ModeChangeInfoView { from, revision: Some(revision@) }),
    {
        ModeChangeInfo { from, revision: Some(revision) }
    }
}

/// A change of mode that a mode asks the outer loop for.
#[derive(Clone, Debug, PartialEq, Eq)]
pub struct ModeChange {
    pub to: ModeKind,
    pub info: ModeChangeInfo,
}

/// What a `ModeChange` holds.
pub ghost struct ModeChangeView {
    pub to: ModeKind,
    pub info: ModeChangeInfoView,
}

impl View for ModeChange {
    type V = ModeChangeView;

    open spec fn view(&self) -> ModeChangeView {
        ModeChangeView { to: self.to, info: self.info@ }
    }
}

/// What a mode knows of its surroundings: columns and rows of the screen.
#[derive(Clone, Copy, Debug, PartialEq, Eq)]
pub struct ModeContext {
    pub viewport_size: (u16, u16),
}

/// The rows left to a mode on a screen of `rows` rows.
pub open spec fn available_height(rows: u16) -> nat {
    if rows >= RESERVED_LINES_COUNT {
        (rows - RESERVED_LINES_COUNT) as nat
    } else {
        0
    }
}

impl ModeContext {
    /// The rows left to a mode.
    pub fn available_height(&self) -> (height: usize)
        ensures
            height == available_height(self.viewport_size.1),
    {
        (self.viewport_size.1 as usize).saturating_sub(RESERVED_LINES_COUNT)
    }
}

/// A backend operation that changes the repository.
#[derive(Clone, Debug, PartialEq, Eq)]
pub enum Command {
    Checkout(String),
    Merge(String),
    /// Reset to the revision; the empty revision stands for the upstream.
    Reset(String),
    Fetch,
    Pull,
    Push,
    PushToAlternateRemote,
}

/// What a `Command` holds.
pub ghost enum CommandView {
    Checkout(Seq<char>),
    Merge(Seq<char>),
    Reset(Seq<char>),
    Fetch,
    Pull,
    Push,
    PushToAlternateRemote,
}

impl View for Command {
    type V = CommandView;

    open spec fn view(&self) -> CommandView {
        match self {
            Command::Checkout(revision) => CommandView::Checkout(revision@),
            Command::Merge(revision) => CommandView::Merge(revision@),
            Command::Reset(revision) => CommandView::Reset(revision@),
            Command::Fetch => CommandView::Fetch,
            Command::Pull => CommandView::Pull,
            Command::Push => CommandView::Push,
            Command::PushToAlternateRemote => CommandView::PushToAlternateRemote,
        }
    }
}

/// Backend work that a mode asks the outer loop for: the command, where
/// there is one, and after its success the page of `limit` log entries that
/// starts at `start`. The outcome comes back as a log refresh response: the
/// page, or the error of whichever step failed.
#[derive(Clone, Debug, PartialEq, Eq)]
pub struct Request {
    pub command: Option<Command>,
    pub start: usize,
    pub limit: usize,
}

/// What a `Request` holds.
pub ghost struct RequestView {
    pub command: Option<CommandView>,
    pub start: usize,
    pub limit: usize,
}

impl View for Request {
    type V = RequestView;

    open spec fn view(&self) -> RequestView {
        RequestView {
            command: match self.command {
                Some(command) => Some(command@),
                None => None,
            },
            start: self.start,
            limit: self.limit,
        }
    }
}

/// The view of an optional request.
pub open spec fn request_view(request: Option<Request>) -> Option<RequestView> {
    match request {
        Some(request) => Some(request@),
        None => None,
    }
}

/// The view of an optional change of mode.
pub open spec fn mode_change_view(change: Option<ModeChange>) -> Option<ModeChangeView> {
    match change {
        Some(change) => Some(change@),
        None => None,
    }
}

/// What handling a key came to: whether more input is expected before the
/// screen settles, and what the outer loop is to do. `page_request` and
/// `command_request` each stand for one worker to start.
#[derive(Clone, Debug, PartialEq, Eq)]
pub struct ModeStatus {
    pub pending_input: bool,
    pub page_request: Option<Request>,
    pub command_request: Option<Request>,
    pub mode_change: Option<ModeChange>,
}

/// What a `ModeStatus` holds.
pub ghost struct ModeStatusView {
    pub pending_input: bool,
    pub page_request: Option<RequestView>,
    pub command_request: Option<RequestView>,
    pub mode_change: Option<ModeChangeView>,
}

impl View for ModeStatus {
    type V = ModeStatusView;

    open spec fn view(&self) -> ModeStatusView {
        ModeStatusView {
            pending_input: self.pending_input,
            page_request: request_view(self.page_request),
            command_request: request_view(self.command_request),
            mode_change: mode_change_view(self.mode_change),
        }
    }
}

impl ModeStatus {
    /// Nothing for the outer loop to do.
    pub fn settled(pending_input: bool) -> (status: Self)
        ensures
            status@ == (ModeStatusView {
                pending_input,
                page_request: None,
                command_request: None,
                mode_change: None,
            }),
    {
        ModeStatus { pending_input, page_request: None, command_request: None, mode_change: None }
    }
}

/// A result on its way to a mode, tagged with the mode it is for.
#[derive(Debug, PartialEq, Eq)]
pub enum ModeResponse {
    Log(log::Response),
    Diff(diff::Response),
}

impl ModeResponse {
    /// The mode that the response is for.
    pub fn kind(&self) -> (kind: ModeKind)
        ensures
            kind == match self {
                ModeResponse::Log(_) => ModeKind::Log,
                ModeResponse::Diff(_) => ModeKind::Diff,
            },
    {
        match self {
            ModeResponse::Log(_) => ModeKind::Log,
            ModeResponse::Diff(_) => ModeKind::Diff,
        }
    }
}

/// The contract of a mode. A mode is idle or waits for the one response of
/// the backend work it asked for; while it waits it asks for no more.
pub trait ModeTrait: Sized {
    /// The mode waits for a response.
    spec fn waiting(&self) -> bool;

    /// The parts of the mode fit together. A new mode is consistent, every
    /// call keeps it so, and a response makes it so.
    spec fn consistent(&self) -> bool;

    /// `response` is of the mode's own kind.
    spec fn accepts(response: &ModeResponse) -> bool;

    /// The mode becomes active. Entering a mode that waits changes nothing
    /// and asks for nothing.
    fn on_enter(&mut self, ctx: &ModeContext, info: ModeChangeInfo) -> (request: Option<Request>)
        ensures
            old(self).consistent() ==> final(self).consistent(),
            final(self).waiting(),
            old(self).waiting() ==> *final(self) == *old(self) && request is None,
    ;

    /// One key of input. A mode that waits goes on waiting and asks for no
    /// backend work.
    fn on_key(&mut self, ctx: &ModeContext, key: Key) -> (status: ModeStatus)
        ensures
            old(self).consistent() ==> final(self).consistent(),
            old(self).waiting() ==> final(self).waiting() && status.page_request is None
                && status.command_request is None,
    ;

    /// A response arrives, and the mode is idle again. A response of
    /// another mode's kind must not be handed in.
    fn on_response(&mut self, ctx: &ModeContext, response: ModeResponse) -> (result: Result<
        (),
        ParseError,
    >)
        requires
            Self::accepts(&response),
        ensures
            final(self).consistent(),
            !final(self).waiting(),
    ;

    /// Whether the mode waits for a response.
    fn is_waiting_response(&self) -> (waiting: bool)
        ensures
            waiting == self.waiting(),
    ;

    /// Title, left help text and right help text.
    fn header(&self) -> (header: (&'static str, &'static str, &'static str))
    ;

    /// Draws the mode.
    fn draw(&self, drawer: &mut Drawer)
    ;
}

/// The modes of the engine, and the one that is active. Keys go to the
/// active mode. A response goes to the mode it is tagged for if that mode
/// is the active one; any other response is dropped, neither kept nor
/// handed in later.
#[derive(Clone, Debug)]
pub struct Modes {
    active: ModeKind,
    log: log::Mode,
    diff: diff::Mode,
}

/// What `Modes` holds.
pub ghost struct ModesView {
    pub active: ModeKind,
    pub log: log::ModeView,
    pub diff: diff::ModeView,
}

impl View for Modes {
    type V = ModesView;

    closed spec fn view(&self) -> ModesView {
        ModesView { active: self.active, log: self.log@, diff: self.diff@ }
    }
}

/// What became of a response.
#[derive(Clone, Copy, Debug, PartialEq, Eq, Structural)]
pub enum Delivery {
    /// The active mode took it.
    Delivered,
    /// It was for a mode that is not active, and is gone.
    Dropped,
}

impl Modes {
    /// The log mode is coherent.
    pub open spec fn consistent(&self) -> bool {
        log::coherent(self@.log)
    }

    /// Idle modes, with the log mode active.
    pub fn new() -> (modes: Self)
        ensures
            modes@.active == ModeKind::Log,
            modes@.log.state == log::State::Idle,
            modes@.diff.state == diff::State::Idle,
            modes.consistent(),
    {
        Modes { active: ModeKind::Log, log: log::Mode::new(), diff: diff::Mode::new() }
    }

    /// The active mode.
    pub fn active(&self) -> (kind: ModeKind)
        ensures
            kind == self@.active,
    {
        self.active
    }

    /// The log mode.
    pub fn log(&self) -> (mode: &log::Mode)
        ensures
            mode@ == self@.log,
    {
        &self.log
    }

    /// The diff mode.
    pub fn diff(&self) -> (mode: &diff::Mode)
        ensures
            mode@ == self@.diff,
    {
        &self.diff
    }

    /// Makes `kind` the active mode and enters it.
    pub fn enter(&mut self, ctx: &ModeContext, kind: ModeKind, info: ModeChangeInfo) -> (request:
        Option<Request>)
        ensures
            old(self).consistent() ==> final(self).consistent(),
            final(self)@ == (ModesView {
                active: kind,
                log: if kind == ModeKind::Log {
                    log::entered(old(self)@.log)
                } else {
                    old(self)@.log
                },
                diff: if kind == ModeKind::Diff {
                    diff::entered(old(self)@.diff, info.from)
                } else {
                    old(self)@.diff
                },
            }),
            request_view(request) == if kind == ModeKind::Log && !(old(self)@.log.state is Waiting) {
                Some(log::refresh_request(None, ctx.viewport_size.1))
            } else {
                None
            },
    {
        self.active = kind;
        match kind {
            ModeKind::Log => self.log.on_enter(ctx, info),
            ModeKind::Diff => self.diff.on_enter(ctx, info),
            ModeKind::RevisionDetails => None,
        }
    }

    /// Hands `key` to the active mode.
    pub fn on_key(&mut self, ctx: &ModeContext, key: Key) -> (status: ModeStatus)
        ensures
            old(self).consistent() ==> final(self).consistent(),
            final(self)@ == (ModesView {
                log: if old(self)@.active == ModeKind::Log {
                    log::keyed(old(self)@.log, ctx.viewport_size.1, key)
                } else {
                    old(self)@.log
                },
                diff: if old(self)@.active == ModeKind::Diff {
                    diff::keyed(old(self)@.diff, ctx.viewport_size.1, key)
                } else {
                    old(self)@.diff
                },
                ..old(self)@
            }),
            status@ == if old(self)@.active == ModeKind::Log {
                log::key_status(old(self)@.log, ctx.viewport_size.1, key)
            } else {
                ModeStatusView {
                    pending_input: false,
                    page_request: None,
                    command_request: None,
                    mode_change: None,
                }
            },
    {
        match self.active {
            ModeKind::Log => self.log.on_key(ctx, key),
            ModeKind::Diff => self.diff.on_key(ctx, key),
            ModeKind::RevisionDetails => ModeStatus::settled(false),
        }
    }

    /// Hands `response` to the active mode if it is tagged for it, and
    /// drops it otherwise: a dropped response changes nothing.
    pub fn on_response(&mut self, ctx: &ModeContext, response: ModeResponse) -> (result: Result<
        Delivery,
        ParseError,
    >)
        ensures
            old(self).consistent() ==> final(self).consistent(),
            match response {
                ModeResponse::Log(refresh) => if old(self)@.active == ModeKind::Log {
                    result == Ok::<Delivery, ParseError>(Delivery::Delivered) && final(self)@ == (
                    ModesView { log: log::responded(old(self)@.log, refresh@), ..old(self)@ })
                } else {
                    result == Ok::<Delivery, ParseError>(Delivery::Dropped) && *final(self) == *old(
                        self,
                    )
                },
                ModeResponse::Diff(diff::Response::Refresh(text)) => if old(self)@.active
                    == ModeKind::Diff {
                    final(self)@ == (ModesView {
                        diff: diff::responded(old(self)@.diff, text@),
                        ..old(self)@
                    }) && result == match diff::formatted(text@) {
                        Ok(_) => Ok::<Delivery, ParseError>(Delivery::Delivered),
                        Err(error) => Err::<Delivery, ParseError>(error),
                    }
                } else {
                    result == Ok::<Delivery, ParseError>(Delivery::Dropped) && *final(self) == *old(
                        self,
                    )
                },
            },
    {
        match (self.active, response.kind()) {
            (ModeKind::Log, ModeKind::Log) => {
                let _ = self.log.on_response(ctx, response);
                Ok(Delivery::Delivered)
            },
            (ModeKind::Diff, ModeKind::Diff) => match self.diff.on_response(ctx, response) {
                Ok(_) => Ok(Delivery::Delivered),
                Err(error) => Err(error),
            },
            _ => Ok(Delivery::Dropped),
        }
    }
}

} // verus!
