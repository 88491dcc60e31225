//! The drawing surface: a screen records what is to be drawn on it, and the
//! terminal layer plays the record back.

use crate::mode::Filter;
use vstd::prelude::*;

verus! {

/// Rows of the screen that the frame around a mode takes.
pub const RESERVED_LINES_COUNT: usize = 2;

/// The colors that the engine draws with.
#[derive(Clone, Copy, Debug, PartialEq, Eq, Structural)]
pub enum Color {
    White,
    DarkYellow,
    DarkBlue,
    DarkGreen,
    DarkRed,
}

/// One step of drawing.
#[derive(Clone, Debug, PartialEq, Eq)]
pub enum DrawOp {
    /// Text from here on has this color.
    Color(Color),
    /// Text at the cursor.
    Text(String),
    /// The cursor moves to the start of the next row.
    NextLine,
    /// The line that shows the filter text.
    Filter,
    /// The list of the visible entries, below `header_height` rows.
    SelectMenu { header_height: usize, show_full_hovered_message: bool },
    /// The output buffer as plain text.
    Output,
    /// The output buffer as diff markup.
    DiffFormat,
}

/// What a `DrawOp` holds.
pub ghost enum DrawOpView {
    Color(Color),
    Text(Seq<char>),
    NextLine,
    Filter,
    SelectMenu { header_height: usize, show_full_hovered_message: bool },
    Output,
    DiffFormat,
}

impl View for DrawOp {
    type V = DrawOpView;

    open spec fn view(&self) -> DrawOpView {
        match self {
            DrawOp::Color(color) => DrawOpView::Color(*color),
            DrawOp::Text(text) => DrawOpView::Text(text@),
            DrawOp::NextLine => DrawOpView::NextLine,
            DrawOp::Filter => DrawOpView::Filter,
            DrawOp::SelectMenu { header_height, show_full_hovered_message } => {
                DrawOpView::SelectMenu {
                    header_height: *header_height,
                    show_full_hovered_message: *show_full_hovered_message,
                }
            },
            DrawOp::Output => DrawOpView::Output,
            DrawOp::DiffFormat => DrawOpView::DiffFormat,
        }
    }
}

/// The rows that the filter line takes: one while the filter has the focus
/// or holds text, none otherwise.
pub open spec fn filter_line_count(has_focus: bool, text: Seq<char>) -> nat {
    if has_focus || text.len() > 0 {
        1
    } else {
        0
    }
}

/// A screen of `viewport_size` columns and rows, and the record of what was
/// drawn on it.
#[derive(Debug)]
pub struct Drawer {
    viewport_size: (u16, u16),
    ops: Vec<DrawOp>,
}

/// What a `Drawer` holds: the size of the screen, and the steps drawn so
/// far, oldest first.
pub ghost struct DrawerView {
    pub viewport_size: (u16, u16),
    pub ops: Seq<DrawOpView>,
}

/// The views of a sequence of steps.
pub open spec fn ops_view(ops: Seq<DrawOp>) -> Seq<DrawOpView> {
    ops.map_values(|op: DrawOp| op@)
}

impl View for Drawer {
    type V = DrawerView;

    closed spec fn view(&self) -> DrawerView {
        DrawerView { viewport_size: self.viewport_size, ops: ops_view(self.ops@) }
    }
}

impl Drawer {
    /// An empty screen.
    pub fn new(viewport_size: (u16, u16)) -> (drawer: Self)
        ensures
            drawer@ == (DrawerView { viewport_size, ops: Seq::empty() }),
    {
        let drawer = Drawer { viewport_size, ops: Vec::new() };
        assert(ops_view(drawer.ops@) =~= Seq::<DrawOpView>::empty());
        drawer
    }

    /// Columns and rows of the screen.
    pub fn viewport_size(&self) -> (size: (u16, u16))
        ensures
            size == self@.viewport_size,
    {
        self.viewport_size
    }

    /// Records one step.
    pub fn draw(&mut self, op: DrawOp)
        ensures
            final(self)@ == (DrawerView { ops: old(self)@.ops.push(op@), ..old(self)@ }),
    {
        self.ops.push(op);
        assert(ops_view(self.ops@) =~= ops_view(old(self).ops@).push(op@));
    }

    /// Switches to `color`.
    pub fn color(&mut self, color: Color)
        ensures
            final(self)@ == (DrawerView { ops: old(self)@.ops.push(DrawOpView::Color(color)), ..old(self)@ }),
    {
        self.draw(DrawOp::Color(color));
    }

    /// Draws `text` at the cursor.
    pub fn str(&mut self, text: &str)
        ensures
            final(self)@ == (DrawerView { ops: old(self)@.ops.push(DrawOpView::Text(text@)), ..old(self)@ }),
    {
        self.draw(DrawOp::Text(text.to_owned()));
    }

    /// Moves to the start of the next row.
    pub fn next_line(&mut self)
        ensures
            final(self)@ == (DrawerView { ops: old(self)@.ops.push(DrawOpView::NextLine), ..old(self)@ }),
    {
        self.draw(DrawOp::NextLine);
    }

    /// Draws the filter line where it is shown, and returns the rows it took.
    pub fn filter(&mut self, filter: &Filter) -> (line_count: usize)
        ensures
            line_count == filter_line_count(filter@.has_focus, filter@.text),
            final(self)@ == if line_count == 0 {
                old(self)@
            } else {
                DrawerView { ops: old(self)@.ops.push(DrawOpView::Filter), ..old(self)@ }
            },
    {
        if filter.has_focus() || !filter.text().is_empty() {
            self.draw(DrawOp::Filter);
            1
        } else {
            0
        }
    }

    /// Draws the list of visible entries below `header_height` rows, with
    /// the message of the hovered entry in full or not.
    pub fn select_menu(&mut self, header_height: usize, show_full_hovered_message: bool)
        ensures
            final(self)@ == (DrawerView { ops: old(self)@.ops.push(DrawOpView::SelectMenu { header_height, show_full_hovered_message }), ..old(self)@ }),
    {
        self.draw(DrawOp::SelectMenu { header_height, show_full_hovered_message });
    }

    /// Draws the output buffer of the mode as plain text.
    pub fn output(&mut self)
        ensures
            final(self)@ == (DrawerView { ops: old(self)@.ops.push(DrawOpView::Output), ..old(self)@ }),
    {
        self.draw(DrawOp::Output);
    }

    /// Draws the output buffer of the mode as diff markup.
    pub fn diff_format(&mut self)
        ensures
            final(self)@ == (DrawerView { ops: old(self)@.ops.push(DrawOpView::DiffFormat), ..old(self)@ }),
    {
        self.draw(DrawOp::DiffFormat);
    }

    /// The steps recorded, oldest first.
    pub fn into_ops(self) -> (ops: Vec<DrawOp>)
        ensures
            ops_view(ops@) == self@.ops,
    {
        self.ops
    }
}

} // verus!
