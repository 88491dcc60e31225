//! The text that a screen displays, with its scroll offset.

use crate::platform::Key;
use crate::text::lines;
use crate::text::split_lines;
use vstd::prelude::*;

verus! {

/// A text buffer that is replaced as a whole and scrolled by key input.
#[derive(Debug)]
pub struct Output {
    text: String,
    line_count: usize,
    scroll: usize,
}

/// What an `Output` holds.
pub ghost struct OutputView {
    pub text: Seq<char>,
    pub scroll: nat,
}

/// The largest scroll offset of a text of `line_count` lines on a screen of
/// `available_height` rows: the one that shows the last line at the bottom.
pub open spec fn max_scroll(line_count: nat, available_height: nat) -> nat {
    if line_count >= available_height {
        (line_count - available_height) as nat
    } else {
        0
    }
}

/// The scroll offset after `key`, for a text of `line_count` lines.
pub open spec fn scrolled(scroll: nat, line_count: nat, available_height: nat, key: Key) -> nat {
    let half = available_height / 2;
    let limit = max_scroll(line_count, available_height);
    let target: nat = match key {
        Key::Down => scroll + 1,
        Key::Up => if scroll >= 1 { (scroll - 1) as nat } else { 0 },
        Key::Home => 0,
        Key::End => limit,
        Key::PageDown => scroll + half,
        Key::PageUp => if scroll >= half { (scroll - half) as nat } else { 0 },
        _ => scroll,
    };
    if target <= limit {
        target
    } else {
        limit
    }
}

impl View for Output {
    type V = OutputView;

    closed spec fn view(&self) -> OutputView {
        OutputView { text: self.text@, scroll: self.scroll as nat }
    }
}

impl Output {
    #[verifier::type_invariant]
    spec fn counted(self) -> bool {
        self.line_count == split_lines(self.text@).len()
    }

    /// An empty buffer.
    pub fn new() -> (out: Self)
        ensures
            out@ == (OutputView { text: Seq::empty(), scroll: 0 }),
    {
        let text = String::new();
        assert(split_lines(text@) =~= Seq::<Seq<char>>::empty());
        Output { text, line_count: 0, scroll: 0 }
    }

    /// Replaces the text and scrolls back to its top.
    pub fn set(&mut self, text: String)
        ensures
            final(self)@ == (OutputView { text: text@, scroll: 0 }),
    {
        let line_count = lines(text.as_str()).len();
        *self = Output { text, line_count, scroll: 0 };
    }

    /// The text held.
    pub fn text(&self) -> (text: &str)
        ensures
            text@ == self@.text,
    {
        self.text.as_str()
    }

    /// The number of lines of the text held.
    pub fn line_count(&self) -> (count: usize)
        ensures
            count == split_lines(self@.text).len(),
    {
        proof {
            use_type_invariant(self);
        }
        self.line_count
    }

    /// The index of the first line shown.
    pub fn scroll(&self) -> (scroll: usize)
        ensures
            scroll == self@.scroll,
    {
        self.scroll
    }

    /// Scrolls as `key` asks, no further than the last line at the bottom of
    /// a screen of `available_height` rows.
    pub fn on_key(&mut self, available_height: usize, key: Key)
        ensures
            final(self)@ == (OutputView {
                text: old(self)@.text,
                scroll: scrolled(
                    old(self)@.scroll,
                    split_lines(old(self)@.text).len(),
                    available_height as nat,
                    key,
                ),
            }),
    {
        proof {
            use_type_invariant(&*self);
        }
        let half_height = available_height / 2;
        let target = match key {
            Key::Down => self.scroll.saturating_add(1),
            Key::Up => self.scroll.saturating_sub(1),
            Key::Home => 0,
            Key::End => usize::MAX,
            Key::PageDown => self.scroll.saturating_add(half_height),
            Key::PageUp => self.scroll.saturating_sub(half_height),
            _ => self.scroll,
        };
        let limit = self.line_count.saturating_sub(available_height);
        self.scroll = if target <= limit {
            target
        } else {
            limit
        };
    }
}

impl Clone for Output {
    fn clone(&self) -> (out: Self)
        ensures
            out@ == self@,
    {
        proof {
            use_type_invariant(self);
        }
        Output { text: self.text.clone(), line_count: self.line_count, scroll: self.scroll }
    }
}

impl Default for Output {
    fn default() -> (out: Self)
        ensures
            out@ == (OutputView { text: Seq::empty(), scroll: 0 }),
    {
        Output::new()
    }
}

} // verus!
