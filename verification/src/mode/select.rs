//! The cursor of a scrollable list.

use crate::platform::Key;
use vstd::prelude::*;

verus! {

/// Cursor and scroll offset of a list whose length the caller supplies.
#[derive(Clone, Copy, Debug, PartialEq, Eq, Structural)]
pub struct SelectMenu {
    pub cursor: usize,
    pub scroll: usize,
}

/// `cursor` held to the last index of a list of `len` entries; zero for an
/// empty list.
pub open spec fn saturated(cursor: nat, len: nat) -> nat {
    if len == 0 {
        0
    } else if cursor < len {
        cursor
    } else {
        (len - 1) as nat
    }
}

/// Where `key` moves the cursor of a list of `len` entries, of which
/// `available_height` fit on the screen.
pub open spec fn moved_cursor(cursor: nat, len: nat, available_height: nat, key: Key) -> nat {
    let half = available_height / 2;
    match key {
        Key::Down => saturated(cursor + 1, len),
        Key::Up => saturated(if cursor >= 1 { (cursor - 1) as nat } else { 0 }, len),
        Key::Home => 0,
        Key::End => saturated(len, len),
        Key::PageDown => saturated(cursor + half, len),
        Key::PageUp => saturated(if cursor >= half { (cursor - half) as nat } else { 0 }, len),
        _ => saturated(cursor, len),
    }
}

/// The scroll offset that keeps `cursor` among the `available_height` rows
/// shown: unchanged where the cursor is already shown, else moved by as
/// little as brings it in.
pub open spec fn scroll_to(scroll: nat, cursor: nat, available_height: nat) -> nat {
    if cursor < scroll {
        cursor
    } else if cursor - scroll >= available_height {
        (cursor + 1 - available_height) as nat
    } else {
        scroll
    }
}

impl SelectMenu {
    /// A cursor on the first entry.
    pub fn new() -> (menu: Self)
        ensures
            menu.cursor == 0,
            menu.scroll == 0,
    {
        SelectMenu { cursor: 0, scroll: 0 }
    }

    /// Holds the cursor to a list of `entries_len` entries.
    pub fn saturate_cursor(&mut self, entries_len: usize)
        ensures
            final(self).cursor == saturated(old(self).cursor as nat, entries_len as nat),
            final(self).scroll == old(self).scroll,
    {
        let last = entries_len.saturating_sub(1);
        if self.cursor > last {
            self.cursor = last;
        }
    }

    /// Moves the cursor as `key` asks, within a list of `entries_len`
    /// entries, and scrolls so that the cursor stays on the screen.
    pub fn on_key(&mut self, entries_len: usize, available_height: usize, key: Key)
        ensures
            final(self).cursor == moved_cursor(
                old(self).cursor as nat,
                entries_len as nat,
                available_height as nat,
                key,
            ),
            final(self).scroll == scroll_to(
                old(self).scroll as nat,
                final(self).cursor as nat,
                available_height as nat,
            ),
    {
        let half_height = available_height / 2;
        self.cursor = match key {
            Key::Down => self.cursor.saturating_add(1),
            Key::Up => self.cursor.saturating_sub(1),
            Key::Home => 0,
            Key::End => usize::MAX,
            Key::PageDown => self.cursor.saturating_add(half_height),
            Key::PageUp => self.cursor.saturating_sub(half_height),
            _ => self.cursor,
        };
        self.saturate_cursor(entries_len);
        if self.cursor < self.scroll {
            self.scroll = self.cursor;
        } else if self.cursor - self.scroll >= available_height {
            self.scroll = self.cursor + 1 - available_height;
        }
    }
}

impl Default for SelectMenu {
    fn default() -> (menu: Self)
        ensures
            menu.cursor == 0,
            menu.scroll == 0,
    {
        SelectMenu::new()
    }
}

} // verus!
