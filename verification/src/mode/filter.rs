//! The text filter that narrows the list of log entries.

use crate::backend::entries_view;
use crate::backend::LogEntry;
use crate::backend::LogEntryView;
use crate::platform::Key;
use crate::text::chars_of;
use crate::text::push_char;
use crate::text::string_of;
use vstd::prelude::*;

verus! {

/// The code of `c`, with the ASCII capitals mapped to their small letters.
pub open spec fn folded(c: char) -> int {
    let code = c as int;
    if 65 <= code <= 90 {
        code + 32
    } else {
        code
    }
}

/// The characters of `pattern` occur in `text` in their order, each at or
/// after the earliest place the ones before it allow, with ASCII letters
/// compared without regard to case. The empty pattern matches every text.
pub open spec fn fuzzy_matches(text: Seq<char>, pattern: Seq<char>) -> bool
    decreases text.len(),
{
    if pattern.len() == 0 {
        true
    } else if text.len() == 0 {
        false
    } else if folded(text[0]) == folded(pattern[0]) {
        fuzzy_matches(text.skip(1), pattern.skip(1))
    } else {
        fuzzy_matches(text.skip(1), pattern)
    }
}

/// `pattern` matches one of the entry's message, refs, author, date or hash.
pub open spec fn entry_matches(entry: LogEntryView, pattern: Seq<char>) -> bool {
    fuzzy_matches(entry.message, pattern) || fuzzy_matches(entry.refs, pattern) || fuzzy_matches(
        entry.author,
        pattern,
    ) || fuzzy_matches(entry.date, pattern) || fuzzy_matches(entry.hash, pattern)
}

/// The indices of the entries that `pattern` matches, in rising order.
pub open spec fn visible_entries(entries: Seq<LogEntryView>, pattern: Seq<char>) -> Seq<usize>
    decreases entries.len(),
{
    if entries.len() == 0 {
        Seq::empty()
    } else {
        let rest = visible_entries(entries.drop_last(), pattern);
        if entry_matches(entries.last(), pattern) {
            rest.push((entries.len() - 1) as usize)
        } else {
            rest
        }
    }
}

/// `visible_entries` lists exactly the indices of the matching entries, each
/// once, in rising order.
pub proof fn lemma_visible_entries(entries: Seq<LogEntryView>, pattern: Seq<char>)
    requires
        entries.len() <= usize::MAX,
    ensures
        visible_entries(entries, pattern).len() <= entries.len(),
        forall|k: int|
            0 <= k < visible_entries(entries, pattern).len() ==> (#[trigger] visible_entries(
                entries,
                pattern,
            )[k]) < entries.len() && entry_matches(
                entries[visible_entries(entries, pattern)[k] as int],
                pattern,
            ),
        forall|j: int, k: int|
            0 <= j < k < visible_entries(entries, pattern).len() ==> visible_entries(
                entries,
                pattern,
            )[j] < visible_entries(entries, pattern)[k],
        forall|i: int|
            0 <= i < entries.len() && entry_matches(#[trigger] entries[i], pattern)
                ==> visible_entries(entries, pattern).contains(i as usize),
    decreases entries.len(),
{
    if entries.len() > 0 {
        let head = entries.drop_last();
        let rest = visible_entries(head, pattern);
        let all = visible_entries(entries, pattern);
        lemma_visible_entries(head, pattern);
        assert forall|i: int|
            0 <= i < entries.len() && entry_matches(#[trigger] entries[i], pattern) implies all.contains(
            i as usize,
        ) by {
            if i < entries.len() - 1 {
                assert(entry_matches(head[i], pattern));
                let k = choose|k: int| 0 <= k < rest.len() && rest[k] == i as usize;
                assert(all[k] == i as usize);
            } else {
                assert(all[all.len() - 1] == i as usize);
            }
        }
        assert forall|k: int| 0 <= k < all.len() implies (#[trigger] all[k]) < entries.len()
            && entry_matches(entries[all[k] as int], pattern) by {
            if k < rest.len() {
                assert(all[k] == rest[k]);
                assert(entries[rest[k] as int] == head[rest[k] as int]);
            }
        }
    }
}

/// The code of `c`, with the ASCII capitals mapped to their small letters.
pub fn fold(c: char) -> (code: u32)
    ensures
        code == folded(c),
{
    let code: u32 = c as u32;
    if 65 <= code && code <= 90 {
        code + 32
    } else {
        code
    }
}

/// Whether `pattern` matches `text`.
pub fn fuzzy_match(text: &str, pattern: &[char]) -> (b: bool)
    ensures
        b == fuzzy_matches(text@, pattern@),
{
    let chars = chars_of(text);
    let n = chars.len();
    let m = pattern.len();
    let mut i: usize = 0;
    let mut j: usize = 0;
    proof {
        assert(chars@.skip(0) =~= chars@);
        assert(pattern@.skip(0) =~= pattern@);
    }
    while i < n && j < m
        invariant
            n == chars@.len(),
            m == pattern@.len(),
            chars@ == text@,
            i <= n,
            j <= m,
            fuzzy_matches(text@, pattern@) == fuzzy_matches(
                chars@.skip(i as int),
                pattern@.skip(j as int),
            ),
        decreases n - i,
    {
        let a = fold(chars[i]);
        let b = fold(pattern[j]);
        proof {
            assert(chars@.skip(i as int)[0] == chars@[i as int]);
            assert(pattern@.skip(j as int)[0] == pattern@[j as int]);
            assert(chars@.skip(i as int).skip(1) =~= chars@.skip(i + 1));
            assert(pattern@.skip(j as int).skip(1) =~= pattern@.skip(j + 1));
        }
        if a == b {
            j += 1;
        }
        i += 1;
    }
    j == m
}

/// Whether `pattern` matches `entry`.
pub fn entry_match(entry: &LogEntry, pattern: &[char]) -> (b: bool)
    ensures
        b == entry_matches(entry@, pattern@),
{
    fuzzy_match(entry.message.as_str(), pattern) || fuzzy_match(entry.refs.as_str(), pattern)
        || fuzzy_match(entry.author.as_str(), pattern) || fuzzy_match(
        entry.date.as_str(),
        pattern,
    ) || fuzzy_match(entry.hash.as_str(), pattern)
}

/// A filter text, whether it is being typed, and the entries it lets through.
#[derive(Clone, Debug)]
pub struct Filter {
    has_focus: bool,
    text: String,
    visible_indices: Vec<usize>,
}

/// What a `Filter` holds.
pub ghost struct FilterView {
    pub has_focus: bool,
    pub text: Seq<char>,
    pub visible: Seq<usize>,
}

/// The focus and text of a filter after `key` was typed into it.
pub open spec fn typed(filter: FilterView, key: Key) -> FilterView {
    match key {
        Key::Esc => FilterView { has_focus: false, text: Seq::empty(), ..filter },
        Key::Enter => FilterView { has_focus: false, ..filter },
        Key::Backspace => FilterView {
            text: if filter.text.len() > 0 {
                filter.text.drop_last()
            } else {
                filter.text
            },
            ..filter
        },
        Key::Char(c) => FilterView { text: filter.text.push(c), ..filter },
        _ => filter,
    }
}

impl View for Filter {
    type V = FilterView;

    closed spec fn view(&self) -> FilterView {
        FilterView {
            has_focus: self.has_focus,
            text: self.text@,
            visible: self.visible_indices@,
        }
    }
}

impl Filter {
    /// A filter with no text, out of focus, that lets nothing through yet.
    pub fn new() -> (filter: Self)
        ensures
            filter@ == (FilterView {
                has_focus: false,
                text: Seq::empty(),
                visible: Seq::empty(),
            }),
    {
        Filter { has_focus: false, text: String::new(), visible_indices: Vec::new() }
    }

    /// Whether key input goes to the filter text.
    pub fn has_focus(&self) -> (b: bool)
        ensures
            b == self@.has_focus,
    {
        self.has_focus
    }

    /// The filter text.
    pub fn text(&self) -> (text: &str)
        ensures
            text@ == self@.text,
    {
        self.text.as_str()
    }

    /// The indices of the entries let through by the last call of `filter`.
    pub fn visible_indices(&self) -> (indices: &[usize])
        ensures
            indices@ == self@.visible,
    {
        self.visible_indices.as_slice()
    }

    /// The index of the entry shown at row `index` of the filtered list.
    pub fn get_visible_index(&self, index: usize) -> (entry: Option<usize>)
        ensures
            entry == if index < self@.visible.len() {
                Some(self@.visible[index as int])
            } else {
                None
            },
    {
        if index < self.visible_indices.len() {
            Some(self.visible_indices[index])
        } else {
            None
        }
    }

    /// Gives the filter the focus.
    pub fn enter(&mut self)
        ensures
            final(self)@ == (FilterView { has_focus: true, ..old(self)@ }),
    {
        self.has_focus = true;
    }

    /// Types `key` into the filter. The entries let through stay as they
    /// were until `filter` runs again.
    pub fn on_key(&mut self, key: Key)
        ensures
            final(self)@ == typed(old(self)@, key),
    {
        match key {
            Key::Esc => {
                self.has_focus = false;
                self.text = String::new();
            },
            Key::Enter => {
                self.has_focus = false;
            },
            Key::Backspace => {
                let chars = chars_of(self.text.as_str());
                if chars.len() > 0 {
                    self.text = string_of(chars.as_slice(), 0, chars.len() - 1);
                    proof {
                        assert(chars@.subrange(0, chars@.len() - 1) =~= chars@.drop_last());
                    }
                }
            },
            Key::Char(c) => {
                push_char(&mut self.text, c);
            },
            _ => {},
        }
    }

    /// Lets through the entries that the filter text matches.
    pub fn filter(&mut self, entries: &[LogEntry])
        ensures
            final(self)@ == (FilterView {
                visible: visible_entries(entries_view(entries@), old(self)@.text),
                ..old(self)@
            }),
    {
        let pattern = chars_of(self.text.as_str());
        let mut visible: Vec<usize> = Vec::new();
        let n = entries.len();
        let mut i: usize = 0;
        while i < n
            invariant
                n == entries@.len(),
                i <= n,
                pattern@ == self.text@,
                visible@ == visible_entries(entries_view(entries@).take(i as int), pattern@),
            decreases n - i,
        {
            proof {
                assert(entries_view(entries@).take(i + 1).drop_last() =~= entries_view(
                    entries@,
                ).take(i as int));
                assert(entries_view(entries@).take(i + 1).last() == entries@[i as int]@);
            }
            if entry_match(&entries[i], pattern.as_slice()) {
                visible.push(i);
            }
            i += 1;
        }
        proof {
            assert(entries_view(entries@).take(n as int) =~= entries_view(entries@));
        }
        self.visible_indices = visible;
    }
}

impl Default for Filter {
    fn default() -> (filter: Self)
        ensures
            filter@ == (FilterView {
                has_focus: false,
                text: Seq::empty(),
                visible: Seq::empty(),
            }),
    {
        Filter::new()
    }
}

} // verus!
