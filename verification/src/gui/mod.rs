//! State of the settings panels: whether a panel is open, and which entry of
//! a list it edits.
//!
//! A list panel names the entry that it edits by the entry's position. When
//! entries are added or removed the panel keeps the position, not the entry:
//! that is intended, and the laws below say what the position then names.

pub mod camera_settings;
pub mod light_settings;
pub mod object_settings;

use vstd::prelude::*;

verus! {

/// A panel without a list, as a mathematical value.
pub struct Panel {
    /// The panel is open.
    pub showing: bool,
    /// The panel's title.
    pub label: Seq<char>,
}

/// A panel that edits one entry of a list, as a mathematical value.
pub struct ListPanel {
    /// The panel is open.
    pub showing: bool,
    /// The panel's title.
    pub label: Seq<char>,
    /// Position of the entry that is edited.
    pub selected: usize,
}

/// The position that a panel edits in a list of `count` entries when it was
/// left at `selected`: the same position where the list still has it, else
/// the first.
pub open spec fn selection_for(selected: usize, count: usize) -> usize {
    if selected >= count {
        0
    } else {
        selected
    }
}

/// The entry that a panel edits in a list of `count` entries: none in an
/// empty list.
pub open spec fn edited(selected: usize, count: usize) -> Option<usize> {
    if count > 0 {
        Some(selection_for(selected, count))
    } else {
        None
    }
}

/// Brings a position back into a list of `count` entries.
pub(crate) fn settle(selected: usize, count: usize) -> (position: usize)
    ensures
        position == selection_for(selected, count),
{
    if selected >= count {
        0
    } else {
        selected
    }
}

/// The position that a panel edits names an entry of the list, whenever the
/// list has one; and a position that names an entry is kept.
pub proof fn lemma_selection_names_an_entry(selected: usize, count: usize)
    ensures
        count > 0 ==> selection_for(selected, count) < count,
        selected < count ==> selection_for(selected, count) == selected,
        selection_for(selection_for(selected, count), count) == selection_for(selected, count),
{
}

/// After the edited entry is removed the panel edits the entry that
/// followed it, or the first entry where the removed one was the last.
pub proof fn lemma_selection_after_removal<T>(entries: Seq<T>, selected: usize)
    requires
        selected < entries.len() <= usize::MAX,
    ensures
        ({
            let rest = entries.remove(selected as int);
            let position = selection_for(selected, rest.len() as usize);
            &&& selected + 1 < entries.len() ==> position == selected && rest[position as int]
                == entries[selected + 1]
            &&& selected + 1 == entries.len() ==> position == 0
            &&& rest.len() > 0 ==> position < rest.len()
        }),
{
}

/// Adding an entry at the end moves no entry, so the panel goes on editing
/// the entry that it edited.
pub proof fn lemma_selection_after_push<T>(entries: Seq<T>, selected: usize, entry: T)
    requires
        selected < entries.len() < usize::MAX,
    ensures
        ({
            let more = entries.push(entry);
            let position = selection_for(selected, more.len() as usize);
            position == selected && more[position as int] == entries[selected as int]
        }),
{
}

} // verus!
