//! Looking windows up by their titles.

use crate::text::{contains_substring, is_substring};
use vstd::prelude::*;

verus! {

/// One top-level window as the enumeration reports it. `title` is empty when
/// the window has no title or the title could not be read.
#[derive(Debug, PartialEq, Eq)]
pub struct WindowEntry {
    pub visible: bool,
    pub title: String,
}

/// Whether a window shows up in the list of titles: it is visible and has
/// a title.
pub open spec fn is_listed(entry: WindowEntry) -> bool {
    entry.visible && entry.title@.len() > 0
}

/// The titles of the listed windows among `windows`, in enumeration order.
pub open spec fn listed_titles(windows: Seq<WindowEntry>) -> Seq<String>
    decreases windows.len(),
{
    if windows.len() == 0 {
        Seq::empty()
    } else if is_listed(windows.last()) {
        listed_titles(windows.drop_last()).push(windows.last().title)
    } else {
        listed_titles(windows.drop_last())
    }
}

/// The index of the first title that contains `target`, if there is one.
pub open spec fn first_match(titles: Seq<String>, target: Seq<char>, at: int) -> bool {
    &&& 0 <= at < titles.len()
    &&& is_substring(target, titles[at]@)
    &&& forall|j: int| 0 <= j < at ==> !is_substring(target, #[trigger] titles[j]@)
}

/// The titles of all visible windows that have one, in the order in which
/// the windows were enumerated.
pub fn get_all_window_titles(windows: &Vec<WindowEntry>) -> (titles: Vec<String>)
    ensures
        titles@ == listed_titles(windows@),
{
    let mut titles: Vec<String> = Vec::new();
    let mut i: usize = 0;
    while i < windows.len()
        invariant
            i <= windows.len(),
            titles@ == listed_titles(windows@.subrange(0, i as int)),
        decreases windows.len() - i,
    {
        let entry = &windows[i];
        proof {
            let next = windows@.subrange(0, i + 1);
            assert(next.drop_last() == windows@.subrange(0, i as int));
            assert(next.last() == windows@[i as int]);
        }
        if entry.visible && !entry.title.as_str().is_empty() {
            titles.push(entry.title.clone());
        }
        i += 1;
    }
    assert(windows@.subrange(0, windows@.len() as int) == windows@);
    titles
}

/// The titles of all visible windows, as handed to the user interface.
pub fn get_window_titles(windows: &Vec<WindowEntry>) -> (titles: Vec<String>)
    ensures
        titles@ == listed_titles(windows@),
{
    get_all_window_titles(windows)
}

/// The first of `titles` that contains `target` as a substring, or `None`
/// when no title does.
pub fn find_window_by_title(titles: Vec<String>, target: String) -> (found: Option<String>)
    ensures
        match found {
            Some(title) => exists|at: int| #[trigger]
                first_match(titles@, target@, at) && titles@[at] == title,
            None => forall|j: int|
                0 <= j < titles@.len() ==> !is_substring(target@, #[trigger] titles@[j]@),
        },
{
    let mut i: usize = 0;
    while i < titles.len()
        invariant
            i <= titles.len(),
            forall|j: int| 0 <= j < i ==> !is_substring(target@, #[trigger] titles@[j]@),
        decreases titles.len() - i,
    {
        if contains_substring(titles[i].as_str(), target.as_str()) {
            assert(first_match(titles@, target@, i as int));
            return Some(titles[i].clone());
        }
        i += 1;
    }
    None
}

} // verus!
