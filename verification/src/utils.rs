//! Entries of the option registry and the page window over a list.

use crate::selected_option::SelectedOption;
use vstd::prelude::*;

verus! {

/// One candidate entry of a prompt.
#[derive(Clone, Debug, PartialEq)]
pub struct ListOption<T> {
    /// Stable index: the position at which the entry entered the registry.
    pub index: usize,
    /// The text the entry is shown and filtered by.
    pub string_value: String,
    /// The caller's value.
    pub value: T,
    /// Whether the entry is currently selected.
    pub checked: bool,
}

/// Whether every entry carries its own position as its stable index.
pub open spec fn registry_indexed<T>(options: Seq<ListOption<T>>) -> bool {
    forall|i: int| 0 <= i < options.len() ==> (#[trigger] options[i]).index == i
}

/// The registry after the entry at `i` changed its checked state.
pub open spec fn toggled<T>(options: Seq<ListOption<T>>, i: int) -> Seq<ListOption<T>> {
    options.update(i, ListOption { checked: !options[i].checked, ..options[i] })
}

/// The registry after every entry took the checked state `checked`.
pub open spec fn all_set<T>(options: Seq<ListOption<T>>, checked: bool) -> Seq<ListOption<T>> {
    Seq::new(options.len(), |i: int| ListOption { checked, ..options[i] })
}

/// The registry after a new, checked entry was appended to it.
pub open spec fn appended<T>(options: Seq<ListOption<T>>, string_value: String, value: T) -> Seq<
    ListOption<T>,
> {
    options.push(ListOption { index: options.len() as usize, string_value, value, checked: true })
}

/// The selection result: the checked entries, in the order of the
/// registry, each with its stable index.
pub open spec fn checked_selection<T>(options: Seq<ListOption<T>>) -> Seq<SelectedOption<T>>
    decreases options.len(),
{
    if options.len() == 0 {
        Seq::empty()
    } else if options.last().checked {
        checked_selection(options.drop_last()).push(
            SelectedOption { index: options.last().index, value: options.last().value },
        )
    } else {
        checked_selection(options.drop_last())
    }
}

/// Toggling an entry twice gives back the registry as it was.
pub proof fn lemma_toggle_twice<T>(options: Seq<ListOption<T>>, i: int)
    requires
        0 <= i < options.len(),
    ensures
        toggled(toggled(options, i), i) == options,
{
    assert(toggled(toggled(options, i), i) =~= options);
}

/// Toggles do not depend on the order in which they are made.
pub proof fn lemma_toggles_commute<T>(options: Seq<ListOption<T>>, i: int, j: int)
    requires
        0 <= i < options.len(),
        0 <= j < options.len(),
    ensures
        toggled(toggled(options, i), j) == toggled(toggled(options, j), i),
{
    assert(toggled(toggled(options, i), j) =~= toggled(toggled(options, j), i));
}

/// A toggle changes the checked state of one entry and nothing else.
pub proof fn lemma_toggle_touches_one<T>(options: Seq<ListOption<T>>, i: int)
    requires
        0 <= i < options.len(),
    ensures
        toggled(options, i).len() == options.len(),
        toggled(options, i)[i].checked == !options[i].checked,
        toggled(options, i)[i].index == options[i].index,
        toggled(options, i)[i].value == options[i].value,
        toggled(options, i)[i].string_value == options[i].string_value,
        forall|k: int| 0 <= k < options.len() && k != i ==> toggled(options, i)[k] == options[k],
        registry_indexed(options) ==> registry_indexed(toggled(options, i)),
{
}

/// Setting all entries is idempotent, and the last setting wins.
pub proof fn lemma_all_set_twice<T>(options: Seq<ListOption<T>>, first: bool, second: bool)
    ensures
        all_set(all_set(options, first), second) == all_set(options, second),
        registry_indexed(options) ==> registry_indexed(all_set(options, second)),
{
    assert(all_set(all_set(options, first), second) =~= all_set(options, second));
}

/// With no entry checked nothing is selected.
pub proof fn lemma_nothing_checked<T>(options: Seq<ListOption<T>>)
    requires
        forall|i: int| 0 <= i < options.len() ==> !(#[trigger] options[i]).checked,
    ensures
        checked_selection(options).len() == 0,
    decreases options.len(),
{
    if options.len() > 0 {
        lemma_nothing_checked(options.drop_last());
    }
}

/// With every entry checked every entry is selected.
pub proof fn lemma_everything_checked<T>(options: Seq<ListOption<T>>)
    requires
        forall|i: int| 0 <= i < options.len() ==> (#[trigger] options[i]).checked,
    ensures
        checked_selection(options).len() == options.len(),
    decreases options.len(),
{
    if options.len() > 0 {
        lemma_everything_checked(options.drop_last());
    }
}

/// Selecting all entries and then none leaves nothing selected, whatever
/// was checked before.
pub proof fn lemma_select_all_then_none<T>(options: Seq<ListOption<T>>)
    ensures
        checked_selection(all_set(options, true)).len() == options.len(),
        checked_selection(all_set(all_set(options, true), false)).len() == 0,
{
    lemma_everything_checked(all_set(options, true));
    lemma_nothing_checked(all_set(all_set(options, true), false));
}

/// The selection result follows the registry: its stable indices ascend,
/// each is that of a checked entry and comes with that entry's value, and
/// every checked entry is in it.
pub proof fn lemma_selection_in_registry_order<T>(options: Seq<ListOption<T>>)
    requires
        registry_indexed(options),
    ensures
        checked_selection(options).len() <= options.len(),
        forall|j: int|
            0 <= j < checked_selection(options).len() ==> {
                let selected = #[trigger] checked_selection(options)[j];
                &&& selected.index < options.len()
                &&& options[selected.index as int].checked
                &&& selected.value == options[selected.index as int].value
            },
        forall|j: int, k: int|
            0 <= j < k < checked_selection(options).len() ==> checked_selection(options)[j].index
                < checked_selection(options)[k].index,
        forall|i: int|
            0 <= i < options.len() && options[i].checked ==> exists|j: int|
                0 <= j < checked_selection(options).len() && (#[trigger] checked_selection(
                    options,
                )[j]).index == i,
    decreases options.len(),
{
    if options.len() > 0 {
        let front = options.drop_last();
        let all = checked_selection(options);
        let before = checked_selection(front);
        lemma_selection_in_registry_order(front);
        assert forall|i: int| 0 <= i < options.len() && options[i].checked implies exists|j: int|
            0 <= j < all.len() && (#[trigger] all[j]).index == i by {
            if i < options.len() - 1 {
                assert(front[i].checked);
                let j = choose|j: int| 0 <= j < before.len() && (#[trigger] before[j]).index == i;
                assert(all[j].index == i);
            } else {
                assert(all[all.len() - 1].index == i);
            }
        }
    }
}

/// The part of a list that is drawn, and where the cursor is in it.
#[derive(Clone, Debug, PartialEq)]
pub struct Page<'a, T> {
    /// Whether the window starts at the first item of the list.
    pub first: bool,
    /// Whether the window ends at the last item of the list.
    pub last: bool,
    /// The items inside the window.
    pub content: &'a [T],
    /// Position of the cursor relative to the start of the window.
    pub selection: usize,
}

/// Where the window starts for a page of `page_size` rows over `total` items
/// with the cursor at `sel`.
pub open spec fn page_start(page_size: int, total: int, sel: int) -> int {
    if total <= page_size {
        0
    } else if sel < page_size / 2 {
        0
    } else if total - sel - 1 < page_size / 2 {
        total - page_size
    } else {
        sel - page_size / 2
    }
}

/// Where the window ends (exclusive) for a page of `page_size` rows over
/// `total` items with the cursor at `sel`.
pub open spec fn page_end(page_size: int, total: int, sel: int) -> int {
    if total <= page_size {
        total
    } else if sel < page_size / 2 {
        page_size
    } else if total - sel - 1 < page_size / 2 {
        total
    } else if page_size == 0 {
        sel + 1
    } else {
        sel - page_size / 2 + page_size
    }
}

/// A cursor position that a list of `total` items admits: inside the list,
/// or zero where the list is empty.
pub open spec fn valid_cursor(total: int, sel: int) -> bool {
    0 <= sel && (sel < total || (total == 0 && sel == 0))
}

/// The window is a contiguous part of the list, holds the cursor, and has
/// as many rows as the page has or the list can fill.
pub proof fn lemma_page_window(page_size: int, total: int, sel: int)
    requires
        0 <= page_size,
        0 <= total,
        valid_cursor(total, sel),
    ensures
        0 <= page_start(page_size, total, sel) <= page_end(page_size, total, sel) <= total,
        total > 0 ==> page_start(page_size, total, sel) <= sel < page_end(page_size, total, sel),
        page_size >= 1 ==> page_end(page_size, total, sel) - page_start(page_size, total, sel) == (
        if page_size <= total {
            page_size
        } else {
            total
        }),
{
}

/// Cuts the window of at most `page_size` items around the cursor `sel` out
/// of `choices`.
pub fn paginate<T>(page_size: usize, choices: &[T], sel: usize) -> (page: Page<'_, T>)
    requires
        valid_cursor(choices@.len() as int, sel as int),
    ensures
        page.content@ == choices@.subrange(
            page_start(page_size as int, choices@.len() as int, sel as int),
            page_end(page_size as int, choices@.len() as int, sel as int),
        ),
        page.selection == sel - page_start(page_size as int, choices@.len() as int, sel as int),
        page.first == (page_start(page_size as int, choices@.len() as int, sel as int) == 0),
        page.last == (page_end(page_size as int, choices@.len() as int, sel as int)
            == choices@.len()),
        choices@.len() > 0 ==> page.selection < page.content@.len(),
        page_size >= 1 ==> page.content@.len() == (if page_size <= choices@.len() {
            page_size as int
        } else {
            choices@.len() as int
        }),
{
    let total: usize = choices.len();
    proof {
        lemma_page_window(page_size as int, total as int, sel as int);
    }
    let half: usize = page_size / 2;
    let (start, end): (usize, usize) = if total <= page_size {
        (0, total)
    } else if sel < half {
        (0, page_size)
    } else if total - sel - 1 < half {
        (total - page_size, total)
    } else if page_size == 0 {
        (sel, sel + 1)
    } else {
        (sel - half, sel - half + page_size)
    };
    Page { first: start == 0, last: end == total, content: &choices[start..end], selection: sel - start }
}

} // verus!
