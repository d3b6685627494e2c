//! The engine of the multi-selection prompt: the state that a key changes,
//! and what each key makes of it.

use crate::error::{CustomUserError, InquireError, InquireResult, END_OF_KEYS};
use crate::filtering::{
    compose_view, creation_offered, is_view, labels_of, lemma_all_visible, lemma_view_of,
    offers_creation, view_of,
};
use crate::input::{key_edits_text, text_after_key, Input};
use crate::navigation::{
    clamp_cursor, cursor_after_down, cursor_after_up, cursor_clamped, move_down, move_up,
};
use crate::prompts::multiselect::MultiSelect;
use crate::selected_option::SelectedOption;
use crate::type_aliases::DynamicOption;
use crate::ui::{
    Key, KeyModifiers, ListOptionValue, ListOptionView, MultiSelectFrame, RenderConfig,
};
use crate::utils::{
    all_set, appended, checked_selection, lemma_nothing_checked, lemma_page_window,
    lemma_select_all_then_none, lemma_selection_in_registry_order, lemma_toggle_twice, page_end,
    page_start, paginate, registry_indexed, toggled, valid_cursor, ListOption, Page,
};
use crate::validator::{ErrorMessage, Validation};
use std::fmt::Display;
use vstd::prelude::*;
use vstd::string::to_string_from_display_ensures;

verus! {

/// Whether the stable indices of the selections ascend: the selections are
/// in the order of the registry, whatever the order in which they were made.
pub open spec fn in_registry_order<T>(selections: Seq<SelectedOption<T>>) -> bool {
    forall|j: int, k: int| 0 <= j < k < selections.len() ==> selections[j].index < selections[k].index
}

/// The checked entries by reference, in the order of the registry, each
/// with its stable index: what a validator is shown.
pub open spec fn checked_refs<'a, T>(options: Seq<ListOption<T>>) -> Seq<SelectedOption<&'a T>>
    decreases options.len(),
{
    if options.len() == 0 {
        Seq::empty()
    } else if options.last().checked {
        checked_refs(options.drop_last()).push(
            SelectedOption { index: options.last().index, value: &options.last().value },
        )
    } else {
        checked_refs(options.drop_last())
    }
}

/// The selections by reference.
pub open spec fn refs_of<'a, T>(selections: Seq<SelectedOption<T>>) -> Seq<SelectedOption<&'a T>> {
    Seq::new(
        selections.len(),
        |i: int| SelectedOption { index: selections[i].index, value: &selections[i].value },
    )
}

/// What a validator is shown is the selection result, by reference.
pub proof fn lemma_checked_refs<T>(options: Seq<ListOption<T>>)
    ensures
        checked_refs(options) == refs_of(checked_selection(options)),
    decreases options.len(),
{
    if options.len() > 0 {
        lemma_checked_refs(options.drop_last());
    }
    assert(checked_refs(options) =~= refs_of(checked_selection(options)));
}

/// Collects the checked entries by reference.
pub fn collect_checked<T>(options: &Vec<ListOption<T>>) -> (selected: Vec<SelectedOption<&T>>)
    ensures
        selected@ == checked_refs(options@),
{
    let mut selected: Vec<SelectedOption<&T>> = Vec::new();
    let mut i: usize = 0;
    while i < options.len()
        invariant
            i <= options.len(),
            selected@ == checked_refs(options@.take(i as int)),
        decreases options.len() - i,
    {
        proof {
            assert(options@.take(i + 1).drop_last() == options@.take(i as int));
        }
        if options[i].checked {
            selected.push(SelectedOption { index: options[i].index, value: &options[i].value });
        }
        i = i + 1;
    }
    proof {
        assert(options@.take(options.len() as int) == options@);
    }
    selected
}

/// Ends the life of a registry: hands out its checked entries, in the order
/// of the registry, each with its stable index, and drops the others.
pub fn drain_checked<T>(options: Vec<ListOption<T>>) -> (selected: Vec<SelectedOption<T>>)
    ensures
        selected@ == checked_selection(options@),
        registry_indexed(options@) ==> in_registry_order(selected@),
{
    proof {
        if registry_indexed(options@) {
            lemma_selection_in_registry_order(options@);
        }
    }
    let ghost all = options@;
    let mut selected: Vec<SelectedOption<T>> = Vec::new();
    for entry in it: options
        invariant
            it.seq() == all,
            selected@ == checked_selection(all.take(it.index())),
    {
        proof {
            assert(all.take(it.index() + 1).drop_last() == all.take(it.index()));
        }
        if entry.checked {
            selected.push(SelectedOption { index: entry.index, value: entry.value });
        }
    }
    proof {
        assert(all.take(all.len() as int) == all);
    }
    selected
}

/// The selections by reference.
pub fn selection_refs<T>(selections: &Vec<SelectedOption<T>>) -> (refs: Vec<SelectedOption<&T>>)
    ensures
        refs@ == refs_of(selections@),
{
    let mut refs: Vec<SelectedOption<&T>> = Vec::new();
    let mut i: usize = 0;
    while i < selections.len()
        invariant
            i <= selections.len(),
            refs@ == refs_of(selections@.take(i as int)),
        decreases selections.len() - i,
    {
        refs.push(selections[i].as_ref());
        assert(refs@ =~= refs_of(selections@.take(i + 1)));
        i = i + 1;
    }
    proof {
        assert(selections@.take(selections.len() as int) == selections@);
    }
    refs
}

/// What a key asks a multi-selection prompt to do.
#[derive(Clone, Copy, Debug, PartialEq, Eq, Structural)]
pub enum Command {
    /// Move the cursor up.
    MoveUp {
        /// By how many rows.
        qty: usize,
        /// Whether to go on from the last row after the first.
        wrap: bool,
    },
    /// Move the cursor down.
    MoveDown {
        /// By how many rows.
        qty: usize,
        /// Whether to go on from the first row after the last.
        wrap: bool,
    },
    /// Toggle the entry under the cursor.
    Toggle,
    /// Check, or uncheck, every entry.
    SetAll(bool),
    /// Hand the key to the editor of the filter text.
    Edit,
}

/// The keymap. The arrows up and down step by one row and wrap; with vim
/// mode on, so do `k` and `j`. Page up and page down move by a page, home
/// and end by as far as it goes, and none of them wraps. Space toggles,
/// the arrow right selects all entries and the arrow left none. An arrow
/// or character counts only where no modifier key is held. Every other
/// key goes to the editor of the filter text.
pub open spec fn command_of(key: Key, vim_mode: bool, page_size: usize) -> Command {
    match key {
        Key::Up(modifiers) => if modifiers.is_none() {
            Command::MoveUp { qty: 1, wrap: true }
        } else {
            Command::Edit
        },
        Key::Down(modifiers) => if modifiers.is_none() {
            Command::MoveDown { qty: 1, wrap: true }
        } else {
            Command::Edit
        },
        Key::PageUp => Command::MoveUp { qty: page_size, wrap: false },
        Key::Home => Command::MoveUp { qty: usize::MAX, wrap: false },
        Key::PageDown => Command::MoveDown { qty: page_size, wrap: false },
        Key::End => Command::MoveDown { qty: usize::MAX, wrap: false },
        Key::Right(modifiers) => if modifiers.is_none() {
            Command::SetAll(true)
        } else {
            Command::Edit
        },
        Key::Left(modifiers) => if modifiers.is_none() {
            Command::SetAll(false)
        } else {
            Command::Edit
        },
        Key::Char(c, modifiers) => if !modifiers.is_none() {
            Command::Edit
        } else if c == 'k' && vim_mode {
            Command::MoveUp { qty: 1, wrap: true }
        } else if c == 'j' && vim_mode {
            Command::MoveDown { qty: 1, wrap: true }
        } else if c == ' ' {
            Command::Toggle
        } else {
            Command::Edit
        },
        _ => Command::Edit,
    }
}

/// Looks a key up in the keymap.
pub fn classify(key: Key, vim_mode: bool, page_size: usize) -> (command: Command)
    ensures
        command == command_of(key, vim_mode, page_size),
{
    match key {
        Key::Up(modifiers) => if modifiers.is_none() {
            Command::MoveUp { qty: 1, wrap: true }
        } else {
            Command::Edit
        },
        Key::Down(modifiers) => if modifiers.is_none() {
            Command::MoveDown { qty: 1, wrap: true }
        } else {
            Command::Edit
        },
        Key::PageUp => Command::MoveUp { qty: page_size, wrap: false },
        Key::Home => Command::MoveUp { qty: usize::MAX, wrap: false },
        Key::PageDown => Command::MoveDown { qty: page_size, wrap: false },
        Key::End => Command::MoveDown { qty: usize::MAX, wrap: false },
        Key::Right(modifiers) => if modifiers.is_none() {
            Command::SetAll(true)
        } else {
            Command::Edit
        },
        Key::Left(modifiers) => if modifiers.is_none() {
            Command::SetAll(false)
        } else {
            Command::Edit
        },
        Key::Char(c, modifiers) => if !modifiers.is_none() {
            Command::Edit
        } else if c == 'k' && vim_mode {
            Command::MoveUp { qty: 1, wrap: true }
        } else if c == 'j' && vim_mode {
            Command::MoveDown { qty: 1, wrap: true }
        } else if c == ' ' {
            Command::Toggle
        } else {
            Command::Edit
        },
        _ => Command::Edit,
    }
}

/// What the controller of a prompt does after a key was handled.
#[derive(Clone, Copy, Debug, PartialEq, Eq, Structural)]
pub enum PromptAction {
    /// Draw the next frame and wait for the next key.
    Render,
    /// Leave the loop: the answer was submitted and found valid.
    Finish,
}

/// The running state of a multi-selection prompt: the option registry, the
/// filter text, the filtered view and the cursor in it.
pub struct MultiSelectPrompt<'a, T, F, M, V, C, K> {
    /// Message presented to the user.
    pub message: &'a str,
    /// The option registry. Entries are appended, never removed.
    pub options: Vec<ListOption<T>>,
    /// Help message presented to the user.
    pub help_message: Option<&'a str>,
    /// Whether `j` and `k` move the cursor.
    pub vim_mode: bool,
    /// Position of the cursor in the filtered view.
    pub cursor_index: usize,
    /// Number of rows shown at once.
    pub page_size: usize,
    /// Whether the filter text survives a selection.
    pub keep_filter: bool,
    /// The filter text.
    pub input: Input,
    /// The filtered view: stable indices of the entries that are shown.
    pub filtered_options: Vec<usize>,
    /// The filter.
    pub filter: F,
    /// Whether, and how, the user may add entries.
    pub dynamic_option: DynamicOption<C, K>,
    /// The formatter of the final answer.
    pub formatter: M,
    /// The validator of a submission.
    pub validator: V,
    /// The message of the last rejected submission.
    pub error: Option<ErrorMessage>,
    /// How frames are to be drawn.
    pub render_config: RenderConfig,
}

/// Whether `x` occurs in `items`.
pub fn slice_contains(items: &[usize], x: usize) -> (found: bool)
    ensures
        found == items@.contains(x),
{
    let mut i: usize = 0;
    while i < items.len()
        invariant
            i <= items.len(),
            forall|j: int| 0 <= j < i ==> items@[j] != x,
        decreases items.len() - i,
    {
        if items[i] == x {
            return true;
        }
        i = i + 1;
    }
    false
}

/// The first of `indices` that is no index into a list of `len` entries.
pub open spec fn first_offender(indices: Seq<usize>, len: usize) -> Option<usize>
    decreases indices.len(),
{
    if indices.len() == 0 {
        None
    } else if indices[0] >= len {
        Some(indices[0])
    } else {
        first_offender(indices.drop_first(), len)
    }
}

/// The first of `items` that is no index into a list of `len` entries.
pub fn first_out_of_bounds(items: &[usize], len: usize) -> (found: Option<usize>)
    ensures
        found == first_offender(items@, len),
        match found {
            Some(index) => index >= len && items@.contains(index),
            None => forall|j: int| 0 <= j < items@.len() ==> items@[j] < len,
        },
{
    let mut i: usize = 0;
    assert(items@.skip(0) == items@);
    while i < items.len()
        invariant
            i <= items.len(),
            forall|j: int| 0 <= j < i ==> items@[j] < len,
            first_offender(items@, len) == first_offender(items@.skip(i as int), len),
        decreases items.len() - i,
    {
        assert(items@.skip(i as int)[0] == items@[i as int]);
        assert(items@.skip(i as int).drop_first() == items@.skip(i + 1));
        if items[i] >= len {
            return Some(items[i]);
        }
        i = i + 1;
    }
    None
}

/// The index that the configuration error names: the first default index
/// outside the list or, where there is none, the starting cursor if that
/// is outside the list.
pub open spec fn offending_index(
    len: usize,
    default: Option<&[usize]>,
    starting_cursor: usize,
) -> Option<usize> {
    let among_defaults = match default {
        Some(indices) => first_offender(indices@, len),
        None => None,
    };
    if among_defaults is Some {
        among_defaults
    } else if starting_cursor >= len {
        Some(starting_cursor)
    } else {
        None
    }
}

/// Whether `message` says that `index` is no index into a list of `len`
/// entries.
pub open spec fn is_out_of_bounds_message(message: Seq<char>, index: usize, len: usize) -> bool {
    exists|index_text: String, len_text: String|
        #![trigger to_string_from_display_ensures::<usize>(&index, index_text), to_string_from_display_ensures::<usize>(&len, len_text)]
        to_string_from_display_ensures::<usize>(&index, index_text)
            && to_string_from_display_ensures::<usize>(&len, len_text) && message == "Index "@
            + index_text@ + " is out-of-bounds for length "@ + len_text@ + " of options"@
}

/// The message of the configuration error for an index outside the list.
pub fn out_of_bounds_message(index: usize, len: usize) -> (message: String)
    ensures
        is_out_of_bounds_message(message@, index, len),
{
    let index_text: String = index.to_string();
    let len_text: String = len.to_string();
    let mut message: String = String::from_str("Index ");
    message.append(index_text.as_str());
    message.append(" is out-of-bounds for length ");
    message.append(len_text.as_str());
    message.append(" of options");
    message
}

/// Whether a prompt cannot be set up with these arguments: the list is
/// empty, or a default index or the starting cursor lies outside it.
pub open spec fn is_misconfigured(len: int, default: Option<&[usize]>, starting_cursor: int) -> bool {
    ||| len == 0
    ||| default matches Some(indices) && exists|j: int|
        0 <= j < indices@.len() && #[trigger] indices@[j] >= len
    ||| starting_cursor >= len
}

impl<'a, T, F, M, V, C, K> MultiSelectPrompt<'a, T, F, M, V, C, K> where
    T: Display,
    F: Fn(&str, &T, &str, usize) -> bool,
    M: Fn(&[SelectedOption<&T>]) -> String,
    V: Fn(&[SelectedOption<&T>]) -> Result<Validation, CustomUserError>,
    C: Fn(&str, &[ListOption<T>]) -> Result<bool, CustomUserError>,
    K: Fn(&str) -> Result<T, CustomUserError>,
{
    /// Whether every function that is plugged in can be called on every
    /// argument.
    pub open spec fn callbacks_total(&self) -> bool {
        &&& forall|filter: &str, value: &T, string_value: &str, index: usize|
            call_requires(self.filter, (filter, value, string_value, index))
        &&& forall|ans: &[SelectedOption<&T>]| call_requires(self.formatter, (ans,))
        &&& forall|ans: &[SelectedOption<&T>]| call_requires(self.validator, (ans,))
        &&& self.dynamic_option matches DynamicOption::Enabled(condition, creator) ==> {
            &&& forall|filter: &str, entries: &[ListOption<T>]|
                call_requires(condition, (filter, entries))
            &&& forall|filter: &str| call_requires(creator, (filter,))
        }
    }

    /// The invariant of a prompt: every entry carries its position as its
    /// stable index, the filtered view is a view over the registry that
    /// holds the place of a new entry only where entries can be added, the
    /// cursor is inside the view, or zero where the view is empty, and the
    /// plugged-in functions are total.
    pub open spec fn wf(&self) -> bool {
        &&& registry_indexed(self.options@)
        &&& is_view(self.filtered_options@, self.options@.len() as int)
        &&& valid_cursor(self.filtered_options@.len() as int, self.cursor_index as int)
        &&& self.filtered_options@.contains(self.options@.len() as usize)
            ==> self.dynamic_option is Enabled
        &&& self.callbacks_total()
    }

    /// Whether the filter, asked about the entry at `i` under the current
    /// filter text, may answer `shown`.
    pub open spec fn filter_answers(&self, i: int, shown: bool) -> bool {
        exists|text: &str, label: &str|
            text@ == self.input@ && label@ == self.options@[i].string_value@
                && #[trigger] call_ensures(
                self.filter,
                (text, &self.options@[i].value, label, i as usize),
                shown,
            )
    }

    /// Whether the entry at `i` may be shown, or hidden, under the current
    /// filter text: the empty text shows every entry, any other text asks
    /// the filter.
    pub open spec fn may_show(&self, i: int, shown: bool) -> bool {
        if self.input@.len() == 0 {
            shown
        } else {
            self.filter_answers(i, shown)
        }
    }

    /// Whether the condition, asked about the current filter text and
    /// registry, may give `answer`.
    pub open spec fn condition_answers(&self, answer: Result<bool, CustomUserError>) -> bool {
        self.dynamic_option matches DynamicOption::Enabled(condition, _) && exists|
            text: &str,
            entries: &[ListOption<T>],
        |
            text@ == self.input@ && entries@ == self.options@ && #[trigger] call_ensures(
                condition,
                (text, entries),
                answer,
            )
    }

    /// Whether new entries are, or are not, allowed now: never where the
    /// dynamic option is disabled, else as the condition answers.
    pub open spec fn creation_allowed(&self, allowed: bool) -> bool {
        if self.dynamic_option is Disabled {
            !allowed
        } else {
            self.condition_answers(Ok(allowed))
        }
    }

    /// Whether `error` is a failure that the condition may report now.
    pub open spec fn condition_fails(&self, error: InquireError) -> bool {
        error matches InquireError::Custom(reason) && self.condition_answers(Err(reason))
    }

    /// Whether `view` is the filtered view that follows from the answers
    /// `shown` of the filter and the answer `allowed` of the condition.
    pub open spec fn view_explained(&self, view: Seq<usize>, shown: Seq<bool>, allowed: bool) -> bool {
        &&& shown.len() == self.options@.len()
        &&& forall|i: int| 0 <= i < shown.len() ==> #[trigger] self.may_show(i, shown[i])
        &&& self.creation_allowed(allowed)
        &&& view == view_of(
            shown,
            creation_offered(allowed, self.input@, labels_of(self.options@), shown),
        )
    }

    /// Whether `view` is a filtered view of the current filter text and
    /// registry: the one that follows from some answers of the filter and
    /// the condition.
    pub open spec fn is_filtered_view(&self, view: Seq<usize>) -> bool {
        exists|shown: Seq<bool>, allowed: bool| #[trigger] self.view_explained(view, shown, allowed)
    }

    /// A filtered view is a view over the registry. It holds the place of a
    /// new entry only where entries can be added and the filter text is not
    /// empty, and under the empty filter text it holds every entry.
    pub proof fn lemma_filtered_view(&self, view: Seq<usize>)
        requires
            self.is_filtered_view(view),
            self.options@.len() <= usize::MAX,
        ensures
            is_view(view, self.options@.len() as int),
            view.len() <= self.options@.len() + 1,
            view.contains(self.options@.len() as usize) ==> self.dynamic_option is Enabled
                && self.input@.len() > 0,
            self.input@.len() == 0 ==> view == Seq::new(self.options@.len(), |i: int| i as usize),
    {
        let (shown, allowed) = choose|shown: Seq<bool>, allowed: bool| #[trigger]
            self.view_explained(view, shown, allowed);
        let offer = creation_offered(allowed, self.input@, labels_of(self.options@), shown);
        lemma_view_of(shown, offer);
        if self.input@.len() == 0 {
            assert forall|i: int| 0 <= i < shown.len() implies shown[i] by {
                assert(self.may_show(i, shown[i]));
            }
            lemma_all_visible(shown);
        }
    }

    /// Whether `self` is the prompt that the configuration `mso` starts
    /// with: the registry holds the options in their order, each under its
    /// display text and its position as stable index, checked exactly if
    /// its index is among the defaults; the filter text is empty, every
    /// entry is in view, the cursor is where the configuration puts it, and
    /// no submission was rejected yet.
    pub open spec fn is_setup_of(&self, mso: &MultiSelect<'a, T, F, M, V, C, K>) -> bool {
        &&& self.wf()
        &&& self.options@.len() == mso.options@.len()
        &&& forall|i: int|
            0 <= i < mso.options@.len() ==> {
                let entry = #[trigger] self.options@[i];
                &&& entry.index == i
                &&& entry.value == mso.options@[i]
                &&& to_string_from_display_ensures::<T>(&entry.value, entry.string_value)
                &&& entry.checked == (mso.default matches Some(indices) && indices@.contains(
                    i as usize,
                ))
            }
        &&& self.filtered_options@ == Seq::new(mso.options@.len(), |i: int| i as usize)
        &&& self.cursor_index == mso.starting_cursor
        &&& self.input@.len() == 0
        &&& self.error is None
        &&& self.message == mso.message
        &&& self.help_message == mso.help_message
        &&& self.vim_mode == mso.vim_mode
        &&& self.page_size == mso.page_size
        &&& self.keep_filter == mso.keep_filter
        &&& self.filter == mso.filter
        &&& self.dynamic_option == mso.dynamic_option
        &&& self.formatter == mso.formatter
        &&& self.validator == mso.validator
        &&& self.render_config == mso.render_config
    }

    /// Sets up the prompt from its configuration: the registry with the
    /// default entries checked, the empty filter text, every entry in view
    /// and the cursor where the configuration puts it.
    ///
    /// Fails with a configuration error if the list of options is empty or
    /// if a default index or the starting cursor lies outside the list.
    pub fn new(mso: MultiSelect<'a, T, F, M, V, C, K>) -> (made: InquireResult<Self>)
        requires
            mso.callbacks_total(),
        ensures
            made is Err <==> is_misconfigured(
                mso.options@.len() as int,
                mso.default,
                mso.starting_cursor as int,
            ),
            made matches Err(error) ==> {
                &&& error matches InquireError::InvalidConfiguration(message)
                &&& mso.options@.len() == 0 ==> message@ == "Available options can not be empty"@
                &&& mso.options@.len() > 0 ==> {
                    &&& offending_index(
                        mso.options.len(),
                        mso.default,
                        mso.starting_cursor,
                    ) matches Some(index)
                    &&& is_out_of_bounds_message(message@, index, mso.options.len())
                }
            },
            made matches Ok(prompt) ==> prompt.is_setup_of(&mso),
    {
        let total: usize = mso.options.len();
        if total == 0 {
            return Err(
                InquireError::InvalidConfiguration(
                    String::from_str("Available options can not be empty"),
                ),
            );
        }
        if let Some(default) = mso.default {
            if let Some(index) = first_out_of_bounds(default, total) {
                let message: String = out_of_bounds_message(index, total);
                assert(is_out_of_bounds_message(message@, index, total));
                return Err(InquireError::InvalidConfiguration(message));
            }
        }
        if mso.starting_cursor >= total {
            let message: String = out_of_bounds_message(mso.starting_cursor, total);
            assert(is_out_of_bounds_message(message@, mso.starting_cursor, total));
            return Err(InquireError::InvalidConfiguration(message));
        }
        let ghost values = mso.options@;
        let default: Option<&'a [usize]> = mso.default;
        let mut options: Vec<ListOption<T>> = Vec::new();
        let mut filtered_options: Vec<usize> = Vec::new();
        for value in it: mso.options
            invariant
                it.seq() == values,
                options@.len() == it.index(),
                filtered_options@ == Seq::new(it.index() as nat, |i: int| i as usize),
                forall|i: int|
                    0 <= i < options@.len() ==> {
                        let entry = #[trigger] options@[i];
                        &&& entry.index == i
                        &&& entry.value == values[i]
                        &&& to_string_from_display_ensures::<T>(&entry.value, entry.string_value)
                        &&& entry.checked == (default matches Some(indices) && indices@.contains(
                            i as usize,
                        ))
                    },
        {
            let index: usize = options.len();
            let checked: bool = match default {
                Some(indices) => slice_contains(indices, index),
                None => false,
            };
            let string_value: String = value.to_string();
            options.push(ListOption { index, string_value, value, checked });
            filtered_options.push(index);
            assert(filtered_options@ =~= Seq::new((index + 1) as nat, |i: int| i as usize));
        }
        let prompt = MultiSelectPrompt {
            message: mso.message,
            options,
            filtered_options,
            help_message: mso.help_message,
            vim_mode: mso.vim_mode,
            cursor_index: mso.starting_cursor,
            page_size: mso.page_size,
            keep_filter: mso.keep_filter,
            input: Input::new(),
            dynamic_option: mso.dynamic_option,
            filter: mso.filter,
            formatter: mso.formatter,
            validator: mso.validator,
            error: None,
            render_config: mso.render_config,
        };
        assert(!prompt.filtered_options@.contains(prompt.options@.len() as usize));
        Ok(prompt)
    }

    /// Computes the filtered view anew from the filter text and the
    /// registry: the entries that the filter shows, in registry order,
    /// followed by the place of a new entry where one is offered. Under the
    /// empty filter text every entry is shown and the filter is not asked.
    ///
    /// Fails where the condition of the dynamic option does.
    pub fn filter_options(&self) -> (filtered: InquireResult<Vec<usize>>)
        requires
            self.callbacks_total(),
        ensures
            match filtered {
                Ok(view) => self.is_filtered_view(view@),
                Err(error) => self.condition_fails(error),
            },
            self.dynamic_option is Disabled ==> filtered is Ok,
    {
        let text: &str = self.input.content();
        let mut shown: Vec<bool> = Vec::new();
        let mut i: usize = 0;
        while i < self.options.len()
            invariant
                self.callbacks_total(),
                text@ == self.input@,
                i <= self.options.len(),
                shown@.len() == i,
                forall|j: int| 0 <= j < i ==> #[trigger] self.may_show(j, shown@[j]),
            decreases self.options.len() - i,
        {
            let visible: bool = if text.is_empty() {
                true
            } else {
                (self.filter)(text, &self.options[i].value, self.options[i].string_value.as_str(), i)
            };
            assert(self.may_show(i as int, visible));
            shown.push(visible);
            i = i + 1;
        }
        let allowed: bool = match &self.dynamic_option {
            DynamicOption::Disabled => false,
            DynamicOption::Enabled(condition, _) => {
                match condition(text, self.options.as_slice()) {
                    Ok(allowed) => allowed,
                    Err(reason) => {
                        return Err(InquireError::Custom(reason));
                    },
                }
            },
        };
        let offer: bool = offers_creation(allowed, &self.input.content, &self.options, &shown);
        let view: Vec<usize> = compose_view(&shown, offer);
        assert(self.view_explained(view@, shown@, allowed));
        Ok(view)
    }

    /// Whether `self` is what a refresh makes of `before`: the filtered
    /// view computed anew, the cursor brought back into it, and all else as
    /// it was.
    pub open spec fn refreshed_from(&self, before: &Self) -> bool {
        &&& *self == (MultiSelectPrompt {
            filtered_options: self.filtered_options,
            cursor_index: self.cursor_index,
            ..*before
        })
        &&& before.is_filtered_view(self.filtered_options@)
        &&& self.cursor_index == cursor_clamped(
            before.cursor_index as int,
            self.filtered_options@.len() as int,
        )
    }

    /// Recomputes the filtered view and clamps the cursor into it: a
    /// cursor past the end of the new view moves to its last row, or to
    /// zero where the view is empty. The registry and the filter text are
    /// not touched.
    ///
    /// Fails, changing nothing, where the condition of the dynamic option
    /// fails.
    pub fn refresh_options(&mut self) -> (refreshed: InquireResult<()>)
        requires
            old(self).callbacks_total(),
            registry_indexed(old(self).options@),
        ensures
            match refreshed {
                Ok(()) => final(self).refreshed_from(old(self)) && final(self).wf(),
                Err(error) => *final(self) == *old(self) && old(self).condition_fails(error),
            },
            old(self).dynamic_option is Disabled ==> refreshed is Ok,
    {
        let options: Vec<usize> = match self.filter_options() {
            Ok(options) => options,
            Err(error) => {
                return Err(error);
            },
        };
        let total: usize = self.options.len();
        proof {
            self.lemma_filtered_view(options@);
        }
        self.cursor_index = clamp_cursor(self.cursor_index, options.len());
        self.filtered_options = options;
        Ok(())
    }

    /// Moves the cursor `qty` rows up: a wrapping move that passes the first
    /// row goes on from the last, any other stops at the first row.
    pub fn move_cursor_up(&mut self, qty: usize, wrap: bool)
        ensures
            *final(self) == (MultiSelectPrompt {
                cursor_index: cursor_after_up(
                    old(self).cursor_index as int,
                    old(self).filtered_options@.len() as int,
                    qty as int,
                    wrap,
                ) as usize,
                ..*old(self)
            }),
            old(self).wf() ==> final(self).wf(),
    {
        self.cursor_index = move_up(self.cursor_index, self.filtered_options.len(), qty, wrap);
    }

    /// Moves the cursor `qty` rows down: a wrapping move that passes the
    /// last row goes on from the first, any other stops at the last row. In
    /// an empty view the cursor goes to row zero.
    pub fn move_cursor_down(&mut self, qty: usize, wrap: bool)
        ensures
            *final(self) == (MultiSelectPrompt {
                cursor_index: cursor_after_down(
                    old(self).cursor_index as int,
                    old(self).filtered_options@.len() as int,
                    qty as int,
                    wrap,
                ) as usize,
                ..*old(self)
            }),
            old(self).wf() ==> final(self).wf(),
            old(self).filtered_options@.len() == 0 ==> final(self).cursor_index == 0,
    {
        self.cursor_index = move_down(self.cursor_index, self.filtered_options.len(), qty, wrap);
    }

    /// Checks, or unchecks, every entry of the registry, whether the filter
    /// shows it or not.
    pub fn set_all(&mut self, checked: bool)
        ensures
            final(self).options@ == all_set(old(self).options@, checked),
            *final(self) == (MultiSelectPrompt { options: final(self).options, ..*old(self) }),
            old(self).wf() ==> final(self).wf(),
    {
        let mut i: usize = 0;
        while i < self.options.len()
            invariant
                i <= self.options@.len(),
                self.options@.len() == old(self).options@.len(),
                *self == (MultiSelectPrompt { options: self.options, ..*old(self) }),
                forall|j: int|
                    0 <= j < i ==> #[trigger] self.options@[j] == all_set(
                        old(self).options@,
                        checked,
                    )[j],
                forall|j: int|
                    i <= j < self.options@.len() ==> #[trigger] self.options@[j] == old(
                        self,
                    ).options@[j],
            decreases self.options@.len() - i,
        {
            self.options[i].checked = checked;
            i = i + 1;
        }
        assert(self.options@ =~= all_set(old(self).options@, checked));
    }

    /// Whether the creator, asked to make a value of the current filter
    /// text, may answer `created`.
    pub open spec fn creator_answers(&self, created: Result<T, CustomUserError>) -> bool {
        self.dynamic_option matches DynamicOption::Enabled(_, creator) && exists|text: &str|
            text@ == self.input@ && #[trigger] call_ensures(creator, (text,), created)
    }

    /// The filter text after a selection was made: kept or cleared, as the
    /// prompt is configured.
    pub open spec fn text_after_selection(&self) -> Seq<char> {
        if self.keep_filter {
            self.input@
        } else {
            Seq::empty()
        }
    }

    /// Whether `after` differs from `self` in the registry and the filter
    /// text at most.
    pub open spec fn same_but_selection(&self, after: &Self) -> bool {
        *after == (MultiSelectPrompt { options: after.options, input: after.input, ..*self })
    }

    /// Whether a toggle at the cursor may lead from `self` to `after` with
    /// the result `outcome`.
    ///
    /// - In an empty view nothing changes.
    /// - On the row of an entry, that entry changes its checked state.
    /// - On the row of an entry that is yet to be created, the creator is
    ///   asked for a value of the filter text. If it fails, so does the
    ///   toggle, and nothing changes. Otherwise the value is appended to
    ///   the registry as a checked entry under its display text, with the
    ///   length of the registry so far as its stable index.
    ///
    /// A toggle that changed the registry clears the filter text unless the
    /// prompt keeps it.
    pub open spec fn toggle_gives(&self, after: &Self, outcome: InquireResult<()>) -> bool {
        if self.filtered_options@.len() == 0 {
            outcome is Ok && *after == *self
        } else {
            let index = self.filtered_options@[self.cursor_index as int];
            if index < self.options@.len() {
                &&& outcome is Ok
                &&& self.same_but_selection(after)
                &&& after.options@ == toggled(self.options@, index as int)
                &&& after.input@ == self.text_after_selection()
            } else {
                match outcome {
                    Ok(()) => {
                        &&& self.same_but_selection(after)
                        &&& after.input@ == self.text_after_selection()
                        &&& after.options@.len() == self.options@.len() + 1
                        &&& after.options@ == appended(
                            self.options@,
                            after.options@.last().string_value,
                            after.options@.last().value,
                        )
                        &&& self.creator_answers(Ok(after.options@.last().value))
                        &&& to_string_from_display_ensures::<T>(
                            &after.options@.last().value,
                            after.options@.last().string_value,
                        )
                    },
                    Err(error) => {
                        &&& *after == *self
                        &&& error matches InquireError::Custom(reason)
                        &&& self.creator_answers(Err(reason))
                    },
                }
            }
        }
    }

    /// Toggles the entry under the cursor; see [`Self::toggle_gives`].
    pub fn toggle_cursor_selection(&mut self) -> (outcome: InquireResult<()>)
        requires
            old(self).wf(),
        ensures
            old(self).toggle_gives(final(self), outcome),
            final(self).wf(),
            old(self).filtered_options@.len() > 0 && old(self).filtered_options@[old(
                self,
            ).cursor_index as int] < old(self).options@.len() ==> outcome is Ok,
    {
        if self.filtered_options.len() == 0 {
            return Ok(());
        }
        let index: usize = self.filtered_options[self.cursor_index];
        if index < self.options.len() {
            let checked: bool = self.options[index].checked;
            self.options[index].checked = !checked;
            assert(self.options@ =~= toggled(old(self).options@, index as int));
        } else {
            assert(old(self).filtered_options@.contains(index));
            match &self.dynamic_option {
                DynamicOption::Enabled(_, creator) => {
                    let value: T = match creator(self.input.content()) {
                        Ok(value) => value,
                        Err(reason) => {
                            return Err(InquireError::Custom(reason));
                        },
                    };
                    let string_value: String = value.to_string();
                    let index: usize = self.options.len();
                    self.options.push(ListOption { index, string_value, value, checked: true });
                },
                DynamicOption::Disabled => {},
            }
        }
        if !self.keep_filter {
            self.input.clear();
        }
        Ok(())
    }

    /// Whether the validator, shown the checked entries, may give
    /// `verdict`.
    pub open spec fn validator_answers(&self, verdict: Result<Validation, CustomUserError>) -> bool {
        exists|ans: &[SelectedOption<&T>]|
            ans@ == checked_refs(self.options@) && #[trigger] call_ensures(
                self.validator,
                (ans,),
                verdict,
            )
    }

    /// Whether a validation of the current answer may end in `outcome`: the
    /// verdict of the validator, or its failure.
    pub open spec fn validation_gives(&self, outcome: InquireResult<Validation>) -> bool {
        match outcome {
            Ok(verdict) => self.validator_answers(Ok(verdict)),
            Err(error) => error matches InquireError::Custom(reason) && self.validator_answers(
                Err(reason),
            ),
        }
    }

    /// Shows the validator every checked entry of the registry, whether the
    /// filter shows it or not, in registry order, and returns its verdict.
    pub fn validate_current_answer(&self) -> (outcome: InquireResult<Validation>)
        requires
            self.callbacks_total(),
        ensures
            self.validation_gives(outcome),
    {
        let selected_options: Vec<SelectedOption<&T>> = collect_checked(&self.options);
        match (self.validator)(selected_options.as_slice()) {
            Ok(verdict) => Ok(verdict),
            Err(reason) => Err(InquireError::Custom(reason)),
        }
    }

    /// The selection result: the checked entries, in registry order, each
    /// with its stable index. This ends the prompt.
    pub fn get_final_answer(self) -> (answer: Vec<SelectedOption<T>>)
        ensures
            answer@ == checked_selection(self.options@),
            registry_indexed(self.options@) ==> in_registry_order(answer@),
    {
        drain_checked(self.options)
    }

    /// Whether the formatter, shown `answer`, may print it as `text`.
    pub open spec fn formatter_answers(&self, answer: Seq<SelectedOption<T>>, text: String) -> bool {
        exists|ans: &[SelectedOption<&T>]|
            ans@ == refs_of(answer) && #[trigger] call_ensures(self.formatter, (ans,), text)
    }

    /// Ends the prompt: the selection result, and the text by which the
    /// formatter shows it to the user.
    pub fn finish(self) -> (done: (Vec<SelectedOption<T>>, String))
        requires
            self.callbacks_total(),
        ensures
            done.0@ == checked_selection(self.options@),
            registry_indexed(self.options@) ==> in_registry_order(done.0@),
            self.formatter_answers(done.0@, done.1),
    {
        let formatter: M = self.formatter;
        let answer: Vec<SelectedOption<T>> = drain_checked(self.options);
        let refs: Vec<SelectedOption<&T>> = selection_refs(&answer);
        let formatted: String = formatter(refs.as_slice());
        (answer, formatted)
    }

    /// Whether `row` is the row of the filtered view at `position`: the
    /// display text and checked state of the entry there, or the filter
    /// text, unchecked, in the place of an entry that is yet to be
    /// created; highlighted if the cursor is on it.
    pub open spec fn is_row(&self, row: ListOptionView<'_>, position: int) -> bool {
        let index = self.filtered_options@[position];
        &&& row.index == index
        &&& row.highlighted == (position == self.cursor_index)
        &&& if index < self.options@.len() {
            &&& row.content matches ListOptionValue::Normal(text)
            &&& text@ == self.options@[index as int].string_value@
            &&& row.checked == self.options@[index as int].checked
        } else {
            &&& row.content matches ListOptionValue::Dynamic(text)
            &&& text@ == self.input@
            &&& !row.checked
        }
    }

    /// The first position of the filtered view inside the page window.
    pub open spec fn window_start(&self) -> int {
        page_start(
            self.page_size as int,
            self.filtered_options@.len() as int,
            self.cursor_index as int,
        )
    }

    /// The first position of the filtered view after the page window.
    pub open spec fn window_end(&self) -> int {
        page_end(
            self.page_size as int,
            self.filtered_options@.len() as int,
            self.cursor_index as int,
        )
    }

    /// Puts together what is to be drawn: the message, the filter text, the
    /// message of the last rejected submission, the rows of the filtered
    /// view inside the page window around the cursor, and the help line.
    pub fn render(&self) -> (frame: MultiSelectFrame<'_>)
        requires
            self.wf(),
        ensures
            frame.message == self.message,
            frame.input@ == self.input@,
            frame.help_message == self.help_message,
            self.error matches Some(message) ==> frame.error == Some(&message),
            self.error is None ==> frame.error is None,
            frame.options@.len() == self.window_end() - self.window_start(),
            forall|j: int|
                0 <= j < frame.options@.len() ==> self.is_row(
                    #[trigger] frame.options@[j],
                    self.window_start() + j,
                ),
            frame.selection == self.cursor_index - self.window_start(),
            frame.first == (self.window_start() == 0),
            frame.last == (self.window_end() == self.filtered_options@.len()),
    {
        let page: Page<'_, usize> = paginate(
            self.page_size,
            self.filtered_options.as_slice(),
            self.cursor_index,
        );
        proof {
            lemma_page_window(
                self.page_size as int,
                self.filtered_options@.len() as int,
                self.cursor_index as int,
            );
        }
        let start: usize = self.cursor_index - page.selection;
        let total: usize = self.filtered_options.len();
        let mut options: Vec<ListOptionView<'_>> = Vec::new();
        let mut j: usize = 0;
        while j < page.content.len()
            invariant
                self.wf(),
                j <= page.content@.len(),
                start == self.window_start(),
                page.content@ == self.filtered_options@.subrange(
                    self.window_start(),
                    self.window_end(),
                ),
                0 <= self.window_start() <= self.window_end() <= self.filtered_options@.len(),
                page.content@.len() == self.window_end() - self.window_start(),
                self.filtered_options@.len() <= usize::MAX,
                options@.len() == j,
                forall|k: int|
                    0 <= k < j ==> self.is_row(#[trigger] options@[k], self.window_start() + k),
            decreases page.content@.len() - j,
        {
            let index: usize = page.content[j];
            let highlighted: bool = start + j == self.cursor_index;
            let row = if index < self.options.len() {
                ListOptionView {
                    index,
                    content: ListOptionValue::Normal(self.options[index].string_value.as_str()),
                    checked: self.options[index].checked,
                    highlighted,
                }
            } else {
                ListOptionView {
                    index,
                    content: ListOptionValue::Dynamic(self.input.content()),
                    checked: false,
                    highlighted,
                }
            };
            assert(self.is_row(row, self.window_start() + j));
            options.push(row);
            j = j + 1;
        }
        MultiSelectFrame {
            message: self.message,
            input: self.input.content(),
            error: self.error.as_ref(),
            options,
            selection: page.selection,
            first: page.first,
            last: page.last,
            help_message: self.help_message,
        }
    }

    /// Whether `after` is `self` with every entry checked, or unchecked, and
    /// the filter text kept or cleared as the prompt is configured.
    pub open spec fn set_all_gives(&self, after: &Self, checked: bool) -> bool {
        &&& self.same_but_selection(after)
        &&& after.options@ == all_set(self.options@, checked)
        &&& after.input@ == self.text_after_selection()
    }

    /// Whether `after` is `self` with the key applied to the filter text.
    pub open spec fn edit_gives(&self, after: &Self, key: Key) -> bool {
        &&& *after == (MultiSelectPrompt { input: after.input, ..*self })
        &&& after.input@ == text_after_key(self.input@, key)
    }

    /// Whether a refresh may lead from `self` to `after` with the result
    /// `outcome`.
    pub open spec fn refresh_gives(&self, after: &Self, outcome: InquireResult<()>) -> bool {
        match outcome {
            Ok(()) => after.refreshed_from(self),
            Err(error) => *after == *self && self.condition_fails(error),
        }
    }

    /// Whether a toggle that leads from `self` to `mid`, and the refresh
    /// that follows it where it succeeded, may lead to `after` with the
    /// result `outcome`.
    pub open spec fn toggle_then_refresh(
        &self,
        mid: &Self,
        after: &Self,
        outcome: InquireResult<()>,
    ) -> bool {
        ||| self.toggle_gives(mid, Ok(())) && mid.refresh_gives(after, outcome)
        ||| outcome is Err && self.toggle_gives(mid, outcome) && *after == *self
    }

    /// Whether setting all entries, which leads from `self` to `mid`, and
    /// the refresh that follows it may lead to `after` with the result
    /// `outcome`.
    pub open spec fn set_all_then_refresh(
        &self,
        mid: &Self,
        after: &Self,
        checked: bool,
        outcome: InquireResult<()>,
    ) -> bool {
        self.set_all_gives(mid, checked) && mid.refresh_gives(after, outcome)
    }

    /// Whether an edit of the filter text, which leads from `self` to
    /// `mid`, and the refresh that follows it may lead to `after` with the
    /// result `outcome`.
    pub open spec fn edit_then_refresh(
        &self,
        mid: &Self,
        after: &Self,
        key: Key,
        outcome: InquireResult<()>,
    ) -> bool {
        self.edit_gives(mid, key) && mid.refresh_gives(after, outcome)
    }

    /// Whether the key may lead from `self` to `after` with the result
    /// `outcome`, by the keymap of [`command_of`]:
    ///
    /// - a move puts the cursor where [`cursor_after_up`] or
    ///   [`cursor_after_down`] says and changes nothing else;
    /// - a toggle in an empty view changes nothing; any other toggle is
    ///   followed by a refresh of the filtered view;
    /// - setting all entries is followed by a refresh;
    /// - a key that edits the filter text is followed by a refresh, and a
    ///   key that does not changes nothing.
    pub open spec fn change_gives(&self, key: Key, after: &Self, outcome: InquireResult<()>) -> bool {
        match command_of(key, self.vim_mode, self.page_size) {
            Command::MoveUp { qty, wrap } => {
                &&& outcome is Ok
                &&& *after == (MultiSelectPrompt {
                    cursor_index: cursor_after_up(
                        self.cursor_index as int,
                        self.filtered_options@.len() as int,
                        qty as int,
                        wrap,
                    ) as usize,
                    ..*self
                })
            },
            Command::MoveDown { qty, wrap } => {
                &&& outcome is Ok
                &&& *after == (MultiSelectPrompt {
                    cursor_index: cursor_after_down(
                        self.cursor_index as int,
                        self.filtered_options@.len() as int,
                        qty as int,
                        wrap,
                    ) as usize,
                    ..*self
                })
            },
            Command::Toggle => if self.filtered_options@.len() == 0 {
                outcome is Ok && *after == *self
            } else {
                exists|mid: Self| #[trigger] self.toggle_then_refresh(&mid, after, outcome)
            },
            Command::SetAll(checked) => exists|mid: Self| #[trigger]
                self.set_all_then_refresh(&mid, after, checked, outcome),
            Command::Edit => if key_edits_text(self.input@, key) {
                exists|mid: Self| #[trigger] self.edit_then_refresh(&mid, after, key, outcome)
            } else {
                outcome is Ok && *after == *self
            },
        }
    }

    /// Applies a key that neither submits nor ends the prompt; see
    /// [`Self::change_gives`]. A key that moves the cursor or edits the
    /// filter text leaves the registry as it is. With the dynamic option
    /// disabled no key fails.
    pub fn on_change(&mut self, key: Key) -> (outcome: InquireResult<()>)
        requires
            old(self).wf(),
        ensures
            old(self).change_gives(key, final(self), outcome),
            final(self).wf(),
            !(command_of(key, old(self).vim_mode, old(self).page_size) is Toggle) && !(command_of(
                key,
                old(self).vim_mode,
                old(self).page_size,
            ) is SetAll) ==> final(self).options == old(self).options,
            old(self).dynamic_option is Disabled ==> outcome is Ok,
    {
        match classify(key, self.vim_mode, self.page_size) {
            Command::MoveUp { qty, wrap } => {
                self.move_cursor_up(qty, wrap);
                Ok(())
            },
            Command::MoveDown { qty, wrap } => {
                self.move_cursor_down(qty, wrap);
                Ok(())
            },
            Command::Toggle => {
                if self.filtered_options.len() == 0 {
                    return Ok(());
                }
                match self.toggle_cursor_selection() {
                    Ok(()) => {},
                    Err(error) => {
                        assert(old(self).toggle_then_refresh(old(self), self, Err(error)));
                        return Err(error);
                    },
                }
                let ghost mid = *self;
                let outcome = self.refresh_options();
                assert(old(self).toggle_then_refresh(&mid, self, outcome));
                outcome
            },
            Command::SetAll(checked) => {
                self.set_all(checked);
                if !self.keep_filter {
                    self.input.clear();
                }
                let ghost mid = *self;
                let outcome = self.refresh_options();
                assert(old(self).set_all_then_refresh(&mid, self, checked, outcome));
                outcome
            },
            Command::Edit => {
                let dirty: bool = self.input.handle_key(key);
                if dirty {
                    let ghost mid = *self;
                    let outcome = self.refresh_options();
                    assert(old(self).edit_then_refresh(&mid, self, key, outcome));
                    outcome
                } else {
                    Ok(())
                }
            },
        }
    }

    /// `self` with `message` as the message of the last rejected
    /// submission.
    pub open spec fn rejected_with(&self, message: ErrorMessage) -> Self {
        MultiSelectPrompt { error: Some(message), ..*self }
    }

    /// Whether a submission, on which the validator ended in `verdict`, may
    /// lead from `self` to `after` with the result `outcome`: a valid
    /// answer finishes the prompt, a rejected one goes on with the message
    /// of the validator to be shown, and a failure of the validator ends
    /// the prompt with that failure.
    pub open spec fn submit_gives(
        &self,
        verdict: InquireResult<Validation>,
        after: &Self,
        outcome: InquireResult<PromptAction>,
    ) -> bool {
        &&& self.validation_gives(verdict)
        &&& match verdict {
            Ok(Validation::Valid) => outcome == Ok::<PromptAction, InquireError>(
                PromptAction::Finish,
            ) && *after == *self,
            Ok(Validation::Invalid(message)) => outcome == Ok::<PromptAction, InquireError>(
                PromptAction::Render,
            ) && *after == self.rejected_with(message),
            Err(error) => outcome == Err::<PromptAction, InquireError>(error) && *after == *self,
        }
    }

    /// Whether the key may lead from `self` to `after` with the result
    /// `outcome`.
    ///
    /// - The interrupt key ends the prompt as interrupted, and the key
    ///   that skips it ends it as canceled; neither asks the validator.
    /// - The submit key asks the validator; see [`Self::submit_gives`].
    /// - Every other key is applied as [`Self::change_gives`] says, and the
    ///   prompt goes on unless a plugged-in function failed.
    pub open spec fn key_gives(
        &self,
        key: Key,
        after: &Self,
        outcome: InquireResult<PromptAction>,
    ) -> bool {
        match key {
            Key::Interrupt => outcome == Err::<PromptAction, InquireError>(
                InquireError::OperationInterrupted,
            ) && *after == *self,
            Key::Cancel => outcome == Err::<PromptAction, InquireError>(
                InquireError::OperationCanceled,
            ) && *after == *self,
            Key::Submit => exists|verdict: InquireResult<Validation>| #[trigger]
                self.submit_gives(verdict, after, outcome),
            _ => match outcome {
                Ok(action) => action == PromptAction::Render && self.change_gives(
                    key,
                    after,
                    Ok(()),
                ),
                Err(error) => self.change_gives(key, after, Err(error)),
            },
        }
    }

    /// One turn of the prompt loop: what the key makes of the prompt, and
    /// what the controller does next; see [`Self::key_gives`]. No key but
    /// toggle and the two that set all entries changes the registry.
    pub fn handle_key(&mut self, key: Key) -> (outcome: InquireResult<PromptAction>)
        requires
            old(self).wf(),
        ensures
            old(self).key_gives(key, final(self), outcome),
            final(self).wf(),
    {
        match key {
            Key::Interrupt => Err(InquireError::OperationInterrupted),
            Key::Cancel => Err(InquireError::OperationCanceled),
            Key::Submit => {
                let verdict: InquireResult<Validation> = self.validate_current_answer();
                let ghost seen = verdict;
                let outcome: InquireResult<PromptAction> = match verdict {
                    Ok(Validation::Valid) => Ok(PromptAction::Finish),
                    Ok(Validation::Invalid(message)) => {
                        self.error = Some(message);
                        Ok(PromptAction::Render)
                    },
                    Err(error) => Err(error),
                };
                assert(old(self).submit_gives(seen, self, outcome));
                outcome
            },
            _ => {
                let changed: InquireResult<()> = self.on_change(key);
                match changed {
                    Ok(unit) => {
                        assert(changed == Ok::<(), InquireError>(()));
                        Ok(PromptAction::Render)
                    },
                    Err(error) => Err(error),
                }
            },
        }
    }

    /// Whether the prompt, fed the keys one after the other, may end in
    /// `outcome`.
    ///
    /// Each key is handled as [`Self::key_gives`] says. The first key that
    /// fails ends the prompt with its failure. The first submission that
    /// the validator accepts ends it with the selection result and the
    /// text by which the formatter shows it. If the keys end before the
    /// prompt does, reading the next key has failed.
    pub open spec fn run_gives(
        &self,
        keys: Seq<Key>,
        outcome: InquireResult<(Vec<SelectedOption<T>>, String)>,
    ) -> bool
        decreases keys.len(),
    {
        if keys.len() == 0 {
            outcome matches Err(InquireError::IO(message)) && message@ == END_OF_KEYS@
        } else {
            exists|next: Self, step: InquireResult<PromptAction>|
                {
                    &&& #[trigger] self.key_gives(keys[0], &next, step)
                    &&& match step {
                        Err(error) => outcome == Err::<
                            (Vec<SelectedOption<T>>, String),
                            InquireError,
                        >(error),
                        Ok(PromptAction::Finish) => {
                            &&& outcome matches Ok(done)
                            &&& done.0@ == checked_selection(next.options@)
                            &&& next.formatter_answers(done.0@, done.1)
                        },
                        Ok(PromptAction::Render) => next.run_gives(keys.drop_first(), outcome),
                    }
                }
        }
    }

    /// Runs the prompt on a recorded sequence of keys; see
    /// [`Self::run_gives`]. On success it returns the selection result, in
    /// registry order, and the text by which the formatter shows it.
    pub fn prompt(self, keys: &[Key]) -> (outcome: InquireResult<(Vec<SelectedOption<T>>, String)>)
        requires
            self.wf(),
        ensures
            self.run_gives(keys@, outcome),
            keys@.len() == 0 ==> outcome is Err,
            outcome matches Ok(done) ==> in_registry_order(done.0@),
    {
        let ghost start = self;
        let mut state = self;
        let mut i: usize = 0;
        assert(keys@.skip(0) == keys@);
        while i < keys.len()
            invariant
                i <= keys@.len(),
                state.wf(),
                start == self,
                forall|outcome: InquireResult<(Vec<SelectedOption<T>>, String)>|
                    state.run_gives(keys@.skip(i as int), outcome) ==> start.run_gives(
                        keys@,
                        outcome,
                    ),
            decreases keys@.len() - i,
        {
            let ghost before = state;
            let ghost rest = keys@.skip(i as int);
            let step: InquireResult<PromptAction> = state.handle_key(keys[i]);
            proof {
                assert(rest.len() > 0);
                assert(rest[0] == keys@[i as int]);
                assert(rest.drop_first() == keys@.skip(i + 1));
            }
            match step {
                Err(error) => {
                    let outcome = Err(error);
                    assert(before.key_gives(rest[0], &state, step));
                    assert(before.run_gives(rest, outcome));
                    return outcome;
                },
                Ok(PromptAction::Finish) => {
                    let ghost last = state;
                    let done: (Vec<SelectedOption<T>>, String) = state.finish();
                    let outcome = Ok(done);
                    assert(before.key_gives(rest[0], &last, step));
                    assert(before.run_gives(rest, outcome));
                    return outcome;
                },
                Ok(PromptAction::Render) => {
                    assert forall|outcome: InquireResult<(Vec<SelectedOption<T>>, String)>|
                        state.run_gives(keys@.skip(i + 1), outcome) implies before.run_gives(
                        rest,
                        outcome,
                    ) by {
                        assert(before.key_gives(rest[0], &state, step));
                    }
                },
            }
            i = i + 1;
        }
        let outcome = Err(InquireError::IO(String::from_str(END_OF_KEYS)));
        assert(keys@.skip(i as int).len() == 0);
        outcome
    }
}

impl<'a, T, F, M, V, C, K> MultiSelectPrompt<'a, T, F, M, V, C, K> where
    T: Display,
    F: Fn(&str, &T, &str, usize) -> bool,
    M: Fn(&[SelectedOption<&T>]) -> String,
    V: Fn(&[SelectedOption<&T>]) -> Result<Validation, CustomUserError>,
    C: Fn(&str, &[ListOption<T>]) -> Result<bool, CustomUserError>,
    K: Fn(&str) -> Result<T, CustomUserError>,
{
    /// A prompt that is set up without defaults starts with no entry
    /// checked, and so with nothing selected.
    pub proof fn lemma_starts_unchecked(&self, mso: &MultiSelect<'a, T, F, M, V, C, K>)
        requires
            self.is_setup_of(mso),
            mso.default is None,
        ensures
            forall|i: int| 0 <= i < self.options@.len() ==> !(#[trigger] self.options@[i]).checked,
            checked_selection(self.options@).len() == 0,
    {
        lemma_nothing_checked(self.options@);
    }

    /// Two toggles on the row of an entry leave the registry as it was: the
    /// entry is back in its checked state and no other was touched.
    pub proof fn lemma_toggle_twice_restores(&self, once: &Self, twice: &Self)
        requires
            self.wf(),
            self.filtered_options@.len() > 0,
            self.filtered_options@[self.cursor_index as int] < self.options@.len(),
            self.toggle_gives(once, Ok(())),
            once.toggle_gives(twice, Ok(())),
        ensures
            twice.options@ == self.options@,
    {
        lemma_toggle_twice(
            self.options@,
            self.filtered_options@[self.cursor_index as int] as int,
        );
    }

    /// Selecting all entries and then none leaves nothing selected,
    /// whatever the filter text is and whatever was checked before.
    pub proof fn lemma_all_then_none_selects_nothing(
        &self,
        all: &Self,
        none: &Self,
        first: InquireResult<()>,
        second: InquireResult<()>,
    )
        requires
            self.change_gives(Key::Right(KeyModifiers::none()), all, first),
            all.change_gives(Key::Left(KeyModifiers::none()), none, second),
        ensures
            all.options@.len() == self.options@.len(),
            checked_selection(all.options@).len() == self.options@.len(),
            none.options@.len() == self.options@.len(),
            checked_selection(none.options@).len() == 0,
    {
        let mid = choose|mid: Self| #[trigger] self.set_all_then_refresh(&mid, all, true, first);
        assert(all.options@ == all_set(self.options@, true));
        let mid2 = choose|mid: Self| #[trigger] all.set_all_then_refresh(&mid, none, false, second);
        assert(none.options@ == all_set(all.options@, false));
        lemma_select_all_then_none(self.options@);
    }

    /// A key that moves the cursor or edits the filter text hides and
    /// shows entries, and changes none: the registry stays as it is, checked
    /// states included.
    pub proof fn lemma_filtering_keeps_registry(
        &self,
        key: Key,
        after: &Self,
        outcome: InquireResult<()>,
    )
        requires
            self.change_gives(key, after, outcome),
            !(command_of(key, self.vim_mode, self.page_size) is Toggle),
            !(command_of(key, self.vim_mode, self.page_size) is SetAll),
        ensures
            after.options == self.options,
    {
        if command_of(key, self.vim_mode, self.page_size) is Edit && key_edits_text(
            self.input@,
            key,
        ) {
            let mid = choose|mid: Self| #[trigger]
                self.edit_then_refresh(&mid, after, key, outcome);
        }
    }

    /// After a refresh under the empty filter text every entry is in view
    /// again, in registry order, with the checked state it had.
    pub proof fn lemma_empty_filter_shows_all(&self, before: &Self)
        requires
            self.refreshed_from(before),
            before.input@.len() == 0,
            before.options@.len() <= usize::MAX,
        ensures
            self.options == before.options,
            self.filtered_options@ == Seq::new(before.options@.len(), |i: int| i as usize),
    {
        before.lemma_filtered_view(self.filtered_options@);
    }

    /// A step down in an empty view does not fail and leaves the cursor on
    /// row zero and the view empty: so does every step down after it.
    pub proof fn lemma_down_in_empty_view(&self, after: &Self, outcome: InquireResult<()>)
        requires
            self.filtered_options@.len() == 0,
            self.change_gives(Key::Down(KeyModifiers::none()), after, outcome),
        ensures
            outcome is Ok,
            after.cursor_index == 0,
            after.filtered_options@.len() == 0,
            after.options == self.options,
    {
    }

    /// Whether the filter is a function of what it is shown: asked twice
    /// about the same texts, value and index, it gives the same answer.
    pub open spec fn filter_is_function(&self) -> bool {
        forall|
            text: &str,
            again: &str,
            value: &T,
            label: &str,
            same_label: &str,
            index: usize,
            shown: bool,
            shown_again: bool,
        |
            #![trigger call_ensures(self.filter, (text, value, label, index), shown), call_ensures(self.filter, (again, value, same_label, index), shown_again)]
            text@ == again@ && label@ == same_label@ && call_ensures(
                self.filter,
                (text, value, label, index),
                shown,
            ) && call_ensures(self.filter, (again, value, same_label, index), shown_again) ==> shown
                == shown_again
    }

    /// Whether the condition of the dynamic option is a function of what it
    /// is shown: asked twice about the same text and entries, it gives the
    /// same answer.
    pub open spec fn condition_is_function(&self) -> bool {
        self.dynamic_option matches DynamicOption::Enabled(condition, _) ==> forall|
            text: &str,
            again: &str,
            entries: &[ListOption<T>],
            same_entries: &[ListOption<T>],
            answer: Result<bool, CustomUserError>,
            answer_again: Result<bool, CustomUserError>,
        |
            #![trigger call_ensures(condition, (text, entries), answer), call_ensures(condition, (again, same_entries), answer_again)]
            text@ == again@ && entries@ == same_entries@ && call_ensures(
                condition,
                (text, entries),
                answer,
            ) && call_ensures(condition, (again, same_entries), answer_again) ==> answer
                == answer_again
    }

    /// Filtering is a function of the filter text and the registry: where
    /// the filter and the condition are functions, the same text and
    /// registry have one filtered view, however often it is computed.
    pub proof fn lemma_one_filtered_view(&self, view: Seq<usize>, again: Seq<usize>)
        requires
            self.filter_is_function(),
            self.condition_is_function(),
            self.is_filtered_view(view),
            self.is_filtered_view(again),
        ensures
            view == again,
    {
        let (shown, allowed) = choose|shown: Seq<bool>, allowed: bool| #[trigger]
            self.view_explained(view, shown, allowed);
        let (shown_again, allowed_again) = choose|shown: Seq<bool>, allowed: bool| #[trigger]
            self.view_explained(again, shown, allowed);
        assert forall|i: int| 0 <= i < shown.len() implies shown[i] == shown_again[i] by {
            assert(self.may_show(i, shown[i]));
            assert(self.may_show(i, shown_again[i]));
        }
        assert(shown =~= shown_again);
        assert(allowed == allowed_again);
    }
}

} // verus!
