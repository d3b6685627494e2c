//! The multi-selection prompt whose options come from a generator: a
//! function that is asked for the options anew whenever the filter text or
//! a selection changes.

use crate::config::{DEFAULT_PAGE_SIZE, DEFAULT_VIM_MODE};
use crate::error::{InquireError, InquireResult, END_OF_KEYS};
use crate::formatter::{join, joined};
use crate::filtering::{lemma_visible_indices, visible_indices};
use crate::input::{texts_of, without_last_grapheme, Input};
use crate::navigation::{
    clamp_cursor, cursor_after_down, cursor_after_up, cursor_clamped, move_down, move_up,
};
use crate::prompts::multiselect::{
    DEFAULT_HELP_MESSAGE, DEFAULT_KEEP_FILTER, DEFAULT_STARTING_CURSOR,
};
use crate::prompts::multiselect_prompt::PromptAction;
use crate::utils::{lemma_page_window, page_end, page_start, paginate, valid_cursor, Page};
use std::fmt::Display;
use vstd::prelude::*;
use vstd::string::to_string_from_display_ensures;

verus! {

/// An option of a generated list.
#[derive(Clone, Debug, PartialEq)]
pub struct CustomOption<T> {
    /// Whether the option is selected.
    pub selected: bool,
    /// The caller's value.
    pub value: T,
}

impl<T> CustomOption<T> {
    /// An option with the given value.
    pub fn new(selected: bool, value: T) -> (option: Self)
        ensures
            option.selected == selected,
            option.value == value,
    {
        CustomOption { selected, value }
    }
}

/// A key as a terminal reports it.
#[derive(Clone, Copy, Debug, PartialEq, Eq, Structural)]
pub enum TerminalKey {
    /// Backspace.
    Backspace,
    /// Left arrow.
    Left,
    /// Right arrow.
    Right,
    /// Up arrow.
    Up,
    /// Down arrow.
    Down,
    /// A character, typed with no modifier but, possibly, shift. Enter
    /// arrives as the line feed, the tabulator as itself.
    Char(char),
    /// A character typed with control held.
    Ctrl(char),
    /// Any other key.
    Other,
}

/// What a key asks a prompt over a generated list to do.
#[derive(Clone, Copy, Debug, PartialEq, Eq, Structural)]
pub enum InteractiveCommand {
    /// Step one row up, wrapping.
    MoveUp,
    /// Step one row down, wrapping.
    MoveDown,
    /// Toggle the option under the cursor.
    Toggle,
    /// Drop the filter text.
    ClearFilter,
    /// Remove the last grapheme cluster of the filter text.
    Backspace,
    /// Select, or deselect, every option.
    SetAll(bool),
    /// Type a character into the filter text.
    Type(char),
    /// Nothing.
    Ignore,
}

/// The keymap. The arrows up and down step by one row, as does the
/// tabulator (down) and, with vim mode on, `k` (up) and `j` (down). Space
/// toggles, the arrow right selects all options and the arrow left none.
/// The characters that control-W and control-X send drop the filter text,
/// backspace shortens it, and every other character is typed into it.
pub open spec fn interactive_command_of(key: TerminalKey, vim_mode: bool) -> InteractiveCommand {
    match key {
        TerminalKey::Up => InteractiveCommand::MoveUp,
        TerminalKey::Down => InteractiveCommand::MoveDown,
        TerminalKey::Backspace => InteractiveCommand::Backspace,
        TerminalKey::Right => InteractiveCommand::SetAll(true),
        TerminalKey::Left => InteractiveCommand::SetAll(false),
        TerminalKey::Char(c) => if c == 'k' && vim_mode {
            InteractiveCommand::MoveUp
        } else if c == '\t' || (c == 'j' && vim_mode) {
            InteractiveCommand::MoveDown
        } else if c == ' ' {
            InteractiveCommand::Toggle
        } else if c == '\x17' || c == '\x18' {
            InteractiveCommand::ClearFilter
        } else {
            InteractiveCommand::Type(c)
        },
        _ => InteractiveCommand::Ignore,
    }
}

/// Looks a key up in the keymap.
pub fn classify_interactive(key: TerminalKey, vim_mode: bool) -> (command: InteractiveCommand)
    ensures
        command == interactive_command_of(key, vim_mode),
{
    match key {
        TerminalKey::Up => InteractiveCommand::MoveUp,
        TerminalKey::Down => InteractiveCommand::MoveDown,
        TerminalKey::Backspace => InteractiveCommand::Backspace,
        TerminalKey::Right => InteractiveCommand::SetAll(true),
        TerminalKey::Left => InteractiveCommand::SetAll(false),
        TerminalKey::Char(c) => if c == 'k' && vim_mode {
            InteractiveCommand::MoveUp
        } else if c == '\t' || (c == 'j' && vim_mode) {
            InteractiveCommand::MoveDown
        } else if c == ' ' {
            InteractiveCommand::Toggle
        } else if c == '\x17' || c == '\x18' {
            InteractiveCommand::ClearFilter
        } else {
            InteractiveCommand::Type(c)
        },
        _ => InteractiveCommand::Ignore,
    }
}

/// The filter text as a value: none, or its characters.
pub open spec fn filter_text(filter: Option<String>) -> Option<Seq<char>> {
    match filter {
        Some(text) => Some(text@),
        None => None,
    }
}

/// The filter text after a command: dropped, shortened by a grapheme
/// cluster where there is a text at all, grown by a character, or, after a
/// selection was made, kept or dropped as the prompt is configured.
pub open spec fn filter_after(
    filter: Option<Seq<char>>,
    command: InteractiveCommand,
    keep_filter: bool,
    toggled: bool,
) -> Option<Seq<char>> {
    match command {
        InteractiveCommand::ClearFilter => None,
        InteractiveCommand::Backspace => match filter {
            Some(text) => Some(without_last_grapheme(text)),
            None => None,
        },
        InteractiveCommand::Type(c) => match filter {
            Some(text) => Some(text.push(c)),
            None => Some(seq![c]),
        },
        InteractiveCommand::SetAll(_) => if keep_filter {
            filter
        } else {
            None
        },
        InteractiveCommand::Toggle => if keep_filter || !toggled {
            filter
        } else {
            None
        },
        _ => filter,
    }
}

/// The options after a command, before the generator is asked again: the
/// option under the cursor toggled, all options selected or deselected, or
/// the options as they were.
pub open spec fn options_after<T>(
    options: Seq<CustomOption<T>>,
    cursor: int,
    command: InteractiveCommand,
) -> Seq<CustomOption<T>> {
    match command {
        InteractiveCommand::Toggle => if 0 <= cursor < options.len() {
            options.update(
                cursor,
                CustomOption { selected: !options[cursor].selected, value: options[cursor].value },
            )
        } else {
            options
        },
        InteractiveCommand::SetAll(selected) => Seq::new(
            options.len(),
            |i: int| CustomOption { selected, value: options[i].value },
        ),
        _ => options,
    }
}

/// Whether the generator is asked for the options again after a command:
/// after each that may have changed the filter text or a selection. A
/// backspace without a filter text changes nothing.
pub open spec fn asks_generator(command: InteractiveCommand, filter: Option<Seq<char>>) -> bool {
    match command {
        InteractiveCommand::Toggle => true,
        InteractiveCommand::ClearFilter => true,
        InteractiveCommand::SetAll(_) => true,
        InteractiveCommand::Type(_) => true,
        InteractiveCommand::Backspace => filter is Some,
        _ => false,
    }
}

/// Two toggles under the same cursor leave the options as they were.
pub proof fn lemma_interactive_toggle_twice<T>(options: Seq<CustomOption<T>>, cursor: int)
    ensures
        options_after(
            options_after(options, cursor, InteractiveCommand::Toggle),
            cursor,
            InteractiveCommand::Toggle,
        ) == options,
{
    assert(options_after(
        options_after(options, cursor, InteractiveCommand::Toggle),
        cursor,
        InteractiveCommand::Toggle,
    ) =~= options);
}

/// Selecting all options and then none leaves no option selected.
pub proof fn lemma_interactive_all_then_none<T>(options: Seq<CustomOption<T>>, cursor: int)
    ensures
        forall|i: int|
            0 <= i < options.len() ==> !(#[trigger] options_after(
                options_after(options, cursor, InteractiveCommand::SetAll(true)),
                cursor,
                InteractiveCommand::SetAll(false),
            )[i]).selected,
{
}

/// Which options are selected, one flag for each.
pub open spec fn selected_flags<T>(options: Seq<CustomOption<T>>) -> Seq<bool> {
    Seq::new(options.len(), |i: int| options[i].selected)
}

/// Whether `values` are copies of the values of the selected options, in
/// the order of the options.
pub open spec fn are_selected_values<T: Clone>(options: Seq<CustomOption<T>>, values: Seq<T>) -> bool {
    let positions = visible_indices(selected_flags(options));
    &&& values.len() == positions.len()
    &&& forall|j: int|
        0 <= j < values.len() ==> cloned(options[positions[j] as int].value, #[trigger] values[j])
}

/// Whether `labels` are display texts of the values, one for one.
pub open spec fn are_labels_of<T: Display>(values: Seq<T>, labels: Seq<String>) -> bool {
    &&& labels.len() == values.len()
    &&& forall|i: int|
        0 <= i < values.len() ==> to_string_from_display_ensures::<T>(
            &values[i],
            #[trigger] labels[i],
        )
}

/// Whether `text` shows the values: display texts of them, in order,
/// separated by a comma and a space.
pub open spec fn is_answer_text<T: Display>(values: Seq<T>, text: Seq<char>) -> bool {
    exists|labels: Seq<String>| #[trigger]
        are_labels_of(values, labels) && text == joined(texts_of(labels), ", "@)
}

/// The text by which an answer is shown to the user.
pub fn answer_text<T: Display>(values: &Vec<T>) -> (text: String)
    ensures
        is_answer_text(values@, text@),
{
    let mut labels: Vec<String> = Vec::new();
    let mut i: usize = 0;
    while i < values.len()
        invariant
            i <= values.len(),
            labels.len() == i,
            forall|j: int|
                0 <= j < i ==> to_string_from_display_ensures::<T>(
                    &values@[j],
                    #[trigger] labels@[j],
                ),
        decreases values.len() - i,
    {
        labels.push(values[i].to_string());
        i = i + 1;
    }
    assert(are_labels_of(values@, labels@));
    join(&labels, ", ")
}

/// One row of a generated list of options.
#[derive(Clone, Debug, PartialEq, Eq)]
pub struct InteractiveRow {
    /// Position of the option in the list.
    pub index: usize,
    /// The display text of the option.
    pub text: String,
    /// Whether the option is selected.
    pub selected: bool,
    /// Whether the cursor is on this row.
    pub highlighted: bool,
}

/// Everything a prompt over a generated list asks the render boundary to
/// draw before it waits for the next key.
#[derive(Clone, Debug, PartialEq, Eq)]
pub struct InteractiveFrame<'a> {
    /// The prompt message.
    pub message: &'a str,
    /// The filter text, if there is one.
    pub filter: Option<&'a str>,
    /// The error message, if there is one.
    pub error: Option<&'a str>,
    /// The rows inside the page window.
    pub rows: Vec<InteractiveRow>,
    /// Position of the cursor relative to the start of the window.
    pub selection: usize,
    /// The help line.
    pub help_message: Option<&'a str>,
}

/// Presents a message to the user and a list of options for the user to
/// choose from. The user is able to choose multiple options. The options
/// are made by a generator, which is given the filter text and the options
/// as they are.
pub struct InteractiveMultiSelect<'a, T, G> {
    /// Message to be presented to the user.
    pub message: &'a str,
    /// Function that generates options displayed to the user.
    pub option_generator: G,
    /// Help message to be presented to the user.
    pub help_message: Option<&'a str>,
    /// Page size of the options displayed to the user.
    pub page_size: usize,
    /// Whether vim mode is enabled. When enabled, the user can
    /// navigate through the options using `j` and `k`.
    pub vim_mode: bool,
    /// Starting cursor index of the selection.
    pub starting_cursor: usize,
    /// Whether the current filter typed by the user is kept or cleaned after a selection is made.
    pub keep_filter: bool,
    /// The type of the values.
    pub values: core::marker::PhantomData<T>,
}


impl<'a, T, G> InteractiveMultiSelect<'a, T, G> where
    T: Display + Clone,
    G: Fn(&Option<String>, &Vec<CustomOption<T>>) -> Vec<CustomOption<T>>,
{
    /// Creates an [`InteractiveMultiSelect`] with the provided message and
    /// option generator, along with default configuration values.
    pub fn new(message: &'a str, option_generator: G) -> (prompt: Self)
        ensures
            prompt.message == message,
            prompt.option_generator == option_generator,
            prompt.help_message == Some(DEFAULT_HELP_MESSAGE),
            prompt.page_size == DEFAULT_PAGE_SIZE,
            prompt.vim_mode == DEFAULT_VIM_MODE,
            prompt.starting_cursor == DEFAULT_STARTING_CURSOR,
            prompt.keep_filter == DEFAULT_KEEP_FILTER,
    {
        InteractiveMultiSelect {
            message,
            option_generator,
            help_message: Some(DEFAULT_HELP_MESSAGE),
            page_size: DEFAULT_PAGE_SIZE,
            vim_mode: DEFAULT_VIM_MODE,
            starting_cursor: DEFAULT_STARTING_CURSOR,
            keep_filter: DEFAULT_KEEP_FILTER,
            values: core::marker::PhantomData,
        }
    }

    /// Sets the help message of the prompt.
    pub fn with_help_message(self, message: &'a str) -> (prompt: Self)
        ensures
            prompt == (InteractiveMultiSelect { help_message: Some(message), ..self }),
    {
        let mut prompt = self;
        prompt.help_message = Some(message);
        prompt
    }

    /// Removes the set help message.
    pub fn without_help_message(self) -> (prompt: Self)
        ensures
            prompt == (InteractiveMultiSelect { help_message: None::<&'a str>, ..self }),
    {
        let mut prompt = self;
        prompt.help_message = None;
        prompt
    }

    /// Sets the page size.
    pub fn with_page_size(self, page_size: usize) -> (prompt: Self)
        ensures
            prompt == (InteractiveMultiSelect { page_size, ..self }),
    {
        let mut prompt = self;
        prompt.page_size = page_size;
        prompt
    }

    /// Enables or disables vim_mode.
    pub fn with_vim_mode(self, vim_mode: bool) -> (prompt: Self)
        ensures
            prompt == (InteractiveMultiSelect { vim_mode, ..self }),
    {
        let mut prompt = self;
        prompt.vim_mode = vim_mode;
        prompt
    }

    /// Sets the keep filter behavior.
    pub fn with_keep_filter(self, keep_filter: bool) -> (prompt: Self)
        ensures
            prompt == (InteractiveMultiSelect { keep_filter, ..self }),
    {
        let mut prompt = self;
        prompt.keep_filter = keep_filter;
        prompt
    }

    /// Sets the starting cursor index.
    pub fn with_starting_cursor(self, starting_cursor: usize) -> (prompt: Self)
        ensures
            prompt == (InteractiveMultiSelect { starting_cursor, ..self }),
    {
        let mut prompt = self;
        prompt.starting_cursor = starting_cursor;
        prompt
    }

    /// Whether the generator can be called on every argument.
    pub open spec fn generator_total(&self) -> bool {
        forall|filter: &Option<String>, options: &Vec<CustomOption<T>>|
            call_requires(self.option_generator, (filter, options))
    }

    /// Whether `started` is a prompt that this configuration starts with,
    /// and `ran` an end that it may come to on the keys.
    pub open spec fn runs_to(
        &self,
        keys: Seq<TerminalKey>,
        started: InteractiveMultiSelectPrompt<'a, T, G>,
        ran: InquireResult<(Vec<T>, String)>,
    ) -> bool {
        started.is_setup_of(self) && started.run_gives(keys, ran)
    }

    /// Whether the prompt, set up from this configuration and fed the
    /// keys, may end in `outcome`.
    pub open spec fn prompt_gives(&self, keys: Seq<TerminalKey>, outcome: InquireResult<Vec<T>>) -> bool {
        exists|started: InteractiveMultiSelectPrompt<'a, T, G>, ran: InquireResult<(Vec<T>, String)>|
            #[trigger] self.runs_to(keys, started, ran) && match ran {
                Ok(done) => outcome == Ok::<Vec<T>, InquireError>(done.0),
                Err(error) => outcome == Err::<Vec<T>, InquireError>(error),
            }
    }

    /// Sets the prompt up and runs it on a recorded sequence of keys.
    /// Returns copies of the values that the user selected, in the order of
    /// the options.
    pub fn prompt(self, keys: &[TerminalKey]) -> (outcome: InquireResult<Vec<T>>)
        requires
            self.generator_total(),
        ensures
            self.prompt_gives(keys@, outcome),
    {
        let started = InteractiveMultiSelectPrompt::new(self);
        let ghost first = started;
        let ran: InquireResult<(Vec<T>, String)> = started.prompt(keys);
        assert(self.runs_to(keys@, first, ran));
        match ran {
            Ok(done) => Ok(done.0),
            Err(error) => Err(error),
        }
    }
}

/// The running state of a prompt over a generated list of options.
pub struct InteractiveMultiSelectPrompt<'a, T, G> {
    /// Message presented to the user.
    pub message: &'a str,
    /// The options as the generator made them last, with the selections
    /// made since.
    pub options: Vec<CustomOption<T>>,
    /// The generator.
    pub option_generator: G,
    /// Help message presented to the user.
    pub help_message: Option<&'a str>,
    /// Whether `j` and `k` move the cursor.
    pub vim_mode: bool,
    /// Position of the cursor in the options.
    pub cursor_index: usize,
    /// Number of rows shown at once.
    pub page_size: usize,
    /// Whether the filter text survives a selection.
    pub keep_filter: bool,
    /// The filter text, if anything was typed since it was dropped last.
    pub filter_value: Option<String>,
    /// The error message to show.
    pub error: Option<String>,
}

impl<'a, T, G> InteractiveMultiSelectPrompt<'a, T, G> where
    T: Display + Clone,
    G: Fn(&Option<String>, &Vec<CustomOption<T>>) -> Vec<CustomOption<T>>,
{
    /// The invariant of a prompt: the cursor is on an option, or zero where
    /// there is none, and the generator is total.
    pub open spec fn wf(&self) -> bool {
        &&& valid_cursor(self.options@.len() as int, self.cursor_index as int)
        &&& forall|filter: &Option<String>, options: &Vec<CustomOption<T>>|
            call_requires(self.option_generator, (filter, options))
    }

    /// Whether `self` is a prompt that the configuration `mso` starts with:
    /// the options are what the generator makes of no filter text and no
    /// options, the cursor is where the configuration puts it, or on the
    /// last option if there are not as many, and there is neither a filter
    /// text nor an error message.
    pub open spec fn is_setup_of(&self, mso: &InteractiveMultiSelect<'a, T, G>) -> bool {
        &&& self.wf()
        &&& exists|none: &Option<String>, empty: &Vec<CustomOption<T>>|
            none is None && empty@.len() == 0 && #[trigger] call_ensures(
                mso.option_generator,
                (none, empty),
                self.options,
            )
        &&& self.cursor_index == cursor_clamped(
            mso.starting_cursor as int,
            self.options@.len() as int,
        )
        &&& self.filter_value is None
        &&& self.error is None
        &&& self.message == mso.message
        &&& self.option_generator == mso.option_generator
        &&& self.help_message == mso.help_message
        &&& self.vim_mode == mso.vim_mode
        &&& self.page_size == mso.page_size
        &&& self.keep_filter == mso.keep_filter
    }

    /// Sets up the prompt from its configuration; see
    /// [`Self::is_setup_of`].
    pub fn new(mso: InteractiveMultiSelect<'a, T, G>) -> (prompt: Self)
        requires
            mso.generator_total(),
        ensures
            prompt.is_setup_of(&mso),
    {
        let none: Option<String> = None;
        let empty: Vec<CustomOption<T>> = Vec::new();
        let options: Vec<CustomOption<T>> = (mso.option_generator)(&none, &empty);
        let cursor_index: usize = clamp_cursor(mso.starting_cursor, options.len());
        InteractiveMultiSelectPrompt {
            message: mso.message,
            options,
            option_generator: mso.option_generator,
            help_message: mso.help_message,
            vim_mode: mso.vim_mode,
            cursor_index,
            page_size: mso.page_size,
            keep_filter: mso.keep_filter,
            filter_value: None,
            error: None,
        }
    }

    /// Steps one row up; from the first row the cursor goes to the last.
    pub fn move_cursor_up(&mut self)
        ensures
            *final(self) == (InteractiveMultiSelectPrompt {
                cursor_index: cursor_after_up(
                    old(self).cursor_index as int,
                    old(self).options@.len() as int,
                    1,
                    true,
                ) as usize,
                ..*old(self)
            }),
            old(self).wf() ==> final(self).wf(),
    {
        self.cursor_index = move_up(self.cursor_index, self.options.len(), 1, true);
    }

    /// Steps one row down; from the last row the cursor goes to the first,
    /// and where there are no options it goes to row zero.
    pub fn move_cursor_down(&mut self)
        ensures
            *final(self) == (InteractiveMultiSelectPrompt {
                cursor_index: cursor_after_down(
                    old(self).cursor_index as int,
                    old(self).options@.len() as int,
                    1,
                    true,
                ) as usize,
                ..*old(self)
            }),
            old(self).wf() ==> final(self).wf(),
            old(self).wf() ==> final(self).cursor_index == (if old(self).cursor_index + 1 < old(
                self,
            ).options@.len() {
                old(self).cursor_index + 1
            } else {
                0
            }),
    {
        self.cursor_index = move_down(self.cursor_index, self.options.len(), 1, true);
        proof {
            if old(self).wf() && old(self).options@.len() > 0 {
                let len = old(self).options@.len() as int;
                assert(len % len == 0) by (nonlinear_arith)
                    requires
                        len > 0,
                ;
            }
        }
    }

    /// Toggles the option under the cursor and, unless the prompt keeps
    /// it, drops the filter text. Where the cursor is on no option, nothing
    /// changes.
    pub fn toggle_cursor_selection(&mut self)
        ensures
            final(self).options@ == options_after(
                old(self).options@,
                old(self).cursor_index as int,
                InteractiveCommand::Toggle,
            ),
            filter_text(final(self).filter_value) == filter_after(
                filter_text(old(self).filter_value),
                InteractiveCommand::Toggle,
                old(self).keep_filter,
                old(self).cursor_index < old(self).options@.len(),
            ),
            *final(self) == (InteractiveMultiSelectPrompt {
                options: final(self).options,
                filter_value: final(self).filter_value,
                ..*old(self)
            }),
            old(self).wf() ==> final(self).wf(),
    {
        if self.cursor_index >= self.options.len() {
            return ;
        }
        let selected: bool = self.options[self.cursor_index].selected;
        self.options[self.cursor_index].selected = !selected;
        assert(self.options@ =~= options_after(
            old(self).options@,
            old(self).cursor_index as int,
            InteractiveCommand::Toggle,
        ));
        if !self.keep_filter {
            self.filter_value = None;
        }
    }

    /// Selects, or deselects, every option.
    pub fn set_all(&mut self, selected: bool)
        ensures
            final(self).options@ == options_after(
                old(self).options@,
                old(self).cursor_index as int,
                InteractiveCommand::SetAll(selected),
            ),
            *final(self) == (InteractiveMultiSelectPrompt {
                options: final(self).options,
                ..*old(self)
            }),
            old(self).wf() ==> final(self).wf(),
    {
        let ghost target = options_after(
            old(self).options@,
            old(self).cursor_index as int,
            InteractiveCommand::SetAll(selected),
        );
        let mut i: usize = 0;
        while i < self.options.len()
            invariant
                i <= self.options@.len(),
                self.options@.len() == old(self).options@.len(),
                *self == (InteractiveMultiSelectPrompt { options: self.options, ..*old(self) }),
                target == options_after(
                    old(self).options@,
                    old(self).cursor_index as int,
                    InteractiveCommand::SetAll(selected),
                ),
                forall|j: int| 0 <= j < i ==> #[trigger] self.options@[j] == target[j],
                forall|j: int|
                    i <= j < self.options@.len() ==> #[trigger] self.options@[j] == old(
                        self,
                    ).options@[j],
            decreases self.options@.len() - i,
        {
            self.options[i].selected = selected;
            i = i + 1;
        }
        assert(self.options@ =~= target);
    }

    /// Whether `mid` is `self` after the command was applied to the filter
    /// text and the selections, before the generator is asked again.
    pub open spec fn edit_gives(&self, mid: &Self, command: InteractiveCommand) -> bool {
        &&& *mid == (InteractiveMultiSelectPrompt {
            options: mid.options,
            filter_value: mid.filter_value,
            ..*self
        })
        &&& mid.options@ == options_after(self.options@, self.cursor_index as int, command)
        &&& filter_text(mid.filter_value) == filter_after(
            filter_text(self.filter_value),
            command,
            self.keep_filter,
            self.cursor_index < self.options@.len(),
        )
    }

    /// Whether `after` is `mid` with the options made anew by the
    /// generator, from the filter text and the options of `mid`, and the
    /// cursor brought back into them.
    pub open spec fn regenerated_from(&self, mid: &Self) -> bool {
        &&& *self == (InteractiveMultiSelectPrompt {
            options: self.options,
            cursor_index: self.cursor_index,
            ..*mid
        })
        &&& call_ensures(mid.option_generator, (&mid.filter_value, &mid.options), self.options)
        &&& self.cursor_index == cursor_clamped(
            mid.cursor_index as int,
            self.options@.len() as int,
        )
    }

    /// Whether an edit that leads from `self` to `mid`, and the generator,
    /// asked then, may lead to `after`.
    pub open spec fn edit_then_regenerate(
        &self,
        mid: &Self,
        after: &Self,
        command: InteractiveCommand,
    ) -> bool {
        self.edit_gives(mid, command) && after.regenerated_from(mid)
    }

    /// Whether the key may lead from `self` to `after`, by the keymap of
    /// [`interactive_command_of`]: a step moves the cursor and changes
    /// nothing else; a key that may change the filter text or a selection
    /// does so, and then the generator makes the options anew and the
    /// cursor is brought back into them; any other key changes nothing.
    pub open spec fn change_gives(&self, key: TerminalKey, after: &Self) -> bool {
        let command = interactive_command_of(key, self.vim_mode);
        match command {
            InteractiveCommand::MoveUp => *after == (InteractiveMultiSelectPrompt {
                cursor_index: cursor_after_up(
                    self.cursor_index as int,
                    self.options@.len() as int,
                    1,
                    true,
                ) as usize,
                ..*self
            }),
            InteractiveCommand::MoveDown => *after == (InteractiveMultiSelectPrompt {
                cursor_index: cursor_after_down(
                    self.cursor_index as int,
                    self.options@.len() as int,
                    1,
                    true,
                ) as usize,
                ..*self
            }),
            _ => if asks_generator(command, filter_text(self.filter_value)) {
                exists|mid: Self| #[trigger] self.edit_then_regenerate(&mid, after, command)
            } else {
                *after == *self
            },
        }
    }

    /// Applies a key that neither submits nor ends the prompt; see
    /// [`Self::change_gives`].
    pub fn on_change(&mut self, key: TerminalKey)
        requires
            old(self).wf(),
        ensures
            old(self).change_gives(key, final(self)),
            final(self).wf(),
    {
        let command: InteractiveCommand = classify_interactive(key, self.vim_mode);
        let mut dirty: bool = false;
        match command {
            InteractiveCommand::MoveUp => self.move_cursor_up(),
            InteractiveCommand::MoveDown => self.move_cursor_down(),
            InteractiveCommand::Toggle => {
                self.toggle_cursor_selection();
                dirty = true;
            },
            InteractiveCommand::ClearFilter => {
                self.filter_value = None;
                dirty = true;
            },
            InteractiveCommand::Backspace => {
                let shortened: Option<String> = match &self.filter_value {
                    Some(filter) => {
                        let mut input = Input { content: filter.clone() };
                        input.backspace();
                        Some(input.content)
                    },
                    None => None,
                };
                if shortened.is_some() {
                    self.filter_value = shortened;
                    dirty = true;
                }
            },
            InteractiveCommand::SetAll(selected) => {
                self.set_all(selected);
                if !self.keep_filter {
                    self.filter_value = None;
                }
                dirty = true;
            },
            InteractiveCommand::Type(c) => {
                let mut input = match &self.filter_value {
                    Some(filter) => Input { content: filter.clone() },
                    None => Input::new(),
                };
                input.append_char(c);
                assert(old(self).filter_value is None ==> input@ =~= seq![c]);
                self.filter_value = Some(input.content);
                dirty = true;
            },
            InteractiveCommand::Ignore => {},
        }
        if dirty {
            let ghost mid = *self;
            let options: Vec<CustomOption<T>> = (self.option_generator)(
                &self.filter_value,
                &self.options,
            );
            self.cursor_index = clamp_cursor(self.cursor_index, options.len());
            self.options = options;
            assert(old(self).edit_then_regenerate(&mid, self, command));
        }
    }

    /// Copies of the values of the selected options, in the order of the
    /// options. It never fails.
    pub fn get_final_answer(&self) -> (answer: Result<Vec<T>, String>)
        ensures
            answer matches Ok(values) && are_selected_values(self.options@, values@),
    {
        let ghost flags = selected_flags(self.options@);
        let mut values: Vec<T> = Vec::new();
        let mut i: usize = 0;
        while i < self.options.len()
            invariant
                i <= self.options@.len(),
                flags == selected_flags(self.options@),
                values@.len() == visible_indices(flags.take(i as int)).len(),
                forall|j: int|
                    0 <= j < values@.len() ==> visible_indices(flags.take(i as int))[j] < i
                        && cloned(
                        self.options@[visible_indices(flags.take(i as int))[j] as int].value,
                        #[trigger] values@[j],
                    ),
            decreases self.options@.len() - i,
        {
            proof {
                assert(flags.take(i + 1).drop_last() == flags.take(i as int));
                lemma_visible_indices(flags.take(i as int));
            }
            if self.options[i].selected {
                values.push(self.options[i].value.clone());
            }
            i = i + 1;
        }
        proof {
            assert(flags.take(self.options@.len() as int) == flags);
        }
        Ok(values)
    }

    /// The first position of the options inside the page window.
    pub open spec fn window_start(&self) -> int {
        page_start(self.page_size as int, self.options@.len() as int, self.cursor_index as int)
    }

    /// The first position of the options after the page window.
    pub open spec fn window_end(&self) -> int {
        page_end(self.page_size as int, self.options@.len() as int, self.cursor_index as int)
    }

    /// Whether `row` is the row of the option at `position`: a display
    /// text of its value and whether it is selected; highlighted if the
    /// cursor is on it.
    pub open spec fn is_row(&self, row: InteractiveRow, position: int) -> bool {
        &&& row.index == position
        &&& row.highlighted == (position == self.cursor_index)
        &&& row.selected == self.options@[position].selected
        &&& to_string_from_display_ensures::<T>(&self.options@[position].value, row.text)
    }

    /// Puts together what is to be drawn: the message, the filter text, the
    /// error message, the options inside the page window around the
    /// cursor, and the help line.
    pub fn render(&self) -> (frame: InteractiveFrame<'_>)
        requires
            self.wf(),
        ensures
            frame.message == self.message,
            frame.help_message == self.help_message,
            match self.filter_value {
                Some(text) => frame.filter matches Some(shown) && shown@ == text@,
                None => frame.filter is None,
            },
            match self.error {
                Some(text) => frame.error matches Some(shown) && shown@ == text@,
                None => frame.error is None,
            },
            frame.rows@.len() == self.window_end() - self.window_start(),
            forall|j: int|
                0 <= j < frame.rows@.len() ==> self.is_row(
                    #[trigger] frame.rows@[j],
                    self.window_start() + j,
                ),
            frame.selection == self.cursor_index - self.window_start(),
    {
        let page: Page<'_, CustomOption<T>> = paginate(
            self.page_size,
            self.options.as_slice(),
            self.cursor_index,
        );
        proof {
            lemma_page_window(
                self.page_size as int,
                self.options@.len() as int,
                self.cursor_index as int,
            );
        }
        let start: usize = self.cursor_index - page.selection;
        let total: usize = self.options.len();
        let mut rows: Vec<InteractiveRow> = Vec::new();
        let mut j: usize = 0;
        while j < page.content.len()
            invariant
                j <= page.content@.len(),
                start == self.window_start(),
                page.content@ == self.options@.subrange(self.window_start(), self.window_end()),
                0 <= self.window_start() <= self.window_end() <= self.options@.len(),
                page.content@.len() == self.window_end() - self.window_start(),
                self.options@.len() <= usize::MAX,
                rows@.len() == j,
                forall|k: int| 0 <= k < j ==> self.is_row(#[trigger] rows@[k], self.window_start() + k),
            decreases page.content@.len() - j,
        {
            let row = InteractiveRow {
                index: start + j,
                text: page.content[j].value.to_string(),
                selected: page.content[j].selected,
                highlighted: start + j == self.cursor_index,
            };
            assert(self.is_row(row, self.window_start() + j));
            rows.push(row);
            j = j + 1;
        }
        InteractiveFrame {
            message: self.message,
            filter: match &self.filter_value {
                Some(text) => Some(text.as_str()),
                None => None,
            },
            error: match &self.error {
                Some(text) => Some(text.as_str()),
                None => None,
            },
            rows,
            selection: page.selection,
            help_message: self.help_message,
        }
    }

    /// Whether the key may lead from `self` to `after` with the result
    /// `outcome`: control-C ends the prompt as canceled, enter finishes it,
    /// and every other key is applied as [`Self::change_gives`] says.
    pub open spec fn key_gives(
        &self,
        key: TerminalKey,
        after: &Self,
        outcome: InquireResult<PromptAction>,
    ) -> bool {
        if key == TerminalKey::Ctrl('c') {
            outcome == Err::<PromptAction, InquireError>(InquireError::OperationCanceled) && *after
                == *self
        } else if key == TerminalKey::Char('\n') || key == TerminalKey::Char('\r') {
            outcome == Ok::<PromptAction, InquireError>(PromptAction::Finish) && *after == *self
        } else {
            outcome == Ok::<PromptAction, InquireError>(PromptAction::Render) && self.change_gives(
                key,
                after,
            )
        }
    }

    /// One turn of the prompt loop: what the key makes of the prompt, and
    /// what the controller does next; see [`Self::key_gives`].
    pub fn handle_key(&mut self, key: TerminalKey) -> (outcome: InquireResult<PromptAction>)
        requires
            old(self).wf(),
        ensures
            old(self).key_gives(key, final(self), outcome),
            final(self).wf(),
    {
        match key {
            TerminalKey::Ctrl(c) => {
                if c == 'c' {
                    return Err(InquireError::OperationCanceled);
                }
            },
            TerminalKey::Char(c) => {
                if c == '\n' || c == '\r' {
                    return Ok(PromptAction::Finish);
                }
            },
            _ => {},
        }
        self.on_change(key);
        Ok(PromptAction::Render)
    }

    /// Ends the prompt: copies of the selected values, and the text that
    /// shows them to the user.
    pub fn finish(&self) -> (done: (Vec<T>, String))
        ensures
            are_selected_values(self.options@, done.0@),
            is_answer_text(done.0@, done.1@),
    {
        let values: Vec<T> = match self.get_final_answer() {
            Ok(values) => values,
            Err(_) => Vec::new(),
        };
        let formatted: String = answer_text(&values);
        (values, formatted)
    }

    /// Whether the prompt, fed the keys one after the other, may end in
    /// `outcome`: canceled at the first control-C, or at the first enter
    /// with copies of the values selected then and the text that shows
    /// them. If the keys end before the prompt does, reading the next key
    /// has failed.
    pub open spec fn run_gives(
        &self,
        keys: Seq<TerminalKey>,
        outcome: InquireResult<(Vec<T>, String)>,
    ) -> bool
        decreases keys.len(),
    {
        if keys.len() == 0 {
            outcome matches Err(InquireError::IO(message)) && message@ == END_OF_KEYS@
        } else {
            exists|next: Self, step: InquireResult<PromptAction>|
                {
                    &&& #[trigger] self.key_gives(keys[0], &next, step)
                    &&& match step {
                        Err(error) => outcome == Err::<(Vec<T>, String), InquireError>(error),
                        Ok(PromptAction::Finish) => {
                            &&& outcome matches Ok(done)
                            &&& are_selected_values(next.options@, done.0@)
                            &&& is_answer_text(done.0@, done.1@)
                        },
                        Ok(PromptAction::Render) => next.run_gives(keys.drop_first(), outcome),
                    }
                }
        }
    }

    /// Runs the prompt on a recorded sequence of keys; see
    /// [`Self::run_gives`].
    pub fn prompt(self, keys: &[TerminalKey]) -> (outcome: InquireResult<(Vec<T>, String)>)
        requires
            self.wf(),
        ensures
            self.run_gives(keys@, outcome),
    {
        let ghost start = self;
        let mut state = self;
        let mut i: usize = 0;
        assert(keys@.skip(0) == keys@);
        while i < keys.len()
            invariant
                i <= keys@.len(),
                state.wf(),
                start == self,
                forall|outcome: InquireResult<(Vec<T>, String)>|
                    state.run_gives(keys@.skip(i as int), outcome) ==> start.run_gives(
                        keys@,
                        outcome,
                    ),
            decreases keys@.len() - i,
        {
            let ghost before = state;
            let ghost rest = keys@.skip(i as int);
            let step: InquireResult<PromptAction> = state.handle_key(keys[i]);
            proof {
                assert(rest.len() > 0);
                assert(rest[0] == keys@[i as int]);
                assert(rest.drop_first() == keys@.skip(i + 1));
            }
            match step {
                Err(error) => {
                    let outcome = Err(error);
                    assert(before.key_gives(rest[0], &state, step));
                    assert(before.run_gives(rest, outcome));
                    return outcome;
                },
                Ok(PromptAction::Finish) => {
                    let done: (Vec<T>, String) = state.finish();
                    let outcome = Ok(done);
                    assert(before.key_gives(rest[0], &state, step));
                    assert(before.run_gives(rest, outcome));
                    return outcome;
                },
                Ok(PromptAction::Render) => {
                    assert forall|outcome: InquireResult<(Vec<T>, String)>|
                        state.run_gives(keys@.skip(i + 1), outcome) implies before.run_gives(
                        rest,
                        outcome,
                    ) by {
                        assert(before.key_gives(rest[0], &state, step));
                    }
                },
            }
            i = i + 1;
        }
        let outcome = Err(InquireError::IO(String::from_str(END_OF_KEYS)));
        assert(keys@.skip(i as int).len() == 0);
        outcome
    }
}

} // verus!
