//! The prompt that lets the user select many options among a list of them:
//! its configuration, and the functions that run it.

use crate::config::{DEFAULT_PAGE_SIZE, DEFAULT_VIM_MODE};
use crate::error::{CustomUserError, InquireError, InquireResult};
use crate::filtering::{default_filter, default_filter_shows};
use crate::formatter::{default_formatter, is_default_format};
use crate::prompts::multiselect_prompt::{in_registry_order, is_misconfigured, MultiSelectPrompt};
use crate::selected_option::{selection_values, SelectedOption};
use crate::type_aliases::DynamicOption;
use crate::ui::{Key, RenderConfig};
use crate::utils::ListOption;
use crate::validator::{default_validator, Validation};
use std::fmt::Display;
use vstd::prelude::*;

verus! {

/// Default starting cursor index.
pub const DEFAULT_STARTING_CURSOR: usize = 0;

/// Default behavior of keeping or cleaning the current filter value.
pub const DEFAULT_KEEP_FILTER: bool = true;

/// Default help message.
pub const DEFAULT_HELP_MESSAGE: &'static str =
    "↑↓ to move, space to select one, → to all, ← to none, type to filter";

/// Prompt suitable for when you need the user to select many options
/// (including none if applicable) among a list of them.
///
/// The user can select (or deselect) the current highlighted option by
/// pressing space, clean all selections by pressing the left arrow and
/// select all options by pressing the right arrow.
///
/// The type parameters after `T` are the pluggable functions: the filter
/// `F`, the formatter `M`, the validator `V`, and the condition `C` and
/// creator `K` of the dynamic option.
pub struct MultiSelect<'a, T, F, M, V, C, K> {
    /// Message to be presented to the user.
    pub message: &'a str,
    /// Options displayed to the user.
    pub options: Vec<T>,
    /// Default indexes of options to be selected from the start.
    pub default: Option<&'a [usize]>,
    /// Help message to be presented to the user.
    pub help_message: Option<&'a str>,
    /// Page size of the options displayed to the user.
    pub page_size: usize,
    /// Whether vim mode is enabled. When enabled, the user can
    /// navigate through the options using `j` and `k`.
    pub vim_mode: bool,
    /// Starting cursor index of the selection.
    pub starting_cursor: usize,
    /// Function called with the current user input to filter the provided
    /// options.
    pub filter: F,
    /// Whether the current filter typed by the user is kept or cleaned after a selection is made.
    pub keep_filter: bool,
    /// Whether, and how, the user may add entries of their own.
    pub dynamic_option: DynamicOption<C, K>,
    /// Function that formats the user input and presents it to the user as the final rendering of the prompt.
    pub formatter: M,
    /// Validator to apply to the user input.
    ///
    /// In case of error, the message is displayed one line above the prompt.
    pub validator: V,
    /// How frames are to be drawn.
    pub render_config: RenderConfig,
}

/// The condition of a prompt that offers no new entries.
pub fn never_offer<T>(filter: &str, entries: &[ListOption<T>]) -> (offer: Result<
    bool,
    CustomUserError,
>)
    ensures
        offer == Ok::<bool, CustomUserError>(false),
{
    Ok(false)
}

/// The creator of a prompt that offers no new entries: it fails, with no reason to give.
pub fn never_create<T>(filter: &str) -> (created: Result<T, CustomUserError>)
    ensures
        created matches Err(reason) && reason@ == Seq::<char>::empty(),
{
    Err(String::new())
}

impl<'a, T: Display> MultiSelect<'a, T, (), (), (), (), ()> {
    /// Creates a `MultiSelect` with the provided message and options, along
    /// with default configuration values.
    pub fn new(message: &'a str, options: Vec<T>) -> (prompt: MultiSelect<
        'a,
        T,
        impl Fn(&str, &T, &str, usize) -> bool,
        impl Fn(&[SelectedOption<&T>]) -> String,
        impl Fn(&[SelectedOption<&T>]) -> Result<Validation, CustomUserError>,
        impl Fn(&str, &[ListOption<T>]) -> Result<bool, CustomUserError>,
        impl Fn(&str) -> Result<T, CustomUserError>,
    >)
        ensures
            prompt.message == message,
            prompt.options == options,
            prompt.default is None,
            prompt.help_message == Some(DEFAULT_HELP_MESSAGE),
            prompt.page_size == DEFAULT_PAGE_SIZE,
            prompt.vim_mode == DEFAULT_VIM_MODE,
            prompt.starting_cursor == DEFAULT_STARTING_CURSOR,
            prompt.keep_filter == DEFAULT_KEEP_FILTER,
            prompt.dynamic_option is Disabled,
            prompt.render_config == RenderConfig::colored(),
            forall|filter: &str, value: &T, string_value: &str, index: usize|
                call_requires(prompt.filter, (filter, value, string_value, index)),
            forall|filter: &str, value: &T, string_value: &str, index: usize, shown: bool|
                call_ensures(prompt.filter, (filter, value, string_value, index), shown) ==> shown
                    == default_filter_shows(filter@, string_value@),
            forall|ans: &[SelectedOption<&T>]| call_requires(prompt.formatter, (ans,)),
            forall|ans: &[SelectedOption<&T>], text: String|
                call_ensures(prompt.formatter, (ans,), text) ==> is_default_format(ans@, text@),
            forall|ans: &[SelectedOption<&T>]| call_requires(prompt.validator, (ans,)),
            forall|ans: &[SelectedOption<&T>], verdict: Result<Validation, CustomUserError>|
                call_ensures(prompt.validator, (ans,), verdict) ==> verdict == Ok::<
                    Validation,
                    CustomUserError,
                >(Validation::Valid),
    {
        // The two functions only give the disabled option its type.
        let mut dynamic_option = DynamicOption::Enabled(never_offer::<T>, never_create::<T>);
        dynamic_option = DynamicOption::Disabled;
        let filter = |filter: &str, value: &T, string_value: &str, index: usize| -> (shown: bool)
            ensures
                shown == default_filter_shows(filter@, string_value@),
            { default_filter(filter, value, string_value, index) };
        let formatter = |ans: &[SelectedOption<&T>]| -> (text: String)
            ensures
                is_default_format(ans@, text@),
            { default_formatter(ans) };
        let validator = |ans: &[SelectedOption<&T>]| -> (verdict: Result<
            Validation,
            CustomUserError,
        >)
            ensures
                verdict == Ok::<Validation, CustomUserError>(Validation::Valid),
            { default_validator(ans) };
        MultiSelect {
            message,
            options,
            default: None,
            help_message: Some(DEFAULT_HELP_MESSAGE),
            page_size: DEFAULT_PAGE_SIZE,
            vim_mode: DEFAULT_VIM_MODE,
            starting_cursor: DEFAULT_STARTING_CURSOR,
            keep_filter: DEFAULT_KEEP_FILTER,
            filter,
            formatter,
            dynamic_option,
            validator,
            render_config: RenderConfig::colored(),
        }
    }
}

impl<'a, T, F, M, V, C, K> MultiSelect<'a, T, F, M, V, C, K> {
    /// Sets the help message of the prompt.
    pub fn with_help_message(self, message: &'a str) -> (prompt: Self)
        ensures
            prompt == (MultiSelect { help_message: Some(message), ..self }),
    {
        let mut prompt = self;
        prompt.help_message = Some(message);
        prompt
    }

    /// Removes the set help message.
    pub fn without_help_message(self) -> (prompt: Self)
        ensures
            prompt == (MultiSelect { help_message: None::<&'a str>, ..self }),
    {
        let mut prompt = self;
        prompt.help_message = None::<&'a str>;
        prompt
    }

    /// Sets the page size.
    pub fn with_page_size(self, page_size: usize) -> (prompt: Self)
        ensures
            prompt == (MultiSelect { page_size: page_size, ..self }),
    {
        let mut prompt = self;
        prompt.page_size = page_size;
        prompt
    }

    /// Enables or disables vim_mode.
    pub fn with_vim_mode(self, vim_mode: bool) -> (prompt: Self)
        ensures
            prompt == (MultiSelect { vim_mode: vim_mode, ..self }),
    {
        let mut prompt = self;
        prompt.vim_mode = vim_mode;
        prompt
    }

    /// Sets the keep filter behavior.
    pub fn with_keep_filter(self, keep_filter: bool) -> (prompt: Self)
        ensures
            prompt == (MultiSelect { keep_filter: keep_filter, ..self }),
    {
        let mut prompt = self;
        prompt.keep_filter = keep_filter;
        prompt
    }

    /// Sets the indexes to be selected by default.
    pub fn with_default(self, default: &'a [usize]) -> (prompt: Self)
        ensures
            prompt == (MultiSelect { default: Some(default), ..self }),
    {
        let mut prompt = self;
        prompt.default = Some(default);
        prompt
    }

    /// Sets the starting cursor index.
    pub fn with_starting_cursor(self, starting_cursor: usize) -> (prompt: Self)
        ensures
            prompt == (MultiSelect { starting_cursor: starting_cursor, ..self }),
    {
        let mut prompt = self;
        prompt.starting_cursor = starting_cursor;
        prompt
    }

    /// Sets how the frames of this prompt are to be drawn.
    pub fn with_render_config(self, render_config: RenderConfig) -> (prompt: Self)
        ensures
            prompt == (MultiSelect { render_config: render_config, ..self }),
    {
        let mut prompt = self;
        prompt.render_config = render_config;
        prompt
    }

    /// Sets the filter function.
    pub fn with_filter<F2: Fn(&str, &T, &str, usize) -> bool>(self, filter: F2) -> (prompt: MultiSelect<'a, T, F2, M, V, C, K>)
        ensures
            prompt.message == self.message,
            prompt.options == self.options,
            prompt.default == self.default,
            prompt.help_message == self.help_message,
            prompt.page_size == self.page_size,
            prompt.vim_mode == self.vim_mode,
            prompt.starting_cursor == self.starting_cursor,
            prompt.filter == filter,
            prompt.keep_filter == self.keep_filter,
            prompt.dynamic_option == self.dynamic_option,
            prompt.formatter == self.formatter,
            prompt.validator == self.validator,
            prompt.render_config == self.render_config,
    {
        MultiSelect {
            message: self.message,
            options: self.options,
            default: self.default,
            help_message: self.help_message,
            page_size: self.page_size,
            vim_mode: self.vim_mode,
            starting_cursor: self.starting_cursor,
            filter: filter,
            keep_filter: self.keep_filter,
            dynamic_option: self.dynamic_option,
            formatter: self.formatter,
            validator: self.validator,
            render_config: self.render_config,
        }
    }

    /// Sets the formatter.
    pub fn with_formatter<M2: Fn(&[SelectedOption<&T>]) -> String>(self, formatter: M2) -> (prompt: MultiSelect<'a, T, F, M2, V, C, K>)
        ensures
            prompt.message == self.message,
            prompt.options == self.options,
            prompt.default == self.default,
            prompt.help_message == self.help_message,
            prompt.page_size == self.page_size,
            prompt.vim_mode == self.vim_mode,
            prompt.starting_cursor == self.starting_cursor,
            prompt.filter == self.filter,
            prompt.keep_filter == self.keep_filter,
            prompt.dynamic_option == self.dynamic_option,
            prompt.formatter == formatter,
            prompt.validator == self.validator,
            prompt.render_config == self.render_config,
    {
        MultiSelect {
            message: self.message,
            options: self.options,
            default: self.default,
            help_message: self.help_message,
            page_size: self.page_size,
            vim_mode: self.vim_mode,
            starting_cursor: self.starting_cursor,
            filter: self.filter,
            keep_filter: self.keep_filter,
            dynamic_option: self.dynamic_option,
            formatter: formatter,
            validator: self.validator,
            render_config: self.render_config,
        }
    }

    /// Sets the validator to apply to the user input. You might want to use this
    /// feature in case you need to limit the user to specific choices, such as
    /// limiting the number of selections.
    ///
    /// In case of error, the message is displayed one line above the prompt.
    pub fn with_validator<V2: Fn(&[SelectedOption<&T>]) -> Result<Validation, CustomUserError>>(self, validator: V2) -> (prompt: MultiSelect<'a, T, F, M, V2, C, K>)
        ensures
            prompt.message == self.message,
            prompt.options == self.options,
            prompt.default == self.default,
            prompt.help_message == self.help_message,
            prompt.page_size == self.page_size,
            prompt.vim_mode == self.vim_mode,
            prompt.starting_cursor == self.starting_cursor,
            prompt.filter == self.filter,
            prompt.keep_filter == self.keep_filter,
            prompt.dynamic_option == self.dynamic_option,
            prompt.formatter == self.formatter,
            prompt.validator == validator,
            prompt.render_config == self.render_config,
    {
        MultiSelect {
            message: self.message,
            options: self.options,
            default: self.default,
            help_message: self.help_message,
            page_size: self.page_size,
            vim_mode: self.vim_mode,
            starting_cursor: self.starting_cursor,
            filter: self.filter,
            keep_filter: self.keep_filter,
            dynamic_option: self.dynamic_option,
            formatter: self.formatter,
            validator: validator,
            render_config: self.render_config,
        }
    }

    /// Sets whether, and how, the user may add entries of their own.
    pub fn with_dynamic_option<C2: Fn(&str, &[ListOption<T>]) -> Result<bool, CustomUserError>, K2: Fn(&str) -> Result<T, CustomUserError>>(self, dynamic_option: DynamicOption<C2, K2>) -> (prompt: MultiSelect<'a, T, F, M, V, C2, K2>)
        ensures
            prompt.message == self.message,
            prompt.options == self.options,
            prompt.default == self.default,
            prompt.help_message == self.help_message,
            prompt.page_size == self.page_size,
            prompt.vim_mode == self.vim_mode,
            prompt.starting_cursor == self.starting_cursor,
            prompt.filter == self.filter,
            prompt.keep_filter == self.keep_filter,
            prompt.dynamic_option == dynamic_option,
            prompt.formatter == self.formatter,
            prompt.validator == self.validator,
            prompt.render_config == self.render_config,
    {
        MultiSelect {
            message: self.message,
            options: self.options,
            default: self.default,
            help_message: self.help_message,
            page_size: self.page_size,
            vim_mode: self.vim_mode,
            starting_cursor: self.starting_cursor,
            filter: self.filter,
            keep_filter: self.keep_filter,
            dynamic_option: dynamic_option,
            formatter: self.formatter,
            validator: self.validator,
            render_config: self.render_config,
        }
    }
}

/// The values of the selections, without their indices.
pub fn into_values<T>(selections: Vec<SelectedOption<T>>) -> (values: Vec<T>)
    ensures
        values@ == selection_values(selections@),
{
    let ghost all = selections@;
    let mut values: Vec<T> = Vec::new();
    for selected in it: selections
        invariant
            it.seq() == all,
            values@ == selection_values(all.take(it.index())),
    {
        values.push(selected.value);
        assert(values@ =~= selection_values(all.take(it.index() + 1)));
    }
    proof {
        assert(all.take(all.len() as int) == all);
    }
    values
}

/// Turns the end of a prompt that the user skipped into the answer "none".
pub fn skippable<A>(outcome: InquireResult<A>) -> (softened: InquireResult<Option<A>>)
    ensures
        softened == skipped_as_none(outcome),
{
    match outcome {
        Ok(answer) => Ok(Some(answer)),
        Err(InquireError::OperationCanceled) => Ok(None),
        Err(error) => Err(error),
    }
}

/// A prompt's end, with a skip by the user as the answer "none" and every
/// other end as it is.
pub open spec fn skipped_as_none<A>(outcome: InquireResult<A>) -> InquireResult<Option<A>> {
    match outcome {
        Ok(answer) => Ok(Some(answer)),
        Err(InquireError::OperationCanceled) => Ok(None),
        Err(error) => Err(error),
    }
}

impl<'a, T, F, M, V, C, K> MultiSelect<'a, T, F, M, V, C, K> where
    T: Display,
    F: Fn(&str, &T, &str, usize) -> bool,
    M: Fn(&[SelectedOption<&T>]) -> String,
    V: Fn(&[SelectedOption<&T>]) -> Result<Validation, CustomUserError>,
    C: Fn(&str, &[ListOption<T>]) -> Result<bool, CustomUserError>,
    K: Fn(&str) -> Result<T, CustomUserError>,
{
    /// Whether every function that is plugged in can be called on every
    /// argument.
    pub open spec fn callbacks_total(&self) -> bool {
        &&& forall|filter: &str, value: &T, string_value: &str, index: usize|
            call_requires(self.filter, (filter, value, string_value, index))
        &&& forall|ans: &[SelectedOption<&T>]| call_requires(self.formatter, (ans,))
        &&& forall|ans: &[SelectedOption<&T>]| call_requires(self.validator, (ans,))
        &&& self.dynamic_option matches DynamicOption::Enabled(condition, creator) ==> {
            &&& forall|filter: &str, entries: &[ListOption<T>]|
                call_requires(condition, (filter, entries))
            &&& forall|filter: &str| call_requires(creator, (filter,))
        }
    }

    /// Whether `started` is a prompt that this configuration starts with,
    /// and `ran` an end that it may come to on the keys.
    pub open spec fn runs_to(
        &self,
        keys: Seq<Key>,
        started: MultiSelectPrompt<'a, T, F, M, V, C, K>,
        ran: InquireResult<(Vec<SelectedOption<T>>, String)>,
    ) -> bool {
        started.is_setup_of(self) && started.run_gives(keys, ran)
    }

    /// Whether the prompt, set up from this configuration and fed the
    /// keys, may end in `outcome`: with a configuration error if it cannot
    /// be set up, and else as [`MultiSelectPrompt::run_gives`] says, with
    /// the selection result as the answer.
    pub open spec fn raw_prompt_gives(
        &self,
        keys: Seq<Key>,
        outcome: InquireResult<Vec<SelectedOption<T>>>,
    ) -> bool {
        if is_misconfigured(
            self.options@.len() as int,
            self.default,
            self.starting_cursor as int,
        ) {
            outcome matches Err(InquireError::InvalidConfiguration(_))
        } else {
            exists|
                started: MultiSelectPrompt<'a, T, F, M, V, C, K>,
                ran: InquireResult<(Vec<SelectedOption<T>>, String)>,
            |
                #[trigger] self.runs_to(keys, started, ran) && match ran {
                    Ok(done) => outcome == Ok::<Vec<SelectedOption<T>>, InquireError>(done.0),
                    Err(error) => outcome == Err::<Vec<SelectedOption<T>>, InquireError>(error),
                }
        }
    }

    /// Whether the prompt may end in `outcome` where only the values of
    /// the selection result are asked for.
    pub open spec fn prompt_gives(&self, keys: Seq<Key>, outcome: InquireResult<Vec<T>>) -> bool {
        exists|raw: InquireResult<Vec<SelectedOption<T>>>| #[trigger]
            self.raw_prompt_gives(keys, raw) && match raw {
                Ok(answer) => outcome matches Ok(values) && values@ == selection_values(answer@),
                Err(error) => outcome == Err::<Vec<T>, InquireError>(error),
            }
    }

    /// Sets the prompt up and runs it on a recorded sequence of keys.
    ///
    /// Returns the values selected by the user, in the order of the
    /// options. If the user skips the prompt, the answer is `None`, and no
    /// error.
    pub fn prompt_skippable(self, keys: &[Key]) -> (outcome: InquireResult<Option<Vec<T>>>)
        requires
            self.callbacks_total(),
        ensures
            exists|plain: InquireResult<Vec<T>>| #[trigger]
                self.prompt_gives(keys@, plain) && outcome == skipped_as_none(plain),
    {
        let plain: InquireResult<Vec<T>> = self.prompt(keys);
        assert(self.prompt_gives(keys@, plain));
        skippable(plain)
    }

    /// Sets the prompt up and runs it on a recorded sequence of keys.
    ///
    /// Returns the values selected by the user, in the order of the
    /// options.
    pub fn prompt(self, keys: &[Key]) -> (outcome: InquireResult<Vec<T>>)
        requires
            self.callbacks_total(),
        ensures
            self.prompt_gives(keys@, outcome),
    {
        let raw: InquireResult<Vec<SelectedOption<T>>> = self.raw_prompt(keys);
        assert(self.raw_prompt_gives(keys@, raw));
        match raw {
            Ok(answer) => Ok(into_values(answer)),
            Err(error) => Err(error),
        }
    }

    /// Sets the prompt up and runs it on a recorded sequence of keys.
    ///
    /// Returns the selections of the user: the values with their indices
    /// in the list of options, in the order of the options. If the user
    /// skips the prompt, the answer is `None`, and no error.
    pub fn raw_prompt_skippable(self, keys: &[Key]) -> (outcome: InquireResult<
        Option<Vec<SelectedOption<T>>>,
    >)
        requires
            self.callbacks_total(),
        ensures
            exists|raw: InquireResult<Vec<SelectedOption<T>>>| #[trigger]
                self.raw_prompt_gives(keys@, raw) && outcome == skipped_as_none(raw),
    {
        let raw: InquireResult<Vec<SelectedOption<T>>> = self.raw_prompt(keys);
        assert(self.raw_prompt_gives(keys@, raw));
        skippable(raw)
    }

    /// Sets the prompt up and runs it on a recorded sequence of keys.
    ///
    /// Returns the selections of the user: the values with their indices
    /// in the list of options, in the order of the options.
    pub fn raw_prompt(self, keys: &[Key]) -> (outcome: InquireResult<Vec<SelectedOption<T>>>)
        requires
            self.callbacks_total(),
        ensures
            self.raw_prompt_gives(keys@, outcome),
            outcome matches Ok(answer) ==> in_registry_order(answer@),
    {
        let started = match MultiSelectPrompt::new(self) {
            Ok(started) => started,
            Err(error) => {
                return Err(error);
            },
        };
        let ghost first = started;
        let ran: InquireResult<(Vec<SelectedOption<T>>, String)> = started.prompt(keys);
        assert(self.runs_to(keys@, first, ran));
        match ran {
            Ok(done) => Ok(done.0),
            Err(error) => Err(error),
        }
    }
}

} // verus!
