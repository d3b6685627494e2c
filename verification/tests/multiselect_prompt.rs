use inquire::error::{InquireError, END_OF_KEYS};
use inquire::filtering::default_filter;
use inquire::formatter::default_formatter;
use inquire::prompts::multiselect::{never_create, never_offer, MultiSelect};
use inquire::prompts::multiselect_prompt::{classify, Command, MultiSelectPrompt, PromptAction};
use inquire::selected_option::SelectedOption;
use inquire::type_aliases::DynamicOption;
use inquire::ui::{Key, KeyModifiers, ListOptionValue, RenderConfig};
use inquire::utils::ListOption;
use inquire::validator::{ErrorMessage, Validation};

fn plain_key(c: char) -> Key {
    Key::Char(c, KeyModifiers::none())
}

fn space() -> Key {
    plain_key(' ')
}

fn arrow_down() -> Key {
    Key::Down(KeyModifiers::none())
}

fn arrow_up() -> Key {
    Key::Up(KeyModifiers::none())
}

fn fruits() -> Vec<String> {
    vec![
        String::from("Banana"),
        String::from("Apple"),
        String::from("Avocado"),
    ]
}

fn checked_flags<T>(options: &Vec<ListOption<T>>) -> Vec<bool> {
    options.iter().map(|o| o.checked).collect()
}

#[test]
fn no_defaults_means_nothing_checked() {
    let prompt = MultiSelectPrompt::new(MultiSelect::new("Fruits", fruits())).unwrap();
    assert_eq!(vec![false, false, false], checked_flags(&prompt.options));
    assert_eq!(vec![0, 1, 2], prompt.filtered_options);
    assert_eq!(0, prompt.cursor_index);
    assert_eq!("", prompt.input.content());
    assert_eq!(None, prompt.error);
}

#[test]
fn registry_carries_index_and_display_text() {
    let prompt = MultiSelectPrompt::new(MultiSelect::new("Numbers", vec![10, 20, 30])).unwrap();
    let indices: Vec<usize> = prompt.options.iter().map(|o| o.index).collect();
    let texts: Vec<String> = prompt.options.iter().map(|o| o.string_value.clone()).collect();
    let values: Vec<i32> = prompt.options.iter().map(|o| o.value).collect();
    assert_eq!(vec![0, 1, 2], indices);
    assert_eq!(vec!["10", "20", "30"], texts);
    assert_eq!(vec![10, 20, 30], values);
}

#[test]
fn defaults_are_checked_at_the_start() {
    let defaults = [2usize, 0usize];
    let prompt =
        MultiSelectPrompt::new(MultiSelect::new("Fruits", fruits()).with_default(&defaults))
            .unwrap();
    assert_eq!(vec![true, false, true], checked_flags(&prompt.options));
}

#[test]
fn empty_options_are_a_configuration_error() {
    let made = MultiSelectPrompt::new(MultiSelect::new("Nothing", Vec::<i32>::new()));
    match made {
        Err(InquireError::InvalidConfiguration(message)) => {
            assert_eq!("Available options can not be empty", message)
        }
        _ => panic!("an empty list must be refused"),
    }
}

#[test]
fn default_out_of_range_is_a_configuration_error() {
    let defaults = [1usize, 3usize];
    let made = MultiSelectPrompt::new(MultiSelect::new("Fruits", fruits()).with_default(&defaults));
    match made {
        Err(InquireError::InvalidConfiguration(message)) => {
            assert_eq!("Index 3 is out-of-bounds for length 3 of options", message)
        }
        _ => panic!("a default outside the list must be refused"),
    }
}

#[test]
fn starting_cursor_out_of_range_is_a_configuration_error() {
    let made = MultiSelectPrompt::new(MultiSelect::new("Fruits", fruits()).with_starting_cursor(3));
    match made {
        Err(InquireError::InvalidConfiguration(message)) => {
            assert_eq!("Index 3 is out-of-bounds for length 3 of options", message)
        }
        _ => panic!("a starting cursor outside the list must be refused"),
    }
    let made = MultiSelectPrompt::new(MultiSelect::new("Fruits", fruits()).with_starting_cursor(2));
    assert_eq!(2, made.unwrap().cursor_index);
}

#[test]
fn misconfigured_prompt_fails_before_any_key() {
    let keys = vec![Key::Submit];
    let outcome = MultiSelect::new("Nothing", Vec::<i32>::new()).raw_prompt(&keys);
    assert!(matches!(outcome, Err(InquireError::InvalidConfiguration(_))));
}

#[test]
fn toggling_twice_restores_the_entry() {
    let mut prompt = MultiSelectPrompt::new(MultiSelect::new("Fruits", fruits())).unwrap();
    prompt.on_change(arrow_down()).unwrap();
    prompt.toggle_cursor_selection().unwrap();
    assert_eq!(vec![false, true, false], checked_flags(&prompt.options));
    prompt.toggle_cursor_selection().unwrap();
    assert_eq!(vec![false, false, false], checked_flags(&prompt.options));
}

#[test]
fn select_all_then_none_leaves_nothing_checked() {
    let mut prompt = MultiSelectPrompt::new(MultiSelect::new("Fruits", fruits())).unwrap();
    prompt.on_change(plain_key('A')).unwrap();
    prompt.on_change(plain_key('v')).unwrap();
    assert_eq!(vec![2], prompt.filtered_options);
    prompt.on_change(Key::Right(KeyModifiers::none())).unwrap();
    assert_eq!(vec![true, true, true], checked_flags(&prompt.options));
    prompt.on_change(Key::Left(KeyModifiers::none())).unwrap();
    assert_eq!(vec![false, false, false], checked_flags(&prompt.options));
    assert_eq!(Vec::<SelectedOption<String>>::new(), prompt.get_final_answer());
}

#[test]
fn select_all_reaches_entries_that_the_filter_hides() {
    let keys = vec![
        plain_key('A'),
        plain_key('v'),
        Key::Right(KeyModifiers::none()),
        Key::Submit,
    ];
    let ans = MultiSelect::new("Fruits", fruits()).raw_prompt(&keys).unwrap();
    assert_eq!(
        vec![
            SelectedOption::new(0, String::from("Banana")),
            SelectedOption::new(1, String::from("Apple")),
            SelectedOption::new(2, String::from("Avocado")),
        ],
        ans
    );
}

#[test]
fn result_is_in_registry_order_whatever_the_selection_order() {
    let options = vec!["A", "B", "C"];
    // Select C, then A.
    let keys = vec![arrow_up(), space(), arrow_down(), space(), Key::Submit];
    let ans = MultiSelect::new("Letters", options).raw_prompt(&keys).unwrap();
    assert_eq!(vec![SelectedOption::new(0, "A"), SelectedOption::new(2, "C")], ans);
}

#[test]
fn filtering_hides_but_keeps_checked_state() {
    let mut prompt = MultiSelectPrompt::new(MultiSelect::new("Fruits", fruits())).unwrap();
    prompt.on_change(space()).unwrap();
    assert_eq!(vec![true, false, false], checked_flags(&prompt.options));
    prompt.on_change(plain_key('A')).unwrap();
    prompt.on_change(plain_key('v')).unwrap();
    assert_eq!("Av", prompt.input.content());
    assert_eq!(vec![2], prompt.filtered_options);
    assert_eq!(vec![true, false, false], checked_flags(&prompt.options));
    prompt.on_change(Key::Backspace).unwrap();
    prompt.on_change(Key::Backspace).unwrap();
    assert_eq!("", prompt.input.content());
    assert_eq!(vec![0, 1, 2], prompt.filtered_options);
    assert_eq!(vec![true, false, false], checked_flags(&prompt.options));
}

#[test]
fn default_filter_ignores_letter_case() {
    let mut prompt = MultiSelectPrompt::new(MultiSelect::new("Fruits", fruits())).unwrap();
    prompt.on_change(plain_key('a')).unwrap();
    assert_eq!(vec![0, 1, 2], prompt.filtered_options);
    prompt.on_change(plain_key('P')).unwrap();
    assert_eq!(vec![1], prompt.filtered_options);
}

#[test]
fn default_filter_matches_substrings() {
    assert_eq!(false, default_filter("sa", &"New York", "New York", 0));
    assert_eq!(true, default_filter("sa", &"Sacramento", "Sacramento", 1));
    assert_eq!(true, default_filter("sa", &"Kansas", "Kansas", 2));
    assert_eq!(true, default_filter("sa", &"Mesa", "Mesa", 3));
    assert_eq!(false, default_filter("sa", &"Phoenix", "Phoenix", 4));
    assert_eq!(true, default_filter("SA", &"San Jose", "San Jose", 12));
    assert_eq!(true, default_filter("", &"Austin", "Austin", 10));
    assert_eq!(false, default_filter("Austin, Texas", &"Austin", "Austin", 10));
}

#[test]
fn default_formatter_joins_with_commas() {
    let new_york = "New York";
    let seattle = "Seattle";
    let vancouver = "Vancouver";
    let mut ans = vec![SelectedOption::new(0, &new_york)];
    assert_eq!(String::from("New York"), default_formatter(&ans));
    ans.push(SelectedOption::new(3, &seattle));
    assert_eq!(String::from("New York, Seattle"), default_formatter(&ans));
    ans.push(SelectedOption::new(7, &vancouver));
    assert_eq!(String::from("New York, Seattle, Vancouver"), default_formatter(&ans));
    let nothing: Vec<SelectedOption<&&str>> = Vec::new();
    assert_eq!(String::new(), default_formatter(&nothing));
}

#[test]
fn custom_filter_replaces_the_default() {
    let by_index = |_text: &str, _value: &String, _label: &str, index: usize| -> bool {
        index % 2 == 0
    };
    let mut prompt =
        MultiSelectPrompt::new(MultiSelect::new("Fruits", fruits()).with_filter(by_index))
            .unwrap();
    prompt.on_change(plain_key('z')).unwrap();
    assert_eq!(vec![0, 2], prompt.filtered_options);
}

#[test]
fn down_on_empty_view_keeps_cursor_at_zero() {
    let mut prompt = MultiSelectPrompt::new(MultiSelect::new("Fruits", fruits())).unwrap();
    prompt.on_change(arrow_down()).unwrap();
    prompt.on_change(plain_key('#')).unwrap();
    assert_eq!(Vec::<usize>::new(), prompt.filtered_options);
    assert_eq!(0, prompt.cursor_index);
    for _ in 0..5 {
        assert_eq!(Ok(()), prompt.on_change(arrow_down()));
        assert_eq!(0, prompt.cursor_index);
    }
    assert_eq!(Ok(()), prompt.on_change(arrow_up()));
    assert_eq!(0, prompt.cursor_index);
    assert_eq!(Ok(()), prompt.on_change(Key::PageDown));
    assert_eq!(Ok(()), prompt.on_change(Key::End));
    assert_eq!(0, prompt.cursor_index);
}

#[test]
fn toggle_on_empty_view_changes_nothing() {
    let mut prompt =
        MultiSelectPrompt::new(MultiSelect::new("Fruits", fruits()).with_keep_filter(false))
            .unwrap();
    prompt.on_change(plain_key('#')).unwrap();
    assert_eq!(Ok(()), prompt.on_change(space()));
    assert_eq!(Ok(()), prompt.toggle_cursor_selection());
    assert_eq!(vec![false, false, false], checked_flags(&prompt.options));
    assert_eq!("#", prompt.input.content());
    assert_eq!(Vec::<usize>::new(), prompt.filtered_options);
}

#[test]
fn shrinking_view_clamps_the_cursor() {
    let mut prompt = MultiSelectPrompt::new(MultiSelect::new("Fruits", fruits())).unwrap();
    prompt.on_change(Key::End).unwrap();
    assert_eq!(2, prompt.cursor_index);
    prompt.on_change(plain_key('a')).unwrap();
    assert_eq!(2, prompt.cursor_index);
    prompt.on_change(plain_key('p')).unwrap();
    assert_eq!(vec![1], prompt.filtered_options);
    assert_eq!(0, prompt.cursor_index);
}

#[test]
fn single_steps_wrap_and_block_moves_stop() {
    let options: Vec<usize> = (0..20).collect();
    let mut prompt = MultiSelectPrompt::new(MultiSelect::new("Numbers", options)).unwrap();
    prompt.on_change(arrow_up()).unwrap();
    assert_eq!(19, prompt.cursor_index);
    prompt.on_change(arrow_down()).unwrap();
    assert_eq!(0, prompt.cursor_index);
    prompt.on_change(Key::PageDown).unwrap();
    assert_eq!(7, prompt.cursor_index);
    prompt.on_change(Key::PageDown).unwrap();
    prompt.on_change(Key::PageDown).unwrap();
    assert_eq!(19, prompt.cursor_index);
    prompt.on_change(Key::PageUp).unwrap();
    assert_eq!(12, prompt.cursor_index);
    prompt.on_change(Key::Home).unwrap();
    assert_eq!(0, prompt.cursor_index);
    prompt.on_change(Key::PageUp).unwrap();
    assert_eq!(0, prompt.cursor_index);
    prompt.on_change(Key::End).unwrap();
    assert_eq!(19, prompt.cursor_index);
}

#[test]
fn vim_keys_move_only_in_vim_mode() {
    let mut prompt =
        MultiSelectPrompt::new(MultiSelect::new("Fruits", fruits()).with_vim_mode(true)).unwrap();
    prompt.on_change(plain_key('j')).unwrap();
    assert_eq!(1, prompt.cursor_index);
    prompt.on_change(plain_key('k')).unwrap();
    assert_eq!(0, prompt.cursor_index);
    assert_eq!("", prompt.input.content());

    let mut prompt = MultiSelectPrompt::new(MultiSelect::new("Fruits", fruits())).unwrap();
    prompt.on_change(plain_key('j')).unwrap();
    assert_eq!("j", prompt.input.content());
    assert_eq!(Vec::<usize>::new(), prompt.filtered_options);
}

#[test]
fn keymap_by_example() {
    let none = KeyModifiers::none();
    assert_eq!(Command::MoveUp { qty: 1, wrap: true }, classify(Key::Up(none), false, 7));
    assert_eq!(Command::MoveDown { qty: 1, wrap: true }, classify(Key::Down(none), false, 7));
    assert_eq!(Command::MoveUp { qty: 7, wrap: false }, classify(Key::PageUp, false, 7));
    assert_eq!(Command::MoveDown { qty: 3, wrap: false }, classify(Key::PageDown, false, 3));
    assert_eq!(Command::MoveUp { qty: usize::MAX, wrap: false }, classify(Key::Home, false, 7));
    assert_eq!(Command::MoveDown { qty: usize::MAX, wrap: false }, classify(Key::End, false, 7));
    assert_eq!(Command::Toggle, classify(Key::Char(' ', none), false, 7));
    assert_eq!(Command::SetAll(true), classify(Key::Right(none), false, 7));
    assert_eq!(Command::SetAll(false), classify(Key::Left(none), false, 7));
    assert_eq!(Command::Edit, classify(Key::Backspace, false, 7));
    assert_eq!(Command::Edit, classify(Key::Char('x', none), false, 7));
    assert_eq!(Command::Edit, classify(Key::Char(' ', KeyModifiers::shift()), false, 7));
    assert_eq!(Command::Edit, classify(Key::Up(KeyModifiers::shift()), false, 7));
    assert_eq!(Command::MoveUp { qty: 1, wrap: true }, classify(Key::Char('k', none), true, 7));
    assert_eq!(Command::Edit, classify(Key::Char('k', none), false, 7));
}

#[test]
fn keep_filter_flag_decides_whether_a_selection_clears_the_filter() {
    let mut kept = MultiSelectPrompt::new(MultiSelect::new("Fruits", fruits())).unwrap();
    kept.on_change(plain_key('p')).unwrap();
    kept.on_change(space()).unwrap();
    assert_eq!("p", kept.input.content());
    assert_eq!(vec![1], kept.filtered_options);
    assert_eq!(vec![false, true, false], checked_flags(&kept.options));

    let mut cleared =
        MultiSelectPrompt::new(MultiSelect::new("Fruits", fruits()).with_keep_filter(false))
            .unwrap();
    cleared.on_change(plain_key('p')).unwrap();
    cleared.on_change(space()).unwrap();
    assert_eq!("", cleared.input.content());
    assert_eq!(vec![0, 1, 2], cleared.filtered_options);
    assert_eq!(vec![false, true, false], checked_flags(&cleared.options));

    let mut cleared =
        MultiSelectPrompt::new(MultiSelect::new("Fruits", fruits()).with_keep_filter(false))
            .unwrap();
    cleared.on_change(plain_key('p')).unwrap();
    cleared.on_change(Key::Right(KeyModifiers::none())).unwrap();
    assert_eq!("", cleared.input.content());
    assert_eq!(vec![0, 1, 2], cleared.filtered_options);
}

#[test]
fn dynamic_option_creates_an_entry_when_selected() {
    let condition = |text: &str, entries: &[ListOption<String>]| -> Result<bool, String> {
        Ok(!text.is_empty() && !entries.iter().any(|entry| entry.value == text))
    };
    let creator = |text: &str| -> Result<String, String> { Ok(text.to_string()) };
    let mut prompt = MultiSelectPrompt::new(
        MultiSelect::new("Fruits", fruits())
            .with_dynamic_option(DynamicOption::Enabled(condition, creator)),
    )
    .unwrap();
    for c in "Kiwi".chars() {
        assert_eq!(Ok(PromptAction::Render), prompt.handle_key(plain_key(c)));
    }
    // Nothing matches: the only row is the entry that would be created.
    assert_eq!(vec![3], prompt.filtered_options);
    assert_eq!(3, prompt.options.len());
    {
        let frame = prompt.render();
        assert_eq!(1, frame.options.len());
        assert_eq!(ListOptionValue::Dynamic("Kiwi"), frame.options[0].content);
        assert_eq!(false, frame.options[0].checked);
    }
    assert_eq!(Ok(PromptAction::Render), prompt.handle_key(space()));
    assert_eq!(4, prompt.options.len());
    assert_eq!(3, prompt.options[3].index);
    assert_eq!("Kiwi", prompt.options[3].string_value);
    assert_eq!("Kiwi", prompt.options[3].value);
    assert_eq!(true, prompt.options[3].checked);
    // The new entry matches the filter text, so no further entry is offered.
    assert_eq!(vec![3], prompt.filtered_options);
    {
        let frame = prompt.render();
        assert_eq!(ListOptionValue::Normal("Kiwi"), frame.options[0].content);
        assert_eq!(true, frame.options[0].checked);
    }
    assert_eq!(Ok(PromptAction::Finish), prompt.handle_key(Key::Submit));
    let (answer, text) = prompt.finish();
    assert_eq!(vec![SelectedOption::new(3, String::from("Kiwi"))], answer);
    assert_eq!("Kiwi", text);
}

#[test]
fn dynamic_option_is_not_offered_for_an_exact_match_or_an_empty_filter() {
    let condition =
        |_text: &str, _entries: &[ListOption<String>]| -> Result<bool, String> { Ok(true) };
    let creator = |text: &str| -> Result<String, String> { Ok(text.to_string()) };
    let mut prompt = MultiSelectPrompt::new(
        MultiSelect::new("Fruits", fruits())
            .with_dynamic_option(DynamicOption::Enabled(condition, creator)),
    )
    .unwrap();
    assert_eq!(vec![0, 1, 2], prompt.filtered_options);
    prompt.on_change(plain_key('A')).unwrap();
    assert_eq!(vec![0, 1, 2, 3], prompt.filtered_options);
    for c in "pple".chars() {
        prompt.on_change(plain_key(c)).unwrap();
    }
    assert_eq!(vec![1], prompt.filtered_options);
    prompt.on_change(Key::Backspace).unwrap();
    assert_eq!(vec![1, 3], prompt.filtered_options);
    for _ in 0..4 {
        prompt.on_change(Key::Backspace).unwrap();
    }
    assert_eq!(vec![0, 1, 2], prompt.filtered_options);
}

#[test]
fn failing_creator_ends_the_prompt_with_its_error() {
    let condition =
        |_text: &str, _entries: &[ListOption<String>]| -> Result<bool, String> { Ok(true) };
    let creator = |_text: &str| -> Result<String, String> { Err(String::from("no more room")) };
    let keys = vec![plain_key('x'), space(), Key::Submit];
    let outcome = MultiSelect::new("Fruits", fruits())
        .with_dynamic_option(DynamicOption::Enabled(condition, creator))
        .raw_prompt(&keys);
    assert_eq!(Err(InquireError::Custom(String::from("no more room"))), outcome);
}

#[test]
fn failing_condition_ends_the_prompt_with_its_error() {
    let condition = |_text: &str, _entries: &[ListOption<String>]| -> Result<bool, String> {
        Err(String::from("cannot tell"))
    };
    let creator = |text: &str| -> Result<String, String> { Ok(text.to_string()) };
    let keys = vec![arrow_down(), plain_key('x'), Key::Submit];
    let outcome = MultiSelect::new("Fruits", fruits())
        .with_dynamic_option(DynamicOption::Enabled(condition, creator))
        .raw_prompt(&keys);
    assert_eq!(Err(InquireError::Custom(String::from("cannot tell"))), outcome);
}

#[test]
fn validator_blocks_submission_until_two_are_checked() {
    let validator = |ans: &[SelectedOption<&String>]| -> Result<Validation, String> {
        if ans.len() < 2 {
            Ok(Validation::Invalid(ErrorMessage::Custom(String::from(
                "This list is too small!",
            ))))
        } else {
            Ok(Validation::Valid)
        }
    };
    let mut prompt =
        MultiSelectPrompt::new(MultiSelect::new("Fruits", fruits()).with_validator(validator))
            .unwrap();
    assert_eq!(Ok(PromptAction::Render), prompt.handle_key(Key::Submit));
    assert_eq!(
        Some(ErrorMessage::Custom(String::from("This list is too small!"))),
        prompt.error
    );
    assert_eq!(Ok(PromptAction::Render), prompt.handle_key(space()));
    assert_eq!(Ok(PromptAction::Render), prompt.handle_key(Key::Submit));
    {
        let frame = prompt.render();
        assert_eq!(
            Some(&ErrorMessage::Custom(String::from("This list is too small!"))),
            frame.error
        );
    }
    assert_eq!(Ok(PromptAction::Render), prompt.handle_key(arrow_down()));
    assert_eq!(Ok(PromptAction::Render), prompt.handle_key(space()));
    assert_eq!(Ok(PromptAction::Finish), prompt.handle_key(Key::Submit));
    let answer = prompt.get_final_answer();
    assert_eq!(
        vec![
            SelectedOption::new(0, String::from("Banana")),
            SelectedOption::new(1, String::from("Apple")),
        ],
        answer
    );
}

#[test]
fn validator_sees_checked_entries_that_the_filter_hides() {
    let validator = |ans: &[SelectedOption<&String>]| -> Result<Validation, String> {
        if ans.len() == 1 && ans[0].index == 0 && ans[0].value == "Banana" {
            Ok(Validation::Valid)
        } else {
            Ok(Validation::Invalid(ErrorMessage::Default))
        }
    };
    let keys = vec![space(), plain_key('A'), plain_key('v'), Key::Submit];
    let ans = MultiSelect::new("Fruits", fruits())
        .with_validator(validator)
        .raw_prompt(&keys)
        .unwrap();
    assert_eq!(vec![SelectedOption::new(0, String::from("Banana"))], ans);
}

#[test]
fn failing_validator_ends_the_prompt_with_its_error() {
    let validator = |_ans: &[SelectedOption<&String>]| -> Result<Validation, String> {
        Err(String::from("validator broke"))
    };
    let keys = vec![Key::Submit, Key::Submit];
    let outcome = MultiSelect::new("Fruits", fruits())
        .with_validator(validator)
        .raw_prompt(&keys);
    assert_eq!(Err(InquireError::Custom(String::from("validator broke"))), outcome);
}

#[test]
fn interrupt_and_cancel_end_the_prompt_without_validation() {
    let validator = |_ans: &[SelectedOption<&String>]| -> Result<Validation, String> {
        Err(String::from("must not be asked"))
    };
    let keys = vec![space(), Key::Interrupt, Key::Submit];
    let outcome = MultiSelect::new("Fruits", fruits())
        .with_validator(validator)
        .raw_prompt(&keys);
    assert_eq!(Err(InquireError::OperationInterrupted), outcome);

    let keys = vec![space(), Key::Cancel, Key::Submit];
    let outcome = MultiSelect::new("Fruits", fruits())
        .with_validator(validator)
        .raw_prompt(&keys);
    assert_eq!(Err(InquireError::OperationCanceled), outcome);
}

#[test]
fn skippable_prompts_answer_none_on_cancel() {
    let keys = vec![space(), Key::Cancel];
    assert_eq!(Ok(None), MultiSelect::new("Fruits", fruits()).prompt_skippable(&keys));
    assert_eq!(Ok(None), MultiSelect::new("Fruits", fruits()).raw_prompt_skippable(&keys));

    let keys = vec![space(), Key::Interrupt];
    assert_eq!(
        Err(InquireError::OperationInterrupted),
        MultiSelect::new("Fruits", fruits()).prompt_skippable(&keys)
    );
    assert_eq!(
        Err(InquireError::OperationInterrupted),
        MultiSelect::new("Fruits", fruits()).raw_prompt_skippable(&keys)
    );

    let keys = vec![arrow_down(), space(), Key::Submit];
    assert_eq!(
        Ok(Some(vec![String::from("Apple")])),
        MultiSelect::new("Fruits", fruits()).prompt_skippable(&keys)
    );
    assert_eq!(
        Ok(Some(vec![SelectedOption::new(1, String::from("Apple"))])),
        MultiSelect::new("Fruits", fruits()).raw_prompt_skippable(&keys)
    );
}

#[test]
fn prompt_returns_values_without_indices() {
    let keys = vec![arrow_up(), space(), arrow_down(), space(), Key::Submit];
    let ans = MultiSelect::new("Fruits", fruits()).prompt(&keys).unwrap();
    assert_eq!(vec![String::from("Banana"), String::from("Avocado")], ans);
}

#[test]
fn keys_that_end_too_early_fail_the_read() {
    let keys = vec![space(), arrow_down()];
    let outcome = MultiSelect::new("Fruits", fruits()).raw_prompt(&keys);
    assert_eq!(Err(InquireError::IO(String::from(END_OF_KEYS))), outcome);
    let none: Vec<Key> = Vec::new();
    let outcome = MultiSelect::new("Fruits", fruits()).raw_prompt(&none);
    assert_eq!(Err(InquireError::IO(String::from(END_OF_KEYS))), outcome);
}

#[test]
fn formatter_shows_the_final_answer() {
    let started = MultiSelectPrompt::new(MultiSelect::new("Fruits", fruits())).unwrap();
    let keys = vec![space(), arrow_up(), space(), Key::Submit];
    let (answer, text) = started.prompt(&keys).unwrap();
    assert_eq!(2, answer.len());
    assert_eq!("Banana, Avocado", text);

    let count = |ans: &[SelectedOption<&String>]| -> String {
        format!("{} different fruits", ans.len())
    };
    let started =
        MultiSelectPrompt::new(MultiSelect::new("Fruits", fruits()).with_formatter(count))
            .unwrap();
    let (_, text) = started.prompt(&keys).unwrap();
    assert_eq!("2 different fruits", text);
}

#[test]
fn page_of_seven_over_twenty_options_follows_the_cursor() {
    let options: Vec<usize> = (0..20).collect();
    let mut prompt =
        MultiSelectPrompt::new(MultiSelect::new("Numbers", options).with_page_size(7)).unwrap();
    {
        let frame = prompt.render();
        assert_eq!(7, frame.options.len());
        assert_eq!(0, frame.selection);
        assert_eq!(true, frame.first);
        assert_eq!(false, frame.last);
        let shown: Vec<usize> = frame.options.iter().map(|row| row.index).collect();
        assert_eq!(vec![0, 1, 2, 3, 4, 5, 6], shown);
    }
    for step in 1..20 {
        prompt.on_change(arrow_down()).unwrap();
        let frame = prompt.render();
        assert_eq!(7, frame.options.len());
        assert_eq!(step, prompt.cursor_index);
        assert_eq!(step, frame.options[frame.selection].index);
        let highlighted: Vec<bool> = frame.options.iter().map(|row| row.highlighted).collect();
        for (position, flag) in highlighted.iter().enumerate() {
            assert_eq!(position == frame.selection, *flag);
        }
    }
    {
        let frame = prompt.render();
        let shown: Vec<usize> = frame.options.iter().map(|row| row.index).collect();
        assert_eq!(vec![13, 14, 15, 16, 17, 18, 19], shown);
        assert_eq!(6, frame.selection);
        assert_eq!(true, frame.last);
    }
    for _ in 0..9 {
        prompt.on_change(arrow_up()).unwrap();
    }
    let frame = prompt.render();
    let shown: Vec<usize> = frame.options.iter().map(|row| row.index).collect();
    assert_eq!(vec![7, 8, 9, 10, 11, 12, 13], shown);
    assert_eq!(3, frame.selection);
}

#[test]
fn frame_carries_message_filter_rows_and_help() {
    let mut prompt = MultiSelectPrompt::new(
        MultiSelect::new("Fruits", fruits()).with_help_message("type to filter"),
    )
    .unwrap();
    prompt.on_change(arrow_down()).unwrap();
    prompt.on_change(space()).unwrap();
    prompt.on_change(plain_key('A')).unwrap();
    let frame = prompt.render();
    assert_eq!("Fruits", frame.message);
    assert_eq!("A", frame.input);
    assert_eq!(None, frame.error);
    assert_eq!(Some("type to filter"), frame.help_message);
    assert_eq!(3, frame.options.len());
    assert_eq!(ListOptionValue::Normal("Apple"), frame.options[1].content);
    assert_eq!(true, frame.options[1].checked);
    assert_eq!(true, frame.options[1].highlighted);
    assert_eq!(false, frame.options[0].checked);
    assert_eq!(1, frame.selection);
}

#[test]
fn builders_set_their_field() {
    let defaults = [1usize];
    let config = MultiSelect::new("Fruits", fruits());
    assert_eq!(7, config.page_size);
    assert_eq!(false, config.vim_mode);
    assert_eq!(true, config.keep_filter);
    assert_eq!(0, config.starting_cursor);
    assert_eq!(None, config.default);
    assert_eq!(
        Some("↑↓ to move, space to select one, → to all, ← to none, type to filter"),
        config.help_message
    );
    assert_eq!(RenderConfig::colored(), config.render_config);
    let config = config
        .with_help_message("help")
        .with_page_size(3)
        .with_vim_mode(true)
        .with_keep_filter(false)
        .with_default(&defaults)
        .with_starting_cursor(2)
        .with_render_config(RenderConfig::empty());
    assert_eq!("Fruits", config.message);
    assert_eq!(fruits(), config.options);
    assert_eq!(Some("help"), config.help_message);
    assert_eq!(3, config.page_size);
    assert_eq!(true, config.vim_mode);
    assert_eq!(false, config.keep_filter);
    assert_eq!(Some(&defaults[..]), config.default);
    assert_eq!(2, config.starting_cursor);
    assert_eq!(RenderConfig::empty(), config.render_config);
    let config = config.without_help_message();
    assert_eq!(None, config.help_message);
    assert_eq!(3, config.page_size);
}

#[test]
fn recomputing_the_view_gives_the_same_view() {
    let mut prompt = MultiSelectPrompt::new(MultiSelect::new("Fruits", fruits())).unwrap();
    prompt.on_change(plain_key('a')).unwrap();
    prompt.on_change(plain_key('p')).unwrap();
    let first = prompt.filter_options().unwrap();
    let second = prompt.filter_options().unwrap();
    assert_eq!(vec![1], first);
    assert_eq!(first, second);
    assert_eq!(Ok(()), prompt.refresh_options());
    assert_eq!(first, prompt.filtered_options);
    assert_eq!(0, prompt.cursor_index);
}

#[test]
fn validation_sees_only_checked_entries() {
    let seen = |ans: &[SelectedOption<&String>]| -> Result<Validation, String> {
        let indices: Vec<String> = ans.iter().map(|s| s.index.to_string()).collect();
        Ok(Validation::Invalid(ErrorMessage::Custom(indices.join("+"))))
    };
    let mut prompt =
        MultiSelectPrompt::new(MultiSelect::new("Fruits", fruits()).with_validator(seen)).unwrap();
    prompt.on_change(arrow_up()).unwrap();
    prompt.on_change(space()).unwrap();
    prompt.on_change(arrow_down()).unwrap();
    prompt.on_change(space()).unwrap();
    assert_eq!(
        Ok(Validation::Invalid(ErrorMessage::Custom(String::from("0+2")))),
        prompt.validate_current_answer()
    );
}

#[test]
fn set_all_checks_and_unchecks_every_entry() {
    let mut prompt = MultiSelectPrompt::new(MultiSelect::new("Fruits", fruits())).unwrap();
    prompt.set_all(true);
    assert_eq!(vec![true, true, true], checked_flags(&prompt.options));
    prompt.set_all(false);
    assert_eq!(vec![false, false, false], checked_flags(&prompt.options));
}

#[test]
fn cursor_moves_by_method() {
    let options: Vec<usize> = (0..5).collect();
    let mut prompt = MultiSelectPrompt::new(MultiSelect::new("Numbers", options)).unwrap();
    prompt.move_cursor_down(1, true);
    assert_eq!(1, prompt.cursor_index);
    prompt.move_cursor_down(10, false);
    assert_eq!(4, prompt.cursor_index);
    prompt.move_cursor_down(1, true);
    assert_eq!(0, prompt.cursor_index);
    prompt.move_cursor_up(1, true);
    assert_eq!(4, prompt.cursor_index);
    prompt.move_cursor_up(3, false);
    assert_eq!(1, prompt.cursor_index);
    prompt.move_cursor_up(3, false);
    assert_eq!(0, prompt.cursor_index);
}

#[test]
fn stand_ins_of_the_disabled_dynamic_option() {
    let entries: Vec<ListOption<String>> = Vec::new();
    assert_eq!(Ok(false), never_offer("Kiwi", &entries));
    assert_eq!(Err(String::new()), never_create::<String>("Kiwi"));
    assert_eq!(Err(String::new()), never_create::<u8>(""));
}
