use inquire::error::{InquireError, END_OF_KEYS};
use inquire::prompts::interactive_multiselect::{
    answer_text, classify_interactive, CustomOption, InteractiveCommand, InteractiveMultiSelect,
    InteractiveMultiSelectPrompt, TerminalKey,
};
use inquire::prompts::multiselect_prompt::PromptAction;

fn tags(filter: &Option<String>, state: &Vec<CustomOption<String>>) -> Vec<CustomOption<String>> {
    let known = ["travel", "food", "fuel", "medicine"];
    let mut made: Vec<CustomOption<String>> = Vec::new();
    for tag in known.iter() {
        let wanted = match filter {
            Some(text) => tag.contains(text.as_str()),
            None => true,
        };
        let selected = state.iter().any(|o| o.selected && o.value == *tag);
        if wanted || selected {
            made.push(CustomOption::new(selected, tag.to_string()));
        }
    }
    made
}

fn no_tags(_filter: &Option<String>, _state: &Vec<CustomOption<String>>) -> Vec<CustomOption<String>> {
    Vec::new()
}

fn values(options: &Vec<CustomOption<String>>) -> Vec<String> {
    options.iter().map(|o| o.value.clone()).collect()
}

fn flags(options: &Vec<CustomOption<String>>) -> Vec<bool> {
    options.iter().map(|o| o.selected).collect()
}

#[test]
fn generator_makes_the_first_options() {
    let prompt = InteractiveMultiSelectPrompt::new(InteractiveMultiSelect::new("Tags:", tags));
    assert_eq!(vec!["travel", "food", "fuel", "medicine"], values(&prompt.options));
    assert_eq!(vec![false, false, false, false], flags(&prompt.options));
    assert_eq!(0, prompt.cursor_index);
    assert_eq!(None, prompt.filter_value);
    assert_eq!(None, prompt.error);
}

#[test]
fn starting_cursor_is_brought_into_the_options() {
    let prompt = InteractiveMultiSelectPrompt::new(
        InteractiveMultiSelect::new("Tags:", tags).with_starting_cursor(9),
    );
    assert_eq!(3, prompt.cursor_index);
    let prompt = InteractiveMultiSelectPrompt::new(
        InteractiveMultiSelect::new("Tags:", no_tags).with_starting_cursor(9),
    );
    assert_eq!(0, prompt.cursor_index);
}

#[test]
fn interactive_builders_set_their_field() {
    let config = InteractiveMultiSelect::new("Tags:", tags);
    assert_eq!("Tags:", config.message);
    assert_eq!(7, config.page_size);
    assert_eq!(false, config.vim_mode);
    assert_eq!(0, config.starting_cursor);
    assert_eq!(true, config.keep_filter);
    assert!(config.help_message.is_some());
    let config = config
        .with_help_message("help")
        .with_page_size(2)
        .with_vim_mode(true)
        .with_keep_filter(false)
        .with_starting_cursor(1);
    assert_eq!(Some("help"), config.help_message);
    assert_eq!(2, config.page_size);
    assert_eq!(true, config.vim_mode);
    assert_eq!(false, config.keep_filter);
    assert_eq!(1, config.starting_cursor);
    assert_eq!(None, config.without_help_message().help_message);
}

#[test]
fn cursor_steps_wrap() {
    let mut prompt = InteractiveMultiSelectPrompt::new(InteractiveMultiSelect::new("Tags:", tags));
    prompt.move_cursor_up();
    assert_eq!(3, prompt.cursor_index);
    prompt.move_cursor_down();
    assert_eq!(0, prompt.cursor_index);
    prompt.move_cursor_down();
    assert_eq!(1, prompt.cursor_index);
    prompt.on_change(TerminalKey::Char('\t'));
    assert_eq!(2, prompt.cursor_index);
    prompt.on_change(TerminalKey::Up);
    assert_eq!(1, prompt.cursor_index);
}

#[test]
fn steps_without_options_stay_at_zero() {
    let mut prompt =
        InteractiveMultiSelectPrompt::new(InteractiveMultiSelect::new("Tags:", no_tags));
    for _ in 0..3 {
        prompt.move_cursor_down();
        assert_eq!(0, prompt.cursor_index);
    }
    prompt.move_cursor_up();
    assert_eq!(0, prompt.cursor_index);
    prompt.toggle_cursor_selection();
    assert_eq!(0, prompt.options.len());
    assert_eq!(Ok(Vec::<String>::new()), prompt.get_final_answer());
}

#[test]
fn typing_filters_through_the_generator() {
    let mut prompt = InteractiveMultiSelectPrompt::new(InteractiveMultiSelect::new("Tags:", tags));
    prompt.on_change(TerminalKey::Down);
    prompt.on_change(TerminalKey::Down);
    prompt.on_change(TerminalKey::Down);
    assert_eq!(3, prompt.cursor_index);
    prompt.on_change(TerminalKey::Char('f'));
    assert_eq!(Some(String::from("f")), prompt.filter_value);
    assert_eq!(vec!["food", "fuel"], values(&prompt.options));
    assert_eq!(1, prompt.cursor_index);
    prompt.on_change(TerminalKey::Char('u'));
    assert_eq!(vec!["fuel"], values(&prompt.options));
    assert_eq!(0, prompt.cursor_index);
    prompt.on_change(TerminalKey::Backspace);
    assert_eq!(Some(String::from("f")), prompt.filter_value);
    prompt.on_change(TerminalKey::Backspace);
    assert_eq!(Some(String::new()), prompt.filter_value);
    assert_eq!(4, prompt.options.len());
    prompt.on_change(TerminalKey::Char('\u{17}'));
    assert_eq!(None, prompt.filter_value);
    prompt.on_change(TerminalKey::Backspace);
    assert_eq!(None, prompt.filter_value);
}

#[test]
fn toggle_and_set_all() {
    let mut prompt = InteractiveMultiSelectPrompt::new(InteractiveMultiSelect::new("Tags:", tags));
    prompt.on_change(TerminalKey::Down);
    prompt.on_change(TerminalKey::Char(' '));
    assert_eq!(vec![false, true, false, false], flags(&prompt.options));
    prompt.on_change(TerminalKey::Char(' '));
    assert_eq!(vec![false, false, false, false], flags(&prompt.options));
    prompt.on_change(TerminalKey::Right);
    assert_eq!(vec![true, true, true, true], flags(&prompt.options));
    prompt.on_change(TerminalKey::Left);
    assert_eq!(vec![false, false, false, false], flags(&prompt.options));
    prompt.on_change(TerminalKey::Other);
    prompt.on_change(TerminalKey::Ctrl('x'));
    assert_eq!(vec![false, false, false, false], flags(&prompt.options));
    assert_eq!(1, prompt.cursor_index);
}

#[test]
fn selection_can_drop_the_filter() {
    let mut prompt = InteractiveMultiSelectPrompt::new(
        InteractiveMultiSelect::new("Tags:", tags).with_keep_filter(false),
    );
    prompt.on_change(TerminalKey::Char('m'));
    assert_eq!(vec!["medicine"], values(&prompt.options));
    prompt.on_change(TerminalKey::Char(' '));
    assert_eq!(None, prompt.filter_value);
    assert_eq!(vec![false, false, false, true], flags(&prompt.options));

    let mut prompt = InteractiveMultiSelectPrompt::new(InteractiveMultiSelect::new("Tags:", tags));
    prompt.on_change(TerminalKey::Char('m'));
    prompt.on_change(TerminalKey::Char(' '));
    assert_eq!(Some(String::from("m")), prompt.filter_value);
    assert_eq!(vec![true], flags(&prompt.options));
}

#[test]
fn interactive_keymap_by_example() {
    assert_eq!(InteractiveCommand::MoveUp, classify_interactive(TerminalKey::Up, false));
    assert_eq!(InteractiveCommand::MoveDown, classify_interactive(TerminalKey::Down, false));
    assert_eq!(InteractiveCommand::MoveDown, classify_interactive(TerminalKey::Char('\t'), false));
    assert_eq!(InteractiveCommand::MoveUp, classify_interactive(TerminalKey::Char('k'), true));
    assert_eq!(InteractiveCommand::Type('k'), classify_interactive(TerminalKey::Char('k'), false));
    assert_eq!(InteractiveCommand::MoveDown, classify_interactive(TerminalKey::Char('j'), true));
    assert_eq!(InteractiveCommand::Toggle, classify_interactive(TerminalKey::Char(' '), false));
    assert_eq!(
        InteractiveCommand::ClearFilter,
        classify_interactive(TerminalKey::Char('\u{18}'), false)
    );
    assert_eq!(InteractiveCommand::Backspace, classify_interactive(TerminalKey::Backspace, false));
    assert_eq!(InteractiveCommand::SetAll(true), classify_interactive(TerminalKey::Right, false));
    assert_eq!(InteractiveCommand::SetAll(false), classify_interactive(TerminalKey::Left, false));
    assert_eq!(InteractiveCommand::Ignore, classify_interactive(TerminalKey::Ctrl('a'), false));
    assert_eq!(InteractiveCommand::Ignore, classify_interactive(TerminalKey::Other, false));
}

#[test]
fn enter_finishes_and_control_c_cancels() {
    let mut prompt = InteractiveMultiSelectPrompt::new(InteractiveMultiSelect::new("Tags:", tags));
    assert_eq!(Ok(PromptAction::Render), prompt.handle_key(TerminalKey::Char(' ')));
    assert_eq!(Ok(PromptAction::Finish), prompt.handle_key(TerminalKey::Char('\n')));
    assert_eq!(Ok(PromptAction::Finish), prompt.handle_key(TerminalKey::Char('\r')));
    assert_eq!(
        Err(InquireError::OperationCanceled),
        prompt.handle_key(TerminalKey::Ctrl('c'))
    );
    assert_eq!(vec![true, false, false, false], flags(&prompt.options));
}

#[test]
fn scripted_run_returns_the_selected_values() {
    let keys = vec![
        TerminalKey::Down,
        TerminalKey::Char(' '),
        TerminalKey::Up,
        TerminalKey::Char(' '),
        TerminalKey::Char('\n'),
    ];
    let ans = InteractiveMultiSelect::new("Tags:", tags).prompt(&keys).unwrap();
    assert_eq!(vec![String::from("travel"), String::from("food")], ans);

    let started = InteractiveMultiSelectPrompt::new(InteractiveMultiSelect::new("Tags:", tags));
    let (ans, text) = started.prompt(&keys).unwrap();
    assert_eq!(2, ans.len());
    assert_eq!("travel, food", text);
}

#[test]
fn scripted_run_can_be_canceled_or_run_dry() {
    let keys = vec![TerminalKey::Char(' '), TerminalKey::Ctrl('c'), TerminalKey::Char('\n')];
    assert_eq!(
        Err(InquireError::OperationCanceled),
        InteractiveMultiSelect::new("Tags:", tags).prompt(&keys)
    );
    let keys = vec![TerminalKey::Char(' ')];
    assert_eq!(
        Err(InquireError::IO(String::from(END_OF_KEYS))),
        InteractiveMultiSelect::new("Tags:", tags).prompt(&keys)
    );
}

#[test]
fn answer_text_joins_with_commas() {
    assert_eq!("", answer_text(&Vec::<u8>::new()));
    assert_eq!("4", answer_text(&vec![4]));
    assert_eq!("4, 5, 6", answer_text(&vec![4, 5, 6]));
}

#[test]
fn interactive_frame_shows_the_window() {
    let mut prompt = InteractiveMultiSelectPrompt::new(
        InteractiveMultiSelect::new("Tags:", tags)
            .with_page_size(2)
            .with_help_message("pick"),
    );
    prompt.on_change(TerminalKey::Down);
    prompt.on_change(TerminalKey::Down);
    prompt.on_change(TerminalKey::Char(' '));
    let frame = prompt.render();
    assert_eq!("Tags:", frame.message);
    assert_eq!(None, frame.filter);
    assert_eq!(None, frame.error);
    assert_eq!(Some("pick"), frame.help_message);
    assert_eq!(2, frame.rows.len());
    assert_eq!(1, frame.selection);
    assert_eq!(1, frame.rows[0].index);
    assert_eq!("food", frame.rows[0].text);
    assert_eq!(false, frame.rows[0].selected);
    assert_eq!(false, frame.rows[0].highlighted);
    assert_eq!(2, frame.rows[1].index);
    assert_eq!("fuel", frame.rows[1].text);
    assert_eq!(true, frame.rows[1].selected);
    assert_eq!(true, frame.rows[1].highlighted);
}
