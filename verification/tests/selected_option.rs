use inquire::selected_option::SelectedOption;

#[test]
fn new_keeps_index_and_value() {
    let answer = SelectedOption::new(4, "a");
    assert_eq!(4, answer.index);
    assert_eq!("a", answer.value);
}

#[test]
fn as_ref_borrows_the_value() {
    let answer = SelectedOption::new(2, String::from("pear"));
    let borrowed: SelectedOption<&String> = answer.as_ref();
    assert_eq!(2, borrowed.index);
    assert_eq!(&String::from("pear"), borrowed.value);
}

#[test]
fn from_list_numbers_the_values() {
    let selections = SelectedOption::from_list(vec!["a", "b", "c"]);
    assert_eq!(
        vec![
            SelectedOption::new(0, "a"),
            SelectedOption::new(1, "b"),
            SelectedOption::new(2, "c"),
        ],
        selections
    );
    assert_eq!(
        Vec::<SelectedOption<u8>>::new(),
        SelectedOption::from_list(Vec::<u8>::new())
    );
}

#[test]
fn from_enumerated_list_keeps_the_given_indices() {
    let selections = SelectedOption::from_enumerated_list(vec![(7, "a"), (2, "b")]);
    assert_eq!(vec![SelectedOption::new(7, "a"), SelectedOption::new(2, "b")], selections);
}

#[test]
fn to_string_shows_the_value() {
    assert_eq!("12", SelectedOption::new(3, 12).to_string());
    assert_eq!("Seattle", SelectedOption::new(0, "Seattle").to_string());
}
