use inquire::utils::paginate;

fn window(page_size: usize, total: usize, sel: usize) -> (Vec<usize>, usize, bool, bool) {
    let choices: Vec<usize> = (0..total).collect();
    let page = paginate(page_size, &choices, sel);
    (page.content.to_vec(), page.selection, page.first, page.last)
}

#[test]
fn short_list_is_shown_whole() {
    assert_eq!((vec![0, 1, 2], 1, true, true), window(7, 3, 1));
    assert_eq!((vec![0, 1, 2, 3, 4, 5, 6], 6, true, true), window(7, 7, 6));
}

#[test]
fn empty_list_gives_an_empty_page() {
    assert_eq!((Vec::<usize>::new(), 0, true, true), window(7, 0, 0));
}

#[test]
fn window_starts_at_the_top_near_the_top() {
    assert_eq!((vec![0, 1, 2, 3, 4, 5, 6], 0, true, false), window(7, 20, 0));
    assert_eq!((vec![0, 1, 2, 3, 4, 5, 6], 2, true, false), window(7, 20, 2));
}

#[test]
fn window_is_centred_in_the_middle() {
    assert_eq!((vec![0, 1, 2, 3, 4, 5, 6], 3, true, false), window(7, 20, 3));
    assert_eq!((vec![7, 8, 9, 10, 11, 12, 13], 3, false, false), window(7, 20, 10));
    assert_eq!((vec![8, 9, 10, 11], 2, false, false), window(4, 20, 10));
}

#[test]
fn window_ends_at_the_bottom_near_the_bottom() {
    assert_eq!((vec![13, 14, 15, 16, 17, 18, 19], 4, false, true), window(7, 20, 17));
    assert_eq!((vec![13, 14, 15, 16, 17, 18, 19], 6, false, true), window(7, 20, 19));
    assert_eq!((vec![13, 14, 15, 16, 17, 18, 19], 3, false, true), window(7, 20, 16));
}

#[test]
fn window_always_holds_the_cursor() {
    for page_size in 1..10usize {
        for total in 1..25usize {
            for sel in 0..total {
                let (content, selection, first, last) = window(page_size, total, sel);
                assert_eq!(page_size.min(total), content.len());
                assert_eq!(sel, content[selection]);
                assert_eq!(first, content[0] == 0);
                assert_eq!(last, content[content.len() - 1] == total - 1);
            }
        }
    }
}

#[test]
fn page_of_size_zero_shows_the_cursor_row() {
    assert_eq!((vec![5], 0, false, false), window(0, 20, 5));
}
