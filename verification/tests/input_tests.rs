use word_guess::input::first_char_of_line;

#[test]
fn first_char_of_ordinary_line() {
    assert_eq!(first_char_of_line(&vec!['h', 'i', '\n']), Some('h'));
}

#[test]
fn first_char_with_carriage_return() {
    assert_eq!(first_char_of_line(&vec!['y', '\r', '\n']), Some('y'));
}

#[test]
fn first_char_without_line_ending() {
    assert_eq!(first_char_of_line(&vec!['a', 'b']), Some('a'));
}

#[test]
fn empty_line_yields_no_char() {
    let empty: Vec<char> = Vec::new();
    assert_eq!(first_char_of_line(&empty), None);
    assert_eq!(first_char_of_line(&vec!['\n']), None);
    assert_eq!(first_char_of_line(&vec!['\r', '\n']), None);
}
