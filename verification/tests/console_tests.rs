use blokus::board::{initialize_board, Board};
use blokus::console::{cell_marker, render_board};
use blokus::input::{is_blank_char, parse_move, parse_number, select_move, split_words};
use blokus::player::Player;

fn text(line: &[char]) -> String {
    line.iter().collect()
}

fn word(text: &str) -> Vec<char> {
    text.chars().collect()
}

#[test]
fn each_cell_has_its_marker() {
    assert_eq!(cell_marker(Some(Player::Player1)), '1');
    assert_eq!(cell_marker(Some(Player::Player2)), '2');
    assert_eq!(cell_marker(None), '.');
}

#[test]
fn empty_board_is_drawn_as_dots() {
    let lines = render_board(&initialize_board());
    assert_eq!(lines.len(), 14);
    for line in lines.iter() {
        assert_eq!(text(line), "..............");
    }
}

#[test]
fn board_is_drawn_row_by_row() {
    let mut board = Board::new(3, 4);
    assert!(board.set_owner(0, 0, Player::Player1));
    assert!(board.set_owner(0, 1, Player::Player1));
    assert!(board.set_owner(1, 0, Player::Player1));
    assert!(board.set_owner(2, 3, Player::Player2));
    let lines = render_board(&board);
    assert_eq!(lines.len(), 3);
    assert_eq!(text(&lines[0]), "11..");
    assert_eq!(text(&lines[1]), "1...");
    assert_eq!(text(&lines[2]), "...2");
}

#[test]
fn three_numbers_choose_a_move() {
    assert_eq!(parse_move("0 1 2", 2), Some((0, (1, 2))));
    assert_eq!(parse_move("1 13 0\n", 2), Some((1, (13, 0))));
    assert_eq!(parse_move("  1\t3  4 \r\n", 2), Some((1, (3, 4))));
}

#[test]
fn piece_number_must_be_in_the_inventory() {
    assert_eq!(parse_move("2 0 0", 2), None);
    assert_eq!(parse_move("0 0 0", 0), None);
    assert_eq!(parse_move("1 0 0", 2), Some((1, (0, 0))));
    assert_eq!(parse_move("7 5 6", 8), Some((7, (5, 6))));
}

#[test]
fn wrong_count_of_numbers_is_no_move() {
    assert_eq!(parse_move("", 2), None);
    assert_eq!(parse_move("   \n", 2), None);
    assert_eq!(parse_move("0", 2), None);
    assert_eq!(parse_move("0 1", 2), None);
    assert_eq!(parse_move("0 1 2 3", 2), None);
}

#[test]
fn a_word_that_is_no_number_spoils_the_line() {
    assert_eq!(parse_move("a 0 1 2", 2), None);
    assert_eq!(parse_move("0 1 2 x", 2), None);
    assert_eq!(parse_move("0 1 x", 2), None);
    assert_eq!(parse_move("0,1,2", 2), None);
    assert_eq!(parse_move("0 1.5 2", 2), None);
    assert_eq!(parse_move("0 -1 2", 2), None);
    assert_eq!(parse_move("0 1 2-", 2), None);
    assert_eq!(parse_move("0 + 2", 2), None);
    assert_eq!(parse_move("0 1+ 2", 2), None);
    assert_eq!(parse_move("0 ++1 2", 2), None);
    assert_eq!(parse_move("0 0x1 2", 2), None);
}

#[test]
fn plus_sign_and_leading_zeros_are_accepted() {
    assert_eq!(parse_move("+1 +2 +3", 2), Some((1, (2, 3))));
    assert_eq!(parse_move("000 0007 08", 1), Some((0, (7, 8))));
    assert_eq!(parse_move("+00 0 0", 1), Some((0, (0, 0))));
}

#[test]
fn numbers_are_read_up_to_the_largest_the_machine_holds() {
    let largest = format!("0 {} {}", usize::MAX, usize::MAX - 1);
    assert_eq!(parse_move(&largest, 1), Some((0, (usize::MAX, usize::MAX - 1))));
    let padded = format!("0 0000{} 1", usize::MAX);
    assert_eq!(parse_move(&padded, 1), Some((0, (usize::MAX, 1))));
    let too_large = format!("0 {} 1", usize::MAX as u128 + 1);
    assert_eq!(parse_move(&too_large, 1), None);
    let ten_times = format!("0 {}0 1", usize::MAX);
    assert_eq!(parse_move(&ten_times, 1), None);
    assert_eq!(parse_move("0 99999999999999999999999999999999999999999 1", 1), None);
}

#[test]
fn any_white_space_separates_words() {
    assert_eq!(parse_move("0\u{00A0}1\u{3000}2", 1), Some((0, (1, 2))));
    assert_eq!(parse_move("0\u{000B}1\u{000C}2\u{0085}", 1), Some((0, (1, 2))));
    assert_eq!(parse_move("\u{2003}0\u{2028}1\u{205F}2", 1), Some((0, (1, 2))));
    // A zero-width space is no white space.
    assert_eq!(parse_move("0\u{200B}1 2 3", 1), None);
}

#[test]
fn white_space_is_told_from_other_characters() {
    for c in [' ', '\t', '\n', '\r', '\u{000B}', '\u{000C}', '\u{0085}', '\u{00A0}', '\u{1680}',
        '\u{2000}', '\u{200A}', '\u{2028}', '\u{2029}', '\u{202F}', '\u{205F}', '\u{3000}'] {
        assert!(is_blank_char(c));
    }
    for c in ['0', 'a', '+', '\u{0008}', '\u{000E}', '\u{001F}', '\u{200B}', '\u{180E}', '\u{FEFF}'] {
        assert!(!is_blank_char(c));
    }
}

#[test]
fn white_space_agrees_with_the_language() {
    for code in 0u32..0x11000 {
        if let Some(c) = char::from_u32(code) {
            assert_eq!(is_blank_char(c), c.is_whitespace());
        }
    }
}

#[test]
fn words_are_the_runs_between_white_space() {
    assert_eq!(split_words(""), Vec::<Vec<char>>::new());
    assert_eq!(split_words(" \t "), Vec::<Vec<char>>::new());
    assert_eq!(split_words("ab"), vec![word("ab")]);
    assert_eq!(split_words("  ab  c\td\n"), vec![word("ab"), word("c"), word("d")]);
    assert_eq!(split_words("x y"), vec![word("x"), word("y")]);
    assert_eq!(split_words("12 +3 -4"), vec![word("12"), word("+3"), word("-4")]);
}

#[test]
fn words_agree_with_the_language() {
    for line in ["", " ", "a", " a", "a ", "a b", "a  b", "  12\t34\n56  ", "\u{3000}x\u{00A0}y", "0 1 2"] {
        let expected: Vec<Vec<char>> = line.split_whitespace().map(word).collect();
        assert_eq!(split_words(line), expected);
    }
}

#[test]
fn a_word_is_read_as_a_number() {
    assert_eq!(parse_number(&word("0")), Some(0));
    assert_eq!(parse_number(&word("7")), Some(7));
    assert_eq!(parse_number(&word("10")), Some(10));
    assert_eq!(parse_number(&word("123456")), Some(123456));
    assert_eq!(parse_number(&word("+42")), Some(42));
    assert_eq!(parse_number(&word("0042")), Some(42));
    assert_eq!(parse_number(&word("")), None);
    assert_eq!(parse_number(&word("+")), None);
    assert_eq!(parse_number(&word("-1")), None);
    assert_eq!(parse_number(&word("1a")), None);
    assert_eq!(parse_number(&word("a1")), None);
    assert_eq!(parse_number(&word("1+")), None);
    assert_eq!(parse_number(&word("\u{0661}")), None);
}

#[test]
fn numbers_agree_with_the_language() {
    let largest = usize::MAX.to_string();
    let beyond = (usize::MAX as u128 + 1).to_string();
    for text in ["0", "1", "9", "10", "99", "100", "+5", "+0", "007", "", "+", "-", "-0", "++1",
        "1 ", "12a", "/", ":", "4294967295", "4294967296", largest.as_str(), beyond.as_str()] {
        assert_eq!(parse_number(&word(text)), text.parse::<usize>().ok());
    }
}

#[test]
fn typed_numbers_choose_a_move() {
    assert_eq!(select_move(&vec![0, 1, 2], 2), Some((0, (1, 2))));
    assert_eq!(select_move(&vec![1, 1, 2], 2), Some((1, (1, 2))));
    assert_eq!(select_move(&vec![2, 1, 2], 2), None);
    assert_eq!(select_move(&vec![0, 1], 2), None);
    assert_eq!(select_move(&vec![0, 1, 2, 3], 2), None);
    assert_eq!(select_move(&vec![], 2), None);
    assert_eq!(select_move(&vec![0, usize::MAX, usize::MAX], 1), Some((0, (usize::MAX, usize::MAX))));
}
