use connect5::lines::{get_columns, get_diagonals_left, get_diagonals_right};
use connect5::runs::{has_long_group, line_has_win};
use connect5::win::{any_line_has_win, is_winner};
use itertools::Itertools;

fn board_of(rows: [&str; 6]) -> Vec<Vec<char>> {
    rows.iter().map(|row| row.chars().collect()).collect()
}

#[test]
fn test_is_winner() {
    let mut board = vec![
        vec!['-', '-', '-', '-', '-', '-', '-', '-', '-'],
        vec!['-', '-', '-', '-', '-', '-', '-', '-', '-'],
        vec!['-', '-', '-', '-', '-', '-', '-', '-', '-'],
        vec!['-', '-', '-', '-', '-', '-', '-', '-', '-'],
        vec!['-', '-', '-', '-', '-', '-', '-', '-', '-'],
        vec!['-', '-', '-', '-', '-', '-', '-', '-', '-'],
    ];
    assert!(!is_winner(&board));

    board = vec![
        vec!['-', '-', '-', '-', '-', '-', '-', '-', '-'],
        vec!['-', '-', '-', '-', '-', 'O', '-', '-', '-'],
        vec!['-', '-', '-', '-', '-', 'O', '-', '-', '-'],
        vec!['-', '-', '-', '-', '-', 'O', '-', '-', '-'],
        vec!['-', '-', '-', '-', '-', 'O', '-', '-', '-'],
        vec!['-', '-', '-', 'X', 'X', 'X', '-', '-', '-'],
    ];
    assert!(!is_winner(&board));

    board = vec![
        vec!['-', '-', '-', '-', '-', 'O', '-', '-', '-'],
        vec!['-', '-', '-', '-', '-', 'O', '-', '-', '-'],
        vec!['-', '-', '-', '-', '-', 'O', '-', '-', '-'],
        vec!['-', '-', '-', '-', '-', 'O', '-', '-', '-'],
        vec!['-', '-', '-', '-', '-', 'O', '-', '-', '-'],
        vec!['-', '-', '-', 'X', 'X', 'X', '-', '-', '-'],
    ];
    assert!(is_winner(&board));

    board = vec![
        vec!['-', '-', '-', '-', '-', 'O', '-', '-', '-'],
        vec!['-', '-', '-', '-', '-', 'O', '-', 'X', '-'],
        vec!['-', '-', '-', '-', '-', 'O', 'X', '-', '-'],
        vec!['-', '-', '-', '-', '-', 'X', '-', '-', '-'],
        vec!['-', '-', '-', '-', 'X', 'O', '-', '-', '-'],
        vec!['-', '-', '-', 'X', 'X', 'X', '-', '-', '-'],
    ];
    assert!(is_winner(&board));

    board = vec![
        vec!['-', '-', '-', '-', '-', '-', '-', '-', '-'],
        vec!['-', 'X', '-', '-', '-', 'O', '-', '-', '-'],
        vec!['-', '-', 'X', '-', '-', 'O', '-', '-', '-'],
        vec!['-', '-', '-', 'X', '-', 'O', '-', '-', '-'],
        vec!['-', '-', '-', '-', 'X', 'O', '-', '-', '-'],
        vec!['-', '-', '-', 'X', 'X', 'X', '-', '-', '-'],
    ];
    assert!(is_winner(&board));

    board = vec![
        vec!['-', '-', '-', '-', '-', '-', '-', '-', '-'],
        vec!['-', '-', '-', '-', '-', '-', '-', '-', '-'],
        vec!['-', '-', '-', '-', '-', '-', '-', '-', '-'],
        vec!['-', '-', '-', '-', '-', '-', '-', '-', '-'],
        vec!['-', 'X', 'X', 'X', 'X', 'X', 'X', '-', '-'],
        vec!['-', '-', '-', '-', '-', '-', '-', '-', '-'],
    ];
    assert!(is_winner(&board));

    board = vec![
        vec!['-', '-', '-', '-', '-', '-', '-', '-', '-'],
        vec!['-', '-', '-', '-', '-', '-', '-', '-', '-'],
        vec!['-', '-', '-', '-', '-', '-', '-', '-', '-'],
        vec!['-', '-', '-', '-', '-', '-', '-', '-', '-'],
        vec!['-', '-', '-', '-', '-', '-', '-', '-', '-'],
        vec!['X', 'X', '-', 'X', 'X', 'X', '-', 'X', 'X'],
    ];
    assert!(!is_winner(&board));

    let target_board = vec![
        vec!['-', '-', '-', '-', '-', '-', '-', '-', '-'],
        vec!['-', '-', '-', '-', '-', '-', '-', '-', '-'],
        vec!['-', '-', '-', '-', '-', '-', '-', '-', '-'],
        vec!['-', '-', '-', '-', '-', '-', '-', '-', '-'],
        vec!['-', '-', '-', '-', '-', '-', '-', '-', '-'],
        vec!['-', 'X', 'X', '-', '-', '-', '-', '-', '-'],
    ];

    assert!(!is_winner(&target_board));
}

#[test]
fn test_get_diagonals_left() {
    let board = vec![
        vec!['1', '2', '3', '4'],
        vec!['A', 'B', 'C', '4'],
        vec!['W', 'X', 'Y', 'Z'],
        vec!['9', '8', '7', '6'],
    ];

    let target = vec![
        vec!['9'],
        vec!['W', '8'],
        vec!['A', 'X', '7'],
        vec!['1', 'B', 'Y', '6'],
        vec!['2', 'C', 'Z'],
        vec!['3', '4'],
        vec!['4'],
    ];

    let res = get_diagonals_left(&board);

    assert_eq!(res, target)
}

#[test]
fn test_get_diagonals_right() {
    let board = vec![
        vec!['1', '2', '3', '4'],
        vec!['A', 'B', 'C', '4'],
        vec!['W', 'X', 'Y', 'Z'],
        vec!['9', '8', '7', '6'],
    ];

    let target = vec![
        vec!['1'],
        vec!['A', '2'],
        vec!['W', 'B', '3'],
        vec!['9', 'X', 'C', '4'],
        vec!['8', 'Y', '4'],
        vec!['7', 'Z'],
        vec!['6'],
    ];

    let res = get_diagonals_right(&board);

    assert_eq!(res, target)
}

#[test]
fn test_group_by() {
    let data = vec![1, 3, -2, -2, 1, 0, 1, 2];
    for (key, group) in &data.into_iter().group_by(|elt| *elt >= 0) {
        let g = group.collect::<Vec<i32>>();
        println!("{}, {:?}", key, g);
    }
}

#[test]
fn columns_are_the_transpose() {
    let board = vec![vec!['a', 'b', 'c'], vec!['d', 'e', 'f']];
    assert_eq!(
        get_columns(&board),
        vec![vec!['a', 'd'], vec!['b', 'e'], vec!['c', 'f']]
    );
}

#[test]
fn diagonals_of_a_wide_board() {
    let board = vec![vec!['a', 'b', 'c'], vec!['d', 'e', 'f']];
    assert_eq!(
        get_diagonals_left(&board),
        vec![vec!['d'], vec!['a', 'e'], vec!['b', 'f'], vec!['c']]
    );
    assert_eq!(
        get_diagonals_right(&board),
        vec![vec!['a'], vec!['d', 'b'], vec!['e', 'c'], vec!['f']]
    );
}

#[test]
fn diagonals_of_a_tall_board() {
    let board = vec![vec!['a', 'b'], vec!['c', 'd'], vec!['e', 'f']];
    assert_eq!(
        get_diagonals_left(&board),
        vec![vec!['e'], vec!['c', 'f'], vec!['a', 'd'], vec!['b']]
    );
    assert_eq!(
        get_diagonals_right(&board),
        vec![vec!['a'], vec!['c', 'b'], vec!['e', 'd'], vec!['f']]
    );
}

#[test]
fn lines_of_a_board_without_rows() {
    let board: Vec<Vec<char>> = Vec::new();
    assert_eq!(get_columns(&board), Vec::<Vec<char>>::new());
    assert_eq!(get_diagonals_left(&board), Vec::<Vec<char>>::new());
    assert_eq!(get_diagonals_right(&board), Vec::<Vec<char>>::new());
    assert!(!is_winner(&board));
}

#[test]
fn lines_of_a_single_cell() {
    let board = vec![vec!['X']];
    assert_eq!(get_columns(&board), vec![vec!['X']]);
    assert_eq!(get_diagonals_left(&board), vec![vec!['X']]);
    assert_eq!(get_diagonals_right(&board), vec![vec!['X']]);
    assert!(!is_winner(&board));
}

#[test]
fn empty_board_has_no_winner() {
    let board = board_of([
        "---------",
        "---------",
        "---------",
        "---------",
        "---------",
        "---------",
    ]);
    assert!(!is_winner(&board));
}

#[test]
fn five_in_a_column_wins() {
    let board = board_of([
        "-----O---",
        "-----O---",
        "-----O---",
        "-----O---",
        "-----O---",
        "---------",
    ]);
    assert!(is_winner(&board));
}

#[test]
fn five_in_a_row_wins() {
    let board = board_of([
        "---------",
        "---------",
        "----XXXXX",
        "---------",
        "---------",
        "---------",
    ]);
    assert!(is_winner(&board));
}

#[test]
fn four_do_not_win() {
    let row = board_of([
        "---------",
        "---------",
        "-----XXXX",
        "---------",
        "---------",
        "---------",
    ]);
    assert!(!is_winner(&row));
    let column = board_of([
        "---------",
        "---------",
        "O--------",
        "O--------",
        "O--------",
        "O--------",
    ]);
    assert!(!is_winner(&column));
    let diagonal = board_of([
        "---------",
        "---------",
        "---X-----",
        "----X----",
        "-----X---",
        "------X--",
    ]);
    assert!(!is_winner(&diagonal));
}

#[test]
fn rising_diagonal_wins() {
    let board = board_of([
        "---------",
        "-------X-",
        "------X--",
        "-----X---",
        "----X----",
        "---X-----",
    ]);
    assert!(is_winner(&board));
}

#[test]
fn falling_diagonal_wins() {
    let board = board_of([
        "---------",
        "-O-------",
        "--O------",
        "---O-----",
        "----O----",
        "-----O---",
    ]);
    assert!(is_winner(&board));
}

#[test]
fn diagonals_in_the_corners_win() {
    let top_right = board_of([
        "----X----",
        "-----X---",
        "------X--",
        "-------X-",
        "--------X",
        "---------",
    ]);
    assert!(is_winner(&top_right));
    let bottom_left = board_of([
        "---------",
        "----O----",
        "---O-----",
        "--O------",
        "-O-------",
        "O--------",
    ]);
    assert!(is_winner(&bottom_left));
}

#[test]
fn mixed_pieces_do_not_win() {
    let board = board_of([
        "---------",
        "---------",
        "---------",
        "---------",
        "XXOXX----",
        "OOXOOXOXO",
    ]);
    assert!(!is_winner(&board));
}

#[test]
fn five_empty_cells_do_not_win() {
    let board = board_of([
        "---------",
        "---------",
        "---------",
        "---------",
        "---------",
        "XOXOXOXOX",
    ]);
    assert!(!is_winner(&board));
}

#[test]
fn the_detector_takes_boards_of_any_size() {
    let tall: Vec<Vec<char>> = vec![
        vec!['-', 'A'],
        vec!['-', 'A'],
        vec!['-', 'A'],
        vec!['-', 'A'],
        vec!['-', 'A'],
        vec!['-', '-'],
        vec!['-', '-'],
    ];
    assert!(is_winner(&tall));
    let wide: Vec<Vec<char>> = vec!["----------BBBBB-".chars().collect()];
    assert!(is_winner(&wide));
    let small: Vec<Vec<char>> = vec![vec!['X', 'X'], vec!['X', 'X']];
    assert!(!is_winner(&small));
    let square: Vec<Vec<char>> = vec![
        "Z----".chars().collect(),
        "-Z---".chars().collect(),
        "--Z--".chars().collect(),
        "---Z-".chars().collect(),
        "----Z".chars().collect(),
    ];
    assert!(is_winner(&square));
}

#[test]
fn a_line_wins_on_a_run_of_five() {
    assert!(line_has_win(&"--XXXXX--".chars().collect()));
    assert!(line_has_win(&"OOOOO".chars().collect()));
    assert!(line_has_win(&"XOOOOOO".chars().collect()));
    assert!(!line_has_win(&"XXXX-X".chars().collect()));
    assert!(!line_has_win(&"XXXXOXXXX".chars().collect()));
    assert!(!line_has_win(&"---------".chars().collect()));
    assert!(!line_has_win(&"XXXX".chars().collect()));
    assert!(!line_has_win(&Vec::new()));
}

#[test]
fn a_group_wins_by_key_and_length() {
    assert!(has_long_group(&[('X', vec!['X'; 5])]));
    assert!(has_long_group(&[('-', vec!['-'; 2]), ('O', vec!['O'; 6])]));
    assert!(!has_long_group(&[('X', vec!['X'; 4])]));
    assert!(!has_long_group(&[('-', vec!['-'; 9])]));
    assert!(!has_long_group(&[]));
}

#[test]
fn any_line_of_a_family_can_win() {
    let lines: Vec<Vec<char>> = vec![
        "-----".chars().collect(),
        "XXXX-".chars().collect(),
        "OOOOO".chars().collect(),
    ];
    assert!(any_line_has_win(&lines));
    assert!(!any_line_has_win(&lines[..2]));
    assert!(!any_line_has_win(&[]));
}
