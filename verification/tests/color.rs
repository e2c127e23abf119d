use board_game_traits::Color;
use board_game_traits::GameResult;

const COLORS: [Color; 2] = [Color::White, Color::Black];
const RESULTS: [GameResult; 3] = [GameResult::WhiteWin, GameResult::BlackWin, GameResult::Draw];

#[test]
fn disc_is_zero_for_white_and_one_for_black() {
    assert_eq!(Color::White.disc(), 0);
    assert_eq!(Color::Black.disc(), 1);
}

#[test]
fn disc_indexes_a_table_of_two() {
    let mut table = [0u32; 2];
    for color in COLORS {
        table[color.disc()] += 1;
    }
    assert_eq!(table, [1, 1]);
}

#[test]
fn multiplier_is_one_for_white_and_minus_one_for_black() {
    assert_eq!(Color::White.multiplier(), 1);
    assert_eq!(Color::Black.multiplier(), -1);
}

#[test]
fn multiplier_is_one_minus_twice_disc() {
    for color in COLORS {
        assert_eq!(color.multiplier(), 1 - 2 * color.disc() as isize);
    }
}

#[test]
fn multiplier_turns_a_score_to_the_players_side() {
    let score_for_white: isize = 37;
    assert_eq!(score_for_white * Color::White.multiplier(), 37);
    assert_eq!(score_for_white * Color::Black.multiplier(), -37);
    for color in COLORS {
        assert_eq!((!color).multiplier(), -color.multiplier());
    }
}

#[test]
fn not_gives_the_other_color() {
    assert_eq!(!Color::White, Color::Black);
    assert_eq!(!Color::Black, Color::White);
}

#[test]
fn not_on_color_is_an_involution() {
    for color in COLORS {
        assert_eq!(!(!color), color);
        assert_ne!(!color, color);
    }
}

#[test]
fn color_to_string_gives_the_name() {
    assert_eq!(Color::White.to_string(), "White");
    assert_eq!(Color::Black.to_string(), "Black");
}

#[test]
fn color_is_copied_compared_and_printed_for_debugging() {
    let white = Color::White;
    let copy = white;
    assert_eq!(white, copy);
    assert_eq!(format!("{:?}", Color::Black), "Black");
    assert_eq!(format!("{:?}", GameResult::Draw), "Draw");
}

#[test]
fn not_exchanges_the_wins_and_keeps_a_draw() {
    assert_eq!(!GameResult::WhiteWin, GameResult::BlackWin);
    assert_eq!(!GameResult::BlackWin, GameResult::WhiteWin);
    assert_eq!(!GameResult::Draw, GameResult::Draw);
}

#[test]
fn not_on_result_is_an_involution() {
    for result in RESULTS {
        assert_eq!(!(!result), result);
    }
}

#[test]
fn win_by_gives_the_win_of_the_color() {
    assert_eq!(GameResult::win_by(Color::White), GameResult::WhiteWin);
    assert_eq!(GameResult::win_by(Color::Black), GameResult::BlackWin);
}

#[test]
fn win_by_is_never_a_draw() {
    for color in COLORS {
        assert_ne!(GameResult::win_by(color), GameResult::Draw);
    }
}

#[test]
fn negated_win_is_the_win_of_the_other_color() {
    for color in COLORS {
        assert_eq!(!GameResult::win_by(color), GameResult::win_by(!color));
    }
}
