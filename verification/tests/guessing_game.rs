use hello::guessing_game::{parse_number, Game, Verdict, SECRET_MAX, SECRET_MIN, TURN_LIMIT};

#[test]
fn parse_number_agrees_with_std() {
    let texts = [
        "", "0", "7", "42", "100", "007", "+5", "+", "++5", "-5", "-0", "5+", " 5", "5 ", "4 2",
        "4294967295", "4294967296", "42949672950", "99999999999999999999", "+4294967295", "1e3",
        "0x10", "\u{663}", "12a", "a12", "+0", "00000000000000000000000001",
    ];
    for text in texts {
        assert_eq!(parse_number(text), text.parse::<u32>().ok(), "{:?}", text);
    }
}

#[test]
fn the_secret_is_drawn_from_one_to_a_hundred() {
    assert_eq!((SECRET_MIN, SECRET_MAX), (1, 100));
    let mut seen_different = false;
    let first = Game::start();
    for _ in 0..200 {
        let game = Game::start();
        assert!(1 <= game.secret && game.secret <= 100);
        assert_eq!(game.turn, 1);
        seen_different = seen_different || game.secret != first.secret;
    }
    assert!(seen_different);
}

#[test]
fn misses_say_which_way_to_go() {
    let mut game = Game::new(50);
    assert_eq!(game, Game { secret: 50, turn: 1 });
    assert_eq!(game.guess("25\n"), Verdict::TooSmall);
    assert_eq!(game.turn, 2);
    assert_eq!(game.guess(" 75 \r\n"), Verdict::TooBig);
    assert_eq!(game.turn, 3);
    assert_eq!(game.guess("+50"), Verdict::Won);
    assert_eq!(game.turn, 3);
    assert_eq!(game.secret, 50);
}

#[test]
fn input_that_is_no_number_costs_no_turn() {
    let mut game = Game::new(7);
    for input in ["", "\n", "seven", "-7", "7.0", "4294967296", "7 7"] {
        assert_eq!(game.guess(input), Verdict::Invalid);
        assert_eq!(game.turn, 1);
    }
    assert_eq!(game.guess("7"), Verdict::Won);
}

#[test]
fn a_hit_at_the_tenth_turn_comes_too_late() {
    assert_eq!(TURN_LIMIT, 10);
    let mut game = Game::new(3);
    for turn in 1..=8u32 {
        assert_eq!(game.turn, turn);
        assert!(game.in_time());
        assert_eq!(game.guess("1"), Verdict::TooSmall);
    }
    assert_eq!(game.turn, 9);
    let mut ninth = game;
    assert_eq!(ninth.guess("3"), Verdict::Won);
    assert_eq!(game.guess("5"), Verdict::TooBig);
    assert_eq!(game.turn, 10);
    assert!(!game.in_time());
    assert_eq!(game.guess("3"), Verdict::WonLate);
}

#[test]
fn the_count_of_turns_stops_at_its_largest_value() {
    let mut game = Game { secret: 3, turn: u32::MAX - 1 };
    assert_eq!(game.guess("4"), Verdict::TooBig);
    assert_eq!(game.turn, u32::MAX);
    assert_eq!(game.guess("4"), Verdict::TooBig);
    assert_eq!(game.turn, u32::MAX);
    assert_eq!(game.guess("3"), Verdict::WonLate);
}

#[test]
fn verdicts_have_their_messages() {
    assert_eq!(Verdict::Invalid.message(), None);
    assert_eq!(Verdict::TooSmall.message(), Some("Too small!"));
    assert_eq!(Verdict::TooBig.message(), Some("Too big!"));
    assert_eq!(Verdict::Won.message(), Some("You win!"));
    assert_eq!(
        Verdict::WonLate.message(),
        Some("You guessed the number, but took too many turns :(")
    );
    assert!(Verdict::Won.is_final());
    assert!(Verdict::WonLate.is_final());
    assert!(!Verdict::Invalid.is_final());
    assert!(!Verdict::TooSmall.is_final());
    assert!(!Verdict::TooBig.is_final());
}
