use word_guess::game::{generate_secret_word, handle_user_input, Game, GuessOutcome};

#[test]
fn new_game_starts_fresh() {
    let game = Game::new();
    assert_eq!(game.lives_remaining(), 6);
    assert!(!game.is_completed());
    assert!(game.guessed_letters().is_empty());
    let secret: String = game.secret_word().iter().collect();
    assert_eq!(secret, "hello");
}

#[test]
fn generated_word_is_hello() {
    let word: String = generate_secret_word().iter().collect();
    assert_eq!(word, "hello");
}

#[test]
fn check_guess_distinguishes_three_cases() {
    let mut game = Game::new();
    assert_eq!(game.check_guess(&'h'), Some(true));
    assert_eq!(game.check_guess(&'z'), Some(false));
    assert_eq!(game.evaluate_and_apply_guess('h'), GuessOutcome::Correct);
    assert_eq!(game.check_guess(&'h'), None);
}

#[test]
fn repeated_guess_is_noop() {
    let mut game = Game::new();
    assert_eq!(game.evaluate_and_apply_guess('e'), GuessOutcome::Correct);
    let lives = game.lives_remaining();
    let guessed = game.guessed_letters().clone();
    assert_eq!(game.evaluate_and_apply_guess('e'), GuessOutcome::AlreadyGuessed);
    assert_eq!(game.lives_remaining(), lives);
    assert_eq!(game.guessed_letters(), &guessed);
    assert_eq!(game.evaluate_and_apply_guess('z'), GuessOutcome::Incorrect);
    assert_eq!(game.lives_remaining(), 5);
    assert_eq!(game.evaluate_and_apply_guess('z'), GuessOutcome::AlreadyGuessed);
    assert_eq!(game.lives_remaining(), 5);
}

#[test]
fn guessed_letters_only_grow() {
    let mut game = Game::new();
    let mut seen: Vec<char> = Vec::new();
    for c in ['h', 'x', 'e', 'x', 'l', 'z'] {
        game.evaluate_and_apply_guess(c);
        for &s in &seen {
            assert!(game.guessed_letters().contains(&s));
        }
        if !seen.contains(&c) {
            seen.push(c);
        }
    }
}

#[test]
fn win_in_any_order() {
    for order in [['h', 'e', 'l', 'o'], ['o', 'l', 'e', 'h'], ['l', 'h', 'o', 'e']] {
        let mut game = Game::new();
        for (k, &c) in order.iter().enumerate() {
            let outcome = game.evaluate_and_apply_guess(c);
            if k == 3 {
                assert_eq!(outcome, GuessOutcome::CorrectAndWon);
            } else {
                assert_eq!(outcome, GuessOutcome::Correct);
                assert!(!game.is_completed());
            }
        }
        assert!(game.is_completed());
        assert_eq!(game.lives_remaining(), 6);
        let masked: String = game.masked_word().iter().collect();
        assert_eq!(masked, "hello");
    }
}

#[test]
fn six_wrong_guesses_lose() {
    let mut game = Game::new();
    let wrong = ['x', 'z', 'q', 'w', 'v', 'j'];
    for (k, &c) in wrong.iter().enumerate() {
        let outcome = game.evaluate_and_apply_guess(c);
        if k == 5 {
            assert_eq!(outcome, GuessOutcome::IncorrectAndLost);
        } else {
            assert_eq!(outcome, GuessOutcome::Incorrect);
            assert!(!game.is_completed());
        }
        assert_eq!(game.lives_remaining(), 5 - k as i32);
    }
    assert_eq!(game.lives_remaining(), 0);
    assert!(game.is_completed());
}

#[test]
fn masked_rendering_shows_guessed_positions() {
    let mut game = Game::new();
    game.evaluate_and_apply_guess('h');
    game.evaluate_and_apply_guess('l');
    let masked: String = game.masked_word().iter().collect();
    assert_eq!(masked, "h_ll_");
}

#[test]
fn masked_rendering_of_fresh_game_hides_everything() {
    let game = Game::new();
    let masked: String = game.masked_word().iter().collect();
    assert_eq!(masked, "_____");
}

#[test]
fn completion_flips_only_on_last_letter() {
    let mut game = Game::new();
    game.evaluate_and_apply_guess('h');
    game.evaluate_and_apply_guess('e');
    game.evaluate_and_apply_guess('l');
    assert!(!game.is_completed());
    assert_eq!(game.evaluate_and_apply_guess('o'), GuessOutcome::CorrectAndWon);
    assert!(game.is_completed());
}

#[test]
fn absent_input_changes_nothing() {
    let mut game = Game::new();
    game.evaluate_and_apply_guess('h');
    game.evaluate_and_apply_guess('z');
    let lives = game.lives_remaining();
    let guessed = game.guessed_letters().clone();
    let masked = game.masked_word();
    assert_eq!(handle_user_input(&mut game, None), None);
    assert_eq!(game.lives_remaining(), lives);
    assert_eq!(game.guessed_letters(), &guessed);
    assert_eq!(game.masked_word(), masked);
    assert!(!game.is_completed());
}

#[test]
fn present_input_is_applied() {
    let mut game = Game::new();
    assert_eq!(handle_user_input(&mut game, Some('h')), Some(GuessOutcome::Correct));
    assert_eq!(handle_user_input(&mut game, Some('h')), Some(GuessOutcome::AlreadyGuessed));
    assert_eq!(handle_user_input(&mut game, Some('z')), Some(GuessOutcome::Incorrect));
    assert_eq!(game.lives_remaining(), 5);
}

#[test]
fn custom_word_with_repeated_letter() {
    let mut game = Game::from_secret_word(vec!['a', 'b', 'a']);
    assert_eq!(game.evaluate_and_apply_guess('a'), GuessOutcome::Correct);
    let masked: String = game.masked_word().iter().collect();
    assert_eq!(masked, "a_a");
    assert_eq!(game.evaluate_and_apply_guess('b'), GuessOutcome::CorrectAndWon);
    assert!(game.is_completed());
    assert_eq!(game.lives_remaining(), 6);
}
