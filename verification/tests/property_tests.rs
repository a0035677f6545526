use mastermind::BuildError;
use mastermind::Game;
use mastermind::GameBuilder;
use mastermind::GuessError;
use mastermind::Variant;
use mastermind::score;
use rand::prelude::thread_rng;
use rand::prelude::Rng;

#[test]
fn build_rejects_wrong_number_of_pegs() {
    let result = GameBuilder::new().pegs(&[1, 2, 3]).peg_count(2).build();
    assert_eq!(
        result.unwrap_err(),
        BuildError::PegLengthMismatch { pegs_len: 3, peg_count: 2 }
    );
}

#[test]
fn build_rejects_wrong_number_of_pegs_against_default_count() {
    let result = GameBuilder::new().pegs(&[1, 2, 3]).build();
    assert_eq!(
        result.unwrap_err(),
        BuildError::PegLengthMismatch { pegs_len: 3, peg_count: 4 }
    );
}

#[test]
fn unlimited_games_never_run_out_of_guesses() {
    let mut game = GameBuilder::new()
        .pegs(&[1, 2, 3, 4])
        .max_guesses(2)
        .unlimited_guesses(true)
        .build()
        .unwrap();
    for _ in 0..100 {
        assert!(game.guess(&[0, 0, 0, 0]).is_ok());
    }
    assert_eq!(game.guesses().len(), 100);
}

#[test]
fn history_stops_growing_at_the_limit() {
    let mut game = GameBuilder::new().pegs(&[1, 2, 3, 4]).max_guesses(2).build().unwrap();
    assert!(game.guess(&[0, 0, 0, 0]).is_ok());
    assert!(game.guess(&[1, 1, 1, 1]).is_ok());
    assert_eq!(game.guess(&[2, 2, 2, 2]), Err(GuessError::NoGuessesLeft));
    assert_eq!(game.guesses().len(), 2);
}

#[test]
fn wrong_guess_length_is_rejected() {
    let mut game = GameBuilder::new().pegs(&[1, 2, 3, 4]).build().unwrap();
    assert_eq!(game.guess(&[1, 2, 3]), Err(GuessError::WrongGuessLength));
    assert_eq!(game.guess(&[1, 2, 3, 4, 5]), Err(GuessError::WrongGuessLength));
    assert!(game.guesses().is_empty());
}

#[test]
fn hits_query_is_idempotent() {
    let mut game = GameBuilder::new().pegs(&[1, 1, 2, 2]).build().unwrap();
    game.guess(&[1, 2, 3, 1]).unwrap();
    let first = game.hits(0);
    assert_eq!(first, Some((1, 2)));
    assert_eq!(game.hits(0), first);
    assert_eq!(game.hits(0), first);
}

#[test]
fn hits_is_absent_for_unrecorded_indices() {
    let mut game = GameBuilder::new().pegs(&[1, 2, 3, 4]).build().unwrap();
    assert_eq!(game.hits(0), None);
    game.guess(&[1, 2, 3, 4]).unwrap();
    assert_eq!(game.hits(0), Some((4, 0)));
    assert_eq!(game.hits(1), None);
}

#[test]
fn hits_agrees_with_the_score_returned_by_guess() {
    let mut game = GameBuilder::new().pegs(&[1, 5, 6, 3]).build().unwrap();
    let scored = game.guess(&[3, 5, 1, 0]).unwrap();
    assert_eq!(game.hits(0), Some(scored));
}

#[test]
fn hits_and_near_hits_never_exceed_secret_length() {
    let mut rng = thread_rng();
    for _ in 0..200 {
        let secret: Vec<u8> = (0..4).map(|_| rng.gen::<u8>() % 6).collect();
        let guess: Vec<u8> = (0..4).map(|_| rng.gen::<u8>() % 6).collect();
        let (h, nh) = score(&secret, &guess);
        assert!(h as usize + nh as usize <= secret.len());
    }
}

#[test]
fn score_matches_the_literal_cases() {
    assert_eq!(score(&[1, 1, 2, 2], &[1, 1, 1, 1]), (2, 0));
    assert_eq!(score(&[1, 1, 2, 2], &[0, 2, 1, 4]), (0, 2));
    assert_eq!(score(&[1, 1, 2, 2], &[1, 2, 3, 1]), (1, 2));
    assert_eq!(score(&[1, 1, 2, 2], &[1, 1, 2, 2]), (4, 0));
    assert_eq!(score(&[1, 5, 6, 3], &[0, 0, 0, 0]), (0, 0));
    assert_eq!(score(&[1, 5, 6, 3], &[0, 0, 1, 0]), (0, 1));
    assert_eq!(score(&[1, 5, 6, 3], &[0, 5, 1, 0]), (1, 1));
    assert_eq!(score(&[1, 5, 6, 3], &[3, 5, 1, 0]), (1, 2));
}

#[test]
fn classic_variant_builds_a_default_game() {
    let builder = GameBuilder::from_variant(Variant::Classic).unwrap();
    let game = builder.build().unwrap();
    assert_eq!(game.pegs().len(), 4);
    assert_eq!(game.max_guesses(), Some(12));

    let game = Game::from_variant(Variant::Classic).unwrap();
    assert_eq!(game.pegs().len(), 4);
    assert!(game.pegs().iter().all(|peg| *peg < 6));
    assert_eq!(game.max_guesses(), Some(12));
}

#[test]
fn advanced_variant_is_unsupported() {
    assert_eq!(
        GameBuilder::from_variant(Variant::Advanced).unwrap_err(),
        BuildError::UnsupportedVariant
    );
    assert_eq!(
        Game::from_variant(Variant::Advanced).unwrap_err(),
        BuildError::UnsupportedVariant
    );
}

#[test]
fn builder_setters_overwrite_earlier_values() {
    let game = GameBuilder::new().peg_count(7).peg_count(2).build().unwrap();
    assert_eq!(game.pegs().len(), 2);
    let game = GameBuilder::new().max_guesses(3).max_guesses(9).build().unwrap();
    assert_eq!(game.max_guesses(), Some(9));
}

#[test]
fn guesses_records_history_in_order() {
    let mut game = GameBuilder::new().pegs(&[1, 2, 3, 4]).build().unwrap();
    game.guess(&[0, 0, 0, 0]).unwrap();
    game.guess(&[1, 1, 1, 1]).unwrap();
    let history = game.guesses();
    assert_eq!(history.len(), 2);
    assert_eq!(history[0], vec![0, 0, 0, 0]);
    assert_eq!(history[1], vec![1, 1, 1, 1]);
}
