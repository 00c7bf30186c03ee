use deckgym::data_exporter::{ply_file_name, ExportRecorder};
use deckgym::state::{GameOutcome, State};

#[test]
fn ply_file_names_are_zero_padded() {
    assert_eq!(ply_file_name(0), "ply_0000.json");
    assert_eq!(ply_file_name(7), "ply_0007.json");
    assert_eq!(ply_file_name(123), "ply_0123.json");
    assert_eq!(ply_file_name(4567), "ply_4567.json");
    assert_eq!(ply_file_name(98765), "ply_98765.json");
}

#[test]
fn the_first_ply_records_the_starting_player() {
    let mut recorder = ExportRecorder::new().with_decks("a.txt".to_string(), "b.txt".to_string());
    recorder.on_game_start("game-1".to_string());
    assert_eq!(recorder.on_action(1), 0);
    assert_eq!(recorder.on_action(0), 1);
    assert_eq!(recorder.on_action(1), 2);
    assert_eq!(recorder.starting_player, Some(1));

    let mut state = State::new_empty();
    state.points = [3, 1];
    state.turn_count = 9;
    let result = recorder.on_game_end(&state, Some(GameOutcome::Win(0)));
    assert_eq!(result.winner, Some(0));
    assert_eq!(result.points, [3, 1]);
    assert_eq!(result.turns, 9);
    assert_eq!(result.starting_player, Some(1));
    assert_eq!(result.deck_a.as_deref(), Some("a.txt"));
    assert_eq!(result.deck_b.as_deref(), Some("b.txt"));
    assert_eq!(recorder.ply_counter, 0);
    assert_eq!(recorder.starting_player, None);
    assert!(recorder.current_game_id.is_none());
}

#[test]
fn ties_and_unfinished_games_have_no_winner() {
    let mut recorder = ExportRecorder::new();
    recorder.on_game_start("g".to_string());
    let state = State::new_empty();
    let tie = recorder.on_game_end(&state, Some(GameOutcome::Tie));
    assert_eq!(tie.winner, None);
    assert_eq!(tie.starting_player, None);
    assert_eq!(tie.deck_a, None);
    let unfinished = recorder.on_game_end(&state, None);
    assert_eq!(unfinished.winner, None);
}
