use deckgym::simulate::{deck_file_name, games_for_deck, log_level};

#[test]
fn games_are_shared_out_with_the_remainder_first() {
    let split: Vec<u32> = (0..3).map(|i| games_for_deck(10, 3, i)).collect();
    assert_eq!(split, vec![4, 3, 3]);
    assert_eq!(split.iter().sum::<u32>(), 10);
    let few: Vec<u32> = (0..4).map(|i| games_for_deck(2, 4, i)).collect();
    assert_eq!(few, vec![1, 1, 0, 0]);
    assert_eq!(games_for_deck(u32::MAX, 1, 0), u32::MAX);
}

#[test]
fn deck_file_names_drop_the_folder() {
    assert_eq!(deck_file_name("example_decks/fire.txt"), "fire.txt");
    assert_eq!(deck_file_name("a/b/c.txt"), "c.txt");
    assert_eq!(deck_file_name("plain.txt"), "plain.txt");
    assert_eq!(deck_file_name("folder/"), "");
}

#[test]
fn verbosity_picks_the_log_level() {
    assert_eq!(log_level(0), "error");
    assert_eq!(log_level(1), "warn");
    assert_eq!(log_level(2), "info");
    assert_eq!(log_level(3), "debug");
    assert_eq!(log_level(4), "trace");
    assert_eq!(log_level(9), "error");
}
