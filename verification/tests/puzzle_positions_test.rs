use deckgym::actions::SimpleAction;
use deckgym::database::{get_card_by_enum, CardId};
use deckgym::models::{Card, EnergyType};
use deckgym::puzzles::all_puzzles;
use deckgym::puzzles::conditions::evolve_out_of_paralysis_to_attack;
use deckgym::puzzles::knockouts::take_the_available_knockout;
use deckgym::puzzles::opponent_model::{
    heal_the_bench_attacker_out_of_cyrus_range, promote_the_attacker_after_the_knockout,
};
use std::collections::HashSet;

fn play_of(id: CardId) -> SimpleAction {
    match get_card_by_enum(id) {
        Card::Trainer(t) => SimpleAction::Play { trainer_card: t },
        Card::Pokemon(_) => panic!("not a Trainer"),
    }
}

#[test]
fn there_are_twenty_seven_distinct_puzzles() {
    let puzzles = all_puzzles();
    assert_eq!(puzzles.len(), 27);
    let names: HashSet<&str> = puzzles.iter().map(|p| p.name).collect();
    assert_eq!(names.len(), 27);
    for p in &puzzles {
        assert!(!p.acceptable.is_empty(), "{} accepts nothing", p.name);
        assert_eq!(p.game.current_player, 0);
        assert_eq!(p.game.turn_count, 5);
        assert_eq!(p.game.decks[0].cards.len(), 20);
        assert_eq!(p.game.decks[1].cards.len(), 20);
    }
    assert_eq!(puzzles[0].name, "take_the_available_knockout");
    assert_eq!(puzzles[26].name, "promote_the_attacker_after_the_knockout");
}

#[test]
fn the_cyrus_puzzle_board() {
    let p = heal_the_bench_attacker_out_of_cyrus_range();
    assert_eq!(p.name, "heal_the_bench_attacker_out_of_cyrus_range");
    assert_eq!(p.game.points, [0, 1]);
    let bench = p.game.in_play_pokemon[0][1].as_ref().unwrap();
    assert_eq!(bench.get_name(), "Mewtwo ex");
    assert_eq!(bench.get_remaining_hp(), 130);
    assert_eq!(bench.attached_energy, vec![EnergyType::Psychic; 4]);
    assert_eq!(p.game.in_play_pokemon[0][0].as_ref().unwrap().get_name(), "Chansey");
    assert!(p.game.in_play_pokemon[0][2].is_none());
    assert_eq!(p.game.hands[0][0].get_name(), "Potion");
    assert_eq!(p.game.hands[1][0].get_name(), "Cyrus");
    assert_eq!(p.game.energy_zone[0].current, None);
    assert_eq!(p.game.energy_zone[0].next, Some(EnergyType::Psychic));
    assert_eq!(p.expectation(), "Play(Potion)");
    assert!(p.is_acceptable(&play_of(CardId::PA001Potion)));
    assert!(!p.is_acceptable(&play_of(CardId::A2150Cyrus)));
}

#[test]
fn the_first_knockout_puzzle() {
    let p = take_the_available_knockout();
    assert_eq!(p.expectation(), "Attack(Jab)");
    let active = p.game.in_play_pokemon[0][0].as_ref().unwrap();
    assert_eq!(active.get_name(), "Hitmonchan");
    assert_eq!(active.get_attacks()[0].title, "Jab");
    assert_eq!(active.get_attacks()[0].fixed_damage, 30);
    let target = p.game.in_play_pokemon[1][0].as_ref().unwrap();
    assert_eq!(target.get_remaining_hp(), 30);
    assert!(p.is_acceptable(&SimpleAction::Attack(active.get_attacks()[0].clone())));
}

#[test]
fn conditions_and_promotions() {
    let p = evolve_out_of_paralysis_to_attack();
    let active = p.game.in_play_pokemon[0][0].as_ref().unwrap();
    assert!(active.is_paralyzed());
    assert_eq!(active.paralyzed_on_turn(), Some(5));
    assert_eq!(p.expectation(), "Evolve(Wartortle at 0)");

    let p = promote_the_attacker_after_the_knockout();
    assert!(p.game.in_play_pokemon[0][0].is_none());
    assert_eq!(p.game.in_play_pokemon[0][2].as_ref().unwrap().get_name(), "Hitmonchan");
    assert_eq!(p.game.move_generation_stack.len(), 1);
    assert_eq!(p.game.move_generation_stack[0].1.len(), 3);
    assert!(p.is_acceptable(&SimpleAction::Activate { player: 0, in_play_idx: 2 }));
    assert!(!p.is_acceptable(&SimpleAction::Activate { player: 0, in_play_idx: 1 }));
}
