use deckgym::actions::{Action, SimpleAction};
use deckgym::database::{get_card_by_enum, CardId};
use deckgym::models::{Attack, Card, EnergyType};
use deckgym::puzzles::support::{
    activate, anything_but_evolving_into, attach_to, attack, evolve_at, place_on_bench, play,
    retreat_to, spent_zone, zone,
};
use deckgym::puzzles::{acceptance, pass_count, puzzle_deck, run_puzzle, Puzzle, PuzzleOutcome};
use deckgym::state::State;

fn attack_action(title: &str) -> SimpleAction {
    SimpleAction::Attack(Attack {
        title: title.to_string(),
        fixed_damage: 30,
        effect: None,
        energy_required: vec![EnergyType::Colorless],
    })
}

fn puzzle() -> Puzzle {
    Puzzle {
        name: "take_the_knockout",
        why: "Vine Whip knocks out the Active",
        game: State::new_empty(),
        acceptable: vec![attack("Vine Whip"), retreat_to(2)],
    }
}

#[test]
fn accepted_actions_match_their_kind() {
    let p = puzzle();
    assert!(p.is_acceptable(&attack_action("Vine Whip")));
    assert!(!p.is_acceptable(&attack_action("Tackle")));
    assert!(p.is_acceptable(&SimpleAction::Retreat(2)));
    assert!(!p.is_acceptable(&SimpleAction::Retreat(1)));
    assert!(!p.is_acceptable(&SimpleAction::EndTurn));
}

#[test]
fn expectation_joins_the_descriptions() {
    assert_eq!(puzzle().expectation(), "Attack(Vine Whip) or Retreat(2)");
    let single = Puzzle {
        name: "n",
        why: "w",
        game: State::new_empty(),
        acceptable: vec![attach_to(0)],
    };
    assert_eq!(single.expectation(), "Attach(->0)");
}

#[test]
fn descriptions_of_each_kind() {
    assert_eq!(play("Potion").describe(), "Play(Potion)");
    assert_eq!(activate(3).describe(), "Activate(3)");
    assert_eq!(
        evolve_at(1, CardId::A1055Blastoise).describe(),
        "Evolve(Blastoise at 1)"
    );
    assert_eq!(
        place_on_bench(CardId::A1001Bulbasaur).describe(),
        "Place(Bulbasaur on the Bench)"
    );
    assert_eq!(
        anything_but_evolving_into(CardId::A1a006Serperior).describe(),
        "anything except Evolve(Serperior)"
    );
    assert_eq!(retreat_to(12).describe(), "Retreat(12)");
}

#[test]
fn matches_reads_the_action_fields() {
    let attach = SimpleAction::Attach {
        attachments: vec![(1, EnergyType::Grass, 2)],
        is_turn_energy: true,
    };
    assert!(attach_to(2).matches(&attach));
    assert!(!attach_to(0).matches(&attach));
    let evolve = SimpleAction::Evolve {
        evolution: get_card_by_enum(CardId::A1055Blastoise),
        in_play_idx: 1,
        from_deck: false,
    };
    assert!(evolve_at(1, CardId::A1055Blastoise).matches(&evolve));
    assert!(!evolve_at(0, CardId::A1055Blastoise).matches(&evolve));
    assert!(!anything_but_evolving_into(CardId::A1055Blastoise).matches(&evolve));
    assert!(anything_but_evolving_into(CardId::A1a006Serperior).matches(&evolve));
    assert!(anything_but_evolving_into(CardId::A1055Blastoise).matches(&SimpleAction::EndTurn));
    let place = SimpleAction::Place(get_card_by_enum(CardId::A1001Bulbasaur), 0);
    assert!(!place_on_bench(CardId::A1001Bulbasaur).matches(&place));
    let place = SimpleAction::Place(get_card_by_enum(CardId::A1001Bulbasaur), 3);
    assert!(place_on_bench(CardId::A1001Bulbasaur).matches(&place));
    let promote = SimpleAction::Activate { player: 0, in_play_idx: 2 };
    assert!(activate(2).matches(&promote));
    let potion = match get_card_by_enum(CardId::A2147GiantCape) {
        Card::Trainer(t) => t,
        Card::Pokemon(_) => unreachable!(),
    };
    assert!(play("Giant Cape").matches(&SimpleAction::Play { trainer_card: potion }));
}

#[test]
fn run_puzzle_takes_a_strict_majority_and_tallies_the_labels() {
    let p = puzzle();
    let choices = vec![
        SimpleAction::EndTurn,
        attack_action("Vine Whip"),
        SimpleAction::EndTurn,
        SimpleAction::Retreat(2),
    ];
    let labels: Vec<String> = vec![
        "EndTurn".to_string(),
        "Attack(Vine Whip)".to_string(),
        "EndTurn".to_string(),
        "Retreat(2)".to_string(),
    ];
    let outcome = run_puzzle(&p, &choices, &labels);
    assert_eq!(outcome.votes, 2);
    assert_eq!(outcome.trials, 4);
    assert!(!outcome.passed, "two of four is not a strict majority");
    assert_eq!(
        outcome.chosen,
        vec![
            "EndTurn x2".to_string(),
            "Attack(Vine Whip) x1".to_string(),
            "Retreat(2) x1".to_string()
        ]
    );
    assert_eq!(outcome.expected, "Attack(Vine Whip) or Retreat(2)");
    assert_eq!(outcome.name, "take_the_knockout");

    let won = run_puzzle(
        &p,
        &vec![attack_action("Vine Whip"), SimpleAction::EndTurn, SimpleAction::Retreat(2)],
        &vec!["a".to_string(), "b".to_string(), "c".to_string()],
    );
    assert!(won.passed);
    assert_eq!(won.votes, 2);
}

#[test]
fn pass_count_and_acceptance() {
    let p = puzzle();
    let outcomes: Vec<PuzzleOutcome> = vec![
        run_puzzle(&p, &vec![attack_action("Vine Whip")], &vec!["a".to_string()]),
        run_puzzle(&p, &vec![SimpleAction::EndTurn], &vec!["b".to_string()]),
    ];
    assert_eq!(pass_count(&outcomes), 1);
    let legal = vec![
        Action { actor: 0, action: attack_action("Vine Whip"), is_stack: false },
        Action { actor: 0, action: SimpleAction::EndTurn, is_stack: false },
        Action { actor: 0, action: SimpleAction::Retreat(2), is_stack: false },
    ];
    assert_eq!(acceptance(&p, &legal), (2, 3));
}

#[test]
fn puzzle_decks_repeat_their_cards_to_twenty() {
    let deck = puzzle_deck(
        &vec![CardId::A1001Bulbasaur, CardId::A1211Snorlax, CardId::A2147GiantCape],
        &vec![EnergyType::Grass],
    );
    assert_eq!(deck.cards.len(), 20);
    assert_eq!(deck.cards[0].get_name(), "Bulbasaur");
    assert_eq!(deck.cards[1].get_name(), "Snorlax");
    assert_eq!(deck.cards[2].get_name(), "Giant Cape");
    assert_eq!(deck.cards[3].get_name(), "Bulbasaur");
    assert_eq!(deck.cards[19].get_name(), "Snorlax");
    assert_eq!(deck.energy_types, vec![EnergyType::Grass]);
}

#[test]
fn energy_zones() {
    let z = zone(EnergyType::Fire);
    assert_eq!(z.current, Some(EnergyType::Fire));
    assert_eq!(z.next, Some(EnergyType::Fire));
    let s = spent_zone(EnergyType::Fire);
    assert_eq!(s.current, None);
    assert_eq!(s.next, Some(EnergyType::Fire));
}
