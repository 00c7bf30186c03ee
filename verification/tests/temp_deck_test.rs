use deckgym::database::{get_card_by_enum, CardId};
use deckgym::models::{Card, EnergyType, TrainerCard, TrainerType};
use deckgym::temp_deck::{
    calculate_energy_types, deck_line_card, dedupe_staples_by_name, find_card_by_name,
    find_card_id, find_highest_evolution, find_highest_fossil_evolution, find_stage1_evolution,
    format_card_id, format_card_line, generate_evolution_line_deck, generate_fossil_deck,
    generate_temp_deck, generate_trainer_deck, get_evolution_line, get_valid_fallback_energy,
};

#[test]
fn find_card_id_reads_the_catalogue() {
    assert_eq!(find_card_id("A1 055"), Some(CardId::A1055Blastoise));
    assert_eq!(find_card_id("A2 147"), Some(CardId::A2147GiantCape));
    assert_eq!(find_card_id("A1 55"), None);
    assert_eq!(find_card_id("Z9 999"), None);
}

#[test]
fn format_card_id_drops_leading_zeros() {
    assert_eq!(format_card_id("A1 001"), "A1 1");
    assert_eq!(format_card_id("A1 014"), "A1 14");
    assert_eq!(format_card_id("P-A 007"), "P-A 7");
    assert_eq!(format_card_id("  A1   001 "), "A1 1");
    assert_eq!(format_card_id("A1 x"), "A1 0");
    assert_eq!(format_card_id("single"), "single");
    assert_eq!(format_card_id("a b c"), "a b c");
}

#[test]
fn card_lines_and_fallback_energy() {
    let blastoise = get_card_by_enum(CardId::A1055Blastoise);
    assert_eq!(format_card_line(&blastoise, 2), "2 Blastoise A1 55");
    assert_eq!(get_valid_fallback_energy(EnergyType::Colorless), EnergyType::Water);
    assert_eq!(get_valid_fallback_energy(EnergyType::Dragon), EnergyType::Water);
    assert_eq!(get_valid_fallback_energy(EnergyType::Fire), EnergyType::Fire);
}

#[test]
fn energy_types_come_from_the_attack_costs() {
    let bulbasaur = get_card_by_enum(CardId::A1001Bulbasaur);
    let blastoise = get_card_by_enum(CardId::A1055Blastoise);
    let snorlax = get_card_by_enum(CardId::A1211Snorlax);
    assert_eq!(
        calculate_energy_types(&vec![&blastoise, &bulbasaur], EnergyType::Fire),
        "Grass, Water"
    );
    assert_eq!(calculate_energy_types(&vec![&snorlax], EnergyType::Fire), "Fire");
    assert_eq!(calculate_energy_types(&vec![], EnergyType::Metal), "Metal");
}

#[test]
fn evolution_line_lookups() {
    let bulbasaur = get_card_by_enum(CardId::A1001Bulbasaur);
    let (basic, stage1, stage2) = get_evolution_line(&bulbasaur);
    assert_eq!(basic.unwrap().get_name(), "Bulbasaur");
    assert!(stage1.is_none());
    assert!(stage2.is_none());
    let serperior = get_card_by_enum(CardId::A1a006Serperior);
    let (basic, stage1, stage2) = get_evolution_line(&serperior);
    assert!(basic.is_none());
    assert!(stage1.is_none());
    assert_eq!(stage2.unwrap().get_name(), "Serperior");
    assert!(find_stage1_evolution("Bulbasaur").is_none());
    assert_eq!(find_card_by_name("Snorlax").unwrap().get_id(), "A1 211");
    assert_eq!(find_card_by_name("Pikachu").unwrap().get_id(), "A1 094");
    assert!(find_card_by_name("Charmander").is_none());
    assert_eq!(find_highest_evolution(&bulbasaur).unwrap().get_name(), "Bulbasaur");
    assert!(find_highest_evolution(&get_card_by_enum(CardId::A2147GiantCape)).is_none());
    assert!(find_highest_fossil_evolution("Helix Fossil").is_none());
}

#[test]
fn evolution_line_deck_of_a_basic() {
    let bulbasaur = get_card_by_enum(CardId::A1001Bulbasaur);
    let deck = generate_evolution_line_deck(&vec![Some(bulbasaur), None, None], EnergyType::Grass);
    assert_eq!(
        deck,
        "Energy: Grass\n2 Bulbasaur A1 1\n2 Giovanni A1 223\n2 Poké Ball A2b 111\n2 Professor's Research A4b 373\n2 Copycat B1 270\n2 Giant Cape A2 147\n2 Sabrina A1 225\n2 Cyrus A2 150\n2 Potion P-A 1\n2 X Speed P-A 2\n"
    );
}

#[test]
fn evolution_line_without_a_basic_gets_meowth() {
    let blastoise = get_card_by_enum(CardId::A1055Blastoise);
    let deck = generate_evolution_line_deck(&vec![None, None, Some(blastoise)], EnergyType::Water);
    assert_eq!(
        deck,
        "Energy: Water\n2 Blastoise A1 55\n2 Meowth A1 196\n2 Giovanni A1 223\n2 Poké Ball A2b 111\n2 Professor's Research A4b 373\n2 Copycat B1 270\n2 Giant Cape A2 147\n2 Sabrina A1 225\n2 Cyrus A2 150\n2 Potion P-A 1\n"
    );
}

#[test]
fn temp_decks_for_pokemon_and_trainers() {
    let snorlax = get_card_by_enum(CardId::A1211Snorlax);
    let deck = generate_temp_deck(&snorlax);
    assert!(deck.starts_with("Energy: Water\n2 Snorlax A1 211\n2 Giovanni A1 223\n"));
    assert_eq!(deck.lines().count(), 11);

    let cape = get_card_by_enum(CardId::A2147GiantCape);
    assert_eq!(
        generate_temp_deck(&cape),
        "Energy: Lightning\n2 Tapu Koko ex A3a 19\n2 Giovanni A1 223\n2 Sabrina A1 225\n2 Cyrus A2 150\n2 Poké Ball A2b 111\n2 Professor's Research A4b 373\n2 Copycat B1 270\n2 Potion P-A 1\n2 X Speed P-A 2\n2 Giant Cape A2 147\n"
    );

    let plaza = get_card_by_enum(CardId::B2155PeculiarPlaza);
    let stadium = generate_trainer_deck(&plaza, &TrainerType::Stadium);
    assert!(stadium.ends_with("2 Potion P-A 1\n2 Peculiar Plaza B2 155\n"));
}

#[test]
fn fossil_without_evolutions_reports_an_error() {
    let fossil = Card::Trainer(TrainerCard {
        id: "A1 216".to_string(),
        name: "Helix Fossil".to_string(),
        effect: "Play this card as if it were a 40-HP Basic [C] Pokémon.".to_string(),
        trainer_card_type: TrainerType::Fossil,
    });
    assert_eq!(
        generate_fossil_deck(&fossil),
        "Error: No Pokemon found that evolves from 'Helix Fossil' fossil"
    );
}

#[test]
fn deck_lines_name_catalogued_cards() {
    assert_eq!(
        deck_line_card("2 Blastoise A1 55"),
        Some(("A1 055".to_string(), "Blastoise".to_string()))
    );
    assert_eq!(deck_line_card("Energy: Water"), None);
    assert_eq!(
        deck_line_card("2 Potion P-A 1"),
        Some(("P-A 001".to_string(), "Potion".to_string()))
    );
    assert_eq!(deck_line_card("2 Poké Ball A2b 111"), None);
    assert_eq!(deck_line_card("2 Blastoise"), None);
    assert_eq!(deck_line_card("2 Blastoise A1 x"), None);
}

#[test]
fn dedupe_keeps_decks_without_collisions() {
    let cape = get_card_by_enum(CardId::A2147GiantCape);
    let deck = "Energy: Grass\r\n2 Giant Cape A2 147\n2 Giovanni A1 223".to_string();
    assert_eq!(
        dedupe_staples_by_name(deck, &cape),
        "Energy: Grass\n2 Giant Cape A2 147\n2 Giovanni A1 223\n"
    );
    let reprint = Card::Trainer(TrainerCard {
        id: "X1 001".to_string(),
        name: "Giant Cape".to_string(),
        effect: "The Pokémon this card is attached to gets +20 HP.".to_string(),
        trainer_card_type: TrainerType::Tool,
    });
    let deck = "2 Giant Cape A2 147\n\n".to_string();
    assert_eq!(dedupe_staples_by_name(deck, &reprint), "2 Potion P-A 1\n\n");
}
