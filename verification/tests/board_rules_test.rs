use deckgym::actions::SimpleAction;
use deckgym::attack_helpers::{
    collect_in_play_indices_by_type, energy_blender_choices, total_attached_energy,
};
use deckgym::card_logic::{
    acerola_targets, distinct_attached_energy_types, fishing_net_candidates,
    water_pokemon_in_discard,
};
use deckgym::database::{get_card_by_enum, CardId};
use deckgym::mechanic::CopyAttackSource;
use deckgym::models::EnergyType;
use deckgym::played_card::PlayedCard;
use deckgym::stadiums::{
    can_use_arcade, can_use_area_zero, can_use_mesagoza, get_arena_of_antiquity_damage_bonus,
    get_peculiar_plaza_retreat_reduction, get_training_area_damage_bonus, has_stadium,
    is_arcade_active, is_bounded_field_active, is_starting_plains_active,
};
use deckgym::state::{has_serperior_jungle_totem, State};

fn with_stadium(id: CardId) -> State {
    let mut state = State::new_empty();
    state.active_stadium = Some(get_card_by_enum(id));
    state
}

#[test]
fn test_has_serperior_jungle_totem_with_serperior() {
    let mut state = State::new_empty();
    state.in_play_pokemon[0][1] = Some(PlayedCard::from_id(CardId::A1a006Serperior));
    assert!(
        has_serperior_jungle_totem(&state, 0),
        "Should detect Serperior's Jungle Totem ability when Serperior is in play"
    );
}

#[test]
fn test_has_serperior_jungle_totem_without_serperior() {
    let mut state = State::new_empty();
    state.in_play_pokemon[0][0] = Some(PlayedCard::from_id(CardId::A1001Bulbasaur));
    assert!(
        !has_serperior_jungle_totem(&state, 0),
        "Should not detect Jungle Totem ability when Serperior is not in play"
    );
}

#[test]
fn test_has_serperior_jungle_totem_wrong_player() {
    let mut state = State::new_empty();
    state.in_play_pokemon[0][1] = Some(PlayedCard::from_id(CardId::A1a006Serperior));
    assert!(
        !has_serperior_jungle_totem(&state, 1),
        "Should not detect Jungle Totem ability for opponent player"
    );
}

#[test]
fn stadium_checks_read_the_stadium_in_play() {
    let state = State::new_empty();
    assert!(!has_stadium(&state, CardId::B3155BoundedField));
    assert!(!is_bounded_field_active(&state));
    let state = with_stadium(CardId::B3155BoundedField);
    assert!(is_bounded_field_active(&state));
    assert!(!is_starting_plains_active(&state));
    assert!(has_stadium(&state, CardId::B3155BoundedField));
}

#[test]
fn stadium_bonuses() {
    let plaza = with_stadium(CardId::B2155PeculiarPlaza);
    assert_eq!(get_peculiar_plaza_retreat_reduction(&plaza, true), 2);
    assert_eq!(get_peculiar_plaza_retreat_reduction(&plaza, false), 0);
    let area = with_stadium(CardId::B2153TrainingArea);
    assert_eq!(get_training_area_damage_bonus(&area, 1), 10);
    assert_eq!(get_training_area_damage_bonus(&area, 2), 0);
    assert_eq!(get_training_area_damage_bonus(&plaza, 1), 0);
    let arena = with_stadium(CardId::B3154ArenaofAntiquity);
    assert_eq!(get_arena_of_antiquity_damage_bonus(&arena, true, true), 20);
    assert_eq!(get_arena_of_antiquity_damage_bonus(&arena, true, false), 0);
}

#[test]
fn once_per_turn_stadiums() {
    let mut arcade = with_stadium(CardId::B4a072Arcade);
    assert!(is_arcade_active(&arcade));
    assert!(can_use_arcade(&arcade, 0));
    arcade.has_used_stadium[0] = true;
    assert!(!can_use_arcade(&arcade, 0));
    assert!(can_use_arcade(&arcade, 1));

    let mut zone = with_stadium(CardId::B3a074AreaZero);
    assert!(!can_use_area_zero(&zone, 0), "no Basic in hand");
    zone.hands[0].push(get_card_by_enum(CardId::A1001Bulbasaur));
    assert!(can_use_area_zero(&zone, 0));

    let mut mesagoza = with_stadium(CardId::B2a093Mesagoza);
    assert!(!can_use_mesagoza(&mesagoza, 0), "no Pokémon in the deck");
    mesagoza.decks[0].cards.push(get_card_by_enum(CardId::A1211Snorlax));
    assert!(can_use_mesagoza(&mesagoza, 0));
}

#[test]
fn card_logic_helpers() {
    let mut state = State::new_empty();
    state.set_board(
        vec![
            PlayedCard::from_id(CardId::A1001Bulbasaur)
                .with_energy(vec![EnergyType::Grass, EnergyType::Water]),
            PlayedCard::from_id(CardId::A1055Blastoise).with_energy(vec![EnergyType::Water]),
        ],
        vec![],
    );
    assert_eq!(distinct_attached_energy_types(&state, 0), 2);
    assert_eq!(distinct_attached_energy_types(&state, 1), 0);
    assert_eq!(total_attached_energy(&state, 0), 3);
    assert_eq!(collect_in_play_indices_by_type(&state, 0, EnergyType::Water), vec![1]);
    assert_eq!(collect_in_play_indices_by_type(&state, 0, EnergyType::Grass), vec![0]);
    assert!(acerola_targets(&state, 0).is_empty());

    state.discard_piles[0] = vec![
        get_card_by_enum(CardId::A1055Blastoise),
        get_card_by_enum(CardId::A1001Bulbasaur),
        get_card_by_enum(CardId::A2147GiantCape),
    ];
    let water = water_pokemon_in_discard(&state, 0);
    assert_eq!(water.len(), 1);
    assert_eq!(water[0].get_name(), "Blastoise");
    assert!(fishing_net_candidates(&state, 0).is_empty(), "Blastoise is not a Basic");

    let moves = energy_blender_choices(&state, 0, 2);
    assert_eq!(moves.len(), 4, "three single-Energy moves and the stop");
    assert!(matches!(moves[3], SimpleAction::Noop));
    assert!(matches!(
        moves[0],
        SimpleAction::MoveEnergyAndReoffer {
            from_in_play_idx: 0,
            to_in_play_idx: 1,
            energy_type: EnergyType::Grass,
            remaining_moves: 1
        }
    ));
    assert!(energy_blender_choices(&state, 0, 0).is_empty());
    assert!(energy_blender_choices(&state, 1, 3).is_empty());
}

#[test]
fn copied_attacks_are_random_only_from_hand_and_deck() {
    assert!(CopyAttackSource::OpponentHandAndDeckRandom.is_random());
    assert!(!CopyAttackSource::OpponentActive.is_random());
    assert!(!CopyAttackSource::OwnBenchNonEx.is_random());
}
