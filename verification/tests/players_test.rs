use deckgym::database::{get_card_by_enum, CardId};
use deckgym::models::{Card, Deck, EnergyType};
use deckgym::played_card::PlayedCard;
use deckgym::players::determinise_opponent_hand_for_test;
use deckgym::players::opponent_aware_player::ReplyPolicy;
use deckgym::players::value_functions::{
    cost_met, effective_energy, feature_energy_missing, get_active_retreat_cost,
    most_expensive_attack_cost, parse_value_function_kind, turns_until_opponent_wins_board_hp,
    ValueFunctionKind,
};
use deckgym::state::State;
use rand::rngs::StdRng;
use rand::SeedableRng;

fn ids(cards: &[Card]) -> Vec<String> {
    let mut v: Vec<String> = cards.iter().map(|c| c.get_id()).collect();
    v.sort();
    v
}

fn position_with_hidden_cards() -> State {
    let mut state = State::new_empty();
    state.decks[1] = Deck {
        cards: vec![
            get_card_by_enum(CardId::A1001Bulbasaur),
            get_card_by_enum(CardId::A1055Blastoise),
            get_card_by_enum(CardId::A1211Snorlax),
            get_card_by_enum(CardId::A2147GiantCape),
            get_card_by_enum(CardId::A1a006Serperior),
        ],
        energy_types: vec![EnergyType::Water],
    };
    state.hands[1] = vec![
        get_card_by_enum(CardId::B2155PeculiarPlaza),
        get_card_by_enum(CardId::A3147LeafCape),
    ];
    state.hands[0] = vec![get_card_by_enum(CardId::B4a072Arcade)];
    state.set_board(
        vec![PlayedCard::from_id(CardId::A1001Bulbasaur)],
        vec![PlayedCard::from_id(CardId::A1211Snorlax)],
    );
    state
}

#[test]
fn test_o_resamples_the_opponent_hand_rather_than_reading_it() {
    let state = position_with_hidden_cards();
    let mut unseen: Vec<Card> = state.decks[1].cards.clone();
    unseen.extend(state.hands[1].iter().cloned());
    let unseen_ids = ids(&unseen);
    let mut hands_seen = std::collections::HashSet::new();
    for seed in 0..20u64 {
        let mut rng = StdRng::seed_from_u64(seed);
        let sampled = determinise_opponent_hand_for_test(position_with_hidden_cards(), 0, &mut rng);
        assert_eq!(sampled.hands[1].len(), 2, "the deck/hand split must keep its sizes");
        assert_eq!(sampled.decks[1].cards.len(), 5, "the deck/hand split must keep its sizes");
        assert_eq!(
            ids(&sampled.hands[0]),
            ids(&state.hands[0]),
            "our own hand is not the one being resampled"
        );
        let mut all = sampled.hands[1].clone();
        all.extend(sampled.decks[1].cards.iter().cloned());
        assert_eq!(ids(&all), unseen_ids, "the unseen multiset must be preserved");
        assert_eq!(sampled.decks[1].energy_types, vec![EnergyType::Water]);
        assert_eq!(sampled.in_play_pokemon[1][0].as_ref().unwrap().get_name(), "Snorlax");
        hands_seen.insert(ids(&sampled.hands[1]));
    }
    assert!(
        hands_seen.len() > 1,
        "every determinisation dealt the same hand, so nothing was resampled"
    );
}

#[test]
fn reply_policy_depth_is_at_least_one() {
    assert_eq!(ReplyPolicy::Greedy.depth(), 1);
    assert_eq!(ReplyPolicy::ExpectiMiniMax { depth: 0 }.depth(), 1);
    assert_eq!(ReplyPolicy::ExpectiMiniMax { depth: 4 }.depth(), 4);
}

#[test]
fn value_function_kinds_round_trip_through_their_names() {
    for kind in [
        ValueFunctionKind::Baseline,
        ValueFunctionKind::Variant,
        ValueFunctionKind::Learned,
    ] {
        assert_eq!(parse_value_function_kind(kind.as_str()), Ok(kind));
    }
    assert_eq!(ValueFunctionKind::default(), ValueFunctionKind::Baseline);
}

#[test]
fn the_value_function_factory_hands_out_each_kind() {
    assert_eq!(
        parse_value_function_kind("baseline"),
        Ok(ValueFunctionKind::Baseline)
    );
    assert_eq!(
        parse_value_function_kind("variant"),
        Ok(ValueFunctionKind::Variant)
    );
    assert_eq!(
        parse_value_function_kind("learned"),
        Ok(ValueFunctionKind::Learned)
    );
    assert_eq!(parse_value_function_kind("L"), Ok(ValueFunctionKind::Learned));
    assert_eq!(parse_value_function_kind("B"), Ok(ValueFunctionKind::Baseline));
    assert_eq!(parse_value_function_kind("v"), Ok(ValueFunctionKind::Variant));
    assert_eq!(
        parse_value_function_kind("NoPe"),
        Err("Invalid value function: nope. Use baseline, variant or learned".to_string())
    );
}

#[test]
fn energy_missing_counts_typed_then_colorless() {
    let (g, f, w, c) = (
        EnergyType::Grass,
        EnergyType::Fire,
        EnergyType::Water,
        EnergyType::Colorless,
    );
    assert_eq!(feature_energy_missing(&vec![], &vec![g, c]), vec![g, c]);
    assert_eq!(feature_energy_missing(&vec![g], &vec![g, c]), vec![c]);
    assert_eq!(feature_energy_missing(&vec![g, f], &vec![g, c]), vec![]);
    assert_eq!(feature_energy_missing(&vec![f, f], &vec![w, w, c]), vec![w, w]);
    assert_eq!(feature_energy_missing(&vec![w], &vec![c, c, c]), vec![c, c]);
}

#[test]
fn double_grass_doubles_the_attached_grass_energy() {
    let mut card = PlayedCard::from_id(CardId::A1001Bulbasaur).with_energy(vec![EnergyType::Grass]);
    let cost = vec![EnergyType::Grass, EnergyType::Colorless];
    assert_eq!(effective_energy(&card), vec![EnergyType::Grass]);
    assert!(!cost_met(&card, &cost), "one [G] does not pay for [G][C]");
    card.refresh_double_grass_active(true);
    assert_eq!(effective_energy(&card), vec![EnergyType::Grass, EnergyType::Grass]);
    assert!(cost_met(&card, &cost), "two effective [G] pay for [G][C]");
}

#[test]
fn most_expensive_cost_compares_like_vectors() {
    let blastoise = get_card_by_enum(CardId::A1055Blastoise);
    assert_eq!(
        most_expensive_attack_cost(&blastoise),
        vec![EnergyType::Water, EnergyType::Water, EnergyType::Colorless]
    );
    let cape = get_card_by_enum(CardId::A2147GiantCape);
    assert_eq!(most_expensive_attack_cost(&cape), vec![]);
}

#[test]
fn active_retreat_cost_size() {
    let mut state = State::new_empty();
    assert_eq!(get_active_retreat_cost(&state, 0), 0);
    state.set_board(vec![PlayedCard::from_id(CardId::A1211Snorlax)], vec![]);
    assert_eq!(get_active_retreat_cost(&state, 0), 4);
    assert_eq!(get_active_retreat_cost(&state, 1), 0);
}

#[test]
fn turns_until_the_opponent_wins_on_board_hp() {
    let mut state = State::new_empty();
    assert_eq!(turns_until_opponent_wins_board_hp(&state, 0), 30, "no threat at all");
    state.set_board(
        vec![PlayedCard::from_id(CardId::A1211Snorlax)],
        vec![PlayedCard::from_id(CardId::A1001Bulbasaur).with_energy(vec![EnergyType::Grass])],
    );
    // Vine Whip lacks one [C]; 150 HP at 40 a turn is 4 turns; no Bench to take afterwards.
    assert_eq!(turns_until_opponent_wins_board_hp(&state, 0), 5);
    state.set_board(
        vec![
            PlayedCard::from_id(CardId::A1211Snorlax),
            PlayedCard::from_id(CardId::A1055Blastoise),
            PlayedCard::from_id(CardId::A1001Bulbasaur),
        ],
        vec![PlayedCard::from_id(CardId::A1001Bulbasaur).with_energy(vec![EnergyType::Grass])],
    );
    // The safest Bench Pokémon, Blastoise, is counted twice: 1 + 4 + 4 + 4.
    assert_eq!(turns_until_opponent_wins_board_hp(&state, 0), 13);
    // Seen from the other side the closest threat is the benched Bulbasaur, two Energy short:
    // 2 + two hits on the 70 HP Active.
    assert_eq!(turns_until_opponent_wins_board_hp(&state, 1), 4);
}
