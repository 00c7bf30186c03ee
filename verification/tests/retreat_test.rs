use deckgym::database::{get_card_by_enum, CardId};
use deckgym::effects::{CardEffect, TurnEffect};
use deckgym::models::EnergyType;
use deckgym::played_card::PlayedCard;
use deckgym::retreat::{can_retreat, get_retreat_cost};
use deckgym::state::State;

fn colorless(n: usize) -> Vec<EnergyType> {
    vec![EnergyType::Colorless; n]
}

#[test]
fn test_retreat_costs() {
    let state = State::new_empty();
    let playable_card = PlayedCard::from_id(CardId::A1055Blastoise);
    let retreat_cost = get_retreat_cost(&state, &playable_card);
    assert_eq!(
        retreat_cost,
        vec![
            EnergyType::Colorless,
            EnergyType::Colorless,
            EnergyType::Colorless
        ]
    );
}

#[test]
fn test_retreat_costs_with_xspeed() {
    let mut state = State::new_empty();
    state.add_turn_effect(TurnEffect::ReducedRetreatCost { amount: 1 }, 0);
    let playable_card = PlayedCard::from_id(CardId::A1055Blastoise);
    let retreat_cost = get_retreat_cost(&state, &playable_card);
    assert_eq!(
        retreat_cost,
        vec![EnergyType::Colorless, EnergyType::Colorless]
    );
}

#[test]
fn test_retreat_costs_with_two_xspeed_and_two_leafs() {
    let mut state = State::new_empty();
    state.add_turn_effect(TurnEffect::ReducedRetreatCost { amount: 1 }, 0);
    state.add_turn_effect(TurnEffect::ReducedRetreatCost { amount: 1 }, 0);
    state.add_turn_effect(TurnEffect::ReducedRetreatCost { amount: 2 }, 0);
    let playable_card = PlayedCard::from_id(CardId::A1211Snorlax);
    let retreat_cost = get_retreat_cost(&state, &playable_card);
    assert_eq!(retreat_cost, vec![]);
}

#[test]
fn test_retreat_costs_with_inflatable_boat() {
    let state = State::new_empty();
    let playable_card = PlayedCard::from_id(CardId::A1055Blastoise)
        .with_tool(get_card_by_enum(CardId::A4a067InflatableBoat));
    let retreat_cost = get_retreat_cost(&state, &playable_card);
    assert_eq!(
        retreat_cost,
        vec![EnergyType::Colorless, EnergyType::Colorless]
    );
}

#[test]
fn big_air_balloon_frees_a_stage_two() {
    let state = State::new_empty();
    let card = PlayedCard::from_id(CardId::A1055Blastoise)
        .with_tool(get_card_by_enum(CardId::B2a087BigAirBalloon));
    assert_eq!(get_retreat_cost(&state, &card), vec![]);
}

#[test]
fn small_balloon_helps_only_a_basic() {
    let state = State::new_empty();
    let snorlax = PlayedCard::from_id(CardId::A1211Snorlax)
        .with_tool(get_card_by_enum(CardId::B3b064SmallBalloon));
    assert_eq!(get_retreat_cost(&state, &snorlax), colorless(3));
    let blastoise = PlayedCard::from_id(CardId::A1055Blastoise)
        .with_tool(get_card_by_enum(CardId::B3b064SmallBalloon));
    assert_eq!(get_retreat_cost(&state, &blastoise), colorless(3));
}

#[test]
fn increased_retreat_cost_effects_add_colorless() {
    let state = State::new_empty();
    let mut card = PlayedCard::from_id(CardId::A1001Bulbasaur);
    card.add_effect(CardEffect::IncreasedRetreatCost { amount: 2 }, 1);
    assert_eq!(get_retreat_cost(&state, &card), colorless(3));
}

#[test]
fn turn_effects_of_other_turns_do_not_apply() {
    let mut state = State::new_empty();
    state.add_turn_effect(TurnEffect::ReducedRetreatCost { amount: 1 }, 0);
    state.turn_count = 1;
    let card = PlayedCard::from_id(CardId::A1055Blastoise);
    assert_eq!(get_retreat_cost(&state, &card), colorless(3));
}

#[test]
fn reductions_never_go_below_zero() {
    let mut state = State::new_empty();
    state.add_turn_effect(TurnEffect::ReducedRetreatCost { amount: 9 }, 0);
    let card = PlayedCard::from_id(CardId::A1001Bulbasaur);
    assert_eq!(get_retreat_cost(&state, &card), vec![]);
}

#[test]
fn can_retreat_checks_the_turn_flag_and_effects() {
    let mut state = State::new_empty();
    state.set_board(vec![PlayedCard::from_id(CardId::A1001Bulbasaur)], vec![]);
    assert!(can_retreat(&state));
    state.has_retreated = true;
    assert!(!can_retreat(&state));
    state.has_retreated = false;
    let mut blocked = PlayedCard::from_id(CardId::A1001Bulbasaur);
    blocked.add_effect(CardEffect::NoRetreat, 1);
    state.set_board(vec![blocked], vec![]);
    assert!(!can_retreat(&state));
}
