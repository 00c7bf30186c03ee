use deckgym::database::{get_card_by_enum, CardId};
use deckgym::effects::CardEffect;
use deckgym::models::{EnergyType, StatusCondition};
use deckgym::played_card::PlayedCard;

#[test]
fn fresh_cards_start_at_full_hp() {
    let card = PlayedCard::from_id(CardId::A1055Blastoise);
    assert_eq!(card.get_remaining_hp(), 150);
    assert_eq!(card.get_effective_total_hp(), 150);
    assert_eq!(card.get_name(), "Blastoise");
    assert_eq!(card.get_id(), "A1 055");
    assert!(!card.is_damaged());
    assert_eq!(card.count_status_conditions(), 0);
    assert!(!card.has_tool_attached());
}

#[test]
fn damage_and_healing_saturate() {
    let mut card = PlayedCard::from_id(CardId::A1001Bulbasaur).with_damage(30);
    assert_eq!(card.get_remaining_hp(), 40);
    card.heal(50);
    assert_eq!(card.get_remaining_hp(), 70);
    assert_eq!(card.get_damage_counters(), 0);
    let card = PlayedCard::from_id(CardId::A1001Bulbasaur).with_damage(500);
    assert_eq!(card.get_remaining_hp(), 0);
    assert!(card.is_knocked_out());
    let card = PlayedCard::from_id(CardId::A1001Bulbasaur)
        .with_damage(u32::MAX)
        .with_damage(10);
    assert_eq!(card.get_damage_counters(), u32::MAX);
}

#[test]
fn remaining_hp_is_clamped_to_the_effective_total() {
    let card = PlayedCard::from_id(CardId::A1001Bulbasaur).with_remaining_hp(20);
    assert_eq!(card.get_remaining_hp(), 20);
    assert_eq!(card.get_damage_counters(), 50);
    let card = PlayedCard::from_id(CardId::A1001Bulbasaur).with_remaining_hp(999);
    assert_eq!(card.get_remaining_hp(), 70);
}

#[test]
fn capes_add_hp_to_their_holders() {
    let bulbasaur = PlayedCard::from_id(CardId::A1001Bulbasaur)
        .with_tool(get_card_by_enum(CardId::A2147GiantCape));
    assert_eq!(bulbasaur.get_effective_total_hp(), 90);
    assert!(bulbasaur.has_tool_attached());
    let leaf = PlayedCard::from_id(CardId::A1001Bulbasaur)
        .with_tool(get_card_by_enum(CardId::A3147LeafCape));
    assert_eq!(leaf.get_effective_total_hp(), 100, "Bulbasaur is [G]");
    let wrong_type = PlayedCard::from_id(CardId::A1211Snorlax)
        .with_tool(get_card_by_enum(CardId::A3147LeafCape));
    assert_eq!(wrong_type.get_effective_total_hp(), 150, "Snorlax is not [G]");
}

#[test]
fn one_tool_slot_without_an_ability() {
    let mut card = PlayedCard::from_id(CardId::A1211Snorlax);
    assert_eq!(card.tool_capacity(), 1);
    let cape = get_card_by_enum(CardId::A2147GiantCape);
    assert!(card.can_attach_tool(&cape));
    card.attach_tool(cape);
    assert!(!card.can_attach_tool(&get_card_by_enum(CardId::A3147LeafCape)));
}

#[test]
fn status_conditions_count_and_cure() {
    let mut card = PlayedCard::from_id(CardId::A1211Snorlax);
    card.set_status_raw(StatusCondition::Poisoned);
    card.set_status_raw(StatusCondition::Burned);
    assert!(card.is_poisoned());
    assert!(card.is_burned());
    assert_eq!(card.count_status_conditions(), 2);
    card.cure_status_conditions();
    assert_eq!(card.count_status_conditions(), 0);
    assert!(!card.is_poisoned());
}

#[test]
fn effects_are_recorded_and_found() {
    let mut card = PlayedCard::from_id(CardId::A1211Snorlax);
    assert!(!card.has_effect(&CardEffect::NoRetreat));
    card.add_effect(CardEffect::NoRetreat, 1);
    assert!(card.has_effect(&CardEffect::NoRetreat));
    assert!(!card.has_effect(&CardEffect::CannotAttack));
}

#[test]
fn types_in_play() {
    let card = PlayedCard::from_id(CardId::A1055Blastoise).with_energy(vec![EnergyType::Water]);
    assert!(card.is_type(EnergyType::Water));
    assert!(!card.is_type(EnergyType::Fire));
    assert_eq!(card.get_energy_types(), vec![EnergyType::Water]);
    assert_eq!(card.attached_energy, vec![EnergyType::Water]);
    assert!(!card.was_damaged_by_attack_while_active_last_turn());
}

#[test]
fn labels_show_name_remaining_hp_and_energy_count() {
    let card = PlayedCard::from_id(CardId::A1001Bulbasaur)
        .with_damage(30)
        .with_energy(vec![EnergyType::Grass]);
    assert_eq!(card.label(), "Bulbasaur(40hp,1)");
    let fresh = PlayedCard::from_id(CardId::A1055Blastoise);
    assert_eq!(fresh.label(), "Blastoise(150hp,0)");
}

#[test]
fn an_effect_lasts_its_duration_in_end_of_turn_passes() {
    let mut card = PlayedCard::from_id(CardId::A1211Snorlax);
    card.add_effect(CardEffect::CannotAttack, 0);
    card.add_effect(CardEffect::NoRetreat, 2);
    card.end_turn_maintenance();
    assert!(!card.has_effect(&CardEffect::CannotAttack));
    assert!(card.has_effect(&CardEffect::NoRetreat));
    card.end_turn_maintenance();
    assert!(card.has_effect(&CardEffect::NoRetreat));
    card.end_turn_maintenance();
    assert!(!card.has_effect(&CardEffect::NoRetreat));
}

#[test]
fn fresh_cards_have_their_printed_hp_and_no_duplicate_types() {
    let chansey = PlayedCard::from_id(CardId::A1202Chansey);
    assert_eq!(chansey.get_remaining_hp(), 120);
    assert_eq!(chansey.get_energy_types(), vec![EnergyType::Colorless]);
}
