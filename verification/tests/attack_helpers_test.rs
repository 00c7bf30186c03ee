use deckgym::actions::SimpleAction;
use deckgym::attack_helpers::energy_any_way_choices;
use deckgym::models::EnergyType;

#[test]
fn test_energy_any_way_choices_empty_or_zero() {
    let choices = energy_any_way_choices(&[], EnergyType::Psychic, 3);
    assert!(choices.is_empty());

    let choices = energy_any_way_choices(&[0, 2], EnergyType::Psychic, 0);
    assert!(choices.is_empty());
}

#[test]
fn test_energy_any_way_choices_two_targets_three_energy() {
    let choices = energy_any_way_choices(&[0, 2], EnergyType::Psychic, 3);
    assert_eq!(choices.len(), 4);

    let expected = [
        vec![(3, EnergyType::Psychic, 2)],
        vec![(1, EnergyType::Psychic, 0), (2, EnergyType::Psychic, 2)],
        vec![(2, EnergyType::Psychic, 0), (1, EnergyType::Psychic, 2)],
        vec![(3, EnergyType::Psychic, 0)],
    ];

    for (i, choice) in choices.iter().enumerate() {
        if let SimpleAction::Attach { attachments, .. } = choice {
            assert_eq!(attachments, &expected[i]);
        } else {
            panic!("Expected SimpleAction::Attach");
        }
    }
}

#[test]
fn test_energy_any_way_choices_three_targets_two_energy() {
    let choices = energy_any_way_choices(&[0, 1, 3], EnergyType::Psychic, 2);
    assert_eq!(choices.len(), 6);

    let expected = [
        vec![(2, EnergyType::Psychic, 3)],
        vec![(1, EnergyType::Psychic, 1), (1, EnergyType::Psychic, 3)],
        vec![(2, EnergyType::Psychic, 1)],
        vec![(1, EnergyType::Psychic, 0), (1, EnergyType::Psychic, 3)],
        vec![(1, EnergyType::Psychic, 0), (1, EnergyType::Psychic, 1)],
        vec![(2, EnergyType::Psychic, 0)],
    ];

    for (i, choice) in choices.iter().enumerate() {
        if let SimpleAction::Attach { attachments, .. } = choice {
            assert_eq!(attachments, &expected[i]);
        } else {
            panic!("Expected SimpleAction::Attach");
        }
    }
}

#[test]
fn energy_any_way_choices_single_target_takes_everything() {
    let choices = energy_any_way_choices(&[1], EnergyType::Fire, 2);
    assert_eq!(choices.len(), 1);
    match &choices[0] {
        SimpleAction::Attach { attachments, is_turn_energy } => {
            assert_eq!(attachments, &vec![(2, EnergyType::Fire, 1)]);
            assert!(!is_turn_energy);
        }
        _ => panic!("Expected SimpleAction::Attach"),
    }
}

#[test]
fn the_number_of_choices_is_a_binomial_and_none_repeats() {
    // 4 Energy over 3 targets: 6 choose 2 = 15 distinct splits.
    let choices = energy_any_way_choices(&[0, 1, 3], EnergyType::Fire, 4);
    assert_eq!(choices.len(), 15);
    let labels: std::collections::HashSet<String> =
        choices.iter().map(|c| format!("{c:?}")).collect();
    assert_eq!(labels.len(), 15);
}
