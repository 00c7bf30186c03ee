//! Puzzles that only have a right answer once you look at what the opponent does next turn:
//! where the turn's Energy survives, which of your Pokémon the opponent can reach, and which of
//! them is worth two points.
use vstd::prelude::*;

use super::support::{
    activate, anything_but_evolving_into, attach_to, attack, deck_of, evolve_at, in_play,
    in_play_at, place_on_bench, placed, placed_at, play, position, puzzle_position, retreat_to,
    row, spent_zone, zone, AcceptableKindView,
};
use super::{names_of, Puzzle};
use crate::actions::{SimpleAction, SimpleActionView};
use crate::database::{get_card_by_enum, spec_card_by_enum, CardId};
use crate::models::{cards_view, Card, CardView, EnergyType, StatusCondition};
use crate::played_card::{PlayedCard, PlayedCardView};
use crate::state::EnergyZone;

verus! {

/// Chansey is on 20 remaining HP with no Energy and needs three for Gentle Slap, so it will never
/// attack: the opponent's loaded Pikachu Knocks it Out next turn with Gnaw's 20. One [F] on the
/// Bench Hitmonchan is one [F] that is still there afterwards, and it puts Jab's 30 online.
#[verifier::rlimit(40)]
pub fn attach_to_the_bench_attacker_not_the_dead_active() -> (r: Puzzle)
    ensures
        r.name@ == "attach_to_the_bench_attacker_not_the_dead_active"@,
        r.why@ == "Chansey is one attack from dying and three Energy from attacking; the Bench keeps the Energy."@,
        r.acceptable@.len() == 1,
        r.acceptable@[0].kind@ == AcceptableKindView::AttachTo(1),
        puzzle_position(
            r.game,
            seq![CardId::A1202Chansey, CardId::A1155Hitmonchan],
            EnergyType::Fighting,
            seq![CardId::A1094Pikachu, CardId::A1059Poliwag],
            EnergyType::Lightning,
            row(seq![in_play_at(CardId::A1202Chansey, Seq::<EnergyType>::empty(), 20), in_play(CardId::A1155Hitmonchan, Seq::<EnergyType>::empty())]),
            row(seq![in_play(CardId::A1094Pikachu, seq![EnergyType::Lightning]), in_play(CardId::A1059Poliwag, Seq::<EnergyType>::empty())]),
            Seq::<CardView>::empty(),
            Seq::<CardView>::empty(),
            seq![0u8, 0u8],
            EnergyZone { current: Some(EnergyType::Fighting), next: Some(EnergyType::Fighting) },
        ),
{
    let ids_a = vec![CardId::A1202Chansey, CardId::A1155Hitmonchan];
    assert(ids_a@ == seq![CardId::A1202Chansey, CardId::A1155Hitmonchan]);
    let ids_b = vec![CardId::A1094Pikachu, CardId::A1059Poliwag];
    assert(ids_b@ == seq![CardId::A1094Pikachu, CardId::A1059Poliwag]);
    let mut game = position(deck_of(ids_a, EnergyType::Fighting), deck_of(ids_b, EnergyType::Lightning));
    let e_a0: Vec<EnergyType> = Vec::new();
    assert(e_a0@ == Seq::<EnergyType>::empty());
    let a0 = placed_at(CardId::A1202Chansey, e_a0, 20);
    let e_a1: Vec<EnergyType> = Vec::new();
    assert(e_a1@ == Seq::<EnergyType>::empty());
    let a1 = placed(CardId::A1155Hitmonchan, e_a1);
    let e_b0: Vec<EnergyType> = vec![EnergyType::Lightning];
    assert(e_b0@ == seq![EnergyType::Lightning]);
    let b0 = placed(CardId::A1094Pikachu, e_b0);
    let e_b1: Vec<EnergyType> = Vec::new();
    assert(e_b1@ == Seq::<EnergyType>::empty());
    let b1 = placed(CardId::A1059Poliwag, e_b1);
    let ghost board_a = seq![a0@, a1@];
    let ghost board_b = seq![b0@, b1@];
    let row_a = vec![a0, a1];
    let row_b = vec![b0, b1];
    assert(row_a@.map_values(|c: PlayedCard| c@) =~= board_a);
    assert(row_b@.map_values(|c: PlayedCard| c@) =~= board_b);
    game.energy_zone = [zone(EnergyType::Fighting), game.energy_zone[1]];
    game.set_board(row_a, row_b);
    assert(forall|i: int| 0 <= i < 4 ==> #[trigger] game.slot(0, i) == row(board_a)[i]);
    assert(forall|i: int| 0 <= i < 4 ==> #[trigger] game.slot(1, i) == row(board_b)[i]);
    assert(game.winner is None && game.turn_count == 5 && game.current_player == 0);
    assert(game.points@ == seq![0u8, 0u8]);
    assert(game.deck(0) == crate::puzzles::spec_puzzle_deck_cards(seq![CardId::A1202Chansey, CardId::A1155Hitmonchan]));
    assert(game.deck(1) == crate::puzzles::spec_puzzle_deck_cards(seq![CardId::A1094Pikachu, CardId::A1059Poliwag]));
    assert(game.decks@[0].energy_types@ == seq![EnergyType::Fighting]);
    assert(game.decks@[1].energy_types@ == seq![EnergyType::Lightning]);
    assert(game.hand(0) == Seq::<CardView>::empty());
    assert(game.hand(1) == Seq::<CardView>::empty());
    assert(game.discard(0).len() == 0 && game.discard(1).len() == 0);
    assert(game.energy_zone@[0] == EnergyZone { current: Some(EnergyType::Fighting), next: Some(EnergyType::Fighting) });
    assert(game.active_stadium is None && !game.has_retreated);
    assert(game.has_used_stadium@ == seq![false, false] && game.turn_effects@.len() == 0);
    assert(forall|i: int| 0 <= i < 4 ==> #[trigger] game.slot(0, i) == row(seq![in_play_at(CardId::A1202Chansey, Seq::<EnergyType>::empty(), 20), in_play(CardId::A1155Hitmonchan, Seq::<EnergyType>::empty())])[i]);
    assert(forall|i: int| 0 <= i < 4 ==> #[trigger] game.slot(1, i) == row(seq![in_play(CardId::A1094Pikachu, seq![EnergyType::Lightning]), in_play(CardId::A1059Poliwag, Seq::<EnergyType>::empty())])[i]);
    let acc0 = attach_to(1);
    let acceptable = vec![acc0];
    assert(acceptable@ == seq![acc0]);
    Puzzle { name: "attach_to_the_bench_attacker_not_the_dead_active", why: "Chansey is one attack from dying and three Energy from attacking; the Bench keeps the Energy.", game, acceptable }
}

/// Machop already has the one [F] Knuckle Punch costs and has no second attack, so a second [F]
/// on it buys nothing, and Rollout's 70 clears its 20 remaining HP next turn and discards that
/// Energy with it. Rhyhorn on the Bench is one Energy short of Tackle's 60.
///
/// Machop's Retreat Cost is two and it is holding one Energy, so retreating is not on the table:
/// the position is purely about where the turn's Energy goes.
#[verifier::rlimit(40)]
pub fn do_not_overextend_energy_onto_the_doomed_active() -> (r: Puzzle)
    ensures
        r.name@ == "do_not_overextend_energy_onto_the_doomed_active"@,
        r.why@ == "Knuckle Punch is already paid for and Machop dies to Rollout; the Energy belongs on Rhyhorn."@,
        r.acceptable@.len() == 1,
        r.acceptable@[0].kind@ == AcceptableKindView::AttachTo(1),
        puzzle_position(
            r.game,
            seq![CardId::A1143Machop, CardId::A1156Rhyhorn],
            EnergyType::Fighting,
            seq![CardId::A1211Snorlax, CardId::A1059Poliwag],
            EnergyType::Lightning,
            row(seq![in_play_at(CardId::A1143Machop, seq![EnergyType::Fighting], 20), in_play(CardId::A1156Rhyhorn, seq![EnergyType::Fighting, EnergyType::Fighting])]),
            row(seq![in_play(CardId::A1211Snorlax, seq![EnergyType::Lightning, EnergyType::Lightning, EnergyType::Lightning, EnergyType::Lightning]), in_play(CardId::A1059Poliwag, Seq::<EnergyType>::empty())]),
            Seq::<CardView>::empty(),
            Seq::<CardView>::empty(),
            seq![0u8, 0u8],
            EnergyZone { current: Some(EnergyType::Fighting), next: Some(EnergyType::Fighting) },
        ),
{
    let ids_a = vec![CardId::A1143Machop, CardId::A1156Rhyhorn];
    assert(ids_a@ == seq![CardId::A1143Machop, CardId::A1156Rhyhorn]);
    let ids_b = vec![CardId::A1211Snorlax, CardId::A1059Poliwag];
    assert(ids_b@ == seq![CardId::A1211Snorlax, CardId::A1059Poliwag]);
    let mut game = position(deck_of(ids_a, EnergyType::Fighting), deck_of(ids_b, EnergyType::Lightning));
    let e_a0: Vec<EnergyType> = vec![EnergyType::Fighting];
    assert(e_a0@ == seq![EnergyType::Fighting]);
    let a0 = placed_at(CardId::A1143Machop, e_a0, 20);
    let e_a1: Vec<EnergyType> = vec![EnergyType::Fighting, EnergyType::Fighting];
    assert(e_a1@ == seq![EnergyType::Fighting, EnergyType::Fighting]);
    let a1 = placed(CardId::A1156Rhyhorn, e_a1);
    let e_b0: Vec<EnergyType> = vec![EnergyType::Lightning, EnergyType::Lightning, EnergyType::Lightning, EnergyType::Lightning];
    assert(e_b0@ == seq![EnergyType::Lightning, EnergyType::Lightning, EnergyType::Lightning, EnergyType::Lightning]);
    let b0 = placed(CardId::A1211Snorlax, e_b0);
    let e_b1: Vec<EnergyType> = Vec::new();
    assert(e_b1@ == Seq::<EnergyType>::empty());
    let b1 = placed(CardId::A1059Poliwag, e_b1);
    let ghost board_a = seq![a0@, a1@];
    let ghost board_b = seq![b0@, b1@];
    let row_a = vec![a0, a1];
    let row_b = vec![b0, b1];
    assert(row_a@.map_values(|c: PlayedCard| c@) =~= board_a);
    assert(row_b@.map_values(|c: PlayedCard| c@) =~= board_b);
    game.energy_zone = [zone(EnergyType::Fighting), game.energy_zone[1]];
    game.set_board(row_a, row_b);
    assert(forall|i: int| 0 <= i < 4 ==> #[trigger] game.slot(0, i) == row(board_a)[i]);
    assert(forall|i: int| 0 <= i < 4 ==> #[trigger] game.slot(1, i) == row(board_b)[i]);
    assert(game.winner is None && game.turn_count == 5 && game.current_player == 0);
    assert(game.points@ == seq![0u8, 0u8]);
    assert(game.deck(0) == crate::puzzles::spec_puzzle_deck_cards(seq![CardId::A1143Machop, CardId::A1156Rhyhorn]));
    assert(game.deck(1) == crate::puzzles::spec_puzzle_deck_cards(seq![CardId::A1211Snorlax, CardId::A1059Poliwag]));
    assert(game.decks@[0].energy_types@ == seq![EnergyType::Fighting]);
    assert(game.decks@[1].energy_types@ == seq![EnergyType::Lightning]);
    assert(game.hand(0) == Seq::<CardView>::empty());
    assert(game.hand(1) == Seq::<CardView>::empty());
    assert(game.discard(0).len() == 0 && game.discard(1).len() == 0);
    assert(game.energy_zone@[0] == EnergyZone { current: Some(EnergyType::Fighting), next: Some(EnergyType::Fighting) });
    assert(game.active_stadium is None && !game.has_retreated);
    assert(game.has_used_stadium@ == seq![false, false] && game.turn_effects@.len() == 0);
    assert(forall|i: int| 0 <= i < 4 ==> #[trigger] game.slot(0, i) == row(seq![in_play_at(CardId::A1143Machop, seq![EnergyType::Fighting], 20), in_play(CardId::A1156Rhyhorn, seq![EnergyType::Fighting, EnergyType::Fighting])])[i]);
    assert(forall|i: int| 0 <= i < 4 ==> #[trigger] game.slot(1, i) == row(seq![in_play(CardId::A1211Snorlax, seq![EnergyType::Lightning, EnergyType::Lightning, EnergyType::Lightning, EnergyType::Lightning]), in_play(CardId::A1059Poliwag, Seq::<EnergyType>::empty())])[i]);
    let acc0 = attach_to(1);
    let acceptable = vec![acc0];
    assert(acceptable@ == seq![acc0]);
    Puzzle { name: "do_not_overextend_energy_onto_the_doomed_active", why: "Knuckle Punch is already paid for and Machop dies to Rollout; the Energy belongs on Rhyhorn.", game, acceptable }
}

/// Cyrus switches in one of the opponent's Benched Pokémon "that has damage on it". The Bench
/// Mewtwo ex carries exactly 20 damage, and the opponent is holding Cyrus with a loaded Mewtwo ex
/// of their own: Psydrive's 150 covers its 130 remaining HP for the 2 points that end the game.
/// Potion's 20 takes the damage off entirely, which takes it off Cyrus's list.
#[verifier::rlimit(40)]
pub fn heal_the_bench_attacker_out_of_cyrus_range() -> (r: Puzzle)
    ensures
        r.name@ == "heal_the_bench_attacker_out_of_cyrus_range"@,
        r.why@ == "Healing the last 20 damage off the Bench ex makes it an illegal Cyrus target."@,
        r.acceptable@.len() == 1,
        r.acceptable@[0].kind@ == AcceptableKindView::Play("Potion"@),
        puzzle_position(
            r.game,
            seq![CardId::A1202Chansey, CardId::A1129MewtwoEx, CardId::PA001Potion],
            EnergyType::Psychic,
            seq![CardId::A1129MewtwoEx, CardId::A2150Cyrus],
            EnergyType::Psychic,
            row(seq![in_play(CardId::A1202Chansey, Seq::<EnergyType>::empty()), in_play_at(CardId::A1129MewtwoEx, seq![EnergyType::Psychic, EnergyType::Psychic, EnergyType::Psychic, EnergyType::Psychic], 130)]),
            row(seq![in_play(CardId::A1129MewtwoEx, seq![EnergyType::Psychic, EnergyType::Psychic, EnergyType::Psychic, EnergyType::Psychic]), in_play(CardId::A1059Poliwag, Seq::<EnergyType>::empty())]),
            seq![spec_card_by_enum(CardId::PA001Potion)],
            seq![spec_card_by_enum(CardId::A2150Cyrus)],
            seq![0u8, 1u8],
            EnergyZone { current: None, next: Some(EnergyType::Psychic) },
        ),
{
    let ids_a = vec![CardId::A1202Chansey, CardId::A1129MewtwoEx, CardId::PA001Potion];
    assert(ids_a@ == seq![CardId::A1202Chansey, CardId::A1129MewtwoEx, CardId::PA001Potion]);
    let ids_b = vec![CardId::A1129MewtwoEx, CardId::A2150Cyrus];
    assert(ids_b@ == seq![CardId::A1129MewtwoEx, CardId::A2150Cyrus]);
    let mut game = position(deck_of(ids_a, EnergyType::Psychic), deck_of(ids_b, EnergyType::Psychic));
    let e_a0: Vec<EnergyType> = Vec::new();
    assert(e_a0@ == Seq::<EnergyType>::empty());
    let a0 = placed(CardId::A1202Chansey, e_a0);
    let e_a1: Vec<EnergyType> = vec![EnergyType::Psychic, EnergyType::Psychic, EnergyType::Psychic, EnergyType::Psychic];
    assert(e_a1@ == seq![EnergyType::Psychic, EnergyType::Psychic, EnergyType::Psychic, EnergyType::Psychic]);
    let a1 = placed_at(CardId::A1129MewtwoEx, e_a1, 130);
    let e_b0: Vec<EnergyType> = vec![EnergyType::Psychic, EnergyType::Psychic, EnergyType::Psychic, EnergyType::Psychic];
    assert(e_b0@ == seq![EnergyType::Psychic, EnergyType::Psychic, EnergyType::Psychic, EnergyType::Psychic]);
    let b0 = placed(CardId::A1129MewtwoEx, e_b0);
    let e_b1: Vec<EnergyType> = Vec::new();
    assert(e_b1@ == Seq::<EnergyType>::empty());
    let b1 = placed(CardId::A1059Poliwag, e_b1);
    let ghost board_a = seq![a0@, a1@];
    let ghost board_b = seq![b0@, b1@];
    let row_a = vec![a0, a1];
    let row_b = vec![b0, b1];
    assert(row_a@.map_values(|c: PlayedCard| c@) =~= board_a);
    assert(row_b@.map_values(|c: PlayedCard| c@) =~= board_b);
    let hand_a0 = get_card_by_enum(CardId::PA001Potion);
    let hand_a = vec![hand_a0];
    assert(cards_view(hand_a@) =~= seq![spec_card_by_enum(CardId::PA001Potion)]);
    let hand_b0 = get_card_by_enum(CardId::A2150Cyrus);
    let hand_b = vec![hand_b0];
    assert(cards_view(hand_b@) =~= seq![spec_card_by_enum(CardId::A2150Cyrus)]);
    game.hands = [hand_a, hand_b];
    game.points = [0, 1];
    assert(game.points@ =~= seq![0u8, 1u8]);
    game.energy_zone = [spent_zone(EnergyType::Psychic), game.energy_zone[1]];
    game.set_board(row_a, row_b);
    assert(forall|i: int| 0 <= i < 4 ==> #[trigger] game.slot(0, i) == row(board_a)[i]);
    assert(forall|i: int| 0 <= i < 4 ==> #[trigger] game.slot(1, i) == row(board_b)[i]);
    assert(game.winner is None && game.turn_count == 5 && game.current_player == 0);
    assert(game.points@ == seq![0u8, 1u8]);
    assert(game.deck(0) == crate::puzzles::spec_puzzle_deck_cards(seq![CardId::A1202Chansey, CardId::A1129MewtwoEx, CardId::PA001Potion]));
    assert(game.deck(1) == crate::puzzles::spec_puzzle_deck_cards(seq![CardId::A1129MewtwoEx, CardId::A2150Cyrus]));
    assert(game.decks@[0].energy_types@ == seq![EnergyType::Psychic]);
    assert(game.decks@[1].energy_types@ == seq![EnergyType::Psychic]);
    assert(game.hand(0) == seq![spec_card_by_enum(CardId::PA001Potion)]);
    assert(game.hand(1) == seq![spec_card_by_enum(CardId::A2150Cyrus)]);
    assert(game.discard(0).len() == 0 && game.discard(1).len() == 0);
    assert(game.energy_zone@[0] == EnergyZone { current: None, next: Some(EnergyType::Psychic) });
    assert(game.active_stadium is None && !game.has_retreated);
    assert(game.has_used_stadium@ == seq![false, false] && game.turn_effects@.len() == 0);
    assert(forall|i: int| 0 <= i < 4 ==> #[trigger] game.slot(0, i) == row(seq![in_play(CardId::A1202Chansey, Seq::<EnergyType>::empty()), in_play_at(CardId::A1129MewtwoEx, seq![EnergyType::Psychic, EnergyType::Psychic, EnergyType::Psychic, EnergyType::Psychic], 130)])[i]);
    assert(forall|i: int| 0 <= i < 4 ==> #[trigger] game.slot(1, i) == row(seq![in_play(CardId::A1129MewtwoEx, seq![EnergyType::Psychic, EnergyType::Psychic, EnergyType::Psychic, EnergyType::Psychic]), in_play(CardId::A1059Poliwag, Seq::<EnergyType>::empty())])[i]);
    let acc0 = play("Potion");
    let acceptable = vec![acc0];
    assert(acceptable@ == seq![acc0]);
    Puzzle { name: "heal_the_bench_attacker_out_of_cyrus_range", why: "Healing the last 20 damage off the Bench ex makes it an illegal Cyrus target.", game, acceptable }
}

/// Retreating to the loaded Starmie ex would Knock Out the Electrode, but it puts a 20 HP ex in
/// the Active Spot with a loaded Pikachu on the opponent's Bench: Gnaw's 20 plus 20 for the [L]
/// Weakness collects the 2 points that end the game. Chansey stays and hits for 60 instead, and
/// survives Electro Ball's 70 with 50 HP to spare.
#[verifier::rlimit(40)]
pub fn keep_the_damaged_ex_off_the_active_spot() -> (r: Puzzle)
    ensures
        r.name@ == "keep_the_damaged_ex_off_the_active_spot"@,
        r.why@ == "Promoting the 20 HP ex hands over the 2 points that win; Chansey attacks and survives."@,
        r.acceptable@.len() == 1,
        r.acceptable@[0].kind@ == AcceptableKindView::Attack("Gentle Slap"@),
        puzzle_position(
            r.game,
            seq![CardId::A1202Chansey, CardId::A1074Staryu, CardId::A1076StarmieEx],
            EnergyType::Lightning,
            seq![CardId::A1100Electrode, CardId::A1094Pikachu],
            EnergyType::Lightning,
            row(seq![in_play(CardId::A1202Chansey, seq![EnergyType::Lightning, EnergyType::Lightning, EnergyType::Lightning]), in_play_at(CardId::A1076StarmieEx, seq![EnergyType::Water, EnergyType::Water], 20)]),
            row(seq![in_play(CardId::A1100Electrode, seq![EnergyType::Lightning, EnergyType::Lightning]), in_play(CardId::A1094Pikachu, seq![EnergyType::Lightning])]),
            Seq::<CardView>::empty(),
            Seq::<CardView>::empty(),
            seq![0u8, 2u8],
            EnergyZone { current: None, next: Some(EnergyType::Lightning) },
        ),
{
    let ids_a = vec![CardId::A1202Chansey, CardId::A1074Staryu, CardId::A1076StarmieEx];
    assert(ids_a@ == seq![CardId::A1202Chansey, CardId::A1074Staryu, CardId::A1076StarmieEx]);
    let ids_b = vec![CardId::A1100Electrode, CardId::A1094Pikachu];
    assert(ids_b@ == seq![CardId::A1100Electrode, CardId::A1094Pikachu]);
    let mut game = position(deck_of(ids_a, EnergyType::Lightning), deck_of(ids_b, EnergyType::Lightning));
    let e_a0: Vec<EnergyType> = vec![EnergyType::Lightning, EnergyType::Lightning, EnergyType::Lightning];
    assert(e_a0@ == seq![EnergyType::Lightning, EnergyType::Lightning, EnergyType::Lightning]);
    let a0 = placed(CardId::A1202Chansey, e_a0);
    let e_a1: Vec<EnergyType> = vec![EnergyType::Water, EnergyType::Water];
    assert(e_a1@ == seq![EnergyType::Water, EnergyType::Water]);
    let a1 = placed_at(CardId::A1076StarmieEx, e_a1, 20);
    let e_b0: Vec<EnergyType> = vec![EnergyType::Lightning, EnergyType::Lightning];
    assert(e_b0@ == seq![EnergyType::Lightning, EnergyType::Lightning]);
    let b0 = placed(CardId::A1100Electrode, e_b0);
    let e_b1: Vec<EnergyType> = vec![EnergyType::Lightning];
    assert(e_b1@ == seq![EnergyType::Lightning]);
    let b1 = placed(CardId::A1094Pikachu, e_b1);
    let ghost board_a = seq![a0@, a1@];
    let ghost board_b = seq![b0@, b1@];
    let row_a = vec![a0, a1];
    let row_b = vec![b0, b1];
    assert(row_a@.map_values(|c: PlayedCard| c@) =~= board_a);
    assert(row_b@.map_values(|c: PlayedCard| c@) =~= board_b);
    game.points = [0, 2];
    assert(game.points@ =~= seq![0u8, 2u8]);
    game.energy_zone = [spent_zone(EnergyType::Lightning), game.energy_zone[1]];
    game.set_board(row_a, row_b);
    assert(forall|i: int| 0 <= i < 4 ==> #[trigger] game.slot(0, i) == row(board_a)[i]);
    assert(forall|i: int| 0 <= i < 4 ==> #[trigger] game.slot(1, i) == row(board_b)[i]);
    assert(game.winner is None && game.turn_count == 5 && game.current_player == 0);
    assert(game.points@ == seq![0u8, 2u8]);
    assert(game.deck(0) == crate::puzzles::spec_puzzle_deck_cards(seq![CardId::A1202Chansey, CardId::A1074Staryu, CardId::A1076StarmieEx]));
    assert(game.deck(1) == crate::puzzles::spec_puzzle_deck_cards(seq![CardId::A1100Electrode, CardId::A1094Pikachu]));
    assert(game.decks@[0].energy_types@ == seq![EnergyType::Lightning]);
    assert(game.decks@[1].energy_types@ == seq![EnergyType::Lightning]);
    assert(game.hand(0) == Seq::<CardView>::empty());
    assert(game.hand(1) == Seq::<CardView>::empty());
    assert(game.discard(0).len() == 0 && game.discard(1).len() == 0);
    assert(game.energy_zone@[0] == EnergyZone { current: None, next: Some(EnergyType::Lightning) });
    assert(game.active_stadium is None && !game.has_retreated);
    assert(game.has_used_stadium@ == seq![false, false] && game.turn_effects@.len() == 0);
    assert(forall|i: int| 0 <= i < 4 ==> #[trigger] game.slot(0, i) == row(seq![in_play(CardId::A1202Chansey, seq![EnergyType::Lightning, EnergyType::Lightning, EnergyType::Lightning]), in_play_at(CardId::A1076StarmieEx, seq![EnergyType::Water, EnergyType::Water], 20)])[i]);
    assert(forall|i: int| 0 <= i < 4 ==> #[trigger] game.slot(1, i) == row(seq![in_play(CardId::A1100Electrode, seq![EnergyType::Lightning, EnergyType::Lightning]), in_play(CardId::A1094Pikachu, seq![EnergyType::Lightning])])[i]);
    let acc0 = attack("Gentle Slap");
    let acceptable = vec![acc0];
    assert(acceptable@ == seq![acc0]);
    Puzzle { name: "keep_the_damaged_ex_off_the_active_spot", why: "Promoting the 20 HP ex hands over the 2 points that win; Chansey attacks and survives.", game, acceptable }
}

/// The Active Spot is empty and the game is waiting for a promotion. Magikarp and Poliwag have no
/// Energy and 10 damage attacks; Hitmonchan is holding its [F] and Jab's 30 covers the opponent's
/// 30 remaining HP for the third point next turn.
#[verifier::rlimit(40)]
pub fn promote_the_attacker_after_the_knockout() -> (r: Puzzle)
    ensures
        r.name@ == "promote_the_attacker_after_the_knockout"@,
        r.why@ == "Only Hitmonchan is paid up, and its Jab covers the opponent's 30 remaining HP."@,
        r.acceptable@.len() == 1,
        r.acceptable@[0].kind@ == AcceptableKindView::Activate(2),
        puzzle_position(
            r.game,
            seq![CardId::A1077Magikarp, CardId::A1155Hitmonchan, CardId::A1059Poliwag],
            EnergyType::Fighting,
            seq![CardId::A1189Rattata, CardId::A1059Poliwag],
            EnergyType::Water,
            seq![None, Some(in_play(CardId::A1077Magikarp, Seq::<EnergyType>::empty())), Some(in_play(CardId::A1155Hitmonchan, seq![EnergyType::Fighting])), Some(in_play(CardId::A1059Poliwag, Seq::<EnergyType>::empty()))],
            row(seq![in_play_at(CardId::A1189Rattata, Seq::<EnergyType>::empty(), 30), in_play(CardId::A1059Poliwag, Seq::<EnergyType>::empty())]),
            Seq::<CardView>::empty(),
            Seq::<CardView>::empty(),
            seq![2u8, 0u8],
            EnergyZone { current: None, next: Some(EnergyType::Fighting) },
        ),
        r.game.move_generation_stack@.len() == 1,
        r.game.move_generation_stack@[0].0 == 0,
        r.game.move_generation_stack@[0].1@.map_values(|a: SimpleAction| a@) == seq![SimpleActionView::Activate { player: 0, in_play_idx: 1 }, SimpleActionView::Activate { player: 0, in_play_idx: 2 }, SimpleActionView::Activate { player: 0, in_play_idx: 3 }],
{
    let ids_a = vec![CardId::A1077Magikarp, CardId::A1155Hitmonchan, CardId::A1059Poliwag];
    assert(ids_a@ == seq![CardId::A1077Magikarp, CardId::A1155Hitmonchan, CardId::A1059Poliwag]);
    let ids_b = vec![CardId::A1189Rattata, CardId::A1059Poliwag];
    assert(ids_b@ == seq![CardId::A1189Rattata, CardId::A1059Poliwag]);
    let mut game = position(deck_of(ids_a, EnergyType::Fighting), deck_of(ids_b, EnergyType::Water));
    let e_b0: Vec<EnergyType> = Vec::new();
    assert(e_b0@ == Seq::<EnergyType>::empty());
    let b0 = placed_at(CardId::A1189Rattata, e_b0, 30);
    let e_b1: Vec<EnergyType> = Vec::new();
    assert(e_b1@ == Seq::<EnergyType>::empty());
    let b1 = placed(CardId::A1059Poliwag, e_b1);
    game.points = [2, 0];
    assert(game.points@ =~= seq![2u8, 0u8]);
    game.energy_zone = [spent_zone(EnergyType::Fighting), game.energy_zone[1]];
    let m = placed(CardId::A1077Magikarp, Vec::new());
    let e_h = vec![EnergyType::Fighting];
    assert(e_h@ == seq![EnergyType::Fighting]);
    let h = placed(CardId::A1155Hitmonchan, e_h);
    let p = placed(CardId::A1059Poliwag, Vec::new());
    let ghost board_b = seq![b0@, b1@];
    game.in_play_pokemon = [[None, Some(m), Some(h), Some(p)], [Some(b0), Some(b1), None, None]];
    assert(forall|i: int| 0 <= i < 4 ==> #[trigger] game.slot(1, i) == row(board_b)[i]);
    let acts = vec![SimpleAction::Activate { player: 0, in_play_idx: 1 }, SimpleAction::Activate { player: 0, in_play_idx: 2 }, SimpleAction::Activate { player: 0, in_play_idx: 3 }];
    assert(acts@.map_values(|a: SimpleAction| a@) =~= seq![SimpleActionView::Activate { player: 0, in_play_idx: 1 }, SimpleActionView::Activate { player: 0, in_play_idx: 2 }, SimpleActionView::Activate { player: 0, in_play_idx: 3 }]);
    game.move_generation_stack.push((0, acts));
    assert(game.winner is None && game.turn_count == 5 && game.current_player == 0);
    assert(game.points@ == seq![2u8, 0u8]);
    assert(game.deck(0) == crate::puzzles::spec_puzzle_deck_cards(seq![CardId::A1077Magikarp, CardId::A1155Hitmonchan, CardId::A1059Poliwag]));
    assert(game.deck(1) == crate::puzzles::spec_puzzle_deck_cards(seq![CardId::A1189Rattata, CardId::A1059Poliwag]));
    assert(game.decks@[0].energy_types@ == seq![EnergyType::Fighting]);
    assert(game.decks@[1].energy_types@ == seq![EnergyType::Water]);
    assert(game.hand(0) == Seq::<CardView>::empty());
    assert(game.hand(1) == Seq::<CardView>::empty());
    assert(game.discard(0).len() == 0 && game.discard(1).len() == 0);
    assert(game.energy_zone@[0] == EnergyZone { current: None, next: Some(EnergyType::Fighting) });
    assert(game.active_stadium is None && !game.has_retreated);
    assert(game.has_used_stadium@ == seq![false, false] && game.turn_effects@.len() == 0);
    assert(forall|i: int| 0 <= i < 4 ==> #[trigger] game.slot(0, i) == seq![None, Some(in_play(CardId::A1077Magikarp, Seq::<EnergyType>::empty())), Some(in_play(CardId::A1155Hitmonchan, seq![EnergyType::Fighting])), Some(in_play(CardId::A1059Poliwag, Seq::<EnergyType>::empty()))][i]);
    assert(forall|i: int| 0 <= i < 4 ==> #[trigger] game.slot(1, i) == row(seq![in_play_at(CardId::A1189Rattata, Seq::<EnergyType>::empty(), 30), in_play(CardId::A1059Poliwag, Seq::<EnergyType>::empty())])[i]);
    let acc0 = activate(2);
    let acceptable = vec![acc0];
    assert(acceptable@ == seq![acc0]);
    Puzzle { name: "promote_the_attacker_after_the_knockout", why: "Only Hitmonchan is paid up, and its Jab covers the opponent's 30 remaining HP.", game, acceptable }
}

/// The puzzles of this group, in a stable order.
pub fn puzzles() -> (r: Vec<Puzzle>)
    ensures
        names_of(r@) == seq!["attach_to_the_bench_attacker_not_the_dead_active"@, "do_not_overextend_energy_onto_the_doomed_active"@, "heal_the_bench_attacker_out_of_cyrus_range"@, "keep_the_damaged_ex_off_the_active_spot"@, "promote_the_attacker_after_the_knockout"@],
        forall|i: int| 0 <= i < r@.len() ==> #[trigger] r@[i].acceptable@.len() > 0,
{
    let p0 = attach_to_the_bench_attacker_not_the_dead_active();
    let p1 = do_not_overextend_energy_onto_the_doomed_active();
    let p2 = heal_the_bench_attacker_out_of_cyrus_range();
    let p3 = keep_the_damaged_ex_off_the_active_spot();
    let p4 = promote_the_attacker_after_the_knockout();
    let r = vec![p0, p1, p2, p3, p4];
    assert(names_of(r@) =~= seq!["attach_to_the_bench_attacker_not_the_dead_active"@, "do_not_overextend_energy_onto_the_doomed_active"@, "heal_the_bench_attacker_out_of_cyrus_range"@, "keep_the_damaged_ex_off_the_active_spot"@, "promote_the_attacker_after_the_knockout"@]);
    r
}

} // verus!
