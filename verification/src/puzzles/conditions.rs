//! Puzzles about Special Conditions. An Asleep or Paralyzed Pokémon can neither attack nor
//! retreat, so those positions are about what else the turn can buy; a Confused Pokémon can still
//! retreat, and getting off the coin flip is usually the point.
use vstd::prelude::*;

use super::support::{
    activate, anything_but_evolving_into, attach_to, attack, deck_of, evolve_at, in_play,
    in_play_at, place_on_bench, placed, placed_at, play, position, puzzle_position, retreat_to,
    row, spent_zone, zone, AcceptableKindView,
};
use super::{names_of, Puzzle};
use crate::actions::{SimpleAction, SimpleActionView};
use crate::database::{get_card_by_enum, spec_card_by_enum, CardId};
use crate::models::{cards_view, Card, CardView, EnergyType, StatusCondition};
use crate::played_card::{PlayedCard, PlayedCardView};
use crate::state::EnergyZone;

verus! {

/// Confusion only gates attacking (a coin flip), not retreating. Gnaw's 20 plus 20 for
/// Magikarp's [L] Weakness would Knock Out its 30 HP, but only on heads. Retreating costs one of
/// Pikachu's two [L] and leaves it holding one, and the Bench Hitmonchan is already paid up: its
/// Jab does 30 into the same 30 HP for the third point in this same turn, with no coin at all.
#[verifier::rlimit(40)]
pub fn retreat_the_confused_active_to_the_loaded_bench() -> (r: Puzzle)
    ensures
        r.name@ == "retreat_the_confused_active_to_the_loaded_bench"@,
        r.why@ == "Attacking through Confusion wins on heads only; retreating into Jab's 30 wins outright."@,
        r.acceptable@.len() == 1,
        r.acceptable@[0].kind@ == AcceptableKindView::RetreatTo(1),
        puzzle_position(
            r.game,
            seq![CardId::A1094Pikachu, CardId::A1155Hitmonchan],
            EnergyType::Lightning,
            seq![CardId::A1077Magikarp, CardId::A1059Poliwag],
            EnergyType::Water,
            row(seq![in_play(CardId::A1094Pikachu, seq![EnergyType::Lightning, EnergyType::Lightning]).with_status(StatusCondition::Confused), in_play(CardId::A1155Hitmonchan, seq![EnergyType::Fighting])]),
            row(seq![in_play(CardId::A1077Magikarp, Seq::<EnergyType>::empty()), in_play(CardId::A1059Poliwag, Seq::<EnergyType>::empty())]),
            Seq::<CardView>::empty(),
            Seq::<CardView>::empty(),
            seq![2u8, 0u8],
            EnergyZone { current: None, next: Some(EnergyType::Lightning) },
        ),
{
    let ids_a = vec![CardId::A1094Pikachu, CardId::A1155Hitmonchan];
    assert(ids_a@ == seq![CardId::A1094Pikachu, CardId::A1155Hitmonchan]);
    let ids_b = vec![CardId::A1077Magikarp, CardId::A1059Poliwag];
    assert(ids_b@ == seq![CardId::A1077Magikarp, CardId::A1059Poliwag]);
    let mut game = position(deck_of(ids_a, EnergyType::Lightning), deck_of(ids_b, EnergyType::Water));
    let e_a0: Vec<EnergyType> = vec![EnergyType::Lightning, EnergyType::Lightning];
    assert(e_a0@ == seq![EnergyType::Lightning, EnergyType::Lightning]);
    let mut a0 = placed(CardId::A1094Pikachu, e_a0);
    a0.set_status_raw(StatusCondition::Confused);
    let e_a1: Vec<EnergyType> = vec![EnergyType::Fighting];
    assert(e_a1@ == seq![EnergyType::Fighting]);
    let a1 = placed(CardId::A1155Hitmonchan, e_a1);
    let e_b0: Vec<EnergyType> = Vec::new();
    assert(e_b0@ == Seq::<EnergyType>::empty());
    let b0 = placed(CardId::A1077Magikarp, e_b0);
    let e_b1: Vec<EnergyType> = Vec::new();
    assert(e_b1@ == Seq::<EnergyType>::empty());
    let b1 = placed(CardId::A1059Poliwag, e_b1);
    let ghost board_a = seq![a0@, a1@];
    let ghost board_b = seq![b0@, b1@];
    let row_a = vec![a0, a1];
    let row_b = vec![b0, b1];
    assert(row_a@.map_values(|c: PlayedCard| c@) =~= board_a);
    assert(row_b@.map_values(|c: PlayedCard| c@) =~= board_b);
    game.points = [2, 0];
    assert(game.points@ =~= seq![2u8, 0u8]);
    game.energy_zone = [spent_zone(EnergyType::Lightning), game.energy_zone[1]];
    game.set_board(row_a, row_b);
    assert(forall|i: int| 0 <= i < 4 ==> #[trigger] game.slot(0, i) == row(board_a)[i]);
    assert(forall|i: int| 0 <= i < 4 ==> #[trigger] game.slot(1, i) == row(board_b)[i]);
    assert(game.winner is None && game.turn_count == 5 && game.current_player == 0);
    assert(game.points@ == seq![2u8, 0u8]);
    assert(game.deck(0) == crate::puzzles::spec_puzzle_deck_cards(seq![CardId::A1094Pikachu, CardId::A1155Hitmonchan]));
    assert(game.deck(1) == crate::puzzles::spec_puzzle_deck_cards(seq![CardId::A1077Magikarp, CardId::A1059Poliwag]));
    assert(game.decks@[0].energy_types@ == seq![EnergyType::Lightning]);
    assert(game.decks@[1].energy_types@ == seq![EnergyType::Water]);
    assert(game.hand(0) == Seq::<CardView>::empty());
    assert(game.hand(1) == Seq::<CardView>::empty());
    assert(game.discard(0).len() == 0 && game.discard(1).len() == 0);
    assert(game.energy_zone@[0] == EnergyZone { current: None, next: Some(EnergyType::Lightning) });
    assert(game.active_stadium is None && !game.has_retreated);
    assert(game.has_used_stadium@ == seq![false, false] && game.turn_effects@.len() == 0);
    assert(forall|i: int| 0 <= i < 4 ==> #[trigger] game.slot(0, i) == row(seq![in_play(CardId::A1094Pikachu, seq![EnergyType::Lightning, EnergyType::Lightning]).with_status(StatusCondition::Confused), in_play(CardId::A1155Hitmonchan, seq![EnergyType::Fighting])])[i]);
    assert(forall|i: int| 0 <= i < 4 ==> #[trigger] game.slot(1, i) == row(seq![in_play(CardId::A1077Magikarp, Seq::<EnergyType>::empty()), in_play(CardId::A1059Poliwag, Seq::<EnergyType>::empty())])[i]);
    let acc0 = retreat_to(1);
    let acceptable = vec![acc0];
    assert(acceptable@ == seq![acc0]);
    Puzzle { name: "retreat_the_confused_active_to_the_loaded_bench", why: "Attacking through Confusion wins on heads only; retreating into Jab's 30 wins outright.", game, acceptable }
}

/// An Asleep Pokémon cannot attack or retreat, so the only thing this turn can buy is Energy on
/// the Bench. Magikarp's Splash does 10 and it is stuck in the Active Spot; Hitmonchan's Jab
/// does 30 and covers the opponent's 30 remaining HP the moment it has one [F].
#[verifier::rlimit(40)]
pub fn asleep_active_attaches_to_the_bench() -> (r: Puzzle)
    ensures
        r.name@ == "asleep_active_attaches_to_the_bench"@,
        r.why@ == "The Asleep Magikarp can do nothing with Energy; one [F] puts Jab's 30 online behind it."@,
        r.acceptable@.len() == 1,
        r.acceptable@[0].kind@ == AcceptableKindView::AttachTo(1),
        puzzle_position(
            r.game,
            seq![CardId::A1077Magikarp, CardId::A1155Hitmonchan],
            EnergyType::Fighting,
            seq![CardId::A1189Rattata, CardId::A1059Poliwag],
            EnergyType::Water,
            row(seq![in_play(CardId::A1077Magikarp, Seq::<EnergyType>::empty()).with_status(StatusCondition::Asleep), in_play(CardId::A1155Hitmonchan, Seq::<EnergyType>::empty())]),
            row(seq![in_play_at(CardId::A1189Rattata, Seq::<EnergyType>::empty(), 30), in_play(CardId::A1059Poliwag, Seq::<EnergyType>::empty())]),
            Seq::<CardView>::empty(),
            Seq::<CardView>::empty(),
            seq![0u8, 0u8],
            EnergyZone { current: Some(EnergyType::Fighting), next: Some(EnergyType::Fighting) },
        ),
{
    let ids_a = vec![CardId::A1077Magikarp, CardId::A1155Hitmonchan];
    assert(ids_a@ == seq![CardId::A1077Magikarp, CardId::A1155Hitmonchan]);
    let ids_b = vec![CardId::A1189Rattata, CardId::A1059Poliwag];
    assert(ids_b@ == seq![CardId::A1189Rattata, CardId::A1059Poliwag]);
    let mut game = position(deck_of(ids_a, EnergyType::Fighting), deck_of(ids_b, EnergyType::Water));
    let e_a0: Vec<EnergyType> = Vec::new();
    assert(e_a0@ == Seq::<EnergyType>::empty());
    let mut a0 = placed(CardId::A1077Magikarp, e_a0);
    a0.set_status_raw(StatusCondition::Asleep);
    let e_a1: Vec<EnergyType> = Vec::new();
    assert(e_a1@ == Seq::<EnergyType>::empty());
    let a1 = placed(CardId::A1155Hitmonchan, e_a1);
    let e_b0: Vec<EnergyType> = Vec::new();
    assert(e_b0@ == Seq::<EnergyType>::empty());
    let b0 = placed_at(CardId::A1189Rattata, e_b0, 30);
    let e_b1: Vec<EnergyType> = Vec::new();
    assert(e_b1@ == Seq::<EnergyType>::empty());
    let b1 = placed(CardId::A1059Poliwag, e_b1);
    let ghost board_a = seq![a0@, a1@];
    let ghost board_b = seq![b0@, b1@];
    let row_a = vec![a0, a1];
    let row_b = vec![b0, b1];
    assert(row_a@.map_values(|c: PlayedCard| c@) =~= board_a);
    assert(row_b@.map_values(|c: PlayedCard| c@) =~= board_b);
    game.energy_zone = [zone(EnergyType::Fighting), game.energy_zone[1]];
    game.set_board(row_a, row_b);
    assert(forall|i: int| 0 <= i < 4 ==> #[trigger] game.slot(0, i) == row(board_a)[i]);
    assert(forall|i: int| 0 <= i < 4 ==> #[trigger] game.slot(1, i) == row(board_b)[i]);
    assert(game.winner is None && game.turn_count == 5 && game.current_player == 0);
    assert(game.points@ == seq![0u8, 0u8]);
    assert(game.deck(0) == crate::puzzles::spec_puzzle_deck_cards(seq![CardId::A1077Magikarp, CardId::A1155Hitmonchan]));
    assert(game.deck(1) == crate::puzzles::spec_puzzle_deck_cards(seq![CardId::A1189Rattata, CardId::A1059Poliwag]));
    assert(game.decks@[0].energy_types@ == seq![EnergyType::Fighting]);
    assert(game.decks@[1].energy_types@ == seq![EnergyType::Water]);
    assert(game.hand(0) == Seq::<CardView>::empty());
    assert(game.hand(1) == Seq::<CardView>::empty());
    assert(game.discard(0).len() == 0 && game.discard(1).len() == 0);
    assert(game.energy_zone@[0] == EnergyZone { current: Some(EnergyType::Fighting), next: Some(EnergyType::Fighting) });
    assert(game.active_stadium is None && !game.has_retreated);
    assert(game.has_used_stadium@ == seq![false, false] && game.turn_effects@.len() == 0);
    assert(forall|i: int| 0 <= i < 4 ==> #[trigger] game.slot(0, i) == row(seq![in_play(CardId::A1077Magikarp, Seq::<EnergyType>::empty()).with_status(StatusCondition::Asleep), in_play(CardId::A1155Hitmonchan, Seq::<EnergyType>::empty())])[i]);
    assert(forall|i: int| 0 <= i < 4 ==> #[trigger] game.slot(1, i) == row(seq![in_play_at(CardId::A1189Rattata, Seq::<EnergyType>::empty(), 30), in_play(CardId::A1059Poliwag, Seq::<EnergyType>::empty())])[i]);
    let acc0 = attach_to(1);
    let acceptable = vec![acc0];
    assert(acceptable@ == seq![acc0]);
    Puzzle { name: "asleep_active_attaches_to_the_bench", why: "The Asleep Magikarp can do nothing with Energy; one [F] puts Jab's 30 online behind it.", game, acceptable }
}

/// Paralysis blocks attacking and retreating, but evolving replaces the card in play and clears
/// Special Conditions with it. Wartortle's Wave Splash costs [W][C], which the two [W] already on
/// Squirtle cover, and its 40 is exactly the Rattata's 40 HP for the third point.
#[verifier::rlimit(40)]
pub fn evolve_out_of_paralysis_to_attack() -> (r: Puzzle)
    ensures
        r.name@ == "evolve_out_of_paralysis_to_attack"@,
        r.why@ == "Evolving clears the Paralysis, and Wave Splash's 40 is the Rattata's 40 HP for the win."@,
        r.acceptable@.len() == 1,
        r.acceptable@[0].kind@ == AcceptableKindView::EvolveAt(0, spec_card_by_enum(CardId::A1054Wartortle).id()),
        puzzle_position(
            r.game,
            seq![CardId::A1053Squirtle, CardId::A1054Wartortle, CardId::A1189Rattata],
            EnergyType::Water,
            seq![CardId::A1189Rattata, CardId::A1059Poliwag],
            EnergyType::Water,
            row(seq![PlayedCardView { paralyzed_on_turn: Some(5u8), ..in_play(CardId::A1053Squirtle, seq![EnergyType::Water, EnergyType::Water]).with_status(StatusCondition::Paralyzed) }, in_play(CardId::A1189Rattata, Seq::<EnergyType>::empty())]),
            row(seq![in_play(CardId::A1189Rattata, Seq::<EnergyType>::empty()), in_play(CardId::A1059Poliwag, Seq::<EnergyType>::empty())]),
            seq![spec_card_by_enum(CardId::A1054Wartortle)],
            Seq::<CardView>::empty(),
            seq![2u8, 0u8],
            EnergyZone { current: None, next: Some(EnergyType::Water) },
        ),
{
    let ids_a = vec![CardId::A1053Squirtle, CardId::A1054Wartortle, CardId::A1189Rattata];
    assert(ids_a@ == seq![CardId::A1053Squirtle, CardId::A1054Wartortle, CardId::A1189Rattata]);
    let ids_b = vec![CardId::A1189Rattata, CardId::A1059Poliwag];
    assert(ids_b@ == seq![CardId::A1189Rattata, CardId::A1059Poliwag]);
    let mut game = position(deck_of(ids_a, EnergyType::Water), deck_of(ids_b, EnergyType::Water));
    let e_a0: Vec<EnergyType> = vec![EnergyType::Water, EnergyType::Water];
    assert(e_a0@ == seq![EnergyType::Water, EnergyType::Water]);
    let mut a0 = placed(CardId::A1053Squirtle, e_a0);
    a0.set_status_raw(StatusCondition::Paralyzed);
    a0.set_paralyzed_on_turn(5);
    let e_a1: Vec<EnergyType> = Vec::new();
    assert(e_a1@ == Seq::<EnergyType>::empty());
    let a1 = placed(CardId::A1189Rattata, e_a1);
    let e_b0: Vec<EnergyType> = Vec::new();
    assert(e_b0@ == Seq::<EnergyType>::empty());
    let b0 = placed(CardId::A1189Rattata, e_b0);
    let e_b1: Vec<EnergyType> = Vec::new();
    assert(e_b1@ == Seq::<EnergyType>::empty());
    let b1 = placed(CardId::A1059Poliwag, e_b1);
    let ghost board_a = seq![a0@, a1@];
    let ghost board_b = seq![b0@, b1@];
    let row_a = vec![a0, a1];
    let row_b = vec![b0, b1];
    assert(row_a@.map_values(|c: PlayedCard| c@) =~= board_a);
    assert(row_b@.map_values(|c: PlayedCard| c@) =~= board_b);
    let hand_a0 = get_card_by_enum(CardId::A1054Wartortle);
    let hand_a = vec![hand_a0];
    assert(cards_view(hand_a@) =~= seq![spec_card_by_enum(CardId::A1054Wartortle)]);
    let hand_b: Vec<Card> = Vec::new();
    game.hands = [hand_a, hand_b];
    game.points = [2, 0];
    assert(game.points@ =~= seq![2u8, 0u8]);
    game.energy_zone = [spent_zone(EnergyType::Water), game.energy_zone[1]];
    game.set_board(row_a, row_b);
    assert(forall|i: int| 0 <= i < 4 ==> #[trigger] game.slot(0, i) == row(board_a)[i]);
    assert(forall|i: int| 0 <= i < 4 ==> #[trigger] game.slot(1, i) == row(board_b)[i]);
    assert(game.winner is None && game.turn_count == 5 && game.current_player == 0);
    assert(game.points@ == seq![2u8, 0u8]);
    assert(game.deck(0) == crate::puzzles::spec_puzzle_deck_cards(seq![CardId::A1053Squirtle, CardId::A1054Wartortle, CardId::A1189Rattata]));
    assert(game.deck(1) == crate::puzzles::spec_puzzle_deck_cards(seq![CardId::A1189Rattata, CardId::A1059Poliwag]));
    assert(game.decks@[0].energy_types@ == seq![EnergyType::Water]);
    assert(game.decks@[1].energy_types@ == seq![EnergyType::Water]);
    assert(game.hand(0) == seq![spec_card_by_enum(CardId::A1054Wartortle)]);
    assert(game.hand(1) == Seq::<CardView>::empty());
    assert(game.discard(0).len() == 0 && game.discard(1).len() == 0);
    assert(game.energy_zone@[0] == EnergyZone { current: None, next: Some(EnergyType::Water) });
    assert(game.active_stadium is None && !game.has_retreated);
    assert(game.has_used_stadium@ == seq![false, false] && game.turn_effects@.len() == 0);
    assert(forall|i: int| 0 <= i < 4 ==> #[trigger] game.slot(0, i) == row(seq![PlayedCardView { paralyzed_on_turn: Some(5u8), ..in_play(CardId::A1053Squirtle, seq![EnergyType::Water, EnergyType::Water]).with_status(StatusCondition::Paralyzed) }, in_play(CardId::A1189Rattata, Seq::<EnergyType>::empty())])[i]);
    assert(forall|i: int| 0 <= i < 4 ==> #[trigger] game.slot(1, i) == row(seq![in_play(CardId::A1189Rattata, Seq::<EnergyType>::empty()), in_play(CardId::A1059Poliwag, Seq::<EnergyType>::empty())])[i]);
    let acc0 = evolve_at(0, CardId::A1054Wartortle);
    let acceptable = vec![acc0];
    assert(acceptable@ == seq![acc0]);
    Puzzle { name: "evolve_out_of_paralysis_to_attack", why: "Evolving clears the Paralysis, and Wave Splash's 40 is the Rattata's 40 HP for the win.", game, acceptable }
}

/// The puzzles of this group, in a stable order.
pub fn puzzles() -> (r: Vec<Puzzle>)
    ensures
        names_of(r@) == seq!["retreat_the_confused_active_to_the_loaded_bench"@, "asleep_active_attaches_to_the_bench"@, "evolve_out_of_paralysis_to_attack"@],
        forall|i: int| 0 <= i < r@.len() ==> #[trigger] r@[i].acceptable@.len() > 0,
{
    let p0 = retreat_the_confused_active_to_the_loaded_bench();
    let p1 = asleep_active_attaches_to_the_bench();
    let p2 = evolve_out_of_paralysis_to_attack();
    let r = vec![p0, p1, p2];
    assert(names_of(r@) =~= seq!["retreat_the_confused_active_to_the_loaded_bench"@, "asleep_active_attaches_to_the_bench"@, "evolve_out_of_paralysis_to_attack"@]);
    r
}

} // verus!
