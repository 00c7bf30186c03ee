//! Puzzles about spending the turn on the board: evolving, Rare Candy, Supporters, the Stadium,
//! and putting the turn's Energy where it does work.
use vstd::prelude::*;

use super::support::{
    activate, anything_but_evolving_into, attach_to, attack, deck_of, evolve_at, in_play,
    in_play_at, place_on_bench, placed, placed_at, play, position, puzzle_position, retreat_to,
    row, spent_zone, zone, AcceptableKindView,
};
use super::{names_of, Puzzle};
use crate::actions::{SimpleAction, SimpleActionView};
use crate::database::{get_card_by_enum, spec_card_by_enum, CardId};
use crate::models::{cards_view, Card, CardView, EnergyType, StatusCondition};
use crate::played_card::{PlayedCard, PlayedCardView};
use crate::state::EnergyZone;

verus! {

/// Squirtle's Water Gun does 20 and leaves the Rattata alive on 40 HP. Evolving first costs the
/// same Energy and Wave Splash's 40 takes the third point in the same turn.
#[verifier::rlimit(40)]
pub fn evolve_before_attacking() -> (r: Puzzle)
    ensures
        r.name@ == "evolve_before_attacking"@,
        r.why@ == "Attacking as Squirtle does 20 into 40 HP; evolving first makes the same turn lethal."@,
        r.acceptable@.len() == 1,
        r.acceptable@[0].kind@ == AcceptableKindView::EvolveAt(0, spec_card_by_enum(CardId::A1054Wartortle).id()),
        puzzle_position(
            r.game,
            seq![CardId::A1053Squirtle, CardId::A1054Wartortle, CardId::A1189Rattata],
            EnergyType::Water,
            seq![CardId::A1189Rattata, CardId::A1059Poliwag],
            EnergyType::Water,
            row(seq![in_play(CardId::A1053Squirtle, seq![EnergyType::Water, EnergyType::Water]), in_play(CardId::A1189Rattata, Seq::<EnergyType>::empty())]),
            row(seq![in_play(CardId::A1189Rattata, Seq::<EnergyType>::empty()), in_play(CardId::A1059Poliwag, Seq::<EnergyType>::empty())]),
            seq![spec_card_by_enum(CardId::A1054Wartortle)],
            Seq::<CardView>::empty(),
            seq![2u8, 0u8],
            EnergyZone { current: None, next: Some(EnergyType::Water) },
        ),
{
    let ids_a = vec![CardId::A1053Squirtle, CardId::A1054Wartortle, CardId::A1189Rattata];
    assert(ids_a@ == seq![CardId::A1053Squirtle, CardId::A1054Wartortle, CardId::A1189Rattata]);
    let ids_b = vec![CardId::A1189Rattata, CardId::A1059Poliwag];
    assert(ids_b@ == seq![CardId::A1189Rattata, CardId::A1059Poliwag]);
    let mut game = position(deck_of(ids_a, EnergyType::Water), deck_of(ids_b, EnergyType::Water));
    let e_a0: Vec<EnergyType> = vec![EnergyType::Water, EnergyType::Water];
    assert(e_a0@ == seq![EnergyType::Water, EnergyType::Water]);
    let a0 = placed(CardId::A1053Squirtle, e_a0);
    let e_a1: Vec<EnergyType> = Vec::new();
    assert(e_a1@ == Seq::<EnergyType>::empty());
    let a1 = placed(CardId::A1189Rattata, e_a1);
    let e_b0: Vec<EnergyType> = Vec::new();
    assert(e_b0@ == Seq::<EnergyType>::empty());
    let b0 = placed(CardId::A1189Rattata, e_b0);
    let e_b1: Vec<EnergyType> = Vec::new();
    assert(e_b1@ == Seq::<EnergyType>::empty());
    let b1 = placed(CardId::A1059Poliwag, e_b1);
    let ghost board_a = seq![a0@, a1@];
    let ghost board_b = seq![b0@, b1@];
    let row_a = vec![a0, a1];
    let row_b = vec![b0, b1];
    assert(row_a@.map_values(|c: PlayedCard| c@) =~= board_a);
    assert(row_b@.map_values(|c: PlayedCard| c@) =~= board_b);
    let hand_a0 = get_card_by_enum(CardId::A1054Wartortle);
    let hand_a = vec![hand_a0];
    assert(cards_view(hand_a@) =~= seq![spec_card_by_enum(CardId::A1054Wartortle)]);
    let hand_b: Vec<Card> = Vec::new();
    game.hands = [hand_a, hand_b];
    game.points = [2, 0];
    assert(game.points@ =~= seq![2u8, 0u8]);
    game.energy_zone = [spent_zone(EnergyType::Water), game.energy_zone[1]];
    game.set_board(row_a, row_b);
    assert(forall|i: int| 0 <= i < 4 ==> #[trigger] game.slot(0, i) == row(board_a)[i]);
    assert(forall|i: int| 0 <= i < 4 ==> #[trigger] game.slot(1, i) == row(board_b)[i]);
    assert(game.winner is None && game.turn_count == 5 && game.current_player == 0);
    assert(game.points@ == seq![2u8, 0u8]);
    assert(game.deck(0) == crate::puzzles::spec_puzzle_deck_cards(seq![CardId::A1053Squirtle, CardId::A1054Wartortle, CardId::A1189Rattata]));
    assert(game.deck(1) == crate::puzzles::spec_puzzle_deck_cards(seq![CardId::A1189Rattata, CardId::A1059Poliwag]));
    assert(game.decks@[0].energy_types@ == seq![EnergyType::Water]);
    assert(game.decks@[1].energy_types@ == seq![EnergyType::Water]);
    assert(game.hand(0) == seq![spec_card_by_enum(CardId::A1054Wartortle)]);
    assert(game.hand(1) == Seq::<CardView>::empty());
    assert(game.discard(0).len() == 0 && game.discard(1).len() == 0);
    assert(game.energy_zone@[0] == EnergyZone { current: None, next: Some(EnergyType::Water) });
    assert(game.active_stadium is None && !game.has_retreated);
    assert(game.has_used_stadium@ == seq![false, false] && game.turn_effects@.len() == 0);
    assert(forall|i: int| 0 <= i < 4 ==> #[trigger] game.slot(0, i) == row(seq![in_play(CardId::A1053Squirtle, seq![EnergyType::Water, EnergyType::Water]), in_play(CardId::A1189Rattata, Seq::<EnergyType>::empty())])[i]);
    assert(forall|i: int| 0 <= i < 4 ==> #[trigger] game.slot(1, i) == row(seq![in_play(CardId::A1189Rattata, Seq::<EnergyType>::empty()), in_play(CardId::A1059Poliwag, Seq::<EnergyType>::empty())])[i]);
    let acc0 = evolve_at(0, CardId::A1054Wartortle);
    let acceptable = vec![acc0];
    assert(acceptable@ == seq![acc0]);
    Puzzle { name: "evolve_before_attacking", why: "Attacking as Squirtle does 20 into 40 HP; evolving first makes the same turn lethal.", game, acceptable }
}

/// The control for the evolution puzzle. Water Gun costs one [W] and its 20 clears the Rattata's
/// 20 remaining HP for the third point. Wartortle is in hand and evolving is free, but Wave
/// Splash costs [W][C] and Squirtle is holding a single [W], so evolving trades the win for a
/// Pokémon that cannot attack at all this turn.
#[verifier::rlimit(40)]
pub fn do_not_evolve_out_of_the_winning_attack() -> (r: Puzzle)
    ensures
        r.name@ == "do_not_evolve_out_of_the_winning_attack"@,
        r.why@ == "Water Gun's 20 wins now; Wartortle's Wave Splash needs a second Energy Squirtle has not got."@,
        r.acceptable@.len() == 1,
        r.acceptable@[0].kind@ == AcceptableKindView::Attack("Water Gun"@),
        puzzle_position(
            r.game,
            seq![CardId::A1053Squirtle, CardId::A1054Wartortle, CardId::A1189Rattata],
            EnergyType::Water,
            seq![CardId::A1189Rattata, CardId::A1059Poliwag],
            EnergyType::Water,
            row(seq![in_play(CardId::A1053Squirtle, seq![EnergyType::Water]), in_play(CardId::A1189Rattata, Seq::<EnergyType>::empty())]),
            row(seq![in_play_at(CardId::A1189Rattata, Seq::<EnergyType>::empty(), 20), in_play(CardId::A1059Poliwag, Seq::<EnergyType>::empty())]),
            seq![spec_card_by_enum(CardId::A1054Wartortle)],
            Seq::<CardView>::empty(),
            seq![2u8, 0u8],
            EnergyZone { current: None, next: Some(EnergyType::Water) },
        ),
{
    let ids_a = vec![CardId::A1053Squirtle, CardId::A1054Wartortle, CardId::A1189Rattata];
    assert(ids_a@ == seq![CardId::A1053Squirtle, CardId::A1054Wartortle, CardId::A1189Rattata]);
    let ids_b = vec![CardId::A1189Rattata, CardId::A1059Poliwag];
    assert(ids_b@ == seq![CardId::A1189Rattata, CardId::A1059Poliwag]);
    let mut game = position(deck_of(ids_a, EnergyType::Water), deck_of(ids_b, EnergyType::Water));
    let e_a0: Vec<EnergyType> = vec![EnergyType::Water];
    assert(e_a0@ == seq![EnergyType::Water]);
    let a0 = placed(CardId::A1053Squirtle, e_a0);
    let e_a1: Vec<EnergyType> = Vec::new();
    assert(e_a1@ == Seq::<EnergyType>::empty());
    let a1 = placed(CardId::A1189Rattata, e_a1);
    let e_b0: Vec<EnergyType> = Vec::new();
    assert(e_b0@ == Seq::<EnergyType>::empty());
    let b0 = placed_at(CardId::A1189Rattata, e_b0, 20);
    let e_b1: Vec<EnergyType> = Vec::new();
    assert(e_b1@ == Seq::<EnergyType>::empty());
    let b1 = placed(CardId::A1059Poliwag, e_b1);
    let ghost board_a = seq![a0@, a1@];
    let ghost board_b = seq![b0@, b1@];
    let row_a = vec![a0, a1];
    let row_b = vec![b0, b1];
    assert(row_a@.map_values(|c: PlayedCard| c@) =~= board_a);
    assert(row_b@.map_values(|c: PlayedCard| c@) =~= board_b);
    let hand_a0 = get_card_by_enum(CardId::A1054Wartortle);
    let hand_a = vec![hand_a0];
    assert(cards_view(hand_a@) =~= seq![spec_card_by_enum(CardId::A1054Wartortle)]);
    let hand_b: Vec<Card> = Vec::new();
    game.hands = [hand_a, hand_b];
    game.points = [2, 0];
    assert(game.points@ =~= seq![2u8, 0u8]);
    game.energy_zone = [spent_zone(EnergyType::Water), game.energy_zone[1]];
    game.set_board(row_a, row_b);
    assert(forall|i: int| 0 <= i < 4 ==> #[trigger] game.slot(0, i) == row(board_a)[i]);
    assert(forall|i: int| 0 <= i < 4 ==> #[trigger] game.slot(1, i) == row(board_b)[i]);
    assert(game.winner is None && game.turn_count == 5 && game.current_player == 0);
    assert(game.points@ == seq![2u8, 0u8]);
    assert(game.deck(0) == crate::puzzles::spec_puzzle_deck_cards(seq![CardId::A1053Squirtle, CardId::A1054Wartortle, CardId::A1189Rattata]));
    assert(game.deck(1) == crate::puzzles::spec_puzzle_deck_cards(seq![CardId::A1189Rattata, CardId::A1059Poliwag]));
    assert(game.decks@[0].energy_types@ == seq![EnergyType::Water]);
    assert(game.decks@[1].energy_types@ == seq![EnergyType::Water]);
    assert(game.hand(0) == seq![spec_card_by_enum(CardId::A1054Wartortle)]);
    assert(game.hand(1) == Seq::<CardView>::empty());
    assert(game.discard(0).len() == 0 && game.discard(1).len() == 0);
    assert(game.energy_zone@[0] == EnergyZone { current: None, next: Some(EnergyType::Water) });
    assert(game.active_stadium is None && !game.has_retreated);
    assert(game.has_used_stadium@ == seq![false, false] && game.turn_effects@.len() == 0);
    assert(forall|i: int| 0 <= i < 4 ==> #[trigger] game.slot(0, i) == row(seq![in_play(CardId::A1053Squirtle, seq![EnergyType::Water]), in_play(CardId::A1189Rattata, Seq::<EnergyType>::empty())])[i]);
    assert(forall|i: int| 0 <= i < 4 ==> #[trigger] game.slot(1, i) == row(seq![in_play_at(CardId::A1189Rattata, Seq::<EnergyType>::empty(), 20), in_play(CardId::A1059Poliwag, Seq::<EnergyType>::empty())])[i]);
    let acc0 = attack("Water Gun");
    let acceptable = vec![acc0];
    assert(acceptable@ == seq![acc0]);
    Puzzle { name: "do_not_evolve_out_of_the_winning_attack", why: "Water Gun's 20 wins now; Wartortle's Wave Splash needs a second Energy Squirtle has not got.", game, acceptable }
}

/// Machop holds three [F] and Machamp is in hand with no Machoke anywhere, so Rare Candy is the
/// only way to reach Seismic Toss. Knuckle Punch does 20 plus 20 for Chansey's [F] Weakness and
/// leaves it on 60; Seismic Toss does 100 plus the same 20 and clears its 100 remaining HP.
#[verifier::rlimit(40)]
pub fn rare_candy_enables_the_knockout() -> (r: Puzzle)
    ensures
        r.name@ == "rare_candy_enables_the_knockout"@,
        r.why@ == "Rare Candy skips Machoke, and Seismic Toss plus Weakness clears Chansey for the win."@,
        r.acceptable@.len() == 1,
        r.acceptable@[0].kind@ == AcceptableKindView::Play("Rare Candy"@),
        puzzle_position(
            r.game,
            seq![CardId::A1143Machop, CardId::A1145Machamp, CardId::A3144RareCandy],
            EnergyType::Fighting,
            seq![CardId::A1202Chansey, CardId::A1059Poliwag],
            EnergyType::Water,
            row(seq![in_play(CardId::A1143Machop, seq![EnergyType::Fighting, EnergyType::Fighting, EnergyType::Fighting]), in_play(CardId::A1189Rattata, Seq::<EnergyType>::empty())]),
            row(seq![in_play_at(CardId::A1202Chansey, Seq::<EnergyType>::empty(), 100), in_play(CardId::A1059Poliwag, Seq::<EnergyType>::empty())]),
            seq![spec_card_by_enum(CardId::A1145Machamp), spec_card_by_enum(CardId::A3144RareCandy)],
            Seq::<CardView>::empty(),
            seq![2u8, 0u8],
            EnergyZone { current: None, next: Some(EnergyType::Fighting) },
        ),
{
    let ids_a = vec![CardId::A1143Machop, CardId::A1145Machamp, CardId::A3144RareCandy];
    assert(ids_a@ == seq![CardId::A1143Machop, CardId::A1145Machamp, CardId::A3144RareCandy]);
    let ids_b = vec![CardId::A1202Chansey, CardId::A1059Poliwag];
    assert(ids_b@ == seq![CardId::A1202Chansey, CardId::A1059Poliwag]);
    let mut game = position(deck_of(ids_a, EnergyType::Fighting), deck_of(ids_b, EnergyType::Water));
    let e_a0: Vec<EnergyType> = vec![EnergyType::Fighting, EnergyType::Fighting, EnergyType::Fighting];
    assert(e_a0@ == seq![EnergyType::Fighting, EnergyType::Fighting, EnergyType::Fighting]);
    let a0 = placed(CardId::A1143Machop, e_a0);
    let e_a1: Vec<EnergyType> = Vec::new();
    assert(e_a1@ == Seq::<EnergyType>::empty());
    let a1 = placed(CardId::A1189Rattata, e_a1);
    let e_b0: Vec<EnergyType> = Vec::new();
    assert(e_b0@ == Seq::<EnergyType>::empty());
    let b0 = placed_at(CardId::A1202Chansey, e_b0, 100);
    let e_b1: Vec<EnergyType> = Vec::new();
    assert(e_b1@ == Seq::<EnergyType>::empty());
    let b1 = placed(CardId::A1059Poliwag, e_b1);
    let ghost board_a = seq![a0@, a1@];
    let ghost board_b = seq![b0@, b1@];
    let row_a = vec![a0, a1];
    let row_b = vec![b0, b1];
    assert(row_a@.map_values(|c: PlayedCard| c@) =~= board_a);
    assert(row_b@.map_values(|c: PlayedCard| c@) =~= board_b);
    let hand_a0 = get_card_by_enum(CardId::A1145Machamp);
    let hand_a1 = get_card_by_enum(CardId::A3144RareCandy);
    let hand_a = vec![hand_a0, hand_a1];
    assert(cards_view(hand_a@) =~= seq![spec_card_by_enum(CardId::A1145Machamp), spec_card_by_enum(CardId::A3144RareCandy)]);
    let hand_b: Vec<Card> = Vec::new();
    game.hands = [hand_a, hand_b];
    game.points = [2, 0];
    assert(game.points@ =~= seq![2u8, 0u8]);
    game.energy_zone = [spent_zone(EnergyType::Fighting), game.energy_zone[1]];
    game.set_board(row_a, row_b);
    assert(forall|i: int| 0 <= i < 4 ==> #[trigger] game.slot(0, i) == row(board_a)[i]);
    assert(forall|i: int| 0 <= i < 4 ==> #[trigger] game.slot(1, i) == row(board_b)[i]);
    assert(game.winner is None && game.turn_count == 5 && game.current_player == 0);
    assert(game.points@ == seq![2u8, 0u8]);
    assert(game.deck(0) == crate::puzzles::spec_puzzle_deck_cards(seq![CardId::A1143Machop, CardId::A1145Machamp, CardId::A3144RareCandy]));
    assert(game.deck(1) == crate::puzzles::spec_puzzle_deck_cards(seq![CardId::A1202Chansey, CardId::A1059Poliwag]));
    assert(game.decks@[0].energy_types@ == seq![EnergyType::Fighting]);
    assert(game.decks@[1].energy_types@ == seq![EnergyType::Water]);
    assert(game.hand(0) == seq![spec_card_by_enum(CardId::A1145Machamp), spec_card_by_enum(CardId::A3144RareCandy)]);
    assert(game.hand(1) == Seq::<CardView>::empty());
    assert(game.discard(0).len() == 0 && game.discard(1).len() == 0);
    assert(game.energy_zone@[0] == EnergyZone { current: None, next: Some(EnergyType::Fighting) });
    assert(game.active_stadium is None && !game.has_retreated);
    assert(game.has_used_stadium@ == seq![false, false] && game.turn_effects@.len() == 0);
    assert(forall|i: int| 0 <= i < 4 ==> #[trigger] game.slot(0, i) == row(seq![in_play(CardId::A1143Machop, seq![EnergyType::Fighting, EnergyType::Fighting, EnergyType::Fighting]), in_play(CardId::A1189Rattata, Seq::<EnergyType>::empty())])[i]);
    assert(forall|i: int| 0 <= i < 4 ==> #[trigger] game.slot(1, i) == row(seq![in_play_at(CardId::A1202Chansey, Seq::<EnergyType>::empty(), 100), in_play(CardId::A1059Poliwag, Seq::<EnergyType>::empty())])[i]);
    let acc0 = play("Rare Candy");
    let acceptable = vec![acc0];
    assert(acceptable@ == seq![acc0]);
    Puzzle { name: "rare_candy_enables_the_knockout", why: "Rare Candy skips Machoke, and Seismic Toss plus Weakness clears Chansey for the win.", game, acceptable }
}

/// Staryu is on 10 remaining HP and the damage carries onto whatever it evolves into. Electro
/// Ball does 70 plus 20 for the [L] Weakness, which is 90: exactly the 130 HP Starmie ex minus
/// the 40 damage already on Staryu. Evolving therefore converts a 1-point loss into the 2-point
/// loss that puts the opponent on three. Staryu retreats for one [W] instead, and Hitmonchan has
/// no [L] Weakness, so the same Electro Ball does only 70 into its 80 HP.
#[verifier::rlimit(40)]
pub fn do_not_evolve_into_the_two_point_target() -> (r: Puzzle)
    ensures
        r.name@ == "do_not_evolve_into_the_two_point_target"@,
        r.why@ == "Electro Ball plus Weakness is exactly lethal on the evolved Starmie ex, and it pays 2 points."@,
        r.acceptable@.len() == 1,
        r.acceptable@[0].kind@ == AcceptableKindView::AnythingButEvolvingInto(spec_card_by_enum(CardId::A1076StarmieEx).id()),
        puzzle_position(
            r.game,
            seq![CardId::A1074Staryu, CardId::A1076StarmieEx, CardId::A1155Hitmonchan],
            EnergyType::Water,
            seq![CardId::A1099Voltorb, CardId::A1100Electrode],
            EnergyType::Lightning,
            row(seq![in_play_at(CardId::A1074Staryu, seq![EnergyType::Water], 10), in_play(CardId::A1155Hitmonchan, seq![EnergyType::Fighting])]),
            row(seq![in_play(CardId::A1100Electrode, seq![EnergyType::Lightning, EnergyType::Lightning]), in_play(CardId::A1059Poliwag, Seq::<EnergyType>::empty())]),
            seq![spec_card_by_enum(CardId::A1076StarmieEx)],
            Seq::<CardView>::empty(),
            seq![1u8, 1u8],
            EnergyZone { current: None, next: Some(EnergyType::Water) },
        ),
{
    let ids_a = vec![CardId::A1074Staryu, CardId::A1076StarmieEx, CardId::A1155Hitmonchan];
    assert(ids_a@ == seq![CardId::A1074Staryu, CardId::A1076StarmieEx, CardId::A1155Hitmonchan]);
    let ids_b = vec![CardId::A1099Voltorb, CardId::A1100Electrode];
    assert(ids_b@ == seq![CardId::A1099Voltorb, CardId::A1100Electrode]);
    let mut game = position(deck_of(ids_a, EnergyType::Water), deck_of(ids_b, EnergyType::Lightning));
    let e_a0: Vec<EnergyType> = vec![EnergyType::Water];
    assert(e_a0@ == seq![EnergyType::Water]);
    let a0 = placed_at(CardId::A1074Staryu, e_a0, 10);
    let e_a1: Vec<EnergyType> = vec![EnergyType::Fighting];
    assert(e_a1@ == seq![EnergyType::Fighting]);
    let a1 = placed(CardId::A1155Hitmonchan, e_a1);
    let e_b0: Vec<EnergyType> = vec![EnergyType::Lightning, EnergyType::Lightning];
    assert(e_b0@ == seq![EnergyType::Lightning, EnergyType::Lightning]);
    let b0 = placed(CardId::A1100Electrode, e_b0);
    let e_b1: Vec<EnergyType> = Vec::new();
    assert(e_b1@ == Seq::<EnergyType>::empty());
    let b1 = placed(CardId::A1059Poliwag, e_b1);
    let ghost board_a = seq![a0@, a1@];
    let ghost board_b = seq![b0@, b1@];
    let row_a = vec![a0, a1];
    let row_b = vec![b0, b1];
    assert(row_a@.map_values(|c: PlayedCard| c@) =~= board_a);
    assert(row_b@.map_values(|c: PlayedCard| c@) =~= board_b);
    let hand_a0 = get_card_by_enum(CardId::A1076StarmieEx);
    let hand_a = vec![hand_a0];
    assert(cards_view(hand_a@) =~= seq![spec_card_by_enum(CardId::A1076StarmieEx)]);
    let hand_b: Vec<Card> = Vec::new();
    game.hands = [hand_a, hand_b];
    game.points = [1, 1];
    assert(game.points@ =~= seq![1u8, 1u8]);
    game.energy_zone = [spent_zone(EnergyType::Water), game.energy_zone[1]];
    game.set_board(row_a, row_b);
    assert(forall|i: int| 0 <= i < 4 ==> #[trigger] game.slot(0, i) == row(board_a)[i]);
    assert(forall|i: int| 0 <= i < 4 ==> #[trigger] game.slot(1, i) == row(board_b)[i]);
    assert(game.winner is None && game.turn_count == 5 && game.current_player == 0);
    assert(game.points@ == seq![1u8, 1u8]);
    assert(game.deck(0) == crate::puzzles::spec_puzzle_deck_cards(seq![CardId::A1074Staryu, CardId::A1076StarmieEx, CardId::A1155Hitmonchan]));
    assert(game.deck(1) == crate::puzzles::spec_puzzle_deck_cards(seq![CardId::A1099Voltorb, CardId::A1100Electrode]));
    assert(game.decks@[0].energy_types@ == seq![EnergyType::Water]);
    assert(game.decks@[1].energy_types@ == seq![EnergyType::Lightning]);
    assert(game.hand(0) == seq![spec_card_by_enum(CardId::A1076StarmieEx)]);
    assert(game.hand(1) == Seq::<CardView>::empty());
    assert(game.discard(0).len() == 0 && game.discard(1).len() == 0);
    assert(game.energy_zone@[0] == EnergyZone { current: None, next: Some(EnergyType::Water) });
    assert(game.active_stadium is None && !game.has_retreated);
    assert(game.has_used_stadium@ == seq![false, false] && game.turn_effects@.len() == 0);
    assert(forall|i: int| 0 <= i < 4 ==> #[trigger] game.slot(0, i) == row(seq![in_play_at(CardId::A1074Staryu, seq![EnergyType::Water], 10), in_play(CardId::A1155Hitmonchan, seq![EnergyType::Fighting])])[i]);
    assert(forall|i: int| 0 <= i < 4 ==> #[trigger] game.slot(1, i) == row(seq![in_play(CardId::A1100Electrode, seq![EnergyType::Lightning, EnergyType::Lightning]), in_play(CardId::A1059Poliwag, Seq::<EnergyType>::empty())])[i]);
    let acc0 = anything_but_evolving_into(CardId::A1076StarmieEx);
    let acceptable = vec![acc0];
    assert(acceptable@ == seq![acc0]);
    Puzzle { name: "do_not_evolve_into_the_two_point_target", why: "Electro Ball plus Weakness is exactly lethal on the evolved Starmie ex, and it pays 2 points.", game, acceptable }
}

/// Hitmonchan has no Energy, so there is no attack and no retreat, and the Bench is empty.
/// Professor's Research draws two, which is the only way this turn improves anything.
#[verifier::rlimit(40)]
pub fn professors_research_when_the_board_is_empty_of_basics() -> (r: Puzzle)
    ensures
        r.name@ == "professors_research_when_the_board_is_empty_of_basics"@,
        r.why@ == "Drawing 2 is free and is the only route to a Basic for the empty Bench; passing is not."@,
        r.acceptable@.len() == 1,
        r.acceptable@[0].kind@ == AcceptableKindView::Play("Professor's Research"@),
        puzzle_position(
            r.game,
            seq![CardId::A1155Hitmonchan, CardId::A1143Machop, CardId::PA007ProfessorsResearch],
            EnergyType::Fighting,
            seq![CardId::A1211Snorlax, CardId::A1059Poliwag],
            EnergyType::Fighting,
            row(seq![in_play(CardId::A1155Hitmonchan, Seq::<EnergyType>::empty())]),
            row(seq![in_play(CardId::A1211Snorlax, Seq::<EnergyType>::empty()), in_play(CardId::A1059Poliwag, Seq::<EnergyType>::empty())]),
            seq![spec_card_by_enum(CardId::PA007ProfessorsResearch)],
            Seq::<CardView>::empty(),
            seq![0u8, 0u8],
            EnergyZone { current: None, next: Some(EnergyType::Fighting) },
        ),
{
    let ids_a = vec![CardId::A1155Hitmonchan, CardId::A1143Machop, CardId::PA007ProfessorsResearch];
    assert(ids_a@ == seq![CardId::A1155Hitmonchan, CardId::A1143Machop, CardId::PA007ProfessorsResearch]);
    let ids_b = vec![CardId::A1211Snorlax, CardId::A1059Poliwag];
    assert(ids_b@ == seq![CardId::A1211Snorlax, CardId::A1059Poliwag]);
    let mut game = position(deck_of(ids_a, EnergyType::Fighting), deck_of(ids_b, EnergyType::Fighting));
    let e_a0: Vec<EnergyType> = Vec::new();
    assert(e_a0@ == Seq::<EnergyType>::empty());
    let a0 = placed(CardId::A1155Hitmonchan, e_a0);
    let e_b0: Vec<EnergyType> = Vec::new();
    assert(e_b0@ == Seq::<EnergyType>::empty());
    let b0 = placed(CardId::A1211Snorlax, e_b0);
    let e_b1: Vec<EnergyType> = Vec::new();
    assert(e_b1@ == Seq::<EnergyType>::empty());
    let b1 = placed(CardId::A1059Poliwag, e_b1);
    let ghost board_a = seq![a0@];
    let ghost board_b = seq![b0@, b1@];
    let row_a = vec![a0];
    let row_b = vec![b0, b1];
    assert(row_a@.map_values(|c: PlayedCard| c@) =~= board_a);
    assert(row_b@.map_values(|c: PlayedCard| c@) =~= board_b);
    let hand_a0 = get_card_by_enum(CardId::PA007ProfessorsResearch);
    let hand_a = vec![hand_a0];
    assert(cards_view(hand_a@) =~= seq![spec_card_by_enum(CardId::PA007ProfessorsResearch)]);
    let hand_b: Vec<Card> = Vec::new();
    game.hands = [hand_a, hand_b];
    game.energy_zone = [spent_zone(EnergyType::Fighting), game.energy_zone[1]];
    game.set_board(row_a, row_b);
    assert(forall|i: int| 0 <= i < 4 ==> #[trigger] game.slot(0, i) == row(board_a)[i]);
    assert(forall|i: int| 0 <= i < 4 ==> #[trigger] game.slot(1, i) == row(board_b)[i]);
    assert(game.winner is None && game.turn_count == 5 && game.current_player == 0);
    assert(game.points@ == seq![0u8, 0u8]);
    assert(game.deck(0) == crate::puzzles::spec_puzzle_deck_cards(seq![CardId::A1155Hitmonchan, CardId::A1143Machop, CardId::PA007ProfessorsResearch]));
    assert(game.deck(1) == crate::puzzles::spec_puzzle_deck_cards(seq![CardId::A1211Snorlax, CardId::A1059Poliwag]));
    assert(game.decks@[0].energy_types@ == seq![EnergyType::Fighting]);
    assert(game.decks@[1].energy_types@ == seq![EnergyType::Fighting]);
    assert(game.hand(0) == seq![spec_card_by_enum(CardId::PA007ProfessorsResearch)]);
    assert(game.hand(1) == Seq::<CardView>::empty());
    assert(game.discard(0).len() == 0 && game.discard(1).len() == 0);
    assert(game.energy_zone@[0] == EnergyZone { current: None, next: Some(EnergyType::Fighting) });
    assert(game.active_stadium is None && !game.has_retreated);
    assert(game.has_used_stadium@ == seq![false, false] && game.turn_effects@.len() == 0);
    assert(forall|i: int| 0 <= i < 4 ==> #[trigger] game.slot(0, i) == row(seq![in_play(CardId::A1155Hitmonchan, Seq::<EnergyType>::empty())])[i]);
    assert(forall|i: int| 0 <= i < 4 ==> #[trigger] game.slot(1, i) == row(seq![in_play(CardId::A1211Snorlax, Seq::<EnergyType>::empty()), in_play(CardId::A1059Poliwag, Seq::<EnergyType>::empty())])[i]);
    let acc0 = play("Professor's Research");
    let acceptable = vec![acc0];
    assert(acceptable@ == seq![acc0]);
    Puzzle { name: "professors_research_when_the_board_is_empty_of_basics", why: "Drawing 2 is free and is the only route to a Basic for the empty Bench; passing is not.", game, acceptable }
}

/// Magikarp has 30 HP and the opponent's Pikachu is holding its [L]: Gnaw's 20 plus 20 for
/// Magikarp's [L] Weakness is 40. With an empty Bench that Knock Out ends the game on the spot,
/// so the Basic in hand has to go down now.
#[verifier::rlimit(40)]
pub fn bench_a_second_attacker_before_the_active_dies() -> (r: Puzzle)
    ensures
        r.name@ == "bench_a_second_attacker_before_the_active_dies"@,
        r.why@ == "Gnaw plus Weakness clears Magikarp's 30 HP, and an empty Bench loses the game outright."@,
        r.acceptable@.len() == 1,
        r.acceptable@[0].kind@ == AcceptableKindView::PlaceOnBench(spec_card_by_enum(CardId::A1155Hitmonchan).id()),
        puzzle_position(
            r.game,
            seq![CardId::A1077Magikarp, CardId::A1155Hitmonchan],
            EnergyType::Water,
            seq![CardId::A1094Pikachu, CardId::A1059Poliwag],
            EnergyType::Lightning,
            row(seq![in_play(CardId::A1077Magikarp, Seq::<EnergyType>::empty())]),
            row(seq![in_play(CardId::A1094Pikachu, seq![EnergyType::Lightning]), in_play(CardId::A1059Poliwag, Seq::<EnergyType>::empty())]),
            seq![spec_card_by_enum(CardId::A1155Hitmonchan)],
            Seq::<CardView>::empty(),
            seq![0u8, 0u8],
            EnergyZone { current: None, next: Some(EnergyType::Water) },
        ),
{
    let ids_a = vec![CardId::A1077Magikarp, CardId::A1155Hitmonchan];
    assert(ids_a@ == seq![CardId::A1077Magikarp, CardId::A1155Hitmonchan]);
    let ids_b = vec![CardId::A1094Pikachu, CardId::A1059Poliwag];
    assert(ids_b@ == seq![CardId::A1094Pikachu, CardId::A1059Poliwag]);
    let mut game = position(deck_of(ids_a, EnergyType::Water), deck_of(ids_b, EnergyType::Lightning));
    let e_a0: Vec<EnergyType> = Vec::new();
    assert(e_a0@ == Seq::<EnergyType>::empty());
    let a0 = placed(CardId::A1077Magikarp, e_a0);
    let e_b0: Vec<EnergyType> = vec![EnergyType::Lightning];
    assert(e_b0@ == seq![EnergyType::Lightning]);
    let b0 = placed(CardId::A1094Pikachu, e_b0);
    let e_b1: Vec<EnergyType> = Vec::new();
    assert(e_b1@ == Seq::<EnergyType>::empty());
    let b1 = placed(CardId::A1059Poliwag, e_b1);
    let ghost board_a = seq![a0@];
    let ghost board_b = seq![b0@, b1@];
    let row_a = vec![a0];
    let row_b = vec![b0, b1];
    assert(row_a@.map_values(|c: PlayedCard| c@) =~= board_a);
    assert(row_b@.map_values(|c: PlayedCard| c@) =~= board_b);
    let hand_a0 = get_card_by_enum(CardId::A1155Hitmonchan);
    let hand_a = vec![hand_a0];
    assert(cards_view(hand_a@) =~= seq![spec_card_by_enum(CardId::A1155Hitmonchan)]);
    let hand_b: Vec<Card> = Vec::new();
    game.hands = [hand_a, hand_b];
    game.energy_zone = [spent_zone(EnergyType::Water), game.energy_zone[1]];
    game.set_board(row_a, row_b);
    assert(forall|i: int| 0 <= i < 4 ==> #[trigger] game.slot(0, i) == row(board_a)[i]);
    assert(forall|i: int| 0 <= i < 4 ==> #[trigger] game.slot(1, i) == row(board_b)[i]);
    assert(game.winner is None && game.turn_count == 5 && game.current_player == 0);
    assert(game.points@ == seq![0u8, 0u8]);
    assert(game.deck(0) == crate::puzzles::spec_puzzle_deck_cards(seq![CardId::A1077Magikarp, CardId::A1155Hitmonchan]));
    assert(game.deck(1) == crate::puzzles::spec_puzzle_deck_cards(seq![CardId::A1094Pikachu, CardId::A1059Poliwag]));
    assert(game.decks@[0].energy_types@ == seq![EnergyType::Water]);
    assert(game.decks@[1].energy_types@ == seq![EnergyType::Lightning]);
    assert(game.hand(0) == seq![spec_card_by_enum(CardId::A1155Hitmonchan)]);
    assert(game.hand(1) == Seq::<CardView>::empty());
    assert(game.discard(0).len() == 0 && game.discard(1).len() == 0);
    assert(game.energy_zone@[0] == EnergyZone { current: None, next: Some(EnergyType::Water) });
    assert(game.active_stadium is None && !game.has_retreated);
    assert(game.has_used_stadium@ == seq![false, false] && game.turn_effects@.len() == 0);
    assert(forall|i: int| 0 <= i < 4 ==> #[trigger] game.slot(0, i) == row(seq![in_play(CardId::A1077Magikarp, Seq::<EnergyType>::empty())])[i]);
    assert(forall|i: int| 0 <= i < 4 ==> #[trigger] game.slot(1, i) == row(seq![in_play(CardId::A1094Pikachu, seq![EnergyType::Lightning]), in_play(CardId::A1059Poliwag, Seq::<EnergyType>::empty())])[i]);
    let acc0 = place_on_bench(CardId::A1155Hitmonchan);
    let acceptable = vec![acc0];
    assert(acceptable@ == seq![acc0]);
    Puzzle { name: "bench_a_second_attacker_before_the_active_dies", why: "Gnaw plus Weakness clears Magikarp's 30 HP, and an empty Bench loses the game outright.", game, acceptable }
}

/// Training Area gives Stage 1 attackers +10 against the Active Pokémon. Starmie's Wave Splash
/// does 40 into a Chansey on 50 remaining HP; with the Stadium down it does 50. The opponent has
/// only Basics in play, so the Stadium gives them nothing back.
#[verifier::rlimit(40)]
pub fn stadium_that_swings_the_damage() -> (r: Puzzle)
    ensures
        r.name@ == "stadium_that_swings_the_damage"@,
        r.why@ == "Training Area's +10 for a Stage 1 attacker turns Wave Splash's 40 into the exact 50 needed."@,
        r.acceptable@.len() == 1,
        r.acceptable@[0].kind@ == AcceptableKindView::Play("Training Area"@),
        puzzle_position(
            r.game,
            seq![CardId::A1074Staryu, CardId::A1075Starmie, CardId::B2153TrainingArea],
            EnergyType::Water,
            seq![CardId::A1202Chansey, CardId::A1059Poliwag],
            EnergyType::Water,
            row(seq![in_play(CardId::A1075Starmie, seq![EnergyType::Water]), in_play(CardId::A1189Rattata, Seq::<EnergyType>::empty())]),
            row(seq![in_play_at(CardId::A1202Chansey, Seq::<EnergyType>::empty(), 50), in_play(CardId::A1059Poliwag, Seq::<EnergyType>::empty())]),
            seq![spec_card_by_enum(CardId::B2153TrainingArea)],
            Seq::<CardView>::empty(),
            seq![2u8, 0u8],
            EnergyZone { current: None, next: Some(EnergyType::Water) },
        ),
{
    let ids_a = vec![CardId::A1074Staryu, CardId::A1075Starmie, CardId::B2153TrainingArea];
    assert(ids_a@ == seq![CardId::A1074Staryu, CardId::A1075Starmie, CardId::B2153TrainingArea]);
    let ids_b = vec![CardId::A1202Chansey, CardId::A1059Poliwag];
    assert(ids_b@ == seq![CardId::A1202Chansey, CardId::A1059Poliwag]);
    let mut game = position(deck_of(ids_a, EnergyType::Water), deck_of(ids_b, EnergyType::Water));
    let e_a0: Vec<EnergyType> = vec![EnergyType::Water];
    assert(e_a0@ == seq![EnergyType::Water]);
    let a0 = placed(CardId::A1075Starmie, e_a0);
    let e_a1: Vec<EnergyType> = Vec::new();
    assert(e_a1@ == Seq::<EnergyType>::empty());
    let a1 = placed(CardId::A1189Rattata, e_a1);
    let e_b0: Vec<EnergyType> = Vec::new();
    assert(e_b0@ == Seq::<EnergyType>::empty());
    let b0 = placed_at(CardId::A1202Chansey, e_b0, 50);
    let e_b1: Vec<EnergyType> = Vec::new();
    assert(e_b1@ == Seq::<EnergyType>::empty());
    let b1 = placed(CardId::A1059Poliwag, e_b1);
    let ghost board_a = seq![a0@, a1@];
    let ghost board_b = seq![b0@, b1@];
    let row_a = vec![a0, a1];
    let row_b = vec![b0, b1];
    assert(row_a@.map_values(|c: PlayedCard| c@) =~= board_a);
    assert(row_b@.map_values(|c: PlayedCard| c@) =~= board_b);
    let hand_a0 = get_card_by_enum(CardId::B2153TrainingArea);
    let hand_a = vec![hand_a0];
    assert(cards_view(hand_a@) =~= seq![spec_card_by_enum(CardId::B2153TrainingArea)]);
    let hand_b: Vec<Card> = Vec::new();
    game.hands = [hand_a, hand_b];
    game.points = [2, 0];
    assert(game.points@ =~= seq![2u8, 0u8]);
    game.energy_zone = [spent_zone(EnergyType::Water), game.energy_zone[1]];
    game.set_board(row_a, row_b);
    assert(forall|i: int| 0 <= i < 4 ==> #[trigger] game.slot(0, i) == row(board_a)[i]);
    assert(forall|i: int| 0 <= i < 4 ==> #[trigger] game.slot(1, i) == row(board_b)[i]);
    assert(game.winner is None && game.turn_count == 5 && game.current_player == 0);
    assert(game.points@ == seq![2u8, 0u8]);
    assert(game.deck(0) == crate::puzzles::spec_puzzle_deck_cards(seq![CardId::A1074Staryu, CardId::A1075Starmie, CardId::B2153TrainingArea]));
    assert(game.deck(1) == crate::puzzles::spec_puzzle_deck_cards(seq![CardId::A1202Chansey, CardId::A1059Poliwag]));
    assert(game.decks@[0].energy_types@ == seq![EnergyType::Water]);
    assert(game.decks@[1].energy_types@ == seq![EnergyType::Water]);
    assert(game.hand(0) == seq![spec_card_by_enum(CardId::B2153TrainingArea)]);
    assert(game.hand(1) == Seq::<CardView>::empty());
    assert(game.discard(0).len() == 0 && game.discard(1).len() == 0);
    assert(game.energy_zone@[0] == EnergyZone { current: None, next: Some(EnergyType::Water) });
    assert(game.active_stadium is None && !game.has_retreated);
    assert(game.has_used_stadium@ == seq![false, false] && game.turn_effects@.len() == 0);
    assert(forall|i: int| 0 <= i < 4 ==> #[trigger] game.slot(0, i) == row(seq![in_play(CardId::A1075Starmie, seq![EnergyType::Water]), in_play(CardId::A1189Rattata, Seq::<EnergyType>::empty())])[i]);
    assert(forall|i: int| 0 <= i < 4 ==> #[trigger] game.slot(1, i) == row(seq![in_play_at(CardId::A1202Chansey, Seq::<EnergyType>::empty(), 50), in_play(CardId::A1059Poliwag, Seq::<EnergyType>::empty())])[i]);
    let acc0 = play("Training Area");
    let acceptable = vec![acc0];
    assert(acceptable@ == seq![acc0]);
    Puzzle { name: "stadium_that_swings_the_damage", why: "Training Area's +10 for a Stage 1 attacker turns Wave Splash's 40 into the exact 50 needed.", game, acceptable }
}

/// The control for the two "put it on the Bench" puzzles: one [F] on the Active Hitmonchan makes
/// Jab live this turn and Knocks Out a 30 HP Magikarp for the third point. The same [F] on the
/// Bench Chansey does nothing until next turn, by which time the game is already over.
#[verifier::rlimit(40)]
pub fn attach_to_the_active_that_can_attack_now() -> (r: Puzzle)
    ensures
        r.name@ == "attach_to_the_active_that_can_attack_now"@,
        r.why@ == "One [F] on Hitmonchan makes Jab's 30 lethal this turn; on the Bench it is a turn too late."@,
        r.acceptable@.len() == 1,
        r.acceptable@[0].kind@ == AcceptableKindView::AttachTo(0),
        puzzle_position(
            r.game,
            seq![CardId::A1155Hitmonchan, CardId::A1202Chansey],
            EnergyType::Fighting,
            seq![CardId::A1077Magikarp, CardId::A1059Poliwag],
            EnergyType::Water,
            row(seq![in_play(CardId::A1155Hitmonchan, Seq::<EnergyType>::empty()), in_play(CardId::A1202Chansey, seq![EnergyType::Fighting, EnergyType::Fighting])]),
            row(seq![in_play(CardId::A1077Magikarp, Seq::<EnergyType>::empty()), in_play(CardId::A1059Poliwag, Seq::<EnergyType>::empty())]),
            Seq::<CardView>::empty(),
            Seq::<CardView>::empty(),
            seq![2u8, 0u8],
            EnergyZone { current: Some(EnergyType::Fighting), next: Some(EnergyType::Fighting) },
        ),
{
    let ids_a = vec![CardId::A1155Hitmonchan, CardId::A1202Chansey];
    assert(ids_a@ == seq![CardId::A1155Hitmonchan, CardId::A1202Chansey]);
    let ids_b = vec![CardId::A1077Magikarp, CardId::A1059Poliwag];
    assert(ids_b@ == seq![CardId::A1077Magikarp, CardId::A1059Poliwag]);
    let mut game = position(deck_of(ids_a, EnergyType::Fighting), deck_of(ids_b, EnergyType::Water));
    let e_a0: Vec<EnergyType> = Vec::new();
    assert(e_a0@ == Seq::<EnergyType>::empty());
    let a0 = placed(CardId::A1155Hitmonchan, e_a0);
    let e_a1: Vec<EnergyType> = vec![EnergyType::Fighting, EnergyType::Fighting];
    assert(e_a1@ == seq![EnergyType::Fighting, EnergyType::Fighting]);
    let a1 = placed(CardId::A1202Chansey, e_a1);
    let e_b0: Vec<EnergyType> = Vec::new();
    assert(e_b0@ == Seq::<EnergyType>::empty());
    let b0 = placed(CardId::A1077Magikarp, e_b0);
    let e_b1: Vec<EnergyType> = Vec::new();
    assert(e_b1@ == Seq::<EnergyType>::empty());
    let b1 = placed(CardId::A1059Poliwag, e_b1);
    let ghost board_a = seq![a0@, a1@];
    let ghost board_b = seq![b0@, b1@];
    let row_a = vec![a0, a1];
    let row_b = vec![b0, b1];
    assert(row_a@.map_values(|c: PlayedCard| c@) =~= board_a);
    assert(row_b@.map_values(|c: PlayedCard| c@) =~= board_b);
    game.points = [2, 0];
    assert(game.points@ =~= seq![2u8, 0u8]);
    game.energy_zone = [zone(EnergyType::Fighting), game.energy_zone[1]];
    game.set_board(row_a, row_b);
    assert(forall|i: int| 0 <= i < 4 ==> #[trigger] game.slot(0, i) == row(board_a)[i]);
    assert(forall|i: int| 0 <= i < 4 ==> #[trigger] game.slot(1, i) == row(board_b)[i]);
    assert(game.winner is None && game.turn_count == 5 && game.current_player == 0);
    assert(game.points@ == seq![2u8, 0u8]);
    assert(game.deck(0) == crate::puzzles::spec_puzzle_deck_cards(seq![CardId::A1155Hitmonchan, CardId::A1202Chansey]));
    assert(game.deck(1) == crate::puzzles::spec_puzzle_deck_cards(seq![CardId::A1077Magikarp, CardId::A1059Poliwag]));
    assert(game.decks@[0].energy_types@ == seq![EnergyType::Fighting]);
    assert(game.decks@[1].energy_types@ == seq![EnergyType::Water]);
    assert(game.hand(0) == Seq::<CardView>::empty());
    assert(game.hand(1) == Seq::<CardView>::empty());
    assert(game.discard(0).len() == 0 && game.discard(1).len() == 0);
    assert(game.energy_zone@[0] == EnergyZone { current: Some(EnergyType::Fighting), next: Some(EnergyType::Fighting) });
    assert(game.active_stadium is None && !game.has_retreated);
    assert(game.has_used_stadium@ == seq![false, false] && game.turn_effects@.len() == 0);
    assert(forall|i: int| 0 <= i < 4 ==> #[trigger] game.slot(0, i) == row(seq![in_play(CardId::A1155Hitmonchan, Seq::<EnergyType>::empty()), in_play(CardId::A1202Chansey, seq![EnergyType::Fighting, EnergyType::Fighting])])[i]);
    assert(forall|i: int| 0 <= i < 4 ==> #[trigger] game.slot(1, i) == row(seq![in_play(CardId::A1077Magikarp, Seq::<EnergyType>::empty()), in_play(CardId::A1059Poliwag, Seq::<EnergyType>::empty())])[i]);
    let acc0 = attach_to(0);
    let acceptable = vec![acc0];
    assert(acceptable@ == seq![acc0]);
    Puzzle { name: "attach_to_the_active_that_can_attack_now", why: "One [F] on Hitmonchan makes Jab's 30 lethal this turn; on the Bench it is a turn too late.", game, acceptable }
}

/// The puzzles of this group, in a stable order.
pub fn puzzles() -> (r: Vec<Puzzle>)
    ensures
        names_of(r@) == seq!["evolve_before_attacking"@, "do_not_evolve_out_of_the_winning_attack"@, "rare_candy_enables_the_knockout"@, "do_not_evolve_into_the_two_point_target"@, "professors_research_when_the_board_is_empty_of_basics"@, "bench_a_second_attacker_before_the_active_dies"@, "stadium_that_swings_the_damage"@, "attach_to_the_active_that_can_attack_now"@],
        forall|i: int| 0 <= i < r@.len() ==> #[trigger] r@[i].acceptable@.len() > 0,
{
    let p0 = evolve_before_attacking();
    let p1 = do_not_evolve_out_of_the_winning_attack();
    let p2 = rare_candy_enables_the_knockout();
    let p3 = do_not_evolve_into_the_two_point_target();
    let p4 = professors_research_when_the_board_is_empty_of_basics();
    let p5 = bench_a_second_attacker_before_the_active_dies();
    let p6 = stadium_that_swings_the_damage();
    let p7 = attach_to_the_active_that_can_attack_now();
    let r = vec![p0, p1, p2, p3, p4, p5, p6, p7];
    assert(names_of(r@) =~= seq!["evolve_before_attacking"@, "do_not_evolve_out_of_the_winning_attack"@, "rare_candy_enables_the_knockout"@, "do_not_evolve_into_the_two_point_target"@, "professors_research_when_the_board_is_empty_of_basics"@, "bench_a_second_attacker_before_the_active_dies"@, "stadium_that_swings_the_damage"@, "attach_to_the_active_that_can_attack_now"@]);
    r
}

} // verus!
