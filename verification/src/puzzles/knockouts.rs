//! Puzzles about seeing a Knock Out and taking the biggest one on offer.
use vstd::prelude::*;

use super::support::{
    activate, anything_but_evolving_into, attach_to, attack, deck_of, evolve_at, in_play,
    in_play_at, place_on_bench, placed, placed_at, play, position, puzzle_position, retreat_to,
    row, spent_zone, zone, AcceptableKindView,
};
use super::{names_of, Puzzle};
use crate::actions::{SimpleAction, SimpleActionView};
use crate::database::{get_card_by_enum, spec_card_by_enum, CardId};
use crate::models::{cards_view, Card, CardView, EnergyType, StatusCondition};
use crate::played_card::{PlayedCard, PlayedCardView};
use crate::state::EnergyZone;

verus! {

/// Hitmonchan's Jab costs [F] and does 30. Magikarp has 30 HP. Nothing else on the board matters.
#[verifier::rlimit(40)]
pub fn take_the_available_knockout() -> (r: Puzzle)
    ensures
        r.name@ == "take_the_available_knockout"@,
        r.why@ == "Jab does 30 and Magikarp has 30 HP, so the attack is a free point."@,
        r.acceptable@.len() == 1,
        r.acceptable@[0].kind@ == AcceptableKindView::Attack("Jab"@),
        puzzle_position(
            r.game,
            seq![CardId::A1155Hitmonchan, CardId::A1143Machop],
            EnergyType::Fighting,
            seq![CardId::A1077Magikarp, CardId::A1059Poliwag],
            EnergyType::Water,
            row(seq![in_play(CardId::A1155Hitmonchan, seq![EnergyType::Fighting]), in_play(CardId::A1143Machop, Seq::<EnergyType>::empty())]),
            row(seq![in_play(CardId::A1077Magikarp, Seq::<EnergyType>::empty()), in_play(CardId::A1059Poliwag, Seq::<EnergyType>::empty())]),
            Seq::<CardView>::empty(),
            Seq::<CardView>::empty(),
            seq![0u8, 0u8],
            EnergyZone { current: None, next: Some(EnergyType::Fighting) },
        ),
{
    let ids_a = vec![CardId::A1155Hitmonchan, CardId::A1143Machop];
    assert(ids_a@ == seq![CardId::A1155Hitmonchan, CardId::A1143Machop]);
    let ids_b = vec![CardId::A1077Magikarp, CardId::A1059Poliwag];
    assert(ids_b@ == seq![CardId::A1077Magikarp, CardId::A1059Poliwag]);
    let mut game = position(deck_of(ids_a, EnergyType::Fighting), deck_of(ids_b, EnergyType::Water));
    let e_a0: Vec<EnergyType> = vec![EnergyType::Fighting];
    assert(e_a0@ == seq![EnergyType::Fighting]);
    let a0 = placed(CardId::A1155Hitmonchan, e_a0);
    let e_a1: Vec<EnergyType> = Vec::new();
    assert(e_a1@ == Seq::<EnergyType>::empty());
    let a1 = placed(CardId::A1143Machop, e_a1);
    let e_b0: Vec<EnergyType> = Vec::new();
    assert(e_b0@ == Seq::<EnergyType>::empty());
    let b0 = placed(CardId::A1077Magikarp, e_b0);
    let e_b1: Vec<EnergyType> = Vec::new();
    assert(e_b1@ == Seq::<EnergyType>::empty());
    let b1 = placed(CardId::A1059Poliwag, e_b1);
    let ghost board_a = seq![a0@, a1@];
    let ghost board_b = seq![b0@, b1@];
    let row_a = vec![a0, a1];
    let row_b = vec![b0, b1];
    assert(row_a@.map_values(|c: PlayedCard| c@) =~= board_a);
    assert(row_b@.map_values(|c: PlayedCard| c@) =~= board_b);
    game.energy_zone = [spent_zone(EnergyType::Fighting), game.energy_zone[1]];
    game.set_board(row_a, row_b);
    assert(forall|i: int| 0 <= i < 4 ==> #[trigger] game.slot(0, i) == row(board_a)[i]);
    assert(forall|i: int| 0 <= i < 4 ==> #[trigger] game.slot(1, i) == row(board_b)[i]);
    assert(game.winner is None && game.turn_count == 5 && game.current_player == 0);
    assert(game.points@ == seq![0u8, 0u8]);
    assert(game.deck(0) == crate::puzzles::spec_puzzle_deck_cards(seq![CardId::A1155Hitmonchan, CardId::A1143Machop]));
    assert(game.deck(1) == crate::puzzles::spec_puzzle_deck_cards(seq![CardId::A1077Magikarp, CardId::A1059Poliwag]));
    assert(game.decks@[0].energy_types@ == seq![EnergyType::Fighting]);
    assert(game.decks@[1].energy_types@ == seq![EnergyType::Water]);
    assert(game.hand(0) == Seq::<CardView>::empty());
    assert(game.hand(1) == Seq::<CardView>::empty());
    assert(game.discard(0).len() == 0 && game.discard(1).len() == 0);
    assert(game.energy_zone@[0] == EnergyZone { current: None, next: Some(EnergyType::Fighting) });
    assert(game.active_stadium is None && !game.has_retreated);
    assert(game.has_used_stadium@ == seq![false, false] && game.turn_effects@.len() == 0);
    assert(forall|i: int| 0 <= i < 4 ==> #[trigger] game.slot(0, i) == row(seq![in_play(CardId::A1155Hitmonchan, seq![EnergyType::Fighting]), in_play(CardId::A1143Machop, Seq::<EnergyType>::empty())])[i]);
    assert(forall|i: int| 0 <= i < 4 ==> #[trigger] game.slot(1, i) == row(seq![in_play(CardId::A1077Magikarp, Seq::<EnergyType>::empty()), in_play(CardId::A1059Poliwag, Seq::<EnergyType>::empty())])[i]);
    let acc0 = attack("Jab");
    let acceptable = vec![acc0];
    assert(acceptable@ == seq![acc0]);
    Puzzle { name: "take_the_available_knockout", why: "Jab does 30 and Magikarp has 30 HP, so the attack is a free point.", game, acceptable }
}

/// Pikachu's Gnaw does 20. Squirtle is Weak to [L], and Weakness is a flat +20 on the Active
/// Spot, so Gnaw does 40 to a Squirtle sitting on 40 remaining HP. Without the Weakness bonus
/// there is no Knock Out here at all.
#[verifier::rlimit(40)]
pub fn weakness_makes_the_knockout() -> (r: Puzzle)
    ensures
        r.name@ == "weakness_makes_the_knockout"@,
        r.why@ == "Gnaw's 20 plus 20 for Squirtle's [L] Weakness is exactly its 40 remaining HP."@,
        r.acceptable@.len() == 1,
        r.acceptable@[0].kind@ == AcceptableKindView::Attack("Gnaw"@),
        puzzle_position(
            r.game,
            seq![CardId::A1094Pikachu, CardId::A1189Rattata],
            EnergyType::Lightning,
            seq![CardId::A1053Squirtle, CardId::A1059Poliwag],
            EnergyType::Water,
            row(seq![in_play(CardId::A1094Pikachu, seq![EnergyType::Lightning]), in_play(CardId::A1189Rattata, Seq::<EnergyType>::empty())]),
            row(seq![in_play_at(CardId::A1053Squirtle, Seq::<EnergyType>::empty(), 40), in_play(CardId::A1059Poliwag, Seq::<EnergyType>::empty())]),
            Seq::<CardView>::empty(),
            Seq::<CardView>::empty(),
            seq![0u8, 0u8],
            EnergyZone { current: None, next: Some(EnergyType::Lightning) },
        ),
{
    let ids_a = vec![CardId::A1094Pikachu, CardId::A1189Rattata];
    assert(ids_a@ == seq![CardId::A1094Pikachu, CardId::A1189Rattata]);
    let ids_b = vec![CardId::A1053Squirtle, CardId::A1059Poliwag];
    assert(ids_b@ == seq![CardId::A1053Squirtle, CardId::A1059Poliwag]);
    let mut game = position(deck_of(ids_a, EnergyType::Lightning), deck_of(ids_b, EnergyType::Water));
    let e_a0: Vec<EnergyType> = vec![EnergyType::Lightning];
    assert(e_a0@ == seq![EnergyType::Lightning]);
    let a0 = placed(CardId::A1094Pikachu, e_a0);
    let e_a1: Vec<EnergyType> = Vec::new();
    assert(e_a1@ == Seq::<EnergyType>::empty());
    let a1 = placed(CardId::A1189Rattata, e_a1);
    let e_b0: Vec<EnergyType> = Vec::new();
    assert(e_b0@ == Seq::<EnergyType>::empty());
    let b0 = placed_at(CardId::A1053Squirtle, e_b0, 40);
    let e_b1: Vec<EnergyType> = Vec::new();
    assert(e_b1@ == Seq::<EnergyType>::empty());
    let b1 = placed(CardId::A1059Poliwag, e_b1);
    let ghost board_a = seq![a0@, a1@];
    let ghost board_b = seq![b0@, b1@];
    let row_a = vec![a0, a1];
    let row_b = vec![b0, b1];
    assert(row_a@.map_values(|c: PlayedCard| c@) =~= board_a);
    assert(row_b@.map_values(|c: PlayedCard| c@) =~= board_b);
    game.energy_zone = [spent_zone(EnergyType::Lightning), game.energy_zone[1]];
    game.set_board(row_a, row_b);
    assert(forall|i: int| 0 <= i < 4 ==> #[trigger] game.slot(0, i) == row(board_a)[i]);
    assert(forall|i: int| 0 <= i < 4 ==> #[trigger] game.slot(1, i) == row(board_b)[i]);
    assert(game.winner is None && game.turn_count == 5 && game.current_player == 0);
    assert(game.points@ == seq![0u8, 0u8]);
    assert(game.deck(0) == crate::puzzles::spec_puzzle_deck_cards(seq![CardId::A1094Pikachu, CardId::A1189Rattata]));
    assert(game.deck(1) == crate::puzzles::spec_puzzle_deck_cards(seq![CardId::A1053Squirtle, CardId::A1059Poliwag]));
    assert(game.decks@[0].energy_types@ == seq![EnergyType::Lightning]);
    assert(game.decks@[1].energy_types@ == seq![EnergyType::Water]);
    assert(game.hand(0) == Seq::<CardView>::empty());
    assert(game.hand(1) == Seq::<CardView>::empty());
    assert(game.discard(0).len() == 0 && game.discard(1).len() == 0);
    assert(game.energy_zone@[0] == EnergyZone { current: None, next: Some(EnergyType::Lightning) });
    assert(game.active_stadium is None && !game.has_retreated);
    assert(game.has_used_stadium@ == seq![false, false] && game.turn_effects@.len() == 0);
    assert(forall|i: int| 0 <= i < 4 ==> #[trigger] game.slot(0, i) == row(seq![in_play(CardId::A1094Pikachu, seq![EnergyType::Lightning]), in_play(CardId::A1189Rattata, Seq::<EnergyType>::empty())])[i]);
    assert(forall|i: int| 0 <= i < 4 ==> #[trigger] game.slot(1, i) == row(seq![in_play_at(CardId::A1053Squirtle, Seq::<EnergyType>::empty(), 40), in_play(CardId::A1059Poliwag, Seq::<EnergyType>::empty())])[i]);
    let acc0 = attack("Gnaw");
    let acceptable = vec![acc0];
    assert(acceptable@ == seq![acc0]);
    Puzzle { name: "weakness_makes_the_knockout", why: "Gnaw's 20 plus 20 for Squirtle's [L] Weakness is exactly its 40 remaining HP.", game, acceptable }
}

/// Mewtwo ex holds four [P]. Psychic Sphere does 50 and leaves Chansey alive on 120 HP;
/// Psydrive does 150 and Knocks it Out, at the cost of discarding two [P] afterwards.
#[verifier::rlimit(40)]
pub fn bigger_attack_takes_the_knockout() -> (r: Puzzle)
    ensures
        r.name@ == "bigger_attack_takes_the_knockout"@,
        r.why@ == "Only Psydrive's 150 reaches Chansey's 120 HP; the Energy discard is worth a point."@,
        r.acceptable@.len() == 1,
        r.acceptable@[0].kind@ == AcceptableKindView::Attack("Psydrive"@),
        puzzle_position(
            r.game,
            seq![CardId::A1129MewtwoEx, CardId::A1189Rattata],
            EnergyType::Psychic,
            seq![CardId::A1202Chansey, CardId::A1189Rattata],
            EnergyType::Fighting,
            row(seq![in_play(CardId::A1129MewtwoEx, seq![EnergyType::Psychic, EnergyType::Psychic, EnergyType::Psychic, EnergyType::Psychic]), in_play(CardId::A1189Rattata, Seq::<EnergyType>::empty())]),
            row(seq![in_play(CardId::A1202Chansey, Seq::<EnergyType>::empty()), in_play(CardId::A1189Rattata, Seq::<EnergyType>::empty())]),
            Seq::<CardView>::empty(),
            Seq::<CardView>::empty(),
            seq![0u8, 0u8],
            EnergyZone { current: None, next: Some(EnergyType::Psychic) },
        ),
{
    let ids_a = vec![CardId::A1129MewtwoEx, CardId::A1189Rattata];
    assert(ids_a@ == seq![CardId::A1129MewtwoEx, CardId::A1189Rattata]);
    let ids_b = vec![CardId::A1202Chansey, CardId::A1189Rattata];
    assert(ids_b@ == seq![CardId::A1202Chansey, CardId::A1189Rattata]);
    let mut game = position(deck_of(ids_a, EnergyType::Psychic), deck_of(ids_b, EnergyType::Fighting));
    let e_a0: Vec<EnergyType> = vec![EnergyType::Psychic, EnergyType::Psychic, EnergyType::Psychic, EnergyType::Psychic];
    assert(e_a0@ == seq![EnergyType::Psychic, EnergyType::Psychic, EnergyType::Psychic, EnergyType::Psychic]);
    let a0 = placed(CardId::A1129MewtwoEx, e_a0);
    let e_a1: Vec<EnergyType> = Vec::new();
    assert(e_a1@ == Seq::<EnergyType>::empty());
    let a1 = placed(CardId::A1189Rattata, e_a1);
    let e_b0: Vec<EnergyType> = Vec::new();
    assert(e_b0@ == Seq::<EnergyType>::empty());
    let b0 = placed(CardId::A1202Chansey, e_b0);
    let e_b1: Vec<EnergyType> = Vec::new();
    assert(e_b1@ == Seq::<EnergyType>::empty());
    let b1 = placed(CardId::A1189Rattata, e_b1);
    let ghost board_a = seq![a0@, a1@];
    let ghost board_b = seq![b0@, b1@];
    let row_a = vec![a0, a1];
    let row_b = vec![b0, b1];
    assert(row_a@.map_values(|c: PlayedCard| c@) =~= board_a);
    assert(row_b@.map_values(|c: PlayedCard| c@) =~= board_b);
    game.energy_zone = [spent_zone(EnergyType::Psychic), game.energy_zone[1]];
    game.set_board(row_a, row_b);
    assert(forall|i: int| 0 <= i < 4 ==> #[trigger] game.slot(0, i) == row(board_a)[i]);
    assert(forall|i: int| 0 <= i < 4 ==> #[trigger] game.slot(1, i) == row(board_b)[i]);
    assert(game.winner is None && game.turn_count == 5 && game.current_player == 0);
    assert(game.points@ == seq![0u8, 0u8]);
    assert(game.deck(0) == crate::puzzles::spec_puzzle_deck_cards(seq![CardId::A1129MewtwoEx, CardId::A1189Rattata]));
    assert(game.deck(1) == crate::puzzles::spec_puzzle_deck_cards(seq![CardId::A1202Chansey, CardId::A1189Rattata]));
    assert(game.decks@[0].energy_types@ == seq![EnergyType::Psychic]);
    assert(game.decks@[1].energy_types@ == seq![EnergyType::Fighting]);
    assert(game.hand(0) == Seq::<CardView>::empty());
    assert(game.hand(1) == Seq::<CardView>::empty());
    assert(game.discard(0).len() == 0 && game.discard(1).len() == 0);
    assert(game.energy_zone@[0] == EnergyZone { current: None, next: Some(EnergyType::Psychic) });
    assert(game.active_stadium is None && !game.has_retreated);
    assert(game.has_used_stadium@ == seq![false, false] && game.turn_effects@.len() == 0);
    assert(forall|i: int| 0 <= i < 4 ==> #[trigger] game.slot(0, i) == row(seq![in_play(CardId::A1129MewtwoEx, seq![EnergyType::Psychic, EnergyType::Psychic, EnergyType::Psychic, EnergyType::Psychic]), in_play(CardId::A1189Rattata, Seq::<EnergyType>::empty())])[i]);
    assert(forall|i: int| 0 <= i < 4 ==> #[trigger] game.slot(1, i) == row(seq![in_play(CardId::A1202Chansey, Seq::<EnergyType>::empty()), in_play(CardId::A1189Rattata, Seq::<EnergyType>::empty())])[i]);
    let acc0 = attack("Psydrive");
    let acceptable = vec![acc0];
    assert(acceptable@ == seq![acc0]);
    Puzzle { name: "bigger_attack_takes_the_knockout", why: "Only Psydrive's 150 reaches Chansey's 120 HP; the Energy discard is worth a point.", game, acceptable }
}

/// The Active is on 20 HP and there is a full-health Chansey to hide behind, but Jab takes the
/// third point and the game ends before the opponent ever attacks again.
#[verifier::rlimit(40)]
pub fn winning_attack_beats_the_safe_retreat() -> (r: Puzzle)
    ensures
        r.name@ == "winning_attack_beats_the_safe_retreat"@,
        r.why@ == "Jab's 30 Knocks Out the 30 HP Magikarp for the third point, which ends the game."@,
        r.acceptable@.len() == 1,
        r.acceptable@[0].kind@ == AcceptableKindView::Attack("Jab"@),
        puzzle_position(
            r.game,
            seq![CardId::A1155Hitmonchan, CardId::A1202Chansey],
            EnergyType::Fighting,
            seq![CardId::A1077Magikarp, CardId::A1059Poliwag],
            EnergyType::Water,
            row(seq![in_play_at(CardId::A1155Hitmonchan, seq![EnergyType::Fighting], 20), in_play(CardId::A1202Chansey, seq![EnergyType::Fighting, EnergyType::Fighting, EnergyType::Fighting])]),
            row(seq![in_play(CardId::A1077Magikarp, Seq::<EnergyType>::empty()), in_play(CardId::A1059Poliwag, Seq::<EnergyType>::empty())]),
            Seq::<CardView>::empty(),
            Seq::<CardView>::empty(),
            seq![2u8, 0u8],
            EnergyZone { current: None, next: Some(EnergyType::Fighting) },
        ),
{
    let ids_a = vec![CardId::A1155Hitmonchan, CardId::A1202Chansey];
    assert(ids_a@ == seq![CardId::A1155Hitmonchan, CardId::A1202Chansey]);
    let ids_b = vec![CardId::A1077Magikarp, CardId::A1059Poliwag];
    assert(ids_b@ == seq![CardId::A1077Magikarp, CardId::A1059Poliwag]);
    let mut game = position(deck_of(ids_a, EnergyType::Fighting), deck_of(ids_b, EnergyType::Water));
    let e_a0: Vec<EnergyType> = vec![EnergyType::Fighting];
    assert(e_a0@ == seq![EnergyType::Fighting]);
    let a0 = placed_at(CardId::A1155Hitmonchan, e_a0, 20);
    let e_a1: Vec<EnergyType> = vec![EnergyType::Fighting, EnergyType::Fighting, EnergyType::Fighting];
    assert(e_a1@ == seq![EnergyType::Fighting, EnergyType::Fighting, EnergyType::Fighting]);
    let a1 = placed(CardId::A1202Chansey, e_a1);
    let e_b0: Vec<EnergyType> = Vec::new();
    assert(e_b0@ == Seq::<EnergyType>::empty());
    let b0 = placed(CardId::A1077Magikarp, e_b0);
    let e_b1: Vec<EnergyType> = Vec::new();
    assert(e_b1@ == Seq::<EnergyType>::empty());
    let b1 = placed(CardId::A1059Poliwag, e_b1);
    let ghost board_a = seq![a0@, a1@];
    let ghost board_b = seq![b0@, b1@];
    let row_a = vec![a0, a1];
    let row_b = vec![b0, b1];
    assert(row_a@.map_values(|c: PlayedCard| c@) =~= board_a);
    assert(row_b@.map_values(|c: PlayedCard| c@) =~= board_b);
    game.points = [2, 0];
    assert(game.points@ =~= seq![2u8, 0u8]);
    game.energy_zone = [spent_zone(EnergyType::Fighting), game.energy_zone[1]];
    game.set_board(row_a, row_b);
    assert(forall|i: int| 0 <= i < 4 ==> #[trigger] game.slot(0, i) == row(board_a)[i]);
    assert(forall|i: int| 0 <= i < 4 ==> #[trigger] game.slot(1, i) == row(board_b)[i]);
    assert(game.winner is None && game.turn_count == 5 && game.current_player == 0);
    assert(game.points@ == seq![2u8, 0u8]);
    assert(game.deck(0) == crate::puzzles::spec_puzzle_deck_cards(seq![CardId::A1155Hitmonchan, CardId::A1202Chansey]));
    assert(game.deck(1) == crate::puzzles::spec_puzzle_deck_cards(seq![CardId::A1077Magikarp, CardId::A1059Poliwag]));
    assert(game.decks@[0].energy_types@ == seq![EnergyType::Fighting]);
    assert(game.decks@[1].energy_types@ == seq![EnergyType::Water]);
    assert(game.hand(0) == Seq::<CardView>::empty());
    assert(game.hand(1) == Seq::<CardView>::empty());
    assert(game.discard(0).len() == 0 && game.discard(1).len() == 0);
    assert(game.energy_zone@[0] == EnergyZone { current: None, next: Some(EnergyType::Fighting) });
    assert(game.active_stadium is None && !game.has_retreated);
    assert(game.has_used_stadium@ == seq![false, false] && game.turn_effects@.len() == 0);
    assert(forall|i: int| 0 <= i < 4 ==> #[trigger] game.slot(0, i) == row(seq![in_play_at(CardId::A1155Hitmonchan, seq![EnergyType::Fighting], 20), in_play(CardId::A1202Chansey, seq![EnergyType::Fighting, EnergyType::Fighting, EnergyType::Fighting])])[i]);
    assert(forall|i: int| 0 <= i < 4 ==> #[trigger] game.slot(1, i) == row(seq![in_play(CardId::A1077Magikarp, Seq::<EnergyType>::empty()), in_play(CardId::A1059Poliwag, Seq::<EnergyType>::empty())])[i]);
    let acc0 = attack("Jab");
    let acceptable = vec![acc0];
    assert(acceptable@ == seq![acc0]);
    Puzzle { name: "winning_attack_beats_the_safe_retreat", why: "Jab's 30 Knocks Out the 30 HP Magikarp for the third point, which ends the game.", game, acceptable }
}

/// Jab can Knock Out either the Active Magikarp for one point or, after Cyrus drags it up, the
/// damaged Starmie ex for two. Only the two-point line reaches three points.
#[verifier::rlimit(40)]
pub fn cyrus_pulls_the_damaged_ex_for_two_points() -> (r: Puzzle)
    ensures
        r.name@ == "cyrus_pulls_the_damaged_ex_for_two_points"@,
        r.why@ == "Cyrus switches the damaged Starmie ex in, and Knocking it Out is 2 points for the win."@,
        r.acceptable@.len() == 1,
        r.acceptable@[0].kind@ == AcceptableKindView::Play("Cyrus"@),
        puzzle_position(
            r.game,
            seq![CardId::A1155Hitmonchan, CardId::A1143Machop, CardId::A2150Cyrus],
            EnergyType::Fighting,
            seq![CardId::A1077Magikarp, CardId::A1074Staryu, CardId::A1076StarmieEx],
            EnergyType::Water,
            row(seq![in_play(CardId::A1155Hitmonchan, seq![EnergyType::Fighting]), in_play(CardId::A1143Machop, Seq::<EnergyType>::empty())]),
            row(seq![in_play(CardId::A1077Magikarp, Seq::<EnergyType>::empty()), in_play_at(CardId::A1076StarmieEx, Seq::<EnergyType>::empty(), 20)]),
            seq![spec_card_by_enum(CardId::A2150Cyrus)],
            Seq::<CardView>::empty(),
            seq![1u8, 0u8],
            EnergyZone { current: None, next: Some(EnergyType::Fighting) },
        ),
{
    let ids_a = vec![CardId::A1155Hitmonchan, CardId::A1143Machop, CardId::A2150Cyrus];
    assert(ids_a@ == seq![CardId::A1155Hitmonchan, CardId::A1143Machop, CardId::A2150Cyrus]);
    let ids_b = vec![CardId::A1077Magikarp, CardId::A1074Staryu, CardId::A1076StarmieEx];
    assert(ids_b@ == seq![CardId::A1077Magikarp, CardId::A1074Staryu, CardId::A1076StarmieEx]);
    let mut game = position(deck_of(ids_a, EnergyType::Fighting), deck_of(ids_b, EnergyType::Water));
    let e_a0: Vec<EnergyType> = vec![EnergyType::Fighting];
    assert(e_a0@ == seq![EnergyType::Fighting]);
    let a0 = placed(CardId::A1155Hitmonchan, e_a0);
    let e_a1: Vec<EnergyType> = Vec::new();
    assert(e_a1@ == Seq::<EnergyType>::empty());
    let a1 = placed(CardId::A1143Machop, e_a1);
    let e_b0: Vec<EnergyType> = Vec::new();
    assert(e_b0@ == Seq::<EnergyType>::empty());
    let b0 = placed(CardId::A1077Magikarp, e_b0);
    let e_b1: Vec<EnergyType> = Vec::new();
    assert(e_b1@ == Seq::<EnergyType>::empty());
    let b1 = placed_at(CardId::A1076StarmieEx, e_b1, 20);
    let ghost board_a = seq![a0@, a1@];
    let ghost board_b = seq![b0@, b1@];
    let row_a = vec![a0, a1];
    let row_b = vec![b0, b1];
    assert(row_a@.map_values(|c: PlayedCard| c@) =~= board_a);
    assert(row_b@.map_values(|c: PlayedCard| c@) =~= board_b);
    let hand_a0 = get_card_by_enum(CardId::A2150Cyrus);
    let hand_a = vec![hand_a0];
    assert(cards_view(hand_a@) =~= seq![spec_card_by_enum(CardId::A2150Cyrus)]);
    let hand_b: Vec<Card> = Vec::new();
    game.hands = [hand_a, hand_b];
    game.points = [1, 0];
    assert(game.points@ =~= seq![1u8, 0u8]);
    game.energy_zone = [spent_zone(EnergyType::Fighting), game.energy_zone[1]];
    game.set_board(row_a, row_b);
    assert(forall|i: int| 0 <= i < 4 ==> #[trigger] game.slot(0, i) == row(board_a)[i]);
    assert(forall|i: int| 0 <= i < 4 ==> #[trigger] game.slot(1, i) == row(board_b)[i]);
    assert(game.winner is None && game.turn_count == 5 && game.current_player == 0);
    assert(game.points@ == seq![1u8, 0u8]);
    assert(game.deck(0) == crate::puzzles::spec_puzzle_deck_cards(seq![CardId::A1155Hitmonchan, CardId::A1143Machop, CardId::A2150Cyrus]));
    assert(game.deck(1) == crate::puzzles::spec_puzzle_deck_cards(seq![CardId::A1077Magikarp, CardId::A1074Staryu, CardId::A1076StarmieEx]));
    assert(game.decks@[0].energy_types@ == seq![EnergyType::Fighting]);
    assert(game.decks@[1].energy_types@ == seq![EnergyType::Water]);
    assert(game.hand(0) == seq![spec_card_by_enum(CardId::A2150Cyrus)]);
    assert(game.hand(1) == Seq::<CardView>::empty());
    assert(game.discard(0).len() == 0 && game.discard(1).len() == 0);
    assert(game.energy_zone@[0] == EnergyZone { current: None, next: Some(EnergyType::Fighting) });
    assert(game.active_stadium is None && !game.has_retreated);
    assert(game.has_used_stadium@ == seq![false, false] && game.turn_effects@.len() == 0);
    assert(forall|i: int| 0 <= i < 4 ==> #[trigger] game.slot(0, i) == row(seq![in_play(CardId::A1155Hitmonchan, seq![EnergyType::Fighting]), in_play(CardId::A1143Machop, Seq::<EnergyType>::empty())])[i]);
    assert(forall|i: int| 0 <= i < 4 ==> #[trigger] game.slot(1, i) == row(seq![in_play(CardId::A1077Magikarp, Seq::<EnergyType>::empty()), in_play_at(CardId::A1076StarmieEx, Seq::<EnergyType>::empty(), 20)])[i]);
    let acc0 = play("Cyrus");
    let acceptable = vec![acc0];
    assert(acceptable@ == seq![acc0]);
    Puzzle { name: "cyrus_pulls_the_damaged_ex_for_two_points", why: "Cyrus switches the damaged Starmie ex in, and Knocking it Out is 2 points for the win.", game, acceptable }
}

/// Snorlax has 150 HP and cannot be Knocked Out, but Sabrina switches it out and the opponent's
/// only Benched Pokémon is a Rattata on 20 remaining HP.
#[verifier::rlimit(40)]
pub fn sabrina_forces_up_the_only_bench_target() -> (r: Puzzle)
    ensures
        r.name@ == "sabrina_forces_up_the_only_bench_target"@,
        r.why@ == "Sabrina leaves the opponent only the 20 HP Rattata to promote, and Jab wins the game."@,
        r.acceptable@.len() == 1,
        r.acceptable@[0].kind@ == AcceptableKindView::Play("Sabrina"@),
        puzzle_position(
            r.game,
            seq![CardId::A1155Hitmonchan, CardId::A1143Machop, CardId::A1225Sabrina],
            EnergyType::Fighting,
            seq![CardId::A1211Snorlax, CardId::A1189Rattata],
            EnergyType::Fighting,
            row(seq![in_play(CardId::A1155Hitmonchan, seq![EnergyType::Fighting]), in_play(CardId::A1143Machop, Seq::<EnergyType>::empty())]),
            row(seq![in_play(CardId::A1211Snorlax, Seq::<EnergyType>::empty()), in_play_at(CardId::A1189Rattata, Seq::<EnergyType>::empty(), 20)]),
            seq![spec_card_by_enum(CardId::A1225Sabrina)],
            Seq::<CardView>::empty(),
            seq![2u8, 0u8],
            EnergyZone { current: None, next: Some(EnergyType::Fighting) },
        ),
{
    let ids_a = vec![CardId::A1155Hitmonchan, CardId::A1143Machop, CardId::A1225Sabrina];
    assert(ids_a@ == seq![CardId::A1155Hitmonchan, CardId::A1143Machop, CardId::A1225Sabrina]);
    let ids_b = vec![CardId::A1211Snorlax, CardId::A1189Rattata];
    assert(ids_b@ == seq![CardId::A1211Snorlax, CardId::A1189Rattata]);
    let mut game = position(deck_of(ids_a, EnergyType::Fighting), deck_of(ids_b, EnergyType::Fighting));
    let e_a0: Vec<EnergyType> = vec![EnergyType::Fighting];
    assert(e_a0@ == seq![EnergyType::Fighting]);
    let a0 = placed(CardId::A1155Hitmonchan, e_a0);
    let e_a1: Vec<EnergyType> = Vec::new();
    assert(e_a1@ == Seq::<EnergyType>::empty());
    let a1 = placed(CardId::A1143Machop, e_a1);
    let e_b0: Vec<EnergyType> = Vec::new();
    assert(e_b0@ == Seq::<EnergyType>::empty());
    let b0 = placed(CardId::A1211Snorlax, e_b0);
    let e_b1: Vec<EnergyType> = Vec::new();
    assert(e_b1@ == Seq::<EnergyType>::empty());
    let b1 = placed_at(CardId::A1189Rattata, e_b1, 20);
    let ghost board_a = seq![a0@, a1@];
    let ghost board_b = seq![b0@, b1@];
    let row_a = vec![a0, a1];
    let row_b = vec![b0, b1];
    assert(row_a@.map_values(|c: PlayedCard| c@) =~= board_a);
    assert(row_b@.map_values(|c: PlayedCard| c@) =~= board_b);
    let hand_a0 = get_card_by_enum(CardId::A1225Sabrina);
    let hand_a = vec![hand_a0];
    assert(cards_view(hand_a@) =~= seq![spec_card_by_enum(CardId::A1225Sabrina)]);
    let hand_b: Vec<Card> = Vec::new();
    game.hands = [hand_a, hand_b];
    game.points = [2, 0];
    assert(game.points@ =~= seq![2u8, 0u8]);
    game.energy_zone = [spent_zone(EnergyType::Fighting), game.energy_zone[1]];
    game.set_board(row_a, row_b);
    assert(forall|i: int| 0 <= i < 4 ==> #[trigger] game.slot(0, i) == row(board_a)[i]);
    assert(forall|i: int| 0 <= i < 4 ==> #[trigger] game.slot(1, i) == row(board_b)[i]);
    assert(game.winner is None && game.turn_count == 5 && game.current_player == 0);
    assert(game.points@ == seq![2u8, 0u8]);
    assert(game.deck(0) == crate::puzzles::spec_puzzle_deck_cards(seq![CardId::A1155Hitmonchan, CardId::A1143Machop, CardId::A1225Sabrina]));
    assert(game.deck(1) == crate::puzzles::spec_puzzle_deck_cards(seq![CardId::A1211Snorlax, CardId::A1189Rattata]));
    assert(game.decks@[0].energy_types@ == seq![EnergyType::Fighting]);
    assert(game.decks@[1].energy_types@ == seq![EnergyType::Fighting]);
    assert(game.hand(0) == seq![spec_card_by_enum(CardId::A1225Sabrina)]);
    assert(game.hand(1) == Seq::<CardView>::empty());
    assert(game.discard(0).len() == 0 && game.discard(1).len() == 0);
    assert(game.energy_zone@[0] == EnergyZone { current: None, next: Some(EnergyType::Fighting) });
    assert(game.active_stadium is None && !game.has_retreated);
    assert(game.has_used_stadium@ == seq![false, false] && game.turn_effects@.len() == 0);
    assert(forall|i: int| 0 <= i < 4 ==> #[trigger] game.slot(0, i) == row(seq![in_play(CardId::A1155Hitmonchan, seq![EnergyType::Fighting]), in_play(CardId::A1143Machop, Seq::<EnergyType>::empty())])[i]);
    assert(forall|i: int| 0 <= i < 4 ==> #[trigger] game.slot(1, i) == row(seq![in_play(CardId::A1211Snorlax, Seq::<EnergyType>::empty()), in_play_at(CardId::A1189Rattata, Seq::<EnergyType>::empty(), 20)])[i]);
    let acc0 = play("Sabrina");
    let acceptable = vec![acc0];
    assert(acceptable@ == seq![acc0]);
    Puzzle { name: "sabrina_forces_up_the_only_bench_target", why: "Sabrina leaves the opponent only the 20 HP Rattata to promote, and Jab wins the game.", game, acceptable }
}

/// Gnaw does 20 into a Rattata on 30 remaining HP. Giovanni's "+10 damage to your opponent's
/// Active Pokémon" turns that into exactly lethal.
#[verifier::rlimit(40)]
pub fn giovanni_completes_the_knockout() -> (r: Puzzle)
    ensures
        r.name@ == "giovanni_completes_the_knockout"@,
        r.why@ == "Gnaw's 20 plus Giovanni's +10 is the Rattata's 30 remaining HP and the third point."@,
        r.acceptable@.len() == 1,
        r.acceptable@[0].kind@ == AcceptableKindView::Play("Giovanni"@),
        puzzle_position(
            r.game,
            seq![CardId::A1094Pikachu, CardId::A1189Rattata, CardId::A1223Giovanni],
            EnergyType::Lightning,
            seq![CardId::A1189Rattata, CardId::A1059Poliwag],
            EnergyType::Fighting,
            row(seq![in_play(CardId::A1094Pikachu, seq![EnergyType::Lightning]), in_play(CardId::A1189Rattata, Seq::<EnergyType>::empty())]),
            row(seq![in_play_at(CardId::A1189Rattata, Seq::<EnergyType>::empty(), 30), in_play(CardId::A1059Poliwag, Seq::<EnergyType>::empty())]),
            seq![spec_card_by_enum(CardId::A1223Giovanni)],
            Seq::<CardView>::empty(),
            seq![2u8, 0u8],
            EnergyZone { current: None, next: Some(EnergyType::Lightning) },
        ),
{
    let ids_a = vec![CardId::A1094Pikachu, CardId::A1189Rattata, CardId::A1223Giovanni];
    assert(ids_a@ == seq![CardId::A1094Pikachu, CardId::A1189Rattata, CardId::A1223Giovanni]);
    let ids_b = vec![CardId::A1189Rattata, CardId::A1059Poliwag];
    assert(ids_b@ == seq![CardId::A1189Rattata, CardId::A1059Poliwag]);
    let mut game = position(deck_of(ids_a, EnergyType::Lightning), deck_of(ids_b, EnergyType::Fighting));
    let e_a0: Vec<EnergyType> = vec![EnergyType::Lightning];
    assert(e_a0@ == seq![EnergyType::Lightning]);
    let a0 = placed(CardId::A1094Pikachu, e_a0);
    let e_a1: Vec<EnergyType> = Vec::new();
    assert(e_a1@ == Seq::<EnergyType>::empty());
    let a1 = placed(CardId::A1189Rattata, e_a1);
    let e_b0: Vec<EnergyType> = Vec::new();
    assert(e_b0@ == Seq::<EnergyType>::empty());
    let b0 = placed_at(CardId::A1189Rattata, e_b0, 30);
    let e_b1: Vec<EnergyType> = Vec::new();
    assert(e_b1@ == Seq::<EnergyType>::empty());
    let b1 = placed(CardId::A1059Poliwag, e_b1);
    let ghost board_a = seq![a0@, a1@];
    let ghost board_b = seq![b0@, b1@];
    let row_a = vec![a0, a1];
    let row_b = vec![b0, b1];
    assert(row_a@.map_values(|c: PlayedCard| c@) =~= board_a);
    assert(row_b@.map_values(|c: PlayedCard| c@) =~= board_b);
    let hand_a0 = get_card_by_enum(CardId::A1223Giovanni);
    let hand_a = vec![hand_a0];
    assert(cards_view(hand_a@) =~= seq![spec_card_by_enum(CardId::A1223Giovanni)]);
    let hand_b: Vec<Card> = Vec::new();
    game.hands = [hand_a, hand_b];
    game.points = [2, 0];
    assert(game.points@ =~= seq![2u8, 0u8]);
    game.energy_zone = [spent_zone(EnergyType::Lightning), game.energy_zone[1]];
    game.set_board(row_a, row_b);
    assert(forall|i: int| 0 <= i < 4 ==> #[trigger] game.slot(0, i) == row(board_a)[i]);
    assert(forall|i: int| 0 <= i < 4 ==> #[trigger] game.slot(1, i) == row(board_b)[i]);
    assert(game.winner is None && game.turn_count == 5 && game.current_player == 0);
    assert(game.points@ == seq![2u8, 0u8]);
    assert(game.deck(0) == crate::puzzles::spec_puzzle_deck_cards(seq![CardId::A1094Pikachu, CardId::A1189Rattata, CardId::A1223Giovanni]));
    assert(game.deck(1) == crate::puzzles::spec_puzzle_deck_cards(seq![CardId::A1189Rattata, CardId::A1059Poliwag]));
    assert(game.decks@[0].energy_types@ == seq![EnergyType::Lightning]);
    assert(game.decks@[1].energy_types@ == seq![EnergyType::Fighting]);
    assert(game.hand(0) == seq![spec_card_by_enum(CardId::A1223Giovanni)]);
    assert(game.hand(1) == Seq::<CardView>::empty());
    assert(game.discard(0).len() == 0 && game.discard(1).len() == 0);
    assert(game.energy_zone@[0] == EnergyZone { current: None, next: Some(EnergyType::Lightning) });
    assert(game.active_stadium is None && !game.has_retreated);
    assert(game.has_used_stadium@ == seq![false, false] && game.turn_effects@.len() == 0);
    assert(forall|i: int| 0 <= i < 4 ==> #[trigger] game.slot(0, i) == row(seq![in_play(CardId::A1094Pikachu, seq![EnergyType::Lightning]), in_play(CardId::A1189Rattata, Seq::<EnergyType>::empty())])[i]);
    assert(forall|i: int| 0 <= i < 4 ==> #[trigger] game.slot(1, i) == row(seq![in_play_at(CardId::A1189Rattata, Seq::<EnergyType>::empty(), 30), in_play(CardId::A1059Poliwag, Seq::<EnergyType>::empty())])[i]);
    let acc0 = play("Giovanni");
    let acceptable = vec![acc0];
    assert(acceptable@ == seq![acc0]);
    Puzzle { name: "giovanni_completes_the_knockout", why: "Gnaw's 20 plus Giovanni's +10 is the Rattata's 30 remaining HP and the third point.", game, acceptable }
}

/// The puzzles of this group, in a stable order.
pub fn puzzles() -> (r: Vec<Puzzle>)
    ensures
        names_of(r@) == seq!["take_the_available_knockout"@, "weakness_makes_the_knockout"@, "bigger_attack_takes_the_knockout"@, "winning_attack_beats_the_safe_retreat"@, "cyrus_pulls_the_damaged_ex_for_two_points"@, "sabrina_forces_up_the_only_bench_target"@, "giovanni_completes_the_knockout"@],
        forall|i: int| 0 <= i < r@.len() ==> #[trigger] r@[i].acceptable@.len() > 0,
{
    let p0 = take_the_available_knockout();
    let p1 = weakness_makes_the_knockout();
    let p2 = bigger_attack_takes_the_knockout();
    let p3 = winning_attack_beats_the_safe_retreat();
    let p4 = cyrus_pulls_the_damaged_ex_for_two_points();
    let p5 = sabrina_forces_up_the_only_bench_target();
    let p6 = giovanni_completes_the_knockout();
    let r = vec![p0, p1, p2, p3, p4, p5, p6];
    assert(names_of(r@) =~= seq!["take_the_available_knockout"@, "weakness_makes_the_knockout"@, "bigger_attack_takes_the_knockout"@, "winning_attack_beats_the_safe_retreat"@, "cyrus_pulls_the_damaged_ex_for_two_points"@, "sabrina_forces_up_the_only_bench_target"@, "giovanni_completes_the_knockout"@]);
    r
}

} // verus!
