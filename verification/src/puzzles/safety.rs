//! Puzzles about not walking the Active Pokémon into a Knock Out, and about knowing when the
//! danger does not matter.
use vstd::prelude::*;

use super::support::{
    activate, anything_but_evolving_into, attach_to, attack, deck_of, evolve_at, in_play,
    in_play_at, place_on_bench, placed, placed_at, play, position, puzzle_position, retreat_to,
    row, spent_zone, zone, AcceptableKindView,
};
use super::{names_of, Puzzle};
use crate::actions::{SimpleAction, SimpleActionView};
use crate::database::{get_card_by_enum, spec_card_by_enum, CardId};
use crate::models::{cards_view, Card, CardView, EnergyType, StatusCondition};
use crate::played_card::{PlayedCard, PlayedCardView};
use crate::state::EnergyZone;

verus! {

/// Rocky Helmet does 20 to the Attacking Pokémon whenever the holder is damaged in the Active
/// Spot. Pikachu is on 20 remaining HP, so Gnaw kills Pikachu and does 20 to a 150 HP Snorlax.
/// Retreating instead brings up a full-health Chansey that is already holding its Energy.
#[verifier::rlimit(40)]
pub fn do_not_attack_into_the_lethal_rocky_helmet() -> (r: Puzzle)
    ensures
        r.name@ == "do_not_attack_into_the_lethal_rocky_helmet"@,
        r.why@ == "Gnaw's 20 cannot dent 150 HP and the Helmet's 20 back Knocks Out the 20 HP Pikachu."@,
        r.acceptable@.len() == 1,
        r.acceptable@[0].kind@ == AcceptableKindView::RetreatTo(1),
        puzzle_position(
            r.game,
            seq![CardId::A1094Pikachu, CardId::A1202Chansey],
            EnergyType::Lightning,
            seq![CardId::A1211Snorlax, CardId::A1189Rattata],
            EnergyType::Fighting,
            row(seq![in_play_at(CardId::A1094Pikachu, seq![EnergyType::Lightning], 20), in_play(CardId::A1202Chansey, seq![EnergyType::Lightning, EnergyType::Lightning, EnergyType::Lightning])]),
            row(seq![PlayedCardView { attached_tools: seq![spec_card_by_enum(CardId::A2148RockyHelmet)], ..in_play(CardId::A1211Snorlax, Seq::<EnergyType>::empty()) }, in_play(CardId::A1189Rattata, Seq::<EnergyType>::empty())]),
            Seq::<CardView>::empty(),
            Seq::<CardView>::empty(),
            seq![0u8, 0u8],
            EnergyZone { current: None, next: Some(EnergyType::Lightning) },
        ),
{
    let ids_a = vec![CardId::A1094Pikachu, CardId::A1202Chansey];
    assert(ids_a@ == seq![CardId::A1094Pikachu, CardId::A1202Chansey]);
    let ids_b = vec![CardId::A1211Snorlax, CardId::A1189Rattata];
    assert(ids_b@ == seq![CardId::A1211Snorlax, CardId::A1189Rattata]);
    let mut game = position(deck_of(ids_a, EnergyType::Lightning), deck_of(ids_b, EnergyType::Fighting));
    let e_a0: Vec<EnergyType> = vec![EnergyType::Lightning];
    assert(e_a0@ == seq![EnergyType::Lightning]);
    let a0 = placed_at(CardId::A1094Pikachu, e_a0, 20);
    let e_a1: Vec<EnergyType> = vec![EnergyType::Lightning, EnergyType::Lightning, EnergyType::Lightning];
    assert(e_a1@ == seq![EnergyType::Lightning, EnergyType::Lightning, EnergyType::Lightning]);
    let a1 = placed(CardId::A1202Chansey, e_a1);
    let e_b0: Vec<EnergyType> = Vec::new();
    assert(e_b0@ == Seq::<EnergyType>::empty());
    let b0 = placed(CardId::A1211Snorlax, e_b0);
    let b0 = b0.with_tool(get_card_by_enum(CardId::A2148RockyHelmet));
    let e_b1: Vec<EnergyType> = Vec::new();
    assert(e_b1@ == Seq::<EnergyType>::empty());
    let b1 = placed(CardId::A1189Rattata, e_b1);
    let ghost board_a = seq![a0@, a1@];
    let ghost board_b = seq![b0@, b1@];
    let row_a = vec![a0, a1];
    let row_b = vec![b0, b1];
    assert(row_a@.map_values(|c: PlayedCard| c@) =~= board_a);
    assert(row_b@.map_values(|c: PlayedCard| c@) =~= board_b);
    game.energy_zone = [spent_zone(EnergyType::Lightning), game.energy_zone[1]];
    game.set_board(row_a, row_b);
    assert(forall|i: int| 0 <= i < 4 ==> #[trigger] game.slot(0, i) == row(board_a)[i]);
    assert(forall|i: int| 0 <= i < 4 ==> #[trigger] game.slot(1, i) == row(board_b)[i]);
    assert(game.winner is None && game.turn_count == 5 && game.current_player == 0);
    assert(game.points@ == seq![0u8, 0u8]);
    assert(game.deck(0) == crate::puzzles::spec_puzzle_deck_cards(seq![CardId::A1094Pikachu, CardId::A1202Chansey]));
    assert(game.deck(1) == crate::puzzles::spec_puzzle_deck_cards(seq![CardId::A1211Snorlax, CardId::A1189Rattata]));
    assert(game.decks@[0].energy_types@ == seq![EnergyType::Lightning]);
    assert(game.decks@[1].energy_types@ == seq![EnergyType::Fighting]);
    assert(game.hand(0) == Seq::<CardView>::empty());
    assert(game.hand(1) == Seq::<CardView>::empty());
    assert(game.discard(0).len() == 0 && game.discard(1).len() == 0);
    assert(game.energy_zone@[0] == EnergyZone { current: None, next: Some(EnergyType::Lightning) });
    assert(game.active_stadium is None && !game.has_retreated);
    assert(game.has_used_stadium@ == seq![false, false] && game.turn_effects@.len() == 0);
    assert(forall|i: int| 0 <= i < 4 ==> #[trigger] game.slot(0, i) == row(seq![in_play_at(CardId::A1094Pikachu, seq![EnergyType::Lightning], 20), in_play(CardId::A1202Chansey, seq![EnergyType::Lightning, EnergyType::Lightning, EnergyType::Lightning])])[i]);
    assert(forall|i: int| 0 <= i < 4 ==> #[trigger] game.slot(1, i) == row(seq![PlayedCardView { attached_tools: seq![spec_card_by_enum(CardId::A2148RockyHelmet)], ..in_play(CardId::A1211Snorlax, Seq::<EnergyType>::empty()) }, in_play(CardId::A1189Rattata, Seq::<EnergyType>::empty())])[i]);
    let acc0 = retreat_to(1);
    let acceptable = vec![acc0];
    assert(acceptable@ == seq![acc0]);
    Puzzle { name: "do_not_attack_into_the_lethal_rocky_helmet", why: "Gnaw's 20 cannot dent 150 HP and the Helmet's 20 back Knocks Out the 20 HP Pikachu.", game, acceptable }
}

/// The same Helmet, but Pikachu is at full 60 HP and the attack takes the game-winning point.
/// The 20 coming back is irrelevant.
#[verifier::rlimit(40)]
pub fn attack_through_the_helmet_when_it_cannot_kill() -> (r: Puzzle)
    ensures
        r.name@ == "attack_through_the_helmet_when_it_cannot_kill"@,
        r.why@ == "Gnaw's 20 takes the third point; the Helmet's 20 back leaves Pikachu on 40 HP."@,
        r.acceptable@.len() == 1,
        r.acceptable@[0].kind@ == AcceptableKindView::Attack("Gnaw"@),
        puzzle_position(
            r.game,
            seq![CardId::A1094Pikachu, CardId::A1202Chansey],
            EnergyType::Lightning,
            seq![CardId::A1189Rattata, CardId::A1059Poliwag],
            EnergyType::Water,
            row(seq![in_play(CardId::A1094Pikachu, seq![EnergyType::Lightning]), in_play(CardId::A1202Chansey, Seq::<EnergyType>::empty())]),
            row(seq![PlayedCardView { attached_tools: seq![spec_card_by_enum(CardId::A2148RockyHelmet)], ..in_play_at(CardId::A1189Rattata, Seq::<EnergyType>::empty(), 20) }, in_play(CardId::A1059Poliwag, Seq::<EnergyType>::empty())]),
            Seq::<CardView>::empty(),
            Seq::<CardView>::empty(),
            seq![2u8, 0u8],
            EnergyZone { current: None, next: Some(EnergyType::Lightning) },
        ),
{
    let ids_a = vec![CardId::A1094Pikachu, CardId::A1202Chansey];
    assert(ids_a@ == seq![CardId::A1094Pikachu, CardId::A1202Chansey]);
    let ids_b = vec![CardId::A1189Rattata, CardId::A1059Poliwag];
    assert(ids_b@ == seq![CardId::A1189Rattata, CardId::A1059Poliwag]);
    let mut game = position(deck_of(ids_a, EnergyType::Lightning), deck_of(ids_b, EnergyType::Water));
    let e_a0: Vec<EnergyType> = vec![EnergyType::Lightning];
    assert(e_a0@ == seq![EnergyType::Lightning]);
    let a0 = placed(CardId::A1094Pikachu, e_a0);
    let e_a1: Vec<EnergyType> = Vec::new();
    assert(e_a1@ == Seq::<EnergyType>::empty());
    let a1 = placed(CardId::A1202Chansey, e_a1);
    let e_b0: Vec<EnergyType> = Vec::new();
    assert(e_b0@ == Seq::<EnergyType>::empty());
    let b0 = placed_at(CardId::A1189Rattata, e_b0, 20);
    let b0 = b0.with_tool(get_card_by_enum(CardId::A2148RockyHelmet));
    let e_b1: Vec<EnergyType> = Vec::new();
    assert(e_b1@ == Seq::<EnergyType>::empty());
    let b1 = placed(CardId::A1059Poliwag, e_b1);
    let ghost board_a = seq![a0@, a1@];
    let ghost board_b = seq![b0@, b1@];
    let row_a = vec![a0, a1];
    let row_b = vec![b0, b1];
    assert(row_a@.map_values(|c: PlayedCard| c@) =~= board_a);
    assert(row_b@.map_values(|c: PlayedCard| c@) =~= board_b);
    game.points = [2, 0];
    assert(game.points@ =~= seq![2u8, 0u8]);
    game.energy_zone = [spent_zone(EnergyType::Lightning), game.energy_zone[1]];
    game.set_board(row_a, row_b);
    assert(forall|i: int| 0 <= i < 4 ==> #[trigger] game.slot(0, i) == row(board_a)[i]);
    assert(forall|i: int| 0 <= i < 4 ==> #[trigger] game.slot(1, i) == row(board_b)[i]);
    assert(game.winner is None && game.turn_count == 5 && game.current_player == 0);
    assert(game.points@ == seq![2u8, 0u8]);
    assert(game.deck(0) == crate::puzzles::spec_puzzle_deck_cards(seq![CardId::A1094Pikachu, CardId::A1202Chansey]));
    assert(game.deck(1) == crate::puzzles::spec_puzzle_deck_cards(seq![CardId::A1189Rattata, CardId::A1059Poliwag]));
    assert(game.decks@[0].energy_types@ == seq![EnergyType::Lightning]);
    assert(game.decks@[1].energy_types@ == seq![EnergyType::Water]);
    assert(game.hand(0) == Seq::<CardView>::empty());
    assert(game.hand(1) == Seq::<CardView>::empty());
    assert(game.discard(0).len() == 0 && game.discard(1).len() == 0);
    assert(game.energy_zone@[0] == EnergyZone { current: None, next: Some(EnergyType::Lightning) });
    assert(game.active_stadium is None && !game.has_retreated);
    assert(game.has_used_stadium@ == seq![false, false] && game.turn_effects@.len() == 0);
    assert(forall|i: int| 0 <= i < 4 ==> #[trigger] game.slot(0, i) == row(seq![in_play(CardId::A1094Pikachu, seq![EnergyType::Lightning]), in_play(CardId::A1202Chansey, Seq::<EnergyType>::empty())])[i]);
    assert(forall|i: int| 0 <= i < 4 ==> #[trigger] game.slot(1, i) == row(seq![PlayedCardView { attached_tools: seq![spec_card_by_enum(CardId::A2148RockyHelmet)], ..in_play_at(CardId::A1189Rattata, Seq::<EnergyType>::empty(), 20) }, in_play(CardId::A1059Poliwag, Seq::<EnergyType>::empty())])[i]);
    let acc0 = attack("Gnaw");
    let acceptable = vec![acc0];
    assert(acceptable@ == seq![acc0]);
    Puzzle { name: "attack_through_the_helmet_when_it_cannot_kill", why: "Gnaw's 20 takes the third point; the Helmet's 20 back leaves Pikachu on 40 HP.", game, acceptable }
}

/// Chansey is on 20 remaining HP and the opponent's loaded Pikachu does exactly 20 with Gnaw
/// (Chansey is Weak to [F], not [L], so there is no Weakness bonus). The opponent is on 2 points,
/// so that Knock Out ends the game. Potion's 20 puts Chansey out of range.
#[verifier::rlimit(40)]
pub fn potion_survives_the_visible_lethal() -> (r: Puzzle)
    ensures
        r.name@ == "potion_survives_the_visible_lethal"@,
        r.why@ == "Gnaw does exactly Chansey's 20 remaining HP for the opponent's third point; Potion denies it."@,
        r.acceptable@.len() == 1,
        r.acceptable@[0].kind@ == AcceptableKindView::Play("Potion"@),
        puzzle_position(
            r.game,
            seq![CardId::A1202Chansey, CardId::A1189Rattata, CardId::PA001Potion],
            EnergyType::Fighting,
            seq![CardId::A1094Pikachu, CardId::A1059Poliwag],
            EnergyType::Lightning,
            row(seq![in_play_at(CardId::A1202Chansey, Seq::<EnergyType>::empty(), 20), in_play(CardId::A1189Rattata, Seq::<EnergyType>::empty())]),
            row(seq![in_play(CardId::A1094Pikachu, seq![EnergyType::Lightning]), in_play(CardId::A1059Poliwag, Seq::<EnergyType>::empty())]),
            seq![spec_card_by_enum(CardId::PA001Potion)],
            Seq::<CardView>::empty(),
            seq![0u8, 2u8],
            EnergyZone { current: None, next: Some(EnergyType::Fighting) },
        ),
{
    let ids_a = vec![CardId::A1202Chansey, CardId::A1189Rattata, CardId::PA001Potion];
    assert(ids_a@ == seq![CardId::A1202Chansey, CardId::A1189Rattata, CardId::PA001Potion]);
    let ids_b = vec![CardId::A1094Pikachu, CardId::A1059Poliwag];
    assert(ids_b@ == seq![CardId::A1094Pikachu, CardId::A1059Poliwag]);
    let mut game = position(deck_of(ids_a, EnergyType::Fighting), deck_of(ids_b, EnergyType::Lightning));
    let e_a0: Vec<EnergyType> = Vec::new();
    assert(e_a0@ == Seq::<EnergyType>::empty());
    let a0 = placed_at(CardId::A1202Chansey, e_a0, 20);
    let e_a1: Vec<EnergyType> = Vec::new();
    assert(e_a1@ == Seq::<EnergyType>::empty());
    let a1 = placed(CardId::A1189Rattata, e_a1);
    let e_b0: Vec<EnergyType> = vec![EnergyType::Lightning];
    assert(e_b0@ == seq![EnergyType::Lightning]);
    let b0 = placed(CardId::A1094Pikachu, e_b0);
    let e_b1: Vec<EnergyType> = Vec::new();
    assert(e_b1@ == Seq::<EnergyType>::empty());
    let b1 = placed(CardId::A1059Poliwag, e_b1);
    let ghost board_a = seq![a0@, a1@];
    let ghost board_b = seq![b0@, b1@];
    let row_a = vec![a0, a1];
    let row_b = vec![b0, b1];
    assert(row_a@.map_values(|c: PlayedCard| c@) =~= board_a);
    assert(row_b@.map_values(|c: PlayedCard| c@) =~= board_b);
    let hand_a0 = get_card_by_enum(CardId::PA001Potion);
    let hand_a = vec![hand_a0];
    assert(cards_view(hand_a@) =~= seq![spec_card_by_enum(CardId::PA001Potion)]);
    let hand_b: Vec<Card> = Vec::new();
    game.hands = [hand_a, hand_b];
    game.points = [0, 2];
    assert(game.points@ =~= seq![0u8, 2u8]);
    game.energy_zone = [spent_zone(EnergyType::Fighting), game.energy_zone[1]];
    game.set_board(row_a, row_b);
    assert(forall|i: int| 0 <= i < 4 ==> #[trigger] game.slot(0, i) == row(board_a)[i]);
    assert(forall|i: int| 0 <= i < 4 ==> #[trigger] game.slot(1, i) == row(board_b)[i]);
    assert(game.winner is None && game.turn_count == 5 && game.current_player == 0);
    assert(game.points@ == seq![0u8, 2u8]);
    assert(game.deck(0) == crate::puzzles::spec_puzzle_deck_cards(seq![CardId::A1202Chansey, CardId::A1189Rattata, CardId::PA001Potion]));
    assert(game.deck(1) == crate::puzzles::spec_puzzle_deck_cards(seq![CardId::A1094Pikachu, CardId::A1059Poliwag]));
    assert(game.decks@[0].energy_types@ == seq![EnergyType::Fighting]);
    assert(game.decks@[1].energy_types@ == seq![EnergyType::Lightning]);
    assert(game.hand(0) == seq![spec_card_by_enum(CardId::PA001Potion)]);
    assert(game.hand(1) == Seq::<CardView>::empty());
    assert(game.discard(0).len() == 0 && game.discard(1).len() == 0);
    assert(game.energy_zone@[0] == EnergyZone { current: None, next: Some(EnergyType::Fighting) });
    assert(game.active_stadium is None && !game.has_retreated);
    assert(game.has_used_stadium@ == seq![false, false] && game.turn_effects@.len() == 0);
    assert(forall|i: int| 0 <= i < 4 ==> #[trigger] game.slot(0, i) == row(seq![in_play_at(CardId::A1202Chansey, Seq::<EnergyType>::empty(), 20), in_play(CardId::A1189Rattata, Seq::<EnergyType>::empty())])[i]);
    assert(forall|i: int| 0 <= i < 4 ==> #[trigger] game.slot(1, i) == row(seq![in_play(CardId::A1094Pikachu, seq![EnergyType::Lightning]), in_play(CardId::A1059Poliwag, Seq::<EnergyType>::empty())])[i]);
    let acc0 = play("Potion");
    let acceptable = vec![acc0];
    assert(acceptable@ == seq![acc0]);
    Puzzle { name: "potion_survives_the_visible_lethal", why: "Gnaw does exactly Chansey's 20 remaining HP for the opponent's third point; Potion denies it.", game, acceptable }
}

/// Starmie ex is on 20 remaining HP with the opponent on 2 points, so losing it hands over the
/// 2 points that end the game. Its Retreat Cost is zero, and the Chansey behind it survives
/// Rollout's 70 comfortably. Hydro Splash's 90 does not reach Snorlax's 150 HP, so attacking
/// only delays the loss by nothing at all.
#[verifier::rlimit(40)]
pub fn retreat_the_ex_out_of_the_game_losing_knockout() -> (r: Puzzle)
    ensures
        r.name@ == "retreat_the_ex_out_of_the_game_losing_knockout"@,
        r.why@ == "Starmie ex retreats for free; leaving it Active gives Rollout the 2 points that win the game."@,
        r.acceptable@.len() == 1,
        r.acceptable@[0].kind@ == AcceptableKindView::RetreatTo(1),
        puzzle_position(
            r.game,
            seq![CardId::A1074Staryu, CardId::A1076StarmieEx, CardId::A1202Chansey],
            EnergyType::Water,
            seq![CardId::A1211Snorlax, CardId::A1059Poliwag],
            EnergyType::Lightning,
            row(seq![in_play_at(CardId::A1076StarmieEx, seq![EnergyType::Water, EnergyType::Water], 20), in_play(CardId::A1202Chansey, Seq::<EnergyType>::empty())]),
            row(seq![in_play(CardId::A1211Snorlax, seq![EnergyType::Lightning, EnergyType::Lightning, EnergyType::Lightning, EnergyType::Lightning]), in_play(CardId::A1059Poliwag, Seq::<EnergyType>::empty())]),
            Seq::<CardView>::empty(),
            Seq::<CardView>::empty(),
            seq![0u8, 2u8],
            EnergyZone { current: None, next: Some(EnergyType::Water) },
        ),
{
    let ids_a = vec![CardId::A1074Staryu, CardId::A1076StarmieEx, CardId::A1202Chansey];
    assert(ids_a@ == seq![CardId::A1074Staryu, CardId::A1076StarmieEx, CardId::A1202Chansey]);
    let ids_b = vec![CardId::A1211Snorlax, CardId::A1059Poliwag];
    assert(ids_b@ == seq![CardId::A1211Snorlax, CardId::A1059Poliwag]);
    let mut game = position(deck_of(ids_a, EnergyType::Water), deck_of(ids_b, EnergyType::Lightning));
    let e_a0: Vec<EnergyType> = vec![EnergyType::Water, EnergyType::Water];
    assert(e_a0@ == seq![EnergyType::Water, EnergyType::Water]);
    let a0 = placed_at(CardId::A1076StarmieEx, e_a0, 20);
    let e_a1: Vec<EnergyType> = Vec::new();
    assert(e_a1@ == Seq::<EnergyType>::empty());
    let a1 = placed(CardId::A1202Chansey, e_a1);
    let e_b0: Vec<EnergyType> = vec![EnergyType::Lightning, EnergyType::Lightning, EnergyType::Lightning, EnergyType::Lightning];
    assert(e_b0@ == seq![EnergyType::Lightning, EnergyType::Lightning, EnergyType::Lightning, EnergyType::Lightning]);
    let b0 = placed(CardId::A1211Snorlax, e_b0);
    let e_b1: Vec<EnergyType> = Vec::new();
    assert(e_b1@ == Seq::<EnergyType>::empty());
    let b1 = placed(CardId::A1059Poliwag, e_b1);
    let ghost board_a = seq![a0@, a1@];
    let ghost board_b = seq![b0@, b1@];
    let row_a = vec![a0, a1];
    let row_b = vec![b0, b1];
    assert(row_a@.map_values(|c: PlayedCard| c@) =~= board_a);
    assert(row_b@.map_values(|c: PlayedCard| c@) =~= board_b);
    game.points = [0, 2];
    assert(game.points@ =~= seq![0u8, 2u8]);
    game.energy_zone = [spent_zone(EnergyType::Water), game.energy_zone[1]];
    game.set_board(row_a, row_b);
    assert(forall|i: int| 0 <= i < 4 ==> #[trigger] game.slot(0, i) == row(board_a)[i]);
    assert(forall|i: int| 0 <= i < 4 ==> #[trigger] game.slot(1, i) == row(board_b)[i]);
    assert(game.winner is None && game.turn_count == 5 && game.current_player == 0);
    assert(game.points@ == seq![0u8, 2u8]);
    assert(game.deck(0) == crate::puzzles::spec_puzzle_deck_cards(seq![CardId::A1074Staryu, CardId::A1076StarmieEx, CardId::A1202Chansey]));
    assert(game.deck(1) == crate::puzzles::spec_puzzle_deck_cards(seq![CardId::A1211Snorlax, CardId::A1059Poliwag]));
    assert(game.decks@[0].energy_types@ == seq![EnergyType::Water]);
    assert(game.decks@[1].energy_types@ == seq![EnergyType::Lightning]);
    assert(game.hand(0) == Seq::<CardView>::empty());
    assert(game.hand(1) == Seq::<CardView>::empty());
    assert(game.discard(0).len() == 0 && game.discard(1).len() == 0);
    assert(game.energy_zone@[0] == EnergyZone { current: None, next: Some(EnergyType::Water) });
    assert(game.active_stadium is None && !game.has_retreated);
    assert(game.has_used_stadium@ == seq![false, false] && game.turn_effects@.len() == 0);
    assert(forall|i: int| 0 <= i < 4 ==> #[trigger] game.slot(0, i) == row(seq![in_play_at(CardId::A1076StarmieEx, seq![EnergyType::Water, EnergyType::Water], 20), in_play(CardId::A1202Chansey, Seq::<EnergyType>::empty())])[i]);
    assert(forall|i: int| 0 <= i < 4 ==> #[trigger] game.slot(1, i) == row(seq![in_play(CardId::A1211Snorlax, seq![EnergyType::Lightning, EnergyType::Lightning, EnergyType::Lightning, EnergyType::Lightning]), in_play(CardId::A1059Poliwag, Seq::<EnergyType>::empty())])[i]);
    let acc0 = retreat_to(1);
    let acceptable = vec![acc0];
    assert(acceptable@ == seq![acc0]);
    Puzzle { name: "retreat_the_ex_out_of_the_game_losing_knockout", why: "Starmie ex retreats for free; leaving it Active gives Rollout the 2 points that win the game.", game, acceptable }
}

/// The puzzles of this group, in a stable order.
pub fn puzzles() -> (r: Vec<Puzzle>)
    ensures
        names_of(r@) == seq!["do_not_attack_into_the_lethal_rocky_helmet"@, "attack_through_the_helmet_when_it_cannot_kill"@, "potion_survives_the_visible_lethal"@, "retreat_the_ex_out_of_the_game_losing_knockout"@],
        forall|i: int| 0 <= i < r@.len() ==> #[trigger] r@[i].acceptable@.len() > 0,
{
    let p0 = do_not_attack_into_the_lethal_rocky_helmet();
    let p1 = attack_through_the_helmet_when_it_cannot_kill();
    let p2 = potion_survives_the_visible_lethal();
    let p3 = retreat_the_ex_out_of_the_game_losing_knockout();
    let r = vec![p0, p1, p2, p3];
    assert(names_of(r@) =~= seq!["do_not_attack_into_the_lethal_rocky_helmet"@, "attack_through_the_helmet_when_it_cannot_kill"@, "potion_survives_the_visible_lethal"@, "retreat_the_ex_out_of_the_game_losing_knockout"@]);
    r
}

} // verus!
