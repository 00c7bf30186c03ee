use vstd::prelude::*;

use rand::rngs::StdRng;
use rand::seq::SliceRandom;

use crate::models::{cards_view, clone_cards, clone_energy, Card, Deck};
use crate::state::State;

verus! {

#[verifier::external_type_specification]
#[verifier::external_body]
pub struct ExStdRng(StdRng);

/// `SliceRandom::shuffle` of rand: a Fisher-Yates pass of swaps, so the cards come out in
/// some order of the same cards. Which order depends on the generator and is not stated.
#[verifier::external_body]
fn shuffle_cards(cards: &mut Vec<Card>, rng: &mut StdRng)
    ensures
        final(cards)@.len() == old(cards)@.len(),
        cards_view(final(cards)@).to_multiset() == cards_view(old(cards)@).to_multiset(),
{
    cards.shuffle(rng);
}

/// Plies of own-turn search for the bare `o` code.
pub const DEFAULT_DEPTH: usize = 3;

/// Determinisations of the opponent's hand per end-of-turn position for the bare `o` code.
pub const DEFAULT_SAMPLES: usize = 3;

/// Actions that may be applied inside reply rollouts during a single decision.
pub const DEFAULT_NODE_BUDGET: usize = 8000;

/// Actions a single reply rollout may apply before it is cut short.
pub const DEFAULT_REPLY_STEP_CAP: usize = 80;

/// Depth of the search the opponent uses for their reply.
pub const DEFAULT_REPLY_DEPTH: usize = 2;

/// How the opponent plays their sampled reply turn.
#[derive(Debug, Clone, Copy, PartialEq, Eq, Structural)]
pub enum ReplyPolicy {
    /// One ply: score each legal action's expected successor and take the best.
    Greedy,
    /// The `e` search to the given depth, from the replying player's own perspective.
    ExpectiMiniMax { depth: usize },
}

impl ReplyPolicy {
    /// Plies the reply search looks ahead: at least one.
    pub fn depth(self) -> (r: usize)
        ensures
            r == match self {
                ReplyPolicy::Greedy => 1,
                ReplyPolicy::ExpectiMiniMax { depth } => if depth >= 1 {
                    depth
                } else {
                    1
                },
            },
            r >= 1,
    {
        match self {
            ReplyPolicy::Greedy => 1,
            ReplyPolicy::ExpectiMiniMax { depth } => if depth >= 1 {
                depth
            } else {
                1
            },
        }
    }
}

/// The opponent of `myself`.
pub open spec fn opponent_of(myself: usize) -> usize {
    if myself == 0 {
        1
    } else {
        0
    }
}

/// Everything of `state` but the opponent's deck cards and hand is as in `old`.
pub open spec fn same_public_state(state: State, old: State, myself: usize) -> bool {
    let o = opponent_of(myself) as int;
    &&& state.winner == old.winner
    &&& state.points == old.points
    &&& state.turn_count == old.turn_count
    &&& state.current_player == old.current_player
    &&& state.decks[myself as int] == old.decks[myself as int]
    &&& state.decks[o].energy_types@ == old.decks[o].energy_types@
    &&& state.hands[myself as int] == old.hands[myself as int]
    &&& state.discard_piles == old.discard_piles
    &&& state.energy_zone == old.energy_zone
    &&& state.in_play_pokemon == old.in_play_pokemon
    &&& state.active_stadium == old.active_stadium
    &&& state.has_used_stadium == old.has_used_stadium
    &&& state.has_retreated == old.has_retreated
    &&& state.turn_effects == old.turn_effects
    &&& state.move_generation_stack == old.move_generation_stack
}

/// The determinisation step on its own, exposed so that callers can check what a sampled
/// position keeps: the same contract as `determinise_opponent_hand`.
pub fn determinise_opponent_hand_for_test(state: State, myself: usize, rng: &mut StdRng) -> (r: State)
    requires
        myself < 2,
    ensures
        same_public_state(r, state, myself),
        r.hands[opponent_of(myself) as int].len() == state.hands[opponent_of(myself) as int].len(),
        r.decks[opponent_of(myself) as int].cards.len() == state.decks[opponent_of(
            myself,
        ) as int].cards.len(),
        (cards_view(r.hands[opponent_of(myself) as int]@) + cards_view(
            r.decks[opponent_of(myself) as int].cards@,
        )).to_multiset() == (cards_view(state.decks[opponent_of(myself) as int].cards@)
            + cards_view(state.hands[opponent_of(myself) as int]@)).to_multiset(),
{
    determinise_opponent_hand(state, myself, rng)
}

/// Reshuffles everything the opponent has not revealed (their deck and hand together) and deals
/// them a fresh hand of the same size. Everything public is left exactly as it was; only the
/// hand/deck split is resampled.
pub fn determinise_opponent_hand(state: State, myself: usize, rng: &mut StdRng) -> (r: State)
    requires
        myself < 2,
    ensures
        same_public_state(r, state, myself),
        r.hands[opponent_of(myself) as int].len() == state.hands[opponent_of(myself) as int].len(),
        r.decks[opponent_of(myself) as int].cards.len() == state.decks[opponent_of(
            myself,
        ) as int].cards.len(),
        (cards_view(r.hands[opponent_of(myself) as int]@) + cards_view(
            r.decks[opponent_of(myself) as int].cards@,
        )).to_multiset() == (cards_view(state.decks[opponent_of(myself) as int].cards@)
            + cards_view(state.hands[opponent_of(myself) as int]@)).to_multiset(),
{
    let opponent: usize = if myself == 0 {
        1
    } else {
        0
    };
    let State {
        winner,
        points,
        turn_count,
        current_player,
        decks,
        hands,
        discard_piles,
        energy_zone,
        in_play_pokemon,
        active_stadium,
        has_used_stadium,
        has_retreated,
        turn_effects,
        move_generation_stack,
    } = state;
    let mut decks = decks;
    let mut hands = hands;
    let hand_size = hands[opponent].len();
    let ghost deck_v = cards_view(decks@[opponent as int].cards@);
    let ghost hand_v = cards_view(hands@[opponent as int]@);
    let mut unseen = clone_cards(&decks[opponent].cards);
    let mut hand_copy = clone_cards(&hands[opponent]);
    let ghost (a, b) = (unseen@, hand_copy@);
    unseen.append(&mut hand_copy);
    assert(cards_view(unseen@) =~= deck_v + hand_v) by {
        assert(unseen@ =~= a + b);
        assert(cards_view(a + b) =~= cards_view(a) + cards_view(b));
    }
    let ghost shuffled_from = cards_view(unseen@);
    shuffle_cards(&mut unseen, rng);
    let split_at = if hand_size < unseen.len() {
        hand_size
    } else {
        unseen.len()
    };
    let ghost whole = unseen@;
    let remaining_deck = unseen.split_off(split_at);
    assert(cards_view(unseen@) + cards_view(remaining_deck@) =~= cards_view(whole)) by {
        assert(whole =~= unseen@ + remaining_deck@);
        assert(cards_view(unseen@ + remaining_deck@) =~= cards_view(unseen@) + cards_view(
            remaining_deck@,
        ));
    }
    let energy_types = clone_energy(&decks[opponent].energy_types);
    hands.set(opponent, unseen);
    decks.set(opponent, Deck { cards: remaining_deck, energy_types });
    State {
        winner,
        points,
        turn_count,
        current_player,
        decks,
        hands,
        discard_piles,
        energy_zone,
        in_play_pokemon,
        active_stadium,
        has_used_stadium,
        has_retreated,
        turn_effects,
        move_generation_stack,
    }
}

} // verus!
