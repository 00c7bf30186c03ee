use vstd::prelude::*;

use crate::abilities::{AbilityMechanic, AbilityMechanicView};
use crate::actions::SimpleAction;
use crate::effects::TurnEffect;
use crate::models::{cards_view, Card, CardView, Deck, EnergyType};
use crate::played_card::{PlayedCard, PlayedCardView};

verus! {

/// How a game ended.
#[derive(Debug, Clone, Copy, PartialEq, Eq, Structural, Hash)]
pub enum GameOutcome {
    Win(usize),
    Tie,
}

/// A player's Energy Zone: the Energy available this turn and the next one.
#[derive(Debug, Clone, Copy, PartialEq, Eq, Structural, Hash)]
pub struct EnergyZone {
    pub current: Option<EnergyType>,
    pub next: Option<EnergyType>,
}

/// A game position. Index 0 of each player's `in_play_pokemon` is the Active Spot, 1 to 3 the
/// Bench.
#[derive(Debug)]
pub struct State {
    pub winner: Option<GameOutcome>,
    pub points: [u8; 2],
    pub turn_count: u8,
    pub current_player: usize,
    pub decks: [Deck; 2],
    pub hands: [Vec<Card>; 2],
    pub discard_piles: [Vec<Card>; 2],
    pub energy_zone: [EnergyZone; 2],
    pub in_play_pokemon: [[Option<PlayedCard>; 4]; 2],
    pub active_stadium: Option<Card>,
    pub has_used_stadium: [bool; 2],
    pub has_retreated: bool,
    /// Turn effects, each with the first and last turn on which it applies.
    pub turn_effects: Vec<(u8, u8, TurnEffect)>,
    /// Choices the game owes a player before play goes on (the promotion after a Knock Out),
    /// each with the player who must choose, most recent last.
    pub move_generation_stack: Vec<(usize, Vec<SimpleAction>)>,
}

pub open spec fn opt_played_view(o: Option<PlayedCard>) -> Option<PlayedCardView> {
    match o {
        Some(c) => Some(c@),
        None => None,
    }
}

pub open spec fn opt_card_view(o: Option<Card>) -> Option<CardView> {
    match o {
        Some(c) => Some(c@),
        None => None,
    }
}

impl State {
    /// What sits in slot `i` (0 Active, 1 to 3 Bench) of player `p`.
    pub open spec fn slot(&self, p: int, i: int) -> Option<PlayedCardView> {
        opt_played_view(self.in_play_pokemon@[p]@[i])
    }

    pub open spec fn active(&self, p: int) -> Option<PlayedCardView> {
        self.slot(p, 0)
    }

    pub open spec fn deck(&self, p: int) -> Seq<CardView> {
        cards_view(self.decks@[p].cards@)
    }

    pub open spec fn hand(&self, p: int) -> Seq<CardView> {
        cards_view(self.hands@[p]@)
    }

    pub open spec fn discard(&self, p: int) -> Seq<CardView> {
        cards_view(self.discard_piles@[p]@)
    }

    pub open spec fn stadium(&self) -> Option<CardView> {
        opt_card_view(self.active_stadium)
    }

    /// Player `p` has a Pokémon in play whose Ability, as it applies in play, satisfies `f`.
    pub open spec fn any_in_play_ability(
        &self,
        p: int,
        f: spec_fn(AbilityMechanicView) -> bool,
    ) -> bool {
        exists|i: int|
            0 <= i < 4 && match #[trigger] self.slot(p, i) {
                Some(c) => match c.ability_mechanic() {
                    Some(m) => f(m),
                    None => false,
                },
                None => false,
            }
    }

    /// A position with nothing on it: no cards anywhere, player 0 to move on turn 0.
    pub fn new_empty() -> (r: State)
        ensures
            r.winner is None,
            r.points@ == seq![0u8, 0u8],
            r.turn_count == 0,
            r.current_player == 0,
            forall|p: int, i: int| 0 <= p < 2 && 0 <= i < 4 ==> r.slot(p, i) is None,
            forall|p: int|
                0 <= p < 2 ==> r.deck(p).len() == 0 && r.hand(p).len() == 0 && r.discard(p).len()
                    == 0,
            r.active_stadium is None,
            r.has_used_stadium@ == seq![false, false],
            !r.has_retreated,
            r.turn_effects@.len() == 0,
            r.move_generation_stack@.len() == 0,
    {
        let r = State {
            winner: None,
            points: [0, 0],
            turn_count: 0,
            current_player: 0,
            decks: [
                Deck { cards: Vec::new(), energy_types: Vec::new() },
                Deck { cards: Vec::new(), energy_types: Vec::new() },
            ],
            hands: [Vec::new(), Vec::new()],
            discard_piles: [Vec::new(), Vec::new()],
            energy_zone: [EnergyZone { current: None, next: None }, EnergyZone { current: None, next: None }],
            in_play_pokemon: [[None, None, None, None], [None, None, None, None]],
            active_stadium: None,
            has_used_stadium: [false, false],
            has_retreated: false,
            turn_effects: Vec::new(),
            move_generation_stack: Vec::new(),
        };
        assert(r.points@ =~= seq![0u8, 0u8]);
        assert(r.has_used_stadium@ =~= seq![false, false]);
        r
    }

    /// The Pokémon in player `player`'s Active Spot, if any.
    pub fn maybe_get_active(&self, player: usize) -> (r: Option<&PlayedCard>)
        requires
            player < 2,
        ensures
            opt_played_view(
                match r {
                    Some(c) => Some(*c),
                    None => None,
                },
            ) == self.active(player as int),
    {
        match &self.in_play_pokemon[player][0] {
            Some(c) => Some(c),
            None => None,
        }
    }

    /// The Pokémon in player `player`'s Active Spot, which must be occupied.
    pub fn get_active(&self, player: usize) -> (r: &PlayedCard)
        requires
            player < 2,
            self.active(player as int) is Some,
        ensures
            self.active(player as int) == Some(r@),
    {
        match &self.in_play_pokemon[player][0] {
            Some(c) => c,
            None => unreached(),
        }
    }

    /// Adds a turn effect for this turn and the next `duration` turns.
    pub fn add_turn_effect(&mut self, effect: TurnEffect, duration: u8)
        requires
            old(self).turn_count + duration <= u8::MAX,
        ensures
            final(self).turn_effects@ == old(self).turn_effects@.push(
                (old(self).turn_count, (old(self).turn_count + duration) as u8, effect),
            ),
            final(self).winner == old(self).winner,
            final(self).points == old(self).points,
            final(self).turn_count == old(self).turn_count,
            final(self).current_player == old(self).current_player,
            final(self).decks == old(self).decks,
            final(self).hands == old(self).hands,
            final(self).discard_piles == old(self).discard_piles,
            final(self).energy_zone == old(self).energy_zone,
            final(self).in_play_pokemon == old(self).in_play_pokemon,
            final(self).active_stadium == old(self).active_stadium,
            final(self).has_used_stadium == old(self).has_used_stadium,
            final(self).has_retreated == old(self).has_retreated,
            final(self).move_generation_stack == old(self).move_generation_stack,
    {
        let t = self.turn_count;
        self.turn_effects.push((t, t + duration, effect));
    }

    /// Puts `active` then up to three Bench Pokémon in play for each player, in slot order.
    pub fn set_board(&mut self, player_0: Vec<PlayedCard>, player_1: Vec<PlayedCard>)
        requires
            player_0@.len() <= 4,
            player_1@.len() <= 4,
        ensures
            forall|i: int|
                0 <= i < 4 ==> final(self).slot(0, i) == (if i < player_0@.len() {
                    Some(player_0@[i]@)
                } else {
                    None
                }),
            forall|i: int|
                0 <= i < 4 ==> final(self).slot(1, i) == (if i < player_1@.len() {
                    Some(player_1@[i]@)
                } else {
                    None
                }),
            final(self).winner == old(self).winner,
            final(self).points == old(self).points,
            final(self).turn_count == old(self).turn_count,
            final(self).current_player == old(self).current_player,
            final(self).decks == old(self).decks,
            final(self).hands == old(self).hands,
            final(self).discard_piles == old(self).discard_piles,
            final(self).energy_zone == old(self).energy_zone,
            final(self).active_stadium == old(self).active_stadium,
            final(self).has_used_stadium == old(self).has_used_stadium,
            final(self).has_retreated == old(self).has_retreated,
            final(self).turn_effects == old(self).turn_effects,
            final(self).move_generation_stack == old(self).move_generation_stack,
    {
        let row0 = fill_row(player_0);
        let row1 = fill_row(player_1);
        self.in_play_pokemon = [row0, row1];
    }
}

/// Four slots holding `cards` in order, then empty slots.
fn fill_row(cards: Vec<PlayedCard>) -> (r: [Option<PlayedCard>; 4])
    requires
        cards@.len() <= 4,
    ensures
        forall|i: int|
            0 <= i < 4 ==> opt_played_view(r@[i]) == (if i < cards@.len() {
                Some(cards@[i]@)
            } else {
                None
            }),
{
    let ghost orig = cards@;
    let mut rest = cards;
    let mut row: [Option<PlayedCard>; 4] = [None, None, None, None];
    let n = rest.len();
    let mut k: usize = n;
    while k > 0
        invariant
            k <= n,
            n == orig.len(),
            n <= 4,
            rest@ == orig.take(k as int),
            forall|i: int|
                0 <= i < 4 ==> opt_played_view(row@[i]) == (if k <= i < n {
                    Some(orig[i]@)
                } else {
                    None
                }),
        decreases k,
    {
        let c = rest.pop().unwrap();
        k -= 1;
        assert(orig.take(k + 1).drop_last() =~= orig.take(k as int));
        row.set(k, Some(c));
    }
    row
}

/// Whether player `player` has a Pokémon in play with Serperior's Jungle Totem.
pub fn has_serperior_jungle_totem(state: &State, player: usize) -> (r: bool)
    requires
        player < 2,
    ensures
        r == state.any_in_play_ability(
            player as int,
            |m: AbilityMechanicView| m == AbilityMechanicView::DoubleGrassEnergy,
        ),
{
    let mut i: usize = 0;
    while i < 4
        invariant
            i <= 4,
            player < 2,
            forall|j: int|
                0 <= j < i ==> !match #[trigger] state.slot(player as int, j) {
                    Some(c) => match c.ability_mechanic() {
                        Some(m) => m == AbilityMechanicView::DoubleGrassEnergy,
                        None => false,
                    },
                    None => false,
                },
        decreases 4 - i,
    {
        match &state.in_play_pokemon[player][i] {
            Some(c) => {
                if let Some(AbilityMechanic::DoubleGrassEnergy) = c.ability_mechanic() {
                    assert(state.slot(player as int, i as int) == Some(c@));
                    return true;
                }
            },
            None => {},
        }
        i += 1;
    }
    false
}

impl PlayedCard {
    /// Whether Jungle Totem doubles this Pokémon's [G] Energy: the owner has it in play and
    /// this Pokémon counts as [G].
    pub fn has_double_grass(&self, state: &State, player: usize) -> (r: bool)
        requires
            player < 2,
        ensures
            r == (state.any_in_play_ability(
                player as int,
                |m: AbilityMechanicView| m == AbilityMechanicView::DoubleGrassEnergy,
            ) && self@.is_type(EnergyType::Grass)),
    {
        let jungle_totem_active = has_serperior_jungle_totem(state, player);
        jungle_totem_active && self.is_type(EnergyType::Grass)
    }

    /// The attached Energy, with each [G] counted twice when Jungle Totem applies to it.
    pub fn get_effective_attached_energy(&self, state: &State, player: usize) -> (r: Vec<
        EnergyType,
    >)
        requires
            player < 2,
        ensures
            r@ == (if state.any_in_play_ability(
                player as int,
                |m: AbilityMechanicView| m == AbilityMechanicView::DoubleGrassEnergy,
            ) && self@.is_type(EnergyType::Grass) {
                crate::played_card::double_grass(self@.attached_energy)
            } else {
                self@.attached_energy
            }),
    {
        if self.has_double_grass(state, player) {
            double_grass_energy(&self.attached_energy)
        } else {
            crate::models::clone_energy(&self.attached_energy)
        }
    }
}

/// `v` with every Grass entry followed by a second Grass.
pub fn double_grass_energy(v: &Vec<EnergyType>) -> (r: Vec<EnergyType>)
    ensures
        r@ == crate::played_card::double_grass(v@),
{
    let mut doubled: Vec<EnergyType> = Vec::new();
    let mut i: usize = 0;
    while i < v.len()
        invariant
            i <= v.len(),
            doubled@ == crate::played_card::double_grass(v@.take(i as int)),
        decreases v.len() - i,
    {
        assert(v@.take(i + 1).drop_last() =~= v@.take(i as int));
        doubled.push(v[i]);
        if v[i] == EnergyType::Grass {
            doubled.push(EnergyType::Grass);
        }
        i += 1;
    }
    assert(v@.take(v.len() as int) =~= v@);
    doubled
}

} // verus!
