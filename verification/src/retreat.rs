use vstd::prelude::*;

use crate::abilities::{AbilityMechanic, AbilityMechanicView};
use crate::database::CardId;
use crate::effects::{CardEffect, CardEffectView, TurnEffect};
use crate::models::{Card, CardView, EnergyType};
use crate::played_card::{PlayedCard, PlayedCardView};
use crate::stadiums::{get_peculiar_plaza_retreat_reduction, spec_has_stadium, stadium_wf};
use crate::state::State;

verus! {

/// `n` Colorless Energy.
pub open spec fn colorless(n: nat) -> Seq<EnergyType> {
    Seq::new(n, |i: int| EnergyType::Colorless)
}

/// `s` with its last `k` entries removed (all of them when `k` is larger).
pub open spec fn drop_n(s: Seq<EnergyType>, k: int) -> Seq<EnergyType> {
    if k >= s.len() {
        Seq::empty()
    } else if k <= 0 {
        s
    } else {
        s.take(s.len() - k)
    }
}

/// Total Retreat Cost increase of `IncreasedRetreatCost` effects.
pub open spec fn retreat_increase(s: Seq<CardEffectView>) -> int
    decreases s.len(),
{
    if s.len() == 0 {
        0
    } else {
        retreat_increase(s.drop_last()) + match s.last() {
            CardEffectView::IncreasedRetreatCost { amount } => amount as int,
            _ => 0,
        }
    }
}

/// Total `ReducedRetreatCost` of the turn effects that apply on turn `turn`.
pub open spec fn turn_retreat_reduction(s: Seq<(u8, u8, TurnEffect)>, turn: u8) -> int
    decreases s.len(),
{
    if s.len() == 0 {
        0
    } else {
        turn_retreat_reduction(s.drop_last(), turn) + if s.last().0 <= turn <= s.last().1 {
            match s.last().2 {
                TurnEffect::ReducedRetreatCost { amount } => amount as int,
                _ => 0,
            }
        } else {
            0
        }
    }
}

/// Shaymin's Sky Support on a Bench slot: 1 when that Pokémon has it.
pub open spec fn sky_support(slot: Option<PlayedCardView>) -> int {
    match slot {
        Some(c) => match c.ability_mechanic() {
            Some(AbilityMechanicView::ReduceRetreatCostOfYourActiveBasicFromBench { amount }) => if amount == 1 {
                1int
            } else {
                0
            },
            _ => 0,
        },
        None => 0,
    }
}

/// A typed Bench reduction on a slot for an Active of type `t`.
pub open spec fn typed_bench_reduction(slot: Option<PlayedCardView>, t: EnergyType) -> int {
    match slot {
        Some(c) => match c.ability_mechanic() {
            Some(
                AbilityMechanicView::ReduceRetreatCostOfYourActiveTypedFromBench {
                    energy_type,
                    amount,
                },
            ) => if energy_type == t {
                amount as int
            } else {
                0
            },
            _ => 0,
        },
        None => 0,
    }
}

/// A slot holds Ariados's Trap Territory.
pub open spec fn trap_territory(slot: Option<PlayedCardView>) -> bool {
    match slot {
        Some(c) => match c.ability_mechanic() {
            Some(AbilityMechanicView::IncreaseRetreatCostForOpponentActive { amount }) => amount
                == 1,
            _ => false,
        },
        None => false,
    }
}

/// Everything taken off the Retreat Cost of `card` as the current player's Active.
pub open spec fn retreat_reduction(state: &State, card: PlayedCardView) -> int {
    let p = state.current_player as int;
    let stage = card.card.stage();
    turn_retreat_reduction(state.turn_effects@, state.turn_count) + (if stage == Some(0u8) {
        sky_support(state.slot(p, 1)) + sky_support(state.slot(p, 2)) + sky_support(
            state.slot(p, 3),
        )
    } else {
        0
    }) + (match card.card.energy_type() {
        Some(t) => typed_bench_reduction(state.slot(p, 1), t) + typed_bench_reduction(
            state.slot(p, 2),
            t,
        ) + typed_bench_reduction(state.slot(p, 3), t),
        None => 0,
    }) + (match card.card.energy_type() {
        Some(_) => if card.is_type(EnergyType::Psychic) && spec_has_stadium(
            state,
            CardId::B2155PeculiarPlaza,
        ) {
            2int
        } else {
            0
        },
        None => 0,
    })
}

/// The opponent of the current player has Trap Territory in play.
pub open spec fn opponent_traps(state: &State) -> bool {
    let o = (state.current_player as int + 1) % 2;
    trap_territory(state.slot(o, 0)) || trap_territory(state.slot(o, 1)) || trap_territory(
        state.slot(o, 2),
    ) || trap_territory(state.slot(o, 3))
}

/// The Retreat Cost of `card` as the current player's Active.
pub open spec fn spec_retreat_cost(state: &State, card: PlayedCardView) -> Seq<EnergyType> {
    match card.card {
        CardView::Trainer(_) => Seq::empty(),
        CardView::Pokemon(p) => {
            if card.ability_mechanic() == Some(AbilityMechanicView::NoRetreatIfHasEnergy)
                && card.attached_energy.len() > 0 {
                Seq::empty()
            } else if card.has_tool(CardId::B2a087BigAirBalloon) && p.stage == 2 {
                Seq::empty()
            } else {
                let c1 = p.retreat_cost + colorless(
                    retreat_increase(card.effective_card_effects()) as nat,
                );
                let c2 = if card.has_tool(CardId::A4a067InflatableBoat) && p.energy_type
                    == EnergyType::Water {
                    drop_n(c1, 1)
                } else {
                    c1
                };
                let c3 = if card.has_tool(CardId::B3b064SmallBalloon) && p.stage == 0 {
                    drop_n(c2, 1)
                } else {
                    c2
                };
                let c4 = drop_n(c3, retreat_reduction(state, card));
                if opponent_traps(state) {
                    c4.push(EnergyType::Colorless)
                } else {
                    c4
                }
            }
        },
    }
}

/// The sums the Retreat Cost is built from fit in `u8`, as the arithmetic requires.
pub open spec fn retreat_sums_fit(state: &State, card: PlayedCardView) -> bool {
    &&& retreat_increase(card.effective_card_effects()) <= u8::MAX
    &&& retreat_reduction(state, card) <= u8::MAX
}

/// The current player's Active may retreat: not already retreated this turn, no effect
/// forbids it, and it is not a Fossil.
pub fn can_retreat(state: &State) -> (r: bool)
    requires
        state.current_player < 2,
        state.active(state.current_player as int) is Some,
    ensures
        r == ({
            let a = state.active(state.current_player as int).unwrap();
            !state.has_retreated && !(exists|i: int|
                0 <= i < a.effects.len() && (#[trigger] a.effects[i]).0
                    == CardEffectView::NoRetreat) && !a.is_fossil()
        }),
{
    let active = state.get_active(state.current_player);
    let has_no_retreat_effect = active.has_effect(&CardEffect::NoRetreat);
    let is_fossil = active.is_fossil();
    !state.has_retreated && !has_no_retreat_effect && !is_fossil
}

/// Removes the last `k` entries (all of them when fewer).
fn pop_n(v: &mut Vec<EnergyType>, k: u8)
    ensures
        final(v)@ == drop_n(old(v)@, k as int),
{
    let mut i: u8 = 0;
    while i < k
        invariant
            i <= k,
            v@ == drop_n(old(v)@, i as int),
        decreases k - i,
    {
        v.pop();
        i += 1;
        assert(v@ =~= drop_n(old(v)@, i as int));
    }
}

/// Sum of the `IncreasedRetreatCost` effects.
fn sum_retreat_increase(effects: &Vec<CardEffect>) -> (r: u8)
    requires
        retreat_increase(effects@.map_values(|e: CardEffect| e@)) <= u8::MAX,
    ensures
        r == retreat_increase(effects@.map_values(|e: CardEffect| e@)),
{
    let ghost view = effects@.map_values(|e: CardEffect| e@);
    let mut total: u8 = 0;
    let mut i: usize = 0;
    while i < effects.len()
        invariant
            i <= effects@.len(),
            view == effects@.map_values(|e: CardEffect| e@),
            retreat_increase(view) <= u8::MAX,
            total == retreat_increase(view.take(i as int)),
        decreases effects.len() - i,
    {
        proof {
            assert(view.take(i + 1).drop_last() =~= view.take(i as int));
            lemma_retreat_increase_prefix(view, i + 1);
        }
        match &effects[i] {
            CardEffect::IncreasedRetreatCost { amount } => {
                total += *amount;
            },
            _ => {},
        }
        i += 1;
    }
    assert(view.take(effects@.len() as int) =~= view);
    total
}

pub proof fn lemma_retreat_increase_prefix(s: Seq<CardEffectView>, n: int)
    requires
        0 <= n <= s.len(),
    ensures
        0 <= retreat_increase(s.take(n)) <= retreat_increase(s),
    decreases s.len(),
{
    if n == s.len() {
        assert(s.take(n) =~= s);
        lemma_retreat_increase_nonneg(s);
    } else {
        lemma_retreat_increase_prefix(s.drop_last(), n);
        assert(s.drop_last().take(n) =~= s.take(n));
        lemma_retreat_increase_nonneg(s);
    }
}

pub proof fn lemma_retreat_increase_nonneg(s: Seq<CardEffectView>)
    ensures
        0 <= retreat_increase(s),
        s.len() > 0 ==> retreat_increase(s.drop_last()) <= retreat_increase(s),
    decreases s.len(),
{
    if s.len() > 0 {
        lemma_retreat_increase_nonneg(s.drop_last());
    }
}

pub proof fn lemma_turn_reduction_prefix(s: Seq<(u8, u8, TurnEffect)>, t: u8, n: int)
    requires
        0 <= n <= s.len(),
    ensures
        0 <= turn_retreat_reduction(s.take(n), t) <= turn_retreat_reduction(s, t),
    decreases s.len(),
{
    if n == s.len() {
        assert(s.take(n) =~= s);
        lemma_turn_reduction_nonneg(s, t);
    } else {
        lemma_turn_reduction_prefix(s.drop_last(), t, n);
        assert(s.drop_last().take(n) =~= s.take(n));
        lemma_turn_reduction_nonneg(s, t);
    }
}

pub proof fn lemma_turn_reduction_nonneg(s: Seq<(u8, u8, TurnEffect)>, t: u8)
    ensures
        0 <= turn_retreat_reduction(s, t),
        s.len() > 0 ==> turn_retreat_reduction(s.drop_last(), t) <= turn_retreat_reduction(s, t),
    decreases s.len(),
{
    if s.len() > 0 {
        lemma_turn_reduction_nonneg(s.drop_last(), t);
    }
}

/// Total `ReducedRetreatCost` of the turn effects that apply now.
fn sum_turn_reduction(state: &State) -> (r: u8)
    requires
        turn_retreat_reduction(state.turn_effects@, state.turn_count) <= u8::MAX,
    ensures
        r == turn_retreat_reduction(state.turn_effects@, state.turn_count),
{
    let effects = &state.turn_effects;
    let mut total: u8 = 0;
    let mut i: usize = 0;
    while i < effects.len()
        invariant
            i <= effects@.len(),
            effects@ == state.turn_effects@,
            turn_retreat_reduction(effects@, state.turn_count) <= u8::MAX,
            total == turn_retreat_reduction(effects@.take(i as int), state.turn_count),
        decreases effects.len() - i,
    {
        proof {
            assert(effects@.take(i + 1).drop_last() =~= effects@.take(i as int));
            lemma_turn_reduction_prefix(effects@, state.turn_count, i + 1);
        }
        let (from, until, effect) = &effects[i];
        if *from <= state.turn_count && state.turn_count <= *until {
            match effect {
                TurnEffect::ReducedRetreatCost { amount } => {
                    total += *amount;
                },
                _ => {},
            }
        }
        i += 1;
    }
    assert(effects@.take(effects@.len() as int) =~= effects@);
    total
}

fn sky_support_of(slot: &Option<PlayedCard>) -> (r: u8)
    ensures
        r == sky_support(crate::state::opt_played_view(*slot)),
{
    match slot {
        Some(c) => match c.ability_mechanic() {
            Some(AbilityMechanic::ReduceRetreatCostOfYourActiveBasicFromBench { amount }) => {
                if *amount == 1 {
                    1
                } else {
                    0
                }
            },
            _ => 0,
        },
        None => 0,
    }
}

fn typed_reduction_of(slot: &Option<PlayedCard>, t: EnergyType) -> (r: u8)
    ensures
        r == typed_bench_reduction(crate::state::opt_played_view(*slot), t),
{
    match slot {
        Some(c) => match c.ability_mechanic() {
            Some(
                AbilityMechanic::ReduceRetreatCostOfYourActiveTypedFromBench {
                    energy_type,
                    amount,
                },
            ) => {
                if *energy_type == t {
                    *amount
                } else {
                    0
                }
            },
            _ => 0,
        },
        None => 0,
    }
}

fn traps(slot: &Option<PlayedCard>) -> (r: bool)
    ensures
        r == trap_territory(crate::state::opt_played_view(*slot)),
{
    match slot {
        Some(c) => match c.ability_mechanic() {
            Some(AbilityMechanic::IncreaseRetreatCostForOpponentActive { amount }) => *amount == 1,
            _ => false,
        },
        None => false,
    }
}

/// The Retreat Cost of `card` as the current player's Active: printed cost, effects and Tools
/// on it, this turn's reductions, Bench Abilities, Peculiar Plaza, and the opponent's Trap
/// Territory.
pub fn get_retreat_cost(state: &State, card: &PlayedCard) -> (r: Vec<EnergyType>)
    requires
        state.current_player < 2,
        stadium_wf(state),
        retreat_sums_fit(state, card@),
    ensures
        r@ == spec_retreat_cost(state, card@),
{
    let pokemon_card = match &card.card {
        Card::Pokemon(p) => p,
        Card::Trainer(_) => {
            return Vec::new();
        },
    };
    let has_energy = card.attached_energy.len() > 0;
    if let Some(AbilityMechanic::NoRetreatIfHasEnergy) = card.ability_mechanic() {
        if has_energy {
            return Vec::new();
        }
    }
    let mut normal_cost = crate::models::clone_energy(&pokemon_card.retreat_cost);
    let effects = card.get_effective_card_effects();
    let retreat_cost_increase = sum_retreat_increase(&effects);
    let ghost printed = normal_cost@;
    let mut k: u8 = 0;
    while k < retreat_cost_increase
        invariant
            k <= retreat_cost_increase,
            normal_cost@ == printed + colorless(k as nat),
        decreases retreat_cost_increase - k,
    {
        normal_cost.push(EnergyType::Colorless);
        k += 1;
        assert(normal_cost@ =~= printed + colorless(k as nat));
    }
    if card.has_tool(CardId::A4a067InflatableBoat) && card.get_energy_type() == Some(
        EnergyType::Water,
    ) {
        pop_n(&mut normal_cost, 1);
    }
    if card.has_tool(CardId::B2a087BigAirBalloon) && pokemon_card.stage == 2 {
        return Vec::new();
    }
    if card.has_tool(CardId::B3b064SmallBalloon) && pokemon_card.stage == 0 {
        pop_n(&mut normal_cost, 1);
    }
    let current_player = state.current_player;
    proof {
        lemma_turn_reduction_nonneg(state.turn_effects@, state.turn_count);
    }
    let mut to_subtract: u8 = sum_turn_reduction(state);
    if pokemon_card.stage == 0 {
        let a = sky_support_of(&state.in_play_pokemon[current_player][1]);
        let b = sky_support_of(&state.in_play_pokemon[current_player][2]);
        let c = sky_support_of(&state.in_play_pokemon[current_player][3]);
        to_subtract = to_subtract + a + b + c;
    }
    if let Some(active_energy_type) = card.get_energy_type() {
        let a = typed_reduction_of(&state.in_play_pokemon[current_player][1], active_energy_type);
        let b = typed_reduction_of(&state.in_play_pokemon[current_player][2], active_energy_type);
        let c = typed_reduction_of(&state.in_play_pokemon[current_player][3], active_energy_type);
        to_subtract = to_subtract + a + b + c;
    }
    if let Some(_) = card.get_energy_type() {
        let plaza = get_peculiar_plaza_retreat_reduction(state, card.is_type(EnergyType::Psychic));
        to_subtract = to_subtract + plaza;
    }
    pop_n(&mut normal_cost, to_subtract);
    let opponent = (current_player + 1) % 2;
    let trapped = traps(&state.in_play_pokemon[opponent][0]) || traps(
        &state.in_play_pokemon[opponent][1],
    ) || traps(&state.in_play_pokemon[opponent][2]) || traps(&state.in_play_pokemon[opponent][3]);
    if trapped {
        normal_cost.push(EnergyType::Colorless);
    }
    normal_cost
}


proof fn lemma_drop_n_len(s: Seq<EnergyType>, k: int)
    ensures
        drop_n(s, k).len() == if k >= s.len() {
            0
        } else if k <= 0 {
            s.len() as int
        } else {
            s.len() - k
        },
{
}

proof fn lemma_turn_retreat_reduction_nonneg(s: Seq<(u8, u8, TurnEffect)>, turn: u8)
    ensures
        turn_retreat_reduction(s, turn) >= 0,
    decreases s.len(),
{
    if s.len() > 0 {
        lemma_turn_retreat_reduction_nonneg(s.drop_last(), turn);
    }
}

proof fn lemma_retreat_reduction_nonneg(state: &State, card: PlayedCardView)
    ensures
        retreat_reduction(state, card) >= 0,
{
    lemma_turn_retreat_reduction_nonneg(state.turn_effects@, state.turn_count);
}

/// `a - b`, or 0 when `b` is larger.
pub open spec fn saturating_diff(a: int, b: int) -> int {
    if a > b {
        a - b
    } else {
        0
    }
}

/// How long the Retreat Cost of a Pokémon that has one comes out: its printed cost plus the
/// increases on it, less (down to zero) an Inflatable Boat on a [W] Pokémon, a Small Balloon on
/// a Basic and this turn's reductions, plus one when the opponent's Ability raises it.
pub proof fn law_retreat_cost_length(state: &State, card: PlayedCardView)
    requires
        card.card is Pokemon,
        !(card.ability_mechanic() == Some(AbilityMechanicView::NoRetreatIfHasEnergy)
            && card.attached_energy.len() > 0),
        !(card.has_tool(CardId::B2a087BigAirBalloon) && card.card->Pokemon_0.stage == 2),
        retreat_sums_fit(state, card),
    ensures
        spec_retreat_cost(state, card).len() == saturating_diff(
            card.card->Pokemon_0.retreat_cost.len() + retreat_increase(card.effective_card_effects()),
            (if card.has_tool(CardId::A4a067InflatableBoat) && card.card->Pokemon_0.energy_type
                == EnergyType::Water {
                1int
            } else {
                0
            }) + (if card.has_tool(CardId::B3b064SmallBalloon) && card.card->Pokemon_0.stage
                == 0 {
                1int
            } else {
                0
            }) + retreat_reduction(state, card),
        ) + (if opponent_traps(state) {
            1int
        } else {
            0
        }),
{
    let p = card.card->Pokemon_0;
    lemma_retreat_increase_nonneg(card.effective_card_effects());
    let c1 = p.retreat_cost + colorless(retreat_increase(card.effective_card_effects()) as nat);
    let b = if card.has_tool(CardId::A4a067InflatableBoat) && p.energy_type == EnergyType::Water {
        1int
    } else {
        0
    };
    let c2 = if b == 1 {
        drop_n(c1, 1)
    } else {
        c1
    };
    lemma_drop_n_len(c1, 1);
    let sb = if card.has_tool(CardId::B3b064SmallBalloon) && p.stage == 0 {
        1int
    } else {
        0
    };
    let c3 = if sb == 1 {
        drop_n(c2, 1)
    } else {
        c2
    };
    lemma_drop_n_len(c2, 1);
    lemma_retreat_reduction_nonneg(state, card);
    lemma_drop_n_len(c3, retreat_reduction(state, card));
}

/// Peculiar Plaza changes only the Retreat Cost of a Psychic Pokémon. With every other part of
/// the position the same, a Pokémon that is not Psychic retreats for exactly what it would with
/// no Stadium in play; a Psychic one retreats for 2 less (down to nothing), the extra Energy
/// that the opponent's Ability adds coming on top either way.
pub proof fn law_plaza_helps_only_psychic(
    with_plaza: &State,
    without: &State,
    card: PlayedCardView,
)
    requires
        spec_has_stadium(with_plaza, CardId::B2155PeculiarPlaza),
        *without == (State { active_stadium: None, ..*with_plaza }),
        retreat_sums_fit(with_plaza, card),
    ensures
        !card.is_type(EnergyType::Psychic) ==> spec_retreat_cost(with_plaza, card)
            == spec_retreat_cost(without, card),
        (card.is_type(EnergyType::Psychic) && card.card is Pokemon && !(card.ability_mechanic()
            == Some(AbilityMechanicView::NoRetreatIfHasEnergy) && card.attached_energy.len() > 0)
            && !(card.has_tool(CardId::B2a087BigAirBalloon) && card.card->Pokemon_0.stage == 2))
            ==> ({
            let trap: int = if opponent_traps(without) {
                1
            } else {
                0
            };
            let before = spec_retreat_cost(without, card).len() - trap;
            spec_retreat_cost(with_plaza, card).len() == before - (if before < 2 {
                before
            } else {
                2
            }) + trap
        }),
{
    assert(!spec_has_stadium(without, CardId::B2155PeculiarPlaza));
    assert(opponent_traps(with_plaza) == opponent_traps(without));
    lemma_turn_retreat_reduction_nonneg(without.turn_effects@, without.turn_count);
    if card.is_type(EnergyType::Psychic) && card.card is Pokemon {
        assert(retreat_reduction(with_plaza, card) == retreat_reduction(without, card) + 2);
        assert(retreat_sums_fit(without, card));
        if !(card.ability_mechanic() == Some(AbilityMechanicView::NoRetreatIfHasEnergy)
            && card.attached_energy.len() > 0) && !(card.has_tool(CardId::B2a087BigAirBalloon)
            && card.card->Pokemon_0.stage == 2) {
            law_retreat_cost_length(with_plaza, card);
            law_retreat_cost_length(without, card);
        }
    } else {
        assert(retreat_reduction(with_plaza, card) == retreat_reduction(without, card));
    }
}

/// One more Retreat Cost reduction that applies this turn (an X Speed) never makes the Active's
/// Retreat Cost longer, and it takes off at most its own amount.
pub proof fn law_more_reduction_never_costs_more(
    state: &State,
    reduced: &State,
    card: PlayedCardView,
    from: u8,
    until: u8,
    amount: u8,
)
    requires
        reduced.turn_effects@ == state.turn_effects@.push(
            (from, until, TurnEffect::ReducedRetreatCost { amount }),
        ),
        from <= state.turn_count <= until,
        reduced.turn_count == state.turn_count,
        reduced.current_player == state.current_player,
        reduced.in_play_pokemon == state.in_play_pokemon,
        reduced.active_stadium == state.active_stadium,
    ensures
        spec_retreat_cost(reduced, card).len() <= spec_retreat_cost(state, card).len(),
        spec_retreat_cost(state, card).len() <= spec_retreat_cost(reduced, card).len() + amount,
{
    let s = reduced.turn_effects@;
    assert(s.drop_last() =~= state.turn_effects@);
    assert(turn_retreat_reduction(s, state.turn_count) == turn_retreat_reduction(
        state.turn_effects@,
        state.turn_count,
    ) + amount);
    assert(retreat_reduction(reduced, card) == retreat_reduction(state, card) + amount);
    match card.card {
        CardView::Trainer(_) => {},
        CardView::Pokemon(p) => {
            let c1 = p.retreat_cost + colorless(
                retreat_increase(card.effective_card_effects()) as nat,
            );
            let c2 = if card.has_tool(CardId::A4a067InflatableBoat) && p.energy_type
                == EnergyType::Water {
                drop_n(c1, 1)
            } else {
                c1
            };
            let c3 = if card.has_tool(CardId::B3b064SmallBalloon) && p.stage == 0 {
                drop_n(c2, 1)
            } else {
                c2
            };
            lemma_drop_n_len(c3, retreat_reduction(state, card));
            lemma_drop_n_len(c3, retreat_reduction(reduced, card));
            lemma_turn_reduction_nonneg(state.turn_effects@, state.turn_count);
        },
    }
}

} // verus!
