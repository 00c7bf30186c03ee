use vstd::prelude::*;

use crate::models::EnergyType;

verus! {

/// Effects that sit on one Pokémon for a number of turns, and the effects its passive Ability
/// derives. Retreating or otherwise leaving the Active Spot clears the stored ones.
#[derive(Debug)]
pub enum CardEffect {
    /// The Pokémon cannot retreat.
    NoRetreat,
    ReducedDamage { amount: u32 },
    IncreasedVulnerability { amount: u32 },
    IncreasedAttackCost { amount: u8 },
    /// This Pokémon's Retreat Cost is `amount` more (Team Rocket's Goo-zooka).
    IncreasedRetreatCost { amount: u8 },
    /// The Pokémon cannot attack.
    CannotAttack,
    /// The Pokémon cannot use the attack of this name.
    CannotUseAttack(String),
    IncreasedDamageForAttack { attack_name: String, amount: u32 },
    IncreasedSpreadDamageForAttack { attack_name: String, amount: u32 },
    PreventAllDamageAndEffects,
    PreventDamageIfLessOrEqual { threshold: u32 },
    PreventDamageFromBasic,
    NoWeakness,
    /// The Pokémon has no Abilities (Budew's Prickly Powder).
    AbilitiesDisabled,
    CoinFlipToBlockAttack,
    DelayedDamage { amount: u32 },
    Counterattack { amount: u32 },
    /// Derived from a passive Ability: `amount` less damage from attacks.
    ReduceDamageFromAttacks { amount: u32 },
    /// Derived from a passive Ability: `amount` less damage as the Active defender.
    ReduceOpponentActiveDamage { amount: u32 },
    /// Derived from a passive Ability: no damage from attacks of Pokémon ex.
    PreventAllDamageFromEx,
    /// Derived from a passive Ability: no damage from attacks while Benched.
    PreventDamageWhileBenched,
    /// Derived from a passive Ability: on heads, no damage from an attack.
    CoinFlipToPreventIncomingDamage,
    /// Derived from a passive Ability: on heads, `amount` less damage.
    CoinFlipToReduceIncomingDamage { amount: u32 },
}

/// The mathematical value of a `CardEffect`: names taken by their text.
pub enum CardEffectView {
    NoRetreat,
    ReducedDamage { amount: u32 },
    IncreasedVulnerability { amount: u32 },
    IncreasedAttackCost { amount: u8 },
    IncreasedRetreatCost { amount: u8 },
    CannotAttack,
    CannotUseAttack(Seq<char>),
    IncreasedDamageForAttack { attack_name: Seq<char>, amount: u32 },
    IncreasedSpreadDamageForAttack { attack_name: Seq<char>, amount: u32 },
    PreventAllDamageAndEffects,
    PreventDamageIfLessOrEqual { threshold: u32 },
    PreventDamageFromBasic,
    NoWeakness,
    AbilitiesDisabled,
    CoinFlipToBlockAttack,
    DelayedDamage { amount: u32 },
    Counterattack { amount: u32 },
    ReduceDamageFromAttacks { amount: u32 },
    ReduceOpponentActiveDamage { amount: u32 },
    PreventAllDamageFromEx,
    PreventDamageWhileBenched,
    CoinFlipToPreventIncomingDamage,
    CoinFlipToReduceIncomingDamage { amount: u32 },
}

impl View for CardEffect {
    type V = CardEffectView;

    open spec fn view(&self) -> CardEffectView {
        match self {
            CardEffect::NoRetreat => CardEffectView::NoRetreat,
            CardEffect::ReducedDamage { amount } => CardEffectView::ReducedDamage { amount: *amount },
            CardEffect::IncreasedVulnerability { amount } => CardEffectView::IncreasedVulnerability { amount: *amount },
            CardEffect::IncreasedAttackCost { amount } => CardEffectView::IncreasedAttackCost { amount: *amount },
            CardEffect::IncreasedRetreatCost { amount } => CardEffectView::IncreasedRetreatCost { amount: *amount },
            CardEffect::CannotAttack => CardEffectView::CannotAttack,
            CardEffect::CannotUseAttack(s) => CardEffectView::CannotUseAttack(s@),
            CardEffect::IncreasedDamageForAttack { attack_name, amount } => CardEffectView::IncreasedDamageForAttack { attack_name: attack_name@, amount: *amount },
            CardEffect::IncreasedSpreadDamageForAttack { attack_name, amount } => CardEffectView::IncreasedSpreadDamageForAttack { attack_name: attack_name@, amount: *amount },
            CardEffect::PreventAllDamageAndEffects => CardEffectView::PreventAllDamageAndEffects,
            CardEffect::PreventDamageIfLessOrEqual { threshold } => CardEffectView::PreventDamageIfLessOrEqual { threshold: *threshold },
            CardEffect::PreventDamageFromBasic => CardEffectView::PreventDamageFromBasic,
            CardEffect::NoWeakness => CardEffectView::NoWeakness,
            CardEffect::AbilitiesDisabled => CardEffectView::AbilitiesDisabled,
            CardEffect::CoinFlipToBlockAttack => CardEffectView::CoinFlipToBlockAttack,
            CardEffect::DelayedDamage { amount } => CardEffectView::DelayedDamage { amount: *amount },
            CardEffect::Counterattack { amount } => CardEffectView::Counterattack { amount: *amount },
            CardEffect::ReduceDamageFromAttacks { amount } => CardEffectView::ReduceDamageFromAttacks { amount: *amount },
            CardEffect::ReduceOpponentActiveDamage { amount } => CardEffectView::ReduceOpponentActiveDamage { amount: *amount },
            CardEffect::PreventAllDamageFromEx => CardEffectView::PreventAllDamageFromEx,
            CardEffect::PreventDamageWhileBenched => CardEffectView::PreventDamageWhileBenched,
            CardEffect::CoinFlipToPreventIncomingDamage => CardEffectView::CoinFlipToPreventIncomingDamage,
            CardEffect::CoinFlipToReduceIncomingDamage { amount } => CardEffectView::CoinFlipToReduceIncomingDamage { amount: *amount },
        }
    }
}

impl Clone for CardEffect {
    fn clone(&self) -> (res: Self)
        ensures
            res@ == self@,
    {
        match self {
            CardEffect::NoRetreat => CardEffect::NoRetreat,
            CardEffect::ReducedDamage { amount } => CardEffect::ReducedDamage { amount: *amount },
            CardEffect::IncreasedVulnerability { amount } => CardEffect::IncreasedVulnerability { amount: *amount },
            CardEffect::IncreasedAttackCost { amount } => CardEffect::IncreasedAttackCost { amount: *amount },
            CardEffect::IncreasedRetreatCost { amount } => CardEffect::IncreasedRetreatCost { amount: *amount },
            CardEffect::CannotAttack => CardEffect::CannotAttack,
            CardEffect::CannotUseAttack(s) => CardEffect::CannotUseAttack(s.clone()),
            CardEffect::IncreasedDamageForAttack { attack_name, amount } => CardEffect::IncreasedDamageForAttack { attack_name: attack_name.clone(), amount: *amount },
            CardEffect::IncreasedSpreadDamageForAttack { attack_name, amount } => CardEffect::IncreasedSpreadDamageForAttack { attack_name: attack_name.clone(), amount: *amount },
            CardEffect::PreventAllDamageAndEffects => CardEffect::PreventAllDamageAndEffects,
            CardEffect::PreventDamageIfLessOrEqual { threshold } => CardEffect::PreventDamageIfLessOrEqual { threshold: *threshold },
            CardEffect::PreventDamageFromBasic => CardEffect::PreventDamageFromBasic,
            CardEffect::NoWeakness => CardEffect::NoWeakness,
            CardEffect::AbilitiesDisabled => CardEffect::AbilitiesDisabled,
            CardEffect::CoinFlipToBlockAttack => CardEffect::CoinFlipToBlockAttack,
            CardEffect::DelayedDamage { amount } => CardEffect::DelayedDamage { amount: *amount },
            CardEffect::Counterattack { amount } => CardEffect::Counterattack { amount: *amount },
            CardEffect::ReduceDamageFromAttacks { amount } => CardEffect::ReduceDamageFromAttacks { amount: *amount },
            CardEffect::ReduceOpponentActiveDamage { amount } => CardEffect::ReduceOpponentActiveDamage { amount: *amount },
            CardEffect::PreventAllDamageFromEx => CardEffect::PreventAllDamageFromEx,
            CardEffect::PreventDamageWhileBenched => CardEffect::PreventDamageWhileBenched,
            CardEffect::CoinFlipToPreventIncomingDamage => CardEffect::CoinFlipToPreventIncomingDamage,
            CardEffect::CoinFlipToReduceIncomingDamage { amount } => CardEffect::CoinFlipToReduceIncomingDamage { amount: *amount },
        }
    }
}

/// Whether two effects are the same effect.
pub fn same_card_effect(a: &CardEffect, b: &CardEffect) -> (r: bool)
    ensures
        r == (a@ == b@),
{
    match (a, b) {
        (CardEffect::NoRetreat, CardEffect::NoRetreat) => true,
        (CardEffect::ReducedDamage { amount: amount_a }, CardEffect::ReducedDamage { amount: amount_b }) => *amount_a == *amount_b,
        (CardEffect::IncreasedVulnerability { amount: amount_a }, CardEffect::IncreasedVulnerability { amount: amount_b }) => *amount_a == *amount_b,
        (CardEffect::IncreasedAttackCost { amount: amount_a }, CardEffect::IncreasedAttackCost { amount: amount_b }) => *amount_a == *amount_b,
        (CardEffect::IncreasedRetreatCost { amount: amount_a }, CardEffect::IncreasedRetreatCost { amount: amount_b }) => *amount_a == *amount_b,
        (CardEffect::CannotAttack, CardEffect::CannotAttack) => true,
        (CardEffect::CannotUseAttack(x), CardEffect::CannotUseAttack(y)) => *x == *y,
        (CardEffect::IncreasedDamageForAttack { attack_name: attack_name_a, amount: amount_a }, CardEffect::IncreasedDamageForAttack { attack_name: attack_name_b, amount: amount_b }) => *attack_name_a == *attack_name_b && *amount_a == *amount_b,
        (CardEffect::IncreasedSpreadDamageForAttack { attack_name: attack_name_a, amount: amount_a }, CardEffect::IncreasedSpreadDamageForAttack { attack_name: attack_name_b, amount: amount_b }) => *attack_name_a == *attack_name_b && *amount_a == *amount_b,
        (CardEffect::PreventAllDamageAndEffects, CardEffect::PreventAllDamageAndEffects) => true,
        (CardEffect::PreventDamageIfLessOrEqual { threshold: threshold_a }, CardEffect::PreventDamageIfLessOrEqual { threshold: threshold_b }) => *threshold_a == *threshold_b,
        (CardEffect::PreventDamageFromBasic, CardEffect::PreventDamageFromBasic) => true,
        (CardEffect::NoWeakness, CardEffect::NoWeakness) => true,
        (CardEffect::AbilitiesDisabled, CardEffect::AbilitiesDisabled) => true,
        (CardEffect::CoinFlipToBlockAttack, CardEffect::CoinFlipToBlockAttack) => true,
        (CardEffect::DelayedDamage { amount: amount_a }, CardEffect::DelayedDamage { amount: amount_b }) => *amount_a == *amount_b,
        (CardEffect::Counterattack { amount: amount_a }, CardEffect::Counterattack { amount: amount_b }) => *amount_a == *amount_b,
        (CardEffect::ReduceDamageFromAttacks { amount: amount_a }, CardEffect::ReduceDamageFromAttacks { amount: amount_b }) => *amount_a == *amount_b,
        (CardEffect::ReduceOpponentActiveDamage { amount: amount_a }, CardEffect::ReduceOpponentActiveDamage { amount: amount_b }) => *amount_a == *amount_b,
        (CardEffect::PreventAllDamageFromEx, CardEffect::PreventAllDamageFromEx) => true,
        (CardEffect::PreventDamageWhileBenched, CardEffect::PreventDamageWhileBenched) => true,
        (CardEffect::CoinFlipToPreventIncomingDamage, CardEffect::CoinFlipToPreventIncomingDamage) => true,
        (CardEffect::CoinFlipToReduceIncomingDamage { amount: amount_a }, CardEffect::CoinFlipToReduceIncomingDamage { amount: amount_b }) => *amount_a == *amount_b,
        _ => false,
    }
}

/// Effects that last for a turn and apply to a player or to the whole board.
#[derive(Debug)]
pub enum TurnEffect {
    NoSupportCards,
    NoItemCards,
    NoTrainerCards,
    NoEnergyFromZoneToActive,
    /// The Active's Retreat Cost is `amount` less this turn (X Speed).
    ReducedRetreatCost { amount: u8 },
    ReducedDamageForType { amount: u32, energy_type: EnergyType, player: usize },
    ReducedDamageForSpecificPokemon {
        amount: u32,
        pokemon_names: Vec<String>,
        player: usize,
        attacker_must_be_ex: bool,
    },
    ReducedDamageForAllPokemon { amount: u32, player: usize },
    SurviveKnockOutForSpecificPokemon {
        pokemon_names: Vec<String>,
        player: usize,
        remaining_hp: u32,
    },
    IncreasedDamage { amount: u32 },
    IncreasedDamageForType { amount: u32, energy_type: EnergyType },
    IncreasedDamageAgainstEx { amount: u32 },
    IncreasedDamageForEeveeEvolutions { amount: u32 },
    IncreasedDamageForSpecificPokemon { amount: u32, pokemon_names: Vec<String> },
    IncreasedDamageForSpecificPokemonAgainstEx { amount: u32, pokemon_names: Vec<String> },
    IncreasedDamageForTypeAgainstEx { amount: u32, energy_type: EnergyType },
    DelayedSpotDamage {
        source_player: usize,
        target_player: usize,
        target_in_play_idx: usize,
        amount: u32,
    },
    ForceFirstHeads,
    /// A random-spread attack with this name chooses a Pokémon `amount` more times.
    ExtraRandomSpreadHits { amount: usize, attack_name: String },
    BonusPointForHaxorusActiveKO,
    ReducedAttackCostForSpecificPokemon { amount: u8, pokemon_names: Vec<String> },
}

} // verus!
