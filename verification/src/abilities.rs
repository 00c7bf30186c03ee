use vstd::prelude::*;

use crate::effects::CardEffect;
use crate::models::{clone_energy, EnergyType};

verus! {

/// What a Pokémon's Ability does, as far as the rules in this crate read it.
#[derive(Debug)]
pub enum AbilityMechanic {
    /// The Pokémon also counts as these types while in play (Urshifu's Double Type).
    GrantedTypes { energy_types: Vec<EnergyType> },
    /// The Pokémon may hold this many more Pokémon Tools (Revavroom's Dual Customization).
    ExtraToolSlots { amount: u8 },
    /// +`amount` HP for each attached Energy of `energy_type` (Reuniclus, Serperior).
    IncreaseHpPerAttachedEnergy { energy_type: EnergyType, amount: u32 },
    /// Basic Pokémon in play have no Abilities (Alolan Muk's Power of Alchemy).
    BasicPokemonHaveNoAbilities,
    /// Each [G] Energy attached to the owner's [G] Pokémon provides 2 (Serperior's Jungle Totem).
    DoubleGrassEnergy,
    /// No Retreat Cost while any Energy is attached.
    NoRetreatIfHasEnergy,
    /// From the Bench: the owner's Active Basic Pokémon retreats for `amount` less (Shaymin).
    ReduceRetreatCostOfYourActiveBasicFromBench { amount: u8 },
    /// From the Bench: the owner's Active of `energy_type` retreats for `amount` less.
    ReduceRetreatCostOfYourActiveTypedFromBench { energy_type: EnergyType, amount: u8 },
    /// The opponent's Active retreats for `amount` more (Ariados's Trap Territory).
    IncreaseRetreatCostForOpponentActive { amount: u8 },
    /// Evolved Pokémon may use the attacks of their previous Evolutions (Celebi's Time Recall).
    TimeRecall,
    /// This Pokémon takes `amount` less damage from attacks (Cloyster's Shell Armor).
    ReduceDamageFromAttacks { amount: u32 },
    /// As the Active defender, attacks against it do `amount` less (Arbok's Intimidating Fang).
    ReduceOpponentActiveDamage { amount: u32 },
    /// No damage from attacks of Pokémon ex (Oricorio's Safeguard).
    PreventAllDamageFromEx,
    /// No damage from attacks while on the Bench (Wartortle's Shell Shield).
    PreventDamageWhileBenched,
    /// On heads, prevent the damage of an attack (Meowth's Carefree Steps).
    CoinFlipToPreventDamage,
    /// On heads, take `amount` less damage from an attack (Bastiodon's Guarded Grill).
    CoinFlipToReduceDamage { amount: u32 },
}

/// The mathematical value of an Ability mechanic: its lists taken by their views.
pub enum AbilityMechanicView {
    GrantedTypes { energy_types: Seq<EnergyType> },
    ExtraToolSlots { amount: u8 },
    IncreaseHpPerAttachedEnergy { energy_type: EnergyType, amount: u32 },
    BasicPokemonHaveNoAbilities,
    DoubleGrassEnergy,
    NoRetreatIfHasEnergy,
    ReduceRetreatCostOfYourActiveBasicFromBench { amount: u8 },
    ReduceRetreatCostOfYourActiveTypedFromBench { energy_type: EnergyType, amount: u8 },
    IncreaseRetreatCostForOpponentActive { amount: u8 },
    TimeRecall,
    ReduceDamageFromAttacks { amount: u32 },
    ReduceOpponentActiveDamage { amount: u32 },
    PreventAllDamageFromEx,
    PreventDamageWhileBenched,
    CoinFlipToPreventDamage,
    CoinFlipToReduceDamage { amount: u32 },
}

impl View for AbilityMechanic {
    type V = AbilityMechanicView;

    open spec fn view(&self) -> AbilityMechanicView {
        match self {
            AbilityMechanic::GrantedTypes { energy_types } => AbilityMechanicView::GrantedTypes {
                energy_types: energy_types@,
            },
            AbilityMechanic::ExtraToolSlots { amount } => AbilityMechanicView::ExtraToolSlots {
                amount: *amount,
            },
            AbilityMechanic::IncreaseHpPerAttachedEnergy {
                energy_type,
                amount,
            } => AbilityMechanicView::IncreaseHpPerAttachedEnergy {
                energy_type: *energy_type,
                amount: *amount,
            },
            AbilityMechanic::BasicPokemonHaveNoAbilities => AbilityMechanicView::BasicPokemonHaveNoAbilities,
            AbilityMechanic::DoubleGrassEnergy => AbilityMechanicView::DoubleGrassEnergy,
            AbilityMechanic::NoRetreatIfHasEnergy => AbilityMechanicView::NoRetreatIfHasEnergy,
            AbilityMechanic::ReduceRetreatCostOfYourActiveBasicFromBench {
                amount,
            } => AbilityMechanicView::ReduceRetreatCostOfYourActiveBasicFromBench {
                amount: *amount,
            },
            AbilityMechanic::ReduceRetreatCostOfYourActiveTypedFromBench {
                energy_type,
                amount,
            } => AbilityMechanicView::ReduceRetreatCostOfYourActiveTypedFromBench {
                energy_type: *energy_type,
                amount: *amount,
            },
            AbilityMechanic::IncreaseRetreatCostForOpponentActive {
                amount,
            } => AbilityMechanicView::IncreaseRetreatCostForOpponentActive { amount: *amount },
            AbilityMechanic::TimeRecall => AbilityMechanicView::TimeRecall,
            AbilityMechanic::ReduceDamageFromAttacks {
                amount,
            } => AbilityMechanicView::ReduceDamageFromAttacks { amount: *amount },
            AbilityMechanic::ReduceOpponentActiveDamage {
                amount,
            } => AbilityMechanicView::ReduceOpponentActiveDamage { amount: *amount },
            AbilityMechanic::PreventAllDamageFromEx => AbilityMechanicView::PreventAllDamageFromEx,
            AbilityMechanic::PreventDamageWhileBenched => AbilityMechanicView::PreventDamageWhileBenched,
            AbilityMechanic::CoinFlipToPreventDamage => AbilityMechanicView::CoinFlipToPreventDamage,
            AbilityMechanic::CoinFlipToReduceDamage {
                amount,
            } => AbilityMechanicView::CoinFlipToReduceDamage { amount: *amount },
        }
    }
}

impl Clone for AbilityMechanic {
    fn clone(&self) -> (res: Self)
        ensures
            res@ == self@,
    {
        match self {
            AbilityMechanic::GrantedTypes { energy_types } => AbilityMechanic::GrantedTypes {
                energy_types: clone_energy(energy_types),
            },
            AbilityMechanic::ExtraToolSlots { amount } => AbilityMechanic::ExtraToolSlots {
                amount: *amount,
            },
            AbilityMechanic::IncreaseHpPerAttachedEnergy {
                energy_type,
                amount,
            } => AbilityMechanic::IncreaseHpPerAttachedEnergy {
                energy_type: *energy_type,
                amount: *amount,
            },
            AbilityMechanic::BasicPokemonHaveNoAbilities => AbilityMechanic::BasicPokemonHaveNoAbilities,
            AbilityMechanic::DoubleGrassEnergy => AbilityMechanic::DoubleGrassEnergy,
            AbilityMechanic::NoRetreatIfHasEnergy => AbilityMechanic::NoRetreatIfHasEnergy,
            AbilityMechanic::ReduceRetreatCostOfYourActiveBasicFromBench {
                amount,
            } => AbilityMechanic::ReduceRetreatCostOfYourActiveBasicFromBench { amount: *amount },
            AbilityMechanic::ReduceRetreatCostOfYourActiveTypedFromBench {
                energy_type,
                amount,
            } => AbilityMechanic::ReduceRetreatCostOfYourActiveTypedFromBench {
                energy_type: *energy_type,
                amount: *amount,
            },
            AbilityMechanic::IncreaseRetreatCostForOpponentActive {
                amount,
            } => AbilityMechanic::IncreaseRetreatCostForOpponentActive { amount: *amount },
            AbilityMechanic::TimeRecall => AbilityMechanic::TimeRecall,
            AbilityMechanic::ReduceDamageFromAttacks {
                amount,
            } => AbilityMechanic::ReduceDamageFromAttacks { amount: *amount },
            AbilityMechanic::ReduceOpponentActiveDamage {
                amount,
            } => AbilityMechanic::ReduceOpponentActiveDamage { amount: *amount },
            AbilityMechanic::PreventAllDamageFromEx => AbilityMechanic::PreventAllDamageFromEx,
            AbilityMechanic::PreventDamageWhileBenched => AbilityMechanic::PreventDamageWhileBenched,
            AbilityMechanic::CoinFlipToPreventDamage => AbilityMechanic::CoinFlipToPreventDamage,
            AbilityMechanic::CoinFlipToReduceDamage {
                amount,
            } => AbilityMechanic::CoinFlipToReduceDamage { amount: *amount },
        }
    }
}

/// The `CardEffect` a passive Ability amounts to while its holder is in play, if any.
pub open spec fn spec_card_effect_from_ability_mechanic(m: AbilityMechanicView) -> Option<
    CardEffect,
> {
    match m {
        AbilityMechanicView::ReduceDamageFromAttacks { amount } => Some(
            CardEffect::ReduceDamageFromAttacks { amount },
        ),
        AbilityMechanicView::ReduceOpponentActiveDamage { amount } => Some(
            CardEffect::ReduceOpponentActiveDamage { amount },
        ),
        AbilityMechanicView::PreventAllDamageFromEx => Some(CardEffect::PreventAllDamageFromEx),
        AbilityMechanicView::PreventDamageWhileBenched => Some(
            CardEffect::PreventDamageWhileBenched,
        ),
        AbilityMechanicView::CoinFlipToPreventDamage => Some(
            CardEffect::CoinFlipToPreventIncomingDamage,
        ),
        AbilityMechanicView::CoinFlipToReduceDamage { amount } => Some(
            CardEffect::CoinFlipToReduceIncomingDamage { amount },
        ),
        _ => None,
    }
}

/// The "abilities as effects" model: the `CardEffect` a passive Ability derives.
pub fn card_effect_from_ability_mechanic(m: &AbilityMechanic) -> (r: Option<CardEffect>)
    ensures
        r == spec_card_effect_from_ability_mechanic(m@),
{
    match m {
        AbilityMechanic::ReduceDamageFromAttacks { amount } => Some(
            CardEffect::ReduceDamageFromAttacks { amount: *amount },
        ),
        AbilityMechanic::ReduceOpponentActiveDamage { amount } => Some(
            CardEffect::ReduceOpponentActiveDamage { amount: *amount },
        ),
        AbilityMechanic::PreventAllDamageFromEx => Some(CardEffect::PreventAllDamageFromEx),
        AbilityMechanic::PreventDamageWhileBenched => Some(CardEffect::PreventDamageWhileBenched),
        AbilityMechanic::CoinFlipToPreventDamage => Some(
            CardEffect::CoinFlipToPreventIncomingDamage,
        ),
        AbilityMechanic::CoinFlipToReduceDamage { amount } => Some(
            CardEffect::CoinFlipToReduceIncomingDamage { amount: *amount },
        ),
        _ => None,
    }
}

} // verus!
