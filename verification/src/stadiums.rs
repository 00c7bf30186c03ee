use vstd::prelude::*;

use crate::database::{effect_text, effect_text_of, get_card_by_enum, spec_card_by_enum, CardId};
use crate::models::{Card, CardView, EnergyType, TrainerCard, TrainerType};
use crate::state::State;

verus! {

/// The Stadium cards whose effects this crate implements.
pub open spec fn is_implemented_stadium_id(id: CardId) -> bool {
    match id {
        CardId::B2155PeculiarPlaza | CardId::B2153TrainingArea | CardId::B2154StartingPlains
        | CardId::B2a093Mesagoza | CardId::B2b069HikingTrail | CardId::B3155BoundedField
        | CardId::B3154ArenaofAntiquity | CardId::B3153FragrantForest | CardId::B3a074AreaZero
        | CardId::B3b069KidsRoom | CardId::B4154SoothingShore | CardId::B4155RainbowCave
        | CardId::B4a072Arcade => true,
        _ => false,
    }
}

/// A card is a Stadium card.
pub open spec fn is_stadium_card(c: CardView) -> bool {
    match c {
        CardView::Trainer(t) => t.trainer_card_type == TrainerType::Stadium,
        CardView::Pokemon(_) => false,
    }
}

/// The Stadium in play, if any, is a Stadium card.
pub open spec fn stadium_wf(state: &State) -> bool {
    match state.stadium() {
        Some(c) => is_stadium_card(c),
        None => true,
    }
}

/// The Stadium in play has the effect text of the catalogued Stadium `id`.
pub open spec fn spec_has_stadium(state: &State, id: CardId) -> bool {
    match state.stadium() {
        Some(CardView::Trainer(t)) => t.effect == effect_text(id),
        _ => false,
    }
}

/// Player `p` has not used the Stadium this turn.
pub open spec fn stadium_unused(state: &State, p: int) -> bool {
    !state.has_used_stadium@[p]
}

/// The Trainer card of a Stadium; any other card is refused.
pub fn ensure_stadium_card(card: &Card) -> (r: &TrainerCard)
    requires
        is_stadium_card(card@),
    ensures
        card@ == CardView::Trainer(r@),
{
    match card {
        Card::Trainer(trainer_card) => ensure_stadium_trainer(trainer_card),
        Card::Pokemon(_) => unreached(),
    }
}

/// A Trainer card that must be a Stadium.
pub fn ensure_stadium_trainer(trainer_card: &TrainerCard) -> (r: &TrainerCard)
    requires
        trainer_card.trainer_card_type == TrainerType::Stadium,
    ensures
        r == trainer_card,
{
    trainer_card
}

/// The effect text of a catalogued Stadium.
pub fn stadium_effect_text_from_card_id(stadium_card_id: CardId) -> (r: String)
    requires
        is_stadium_card(spec_card_by_enum(stadium_card_id)),
    ensures
        r@ == effect_text(stadium_card_id),
{
    let card = get_card_by_enum(stadium_card_id);
    let trainer_card = ensure_stadium_card(&card);
    trainer_card.effect.clone()
}

/// Whether this Stadium's effect is one the engine implements.
pub fn is_stadium_effect_implemented(trainer_card: &TrainerCard) -> (r: bool)
    requires
        trainer_card.trainer_card_type == TrainerType::Stadium,
    ensures
        r == exists|id: CardId|
            is_implemented_stadium_id(id) && trainer_card.effect@ == #[trigger] effect_text(id),
{
    ensure_stadium_trainer(trainer_card);
    let effect = &trainer_card.effect;
    if *effect == effect_text_of(CardId::B2155PeculiarPlaza) {
        assert(is_implemented_stadium_id(CardId::B2155PeculiarPlaza));
        return true;
    }
    if *effect == effect_text_of(CardId::B2153TrainingArea) {
        assert(is_implemented_stadium_id(CardId::B2153TrainingArea));
        return true;
    }
    if *effect == effect_text_of(CardId::B2154StartingPlains) {
        assert(is_implemented_stadium_id(CardId::B2154StartingPlains));
        return true;
    }
    if *effect == effect_text_of(CardId::B2a093Mesagoza) {
        assert(is_implemented_stadium_id(CardId::B2a093Mesagoza));
        return true;
    }
    if *effect == effect_text_of(CardId::B2b069HikingTrail) {
        assert(is_implemented_stadium_id(CardId::B2b069HikingTrail));
        return true;
    }
    if *effect == effect_text_of(CardId::B3155BoundedField) {
        assert(is_implemented_stadium_id(CardId::B3155BoundedField));
        return true;
    }
    if *effect == effect_text_of(CardId::B3154ArenaofAntiquity) {
        assert(is_implemented_stadium_id(CardId::B3154ArenaofAntiquity));
        return true;
    }
    if *effect == effect_text_of(CardId::B3153FragrantForest) {
        assert(is_implemented_stadium_id(CardId::B3153FragrantForest));
        return true;
    }
    if *effect == effect_text_of(CardId::B3a074AreaZero) {
        assert(is_implemented_stadium_id(CardId::B3a074AreaZero));
        return true;
    }
    if *effect == effect_text_of(CardId::B3b069KidsRoom) {
        assert(is_implemented_stadium_id(CardId::B3b069KidsRoom));
        return true;
    }
    if *effect == effect_text_of(CardId::B4154SoothingShore) {
        assert(is_implemented_stadium_id(CardId::B4154SoothingShore));
        return true;
    }
    if *effect == effect_text_of(CardId::B4155RainbowCave) {
        assert(is_implemented_stadium_id(CardId::B4155RainbowCave));
        return true;
    }
    if *effect == effect_text_of(CardId::B4a072Arcade) {
        assert(is_implemented_stadium_id(CardId::B4a072Arcade));
        return true;
    }
    false
}

/// Whether the Stadium in play is (a reprint of) the catalogued Stadium `reference_stadium_id`.
pub fn has_stadium(state: &State, reference_stadium_id: CardId) -> (r: bool)
    requires
        stadium_wf(state),
        is_stadium_card(spec_card_by_enum(reference_stadium_id)),
    ensures
        r == spec_has_stadium(state, reference_stadium_id),
{
    let reference_effect = effect_text_of(reference_stadium_id);
    match &state.active_stadium {
        None => false,
        Some(active_stadium) => {
            let trainer_card = ensure_stadium_card(active_stadium);
            trainer_card.effect == reference_effect
        },
    }
}

pub fn is_hiking_trail_active(state: &State) -> (r: bool)
    requires
        stadium_wf(state),
    ensures
        r == spec_has_stadium(state, CardId::B2b069HikingTrail),
{
    has_stadium(state, CardId::B2b069HikingTrail)
}

pub fn is_bounded_field_active(state: &State) -> (r: bool)
    requires
        stadium_wf(state),
    ensures
        r == spec_has_stadium(state, CardId::B3155BoundedField),
{
    has_stadium(state, CardId::B3155BoundedField)
}

pub fn is_mesagoza_active(state: &State) -> (r: bool)
    requires
        stadium_wf(state),
    ensures
        r == spec_has_stadium(state, CardId::B2a093Mesagoza),
{
    has_stadium(state, CardId::B2a093Mesagoza)
}

/// Player `p`'s deck holds a Pokémon.
pub open spec fn deck_has_pokemon(state: &State, p: int) -> bool {
    exists|i: int| 0 <= i < state.deck(p).len() && is_pokemon_card(#[trigger] state.deck(p)[i])
}

/// Player `p`'s deck holds a Basic [G] Pokémon.
pub open spec fn deck_has_basic_grass(state: &State, p: int) -> bool {
    exists|i: int|
        0 <= i < state.deck(p).len() && is_basic_grass_pokemon(#[trigger] state.deck(p)[i])
}

/// Player `p`'s deck holds a Pokémon Tool.
pub open spec fn deck_has_tool(state: &State, p: int) -> bool {
    exists|i: int| 0 <= i < state.deck(p).len() && is_tool_card(#[trigger] state.deck(p)[i])
}

/// Player `p`'s hand holds a Basic Pokémon.
pub open spec fn hand_has_basic(state: &State, p: int) -> bool {
    exists|i: int| 0 <= i < state.hand(p).len() && (#[trigger] state.hand(p)[i]).is_basic()
}

pub open spec fn is_pokemon_card(c: CardView) -> bool {
    c is Pokemon
}

pub open spec fn is_basic_grass_pokemon(c: CardView) -> bool {
    match c {
        CardView::Pokemon(p) => p.stage == 0 && p.energy_type == EnergyType::Grass,
        CardView::Trainer(_) => false,
    }
}

pub open spec fn is_tool_card(c: CardView) -> bool {
    match c {
        CardView::Trainer(t) => t.trainer_card_type == TrainerType::Tool,
        CardView::Pokemon(_) => false,
    }
}

/// Mesagoza can be used: it is in play, unused this turn, and the deck holds a Pokémon.
pub fn can_use_mesagoza(state: &State, player: usize) -> (r: bool)
    requires
        stadium_wf(state),
        player < 2,
    ensures
        r == (spec_has_stadium(state, CardId::B2a093Mesagoza) && stadium_unused(
            state,
            player as int,
        ) && deck_has_pokemon(state, player as int)),
{
    if !is_mesagoza_active(state) {
        return false;
    }
    if state.has_used_stadium[player] {
        return false;
    }
    let cards = &state.decks[player].cards;
    let mut i: usize = 0;
    while i < cards.len()
        invariant
            spec_has_stadium(state, CardId::B2a093Mesagoza),
            stadium_unused(state, player as int),
            i <= cards@.len(),
            player < 2,
            cards@ == state.decks@[player as int].cards@,
            forall|j: int| 0 <= j < i ==> !is_pokemon_card(#[trigger] state.deck(player as int)[j]),
        decreases cards.len() - i,
    {
        if let Card::Pokemon(_) = &cards[i] {
            assert(is_pokemon_card(state.deck(player as int)[i as int]));
            return true;
        }
        i += 1;
    }
    false
}

pub fn is_starting_plains_active(state: &State) -> (r: bool)
    requires
        stadium_wf(state),
    ensures
        r == spec_has_stadium(state, CardId::B2154StartingPlains),
{
    has_stadium(state, CardId::B2154StartingPlains)
}

/// Peculiar Plaza: each [P] Pokémon in play retreats for 2 less. `is_psychic` is membership
/// in the Pokémon's in-play type set.
pub fn get_peculiar_plaza_retreat_reduction(state: &State, is_psychic: bool) -> (r: u8)
    requires
        stadium_wf(state),
    ensures
        r == (if is_psychic && spec_has_stadium(state, CardId::B2155PeculiarPlaza) {
            2u8
        } else {
            0u8
        }),
{
    if is_psychic && has_stadium(state, CardId::B2155PeculiarPlaza) {
        2
    } else {
        0
    }
}

/// Training Area: attacks of Stage 1 Pokémon do +10 to the opponent's Active.
pub fn get_training_area_damage_bonus(state: &State, attacker_stage: u8) -> (r: u32)
    requires
        stadium_wf(state),
    ensures
        r == (if attacker_stage == 1 && spec_has_stadium(state, CardId::B2153TrainingArea) {
            10u32
        } else {
            0u32
        }),
{
    if attacker_stage == 1 && has_stadium(state, CardId::B2153TrainingArea) {
        10
    } else {
        0
    }
}

pub fn is_arena_of_antiquity_active(state: &State) -> (r: bool)
    requires
        stadium_wf(state),
    ensures
        r == spec_has_stadium(state, CardId::B3154ArenaofAntiquity),
{
    has_stadium(state, CardId::B3154ArenaofAntiquity)
}

/// Arena of Antiquity: attacks of [F] Pokémon do +20 to the opponent's Active Pokémon ex.
pub fn get_arena_of_antiquity_damage_bonus(
    state: &State,
    attacker_is_fighting: bool,
    target_is_ex: bool,
) -> (r: u32)
    requires
        stadium_wf(state),
    ensures
        r == (if attacker_is_fighting && target_is_ex && spec_has_stadium(
            state,
            CardId::B3154ArenaofAntiquity,
        ) {
            20u32
        } else {
            0u32
        }),
{
    if attacker_is_fighting && target_is_ex && is_arena_of_antiquity_active(state) {
        20
    } else {
        0
    }
}

pub fn is_fragrant_forest_active(state: &State) -> (r: bool)
    requires
        stadium_wf(state),
    ensures
        r == spec_has_stadium(state, CardId::B3153FragrantForest),
{
    has_stadium(state, CardId::B3153FragrantForest)
}

/// Fragrant Forest can be used: in play, unused this turn, and the deck holds a Basic [G].
pub fn can_use_fragrant_forest(state: &State, player: usize) -> (r: bool)
    requires
        stadium_wf(state),
        player < 2,
    ensures
        r == (spec_has_stadium(state, CardId::B3153FragrantForest) && stadium_unused(
            state,
            player as int,
        ) && deck_has_basic_grass(state, player as int)),
{
    if !is_fragrant_forest_active(state) {
        return false;
    }
    if state.has_used_stadium[player] {
        return false;
    }
    let cards = &state.decks[player].cards;
    let mut i: usize = 0;
    while i < cards.len()
        invariant
            spec_has_stadium(state, CardId::B3153FragrantForest),
            stadium_unused(state, player as int),
            i <= cards@.len(),
            player < 2,
            cards@ == state.decks@[player as int].cards@,
            forall|j: int|
                0 <= j < i ==> !is_basic_grass_pokemon(#[trigger] state.deck(player as int)[j]),
        decreases cards.len() - i,
    {
        if let Card::Pokemon(p) = &cards[i] {
            if p.stage == 0 && p.energy_type == EnergyType::Grass {
                assert(is_basic_grass_pokemon(state.deck(player as int)[i as int]));
                return true;
            }
        }
        i += 1;
    }
    false
}

pub fn is_area_zero_active(state: &State) -> (r: bool)
    requires
        stadium_wf(state),
    ensures
        r == spec_has_stadium(state, CardId::B3a074AreaZero),
{
    has_stadium(state, CardId::B3a074AreaZero)
}

/// Area Zero can be used: in play, unused this turn, and the hand holds a Basic Pokémon.
pub fn can_use_area_zero(state: &State, player: usize) -> (r: bool)
    requires
        stadium_wf(state),
        player < 2,
    ensures
        r == (spec_has_stadium(state, CardId::B3a074AreaZero) && stadium_unused(
            state,
            player as int,
        ) && hand_has_basic(state, player as int)),
{
    if !is_area_zero_active(state) {
        return false;
    }
    if state.has_used_stadium[player] {
        return false;
    }
    let cards = &state.hands[player];
    let mut i: usize = 0;
    while i < cards.len()
        invariant
            spec_has_stadium(state, CardId::B3a074AreaZero),
            stadium_unused(state, player as int),
            i <= cards@.len(),
            player < 2,
            cards@ == state.hands@[player as int]@,
            forall|j: int| 0 <= j < i ==> !(#[trigger] state.hand(player as int)[j]).is_basic(),
        decreases cards.len() - i,
    {
        if cards[i].is_basic() {
            assert(state.hand(player as int)[i as int].is_basic());
            return true;
        }
        i += 1;
    }
    false
}

pub fn is_soothing_shore_active(state: &State) -> (r: bool)
    requires
        stadium_wf(state),
    ensures
        r == spec_has_stadium(state, CardId::B4154SoothingShore),
{
    has_stadium(state, CardId::B4154SoothingShore)
}

pub fn is_rainbow_cave_active(state: &State) -> (r: bool)
    requires
        stadium_wf(state),
    ensures
        r == spec_has_stadium(state, CardId::B4155RainbowCave),
{
    has_stadium(state, CardId::B4155RainbowCave)
}

/// Rainbow Cave can be used: in play, unused this turn, and an Energy is in the Energy Zone.
pub fn can_use_rainbow_cave(state: &State, player: usize) -> (r: bool)
    requires
        stadium_wf(state),
        player < 2,
    ensures
        r == (spec_has_stadium(state, CardId::B4155RainbowCave) && stadium_unused(
            state,
            player as int,
        ) && state.energy_zone@[player as int].current is Some),
{
    is_rainbow_cave_active(state) && !state.has_used_stadium[player]
        && state.energy_zone[player].current.is_some()
}

pub fn is_kids_room_active(state: &State) -> (r: bool)
    requires
        stadium_wf(state),
    ensures
        r == spec_has_stadium(state, CardId::B3b069KidsRoom),
{
    has_stadium(state, CardId::B3b069KidsRoom)
}

/// Kids Room can be used: in play, unused this turn, a card in hand, and a Tool in the deck.
pub fn can_use_kids_room(state: &State, player: usize) -> (r: bool)
    requires
        stadium_wf(state),
        player < 2,
    ensures
        r == (spec_has_stadium(state, CardId::B3b069KidsRoom) && stadium_unused(
            state,
            player as int,
        ) && state.hand(player as int).len() > 0 && deck_has_tool(state, player as int)),
{
    if !is_kids_room_active(state) {
        return false;
    }
    if state.has_used_stadium[player] {
        return false;
    }
    if state.hands[player].len() == 0 {
        return false;
    }
    let cards = &state.decks[player].cards;
    let mut i: usize = 0;
    while i < cards.len()
        invariant
            spec_has_stadium(state, CardId::B3b069KidsRoom),
            stadium_unused(state, player as int),
            state.hand(player as int).len() > 0,
            i <= cards@.len(),
            player < 2,
            cards@ == state.decks@[player as int].cards@,
            forall|j: int| 0 <= j < i ==> !is_tool_card(#[trigger] state.deck(player as int)[j]),
        decreases cards.len() - i,
    {
        if let Card::Trainer(t) = &cards[i] {
            if t.trainer_card_type == TrainerType::Tool {
                assert(is_tool_card(state.deck(player as int)[i as int]));
                return true;
            }
        }
        i += 1;
    }
    false
}

pub fn is_arcade_active(state: &State) -> (r: bool)
    requires
        stadium_wf(state),
    ensures
        r == spec_has_stadium(state, CardId::B4a072Arcade),
{
    has_stadium(state, CardId::B4a072Arcade)
}

/// Arcade can be used: in play, unused this turn, and fewer than 7 cards in hand.
pub fn can_use_arcade(state: &State, player: usize) -> (r: bool)
    requires
        stadium_wf(state),
        player < 2,
    ensures
        r == (spec_has_stadium(state, CardId::B4a072Arcade) && stadium_unused(
            state,
            player as int,
        ) && state.hand(player as int).len() < 7),
{
    is_arcade_active(state) && !state.has_used_stadium[player] && state.hands[player].len() < 7
}

} // verus!
