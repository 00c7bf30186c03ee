use vstd::prelude::*;

use crate::abilities::{AbilityMechanic, AbilityMechanicView};
use crate::database::{effect_text, get_card_by_enum, spec_card_by_enum, CardId};
use crate::effects::{same_card_effect, CardEffect, CardEffectView};
use crate::models::{cards_view, Attack, Card, CardView, EnergyType, StatusCondition, TrainerType};
use crate::text::{decimal_text, usize_text};

verus! {

/// A card in play: the printed card plus everything that varies while it is on the mat.
#[derive(Debug)]
pub struct PlayedCard {
    pub card: Card,
    pub damage_counters: u32,
    pub base_hp: u32,
    pub stadium_hp_bonus: u32,
    /// Whether Serperior's Jungle Totem doubles this Pokémon's attached [G] Energy.
    pub double_grass_active: bool,
    /// Extra HP granted by an Ability on its owner's board (Lilligant's Toughness Aroma).
    pub ability_hp_bonus: u32,
    /// Whether a Heal Block Ability (Claydol) is in play, making `heal` a no-op.
    pub heal_blocked: bool,
    /// Whether this is a Basic and a Power of Alchemy Ability (Alolan Muk) is in play.
    pub basic_abilities_suppressed: bool,
    pub attached_energy: Vec<EnergyType>,
    /// Pokémon Tools attached, in attachment order.
    pub attached_tools: Vec<Card>,
    pub played_this_turn: bool,
    pub moved_to_active_this_turn: bool,
    pub ability_used: bool,
    pub poisoned: bool,
    /// Checkup damage of the current Poison when an attack replaced the usual 10.
    pub poison_damage_override: Option<u32>,
    pub paralyzed: bool,
    /// The turn on which the current Paralysis was inflicted.
    pub paralyzed_on_turn: Option<u8>,
    pub asleep: bool,
    pub burned: bool,
    pub confused: bool,
    pub cards_behind: Vec<Card>,
    pub prevent_first_attack_damage_used: bool,
    pub has_attacked_since_play: bool,
    pub knockout_points_denied: bool,
    pub damaged_by_attack_while_active_this_turn: bool,
    pub damaged_by_attack_while_active_last_turn: bool,
    /// Effects cleared when the Pokémon leaves the Active Spot, each with its turns left.
    pub effects: Vec<(CardEffect, u8)>,
}

/// The mathematical value of a card in play.
pub struct PlayedCardView {
    pub card: CardView,
    pub damage_counters: u32,
    pub base_hp: u32,
    pub stadium_hp_bonus: u32,
    pub double_grass_active: bool,
    pub ability_hp_bonus: u32,
    pub heal_blocked: bool,
    pub basic_abilities_suppressed: bool,
    pub attached_energy: Seq<EnergyType>,
    pub attached_tools: Seq<CardView>,
    pub played_this_turn: bool,
    pub moved_to_active_this_turn: bool,
    pub ability_used: bool,
    pub poisoned: bool,
    pub poison_damage_override: Option<u32>,
    pub paralyzed: bool,
    pub paralyzed_on_turn: Option<u8>,
    pub asleep: bool,
    pub burned: bool,
    pub confused: bool,
    pub cards_behind: Seq<CardView>,
    pub prevent_first_attack_damage_used: bool,
    pub has_attacked_since_play: bool,
    pub knockout_points_denied: bool,
    pub damaged_this_turn: bool,
    pub damaged_last_turn: bool,
    pub effects: Seq<(CardEffectView, u8)>,
}

pub open spec fn effects_view(s: Seq<(CardEffect, u8)>) -> Seq<(CardEffectView, u8)> {
    s.map_values(|e: (CardEffect, u8)| (e.0@, e.1))
}

impl View for PlayedCard {
    type V = PlayedCardView;

    open spec fn view(&self) -> PlayedCardView {
        PlayedCardView {
            card: self.card@,
            damage_counters: self.damage_counters,
            base_hp: self.base_hp,
            stadium_hp_bonus: self.stadium_hp_bonus,
            double_grass_active: self.double_grass_active,
            ability_hp_bonus: self.ability_hp_bonus,
            heal_blocked: self.heal_blocked,
            basic_abilities_suppressed: self.basic_abilities_suppressed,
            attached_energy: self.attached_energy@,
            attached_tools: cards_view(self.attached_tools@),
            played_this_turn: self.played_this_turn,
            moved_to_active_this_turn: self.moved_to_active_this_turn,
            ability_used: self.ability_used,
            poisoned: self.poisoned,
            poison_damage_override: self.poison_damage_override,
            paralyzed: self.paralyzed,
            paralyzed_on_turn: self.paralyzed_on_turn,
            asleep: self.asleep,
            burned: self.burned,
            confused: self.confused,
            cards_behind: cards_view(self.cards_behind@),
            prevent_first_attack_damage_used: self.prevent_first_attack_damage_used,
            has_attacked_since_play: self.has_attacked_since_play,
            knockout_points_denied: self.knockout_points_denied,
            damaged_this_turn: self.damaged_by_attack_while_active_this_turn,
            damaged_last_turn: self.damaged_by_attack_while_active_last_turn,
            effects: effects_view(self.effects@),
        }
    }
}

impl PlayedCardView {
    /// A fresh card in play, as `PlayedCard::new` builds it.
    pub open spec fn fresh(
        card: CardView,
        damage_counters: u32,
        base_hp: u32,
        attached_energy: Seq<EnergyType>,
        played_this_turn: bool,
        cards_behind: Seq<CardView>,
    ) -> PlayedCardView {
        PlayedCardView {
            card,
            damage_counters,
            base_hp,
            stadium_hp_bonus: 0,
            double_grass_active: false,
            ability_hp_bonus: 0,
            heal_blocked: false,
            basic_abilities_suppressed: false,
            attached_energy,
            attached_tools: Seq::empty(),
            played_this_turn,
            moved_to_active_this_turn: false,
            ability_used: false,
            poisoned: false,
            poison_damage_override: None,
            paralyzed: false,
            paralyzed_on_turn: None,
            asleep: false,
            burned: false,
            confused: false,
            cards_behind,
            prevent_first_attack_damage_used: false,
            has_attacked_since_play: false,
            knockout_points_denied: false,
            damaged_this_turn: false,
            damaged_last_turn: false,
            effects: Seq::empty(),
        }
    }
}


/// `acc` followed by each element of `rest` that is not already present, in order.
pub open spec fn push_missing(acc: Seq<EnergyType>, rest: Seq<EnergyType>) -> Seq<EnergyType>
    decreases rest.len(),
{
    if rest.len() == 0 {
        acc
    } else {
        let next = if acc.contains(rest[0]) {
            acc
        } else {
            acc.push(rest[0])
        };
        push_missing(next, rest.drop_first())
    }
}

/// How many times `e` occurs in `s`.
pub open spec fn count_of(s: Seq<EnergyType>, e: EnergyType) -> nat {
    s.filter(energy_is(e)).len()
}

/// The predicate "is `e`".
pub open spec fn energy_is(e: EnergyType) -> spec_fn(EnergyType) -> bool {
    |x: EnergyType| x == e
}

/// Names of the Ancient Pokémon, which the Ancient Booster Energy Capsule boosts.
pub open spec fn is_ancient_name(n: Seq<char>) -> bool {
    n == "Koraidon"@ || n == "Koraidon ex"@ || n == "Great Tusk"@ || n == "Great Tusk ex"@
        || n == "Scream Tail"@ || n == "Brute Bonnet"@ || n == "Flutter Mane"@
        || n == "Slither Wing"@ || n == "Sandy Shocks"@ || n == "Roaring Moon"@
        || n == "Roaring Moon ex"@ || n == "Walking Wake"@ || n == "Walking Wake ex"@
        || n == "Gouging Fire"@ || n == "Raging Bolt"@ || n == "Raging Bolt ex"@
}

/// Effects left after one end of turn: those with no turns left go, the others lose one.
pub open spec fn effects_after_turn(s: Seq<(CardEffectView, u8)>) -> Seq<(CardEffectView, u8)>
    decreases s.len(),
{
    if s.len() == 0 {
        s
    } else {
        let rest = effects_after_turn(s.drop_last());
        let last = s.last();
        if last.1 > 0 {
            rest.push((last.0, (last.1 - 1) as u8))
        } else {
            rest
        }
    }
}

/// The stored effects after `k` end-of-turn passes.
pub open spec fn effects_after_turns(s: Seq<(CardEffectView, u8)>, k: nat) -> Seq<
    (CardEffectView, u8),
>
    decreases k,
{
    if k == 0 {
        s
    } else {
        effects_after_turns(effects_after_turn(s), (k - 1) as nat)
    }
}

proof fn lemma_effects_after_turn_concat(s: Seq<(CardEffectView, u8)>, t: Seq<(CardEffectView, u8)>)
    ensures
        effects_after_turn(s + t) == effects_after_turn(s) + effects_after_turn(t),
    decreases t.len(),
{
    if t.len() == 0 {
        assert(s + t =~= s);
        assert(effects_after_turn(s) + effects_after_turn(t) =~= effects_after_turn(s));
    } else {
        lemma_effects_after_turn_concat(s, t.drop_last());
        assert((s + t).drop_last() =~= s + t.drop_last());
        assert((s + t).last() == t.last());
        let last = t.last();
        if last.1 > 0 {
            assert(effects_after_turn(s) + effects_after_turn(t.drop_last()).push(
                (last.0, (last.1 - 1) as u8),
            ) =~= (effects_after_turn(s) + effects_after_turn(t.drop_last())).push(
                (last.0, (last.1 - 1) as u8),
            ));
        }
    }
}

/// An effect added with duration `d` outlasts exactly `d` end-of-turn passes: after `k` passes
/// it is still there with `d - k` left when `k <= d`, and gone afterwards. The effects stored
/// before it age on their own, unaffected.
pub proof fn law_effect_lasts_its_duration(
    s: Seq<(CardEffectView, u8)>,
    e: CardEffectView,
    d: u8,
    k: nat,
)
    ensures
        effects_after_turns(s.push((e, d)), k) == effects_after_turns(s, k) + (if k <= d {
            seq![(e, (d - k) as u8)]
        } else {
            Seq::empty()
        }),
    decreases k,
{
    if k == 0 {
        assert(s.push((e, d)) =~= s + seq![(e, d)]);
    } else {
        lemma_effects_after_turn_concat(s, seq![(e, d)]);
        assert(s.push((e, d)) =~= s + seq![(e, d)]);
        let s1 = effects_after_turn(s);
        let one = seq![(e, d)];
        assert(one.drop_last() =~= Seq::<(CardEffectView, u8)>::empty());
        assert(one.last() == (e, d));
        assert(effects_after_turn(one.drop_last()) == Seq::<(CardEffectView, u8)>::empty());
        if d > 0 {
            assert(Seq::<(CardEffectView, u8)>::empty().push((e, (d - 1) as u8)) =~= seq![(e, (d - 1) as u8)]);
            assert(effects_after_turn(seq![(e, d)]) =~= seq![(e, (d - 1) as u8)]);
            law_effect_lasts_its_duration(s1, e, (d - 1) as u8, (k - 1) as nat);
            assert(s1 + seq![(e, (d - 1) as u8)] =~= s1.push((e, (d - 1) as u8)));
        } else {
            assert(effects_after_turn(seq![(e, d)]) =~= Seq::<(CardEffectView, u8)>::empty());
            assert(s1 + Seq::<(CardEffectView, u8)>::empty() =~= s1);
            lemma_effects_after_turns_empty_tail(s1, (k - 1) as nat);
        }
    }
}

proof fn lemma_effects_after_turns_empty_tail(s: Seq<(CardEffectView, u8)>, k: nat)
    ensures
        effects_after_turns(s, k) + Seq::<(CardEffectView, u8)>::empty() == effects_after_turns(s, k),
{
    assert(effects_after_turns(s, k) + Seq::<(CardEffectView, u8)>::empty() =~= effects_after_turns(s, k));
}


pub open spec fn sat_add(a: u32, b: u32) -> u32 {
    if a + b > u32::MAX {
        u32::MAX
    } else {
        (a + b) as u32
    }
}

pub open spec fn sat_sub(a: u32, b: u32) -> u32 {
    if a > b {
        (a - b) as u32
    } else {
        0
    }
}

pub open spec fn min_int(a: int, b: int) -> int {
    if a <= b {
        a
    } else {
        b
    }
}

impl PlayedCardView {
    pub open spec fn is_fossil(self) -> bool {
        self.card.is_fossil()
    }


    /// The effective total HP does not depend on the damage counters.
    pub proof fn lemma_total_hp_ignores_damage(self, d: u32)
        ensures
            (PlayedCardView { damage_counters: d, ..self }).effective_total_hp()
                == self.effective_total_hp(),
    {
        reveal(PlayedCardView::effective_total_hp);
    }

    /// The card with its remaining HP set to `remaining_hp`, capped at its effective total.
    pub open spec fn with_remaining_hp(self, remaining_hp: u32) -> PlayedCardView {
        PlayedCardView {
            damage_counters: (self.effective_total_hp() - min_int(
                remaining_hp as int,
                self.effective_total_hp(),
            )) as u32,
            ..self
        }
    }

    /// The card after healing `amount`; nothing changes under Heal Block.
    pub open spec fn healed(self, amount: u32) -> PlayedCardView {
        if self.heal_blocked {
            self
        } else {
            PlayedCardView { damage_counters: sat_sub(self.damage_counters, amount), ..self }
        }
    }

    pub open spec fn poison_damage(self) -> u32 {
        match self.poison_damage_override {
            Some(a) => a,
            None => 10,
        }
    }


    /// One of the attached Tools has the effect text of `tool`, which must be a Trainer.
    pub open spec fn holds_same_tool_as(self, tool: CardView) -> bool {
        match tool {
            CardView::Trainer(t) => exists|i: int|
                0 <= i < self.attached_tools.len() && same_tool_effect(
                    #[trigger] self.attached_tools[i],
                    t.effect,
                ),
            CardView::Pokemon(_) => false,
        }
    }

    /// Stored effects followed by the one derived from its Ability, if any.
    pub open spec fn effective_card_effects(self) -> Seq<CardEffectView> {
        let stored = self.effects.map_values(|e: (CardEffectView, u8)| e.0);
        match self.ability_mechanic() {
            Some(m) => match crate::abilities::spec_card_effect_from_ability_mechanic(m) {
                Some(d) => stored.push(d@),
                None => stored,
            },
            None => stored,
        }
    }

    /// No Special Condition, no Poison override, no Paralysis turn.
    pub open spec fn cured(self) -> PlayedCardView {
        PlayedCardView {
            poisoned: false,
            poison_damage_override: None,
            paralyzed: false,
            paralyzed_on_turn: None,
            asleep: false,
            burned: false,
            confused: false,
            ..self
        }
    }

    pub open spec fn without_status(self, status: StatusCondition) -> PlayedCardView {
        PlayedCardView {
            poisoned: self.poisoned && status != StatusCondition::Poisoned,
            poison_damage_override: if status == StatusCondition::Poisoned {
                None
            } else {
                self.poison_damage_override
            },
            paralyzed: self.paralyzed && status != StatusCondition::Paralyzed,
            paralyzed_on_turn: if status == StatusCondition::Paralyzed {
                None
            } else {
                self.paralyzed_on_turn
            },
            asleep: self.asleep && status != StatusCondition::Asleep,
            burned: self.burned && status != StatusCondition::Burned,
            confused: self.confused && status != StatusCondition::Confused,
            ..self
        }
    }

    pub open spec fn with_status(self, status: StatusCondition) -> PlayedCardView {
        PlayedCardView {
            poisoned: self.poisoned || status == StatusCondition::Poisoned,
            poison_damage_override: if status == StatusCondition::Poisoned {
                None
            } else {
                self.poison_damage_override
            },
            paralyzed: self.paralyzed || status == StatusCondition::Paralyzed,
            asleep: self.asleep || status == StatusCondition::Asleep,
            burned: self.burned || status == StatusCondition::Burned,
            confused: self.confused || status == StatusCondition::Confused,
            ..self
        }
    }

    pub open spec fn after_end_of_turn(self) -> PlayedCardView {
        PlayedCardView {
            effects: effects_after_turn(self.effects),
            knockout_points_denied: false,
            damaged_last_turn: self.damaged_this_turn,
            damaged_this_turn: false,
            played_this_turn: false,
            moved_to_active_this_turn: false,
            ability_used: false,
            ..self
        }
    }

    pub open spec fn is_damaged(self) -> bool {
        self.damage_counters > 0
    }

    /// An effect (Budew's Prickly Powder) has stripped this Pokémon of its Abilities.
    pub open spec fn abilities_disabled_by_effect(self) -> bool {
        exists|i: int|
            0 <= i < self.effects.len() && (#[trigger] self.effects[i]).0
                is AbilitiesDisabled
    }

    pub open spec fn abilities_disabled(self) -> bool {
        self.abilities_disabled_by_effect() || self.basic_abilities_suppressed
    }

    /// The Ability this Pokémon contributes in play.
    pub open spec fn ability_mechanic(self) -> Option<AbilityMechanicView> {
        if self.abilities_disabled() {
            None
        } else {
            self.card.ability()
        }
    }

    /// Every type it counts as while in play: printed first, then those its Ability grants.
    pub open spec fn energy_types(self) -> Seq<EnergyType> {
        match self.ability_mechanic() {
            Some(AbilityMechanicView::GrantedTypes { energy_types }) => push_missing(
                self.card.types(),
                energy_types,
            ),
            _ => self.card.types(),
        }
    }

    pub open spec fn is_type(self, e: EnergyType) -> bool {
        self.card.types().contains(e) || match self.ability_mechanic() {
            Some(AbilityMechanicView::GrantedTypes { energy_types }) => energy_types.contains(e),
            _ => false,
        }
    }

    /// One of the attached Tools is the catalogued Tool `id` (by effect text).
    pub open spec fn has_tool(self, id: CardId) -> bool {
        exists|i: int|
            0 <= i < self.attached_tools.len() && match #[trigger] self.attached_tools[i] {
                CardView::Trainer(t) => t.effect == effect_text(id),
                CardView::Pokemon(_) => false,
            }
    }

    /// HP granted per attached Energy by the Ability (Reuniclus, Serperior).
    pub open spec fn per_energy_hp_bonus(self) -> int {
        match self.ability_mechanic() {
            Some(AbilityMechanicView::IncreaseHpPerAttachedEnergy { energy_type, amount }) => {
                let n = count_of(self.attached_energy, energy_type);
                let n = if energy_type == EnergyType::Grass && self.double_grass_active {
                    2 * n
                } else {
                    n
                };
                n * amount
            },
            _ => 0,
        }
    }

    pub open spec fn tool_hp_bonus(self) -> int {
        (if self.has_tool(CardId::A2147GiantCape) {
            20int
        } else {
            0
        }) + (if self.has_tool(CardId::A3147LeafCape) && self.is_type(EnergyType::Grass) {
            30int
        } else {
            0
        }) + (if self.has_tool(CardId::B3b065ElegantCape) && self.card.stage() == Some(1u8) {
            30int
        } else {
            0
        }) + (if self.has_tool(CardId::B3a069AncientBoosterEnergyCapsule) && is_ancient_name(
            self.card.name(),
        ) {
            40int
        } else {
            0
        })
    }

    /// Total HP with every bonus: Tools, stadium, board Abilities and its own Ability.
    #[verifier::opaque]
    pub open spec fn effective_total_hp(self) -> int {
        self.base_hp + self.tool_hp_bonus() + self.stadium_hp_bonus + self.ability_hp_bonus
            + self.per_energy_hp_bonus()
    }

    /// The HP arithmetic fits in `u32`.
    pub open spec fn hp_fits(self) -> bool {
        &&& 0 <= self.effective_total_hp() <= u32::MAX
        &&& 2 * self.attached_energy.len() <= u32::MAX
    }

    pub open spec fn remaining_hp(self) -> int {
        if self.effective_total_hp() > self.damage_counters {
            self.effective_total_hp() - self.damage_counters
        } else {
            0
        }
    }

    /// HP on the board without Tools: base, stadium and Ability bonuses.
    pub open spec fn board_total_hp(self) -> int {
        self.base_hp + self.stadium_hp_bonus + self.ability_hp_bonus
    }

    pub open spec fn board_remaining_hp(self) -> int {
        if self.board_total_hp() > self.damage_counters {
            self.board_total_hp() - self.damage_counters
        } else {
            0
        }
    }

    pub open spec fn tool_capacity(self) -> int {
        match self.ability_mechanic() {
            Some(AbilityMechanicView::ExtraToolSlots { amount }) => 1 + amount,
            _ => 1,
        }
    }

    pub open spec fn status_count(self) -> int {
        (if self.poisoned {
            1int
        } else {
            0
        }) + (if self.paralyzed {
            1int
        } else {
            0
        }) + (if self.asleep {
            1int
        } else {
            0
        }) + (if self.burned {
            1int
        } else {
            0
        }) + (if self.confused {
            1int
        } else {
            0
        })
    }

    /// The attached Energy with each [G] counted twice while Jungle Totem applies.
    pub open spec fn doubled_energy(self) -> Seq<EnergyType> {
        if self.double_grass_active {
            double_grass(self.attached_energy)
        } else {
            self.attached_energy
        }
    }
}

/// `s` with every Grass entry followed by a second Grass.
pub open spec fn double_grass(s: Seq<EnergyType>) -> Seq<EnergyType>
    decreases s.len(),
{
    if s.len() == 0 {
        s
    } else {
        let rest = double_grass(s.drop_last());
        if s.last() == EnergyType::Grass {
            rest.push(EnergyType::Grass).push(EnergyType::Grass)
        } else {
            rest.push(s.last())
        }
    }
}


/// Whether `v` holds `e`.
pub fn contains_energy_type(v: &Vec<EnergyType>, e: EnergyType) -> (r: bool)
    ensures
        r == v@.contains(e),
{
    let mut i: usize = 0;
    while i < v.len()
        invariant
            i <= v.len(),
            forall|j: int| 0 <= j < i ==> v@[j] != e,
        decreases v.len() - i,
    {
        if v[i] == e {
            return true;
        }
        i += 1;
    }
    false
}

/// How many entries of `v` are `e`.
pub fn count_energy(v: &Vec<EnergyType>, e: EnergyType) -> (r: u32)
    requires
        v@.len() <= u32::MAX,
    ensures
        r == count_of(v@, e),
{
    let mut n: u32 = 0;
    let mut i: usize = 0;
    while i < v.len()
        invariant
            i <= v.len(),
            v@.len() <= u32::MAX,
            n == count_of(v@.take(i as int), e),
            n <= i,
        decreases v.len() - i,
    {
        proof {
            v@.lemma_take_succ_push(i as int);
            v@.take(i as int).lemma_filter_push(v@[i as int], energy_is(e));
        }
        if v[i] == e {
            n += 1;
        }
        i += 1;
    }
    assert(v@.take(v.len() as int) =~= v@);
    n
}

/// Whether a Pokémon of this name is an Ancient Pokémon.
pub fn is_ancient_pokemon(name: &String) -> (r: bool)
    ensures
        r == is_ancient_name(name@),
{
    *name == String::from_str("Koraidon")
        || *name == String::from_str("Koraidon ex")
        || *name == String::from_str("Great Tusk")
        || *name == String::from_str("Great Tusk ex")
        || *name == String::from_str("Scream Tail")
        || *name == String::from_str("Brute Bonnet")
        || *name == String::from_str("Flutter Mane")
        || *name == String::from_str("Slither Wing")
        || *name == String::from_str("Sandy Shocks")
        || *name == String::from_str("Roaring Moon")
        || *name == String::from_str("Roaring Moon ex")
        || *name == String::from_str("Walking Wake")
        || *name == String::from_str("Walking Wake ex")
        || *name == String::from_str("Gouging Fire")
        || *name == String::from_str("Raging Bolt")
        || *name == String::from_str("Raging Bolt ex")
}


/// The summed bonuses of the `(type, amount)` sources whose type the Pokémon counts as.
pub open spec fn typed_bonus_sum(p: PlayedCardView, bonuses: Seq<(EnergyType, u32)>) -> int
    decreases bonuses.len(),
{
    if bonuses.len() == 0 {
        0
    } else {
        typed_bonus_sum(p, bonuses.drop_last()) + if p.is_type(bonuses.last().0) {
            bonuses.last().1 as int
        } else {
            0
        }
    }
}

pub proof fn lemma_typed_bonus_sum_prefix(
    p: PlayedCardView,
    bonuses: Seq<(EnergyType, u32)>,
    i: int,
)
    requires
        0 <= i < bonuses.len(),
    ensures
        typed_bonus_sum(p, bonuses.take(i + 1)) == typed_bonus_sum(p, bonuses.take(i)) + if p.is_type(
            bonuses[i].0,
        ) {
            bonuses[i].1 as int
        } else {
            0
        },
{
    assert(bonuses.take(i + 1).drop_last() =~= bonuses.take(i));
}

/// A prefix never sums to more than the whole list.
pub proof fn lemma_typed_bonus_sum_le(p: PlayedCardView, bonuses: Seq<(EnergyType, u32)>, i: int)
    requires
        0 <= i <= bonuses.len(),
    ensures
        0 <= typed_bonus_sum(p, bonuses.take(i)) <= typed_bonus_sum(p, bonuses),
    decreases bonuses.len(),
{
    if i == bonuses.len() {
        assert(bonuses.take(i) =~= bonuses);
        lemma_typed_bonus_sum_nonneg(p, bonuses);
    } else {
        lemma_typed_bonus_sum_le(p, bonuses.drop_last(), i);
        assert(bonuses.drop_last().take(i) =~= bonuses.take(i));
    }
}

pub proof fn lemma_typed_bonus_sum_nonneg(p: PlayedCardView, bonuses: Seq<(EnergyType, u32)>)
    ensures
        0 <= typed_bonus_sum(p, bonuses),
    decreases bonuses.len(),
{
    if bonuses.len() > 0 {
        lemma_typed_bonus_sum_nonneg(p, bonuses.drop_last());
    }
}


/// A Tool card with this effect text.
pub open spec fn same_tool_effect(c: CardView, effect: Seq<char>) -> bool {
    match c {
        CardView::Trainer(t) => t.effect == effect,
        CardView::Pokemon(_) => false,
    }
}


/// The Special Condition fields of a card in play.
struct StatusFlags {
    poisoned: bool,
    poison_damage_override: Option<u32>,
    paralyzed: bool,
    paralyzed_on_turn: Option<u8>,
    asleep: bool,
    burned: bool,
    confused: bool,
}

impl StatusFlags {
    fn of(p: &PlayedCard) -> (r: StatusFlags)
        ensures
            r.poisoned == p.poisoned,
            r.poison_damage_override == p.poison_damage_override,
            r.paralyzed == p.paralyzed,
            r.paralyzed_on_turn == p.paralyzed_on_turn,
            r.asleep == p.asleep,
            r.burned == p.burned,
            r.confused == p.confused,
    {
        StatusFlags {
            poisoned: p.poisoned,
            poison_damage_override: p.poison_damage_override,
            paralyzed: p.paralyzed,
            paralyzed_on_turn: p.paralyzed_on_turn,
            asleep: p.asleep,
            burned: p.burned,
            confused: p.confused,
        }
    }

    fn without(self, status: StatusCondition) -> (r: StatusFlags)
        ensures
            r.poisoned == (self.poisoned && status != StatusCondition::Poisoned),
            r.poison_damage_override == (if status == StatusCondition::Poisoned {
                None
            } else {
                self.poison_damage_override
            }),
            r.paralyzed == (self.paralyzed && status != StatusCondition::Paralyzed),
            r.paralyzed_on_turn == (if status == StatusCondition::Paralyzed {
                None
            } else {
                self.paralyzed_on_turn
            }),
            r.asleep == (self.asleep && status != StatusCondition::Asleep),
            r.burned == (self.burned && status != StatusCondition::Burned),
            r.confused == (self.confused && status != StatusCondition::Confused),
    {
        StatusFlags {
            poisoned: self.poisoned && status != StatusCondition::Poisoned,
            poison_damage_override: if status == StatusCondition::Poisoned {
                None
            } else {
                self.poison_damage_override
            },
            paralyzed: self.paralyzed && status != StatusCondition::Paralyzed,
            paralyzed_on_turn: if status == StatusCondition::Paralyzed {
                None
            } else {
                self.paralyzed_on_turn
            },
            asleep: self.asleep && status != StatusCondition::Asleep,
            burned: self.burned && status != StatusCondition::Burned,
            confused: self.confused && status != StatusCondition::Confused,
        }
    }

    fn with(self, status: StatusCondition) -> (r: StatusFlags)
        ensures
            r.poisoned == (self.poisoned || status == StatusCondition::Poisoned),
            r.poison_damage_override == (if status == StatusCondition::Poisoned {
                None
            } else {
                self.poison_damage_override
            }),
            r.paralyzed == (self.paralyzed || status == StatusCondition::Paralyzed),
            r.paralyzed_on_turn == self.paralyzed_on_turn,
            r.asleep == (self.asleep || status == StatusCondition::Asleep),
            r.burned == (self.burned || status == StatusCondition::Burned),
            r.confused == (self.confused || status == StatusCondition::Confused),
    {
        StatusFlags {
            poisoned: self.poisoned || status == StatusCondition::Poisoned,
            poison_damage_override: if status == StatusCondition::Poisoned {
                None
            } else {
                self.poison_damage_override
            },
            paralyzed: self.paralyzed || status == StatusCondition::Paralyzed,
            paralyzed_on_turn: self.paralyzed_on_turn,
            asleep: self.asleep || status == StatusCondition::Asleep,
            burned: self.burned || status == StatusCondition::Burned,
            confused: self.confused || status == StatusCondition::Confused,
        }
    }

    fn store(self, p: &mut PlayedCard)
        ensures
            final(p)@ == (PlayedCardView {
                poisoned: self.poisoned,
                poison_damage_override: self.poison_damage_override,
                paralyzed: self.paralyzed,
                paralyzed_on_turn: self.paralyzed_on_turn,
                asleep: self.asleep,
                burned: self.burned,
                confused: self.confused,
                ..old(p)@
            }),
    {
        p.poisoned = self.poisoned;
        p.poison_damage_override = self.poison_damage_override;
        p.paralyzed = self.paralyzed;
        p.paralyzed_on_turn = self.paralyzed_on_turn;
        p.asleep = self.asleep;
        p.burned = self.burned;
        p.confused = self.confused;
    }
}

impl PlayedCard {
    pub fn new(
        card: Card,
        damage_counters: u32,
        base_hp: u32,
        attached_energy: Vec<EnergyType>,
        played_this_turn: bool,
        cards_behind: Vec<Card>,
    ) -> (r: Self)
        ensures
            r@ == PlayedCardView::fresh(
                card@,
                damage_counters,
                base_hp,
                attached_energy@,
                played_this_turn,
                cards_view(cards_behind@),
            ),
    {
        let r = PlayedCard {
            card,
            damage_counters,
            base_hp,
            stadium_hp_bonus: 0,
            double_grass_active: false,
            ability_hp_bonus: 0,
            heal_blocked: false,
            basic_abilities_suppressed: false,
            attached_energy,
            played_this_turn,
            moved_to_active_this_turn: false,
            cards_behind,
            attached_tools: Vec::new(),
            ability_used: false,
            poisoned: false,
            poison_damage_override: None,
            paralyzed: false,
            paralyzed_on_turn: None,
            asleep: false,
            burned: false,
            confused: false,
            effects: Vec::new(),
            prevent_first_attack_damage_used: false,
            has_attacked_since_play: false,
            knockout_points_denied: false,
            damaged_by_attack_while_active_this_turn: false,
            damaged_by_attack_while_active_last_turn: false,
        };
        assert(cards_view(r.attached_tools@) =~= Seq::<CardView>::empty());
        assert(effects_view(r.effects@) =~= Seq::<(CardEffectView, u8)>::empty());
        r
    }

    /// A fresh card in play at full HP with no Energy, Tools or Special Conditions. A Trainer
    /// may only be put in play as a Fossil, which has 40 HP.
    pub fn from_card(card: &Card) -> (r: Self)
        requires
            card@ is Pokemon || card@.is_fossil(),
        ensures
            r@ == PlayedCardView::fresh(
                card@,
                0,
                match card@ {
                    CardView::Pokemon(p) => p.hp,
                    CardView::Trainer(_) => 40,
                },
                Seq::empty(),
                false,
                Seq::empty(),
            ),
            r@.effective_total_hp() == r@.base_hp,
            r@.remaining_hp() == r@.base_hp,
    {
        let base_hp = match card {
            Card::Pokemon(p) => p.hp,
            Card::Trainer(_) => 40,
        };
        let r = Self::new(card.clone(), 0, base_hp, Vec::new(), false, Vec::new());
        assert(cards_view(Seq::<Card>::empty()) =~= Seq::<CardView>::empty());
        proof {
            reveal(PlayedCardView::effective_total_hp);
            assert forall|e: EnergyType| count_of(Seq::<EnergyType>::empty(), e) == 0 by {
                assert(Seq::<EnergyType>::empty().filter(energy_is(e)) =~= Seq::<EnergyType>::empty());
            }
            assert(r@.attached_energy =~= Seq::<EnergyType>::empty());
            assert(!r@.has_tool(CardId::A2147GiantCape));
            assert(!r@.has_tool(CardId::A3147LeafCape));
            assert(!r@.has_tool(CardId::B3b065ElegantCape));
            assert(!r@.has_tool(CardId::B3a069AncientBoosterEnergyCapsule));
        }
        r
    }

    /// A fresh card in play from a catalogued id: full HP, no Energy, Tools or conditions.
    pub fn from_id(card_id: CardId) -> (r: Self)
        requires
            spec_card_by_enum(card_id) is Pokemon || spec_card_by_enum(card_id).is_fossil(),
        ensures
            r@ == PlayedCardView::fresh(
                spec_card_by_enum(card_id),
                0,
                match spec_card_by_enum(card_id) {
                    CardView::Pokemon(p) => p.hp,
                    CardView::Trainer(_) => 40,
                },
                Seq::empty(),
                false,
                Seq::empty(),
            ),
    {
        let card = get_card_by_enum(card_id);
        Self::from_card(&card)
    }

    pub fn with_energy(self, energy: Vec<EnergyType>) -> (r: Self)
        ensures
            r@ == (PlayedCardView { attached_energy: energy@, ..self@ }),
    {
        let mut s = self;
        s.attached_energy = energy;
        s
    }

    /// Adds damage, saturating at `u32::MAX`.
    pub fn with_damage(self, damage: u32) -> (r: Self)
        ensures
            r@ == (PlayedCardView { damage_counters: sat_add(self@.damage_counters, damage), ..self@ }),
    {
        let mut s = self;
        s.damage_counters = s.damage_counters.saturating_add(damage);
        s
    }

    #[verifier::spinoff_prover]
    #[verifier::rlimit(40)]
    pub fn with_remaining_hp(self, remaining_hp: u32) -> (r: Self)
        requires
            self@.hp_fits(),
        ensures
            r@ == self@.with_remaining_hp(remaining_hp),
            r@.remaining_hp() == min_int(remaining_hp as int, self@.effective_total_hp()),
    {
        let mut s = self;
        s.set_remaining_hp(remaining_hp);
        proof {
            self@.lemma_total_hp_ignores_damage(s@.damage_counters);
            assert(s@ == (PlayedCardView { damage_counters: s@.damage_counters, ..self@ }));
            assert(s@.effective_total_hp() == self@.effective_total_hp());
            assert(s@.damage_counters == self@.effective_total_hp() - min_int(
                remaining_hp as int,
                self@.effective_total_hp(),
            ));
        }
        s
    }

    /// The damage counters that leave `remaining_hp` HP, capped at the effective total HP.
    fn damage_for_remaining(&self, remaining_hp: u32) -> (r: u32)
        requires
            self@.hp_fits(),
        ensures
            r == self@.with_remaining_hp(remaining_hp).damage_counters,
    {
        let effective_hp = self.get_effective_total_hp();
        if remaining_hp < effective_hp {
            effective_hp - remaining_hp
        } else {
            0
        }
    }

    /// Sets the remaining HP to `remaining_hp`, capped at the effective total HP.
    pub fn set_remaining_hp(&mut self, remaining_hp: u32)
        requires
            old(self)@.hp_fits(),
        ensures
            final(self)@ == old(self)@.with_remaining_hp(remaining_hp),
    {
        let d = self.damage_for_remaining(remaining_hp);
        self.damage_counters = d;
    }

    /// Board setup: attaches `tool` without checking the Tool capacity.
    pub fn with_tool(self, tool: Card) -> (r: Self)
        ensures
            r@ == (PlayedCardView { attached_tools: self@.attached_tools.push(tool@), ..self@ }),
    {
        let mut s = self;
        let ghost before = s.attached_tools@;
        s.attached_tools.push(tool);
        assert(cards_view(s.attached_tools@) =~= cards_view(before).push(tool@));
        s
    }

    pub fn get_id(&self) -> (r: String)
        ensures
            r@ == self@.card.id(),
    {
        self.card.get_id()
    }

    pub fn get_name(&self) -> (r: String)
        ensures
            r@ == self@.card.name(),
    {
        self.card.get_name()
    }

    /// The printed type of the card.
    pub fn get_energy_type(&self) -> (r: Option<EnergyType>)
        ensures
            r == self@.card.energy_type(),
    {
        self.card.get_energy_type()
    }

    pub fn is_fossil(&self) -> (r: bool)
        ensures
            r == self@.is_fossil(),
    {
        match &self.card {
            Card::Trainer(t) => t.trainer_card_type == TrainerType::Fossil,
            Card::Pokemon(_) => false,
        }
    }

    /// The printed attacks; only a Pokémon has them.
    pub fn get_attacks(&self) -> (r: &Vec<Attack>)
        requires
            self@.card is Pokemon,
        ensures
            crate::models::attacks_view(r@) == self@.card.attacks(),
    {
        match &self.card {
            Card::Pokemon(p) => &p.attacks,
            Card::Trainer(_) => unreached(),
        }
    }

    /// Heals `amount` damage unless a Heal Block Ability is in play.
    pub fn heal(&mut self, amount: u32)
        ensures
            final(self)@ == old(self)@.healed(amount),
    {
        if self.heal_blocked {
            return ;
        }
        self.damage_counters = self.damage_counters.saturating_sub(amount);
    }

    pub fn apply_damage(&mut self, damage: u32)
        ensures
            final(self)@ == (PlayedCardView { damage_counters: sat_add(old(self)@.damage_counters, damage), ..old(self)@ }),
    {
        self.damage_counters = self.damage_counters.saturating_add(damage);
    }

    pub fn is_damaged(&self) -> (r: bool)
        ensures
            r == self@.is_damaged(),
    {
        self.damage_counters > 0
    }

    pub fn get_damage_counters(&self) -> (r: u32)
        ensures
            r == self@.damage_counters,
    {
        self.damage_counters
    }

    pub fn is_poisoned(&self) -> (r: bool)
        ensures
            r == self@.poisoned,
    {
        self.poisoned
    }

    /// Replaces the Checkup damage of the current Poison.
    pub fn set_poison_damage_override(&mut self, amount: u32)
        ensures
            final(self)@ == (PlayedCardView { poison_damage_override: Some(amount), ..old(self)@ }),
    {
        self.poison_damage_override = Some(amount);
    }

    /// Checkup damage of the current Poison: the usual 10 unless an attack overrode it.
    pub fn poison_base_damage(&self) -> (r: u32)
        ensures
            r == self@.poison_damage(),
    {
        match self.poison_damage_override {
            Some(a) => a,
            None => 10,
        }
    }

    pub fn is_paralyzed(&self) -> (r: bool)
        ensures
            r == self@.paralyzed,
    {
        self.paralyzed
    }

    pub fn paralyzed_on_turn(&self) -> (r: Option<u8>)
        ensures
            r == self@.paralyzed_on_turn,
    {
        self.paralyzed_on_turn
    }

    pub fn set_paralyzed_on_turn(&mut self, turn_count: u8)
        ensures
            final(self)@ == (PlayedCardView { paralyzed_on_turn: Some(turn_count), ..old(self)@ }),
    {
        self.paralyzed_on_turn = Some(turn_count);
    }

    pub fn is_asleep(&self) -> (r: bool)
        ensures
            r == self@.asleep,
    {
        self.asleep
    }

    pub fn is_burned(&self) -> (r: bool)
        ensures
            r == self@.burned,
    {
        self.burned
    }

    pub fn is_confused(&self) -> (r: bool)
        ensures
            r == self@.confused,
    {
        self.confused
    }

    pub fn has_status_condition(&self) -> (r: bool)
        ensures
            r == (self@.status_count() > 0),
    {
        self.poisoned || self.paralyzed || self.asleep || self.burned || self.confused
    }

    /// How many Special Conditions currently affect this Pokémon.
    pub fn count_status_conditions(&self) -> (r: usize)
        ensures
            r == self@.status_count(),
    {
        let mut n: usize = 0;
        if self.poisoned {
            n += 1;
        }
        if self.paralyzed {
            n += 1;
        }
        if self.asleep {
            n += 1;
        }
        if self.burned {
            n += 1;
        }
        if self.confused {
            n += 1;
        }
        n
    }

    pub fn has_tool_attached(&self) -> (r: bool)
        ensures
            r == (self@.attached_tools.len() > 0),
    {
        self.attached_tools.len() > 0
    }

    /// Records that this Pokémon was damaged by an attack while Active this turn.
    pub fn mark_damaged_by_attack_while_active(&mut self)
        ensures
            final(self)@ == (PlayedCardView { damaged_this_turn: true, ..old(self)@ }),
    {
        self.damaged_by_attack_while_active_this_turn = true;
    }

    /// Whether it was damaged by an attack while Active during the previous turn.
    pub fn was_damaged_by_attack_while_active_last_turn(&self) -> (r: bool)
        ensures
            r == self@.damaged_last_turn,
    {
        self.damaged_by_attack_while_active_last_turn
    }

    /// Whether this Pokémon counts as a Basic in play (Fossils count).
    pub fn is_basic_in_play(&self) -> (r: bool)
        ensures
            r == (self@.card.is_basic() || self@.is_fossil()),
    {
        self.card.is_basic() || self.is_fossil()
    }


    /// Whether an effect has stripped this Pokémon of its Abilities.
    pub fn abilities_disabled_by_effect(&self) -> (r: bool)
        ensures
            r == self@.abilities_disabled_by_effect(),
    {
        let mut i: usize = 0;
        while i < self.effects.len()
            invariant
                i <= self.effects.len(),
                forall|j: int|
                    0 <= j < i ==> !((#[trigger] effects_view(self.effects@)[j]).0 is AbilitiesDisabled),
            decreases self.effects.len() - i,
        {
            if matches!(self.effects[i].0, CardEffect::AbilitiesDisabled) {
                assert(effects_view(self.effects@)[i as int].0 is AbilitiesDisabled);
                return true;
            }
            i += 1;
        }
        false
    }

    /// Whether it has no Abilities in play (stripped by an effect, or a suppressed Basic).
    pub fn abilities_disabled(&self) -> (r: bool)
        ensures
            r == self@.abilities_disabled(),
    {
        self.abilities_disabled_by_effect() || self.basic_abilities_suppressed
    }

    /// The Ability this Pokémon contributes in play, `None` while its Abilities are disabled.
    pub fn ability_mechanic(&self) -> (r: Option<&AbilityMechanic>)
        ensures
            match r {
                Some(m) => self@.ability_mechanic() == Some(m@),
                None => self@.ability_mechanic() is None,
            },
    {
        if self.abilities_disabled() {
            return None;
        }
        match &self.card {
            Card::Pokemon(p) => match &p.ability {
                Some(m) => Some(m),
                None => None,
            },
            Card::Trainer(_) => None,
        }
    }

    /// Whether this Pokémon counts as `energy_type` while in play.
    pub fn is_type(&self, energy_type: EnergyType) -> (r: bool)
        ensures
            r == self@.is_type(energy_type),
    {
        if self.card.is_type(energy_type) {
            return true;
        }
        match self.ability_mechanic() {
            Some(AbilityMechanic::GrantedTypes { energy_types }) => contains_energy_type(
                energy_types,
                energy_type,
            ),
            _ => false,
        }
    }

    /// Every type it counts as in play: the printed type, then those its Ability grants,
    /// without repeats.
    pub fn get_energy_types(&self) -> (r: Vec<EnergyType>)
        ensures
            r@ == self@.energy_types(),
            r@.no_duplicates(),
            r@.take(self@.card.types().len() as int) == self@.card.types(),
    {
        proof {
            law_is_type_is_membership(self@, EnergyType::Grass);
        }
        let mut types = self.card.get_types();
        match self.ability_mechanic() {
            Some(AbilityMechanic::GrantedTypes { energy_types }) => {
                let mut i: usize = 0;
                assert(energy_types@.skip(0) =~= energy_types@);
                while i < energy_types.len()
                    invariant
                        i <= energy_types.len(),
                        push_missing(types@, energy_types@.skip(i as int)) == push_missing(
                            self@.card.types(),
                            energy_types@,
                        ),
                    decreases energy_types.len() - i,
                {
                    let granted = energy_types[i];
                    assert(energy_types@.skip(i as int).drop_first() =~= energy_types@.skip(
                        i + 1,
                    ));
                    if !contains_energy_type(&types, granted) {
                        types.push(granted);
                    }
                    i += 1;
                }
                assert(energy_types@.skip(i as int) =~= Seq::<EnergyType>::empty());
                types
            },
            _ => types,
        }
    }

    /// Whether the Pokémon holds a Tool with the same effect as the catalogued card `id`.
    pub fn has_tool(&self, id: CardId) -> (r: bool)
        ensures
            r == self@.has_tool(id),
    {
        let reference = crate::database::effect_text_of(id);
        let mut i: usize = 0;
        while i < self.attached_tools.len()
            invariant
                i <= self.attached_tools.len(),
                reference@ == effect_text(id),
                forall|j: int|
                    0 <= j < i ==> !match #[trigger] cards_view(self.attached_tools@)[j] {
                        CardView::Trainer(t) => t.effect == effect_text(id),
                        CardView::Pokemon(_) => false,
                    },
            decreases self.attached_tools.len() - i,
        {
            match &self.attached_tools[i] {
                Card::Trainer(t) => {
                    if t.effect == reference {
                        assert(cards_view(self.attached_tools@)[i as int] == CardView::Trainer(
                            t@,
                        ));
                        return true;
                    }
                },
                Card::Pokemon(_) => {},
            }
            i += 1;
        }
        false
    }

    /// Total HP with every bonus: Tools, stadium, board Abilities and its own Ability.
    pub fn get_effective_total_hp(&self) -> (r: u32)
        requires
            self@.hp_fits(),
        ensures
            r == self@.effective_total_hp(),
    {
        proof {
            reveal(PlayedCardView::effective_total_hp);
        }
        let mut effective_hp: u32 = self.base_hp;
        if self.has_tool(CardId::A2147GiantCape) {
            effective_hp += 20;
        }
        if self.has_tool(CardId::A3147LeafCape) && self.is_type(EnergyType::Grass) {
            effective_hp += 30;
        }
        let stage_one = match &self.card {
            Card::Pokemon(p) => p.stage == 1,
            Card::Trainer(_) => false,
        };
        if self.has_tool(CardId::B3b065ElegantCape) && stage_one {
            effective_hp += 30;
        }
        if self.has_tool(CardId::B3a069AncientBoosterEnergyCapsule) && is_ancient_pokemon(
            &self.get_name(),
        ) {
            effective_hp += 40;
        }
        effective_hp += self.stadium_hp_bonus;
        effective_hp += self.ability_hp_bonus;
        match self.ability_mechanic() {
            Some(AbilityMechanic::IncreaseHpPerAttachedEnergy { energy_type, amount }) => {
                let mut matching_count: u32 = count_energy(&self.attached_energy, *energy_type);
                if *energy_type == EnergyType::Grass && self.double_grass_active {
                    matching_count *= 2;
                }
                proof {
                    assert(0 <= matching_count * *amount <= self@.per_energy_hp_bonus())
                        by (nonlinear_arith)
                        requires
                            matching_count * *amount == self@.per_energy_hp_bonus(),
                            matching_count >= 0,
                            *amount >= 0,
                    ;
                }
                effective_hp += matching_count * *amount;
            },
            _ => {},
        }
        effective_hp
    }

    pub fn get_remaining_hp(&self) -> (r: u32)
        requires
            self@.hp_fits(),
        ensures
            r == self@.remaining_hp(),
    {
        self.get_effective_total_hp().saturating_sub(self.damage_counters)
    }

    /// The short form used in logs: name, remaining HP and the number of Energy attached, as in
    /// "Bulbasaur(70hp,1)".
    pub fn label(&self) -> (r: String)
        requires
            self@.hp_fits(),
        ensures
            r@ == self@.card.name() + "("@ + decimal_text(self@.remaining_hp() as nat) + "hp,"@
                + decimal_text(self@.attached_energy.len()) + ")"@,
    {
        let mut out = self.get_name();
        out.append("(");
        let hp = usize_text(self.get_remaining_hp() as usize);
        out.append(hp.as_str());
        out.append("hp,");
        let n = usize_text(self.attached_energy.len());
        out.append(n.as_str());
        out.append(")");
        out
    }

    pub fn is_knocked_out(&self) -> (r: bool)
        requires
            self@.hp_fits(),
        ensures
            r == (self@.damage_counters >= self@.effective_total_hp()),
    {
        self.damage_counters >= self.get_effective_total_hp()
    }

    /// HP on the board without Tool bonuses: base, stadium and Ability bonuses.
    pub fn get_board_total_hp(&self) -> (r: u32)
        requires
            self@.board_total_hp() <= u32::MAX,
        ensures
            r == self@.board_total_hp(),
    {
        self.base_hp + self.stadium_hp_bonus + self.ability_hp_bonus
    }

    pub fn get_board_remaining_hp(&self) -> (r: u32)
        requires
            self@.board_total_hp() <= u32::MAX,
        ensures
            r == self@.board_remaining_hp(),
    {
        self.get_board_total_hp().saturating_sub(self.damage_counters)
    }

    /// How many Pokémon Tools it may hold now: one, plus any extra slots its Ability grants.
    pub fn tool_capacity(&self) -> (r: usize)
        ensures
            r == self@.tool_capacity(),
    {
        let extra: usize = match self.ability_mechanic() {
            Some(AbilityMechanic::ExtraToolSlots { amount }) => *amount as usize,
            _ => 0,
        };
        1 + extra
    }


    /// Whether it evolved from a Pokémon named `base_name`.
    pub fn evolved_from(&self, base_name: &str) -> (r: bool)
        ensures
            r == match self@.card {
                CardView::Pokemon(p) => p.evolves_from == Some(base_name@),
                CardView::Trainer(_) => false,
            },
    {
        match &self.card {
            Card::Pokemon(p) => match &p.evolves_from {
                Some(e) => *e == String::from_str(base_name),
                None => false,
            },
            Card::Trainer(_) => false,
        }
    }

    /// Keeps the Jungle Totem flag in sync with the owner's board.
    pub fn refresh_double_grass_active(&mut self, jungle_totem_active_for_owner: bool)
        ensures
            final(self)@ == (PlayedCardView {
                double_grass_active: jungle_totem_active_for_owner && old(self)@.is_type(
                    EnergyType::Grass,
                ),
                ..old(self)@
            }),
    {
        let grass = self.is_type(EnergyType::Grass);
        self.double_grass_active = jungle_totem_active_for_owner && grass;
    }

    /// Keeps the Power of Alchemy flag in sync: only a Basic in play loses its Abilities.
    pub fn refresh_basic_abilities_suppressed(&mut self, power_of_alchemy_active: bool)
        ensures
            final(self)@ == (PlayedCardView {
                basic_abilities_suppressed: power_of_alchemy_active && (old(self)@.card.is_basic()
                    || old(self)@.is_fossil()),
                ..old(self)@
            }),
    {
        let basic = self.is_basic_in_play();
        self.basic_abilities_suppressed = power_of_alchemy_active && basic;
    }

    /// Keeps the Ability-granted HP bonus and Heal Block flag in sync with the board.
    pub fn refresh_ability_board_bonuses(
        &mut self,
        typed_hp_bonuses: &[(EnergyType, u32)],
        heal_blocked: bool,
    )
        requires
            typed_bonus_sum(old(self)@, typed_hp_bonuses@) <= u32::MAX,
        ensures
            final(self)@ == (PlayedCardView {
                ability_hp_bonus: typed_bonus_sum(old(self)@, typed_hp_bonuses@) as u32,
                heal_blocked,
                ..old(self)@
            }),
    {
        let mut total: u32 = 0;
        let mut i: usize = 0;
        while i < typed_hp_bonuses.len()
            invariant
                i <= typed_hp_bonuses@.len(),
                typed_bonus_sum(self@, typed_hp_bonuses@) <= u32::MAX,
                total == typed_bonus_sum(self@, typed_hp_bonuses@.take(i as int)),
            decreases typed_hp_bonuses.len() - i,
        {
            let (energy_type, amount) = typed_hp_bonuses[i];
            proof {
                lemma_typed_bonus_sum_prefix(self@, typed_hp_bonuses@, i as int);
                lemma_typed_bonus_sum_le(self@, typed_hp_bonuses@, i as int + 1);
                assert(typed_hp_bonuses@.take(i + 1).drop_last() =~= typed_hp_bonuses@.take(
                    i as int,
                ));
            }
            if self.is_type(energy_type) {
                total += amount;
            }
            i += 1;
        }
        assert(typed_hp_bonuses@.take(i as int) =~= typed_hp_bonuses@);
        self.ability_hp_bonus = total;
        self.heal_blocked = heal_blocked;
    }

    /// Starting Plains: +20 HP for each Basic Pokémon (not a Fossil) while it is in play.
    pub fn refresh_starting_plains_bonus(&mut self, starting_plains_active: bool)
        ensures
            final(self)@ == (PlayedCardView {
                stadium_hp_bonus: if starting_plains_active && old(self)@.card.stage() == Some(
                    0u8,
                ) {
                    20
                } else {
                    0
                },
                ..old(self)@
            }),
    {
        let is_basic_pokemon = match &self.card {
            Card::Pokemon(p) => p.stage == 0,
            Card::Trainer(_) => false,
        };
        self.stadium_hp_bonus = if starting_plains_active && is_basic_pokemon {
            20
        } else {
            0
        };
    }


    /// Whether one of the attached Tools is the same Tool as `tool` (same effect text).
    pub fn holds_same_tool_as(&self, tool: &Card) -> (r: bool)
        ensures
            r == self@.holds_same_tool_as(tool@),
    {
        let candidate = match tool {
            Card::Trainer(t) => t,
            Card::Pokemon(_) => {
                return false;
            },
        };
        let mut i: usize = 0;
        while i < self.attached_tools.len()
            invariant
                i <= self.attached_tools.len(),
                tool@ == CardView::Trainer(candidate@),
                forall|j: int|
                    0 <= j < i ==> !same_tool_effect(
                        #[trigger] cards_view(self.attached_tools@)[j],
                        candidate@.effect,
                    ),
            decreases self.attached_tools.len() - i,
        {
            if let Card::Trainer(existing) = &self.attached_tools[i] {
                if existing.effect == candidate.effect {
                    assert(same_tool_effect(
                        cards_view(self.attached_tools@)[i as int],
                        candidate@.effect,
                    ));
                    assert(same_tool_effect(self@.attached_tools[i as int], candidate@.effect));
                    return true;
                }
            }
            i += 1;
        }
        false
    }

    /// Whether `tool` may be attached now: below capacity, and not the same Tool twice.
    pub fn can_attach_tool(&self, tool: &Card) -> (r: bool)
        ensures
            r == (self@.attached_tools.len() < self@.tool_capacity() && !self@.holds_same_tool_as(
                tool@,
            )),
    {
        if self.attached_tools.len() >= self.tool_capacity() {
            return false;
        }
        !self.holds_same_tool_as(tool)
    }

    /// Attaches a Tool; callers check `can_attach_tool` first.
    pub fn attach_tool(&mut self, tool: Card)
        ensures
            final(self)@ == (PlayedCardView {
                attached_tools: old(self)@.attached_tools.push(tool@),
                ..old(self)@
            }),
    {
        let ghost before = self.attached_tools@;
        self.attached_tools.push(tool);
        assert(cards_view(self.attached_tools@) =~= cards_view(before).push(tool@));
    }

    /// Removes and returns every attached Tool.
    pub fn take_tools(&mut self) -> (r: Vec<Card>)
        ensures
            cards_view(r@) == old(self)@.attached_tools,
            final(self)@ == (PlayedCardView { attached_tools: Seq::empty(), ..old(self)@ }),
    {
        let mut taken: Vec<Card> = Vec::new();
        std::mem::swap(&mut taken, &mut self.attached_tools);
        assert(cards_view(self.attached_tools@) =~= Seq::<CardView>::empty());
        taken
    }

    /// Adds an effect lasting `duration` more turn ends (0: this turn only; 1: through the
    /// opponent's next turn; 2: through your next turn).
    pub fn add_effect(&mut self, effect: CardEffect, duration: u8)
        ensures
            final(self)@ == (PlayedCardView {
                effects: old(self)@.effects.push((effect@, duration)),
                ..old(self)@
            }),
    {
        let ghost before = self.effects@;
        let ghost ev = effect@;
        self.effects.push((effect, duration));
        assert(effects_view(self.effects@) =~= effects_view(before).push((ev, duration)));
    }

    /// Whether it carries `effect`, whatever its remaining duration.
    pub fn has_effect(&self, effect: &CardEffect) -> (r: bool)
        ensures
            r == exists|i: int|
                0 <= i < self@.effects.len() && (#[trigger] self@.effects[i]).0 == effect@,
    {
        let mut i: usize = 0;
        while i < self.effects.len()
            invariant
                i <= self.effects.len(),
                forall|j: int|
                    0 <= j < i ==> (#[trigger] effects_view(self.effects@)[j]).0 != effect@,
            decreases self.effects.len() - i,
        {
            if same_card_effect(&self.effects[i].0, effect) {
                assert(effects_view(self.effects@)[i as int].0 == effect@);
                assert(self@.effects[i as int].0 == effect@);
                return true;
            }
            i += 1;
        }
        false
    }

    /// The stored effects, without their durations.
    pub fn get_active_effects(&self) -> (r: Vec<CardEffect>)
        ensures
            r@.map_values(|e: CardEffect| e@) == self@.effects.map_values(
                |e: (CardEffectView, u8)| e.0,
            ),
    {
        let mut r: Vec<CardEffect> = Vec::new();
        let mut i: usize = 0;
        while i < self.effects.len()
            invariant
                i <= self.effects.len(),
                r@.len() == i,
                forall|j: int| 0 <= j < i ==> (#[trigger] r@[j])@ == self.effects@[j].0@,
            decreases self.effects.len() - i,
        {
            r.push(self.effects[i].0.clone());
            i += 1;
        }
        assert(r@.map_values(|e: CardEffect| e@) =~= self@.effects.map_values(
            |e: (CardEffectView, u8)| e.0,
        ));
        r
    }

    /// The stored effects plus the one its passive Ability derives, if any.
    pub fn get_effective_card_effects(&self) -> (r: Vec<CardEffect>)
        ensures
            r@.map_values(|e: CardEffect| e@) == self@.effective_card_effects(),
    {
        let mut effects = self.get_active_effects();
        let ghost stored = effects@.map_values(|e: CardEffect| e@);
        match self.ability_mechanic() {
            Some(m) => match crate::abilities::card_effect_from_ability_mechanic(m) {
                Some(derived) => {
                    let ghost dv = derived@;
                    effects.push(derived);
                    assert(effects@.map_values(|e: CardEffect| e@) =~= stored.push(dv));
                },
                None => {},
            },
            None => {},
        }
        effects
    }

    /// Whether it projects Power of Alchemy onto every Basic in play: it has that Ability on
    /// its card and no effect has stripped it.
    pub fn suppresses_basic_abilities(&self) -> (r: bool)
        ensures
            r == (!self@.abilities_disabled_by_effect() && self@.card.ability() == Some(
                AbilityMechanicView::BasicPokemonHaveNoAbilities,
            )),
    {
        if self.abilities_disabled_by_effect() {
            return false;
        }
        match &self.card {
            Card::Pokemon(p) => matches!(p.ability, Some(AbilityMechanic::BasicPokemonHaveNoAbilities)),
            Card::Trainer(_) => false,
        }
    }

    /// The stored effects with their remaining durations.
    pub fn get_effects(&self) -> (r: &Vec<(CardEffect, u8)>)
        ensures
            effects_view(r@) == self@.effects,
    {
        &self.effects
    }

    /// Clears every Special Condition and every stored effect.
    pub fn clear_status_and_effects(&mut self)
        ensures
            final(self)@ == (PlayedCardView { effects: Seq::empty(), ..old(self)@.cured() }),
    {
        self.cure_status_conditions();
        self.effects.clear();
        assert(effects_view(self.effects@) =~= Seq::<(CardEffectView, u8)>::empty());
    }

    /// Clears every Special Condition.
    pub fn cure_status_conditions(&mut self)
        ensures
            final(self)@ == old(self)@.cured(),
    {
        self.poisoned = false;
        self.poison_damage_override = None;
        self.paralyzed = false;
        self.paralyzed_on_turn = None;
        self.asleep = false;
        self.burned = false;
        self.confused = false;
    }

    /// Clears one Special Condition (and the Poison override or Paralysis turn with it).
    pub fn clear_status_condition(&mut self, status: StatusCondition)
        ensures
            final(self)@ == old(self)@.without_status(status),
    {
        let target = StatusFlags::of(self).without(status);
        target.store(self);
    }

    /// Sets a Special Condition without checking immunity; a plain Poison drops an override.
    pub fn set_status_raw(&mut self, status: StatusCondition)
        ensures
            final(self)@ == old(self)@.with_status(status),
    {
        let target = StatusFlags::of(self).with(status);
        target.store(self);
    }

    /// End of turn: effects tick down (those at 0 go), the per-turn flags reset, and the
    /// "damaged while Active" flag rolls over to last turn.
    pub fn end_turn_maintenance(&mut self)
        ensures
            final(self)@ == old(self)@.after_end_of_turn(),
    {
        let mut kept: Vec<(CardEffect, u8)> = Vec::new();
        let mut i: usize = 0;
        while i < self.effects.len()
            invariant
                i <= self.effects.len(),
                effects_view(kept@) == effects_after_turn(
                    effects_view(self.effects@).take(i as int),
                ),
            decreases self.effects.len() - i,
        {
            let ghost prefix = effects_view(self.effects@).take(i as int);
            let ghost next = effects_view(self.effects@).take(i + 1);
            assert(next.drop_last() =~= prefix);
            let duration = self.effects[i].1;
            if duration > 0 {
                let e = self.effects[i].0.clone();
                let ghost before = kept@;
                let ghost ev = e@;
                kept.push((e, duration - 1));
                assert(effects_view(kept@) =~= effects_view(before).push((ev, (duration - 1) as u8)));
            }
            i += 1;
        }
        assert(effects_view(self.effects@).take(self.effects.len() as int) =~= effects_view(
            self.effects@,
        ));
        self.effects = kept;
        self.knockout_points_denied = false;
        self.damaged_by_attack_while_active_last_turn = self.damaged_by_attack_while_active_this_turn;
        self.damaged_by_attack_while_active_this_turn = false;
        self.played_this_turn = false;
        self.moved_to_active_this_turn = false;
        self.ability_used = false;
    }

    /// Whether Jungle Totem's doubling is currently recorded on this Pokémon.
    pub fn has_double_grass_active(&self) -> (r: bool)
        ensures
            r == self@.double_grass_active,
    {
        self.double_grass_active
    }
}


/// Pushing the missing elements of `rest` onto `acc` keeps `acc` in front, contains exactly what
/// either holds, and adds no duplicate.
pub proof fn lemma_push_missing(acc: Seq<EnergyType>, rest: Seq<EnergyType>)
    ensures
        forall|e: EnergyType| #[trigger] push_missing(acc, rest).contains(e) <==> (acc.contains(e)
            || rest.contains(e)),
        push_missing(acc, rest).len() >= acc.len(),
        push_missing(acc, rest).take(acc.len() as int) == acc,
        acc.no_duplicates() ==> push_missing(acc, rest).no_duplicates(),
    decreases rest.len(),
{
    if rest.len() > 0 {
        let x = rest[0];
        let next = if acc.contains(x) {
            acc
        } else {
            acc.push(x)
        };
        lemma_push_missing(next, rest.drop_first());
        let r = push_missing(acc, rest);
        assert(r == push_missing(next, rest.drop_first()));
        assert forall|e: EnergyType| #[trigger] r.contains(e) <==> (acc.contains(e) || rest.contains(
            e,
        )) by {
            if next.contains(e) && !acc.contains(e) {
                assert(next == acc.push(x));
                assert(e == x) by {
                    let i = choose|i: int| 0 <= i < next.len() && next[i] == e;
                    if i < acc.len() {
                        assert(acc[i] == e);
                    }
                }
                assert(rest[0] == e);
            }
            if acc.contains(e) {
                let i = choose|i: int| 0 <= i < acc.len() && acc[i] == e;
                assert(next[i] == e);
            }
            if rest.contains(e) {
                let i = choose|i: int| 0 <= i < rest.len() && rest[i] == e;
                if i == 0 {
                    if !acc.contains(e) {
                        assert(next[acc.len() as int] == e);
                    }
                } else {
                    assert(rest.drop_first()[i - 1] == e);
                }
            }
            if rest.drop_first().contains(e) {
                let i = choose|i: int| 0 <= i < rest.drop_first().len() && rest.drop_first()[i] == e;
                assert(rest[i + 1] == e);
            }
        }
        assert(next.take(acc.len() as int) =~= acc);
        assert(r.take(acc.len() as int) =~= next.take(acc.len() as int)) by {
            assert(r.take(next.len() as int) == next);
            assert forall|i: int| 0 <= i < acc.len() implies r[i] == next[i] by {
                assert(r.take(next.len() as int)[i] == r[i]);
            }
        }
        if acc.no_duplicates() && !acc.contains(x) {
            assert(next.no_duplicates()) by {
                assert forall|i: int, j: int| 0 <= i < next.len() && 0 <= j < next.len() && i != j
                    implies next[i] != next[j] by {
                    if i < acc.len() && j < acc.len() {
                        assert(next[i] == acc[i] && next[j] == acc[j]);
                    } else if i < acc.len() {
                        assert(next[i] == acc[i]);
                    } else {
                        assert(next[j] == acc[j]);
                    }
                }
            }
        }
    }
}

/// A Pokémon in play is of a type exactly when that type is among its in-play types, and those
/// types list its printed type first and name no type twice.
pub proof fn law_is_type_is_membership(card: PlayedCardView, e: EnergyType)
    ensures
        card.is_type(e) <==> card.energy_types().contains(e),
        card.energy_types().take(card.card.types().len() as int) == card.card.types(),
        card.energy_types().no_duplicates(),
{
    lemma_push_missing(card.card.types(), Seq::empty());
    match card.ability_mechanic() {
        Some(AbilityMechanicView::GrantedTypes { energy_types }) => {
            lemma_push_missing(card.card.types(), energy_types);
        },
        _ => {
            assert(card.card.types().take(card.card.types().len() as int) =~= card.card.types());
        },
    }
    assert(card.card.types().no_duplicates());
}

} // verus!
