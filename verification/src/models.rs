use vstd::prelude::*;

use crate::abilities::{AbilityMechanic, AbilityMechanicView};

verus! {

/// The Energy types of the game, in declaration order. That order is what `Ord` compares, and
/// the value features compare attack costs element by element in it.
#[derive(Debug, Clone, Copy, PartialEq, Eq, Structural, Hash, PartialOrd, Ord)]
pub enum EnergyType {
    Grass,
    Fire,
    Water,
    Lightning,
    Psychic,
    Fighting,
    Darkness,
    Metal,
    Dragon,
    Colorless,
}

/// Position of an Energy type in the declaration order.
pub open spec fn energy_rank(e: EnergyType) -> nat {
    match e {
        EnergyType::Grass => 0,
        EnergyType::Fire => 1,
        EnergyType::Water => 2,
        EnergyType::Lightning => 3,
        EnergyType::Psychic => 4,
        EnergyType::Fighting => 5,
        EnergyType::Darkness => 6,
        EnergyType::Metal => 7,
        EnergyType::Dragon => 8,
        EnergyType::Colorless => 9,
    }
}

impl EnergyType {
    /// Position in the declaration order.
    pub fn rank(&self) -> (r: u8)
        ensures
            r as nat == energy_rank(*self),
    {
        match self {
            EnergyType::Grass => 0,
            EnergyType::Fire => 1,
            EnergyType::Water => 2,
            EnergyType::Lightning => 3,
            EnergyType::Psychic => 4,
            EnergyType::Fighting => 5,
            EnergyType::Darkness => 6,
            EnergyType::Metal => 7,
            EnergyType::Dragon => 8,
            EnergyType::Colorless => 9,
        }
    }

    /// Whether the Energy Zone can generate this type: every type but Colorless and Dragon.
    pub fn is_selectable(&self) -> (r: bool)
        ensures
            r == (*self != EnergyType::Colorless && *self != EnergyType::Dragon),
    {
        !matches!(self, EnergyType::Colorless | EnergyType::Dragon)
    }
}

/// The Special Conditions.
#[derive(Debug, Clone, Copy, PartialEq, Eq, Structural, Hash)]
pub enum StatusCondition {
    Asleep,
    Paralyzed,
    Poisoned,
    Burned,
    Confused,
}

/// The kinds of Trainer card.
#[derive(Debug, Clone, Copy, PartialEq, Eq, Structural, Hash)]
pub enum TrainerType {
    Supporter,
    Item,
    Tool,
    Fossil,
    Stadium,
}

/// One attack printed on a Pokémon card.
#[derive(Debug)]
pub struct Attack {
    pub title: String,
    pub fixed_damage: u32,
    pub effect: Option<String>,
    pub energy_required: Vec<EnergyType>,
}

/// The mathematical value of an attack.
pub struct AttackView {
    pub title: Seq<char>,
    pub fixed_damage: u32,
    pub effect: Option<Seq<char>>,
    pub energy_required: Seq<EnergyType>,
}

pub open spec fn opt_string_view(s: Option<String>) -> Option<Seq<char>> {
    match s {
        Some(t) => Some(t@),
        None => None,
    }
}

impl View for Attack {
    type V = AttackView;

    open spec fn view(&self) -> AttackView {
        AttackView {
            title: self.title@,
            fixed_damage: self.fixed_damage,
            effect: opt_string_view(self.effect),
            energy_required: self.energy_required@,
        }
    }
}

/// A copy of an optional string with the same text.
pub fn clone_opt_string(s: &Option<String>) -> (r: Option<String>)
    ensures
        opt_string_view(r) == opt_string_view(*s),
{
    match s {
        Some(t) => Some(t.clone()),
        None => None,
    }
}

/// A copy of a list of Energy types.
pub fn clone_energy(v: &Vec<EnergyType>) -> (r: Vec<EnergyType>)
    ensures
        r@ == v@,
{
    let mut r: Vec<EnergyType> = Vec::new();
    let mut i: usize = 0;
    while i < v.len()
        invariant
            i <= v.len(),
            r@ == v@.take(i as int),
        decreases v.len() - i,
    {
        r.push(v[i]);
        i += 1;
        assert(r@ =~= v@.take(i as int));
    }
    assert(v@.take(v.len() as int) =~= v@);
    r
}

impl Clone for Attack {
    fn clone(&self) -> (res: Self)
        ensures
            res@ == self@,
    {
        Attack {
            title: self.title.clone(),
            fixed_damage: self.fixed_damage,
            effect: clone_opt_string(&self.effect),
            energy_required: clone_energy(&self.energy_required),
        }
    }
}

pub open spec fn attacks_view(s: Seq<Attack>) -> Seq<AttackView> {
    s.map_values(|a: Attack| a@)
}

/// A copy of a list of attacks.
pub fn clone_attacks(v: &Vec<Attack>) -> (r: Vec<Attack>)
    ensures
        attacks_view(r@) == attacks_view(v@),
{
    let mut r: Vec<Attack> = Vec::new();
    let mut i: usize = 0;
    while i < v.len()
        invariant
            i <= v.len(),
            r@.len() == i,
            forall|j: int| 0 <= j < i ==> #[trigger] r@[j]@ == v@[j]@,
        decreases v.len() - i,
    {
        let a = v[i].clone();
        r.push(a);
        i += 1;
    }
    assert(attacks_view(r@) =~= attacks_view(v@));
    r
}

/// A Pokémon card as printed.
#[derive(Debug)]
pub struct PokemonCard {
    pub id: String,
    pub name: String,
    /// 0 for Basic, 1 for Stage 1, 2 for Stage 2.
    pub stage: u8,
    pub evolves_from: Option<String>,
    pub hp: u32,
    pub energy_type: EnergyType,
    /// The card's Ability, given by what it does.
    pub ability: Option<AbilityMechanic>,
    pub attacks: Vec<Attack>,
    pub weakness: Option<EnergyType>,
    pub retreat_cost: Vec<EnergyType>,
}

/// A Trainer card as printed. Two Trainer cards with the same `effect` text are reprints of
/// one card.
#[derive(Debug)]
pub struct TrainerCard {
    pub id: String,
    pub name: String,
    pub effect: String,
    pub trainer_card_type: TrainerType,
}

/// A card.
#[derive(Debug)]
pub enum Card {
    Pokemon(PokemonCard),
    Trainer(TrainerCard),
}

pub struct PokemonCardView {
    pub id: Seq<char>,
    pub name: Seq<char>,
    pub stage: u8,
    pub evolves_from: Option<Seq<char>>,
    pub hp: u32,
    pub energy_type: EnergyType,
    pub ability: Option<AbilityMechanicView>,
    pub attacks: Seq<AttackView>,
    pub weakness: Option<EnergyType>,
    pub retreat_cost: Seq<EnergyType>,
}

pub struct TrainerCardView {
    pub id: Seq<char>,
    pub name: Seq<char>,
    pub effect: Seq<char>,
    pub trainer_card_type: TrainerType,
}

/// The mathematical value of a card.
pub enum CardView {
    Pokemon(PokemonCardView),
    Trainer(TrainerCardView),
}

pub open spec fn opt_ability_view(a: Option<AbilityMechanic>) -> Option<AbilityMechanicView> {
    match a {
        Some(m) => Some(m@),
        None => None,
    }
}

impl View for PokemonCard {
    type V = PokemonCardView;

    open spec fn view(&self) -> PokemonCardView {
        PokemonCardView {
            id: self.id@,
            name: self.name@,
            stage: self.stage,
            evolves_from: opt_string_view(self.evolves_from),
            hp: self.hp,
            energy_type: self.energy_type,
            ability: opt_ability_view(self.ability),
            attacks: attacks_view(self.attacks@),
            weakness: self.weakness,
            retreat_cost: self.retreat_cost@,
        }
    }
}

impl View for TrainerCard {
    type V = TrainerCardView;

    open spec fn view(&self) -> TrainerCardView {
        TrainerCardView {
            id: self.id@,
            name: self.name@,
            effect: self.effect@,
            trainer_card_type: self.trainer_card_type,
        }
    }
}

impl View for Card {
    type V = CardView;

    open spec fn view(&self) -> CardView {
        match self {
            Card::Pokemon(p) => CardView::Pokemon(p@),
            Card::Trainer(t) => CardView::Trainer(t@),
        }
    }
}

impl Clone for PokemonCard {
    fn clone(&self) -> (res: Self)
        ensures
            res@ == self@,
    {
        PokemonCard {
            id: self.id.clone(),
            name: self.name.clone(),
            stage: self.stage,
            evolves_from: clone_opt_string(&self.evolves_from),
            hp: self.hp,
            energy_type: self.energy_type,
            ability: match &self.ability {
                Some(m) => Some(m.clone()),
                None => None,
            },
            attacks: clone_attacks(&self.attacks),
            weakness: self.weakness,
            retreat_cost: clone_energy(&self.retreat_cost),
        }
    }
}

impl Clone for TrainerCard {
    fn clone(&self) -> (res: Self)
        ensures
            res@ == self@,
    {
        TrainerCard {
            id: self.id.clone(),
            name: self.name.clone(),
            effect: self.effect.clone(),
            trainer_card_type: self.trainer_card_type,
        }
    }
}

impl Clone for Card {
    fn clone(&self) -> (res: Self)
        ensures
            res@ == self@,
    {
        match self {
            Card::Pokemon(p) => Card::Pokemon(p.clone()),
            Card::Trainer(t) => Card::Trainer(t.clone()),
        }
    }
}

pub open spec fn cards_view(s: Seq<Card>) -> Seq<CardView> {
    s.map_values(|c: Card| c@)
}

/// A copy of a list of cards.
pub fn clone_cards(v: &Vec<Card>) -> (r: Vec<Card>)
    ensures
        cards_view(r@) == cards_view(v@),
{
    let mut r: Vec<Card> = Vec::new();
    let mut i: usize = 0;
    while i < v.len()
        invariant
            i <= v.len(),
            r@.len() == i,
            forall|j: int| 0 <= j < i ==> #[trigger] r@[j]@ == v@[j]@,
        decreases v.len() - i,
    {
        let c = v[i].clone();
        r.push(c);
        i += 1;
    }
    assert(cards_view(r@) =~= cards_view(v@));
    r
}

/// Whether a card name is that of a Pokémon ex ("... ex").
pub open spec fn is_ex_name(n: Seq<char>) -> bool {
    n.len() >= 3 && n[n.len() - 3] == ' ' && n[n.len() - 2] == 'e' && n[n.len() - 1] == 'x'
}

/// Whether a card name is that of a Mega Evolution ("Mega ...").
pub open spec fn is_mega_name(n: Seq<char>) -> bool {
    n.len() >= 5 && n[0] == 'M' && n[1] == 'e' && n[2] == 'g' && n[3] == 'a' && n[4] == ' '
}

/// Points the opponent takes for Knocking Out a Pokémon of this name.
pub open spec fn knockout_points_of_name(n: Seq<char>) -> u8 {
    if is_ex_name(n) {
        if is_mega_name(n) {
            3
        } else {
            2
        }
    } else {
        1
    }
}

impl CardView {
    pub open spec fn id(self) -> Seq<char> {
        match self {
            CardView::Pokemon(p) => p.id,
            CardView::Trainer(t) => t.id,
        }
    }

    pub open spec fn name(self) -> Seq<char> {
        match self {
            CardView::Pokemon(p) => p.name,
            CardView::Trainer(t) => t.name,
        }
    }

    pub open spec fn attacks(self) -> Seq<AttackView> {
        match self {
            CardView::Pokemon(p) => p.attacks,
            CardView::Trainer(_) => Seq::empty(),
        }
    }

    /// The printed type(s): a Pokémon's Energy type, none for a Trainer.
    pub open spec fn types(self) -> Seq<EnergyType> {
        match self {
            CardView::Pokemon(p) => seq![p.energy_type],
            CardView::Trainer(_) => Seq::empty(),
        }
    }

    pub open spec fn energy_type(self) -> Option<EnergyType> {
        match self {
            CardView::Pokemon(p) => Some(p.energy_type),
            CardView::Trainer(_) => None,
        }
    }

    pub open spec fn is_basic(self) -> bool {
        match self {
            CardView::Pokemon(p) => p.stage == 0,
            CardView::Trainer(_) => false,
        }
    }

    pub open spec fn is_fossil(self) -> bool {
        match self {
            CardView::Trainer(t) => t.trainer_card_type == TrainerType::Fossil,
            CardView::Pokemon(_) => false,
        }
    }

    pub open spec fn stage(self) -> Option<u8> {
        match self {
            CardView::Pokemon(p) => Some(p.stage),
            CardView::Trainer(_) => None,
        }
    }

    pub open spec fn ability(self) -> Option<AbilityMechanicView> {
        match self {
            CardView::Pokemon(p) => p.ability,
            CardView::Trainer(_) => None,
        }
    }

    pub open spec fn knockout_points(self) -> u8 {
        match self {
            CardView::Pokemon(p) => knockout_points_of_name(p.name),
            CardView::Trainer(_) => 1,
        }
    }
}

impl Card {
    /// The card's set-and-number id, e.g. "A1 001".
    pub fn get_id(&self) -> (r: String)
        ensures
            r@ == self@.id(),
    {
        match self {
            Card::Pokemon(p) => p.id.clone(),
            Card::Trainer(t) => t.id.clone(),
        }
    }

    pub fn get_name(&self) -> (r: String)
        ensures
            r@ == self@.name(),
    {
        match self {
            Card::Pokemon(p) => p.name.clone(),
            Card::Trainer(t) => t.name.clone(),
        }
    }

    /// The printed attacks; a Trainer has none.
    pub fn get_attacks(&self) -> (r: Vec<Attack>)
        ensures
            attacks_view(r@) == self@.attacks(),
    {
        match self {
            Card::Pokemon(p) => clone_attacks(&p.attacks),
            Card::Trainer(_) => Vec::new(),
        }
    }

    /// The printed types.
    pub fn get_types(&self) -> (r: Vec<EnergyType>)
        ensures
            r@ == self@.types(),
    {
        match self {
            Card::Pokemon(p) => {
                let mut v = Vec::new();
                v.push(p.energy_type);
                v
            },
            Card::Trainer(_) => Vec::new(),
        }
    }

    /// Whether one of the printed types is `energy_type`.
    pub fn is_type(&self, energy_type: EnergyType) -> (r: bool)
        ensures
            r == self@.types().contains(energy_type),
    {
        match self {
            Card::Pokemon(p) => {
                assert(seq![p.energy_type][0] == p.energy_type);
                p.energy_type == energy_type
            },
            Card::Trainer(_) => false,
        }
    }

    pub fn get_energy_type(&self) -> (r: Option<EnergyType>)
        ensures
            r == self@.energy_type(),
    {
        match self {
            Card::Pokemon(p) => Some(p.energy_type),
            Card::Trainer(_) => None,
        }
    }

    pub fn is_basic(&self) -> (r: bool)
        ensures
            r == self@.is_basic(),
    {
        match self {
            Card::Pokemon(p) => p.stage == 0,
            Card::Trainer(_) => false,
        }
    }

    /// The printed Retreat Cost, `None` for a Trainer.
    pub fn get_retreat_cost(&self) -> (r: Option<&Vec<EnergyType>>)
        ensures
            match self@ {
                CardView::Pokemon(p) => r is Some && r->0@ == p.retreat_cost,
                CardView::Trainer(_) => r is None,
            },
    {
        match self {
            Card::Pokemon(p) => Some(&p.retreat_cost),
            Card::Trainer(_) => None,
        }
    }

    /// Points the opponent takes for Knocking it Out: 3 for a Mega ex, 2 for another ex, else 1.
    pub fn get_knockout_points(&self) -> (r: u8)
        ensures
            r == self@.knockout_points(),
    {
        match self {
            Card::Pokemon(p) => {
                let n = p.name.as_str().unicode_len();
                let s = p.name.as_str();
                let ex = n >= 3 && s.get_char(n - 3) == ' ' && s.get_char(n - 2) == 'e'
                    && s.get_char(n - 1) == 'x';
                if ex {
                    let mega = n >= 5 && s.get_char(0) == 'M' && s.get_char(1) == 'e'
                        && s.get_char(2) == 'g' && s.get_char(3) == 'a' && s.get_char(4) == ' ';
                    if mega {
                        3
                    } else {
                        2
                    }
                } else {
                    1
                }
            },
            Card::Trainer(_) => 1,
        }
    }
}

/// A deck: its cards and the Energy types its Energy Zone generates.
#[derive(Debug)]
pub struct Deck {
    pub cards: Vec<Card>,
    pub energy_types: Vec<EnergyType>,
}

impl Clone for Deck {
    fn clone(&self) -> (res: Self)
        ensures
            cards_view(res.cards@) == cards_view(self.cards@),
            res.energy_types@ == self.energy_types@,
    {
        Deck { cards: clone_cards(&self.cards), energy_types: clone_energy(&self.energy_types) }
    }
}

} // verus!
