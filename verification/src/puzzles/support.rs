use vstd::prelude::*;

use crate::actions::{SimpleAction, SimpleActionView};
use crate::database::{get_card_by_enum, spec_card_by_enum, CardId};
use crate::models::{cards_view, CardView, Deck, EnergyType};
use crate::played_card::{min_int, PlayedCard, PlayedCardView};
use crate::state::{EnergyZone, State};
use crate::text::{decimal_text, usize_text};

verus! {

/// What an accepted action has to look like.
#[derive(Debug)]
pub enum AcceptableKind {
    /// Attack with the attack of this name (whichever Pokémon is Active).
    Attack(String),
    /// Play the Trainer card of this name from hand.
    Play(String),
    /// Retreat the Active, swapping in the Bench Pokémon at this slot.
    RetreatTo(usize),
    /// Attach this turn's Energy to the Pokémon at this slot, and nowhere else.
    AttachTo(usize),
    /// Evolve the Pokémon at this slot into the card of this id.
    EvolveAt(usize, String),
    /// Put the Basic of this id from hand onto any Bench slot.
    PlaceOnBench(String),
    /// Promote the Pokémon at this slot into the Active Spot.
    Activate(usize),
    /// Anything except evolving into the card of this id.
    AnythingButEvolvingInto(String),
}

pub enum AcceptableKindView {
    Attack(Seq<char>),
    Play(Seq<char>),
    RetreatTo(usize),
    AttachTo(usize),
    EvolveAt(usize, Seq<char>),
    PlaceOnBench(Seq<char>),
    Activate(usize),
    AnythingButEvolvingInto(Seq<char>),
}

impl View for AcceptableKind {
    type V = AcceptableKindView;

    open spec fn view(&self) -> AcceptableKindView {
        match self {
            AcceptableKind::Attack(t) => AcceptableKindView::Attack(t@),
            AcceptableKind::Play(n) => AcceptableKindView::Play(n@),
            AcceptableKind::RetreatTo(i) => AcceptableKindView::RetreatTo(*i),
            AcceptableKind::AttachTo(i) => AcceptableKindView::AttachTo(*i),
            AcceptableKind::EvolveAt(i, id) => AcceptableKindView::EvolveAt(*i, id@),
            AcceptableKind::PlaceOnBench(id) => AcceptableKindView::PlaceOnBench(id@),
            AcceptableKind::Activate(i) => AcceptableKindView::Activate(*i),
            AcceptableKind::AnythingButEvolvingInto(id) => AcceptableKindView::AnythingButEvolvingInto(
                id@,
            ),
        }
    }
}

/// Whether an action of view `a` is of the accepted kind `k`.
pub open spec fn kind_accepts(k: AcceptableKindView, a: SimpleActionView) -> bool {
    match k {
        AcceptableKindView::Attack(title) => a matches SimpleActionView::Attack(att)
            && att.title == title,
        AcceptableKindView::Play(name) => a matches SimpleActionView::Play { trainer_card }
            && trainer_card.name == name,
        AcceptableKindView::RetreatTo(idx) => a matches SimpleActionView::Retreat(i) && i == idx,
        AcceptableKindView::AttachTo(idx) => a matches SimpleActionView::Attach {
            attachments,
            ..
        } && attachments.len() == 1 && attachments[0].2 == idx,
        AcceptableKindView::EvolveAt(idx, id) => a matches SimpleActionView::Evolve {
            evolution,
            in_play_idx,
            ..
        } && in_play_idx == idx && evolution.id() == id,
        AcceptableKindView::PlaceOnBench(id) => a matches SimpleActionView::Place(c, idx) && idx
            != 0 && c.id() == id,
        AcceptableKindView::Activate(idx) => a matches SimpleActionView::Activate {
            in_play_idx,
            ..
        } && in_play_idx == idx,
        AcceptableKindView::AnythingButEvolvingInto(id) => !(a matches SimpleActionView::Evolve {
            evolution,
            ..
        } && evolution.id() == id),
    }
}

/// One action a puzzle will accept, with the text used when reporting a failure.
#[derive(Debug)]
pub struct Acceptable {
    pub describe: String,
    pub kind: AcceptableKind,
}

impl Acceptable {
    pub fn describe(&self) -> (r: &str)
        ensures
            r@ == self.describe@,
    {
        self.describe.as_str()
    }

    /// Whether `action` is one this entry accepts.
    pub fn matches(&self, action: &SimpleAction) -> (r: bool)
        ensures
            r == kind_accepts(self.kind@, action@),
    {
        match &self.kind {
            AcceptableKind::Attack(title) => match action {
                SimpleAction::Attack(a) => a.title == *title,
                _ => false,
            },
            AcceptableKind::Play(name) => match action {
                SimpleAction::Play { trainer_card } => trainer_card.name == *name,
                _ => false,
            },
            AcceptableKind::RetreatTo(idx) => match action {
                SimpleAction::Retreat(i) => *i == *idx,
                _ => false,
            },
            AcceptableKind::AttachTo(idx) => match action {
                SimpleAction::Attach { attachments, .. } => attachments.len() == 1
                    && attachments[0].2 == *idx,
                _ => false,
            },
            AcceptableKind::EvolveAt(idx, id) => match action {
                SimpleAction::Evolve { evolution, in_play_idx, .. } => *in_play_idx == *idx
                    && evolution.get_id() == *id,
                _ => false,
            },
            AcceptableKind::PlaceOnBench(id) => match action {
                SimpleAction::Place(c, idx) => *idx != 0 && c.get_id() == *id,
                _ => false,
            },
            AcceptableKind::Activate(idx) => match action {
                SimpleAction::Activate { in_play_idx, .. } => *in_play_idx == *idx,
                _ => false,
            },
            AcceptableKind::AnythingButEvolvingInto(id) => match action {
                SimpleAction::Evolve { evolution, .. } => !(evolution.get_id() == *id),
                _ => true,
            },
        }
    }
}

/// `head`, then `text`, then `tail`.
fn wrap(head: &str, text: &str, tail: &str) -> (r: String)
    ensures
        r@ == head@ + text@ + tail@,
{
    let mut s = String::from_str(head);
    s.append(text);
    s.append(tail);
    s
}

/// Attack with the attack of this name.
pub fn attack(title: &str) -> (r: Acceptable)
    ensures
        r.describe@ == "Attack("@ + title@ + ")"@,
        r.kind@ == AcceptableKindView::Attack(title@),
{
    Acceptable {
        describe: wrap("Attack(", title, ")"),
        kind: AcceptableKind::Attack(String::from_str(title)),
    }
}

/// Play the Trainer card of this name from hand.
pub fn play(card_name: &str) -> (r: Acceptable)
    ensures
        r.describe@ == "Play("@ + card_name@ + ")"@,
        r.kind@ == AcceptableKindView::Play(card_name@),
{
    Acceptable {
        describe: wrap("Play(", card_name, ")"),
        kind: AcceptableKind::Play(String::from_str(card_name)),
    }
}

/// Retreat the Active Pokémon, swapping in the Bench Pokémon at `idx`.
pub fn retreat_to(idx: usize) -> (r: Acceptable)
    ensures
        r.describe@ == "Retreat("@ + decimal_text(idx as nat) + ")"@,
        r.kind@ == AcceptableKindView::RetreatTo(idx),
{
    let n = usize_text(idx);
    Acceptable { describe: wrap("Retreat(", n.as_str(), ")"), kind: AcceptableKind::RetreatTo(idx) }
}

/// Attach this turn's Energy Zone Energy to the Pokémon at `idx` (0 is the Active Spot).
pub fn attach_to(idx: usize) -> (r: Acceptable)
    ensures
        r.describe@ == "Attach(->"@ + decimal_text(idx as nat) + ")"@,
        r.kind@ == AcceptableKindView::AttachTo(idx),
{
    let n = usize_text(idx);
    Acceptable { describe: wrap("Attach(->", n.as_str(), ")"), kind: AcceptableKind::AttachTo(idx) }
}

/// Evolve the Pokémon at `idx` into this card from hand.
pub fn evolve_at(idx: usize, into: CardId) -> (r: Acceptable)
    ensures
        r.describe@ == "Evolve("@ + spec_card_by_enum(into).name() + " at "@ + decimal_text(
            idx as nat,
        ) + ")"@,
        r.kind@ == AcceptableKindView::EvolveAt(idx, spec_card_by_enum(into).id()),
{
    let target = get_card_by_enum(into);
    let name = target.get_name();
    let id = target.get_id();
    let n = usize_text(idx);
    let mut describe = wrap("Evolve(", name.as_str(), " at ");
    describe.append(n.as_str());
    describe.append(")");
    Acceptable { describe, kind: AcceptableKind::EvolveAt(idx, id) }
}

/// Put this Basic from hand onto any Bench slot.
pub fn place_on_bench(card_id: CardId) -> (r: Acceptable)
    ensures
        r.describe@ == "Place("@ + spec_card_by_enum(card_id).name() + " on the Bench)"@,
        r.kind@ == AcceptableKindView::PlaceOnBench(spec_card_by_enum(card_id).id()),
{
    let card = get_card_by_enum(card_id);
    let name = card.get_name();
    let id = card.get_id();
    Acceptable {
        describe: wrap("Place(", name.as_str(), " on the Bench)"),
        kind: AcceptableKind::PlaceOnBench(id),
    }
}

/// Promote the Pokémon at `idx` into the Active Spot.
pub fn activate(idx: usize) -> (r: Acceptable)
    ensures
        r.describe@ == "Activate("@ + decimal_text(idx as nat) + ")"@,
        r.kind@ == AcceptableKindView::Activate(idx),
{
    let n = usize_text(idx);
    Acceptable { describe: wrap("Activate(", n.as_str(), ")"), kind: AcceptableKind::Activate(idx) }
}

/// Anything except evolving into this card.
pub fn anything_but_evolving_into(into: CardId) -> (r: Acceptable)
    ensures
        r.describe@ == "anything except Evolve("@ + spec_card_by_enum(into).name() + ")"@,
        r.kind@ == AcceptableKindView::AnythingButEvolvingInto(spec_card_by_enum(into).id()),
{
    let target = get_card_by_enum(into);
    let name = target.get_name();
    let id = target.get_id();
    Acceptable {
        describe: wrap("anything except Evolve(", name.as_str(), ")"),
        kind: AcceptableKind::AnythingButEvolvingInto(id),
    }
}

/// An Energy Zone with this turn's Energy still available.
pub fn zone(energy: EnergyType) -> (r: EnergyZone)
    ensures
        r == (EnergyZone { current: Some(energy), next: Some(energy) }),
{
    EnergyZone { current: Some(energy), next: Some(energy) }
}

/// An Energy Zone whose Energy for this turn is already spent.
pub fn spent_zone(energy: EnergyType) -> (r: EnergyZone)
    ensures
        r == (EnergyZone { current: None, next: Some(energy) }),
{
    EnergyZone { current: None, next: Some(energy) }
}


/// The HP printed on a catalogued Pokémon (40 for a Fossil).
pub open spec fn printed_hp(id: CardId) -> u32 {
    match spec_card_by_enum(id) {
        CardView::Pokemon(p) => p.hp,
        CardView::Trainer(_) => 40,
    }
}

/// The catalogued Pokémon `id` fresh in play, holding `energy`.
pub open spec fn in_play(id: CardId, energy: Seq<EnergyType>) -> PlayedCardView {
    PlayedCardView {
        attached_energy: energy,
        ..PlayedCardView::fresh(
            spec_card_by_enum(id),
            0,
            printed_hp(id),
            Seq::empty(),
            false,
            Seq::empty(),
        )
    }
}

/// The same, damaged down to `remaining` HP (no change when `remaining` is its full HP or more).
pub open spec fn in_play_at(id: CardId, energy: Seq<EnergyType>, remaining: u32) -> PlayedCardView {
    PlayedCardView {
        damage_counters: (printed_hp(id) - min_int(remaining as int, printed_hp(id) as int)) as u32,
        ..in_play(id, energy)
    }
}

/// The catalogued Pokémon that has no Ability.
pub open spec fn plain_pokemon(id: CardId) -> bool {
    spec_card_by_enum(id) is Pokemon && spec_card_by_enum(id).ability() is None
}

/// Up to four Pokémon in slot order, then empty slots.
pub open spec fn row(cards: Seq<PlayedCardView>) -> Seq<Option<PlayedCardView>> {
    Seq::new(4, |i: int| if i < cards.len() { Some(cards[i]) } else { None })
}

/// Energy the Energy Zone can generate.
pub open spec fn selectable(e: EnergyType) -> bool {
    e != EnergyType::Colorless && e != EnergyType::Dragon
}

/// The whole puzzle position: player 0 to move on turn 5 with nothing played yet, the two
/// 20-card decks built from `deck_a` and `deck_b` declaring one Energy type each, the given
/// board, hands, points and player 0's Energy Zone, and nothing anywhere else.
pub open spec fn puzzle_position(
    g: State,
    deck_a: Seq<CardId>,
    energy_a: EnergyType,
    deck_b: Seq<CardId>,
    energy_b: EnergyType,
    board_a: Seq<Option<PlayedCardView>>,
    board_b: Seq<Option<PlayedCardView>>,
    hand_a: Seq<CardView>,
    hand_b: Seq<CardView>,
    points: Seq<u8>,
    zone_a: EnergyZone,
) -> bool {
    &&& g.winner is None
    &&& g.turn_count == 5
    &&& g.current_player == 0
    &&& g.points@ == points
    &&& g.deck(0) == crate::puzzles::spec_puzzle_deck_cards(deck_a)
    &&& g.decks@[0].energy_types@ == seq![energy_a]
    &&& g.deck(1) == crate::puzzles::spec_puzzle_deck_cards(deck_b)
    &&& g.decks@[1].energy_types@ == seq![energy_b]
    &&& forall|i: int| 0 <= i < 4 ==> #[trigger] g.slot(0, i) == board_a[i]
    &&& forall|i: int| 0 <= i < 4 ==> #[trigger] g.slot(1, i) == board_b[i]
    &&& g.hand(0) == hand_a
    &&& g.hand(1) == hand_b
    &&& g.discard(0).len() == 0
    &&& g.discard(1).len() == 0
    &&& g.energy_zone@[0] == zone_a
    &&& g.active_stadium is None
    &&& g.has_used_stadium@ == seq![false, false]
    &&& !g.has_retreated
    &&& g.turn_effects@.len() == 0
}

/// A puzzle deck of `ids` that declares one Energy type.
pub fn deck_of(ids: Vec<CardId>, energy: EnergyType) -> (r: Deck)
    requires
        ids@.len() > 0,
        selectable(energy),
    ensures
        cards_view(r.cards@) == crate::puzzles::spec_puzzle_deck_cards(ids@),
        r.energy_types@ == seq![energy],
{
    let e = vec![energy];
    assert(e@ == seq![energy]);
    crate::puzzles::puzzle_deck(&ids, &e)
}

/// A clean mid-game position: player 0 to move, turn 5 (so the first-two-turn restrictions on
/// evolving and on Rare Candy have lapsed), nothing played yet this turn.
pub fn position(deck_a: Deck, deck_b: Deck) -> (r: State)
    ensures
        r.winner is None,
        r.turn_count == 5,
        r.current_player == 0,
        r.points@ == seq![0u8, 0u8],
        r.decks@[0] == deck_a,
        r.decks@[1] == deck_b,
        forall|p: int, i: int| 0 <= p < 2 && 0 <= i < 4 ==> r.slot(p, i) is None,
        r.hand(0).len() == 0,
        r.hand(1).len() == 0,
        r.discard(0).len() == 0,
        r.discard(1).len() == 0,
        r.active_stadium is None,
        r.has_used_stadium@ == seq![false, false],
        !r.has_retreated,
        r.turn_effects@.len() == 0,
        r.move_generation_stack@.len() == 0,
{
    let r = State {
        winner: None,
        points: [0, 0],
        turn_count: 5,
        current_player: 0,
        decks: [deck_a, deck_b],
        hands: [Vec::new(), Vec::new()],
        discard_piles: [Vec::new(), Vec::new()],
        energy_zone: [
            EnergyZone { current: None, next: None },
            EnergyZone { current: None, next: None },
        ],
        in_play_pokemon: [[None, None, None, None], [None, None, None, None]],
        active_stadium: None,
        has_used_stadium: [false, false],
        has_retreated: false,
        turn_effects: Vec::new(),
        move_generation_stack: Vec::new(),
    };
    assert(r.points@ =~= seq![0u8, 0u8]);
    assert(r.has_used_stadium@ =~= seq![false, false]);
    r
}

proof fn lemma_fresh_hp(id: CardId, energy: Seq<EnergyType>)
    requires
        plain_pokemon(id),
    ensures
        in_play(id, energy).effective_total_hp() == printed_hp(id),
        energy.len() <= u32::MAX / 2 ==> in_play(id, energy).hp_fits(),
{
    reveal(PlayedCardView::effective_total_hp);
    let c = in_play(id, energy);
    assert(!c.has_tool(CardId::A2147GiantCape));
    assert(!c.has_tool(CardId::A3147LeafCape));
    assert(!c.has_tool(CardId::B3b065ElegantCape));
    assert(!c.has_tool(CardId::B3a069AncientBoosterEnergyCapsule));
    assert(!c.abilities_disabled_by_effect());
}

/// The catalogued Pokémon `id` fresh in play, holding `energy`.
pub fn placed(id: CardId, energy: Vec<EnergyType>) -> (r: PlayedCard)
    requires
        plain_pokemon(id),
    ensures
        r@ == in_play(id, energy@),
{
    PlayedCard::from_id(id).with_energy(energy)
}

/// The catalogued Pokémon `id` in play, holding `energy`, damaged down to `remaining` HP.
pub fn placed_at(id: CardId, energy: Vec<EnergyType>, remaining: u32) -> (r: PlayedCard)
    requires
        plain_pokemon(id),
        energy@.len() <= 8,
    ensures
        r@ == in_play_at(id, energy@, remaining),
{
    let c = placed(id, energy);
    proof {
        lemma_fresh_hp(id, c@.attached_energy);
    }
    c.with_remaining_hp(remaining)
}

} // verus!
