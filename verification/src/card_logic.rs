use vstd::prelude::*;

use crate::models::{cards_view, Card, CardView, EnergyType};
use crate::played_card::PlayedCardView;
use crate::state::State;

verus! {

/// Names of Pokémon Lt. Surge can rally Lightning Energy onto, when one of them is Active.
pub const LT_SURGE_TARGETS: [&'static str; 3] = ["Raichu", "Electrode", "Electabuzz"];

/// The slot indices 0, 1, ..., n - 1.
pub open spec fn slot_range(n: nat) -> Seq<usize> {
    Seq::new(n, |j: int| j as usize)
}

/// Extending the range by one slot filters as pushing that slot does.
pub proof fn lemma_slot_range_filter_step(i: nat, pred: spec_fn(usize) -> bool)
    requires
        i < usize::MAX,
    ensures
        slot_range(i + 1).filter(pred) == (if pred(i as usize) {
            slot_range(i).filter(pred).push(i as usize)
        } else {
            slot_range(i).filter(pred)
        }),
{
    assert(slot_range(i + 1) =~= slot_range(i).push(i as usize));
    slot_range(i).lemma_filter_push(i as usize, pred);
}

/// Acerola may move damage off this Pokémon: a damaged Palossand or Mimikyu.
pub open spec fn is_acerola_target(c: PlayedCardView) -> bool {
    c.is_damaged() && (c.card.name() == "Palossand"@ || c.card.name() == "Mimikyu"@)
}

pub open spec fn acerola_slot(state: &State, p: int) -> spec_fn(usize) -> bool {
    |i: usize|
        match state.slot(p, i as int) {
            Some(c) => is_acerola_target(c),
            None => false,
        }
}

/// Acerola: "Choose 1 of your Palossand or Mimikyu that has damage on it, and move 40 of its
/// damage to your opponent's Active Pokémon." The slots of the qualifying Pokémon, in order.
pub fn acerola_targets(state: &State, player: usize) -> (r: Vec<usize>)
    requires
        player < 2,
    ensures
        r@ == slot_range(4).filter(acerola_slot(state, player as int)),
{
    let mut r: Vec<usize> = Vec::new();
    let mut i: usize = 0;
    while i < 4
        invariant
            i <= 4,
            player < 2,
            r@ == slot_range(i as nat).filter(acerola_slot(state, player as int)),
        decreases 4 - i,
    {
        proof {
            lemma_slot_range_filter_step(i as nat, acerola_slot(state, player as int));
        }
        match &state.in_play_pokemon[player][i] {
            Some(c) => {
                let name = c.get_name();
                if c.is_damaged() && (name == String::from_str("Palossand") || name
                    == String::from_str("Mimikyu")) {
                    r.push(i);
                }
            },
            None => {},
        }
        i += 1;
    }
    r
}

/// The Energy types in declaration order.
pub open spec fn all_energy_types() -> Seq<EnergyType> {
    seq![
        EnergyType::Grass,
        EnergyType::Fire,
        EnergyType::Water,
        EnergyType::Lightning,
        EnergyType::Psychic,
        EnergyType::Fighting,
        EnergyType::Darkness,
        EnergyType::Metal,
        EnergyType::Dragon,
        EnergyType::Colorless,
    ]
}

/// Some Pokémon of player `p` in play has an Energy of type `e` attached.
pub open spec fn attached_somewhere(state: &State, p: int, e: EnergyType) -> bool {
    exists|i: int|
        0 <= i < 4 && match #[trigger] state.slot(p, i) {
            Some(c) => c.attached_energy.contains(e),
            None => false,
        }
}

pub open spec fn attached_somewhere_pred(state: &State, p: int) -> spec_fn(EnergyType) -> bool {
    |e: EnergyType| attached_somewhere(state, p, e)
}

pub(crate) fn energy_of_rank(k: usize) -> (e: EnergyType)
    requires
        k < 10,
    ensures
        e == all_energy_types()[k as int],
{
    match k {
        0 => EnergyType::Grass,
        1 => EnergyType::Fire,
        2 => EnergyType::Water,
        3 => EnergyType::Lightning,
        4 => EnergyType::Psychic,
        5 => EnergyType::Fighting,
        6 => EnergyType::Darkness,
        7 => EnergyType::Metal,
        8 => EnergyType::Dragon,
        _ => EnergyType::Colorless,
    }
}

fn is_attached_somewhere(state: &State, player: usize, e: EnergyType) -> (r: bool)
    requires
        player < 2,
    ensures
        r == attached_somewhere(state, player as int, e),
{
    let mut i: usize = 0;
    while i < 4
        invariant
            i <= 4,
            player < 2,
            forall|j: int|
                0 <= j < i ==> !match #[trigger] state.slot(player as int, j) {
                    Some(c) => c.attached_energy.contains(e),
                    None => false,
                },
        decreases 4 - i,
    {
        match &state.in_play_pokemon[player][i] {
            Some(c) => {
                if crate::played_card::contains_energy_type(&c.attached_energy, e) {
                    assert(state.slot(player as int, i as int) == Some(c@));
                    return true;
                }
            },
            None => {},
        }
        i += 1;
    }
    false
}

proof fn lemma_filter_keeps_no_duplicates(s: Seq<EnergyType>, pred: spec_fn(EnergyType) -> bool)
    requires
        s.no_duplicates(),
    ensures
        s.filter(pred).no_duplicates(),
    decreases s.len(),
{
    if s.len() > 0 {
        let t = s.drop_last();
        let x = s.last();
        assert(t.no_duplicates());
        lemma_filter_keeps_no_duplicates(t, pred);
        assert(t.push(x) =~= s);
        t.lemma_filter_push(x, pred);
        if pred(x) {
            if t.filter(pred).contains(x) {
                t.lemma_filter_contains_rev(pred, x);
                let i = choose|i: int| 0 <= i < t.len() && t[i] == x;
                assert(s[i] == s[s.len() - 1]);
            }
        }
    }
}

/// The count of distinct attached Energy types is the size of the set of Energy types attached
/// to some Pokémon `p` has in play: no type is counted twice and none is missed.
pub proof fn law_distinct_types_count_the_attached_set(state: &State, p: int)
    ensures
        Set::new(|e: EnergyType| attached_somewhere(state, p, e)).finite(),
        all_energy_types().filter(attached_somewhere_pred(state, p)).len() == Set::new(
            |e: EnergyType| attached_somewhere(state, p, e),
        ).len(),
{
    let all = all_energy_types();
    let pred = attached_somewhere_pred(state, p);
    let f = all.filter(pred);
    assert(all.no_duplicates());
    lemma_filter_keeps_no_duplicates(all, pred);
    f.unique_seq_to_set();
    assert forall|e: EnergyType| #[trigger] all.contains(e) by {
        let i: int = match e {
            EnergyType::Grass => 0,
            EnergyType::Fire => 1,
            EnergyType::Water => 2,
            EnergyType::Lightning => 3,
            EnergyType::Psychic => 4,
            EnergyType::Fighting => 5,
            EnergyType::Darkness => 6,
            EnergyType::Metal => 7,
            EnergyType::Dragon => 8,
            EnergyType::Colorless => 9,
        };
        assert(all[i] == e);
    }
    assert forall|e: EnergyType| f.to_set().contains(e) == attached_somewhere(state, p, e) by {
        if f.contains(e) {
            all.lemma_filter_contains_rev(pred, e);
            let i = choose|i: int| 0 <= i < f.len() && f[i] == e;
            all.filter_lemma(pred);
        } else {
            if attached_somewhere(state, p, e) {
                let i = choose|i: int| 0 <= i < all.len() && all[i] == e;
                all.filter_lemma(pred);
            }
        }
    }
    assert(f.to_set() =~= Set::new(|e: EnergyType| attached_somewhere(state, p, e)));
}

/// How many distinct Energy types are attached across all of `player`'s Pokémon in play.
/// Juggler: "You can use this card only if your Pokémon in play have 3 or more different types
/// of Energy attached."
pub fn distinct_attached_energy_types(state: &State, player: usize) -> (r: usize)
    requires
        player < 2,
    ensures
        r == all_energy_types().filter(attached_somewhere_pred(state, player as int)).len(),
{
    let mut n: usize = 0;
    let mut k: usize = 0;
    while k < 10
        invariant
            k <= 10,
            player < 2,
            n == all_energy_types().take(k as int).filter(
                attached_somewhere_pred(state, player as int),
            ).len(),
            n <= k,
        decreases 10 - k,
    {
        let e = energy_of_rank(k);
        proof {
            all_energy_types().lemma_take_succ_push(k as int);
            all_energy_types().take(k as int).lemma_filter_push(
                e,
                attached_somewhere_pred(state, player as int),
            );
        }
        if is_attached_somewhere(state, player, e) {
            n += 1;
        }
        k += 1;
    }
    assert(all_energy_types().take(10) =~= all_energy_types());
    n
}

pub open spec fn is_basic_water(c: CardView) -> bool {
    match c {
        CardView::Pokemon(p) => p.stage == 0 && p.energy_type == EnergyType::Water,
        CardView::Trainer(_) => false,
    }
}

pub open spec fn is_water_pokemon(c: CardView) -> bool {
    match c {
        CardView::Pokemon(p) => p.energy_type == EnergyType::Water,
        CardView::Trainer(_) => false,
    }
}

pub open spec fn basic_water_pred() -> spec_fn(CardView) -> bool {
    |c: CardView| is_basic_water(c)
}

pub open spec fn water_pred() -> spec_fn(CardView) -> bool {
    |c: CardView| is_water_pokemon(c)
}

/// Fishing Net: "Put a random Basic [W] Pokémon from your discard pile into your hand." The
/// eligible cards, one entry per copy, in discard order.
pub fn fishing_net_candidates(state: &State, player: usize) -> (r: Vec<Card>)
    requires
        player < 2,
    ensures
        cards_view(r@) == state.discard(player as int).filter(basic_water_pred()),
{
    let pile = &state.discard_piles[player];
    let mut r: Vec<Card> = Vec::new();
    let mut i: usize = 0;
    while i < pile.len()
        invariant
            i <= pile@.len(),
            player < 2,
            pile@ == state.discard_piles@[player as int]@,
            cards_view(r@) == cards_view(pile@).take(i as int).filter(basic_water_pred()),
        decreases pile.len() - i,
    {
        proof {
            cards_view(pile@).lemma_take_succ_push(i as int);
            cards_view(pile@).take(i as int).lemma_filter_push(
                pile@[i as int]@,
                basic_water_pred(),
            );
        }
        let keep = match &pile[i] {
            Card::Pokemon(p) => p.stage == 0 && p.energy_type == EnergyType::Water,
            Card::Trainer(_) => false,
        };
        if keep {
            let ghost before = r@;
            let c = pile[i].clone();
            r.push(c);
            assert(cards_view(r@) =~= cards_view(before).push(pile@[i as int]@));
        }
        i += 1;
    }
    assert(cards_view(pile@).take(pile@.len() as int) =~= cards_view(pile@));
    r
}

/// Fisher: "a [W] Pokémon is chosen at random from your discard pile". Unlike Fishing Net,
/// not restricted to Basics. The eligible cards, one entry per copy, in discard order.
pub fn water_pokemon_in_discard(state: &State, player: usize) -> (r: Vec<Card>)
    requires
        player < 2,
    ensures
        cards_view(r@) == state.discard(player as int).filter(water_pred()),
{
    let pile = &state.discard_piles[player];
    let mut r: Vec<Card> = Vec::new();
    let mut i: usize = 0;
    while i < pile.len()
        invariant
            i <= pile@.len(),
            player < 2,
            pile@ == state.discard_piles@[player as int]@,
            cards_view(r@) == cards_view(pile@).take(i as int).filter(water_pred()),
        decreases pile.len() - i,
    {
        proof {
            cards_view(pile@).lemma_take_succ_push(i as int);
            cards_view(pile@).take(i as int).lemma_filter_push(pile@[i as int]@, water_pred());
        }
        let keep = match &pile[i] {
            Card::Pokemon(p) => p.energy_type == EnergyType::Water,
            Card::Trainer(_) => false,
        };
        if keep {
            let ghost before = r@;
            let c = pile[i].clone();
            r.push(c);
            assert(cards_view(r@) =~= cards_view(before).push(pile@[i as int]@));
        }
        i += 1;
    }
    assert(cards_view(pile@).take(pile@.len() as int) =~= cards_view(pile@));
    r
}

} // verus!
