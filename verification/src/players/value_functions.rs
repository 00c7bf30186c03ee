use vstd::prelude::*;

use crate::models::{energy_rank, Card, CardView, EnergyType};
use crate::played_card::{PlayedCard, PlayedCardView};
use crate::models::AttackView;
use crate::state::{double_grass_energy, State};
use crate::text::{ascii_lower, chars_are, lowercase};

verus! {

/// Which scorer a search player uses.
#[derive(Debug, Clone, Copy, PartialEq, Eq, Structural, Hash)]
pub enum ValueFunctionKind {
    /// The hand-tuned linear scorer. The default.
    Baseline,
    /// A variant of the hand-tuned scorer.
    Variant,
    /// The learned logistic model.
    Learned,
}

impl Default for ValueFunctionKind {
    fn default() -> (r: Self)
        ensures
            r == ValueFunctionKind::Baseline,
    {
        ValueFunctionKind::Baseline
    }
}

/// The short name of each kind.
pub open spec fn kind_name(kind: ValueFunctionKind) -> Seq<char> {
    match kind {
        ValueFunctionKind::Baseline => "baseline"@,
        ValueFunctionKind::Variant => "variant"@,
        ValueFunctionKind::Learned => "learned"@,
    }
}

impl ValueFunctionKind {
    /// The short name accepted by [`parse_value_function_kind`].
    pub fn as_str(&self) -> (r: &'static str)
        ensures
            r@ == kind_name(*self),
    {
        match self {
            ValueFunctionKind::Baseline => "baseline",
            ValueFunctionKind::Variant => "variant",
            ValueFunctionKind::Learned => "learned",
        }
    }
}

/// Case-insensitive name to kind: the full name or its first letter.
pub open spec fn spec_parse_value_function_kind(name: Seq<char>) -> Result<
    ValueFunctionKind,
    Seq<char>,
> {
    let l = ascii_lower(name);
    if l == "baseline"@ || l == "b"@ {
        Ok(ValueFunctionKind::Baseline)
    } else if l == "variant"@ || l == "v"@ {
        Ok(ValueFunctionKind::Variant)
    } else if l == "learned"@ || l == "l"@ {
        Ok(ValueFunctionKind::Learned)
    } else {
        Err("Invalid value function: "@ + l + ". Use baseline, variant or learned"@)
    }
}

pub open spec fn result_view<T>(r: Result<T, String>) -> Result<T, Seq<char>> {
    match r {
        Ok(v) => Ok(v),
        Err(e) => Err(e@),
    }
}

/// Case-insensitive name to kind, for command-line flags.
pub fn parse_value_function_kind(name: &str) -> (r: Result<ValueFunctionKind, String>)
    ensures
        result_view(r) == spec_parse_value_function_kind(name@),
{
    let (lower, l) = lowercase(name);
    if chars_are(&l, "baseline") || chars_are(&l, "b") {
        Ok(ValueFunctionKind::Baseline)
    } else if chars_are(&l, "variant") || chars_are(&l, "v") {
        Ok(ValueFunctionKind::Variant)
    } else if chars_are(&l, "learned") || chars_are(&l, "l") {
        Ok(ValueFunctionKind::Learned)
    } else {
        let mut msg = String::from_str("Invalid value function: ");
        msg.append(lower.as_str());
        msg.append(". Use baseline, variant or learned");
        Err(msg)
    }
}

/// Reading back the short name of a kind gives that kind.
pub proof fn law_kind_names_read_back(kind: ValueFunctionKind)
    ensures
        spec_parse_value_function_kind(kind_name(kind)) == Ok::<ValueFunctionKind, Seq<char>>(
            kind,
        ),
{
    reveal_strlit("baseline");
    reveal_strlit("variant");
    reveal_strlit("learned");
    reveal_strlit("b");
    reveal_strlit("v");
    reveal_strlit("l");
    let n = kind_name(kind);
    assert(ascii_lower(n) =~= n);
    assert("b"@.len() == 1);
    assert("baseline"@.len() == 8);
    assert("baseline"@ != "b"@);
    assert("v"@.len() == 1);
    assert("variant"@.len() == 7);
    assert("variant"@ != "v"@);
    match kind {
        ValueFunctionKind::Baseline => {},
        ValueFunctionKind::Variant => {
            assert(n[0] != 'b');
        },
        ValueFunctionKind::Learned => {
            assert(n[0] != 'b' && n[0] != 'v');
        },
    }
}


/// The Energy a card in play pays with: each [G] counted twice while its Jungle Totem flag is
/// set.
pub fn effective_energy(card: &PlayedCard) -> (r: Vec<EnergyType>)
    ensures
        r@ == card@.doubled_energy(),
{
    if !card.has_double_grass_active() {
        return crate::models::clone_energy(&card.attached_energy);
    }
    double_grass_energy(&card.attached_energy)
}

/// The first position of `e` in `s`, if any.
pub open spec fn first_index(s: Seq<EnergyType>, e: EnergyType) -> int
    decreases s.len(),
{
    if s.len() == 0 {
        -1
    } else if s[0] == e {
        0
    } else {
        let r = first_index(s.skip(1), e);
        if r < 0 {
            -1
        } else {
            r + 1
        }
    }
}

/// Pays the typed Energy of `cost`, in order, out of `pool`: each is taken from the first
/// matching Energy left, or is missing. Colorless entries are left for later. Returns what is
/// left of the pool and the typed Energy that could not be paid, in cost order.
pub open spec fn pay_typed(pool: Seq<EnergyType>, cost: Seq<EnergyType>) -> (
    Seq<EnergyType>,
    Seq<EnergyType>,
)
    decreases cost.len(),
{
    if cost.len() == 0 {
        (pool, Seq::empty())
    } else {
        let e = cost[0];
        if e == EnergyType::Colorless {
            pay_typed(pool, cost.skip(1))
        } else if first_index(pool, e) >= 0 {
            pay_typed(pool.remove(first_index(pool, e)), cost.skip(1))
        } else {
            let (p, m) = pay_typed(pool, cost.skip(1));
            (p, seq![e] + m)
        }
    }
}

/// How many Colorless entries `cost` has.
pub open spec fn colorless_count(cost: Seq<EnergyType>) -> nat
    decreases cost.len(),
{
    if cost.len() == 0 {
        0
    } else {
        colorless_count(cost.drop_last()) + if cost.last() == EnergyType::Colorless {
            1nat
        } else {
            0nat
        }
    }
}

/// The Energy still missing to pay `cost` out of `attached`: the typed Energy that no attached
/// Energy of its type pays, then one Colorless for each Colorless the leftover Energy cannot
/// cover.
pub open spec fn energy_missing(attached: Seq<EnergyType>, cost: Seq<EnergyType>) -> Seq<
    EnergyType,
> {
    let (left, missing) = pay_typed(attached, cost);
    let short = colorless_count(cost) - left.len();
    missing + Seq::new(
        if short > 0 {
            short as nat
        } else {
            0
        },
        |i: int| EnergyType::Colorless,
    )
}

proof fn lemma_first_index(s: Seq<EnergyType>, e: EnergyType)
    ensures
        -1 <= first_index(s, e) < s.len(),
        first_index(s, e) >= 0 ==> s[first_index(s, e)] == e,
        first_index(s, e) >= 0 ==> forall|j: int| 0 <= j < first_index(s, e) ==> s[j] != e,
        first_index(s, e) < 0 ==> forall|j: int| 0 <= j < s.len() ==> s[j] != e,
    decreases s.len(),
{
    if s.len() > 0 {
        lemma_first_index(s.skip(1), e);
        if s[0] != e {
            assert forall|j: int| 1 <= j < s.len() implies s[j] == s.skip(1)[j - 1] by {}
        }
    }
}

proof fn lemma_colorless_count_prefix(cost: Seq<EnergyType>, i: int)
    requires
        0 <= i < cost.len(),
    ensures
        colorless_count(cost.take(i + 1)) == colorless_count(cost.take(i)) + if cost[i]
            == EnergyType::Colorless {
            1nat
        } else {
            0nat
        },
{
    assert(cost.take(i + 1).drop_last() =~= cost.take(i));
}

/// The first position of `e` in `v`, if any.
fn find_energy(v: &Vec<EnergyType>, e: EnergyType) -> (r: Option<usize>)
    ensures
        match r {
            Some(i) => i < v@.len() && i as int == first_index(v@, e),
            None => first_index(v@, e) < 0,
        },
{
    proof {
        lemma_first_index(v@, e);
    }
    let mut i: usize = 0;
    while i < v.len()
        invariant
            i <= v@.len(),
            forall|j: int| 0 <= j < i ==> v@[j] != e,
            -1 <= first_index(v@, e) < v@.len(),
            first_index(v@, e) >= 0 ==> v@[first_index(v@, e)] == e,
            first_index(v@, e) >= 0 ==> forall|j: int| 0 <= j < first_index(v@, e) ==> v@[j] != e,
            first_index(v@, e) < 0 ==> forall|j: int| 0 <= j < v@.len() ==> v@[j] != e,
        decreases v.len() - i,
    {
        if v[i] == e {
            return Some(i);
        }
        i += 1;
    }
    None
}

/// The Energy still missing to pay `cost` out of `attached`, as the position features count it.
pub fn feature_energy_missing(attached: &Vec<EnergyType>, cost: &Vec<EnergyType>) -> (r: Vec<
    EnergyType,
>)
    ensures
        r@ == energy_missing(attached@, cost@),
{
    let mut pool = crate::models::clone_energy(attached);
    let mut missing: Vec<EnergyType> = Vec::new();
    let mut colorless_needed: usize = 0;
    let mut i: usize = 0;
    assert(cost@.skip(0) =~= cost@);
    assert(missing@ + pay_typed(pool@, cost@).1 =~= pay_typed(pool@, cost@).1);
    assert(cost@.take(0) =~= Seq::<EnergyType>::empty());
    while i < cost.len()
        invariant
            i <= cost@.len(),
            colorless_needed == colorless_count(cost@.take(i as int)),
            colorless_needed <= i,
            ({
                let (p, m) = pay_typed(pool@, cost@.skip(i as int));
                pay_typed(attached@, cost@) == (p, missing@ + m)
            }),
        decreases cost.len() - i,
    {
        let e = cost[i];
        let ghost rest = cost@.skip(i as int);
        assert(rest[0] == e && rest.skip(1) =~= cost@.skip(i + 1));
        proof {
            lemma_colorless_count_prefix(cost@, i as int);
        }
        if e == EnergyType::Colorless {
            colorless_needed += 1;
        } else {
            match find_energy(&pool, e) {
                Some(index) => {
                    pool.remove(index);
                },
                None => {
                    let ghost before = missing@;
                    missing.push(e);
                    proof {
                        let (p, m) = pay_typed(pool@, cost@.skip(i + 1));
                        assert(before + (seq![e] + m) =~= missing@ + m);
                    }
                },
            }
        }
        i += 1;
    }
    assert(cost@.skip(cost@.len() as int) =~= Seq::<EnergyType>::empty());
    assert(cost@.take(cost@.len() as int) =~= cost@);
    let ghost typed_missing = missing@;
    let short = if colorless_needed > pool.len() {
        colorless_needed - pool.len()
    } else {
        0
    };
    let mut k: usize = 0;
    while k < short
        invariant
            k <= short,
            missing@ == typed_missing + Seq::new(k as nat, |j: int| EnergyType::Colorless),
        decreases short - k,
    {
        missing.push(EnergyType::Colorless);
        k += 1;
        assert(missing@ =~= typed_missing + Seq::new(k as nat, |j: int| EnergyType::Colorless));
    }
    missing
}

/// Whether the card's effective Energy pays `cost` in full.
pub fn cost_met(card: &PlayedCard, cost: &Vec<EnergyType>) -> (r: bool)
    ensures
        r == (energy_missing(card@.doubled_energy(), cost@).len() == 0),
{
    let energy = effective_energy(card);
    feature_energy_missing(&energy, cost).len() == 0
}

/// The Retreat Cost size of a player's Active: 0 with no Active, 5 for an Active with no printed
/// Retreat Cost.
pub fn get_active_retreat_cost(state: &State, player: usize) -> (r: usize)
    requires
        player < 2,
    ensures
        r == match state.active(player as int) {
            Some(c) => match c.card {
                CardView::Pokemon(p) => p.retreat_cost.len() as int,
                CardView::Trainer(_) => 5,
            },
            None => 0,
        },
{
    match state.maybe_get_active(player) {
        Some(card) => match card.card.get_retreat_cost() {
            Some(rc) => rc.len(),
            None => 5,
        },
        None => 0,
    }
}

/// Lexicographic order of Energy costs as `Vec<EnergyType>` orders them: entry by entry in the
/// order the types are declared, and a cost before any longer cost it starts.
pub open spec fn cost_le(a: Seq<EnergyType>, b: Seq<EnergyType>) -> bool
    decreases a.len(),
{
    if a.len() == 0 {
        true
    } else if b.len() == 0 {
        false
    } else if energy_rank(a[0]) < energy_rank(b[0]) {
        true
    } else if energy_rank(a[0]) > energy_rank(b[0]) {
        false
    } else {
        cost_le(a.skip(1), b.skip(1))
    }
}

/// Whether `a` comes strictly before `b` in that order.
fn cost_less(a: &Vec<EnergyType>, b: &Vec<EnergyType>) -> (r: bool)
    ensures
        r == !cost_le(b@, a@),
{
    let mut i: usize = 0;
    assert(a@.skip(0) =~= a@ && b@.skip(0) =~= b@);
    while i < a.len() && i < b.len()
        invariant
            i <= a@.len(),
            i <= b@.len(),
            a@.take(i as int) == b@.take(i as int),
            cost_le(b@, a@) == cost_le(b@.skip(i as int), a@.skip(i as int)),
        decreases a.len() - i,
    {
        let ra = a[i].rank();
        let rb = b[i].rank();
        proof {
            assert(a@.skip(i as int)[0] == a@[i as int]);
            assert(b@.skip(i as int)[0] == b@[i as int]);
            assert(a@.skip(i as int).skip(1) =~= a@.skip(i + 1));
            assert(b@.skip(i as int).skip(1) =~= b@.skip(i + 1));
        }
        if ra < rb {
            return true;
        }
        if ra > rb {
            return false;
        }
        proof {
            lemma_rank_injective(a@[i as int], b@[i as int]);
            assert(a@.take(i + 1) =~= a@.take(i as int).push(a@[i as int]));
            assert(b@.take(i + 1) =~= b@.take(i as int).push(b@[i as int]));
        }
        i += 1;
    }
    // One is a prefix of the other: `a` is smaller exactly when `b` is longer.
    i < b.len()
}

proof fn lemma_rank_injective(a: EnergyType, b: EnergyType)
    requires
        energy_rank(a) == energy_rank(b),
    ensures
        a == b,
{
}

/// The card's most expensive attack cost in that order; empty when it has no attacks.
pub open spec fn is_most_expensive(costs: Seq<Seq<EnergyType>>, c: Seq<EnergyType>) -> bool {
    if costs.len() == 0 {
        c == Seq::<EnergyType>::empty()
    } else {
        &&& exists|i: int| 0 <= i < costs.len() && costs[i] == c
        &&& forall|i: int| 0 <= i < costs.len() ==> cost_le(#[trigger] costs[i], c)
    }
}

pub open spec fn attack_costs(card: CardView) -> Seq<Seq<EnergyType>> {
    card.attacks().map_values(|a: crate::models::AttackView| a.energy_required)
}


proof fn lemma_cost_le_reflexive(a: Seq<EnergyType>)
    ensures
        cost_le(a, a),
    decreases a.len(),
{
    if a.len() > 0 {
        lemma_cost_le_reflexive(a.skip(1));
    }
}

proof fn lemma_cost_le_total(a: Seq<EnergyType>, b: Seq<EnergyType>)
    ensures
        cost_le(a, b) || cost_le(b, a),
    decreases a.len(),
{
    if a.len() > 0 && b.len() > 0 && energy_rank(a[0]) == energy_rank(b[0]) {
        lemma_cost_le_total(a.skip(1), b.skip(1));
    }
}

proof fn lemma_cost_le_transitive(a: Seq<EnergyType>, b: Seq<EnergyType>, c: Seq<EnergyType>)
    requires
        cost_le(a, b),
        cost_le(b, c),
    ensures
        cost_le(a, c),
    decreases a.len(),
{
    if a.len() > 0 && b.len() > 0 && c.len() > 0 {
        if energy_rank(a[0]) == energy_rank(b[0]) && energy_rank(b[0]) == energy_rank(c[0]) {
            lemma_cost_le_transitive(a.skip(1), b.skip(1), c.skip(1));
        }
    }
}

/// The most expensive attack cost of a card, comparing costs as `Vec<EnergyType>` does; empty
/// for a card without attacks.
pub fn most_expensive_attack_cost(card: &Card) -> (r: Vec<EnergyType>)
    ensures
        is_most_expensive(attack_costs(card@), r@),
{
    let attacks = card.get_attacks();
    let ghost costs = attack_costs(card@);
    assert(costs.len() == attacks@.len());
    assert forall|j: int| 0 <= j < attacks@.len() implies #[trigger] costs[j]
        == attacks@[j].energy_required@ by {
        assert(crate::models::attacks_view(attacks@)[j] == attacks@[j]@);
    }
    if attacks.len() == 0 {
        return Vec::new();
    }
    let mut best = crate::models::clone_energy(&attacks[0].energy_required);
    proof {
        lemma_cost_le_reflexive(best@);
        assert(costs[0] == best@);
    }
    let mut i: usize = 1;
    while i < attacks.len()
        invariant
            1 <= i <= attacks@.len(),
            costs.len() == attacks@.len(),
            forall|j: int| 0 <= j < attacks@.len() ==> #[trigger] costs[j]
                == attacks@[j].energy_required@,
            exists|j: int| 0 <= j < i && costs[j] == best@,
            forall|j: int| 0 <= j < i ==> cost_le(#[trigger] costs[j], best@),
        decreases attacks.len() - i,
    {
        let current = &attacks[i].energy_required;
        if !cost_less(current, &best) {
            proof {
                lemma_cost_le_reflexive(current@);
                assert forall|j: int| 0 <= j < i + 1 implies cost_le(#[trigger] costs[j], current@) by {
                    if j < i {
                        lemma_cost_le_transitive(costs[j], best@, current@);
                    }
                }
                assert(costs[i as int] == current@);
            }
            best = crate::models::clone_energy(current);
        } else {
            proof {
                lemma_cost_le_total(current@, best@);
            }
        }
        i += 1;
    }
    best
}


proof fn lemma_pay_typed_sizes(pool: Seq<EnergyType>, cost: Seq<EnergyType>)
    ensures
        pay_typed(pool, cost).1.len() + colorless_count(cost) <= cost.len(),
        pay_typed(pool, cost).0.len() <= pool.len(),
    decreases cost.len(),
{
    if cost.len() > 0 {
        let e = cost[0];
        lemma_colorless_count_front(cost);
        if e == EnergyType::Colorless {
            lemma_pay_typed_sizes(pool, cost.skip(1));
        } else if first_index(pool, e) >= 0 {
            lemma_first_index(pool, e);
            lemma_pay_typed_sizes(pool.remove(first_index(pool, e)), cost.skip(1));
        } else {
            lemma_pay_typed_sizes(pool, cost.skip(1));
        }
    }
}

proof fn lemma_colorless_count_front(cost: Seq<EnergyType>)
    requires
        cost.len() > 0,
    ensures
        colorless_count(cost) == colorless_count(cost.skip(1)) + if cost[0]
            == EnergyType::Colorless {
            1nat
        } else {
            0nat
        },
    decreases cost.len(),
{
    if cost.len() > 1 {
        lemma_colorless_count_front(cost.drop_last());
        assert(cost.drop_last().skip(1) =~= cost.skip(1).drop_last());
        assert(cost.drop_last()[0] == cost[0]);
    } else {
        assert(cost.skip(1) =~= Seq::<EnergyType>::empty());
        assert(cost.drop_last() =~= Seq::<EnergyType>::empty());
    }
}

/// What is missing never exceeds the cost: at most one missing Energy per Energy of the cost,
/// and nothing at all for a free attack.
pub proof fn law_missing_at_most_cost(attached: Seq<EnergyType>, cost: Seq<EnergyType>)
    ensures
        energy_missing(attached, cost).len() <= cost.len(),
{
    lemma_pay_typed_sizes(attached, cost);
}


/// Threat `a` ranks before `b`: fewer missing Energy, or as many and more damage.
pub open spec fn threat_better(a: (u32, nat), b: (u32, nat)) -> bool {
    a.1 < b.1 || (a.1 == b.1 && a.0 > b.0)
}

/// The first best threat of `s`, as `Iterator::min_by_key` picks it.
pub open spec fn first_best(s: Seq<(u32, nat)>) -> Option<(u32, nat)>
    decreases s.len(),
{
    if s.len() == 0 {
        None
    } else {
        match first_best(s.drop_last()) {
            None => Some(s.last()),
            Some(b) => if threat_better(s.last(), b) {
                Some(s.last())
            } else {
                Some(b)
            },
        }
    }
}

/// The damaging attacks of a card as threats: each one's damage and how much Energy it still
/// lacks out of `attached`.
pub open spec fn attack_threats(attacks: Seq<AttackView>, attached: Seq<EnergyType>) -> Seq<
    (u32, nat),
>
    decreases attacks.len(),
{
    if attacks.len() == 0 {
        Seq::empty()
    } else {
        let rest = attack_threats(attacks.drop_last(), attached);
        let a = attacks.last();
        if a.fixed_damage > 0 {
            rest.push((a.fixed_damage, energy_missing(attached, a.energy_required).len()))
        } else {
            rest
        }
    }
}

/// The best threat of one Pokémon in play.
pub open spec fn card_threat(c: PlayedCardView) -> Option<(u32, nat)> {
    first_best(attack_threats(c.card.attacks(), c.doubled_energy()))
}

/// The best threat of each of the first `n` slots of player `p` that has one.
pub open spec fn board_threats(state: &State, p: int, n: nat) -> Seq<(u32, nat)>
    decreases n,
{
    if n == 0 {
        Seq::empty()
    } else {
        let rest = board_threats(state, p, (n - 1) as nat);
        match state.slot(p, n - 1) {
            Some(c) => match card_threat(c) {
                Some(t) => rest.push(t),
                None => rest,
            },
            None => rest,
        }
    }
}

/// Turns to take `hp` with hits of `damage`: the quotient rounded up.
pub open spec fn ceil_div(hp: int, damage: int) -> int {
    (hp + damage - 1) / damage
}

/// How safe a Bench Pokémon is when the opponent holds `pts` points: its HP when one Knock Out
/// decides the game, otherwise its HP per point it gives up, scaled by 1000.
pub open spec fn safety(c: PlayedCardView, pts: int) -> int {
    if pts == 2 {
        c.board_remaining_hp()
    } else {
        c.board_remaining_hp() * 1000 / (if c.card.knockout_points() >= 1 {
            c.card.knockout_points() as int
        } else {
            1
        })
    }
}

/// The safest of Bench slots 1 to `n - 1`, the last of several equally safe, as
/// `Iterator::max_by_key` picks it.
pub open spec fn safest_upto(state: &State, p: int, pts: int, n: nat) -> Option<PlayedCardView>
    decreases n,
{
    if n <= 1 {
        None
    } else {
        let prev = safest_upto(state, p, pts, (n - 1) as nat);
        match state.slot(p, n - 1) {
            None => prev,
            Some(c) => match prev {
                None => Some(c),
                Some(b) => if safety(c, pts) >= safety(b, pts) {
                    Some(c)
                } else {
                    prev
                },
            },
        }
    }
}

proof fn lemma_safest_at_two_points(state: &State, p: int, n: nat)
    requires
        n <= 4,
    ensures
        safest_upto(state, p, 2, n) is None <==> (forall|i: int|
            1 <= i < n ==> #[trigger] state.slot(p, i) is None),
        safest_upto(state, p, 2, n) matches Some(c) ==> (exists|i: int|
            1 <= i < n && #[trigger] state.slot(p, i) == Some(c)),
        safest_upto(state, p, 2, n) matches Some(c) ==> (forall|i: int|
            1 <= i < n ==> match #[trigger] state.slot(p, i) {
                Some(d) => c.board_remaining_hp() >= d.board_remaining_hp(),
                None => true,
            }),
    decreases n,
{
    if n > 1 {
        lemma_safest_at_two_points(state, p, (n - 1) as nat);
        let prev = safest_upto(state, p, 2, (n - 1) as nat);
        let k = n - 1;
        match state.slot(p, k) {
            None => {},
            Some(c) => {
                match prev {
                    None => {
                        assert forall|i: int| 1 <= i < n implies match #[trigger] state.slot(p, i) {
                            Some(d) => c.board_remaining_hp() >= d.board_remaining_hp(),
                            None => true,
                        } by {
                            if i < k {
                                assert(state.slot(p, i) is None);
                            }
                        }
                    },
                    Some(b) => {
                        if safety(c, 2) >= safety(b, 2) {
                            assert forall|i: int| 1 <= i < n implies match #[trigger] state.slot(
                                p,
                                i,
                            ) {
                                Some(d) => c.board_remaining_hp() >= d.board_remaining_hp(),
                                None => true,
                            } by {
                                if i < k {
                                    assert(match state.slot(p, i) {
                                        Some(d) => b.board_remaining_hp() >= d.board_remaining_hp(),
                                        None => true,
                                    });
                                }
                            }
                        } else {
                            assert(state.slot(p, k) == Some(c));
                        }
                    },
                }
            },
        }
    }
}

/// Once the opponent holds 2 points any Knock Out ends the game, so the Bench Pokémon the count
/// goes by is one of greatest remaining HP on the Bench, whatever its Knock Out points; there is
/// none only when the Bench is empty.
pub proof fn law_at_two_points_the_safest_has_most_hp(state: &State, p: int)
    ensures
        safest_upto(state, p, 2, 4) is None <==> (forall|i: int|
            1 <= i < 4 ==> #[trigger] state.slot(p, i) is None),
        safest_upto(state, p, 2, 4) matches Some(c) ==> (exists|i: int|
            1 <= i < 4 && #[trigger] state.slot(p, i) == Some(c)),
        safest_upto(state, p, 2, 4) matches Some(c) ==> (forall|i: int|
            1 <= i < 4 ==> match #[trigger] state.slot(p, i) {
                Some(d) => c.board_remaining_hp() >= d.board_remaining_hp(),
                None => true,
            }),
{
    lemma_safest_at_two_points(state, p, 4);
}

/// The turns the opponent spends Knocking Out Bench Pokémon once it holds `pts` points: each
/// time the safest Bench Pokémon at `damage` a turn, until it has 3 points or no Bench is left.
/// The safest one is not taken off the Bench, so it can be counted again.
pub open spec fn bench_turns(state: &State, p: int, pts: int, damage: int) -> int
    decreases (if pts < 3 {
        3 - pts
    } else {
        0
    }),
{
    if pts >= 3 {
        0
    } else {
        match safest_upto(state, p, pts, 4) {
            None => 0,
            Some(c) => ceil_div(c.board_remaining_hp(), damage) + bench_turns(
                state,
                p,
                pts + if c.card.knockout_points() >= 1 {
                    c.card.knockout_points() as int
                } else {
                    1
                },
                damage,
            ),
        }
    }
}

/// Turns until the opponent of `player` wins on board HP: the Energy its best threat still
/// lacks, then a hit per turn on the Active and on the safest Bench Pokémon until it has three
/// points. 30 when no Pokémon of the opponent has a damaging attack.
pub open spec fn spec_turns_until_opponent_wins(state: &State, player: int) -> int {
    let o = if player == 0 {
        1int
    } else {
        0int
    };
    match first_best(board_threats(state, o, 4)) {
        None => 30,
        Some(t) => {
            let d = t.0 as int;
            match state.active(player) {
                Some(a) => t.1 + ceil_div(a.board_remaining_hp(), d) + bench_turns(
                    state,
                    player,
                    state.points@[o] + a.card.knockout_points(),
                    d,
                ),
                None => t.1 + bench_turns(state, player, state.points@[o] as int, d),
            }
        },
    }
}

/// The best threat among the attacks of one Pokémon in play.
fn best_attack_threat(card: &PlayedCard) -> (r: Option<(u32, usize)>)
    ensures
        match r {
            Some(t) => card_threat(card@) == Some((t.0, t.1 as nat)),
            None => card_threat(card@) is None,
        },
{
    let attached = effective_energy(card);
    let attacks = card.card.get_attacks();
    let ghost av = card@.card.attacks();
    let mut best: Option<(u32, usize)> = None;
    let mut i: usize = 0;
    while i < attacks.len()
        invariant
            i <= attacks@.len(),
            crate::models::attacks_view(attacks@) == av,
            attached@ == card@.doubled_energy(),
            av == card@.card.attacks(),
            match best {
                Some(t) => first_best(attack_threats(av.take(i as int), attached@)) == Some(
                    (t.0, t.1 as nat),
                ),
                None => first_best(attack_threats(av.take(i as int), attached@)) is None,
            },
        decreases attacks.len() - i,
    {
        let ghost pre = av.take(i as int);
        assert(av.take(i + 1).drop_last() =~= pre);
        assert(av.take(i + 1).last() == attacks@[i as int]@);
        let attack = &attacks[i];
        if attack.fixed_damage > 0 {
            let missing = feature_energy_missing(&attached, &attack.energy_required);
            let m = missing.len();
            let ghost x = (attack.fixed_damage, m as nat);
            assert(attack_threats(av.take(i + 1), attached@) == attack_threats(pre, attached@).push(
                x,
            ));
            assert(attack_threats(pre, attached@).push(x).drop_last() =~= attack_threats(
                pre,
                attached@,
            ));
            let replace = match best {
                None => true,
                Some(b) => m < b.1 || (m == b.1 && attack.fixed_damage > b.0),
            };
            if replace {
                best = Some((attack.fixed_damage, m));
            }
        }
        i += 1;
    }
    assert(av.take(attacks@.len() as int) =~= av);
    best
}

/// The best threat among the Pokémon player `p` has in play.
fn best_board_threat(state: &State, p: usize) -> (r: Option<(u32, usize)>)
    requires
        p < 2,
    ensures
        match r {
            Some(t) => first_best(board_threats(state, p as int, 4)) == Some((t.0, t.1 as nat)),
            None => first_best(board_threats(state, p as int, 4)) is None,
        },
{
    let mut best: Option<(u32, usize)> = None;
    let mut i: usize = 0;
    while i < 4
        invariant
            i <= 4,
            p < 2,
            match best {
                Some(t) => first_best(board_threats(state, p as int, i as nat)) == Some(
                    (t.0, t.1 as nat),
                ),
                None => first_best(board_threats(state, p as int, i as nat)) is None,
            },
        decreases 4 - i,
    {
        let ghost pre = board_threats(state, p as int, i as nat);
        match &state.in_play_pokemon[p][i] {
            Some(pokemon) => {
                let found = best_attack_threat(pokemon);
                match found {
                    Some(t) => {
                        assert(pre.push((t.0, t.1 as nat)).drop_last() =~= pre);
                        let replace = match best {
                            None => true,
                            Some(b) => t.1 < b.1 || (t.1 == b.1 && t.0 > b.0),
                        };
                        if replace {
                            best = Some(t);
                        }
                    },
                    None => {},
                }
            },
            None => {},
        }
        i += 1;
    }
    best
}

/// How safe a Bench Pokémon is, as `safety` states it.
fn safety_of(card: &PlayedCard, pts: u8) -> (r: u32)
    requires
        card@.board_total_hp() * 1000 <= u32::MAX,
    ensures
        r == safety(card@, pts as int),
{
    let hp = card.get_board_remaining_hp();
    if pts == 2 {
        hp
    } else {
        let kp = card.card.get_knockout_points();
        let points: u32 = if kp >= 1 {
            kp as u32
        } else {
            1
        };
        hp * 1000 / points
    }
}

/// Every Bench Pokémon of `p` keeps `safety` in range.
pub open spec fn bench_hp_fits(state: &State, p: int) -> bool {
    forall|i: int|
        1 <= i < 4 ==> match #[trigger] state.slot(p, i) {
            Some(c) => c.board_total_hp() * 1000 <= u32::MAX,
            None => true,
        }
}

/// The safest Bench Pokémon of `p` when the opponent holds `pts` points.
fn safest_bench(state: &State, p: usize, pts: u8) -> (r: Option<&PlayedCard>)
    requires
        p < 2,
        bench_hp_fits(state, p as int),
    ensures
        crate::state::opt_played_view(
            match r {
                Some(c) => Some(*c),
                None => None,
            },
        ) == safest_upto(state, p as int, pts as int, 4),
        r matches Some(c) ==> c@.board_total_hp() * 1000 <= u32::MAX,
{
    let mut best: Option<&PlayedCard> = None;
    let mut best_key: u32 = 0;
    let mut i: usize = 1;
    while i < 4
        invariant
            1 <= i <= 4,
            p < 2,
            bench_hp_fits(state, p as int),
            crate::state::opt_played_view(
                match best {
                    Some(c) => Some(*c),
                    None => None,
                },
            ) == safest_upto(state, p as int, pts as int, i as nat),
            best matches Some(b) ==> best_key == safety(b@, pts as int),
            best matches Some(b) ==> b@.board_total_hp() * 1000 <= u32::MAX,
        decreases 4 - i,
    {
        match &state.in_play_pokemon[p][i] {
            Some(c) => {
                assert(state.slot(p as int, i as int) == Some(c@));
                let key = safety_of(c, pts);
                let replace = match best {
                    None => true,
                    Some(_) => key >= best_key,
                };
                if replace {
                    best = Some(c);
                    best_key = key;
                }
            },
            None => {},
        }
        i += 1;
    }
    best
}

proof fn lemma_first_best_member(s: Seq<(u32, nat)>)
    ensures
        first_best(s) matches Some(t) ==> s.contains(t),
    decreases s.len(),
{
    if s.len() > 0 {
        lemma_first_best_member(s.drop_last());
        assert(s[s.len() - 1] == s.last());
        if let Some(b) = first_best(s.drop_last()) {
            if s.drop_last().contains(b) {
                let i = choose|i: int| 0 <= i < s.drop_last().len() && s.drop_last()[i] == b;
                assert(s[i] == b);
            }
        }
    }
}

proof fn lemma_attack_threats_damage(attacks: Seq<AttackView>, attached: Seq<EnergyType>)
    ensures
        forall|i: int|
            0 <= i < attack_threats(attacks, attached).len() ==> (#[trigger] attack_threats(
                attacks,
                attached,
            )[i]).0 > 0,
    decreases attacks.len(),
{
    if attacks.len() > 0 {
        let rest = attack_threats(attacks.drop_last(), attached);
        lemma_attack_threats_damage(attacks.drop_last(), attached);
        let a = attacks.last();
        if a.fixed_damage > 0 {
            let x = (a.fixed_damage, energy_missing(attached, a.energy_required).len());
            assert forall|i: int| 0 <= i < rest.push(x).len() implies (#[trigger] rest.push(x)[i]).0
                > 0 by {
                if i < rest.len() {
                    assert(rest.push(x)[i] == rest[i]);
                }
            }
        }
    }
}

proof fn lemma_board_threats_damage(state: &State, p: int, n: nat)
    ensures
        forall|i: int|
            0 <= i < board_threats(state, p, n).len() ==> (#[trigger] board_threats(
                state,
                p,
                n,
            )[i]).0 > 0,
    decreases n,
{
    if n > 0 {
        let rest = board_threats(state, p, (n - 1) as nat);
        lemma_board_threats_damage(state, p, (n - 1) as nat);
        if let Some(c) = state.slot(p, n - 1) {
            let ts = attack_threats(c.card.attacks(), c.doubled_energy());
            lemma_attack_threats_damage(c.card.attacks(), c.doubled_energy());
            lemma_first_best_member(ts);
            if let Some(t) = card_threat(c) {
                let j = choose|j: int| 0 <= j < ts.len() && ts[j] == t;
                assert(ts[j].0 > 0);
                assert forall|i: int| 0 <= i < rest.push(t).len() implies (#[trigger] rest.push(
                    t,
                )[i]).0 > 0 by {
                    if i < rest.len() {
                        assert(rest.push(t)[i] == rest[i]);
                    }
                }
            }
        }
    }
}

/// `hp` divided by `damage`, rounded up.
fn ceil_div_u32(hp: u32, damage: u32) -> (r: u32)
    requires
        damage > 0,
    ensures
        r == ceil_div(hp as int, damage as int),
{
    let q = hp / damage;
    let rem = hp % damage;
    proof {
        let (h, d) = (hp as int, damage as int);
        assert(h == q * d + rem) by (nonlinear_arith)
            requires
                q == h / d,
                rem == h % d,
                d > 0,
        ;
        assert((h + d - 1) / d == q + if rem > 0 {
            1int
        } else {
            0int
        }) by (nonlinear_arith)
            requires
                h == q * d + rem,
                0 <= rem < d,
                d > 0,
                q >= 0,
        ;
        assert(q * d <= h) by (nonlinear_arith)
            requires
                h == q * d + rem,
                rem >= 0,
        ;
        assert(q <= q * d) by (nonlinear_arith)
            requires
                d >= 1,
                q >= 0,
        ;
    }
    if rem > 0 {
        q + 1
    } else {
        q
    }
}

/// Turns until the opponent of `player` wins on board HP: the Energy its best threat still
/// lacks, then a hit per turn on the Active and on the safest Bench Pokémon until it has three
/// points; 30 when the opponent has no damaging attack.
pub fn turns_until_opponent_wins_board_hp(state: &State, player: usize) -> (r: u128)
    requires
        player < 2,
        forall|p: int, i: int|
            0 <= p < 2 && 0 <= i < 4 ==> match #[trigger] state.slot(p, i) {
                Some(c) => c.board_total_hp() * 1000 <= u32::MAX,
                None => true,
            },
        state.points@[if player == 0 {
            1int
        } else {
            0int
        }] <= 250,
    ensures
        r == spec_turns_until_opponent_wins(state, player as int),
{
    let opponent: usize = if player == 0 {
        1
    } else {
        0
    };
    assert(bench_hp_fits(state, player as int)) by {
        assert forall|i: int| 1 <= i < 4 implies match #[trigger] state.slot(player as int, i) {
            Some(c) => c.board_total_hp() * 1000 <= u32::MAX,
            None => true,
        } by {
            assert(0 <= player < 2 && 0 <= i < 4);
        }
    }
    let (max_damage, missing_energy) = match best_board_threat(state, opponent) {
        Some(t) => t,
        None => {
            return 30;
        },
    };
    proof {
        lemma_board_threats_damage(state, opponent as int, 4);
        lemma_first_best_member(board_threats(state, opponent as int, 4));
    }
    let ghost d = max_damage as int;
    let mut total_turns: u128 = missing_energy as u128;
    let mut opp_points: u8 = state.points[opponent];
    if let Some(my_active) = state.maybe_get_active(player) {
        assert(state.slot(player as int, 0) == Some(my_active@));
        let hp = my_active.get_board_remaining_hp();
        total_turns = total_turns + ceil_div_u32(hp, max_damage) as u128;
        opp_points = opp_points + my_active.card.get_knockout_points();
    }
    let ghost head = total_turns as int;
    let ghost start = opp_points as int;
    let ghost missing = missing_energy as int;
    while opp_points < 3
        invariant
            player < 2,
            max_damage > 0,
            d == max_damage as int,
            bench_hp_fits(state, player as int),
            total_turns + bench_turns(state, player as int, opp_points as int, d) == head
                + bench_turns(state, player as int, start, d),
            opp_points < 3 ==> total_turns <= missing + (1 + opp_points) * (u32::MAX as int),
            missing <= usize::MAX,
        ensures
            total_turns == head + bench_turns(state, player as int, start, d),
        decreases (if opp_points < 3 {
            3 - opp_points
        } else {
            0
        }),
    {
        let safest = match safest_bench(state, player, opp_points) {
            Some(c) => c,
            None => {
                break;
            },
        };
        let hp = safest.get_board_remaining_hp();
        let turns = ceil_div_u32(hp, max_damage);
        let kp = safest.card.get_knockout_points();
        let step: u8 = if kp >= 1 {
            kp
        } else {
            1
        };
        total_turns = total_turns + turns as u128;
        opp_points = opp_points + step;
    }
    total_turns
}

} // verus!
