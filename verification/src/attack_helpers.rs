use vstd::prelude::*;

use crate::actions::{actions_view, SimpleAction, SimpleActionView};
use crate::card_logic::{lemma_slot_range_filter_step, slot_range};
use crate::models::EnergyType;
use crate::played_card::push_missing;
use crate::state::State;

verus! {

/// `k` zeros.
pub open spec fn zeros(k: nat) -> Seq<usize> {
    Seq::new(k, |i: int| 0usize)
}

/// Each sequence of `s` with `p` in front.
pub open spec fn prefixed(s: Seq<Seq<usize>>, p: Seq<usize>) -> Seq<Seq<usize>> {
    s.map_values(|c: Seq<usize>| p + c)
}

/// Every way to split `n` Energy over `k` Pokémon, as the `k` amounts, in the order they are
/// generated: the first amount counts up from 0, and for each the rest are split the same way.
pub open spec fn compositions(k: nat, n: nat) -> Seq<Seq<usize>>
    decreases k, n + 2,
{
    if n == 0 {
        seq![zeros(k)]
    } else if k == 0 {
        Seq::empty()
    } else {
        compositions_upto(k, n, n + 1)
    }
}

/// The splits of `n` over `k` whose first amount is below `a`.
pub open spec fn compositions_upto(k: nat, n: nat, a: nat) -> Seq<Seq<usize>>
    decreases k, a,
{
    if k == 0 || a == 0 {
        Seq::empty()
    } else {
        compositions_upto(k, n, (a - 1) as nat) + prefixed(
            compositions((k - 1) as nat, (n - (a - 1)) as nat),
            seq![(a - 1) as usize],
        )
    }
}

pub open spec fn vecs_view(s: Seq<Vec<usize>>) -> Seq<Seq<usize>> {
    s.map_values(|v: Vec<usize>| v@)
}

pub open spec fn seq_sum(s: Seq<usize>) -> int
    decreases s.len(),
{
    if s.len() == 0 {
        0
    } else {
        s[0] + seq_sum(s.drop_first())
    }
}

pub proof fn lemma_zeros_sum(k: nat)
    ensures
        seq_sum(zeros(k)) == 0,
    decreases k,
{
    if k > 0 {
        assert(zeros(k).drop_first() =~= zeros((k - 1) as nat));
        lemma_zeros_sum((k - 1) as nat);
    }
}

/// Every split of `n` over `k` has `k` amounts summing to `n`.
pub proof fn lemma_compositions_shape(k: nat, n: nat)
    requires
        n <= usize::MAX,
    ensures
        forall|i: int|
            0 <= i < compositions(k, n).len() ==> (#[trigger] compositions(k, n)[i]).len() == k
                && seq_sum(compositions(k, n)[i]) == n,
    decreases k, n + 2,
{
    if n == 0 {
        lemma_zeros_sum(k);
        assert(compositions(k, n)[0] == zeros(k));
    } else if k > 0 {
        lemma_compositions_upto_shape(k, n, n + 1);
        assert(compositions(k, n) == compositions_upto(k, n, n + 1));
    } else {
        assert(compositions(k, n).len() == 0);
    }
}

pub proof fn lemma_compositions_upto_shape(k: nat, n: nat, a: nat)
    requires
        a <= n + 1,
        n <= usize::MAX,
    ensures
        forall|i: int|
            0 <= i < compositions_upto(k, n, a).len() ==> (#[trigger] compositions_upto(
                k,
                n,
                a,
            )[i]).len() == k && seq_sum(compositions_upto(k, n, a)[i]) == n,
    decreases k, a,
{
    if k > 0 && a > 0 {
        lemma_compositions_upto_shape(k, n, (a - 1) as nat);
        let sub = compositions((k - 1) as nat, (n - (a - 1)) as nat);
        lemma_compositions_shape((k - 1) as nat, (n - (a - 1)) as nat);
        let whole = compositions_upto(k, n, a);
        let left = compositions_upto(k, n, (a - 1) as nat);
        let right = prefixed(sub, seq![(a - 1) as usize]);
        assert(whole == left + right);
        assert forall|i: int| 0 <= i < whole.len() implies (#[trigger] whole[i]).len() == k
            && seq_sum(whole[i]) == n by {
            if i >= left.len() {
                let c = sub[i - left.len()];
                assert(whole[i] == seq![(a - 1) as usize] + c);
                assert((seq![(a - 1) as usize] + c).drop_first() =~= c);
            }
        }
    }
}

/// A copy of a list of indices.
fn clone_indices(v: &Vec<usize>) -> (r: Vec<usize>)
    ensures
        r@ == v@,
{
    let mut r: Vec<usize> = Vec::new();
    let mut i: usize = 0;
    while i < v.len()
        invariant
            i <= v.len(),
            r@ == v@.take(i as int),
        decreases v.len() - i,
    {
        r.push(v[i]);
        i += 1;
        assert(r@ =~= v@.take(i as int));
    }
    assert(v@.take(v.len() as int) =~= v@);
    r
}

/// Appends every split of `remaining` Energy over the targets from `start_idx` on to `result`,
/// each written after the amounts already fixed in `current[..start_idx]`. `current` is put
/// back as it was.
pub fn generate_distributions(
    target_indices: &[usize],
    remaining: usize,
    start_idx: usize,
    current: &mut Vec<usize>,
    result: &mut Vec<Vec<usize>>,
)
    requires
        old(current)@.len() == target_indices@.len(),
        forall|j: int| start_idx <= j < old(current)@.len() ==> old(current)@[j] == 0,
    ensures
        final(current)@ == old(current)@,
        vecs_view(final(result)@) == vecs_view(old(result)@) + prefixed(
            compositions(
                if start_idx < target_indices@.len() {
                    (target_indices@.len() - start_idx) as nat
                } else {
                    0
                },
                remaining as nat,
            ),
            old(current)@.take(
                if start_idx < target_indices@.len() {
                    start_idx as int
                } else {
                    target_indices@.len() as int
                },
            ),
        ),
    decreases target_indices@.len() - start_idx,
{
    let ghost len = target_indices@.len();
    let ghost k: nat = if start_idx < len {
        (len - start_idx) as nat
    } else {
        0
    };
    let ghost pre: Seq<usize> = current@.take(
        if start_idx < len {
            start_idx as int
        } else {
            len as int
        },
    );
    if remaining == 0 {
        let ghost before = result@;
        let c = clone_indices(current);
        result.push(c);
        proof {
            assert(pre + zeros(k) =~= current@);
            assert(prefixed(compositions(k, 0), pre) =~= seq![current@]);
            assert(vecs_view(result@) =~= vecs_view(before) + seq![current@]);
        }
        return ;
    }
    if start_idx >= target_indices.len() {
        proof {
            assert(prefixed(compositions(k, remaining as nat), pre) =~= Seq::<Seq<usize>>::empty());
            assert(vecs_view(result@) =~= vecs_view(result@) + Seq::<Seq<usize>>::empty());
        }
        return ;
    }
    let ghost cur0 = current@;
    let ghost res0 = vecs_view(result@);
    let n_targets = target_indices.len();
    let mut amount: usize = 0;
    loop
        invariant_except_break
            vecs_view(result@) == res0 + prefixed(
                compositions_upto(k, remaining as nat, amount as nat),
                pre,
            ),
        invariant
            amount <= remaining,
            remaining > 0,
            start_idx < len,
            len == target_indices@.len(),
            len == n_targets,
            k == len - start_idx,
            pre == cur0.take(start_idx as int),
            cur0.len() == len,
            forall|j: int| start_idx <= j < len ==> cur0[j] == 0,
            current@.len() == len,
            forall|j: int| 0 <= j < len && j != start_idx ==> current@[j] == cur0[j],
        ensures
            current@.len() == len,
            forall|j: int| 0 <= j < len && j != start_idx ==> current@[j] == cur0[j],
            vecs_view(result@) == res0 + prefixed(
                compositions_upto(k, remaining as nat, (remaining + 1) as nat),
                pre,
            ),
        decreases remaining - amount,
    {
        current.set(start_idx, amount);
        let ghost cur1 = current@;
        assert forall|j: int| start_idx + 1 <= j < current@.len() implies current@[j] == 0 by {
            assert(current@[j] == cur0[j]);
        }
        assert(amount <= remaining);
        let rest = remaining - amount;
        generate_distributions(target_indices, rest, start_idx + 1, current, result);
        proof {
            let k1: nat = (k - 1) as nat;
            let sub = compositions(k1, (remaining - amount) as nat);
            assert(k1 == if start_idx + 1 < len {
                (len - (start_idx + 1)) as nat
            } else {
                0
            });
            assert(cur1.take(start_idx + 1) =~= pre.push(amount));
            assert(cur1.take(
                if start_idx + 1 < len {
                    start_idx + 1
                } else {
                    len as int
                },
            ) =~= pre + seq![amount]);
            assert(prefixed(prefixed(sub, seq![amount]), pre) =~= prefixed(sub, pre + seq![amount]))
                by {
                assert forall|i: int| 0 <= i < sub.len() implies (pre + (seq![amount] + sub[i]))
                    =~= ((pre + seq![amount]) + sub[i]) by {}
            }
            assert(compositions_upto(k, remaining as nat, (amount + 1) as nat)
                == compositions_upto(k, remaining as nat, amount as nat) + prefixed(
                sub,
                seq![amount],
            ));
            assert(prefixed(compositions_upto(k, remaining as nat, (amount + 1) as nat), pre)
                =~= prefixed(compositions_upto(k, remaining as nat, amount as nat), pre) + prefixed(
                prefixed(sub, seq![amount]),
                pre,
            ));
        }
        if amount == remaining {
            break;
        }
        amount += 1;
    }
    current.set(start_idx, 0);
    proof {
        assert(current@ =~= cur0);
        assert(compositions(k, remaining as nat) == compositions_upto(
            k,
            remaining as nat,
            (remaining + 1) as nat,
        ));
    }
}

/// The attachments of one split: `(amount, type, target)` for each target that gets Energy,
/// in target order.
pub open spec fn attachments_of(
    dist: Seq<usize>,
    targets: Seq<usize>,
    e: EnergyType,
    i: nat,
) -> Seq<(u32, EnergyType, usize)>
    decreases i,
{
    if i == 0 {
        Seq::empty()
    } else {
        let rest = attachments_of(dist, targets, e, (i - 1) as nat);
        if dist[i - 1] > 0 {
            rest.push((dist[i - 1] as u32, e, targets[i - 1]))
        } else {
            rest
        }
    }
}

/// One `Attach` choice per split that attaches anything, in split order.
pub open spec fn attach_choices(
    dists: Seq<Seq<usize>>,
    targets: Seq<usize>,
    e: EnergyType,
) -> Seq<SimpleActionView>
    decreases dists.len(),
{
    if dists.len() == 0 {
        Seq::empty()
    } else {
        let rest = attach_choices(dists.drop_last(), targets, e);
        let a = attachments_of(dists.last(), targets, e, targets.len());
        if a.len() > 0 {
            rest.push(SimpleActionView::Attach { attachments: a, is_turn_energy: false })
        } else {
            rest
        }
    }
}

/// Total Energy that a list of attachments puts into play.
pub open spec fn attached_total(a: Seq<(u32, EnergyType, usize)>) -> int
    decreases a.len(),
{
    if a.len() == 0 {
        0
    } else {
        attached_total(a.drop_last()) + a.last().0
    }
}

/// The sum of the first `i` amounts of `d`.
pub open spec fn prefix_sum(d: Seq<usize>, i: nat) -> int
    decreases i,
{
    if i == 0 {
        0
    } else {
        prefix_sum(d, (i - 1) as nat) + d[i - 1]
    }
}

proof fn lemma_prefix_sum_is_sum(d: Seq<usize>, i: nat)
    requires
        i <= d.len(),
    ensures
        prefix_sum(d, i) + seq_sum(d.skip(i as int)) == seq_sum(d),
    decreases i,
{
    if i == 0 {
        assert(d.skip(0) =~= d);
    } else {
        lemma_prefix_sum_is_sum(d, (i - 1) as nat);
        assert(d.skip(i - 1).drop_first() =~= d.skip(i as int));
        assert(d.skip(i - 1)[0] == d[i - 1]);
    }
}

proof fn lemma_prefix_sum_bounds(d: Seq<usize>, i: nat, j: int)
    requires
        i <= d.len(),
        0 <= j < i,
    ensures
        0 <= d[j] <= prefix_sum(d, i),
    decreases i,
{
    lemma_prefix_sum_nonneg(d, (i - 1) as nat);
    if j < i - 1 {
        lemma_prefix_sum_bounds(d, (i - 1) as nat, j);
    }
}

proof fn lemma_prefix_sum_nonneg(d: Seq<usize>, i: nat)
    requires
        i <= d.len(),
    ensures
        0 <= prefix_sum(d, i),
    decreases i,
{
    if i > 0 {
        lemma_prefix_sum_nonneg(d, (i - 1) as nat);
    }
}

proof fn lemma_prefix_sum_monotone(d: Seq<usize>, i: nat, j: nat)
    requires
        i <= j <= d.len(),
    ensures
        prefix_sum(d, i) <= prefix_sum(d, j),
    decreases j,
{
    if i < j {
        lemma_prefix_sum_monotone(d, i, (j - 1) as nat);
    }
}

/// One split's attachments put its amounts into play: positive amounts of the given type, each
/// on one of the targets, adding up to the split's first `i` amounts.
proof fn lemma_attachments_of(
    dist: Seq<usize>,
    targets: Seq<usize>,
    e: EnergyType,
    i: nat,
    bound: int,
)
    requires
        i <= dist.len(),
        i <= targets.len(),
        prefix_sum(dist, dist.len()) <= bound <= u32::MAX,
    ensures
        attached_total(attachments_of(dist, targets, e, i)) == prefix_sum(dist, i),
        forall|j: int|
            0 <= j < attachments_of(dist, targets, e, i).len() ==> {
                let x = #[trigger] attachments_of(dist, targets, e, i)[j];
                &&& x.0 > 0
                &&& x.1 == e
                &&& targets.contains(x.2)
            },
    decreases i,
{
    if i > 0 {
        let k = (i - 1) as nat;
        lemma_attachments_of(dist, targets, e, k, bound);
        lemma_prefix_sum_bounds(dist, i, k as int);
        lemma_prefix_sum_monotone(dist, i, dist.len());
        let rest = attachments_of(dist, targets, e, k);
        if dist[k as int] > 0 {
            let x = (dist[k as int] as u32, e, targets[k as int]);
            assert(rest.push(x).drop_last() =~= rest);
            assert(targets[k as int] == x.2);
            assert forall|j: int| 0 <= j < rest.push(x).len() implies {
                let y = #[trigger] rest.push(x)[j];
                &&& y.0 > 0
                &&& y.1 == e
                &&& targets.contains(y.2)
            } by {
                if j < rest.len() {
                    assert(rest.push(x)[j] == rest[j]);
                }
            }
        }
    }
}

/// Every choice built from splits that each put `n` Energy over all the targets attaches `n`
/// Energy of type `e` to the targets, in positive amounts, none of it from the Energy Zone.
proof fn lemma_attach_choices(dists: Seq<Seq<usize>>, targets: Seq<usize>, e: EnergyType, n: nat)
    requires
        n <= u32::MAX,
        forall|i: int|
            0 <= i < dists.len() ==> (#[trigger] dists[i]).len() == targets.len() && seq_sum(
                dists[i],
            ) == n,
    ensures
        forall|c: int|
            0 <= c < attach_choices(dists, targets, e).len() ==> #[trigger] choice_attaches(
                attach_choices(dists, targets, e)[c],
                targets,
                e,
                n,
            ),
    decreases dists.len(),
{
    if dists.len() > 0 {
        let rest = dists.drop_last();
        lemma_attach_choices(rest, targets, e, n);
        let d = dists.last();
        assert(d == dists[dists.len() - 1]);
        lemma_prefix_sum_is_sum(d, d.len());
        assert(d.skip(d.len() as int) =~= Seq::<usize>::empty());
        let a = attachments_of(d, targets, e, targets.len());
        lemma_attachments_of(d, targets, e, targets.len(), n as int);
        let prev = attach_choices(rest, targets, e);
        if a.len() > 0 {
            let x = SimpleActionView::Attach { attachments: a, is_turn_energy: false };
            assert forall|c: int| 0 <= c < prev.push(x).len() implies #[trigger] choice_attaches(
                prev.push(x)[c],
                targets,
                e,
                n,
            ) by {
                if c < prev.len() {
                    assert(prev.push(x)[c] == prev[c]);
                }
            }
        }
    }
}

/// `choice` attaches exactly `n` Energy of type `e`, in positive amounts, each to one of
/// `targets`, and not from the Energy Zone.
pub open spec fn choice_attaches(
    choice: SimpleActionView,
    targets: Seq<usize>,
    e: EnergyType,
    n: nat,
) -> bool {
    match choice {
        SimpleActionView::Attach { attachments, is_turn_energy } => {
            &&& !is_turn_energy
            &&& attached_total(attachments) == n
            &&& forall|j: int|
                0 <= j < attachments.len() ==> {
                    let x = #[trigger] attachments[j];
                    &&& x.0 > 0
                    &&& x.1 == e
                    &&& targets.contains(x.2)
                }
        },
        _ => false,
    }
}

/// Each choice that `energy_any_way_choices` offers attaches all `count` Energy: the amounts
/// are positive, of the given type, on the given targets, and add up to `count`.
pub proof fn law_each_choice_attaches_all_energy(targets: Seq<usize>, e: EnergyType, count: nat)
    requires
        count <= u32::MAX,
        targets.len() > 0,
        count > 0,
    ensures
        forall|c: int|
            0 <= c < attach_choices(compositions(targets.len(), count), targets, e).len()
                ==> #[trigger] choice_attaches(
                attach_choices(compositions(targets.len(), count), targets, e)[c],
                targets,
                e,
                count,
            ),
{
    lemma_compositions_shape(targets.len(), count);
    lemma_attach_choices(compositions(targets.len(), count), targets, e, count);
}

/// Every split puts some Energy down when there is Energy to split, so each becomes a choice.
proof fn lemma_attach_choices_len(dists: Seq<Seq<usize>>, targets: Seq<usize>, e: EnergyType, n: nat)
    requires
        0 < n <= u32::MAX,
        forall|i: int|
            0 <= i < dists.len() ==> (#[trigger] dists[i]).len() == targets.len() && seq_sum(
                dists[i],
            ) == n,
    ensures
        attach_choices(dists, targets, e).len() == dists.len(),
    decreases dists.len(),
{
    if dists.len() > 0 {
        let rest = dists.drop_last();
        lemma_attach_choices_len(rest, targets, e, n);
        let d = dists.last();
        assert(d == dists[dists.len() - 1]);
        lemma_prefix_sum_is_sum(d, d.len());
        assert(d.skip(d.len() as int) =~= Seq::<usize>::empty());
        lemma_attachments_of(d, targets, e, targets.len(), n as int);
        let a = attachments_of(d, targets, e, targets.len());
        if a.len() == 0 {
            assert(attached_total(a) == 0);
        }
    }
}

/// `n` choose `r`, by Pascal's rule.
pub open spec fn binomial(n: nat, r: nat) -> nat
    decreases n,
{
    if r == 0 {
        1
    } else if n == 0 {
        0
    } else {
        binomial((n - 1) as nat, (r - 1) as nat) + binomial((n - 1) as nat, r)
    }
}

proof fn lemma_binomial_above(n: nat, r: nat)
    requires
        r > n,
    ensures
        binomial(n, r) == 0,
    decreases n,
{
    if n > 0 {
        lemma_binomial_above((n - 1) as nat, (r - 1) as nat);
        lemma_binomial_above((n - 1) as nat, r);
    }
}

proof fn lemma_binomial_diagonal(n: nat)
    ensures
        binomial(n, n) == 1,
    decreases n,
{
    if n > 0 {
        lemma_binomial_diagonal((n - 1) as nat);
        lemma_binomial_above((n - 1) as nat, n);
    }
}

/// How many splits `compositions_upto(k, n, a)` lists: those of the rest after each first
/// amount below `a`.
pub open spec fn upto_count(k: nat, n: nat, a: nat) -> nat
    decreases a,
{
    if a == 0 {
        0
    } else {
        upto_count(k, n, (a - 1) as nat) + compositions((k - 1) as nat, (n - (a - 1)) as nat).len()
    }
}

proof fn lemma_upto_len(k: nat, n: nat, a: nat)
    requires
        k > 0,
        a <= n + 1,
    ensures
        compositions_upto(k, n, a).len() == upto_count(k, n, a),
    decreases a,
{
    if a > 0 {
        lemma_upto_len(k, n, (a - 1) as nat);
    }
}

proof fn lemma_upto_count_shift(k: nat, n: nat, a: nat)
    requires
        k > 0,
        n > 0,
        1 <= a <= n + 1,
    ensures
        upto_count(k, n, a) == compositions((k - 1) as nat, n).len() + upto_count(
            k,
            (n - 1) as nat,
            (a - 1) as nat,
        ),
    decreases a,
{
    let c = compositions((k - 1) as nat, n).len();
    if a == 1 {
        assert(upto_count(k, n, 1) == upto_count(k, n, 0) + compositions((k - 1) as nat, n).len());
        assert(upto_count(k, (n - 1) as nat, 0) == 0);
    } else {
        lemma_upto_count_shift(k, n, (a - 1) as nat);
        let m: nat = (n - (a - 1)) as nat;
        assert(upto_count(k, n, a) == upto_count(k, n, (a - 1) as nat) + compositions(
            (k - 1) as nat,
            m,
        ).len());
        assert(upto_count(k, (n - 1) as nat, (a - 1) as nat) == upto_count(
            k,
            (n - 1) as nat,
            (a - 2) as nat,
        ) + compositions((k - 1) as nat, (((n - 1) as nat) - ((a - 1) as nat - 1)) as nat).len());
        assert((((n - 1) as nat) - ((a - 1) as nat - 1)) as nat == m);
    }
}

/// The number of splits of `n` Energy over `k >= 1` Pokémon is `n + k - 1` choose `k - 1`.
proof fn lemma_compositions_count(k: nat, n: nat)
    requires
        k >= 1,
    ensures
        compositions(k, n).len() == binomial((n + k - 1) as nat, (k - 1) as nat),
    decreases k, n,
{
    if n == 0 {
        lemma_binomial_diagonal((k - 1) as nat);
        assert(compositions(k, 0).len() == 1);
    } else {
        let n1 = (n - 1) as nat;
        assert(compositions(k, n) == compositions_upto(k, n, n + 1));
        lemma_upto_len(k, n, n + 1);
        lemma_upto_count_shift(k, n, n + 1);
        assert(compositions(k, n).len() == compositions((k - 1) as nat, n).len() + upto_count(
            k,
            n1,
            n,
        ));
        if n1 == 0 {
            assert(upto_count(k, 0, 1) == upto_count(k, 0, 0) + compositions((k - 1) as nat, 0).len());
            assert(compositions((k - 1) as nat, 0).len() == 1);
            assert(compositions(k, 0).len() == 1);
        } else {
            assert(compositions(k, n1) == compositions_upto(k, n1, n1 + 1));
            lemma_upto_len(k, n1, n1 + 1);
        }
        assert(upto_count(k, n1, n) == compositions(k, n1).len());
        lemma_compositions_count(k, n1);
        if k == 1 {
            assert(compositions(0, n).len() == 0);
            assert(binomial(n, 0) == 1);
            assert(binomial(n1, 0) == 1);
        } else {
            lemma_compositions_count((k - 1) as nat, n);
            let top = (n + k - 1) as nat;
            assert(binomial(top, (k - 1) as nat) == binomial((top - 1) as nat, (k - 2) as nat)
                + binomial((top - 1) as nat, (k - 1) as nat));
        }
    }
}

/// `energy_any_way_choices` offers one choice per split of the Energy: `count + n - 1` choose
/// `n - 1` of them for `n` targets, and none when there is no target or no Energy.
pub proof fn law_choice_count(targets: Seq<usize>, e: EnergyType, count: nat)
    requires
        count <= u32::MAX,
    ensures
        (if targets.len() == 0 || count == 0 {
            Seq::<SimpleActionView>::empty()
        } else {
            attach_choices(compositions(targets.len(), count), targets, e)
        }).len() == (if targets.len() == 0 || count == 0 {
            0
        } else {
            binomial((count + targets.len() - 1) as nat, (targets.len() - 1) as nat)
        }),
{
    if targets.len() > 0 && count > 0 {
        lemma_compositions_shape(targets.len(), count);
        lemma_attach_choices_len(compositions(targets.len(), count), targets, e, count);
        lemma_compositions_count(targets.len(), count);
    }
}

proof fn lemma_upto_distinct(k: nat, n: nat, a: nat)
    requires
        k > 0,
        a <= n + 1,
        n <= usize::MAX,
    ensures
        compositions_upto(k, n, a).no_duplicates(),
        forall|i: int|
            0 <= i < compositions_upto(k, n, a).len() ==> (#[trigger] compositions_upto(
                k,
                n,
                a,
            )[i])[0] < a,
    decreases k, a,
{
    lemma_compositions_upto_shape(k, n, a);
    if a > 0 {
        lemma_upto_distinct(k, n, (a - 1) as nat);
        let left = compositions_upto(k, n, (a - 1) as nat);
        let sub = compositions((k - 1) as nat, (n - (a - 1)) as nat);
        lemma_compositions_distinct((k - 1) as nat, (n - (a - 1)) as nat);
        let head = seq![(a - 1) as usize];
        let right = prefixed(sub, head);
        let whole = left + right;
        assert(compositions_upto(k, n, a) == whole);
        assert forall|i: int| 0 <= i < right.len() implies (#[trigger] right[i])[0] == a - 1 by {
            assert(right[i] == head + sub[i]);
        }
        assert forall|i: int| 0 <= i < whole.len() implies (#[trigger] whole[i])[0] < a by {
            if i >= left.len() {
                assert(whole[i] == right[i - left.len()]);
            }
        }
        assert forall|i: int, j: int| 0 <= i < j < whole.len() implies whole[i] != whole[j] by {
            if j < left.len() {
            } else if i < left.len() {
                assert(whole[j] == right[j - left.len()]);
                assert(whole[j][0] == a - 1);
            } else {
                let (x, y) = (i - left.len(), j - left.len());
                assert(whole[i] == head + sub[x]);
                assert(whole[j] == head + sub[y]);
                if whole[i] == whole[j] {
                    assert((head + sub[x]).skip(1) =~= sub[x]);
                    assert((head + sub[y]).skip(1) =~= sub[y]);
                }
            }
        }
    }
}

/// No split of `n` over `k` is listed twice.
proof fn lemma_compositions_distinct(k: nat, n: nat)
    requires
        n <= usize::MAX,
    ensures
        compositions(k, n).no_duplicates(),
    decreases k, n + 2,
{
    if n > 0 && k > 0 {
        lemma_upto_distinct(k, n, n + 1);
    }
}

/// The targets of the attachments of the first `i` amounts are among the first `i` targets.
proof fn lemma_attachment_targets(d: Seq<usize>, t: Seq<usize>, e: EnergyType, i: nat)
    requires
        i <= d.len(),
        i <= t.len(),
    ensures
        forall|j: int|
            0 <= j < attachments_of(d, t, e, i).len() ==> (exists|m: int|
                0 <= m < i && t[m] == (#[trigger] attachments_of(d, t, e, i)[j]).2),
    decreases i,
{
    if i > 0 {
        let k = (i - 1) as nat;
        lemma_attachment_targets(d, t, e, k);
        let rest = attachments_of(d, t, e, k);
        if d[k as int] > 0 {
            let x = (d[k as int] as u32, e, t[k as int]);
            assert forall|j: int| 0 <= j < rest.push(x).len() implies exists|m: int|
                0 <= m < i && t[m] == (#[trigger] rest.push(x)[j]).2 by {
                if j < rest.len() {
                    assert(rest.push(x)[j] == rest[j]);
                    let m = choose|m: int| 0 <= m < k && t[m] == rest[j].2;
                } else {
                    assert(t[k as int] == rest.push(x)[j].2);
                }
            }
        }
    }
}

/// With distinct targets, the attachments give back the amounts they were built from.
proof fn lemma_attachments_injective(
    d1: Seq<usize>,
    d2: Seq<usize>,
    t: Seq<usize>,
    e: EnergyType,
    i: nat,
)
    requires
        t.no_duplicates(),
        i <= t.len(),
        i <= d1.len(),
        i <= d2.len(),
        forall|j: int| 0 <= j < d1.len() ==> d1[j] <= u32::MAX,
        forall|j: int| 0 <= j < d2.len() ==> d2[j] <= u32::MAX,
        attachments_of(d1, t, e, i) == attachments_of(d2, t, e, i),
    ensures
        forall|j: int| 0 <= j < i ==> d1[j] == d2[j],
    decreases i,
{
    if i > 0 {
        let k = (i - 1) as nat;
        let r1 = attachments_of(d1, t, e, k);
        let r2 = attachments_of(d2, t, e, k);
        lemma_attachment_targets(d1, t, e, k);
        lemma_attachment_targets(d2, t, e, k);
        if d1[k as int] > 0 && d2[k as int] > 0 {
            let x1 = (d1[k as int] as u32, e, t[k as int]);
            let x2 = (d2[k as int] as u32, e, t[k as int]);
            assert(r1.push(x1).last() == x1);
            assert(r2.push(x2).last() == x2);
            assert(r1.push(x1).drop_last() =~= r1);
            assert(r2.push(x2).drop_last() =~= r2);
            lemma_attachments_injective(d1, d2, t, e, k);
        } else if d1[k as int] > 0 {
            let x1 = (d1[k as int] as u32, e, t[k as int]);
            assert(r1.push(x1).last() == x1);
            assert(r2.len() > 0);
            assert(r2[r2.len() - 1] == x1);
            let m = choose|m: int| 0 <= m < k && t[m] == r2[r2.len() - 1].2;
            assert(t[m] == t[k as int]);
        } else if d2[k as int] > 0 {
            let x2 = (d2[k as int] as u32, e, t[k as int]);
            assert(r2.push(x2).last() == x2);
            assert(r1.len() > 0);
            assert(r1[r1.len() - 1] == x2);
            let m = choose|m: int| 0 <= m < k && t[m] == r1[r1.len() - 1].2;
            assert(t[m] == t[k as int]);
        } else {
            lemma_attachments_injective(d1, d2, t, e, k);
        }
    }
}

/// When every split attaches something, the choice at `c` is the one built from split `c`.
proof fn lemma_attach_choices_index(
    dists: Seq<Seq<usize>>,
    targets: Seq<usize>,
    e: EnergyType,
    n: nat,
)
    requires
        0 < n <= u32::MAX,
        forall|i: int|
            0 <= i < dists.len() ==> (#[trigger] dists[i]).len() == targets.len() && seq_sum(
                dists[i],
            ) == n,
    ensures
        attach_choices(dists, targets, e).len() == dists.len(),
        forall|c: int|
            0 <= c < dists.len() ==> #[trigger] attach_choices(dists, targets, e)[c]
                == (SimpleActionView::Attach {
                attachments: attachments_of(dists[c], targets, e, targets.len()),
                is_turn_energy: false,
            }),
    decreases dists.len(),
{
    lemma_attach_choices_len(dists, targets, e, n);
    if dists.len() > 0 {
        let rest = dists.drop_last();
        lemma_attach_choices_index(rest, targets, e, n);
        assert forall|c: int| 0 <= c < dists.len() implies #[trigger] attach_choices(
            dists,
            targets,
            e,
        )[c] == SimpleActionView::Attach {
            attachments: attachments_of(dists[c], targets, e, targets.len()),
            is_turn_energy: false,
        } by {
            if c < rest.len() {
                assert(rest[c] == dists[c]);
            }
        }
    }
}

/// With distinct targets, no two choices that `energy_any_way_choices` offers are the same.
pub proof fn law_choices_are_distinct(targets: Seq<usize>, e: EnergyType, count: nat)
    requires
        targets.no_duplicates(),
        targets.len() > 0,
        0 < count <= u32::MAX,
    ensures
        attach_choices(compositions(targets.len(), count), targets, e).no_duplicates(),
{
    let dists = compositions(targets.len(), count);
    lemma_compositions_shape(targets.len(), count);
    lemma_compositions_distinct(targets.len(), count);
    lemma_attach_choices_index(dists, targets, e, count);
    let ch = attach_choices(dists, targets, e);
    assert forall|i: int, j: int| 0 <= i < j < ch.len() implies ch[i] != ch[j] by {
        if ch[i] == ch[j] {
            let (d1, d2) = (dists[i], dists[j]);
            assert(ch[i] == SimpleActionView::Attach {
                attachments: attachments_of(d1, targets, e, targets.len()),
                is_turn_energy: false,
            });
            assert(ch[j] == SimpleActionView::Attach {
                attachments: attachments_of(d2, targets, e, targets.len()),
                is_turn_energy: false,
            });
            lemma_split_amounts_fit(d1, count);
            lemma_split_amounts_fit(d2, count);
            lemma_attachments_injective(d1, d2, targets, e, targets.len());
            assert(d1 =~= d2);
        }
    }
}

/// Each amount of a split of `n` is at most `n`.
proof fn lemma_split_amounts_fit(d: Seq<usize>, n: nat)
    requires
        seq_sum(d) == n,
    ensures
        forall|j: int| 0 <= j < d.len() ==> d[j] <= n,
    decreases d.len(),
{
    if d.len() > 0 {
        lemma_seq_sum_nonneg(d.drop_first());
        assert(seq_sum(d.drop_first()) == n - d[0]);
        lemma_split_amounts_fit(d.drop_first(), (n - d[0]) as nat);
        assert forall|j: int| 0 <= j < d.len() implies d[j] <= n by {
            if j > 0 {
                assert(d[j] == d.drop_first()[j - 1]);
            }
        }
    }
}

proof fn lemma_seq_sum_nonneg(d: Seq<usize>)
    ensures
        seq_sum(d) >= 0,
    decreases d.len(),
{
    if d.len() > 0 {
        lemma_seq_sum_nonneg(d.drop_first());
    }
}


/// Every way to attach `count` Energy of `energy_type` to the Pokémon at `target_indices`,
/// one `Attach` choice per split; nothing when there is no target or no Energy.
pub fn energy_any_way_choices(
    target_indices: &[usize],
    energy_type: EnergyType,
    count: usize,
) -> (r: Vec<SimpleAction>)
    ensures
        actions_view(r@) == (if target_indices@.len() == 0 || count == 0 {
            Seq::empty()
        } else {
            attach_choices(
                compositions(target_indices@.len(), count as nat),
                target_indices@,
                energy_type,
            )
        }),
{
    if target_indices.len() == 0 || count == 0 {
        let r = Vec::new();
        assert(actions_view(r@) =~= Seq::<SimpleActionView>::empty());
        return r;
    }
    let mut distributions: Vec<Vec<usize>> = Vec::new();
    let mut current: Vec<usize> = Vec::new();
    let mut z: usize = 0;
    while z < target_indices.len()
        invariant
            z <= target_indices@.len(),
            current@.len() == z,
            forall|j: int| 0 <= j < z ==> current@[j] == 0,
        decreases target_indices.len() - z,
    {
        current.push(0);
        z += 1;
    }
    generate_distributions(target_indices, count, 0, &mut current, &mut distributions);
    let ghost dists = compositions(target_indices@.len(), count as nat);
    proof {
        lemma_compositions_shape(target_indices@.len(), count as nat);
        assert(current@.take(0) =~= Seq::<usize>::empty());
        assert(prefixed(dists, Seq::<usize>::empty()) =~= dists) by {
            assert forall|i: int| 0 <= i < dists.len() implies Seq::<usize>::empty() + dists[i]
                =~= dists[i] by {}
        }
        assert(vecs_view(distributions@) =~= dists);
    }
    let mut choices: Vec<SimpleAction> = Vec::new();
    let mut d: usize = 0;
    while d < distributions.len()
        invariant
            d <= distributions@.len(),
            vecs_view(distributions@) == dists,
            forall|j: int| 0 <= j < dists.len() ==> (#[trigger] dists[j]).len() == target_indices@.len(),
            actions_view(choices@) == attach_choices(
                dists.take(d as int),
                target_indices@,
                energy_type,
            ),
        decreases distributions.len() - d,
    {
        let dist = &distributions[d];
        assert(dist@ == dists[d as int]);
        let mut attachments: Vec<(u32, EnergyType, usize)> = Vec::new();
        let mut i: usize = 0;
        while i < target_indices.len()
            invariant
                i <= target_indices@.len(),
                dist@ == dists[d as int],
                d < distributions@.len(),
                vecs_view(distributions@) == dists,
                dist@.len() == target_indices@.len(),
                attachments@ == attachments_of(dist@, target_indices@, energy_type, i as nat),
            decreases target_indices.len() - i,
        {
            if dist[i] > 0 {
                attachments.push((#[verifier::truncate] (dist[i] as u32), energy_type, target_indices[i]));
            }
            i += 1;
        }
        proof {
            assert(dists.take(d + 1).drop_last() =~= dists.take(d as int));
            assert(dists.take(d + 1).last() == dists[d as int]);
        }
        if attachments.len() > 0 {
            let ghost before = choices@;
            let ghost av = attachments@;
            choices.push(SimpleAction::Attach { attachments, is_turn_energy: false });
            assert(actions_view(choices@) =~= actions_view(before).push(
                SimpleActionView::Attach { attachments: av, is_turn_energy: false },
            ));
        }
        d += 1;
    }
    assert(dists.take(distributions@.len() as int) =~= dists);
    choices
}

/// Slots of player `p` whose Pokémon's printed type is `e`.
pub open spec fn typed_slot(state: &State, p: int, e: EnergyType) -> spec_fn(usize) -> bool {
    |i: usize|
        match state.slot(p, i as int) {
            Some(c) => c.card.energy_type() == Some(e),
            None => false,
        }
}

/// The slots, in order, of `player`'s Pokémon in play whose printed type is `energy_type`.
pub fn collect_in_play_indices_by_type(
    state: &State,
    player: usize,
    energy_type: EnergyType,
) -> (r: Vec<usize>)
    requires
        player < 2,
    ensures
        r@ == slot_range(4).filter(typed_slot(state, player as int, energy_type)),
{
    let mut r: Vec<usize> = Vec::new();
    let mut i: usize = 0;
    while i < 4
        invariant
            i <= 4,
            player < 2,
            r@ == slot_range(i as nat).filter(typed_slot(state, player as int, energy_type)),
        decreases 4 - i,
    {
        proof {
            lemma_slot_range_filter_step(i as nat, typed_slot(state, player as int, energy_type));
        }
        match &state.in_play_pokemon[player][i] {
            Some(c) => {
                if c.get_energy_type() == Some(energy_type) {
                    r.push(i);
                }
            },
            None => {},
        }
        i += 1;
    }
    r
}

/// Energy attached to the Pokémon in slot `i` of player `p` (none for an empty slot).
pub open spec fn slot_energy_count(state: &State, p: int, i: int) -> int {
    match state.slot(p, i) {
        Some(c) => c.attached_energy.len() as int,
        None => 0,
    }
}

/// Energy attached over the first `n` slots of player `p`.
pub open spec fn energy_in_slots(state: &State, p: int, n: nat) -> int
    decreases n,
{
    if n == 0 {
        0
    } else {
        energy_in_slots(state, p, (n - 1) as nat) + slot_energy_count(state, p, n - 1)
    }
}

pub proof fn lemma_energy_in_slots_monotone(state: &State, p: int, n: nat, m: nat)
    requires
        n <= m,
    ensures
        0 <= energy_in_slots(state, p, n) <= energy_in_slots(state, p, m),
    decreases m,
{
    if n < m {
        lemma_energy_in_slots_monotone(state, p, n, (m - 1) as nat);
    } else if n > 0 {
        lemma_energy_in_slots_monotone(state, p, (n - 1) as nat, (n - 1) as nat);
    }
}

/// The total Energy attached across `player`'s Pokémon in play: the move budget of Energy
/// Blender, since no Energy ever has to move twice to reach a given board.
pub fn total_attached_energy(state: &State, player: usize) -> (r: usize)
    requires
        player < 2,
        energy_in_slots(state, player as int, 4) <= usize::MAX,
    ensures
        r == energy_in_slots(state, player as int, 4),
{
    let mut total: usize = 0;
    let mut i: usize = 0;
    while i < 4
        invariant
            i <= 4,
            player < 2,
            energy_in_slots(state, player as int, 4) <= usize::MAX,
            total == energy_in_slots(state, player as int, i as nat),
        decreases 4 - i,
    {
        proof {
            lemma_energy_in_slots_monotone(state, player as int, (i + 1) as nat, 4);
        }
        match &state.in_play_pokemon[player][i] {
            Some(c) => {
                total += c.attached_energy.len();
            },
            None => {},
        }
        i += 1;
    }
    total
}

/// `distinct(s)`: the types of `s` in order of first occurrence.
pub open spec fn distinct_types(s: Seq<EnergyType>) -> Seq<EnergyType> {
    push_missing(Seq::empty(), s)
}

/// Adding one element at the end of `rest` adds it to the result unless already present.
pub proof fn lemma_push_missing_push(acc: Seq<EnergyType>, rest: Seq<EnergyType>, x: EnergyType)
    ensures
        push_missing(acc, rest.push(x)) == (if push_missing(acc, rest).contains(x) {
            push_missing(acc, rest)
        } else {
            push_missing(acc, rest).push(x)
        }),
    decreases rest.len(),
{
    if rest.len() == 0 {
        assert(rest.push(x).drop_first() =~= Seq::<EnergyType>::empty());
        let next0 = if acc.contains(x) {
            acc
        } else {
            acc.push(x)
        };
        assert(push_missing(next0, Seq::<EnergyType>::empty()) == next0);
        assert(rest.push(x)[0] == x);
        assert(push_missing(acc, rest) == acc);
    } else {
        let next = if acc.contains(rest[0]) {
            acc
        } else {
            acc.push(rest[0])
        };
        assert(rest.push(x).drop_first() =~= rest.drop_first().push(x));
        assert(rest.push(x)[0] == rest[0]);
        lemma_push_missing_push(next, rest.drop_first(), x);
        assert(push_missing(acc, rest) == push_missing(next, rest.drop_first()));
        assert(push_missing(acc, rest.push(x)) == push_missing(next, rest.push(x).drop_first()));
    }
}

/// Moves of one Energy of type `e` from slot `from` to each other slot of `tos`.
pub open spec fn moves_to(from: usize, e: EnergyType, tos: Seq<usize>, rm: usize) -> Seq<
    SimpleActionView,
>
    decreases tos.len(),
{
    if tos.len() == 0 {
        Seq::empty()
    } else {
        let rest = moves_to(from, e, tos.drop_last(), rm);
        if tos.last() == from {
            rest
        } else {
            rest.push(
                SimpleActionView::MoveEnergyAndReoffer {
                    from_in_play_idx: from,
                    to_in_play_idx: tos.last(),
                    energy_type: e,
                    remaining_moves: (rm - 1) as usize,
                },
            )
        }
    }
}

/// Moves from slot `from` for each type of `types`, in order.
pub open spec fn moves_of_types(
    from: usize,
    types: Seq<EnergyType>,
    tos: Seq<usize>,
    rm: usize,
) -> Seq<SimpleActionView>
    decreases types.len(),
{
    if types.len() == 0 {
        Seq::empty()
    } else {
        moves_of_types(from, types.drop_last(), tos, rm) + moves_to(from, types.last(), tos, rm)
    }
}

/// The occupied slots of player `p`, in order.
pub open spec fn occupied_slot(state: &State, p: int) -> spec_fn(usize) -> bool {
    |i: usize| state.slot(p, i as int) is Some
}

pub open spec fn occupied_slots(state: &State, p: int) -> Seq<usize> {
    slot_range(4).filter(occupied_slot(state, p))
}

/// The attached Energy of slot `i` of player `p`.
pub open spec fn slot_energy(state: &State, p: int, i: int) -> Seq<EnergyType> {
    match state.slot(p, i) {
        Some(c) => c.attached_energy,
        None => Seq::empty(),
    }
}

/// Every single-Energy move out of the slots `froms`, in order.
pub open spec fn blender_moves(state: &State, p: int, froms: Seq<usize>, rm: usize) -> Seq<
    SimpleActionView,
>
    decreases froms.len(),
{
    if froms.len() == 0 {
        Seq::empty()
    } else {
        let from = froms.last();
        blender_moves(state, p, froms.drop_last(), rm) + moves_of_types(
            from,
            distinct_types(slot_energy(state, p, from as int)),
            occupied_slots(state, p),
            rm,
        )
    }
}

/// Delcatty's Energy Blender: every single-Energy move between two distinct Pokémon of
/// `player` (each type once per source), then `Noop` to stop; nothing once no move is possible
/// or the budget is spent.
pub open spec fn spec_energy_blender_choices(state: &State, p: int, rm: usize) -> Seq<
    SimpleActionView,
> {
    if rm == 0 {
        Seq::empty()
    } else {
        let m = blender_moves(state, p, occupied_slots(state, p), rm);
        if m.len() == 0 {
            m
        } else {
            m.push(SimpleActionView::Noop)
        }
    }
}

/// Every entry is a move of one Energy.
pub open spec fn all_moves(s: Seq<SimpleActionView>) -> bool {
    forall|i: int| 0 <= i < s.len() ==> (#[trigger] s[i]) is MoveEnergyAndReoffer
}

proof fn lemma_moves_to_are_moves(from: usize, e: EnergyType, tos: Seq<usize>, rm: usize)
    ensures
        all_moves(moves_to(from, e, tos, rm)),
    decreases tos.len(),
{
    if tos.len() > 0 {
        lemma_moves_to_are_moves(from, e, tos.drop_last(), rm);
        let rest = moves_to(from, e, tos.drop_last(), rm);
        if tos.last() != from {
            let x = SimpleActionView::MoveEnergyAndReoffer {
                from_in_play_idx: from,
                to_in_play_idx: tos.last(),
                energy_type: e,
                remaining_moves: (rm - 1) as usize,
            };
            assert forall|i: int| 0 <= i < rest.push(x).len() implies (#[trigger] rest.push(
                x,
            )[i]) is MoveEnergyAndReoffer by {
                if i < rest.len() {
                    assert(rest.push(x)[i] == rest[i]);
                }
            }
        }
    }
}

proof fn lemma_all_moves_concat(a: Seq<SimpleActionView>, b: Seq<SimpleActionView>)
    requires
        all_moves(a),
        all_moves(b),
    ensures
        all_moves(a + b),
{
    assert forall|i: int| 0 <= i < (a + b).len() implies (#[trigger] (a + b)[i])
        is MoveEnergyAndReoffer by {
        if i >= a.len() {
            assert((a + b)[i] == b[i - a.len()]);
        }
    }
}

proof fn lemma_moves_of_types_are_moves(from: usize, types: Seq<EnergyType>, tos: Seq<usize>, rm: usize)
    ensures
        all_moves(moves_of_types(from, types, tos, rm)),
    decreases types.len(),
{
    if types.len() > 0 {
        lemma_moves_of_types_are_moves(from, types.drop_last(), tos, rm);
        lemma_moves_to_are_moves(from, types.last(), tos, rm);
        lemma_all_moves_concat(
            moves_of_types(from, types.drop_last(), tos, rm),
            moves_to(from, types.last(), tos, rm),
        );
    }
}

proof fn lemma_blender_moves_are_moves(state: &State, p: int, froms: Seq<usize>, rm: usize)
    ensures
        all_moves(blender_moves(state, p, froms, rm)),
    decreases froms.len(),
{
    if froms.len() > 0 {
        let from = froms.last();
        lemma_blender_moves_are_moves(state, p, froms.drop_last(), rm);
        let types = distinct_types(slot_energy(state, p, from as int));
        lemma_moves_of_types_are_moves(from, types, occupied_slots(state, p), rm);
        lemma_all_moves_concat(
            blender_moves(state, p, froms.drop_last(), rm),
            moves_of_types(from, types, occupied_slots(state, p), rm),
        );
    }
}

/// Energy Blender offers to stop only once it has offered a move: its choices are either none
/// at all, or one or more Energy moves followed by a single final `Noop`.
pub proof fn law_blender_stops_only_after_a_move(state: &State, p: int, rm: usize)
    ensures
        ({
            let r = spec_energy_blender_choices(state, p, rm);
            r.len() == 0 || (r.len() >= 2 && r.last() == SimpleActionView::Noop && all_moves(
                r.drop_last(),
            ))
        }),
{
    if rm > 0 {
        let m = blender_moves(state, p, occupied_slots(state, p), rm);
        lemma_blender_moves_are_moves(state, p, occupied_slots(state, p), rm);
        if m.len() > 0 {
            assert(m.push(SimpleActionView::Noop).drop_last() =~= m);
        }
    }
}

/// The occupied slots of `player`, in order.
fn occupied(state: &State, player: usize) -> (r: Vec<usize>)
    requires
        player < 2,
    ensures
        r@ == occupied_slots(state, player as int),
{
    let mut r: Vec<usize> = Vec::new();
    let mut i: usize = 0;
    while i < 4
        invariant
            i <= 4,
            player < 2,
            r@ == slot_range(i as nat).filter(occupied_slot(state, player as int)),
        decreases 4 - i,
    {
        proof {
            lemma_slot_range_filter_step(i as nat, occupied_slot(state, player as int));
        }
        if state.in_play_pokemon[player][i].is_some() {
            r.push(i);
        }
        i += 1;
    }
    r
}

/// The choices offered at one step of "move any amount of Energy from your Pokémon in play to
/// your other Pokémon in any way you like".
pub fn energy_blender_choices(state: &State, player: usize, remaining_moves: usize) -> (r: Vec<
    SimpleAction,
>)
    requires
        player < 2,
    ensures
        actions_view(r@) == spec_energy_blender_choices(state, player as int, remaining_moves),
{
    if remaining_moves == 0 {
        let r = Vec::new();
        assert(actions_view(r@) =~= Seq::<SimpleActionView>::empty());
        return r;
    }
    let occupied = occupied(state, player);
    let mut choices: Vec<SimpleAction> = Vec::new();
    let mut f: usize = 0;
    while f < occupied.len()
        invariant
            f <= occupied@.len(),
            player < 2,
            remaining_moves > 0,
            occupied@ == occupied_slots(state, player as int),
            actions_view(choices@) == blender_moves(
                state,
                player as int,
                occupied@.take(f as int),
                remaining_moves,
            ),
        decreases occupied.len() - f,
    {
        let from_in_play_idx = occupied[f];
        proof {
            assert(occupied@.take(f + 1).drop_last() =~= occupied@.take(f as int));
            lemma_filter_member_in_range(state, player as int, f as int);
        }
        let pokemon = match &state.in_play_pokemon[player][from_in_play_idx] {
            Some(c) => c,
            None => unreached(),
        };
        let ghost energy = pokemon.attached_energy@;
        assert(energy == slot_energy(state, player as int, from_in_play_idx as int));
        let ghost base = actions_view(choices@);
        let mut types_seen: Vec<EnergyType> = Vec::new();
        let mut j: usize = 0;
        assert(distinct_types(energy.take(0)) =~= Seq::<EnergyType>::empty()) by {
            assert(energy.take(0) =~= Seq::<EnergyType>::empty());
        }
        while j < pokemon.attached_energy.len()
            invariant
                j <= energy.len(),
                energy == pokemon.attached_energy@,
                remaining_moves > 0,
                types_seen@ == distinct_types(energy.take(j as int)),
                actions_view(choices@) == base + moves_of_types(
                    from_in_play_idx,
                    types_seen@,
                    occupied@,
                    remaining_moves,
                ),
            decreases energy.len() - j,
        {
            let energy_type = pokemon.attached_energy[j];
            proof {
                assert(energy.take(j + 1) =~= energy.take(j as int).push(energy_type));
                lemma_push_missing_push(Seq::empty(), energy.take(j as int), energy_type);
            }
            if !crate::played_card::contains_energy_type(&types_seen, energy_type) {
                let ghost seen_before = types_seen@;
                types_seen.push(energy_type);
                let ghost mid = actions_view(choices@);
                let mut t: usize = 0;
                while t < occupied.len()
                    invariant
                        t <= occupied@.len(),
                        remaining_moves > 0,
                        actions_view(choices@) == mid + moves_to(
                            from_in_play_idx,
                            energy_type,
                            occupied@.take(t as int),
                            remaining_moves,
                        ),
                    decreases occupied.len() - t,
                {
                    let to_in_play_idx = occupied[t];
                    assert(occupied@.take(t + 1).drop_last() =~= occupied@.take(t as int));
                    if to_in_play_idx != from_in_play_idx {
                        let ghost before = choices@;
                        let action = SimpleAction::MoveEnergyAndReoffer {
                            from_in_play_idx,
                            to_in_play_idx,
                            energy_type,
                            remaining_moves: remaining_moves - 1,
                        };
                        let ghost av = action@;
                        choices.push(action);
                        assert(actions_view(choices@) =~= actions_view(before).push(av));
                    }
                    t += 1;
                }
                proof {
                    assert(occupied@.take(occupied@.len() as int) =~= occupied@);
                    assert(types_seen@.drop_last() =~= seen_before);
                }
            }
            j += 1;
        }
        proof {
            assert(energy.take(energy.len() as int) =~= energy);
        }
        f += 1;
    }
    assert(occupied@.take(occupied@.len() as int) =~= occupied@);
    if choices.len() == 0 {
        return choices;
    }
    let ghost before = choices@;
    choices.push(SimpleAction::Noop);
    assert(actions_view(choices@) =~= actions_view(before).push(SimpleActionView::Noop));
    choices
}

/// Each occupied slot is a slot below 4 that holds a Pokémon.
pub proof fn lemma_filter_member_in_range(state: &State, p: int, f: int)
    requires
        0 <= f < occupied_slots(state, p).len(),
    ensures
        occupied_slots(state, p)[f] < 4,
        state.slot(p, occupied_slots(state, p)[f] as int) is Some,
{
    broadcast use vstd::seq_lib::group_filter_ensures;

    let s = slot_range(4);
    let pred = occupied_slot(state, p);
    assert(s.filter(pred).contains(s.filter(pred)[f]));
    let x = s.filter(pred)[f];
    assert(pred(x));
    s.lemma_filter_contains_rev(pred, x);
    let k = choose|k: int| 0 <= k < s.len() && s[k] == x;
    assert(s[k] == k as usize);
}

} // verus!
