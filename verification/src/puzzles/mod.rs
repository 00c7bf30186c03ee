use vstd::prelude::*;

pub mod conditions;
pub mod development;
pub mod knockouts;
pub mod opponent_model;
pub mod safety;
pub mod support;

use crate::actions::{Action, SimpleAction, SimpleActionView};
use crate::database::{get_card_by_enum, spec_card_by_enum, CardId};
use crate::models::{cards_view, Card, Deck, EnergyType};
use crate::state::State;
use crate::text::{decimal_text, usize_text};
use support::{kind_accepts, Acceptable};

verus! {

/// Number of cards every puzzle deck holds.
pub const PUZZLE_DECK_SIZE: usize = 20;

/// One tactical position and the actions that solve it.
pub struct Puzzle {
    /// Stable identifier, also the name used on the report line.
    pub name: &'static str,
    /// One line saying why the accepted action is the move.
    pub why: &'static str,
    /// The position, with player 0 to move.
    pub game: State,
    /// The actions that count as solved. Any one of them passes.
    pub acceptable: Vec<Acceptable>,
}

/// Some entry of `acceptable` accepts the action `a`.
pub open spec fn accepted_by(acceptable: Seq<Acceptable>, a: SimpleActionView) -> bool {
    exists|i: int| 0 <= i < acceptable.len() && kind_accepts(#[trigger] acceptable[i].kind@, a)
}

/// The texts of `parts` joined by " or ".
pub open spec fn join_or(parts: Seq<Seq<char>>) -> Seq<char>
    decreases parts.len(),
{
    if parts.len() == 0 {
        Seq::empty()
    } else if parts.len() == 1 {
        parts[0]
    } else {
        join_or(parts.drop_last()) + " or "@ + parts.last()
    }
}

/// The names of a list of puzzles, in order.
pub open spec fn names_of(s: Seq<Puzzle>) -> Seq<Seq<char>> {
    s.map_values(|p: Puzzle| p.name@)
}

pub open spec fn describes(acceptable: Seq<Acceptable>) -> Seq<Seq<char>> {
    acceptable.map_values(|a: Acceptable| a.describe@)
}

impl Puzzle {
    /// Whether `action` solves this puzzle.
    pub fn is_acceptable(&self, action: &SimpleAction) -> (r: bool)
        ensures
            r == accepted_by(self.acceptable@, action@),
    {
        let mut i: usize = 0;
        while i < self.acceptable.len()
            invariant
                i <= self.acceptable@.len(),
                forall|j: int|
                    0 <= j < i ==> !kind_accepts(#[trigger] self.acceptable@[j].kind@, action@),
            decreases self.acceptable.len() - i,
        {
            if self.acceptable[i].matches(action) {
                return true;
            }
            i += 1;
        }
        false
    }

    /// Human-readable form of the accepted set, for the report line.
    pub fn expectation(&self) -> (r: String)
        ensures
            r@ == join_or(describes(self.acceptable@)),
    {
        let ghost parts = describes(self.acceptable@);
        let mut out = String::new();
        let mut i: usize = 0;
        while i < self.acceptable.len()
            invariant
                i <= self.acceptable@.len(),
                parts == describes(self.acceptable@),
                out@ == join_or(parts.take(i as int)),
            decreases self.acceptable.len() - i,
        {
            assert(parts.take(i + 1).drop_last() =~= parts.take(i as int));
            if i > 0 {
                out.append(" or ");
            } else {
                assert(out@ =~= Seq::<char>::empty());
            }
            out.append(self.acceptable[i].describe());
            i += 1;
            proof {
                if i == 1 {
                    assert(out@ =~= parts.take(1)[0]);
                }
            }
        }
        assert(parts.take(self.acceptable@.len() as int) =~= parts);
        out
    }
}

proof fn lemma_mod_step(i: int, n: int)
    by (nonlinear_arith)
    requires
        n > 0,
        i >= 0,
    ensures
        (i + 1) % n == (if i % n + 1 == n {
            0
        } else {
            i % n + 1
        }),
{
}

/// A deck of `PUZZLE_DECK_SIZE` cards built by repeating `ids`, with the given Energy types.
pub open spec fn spec_puzzle_deck_cards(ids: Seq<CardId>) -> Seq<crate::models::CardView> {
    Seq::new(PUZZLE_DECK_SIZE as nat, |i: int| spec_card_by_enum(ids[i % (ids.len() as int)]))
}

/// A 20-card deck built by repeating `ids` until it is full. The Energy Zone cannot generate
/// Colorless or Dragon, so a puzzle deck may only declare Energy it can.
pub fn puzzle_deck(ids: &Vec<CardId>, energy: &Vec<EnergyType>) -> (r: Deck)
    requires
        ids.len() > 0,
        forall|i: int| 0 <= i < energy.len() ==> #[trigger] energy@[i] != EnergyType::Colorless && energy@[i] != EnergyType::Dragon,
    ensures
        cards_view(r.cards@) == spec_puzzle_deck_cards(ids@),
        r.energy_types@ == energy@,
{
    let mut cards: Vec<Card> = Vec::new();
    let mut i: usize = 0;
    let mut k: usize = 0;
    while i < PUZZLE_DECK_SIZE
        invariant
            ids.len() > 0,
            i <= PUZZLE_DECK_SIZE,
            k < ids.len(),
            k as int == (i as int) % (ids@.len() as int),
            cards_view(cards@) == spec_puzzle_deck_cards(ids@).take(i as int),
        decreases PUZZLE_DECK_SIZE - i,
    {
        let ghost before = cards@;
        let card = get_card_by_enum(ids[k]);
        cards.push(card);
        proof {
            assert(cards@ =~= before.push(card));
            assert(cards_view(before.push(card)) =~= cards_view(before).push(card@));
            assert(spec_puzzle_deck_cards(ids@)[i as int] == spec_card_by_enum(ids@[k as int]));
            assert(cards_view(cards@) =~= spec_puzzle_deck_cards(ids@).take(i + 1));
        }
        k = if k + 1 == ids.len() {
            0
        } else {
            k + 1
        };
        i += 1;
        proof {
            lemma_mod_step(i - 1, ids@.len() as int);
        }
    }
    assert(spec_puzzle_deck_cards(ids@).take(PUZZLE_DECK_SIZE as int) =~= spec_puzzle_deck_cards(ids@));
    let mut energy_types: Vec<EnergyType> = Vec::new();
    let mut j: usize = 0;
    while j < energy.len()
        invariant
            j <= energy@.len(),
            energy_types@ == energy@.take(j as int),
        decreases energy.len() - j,
    {
        energy_types.push(energy[j]);
        j += 1;
        assert(energy_types@ =~= energy@.take(j as int));
    }
    assert(energy@.take(energy@.len() as int) =~= energy@);
    Deck { cards, energy_types }
}

/// What one bot did on one puzzle.
#[derive(Debug)]
pub struct PuzzleOutcome {
    pub name: &'static str,
    pub why: &'static str,
    /// True when a strict majority of the trials chose an accepted action.
    pub passed: bool,
    /// Trials that chose an accepted action.
    pub votes: usize,
    pub trials: usize,
    /// The distinct actions chosen across the trials, most common first.
    pub chosen: Vec<String>,
    pub expected: String,
}

/// Trials among `choices` that the puzzle accepts.
pub open spec fn vote_count(acceptable: Seq<Acceptable>, choices: Seq<SimpleActionView>) -> nat
    decreases choices.len(),
{
    if choices.len() == 0 {
        0
    } else {
        vote_count(acceptable, choices.drop_last()) + if accepted_by(
            acceptable,
            choices.last(),
        ) {
            1nat
        } else {
            0nat
        }
    }
}

/// How often `label` occurs in `labels`.
pub open spec fn occurrences(labels: Seq<Seq<char>>, label: Seq<char>) -> nat
    decreases labels.len(),
{
    if labels.len() == 0 {
        0
    } else {
        occurrences(labels.drop_last(), label) + if labels.last() == label {
            1nat
        } else {
            0nat
        }
    }
}

/// The distinct labels, in order of first appearance.
pub open spec fn first_seen(labels: Seq<Seq<char>>) -> Seq<Seq<char>>
    decreases labels.len(),
{
    if labels.len() == 0 {
        Seq::empty()
    } else {
        let f = first_seen(labels.drop_last());
        if f.contains(labels.last()) {
            f
        } else {
            f.push(labels.last())
        }
    }
}

/// Each distinct label with how often it was chosen, in order of first appearance.
pub open spec fn tally(labels: Seq<Seq<char>>) -> Seq<(Seq<char>, nat)> {
    first_seen(labels).map_values(|l: Seq<char>| (l, occurrences(labels, l)))
}

/// `x` placed into `s` after every entry counted at least as often, from the back: a stable
/// insertion into a list sorted by count, most first.
pub open spec fn insert_by_count(s: Seq<(Seq<char>, nat)>, x: (Seq<char>, nat)) -> Seq<
    (Seq<char>, nat),
>
    decreases s.len(),
{
    if s.len() == 0 {
        seq![x]
    } else if s.last().1 >= x.1 {
        s.push(x)
    } else {
        insert_by_count(s.drop_last(), x).push(s.last())
    }
}

/// `t` sorted by count, most first; entries with equal counts keep their order.
pub open spec fn sort_by_count(t: Seq<(Seq<char>, nat)>) -> Seq<(Seq<char>, nat)>
    decreases t.len(),
{
    if t.len() == 0 {
        Seq::empty()
    } else {
        insert_by_count(sort_by_count(t.drop_last()), t.last())
    }
}

/// Counts never rise along `s`.
pub open spec fn counts_non_increasing(s: Seq<(Seq<char>, nat)>) -> bool {
    forall|i: int, j: int| 0 <= i < j < s.len() ==> s[i].1 >= s[j].1
}

proof fn lemma_insert_by_count_sorted(s: Seq<(Seq<char>, nat)>, x: (Seq<char>, nat), m: nat)
    requires
        counts_non_increasing(s),
        forall|i: int| 0 <= i < s.len() ==> s[i].1 >= m,
        x.1 >= m,
    ensures
        counts_non_increasing(insert_by_count(s, x)),
        insert_by_count(s, x).len() == s.len() + 1,
        forall|k: int| 0 <= k < insert_by_count(s, x).len() ==> insert_by_count(s, x)[k].1 >= m,
    decreases s.len(),
{
    if s.len() == 0 {
    } else if s.last().1 >= x.1 {
        assert forall|i: int, j: int|
            0 <= i < j < s.push(x).len() implies s.push(x)[i].1 >= s.push(x)[j].1 by {
            if j == s.len() {
                assert(s[i].1 >= s[s.len() - 1].1);
            }
        }
    } else {
        let s2 = s.drop_last();
        let last = s.last();
        assert forall|i: int| 0 <= i < s2.len() implies s2[i].1 >= last.1 by {
            assert(s[i].1 >= s[s.len() - 1].1);
        }
        lemma_insert_by_count_sorted(s2, x, last.1);
        lemma_insert_by_count_sorted(s2, x, m);
        let r = insert_by_count(s2, x);
        assert(insert_by_count(s, x) == r.push(last));
        assert forall|i: int, j: int|
            0 <= i < j < r.push(last).len() implies r.push(last)[i].1 >= r.push(last)[j].1 by {
            if j == r.len() {
                assert(r[i].1 >= last.1);
            } else {
                assert(r[i].1 >= r[j].1);
            }
        }
    }
}

proof fn lemma_sort_by_count_sorted(t: Seq<(Seq<char>, nat)>)
    ensures
        counts_non_increasing(sort_by_count(t)),
        sort_by_count(t).len() == t.len(),
    decreases t.len(),
{
    if t.len() > 0 {
        lemma_sort_by_count_sorted(t.drop_last());
        lemma_insert_by_count_sorted(sort_by_count(t.drop_last()), t.last(), 0);
    }
}

/// The tally of a puzzle run lists the chosen actions most common first: its counts never rise.
pub proof fn law_tally_most_common_first(labels: Seq<Seq<char>>)
    ensures
        counts_non_increasing(sort_by_count(tally(labels))),
{
    lemma_sort_by_count_sorted(tally(labels));
}

/// The report line of one tally entry: the label, then " x" and the count.
pub open spec fn tally_line(e: (Seq<char>, nat)) -> Seq<char> {
    e.0 + " x"@ + decimal_text(e.1)
}

pub open spec fn strings_view(v: Seq<String>) -> Seq<Seq<char>> {
    v.map_values(|s: String| s@)
}

pub open spec fn tally_view(v: Seq<(String, usize)>) -> Seq<(Seq<char>, nat)> {
    v.map_values(|e: (String, usize)| (e.0@, e.1 as nat))
}

proof fn lemma_first_seen_distinct(labels: Seq<Seq<char>>)
    ensures
        first_seen(labels).no_duplicates(),
        forall|l: Seq<char>| #[trigger] first_seen(labels).contains(l) <==> labels.contains(l),
    decreases labels.len(),
{
    if labels.len() > 0 {
        let p = labels.drop_last();
        let x = labels.last();
        let f = first_seen(p);
        lemma_first_seen_distinct(p);
        assert forall|l: Seq<char>| #[trigger] labels.contains(l) <==> (p.contains(l) || l == x) by {
            if labels.contains(l) {
                let i = choose|i: int| 0 <= i < labels.len() && labels[i] == l;
                if i < labels.len() - 1 {
                    assert(p[i] == l);
                }
            }
            if p.contains(l) {
                let i = choose|i: int| 0 <= i < p.len() && p[i] == l;
                assert(labels[i] == l);
            }
            if l == x {
                assert(labels[labels.len() - 1] == l);
            }
        }
        if !f.contains(x) {
            let g = f.push(x);
            assert forall|l: Seq<char>| #[trigger] g.contains(l) <==> (f.contains(l) || l == x) by {
                if f.contains(l) {
                    let i = choose|i: int| 0 <= i < f.len() && f[i] == l;
                    assert(g[i] == l);
                }
                if l == x {
                    assert(g[f.len() as int] == l);
                }
                if g.contains(l) {
                    let i = choose|i: int| 0 <= i < g.len() && g[i] == l;
                    if i < f.len() {
                        assert(f[i] == l);
                    }
                }
            }
            assert forall|i: int, j: int| 0 <= i < g.len() && 0 <= j < g.len() && i != j implies g[i]
                != g[j] by {
                if i < f.len() && j < f.len() {
                } else if i < f.len() {
                    assert(f.contains(g[i]));
                } else {
                    assert(f.contains(g[j]));
                }
            }
        }
    }
}

/// `insert_by_count` is an insertion at the first position past every entry counted at least
/// as often.
proof fn lemma_insert_at(s: Seq<(Seq<char>, nat)>, x: (Seq<char>, nat), p: int)
    requires
        0 <= p <= s.len(),
        forall|q: int| p <= q < s.len() ==> (#[trigger] s[q]).1 < x.1,
        p > 0 ==> s[p - 1].1 >= x.1,
    ensures
        insert_by_count(s, x) == s.insert(p, x),
    decreases s.len(),
{
    if s.len() == 0 {
        assert(s.insert(p, x) =~= seq![x]);
    } else if p == s.len() {
        assert(s.insert(p, x) =~= s.push(x));
    } else {
        assert(s[s.len() - 1].1 < x.1);
        lemma_insert_at(s.drop_last(), x, p);
        assert(s.drop_last().insert(p, x).push(s.last()) =~= s.insert(p, x));
    }
}

/// Counts the votes and tallies the labels.
fn count_choices(
    puzzle: &Puzzle,
    choices: &Vec<SimpleAction>,
    labels: &Vec<String>,
) -> (r: (usize, Vec<(String, usize)>))
    requires
        choices.len() == labels.len(),
    ensures
        r.0 == vote_count(puzzle.acceptable@, choices@.map_values(|a: SimpleAction| a@)),
        tally_view(r.1@) == tally(strings_view(labels@)),
{
    let ghost acts = choices@.map_values(|a: SimpleAction| a@);
    let ghost ls = strings_view(labels@);
    let mut votes: usize = 0;
    let mut counts: Vec<(String, usize)> = Vec::new();
    let mut i: usize = 0;
    while i < choices.len()
        invariant
            choices.len() == labels.len(),
            i <= choices@.len(),
            acts == choices@.map_values(|a: SimpleAction| a@),
            ls == strings_view(labels@),
            votes == vote_count(puzzle.acceptable@, acts.take(i as int)),
            votes <= i,
            tally_view(counts@) == tally(ls.take(i as int)),
        decreases choices.len() - i,
    {
        let ghost pre = ls.take(i as int);
        let ghost post = ls.take(i + 1);
        assert(acts.take(i + 1).drop_last() =~= acts.take(i as int));
        assert(post.drop_last() =~= pre);
        assert(post.last() == labels@[i as int]@);
        if puzzle.is_acceptable(&choices[i]) {
            votes += 1;
        }
        proof {
            lemma_first_seen_distinct(pre);
            lemma_first_seen_distinct(post);
        }
        let label = &labels[i];
        let mut j: usize = 0;
        let mut found = false;
        while j < counts.len()
            invariant_except_break
                !found,
                forall|m: int| 0 <= m < j ==> counts@[m].0@ != label@,
            invariant
                j <= counts@.len(),
            ensures
                found ==> j < counts@.len() && counts@[j as int].0@ == label@,
                !found ==> forall|m: int| 0 <= m < counts@.len() ==> counts@[m].0@ != label@,
            decreases counts.len() - j,
        {
            if counts[j].0 == *label {
                found = true;
                break;
            }
            j += 1;
        }
        let ghost old_counts = counts@;
        proof {
            assert(tally_view(old_counts).len() == first_seen(pre).len());
            assert forall|m: int| 0 <= m < old_counts.len() implies #[trigger] old_counts[m].0@
                == first_seen(pre)[m] by {
                assert(tally_view(old_counts)[m] == tally(pre)[m]);
            }
        }
        if found {
            let c = counts[j].1;
            proof {
                assert(first_seen(pre).contains(label@)) by {
                    assert(first_seen(pre)[j as int] == label@);
                }
                assert(first_seen(post) == first_seen(pre));
                assert(occurrences(post, label@) == occurrences(pre, label@) + 1);
                assert(c as nat == occurrences(pre, label@)) by {
                    assert(tally_view(old_counts)[j as int] == tally(pre)[j as int]);
                }
                assert(occurrences(pre, label@) <= pre.len()) by {
                    lemma_occurrences_bound(pre, label@);
                }
            }
            counts.set(j, (label.clone(), c + 1));
            proof {
                assert forall|m: int| 0 <= m < counts@.len() implies tally_view(counts@)[m]
                    == #[trigger] tally(post)[m] by {
                    if m != j {
                        assert(first_seen(pre)[m] != label@) by {
                            assert(first_seen(pre)[j as int] == label@);
                        }
                        assert(tally_view(old_counts)[m] == tally(pre)[m]);
                    }
                }
                assert(tally_view(counts@) =~= tally(post));
            }
        } else {
            proof {
                assert(!first_seen(pre).contains(label@)) by {
                    if first_seen(pre).contains(label@) {
                        let m = choose|m: int|
                            0 <= m < first_seen(pre).len() && first_seen(pre)[m] == label@;
                        assert(old_counts[m].0@ == first_seen(pre)[m]);
                    }
                }
                assert(first_seen(post) == first_seen(pre).push(label@));
                assert(occurrences(post, label@) == 1) by {
                    lemma_occurrences_absent(pre, label@);
                }
            }
            counts.push((label.clone(), 1));
            proof {
                assert forall|m: int| 0 <= m < counts@.len() implies tally_view(counts@)[m]
                    == #[trigger] tally(post)[m] by {
                    if m < old_counts.len() {
                        assert(first_seen(pre)[m] != label@) by {
                            if first_seen(pre)[m] == label@ {
                                assert(first_seen(pre).contains(label@));
                            }
                        }
                        assert(tally_view(old_counts)[m] == tally(pre)[m]);
                    }
                }
                assert(tally_view(counts@) =~= tally(post));
            }
        }
        i += 1;
    }
    assert(acts.take(choices@.len() as int) =~= acts);
    assert(ls.take(choices@.len() as int) =~= ls);
    (votes, counts)
}

proof fn lemma_occurrences_bound(labels: Seq<Seq<char>>, label: Seq<char>)
    ensures
        occurrences(labels, label) <= labels.len(),
    decreases labels.len(),
{
    if labels.len() > 0 {
        lemma_occurrences_bound(labels.drop_last(), label);
    }
}

proof fn lemma_occurrences_absent(labels: Seq<Seq<char>>, label: Seq<char>)
    requires
        !labels.contains(label),
    ensures
        occurrences(labels, label) == 0,
    decreases labels.len(),
{
    if labels.len() > 0 {
        assert(labels[labels.len() - 1] == labels.last());
        assert(!labels.drop_last().contains(label)) by {
            if labels.drop_last().contains(label) {
                let i = choose|i: int|
                    0 <= i < labels.drop_last().len() && labels.drop_last()[i] == label;
                assert(labels[i] == label);
            }
        }
        lemma_occurrences_absent(labels.drop_last(), label);
    }
}

/// The tally entries sorted by count, most first, ties in order of first appearance.
fn sort_tally(counts: Vec<(String, usize)>) -> (r: Vec<(String, usize)>)
    ensures
        tally_view(r@) == sort_by_count(tally_view(counts@)),
{
    let ghost t = tally_view(counts@);
    let mut sorted: Vec<(String, usize)> = Vec::new();
    let mut i: usize = 0;
    let n = counts.len();
    let mut rest = counts;
    let ghost all = rest@;
    while i < n
        invariant
            n == all.len(),
            i <= n,
            t == tally_view(all),
            rest@ == all,
            tally_view(sorted@) == sort_by_count(t.take(i as int)),
        decreases n - i,
    {
        let x_count = rest[i].1;
        let x_label = rest[i].0.clone();
        let ghost x = (x_label@, x_count as nat);
        assert(t[i as int] == x);
        let mut p = sorted.len();
        while p > 0 && sorted[p - 1].1 < x_count
            invariant
                p <= sorted@.len(),
                forall|q: int| p <= q < sorted@.len() ==> (#[trigger] sorted@[q]).1 < x_count,
            decreases p,
        {
            p -= 1;
        }
        let ghost before = tally_view(sorted@);
        proof {
            assert forall|q: int| p <= q < before.len() implies (#[trigger] before[q]).1 < x.1 by {
                assert(sorted@[q].1 < x_count);
            }
            lemma_insert_at(before, x, p as int);
            assert(t.take(i + 1).drop_last() =~= t.take(i as int));
        }
        sorted.insert(p, (x_label, x_count));
        assert(tally_view(sorted@) =~= before.insert(p as int, x));
        i += 1;
    }
    assert(t.take(n as int) =~= t);
    sorted
}

/// The majority verdict of one bot on one puzzle, from the action it chose in each trial and
/// the report label of each of those actions.
pub fn run_puzzle(puzzle: &Puzzle, choices: &Vec<SimpleAction>, labels: &Vec<String>) -> (r:
    PuzzleOutcome)
    requires
        choices.len() > 0,
        choices.len() == labels.len(),
    ensures
        r.name@ == puzzle.name@,
        r.why@ == puzzle.why@,
        r.trials == choices.len(),
        r.votes == vote_count(puzzle.acceptable@, choices@.map_values(|a: SimpleAction| a@)),
        r.passed == (r.votes * 2 > r.trials),
        strings_view(r.chosen@) == sort_by_count(tally(strings_view(labels@))).map_values(
            |e: (Seq<char>, nat)| tally_line(e),
        ),
        r.expected@ == join_or(describes(puzzle.acceptable@)),
{
    let trials = choices.len();
    let (votes, counts) = count_choices(puzzle, choices, labels);
    let sorted = sort_tally(counts);
    let ghost lines = tally_view(sorted@).map_values(|e: (Seq<char>, nat)| tally_line(e));
    let mut chosen: Vec<String> = Vec::new();
    let mut k: usize = 0;
    while k < sorted.len()
        invariant
            k <= sorted@.len(),
            lines == tally_view(sorted@).map_values(|e: (Seq<char>, nat)| tally_line(e)),
            strings_view(chosen@) == lines.take(k as int),
        decreases sorted.len() - k,
    {
        let mut line = sorted[k].0.clone();
        line.append(" x");
        let n = usize_text(sorted[k].1);
        line.append(n.as_str());
        let ghost before = chosen@;
        assert(line@ == tally_line(tally_view(sorted@)[k as int]));
        chosen.push(line);
        assert(chosen@ =~= before.push(line));
        assert(strings_view(before.push(line)) =~= strings_view(before).push(line@));
        assert(strings_view(chosen@) =~= lines.take(k + 1));
        k += 1;
    }
    assert(lines.take(sorted@.len() as int) =~= lines);
    PuzzleOutcome {
        name: puzzle.name,
        why: puzzle.why,
        passed: votes > trials / 2,
        votes,
        trials,
        chosen,
        expected: puzzle.expectation(),
    }
}

/// How many puzzles a bot solved.
pub fn pass_count(outcomes: &Vec<PuzzleOutcome>) -> (r: usize)
    ensures
        r == outcomes@.filter(|o: PuzzleOutcome| o.passed).len(),
{
    let ghost f = |o: PuzzleOutcome| o.passed;
    let mut count: usize = 0;
    let mut i: usize = 0;
    while i < outcomes.len()
        invariant
            i <= outcomes@.len(),
            f == (|o: PuzzleOutcome| o.passed),
            count == outcomes@.take(i as int).filter(f).len(),
            count <= i,
        decreases outcomes.len() - i,
    {
        proof {
            assert(outcomes@.take(i + 1) =~= outcomes@.take(i as int).push(outcomes@[i as int]));
            outcomes@.take(i as int).lemma_filter_push(outcomes@[i as int], f);
            outcomes@.take(i as int).lemma_filter_len(f);
        }
        if outcomes[i].passed {
            count += 1;
        }
        i += 1;
    }
    assert(outcomes@.take(outcomes@.len() as int) =~= outcomes@);
    count
}

/// How many of the legal actions `actions` the puzzle accepts, and how many there are.
pub fn acceptance(puzzle: &Puzzle, actions: &Vec<Action>) -> (r: (usize, usize))
    ensures
        r.1 == actions.len(),
        r.0 == actions@.filter(|a: Action| accepted_by(puzzle.acceptable@, a.action@)).len(),
{
    let ghost f = |a: Action| accepted_by(puzzle.acceptable@, a.action@);
    let mut accepted: usize = 0;
    let mut i: usize = 0;
    while i < actions.len()
        invariant
            i <= actions@.len(),
            f == (|a: Action| accepted_by(puzzle.acceptable@, a.action@)),
            accepted == actions@.take(i as int).filter(f).len(),
            accepted <= i,
        decreases actions.len() - i,
    {
        proof {
            assert(actions@.take(i + 1) =~= actions@.take(i as int).push(actions@[i as int]));
            actions@.take(i as int).lemma_filter_push(actions@[i as int], f);
            actions@.take(i as int).lemma_filter_len(f);
        }
        if puzzle.is_acceptable(&actions[i].action) {
            accepted += 1;
        }
        i += 1;
    }
    assert(actions@.take(actions@.len() as int) =~= actions@);
    (accepted, actions.len())
}


/// A bot never collects more votes than it had trials, so a puzzle is passed exactly when more
/// than half of the trials chose an accepted action.
pub proof fn law_votes_at_most_trials(acceptable: Seq<Acceptable>, choices: Seq<SimpleActionView>)
    ensures
        vote_count(acceptable, choices) <= choices.len(),
    decreases choices.len(),
{
    if choices.len() > 0 {
        law_votes_at_most_trials(acceptable, choices.drop_last());
    }
}

/// The tally counts every trial once: its counts add up to the number of trials.
pub proof fn law_tally_counts_every_trial(labels: Seq<Seq<char>>)
    ensures
        tally_total(tally(labels)) == labels.len(),
    decreases labels.len(),
{
    lemma_tally_total(labels);
}

/// The sum of the counts of a tally.
pub open spec fn tally_total(t: Seq<(Seq<char>, nat)>) -> int
    decreases t.len(),
{
    if t.len() == 0 {
        0
    } else {
        tally_total(t.drop_last()) + t.last().1
    }
}

/// Summing the occurrences of the distinct labels `f` in `labels`.
spec fn occurrence_total(labels: Seq<Seq<char>>, f: Seq<Seq<char>>) -> int
    decreases f.len(),
{
    if f.len() == 0 {
        0
    } else {
        occurrence_total(labels, f.drop_last()) + occurrences(labels, f.last())
    }
}

proof fn lemma_occurrence_total_push(labels: Seq<Seq<char>>, f: Seq<Seq<char>>, x: Seq<char>)
    requires
        f.no_duplicates(),
    ensures
        occurrence_total(labels.push(x), f) == occurrence_total(labels, f) + if f.contains(x) {
            1int
        } else {
            0int
        },
    decreases f.len(),
{
    if f.len() > 0 {
        let g = f.drop_last();
        assert(g.no_duplicates()) by {
            assert forall|i: int, j: int| 0 <= i < g.len() && 0 <= j < g.len() && i != j implies g[i]
                != g[j] by {
                assert(g[i] == f[i] && g[j] == f[j]);
            }
        }
        lemma_occurrence_total_push(labels, g, x);
        assert(labels.push(x).drop_last() =~= labels);
        if f.last() == x {
            assert(!g.contains(x)) by {
                if g.contains(x) {
                    let i = choose|i: int| 0 <= i < g.len() && g[i] == x;
                    assert(f[i] == f[f.len() - 1]);
                }
            }
            assert(f.contains(x)) by {
                assert(f[f.len() - 1] == x);
            }
        } else {
            assert(f.contains(x) <==> g.contains(x)) by {
                if f.contains(x) {
                    let i = choose|i: int| 0 <= i < f.len() && f[i] == x;
                    assert(i < f.len() - 1);
                    assert(g[i] == x);
                }
                if g.contains(x) {
                    let i = choose|i: int| 0 <= i < g.len() && g[i] == x;
                    assert(f[i] == x);
                }
            }
        }
    }
}

proof fn lemma_tally_total_is_occurrence_total(labels: Seq<Seq<char>>, f: Seq<Seq<char>>)
    ensures
        tally_total(f.map_values(|l: Seq<char>| (l, occurrences(labels, l)))) == occurrence_total(
            labels,
            f,
        ),
    decreases f.len(),
{
    if f.len() > 0 {
        lemma_tally_total_is_occurrence_total(labels, f.drop_last());
        assert(f.map_values(|l: Seq<char>| (l, occurrences(labels, l))).drop_last()
            =~= f.drop_last().map_values(|l: Seq<char>| (l, occurrences(labels, l))));
    }
}

proof fn lemma_tally_total(labels: Seq<Seq<char>>)
    ensures
        tally_total(tally(labels)) == labels.len(),
        occurrence_total(labels, first_seen(labels)) == labels.len(),
    decreases labels.len(),
{
    lemma_tally_total_is_occurrence_total(labels, first_seen(labels));
    if labels.len() > 0 {
        let p = labels.drop_last();
        let x = labels.last();
        assert(p.push(x) =~= labels);
        lemma_tally_total(p);
        lemma_first_seen_distinct(p);
        lemma_first_seen_distinct(labels);
        let f = first_seen(p);
        lemma_occurrence_total_push(p, f, x);
        if !f.contains(x) {
            assert(!p.contains(x));
            assert(f.push(x).drop_last() =~= f);
            lemma_occurrences_absent(p, x);
            assert(occurrences(labels, x) == 1);
            assert(occurrence_total(labels, f.push(x)) == occurrence_total(labels, f) + 1);
        }
    }
}


/// The names of every puzzle, in the order `all_puzzles` returns them.
pub open spec fn all_puzzle_names() -> Seq<Seq<char>> {
    seq!["take_the_available_knockout"@, "weakness_makes_the_knockout"@, "bigger_attack_takes_the_knockout"@, "winning_attack_beats_the_safe_retreat"@, "cyrus_pulls_the_damaged_ex_for_two_points"@, "sabrina_forces_up_the_only_bench_target"@, "giovanni_completes_the_knockout"@, "do_not_attack_into_the_lethal_rocky_helmet"@, "attack_through_the_helmet_when_it_cannot_kill"@, "potion_survives_the_visible_lethal"@, "retreat_the_ex_out_of_the_game_losing_knockout"@, "retreat_the_confused_active_to_the_loaded_bench"@, "asleep_active_attaches_to_the_bench"@, "evolve_out_of_paralysis_to_attack"@, "evolve_before_attacking"@, "do_not_evolve_out_of_the_winning_attack"@, "rare_candy_enables_the_knockout"@, "do_not_evolve_into_the_two_point_target"@, "professors_research_when_the_board_is_empty_of_basics"@, "bench_a_second_attacker_before_the_active_dies"@, "stadium_that_swings_the_damage"@, "attach_to_the_active_that_can_attack_now"@, "attach_to_the_bench_attacker_not_the_dead_active"@, "do_not_overextend_energy_onto_the_doomed_active"@, "heal_the_bench_attacker_out_of_cyrus_range"@, "keep_the_damaged_ex_off_the_active_spot"@, "promote_the_attacker_after_the_knockout"@]
}

/// No two puzzles share a name.
#[verifier::rlimit(100)]
proof fn lemma_puzzle_names_distinct()
    ensures
        forall|i: int, j: int|
            0 <= i < j < all_puzzle_names().len() ==> all_puzzle_names()[i]
                != all_puzzle_names()[j],
{
    reveal_strlit("take_the_available_knockout");
    reveal_strlit("weakness_makes_the_knockout");
    reveal_strlit("bigger_attack_takes_the_knockout");
    reveal_strlit("winning_attack_beats_the_safe_retreat");
    reveal_strlit("cyrus_pulls_the_damaged_ex_for_two_points");
    reveal_strlit("sabrina_forces_up_the_only_bench_target");
    reveal_strlit("giovanni_completes_the_knockout");
    reveal_strlit("do_not_attack_into_the_lethal_rocky_helmet");
    reveal_strlit("attack_through_the_helmet_when_it_cannot_kill");
    reveal_strlit("potion_survives_the_visible_lethal");
    reveal_strlit("retreat_the_ex_out_of_the_game_losing_knockout");
    reveal_strlit("retreat_the_confused_active_to_the_loaded_bench");
    reveal_strlit("asleep_active_attaches_to_the_bench");
    reveal_strlit("evolve_out_of_paralysis_to_attack");
    reveal_strlit("evolve_before_attacking");
    reveal_strlit("do_not_evolve_out_of_the_winning_attack");
    reveal_strlit("rare_candy_enables_the_knockout");
    reveal_strlit("do_not_evolve_into_the_two_point_target");
    reveal_strlit("professors_research_when_the_board_is_empty_of_basics");
    reveal_strlit("bench_a_second_attacker_before_the_active_dies");
    reveal_strlit("stadium_that_swings_the_damage");
    reveal_strlit("attach_to_the_active_that_can_attack_now");
    reveal_strlit("attach_to_the_bench_attacker_not_the_dead_active");
    reveal_strlit("do_not_overextend_energy_onto_the_doomed_active");
    reveal_strlit("heal_the_bench_attacker_out_of_cyrus_range");
    reveal_strlit("keep_the_damaged_ex_off_the_active_spot");
    reveal_strlit("promote_the_attacker_after_the_knockout");
    let s = all_puzzle_names();
    assert(s[0][0] != s[1][0]);
    assert(s[0].len() != s[2].len());
    assert(s[0].len() != s[3].len());
    assert(s[0].len() != s[4].len());
    assert(s[0].len() != s[5].len());
    assert(s[0].len() != s[6].len());
    assert(s[0].len() != s[7].len());
    assert(s[0].len() != s[8].len());
    assert(s[0].len() != s[9].len());
    assert(s[0].len() != s[10].len());
    assert(s[0].len() != s[11].len());
    assert(s[0].len() != s[12].len());
    assert(s[0].len() != s[13].len());
    assert(s[0].len() != s[14].len());
    assert(s[0].len() != s[15].len());
    assert(s[0].len() != s[16].len());
    assert(s[0].len() != s[17].len());
    assert(s[0].len() != s[18].len());
    assert(s[0].len() != s[19].len());
    assert(s[0].len() != s[20].len());
    assert(s[0].len() != s[21].len());
    assert(s[0].len() != s[22].len());
    assert(s[0].len() != s[23].len());
    assert(s[0].len() != s[24].len());
    assert(s[0].len() != s[25].len());
    assert(s[0].len() != s[26].len());
    assert(s[1].len() != s[2].len());
    assert(s[1].len() != s[3].len());
    assert(s[1].len() != s[4].len());
    assert(s[1].len() != s[5].len());
    assert(s[1].len() != s[6].len());
    assert(s[1].len() != s[7].len());
    assert(s[1].len() != s[8].len());
    assert(s[1].len() != s[9].len());
    assert(s[1].len() != s[10].len());
    assert(s[1].len() != s[11].len());
    assert(s[1].len() != s[12].len());
    assert(s[1].len() != s[13].len());
    assert(s[1].len() != s[14].len());
    assert(s[1].len() != s[15].len());
    assert(s[1].len() != s[16].len());
    assert(s[1].len() != s[17].len());
    assert(s[1].len() != s[18].len());
    assert(s[1].len() != s[19].len());
    assert(s[1].len() != s[20].len());
    assert(s[1].len() != s[21].len());
    assert(s[1].len() != s[22].len());
    assert(s[1].len() != s[23].len());
    assert(s[1].len() != s[24].len());
    assert(s[1].len() != s[25].len());
    assert(s[1].len() != s[26].len());
    assert(s[2].len() != s[3].len());
    assert(s[2].len() != s[4].len());
    assert(s[2].len() != s[5].len());
    assert(s[2].len() != s[6].len());
    assert(s[2].len() != s[7].len());
    assert(s[2].len() != s[8].len());
    assert(s[2].len() != s[9].len());
    assert(s[2].len() != s[10].len());
    assert(s[2].len() != s[11].len());
    assert(s[2].len() != s[12].len());
    assert(s[2].len() != s[13].len());
    assert(s[2].len() != s[14].len());
    assert(s[2].len() != s[15].len());
    assert(s[2].len() != s[16].len());
    assert(s[2].len() != s[17].len());
    assert(s[2].len() != s[18].len());
    assert(s[2].len() != s[19].len());
    assert(s[2].len() != s[20].len());
    assert(s[2].len() != s[21].len());
    assert(s[2].len() != s[22].len());
    assert(s[2].len() != s[23].len());
    assert(s[2].len() != s[24].len());
    assert(s[2].len() != s[25].len());
    assert(s[2].len() != s[26].len());
    assert(s[3].len() != s[4].len());
    assert(s[3].len() != s[5].len());
    assert(s[3].len() != s[6].len());
    assert(s[3].len() != s[7].len());
    assert(s[3].len() != s[8].len());
    assert(s[3].len() != s[9].len());
    assert(s[3].len() != s[10].len());
    assert(s[3].len() != s[11].len());
    assert(s[3].len() != s[12].len());
    assert(s[3].len() != s[13].len());
    assert(s[3].len() != s[14].len());
    assert(s[3].len() != s[15].len());
    assert(s[3].len() != s[16].len());
    assert(s[3].len() != s[17].len());
    assert(s[3].len() != s[18].len());
    assert(s[3].len() != s[19].len());
    assert(s[3].len() != s[20].len());
    assert(s[3].len() != s[21].len());
    assert(s[3].len() != s[22].len());
    assert(s[3].len() != s[23].len());
    assert(s[3].len() != s[24].len());
    assert(s[3].len() != s[25].len());
    assert(s[3].len() != s[26].len());
    assert(s[4].len() != s[5].len());
    assert(s[4].len() != s[6].len());
    assert(s[4].len() != s[7].len());
    assert(s[4].len() != s[8].len());
    assert(s[4].len() != s[9].len());
    assert(s[4].len() != s[10].len());
    assert(s[4].len() != s[11].len());
    assert(s[4].len() != s[12].len());
    assert(s[4].len() != s[13].len());
    assert(s[4].len() != s[14].len());
    assert(s[4].len() != s[15].len());
    assert(s[4].len() != s[16].len());
    assert(s[4].len() != s[17].len());
    assert(s[4].len() != s[18].len());
    assert(s[4].len() != s[19].len());
    assert(s[4].len() != s[20].len());
    assert(s[4].len() != s[21].len());
    assert(s[4].len() != s[22].len());
    assert(s[4].len() != s[23].len());
    assert(s[4].len() != s[24].len());
    assert(s[4].len() != s[25].len());
    assert(s[4].len() != s[26].len());
    assert(s[5].len() != s[6].len());
    assert(s[5].len() != s[7].len());
    assert(s[5].len() != s[8].len());
    assert(s[5].len() != s[9].len());
    assert(s[5].len() != s[10].len());
    assert(s[5].len() != s[11].len());
    assert(s[5].len() != s[12].len());
    assert(s[5].len() != s[13].len());
    assert(s[5].len() != s[14].len());
    assert(s[5][0] != s[15][0]);
    assert(s[5].len() != s[16].len());
    assert(s[5][0] != s[17][0]);
    assert(s[5].len() != s[18].len());
    assert(s[5].len() != s[19].len());
    assert(s[5].len() != s[20].len());
    assert(s[5].len() != s[21].len());
    assert(s[5].len() != s[22].len());
    assert(s[5].len() != s[23].len());
    assert(s[5].len() != s[24].len());
    assert(s[5][0] != s[25][0]);
    assert(s[5][0] != s[26][0]);
    assert(s[6].len() != s[7].len());
    assert(s[6].len() != s[8].len());
    assert(s[6].len() != s[9].len());
    assert(s[6].len() != s[10].len());
    assert(s[6].len() != s[11].len());
    assert(s[6].len() != s[12].len());
    assert(s[6].len() != s[13].len());
    assert(s[6].len() != s[14].len());
    assert(s[6].len() != s[15].len());
    assert(s[6][0] != s[16][0]);
    assert(s[6].len() != s[17].len());
    assert(s[6].len() != s[18].len());
    assert(s[6].len() != s[19].len());
    assert(s[6].len() != s[20].len());
    assert(s[6].len() != s[21].len());
    assert(s[6].len() != s[22].len());
    assert(s[6].len() != s[23].len());
    assert(s[6].len() != s[24].len());
    assert(s[6].len() != s[25].len());
    assert(s[6].len() != s[26].len());
    assert(s[7].len() != s[8].len());
    assert(s[7].len() != s[9].len());
    assert(s[7].len() != s[10].len());
    assert(s[7].len() != s[11].len());
    assert(s[7].len() != s[12].len());
    assert(s[7].len() != s[13].len());
    assert(s[7].len() != s[14].len());
    assert(s[7].len() != s[15].len());
    assert(s[7].len() != s[16].len());
    assert(s[7].len() != s[17].len());
    assert(s[7].len() != s[18].len());
    assert(s[7].len() != s[19].len());
    assert(s[7].len() != s[20].len());
    assert(s[7].len() != s[21].len());
    assert(s[7].len() != s[22].len());
    assert(s[7].len() != s[23].len());
    assert(s[7][0] != s[24][0]);
    assert(s[7].len() != s[25].len());
    assert(s[7].len() != s[26].len());
    assert(s[8].len() != s[9].len());
    assert(s[8].len() != s[10].len());
    assert(s[8].len() != s[11].len());
    assert(s[8].len() != s[12].len());
    assert(s[8].len() != s[13].len());
    assert(s[8].len() != s[14].len());
    assert(s[8].len() != s[15].len());
    assert(s[8].len() != s[16].len());
    assert(s[8].len() != s[17].len());
    assert(s[8].len() != s[18].len());
    assert(s[8].len() != s[19].len());
    assert(s[8].len() != s[20].len());
    assert(s[8].len() != s[21].len());
    assert(s[8].len() != s[22].len());
    assert(s[8].len() != s[23].len());
    assert(s[8].len() != s[24].len());
    assert(s[8].len() != s[25].len());
    assert(s[8].len() != s[26].len());
    assert(s[9].len() != s[10].len());
    assert(s[9].len() != s[11].len());
    assert(s[9].len() != s[12].len());
    assert(s[9].len() != s[13].len());
    assert(s[9].len() != s[14].len());
    assert(s[9].len() != s[15].len());
    assert(s[9].len() != s[16].len());
    assert(s[9].len() != s[17].len());
    assert(s[9].len() != s[18].len());
    assert(s[9].len() != s[19].len());
    assert(s[9].len() != s[20].len());
    assert(s[9].len() != s[21].len());
    assert(s[9].len() != s[22].len());
    assert(s[9].len() != s[23].len());
    assert(s[9].len() != s[24].len());
    assert(s[9].len() != s[25].len());
    assert(s[9].len() != s[26].len());
    assert(s[10].len() != s[11].len());
    assert(s[10].len() != s[12].len());
    assert(s[10].len() != s[13].len());
    assert(s[10].len() != s[14].len());
    assert(s[10].len() != s[15].len());
    assert(s[10].len() != s[16].len());
    assert(s[10].len() != s[17].len());
    assert(s[10].len() != s[18].len());
    assert(s[10][0] != s[19][0]);
    assert(s[10].len() != s[20].len());
    assert(s[10].len() != s[21].len());
    assert(s[10].len() != s[22].len());
    assert(s[10].len() != s[23].len());
    assert(s[10].len() != s[24].len());
    assert(s[10].len() != s[25].len());
    assert(s[10].len() != s[26].len());
    assert(s[11].len() != s[12].len());
    assert(s[11].len() != s[13].len());
    assert(s[11].len() != s[14].len());
    assert(s[11].len() != s[15].len());
    assert(s[11].len() != s[16].len());
    assert(s[11].len() != s[17].len());
    assert(s[11].len() != s[18].len());
    assert(s[11].len() != s[19].len());
    assert(s[11].len() != s[20].len());
    assert(s[11].len() != s[21].len());
    assert(s[11].len() != s[22].len());
    assert(s[11][0] != s[23][0]);
    assert(s[11].len() != s[24].len());
    assert(s[11].len() != s[25].len());
    assert(s[11].len() != s[26].len());
    assert(s[12].len() != s[13].len());
    assert(s[12].len() != s[14].len());
    assert(s[12].len() != s[15].len());
    assert(s[12].len() != s[16].len());
    assert(s[12].len() != s[17].len());
    assert(s[12].len() != s[18].len());
    assert(s[12].len() != s[19].len());
    assert(s[12].len() != s[20].len());
    assert(s[12].len() != s[21].len());
    assert(s[12].len() != s[22].len());
    assert(s[12].len() != s[23].len());
    assert(s[12].len() != s[24].len());
    assert(s[12].len() != s[25].len());
    assert(s[12].len() != s[26].len());
    assert(s[13].len() != s[14].len());
    assert(s[13].len() != s[15].len());
    assert(s[13].len() != s[16].len());
    assert(s[13].len() != s[17].len());
    assert(s[13].len() != s[18].len());
    assert(s[13].len() != s[19].len());
    assert(s[13].len() != s[20].len());
    assert(s[13].len() != s[21].len());
    assert(s[13].len() != s[22].len());
    assert(s[13].len() != s[23].len());
    assert(s[13].len() != s[24].len());
    assert(s[13].len() != s[25].len());
    assert(s[13].len() != s[26].len());
    assert(s[14].len() != s[15].len());
    assert(s[14].len() != s[16].len());
    assert(s[14].len() != s[17].len());
    assert(s[14].len() != s[18].len());
    assert(s[14].len() != s[19].len());
    assert(s[14].len() != s[20].len());
    assert(s[14].len() != s[21].len());
    assert(s[14].len() != s[22].len());
    assert(s[14].len() != s[23].len());
    assert(s[14].len() != s[24].len());
    assert(s[14].len() != s[25].len());
    assert(s[14].len() != s[26].len());
    assert(s[15].len() != s[16].len());
    assert(s[15][14] != s[17][14]);
    assert(s[15].len() != s[18].len());
    assert(s[15].len() != s[19].len());
    assert(s[15].len() != s[20].len());
    assert(s[15].len() != s[21].len());
    assert(s[15].len() != s[22].len());
    assert(s[15].len() != s[23].len());
    assert(s[15].len() != s[24].len());
    assert(s[15][0] != s[25][0]);
    assert(s[15][0] != s[26][0]);
    assert(s[16].len() != s[17].len());
    assert(s[16].len() != s[18].len());
    assert(s[16].len() != s[19].len());
    assert(s[16].len() != s[20].len());
    assert(s[16].len() != s[21].len());
    assert(s[16].len() != s[22].len());
    assert(s[16].len() != s[23].len());
    assert(s[16].len() != s[24].len());
    assert(s[16].len() != s[25].len());
    assert(s[16].len() != s[26].len());
    assert(s[17].len() != s[18].len());
    assert(s[17].len() != s[19].len());
    assert(s[17].len() != s[20].len());
    assert(s[17].len() != s[21].len());
    assert(s[17].len() != s[22].len());
    assert(s[17].len() != s[23].len());
    assert(s[17].len() != s[24].len());
    assert(s[17][0] != s[25][0]);
    assert(s[17][0] != s[26][0]);
    assert(s[18].len() != s[19].len());
    assert(s[18].len() != s[20].len());
    assert(s[18].len() != s[21].len());
    assert(s[18].len() != s[22].len());
    assert(s[18].len() != s[23].len());
    assert(s[18].len() != s[24].len());
    assert(s[18].len() != s[25].len());
    assert(s[18].len() != s[26].len());
    assert(s[19].len() != s[20].len());
    assert(s[19].len() != s[21].len());
    assert(s[19].len() != s[22].len());
    assert(s[19].len() != s[23].len());
    assert(s[19].len() != s[24].len());
    assert(s[19].len() != s[25].len());
    assert(s[19].len() != s[26].len());
    assert(s[20].len() != s[21].len());
    assert(s[20].len() != s[22].len());
    assert(s[20].len() != s[23].len());
    assert(s[20].len() != s[24].len());
    assert(s[20].len() != s[25].len());
    assert(s[20].len() != s[26].len());
    assert(s[21].len() != s[22].len());
    assert(s[21].len() != s[23].len());
    assert(s[21].len() != s[24].len());
    assert(s[21].len() != s[25].len());
    assert(s[21].len() != s[26].len());
    assert(s[22].len() != s[23].len());
    assert(s[22].len() != s[24].len());
    assert(s[22].len() != s[25].len());
    assert(s[22].len() != s[26].len());
    assert(s[23].len() != s[24].len());
    assert(s[23].len() != s[25].len());
    assert(s[23].len() != s[26].len());
    assert(s[24].len() != s[25].len());
    assert(s[24].len() != s[26].len());
    assert(s[25][0] != s[26][0]);
}

/// Every puzzle, in a stable order: the knockout, safety, Special Condition, development and
/// opponent-model groups, one after the other.
pub fn all_puzzles() -> (r: Vec<Puzzle>)
    ensures
        names_of(r@) == all_puzzle_names(),
        r@.len() == 27,
        forall|i: int, j: int| 0 <= i < j < r@.len() ==> r@[i].name@ != r@[j].name@,
        forall|i: int| 0 <= i < r@.len() ==> #[trigger] r@[i].acceptable@.len() > 0,
{
    let mut puzzles: Vec<Puzzle> = Vec::new();
    let mut group = knockouts::puzzles();
    let ghost added = group@;
    puzzles.append(&mut group);
    assert(puzzles@ =~= added);
    let mut group = safety::puzzles();
    let ghost before = puzzles@;
    let ghost added = group@;
    puzzles.append(&mut group);
    assert(names_of(puzzles@) =~= names_of(before) + names_of(added));
    let mut group = conditions::puzzles();
    let ghost before = puzzles@;
    let ghost added = group@;
    puzzles.append(&mut group);
    assert(names_of(puzzles@) =~= names_of(before) + names_of(added));
    let mut group = development::puzzles();
    let ghost before = puzzles@;
    let ghost added = group@;
    puzzles.append(&mut group);
    assert(names_of(puzzles@) =~= names_of(before) + names_of(added));
    let mut group = opponent_model::puzzles();
    let ghost before = puzzles@;
    let ghost added = group@;
    puzzles.append(&mut group);
    assert(names_of(puzzles@) =~= names_of(before) + names_of(added));
    assert(names_of(puzzles@) =~= all_puzzle_names());
    proof {
        lemma_puzzle_names_distinct();
        assert forall|i: int, j: int| 0 <= i < j < puzzles@.len() implies puzzles@[i].name@
            != puzzles@[j].name@ by {
            assert(names_of(puzzles@)[i] == puzzles@[i].name@);
            assert(names_of(puzzles@)[j] == puzzles@[j].name@);
        }
    }
    puzzles
}

} // verus!
