use vstd::prelude::*;

verus! {

/// Games deck `i` of `num_decks` plays when `total` games are shared out: the same number for
/// each deck, and one more for each of the first `total % num_decks` decks.
pub open spec fn spec_games_for_deck(total: nat, num_decks: nat, i: nat) -> nat {
    total / num_decks + if i < total % num_decks {
        1nat
    } else {
        0nat
    }
}

/// Games deck `i` plays when `total` games are shared out evenly over `num_decks` decks.
pub fn games_for_deck(total: u32, num_decks: u32, i: usize) -> (r: u32)
    requires
        num_decks > 0,
    ensures
        r == spec_games_for_deck(total as nat, num_decks as nat, i as nat),
{
    let games_per_deck = total / num_decks;
    let remainder = total % num_decks;
    proof {
        assert(games_per_deck * num_decks + remainder == total) by (nonlinear_arith)
            requires
                games_per_deck == total / num_decks,
                remainder == total % num_decks,
                num_decks > 0,
        ;
        assert(remainder < num_decks);
        if remainder > 0 {
            assert(games_per_deck < total) by (nonlinear_arith)
                requires
                    games_per_deck * num_decks + remainder == total,
                    num_decks > 0,
                    remainder > 0,
            ;
        }
    }
    if i < remainder as usize {
        games_per_deck + 1
    } else {
        games_per_deck
    }
}

/// Games the first `k` decks play together.
pub open spec fn games_sum(total: nat, num_decks: nat, k: nat) -> nat
    decreases k,
{
    if k == 0 {
        0
    } else {
        games_sum(total, num_decks, (k - 1) as nat) + spec_games_for_deck(
            total,
            num_decks,
            (k - 1) as nat,
        )
    }
}

proof fn lemma_games_sum(total: nat, num_decks: nat, k: nat)
    requires
        num_decks > 0,
        k <= num_decks,
    ensures
        games_sum(total, num_decks, k) == k * (total / num_decks) + if k < total % num_decks {
            k
        } else {
            total % num_decks
        },
    decreases k,
{
    let q = total / num_decks;
    if k == 0 {
        assert(k * q == 0) by (nonlinear_arith)
            requires
                k == 0,
        ;
    } else {
        lemma_games_sum(total, num_decks, (k - 1) as nat);
        let r = total % num_decks;
        assert(k * q == (k - 1) * q + q) by (nonlinear_arith);
        assert(games_sum(total, num_decks, k) == games_sum(total, num_decks, (k - 1) as nat)
            + spec_games_for_deck(total, num_decks, (k - 1) as nat));
        assert(spec_games_for_deck(total, num_decks, (k - 1) as nat) == q + if k - 1 < r {
            1int
        } else {
            0int
        });
    }
}

/// Sharing out `total` games over the decks plays every game exactly once, and no two decks
/// play more than one game apart.
pub proof fn law_games_are_shared_out_evenly(total: nat, num_decks: nat)
    requires
        num_decks > 0,
    ensures
        games_sum(total, num_decks, num_decks) == total,
        forall|i: nat, j: nat|
            i < num_decks && j < num_decks ==> spec_games_for_deck(total, num_decks, i)
                <= spec_games_for_deck(total, num_decks, j) + 1,
        forall|i: nat, j: nat|
            i <= j < num_decks ==> spec_games_for_deck(total, num_decks, j)
                <= spec_games_for_deck(total, num_decks, i),
{
    lemma_games_sum(total, num_decks, num_decks);
    assert(num_decks * (total / num_decks) + total % num_decks == total) by (nonlinear_arith)
        requires
            num_decks > 0,
    ;
    assert(total % num_decks < num_decks) by (nonlinear_arith)
        requires
            num_decks > 0,
    ;
}

/// The last part of a path: what follows its last '/', all of it when there is none.
pub open spec fn file_name_of(path: Seq<char>) -> Seq<char>
    decreases path.len(),
{
    if path.len() == 0 {
        Seq::empty()
    } else if path.last() == '/' {
        Seq::empty()
    } else {
        file_name_of(path.drop_last()).push(path.last())
    }
}

/// The length of the part of `path` before its file name.
pub open spec fn dir_len(path: Seq<char>) -> int {
    path.len() - file_name_of(path).len()
}

proof fn lemma_file_name_suffix(path: Seq<char>)
    ensures
        file_name_of(path).len() <= path.len(),
        file_name_of(path) == path.skip(dir_len(path)),
        dir_len(path) > 0 ==> path[dir_len(path) - 1] == '/',
        forall|j: int| dir_len(path) <= j < path.len() ==> path[j] != '/',
    decreases path.len(),
{
    if path.len() > 0 {
        lemma_file_name_suffix(path.drop_last());
        if path.last() == '/' {
            assert(path.skip(path.len() as int) =~= Seq::<char>::empty());
        } else {
            assert(path.skip(dir_len(path)) =~= path.drop_last().skip(dir_len(path)).push(
                path.last(),
            ));
            assert(dir_len(path) == dir_len(path.drop_last()));
            assert forall|j: int| dir_len(path) <= j < path.len() implies path[j] != '/' by {
                if j < path.len() - 1 {
                    assert(path[j] == path.drop_last()[j]);
                }
            }
            if dir_len(path) > 0 {
                assert(path[dir_len(path) - 1] == path.drop_last()[dir_len(path) - 1]);
            }
        }
    }
}

/// The name of a deck file from its path: what follows the last '/'.
pub fn deck_file_name(path: &str) -> (r: String)
    ensures
        r@ == file_name_of(path@),
{
    let n = path.unicode_len();
    proof {
        lemma_file_name_suffix(path@);
    }
    let mut start = n;
    while start > 0 && path.get_char(start - 1) != '/'
        invariant
            n == path@.len(),
            start <= n,
            dir_len(path@) <= start,
            0 <= dir_len(path@),
            dir_len(path@) > 0 ==> path@[dir_len(path@) - 1] == '/',
            forall|j: int| dir_len(path@) <= j < n ==> path@[j] != '/',
            forall|j: int| start <= j < n ==> path@[j] != '/',
        decreases start,
    {
        start -= 1;
    }
    assert(start == dir_len(path@));
    String::from_str(path.substring_char(start, n))
}

/// The log filter that a verbosity count asks for.
pub open spec fn spec_log_level(verbose: u8) -> Seq<char> {
    if verbose == 1 {
        "warn"@
    } else if verbose == 2 {
        "info"@
    } else if verbose == 3 {
        "debug"@
    } else if verbose == 4 {
        "trace"@
    } else {
        "error"@
    }
}

/// The log filter that a verbosity count (`-v` repeated) asks for.
pub fn log_level(verbose: u8) -> (r: &'static str)
    ensures
        r@ == spec_log_level(verbose),
{
    match verbose {
        1 => "warn",
        2 => "info",
        3 => "debug",
        4 => "trace",
        _ => "error",
    }
}

} // verus!
