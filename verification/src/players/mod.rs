use vstd::prelude::*;

pub mod mcts_informed_player;
pub mod mcts_player;
pub mod opponent_aware_player;
pub mod value_functions;

pub use opponent_aware_player::determinise_opponent_hand_for_test;

use crate::text::{ascii_lower, chars_are, lowercase, parse_unsigned, parses_unsigned, unsigned_value};
use value_functions::{result_view, ValueFunctionKind};

verus! {

/// The player strategies that `--players` accepts.
#[derive(Debug, Clone, Copy, PartialEq, Eq, Structural)]
pub enum PlayerCode {
    AA,
    ET,
    R,
    H,
    W,
    /// Value-guided information-set MCTS (`m`, `m500`, `mL`, `m500L`).
    M { iterations: u64, value_function: ValueFunctionKind },
    /// The older random-rollout MCTS (`mr`, `mr500`).
    MR { iterations: u64 },
    V,
    E { max_depth: usize },
    /// Evolution rusher.
    ER,
    /// ExpectiMiniMax with the learned value function.
    L { max_depth: usize },
    /// Opponent-aware search: own turn to `max_depth`, then `samples` determinisations of the
    /// opponent's hidden hand, each played out for one reply turn.
    O { max_depth: usize, samples: usize, value_function: ValueFunctionKind },
}

/// Depth of `e` and `l` written without a number.
pub const DEFAULT_SEARCH_DEPTH: usize = 3;

/// A trailing `l` names the learned scorer; without it the baseline one.
pub open spec fn split_suffix(t: Seq<char>) -> (Seq<char>, ValueFunctionKind) {
    if t.len() > 0 && t.last() == 'l' {
        (t.drop_last(), ValueFunctionKind::Learned)
    } else {
        (t, ValueFunctionKind::Baseline)
    }
}

/// A positive count, or `default` for empty text.
pub open spec fn spec_parse_positive(t: Seq<char>, default: usize) -> Option<usize> {
    if t.len() == 0 {
        Some(default)
    } else if parses_unsigned(t, usize::MAX as int) && unsigned_value(t) > 0 {
        Some(unsigned_value(t) as usize)
    } else {
        None
    }
}

/// `j` is where the first `k` of `t` stands.
pub open spec fn first_k_at(t: Seq<char>, j: int) -> bool {
    &&& 0 <= j < t.len()
    &&& t[j] == 'k'
    &&& forall|m: int| 0 <= m < j ==> t[m] != 'k'
}

/// `t` split at its first `k`: the text before it, and the text after it if there is a `k`.
pub open spec fn split_at_k(t: Seq<char>) -> (Seq<char>, Option<Seq<char>>) {
    if exists|j: int| 0 <= j < t.len() && t[j] == 'k' {
        let j = choose|j: int| first_k_at(t, j);
        (t.take(j), Some(t.skip(j + 1)))
    } else {
        (t, None)
    }
}

pub open spec fn invalid(s: Seq<char>, hint: Seq<char>) -> Seq<char> {
    "Invalid player code: "@ + s + hint
}

pub open spec fn o_hint() -> Seq<char> {
    ". Use 'o' for the opponent-aware search at depth 3 with K=3, or 'o<depth>', 'ok<K>', 'o<depth>k<K>', e.g. 'o2', 'ok5', 'o2k5', each with an optional trailing 'l' for the learned value function, e.g. 'ol', 'o2k5l'"@
}

/// The `o` family of `s`, whose lower case is `l`: `o`, `o<depth>`, `ok<K>`, `o<depth>k<K>`, each
/// with an optional trailing `l`.
pub open spec fn spec_parse_o(s: Seq<char>, l: Seq<char>) -> Result<PlayerCode, Seq<char>> {
    let (rest, value_function) = split_suffix(l.skip(1));
    let (depth_part, samples_part) = split_at_k(rest);
    let depth = spec_parse_positive(depth_part, opponent_aware_player::DEFAULT_DEPTH);
    let samples = match samples_part {
        Some(t) => match spec_parse_positive(t, 0) {
            Some(k) => if k > 0 {
                Some(k)
            } else {
                None
            },
            None => None,
        },
        None => Some(opponent_aware_player::DEFAULT_SAMPLES),
    };
    if depth is Some && samples is Some {
        Ok(PlayerCode::O { max_depth: depth->0, samples: samples->0, value_function })
    } else {
        Err(invalid(s, o_hint()))
    }
}

/// What `s` names, read without regard to case.
pub open spec fn spec_parse_player_code(s: Seq<char>) -> Result<PlayerCode, Seq<char>> {
    let l = ascii_lower(s);
    if l.len() >= 2 && l[0] == 'm' && l[1] == 'r' {
        let rest = l.skip(2);
        if rest.len() == 0 {
            Ok(PlayerCode::MR { iterations: mcts_player::DEFAULT_ITERATIONS })
        } else if parses_unsigned(rest, u64::MAX as int) {
            Ok(PlayerCode::MR { iterations: unsigned_value(rest) as u64 })
        } else {
            Err(
                invalid(
                    s,
                    ". Use 'mr<iterations>' for random-rollout MCTS, e.g. 'mr100'. It plays positions out to the end, so it takes no 'l' value-function suffix"@,
                ),
            )
        }
    } else if l.len() >= 1 && l[0] == 'm' {
        let (rest, value_function) = split_suffix(l.skip(1));
        if rest.len() == 0 {
            Ok(
                PlayerCode::M {
                    iterations: mcts_informed_player::DEFAULT_ITERATIONS,
                    value_function,
                },
            )
        } else if parses_unsigned(rest, u64::MAX as int) {
            Ok(PlayerCode::M { iterations: unsigned_value(rest) as u64, value_function })
        } else {
            Err(
                invalid(
                    s,
                    ". Use 'm<iterations>' for informed MCTS, e.g. 'm200', 'm500', and a trailing 'l' for the learned value function, e.g. 'ml', 'm500l'"@,
                ),
            )
        }
    } else if l.len() >= 1 && l[0] == 'o' {
        spec_parse_o(s, l)
    } else if l.len() > 1 && l[0] == 'e' {
        let rest = l.skip(1);
        if parses_unsigned(rest, usize::MAX as int) {
            Ok(PlayerCode::E { max_depth: unsigned_value(rest) as usize })
        } else if l == "er"@ {
            Ok(PlayerCode::ER)
        } else {
            Err(
                invalid(
                    s,
                    ". Use 'e<number>' for ExpectiMiniMax with depth, e.g., 'e2', 'e5'"@,
                ),
            )
        }
    } else if l.len() > 1 && l[0] == 'l' {
        let rest = l.skip(1);
        if parses_unsigned(rest, usize::MAX as int) {
            Ok(PlayerCode::L { max_depth: unsigned_value(rest) as usize })
        } else {
            Err(
                invalid(
                    s,
                    ". Use 'l<number>' for ExpectiMiniMax with the learned value function and a depth, e.g., 'l2', 'l5'"@,
                ),
            )
        }
    } else if l == "aa"@ {
        Ok(PlayerCode::AA)
    } else if l == "et"@ {
        Ok(PlayerCode::ET)
    } else if l == "r"@ {
        Ok(PlayerCode::R)
    } else if l == "h"@ {
        Ok(PlayerCode::H)
    } else if l == "w"@ {
        Ok(PlayerCode::W)
    } else if l == "v"@ {
        Ok(PlayerCode::V)
    } else if l == "e"@ {
        Ok(PlayerCode::E { max_depth: DEFAULT_SEARCH_DEPTH })
    } else if l == "l"@ {
        Ok(PlayerCode::L { max_depth: DEFAULT_SEARCH_DEPTH })
    } else {
        Err("Invalid player code: "@ + s)
    }
}

/// The error for code `s` with the given usage hint.
fn invalid_code(s: &str, hint: &str) -> (r: String)
    ensures
        r@ == invalid(s@, hint@),
{
    let mut msg = String::from_str("Invalid player code: ");
    msg.append(s);
    msg.append(hint);
    msg
}

/// The end of `l[from..to]` without a trailing `l`, and the scorer that suffix names.
fn split_value_function_suffix(l: &Vec<char>, from: usize, to: usize) -> (r: (
    usize,
    ValueFunctionKind,
))
    requires
        from <= to <= l@.len(),
    ensures
        from <= r.0 <= to,
        split_suffix(l@.subrange(from as int, to as int)) == (
            l@.subrange(from as int, r.0 as int),
            r.1,
        ),
{
    let ghost t = l@.subrange(from as int, to as int);
    if to > from && l[to - 1] == 'l' {
        assert(t.drop_last() =~= l@.subrange(from as int, to - 1));
        (to - 1, ValueFunctionKind::Learned)
    } else {
        (to, ValueFunctionKind::Baseline)
    }
}

/// `l[from..to]` as a positive count, or `default` when empty. `None` means the text was
/// present but not a usable count.
fn parse_positive(l: &Vec<char>, from: usize, to: usize, default: usize) -> (r: Option<usize>)
    requires
        from <= to <= l@.len(),
    ensures
        r == spec_parse_positive(l@.subrange(from as int, to as int), default),
{
    if from == to {
        return Some(default);
    }
    let max = usize::MAX as u64;
    assert(max as int == usize::MAX as int);
    match parse_unsigned(l, from, to, max) {
        Some(value) => {
            if value > 0 {
                Some(value as usize)
            } else {
                None
            }
        },
        None => None,
    }
}

/// Where the first `k` of `l[from..to]` stands, if there is one.
fn find_k(l: &Vec<char>, from: usize, to: usize) -> (r: Option<usize>)
    requires
        from <= to <= l@.len(),
    ensures
        match r {
            Some(j) => from <= j < to && first_k_at(
                l@.subrange(from as int, to as int),
                j - from,
            ),
            None => !(exists|j: int|
                0 <= j < to - from && l@.subrange(from as int, to as int)[j] == 'k'),
        },
{
    let ghost t = l@.subrange(from as int, to as int);
    let mut i = from;
    while i < to
        invariant
            from <= i <= to <= l@.len(),
            t == l@.subrange(from as int, to as int),
            forall|m: int| 0 <= m < i - from ==> t[m] != 'k',
        decreases to - i,
    {
        if l[i] == 'k' {
            return Some(i);
        }
        i += 1;
    }
    None
}

/// Parses the `o` family; `l` is the lower case of `s`.
fn parse_o(s: &str, l: &Vec<char>) -> (r: Result<PlayerCode, String>)
    requires
        l@ == ascii_lower(s@),
        l@.len() >= 1,
    ensures
        result_view(r) == spec_parse_o(s@, l@),
{
    let n = l.len();
    let (end, value_function) = split_value_function_suffix(l, 1, n);
    let ghost rest = l@.subrange(1, end as int);
    assert(l@.skip(1) =~= l@.subrange(1, n as int));
    let (depth_end, samples_from) = match find_k(l, 1, end) {
        Some(j) => {
            proof {
                let jj = j - 1;
                assert(first_k_at(rest, jj));
                let c = choose|x: int| first_k_at(rest, x);
                assert(first_k_at(rest, c));
                if c < jj {
                    assert(rest[c] == 'k');
                } else if c > jj {
                    assert(rest[jj] == 'k');
                }
                assert(c == jj);
                assert(rest.take(jj) =~= l@.subrange(1, j as int));
                assert(rest.skip(jj + 1) =~= l@.subrange(j + 1, end as int));
            }
            (j, Some(j + 1))
        },
        None => (end, None),
    };
    let max_depth = parse_positive(l, 1, depth_end, opponent_aware_player::DEFAULT_DEPTH);
    let samples = match samples_from {
        Some(from) => match parse_positive(l, from, end, 0) {
            Some(k) => if k > 0 {
                Some(k)
            } else {
                None
            },
            None => None,
        },
        None => Some(opponent_aware_player::DEFAULT_SAMPLES),
    };
    match (max_depth, samples) {
        (Some(max_depth), Some(samples)) => Ok(PlayerCode::O { max_depth, samples, value_function }),
        _ => Err(
            invalid_code(
                s,
                ". Use 'o' for the opponent-aware search at depth 3 with K=3, or 'o<depth>', 'ok<K>', 'o<depth>k<K>', e.g. 'o2', 'ok5', 'o2k5', each with an optional trailing 'l' for the learned value function, e.g. 'ol', 'o2k5l'",
            ),
        ),
    }
}

/// Reads a player code without regard to case. See [`spec_parse_player_code`] for every code
/// and its defaults: `o` is `o3k3`, `m` has 200 iterations and `mr` 100, `e` and `l` search to
/// depth 3, and a trailing `l` on `o` and `m` picks the learned scorer.
pub fn parse_player_code(s: &str) -> (r: Result<PlayerCode, String>)
    ensures
        result_view(r) == spec_parse_player_code(s@),
{
    let (_lower, l) = lowercase(s);
    let n = l.len();
    assert(l@.skip(1) =~= l@.subrange(1, n as int)) by {
        if n >= 1 {
        }
    }
    if n >= 2 && l[0] == 'm' && l[1] == 'r' {
        assert(l@.skip(2) =~= l@.subrange(2, n as int));
        if n == 2 {
            return Ok(PlayerCode::MR { iterations: mcts_player::DEFAULT_ITERATIONS });
        }
        if let Some(iterations) = parse_unsigned(&l, 2, n, u64::MAX) {
            return Ok(PlayerCode::MR { iterations });
        }
        return Err(
            invalid_code(
                s,
                ". Use 'mr<iterations>' for random-rollout MCTS, e.g. 'mr100'. It plays positions out to the end, so it takes no 'l' value-function suffix",
            ),
        );
    }
    if n >= 1 && l[0] == 'm' {
        let (end, value_function) = split_value_function_suffix(&l, 1, n);
        if end == 1 {
            return Ok(
                PlayerCode::M {
                    iterations: mcts_informed_player::DEFAULT_ITERATIONS,
                    value_function,
                },
            );
        }
        if let Some(iterations) = parse_unsigned(&l, 1, end, u64::MAX) {
            return Ok(PlayerCode::M { iterations, value_function });
        }
        return Err(
            invalid_code(
                s,
                ". Use 'm<iterations>' for informed MCTS, e.g. 'm200', 'm500', and a trailing 'l' for the learned value function, e.g. 'ml', 'm500l'",
            ),
        );
    }
    if n >= 1 && l[0] == 'o' {
        return parse_o(s, &l);
    }
    if n > 1 && l[0] == 'e' {
        assert(usize::MAX as u64 as int == usize::MAX as int);
        if let Some(max_depth) = parse_unsigned(&l, 1, n, usize::MAX as u64) {
            return Ok(PlayerCode::E { max_depth: max_depth as usize });
        }
        if chars_are(&l, "er") {
            return Ok(PlayerCode::ER);
        }
        return Err(
            invalid_code(s, ". Use 'e<number>' for ExpectiMiniMax with depth, e.g., 'e2', 'e5'"),
        );
    }
    if n > 1 && l[0] == 'l' {
        assert(usize::MAX as u64 as int == usize::MAX as int);
        if let Some(max_depth) = parse_unsigned(&l, 1, n, usize::MAX as u64) {
            return Ok(PlayerCode::L { max_depth: max_depth as usize });
        }
        return Err(
            invalid_code(
                s,
                ". Use 'l<number>' for ExpectiMiniMax with the learned value function and a depth, e.g., 'l2', 'l5'",
            ),
        );
    }
    if chars_are(&l, "aa") {
        Ok(PlayerCode::AA)
    } else if chars_are(&l, "et") {
        Ok(PlayerCode::ET)
    } else if chars_are(&l, "r") {
        Ok(PlayerCode::R)
    } else if chars_are(&l, "h") {
        Ok(PlayerCode::H)
    } else if chars_are(&l, "w") {
        Ok(PlayerCode::W)
    } else if chars_are(&l, "v") {
        Ok(PlayerCode::V)
    } else if chars_are(&l, "e") {
        Ok(PlayerCode::E { max_depth: DEFAULT_SEARCH_DEPTH })
    } else if chars_are(&l, "l") {
        Ok(PlayerCode::L { max_depth: DEFAULT_SEARCH_DEPTH })
    } else {
        let mut msg = String::from_str("Invalid player code: ");
        msg.append(s);
        Err(msg)
    }
}

/// [`parse_player_code`] on an owned string.
pub fn parse_player_code_generic(s: String) -> (r: Result<PlayerCode, String>)
    ensures
        result_view(r) == spec_parse_player_code(s@),
{
    parse_player_code(s.as_str())
}

/// The two player codes of a game: none given means two random players, one given is paired
/// with a random player.
pub fn fill_code_array(maybe_players: Option<Vec<PlayerCode>>) -> (r: Vec<PlayerCode>)
    requires
        maybe_players matches Some(v) ==> 1 <= v.len() <= 2,
    ensures
        r.len() == 2,
        r@ == match maybe_players {
            Some(v) => if v.len() == 1 {
                v@.push(PlayerCode::R)
            } else {
                v@
            },
            None => seq![PlayerCode::R, PlayerCode::R],
        },
{
    match maybe_players {
        Some(mut player_codes) => {
            if player_codes.len() == 1 {
                player_codes.push(PlayerCode::R);
            }
            player_codes
        },
        None => vec![PlayerCode::R, PlayerCode::R],
    }
}


/// Player codes are read without regard to case: two spellings with the same lower case are
/// both accepted or both refused, and when accepted they name the same player.
pub proof fn law_parse_ignores_case(s: Seq<char>, t: Seq<char>)
    requires
        ascii_lower(s) == ascii_lower(t),
    ensures
        spec_parse_player_code(s) is Ok <==> spec_parse_player_code(t) is Ok,
        spec_parse_player_code(s) is Ok ==> spec_parse_player_code(s) == spec_parse_player_code(
            t,
        ),
{
}

proof fn lemma_lower_push(s: Seq<char>)
    ensures
        ascii_lower(s.push('l')) == ascii_lower(s).push('l'),
{
    assert(ascii_lower(s.push('l')) =~= ascii_lower(s).push('l'));
}

/// A trailing `l` on an `o` or `m` code swaps the baseline scorer for the learned one and
/// leaves the rest of the code alone.
pub proof fn law_learned_suffix(s: Seq<char>)
    ensures
        spec_parse_player_code(s) matches Ok(
            PlayerCode::O { max_depth, samples, value_function: ValueFunctionKind::Baseline },
        ) ==> spec_parse_player_code(s.push('l')) == Ok::<PlayerCode, Seq<char>>(
            PlayerCode::O { max_depth, samples, value_function: ValueFunctionKind::Learned },
        ),
        spec_parse_player_code(s) matches Ok(
            PlayerCode::M { iterations, value_function: ValueFunctionKind::Baseline },
        ) ==> spec_parse_player_code(s.push('l')) == Ok::<PlayerCode, Seq<char>>(
            PlayerCode::M { iterations, value_function: ValueFunctionKind::Learned },
        ),
{
    let l = ascii_lower(s);
    let ll = ascii_lower(s.push('l'));
    lemma_lower_push(s);
    if l.len() >= 1 {
        assert(ll[0] == l[0]);
        assert(ll.skip(1) =~= l.skip(1).push('l'));
        assert(ll.skip(1).drop_last() =~= l.skip(1));
        if l.len() >= 2 {
            assert(ll[1] == l[1]);
        }
    }
}

} // verus!
