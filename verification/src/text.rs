use vstd::prelude::*;

verus! {

/// ASCII lower case of one character; every other character is kept.
pub open spec fn lower_char(c: char) -> char {
    if 'A' <= c <= 'Z' {
        ((c as u32) + 32) as char
    } else {
        c
    }
}

/// ASCII lower case of a string.
pub open spec fn ascii_lower(s: Seq<char>) -> Seq<char> {
    s.map_values(|c: char| lower_char(c))
}

/// `str::to_ascii_lowercase`: ASCII letters 'A' to 'Z' become 'a' to 'z', every other character
/// is copied unchanged.
#[verifier::external_body]
fn to_ascii_lowercase(s: &str) -> (r: String)
    ensures
        r@ == ascii_lower(s@),
{
    s.to_ascii_lowercase()
}

/// The characters of `s`, one by one.
pub fn chars_of(s: &str) -> (r: Vec<char>)
    ensures
        r@ == s@,
{
    let n = s.unicode_len();
    let mut r: Vec<char> = Vec::new();
    let mut i: usize = 0;
    while i < n
        invariant
            n == s@.len(),
            i <= n,
            r@ == s@.take(i as int),
        decreases n - i,
    {
        r.push(s.get_char(i));
        i += 1;
        assert(r@ =~= s@.take(i as int));
    }
    assert(s@.take(n as int) =~= s@);
    r
}

/// ASCII lower case of `s`, as a `String` and as its characters.
pub fn lowercase(s: &str) -> (r: (String, Vec<char>))
    ensures
        r.0@ == ascii_lower(s@),
        r.1@ == ascii_lower(s@),
{
    let lower = to_ascii_lowercase(s);
    let chars = chars_of(lower.as_str());
    (lower, chars)
}

/// Whether `v[from..to]` spells `lit`.
pub fn range_is(v: &Vec<char>, from: usize, to: usize, lit: &str) -> (r: bool)
    requires
        from <= to <= v@.len(),
    ensures
        r == (v@.subrange(from as int, to as int) == lit@),
{
    let n = lit.unicode_len();
    if to - from != n {
        return false;
    }
    let mut i: usize = 0;
    while i < n
        invariant
            n == lit@.len(),
            to - from == n,
            from <= to <= v@.len(),
            i <= n,
            forall|j: int| 0 <= j < i ==> v@[from + j] == lit@[j],
        decreases n - i,
    {
        if v[from + i] != lit.get_char(i) {
            assert(v@.subrange(from as int, to as int)[i as int] != lit@[i as int]);
            return false;
        }
        i += 1;
    }
    assert(v@.subrange(from as int, to as int) =~= lit@);
    true
}

/// Whether all of `v` spells `lit`.
pub fn chars_are(v: &Vec<char>, lit: &str) -> (r: bool)
    ensures
        r == (v@ == lit@),
{
    let r = range_is(v, 0, v.len(), lit);
    assert(v@.subrange(0, v@.len() as int) =~= v@);
    r
}

pub open spec fn is_digit(c: char) -> bool {
    '0' <= c <= '9'
}

pub open spec fn digit_value(c: char) -> int {
    (c as int) - ('0' as int)
}

/// The number that a string of decimal digits spells.
pub open spec fn decimal_value(d: Seq<char>) -> int
    decreases d.len(),
{
    if d.len() == 0 {
        0
    } else {
        decimal_value(d.drop_last()) * 10 + digit_value(d.last())
    }
}

pub open spec fn all_digits(d: Seq<char>) -> bool {
    forall|i: int| 0 <= i < d.len() ==> is_digit(#[trigger] d[i])
}

/// The digits of an unsigned integer as `str::parse` reads it: one optional leading `+`.
pub open spec fn unsigned_digits(t: Seq<char>) -> Seq<char> {
    if t.len() > 0 && t[0] == '+' {
        t.skip(1)
    } else {
        t
    }
}

/// `t` is an unsigned integer no larger than `max`: an optional `+` and at least one digit,
/// nothing else.
pub open spec fn parses_unsigned(t: Seq<char>, max: int) -> bool {
    let d = unsigned_digits(t);
    d.len() > 0 && all_digits(d) && decimal_value(d) <= max
}

/// The value of an unsigned integer `t`.
pub open spec fn unsigned_value(t: Seq<char>) -> int {
    decimal_value(unsigned_digits(t))
}

/// What `str::parse` gives for an unsigned integer type whose largest value is `max`.
pub open spec fn spec_parse_unsigned(t: Seq<char>, max: int) -> Option<int> {
    if parses_unsigned(t, max) {
        Some(unsigned_value(t))
    } else {
        None
    }
}

/// A prefix of a digit string is worth no more than the whole string.
pub proof fn lemma_decimal_prefix(d: Seq<char>, n: int)
    requires
        all_digits(d),
        0 <= n <= d.len(),
    ensures
        0 <= decimal_value(d.take(n)) <= decimal_value(d),
    decreases d.len(),
{
    if n == d.len() {
        assert(d.take(n) =~= d);
        lemma_decimal_nonneg(d);
    } else {
        lemma_decimal_prefix(d.drop_last(), n);
        assert(d.drop_last().take(n) =~= d.take(n));
        lemma_decimal_nonneg(d.drop_last());
    }
}

pub proof fn lemma_decimal_nonneg(d: Seq<char>)
    requires
        all_digits(d),
    ensures
        0 <= decimal_value(d),
    decreases d.len(),
{
    if d.len() > 0 {
        assert(is_digit(d[d.len() - 1]));
        lemma_decimal_nonneg(d.drop_last());
    }
}

/// The value of one decimal digit.
fn digit_of(c: char) -> (r: Option<u64>)
    ensures
        r is Some <==> is_digit(c),
        r is Some ==> r->0 == digit_value(c),
{
    match c {
        '0' => Some(0),
        '1' => Some(1),
        '2' => Some(2),
        '3' => Some(3),
        '4' => Some(4),
        '5' => Some(5),
        '6' => Some(6),
        '7' => Some(7),
        '8' => Some(8),
        '9' => Some(9),
        _ => None,
    }
}

/// `v[from..to]` read as an unsigned integer no larger than `max`, as `str::parse` reads it.
pub fn parse_unsigned(v: &Vec<char>, from: usize, to: usize, max: u64) -> (r: Option<u64>)
    requires
        from <= to <= v@.len(),
    ensures
        match spec_parse_unsigned(v@.subrange(from as int, to as int), max as int) {
            Some(n) => r is Some && r->0 == n,
            None => r is None,
        },
{
    let ghost t = v@.subrange(from as int, to as int);
    let start = if from < to && v[from] == '+' {
        from + 1
    } else {
        from
    };
    let ghost d = unsigned_digits(t);
    assert(d =~= v@.subrange(start as int, to as int));
    if start == to {
        return None;
    }
    let mut value: u64 = 0;
    let mut i: usize = start;
    while i < to
        invariant
            from <= start <= i <= to <= v@.len(),
            d == v@.subrange(start as int, to as int),
            d == unsigned_digits(v@.subrange(from as int, to as int)),
            all_digits(d.take(i - start)),
            value == decimal_value(d.take(i - start)),
            value <= max,
        decreases to - i,
    {
        let ghost k = i - start;
        assert(d.take(k + 1).drop_last() =~= d.take(k));
        assert(d.take(k + 1).last() == d[k]);
        let c = v[i];
        let digit = match digit_of(c) {
            Some(x) => x,
            None => {
                assert(!is_digit(d[k]));
                return None;
            },
        };
        assert(all_digits(d.take(k + 1)));
        let next = match value.checked_mul(10) {
            Some(x) => match x.checked_add(digit) {
                Some(y) => y,
                None => {
                    proof {
                        if all_digits(d) {
                            lemma_decimal_prefix(d, k + 1);
                        }
                    }
                    return None;
                },
            },
            None => {
                proof {
                    if all_digits(d) {
                        lemma_decimal_prefix(d, k + 1);
                    }
                }
                return None;
            },
        };
        if next > max {
            proof {
                if all_digits(d) {
                    lemma_decimal_prefix(d, k + 1);
                }
            }
            return None;
        }
        value = next;
        i += 1;
    }
    assert(d.take(to - start) =~= d);
    Some(value)
}

/// The character of decimal digit `d`.
pub open spec fn digit_char(d: int) -> char {
    (('0' as int) + d) as char
}

/// The decimal numeral of `n`: no sign, no leading zeros.
pub open spec fn decimal_text(n: nat) -> Seq<char>
    decreases n,
{
    if n < 10 {
        seq![digit_char(n as int)]
    } else {
        decimal_text(n / 10).push(digit_char((n % 10) as int))
    }
}

/// `ToString::to_string` on a `usize`: its `Display` form, the decimal numeral.
#[verifier::external_body]
pub(crate) fn usize_text(n: usize) -> (r: String)
    ensures
        r@ == decimal_text(n as nat),
{
    n.to_string()
}

} // verus!
