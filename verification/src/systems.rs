//! The numeral systems that numbering kinds are built from: positional,
//! bijective ("alphabetic"), fixed, symbolic and additive notation.

use vstd::prelude::*;
use vstd::arithmetic::div_mod::{
    lemma_div_basics, lemma_div_decreases, lemma_div_non_zero, lemma_div_is_ordered_by_denominator,
};
use ecow::EcoString;
use crate::symbols::DECIMAL;
use crate::eco::{eco_chars, eco_new, eco_push, eco_push_str, eco_from_str};

verus! {

/// `s` written `k` times in a row.
pub open spec fn repeated(s: Seq<char>, k: nat) -> Seq<char>
    decreases k,
{
    if k == 0 {
        Seq::empty()
    } else {
        repeated(s, (k - 1) as nat) + s
    }
}

/// Writing `s` once is `s`.
pub proof fn lemma_repeated_once(s: Seq<char>)
    ensures
        repeated(s, 1) == s,
{
    assert(repeated(s, 0) == Seq::<char>::empty());
    assert(Seq::<char>::empty() + s =~= s);
}

/// Positional notation in base `digits.len()`, most significant digit
/// first and without leading zeros; zero is the single digit `digits[0]`.
pub open spec fn positional(digits: Seq<char>, n: nat) -> Seq<char>
    decreases n,
{
    if n < digits.len() {
        seq![digits[n as int]]
    } else if digits.len() < 2 {
        Seq::empty()
    } else {
        proof {
            lemma_div_decreases(n as int, digits.len() as int);
        }
        positional(digits, n / digits.len()) + seq![digits[(n % digits.len()) as int]]
    }
}

/// Bijective notation in base `digits.len()`: the digits stand for the
/// values `1` to `digits.len()`, so that `1` is `a`, `26` is `z` and `27`
/// is `aa` with the latin alphabet. Zero has no digits.
pub open spec fn bijective(digits: Seq<char>, n: nat) -> Seq<char>
    decreases n,
{
    if n == 0 || digits.len() == 0 {
        Seq::empty()
    } else {
        proof {
            lemma_div_is_ordered_by_denominator((n - 1) as int, 1, digits.len() as int);
            lemma_div_basics((n - 1) as int);
        }
        bijective(digits, ((n - 1) / (digits.len() as int)) as nat)
            + seq![digits[((n - 1) % (digits.len() as int))]]
    }
}

/// One is the first digit in bijective notation.
pub proof fn lemma_bijective_one(digits: Seq<char>)
    requires
        digits.len() >= 1,
    ensures
        bijective(digits, 1) == seq![digits[0]],
{
    assert(bijective(digits, 0) == Seq::<char>::empty());
    assert(Seq::<char>::empty() + seq![digits[0]] =~= seq![digits[0]]);
}

/// Alphabetic numbering: bijective notation, with `-` for zero.
pub open spec fn alphabetic_text(digits: Seq<char>, n: nat) -> Seq<char> {
    if n == 0 {
        seq!['-']
    } else {
        bijective(digits, n)
    }
}

/// Numbering with a fixed list of symbols for `1` to `symbols.len()`; any
/// other number, zero included, is written in decimal.
pub open spec fn fixed_text(symbols: Seq<char>, n: nat) -> Seq<char> {
    if 1 <= n <= symbols.len() {
        seq![symbols[n - 1]]
    } else {
        positional(DECIMAL@, n)
    }
}

/// Symbolic numbering: the symbols are used in turn, and each further
/// round through them writes every symbol once more, so that with `k`
/// symbols `n` is the `((n - 1) mod k)`-th symbol written `⌈n / k⌉` times.
/// Zero is `-`.
pub open spec fn symbolic_text(symbols: Seq<char>, n: nat) -> Seq<char> {
    if n == 0 || symbols.len() == 0 {
        seq!['-']
    } else {
        repeated(
            seq![symbols[(n - 1) % (symbols.len() as int)]],
            ((n - 1) / (symbols.len() as int) + 1) as nat,
        )
    }
}

/// Greedy additive notation from the `i`-th symbol on: each symbol of
/// nonzero weight `w` that fits into what is left of `n` is written
/// `n / w` times, and the rest `n % w` is written with the later symbols.
/// What no symbol can write is dropped.
pub open spec fn greedy(table: Seq<(&'static str, usize)>, i: int, n: nat) -> Seq<char>
    decreases table.len() - i,
{
    if i < 0 || i >= table.len() || n == 0 {
        Seq::empty()
    } else if table[i].1 == 0 || table[i].1 > n {
        greedy(table, i + 1, n)
    } else {
        repeated(table[i].0@, n / (table[i].1 as nat)) + greedy(table, i + 1, n % (table[i].1 as nat))
    }
}

/// The first symbol of weight zero from the `i`-th on, or `0` when there is
/// none.
pub open spec fn zero_symbol(table: Seq<(&'static str, usize)>, i: int) -> Seq<char>
    decreases table.len() - i,
{
    if i < 0 || i >= table.len() {
        seq!['0']
    } else if table[i].1 == 0 {
        table[i].0@
    } else {
        zero_symbol(table, i + 1)
    }
}

/// Additive numbering with a table of symbols and their weights, largest
/// first (such as Roman numerals): zero is the table's symbol of weight
/// zero (or `0`), any other number its greedy decomposition.
pub open spec fn additive_text(table: Seq<(&'static str, usize)>, n: nat) -> Seq<char> {
    if n == 0 {
        zero_symbol(table, 0)
    } else {
        greedy(table, 0, n)
    }
}

/// `s` read from its end to its start.
pub open spec fn reversed(s: Seq<char>) -> Seq<char> {
    Seq::new(s.len(), |j: int| s[s.len() - 1 - j])
}

/// Appends `digits` to `out` from the last one to the first one.
fn push_reversed(out: &mut EcoString, digits: &Vec<char>)
    ensures
        eco_chars(*final(out)) == eco_chars(*old(out)) + reversed(digits@),
{
    let len = digits.len();
    let mut i: usize = 0;
    while i < len
        invariant
            len == digits@.len(),
            i <= len,
            eco_chars(*out) == eco_chars(*old(out)) + reversed(digits@).take(i as int),
        decreases len - i,
    {
        eco_push(out, digits[len - 1 - i]);
        i = i + 1;
        assert(reversed(digits@).take(i as int) =~= reversed(digits@).take(i - 1).push(
            digits@[len - i],
        ));
    }
    assert(reversed(digits@).take(len as int) =~= reversed(digits@));
}

/// Writes `n` in positional notation with the digits `symbols`.
pub(crate) fn numeric<const N: usize>(symbols: &[char; N], n: usize) -> (res: EcoString)
    requires
        N >= 1,
        n == 0 || N >= 2,
    ensures
        eco_chars(res) == positional(symbols@, n as nat),
{
    let ghost d = symbols@;
    if n == 0 {
        let mut s = eco_new();
        eco_push(&mut s, symbols[0]);
        return s;
    }
    let mut digits: Vec<char> = Vec::new();
    let mut m: usize = n;
    while m != 0
        invariant
            d == symbols@,
            d.len() == N,
            N >= 2,
            positional(d, n as nat) == (if m == 0 {
                Seq::<char>::empty()
            } else {
                positional(d, m as nat)
            }) + reversed(digits@),
        decreases m,
    {
        let digit = symbols[m % N];
        let ghost old_digits = digits@;
        digits.push(digit);
        proof {
            assert(reversed(digits@) =~= seq![digit] + reversed(old_digits));
            lemma_div_decreases(m as int, N as int);
            if m < N {
                assert(m % N == m) by (nonlinear_arith)
                    requires m < N;
                assert(m / N == 0) by (nonlinear_arith)
                    requires m < N;
                assert(positional(d, m as nat) == seq![d[m as int]]);
            } else {
                lemma_div_non_zero(m as int, N as int);
                assert(positional(d, m as nat) == positional(d, (m / N) as nat) + seq![d[(m % N) as int]]);
            }
            assert(positional(d, n as nat) == (if m / N == 0 {
                Seq::<char>::empty()
            } else {
                positional(d, (m / N) as nat)
            }) + reversed(digits@));
        }
        m = m / N;
    }
    let mut s = eco_new();
    push_reversed(&mut s, &digits);
    s
}

/// Writes `n` in bijective notation with the digits `symbols`, and zero as
/// `-`.
pub(crate) fn alphabetic<const N: usize>(symbols: &[char; N], n: usize) -> (res: EcoString)
    requires
        n == 0 || N >= 1,
    ensures
        eco_chars(res) == alphabetic_text(symbols@, n as nat),
{
    let ghost d = symbols@;
    if n == 0 {
        let mut s = eco_new();
        eco_push(&mut s, '-');
        return s;
    }
    let mut digits: Vec<char> = Vec::new();
    let mut m: usize = n;
    while m != 0
        invariant
            d == symbols@,
            d.len() == N,
            N >= 1,
            bijective(d, n as nat) == bijective(d, m as nat) + reversed(digits@),
        decreases m,
    {
        m = m - 1;
        let digit = symbols[m % N];
        let ghost old_digits = digits@;
        digits.push(digit);
        proof {
            assert(reversed(digits@) =~= seq![digit] + reversed(old_digits));
            lemma_div_is_ordered_by_denominator(m as int, 1, N as int);
            lemma_div_basics(m as int);
        }
        m = m / N;
    }
    let mut s = eco_new();
    push_reversed(&mut s, &digits);
    s
}

/// Writes `n` with its own symbol when there is one, else in decimal.
pub(crate) fn fixed<const N: usize>(symbols: &[char; N], n: usize) -> (res: EcoString)
    ensures
        eco_chars(res) == fixed_text(symbols@, n as nat),
{
    if n >= 1 && n - 1 < N {
        let mut s = eco_new();
        eco_push(&mut s, symbols[n - 1]);
        s
    } else {
        numeric(&DECIMAL, n)
    }
}

/// Writes `n` as its symbol, repeated once for each round through the
/// symbols; zero is `-`.
pub(crate) fn symbolic<const N: usize>(symbols: &[char; N], n: usize) -> (res: EcoString)
    requires
        n == 0 || N >= 1,
    ensures
        eco_chars(res) == symbolic_text(symbols@, n as nat),
{
    let mut s = eco_new();
    if n == 0 {
        eco_push(&mut s, '-');
        return s;
    }
    let c = symbols[(n - 1) % N];
    let times = (n - 1) / N + 1;
    let mut k: usize = 0;
    while k < times
        invariant
            k <= times,
            eco_chars(s) == repeated(seq![c], k as nat),
        decreases times - k,
    {
        eco_push(&mut s, c);
        k = k + 1;
    }
    s
}

/// Writes `n` in greedy additive notation with the weighted `symbols`.
pub(crate) fn additive<const N: usize>(symbols: &[(&'static str, usize); N], n: usize) -> (res: EcoString)
    ensures
        eco_chars(res) == additive_text(symbols@, n as nat),
{
    let ghost t = symbols@;
    if n == 0 {
        let mut i: usize = 0;
        while i < N
            invariant
                t == symbols@,
                t.len() == N,
                i <= N,
                n == 0,
                zero_symbol(t, 0) == zero_symbol(t, i as int),
            decreases N - i,
        {
            let (symbol, weight) = symbols[i];
            assert(symbol == t[i as int].0 && weight == t[i as int].1);
            if weight == 0 {
                return eco_from_str(symbol);
            }
            i = i + 1;
        }
        let mut s = eco_new();
        eco_push(&mut s, '0');
        return s;
    }
    let mut s = eco_new();
    let mut m: usize = n;
    let mut i: usize = 0;
    while i < N
        invariant
            t == symbols@,
            t.len() == N,
            i <= N,
            m >= 1,
            n >= 1,
            eco_chars(s) + greedy(t, i as int, m as nat) == greedy(t, 0, n as nat),
        decreases N - i,
    {
        let (symbol, weight) = symbols[i];
        assert(symbol == t[i as int].0 && weight == t[i as int].1);
        if weight == 0 || weight > m {
            i = i + 1;
        } else {
            let reps = m / weight;
            let ghost before = eco_chars(s);
            let mut r: usize = 0;
            while r < reps
                invariant
                    r <= reps,
                    eco_chars(s) == before + repeated(symbol@, r as nat),
                decreases reps - r,
            {
                eco_push_str(&mut s, symbol);
                r = r + 1;
            }
            m = m % weight;
            i = i + 1;
            if m == 0 {
                proof {
                    assert(greedy(t, i as int, 0) == Seq::<char>::empty());
                }
                return s;
            }
        }
    }
    s
}

} // verus!
