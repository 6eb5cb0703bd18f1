//! Mathematical models of digit extraction: the digit sequences behind
//! positional notation, bijective numeration and symbol repetition.

use vstd::prelude::*;
use vstd::arithmetic::div_mod::lemma_div_decreases;
use vstd::arithmetic::div_mod::lemma_div_nonincreasing;

verus! {

/// The base-`radix` digit values of `n`, most significant first.
///
/// Every natural number has at least one digit, so `0` is the single
/// digit `0` rather than an empty sequence.
pub open spec fn positional_digits(radix: nat, n: nat) -> Seq<nat>
    decreases n,
    when radix >= 2
    via positional_digits_decreases
{
    if n < radix {
        seq![n]
    } else {
        positional_digits(radix, n / radix).push(n % radix)
    }
}

#[via_fn]
proof fn positional_digits_decreases(radix: nat, n: nat) {
    if n >= radix {
        lemma_div_decreases(n as int, radix as int);
    }
}

/// The bijective base-`k` digits of `n >= 1`, most significant first.
///
/// A digit value `d` stands for the `(d + 1)`-th symbol of the alphabet;
/// there is no digit for zero, so every positive integer has exactly one
/// representation.
pub open spec fn bijective_digits(k: nat, n: nat) -> Seq<nat>
    decreases n,
    when k >= 1 && n >= 1
    via bijective_digits_decreases
{
    if n <= k {
        seq![(n - 1) as nat]
    } else {
        bijective_digits(k, (((n - 1) as nat) / k)).push(((n - 1) as nat) % k)
    }
}

#[via_fn]
proof fn bijective_digits_decreases(k: nat, n: nat) {
    if k >= 1 && n > k {
        lemma_div_nonincreasing((n - 1) as int, k as int);
    }
}

/// `s` concatenated with itself `m` times.
pub open spec fn repeat_seq(s: Seq<char>, m: nat) -> Seq<char>
    decreases m,
{
    if m == 0 {
        Seq::empty()
    } else {
        s + repeat_seq(s, (m - 1) as nat)
    }
}

/// Appending one more copy at the back is the same as prepending it at
/// the front.
pub proof fn lemma_repeat_snoc(s: Seq<char>, m: nat)
    ensures
        repeat_seq(s, m + 1) =~= repeat_seq(s, m) + s,
    decreases m,
{
    if m > 0 {
        lemma_repeat_snoc(s, (m - 1) as nat);
        assert(s + (repeat_seq(s, (m - 1) as nat) + s) =~= (s + repeat_seq(s, (m - 1) as nat))
            + s);
    }
}

/// Digit values translated through a symbol table.
pub open spec fn chars_of_digits(table: Seq<char>, ds: Seq<nat>) -> Seq<char> {
    ds.map_values(|d: nat| table[d as int])
}

/// Positional rendering of `n` over a digit alphabet.
pub open spec fn positional_model(table: Seq<char>, n: nat) -> Seq<char> {
    chars_of_digits(table, positional_digits(table.len(), n))
}

/// Bijective rendering of `n >= 1` over an alphabet with no zero symbol.
pub open spec fn bijective_model(table: Seq<char>, n: nat) -> Seq<char> {
    chars_of_digits(table, bijective_digits(table.len(), n))
}

/// Repeating-symbol rendering of `n >= 1`: the symbol at index
/// `(n - 1) % k` repeated `ceil(n / k)` times, where `k` is the symbol
/// count.
pub open spec fn symbolic_model(table: Seq<char>, n: nat) -> Seq<char>
    recommends
        table.len() >= 1,
        n >= 1,
{
    repeat_seq(
        seq![table[((((n - 1) as nat) % table.len()) as int)]],
        ((n - 1) as nat) / table.len() + 1,
    )
}

/// The character ordinarily used for the decimal digit value `d < 10`.
pub open spec fn decimal_digit(d: nat) -> char {
    if d == 0 {
        '0'
    } else if d == 1 {
        '1'
    } else if d == 2 {
        '2'
    } else if d == 3 {
        '3'
    } else if d == 4 {
        '4'
    } else if d == 5 {
        '5'
    } else if d == 6 {
        '6'
    } else if d == 7 {
        '7'
    } else if d == 8 {
        '8'
    } else {
        '9'
    }
}

/// Ordinary decimal notation for `n`: its base-10 digits written with the
/// usual digit characters, most significant first.
pub open spec fn decimal_chars(n: nat) -> Seq<char> {
    positional_digits(10, n).map_values(|d: nat| decimal_digit(d))
}

/// The ten decimal digit characters in order, the alphabet of base-ten
/// positional notation.
pub open spec fn decimal_digit_table() -> Seq<char> {
    seq!['0', '1', '2', '3', '4', '5', '6', '7', '8', '9']
}

/// Every base-`radix` digit of `n` is a valid index into an alphabet of
/// `radix` symbols, and `n` has at least one digit.
pub proof fn lemma_positional_digits_bounded(radix: nat, n: nat)
    requires
        radix >= 2,
    ensures
        positional_digits(radix, n).len() >= 1,
        forall|i: int|
            0 <= i < positional_digits(radix, n).len() ==> positional_digits(radix, n)[i] < radix,
    decreases n,
{
    if n >= radix {
        lemma_div_decreases(n as int, radix as int);
        lemma_positional_digits_bounded(radix, n / radix);
    }
}

/// Every bijective base-`k` digit of `n >= 1` is a valid index into an
/// alphabet of `k` symbols, and `n` has at least one digit.
pub proof fn lemma_bijective_digits_bounded(k: nat, n: nat)
    requires
        k >= 1,
        n >= 1,
    ensures
        bijective_digits(k, n).len() >= 1,
        forall|i: int| 0 <= i < bijective_digits(k, n).len() ==> bijective_digits(k, n)[i] < k,
    decreases n,
{
    if n > k {
        lemma_div_nonincreasing((n - 1) as int, k as int);
        vstd::arithmetic::div_mod::lemma_div_is_ordered(k as int, (n - 1) as int, k as int);
        vstd::arithmetic::div_mod::lemma_div_by_self(k as int);
        lemma_bijective_digits_bounded(k, (((n - 1) as nat) / k));
    }
}

/// The value a bijective digit sequence stands for: each digit `d`
/// counts as `d + 1`, there being no digit for zero.
pub open spec fn bijective_value(k: nat, ds: Seq<nat>) -> nat
    decreases ds.len(),
{
    if ds.len() == 0 {
        0
    } else {
        bijective_value(k, ds.drop_last()) * k + ds.last() + 1
    }
}

/// Round trip: the bijective digits of `n` stand for exactly `n`.
pub proof fn lemma_bijective_digits_value(k: nat, n: nat)
    requires
        k >= 1,
        n >= 1,
    ensures
        bijective_value(k, bijective_digits(k, n)) == n,
    decreases n,
{
    if n <= k {
        let s1 = seq![(n - 1) as nat];
        assert(bijective_digits(k, n) =~= s1);
        assert(s1.drop_last() =~= Seq::<nat>::empty());
        let v0 = bijective_value(k, s1.drop_last());
        assert(v0 == 0);
        assert(v0 * k == 0) by (nonlinear_arith)
            requires
                v0 == 0,
        ;
        assert(bijective_value(k, s1) == v0 * k + s1.last() + 1);
        assert(s1.last() == n - 1);
    } else {
        let m = ((n - 1) as nat) / k;
        lemma_div_nonincreasing((n - 1) as int, k as int);
        vstd::arithmetic::div_mod::lemma_div_is_ordered(k as int, (n - 1) as int, k as int);
        vstd::arithmetic::div_mod::lemma_div_by_self(k as int);
        lemma_bijective_digits_value(k, m);
        vstd::arithmetic::div_mod::lemma_fundamental_div_mod((n - 1) as int, k as int);
        let ds = bijective_digits(k, n);
        assert(ds == bijective_digits(k, m).push(((n - 1) as nat) % k));
        assert(ds.drop_last() =~= bijective_digits(k, m));
        assert(ds.last() == ((n - 1) as nat) % k);
        assert(m * k == k * m) by (nonlinear_arith);
        assert(bijective_value(k, ds) == m * k + ((n - 1) as nat) % k + 1);
        assert(k * m + ((n - 1) as nat) % k == (n - 1) as nat);
    }
}

/// Positional rendering over the decimal digit alphabet is ordinary
/// decimal notation, for every value.
pub proof fn lemma_base_ten_positional_is_decimal(n: nat)
    ensures
        positional_model(decimal_digit_table(), n) == decimal_chars(n),
{
    let table = decimal_digit_table();
    assert(table.len() == 10);
    lemma_positional_digits_bounded(10, n);
    let ds = positional_digits(10, n);
    assert(forall|i: int|
        0 <= i < ds.len() ==> chars_of_digits(table, ds)[i] == decimal_digit(ds[i]));
    assert(chars_of_digits(table, ds) =~= ds.map_values(|d: nat| decimal_digit(d)));
}

} // verus!
