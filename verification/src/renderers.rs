//! The five table-driven rendering algorithms, each proved against its
//! mathematical model.

use vstd::prelude::*;
use crate::digits::bijective_digits;
use crate::digits::bijective_model;
use crate::digits::chars_of_digits;
use crate::digits::decimal_chars;
use crate::digits::decimal_digit_table;
use crate::digits::lemma_base_ten_positional_is_decimal;
use crate::digits::lemma_repeat_snoc;
use crate::digits::positional_digits;
use crate::digits::positional_model;
use crate::digits::repeat_seq;
use crate::digits::symbolic_model;
use crate::system::additive_seq;
use crate::system::additive_view;
use crate::system::AdditiveEntry;
use crate::text::reverse_chars;
use crate::text::string_of_chars;

verus! {

/// Renders `n` in big-endian positional notation over the digit alphabet
/// `symbols`; the symbol at index 0 is the dedicated zero digit.
pub fn numeric(symbols: &Vec<char>, n: u64) -> (r: String)
    requires
        symbols@.len() >= 2,
    ensures
        r@ == positional_model(symbols@, n as nat),
{
    let radix: u64 = symbols.len() as u64;
    if n == 0 {
        let mut out: Vec<char> = Vec::new();
        out.push(symbols[0]);
        proof {
            assert(positional_model(symbols@, 0) =~= seq![symbols@[0]]);
        }
        return string_of_chars(&out);
    }
    let mut rev: Vec<char> = Vec::new();
    let mut m: u64 = n;
    proof {
        assert(symbols@.len() <= usize::MAX);
    }
    while m != 0
        invariant
            radix == symbols@.len(),
            radix >= 2,
            symbols@.len() <= usize::MAX,
            m == 0 ==> positional_model(symbols@, n as nat) =~= rev@.reverse(),
            m != 0 ==> positional_model(symbols@, n as nat) =~= chars_of_digits(
                symbols@,
                positional_digits(radix as nat, m as nat),
            ) + rev@.reverse(),
        decreases m,
    {
        let d: u64 = m % radix;
        let ghost prev_rev = rev@;
        let ghost prev_m = m as nat;
        let idx: usize = d as usize;
        proof {
            assert(idx as u64 == d);
        }
        rev.push(symbols[idx]);
        m = m / radix;
        proof {
            assert(rev@.reverse() =~= seq![symbols@[d as int]] + prev_rev.reverse());
            if prev_m < radix {
                assert(m == 0) by {
                    vstd::arithmetic::div_mod::lemma_basic_div(prev_m as int, radix as int);
                }
                vstd::arithmetic::div_mod::lemma_small_mod(prev_m, radix as nat);
                assert(chars_of_digits(symbols@, positional_digits(radix as nat, prev_m))
                    =~= seq![symbols@[d as int]]);
            } else {
                assert(m >= 1) by {
                    vstd::arithmetic::div_mod::lemma_div_is_ordered(radix as int, prev_m as int,
                        radix as int);
                    vstd::arithmetic::div_mod::lemma_div_by_self(radix as int);
                }
                assert(chars_of_digits(symbols@, positional_digits(radix as nat, prev_m))
                    =~= chars_of_digits(symbols@, positional_digits(radix as nat, m as nat)).push(
                    symbols@[d as int],
                ));
                assert(chars_of_digits(symbols@, positional_digits(radix as nat, prev_m))
                    + prev_rev.reverse() =~= chars_of_digits(
                    symbols@,
                    positional_digits(radix as nat, m as nat),
                ) + rev@.reverse());
            }
        }
    }
    let out = reverse_chars(&rev);
    string_of_chars(&out)
}

/// Renders `n >= 1` in bijective numeration over `symbols`: positional
/// peeling with digits 1 through the alphabet size and no symbol for zero.
pub fn alphabetic_core(symbols: &Vec<char>, n: u64) -> (r: String)
    requires
        symbols@.len() >= 1,
        n >= 1,
    ensures
        r@ == bijective_model(symbols@, n as nat),
{
    let k: u64 = symbols.len() as u64;
    let mut rev: Vec<char> = Vec::new();
    let mut m: u64 = n;
    proof {
        assert(symbols@.len() <= usize::MAX);
    }
    while m != 0
        invariant
            k == symbols@.len(),
            k >= 1,
            symbols@.len() <= usize::MAX,
            m == 0 ==> bijective_model(symbols@, n as nat) =~= rev@.reverse(),
            m != 0 ==> bijective_model(symbols@, n as nat) =~= chars_of_digits(
                symbols@,
                bijective_digits(k as nat, m as nat),
            ) + rev@.reverse(),
        decreases m,
    {
        let ghost prev_rev = rev@;
        let ghost prev_m = m as nat;
        m = m - 1;
        let d: u64 = m % k;
        let idx: usize = d as usize;
        proof {
            assert(idx as u64 == d);
        }
        rev.push(symbols[idx]);
        m = m / k;
        proof {
            assert(rev@.reverse() =~= seq![symbols@[d as int]] + prev_rev.reverse());
            if prev_m <= k {
                assert(m == 0) by {
                    vstd::arithmetic::div_mod::lemma_basic_div(((prev_m - 1) as nat) as int,
                        k as int);
                }
                vstd::arithmetic::div_mod::lemma_small_mod((prev_m - 1) as nat, k as nat);
                assert(chars_of_digits(symbols@, bijective_digits(k as nat, prev_m))
                    =~= seq![symbols@[d as int]]);
            } else {
                assert(m >= 1) by {
                    vstd::arithmetic::div_mod::lemma_div_is_ordered(k as int, (prev_m - 1) as int,
                        k as int);
                    vstd::arithmetic::div_mod::lemma_div_by_self(k as int);
                }
                assert(chars_of_digits(symbols@, bijective_digits(k as nat, prev_m))
                    =~= chars_of_digits(symbols@, bijective_digits(k as nat, m as nat)).push(
                    symbols@[d as int],
                ));
                assert(chars_of_digits(symbols@, bijective_digits(k as nat, prev_m))
                    + prev_rev.reverse() =~= chars_of_digits(
                    symbols@,
                    bijective_digits(k as nat, m as nat),
                ) + rev@.reverse());
            }
        }
    }
    let out = reverse_chars(&rev);
    string_of_chars(&out)
}

/// Total variant of the bijective rendering, as the catalog uses it:
/// zero, which bijective numeration cannot express, falls back to a dash.
pub open spec fn alphabetic_total_model(table: Seq<char>, n: nat) -> Seq<char> {
    if n == 0 {
        seq!['-']
    } else {
        bijective_model(table, n)
    }
}

/// Renders `n` in bijective numeration over `symbols`, with a dash for
/// zero.
pub fn alphabetic(symbols: &Vec<char>, n: u64) -> (r: String)
    requires
        symbols@.len() >= 1,
    ensures
        r@ == alphabetic_total_model(symbols@, n as nat),
{
    if n == 0 {
        let mut out: Vec<char> = Vec::new();
        out.push('-');
        string_of_chars(&out)
    } else {
        alphabetic_core(symbols, n)
    }
}

/// Renders `n >= 1` by repeating the symbol at index `(n - 1) % k`
/// exactly `ceil(n / k)` times, where `k` is the symbol count.
pub fn symbolic_core(symbols: &Vec<char>, n: u64) -> (r: String)
    requires
        symbols@.len() >= 1,
        n >= 1,
    ensures
        r@ == symbolic_model(symbols@, n as nat),
{
    let k: u64 = symbols.len() as u64;
    let d: u64 = (n - 1) % k;
    proof {
        vstd::arithmetic::div_mod::lemma_div_nonincreasing((n - 1) as int, k as int);
    }
    let reps: u64 = (n - 1) / k + 1;
    let idx: usize = d as usize;
    proof {
        assert(symbols@.len() <= usize::MAX);
        assert(idx as u64 == d);
    }
    let c: char = symbols[idx];
    let mut out: Vec<char> = Vec::new();
    let mut done: u64 = 0;
    while done < reps
        invariant
            done <= reps,
            out@ =~= repeat_seq(seq![c], done as nat),
        decreases reps - done,
    {
        out.push(c);
        done = done + 1;
        proof {
            lemma_repeat_snoc(seq![c], (done - 1) as nat);
            assert(out@ =~= repeat_seq(seq![c], done as nat));
        }
    }
    string_of_chars(&out)
}

/// Total variant of the repeating-symbol rendering, as the catalog uses
/// it: zero falls back to a dash.
pub open spec fn symbolic_total_model(table: Seq<char>, n: nat) -> Seq<char> {
    if n == 0 {
        seq!['-']
    } else {
        symbolic_model(table, n)
    }
}

/// Renders `n` by repeating a cycling symbol, with a dash for zero.
pub fn symbolic(symbols: &Vec<char>, n: u64) -> (r: String)
    requires
        symbols@.len() >= 1,
    ensures
        r@ == symbolic_total_model(symbols@, n as nat),
{
    if n == 0 {
        let mut out: Vec<char> = Vec::new();
        out.push('-');
        string_of_chars(&out)
    } else {
        symbolic_core(symbols, n)
    }
}

/// The one-symbol string at index `i` of a fixed symbol table.
pub fn fixed_lookup(symbols: &Vec<char>, i: u64) -> (r: String)
    requires
        (i as nat) < symbols@.len(),
    ensures
        r@ == seq![symbols@[i as int]],
{
    let n_syms: usize = symbols.len();
    let idx: usize = i as usize;
    proof {
        assert(n_syms == symbols@.len());
        assert(idx as u64 == i);
    }
    let mut out: Vec<char> = Vec::new();
    out.push(symbols[idx]);
    string_of_chars(&out)
}

/// The ten decimal digit characters as a table.
pub fn decimal_digits_vec() -> (v: Vec<char>)
    ensures
        v@ == decimal_digit_table(),
{
    let v: Vec<char> = vec!['0', '1', '2', '3', '4', '5', '6', '7', '8', '9'];
    proof {
        assert(v@ =~= decimal_digit_table());
    }
    v
}

/// Total variant of the fixed-table rendering, as the catalog uses it:
/// values beyond the table fall back to ordinary decimal notation.
pub open spec fn fixed_total_model(table: Seq<char>, n: nat) -> Seq<char> {
    if n < table.len() {
        seq![table[n as int]]
    } else {
        decimal_chars(n)
    }
}

/// Renders `n` from a fixed symbol table indexed from 0, falling back to
/// decimal notation when `n` is beyond the table.
pub fn fixed(symbols: &Vec<char>, n: u64) -> (r: String)
    ensures
        r@ == fixed_total_model(symbols@, n as nat),
{
    let len64: u64 = symbols.len() as u64;
    if n < len64 {
        fixed_lookup(symbols, n)
    } else {
        let table = decimal_digits_vec();
        let r = numeric(&table, n);
        proof {
            lemma_base_ten_positional_is_decimal(n as nat);
        }
        r
    }
}

/// Appends the characters of `sym` to `out`.
fn push_chars(out: &mut Vec<char>, sym: &Vec<char>)
    ensures
        final(out)@ == old(out)@ + sym@,
{
    let mut j: usize = 0;
    while j < sym.len()
        invariant
            j <= sym.len(),
            out@ =~= old(out)@ + sym@.subrange(0, j as int),
        decreases sym.len() - j,
    {
        out.push(sym[j]);
        j = j + 1;
        proof {
            assert(out@ =~= old(out)@ + sym@.subrange(0, j as int));
        }
    }
    proof {
        assert(old(out)@ + sym@.subrange(0, sym@.len() as int) =~= old(out)@ + sym@);
    }
}

/// Renders `n >= 1` by greedy sign-value decomposition over the numeral
/// list: each positive weight that fits is emitted as many times as it
/// divides into the remainder.
pub fn additive_core(entries: &Vec<AdditiveEntry>, n: u64) -> (r: String)
    requires
        n >= 1,
    ensures
        r@ == additive_seq(additive_view(entries@), n as nat),
{
    let ghost list = additive_view(entries@);
    let mut out: Vec<char> = Vec::new();
    let mut m: u64 = n;
    let mut i: usize = 0;
    proof {
        assert(list.skip(0) =~= list);
        assert(Seq::<char>::empty() + additive_seq(list, n as nat) =~= additive_seq(
            list,
            n as nat,
        ));
    }
    while i < entries.len()
        invariant
            i <= entries@.len(),
            list == additive_view(entries@),
            additive_seq(list, n as nat) =~= out@ + additive_seq(list.skip(i as int), m as nat),
        decreases entries@.len() - i,
    {
        let ghost prev_out = out@;
        let ghost prev_m = m as nat;
        let w: u64 = entries[i].weight;
        if w != 0 && w <= m {
            let reps: u64 = m / w;
            let mut done: u64 = 0;
            while done < reps
                invariant
                    done <= reps,
                    i < entries@.len(),
                    out@ =~= prev_out + repeat_seq(entries@[i as int].symbol@, done as nat),
                decreases reps - done,
            {
                push_chars(&mut out, &entries[i].symbol);
                done = done + 1;
                proof {
                    lemma_repeat_snoc(entries@[i as int].symbol@, (done - 1) as nat);
                    assert(out@ =~= prev_out + repeat_seq(entries@[i as int].symbol@,
                        done as nat));
                }
            }
            m = m % w;
        }
        i = i + 1;
        proof {
            let rest = list.skip((i - 1) as int);
            assert(rest[0] == list[i - 1]);
            assert(list[i - 1] == (entries@[i - 1].symbol@, entries@[i - 1].weight));
            assert(rest.drop_first() =~= list.skip(i as int));
            if w == 0 || (w as nat) > prev_m {
                assert(additive_seq(rest, prev_m) == additive_seq(list.skip(i as int), prev_m));
            } else {
                assert(additive_seq(rest, prev_m) == repeat_seq(entries@[i - 1].symbol@,
                    prev_m / (w as nat)) + additive_seq(list.skip(i as int), m as nat));
                assert(prev_out + (repeat_seq(entries@[i - 1].symbol@, prev_m / (w as nat))
                    + additive_seq(list.skip(i as int), m as nat)) =~= out@ + additive_seq(
                    list.skip(i as int),
                    m as nat,
                ));
            }
        }
    }
    proof {
        assert(additive_seq(list.skip(list.len() as int), m as nat) =~= Seq::<char>::empty());
        assert(out@ + Seq::<char>::empty() =~= out@);
    }
    string_of_chars(&out)
}

/// Total variant of the sign-value rendering, as the catalog uses it:
/// zero is the weight-0 entry's symbol if the list ends in one, and the
/// digit `0` otherwise.
pub open spec fn additive_total_model(list: Seq<(Seq<char>, u64)>, n: nat) -> Seq<char> {
    if n == 0 {
        if list.len() > 0 && list.last().1 == 0 {
            list.last().0
        } else {
            seq!['0']
        }
    } else {
        additive_seq(list, n)
    }
}

/// Renders `n` in sign-value notation over a weight-descending numeral
/// list, with the list's zero numeral, or the digit `0`, for zero.
pub fn additive(entries: &Vec<AdditiveEntry>, n: u64) -> (r: String)
    ensures
        r@ == additive_total_model(additive_view(entries@), n as nat),
{
    if n == 0 {
        if entries.len() > 0 {
            let last = &entries[entries.len() - 1];
            proof {
                assert(additive_view(entries@).last() == (entries@.last().symbol@,
                    entries@.last().weight));
            }
            if last.weight == 0 {
                return string_of_chars(&last.symbol);
            }
        }
        let mut out: Vec<char> = Vec::new();
        out.push('0');
        return string_of_chars(&out);
    }
    additive_core(entries, n)
}

} // verus!
