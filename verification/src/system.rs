//! Numeral-system definitions: the closed set of system kinds, their
//! well-formedness, the domain of each kind, and the error taxonomy.

use vstd::prelude::*;
use crate::digits::repeat_seq;

verus! {

/// One entry of a sign-value numeral list: a symbol string, given as its
/// characters, and the value it stands for.
pub struct AdditiveEntry {
    pub symbol: Vec<char>,
    pub weight: u64,
}

/// The Chinese writing system a delegated rendering uses.
#[derive(Clone, Copy, Debug, PartialEq, Eq, Structural)]
pub enum ChineseVariant {
    Simple,
    Traditional,
}

/// Standard ("lower") or banknote ("upper") Chinese numeral characters.
#[derive(Clone, Copy, Debug, PartialEq, Eq, Structural)]
pub enum ChineseCase {
    Lower,
    Upper,
}

/// A numeral system: one of the five table-driven rendering algorithms,
/// with its parameters, or delegation to the Chinese-numeral converter.
pub enum NumeralSystemKind {
    /// Place-value notation over a digit alphabet of at least two symbols;
    /// the symbol at index 0 is the dedicated zero digit.
    Positional(Vec<char>),
    /// Bijective numeration over an alphabet of at least one symbol; there
    /// is no symbol for zero.
    Bijective(Vec<char>),
    /// Sign-value notation over a numeral list in strictly decreasing
    /// weight order; a weight-0 entry, which strict ordering puts last, is
    /// the literal rendering of zero.
    Additive(Vec<AdditiveEntry>),
    /// A cycling symbol repeated more and more often as values grow.
    Symbolic(Vec<char>),
    /// A fixed symbol table indexed from 0.
    ZeroableFixed(Vec<char>),
    /// A fixed symbol table indexed from 1.
    NonZeroableFixed(Vec<char>),
    /// Chinese numerals, rendered by the external converter.
    Delegated(ChineseVariant, ChineseCase),
}

/// Why a number has no rendering in a system: either the system cannot
/// express zero, or the number exceeds a fixed table's capacity.
#[derive(Clone, Copy, Debug, PartialEq, Eq, Structural)]
pub enum RepresentationError {
    Zero,
    TooLarge,
}

/// No character occurs twice in the alphabet.
pub open spec fn distinct_chars(s: Seq<char>) -> bool {
    forall|i: int, j: int| 0 <= i < j < s.len() ==> s[i] != s[j]
}

/// The mathematical value of a numeral list: each entry as the pair of
/// its symbol characters and its weight.
pub open spec fn additive_view(entries: Seq<AdditiveEntry>) -> Seq<(Seq<char>, u64)> {
    entries.map_values(|e: AdditiveEntry| (e.symbol@, e.weight))
}

/// The numeral list is ordered by strictly decreasing weight, which also
/// puts a weight-0 entry, if any, last.
pub open spec fn strictly_decreasing_weights(list: Seq<(Seq<char>, u64)>) -> bool {
    forall|i: int, j: int| 0 <= i < j < list.len() ==> list[i].1 > list[j].1
}

impl NumeralSystemKind {
    /// A well-formed system definition. Malformed definitions are a caller
    /// programming error; the engine takes well-formedness as a
    /// precondition and never re-checks it at run time.
    pub open spec fn wf(self) -> bool {
        match self {
            NumeralSystemKind::Positional(t) => t@.len() >= 2 && distinct_chars(t@),
            NumeralSystemKind::Bijective(t) => t@.len() >= 1 && distinct_chars(t@),
            NumeralSystemKind::Additive(entries) => strictly_decreasing_weights(
                additive_view(entries@),
            ),
            NumeralSystemKind::Symbolic(t) => t@.len() >= 1 && distinct_chars(t@),
            NumeralSystemKind::ZeroableFixed(_) => true,
            NumeralSystemKind::NonZeroableFixed(_) => true,
            NumeralSystemKind::Delegated(_, _) => true,
        }
    }
}

/// The domain of a system: whether `n` is representable in `kind`.
pub open spec fn valid_model(kind: NumeralSystemKind, n: u64) -> bool {
    match kind {
        NumeralSystemKind::Positional(_) => true,
        NumeralSystemKind::Bijective(_) => n >= 1,
        NumeralSystemKind::Additive(entries) => n >= 1 || (entries@.len() > 0
            && additive_view(entries@).last().1 == 0),
        NumeralSystemKind::Symbolic(_) => n >= 1,
        NumeralSystemKind::ZeroableFixed(t) => (n as nat) < t@.len(),
        NumeralSystemKind::NonZeroableFixed(t) => 1 <= n && (n as nat) <= t@.len(),
        NumeralSystemKind::Delegated(_, _) => true,
    }
}

/// The error reported for a number outside a system's domain.
pub open spec fn error_model(kind: NumeralSystemKind, n: u64) -> RepresentationError
    recommends
        !valid_model(kind, n),
{
    match kind {
        NumeralSystemKind::ZeroableFixed(_) => RepresentationError::TooLarge,
        NumeralSystemKind::NonZeroableFixed(_) => if n == 0 {
            RepresentationError::Zero
        } else {
            RepresentationError::TooLarge
        },
        _ => RepresentationError::Zero,
    }
}

/// Greedy sign-value decomposition of `n` over the part of the numeral
/// list that has not been consumed yet: for the first entry whose positive
/// weight fits into `n`, the entry's symbol is emitted once per time its
/// weight divides into `n`, and the remainder is decomposed over the rest
/// of the list. A list that does not cover every residue down to 1 leaves
/// a remainder unrendered; completeness of the list is the caller's
/// contract, not checked here.
pub open spec fn additive_seq(list: Seq<(Seq<char>, u64)>, n: nat) -> Seq<char>
    decreases list.len(),
{
    if n == 0 || list.len() == 0 {
        Seq::empty()
    } else {
        let e = list[0];
        if e.1 == 0 || (e.1 as nat) > n {
            additive_seq(list.drop_first(), n)
        } else {
            repeat_seq(e.0, n / (e.1 as nat)) + additive_seq(list.drop_first(), n % (e.1 as nat))
        }
    }
}

/// Sign-value rendering of a representable `n`: zero is the weight-0
/// entry's symbol, anything else the greedy decomposition.
pub open spec fn additive_model(list: Seq<(Seq<char>, u64)>, n: nat) -> Seq<char>
    recommends
        n >= 1 || (list.len() > 0 && list.last().1 == 0),
{
    if n == 0 {
        list.last().0
    } else {
        additive_seq(list, n)
    }
}

} // verus!
