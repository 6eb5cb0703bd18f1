//! Laws relating the public operations: validator/renderer agreement and
//! determinism.

use vstd::prelude::*;
use crate::catalog::NumeralSystem;
use crate::digits::bijective_digits;
use crate::digits::bijective_model;
use crate::digits::chars_of_digits;
use crate::digits::lemma_bijective_digits_bounded;
use crate::digits::lemma_bijective_digits_value;
use crate::engine::render_model;
use crate::engine::RepresentedNumber;
use crate::system::distinct_chars;
use crate::system::error_model;
use crate::system::valid_model;
use crate::system::NumeralSystemKind;
use crate::system::RepresentationError;

verus! {

/// Bijective enumeration: over an alphabet of distinct symbols, every
/// positive value has a rendering of its own; two different values never
/// render to the same string.
pub proof fn lemma_bijective_enumeration(table: Seq<char>, n1: u64, n2: u64)
    requires
        table.len() >= 1,
        distinct_chars(table),
        n1 >= 1,
        n2 >= 1,
        n1 != n2,
    ensures
        bijective_model(table, n1 as nat) != bijective_model(table, n2 as nat),
{
    let k = table.len();
    let ds1 = bijective_digits(k, n1 as nat);
    let ds2 = bijective_digits(k, n2 as nat);
    lemma_bijective_digits_value(k, n1 as nat);
    lemma_bijective_digits_value(k, n2 as nat);
    lemma_bijective_digits_bounded(k, n1 as nat);
    lemma_bijective_digits_bounded(k, n2 as nat);
    if chars_of_digits(table, ds1) == chars_of_digits(table, ds2) {
        assert(chars_of_digits(table, ds1).len() == ds1.len());
        assert(chars_of_digits(table, ds2).len() == ds2.len());
        assert(ds1.len() == ds2.len());
        assert forall|i: int| 0 <= i < ds1.len() implies ds1[i] == ds2[i] by {
            assert(chars_of_digits(table, ds1)[i] == chars_of_digits(table, ds2)[i]);
            assert(table[ds1[i] as int] == table[ds2[i] as int]);
        }
        assert(ds1 =~= ds2);
        assert(false);
    }
}

/// Validator/renderer agreement: for any system and value, a result of
/// [`crate::engine::validate`] and a result of [`crate::engine::render`]
/// for the same pair succeed together or fail together, and when they
/// fail they report the same error. (That a failed validation is never
/// followed by an out-of-bounds table access is part of what the
/// renderers' verification establishes: rendering is only ever specified,
/// and only ever runs, on validated values.)
pub proof fn lemma_validate_render_agree<'a>(
    system: &'a NumeralSystemKind,
    n: u64,
    v: Result<RepresentedNumber<'a>, RepresentationError>,
    r: Result<String, RepresentationError>,
)
    requires
        v is Ok <==> valid_model(*system, n),
        v matches Err(e) ==> e == error_model(*system, n),
        r is Ok <==> valid_model(*system, n),
        r matches Err(e) ==> e == error_model(*system, n),
    ensures
        v is Ok <==> r is Ok,
        v matches Err(e1) ==> (r matches Err(e2) && e1 == e2),
{
}

/// Determinism of the engine: two results of [`crate::engine::render`]
/// for the same system and value are identical, character for character,
/// error for error. The contract pins every result to a function of the
/// pair alone, so there is no hidden state to differ on; for delegated
/// Chinese numerals this rests on the converter's output being a function
/// of its arguments.
pub proof fn lemma_render_deterministic(
    system: &NumeralSystemKind,
    n: u64,
    r1: Result<String, RepresentationError>,
    r2: Result<String, RepresentationError>,
)
    requires
        r1 is Ok <==> valid_model(*system, n),
        r1 matches Ok(s) ==> s@ == render_model(*system, n),
        r1 matches Err(e) ==> e == error_model(*system, n),
        r2 is Ok <==> valid_model(*system, n),
        r2 matches Ok(s) ==> s@ == render_model(*system, n),
        r2 matches Err(e) ==> e == error_model(*system, n),
    ensures
        r1 is Ok <==> r2 is Ok,
        r1 matches Ok(s1) ==> (r2 matches Ok(s2) && s1@ == s2@),
        r1 matches Err(e1) ==> (r2 matches Err(e2) && e1 == e2),
{
}

/// Determinism of the catalog surface: two renderings by
/// [`NumeralSystem::apply`] of the same system and value are identical,
/// character for character.
pub proof fn lemma_apply_deterministic(system: NumeralSystem, n: u64, s1: Seq<char>, s2: Seq<char>)
    requires
        s1 == system.apply_model(n),
        s2 == system.apply_model(n),
    ensures
        s1 == s2,
{
}

} // verus!
