//! The engine: validation of a number against a system's domain, and
//! rendering by the kind-specific algorithm.

use vstd::prelude::*;
use crate::chinese::chinese_numeral;
use crate::chinese::chinese_ten_thousand;
use crate::digits::bijective_model;
use crate::digits::positional_model;
use crate::digits::symbolic_model;
use crate::renderers::additive_core;
use crate::renderers::alphabetic_core;
use crate::renderers::fixed_lookup;
use crate::renderers::numeric;
use crate::renderers::symbolic_core;
use crate::system::additive_model;
use crate::system::additive_view;
use crate::system::error_model;
use crate::system::valid_model;
use crate::system::AdditiveEntry;
use crate::system::ChineseCase;
use crate::system::ChineseVariant;
use crate::system::NumeralSystemKind;
use crate::system::RepresentationError;
use crate::text::string_of_chars;

verus! {

/// The canonical rendering of a representable `n` in a well-formed
/// system.
pub open spec fn render_model(kind: NumeralSystemKind, n: u64) -> Seq<char>
    recommends
        kind.wf(),
        valid_model(kind, n),
{
    match kind {
        NumeralSystemKind::Positional(t) => positional_model(t@, n as nat),
        NumeralSystemKind::Bijective(t) => bijective_model(t@, n as nat),
        NumeralSystemKind::Additive(entries) => additive_model(additive_view(entries@), n as nat),
        NumeralSystemKind::Symbolic(t) => symbolic_model(t@, n as nat),
        NumeralSystemKind::ZeroableFixed(t) => seq![t@[n as int]],
        NumeralSystemKind::NonZeroableFixed(t) => seq![t@[n - 1]],
        NumeralSystemKind::Delegated(v, c) => chinese_numeral(
            v == ChineseVariant::Traditional,
            c == ChineseCase::Upper,
            n,
        ),
    }
}

/// A number that has been validated against a numeral system: the system
/// is guaranteed able to render this exact value. The guarantee is
/// established once, by [`validate`], and never re-checked during
/// rendering; a value of this type cannot outlive the system definition
/// it refers to.
pub struct RepresentedNumber<'a> {
    system: &'a NumeralSystemKind,
    value: u64,
}

impl<'a> RepresentedNumber<'a> {
    /// The system this number was validated against.
    pub closed spec fn system_model(self) -> NumeralSystemKind {
        *self.system
    }

    /// The validated value.
    pub closed spec fn value_model(self) -> u64 {
        self.value
    }

    #[verifier::type_invariant]
    spec fn inv(self) -> bool {
        self.system.wf() && valid_model(*self.system, self.value)
    }

    /// Renders the validated value in its system. Cannot fail: validation
    /// already established that the value is representable.
    pub fn render(&self) -> (r: String)
        ensures
            r@ == render_model(self.system_model(), self.value_model()),
    {
        proof {
            use_type_invariant(&*self);
        }
        render_valid(self.system, self.value)
    }

    /// The validated value.
    pub fn value(&self) -> (r: u64)
        ensures
            r == self.value_model(),
    {
        self.value
    }
}

/// Checks `n` against the domain of `system`: a pure function of its two
/// arguments. On success the returned [`RepresentedNumber`] carries the
/// proof that `system` can render `n`; on failure the error says why not.
pub fn validate<'a>(system: &'a NumeralSystemKind, n: u64) -> (r: Result<
    RepresentedNumber<'a>,
    RepresentationError,
>)
    requires
        system.wf(),
    ensures
        r is Ok <==> valid_model(*system, n),
        r matches Ok(v) ==> v.system_model() == *system && v.value_model() == n,
        r matches Err(e) ==> e == error_model(*system, n),
{
    match system {
        NumeralSystemKind::Positional(_) => Ok(RepresentedNumber { system, value: n }),
        NumeralSystemKind::Bijective(_) => if n >= 1 {
            Ok(RepresentedNumber { system, value: n })
        } else {
            Err(RepresentationError::Zero)
        },
        NumeralSystemKind::Additive(entries) => if n >= 1 {
            Ok(RepresentedNumber { system, value: n })
        } else if entries.len() > 0 && entries[entries.len() - 1].weight == 0 {
            Ok(RepresentedNumber { system, value: n })
        } else {
            Err(RepresentationError::Zero)
        },
        NumeralSystemKind::Symbolic(_) => if n >= 1 {
            Ok(RepresentedNumber { system, value: n })
        } else {
            Err(RepresentationError::Zero)
        },
        NumeralSystemKind::ZeroableFixed(t) => if n < t.len() as u64 {
            Ok(RepresentedNumber { system, value: n })
        } else {
            Err(RepresentationError::TooLarge)
        },
        NumeralSystemKind::NonZeroableFixed(t) => if n == 0 {
            Err(RepresentationError::Zero)
        } else if n <= t.len() as u64 {
            Ok(RepresentedNumber { system, value: n })
        } else {
            Err(RepresentationError::TooLarge)
        },
        NumeralSystemKind::Delegated(_, _) => Ok(RepresentedNumber { system, value: n }),
    }
}

/// Renders a representable `n` by the algorithm of its kind.
fn render_valid(system: &NumeralSystemKind, n: u64) -> (r: String)
    requires
        system.wf(),
        valid_model(*system, n),
    ensures
        r@ == render_model(*system, n),
{
    match system {
        NumeralSystemKind::Positional(t) => numeric(t, n),
        NumeralSystemKind::Bijective(t) => alphabetic_core(t, n),
        NumeralSystemKind::Additive(entries) => render_additive_valid(entries, n),
        NumeralSystemKind::Symbolic(t) => symbolic_core(t, n),
        NumeralSystemKind::ZeroableFixed(t) => fixed_lookup(t, n),
        NumeralSystemKind::NonZeroableFixed(t) => fixed_lookup(t, n - 1),
        NumeralSystemKind::Delegated(v, c) => chinese_ten_thousand(*v, *c, n),
    }
}

/// Renders a representable `n` in sign-value notation: zero is the
/// weight-0 entry that validation guaranteed, anything else the greedy
/// decomposition.
fn render_additive_valid(entries: &Vec<AdditiveEntry>, n: u64) -> (r: String)
    requires
        n >= 1 || (entries@.len() > 0 && additive_view(entries@).last().1 == 0),
    ensures
        r@ == additive_model(additive_view(entries@), n as nat),
{
    if n == 0 {
        proof {
            assert(additive_view(entries@).last() == (entries@.last().symbol@,
                entries@.last().weight));
        }
        string_of_chars(&entries[entries.len() - 1].symbol)
    } else {
        additive_core(entries, n)
    }
}

/// Validates `n` against `system` and renders it in one call: the string
/// on success, the reason `n` is not representable on failure.
pub fn render(system: &NumeralSystemKind, n: u64) -> (r: Result<String, RepresentationError>)
    requires
        system.wf(),
    ensures
        r is Ok <==> valid_model(*system, n),
        r matches Ok(s) ==> s@ == render_model(*system, n),
        r matches Err(e) ==> e == error_model(*system, n),
{
    match validate(system, n) {
        Ok(v) => Ok(v.render()),
        Err(e) => Err(e),
    }
}

} // verus!
