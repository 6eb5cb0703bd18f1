//! Tests of the engine surface: validation, rendering, and the error
//! taxonomy.

use numeral_systems::catalog::NumeralSystem;
use numeral_systems::render;
use numeral_systems::validate;
use numeral_systems::AdditiveEntry;
use numeral_systems::ChineseCase;
use numeral_systems::ChineseVariant;
use numeral_systems::NumeralSystemKind;
use numeral_systems::RepresentationError;

fn entry(symbol: &str, weight: u64) -> AdditiveEntry {
    AdditiveEntry { symbol: symbol.chars().collect(), weight }
}

fn distinct_symbols(count: u32) -> Vec<char> {
    (0..count).map(|i| char::from_u32('0' as u32 + i).unwrap()).collect()
}

fn sample_kinds() -> Vec<NumeralSystemKind> {
    vec![
        NumeralSystemKind::Positional(vec!['0', '1', '2', '3', '4', '5', '6', '7', '8', '9']),
        NumeralSystemKind::Bijective(vec!['a', 'b', 'c']),
        NumeralSystemKind::Additive(vec![entry("x", 10), entry("ix", 9), entry("v", 5), entry("iv", 4), entry("i", 1)]),
        NumeralSystemKind::Additive(vec![entry("i", 1), entry("n", 0)]),
        NumeralSystemKind::Symbolic(vec!['*', '+']),
        NumeralSystemKind::ZeroableFixed(distinct_symbols(5)),
        NumeralSystemKind::NonZeroableFixed(distinct_symbols(5)),
        NumeralSystemKind::Delegated(ChineseVariant::Simple, ChineseCase::Lower),
        NumeralSystemKind::Delegated(ChineseVariant::Traditional, ChineseCase::Upper),
    ]
}

#[test]
fn zeroable_fixed_bounds() {
    let kind = NumeralSystemKind::ZeroableFixed(distinct_symbols(51));
    for n in 0u64..=50 {
        assert!(render(&kind, n).is_ok());
    }
    assert_eq!(render(&kind, 51), Err(RepresentationError::TooLarge));
}

#[test]
fn nonzeroable_fixed_bounds() {
    let kind = NumeralSystemKind::NonZeroableFixed(distinct_symbols(10));
    assert_eq!(render(&kind, 0), Err(RepresentationError::Zero));
    for n in 1u64..=10 {
        assert!(render(&kind, n).is_ok());
    }
    assert_eq!(render(&kind, 11), Err(RepresentationError::TooLarge));
}

#[test]
fn fixed_lookups_index_from_the_right_base() {
    let zeroable = NumeralSystemKind::ZeroableFixed(vec!['a', 'b', 'c']);
    assert_eq!(render(&zeroable, 0).unwrap(), "a");
    assert_eq!(render(&zeroable, 2).unwrap(), "c");
    let nonzeroable = NumeralSystemKind::NonZeroableFixed(vec!['a', 'b', 'c']);
    assert_eq!(render(&nonzeroable, 1).unwrap(), "a");
    assert_eq!(render(&nonzeroable, 3).unwrap(), "c");
}

#[test]
fn zero_rejections() {
    assert_eq!(
        render(&NumeralSystemKind::Bijective(vec!['a', 'b']), 0),
        Err(RepresentationError::Zero)
    );
    assert_eq!(
        render(&NumeralSystemKind::Symbolic(vec!['*']), 0),
        Err(RepresentationError::Zero)
    );
    assert_eq!(
        render(&NumeralSystemKind::Additive(vec![entry("i", 1)]), 0),
        Err(RepresentationError::Zero)
    );
}

#[test]
fn additive_zero_entry_renders_zero() {
    let kind = NumeralSystemKind::Additive(vec![entry("i", 1), entry("n", 0)]);
    assert_eq!(render(&kind, 0).unwrap(), "n");
    assert_eq!(render(&kind, 3).unwrap(), "iii");
}

#[test]
fn positional_and_delegated_accept_everything() {
    let positional = NumeralSystemKind::Positional(vec!['0', '1']);
    assert_eq!(render(&positional, 0).unwrap(), "0");
    assert_eq!(render(&positional, 5).unwrap(), "101");
    assert!(render(&positional, u64::MAX).is_ok());
    let delegated = NumeralSystemKind::Delegated(ChineseVariant::Simple, ChineseCase::Lower);
    assert_eq!(render(&delegated, 123).unwrap(), "一百二十三");
    assert!(render(&delegated, u64::MAX).is_ok());
}

#[test]
fn validate_and_render_agree() {
    let values = [0u64, 1, 2, 4, 5, 6, 10, 11, 50, 51, 52, 1000, 1999];
    for kind in sample_kinds() {
        for &n in values.iter() {
            let validated = validate(&kind, n);
            let rendered = render(&kind, n);
            assert_eq!(validated.is_ok(), rendered.is_ok());
            if let (Err(e1), Err(e2)) = (&validated, &rendered) {
                assert_eq!(e1, e2);
            }
        }
    }
}

#[test]
fn represented_number_renders_its_value() {
    let kind = NumeralSystemKind::Bijective(vec!['a', 'b', 'c']);
    let validated = validate(&kind, 4).unwrap();
    assert_eq!(validated.value(), 4);
    assert_eq!(validated.render(), "aa");
    assert_eq!(render(&kind, 4).unwrap(), "aa");
}

#[test]
fn rendering_is_deterministic() {
    let values = [0u64, 1, 7, 26, 27, 702, 703, 1994];
    for kind in sample_kinds() {
        for &n in values.iter() {
            assert_eq!(render(&kind, n), render(&kind, n));
        }
    }
    let systems = [
        NumeralSystem::Arabic,
        NumeralSystem::LowerLatin,
        NumeralSystem::UpperRoman,
        NumeralSystem::LowerGreek,
        NumeralSystem::Symbol,
        NumeralSystem::Hebrew,
        NumeralSystem::LowerSimplifiedChinese,
        NumeralSystem::UpperTraditionalChinese,
        NumeralSystem::KatakanaIroha,
        NumeralSystem::CircledNumber,
    ];
    for system in systems.iter() {
        for &n in values.iter() {
            assert_eq!(system.apply(n), system.apply(n));
        }
    }
}
