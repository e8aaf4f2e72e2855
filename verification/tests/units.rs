use gpu_status::number::lay_out;
use gpu_status::suffix::{select_exp_level, Suffix};
use gpu_status::unit::Unit;

fn named_units() -> Vec<(Unit, &'static str)> {
    vec![
        (Unit::BitsPerSecond, "Bi/s"),
        (Unit::BytesPerSecond, "B/s"),
        (Unit::Percents, "%"),
        (Unit::Degrees, "°"),
        (Unit::Seconds, "s"),
        (Unit::Watts, "W"),
        (Unit::Hertz, "Hz"),
        (Unit::Bytes, "B"),
        (Unit::Unitless, ""),
    ]
}

fn all_suffixes() -> Vec<(Suffix, &'static str, &'static str, i32)> {
    vec![
        (Suffix::Nano, "n", "n", -3),
        (Suffix::Micro, "u", "u", -2),
        (Suffix::Milli, "m", "m", -1),
        (Suffix::One, "1", "", 0),
        (Suffix::Kilo, "K", "K", 1),
        (Suffix::Mega, "M", "M", 2),
        (Suffix::Giga, "G", "G", 3),
        (Suffix::Tera, "T", "T", 4),
    ]
}

#[test]
fn unit_tokens_are_canonical() {
    for (unit, token) in named_units() {
        assert_eq!(unit.to_string(), token);
    }
}

#[test]
fn named_units_round_trip() {
    for (unit, token) in named_units() {
        let back = Unit::from_string(&unit.to_string());
        assert_eq!(format!("{:?}", back), format!("{:?}", unit));
        assert_eq!(back.to_string(), token);
    }
}

#[test]
fn unknown_unit_is_kept_verbatim() {
    let unit = Unit::from_string("rpm");
    assert!(matches!(&unit, Unit::Other(text) if text == "rpm"));
    assert_eq!(unit.to_string(), "rpm");
    let unit = Unit::from_string(" B/s");
    assert!(matches!(&unit, Unit::Other(text) if text == " B/s"));
}

#[test]
fn unit_predicates() {
    assert!(Unit::BitsPerSecond.is_bits_per_second());
    assert!(!Unit::BytesPerSecond.is_bits_per_second());
    assert!(Unit::BytesPerSecond.is_bytes_per_second());
    assert!(!Unit::Other("B/s".to_string()).is_bytes_per_second());
}

#[test]
fn suffix_tokens_parse() {
    for (suffix, configured, _, _) in all_suffixes() {
        assert_eq!(Suffix::from_string(configured).unwrap(), suffix);
    }
}

#[test]
fn suffix_tokens_print() {
    for (suffix, _, shown, _) in all_suffixes() {
        assert_eq!(suffix.to_string(), shown);
    }
}

#[test]
fn unknown_suffix_is_a_configuration_error() {
    let err = Suffix::from_string("k").unwrap_err();
    assert_eq!(err.message, "Can not parse suffix");
    assert_eq!(err.cause, "unknown suffix: 'k'");
    let err = Suffix::from_string("").unwrap_err();
    assert_eq!(err.cause, "unknown suffix: ''");
}

#[test]
fn suffix_exponents() {
    for (suffix, _, _, exp) in all_suffixes() {
        assert_eq!(suffix.exp_level(), exp);
        assert_eq!(Suffix::from_exp_level(exp), suffix);
    }
    assert_eq!(Suffix::from_exp_level(-4), Suffix::Nano);
    assert_eq!(Suffix::from_exp_level(i32::MIN), Suffix::Nano);
    assert_eq!(Suffix::from_exp_level(5), Suffix::Tera);
}

#[test]
fn exp_level_is_held_between_floor_and_tera() {
    assert_eq!(select_exp_level(0, &Suffix::Nano), 0);
    assert_eq!(select_exp_level(-2, &Suffix::Nano), -2);
    assert_eq!(select_exp_level(-7, &Suffix::Nano), -3);
    assert_eq!(select_exp_level(-2, &Suffix::One), 0);
    assert_eq!(select_exp_level(2, &Suffix::Giga), 3);
    assert_eq!(select_exp_level(9, &Suffix::One), 4);
    assert_eq!(select_exp_level(i32::MIN, &Suffix::Kilo), 1);
    assert_eq!(select_exp_level(i32::MAX, &Suffix::Tera), 4);
}

#[test]
fn thousandfold_advances_one_step() {
    for exponent in -9..12 {
        let here = lay_out(exponent, 3, &Suffix::Nano);
        let there = lay_out(exponent + 3, 3, &Suffix::Nano);
        assert_eq!(there.exp_level, here.exp_level + 1);
        assert_eq!(there.suffix.exp_level(), here.suffix.exp_level() + 1);
        assert_eq!(there.digits, here.digits);
    }
    for exponent in 12..30 {
        let here = lay_out(exponent, 3, &Suffix::Nano);
        let there = lay_out(exponent + 3, 3, &Suffix::Nano);
        assert_eq!(here.suffix, Suffix::Tera);
        assert_eq!(there.suffix, Suffix::Tera);
        assert_eq!(there.digits, here.digits + 3);
    }
}

#[test]
fn floor_stops_the_advance_below_it() {
    let here = lay_out(-9, 3, &Suffix::One);
    let there = lay_out(-6, 3, &Suffix::One);
    assert_eq!(here.suffix, Suffix::One);
    assert_eq!(there.suffix, Suffix::One);
}
