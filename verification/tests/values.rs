use gpu_status::number::{format_number, fraction_digits, lay_out, magnitude_level, NumberLayout};
use gpu_status::suffix::Suffix;
use gpu_status::text::{decimal, hex, same_text};
use gpu_status::unit::Unit;
use gpu_status::value::{Rescale, Value, Variable};

fn plain() -> Variable {
    Variable { min_width: None, pad_with: None, unit: None, min_suffix: None }
}

fn shown_as(unit: Unit) -> Variable {
    Variable { min_width: None, pad_with: None, unit: Some(unit), min_suffix: None }
}

/// Shows a value as a caller with floating point at hand does.
fn show(value: &Value, var: &Variable) -> String {
    let number = match value.float_request(var) {
        None => String::new(),
        Some(request) => {
            let raw = f64::from_bits(request.bits);
            let raw = match request.rescale {
                Rescale::Keep => raw,
                Rescale::TimesEight => raw * 8.0,
                Rescale::DivideByEight => raw / 8.0,
            };
            let layout = request.layout(raw.abs().log10().floor() as i32);
            let scaled = raw / 10f64.powi(layout.exp_level * 3);
            let mantissa = format!("{:.*}", layout.precision, scaled);
            format_number(&mantissa, &layout)
        }
    };
    value.format(var, &number)
}

#[test]
fn text_is_filled_on_the_right() {
    let value = Value::from_string("ab".to_string());
    assert_eq!(value.format(&plain(), ""), "ab");
    let var = Variable { min_width: Some(5), pad_with: Some('.'), unit: None, min_suffix: None };
    assert_eq!(value.format(&var, ""), "ab...");
    let var = Variable { min_width: Some(1), pad_with: None, unit: None, min_suffix: None };
    assert_eq!(value.format(&var, ""), "ab");
}

#[test]
fn text_width_counts_characters() {
    let value = Value::from_string("°°".to_string());
    let var = Variable { min_width: Some(3), pad_with: None, unit: None, min_suffix: None };
    assert_eq!(value.format(&var, ""), "°° ");
}

#[test]
fn integer_is_filled_on_the_left() {
    assert_eq!(Value::from_integer(7).format(&plain(), ""), " 7");
    assert_eq!(Value::from_integer(-7).format(&plain(), ""), "-7");
    assert_eq!(Value::from_integer(123).format(&plain(), ""), "123");
    let var = Variable { min_width: Some(4), pad_with: Some('0'), unit: None, min_suffix: None };
    assert_eq!(Value::from_integer(42).bytes().format(&var, ""), "0042B");
}

#[test]
fn integer_extremes() {
    assert_eq!(Value::from_integer(i64::MAX).format(&plain(), ""), "9223372036854775807");
    assert_eq!(Value::from_integer(i64::MIN).format(&plain(), ""), "-9223372036854775808");
    assert_eq!(Value::from_integer(0).format(&plain(), ""), " 0");
}

#[test]
fn bytes_shown_as_bits_are_multiplied_by_eight() {
    let value = Value::from_integer(5).bytes_per_second();
    assert_eq!(value.format(&shown_as(Unit::BitsPerSecond), ""), "40Bi/s");
    assert_eq!(value.format(&plain(), ""), " 5B/s");
    let large = Value::from_integer(i64::MAX).bytes_per_second();
    assert_eq!(large.format(&shown_as(Unit::BitsPerSecond), ""), "73786976294838206456Bi/s");
}

#[test]
fn bits_shown_as_bytes_are_divided_by_eight() {
    let value = Value::from_integer(47).bits_per_second();
    assert_eq!(value.format(&shown_as(Unit::BytesPerSecond), ""), " 5B/s");
    let negative = Value::from_integer(-15).bits_per_second();
    assert_eq!(negative.format(&shown_as(Unit::BytesPerSecond), ""), "-1B/s");
    let small = Value::from_integer(-7).bits_per_second();
    assert_eq!(small.format(&shown_as(Unit::BytesPerSecond), ""), " 0B/s");
}

#[test]
fn other_units_only_change_the_label() {
    let value = Value::from_integer(16).bytes();
    assert_eq!(value.format(&shown_as(Unit::BitsPerSecond), ""), "16Bi/s");
    let value = Value::from_integer(16).bytes_per_second();
    assert_eq!(value.format(&shown_as(Unit::Other("rpm".to_string())), ""), "16rpm");
    assert!(matches!(value.rescale(&shown_as(Unit::Hertz)), Rescale::Keep));
    assert!(matches!(value.rescale(&shown_as(Unit::BitsPerSecond)), Rescale::TimesEight));
    let bits = Value::from_integer(16).bits_per_second();
    assert!(matches!(bits.rescale(&shown_as(Unit::BytesPerSecond)), Rescale::DivideByEight));
    assert!(matches!(bits.rescale(&plain()), Rescale::Keep));
}

#[test]
fn icon_stands_first_and_is_not_filled() {
    let value = Value::from_integer(3).degrees().icon("T ".to_string());
    assert_eq!(value.format(&plain(), ""), "T  3°");
}

#[test]
fn unit_builders_tag_the_value() {
    assert_eq!(Value::from_integer(10).degrees().format(&plain(), ""), "10°");
    assert_eq!(Value::from_integer(10).percents().format(&plain(), ""), "10%");
    assert_eq!(Value::from_integer(10).bits_per_second().format(&plain(), ""), "10Bi/s");
    assert_eq!(Value::from_integer(10).bytes_per_second().format(&plain(), ""), "10B/s");
    assert_eq!(Value::from_integer(10).seconds().format(&plain(), ""), "10s");
    assert_eq!(Value::from_integer(10).watts().format(&plain(), ""), "10W");
    assert_eq!(Value::from_integer(10).hertz().format(&plain(), ""), "10Hz");
    assert_eq!(Value::from_integer(10).bytes().format(&plain(), ""), "10B");
}

#[test]
fn float_request_says_what_to_render() {
    let value = Value::from_float(2.5f64.to_bits()).bytes_per_second();
    let var = Variable {
        min_width: Some(6),
        pad_with: None,
        unit: Some(Unit::BitsPerSecond),
        min_suffix: Some(Suffix::One),
    };
    let request = value.float_request(&var).unwrap();
    assert_eq!(request.bits, 2.5f64.to_bits());
    assert!(matches!(request.rescale, Rescale::TimesEight));
    assert_eq!(request.min_width, 6);
    assert_eq!(request.min_suffix, Suffix::One);
    let own = value.float_request(&plain()).unwrap();
    assert_eq!(own.min_width, 3);
    assert_eq!(own.min_suffix, Suffix::Nano);
    assert!(Value::from_integer(1).float_request(&plain()).is_none());
    assert!(Value::from_string("x".to_string()).float_request(&plain()).is_none());
}

#[test]
fn scaled_float_gets_step_point_and_unit() {
    let value = Value::from_float(12345.0f64.to_bits()).hertz().icon("~".to_string());
    assert_eq!(value.format_scaled(&plain(), 4, "12"), "~12.KHz");
    let wide = Variable { min_width: Some(5), pad_with: None, unit: None, min_suffix: None };
    assert_eq!(value.format_scaled(&wide, 4, "12.35"), "~12.35KHz");
    let floor =
        Variable { min_width: None, pad_with: None, unit: None, min_suffix: Some(Suffix::Mega) };
    assert_eq!(value.format_scaled(&floor, 4, "0.0"), "~0.0MHz");
    assert_eq!(Value::from_integer(5).format_scaled(&plain(), 4, "12"), " 5");
}

#[test]
fn float_body_is_taken_as_given() {
    let value = Value::from_float(1.0f64.to_bits()).hertz().icon("~".to_string());
    assert_eq!(value.format(&plain(), "1.0K"), "~1.0KHz");
}

#[test]
fn fraction_digits_follow_the_width() {
    assert_eq!(fraction_digits(3, 1), 1);
    assert_eq!(fraction_digits(3, 2), 0);
    assert_eq!(fraction_digits(3, 3), 0);
    assert_eq!(fraction_digits(3, 7), 0);
    assert_eq!(fraction_digits(6, 1), 4);
    assert_eq!(fraction_digits(0, 1), 0);
    assert_eq!(fraction_digits(usize::MAX, 0), usize::MAX - 1);
}

#[test]
fn levels_round_down() {
    assert_eq!(magnitude_level(0), 0);
    assert_eq!(magnitude_level(2), 0);
    assert_eq!(magnitude_level(3), 1);
    assert_eq!(magnitude_level(14), 4);
    assert_eq!(magnitude_level(-1), -1);
    assert_eq!(magnitude_level(-3), -1);
    assert_eq!(magnitude_level(-4), -2);
    assert_eq!(magnitude_level(i32::MAX), 715827882);
    assert_eq!(magnitude_level(i32::MIN), -715827883);
}

#[test]
fn numbers_are_laid_out() {
    assert_eq!(
        lay_out(3, 3, &Suffix::Nano),
        NumberLayout {
            exp_level: 1,
            suffix: Suffix::Kilo,
            digits: 1,
            precision: 1,
            trailing_point: false
        }
    );
    assert_eq!(
        lay_out(4, 3, &Suffix::Nano),
        NumberLayout {
            exp_level: 1,
            suffix: Suffix::Kilo,
            digits: 2,
            precision: 0,
            trailing_point: true
        }
    );
    assert_eq!(
        lay_out(-7, 6, &Suffix::Nano),
        NumberLayout {
            exp_level: -3,
            suffix: Suffix::Nano,
            digits: 3,
            precision: 2,
            trailing_point: false
        }
    );
    assert_eq!(
        lay_out(-10, 1, &Suffix::Nano),
        NumberLayout {
            exp_level: -3,
            suffix: Suffix::Nano,
            digits: 1,
            precision: 0,
            trailing_point: false
        }
    );
    assert_eq!(
        lay_out(-2, 3, &Suffix::One),
        NumberLayout {
            exp_level: 0,
            suffix: Suffix::One,
            digits: 1,
            precision: 1,
            trailing_point: false
        }
    );
    assert_eq!(
        lay_out(17, 3, &Suffix::Nano),
        NumberLayout {
            exp_level: 4,
            suffix: Suffix::Tera,
            digits: 6,
            precision: 0,
            trailing_point: false
        }
    );
    let least = lay_out(i32::MIN, 3, &Suffix::Milli);
    assert_eq!((least.exp_level, least.digits, least.precision), (-1, 1, 1));
    let most = lay_out(i32::MAX, 3, &Suffix::Milli);
    assert_eq!((most.exp_level, most.digits, most.precision), (4, 2147483636, 0));
}

#[test]
fn fraction_digits_follow_every_width() {
    for width in 1..12usize {
        for exponent in -12..20 {
            let layout = lay_out(exponent, width, &Suffix::Nano);
            let expected = if width > layout.digits + 1 { width - layout.digits - 1 } else { 0 };
            assert_eq!(layout.precision, expected);
            assert_eq!(layout.trailing_point, width == layout.digits + 1);
            let value = 2.5 * 10f64.powi(exponent);
            let mantissa =
                format!("{:.*}", layout.precision, value / 10f64.powi(layout.exp_level * 3));
            let behind = mantissa.split('.').nth(1).map_or(0, |f| f.len());
            assert_eq!(behind, expected);
        }
    }
}

#[test]
fn number_is_put_together() {
    assert_eq!(format_number("1.2", &lay_out(3, 3, &Suffix::Nano)), "1.2K");
    assert_eq!(format_number("12", &lay_out(4, 3, &Suffix::Nano)), "12.K");
    assert_eq!(format_number("123", &lay_out(2, 3, &Suffix::Nano)), "123");
    assert_eq!(format_number("12", &lay_out(1, 3, &Suffix::Nano)), "12.");
    assert_eq!(format_number("1234", &lay_out(15, 3, &Suffix::Nano)), "1234T");
}

#[test]
fn floats_are_scaled_and_shown() {
    let var = plain();
    assert_eq!(show(&Value::from_float(1234.5f64.to_bits()).hertz(), &var), "1.2KHz");
    assert_eq!(show(&Value::from_float(91.0f64.to_bits()).percents(), &var), "91.%");
    assert_eq!(show(&Value::from_float(123456789.0f64.to_bits()), &var), "123M");
    assert_eq!(show(&Value::from_float(0.005f64.to_bits()).seconds(), &var), "5.0ms");
    let floor = Variable { min_width: None, pad_with: None, unit: None, min_suffix: Some(Suffix::One) };
    assert_eq!(show(&Value::from_float(0.5f64.to_bits()).seconds(), &floor), "0.5s");
    let wide = Variable { min_width: Some(6), pad_with: None, unit: None, min_suffix: None };
    assert_eq!(show(&Value::from_float(1.5f64.to_bits()), &wide), "1.5000");
    let bits = shown_as(Unit::BitsPerSecond);
    assert_eq!(show(&Value::from_float(250.0f64.to_bits()).bytes_per_second(), &bits), "2.0KBi/s");
}

#[test]
fn suffix_moves_one_step_per_thousand() {
    let var = plain();
    let shown: Vec<String> = [1.5e-9, 1.5e-6, 1.5e-3, 1.5, 1.5e3, 1.5e6, 1.5e9, 1.5e12, 1.5e15]
        .iter()
        .map(|v: &f64| show(&Value::from_float(v.to_bits()), &var))
        .collect();
    assert_eq!(
        shown,
        vec!["1.5n", "1.5u", "1.5m", "1.5", "1.5K", "1.5M", "1.5G", "1.5T", "1500T"]
    );
}

#[test]
fn integers_in_decimal() {
    assert_eq!(decimal(0), "0");
    assert_eq!(decimal(9), "9");
    assert_eq!(decimal(10), "10");
    assert_eq!(decimal(-1), "-1");
    assert_eq!(decimal(1234567890), "1234567890");
    assert_eq!(decimal(i128::MAX), i128::MAX.to_string());
    assert_eq!(decimal(i128::MIN), i128::MIN.to_string());
}

#[test]
fn integers_in_hexadecimal() {
    assert_eq!(hex(0, 2), "00");
    assert_eq!(hex(10, 2), "0a");
    assert_eq!(hex(255, 2), "ff");
    assert_eq!(hex(256, 2), "100");
    assert_eq!(hex(0xbeef, 0), "beef");
    assert_eq!(hex(usize::MAX, 2), format!("{:02x}", usize::MAX));
}

#[test]
fn texts_are_compared_by_characters() {
    assert!(same_text("Hz", "Hz"));
    assert!(!same_text("Hz", "hz"));
    assert!(!same_text("", " "));
}
