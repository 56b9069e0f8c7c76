use bit_converter::converter::{
    Complex16ToComplexConverter, ComplexToComplex16Converter, Fix16ToFix16Converter,
    Fix16ToFloatConverter, Fix32ToFix32Converter, Fix32ToFloatConverter, Float16ToFloat32Converter,
    Float32ToFix16Converter, Float32ToFix32Converter, Float32ToFloat16Converter,
    Float32ToFloatConverter, FloatToFix16Converter, FloatToFix32Converter, FloatToFloat16Converter,
    FloatToFloat32Converter, SelfConverter,
};
use bit_converter::factory::{Fix32ConverterFactory, FloatConverterFactory};
use bit_converter::ieee::single_from_fixed;
use bit_converter::text::{complex_text, split_complex};
use bit_converter::{
    ConverterFactory, Input, InputForm, Output, ValueConverter, ValueConverterFactory, ValueType,
};

const ALL: [ValueType; 7] = [
    ValueType::Float32,
    ValueType::Float16,
    ValueType::Float,
    ValueType::Complex16,
    ValueType::Complex,
    ValueType::Fix32,
    ValueType::Fix16,
];

fn text(s: &str) -> Input {
    Input::Text(s.to_string())
}

fn single(s: &str) -> Input {
    Input::Single(s.parse::<f32>().ok().map(f32::to_bits))
}

fn double(s: &str) -> Input {
    Input::Double(s.parse::<f64>().ok().map(f64::to_bits))
}

fn out_text(o: Output) -> String {
    match o {
        Output::Text(s) => s,
        Output::Single(b) => format!("{}", f32::from_bits(b)),
        Output::Complex(re, im) => complex_text(
            &format!("{}", f32::from_bits(re)),
            &format!("{}", f32::from_bits(im)),
        ),
    }
}

fn run(src: ValueType, dst: ValueType, src_bit: u32, dst_bit: u32, line: &str) -> String {
    let c = ConverterFactory::create(&src, &dst, src_bit, dst_bit);
    let input = match c.input_form() {
        InputForm::Text => text(line),
        InputForm::Single => single(line),
        InputForm::Double => double(line),
        InputForm::Complex => Input::Complex(split_complex(line).and_then(|(re, im)| {
            Some((re.parse::<f32>().ok()?.to_bits(), im.parse::<f32>().ok()?.to_bits()))
        })),
    };
    out_text(c.convert(&input))
}

#[test]
fn rounding_is_half_away_from_zero() {
    assert_eq!(run(ValueType::Float, ValueType::Fix32, 0, 0, "0.5"), "0x00000001");
    assert_eq!(run(ValueType::Float, ValueType::Fix32, 0, 0, "-0.5"), "0xFFFFFFFF");
    assert_eq!(run(ValueType::Float, ValueType::Fix16, 0, 0, "0.5"), "0x0001");
    assert_eq!(run(ValueType::Float, ValueType::Fix16, 0, 0, "-0.5"), "0xFFFF");
    assert_eq!(run(ValueType::Float, ValueType::Fix32, 0, 0, "1.5"), "0x00000002");
    assert_eq!(run(ValueType::Float, ValueType::Fix32, 0, 0, "-2.5"), "0xFFFFFFFD");
    assert_eq!(run(ValueType::Float, ValueType::Fix32, 0, 0, "0.49"), "0x00000000");
}

#[test]
fn float_to_fixed_scales_by_the_fraction_width() {
    assert_eq!(run(ValueType::Float, ValueType::Fix32, 0, 16, "1.5"), "0x00018000");
    assert_eq!(run(ValueType::Float, ValueType::Fix16, 0, 8, "-1"), "0xFF00");
    assert_eq!(run(ValueType::Float, ValueType::Fix16, 0, 15, "0.25"), "0x2000");
    assert_eq!(run(ValueType::Float32, ValueType::Fix32, 0, 8, "3F800000"), "0x00000100");
    assert_eq!(run(ValueType::Float32, ValueType::Fix16, 0, 4, "BF000000"), "0xFFF8");
    assert_eq!(run(ValueType::Float16, ValueType::Fix16, 0, 4, "3C00"), "0x0010");
    assert_eq!(run(ValueType::Float16, ValueType::Fix32, 0, 0, "C500"), "0xFFFFFFFB");
}

#[test]
fn float_to_fixed_wraps_on_overflow() {
    // 70000 does not fit in 16 bits: 70000 - 65536 = 4464.
    assert_eq!(run(ValueType::Float, ValueType::Fix16, 0, 0, "70000"), "0x1170");
    // 2^32 + 5 leaves 5 in a 32-bit container.
    assert_eq!(run(ValueType::Float, ValueType::Fix32, 0, 0, "4294967301"), "0x00000005");
    assert_eq!(run(ValueType::Float, ValueType::Fix32, 0, 0, "1e30"), "0x00000000");
}

#[test]
fn non_finite_values_have_no_fixed_point_form() {
    assert_eq!(run(ValueType::Float, ValueType::Fix32, 0, 4, "inf"), "NAN");
    assert_eq!(run(ValueType::Float, ValueType::Fix16, 0, 4, "NaN"), "NAN");
    assert_eq!(run(ValueType::Float32, ValueType::Fix32, 0, 4, "7F800000"), "NAN");
    assert_eq!(run(ValueType::Float32, ValueType::Fix16, 0, 4, "7FC00000"), "NAN");
}

#[test]
fn malformed_hex_gives_nan_on_every_hex_converter() {
    for src in ALL {
        if !src.is_hex() {
            continue;
        }
        for dst in ALL {
            let c = ConverterFactory::create(&src, &dst, 3, 5);
            if c.is_self_converter() {
                continue;
            }
            assert_eq!(out_text(c.convert(&text("zzzz"))), "NAN");
        }
    }
}

#[test]
fn malformed_text_gives_nan() {
    assert_eq!(run(ValueType::Float32, ValueType::Float, 0, 0, ""), "NAN");
    assert_eq!(run(ValueType::Float32, ValueType::Float, 0, 0, "123456789"), "NAN");
    assert_eq!(run(ValueType::Float16, ValueType::Float, 0, 0, "10000"), "NAN");
    assert_eq!(run(ValueType::Float, ValueType::Float32, 0, 0, "abc"), "NAN");
    assert_eq!(run(ValueType::Float, ValueType::Fix32, 0, 3, "1.2.3"), "NAN");
    assert_eq!(run(ValueType::Complex, ValueType::Complex16, 0, 0, "1 + 2"), "NAN");
    assert_eq!(run(ValueType::Complex, ValueType::Complex16, 0, 0, "x + 2i"), "NAN");
}

#[test]
fn converter_given_the_wrong_input_form_gives_nan() {
    assert_eq!(out_text(FloatToFloat32Converter.convert(&text("1.0"))), "NAN");
    assert_eq!(out_text(Float32ToFloatConverter.convert(&Input::Single(Some(0)))), "NAN");
    assert_eq!(out_text(FloatToFix32Converter { bit: 0 }.convert(&Input::Single(Some(0)))), "NAN");
}

#[test]
fn packed_complex_to_text() {
    assert_eq!(run(ValueType::Complex16, ValueType::Complex, 0, 0, "3C000000"), "1 + 0i");
    assert_eq!(
        Complex16ToComplexConverter.convert(&text("3C000000")),
        Output::Complex(0x3F80_0000, 0)
    );
    assert_eq!(run(ValueType::Complex16, ValueType::Complex, 0, 0, "4000BC00"), "2 + -1i");
}

#[test]
fn text_to_packed_complex() {
    assert_eq!(run(ValueType::Complex, ValueType::Complex16, 0, 0, "1 + 0i"), "0x3C000000");
    assert_eq!(run(ValueType::Complex, ValueType::Complex16, 0, 0, "2 + -1i"), "0x4000BC00");
    let c = ComplexToComplex16Converter;
    assert_eq!(out_text(c.convert(&Input::Complex(None))), "NAN");
}

#[test]
fn complex_text_splits_at_the_first_separator() {
    assert_eq!(split_complex("1.5 + -2i"), Some(("1.5".to_string(), "-2".to_string())));
    assert_eq!(split_complex("1e+5 + 3i"), Some(("1e+5".to_string(), "3".to_string())));
    assert_eq!(split_complex("1 + i"), Some(("1".to_string(), String::new())));
    assert_eq!(split_complex("1 + 2"), None);
    assert_eq!(split_complex("12i"), None);
    assert_eq!(complex_text("1", "0"), "1 + 0i");
}

#[test]
fn same_kind_is_identity() {
    assert_eq!(run(ValueType::Float32, ValueType::Float32, 0, 0, "3F800000"), "0x3F800000");
    assert_eq!(run(ValueType::Float32, ValueType::Float32, 0, 0, "zzzz"), "0xzzzz");
    assert_eq!(run(ValueType::Float, ValueType::Float, 0, 0, "1.25"), "1.25");
    assert_eq!(run(ValueType::Complex, ValueType::Complex, 0, 0, "1 + 2i"), "1 + 2i");
    assert_eq!(run(ValueType::Fix16, ValueType::Fix16, 4, 4, "garbage"), "0xgarbage");
    for t in ALL {
        let c = ConverterFactory::create(&t, &t, 2, 2);
        assert!(c.is_self_converter());
        assert_eq!(c.input_form(), InputForm::Text);
    }
}

#[test]
fn identity_converter_keeps_prefix_rule() {
    let hex = SelfConverter { value_type: ValueType::Fix32 };
    let dec = SelfConverter { value_type: ValueType::Float };
    assert_eq!(out_text(hex.convert(&text("12"))), "0x12");
    assert_eq!(out_text(dec.convert(&text("12"))), "12");
    assert_eq!(out_text(dec.convert(&text(""))), "");
}

#[test]
fn float32_text_round_trip() {
    for x in ["3F800000", "00000000", "80000000", "00000001", "7F7FFFFF", "C0490FDB", "3dcccccd", "7F800000", "FF800000"] {
        let dec = run(ValueType::Float32, ValueType::Float, 0, 0, x);
        let back = run(ValueType::Float, ValueType::Float32, 0, 0, &dec);
        assert_eq!(back, format!("0x{}", x.to_uppercase()));
    }
    assert_eq!(run(ValueType::Float32, ValueType::Float, 0, 0, "3F800000"), "1");
    assert_eq!(run(ValueType::Float32, ValueType::Float, 0, 0, "C0200000"), "-2.5");
}

#[test]
fn fixed32_round_trip() {
    for f in 0..32u32 {
        for n in [0i64, 1, -1, 12345, -98765, 2147483647, -2147483648, 1 << 20] {
            let value = n as f64 / 2f64.powi(f as i32);
            let hex = run(ValueType::Float, ValueType::Fix32, 0, f, &format!("{:e}", value));
            let c = Fix32ToFloatConverter { bit: f };
            assert_eq!(c.convert(&text(&hex[2..])), Output::Single((value as f32).to_bits()));
        }
    }
}

#[test]
fn fixed_to_decimal() {
    assert_eq!(run(ValueType::Fix32, ValueType::Float, 16, 0, "00018000"), "1.5");
    assert_eq!(run(ValueType::Fix32, ValueType::Float, 0, 0, "FFFFFFFF"), "-1");
    assert_eq!(run(ValueType::Fix16, ValueType::Float, 8, 0, "FF80"), "-0.5");
    assert_eq!(run(ValueType::Fix16, ValueType::Float, 15, 0, "4000"), "0.5");
    assert_eq!(
        Fix16ToFloatConverter { bit: 3 }.convert(&text("8000")),
        Output::Single((-4096.0f32).to_bits())
    );
}

#[test]
fn fixed_between_widths() {
    assert_eq!(run(ValueType::Fix16, ValueType::Fix16, 8, 4, "0100"), "0x0010");
    assert_eq!(run(ValueType::Fix16, ValueType::Fix16, 8, 4, "FF00"), "0xFFF0");
    assert_eq!(run(ValueType::Fix16, ValueType::Fix16, 4, 0, "FFFF"), "0xFFFF");
    assert_eq!(run(ValueType::Fix16, ValueType::Fix16, 0, 4, "0123"), "0x1230");
    assert_eq!(run(ValueType::Fix32, ValueType::Fix32, 16, 8, "00018000"), "0x00000180");
    assert_eq!(run(ValueType::Fix32, ValueType::Fix32, 0, 8, "80000001"), "0x00000100");
    let c = Fix32ToFix32Converter { bit_src: 40, bit_dst: 0 };
    assert_eq!(out_text(c.convert(&text("80000000"))), "0xFFFFFFFF");
    let c = Fix16ToFix16Converter { bit_src: 0, bit_dst: 20 };
    assert_eq!(out_text(c.convert(&text("7FFF"))), "0x0000");
}

#[test]
fn single_to_half_precision() {
    assert_eq!(run(ValueType::Float32, ValueType::Float16, 0, 0, "3F800000"), "0x3C00");
    assert_eq!(run(ValueType::Float32, ValueType::Float16, 0, 0, "C0000000"), "0xC000");
    // 65504 is the largest half; 65535 truncates to it, 65536 overflows.
    assert_eq!(run(ValueType::Float32, ValueType::Float16, 0, 0, "477FE000"), "0x7BFF");
    assert_eq!(run(ValueType::Float32, ValueType::Float16, 0, 0, "477FFF00"), "0x7BFF");
    assert_eq!(run(ValueType::Float32, ValueType::Float16, 0, 0, "47800000"), "0x7C00");
    // the smallest half subnormal, and half of it
    assert_eq!(run(ValueType::Float32, ValueType::Float16, 0, 0, "33800000"), "0x0001");
    assert_eq!(run(ValueType::Float32, ValueType::Float16, 0, 0, "33000000"), "0x0000");
    assert_eq!(run(ValueType::Float32, ValueType::Float16, 0, 0, "7FC00000"), "0x7E00");
    assert_eq!(run(ValueType::Float32, ValueType::Float16, 0, 0, "7F800001"), "0x7E00");
    assert_eq!(run(ValueType::Float, ValueType::Float16, 0, 0, "1"), "0x3C00");
    assert_eq!(run(ValueType::Float, ValueType::Float16, 0, 0, "0.1"), "0x2E66");
    assert_eq!(Float32ToFloat16Converter::float32_to_float16(0x3F80_0000), 0x3C00);
}

#[test]
fn half_to_single_precision() {
    assert_eq!(run(ValueType::Float16, ValueType::Float32, 0, 0, "3C00"), "0x3F800000");
    assert_eq!(run(ValueType::Float16, ValueType::Float32, 0, 0, "0001"), "0x33800000");
    assert_eq!(run(ValueType::Float16, ValueType::Float32, 0, 0, "03FF"), "0x387FC000");
    assert_eq!(run(ValueType::Float16, ValueType::Float32, 0, 0, "FC00"), "0xFF800000");
    assert_eq!(run(ValueType::Float16, ValueType::Float, 0, 0, "C100"), "-2.5");
    assert_eq!(run(ValueType::Float16, ValueType::Float, 0, 0, "7BFF"), "65504");
    assert_eq!(Float16ToFloat32Converter::float16_to_float32(0x8000), 0x8000_0000);
}

#[test]
fn half_round_trip_every_pattern() {
    for h in 0..=0xFFFFu32 {
        let wide = Float16ToFloat32Converter::float16_to_float32(h as u16);
        assert_eq!(Float32ToFloat16Converter::float32_to_float16(wide), h as u16);
        let v = f32::from_bits(wide);
        let exp = (h >> 10) & 0x1f;
        if exp != 31 {
            let frac = (h & 0x3ff) as f32;
            let mag = if exp == 0 {
                frac * 2f32.powi(-24)
            } else {
                (1024.0 + frac) * 2f32.powi(exp as i32 - 25)
            };
            assert_eq!(v.abs(), mag);
            assert_eq!(v.is_sign_negative(), h & 0x8000 != 0);
        }
    }
}

#[test]
fn hex_output_is_upper_case_and_padded() {
    assert_eq!(run(ValueType::Float, ValueType::Float32, 0, 0, "0"), "0x00000000");
    assert_eq!(run(ValueType::Float, ValueType::Float32, 0, 0, "-0"), "0x80000000");
    assert_eq!(run(ValueType::Float16, ValueType::Float32, 0, 0, "3c00"), "0x3F800000");
    assert_eq!(run(ValueType::Float32, ValueType::Float16, 0, 0, "1"), "0x0000");
}

#[test]
fn value_type_names() {
    for t in ALL {
        assert_eq!(ValueType::get_value_type(&t.name()), Some(t));
    }
    assert_eq!(ValueType::get_value_type("fix16"), Some(ValueType::Fix16));
    assert_eq!(ValueType::get_value_type("complex"), Some(ValueType::Complex));
    assert_eq!(ValueType::get_value_type("double"), None);
    assert_eq!(ValueType::get_value_type(""), None);
    assert_eq!(ValueType::Float32.name(), "float32");
}

#[test]
fn check_reports_defined_conversions() {
    assert!(ConverterFactory::check(&ValueType::Float, &ValueType::Fix32));
    assert!(ConverterFactory::check(&ValueType::Complex16, &ValueType::Complex));
    assert!(!ConverterFactory::check(&ValueType::Complex16, &ValueType::Float32));
    assert!(ConverterFactory::check(&ValueType::Fix32, &ValueType::Float32));
    assert!(!ConverterFactory::check(&ValueType::Fix32, &ValueType::Complex16));
    assert!(!ConverterFactory::check(&ValueType::Float32, &ValueType::Float32));
    for src in ALL {
        for dst in ALL {
            if src != dst {
                let c = ConverterFactory::create(&src, &dst, 1, 2);
                assert_eq!(ConverterFactory::check(&src, &dst), !c.is_self_converter());
            }
        }
    }
}

#[test]
fn sub_tables_agree_with_the_whole_table() {
    assert_eq!(
        FloatConverterFactory::create(&ValueType::Fix16, 0, 7),
        ConverterFactory::create(&ValueType::Float, &ValueType::Fix16, 0, 7)
    );
    assert!(Fix32ConverterFactory::check(&ValueType::Float));
    assert!(!FloatConverterFactory::check(&ValueType::Complex));
}

#[test]
fn input_forms() {
    let c = ConverterFactory::create(&ValueType::Float, &ValueType::Fix32, 0, 3);
    assert_eq!(c.input_form(), InputForm::Double);
    let c = ConverterFactory::create(&ValueType::Float, &ValueType::Fix16, 0, 3);
    assert_eq!(c.input_form(), InputForm::Single);
    let c = ConverterFactory::create(&ValueType::Complex, &ValueType::Complex16, 0, 0);
    assert_eq!(c.input_form(), InputForm::Complex);
    assert_eq!(Float32ToFix16Converter { bit: 1 }.input_form(), InputForm::Text);
    assert_eq!(FloatToFloat16Converter.input_form(), InputForm::Single);
    assert_eq!(FloatToFix16Converter { bit: 1 }.input_form(), InputForm::Single);
    assert_eq!(Float32ToFix32Converter { bit: 1 }.input_form(), InputForm::Text);
}

#[test]
fn fixed_to_single_rounds_to_nearest_even() {
    let ns: [i64; 14] = [
        0, 1, -1, 3, 16777215, 16777216, 16777217, 16777219, -16777219, 33554435, 2147483647,
        -2147483648, 0x7FFF_FFC0, 1234567891,
    ];
    for f in 0..=200u32 {
        for n in ns {
            let expected = (n as f64 * (-(f as f64)).exp2()) as f32;
            assert_eq!(single_from_fixed(n, f), expected.to_bits(), "n = {}, f = {}", n, f);
        }
    }
    // ties: 2^24 + 1 sits halfway between 2^24 and 2^24 + 2 and goes to the even 2^24
    assert_eq!(f32::from_bits(single_from_fixed(16777217, 0)), 16777216.0);
    assert_eq!(f32::from_bits(single_from_fixed(16777219, 0)), 16777220.0);
    // the smallest subnormal, and half of it rounding to even zero
    assert_eq!(single_from_fixed(1, 149), 1);
    assert_eq!(single_from_fixed(1, 150), 0);
    assert_eq!(single_from_fixed(3, 151), 1);
}

#[test]
fn try_create_fails_on_pairs_without_a_conversion() {
    assert!(ConverterFactory::try_create(&ValueType::Complex16, &ValueType::Float32, 0, 0).is_none());
    assert!(ConverterFactory::try_create(&ValueType::Fix32, &ValueType::Complex, 4, 0).is_none());
    let same = ConverterFactory::try_create(&ValueType::Float, &ValueType::Float, 0, 0).unwrap();
    assert!(same.is_self_converter());
    let c = ConverterFactory::try_create(&ValueType::Float32, &ValueType::Float16, 0, 0).unwrap();
    assert_eq!(out_text(c.convert(&text("3F800000"))), "0x3C00");
}

#[test]
fn fixed_to_float_patterns() {
    assert_eq!(run(ValueType::Fix32, ValueType::Float32, 16, 0, "00018000"), "0x3FC00000");
    assert_eq!(run(ValueType::Fix16, ValueType::Float32, 8, 0, "FF80"), "0xBF000000");
    assert_eq!(run(ValueType::Fix16, ValueType::Float16, 8, 0, "0100"), "0x3C00");
    assert_eq!(run(ValueType::Fix32, ValueType::Float16, 0, 0, "7FFFFFFF"), "0x7C00");
    assert_eq!(run(ValueType::Fix32, ValueType::Float16, 0, 0, "FFFFFFFE"), "0xC000");
    assert_eq!(run(ValueType::Fix32, ValueType::Float32, 0, 0, "zz"), "NAN");
}
