//! Properties that relate several converters, or a converter and the
//! dispatch table.

use vstd::arithmetic::power2::*;
use vstd::prelude::*;

use crate::converter::{
    Fix32ToFloatConverter, Float16ToFloat32Converter, Float32ToFloat16Converter,
    Float32ToFloatConverter, FloatToFix32Converter, FloatToFloat32Converter, InputForm, InputView,
    OutputView, ValueConverter,
};
use crate::factory::ConverterFactory;
use crate::fixed::{double_is_ratio, lemma_fixed32_round_trip, signed_value, wrap};
use crate::hex::{
    all_hex_digits, hex_digit_value, hex_digits, hex_text, hex_value, is_hex_digit,
    lemma_hex_round_trip, parse_hex_spec,
};
use crate::ieee::{
    lemma_half_round_trip, lemma_single_of_fixed_is_nearest, single_of_fixed, single_sign,
    within_half_ulp,
};
use crate::text::nan_text;
use crate::value_type::ValueType;

verus! {

/// A hexadecimal digit in upper case.
pub open spec fn upper_hex_digit(c: char) -> char {
    if 'a' <= c && c <= 'f' {
        ((c as nat) - 32) as char
    } else {
        c
    }
}

/// A run of hexadecimal digits in upper case.
pub open spec fn upper_hex(s: Seq<char>) -> Seq<char> {
    Seq::new(s.len(), |i: int| upper_hex_digit(s[i]))
}

/// Writing out the value of `n` hexadecimal digits in `n` digits gives the
/// same digits, in upper case.
#[verifier::spinoff_prover]
pub proof fn lemma_hex_digits_of_value(s: Seq<char>)
    requires
        all_hex_digits(s),
    ensures
        hex_digits(hex_value(s) as nat, s.len()) == upper_hex(s),
        hex_value(s) >= 0,
    decreases s.len(),
{
    if s.len() > 0 {
        let t = s.drop_last();
        let c = s.last();
        assert(is_hex_digit(s[s.len() - 1]));
        assert(all_hex_digits(t)) by {
            assert forall|i: int| 0 <= i < t.len() implies is_hex_digit(#[trigger] t[i]) by {
                assert(t[i] == s[i]);
            }
        }
        lemma_hex_digits_of_value(t);
        let v = hex_value(s);
        let d = hex_digit_value(c);
        assert(0 <= d < 16);
        assert(v / 16 == hex_value(t) && v % 16 == d);
        assert(hex_digits(v as nat, s.len()) =~= upper_hex(s)) by {
            assert(upper_hex(s).drop_last() =~= upper_hex(t));
        }
    } else {
        assert(hex_digits(hex_value(s) as nat, 0) =~= upper_hex(s));
    }
}

/// A single precision pattern given as eight hex digits, handed out to be
/// written in decimal and that same pattern read back from decimal, comes out
/// as the same digits in upper case behind `0x`.
#[verifier::spinoff_prover]
pub proof fn lemma_float32_round_trip(s: Seq<char>)
    requires
        s.len() == 8,
        all_hex_digits(s),
    ensures
        ({
            let out = Float32ToFloatConverter.spec_convert(InputView::Text(s));
            &&& out is Single
            &&& FloatToFloat32Converter.spec_convert(InputView::Single(Some(out->Single_0)))
                == OutputView::Text(seq!['0', 'x'] + upper_hex(s))
        }),
{
    lemma_hex_digits_of_value(s);
    crate::hex::lemma_hex_digits_value(hex_value(s) as nat, 8);
    crate::hex::lemma_pow16_widths();
    lemma2_to64();
    let v = hex_value(s) as nat;
    assert(v < pow2(32)) by {
        assert(v % crate::hex::pow16(8) == hex_value(hex_digits(v, 8)));
        vstd::arithmetic::div_mod::lemma_mod_bound(v as int, crate::hex::pow16(8) as int);
        assert(hex_digits(v, 8) == upper_hex(s));
        lemma_upper_hex_value(s);
    }
    assert(parse_hex_spec(s, 32) == Some(v));
}

/// Upper-casing digits does not change their value.
proof fn lemma_upper_hex_value(s: Seq<char>)
    requires
        all_hex_digits(s),
    ensures
        all_hex_digits(upper_hex(s)),
        hex_value(upper_hex(s)) == hex_value(s),
    decreases s.len(),
{
    if s.len() > 0 {
        let t = s.drop_last();
        assert(is_hex_digit(s[s.len() - 1]));
        assert(all_hex_digits(t)) by {
            assert forall|i: int| 0 <= i < t.len() implies is_hex_digit(#[trigger] t[i]) by {
                assert(t[i] == s[i]);
            }
        }
        lemma_upper_hex_value(t);
        assert(upper_hex(s).drop_last() =~= upper_hex(t));
        let u = upper_hex(s);
        assert forall|i: int| 0 <= i < u.len() implies is_hex_digit(#[trigger] u[i]) by {
            assert(is_hex_digit(s[i]));
        }
    } else {
        assert(upper_hex(s) =~= s);
    }
}

/// A half precision pattern widened to single precision and narrowed back
/// gives the same four digits, in upper case, for every pattern.
#[verifier::spinoff_prover]
pub proof fn lemma_float16_round_trip(s: Seq<char>)
    requires
        s.len() == 4,
        all_hex_digits(s),
    ensures
        ({
            let wide = Float16ToFloat32Converter.spec_convert(InputView::Text(s));
            &&& wide is Text
            &&& wide->Text_0.len() == 10
            &&& Float32ToFloat16Converter.spec_convert(InputView::Text(wide->Text_0.skip(2)))
                == OutputView::Text(seq!['0', 'x'] + upper_hex(s))
        }),
{
    lemma2_to64();
    lemma_hex_digits_of_value(s);
    lemma_upper_hex_value(s);
    crate::hex::lemma_hex_digits_value(hex_value(s) as nat, 4);
    crate::hex::lemma_pow16_widths();
    let v = hex_value(s) as nat;
    assert(v < pow2(16)) by {
        vstd::arithmetic::div_mod::lemma_mod_bound(v as int, crate::hex::pow16(4) as int);
    }
    assert(parse_hex_spec(s, 16) == Some(v));
    let w = crate::ieee::single_of_half(v);
    let wide = hex_text(w, 8);
    assert(Float16ToFloat32Converter.spec_convert(InputView::Text(s)) == OutputView::Text(wide));
    crate::hex::lemma_hex_digits_value(w, 8);
    assert(wide.skip(2) =~= hex_digits(w, 8));
    crate::ieee::lemma_single_of_half_bound(v);
    lemma_hex_round_trip(w, 32);
    lemma_half_round_trip(v as u16);
}

/// A double that holds `n / 2^f` exactly, converted to 32-bit fixed point with
/// `f` fractional bits and back, comes out as a single precision pattern whose
/// value lies within half a unit in its last place of `n / 2^f` (and is
/// `n / 2^f` itself where that is a single), for every `n` that the container
/// holds.
#[verifier::spinoff_prover]
pub proof fn lemma_fix32_round_trip(b: u64, n: int, f: u32)
    requires
        double_is_ratio(b as nat, n, f as nat),
        -0x8000_0000 <= n < 0x8000_0000,
    ensures
        (FloatToFix32Converter { bit: f }).spec_convert(InputView::Double(Some(b)))
            == OutputView::Text(hex_text(wrap(n, 32), 8)),
        (Fix32ToFloatConverter { bit: f }).spec_convert(InputView::Text(hex_digits(wrap(n, 32), 8)))
            == OutputView::Single(single_of_fixed(n, f as nat) as u32),
        within_half_ulp(single_of_fixed(n, f as nat), (if n < 0 { -n } else { n }) as nat, f as nat),
        n != 0 ==> single_sign(single_of_fixed(n, f as nat)) == (if n < 0 {
            1nat
        } else {
            0nat
        }),
{
    lemma2_to64();
    lemma_fixed32_round_trip(b, n, f as nat);
    let w = wrap(n, 32);
    vstd::arithmetic::div_mod::lemma_mod_bound(n, pow2(32) as int);
    lemma_hex_round_trip(w, 32);
    assert(signed_value(w, 32) == n);
    lemma_single_of_fixed_is_nearest(n, f as nat);
}

/// A same-kind selection resolves to the identity converter, which never
/// fails: it hands back its text, behind `0x` for a hexadecimal
/// representation. The one exception is fixed point with two different
/// fractional widths, which is rescaled.
pub proof fn lemma_same_kind_is_identity(t: ValueType, src_bit: u32, dst_bit: u32, s: Seq<char>)
    requires
        !(t.spec_is_fixed() && src_bit != dst_bit),
    ensures
        ConverterFactory::spec_create(t, t, src_bit, dst_bit).spec_is_self(),
        ConverterFactory::spec_create(t, t, src_bit, dst_bit).spec_convert(InputView::Text(s))
            == OutputView::Text(
            if t.spec_is_hex() {
                seq!['0', 'x'] + s
            } else {
                s
            },
        ),
{
}

/// Every converter that reads hexadecimal text, but the identity converter,
/// hands back `NAN` for text that holds a character that is not a hex digit.
pub proof fn lemma_malformed_hex_is_nan(
    src: ValueType,
    dst: ValueType,
    src_bit: u32,
    dst_bit: u32,
    s: Seq<char>,
    i: int,
)
    requires
        src.spec_is_hex(),
        !ConverterFactory::spec_create(src, dst, src_bit, dst_bit).spec_is_self(),
        0 <= i < s.len(),
        !is_hex_digit(s[i]),
    ensures
        ConverterFactory::spec_create(src, dst, src_bit, dst_bit).spec_convert(InputView::Text(s))
            == OutputView::Text(nan_text()),
{
    assert(!all_hex_digits(s));
    assert(parse_hex_spec(s, 16).is_none());
    assert(parse_hex_spec(s, 32).is_none());
}

/// Between two different representations, a conversion is reported defined
/// exactly when the table does not fall back to the identity converter.
pub proof fn lemma_check_matches_create(src: ValueType, dst: ValueType, src_bit: u32, dst_bit: u32)
    requires
        src != dst,
    ensures
        ConverterFactory::spec_check(src, dst) == !ConverterFactory::spec_create(
            src,
            dst,
            src_bit,
            dst_bit,
        ).spec_is_self(),
{
}

/// What a converter must be given follows from its source: hex text for a
/// hexadecimal source, a float read from the numeral for a decimal one, two
/// floats for a written-out complex number.
pub proof fn lemma_input_form_follows_source(
    src: ValueType,
    dst: ValueType,
    src_bit: u32,
    dst_bit: u32,
)
    ensures
        ({
            let c = ConverterFactory::spec_create(src, dst, src_bit, dst_bit);
            &&& (src.spec_is_hex() || c.spec_is_self()) ==> c.spec_input_form() == InputForm::Text
            &&& (src == ValueType::Float && !c.spec_is_self()) ==> (c.spec_input_form()
                == InputForm::Single || c.spec_input_form() == InputForm::Double)
            &&& (src == ValueType::Complex && !c.spec_is_self()) ==> c.spec_input_form()
                == InputForm::Complex
        }),
{
}

} // verus!
