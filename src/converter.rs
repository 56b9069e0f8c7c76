//! The converters: one for each pair of representations that has a defined
//! conversion, and the identity converter for every other pair.
//!
//! A converter takes one line of input and hands back one line of output.
//! Reading a decimal numeral as an IEEE float and writing one out in decimal
//! are left to the caller, so a converter whose source is decimal takes the
//! float's bit pattern (see `InputForm`), and one whose destination is
//! decimal hands back the pattern, or the fixed-point integer and its width,
//! to be written out (see `Output`).

use vstd::arithmetic::div_mod::*;
use vstd::arithmetic::power2::*;
use vstd::bits::*;
use vstd::prelude::*;

use crate::fixed::{
    double_exp, fixed_from_double, fixed_from_single, fixed_of_double, fixed_of_single, rescale,
    rescaled, signed_value, to_signed, wrap,
};
use crate::hex::{hex_text, parse_hex, parse_hex_spec, to_hex_text};
use crate::ieee::{
    half_of_single, lemma_norm_shift, norm_shift, single_exp, single_from_fixed, single_of_fixed,
    single_of_half,
};
use crate::text::{nan, nan_text, push_char, push_str};
use crate::value_type::ValueType;

verus! {

/// What a converter must be given for one line of input.
#[derive(Clone, Copy, Debug, PartialEq, Eq, Structural)]
pub enum InputForm {
    /// The line itself, with any `0x` prefix removed.
    Text,
    /// The line read as a decimal single precision float.
    Single,
    /// The line read as a decimal double precision float.
    Double,
    /// The two numerals of `<real> + <imag>i`, each read as a decimal single.
    Complex,
}

/// One line of input, in the form that the converter's `InputForm` names.
/// `None` stands for a numeral that could not be read.
#[derive(Debug, PartialEq, Eq)]
pub enum Input {
    Text(String),
    Single(Option<u32>),
    Double(Option<u64>),
    Complex(Option<(u32, u32)>),
}

/// What an `Input` holds, with its text as a character sequence.
pub enum InputView {
    Text(Seq<char>),
    Single(Option<u32>),
    Double(Option<u64>),
    Complex(Option<(u32, u32)>),
}

impl View for Input {
    type V = InputView;

    open spec fn view(&self) -> InputView {
        match self {
            Input::Text(s) => InputView::Text(s@),
            Input::Single(b) => InputView::Single(*b),
            Input::Double(b) => InputView::Double(*b),
            Input::Complex(p) => InputView::Complex(*p),
        }
    }
}

/// One line of output.
#[derive(Debug, PartialEq, Eq)]
pub enum Output {
    /// Finished text: hex digits, a copied line, or `NAN`.
    Text(String),
    /// A single precision pattern, to be written out in decimal.
    Single(u32),
    /// The single precision patterns of a real and an imaginary part, to be
    /// written out as `<real> + <imag>i`.
    Complex(u32, u32),
}

/// What an `Output` holds, with its text as a character sequence.
pub enum OutputView {
    Text(Seq<char>),
    Single(u32),
    Complex(u32, u32),
}

impl View for Output {
    type V = OutputView;

    open spec fn view(&self) -> OutputView {
        match self {
            Output::Text(s) => OutputView::Text(s@),
            Output::Single(b) => OutputView::Single(*b),
            Output::Complex(re, im) => OutputView::Complex(*re, *im),
        }
    }
}

/// A conversion from one representation to another.
pub trait ValueConverter {
    spec fn spec_input_form(&self) -> InputForm;

    spec fn spec_convert(&self, input: InputView) -> OutputView;

    spec fn spec_is_self(&self) -> bool;

    /// What the converter must be given for each line.
    fn input_form(&self) -> (r: InputForm)
        ensures
            r == self.spec_input_form(),
    ;

    /// Converts one line.
    fn convert(&self, input: &Input) -> (r: Output)
        ensures
            r@ == self.spec_convert(input@),
    ;

    /// Whether this is the identity converter, used where no conversion is
    /// defined or none is needed.
    fn is_self_converter(&self) -> (r: bool)
        ensures
            r == self.spec_is_self(),
    ;
}

/// The value of hex text input of `bits` bits, if it is hex text and reads.
pub open spec fn hex_input(input: InputView, bits: nat) -> Option<nat> {
    match input {
        InputView::Text(s) => parse_hex_spec(s, bits),
        _ => None,
    }
}

fn read_hex(input: &Input, bits: u32) -> (r: Option<u64>)
    requires
        bits == 16 || bits == 32,
    ensures
        r.is_some() == hex_input(input@, bits as nat).is_some(),
        r.is_some() ==> r.unwrap() == hex_input(input@, bits as nat).unwrap(),
        r.is_some() ==> r.unwrap() < vstd::arithmetic::power2::pow2(bits as nat),
        r.is_some() ==> r.unwrap() < (if bits == 16 {
            0x1_0000nat
        } else {
            0x1_0000_0000nat
        }),
{
    proof {
        vstd::arithmetic::power2::lemma2_to64();
    }
    match input {
        Input::Text(s) => {
            let t = s.as_str();
            assert(t@ == s@);
            let r = parse_hex(t, bits);
            assert(hex_input(input@, bits as nat) == parse_hex_spec(s@, bits as nat));
            r
        },
        _ => None,
    }
}

/// The identity converter: hands the line back, with the `0x` prefix that
/// the caller removed put back where the representation is hexadecimal.
/// It never fails.
#[derive(Clone, Copy, Debug, PartialEq, Eq, Structural)]
pub struct SelfConverter {
    pub value_type: ValueType,
}

impl ValueConverter for SelfConverter {
    open spec fn spec_input_form(&self) -> InputForm {
        InputForm::Text
    }

    open spec fn spec_convert(&self, input: InputView) -> OutputView {
        match input {
            InputView::Text(s) => OutputView::Text(
                if self.value_type.spec_is_hex() {
                    seq!['0', 'x'] + s
                } else {
                    s
                },
            ),
            _ => OutputView::Text(nan_text()),
        }
    }

    open spec fn spec_is_self(&self) -> bool {
        true
    }

    fn input_form(&self) -> (r: InputForm) {
        InputForm::Text
    }

    fn convert(&self, input: &Input) -> (r: Output) {
        match input {
            Input::Text(s) => {
                let mut out = String::new();
                if self.value_type.is_hex() {
                    push_char(&mut out, '0');
                    push_char(&mut out, 'x');
                }
                push_str(&mut out, s.as_str());
                assert(out@ =~= (if self.value_type.spec_is_hex() {
                    seq!['0', 'x'] + s@
                } else {
                    s@
                }));
                Output::Text(out)
            },
            _ => Output::Text(nan()),
        }
    }

    fn is_self_converter(&self) -> (r: bool) {
        true
    }
}

/// Single precision hex to decimal: hands back the pattern, to be written out in decimal.
#[derive(Clone, Copy, Debug, PartialEq, Eq, Structural)]
pub struct Float32ToFloatConverter;

impl ValueConverter for Float32ToFloatConverter {
    open spec fn spec_input_form(&self) -> InputForm {
        InputForm::Text
    }

    open spec fn spec_convert(&self, input: InputView) -> OutputView {
        match hex_input(input, 32) {
            Some(v) => OutputView::Single(v as u32),
            None => OutputView::Text(nan_text()),
        }
    }

    open spec fn spec_is_self(&self) -> bool {
        false
    }

    fn input_form(&self) -> (r: InputForm) {
        InputForm::Text
    }

    fn convert(&self, input: &Input) -> (r: Output) {
        match read_hex(input, 32) {
            Some(v) => Output::Single(v as u32),
            None => Output::Text(nan()),
        }
    }

    fn is_self_converter(&self) -> (r: bool) {
        false
    }
}

/// Single precision hex to half precision hex, rounding toward zero.
#[derive(Clone, Copy, Debug, PartialEq, Eq, Structural)]
pub struct Float32ToFloat16Converter;

impl Float32ToFloat16Converter {
    /// Narrows a single precision pattern to half precision, rounding toward zero.
    #[verifier::spinoff_prover]
    pub fn float32_to_float16(b: u32) -> (r: u16)
        ensures
            r == half_of_single(b as nat),
    {
        let s: u16 = ((b / 0x8000_0000) % 2) as u16;
        let e: u32 = (b / 0x80_0000) % 256;
        let f: u32 = b % 0x80_0000;
        if e == 255 {
            let top: u16 = (f / 0x2000) as u16;
            let frac: u16 = if f != 0 && top == 0 {
                0x200
            } else {
                top
            };
            s * 0x8000 + 31 * 0x400 + frac
        } else if e >= 143 {
            s * 0x8000 + 31 * 0x400
        } else if e >= 113 {
            s * 0x8000 + ((e - 112) as u16) * 0x400 + ((f / 0x2000) as u16)
        } else if e >= 103 {
            let k: u32 = 126 - e;
            let m: u32 = 0x80_0000 + f;
            proof {
                lemma_u32_shr_is_div(m, k);
                if k > 14 {
                    lemma_pow2_strictly_increases(14, k as nat);
                }
                lemma2_to64();
                lemma_div_is_ordered_by_denominator(m as int, pow2(14) as int, pow2(k as nat) as int);
                assert(m / 0x4000 < 1024);
            }
            s * 0x8000 + ((m >> k) as u16)
        } else {
            s * 0x8000
        }
    }
}

impl ValueConverter for Float32ToFloat16Converter {
    open spec fn spec_input_form(&self) -> InputForm {
        InputForm::Text
    }

    open spec fn spec_convert(&self, input: InputView) -> OutputView {
        match hex_input(input, 32) {
            Some(v) => OutputView::Text(hex_text(half_of_single(v), 4)),
            None => OutputView::Text(nan_text()),
        }
    }

    open spec fn spec_is_self(&self) -> bool {
        false
    }

    fn input_form(&self) -> (r: InputForm) {
        InputForm::Text
    }

    fn convert(&self, input: &Input) -> (r: Output) {
        match read_hex(input, 32) {
            Some(v) => Output::Text(to_hex_text(Float32ToFloat16Converter::float32_to_float16(v as u32) as u64, 4)),
            None => Output::Text(nan()),
        }
    }

    fn is_self_converter(&self) -> (r: bool) {
        false
    }
}

/// Single precision hex to 32-bit fixed point hex; `NAN` for an infinity or a NaN.
#[derive(Clone, Copy, Debug, PartialEq, Eq, Structural)]
pub struct Float32ToFix32Converter {
    /// Fractional bits of the fixed-point destination.
    pub bit: u32,
}

impl ValueConverter for Float32ToFix32Converter {
    open spec fn spec_input_form(&self) -> InputForm {
        InputForm::Text
    }

    open spec fn spec_convert(&self, input: InputView) -> OutputView {
        match hex_input(input, 32) {
            Some(v) => if single_exp(v) == 255 {
                OutputView::Text(nan_text())
            } else {
                OutputView::Text(hex_text(fixed_of_single(v, self.bit as nat, 32), 8))
            },
            None => OutputView::Text(nan_text()),
        }
    }

    open spec fn spec_is_self(&self) -> bool {
        false
    }

    fn input_form(&self) -> (r: InputForm) {
        InputForm::Text
    }

    fn convert(&self, input: &Input) -> (r: Output) {
        match read_hex(input, 32) {
            Some(v) => match fixed_from_single(v as u32, self.bit, 32) {
                Some(x) => Output::Text(to_hex_text(x, 8)),
                None => Output::Text(nan()),
            },
            None => Output::Text(nan()),
        }
    }

    fn is_self_converter(&self) -> (r: bool) {
        false
    }
}

/// Single precision hex to 16-bit fixed point hex; `NAN` for an infinity or a NaN.
#[derive(Clone, Copy, Debug, PartialEq, Eq, Structural)]
pub struct Float32ToFix16Converter {
    /// Fractional bits of the fixed-point destination.
    pub bit: u32,
}

impl ValueConverter for Float32ToFix16Converter {
    open spec fn spec_input_form(&self) -> InputForm {
        InputForm::Text
    }

    open spec fn spec_convert(&self, input: InputView) -> OutputView {
        match hex_input(input, 32) {
            Some(v) => if single_exp(v) == 255 {
                OutputView::Text(nan_text())
            } else {
                OutputView::Text(hex_text(fixed_of_single(v, self.bit as nat, 16), 4))
            },
            None => OutputView::Text(nan_text()),
        }
    }

    open spec fn spec_is_self(&self) -> bool {
        false
    }

    fn input_form(&self) -> (r: InputForm) {
        InputForm::Text
    }

    fn convert(&self, input: &Input) -> (r: Output) {
        match read_hex(input, 32) {
            Some(v) => match fixed_from_single(v as u32, self.bit, 16) {
                Some(x) => Output::Text(to_hex_text(x, 4)),
                None => Output::Text(nan()),
            },
            None => Output::Text(nan()),
        }
    }

    fn is_self_converter(&self) -> (r: bool) {
        false
    }
}

/// Half precision hex to decimal: hands back the widened single pattern, to be written out in decimal.
#[derive(Clone, Copy, Debug, PartialEq, Eq, Structural)]
pub struct Float16ToFloatConverter;

impl ValueConverter for Float16ToFloatConverter {
    open spec fn spec_input_form(&self) -> InputForm {
        InputForm::Text
    }

    open spec fn spec_convert(&self, input: InputView) -> OutputView {
        match hex_input(input, 16) {
            Some(v) => OutputView::Single(single_of_half(v) as u32),
            None => OutputView::Text(nan_text()),
        }
    }

    open spec fn spec_is_self(&self) -> bool {
        false
    }

    fn input_form(&self) -> (r: InputForm) {
        InputForm::Text
    }

    fn convert(&self, input: &Input) -> (r: Output) {
        match read_hex(input, 16) {
            Some(v) => Output::Single(Float16ToFloat32Converter::float16_to_float32(v as u16)),
            None => Output::Text(nan()),
        }
    }

    fn is_self_converter(&self) -> (r: bool) {
        false
    }
}

/// Half precision hex to single precision hex, exactly.
#[derive(Clone, Copy, Debug, PartialEq, Eq, Structural)]
pub struct Float16ToFloat32Converter;

impl Float16ToFloat32Converter {
    /// Widens a half precision pattern to the single precision pattern of the
    /// same value.
    #[verifier::spinoff_prover]
    pub fn float16_to_float32(h: u16) -> (r: u32)
        ensures
            r == single_of_half(h as nat),
    {
        let s: u32 = ((h / 0x8000) % 2) as u32;
        let e: u32 = ((h / 0x400) % 32) as u32;
        let f: u32 = (h % 0x400) as u32;
        if e == 31 {
            s * 0x8000_0000 + 255 * 0x80_0000 + f * 0x2000
        } else if e > 0 {
            s * 0x8000_0000 + (e + 112) * 0x80_0000 + f * 0x2000
        } else if f == 0 {
            s * 0x8000_0000
        } else {
            let mut m: u32 = f;
            let mut t: u32 = 0;
            proof {
                lemma2_to64();
            }
            while m < 1024
                invariant
                    0 < f < 1024,
                    0 < m < 2048,
                    t <= 10,
                    m == f * pow2(t as nat),
                    norm_shift(f as nat) == t + norm_shift(m as nat),
                decreases 10 - t,
            {
                proof {
                    lemma_pow2_unfold((t + 1) as nat);
                    assert(f * pow2((t + 1) as nat) == 2 * (f * pow2(t as nat))) by (nonlinear_arith)
                        requires
                            pow2((t + 1) as nat) == 2 * pow2(t as nat),
                    ;
                    lemma_norm_shift(f as nat);
                    if t + 1 > 10 {
                        lemma_pow2_strictly_increases(10, (t + 1) as nat);
                        lemma2_to64();
                        assert(f * pow2((t + 1) as nat) >= pow2((t + 1) as nat)) by (nonlinear_arith)
                            requires
                                f >= 1,
                        ;
                    }
                }
                m = m * 2;
                t = t + 1;
            }
            proof {
                lemma_norm_shift(f as nat);
            }
            s * 0x8000_0000 + (113 - t) * 0x80_0000 + (m - 1024) * 0x2000
        }
    }
}

impl ValueConverter for Float16ToFloat32Converter {
    open spec fn spec_input_form(&self) -> InputForm {
        InputForm::Text
    }

    open spec fn spec_convert(&self, input: InputView) -> OutputView {
        match hex_input(input, 16) {
            Some(v) => OutputView::Text(hex_text(single_of_half(v), 8)),
            None => OutputView::Text(nan_text()),
        }
    }

    open spec fn spec_is_self(&self) -> bool {
        false
    }

    fn input_form(&self) -> (r: InputForm) {
        InputForm::Text
    }

    fn convert(&self, input: &Input) -> (r: Output) {
        match read_hex(input, 16) {
            Some(v) => Output::Text(to_hex_text(Float16ToFloat32Converter::float16_to_float32(v as u16) as u64, 8)),
            None => Output::Text(nan()),
        }
    }

    fn is_self_converter(&self) -> (r: bool) {
        false
    }
}

/// Half precision hex to 32-bit fixed point hex; `NAN` for an infinity or a NaN.
#[derive(Clone, Copy, Debug, PartialEq, Eq, Structural)]
pub struct Float16ToFix32Converter {
    /// Fractional bits of the fixed-point destination.
    pub bit: u32,
}

impl ValueConverter for Float16ToFix32Converter {
    open spec fn spec_input_form(&self) -> InputForm {
        InputForm::Text
    }

    open spec fn spec_convert(&self, input: InputView) -> OutputView {
        match hex_input(input, 16) {
            Some(v) => if single_exp(single_of_half(v)) == 255 {
                OutputView::Text(nan_text())
            } else {
                OutputView::Text(hex_text(fixed_of_single(single_of_half(v), self.bit as nat, 32), 8))
            },
            None => OutputView::Text(nan_text()),
        }
    }

    open spec fn spec_is_self(&self) -> bool {
        false
    }

    fn input_form(&self) -> (r: InputForm) {
        InputForm::Text
    }

    fn convert(&self, input: &Input) -> (r: Output) {
        match read_hex(input, 16) {
            Some(v) => match fixed_from_single(Float16ToFloat32Converter::float16_to_float32(v as u16), self.bit, 32) {
                Some(x) => Output::Text(to_hex_text(x, 8)),
                None => Output::Text(nan()),
            },
            None => Output::Text(nan()),
        }
    }

    fn is_self_converter(&self) -> (r: bool) {
        false
    }
}

/// Half precision hex to 16-bit fixed point hex; `NAN` for an infinity or a NaN.
#[derive(Clone, Copy, Debug, PartialEq, Eq, Structural)]
pub struct Float16ToFix16Converter {
    /// Fractional bits of the fixed-point destination.
    pub bit: u32,
}

impl ValueConverter for Float16ToFix16Converter {
    open spec fn spec_input_form(&self) -> InputForm {
        InputForm::Text
    }

    open spec fn spec_convert(&self, input: InputView) -> OutputView {
        match hex_input(input, 16) {
            Some(v) => if single_exp(single_of_half(v)) == 255 {
                OutputView::Text(nan_text())
            } else {
                OutputView::Text(hex_text(fixed_of_single(single_of_half(v), self.bit as nat, 16), 4))
            },
            None => OutputView::Text(nan_text()),
        }
    }

    open spec fn spec_is_self(&self) -> bool {
        false
    }

    fn input_form(&self) -> (r: InputForm) {
        InputForm::Text
    }

    fn convert(&self, input: &Input) -> (r: Output) {
        match read_hex(input, 16) {
            Some(v) => match fixed_from_single(Float16ToFloat32Converter::float16_to_float32(v as u16), self.bit, 16) {
                Some(x) => Output::Text(to_hex_text(x, 4)),
                None => Output::Text(nan()),
            },
            None => Output::Text(nan()),
        }
    }

    fn is_self_converter(&self) -> (r: bool) {
        false
    }
}

/// Decimal, read as a single, to single precision hex.
#[derive(Clone, Copy, Debug, PartialEq, Eq, Structural)]
pub struct FloatToFloat32Converter;

impl ValueConverter for FloatToFloat32Converter {
    open spec fn spec_input_form(&self) -> InputForm {
        InputForm::Single
    }

    open spec fn spec_convert(&self, input: InputView) -> OutputView {
        match input {
            InputView::Single(Some(b)) => OutputView::Text(hex_text(b as nat, 8)),
            _ => OutputView::Text(nan_text()),
        }
    }

    open spec fn spec_is_self(&self) -> bool {
        false
    }

    fn input_form(&self) -> (r: InputForm) {
        InputForm::Single
    }

    fn convert(&self, input: &Input) -> (r: Output) {
        match input {
            Input::Single(Some(b)) => Output::Text(to_hex_text(*b as u64, 8)),
            _ => Output::Text(nan()),
        }
    }

    fn is_self_converter(&self) -> (r: bool) {
        false
    }
}

/// Decimal, read as a single, to half precision hex, rounding toward zero.
#[derive(Clone, Copy, Debug, PartialEq, Eq, Structural)]
pub struct FloatToFloat16Converter;

impl ValueConverter for FloatToFloat16Converter {
    open spec fn spec_input_form(&self) -> InputForm {
        InputForm::Single
    }

    open spec fn spec_convert(&self, input: InputView) -> OutputView {
        match input {
            InputView::Single(Some(b)) => OutputView::Text(hex_text(half_of_single(b as nat), 4)),
            _ => OutputView::Text(nan_text()),
        }
    }

    open spec fn spec_is_self(&self) -> bool {
        false
    }

    fn input_form(&self) -> (r: InputForm) {
        InputForm::Single
    }

    fn convert(&self, input: &Input) -> (r: Output) {
        match input {
            Input::Single(Some(b)) => Output::Text(to_hex_text(Float32ToFloat16Converter::float32_to_float16(*b) as u64, 4)),
            _ => Output::Text(nan()),
        }
    }

    fn is_self_converter(&self) -> (r: bool) {
        false
    }
}

/// Decimal, read as a single, to 16-bit fixed point hex; `NAN` for an infinity or a NaN.
#[derive(Clone, Copy, Debug, PartialEq, Eq, Structural)]
pub struct FloatToFix16Converter {
    /// Fractional bits of the fixed-point destination.
    pub bit: u32,
}

impl ValueConverter for FloatToFix16Converter {
    open spec fn spec_input_form(&self) -> InputForm {
        InputForm::Single
    }

    open spec fn spec_convert(&self, input: InputView) -> OutputView {
        match input {
            InputView::Single(Some(b)) => if single_exp(b as nat) == 255 {
                OutputView::Text(nan_text())
            } else {
                OutputView::Text(hex_text(fixed_of_single(b as nat, self.bit as nat, 16), 4))
            },
            _ => OutputView::Text(nan_text()),
        }
    }

    open spec fn spec_is_self(&self) -> bool {
        false
    }

    fn input_form(&self) -> (r: InputForm) {
        InputForm::Single
    }

    fn convert(&self, input: &Input) -> (r: Output) {
        match input {
            Input::Single(Some(b)) => match fixed_from_single(*b, self.bit, 16) {
                Some(x) => Output::Text(to_hex_text(x, 4)),
                None => Output::Text(nan()),
            },
            _ => Output::Text(nan()),
        }
    }

    fn is_self_converter(&self) -> (r: bool) {
        false
    }
}

/// Decimal, read as a double, to 32-bit fixed point hex; `NAN` for an infinity or a NaN.
#[derive(Clone, Copy, Debug, PartialEq, Eq, Structural)]
pub struct FloatToFix32Converter {
    /// Fractional bits of the fixed-point destination.
    pub bit: u32,
}

impl ValueConverter for FloatToFix32Converter {
    open spec fn spec_input_form(&self) -> InputForm {
        InputForm::Double
    }

    open spec fn spec_convert(&self, input: InputView) -> OutputView {
        match input {
            InputView::Double(Some(b)) => if double_exp(b as nat) == 2047 {
                OutputView::Text(nan_text())
            } else {
                OutputView::Text(hex_text(fixed_of_double(b as nat, self.bit as nat, 32), 8))
            },
            _ => OutputView::Text(nan_text()),
        }
    }

    open spec fn spec_is_self(&self) -> bool {
        false
    }

    fn input_form(&self) -> (r: InputForm) {
        InputForm::Double
    }

    fn convert(&self, input: &Input) -> (r: Output) {
        match input {
            Input::Double(Some(b)) => match fixed_from_double(*b, self.bit, 32) {
                Some(x) => Output::Text(to_hex_text(x, 8)),
                None => Output::Text(nan()),
            },
            _ => Output::Text(nan()),
        }
    }

    fn is_self_converter(&self) -> (r: bool) {
        false
    }
}

/// 32-bit fixed point hex to decimal: hands back the single precision pattern nearest to `integer / 2^bit`, to be written out in decimal.
#[derive(Clone, Copy, Debug, PartialEq, Eq, Structural)]
pub struct Fix32ToFloatConverter {
    /// Fractional bits of the fixed-point source.
    pub bit: u32,
}

impl ValueConverter for Fix32ToFloatConverter {
    open spec fn spec_input_form(&self) -> InputForm {
        InputForm::Text
    }

    open spec fn spec_convert(&self, input: InputView) -> OutputView {
        match hex_input(input, 32) {
            Some(v) => OutputView::Single(single_of_fixed(signed_value(v, 32), self.bit as nat) as u32),
            None => OutputView::Text(nan_text()),
        }
    }

    open spec fn spec_is_self(&self) -> bool {
        false
    }

    fn input_form(&self) -> (r: InputForm) {
        InputForm::Text
    }

    fn convert(&self, input: &Input) -> (r: Output) {
        match read_hex(input, 32) {
            Some(v) => Output::Single(single_from_fixed(to_signed(v, 32), self.bit)),
            None => Output::Text(nan()),
        }
    }

    fn is_self_converter(&self) -> (r: bool) {
        false
    }
}

/// 16-bit fixed point hex to decimal: hands back the single precision pattern nearest to `integer / 2^bit`, to be written out in decimal.
#[derive(Clone, Copy, Debug, PartialEq, Eq, Structural)]
pub struct Fix16ToFloatConverter {
    /// Fractional bits of the fixed-point source.
    pub bit: u32,
}

impl ValueConverter for Fix16ToFloatConverter {
    open spec fn spec_input_form(&self) -> InputForm {
        InputForm::Text
    }

    open spec fn spec_convert(&self, input: InputView) -> OutputView {
        match hex_input(input, 16) {
            Some(v) => OutputView::Single(single_of_fixed(signed_value(v, 16), self.bit as nat) as u32),
            None => OutputView::Text(nan_text()),
        }
    }

    open spec fn spec_is_self(&self) -> bool {
        false
    }

    fn input_form(&self) -> (r: InputForm) {
        InputForm::Text
    }

    fn convert(&self, input: &Input) -> (r: Output) {
        match read_hex(input, 16) {
            Some(v) => Output::Single(single_from_fixed(to_signed(v, 16), self.bit)),
            None => Output::Text(nan()),
        }
    }

    fn is_self_converter(&self) -> (r: bool) {
        false
    }
}

/// 32-bit fixed point hex to single precision hex, rounded to nearest.
#[derive(Clone, Copy, Debug, PartialEq, Eq, Structural)]
pub struct Fix32ToFloat32Converter {
    /// Fractional bits of the fixed-point source.
    pub bit: u32,
}

impl ValueConverter for Fix32ToFloat32Converter {
    open spec fn spec_input_form(&self) -> InputForm {
        InputForm::Text
    }

    open spec fn spec_convert(&self, input: InputView) -> OutputView {
        match hex_input(input, 32) {
            Some(v) => OutputView::Text(hex_text(single_of_fixed(signed_value(v, 32), self.bit as nat), 8)),
            None => OutputView::Text(nan_text()),
        }
    }

    open spec fn spec_is_self(&self) -> bool {
        false
    }

    fn input_form(&self) -> (r: InputForm) {
        InputForm::Text
    }

    fn convert(&self, input: &Input) -> (r: Output) {
        match read_hex(input, 32) {
            Some(v) => Output::Text(to_hex_text(single_from_fixed(to_signed(v, 32), self.bit) as u64, 8)),
            None => Output::Text(nan()),
        }
    }

    fn is_self_converter(&self) -> (r: bool) {
        false
    }
}

/// 32-bit fixed point hex to half precision hex: rounded to the nearest single, then narrowed toward zero.
#[derive(Clone, Copy, Debug, PartialEq, Eq, Structural)]
pub struct Fix32ToFloat16Converter {
    /// Fractional bits of the fixed-point source.
    pub bit: u32,
}

impl ValueConverter for Fix32ToFloat16Converter {
    open spec fn spec_input_form(&self) -> InputForm {
        InputForm::Text
    }

    open spec fn spec_convert(&self, input: InputView) -> OutputView {
        match hex_input(input, 32) {
            Some(v) => OutputView::Text(hex_text(half_of_single(single_of_fixed(signed_value(v, 32), self.bit as nat)), 4)),
            None => OutputView::Text(nan_text()),
        }
    }

    open spec fn spec_is_self(&self) -> bool {
        false
    }

    fn input_form(&self) -> (r: InputForm) {
        InputForm::Text
    }

    fn convert(&self, input: &Input) -> (r: Output) {
        match read_hex(input, 32) {
            Some(v) => Output::Text(
                to_hex_text(
                    Float32ToFloat16Converter::float32_to_float16(
                        single_from_fixed(to_signed(v, 32), self.bit),
                    ) as u64,
                    4,
                ),
            ),
            None => Output::Text(nan()),
        }
    }

    fn is_self_converter(&self) -> (r: bool) {
        false
    }
}

/// 16-bit fixed point hex to single precision hex, rounded to nearest.
#[derive(Clone, Copy, Debug, PartialEq, Eq, Structural)]
pub struct Fix16ToFloat32Converter {
    /// Fractional bits of the fixed-point source.
    pub bit: u32,
}

impl ValueConverter for Fix16ToFloat32Converter {
    open spec fn spec_input_form(&self) -> InputForm {
        InputForm::Text
    }

    open spec fn spec_convert(&self, input: InputView) -> OutputView {
        match hex_input(input, 16) {
            Some(v) => OutputView::Text(hex_text(single_of_fixed(signed_value(v, 16), self.bit as nat), 8)),
            None => OutputView::Text(nan_text()),
        }
    }

    open spec fn spec_is_self(&self) -> bool {
        false
    }

    fn input_form(&self) -> (r: InputForm) {
        InputForm::Text
    }

    fn convert(&self, input: &Input) -> (r: Output) {
        match read_hex(input, 16) {
            Some(v) => Output::Text(to_hex_text(single_from_fixed(to_signed(v, 16), self.bit) as u64, 8)),
            None => Output::Text(nan()),
        }
    }

    fn is_self_converter(&self) -> (r: bool) {
        false
    }
}

/// 16-bit fixed point hex to half precision hex: rounded to the nearest single, then narrowed toward zero.
#[derive(Clone, Copy, Debug, PartialEq, Eq, Structural)]
pub struct Fix16ToFloat16Converter {
    /// Fractional bits of the fixed-point source.
    pub bit: u32,
}

impl ValueConverter for Fix16ToFloat16Converter {
    open spec fn spec_input_form(&self) -> InputForm {
        InputForm::Text
    }

    open spec fn spec_convert(&self, input: InputView) -> OutputView {
        match hex_input(input, 16) {
            Some(v) => OutputView::Text(hex_text(half_of_single(single_of_fixed(signed_value(v, 16), self.bit as nat)), 4)),
            None => OutputView::Text(nan_text()),
        }
    }

    open spec fn spec_is_self(&self) -> bool {
        false
    }

    fn input_form(&self) -> (r: InputForm) {
        InputForm::Text
    }

    fn convert(&self, input: &Input) -> (r: Output) {
        match read_hex(input, 16) {
            Some(v) => Output::Text(
                to_hex_text(
                    Float32ToFloat16Converter::float32_to_float16(
                        single_from_fixed(to_signed(v, 16), self.bit),
                    ) as u64,
                    4,
                ),
            ),
            None => Output::Text(nan()),
        }
    }

    fn is_self_converter(&self) -> (r: bool) {
        false
    }
}

/// 32-bit fixed point hex between two fractional widths.
#[derive(Clone, Copy, Debug, PartialEq, Eq, Structural)]
pub struct Fix32ToFix32Converter {
    /// Fractional bits of the source.
    pub bit_src: u32,
    /// Fractional bits of the destination.
    pub bit_dst: u32,
}

impl ValueConverter for Fix32ToFix32Converter {
    open spec fn spec_input_form(&self) -> InputForm {
        InputForm::Text
    }

    open spec fn spec_convert(&self, input: InputView) -> OutputView {
        match hex_input(input, 32) {
            Some(v) => OutputView::Text(hex_text(wrap(rescaled(signed_value(v, 32), self.bit_src as nat, self.bit_dst as nat), 32), 8)),
            None => OutputView::Text(nan_text()),
        }
    }

    open spec fn spec_is_self(&self) -> bool {
        false
    }

    fn input_form(&self) -> (r: InputForm) {
        InputForm::Text
    }

    fn convert(&self, input: &Input) -> (r: Output) {
        match read_hex(input, 32) {
            Some(v) => Output::Text(to_hex_text(rescale(v, 32, self.bit_src, self.bit_dst), 8)),
            None => Output::Text(nan()),
        }
    }

    fn is_self_converter(&self) -> (r: bool) {
        false
    }
}

/// 16-bit fixed point hex between two fractional widths.
#[derive(Clone, Copy, Debug, PartialEq, Eq, Structural)]
pub struct Fix16ToFix16Converter {
    /// Fractional bits of the source.
    pub bit_src: u32,
    /// Fractional bits of the destination.
    pub bit_dst: u32,
}

impl ValueConverter for Fix16ToFix16Converter {
    open spec fn spec_input_form(&self) -> InputForm {
        InputForm::Text
    }

    open spec fn spec_convert(&self, input: InputView) -> OutputView {
        match hex_input(input, 16) {
            Some(v) => OutputView::Text(hex_text(wrap(rescaled(signed_value(v, 16), self.bit_src as nat, self.bit_dst as nat), 16), 4)),
            None => OutputView::Text(nan_text()),
        }
    }

    open spec fn spec_is_self(&self) -> bool {
        false
    }

    fn input_form(&self) -> (r: InputForm) {
        InputForm::Text
    }

    fn convert(&self, input: &Input) -> (r: Output) {
        match read_hex(input, 16) {
            Some(v) => Output::Text(to_hex_text(rescale(v, 16, self.bit_src, self.bit_dst), 4)),
            None => Output::Text(nan()),
        }
    }

    fn is_self_converter(&self) -> (r: bool) {
        false
    }
}

/// Packed complex hex to `<real> + <imag>i`: hands back both parts widened to single patterns, to be written out in decimal.
#[derive(Clone, Copy, Debug, PartialEq, Eq, Structural)]
pub struct Complex16ToComplexConverter;

impl ValueConverter for Complex16ToComplexConverter {
    open spec fn spec_input_form(&self) -> InputForm {
        InputForm::Text
    }

    open spec fn spec_convert(&self, input: InputView) -> OutputView {
        match hex_input(input, 32) {
            Some(v) => OutputView::Complex(single_of_half(v / 0x1_0000) as u32, single_of_half(v % 0x1_0000) as u32),
            None => OutputView::Text(nan_text()),
        }
    }

    open spec fn spec_is_self(&self) -> bool {
        false
    }

    fn input_form(&self) -> (r: InputForm) {
        InputForm::Text
    }

    fn convert(&self, input: &Input) -> (r: Output) {
        match read_hex(input, 32) {
            Some(v) => Output::Complex(Float16ToFloat32Converter::float16_to_float32((v / 0x1_0000) as u16), Float16ToFloat32Converter::float16_to_float32((v % 0x1_0000) as u16)),
            None => Output::Text(nan()),
        }
    }

    fn is_self_converter(&self) -> (r: bool) {
        false
    }
}

/// `<real> + <imag>i`, both parts read as singles, to packed complex hex: each part narrowed to half precision, the real part in the high 16 bits.
#[derive(Clone, Copy, Debug, PartialEq, Eq, Structural)]
pub struct ComplexToComplex16Converter;

impl ValueConverter for ComplexToComplex16Converter {
    open spec fn spec_input_form(&self) -> InputForm {
        InputForm::Complex
    }

    open spec fn spec_convert(&self, input: InputView) -> OutputView {
        match input {
            InputView::Complex(Some((re, im))) => OutputView::Text(
                hex_text(half_of_single(re as nat) * 0x1_0000 + half_of_single(im as nat), 8),
            ),
            _ => OutputView::Text(nan_text()),
        }
    }

    open spec fn spec_is_self(&self) -> bool {
        false
    }

    fn input_form(&self) -> (r: InputForm) {
        InputForm::Complex
    }

    fn convert(&self, input: &Input) -> (r: Output) {
        match input {
            Input::Complex(Some((re, im))) => {
                let packed: u64 = (Float32ToFloat16Converter::float32_to_float16(*re) as u64) * 0x1_0000 + (Float32ToFloat16Converter::float32_to_float16(*im) as u64);
                Output::Text(to_hex_text(packed, 8))
            },
            _ => Output::Text(nan()),
        }
    }

    fn is_self_converter(&self) -> (r: bool) {
        false
    }
}

/// Any converter: what a lookup in the dispatch table yields.
#[derive(Clone, Copy, Debug, PartialEq, Eq, Structural)]
pub enum Converter {
    Identity(SelfConverter),
    Float32ToFloat(Float32ToFloatConverter),
    Float32ToFloat16(Float32ToFloat16Converter),
    Float32ToFix32(Float32ToFix32Converter),
    Float32ToFix16(Float32ToFix16Converter),
    Float16ToFloat(Float16ToFloatConverter),
    Float16ToFloat32(Float16ToFloat32Converter),
    Float16ToFix32(Float16ToFix32Converter),
    Float16ToFix16(Float16ToFix16Converter),
    FloatToFloat32(FloatToFloat32Converter),
    FloatToFloat16(FloatToFloat16Converter),
    FloatToFix16(FloatToFix16Converter),
    FloatToFix32(FloatToFix32Converter),
    Fix32ToFloat(Fix32ToFloatConverter),
    Fix16ToFloat(Fix16ToFloatConverter),
    Fix32ToFloat32(Fix32ToFloat32Converter),
    Fix32ToFloat16(Fix32ToFloat16Converter),
    Fix16ToFloat32(Fix16ToFloat32Converter),
    Fix16ToFloat16(Fix16ToFloat16Converter),
    Fix32ToFix32(Fix32ToFix32Converter),
    Fix16ToFix16(Fix16ToFix16Converter),
    Complex16ToComplex(Complex16ToComplexConverter),
    ComplexToComplex16(ComplexToComplex16Converter),
}

impl ValueConverter for Converter {
    open spec fn spec_input_form(&self) -> InputForm {
        match self {
            Converter::Identity(c) => c.spec_input_form(),
            Converter::Float32ToFloat(c) => c.spec_input_form(),
            Converter::Float32ToFloat16(c) => c.spec_input_form(),
            Converter::Float32ToFix32(c) => c.spec_input_form(),
            Converter::Float32ToFix16(c) => c.spec_input_form(),
            Converter::Float16ToFloat(c) => c.spec_input_form(),
            Converter::Float16ToFloat32(c) => c.spec_input_form(),
            Converter::Float16ToFix32(c) => c.spec_input_form(),
            Converter::Float16ToFix16(c) => c.spec_input_form(),
            Converter::FloatToFloat32(c) => c.spec_input_form(),
            Converter::FloatToFloat16(c) => c.spec_input_form(),
            Converter::FloatToFix16(c) => c.spec_input_form(),
            Converter::FloatToFix32(c) => c.spec_input_form(),
            Converter::Fix32ToFloat(c) => c.spec_input_form(),
            Converter::Fix16ToFloat(c) => c.spec_input_form(),
            Converter::Fix32ToFloat32(c) => c.spec_input_form(),
            Converter::Fix32ToFloat16(c) => c.spec_input_form(),
            Converter::Fix16ToFloat32(c) => c.spec_input_form(),
            Converter::Fix16ToFloat16(c) => c.spec_input_form(),
            Converter::Fix32ToFix32(c) => c.spec_input_form(),
            Converter::Fix16ToFix16(c) => c.spec_input_form(),
            Converter::Complex16ToComplex(c) => c.spec_input_form(),
            Converter::ComplexToComplex16(c) => c.spec_input_form(),
        }
    }

    open spec fn spec_convert(&self, input: InputView) -> OutputView {
        match self {
            Converter::Identity(c) => c.spec_convert(input),
            Converter::Float32ToFloat(c) => c.spec_convert(input),
            Converter::Float32ToFloat16(c) => c.spec_convert(input),
            Converter::Float32ToFix32(c) => c.spec_convert(input),
            Converter::Float32ToFix16(c) => c.spec_convert(input),
            Converter::Float16ToFloat(c) => c.spec_convert(input),
            Converter::Float16ToFloat32(c) => c.spec_convert(input),
            Converter::Float16ToFix32(c) => c.spec_convert(input),
            Converter::Float16ToFix16(c) => c.spec_convert(input),
            Converter::FloatToFloat32(c) => c.spec_convert(input),
            Converter::FloatToFloat16(c) => c.spec_convert(input),
            Converter::FloatToFix16(c) => c.spec_convert(input),
            Converter::FloatToFix32(c) => c.spec_convert(input),
            Converter::Fix32ToFloat(c) => c.spec_convert(input),
            Converter::Fix16ToFloat(c) => c.spec_convert(input),
            Converter::Fix32ToFloat32(c) => c.spec_convert(input),
            Converter::Fix32ToFloat16(c) => c.spec_convert(input),
            Converter::Fix16ToFloat32(c) => c.spec_convert(input),
            Converter::Fix16ToFloat16(c) => c.spec_convert(input),
            Converter::Fix32ToFix32(c) => c.spec_convert(input),
            Converter::Fix16ToFix16(c) => c.spec_convert(input),
            Converter::Complex16ToComplex(c) => c.spec_convert(input),
            Converter::ComplexToComplex16(c) => c.spec_convert(input),
        }
    }

    open spec fn spec_is_self(&self) -> bool {
        match self {
            Converter::Identity(c) => c.spec_is_self(),
            Converter::Float32ToFloat(c) => c.spec_is_self(),
            Converter::Float32ToFloat16(c) => c.spec_is_self(),
            Converter::Float32ToFix32(c) => c.spec_is_self(),
            Converter::Float32ToFix16(c) => c.spec_is_self(),
            Converter::Float16ToFloat(c) => c.spec_is_self(),
            Converter::Float16ToFloat32(c) => c.spec_is_self(),
            Converter::Float16ToFix32(c) => c.spec_is_self(),
            Converter::Float16ToFix16(c) => c.spec_is_self(),
            Converter::FloatToFloat32(c) => c.spec_is_self(),
            Converter::FloatToFloat16(c) => c.spec_is_self(),
            Converter::FloatToFix16(c) => c.spec_is_self(),
            Converter::FloatToFix32(c) => c.spec_is_self(),
            Converter::Fix32ToFloat(c) => c.spec_is_self(),
            Converter::Fix16ToFloat(c) => c.spec_is_self(),
            Converter::Fix32ToFloat32(c) => c.spec_is_self(),
            Converter::Fix32ToFloat16(c) => c.spec_is_self(),
            Converter::Fix16ToFloat32(c) => c.spec_is_self(),
            Converter::Fix16ToFloat16(c) => c.spec_is_self(),
            Converter::Fix32ToFix32(c) => c.spec_is_self(),
            Converter::Fix16ToFix16(c) => c.spec_is_self(),
            Converter::Complex16ToComplex(c) => c.spec_is_self(),
            Converter::ComplexToComplex16(c) => c.spec_is_self(),
        }
    }

    fn input_form(&self) -> (r: InputForm) {
        match self {
            Converter::Identity(c) => c.input_form(),
            Converter::Float32ToFloat(c) => c.input_form(),
            Converter::Float32ToFloat16(c) => c.input_form(),
            Converter::Float32ToFix32(c) => c.input_form(),
            Converter::Float32ToFix16(c) => c.input_form(),
            Converter::Float16ToFloat(c) => c.input_form(),
            Converter::Float16ToFloat32(c) => c.input_form(),
            Converter::Float16ToFix32(c) => c.input_form(),
            Converter::Float16ToFix16(c) => c.input_form(),
            Converter::FloatToFloat32(c) => c.input_form(),
            Converter::FloatToFloat16(c) => c.input_form(),
            Converter::FloatToFix16(c) => c.input_form(),
            Converter::FloatToFix32(c) => c.input_form(),
            Converter::Fix32ToFloat(c) => c.input_form(),
            Converter::Fix16ToFloat(c) => c.input_form(),
            Converter::Fix32ToFloat32(c) => c.input_form(),
            Converter::Fix32ToFloat16(c) => c.input_form(),
            Converter::Fix16ToFloat32(c) => c.input_form(),
            Converter::Fix16ToFloat16(c) => c.input_form(),
            Converter::Fix32ToFix32(c) => c.input_form(),
            Converter::Fix16ToFix16(c) => c.input_form(),
            Converter::Complex16ToComplex(c) => c.input_form(),
            Converter::ComplexToComplex16(c) => c.input_form(),
        }
    }

    fn convert(&self, input: &Input) -> (r: Output) {
        match self {
            Converter::Identity(c) => c.convert(input),
            Converter::Float32ToFloat(c) => c.convert(input),
            Converter::Float32ToFloat16(c) => c.convert(input),
            Converter::Float32ToFix32(c) => c.convert(input),
            Converter::Float32ToFix16(c) => c.convert(input),
            Converter::Float16ToFloat(c) => c.convert(input),
            Converter::Float16ToFloat32(c) => c.convert(input),
            Converter::Float16ToFix32(c) => c.convert(input),
            Converter::Float16ToFix16(c) => c.convert(input),
            Converter::FloatToFloat32(c) => c.convert(input),
            Converter::FloatToFloat16(c) => c.convert(input),
            Converter::FloatToFix16(c) => c.convert(input),
            Converter::FloatToFix32(c) => c.convert(input),
            Converter::Fix32ToFloat(c) => c.convert(input),
            Converter::Fix16ToFloat(c) => c.convert(input),
            Converter::Fix32ToFloat32(c) => c.convert(input),
            Converter::Fix32ToFloat16(c) => c.convert(input),
            Converter::Fix16ToFloat32(c) => c.convert(input),
            Converter::Fix16ToFloat16(c) => c.convert(input),
            Converter::Fix32ToFix32(c) => c.convert(input),
            Converter::Fix16ToFix16(c) => c.convert(input),
            Converter::Complex16ToComplex(c) => c.convert(input),
            Converter::ComplexToComplex16(c) => c.convert(input),
        }
    }

    fn is_self_converter(&self) -> (r: bool) {
        match self {
            Converter::Identity(c) => c.is_self_converter(),
            Converter::Float32ToFloat(c) => c.is_self_converter(),
            Converter::Float32ToFloat16(c) => c.is_self_converter(),
            Converter::Float32ToFix32(c) => c.is_self_converter(),
            Converter::Float32ToFix16(c) => c.is_self_converter(),
            Converter::Float16ToFloat(c) => c.is_self_converter(),
            Converter::Float16ToFloat32(c) => c.is_self_converter(),
            Converter::Float16ToFix32(c) => c.is_self_converter(),
            Converter::Float16ToFix16(c) => c.is_self_converter(),
            Converter::FloatToFloat32(c) => c.is_self_converter(),
            Converter::FloatToFloat16(c) => c.is_self_converter(),
            Converter::FloatToFix16(c) => c.is_self_converter(),
            Converter::FloatToFix32(c) => c.is_self_converter(),
            Converter::Fix32ToFloat(c) => c.is_self_converter(),
            Converter::Fix16ToFloat(c) => c.is_self_converter(),
            Converter::Fix32ToFloat32(c) => c.is_self_converter(),
            Converter::Fix32ToFloat16(c) => c.is_self_converter(),
            Converter::Fix16ToFloat32(c) => c.is_self_converter(),
            Converter::Fix16ToFloat16(c) => c.is_self_converter(),
            Converter::Fix32ToFix32(c) => c.is_self_converter(),
            Converter::Fix16ToFix16(c) => c.is_self_converter(),
            Converter::Complex16ToComplex(c) => c.is_self_converter(),
            Converter::ComplexToComplex16(c) => c.is_self_converter(),
        }
    }
}

} // verus!
