//! The dispatch table: from a source representation, a destination
//! representation and the fractional widths of fixed-point ends, to the
//! converter between them. One sub-table per source representation.

use vstd::prelude::*;

use crate::converter::{
    Complex16ToComplexConverter, ComplexToComplex16Converter, Converter, Fix16ToFix16Converter,
    Fix16ToFloat16Converter, Fix16ToFloat32Converter, Fix16ToFloatConverter, Fix32ToFix32Converter,
    Fix32ToFloat16Converter, Fix32ToFloat32Converter, Fix32ToFloatConverter, Float16ToFix16Converter,
    Float16ToFix32Converter, Float16ToFloat32Converter, Float16ToFloatConverter,
    Float32ToFix16Converter, Float32ToFix32Converter, Float32ToFloat16Converter,
    Float32ToFloatConverter, FloatToFix16Converter, FloatToFix32Converter, FloatToFloat16Converter,
    FloatToFloat32Converter, SelfConverter, ValueConverter,
};
use crate::value_type::ValueType;

verus! {

/// The sub-table of one source representation.
pub trait ValueConverterFactory {
    /// The converter to `dst`; `src_bit` and `dst_bit` are the fractional
    /// widths of a fixed-point source and destination.
    spec fn spec_create(dst: ValueType, src_bit: u32, dst_bit: u32) -> Converter;

    /// Whether a conversion to `dst` is defined.
    spec fn spec_check(dst: ValueType) -> bool;

    fn create(dst: &ValueType, src_bit: u32, dst_bit: u32) -> (r: Converter)
        ensures
            r == Self::spec_create(*dst, src_bit, dst_bit),
    ;

    fn check(dst: &ValueType) -> (r: bool)
        ensures
            r == Self::spec_check(*dst),
    ;
}

/// From decimal numerals.
pub struct FloatConverterFactory;

impl ValueConverterFactory for FloatConverterFactory {
    open spec fn spec_create(dst: ValueType, src_bit: u32, dst_bit: u32) -> Converter {
        match dst {
            ValueType::Float32 => Converter::FloatToFloat32(FloatToFloat32Converter),
            ValueType::Float16 => Converter::FloatToFloat16(FloatToFloat16Converter),
            ValueType::Fix32 => Converter::FloatToFix32(FloatToFix32Converter { bit: dst_bit }),
            ValueType::Fix16 => Converter::FloatToFix16(FloatToFix16Converter { bit: dst_bit }),
            _ => Converter::Identity(SelfConverter { value_type: ValueType::Float }),
        }
    }

    open spec fn spec_check(dst: ValueType) -> bool {
        dst == ValueType::Float32 || dst == ValueType::Float16 || dst == ValueType::Fix32
            || dst == ValueType::Fix16
    }

    fn create(dst: &ValueType, src_bit: u32, dst_bit: u32) -> (r: Converter) {
        match dst {
            ValueType::Float32 => Converter::FloatToFloat32(FloatToFloat32Converter),
            ValueType::Float16 => Converter::FloatToFloat16(FloatToFloat16Converter),
            ValueType::Fix32 => Converter::FloatToFix32(FloatToFix32Converter { bit: dst_bit }),
            ValueType::Fix16 => Converter::FloatToFix16(FloatToFix16Converter { bit: dst_bit }),
            _ => Converter::Identity(SelfConverter { value_type: ValueType::Float }),
        }
    }

    fn check(dst: &ValueType) -> (r: bool) {
        matches!(dst, ValueType::Float32 | ValueType::Float16 | ValueType::Fix32 | ValueType::Fix16)
    }
}

/// From single precision patterns.
pub struct Float32ConverterFactory;

impl ValueConverterFactory for Float32ConverterFactory {
    open spec fn spec_create(dst: ValueType, src_bit: u32, dst_bit: u32) -> Converter {
        match dst {
            ValueType::Float16 => Converter::Float32ToFloat16(Float32ToFloat16Converter),
            ValueType::Float => Converter::Float32ToFloat(Float32ToFloatConverter),
            ValueType::Fix32 => Converter::Float32ToFix32(Float32ToFix32Converter { bit: dst_bit }),
            ValueType::Fix16 => Converter::Float32ToFix16(Float32ToFix16Converter { bit: dst_bit }),
            _ => Converter::Identity(SelfConverter { value_type: ValueType::Float32 }),
        }
    }

    open spec fn spec_check(dst: ValueType) -> bool {
        dst == ValueType::Float16 || dst == ValueType::Float || dst == ValueType::Fix32 || dst
            == ValueType::Fix16
    }

    fn create(dst: &ValueType, src_bit: u32, dst_bit: u32) -> (r: Converter) {
        match dst {
            ValueType::Float16 => Converter::Float32ToFloat16(Float32ToFloat16Converter),
            ValueType::Float => Converter::Float32ToFloat(Float32ToFloatConverter),
            ValueType::Fix32 => Converter::Float32ToFix32(Float32ToFix32Converter { bit: dst_bit }),
            ValueType::Fix16 => Converter::Float32ToFix16(Float32ToFix16Converter { bit: dst_bit }),
            _ => Converter::Identity(SelfConverter { value_type: ValueType::Float32 }),
        }
    }

    fn check(dst: &ValueType) -> (r: bool) {
        matches!(dst, ValueType::Float16 | ValueType::Float | ValueType::Fix32 | ValueType::Fix16)
    }
}

/// From half precision patterns.
pub struct Float16ConverterFactory;

impl ValueConverterFactory for Float16ConverterFactory {
    open spec fn spec_create(dst: ValueType, src_bit: u32, dst_bit: u32) -> Converter {
        match dst {
            ValueType::Float32 => Converter::Float16ToFloat32(Float16ToFloat32Converter),
            ValueType::Float => Converter::Float16ToFloat(Float16ToFloatConverter),
            ValueType::Fix32 => Converter::Float16ToFix32(Float16ToFix32Converter { bit: dst_bit }),
            ValueType::Fix16 => Converter::Float16ToFix16(Float16ToFix16Converter { bit: dst_bit }),
            _ => Converter::Identity(SelfConverter { value_type: ValueType::Float16 }),
        }
    }

    open spec fn spec_check(dst: ValueType) -> bool {
        dst == ValueType::Float32 || dst == ValueType::Float || dst == ValueType::Fix32 || dst
            == ValueType::Fix16
    }

    fn create(dst: &ValueType, src_bit: u32, dst_bit: u32) -> (r: Converter) {
        match dst {
            ValueType::Float32 => Converter::Float16ToFloat32(Float16ToFloat32Converter),
            ValueType::Float => Converter::Float16ToFloat(Float16ToFloatConverter),
            ValueType::Fix32 => Converter::Float16ToFix32(Float16ToFix32Converter { bit: dst_bit }),
            ValueType::Fix16 => Converter::Float16ToFix16(Float16ToFix16Converter { bit: dst_bit }),
            _ => Converter::Identity(SelfConverter { value_type: ValueType::Float16 }),
        }
    }

    fn check(dst: &ValueType) -> (r: bool) {
        matches!(dst, ValueType::Float32 | ValueType::Float | ValueType::Fix32 | ValueType::Fix16)
    }
}

/// From 32-bit fixed point, to decimal or to a float pattern. Between two 32-bit fixed-point widths the
/// integer is rescaled; with equal widths nothing is to be done.
pub struct Fix32ConverterFactory;

impl ValueConverterFactory for Fix32ConverterFactory {
    open spec fn spec_create(dst: ValueType, src_bit: u32, dst_bit: u32) -> Converter {
        match dst {
            ValueType::Float => Converter::Fix32ToFloat(Fix32ToFloatConverter { bit: src_bit }),
            ValueType::Float32 => Converter::Fix32ToFloat32(Fix32ToFloat32Converter { bit: src_bit }),
            ValueType::Float16 => Converter::Fix32ToFloat16(Fix32ToFloat16Converter { bit: src_bit }),
            ValueType::Fix32 if src_bit != dst_bit => Converter::Fix32ToFix32(
                Fix32ToFix32Converter { bit_src: src_bit, bit_dst: dst_bit },
            ),
            _ => Converter::Identity(SelfConverter { value_type: ValueType::Fix32 }),
        }
    }

    open spec fn spec_check(dst: ValueType) -> bool {
        dst == ValueType::Float || dst == ValueType::Float32 || dst == ValueType::Float16 || dst
            == ValueType::Fix32
    }

    fn create(dst: &ValueType, src_bit: u32, dst_bit: u32) -> (r: Converter) {
        match dst {
            ValueType::Float => Converter::Fix32ToFloat(Fix32ToFloatConverter { bit: src_bit }),
            ValueType::Float32 => Converter::Fix32ToFloat32(Fix32ToFloat32Converter { bit: src_bit }),
            ValueType::Float16 => Converter::Fix32ToFloat16(Fix32ToFloat16Converter { bit: src_bit }),
            ValueType::Fix32 if src_bit != dst_bit => Converter::Fix32ToFix32(
                Fix32ToFix32Converter { bit_src: src_bit, bit_dst: dst_bit },
            ),
            _ => Converter::Identity(SelfConverter { value_type: ValueType::Fix32 }),
        }
    }

    fn check(dst: &ValueType) -> (r: bool) {
        matches!(dst, ValueType::Float | ValueType::Float32 | ValueType::Float16 | ValueType::Fix32)
    }
}

/// From 16-bit fixed point, likewise.
pub struct Fix16ConverterFactory;

impl ValueConverterFactory for Fix16ConverterFactory {
    open spec fn spec_create(dst: ValueType, src_bit: u32, dst_bit: u32) -> Converter {
        match dst {
            ValueType::Float => Converter::Fix16ToFloat(Fix16ToFloatConverter { bit: src_bit }),
            ValueType::Float32 => Converter::Fix16ToFloat32(Fix16ToFloat32Converter { bit: src_bit }),
            ValueType::Float16 => Converter::Fix16ToFloat16(Fix16ToFloat16Converter { bit: src_bit }),
            ValueType::Fix16 if src_bit != dst_bit => Converter::Fix16ToFix16(
                Fix16ToFix16Converter { bit_src: src_bit, bit_dst: dst_bit },
            ),
            _ => Converter::Identity(SelfConverter { value_type: ValueType::Fix16 }),
        }
    }

    open spec fn spec_check(dst: ValueType) -> bool {
        dst == ValueType::Float || dst == ValueType::Float32 || dst == ValueType::Float16 || dst
            == ValueType::Fix16
    }

    fn create(dst: &ValueType, src_bit: u32, dst_bit: u32) -> (r: Converter) {
        match dst {
            ValueType::Float => Converter::Fix16ToFloat(Fix16ToFloatConverter { bit: src_bit }),
            ValueType::Float32 => Converter::Fix16ToFloat32(Fix16ToFloat32Converter { bit: src_bit }),
            ValueType::Float16 => Converter::Fix16ToFloat16(Fix16ToFloat16Converter { bit: src_bit }),
            ValueType::Fix16 if src_bit != dst_bit => Converter::Fix16ToFix16(
                Fix16ToFix16Converter { bit_src: src_bit, bit_dst: dst_bit },
            ),
            _ => Converter::Identity(SelfConverter { value_type: ValueType::Fix16 }),
        }
    }

    fn check(dst: &ValueType) -> (r: bool) {
        matches!(dst, ValueType::Float | ValueType::Float32 | ValueType::Float16 | ValueType::Fix16)
    }
}

/// From packed complex numbers.
pub struct Complex16ConverterFactory;

impl ValueConverterFactory for Complex16ConverterFactory {
    open spec fn spec_create(dst: ValueType, src_bit: u32, dst_bit: u32) -> Converter {
        match dst {
            ValueType::Complex => Converter::Complex16ToComplex(Complex16ToComplexConverter),
            _ => Converter::Identity(SelfConverter { value_type: ValueType::Complex16 }),
        }
    }

    open spec fn spec_check(dst: ValueType) -> bool {
        dst == ValueType::Complex
    }

    fn create(dst: &ValueType, src_bit: u32, dst_bit: u32) -> (r: Converter) {
        match dst {
            ValueType::Complex => Converter::Complex16ToComplex(Complex16ToComplexConverter),
            _ => Converter::Identity(SelfConverter { value_type: ValueType::Complex16 }),
        }
    }

    fn check(dst: &ValueType) -> (r: bool) {
        matches!(dst, ValueType::Complex)
    }
}

/// From written-out complex numbers.
pub struct ComplexConverterFactory;

impl ValueConverterFactory for ComplexConverterFactory {
    open spec fn spec_create(dst: ValueType, src_bit: u32, dst_bit: u32) -> Converter {
        match dst {
            ValueType::Complex16 => Converter::ComplexToComplex16(ComplexToComplex16Converter),
            _ => Converter::Identity(SelfConverter { value_type: ValueType::Complex }),
        }
    }

    open spec fn spec_check(dst: ValueType) -> bool {
        dst == ValueType::Complex16
    }

    fn create(dst: &ValueType, src_bit: u32, dst_bit: u32) -> (r: Converter) {
        match dst {
            ValueType::Complex16 => Converter::ComplexToComplex16(ComplexToComplex16Converter),
            _ => Converter::Identity(SelfConverter { value_type: ValueType::Complex }),
        }
    }

    fn check(dst: &ValueType) -> (r: bool) {
        matches!(dst, ValueType::Complex16)
    }
}

/// The whole table: the sub-table of the source, then the destination in it.
pub struct ConverterFactory;

impl ConverterFactory {
    pub open spec fn spec_create(
        src: ValueType,
        dst: ValueType,
        src_bit: u32,
        dst_bit: u32,
    ) -> Converter {
        match src {
            ValueType::Float32 => Float32ConverterFactory::spec_create(dst, src_bit, dst_bit),
            ValueType::Float16 => Float16ConverterFactory::spec_create(dst, src_bit, dst_bit),
            ValueType::Float => FloatConverterFactory::spec_create(dst, src_bit, dst_bit),
            ValueType::Complex16 => Complex16ConverterFactory::spec_create(dst, src_bit, dst_bit),
            ValueType::Complex => ComplexConverterFactory::spec_create(dst, src_bit, dst_bit),
            ValueType::Fix32 => Fix32ConverterFactory::spec_create(dst, src_bit, dst_bit),
            ValueType::Fix16 => Fix16ConverterFactory::spec_create(dst, src_bit, dst_bit),
        }
    }

    pub open spec fn spec_check(src: ValueType, dst: ValueType) -> bool {
        match src {
            ValueType::Float32 => Float32ConverterFactory::spec_check(dst),
            ValueType::Float16 => Float16ConverterFactory::spec_check(dst),
            ValueType::Float => FloatConverterFactory::spec_check(dst),
            ValueType::Complex16 => Complex16ConverterFactory::spec_check(dst),
            ValueType::Complex => ComplexConverterFactory::spec_check(dst),
            ValueType::Fix32 => Fix32ConverterFactory::spec_check(dst),
            ValueType::Fix16 => Fix16ConverterFactory::spec_check(dst),
        }
    }

    /// The converter from `src` to `dst`; the identity converter where no
    /// conversion is defined or none is needed.
    pub fn create(src: &ValueType, dst: &ValueType, src_bit: u32, dst_bit: u32) -> (r: Converter)
        ensures
            r == Self::spec_create(*src, *dst, src_bit, dst_bit),
    {
        match src {
            ValueType::Float32 => Float32ConverterFactory::create(dst, src_bit, dst_bit),
            ValueType::Float16 => Float16ConverterFactory::create(dst, src_bit, dst_bit),
            ValueType::Float => FloatConverterFactory::create(dst, src_bit, dst_bit),
            ValueType::Complex16 => Complex16ConverterFactory::create(dst, src_bit, dst_bit),
            ValueType::Complex => ComplexConverterFactory::create(dst, src_bit, dst_bit),
            ValueType::Fix32 => Fix32ConverterFactory::create(dst, src_bit, dst_bit),
            ValueType::Fix16 => Fix16ConverterFactory::create(dst, src_bit, dst_bit),
        }
    }

    /// The converter from `src` to `dst`, failing where the pair has no
    /// conversion instead of falling back to the identity converter. A
    /// same-kind pair needs none and gets the identity converter (or, for
    /// fixed point with two widths, the rescaling one).
    pub fn try_create(src: &ValueType, dst: &ValueType, src_bit: u32, dst_bit: u32) -> (r: Option<
        Converter,
    >)
        ensures
            r == (if *src == *dst || Self::spec_check(*src, *dst) {
                Some(Self::spec_create(*src, *dst, src_bit, dst_bit))
            } else {
                None
            }),
    {
        if *src == *dst || Self::check(src, dst) {
            Some(Self::create(src, dst, src_bit, dst_bit))
        } else {
            None
        }
    }

    /// Whether a conversion from `src` to `dst` is defined, as opposed to
    /// falling back to the identity converter.
    pub fn check(src: &ValueType, dst: &ValueType) -> (r: bool)
        ensures
            r == Self::spec_check(*src, *dst),
    {
        match src {
            ValueType::Float32 => Float32ConverterFactory::check(dst),
            ValueType::Float16 => Float16ConverterFactory::check(dst),
            ValueType::Float => FloatConverterFactory::check(dst),
            ValueType::Complex16 => Complex16ConverterFactory::check(dst),
            ValueType::Complex => ComplexConverterFactory::check(dst),
            ValueType::Fix32 => Fix32ConverterFactory::check(dst),
            ValueType::Fix16 => Fix16ConverterFactory::check(dst),
        }
    }
}

} // verus!
