//! Sample representations: what a device may ask for, which of those the
//! engine can produce, and how one source sample becomes one output sample.
//!
//! Source samples are 16-bit signed integers. The conversions and the
//! silence values are those of the `dasp_sample` crate.

use vstd::prelude::*;

verus! {

/// A sample representation that an output device may require.
#[derive(Clone, Copy, Debug, PartialEq, Eq, Structural)]
pub enum SampleFormat {
    I8,
    I16,
    I32,
    I64,
    U8,
    U16,
    U32,
    U64,
    F32,
    F64,
}

/// A representation that the engine can produce.
#[derive(Clone, Copy, Debug, PartialEq, Eq, Structural)]
pub enum OutputFormat {
    /// 8-bit unsigned integers; silence is the middle of the scale.
    U8,
    /// 16-bit signed integers; silence is zero.
    I16,
}

impl SampleFormat {
    /// The output representation that serves a device asking for `self`, if
    /// there is one.
    pub open spec fn spec_output_format(self) -> Option<OutputFormat> {
        match self {
            SampleFormat::I16 => Some(OutputFormat::I16),
            SampleFormat::U8 => Some(OutputFormat::U8),
            _ => None,
        }
    }

    /// The output representation that serves a device asking for `self`, if
    /// there is one.
    pub fn output_format(self) -> (format: Option<OutputFormat>)
        ensures
            format == self.spec_output_format(),
    {
        match self {
            SampleFormat::I16 => Some(OutputFormat::I16),
            SampleFormat::U8 => Some(OutputFormat::U8),
            _ => None,
        }
    }
}

/// `dasp_sample::Sample::to_sample::<u8>` on an `i16`. The crate keeps the
/// sample's high byte (an arithmetic shift by eight bits, so rounding is
/// towards minus infinity) and moves it from the signed to the unsigned
/// scale by adding 128.
#[verifier::external_body]
fn source_to_u8(sample: i16) -> (value: u8)
    ensures
        value as int == sample as int / 256 + 128,
{
    dasp_sample::Sample::to_sample::<u8>(sample)
}

/// `dasp_sample::Sample::to_sample::<i16>` on an `i16`. Between equal types
/// the crate hands the sample back as it is.
#[verifier::external_body]
fn source_to_i16(sample: i16) -> (value: i16)
    ensures
        value == sample,
{
    dasp_sample::Sample::to_sample::<i16>(sample)
}

/// `dasp_sample::Sample::EQUILIBRIUM` of `u8`, which the crate sets to 128.
#[verifier::external_body]
fn equilibrium_u8() -> (value: u8)
    ensures
        value == 128,
{
    <u8 as dasp_sample::Sample>::EQUILIBRIUM
}

/// `dasp_sample::Sample::EQUILIBRIUM` of `i16`, which the crate sets to 0.
#[verifier::external_body]
fn equilibrium_i16() -> (value: i16)
    ensures
        value == 0,
{
    <i16 as dasp_sample::Sample>::EQUILIBRIUM
}

/// A type of output sample: it says how a source sample is converted to it
/// and which of its values is silence.
pub trait OutputSample: Copy {
    /// The output sample that stands for the source sample `sample`.
    spec fn spec_from_source(sample: i16) -> Self;

    /// The value that means silence.
    spec fn spec_equilibrium() -> Self;

    /// Converts one source sample.
    fn from_source(sample: i16) -> (value: Self)
        ensures
            value == Self::spec_from_source(sample),
    ;

    /// The value that means silence.
    fn equilibrium() -> (value: Self)
        ensures
            value == Self::spec_equilibrium(),
    ;
}

impl OutputSample for u8 {
    open spec fn spec_from_source(sample: i16) -> u8 {
        (sample as int / 256 + 128) as u8
    }

    open spec fn spec_equilibrium() -> u8 {
        128
    }

    fn from_source(sample: i16) -> (value: u8) {
        source_to_u8(sample)
    }

    fn equilibrium() -> (value: u8) {
        equilibrium_u8()
    }
}

impl OutputSample for i16 {
    open spec fn spec_from_source(sample: i16) -> i16 {
        sample
    }

    open spec fn spec_equilibrium() -> i16 {
        0
    }

    fn from_source(sample: i16) -> (value: i16) {
        source_to_i16(sample)
    }

    fn equilibrium() -> (value: i16) {
        equilibrium_i16()
    }
}

} // verus!
