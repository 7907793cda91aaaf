use vstd::prelude::*;

verus! {

/// The sample format that an input device reports for its default configuration.
#[derive(Debug, Clone, Copy, PartialEq, Eq, Structural)]
pub enum SampleFormatKind {
    I8,
    I16,
    I24,
    I32,
    I64,
    U8,
    U16,
    U24,
    U32,
    U64,
    F32,
    F64,
    /// A format that the audio backend added and that this list does not name.
    Other,
}

/// The sample type that an input stream is built for.
#[derive(Debug, Clone, Copy, PartialEq, Eq, Structural)]
pub enum InputSampleType {
    F32,
    I16,
    U16,
}

/// The sample type for a device's format: `f32`, `i16` and `u16` streams are
/// supported, any other format is not.
pub open spec fn sample_type_for(format: SampleFormatKind) -> Option<InputSampleType> {
    match format {
        SampleFormatKind::F32 => Some(InputSampleType::F32),
        SampleFormatKind::I16 => Some(InputSampleType::I16),
        SampleFormatKind::U16 => Some(InputSampleType::U16),
        _ => None,
    }
}

/// Each supported format gets the stream type of its own sample, and exactly the
/// formats `f32`, `i16` and `u16` are supported.
pub proof fn lemma_supported_formats(format: SampleFormatKind)
    ensures
        (sample_type_for(format) == Some(InputSampleType::F32)) == (format == SampleFormatKind::F32),
        (sample_type_for(format) == Some(InputSampleType::I16)) == (format == SampleFormatKind::I16),
        (sample_type_for(format) == Some(InputSampleType::U16)) == (format == SampleFormatKind::U16),
        (sample_type_for(format) is None) == (format != SampleFormatKind::F32 && format
            != SampleFormatKind::I16 && format != SampleFormatKind::U16),
{
}

/// The sample type to build an input stream for, or `None` for a format that input
/// streams do not support.
pub fn input_sample_type(format: SampleFormatKind) -> (sample_type: Option<InputSampleType>)
    ensures
        sample_type == sample_type_for(format),
        (sample_type == Some(InputSampleType::F32)) == (format == SampleFormatKind::F32),
        (sample_type == Some(InputSampleType::I16)) == (format == SampleFormatKind::I16),
        (sample_type == Some(InputSampleType::U16)) == (format == SampleFormatKind::U16),
{
    proof {
        lemma_supported_formats(format);
    }
    match format {
        SampleFormatKind::F32 => Some(InputSampleType::F32),
        SampleFormatKind::I16 => Some(InputSampleType::I16),
        SampleFormatKind::U16 => Some(InputSampleType::U16),
        _ => None,
    }
}

} // verus!
