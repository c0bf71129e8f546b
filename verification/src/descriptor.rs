//! The descriptors that the driver flow derives: a channel count, a sample
//! rate and a sample format.

use crate::text::{decimal, push_decimal};
use vstd::prelude::*;

verus! {

/// Number of channels.
pub type ChannelCount = u16;

/// Format that each sample has.
#[derive(Clone, Copy, Debug, PartialEq, Eq, Structural)]
pub enum SampleFormat {
    /// Signed 16-bit integers; silence is the value 0.
    I16,
    /// Unsigned 16-bit integers; silence is the midpoint, 32768.
    U16,
    /// 32-bit floating point; samples lie between minus one and one.
    F32,
}

/// The number of samples processed per second for a single channel of audio.
#[derive(Debug, Clone, Copy, PartialEq, Eq, PartialOrd, Ord, Structural)]
pub struct SampleRate(pub u32);

/// A channel count, a sample rate and a sample format together.
#[derive(Debug, Clone, PartialEq, Eq, Structural)]
pub struct Format {
    pub channels: ChannelCount,
    pub sample_rate: SampleRate,
    pub data_type: SampleFormat,
}

impl SampleFormat {
    /// The name of the variant.
    pub open spec fn text(self) -> Seq<char> {
        match self {
            SampleFormat::I16 => "I16"@,
            SampleFormat::U16 => "U16"@,
            SampleFormat::F32 => "F32"@,
        }
    }

    /// Writes the format as `{:?}` does: the name of the variant.
    pub fn to_text(&self) -> (text: String)
        ensures
            text@ == self.text(),
    {
        match self {
            SampleFormat::I16 => String::from_str("I16"),
            SampleFormat::U16 => String::from_str("U16"),
            SampleFormat::F32 => String::from_str("F32"),
        }
    }
}

impl SampleRate {
    /// The type's name with the rate in round brackets.
    pub open spec fn text(self) -> Seq<char> {
        "SampleRate("@ + decimal(self.0 as nat) + ")"@
    }

    /// Writes the rate as `{:?}` does.
    pub fn to_text(&self) -> (text: String)
        ensures
            text@ == self.text(),
    {
        let mut text = String::from_str("SampleRate(");
        push_decimal(&mut text, self.0 as u64);
        text.append(")");
        text
    }
}

impl Format {
    /// The type's name and, in braces, each field's name with its value.
    pub open spec fn text(self) -> Seq<char> {
        "Format { channels: "@ + decimal(self.channels as nat) + ", sample_rate: "@
            + self.sample_rate.text() + ", data_type: "@ + self.data_type.text() + " }"@
    }

    /// Writes the descriptor as `{:?}` does, on one line.
    pub fn to_text(&self) -> (text: String)
        ensures
            text@ == self.text(),
    {
        let mut text = String::from_str("Format { channels: ");
        push_decimal(&mut text, self.channels as u64);
        text.append(", sample_rate: ");
        text.append(self.sample_rate.to_text().as_str());
        text.append(", data_type: ");
        text.append(self.data_type.to_text().as_str());
        text.append(" }");
        text
    }
}

/// The channel count that a driver's raw count stands for: its low sixteen
/// bits.
pub open spec fn low_sixteen(raw: int) -> int {
    raw % 65536
}

/// Narrows a driver's raw channel count to a `ChannelCount`, keeping the low
/// sixteen bits.
pub fn channel_count(raw: i64) -> (count: ChannelCount)
    ensures
        count as int == low_sixteen(raw as int),
{
    let low: i64 = raw & 0xffff;
    assert(0 <= low < 65536 && (raw - low) % 65536 == 0) by (bit_vector)
        requires
            low == raw & 0xffff,
    ;
    low as u16
}

} // verus!
