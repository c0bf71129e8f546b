//! Renders the capability report of audio hosts, devices and drivers from
//! the plain results of probing them.

pub mod descriptor;
pub mod drivers;
pub mod hosts;
pub mod report;
pub mod text;

pub use descriptor::{ChannelCount, Format, SampleFormat, SampleRate};
