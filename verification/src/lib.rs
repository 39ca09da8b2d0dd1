//! Decision and formatting logic of a PulseAudio command line mixer with
//! stream routing and output mirroring.

pub mod cli;
pub mod device;
pub mod pulse;
pub mod text;
pub mod volume;
