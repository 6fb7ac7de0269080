//! Core of a composable audio effect chain: stages that produce interleaved
//! PCM samples one unit at a time, and a channel-aware pan stage that
//! attenuates each sample according to the channel position it belongs to.

pub mod pan;
pub mod sound;
