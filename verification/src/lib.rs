//! A player for a single decoded audio track: the decoder that turns file
//! bytes into samples, the stream engine that feeds those samples to an
//! output device on demand, and the state machine that a caller steers.

pub mod audio_player;
