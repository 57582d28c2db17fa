//! The conditions under which the player refuses to start a track.

use vstd::prelude::*;

verus! {

/// Why a track could not be loaded or its stream could not be set up.
#[derive(Clone, Copy, Debug, PartialEq, Eq, Structural)]
pub enum PlayerError {
    /// The file is not one this player decodes: its extension is missing or
    /// is not of the WAV family, or it is too short to hold the header.
    UnsupportedFormat,
    /// The output device reported no configuration to open a stream with.
    DeviceUnavailable,
    /// The device's configuration asks for a sample representation that the
    /// engine cannot produce.
    UnsupportedConfiguration,
}

} // verus!
