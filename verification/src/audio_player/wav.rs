//! The track decoder for WAV files.
//!
//! A file is taken to be a header of 44 bytes followed by 16-bit
//! little-endian samples. The header is skipped, not read: a file laid out
//! otherwise decodes to the wrong samples without an error.

use super::byte_parser::{decoded, to_type_little_endian};
use super::error::PlayerError;
use super::stream_handler::{select_config, StreamHandler, StreamView, SupportedConfigRange};
use vstd::prelude::*;
use vstd::slice::slice_subrange;

verus! {

/// The length of the header that precedes the samples.
pub const HEADER_LEN: usize = 44;

/// The samples of a file of at least `HEADER_LEN` bytes.
pub open spec fn wav_samples(file_bytes: Seq<u8>) -> Seq<i16> {
    decoded::<i16>(file_bytes.subrange(HEADER_LEN as int, file_bytes.len() as int))
}

/// The engine that a file and a device's configurations give, or the reason
/// why they give none. A file too short for its header is refused before
/// the device is looked at.
pub open spec fn wav_stream(file_bytes: Seq<u8>, supported: Seq<SupportedConfigRange>) -> Result<
    StreamView,
    PlayerError,
> {
    if file_bytes.len() < HEADER_LEN {
        Err(PlayerError::UnsupportedFormat)
    } else {
        match select_config(supported) {
            Ok(config) => Ok(StreamView::fresh(wav_samples(file_bytes), config)),
            Err(error) => Err(error),
        }
    }
}

/// Decodes the samples of a WAV file.
pub fn samples_from_wav_file(file_bytes: &[u8]) -> (result: Result<Vec<i16>, PlayerError>)
    ensures
        match result {
            Ok(samples) => file_bytes@.len() >= HEADER_LEN && samples@ == wav_samples(file_bytes@),
            Err(error) => file_bytes@.len() < HEADER_LEN && error == PlayerError::UnsupportedFormat,
        },
{
    if file_bytes.len() < HEADER_LEN {
        return Err(PlayerError::UnsupportedFormat);
    }
    let body: &[u8] = slice_subrange(file_bytes, HEADER_LEN, file_bytes.len());
    Ok(to_type_little_endian::<i16>(body))
}

/// Decodes a WAV file and builds the engine that plays it on a device that
/// supports `supported_configs`.
pub fn stream_from_wav_file(file_bytes: &[u8], supported_configs: &[SupportedConfigRange]) -> (result:
    Result<StreamHandler, PlayerError>)
    ensures
        match wav_stream(file_bytes@, supported_configs@) {
            Ok(stream) => result matches Ok(handler) && handler@ == stream,
            Err(error) => result matches Err(e) && e == error,
        },
{
    match samples_from_wav_file(file_bytes) {
        Ok(samples) => StreamHandler::from_samples(samples, supported_configs),
        Err(error) => Err(error),
    }
}

/// What stands in the header has no part in the result: two files of the
/// same length that agree after their headers decode to the same samples.
pub proof fn lemma_header_is_skipped(first: Seq<u8>, second: Seq<u8>)
    requires
        first.len() == second.len(),
        first.len() >= HEADER_LEN,
        forall|at: int| HEADER_LEN <= at < first.len() ==> first[at] == second[at],
    ensures
        wav_samples(first) == wav_samples(second),
{
    assert(first.subrange(HEADER_LEN as int, first.len() as int) =~= second.subrange(
        HEADER_LEN as int,
        second.len() as int,
    ));
}

} // verus!
