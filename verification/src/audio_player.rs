//! The player's state machine and the components under it.
//!
//! A player has no track until the first successful `play_file`. From then
//! on it is playing or paused, and it never goes back to waiting. The state
//! is read off the engine: no engine means waiting, an active engine means
//! playing, an inactive one means paused.

use self::error::PlayerError;
use self::extension::{has_wav_extension, is_wav_extension, str_view};
use self::sample::OutputSample;
use self::stream_handler::{
    silence, write_silence, OutputConfig, Progress, StreamHandler, StreamView,
    SupportedConfigRange,
};
use self::wav::{stream_from_wav_file, wav_stream};
use vstd::prelude::*;

pub mod byte_parser;
pub mod error;
pub mod extension;
pub mod sample;
pub mod stream_handler;
pub mod wav;

verus! {

/// Where the player stands.
#[derive(Clone, Copy, Debug, PartialEq, Eq, Structural)]
pub enum State {
    WaitingForFile,
    Paused,
    Playing,
}

/// What the caller has to do to the hardware stream after a `toggle_playing`.
#[derive(Clone, Copy, Debug, PartialEq, Eq, Structural)]
pub enum StreamCommand {
    /// Start the hardware stream again.
    Play,
    /// Suspend the hardware stream.
    Pause,
}

/// A text or none, by its characters.
pub open spec fn text_view(text: Option<String>) -> Option<Seq<char>> {
    match text {
        Some(text) => Some(text@),
        None => None,
    }
}

/// What a player is, for the purpose of its contracts.
pub struct PlayerView {
    /// The display name of the current track.
    pub track_name: Option<Seq<char>>,
    /// The engine of the current track.
    pub stream: Option<StreamView>,
}

impl PlayerView {
    /// The player's state.
    pub open spec fn state(self) -> State {
        match self.stream {
            None => State::WaitingForFile,
            Some(stream) => if stream.active {
                State::Playing
            } else {
                State::Paused
            },
        }
    }

    /// The player after `toggle_playing`.
    pub open spec fn toggled(self) -> PlayerView {
        match self.stream {
            None => self,
            Some(stream) => PlayerView { stream: Some(stream.with_active(!stream.active)), ..self },
        }
    }

    /// The player after `restart`.
    pub open spec fn restarted(self) -> PlayerView {
        match self.stream {
            None => self,
            Some(stream) => PlayerView { stream: Some(stream.restarted()), ..self },
        }
    }

    /// The player after the device has been given `count` slots.
    pub open spec fn advanced(self, count: nat) -> PlayerView {
        match self.stream {
            None => self,
            Some(stream) => PlayerView { stream: Some(stream.advanced(count)), ..self },
        }
    }

    /// The block of `count` slots that the device is given: the engine's
    /// output, or silence where no track is loaded.
    pub open spec fn output<O: OutputSample>(self, count: nat) -> Seq<O> {
        match self.stream {
            None => silence::<O>(count),
            Some(stream) => stream.output::<O>(count),
        }
    }

    /// Cursor and sample count; both are zero where no track is loaded.
    pub open spec fn progress(self) -> (nat, nat) {
        match self.stream {
            None => (0, 0),
            Some(stream) => stream.progress(),
        }
    }

    /// The player after a load with this outcome: a failed load changes
    /// nothing, a successful one brings the new name and the new engine.
    pub open spec fn loaded(
        self,
        track_name: Option<Seq<char>>,
        outcome: Result<StreamView, PlayerError>,
    ) -> PlayerView {
        match outcome {
            Ok(stream) => PlayerView { track_name, stream: Some(stream) },
            Err(_) => self,
        }
    }
}

/// What loading a file gives: the engine for its samples, or the reason
/// for refusing it. The extension is judged first, then the file's length,
/// then the device.
pub open spec fn load_outcome(
    extension: Option<Seq<char>>,
    file_bytes: Seq<u8>,
    supported: Seq<SupportedConfigRange>,
) -> Result<StreamView, PlayerError> {
    if is_wav_extension(extension) {
        wav_stream(file_bytes, supported)
    } else {
        Err(PlayerError::UnsupportedFormat)
    }
}

/// A player for one track at a time.
pub struct AudioPlayer {
    stream_handler: Option<StreamHandler>,
    current_file_name: Option<String>,
}

impl View for AudioPlayer {
    type V = PlayerView;

    closed spec fn view(&self) -> PlayerView {
        PlayerView {
            track_name: text_view(self.current_file_name),
            stream: match self.stream_handler {
                Some(handler) => Some(handler@),
                None => None,
            },
        }
    }
}

impl AudioPlayer {
    /// A player that waits for its first track.
    pub fn new() -> (player: AudioPlayer)
        ensures
            player@ == (PlayerView { track_name: None, stream: None }),
    {
        AudioPlayer { stream_handler: None, current_file_name: None }
    }

    /// Loads a track and starts playing it. `track_name` is its display
    /// name, `extension` the extension of its file, `file_bytes` the file's
    /// contents, `supported_configs` what the output device reports. On
    /// success the previous engine is replaced and the caller opens a
    /// stream with the configuration returned; on failure the player stays
    /// as it was.
    pub fn play_file(
        &mut self,
        track_name: Option<String>,
        extension: Option<&str>,
        file_bytes: &[u8],
        supported_configs: &[SupportedConfigRange],
    ) -> (result: Result<OutputConfig, PlayerError>)
        ensures
            final(self)@ == old(self)@.loaded(
                text_view(track_name),
                load_outcome(str_view(extension), file_bytes@, supported_configs@),
            ),
            match load_outcome(str_view(extension), file_bytes@, supported_configs@) {
                Ok(stream) => result == Ok::<OutputConfig, PlayerError>(stream.config),
                Err(error) => result == Err::<OutputConfig, PlayerError>(error),
            },
    {
        if !has_wav_extension(extension) {
            return Err(PlayerError::UnsupportedFormat);
        }
        match stream_from_wav_file(file_bytes, supported_configs) {
            Ok(mut handler) => {
                handler.play();
                let config: OutputConfig = handler.config();
                self.current_file_name = track_name;
                self.stream_handler = Some(handler);
                Ok(config)
            },
            Err(error) => Err(error),
        }
    }

    /// The display name of the current track.
    pub fn track_name(&self) -> (name: &Option<String>)
        ensures
            text_view(*name) == self@.track_name,
    {
        &self.current_file_name
    }

    /// Pauses a playing track and resumes a paused one. Without a track
    /// nothing happens. The result says what the hardware stream is to do.
    pub fn toggle_playing(&mut self) -> (command: Option<StreamCommand>)
        ensures
            final(self)@ == old(self)@.toggled(),
            command == match old(self)@.state() {
                State::WaitingForFile => None,
                State::Playing => Some(StreamCommand::Pause),
                State::Paused => Some(StreamCommand::Play),
            },
    {
        match &mut self.stream_handler {
            Some(handler) => {
                if handler.is_active() {
                    handler.pause();
                    Some(StreamCommand::Pause)
                } else {
                    handler.play();
                    Some(StreamCommand::Play)
                }
            },
            None => None,
        }
    }

    /// The label for the play/pause control.
    pub fn pause_or_play_button_text(&self) -> (text: &'static str)
        ensures
            text@ == (if self@.state() == State::Playing {
                "Pause"@
            } else {
                "Play"@
            }),
    {
        if self.is_playing() {
            "Pause"
        } else {
            "Play"
        }
    }

    /// Whether a track is playing.
    pub fn is_playing(&self) -> (playing: bool)
        ensures
            playing == (self@.state() == State::Playing),
    {
        match &self.stream_handler {
            Some(handler) => handler.is_active(),
            None => false,
        }
    }

    /// Sets the current track back to its start. Without a track nothing
    /// happens.
    pub fn restart(&mut self)
        ensures
            final(self)@ == old(self)@.restarted(),
    {
        match &mut self.stream_handler {
            Some(handler) => {
                handler.restart();
            },
            None => {},
        }
    }

    /// Cursor and sample count of the current track; both zero without one.
    pub fn progress(&self) -> (progress: Progress)
        ensures
            progress@ == self@.progress(),
    {
        match &self.stream_handler {
            Some(handler) => handler.progress(),
            None => Progress { position: 0, total: 0 },
        }
    }

    /// The device's callback: fills every slot of `data` from the current
    /// track, or with silence where there is none.
    pub fn write_output<O: OutputSample>(&mut self, data: &mut [O])
        ensures
            final(self)@ == old(self)@.advanced(old(data)@.len()),
            final(data)@ == old(self)@.output::<O>(old(data)@.len()),
    {
        match &mut self.stream_handler {
            Some(handler) => {
                handler.write_output::<O>(data);
            },
            None => {
                write_silence::<O>(data);
            },
        }
    }
}

/// A player that waits for its first track reports zero progress.
pub proof fn lemma_waiting_progress_is_zero(player: PlayerView)
    requires
        player.state() == State::WaitingForFile,
    ensures
        player.progress() == (0nat, 0nat),
{
}

/// A restart brings progress to zero from any position and leaves the
/// state, the track and its name as they were.
pub proof fn lemma_restart_keeps_state(player: PlayerView)
    ensures
        player.restarted().progress().0 == 0,
        player.restarted().progress().1 == player.progress().1,
        player.restarted().state() == player.state(),
        player.restarted().track_name == player.track_name,
{
}

/// Toggling a playing track pauses it, toggling a paused one resumes it,
/// and neither moves the cursor: consumption is the device's business, and
/// the device is told to stop.
pub proof fn lemma_toggle_flips_state(player: PlayerView)
    requires
        player.state() != State::WaitingForFile,
    ensures
        player.state() == State::Playing ==> player.toggled().state() == State::Paused,
        player.state() == State::Paused ==> player.toggled().state() == State::Playing,
        player.toggled().progress() == player.progress(),
        player.toggled().track_name == player.track_name,
{
}

/// Toggling twice brings the player back to where it was.
pub proof fn lemma_toggle_twice(player: PlayerView)
    ensures
        player.toggled().toggled() == player,
{
    match player.stream {
        Some(stream) => {
            assert(stream.with_active(!stream.active).with_active(stream.active) == stream);
        },
        None => {},
    }
}

/// Toggling a player that waits for its first track changes nothing.
pub proof fn lemma_toggle_while_waiting(player: PlayerView)
    requires
        player.state() == State::WaitingForFile,
    ensures
        player.toggled() == player,
{
}

/// While a track is paused or playing, what the device consumes counts
/// into progress and changes neither the state nor the track's length.
pub proof fn lemma_output_keeps_state(player: PlayerView, count: nat)
    ensures
        player.advanced(count).state() == player.state(),
        player.advanced(count).progress().0 >= player.progress().0,
        player.advanced(count).progress().1 == player.progress().1,
        player.advanced(count).track_name == player.track_name,
{
}

/// A player that has a track never waits for a file again, whatever is
/// done to it: toggling, restarting, output, or a load that succeeds or
/// fails.
pub proof fn lemma_never_waiting_again(
    player: PlayerView,
    count: nat,
    track_name: Option<Seq<char>>,
    outcome: Result<StreamView, PlayerError>,
)
    requires
        player.state() != State::WaitingForFile,
    ensures
        player.toggled().state() != State::WaitingForFile,
        player.restarted().state() != State::WaitingForFile,
        player.advanced(count).state() != State::WaitingForFile,
        player.loaded(track_name, outcome).state() != State::WaitingForFile,
{
}

/// A load that succeeds leaves the player playing the new track from its
/// start; a load that fails leaves the player as it was. A file whose
/// extension is not of the WAV family always fails as an unsupported format.
pub proof fn lemma_load_replaces_or_keeps(
    player: PlayerView,
    track_name: Option<Seq<char>>,
    extension: Option<Seq<char>>,
    file_bytes: Seq<u8>,
    supported: Seq<SupportedConfigRange>,
)
    ensures
        !is_wav_extension(extension) ==> load_outcome(extension, file_bytes, supported) == Err::<
            StreamView,
            PlayerError,
        >(PlayerError::UnsupportedFormat),
        load_outcome(extension, file_bytes, supported) is Err ==> player.loaded(
            track_name,
            load_outcome(extension, file_bytes, supported),
        ) == player,
        load_outcome(extension, file_bytes, supported) is Ok ==> {
            let after = player.loaded(track_name, load_outcome(extension, file_bytes, supported));
            &&& after.state() == State::Playing
            &&& after.progress().0 == 0
            &&& after.track_name == track_name
        },
{
}

} // verus!
