//! The stream engine: a fixed sample buffer, a playback cursor, and the
//! callback that fills the blocks an output device asks for.
//!
//! The engine owns no device. Its caller opens the hardware stream with the
//! configuration that `from_samples` chose, hands every block that the
//! device requests to `write_output`, and starts or stops the hardware
//! stream after `play` and `pause`. Each operation is one indivisible step
//! on the cursor: `write_output` reads and advances it once per slot, `progress`
//! reads it, `restart` sets it back to zero.

use super::error::PlayerError;
use super::sample::{OutputFormat, OutputSample, SampleFormat};
use vstd::prelude::*;

verus! {

/// A range of configurations that an output device supports, as the device
/// reports it.
#[derive(Clone, Copy, Debug, PartialEq, Eq)]
pub struct SupportedConfigRange {
    pub channels: u16,
    pub min_sample_rate: u32,
    pub max_sample_rate: u32,
    pub sample_format: SampleFormat,
}

/// The configuration that a stream is opened with.
#[derive(Clone, Copy, Debug, PartialEq, Eq)]
pub struct OutputConfig {
    pub channels: u16,
    pub sample_rate: u32,
    pub sample_format: OutputFormat,
}

/// How far playback has come: the cursor against the number of samples.
/// The cursor goes on counting after the track has ended, so `position` may
/// exceed `total`.
#[derive(Clone, Copy, Debug, PartialEq, Eq)]
pub struct Progress {
    pub position: usize,
    pub total: usize,
}

/// The configuration that the engine opens its stream with: the first range
/// that the device reports, at that range's highest sample rate. It is an
/// error for the device to report no range, or to ask in the first range for
/// a representation that the engine cannot produce.
pub open spec fn select_config(supported: Seq<SupportedConfigRange>) -> Result<
    OutputConfig,
    PlayerError,
> {
    if supported.len() == 0 {
        Err(PlayerError::DeviceUnavailable)
    } else {
        match supported[0].sample_format.spec_output_format() {
            Some(format) => Ok(
                OutputConfig {
                    channels: supported[0].channels,
                    sample_rate: supported[0].max_sample_rate,
                    sample_format: format,
                },
            ),
            None => Err(PlayerError::UnsupportedConfiguration),
        }
    }
}

/// The output sample for buffer position `index`: the converted source
/// sample where the buffer has one, silence beyond its end.
pub open spec fn sample_at<O: OutputSample>(samples: Seq<i16>, index: int) -> O {
    if 0 <= index < samples.len() {
        O::spec_from_source(samples[index])
    } else {
        O::spec_equilibrium()
    }
}

/// A block of `count` slots of silence.
pub open spec fn silence<O: OutputSample>(count: nat) -> Seq<O> {
    Seq::new(count, |slot: int| O::spec_equilibrium())
}

/// What an engine is, for the purpose of its contracts.
pub struct StreamView {
    /// The sample buffer.
    pub samples: Seq<i16>,
    /// The playback cursor: how many samples the callback has been asked for
    /// since the track was loaded or restarted, up to `usize::MAX`.
    pub cursor: usize,
    /// The configuration the stream was opened with.
    pub config: OutputConfig,
    /// Whether the hardware stream has been told to run.
    pub active: bool,
}

impl StreamView {
    /// An engine right after construction from `samples`.
    pub open spec fn fresh(samples: Seq<i16>, config: OutputConfig) -> StreamView {
        StreamView { samples, cursor: 0, config, active: true }
    }

    /// The cursor after `count` more slots have been filled. The cursor stops
    /// at `usize::MAX` instead of wrapping around.
    pub open spec fn cursor_after(self, count: nat) -> usize {
        if self.cursor + count <= usize::MAX {
            (self.cursor + count) as usize
        } else {
            usize::MAX
        }
    }

    /// The engine after the callback has filled `count` slots.
    pub open spec fn advanced(self, count: nat) -> StreamView {
        StreamView { cursor: self.cursor_after(count), ..self }
    }

    /// The block of `count` slots that the callback writes from this state.
    pub open spec fn output<O: OutputSample>(self, count: nat) -> Seq<O> {
        Seq::new(count, |slot: int| sample_at::<O>(self.samples, self.cursor_after(slot as nat) as int))
    }

    /// The engine with its hardware stream told to run, or to stop.
    pub open spec fn with_active(self, active: bool) -> StreamView {
        StreamView { active, ..self }
    }

    /// The engine with its cursor back at the start.
    pub open spec fn restarted(self) -> StreamView {
        StreamView { cursor: 0, ..self }
    }

    /// Cursor and sample count, as `progress` reports them.
    pub open spec fn progress(self) -> (nat, nat) {
        (self.cursor as nat, self.samples.len())
    }
}

impl View for Progress {
    type V = (nat, nat);

    open spec fn view(&self) -> (nat, nat) {
        (self.position as nat, self.total as nat)
    }
}

/// One loaded track on its way to an output device.
pub struct StreamHandler {
    samples: Vec<i16>,
    cursor: usize,
    config: OutputConfig,
    active: bool,
}

impl View for StreamHandler {
    type V = StreamView;

    closed spec fn view(&self) -> StreamView {
        StreamView {
            samples: self.samples@,
            cursor: self.cursor,
            config: self.config,
            active: self.active,
        }
    }
}

/// Chooses the configuration to open the stream with.
pub fn choose_config(supported_configs: &[SupportedConfigRange]) -> (result: Result<
    OutputConfig,
    PlayerError,
>)
    ensures
        result == select_config(supported_configs@),
{
    if supported_configs.len() == 0 {
        return Err(PlayerError::DeviceUnavailable);
    }
    let first: SupportedConfigRange = supported_configs[0];
    match first.sample_format.output_format() {
        Some(format) => Ok(
            OutputConfig {
                channels: first.channels,
                sample_rate: first.max_sample_rate,
                sample_format: format,
            },
        ),
        None => Err(PlayerError::UnsupportedConfiguration),
    }
}

/// Fills every slot of `data` with silence: what a device is given while
/// there is no engine to ask.
pub fn write_silence<O: OutputSample>(data: &mut [O])
    ensures
        final(data)@ == silence::<O>(old(data)@.len()),
{
    let count: usize = data.len();
    let mut slot: usize = 0;
    while slot < count
        invariant
            slot <= count,
            data@.len() == count,
            forall|i: int| 0 <= i < slot ==> data@[i] == O::spec_equilibrium(),
        decreases count - slot,
    {
        data[slot] = O::equilibrium();
        slot = slot + 1;
    }
    assert(data@ =~= silence::<O>(count as nat));
}

impl StreamHandler {
    /// Builds the engine for `samples` on a device that supports
    /// `supported_configs`. The engine starts at the first sample and is
    /// active at once.
    pub fn from_samples(samples: Vec<i16>, supported_configs: &[SupportedConfigRange]) -> (result:
        Result<StreamHandler, PlayerError>)
        ensures
            match select_config(supported_configs@) {
                Ok(config) => result matches Ok(handler) && handler@ == StreamView::fresh(
                    samples@,
                    config,
                ),
                Err(error) => result matches Err(e) && e == error,
            },
    {
        match choose_config(supported_configs) {
            Ok(config) => Ok(StreamHandler { samples, cursor: 0, config, active: true }),
            Err(error) => Err(error),
        }
    }

    /// Tells the hardware stream to run.
    pub fn play(&mut self)
        ensures
            final(self)@ == old(self)@.with_active(true),
    {
        self.active = true;
    }

    /// Tells the hardware stream to stop.
    pub fn pause(&mut self)
        ensures
            final(self)@ == old(self)@.with_active(false),
    {
        self.active = false;
    }

    /// Cursor and sample count.
    pub fn progress(&self) -> (progress: Progress)
        ensures
            progress@ == self@.progress(),
    {
        Progress { position: self.cursor, total: self.samples.len() }
    }

    /// Sets the cursor back to the first sample. The hardware stream goes on
    /// as it was.
    pub fn restart(&mut self)
        ensures
            final(self)@ == old(self)@.restarted(),
    {
        self.cursor = 0;
    }

    /// Reads the cursor and moves it on by one.
    fn read_and_advance(&mut self) -> (index: usize)
        ensures
            index == old(self)@.cursor,
            final(self)@ == old(self)@.advanced(1),
    {
        let index: usize = self.cursor;
        if index < usize::MAX {
            self.cursor = index + 1;
        }
        index
    }

    /// The output sample for buffer position `index`.
    fn sample_for<O: OutputSample>(&self, index: usize) -> (value: O)
        ensures
            value == sample_at::<O>(self@.samples, index as int),
    {
        if index < self.samples.len() {
            O::from_source(self.samples[index])
        } else {
            O::equilibrium()
        }
    }

    /// The device's callback: fills every slot of `data`, reading and
    /// advancing the cursor once per slot.
    pub fn write_output<O: OutputSample>(&mut self, data: &mut [O])
        ensures
            final(self)@ == old(self)@.advanced(old(data)@.len()),
            final(data)@ == old(self)@.output::<O>(old(data)@.len()),
    {
        let count: usize = data.len();
        let ghost before: StreamView = self@;
        let mut slot: usize = 0;
        while slot < count
            invariant
                slot <= count,
                data@.len() == count,
                self@ == before.advanced(slot as nat),
                forall|i: int|
                    0 <= i < slot ==> data@[i] == sample_at::<O>(
                        before.samples,
                        before.cursor_after(i as nat) as int,
                    ),
            decreases count - slot,
        {
            let index: usize = self.read_and_advance();
            let value: O = self.sample_for::<O>(index);
            data[slot] = value;
            slot = slot + 1;
        }
        assert(data@ =~= before.output::<O>(count as nat));
    }

    /// The configuration the stream is opened with.
    pub fn config(&self) -> (config: OutputConfig)
        ensures
            config == self@.config,
    {
        self.config
    }

    /// Whether the hardware stream has been told to run.
    pub fn is_active(&self) -> (active: bool)
        ensures
            active == self@.active,
    {
        self.active
    }
}

/// Filling a block in two parts is filling it at once: the cursor ends in
/// the same place and the slots hold the same samples.
pub proof fn lemma_output_in_parts<O: OutputSample>(stream: StreamView, first: nat, second: nat)
    ensures
        stream.advanced(first).advanced(second) == stream.advanced(first + second),
        stream.output::<O>(first) + stream.advanced(first).output::<O>(second)
            == stream.output::<O>(first + second),
{
    let whole = stream.output::<O>(first + second);
    let parts = stream.output::<O>(first) + stream.advanced(first).output::<O>(second);
    assert forall|slot: int| 0 <= slot < first + second implies parts[slot] == whole[slot] by {
        if slot >= first {
            assert(stream.advanced(first).cursor_after((slot - first) as nat)
                == stream.cursor_after(slot as nat));
        }
    }
    assert(parts =~= whole);
}

/// After the callback has consumed `count` samples of a track that stood at
/// its start, progress is `count` against the number of samples, for every
/// `count` that a cursor can hold.
pub proof fn lemma_progress_counts_consumed(stream: StreamView, count: nat)
    requires
        stream.cursor == 0,
        count <= usize::MAX,
    ensures
        stream.advanced(count).progress() == (count, stream.samples.len()),
{
}

/// Consuming samples never moves progress backwards and never changes the
/// number of samples.
pub proof fn lemma_progress_non_decreasing(stream: StreamView, count: nat)
    ensures
        stream.advanced(count).progress().0 >= stream.progress().0,
        stream.advanced(count).progress().1 == stream.progress().1,
        stream.advanced(count).active == stream.active,
{
}

/// Starting and stopping the hardware stream leaves progress where it was.
pub proof fn lemma_activity_keeps_progress(stream: StreamView, active: bool)
    ensures
        stream.with_active(active).progress() == stream.progress(),
        stream.with_active(active).samples == stream.samples,
{
}

/// A restart brings progress to zero from any position and touches nothing
/// else.
pub proof fn lemma_restart_resets_progress(stream: StreamView)
    ensures
        stream.restarted().progress() == (0nat, stream.samples.len()),
        stream.restarted().active == stream.active,
        stream.restarted().samples == stream.samples,
        stream.restarted().config == stream.config,
{
}

/// A slot whose cursor position lies at or beyond the end of the buffer is
/// filled with silence; every other slot holds the converted sample at its
/// position.
pub proof fn lemma_silence_beyond_end<O: OutputSample>(stream: StreamView, count: nat, slot: int)
    requires
        0 <= slot < count,
    ensures
        stream.cursor_after(slot as nat) >= stream.samples.len() ==> stream.output::<O>(count)[slot]
            == O::spec_equilibrium(),
        stream.cursor_after(slot as nat) < stream.samples.len() ==> stream.output::<O>(count)[slot]
            == O::spec_from_source(stream.samples[stream.cursor_after(slot as nat) as int]),
{
}

/// Once the cursor has reached the end of the buffer, every block is
/// silence throughout.
pub proof fn lemma_silence_after_track<O: OutputSample>(stream: StreamView, count: nat)
    requires
        stream.cursor >= stream.samples.len(),
    ensures
        stream.output::<O>(count) == silence::<O>(count),
{
    assert(stream.output::<O>(count) =~= silence::<O>(count));
}

} // verus!
