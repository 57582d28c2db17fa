use audio_player::audio_player::error::PlayerError;
use audio_player::audio_player::sample::{OutputFormat, SampleFormat};
use audio_player::audio_player::stream_handler::{
    choose_config, write_silence, OutputConfig, Progress, StreamHandler, SupportedConfigRange,
};
use audio_player::audio_player::wav::stream_from_wav_file;

fn device_range(sample_format: SampleFormat) -> SupportedConfigRange {
    SupportedConfigRange { channels: 2, min_sample_rate: 8000, max_sample_rate: 48000, sample_format }
}

fn engine_for(samples: Vec<i16>, sample_format: SampleFormat) -> StreamHandler {
    StreamHandler::from_samples(samples, &[device_range(sample_format)]).unwrap()
}

fn ratio_of(progress: Progress) -> f32 {
    if progress.total == 0 {
        0.0
    } else {
        progress.position as f32 / progress.total as f32
    }
}

#[test]
fn config_is_first_range_at_its_highest_rate() {
    let ranges = [
        SupportedConfigRange {
            channels: 1,
            min_sample_rate: 11025,
            max_sample_rate: 44100,
            sample_format: SampleFormat::U8,
        },
        SupportedConfigRange {
            channels: 2,
            min_sample_rate: 8000,
            max_sample_rate: 96000,
            sample_format: SampleFormat::I16,
        },
    ];
    assert_eq!(
        choose_config(&ranges),
        Ok(OutputConfig { channels: 1, sample_rate: 44100, sample_format: OutputFormat::U8 })
    );
}

#[test]
fn config_takes_16_bit_signed_output() {
    assert_eq!(
        choose_config(&[device_range(SampleFormat::I16)]),
        Ok(OutputConfig { channels: 2, sample_rate: 48000, sample_format: OutputFormat::I16 })
    );
}

#[test]
fn device_without_configurations_is_unavailable() {
    assert_eq!(choose_config(&[]), Err(PlayerError::DeviceUnavailable));
    assert!(matches!(
        StreamHandler::from_samples(vec![1, 2, 3], &[]),
        Err(PlayerError::DeviceUnavailable)
    ));
}

#[test]
fn other_representations_are_unsupported() {
    let unsupported = [
        SampleFormat::I8,
        SampleFormat::I32,
        SampleFormat::I64,
        SampleFormat::U16,
        SampleFormat::U32,
        SampleFormat::U64,
        SampleFormat::F32,
        SampleFormat::F64,
    ];
    for format in unsupported {
        assert_eq!(format.output_format(), None);
        assert_eq!(
            choose_config(&[device_range(format)]),
            Err(PlayerError::UnsupportedConfiguration)
        );
    }
    assert_eq!(SampleFormat::I16.output_format(), Some(OutputFormat::I16));
    assert_eq!(SampleFormat::U8.output_format(), Some(OutputFormat::U8));
}

#[test]
fn only_the_first_range_is_looked_at() {
    let ranges = [device_range(SampleFormat::F32), device_range(SampleFormat::I16)];
    assert!(matches!(
        StreamHandler::from_samples(vec![1], &ranges),
        Err(PlayerError::UnsupportedConfiguration)
    ));
}

#[test]
fn new_engine_is_active_at_the_start() {
    let engine = engine_for(vec![5, 6, 7], SampleFormat::I16);
    assert!(engine.is_active());
    assert_eq!(engine.progress(), Progress { position: 0, total: 3 });
    assert_eq!(
        engine.config(),
        OutputConfig { channels: 2, sample_rate: 48000, sample_format: OutputFormat::I16 }
    );
}

#[test]
fn output_hands_samples_over_in_order() {
    let mut engine = engine_for(vec![10, -20, 30, -40], SampleFormat::I16);
    let mut first = [99i16; 3];
    engine.write_output(&mut first);
    assert_eq!(first, [10, -20, 30]);
    let mut second = [99i16; 1];
    engine.write_output(&mut second);
    assert_eq!(second, [-40]);
}

#[test]
fn output_beyond_the_end_is_silence() {
    let mut engine = engine_for(vec![10, -20], SampleFormat::I16);
    let mut block = [99i16; 5];
    engine.write_output(&mut block);
    assert_eq!(block, [10, -20, 0, 0, 0]);
    let mut later = [99i16; 4];
    engine.write_output(&mut later);
    assert_eq!(later, [0, 0, 0, 0]);
    assert_eq!(engine.progress(), Progress { position: 9, total: 2 });
}

#[test]
fn unsigned_output_converts_each_sample() {
    let samples = vec![0, 255, 256, -1, -256, -257, 32767, -32768, 12800];
    let mut engine = engine_for(samples, SampleFormat::U8);
    let mut block = [7u8; 9];
    engine.write_output(&mut block);
    assert_eq!(block, [128, 128, 129, 127, 127, 126, 255, 0, 178]);
}

#[test]
fn unsigned_silence_is_mid_scale() {
    let mut engine = engine_for(vec![-32768], SampleFormat::U8);
    let mut block = [7u8; 3];
    engine.write_output(&mut block);
    assert_eq!(block, [0, 128, 128]);
}

#[test]
fn empty_block_changes_nothing() {
    let mut engine = engine_for(vec![1, 2, 3], SampleFormat::I16);
    let mut nothing: [i16; 0] = [];
    engine.write_output(&mut nothing);
    assert_eq!(engine.progress(), Progress { position: 0, total: 3 });
}

#[test]
fn empty_track_plays_silence() {
    let mut engine = engine_for(Vec::new(), SampleFormat::I16);
    let mut block = [99i16; 2];
    engine.write_output(&mut block);
    assert_eq!(block, [0, 0]);
    assert_eq!(engine.progress(), Progress { position: 2, total: 0 });
    assert_eq!(ratio_of(engine.progress()), 0.0);
}

#[test]
fn progress_is_consumed_over_total() {
    let samples: Vec<i16> = (0..200).collect();
    let mut engine = engine_for(samples, SampleFormat::I16);
    let mut consumed = 0;
    for size in [1usize, 7, 42, 0, 50] {
        let mut block = vec![0i16; size];
        engine.write_output(&mut block);
        consumed += size;
        assert_eq!(engine.progress(), Progress { position: consumed, total: 200 });
        assert!((ratio_of(engine.progress()) - consumed as f32 / 200.0).abs() < 1e-6);
    }
    assert_eq!(ratio_of(engine.progress()), 0.5);
}

#[test]
fn progress_never_goes_back_while_playing() {
    let mut engine = engine_for(vec![1, 2, 3, 4], SampleFormat::U8);
    let mut last = engine.progress().position;
    for size in [0usize, 1, 2, 3, 4, 5] {
        let mut block = vec![0u8; size];
        engine.write_output(&mut block);
        assert!(engine.progress().position >= last);
        last = engine.progress().position;
    }
    assert_eq!(last, 15);
    assert_eq!(ratio_of(engine.progress()), 3.75);
}

#[test]
fn pause_and_play_keep_progress() {
    let mut engine = engine_for(vec![1, 2, 3, 4], SampleFormat::I16);
    let mut block = [0i16; 3];
    engine.write_output(&mut block);
    engine.pause();
    assert!(!engine.is_active());
    assert_eq!(engine.progress(), Progress { position: 3, total: 4 });
    engine.pause();
    assert!(!engine.is_active());
    engine.play();
    assert!(engine.is_active());
    assert_eq!(engine.progress(), Progress { position: 3, total: 4 });
    let mut rest = [0i16; 1];
    engine.write_output(&mut rest);
    assert_eq!(rest, [4]);
}

#[test]
fn restart_sets_progress_to_zero() {
    let mut engine = engine_for(vec![1, 2, 3, 4], SampleFormat::I16);
    let mut block = [0i16; 6];
    engine.write_output(&mut block);
    engine.restart();
    assert_eq!(engine.progress(), Progress { position: 0, total: 4 });
    assert!(engine.is_active());
    let mut again = [0i16; 2];
    engine.write_output(&mut again);
    assert_eq!(again, [1, 2]);
}

#[test]
fn restart_keeps_a_paused_engine_paused() {
    let mut engine = engine_for(vec![1, 2], SampleFormat::I16);
    let mut block = [0i16; 1];
    engine.write_output(&mut block);
    engine.pause();
    engine.restart();
    assert!(!engine.is_active());
    assert_eq!(engine.progress(), Progress { position: 0, total: 2 });
}

#[test]
fn stream_from_wav_file_plays_the_decoded_samples() {
    let mut file: Vec<u8> = vec![0xaa; 44];
    file.extend_from_slice(&[0x01, 0x00, 0x02, 0x00]);
    let mut engine = stream_from_wav_file(&file, &[device_range(SampleFormat::I16)]).unwrap();
    assert_eq!(engine.progress(), Progress { position: 0, total: 2 });
    let mut block = [9i16; 3];
    engine.write_output(&mut block);
    assert_eq!(block, [1, 2, 0]);
}

#[test]
fn stream_from_wav_file_reports_each_failure() {
    let good: Vec<u8> = vec![0; 46];
    let short: Vec<u8> = vec![0; 10];
    assert!(matches!(
        stream_from_wav_file(&short, &[device_range(SampleFormat::I16)]),
        Err(PlayerError::UnsupportedFormat)
    ));
    assert!(matches!(stream_from_wav_file(&short, &[]), Err(PlayerError::UnsupportedFormat)));
    assert!(matches!(stream_from_wav_file(&good, &[]), Err(PlayerError::DeviceUnavailable)));
    assert!(matches!(
        stream_from_wav_file(&good, &[device_range(SampleFormat::F32)]),
        Err(PlayerError::UnsupportedConfiguration)
    ));
}

#[test]
fn silence_fills_every_slot() {
    let mut signed = [5i16, -5, 9];
    let mut unsigned = [0u8, 255];
    let mut nothing: [u8; 0] = [];
    write_silence(&mut signed);
    write_silence(&mut unsigned);
    write_silence(&mut nothing);
    assert_eq!(signed, [0, 0, 0]);
    assert_eq!(unsigned, [128, 128]);
}
