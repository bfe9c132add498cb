use player_core::audio::buffer::FrameQueue;
use player_core::audio::device::audio_output_stream;
use player_core::audio::device::AudioDeviceContext;
use player_core::audio::device::BUFFER_CAPACITY;
use player_core::audio::sample::AudioSample;
use player_core::audio::source::AudioSource;
use player_core::audio::source::DecoderStage;
use player_core::audio::source::Error;
use player_core::audio::source::FFmpegSource;
use player_core::audio::source::MediaProbe;
use player_core::audio::source::worker::PipelineState;
use player_core::audio::source::worker::WorkerAction;
use player_core::audio::source::worker::WorkerEvent;
use player_core::audio::source::worker::WorkerPhase;
use player_core::metadata::ffmpeg::StreamPicture;
use player_core::player::sizing_for;

fn frames(from: u32, count: usize) -> Vec<AudioSample> {
    (0..count)
        .map(|i| AudioSample::from_slice(&[from + i as u32, 0]))
        .collect()
}

fn pop_tags(queue: &mut FrameQueue) -> Vec<u32> {
    let mut tags = Vec::new();
    while let Some(sample) = queue.pop_one() {
        tags.push(sample.ch1());
    }
    tags
}

fn opened(target: usize) -> FFmpegSource {
    let mut source = FFmpegSource::new(target);
    assert!(source
        .open(MediaProbe::Opened { streams: Vec::new(), duration: 5000, bitrate: 320_000 })
        .is_ok());
    source
}

/// An opened source whose worker has started and been told to read.
fn reading(target: usize, queue: &mut FrameQueue) -> FFmpegSource {
    let mut source = opened(target);
    assert!(source.streaming().is_ok());
    assert!(matches!(source.worker_step(queue, WorkerEvent::Start), WorkerAction::ReadPacket));
    source
}

fn packet(pts: i64) -> WorkerEvent {
    WorkerEvent::Packet { audio: true, pts: Some(pts) }
}

fn resampled(from: u32, count: usize, delay: bool) -> WorkerEvent {
    WorkerEvent::Resampled { frames: frames(from, count), delay }
}

#[test]
fn target_occupancy_is_80_ms_of_audio() {
    assert_eq!(sizing_for(48_000), 3840);
    assert_eq!(sizing_for(44_100), 3528);
    assert_eq!(sizing_for(8_000), 640);
    assert_eq!(sizing_for(11_025), 882);
    assert_eq!(sizing_for(0), 0);
    assert_eq!(sizing_for(24), 1);
    assert_eq!(sizing_for(u32::MAX), 343_597_383);
}

#[test]
fn new_source_is_idle() {
    let source = FFmpegSource::new(3840);
    let status = source.status();
    assert!(!status.avaliable);
    assert!(!status.playing);
    assert!(!status.dropping_frames);
    assert!(!status.is_end);
    assert_eq!(status.current_time, 0);
    assert!(!source.is_open());
    assert!(matches!(source.phase(), WorkerPhase::Idle));
    assert_eq!(source.get_duration(), 0);
    assert_eq!(source.get_bitrate(), 0);
    assert!(source.get_media_info().cover.is_none());
}

#[test]
fn worker_of_unopened_source_is_told_to_exit() {
    let mut queue = FrameQueue::new(8);
    let mut source = FFmpegSource::new(4);
    assert!(matches!(source.worker_step(&mut queue, WorkerEvent::Start), WorkerAction::Exit));
    assert!(matches!(source.worker_step(&mut queue, WorkerEvent::Tick), WorkerAction::Exit));
    assert!(matches!(source.phase(), WorkerPhase::Idle));
}

#[test]
fn frames_from_interleaved_samples() {
    let pcm = [1u32, 2, 3, 4, 5, 6, 7];
    let stereo = FFmpegSource::ffmpeg_frame_to_slice(&pcm, 2);
    assert_eq!(stereo.len(), 3);
    assert_eq!((stereo[0].ch1(), stereo[0].ch2()), (1, 2));
    assert_eq!((stereo[1].ch1(), stereo[1].ch2()), (3, 4));
    assert_eq!((stereo[2].ch1(), stereo[2].ch2()), (5, 6));
    assert_eq!(stereo[2].channels(), 2);
    assert_eq!(stereo[2].ch3(), 0);
    let mono = FFmpegSource::ffmpeg_frame_to_slice(&pcm, 1);
    assert_eq!(mono.len(), 7);
    assert_eq!(mono[6].ch1(), 7);
    let wide = FFmpegSource::ffmpeg_frame_to_slice(&pcm, 8);
    assert!(wide.is_empty());
    assert!(FFmpegSource::ffmpeg_frame_to_slice(&[], 2).is_empty());
}

#[test]
fn open_container_failure() {
    let mut source = FFmpegSource::new(8);
    match source.open(MediaProbe::ContainerFailed("No such file or directory".to_string())) {
        Err(Error::OpenMediaFileWithFFmpeg { message, source }) => {
            assert_eq!(message, "the file could not be opened, either because the file does not exist, cannot be accessed, or the file format is not supported");
            assert_eq!(source, "No such file or directory");
        }
        other => panic!("unexpected result: {:?}", other),
    }
    assert!(!source.is_open());
    assert!(!source.status().avaliable);
}

#[test]
fn open_without_audio_stream_keeps_the_cover() {
    let mut source = FFmpegSource::new(8);
    let streams = vec![
        StreamPicture { attached: false, data: vec![1] },
        StreamPicture { attached: true, data: vec![0xff, 0xd8, 0xff] },
    ];
    match source.open(MediaProbe::NoAudioStream { streams }) {
        Err(Error::OpenMediaFile { message }) => assert_eq!(message, "failed to get audio stream"),
        other => panic!("unexpected result: {:?}", other),
    }
    assert_eq!(source.get_media_info().cover, Some(vec![0xff, 0xd8, 0xff]));
    assert!(!source.is_open());
}

#[test]
fn open_decoder_failures_name_the_stage() {
    let cases = [
        (DecoderStage::Context, "failed to create codec context"),
        (DecoderStage::Decoder, "failed to create audio decoder"),
        (DecoderStage::Parameters, "failed to set codec parameters"),
    ];
    for (stage, text) in cases {
        let mut source = FFmpegSource::new(8);
        let probe = MediaProbe::DecoderFailed {
            streams: Vec::new(),
            stage,
            cause: "Decoder not found".to_string(),
        };
        match source.open(probe) {
            Err(Error::OpenMediaFileWithFFmpeg { message, source }) => {
                assert_eq!(message, text);
                assert_eq!(source, "Decoder not found");
            }
            other => panic!("unexpected result: {:?}", other),
        }
        assert_eq!(source.get_duration(), 0);
        assert!(!source.is_open());
    }
}

#[test]
fn open_resampler_failure_keeps_the_duration() {
    let mut source = FFmpegSource::new(8);
    let probe = MediaProbe::ResamplerFailed {
        streams: Vec::new(),
        duration: 1234,
        bitrate: 96_000,
        cause: "Invalid argument".to_string(),
    };
    match source.open(probe) {
        Err(Error::OpenMediaFileWithFFmpeg { message, source }) => {
            assert_eq!(message, "failed to create resampler");
            assert_eq!(source, "Invalid argument");
        }
        other => panic!("unexpected result: {:?}", other),
    }
    assert_eq!(source.get_duration(), 1234);
    assert_eq!(source.get_bitrate(), 96_000);
    assert!(!source.status().avaliable);
}

#[test]
fn open_makes_the_source_available() {
    let mut source = FFmpegSource::new(3840);
    let streams = vec![StreamPicture { attached: true, data: vec![9, 8, 7] }];
    assert!(source.open(MediaProbe::Opened { streams, duration: 5000, bitrate: 1_411_200 }).is_ok());
    assert!(source.is_open());
    assert!(source.status().avaliable);
    assert!(!source.status().playing);
    assert!(matches!(source.phase(), WorkerPhase::Starting));
    assert_eq!(source.get_duration(), 5000);
    assert_eq!(source.get_bitrate(), 1_411_200);
    assert_eq!(source.get_media_info().duration, 5000);
    assert_eq!(source.get_media_info().bitrate, 1_411_200);
    assert_eq!(source.get_media_info().cover, Some(vec![9, 8, 7]));
}

#[test]
fn close_unopened_source_fails() {
    let mut queue = FrameQueue::new(8);
    queue.push_one(AudioSample::from_slice(&[1]));
    let mut source = FFmpegSource::new(8);
    match source.close(&mut queue) {
        Err(Error::CloseMediaFile { message }) => assert_eq!(message, "no file opened"),
        other => panic!("unexpected result: {:?}", other),
    }
    assert_eq!(queue.occupancy(), 1);
}

#[test]
fn close_empties_the_queue_and_ends_the_worker() {
    let mut queue = FrameQueue::new(8);
    let mut source = reading(4, &mut queue);
    assert!(matches!(source.worker_step(&mut queue, packet(10)), WorkerAction::Decode));
    assert!(matches!(source.worker_step(&mut queue, resampled(1, 2, false)), WorkerAction::ReceiveFrame));
    assert_eq!(queue.occupancy(), 2);
    assert!(source.close(&mut queue).is_ok());
    assert_eq!(queue.occupancy(), 0);
    assert!(!source.status().avaliable);
    assert!(!source.is_open());
    assert!(matches!(source.worker_step(&mut queue, WorkerEvent::NoFrame), WorkerAction::Exit));
    assert!(matches!(source.phase(), WorkerPhase::Exited));
    let status = source.status();
    assert!(!status.playing);
    assert!(status.is_end);
    assert_eq!(status.current_time, 0);
    assert!(matches!(source.close(&mut queue), Err(Error::CloseMediaFile { .. })));
    assert!(matches!(source.seek(5), Err(Error::Seek { .. })));
}

#[test]
fn seek_on_unopened_source_fails() {
    let mut source = FFmpegSource::new(8);
    match source.seek(100) {
        Err(Error::Seek { message }) => assert_eq!(message, "no file opened"),
        other => panic!("unexpected result: {:?}", other),
    }
    assert!(!source.status().dropping_frames);
}

#[test]
fn seek_after_the_worker_failed_fails() {
    let mut queue = FrameQueue::new(8);
    let mut source = reading(4, &mut queue);
    assert!(matches!(source.worker_step(&mut queue, packet(0)), WorkerAction::Decode));
    assert!(matches!(source.worker_step(&mut queue, WorkerEvent::Failed), WorkerAction::Exit));
    assert!(matches!(source.phase(), WorkerPhase::Exited));
    assert!(source.status().avaliable);
    match source.seek(100) {
        Err(Error::SendSeek { message, source }) => {
            assert_eq!(message, "decoding thread may have terminated");
            assert_eq!(source, "sending on a closed channel");
        }
        other => panic!("unexpected result: {:?}", other),
    }
    assert!(!source.status().dropping_frames);
    assert!(source.close(&mut queue).is_ok());
}

#[test]
fn flags_and_sizing_setters() {
    let mut source = FFmpegSource::new(100);
    assert!(source.streaming().is_ok());
    assert!(source.is_streaming());
    assert!(source.pause().is_ok());
    assert!(!source.is_streaming());
    source.clear_buffer();
    assert!(source.status().dropping_frames);
    assert!(!source.is_end());
    assert_eq!(source.get_current_time(), 0);
}

#[test]
fn chunk_size_is_half_the_target() {
    let mut queue = FrameQueue::new(100);
    let mut source = reading(10, &mut queue);
    assert!(matches!(source.worker_step(&mut queue, packet(0)), WorkerAction::Decode));
    // Target 10, chunk 5: with the device idle two chunks fit, the third waits.
    assert!(matches!(source.worker_step(&mut queue, resampled(0, 12, false)), WorkerAction::Sleep));
    assert_eq!(queue.occupancy(), 10);
    assert!(matches!(source.phase(), WorkerPhase::Writing));
    // Four frames consumed: the last chunk, of two frames, now fits under the target.
    assert_eq!(queue.discard(4), 4);
    assert!(matches!(source.worker_step(&mut queue, WorkerEvent::Tick), WorkerAction::ReceiveFrame));
    assert_eq!(queue.occupancy(), 8);
    assert_eq!(pop_tags(&mut queue), vec![4, 5, 6, 7, 8, 9, 10, 11]);
}

#[test]
fn set_dynamic_device_buffer_size_resizes_target_and_chunk() {
    let mut queue = FrameQueue::new(100);
    let mut source = reading(10, &mut queue);
    source.set_dynamic_device_buffer_size(6);
    assert!(matches!(source.worker_step(&mut queue, packet(0)), WorkerAction::Decode));
    // Target 6, chunk 3.
    assert!(matches!(source.worker_step(&mut queue, resampled(0, 7, false)), WorkerAction::Sleep));
    assert_eq!(queue.occupancy(), 6);
    queue.discard(1);
    // One frame left to write: 5 + 1 <= 6.
    assert!(matches!(source.worker_step(&mut queue, WorkerEvent::Tick), WorkerAction::ReceiveFrame));
    assert_eq!(queue.occupancy(), 6);
}

#[test]
fn set_buffer_chunk_size_changes_the_chunking() {
    let mut queue = FrameQueue::new(100);
    let mut source = reading(10, &mut queue);
    source.set_buffer_chunk_size(4);
    assert!(matches!(source.worker_step(&mut queue, packet(0)), WorkerAction::Decode));
    // Target 10, chunk 4: two chunks fit (8), the third would make 12.
    assert!(matches!(source.worker_step(&mut queue, resampled(0, 12, false)), WorkerAction::Sleep));
    assert_eq!(queue.occupancy(), 8);
}

#[test]
fn chunk_size_zero_still_makes_progress() {
    let mut queue = FrameQueue::new(100);
    let mut source = reading(1, &mut queue);
    assert!(matches!(source.worker_step(&mut queue, packet(0)), WorkerAction::Decode));
    // Target 1, chunk 0 taken as 1.
    assert!(matches!(source.worker_step(&mut queue, resampled(0, 3, false)), WorkerAction::Sleep));
    assert_eq!(queue.occupancy(), 1);
    assert_eq!(pop_tags(&mut queue), vec![0]);
    assert!(matches!(source.worker_step(&mut queue, WorkerEvent::Tick), WorkerAction::Sleep));
    assert_eq!(pop_tags(&mut queue), vec![1]);
    assert!(matches!(source.worker_step(&mut queue, WorkerEvent::Tick), WorkerAction::ReceiveFrame));
    assert_eq!(pop_tags(&mut queue), vec![2]);
}

#[test]
fn target_zero_never_writes() {
    let mut queue = FrameQueue::new(100);
    let mut source = reading(0, &mut queue);
    assert!(matches!(source.worker_step(&mut queue, packet(0)), WorkerAction::Decode));
    assert!(matches!(source.worker_step(&mut queue, resampled(0, 3, false)), WorkerAction::Sleep));
    assert!(matches!(source.worker_step(&mut queue, WorkerEvent::Tick), WorkerAction::Sleep));
    assert_eq!(queue.occupancy(), 0);
}

#[test]
fn empty_resampler_output_goes_straight_on() {
    let mut queue = FrameQueue::new(100);
    let mut source = reading(10, &mut queue);
    assert!(matches!(source.worker_step(&mut queue, packet(0)), WorkerAction::Decode));
    assert!(matches!(source.worker_step(&mut queue, resampled(0, 0, true)), WorkerAction::FlushResampler));
    assert!(matches!(source.phase(), WorkerPhase::Flushing));
    assert!(matches!(source.worker_step(&mut queue, resampled(0, 0, false)), WorkerAction::ReceiveFrame));
    assert!(matches!(source.worker_step(&mut queue, WorkerEvent::NoFrame), WorkerAction::ReadPacket));
}

#[test]
fn resampler_delay_is_flushed_after_the_frames() {
    let mut queue = FrameQueue::new(100);
    let mut source = reading(20, &mut queue);
    assert!(matches!(source.worker_step(&mut queue, packet(0)), WorkerAction::Decode));
    assert!(matches!(source.worker_step(&mut queue, resampled(0, 4, true)), WorkerAction::FlushResampler));
    assert!(matches!(source.worker_step(&mut queue, WorkerEvent::Tick), WorkerAction::FlushResampler));
    assert!(matches!(source.worker_step(&mut queue, resampled(4, 3, false)), WorkerAction::ReceiveFrame));
    assert!(matches!(source.worker_step(&mut queue, WorkerEvent::Tick), WorkerAction::ReceiveFrame));
    assert_eq!(pop_tags(&mut queue), vec![0, 1, 2, 3, 4, 5, 6]);
}

#[test]
fn packets_of_other_streams_are_skipped() {
    let mut queue = FrameQueue::new(100);
    let mut source = reading(20, &mut queue);
    let other = WorkerEvent::Packet { audio: false, pts: Some(777) };
    assert!(matches!(source.worker_step(&mut queue, other), WorkerAction::ReadPacket));
    assert_eq!(source.get_current_time(), 0);
    assert!(matches!(source.phase(), WorkerPhase::Reading));
}

#[test]
fn packet_without_time_keeps_the_current_time() {
    let mut queue = FrameQueue::new(100);
    let mut source = reading(20, &mut queue);
    assert!(matches!(source.worker_step(&mut queue, packet(40)), WorkerAction::Decode));
    assert!(matches!(source.worker_step(&mut queue, WorkerEvent::NoFrame), WorkerAction::ReadPacket));
    let untimed = WorkerEvent::Packet { audio: true, pts: None };
    assert!(matches!(source.worker_step(&mut queue, untimed), WorkerAction::Decode));
    assert_eq!(source.get_current_time(), 40);
}

#[test]
fn events_that_answer_nothing_repeat_the_action() {
    let mut queue = FrameQueue::new(100);
    let mut source = reading(20, &mut queue);
    assert!(matches!(source.worker_step(&mut queue, WorkerEvent::Tick), WorkerAction::ReadPacket));
    assert!(matches!(source.worker_step(&mut queue, WorkerEvent::SeekDone(true)), WorkerAction::ReadPacket));
    assert!(matches!(source.worker_step(&mut queue, packet(5)), WorkerAction::Decode));
    assert!(matches!(source.worker_step(&mut queue, WorkerEvent::Exhausted), WorkerAction::ReceiveFrame));
    assert!(matches!(source.worker_step(&mut queue, packet(99)), WorkerAction::ReceiveFrame));
    assert_eq!(source.get_current_time(), 5);
    assert!(!source.is_end());
}

#[test]
fn late_worker_of_an_earlier_source_is_told_to_exit() {
    let mut queue = FrameQueue::new(100);
    let mut source = opened(20);
    assert!(matches!(source.worker_step(&mut queue, WorkerEvent::Tick), WorkerAction::Exit));
    assert!(matches!(source.phase(), WorkerPhase::Starting));
    assert!(matches!(source.worker_step(&mut queue, WorkerEvent::Start), WorkerAction::ReadPacket));
}

#[test]
fn paused_worker_holds_its_packet() {
    let mut queue = FrameQueue::new(100);
    let mut source = reading(20, &mut queue);
    assert!(source.pause().is_ok());
    assert!(matches!(source.worker_step(&mut queue, packet(120)), WorkerAction::Sleep));
    assert!(matches!(source.phase(), WorkerPhase::Paused { audio: true, pts: Some(120) }));
    assert_eq!(source.get_current_time(), 0);
    for _ in 0..3 {
        assert!(matches!(source.worker_step(&mut queue, WorkerEvent::Tick), WorkerAction::Sleep));
    }
    assert!(source.streaming().is_ok());
    assert!(matches!(source.worker_step(&mut queue, WorkerEvent::Tick), WorkerAction::Decode));
    assert_eq!(source.get_current_time(), 120);
}

#[test]
fn paused_worker_writes_nothing() {
    let mut queue = FrameQueue::new(100);
    let mut source = reading(20, &mut queue);
    assert!(matches!(source.worker_step(&mut queue, packet(0)), WorkerAction::Decode));
    assert!(source.pause().is_ok());
    assert!(matches!(source.worker_step(&mut queue, resampled(0, 4, false)), WorkerAction::Sleep));
    assert!(matches!(source.worker_step(&mut queue, WorkerEvent::Tick), WorkerAction::Sleep));
    assert_eq!(queue.occupancy(), 0);
    assert!(source.streaming().is_ok());
    assert!(matches!(source.worker_step(&mut queue, WorkerEvent::Tick), WorkerAction::ReceiveFrame));
    assert_eq!(pop_tags(&mut queue), vec![0, 1, 2, 3]);
}

#[test]
fn current_time_follows_the_packets_until_the_stream_ends() {
    let mut queue = FrameQueue::new(1000);
    let mut source = reading(1000, &mut queue);
    let mut last = source.get_current_time();
    let mut pts = 0i64;
    while pts < 5000 {
        assert!(matches!(source.worker_step(&mut queue, packet(pts)), WorkerAction::Decode));
        assert_eq!(source.get_current_time(), pts);
        assert!(source.get_current_time() >= last);
        last = source.get_current_time();
        assert!(matches!(source.worker_step(&mut queue, resampled(0, 3, false)), WorkerAction::ReceiveFrame));
        assert!(source.get_current_time() >= last);
        assert!(matches!(source.worker_step(&mut queue, WorkerEvent::NoFrame), WorkerAction::ReadPacket));
        assert!(!source.is_end());
        queue.discard(3);
        pts += 26;
    }
    assert_eq!(last, 4992);
    assert!(matches!(source.worker_step(&mut queue, WorkerEvent::Exhausted), WorkerAction::Sleep));
    assert!(source.is_end());
    assert_eq!(source.get_current_time(), 0);
    assert!(!source.is_streaming());
    assert!(matches!(source.phase(), WorkerPhase::EndOfStream));
}

#[test]
fn end_of_stream_waits_for_resume_and_rewinds() {
    let mut queue = FrameQueue::new(100);
    let mut source = reading(20, &mut queue);
    assert!(matches!(source.worker_step(&mut queue, WorkerEvent::Exhausted), WorkerAction::Sleep));
    assert!(matches!(source.worker_step(&mut queue, WorkerEvent::Tick), WorkerAction::Sleep));
    assert!(matches!(source.worker_step(&mut queue, packet(3)), WorkerAction::Sleep));
    assert!(source.is_end());
    assert!(source.streaming().is_ok());
    assert!(matches!(source.worker_step(&mut queue, WorkerEvent::Tick), WorkerAction::Rewind));
    assert!(!source.is_end());
    assert!(matches!(source.phase(), WorkerPhase::Rewinding));
    assert!(matches!(source.worker_step(&mut queue, WorkerEvent::Tick), WorkerAction::Rewind));
    assert!(matches!(source.worker_step(&mut queue, WorkerEvent::SeekDone(true)), WorkerAction::ReadPacket));
    assert!(matches!(source.worker_step(&mut queue, packet(0)), WorkerAction::Decode));
}

#[test]
fn failed_rewind_ends_the_worker() {
    let mut queue = FrameQueue::new(100);
    let mut source = reading(20, &mut queue);
    assert!(matches!(source.worker_step(&mut queue, WorkerEvent::Exhausted), WorkerAction::Sleep));
    assert!(source.streaming().is_ok());
    assert!(matches!(source.worker_step(&mut queue, WorkerEvent::Tick), WorkerAction::Rewind));
    assert!(matches!(source.worker_step(&mut queue, WorkerEvent::SeekDone(false)), WorkerAction::Exit));
    assert!(matches!(source.phase(), WorkerPhase::Exited));
    assert!(matches!(source.seek(0), Err(Error::SendSeek { .. })));
}

#[test]
fn close_at_end_of_stream_ends_the_worker() {
    let mut queue = FrameQueue::new(100);
    let mut source = reading(20, &mut queue);
    assert!(matches!(source.worker_step(&mut queue, WorkerEvent::Exhausted), WorkerAction::Sleep));
    assert!(source.close(&mut queue).is_ok());
    assert!(matches!(source.worker_step(&mut queue, WorkerEvent::Tick), WorkerAction::Exit));
    assert!(matches!(source.worker_step(&mut queue, WorkerEvent::Start), WorkerAction::Exit));
}

#[test]
fn seek_flushes_the_queue_before_refill() {
    let mut queue = FrameQueue::new(100);
    let mut source = reading(20, &mut queue);
    assert!(matches!(source.worker_step(&mut queue, packet(1000)), WorkerAction::Decode));
    assert!(matches!(source.worker_step(&mut queue, resampled(100, 30, false)), WorkerAction::Sleep));
    assert_eq!(queue.occupancy(), 20);

    assert!(source.seek(3000).is_ok());
    assert!(source.status().dropping_frames);
    // The worker, waiting for room, throws the rest of its frames away.
    assert!(matches!(source.worker_step(&mut queue, WorkerEvent::Tick), WorkerAction::ReceiveFrame));
    assert_eq!(queue.occupancy(), 20);
    // Whatever the decoder still hands over is thrown away as well.
    assert!(matches!(source.worker_step(&mut queue, resampled(200, 5, false)), WorkerAction::ReceiveFrame));
    assert_eq!(queue.occupancy(), 20);
    assert!(matches!(source.worker_step(&mut queue, WorkerEvent::NoFrame), WorkerAction::ReadPacket));
    // The next packet makes the worker pick the request up.
    match source.worker_step(&mut queue, packet(1026)) {
        WorkerAction::SeekContainer(time) => assert_eq!(time, 3000),
        other => panic!("unexpected action: {:?}", other),
    }
    assert!(matches!(source.phase(), WorkerPhase::Seeking(3000)));
    assert_eq!(source.get_current_time(), 1000);
    assert!(source.status().dropping_frames);
    assert_eq!(queue.occupancy(), 20);

    assert!(matches!(source.worker_step(&mut queue, WorkerEvent::SeekDone(true)), WorkerAction::ReadPacket));
    assert_eq!(queue.occupancy(), 0);
    assert!(!source.status().dropping_frames);

    assert!(matches!(source.worker_step(&mut queue, packet(3000)), WorkerAction::Decode));
    assert_eq!(source.get_current_time(), 3000);
    assert!(matches!(source.worker_step(&mut queue, resampled(900, 4, false)), WorkerAction::ReceiveFrame));
    assert_eq!(pop_tags(&mut queue), vec![900, 901, 902, 903]);
}

#[test]
fn failed_seek_keeps_the_queue() {
    let mut queue = FrameQueue::new(100);
    let mut source = reading(20, &mut queue);
    assert!(matches!(source.worker_step(&mut queue, packet(0)), WorkerAction::Decode));
    assert!(matches!(source.worker_step(&mut queue, resampled(0, 4, false)), WorkerAction::ReceiveFrame));
    assert!(matches!(source.worker_step(&mut queue, WorkerEvent::NoFrame), WorkerAction::ReadPacket));
    assert!(source.seek(-5).is_ok());
    assert!(matches!(source.worker_step(&mut queue, packet(26)), WorkerAction::SeekContainer(-5)));
    assert!(matches!(source.worker_step(&mut queue, WorkerEvent::Tick), WorkerAction::SeekContainer(-5)));
    assert!(matches!(source.worker_step(&mut queue, WorkerEvent::SeekDone(false)), WorkerAction::ReadPacket));
    assert_eq!(queue.occupancy(), 4);
    assert!(!source.status().dropping_frames);
}

#[test]
fn later_seek_replaces_an_earlier_one() {
    let mut queue = FrameQueue::new(100);
    let mut source = reading(20, &mut queue);
    assert!(source.seek(1000).is_ok());
    assert!(source.seek(2000).is_ok());
    assert!(matches!(source.worker_step(&mut queue, packet(0)), WorkerAction::SeekContainer(2000)));
    assert!(matches!(source.worker_step(&mut queue, WorkerEvent::SeekDone(true)), WorkerAction::ReadPacket));
    assert!(!source.status().dropping_frames);
    assert!(matches!(source.worker_step(&mut queue, packet(2000)), WorkerAction::Decode));
}

#[test]
fn seek_arriving_during_a_seek_keeps_dropping() {
    let mut queue = FrameQueue::new(100);
    let mut source = reading(20, &mut queue);
    assert!(source.seek(1000).is_ok());
    assert!(matches!(source.worker_step(&mut queue, packet(0)), WorkerAction::SeekContainer(1000)));
    assert!(source.seek(4000).is_ok());
    assert!(matches!(source.worker_step(&mut queue, WorkerEvent::SeekDone(true)), WorkerAction::ReadPacket));
    assert!(source.status().dropping_frames);
    assert!(matches!(source.worker_step(&mut queue, packet(1000)), WorkerAction::SeekContainer(4000)));
    assert!(matches!(source.worker_step(&mut queue, WorkerEvent::SeekDone(true)), WorkerAction::ReadPacket));
    assert!(!source.status().dropping_frames);
}

#[test]
fn seek_pending_at_exhaustion_is_applied() {
    let mut queue = FrameQueue::new(100);
    let mut source = reading(20, &mut queue);
    assert!(source.seek(500).is_ok());
    assert!(matches!(source.worker_step(&mut queue, WorkerEvent::Exhausted), WorkerAction::SeekContainer(500)));
    assert!(!source.is_end());
    assert!(source.is_streaming());
}

#[test]
fn clear_buffer_drops_only_what_is_in_hand() {
    let mut queue = FrameQueue::new(100);
    let mut source = reading(20, &mut queue);
    assert!(matches!(source.worker_step(&mut queue, packet(0)), WorkerAction::Decode));
    source.clear_buffer();
    assert!(matches!(source.worker_step(&mut queue, resampled(0, 4, false)), WorkerAction::ReceiveFrame));
    assert_eq!(queue.occupancy(), 0);
    assert!(matches!(source.worker_step(&mut queue, WorkerEvent::NoFrame), WorkerAction::ReadPacket));
    assert!(matches!(source.worker_step(&mut queue, packet(26)), WorkerAction::Decode));
    assert!(!source.status().dropping_frames);
    assert!(matches!(source.worker_step(&mut queue, resampled(10, 4, false)), WorkerAction::ReceiveFrame));
    assert_eq!(pop_tags(&mut queue), vec![10, 11, 12, 13]);
}

#[test]
fn target_above_capacity_cannot_overflow_the_queue() {
    let mut queue = FrameQueue::new(6);
    let mut source = reading(100, &mut queue);
    assert!(matches!(source.worker_step(&mut queue, packet(0)), WorkerAction::Decode));
    assert!(matches!(source.worker_step(&mut queue, resampled(0, 10, false)), WorkerAction::ReceiveFrame));
    assert_eq!(queue.occupancy(), 6);
    assert_eq!(queue.capacity(), 6);
    assert_eq!(pop_tags(&mut queue), vec![0, 1, 2, 3, 4, 5]);
}

#[test]
fn steady_state_keeps_free_space_above_the_watermark() {
    let capacity = BUFFER_CAPACITY;
    let target = sizing_for(48_000);
    assert_eq!(target, 3840);
    let mut queue = FrameQueue::new(capacity);
    let mut source = FFmpegSource::new(target);
    assert!(source.open(MediaProbe::Opened { streams: Vec::new(), duration: 5000, bitrate: 320_000 }).is_ok());
    assert!(source.streaming().is_ok());
    let playing = AudioDeviceContext { mute: false, volume_amplitude: 1.0f32.to_bits(), playing: true };

    let frames_per_packet = 1152usize;
    let total_packets = 5000 * 48 / frames_per_packet as i64;
    let mut packets_read = 0i64;
    let mut frames_of_packet_taken = true;
    let mut written = 0u32;
    let mut played = 0usize;
    let mut lowest_free = capacity;
    let mut highest_occupancy = 0usize;
    let mut event = WorkerEvent::Start;
    let mut steps = 0;
    loop {
        steps += 1;
        assert!(steps < 100_000);
        let action = source.worker_step(&mut queue, event);
        let free = queue.free_space();
        assert!(free <= capacity);
        assert!(free >= capacity - target);
        assert!(queue.occupancy() <= target);
        lowest_free = lowest_free.min(free);
        highest_occupancy = highest_occupancy.max(queue.occupancy());
        event = match action {
            WorkerAction::ReadPacket => {
                if packets_read == total_packets {
                    WorkerEvent::Exhausted
                } else {
                    packets_read += 1;
                    frames_of_packet_taken = false;
                    WorkerEvent::Packet { audio: true, pts: Some((packets_read - 1) * 24) }
                }
            }
            WorkerAction::Decode | WorkerAction::ReceiveFrame => {
                if frames_of_packet_taken {
                    WorkerEvent::NoFrame
                } else {
                    frames_of_packet_taken = true;
                    let ev = WorkerEvent::Resampled { frames: frames(written, frames_per_packet), delay: false };
                    written += frames_per_packet as u32;
                    ev
                }
            }
            WorkerAction::Sleep => {
                if source.is_end() {
                    break;
                }
                let mut data = vec![0.0f32; 480 * 2];
                let before = queue.occupancy();
                audio_output_stream(&mut data, &playing, &mut queue, 2, |s, _| s, f32::from_bits, 0.0f32);
                played += before - queue.occupancy();
                assert!(queue.free_space() >= capacity - target);
                WorkerEvent::Tick
            }
            other => panic!("unexpected action: {:?}", other),
        };
    }
    assert_eq!(packets_read, total_packets);
    assert_eq!(written as usize, total_packets as usize * frames_per_packet);
    assert_eq!(played + queue.occupancy(), written as usize);
    assert!(lowest_free >= capacity - target);
    assert!(lowest_free < capacity - target + 480);
    assert!(highest_occupancy <= 3840);
    assert!(highest_occupancy > 3840 - 480);
    assert!(source.is_end());
    assert_eq!(source.get_current_time(), 0);
}

#[test]
fn pipeline_goes_through_its_stages() {
    let mut queue = FrameQueue::new(100);
    let mut source = FFmpegSource::new(20);
    assert_eq!(source.stage(), PipelineState::Idle);
    assert!(source.open(MediaProbe::Opened { streams: Vec::new(), duration: 100, bitrate: 128_000 }).is_ok());
    assert_eq!(source.stage(), PipelineState::Opening);
    assert!(source.streaming().is_ok());
    source.worker_step(&mut queue, WorkerEvent::Start);
    assert_eq!(source.stage(), PipelineState::Decoding);
    source.worker_step(&mut queue, packet(0));
    assert_eq!(source.stage(), PipelineState::Decoding);
    source.worker_step(&mut queue, resampled(0, 30, true));
    assert_eq!(source.stage(), PipelineState::Decoding);
    assert!(source.seek(50).is_ok());
    source.worker_step(&mut queue, WorkerEvent::Tick);
    source.worker_step(&mut queue, resampled(0, 0, false));
    source.worker_step(&mut queue, WorkerEvent::NoFrame);
    source.worker_step(&mut queue, WorkerEvent::Exhausted);
    assert!(matches!(source.phase(), WorkerPhase::Seeking(50)));
    assert_eq!(source.stage(), PipelineState::Decoding);
    source.worker_step(&mut queue, WorkerEvent::SeekDone(true));
    source.worker_step(&mut queue, WorkerEvent::Exhausted);
    assert_eq!(source.stage(), PipelineState::EndOfStream);
    assert!(source.streaming().is_ok());
    source.worker_step(&mut queue, WorkerEvent::Tick);
    assert_eq!(source.stage(), PipelineState::Decoding);
    source.worker_step(&mut queue, WorkerEvent::SeekDone(true));
    assert_eq!(source.stage(), PipelineState::Decoding);
    assert!(source.close(&mut queue).is_ok());
    assert_eq!(source.stage(), PipelineState::Closed);
    source.worker_step(&mut queue, WorkerEvent::Tick);
    assert_eq!(source.stage(), PipelineState::Closed);
}

#[test]
fn reopening_a_source_restarts_it() {
    let mut queue = FrameQueue::new(100);
    let mut source = reading(20, &mut queue);
    assert!(source.seek(7).is_ok());
    assert!(source.open(MediaProbe::Opened { streams: Vec::new(), duration: 9, bitrate: 64_000 }).is_ok());
    assert_eq!(source.stage(), PipelineState::Opening);
    assert_eq!(source.get_duration(), 9);
    assert_eq!(source.get_bitrate(), 64_000);
    assert!(source.status().avaliable);
    assert!(matches!(source.worker_step(&mut queue, WorkerEvent::Start), WorkerAction::ReadPacket));
    // The earlier request is gone with the earlier file.
    assert!(matches!(source.worker_step(&mut queue, packet(0)), WorkerAction::Decode));
}

#[test]
fn media_info_is_set_at_open_and_kept() {
    let mut queue = FrameQueue::new(100);
    let mut source = FFmpegSource::new(20);
    let streams = vec![StreamPicture { attached: true, data: vec![4, 5] }];
    assert!(source.open(MediaProbe::Opened { streams, duration: 777, bitrate: 192_000 }).is_ok());
    assert!(source.streaming().is_ok());
    source.worker_step(&mut queue, WorkerEvent::Start);
    source.worker_step(&mut queue, packet(10));
    source.worker_step(&mut queue, resampled(0, 4, false));
    assert!(source.seek(5).is_ok());
    source.worker_step(&mut queue, WorkerEvent::NoFrame);
    source.worker_step(&mut queue, WorkerEvent::Exhausted);
    source.worker_step(&mut queue, WorkerEvent::SeekDone(true));
    source.worker_step(&mut queue, WorkerEvent::Exhausted);
    source.set_dynamic_device_buffer_size(8);
    assert!(source.pause().is_ok());
    assert!(source.close(&mut queue).is_ok());
    assert_eq!(source.get_duration(), 777);
    assert_eq!(source.get_bitrate(), 192_000);
    assert_eq!(source.get_media_info().cover, Some(vec![4, 5]));
}

#[test]
fn negative_and_extreme_bit_rates_are_stored_as_given() {
    for bitrate in [-1i64, 0, i64::MAX, i64::MIN] {
        let mut source = FFmpegSource::new(20);
        assert!(source.open(MediaProbe::Opened { streams: Vec::new(), duration: 1, bitrate }).is_ok());
        assert_eq!(source.get_bitrate(), bitrate);
    }
}
