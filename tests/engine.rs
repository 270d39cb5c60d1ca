use gita::capture::{capture_block, drain, sample_channel, writer_action, OverflowLog, WriterAction, RING_CAPACITY};
use gita::device::{bound_devices_lost, find_loopback, is_loopback_name, is_present, resolve_devices, same_names, DeviceChoice};
use gita::error::AudioError;
use gita::mix::{mix_block, mix_sample, PCM_PEAK, UNITY};
use gita::negotiate::{negotiate, negotiate_capture, offers, ChannelWant, ConfigRange, SampleKind, StreamSettings};
use gita::registry::{SessionRecord, SessionRegistry};
use gita::session::{
    describe_recording, next_phase, persist_record, persist_record_from, plan_start, DeviceCaps, SessionEvent,
    SessionPhase,
};
use gita::text::output_path;
use gita::writer::writer_iteration;

fn s(x: &str) -> String {
    x.to_string()
}

fn range(channels: u16, min_rate: u32, max_rate: u32, format: SampleKind) -> ConfigRange {
    ConfigRange { channels, min_rate, max_rate, format }
}

fn record(id: &str, owner: Option<&str>, mic: &str, lb: Option<&str>) -> SessionRecord<u32> {
    SessionRecord {
        id: s(id),
        owner_id: owner.map(s),
        output_path: output_path("/tmp/audio", id),
        devices: DeviceChoice { microphone: s(mic), loopback: lb.map(s) },
        handle: 7,
    }
}

// ---- mixing ----

#[test]
fn full_scale_sum_is_clamped() {
    assert_eq!(mix_sample(UNITY, UNITY), 32767);
    assert_eq!(mix_sample(-UNITY, -UNITY), -32767);
    assert_eq!(mix_sample(i32::MAX, i32::MAX), 32767);
    assert_eq!(mix_sample(i32::MIN, i32::MIN), -32767);
}

#[test]
fn quantization_rounds_to_nearest() {
    assert_eq!(mix_sample(0, 0), 0);
    assert_eq!(mix_sample(127, 0), 0);
    assert_eq!(mix_sample(128, 0), 1);
    assert_eq!(mix_sample(-128, 0), -1);
    assert_eq!(mix_sample(-127, 0), 0);
    assert_eq!(mix_sample(256 * 100, 256 * 23), 123);
    assert_eq!(mix_sample(UNITY / 2, 0), 16384);
}

#[test]
fn full_scale_blocks_stay_in_range() {
    let mic = vec![UNITY, -UNITY, UNITY, i32::MAX, i32::MIN, UNITY];
    let lb = vec![UNITY, -UNITY, UNITY, i32::MAX, i32::MIN, -UNITY];
    let out = mix_block(&mic, 2, &lb, 2);
    assert_eq!(out, vec![32767, -32767, 32767, 32767, -32767, 0]);
    for v in out {
        assert!(v >= -PCM_PEAK && v <= PCM_PEAK);
    }
}

#[test]
fn mono_source_is_upmixed() {
    let mic = vec![256, 512, -768];
    let out = mix_block(&mic, 1, &Vec::new(), 2);
    assert_eq!(out, vec![1, 1, 2, 2, -3, -3]);
}

#[test]
fn mono_frames_past_loopback_have_equal_channels() {
    let mic = vec![256, 512, 1024];
    let lb = vec![256, 0];
    let out = mix_block(&mic, 1, &lb, 2);
    assert_eq!(out, vec![2, 1, 2, 2, 4, 4]);
}

#[test]
fn stereo_block_ending_mid_frame_pads_silence() {
    let mic = vec![256, 512, 768];
    let out = mix_block(&mic, 2, &Vec::new(), 2);
    assert_eq!(out, vec![1, 2, 3, 0]);
}

#[test]
fn longer_loopback_sets_frame_count() {
    let mic = vec![256];
    let lb = vec![256, 256, 512, 512, 768, 768];
    let out = mix_block(&mic, 1, &lb, 2);
    assert_eq!(out, vec![2, 2, 2, 2, 3, 3]);
}

#[test]
fn empty_blocks_mix_to_nothing() {
    assert!(mix_block(&Vec::new(), 1, &Vec::new(), 1).is_empty());
}

// ---- negotiation ----

#[test]
fn target_rate_in_stereo_is_preferred() {
    let ranges = vec![range(1, 8000, 48000, SampleKind::F32), range(2, 44100, 96000, SampleKind::F32)];
    let d = StreamSettings { channels: 1, sample_rate: 44100, format: SampleKind::F32 };
    let r = negotiate_capture(&ranges, d);
    assert_eq!(r, StreamSettings { channels: 2, sample_rate: 48000, format: SampleKind::F32 });
}

#[test]
fn mono_is_taken_when_stereo_is_missing() {
    let ranges = vec![range(1, 8000, 48000, SampleKind::F32), range(2, 48000, 48000, SampleKind::I16)];
    let d = StreamSettings { channels: 2, sample_rate: 44100, format: SampleKind::I16 };
    let r = negotiate_capture(&ranges, d);
    assert_eq!(r, StreamSettings { channels: 1, sample_rate: 48000, format: SampleKind::F32 });
}

#[test]
fn default_config_when_target_rate_missing() {
    let ranges = vec![range(2, 8000, 44100, SampleKind::F32)];
    let d = StreamSettings { channels: 2, sample_rate: 44100, format: SampleKind::F32 };
    let r = negotiate_capture(&ranges, d);
    assert_eq!(r, StreamSettings { channels: 2, sample_rate: 44100, format: SampleKind::F32 });
}

#[test]
fn native_channel_count_kept_without_stereo_or_mono() {
    let ranges = vec![range(4, 8000, 96000, SampleKind::I32)];
    let d = StreamSettings { channels: 4, sample_rate: 96000, format: SampleKind::I32 };
    let r = negotiate_capture(&ranges, d);
    assert_eq!(r, d);
}

#[test]
fn target_needs_at_most_two_channels() {
    let ranges = vec![range(6, 8000, 96000, SampleKind::F32)];
    assert!(!offers(&ranges, 48000, ChannelWant::AtMostTwo, SampleKind::F32));
    assert!(offers(&ranges, 48000, ChannelWant::Exactly(6), SampleKind::F32));
    let d = StreamSettings { channels: 6, sample_rate: 44100, format: SampleKind::F32 };
    assert_eq!(negotiate(&ranges, d, 48000, SampleKind::F32), d);
}

// ---- devices ----

#[test]
fn loopback_markers() {
    assert!(is_loopback_name("Stereo Mix (Realtek Audio)"));
    assert!(is_loopback_name("Monitor of Built-in Audio"));
    assert!(is_loopback_name("What U Hear"));
    assert!(!is_loopback_name("Microphone (USB)"));
    assert!(!is_loopback_name(""));
}

#[test]
fn first_loopback_device_is_chosen() {
    let names = vec![s("Mic"), s("Wave Out Mix"), s("Loopback 2")];
    assert_eq!(find_loopback(&names), Some(1));
    assert_eq!(find_loopback(&vec![s("Mic")]), None);
}

#[test]
fn no_input_device_is_an_error() {
    let r = resolve_devices(&Vec::new(), Some(s("Mic")), true);
    assert_eq!(r.err(), Some(AudioError::NoInputDevice));
}

#[test]
fn no_default_microphone_is_an_error() {
    let r = resolve_devices(&vec![s("Mic")], None, true);
    assert_eq!(r.err(), Some(AudioError::NoDefaultMicrophone));
}

#[test]
fn loopback_only_searched_where_asked() {
    let names = vec![s("Mic"), s("Stereo Mix")];
    let on = resolve_devices(&names, Some(s("Mic")), true).unwrap();
    assert_eq!(on.microphone, "Mic");
    assert_eq!(on.loopback, Some(1));
    let off = resolve_devices(&names, Some(s("Mic")), false).unwrap();
    assert_eq!(off.loopback, None);
}

#[test]
fn device_presence() {
    let present = vec![s("Mic"), s("Speakers")];
    assert!(is_present(&present, &s("Mic")));
    assert!(!is_present(&present, &s("Headset")));
    let c = DeviceChoice { microphone: s("Mic"), loopback: Some(s("Stereo Mix")) };
    assert!(bound_devices_lost(&present, &c));
    let c2 = DeviceChoice { microphone: s("Mic"), loopback: None };
    assert!(!bound_devices_lost(&present, &c2));
}

#[test]
fn device_list_changes() {
    let a = vec![s("Mic"), s("Speakers")];
    assert!(same_names(&a, &vec![s("Mic"), s("Speakers")]));
    assert!(!same_names(&a, &vec![s("Speakers"), s("Mic")]));
    assert!(!same_names(&a, &vec![s("Mic")]));
    assert!(same_names(&Vec::new(), &Vec::new()));
}

// ---- registry ----

#[test]
fn duplicate_id_is_refused() {
    let mut reg: SessionRegistry<u32> = SessionRegistry::new();
    assert!(reg.insert(record("rec-abc", Some("page-1"), "Mic", None)).is_ok());
    let again = reg.insert(record("rec-abc", None, "Other", None));
    assert_eq!(again.err(), Some(AudioError::DuplicateRecordingId));
    assert_eq!(reg.len(), 1);
}

#[test]
fn second_stop_is_not_found() {
    let mut reg: SessionRegistry<u32> = SessionRegistry::new();
    reg.insert(record("rec-abc", Some("page-1"), "Mic", None)).unwrap();
    let first = reg.remove(&s("rec-abc")).ok().unwrap();
    assert_eq!(first.id, "rec-abc");
    assert_eq!(first.handle, 7);
    assert!(!reg.contains(&s("rec-abc")));
    let second = reg.remove(&s("rec-abc"));
    assert_eq!(second.err(), Some(AudioError::RecordingNotFound));
}

#[test]
fn lookup_by_id() {
    let mut reg: SessionRegistry<u32> = SessionRegistry::new();
    reg.insert(record("a", Some("page-1"), "Mic", None)).unwrap();
    let found = reg.get(&s("a")).unwrap();
    assert_eq!(found.owner_id, Some(s("page-1")));
    assert_eq!(found.output_path, "/tmp/audio/a.wav");
    assert!(reg.get(&s("b")).is_none());
}

#[test]
fn removal_keeps_other_sessions() {
    let mut reg: SessionRegistry<u32> = SessionRegistry::new();
    reg.insert(record("a", None, "Mic", None)).unwrap();
    reg.insert(record("b", None, "Mic", None)).unwrap();
    reg.insert(record("c", None, "Mic", None)).unwrap();
    reg.remove(&s("b")).ok().unwrap();
    assert_eq!(reg.len(), 2);
    assert!(reg.contains(&s("a")));
    assert!(reg.contains(&s("c")));
}

#[test]
fn watchdog_flags_sessions_with_lost_devices() {
    let mut reg: SessionRegistry<u32> = SessionRegistry::new();
    reg.insert(record("keep", None, "Mic", None)).unwrap();
    reg.insert(record("mic-gone", None, "USB Mic", None)).unwrap();
    reg.insert(record("loop-gone", None, "Mic", Some("Stereo Mix"))).unwrap();
    let present = vec![s("Mic"), s("Speakers")];
    assert_eq!(reg.lost_sessions(&present), vec![s("mic-gone"), s("loop-gone")]);
    assert!(reg.lost_sessions(&vec![s("Mic"), s("USB Mic"), s("Stereo Mix")]).is_empty());
}

// ---- start and stop ----

fn caps(name: &str, channels: u16) -> DeviceCaps {
    DeviceCaps {
        name: s(name),
        default_config: StreamSettings { channels, sample_rate: 44100, format: SampleKind::F32 },
        ranges: vec![range(channels, 8000, 48000, SampleKind::F32)],
    }
}

#[test]
fn plan_for_scenario_start() {
    let reg: SessionRegistry<u32> = SessionRegistry::new();
    let devices = vec![caps("Mic", 1), caps("Stereo Mix", 2)];
    let mic = caps("Mic", 1);
    let p = plan_start(&reg, &s("rec-abc"), &s("/tmp/audio"), &devices, Some(&mic), true).ok().unwrap();
    assert_eq!(p.output_path, "/tmp/audio/rec-abc.wav");
    assert_eq!(p.microphone, "Mic");
    assert_eq!(p.mic_settings, StreamSettings { channels: 1, sample_rate: 48000, format: SampleKind::F32 });
    assert_eq!(p.loopback, Some(s("Stereo Mix")));
    assert_eq!(p.loopback_settings, Some(StreamSettings { channels: 2, sample_rate: 48000, format: SampleKind::F32 }));
    let mut q = p;
    q.drop_loopback();
    assert_eq!(q.loopback, None);
    assert_eq!(q.loopback_settings, None);
    assert_eq!(q.microphone, "Mic");
}

#[test]
fn start_with_active_id_fails_before_devices() {
    let mut reg: SessionRegistry<u32> = SessionRegistry::new();
    reg.insert(record("rec-abc", None, "Mic", None)).unwrap();
    let r = plan_start(&reg, &s("rec-abc"), &s("/tmp/audio"), &Vec::new(), None, true);
    assert_eq!(r.err(), Some(AudioError::DuplicateRecordingId));
}

#[test]
fn start_errors_follow_device_resolution() {
    let reg: SessionRegistry<u32> = SessionRegistry::new();
    let r = plan_start(&reg, &s("x"), &s("/tmp"), &Vec::new(), None, false);
    assert_eq!(r.err(), Some(AudioError::NoInputDevice));
    let r2 = plan_start(&reg, &s("x"), &s("/tmp"), &vec![caps("Mic", 2)], None, false);
    assert_eq!(r2.err(), Some(AudioError::NoDefaultMicrophone));
}

#[test]
fn output_path_separator() {
    assert_eq!(output_path("/tmp/audio", "rec-abc"), "/tmp/audio/rec-abc.wav");
    assert_eq!(output_path("/tmp/audio/", "rec-abc"), "/tmp/audio/rec-abc.wav");
    assert_eq!(output_path("", "r"), "r.wav");
}

#[test]
fn descriptor_of_stopped_recording() {
    let rec = record("rec-abc", Some("page-1"), "Mic", None);
    let d = describe_recording(&rec, 500);
    assert_eq!(d.id, "rec-abc");
    assert_eq!(d.owner_id, Some(s("page-1")));
    assert_eq!(d.file_path, "/tmp/audio/rec-abc.wav");
    assert_eq!(d.duration_ms, 500);
    assert_eq!(d.mime_type, "audio/wav");
}

#[test]
fn persisted_ids_are_parsed() {
    let mut rec = record("550e8400-e29b-41d4-a716-446655440000", Some("not-a-uuid"), "Mic", None);
    let d = describe_recording(&rec, 1234);
    let p = persist_record(&d).ok().unwrap();
    assert_eq!(p.id, 0x550e8400_e29b_41d4_a716_446655440000u128);
    assert_eq!(p.owner_id, None);
    assert_eq!(p.duration_ms, 1234);
    rec.owner_id = Some(s("00000000-0000-0000-0000-000000000001"));
    let p2 = persist_record(&describe_recording(&rec, 1)).ok().unwrap();
    assert_eq!(p2.owner_id, Some(1));
}

#[test]
fn invalid_recording_id_is_an_error() {
    let d = describe_recording(&record("rec-abc", None, "Mic", None), 10);
    assert_eq!(persist_record(&d).err(), Some(AudioError::InvalidRecordingId));
    assert_eq!(persist_record_from(&d, None, None).err(), Some(AudioError::InvalidRecordingId));
    let p = persist_record_from(&d, Some(5), Some(9)).ok().unwrap();
    assert_eq!(p.id, 5);
    assert_eq!(p.owner_id, None);
}

#[test]
fn session_phases() {
    let p = next_phase(SessionPhase::Starting, SessionEvent::StreamsRunning);
    assert_eq!(p, SessionPhase::Recording);
    assert_eq!(next_phase(p, SessionEvent::DeviceLost), SessionPhase::Stopping);
    assert_eq!(next_phase(p, SessionEvent::StopRequested), SessionPhase::Stopping);
    assert_eq!(next_phase(SessionPhase::Stopping, SessionEvent::Drained), SessionPhase::Finalized);
    assert_eq!(next_phase(SessionPhase::Finalized, SessionEvent::StreamsRunning), SessionPhase::Finalized);
    assert_eq!(next_phase(SessionPhase::Starting, SessionEvent::Drained), SessionPhase::Starting);
}

#[test]
fn error_messages() {
    assert_eq!(AudioError::RecordingNotFound.message(), "no active recording with this id");
    assert_eq!(AudioError::DuplicateRecordingId.message(), "a recording with this id is already active");
    assert_eq!(AudioError::StreamBuildError.message(), "failed to build an input stream");
    assert_eq!(AudioError::FileCreateError.message(), "failed to create the output file");
    assert_eq!(AudioError::EncoderFinalizeError.message(), "failed to finalize the output file");
    assert_eq!(AudioError::DeviceEnumerationFailed.message(), "failed to enumerate input devices");
}

// ---- capture and writer ----

#[test]
fn burst_larger_than_buffer_is_cut_not_blocked() {
    let (mut tx, mut rx) = sample_channel();
    let burst: Vec<i32> = (0..(RING_CAPACITY as i32 + 5000)).collect();
    assert_eq!(capture_block(&mut tx, &burst, false), RING_CAPACITY);
    assert_eq!(capture_block(&mut tx, &vec![1, 2, 3], false), 0);
    let got = drain(&mut rx, RING_CAPACITY);
    assert_eq!(got.len(), RING_CAPACITY);
    assert_eq!(got[0], 0);
    assert_eq!(got[RING_CAPACITY - 1], RING_CAPACITY as i32 - 1);
    assert_eq!(capture_block(&mut tx, &vec![9, 8], false), 2);
    assert_eq!(drain(&mut rx, RING_CAPACITY), vec![9, 8]);
}

#[test]
fn stopped_capture_pushes_nothing() {
    let (mut tx, mut rx) = sample_channel();
    assert_eq!(capture_block(&mut tx, &vec![1, 2, 3], true), 0);
    assert!(drain(&mut rx, 16).is_empty());
}

#[test]
fn drain_respects_limit() {
    let (mut tx, mut rx) = sample_channel();
    capture_block(&mut tx, &vec![1, 2, 3, 4, 5], false);
    assert_eq!(drain(&mut rx, 2), vec![1, 2]);
    assert_eq!(drain(&mut rx, 10), vec![3, 4, 5]);
}

#[test]
fn overflow_warnings_are_rate_limited() {
    let mut log = OverflowLog::new();
    assert!(log.record_drop());
    for _ in 1..1000 {
        assert!(!log.record_drop());
    }
    assert!(log.record_drop());
    assert_eq!(log.drops, 1001);
}

#[test]
fn writer_decisions() {
    assert_eq!(writer_action(true, false, true, true), WriterAction::Finish);
    assert_eq!(writer_action(true, true, true, true), WriterAction::Finish);
    assert_eq!(writer_action(true, false, false, true), WriterAction::Continue);
    assert_eq!(writer_action(false, false, true, true), WriterAction::Sleep);
    assert_eq!(writer_action(false, true, true, true), WriterAction::Continue);
    assert_eq!(writer_action(false, false, true, false), WriterAction::Continue);
}

#[test]
fn writer_iteration_mixes_and_drains_before_finishing() {
    let (mut mtx, mut mrx) = sample_channel();
    let (mut ltx, mut lrx) = sample_channel();
    capture_block(&mut mtx, &vec![256, 512], false);
    capture_block(&mut ltx, &vec![256, 0, 256, 256], false);
    let out = writer_iteration(&mut mrx, 1, &mut lrx, 2, true, true);
    assert_eq!(out.samples, vec![2, 1, 3, 3]);
    assert_eq!(out.action, WriterAction::Finish);
    let idle = writer_iteration(&mut mrx, 1, &mut lrx, 2, true, false);
    assert!(idle.samples.is_empty());
    assert_eq!(idle.action, WriterAction::Sleep);
}

#[test]
fn inactive_loopback_is_not_read() {
    let (mut mtx, mut mrx) = sample_channel();
    let (mut ltx, mut lrx) = sample_channel();
    capture_block(&mut mtx, &vec![256], false);
    capture_block(&mut ltx, &vec![UNITY], false);
    let out = writer_iteration(&mut mrx, 1, &mut lrx, 1, false, false);
    assert_eq!(out.samples, vec![1, 1]);
    assert_eq!(out.action, WriterAction::Continue);
}
