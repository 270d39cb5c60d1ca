//! Starting and stopping recordings: the plan a start carries out, the
//! descriptor a stop hands to persistence, and the phases of a session.

use vstd::prelude::*;
use crate::device::{first_loopback, no_loopback, resolve_devices};
use crate::error::AudioError;
use crate::negotiate::{negotiate_capture, negotiated, ConfigRange, SampleKind, StreamSettings, TARGET_SAMPLE_RATE};
use crate::registry::{has_id, SessionRecord, SessionRegistry};
use crate::text::{output_path, wav_path};

verus! {

/// An input device as the host describes it: its name, its default capture
/// configuration and the configurations it supports.
pub struct DeviceCaps {
    pub name: String,
    pub default_config: StreamSettings,
    pub ranges: Vec<ConfigRange>,
}

/// What a start sets up: the microphone with its configuration, the loopback
/// input with its configuration if one was found, and the output file.
pub struct StartPlan {
    pub microphone: String,
    pub mic_settings: StreamSettings,
    pub loopback: Option<String>,
    pub loopback_settings: Option<StreamSettings>,
    pub output_path: String,
}

/// The configuration negotiated for a device.
pub open spec fn capture_settings(d: DeviceCaps) -> StreamSettings {
    negotiated(d.ranges@, d.default_config, TARGET_SAMPLE_RATE, SampleKind::F32)
}

/// Names of the devices, in order.
fn device_names(devices: &Vec<DeviceCaps>) -> (r: Vec<String>)
    ensures
        r@.len() == devices@.len(),
        forall|i: int| 0 <= i < r@.len() ==> #[trigger] r@[i] == devices@[i].name,
{
    let mut out: Vec<String> = Vec::new();
    let mut i: usize = 0;
    while i < devices.len()
        invariant
            i <= devices@.len(),
            out@.len() == i,
            forall|j: int| 0 <= j < i ==> #[trigger] out@[j] == devices@[j].name,
        decreases devices@.len() - i,
    {
        out.push(devices[i].name.clone());
        i = i + 1;
    }
    out
}

/// Plans a start, before any stream or file is created. Fails with
/// `DuplicateRecordingId` when the id is already active, so that a second
/// start neither opens streams nor touches the existing file; then with
/// `NoInputDevice` when the host lists no input device, then with
/// `NoDefaultMicrophone` when it has no default input. Otherwise the default
/// input is the microphone, the first device whose name marks a loopback input
/// (searched only when `scan_loopback`) is the loopback, each negotiated for
/// 48 kHz float capture, and the file is `"{output_dir}/{recording_id}.wav"`.
pub fn plan_start<H>(
    registry: &SessionRegistry<H>,
    recording_id: &String,
    output_dir: &String,
    devices: &Vec<DeviceCaps>,
    default_input: Option<&DeviceCaps>,
    scan_loopback: bool,
) -> (r: Result<StartPlan, AudioError>)
    ensures
        has_id(registry@, recording_id@) ==> r == Err::<StartPlan, AudioError>(AudioError::DuplicateRecordingId),
        !has_id(registry@, recording_id@) && devices@.len() == 0 ==> r == Err::<StartPlan, AudioError>(
            AudioError::NoInputDevice,
        ),
        !has_id(registry@, recording_id@) && devices@.len() > 0 && default_input is None ==> r == Err::<
            StartPlan,
            AudioError,
        >(AudioError::NoDefaultMicrophone),
        !has_id(registry@, recording_id@) && devices@.len() > 0 && default_input is Some ==> r is Ok,
        r matches Ok(p) ==> {
            let mic = *default_input->0;
            let names = devices@.map_values(|d: DeviceCaps| d.name);
            &&& p.microphone@ == mic.name@
            &&& p.mic_settings == capture_settings(mic)
            &&& p.output_path@ == wav_path(output_dir@, recording_id@)
            &&& (p.loopback is Some <==> p.loopback_settings is Some)
            &&& !scan_loopback ==> p.loopback is None
            &&& scan_loopback ==> match p.loopback {
                Some(l) => exists|i: int|
                    first_loopback(names, i) && l@ == devices@[i].name@ && p.loopback_settings
                        == Some(capture_settings(devices@[i])),
                None => no_loopback(names),
            }
        },
{
    if registry.contains(recording_id) {
        return Err(AudioError::DuplicateRecordingId);
    }
    let names = device_names(devices);
    let ghost spec_names = devices@.map_values(|d: DeviceCaps| d.name);
    assert(names@ =~= spec_names);
    let default_name = match default_input {
        Some(d) => Some(d.name.clone()),
        None => None,
    };
    let resolved = resolve_devices(&names, default_name, scan_loopback)?;
    let mic = match default_input {
        Some(d) => d,
        None => {
            return Err(AudioError::NoDefaultMicrophone);
        },
    };
    let mic_settings = negotiate_capture(&mic.ranges, mic.default_config);
    let (loopback, loopback_settings) = match resolved.loopback {
        Some(i) => {
            let d = &devices[i];
            (Some(d.name.clone()), Some(negotiate_capture(&d.ranges, d.default_config)))
        },
        None => (None, None),
    };
    let path = output_path(output_dir.as_str(), recording_id.as_str());
    Ok(StartPlan { microphone: resolved.microphone, mic_settings, loopback, loopback_settings, output_path: path })
}

impl StartPlan {
    /// A loopback stream that could not be built does not fail the start: the
    /// recording goes on with the microphone alone.
    pub fn drop_loopback(&mut self)
        ensures
            final(self).loopback is None,
            final(self).loopback_settings is None,
            final(self).microphone == old(self).microphone,
            final(self).mic_settings == old(self).mic_settings,
            final(self).output_path == old(self).output_path,
    {
        self.loopback = None;
        self.loopback_settings = None;
    }
}

/// The finished recording handed to persistence.
pub struct RecordingDescriptor {
    pub id: String,
    pub owner_id: Option<String>,
    pub file_path: String,
    pub duration_ms: u64,
    pub mime_type: String,
}

/// The descriptor of a stopped recording, `duration_ms` being the time from
/// its start to its stop.
pub fn describe_recording<H>(session: &SessionRecord<H>, duration_ms: u64) -> (r: RecordingDescriptor)
    ensures
        r.id@ == session.id@,
        r.owner_id == session.owner_id,
        r.file_path@ == session.output_path@,
        r.duration_ms == duration_ms,
        r.mime_type@ == "audio/wav"@,
{
    let mime = "audio/wav";
    RecordingDescriptor {
        id: session.id.clone(),
        owner_id: session.owner_id.clone(),
        file_path: session.output_path.clone(),
        duration_ms,
        mime_type: mime.to_owned(),
    }
}

/// What `uuid::Uuid::parse_str` makes of a text, as a 128-bit value.
pub uninterp spec fn uuid_value(s: Seq<char>) -> Option<u128>;

/// Relies on `uuid::Uuid::parse_str` and `Uuid::as_u128`: the parse depends on
/// the text alone.
#[verifier::external_body]
fn parse_uuid(s: &str) -> (r: Option<u128>)
    ensures
        r == uuid_value(s@),
{
    match uuid::Uuid::parse_str(s) {
        Ok(u) => Some(u.as_u128()),
        Err(_) => None,
    }
}

/// A recording as the database stores it.
pub struct PersistRecord {
    pub id: u128,
    pub owner_id: Option<u128>,
    pub file_path: String,
    pub mime_type: String,
    pub duration_ms: i32,
}

/// The stored form of a descriptor, given what its id and its owner id parse
/// to: fails with `InvalidRecordingId` when the id is no UUID; an owner id that
/// is no UUID leaves the recording without owner.
pub open spec fn persist_spec(d: RecordingDescriptor, id: Option<u128>, owner: Option<u128>) -> Result<(u128, Option<u128>, i32), AudioError> {
    match id {
        None => Err(AudioError::InvalidRecordingId),
        Some(v) => Ok((v, if d.owner_id is Some { owner } else { None }, d.duration_ms as i32)),
    }
}

/// Builds the stored form of a descriptor from the parses of its id and of its
/// owner id (the latter ignored when it has no owner). The duration is
/// narrowed to 32 bits as the database column holds it.
pub fn persist_record_from(d: &RecordingDescriptor, id: Option<u128>, owner: Option<u128>) -> (r: Result<PersistRecord, AudioError>)
    ensures
        match persist_spec(*d, id, owner) {
            Err(e) => r == Err::<PersistRecord, AudioError>(e),
            Ok((v, o, ms)) => r matches Ok(p) && p.id == v && p.owner_id == o && p.duration_ms == ms
                && p.file_path@ == d.file_path@ && p.mime_type@ == d.mime_type@,
        },
{
    match id {
        None => Err(AudioError::InvalidRecordingId),
        Some(v) => {
            let o = if d.owner_id.is_some() {
                owner
            } else {
                None
            };
            Ok(
                PersistRecord {
                    id: v,
                    owner_id: o,
                    file_path: d.file_path.clone(),
                    mime_type: d.mime_type.clone(),
                    duration_ms: d.duration_ms as i32,
                },
            )
        },
    }
}

/// The stored form of a descriptor, its ids parsed as UUIDs.
pub fn persist_record(d: &RecordingDescriptor) -> (r: Result<PersistRecord, AudioError>)
    ensures
        match persist_spec(
            *d,
            uuid_value(d.id@),
            match d.owner_id {
                Some(o) => uuid_value(o@),
                None => None,
            },
        ) {
            Err(e) => r == Err::<PersistRecord, AudioError>(e),
            Ok((v, o, ms)) => r matches Ok(p) && p.id == v && p.owner_id == o && p.duration_ms == ms
                && p.file_path@ == d.file_path@ && p.mime_type@ == d.mime_type@,
        },
{
    let id = parse_uuid(d.id.as_str());
    let owner = match &d.owner_id {
        Some(o) => parse_uuid(o.as_str()),
        None => None,
    };
    persist_record_from(d, id, owner)
}

/// Phases of a recording session.
#[derive(Clone, Copy, Debug, PartialEq, Eq, Structural)]
pub enum SessionPhase {
    Starting,
    Recording,
    Stopping,
    Finalized,
}

/// What moves a session from one phase to the next.
#[derive(Clone, Copy, Debug, PartialEq, Eq, Structural)]
pub enum SessionEvent {
    /// The capture streams play and the writer thread runs.
    StreamsRunning,
    /// `stop` was called.
    StopRequested,
    /// The watchdog found a bound device gone.
    DeviceLost,
    /// The writer drained the buffers, finalized the file, and the threads
    /// were joined.
    Drained,
}

/// The phase a session is in after an event; an event that does not apply to
/// a phase leaves it as it is, and `Finalized` is terminal.
pub open spec fn next_phase_spec(p: SessionPhase, e: SessionEvent) -> SessionPhase {
    match (p, e) {
        (SessionPhase::Starting, SessionEvent::StreamsRunning) => SessionPhase::Recording,
        (SessionPhase::Recording, SessionEvent::StopRequested) => SessionPhase::Stopping,
        (SessionPhase::Recording, SessionEvent::DeviceLost) => SessionPhase::Stopping,
        (SessionPhase::Stopping, SessionEvent::Drained) => SessionPhase::Finalized,
        _ => p,
    }
}

/// Advances a session's phase.
pub fn next_phase(p: SessionPhase, e: SessionEvent) -> (r: SessionPhase)
    ensures
        r == next_phase_spec(p, e),
{
    match (p, e) {
        (SessionPhase::Starting, SessionEvent::StreamsRunning) => SessionPhase::Recording,
        (SessionPhase::Recording, SessionEvent::StopRequested) => SessionPhase::Stopping,
        (SessionPhase::Recording, SessionEvent::DeviceLost) => SessionPhase::Stopping,
        (SessionPhase::Stopping, SessionEvent::Drained) => SessionPhase::Finalized,
        _ => p,
    }
}

} // verus!
