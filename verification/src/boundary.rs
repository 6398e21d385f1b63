//! The calls that a host makes, on handles and texts that may be missing.
//!
//! A missing handle, path or buffer makes a call do nothing. What remains to be done outside is
//! handed back: a worker that is to run, or a processor that is to be reclaimed.

use crate::frame::DEFAULT_MAX_FRAMES;
use crate::gate::Gate;
use crate::handle::{AudioProcessorHandle, RetiredProcessor};
use crate::metadata::{metadata_field, sets_field, slice_text};
use crate::processor::{config_valid, valid_processor_config, AudioProcessor};
use crate::status::AudioProcessorStatus;
use crate::worker::TxWorker;
use vstd::prelude::*;

verus! {

/// What a call makes that asks for a handle with a processor in place: one and the processor's
/// worker, if there is a path and the settings are valid.
pub open spec fn made_handle(
    socket_path: Option<String>,
    channels: u8,
    sample_rate: u32,
    max_frames: usize,
    frame_id: Option<u16>,
    made: Option<(AudioProcessorHandle, TxWorker)>,
) -> bool {
    &&& made is Some <==> socket_path is Some && config_valid(channels, sample_rate, max_frames)
    &&& made matches Some((handle, worker)) ==> {
        &&& handle.wf()
        &&& worker.wf()
        &&& handle.current is Some
        &&& AudioProcessor::made(
            socket_path->0,
            channels,
            sample_rate,
            max_frames,
            frame_id,
            handle.current->0,
            worker,
        )
        &&& handle.gate@ == (Gate { epoch: 1, counts: (0, 0) })
        &&& handle.desired_metadata@ == (None::<Seq<char>>, None::<Seq<char>>)
    }
}

/// What a call makes that asks for a handle for quanta of any size.
pub open spec fn made_for_any_size(
    socket_path: Option<String>,
    channels: u8,
    sample_rate: u32,
    made: Option<(AudioProcessorHandle, TxWorker)>,
) -> bool {
    made_handle(socket_path, channels, sample_rate, DEFAULT_MAX_FRAMES, None, made)
}

/// What a call makes that asks for a handle for quanta of up to a given size.
pub open spec fn made_for_size(
    socket_path: Option<String>,
    channels: u8,
    sample_rate: u32,
    max_frames: usize,
    made: Option<(AudioProcessorHandle, TxWorker)>,
) -> bool {
    made_handle(socket_path, channels, sample_rate, max_frames, None, made)
}

/// What a call makes that asks for a handle whose processor names its stream itself.
pub open spec fn made_for_stream(
    socket_path: Option<String>,
    channels: u8,
    sample_rate: u32,
    frame_id: u16,
    made: Option<(AudioProcessorHandle, TxWorker)>,
) -> bool {
    made_handle(socket_path, channels, sample_rate, DEFAULT_MAX_FRAMES, Some(frame_id), made)
}

/// Makes a handle and puts a processor in place.
pub fn new_initialized_processor_handle(
    socket_path: Option<String>,
    channels: u8,
    sample_rate: u32,
    max_frames: usize,
    frame_id: Option<u16>,
) -> (made: Option<(AudioProcessorHandle, TxWorker)>)
    ensures
        made_handle(socket_path, channels, sample_rate, max_frames, frame_id, made),
{
    let path = match socket_path {
        Some(path) => path,
        None => {
            return None;
        },
    };
    if !valid_processor_config(channels, sample_rate, max_frames) {
        return None;
    }
    let mut handle = AudioProcessorHandle::new();
    let (worker, _) = handle.initialize(path, channels, sample_rate, max_frames, frame_id);
    Some((handle, worker))
}

/// Makes an inactive handle. It stays valid across any number of initializations.
pub fn audio_processor_handle_new() -> (handle: AudioProcessorHandle)
    ensures
        handle.wf(),
        handle.is_new(),
{
    AudioProcessorHandle::new()
}

/// What a call leads to that puts a new processor in place behind the handle `given`: its worker and
/// what was taken out, or nothing and no change if the path is missing or the settings are invalid.
pub open spec fn replaced(
    given: AudioProcessorHandle,
    socket_path: Option<String>,
    channels: u8,
    sample_rate: u32,
    max_frames: usize,
    after: AudioProcessorHandle,
    made: Option<(TxWorker, RetiredProcessor)>,
) -> bool {
    &&& made is Some <==> socket_path is Some && config_valid(channels, sample_rate, max_frames)
    &&& match made {
        Some((worker, retired)) => {
            &&& worker.wf()
            &&& given.initialized(
                socket_path->0,
                channels,
                sample_rate,
                max_frames,
                None,
                after,
                worker,
            )
            &&& retired.was(given)
        },
        None => after == given,
    }
}

/// Puts a new processor in place behind a handle. Returns its worker and what was taken out, unless
/// the handle or the path is missing or the settings are invalid; then nothing changes.
pub fn audio_processor_handle_initialize_preallocated(
    handle: Option<&mut AudioProcessorHandle>,
    socket_path: Option<String>,
    channels: u8,
    sample_rate: u32,
    max_frames: usize,
) -> (made: Option<(TxWorker, RetiredProcessor)>)
    ensures
        handle is None ==> made is None,
        handle matches Some(given) ==> {
            &&& replaced(
                *given,
                socket_path,
                channels,
                sample_rate,
                max_frames,
                *final(given),
                made,
            )
            &&& made is Some ==> final(given).wf()
        },
{
    let handle = match handle {
        Some(handle) => handle,
        None => {
            return None;
        },
    };
    if !valid_processor_config(channels, sample_rate, max_frames) {
        return None;
    }
    match socket_path {
        Some(path) => Some(handle.initialize(path, channels, sample_rate, max_frames, None)),
        None => None,
    }
}

/// What taking over the names `desired` of another handle leads to; without one, nothing changes.
pub open spec fn copied(
    given: AudioProcessorHandle,
    desired: Option<(Option<Seq<char>>, Option<Seq<char>>)>,
    after: AudioProcessorHandle,
    changed: bool,
) -> bool {
    match desired {
        Some(names) => given.named(names, after, changed),
        None => after == given && !changed,
    }
}

/// Takes over the names that are desired of `source`. The destination may be inactive, and shows
/// them after its next initialization. Returns whether a worker has something new.
pub fn audio_processor_handle_copy_track_metadata(
    destination: Option<&mut AudioProcessorHandle>,
    source: Option<&AudioProcessorHandle>,
) -> (changed: bool)
    requires
        destination matches Some(given) ==> given.wf(),
    ensures
        destination is None || source is None ==> !changed,
        destination matches Some(given) ==> {
            &&& final(given).wf()
            &&& copied(
                *given,
                match source {
                    Some(source) => Some(source.desired_metadata@),
                    None => None,
                },
                *final(given),
                changed,
            )
        },
{
    match (destination, source) {
        (Some(destination), Some(source)) => destination.copy_desired_metadata_from(source),
        _ => false,
    }
}

/// Makes a handle whose processor takes quanta of any size that a header can announce.
pub fn audio_processor_new(socket_path: Option<String>, channels: u8, sample_rate: u32) -> (made:
    Option<(AudioProcessorHandle, TxWorker)>)
    ensures
        made_for_any_size(socket_path, channels, sample_rate, made),
{
    new_initialized_processor_handle(socket_path, channels, sample_rate, DEFAULT_MAX_FRAMES, None)
}

/// Makes a handle whose processor names its stream itself.
pub fn audio_processor_new_with_id(
    socket_path: Option<String>,
    channels: u8,
    sample_rate: u32,
    frame_id: u16,
) -> (made: Option<(AudioProcessorHandle, TxWorker)>)
    ensures
        made_for_stream(socket_path, channels, sample_rate, frame_id, made),
{
    new_initialized_processor_handle(
        socket_path,
        channels,
        sample_rate,
        DEFAULT_MAX_FRAMES,
        Some(frame_id),
    )
}

/// Makes a handle whose processor takes quanta of up to `max_frames` samples per channel.
pub fn audio_processor_new_preallocated(
    socket_path: Option<String>,
    channels: u8,
    sample_rate: u32,
    max_frames: usize,
) -> (made: Option<(AudioProcessorHandle, TxWorker)>)
    ensures
        made_for_size(socket_path, channels, sample_rate, max_frames, made),
{
    new_initialized_processor_handle(socket_path, channels, sample_rate, max_frames, None)
}

/// What offering `data` to the handle `given` leads to; missing or empty audio leads to nothing.
pub open spec fn heard(
    given: AudioProcessorHandle,
    data: Option<Seq<u8>>,
    sample_position: i64,
    transport_generation: u32,
    after: AudioProcessorHandle,
    queued: bool,
) -> bool {
    match data {
        Some(data) if data.len() > 0 => given.offered(
            data,
            sample_position,
            transport_generation,
            after,
            queued,
        ),
        _ => after == given && !queued,
    }
}

/// Offers one quantum to the processor in place. Missing or empty audio is not even counted.
/// Returns whether the worker has something new.
pub fn audio_processor_add(
    handle: Option<&mut AudioProcessorHandle>,
    data: Option<&[u8]>,
    sample_position: i64,
    transport_generation: u32,
) -> (queued: bool)
    requires
        handle matches Some(given) ==> given.wf(),
    ensures
        handle is None || data is None || data->0@.len() == 0 ==> !queued,
        handle matches Some(given) ==> {
            &&& final(given).wf()
            &&& heard(
                *given,
                match data {
                    Some(data) => Some(data@),
                    None => None,
                },
                sample_position,
                transport_generation,
                *final(given),
                queued,
            )
        },
{
    match (handle, data) {
        (Some(handle), Some(data)) => if data.len() == 0 {
            false
        } else {
            handle.add(data, sample_position, transport_generation)
        },
        _ => false,
    }
}

/// The flags and counters that a host is shown; without a handle they are idle.
pub open spec fn shown_to_host(handle: Option<AudioProcessorHandle>) -> AudioProcessorStatus {
    match handle {
        Some(given) => given.shown_status(),
        None => AudioProcessorStatus::idle(),
    }
}

/// Reads the flags and counters of the processor in place. Without one they are idle.
pub fn audio_processor_status(handle: Option<&AudioProcessorHandle>) -> (status:
    AudioProcessorStatus)
    ensures
        status == shown_to_host(
            match handle {
                Some(given) => Some(*given),
                None => None,
            },
        ),
{
    match handle {
        Some(handle) => handle.status(),
        None => AudioProcessorStatus::default(),
    }
}

/// What naming the track of the handle `given` leads to: both names are cleaned up, and set.
pub open spec fn titled(
    given: AudioProcessorHandle,
    instance_id: Option<Seq<char>>,
    label: Option<Seq<char>>,
    after: AudioProcessorHandle,
    changed: bool,
) -> bool {
    &&& sets_field(instance_id, after.desired_metadata@.0)
    &&& sets_field(label, after.desired_metadata@.1)
    &&& given.named(after.desired_metadata@, after, changed)
}

/// Names the track. Returns whether the worker has something new.
pub fn audio_processor_set_track_metadata(
    handle: Option<&mut AudioProcessorHandle>,
    instance_id: Option<&str>,
    label: Option<&str>,
) -> (changed: bool)
    requires
        handle matches Some(given) ==> given.wf(),
    ensures
        handle is None ==> !changed,
        handle matches Some(given) ==> {
            &&& final(given).wf()
            &&& titled(
                *given,
                slice_text(instance_id),
                slice_text(label),
                *final(given),
                changed,
            )
        },
{
    match handle {
        Some(handle) => handle.set_track_metadata(
            metadata_field(instance_id),
            metadata_field(label),
        ),
        None => false,
    }
}

/// Takes the processor out of a handle, which stays valid for a later initialization. Returns what
/// was taken out.
pub fn audio_processor_shutdown(handle: Option<&mut AudioProcessorHandle>) -> (retired: Option<
    RetiredProcessor,
>)
    ensures
        retired is Some <==> handle is Some,
        handle matches Some(given) ==> {
            &&& final(given).wf()
            &&& given.vacated(*final(given), retired->0)
        },
{
    match handle {
        Some(handle) => Some(handle.deinitialize()),
        None => None,
    }
}

/// What giving a handle up leads to: what was in place is taken out.
pub open spec fn given_up(
    handle: Option<AudioProcessorHandle>,
    retired: Option<RetiredProcessor>,
) -> bool {
    match handle {
        Some(given) => retired is Some && retired->0.was(given),
        None => retired is None,
    }
}

/// Gives a handle up for good. Returns what was taken out.
pub fn audio_processor_destroy(handle: Option<AudioProcessorHandle>) -> (retired: Option<
    RetiredProcessor,
>)
    ensures
        given_up(handle, retired),
{
    match handle {
        Some(mut handle) => Some(handle.deinitialize()),
        None => None,
    }
}

} // verus!
