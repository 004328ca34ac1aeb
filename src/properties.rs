//! Stream characteristics read from a container's stream-info block.
use vstd::prelude::*;

use lofty::flac::FlacFile;

use crate::flac::{
    container_readable, flac_stream_info, parsed_stream_info, read_container, stream_info, StreamInfo,
};
use crate::types::MediaError;

verus! {

/// A length of time, held in whole milliseconds.
#[derive(Debug, Clone, Copy, PartialEq, Eq, Structural)]
pub struct Duration {
    pub millis: u64,
}

impl Duration {
    pub fn from_millis(millis: u64) -> (r: Duration)
        ensures
            r.millis == millis,
    {
        Duration { millis }
    }

    /// The whole seconds.
    pub fn as_secs(&self) -> (r: u64)
        ensures
            r == self.millis / 1000,
    {
        self.millis / 1000
    }

    pub fn as_millis(&self) -> (r: u64)
        ensures
            r == self.millis,
    {
        self.millis
    }
}

/// The characteristics of an audio stream.
#[derive(Debug, Clone, Copy, PartialEq, Eq, Structural)]
pub struct SongProperties {
    pub duration: Duration,
    pub sample_rate: u32,
    pub bitrate: u32,
    pub overall_bitrate: u32,
    pub bit_depth: u8,
    pub channels: u8,
}

/// The properties that stream-info values give, each as read.
pub open spec fn properties_from(info: StreamInfo) -> SongProperties {
    let (millis, sample_rate, bitrate, overall_bitrate, bit_depth, channels) = info;
    SongProperties {
        duration: Duration { millis },
        sample_rate,
        bitrate,
        overall_bitrate,
        bit_depth,
        channels,
    }
}

/// The properties that a container's stream-info block gives.
pub open spec fn properties_of(f: FlacFile) -> SongProperties {
    properties_from(flac_stream_info(f))
}

/// The properties of a parsed container.
pub fn song_properties_of(file: &FlacFile) -> (r: SongProperties)
    ensures
        r == properties_of(*file),
{
    let (millis, sample_rate, bitrate, overall_bitrate, bit_depth, channels) = stream_info(file);
    SongProperties {
        duration: Duration::from_millis(millis),
        sample_rate,
        bitrate,
        overall_bitrate,
        bit_depth,
        channels,
    }
}

/// The properties of the container held by `data`.
pub fn get_song_properties(data: &Vec<u8>) -> (r: Result<SongProperties, MediaError>)
    ensures
        !container_readable(data@) ==> r == Err::<SongProperties, MediaError>(MediaError::CorruptContainer),
        container_readable(data@) ==> r == Ok::<SongProperties, MediaError>(properties_from(parsed_stream_info(data@))),
{
    match read_container(data) {
        Err(e) => Err(e),
        Ok(f) => Ok(song_properties_of(&f)),
    }
}

/// The duration of the stream in the container held by `data`.
pub fn get_duration(data: &Vec<u8>) -> (r: Result<Duration, MediaError>)
    ensures
        !container_readable(data@) ==> r == Err::<Duration, MediaError>(MediaError::CorruptContainer),
        container_readable(data@) ==> r == Ok::<Duration, MediaError>(properties_from(parsed_stream_info(data@)).duration),
{
    match get_song_properties(data) {
        Ok(p) => Ok(p.duration),
        Err(e) => Err(e),
    }
}

} // verus!
