//! Staging decoded packets: from one buffer per channel to one interleaved
//! buffer.

use crate::samples::interleave;
use crate::samples::interleaved;
use vstd::prelude::*;

verus! {

/// Why a decoded packet cannot be staged.
#[derive(Debug, Clone, Copy, PartialEq, Eq, Structural)]
pub enum StageError {
    /// The packet does not have one buffer per channel of the stream.
    ChannelMismatch,
    /// The packet's two channels differ in length.
    UnevenChannels,
    /// The stream has a channel count other than one or two.
    UnhandledChannelCount,
}

/// A packet that carries no audio: no channel at all, or an empty first channel.
pub open spec fn is_empty_packet<T>(packet: Seq<Vec<T>>) -> bool {
    packet.len() == 0 || packet[0]@.len() == 0
}

/// What staging a packet gives: nothing for a packet without audio, the
/// channel itself for mono, the two channels interleaved for stereo.
pub open spec fn staged<T>(packet: Seq<Vec<T>>, channel_count: u32) -> Result<
    Option<Seq<T>>,
    StageError,
> {
    if is_empty_packet(packet) {
        Ok(None)
    } else if channel_count == 1 {
        if packet.len() == 1 {
            Ok(Some(packet[0]@))
        } else {
            Err(StageError::ChannelMismatch)
        }
    } else if channel_count == 2 {
        if packet.len() != 2 {
            Err(StageError::ChannelMismatch)
        } else if packet[0]@.len() != packet[1]@.len() {
            Err(StageError::UnevenChannels)
        } else {
            Ok(Some(interleaved(packet[0]@, packet[1]@)))
        }
    } else {
        Err(StageError::UnhandledChannelCount)
    }
}

/// What an optional buffer holds.
pub open spec fn samples_of<T>(buffer: Option<Vec<T>>) -> Option<Seq<T>> {
    match buffer {
        Some(v) => Some(v@),
        None => None,
    }
}

/// What a staging result holds.
pub open spec fn staging_of<T>(r: Result<Option<Vec<T>>, StageError>) -> Result<
    Option<Seq<T>>,
    StageError,
> {
    match r {
        Ok(buffer) => Ok(samples_of(buffer)),
        Err(e) => Err(e),
    }
}

/// Turns a decoded packet, one buffer per channel, into the interleaved
/// buffer that goes downstream. A packet without audio gives `None` and is
/// to be skipped.
pub fn stage_packet<T: Copy>(packet: Vec<Vec<T>>, channel_count: u32) -> (r: Result<
    Option<Vec<T>>,
    StageError,
>)
    ensures
        staging_of(r) == staged(packet@, channel_count),
{
    let mut packet = packet;
    if packet.len() == 0 || packet[0].len() == 0 {
        return Ok(None);
    }
    if channel_count == 1 {
        if packet.len() != 1 {
            return Err(StageError::ChannelMismatch);
        }
        match packet.pop() {
            Some(mono) => Ok(Some(mono)),
            None => Err(StageError::ChannelMismatch),
        }
    } else if channel_count == 2 {
        if packet.len() != 2 {
            return Err(StageError::ChannelMismatch);
        }
        if packet[0].len() != packet[1].len() {
            return Err(StageError::UnevenChannels);
        }
        Ok(Some(interleave(&packet[0], &packet[1])))
    } else {
        Err(StageError::UnhandledChannelCount)
    }
}

} // verus!
