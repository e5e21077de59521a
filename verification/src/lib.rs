//! Endless, seamless playback of one looping audio track.
//!
//! A track is decoded into interleaved sample buffers, a loop window is
//! settled from the stream's tags or found by decoding, the loop is captured
//! and its seam smoothed, and the resulting endless stream is handed, rate
//! matched, to the audio device's callback.
//!
//! This library holds the decisions of that chain, each stage as a machine
//! that is told what happened and says what to do next:
//!
//! - [`metadata`]: the stream's format and its loop tags;
//! - [`decode`]: staging decoded packets;
//! - [`engine`]: the loop engine;
//! - [`resample`]: the resampler stage;
//! - [`playback`]: the device callback;
//! - [`progress`] and [`am_unicode`]: the progress line;
//! - [`terminate`]: the termination level that every stage looks at;
//! - [`samples`]: the buffer operations that the stages share.
//!
//! Samples are of any copyable type. Arithmetic on single samples is handed
//! in by the caller; queues, threads, files and devices are the caller's.

use vstd::prelude::*;

pub mod am_unicode;
pub mod decode;
pub mod engine;
pub mod metadata;
pub mod playback;
pub mod progress;
pub mod resample;
pub mod samples;
pub mod terminate;

verus! {

/// How many buffers each hand-off queue between two stages may hold.
pub const NUM_PACKETS_BUFFERED: usize = 30;

} // verus!
