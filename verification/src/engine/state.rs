//! The loop engine's state, as the contracts see it, and what must hold of it.

use crate::metadata::LoopWindow;
use vstd::prelude::*;

verus! {

/// Where the engine stands: what it has asked for and is waiting to hear of.
#[derive(Debug, Clone, Copy, PartialEq, Eq, Structural)]
pub enum Phase {
    /// Nothing has been asked for yet.
    Idle,
    /// Before the loop: waiting for decoded audio.
    PreLoop,
    /// Before the loop: waiting for a buffer to be taken downstream.
    PreLoopSend,
    /// At the left edge: waiting for the loop's first buffer to be taken.
    CaptureOpen,
    /// Inside the loop, racing for its end: waiting for decoded audio.
    Capture,
    /// Racing: waiting to hear whether a held buffer was taken at once.
    Offer,
    /// The loop's end is known: waiting for it to be announced.
    Publish,
    /// Waiting for a held buffer to be taken, however long that takes.
    Flush,
    /// Cross-lap: waiting for audio from after the loop.
    Crosslap,
    /// Loop-mix: waiting to hear whether another pass is wanted.
    MixPoll,
    /// Loop-mix: waiting for the pass's last mixed chunk to be taken.
    MixSend,
    /// Loop-mix: waiting for a mixed chunk to be taken; more tail audio is needed then.
    MixSendMore,
    /// Loop-mix: waiting for tail audio.
    MixRecv,
    /// Replay: waiting to hear whether another pass is wanted.
    RepeatPoll,
    /// Replay: waiting for a chunk of the loop to be taken.
    Repeat,
    /// Waiting for the tail to be taken.
    Tail,
    /// After the loop: waiting for decoded audio to forward.
    Drain,
    /// After the loop: waiting for a forwarded buffer to be taken.
    DrainSend,
    /// The engine has come to rest.
    Stopped,
}

/// The stretch of the stream that the engine is in.
#[derive(Debug, Clone, Copy, PartialEq, Eq, Structural)]
pub enum Stage {
    /// Before the loop's left edge.
    PreLoop,
    /// Inside the window, racing ahead to find the loop's end.
    Capturing,
    /// The loop's end is known: it is announced, held buffers go out, and
    /// the seam is smoothed.
    Finalized,
    /// The loop buffer is replayed.
    Repeating,
    /// The audio from after the loop goes out.
    Tail,
    /// What the decoder still has is forwarded.
    Drain,
    /// The engine has come to rest.
    Terminal,
}

/// The engine's state as a mathematical value.
#[verifier::ext_equal]
pub struct EngineState<T> {
    /// The window the engine was made for.
    pub window: LoopWindow,
    /// One for mono, two for stereo.
    pub channels: u32,
    pub phase: Phase,
    /// Samples still to pass before the loop begins.
    pub till_start: usize,
    /// Samples still to capture before the loop ends.
    pub till_end: usize,
    /// The tag that the next buffer from the decoder gets.
    pub position: usize,
    /// How far into the loop buffer the current pass has come.
    pub cursor: usize,
    /// The tag of the buffer that was last offered without waiting.
    pub in_flight: usize,
    /// Whether the decoder has been seen to close.
    pub source_closed: bool,
    /// Whether the loop's end has been announced.
    pub published: bool,
    /// The captured loop.
    pub loop_buf: Seq<T>,
    /// Audio from after the loop, in the order it was decoded.
    pub rest: Seq<T>,
    /// Loop-mix: tail audio that has not been mixed in yet.
    pub incoming: Seq<T>,
    /// Buffers held back during the race, oldest first, each with its tag.
    pub held: Seq<(usize, Seq<T>)>,
    /// How many samples the decoder has delivered so far.
    pub consumed: nat,
    /// The tag of the buffer that was last handed downstream.
    pub last_tag: usize,
}

impl Phase {
    /// The stretch of the stream that a phase belongs to.
    pub open spec fn stage_of(self) -> Stage {
        match self {
            Phase::Idle | Phase::PreLoop | Phase::PreLoopSend => Stage::PreLoop,
            Phase::CaptureOpen | Phase::Capture | Phase::Offer => Stage::Capturing,
            Phase::Publish | Phase::Flush | Phase::Crosslap => Stage::Finalized,
            Phase::MixPoll
            | Phase::MixSend
            | Phase::MixSendMore
            | Phase::MixRecv
            | Phase::RepeatPoll
            | Phase::Repeat => Stage::Repeating,
            Phase::Tail => Stage::Tail,
            Phase::Drain | Phase::DrainSend => Stage::Drain,
            Phase::Stopped => Stage::Terminal,
        }
    }

    /// The stretch of the stream that the phase belongs to.
    pub fn stage(&self) -> (stage: Stage)
        ensures
            stage == self.stage_of(),
    {
        match self {
            Phase::Idle | Phase::PreLoop | Phase::PreLoopSend => Stage::PreLoop,
            Phase::CaptureOpen | Phase::Capture | Phase::Offer => Stage::Capturing,
            Phase::Publish | Phase::Flush | Phase::Crosslap => Stage::Finalized,
            Phase::MixPoll
            | Phase::MixSend
            | Phase::MixSendMore
            | Phase::MixRecv
            | Phase::RepeatPoll
            | Phase::Repeat => Stage::Repeating,
            Phase::Tail => Stage::Tail,
            Phase::Drain | Phase::DrainSend => Stage::Drain,
            Phase::Stopped => Stage::Terminal,
        }
    }

    /// The phases in which a chunk of the loop buffer is on its way downstream.
    pub open spec fn replays(self) -> bool {
        self == Phase::MixSend || self == Phase::MixSendMore || self == Phase::Repeat
    }
}

impl<T> EngineState<T> {
    /// The state of an engine that has not begun.
    pub open spec fn initial(window: LoopWindow, channels: u32) -> Self {
        EngineState {
            window,
            channels,
            phase: Phase::Idle,
            till_start: window.left,
            till_end: (window.right - window.left) as usize,
            position: 0,
            cursor: 0,
            in_flight: 0,
            source_closed: false,
            published: false,
            loop_buf: Seq::empty(),
            rest: Seq::empty(),
            incoming: Seq::empty(),
            held: Seq::empty(),
            consumed: 0,
            last_tag: 0,
        }
    }

    /// The offset just past the captured loop.
    pub open spec fn loop_end(self) -> int {
        self.window.left + self.loop_buf.len()
    }

    /// What holds in every phase: the window is not empty, and the captured
    /// loop and what is still to capture make up the window exactly.
    pub open spec fn sound(self) -> bool {
        &&& self.window.left < self.window.right
        &&& 1 <= self.channels <= 2
        &&& self.loop_buf.len() + self.till_end == self.window.right - self.window.left
        &&& self.cursor <= self.loop_buf.len()
    }

    /// The decoder's position relative to the window.
    pub open spec fn positioned(self) -> bool {
        &&& self.till_start > 0 ==> self.position + self.till_start == self.window.left
            && self.loop_buf.len() == 0
        &&& self.till_start == 0 && self.till_end > 0 ==> self.position == self.loop_end()
        &&& self.till_start == 0 && self.till_end == 0 ==> self.position >= self.window.right
    }

    /// The position counts every sample that the decoder has delivered, as
    /// far as the machine can count.
    pub open spec fn counted(self) -> bool {
        self.position == if self.consumed > usize::MAX {
            usize::MAX as nat
        } else {
            self.consumed
        }
    }

    /// The held buffers carry rising tags, none below the last tag handed
    /// downstream and none beyond the captured loop.
    pub open spec fn held_in_order(self) -> bool {
        tags_in_order(self.held, self.last_tag, self.loop_end())
    }

    /// Before the loop's left edge.
    pub open spec fn before_loop(self) -> bool {
        &&& self.till_start > 0
        &&& self.positioned()
        &&& self.counted()
        &&& !self.published
        &&& self.last_tag <= self.position
        &&& self.held.len() == 0
        &&& self.rest.len() == 0
    }

    /// At the left edge, the buffer that reaches it still on its way.
    pub open spec fn at_left_edge(self) -> bool {
        &&& self.till_start == 0
        &&& self.positioned()
        &&& self.counted()
        &&& !self.published
        &&& self.last_tag <= self.window.left
        &&& self.held.len() == 0
    }

    /// Inside the loop, its end not yet known.
    pub open spec fn capturing(self) -> bool {
        &&& self.till_start == 0
        &&& self.positioned()
        &&& self.counted()
        &&& !self.published
        &&& self.held_in_order()
    }

    /// The capture is over, held buffers still to hand on. The end of a
    /// loop that holds at least one sample has been announced; of a loop
    /// that holds none there is no end to announce.
    pub open spec fn flushing(self) -> bool {
        &&& self.till_start == 0
        &&& self.positioned()
        &&& self.counted()
        &&& self.till_end == 0 || self.source_closed
        &&& self.held_in_order()
        &&& self.published == (self.loop_buf.len() > 0)
    }

    /// The loop's end announced and nothing held back.
    pub open spec fn settled(self) -> bool {
        &&& self.flushing()
        &&& self.held.len() == 0
        &&& self.published
    }

    /// In the middle of a pass over the loop buffer.
    pub open spec fn passing(self) -> bool {
        &&& self.settled()
        &&& self.last_tag <= self.window.left + self.cursor
    }

    /// Past the loop for good.
    pub open spec fn leaving(self) -> bool {
        &&& self.till_start == 0
        &&& self.positioned()
        &&& self.counted()
        &&& self.till_end == 0 || self.source_closed
        &&& self.held.len() == 0
        &&& self.published == (self.loop_buf.len() > 0)
        &&& !self.source_closed ==> self.last_tag <= self.position
    }

    /// What holds of the state in its phase.
    pub open spec fn inv(self) -> bool {
        &&& self.sound()
        &&& match self.phase {
            Phase::Idle => self == Self::initial(self.window, self.channels),
            Phase::PreLoop => self.before_loop(),
            Phase::PreLoopSend => self.before_loop() || self.at_left_edge(),
            Phase::CaptureOpen => self.capturing(),
            Phase::Capture => self.capturing() && self.till_end > 0,
            Phase::Offer => self.capturing() && self.last_tag == self.in_flight,
            Phase::Publish => self.flushing() && self.published,
            Phase::Flush => self.flushing(),
            Phase::Crosslap => self.settled() && !self.window.mix && !self.source_closed,
            Phase::RepeatPoll => self.settled(),
            Phase::MixPoll => self.settled() && self.window.mix,
            Phase::MixSend | Phase::MixSendMore => self.passing() && self.window.mix,
            Phase::MixRecv => self.passing() && self.window.mix && !self.source_closed,
            Phase::Repeat => self.passing(),
            Phase::Tail | Phase::DrainSend => self.leaving(),
            Phase::Drain => self.leaving() && !self.source_closed,
            Phase::Stopped => true,
        }
    }
}

/// The tags of held buffers rise, and all lie from `low` to `high`.
pub open spec fn tags_in_order<T>(held: Seq<(usize, Seq<T>)>, low: usize, high: int) -> bool {
    &&& low <= high
    &&& forall|i: int| 0 <= i < held.len() ==> low <= (#[trigger] held[i]).0 <= high
    &&& forall|i: int, j: int|
        0 <= i <= j < held.len() ==> (#[trigger] held[i]).0 <= (#[trigger] held[j]).0
}

/// A buffer tagged at or beyond the old upper bound may join the held
/// buffers at their end.
pub proof fn lemma_push_keeps_order<T>(
    held: Seq<(usize, Seq<T>)>,
    low: usize,
    high: int,
    entry: (usize, Seq<T>),
    higher: int,
)
    requires
        tags_in_order(held, low, high),
        high <= entry.0 <= higher,
    ensures
        tags_in_order(held.push(entry), low, higher),
{
    let grown = held.push(entry);
    assert forall|i: int| 0 <= i < grown.len() implies low <= (#[trigger] grown[i]).0
        <= higher by {
        if i < held.len() {
            assert(grown[i] == held[i]);
        }
    }
    assert forall|i: int, j: int| 0 <= i <= j < grown.len() implies (#[trigger] grown[i]).0 <= (
    #[trigger] grown[j]).0 by {
        if i < held.len() {
            assert(grown[i] == held[i]);
        }
        if j < held.len() {
            assert(grown[j] == held[j]);
        }
    }
}

/// Once the oldest held buffer has gone downstream, the others are in order
/// from its tag on.
pub proof fn lemma_skip_keeps_order<T>(held: Seq<(usize, Seq<T>)>, low: usize, high: int)
    requires
        tags_in_order(held, low, high),
        held.len() > 0,
    ensures
        tags_in_order(held.skip(1), held[0].0, high),
{
    let rest = held.skip(1);
    assert forall|i: int| 0 <= i < rest.len() implies held[0].0 <= (#[trigger] rest[i]).0
        <= high by {
        assert(rest[i] == held[i + 1]);
    }
    assert forall|i: int, j: int| 0 <= i <= j < rest.len() implies (#[trigger] rest[i]).0 <= (
    #[trigger] rest[j]).0 by {
        assert(rest[i] == held[i + 1]);
        assert(rest[j] == held[j + 1]);
    }
}

/// A buffer that was handed back goes to the front again, under the tag it
/// was offered with.
pub proof fn lemma_prepend_keeps_order<T>(
    held: Seq<(usize, Seq<T>)>,
    low: usize,
    high: int,
    entry: (usize, Seq<T>),
)
    requires
        tags_in_order(held, low, high),
        entry.0 == low,
    ensures
        tags_in_order(seq![entry] + held, low, high),
{
    let grown = seq![entry] + held;
    assert forall|i: int| 0 <= i < grown.len() implies low <= (#[trigger] grown[i]).0
        <= high by {
        if i > 0 {
            assert(grown[i] == held[i - 1]);
        }
    }
    assert forall|i: int, j: int| 0 <= i <= j < grown.len() implies (#[trigger] grown[i]).0 <= (
    #[trigger] grown[j]).0 by {
        if i > 0 {
            assert(grown[i] == held[i - 1]);
        }
        if j > 0 {
            assert(grown[j] == held[j - 1]);
        }
    }
}

} // verus!
