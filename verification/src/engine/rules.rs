//! What the loop engine asks for, what it is told, and the rules by which one
//! state follows another.
//!
//! The engine never waits and never touches a queue. It asks its driver for
//! one thing at a time (a [`Request`]), the driver does it and reports the
//! outcome (an [`Event`]). The rules below say, for every state and every
//! event, which state comes next and what is asked for next.

use crate::engine::state::EngineState;
use crate::engine::state::Phase;
use crate::metadata::capped_sum;
use crate::samples::crosslapped;
use crate::samples::mixed;
use vstd::prelude::*;

verus! {

/// How many frames the cross-lap blends at most; the ramp runs over their
/// samples.
pub const DESIRED_CROSSLAP_AMOUNT: usize = 32;

/// How many samples a replayed chunk of the loop holds at most.
pub const REPLAY_CHUNK: usize = 4096;

/// What the engine asks its driver to do next.
#[derive(Debug)]
pub enum Request<T> {
    /// Take the next buffer from the decoder, waiting for it. Answered by
    /// `Received` or `Closed`.
    Receive,
    /// Hand the buffer downstream, waiting for room. Answered by `Sent` or
    /// `Gone`.
    Send { tag: usize, samples: Vec<T> },
    /// Hand the buffer downstream if there is room right now. Answered by
    /// `Sent`, `Full` or `Gone`.
    Offer { tag: usize, samples: Vec<T> },
    /// Announce where the loop ends. Answered by `Published`.
    Publish { right: usize },
    /// Find out whether looping is still wanted. Answered by `Looping`.
    Poll,
    /// Nothing more: the worker is done.
    Stop,
}

/// What the driver tells the engine.
#[derive(Debug)]
pub enum Event<T> {
    /// The worker has started.
    Begin,
    /// The decoder delivered this buffer.
    Received(Vec<T>),
    /// The decoder has closed its queue.
    Closed,
    /// The buffer was taken downstream.
    Sent,
    /// There was no room downstream; here is the buffer back.
    Full(Vec<T>),
    /// Nobody is left downstream.
    Gone,
    /// The loop's end has been announced.
    Published,
    /// Whether looping is still wanted.
    Looping(bool),
}

impl<T> Request<T> {
    /// The tag of the buffer that the request hands downstream, if it hands one.
    pub open spec fn tag(self) -> Option<usize> {
        match self {
            Request::Send { tag, samples } => Some(tag),
            Request::Offer { tag, samples } => Some(tag),
            _ => None,
        }
    }
}

/// The engine comes to rest.
pub open spec fn stops<T>(s: EngineState<T>, post: EngineState<T>, req: Request<T>) -> bool {
    &&& post =~~= (EngineState { phase: Phase::Stopped, ..s })
    &&& req is Stop
}

/// The engine asks for decoded audio and waits in `phase`.
pub open spec fn receives<T>(
    s: EngineState<T>,
    phase: Phase,
    post: EngineState<T>,
    req: Request<T>,
) -> bool {
    &&& post =~~= (EngineState { phase, ..s })
    &&& req is Receive
}

/// The engine asks whether to loop and waits in `phase`.
pub open spec fn polls<T>(
    s: EngineState<T>,
    phase: Phase,
    post: EngineState<T>,
    req: Request<T>,
) -> bool {
    &&& post =~~= (EngineState { phase, ..s })
    &&& req is Poll
}

/// The engine hands `samples` downstream under `tag` and waits in `phase`.
pub open spec fn sends<T>(
    s: EngineState<T>,
    phase: Phase,
    tag: usize,
    samples: Seq<T>,
    post: EngineState<T>,
    req: Request<T>,
) -> bool {
    &&& post =~~= (EngineState { phase, last_tag: tag, ..s })
    &&& req matches Request::Send { tag: t, samples: v } && t == tag && v@ =~= samples
}

/// Before the loop: ask for more audio, or open the loop where its left edge
/// has been reached. The loop opens with what the buffer that reached the
/// edge held beyond it, sent under the left edge's tag.
pub open spec fn resumes_pre_loop<T>(
    s: EngineState<T>,
    post: EngineState<T>,
    req: Request<T>,
) -> bool {
    if s.till_start > 0 {
        receives(s, Phase::PreLoop, post, req)
    } else {
        sends(s, Phase::CaptureOpen, s.window.left, s.loop_buf, post, req)
    }
}

/// The tail goes downstream: what was decoded beyond the loop, under the tag
/// of the loop's end.
pub open spec fn sends_tail<T>(s: EngineState<T>, post: EngineState<T>, req: Request<T>) -> bool {
    sends(
        EngineState { rest: Seq::empty(), ..s },
        Phase::Tail,
        s.loop_end() as usize,
        s.rest,
        post,
        req,
    )
}

/// The oldest held buffer goes downstream, however long that takes; where
/// none is held, the tail does.
pub open spec fn winds_down<T>(s: EngineState<T>, post: EngineState<T>, req: Request<T>) -> bool {
    if s.held.len() > 0 {
        sends(
            EngineState { held: s.held.skip(1), ..s },
            Phase::Flush,
            s.held[0].0,
            s.held[0].1,
            post,
            req,
        )
    } else {
        sends_tail(s, post, req)
    }
}

/// The capture is over. The end of a loop that holds at least one sample is
/// announced. Where nothing was captured there is no loop: nothing is
/// announced and nothing will be replayed.
pub open spec fn finalizes<T>(s: EngineState<T>, post: EngineState<T>, req: Request<T>) -> bool {
    if s.loop_buf.len() == 0 {
        winds_down(s, post, req)
    } else {
        &&& post =~~= (EngineState { phase: Phase::Publish, published: true, ..s })
        &&& req matches Request::Publish { right } && right == s.window.left + s.loop_buf.len()
    }
}

/// Inside the loop: ask for more audio, unless the loop is complete or the
/// decoder has closed.
pub open spec fn resumes_capture<T>(
    s: EngineState<T>,
    post: EngineState<T>,
    req: Request<T>,
) -> bool {
    if s.till_end == 0 || s.source_closed {
        finalizes(s, post, req)
    } else {
        receives(s, Phase::Capture, post, req)
    }
}

/// Racing: offer the oldest held buffer, or go on capturing where none is held.
pub open spec fn offers_held<T>(s: EngineState<T>, post: EngineState<T>, req: Request<T>) -> bool {
    if s.held.len() > 0 {
        &&& post =~~= (EngineState {
            phase: Phase::Offer,
            held: s.held.skip(1),
            in_flight: s.held[0].0,
            last_tag: s.held[0].0,
            ..s
        })
        &&& req matches Request::Offer { tag, samples } && tag == s.held[0].0 && samples@
            =~= s.held[0].1
    } else {
        resumes_capture(s, post, req)
    }
}

/// How many samples the cross-lap blends: 32 frames, or the whole loop where
/// it is shorter.
pub open spec fn crosslap_amount<T>(s: EngineState<T>) -> int {
    if DESIRED_CROSSLAP_AMOUNT * s.channels <= s.loop_buf.len() {
        DESIRED_CROSSLAP_AMOUNT * s.channels
    } else {
        s.loop_buf.len() as int
    }
}

/// Cross-lap: gather audio from after the loop until there is enough of it,
/// then blend the loop's start with it and begin to replay. Where the decoder
/// closes before there is enough, the loop stays as it was captured.
pub open spec fn resumes_crosslap<T, X: Fn(T, T, usize, usize) -> T>(
    s: EngineState<T>,
    post: EngineState<T>,
    req: Request<T>,
    blend: &X,
) -> bool {
    let amount = crosslap_amount(s);
    if s.rest.len() < amount {
        if s.source_closed {
            polls(s, Phase::RepeatPoll, post, req)
        } else {
            receives(s, Phase::Crosslap, post, req)
        }
    } else {
        &&& crosslapped(
            s.loop_buf.take(amount),
            s.rest.take(amount),
            post.loop_buf.take(amount),
            blend,
        )
        &&& post.loop_buf.len() == s.loop_buf.len()
        &&& post.loop_buf.skip(amount) =~= s.loop_buf.skip(amount)
        &&& polls(EngineState { loop_buf: post.loop_buf, ..s }, Phase::RepeatPoll, post, req)
    }
}

/// The held buffers go downstream in order. After the last of them the seam
/// of the loop is smoothed: by mixing, pass by pass, or by one cross-lap.
/// Where there is no loop, the tail follows at once.
pub open spec fn flushes<T, X: Fn(T, T, usize, usize) -> T>(
    s: EngineState<T>,
    post: EngineState<T>,
    req: Request<T>,
    blend: &X,
) -> bool {
    if s.held.len() > 0 || s.loop_buf.len() == 0 {
        winds_down(s, post, req)
    } else if s.window.mix {
        polls(EngineState { incoming: s.rest, cursor: 0, ..s }, Phase::MixPoll, post, req)
    } else {
        resumes_crosslap(s, post, req, blend)
    }
}

/// How many samples the next replayed chunk holds.
pub open spec fn chunk_len<T>(s: EngineState<T>) -> int {
    if s.loop_buf.len() - s.cursor < REPLAY_CHUNK {
        s.loop_buf.len() - s.cursor
    } else {
        REPLAY_CHUNK as int
    }
}

/// Replay: hand on the next chunk of the loop, tagged with its offset; at the
/// loop's end, ask whether another pass is wanted.
pub open spec fn repeats<T>(s: EngineState<T>, post: EngineState<T>, req: Request<T>) -> bool {
    if s.cursor < s.loop_buf.len() {
        sends(
            EngineState { cursor: (s.cursor + chunk_len(s)) as usize, ..s },
            Phase::Repeat,
            (s.window.left + s.cursor) as usize,
            s.loop_buf.subrange(s.cursor as int, s.cursor + chunk_len(s)),
            post,
            req,
        )
    } else {
        polls(s, Phase::RepeatPoll, post, req)
    }
}

/// Loop-mix: mix the tail audio at hand onto the loop from the cursor on and
/// hand the mixed stretch downstream. Where the tail audio outlasts the loop,
/// what is left of it waits for the next pass; else more of it is needed.
pub open spec fn mix_passes<T, M: Fn(T, T) -> T>(
    s: EngineState<T>,
    post: EngineState<T>,
    req: Request<T>,
    mix: &M,
) -> bool {
    let remaining = s.loop_buf.len() - s.cursor;
    if remaining == 0 {
        polls(s, Phase::MixPoll, post, req)
    } else {
        let n = if remaining < s.incoming.len() {
            remaining
        } else {
            s.incoming.len() as int
        };
        &&& post.loop_buf.len() == s.loop_buf.len()
        &&& post.loop_buf.take(s.cursor as int) =~= s.loop_buf.take(s.cursor as int)
        &&& post.loop_buf.skip(s.cursor + n) =~= s.loop_buf.skip(s.cursor + n)
        &&& mixed(
            s.loop_buf.subrange(s.cursor as int, s.cursor + n),
            s.incoming.take(n),
            post.loop_buf.subrange(s.cursor as int, s.cursor + n),
            mix,
        )
        &&& if remaining < s.incoming.len() {
            sends(
                EngineState {
                    loop_buf: post.loop_buf,
                    cursor: (s.cursor + n) as usize,
                    incoming: s.incoming.skip(n),
                    ..s
                },
                Phase::MixSend,
                (s.window.left + s.cursor) as usize,
                post.loop_buf.subrange(s.cursor as int, s.cursor + n),
                post,
                req,
            )
        } else {
            sends(
                EngineState { loop_buf: post.loop_buf, cursor: (s.cursor + n) as usize, ..s },
                Phase::MixSendMore,
                (s.window.left + s.cursor) as usize,
                post.loop_buf.subrange(s.cursor as int, s.cursor + n),
                post,
                req,
            )
        }
    }
}

/// After the loop: forward what the decoder still delivers, until it closes.
pub open spec fn resumes_drain<T>(s: EngineState<T>, post: EngineState<T>, req: Request<T>) -> bool {
    if s.source_closed {
        stops(s, post, req)
    } else {
        receives(s, Phase::Drain, post, req)
    }
}

/// The state once the decoder has delivered a buffer of `n` samples: the
/// position moves on by `n`, as far as the machine can count.
pub open spec fn after_buffer<T>(s: EngineState<T>, n: usize) -> EngineState<T> {
    EngineState { consumed: s.consumed + n as nat, position: capped_sum(s.position, n), ..s }
}

/// The state once the decoder has been seen to close.
pub open spec fn after_close<T>(s: EngineState<T>) -> EngineState<T> {
    EngineState { source_closed: true, ..s }
}

/// Before the loop, a buffer arrives. One that ends at or before the left
/// edge goes downstream whole. One that crosses it is cut there: the part
/// before the edge goes downstream, the part inside the window opens the
/// loop, and what lies beyond the right edge, if anything, is kept as the
/// start of the tail.
pub open spec fn pre_loop_receives<T>(
    s: EngineState<T>,
    v: Seq<T>,
    post: EngineState<T>,
    req: Request<T>,
) -> bool {
    let n = v.len() as usize;
    let moved = after_buffer(s, n);
    if n <= s.till_start {
        sends(
            EngineState { till_start: (s.till_start - n) as usize, ..moved },
            Phase::PreLoopSend,
            s.position,
            v,
            post,
            req,
        )
    } else {
        let inside = if n - s.till_start <= s.till_end {
            n - s.till_start
        } else {
            s.till_end as int
        };
        sends(
            EngineState {
                till_start: 0,
                till_end: (s.till_end - inside) as usize,
                loop_buf: v.subrange(s.till_start as int, s.till_start + inside),
                rest: v.skip(s.till_start + inside),
                ..moved
            },
            Phase::PreLoopSend,
            s.position,
            v.take(s.till_start as int),
            post,
            req,
        )
    }
}

/// Inside the loop, a buffer arrives. One that ends at or before the right
/// edge joins the loop whole and is held for downstream. One that crosses
/// the edge is cut there: the part inside joins the loop and is held, the
/// part beyond starts the tail, and the loop is complete.
pub open spec fn capture_receives<T>(
    s: EngineState<T>,
    v: Seq<T>,
    post: EngineState<T>,
    req: Request<T>,
) -> bool {
    let n = v.len() as usize;
    let moved = after_buffer(s, n);
    if n <= s.till_end {
        offers_held(
            EngineState {
                till_end: (s.till_end - n) as usize,
                loop_buf: s.loop_buf + v,
                held: s.held.push((s.position, v)),
                ..moved
            },
            post,
            req,
        )
    } else {
        finalizes(
            EngineState {
                till_end: 0,
                loop_buf: s.loop_buf + v.take(s.till_end as int),
                rest: v.skip(s.till_end as int),
                held: s.held.push((s.position, v.take(s.till_end as int))),
                ..moved
            },
            post,
            req,
        )
    }
}

/// The tags that the engine hands downstream never fall, except where a
/// pass over the loop buffer begins again at the loop's left edge.
pub open spec fn in_order<T>(s: EngineState<T>, post: EngineState<T>, req: Request<T>) -> bool {
    match req.tag() {
        Some(t) => s.last_tag <= t || (t == s.window.left && post.phase.replays()),
        None => true,
    }
}

/// The rules: from state `s` and `event` to state `post` and request `req`.
/// An event that does not answer what the engine was waiting for, and the
/// news that nobody is left downstream, bring the engine to rest.
pub open spec fn steps<T, M: Fn(T, T) -> T, X: Fn(T, T, usize, usize) -> T>(
    s: EngineState<T>,
    event: Event<T>,
    post: EngineState<T>,
    req: Request<T>,
    mix: &M,
    blend: &X,
) -> bool {
    match s.phase {
        Phase::Idle => match event {
            Event::Begin => resumes_pre_loop(s, post, req),
            _ => stops(s, post, req),
        },
        Phase::PreLoop => match event {
            Event::Received(v) => pre_loop_receives(s, v@, post, req),
            Event::Closed => stops(after_close(s), post, req),
            _ => stops(s, post, req),
        },
        Phase::PreLoopSend => match event {
            Event::Sent => resumes_pre_loop(s, post, req),
            _ => stops(s, post, req),
        },
        Phase::CaptureOpen => match event {
            Event::Sent => resumes_capture(s, post, req),
            _ => stops(s, post, req),
        },
        Phase::Capture => match event {
            Event::Received(v) => capture_receives(s, v@, post, req),
            Event::Closed => finalizes(after_close(s), post, req),
            _ => stops(s, post, req),
        },
        Phase::Offer => match event {
            Event::Sent => offers_held(s, post, req),
            Event::Full(v) => resumes_capture(
                EngineState { held: seq![(s.in_flight, v@)] + s.held, ..s },
                post,
                req,
            ),
            _ => stops(s, post, req),
        },
        Phase::Publish => match event {
            Event::Published => flushes(s, post, req, blend),
            _ => stops(s, post, req),
        },
        Phase::Flush => match event {
            Event::Sent => flushes(s, post, req, blend),
            _ => stops(s, post, req),
        },
        Phase::Crosslap => match event {
            Event::Received(v) => resumes_crosslap(
                EngineState { rest: s.rest + v@, ..after_buffer(s, v@.len() as usize) },
                post,
                req,
                blend,
            ),
            Event::Closed => resumes_crosslap(after_close(s), post, req, blend),
            _ => stops(s, post, req),
        },
        Phase::MixPoll => match event {
            Event::Looping(again) => if again {
                mix_passes(EngineState { cursor: 0, ..s }, post, req, mix)
            } else {
                sends_tail(s, post, req)
            },
            _ => stops(s, post, req),
        },
        Phase::MixSend => match event {
            Event::Sent => mix_passes(s, post, req, mix),
            _ => stops(s, post, req),
        },
        Phase::MixSendMore => match event {
            Event::Sent => if s.source_closed {
                repeats(s, post, req)
            } else {
                receives(s, Phase::MixRecv, post, req)
            },
            _ => stops(s, post, req),
        },
        Phase::MixRecv => match event {
            Event::Received(v) => mix_passes(
                EngineState {
                    incoming: v@,
                    rest: s.rest + v@,
                    ..after_buffer(s, v@.len() as usize)
                },
                post,
                req,
                mix,
            ),
            Event::Closed => repeats(after_close(s), post, req),
            _ => stops(s, post, req),
        },
        Phase::RepeatPoll => match event {
            Event::Looping(again) => if again {
                repeats(EngineState { cursor: 0, ..s }, post, req)
            } else {
                sends_tail(s, post, req)
            },
            _ => stops(s, post, req),
        },
        Phase::Repeat => match event {
            Event::Sent => repeats(s, post, req),
            _ => stops(s, post, req),
        },
        Phase::Tail => match event {
            Event::Sent => resumes_drain(s, post, req),
            _ => stops(s, post, req),
        },
        Phase::Drain => match event {
            Event::Received(v) => sends(
                after_buffer(s, v@.len() as usize),
                Phase::DrainSend,
                s.position,
                v@,
                post,
                req,
            ),
            Event::Closed => stops(after_close(s), post, req),
            _ => stops(s, post, req),
        },
        Phase::DrainSend => match event {
            Event::Sent => resumes_drain(s, post, req),
            _ => stops(s, post, req),
        },
        Phase::Stopped => stops(s, post, req),
    }
}

} // verus!
