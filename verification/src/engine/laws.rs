//! What follows from the engine's rules, for every state that its steps can
//! reach and every event.

use crate::engine::rules::after_close;
use crate::engine::rules::after_buffer;
use crate::engine::rules::capture_receives;
use crate::engine::rules::crosslap_amount;
use crate::engine::rules::finalizes;
use crate::engine::rules::in_order;
use crate::engine::rules::mix_passes;
use crate::engine::rules::offers_held;
use crate::engine::rules::resumes_capture;
use crate::engine::rules::resumes_crosslap;
use crate::engine::rules::steps;
use crate::engine::rules::winds_down;
use crate::engine::rules::Event;
use crate::engine::rules::Request;
use crate::engine::state::lemma_prepend_keeps_order;
use crate::engine::state::lemma_push_keeps_order;
use crate::engine::state::lemma_skip_keeps_order;
use crate::engine::state::EngineState;
use crate::engine::state::Phase;
use crate::engine::state::Stage;
use crate::metadata::LoopWindow;
use vstd::prelude::*;

verus! {

/// What holds of a reachable state holds of an engine that has not begun.
pub proof fn lemma_initial_inv<T>(window: LoopWindow, channels: u32)
    requires
        window.left < window.right,
        1 <= channels <= 2,
    ensures
        EngineState::<T>::initial(window, channels).inv(),
{
}

proof fn lemma_winds_down_keeps_inv<T>(s: EngineState<T>, post: EngineState<T>, req: Request<T>)
    requires
        s.sound(),
        s.flushing(),
        winds_down(s, post, req),
    ensures
        post.inv(),
{
    if s.held.len() > 0 {
        lemma_skip_keeps_order(s.held, s.last_tag, s.loop_end());
    }
}

proof fn lemma_finalizes_keeps_inv<T>(s: EngineState<T>, post: EngineState<T>, req: Request<T>)
    requires
        s.sound(),
        s.capturing(),
        s.till_end == 0 || s.source_closed,
        finalizes(s, post, req),
    ensures
        post.inv(),
{
    if s.loop_buf.len() == 0 {
        lemma_winds_down_keeps_inv(s, post, req);
    }
}

proof fn lemma_resumes_capture_keeps_inv<T>(
    s: EngineState<T>,
    post: EngineState<T>,
    req: Request<T>,
)
    requires
        s.sound(),
        s.capturing(),
        resumes_capture(s, post, req),
    ensures
        post.inv(),
{
    if s.till_end == 0 || s.source_closed {
        lemma_finalizes_keeps_inv(s, post, req);
    }
}

proof fn lemma_offers_held_keeps_inv<T>(s: EngineState<T>, post: EngineState<T>, req: Request<T>)
    requires
        s.sound(),
        s.capturing(),
        offers_held(s, post, req),
    ensures
        post.inv(),
{
    if s.held.len() > 0 {
        lemma_skip_keeps_order(s.held, s.last_tag, s.loop_end());
    } else {
        lemma_resumes_capture_keeps_inv(s, post, req);
    }
}

proof fn lemma_capture_keeps_inv<T>(
    s: EngineState<T>,
    v: Seq<T>,
    post: EngineState<T>,
    req: Request<T>,
)
    requires
        s.inv(),
        s.phase == Phase::Capture,
        v.len() <= usize::MAX,
        capture_receives(s, v, post, req),
    ensures
        post.inv(),
{
    let n = v.len() as usize;
    let moved = after_buffer(s, n);
    if n <= s.till_end {
        let next = EngineState {
            till_end: (s.till_end - n) as usize,
            loop_buf: s.loop_buf + v,
            held: s.held.push((s.position, v)),
            ..moved
        };
        lemma_push_keeps_order(s.held, s.last_tag, s.loop_end(), (s.position, v), next.loop_end());
        lemma_offers_held_keeps_inv(next, post, req);
    } else {
        let part = v.take(s.till_end as int);
        let next = EngineState {
            till_end: 0,
            loop_buf: s.loop_buf + part,
            rest: v.skip(s.till_end as int),
            held: s.held.push((s.position, part)),
            ..moved
        };
        lemma_push_keeps_order(
            s.held,
            s.last_tag,
            s.loop_end(),
            (s.position, part),
            next.loop_end(),
        );
        lemma_finalizes_keeps_inv(next, post, req);
    }
}

proof fn lemma_capture_phases_keep_inv<T, M: Fn(T, T) -> T, X: Fn(T, T, usize, usize) -> T>(
    s: EngineState<T>,
    event: Event<T>,
    post: EngineState<T>,
    req: Request<T>,
    mix: &M,
    blend: &X,
)
    requires
        s.inv(),
        s.phase == Phase::CaptureOpen || s.phase == Phase::Capture || s.phase == Phase::Offer,
        steps(s, event, post, req, mix, blend),
    ensures
        post.inv(),
{
    match event {
        Event::Sent => {
            if s.phase == Phase::CaptureOpen {
                lemma_resumes_capture_keeps_inv(s, post, req);
            } else if s.phase == Phase::Offer {
                lemma_offers_held_keeps_inv(s, post, req);
            }
        },
        Event::Received(v) => {
            if s.phase == Phase::Capture {
                assert(v@.len() == v.len());
                lemma_capture_keeps_inv(s, v@, post, req);
            }
        },
        Event::Closed => {
            if s.phase == Phase::Capture {
                lemma_finalizes_keeps_inv(after_close(s), post, req);
            }
        },
        Event::Full(v) => {
            if s.phase == Phase::Offer {
                let entry = (s.in_flight, v@);
                lemma_prepend_keeps_order(s.held, s.last_tag, s.loop_end(), entry);
                lemma_resumes_capture_keeps_inv(
                    EngineState { held: seq![entry] + s.held, ..s },
                    post,
                    req,
                );
            }
        },
        _ => {},
    }
}

proof fn lemma_flush_phases_keep_inv<T, M: Fn(T, T) -> T, X: Fn(T, T, usize, usize) -> T>(
    s: EngineState<T>,
    event: Event<T>,
    post: EngineState<T>,
    req: Request<T>,
    mix: &M,
    blend: &X,
)
    requires
        s.inv(),
        s.phase == Phase::Publish || s.phase == Phase::Flush,
        steps(s, event, post, req, mix, blend),
    ensures
        post.inv(),
{
    if s.held.len() > 0 || s.loop_buf.len() == 0 {
        if (s.phase == Phase::Publish && event is Published) || (s.phase == Phase::Flush
            && event is Sent) {
            lemma_winds_down_keeps_inv(s, post, req);
        }
    }
}

proof fn lemma_smoothing_phases_keep_inv<T, M: Fn(T, T) -> T, X: Fn(T, T, usize, usize) -> T>(
    s: EngineState<T>,
    event: Event<T>,
    post: EngineState<T>,
    req: Request<T>,
    mix: &M,
    blend: &X,
)
    requires
        s.inv(),
        s.phase == Phase::Crosslap || s.phase == Phase::MixPoll || s.phase == Phase::MixSend
            || s.phase == Phase::MixSendMore || s.phase == Phase::MixRecv,
        steps(s, event, post, req, mix, blend),
    ensures
        post.inv(),
{
    if let Event::Received(v) = event {
        assert(v@.len() == v.len());
    }
}

proof fn lemma_other_phases_keep_inv<T, M: Fn(T, T) -> T, X: Fn(T, T, usize, usize) -> T>(
    s: EngineState<T>,
    event: Event<T>,
    post: EngineState<T>,
    req: Request<T>,
    mix: &M,
    blend: &X,
)
    requires
        s.inv(),
        s.phase == Phase::Idle || s.phase == Phase::PreLoop || s.phase == Phase::PreLoopSend
            || s.phase == Phase::RepeatPoll || s.phase == Phase::Repeat || s.phase == Phase::Tail
            || s.phase == Phase::Drain || s.phase == Phase::DrainSend || s.phase
            == Phase::Stopped,
        steps(s, event, post, req, mix, blend),
    ensures
        post.inv(),
{
    if let Event::Received(v) = event {
        assert(v@.len() == v.len());
    }
}

/// The rules keep what holds of a reachable state: a step from a state that
/// steps can reach leads to a state that steps can reach.
pub proof fn lemma_step_keeps_inv<T, M: Fn(T, T) -> T, X: Fn(T, T, usize, usize) -> T>(
    s: EngineState<T>,
    event: Event<T>,
    post: EngineState<T>,
    req: Request<T>,
    mix: &M,
    blend: &X,
)
    requires
        s.inv(),
        steps(s, event, post, req, mix, blend),
    ensures
        post.inv(),
{
    match s.phase {
        Phase::CaptureOpen | Phase::Capture | Phase::Offer => {
            lemma_capture_phases_keep_inv(s, event, post, req, mix, blend);
        },
        Phase::Publish | Phase::Flush => {
            lemma_flush_phases_keep_inv(s, event, post, req, mix, blend);
        },
        Phase::Crosslap
        | Phase::MixPoll
        | Phase::MixSend
        | Phase::MixSendMore
        | Phase::MixRecv => {
            lemma_smoothing_phases_keep_inv(s, event, post, req, mix, blend);
        },
        _ => {
            lemma_other_phases_keep_inv(s, event, post, req, mix, blend);
        },
    }
}

/// The position tags that go downstream never fall, except where a pass
/// over the loop buffer begins: there the tag is the loop's left edge.
pub proof fn lemma_tags_in_order<T, M: Fn(T, T) -> T, X: Fn(T, T, usize, usize) -> T>(
    s: EngineState<T>,
    event: Event<T>,
    post: EngineState<T>,
    req: Request<T>,
    mix: &M,
    blend: &X,
)
    requires
        s.inv(),
        steps(s, event, post, req, mix, blend),
    ensures
        in_order(s, post, req),
        match req.tag() {
            Some(t) => post.last_tag == t,
            None => post.last_tag == s.last_tag,
        },
{
}

/// The loop's end is announced at most once: a step that announces it starts
/// from a state in which it has not been announced, and no step from a state
/// in which it has been announced announces it again.
pub proof fn lemma_end_announced_once<T, M: Fn(T, T) -> T, X: Fn(T, T, usize, usize) -> T>(
    s: EngineState<T>,
    event: Event<T>,
    post: EngineState<T>,
    req: Request<T>,
    mix: &M,
    blend: &X,
)
    requires
        s.inv(),
        steps(s, event, post, req, mix, blend),
    ensures
        req is Publish ==> !s.published && post.published,
        s.published ==> post.published && !(req is Publish),
{
}

/// By the time the loop is replayed, its end has been announced: with the
/// law above, exactly once. What is replayed holds at least one sample. Past
/// the loop, the end has been announced unless nothing was captured.
pub proof fn lemma_announced_before_replay<T>(s: EngineState<T>)
    requires
        s.inv(),
    ensures
        s.phase.stage_of() == Stage::Repeating ==> s.published && s.loop_buf.len() > 0,
        s.phase.stage_of() == Stage::Tail || s.phase.stage_of() == Stage::Drain ==> s.published
            == (s.loop_buf.len() > 0),
{
}

/// A pass that is asked for goes out: when the answer to a poll is yes, the
/// next request hands a chunk of the loop downstream, from the loop's left
/// edge on. The engine never polls twice in a row.
pub proof fn lemma_pass_goes_out<T, M: Fn(T, T) -> T, X: Fn(T, T, usize, usize) -> T>(
    s: EngineState<T>,
    post: EngineState<T>,
    req: Request<T>,
    mix: &M,
    blend: &X,
)
    requires
        s.inv(),
        s.phase == Phase::MixPoll || s.phase == Phase::RepeatPoll,
        steps(s, Event::<T>::Looping(true), post, req, mix, blend),
    ensures
        req is Send,
        req.tag() == Some(s.window.left),
        post.phase.replays(),
{
}

/// When looping is given up, no further pass begins: the answer no to a poll
/// is followed by the tail.
pub proof fn lemma_giving_up_leads_to_tail<T, M: Fn(T, T) -> T, X: Fn(T, T, usize, usize) -> T>(
    s: EngineState<T>,
    post: EngineState<T>,
    req: Request<T>,
    mix: &M,
    blend: &X,
)
    requires
        s.inv(),
        s.phase == Phase::MixPoll || s.phase == Phase::RepeatPoll,
        steps(s, Event::<T>::Looping(false), post, req, mix, blend),
    ensures
        post.phase == Phase::Tail,
        req matches Request::Send { tag, samples } && tag == s.window.left + s.loop_buf.len()
            && samples@ == s.rest,
        post.loop_buf == s.loop_buf,
{
}

/// A buffer that is forwarded as it came, before the loop or after it,
/// carries the number of samples that the decoder delivered before it (as far
/// as the machine can count).
pub proof fn lemma_forwarded_tag_counts<T, M: Fn(T, T) -> T, X: Fn(T, T, usize, usize) -> T>(
    s: EngineState<T>,
    v: Vec<T>,
    post: EngineState<T>,
    req: Request<T>,
    mix: &M,
    blend: &X,
)
    requires
        s.inv(),
        s.phase == Phase::PreLoop || s.phase == Phase::Drain,
        steps(s, Event::Received(v), post, req, mix, blend),
    ensures
        req is Send,
        s.consumed <= usize::MAX ==> req.tag() == Some(s.consumed as usize),
        s.consumed > usize::MAX ==> req.tag() == Some(usize::MAX),
        post.consumed == s.consumed + v@.len(),
        s.phase == Phase::Drain ==> req->Send_samples@ == v@,
{
    assert(v@.len() == v.len());
}

/// A consumer that has gone brings the engine to rest, whatever it was
/// waiting for: that is how the worker learns to stop.
pub proof fn lemma_vanished_consumer_stops<T, M: Fn(T, T) -> T, X: Fn(T, T, usize, usize) -> T>(
    s: EngineState<T>,
    post: EngineState<T>,
    req: Request<T>,
    mix: &M,
    blend: &X,
)
    requires
        s.inv(),
        steps(s, Event::<T>::Gone, post, req, mix, blend),
    ensures
        req is Stop,
        post.phase == Phase::Stopped,
{
}

/// The tail goes out under the tag of the loop's end as it was announced:
/// the number of samples up to the end of what was captured.
pub proof fn lemma_tail_tagged_with_end<T, M: Fn(T, T) -> T, X: Fn(T, T, usize, usize) -> T>(
    s: EngineState<T>,
    event: Event<T>,
    post: EngineState<T>,
    req: Request<T>,
    mix: &M,
    blend: &X,
)
    requires
        s.inv(),
        steps(s, event, post, req, mix, blend),
        post.phase == Phase::Tail,
    ensures
        req.tag() == Some((s.window.left + s.loop_buf.len()) as usize),
        s.till_end == 0 ==> req.tag() == Some(s.window.right),
        req matches Request::Send { tag, samples } && samples@ == s.rest,
{
}

/// The end that is announced is the end of what was captured, and it lies
/// beyond the left edge: a loop that holds nothing is not announced. Where the
/// decoder closed before the window's right edge was reached, that is the
/// number of samples that the decoder delivered in all; else it is the
/// window's right edge.
pub proof fn lemma_announced_end<T, M: Fn(T, T) -> T, X: Fn(T, T, usize, usize) -> T>(
    s: EngineState<T>,
    event: Event<T>,
    post: EngineState<T>,
    req: Request<T>,
    mix: &M,
    blend: &X,
)
    requires
        s.inv(),
        steps(s, event, post, req, mix, blend),
        req is Publish,
    ensures
        req->right == post.window.left + post.loop_buf.len(),
        post.window.left < req->right <= post.window.right,
        post.loop_buf.len() > 0,
        post.till_end > 0 ==> post.source_closed && req->right == post.consumed,
        post.till_end == 0 ==> req->right == post.window.right,
{
}

/// A stream without loop tags loops from its first sample, and the end that
/// is announced for it is the number of samples that the decoder delivered
/// before it closed (as far as the machine can count them).
pub proof fn lemma_untagged_end<T, M: Fn(T, T) -> T, X: Fn(T, T, usize, usize) -> T>(
    s: EngineState<T>,
    event: Event<T>,
    post: EngineState<T>,
    req: Request<T>,
    mix: &M,
    blend: &X,
)
    requires
        s.inv(),
        s.window.left == 0,
        s.window.right == usize::MAX,
        steps(s, event, post, req, mix, blend),
        req is Publish,
    ensures
        post.consumed < usize::MAX ==> post.source_closed && req->right == post.consumed,
        post.consumed >= usize::MAX ==> req->right == usize::MAX,
{
    lemma_announced_end(s, event, post, req, mix, blend);
}

/// Once the loop's end has been announced, the loop buffer keeps its length
/// for good.
pub proof fn lemma_loop_length_fixed<T, M: Fn(T, T) -> T, X: Fn(T, T, usize, usize) -> T>(
    s: EngineState<T>,
    event: Event<T>,
    post: EngineState<T>,
    req: Request<T>,
    mix: &M,
    blend: &X,
)
    requires
        s.inv(),
        s.published,
        steps(s, event, post, req, mix, blend),
    ensures
        post.loop_buf.len() == s.loop_buf.len(),
{
}

proof fn lemma_crosslap_keeps<T, X: Fn(T, T, usize, usize) -> T>(
    s: EngineState<T>,
    post: EngineState<T>,
    req: Request<T>,
    blend: &X,
    j: int,
)
    requires
        resumes_crosslap(s, post, req, blend) || post.loop_buf =~= s.loop_buf,
        crosslap_amount(s) <= j < s.loop_buf.len(),
    ensures
        post.loop_buf[j] == s.loop_buf[j],
{
    let amount = crosslap_amount(s);
    if s.rest.len() >= amount && resumes_crosslap(s, post, req, blend) {
        assert(post.loop_buf.skip(amount)[j - amount] == post.loop_buf[j]);
        assert(s.loop_buf.skip(amount)[j - amount] == s.loop_buf[j]);
    }
}

/// Cross-lap leaves the loop buffer as it was captured but for its first 32
/// frames: no step changes a sample beyond them.
pub proof fn lemma_crosslap_keeps_body<T, M: Fn(T, T) -> T, X: Fn(T, T, usize, usize) -> T>(
    s: EngineState<T>,
    event: Event<T>,
    post: EngineState<T>,
    req: Request<T>,
    mix: &M,
    blend: &X,
    j: int,
)
    requires
        s.inv(),
        s.published,
        !s.window.mix,
        steps(s, event, post, req, mix, blend),
        crosslap_amount(s) <= j < s.loop_buf.len(),
    ensures
        post.loop_buf[j] == s.loop_buf[j],
{
    match s.phase {
        Phase::Publish | Phase::Flush => {
            lemma_crosslap_keeps(s, post, req, blend, j);
        },
        Phase::Crosslap => {
            match event {
                Event::Received(v) => {
                    lemma_crosslap_keeps(
                        EngineState { rest: s.rest + v@, ..after_buffer(s, v@.len() as usize) },
                        post,
                        req,
                        blend,
                        j,
                    );
                },
                Event::Closed => {
                    lemma_crosslap_keeps(after_close(s), post, req, blend, j);
                },
                _ => {},
            }
        },
        _ => {},
    }
}

proof fn lemma_mix_pass_adds<T, M: Fn(T, T) -> T>(
    s: EngineState<T>,
    post: EngineState<T>,
    req: Request<T>,
    mix: &M,
    j: int,
)
    requires
        s.cursor <= s.loop_buf.len(),
        mix_passes(s, post, req, mix),
        0 <= j < s.loop_buf.len(),
    ensures
        post.loop_buf.len() == s.loop_buf.len(),
        post.loop_buf[j] == s.loop_buf[j] || exists|t: T| #[trigger]
            mix.ensures((s.loop_buf[j], t), post.loop_buf[j]),
{
    let remaining = s.loop_buf.len() - s.cursor;
    if remaining > 0 {
        let c = s.cursor as int;
        let n = if remaining < s.incoming.len() {
            remaining
        } else {
            s.incoming.len() as int
        };
        if j < c {
            assert(post.loop_buf.take(c)[j] == s.loop_buf.take(c)[j]);
        } else if j >= c + n {
            assert(post.loop_buf.skip(c + n)[j - c - n] == post.loop_buf[j]);
            assert(s.loop_buf.skip(c + n)[j - c - n] == s.loop_buf[j]);
        } else {
            let before = s.loop_buf.subrange(c, c + n);
            let after = post.loop_buf.subrange(c, c + n);
            let t = s.incoming.take(n)[j - c];
            assert(mix.ensures((before[j - c], t), after[j - c]));
            assert(before[j - c] == s.loop_buf[j]);
            assert(after[j - c] == post.loop_buf[j]);
        }
    }
}

/// Loop-mix neither shrinks nor reorders the loop buffer: after a step every
/// sample is the one that stood there before, or that one mixed with one
/// sample of the tail.
pub proof fn lemma_mix_only_adds<T, M: Fn(T, T) -> T, X: Fn(T, T, usize, usize) -> T>(
    s: EngineState<T>,
    event: Event<T>,
    post: EngineState<T>,
    req: Request<T>,
    mix: &M,
    blend: &X,
    j: int,
)
    requires
        s.inv(),
        s.published,
        s.window.mix,
        steps(s, event, post, req, mix, blend),
        0 <= j < s.loop_buf.len(),
    ensures
        post.loop_buf.len() == s.loop_buf.len(),
        post.loop_buf[j] == s.loop_buf[j] || exists|t: T| #[trigger]
            mix.ensures((s.loop_buf[j], t), post.loop_buf[j]),
{
    match s.phase {
        Phase::MixPoll => {
            if let Event::Looping(again) = event {
                if again {
                    lemma_mix_pass_adds(EngineState { cursor: 0, ..s }, post, req, mix, j);
                }
            }
        },
        Phase::MixSend => {
            if event is Sent {
                lemma_mix_pass_adds(s, post, req, mix, j);
            }
        },
        Phase::MixRecv => {
            if let Event::Received(v) = event {
                lemma_mix_pass_adds(
                    EngineState {
                        incoming: v@,
                        rest: s.rest + v@,
                        ..after_buffer(s, v@.len() as usize)
                    },
                    post,
                    req,
                    mix,
                    j,
                );
            }
        },
        _ => {},
    }
}

} // verus!
