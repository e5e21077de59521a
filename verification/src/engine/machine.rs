//! The loop engine itself: the state it keeps and the step it takes.

use crate::engine::rules::after_buffer;
use crate::engine::rules::after_close;
use crate::engine::rules::capture_receives;
use crate::engine::rules::finalizes;
use crate::engine::rules::flushes;
use crate::engine::rules::in_order;
use crate::engine::rules::mix_passes;
use crate::engine::rules::offers_held;
use crate::engine::rules::pre_loop_receives;
use crate::engine::rules::repeats;
use crate::engine::rules::resumes_capture;
use crate::engine::rules::resumes_crosslap;
use crate::engine::rules::resumes_drain;
use crate::engine::rules::resumes_pre_loop;
use crate::engine::rules::sends;
use crate::engine::rules::sends_tail;
use crate::engine::rules::steps;
use crate::engine::rules::stops;
use crate::engine::rules::winds_down;
use crate::engine::rules::Event;
use crate::engine::rules::Request;
use crate::engine::rules::DESIRED_CROSSLAP_AMOUNT;
use crate::engine::rules::REPLAY_CHUNK;
use crate::engine::state::lemma_prepend_keeps_order;
use crate::engine::state::lemma_push_keeps_order;
use crate::engine::state::lemma_skip_keeps_order;
use crate::engine::state::EngineState;
use crate::engine::state::Phase;
use crate::metadata::LoopWindow;
use crate::samples::accepts_ramps;
use crate::samples::accepts_pairs;
use crate::samples::copy_range;
use crate::samples::crosslap_onto;
use crate::samples::extend_from_range;
use crate::samples::mix_onto;
use crate::samples::mixed;
use std::collections::VecDeque;
use vstd::prelude::*;
use vstd::slice::slice_subrange;

verus! {

/// The loop engine. It turns the decoder's buffers into the stream that is
/// played: the audio before the loop once, the loop for as long as looping is
/// wanted, then the tail and whatever the decoder still has.
pub struct LoopEngine<T> {
    window: LoopWindow,
    channels: u32,
    phase: Phase,
    till_start: usize,
    till_end: usize,
    position: usize,
    cursor: usize,
    in_flight: usize,
    source_closed: bool,
    loop_buf: Vec<T>,
    rest: Vec<T>,
    incoming: Vec<T>,
    held: VecDeque<(usize, Vec<T>)>,
    published: Ghost<bool>,
    consumed: Ghost<nat>,
    last_tag: Ghost<usize>,
}

/// The held buffers as tags and sample sequences.
spec fn held_view<T>(q: Seq<(usize, Vec<T>)>) -> Seq<(usize, Seq<T>)> {
    Seq::new(q.len(), |i: int| (q[i].0, q[i].1@))
}

impl<T> View for LoopEngine<T> {
    type V = EngineState<T>;

    closed spec fn view(&self) -> EngineState<T> {
        EngineState {
            window: self.window,
            channels: self.channels,
            phase: self.phase,
            till_start: self.till_start,
            till_end: self.till_end,
            position: self.position,
            cursor: self.cursor,
            in_flight: self.in_flight,
            source_closed: self.source_closed,
            published: self.published@,
            loop_buf: self.loop_buf@,
            rest: self.rest@,
            incoming: self.incoming@,
            held: held_view(self.held@),
            consumed: self.consumed@,
            last_tag: self.last_tag@,
        }
    }
}

fn mix_window<T: Copy, M: Fn(T, T) -> T>(
    buf: &mut Vec<T>,
    at: usize,
    inc: &Vec<T>,
    n: usize,
    mix: &M,
)
    requires
        at + n <= old(buf)@.len(),
        n <= inc@.len(),
        accepts_pairs(mix),
    ensures
        final(buf)@.len() == old(buf)@.len(),
        final(buf)@.take(at as int) =~= old(buf)@.take(at as int),
        final(buf)@.skip(at + n) =~= old(buf)@.skip(at + n),
        mixed(
            old(buf)@.subrange(at as int, at + n),
            inc@.take(n as int),
            final(buf)@.subrange(at as int, at + n),
            mix,
        ),
{
    let (_head, tail) = buf.as_mut_slice().split_at_mut(at);
    let (window, _after) = tail.split_at_mut(n);
    let src = slice_subrange(inc.as_slice(), 0, n);
    mix_onto(window, src, mix);
}

impl<T: Copy> LoopEngine<T> {
    /// Whether the engine's state is one that its own steps can have led to.
    pub open spec fn wf(&self) -> bool {
        self@.inv()
    }

    /// An engine for the given window, which must hold at least one sample,
    /// and for one or two channels. It has not asked for anything yet.
    pub fn new(window: LoopWindow, channels: u32) -> (engine: Self)
        requires
            window.left < window.right,
            1 <= channels <= 2,
        ensures
            engine@ == EngineState::<T>::initial(window, channels),
            engine.wf(),
    {
        let engine = LoopEngine {
            window,
            channels,
            phase: Phase::Idle,
            till_start: window.left,
            till_end: window.right - window.left,
            position: 0,
            cursor: 0,
            in_flight: 0,
            source_closed: false,
            loop_buf: Vec::new(),
            rest: Vec::new(),
            incoming: Vec::new(),
            held: VecDeque::new(),
            published: Ghost(false),
            consumed: Ghost(0nat),
            last_tag: Ghost(0usize),
        };
        assert(engine@ =~~= EngineState::<T>::initial(window, channels));
        engine
    }

    /// What the engine is waiting for.
    pub fn phase(&self) -> (phase: Phase)
        ensures
            phase == self@.phase,
    {
        self.phase
    }

    /// How many samples of the loop have been captured.
    pub fn loop_len(&self) -> (len: usize)
        ensures
            len == self@.loop_buf.len(),
    {
        self.loop_buf.len()
    }

    fn stop(&mut self) -> (req: Request<T>)
        requires
            old(self)@.sound(),
        ensures
            stops(old(self)@, final(self)@, req),
            final(self).wf(),
    {
        self.phase = Phase::Stopped;
        Request::Stop
    }

    fn close_and_stop(&mut self) -> (req: Request<T>)
        requires
            old(self)@.sound(),
        ensures
            stops(after_close(old(self)@), final(self)@, req),
            final(self).wf(),
    {
        self.source_closed = true;
        self.phase = Phase::Stopped;
        Request::Stop
    }

    fn send(&mut self, phase: Phase, tag: usize, samples: Vec<T>) -> (req: Request<T>)
        ensures
            sends(old(self)@, phase, tag, samples@, final(self)@, req),
    {
        self.phase = phase;
        self.last_tag = Ghost(tag);
        Request::Send { tag, samples }
    }

    fn resume_pre_loop(&mut self) -> (req: Request<T>)
        requires
            old(self)@.sound(),
            old(self)@.before_loop() || old(self)@.at_left_edge(),
        ensures
            resumes_pre_loop(old(self)@, final(self)@, req),
            final(self).wf(),
            in_order(old(self)@, final(self)@, req),
    {
        if self.till_start > 0 {
            self.phase = Phase::PreLoop;
            Request::Receive
        } else {
            let chunk = copy_range(&self.loop_buf, 0, self.loop_buf.len());
            assert(chunk@ =~= self.loop_buf@);
            let tag = self.window.left;
            self.send(Phase::CaptureOpen, tag, chunk)
        }
    }

    fn on_pre_loop_received(&mut self, v: Vec<T>) -> (req: Request<T>)
        requires
            old(self)@.sound(),
            old(self)@.before_loop(),
        ensures
            pre_loop_receives(old(self)@, v@, final(self)@, req),
            final(self).wf(),
            in_order(old(self)@, final(self)@, req),
    {
        let n: usize = v.len();
        let tag: usize = self.position;
        self.position = self.position.saturating_add(n);
        self.consumed = Ghost((self.consumed@ + n) as nat);
        if n <= self.till_start {
            self.till_start = self.till_start - n;
            self.send(Phase::PreLoopSend, tag, v)
        } else {
            let ts: usize = self.till_start;
            let inside: usize = if n - ts <= self.till_end {
                n - ts
            } else {
                self.till_end
            };
            self.loop_buf = copy_range(&v, ts, ts + inside);
            self.rest = copy_range(&v, ts + inside, n);
            self.till_end = self.till_end - inside;
            self.till_start = 0;
            let mut head = v;
            head.truncate(ts);
            self.send(Phase::PreLoopSend, tag, head)
        }
    }

    fn send_tail(&mut self) -> (req: Request<T>)
        requires
            old(self)@.sound(),
            old(self)@.flushing(),
            old(self)@.held.len() == 0,
        ensures
            sends_tail(old(self)@, final(self)@, req),
            final(self).wf(),
            in_order(old(self)@, final(self)@, req),
    {
        let mut tail: Vec<T> = Vec::new();
        tail.append(&mut self.rest);
        assert(tail@ =~= old(self)@.rest);
        let tag: usize = self.window.left + self.loop_buf.len();
        self.send(Phase::Tail, tag, tail)
    }

    fn wind_down(&mut self) -> (req: Request<T>)
        requires
            old(self)@.sound(),
            old(self)@.flushing(),
        ensures
            winds_down(old(self)@, final(self)@, req),
            final(self).wf(),
            in_order(old(self)@, final(self)@, req),
    {
        match self.held.pop_front() {
            Some((tag, samples)) => {
                assert(self@.held =~~= old(self)@.held.skip(1));
                assert(old(self)@.held[0] == (tag, samples@));
                proof {
                    lemma_skip_keeps_order(
                        old(self)@.held,
                        old(self)@.last_tag,
                        old(self)@.loop_end(),
                    );
                }
                self.send(Phase::Flush, tag, samples)
            },
            None => self.send_tail(),
        }
    }

    fn finalize(&mut self) -> (req: Request<T>)
        requires
            old(self)@.sound(),
            old(self)@.capturing(),
            old(self)@.till_end == 0 || old(self)@.source_closed,
        ensures
            finalizes(old(self)@, final(self)@, req),
            final(self).wf(),
            in_order(old(self)@, final(self)@, req),
    {
        if self.loop_buf.len() == 0 {
            self.wind_down()
        } else {
            self.published = Ghost(true);
            self.phase = Phase::Publish;
            Request::Publish { right: self.window.left + self.loop_buf.len() }
        }
    }

    fn resume_capture(&mut self) -> (req: Request<T>)
        requires
            old(self)@.sound(),
            old(self)@.capturing(),
        ensures
            resumes_capture(old(self)@, final(self)@, req),
            final(self).wf(),
            in_order(old(self)@, final(self)@, req),
    {
        if self.till_end == 0 || self.source_closed {
            self.finalize()
        } else {
            self.phase = Phase::Capture;
            Request::Receive
        }
    }

    fn offer_held(&mut self) -> (req: Request<T>)
        requires
            old(self)@.sound(),
            old(self)@.capturing(),
        ensures
            offers_held(old(self)@, final(self)@, req),
            final(self).wf(),
            in_order(old(self)@, final(self)@, req),
    {
        match self.held.pop_front() {
            Some((tag, samples)) => {
                self.in_flight = tag;
                self.last_tag = Ghost(tag);
                self.phase = Phase::Offer;
                assert(self@.held =~~= old(self)@.held.skip(1));
                assert(old(self)@.held[0] == (tag, samples@));
                proof {
                    lemma_skip_keeps_order(
                        old(self)@.held,
                        old(self)@.last_tag,
                        old(self)@.loop_end(),
                    );
                }
                Request::Offer { tag, samples }
            },
            None => self.resume_capture(),
        }
    }

    fn on_capture_received(&mut self, v: Vec<T>) -> (req: Request<T>)
        requires
            old(self)@.sound(),
            old(self)@.capturing(),
            old(self)@.till_end > 0,
        ensures
            capture_receives(old(self)@, v@, final(self)@, req),
            final(self).wf(),
            in_order(old(self)@, final(self)@, req),
    {
        let n: usize = v.len();
        let tag: usize = self.position;
        self.position = self.position.saturating_add(n);
        self.consumed = Ghost((self.consumed@ + n) as nat);
        if n <= self.till_end {
            self.till_end = self.till_end - n;
            extend_from_range(&mut self.loop_buf, &v, 0, n);
            assert(v@.subrange(0, n as int) =~= v@);
            self.held.push_back((tag, v));
            assert(self@.held =~~= old(self)@.held.push((tag, v@)));
            proof {
                lemma_push_keeps_order(
                    old(self)@.held,
                    old(self)@.last_tag,
                    old(self)@.loop_end(),
                    (tag, v@),
                    self@.loop_end(),
                );
            }
            self.offer_held()
        } else {
            let te: usize = self.till_end;
            extend_from_range(&mut self.loop_buf, &v, 0, te);
            self.rest = copy_range(&v, te, n);
            let mut head = v;
            head.truncate(te);
            self.held.push_back((tag, head));
            self.till_end = 0;
            assert(self@.held =~~= old(self)@.held.push((tag, v@.take(te as int))));
            proof {
                lemma_push_keeps_order(
                    old(self)@.held,
                    old(self)@.last_tag,
                    old(self)@.loop_end(),
                    (tag, v@.take(te as int)),
                    self@.loop_end(),
                );
            }
            self.finalize()
        }
    }

    fn on_capture_closed(&mut self) -> (req: Request<T>)
        requires
            old(self)@.sound(),
            old(self)@.capturing(),
        ensures
            finalizes(after_close(old(self)@), final(self)@, req),
            final(self).wf(),
            in_order(old(self)@, final(self)@, req),
    {
        self.source_closed = true;
        self.finalize()
    }

    fn on_offer_full(&mut self, v: Vec<T>) -> (req: Request<T>)
        requires
            old(self)@.sound(),
            old(self)@.capturing(),
            old(self)@.last_tag == old(self)@.in_flight,
        ensures
            resumes_capture(
                EngineState {
                    held: seq![(old(self)@.in_flight, v@)] + old(self)@.held,
                    ..old(self)@
                },
                final(self)@,
                req,
            ),
            final(self).wf(),
            in_order(old(self)@, final(self)@, req),
    {
        let tag: usize = self.in_flight;
        self.held.push_front((tag, v));
        assert(self@.held =~~= seq![(tag, v@)] + old(self)@.held);
        proof {
            lemma_prepend_keeps_order(
                old(self)@.held,
                old(self)@.last_tag,
                old(self)@.loop_end(),
                (tag, v@),
            );
        }
        self.resume_capture()
    }

    fn resume_crosslap<X: Fn(T, T, usize, usize) -> T>(&mut self, blend: &X) -> (req: Request<T>)
        requires
            old(self)@.sound(),
            old(self)@.settled(),
            !old(self)@.window.mix,
            accepts_ramps(blend),
        ensures
            resumes_crosslap(old(self)@, final(self)@, req, blend),
            final(self).wf(),
            in_order(old(self)@, final(self)@, req),
    {
        let want: usize = DESIRED_CROSSLAP_AMOUNT * (self.channels as usize);
        let amount: usize = if want <= self.loop_buf.len() {
            want
        } else {
            self.loop_buf.len()
        };
        if self.rest.len() < amount {
            if self.source_closed {
                self.phase = Phase::RepeatPoll;
                Request::Poll
            } else {
                self.phase = Phase::Crosslap;
                Request::Receive
            }
        } else {
            let (window, _after) = self.loop_buf.as_mut_slice().split_at_mut(amount);
            let src = slice_subrange(self.rest.as_slice(), 0, amount);
            crosslap_onto(window, src, blend);
            self.phase = Phase::RepeatPoll;
            Request::Poll
        }
    }

    fn flush<X: Fn(T, T, usize, usize) -> T>(&mut self, blend: &X) -> (req: Request<T>)
        requires
            old(self)@.sound(),
            old(self)@.flushing(),
            accepts_ramps(blend),
        ensures
            flushes(old(self)@, final(self)@, req, blend),
            final(self).wf(),
            in_order(old(self)@, final(self)@, req),
    {
        assert(self@.held.len() == self.held@.len());
        if self.held.len() > 0 || self.loop_buf.len() == 0 {
            self.wind_down()
        } else if self.window.mix {
            self.incoming = copy_range(&self.rest, 0, self.rest.len());
            assert(self.incoming@ =~= self.rest@);
            self.cursor = 0;
            self.phase = Phase::MixPoll;
            Request::Poll
        } else {
            self.resume_crosslap(blend)
        }
    }

    fn on_crosslap_received<X: Fn(T, T, usize, usize) -> T>(
        &mut self,
        v: Vec<T>,
        blend: &X,
    ) -> (req: Request<T>)
        requires
            old(self)@.sound(),
            old(self)@.settled(),
            !old(self)@.window.mix,
            !old(self)@.source_closed,
            accepts_ramps(blend),
        ensures
            resumes_crosslap(
                EngineState {
                    rest: old(self)@.rest + v@,
                    ..after_buffer(old(self)@, v@.len() as usize)
                },
                final(self)@,
                req,
                blend,
            ),
            final(self).wf(),
            in_order(old(self)@, final(self)@, req),
    {
        let mut v = v;
        let n: usize = v.len();
        self.position = self.position.saturating_add(n);
        self.consumed = Ghost((self.consumed@ + n) as nat);
        self.rest.append(&mut v);
        self.resume_crosslap(blend)
    }

    fn on_crosslap_closed<X: Fn(T, T, usize, usize) -> T>(&mut self, blend: &X) -> (req: Request<
        T,
    >)
        requires
            old(self)@.sound(),
            old(self)@.settled(),
            !old(self)@.window.mix,
            accepts_ramps(blend),
        ensures
            resumes_crosslap(after_close(old(self)@), final(self)@, req, blend),
            final(self).wf(),
            in_order(old(self)@, final(self)@, req),
    {
        self.source_closed = true;
        self.resume_crosslap(blend)
    }

    fn repeat(&mut self) -> (req: Request<T>)
        requires
            old(self)@.sound(),
            old(self)@.settled(),
            old(self)@.passing() || old(self)@.cursor == 0,
        ensures
            repeats(old(self)@, final(self)@, req),
            final(self).wf(),
            in_order(old(self)@, final(self)@, req),
    {
        let len: usize = self.loop_buf.len();
        if self.cursor < len {
            let n: usize = if len - self.cursor < REPLAY_CHUNK {
                len - self.cursor
            } else {
                REPLAY_CHUNK
            };
            let chunk = copy_range(&self.loop_buf, self.cursor, self.cursor + n);
            let tag: usize = self.window.left + self.cursor;
            self.cursor = self.cursor + n;
            self.send(Phase::Repeat, tag, chunk)
        } else {
            self.phase = Phase::RepeatPoll;
            Request::Poll
        }
    }

    fn mix_pass<M: Fn(T, T) -> T>(&mut self, mix: &M) -> (req: Request<T>)
        requires
            old(self)@.sound(),
            old(self)@.settled(),
            old(self)@.passing() || old(self)@.cursor == 0,
            old(self)@.window.mix,
            accepts_pairs(mix),
        ensures
            mix_passes(old(self)@, final(self)@, req, mix),
            final(self).wf(),
            in_order(old(self)@, final(self)@, req),
    {
        let len: usize = self.loop_buf.len();
        if self.cursor == len {
            self.phase = Phase::MixPoll;
            return Request::Poll;
        }
        let remaining: usize = len - self.cursor;
        let at: usize = self.cursor;
        let tag: usize = self.window.left + at;
        if remaining < self.incoming.len() {
            mix_window(&mut self.loop_buf, at, &self.incoming, remaining, mix);
            let chunk = copy_range(&self.loop_buf, at, len);
            self.incoming = copy_range(&self.incoming, remaining, self.incoming.len());
            self.cursor = len;
            self.send(Phase::MixSend, tag, chunk)
        } else {
            let n: usize = self.incoming.len();
            mix_window(&mut self.loop_buf, at, &self.incoming, n, mix);
            let chunk = copy_range(&self.loop_buf, at, at + n);
            self.cursor = at + n;
            self.send(Phase::MixSendMore, tag, chunk)
        }
    }

    fn on_mix_received<M: Fn(T, T) -> T>(&mut self, v: Vec<T>, mix: &M) -> (req: Request<T>)
        requires
            old(self)@.sound(),
            old(self)@.passing(),
            old(self)@.window.mix,
            !old(self)@.source_closed,
            accepts_pairs(mix),
        ensures
            mix_passes(
                EngineState {
                    incoming: v@,
                    rest: old(self)@.rest + v@,
                    ..after_buffer(old(self)@, v@.len() as usize)
                },
                final(self)@,
                req,
                mix,
            ),
            final(self).wf(),
            in_order(old(self)@, final(self)@, req),
    {
        let n: usize = v.len();
        self.position = self.position.saturating_add(n);
        self.consumed = Ghost((self.consumed@ + n) as nat);
        extend_from_range(&mut self.rest, &v, 0, n);
        assert(v@.subrange(0, v@.len() as int) =~= v@);
        self.incoming = v;
        self.mix_pass(mix)
    }

    fn on_repeat_poll(&mut self, again: bool) -> (req: Request<T>)
        requires
            old(self)@.sound(),
            old(self)@.settled(),
        ensures
            if again {
                repeats(EngineState { cursor: 0, ..old(self)@ }, final(self)@, req)
            } else {
                sends_tail(old(self)@, final(self)@, req)
            },
            final(self).wf(),
            in_order(old(self)@, final(self)@, req),
    {
        if again {
            self.cursor = 0;
            self.repeat()
        } else {
            self.send_tail()
        }
    }

    fn resume_drain(&mut self) -> (req: Request<T>)
        requires
            old(self)@.sound(),
            old(self)@.leaving(),
        ensures
            resumes_drain(old(self)@, final(self)@, req),
            final(self).wf(),
            in_order(old(self)@, final(self)@, req),
    {
        if self.source_closed {
            self.stop()
        } else {
            self.phase = Phase::Drain;
            Request::Receive
        }
    }

    fn on_drain_received(&mut self, v: Vec<T>) -> (req: Request<T>)
        requires
            old(self)@.sound(),
            old(self)@.leaving(),
            !old(self)@.source_closed,
        ensures
            sends(
                after_buffer(old(self)@, v@.len() as usize),
                Phase::DrainSend,
                old(self)@.position,
                v@,
                final(self)@,
                req,
            ),
            final(self).wf(),
            in_order(old(self)@, final(self)@, req),
    {
        let n: usize = v.len();
        let tag: usize = self.position;
        self.position = self.position.saturating_add(n);
        self.consumed = Ghost((self.consumed@ + n) as nat);
        self.send(Phase::DrainSend, tag, v)
    }

    /// Takes one step: hears what became of the last request and says what
    /// to do next. `mix` adds a sample of the tail to a sample of the loop
    /// (loop-mix); `blend` fades a sample of the tail into a sample of the
    /// loop by the sample's place in the ramp (cross-lap).
    ///
    /// The state and the request follow the rules; the state stays one that
    /// steps can reach; and the tags handed downstream stay in order.
    pub fn step<M: Fn(T, T) -> T, X: Fn(T, T, usize, usize) -> T>(
        &mut self,
        event: Event<T>,
        mix: &M,
        blend: &X,
    ) -> (req: Request<T>)
        requires
            old(self).wf(),
            accepts_pairs(mix),
            accepts_ramps(blend),
        ensures
            steps(old(self)@, event, final(self)@, req, mix, blend),
            final(self).wf(),
            in_order(old(self)@, final(self)@, req),
    {
        match self.phase {
            Phase::Idle => match event {
                Event::Begin => self.resume_pre_loop(),
                _ => self.stop(),
            },
            Phase::PreLoop => match event {
                Event::Received(v) => self.on_pre_loop_received(v),
                Event::Closed => self.close_and_stop(),
                _ => self.stop(),
            },
            Phase::PreLoopSend => match event {
                Event::Sent => self.resume_pre_loop(),
                _ => self.stop(),
            },
            Phase::CaptureOpen => match event {
                Event::Sent => self.resume_capture(),
                _ => self.stop(),
            },
            Phase::Capture => match event {
                Event::Received(v) => self.on_capture_received(v),
                Event::Closed => self.on_capture_closed(),
                _ => self.stop(),
            },
            Phase::Offer => match event {
                Event::Sent => self.offer_held(),
                Event::Full(v) => self.on_offer_full(v),
                _ => self.stop(),
            },
            Phase::Publish => match event {
                Event::Published => self.flush(blend),
                _ => self.stop(),
            },
            Phase::Flush => match event {
                Event::Sent => self.flush(blend),
                _ => self.stop(),
            },
            Phase::Crosslap => match event {
                Event::Received(v) => self.on_crosslap_received(v, blend),
                Event::Closed => self.on_crosslap_closed(blend),
                _ => self.stop(),
            },
            Phase::MixPoll => match event {
                Event::Looping(again) => {
                    if again {
                        self.cursor = 0;
                        self.mix_pass(mix)
                    } else {
                        self.send_tail()
                    }
                },
                _ => self.stop(),
            },
            Phase::MixSend => match event {
                Event::Sent => self.mix_pass(mix),
                _ => self.stop(),
            },
            Phase::MixSendMore => match event {
                Event::Sent => {
                    if self.source_closed {
                        self.repeat()
                    } else {
                        self.phase = Phase::MixRecv;
                        Request::Receive
                    }
                },
                _ => self.stop(),
            },
            Phase::MixRecv => match event {
                Event::Received(v) => self.on_mix_received(v, mix),
                Event::Closed => {
                    self.source_closed = true;
                    self.repeat()
                },
                _ => self.stop(),
            },
            Phase::RepeatPoll => match event {
                Event::Looping(again) => self.on_repeat_poll(again),
                _ => self.stop(),
            },
            Phase::Repeat => match event {
                Event::Sent => self.repeat(),
                _ => self.stop(),
            },
            Phase::Tail => match event {
                Event::Sent => self.resume_drain(),
                _ => self.stop(),
            },
            Phase::Drain => match event {
                Event::Received(v) => self.on_drain_received(v),
                Event::Closed => self.close_and_stop(),
                _ => self.stop(),
            },
            Phase::DrainSend => match event {
                Event::Sent => self.resume_drain(),
                _ => self.stop(),
            },
            Phase::Stopped => self.stop(),
        }
    }

} // impl

} // verus!
