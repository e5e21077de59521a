//! The resampler stage: what goes through unchanged, what goes to the rate
//! converter, and how large a buffer the converter needs.
//!
//! The conversion itself is not done here. The stage asks its driver to run
//! the converter on a buffer and checks what comes back.

use vstd::prelude::*;

verus! {

/// How many samples the buffer for the converter's last output holds.
pub const FLUSH_CAPACITY: usize = 1024;

/// Why the resampler stage gives up.
#[derive(Debug, Clone, Copy, PartialEq, Eq, Structural)]
pub enum ResampleError {
    /// A buffer size does not fit the machine's numbers.
    Overflow,
    /// The converter did not take the whole input.
    Misaligned,
    /// The converter claims more output than its buffer holds.
    Overrun,
}

/// How many samples the converter may produce for `len` samples of input:
/// `len` times the ratio of the rates, rounded up. `None` where that cannot
/// be computed in the machine's numbers.
pub open spec fn capacity_for(len: usize, rate_in: u32, rate_out: u32) -> Option<usize> {
    if len * rate_out + (rate_out - 1) > usize::MAX {
        None
    } else {
        Some(((len * rate_out + (rate_out - 1)) / rate_in as int) as usize)
    }
}

/// The size of the output buffer to give the converter for an input buffer
/// of `len` samples.
pub fn output_capacity(len: usize, rate_in: u32, rate_out: u32) -> (r: Option<usize>)
    requires
        rate_in > 0,
        rate_out > 0,
    ensures
        r == capacity_for(len, rate_in, rate_out),
{
    match len.checked_mul(rate_out as usize) {
        None => None,
        Some(scaled) => match scaled.checked_add(rate_out as usize - 1) {
            None => None,
            Some(padded) => Some(padded / (rate_in as usize)),
        },
    }
}

/// What the stage is waiting for.
#[derive(Debug, Clone, Copy, PartialEq, Eq, Structural)]
pub enum ResamplePhase {
    /// Nothing has been asked for yet.
    Idle,
    /// Waiting for input.
    Waiting,
    /// Waiting for a buffer to be taken downstream; more input follows.
    Sending,
    /// Waiting for the converter to work through an input buffer.
    Converting,
    /// Waiting for the converter to hand out what it still holds.
    Flushing,
    /// Waiting for the last buffer to be taken downstream.
    Closing,
    /// The stage has come to rest.
    Stopped,
}

/// What the stage asks its driver to do next.
#[derive(Debug)]
pub enum ResampleRequest<T> {
    /// Take the next tagged buffer from upstream, waiting for it.
    Receive,
    /// Hand the buffer downstream, waiting for room.
    Send { tag: usize, samples: Vec<T> },
    /// Run the converter on `input`, into a buffer of `capacity` samples.
    Convert { input: Vec<T>, capacity: usize },
    /// Let the converter hand out what it still holds, into a buffer of
    /// `capacity` samples.
    Flush { capacity: usize },
    /// Nothing more: the stage is done.
    Stop,
    /// Nothing more: the stage has failed.
    Fail(ResampleError),
}

/// What the driver tells the stage.
#[derive(Debug)]
pub enum ResampleEvent<T> {
    /// The worker has started.
    Begin,
    /// A tagged buffer arrived from upstream. `stop` says whether a hard stop
    /// had been asked for by then.
    Input { tag: usize, samples: Vec<T>, stop: bool },
    /// Upstream has closed its queue.
    Closed,
    /// The buffer was taken downstream.
    Sent,
    /// Nobody is left downstream.
    Gone,
    /// The converter has run: it took `frames_in` frames of input and wrote
    /// `frames_out` frames to the start of `output`.
    Converted { output: Vec<T>, frames_in: usize, frames_out: usize },
}

/// The stage's state as a mathematical value.
pub struct ResamplerState {
    pub rate_in: u32,
    pub rate_out: u32,
    pub channel_count: u32,
    pub phase: ResamplePhase,
    /// The tag of the last input buffer that went through the converter.
    pub last_pos: usize,
    /// The tag of the input buffer that the converter is working on.
    pub pending_pos: usize,
    /// The length of the input buffer that the converter is working on.
    pub pending_len: usize,
}

impl ResamplerState {
    /// What holds of every state of the stage.
    pub open spec fn inv(self) -> bool {
        &&& self.rate_in > 0
        &&& self.rate_out > 0
        &&& self.channel_count > 0
    }

    /// Whether buffers go through unchanged.
    pub open spec fn passes_through(self) -> bool {
        self.rate_in == self.rate_out
    }

    /// The state of a stage that has not begun.
    pub open spec fn initial(rate_in: u32, rate_out: u32, channel_count: u32) -> Self {
        ResamplerState {
            rate_in,
            rate_out,
            channel_count,
            phase: ResamplePhase::Idle,
            last_pos: 0,
            pending_pos: 0,
            pending_len: 0,
        }
    }
}

/// The stage fails with `error`.
pub open spec fn fails<T>(
    s: ResamplerState,
    error: ResampleError,
    post: ResamplerState,
    req: ResampleRequest<T>,
) -> bool {
    &&& post == (ResamplerState { phase: ResamplePhase::Stopped, ..s })
    &&& req == ResampleRequest::<T>::Fail(error)
}

/// The stage comes to rest.
pub open spec fn rests<T>(s: ResamplerState, post: ResamplerState, req: ResampleRequest<T>) -> bool {
    &&& post == (ResamplerState { phase: ResamplePhase::Stopped, ..s })
    &&& req is Stop
}

/// The stream has ended, or a hard stop was asked for. A stage that passes
/// buffers through is done; one that converts lets the converter hand out
/// what it still holds.
pub open spec fn winds_up<T>(s: ResamplerState, post: ResamplerState, req: ResampleRequest<T>) -> bool {
    if s.passes_through() {
        rests(s, post, req)
    } else {
        &&& post == (ResamplerState { phase: ResamplePhase::Flushing, ..s })
        &&& req matches ResampleRequest::Flush { capacity } && capacity == FLUSH_CAPACITY
    }
}

/// A buffer arrives. Where the rates are equal it goes downstream as it is,
/// under its own tag. Else it goes to the converter, with the size of the
/// buffer that the converter needs; a buffer without samples has nothing to
/// convert and is passed over.
pub open spec fn takes_input<T>(
    s: ResamplerState,
    tag: usize,
    samples: Vec<T>,
    post: ResamplerState,
    req: ResampleRequest<T>,
) -> bool {
    if s.passes_through() {
        &&& post == (ResamplerState { phase: ResamplePhase::Sending, ..s })
        &&& req == (ResampleRequest::Send { tag, samples })
    } else if samples@.len() == 0 {
        &&& post == (ResamplerState { phase: ResamplePhase::Waiting, ..s })
        &&& req is Receive
    } else {
        match capacity_for(samples@.len() as usize, s.rate_in, s.rate_out) {
            None => fails(s, ResampleError::Overflow, post, req),
            Some(capacity) => {
                &&& post == (ResamplerState {
                    phase: ResamplePhase::Converting,
                    pending_pos: tag,
                    pending_len: samples@.len() as usize,
                    ..s
                })
                &&& req == (ResampleRequest::Convert { input: samples, capacity })
            },
        }
    }
}

/// The converter's output goes downstream, cut to what the converter wrote,
/// under `tag`: the tag of the input that produced it.
pub open spec fn hands_on<T>(
    s: ResamplerState,
    phase: ResamplePhase,
    tag: usize,
    output: Seq<T>,
    frames_out: usize,
    post: ResamplerState,
    req: ResampleRequest<T>,
) -> bool {
    if frames_out * s.channel_count > usize::MAX {
        fails(s, ResampleError::Overflow, post, req)
    } else if output.len() < frames_out * s.channel_count {
        fails(s, ResampleError::Overrun, post, req)
    } else {
        &&& post == (ResamplerState { phase, last_pos: tag, ..s })
        &&& req matches ResampleRequest::Send { tag: t, samples: v } && t == tag && v@
            =~= output.take(frames_out * s.channel_count)
    }
}

/// The rules of the stage: from state `s` and `event` to state `post` and
/// request `req`. The news that nobody is left downstream brings the stage to
/// rest: that is how it learns to stop, and no failure. So does an event that
/// does not answer what the stage was waiting for.
pub open spec fn resample_steps<T>(
    s: ResamplerState,
    event: ResampleEvent<T>,
    post: ResamplerState,
    req: ResampleRequest<T>,
) -> bool {
    match s.phase {
        ResamplePhase::Idle => match event {
            ResampleEvent::Begin => {
                &&& post == (ResamplerState { phase: ResamplePhase::Waiting, ..s })
                &&& req is Receive
            },
            _ => rests(s, post, req),
        },
        ResamplePhase::Waiting => match event {
            ResampleEvent::Input { tag, samples, stop } => if stop {
                winds_up(s, post, req)
            } else {
                takes_input(s, tag, samples, post, req)
            },
            ResampleEvent::Closed => winds_up(s, post, req),
            _ => rests(s, post, req),
        },
        ResamplePhase::Sending => match event {
            ResampleEvent::Sent => {
                &&& post == (ResamplerState { phase: ResamplePhase::Waiting, ..s })
                &&& req is Receive
            },
            _ => rests(s, post, req),
        },
        ResamplePhase::Converting => match event {
            ResampleEvent::Converted { output, frames_in, frames_out } => if frames_in
                != s.pending_len / (s.channel_count as usize) {
                fails(s, ResampleError::Misaligned, post, req)
            } else {
                hands_on(s, ResamplePhase::Sending, s.pending_pos, output@, frames_out, post, req)
            },
            _ => rests(s, post, req),
        },
        ResamplePhase::Flushing => match event {
            ResampleEvent::Converted { output, frames_in, frames_out } => hands_on(
                s,
                ResamplePhase::Closing,
                s.last_pos,
                output@,
                frames_out,
                post,
                req,
            ),
            _ => rests(s, post, req),
        },
        ResamplePhase::Closing => rests(s, post, req),
        ResamplePhase::Stopped => rests(s, post, req),
    }
}

/// The resampler stage.
#[derive(Debug, Clone, Copy)]
pub struct Resampler {
    rate_in: u32,
    rate_out: u32,
    channel_count: u32,
    phase: ResamplePhase,
    last_pos: usize,
    pending_pos: usize,
    pending_len: usize,
}

impl View for Resampler {
    type V = ResamplerState;

    closed spec fn view(&self) -> ResamplerState {
        ResamplerState {
            rate_in: self.rate_in,
            rate_out: self.rate_out,
            channel_count: self.channel_count,
            phase: self.phase,
            last_pos: self.last_pos,
            pending_pos: self.pending_pos,
            pending_len: self.pending_len,
        }
    }
}

impl Resampler {
    /// A stage between a stream at `rate_in` and a device at `rate_out`.
    pub fn new(rate_in: u32, rate_out: u32, channel_count: u32) -> (stage: Self)
        requires
            rate_in > 0,
            rate_out > 0,
            channel_count > 0,
        ensures
            stage@ == ResamplerState::initial(rate_in, rate_out, channel_count),
            stage@.inv(),
    {
        Resampler {
            rate_in,
            rate_out,
            channel_count,
            phase: ResamplePhase::Idle,
            last_pos: 0,
            pending_pos: 0,
            pending_len: 0,
        }
    }

    /// Whether buffers go through unchanged, so that no converter is needed.
    pub fn passes_through(&self) -> (r: bool)
        ensures
            r == self@.passes_through(),
    {
        self.rate_in == self.rate_out
    }

    fn fail<T>(&mut self, error: ResampleError) -> (req: ResampleRequest<T>)
        ensures
            fails(old(self)@, error, final(self)@, req),
    {
        self.phase = ResamplePhase::Stopped;
        ResampleRequest::Fail(error)
    }

    fn rest<T>(&mut self) -> (req: ResampleRequest<T>)
        ensures
            rests(old(self)@, final(self)@, req),
    {
        self.phase = ResamplePhase::Stopped;
        ResampleRequest::Stop
    }

    fn wind_up<T>(&mut self) -> (req: ResampleRequest<T>)
        ensures
            winds_up(old(self)@, final(self)@, req),
    {
        if self.rate_in == self.rate_out {
            self.rest()
        } else {
            self.phase = ResamplePhase::Flushing;
            ResampleRequest::Flush { capacity: FLUSH_CAPACITY }
        }
    }

    fn take_input<T>(&mut self, tag: usize, samples: Vec<T>) -> (req: ResampleRequest<T>)
        requires
            old(self)@.inv(),
        ensures
            takes_input(old(self)@, tag, samples, final(self)@, req),
    {
        if self.rate_in == self.rate_out {
            self.phase = ResamplePhase::Sending;
            return ResampleRequest::Send { tag, samples };
        }
        if samples.len() == 0 {
            self.phase = ResamplePhase::Waiting;
            return ResampleRequest::Receive;
        }
        match output_capacity(samples.len(), self.rate_in, self.rate_out) {
            None => self.fail(ResampleError::Overflow),
            Some(capacity) => {
                self.phase = ResamplePhase::Converting;
                self.pending_pos = tag;
                self.pending_len = samples.len();
                ResampleRequest::Convert { input: samples, capacity }
            },
        }
    }

    fn hand_on<T>(
        &mut self,
        phase: ResamplePhase,
        tag: usize,
        output: Vec<T>,
        frames_out: usize,
    ) -> (req: ResampleRequest<T>)
        ensures
            hands_on(old(self)@, phase, tag, output@, frames_out, final(self)@, req),
    {
        match frames_out.checked_mul(self.channel_count as usize) {
            None => self.fail(ResampleError::Overflow),
            Some(samples_out) => {
                if output.len() < samples_out {
                    return self.fail(ResampleError::Overrun);
                }
                let mut output = output;
                output.truncate(samples_out);
                self.phase = phase;
                self.last_pos = tag;
                ResampleRequest::Send { tag, samples: output }
            },
        }
    }

    /// Takes one step: hears what became of the last request and says what
    /// to do next.
    pub fn step<T>(&mut self, event: ResampleEvent<T>) -> (req: ResampleRequest<T>)
        requires
            old(self)@.inv(),
        ensures
            resample_steps(old(self)@, event, final(self)@, req),
            final(self)@.inv(),
    {
        match self.phase {
            ResamplePhase::Idle => match event {
                ResampleEvent::Begin => {
                    self.phase = ResamplePhase::Waiting;
                    ResampleRequest::Receive
                },
                _ => self.rest(),
            },
            ResamplePhase::Waiting => match event {
                ResampleEvent::Input { tag, samples, stop } => {
                    if stop {
                        self.wind_up()
                    } else {
                        self.take_input(tag, samples)
                    }
                },
                ResampleEvent::Closed => self.wind_up(),
                _ => self.rest(),
            },
            ResamplePhase::Sending => match event {
                ResampleEvent::Sent => {
                    self.phase = ResamplePhase::Waiting;
                    ResampleRequest::Receive
                },
                _ => self.rest(),
            },
            ResamplePhase::Converting => match event {
                ResampleEvent::Converted { output, frames_in, frames_out } => {
                    if frames_in != self.pending_len / (self.channel_count as usize) {
                        self.fail(ResampleError::Misaligned)
                    } else {
                        let tag: usize = self.pending_pos;
                        self.hand_on(ResamplePhase::Sending, tag, output, frames_out)
                    }
                },
                _ => self.rest(),
            },
            ResamplePhase::Flushing => match event {
                ResampleEvent::Converted { output, frames_in, frames_out } => {
                    let tag: usize = self.last_pos;
                    self.hand_on(ResamplePhase::Closing, tag, output, frames_out)
                },
                _ => self.rest(),
            },
            ResamplePhase::Closing => self.rest(),
            ResamplePhase::Stopped => self.rest(),
        }
    }
}

/// Where the two rates are equal, every buffer that arrives goes downstream
/// as it came, under the tag it came with, and no converter is asked for.
pub proof fn lemma_equal_rates_pass_through<T>(
    s: ResamplerState,
    tag: usize,
    samples: Vec<T>,
    post: ResamplerState,
    req: ResampleRequest<T>,
)
    requires
        s.inv(),
        s.rate_in == s.rate_out,
        s.phase == ResamplePhase::Waiting,
        resample_steps(s, (ResampleEvent::Input { tag, samples, stop: false }), post, req),
    ensures
        req == (ResampleRequest::Send { tag, samples }),
        post.phase == ResamplePhase::Sending,
        post.last_pos == s.last_pos,
{
}

/// What the stage hands downstream of the converter's output is a whole
/// number of frames, and it carries the tag of the input that produced it:
/// the tag of the buffer at the converter, or, for the converter's last
/// output, the tag of the last buffer that went through it.
pub proof fn lemma_converted_frames_stay_whole<T>(
    s: ResamplerState,
    output: Vec<T>,
    frames_in: usize,
    frames_out: usize,
    post: ResamplerState,
    req: ResampleRequest<T>,
)
    requires
        s.inv(),
        s.phase == ResamplePhase::Converting || s.phase == ResamplePhase::Flushing,
        resample_steps(s, (ResampleEvent::Converted { output, frames_in, frames_out }), post, req),
        req is Send,
    ensures
        req->Send_samples@.len() == frames_out * s.channel_count,
        req->Send_samples@ == output@.take(frames_out * s.channel_count),
        s.phase == ResamplePhase::Converting ==> req->Send_tag == s.pending_pos,
        s.phase == ResamplePhase::Flushing ==> req->Send_tag == s.last_pos,
        post.last_pos == req->Send_tag,
{
}

/// A converting stage passes over a buffer without samples and asks for the
/// next one.
pub proof fn lemma_empty_input_is_passed_over<T>(
    s: ResamplerState,
    tag: usize,
    samples: Vec<T>,
    post: ResamplerState,
    req: ResampleRequest<T>,
)
    requires
        s.inv(),
        s.rate_in != s.rate_out,
        s.phase == ResamplePhase::Waiting,
        samples@.len() == 0,
        resample_steps(s, (ResampleEvent::Input { tag, samples, stop: false }), post, req),
    ensures
        req is Receive,
        post == s,
{
}

/// A consumer that has gone is no failure: whatever the stage was waiting
/// for, it comes to rest and asks for nothing more.
pub proof fn lemma_vanished_consumer_stops<T>(
    s: ResamplerState,
    post: ResamplerState,
    req: ResampleRequest<T>,
)
    requires
        s.inv(),
        resample_steps(s, ResampleEvent::<T>::Gone, post, req),
    ensures
        req is Stop,
        post.phase == ResamplePhase::Stopped,
{
}

/// Where the two rates are equal, the stage never asks for the converter.
pub proof fn lemma_equal_rates_need_no_converter<T>(
    s: ResamplerState,
    event: ResampleEvent<T>,
    post: ResamplerState,
    req: ResampleRequest<T>,
)
    requires
        s.inv(),
        s.rate_in == s.rate_out,
        s.phase != ResamplePhase::Converting,
        s.phase != ResamplePhase::Flushing,
        resample_steps(s, event, post, req),
    ensures
        !(req is Convert),
        !(req is Flush),
        post.phase != ResamplePhase::Converting,
        post.phase != ResamplePhase::Flushing,
        post.rate_in == post.rate_out,
{
}

} // verus!
