//! The playback consumer: what the audio device's callback does with the
//! packets that reach it.
//!
//! The callback may not wait. It is handed an output buffer to fill, and it
//! fills it from what is left of an earlier packet and from the packets that
//! are ready right now. The consumer keeps the state between two callbacks
//! and decides; its driver looks into the queue for it.
//!
//! One callback is one [`PlaybackConsumer::begin`], then one
//! [`PlaybackConsumer::feed`] for every look into the queue for as long as the
//! consumer answers [`Filling::More`].

use crate::samples::accepts_samples;
use crate::samples::apply_gain;
use crate::samples::copy_into;
use crate::samples::copy_range;
use crate::samples::fill_from;
use crate::samples::scaled;
use vstd::prelude::*;

verus! {

/// What a look into the incoming queue found.
#[derive(Debug)]
pub enum Poll<T> {
    /// A packet and its position tag.
    Packet(usize, Vec<T>),
    /// Nothing is ready.
    Empty,
    /// Nothing is ready and nothing will come.
    Closed,
}

/// How a callback ended.
#[derive(Debug, Clone, Copy, PartialEq, Eq, Structural)]
pub struct Report {
    /// The stream is finished: the device is to stop calling.
    pub complete: bool,
    /// What is still queued is to be thrown away.
    pub discard_queued: bool,
    /// The queue ran dry before the buffer was full; the rest is silence.
    pub underrun: bool,
    /// The playback position, where it has changed: the tag of the last
    /// packet that the callback took.
    pub moved_to: Option<usize>,
}

/// Whether the callback wants another look into the queue.
#[derive(Debug, Clone, Copy, PartialEq, Eq, Structural)]
pub enum Filling {
    /// There is room left in the output buffer: look into the queue.
    More,
    /// The output buffer is ready.
    Done(Report),
}

/// The consumer's state as a mathematical value.
#[verifier::ext_equal]
pub struct ConsumerState<T> {
    /// Samples of an earlier packet that did not fit.
    pub leftovers: Seq<T>,
    /// The position tag that was last reported.
    pub last_pos: Option<usize>,
    /// How much of the output buffer the current callback has filled.
    pub filled: usize,
    /// The tag of the last packet that the current callback took.
    pub cur_pos: Option<usize>,
}

impl<T> ConsumerState<T> {
    /// What holds while a callback is filling a buffer of `room` samples and
    /// wants more: there is room left, and nothing is left over.
    pub open spec fn filling(self, room: nat) -> bool {
        &&& self.filled < room
        &&& self.leftovers.len() == 0
    }

    /// The position to report at the end of a callback: the tag of the last
    /// packet taken, where it differs from the tag that was reported last.
    pub open spec fn movement(self) -> Option<usize> {
        match self.cur_pos {
            Some(pos) => if self.last_pos != Some(pos) {
                Some(pos)
            } else {
                None
            },
            None => None,
        }
    }

    /// The state after the callback has ended in the ordinary way.
    pub open spec fn closed_out(self) -> Self {
        ConsumerState {
            last_pos: match self.movement() {
                Some(p) => Some(p),
                None => self.last_pos,
            },
            ..self
        }
    }
}

/// `n` samples of silence.
pub open spec fn silent<T>(n: int, silence: T) -> Seq<T> {
    Seq::new(n as nat, |j: int| silence)
}

/// The callback ends in the ordinary way: what is not filled becomes
/// silence, which counts as an underrun, and a changed position is reported.
pub open spec fn finishes<T>(
    s: ConsumerState<T>,
    out: Seq<T>,
    silence: T,
    post: ConsumerState<T>,
    out_post: Seq<T>,
    r: Filling,
) -> bool {
    &&& post =~~= s.closed_out()
    &&& out_post =~= out.take(s.filled as int) + silent(out.len() - s.filled, silence)
    &&& r == Filling::Done(
        (Report {
            complete: false,
            discard_queued: false,
            underrun: s.filled < out.len(),
            moved_to: s.movement(),
        }),
    )
}

/// The callback goes on if there is room left, and ends if there is none.
pub open spec fn continues<T>(
    s: ConsumerState<T>,
    out: Seq<T>,
    silence: T,
    post: ConsumerState<T>,
    out_post: Seq<T>,
    r: Filling,
) -> bool {
    if s.filled < out.len() {
        &&& post =~~= s
        &&& out_post =~= out
        &&& r == Filling::More
    } else {
        finishes(s, out, silence, post, out_post, r)
    }
}

/// How a callback begins. On a hard stop the whole buffer becomes silence
/// and the stream is over. Else the buffer is filled from the leftovers
/// first; what does not fit stays left over.
pub open spec fn begins<T>(
    s: ConsumerState<T>,
    out: Seq<T>,
    stop: bool,
    silence: T,
    post: ConsumerState<T>,
    out_post: Seq<T>,
    r: Filling,
) -> bool {
    if stop {
        &&& post =~~= s
        &&& out_post =~= silent(out.len() as int, silence)
        &&& r == Filling::Done(
            (Report { complete: true, discard_queued: true, underrun: false, moved_to: None }),
        )
    } else {
        let k = if s.leftovers.len() <= out.len() {
            s.leftovers.len() as int
        } else {
            out.len() as int
        };
        continues(
            ConsumerState {
                leftovers: s.leftovers.skip(k),
                filled: k as usize,
                cur_pos: None,
                ..s
            },
            s.leftovers.take(k) + out.skip(k),
            silence,
            post,
            out_post,
            r,
        )
    }
}

/// What a look into the queue leads to. Nothing ready: the callback ends
/// with an underrun. Queue closed: the rest becomes silence and the stream is
/// over. A packet: every sample of it is scaled by the gain; as much as fits
/// goes into the buffer, the surplus is left over for the next callback; and
/// the packet's tag becomes the current position.
pub open spec fn feeds<T, G: Fn(T) -> T>(
    s: ConsumerState<T>,
    out: Seq<T>,
    poll: Poll<T>,
    gain: &G,
    silence: T,
    post: ConsumerState<T>,
    out_post: Seq<T>,
    r: Filling,
) -> bool {
    match poll {
        Poll::Empty => finishes(s, out, silence, post, out_post, r),
        Poll::Closed => {
            &&& post =~~= s
            &&& out_post =~= out.take(s.filled as int) + silent(out.len() - s.filled, silence)
            &&& r == Filling::Done(
                (Report { complete: true, discard_queued: false, underrun: false, moved_to: None }),
            )
        },
        Poll::Packet(pos, packet) => {
            let room = out.len() - s.filled;
            let k = if packet@.len() <= room {
                packet@.len() as int
            } else {
                room
            };
            exists|loud: Seq<T>|
                {
                    &&& #[trigger] scaled(packet@, loud, gain)
                    &&& continues(
                        ConsumerState {
                            leftovers: loud.skip(k),
                            filled: (s.filled + k) as usize,
                            cur_pos: Some(pos),
                            ..s
                        },
                        out.take(s.filled as int) + loud.take(k) + out.skip(s.filled + k),
                        silence,
                        post,
                        out_post,
                        r,
                    )
                }
        },
    }
}

/// The playback consumer.
pub struct PlaybackConsumer<T> {
    leftovers: Vec<T>,
    last_pos: Option<usize>,
    filled: usize,
    cur_pos: Option<usize>,
}

impl<T> View for PlaybackConsumer<T> {
    type V = ConsumerState<T>;

    closed spec fn view(&self) -> ConsumerState<T> {
        ConsumerState {
            leftovers: self.leftovers@,
            last_pos: self.last_pos,
            filled: self.filled,
            cur_pos: self.cur_pos,
        }
    }
}

impl<T: Copy> PlaybackConsumer<T> {
    /// A consumer with nothing left over and nothing reported yet.
    pub fn new() -> (consumer: Self)
        ensures
            consumer@ == (ConsumerState::<T> {
                leftovers: Seq::empty(),
                last_pos: None,
                filled: 0,
                cur_pos: None,
            }),
    {
        let consumer = PlaybackConsumer {
            leftovers: Vec::new(),
            last_pos: None,
            filled: 0,
            cur_pos: None,
        };
        assert(consumer@ =~~= (ConsumerState::<T> {
            leftovers: Seq::empty(),
            last_pos: None,
            filled: 0,
            cur_pos: None,
        }));
        consumer
    }

    /// How many samples are left over from an earlier packet.
    pub fn leftover_len(&self) -> (n: usize)
        ensures
            n == self@.leftovers.len(),
    {
        self.leftovers.len()
    }

    fn finish(&mut self, out: &mut [T], silence: T) -> (r: Filling)
        requires
            old(self)@.filled <= old(out)@.len(),
        ensures
            finishes(old(self)@, old(out)@, silence, final(self)@, final(out)@, r),
    {
        let underrun: bool = self.filled < out.len();
        fill_from(out, self.filled, silence);
        assert(out@ =~= old(out)@.take(old(self)@.filled as int) + silent(
            old(out)@.len() - old(self)@.filled,
            silence,
        ));
        let mut moved_to: Option<usize> = None;
        match self.cur_pos {
            Some(pos) => {
                let changed: bool = match self.last_pos {
                    Some(last) => last != pos,
                    None => true,
                };
                if changed {
                    self.last_pos = Some(pos);
                    moved_to = Some(pos);
                }
            },
            None => {},
        }
        Filling::Done(Report { complete: false, discard_queued: false, underrun, moved_to })
    }

    fn go_on(&mut self, out: &mut [T], silence: T) -> (r: Filling)
        requires
            old(self)@.filled <= old(out)@.len(),
            old(self)@.filled < old(out)@.len() ==> old(self)@.leftovers.len() == 0,
        ensures
            continues(old(self)@, old(out)@, silence, final(self)@, final(out)@, r),
            r == Filling::More ==> final(self)@.filling(final(out)@.len()),
            final(out)@.len() == old(out)@.len(),
    {
        if self.filled < out.len() {
            Filling::More
        } else {
            self.finish(out, silence)
        }
    }

    /// Begins a callback on the output buffer `out`. `stop` says whether a
    /// hard stop has been asked for; `silence` is the sample that stands for
    /// no sound.
    pub fn begin(&mut self, out: &mut [T], stop: bool, silence: T) -> (r: Filling)
        ensures
            begins(old(self)@, old(out)@, stop, silence, final(self)@, final(out)@, r),
            r == Filling::More ==> final(self)@.filling(final(out)@.len()),
            final(out)@.len() == old(out)@.len(),
    {
        if stop {
            fill_from(out, 0, silence);
            assert(out@ =~= silent(old(out)@.len() as int, silence));
            return Filling::Done(
                Report { complete: true, discard_queued: true, underrun: false, moved_to: None },
            );
        }
        let have: usize = self.leftovers.len();
        let k: usize = if have <= out.len() {
            have
        } else {
            out.len()
        };
        copy_into(out, 0, &self.leftovers, 0, k);
        assert(out@ =~= old(self)@.leftovers.take(k as int) + old(out)@.skip(k as int));
        self.leftovers = copy_range(&self.leftovers, k, have);
        assert(self.leftovers@ =~= old(self)@.leftovers.skip(k as int));
        self.filled = k;
        self.cur_pos = None;
        self.go_on(out, silence)
    }

    /// Goes on with the callback: `poll` is what a look into the queue
    /// found, `gain` scales one sample by the volume.
    pub fn feed<G: Fn(T) -> T>(
        &mut self,
        out: &mut [T],
        poll: Poll<T>,
        gain: &G,
        silence: T,
    ) -> (r: Filling)
        requires
            old(self)@.filling(old(out)@.len()),
            accepts_samples(gain),
        ensures
            feeds(old(self)@, old(out)@, poll, gain, silence, final(self)@, final(out)@, r),
            r == Filling::More ==> final(self)@.filling(final(out)@.len()),
            final(out)@.len() == old(out)@.len(),
    {
        match poll {
            Poll::Empty => self.finish(out, silence),
            Poll::Closed => {
                fill_from(out, self.filled, silence);
                assert(out@ =~= old(out)@.take(old(self)@.filled as int) + silent(
                    old(out)@.len() - old(self)@.filled,
                    silence,
                ));
                Filling::Done(
                    Report {
                        complete: true,
                        discard_queued: false,
                        underrun: false,
                        moved_to: None,
                    },
                )
            },
            Poll::Packet(pos, packet) => {
                let ghost quiet = packet@;
                let mut packet = packet;
                apply_gain(&mut packet, gain);
                let ghost loud = packet@;
                let at: usize = self.filled;
                let room: usize = out.len() - at;
                let k: usize = if packet.len() <= room {
                    packet.len()
                } else {
                    room
                };
                copy_into(out, at, &packet, 0, k);
                assert(out@ =~= old(out)@.take(at as int) + loud.take(k as int) + old(out)@.skip(
                    at + k,
                ));
                self.leftovers = copy_range(&packet, k, packet.len());
                assert(self.leftovers@ =~= loud.skip(k as int));
                self.filled = at + k;
                self.cur_pos = Some(pos);
                let ghost mid = self@;
                let ghost mid_out = out@;
                let r = self.go_on(out, silence);
                assert(scaled(quiet, loud, gain));
                assert(continues(mid, mid_out, silence, self@, out@, r));
                r
            },
        }
    }
}

/// The position that a callback reports is a position tag: the tag of the
/// packet that the callback took last, reported unless it is the tag that
/// was reported last.
pub proof fn lemma_reports_last_tag<T, G: Fn(T) -> T>(
    s: ConsumerState<T>,
    out: Seq<T>,
    pos: usize,
    packet: Vec<T>,
    gain: &G,
    silence: T,
    post: ConsumerState<T>,
    out_post: Seq<T>,
    r: Filling,
)
    requires
        s.filling(out.len()),
        feeds(s, out, Poll::Packet(pos, packet), gain, silence, post, out_post, r),
        r is Done,
    ensures
        r->Done_0.moved_to == if s.last_pos == Some(pos) {
            None
        } else {
            Some(pos)
        },
        post.last_pos == Some(pos),
        !r->Done_0.complete,
{
}

/// A callback that runs dry takes no packet and keeps nothing back: it ends
/// with an underrun, the samples it had stay where they are, and the
/// position it reports is the tag of the last packet it took, if it took one.
pub proof fn lemma_underrun_keeps_step<T, G: Fn(T) -> T>(
    s: ConsumerState<T>,
    out: Seq<T>,
    gain: &G,
    silence: T,
    post: ConsumerState<T>,
    out_post: Seq<T>,
    r: Filling,
)
    requires
        s.filling(out.len()),
        feeds(s, out, Poll::<T>::Empty, gain, silence, post, out_post, r),
    ensures
        r is Done,
        r->Done_0.underrun,
        !r->Done_0.complete,
        post.leftovers.len() == 0,
        out_post.take(s.filled as int) == out.take(s.filled as int),
        r->Done_0.moved_to == s.movement(),
        s.cur_pos is Some ==> post.last_pos == s.cur_pos,
{
    assert(out_post.take(s.filled as int) =~= out.take(s.filled as int));
}

} // verus!
