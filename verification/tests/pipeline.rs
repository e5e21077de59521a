use loop_player::decode::stage_packet;
use loop_player::engine::machine::LoopEngine;
use loop_player::engine::rules::Event;
use loop_player::engine::rules::Request;
use loop_player::metadata::check_format;
use loop_player::metadata::find_loop_tags;
use loop_player::metadata::frame_offset;
use loop_player::metadata::resolve_window;
use loop_player::metadata::LoopWindow;
use loop_player::metadata::Offset;
use loop_player::playback::Filling;
use loop_player::playback::PlaybackConsumer;
use loop_player::playback::Poll;
use loop_player::progress::Pace;
use loop_player::resample::ResampleEvent;
use loop_player::resample::ResampleRequest;
use loop_player::resample::Resampler;
use loop_player::terminate::Terminator;
use std::collections::VecDeque;

fn add(a: f32, b: f32) -> f32 {
    a + b
}

fn ramp(o: f32, i: f32, n: usize, k: usize) -> f32 {
    let o_scale = (n as f32 + 0.5) / (k as f32);
    o * o_scale + i * (1.0 - o_scale)
}

fn unity(x: f32) -> f32 {
    x
}

/// A stream of `frames` stereo frames in packets of `per_packet` frames.
/// The left channel counts up from 1, the right channel down from -1, so no
/// sample is zero.
fn stereo_packets(frames: usize, per_packet: usize) -> Vec<Vec<Vec<f32>>> {
    let mut packets = Vec::new();
    let mut at = 0;
    while at < frames {
        let end = (at + per_packet).min(frames);
        let left: Vec<f32> = (at..end).map(|f| (f + 1) as f32).collect();
        let right: Vec<f32> = (at..end).map(|f| -((f + 1) as f32)).collect();
        packets.push(vec![left, right]);
        // Decoders hand out empty packets now and then.
        packets.push(vec![vec![], vec![]]);
        at = end;
    }
    packets
}

/// Runs the loop engine over the staged packets. Looping is disengaged by
/// one interrupt after `passes` polls have been answered.
fn run_engine(
    window: LoopWindow,
    channels: u32,
    packets: Vec<Vec<Vec<f32>>>,
    terminator: &Terminator,
    passes: usize,
) -> (Vec<(usize, Vec<f32>)>, Vec<usize>) {
    let mut staged: VecDeque<Vec<f32>> = VecDeque::new();
    for packet in packets {
        if let Some(buffer) = stage_packet(packet, channels).unwrap() {
            staged.push_back(buffer);
        }
    }
    assert!(window.is_playable());
    let mut engine: LoopEngine<f32> = LoopEngine::new(window, channels);
    let mut sent = Vec::new();
    let mut published = Vec::new();
    let mut polls = 0;
    let mut event = Event::Begin;
    loop {
        event = match engine.step(event, &add, &ramp) {
            Request::Receive => match staged.pop_front() {
                Some(buffer) => Event::Received(buffer),
                None => Event::Closed,
            },
            Request::Send { tag, samples } | Request::Offer { tag, samples } => {
                sent.push((tag, samples));
                Event::Sent
            },
            Request::Publish { right } => {
                published.push(right);
                Event::Published
            },
            Request::Poll => {
                if polls == passes {
                    assert!(!terminator.interrupt());
                }
                polls += 1;
                Event::Looping(terminator.should_loop())
            },
            Request::Stop => return (sent, published),
        };
    }
}

/// Runs a stage with equal rates over the tagged buffers.
fn run_pass_through(
    rate: u32,
    channels: u32,
    input: Vec<(usize, Vec<f32>)>,
    terminator: &Terminator,
) -> Vec<(usize, Vec<f32>)> {
    let mut stage = Resampler::new(rate, rate, channels);
    let mut input: VecDeque<(usize, Vec<f32>)> = input.into_iter().collect();
    let mut output = Vec::new();
    let mut event = ResampleEvent::Begin;
    loop {
        event = match stage.step(event) {
            ResampleRequest::Receive => match input.pop_front() {
                Some((tag, samples)) => {
                    ResampleEvent::Input { tag, samples, stop: terminator.should_terminate() }
                },
                None => ResampleEvent::Closed,
            },
            ResampleRequest::Send { tag, samples } => {
                output.push((tag, samples));
                ResampleEvent::Sent
            },
            ResampleRequest::Stop => return output,
            _ => panic!("a stage with equal rates needs no converter and does not fail"),
        };
    }
}

/// One callback of the audio device on a buffer of `len` samples.
fn callback(
    consumer: &mut PlaybackConsumer<f32>,
    queue: &mut VecDeque<(usize, Vec<f32>)>,
    closed: bool,
    terminator: &Terminator,
    len: usize,
) -> (Vec<f32>, loop_player::playback::Report) {
    let mut out = vec![f32::NAN; len];
    let mut step = consumer.begin(&mut out, terminator.should_terminate(), 0.0);
    loop {
        match step {
            Filling::Done(report) => {
                if report.discard_queued {
                    queue.clear();
                }
                return (out, report);
            },
            Filling::More => {
                let poll = match queue.pop_front() {
                    Some((tag, samples)) => Poll::Packet(tag, samples),
                    None => {
                        if closed {
                            Poll::Closed
                        } else {
                            Poll::Empty
                        }
                    },
                };
                step = consumer.feed(&mut out, poll, &unity, 0.0);
            },
        }
    }
}

#[test]
fn two_second_stream_loops_then_ends_with_one_tail() {
    let format = check_format(2, 1000).unwrap();
    let tags = find_loop_tags(&Vec::new());
    let window = resolve_window(
        Offset::Absent,
        frame_offset(&tags.loopstart),
        Offset::Absent,
        frame_offset(&tags.looplength),
        tags.loop_mix,
        format.channel_count,
    )
    .unwrap();
    assert_eq!(window, LoopWindow { left: 0, right: usize::MAX, mix: false });

    let terminator = Terminator::new();
    let packets = stereo_packets(2000, 100);
    let (sent, published) = run_engine(window, 2, packets, &terminator, 2);

    // The end of the loop was found once, at the end of the stream.
    assert_eq!(published, vec![4000]);
    // Level one: no more passes, one tail, and the worker is done.
    assert_eq!(terminator.fetch(), 1);
    // The tail carries the tag of the end that was found, and nothing else does.
    let tails: Vec<&(usize, Vec<f32>)> = sent.iter().filter(|(tag, _)| *tag == 4000).collect();
    assert_eq!(tails.len(), 1);
    assert_eq!(sent.last().unwrap().0, 4000);
    // The stream once while it was captured, then two passes of the loop.
    let played: Vec<f32> = sent.iter().flat_map(|(_, samples)| samples.iter().copied()).collect();
    let once: Vec<f32> = (0..2000).flat_map(|f| [(f + 1) as f32, -((f + 1) as f32)]).collect();
    assert_eq!(played.len(), 12000);
    assert_eq!(&played[0..4000], &once[..]);
    assert_eq!(&played[4000..8000], &once[..]);
    assert_eq!(&played[8000..12000], &once[..]);

    // Equal rates: the resampler hands on exactly what it was given.
    let resampled = run_pass_through(format.sample_rate, 2, sent.clone(), &terminator);
    assert_eq!(resampled, sent);

    // The device plays all of it, then hears that the stream is over.
    let mut consumer: PlaybackConsumer<f32> = PlaybackConsumer::new();
    let mut queue: VecDeque<(usize, Vec<f32>)> = resampled.into_iter().collect();
    let mut heard = Vec::new();
    let mut complete = false;
    for _ in 0..24 {
        let (out, report) = callback(&mut consumer, &mut queue, true, &terminator, 512);
        heard.extend_from_slice(&out);
        assert!(!report.underrun);
        if report.complete {
            complete = true;
            break;
        }
    }
    assert!(complete);
    assert_eq!(heard.len(), 24 * 512);
    assert_eq!(&heard[0..12000], &played[..]);
    assert!(heard[12000..].iter().all(|x| *x == 0.0));
}

#[test]
fn after_level_two_every_buffer_is_silence() {
    let terminator = Terminator::new();
    let window = LoopWindow { left: 0, right: usize::MAX, mix: false };
    let (sent, _) = run_engine(window, 2, stereo_packets(2000, 100), &terminator, 1);
    let mut consumer: PlaybackConsumer<f32> = PlaybackConsumer::new();
    let mut queue: VecDeque<(usize, Vec<f32>)> = sent.into_iter().collect();

    let (out, report) = callback(&mut consumer, &mut queue, false, &terminator, 300);
    assert!(out.iter().all(|x| *x != 0.0));
    assert!(!report.complete);
    assert!(consumer.leftover_len() > 0);

    assert!(!terminator.interrupt());
    assert_eq!(terminator.fetch(), 2);
    for _ in 0..3 {
        let (out, report) = callback(&mut consumer, &mut queue, false, &terminator, 300);
        assert_eq!(out, vec![0.0; 300]);
        assert!(report.complete);
        assert!(report.discard_queued);
        assert_eq!(report.moved_to, None);
        assert!(queue.is_empty());
    }
}

#[test]
fn a_starved_callback_is_padded_and_the_next_one_is_in_step() {
    let mut consumer: PlaybackConsumer<f32> = PlaybackConsumer::new();
    let terminator = Terminator::new();
    let mut queue: VecDeque<(usize, Vec<f32>)> = VecDeque::new();
    queue.push_back((0, vec![1.0; 150]));
    let (out, report) = callback(&mut consumer, &mut queue, false, &terminator, 256);
    assert_eq!(&out[..150], &vec![1.0f32; 150][..]);
    assert_eq!(&out[150..], &vec![0.0f32; 106][..]);
    assert!(report.underrun);
    assert!(!report.complete);
    assert_eq!(report.moved_to, Some(0));

    queue.push_back((150, vec![2.0; 256]));
    queue.push_back((406, vec![3.0; 256]));
    let (out, report) = callback(&mut consumer, &mut queue, false, &terminator, 256);
    assert_eq!(out, vec![2.0; 256]);
    assert!(!report.underrun);
    assert_eq!(report.moved_to, Some(150));
    let (out, report) = callback(&mut consumer, &mut queue, false, &terminator, 256);
    assert_eq!(out, vec![3.0; 256]);
    assert!(!report.underrun);
    assert_eq!(report.moved_to, Some(406));
}

#[test]
fn a_wrap_to_a_lower_position_marks_the_loop() {
    // Six seconds of stereo at 1000 Hz; the loop runs from second one to the end.
    let terminator = Terminator::new();
    let window = LoopWindow { left: 2000, right: 12000, mix: false };
    let (sent, published) = run_engine(window, 2, stereo_packets(6000, 250), &terminator, 2);
    assert_eq!(published, vec![12000]);
    let tags: Vec<usize> = sent.iter().map(|(tag, _)| *tag).collect();
    let mut consumer: PlaybackConsumer<f32> = PlaybackConsumer::new();
    let mut pace = Pace::new(2000);
    let mut queue: VecDeque<(usize, Vec<f32>)> = sent.into_iter().collect();
    let mut positions = Vec::new();
    let mut shown = Vec::new();
    loop {
        let (_, report) = callback(&mut consumer, &mut queue, true, &terminator, 500);
        if let Some(p) = report.moved_to {
            positions.push(p);
            if pace.moved(p) {
                shown.push(p / 2000);
            }
        }
        if report.complete {
            break;
        }
    }
    // Every position reported is the tag of a packet.
    assert!(positions.iter().all(|p| tags.contains(p)));
    // The stream while it is captured, tagged every 500 samples; then each
    // pass in chunks of 4096 samples, tagged 2000, 6096 and 10192.
    let mut expected: Vec<usize> = (0..24).map(|k| k * 500).collect();
    expected.extend_from_slice(&[2000, 6096, 10192, 2000, 6096, 10192]);
    assert_eq!(positions, expected);
    // A position falls only where a pass begins, and then to the left edge.
    let falls: Vec<usize> =
        positions.windows(2).filter(|pair| pair[1] < pair[0]).map(|pair| pair[1]).collect();
    assert_eq!(falls, vec![2000, 2000]);
    // The line is drawn again when the second changes.
    assert_eq!(shown, vec![0, 1, 2, 3, 4, 5, 1, 3, 5, 1, 3, 5]);
}

#[test]
fn a_wrap_within_one_second_is_reported() {
    // A loop of 300 samples inside the first second of a mono stream at 1000 Hz.
    let terminator = Terminator::new();
    let window = LoopWindow { left: 200, right: 500, mix: false };
    let mut engine: LoopEngine<f32> = LoopEngine::new(window, 1);
    let mut source: VecDeque<Vec<f32>> = VecDeque::new();
    source.push_back((0..700).map(|x| x as f32).collect());
    let mut sent = Vec::new();
    let mut polls = 0;
    let mut event = Event::Begin;
    loop {
        event = match engine.step(event, &add, &ramp) {
            Request::Receive => match source.pop_front() {
                Some(buffer) => Event::Received(buffer),
                None => Event::Closed,
            },
            Request::Send { tag, samples } | Request::Offer { tag, samples } => {
                sent.push((tag, samples));
                Event::Sent
            },
            Request::Publish { .. } => Event::Published,
            Request::Poll => {
                polls += 1;
                Event::Looping(polls <= 2)
            },
            Request::Stop => break,
        };
    }
    let mut consumer: PlaybackConsumer<f32> = PlaybackConsumer::new();
    let mut queue: VecDeque<(usize, Vec<f32>)> = sent.into_iter().collect();
    let mut positions = Vec::new();
    loop {
        let (_, report) = callback(&mut consumer, &mut queue, true, &terminator, 100);
        if let Some(p) = report.moved_to {
            positions.push(p);
        }
        if report.complete {
            break;
        }
    }
    // Before the loop, the loop as captured, one pass (the second pass has
    // the same tag and is no change), then the tail.
    assert_eq!(positions, vec![0, 200, 500]);
    let mut consumer: PlaybackConsumer<f32> = PlaybackConsumer::new();
    let mut heard = Vec::new();
    for tag in [0usize, 200, 300, 400, 200, 300, 400, 500] {
        let mut out = vec![0.0f32; 100];
        assert_eq!(consumer.begin(&mut out, false, 0.0), Filling::More);
        match consumer.feed(&mut out, Poll::Packet(tag, vec![0.5; 100]), &unity, 0.0) {
            Filling::Done(report) => heard.push(report.moved_to),
            Filling::More => panic!("the buffer was full"),
        }
    }
    assert_eq!(
        heard,
        vec![Some(0), Some(200), Some(300), Some(400), Some(200), Some(300), Some(400), Some(500)]
    );
}
