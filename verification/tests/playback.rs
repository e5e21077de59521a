use loop_player::playback::Filling;
use loop_player::playback::PlaybackConsumer;
use loop_player::playback::Poll;
use loop_player::playback::Report;

fn unity(x: f32) -> f32 {
    x
}

fn halve(x: f32) -> f32 {
    x * 0.5
}

fn quiet_report() -> Report {
    Report { complete: false, discard_queued: false, underrun: false, moved_to: None }
}

#[test]
fn hard_stop_silences_the_buffer() {
    let mut consumer: PlaybackConsumer<f32> = PlaybackConsumer::new();
    let mut out = vec![9.0f32; 6];
    let r = consumer.begin(&mut out, true, 0.0);
    assert_eq!(out, vec![0.0; 6]);
    assert_eq!(
        r,
        Filling::Done(Report {
            complete: true,
            discard_queued: true,
            underrun: false,
            moved_to: None
        })
    );
}

#[test]
fn a_packet_that_fits_leaves_room() {
    let mut consumer: PlaybackConsumer<f32> = PlaybackConsumer::new();
    let mut out = vec![9.0f32; 6];
    assert_eq!(consumer.begin(&mut out, false, 0.0), Filling::More);
    assert_eq!(out, vec![9.0; 6]);
    let r = consumer.feed(&mut out, Poll::Packet(8, vec![1.0, 2.0, 3.0, 4.0]), &unity, 0.0);
    assert_eq!(r, Filling::More);
    assert_eq!(out, vec![1.0, 2.0, 3.0, 4.0, 9.0, 9.0]);
    assert_eq!(consumer.leftover_len(), 0);
}

#[test]
fn surplus_is_left_over_for_the_next_callback() {
    let mut consumer: PlaybackConsumer<f32> = PlaybackConsumer::new();
    let mut out = vec![9.0f32; 4];
    assert_eq!(consumer.begin(&mut out, false, 0.0), Filling::More);
    let r = consumer.feed(
        &mut out,
        Poll::Packet(8, vec![1.0, 2.0, 3.0, 4.0, 5.0, 6.0, 7.0, 8.0, 9.0, 10.0]),
        &unity,
        0.0,
    );
    assert_eq!(out, vec![1.0, 2.0, 3.0, 4.0]);
    assert_eq!(r, Filling::Done(Report { moved_to: Some(8), ..quiet_report() }));
    assert_eq!(consumer.leftover_len(), 6);
    // The next callback is filled from the leftovers alone.
    let mut out = vec![9.0f32; 4];
    let r = consumer.begin(&mut out, false, 0.0);
    assert_eq!(out, vec![5.0, 6.0, 7.0, 8.0]);
    assert_eq!(r, Filling::Done(quiet_report()));
    assert_eq!(consumer.leftover_len(), 2);
    // The one after takes the last two and wants more.
    let mut out = vec![9.0f32; 4];
    assert_eq!(consumer.begin(&mut out, false, 0.0), Filling::More);
    assert_eq!(out, vec![9.0, 10.0, 9.0, 9.0]);
    assert_eq!(consumer.leftover_len(), 0);
    let r = consumer.feed(&mut out, Poll::Packet(18, vec![11.0, 12.0]), &unity, 0.0);
    assert_eq!(out, vec![9.0, 10.0, 11.0, 12.0]);
    assert_eq!(r, Filling::Done(Report { moved_to: Some(18), ..quiet_report() }));
}

#[test]
fn the_gain_scales_what_is_played_and_what_is_left_over() {
    let mut consumer: PlaybackConsumer<f32> = PlaybackConsumer::new();
    let mut out = vec![9.0f32; 2];
    assert_eq!(consumer.begin(&mut out, false, 0.0), Filling::More);
    let _ = consumer.feed(&mut out, Poll::Packet(0, vec![1.0, 2.0, 3.0]), &halve, 0.0);
    assert_eq!(out, vec![0.5, 1.0]);
    let mut out = vec![9.0f32; 2];
    assert_eq!(consumer.begin(&mut out, false, 0.0), Filling::More);
    // The leftover was scaled when its packet arrived, and is not scaled again.
    assert_eq!(out, vec![1.5, 9.0]);
}

#[test]
fn an_empty_queue_is_an_underrun() {
    let mut consumer: PlaybackConsumer<f32> = PlaybackConsumer::new();
    let mut out = vec![9.0f32; 8];
    assert_eq!(consumer.begin(&mut out, false, 0.0), Filling::More);
    let r = consumer.feed(&mut out, Poll::Packet(12, vec![1.0, 2.0, 3.0, 4.0, 5.0]), &unity, 0.0);
    assert_eq!(r, Filling::More);
    let r = consumer.feed(&mut out, Poll::Empty, &unity, 0.0);
    assert_eq!(out, vec![1.0, 2.0, 3.0, 4.0, 5.0, 0.0, 0.0, 0.0]);
    assert_eq!(
        r,
        Filling::Done(Report {
            complete: false,
            discard_queued: false,
            underrun: true,
            moved_to: Some(12)
        })
    );
    // The callback after the underrun goes on where the stream goes on.
    let mut out = vec![9.0f32; 4];
    assert_eq!(consumer.begin(&mut out, false, 0.0), Filling::More);
    let r = consumer.feed(&mut out, Poll::Packet(17, vec![6.0, 7.0, 8.0, 9.0]), &unity, 0.0);
    assert_eq!(out, vec![6.0, 7.0, 8.0, 9.0]);
    assert_eq!(r, Filling::Done(Report { moved_to: Some(17), ..quiet_report() }));
}

#[test]
fn an_underrun_with_nothing_at_all_is_all_silence() {
    let mut consumer: PlaybackConsumer<f32> = PlaybackConsumer::new();
    let mut out = vec![9.0f32; 3];
    assert_eq!(consumer.begin(&mut out, false, 0.0), Filling::More);
    let r = consumer.feed(&mut out, Poll::Empty, &unity, 0.0);
    assert_eq!(out, vec![0.0; 3]);
    assert_eq!(r, Filling::Done(Report { underrun: true, ..quiet_report() }));
}

#[test]
fn a_closed_queue_completes_the_stream() {
    let mut consumer: PlaybackConsumer<f32> = PlaybackConsumer::new();
    let mut out = vec![9.0f32; 5];
    assert_eq!(consumer.begin(&mut out, false, 0.0), Filling::More);
    assert_eq!(consumer.feed(&mut out, Poll::Packet(0, vec![1.0, 2.0]), &unity, 0.0), Filling::More);
    let r = consumer.feed(&mut out, Poll::Closed, &unity, 0.0);
    assert_eq!(out, vec![1.0, 2.0, 0.0, 0.0, 0.0]);
    assert_eq!(
        r,
        Filling::Done(Report {
            complete: true,
            discard_queued: false,
            underrun: false,
            moved_to: None
        })
    );
}

#[test]
fn the_position_is_reported_when_it_changes() {
    let mut consumer: PlaybackConsumer<f32> = PlaybackConsumer::new();
    let mut reports = Vec::new();
    for tag in [0usize, 4, 4, 9, 10, 25, 3, 3, 7] {
        let mut out = vec![0.0f32; 2];
        assert_eq!(consumer.begin(&mut out, false, 0.0), Filling::More);
        match consumer.feed(&mut out, Poll::Packet(tag, vec![1.0, 1.0]), &unity, 0.0) {
            Filling::Done(report) => reports.push(report.moved_to),
            Filling::More => panic!("the buffer was full"),
        }
    }
    // The report is the tag itself; a tag that was reported last is not
    // reported again; a wrap to a lower tag is reported like any change.
    assert_eq!(
        reports,
        vec![Some(0), Some(4), None, Some(9), Some(10), Some(25), Some(3), None, Some(7)]
    );
}

#[test]
fn a_callback_fed_from_leftovers_reports_nothing() {
    let mut consumer: PlaybackConsumer<f32> = PlaybackConsumer::new();
    let mut out = vec![0.0f32; 2];
    assert_eq!(consumer.begin(&mut out, false, 0.0), Filling::More);
    let r = consumer.feed(&mut out, Poll::Packet(7, vec![1.0; 6]), &unity, 0.0);
    assert_eq!(r, Filling::Done(Report { moved_to: Some(7), ..quiet_report() }));
    let mut out = vec![0.0f32; 2];
    assert_eq!(consumer.begin(&mut out, false, 0.0), Filling::Done(quiet_report()));
    // The same tag again, after callbacks that took no packet: no change.
    let mut out = vec![0.0f32; 4];
    assert_eq!(consumer.begin(&mut out, false, 0.0), Filling::More);
    let r = consumer.feed(&mut out, Poll::Packet(7, vec![2.0; 2]), &unity, 0.0);
    assert_eq!(r, Filling::Done(quiet_report()));
}

#[test]
fn the_last_packet_of_a_callback_gives_the_position() {
    let mut consumer: PlaybackConsumer<f32> = PlaybackConsumer::new();
    let mut out = vec![0.0f32; 4];
    assert_eq!(consumer.begin(&mut out, false, 0.0), Filling::More);
    assert_eq!(consumer.feed(&mut out, Poll::Packet(10, vec![1.0]), &unity, 0.0), Filling::More);
    assert_eq!(consumer.feed(&mut out, Poll::Packet(11, vec![]), &unity, 0.0), Filling::More);
    assert_eq!(consumer.feed(&mut out, Poll::Packet(12, vec![2.0, 3.0]), &unity, 0.0), Filling::More);
    let r = consumer.feed(&mut out, Poll::Packet(14, vec![4.0]), &unity, 0.0);
    assert_eq!(out, vec![1.0, 2.0, 3.0, 4.0]);
    assert_eq!(r, Filling::Done(Report { moved_to: Some(14), ..quiet_report() }));
}

#[test]
fn an_empty_output_buffer_is_ready_at_once() {
    let mut consumer: PlaybackConsumer<f32> = PlaybackConsumer::new();
    let mut out: Vec<f32> = vec![];
    assert_eq!(consumer.begin(&mut out, false, 0.0), Filling::Done(quiet_report()));
}
