use loop_player::samples::apply_gain;
use loop_player::samples::copy_into;
use loop_player::samples::copy_range;
use loop_player::samples::crosslap_onto;
use loop_player::samples::extend_from_range;
use loop_player::samples::fill_from;
use loop_player::samples::interleave;
use loop_player::samples::mix_onto;

fn ramp(o: f32, i: f32, n: usize, k: usize) -> f32 {
    let o_scale = (n as f32 + 0.5) / (k as f32);
    let i_scale = 1.0 - o_scale;
    o * o_scale + i * i_scale
}

#[test]
fn mix_adds_sample_by_sample() {
    let mut o = vec![1.0f32, 2.0, 3.0];
    let i = vec![10.0f32, 20.0, 30.0];
    mix_onto(&mut o, &i, &|a: f32, b: f32| a + b);
    assert_eq!(o, vec![11.0, 22.0, 33.0]);
}

#[test]
fn mix_does_not_clamp() {
    let mut o = vec![0.9f32, -0.9];
    let i = vec![0.9f32, -0.9];
    mix_onto(&mut o, &i, &|a: f32, b: f32| a + b);
    assert_eq!(o, vec![1.8, -1.8]);
}

#[test]
fn mix_of_nothing_is_nothing() {
    let mut o: Vec<f32> = vec![];
    let i: Vec<f32> = vec![];
    mix_onto(&mut o, &i, &|a: f32, b: f32| a + b);
    assert!(o.is_empty());
}

#[test]
fn mix_hands_each_pair_over_in_order() {
    let mut o = vec![1, 2, 3];
    let i = vec![4, 5, 6];
    mix_onto(&mut o, &i, &|a: i32, b: i32| a * 10 + b);
    assert_eq!(o, vec![14, 25, 36]);
}

#[test]
fn crosslap_ramps_mono() {
    let mut o = vec![1.0f32; 4];
    let i = vec![0.0f32; 4];
    crosslap_onto(&mut o, &i, &ramp);
    assert_eq!(o, vec![0.125, 0.375, 0.625, 0.875]);
}

#[test]
fn crosslap_ramps_by_sample() {
    // Interleaved stereo: the ramp runs over the samples, not over the frames.
    let mut o = vec![8.0f32, 8.0, 8.0, 8.0];
    let i = vec![0.0f32, 0.0, 0.0, 0.0];
    crosslap_onto(&mut o, &i, &ramp);
    assert_eq!(o, vec![1.0, 3.0, 5.0, 7.0]);
    let mut o = vec![1.0f32, 2.0, 1.0, 2.0];
    let i = vec![0.0f32, 0.0, 0.0, 0.0];
    crosslap_onto(&mut o, &i, &ramp);
    assert_eq!(o, vec![0.125, 0.75, 0.625, 1.75]);
}

#[test]
fn crosslap_fades_from_the_tail_to_the_loop() {
    let mut o = vec![0.0f32; 4];
    let i = vec![8.0f32; 4];
    crosslap_onto(&mut o, &i, &ramp);
    assert_eq!(o, vec![7.0, 5.0, 3.0, 1.0]);
}

#[test]
fn crosslap_tells_the_place_and_the_length_of_the_ramp() {
    let mut o = vec![(0usize, 0usize); 6];
    let i = vec![(0usize, 0usize); 6];
    crosslap_onto(&mut o, &i, &|_a: (usize, usize), _b: (usize, usize), n: usize, k: usize| {
        (n, k)
    });
    assert_eq!(o, vec![(0, 6), (1, 6), (2, 6), (3, 6), (4, 6), (5, 6)]);
}

#[test]
fn crosslap_hands_each_pair_over_in_order() {
    let mut o = vec![1, 2, 3];
    let i = vec![4, 5, 6, 7];
    crosslap_onto(&mut o, &i, &|a: i32, b: i32, _n: usize, _k: usize| a * 10 + b);
    assert_eq!(o, vec![14, 25, 36]);
}

#[test]
fn crosslap_reads_only_as_much_as_it_writes() {
    let mut o = vec![1.0f32, 1.0];
    let i = vec![3.0f32, 3.0, 99.0, 99.0];
    crosslap_onto(&mut o, &i, &ramp);
    assert_eq!(o, vec![2.5, 1.5]);
}

#[test]
fn crosslap_of_nothing_is_nothing() {
    let mut o: Vec<f32> = vec![];
    let i = vec![1.0f32];
    crosslap_onto(&mut o, &i, &ramp);
    assert!(o.is_empty());
}

#[test]
fn gain_scales_every_sample() {
    let mut buf = vec![1.0f32, -2.0, 0.5];
    apply_gain(&mut buf, &|x: f32| x * 0.5);
    assert_eq!(buf, vec![0.5, -1.0, 0.25]);
}

#[test]
fn ranges_are_copied_and_appended() {
    let src = vec![1, 2, 3, 4, 5];
    assert_eq!(copy_range(&src, 1, 4), vec![2, 3, 4]);
    assert_eq!(copy_range(&src, 2, 2), Vec::<i32>::new());
    assert_eq!(copy_range(&src, 0, 5), src);
    let mut dst = vec![9];
    extend_from_range(&mut dst, &src, 3, 5);
    assert_eq!(dst, vec![9, 4, 5]);
}

#[test]
fn channels_are_interleaved() {
    let left = vec![1.0f32, 2.0, 3.0];
    let right = vec![-1.0f32, -2.0, -3.0];
    assert_eq!(interleave(&left, &right), vec![1.0, -1.0, 2.0, -2.0, 3.0, -3.0]);
    assert_eq!(interleave(&Vec::<f32>::new(), &Vec::<f32>::new()), Vec::<f32>::new());
}

#[test]
fn fill_overwrites_from_an_index_on() {
    let mut out = vec![1.0f32, 2.0, 3.0, 4.0];
    fill_from(&mut out, 1, 0.0);
    assert_eq!(out, vec![1.0, 0.0, 0.0, 0.0]);
    fill_from(&mut out, 4, 7.0);
    assert_eq!(out, vec![1.0, 0.0, 0.0, 0.0]);
}

#[test]
fn copy_into_overwrites_a_stretch() {
    let mut out = vec![0, 0, 0, 0, 0];
    let src = vec![1, 2, 3, 4];
    copy_into(&mut out, 1, &src, 2, 2);
    assert_eq!(out, vec![0, 3, 4, 0, 0]);
    copy_into(&mut out, 5, &src, 0, 0);
    assert_eq!(out, vec![0, 3, 4, 0, 0]);
}
