//! Operations on interleaved sample buffers.
//!
//! A buffer is a sequence of samples of some copyable type `T`. The arithmetic
//! on single samples (blending two of them, scaling one) is supplied by the
//! caller as a function value; what this module fixes is which samples meet
//! and where each result lands.

use vstd::prelude::*;

verus! {

/// A two-sample blend that may be applied to any pair of samples.
pub open spec fn accepts_pairs<T, M: Fn(T, T) -> T>(mix: &M) -> bool {
    forall|a: T, b: T| #[trigger] mix.requires((a, b))
}

/// A ramp blend that may be applied to any pair of samples at any place in
/// a ramp of any length.
pub open spec fn accepts_ramps<T, X: Fn(T, T, usize, usize) -> T>(blend: &X) -> bool {
    forall|a: T, b: T, n: usize, k: usize| #[trigger] blend.requires((a, b, n, k))
}

/// A gain that may be applied to any sample.
pub open spec fn accepts_samples<T, G: Fn(T) -> T>(gain: &G) -> bool {
    forall|a: T| #[trigger] gain.requires((a,))
}

/// `after` is `before` with `incoming` mixed in sample by sample.
pub open spec fn mixed<T, M: Fn(T, T) -> T>(
    before: Seq<T>,
    incoming: Seq<T>,
    after: Seq<T>,
    mix: &M,
) -> bool {
    &&& after.len() == before.len()
    &&& forall|j: int|
        0 <= j < before.len() ==> mix.ensures((before[j], incoming[j]), #[trigger] after[j])
}

/// `after` is `before` cross-faded with `incoming` along a ramp as long as
/// `before`: for the sample at index `n`, the blend is told `n` and the
/// number of samples in `before`.
pub open spec fn crosslapped<T, X: Fn(T, T, usize, usize) -> T>(
    before: Seq<T>,
    incoming: Seq<T>,
    after: Seq<T>,
    blend: &X,
) -> bool {
    &&& after.len() == before.len()
    &&& forall|n: int|
        0 <= n < before.len() ==> blend.ensures(
            (before[n], incoming[n], n as usize, before.len() as usize),
            #[trigger] after[n],
        )
}

/// `after` is `before` with the gain applied to every sample.
pub open spec fn scaled<T, G: Fn(T) -> T>(before: Seq<T>, after: Seq<T>, gain: &G) -> bool {
    &&& after.len() == before.len()
    &&& forall|j: int| 0 <= j < before.len() ==> gain.ensures((before[j],), #[trigger] after[j])
}

/// Two channels woven into one buffer: left, right, left, right, ...
pub open spec fn interleaved<T>(left: Seq<T>, right: Seq<T>) -> Seq<T> {
    Seq::new(
        2 * left.len(),
        |j: int|
            if j % 2 == 0 {
                left[j / 2]
            } else {
                right[j / 2]
            },
    )
}

/// Mixes `i` onto `o`, sample by sample.
pub fn mix_onto<T: Copy, M: Fn(T, T) -> T>(o: &mut [T], i: &[T], mix: &M)
    requires
        old(o)@.len() == i@.len(),
        accepts_pairs(mix),
    ensures
        mixed(old(o)@, i@, final(o)@, mix),
{
    let n: usize = o.len();
    let mut k: usize = 0;
    while k < n
        invariant
            k <= n,
            n == i@.len(),
            o@.len() == n,
            old(o)@.len() == n,
            accepts_pairs(mix),
            forall|j: int| k <= j < n ==> o@[j] == old(o)@[j],
            forall|j: int| 0 <= j < k ==> mix.ensures((old(o)@[j], i@[j]), #[trigger] o@[j]),
        decreases n - k,
    {
        let r = mix(o[k], i[k]);
        o[k] = r;
        k += 1;
    }
}

/// Cross-fades `o` towards itself, starting from `i`: every sample of `o` is
/// replaced by the blend of itself and the sample of `i` at the same index,
/// weighted by its place in the ramp, which is as long as `o`.
pub fn crosslap_onto<T: Copy, X: Fn(T, T, usize, usize) -> T>(o: &mut [T], i: &[T], blend: &X)
    requires
        old(o)@.len() <= i@.len(),
        accepts_ramps(blend),
    ensures
        crosslapped(old(o)@, i@, final(o)@, blend),
{
    let k: usize = o.len();
    let mut n: usize = 0;
    while n < k
        invariant
            n <= k,
            k <= i@.len(),
            o@.len() == k,
            old(o)@.len() == k,
            accepts_ramps(blend),
            forall|j: int| n <= j < k ==> o@[j] == old(o)@[j],
            forall|j: int|
                0 <= j < n ==> blend.ensures((old(o)@[j], i@[j], j as usize, k), #[trigger] o@[j]),
        decreases k - n,
    {
        let r = blend(o[n], i[n], n, k);
        o[n] = r;
        n += 1;
    }
}

/// Applies the gain to every sample of the buffer.
pub fn apply_gain<T: Copy, G: Fn(T) -> T>(buf: &mut Vec<T>, gain: &G)
    requires
        accepts_samples(gain),
    ensures
        scaled(old(buf)@, final(buf)@, gain),
{
    let n: usize = buf.len();
    let mut k: usize = 0;
    while k < n
        invariant
            k <= n,
            buf@.len() == n,
            old(buf)@.len() == n,
            accepts_samples(gain),
            forall|j: int| k <= j < n ==> buf@[j] == old(buf)@[j],
            forall|j: int| 0 <= j < k ==> gain.ensures((old(buf)@[j],), #[trigger] buf@[j]),
        decreases n - k,
    {
        let r = gain(buf[k]);
        buf[k] = r;
        k += 1;
    }
}

/// A fresh buffer holding the samples of `src` from `from` up to `to`.
pub fn copy_range<T: Copy>(src: &Vec<T>, from: usize, to: usize) -> (r: Vec<T>)
    requires
        from <= to <= src@.len(),
    ensures
        r@ == src@.subrange(from as int, to as int),
{
    let mut r: Vec<T> = Vec::new();
    let mut k: usize = from;
    while k < to
        invariant
            from <= k <= to,
            to <= src@.len(),
            r@ == src@.subrange(from as int, k as int),
        decreases to - k,
    {
        r.push(src[k]);
        k += 1;
        assert(r@ =~= src@.subrange(from as int, k as int));
    }
    r
}

/// Appends the samples of `src` from `from` up to `to` to `dst`.
pub fn extend_from_range<T: Copy>(dst: &mut Vec<T>, src: &Vec<T>, from: usize, to: usize)
    requires
        from <= to <= src@.len(),
    ensures
        final(dst)@ == old(dst)@ + src@.subrange(from as int, to as int),
{
    let mut k: usize = from;
    assert(dst@ =~= old(dst)@ + src@.subrange(from as int, from as int));
    while k < to
        invariant
            from <= k <= to,
            to <= src@.len(),
            dst@ == old(dst)@ + src@.subrange(from as int, k as int),
        decreases to - k,
    {
        dst.push(src[k]);
        k += 1;
        assert(dst@ =~= old(dst)@ + src@.subrange(from as int, k as int));
    }
}

/// Weaves a left and a right channel of equal length into one buffer.
pub fn interleave<T: Copy>(left: &Vec<T>, right: &Vec<T>) -> (r: Vec<T>)
    requires
        left@.len() == right@.len(),
    ensures
        r@ == interleaved(left@, right@),
{
    let n: usize = left.len();
    let mut r: Vec<T> = Vec::new();
    let mut k: usize = 0;
    while k < n
        invariant
            k <= n,
            n == left@.len(),
            n == right@.len(),
            r@.len() == 2 * k,
            forall|j: int| 0 <= j < 2 * k ==> #[trigger] r@[j] == interleaved(left@, right@)[j],
        decreases n - k,
    {
        r.push(left[k]);
        r.push(right[k]);
        k += 1;
    }
    assert(r@ =~= interleaved(left@, right@));
    r
}

/// Overwrites the samples of `out` from `from` on with `value`.
pub fn fill_from<T: Copy>(out: &mut [T], from: usize, value: T)
    requires
        from <= old(out)@.len(),
    ensures
        final(out)@ == old(out)@.subrange(0, from as int) + Seq::new(
            (old(out)@.len() - from) as nat,
            |j: int| value,
        ),
{
    let n: usize = out.len();
    let mut k: usize = from;
    while k < n
        invariant
            from <= k <= n,
            out@.len() == n,
            old(out)@.len() == n,
            forall|j: int| 0 <= j < from ==> out@[j] == old(out)@[j],
            forall|j: int| from <= j < k ==> out@[j] == value,
        decreases n - k,
    {
        out[k] = value;
        k += 1;
    }
    assert(out@ =~= old(out)@.subrange(0, from as int) + Seq::new(
        (old(out)@.len() - from) as nat,
        |j: int| value,
    ));
}

/// Copies `src[from..from + len]` over `out[at..at + len]`.
pub fn copy_into<T: Copy>(out: &mut [T], at: usize, src: &Vec<T>, from: usize, len: usize)
    requires
        at + len <= old(out)@.len(),
        from + len <= src@.len(),
    ensures
        final(out)@ == old(out)@.subrange(0, at as int) + src@.subrange(
            from as int,
            from + len,
        ) + old(out)@.subrange(at + len, old(out)@.len() as int),
{
    let n: usize = out.len();
    let m: usize = src.len();
    let mut k: usize = 0;
    while k < len
        invariant
            k <= len,
            at + len <= n,
            from + len <= m,
            m == src@.len(),
            out@.len() == n,
            old(out)@.len() == n,
            forall|j: int| 0 <= j < at ==> out@[j] == old(out)@[j],
            forall|j: int| at + k <= j < n ==> out@[j] == old(out)@[j],
            forall|j: int| 0 <= j < k ==> #[trigger] out@[at + j] == src@[from + j],
        decreases len - k,
    {
        out[at + k] = src[from + k];
        k += 1;
    }
    assert forall|j: int| at <= j < at + len implies out@[j] == src@[from + (j - at)] by {
        assert(out@[at + (j - at)] == src@[from + (j - at)]);
    }
    assert(out@ =~= old(out)@.subrange(0, at as int) + src@.subrange(from as int, from + len)
        + old(out)@.subrange(at + len, old(out)@.len() as int));
}

} // verus!
