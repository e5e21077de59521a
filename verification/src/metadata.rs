//! Stream format checks and loop metadata.
//!
//! A stream carries a list of comments, each a key and a value. Five keys,
//! read without regard to case, describe the loop: `LOOP_START` and `LOOP_END`
//! in seconds, `LOOPSTART` and `LOOPLENGTH` in frames, and `LOOP_MIX`, whose
//! presence alone counts. Converting seconds to frames needs arithmetic on
//! fractions and is left to the caller; everything else is decided here.

use vstd::prelude::*;
use vstd::string::StringSliceAdditionalSpecFns;
use vstd::utf8::encode_utf8;

verus! {

/// Why a stream cannot be played.
#[derive(Debug, Clone, Copy, PartialEq, Eq, Structural)]
pub enum ConfigError {
    /// The stream has a channel count other than one or two.
    UnhandledChannelCount(u8),
    /// The stream claims a sample rate of zero.
    ZeroSampleRate,
    /// The value of this loop tag is not a number.
    MalformedTag(LoopTag),
}

/// The loop tags that carry a number.
#[derive(Debug, Clone, Copy, PartialEq, Eq, Structural)]
pub enum LoopTag {
    /// `LOOP_START`, in seconds.
    StartSeconds,
    /// `LOOP_END`, in seconds.
    EndSeconds,
    /// `LOOPSTART`, in frames.
    StartFrames,
    /// `LOOPLENGTH`, in frames.
    LengthFrames,
}

/// The format of a stream that can be played.
#[derive(Debug, Clone, Copy, PartialEq, Eq, Structural)]
pub struct StreamFormat {
    pub channel_count: u32,
    pub sample_rate: u32,
}

impl StreamFormat {
    /// How many samples make up one second of the stream: the sample rate
    /// times the channel count, or the largest count where that does not fit.
    pub fn time_unit(&self) -> (r: usize)
        ensures
            r == capped_product(self.sample_rate as usize, self.channel_count as usize),
    {
        match (self.sample_rate as usize).checked_mul(self.channel_count as usize) {
            Some(v) => v,
            None => usize::MAX,
        }
    }
}

/// Accepts mono and stereo streams with a sample rate other than zero.
pub fn check_format(audio_channels: u8, audio_sample_rate: u32) -> (r: Result<
    StreamFormat,
    ConfigError,
>)
    ensures
        r == if audio_channels != 1 && audio_channels != 2 {
            Err::<StreamFormat, ConfigError>(ConfigError::UnhandledChannelCount(audio_channels))
        } else if audio_sample_rate == 0 {
            Err(ConfigError::ZeroSampleRate)
        } else {
            Ok(
                (StreamFormat {
                    channel_count: audio_channels as u32,
                    sample_rate: audio_sample_rate,
                }),
            )
        },
{
    if audio_channels != 1 && audio_channels != 2 {
        return Err(ConfigError::UnhandledChannelCount(audio_channels));
    }
    if audio_sample_rate == 0 {
        return Err(ConfigError::ZeroSampleRate);
    }
    Ok(StreamFormat { channel_count: audio_channels as u32, sample_rate: audio_sample_rate })
}

/// An ASCII capital letter becomes its small letter; any other byte stays.
pub open spec fn lower_byte(b: u8) -> u8 {
    if 65 <= b <= 90 {
        (b + 32) as u8
    } else {
        b
    }
}

/// The bytes of a text with its ASCII capitals made small.
pub open spec fn lowered(bytes: Seq<u8>) -> Seq<u8> {
    Seq::new(bytes.len(), |j: int| lower_byte(bytes[j]))
}

/// Whether a comment key names the tag `name`, which is written in small
/// letters.
pub open spec fn key_names(key: Seq<char>, name: Seq<char>) -> bool {
    lowered(encode_utf8(key)) == encode_utf8(name)
}

/// The value of the last comment whose key names `name`, if there is one.
pub open spec fn value_named(comments: Seq<(String, String)>, name: Seq<char>) -> Option<
    Seq<char>,
>
    decreases comments.len(),
{
    if comments.len() == 0 {
        None
    } else if key_names(comments.last().0@, name) {
        Some(comments.last().1@)
    } else {
        value_named(comments.drop_last(), name)
    }
}

/// What an optional text holds.
pub open spec fn text_of(value: Option<String>) -> Option<Seq<char>> {
    match value {
        Some(s) => Some(s@),
        None => None,
    }
}

/// Makes an ASCII capital letter small.
pub fn lower(b: u8) -> (r: u8)
    ensures
        r == lower_byte(b),
{
    if b >= 65 && b <= 90 {
        b + 32
    } else {
        b
    }
}

/// Compares a comment key with a tag name written in small letters, without
/// regard to the case of the key's ASCII letters.
pub fn key_matches(key: &str, name: &str) -> (r: bool)
    ensures
        r == key_names(key@, name@),
{
    let k = key.as_bytes();
    let n = name.as_bytes();
    if k.len() != n.len() {
        return false;
    }
    let len: usize = k.len();
    let mut j: usize = 0;
    while j < len
        invariant
            j <= len,
            len == k@.len(),
            len == n@.len(),
            k@ == key.spec_bytes(),
            n@ == name.spec_bytes(),
            forall|m: int| 0 <= m < j ==> lower_byte(k@[m]) == n@[m],
        decreases len - j,
    {
        if lower(k[j]) != n[j] {
            assert(lowered(k@)[j as int] != n@[j as int]);
            return false;
        }
        j += 1;
    }
    assert(lowered(k@) =~= n@);
    true
}

/// The loop tags found among a stream's comments.
#[derive(Debug, Clone)]
pub struct LoopTags {
    /// The value of `LOOP_START`.
    pub loop_start: Option<String>,
    /// The value of `LOOP_END`.
    pub loop_end: Option<String>,
    /// The value of `LOOPSTART`.
    pub loopstart: Option<String>,
    /// The value of `LOOPLENGTH`.
    pub looplength: Option<String>,
    /// Whether `LOOP_MIX` is present.
    pub loop_mix: bool,
}

/// Picks the loop tags out of a stream's comments. Where a key occurs more
/// than once, its last value counts.
pub fn find_loop_tags(comments: &Vec<(String, String)>) -> (tags: LoopTags)
    ensures
        text_of(tags.loop_start) == value_named(comments@, "loop_start"@),
        text_of(tags.loop_end) == value_named(comments@, "loop_end"@),
        text_of(tags.loopstart) == value_named(comments@, "loopstart"@),
        text_of(tags.looplength) == value_named(comments@, "looplength"@),
        tags.loop_mix == value_named(comments@, "loop_mix"@).is_some(),
{
    let mut tags = LoopTags {
        loop_start: None,
        loop_end: None,
        loopstart: None,
        looplength: None,
        loop_mix: false,
    };
    let n: usize = comments.len();
    let mut k: usize = 0;
    assert(comments@.take(0) =~= Seq::<(String, String)>::empty());
    while k < n
        invariant
            k <= n,
            n == comments@.len(),
            text_of(tags.loop_start) == value_named(
                comments@.take(k as int),
                "loop_start"@,
            ),
            text_of(tags.loop_end) == value_named(
                comments@.take(k as int),
                "loop_end"@,
            ),
            text_of(tags.loopstart) == value_named(
                comments@.take(k as int),
                "loopstart"@,
            ),
            text_of(tags.looplength) == value_named(
                comments@.take(k as int),
                "looplength"@,
            ),
            tags.loop_mix == value_named(comments@.take(k as int), "loop_mix"@).is_some(),
        decreases n - k,
    {
        let key = comments[k].0.as_str();
        let ghost before = comments@.take(k as int);
        let ghost upto = comments@.take(k + 1);
        assert(upto.drop_last() =~= before);
        assert(upto.last() == comments@[k as int]);
        if key_matches(key, "loop_start") {
            tags.loop_start = Some(comments[k].1.clone());
        }
        if key_matches(key, "loop_end") {
            tags.loop_end = Some(comments[k].1.clone());
        }
        if key_matches(key, "loopstart") {
            tags.loopstart = Some(comments[k].1.clone());
        }
        if key_matches(key, "looplength") {
            tags.looplength = Some(comments[k].1.clone());
        }
        if key_matches(key, "loop_mix") {
            tags.loop_mix = true;
        }
        k += 1;
    }
    assert(comments@.take(n as int) =~= comments@);
    tags
}

/// Whether a byte is an ASCII decimal digit.
pub open spec fn is_digit(b: u8) -> bool {
    48 <= b <= 57
}

/// The number that a run of decimal digits writes, most significant first.
pub open spec fn digits_value(digits: Seq<u8>) -> nat
    decreases digits.len(),
{
    if digits.len() == 0 {
        0
    } else {
        digits_value(digits.drop_last()) * 10 + (digits.last() - 48) as nat
    }
}

/// A number's bytes without the one plus sign that may stand in front.
pub open spec fn unsigned_part(bytes: Seq<u8>) -> Seq<u8> {
    if bytes.len() > 0 && bytes[0] == 43 {
        bytes.skip(1)
    } else {
        bytes
    }
}

/// One digit or more, and nothing else.
pub open spec fn all_digits(digits: Seq<u8>) -> bool {
    &&& digits.len() > 0
    &&& forall|j: int| 0 <= j < digits.len() ==> is_digit(#[trigger] digits[j])
}

/// The count that a text writes in decimal: digits only, after at most one
/// plus sign. No spaces, no minus sign, no empty text.
pub open spec fn count_written(text: Seq<char>) -> Option<nat> {
    let digits = unsigned_part(encode_utf8(text));
    if all_digits(digits) {
        Some(digits_value(digits))
    } else {
        None
    }
}

/// The count that a text writes, where it writes one that fits the machine.
pub open spec fn count_parsed(text: Seq<char>) -> Option<usize> {
    match count_written(text) {
        Some(v) => if v <= usize::MAX {
            Some(v as usize)
        } else {
            None
        },
        None => None,
    }
}

proof fn lemma_digits_value_grows(digits: Seq<u8>, k: int)
    requires
        0 <= k <= digits.len(),
    ensures
        digits_value(digits.take(k)) <= digits_value(digits),
    decreases digits.len(),
{
    if k == digits.len() {
        assert(digits.take(k) =~= digits);
    } else {
        lemma_digits_value_grows(digits.drop_last(), k);
        assert(digits.drop_last().take(k) =~= digits.take(k));
    }
}

/// Reads a count written in decimal.
pub fn parse_count(text: &str) -> (r: Option<usize>)
    ensures
        r == count_parsed(text@),
{
    let b = text.as_bytes();
    let len: usize = b.len();
    let start: usize = if len > 0 && b[0] == 43 {
        1
    } else {
        0
    };
    let ghost digits = unsigned_part(b@);
    assert(digits =~= b@.subrange(start as int, len as int));
    if start == len {
        return None;
    }
    let mut acc: usize = 0;
    let mut j: usize = start;
    assert(b@.subrange(start as int, start as int) =~= Seq::<u8>::empty());
    while j < len
        invariant
            start <= j <= len,
            len == b@.len(),
            start < len,
            digits == b@.subrange(start as int, len as int),
            digits == unsigned_part(encode_utf8(text@)),
            forall|m: int| start <= m < j ==> is_digit(#[trigger] b@[m]),
            acc == digits_value(b@.subrange(start as int, j as int)),
        decreases len - j,
    {
        let c: u8 = b[j];
        if c < 48 || c > 57 {
            assert(!is_digit(digits[j - start]));
            return None;
        }
        let digit: usize = (c - 48) as usize;
        let ghost upto = b@.subrange(start as int, j + 1);
        assert(upto.drop_last() =~= b@.subrange(start as int, j as int));
        assert(upto.last() == c);
        assert(digits_value(upto) == acc * 10 + digit);
        if acc > (usize::MAX - digit) / 10 {
            proof {
                lemma_digits_value_grows(digits, j + 1 - start);
                assert(digits.take(j + 1 - start) =~= upto);
            }
            return None;
        }
        acc = acc * 10 + digit;
        j += 1;
    }
    assert(b@.subrange(start as int, len as int) =~= digits);
    assert forall|m: int| 0 <= m < digits.len() implies is_digit(#[trigger] digits[m]) by {
        assert(is_digit(b@[start + m]));
    }
    Some(acc)
}

/// What a loop tag that carries a number says, once its value has been read.
#[derive(Debug, Clone, Copy, PartialEq, Eq, Structural)]
pub enum Offset {
    /// The stream does not carry the tag.
    Absent,
    /// The tag is there, and its value is not a number.
    Malformed,
    /// The tag is there and gives this many frames.
    Frames(usize),
}

/// What a tag with a count in frames says.
pub open spec fn frames_written(value: Option<Seq<char>>) -> Offset {
    match value {
        None => Offset::Absent,
        Some(text) => match count_parsed(text) {
            Some(n) => Offset::Frames(n),
            None => Offset::Malformed,
        },
    }
}

/// Reads the value of a tag that counts frames.
pub fn frame_offset(value: &Option<String>) -> (r: Offset)
    ensures
        r == frames_written(text_of(*value)),
{
    match value {
        None => Offset::Absent,
        Some(text) => match parse_count(text.as_str()) {
            Some(n) => Offset::Frames(n),
            None => Offset::Malformed,
        },
    }
}

/// The product of two counts, or the largest count where it does not fit.
pub open spec fn capped_product(a: usize, b: usize) -> usize {
    if a * b > usize::MAX {
        usize::MAX
    } else {
        (a * b) as usize
    }
}

/// The sum of two counts, or the largest count where it does not fit.
pub open spec fn capped_sum(a: usize, b: usize) -> usize {
    if a + b > usize::MAX {
        usize::MAX
    } else {
        (a + b) as usize
    }
}

/// The loop window of a stream, in samples: frames times channels. A right
/// edge of `usize::MAX` stands for an end that is not known yet.
#[derive(Debug, Clone, Copy, PartialEq, Eq, Structural)]
pub struct LoopWindow {
    /// The offset of the first sample of the loop.
    pub left: usize,
    /// The offset of the first sample after the loop.
    pub right: usize,
    /// Whether what follows the loop is mixed back onto its start.
    pub mix: bool,
}

impl LoopWindow {
    /// Whether the right edge is known from the start.
    pub open spec fn right_known(self) -> bool {
        self.right != usize::MAX
    }

    /// Whether the window holds at least one sample, so that it can be looped.
    pub open spec fn playable(self) -> bool {
        self.left < self.right
    }

    /// The right edge to announce before the loop has been captured: zero
    /// stands for "not known yet".
    pub fn announced_right(&self) -> (r: usize)
        ensures
            r == if self.right_known() {
                self.right
            } else {
                0
            },
    {
        if self.right == usize::MAX {
            0
        } else {
            self.right
        }
    }

    /// Whether the window holds at least one sample.
    pub fn is_playable(&self) -> (r: bool)
        ensures
            r == self.playable(),
    {
        self.left < self.right
    }
}

/// The frame at which the loop starts: `LOOP_START` where the stream has it,
/// else `LOOPSTART`, else the start of the stream.
pub open spec fn left_frames(loop_start: Offset, loopstart: Offset) -> Result<usize, ConfigError> {
    match loop_start {
        Offset::Frames(n) => Ok(n),
        Offset::Malformed => Err(ConfigError::MalformedTag(LoopTag::StartSeconds)),
        Offset::Absent => match loopstart {
            Offset::Frames(n) => Ok(n),
            Offset::Malformed => Err(ConfigError::MalformedTag(LoopTag::StartFrames)),
            Offset::Absent => Ok(0usize),
        },
    }
}

/// The frame before which the loop ends: `LOOP_END` where the stream has it,
/// else `LOOPLENGTH` frames after the start, else unknown.
pub open spec fn right_frames(left: usize, loop_end: Offset, looplength: Offset) -> Result<
    usize,
    ConfigError,
> {
    match loop_end {
        Offset::Frames(n) => Ok(n),
        Offset::Malformed => Err(ConfigError::MalformedTag(LoopTag::EndSeconds)),
        Offset::Absent => match looplength {
            Offset::Frames(n) => Ok(capped_sum(left, n)),
            Offset::Malformed => Err(ConfigError::MalformedTag(LoopTag::LengthFrames)),
            Offset::Absent => Ok(usize::MAX),
        },
    }
}

/// The loop window that the tags describe. The start is settled before the
/// end, so a malformed start is reported even where the end is malformed too.
pub open spec fn window_described(
    loop_start: Offset,
    loopstart: Offset,
    loop_end: Offset,
    looplength: Offset,
    loop_mix: bool,
    channel_count: u32,
) -> Result<LoopWindow, ConfigError> {
    match left_frames(loop_start, loopstart) {
        Err(e) => Err(e),
        Ok(left) => match right_frames(left, loop_end, looplength) {
            Err(e) => Err(e),
            Ok(right) => Ok(
                (LoopWindow {
                    left: capped_product(left, channel_count as usize),
                    right: capped_product(right, channel_count as usize),
                    mix: loop_mix,
                }),
            ),
        },
    }
}

fn scale_by_channels(frames: usize, channel_count: u32) -> (r: usize)
    ensures
        r == capped_product(frames, channel_count as usize),
{
    match frames.checked_mul(channel_count as usize) {
        Some(v) => v,
        None => usize::MAX,
    }
}

/// Settles the loop window from what the four numeric tags say. `loop_start`
/// and `loop_end` are the tags in seconds, already converted to frames.
pub fn resolve_window(
    loop_start: Offset,
    loopstart: Offset,
    loop_end: Offset,
    looplength: Offset,
    loop_mix: bool,
    channel_count: u32,
) -> (r: Result<LoopWindow, ConfigError>)
    ensures
        r == window_described(loop_start, loopstart, loop_end, looplength, loop_mix, channel_count),
{
    let left: usize = match loop_start {
        Offset::Frames(n) => n,
        Offset::Malformed => { return Err(ConfigError::MalformedTag(LoopTag::StartSeconds)); },
        Offset::Absent => match loopstart {
            Offset::Frames(n) => n,
            Offset::Malformed => {
                return Err(ConfigError::MalformedTag(LoopTag::StartFrames));
            },
            Offset::Absent => 0,
        },
    };
    let right: usize = match loop_end {
        Offset::Frames(n) => n,
        Offset::Malformed => { return Err(ConfigError::MalformedTag(LoopTag::EndSeconds)); },
        Offset::Absent => match looplength {
            Offset::Frames(n) => left.saturating_add(n),
            Offset::Malformed => {
                return Err(ConfigError::MalformedTag(LoopTag::LengthFrames));
            },
            Offset::Absent => usize::MAX,
        },
    };
    Ok(
        LoopWindow {
            left: scale_by_channels(left, channel_count),
            right: scale_by_channels(right, channel_count),
            mix: loop_mix,
        },
    )
}

/// A stream without loop tags loops from its first sample to an end that is
/// found by decoding it.
pub proof fn lemma_untagged_window(loop_mix: bool, channel_count: u32)
    requires
        channel_count >= 1,
    ensures
        window_described(
            Offset::Absent,
            Offset::Absent,
            Offset::Absent,
            Offset::Absent,
            loop_mix,
            channel_count,
        ) == Ok::<LoopWindow, ConfigError>(
            (LoopWindow { left: 0, right: usize::MAX, mix: loop_mix }),
        ),
{
    assert(usize::MAX * (channel_count as usize) >= usize::MAX) by (nonlinear_arith)
        requires
            channel_count as usize >= 1,
    ;
    assert(0usize * (channel_count as usize) == 0);
}

/// Tags given in seconds and converted to `start` and `end` frames give a
/// window of `start` times the channel count to `end` times the channel
/// count, wherever those products fit the machine.
pub proof fn lemma_seconds_window(
    start: usize,
    end: usize,
    loopstart: Offset,
    looplength: Offset,
    loop_mix: bool,
    channel_count: u32,
)
    requires
        start * channel_count <= usize::MAX,
        end * channel_count <= usize::MAX,
    ensures
        window_described(
            Offset::Frames(start),
            loopstart,
            Offset::Frames(end),
            looplength,
            loop_mix,
            channel_count,
        ) == Ok::<LoopWindow, ConfigError>(
            (LoopWindow {
                left: (start * channel_count) as usize,
                right: (end * channel_count) as usize,
                mix: loop_mix,
            }),
        ),
{
}

} // verus!
