//! Format converter: resampling, downmixing and quantising of interleaved
//! sample buffers.
//!
//! The converter is generic over the sample type.  It decides which source
//! sample lands where, how frames are grouped and how 16-bit values are laid
//! out as bytes; the arithmetic on a single sample (averaging a frame, scaling
//! to 16 bits) is supplied by the caller as a function value.

use vstd::prelude::*;
use vstd::arithmetic::div_mod::lemma_fundamental_div_mod_converse;
use vstd::arithmetic::div_mod::lemma_fundamental_div_mod;
use vstd::slice::slice_to_vec;

verus! {

/// Number of whole output frames that resampling produces from `len`
/// interleaved samples: `floor(floor(len * to_rate / from_rate) / channels)`.
pub open spec fn resampled_frames(len: int, from_rate: int, to_rate: int, channels: int) -> int {
    (len * to_rate / from_rate) / channels
}

/// Number of output samples that resampling produces.
pub open spec fn resampled_len(len: int, from_rate: int, to_rate: int, channels: int) -> int {
    resampled_frames(len, from_rate, to_rate, channels) * channels
}

/// Index of the source frame that output frame `frame` is copied from:
/// `floor(frame * from_rate / to_rate)`.
pub open spec fn source_frame(frame: int, from_rate: int, to_rate: int) -> int {
    frame * from_rate / to_rate
}

/// Index into the source buffer that output sample `j` is copied from.
pub open spec fn source_index(j: int, from_rate: int, to_rate: int, channels: int) -> int {
    source_frame(j / channels, from_rate, to_rate) * channels + j % channels
}

/// Output sample `j` of a rate conversion: the source sample of the same
/// channel in the nearest earlier source frame, or `silence` where the source
/// buffer has no such sample.
pub open spec fn resampled_sample<T>(
    samples: Seq<T>,
    from_rate: int,
    to_rate: int,
    channels: int,
    silence: T,
    j: int,
) -> T {
    let src = source_index(j, from_rate, to_rate, channels);
    if 0 <= src < samples.len() {
        samples[src]
    } else {
        silence
    }
}

/// The resampled buffer.  Equal rates leave the buffer as it is; otherwise
/// every output frame is a copy of one source frame (nearest neighbour, no
/// interpolation and no band limiting, so downsampling may alias).
pub open spec fn resample_spec<T>(
    samples: Seq<T>,
    from_rate: int,
    to_rate: int,
    channels: int,
    silence: T,
) -> Seq<T> {
    if from_rate == to_rate {
        samples
    } else {
        Seq::new(
            resampled_len(samples.len() as int, from_rate, to_rate, channels) as nat,
            |j: int| resampled_sample(samples, from_rate, to_rate, channels, silence, j),
        )
    }
}

/// The rate conversion is defined for a buffer of `len` samples: the rates
/// are equal, or the source rate and the channel count are positive and the
/// length of the result fits the machine's word.
pub open spec fn resample_defined(len: int, from_rate: int, to_rate: int, channels: int) -> bool {
    from_rate != to_rate ==> from_rate > 0 && channels > 0 && resampled_len(
        len,
        from_rate,
        to_rate,
        channels,
    ) <= usize::MAX
}

proof fn lemma_split_index(frame: int, channel: int, channels: int)
    requires
        0 <= channel < channels,
        0 <= frame,
    ensures
        (frame * channels + channel) / channels == frame,
        (frame * channels + channel) % channels == channel,
{
    lemma_fundamental_div_mod_converse(frame * channels + channel, channels, frame, channel);
}

proof fn lemma_frames_fit(frames: int, channels: int, frame: int, channel: int)
    requires
        0 <= frame < frames,
        0 <= channel < channels,
    ensures
        frame * channels + channel < frames * channels,
        frame * channels + channels <= frames * channels,
        0 <= frame * channels,
{
    assert((frame + 1) * channels <= frames * channels) by (nonlinear_arith)
        requires
            frame + 1 <= frames,
            channels > 0,
    ;
    assert((frame + 1) * channels == frame * channels + channels) by (nonlinear_arith);
    assert(0 <= frame * channels) by (nonlinear_arith)
        requires
            0 <= frame,
            channels > 0,
    ;
}

/// Whether the rate conversion is defined for a buffer of `len` samples.
pub fn can_resample(len: usize, from_rate: u32, to_rate: u32, channels: u32) -> (r: bool)
    ensures
        r == resample_defined(len as int, from_rate as int, to_rate as int, channels as int),
{
    if from_rate == to_rate {
        return true;
    }
    if from_rate == 0 || channels == 0 {
        return false;
    }
    proof {
        assert(len * to_rate <= usize::MAX * 0x1_0000_0000) by (nonlinear_arith)
            requires
                len <= usize::MAX,
                to_rate < 0x1_0000_0000,
        ;
    }
    let scaled: u128 = (len as u128) * (to_rate as u128) / (from_rate as u128);
    let frames: u128 = scaled / (channels as u128);
    proof {
        lemma_whole_frames_fit(scaled as int, channels as int);
    }
    frames * (channels as u128) <= usize::MAX as u128
}

/// Converts `data` from `from_rate` to `to_rate` by nearest-neighbour frame
/// selection.  `silence` fills output samples whose source lies beyond the
/// end of `data`.
pub fn resample_audio<T: Copy>(
    data: &[T],
    from_rate: u32,
    to_rate: u32,
    channels: u32,
    silence: T,
) -> (out: Vec<T>)
    requires
        resample_defined(data@.len() as int, from_rate as int, to_rate as int, channels as int),
    ensures
        out@ == resample_spec(data@, from_rate as int, to_rate as int, channels as int, silence),
        from_rate == to_rate ==> out@ == data@,
        from_rate != to_rate ==> out@.len() == resampled_len(
            data@.len() as int,
            from_rate as int,
            to_rate as int,
            channels as int,
        ),
{
    if from_rate == to_rate {
        return slice_to_vec(data);
    }
    let len: usize = data.len();
    proof {
        assert(len * to_rate <= usize::MAX * 0x1_0000_0000) by (nonlinear_arith)
            requires
                len <= usize::MAX,
                to_rate < 0x1_0000_0000,
        ;
    }
    let scaled: u128 = (len as u128) * (to_rate as u128) / (from_rate as u128);
    let frames: u128 = scaled / (channels as u128);
    let ghost total: int = resampled_len(
        len as int,
        from_rate as int,
        to_rate as int,
        channels as int,
    );
    proof {
        assert(frames as int == resampled_frames(
            len as int,
            from_rate as int,
            to_rate as int,
            channels as int,
        ));
        if frames > 0 {
            // A non-empty result implies a positive target rate.
            assert(to_rate > 0) by {
                if to_rate == 0 {
                    assert((len as int) * 0 == 0);
                    assert(0int / (from_rate as int) == 0);
                }
            }
        }
    }
    let mut out: Vec<T> = Vec::new();
    let mut frame: u128 = 0;
    while frame < frames
        invariant
            from_rate != to_rate,
            from_rate > 0,
            channels > 0,
            len == data@.len(),
            frames as int == resampled_frames(
                len as int,
                from_rate as int,
                to_rate as int,
                channels as int,
            ),
            total == frames * channels,
            total <= usize::MAX,
            frames > 0 ==> to_rate > 0,
            frame <= frames,
            out@.len() == frame * channels,
            forall|j: int|
                0 <= j < out@.len() ==> out@[j] == resampled_sample(
                    data@,
                    from_rate as int,
                    to_rate as int,
                    channels as int,
                    silence,
                    j,
                ),
        decreases frames - frame,
    {
        proof {
            lemma_frames_fit(frames as int, channels as int, frame as int, 0);
            assert(frame <= frame * channels) by (nonlinear_arith)
                requires
                    0 <= frame,
                    channels >= 1,
            ;
            assert(frame * from_rate <= usize::MAX * 0x1_0000_0000) by (nonlinear_arith)
                requires
                    frame <= usize::MAX,
                    from_rate < 0x1_0000_0000,
                    0 <= frame,
            ;
        }
        let picked: u128 = frame * (from_rate as u128) / (to_rate as u128);
        proof {
            assert(picked as int == source_frame(frame as int, from_rate as int, to_rate as int));
            lemma_picked_bound(frame as int, from_rate as int, to_rate as int);
            assert(picked * channels <= usize::MAX * 0x1_0000_0000 * 0x1_0000_0000)
                by (nonlinear_arith)
                requires
                    picked <= usize::MAX * 0x1_0000_0000,
                    channels < 0x1_0000_0000,
                    0 <= picked,
            ;
        }
        let base: u128 = picked * (channels as u128);
        let mut channel: u32 = 0;
        while channel < channels
            invariant
                from_rate != to_rate,
                from_rate > 0,
                channels > 0,
                to_rate > 0,
                len == data@.len(),
                total == frames * channels,
                total <= usize::MAX,
                frame < frames,
                channel <= channels,
                base == source_frame(frame as int, from_rate as int, to_rate as int) * channels,
                base <= usize::MAX * 0x1_0000_0000 * 0x1_0000_0000,
                out@.len() == frame * channels + channel,
                forall|j: int|
                    0 <= j < out@.len() ==> out@[j] == resampled_sample(
                        data@,
                        from_rate as int,
                        to_rate as int,
                        channels as int,
                        silence,
                        j,
                    ),
            decreases channels - channel,
        {
            let src: u128 = base + (channel as u128);
            let ghost at: int = out@.len() as int;
            proof {
                lemma_split_index(frame as int, channel as int, channels as int);
                assert(src as int == source_index(
                    at,
                    from_rate as int,
                    to_rate as int,
                    channels as int,
                ));
            }
            if src < len as u128 {
                out.push(data[src as usize]);
            } else {
                out.push(silence);
            }
            channel = channel + 1;
        }
        proof {
            assert((frame + 1) * channels == frame * channels + channels) by (nonlinear_arith);
        }
        frame = frame + 1;
    }
    proof {
        assert(out@ =~= resample_spec(
            data@,
            from_rate as int,
            to_rate as int,
            channels as int,
            silence,
        ));
    }
    out
}

/// Resampling between equal rates returns the buffer unchanged, whatever the
/// rate and the channel count.
pub proof fn lemma_resample_same_rate<T>(samples: Seq<T>, rate: int, channels: int, silence: T)
    ensures
        resample_spec(samples, rate, rate, channels, silence) == samples,
{
}

/// Between different rates the resampled buffer holds
/// `floor(floor(len * to_rate / from_rate) / channels)` whole frames.  That
/// is `floor(len * to_rate / from_rate)` samples exactly when this number is
/// a whole number of frames, and fewer otherwise.
pub proof fn lemma_resample_len<T>(
    samples: Seq<T>,
    from_rate: int,
    to_rate: int,
    channels: int,
    silence: T,
)
    requires
        from_rate != to_rate,
        0 < from_rate,
        0 <= to_rate,
        0 < channels,
    ensures
        resample_spec(samples, from_rate, to_rate, channels, silence).len() == resampled_len(
            samples.len() as int,
            from_rate,
            to_rate,
            channels,
        ),
        resampled_len(samples.len() as int, from_rate, to_rate, channels) <= samples.len()
            * to_rate / from_rate,
        resampled_len(samples.len() as int, from_rate, to_rate, channels) == samples.len()
            * to_rate / from_rate <==> (samples.len() * to_rate / from_rate) % channels == 0,
{
    let len = samples.len() as int;
    assert(0 <= len * to_rate) by (nonlinear_arith)
        requires
            0 <= len,
            0 <= to_rate,
    ;
    vstd::arithmetic::div_mod::lemma_div_pos_is_pos(len * to_rate, from_rate);
    let scaled = len * to_rate / from_rate;
    lemma_whole_frames_fit(scaled, channels);
    lemma_fundamental_div_mod(scaled, channels);
    assert((scaled / channels) * channels == channels * (scaled / channels)) by (nonlinear_arith);
}

/// For mono audio the resampled buffer holds exactly
/// `floor(len * to_rate / from_rate)` samples, equal rates included.
pub proof fn lemma_resample_mono_len<T>(samples: Seq<T>, from_rate: int, to_rate: int, silence: T)
    requires
        0 < from_rate,
        0 <= to_rate,
    ensures
        resample_spec(samples, from_rate, to_rate, 1, silence).len() == samples.len() * to_rate
            / from_rate,
{
    let len = samples.len() as int;
    if from_rate == to_rate {
        vstd::arithmetic::div_mod::lemma_div_by_multiple(len, from_rate);
    } else {
        lemma_resample_len(samples, from_rate, to_rate, 1, silence);
    }
}

/// For a buffer of `frames` whole frames the resampled buffer holds
/// `floor(frames * to_rate / from_rate)` whole frames.
pub proof fn lemma_resample_whole_frames(frames: int, from_rate: int, to_rate: int, channels: int)
    requires
        0 <= frames,
        0 < from_rate,
        0 <= to_rate,
        0 < channels,
    ensures
        resampled_frames(frames * channels, from_rate, to_rate, channels) == frames * to_rate
            / from_rate,
{
    let whole = frames * to_rate;
    assert(0 <= whole) by (nonlinear_arith)
        requires
            0 <= frames,
            0 <= to_rate,
            whole == frames * to_rate,
    ;
    assert(frames * channels * to_rate == channels * whole) by (nonlinear_arith)
        requires
            whole == frames * to_rate,
    ;
    assert(0 <= channels * whole) by (nonlinear_arith)
        requires
            0 <= whole,
            0 < channels,
    ;
    vstd::arithmetic::div_mod::lemma_div_denominator(channels * whole, from_rate, channels);
    vstd::arithmetic::div_mod::lemma_div_multiples_vanish_quotient(channels, whole, from_rate);
    assert(from_rate * channels == channels * from_rate) by (nonlinear_arith);
}

/// Resampling a buffer of whole frames never pads: every output sample is a
/// copy of a source sample of the same channel.
pub proof fn lemma_resample_copies_source(
    frames: int,
    from_rate: int,
    to_rate: int,
    channels: int,
    j: int,
)
    requires
        0 <= frames,
        0 < from_rate,
        0 <= to_rate,
        0 < channels,
        0 <= j < resampled_len(frames * channels, from_rate, to_rate, channels),
    ensures
        0 <= source_index(j, from_rate, to_rate, channels) < frames * channels,
        source_index(j, from_rate, to_rate, channels) % channels == j % channels,
{
    lemma_resample_whole_frames(frames, from_rate, to_rate, channels);
    let out_frames = frames * to_rate / from_rate;
    let frame = j / channels;
    let channel = j % channels;
    lemma_fundamental_div_mod(j, channels);
    vstd::arithmetic::div_mod::lemma_mod_pos_bound(j, channels);
    assert(0 <= frame < out_frames) by (nonlinear_arith)
        requires
            j == channels * frame + channel,
            0 <= channel < channels,
            0 <= j < out_frames * channels,
    ;
    assert(0 <= frames * to_rate) by (nonlinear_arith)
        requires
            0 <= frames,
            0 <= to_rate,
    ;
    lemma_fundamental_div_mod(frames * to_rate, from_rate);
    vstd::arithmetic::div_mod::lemma_mod_pos_bound(frames * to_rate, from_rate);
    assert(to_rate > 0) by (nonlinear_arith)
        requires
            frames * to_rate == from_rate * out_frames + (frames * to_rate) % from_rate,
            (frames * to_rate) % from_rate < from_rate,
            0 < out_frames,
            0 <= to_rate,
            0 <= frames,
    ;
    let picked = source_frame(frame, from_rate, to_rate);
    lemma_picked_bound(frame, from_rate, to_rate);
    lemma_fundamental_div_mod(frame * from_rate, to_rate);
    vstd::arithmetic::div_mod::lemma_mod_pos_bound(frame * from_rate, to_rate);
    assert(picked < frames) by (nonlinear_arith)
        requires
            frame * from_rate == to_rate * picked + (frame * from_rate) % to_rate,
            0 <= (frame * from_rate) % to_rate,
            frames * to_rate == from_rate * out_frames + (frames * to_rate) % from_rate,
            0 <= (frames * to_rate) % from_rate,
            frame + 1 <= out_frames,
            0 < from_rate,
            0 < to_rate,
            0 <= picked,
    ;
    lemma_frames_fit(frames, channels, picked, channel);
    lemma_split_index(picked, channel, channels);
}

proof fn lemma_picked_bound(frame: int, from_rate: int, to_rate: int)
    requires
        0 <= frame,
        0 <= from_rate,
        0 < to_rate,
    ensures
        0 <= source_frame(frame, from_rate, to_rate) <= frame * from_rate,
{
    assert(0 <= frame * from_rate) by (nonlinear_arith)
        requires
            0 <= frame,
            0 <= from_rate,
    ;
    lemma_fundamental_div_mod(frame * from_rate, to_rate);
    let q = frame * from_rate / to_rate;
    let r = frame * from_rate % to_rate;
    assert(0 <= r < to_rate);
    assert(q >= 0 && q <= frame * from_rate) by (nonlinear_arith)
        requires
            frame * from_rate == to_rate * q + r,
            0 <= r < to_rate,
            0 < to_rate,
            0 <= frame * from_rate,
    ;
}

proof fn lemma_whole_frames_fit(len: int, channels: int)
    requires
        0 <= len,
        0 < channels,
    ensures
        0 <= (len / channels) * channels <= len,
{
    lemma_fundamental_div_mod(len, channels);
    vstd::arithmetic::div_mod::lemma_mod_pos_bound(len, channels);
    vstd::arithmetic::div_mod::lemma_div_pos_is_pos(len, channels);
    assert((len / channels) * channels == channels * (len / channels)) by (nonlinear_arith);
}

/// `value` is a result that `mix` may return for a frame holding `frame`.
pub open spec fn mixes_to<T, M: Fn(&[T]) -> T>(mix: M, frame: Seq<T>, value: T) -> bool {
    exists|s: &[T]| s@ == frame && #[trigger] mix.ensures((s,), value)
}

/// `mono` is a downmix of `samples`: the buffer itself where there is at most
/// one channel, else one value per whole frame, each obtained from `mix` on
/// that frame.  Samples after the last whole frame are left out.
pub open spec fn is_downmix_of<T, M: Fn(&[T]) -> T>(
    mix: M,
    samples: Seq<T>,
    channels: int,
    mono: Seq<T>,
) -> bool {
    if channels <= 1 {
        mono == samples
    } else {
        &&& mono.len() == (samples.len() as int) / channels
        &&& forall|i: int|
            0 <= i < mono.len() ==> mixes_to(
                mix,
                samples.subrange(i * channels, (i + 1) * channels),
                #[trigger] mono[i],
            )
    }
}

/// Reduces interleaved multi-channel audio to one channel.  `mix` is called
/// once per whole frame, in order, and its results are the output; it is the
/// caller's average of one frame.  Audio that is already mono is returned
/// unchanged and `mix` is not called.
pub fn convert_to_mono<T: Copy, M: Fn(&[T]) -> T>(data: &[T], channels: u32, mix: M) -> (out: Vec<T>)
    requires
        channels > 1 ==> forall|s: &[T]| s@.len() == channels ==> #[trigger] mix.requires((s,)),
    ensures
        is_downmix_of(mix, data@, channels as int, out@),
        channels <= 1 ==> out@ == data@,
        channels > 1 ==> out@.len() == (data@.len() as int) / (channels as int),
{
    if channels <= 1 {
        return slice_to_vec(data);
    }
    let width: usize = channels as usize;
    let len: usize = data.len();
    let frames: usize = len / width;
    let mut out: Vec<T> = Vec::new();
    let mut i: usize = 0;
    while i < frames
        invariant
            channels > 1,
            width == channels,
            len == data@.len(),
            frames == (data@.len() as int) / (channels as int),
            i <= frames,
            out@.len() == i,
            forall|s: &[T]| s@.len() == channels ==> #[trigger] mix.requires((s,)),
            forall|k: int|
                0 <= k < i ==> mixes_to(
                    mix,
                    data@.subrange(k * channels, (k + 1) * channels),
                    #[trigger] out@[k],
                ),
        decreases frames - i,
    {
        proof {
            lemma_whole_frames_fit(data@.len() as int, channels as int);
            lemma_frames_fit(frames as int, channels as int, i as int, 0);
            assert((i + 1) * channels == i * channels + channels) by (nonlinear_arith);
            assert(i * width == i * channels);
        }
        let start: usize = i * width;
        let frame: &[T] = vstd::slice::slice_subrange(data, start, start + width);
        let value: T = mix(frame);
        out.push(value);
        i = i + 1;
    }
    out
}

/// Low byte of the little-endian two's-complement encoding of `value`.
pub open spec fn pcm_low(value: i16) -> u8 {
    ((value as int) % 256) as u8
}

/// High byte of the little-endian two's-complement encoding of `value`.
pub open spec fn pcm_high(value: i16) -> u8 {
    (((value as int) / 256) % 256) as u8
}

/// The signed 16-bit value that two little-endian bytes stand for.
pub open spec fn decode_pcm(low: u8, high: u8) -> i16 {
    let unsigned = (low as int) + 256 * (high as int);
    if unsigned >= 32768 {
        (unsigned - 65536) as i16
    } else {
        unsigned as i16
    }
}

/// `bytes` is a quantisation of `samples`: two bytes per sample, in sample
/// order, each pair decoding to a value that `to_pcm` returns for that sample.
pub open spec fn is_quantization_of<T, Q: Fn(T) -> i16>(
    to_pcm: Q,
    samples: Seq<T>,
    bytes: Seq<u8>,
) -> bool {
    &&& bytes.len() == 2 * samples.len()
    &&& forall|k: int|
        0 <= k < samples.len() ==> #[trigger] to_pcm.ensures(
            (samples[k],),
            decode_pcm(bytes[2 * k], bytes[2 * k + 1]),
        )
}

/// The quantisation of a single sample is exactly two bytes, and they decode
/// to a value that `to_pcm` returns for the sample.
pub proof fn lemma_quantize_one_sample<T, Q: Fn(T) -> i16>(to_pcm: Q, sample: T, bytes: Seq<u8>)
    requires
        is_quantization_of(to_pcm, seq![sample], bytes),
    ensures
        bytes.len() == 2,
        to_pcm.ensures((sample,), decode_pcm(bytes[0], bytes[1])),
{
    let samples = seq![sample];
    assert(samples[0] == sample);
    let k: int = 0;
    assert(to_pcm.ensures((samples[k],), decode_pcm(bytes[2 * k], bytes[2 * k + 1])));
}

/// Encoding a 16-bit value and decoding the two bytes gives the value back.
pub proof fn lemma_pcm_round_trip(value: i16)
    ensures
        decode_pcm(pcm_low(value), pcm_high(value)) == value,
{
    let v = value as int;
    lemma_fundamental_div_mod(v, 256);
    lemma_fundamental_div_mod(v / 256, 256);
    assert(-128 <= v / 256 < 128);
}

/// Decoding two bytes and encoding the value gives the two bytes back: the
/// byte pairs and the 16-bit values correspond one to one.
pub proof fn lemma_pcm_bytes_unique(low: u8, high: u8)
    ensures
        pcm_low(decode_pcm(low, high)) == low,
        pcm_high(decode_pcm(low, high)) == high,
{
    let unsigned = (low as int) + 256 * (high as int);
    let v = decode_pcm(low, high) as int;
    if unsigned >= 32768 {
        lemma_fundamental_div_mod_converse(v, 256, (high as int) - 256, low as int);
        lemma_fundamental_div_mod_converse((high as int) - 256, 256, -1, high as int);
    } else {
        lemma_fundamental_div_mod_converse(v, 256, high as int, low as int);
        lemma_fundamental_div_mod_converse(high as int, 256, 0, high as int);
    }
}

/// The two bytes of `value`, low byte first.
pub fn encode_pcm(value: i16) -> (bytes: (u8, u8))
    ensures
        bytes.0 == pcm_low(value),
        bytes.1 == pcm_high(value),
        decode_pcm(bytes.0, bytes.1) == value,
{
    let unsigned: i32 = if value < 0 {
        value as i32 + 65536
    } else {
        value as i32
    };
    let low: u8 = (unsigned % 256) as u8;
    let high: u8 = (unsigned / 256) as u8;
    proof {
        let v = value as int;
        lemma_pcm_round_trip(value);
        if value < 0 {
            lemma_fundamental_div_mod_converse(v, 256, (high as int) - 256, low as int);
            lemma_fundamental_div_mod_converse((high as int) - 256, 256, -1, high as int);
        } else {
            lemma_fundamental_div_mod_converse(v, 256, high as int, low as int);
            lemma_fundamental_div_mod_converse(high as int, 256, 0, high as int);
        }
    }
    (low, high)
}

/// Serialises samples as little-endian signed 16-bit PCM, two bytes per
/// sample in sample order.  `to_pcm` turns one sample into its 16-bit value
/// (the caller's clamp and scale); it is called once per sample, in order.
pub fn quantize<T: Copy, Q: Fn(T) -> i16>(data: &[T], to_pcm: Q) -> (out: Vec<u8>)
    requires
        forall|k: int| 0 <= k < data@.len() ==> #[trigger] to_pcm.requires((data@[k],)),
    ensures
        is_quantization_of(to_pcm, data@, out@),
        out@.len() == 2 * data@.len(),
{
    let len: usize = data.len();
    let mut out: Vec<u8> = Vec::new();
    let mut k: usize = 0;
    while k < len
        invariant
            len == data@.len(),
            k <= len,
            out@.len() == 2 * k,
            forall|i: int| 0 <= i < data@.len() ==> #[trigger] to_pcm.requires((data@[i],)),
            forall|i: int|
                0 <= i < k ==> #[trigger] to_pcm.ensures(
                    (data@[i],),
                    decode_pcm(out@[2 * i], out@[2 * i + 1]),
                ),
        decreases len - k,
    {
        let value: i16 = to_pcm(data[k]);
        let bytes: (u8, u8) = encode_pcm(value);
        let ghost before: Seq<u8> = out@;
        out.push(bytes.0);
        out.push(bytes.1);
        proof {
            assert forall|i: int| 0 <= i < k + 1 implies #[trigger] to_pcm.ensures(
                (data@[i],),
                decode_pcm(out@[2 * i], out@[2 * i + 1]),
            ) by {
                if i < k {
                    assert(out@[2 * i] == before[2 * i]);
                    assert(out@[2 * i + 1] == before[2 * i + 1]);
                }
            }
        }
        k = k + 1;
    }
    out
}

/// `bytes` is what the converter may produce for one captured buffer:
/// resampled to the target rate, then downmixed, then quantised.
pub open spec fn is_conversion_of<T, M: Fn(&[T]) -> T, Q: Fn(T) -> i16>(
    data: Seq<T>,
    sample_rate: int,
    channels: int,
    target_rate: int,
    silence: T,
    mix: M,
    to_pcm: Q,
    bytes: Seq<u8>,
) -> bool {
    exists|mono: Seq<T>|
        #[trigger] is_downmix_of(
            mix,
            resample_spec(data, sample_rate, target_rate, channels, silence),
            channels,
            mono,
        ) && is_quantization_of(to_pcm, mono, bytes)
}

/// Number of mono frames that the converter produces from `len` interleaved
/// samples: the whole frames of the buffer where the rates are equal, else the
/// whole frames of the resampled buffer.
pub open spec fn converted_frames(len: int, sample_rate: int, channels: int, target_rate: int) -> int {
    if sample_rate != target_rate {
        resampled_frames(len, sample_rate, target_rate, channels)
    } else if channels <= 1 {
        len
    } else {
        len / channels
    }
}

/// The converter produces two bytes for every mono frame.
pub proof fn lemma_conversion_len<T, M: Fn(&[T]) -> T, Q: Fn(T) -> i16>(
    data: Seq<T>,
    sample_rate: int,
    channels: int,
    target_rate: int,
    silence: T,
    mix: M,
    to_pcm: Q,
    bytes: Seq<u8>,
)
    requires
        sample_rate != target_rate ==> 0 < sample_rate && 0 <= target_rate && 0 < channels,
        is_conversion_of(data, sample_rate, channels, target_rate, silence, mix, to_pcm, bytes),
    ensures
        bytes.len() == 2 * converted_frames(
            data.len() as int,
            sample_rate,
            channels,
            target_rate,
        ),
{
    let resampled = resample_spec(data, sample_rate, target_rate, channels, silence);
    let mono = choose|mono: Seq<T>|
        #[trigger] is_downmix_of(mix, resampled, channels, mono) && is_quantization_of(
            to_pcm,
            mono,
            bytes,
        );
    if sample_rate != target_rate {
        lemma_resample_len(data, sample_rate, target_rate, channels, silence);
        let frames = resampled_frames(data.len() as int, sample_rate, target_rate, channels);
        if channels > 1 {
            vstd::arithmetic::div_mod::lemma_div_by_multiple(frames, channels);
            assert(frames * channels == resampled.len());
        } else {
            assert(frames * 1 == frames);
        }
    }
}

/// Converts one captured buffer to the wire format: resample from the
/// device's rate to `target_rate`, downmix to mono, quantise to little-endian
/// 16-bit PCM.  The three steps always run in this order.
pub fn convert_audio_data<T: Copy, M: Fn(&[T]) -> T, Q: Fn(T) -> i16>(
    data: &[T],
    sample_rate: u32,
    channels: u32,
    target_rate: u32,
    silence: T,
    mix: M,
    to_pcm: Q,
) -> (out: Vec<u8>)
    requires
        resample_defined(
            data@.len() as int,
            sample_rate as int,
            target_rate as int,
            channels as int,
        ),
        channels > 1 ==> forall|s: &[T]| s@.len() == channels ==> #[trigger] mix.requires((s,)),
        forall|s: T| #[trigger] to_pcm.requires((s,)),
    ensures
        is_conversion_of(
            data@,
            sample_rate as int,
            channels as int,
            target_rate as int,
            silence,
            mix,
            to_pcm,
            out@,
        ),
        out@.len() == 2 * converted_frames(
            data@.len() as int,
            sample_rate as int,
            channels as int,
            target_rate as int,
        ),
{
    let resampled: Vec<T> = resample_audio(data, sample_rate, target_rate, channels, silence);
    let mono: Vec<T> = convert_to_mono(resampled.as_slice(), channels, mix);
    let out: Vec<u8> = quantize(mono.as_slice(), to_pcm);
    proof {
        assert(is_downmix_of(
            mix,
            resample_spec(
                data@,
                sample_rate as int,
                target_rate as int,
                channels as int,
                silence,
            ),
            channels as int,
            mono@,
        ));
        lemma_conversion_len(
            data@,
            sample_rate as int,
            channels as int,
            target_rate as int,
            silence,
            mix,
            to_pcm,
            out@,
        );
    }
    out
}

} // verus!
