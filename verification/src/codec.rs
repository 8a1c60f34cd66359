//! Transmit microphone codecs: negotiation of the codec a client may send,
//! the Opus profiles, and the checks a PCM or Opus payload must pass before
//! it is decoded.
use vstd::prelude::*;

use crate::text::{chars_of, eq_str, lower, lower_chars, strip_trailing, strip_trailing_chars,
    trim, trim_chars, push_str, sanitize_token, sanitized, push_chars};

verus! {

/// Codec of the TX microphone stream; ordered `Pcm < OpusNb < OpusWb`.
#[derive(Clone, Copy, Debug, PartialEq, Eq, PartialOrd, Ord, Hash, Structural)]
pub enum TxMicCodec {
    Pcm,
    OpusNb,
    OpusWb,
}

#[derive(Clone, Copy, Debug, PartialEq, Eq, Structural)]
pub enum TxDecodeError {
    CodecMismatch,
    CodecDisabled,
    OpusBackendUnavailable,
    OpusDecoderCreateFailed,
    OpusDecodeFailed,
    UnsupportedCodec,
    UnsupportedSampleType,
    PayloadSizeMismatch,
    PayloadTooShort,
    SampleCountMismatch,
}

pub const TX_MIC_CODEC_PCM_ID: u32 = 0;
pub const TX_MIC_CODEC_OPUS_NB_ID: u32 = 1;
pub const TX_MIC_CODEC_OPUS_WB_ID: u32 = 2;
pub const TX_SAMPLE_TYPE_LEGACY_FLOAT32: u32 = 0;
pub const TX_SAMPLE_TYPE_S16: u32 = 1;
pub const TX_SAMPLE_TYPE_FLOAT32: u32 = 3;
/// A decoded frame older than this many nanoseconds when consumed is stale.
pub const TX_CODEC_STALE_FRAME_MAX_AGE_NS: u64 = 150_000_000;
pub const TX_OPUS_FRAME_MS: u32 = 20;
pub const TX_OPUS_NB_SAMPLE_RATE_HZ: u32 = 16_000;
pub const TX_OPUS_WB_SAMPLE_RATE_HZ: u32 = 48_000;
pub const TX_OPUS_DECODE_OUTPUT_SAMPLE_RATE_HZ: u32 = 48_000;
pub const TX_OPUS_NB_BITRATE_BPS: u32 = 16_000;
pub const TX_OPUS_WB_BITRATE_BPS: u32 = 24_000;
pub const TX_OPUS_DECODE_OUTPUT_FRAME_SAMPLES: usize = 960;

pub open spec fn codec_text(codec: TxMicCodec) -> Seq<char> {
    match codec {
        TxMicCodec::Pcm => "pcm"@,
        TxMicCodec::OpusNb => "opus_nb"@,
        TxMicCodec::OpusWb => "opus_wb"@,
    }
}

/// `-` replaced by `_`.
pub open spec fn dash_to_underscore(s: Seq<char>) -> Seq<char> {
    s.map_values(|c: char| if c == '-' { '_' } else { c })
}

/// A codec name as a client writes it: trimmed, trailing `;` removed, any
/// case, `-` or `_`, or the numeric id.
pub open spec fn codec_from_text(value: Seq<char>) -> Option<TxMicCodec> {
    let t = dash_to_underscore(lower(strip_trailing(trim(value), ';')));
    if t == "0"@ || t == "pcm"@ || t == "s16"@ {
        Some(TxMicCodec::Pcm)
    } else if t == "1"@ || t == "opus_nb"@ || t == "opus_narrowband"@ {
        Some(TxMicCodec::OpusNb)
    } else if t == "2"@ || t == "opus_wb"@ || t == "opus_wideband"@ {
        Some(TxMicCodec::OpusWb)
    } else {
        None
    }
}

pub open spec fn codec_from_id(id: u32) -> Option<TxMicCodec> {
    if id == TX_MIC_CODEC_PCM_ID {
        Some(TxMicCodec::Pcm)
    } else if id == TX_MIC_CODEC_OPUS_NB_ID {
        Some(TxMicCodec::OpusNb)
    } else if id == TX_MIC_CODEC_OPUS_WB_ID {
        Some(TxMicCodec::OpusWb)
    } else {
        None
    }
}

fn dash_to_underscore_chars(s: &Vec<char>) -> (out: Vec<char>)
    ensures
        out@ == dash_to_underscore(s@),
{
    let mut out: Vec<char> = Vec::new();
    let mut i: usize = 0;
    while i < s.len()
        invariant
            i <= s.len(),
            out@ == dash_to_underscore(s@.take(i as int)),
        decreases s.len() - i,
    {
        let c = s[i];
        out.push(if c == '-' { '_' } else { c });
        proof {
            assert(dash_to_underscore(s@.take(i + 1)) =~= dash_to_underscore(s@.take(i as int)).push(
                if c == '-' { '_' } else { c },
            ));
        }
        i = i + 1;
    }
    proof {
        assert(s@.take(s.len() as int) =~= s@);
    }
    out
}

impl TxMicCodec {
    pub fn from_tci(value: &str) -> (r: Option<Self>)
        ensures
            r == codec_from_text(value@),
    {
        let v = chars_of(value);
        Self::from_chars(&v)
    }

    pub fn from_chars(value: &Vec<char>) -> (r: Option<Self>)
        ensures
            r == codec_from_text(value@),
    {
        let t = dash_to_underscore_chars(
            &lower_chars(&strip_trailing_chars(&trim_chars(value), ';')),
        );
        if eq_str(&t, "0") || eq_str(&t, "pcm") || eq_str(&t, "s16") {
            Some(TxMicCodec::Pcm)
        } else if eq_str(&t, "1") || eq_str(&t, "opus_nb") || eq_str(&t, "opus_narrowband") {
            Some(TxMicCodec::OpusNb)
        } else if eq_str(&t, "2") || eq_str(&t, "opus_wb") || eq_str(&t, "opus_wideband") {
            Some(TxMicCodec::OpusWb)
        } else {
            None
        }
    }

    pub fn from_id(value: u32) -> (r: Option<Self>)
        ensures
            r == codec_from_id(value),
    {
        if value == TX_MIC_CODEC_PCM_ID {
            Some(TxMicCodec::Pcm)
        } else if value == TX_MIC_CODEC_OPUS_NB_ID {
            Some(TxMicCodec::OpusNb)
        } else if value == TX_MIC_CODEC_OPUS_WB_ID {
            Some(TxMicCodec::OpusWb)
        } else {
            None
        }
    }

    pub fn as_tci(self) -> (r: &'static str)
        ensures
            r@ == codec_text(self),
    {
        match self {
            TxMicCodec::Pcm => "pcm",
            TxMicCodec::OpusNb => "opus_nb",
            TxMicCodec::OpusWb => "opus_wb",
        }
    }
}

/// A frame decoded at `received_at_ns` is stale when consumed more than the
/// maximum age later.
pub fn tx_codec_frame_is_stale(received_at_ns: u64, now_ns: u64) -> (b: bool)
    ensures
        b == (now_ns >= received_at_ns && now_ns - received_at_ns > TX_CODEC_STALE_FRAME_MAX_AGE_NS),
{
    now_ns >= received_at_ns && now_ns - received_at_ns > TX_CODEC_STALE_FRAME_MAX_AGE_NS
}

#[derive(Clone, Copy, Debug, PartialEq, Eq, Structural)]
pub struct TxCodecRuntimeFlags {
    pub opus_decode_enabled: bool,
}

impl TxCodecRuntimeFlags {
    /// Opus decoding is off unless configured.
    pub fn default_flags() -> (r: Self)
        ensures
            !r.opus_decode_enabled,
    {
        TxCodecRuntimeFlags { opus_decode_enabled: false }
    }
}

/// An Opus profile: rates, bitrate and frame geometry.
#[derive(Clone, Copy, Debug, PartialEq, Eq, Structural)]
pub struct TxOpusDecoderConfig {
    pub codec: TxMicCodec,
    pub encoder_sample_rate_hz: u32,
    pub decode_output_sample_rate_hz: u32,
    pub bitrate_bps: u32,
    pub frame_ms: u32,
    pub encoder_frame_samples: usize,
    pub decode_output_frame_samples: usize,
    pub fec_enabled: bool,
    pub dtx_enabled: bool,
}

/// The profile of an Opus codec: the encoder rate and bitrate of the codec,
/// 20 ms frames, 48 kHz decode output, FEC on and DTX off.
pub open spec fn opus_profile(codec: TxMicCodec) -> Option<TxOpusDecoderConfig> {
    let rate: u32 = if codec == TxMicCodec::OpusNb {
        TX_OPUS_NB_SAMPLE_RATE_HZ
    } else {
        TX_OPUS_WB_SAMPLE_RATE_HZ
    };
    if codec == TxMicCodec::Pcm {
        None
    } else {
        Some(
            TxOpusDecoderConfig {
                codec,
                encoder_sample_rate_hz: rate,
                decode_output_sample_rate_hz: TX_OPUS_DECODE_OUTPUT_SAMPLE_RATE_HZ,
                bitrate_bps: if codec == TxMicCodec::OpusNb {
                    TX_OPUS_NB_BITRATE_BPS
                } else {
                    TX_OPUS_WB_BITRATE_BPS
                },
                frame_ms: TX_OPUS_FRAME_MS,
                encoder_frame_samples: (rate * TX_OPUS_FRAME_MS / 1000) as usize,
                decode_output_frame_samples: TX_OPUS_DECODE_OUTPUT_FRAME_SAMPLES,
                fec_enabled: true,
                dtx_enabled: false,
            },
        )
    }
}

impl TxOpusDecoderConfig {
    pub fn for_codec(codec: TxMicCodec) -> (r: Option<Self>)
        ensures
            r == opus_profile(codec),
    {
        match codec {
            TxMicCodec::OpusNb => Some(
                TxOpusDecoderConfig {
                    codec,
                    encoder_sample_rate_hz: TX_OPUS_NB_SAMPLE_RATE_HZ,
                    decode_output_sample_rate_hz: TX_OPUS_DECODE_OUTPUT_SAMPLE_RATE_HZ,
                    bitrate_bps: TX_OPUS_NB_BITRATE_BPS,
                    frame_ms: TX_OPUS_FRAME_MS,
                    encoder_frame_samples: (TX_OPUS_NB_SAMPLE_RATE_HZ as usize
                        * TX_OPUS_FRAME_MS as usize) / 1000,
                    decode_output_frame_samples: TX_OPUS_DECODE_OUTPUT_FRAME_SAMPLES,
                    fec_enabled: true,
                    dtx_enabled: false,
                },
            ),
            TxMicCodec::OpusWb => Some(
                TxOpusDecoderConfig {
                    codec,
                    encoder_sample_rate_hz: TX_OPUS_WB_SAMPLE_RATE_HZ,
                    decode_output_sample_rate_hz: TX_OPUS_DECODE_OUTPUT_SAMPLE_RATE_HZ,
                    bitrate_bps: TX_OPUS_WB_BITRATE_BPS,
                    frame_ms: TX_OPUS_FRAME_MS,
                    encoder_frame_samples: (TX_OPUS_WB_SAMPLE_RATE_HZ as usize
                        * TX_OPUS_FRAME_MS as usize) / 1000,
                    decode_output_frame_samples: TX_OPUS_DECODE_OUTPUT_FRAME_SAMPLES,
                    fec_enabled: true,
                    dtx_enabled: false,
                },
            ),
            TxMicCodec::Pcm => None,
        }
    }
}

/// The set of codecs a client offers.
#[derive(Clone, Copy, Debug, PartialEq, Eq, Structural)]
pub struct TxCodecCaps {
    pub pcm: bool,
    pub opus_nb: bool,
    pub opus_wb: bool,
}

pub open spec fn caps_has(caps: TxCodecCaps, codec: TxMicCodec) -> bool {
    match codec {
        TxMicCodec::Pcm => caps.pcm,
        TxMicCodec::OpusNb => caps.opus_nb,
        TxMicCodec::OpusWb => caps.opus_wb,
    }
}

/// The codecs named by `args`, skipping a leading receiver index `0`.
pub open spec fn caps_from_args(args: Seq<Seq<char>>) -> TxCodecCaps {
    let offset: int = if args.len() > 0 && trim(args[0]) == "0"@ {
        1
    } else {
        0
    };
    TxCodecCaps {
        pcm: exists|i: int| offset <= i < args.len() && codec_from_text(args[i]) == Some(TxMicCodec::Pcm),
        opus_nb: exists|i: int|
            offset <= i < args.len() && codec_from_text(args[i]) == Some(TxMicCodec::OpusNb),
        opus_wb: exists|i: int|
            offset <= i < args.len() && codec_from_text(args[i]) == Some(TxMicCodec::OpusWb),
    }
}

impl TxCodecCaps {
    pub fn none() -> (r: Self)
        ensures
            !r.pcm && !r.opus_nb && !r.opus_wb,
    {
        TxCodecCaps { pcm: false, opus_nb: false, opus_wb: false }
    }

    /// The set holding PCM alone, which every client starts with.
    pub fn pcm_only() -> (r: Self)
        ensures
            r.pcm && !r.opus_nb && !r.opus_wb,
    {
        TxCodecCaps { pcm: true, opus_nb: false, opus_wb: false }
    }

    pub fn contains(&self, codec: TxMicCodec) -> (b: bool)
        ensures
            b == caps_has(*self, codec),
    {
        match codec {
            TxMicCodec::Pcm => self.pcm,
            TxMicCodec::OpusNb => self.opus_nb,
            TxMicCodec::OpusWb => self.opus_wb,
        }
    }

    /// The smallest codec of the set, in the codec order.
    pub fn first(&self) -> (r: Option<TxMicCodec>)
        ensures
            r == (if self.pcm {
                Some(TxMicCodec::Pcm)
            } else if self.opus_nb {
                Some(TxMicCodec::OpusNb)
            } else if self.opus_wb {
                Some(TxMicCodec::OpusWb)
            } else {
                None::<TxMicCodec>
            }),
    {
        if self.pcm {
            Some(TxMicCodec::Pcm)
        } else if self.opus_nb {
            Some(TxMicCodec::OpusNb)
        } else if self.opus_wb {
            Some(TxMicCodec::OpusWb)
        } else {
            None
        }
    }
}

/// The codec set named by the arguments of `tx_codec_caps`.
pub fn parse_tx_codec_caps_args(args: &Vec<Vec<char>>) -> (caps: TxCodecCaps)
    ensures
        caps == caps_from_args(crate::text::views(args@)),
{
    let ghost a = crate::text::views(args@);
    let offset: usize = if args.len() > 0 && eq_str(&trim_chars(&args[0]), "0") {
        1
    } else {
        0
    };
    let mut caps = TxCodecCaps::none();
    let mut i: usize = offset;
    while i < args.len()
        invariant
            offset <= i <= args.len(),
            a == crate::text::views(args@),
            offset == (if a.len() > 0 && trim(a[0]) == "0"@ { 1int } else { 0int }),
            caps.pcm == exists|j: int| offset <= j < i && codec_from_text(a[j]) == Some(TxMicCodec::Pcm),
            caps.opus_nb == exists|j: int|
                offset <= j < i && codec_from_text(a[j]) == Some(TxMicCodec::OpusNb),
            caps.opus_wb == exists|j: int|
                offset <= j < i && codec_from_text(a[j]) == Some(TxMicCodec::OpusWb),
        decreases args.len() - i,
    {
        let c = TxMicCodec::from_chars(&args[i]);
        proof {
            assert(a[i as int] == args@[i as int]@);
        }
        match c {
            Some(TxMicCodec::Pcm) => caps.pcm = true,
            Some(TxMicCodec::OpusNb) => caps.opus_nb = true,
            Some(TxMicCodec::OpusWb) => caps.opus_wb = true,
            None => {},
        }
        i = i + 1;
    }
    caps
}

/// The codec to run: Opus wideband, then narrowband, when Opus decoding is
/// enabled and offered; otherwise PCM when offered; otherwise none.
pub open spec fn selected_codec(caps: TxCodecCaps, flags: TxCodecRuntimeFlags) -> Option<TxMicCodec> {
    if flags.opus_decode_enabled && caps.opus_wb {
        Some(TxMicCodec::OpusWb)
    } else if flags.opus_decode_enabled && caps.opus_nb {
        Some(TxMicCodec::OpusNb)
    } else if caps.pcm {
        Some(TxMicCodec::Pcm)
    } else {
        None
    }
}

pub fn select_tx_codec(caps: &TxCodecCaps, flags: TxCodecRuntimeFlags) -> (r: Option<TxMicCodec>)
    ensures
        r == selected_codec(*caps, flags),
{
    if flags.opus_decode_enabled {
        if caps.contains(TxMicCodec::OpusWb) {
            return Some(TxMicCodec::OpusWb);
        }
        if caps.contains(TxMicCodec::OpusNb) {
            return Some(TxMicCodec::OpusNb);
        }
    }
    if caps.contains(TxMicCodec::Pcm) {
        Some(TxMicCodec::Pcm)
    } else {
        None
    }
}

/// `tx_codec_accept:0,<codec>;`
pub fn tx_codec_accept_message(codec: TxMicCodec) -> (m: String)
    ensures
        m@ == "tx_codec_accept:0,"@ + codec_text(codec) + ";"@,
{
    let mut m = String::new();
    push_str(&mut m, "tx_codec_accept:0,");
    push_str(&mut m, codec.as_tci());
    push_str(&mut m, ";");
    m
}

/// `tx_codec_reject:0,<codec>,<reason as a token of at most 48 characters>;`
pub fn tx_codec_reject_message(codec: TxMicCodec, reason: &str) -> (m: String)
    ensures
        m@ == "tx_codec_reject:0,"@ + codec_text(codec) + ","@ + sanitized(reason@, 48) + ";"@,
{
    let mut m = String::new();
    push_str(&mut m, "tx_codec_reject:0,");
    push_str(&mut m, codec.as_tci());
    push_str(&mut m, ",");
    let r = sanitize_token(reason, 48);
    push_str(&mut m, r.as_str());
    push_str(&mut m, ";");
    m
}

/// Bytes of a PCM payload: two per sample for s16, four for float32.
pub open spec fn pcm_payload_bytes(sample_type: u32, sample_count: nat) -> Result<nat, TxDecodeError> {
    if sample_type == TX_SAMPLE_TYPE_S16 {
        Ok(sample_count * 2)
    } else if sample_type == TX_SAMPLE_TYPE_LEGACY_FLOAT32 || sample_type == TX_SAMPLE_TYPE_FLOAT32 {
        Ok(sample_count * 4)
    } else {
        Err(TxDecodeError::UnsupportedSampleType)
    }
}

pub fn expected_pcm_payload_bytes(sample_type: u32, sample_count: usize) -> (r: Result<usize, TxDecodeError>)
    requires
        sample_count * 4 <= usize::MAX,
    ensures
        match r {
            Ok(n) => pcm_payload_bytes(sample_type, sample_count as nat) == Ok::<nat, TxDecodeError>(n as nat),
            Err(e) => pcm_payload_bytes(sample_type, sample_count as nat) == Err::<nat, TxDecodeError>(e),
        },
{
    if sample_type == TX_SAMPLE_TYPE_S16 {
        Ok(sample_count * 2)
    } else if sample_type == TX_SAMPLE_TYPE_LEGACY_FLOAT32 || sample_type == TX_SAMPLE_TYPE_FLOAT32 {
        Ok(sample_count * 4)
    } else {
        Err(TxDecodeError::UnsupportedSampleType)
    }
}

/// Outcome of the PCM payload checks: the number of payload bytes that hold
/// the samples, or the error the decoder reports.
pub open spec fn pcm_check(
    sample_type: u32,
    sample_count: nat,
    payload_len: nat,
    declared: nat,
) -> Result<nat, TxDecodeError> {
    match pcm_payload_bytes(sample_type, sample_count) {
        Err(e) => Err(e),
        Ok(expected) => {
            if declared != 0 && declared != expected {
                Err(TxDecodeError::PayloadSizeMismatch)
            } else if payload_len < expected {
                Err(TxDecodeError::PayloadTooShort)
            } else {
                Ok(expected)
            }
        },
    }
}

/// The checks a PCM payload passes before its samples are read.
pub fn check_pcm_payload(
    sample_type: u32,
    sample_count: usize,
    payload_len: usize,
    declared_payload_bytes: usize,
) -> (r: Result<usize, TxDecodeError>)
    requires
        sample_count * 4 <= usize::MAX,
    ensures
        match r {
            Ok(n) => pcm_check(sample_type, sample_count as nat, payload_len as nat, declared_payload_bytes as nat) == Ok::<nat, TxDecodeError>(n as nat),
            Err(e) => pcm_check(sample_type, sample_count as nat, payload_len as nat, declared_payload_bytes as nat) == Err::<nat, TxDecodeError>(e),
        },
{
    let expected = match expected_pcm_payload_bytes(sample_type, sample_count) {
        Ok(n) => n,
        Err(e) => return Err(e),
    };
    if declared_payload_bytes != 0 && declared_payload_bytes != expected {
        return Err(TxDecodeError::PayloadSizeMismatch);
    }
    if payload_len < expected {
        return Err(TxDecodeError::PayloadTooShort);
    }
    Ok(expected)
}

/// Little-endian signed 16-bit value of two bytes.
pub open spec fn s16_le(lo: u8, hi: u8) -> int {
    let u = lo as int + 256 * (hi as int);
    if u >= 32768 {
        u - 65536
    } else {
        u
    }
}

/// The s16 samples of a PCM payload that passed its checks, before scaling.
pub fn s16_samples(payload: &[u8], sample_count: usize) -> (out: Vec<i16>)
    requires
        sample_count * 2 <= payload@.len(),
    ensures
        out@.len() == sample_count,
        forall|i: int| 0 <= i < sample_count ==> out@[i] as int == s16_le(
            #[trigger] payload@[2 * i],
            payload@[2 * i + 1],
        ),
{
    let mut out: Vec<i16> = Vec::new();
    let mut i: usize = 0;
    while i < sample_count
        invariant
            i <= sample_count,
            sample_count * 2 <= payload@.len(),
            out@.len() == i,
            forall|k: int| 0 <= k < i ==> out@[k] as int == s16_le(
                #[trigger] payload@[2 * k],
                payload@[2 * k + 1],
            ),
        decreases sample_count - i,
    {
        proof {
            assert(2 * i + 1 < payload@.len()) by (nonlinear_arith)
                requires
                    i < sample_count,
                    sample_count * 2 <= payload@.len(),
            {
            }
            assert(payload@.len() == payload.len());
        }
        let lo = payload[2 * i];
        let hi = payload[2 * i + 1];
        let u: u32 = lo as u32 + 256 * (hi as u32);
        let v: i16 = if u >= 32768 {
            (u as i32 - 65536) as i16
        } else {
            u as i16
        };
        out.push(v);
        i = i + 1;
    }
    out
}

/// Outcome of the checks an Opus payload passes before it reaches the
/// decoder: the byte count handed to it, or the error.
pub open spec fn opus_check(
    config: TxOpusDecoderConfig,
    sample_type: u32,
    sample_count: nat,
    payload_len: nat,
    declared: nat,
) -> Result<nat, TxDecodeError> {
    let bytes = if declared == 0 {
        payload_len
    } else {
        declared
    };
    if sample_type != TX_SAMPLE_TYPE_S16 {
        Err(TxDecodeError::UnsupportedSampleType)
    } else if sample_count != config.decode_output_frame_samples {
        Err(TxDecodeError::SampleCountMismatch)
    } else if bytes == 0 || bytes > payload_len {
        Err(TxDecodeError::PayloadTooShort)
    } else {
        Ok(bytes)
    }
}

pub fn check_opus_payload(
    config: &TxOpusDecoderConfig,
    sample_type: u32,
    sample_count: usize,
    payload_len: usize,
    declared_payload_bytes: usize,
) -> (r: Result<usize, TxDecodeError>)
    ensures
        match r {
            Ok(n) => opus_check(*config, sample_type, sample_count as nat, payload_len as nat, declared_payload_bytes as nat) == Ok::<nat, TxDecodeError>(n as nat),
            Err(e) => opus_check(*config, sample_type, sample_count as nat, payload_len as nat, declared_payload_bytes as nat) == Err::<nat, TxDecodeError>(e),
        },
{
    if sample_type != TX_SAMPLE_TYPE_S16 {
        return Err(TxDecodeError::UnsupportedSampleType);
    }
    if sample_count != config.decode_output_frame_samples {
        return Err(TxDecodeError::SampleCountMismatch);
    }
    let bytes = if declared_payload_bytes == 0 {
        payload_len
    } else {
        declared_payload_bytes
    };
    if bytes == 0 || bytes > payload_len {
        return Err(TxDecodeError::PayloadTooShort);
    }
    Ok(bytes)
}

/// One Opus frame through its decoder: the payload checks first, and only
/// when they pass is `decode` called, with the byte count; its return value
/// (a negative value is a decoder error) must be exactly one output frame.
pub fn decode_opus_frame<F: FnOnce(usize) -> i32>(
    config: &TxOpusDecoderConfig,
    sample_type: u32,
    sample_count: usize,
    payload_len: usize,
    declared_payload_bytes: usize,
    decode: F,
) -> (r: Result<usize, TxDecodeError>)
    requires
        forall|bytes: usize| decode.requires((bytes,)),
    ensures
        match opus_check(*config, sample_type, sample_count as nat, payload_len as nat, declared_payload_bytes as nat) {
            Err(e) => r == Err::<usize, TxDecodeError>(e),
            Ok(bytes) => bytes <= usize::MAX && exists|decoded: i32| #[trigger] decode.ensures((bytes as usize,), decoded) && match opus_decode_outcome(
                *config,
                sample_type,
                sample_count as nat,
                payload_len as nat,
                declared_payload_bytes as nat,
                decoded as int,
            ) {
                Ok(n) => r == Ok::<usize, TxDecodeError>(n as usize),
                Err(e) => r == Err::<usize, TxDecodeError>(e),
            },
        },
{
    match check_opus_payload(config, sample_type, sample_count, payload_len, declared_payload_bytes) {
        Err(e) => Err(e),
        Ok(bytes) => {
            let decoded = decode(bytes);
            let r = finish_opus_decode(config, decoded);
            proof {
                let b: nat = bytes as nat;
                assert(decode.ensures((b as usize,), decoded));
            }
            r
        },
    }
}

/// The checks of an Opus frame's decoder: decoding must be enabled before a
/// decoder is created, and the decoder must return exactly one output frame.
pub fn check_opus_enabled(flags: TxCodecRuntimeFlags) -> (r: Result<(), TxDecodeError>)
    ensures
        r is Ok <==> flags.opus_decode_enabled,
        r matches Err(e) ==> e == TxDecodeError::CodecDisabled,
{
    if !flags.opus_decode_enabled {
        return Err(TxDecodeError::CodecDisabled);
    }
    Ok(())
}

/// The outcome of an Opus frame: the payload checks first, and only when
/// they pass the decoder's return value (a negative value is a decoder
/// error; otherwise it must be exactly one output frame).
pub open spec fn opus_decode_outcome(
    config: TxOpusDecoderConfig,
    sample_type: u32,
    sample_count: nat,
    payload_len: nat,
    declared: nat,
    decoded: int,
) -> Result<nat, TxDecodeError> {
    match opus_check(config, sample_type, sample_count, payload_len, declared) {
        Err(e) => Err(e),
        Ok(_) => if decoded < 0 {
            Err(TxDecodeError::OpusDecodeFailed)
        } else if decoded != config.decode_output_frame_samples {
            Err(TxDecodeError::SampleCountMismatch)
        } else {
            Ok(decoded as nat)
        },
    }
}

/// What the decoder's return value `decoded` means for a frame whose
/// payload checks passed.
pub fn finish_opus_decode(config: &TxOpusDecoderConfig, decoded: i32) -> (r: Result<usize, TxDecodeError>)
    ensures
        decoded < 0 ==> r == Err::<usize, TxDecodeError>(TxDecodeError::OpusDecodeFailed),
        decoded >= 0 && decoded != config.decode_output_frame_samples ==> r == Err::<usize, TxDecodeError>(
            TxDecodeError::SampleCountMismatch,
        ),
        decoded >= 0 && decoded == config.decode_output_frame_samples ==> r == Ok::<usize, TxDecodeError>(
            config.decode_output_frame_samples,
        ),
{
    if decoded < 0 {
        return Err(TxDecodeError::OpusDecodeFailed);
    }
    let n = decoded as u32;
    if n as usize != config.decode_output_frame_samples {
        return Err(TxDecodeError::SampleCountMismatch);
    }
    Ok(config.decode_output_frame_samples)
}

} // verus!
