//! The TCI wire protocol: booleans and tokens in commands, the commands a
//! viewer may send, fault and role messages, the coalescing key of outbound
//! text, and the 64-byte header of binary frames.
use vstd::prelude::*;

use crate::codec::{codec_from_id, TxDecodeError, TxMicCodec};
use crate::session::SplitSocketKind;
use crate::text::{
    chars_of, dec, eq_str, lower, lower_chars, push_chars, push_dec, push_str, split, split_exec,
    split_once, split_once_exec, string_of, trim, trim_chars, views, lemma_split_nonempty,
};

verus! {

/// `1`, `true`, `on`, `yes` and `0`, `false`, `off`, `no`, in any case, trimmed.
pub open spec fn tci_bool(text: Seq<char>) -> Option<bool> {
    let t = lower(trim(text));
    if t == "1"@ || t == "true"@ || t == "on"@ || t == "yes"@ {
        Some(true)
    } else if t == "0"@ || t == "false"@ || t == "off"@ || t == "no"@ {
        Some(false)
    } else {
        None
    }
}

pub fn parse_tci_bool_chars(text: &Vec<char>) -> (r: Option<bool>)
    ensures
        r == tci_bool(text@),
{
    let t = lower_chars(&trim_chars(text));
    if eq_str(&t, "1") || eq_str(&t, "true") || eq_str(&t, "on") || eq_str(&t, "yes") {
        Some(true)
    } else if eq_str(&t, "0") || eq_str(&t, "false") || eq_str(&t, "off") || eq_str(&t, "no") {
        Some(false)
    } else {
        None
    }
}

pub fn parse_tci_bool(text: &str) -> (r: Option<bool>)
    ensures
        r == tci_bool(text@),
{
    let v = chars_of(text);
    parse_tci_bool_chars(&v)
}

/// Commands a viewer may send: the ping, stream control and meter requests.
pub open spec fn viewer_allowed(name: Seq<char>) -> bool {
    ||| name == "saturn_ping"@
    ||| name == "iq_start"@
    ||| name == "iq_stop"@
    ||| name == "audio_start"@
    ||| name == "audio_stop"@
    ||| name == "audio_samplerate"@
    ||| name == "audio_stream_samples"@
    ||| name == "audio_stream_channels"@
    ||| name == "audio_seq_gap_count"@
    ||| name == "audio_stream_sample_type"@
    ||| name == "rx_smeter"@
    ||| name == "s_meter"@
    ||| name == "smeter"@
}

pub fn viewer_tci_command_allowed_chars(name: &Vec<char>) -> (b: bool)
    ensures
        b == viewer_allowed(name@),
{
    eq_str(name, "saturn_ping") || eq_str(name, "iq_start") || eq_str(name, "iq_stop")
        || eq_str(name, "audio_start") || eq_str(name, "audio_stop") || eq_str(
        name,
        "audio_samplerate",
    ) || eq_str(name, "audio_stream_samples") || eq_str(name, "audio_stream_channels")
        || eq_str(name, "audio_seq_gap_count") || eq_str(name, "audio_stream_sample_type")
        || eq_str(name, "rx_smeter") || eq_str(name, "s_meter") || eq_str(name, "smeter")
}

pub fn viewer_tci_command_allowed(name: &str) -> (b: bool)
    ensures
        b == viewer_allowed(name@),
{
    let v = chars_of(name);
    viewer_tci_command_allowed_chars(&v)
}

/// A count of tenths as a decimal with one fractional digit.
pub open spec fn tenths_text(tenths: nat) -> Seq<char> {
    dec(tenths / 10) + "."@ + dec(tenths % 10)
}

/// `tx_fault:0,power_trip,<forward>,<limit>;` with both powers in watts to
/// one decimal; the caller hands them over in tenths of a watt.
pub fn tx_power_trip_fault_message(forward_deciwatts: u64, limit_deciwatts: u64) -> (m: String)
    ensures
        m@ == "tx_fault:0,power_trip,"@ + tenths_text(forward_deciwatts as nat) + ","@ + tenths_text(
            limit_deciwatts as nat,
        ) + ";"@,
{
    let mut m = String::new();
    push_str(&mut m, "tx_fault:0,power_trip,");
    push_dec(&mut m, forward_deciwatts / 10);
    push_str(&mut m, ".");
    push_dec(&mut m, forward_deciwatts % 10);
    push_str(&mut m, ",");
    push_dec(&mut m, limit_deciwatts / 10);
    push_str(&mut m, ".");
    push_dec(&mut m, limit_deciwatts % 10);
    push_str(&mut m, ";");
    proof {
        assert(m@ =~= "tx_fault:0,power_trip,"@ + tenths_text(forward_deciwatts as nat) + ","@ + tenths_text(
            limit_deciwatts as nat,
        ) + ";"@);
    }
    m
}

/// `tx_fault:0,uplink_late,<age>,<limit>;`
pub fn tx_uplink_late_fault_message(age_ms: u64, limit_ms: u64) -> (m: String)
    ensures
        m@ == "tx_fault:0,uplink_late,"@ + dec(age_ms as nat) + ","@ + dec(limit_ms as nat) + ";"@,
{
    let mut m = String::new();
    push_str(&mut m, "tx_fault:0,uplink_late,");
    push_dec(&mut m, age_ms);
    push_str(&mut m, ",");
    push_dec(&mut m, limit_ms);
    push_str(&mut m, ";");
    m
}

/// `tx_fault:0,control_watchdog,<silence>,<limit>;`
pub fn tx_control_watchdog_fault_message(silence_ms: u64, limit_ms: u64) -> (m: String)
    ensures
        m@ == "tx_fault:0,control_watchdog,"@ + dec(silence_ms as nat) + ","@ + dec(
            limit_ms as nat,
        ) + ";"@,
{
    let mut m = String::new();
    push_str(&mut m, "tx_fault:0,control_watchdog,");
    push_dec(&mut m, silence_ms);
    push_str(&mut m, ",");
    push_dec(&mut m, limit_ms);
    push_str(&mut m, ";");
    m
}

/// `tx_fault:0,codec_decode,count=<count>,limit=<limit>;`
pub fn tx_codec_decode_fault_message(count: u64, limit: u64) -> (m: String)
    ensures
        m@ == "tx_fault:0,codec_decode,count="@ + dec(count as nat) + ",limit="@ + dec(
            limit as nat,
        ) + ";"@,
{
    let mut m = String::new();
    push_str(&mut m, "tx_fault:0,codec_decode,count=");
    push_dec(&mut m, count);
    push_str(&mut m, ",limit=");
    push_dec(&mut m, limit);
    push_str(&mut m, ";");
    m
}

/// The lane a websocket request path declares: `/control` or `/media` exactly.
pub fn lane_hint_for_request_path(path: &str) -> (r: Option<SplitSocketKind>)
    ensures
        r == (if path@ == "/control"@ {
            Some(SplitSocketKind::Control)
        } else if path@ == "/media"@ {
            Some(SplitSocketKind::Media)
        } else {
            None
        }),
{
    let v = chars_of(path);
    if eq_str(&v, "/control") {
        Some(SplitSocketKind::Control)
    } else if eq_str(&v, "/media") {
        Some(SplitSocketKind::Media)
    } else {
        None
    }
}

/// Occurrences of `c` in `s`.
pub open spec fn count_char(s: Seq<char>, c: char) -> nat
    decreases s.len(),
{
    if s.len() == 0 {
        0
    } else {
        count_char(s.drop_last(), c) + if s.last() == c {
            1nat
        } else {
            0nat
        }
    }
}

/// `parts` joined with `sep` between neighbours.
pub open spec fn join(parts: Seq<Seq<char>>, sep: Seq<char>) -> Seq<char>
    decreases parts.len(),
{
    if parts.len() == 0 {
        Seq::<char>::empty()
    } else if parts.len() == 1 {
        parts[0]
    } else {
        join(parts.drop_last(), sep) + sep + parts.last()
    }
}

/// `s` without one trailing `c`, when it ends with one.
pub open spec fn strip_one(s: Seq<char>, c: char) -> Seq<char> {
    if s.len() > 0 && s.last() == c {
        s.drop_last()
    } else {
        s
    }
}

/// The key under which a newer outbound text replaces an older one: none for
/// several commands; the name and the first two arguments of a `tx_fault`;
/// the bare name for the two telemetry summaries and for one-argument
/// commands; otherwise the name with all arguments but the last.
pub open spec fn coalesce_key(text: Seq<char>) -> Option<Seq<char>> {
    let t = trim(text);
    if count_char(t, ';') > 1 {
        None
    } else {
        match split_once(strip_one(t, ';'), ':') {
            None => None,
            Some((name, rest)) => {
                let args = split(rest, ',');
                if name.len() == 0 || rest.len() == 0 {
                    None
                } else if name == "tx_fault"@ && args.len() >= 2 {
                    Some(name + ":"@ + args[0] + ","@ + args[1])
                } else if name == "remote_backpressure"@ || name == "remote_tx_uplink"@ {
                    Some(name)
                } else if args.len() == 1 {
                    Some(name)
                } else {
                    Some(name + ":"@ + join(args.drop_last(), ","@))
                }
            },
        }
    }
}

fn count_char_exec(s: &Vec<char>, c: char) -> (n: usize)
    ensures
        n == count_char(s@, c),
{
    let mut n: usize = 0;
    let mut i: usize = 0;
    while i < s.len()
        invariant
            i <= s.len(),
            n == count_char(s@.take(i as int), c),
            n <= i,
        decreases s.len() - i,
    {
        proof {
            assert(s@.take(i + 1).drop_last() =~= s@.take(i as int));
        }
        if s[i] == c {
            n = n + 1;
        }
        i = i + 1;
    }
    proof {
        assert(s@.take(s.len() as int) =~= s@);
    }
    n
}

/// Appends `parts[..n]` joined with `,`.
fn push_joined(out: &mut String, parts: &Vec<Vec<char>>, n: usize)
    requires
        1 <= n <= parts.len(),
    ensures
        final(out)@ == old(out)@ + join(views(parts@).take(n as int), ","@),
{
    push_chars(out, &parts[0]);
    proof {
        let p = views(parts@);
        assert(p.take(1) =~= seq![parts@[0]@]);
    }
    let mut i: usize = 1;
    while i < n
        invariant
            1 <= i <= n <= parts.len(),
            out@ == old(out)@ + join(views(parts@).take(i as int), ","@),
        decreases n - i,
    {
        push_str(out, ",");
        push_chars(out, &parts[i]);
        proof {
            let p = views(parts@);
            assert(p.take(i + 1).drop_last() =~= p.take(i as int));
            assert(p.take(i + 1).last() == parts@[i as int]@);
        }
        i = i + 1;
    }
}

pub fn tci_text_coalesce_key(text: &str) -> (r: Option<String>)
    ensures
        r matches Some(k) ==> coalesce_key(text@) == Some(k@),
        r is None ==> coalesce_key(text@) is None,
{
    let v = chars_of(text);
    let t = trim_chars(&v);
    if count_char_exec(&t, ';') > 1 {
        return None;
    }
    let stripped = if t.len() > 0 && t[t.len() - 1] == ';' {
        let s = crate::text::subrange_chars(&t, 0, t.len() - 1);
        proof {
            assert(s@ =~= t@.drop_last());
        }
        s
    } else {
        t
    };
    let (name, rest) = match split_once_exec(&stripped, ':') {
        Some(p) => p,
        None => return None,
    };
    if name.len() == 0 || rest.len() == 0 {
        return None;
    }
    let args = split_exec(&rest, ',');
    proof {
        lemma_split_nonempty(rest@, ',');
    }
    let mut key = string_of(&name);
    if eq_str(&name, "tx_fault") && args.len() >= 2 {
        push_str(&mut key, ":");
        push_chars(&mut key, &args[0]);
        push_str(&mut key, ",");
        push_chars(&mut key, &args[1]);
        return Some(key);
    }
    if eq_str(&name, "remote_backpressure") || eq_str(&name, "remote_tx_uplink") {
        return Some(key);
    }
    if args.len() == 1 {
        return Some(key);
    }
    push_str(&mut key, ":");
    push_joined(&mut key, &args, args.len() - 1);
    proof {
        assert(views(args@).take(args.len() - 1) =~= views(args@).drop_last());
    }
    Some(key)
}

pub const MAX_TCI_MIC_SAMPLES: usize = 32_768;
pub const MAX_TCI_INBOUND_MESSAGE_BYTES: usize = 262_144;
pub const MAX_TCI_INBOUND_FRAME_BYTES: usize = 262_144;
/// Header bytes of every binary TCI frame.
pub const TCI_FRAME_HEADER_BYTES: usize = 64;

/// Little-endian `u32` at `off`.
pub open spec fn u32_le(s: Seq<u8>, off: int) -> nat {
    (s[off] as nat) + 256 * (s[off + 1] as nat) + 65536 * (s[off + 2] as nat) + 16777216 * (s[off
        + 3] as nat)
}

pub fn read_u32_le(data: &[u8], off: usize) -> (v: u32)
    requires
        off + 4 <= data@.len(),
    ensures
        v as nat == u32_le(data@, off as int),
{
    let b0 = data[off] as u32;
    let b1 = data[off + 1] as u32;
    let b2 = data[off + 2] as u32;
    let b3 = data[off + 3] as u32;
    b0 + 256 * b1 + 65536 * b2 + 16777216 * b3
}

/// Writes `value` little-endian at `offset`, leaving every other byte as it was.
pub fn write_u32_le(buffer: &mut Vec<u8>, offset: usize, value: u32)
    requires
        offset + 4 <= old(buffer).len(),
    ensures
        final(buffer)@.len() == old(buffer)@.len(),
        u32_le(final(buffer)@, offset as int) == value as nat,
        forall|i: int|
            0 <= i < old(buffer)@.len() && !(offset <= i < offset + 4) ==> final(buffer)@[i]
                == old(buffer)@[i],
{
    let b0 = (value % 256) as u8;
    let b1 = (value / 256 % 256) as u8;
    let b2 = (value / 65536 % 256) as u8;
    let b3 = (value / 16777216) as u8;
    proof {
        assert(b0 as nat + 256 * (b1 as nat) + 65536 * (b2 as nat) + 16777216 * (b3 as nat) == value as nat) by (nonlinear_arith)
            requires
                b0 == value % 256,
                b1 == value / 256 % 256,
                b2 == value / 65536 % 256,
                b3 == value / 16777216,
        {
        }
    }
    let o1 = offset + 1;
    let o2 = offset + 2;
    let o3 = offset + 3;
    buffer.set(offset, b0);
    buffer.set(o1, b1);
    buffer.set(o2, b2);
    buffer.set(o3, b3);
}

/// The header of a binary float frame: receiver, sample rate, sample type 3
/// (float32), the sample count, stream type, channels and sequence at their
/// offsets; the remaining bytes are zero.
pub fn tci_frame_header(
    receiver: u32,
    sample_rate: u32,
    sample_count: u32,
    stream_type: u32,
    channels: u32,
    sequence: u32,
) -> (h: Vec<u8>)
    ensures
        h@.len() == TCI_FRAME_HEADER_BYTES,
        u32_le(h@, 0) == receiver as nat,
        u32_le(h@, 4) == sample_rate as nat,
        u32_le(h@, 8) == 3,
        u32_le(h@, 12) == 0,
        u32_le(h@, 16) == 0,
        u32_le(h@, 20) == sample_count as nat,
        u32_le(h@, 24) == stream_type as nat,
        u32_le(h@, 28) == channels as nat,
        u32_le(h@, 32) == sequence as nat,
        forall|i: int| 36 <= i < 64 ==> h@[i] == 0,
{
    let mut h: Vec<u8> = Vec::new();
    let mut i: usize = 0;
    while i < TCI_FRAME_HEADER_BYTES
        invariant
            i <= TCI_FRAME_HEADER_BYTES,
            h@.len() == i,
            forall|k: int| 0 <= k < i ==> h@[k] == 0,
        decreases TCI_FRAME_HEADER_BYTES - i,
    {
        h.push(0);
        i = i + 1;
    }
    write_u32_le(&mut h, 0, receiver);
    write_u32_le(&mut h, 4, sample_rate);
    write_u32_le(&mut h, 8, 3);
    write_u32_le(&mut h, 12, 0);
    write_u32_le(&mut h, 16, 0);
    write_u32_le(&mut h, 20, sample_count);
    write_u32_le(&mut h, 24, stream_type);
    write_u32_le(&mut h, 28, channels);
    write_u32_le(&mut h, 32, sequence);
    h
}

/// Why a binary frame is not a usable microphone frame.
#[derive(Clone, Copy, Debug, PartialEq, Eq, Structural)]
pub enum TciMicFrameParseError {
    NotMicFrame,
    Malformed,
    UnsupportedCodec,
    Decode(TxDecodeError),
}

/// The fields of a microphone frame header and its payload.
pub struct TciMicFrameParts<'a> {
    pub sample_rate_hz: u32,
    pub sample_type: u32,
    pub channels: u32,
    pub sequence: u32,
    pub codec: TxMicCodec,
    pub sample_count: usize,
    pub payload: &'a [u8],
    pub declared_payload_bytes: usize,
}

/// The header check of a microphone frame, in the order the frame is read:
/// at least 64 bytes; stream type 2 (TX microphone); a known codec id; a
/// sample count of 1 to 32768; a declared payload length (0 for all
/// remaining bytes) that fits. On success the payload is the declared bytes
/// after the header.
pub open spec fn mic_frame_check(data: Seq<u8>) -> Result<(), TciMicFrameParseError> {
    if data.len() < 64 {
        Err(TciMicFrameParseError::Malformed)
    } else if u32_le(data, 24) != 2 {
        Err(TciMicFrameParseError::NotMicFrame)
    } else if codec_from_id(u32_le(data, 36) as u32) is None {
        Err(TciMicFrameParseError::UnsupportedCodec)
    } else if u32_le(data, 20) == 0 || u32_le(data, 20) > MAX_TCI_MIC_SAMPLES {
        Err(TciMicFrameParseError::Malformed)
    } else if u32_le(data, 40) > data.len() - 64 {
        Err(TciMicFrameParseError::Malformed)
    } else {
        Ok(())
    }
}

pub fn parse_tci_mic_frame_parts<'a>(data: &'a [u8]) -> (r: Result<
    TciMicFrameParts<'a>,
    TciMicFrameParseError,
>)
    ensures
        r is Ok <==> mic_frame_check(data@) is Ok,
        r matches Err(e) ==> mic_frame_check(data@) == Err::<(), TciMicFrameParseError>(e),
        r matches Ok(p) ==> {
            &&& p.sample_rate_hz as nat == u32_le(data@, 4)
            &&& p.sample_type as nat == u32_le(data@, 8)
            &&& p.channels == (if u32_le(data@, 28) <= 1 { 1u32 } else { 2u32 })
            &&& p.sequence as nat == u32_le(data@, 32)
            &&& Some(p.codec) == codec_from_id(u32_le(data@, 36) as u32)
            &&& p.sample_count as nat == u32_le(data@, 20)
            &&& p.declared_payload_bytes as nat == u32_le(data@, 40)
            &&& p.payload@ == (if u32_le(data@, 40) == 0 {
                data@.subrange(64, data@.len() as int)
            } else {
                data@.subrange(64, 64 + u32_le(data@, 40) as int)
            })
        },
{
    if data.len() < 64 {
        return Err(TciMicFrameParseError::Malformed);
    }
    let sample_rate_hz = read_u32_le(data, 4);
    let sample_type = read_u32_le(data, 8);
    let stream_type = read_u32_le(data, 24);
    if stream_type != 2 {
        return Err(TciMicFrameParseError::NotMicFrame);
    }
    let raw_channels = read_u32_le(data, 28);
    let channels: u32 = if raw_channels <= 1 {
        1
    } else {
        2
    };
    let sequence = read_u32_le(data, 32);
    let codec_id = read_u32_le(data, 36);
    let codec = match TxMicCodec::from_id(codec_id) {
        Some(c) => c,
        None => return Err(TciMicFrameParseError::UnsupportedCodec),
    };
    let declared_payload_bytes = read_u32_le(data, 40) as usize;
    let sample_count = read_u32_le(data, 20) as usize;
    if sample_count == 0 || sample_count > MAX_TCI_MIC_SAMPLES {
        return Err(TciMicFrameParseError::Malformed);
    }
    let raw_len = data.len() - 64;
    if declared_payload_bytes > raw_len {
        return Err(TciMicFrameParseError::Malformed);
    }
    let payload: &[u8] = if declared_payload_bytes == 0 {
        &data[64..data.len()]
    } else {
        &data[64..64 + declared_payload_bytes]
    };
    Ok(
        TciMicFrameParts {
            sample_rate_hz,
            sample_type,
            channels,
            sequence,
            codec,
            sample_count,
            payload,
            declared_payload_bytes,
        },
    )
}

} // verus!
