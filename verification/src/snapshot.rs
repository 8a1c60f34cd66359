//! The state a TCI client receives when it connects: every setting of the
//! radio model that clients mirror, one message per line.
use vstd::prelude::*;
use crate::session::{TciClientRole, remote_client_role_message, role_message};
use crate::text::{chars_of, dec, dec_signed, push_chars, push_dec, push_dec_i64, push_str};

verus! {

/// The settings of the radio model that the connect snapshot reports. Values
/// that the model holds as real numbers arrive already rendered as text, with
/// the precision each message uses; enumerations arrive as their TCI names.
pub struct RadioSnapshot {
    pub vfo_a_hz: u64,
    pub vfo_b_hz: u64,
    pub iq_center_hz: u64,
    pub ddc0_adc: u64,
    pub rx_antenna: u64,
    pub ddc0_sample_rate_khz: u16,
    pub mode: String,
    pub rx_volume_db: String,
    pub rx_noise_reduction_on: bool,
    pub rx_noise_reduction_mode: String,
    pub rx_noise_reduction_level: String,
    pub rx_nr2_gain_method: String,
    pub rx_nr2_npe_method: String,
    pub rx_nr2_post_filter_enabled: bool,
    pub rx_wbfm_supported: bool,
    pub rx_wbfm_deemphasis: String,
    pub rx_wbfm_stereo_detected: bool,
    pub filter_low_hz: i64,
    pub filter_high_hz: i64,
    pub nb_mode: String,
    pub nb_threshold: String,
    pub rx_anr_taps: i64,
    pub rx_anr_delay: i64,
    pub rx_anr_gain: String,
    pub rx_anr_leakage: String,
    pub anf_enabled: bool,
    pub rx_anf_taps: i64,
    pub rx_anf_delay: i64,
    pub rx_anf_gain: String,
    pub rx_anf_leakage: String,
    pub agc_mode: String,
    pub agc_gain: String,
    pub tx_drive: u64,
    pub tx_mic_gain_db: String,
    pub tx_enabled: bool,
    pub tx_phase: String,
    pub tx_filter_low_hz: i64,
    pub tx_filter_high_hz: i64,
    pub rx_eq_enabled: bool,
    pub tx_eq_enabled: bool,
    pub rx_eq_bands: [i64; 11],
    pub tx_eq_bands: [i64; 11],
    pub cfc_enabled: bool,
    pub cfc_precomp_db: String,
    pub cfc_bands: [String; 10],
    pub tx_phase_rotator_enabled: bool,
    pub tx_phase_rotator_auto: bool,
    pub tx_phase_rotator_corner_hz: String,
    pub pure_signal_enabled: bool,
    pub pure_signal_auto_attenuate: bool,
    pub pure_signal_attenuation_db: u64,
    pub pure_signal_state: String,
    pub pure_signal_feedback_level: u64,
    pub pure_signal_calibration_count: u64,
    pub pure_signal_correcting: bool,
    pub pure_signal_max_tx: String,
    pub pure_signal_feedback_packets: u64,
    pub pure_signal_feedback_gaps: u64,
    pub two_tone_enabled: bool,
    pub tx_two_tone_freq1_hz: String,
    pub tx_two_tone_freq2_hz: String,
    pub tx_two_tone_level_db: String,
    pub tx_two_tone_invert_lsb: bool,
    pub tx_two_tone_delay_ms: u64,
    pub tx_noise_gate_enabled: bool,
    pub tx_noise_gate_threshold_db: String,
    pub rx_fft_size: u64,
    pub rx_low_latency: bool,
    pub tx_fft_size: u64,
    pub tx_low_latency: bool,
}

/// `true` or `false`.
pub open spec fn bool_text(b: bool) -> Seq<char> {
    if b {
        "true"@
    } else {
        "false"@
    }
}

pub open spec fn clamp_nat(v: nat, lo: nat, hi: nat) -> nat {
    if v < lo {
        lo
    } else if v > hi {
        hi
    } else {
        v
    }
}

/// The characters of each message.
pub open spec fn message_views(v: Seq<String>) -> Seq<Seq<char>> {
    v.map_values(|s: String| s@)
}

proof fn lemma_views_append(a: Seq<String>, b: Seq<String>)
    ensures
        message_views(a + b) == message_views(a) + message_views(b),
{
    assert(message_views(a + b) =~= message_views(a) + message_views(b));
}

pub(crate) fn string_of_str(lit: &str) -> (s: String)
    ensures
        s@ == lit@,
{
    let mut s = String::new();
    push_str(&mut s, lit);
    proof {
        assert(s@ =~= lit@);
    }
    s
}

pub(crate) fn push_bool(out: &mut String, b: bool)
    ensures
        final(out)@ == old(out)@ + bool_text(b),
{
    if b {
        push_str(out, "true");
    } else {
        push_str(out, "false");
    }
}

pub(crate) fn push_string(out: &mut String, s: &String)
    ensures
        final(out)@ == old(out)@ + s@,
{
    let chars = chars_of(s.as_str());
    push_chars(out, &chars);
}

pub(crate) fn line_u64(prefix: &str, v: u64) -> (s: String)
    ensures
        s@ == prefix@ + dec(v as nat) + ";"@,
{
    let mut s = String::new();
    push_str(&mut s, prefix);
    push_dec(&mut s, v);
    push_str(&mut s, ";");
    proof {
        assert(s@ =~= prefix@ + dec(v as nat) + ";"@);
    }
    s
}

pub(crate) fn line_i64(prefix: &str, v: i64) -> (s: String)
    ensures
        s@ == prefix@ + dec_signed(v as int) + ";"@,
{
    let mut s = String::new();
    push_str(&mut s, prefix);
    push_dec_i64(&mut s, v);
    push_str(&mut s, ";");
    proof {
        assert(s@ =~= prefix@ + dec_signed(v as int) + ";"@);
    }
    s
}

pub(crate) fn line_bool(prefix: &str, v: bool) -> (s: String)
    ensures
        s@ == prefix@ + bool_text(v) + ";"@,
{
    let mut s = String::new();
    push_str(&mut s, prefix);
    push_bool(&mut s, v);
    push_str(&mut s, ";");
    proof {
        assert(s@ =~= prefix@ + bool_text(v) + ";"@);
    }
    s
}

pub(crate) fn line_text(prefix: &str, v: &String) -> (s: String)
    ensures
        s@ == prefix@ + v@ + ";"@,
{
    let mut s = String::new();
    push_str(&mut s, prefix);
    push_string(&mut s, v);
    push_str(&mut s, ";");
    proof {
        assert(s@ =~= prefix@ + v@ + ";"@);
    }
    s
}

fn line_pair(prefix: &str, a: i64, b: i64) -> (s: String)
    ensures
        s@ == prefix@ + dec_signed(a as int) + ","@ + dec_signed(b as int) + ";"@,
{
    let mut s = String::new();
    push_str(&mut s, prefix);
    push_dec_i64(&mut s, a);
    push_str(&mut s, ",");
    push_dec_i64(&mut s, b);
    push_str(&mut s, ";");
    proof {
        assert(s@ =~= prefix@ + dec_signed(a as int) + ","@ + dec_signed(b as int) + ";"@);
    }
    s
}

fn line_band(prefix: &str, band: u64, v: i64) -> (s: String)
    ensures
        s@ == prefix@ + dec(band as nat) + ","@ + dec_signed(v as int) + ";"@,
{
    let mut s = String::new();
    push_str(&mut s, prefix);
    push_dec(&mut s, band);
    push_str(&mut s, ",");
    push_dec_i64(&mut s, v);
    push_str(&mut s, ";");
    proof {
        assert(s@ =~= prefix@ + dec(band as nat) + ","@ + dec_signed(v as int) + ";"@);
    }
    s
}

fn line_text_band(prefix: &str, band: u64, v: &String) -> (s: String)
    ensures
        s@ == prefix@ + dec(band as nat) + ","@ + v@ + ";"@,
{
    let mut s = String::new();
    push_str(&mut s, prefix);
    push_dec(&mut s, band);
    push_str(&mut s, ",");
    push_string(&mut s, v);
    push_str(&mut s, ";");
    proof {
        assert(s@ =~= prefix@ + dec(band as nat) + ","@ + v@ + ";"@);
    }
    s
}

fn clamp_antenna(a: u64) -> (r: u64)
    ensures
        r as nat == clamp_nat(a as nat, 1, 3),
{
    if a < 1 {
        1
    } else if a > 3 {
        3
    } else {
        a
    }
}

pub open spec fn radio_state_part_0(m: RadioSnapshot, remote_tx_rf_enabled: bool) -> Seq<Seq<char>> {
    seq![
        "vfo:0,0,"@ + dec(m.vfo_a_hz as nat) + ";"@,
        "vfo:0,1,"@ + dec(m.vfo_b_hz as nat) + ";"@,
        "dds:0,"@ + dec(m.iq_center_hz as nat) + ";"@,
        "rx_adc:0,"@ + dec(m.ddc0_adc as nat) + ";"@,
        "rx_antenna:0,"@ + dec(clamp_nat(m.rx_antenna as nat, 1, 3)) + ";"@,
        "iq_samplerate:"@ + dec((m.ddc0_sample_rate_khz as nat) * 1000) + ";"@,
        "modulation:0,"@ + m.mode@ + ";"@,
        "rx_volume:0,0,"@ + m.rx_volume_db@ + ";"@,
        "rx_nr:0,"@ + bool_text(m.rx_noise_reduction_on) + ";"@,
        "rx_nr_mode:0,"@ + m.rx_noise_reduction_mode@ + ";"@,
        "rx_nr_level:0,"@ + m.rx_noise_reduction_level@ + ";"@,
        "rx_nr2_gain_method:0,"@ + m.rx_nr2_gain_method@ + ";"@,
    ]
}

#[verifier::rlimit(40)]
fn radio_state_part_0_exec(m: &RadioSnapshot, remote_tx_rf_enabled: bool) -> (v: Vec<String>)
    ensures
        message_views(v@) == radio_state_part_0(*m, remote_tx_rf_enabled),
{
    let mut v: Vec<String> = Vec::new();
    v.push(line_u64("vfo:0,0,", m.vfo_a_hz));
    v.push(line_u64("vfo:0,1,", m.vfo_b_hz));
    v.push(line_u64("dds:0,", m.iq_center_hz));
    v.push(line_u64("rx_adc:0,", m.ddc0_adc));
    v.push(line_u64("rx_antenna:0,", clamp_antenna(m.rx_antenna)));
    v.push(line_u64("iq_samplerate:", (m.ddc0_sample_rate_khz as u64) * 1000));
    v.push(line_text("modulation:0,", &m.mode));
    v.push(line_text("rx_volume:0,0,", &m.rx_volume_db));
    v.push(line_bool("rx_nr:0,", m.rx_noise_reduction_on));
    v.push(line_text("rx_nr_mode:0,", &m.rx_noise_reduction_mode));
    v.push(line_text("rx_nr_level:0,", &m.rx_noise_reduction_level));
    v.push(line_text("rx_nr2_gain_method:0,", &m.rx_nr2_gain_method));
    proof {
        assert(message_views(v@) =~= radio_state_part_0(*m, remote_tx_rf_enabled));
    }
    v
}

pub open spec fn radio_state_part_1(m: RadioSnapshot, remote_tx_rf_enabled: bool) -> Seq<Seq<char>> {
    seq![
        "rx_nr2_npe_method:0,"@ + m.rx_nr2_npe_method@ + ";"@,
        "rx_nr2_post_filter:0,"@ + bool_text(m.rx_nr2_post_filter_enabled) + ";"@,
        "rx_wbfm_supported:0,"@ + bool_text(m.rx_wbfm_supported) + ";"@,
        "rx_wbfm_deemphasis:0,"@ + m.rx_wbfm_deemphasis@ + ";"@,
        "rx_wbfm_stereo:0,"@ + bool_text(m.rx_wbfm_stereo_detected) + ";"@,
        "rx_filter_band:0,"@ + dec_signed(m.filter_low_hz as int) + ","@ + dec_signed(m.filter_high_hz as int) + ";"@,
        "rx_nb:0,"@ + m.nb_mode@ + ";"@,
        "rx_nb_threshold:0,"@ + m.nb_threshold@ + ";"@,
        "rx_anr_taps:0,"@ + dec_signed(m.rx_anr_taps as int) + ";"@,
        "rx_anr_delay:0,"@ + dec_signed(m.rx_anr_delay as int) + ";"@,
        "rx_anr_gain:0,"@ + m.rx_anr_gain@ + ";"@,
        "rx_anr_leakage:0,"@ + m.rx_anr_leakage@ + ";"@,
    ]
}

#[verifier::rlimit(40)]
fn radio_state_part_1_exec(m: &RadioSnapshot, remote_tx_rf_enabled: bool) -> (v: Vec<String>)
    ensures
        message_views(v@) == radio_state_part_1(*m, remote_tx_rf_enabled),
{
    let mut v: Vec<String> = Vec::new();
    v.push(line_text("rx_nr2_npe_method:0,", &m.rx_nr2_npe_method));
    v.push(line_bool("rx_nr2_post_filter:0,", m.rx_nr2_post_filter_enabled));
    v.push(line_bool("rx_wbfm_supported:0,", m.rx_wbfm_supported));
    v.push(line_text("rx_wbfm_deemphasis:0,", &m.rx_wbfm_deemphasis));
    v.push(line_bool("rx_wbfm_stereo:0,", m.rx_wbfm_stereo_detected));
    v.push(line_pair("rx_filter_band:0,", m.filter_low_hz, m.filter_high_hz));
    v.push(line_text("rx_nb:0,", &m.nb_mode));
    v.push(line_text("rx_nb_threshold:0,", &m.nb_threshold));
    v.push(line_i64("rx_anr_taps:0,", m.rx_anr_taps));
    v.push(line_i64("rx_anr_delay:0,", m.rx_anr_delay));
    v.push(line_text("rx_anr_gain:0,", &m.rx_anr_gain));
    v.push(line_text("rx_anr_leakage:0,", &m.rx_anr_leakage));
    proof {
        assert(message_views(v@) =~= radio_state_part_1(*m, remote_tx_rf_enabled));
    }
    v
}

pub open spec fn radio_state_part_2(m: RadioSnapshot, remote_tx_rf_enabled: bool) -> Seq<Seq<char>> {
    seq![
        "rx_anf:0,"@ + bool_text(m.anf_enabled) + ";"@,
        "rx_anf_taps:0,"@ + dec_signed(m.rx_anf_taps as int) + ";"@,
        "rx_anf_delay:0,"@ + dec_signed(m.rx_anf_delay as int) + ";"@,
        "rx_anf_gain:0,"@ + m.rx_anf_gain@ + ";"@,
        "rx_anf_leakage:0,"@ + m.rx_anf_leakage@ + ";"@,
        "rx_agc:0,"@ + m.agc_mode@ + ";"@,
        "rx_agc_gain:0,"@ + m.agc_gain@ + ";"@,
        "tx_drive:0,"@ + dec(m.tx_drive as nat) + ";"@,
        "remote_tx_rf_enabled:0,"@ + bool_text(remote_tx_rf_enabled) + ";"@,
        "tx_mic_gain:0,"@ + m.tx_mic_gain_db@ + ";"@,
        "trx:0,"@ + bool_text(m.tx_enabled) + ";"@,
        "tx_state:0,"@ + m.tx_phase@ + ";"@,
    ]
}

#[verifier::rlimit(40)]
fn radio_state_part_2_exec(m: &RadioSnapshot, remote_tx_rf_enabled: bool) -> (v: Vec<String>)
    ensures
        message_views(v@) == radio_state_part_2(*m, remote_tx_rf_enabled),
{
    let mut v: Vec<String> = Vec::new();
    v.push(line_bool("rx_anf:0,", m.anf_enabled));
    v.push(line_i64("rx_anf_taps:0,", m.rx_anf_taps));
    v.push(line_i64("rx_anf_delay:0,", m.rx_anf_delay));
    v.push(line_text("rx_anf_gain:0,", &m.rx_anf_gain));
    v.push(line_text("rx_anf_leakage:0,", &m.rx_anf_leakage));
    v.push(line_text("rx_agc:0,", &m.agc_mode));
    v.push(line_text("rx_agc_gain:0,", &m.agc_gain));
    v.push(line_u64("tx_drive:0,", m.tx_drive));
    v.push(line_bool("remote_tx_rf_enabled:0,", remote_tx_rf_enabled));
    v.push(line_text("tx_mic_gain:0,", &m.tx_mic_gain_db));
    v.push(line_bool("trx:0,", m.tx_enabled));
    v.push(line_text("tx_state:0,", &m.tx_phase));
    proof {
        assert(message_views(v@) =~= radio_state_part_2(*m, remote_tx_rf_enabled));
    }
    v
}

pub open spec fn radio_state_part_3(m: RadioSnapshot, remote_tx_rf_enabled: bool) -> Seq<Seq<char>> {
    seq![
        "tx_filter_band:0,"@ + dec_signed(m.tx_filter_low_hz as int) + ","@ + dec_signed(m.tx_filter_high_hz as int) + ";"@,
        "rx_eq_enable:0,"@ + bool_text(m.rx_eq_enabled) + ";"@,
        "tx_eq_enable:0,"@ + bool_text(m.tx_eq_enabled) + ";"@,
        "rx_eq_band:0,"@ + dec(1nat) + ","@ + dec_signed(m.rx_eq_bands[1] as int) + ";"@,
        "tx_eq_band:0,"@ + dec(1nat) + ","@ + dec_signed(m.tx_eq_bands[1] as int) + ";"@,
        "rx_eq_band:0,"@ + dec(2nat) + ","@ + dec_signed(m.rx_eq_bands[2] as int) + ";"@,
        "tx_eq_band:0,"@ + dec(2nat) + ","@ + dec_signed(m.tx_eq_bands[2] as int) + ";"@,
        "rx_eq_band:0,"@ + dec(3nat) + ","@ + dec_signed(m.rx_eq_bands[3] as int) + ";"@,
        "tx_eq_band:0,"@ + dec(3nat) + ","@ + dec_signed(m.tx_eq_bands[3] as int) + ";"@,
        "rx_eq_band:0,"@ + dec(4nat) + ","@ + dec_signed(m.rx_eq_bands[4] as int) + ";"@,
        "tx_eq_band:0,"@ + dec(4nat) + ","@ + dec_signed(m.tx_eq_bands[4] as int) + ";"@,
        "rx_eq_band:0,"@ + dec(5nat) + ","@ + dec_signed(m.rx_eq_bands[5] as int) + ";"@,
    ]
}

#[verifier::rlimit(40)]
fn radio_state_part_3_exec(m: &RadioSnapshot, remote_tx_rf_enabled: bool) -> (v: Vec<String>)
    ensures
        message_views(v@) == radio_state_part_3(*m, remote_tx_rf_enabled),
{
    let mut v: Vec<String> = Vec::new();
    v.push(line_pair("tx_filter_band:0,", m.tx_filter_low_hz, m.tx_filter_high_hz));
    v.push(line_bool("rx_eq_enable:0,", m.rx_eq_enabled));
    v.push(line_bool("tx_eq_enable:0,", m.tx_eq_enabled));
    v.push(line_band("rx_eq_band:0,", 1, m.rx_eq_bands[1]));
    v.push(line_band("tx_eq_band:0,", 1, m.tx_eq_bands[1]));
    v.push(line_band("rx_eq_band:0,", 2, m.rx_eq_bands[2]));
    v.push(line_band("tx_eq_band:0,", 2, m.tx_eq_bands[2]));
    v.push(line_band("rx_eq_band:0,", 3, m.rx_eq_bands[3]));
    v.push(line_band("tx_eq_band:0,", 3, m.tx_eq_bands[3]));
    v.push(line_band("rx_eq_band:0,", 4, m.rx_eq_bands[4]));
    v.push(line_band("tx_eq_band:0,", 4, m.tx_eq_bands[4]));
    v.push(line_band("rx_eq_band:0,", 5, m.rx_eq_bands[5]));
    proof {
        assert(message_views(v@) =~= radio_state_part_3(*m, remote_tx_rf_enabled));
    }
    v
}

pub open spec fn radio_state_part_4(m: RadioSnapshot, remote_tx_rf_enabled: bool) -> Seq<Seq<char>> {
    seq![
        "tx_eq_band:0,"@ + dec(5nat) + ","@ + dec_signed(m.tx_eq_bands[5] as int) + ";"@,
        "rx_eq_band:0,"@ + dec(6nat) + ","@ + dec_signed(m.rx_eq_bands[6] as int) + ";"@,
        "tx_eq_band:0,"@ + dec(6nat) + ","@ + dec_signed(m.tx_eq_bands[6] as int) + ";"@,
        "rx_eq_band:0,"@ + dec(7nat) + ","@ + dec_signed(m.rx_eq_bands[7] as int) + ";"@,
        "tx_eq_band:0,"@ + dec(7nat) + ","@ + dec_signed(m.tx_eq_bands[7] as int) + ";"@,
        "rx_eq_band:0,"@ + dec(8nat) + ","@ + dec_signed(m.rx_eq_bands[8] as int) + ";"@,
        "tx_eq_band:0,"@ + dec(8nat) + ","@ + dec_signed(m.tx_eq_bands[8] as int) + ";"@,
        "rx_eq_band:0,"@ + dec(9nat) + ","@ + dec_signed(m.rx_eq_bands[9] as int) + ";"@,
        "tx_eq_band:0,"@ + dec(9nat) + ","@ + dec_signed(m.tx_eq_bands[9] as int) + ";"@,
        "rx_eq_band:0,"@ + dec(10nat) + ","@ + dec_signed(m.rx_eq_bands[10] as int) + ";"@,
        "tx_eq_band:0,"@ + dec(10nat) + ","@ + dec_signed(m.tx_eq_bands[10] as int) + ";"@,
        "tx_cfc_enable:0,"@ + bool_text(m.cfc_enabled) + ";"@,
    ]
}

#[verifier::rlimit(40)]
fn radio_state_part_4_exec(m: &RadioSnapshot, remote_tx_rf_enabled: bool) -> (v: Vec<String>)
    ensures
        message_views(v@) == radio_state_part_4(*m, remote_tx_rf_enabled),
{
    let mut v: Vec<String> = Vec::new();
    v.push(line_band("tx_eq_band:0,", 5, m.tx_eq_bands[5]));
    v.push(line_band("rx_eq_band:0,", 6, m.rx_eq_bands[6]));
    v.push(line_band("tx_eq_band:0,", 6, m.tx_eq_bands[6]));
    v.push(line_band("rx_eq_band:0,", 7, m.rx_eq_bands[7]));
    v.push(line_band("tx_eq_band:0,", 7, m.tx_eq_bands[7]));
    v.push(line_band("rx_eq_band:0,", 8, m.rx_eq_bands[8]));
    v.push(line_band("tx_eq_band:0,", 8, m.tx_eq_bands[8]));
    v.push(line_band("rx_eq_band:0,", 9, m.rx_eq_bands[9]));
    v.push(line_band("tx_eq_band:0,", 9, m.tx_eq_bands[9]));
    v.push(line_band("rx_eq_band:0,", 10, m.rx_eq_bands[10]));
    v.push(line_band("tx_eq_band:0,", 10, m.tx_eq_bands[10]));
    v.push(line_bool("tx_cfc_enable:0,", m.cfc_enabled));
    proof {
        assert(message_views(v@) =~= radio_state_part_4(*m, remote_tx_rf_enabled));
    }
    v
}

pub open spec fn radio_state_part_5(m: RadioSnapshot, remote_tx_rf_enabled: bool) -> Seq<Seq<char>> {
    seq![
        "tx_cfc_precomp:0,"@ + m.cfc_precomp_db@ + ";"@,
        "tx_cfc_band:0,"@ + dec(1nat) + ","@ + m.cfc_bands[0]@ + ";"@,
        "tx_cfc_band:0,"@ + dec(2nat) + ","@ + m.cfc_bands[1]@ + ";"@,
        "tx_cfc_band:0,"@ + dec(3nat) + ","@ + m.cfc_bands[2]@ + ";"@,
        "tx_cfc_band:0,"@ + dec(4nat) + ","@ + m.cfc_bands[3]@ + ";"@,
        "tx_cfc_band:0,"@ + dec(5nat) + ","@ + m.cfc_bands[4]@ + ";"@,
        "tx_cfc_band:0,"@ + dec(6nat) + ","@ + m.cfc_bands[5]@ + ";"@,
        "tx_cfc_band:0,"@ + dec(7nat) + ","@ + m.cfc_bands[6]@ + ";"@,
        "tx_cfc_band:0,"@ + dec(8nat) + ","@ + m.cfc_bands[7]@ + ";"@,
        "tx_cfc_band:0,"@ + dec(9nat) + ","@ + m.cfc_bands[8]@ + ";"@,
        "tx_cfc_band:0,"@ + dec(10nat) + ","@ + m.cfc_bands[9]@ + ";"@,
        "tx_phase_rotator:0,"@ + bool_text(m.tx_phase_rotator_enabled) + ";"@,
    ]
}

#[verifier::rlimit(40)]
fn radio_state_part_5_exec(m: &RadioSnapshot, remote_tx_rf_enabled: bool) -> (v: Vec<String>)
    ensures
        message_views(v@) == radio_state_part_5(*m, remote_tx_rf_enabled),
{
    let mut v: Vec<String> = Vec::new();
    v.push(line_text("tx_cfc_precomp:0,", &m.cfc_precomp_db));
    v.push(line_text_band("tx_cfc_band:0,", 1, &m.cfc_bands[0]));
    v.push(line_text_band("tx_cfc_band:0,", 2, &m.cfc_bands[1]));
    v.push(line_text_band("tx_cfc_band:0,", 3, &m.cfc_bands[2]));
    v.push(line_text_band("tx_cfc_band:0,", 4, &m.cfc_bands[3]));
    v.push(line_text_band("tx_cfc_band:0,", 5, &m.cfc_bands[4]));
    v.push(line_text_band("tx_cfc_band:0,", 6, &m.cfc_bands[5]));
    v.push(line_text_band("tx_cfc_band:0,", 7, &m.cfc_bands[6]));
    v.push(line_text_band("tx_cfc_band:0,", 8, &m.cfc_bands[7]));
    v.push(line_text_band("tx_cfc_band:0,", 9, &m.cfc_bands[8]));
    v.push(line_text_band("tx_cfc_band:0,", 10, &m.cfc_bands[9]));
    v.push(line_bool("tx_phase_rotator:0,", m.tx_phase_rotator_enabled));
    proof {
        assert(message_views(v@) =~= radio_state_part_5(*m, remote_tx_rf_enabled));
    }
    v
}

pub open spec fn radio_state_part_6(m: RadioSnapshot, remote_tx_rf_enabled: bool) -> Seq<Seq<char>> {
    seq![
        "tx_phase_rotator_auto:0,"@ + bool_text(m.tx_phase_rotator_auto) + ";"@,
        "tx_phase_rotator_corner:0,"@ + m.tx_phase_rotator_corner_hz@ + ";"@,
        "tx_puresignal:0,"@ + bool_text(m.pure_signal_enabled) + ";"@,
        "tx_puresignal_auto_attenuate:0,"@ + bool_text(m.pure_signal_auto_attenuate) + ";"@,
        "tx_puresignal_attenuation:0,"@ + dec(m.pure_signal_attenuation_db as nat) + ";"@,
        "tx_puresignal_state:0,"@ + m.pure_signal_state@ + ";"@,
        "tx_puresignal_feedback:0,"@ + dec(m.pure_signal_feedback_level as nat) + ";"@,
        "tx_puresignal_calibration_count:0,"@ + dec(m.pure_signal_calibration_count as nat) + ";"@,
        "tx_puresignal_correcting:0,"@ + bool_text(m.pure_signal_correcting) + ";"@,
        "tx_puresignal_max_tx:0,"@ + m.pure_signal_max_tx@ + ";"@,
        "tx_puresignal_feedback_packets:0,"@ + dec(m.pure_signal_feedback_packets as nat) + ";"@,
        "tx_puresignal_feedback_gaps:0,"@ + dec(m.pure_signal_feedback_gaps as nat) + ";"@,
    ]
}

#[verifier::rlimit(40)]
fn radio_state_part_6_exec(m: &RadioSnapshot, remote_tx_rf_enabled: bool) -> (v: Vec<String>)
    ensures
        message_views(v@) == radio_state_part_6(*m, remote_tx_rf_enabled),
{
    let mut v: Vec<String> = Vec::new();
    v.push(line_bool("tx_phase_rotator_auto:0,", m.tx_phase_rotator_auto));
    v.push(line_text("tx_phase_rotator_corner:0,", &m.tx_phase_rotator_corner_hz));
    v.push(line_bool("tx_puresignal:0,", m.pure_signal_enabled));
    v.push(line_bool("tx_puresignal_auto_attenuate:0,", m.pure_signal_auto_attenuate));
    v.push(line_u64("tx_puresignal_attenuation:0,", m.pure_signal_attenuation_db));
    v.push(line_text("tx_puresignal_state:0,", &m.pure_signal_state));
    v.push(line_u64("tx_puresignal_feedback:0,", m.pure_signal_feedback_level));
    v.push(line_u64("tx_puresignal_calibration_count:0,", m.pure_signal_calibration_count));
    v.push(line_bool("tx_puresignal_correcting:0,", m.pure_signal_correcting));
    v.push(line_text("tx_puresignal_max_tx:0,", &m.pure_signal_max_tx));
    v.push(line_u64("tx_puresignal_feedback_packets:0,", m.pure_signal_feedback_packets));
    v.push(line_u64("tx_puresignal_feedback_gaps:0,", m.pure_signal_feedback_gaps));
    proof {
        assert(message_views(v@) =~= radio_state_part_6(*m, remote_tx_rf_enabled));
    }
    v
}

pub open spec fn radio_state_part_7(m: RadioSnapshot, remote_tx_rf_enabled: bool) -> Seq<Seq<char>> {
    seq![
        "tx_two_tone:0,"@ + bool_text(m.two_tone_enabled) + ";"@,
        "tx_two_tone_freq1:0,"@ + m.tx_two_tone_freq1_hz@ + ";"@,
        "tx_two_tone_freq2:0,"@ + m.tx_two_tone_freq2_hz@ + ";"@,
        "tx_two_tone_level_db:0,"@ + m.tx_two_tone_level_db@ + ";"@,
        "tx_two_tone_invert_lsb:0,"@ + bool_text(m.tx_two_tone_invert_lsb) + ";"@,
        "tx_two_tone_delay_ms:0,"@ + dec(m.tx_two_tone_delay_ms as nat) + ";"@,
        "tx_noise_gate:0,"@ + bool_text(m.tx_noise_gate_enabled) + ";"@,
        "tx_noise_gate_threshold:0,"@ + m.tx_noise_gate_threshold_db@ + ";"@,
        "rx_fft_size:0,"@ + dec(m.rx_fft_size as nat) + ";"@,
        "rx_low_latency:0,"@ + bool_text(m.rx_low_latency) + ";"@,
        "tx_fft_size:0,"@ + dec(m.tx_fft_size as nat) + ";"@,
        "tx_low_latency:0,"@ + bool_text(m.tx_low_latency) + ";"@,
    ]
}

#[verifier::rlimit(40)]
fn radio_state_part_7_exec(m: &RadioSnapshot, remote_tx_rf_enabled: bool) -> (v: Vec<String>)
    ensures
        message_views(v@) == radio_state_part_7(*m, remote_tx_rf_enabled),
{
    let mut v: Vec<String> = Vec::new();
    v.push(line_bool("tx_two_tone:0,", m.two_tone_enabled));
    v.push(line_text("tx_two_tone_freq1:0,", &m.tx_two_tone_freq1_hz));
    v.push(line_text("tx_two_tone_freq2:0,", &m.tx_two_tone_freq2_hz));
    v.push(line_text("tx_two_tone_level_db:0,", &m.tx_two_tone_level_db));
    v.push(line_bool("tx_two_tone_invert_lsb:0,", m.tx_two_tone_invert_lsb));
    v.push(line_u64("tx_two_tone_delay_ms:0,", m.tx_two_tone_delay_ms));
    v.push(line_bool("tx_noise_gate:0,", m.tx_noise_gate_enabled));
    v.push(line_text("tx_noise_gate_threshold:0,", &m.tx_noise_gate_threshold_db));
    v.push(line_u64("rx_fft_size:0,", m.rx_fft_size));
    v.push(line_bool("rx_low_latency:0,", m.rx_low_latency));
    v.push(line_u64("tx_fft_size:0,", m.tx_fft_size));
    v.push(line_bool("tx_low_latency:0,", m.tx_low_latency));
    proof {
        assert(message_views(v@) =~= radio_state_part_7(*m, remote_tx_rf_enabled));
    }
    v
}

pub open spec fn radio_state_part_8(m: RadioSnapshot, remote_tx_rf_enabled: bool) -> Seq<Seq<char>> {
    seq![
        "tune:0,false;"@,
    ]
}

#[verifier::rlimit(40)]
fn radio_state_part_8_exec(m: &RadioSnapshot, remote_tx_rf_enabled: bool) -> (v: Vec<String>)
    ensures
        message_views(v@) == radio_state_part_8(*m, remote_tx_rf_enabled),
{
    let mut v: Vec<String> = Vec::new();
    v.push(string_of_str("tune:0,false;"));
    proof {
        assert(message_views(v@) =~= radio_state_part_8(*m, remote_tx_rf_enabled));
    }
    v
}

/// The radio's settings as clients mirror them, one message each, in the
/// order they are sent.
pub open spec fn radio_state_messages_spec(m: RadioSnapshot, remote_tx_rf_enabled: bool) -> Seq<Seq<char>> {
    radio_state_part_0(m, remote_tx_rf_enabled)
        + radio_state_part_1(m, remote_tx_rf_enabled)
        + radio_state_part_2(m, remote_tx_rf_enabled)
        + radio_state_part_3(m, remote_tx_rf_enabled)
        + radio_state_part_4(m, remote_tx_rf_enabled)
        + radio_state_part_5(m, remote_tx_rf_enabled)
        + radio_state_part_6(m, remote_tx_rf_enabled)
        + radio_state_part_7(m, remote_tx_rf_enabled)
        + radio_state_part_8(m, remote_tx_rf_enabled)
}

/// The radio's settings, one message each, ending with `tune:0,false;`.
pub fn radio_state_messages(m: &RadioSnapshot, remote_tx_rf_enabled: bool) -> (msgs: Vec<String>)
    ensures
        message_views(msgs@) == radio_state_messages_spec(*m, remote_tx_rf_enabled),
{
    let mut msgs: Vec<String> = Vec::new();
    let mut part = radio_state_part_0_exec(m, remote_tx_rf_enabled);
    proof {
        lemma_views_append(msgs@, part@);
    }
    msgs.append(&mut part);
    let mut part = radio_state_part_1_exec(m, remote_tx_rf_enabled);
    proof {
        lemma_views_append(msgs@, part@);
    }
    msgs.append(&mut part);
    let mut part = radio_state_part_2_exec(m, remote_tx_rf_enabled);
    proof {
        lemma_views_append(msgs@, part@);
    }
    msgs.append(&mut part);
    let mut part = radio_state_part_3_exec(m, remote_tx_rf_enabled);
    proof {
        lemma_views_append(msgs@, part@);
    }
    msgs.append(&mut part);
    let mut part = radio_state_part_4_exec(m, remote_tx_rf_enabled);
    proof {
        lemma_views_append(msgs@, part@);
    }
    msgs.append(&mut part);
    let mut part = radio_state_part_5_exec(m, remote_tx_rf_enabled);
    proof {
        lemma_views_append(msgs@, part@);
    }
    msgs.append(&mut part);
    let mut part = radio_state_part_6_exec(m, remote_tx_rf_enabled);
    proof {
        lemma_views_append(msgs@, part@);
    }
    msgs.append(&mut part);
    let mut part = radio_state_part_7_exec(m, remote_tx_rf_enabled);
    proof {
        lemma_views_append(msgs@, part@);
    }
    msgs.append(&mut part);
    let mut part = radio_state_part_8_exec(m, remote_tx_rf_enabled);
    proof {
        lemma_views_append(msgs@, part@);
    }
    msgs.append(&mut part);
    proof {
        assert(radio_state_messages_spec(*m, remote_tx_rf_enabled) =~= radio_state_part_0(*m, remote_tx_rf_enabled) + radio_state_part_1(*m, remote_tx_rf_enabled) + radio_state_part_2(*m, remote_tx_rf_enabled) + radio_state_part_3(*m, remote_tx_rf_enabled) + radio_state_part_4(*m, remote_tx_rf_enabled) + radio_state_part_5(*m, remote_tx_rf_enabled) + radio_state_part_6(*m, remote_tx_rf_enabled) + radio_state_part_7(*m, remote_tx_rf_enabled) + radio_state_part_8(*m, remote_tx_rf_enabled));
    }
    msgs
}

/// The connect snapshot, in the order clients receive it: `ready;`, the
/// client's role, the radio state, and the audio rate.
pub open spec fn snapshot_messages(m: RadioSnapshot, remote_tx_rf_enabled: bool, client_id: u64, role: TciClientRole) -> Seq<Seq<char>> {
    seq!["ready;"@, role_message(client_id, role)] + radio_state_messages_spec(m, remote_tx_rf_enabled) + seq![
        "audio_samplerate:48000;"@,
    ]
}

/// The messages a client receives when it connects: `ready;`, its role, the
/// radio's settings, whether remote RF transmit is enabled, and the audio rate.
pub fn initial_snapshot_messages(m: &RadioSnapshot, remote_tx_rf_enabled: bool, client_id: u64, role: TciClientRole) -> (msgs: Vec<String>)
    ensures
        message_views(msgs@) == snapshot_messages(*m, remote_tx_rf_enabled, client_id, role),
{
    let mut msgs: Vec<String> = Vec::new();
    msgs.push(string_of_str("ready;"));
    msgs.push(remote_client_role_message(client_id, role));
    let ghost head = msgs@;
    let mut state = radio_state_messages(m, remote_tx_rf_enabled);
    proof {
        lemma_views_append(msgs@, state@);
    }
    msgs.append(&mut state);
    let ghost body = msgs@;
    msgs.push(string_of_str("audio_samplerate:48000;"));
    proof {
        assert(message_views(head) =~= seq!["ready;"@, role_message(client_id, role)]);
        assert(msgs@ == body.push(msgs@.last()));
        assert(message_views(msgs@) =~= message_views(body) + seq!["audio_samplerate:48000;"@]);
    }
    msgs
}


/// The PureSignal settings and status, one message each.
pub open spec fn puresignal_messages_spec(m: RadioSnapshot) -> Seq<Seq<char>> {
    seq![
        "tx_puresignal_attenuation:0,"@ + dec(m.pure_signal_attenuation_db as nat) + ";"@,
        "tx_puresignal_state:0,"@ + m.pure_signal_state@ + ";"@,
        "tx_puresignal_feedback:0,"@ + dec(m.pure_signal_feedback_level as nat) + ";"@,
        "tx_puresignal_calibration_count:0,"@ + dec(m.pure_signal_calibration_count as nat) + ";"@,
        "tx_puresignal_correcting:0,"@ + bool_text(m.pure_signal_correcting) + ";"@,
        "tx_puresignal_max_tx:0,"@ + m.pure_signal_max_tx@ + ";"@,
        "tx_puresignal_feedback_packets:0,"@ + dec(m.pure_signal_feedback_packets as nat) + ";"@,
        "tx_puresignal_feedback_gaps:0,"@ + dec(m.pure_signal_feedback_gaps as nat) + ";"@,
    ]
}

/// The PureSignal settings and status, one message each.
#[verifier::rlimit(40)]
pub fn puresignal_messages(m: &RadioSnapshot) -> (v: Vec<String>)
    ensures
        message_views(v@) == puresignal_messages_spec(*m),
{
    let mut v: Vec<String> = Vec::new();
    v.push(line_u64("tx_puresignal_attenuation:0,", m.pure_signal_attenuation_db));
    v.push(line_text("tx_puresignal_state:0,", &m.pure_signal_state));
    v.push(line_u64("tx_puresignal_feedback:0,", m.pure_signal_feedback_level));
    v.push(line_u64("tx_puresignal_calibration_count:0,", m.pure_signal_calibration_count));
    v.push(line_bool("tx_puresignal_correcting:0,", m.pure_signal_correcting));
    v.push(line_text("tx_puresignal_max_tx:0,", &m.pure_signal_max_tx));
    v.push(line_u64("tx_puresignal_feedback_packets:0,", m.pure_signal_feedback_packets));
    v.push(line_u64("tx_puresignal_feedback_gaps:0,", m.pure_signal_feedback_gaps));
    proof {
        assert(message_views(v@) =~= puresignal_messages_spec(*m));
    }
    v
}

} // verus!
