//! The command mailbox between the TCI frontend and the radio loop: safety
//! commands (TX off, client gone) jump the queue and coalesce, control
//! commands coalesce by kind and stay bounded, mic frames keep the newest.
use vstd::prelude::*;

use std::collections::VecDeque;

use crate::commands::TciCommand;

verus! {

pub const MAX_TCI_SAFETY_COMMANDS: usize = 16;
pub const MAX_TCI_CONTROL_COMMANDS: usize = 256;
pub const MAX_TCI_MIC_COMMANDS: usize = 8;

/// The position of a command's variant in the command list.
pub open spec fn variant_tag<M>(c: TciCommand<M>) -> u32 {
    match c {
        TciCommand::SetVfoA(..) => 0,
        TciCommand::SetVfoB(..) => 1,
        TciCommand::SetIqCenter(..) => 2,
        TciCommand::SetMode(..) => 3,
        TciCommand::SetFilterBand { .. } => 4,
        TciCommand::SetRxAdc(..) => 5,
        TciCommand::SetRxAntenna(..) => 6,
        TciCommand::SetRxVolume(..) => 7,
        TciCommand::SetRxNoiseReductionMode(..) => 8,
        TciCommand::SetRxNoiseReductionEnabled(..) => 9,
        TciCommand::SetRxNoiseReductionLevel(..) => 10,
        TciCommand::SetRxNr2GainMethod(..) => 11,
        TciCommand::SetRxNr2NpeMethod(..) => 12,
        TciCommand::SetRxNr2PostFilterEnabled(..) => 13,
        TciCommand::SetRxWbfmDeemphasis(..) => 14,
        TciCommand::SetRxAnrVals { .. } => 15,
        TciCommand::SetIqSampleRate(..) => 16,
        TciCommand::SetIqStreaming => 17,
        TciCommand::RequestSmeter => 18,
        TciCommand::SaturnPing { .. } => 19,
        TciCommand::SplitSessionOpen { .. } => 20,
        TciCommand::SplitSessionLane { .. } => 21,
        TciCommand::SetAudioStreaming(..) => 22,
        TciCommand::SetAudioSampleRate(..) => 23,
        TciCommand::SetAudioFrameSamples(..) => 24,
        TciCommand::SetAudioChannels(..) => 25,
        TciCommand::SetTxEnabled(..) => 26,
        TciCommand::SetNoiseBlankerMode(..) => 27,
        TciCommand::SetNoiseBlankerThreshold(..) => 28,
        TciCommand::SetAnfEnabled(..) => 29,
        TciCommand::SetRxAnfVals { .. } => 30,
        TciCommand::SetAgcMode(..) => 31,
        TciCommand::SetAgcGain(..) => 32,
        TciCommand::SetTxDrive(..) => 33,
        TciCommand::SetTxMicGain(..) => 34,
        TciCommand::SetTxFilterBand { .. } => 35,
        TciCommand::SetRxEqEnabled(..) => 36,
        TciCommand::SetRxEqBand { .. } => 37,
        TciCommand::SetTxEqEnabled(..) => 38,
        TciCommand::SetTxEqBand { .. } => 39,
        TciCommand::SetTxCfcEnabled(..) => 40,
        TciCommand::SetTxCfcPrecomp(..) => 41,
        TciCommand::SetTxCfcBand { .. } => 42,
        TciCommand::SetTxPhaseRotatorEnabled(..) => 43,
        TciCommand::SetTxPhaseRotatorAuto(..) => 44,
        TciCommand::SetTxPhaseRotatorCorner(..) => 45,
        TciCommand::SetPureSignalEnabled(..) => 46,
        TciCommand::SetPureSignalAutoAttenuate(..) => 47,
        TciCommand::SetPureSignalAttenuation(..) => 48,
        TciCommand::ResetPureSignal => 49,
        TciCommand::SetTxTwoToneTest(..) => 50,
        TciCommand::SetTxTwoToneFreq1(..) => 51,
        TciCommand::SetTxTwoToneFreq2(..) => 52,
        TciCommand::SetTxTwoToneLevelDb(..) => 53,
        TciCommand::SetTxTwoToneInvertLsb(..) => 54,
        TciCommand::SetTxTwoToneDelayMs(..) => 55,
        TciCommand::SetTxNoiseGateEnabled(..) => 56,
        TciCommand::SetTxNoiseGateThreshold(..) => 57,
        TciCommand::SetRxFftSize(..) => 58,
        TciCommand::SetRxLowLatency(..) => 59,
        TciCommand::SetTxFftSize(..) => 60,
        TciCommand::SetTxLowLatency(..) => 61,
        TciCommand::MicAudioFrame(..) => 62,
        TciCommand::ClientConnected => 63,
        TciCommand::ClientDisconnected => 64,
    }
}

pub fn variant_tag_exec<M>(c: &TciCommand<M>) -> (t: u32)
    ensures
        t == variant_tag(*c),
{
    match c {
        TciCommand::SetVfoA(..) => 0,
        TciCommand::SetVfoB(..) => 1,
        TciCommand::SetIqCenter(..) => 2,
        TciCommand::SetMode(..) => 3,
        TciCommand::SetFilterBand { .. } => 4,
        TciCommand::SetRxAdc(..) => 5,
        TciCommand::SetRxAntenna(..) => 6,
        TciCommand::SetRxVolume(..) => 7,
        TciCommand::SetRxNoiseReductionMode(..) => 8,
        TciCommand::SetRxNoiseReductionEnabled(..) => 9,
        TciCommand::SetRxNoiseReductionLevel(..) => 10,
        TciCommand::SetRxNr2GainMethod(..) => 11,
        TciCommand::SetRxNr2NpeMethod(..) => 12,
        TciCommand::SetRxNr2PostFilterEnabled(..) => 13,
        TciCommand::SetRxWbfmDeemphasis(..) => 14,
        TciCommand::SetRxAnrVals { .. } => 15,
        TciCommand::SetIqSampleRate(..) => 16,
        TciCommand::SetIqStreaming => 17,
        TciCommand::RequestSmeter => 18,
        TciCommand::SaturnPing { .. } => 19,
        TciCommand::SplitSessionOpen { .. } => 20,
        TciCommand::SplitSessionLane { .. } => 21,
        TciCommand::SetAudioStreaming(..) => 22,
        TciCommand::SetAudioSampleRate(..) => 23,
        TciCommand::SetAudioFrameSamples(..) => 24,
        TciCommand::SetAudioChannels(..) => 25,
        TciCommand::SetTxEnabled(..) => 26,
        TciCommand::SetNoiseBlankerMode(..) => 27,
        TciCommand::SetNoiseBlankerThreshold(..) => 28,
        TciCommand::SetAnfEnabled(..) => 29,
        TciCommand::SetRxAnfVals { .. } => 30,
        TciCommand::SetAgcMode(..) => 31,
        TciCommand::SetAgcGain(..) => 32,
        TciCommand::SetTxDrive(..) => 33,
        TciCommand::SetTxMicGain(..) => 34,
        TciCommand::SetTxFilterBand { .. } => 35,
        TciCommand::SetRxEqEnabled(..) => 36,
        TciCommand::SetRxEqBand { .. } => 37,
        TciCommand::SetTxEqEnabled(..) => 38,
        TciCommand::SetTxEqBand { .. } => 39,
        TciCommand::SetTxCfcEnabled(..) => 40,
        TciCommand::SetTxCfcPrecomp(..) => 41,
        TciCommand::SetTxCfcBand { .. } => 42,
        TciCommand::SetTxPhaseRotatorEnabled(..) => 43,
        TciCommand::SetTxPhaseRotatorAuto(..) => 44,
        TciCommand::SetTxPhaseRotatorCorner(..) => 45,
        TciCommand::SetPureSignalEnabled(..) => 46,
        TciCommand::SetPureSignalAutoAttenuate(..) => 47,
        TciCommand::SetPureSignalAttenuation(..) => 48,
        TciCommand::ResetPureSignal => 49,
        TciCommand::SetTxTwoToneTest(..) => 50,
        TciCommand::SetTxTwoToneFreq1(..) => 51,
        TciCommand::SetTxTwoToneFreq2(..) => 52,
        TciCommand::SetTxTwoToneLevelDb(..) => 53,
        TciCommand::SetTxTwoToneInvertLsb(..) => 54,
        TciCommand::SetTxTwoToneDelayMs(..) => 55,
        TciCommand::SetTxNoiseGateEnabled(..) => 56,
        TciCommand::SetTxNoiseGateThreshold(..) => 57,
        TciCommand::SetRxFftSize(..) => 58,
        TciCommand::SetRxLowLatency(..) => 59,
        TciCommand::SetTxFftSize(..) => 60,
        TciCommand::SetTxLowLatency(..) => 61,
        TciCommand::MicAudioFrame(..) => 62,
        TciCommand::ClientConnected => 63,
        TciCommand::ClientDisconnected => 64,
    }
}

/// What a queued control command is replaced by: the same kind, or the same
/// equalizer band.
#[derive(Clone, Copy, Debug, PartialEq, Eq, Structural)]
pub enum CommandCoalesceKey {
    Variant(u32),
    RxEqBand(usize),
    TxEqBand(usize),
    TxCfcBand(usize),
}

/// Safety commands: TX off and a client leaving.
pub open spec fn is_safety<M>(c: TciCommand<M>) -> bool {
    c matches TciCommand::SetTxEnabled(false) || c is ClientDisconnected
}

pub open spec fn is_mic<M>(c: TciCommand<M>) -> bool {
    c is MicAudioFrame
}

/// The coalescing key of a control command; partial updates, requests,
/// session markers, resets, mic frames, connection events and TX off have none.
pub open spec fn coalesce_key<M>(c: TciCommand<M>) -> Option<CommandCoalesceKey> {
    match c {
        TciCommand::SetRxEqBand { band, .. } => Some(CommandCoalesceKey::RxEqBand(band)),
        TciCommand::SetTxEqBand { band, .. } => Some(CommandCoalesceKey::TxEqBand(band)),
        TciCommand::SetTxCfcBand { band, .. } => Some(CommandCoalesceKey::TxCfcBand(band)),
        TciCommand::SetRxAnrVals { .. } => None,
        TciCommand::SetRxAnfVals { .. } => None,
        TciCommand::RequestSmeter => None,
        TciCommand::SaturnPing { .. } => None,
        TciCommand::SplitSessionOpen { .. } => None,
        TciCommand::SplitSessionLane { .. } => None,
        TciCommand::ResetPureSignal => None,
        TciCommand::MicAudioFrame(..) => None,
        TciCommand::ClientConnected => None,
        TciCommand::ClientDisconnected => None,
        TciCommand::SetTxEnabled(false) => None,
        _ => Some(CommandCoalesceKey::Variant(variant_tag(c))),
    }
}

pub fn command_is_safety<M>(c: &TciCommand<M>) -> (b: bool)
    ensures
        b == is_safety(*c),
{
    match c {
        TciCommand::SetTxEnabled(false) => true,
        TciCommand::ClientDisconnected => true,
        _ => false,
    }
}

pub fn command_coalesce_key<M>(c: &TciCommand<M>) -> (k: Option<CommandCoalesceKey>)
    ensures
        k == coalesce_key(*c),
{
    match c {
        TciCommand::SetRxEqBand { band, .. } => Some(CommandCoalesceKey::RxEqBand(*band)),
        TciCommand::SetTxEqBand { band, .. } => Some(CommandCoalesceKey::TxEqBand(*band)),
        TciCommand::SetTxCfcBand { band, .. } => Some(CommandCoalesceKey::TxCfcBand(*band)),
        TciCommand::SetRxAnrVals { .. } => None,
        TciCommand::SetRxAnfVals { .. } => None,
        TciCommand::RequestSmeter => None,
        TciCommand::SaturnPing { .. } => None,
        TciCommand::SplitSessionOpen { .. } => None,
        TciCommand::SplitSessionLane { .. } => None,
        TciCommand::ResetPureSignal => None,
        TciCommand::MicAudioFrame(..) => None,
        TciCommand::ClientConnected => None,
        TciCommand::ClientDisconnected => None,
        TciCommand::SetTxEnabled(false) => None,
        _ => Some(CommandCoalesceKey::Variant(variant_tag_exec(c))),
    }
}

/// The first position holding a command of variant `t`.
pub open spec fn first_tag<M>(q: Seq<TciCommand<M>>, t: u32) -> Option<int>
    decreases q.len(),
{
    if q.len() == 0 {
        None
    } else if variant_tag(q[0]) == t {
        Some(0)
    } else {
        match first_tag(q.drop_first(), t) {
            Some(i) => Some(i + 1),
            None => None,
        }
    }
}

/// The first position holding a command with key `k`.
pub open spec fn first_key<M>(q: Seq<TciCommand<M>>, k: CommandCoalesceKey) -> Option<int>
    decreases q.len(),
{
    if q.len() == 0 {
        None
    } else if coalesce_key(q[0]) == Some(k) {
        Some(0)
    } else {
        match first_key(q.drop_first(), k) {
            Some(i) => Some(i + 1),
            None => None,
        }
    }
}

proof fn lemma_first_tag_skip<M>(q: Seq<TciCommand<M>>, t: u32, i: int)
    requires
        0 <= i <= q.len(),
        forall|j: int| 0 <= j < i ==> variant_tag(#[trigger] q[j]) != t,
    ensures
        first_tag(q, t) == (match first_tag(q.skip(i), t) {
            Some(x) => Some(x + i),
            None => None,
        }),
    decreases i,
{
    if i > 0 {
        assert(q.skip(1) =~= q.drop_first());
        lemma_first_tag_skip(q.drop_first(), t, i - 1);
        assert(q.drop_first().skip(i - 1) =~= q.skip(i));
    } else {
        assert(q.skip(0) =~= q);
    }
}

proof fn lemma_first_key_skip<M>(q: Seq<TciCommand<M>>, k: CommandCoalesceKey, i: int)
    requires
        0 <= i <= q.len(),
        forall|j: int| 0 <= j < i ==> coalesce_key(#[trigger] q[j]) != Some(k),
    ensures
        first_key(q, k) == (match first_key(q.skip(i), k) {
            Some(x) => Some(x + i),
            None => None,
        }),
    decreases i,
{
    if i > 0 {
        assert(q.skip(1) =~= q.drop_first());
        lemma_first_key_skip(q.drop_first(), k, i - 1);
        assert(q.drop_first().skip(i - 1) =~= q.skip(i));
    } else {
        assert(q.skip(0) =~= q);
    }
}

fn find_tag<M>(q: &VecDeque<TciCommand<M>>, t: u32) -> (r: Option<usize>)
    ensures
        match r {
            Some(i) => first_tag(q@, t) == Some(i as int) && i < q@.len(),
            None => first_tag(q@, t) is None,
        },
{
    let mut i: usize = 0;
    while i < q.len()
        invariant
            i <= q@.len(),
            forall|j: int| 0 <= j < i ==> variant_tag(#[trigger] q@[j]) != t,
        decreases q@.len() - i,
    {
        if variant_tag_exec(&q[i]) == t {
            proof {
                lemma_first_tag_skip(q@, t, i as int);
                assert(q@.skip(i as int)[0] == q@[i as int]);
            }
            return Some(i);
        }
        i = i + 1;
    }
    proof {
        lemma_first_tag_skip(q@, t, i as int);
    }
    None
}

fn find_key<M>(q: &VecDeque<TciCommand<M>>, k: CommandCoalesceKey) -> (r: Option<usize>)
    ensures
        match r {
            Some(i) => first_key(q@, k) == Some(i as int) && i < q@.len(),
            None => first_key(q@, k) is None,
        },
{
    let mut i: usize = 0;
    while i < q.len()
        invariant
            i <= q@.len(),
            forall|j: int| 0 <= j < i ==> coalesce_key(#[trigger] q@[j]) != Some(k),
        decreases q@.len() - i,
    {
        if command_coalesce_key(&q[i]) == Some(k) {
            proof {
                lemma_first_key_skip(q@, k, i as int);
                assert(q@.skip(i as int)[0] == q@[i as int]);
            }
            return Some(i);
        }
        i = i + 1;
    }
    proof {
        lemma_first_key_skip(q@, k, i as int);
    }
    None
}

/// Replaces the command at position `i`.
fn replace_at<M>(q: &mut VecDeque<TciCommand<M>>, i: usize, c: TciCommand<M>)
    requires
        i < old(q)@.len(),
    ensures
        final(q)@ == old(q)@.update(i as int, c),
{
    let _ = q.remove(i);
    q.insert(i, c);
    proof {
        assert(q@ =~= old(q)@.update(i as int, c));
    }
}

/// `q` with `c` appended, after dropping the oldest when `q` holds `max`.
pub open spec fn bounded_push<M>(q: Seq<TciCommand<M>>, c: TciCommand<M>, max: nat) -> Seq<TciCommand<M>> {
    if q.len() >= max {
        q.drop_first().push(c)
    } else {
        q.push(c)
    }
}

/// Depths, high-water mark and counters of the mailbox.
#[derive(Clone, Copy, Debug, PartialEq, Eq, Structural)]
pub struct TciCommandQueueSnapshot {
    pub safety_depth: usize,
    pub control_depth: usize,
    pub mic_depth: usize,
    pub total_depth: usize,
    pub high_watermark: usize,
    pub control_coalesced: u64,
    pub control_dropped: u64,
    pub mic_dropped: u64,
    pub safety_coalesced: u64,
}

pub open spec fn inc(x: u64) -> u64 {
    if x == u64::MAX {
        u64::MAX
    } else {
        (x + 1) as u64
    }
}

/// The control drop counter after a push onto `q`: one more when `q` was full.
pub open spec fn control_drops_after<M>(q: Seq<TciCommand<M>>, dropped: u64) -> u64 {
    if q.len() >= MAX_TCI_CONTROL_COMMANDS {
        inc(dropped)
    } else {
        dropped
    }
}

/// The three queues of the mailbox and their counters.
pub struct TciCommandMailbox<M> {
    pub safety: VecDeque<TciCommand<M>>,
    pub control: VecDeque<TciCommand<M>>,
    pub mic: VecDeque<TciCommand<M>>,
    pub high_watermark: usize,
    pub control_coalesced: u64,
    pub control_dropped: u64,
    pub mic_dropped: u64,
    pub safety_coalesced: u64,
}

impl<M> TciCommandMailbox<M> {
    /// Each queue within its bound and holding only its kind of command.
    pub open spec fn inv(&self) -> bool {
        &&& self.safety@.len() <= MAX_TCI_SAFETY_COMMANDS
        &&& self.control@.len() <= MAX_TCI_CONTROL_COMMANDS
        &&& self.mic@.len() <= MAX_TCI_MIC_COMMANDS
        &&& forall|i: int| 0 <= i < self.safety@.len() ==> is_safety(#[trigger] self.safety@[i])
        &&& forall|i: int| 0 <= i < self.mic@.len() ==> is_mic(#[trigger] self.mic@[i])
        &&& forall|i: int| 0 <= i < self.control@.len() ==> !is_safety(#[trigger] self.control@[i]) && !is_mic(self.control@[i])
    }

    pub open spec fn depth(&self) -> nat {
        self.safety@.len() + self.control@.len() + self.mic@.len()
    }

    pub fn new() -> (m: Self)
        ensures
            m.inv(),
            m.safety@.len() == 0 && m.control@.len() == 0 && m.mic@.len() == 0,
            m.high_watermark == 0 && m.control_coalesced == 0 && m.control_dropped == 0,
            m.mic_dropped == 0 && m.safety_coalesced == 0,
    {
        TciCommandMailbox {
            safety: VecDeque::new(),
            control: VecDeque::new(),
            mic: VecDeque::new(),
            high_watermark: 0,
            control_coalesced: 0,
            control_dropped: 0,
            mic_dropped: 0,
            safety_coalesced: 0,
        }
    }

    fn push_bounded(q: &mut VecDeque<TciCommand<M>>, c: TciCommand<M>, max: usize) -> (dropped: bool)
        requires
            max >= 1,
        ensures
            final(q)@ == bounded_push(old(q)@, c, max as nat),
            dropped == (old(q)@.len() >= max),
    {
        let dropped = q.len() >= max;
        if dropped {
            let _ = q.pop_front();
        }
        q.push_back(c);
        dropped
    }

    fn push_control(&mut self, c: TciCommand<M>)
        ensures
            final(self).control@ == bounded_push(old(self).control@, c, MAX_TCI_CONTROL_COMMANDS as nat),
            final(self).control_dropped == (if old(self).control@.len() >= MAX_TCI_CONTROL_COMMANDS {
                inc(old(self).control_dropped)
            } else {
                old(self).control_dropped
            }),
            final(self).safety@ == old(self).safety@ && final(self).mic@ == old(self).mic@,
            final(self).high_watermark == old(self).high_watermark,
            final(self).control_coalesced == old(self).control_coalesced,
            final(self).mic_dropped == old(self).mic_dropped,
            final(self).safety_coalesced == old(self).safety_coalesced,
    {
        if Self::push_bounded(&mut self.control, c, MAX_TCI_CONTROL_COMMANDS) {
            self.control_dropped = self.control_dropped.saturating_add(1);
        }
    }

    /// Queues a command: safety commands replace a queued one of the same
    /// kind or join their queue (dropping the oldest beyond 16); mic frames
    /// keep the newest eight; control commands replace a queued one with
    /// the same key or join their queue (dropping the oldest beyond 256).
    pub fn enqueue(&mut self, command: TciCommand<M>)
        requires
            old(self).inv(),
        ensures
            final(self).inv(),
            final(self).high_watermark == (if final(self).depth() > old(self).high_watermark {
                final(self).depth() as usize
            } else {
                old(self).high_watermark
            }),
            is_safety(command) ==> {
                &&& final(self).control@ == old(self).control@ && final(self).mic@ == old(self).mic@
                &&& final(self).control_coalesced == old(self).control_coalesced
                &&& final(self).control_dropped == old(self).control_dropped
                &&& final(self).mic_dropped == old(self).mic_dropped
                &&& match first_tag(old(self).safety@, variant_tag(command)) {
                    Some(p) => final(self).safety@ == old(self).safety@.update(p, command)
                        && final(self).safety_coalesced == inc(old(self).safety_coalesced),
                    None => final(self).safety@ == bounded_push(old(self).safety@, command, MAX_TCI_SAFETY_COMMANDS as nat)
                        && final(self).safety_coalesced == old(self).safety_coalesced,
                }
            },
            !is_safety(command) && is_mic(command) ==> {
                &&& final(self).safety@ == old(self).safety@ && final(self).control@ == old(self).control@
                &&& final(self).safety_coalesced == old(self).safety_coalesced
                &&& final(self).control_coalesced == old(self).control_coalesced
                &&& final(self).control_dropped == old(self).control_dropped
                &&& final(self).mic@ == bounded_push(old(self).mic@, command, MAX_TCI_MIC_COMMANDS as nat)
                &&& final(self).mic_dropped == (if old(self).mic@.len() >= MAX_TCI_MIC_COMMANDS {
                    inc(old(self).mic_dropped)
                } else {
                    old(self).mic_dropped
                })
            },
            !is_safety(command) && !is_mic(command) ==> {
                &&& final(self).safety@ == old(self).safety@ && final(self).mic@ == old(self).mic@
                &&& final(self).safety_coalesced == old(self).safety_coalesced
                &&& final(self).mic_dropped == old(self).mic_dropped
                &&& match coalesce_key(command) {
                    Some(k) => match first_key(old(self).control@, k) {
                        Some(p) => final(self).control@ == old(self).control@.update(p, command)
                            && final(self).control_coalesced == inc(old(self).control_coalesced)
                            && final(self).control_dropped == old(self).control_dropped,
                        None => final(self).control@ == bounded_push(old(self).control@, command, MAX_TCI_CONTROL_COMMANDS as nat)
                            && final(self).control_coalesced == old(self).control_coalesced
                            && final(self).control_dropped == control_drops_after(old(self).control@, old(self).control_dropped),
                    },
                    None => final(self).control@ == bounded_push(old(self).control@, command, MAX_TCI_CONTROL_COMMANDS as nat)
                        && final(self).control_coalesced == old(self).control_coalesced
                        && final(self).control_dropped == control_drops_after(old(self).control@, old(self).control_dropped),
                }
            },
    {
        let ghost c0 = command;
        if command_is_safety(&command) {
            let t = variant_tag_exec(&command);
            match find_tag(&self.safety, t) {
                Some(p) => {
                    replace_at(&mut self.safety, p, command);
                    self.safety_coalesced = self.safety_coalesced.saturating_add(1);
                },
                None => {
                    let _ = Self::push_bounded(&mut self.safety, command, MAX_TCI_SAFETY_COMMANDS);
                },
            }
        } else if matches!(command, TciCommand::MicAudioFrame(_)) {
            if Self::push_bounded(&mut self.mic, command, MAX_TCI_MIC_COMMANDS) {
                self.mic_dropped = self.mic_dropped.saturating_add(1);
            }
        } else {
            match command_coalesce_key(&command) {
                Some(k) => match find_key(&self.control, k) {
                    Some(p) => {
                        replace_at(&mut self.control, p, command);
                        self.control_coalesced = self.control_coalesced.saturating_add(1);
                    },
                    None => self.push_control(command),
                },
                None => self.push_control(command),
            }
        }
        let depth = self.safety.len() + self.control.len() + self.mic.len();
        if depth > self.high_watermark {
            self.high_watermark = depth;
        }
    }

    /// The next command: safety first, then control, then mic frames.
    pub fn try_recv(&mut self) -> (r: Option<TciCommand<M>>)
        requires
            old(self).inv(),
        ensures
            final(self).inv(),
            old(self).safety@.len() > 0 ==> r == Some(old(self).safety@[0]) && final(self).safety@ == old(self).safety@.drop_first()
                && final(self).control@ == old(self).control@ && final(self).mic@ == old(self).mic@,
            old(self).safety@.len() == 0 && old(self).control@.len() > 0 ==> r == Some(old(self).control@[0])
                && final(self).control@ == old(self).control@.drop_first() && final(self).safety@ == old(self).safety@
                && final(self).mic@ == old(self).mic@,
            old(self).safety@.len() == 0 && old(self).control@.len() == 0 && old(self).mic@.len() > 0 ==> r == Some(old(self).mic@[0])
                && final(self).mic@ == old(self).mic@.drop_first() && final(self).safety@ == old(self).safety@
                && final(self).control@ == old(self).control@,
            old(self).depth() == 0 ==> r is None && final(self).safety@ == old(self).safety@
                && final(self).control@ == old(self).control@ && final(self).mic@ == old(self).mic@,
            final(self).high_watermark == old(self).high_watermark,
            final(self).control_coalesced == old(self).control_coalesced,
            final(self).control_dropped == old(self).control_dropped,
            final(self).mic_dropped == old(self).mic_dropped,
            final(self).safety_coalesced == old(self).safety_coalesced,
    {
        if let Some(c) = self.safety.pop_front() {
            return Some(c);
        }
        if let Some(c) = self.control.pop_front() {
            return Some(c);
        }
        self.mic.pop_front()
    }

    pub fn snapshot(&self) -> (s: TciCommandQueueSnapshot)
        requires
            self.inv(),
        ensures
            s.safety_depth == self.safety@.len() && s.control_depth == self.control@.len(),
            s.mic_depth == self.mic@.len() && s.total_depth == self.depth(),
            s.high_watermark == self.high_watermark && s.control_coalesced == self.control_coalesced,
            s.control_dropped == self.control_dropped && s.mic_dropped == self.mic_dropped,
            s.safety_coalesced == self.safety_coalesced,
    {
        TciCommandQueueSnapshot {
            safety_depth: self.safety.len(),
            control_depth: self.control.len(),
            mic_depth: self.mic.len(),
            total_depth: self.safety.len() + self.control.len() + self.mic.len(),
            high_watermark: self.high_watermark,
            control_coalesced: self.control_coalesced,
            control_dropped: self.control_dropped,
            mic_dropped: self.mic_dropped,
            safety_coalesced: self.safety_coalesced,
        }
    }
}

} // verus!
