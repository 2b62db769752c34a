//! Per-channel playback state: note triggering, per-tick effects and sample reads.
use crate::song::{Mod, MiscEffect, Note, Sample, ToneEffect, VolumeEffect, MAX_SAMPLE_LEN, NOTE_COUNT};
use vstd::prelude::*;

verus! {

/// Reference clock that periods divide into bytes per second.
pub const CLOCK: u32 = 0x361f0f;

/// One unit of the 32.32 fixed-point read position.
pub const FRAC: u64 = 0x1_0000_0000;

/// Largest per-frame advance: period 1 at one frame per second.
pub const MAX_ADVANCE: u64 = 0x361f0f_0000_0000;

/// Highest volume.
pub const MAX_VOLUME: u8 = 0x40;

#[derive(Clone, Copy, PartialEq, Eq, Debug)]
pub enum ChannelToneEffect {
    Off,
    Portamento,
    Vibrato,
    Arpeggio,
    Retrig,
}

#[derive(Clone, Copy, PartialEq, Eq, Debug)]
pub enum ChannelVolumeEffect {
    Off,
    Slide,
}

/// Runtime state of one channel.
#[derive(Clone, Copy, PartialEq, Eq, Debug)]
pub struct ChannelState {
    pub volume: u8,
    pub sample: usize,
    /// Read position, 32.32 fixed point in bytes.
    pub sample_pos: u64,
    /// Advance of the read position per output frame, 32.32 fixed point.
    pub sample_bytes_per_frame: u64,
    /// Where a new pitch restarts the sample.
    pub sample_pos_reload: u64,
    /// Index of the current note in the period table.
    pub xperiod: u8,
    pub period: u16,
    pub tone_effect: ChannelToneEffect,
    /// The two periods an arpeggio rotates with the current one.
    pub arpeggio_periods: (u16, u16),
    pub portamento_target: u16,
    pub portamento_speed: u8,
    pub vibrato_phase: u8,
    pub vibrato_rate: u8,
    pub vibrato_depth: u8,
    pub volume_effect: ChannelVolumeEffect,
    pub volume_slide_speed: i8,
    pub retrig_period: u8,
    pub retrig_left: u8,
}

/// Per-frame advance of the read position for `period` at `rate` frames per second:
/// `((CLOCK / period) << 32) / rate`; a channel without a period stands still.
pub open spec fn frame_advance(period: u16, rate: u32) -> u64 {
    if period == 0 {
        0
    } else {
        (((CLOCK as int / period as int) * FRAC as int) / rate as int) as u64
    }
}

/// Quarter sine wave, then back down: the vibrato's shape.
pub open spec fn vibrato_table() -> Seq<u8> {
    seq![
        0x00u8, 0x18, 0x31, 0x4a, 0x61, 0x78, 0x8d, 0xa1, 0xb4, 0xc5, 0xd4, 0xe0, 0xeb, 0xf4, 0xfa, 0xfd,
        0xff, 0xfd, 0xfa, 0xf4, 0xeb, 0xe0, 0xd4, 0xc5, 0xb4, 0xa1, 0x8d, 0x78, 0x61, 0x4a, 0x31, 0x18,
    ]
}

/// Period offset of the vibrato at `phase`: the table entry picked by the top five
/// bits of the phase, scaled by `depth / 128`, negative in the second half.
pub open spec fn vibrato_delta(phase: u8, depth: u8) -> int {
    let m = (vibrato_table()[(phase as int / 4) % 32] as int * depth as int) / 128;
    if phase >= 0x80 {
        -m
    } else {
        m
    }
}

/// `period + delta`, wrapping around 16 bits.
pub open spec fn offset_period(period: u16, delta: int) -> u16 {
    ((period as int + delta) % 0x10000) as u16
}

/// One portamento step: move `speed` toward `target`, stopping on it.
pub open spec fn portamento_step(period: u16, target: u16, speed: u8) -> u16 {
    if target < period {
        if period - target > speed {
            (period - speed) as u16
        } else {
            target
        }
    } else {
        if target - period > speed {
            (period + speed) as u16
        } else {
            target
        }
    }
}

/// `volume + delta`, clamped into `[0, 0x40]`.
pub open spec fn slid_volume(volume: u8, delta: i8) -> u8 {
    let v = volume as int + delta as int;
    if v < 0 {
        0
    } else if v > MAX_VOLUME {
        MAX_VOLUME
    } else {
        v as u8
    }
}

/// A read position brought back into the loop `[start, start + len)` by whole loop lengths.
pub open spec fn loop_wrap(pos: nat, start: nat, len: nat) -> nat
    decreases pos,
{
    if len > 0 && pos >= (start + len) * FRAC {
        loop_wrap((pos - len * FRAC) as nat, start, len)
    } else {
        pos
    }
}

/// Output level of a sample byte (signed 8-bit) at `volume`, in the mixer's 32-bit range.
pub open spec fn sample_level(b: u8, volume: u8) -> int {
    let s = if b >= 0x80 {
        b as int - 0x100
    } else {
        b as int
    };
    s * 0x10000 * volume as int
}

pub open spec fn min_int(a: int, b: int) -> int {
    if a < b {
        a
    } else {
        b
    }
}

impl ChannelState {
    /// A silent channel at full volume on sample 0, with no effect running.
    pub open spec fn initial() -> ChannelState {
        ChannelState {
            volume: MAX_VOLUME,
            sample: 0,
            sample_pos: 0,
            sample_bytes_per_frame: 0,
            sample_pos_reload: 0,
            xperiod: 0,
            period: 0,
            tone_effect: ChannelToneEffect::Off,
            arpeggio_periods: (0, 0),
            portamento_target: 0,
            portamento_speed: 0,
            vibrato_phase: 0,
            vibrato_rate: 0,
            vibrato_depth: 0,
            volume_effect: ChannelVolumeEffect::Off,
            volume_slide_speed: 0,
            retrig_period: 0,
            retrig_left: 0,
        }
    }

    pub fn new() -> (r: ChannelState)
        ensures
            r == ChannelState::initial(),
            r.wf(),
    {
        ChannelState {
            volume: MAX_VOLUME,
            sample: 0,
            sample_pos: 0,
            sample_bytes_per_frame: 0,
            sample_pos_reload: 0,
            xperiod: 0,
            period: 0,
            tone_effect: ChannelToneEffect::Off,
            arpeggio_periods: (0, 0),
            portamento_target: 0,
            portamento_speed: 0,
            vibrato_phase: 0,
            vibrato_rate: 0,
            vibrato_depth: 0,
            volume_effect: ChannelVolumeEffect::Off,
            volume_slide_speed: 0,
            retrig_period: 0,
            retrig_left: 0,
        }
    }

    pub open spec fn wf(&self) -> bool {
        &&& self.volume <= MAX_VOLUME
        &&& self.xperiod < NOTE_COUNT
        &&& self.sample_bytes_per_frame <= MAX_ADVANCE
        &&& (self.tone_effect == ChannelToneEffect::Retrig ==> self.retrig_period >= 1)
    }

    /// The channel after one tick of its ongoing effects: an arpeggio rotates the
    /// period through its three values; a portamento with a target steps toward it
    /// while the period differs; a vibrato moves the pitch by the table at its phase and
    /// advances the phase, leaving the period; a retrigger counts down and restarts the
    /// sample at zero; a volume slide adds its delta, clamped into `[0, 0x40]`.
    pub open spec fn ticked(self, rate: u32) -> ChannelState {
        let t = match self.tone_effect {
            ChannelToneEffect::Off => self,
            ChannelToneEffect::Arpeggio => ChannelState {
                period: self.arpeggio_periods.1,
                arpeggio_periods: (self.period, self.arpeggio_periods.0),
                sample_bytes_per_frame: frame_advance(self.arpeggio_periods.1, rate),
                ..self
            },
            ChannelToneEffect::Portamento => if self.portamento_target != 0 && self.period
                != self.portamento_target {
                let p = portamento_step(self.period, self.portamento_target, self.portamento_speed);
                ChannelState { period: p, sample_bytes_per_frame: frame_advance(p, rate), ..self }
            } else {
                self
            },
            ChannelToneEffect::Vibrato => ChannelState {
                vibrato_phase: ((self.vibrato_phase + self.vibrato_rate) % 0x100) as u8,
                sample_bytes_per_frame: frame_advance(
                    offset_period(self.period, vibrato_delta(self.vibrato_phase, self.vibrato_depth)),
                    rate,
                ),
                ..self
            },
            ChannelToneEffect::Retrig => if self.retrig_left == 0 {
                ChannelState { retrig_left: (self.retrig_period - 1) as u8, sample_pos: 0, ..self }
            } else {
                ChannelState { retrig_left: (self.retrig_left - 1) as u8, ..self }
            },
        };
        match t.volume_effect {
            ChannelVolumeEffect::Off => t,
            ChannelVolumeEffect::Slide => ChannelState {
                volume: slid_volume(t.volume, t.volume_slide_speed),
                ..t
            },
        }
    }

    /// A note's sample field: switch sample, restart from its beginning, take its volume.
    pub open spec fn with_sample(self, note: Note, m: Mod) -> ChannelState {
        match note.sample {
            Some(s) => ChannelState {
                sample: s as usize,
                sample_pos_reload: 0,
                volume: m.samples@[s as int].volume,
                ..self
            },
            None => self,
        }
    }

    /// The finetune row of the channel's sample.
    pub open spec fn finetune(self, m: Mod) -> int {
        m.samples@[self.sample as int].finetune as int
    }

    /// A note's pitch field: new period, restart at the reload point, reset the vibrato.
    pub open spec fn with_pitch(self, note: Note, m: Mod, rate: u32) -> ChannelState {
        match note.period {
            Some(x) => {
                let p = m.period(self.finetune(m), x as int);
                ChannelState {
                    xperiod: x,
                    period: p,
                    sample_pos: self.sample_pos_reload,
                    vibrato_phase: 0,
                    sample_bytes_per_frame: frame_advance(p, rate),
                    ..self
                }
            },
            None => self,
        }
    }

    /// A note's tone effect.
    pub open spec fn with_tone(self, note: Note, m: Mod) -> ChannelState {
        let ft = self.finetune(m);
        match note.tone_effect {
            ToneEffect::Off => ChannelState { tone_effect: ChannelToneEffect::Off, ..self },
            ToneEffect::Arpeggio(a, b) => ChannelState {
                tone_effect: ChannelToneEffect::Arpeggio,
                arpeggio_periods: (
                    m.period(ft, min_int(self.xperiod + a, NOTE_COUNT - 1)),
                    m.period(ft, min_int(self.xperiod + b, NOTE_COUNT - 1)),
                ),
                ..self
            },
            ToneEffect::Portamento { target, speed } => ChannelState {
                tone_effect: ChannelToneEffect::Portamento,
                portamento_target: match target {
                    Some(v) => m.period(ft, v as int),
                    None => self.portamento_target,
                },
                portamento_speed: match speed {
                    Some(v) => v,
                    None => self.portamento_speed,
                },
                ..self
            },
            ToneEffect::Vibrato { rate, depth } => ChannelState {
                tone_effect: ChannelToneEffect::Vibrato,
                vibrato_rate: match rate {
                    Some(v) => (v * 4) as u8,
                    None => self.vibrato_rate,
                },
                vibrato_depth: match depth {
                    Some(v) => v,
                    None => self.vibrato_depth,
                },
                ..self
            },
        }
    }

    /// A note's volume effect.
    pub open spec fn with_volume(self, note: Note, m: Mod) -> ChannelState {
        match note.volume_effect {
            VolumeEffect::Off => ChannelState { volume_effect: ChannelVolumeEffect::Off, ..self },
            VolumeEffect::SetVolume(v) => ChannelState {
                volume_effect: ChannelVolumeEffect::Off,
                volume: v,
                ..self
            },
            VolumeEffect::VolumeSlide(s) => ChannelState {
                volume_effect: ChannelVolumeEffect::Slide,
                volume_slide_speed: s,
                ..self
            },
            VolumeEffect::Reset => ChannelState {
                volume_effect: ChannelVolumeEffect::Off,
                volume: m.samples@[self.sample as int].volume,
                ..self
            },
        }
    }

    /// The parts of a note's misc effect that belong to the channel.
    pub open spec fn with_misc(self, note: Note) -> ChannelState {
        match note.misc_effect {
            MiscEffect::SetSampleOffset(off) => {
                let r = (off as int * 0x100 * FRAC) as u64;
                ChannelState {
                    sample_pos_reload: r,
                    sample_pos: if note.period is Some {
                        r
                    } else {
                        self.sample_pos
                    },
                    ..self
                }
            },
            MiscEffect::RetrigNote(x) => ChannelState {
                tone_effect: ChannelToneEffect::Retrig,
                retrig_period: x,
                retrig_left: (x - 1) as u8,
                ..self
            },
            _ => self,
        }
    }

    /// The channel after a note is played on it.
    pub open spec fn noted(self, note: Note, m: Mod, rate: u32) -> ChannelState {
        self.with_sample(note, m).with_pitch(note, m, rate).with_tone(note, m).with_volume(
            note,
            m,
        ).with_misc(note)
    }

    /// The channel after one output frame is read from it, and the level read.
    pub open spec fn read_result(self, smp: Sample) -> (ChannelState, i32) {
        match smp.repeat {
            Some((start, len)) => {
                let p = loop_wrap(self.sample_pos as nat, start as nat, len as nat);
                (
                    ChannelState { sample_pos: (p + self.sample_bytes_per_frame) as u64, ..self },
                    sample_level(smp.data@[(p / FRAC as nat) as int], self.volume) as i32,
                )
            },
            None => if self.sample_pos / FRAC >= smp.data@.len() {
                (self, 0)
            } else {
                (
                    ChannelState {
                        sample_pos: (self.sample_pos + self.sample_bytes_per_frame) as u64,
                        ..self
                    },
                    sample_level(smp.data@[(self.sample_pos / FRAC) as int], self.volume) as i32,
                )
            },
        }
    }
}

/// The per-frame advance for `period` at `rate` frames per second.
pub fn advance_for(period: u16, rate: u32) -> (r: u64)
    requires
        rate > 0,
    ensures
        r == frame_advance(period, rate),
        r <= MAX_ADVANCE,
{
    if period == 0 {
        0
    } else {
        let byte_len = CLOCK / (period as u32);
        assert(byte_len <= CLOCK) by (nonlinear_arith)
            requires
                byte_len == CLOCK / (period as u32),
                period > 0,
        ;
        let scaled = (byte_len as u64) * FRAC;
        let r = scaled / (rate as u64);
        assert(r <= scaled) by (nonlinear_arith)
            requires
                r == scaled / (rate as u64),
                rate > 0,
        ;
        r
    }
}

/// Entry `i` of the vibrato table.
fn vibrato_lut(i: usize) -> (r: u8)
    requires
        i < 32,
    ensures
        r == vibrato_table()[i as int],
{
    let t: [u8; 32] = [
        0x00, 0x18, 0x31, 0x4a, 0x61, 0x78, 0x8d, 0xa1, 0xb4, 0xc5, 0xd4, 0xe0, 0xeb, 0xf4, 0xfa, 0xfd,
        0xff, 0xfd, 0xfa, 0xf4, 0xeb, 0xe0, 0xd4, 0xc5, 0xb4, 0xa1, 0x8d, 0x78, 0x61, 0x4a, 0x31, 0x18,
    ];
    assert(t@ =~= vibrato_table());
    t[i]
}

/// One portamento step from `period` toward `target`.
fn portamento_next(period: u16, target: u16, speed: u8) -> (r: u16)
    ensures
        r == portamento_step(period, target, speed),
{
    let speed = speed as u16;
    if target < period {
        if period - target > speed {
            period - speed
        } else {
            target
        }
    } else {
        if target - period > speed {
            period + speed
        } else {
            target
        }
    }
}

/// The per-frame advance for `period` shifted by the vibrato at `phase`.
fn vibrato_advance(period: u16, phase: u8, depth: u8, rate: u32) -> (r: u64)
    requires
        rate > 0,
    ensures
        r == frame_advance(offset_period(period, vibrato_delta(phase, depth)), rate),
        r <= MAX_ADVANCE,
{
    let step = vibrato_lut(((phase / 4) % 32) as usize);
    let depth = depth as u32;
    assert(step as u32 * depth <= 0xff * 0xff) by (nonlinear_arith)
        requires
            step <= 0xff,
            depth <= 0xff,
    ;
    let m = ((step as u32 * depth) / 128) as i32;
    let delta: i32 = if phase >= 0x80 {
        -m
    } else {
        m
    };
    let sum = period as i32 + delta;
    let shifted = ((sum + 0x10000) as u32 % 0x10000) as u16;
    assert((sum + 0x10000) % 0x10000 == sum % 0x10000);
    advance_for(shifted, rate)
}

impl ChannelState {
    /// Runs one tick of the channel's ongoing effects.
    pub fn tick(&mut self, rate: u32)
        requires
            old(self).wf(),
            rate > 0,
        ensures
            *final(self) == old(self).ticked(rate),
            final(self).wf(),
    {
        match self.tone_effect {
            ChannelToneEffect::Off => {},
            ChannelToneEffect::Arpeggio => {
                let tmp = self.period;
                self.period = self.arpeggio_periods.1;
                self.arpeggio_periods = (tmp, self.arpeggio_periods.0);
                self.sample_bytes_per_frame = advance_for(self.period, rate);
            },
            ChannelToneEffect::Portamento => {
                if self.portamento_target != 0 && self.period != self.portamento_target {
                    self.period = portamento_next(
                        self.period,
                        self.portamento_target,
                        self.portamento_speed,
                    );
                    self.sample_bytes_per_frame = advance_for(self.period, rate);
                }
            },
            ChannelToneEffect::Vibrato => {
                let phase = self.vibrato_phase;
                self.vibrato_phase = ((phase as u16 + self.vibrato_rate as u16) % 0x100) as u8;
                self.sample_bytes_per_frame = vibrato_advance(
                    self.period,
                    phase,
                    self.vibrato_depth,
                    rate,
                );
            },
            ChannelToneEffect::Retrig => {
                if self.retrig_left == 0 {
                    self.retrig_left = self.retrig_period - 1;
                    self.sample_pos = 0;
                } else {
                    self.retrig_left = self.retrig_left - 1;
                }
            },
        }
        match self.volume_effect {
            ChannelVolumeEffect::Off => {},
            ChannelVolumeEffect::Slide => {
                let v = self.volume as i16 + self.volume_slide_speed as i16;
                self.volume = if v < 0 {
                    0
                } else if v > MAX_VOLUME as i16 {
                    MAX_VOLUME
                } else {
                    v as u8
                };
            },
        }
    }
}

impl ChannelState {
    fn apply_sample(&mut self, note: Note, m: &Mod)
        requires
            old(self).wf(),
            m.wf(),
            note.wf(m.samples@.len() as int),
            old(self).sample < m.samples@.len(),
        ensures
            *final(self) == old(self).with_sample(note, *m),
            final(self).wf(),
            final(self).sample < m.samples@.len(),
    {
        if let Some(sidx) = note.sample {
            self.sample = sidx as usize;
            self.sample_pos_reload = 0;
            self.volume = m.samples[sidx as usize].volume;
        }
    }

    fn apply_pitch(&mut self, note: Note, m: &Mod, rate: u32)
        requires
            old(self).wf(),
            m.wf(),
            note.wf(m.samples@.len() as int),
            old(self).sample < m.samples@.len(),
            rate > 0,
        ensures
            *final(self) == old(self).with_pitch(note, *m, rate),
            final(self).wf(),
    {
        if let Some(x) = note.period {
            let ft = m.samples[self.sample].finetune as usize;
            let period = m.periods[ft][x as usize];
            self.xperiod = x;
            self.period = period;
            self.sample_pos = self.sample_pos_reload;
            self.vibrato_phase = 0;
            self.sample_bytes_per_frame = advance_for(period, rate);
        }
    }

    fn apply_tone(&mut self, note: Note, m: &Mod)
        requires
            old(self).wf(),
            m.wf(),
            note.wf(m.samples@.len() as int),
            old(self).sample < m.samples@.len(),
        ensures
            *final(self) == old(self).with_tone(note, *m),
            final(self).wf(),
    {
        let ft = m.samples[self.sample].finetune as usize;
        match note.tone_effect {
            ToneEffect::Off => {
                self.tone_effect = ChannelToneEffect::Off;
            },
            ToneEffect::Arpeggio(a, b) => {
                let last = NOTE_COUNT - 1;
                let ia = if self.xperiod as usize + (a as usize) < last {
                    self.xperiod as usize + (a as usize)
                } else {
                    last
                };
                let ib = if self.xperiod as usize + (b as usize) < last {
                    self.xperiod as usize + (b as usize)
                } else {
                    last
                };
                self.tone_effect = ChannelToneEffect::Arpeggio;
                self.arpeggio_periods = (m.periods[ft][ia], m.periods[ft][ib]);
            },
            ToneEffect::Portamento { target, speed } => {
                self.tone_effect = ChannelToneEffect::Portamento;
                if let Some(v) = target {
                    self.portamento_target = m.periods[ft][v as usize];
                }
                if let Some(v) = speed {
                    self.portamento_speed = v;
                }
            },
            ToneEffect::Vibrato { rate, depth } => {
                self.tone_effect = ChannelToneEffect::Vibrato;
                if let Some(v) = rate {
                    self.vibrato_rate = v * 4;
                }
                if let Some(v) = depth {
                    self.vibrato_depth = v;
                }
            },
        }
    }

    fn apply_volume(&mut self, note: Note, m: &Mod)
        requires
            old(self).wf(),
            m.wf(),
            note.wf(m.samples@.len() as int),
            old(self).sample < m.samples@.len(),
        ensures
            *final(self) == old(self).with_volume(note, *m),
            final(self).wf(),
    {
        match note.volume_effect {
            VolumeEffect::Off => {
                self.volume_effect = ChannelVolumeEffect::Off;
            },
            VolumeEffect::SetVolume(v) => {
                self.volume_effect = ChannelVolumeEffect::Off;
                self.volume = v;
            },
            VolumeEffect::VolumeSlide(s) => {
                self.volume_effect = ChannelVolumeEffect::Slide;
                self.volume_slide_speed = s;
            },
            VolumeEffect::Reset => {
                self.volume_effect = ChannelVolumeEffect::Off;
                self.volume = m.samples[self.sample].volume;
            },
        }
    }

    fn apply_misc(&mut self, note: Note, sample_count: usize)
        requires
            old(self).wf(),
            note.wf(sample_count as int),
        ensures
            *final(self) == old(self).with_misc(note),
            final(self).wf(),
    {
        match note.misc_effect {
            MiscEffect::SetSampleOffset(off) => {
                self.sample_pos_reload = off as u64 * 0x100 * FRAC;
                if note.period.is_some() {
                    self.sample_pos = self.sample_pos_reload;
                }
            },
            MiscEffect::RetrigNote(x) => {
                self.tone_effect = ChannelToneEffect::Retrig;
                self.retrig_period = x;
                self.retrig_left = x - 1;
            },
            _ => {},
        }
    }

    /// Plays `note` on the channel: its sample and pitch fields, then its tone,
    /// volume and misc effects, each left alone where the note has none.
    pub fn apply_note(&mut self, note: Note, m: &Mod, rate: u32)
        requires
            old(self).wf(),
            m.wf(),
            note.wf(m.samples@.len() as int),
            old(self).sample < m.samples@.len(),
            rate > 0,
        ensures
            *final(self) == old(self).noted(note, *m, rate),
            final(self).wf(),
            final(self).sample < m.samples@.len(),
    {
        self.apply_sample(note, m);
        self.apply_pitch(note, m, rate);
        self.apply_tone(note, m);
        self.apply_volume(note, m);
        self.apply_misc(note, m.samples.len());
    }

    /// Reads the channel's level for one output frame and advances its read position.
    pub fn read(&mut self, smp: &Sample) -> (r: i32)
        requires
            old(self).wf(),
            smp.data_wf(),
        ensures
            (*final(self), r) == old(self).read_result(*smp),
            final(self).wf(),
            -0x2000_0000 <= r <= 0x2000_0000,
            r % 0x100 == 0,
    {
        let ghost orig = *self;
        let mut pos = (self.sample_pos / FRAC) as usize;
        match smp.repeat {
            Some((rs, rl)) => {
                while pos >= rs + rl
                    invariant
                        pos == self.sample_pos / FRAC,
                        rl > 0,
                        rs + rl <= smp.data@.len() <= MAX_SAMPLE_LEN,
                        loop_wrap(self.sample_pos as nat, rs as nat, rl as nat) == loop_wrap(
                            orig.sample_pos as nat,
                            rs as nat,
                            rl as nat,
                        ),
                        *self == (ChannelState { sample_pos: self.sample_pos, ..orig }),
                    decreases pos,
                {
                    pos = pos - rl;
                    self.sample_pos = self.sample_pos - (rl as u64) * FRAC;
                }
            },
            None => {
                if pos >= smp.data.len() {
                    return 0;
                }
            },
        }
        self.sample_pos = self.sample_pos + self.sample_bytes_per_frame;
        let b = smp.data[pos];
        let s: i32 = if b >= 0x80 {
            b as i32 - 0x100
        } else {
            b as i32
        };
        let v = self.volume as i32;
        assert(-0x2000_0000 <= s * 0x10000 * v <= 0x2000_0000 && (s * 0x10000 * v) % 0x100 == 0)
            by (nonlinear_arith)
            requires
                -0x80 <= s < 0x80,
                0 <= v <= 0x40,
        ;
        s * 0x10000 * v
    }
}

/// The period after `k` portamento steps from `period` toward `target`.
pub open spec fn portamento_after(period: u16, target: u16, speed: u8, k: nat) -> u16
    decreases k,
{
    if k == 0 {
        period
    } else {
        portamento_step(portamento_after(period, target, speed, (k - 1) as nat), target, speed)
    }
}

/// The volume after a volume slide by each of `deltas` in turn.
pub open spec fn slid_volumes(volume: u8, deltas: Seq<i8>) -> u8
    decreases deltas.len(),
{
    if deltas.len() == 0 {
        volume
    } else {
        slid_volume(slid_volumes(volume, deltas.drop_last()), deltas.last())
    }
}

/// The read positions of a looping sample: the position wrapped into the loop, then
/// each frame advanced by `step` and wrapped again.
pub open spec fn loop_walk(pos: nat, step: nat, start: nat, len: nat, k: nat) -> nat
    decreases k,
{
    if k == 0 {
        loop_wrap(pos, start, len)
    } else {
        loop_wrap(loop_walk(pos, step, start, len, (k - 1) as nat) + step, start, len)
    }
}

/// Portamento convergence: stepping from `period` toward `target` by a nonzero `speed`
/// never passes the target, and reaches it exactly once `k * speed` covers the
/// distance, that is after at most `ceil(|period - target| / speed)` steps.
pub proof fn lemma_portamento_converges(period: u16, target: u16, speed: u8, k: nat)
    requires
        speed > 0,
    ensures
        target < period ==> target <= portamento_after(period, target, speed, k) <= period,
        target >= period ==> period <= portamento_after(period, target, speed, k) <= target,
        target < period ==> portamento_after(period, target, speed, k) as int == if period
            - k * speed > target {
            period - k * speed
        } else {
            target as int
        },
        target >= period ==> portamento_after(period, target, speed, k) as int == if period
            + k * speed < target {
            period + k * speed
        } else {
            target as int
        },
        k * speed >= period - target && k * speed >= target - period ==> portamento_after(
            period,
            target,
            speed,
            k,
        ) == target,
    decreases k,
{
    if k > 0 {
        lemma_portamento_converges(period, target, speed, (k - 1) as nat);
        assert(k * speed == (k - 1) * speed + speed) by (nonlinear_arith);
    }
}

/// Volume slides clamp: after one or more slides by any deltas, from any starting
/// volume, the volume lies in `[0, 0x40]`.
pub proof fn lemma_volume_slide_clamps(volume: u8, deltas: Seq<i8>)
    requires
        deltas.len() > 0,
    ensures
        slid_volumes(volume, deltas) <= MAX_VOLUME,
{
}

proof fn lemma_loop_wrap(pos: nat, start: nat, len: nat)
    requires
        len > 0,
    ensures
        loop_wrap(pos, start, len) < (start + len) * FRAC,
        pos >= start * FRAC ==> loop_wrap(pos, start, len) >= start * FRAC,
        pos < (start + len) * FRAC ==> loop_wrap(pos, start, len) == pos,
    decreases pos,
{
    if pos >= (start + len) * FRAC {
        lemma_loop_wrap((pos - len * FRAC) as nat, start, len);
    }
}

/// Looping read positions: for a loop `[start, start + len)` and any positive step,
/// the wrapped read position never reaches `start + len`, and once the steps cover
/// the way to the loop start it stays inside the loop.
pub proof fn lemma_loop_positions(pos: nat, step: nat, start: nat, len: nat, k: nat)
    requires
        len > 0,
        step > 0,
    ensures
        loop_walk(pos, step, start, len, k) < (start + len) * FRAC,
        loop_walk(pos, step, start, len, k) >= start * FRAC || loop_walk(pos, step, start, len, k)
            >= pos + k * step,
        k * step >= start * FRAC ==> loop_walk(pos, step, start, len, k) >= start * FRAC,
    decreases k,
{
    if k == 0 {
        lemma_loop_wrap(pos, start, len);
    } else {
        let prev = loop_walk(pos, step, start, len, (k - 1) as nat);
        lemma_loop_positions(pos, step, start, len, (k - 1) as nat);
        lemma_loop_wrap(prev + step, start, len);
        assert(k * step == (k - 1) * step + step) by (nonlinear_arith);
    }
}

} // verus!
