//! The song data the engine plays: positions, patterns, samples and the period table.
use vstd::prelude::*;

verus! {

/// Rows in every pattern.
pub const ROWS: usize = 64;

/// Notes in every row of the period table.
pub const NOTE_COUNT: usize = 36;

/// A waveform of signed 8-bit bytes.
pub struct Sample {
    pub data: Vec<u8>,
    /// Row of the period table this sample's pitches come from.
    pub finetune: u8,
    /// Volume set when a note switches to this sample (0 to 0x40).
    pub volume: u8,
    /// Loop region `(start, length)` in bytes; without one the sample stops at its end.
    pub repeat: Option<(usize, usize)>,
}

#[derive(Clone, Copy, PartialEq, Eq, Debug)]
pub enum ToneEffect {
    Off,
    Arpeggio(u8, u8),
    Portamento { target: Option<u8>, speed: Option<u8> },
    Vibrato { rate: Option<u8>, depth: Option<u8> },
}

#[derive(Clone, Copy, PartialEq, Eq, Debug)]
pub enum VolumeEffect {
    Off,
    SetVolume(u8),
    VolumeSlide(i8),
    Reset,
}

#[derive(Clone, Copy, PartialEq, Eq, Debug)]
pub enum MiscEffect {
    Off,
    SetSampleOffset(u8),
    PositionJump(u8),
    PatternBreak(u8),
    RetrigNote(u8),
    SetSpeed(u8),
}

/// One channel's slot of a row.
#[derive(Clone, Copy, PartialEq, Eq, Debug)]
pub struct Note {
    pub sample: Option<u8>,
    /// Index into the sample's row of the period table.
    pub period: Option<u8>,
    pub tone_effect: ToneEffect,
    pub volume_effect: VolumeEffect,
    pub misc_effect: MiscEffect,
}

/// A whole song.
pub struct Mod {
    /// Pattern index for each position of the play order.
    pub positions: Vec<u8>,
    /// Each pattern: 64 rows of four notes.
    pub patterns: Vec<Vec<[Note; 4]>>,
    pub samples: Vec<Sample>,
    /// Period of each note, one row per finetune.
    pub periods: Vec<[u16; 36]>,
}

/// Largest sample length: the byte index is the 32-bit integer part of the 32.32
/// read position, which must still hold a position past the end plus one frame's
/// largest advance (0x361f0f bytes).
pub const MAX_SAMPLE_LEN: usize = 0xffff_ffff - 0x361f0f;

impl Sample {
    /// The waveform is short enough for the read position and its loop lies inside it.
    pub open spec fn data_wf(&self) -> bool {
        &&& self.data@.len() <= MAX_SAMPLE_LEN
        &&& (self.repeat matches Some((start, len)) ==> len > 0 && start + len <= self.data@.len())
    }

    pub open spec fn wf(&self, finetunes: int) -> bool {
        &&& self.data_wf()
        &&& self.finetune < finetunes
        &&& self.volume <= 0x40
    }
}

impl Note {
    /// The note only names samples, pitches, rows and values that exist.
    pub open spec fn wf(&self, sample_count: int) -> bool {
        &&& (self.sample matches Some(s) ==> s < sample_count)
        &&& (self.period matches Some(p) ==> p < NOTE_COUNT)
        &&& (self.tone_effect matches ToneEffect::Portamento { target: Some(t), .. } ==> t
            < NOTE_COUNT)
        &&& (self.tone_effect matches ToneEffect::Vibrato { rate: Some(r), .. } ==> r < 0x40)
        &&& (self.volume_effect matches VolumeEffect::SetVolume(v) ==> v <= 0x40)
        &&& (self.misc_effect matches MiscEffect::PatternBreak(r) ==> r < ROWS)
        &&& (self.misc_effect matches MiscEffect::RetrigNote(x) ==> x >= 1)
        &&& (self.misc_effect matches MiscEffect::SetSpeed(s) ==> s >= 1)
    }
}

impl Mod {
    pub open spec fn row_wf(&self, row: [Note; 4]) -> bool {
        forall|c: int| 0 <= c < 4 ==> (#[trigger] row[c]).wf(self.samples@.len() as int)
    }

    pub open spec fn pattern_wf(&self, pattern: Vec<[Note; 4]>) -> bool {
        &&& pattern@.len() == ROWS
        &&& forall|r: int| 0 <= r < ROWS ==> self.row_wf(#[trigger] pattern@[r])
    }

    /// Every index the song holds is in range.
    pub open spec fn wf(&self) -> bool {
        &&& 0 < self.positions@.len()
        &&& forall|i: int|
            0 <= i < self.positions@.len() ==> #[trigger] self.positions@[i]
                < self.patterns@.len()
        &&& forall|p: int| 0 <= p < self.patterns@.len() ==> self.pattern_wf(#[trigger] self.patterns@[p])
        &&& 0 < self.samples@.len()
        &&& forall|s: int|
            0 <= s < self.samples@.len() ==> (#[trigger] self.samples@[s]).wf(
                self.periods@.len() as int,
            )
    }

    /// The note at `(pattern, row, channel)`.
    pub open spec fn note(&self, pattern: int, row: int, channel: int) -> Note {
        self.patterns@[pattern]@[row][channel]
    }

    /// The period of note `index` for finetune `finetune`.
    pub open spec fn period(&self, finetune: int, index: int) -> u16 {
        self.periods@[finetune][index]
    }
}

impl Sample {
    /// Checks `wf` against a period table of `finetunes` rows.
    pub fn is_valid(&self, finetunes: usize) -> (r: bool)
        ensures
            r == self.wf(finetunes as int),
    {
        let loop_ok = match self.repeat {
            Some((start, len)) => len > 0 && start <= self.data.len() && len <= self.data.len()
                - start,
            None => true,
        };
        self.data.len() <= MAX_SAMPLE_LEN && loop_ok && (self.finetune as usize) < finetunes
            && self.volume <= 0x40
    }
}

impl Note {
    /// Checks `wf` for a song of `sample_count` samples.
    pub fn is_valid(&self, sample_count: usize) -> (r: bool)
        ensures
            r == self.wf(sample_count as int),
    {
        let sample_ok = match self.sample {
            Some(s) => (s as usize) < sample_count,
            None => true,
        };
        let period_ok = match self.period {
            Some(p) => (p as usize) < NOTE_COUNT,
            None => true,
        };
        let tone_ok = match self.tone_effect {
            ToneEffect::Portamento { target: Some(t), .. } => (t as usize) < NOTE_COUNT,
            ToneEffect::Vibrato { rate: Some(r), .. } => r < 0x40,
            _ => true,
        };
        let volume_ok = match self.volume_effect {
            VolumeEffect::SetVolume(v) => v <= 0x40,
            _ => true,
        };
        let misc_ok = match self.misc_effect {
            MiscEffect::PatternBreak(r) => (r as usize) < ROWS,
            MiscEffect::RetrigNote(x) => x >= 1,
            MiscEffect::SetSpeed(s) => s >= 1,
            _ => true,
        };
        sample_ok && period_ok && tone_ok && volume_ok && misc_ok
    }
}

impl Mod {
    fn pattern_is_valid(&self, pattern: &Vec<[Note; 4]>) -> (r: bool)
        ensures
            r == self.pattern_wf(*pattern),
    {
        if pattern.len() != ROWS {
            return false;
        }
        let n = self.samples.len();
        let mut r: usize = 0;
        while r < ROWS
            invariant
                pattern@.len() == ROWS,
                n == self.samples@.len(),
                r <= ROWS,
                forall|i: int| 0 <= i < r ==> self.row_wf(#[trigger] pattern@[i]),
            decreases ROWS - r,
        {
            let row = pattern[r];
            let mut c: usize = 0;
            while c < 4
                invariant
                    c <= 4,
                    r < ROWS,
                    pattern@.len() == ROWS,
                    row == pattern@[r as int],
                    n == self.samples@.len(),
                    forall|j: int| 0 <= j < c ==> (#[trigger] row[j]).wf(n as int),
                decreases 4 - c,
            {
                if !row[c].is_valid(n) {
                    assert(!self.row_wf(pattern@[r as int]));
                    return false;
                }
                c = c + 1;
            }
            r = r + 1;
        }
        true
    }

    /// Checks `wf`: every index the song holds is in range.
    pub fn is_valid(&self) -> (r: bool)
        ensures
            r == self.wf(),
    {
        if self.positions.len() == 0 || self.samples.len() == 0 {
            return false;
        }
        let mut i: usize = 0;
        while i < self.positions.len()
            invariant
                i <= self.positions@.len(),
                forall|k: int| 0 <= k < i ==> #[trigger] self.positions@[k] < self.patterns@.len(),
            decreases self.positions@.len() - i,
        {
            if self.positions[i] as usize >= self.patterns.len() {
                return false;
            }
            i = i + 1;
        }
        let mut p: usize = 0;
        while p < self.patterns.len()
            invariant
                p <= self.patterns@.len(),
                forall|k: int| 0 <= k < p ==> self.pattern_wf(#[trigger] self.patterns@[k]),
            decreases self.patterns@.len() - p,
        {
            if !self.pattern_is_valid(&self.patterns[p]) {
                return false;
            }
            p = p + 1;
        }
        let mut s: usize = 0;
        while s < self.samples.len()
            invariant
                s <= self.samples@.len(),
                forall|k: int|
                    0 <= k < s ==> (#[trigger] self.samples@[k]).wf(self.periods@.len() as int),
            decreases self.samples@.len() - s,
        {
            if !self.samples[s].is_valid(self.periods.len()) {
                return false;
            }
            s = s + 1;
        }
        true
    }
}

} // verus!
