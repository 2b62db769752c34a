//! The player: the control handle that caller threads hold, and the playback state
//! that the audio thread owns and advances tick by tick.
use crate::channel::{ChannelState, MAX_VOLUME};
use crate::control::{
    command, next_word, sfx_channel, sfx_pitch, sfx_sample, sfx_volume, sfx_word, state_paused,
    state_volume, update_applies, update_result, update_valid, WordUpdate,
};
use crate::song::{MiscEffect, Mod, Note, ToneEffect, VolumeEffect, NOTE_COUNT, ROWS};
use std::sync::atomic::{AtomicU32, Ordering};
use std::sync::Arc;
use vstd::prelude::*;

verus! {

/// Base tick rate of the sequencer, in ticks per second.
pub const TICK_RATE: u32 = 50;

/// Master volume at full scale.
pub const FULL_MASTER_VOLUME: u32 = 0x100;

/// The shared words: jump command, ticks rendered, pending one-shot, and master
/// volume with the paused flag.
pub struct PlayerControl {
    cmd: AtomicU32,
    ticks: AtomicU32,
    sfx: AtomicU32,
    state: AtomicU32,
}

/// Relies on `AtomicU32::fetch_update`: it calls the closure on the current value and
/// retries the compare-exchange until the closure returns `None` or the store of its
/// `Some` value succeeds; it returns `Ok(previous)` when the closure returned `Some` for
/// `previous`, else `Err(previous)` with the value the closure declined.
#[verifier::external_body]
fn fetch_update_word(word: &AtomicU32, op: WordUpdate) -> (r: Result<u32, u32>)
    requires
        update_valid(op),
    ensures
        match r {
            Ok(p) => update_applies(op, p),
            Err(p) => !update_applies(op, p),
        },
{
    word.fetch_update(Ordering::Release, Ordering::Acquire, |w| next_word(op, w))
}

/// The handle that game logic, on any thread, uses to steer playback.
pub struct Player {
    control: Arc<PlayerControl>,
}

impl Player {
    /// Requests a jingle: playback jumps to `pos` after the current row, plays it
    /// `repeat` more times, then returns to the resume position. A request below the
    /// active priority is dropped unless `hard`.
    pub fn jingle(&self, pos: u8, repeat: u8, prio: u8, hard: bool)
        requires
            pos < 0x80,
            repeat < 0x10,
            prio < 0x40,
    {
        let _ = fetch_update_word(
            &self.control.cmd,
            WordUpdate::Jingle { pos, repeat, priority: prio, force: hard },
        );
    }

    /// Sets where playback returns once a jingle's repeats run out.
    pub fn set_music_pos(&self, pos: u8)
        requires
            pos < 0x80,
    {
        let _ = fetch_update_word(&self.control.cmd, WordUpdate::ResumePosition(pos));
    }

    /// Sets the priority that goes with the resume position.
    pub fn set_music_prio(&self, prio: u8)
        requires
            prio < 0x40,
    {
        let _ = fetch_update_word(&self.control.cmd, WordUpdate::BasePriority(prio));
    }

    /// Schedules a one-shot note on `channel`, played before the next buffer; a zero
    /// volume keeps the channel's volume effect off.
    pub fn play_sfx(&self, period: u8, sample: u8, volume: u8, channel: u8)
        requires
            channel < 4,
    {
        self.control.sfx.store(sfx_word(period, sample, volume, channel), Ordering::Relaxed);
    }

    /// Ticks rendered so far.
    pub fn get_ticks(&self) -> u32 {
        self.control.ticks.load(Ordering::Acquire)
    }

    /// Sets the master volume, from 0 to 0x100.
    pub fn set_master_volume(&self, volume: u32)
        requires
            volume <= FULL_MASTER_VOLUME,
    {
        let _ = fetch_update_word(&self.control.state, WordUpdate::MasterVolume(volume));
    }

    /// Pauses or resumes playback.
    pub fn set_paused(&self, paused: bool) {
        let _ = fetch_update_word(&self.control.state, WordUpdate::Paused(paused));
    }
}

/// Playback state, owned by the audio thread.
pub struct PlayerState {
    pub module: Mod,
    pub control: Arc<PlayerControl>,
    pub sample_rate: u32,
    /// Ticks per row.
    pub speed: u8,
    pub ticks_left: u8,
    /// Frames left before the next tick.
    pub samples_left: u32,
    pub samples_in_tick: u32,
    pub position: usize,
    pub row: usize,
    pub started: bool,
    pub channels: [ChannelState; 4],
    pub pattern_break: Option<u8>,
    pub jump: Option<u8>,
}

impl PlayerState {
    pub open spec fn wf(&self) -> bool {
        &&& self.module.wf()
        &&& self.sample_rate > 0
        &&& self.speed >= 1
        &&& self.samples_in_tick >= 1
        &&& self.position < self.module.positions@.len()
        &&& self.row < ROWS
        &&& forall|c: int|
            0 <= c < 4 ==> (#[trigger] self.channels[c]).wf() && self.channels[c].sample
                < self.module.samples@.len()
        &&& (self.pattern_break matches Some(r) ==> r < ROWS)
    }

    /// Starts a playback session of `module` at `sample_rate` frames per second, at
    /// position 0, row 0, speed 6; it stays silent until a jump command comes unless
    /// `start`. The returned handle steers it.
    pub fn new(module: Mod, sample_rate: u32, start: bool) -> (r: (Player, PlayerState))
        requires
            module.wf(),
            sample_rate >= TICK_RATE,
        ensures
            r.1.wf(),
            r.1.module == module,
            r.1.sample_rate == sample_rate,
            r.1.samples_in_tick == sample_rate / TICK_RATE,
            r.1.samples_left == 0,
            r.1.speed == 6,
            r.1.ticks_left == 0,
            r.1.position == 0,
            r.1.row == 0,
            r.1.started == start,
            r.1.pattern_break is None,
            r.1.jump is None,
            forall|c: int| 0 <= c < 4 ==> #[trigger] r.1.channels[c] == ChannelState::initial(),
    {
        let control = Arc::new(
            PlayerControl {
                cmd: AtomicU32::new(0),
                ticks: AtomicU32::new(0),
                sfx: AtomicU32::new(0),
                state: AtomicU32::new(FULL_MASTER_VOLUME),
            },
        );
        let channels = [
            ChannelState::new(),
            ChannelState::new(),
            ChannelState::new(),
            ChannelState::new(),
        ];
        let state = PlayerState {
            module,
            control: control.clone(),
            sample_rate,
            speed: 6,
            ticks_left: 0,
            samples_left: 0,
            samples_in_tick: sample_rate / TICK_RATE,
            position: 0,
            row: 0,
            started: start,
            channels,
            pattern_break: None,
            jump: None,
        };
        (Player { control }, state)
    }
}

/// The destination of a position jump of the song to `pos`, given what the jingle
/// update on the command word returned: where a jingle's last repeat ran out, its
/// resume position; else `pos`.
pub open spec fn jump_destination(r: Result<u32, u32>, pos: u8) -> u8 {
    match r {
        Ok(w) => if command(w).repeat == 1 {
            command(w).resume as u8
        } else {
            pos
        },
        Err(_) => pos,
    }
}

/// Where a position jump of the song to `pos` lands when the jingle update met the
/// command word `w`: where a jingle's last repeat ran out (no jump pending, repeat
/// count 1), its resume position; else `pos`.
pub open spec fn jump_landing(w: u32, pos: u8) -> u8 {
    if !command(w).pending && command(w).repeat == 1 {
        command(w).resume as u8
    } else {
        pos
    }
}

/// Decides where a position jump of the song lands, from the jingle update's result.
pub fn jump_target(r: Result<u32, u32>, pos: u8) -> (t: u8)
    ensures
        t == jump_destination(r, pos),
{
    match r {
        Ok(w) => {
            if (w >> 8u32) & 0xf == 1 {
                ((w >> 24u32) & 0x7f) as u8
            } else {
                pos
            }
        },
        Err(_) => pos,
    }
}

/// The note a one-shot word asks for: its sample and pitch, its volume unless zero.
pub open spec fn one_shot_note(w: u32) -> Note {
    Note {
        sample: Some(sfx_sample(w) as u8),
        period: Some(sfx_pitch(w) as u8),
        tone_effect: ToneEffect::Off,
        volume_effect: if sfx_volume(w) == 0 {
            VolumeEffect::Off
        } else {
            VolumeEffect::SetVolume(sfx_volume(w) as u8)
        },
        misc_effect: MiscEffect::Off,
    }
}

/// Frames left in the current tick after `frames` more frames, starting with `left`
/// left: a frame with none left first starts a new tick of `per_tick` frames.
pub open spec fn frames_left_after(left: nat, frames: nat, per_tick: nat) -> nat
    decreases frames,
{
    if frames == 0 {
        left
    } else {
        let s = frames_left_after(left, (frames - 1) as nat, per_tick);
        if s == 0 {
            (per_tick - 1) as nat
        } else {
            (s - 1) as nat
        }
    }
}

/// One output value: the sum of two channel levels scaled by the master volume
/// (0x100 is full scale).
pub open spec fn mix_level(a: i32, b: i32, master: i32) -> int {
    (a as int + b as int) / 0x100 * master as int
}

impl PlayerState {
    /// `p` as a position of the play order; one past its end restarts the song.
    pub open spec fn target_position(self, p: int) -> usize {
        if p < self.module.positions@.len() {
            p as usize
        } else {
            0
        }
    }

    /// The position after the current one, wrapping to the start.
    pub open spec fn next_position(self) -> usize {
        if self.position + 1 == self.module.positions@.len() {
            0
        } else {
            (self.position + 1) as usize
        }
    }

    /// The cursor after a row: a pending jump wins, then a pattern break, else the
    /// next row, moving to the next position after the last row.
    pub open spec fn advanced(self) -> PlayerState {
        match self.jump {
            Some(p) => PlayerState { position: self.target_position(p as int), row: 0, jump: None, ..self },
            None => match self.pattern_break {
                Some(r) => PlayerState {
                    position: self.next_position(),
                    row: r as usize,
                    pattern_break: None,
                    ..self
                },
                None => if self.row + 1 == ROWS {
                    PlayerState { position: self.next_position(), row: 0, ..self }
                } else {
                    PlayerState { row: (self.row + 1) as usize, ..self }
                },
            },
        }
    }

    /// The state after a command word is consumed: a pending jump restarts playback
    /// at its target, row 0, at once.
    pub open spec fn commanded(self, cmd: u32) -> PlayerState {
        if command(cmd).pending {
            PlayerState {
                position: self.target_position(command(cmd).target as int),
                row: 0,
                ticks_left: 0,
                samples_left: 0,
                started: true,
                ..self
            }
        } else {
            self
        }
    }

    /// The note of the current row on channel `c`.
    pub open spec fn current_note(self, c: int) -> Note {
        self.module.note(self.module.positions@[self.position as int] as int, self.row as int, c)
    }

    /// The sequencer fields a note's misc effect sets: a pattern break, or a new speed.
    pub open spec fn with_misc(self, note: Note) -> PlayerState {
        match note.misc_effect {
            MiscEffect::PatternBreak(r) => PlayerState { pattern_break: Some(r), ..self },
            MiscEffect::SetSpeed(s) => PlayerState { speed: s, ticks_left: (s - 1) as u8, ..self },
            _ => self,
        }
    }

    /// Whether a one-shot word can be played on this song.
    pub open spec fn one_shot_playable(self, w: u32) -> bool {
        &&& w != 0
        &&& sfx_channel(w) < 4
        &&& sfx_sample(w) < self.module.samples@.len()
        &&& sfx_pitch(w) < NOTE_COUNT
        &&& sfx_volume(w) <= MAX_VOLUME
    }

    /// Moves the cursor past the current row.
    pub fn advance_cursor(&mut self)
        requires
            old(self).wf(),
        ensures
            *final(self) == old(self).advanced(),
            final(self).wf(),
    {
        let len = self.module.positions.len();
        if let Some(pos) = self.jump {
            self.position = if (pos as usize) < len {
                pos as usize
            } else {
                0
            };
            self.row = 0;
            self.jump = None;
        } else if let Some(row) = self.pattern_break {
            self.row = row as usize;
            self.position = self.position + 1;
            if self.position == len {
                self.position = 0;
            }
            self.pattern_break = None;
        } else {
            self.row = self.row + 1;
            if self.row == ROWS {
                self.row = 0;
                self.position = self.position + 1;
                if self.position == len {
                    self.position = 0;
                }
            }
        }
    }

    /// Applies a command word: a pending jump restarts playback at its target.
    pub fn apply_command(&mut self, cmd: u32)
        requires
            old(self).wf(),
        ensures
            *final(self) == old(self).commanded(cmd),
            final(self).wf(),
    {
        if cmd & 0x80 != 0 {
            let target = (cmd & 0x7f) as usize;
            self.position = if target < self.module.positions.len() {
                target
            } else {
                0
            };
            self.row = 0;
            self.ticks_left = 0;
            self.samples_left = 0;
            self.started = true;
        }
    }

    /// Consumes a pending jump command, if any, and applies it.
    pub fn process_cmd(&mut self)
        requires
            old(self).wf(),
        ensures
            exists|cmd: u32| *final(self) == old(self).commanded(cmd),
            final(self).wf(),
    {
        let r = fetch_update_word(&self.control.cmd, WordUpdate::TakeJump);
        match r {
            Ok(cmd) => self.apply_command(cmd),
            Err(cmd) => {
                assert(*self == self.commanded(cmd));
            },
        }
    }

    /// A position jump effect of the song: accounts for it on the command word and
    /// schedules the jump for the end of the row.
    pub fn jump(&mut self, pos: u8)
        requires
            old(self).wf(),
        ensures
            final(self).wf(),
            exists|w: u32| final(self).jump == Some(jump_landing(w, pos)),
            *final(self) == (PlayerState { jump: final(self).jump, ..*old(self) }),
    {
        let r = fetch_update_word(&self.control.cmd, WordUpdate::PositionJump);
        let t = jump_target(r, pos);
        match r {
            Ok(w) => assert(t == jump_landing(w, pos)),
            Err(w) => assert(t == jump_landing(w, pos)),
        }
        self.jump = Some(t);
    }
}

impl PlayerState {
    /// Plays `note` on channel `cidx`: the channel takes the note, and its misc effect
    /// schedules a pattern break, a position jump, or sets the speed.
    pub fn play_note(&mut self, cidx: usize, note: Note)
        requires
            old(self).wf(),
            cidx < 4,
            note.wf(old(self).module.samples@.len() as int),
        ensures
            final(self).wf(),
            final(self).channels[cidx as int] == old(self).channels[cidx as int].noted(
                note,
                old(self).module,
                old(self).sample_rate,
            ),
            forall|c: int|
                0 <= c < 4 && c != cidx ==> #[trigger] final(self).channels[c]
                    == old(self).channels[c],
            note.misc_effect matches MiscEffect::PositionJump(p) ==> exists|w: u32|
                final(self).jump == Some(jump_landing(w, p)),
            !(note.misc_effect is PositionJump) ==> final(self).jump == old(self).jump,
            *final(self) == (PlayerState {
                channels: final(self).channels,
                jump: final(self).jump,
                ..old(self).with_misc(note)
            }),
    {
        let mut ch = self.channels[cidx];
        ch.apply_note(note, &self.module, self.sample_rate);
        self.channels[cidx] = ch;
        match note.misc_effect {
            MiscEffect::PositionJump(pos) => self.jump(pos),
            MiscEffect::PatternBreak(x) => {
                self.pattern_break = Some(x);
            },
            MiscEffect::SetSpeed(s) => {
                self.speed = s;
                self.ticks_left = s - 1;
            },
            _ => {},
        }
    }

    /// Runs one tick of every channel's ongoing effects.
    pub fn play_effects(&mut self)
        requires
            old(self).wf(),
        ensures
            final(self).wf(),
            forall|c: int|
                0 <= c < 4 ==> #[trigger] final(self).channels[c] == old(self).channels[c].ticked(
                    old(self).sample_rate,
                ),
            *final(self) == (PlayerState { channels: final(self).channels, ..*old(self) }),
    {
        let mut i: usize = 0;
        while i < 4
            invariant
                self.wf(),
                i <= 4,
                forall|c: int|
                    0 <= c < i ==> #[trigger] self.channels[c] == old(self).channels[c].ticked(
                        old(self).sample_rate,
                    ),
                forall|c: int| i <= c < 4 ==> #[trigger] self.channels[c] == old(self).channels[c],
                *self == (PlayerState { channels: self.channels, ..*old(self) }),
            decreases 4 - i,
        {
            let mut ch = self.channels[i];
            ch.tick(self.sample_rate);
            self.channels[i] = ch;
            i = i + 1;
        }
    }

    /// Reads channel `idx`'s level for one output frame and advances its read position.
    pub fn play_channel(&mut self, idx: usize) -> (r: i32)
        requires
            old(self).wf(),
            idx < 4,
        ensures
            final(self).wf(),
            (final(self).channels[idx as int], r) == old(self).channels[idx as int].read_result(
                old(self).module.samples@[old(self).channels[idx as int].sample as int],
            ),
            -0x2000_0000 <= r <= 0x2000_0000,
            r % 0x100 == 0,
            forall|c: int|
                0 <= c < 4 && c != idx ==> #[trigger] final(self).channels[c]
                    == old(self).channels[c],
            *final(self) == (PlayerState { channels: final(self).channels, ..*old(self) }),
    {
        let mut ch = self.channels[idx];
        let r = ch.read(&self.module.samples[ch.sample]);
        self.channels[idx] = ch;
        r
    }
}

impl PlayerState {
    /// No note of the current row moves the cursor by a position jump or a pattern break.
    pub open spec fn row_keeps_cursor(self) -> bool {
        forall|c: int|
            0 <= c < 4 ==> !(#[trigger] self.current_note(c).misc_effect is PositionJump)
                && !(self.current_note(c).misc_effect is PatternBreak)
    }

    /// The parts of the state a row's notes never touch are the same in `a` and `b`.
    pub open spec fn same_setup(a: PlayerState, b: PlayerState) -> bool {
        &&& a.module == b.module
        &&& a.control == b.control
        &&& a.sample_rate == b.sample_rate
        &&& a.samples_left == b.samples_left
        &&& a.samples_in_tick == b.samples_in_tick
        &&& a.started == b.started
    }

    /// The sequencer fields after the misc effects of the current row's first `k` notes.
    pub open spec fn misc_upto(self, k: nat) -> PlayerState
        decreases k,
    {
        if k == 0 {
            self
        } else {
            self.misc_upto((k - 1) as nat).with_misc(self.current_note(k - 1))
        }
    }

    /// The target of the last position jump among the current row's first `k` notes.
    pub open spec fn last_jump_upto(self, k: nat) -> Option<u8>
        decreases k,
    {
        if k == 0 {
            None
        } else {
            match self.current_note(k - 1).misc_effect {
                MiscEffect::PositionJump(p) => Some(p),
                _ => self.last_jump_upto((k - 1) as nat),
            }
        }
    }

    /// `j` is a jump slot the current row's first `k` notes can leave: the old one
    /// where they hold no position jump, else where the last one lands.
    pub open spec fn row_jump_upto(self, k: nat, j: Option<u8>) -> bool {
        &&& self.last_jump_upto(k) is None ==> j == self.jump
        &&& self.last_jump_upto(k) is Some ==> exists|w: u32|
            j == Some(jump_landing(w, self.last_jump_upto(k)->0))
    }

    /// `j` is a jump slot the current row can leave.
    pub open spec fn row_jump(self, j: Option<u8>) -> bool {
        self.row_jump_upto(4, j)
    }

    /// Every channel took its note of the current row.
    pub open spec fn row_channels(self, channels: [ChannelState; 4]) -> bool {
        forall|c: int|
            0 <= c < 4 ==> #[trigger] channels[c] == self.channels[c].noted(
                self.current_note(c),
                self.module,
                self.sample_rate,
            )
    }

    /// The state after the current row is played, with the channels and the jump slot
    /// that its notes left, and the cursor moved past it.
    pub open spec fn row_played(self, channels: [ChannelState; 4], j: Option<u8>) -> PlayerState {
        (PlayerState { channels, jump: j, ..self.misc_upto(4) }).advanced()
    }

    /// `t` is a state that one sequencer tick leads to: on the row's first tick the row
    /// is played and the tick count restarts at `speed - 1`; else the tick count goes
    /// down and every channel runs its ongoing effects. The tick's frames reload.
    pub open spec fn ticks_to(self, t: PlayerState) -> bool {
        if self.ticks_left == 0 {
            &&& self.row_channels(t.channels)
            &&& exists|j: Option<u8>|
                self.row_jump(j) && t == ({
                    let r = self.row_played(t.channels, j);
                    PlayerState {
                        ticks_left: (r.speed - 1) as u8,
                        samples_left: self.samples_in_tick,
                        ..r
                    }
                })
        } else {
            &&& forall|c: int|
                0 <= c < 4 ==> #[trigger] t.channels[c] == self.channels[c].ticked(self.sample_rate)
            &&& t == (PlayerState {
                ticks_left: (self.ticks_left - 1) as u8,
                samples_left: self.samples_in_tick,
                channels: t.channels,
                ..self
            })
        }
    }

    /// `out` is the frame mixed from `self` at master volume `master` (channels 0 and 1
    /// left, 2 and 3 right), and `t` the state after: each channel read once, one frame
    /// less left in the tick.
    pub open spec fn mixes_to(self, t: PlayerState, out: (i32, i32), master: i32) -> bool {
        &&& out.0 == mix_level(self.channel_level(0), self.channel_level(1), master)
        &&& out.1 == mix_level(self.channel_level(2), self.channel_level(3), master)
        &&& forall|c: int| 0 <= c < 4 ==> #[trigger] t.channels[c] == self.channel_after_read(c)
        &&& t == (PlayerState {
            channels: t.channels,
            samples_left: (self.samples_left - 1) as u32,
            ..self
        })
    }

    /// One output frame: a tick first where none of the tick's frames are left, then
    /// the mix.
    pub open spec fn frame_to(self, t: PlayerState, out: (i32, i32), master: i32) -> bool {
        if self.samples_left == 0 {
            exists|u: PlayerState| self.ticks_to(u) && u.mixes_to(t, out, master)
        } else {
            self.mixes_to(t, out, master)
        }
    }

    /// `out` holds `out.len() / 2` stereo frames rendered one after another from `self`,
    /// ending in `t`.
    pub open spec fn frames_to(self, t: PlayerState, out: Seq<i32>, master: i32) -> bool {
        exists|states: Seq<PlayerState>|
            {
                &&& states.len() == out.len() / 2 + 1
                &&& states[0] == self
                &&& states.last() == t
                &&& forall|f: int|
                    0 <= f < out.len() / 2 ==> #[trigger] states[f].frame_to(
                        states[f + 1],
                        (out[2 * f], out[2 * f + 1]),
                        master,
                    )
            }
    }

    /// Channel `ch` after a one-shot word: it takes the word's note, but a zero volume
    /// keeps the channel's volume.
    pub open spec fn one_shot_channel(self, ch: ChannelState, w: u32) -> ChannelState {
        let n = ch.noted(one_shot_note(w), self.module, self.sample_rate);
        if sfx_volume(w) == 0 {
            ChannelState { volume: ch.volume, ..n }
        } else {
            n
        }
    }

    /// `t` is the state after the one-shot word `w`: played on its channel where the
    /// song can play it, else ignored.
    pub open spec fn one_shot_to(self, w: u32, t: PlayerState) -> bool {
        if self.one_shot_playable(w) {
            let c = sfx_channel(w) as int;
            &&& t.channels[c] == self.one_shot_channel(self.channels[c], w)
            &&& forall|d: int| 0 <= d < 4 && d != c ==> #[trigger] t.channels[d] == self.channels[d]
            &&& t == (PlayerState { channels: t.channels, ..self })
        } else {
            t == self
        }
    }

    /// One buffer under the state word `state`: paused, silence and no change; else a
    /// command word is consumed (a pending jump restarts playback), a session not
    /// started stays silent, and a started one plays the pending one-shot word, then
    /// renders the frames at the word's master volume.
    pub open spec fn renders_to(self, t: PlayerState, state: u32, out: Seq<i32>) -> bool {
        if state_paused(state) {
            t == self && forall|i: int| 0 <= i < out.len() ==> #[trigger] out[i] == 0
        } else {
            exists|c: u32, w: u32, m: PlayerState|
                #![trigger self.commanded(c).one_shot_to(w, m)]
                {
                    let a = self.commanded(c);
                    if !a.started {
                        t == a && forall|i: int| 0 <= i < out.len() ==> #[trigger] out[i] == 0
                    } else {
                        a.one_shot_to(w, m) && m.frames_to(t, out, state_volume(state) as i32)
                    }
                }
        }
    }

    proof fn lemma_current_note_wf(&self, c: int)
        requires
            self.wf(),
            0 <= c < 4,
        ensures
            self.current_note(c).wf(self.module.samples@.len() as int),
    {
        let pat = self.module.positions@[self.position as int] as int;
        assert(self.module.pattern_wf(self.module.patterns@[pat]));
        assert(self.module.row_wf(self.module.patterns@[pat]@[self.row as int]));
    }

    /// Plays the current row on all four channels, then moves the cursor past it.
    pub fn play_row(&mut self)
        requires
            old(self).wf(),
        ensures
            final(self).wf(),
            PlayerState::same_setup(*final(self), *old(self)),
            forall|c: int|
                0 <= c < 4 ==> #[trigger] final(self).channels[c] == old(self).channels[c].noted(
                    old(self).current_note(c),
                    old(self).module,
                    old(self).sample_rate,
                ),
            final(self).jump is None,
            old(self).row_keeps_cursor() ==> final(self).position == old(self).advanced().position
                && final(self).row == old(self).advanced().row,
            old(self).row_channels(final(self).channels),
            exists|j: Option<u8>|
                old(self).row_jump(j) && *final(self) == old(self).row_played(
                    final(self).channels,
                    j,
                ),
    {
        let pattern = self.module.positions[self.position] as usize;
        let row = self.row;
        let mut i: usize = 0;
        while i < 4
            invariant
                self.wf(),
                i <= 4,
                pattern == old(self).module.positions@[old(self).position as int],
                row == old(self).row,
                PlayerState::same_setup(*self, *old(self)),
                self.position == old(self).position,
                self.row == old(self).row,
                forall|c: int|
                    0 <= c < i ==> #[trigger] self.channels[c] == old(self).channels[c].noted(
                        old(self).current_note(c),
                        old(self).module,
                        old(self).sample_rate,
                    ),
                forall|c: int| i <= c < 4 ==> #[trigger] self.channels[c] == old(self).channels[c],
                old(self).row_keeps_cursor() ==> self.jump == old(self).jump
                    && self.pattern_break == old(self).pattern_break,
                *self == (PlayerState {
                    channels: self.channels,
                    jump: self.jump,
                    ..old(self).misc_upto(i as nat)
                }),
                old(self).row_jump_upto(i as nat, self.jump),
            decreases 4 - i,
        {
            let note = self.module.patterns[pattern][row][i];
            proof {
                self.lemma_current_note_wf(i as int);
                assert(note == old(self).current_note(i as int));
            }
            let ghost prev = *self;
            self.play_note(i, note);
            proof {
                let k = (i + 1) as nat;
                assert(old(self).misc_upto(k) == old(self).misc_upto(i as nat).with_misc(note));
                if let MiscEffect::PositionJump(p) = note.misc_effect {
                    assert(old(self).last_jump_upto(k) == Some(p));
                    let w = choose|w: u32| self.jump == Some(jump_landing(w, p));
                    assert(self.jump == Some(jump_landing(w, old(self).last_jump_upto(k)->0)));
                    assert(old(self).row_jump_upto(k, self.jump));
                } else {
                    assert(old(self).last_jump_upto(k) == old(self).last_jump_upto(i as nat));
                    assert(self.jump == prev.jump);
                    assert(old(self).row_jump_upto(k, self.jump));
                }
            }
            i = i + 1;
        }
        let ghost j = self.jump;
        assert(old(self).row_jump(j));
        self.advance_cursor();
    }

    /// Plays a one-shot word on its channel, where the song has its sample and pitch;
    /// a zero volume leaves the channel's volume as it was. Anything else, the empty
    /// word included, is ignored.
    pub fn play_one_shot(&mut self, w: u32)
        requires
            old(self).wf(),
        ensures
            final(self).wf(),
            old(self).one_shot_to(w, *final(self)),
            old(self).one_shot_playable(w) && sfx_volume(w) == 0 ==> final(self).channels[sfx_channel(
                w,
            ) as int].volume == old(self).channels[sfx_channel(w) as int].volume,
    {
        let pitch = w & 0xff;
        let sample = (w >> 8u32) & 0xff;
        let volume = (w >> 16u32) & 0xff;
        let channel = (w >> 24u32) & 0xff;
        if w != 0 && channel < 4 && (sample as usize) < self.module.samples.len() && (pitch as usize) < NOTE_COUNT
            && volume <= MAX_VOLUME as u32 {
            proof {
                assert(pitch < 0x100 && sample < 0x100 && volume < 0x100) by (bit_vector)
                    requires
                        pitch == w & 0xff,
                        sample == (w >> 8u32) & 0xff,
                        volume == (w >> 16u32) & 0xff,
                ;
            }
            let note = Note {
                sample: Some(sample as u8),
                period: Some(pitch as u8),
                tone_effect: ToneEffect::Off,
                volume_effect: if volume == 0 {
                    VolumeEffect::Off
                } else {
                    VolumeEffect::SetVolume(volume as u8)
                },
                misc_effect: MiscEffect::Off,
            };
            assert(note == one_shot_note(w));
            let c = channel as usize;
            let prior = self.channels[c].volume;
            self.play_note(c, note);
            if volume == 0 {
                let mut ch = self.channels[c];
                ch.volume = prior;
                self.channels[c] = ch;
            }
        }
    }

    /// One sequencer tick: on the row's first tick play the row and restart the tick
    /// count, else count down and run the ongoing effects; then reload the frames of
    /// the tick and count the tick on the shared counter.
    pub fn next_tick(&mut self)
        requires
            old(self).wf(),
        ensures
            final(self).wf(),
            final(self).samples_left == old(self).samples_in_tick,
            final(self).module == old(self).module,
            final(self).started == old(self).started,
            final(self).samples_in_tick == old(self).samples_in_tick,
            final(self).sample_rate == old(self).sample_rate,
            old(self).ticks_to(*final(self)),
            old(self).ticks_left == 0 ==> {
                &&& final(self).ticks_left == final(self).speed - 1
                &&& forall|c: int|
                    0 <= c < 4 ==> #[trigger] final(self).channels[c]
                        == old(self).channels[c].noted(
                        old(self).current_note(c),
                        old(self).module,
                        old(self).sample_rate,
                    )
                &&& old(self).row_keeps_cursor() ==> final(self).position
                    == old(self).advanced().position && final(self).row
                    == old(self).advanced().row
            },
            old(self).ticks_left != 0 ==> *final(self) == (PlayerState {
                ticks_left: (old(self).ticks_left - 1) as u8,
                samples_left: old(self).samples_in_tick,
                channels: final(self).channels,
                ..*old(self)
            }) && forall|c: int|
                0 <= c < 4 ==> #[trigger] final(self).channels[c] == old(self).channels[c].ticked(
                    old(self).sample_rate,
                ),
    {
        if self.ticks_left == 0 {
            self.play_row();
            self.ticks_left = self.speed - 1;
        } else {
            self.ticks_left = self.ticks_left - 1;
            self.play_effects();
        }
        self.samples_left = self.samples_in_tick;
        let ticks = self.control.ticks.load(Ordering::Relaxed);
        self.control.ticks.store(ticks.wrapping_add(1), Ordering::Release);
    }
}

/// Fills `data` with silence.
fn silence(data: &mut Vec<i32>)
    ensures
        final(data)@.len() == old(data)@.len(),
        forall|i: int| 0 <= i < final(data)@.len() ==> #[trigger] final(data)@[i] == 0,
{
    let mut i: usize = 0;
    while i < data.len()
        invariant
            i <= data@.len(),
            data@.len() == old(data)@.len(),
            forall|j: int| 0 <= j < i ==> #[trigger] data@[j] == 0,
        decreases data@.len() - i,
    {
        data.set(i, 0);
        i = i + 1;
    }
}

impl PlayerState {
    /// The level channel `c` gives on its next frame.
    pub open spec fn channel_level(self, c: int) -> i32 {
        self.channels[c].read_result(self.module.samples@[self.channels[c].sample as int]).1
    }

    /// Channel `c` after its next frame is read.
    pub open spec fn channel_after_read(self, c: int) -> ChannelState {
        self.channels[c].read_result(self.module.samples@[self.channels[c].sample as int]).0
    }

    /// Mixes one stereo frame: channels 0 and 1 on the left, 2 and 3 on the right,
    /// scaled by `master` (0x100 is full scale).
    pub fn mix_frame(&mut self, master: i32) -> (r: (i32, i32))
        requires
            old(self).wf(),
            0 <= master < 0x200,
        ensures
            final(self).wf(),
            r.0 == mix_level(old(self).channel_level(0), old(self).channel_level(1), master),
            r.1 == mix_level(old(self).channel_level(2), old(self).channel_level(3), master),
            forall|c: int|
                0 <= c < 4 ==> #[trigger] final(self).channels[c] == old(self).channel_after_read(
                    c,
                ),
            *final(self) == (PlayerState { channels: final(self).channels, ..*old(self) }),
    {
        let a = self.play_channel(0);
        let b = self.play_channel(1);
        let c = self.play_channel(2);
        let d = self.play_channel(3);
        let left = (a + b) / 0x100;
        let right = (c + d) / 0x100;
        assert(-0x40_0000 * 0x1ff <= left * master <= 0x40_0000 * 0x1ff) by (nonlinear_arith)
            requires
                -0x40_0000 <= left <= 0x40_0000,
                0 <= master < 0x200,
        ;
        assert(-0x40_0000 * 0x1ff <= right * master <= 0x40_0000 * 0x1ff) by (nonlinear_arith)
            requires
                -0x40_0000 <= right <= 0x40_0000,
                0 <= master < 0x200,
        ;
        (left * master, right * master)
    }

    /// Renders one buffer of interleaved stereo frames under the state word `state`.
    /// Paused, the buffer is silent and nothing advances. Else a pending jump command
    /// is consumed; a session not started yet stays silent; a pending one-shot is
    /// played; then each frame first runs a sequencer tick where the previous tick's
    /// frames are used up, and mixes the channels.
    pub fn render(&mut self, state: u32, data: &mut Vec<i32>)
        requires
            old(self).wf(),
            old(data)@.len() % 2 == 0,
        ensures
            final(self).wf(),
            final(data)@.len() == old(data)@.len(),
            state_paused(state) ==> *final(self) == *old(self) && forall|i: int|
                0 <= i < final(data)@.len() ==> #[trigger] final(data)@[i] == 0,
            !final(self).started ==> forall|i: int|
                0 <= i < final(data)@.len() ==> #[trigger] final(data)@[i] == 0,
            final(self).module == old(self).module,
            old(self).renders_to(*final(self), state, final(data)@),
    {
        if state & 0x200 != 0 {
            silence(data);
            assert(old(self).renders_to(*self, state, data@));
            return;
        }
        assert(state & 0x1ff < 0x200) by (bit_vector);
        let master = (state & 0x1ff) as i32;
        self.process_cmd();
        let ghost c = choose|c: u32| *self == old(self).commanded(c);
        if !self.started {
            silence(data);
            assert(old(self).renders_to(*self, state, data@)) by {
                let a = old(self).commanded(c);
                if a.one_shot_to(0, *self) {
                } else {
                }
            }
            return;
        }
        let sfx = self.control.sfx.swap(0, Ordering::Relaxed);
        self.play_one_shot(sfx);
        let ghost m = *self;
        self.render_frames(master, data);
        assert(old(self).commanded(c).one_shot_to(sfx, m));
        assert(old(self).renders_to(*self, state, data@));
    }

    /// Renders `data.len() / 2` stereo frames at master volume `master`: each frame
    /// first runs a sequencer tick where the previous tick's frames are used up, then
    /// mixes the channels. The frames left in the tick count down and restart at
    /// `samples_in_tick`; a buffer that needs no new tick changes nothing but the
    /// channels' read positions and the frames left.
    pub fn render_frames(&mut self, master: i32, data: &mut Vec<i32>)
        requires
            old(self).wf(),
            old(data)@.len() % 2 == 0,
            0 <= master < 0x200,
        ensures
            final(self).wf(),
            final(data)@.len() == old(data)@.len(),
            final(self).module == old(self).module,
            final(self).started == old(self).started,
            final(self).samples_left == frames_left_after(
                old(self).samples_left as nat,
                (old(data)@.len() / 2) as nat,
                old(self).samples_in_tick as nat,
            ),
            old(data)@.len() / 2 <= old(self).samples_left ==> *final(self) == (PlayerState {
                channels: final(self).channels,
                samples_left: (old(self).samples_left - old(data)@.len() / 2) as u32,
                ..*old(self)
            }),
            old(self).frames_to(*final(self), final(data)@, master),
    {
        let n = data.len();
        let mut pos: usize = 0;
        let ghost mut states: Seq<PlayerState> = seq![*self];
        while pos < n
            invariant
                self.wf(),
                data@.len() == n,
                n == old(data)@.len(),
                n % 2 == 0,
                pos % 2 == 0,
                pos <= n,
                0 <= master < 0x200,
                self.started == old(self).started,
                self.module == old(self).module,
                self.samples_in_tick == old(self).samples_in_tick,
                self.samples_left == frames_left_after(
                    old(self).samples_left as nat,
                    (pos / 2) as nat,
                    old(self).samples_in_tick as nat,
                ),
                pos / 2 <= old(self).samples_left ==> *self == (PlayerState {
                    channels: self.channels,
                    samples_left: (old(self).samples_left - pos / 2) as u32,
                    ..*old(self)
                }),
                states.len() == pos / 2 + 1,
                states[0] == *old(self),
                states.last() == *self,
                forall|f: int|
                    0 <= f < pos / 2 ==> #[trigger] states[f].frame_to(
                        states[f + 1],
                        (data@[2 * f], data@[2 * f + 1]),
                        master,
                    ),
            decreases n - pos,
        {
            let ghost before = *self;
            let ghost data_before = data@;
            let (left, right) = self.frame(master);
            data.set(pos, left);
            data.set(pos + 1, right);
            proof {
                let next = states.push(*self);
                let k = (pos / 2) as int;
                assert forall|f: int| 0 <= f < k + 1 implies #[trigger] next[f].frame_to(
                    next[f + 1],
                    (data@[2 * f], data@[2 * f + 1]),
                    master,
                ) by {
                    if f < k {
                        assert(next[f] == states[f]);
                        assert(next[f + 1] == states[f + 1]);
                        assert(data@[2 * f] == data_before[2 * f]);
                        assert(data@[2 * f + 1] == data_before[2 * f + 1]);
                    } else {
                        assert(next[f] == before);
                        assert(next[f + 1] == *self);
                    }
                }
                states = next;
            }
            pos = pos + 2;
        }
        assert(old(self).frames_to(*self, data@, master));
    }

    /// One output frame: a tick first where none of its frames are left, then the mix.
    fn frame(&mut self, master: i32) -> (r: (i32, i32))
        requires
            old(self).wf(),
            0 <= master < 0x200,
        ensures
            final(self).wf(),
            final(self).module == old(self).module,
            final(self).started == old(self).started,
            final(self).samples_in_tick == old(self).samples_in_tick,
            final(self).samples_left == if old(self).samples_left == 0 {
                old(self).samples_in_tick - 1
            } else {
                old(self).samples_left - 1
            },
            old(self).samples_left != 0 ==> *final(self) == (PlayerState {
                channels: final(self).channels,
                samples_left: (old(self).samples_left - 1) as u32,
                ..*old(self)
            }),
            old(self).frame_to(*final(self), r, master),
    {
        if self.samples_left == 0 {
            self.next_tick();
        }
        let ghost u = *self;
        let r = self.mix_frame(master);
        self.samples_left = self.samples_left - 1;
        assert(u.mixes_to(*self, r, master));
        r
    }

    /// Renders one buffer under the current master volume and paused flag.
    pub fn make_samples(&mut self, data: &mut Vec<i32>)
        requires
            old(self).wf(),
            old(data)@.len() % 2 == 0,
        ensures
            final(self).wf(),
            final(data)@.len() == old(data)@.len(),
            exists|state: u32| old(self).renders_to(*final(self), state, final(data)@),
    {
        let state = self.control.state.load(Ordering::Relaxed);
        self.render(state, data);
    }
}

/// A jingle request that the priority law lets through takes effect when the audio
/// thread next consumes the command word: playback restarts at its position, row 0.
pub proof fn lemma_jingle_takes_effect(
    s: PlayerState,
    w: u32,
    n: u32,
    pos: u8,
    repeat: u8,
    priority: u8,
    force: bool,
)
    requires
        s.wf(),
        pos < 0x80,
        repeat < 0x10,
        priority < 0x40,
        (pos as int) < s.module.positions@.len(),
        update_result(WordUpdate::Jingle { pos, repeat, priority, force }, w, n),
    ensures
        s.commanded(n).position == pos,
        s.commanded(n).row == 0,
        s.commanded(n).started,
{
}

/// Within a row, frames whose tick count and frames left still add up to more run
/// only effect ticks: the cursor stays where it is.
proof fn lemma_ticks_keep_row(
    states: Seq<PlayerState>,
    out: Seq<i32>,
    master: i32,
    a: PlayerState,
    spt: int,
    f: int,
)
    requires
        1 <= f <= 6 * spt,
        spt >= 1,
        states.len() == 6 * spt + 1,
        forall|g: int|
            0 <= g < 6 * spt ==> #[trigger] states[g].frame_to(
                states[g + 1],
                (out[2 * g], out[2 * g + 1]),
                master,
            ),
        states[f].position == a.position,
        states[f].row == a.row,
        states[f].samples_in_tick == spt,
        states[f].samples_left < spt,
        states[f].ticks_left * spt + states[f].samples_left == 6 * spt - f,
    ensures
        states[6 * spt].position == a.position,
        states[6 * spt].row == a.row,
        states[6 * spt].ticks_left * spt + states[6 * spt].samples_left == 0,
    decreases 6 * spt - f,
{
    if f < 6 * spt {
        let cur = states[f];
        assert(cur.frame_to(states[f + 1], (out[2 * f], out[2 * f + 1]), master));
        if cur.samples_left == 0 {
            assert(cur.ticks_left != 0) by {
                if cur.ticks_left == 0 {
                    assert(cur.ticks_left * spt == 0);
                }
            }
            let v = choose|v: PlayerState|
                cur.ticks_to(v) && v.mixes_to(states[f + 1], (out[2 * f], out[2 * f + 1]), master);
            assert((cur.ticks_left - 1) * spt + spt - 1 == cur.ticks_left * spt - 1)
                by (nonlinear_arith);
        }
        lemma_ticks_keep_row(states, out, master, a, spt, f + 1);
    }
}

/// Frame timing of a row: from the first tick of a row at speed 6 whose notes carry no
/// misc effect, a buffer of six ticks' frames plays that row once and ends on the next
/// row, with no ticks and no frames of the last tick left.
pub proof fn lemma_six_ticks_play_one_row(s: PlayerState, t: PlayerState, out: Seq<i32>, master: i32)
    requires
        s.samples_left == 0,
        s.ticks_left == 0,
        s.speed == 6,
        s.samples_in_tick >= 1,
        forall|c: int| 0 <= c < 4 ==> (#[trigger] s.current_note(c)).misc_effect == MiscEffect::Off,
        out.len() == 12 * s.samples_in_tick,
        s.frames_to(t, out, master),
    ensures
        t.position == s.advanced().position,
        t.row == s.advanced().row,
        t.ticks_left == 0,
        t.samples_left == 0,
{
    let spt = s.samples_in_tick as int;
    let n = 6 * spt;
    let states = choose|states: Seq<PlayerState>|
        {
            &&& states.len() == out.len() / 2 + 1
            &&& states[0] == s
            &&& states.last() == t
            &&& forall|f: int|
                0 <= f < out.len() / 2 ==> #[trigger] states[f].frame_to(
                    states[f + 1],
                    (out[2 * f], out[2 * f + 1]),
                    master,
                )
        };
    assert(out.len() / 2 == n);
    assert(s.misc_upto(1) == s.with_misc(s.current_note(0)));
    assert(s.misc_upto(4) == s) by {
        assert(s.misc_upto(0) == s);
        assert(s.misc_upto(1) == s);
        assert(s.misc_upto(2) == s);
        assert(s.misc_upto(3) == s);
    }
    assert(s.last_jump_upto(4) is None) by {
        assert(s.last_jump_upto(0) is None);
        assert(s.current_note(0).misc_effect == MiscEffect::Off);
        assert(s.current_note(1).misc_effect == MiscEffect::Off);
        assert(s.current_note(2).misc_effect == MiscEffect::Off);
        assert(s.current_note(3).misc_effect == MiscEffect::Off);
        assert(s.last_jump_upto(1) is None);
        assert(s.last_jump_upto(2) is None);
        assert(s.last_jump_upto(3) is None);
    }
    let a = s.advanced();
    // The first frame plays the row.
    let f0: int = 0;
    assert(states[f0].frame_to(states[f0 + 1], (out[2 * f0], out[2 * f0 + 1]), master));
    let u = choose|u: PlayerState|
        s.ticks_to(u) && u.mixes_to(states[f0 + 1], (out[2 * f0], out[2 * f0 + 1]), master);
    let j = choose|j: Option<u8>|
        s.row_jump(j) && u == ({
            let r = s.row_played(u.channels, j);
            PlayerState { ticks_left: (r.speed - 1) as u8, samples_left: s.samples_in_tick, ..r }
        });
    assert(j == s.jump);
    let r = s.row_played(u.channels, j);
    assert((PlayerState { channels: u.channels, jump: j, ..s.misc_upto(4) }).speed == 6);
    assert(r.speed == 6);
    assert(u.ticks_left == 5);
    assert(states[1].ticks_left == 5);
    assert(states[1].samples_left == spt - 1);
    assert(states[1].position == a.position && states[1].row == a.row);
    assert(states[1].ticks_left * spt + states[1].samples_left == n - 1);
    lemma_ticks_keep_row(states, out, master, a, spt, 1);
    let last = states[n];
    assert(last == t);
    assert(last.ticks_left * spt >= 0) by (nonlinear_arith)
        requires
            spt >= 1,
    ;
    assert(last.ticks_left == 0) by {
        if last.ticks_left > 0 {
            assert(last.ticks_left * spt >= spt) by (nonlinear_arith)
                requires
                    last.ticks_left >= 1,
                    spt >= 1,
            ;
        }
    }
}

} // verus!
