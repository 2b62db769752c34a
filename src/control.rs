//! Bit-packed control words shared between caller threads and the audio thread.
//!
//! Command word: bits 0-6 target position, bit 7 jump pending, bits 8-11 repeat
//! count, bits 12-17 active priority, bits 18-23 base priority, bits 24-30 resume
//! position. One-shot word: bits 0-7 pitch, 8-15 sample, 16-23 volume, 24-31
//! channel. State word: bits 0-8 master volume, bit 9 paused.
use vstd::prelude::*;

verus! {

/// The fields of a command word.
pub struct CommandFields {
    pub target: u32,
    pub pending: bool,
    pub repeat: u32,
    pub priority: u32,
    pub base_priority: u32,
    pub resume: u32,
    /// Bit 31, which no field uses: every update keeps it.
    pub spare: u32,
}

pub open spec fn command(w: u32) -> CommandFields {
    CommandFields {
        target: w & 0x7f,
        pending: w & 0x80 != 0,
        repeat: (w >> 8u32) & 0xf,
        priority: (w >> 12u32) & 0x3f,
        base_priority: (w >> 18u32) & 0x3f,
        resume: (w >> 24u32) & 0x7f,
        spare: w >> 31u32,
    }
}

pub open spec fn state_volume(w: u32) -> u32 {
    w & 0x1ff
}

pub open spec fn state_paused(w: u32) -> bool {
    w & 0x200 != 0
}

pub open spec fn sfx_pitch(w: u32) -> u32 {
    w & 0xff
}

pub open spec fn sfx_sample(w: u32) -> u32 {
    (w >> 8u32) & 0xff
}

pub open spec fn sfx_volume(w: u32) -> u32 {
    (w >> 16u32) & 0xff
}

pub open spec fn sfx_channel(w: u32) -> u32 {
    (w >> 24u32) & 0xff
}

/// One read-modify-write of a shared word.
#[derive(Clone, Copy)]
pub enum WordUpdate {
    /// Request a jingle to `pos`, repeated `repeat` times, at `priority`.
    Jingle { pos: u8, repeat: u8, priority: u8, force: bool },
    /// Set where playback returns once a jingle's repeats run out.
    ResumePosition(u8),
    /// Set the priority that goes with the resume position.
    BasePriority(u8),
    /// Consume a pending jump.
    TakeJump,
    /// Account for a position jump of the song against the jingle state.
    PositionJump,
    /// Set the master volume of the state word.
    MasterVolume(u32),
    /// Set the paused flag of the state word.
    Paused(bool),
}

/// The arguments each update is defined for.
pub open spec fn update_valid(op: WordUpdate) -> bool {
    match op {
        WordUpdate::Jingle { pos, repeat, priority, force } => pos < 0x80 && repeat < 0x10
            && priority < 0x40,
        WordUpdate::ResumePosition(pos) => pos < 0x80,
        WordUpdate::BasePriority(p) => p < 0x40,
        WordUpdate::MasterVolume(v) => v <= 0x100,
        _ => true,
    }
}

/// Whether an update writes a new value over `w` (else it leaves the word alone).
pub open spec fn update_applies(op: WordUpdate, w: u32) -> bool {
    match op {
        WordUpdate::Jingle { pos, repeat, priority, force } => force || priority as u32
            >= command(w).priority,
        WordUpdate::TakeJump => command(w).pending,
        WordUpdate::PositionJump => !command(w).pending && command(w).repeat != 0,
        _ => true,
    }
}

/// What the word `n` written by an update over `w` holds.
pub open spec fn update_result(op: WordUpdate, w: u32, n: u32) -> bool {
    let c = command(w);
    match op {
        WordUpdate::Jingle { pos, repeat, priority, force } => command(n) == (CommandFields {
            target: pos as u32,
            pending: true,
            repeat: repeat as u32,
            priority: priority as u32,
            ..c
        }),
        WordUpdate::ResumePosition(pos) => command(n) == (CommandFields { resume: pos as u32, ..c }),
        WordUpdate::BasePriority(p) => command(n) == (CommandFields {
            base_priority: p as u32,
            ..c
        }),
        WordUpdate::TakeJump => command(n) == (CommandFields { pending: false, ..c }),
        WordUpdate::PositionJump => if c.repeat == 1 {
            command(n) == (CommandFields { repeat: 0, priority: c.base_priority, ..c })
        } else {
            command(n) == (CommandFields { repeat: (c.repeat - 1) as u32, ..c })
        },
        WordUpdate::MasterVolume(v) => state_volume(n) == v && state_paused(n) == state_paused(w)
            && n >> 10u32 == w >> 10u32,
        WordUpdate::Paused(p) => state_paused(n) == p && state_volume(n) == state_volume(w) && n
            >> 10u32 == w >> 10u32,
    }
}

proof fn lemma_jingle_bits(w: u32, n: u32, pos: u32, repeat: u32, priority: u32)
    by (bit_vector)
    requires
        pos < 0x80,
        repeat < 0x10,
        priority < 0x40,
        n == w & !0x3ffffu32 | 0x80u32 | pos | repeat << 8u32 | priority << 12u32,
    ensures
        n & 0x7f == pos,
        n & 0x80 != 0,
        (n >> 8u32) & 0xf == repeat,
        (n >> 12u32) & 0x3f == priority,
        (n >> 18u32) & 0x3f == (w >> 18u32) & 0x3f,
        (n >> 24u32) & 0x7f == (w >> 24u32) & 0x7f,
        n >> 31u32 == w >> 31u32,
{
}

proof fn lemma_resume_bits(w: u32, n: u32, pos: u32)
    by (bit_vector)
    requires
        pos < 0x80,
        n == w & !0x7f000000u32 | pos << 24u32,
    ensures
        n & 0x7f == w & 0x7f,
        (n & 0x80 != 0) == (w & 0x80 != 0),
        (n >> 8u32) & 0xf == (w >> 8u32) & 0xf,
        (n >> 12u32) & 0x3f == (w >> 12u32) & 0x3f,
        (n >> 18u32) & 0x3f == (w >> 18u32) & 0x3f,
        (n >> 24u32) & 0x7f == pos,
        n >> 31u32 == w >> 31u32,
{
}

proof fn lemma_base_priority_bits(w: u32, n: u32, p: u32)
    by (bit_vector)
    requires
        p < 0x40,
        n == w & !0x00fc0000u32 | p << 18u32,
    ensures
        n & 0x7f == w & 0x7f,
        (n & 0x80 != 0) == (w & 0x80 != 0),
        (n >> 8u32) & 0xf == (w >> 8u32) & 0xf,
        (n >> 12u32) & 0x3f == (w >> 12u32) & 0x3f,
        (n >> 18u32) & 0x3f == p,
        (n >> 24u32) & 0x7f == (w >> 24u32) & 0x7f,
        n >> 31u32 == w >> 31u32,
{
}

proof fn lemma_take_jump_bits(w: u32, n: u32)
    by (bit_vector)
    requires
        n == w & !0x80u32,
    ensures
        n & 0x7f == w & 0x7f,
        n & 0x80 == 0,
        (n >> 8u32) & 0xf == (w >> 8u32) & 0xf,
        (n >> 12u32) & 0x3f == (w >> 12u32) & 0x3f,
        (n >> 18u32) & 0x3f == (w >> 18u32) & 0x3f,
        (n >> 24u32) & 0x7f == (w >> 24u32) & 0x7f,
        n >> 31u32 == w >> 31u32,
{
}

proof fn lemma_repeat_out_bits(w: u32, n: u32)
    by (bit_vector)
    requires
        n == w & !0x3ff00u32 | ((w >> 18u32) & 0x3f) << 12u32,
    ensures
        n & 0x7f == w & 0x7f,
        (n & 0x80 != 0) == (w & 0x80 != 0),
        (n >> 8u32) & 0xf == 0,
        (n >> 12u32) & 0x3f == (w >> 18u32) & 0x3f,
        (n >> 18u32) & 0x3f == (w >> 18u32) & 0x3f,
        (n >> 24u32) & 0x7f == (w >> 24u32) & 0x7f,
        n >> 31u32 == w >> 31u32,
{
}

proof fn lemma_repeat_down_bits(w: u32, n: u32, d: u32)
    by (bit_vector)
    requires
        d + 1 == (w >> 8u32) & 0xf,
        n == w & !0xf00u32 | d << 8u32,
    ensures
        n & 0x7f == w & 0x7f,
        (n & 0x80 != 0) == (w & 0x80 != 0),
        (n >> 8u32) & 0xf == d,
        (n >> 12u32) & 0x3f == (w >> 12u32) & 0x3f,
        (n >> 18u32) & 0x3f == (w >> 18u32) & 0x3f,
        (n >> 24u32) & 0x7f == (w >> 24u32) & 0x7f,
        n >> 31u32 == w >> 31u32,
{
}

proof fn lemma_volume_bits(w: u32, n: u32, v: u32)
    by (bit_vector)
    requires
        v <= 0x100,
        n == w & !0x1ffu32 | v,
    ensures
        n & 0x1ff == v,
        (n & 0x200 != 0) == (w & 0x200 != 0),
        n >> 10u32 == w >> 10u32,
{
}

proof fn lemma_paused_bits(w: u32)
    by (bit_vector)
    ensures
        (w | 0x200u32) & 0x200 != 0,
        (w | 0x200u32) & 0x1ff == w & 0x1ff,
        (w & !0x200u32) & 0x200 == 0,
        (w & !0x200u32) & 0x1ff == w & 0x1ff,
        (w | 0x200u32) >> 10u32 == w >> 10u32,
        (w & !0x200u32) >> 10u32 == w >> 10u32,
{
}

/// The word an update writes over `w`, or `None` where it leaves `w` alone.
pub fn next_word(op: WordUpdate, w: u32) -> (r: Option<u32>)
    requires
        update_valid(op),
    ensures
        r is Some <==> update_applies(op, w),
        r matches Some(n) ==> update_result(op, w, n),
{
    match op {
        WordUpdate::Jingle { pos, repeat, priority, force } => {
            let current = (w >> 12u32) & 0x3f;
            if (priority as u32) < current && !force {
                None
            } else {
                let n = w & !0x3ffffu32 | 0x80u32 | pos as u32 | (repeat as u32) << 8u32
                    | (priority as u32) << 12u32;
                proof {
                    lemma_jingle_bits(w, n, pos as u32, repeat as u32, priority as u32);
                }
                Some(n)
            }
        },
        WordUpdate::ResumePosition(pos) => {
            let n = w & !0x7f000000u32 | (pos as u32) << 24u32;
            proof {
                lemma_resume_bits(w, n, pos as u32);
            }
            Some(n)
        },
        WordUpdate::BasePriority(p) => {
            let n = w & !0x00fc0000u32 | (p as u32) << 18u32;
            proof {
                lemma_base_priority_bits(w, n, p as u32);
            }
            Some(n)
        },
        WordUpdate::TakeJump => {
            if w & 0x80 == 0 {
                None
            } else {
                let n = w & !0x80u32;
                proof {
                    lemma_take_jump_bits(w, n);
                }
                Some(n)
            }
        },
        WordUpdate::PositionJump => {
            let repeat = (w >> 8u32) & 0xf;
            if w & 0x80 != 0 || repeat == 0 {
                None
            } else if repeat == 1 {
                let base = (w >> 18u32) & 0x3f;
                let n = w & !0x3ff00u32 | base << 12u32;
                proof {
                    lemma_repeat_out_bits(w, n);
                }
                Some(n)
            } else {
                let n = w & !0xf00u32 | (repeat - 1) << 8u32;
                proof {
                    lemma_repeat_down_bits(w, n, (repeat - 1) as u32);
                }
                Some(n)
            }
        },
        WordUpdate::MasterVolume(v) => {
            let n = w & !0x1ffu32 | v;
            proof {
                lemma_volume_bits(w, n, v);
            }
            Some(n)
        },
        WordUpdate::Paused(p) => {
            proof {
                lemma_paused_bits(w);
            }
            if p {
                Some(w | 0x200u32)
            } else {
                Some(w & !0x200u32)
            }
        },
    }
}

/// Packs a one-shot request into its word.
pub fn sfx_word(pitch: u8, sample: u8, volume: u8, channel: u8) -> (r: u32)
    ensures
        sfx_pitch(r) == pitch,
        sfx_sample(r) == sample,
        sfx_volume(r) == volume,
        sfx_channel(r) == channel,
{
    let (p, s, v, c) = (pitch as u32, sample as u32, volume as u32, channel as u32);
    let r = p | s << 8u32 | v << 16u32 | c << 24u32;
    assert(r & 0xff == p && (r >> 8u32) & 0xff == s && (r >> 16u32) & 0xff == v && (r >> 24u32)
        & 0xff == c) by (bit_vector)
        requires
            p < 0x100 && s < 0x100 && v < 0x100 && c < 0x100,
            r == p | s << 8u32 | v << 16u32 | c << 24u32,
    ;
    r
}

/// Pausing is idempotent: a second pause leaves the paused flag and master volume as
/// the first one set them.
pub proof fn lemma_pause_idempotent(w: u32, once: u32, twice: u32)
    requires
        update_result(WordUpdate::Paused(true), w, once),
        update_result(WordUpdate::Paused(true), once, twice),
    ensures
        state_paused(twice) == state_paused(once),
        state_volume(twice) == state_volume(once),
        state_volume(once) == state_volume(w),
{
}

/// Priority law on the command word: a jingle request below the active priority and
/// not forced leaves the word alone; a forced one, or one at or above the active
/// priority, always writes a pending jump to its position.
pub proof fn lemma_jingle_priority(w: u32, pos: u8, repeat: u8, priority: u8, force: bool)
    requires
        pos < 0x80,
        repeat < 0x10,
        priority < 0x40,
    ensures
        (priority as u32) < command(w).priority && !force ==> !update_applies(
            WordUpdate::Jingle { pos, repeat, priority, force },
            w,
        ),
        force || priority as u32 >= command(w).priority ==> update_applies(
            WordUpdate::Jingle { pos, repeat, priority, force },
            w,
        ),
        forall|n: u32|
            update_result(WordUpdate::Jingle { pos, repeat, priority, force }, w, n) ==> command(
                n,
            ).pending && command(n).target == pos,
{
}

} // verus!
