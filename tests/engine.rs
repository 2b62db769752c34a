use pfr::channel::{
    advance_for, ChannelState, ChannelToneEffect, ChannelVolumeEffect, MAX_VOLUME,
};
use pfr::player::{jump_target, PlayerState};
use pfr::song::{MiscEffect, Mod, Note, Sample, ToneEffect, VolumeEffect};

const RATE: u32 = 48000;

const PERIODS: [u16; 36] = [
    856, 808, 762, 720, 678, 640, 604, 570, 538, 508, 480, 453, 428, 404, 381, 360, 339, 320, 302,
    285, 269, 254, 240, 226, 214, 202, 190, 180, 170, 160, 151, 143, 135, 127, 120, 113,
];

fn empty_note() -> Note {
    Note {
        sample: None,
        period: None,
        tone_effect: ToneEffect::Off,
        volume_effect: VolumeEffect::Off,
        misc_effect: MiscEffect::Off,
    }
}

fn empty_pattern() -> Vec<[Note; 4]> {
    vec![[empty_note(); 4]; 64]
}

/// Sample 0: silent at its first byte, then a constant level; sample 1 loops.
fn song(positions: Vec<u8>, patterns: Vec<Vec<[Note; 4]>>) -> Mod {
    let mut data = vec![0x40u8; 2000];
    data[0] = 0;
    let looped = vec![0x10u8; 100];
    Mod {
        positions,
        patterns,
        samples: vec![
            Sample { data, finetune: 0, volume: 0x40, repeat: None },
            Sample { data: looped, finetune: 0, volume: 0x30, repeat: Some((20, 50)) },
        ],
        periods: vec![PERIODS; 16],
    }
}

fn two_pattern_song() -> Mod {
    let mut p0 = empty_pattern();
    p0[0][0] = Note { sample: Some(0), period: Some(12), ..empty_note() };
    song(vec![0, 1], vec![p0, empty_pattern()])
}

#[test]
fn six_ticks_reach_row_one() {
    let (player, mut state) = PlayerState::new(two_pattern_song(), RATE, true);
    let frames = 6 * (RATE / 50) as usize;
    let mut data = vec![0i32; 2 * frames];
    state.make_samples(&mut data);
    assert_eq!(state.position, 0);
    assert_eq!(state.row, 1);
    assert_eq!(player.get_ticks(), 6);
    assert_eq!(state.channels[0].period, 428);
    assert_eq!(state.channels[0].sample_bytes_per_frame, 741508207);
}

#[test]
fn seventh_tick_plays_next_row() {
    let (player, mut state) = PlayerState::new(two_pattern_song(), RATE, true);
    let frames = 6 * (RATE / 50) as usize + 1;
    let mut data = vec![0i32; 2 * frames];
    state.make_samples(&mut data);
    assert_eq!(state.row, 2);
    assert_eq!(player.get_ticks(), 7);
}

#[test]
fn last_row_moves_to_next_position_and_wraps() {
    let (_player, mut state) = PlayerState::new(two_pattern_song(), RATE, true);
    state.row = 63;
    state.advance_cursor();
    assert_eq!((state.position, state.row), (1, 0));
    state.row = 63;
    state.advance_cursor();
    assert_eq!((state.position, state.row), (0, 0));
}

#[test]
fn pattern_break_and_jump_move_the_cursor() {
    let (_player, mut state) = PlayerState::new(two_pattern_song(), RATE, true);
    state.row = 5;
    state.pattern_break = Some(7);
    state.advance_cursor();
    assert_eq!((state.position, state.row, state.pattern_break), (1, 7, None));
    state.jump = Some(0);
    state.advance_cursor();
    assert_eq!((state.position, state.row, state.jump), (0, 0, None));
    state.jump = Some(9);
    state.row = 3;
    state.advance_cursor();
    assert_eq!((state.position, state.row), (0, 0));
}

#[test]
fn not_started_session_stays_silent() {
    let (player, mut state) = PlayerState::new(two_pattern_song(), RATE, false);
    let mut data = vec![7i32; 8];
    state.make_samples(&mut data);
    assert!(data.iter().all(|&v| v == 0));
    assert_eq!(player.get_ticks(), 0);
    assert_eq!(state.row, 0);
}

#[test]
fn jingle_starts_a_waiting_session() {
    let (player, mut state) = PlayerState::new(two_pattern_song(), RATE, false);
    player.jingle(1, 0, 3, false);
    let mut data = vec![0i32; 2];
    state.make_samples(&mut data);
    assert!(state.started);
    assert_eq!(state.position, 1);
    assert_eq!(state.row, 1);
}

#[test]
fn forced_jingle_overrides_active_jingle() {
    let (player, mut state) = PlayerState::new(song(vec![0, 0, 0, 0, 0], vec![empty_pattern()]), RATE, true);
    player.jingle(1, 2, 10, false);
    let mut data = vec![0i32; 2];
    state.make_samples(&mut data);
    assert_eq!(state.position, 1);
    player.jingle(3, 0, 5, true);
    state.make_samples(&mut data);
    assert_eq!(state.position, 3);
    assert_eq!(state.row, 1);
}

#[test]
fn low_priority_jingle_is_dropped() {
    let (player, mut state) = PlayerState::new(song(vec![0, 0, 0, 0, 0], vec![empty_pattern()]), RATE, true);
    player.jingle(1, 2, 10, false);
    let mut data = vec![0i32; 2];
    state.make_samples(&mut data);
    assert_eq!(state.position, 1);
    player.jingle(4, 0, 5, false);
    state.make_samples(&mut data);
    assert_eq!(state.position, 1);
    assert_eq!(state.row, 1);
    player.jingle(4, 0, 10, false);
    state.make_samples(&mut data);
    assert_eq!(state.position, 4);
}

#[test]
fn song_jump_counts_down_jingle_repeats_then_resumes() {
    let (player, mut state) = PlayerState::new(song(vec![0, 0, 0, 0, 0], vec![empty_pattern()]), RATE, true);
    player.set_music_pos(2);
    player.set_music_prio(1);
    player.jingle(4, 2, 10, false);
    let mut data = vec![0i32; 2];
    state.make_samples(&mut data);
    assert_eq!(state.position, 4);
    state.jump(4);
    assert_eq!(state.jump, Some(4));
    state.jump(4);
    assert_eq!(state.jump, Some(2));
    state.jump = None;
    // The jingle is over: its priority fell back to the base priority.
    player.jingle(3, 0, 1, false);
    state.make_samples(&mut data);
    assert_eq!(state.position, 3);
}

#[test]
fn song_jump_without_jingle_goes_to_its_target() {
    let (_player, mut state) = PlayerState::new(two_pattern_song(), RATE, true);
    state.jump(1);
    assert_eq!(state.jump, Some(1));
}

#[test]
fn jump_target_follows_the_command_word() {
    assert_eq!(jump_target(Err(0), 9), 9);
    assert_eq!(jump_target(Ok(0x0500_0200), 9), 9);
    assert_eq!(jump_target(Ok(0x0500_0100), 9), 5);
}

#[test]
fn one_shot_with_zero_volume_keeps_volume() {
    let (player, mut state) = PlayerState::new(two_pattern_song(), RATE, true);
    player.play_sfx(5, 1, 0x20, 2);
    let mut data = vec![0i32; 2];
    state.make_samples(&mut data);
    assert_eq!(state.channels[2].volume, 0x20);
    // Sample 1's default volume is 0x30; a zero-volume one-shot keeps 0x20.
    player.play_sfx(12, 1, 0, 2);
    state.make_samples(&mut data);
    assert_eq!(state.channels[2].volume, 0x20);
    assert_eq!(state.channels[2].sample, 1);
    assert_eq!(state.channels[2].xperiod, 12);
    assert_eq!(state.channels[2].period, 428);
    assert_eq!(state.channels[2].volume_effect, ChannelVolumeEffect::Off);
    // From the initial full volume, on sample 1 directly.
    player.play_sfx(3, 1, 0, 1);
    state.make_samples(&mut data);
    assert_eq!(state.channels[1].volume, 0x40);
    assert_eq!(state.channels[1].sample, 1);
}

#[test]
fn one_shot_with_volume_sets_it() {
    let (player, mut state) = PlayerState::new(two_pattern_song(), RATE, true);
    player.play_sfx(24, 0, 0x10, 3);
    let mut data = vec![0i32; 2];
    state.make_samples(&mut data);
    assert_eq!(state.channels[3].volume, 0x10);
    assert_eq!(state.channels[3].period, 214);
    assert_eq!(state.channels[3].sample_bytes_per_frame, 1483016415);
}

#[test]
fn one_shot_outside_the_song_is_ignored() {
    let (player, mut state) = PlayerState::new(two_pattern_song(), RATE, true);
    let before = state.channels[1];
    player.play_sfx(12, 9, 0x10, 1);
    let mut data = vec![0i32; 2];
    state.make_samples(&mut data);
    assert_eq!(state.channels[1].sample, before.sample);
    assert_eq!(state.channels[1].period, before.period);
}

#[test]
fn pause_twice_then_resume() {
    let (player, mut state) = PlayerState::new(two_pattern_song(), RATE, true);
    let mut data = vec![0i32; 200];
    state.make_samples(&mut data);
    let (row, left, ticks) = (state.row, state.samples_left, player.get_ticks());
    let pos = state.channels[0].sample_pos;
    player.set_paused(true);
    player.set_paused(true);
    let mut paused = vec![5i32; 200];
    state.make_samples(&mut paused);
    assert!(paused.iter().all(|&v| v == 0));
    assert_eq!((state.row, state.samples_left, player.get_ticks()), (row, left, ticks));
    assert_eq!(state.channels[0].sample_pos, pos);
    player.set_paused(false);
    state.make_samples(&mut data);
    assert_eq!(state.samples_left, left - 100);
    assert!(data.iter().any(|&v| v != 0));
}

#[test]
fn master_volume_scales_and_silences() {
    let (player, mut state) = PlayerState::new(two_pattern_song(), RATE, true);
    state.channels[0].sample_pos = 5u64 << 32;
    let frame = state.mix_frame(0x100);
    assert_eq!(frame, (268435456, 0));
    state.channels[0].sample_pos = 5u64 << 32;
    assert_eq!(state.mix_frame(0x80), (134217728, 0));
    player.set_master_volume(0);
    let mut data = vec![1i32; 400];
    state.make_samples(&mut data);
    assert!(data.iter().all(|&v| v == 0));
}

#[test]
fn negative_bytes_mix_negative() {
    let (_player, mut state) = PlayerState::new(two_pattern_song(), RATE, true);
    state.module.samples[0].data[5] = 0xc0;
    state.channels[0].sample_pos = 5u64 << 32;
    state.channels[3].sample_pos = 5u64 << 32;
    state.channels[3].volume = 0x20;
    assert_eq!(state.mix_frame(0x100), (-268435456, -134217728));
}

#[test]
fn sample_end_gives_silence() {
    let (_player, mut state) = PlayerState::new(two_pattern_song(), RATE, true);
    state.channels[0].sample_pos = 2000u64 << 32;
    state.channels[0].sample_bytes_per_frame = 1 << 32;
    assert_eq!(state.play_channel(0), 0);
    assert_eq!(state.channels[0].sample_pos, 2000u64 << 32);
}

#[test]
fn looping_read_stays_in_loop() {
    let smp = Sample { data: vec![0x10u8; 100], finetune: 0, volume: 0x40, repeat: Some((20, 50)) };
    let mut ch = ChannelState::new();
    ch.sample_bytes_per_frame = (7u64 << 32) + 12345;
    for _ in 0..1000 {
        ch.read(&smp);
        let wrapped = {
            let mut c = ch;
            c.sample_bytes_per_frame = 0;
            c.read(&smp);
            c.sample_pos >> 32
        };
        assert!(wrapped < 70);
    }
    let mut ch = ChannelState::new();
    ch.sample_pos = 95u64 << 32;
    ch.sample_bytes_per_frame = 0;
    assert_eq!(ch.read(&smp), 0x10 * 0x10000 * 0x40);
    assert_eq!(ch.sample_pos, 45u64 << 32);
    ch.sample_pos = (30u64 << 32) + 7;
    ch.read(&smp);
    assert_eq!(ch.sample_pos, (30u64 << 32) + 7);
}

#[test]
fn advance_follows_the_reference_clock() {
    assert_eq!(advance_for(428, RATE), 741508207);
    assert_eq!(advance_for(214, RATE), 1483016415);
    assert_eq!(advance_for(0, RATE), 0);
}

#[test]
fn portamento_reaches_target_without_overshoot() {
    let mut ch = ChannelState::new();
    ch.period = 428;
    ch.tone_effect = ChannelToneEffect::Portamento;
    ch.portamento_target = 400;
    ch.portamento_speed = 8;
    let mut seen = vec![];
    for _ in 0..5 {
        ch.tick(RATE);
        seen.push(ch.period);
    }
    assert_eq!(seen, vec![420, 412, 404, 400, 400]);
    assert_eq!(ch.sample_bytes_per_frame, advance_for(400, RATE));
    ch.portamento_target = 113;
    ch.portamento_speed = 0xff;
    ch.tick(RATE);
    assert_eq!(ch.period, 145);
    ch.tick(RATE);
    assert_eq!(ch.period, 113);
    ch.portamento_target = 856;
    ch.tick(RATE);
    assert_eq!(ch.period, 368);
}

#[test]
fn portamento_without_target_holds() {
    let mut ch = ChannelState::new();
    ch.period = 428;
    ch.tone_effect = ChannelToneEffect::Portamento;
    ch.portamento_speed = 8;
    ch.tick(RATE);
    assert_eq!(ch.period, 428);
    assert_eq!(ch.sample_bytes_per_frame, 0);
}

#[test]
fn volume_slide_clamps() {
    let mut ch = ChannelState::new();
    ch.volume = 0x3e;
    ch.volume_effect = ChannelVolumeEffect::Slide;
    ch.volume_slide_speed = 5;
    ch.tick(RATE);
    assert_eq!(ch.volume, MAX_VOLUME);
    ch.volume_slide_speed = -0x80;
    ch.tick(RATE);
    assert_eq!(ch.volume, 0);
    ch.volume_slide_speed = 0x7f;
    ch.tick(RATE);
    assert_eq!(ch.volume, 0x40);
    ch.volume_slide_speed = -3;
    ch.tick(RATE);
    assert_eq!(ch.volume, 0x3d);
}

#[test]
fn arpeggio_rotates_three_periods() {
    let (_player, mut state) = PlayerState::new(two_pattern_song(), RATE, true);
    let note = Note {
        sample: Some(0),
        period: Some(12),
        tone_effect: ToneEffect::Arpeggio(4, 30),
        ..empty_note()
    };
    state.play_note(0, note);
    assert_eq!(state.channels[0].arpeggio_periods, (339, 113));
    let mut seen = vec![];
    for _ in 0..3 {
        state.play_effects();
        seen.push(state.channels[0].period);
    }
    assert_eq!(seen, vec![113, 339, 428]);
    assert_eq!(state.channels[0].sample_bytes_per_frame, 741508207);
}

#[test]
fn vibrato_moves_pitch_but_not_period() {
    let mut ch = ChannelState::new();
    ch.period = 428;
    ch.tone_effect = ChannelToneEffect::Vibrato;
    ch.vibrato_rate = 0x20;
    ch.vibrato_depth = 8;
    ch.tick(RATE);
    assert_eq!(ch.vibrato_phase, 0x20);
    assert_eq!(ch.sample_bytes_per_frame, advance_for(428, RATE));
    ch.tick(RATE);
    // phase 0x20: table entry 8 (0xb4) * 8 / 128 = 11
    assert_eq!(ch.sample_bytes_per_frame, advance_for(439, RATE));
    assert_eq!(ch.period, 428);
    ch.vibrato_phase = 0xa0;
    ch.tick(RATE);
    assert_eq!(ch.sample_bytes_per_frame, advance_for(417, RATE));
    assert_eq!(ch.vibrato_phase, 0xc0);
}

#[test]
fn retrigger_restarts_every_interval() {
    let (_player, mut state) = PlayerState::new(two_pattern_song(), RATE, true);
    let note = Note {
        sample: Some(0),
        period: Some(12),
        misc_effect: MiscEffect::RetrigNote(3),
        ..empty_note()
    };
    state.play_note(1, note);
    assert_eq!(state.channels[1].tone_effect, ChannelToneEffect::Retrig);
    state.channels[1].sample_pos = 77;
    state.play_effects();
    state.play_effects();
    assert_eq!(state.channels[1].sample_pos, 77);
    state.play_effects();
    assert_eq!(state.channels[1].sample_pos, 0);
}

#[test]
fn note_effects_set_channel_and_sequencer() {
    let (_player, mut state) = PlayerState::new(two_pattern_song(), RATE, true);
    state.play_note(0, Note { sample: Some(1), ..empty_note() });
    assert_eq!(state.channels[0].volume, 0x30);
    state.play_note(0, Note { volume_effect: VolumeEffect::SetVolume(5), ..empty_note() });
    assert_eq!(state.channels[0].volume, 5);
    state.play_note(0, Note { volume_effect: VolumeEffect::Reset, ..empty_note() });
    assert_eq!(state.channels[0].volume, 0x30);
    state.play_note(
        0,
        Note { period: Some(0), misc_effect: MiscEffect::SetSampleOffset(2), ..empty_note() },
    );
    assert_eq!(state.channels[0].sample_pos, 512u64 << 32);
    assert_eq!(state.channels[0].sample_pos_reload, 512u64 << 32);
    state.play_note(0, Note { period: Some(1), ..empty_note() });
    assert_eq!(state.channels[0].sample_pos, 512u64 << 32);
    state.play_note(0, Note { misc_effect: MiscEffect::SetSpeed(3), ..empty_note() });
    assert_eq!((state.speed, state.ticks_left), (3, 2));
    state.play_note(0, Note { misc_effect: MiscEffect::PatternBreak(9), ..empty_note() });
    assert_eq!(state.pattern_break, Some(9));
    state.play_note(
        2,
        Note {
            tone_effect: ToneEffect::Portamento { target: Some(24), speed: Some(6) },
            ..empty_note()
        },
    );
    assert_eq!(state.channels[2].portamento_target, 214);
    assert_eq!(state.channels[2].portamento_speed, 6);
    state.play_note(
        2,
        Note { tone_effect: ToneEffect::Vibrato { rate: Some(3), depth: Some(7) }, ..empty_note() },
    );
    assert_eq!((state.channels[2].vibrato_rate, state.channels[2].vibrato_depth), (12, 7));
}

#[test]
fn song_validity_check() {
    assert!(two_pattern_song().is_valid());
    let mut bad = two_pattern_song();
    bad.positions.push(2);
    assert!(!bad.is_valid());
    let mut bad = two_pattern_song();
    bad.patterns[1][63][2].misc_effect = MiscEffect::PatternBreak(64);
    assert!(!bad.is_valid());
    let mut bad = two_pattern_song();
    bad.samples[1].repeat = Some((60, 50));
    assert!(!bad.is_valid());
    let mut bad = two_pattern_song();
    bad.patterns[0].pop();
    assert!(!bad.is_valid());
    let mut bad = two_pattern_song();
    bad.patterns[0][3][1].sample = Some(2);
    assert!(!bad.is_valid());
}

#[test]
fn portamento_at_target_keeps_the_pitch_it_has() {
    let mut ch = ChannelState::new();
    ch.period = 400;
    ch.sample_bytes_per_frame = 12345;
    ch.tone_effect = ChannelToneEffect::Portamento;
    ch.portamento_target = 400;
    ch.portamento_speed = 4;
    ch.tick(RATE);
    assert_eq!(ch.period, 400);
    assert_eq!(ch.sample_bytes_per_frame, 12345);
}

#[test]
fn frames_count_down_and_restart_ticks() {
    let (player, mut state) = PlayerState::new(two_pattern_song(), RATE, true);
    let mut data = vec![0i32; 2 * 961];
    state.render_frames(0x100, &mut data);
    assert_eq!(state.samples_left, 959);
    assert_eq!(player.get_ticks(), 2);
    let (row, ticks_left) = (state.row, state.ticks_left);
    let mut data = vec![0i32; 2 * 100];
    state.render_frames(0x100, &mut data);
    assert_eq!(state.samples_left, 859);
    assert_eq!((state.row, state.ticks_left), (row, ticks_left));
    assert_eq!(player.get_ticks(), 2);
}
