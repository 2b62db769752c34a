use pfr::control::{next_word, sfx_word, WordUpdate};

#[test]
fn jingle_word_sets_its_fields() {
    let w = 0x1234_5000u32;
    let n = next_word(WordUpdate::Jingle { pos: 0x33, repeat: 7, priority: 0x21, force: false }, 0)
        .unwrap();
    assert_eq!(n, 0x33 | 0x80 | 7 << 8 | 0x21 << 12);
    let n = next_word(WordUpdate::Jingle { pos: 2, repeat: 1, priority: 5, force: true }, w).unwrap();
    assert_eq!(n & 0x7f, 2);
    assert_eq!(n & 0x80, 0x80);
    assert_eq!(n >> 8 & 0xf, 1);
    assert_eq!(n >> 12 & 0x3f, 5);
    assert_eq!(n & 0xfffc_0000, w & 0xfffc_0000);
}

#[test]
fn jingle_word_respects_priority() {
    let active = 9u32 << 12;
    assert_eq!(
        next_word(WordUpdate::Jingle { pos: 1, repeat: 0, priority: 8, force: false }, active),
        None
    );
    assert!(next_word(WordUpdate::Jingle { pos: 1, repeat: 0, priority: 9, force: false }, active)
        .is_some());
    assert!(next_word(WordUpdate::Jingle { pos: 1, repeat: 0, priority: 0, force: true }, active)
        .is_some());
}

#[test]
fn resume_and_base_priority_words() {
    let w = 0x00ff_ffffu32;
    assert_eq!(next_word(WordUpdate::ResumePosition(0x45), w), Some(0x4500_0000 | w));
    assert_eq!(next_word(WordUpdate::BasePriority(3), 0xffff_ffff), Some(0xff0f_ffff));
}

#[test]
fn take_jump_clears_pending_only() {
    assert_eq!(next_word(WordUpdate::TakeJump, 0x1234_0085), Some(0x1234_0005));
    assert_eq!(next_word(WordUpdate::TakeJump, 0x1234_0005), None);
}

#[test]
fn position_jump_counts_repeats() {
    let base = 0x0700_0000 | 4 << 18 | 9 << 12;
    assert_eq!(next_word(WordUpdate::PositionJump, base), None);
    assert_eq!(next_word(WordUpdate::PositionJump, base | 0x80 | 3 << 8), None);
    assert_eq!(next_word(WordUpdate::PositionJump, base | 3 << 8), Some(base | 2 << 8));
    assert_eq!(
        next_word(WordUpdate::PositionJump, base | 1 << 8),
        Some(0x0700_0000 | 4 << 18 | 4 << 12)
    );
}

#[test]
fn state_word_fields_are_independent() {
    let paused = next_word(WordUpdate::Paused(true), 0x100).unwrap();
    assert_eq!(paused, 0x300);
    assert_eq!(next_word(WordUpdate::Paused(true), paused), Some(paused));
    assert_eq!(next_word(WordUpdate::MasterVolume(0x40), paused), Some(0x240));
    assert_eq!(next_word(WordUpdate::Paused(false), 0x240), Some(0x40));
}

#[test]
fn one_shot_word_layout() {
    assert_eq!(sfx_word(0x11, 0x22, 0x33, 2), 0x0233_2211);
}

#[test]
fn updates_keep_bit_31() {
    let w = 0x8000_0000u32;
    let j = next_word(WordUpdate::Jingle { pos: 3, repeat: 0, priority: 4, force: true }, w | 0xa285);
    assert_eq!(j, Some(0x8000_4083));
    assert_eq!(next_word(WordUpdate::Jingle { pos: 3, repeat: 0, priority: 4, force: true }, 0xa285), Some(0x4083));
    assert_eq!(next_word(WordUpdate::Jingle { pos: 3, repeat: 0, priority: 4, force: false }, 0xa285), None);
    assert_eq!(next_word(WordUpdate::ResumePosition(0x7f), w), Some(0xff00_0000));
    assert_eq!(next_word(WordUpdate::BasePriority(0x3f), w), Some(0x80fc_0000));
    assert_eq!(next_word(WordUpdate::TakeJump, 0x4083), Some(0x4003));
    assert_eq!(next_word(WordUpdate::MasterVolume(0x80), 0xffff_fe00), Some(0xffff_fe80));
}
