use pfr::config::{Config, HighScore, Options, ScrollSpeed, TableId};

#[test]
fn default_options() {
    let o = Options::default();
    assert_eq!(o.balls, 3);
    assert!(o.angle_high);
    assert_eq!(o.scroll_speed, ScrollSpeed::Medium);
    assert!(!o.hires && !o.no_music && !o.mono);
}

#[test]
fn options_file_sets_every_option() {
    let o = Options::default().with_file(&vec![1, 1, 0, 1, 1, 1]);
    assert_eq!(o.balls, 5);
    assert!(!o.angle_high);
    assert_eq!(o.scroll_speed, ScrollSpeed::Hard);
    assert!(o.no_music && o.hires && o.mono);
    let o = Options::default().with_file(&vec![0, 0, 2, 0, 0, 0]);
    assert_eq!(o.balls, 3);
    assert!(o.angle_high);
    assert_eq!(o.scroll_speed, ScrollSpeed::Soft);
}

#[test]
fn options_file_of_wrong_length_is_ignored() {
    let o = Options::default().with_file(&vec![1, 1, 0, 1, 1]);
    assert_eq!(o, Options::default());
}

#[test]
fn high_score_digits() {
    let h = HighScore::new(*b"TSP", 50_000_000);
    assert_eq!(h.score, [0, 0, 0, 0, 5, 0, 0, 0, 0, 0, 0, 0]);
    assert_eq!(&h.name, b"TSP");
    assert_eq!(HighScore::new(*b"ABC", 123_456_789_012).score, [1, 2, 3, 4, 5, 6, 7, 8, 9, 0, 1, 2]);
}

#[test]
fn default_high_scores() {
    let c = Config::default();
    assert_eq!(c.options, Options::default());
    assert_eq!(&c.high_scores[1][0].name, b"TSP");
    assert_eq!(c.high_scores[1][0].score, [0, 0, 0, 1, 0, 0, 0, 0, 0, 0, 0, 0]);
    assert_eq!(&c.high_scores[2][3].name, b"ICE");
    assert_eq!(c.high_scores[2][3].score, [0, 0, 0, 0, 0, 5, 0, 0, 0, 0, 0, 0]);
    assert_eq!(&c.high_scores[0][3].name, b"J L");
}

#[test]
fn high_score_file_fills_one_table() {
    let mut c = Config::default();
    let mut hi = vec![0u8; 0x40];
    for i in 0..0x40 {
        hi[i] = i as u8;
    }
    c.apply_high_scores(TableId::Table3, &hi);
    assert_eq!(c.high_scores[2][1].score, [16, 17, 18, 19, 20, 21, 22, 23, 24, 25, 26, 27]);
    assert_eq!(c.high_scores[2][3].name, [60, 61, 62]);
    assert_eq!(c.high_scores[0], Config::default().high_scores[0]);
    let before = c;
    c.apply_high_scores(TableId::Table1, &vec![1u8; 0x3f]);
    assert_eq!(c, before);
}

#[test]
fn options_apply_to_config() {
    let mut c = Config::default();
    c.apply_options(&vec![1, 0, 2, 0, 1, 0]);
    assert_eq!(c.options.balls, 5);
    assert!(c.options.hires);
    assert_eq!(TableId::Table4.index(), 3);
}
