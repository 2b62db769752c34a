//! Game options and high-score tables, and how the game's settings files set them.
use vstd::arithmetic::div_mod::lemma_div_denominator;
use vstd::prelude::*;

verus! {

#[derive(Clone, Copy, PartialEq, Eq, Hash, Debug)]
pub enum Angle {
    Low,
    High,
}

#[derive(Clone, Copy, PartialEq, Eq, Hash, Debug)]
pub enum ScrollSpeed {
    Hard,
    Medium,
    Soft,
}

#[derive(Clone, Copy, PartialEq, Eq, Hash, Debug)]
pub enum TableId {
    Table1,
    Table2,
    Table3,
    Table4,
}

#[derive(Clone, Copy, PartialEq, Eq, Hash, Debug)]
pub struct Options {
    pub balls: u8,
    pub angle_high: bool,
    pub scroll_speed: ScrollSpeed,
    pub hires: bool,
    pub no_music: bool,
    pub mono: bool,
}

/// One high-score entry: twelve decimal digits, most significant first, and three
/// letters of name.
#[derive(Clone, Copy, PartialEq, Eq, Hash, Debug)]
pub struct HighScore {
    pub score: [u8; 12],
    pub name: [u8; 3],
}

#[derive(Clone, Copy, PartialEq, Eq, Hash, Debug)]
pub struct Config {
    pub options: Options,
    /// Four entries per table, indexed by `TableId::index`.
    pub high_scores: [[HighScore; 4]; 4],
}

/// Length of the options file.
pub const OPTIONS_FILE_LEN: usize = 6;

/// Length of a table's high-score file: four entries of 16 bytes.
pub const HIGH_SCORE_FILE_LEN: usize = 0x40;

pub open spec fn pow10(k: nat) -> nat
    decreases k,
{
    if k == 0 {
        1
    } else {
        10 * pow10((k - 1) as nat)
    }
}

/// Decimal digit `k` of `n`, counting from the units.
pub open spec fn decimal_digit(n: nat, k: nat) -> u8 {
    ((n / pow10(k)) % 10) as u8
}

impl TableId {
    pub open spec fn index_spec(self) -> int {
        match self {
            TableId::Table1 => 0,
            TableId::Table2 => 1,
            TableId::Table3 => 2,
            TableId::Table4 => 3,
        }
    }

    /// Row of the high-score tables this table uses.
    pub fn index(&self) -> (r: usize)
        ensures
            r == self.index_spec(),
            r < 4,
    {
        match self {
            TableId::Table1 => 0,
            TableId::Table2 => 1,
            TableId::Table3 => 2,
            TableId::Table4 => 3,
        }
    }
}

impl Options {
    /// Three balls, high angle, medium scrolling, low resolution, music, stereo.
    pub open spec fn initial() -> Options {
        Options {
            balls: 3,
            angle_high: true,
            scroll_speed: ScrollSpeed::Medium,
            hires: false,
            no_music: false,
            mono: false,
        }
    }

    /// The options an options file sets: a file of six bytes sets every option, one
    /// byte each (1 meaning five balls, low angle, no music, high resolution, mono;
    /// scrolling 0 hard, 2 soft, else medium); any other file changes nothing.
    pub open spec fn with_file_spec(self, cfg: Seq<u8>) -> Options {
        if cfg.len() == OPTIONS_FILE_LEN {
            Options {
                balls: if cfg[0] == 1 {
                    5
                } else {
                    3
                },
                angle_high: cfg[1] != 1,
                scroll_speed: if cfg[2] == 0 {
                    ScrollSpeed::Hard
                } else if cfg[2] == 2 {
                    ScrollSpeed::Soft
                } else {
                    ScrollSpeed::Medium
                },
                no_music: cfg[3] == 1,
                hires: cfg[4] == 1,
                mono: cfg[5] == 1,
            }
        } else {
            self
        }
    }

    /// Applies the contents of an options file.
    pub fn with_file(self, cfg: &Vec<u8>) -> (r: Options)
        ensures
            r == self.with_file_spec(cfg@),
    {
        if cfg.len() != OPTIONS_FILE_LEN {
            return self;
        }
        Options {
            balls: if cfg[0] == 1 {
                5
            } else {
                3
            },
            angle_high: cfg[1] != 1,
            scroll_speed: if cfg[2] == 0 {
                ScrollSpeed::Hard
            } else if cfg[2] == 2 {
                ScrollSpeed::Soft
            } else {
                ScrollSpeed::Medium
            },
            no_music: cfg[3] == 1,
            hires: cfg[4] == 1,
            mono: cfg[5] == 1,
        }
    }
}

impl Default for Options {
    fn default() -> (r: Options)
        ensures
            r == Options::initial(),
    {
        Options {
            balls: 3,
            angle_high: true,
            scroll_speed: ScrollSpeed::Medium,
            hires: false,
            no_music: false,
            mono: false,
        }
    }
}

impl HighScore {
    /// The entry shows `name` and the low twelve decimal digits of `score`.
    pub open spec fn shows(self, name: Seq<u8>, score: nat) -> bool {
        &&& self.name@ == name
        &&& forall|j: int| 0 <= j < 12 ==> #[trigger] self.score[j] == decimal_digit(score, (11 - j) as nat)
    }

    /// The entry is entry `i` of a high-score file: 12 score bytes, then 3 name bytes.
    pub open spec fn read_from(self, hi: Seq<u8>, i: int) -> bool {
        &&& self.score@ == hi.subrange(16 * i, 16 * i + 12)
        &&& self.name@ == hi.subrange(16 * i + 12, 16 * i + 15)
    }

    /// An entry for `name` with the low twelve decimal digits of `score`.
    pub fn new(name: [u8; 3], score: u64) -> (r: HighScore)
        ensures
            r.shows(name@, score as nat),
    {
        let mut digits = [0u8; 12];
        let mut n = score;
        let mut j: usize = 12;
        proof {
            assert(pow10(0) == 1);
            assert((12 - j) as nat == 0);
            assert(score as nat / 1 == score as nat) by (nonlinear_arith);
        }
        while j > 0
            invariant
                j <= 12,
                n as nat == score as nat / pow10((12 - j) as nat),
                forall|k: int| j <= k < 12 ==> #[trigger] digits[k] == decimal_digit(
                    score as nat,
                    (11 - k) as nat,
                ),
            decreases j,
        {
            let ghost e = (12 - j) as nat;
            digits[j - 1] = (n % 10) as u8;
            proof {
                assert(pow10(e + 1) == 10 * pow10(e));
                assert(pow10(e) > 0) by {
                    lemma_pow10_positive(e);
                }
                lemma_div_denominator(score as int, pow10(e) as int, 10);
                assert(pow10(e) * 10 == 10 * pow10(e)) by (nonlinear_arith);
            }
            n = n / 10;
            j = j - 1;
        }
        HighScore { score: digits, name }
    }

    /// Reads entry `i` of a high-score file.
    fn read(hi: &Vec<u8>, i: usize) -> (r: HighScore)
        requires
            hi@.len() == HIGH_SCORE_FILE_LEN,
            i < 4,
        ensures
            r.read_from(hi@, i as int),
    {
        let pos = i * 16;
        let mut score = [0u8; 12];
        let mut j: usize = 0;
        while j < 12
            invariant
                j <= 12,
                pos == i * 16,
                hi@.len() == HIGH_SCORE_FILE_LEN,
                i < 4,
                forall|k: int| 0 <= k < j ==> #[trigger] score[k] == hi@[pos + k],
            decreases 12 - j,
        {
            score[j] = hi[pos + j];
            j = j + 1;
        }
        let name = [hi[pos + 12], hi[pos + 13], hi[pos + 14]];
        assert(score@ =~= hi@.subrange(16 * i, 16 * i + 12));
        assert(name@ =~= hi@.subrange(16 * i + 12, 16 * i + 15));
        HighScore { score, name }
    }
}

proof fn lemma_pow10_positive(k: nat)
    ensures
        pow10(k) > 0,
    decreases k,
{
    if k > 0 {
        lemma_pow10_positive((k - 1) as nat);
    }
}

impl Config {
    /// Applies the contents of the options file.
    pub fn apply_options(&mut self, cfg: &Vec<u8>)
        ensures
            final(self).options == old(self).options.with_file_spec(cfg@),
            final(self).high_scores == old(self).high_scores,
    {
        self.options = self.options.with_file(cfg);
    }

    /// Applies the contents of a table's high-score file: a file of 0x40 bytes holds
    /// the table's four entries, 16 bytes each; any other file changes nothing.
    pub fn apply_high_scores(&mut self, table: TableId, hi: &Vec<u8>)
        ensures
            final(self).options == old(self).options,
            forall|t: int|
                0 <= t < 4 && t != table.index_spec() ==> #[trigger] final(self).high_scores[t]
                    == old(self).high_scores[t],
            hi@.len() == HIGH_SCORE_FILE_LEN ==> forall|i: int|
                0 <= i < 4 ==> (#[trigger] final(self).high_scores[table.index_spec()][i]).read_from(
                    hi@,
                    i,
                ),
            hi@.len() != HIGH_SCORE_FILE_LEN ==> final(self).high_scores == old(self).high_scores,
    {
        if hi.len() != HIGH_SCORE_FILE_LEN {
            return;
        }
        let t = table.index();
        let mut entries = self.high_scores[t];
        let mut i: usize = 0;
        while i < 4
            invariant
                i <= 4,
                hi@.len() == HIGH_SCORE_FILE_LEN,
                forall|k: int| 0 <= k < i ==> (#[trigger] entries[k]).read_from(hi@, k),
            decreases 4 - i,
        {
            entries[i] = HighScore::read(hi, i);
            i = i + 1;
        }
        self.high_scores[t] = entries;
    }
}

pub open spec fn name_tsp() -> Seq<u8> {
    seq![0x54u8, 0x53, 0x50]
}

pub open spec fn name_ice() -> Seq<u8> {
    seq![0x49u8, 0x43, 0x45]
}

pub open spec fn name_any() -> Seq<u8> {
    seq![0x41u8, 0x4e, 0x59]
}

pub open spec fn name_jl() -> Seq<u8> {
    seq![0x4au8, 0x20, 0x4c]
}

/// Name and score of entry `i` of table `t` in a fresh configuration.
pub open spec fn default_entry(t: int, i: int) -> (Seq<u8>, nat) {
    if t == 0 {
        if i == 0 {
            (name_tsp(), 50_000_000)
        } else if i == 1 {
            (name_ice(), 25_000_000)
        } else if i == 2 {
            (name_any(), 10_000_000)
        } else {
            (name_jl(), 5_000_000)
        }
    } else if t == 1 {
        if i == 0 {
            (name_tsp(), 100_000_000)
        } else if i == 1 {
            (name_jl(), 50_000_000)
        } else if i == 2 {
            (name_ice(), 25_000_000)
        } else {
            (name_any(), 10_000_000)
        }
    } else if t == 2 {
        if i == 0 {
            (name_tsp(), 50_000_000)
        } else if i == 1 {
            (name_any(), 25_000_000)
        } else if i == 2 {
            (name_jl(), 10_000_000)
        } else {
            (name_ice(), 5_000_000)
        }
    } else {
        if i == 0 {
            (name_tsp(), 100_000_000)
        } else if i == 1 {
            (name_ice(), 50_000_000)
        } else if i == 2 {
            (name_any(), 25_000_000)
        } else {
            (name_jl(), 10_000_000)
        }
    }
}

impl Default for Config {
    /// Default options and the stock high-score tables.
    fn default() -> (r: Config)
        ensures
            r.options == Options::initial(),
            forall|t: int, i: int|
                0 <= t < 4 && 0 <= i < 4 ==> (#[trigger] r.high_scores[t][i]).shows(
                    default_entry(t, i).0,
                    default_entry(t, i).1,
                ),
    {
        let tsp: [u8; 3] = [0x54, 0x53, 0x50];
        let ice: [u8; 3] = [0x49, 0x43, 0x45];
        let any: [u8; 3] = [0x41, 0x4e, 0x59];
        let jl: [u8; 3] = [0x4a, 0x20, 0x4c];
        assert(tsp@ =~= name_tsp());
        assert(ice@ =~= name_ice());
        assert(any@ =~= name_any());
        assert(jl@ =~= name_jl());
        let table1 = [
            HighScore::new(tsp, 50_000_000),
            HighScore::new(ice, 25_000_000),
            HighScore::new(any, 10_000_000),
            HighScore::new(jl, 5_000_000),
        ];
        let table2 = [
            HighScore::new(tsp, 100_000_000),
            HighScore::new(jl, 50_000_000),
            HighScore::new(ice, 25_000_000),
            HighScore::new(any, 10_000_000),
        ];
        let table3 = [
            HighScore::new(tsp, 50_000_000),
            HighScore::new(any, 25_000_000),
            HighScore::new(jl, 10_000_000),
            HighScore::new(ice, 5_000_000),
        ];
        let table4 = [
            HighScore::new(tsp, 100_000_000),
            HighScore::new(ice, 50_000_000),
            HighScore::new(any, 25_000_000),
            HighScore::new(jl, 10_000_000),
        ];
        let r = Config { options: Options::default(), high_scores: [table1, table2, table3, table4] };
        assert forall|t: int, i: int| 0 <= t < 4 && 0 <= i < 4 implies (
        #[trigger] r.high_scores[t][i]).shows(default_entry(t, i).0, default_entry(t, i).1) by {
            if t == 0 {
                assert(r.high_scores[t] == table1);
            } else if t == 1 {
                assert(r.high_scores[t] == table2);
            } else if t == 2 {
                assert(r.high_scores[t] == table3);
            } else {
                assert(r.high_scores[t] == table4);
            }
        }
        r
    }
}

} // verus!
