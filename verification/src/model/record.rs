//! Grades, clear types, volforce and the canonical play record.
use super::music::{Difficulty, Music};
use crate::text::{decimal, decimal_string, digit_char, push_decimal};
use vstd::prelude::*;
use vstd::std_specs::convert::FromSpecImpl;
use vstd::std_specs::ops::AddSpecImpl;

verus! {

/// The grade of a play, ordered from worst to best.
#[derive(Clone, Copy, PartialEq, Eq, Debug, Structural)]
pub enum Grade {
    NoGrade,
    D,
    C,
    B,
    A,
    APlus,
    AA,
    AAPlus,
    AAA,
    AAAPlus,
    S,
}

impl Grade {
    /// The grade that a code of the local save format stands for.
    pub open spec fn of_code(g: u8) -> Grade {
        match g {
            1 => Grade::D,
            2 => Grade::C,
            3 => Grade::B,
            4 => Grade::A,
            5 => Grade::APlus,
            6 => Grade::AA,
            7 => Grade::AAPlus,
            8 => Grade::AAA,
            9 => Grade::AAAPlus,
            10 => Grade::S,
            _ => Grade::NoGrade,
        }
    }

    /// The grade that a code of the server database stands for.
    pub open spec fn of_wide_code(g: u16) -> Grade {
        match g {
            200 => Grade::D,
            300 => Grade::C,
            400 => Grade::B,
            500 => Grade::A,
            550 => Grade::APlus,
            600 => Grade::AA,
            650 => Grade::AAPlus,
            700 => Grade::AAA,
            800 => Grade::AAAPlus,
            900 => Grade::S,
            _ => Grade::NoGrade,
        }
    }

    /// The code of this grade in the local save format.
    pub open spec fn code(self) -> u8 {
        match self {
            Grade::NoGrade => 0,
            Grade::D => 1,
            Grade::C => 2,
            Grade::B => 3,
            Grade::A => 4,
            Grade::APlus => 5,
            Grade::AA => 6,
            Grade::AAPlus => 7,
            Grade::AAA => 8,
            Grade::AAAPlus => 9,
            Grade::S => 10,
        }
    }

    /// The factor with which this grade enters the volforce of a play.
    pub open spec fn vf_coef(self) -> nat {
        match self {
            Grade::NoGrade => 0,
            Grade::D => 80,
            Grade::C => 82,
            Grade::B => 85,
            Grade::A => 88,
            Grade::APlus => 91,
            Grade::AA => 94,
            Grade::AAPlus => 97,
            Grade::AAA => 100,
            Grade::AAAPlus => 102,
            Grade::S => 105,
        }
    }

    /// The name under which this grade is shown.
    pub open spec fn label(self) -> Seq<char> {
        match self {
            Grade::NoGrade => "No Grade"@,
            Grade::D => "D"@,
            Grade::C => "C"@,
            Grade::B => "B"@,
            Grade::A => "A"@,
            Grade::APlus => "A+"@,
            Grade::AA => "AA"@,
            Grade::AAPlus => "AA+"@,
            Grade::AAA => "AAA"@,
            Grade::AAAPlus => "AAA+"@,
            Grade::S => "S"@,
        }
    }

    /// The name under which this grade is shown.
    pub fn to_string(&self) -> (text: String)
        ensures
            text@ == self.label(),
    {
        match *self {
            Grade::NoGrade => "No Grade".to_owned(),
            Grade::D => "D".to_owned(),
            Grade::C => "C".to_owned(),
            Grade::B => "B".to_owned(),
            Grade::A => "A".to_owned(),
            Grade::APlus => "A+".to_owned(),
            Grade::AA => "AA".to_owned(),
            Grade::AAPlus => "AA+".to_owned(),
            Grade::AAA => "AAA".to_owned(),
            Grade::AAAPlus => "AAA+".to_owned(),
            Grade::S => "S".to_owned(),
        }
    }

    pub fn get_vf_coef(&self) -> (coef: u64)
        ensures
            coef == self.vf_coef(),
    {
        match *self {
            Grade::D => 80,
            Grade::C => 82,
            Grade::B => 85,
            Grade::A => 88,
            Grade::APlus => 91,
            Grade::AA => 94,
            Grade::AAPlus => 97,
            Grade::AAA => 100,
            Grade::AAAPlus => 102,
            Grade::S => 105,
            _ => 0,
        }
    }
}

impl From<u8> for Grade {
    fn from(g: u8) -> (grade: Grade) {
        match g {
            1 => Grade::D,
            2 => Grade::C,
            3 => Grade::B,
            4 => Grade::A,
            5 => Grade::APlus,
            6 => Grade::AA,
            7 => Grade::AAPlus,
            8 => Grade::AAA,
            9 => Grade::AAAPlus,
            10 => Grade::S,
            _ => Grade::NoGrade,
        }
    }
}

impl FromSpecImpl<u8> for Grade {
    open spec fn obeys_from_spec() -> bool {
        true
    }

    open spec fn from_spec(g: u8) -> Grade {
        Grade::of_code(g)
    }
}

impl From<u16> for Grade {
    fn from(g: u16) -> (grade: Grade) {
        match g {
            200 => Grade::D,
            300 => Grade::C,
            400 => Grade::B,
            500 => Grade::A,
            550 => Grade::APlus,
            600 => Grade::AA,
            650 => Grade::AAPlus,
            700 => Grade::AAA,
            800 => Grade::AAAPlus,
            900 => Grade::S,
            _ => Grade::NoGrade,
        }
    }
}

impl FromSpecImpl<u16> for Grade {
    open spec fn obeys_from_spec() -> bool {
        true
    }

    open spec fn from_spec(g: u16) -> Grade {
        Grade::of_wide_code(g)
    }
}

impl From<Grade> for u8 {
    fn from(grade: Grade) -> (g: u8) {
        match grade {
            Grade::D => 1,
            Grade::C => 2,
            Grade::B => 3,
            Grade::A => 4,
            Grade::APlus => 5,
            Grade::AA => 6,
            Grade::AAPlus => 7,
            Grade::AAA => 8,
            Grade::AAAPlus => 9,
            Grade::S => 10,
            Grade::NoGrade => 0,
        }
    }
}

impl FromSpecImpl<Grade> for u8 {
    open spec fn obeys_from_spec() -> bool {
        true
    }

    open spec fn from_spec(grade: Grade) -> u8 {
        grade.code()
    }
}

/// How a play ended.
#[derive(Clone, Copy, PartialEq, Eq, Debug, Structural)]
pub enum ClearType {
    NoPlay,
    Played,
    Complete,
    HardComplete,
    UltimateChain,
    PerfectUltimateChain,
}

impl ClearType {
    /// The clear type that a code of the local save format stands for.
    pub open spec fn of_code(t: u8) -> ClearType {
        match t {
            1 => ClearType::Played,
            2 => ClearType::Complete,
            3 => ClearType::HardComplete,
            4 => ClearType::UltimateChain,
            5 => ClearType::PerfectUltimateChain,
            _ => ClearType::NoPlay,
        }
    }

    /// The clear type that a code of the server database stands for.
    pub open spec fn of_wide_code(t: u16) -> ClearType {
        match t {
            100 => ClearType::Played,
            200 => ClearType::Complete,
            300 => ClearType::HardComplete,
            400 => ClearType::UltimateChain,
            500 => ClearType::PerfectUltimateChain,
            _ => ClearType::NoPlay,
        }
    }

    /// The code of this clear type in the local save format.
    pub open spec fn code(self) -> u8 {
        match self {
            ClearType::NoPlay => 0,
            ClearType::Played => 1,
            ClearType::Complete => 2,
            ClearType::HardComplete => 3,
            ClearType::UltimateChain => 4,
            ClearType::PerfectUltimateChain => 5,
        }
    }

    /// The factor with which this clear type enters the volforce of a play.
    pub open spec fn vf_coef(self) -> nat {
        match self {
            ClearType::Complete => 100,
            ClearType::HardComplete => 102,
            ClearType::UltimateChain => 105,
            ClearType::PerfectUltimateChain => 110,
            _ => 50,
        }
    }

    /// The name under which this clear type is shown.
    pub open spec fn label(self) -> Seq<char> {
        match self {
            ClearType::NoPlay => "No Play"@,
            ClearType::Played => "Crash"@,
            ClearType::Complete => "NC"@,
            ClearType::HardComplete => "HC"@,
            ClearType::UltimateChain => "UC"@,
            ClearType::PerfectUltimateChain => "PUC"@,
        }
    }

    /// The name under which this clear type is shown.
    pub fn to_string(&self) -> (text: String)
        ensures
            text@ == self.label(),
    {
        match *self {
            ClearType::NoPlay => "No Play".to_owned(),
            ClearType::Played => "Crash".to_owned(),
            ClearType::Complete => "NC".to_owned(),
            ClearType::HardComplete => "HC".to_owned(),
            ClearType::UltimateChain => "UC".to_owned(),
            ClearType::PerfectUltimateChain => "PUC".to_owned(),
        }
    }

    pub fn get_vf_coef(&self) -> (coef: u64)
        ensures
            coef == self.vf_coef(),
    {
        match *self {
            ClearType::Complete => 100,
            ClearType::HardComplete => 102,
            ClearType::UltimateChain => 105,
            ClearType::PerfectUltimateChain => 110,
            _ => 50,
        }
    }
}

impl From<u8> for ClearType {
    fn from(t: u8) -> (clear: ClearType) {
        match t {
            1 => ClearType::Played,
            2 => ClearType::Complete,
            3 => ClearType::HardComplete,
            4 => ClearType::UltimateChain,
            5 => ClearType::PerfectUltimateChain,
            _ => ClearType::NoPlay,
        }
    }
}

impl FromSpecImpl<u8> for ClearType {
    open spec fn obeys_from_spec() -> bool {
        true
    }

    open spec fn from_spec(t: u8) -> ClearType {
        ClearType::of_code(t)
    }
}

impl From<u16> for ClearType {
    fn from(t: u16) -> (clear: ClearType) {
        match t {
            100 => ClearType::Played,
            200 => ClearType::Complete,
            300 => ClearType::HardComplete,
            400 => ClearType::UltimateChain,
            500 => ClearType::PerfectUltimateChain,
            _ => ClearType::NoPlay,
        }
    }
}

impl FromSpecImpl<u16> for ClearType {
    open spec fn obeys_from_spec() -> bool {
        true
    }

    open spec fn from_spec(t: u16) -> ClearType {
        ClearType::of_wide_code(t)
    }
}

impl From<ClearType> for u8 {
    fn from(clear: ClearType) -> (t: u8) {
        match clear {
            ClearType::NoPlay => 0,
            ClearType::Played => 1,
            ClearType::Complete => 2,
            ClearType::HardComplete => 3,
            ClearType::UltimateChain => 4,
            ClearType::PerfectUltimateChain => 5,
        }
    }
}

impl FromSpecImpl<ClearType> for u8 {
    open spec fn obeys_from_spec() -> bool {
        true
    }

    open spec fn from_spec(clear: ClearType) -> u8 {
        clear.code()
    }
}

/// A volforce in thousandths: the value 12345 reads "12.345".
#[derive(Debug, Clone, Copy, PartialEq, Eq, PartialOrd, Ord, Structural)]
pub struct Volfoce(pub u32);

impl Volfoce {
    pub fn new(vf: u32) -> (volforce: Self)
        ensures
            volforce.0 == vf,
    {
        Self(vf)
    }

    pub fn get_internal(&self) -> (vf: u32)
        ensures
            vf == self.0,
    {
        self.0
    }

    /// This volforce as it is shown: the thousands, a point, and the
    /// thousandths in three digits.
    pub open spec fn text(self) -> Seq<char> {
        let whole = (self.0 / 1000) as nat;
        let rest = (self.0 % 1000) as nat;
        decimal(whole) + seq![
            '.',
            digit_char(rest / 100),
            digit_char(rest / 10 % 10),
            digit_char(rest % 10),
        ]
    }

    /// This volforce as it is shown: 12345 reads "12.345", and 5 "0.005".
    pub fn to_string(&self) -> (text: String)
        ensures
            text@ == self.text(),
    {
        let rest: u64 = (self.0 % 1000) as u64;
        let mut text = decimal_string((self.0 / 1000) as u64);
        text.append(".");
        proof {
            reveal_strlit(".");
            assert("."@ =~= seq!['.']);
        }
        push_decimal(&mut text, rest / 100);
        push_decimal(&mut text, rest / 10 % 10);
        push_decimal(&mut text, rest % 10);
        proof {
            assert(text@ =~= self.text());
        }
        text
    }
}

impl Default for Volfoce {
    fn default() -> (volforce: Self)
        ensures
            volforce.0 == 0,
    {
        Volfoce(0)
    }
}

impl From<u32> for Volfoce {
    fn from(vf: u32) -> (volforce: Volfoce) {
        Self(vf)
    }
}

impl FromSpecImpl<u32> for Volfoce {
    open spec fn obeys_from_spec() -> bool {
        true
    }

    open spec fn from_spec(vf: u32) -> Volfoce {
        Volfoce(vf)
    }
}

/// The volforce of one play, in thousandths: the product of the chart's
/// level, the score and the two factors, divided by 10^8 and rounded down.
pub open spec fn volforce_of(level: u8, score: u32, grade: Grade, clear: ClearType) -> nat {
    (level as nat * score as nat * grade.vf_coef() * clear.vf_coef()) / 100_000_000
}

/// The product under the division of `volforce_of` fits in 64 bits, and the
/// quotient in 32, whatever the level and the score.
pub proof fn lemma_volforce_bounds(level: u8, score: u32, grade: Grade, clear: ClearType)
    ensures
        level as nat * score as nat <= 255 * 0xffff_ffff,
        level as nat * score as nat * grade.vf_coef() <= 255 * 0xffff_ffff * 105,
        level as nat * score as nat * grade.vf_coef() * clear.vf_coef() <= 255 * 0xffff_ffff * 105
            * 110,
        volforce_of(level, score, grade, clear) <= 126_497_524,
{
    let a = level as nat * score as nat;
    let g = grade.vf_coef();
    let c = clear.vf_coef();
    assert(a <= 255 * 0xffff_ffff) by (nonlinear_arith)
        requires
            a == level as nat * score as nat,
            level <= 255,
            score <= 0xffff_ffff,
    ;
    assert(a * g <= 255 * 0xffff_ffff * 105) by (nonlinear_arith)
        requires
            a <= 255 * 0xffff_ffff,
            g <= 105,
    ;
    assert(a * g * c <= 255 * 0xffff_ffff * 105 * 110) by (nonlinear_arith)
        requires
            a * g <= 255 * 0xffff_ffff * 105,
            c <= 110,
    ;
}

/// A play with a higher score on the same chart, with the same grade and
/// clear type, has no lower volforce.
pub proof fn lemma_volforce_monotonic_in_score(
    level: u8,
    low: u32,
    high: u32,
    grade: Grade,
    clear: ClearType,
)
    requires
        low <= high,
    ensures
        volforce_of(level, low, grade, clear) <= volforce_of(level, high, grade, clear),
{
    let k = level as nat * grade.vf_coef() * clear.vf_coef();
    let a = level as nat * low as nat * grade.vf_coef() * clear.vf_coef();
    let b = level as nat * high as nat * grade.vf_coef() * clear.vf_coef();
    assert(a <= b) by (nonlinear_arith)
        requires
            low <= high,
            a == level as nat * low as nat * grade.vf_coef() * clear.vf_coef(),
            b == level as nat * high as nat * grade.vf_coef() * clear.vf_coef(),
    ;
    assert(a / 100_000_000 <= b / 100_000_000) by (nonlinear_arith)
        requires
            a <= b,
    ;
}

/// Computes the volforce of a single play.
pub fn compute_volforce(level: u8, score: u32, grade: Grade, clear: ClearType) -> (volforce:
    Volfoce)
    ensures
        volforce.0 == volforce_of(level, score, grade, clear),
{
    proof {
        lemma_volforce_bounds(level, score, grade, clear);
    }
    let base: u64 = level as u64 * score as u64;
    let graded: u64 = base * grade.get_vf_coef();
    let cleared: u64 = graded * clear.get_vf_coef();
    let thousandths: u64 = cleared / 100_000_000;
    Volfoce(thousandths as u32)
}

/// What a play record holds, with the name as a sequence of characters.
pub struct FullRecordView {
    pub music_id: u16,
    pub music_name: Seq<char>,
    pub difficulty: Difficulty,
    pub level: u8,
    pub score: u32,
    pub grade: Grade,
    pub clear_type: ClearType,
    pub volfoce: Volfoce,
}

/// The canonical record of one play: the chart, resolved against the
/// catalog, the result of the play and its volforce.
#[derive(Debug)]
pub struct FullRecord {
    pub music_id: u16,
    pub music_name: String,
    pub difficulty: Difficulty,
    pub level: u8,
    pub score: u32,
    pub grade: Grade,
    pub clear_type: ClearType,
    pub volfoce: Volfoce,
}

impl View for FullRecord {
    type V = FullRecordView;

    open spec fn view(&self) -> FullRecordView {
        FullRecordView {
            music_id: self.music_id,
            music_name: self.music_name@,
            difficulty: self.difficulty,
            level: self.level,
            score: self.score,
            grade: self.grade,
            clear_type: self.clear_type,
            volfoce: self.volfoce,
        }
    }
}

/// The views of a sequence of records, in the same order.
pub open spec fn record_views(records: Seq<FullRecord>) -> Seq<FullRecordView> {
    Seq::new(records.len(), |i: int| records[i]@)
}

impl Clone for FullRecord {
    fn clone(&self) -> (copy: Self)
        ensures
            copy == *self,
    {
        FullRecord {
            music_id: self.music_id,
            music_name: self.music_name.clone(),
            difficulty: self.difficulty,
            level: self.level,
            score: self.score,
            grade: self.grade,
            clear_type: self.clear_type,
            volfoce: self.volfoce,
        }
    }
}

impl FullRecord {
    pub fn get_music_id(&self) -> (music_id: u16)
        ensures
            music_id == self.music_id,
    {
        self.music_id
    }

    pub fn get_music_name_str(&self) -> (name: &str)
        ensures
            name@ == self.music_name@,
    {
        self.music_name.as_str()
    }

    pub fn get_score(&self) -> (score: u32)
        ensures
            score == self.score,
    {
        self.score
    }

    pub fn get_difficulty(&self) -> (difficulty: Difficulty)
        ensures
            difficulty == self.difficulty,
    {
        self.difficulty
    }

    pub fn get_level(&self) -> (level: u8)
        ensures
            level == self.level,
    {
        self.level
    }

    pub fn get_clear_type(&self) -> (clear_type: ClearType)
        ensures
            clear_type == self.clear_type,
    {
        self.clear_type
    }

    pub fn get_grade(&self) -> (grade: Grade)
        ensures
            grade == self.grade,
    {
        self.grade
    }

    pub fn get_volforce(&self) -> (volforce: Volfoce)
        ensures
            volforce == self.volfoce,
    {
        self.volfoce
    }
}

/// The canonical record of a play: the score, grade and clear type as they
/// are, the chart's name, difficulty and level as the catalog entry `music`
/// gives them, and the volforce that follows.
///
/// Without a catalog entry the name is "(NOT FOUND)", the difficulty
/// `Unknown` and the level 0, so that the volforce is 0 too.
pub open spec fn canonical_record(
    music_id: u16,
    music_type: u8,
    score: u32,
    grade: Grade,
    clear_type: ClearType,
    music: Option<Music>,
) -> FullRecordView {
    let level = match music {
        Some(m) => m.level_of(Difficulty::of_code(music_type)),
        None => 0,
    };
    FullRecordView {
        music_id,
        music_name: match music {
            Some(m) => m.info.name@,
            None => "(NOT FOUND)"@,
        },
        difficulty: match music {
            Some(m) => Difficulty::of_code(music_type).refined(m.info.inf_ver),
            None => Difficulty::Unknown,
        },
        level,
        score,
        grade,
        clear_type,
        volfoce: Volfoce(volforce_of(level, score, grade, clear_type) as u32),
    }
}

/// Builds the canonical record of a play from the fields of a score event
/// and the catalog entry of its music, if the catalog has one.
pub fn build_record(
    music_id: u16,
    music_type: u8,
    score: u32,
    grade: Grade,
    clear_type: ClearType,
    music: Option<&Music>,
) -> (record: FullRecord)
    ensures
        record@ == canonical_record(
            music_id,
            music_type,
            score,
            grade,
            clear_type,
            match music {
                Some(m) => Some(*m),
                None => None,
            },
        ),
{
    let mut record = FullRecord {
        music_id,
        music_name: "(NOT FOUND)".to_owned(),
        difficulty: Difficulty::Unknown,
        level: 0,
        score,
        grade,
        clear_type,
        volfoce: Volfoce::default(),
    };
    if let Some(m) = music {
        record.music_name = m.get_name();
        record.difficulty = Difficulty::from(music_type).inf_ver(m.get_inf_ver());
        record.level = m.get_level(music_type);
    }
    record.volfoce = compute_volforce(record.level, record.score, record.grade, record.clear_type);
    proof {
        lemma_volforce_bounds(record.level, record.score, record.grade, record.clear_type);
    }
    record
}

/// The tally of one level: how many of the counted plays reached each of the
/// three highest grades and each of the four clears, and how many there are.
#[derive(Clone, Copy, Debug, PartialEq, Eq, Structural)]
pub struct LevelStat {
    pub level: u8,
    /// S
    pub s_num: u16,
    /// AAA+
    pub tap_num: u16,
    /// AAA
    pub ta_num: u16,
    /// Complete
    pub nc_num: u16,
    /// Hard complete
    pub hc_num: u16,
    /// Ultimate chain
    pub uc_num: u16,
    /// Perfect ultimate chain
    pub puc_num: u16,
    /// All plays at the level
    pub played: u16,
}

impl LevelStat {
    /// The sum of two tallies field by field, under the level of the first.
    pub open spec fn plus(self, rhs: LevelStat) -> LevelStat
        recommends
            self.can_add(rhs),
    {
        LevelStat {
            level: self.level,
            s_num: (self.s_num + rhs.s_num) as u16,
            tap_num: (self.tap_num + rhs.tap_num) as u16,
            ta_num: (self.ta_num + rhs.ta_num) as u16,
            nc_num: (self.nc_num + rhs.nc_num) as u16,
            hc_num: (self.hc_num + rhs.hc_num) as u16,
            uc_num: (self.uc_num + rhs.uc_num) as u16,
            puc_num: (self.puc_num + rhs.puc_num) as u16,
            played: (self.played + rhs.played) as u16,
        }
    }

    /// No field of the sum of the two tallies leaves the range of its type.
    pub open spec fn can_add(self, rhs: LevelStat) -> bool {
        &&& self.s_num + rhs.s_num <= u16::MAX
        &&& self.tap_num + rhs.tap_num <= u16::MAX
        &&& self.ta_num + rhs.ta_num <= u16::MAX
        &&& self.nc_num + rhs.nc_num <= u16::MAX
        &&& self.hc_num + rhs.hc_num <= u16::MAX
        &&& self.uc_num + rhs.uc_num <= u16::MAX
        &&& self.puc_num + rhs.puc_num <= u16::MAX
        &&& self.played + rhs.played <= u16::MAX
    }

    pub fn new(
        level: u8,
        s_num: u16,
        tap_num: u16,
        ta_num: u16,
        nc_num: u16,
        hc_num: u16,
        uc_num: u16,
        puc_num: u16,
        played: u16,
    ) -> (stat: Self)
        ensures
            stat == (LevelStat {
                level,
                s_num,
                tap_num,
                ta_num,
                nc_num,
                hc_num,
                uc_num,
                puc_num,
                played,
            }),
    {
        Self { level, s_num, tap_num, ta_num, nc_num, hc_num, uc_num, puc_num, played }
    }

    pub fn get_level(&self) -> (level: u8)
        ensures
            level == self.level,
    {
        self.level
    }

    pub fn level(&self) -> (level: &u8)
        ensures
            *level == self.level,
    {
        &self.level
    }

    pub fn s_num(&self) -> (s_num: &u16)
        ensures
            *s_num == self.s_num,
    {
        &self.s_num
    }

    pub fn tap_num(&self) -> (tap_num: &u16)
        ensures
            *tap_num == self.tap_num,
    {
        &self.tap_num
    }

    pub fn ta_num(&self) -> (ta_num: &u16)
        ensures
            *ta_num == self.ta_num,
    {
        &self.ta_num
    }

    pub fn nc_num(&self) -> (nc_num: &u16)
        ensures
            *nc_num == self.nc_num,
    {
        &self.nc_num
    }

    pub fn hc_num(&self) -> (hc_num: &u16)
        ensures
            *hc_num == self.hc_num,
    {
        &self.hc_num
    }

    pub fn uc_num(&self) -> (uc_num: &u16)
        ensures
            *uc_num == self.uc_num,
    {
        &self.uc_num
    }

    pub fn puc_num(&self) -> (puc_num: &u16)
        ensures
            *puc_num == self.puc_num,
    {
        &self.puc_num
    }

    pub fn played(&self) -> (played: &u16)
        ensures
            *played == self.played,
    {
        &self.played
    }

    pub fn incr_s_num(&mut self, add: u16)
        requires
            old(self).s_num + add <= u16::MAX,
        ensures
            *final(self) == (LevelStat { s_num: (old(self).s_num + add) as u16, ..*old(self) }),
    {
        self.s_num += add;
    }

    pub fn incr_tap_num(&mut self, add: u16)
        requires
            old(self).tap_num + add <= u16::MAX,
        ensures
            *final(self) == (LevelStat { tap_num: (old(self).tap_num + add) as u16, ..*old(self) }),
    {
        self.tap_num += add;
    }

    pub fn incr_ta_num(&mut self, add: u16)
        requires
            old(self).ta_num + add <= u16::MAX,
        ensures
            *final(self) == (LevelStat { ta_num: (old(self).ta_num + add) as u16, ..*old(self) }),
    {
        self.ta_num += add;
    }

    pub fn incr_nc_num(&mut self, add: u16)
        requires
            old(self).nc_num + add <= u16::MAX,
        ensures
            *final(self) == (LevelStat { nc_num: (old(self).nc_num + add) as u16, ..*old(self) }),
    {
        self.nc_num += add;
    }

    pub fn incr_hc_num(&mut self, add: u16)
        requires
            old(self).hc_num + add <= u16::MAX,
        ensures
            *final(self) == (LevelStat { hc_num: (old(self).hc_num + add) as u16, ..*old(self) }),
    {
        self.hc_num += add;
    }

    pub fn incr_uc_num(&mut self, add: u16)
        requires
            old(self).uc_num + add <= u16::MAX,
        ensures
            *final(self) == (LevelStat { uc_num: (old(self).uc_num + add) as u16, ..*old(self) }),
    {
        self.uc_num += add;
    }

    pub fn incr_puc_num(&mut self, add: u16)
        requires
            old(self).puc_num + add <= u16::MAX,
        ensures
            *final(self) == (LevelStat { puc_num: (old(self).puc_num + add) as u16, ..*old(self) }),
    {
        self.puc_num += add;
    }
}

impl std::ops::Add<LevelStat> for LevelStat {
    type Output = LevelStat;

    fn add(self, rhs: LevelStat) -> (sum: LevelStat) {
        LevelStat {
            level: self.level,
            s_num: self.s_num + rhs.s_num,
            tap_num: self.tap_num + rhs.tap_num,
            ta_num: self.ta_num + rhs.ta_num,
            nc_num: self.nc_num + rhs.nc_num,
            hc_num: self.hc_num + rhs.hc_num,
            uc_num: self.uc_num + rhs.uc_num,
            puc_num: self.puc_num + rhs.puc_num,
            played: self.played + rhs.played,
        }
    }
}

impl AddSpecImpl<LevelStat> for LevelStat {
    open spec fn obeys_add_spec() -> bool {
        true
    }

    open spec fn add_req(self, rhs: LevelStat) -> bool {
        self.can_add(rhs)
    }

    open spec fn add_spec(self, rhs: LevelStat) -> LevelStat {
        self.plus(rhs)
    }
}

} // verus!
