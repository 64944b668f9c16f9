//! Charts of the music catalog and their difficulties.
use vstd::prelude::*;
use vstd::std_specs::convert::FromSpecImpl;
use vstd::std_specs::convert::IntoSpec;

verus! {

/// The difficulty of a chart.
///
/// A catalog entry has five chart slots. `Gravity`, `Heaven` and `Vivid` are
/// names under which the `Infinite` slot appears, chosen by the version byte
/// of the entry.
#[derive(Clone, Copy, PartialEq, Eq, Debug, Structural)]
pub enum Difficulty {
    Unknown,
    Novice,
    Advanced,
    Exhaust,
    Infinite,
    Gravity,
    Heaven,
    Vivid,
    Maximum,
}

impl Difficulty {
    /// The difficulty that the slot code of a score event stands for.
    pub open spec fn of_code(d: u8) -> Difficulty {
        match d {
            0 => Difficulty::Novice,
            1 => Difficulty::Advanced,
            2 => Difficulty::Exhaust,
            3 => Difficulty::Infinite,
            4 => Difficulty::Maximum,
            _ => Difficulty::Unknown,
        }
    }

    /// The slot code under which this difficulty is stored.
    pub open spec fn code(self) -> u8 {
        match self {
            Difficulty::Novice => 0,
            Difficulty::Advanced => 1,
            Difficulty::Exhaust => 2,
            Difficulty::Infinite => 3,
            Difficulty::Maximum => 4,
            _ => 0,
        }
    }

    /// This difficulty as it is named for a catalog entry with version byte
    /// `inf_ver`: only `Infinite` is ever renamed.
    pub open spec fn refined(self, inf_ver: u8) -> Difficulty {
        if self == Difficulty::Infinite {
            match inf_ver {
                3 => Difficulty::Gravity,
                4 => Difficulty::Heaven,
                5 => Difficulty::Vivid,
                _ => self,
            }
        } else {
            self
        }
    }

    /// The position of this difficulty in the order of the declaration.
    pub open spec fn ordinal(self) -> nat {
        match self {
            Difficulty::Unknown => 0,
            Difficulty::Novice => 1,
            Difficulty::Advanced => 2,
            Difficulty::Exhaust => 3,
            Difficulty::Infinite => 4,
            Difficulty::Gravity => 5,
            Difficulty::Heaven => 6,
            Difficulty::Vivid => 7,
            Difficulty::Maximum => 8,
        }
    }

    /// The name under which this difficulty is shown.
    pub open spec fn label(self) -> Seq<char> {
        match self {
            Difficulty::Novice => "NOV"@,
            Difficulty::Advanced => "ADV"@,
            Difficulty::Exhaust => "EXH"@,
            Difficulty::Infinite => "INF"@,
            Difficulty::Gravity => "GRV"@,
            Difficulty::Heaven => "HVN"@,
            Difficulty::Vivid => "VVD"@,
            Difficulty::Maximum => "MXM"@,
            Difficulty::Unknown => "UNKNOWN"@,
        }
    }

    /// The name under which this difficulty is shown.
    pub fn to_string(&self) -> (text: String)
        ensures
            text@ == self.label(),
    {
        match *self {
            Difficulty::Novice => "NOV".to_owned(),
            Difficulty::Advanced => "ADV".to_owned(),
            Difficulty::Exhaust => "EXH".to_owned(),
            Difficulty::Infinite => "INF".to_owned(),
            Difficulty::Gravity => "GRV".to_owned(),
            Difficulty::Heaven => "HVN".to_owned(),
            Difficulty::Vivid => "VVD".to_owned(),
            Difficulty::Maximum => "MXM".to_owned(),
            Difficulty::Unknown => "UNKNOWN".to_owned(),
        }
    }

    pub fn inf_ver(&self, inf_ver: u8) -> (refined: Self)
        ensures
            refined == self.refined(inf_ver),
    {
        if *self == Difficulty::Infinite {
            match inf_ver {
                3 => Difficulty::Gravity,
                4 => Difficulty::Heaven,
                5 => Difficulty::Vivid,
                _ => *self,
            }
        } else {
            *self
        }
    }

    /// The position of this difficulty in the order of the declaration.
    pub fn get_ordinal(&self) -> (ordinal: u8)
        ensures
            ordinal == self.ordinal(),
    {
        match *self {
            Difficulty::Unknown => 0,
            Difficulty::Novice => 1,
            Difficulty::Advanced => 2,
            Difficulty::Exhaust => 3,
            Difficulty::Infinite => 4,
            Difficulty::Gravity => 5,
            Difficulty::Heaven => 6,
            Difficulty::Vivid => 7,
            Difficulty::Maximum => 8,
        }
    }
}

/// Two difficulties with the same ordinal are the same difficulty.
pub proof fn lemma_ordinal_injective(a: Difficulty, b: Difficulty)
    ensures
        a.ordinal() == b.ordinal() <==> a == b,
{
}

impl From<u8> for Difficulty {
    fn from(d: u8) -> (difficulty: Difficulty) {
        match d {
            0 => Difficulty::Novice,
            1 => Difficulty::Advanced,
            2 => Difficulty::Exhaust,
            3 => Difficulty::Infinite,
            4 => Difficulty::Maximum,
            _ => Difficulty::Unknown,
        }
    }
}

impl FromSpecImpl<u8> for Difficulty {
    open spec fn obeys_from_spec() -> bool {
        true
    }

    open spec fn from_spec(d: u8) -> Difficulty {
        Difficulty::of_code(d)
    }
}

impl From<Difficulty> for u8 {
    fn from(difficulty: Difficulty) -> (d: u8) {
        match difficulty {
            Difficulty::Novice => 0,
            Difficulty::Advanced => 1,
            Difficulty::Exhaust => 2,
            Difficulty::Infinite => 3,
            Difficulty::Maximum => 4,
            _ => 0,
        }
    }
}

impl FromSpecImpl<Difficulty> for u8 {
    open spec fn obeys_from_spec() -> bool {
        true
    }

    open spec fn from_spec(difficulty: Difficulty) -> u8 {
        difficulty.code()
    }
}

/// The level of one chart; 0 where the chart does not exist.
#[derive(Debug, PartialEq, Clone, Copy)]
pub struct DiffInfo {
    pub level: u8,
}

impl Default for DiffInfo {
    fn default() -> (info: Self)
        ensures
            info.level == 0,
    {
        DiffInfo { level: 0 }
    }
}

/// The five chart slots of a catalog entry.
#[derive(Debug, PartialEq, Clone, Copy)]
pub struct MusicDiffculty {
    pub novice: DiffInfo,
    pub advanced: DiffInfo,
    pub exhaust: DiffInfo,
    pub infinite: DiffInfo,
    pub maximum: DiffInfo,
}

impl Default for MusicDiffculty {
    fn default() -> (slots: Self)
        ensures
            slots.novice.level == 0,
            slots.advanced.level == 0,
            slots.exhaust.level == 0,
            slots.infinite.level == 0,
            slots.maximum.level == 0,
    {
        MusicDiffculty {
            novice: DiffInfo { level: 0 },
            advanced: DiffInfo { level: 0 },
            exhaust: DiffInfo { level: 0 },
            infinite: DiffInfo { level: 0 },
            maximum: DiffInfo { level: 0 },
        }
    }
}

/// The title of a catalog entry and the version byte that names its
/// `Infinite` slot.
#[derive(Debug, PartialEq)]
pub struct MusicInfo {
    pub name: String,
    pub inf_ver: u8,
}

impl Clone for MusicInfo {
    fn clone(&self) -> (copy: Self)
        ensures
            copy == *self,
    {
        MusicInfo { name: self.name.clone(), inf_ver: self.inf_ver }
    }
}

impl Default for MusicInfo {
    fn default() -> (info: Self)
        ensures
            info.name@ == Seq::<char>::empty(),
            info.inf_ver == 0,
    {
        MusicInfo { name: String::new(), inf_ver: 0 }
    }
}

/// One entry of the music catalog.
#[derive(Debug, PartialEq)]
pub struct Music {
    pub id: u16,
    pub info: MusicInfo,
    pub difficulty: MusicDiffculty,
}

impl Music {
    /// The level of the chart in the slot that `d` names; 0 for `Unknown`.
    pub open spec fn level_of(self, d: Difficulty) -> u8 {
        match d {
            Difficulty::Novice => self.difficulty.novice.level,
            Difficulty::Advanced => self.difficulty.advanced.level,
            Difficulty::Exhaust => self.difficulty.exhaust.level,
            Difficulty::Maximum => self.difficulty.maximum.level,
            Difficulty::Unknown => 0,
            _ => self.difficulty.infinite.level,
        }
    }

    /// Some slot of this entry has the level `level`.
    pub open spec fn spec_has_level(&self, level: u8) -> bool {
        ||| self.difficulty.novice.level == level
        ||| self.difficulty.advanced.level == level
        ||| self.difficulty.exhaust.level == level
        ||| self.difficulty.infinite.level == level
        ||| self.difficulty.maximum.level == level
    }

    pub fn get_id(&self) -> (id: u16)
        ensures
            id == self.id,
    {
        self.id
    }

    pub fn get_name(&self) -> (name: String)
        ensures
            name == self.info.name,
    {
        self.info.name.clone()
    }

    pub fn get_inf_ver(&self) -> (inf_ver: u8)
        ensures
            inf_ver == self.info.inf_ver,
    {
        self.info.inf_ver
    }

    /// The level of the chart in the slot that `d` converts to.
    pub fn get_level<D: Into<Difficulty>>(&self, d: D) -> (level: u8)
        ensures
            D::obeys_into_spec() ==> level == self.level_of(d.into_spec()),
    {
        self.get_level_of(d.into())
    }

    /// The level of the chart in the slot that `d` names; 0 for `Unknown`.
    pub fn get_level_of(&self, d: Difficulty) -> (level: u8)
        ensures
            level == self.level_of(d),
    {
        match d {
            Difficulty::Novice => self.difficulty.novice.level,
            Difficulty::Advanced => self.difficulty.advanced.level,
            Difficulty::Exhaust => self.difficulty.exhaust.level,
            Difficulty::Maximum => self.difficulty.maximum.level,
            Difficulty::Unknown => 0,
            _ => self.difficulty.infinite.level,
        }
    }

    #[verifier::when_used_as_spec(spec_has_level)]
    pub fn has_level(&self, level: u8) -> (found: bool)
        ensures
            found == self.spec_has_level(level),
    {
        self.difficulty.novice.level == level || self.difficulty.advanced.level == level
            || self.difficulty.exhaust.level == level || self.difficulty.infinite.level == level
            || self.difficulty.maximum.level == level
    }
}

impl Clone for Music {
    fn clone(&self) -> (copy: Self)
        ensures
            copy == *self,
    {
        Music { id: self.id, info: self.info.clone(), difficulty: self.difficulty }
    }
}

impl Default for Music {
    fn default() -> (music: Self)
        ensures
            music.id == 0,
            music.info.name@ == Seq::<char>::empty(),
            music.info.inf_ver == 0,
            forall|d: Difficulty| music.level_of(d) == 0,
    {
        Music { id: 0, info: MusicInfo::default(), difficulty: MusicDiffculty::default() }
    }
}

} // verus!
