use vstd::prelude::*;

verus! {

/// The animation modes of monsters and hirelings.
#[derive(Debug, Clone, Copy, PartialEq, Eq, Structural)]
pub enum NpcUnitMode {
    Death,
    Stand,
    Walk,
    BeingHit,
    Attack1,
    Attack2,
    Block,
    Cast,
    UseSkill1,
    UseSkill2,
    UseSkill3,
    UseSkill4,
    Dead,
    KnockedBack,
    Sequence,
    Run,
}

impl NpcUnitMode {
    /// The game's number for the mode.
    pub open spec fn spec_code(self) -> u32 {
        match self {
            NpcUnitMode::Death => 0,
            NpcUnitMode::Stand => 1,
            NpcUnitMode::Walk => 2,
            NpcUnitMode::BeingHit => 3,
            NpcUnitMode::Attack1 => 4,
            NpcUnitMode::Attack2 => 5,
            NpcUnitMode::Block => 6,
            NpcUnitMode::Cast => 7,
            NpcUnitMode::UseSkill1 => 8,
            NpcUnitMode::UseSkill2 => 9,
            NpcUnitMode::UseSkill3 => 10,
            NpcUnitMode::UseSkill4 => 11,
            NpcUnitMode::Dead => 12,
            NpcUnitMode::KnockedBack => 13,
            NpcUnitMode::Sequence => 14,
            NpcUnitMode::Run => 15,
        }
    }

    /// The game's number for the mode.
    pub fn code(self) -> (res: u32)
        ensures
            res == self.spec_code(),
    {
        match self {
            NpcUnitMode::Death => 0,
            NpcUnitMode::Stand => 1,
            NpcUnitMode::Walk => 2,
            NpcUnitMode::BeingHit => 3,
            NpcUnitMode::Attack1 => 4,
            NpcUnitMode::Attack2 => 5,
            NpcUnitMode::Block => 6,
            NpcUnitMode::Cast => 7,
            NpcUnitMode::UseSkill1 => 8,
            NpcUnitMode::UseSkill2 => 9,
            NpcUnitMode::UseSkill3 => 10,
            NpcUnitMode::UseSkill4 => 11,
            NpcUnitMode::Dead => 12,
            NpcUnitMode::KnockedBack => 13,
            NpcUnitMode::Sequence => 14,
            NpcUnitMode::Run => 15,
        }
    }
}

/// The kinds of units in a game.
#[derive(Debug, Clone, Copy, PartialEq, Eq, Structural)]
pub enum UnitType {
    Player,
    Monster,
    Object,
    Missile,
    Item,
    Tile,
    Exit,
    Xy,
}

impl UnitType {
    /// The game's number for the kind.
    pub open spec fn spec_code(self) -> u32 {
        match self {
            UnitType::Player => 0,
            UnitType::Monster => 1,
            UnitType::Object => 2,
            UnitType::Missile => 3,
            UnitType::Item => 4,
            UnitType::Tile => 5,
            UnitType::Exit => 6,
            UnitType::Xy => 7,
        }
    }

    /// The game's number for the kind.
    pub fn code(self) -> (res: u32)
        ensures
            res == self.spec_code(),
    {
        match self {
            UnitType::Player => 0,
            UnitType::Monster => 1,
            UnitType::Object => 2,
            UnitType::Missile => 3,
            UnitType::Item => 4,
            UnitType::Tile => 5,
            UnitType::Exit => 6,
            UnitType::Xy => 7,
        }
    }
}

/// The character classes.
#[derive(Debug, Clone, Copy, PartialEq, Eq, Structural)]
pub enum PlayerClass {
    Amazon,
    Sorceress,
    Necromancer,
    Paladin,
    Barbarian,
    Druid,
    Assassin,
}

/// The class whose game number is `class_id` (which must be below 7).
pub open spec fn class_of(class_id: u32) -> PlayerClass {
    if class_id == 0 {
        PlayerClass::Amazon
    } else if class_id == 1 {
        PlayerClass::Sorceress
    } else if class_id == 2 {
        PlayerClass::Necromancer
    } else if class_id == 3 {
        PlayerClass::Paladin
    } else if class_id == 4 {
        PlayerClass::Barbarian
    } else if class_id == 5 {
        PlayerClass::Druid
    } else {
        PlayerClass::Assassin
    }
}

/// The position part of a moving unit's path.
#[derive(Debug, Clone, Copy, PartialEq, Eq, Structural)]
pub struct DynamicPathPosition {
    pub offset_x: u16,
    pub x: u16,
    pub offset_y: u16,
    pub y: u16,
}

/// The precise position of a moving unit's path.
#[derive(Debug, Clone, Copy, PartialEq, Eq, Structural)]
pub struct DynamicPathPrecision {
    pub x: u32,
    pub y: u32,
}

/// The class numbers of the hirelings (mercenaries) of the four acts.
pub open spec fn is_merc_class(class_id: u32) -> bool {
    class_id == 0x010f || class_id == 0x0152 || class_id == 0x0167 || class_id == 0x0231
}

/// Whether `class_id` is the class of a hireling: only for such units does
/// `get_player_merc` look at the owner.
pub fn is_hireling_class(class_id: u32) -> (res: bool)
    ensures
        res == is_merc_class(class_id),
{
    class_id == 0x010f || class_id == 0x0152 || class_id == 0x0167 || class_id == 0x0231
}

/// `candidate`, whose owner has the unit number `owner_id`, is a living
/// hireling of the player with unit number `player_id`.
pub open spec fn is_living_merc_of(candidate: Unit, owner_id: u32, player_id: u32) -> bool {
    &&& is_merc_class(candidate.class_id)
    &&& owner_id == player_id
    &&& candidate.mode != NpcUnitMode::Dead.spec_code()
    &&& candidate.mode != NpcUnitMode::Death.spec_code()
}

/// The values of a game unit that the helper reads.
#[derive(Debug, Clone, Copy)]
pub struct Unit {
    pub unit_type: UnitType,
    pub class_id: u32,
    pub unit_id: u32,
    pub mode: u32,
    pub act_id: u32,
    pub seed: [u32; 2],
    pub gfx_frame: u32,
    pub frame_remain: u32,
    pub frame_rate: u16,
    pub x: u16,
    pub y: u16,
    pub owner_type: u32,
    pub owner_id: u32,
    pub flags: u32,
    pub flags_2: u32,
}

impl Unit {
    /// The class of a player unit; nothing for other units. A player's class
    /// number is one of the seven classes.
    pub fn get_player_class(&self) -> (res: Option<PlayerClass>)
        requires
            self.unit_type == UnitType::Player ==> self.class_id < 7,
        ensures
            self.unit_type != UnitType::Player ==> res is None,
            self.unit_type == UnitType::Player ==> res == Some(class_of(self.class_id)),
    {
        if self.unit_type != UnitType::Player {
            return None;
        }
        let class = if self.class_id == 0 {
            PlayerClass::Amazon
        } else if self.class_id == 1 {
            PlayerClass::Sorceress
        } else if self.class_id == 2 {
            PlayerClass::Necromancer
        } else if self.class_id == 3 {
            PlayerClass::Paladin
        } else if self.class_id == 4 {
            PlayerClass::Barbarian
        } else if self.class_id == 5 {
            PlayerClass::Druid
        } else {
            PlayerClass::Assassin
        };
        Some(class)
    }

    /// Objects and items keep a fixed position; other units move along a path.
    pub fn pos_is_static(&self) -> (res: bool)
        ensures
            res == (self.unit_type == UnitType::Object || self.unit_type == UnitType::Item),
    {
        match self.unit_type {
            UnitType::Object | UnitType::Item => true,
            _ => false,
        }
    }

    /// The player's living hireling among `units`, which lists the units of
    /// every room of the act in the order the game links them;
    /// `owner_ids[i]` is the unit number of `units[i]`'s owner when
    /// `units[i]` is of a hireling class (other entries are not read). The answer is
    /// the index of the first such hireling; nothing when this unit is not a
    /// player or none is found.
    pub fn get_player_merc(&self, units: &Vec<Unit>, owner_ids: &Vec<u32>) -> (res: Option<usize>)
        requires
            units@.len() == owner_ids@.len(),
        ensures
            self.unit_type != UnitType::Player ==> res is None,
            self.unit_type == UnitType::Player ==> match res {
                Some(i) => {
                    &&& i < units@.len()
                    &&& is_living_merc_of(units@[i as int], owner_ids@[i as int], self.unit_id)
                    &&& forall|j: int| 0 <= j < i ==> !is_living_merc_of(#[trigger] units@[j], owner_ids@[j], self.unit_id)
                },
                None => forall|j: int| 0 <= j < units@.len() ==> !is_living_merc_of(#[trigger] units@[j], owner_ids@[j], self.unit_id),
            },
    {
        if self.unit_type != UnitType::Player {
            return None;
        }
        let mut i: usize = 0;
        while i < units.len()
            invariant
                units@.len() == owner_ids@.len(),
                self.unit_type == UnitType::Player,
                i <= units@.len(),
                forall|j: int| 0 <= j < i ==> !is_living_merc_of(#[trigger] units@[j], owner_ids@[j], self.unit_id),
            decreases units@.len() - i,
        {
            let unit = &units[i];
            let is_merc_class = unit.class_id == 0x010f || unit.class_id == 0x0152 || unit.class_id == 0x0167
                || unit.class_id == 0x0231;
            if is_merc_class {
                if owner_ids[i] == self.unit_id && unit.mode != NpcUnitMode::Dead.code() && unit.mode
                    != NpcUnitMode::Death.code() {
                    return Some(i);
                }
            }
            i = i + 1;
        }
        None
    }
}

} // verus!
