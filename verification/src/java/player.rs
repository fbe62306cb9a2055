//! Game modes and the player attributes derived from them.
use vstd::prelude::*;

use super::metadata::{FLAG_SNEAKING, FLAG_SPRINTING, POSE_CROUCHING, POSE_STANDING};
use super::packets::{ABILITY_ALLOW_FLYING, ABILITY_FLYING, ABILITY_INSTANT_BUILD, ABILITY_INVULNERABLE};
use crate::text::str_eq;

verus! {

/// How a player interacts with the world.
#[derive(Debug, Clone, Copy, PartialEq, Eq, Structural)]
pub enum GameMode {
    Survival,
    Creative,
    Adventure,
    Spectator,
}

/// Wire id of each game mode.
pub open spec fn gamemode_id(mode: GameMode) -> u8 {
    match mode {
        GameMode::Survival => 0,
        GameMode::Creative => 1,
        GameMode::Adventure => 2,
        GameMode::Spectator => 3,
    }
}

/// Lower-case name of each game mode, as stored in player data.
pub open spec fn gamemode_name_of(mode: GameMode) -> Seq<char> {
    match mode {
        GameMode::Survival => "survival"@,
        GameMode::Creative => "creative"@,
        GameMode::Adventure => "adventure"@,
        GameMode::Spectator => "spectator"@,
    }
}

/// The ability flags the server grants: creative may fly and builds
/// instantly (and flies when `flying`), spectators fly and are
/// invulnerable, the rest get none.
pub open spec fn spec_ability_flags(mode: GameMode, flying: bool) -> u8 {
    match mode {
        GameMode::Creative => if flying { 0x0Eu8 } else { 0x0Cu8 },
        GameMode::Spectator => 0x07u8,
        _ => 0u8,
    }
}

impl GameMode {
    /// The game mode's wire id.
    #[must_use]
    pub fn id(self) -> (r: u8)
        ensures
            r == gamemode_id(self),
    {
        match self {
            GameMode::Survival => 0,
            GameMode::Creative => 1,
            GameMode::Adventure => 2,
            GameMode::Spectator => 3,
        }
    }

    /// The lower-case name stored in player data.
    #[must_use]
    pub fn name(self) -> (r: &'static str)
        ensures
            r@ == gamemode_name_of(self),
    {
        match self {
            GameMode::Survival => "survival",
            GameMode::Creative => "creative",
            GameMode::Adventure => "adventure",
            GameMode::Spectator => "spectator",
        }
    }

    /// The game mode a stored name stands for; anything unknown is survival.
    #[must_use]
    pub fn from_name(name: &str) -> (r: GameMode)
        ensures
            r == (if name@ == "creative"@ {
                GameMode::Creative
            } else if name@ == "adventure"@ {
                GameMode::Adventure
            } else if name@ == "spectator"@ {
                GameMode::Spectator
            } else {
                GameMode::Survival
            }),
    {
        if str_eq(name, "creative") {
            GameMode::Creative
        } else if str_eq(name, "adventure") {
            GameMode::Adventure
        } else if str_eq(name, "spectator") {
            GameMode::Spectator
        } else {
            GameMode::Survival
        }
    }

    /// Whether the mode lets a player fly at all.
    #[must_use]
    pub fn may_fly(self) -> (r: bool)
        ensures
            r == (self == GameMode::Creative || self == GameMode::Spectator),
    {
        match self {
            GameMode::Creative | GameMode::Spectator => true,
            _ => false,
        }
    }
}

/// Ability flags sent to the client for a player in `mode`.
#[must_use]
pub fn ability_flags(mode: GameMode, flying: bool) -> (r: u8)
    ensures
        r == spec_ability_flags(mode, flying),
{
    match mode {
        GameMode::Creative => {
            let mut flags = ABILITY_ALLOW_FLYING | ABILITY_INSTANT_BUILD;
            if flying {
                flags = flags | ABILITY_FLYING;
            }
            assert(ABILITY_ALLOW_FLYING | ABILITY_INSTANT_BUILD == 0x0Cu8) by (bit_vector);
            assert(0x0Cu8 | ABILITY_FLYING == 0x0Eu8) by (bit_vector);
            flags
        },
        GameMode::Spectator => {
            assert(ABILITY_INVULNERABLE | ABILITY_ALLOW_FLYING | ABILITY_FLYING == 0x07u8) by (bit_vector);
            ABILITY_INVULNERABLE | ABILITY_ALLOW_FLYING | ABILITY_FLYING
        },
        GameMode::Survival | GameMode::Adventure => 0,
    }
}

/// Spectators, and creative players who are flying, ignore gravity and
/// ground collision.
#[must_use]
pub fn is_flying_exempt(mode: GameMode, flying: bool) -> (r: bool)
    ensures
        r == (mode == GameMode::Spectator || (mode == GameMode::Creative && flying)),
{
    mode == GameMode::Spectator || (mode == GameMode::Creative && flying)
}

/// Entity flag byte: sneaking and sprinting bits.
#[must_use]
pub fn entity_flags(sneaking: bool, sprinting: bool) -> (r: u8)
    ensures
        r == (if sneaking { FLAG_SNEAKING } else { 0u8 }) | (if sprinting { FLAG_SPRINTING } else { 0u8 }),
{
    let mut flags = 0u8;
    if sneaking {
        flags = flags | FLAG_SNEAKING;
    }
    if sprinting {
        flags = flags | FLAG_SPRINTING;
    }
    assert(0u8 | FLAG_SNEAKING == FLAG_SNEAKING) by (bit_vector);
    assert(0u8 | FLAG_SPRINTING == FLAG_SPRINTING) by (bit_vector);
    assert(0u8 | 0u8 == 0u8) by (bit_vector);
    assert(FLAG_SNEAKING | 0u8 == FLAG_SNEAKING) by (bit_vector);
    flags
}

/// Crouching while sneaking, standing otherwise.
#[must_use]
pub fn current_pose(sneaking: bool) -> (r: i32)
    ensures
        r == (if sneaking { POSE_CROUCHING } else { POSE_STANDING }),
{
    if sneaking {
        POSE_CROUCHING
    } else {
        POSE_STANDING
    }
}

/// A stored game-mode name read back gives the same game mode.
pub proof fn law_gamemode_name_roundtrip(mode: GameMode)
    ensures
        (if gamemode_name_of(mode) == "creative"@ {
            GameMode::Creative
        } else if gamemode_name_of(mode) == "adventure"@ {
            GameMode::Adventure
        } else if gamemode_name_of(mode) == "spectator"@ {
            GameMode::Spectator
        } else {
            GameMode::Survival
        }) == mode,
{
    reveal_strlit("survival");
    reveal_strlit("creative");
    reveal_strlit("adventure");
    reveal_strlit("spectator");
    assert("survival"@ != "creative"@ && "survival"@ != "adventure"@ && "survival"@ != "spectator"@) by {
        assert("survival"@[0] != "creative"@[0]);
        assert("survival"@[0] != "adventure"@[0]);
        assert("survival"@[1] != "spectator"@[1]);
    }
    assert("creative"@ != "adventure"@ && "creative"@ != "spectator"@) by {
        assert("creative"@[0] != "adventure"@[0]);
        assert("creative"@[0] != "spectator"@[0]);
    }
    assert("adventure"@ != "spectator"@) by {
        assert("adventure"@[0] != "spectator"@[0]);
    }
}

} // verus!
