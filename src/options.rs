//! Rules of a match.

use vstd::prelude::*;

verus! {

#[derive(Copy, Clone, PartialEq, Eq, Debug, Structural)]
pub struct DeathMatch {
    /// Length of the match in ms; zero for no limit.
    pub time_limit: u64,
    pub frag_limit: u32,
}

#[derive(Copy, Clone, PartialEq, Eq, Debug, Structural)]
pub struct TeamDeathMatch {
    /// Length of the match in ms; zero for no limit.
    pub time_limit: u64,
    pub team_frag_limit: u32,
}

#[derive(Copy, Clone, PartialEq, Eq, Debug, Structural)]
pub struct CaptureTheFlag {
    /// Length of the match in ms; zero for no limit.
    pub time_limit: u64,
    pub flag_limit: u32,
}

#[derive(Copy, Clone, PartialEq, Eq, Debug, Structural)]
pub enum MatchOptions {
    DeathMatch(DeathMatch),
    TeamDeathMatch(TeamDeathMatch),
    CaptureTheFlag(CaptureTheFlag),
}

pub open spec fn match_options_id(o: MatchOptions) -> u32 {
    match o {
        MatchOptions::DeathMatch(_) => 0,
        MatchOptions::TeamDeathMatch(_) => 1,
        MatchOptions::CaptureTheFlag(_) => 2,
    }
}

impl MatchOptions {
    /// Options of the mode stored under `id`, with no limits; any other
    /// identifier is a load error.
    pub fn from_id(id: u32) -> (r: Result<MatchOptions, String>)
        ensures
            id <= 2 <==> r is Ok,
            r matches Ok(o) ==> match_options_id(o) == id && o == match o {
                MatchOptions::DeathMatch(_) => MatchOptions::DeathMatch(DeathMatch { time_limit: 0, frag_limit: 0 }),
                MatchOptions::TeamDeathMatch(_) => MatchOptions::TeamDeathMatch(
                    TeamDeathMatch { time_limit: 0, team_frag_limit: 0 },
                ),
                MatchOptions::CaptureTheFlag(_) => MatchOptions::CaptureTheFlag(
                    CaptureTheFlag { time_limit: 0, flag_limit: 0 },
                ),
            },
    {
        match id {
            0 => Ok(MatchOptions::DeathMatch(DeathMatch { time_limit: 0, frag_limit: 0 })),
            1 => Ok(MatchOptions::TeamDeathMatch(TeamDeathMatch { time_limit: 0, team_frag_limit: 0 })),
            2 => Ok(MatchOptions::CaptureTheFlag(CaptureTheFlag { time_limit: 0, flag_limit: 0 })),
            _ => Err(String::from_str("invalid match options")),
        }
    }

    pub fn id(&self) -> (r: u32)
        ensures
            r == match_options_id(*self),
    {
        match self {
            MatchOptions::DeathMatch(_) => 0,
            MatchOptions::TeamDeathMatch(_) => 1,
            MatchOptions::CaptureTheFlag(_) => 2,
        }
    }
}

impl Default for MatchOptions {
    fn default() -> (r: MatchOptions)
        ensures
            r == MatchOptions::DeathMatch(DeathMatch { time_limit: 0, frag_limit: 0 }),
    {
        MatchOptions::DeathMatch(DeathMatch { time_limit: 0, frag_limit: 0 })
    }
}

} // verus!
