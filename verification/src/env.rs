//! The runtime configuration: parsing of the environment values that shape
//! the child server, with their defaults, and the property lines written
//! for it. Reading the process environment and touching files happen
//! outside the library; everything here maps plain text to plain values.

use vstd::prelude::*;

use crate::text::{
    all_digit_chars, ascii_lower_char, ascii_lowercase, bool_str, dec_digits, dec_value_chars,
    parse_u32_str, u32_string,
};

verus! {

/// ASCII case folding of a whole character sequence.
pub open spec fn folded(s: Seq<char>) -> Seq<char> {
    s.map_values(|c: char| ascii_lower_char(c))
}

/// The child's difficulty setting.
#[derive(Debug, Clone, Copy, PartialEq, Eq, Structural)]
pub enum Difficulty {
    Peaceful,
    Easy,
    Normal,
    Hard,
}

/// What a case-folded difficulty word parses to.
pub open spec fn spec_parse_difficulty(t: Seq<char>) -> Option<Difficulty> {
    if t == "peaceful"@ {
        Option::Some(Difficulty::Peaceful)
    } else if t == "easy"@ {
        Option::Some(Difficulty::Easy)
    } else if t == "normal"@ {
        Option::Some(Difficulty::Normal)
    } else if t == "hard"@ {
        Option::Some(Difficulty::Hard)
    } else {
        Option::None
    }
}

impl Difficulty {
    pub open spec fn spec_str(self) -> Seq<char> {
        match self {
            Difficulty::Peaceful => "peaceful"@,
            Difficulty::Easy => "easy"@,
            Difficulty::Normal => "normal"@,
            Difficulty::Hard => "hard"@,
        }
    }

    /// The difficulty's word, as the property file writes it.
    pub fn as_str(&self) -> (r: &'static str)
        ensures
            r@ == self.spec_str(),
    {
        match self {
            Difficulty::Peaceful => "peaceful",
            Difficulty::Easy => "easy",
            Difficulty::Normal => "normal",
            Difficulty::Hard => "hard",
        }
    }

    /// Parses a difficulty word, ignoring ASCII case.
    pub fn parse(s: &str) -> (r: Option<Difficulty>)
        ensures
            r == spec_parse_difficulty(folded(s@)),
    {
        let l = ascii_lowercase(s);
        if l == String::from_str("peaceful") {
            Some(Difficulty::Peaceful)
        } else if l == String::from_str("easy") {
            Some(Difficulty::Easy)
        } else if l == String::from_str("normal") {
            Some(Difficulty::Normal)
        } else if l == String::from_str("hard") {
            Some(Difficulty::Hard)
        } else {
            None
        }
    }
}

/// What a case-folded boolean word parses to.
pub open spec fn spec_parse_bool(t: Seq<char>) -> Option<bool> {
    if t == "true"@ {
        Option::Some(true)
    } else if t == "false"@ {
        Option::Some(false)
    } else {
        Option::None
    }
}

/// A numeral in `1 ..= max`, or nothing.
pub open spec fn spec_parse_ranged(t: Seq<char>, max: nat) -> Option<nat> {
    if t.len() > 0 && all_digit_chars(t) && 1 <= dec_value_chars(t) && dec_value_chars(t) <= max {
        Option::Some(dec_value_chars(t))
    } else {
        Option::None
    }
}

/// A boolean environment value: case-folded, then parsed, else the default.
pub open spec fn spec_env_bool(o: Option<String>, default: bool) -> bool {
    match o {
        Option::Some(s) => match spec_parse_bool(folded(s@)) {
            Option::Some(b) => b,
            Option::None => default,
        },
        Option::None => default,
    }
}

/// A bounded numeric environment value, else the default.
pub open spec fn spec_env_ranged(o: Option<String>, max: nat, default: nat) -> nat {
    match o {
        Option::Some(s) => match spec_parse_ranged(folded(s@), max) {
            Option::Some(v) => v,
            Option::None => default,
        },
        Option::None => default,
    }
}

/// A difficulty environment value, else the default.
pub open spec fn spec_env_difficulty(o: Option<String>, default: Difficulty) -> Difficulty {
    match o {
        Option::Some(s) => match spec_parse_difficulty(folded(s@)) {
            Option::Some(d) => d,
            Option::None => default,
        },
        Option::None => default,
    }
}

/// A free-text environment value: kept as provided, else the default.
pub open spec fn spec_env_text(o: Option<String>, default: Seq<char>) -> Seq<char> {
    match o {
        Option::Some(s) => s@,
        Option::None => default,
    }
}

fn env_bool(o: &Option<String>, default: bool) -> (r: bool)
    ensures
        r == spec_env_bool(*o, default),
{
    match o {
        Option::Some(s) => {
            let l = ascii_lowercase(s.as_str());
            if l == String::from_str("true") {
                true
            } else if l == String::from_str("false") {
                false
            } else {
                default
            }
        },
        Option::None => default,
    }
}

fn env_u8(o: &Option<String>, default: u8) -> (r: u8)
    requires
        default >= 1,
    ensures
        r == spec_env_ranged(*o, 255, default as nat),
{
    match o {
        Option::Some(s) => {
            let l = ascii_lowercase(s.as_str());
            match parse_u32_str(l.as_str()) {
                Some(v) => {
                    if 1 <= v && v <= 255 {
                        v as u8
                    } else {
                        default
                    }
                },
                None => default,
            }
        },
        Option::None => default,
    }
}

fn env_u16(o: &Option<String>, default: u16) -> (r: u16)
    requires
        default >= 1,
    ensures
        r == spec_env_ranged(*o, 65535, default as nat),
{
    match o {
        Option::Some(s) => {
            let l = ascii_lowercase(s.as_str());
            match parse_u32_str(l.as_str()) {
                Some(v) => {
                    if 1 <= v && v <= 65535 {
                        v as u16
                    } else {
                        default
                    }
                },
                None => default,
            }
        },
        Option::None => default,
    }
}

fn env_text(o: &Option<String>, default: &str) -> (r: String)
    ensures
        r@ == spec_env_text(*o, default@),
{
    match o {
        Option::Some(s) => s.clone(),
        Option::None => String::from_str(default),
    }
}

fn env_difficulty(o: &Option<String>, default: Difficulty) -> (r: Difficulty)
    ensures
        r == spec_env_difficulty(*o, default),
{
    match o {
        Option::Some(s) => match Difficulty::parse(s.as_str()) {
            Some(d) => d,
            None => default,
        },
        Option::None => default,
    }
}

/// The raw environment values, one per variable, as the process environment
/// offers them.
pub struct EnvValues {
    pub eula: Option<String>,
    pub difficulty: Option<String>,
    pub hardcore: Option<String>,
    pub max_players: Option<String>,
    pub max_world_radius: Option<String>,
    pub motd: Option<String>,
    pub player_idle_timeout: Option<String>,
    pub server_idle_timeout: Option<String>,
    pub view_distance: Option<String>,
    pub pvp: Option<String>,
}

/// The parsed runtime configuration.
pub struct Environment {
    pub eula: bool,
    pub difficulty: Difficulty,
    pub hardcore: bool,
    pub max_players: u8,
    pub max_world_radius: u16,
    pub motd: String,
    pub player_idle_timeout: u8,
    pub server_idle_timeout: u8,
    pub view_distance: u8,
    pub pvp: bool,
}

/// What must be done about the licence marker file.
#[derive(Debug, Clone, Copy, PartialEq, Eq, Structural)]
pub enum EulaDecision {
    /// The marker file already exists: proceed.
    AlreadyAccepted,
    /// The environment opted in: create the marker file, then proceed.
    CreateFile,
    /// No file and no opt-in: refuse to start.
    Rejected,
}

impl Environment {
    /// The numeric fields lie in their documented ranges and are never zero.
    pub open spec fn wf(self) -> bool {
        &&& 1 <= self.max_players
        &&& 1 <= self.max_world_radius
        &&& 1 <= self.player_idle_timeout
        &&& 1 <= self.server_idle_timeout
        &&& 1 <= self.view_distance
    }

    /// Parses every configuration value, case-insensitively; a missing or
    /// unparseable value falls back to its default.
    pub fn load(values: &EnvValues) -> (env: Environment)
        ensures
            env.wf(),
            env.eula == spec_env_bool(values.eula, false),
            env.difficulty == spec_env_difficulty(values.difficulty, Difficulty::Normal),
            env.hardcore == spec_env_bool(values.hardcore, false),
            env.max_players == spec_env_ranged(values.max_players, 255, 10),
            env.max_world_radius == spec_env_ranged(values.max_world_radius, 65535, 1000),
            env.motd@ == spec_env_text(values.motd, "Minecraft on demand"@),
            env.player_idle_timeout == spec_env_ranged(values.player_idle_timeout, 255, 10),
            env.server_idle_timeout == spec_env_ranged(values.server_idle_timeout, 255, 10),
            env.view_distance == spec_env_ranged(values.view_distance, 255, 10),
            env.pvp == spec_env_bool(values.pvp, false),
    {
        Environment {
            eula: env_bool(&values.eula, false),
            difficulty: env_difficulty(&values.difficulty, Difficulty::Normal),
            hardcore: env_bool(&values.hardcore, false),
            max_players: env_u8(&values.max_players, 10),
            max_world_radius: env_u16(&values.max_world_radius, 1000),
            motd: env_text(&values.motd, "Minecraft on demand"),
            player_idle_timeout: env_u8(&values.player_idle_timeout, 10),
            server_idle_timeout: env_u8(&values.server_idle_timeout, 10),
            view_distance: env_u8(&values.view_distance, 10),
            pvp: env_bool(&values.pvp, false),
        }
    }

    /// What to do about the licence marker, given whether its file exists.
    pub fn eula_decision(&self, eula_file_exists: bool) -> (r: EulaDecision)
        ensures
            eula_file_exists ==> r == EulaDecision::AlreadyAccepted,
            !eula_file_exists && self.eula ==> r == EulaDecision::CreateFile,
            !eula_file_exists && !self.eula ==> r == EulaDecision::Rejected,
    {
        if eula_file_exists {
            EulaDecision::AlreadyAccepted
        } else if self.eula {
            EulaDecision::CreateFile
        } else {
            EulaDecision::Rejected
        }
    }

    /// The content of a freshly created licence marker file.
    pub fn eula_file_content() -> (r: &'static str)
        ensures
            r@ == "eula=true"@,
    {
        "eula=true"
    }

    /// The runtime-derived property lines, in the order they are written
    /// after the static template.
    pub fn server_parameter_lines(&self) -> (r: Vec<String>)
        ensures
            r@.len() == 8,
            r@[0]@ == "difficulty="@ + self.difficulty.spec_str(),
            r@[1]@ == "hardcore="@ + (if self.hardcore {
                "true"@
            } else {
                "false"@
            }),
            r@[2]@ == "max-players="@ + dec_digits(self.max_players as nat),
            r@[3]@ == "max-world-size="@ + dec_digits(self.max_world_radius as nat),
            r@[4]@ == "motd="@ + self.motd@,
            r@[5]@ == "player-idle-timeout="@ + dec_digits(self.player_idle_timeout as nat),
            r@[6]@ == "view-distance="@ + dec_digits(self.view_distance as nat),
            r@[7]@ == "pvp="@ + (if self.pvp {
                "true"@
            } else {
                "false"@
            }),
    {
        let mut lines: Vec<String> = Vec::new();
        lines.push(String::from_str("difficulty=").concat(self.difficulty.as_str()));
        lines.push(String::from_str("hardcore=").concat(bool_str(self.hardcore)));
        let players = u32_string(self.max_players as u32);
        lines.push(String::from_str("max-players=").concat(players.as_str()));
        let radius = u32_string(self.max_world_radius as u32);
        lines.push(String::from_str("max-world-size=").concat(radius.as_str()));
        lines.push(String::from_str("motd=").concat(self.motd.as_str()));
        let idle = u32_string(self.player_idle_timeout as u32);
        lines.push(String::from_str("player-idle-timeout=").concat(idle.as_str()));
        let view = u32_string(self.view_distance as u32);
        lines.push(String::from_str("view-distance=").concat(view.as_str()));
        lines.push(String::from_str("pvp=").concat(bool_str(self.pvp)));
        lines
    }
}

} // verus!
