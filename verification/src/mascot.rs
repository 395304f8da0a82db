//! The pixel mascot that rides along the player bar: which one the listener
//! picked, which animation frame and which leg of its trip a playback
//! position shows, and the palette its sprites are drawn in.

use vstd::prelude::*;

verus! {

/// How long each animation frame shows, in milliseconds.
pub const FRAME_DURATION_MS: u32 = 250;

/// How long one leg of the trip across the bar takes, in milliseconds.
pub const TRAVEL_LEG_MS: u32 = 8_000;

/// The mascot the listener picked in settings.
#[derive(Clone, Copy, Debug, PartialEq, Eq, Structural)]
pub enum MascotPreference {
    NoMascot,
    RomeoVespa,
    VespaDuo,
    TarantellaDancer,
}

#[derive(Clone, Copy, Debug, PartialEq, Eq, Structural)]
pub enum Mascot {
    RomeoVespa,
    VespaDuo,
    TarantellaDancer,
}

/// The mascot to draw, if any.
pub fn mascot_for(preference: MascotPreference) -> (r: Option<Mascot>)
    ensures
        r == match preference {
            MascotPreference::NoMascot => None,
            MascotPreference::RomeoVespa => Some(Mascot::RomeoVespa),
            MascotPreference::VespaDuo => Some(Mascot::VespaDuo),
            MascotPreference::TarantellaDancer => Some(Mascot::TarantellaDancer),
        },
{
    match preference {
        MascotPreference::NoMascot => None,
        MascotPreference::RomeoVespa => Some(Mascot::RomeoVespa),
        MascotPreference::VespaDuo => Some(Mascot::VespaDuo),
        MascotPreference::TarantellaDancer => Some(Mascot::TarantellaDancer),
    }
}

/// The animation frame, one of four, shown at a playback position.
pub fn mascot_frame(position_ms: u32) -> (r: usize)
    ensures
        r == (position_ms / FRAME_DURATION_MS) % 4,
        r < 4,
{
    ((position_ms / FRAME_DURATION_MS) % 4) as usize
}

/// How far along its leg the mascot is, in milliseconds out of
/// `TRAVEL_LEG_MS`, and whether it is on the way back. It goes out and back
/// again, so it never leaves the bar, and depends on the position alone.
pub open spec fn travel(position_ms: u32) -> (u32, bool) {
    let cycle = (position_ms as int) % (2 * TRAVEL_LEG_MS as int);
    if cycle < TRAVEL_LEG_MS {
        (cycle as u32, false)
    } else {
        ((2 * TRAVEL_LEG_MS as int - cycle) as u32, true)
    }
}

pub fn travel_state(position_ms: u32) -> (r: (u32, bool))
    ensures
        r == travel(position_ms),
        r.0 <= TRAVEL_LEG_MS,
{
    let cycle = position_ms % (TRAVEL_LEG_MS * 2);
    if cycle < TRAVEL_LEG_MS {
        (cycle, false)
    } else {
        (TRAVEL_LEG_MS * 2 - cycle, true)
    }
}

/// The colour, as `0xRRGGBB`, that a sprite's pixel key stands for; any other
/// key is left transparent.
pub fn color(key: char) -> (r: Option<u32>)
    ensures
        r == match key {
            'K' => Some(0x4A3D33u32),
            'P' => Some(0x6D5A4Au32),
            'S' => Some(0xDC9C6Au32),
            's' => Some(0xB06A4Bu32),
            'C' => Some(0xF4E3C1u32),
            'W' => Some(0xFFF4DCu32),
            'N' => Some(0x2C5273u32),
            'R' => Some(0xD64031u32),
            'r' => Some(0x9F2925u32),
            'O' => Some(0xE0763Fu32),
            'o' => Some(0xA94B28u32),
            'Y' => Some(0xF6C445u32),
            _ => None,
        },
{
    match key {
        'K' => Some(0x4A3D33),
        'P' => Some(0x6D5A4A),
        'S' => Some(0xDC9C6A),
        's' => Some(0xB06A4B),
        'C' => Some(0xF4E3C1),
        'W' => Some(0xFFF4DC),
        'N' => Some(0x2C5273),
        'R' => Some(0xD64031),
        'r' => Some(0x9F2925),
        'O' => Some(0xE0763F),
        'o' => Some(0xA94B28),
        'Y' => Some(0xF6C445),
        _ => None,
    }
}

/// One choice in the settings' mascot menu.
#[derive(Clone, Copy, Debug, PartialEq, Eq)]
pub struct MascotOption {
    pub label: &'static str,
    pub preference: MascotPreference,
}

/// Where a preference sits in the menu.
pub fn mascot_index(mascot: MascotPreference) -> (r: usize)
    ensures
        r == match mascot {
            MascotPreference::NoMascot => 0usize,
            MascotPreference::RomeoVespa => 1usize,
            MascotPreference::VespaDuo => 2usize,
            MascotPreference::TarantellaDancer => 3usize,
        },
{
    match mascot {
        MascotPreference::NoMascot => 0,
        MascotPreference::RomeoVespa => 1,
        MascotPreference::VespaDuo => 2,
        MascotPreference::TarantellaDancer => 3,
    }
}

/// The menu, in order: each option sits at its preference's index.
pub fn mascot_options() -> (r: Vec<MascotOption>)
    ensures
        r@.len() == 4,
        r@[0].label@ == "None"@ && r@[0].preference == MascotPreference::NoMascot,
        r@[1].label@ == "Vespa Romeo"@ && r@[1].preference == MascotPreference::RomeoVespa,
        r@[2].label@ == "Vespa Duo"@ && r@[2].preference == MascotPreference::VespaDuo,
        r@[3].label@ == "Tarantella Dancer"@ && r@[3].preference == MascotPreference::TarantellaDancer,
{
    vec![
        MascotOption { label: "None", preference: MascotPreference::NoMascot },
        MascotOption { label: "Vespa Romeo", preference: MascotPreference::RomeoVespa },
        MascotOption { label: "Vespa Duo", preference: MascotPreference::VespaDuo },
        MascotOption { label: "Tarantella Dancer", preference: MascotPreference::TarantellaDancer },
    ]
}

/// The mascot turns around at the end of each leg rather than jumping: at
/// every position it is somewhere on the bar, and one millisecond later it
/// has moved by at most one step the same way or turned at an end.
pub proof fn lemma_travel_stays_on_the_bar(position_ms: u32)
    requires
        position_ms < u32::MAX,
    ensures
        ({
            let (at, back) = travel(position_ms);
            let (next, next_back) = travel((position_ms + 1) as u32);
            &&& at <= TRAVEL_LEG_MS
            &&& if back == next_back {
                if back { next + 1 == at } else { next == at + 1 }
            } else {
                (at == TRAVEL_LEG_MS - 1 && next == TRAVEL_LEG_MS && next_back)
                    || (at == 1 && next == 0 && !next_back)
            }
        }),
{
    let cycle = position_ms % 16_000;
    assert((position_ms + 1) % 16_000 == if cycle == 15_999 { 0 } else { cycle + 1 }) by (nonlinear_arith)
        requires
            cycle == position_ms % 16_000,
    ;
}

} // verus!
