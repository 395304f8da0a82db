//! The app's icon set: glyphs bundled under `icons/cadence`, one file each.

use vstd::prelude::*;

verus! {

#[derive(Clone, Copy, Debug, PartialEq, Eq, Structural)]
pub enum CadenceIcon {
    Heart,
    HeartFilled,
    Star,
    StarFilled,
    Clock,
    ClockFilled,
    Search,
    Playlist,
    PlaylistFilled,
    Queue,
    MusicNote,
    Person,
    ChevronLeft,
    Close,
    SkipBack,
    Pause,
    Play,
    SkipForward,
    Key,
    Settings,
    SignOut,
    Pin,
    PinFilled,
    SpeakerMuted,
    Speaker,
    More,
    SystemAppearance,
    Sun,
    Moon,
    Copy,
    ArrowUpRight,
}

impl CadenceIcon {
    /// The glyph's file name, without directory or extension.
    pub open spec fn spec_file_name(self) -> Seq<char> {
        match self {
            CadenceIcon::Heart => "heart"@,
            CadenceIcon::HeartFilled => "heart-filled"@,
            CadenceIcon::Star => "star"@,
            CadenceIcon::StarFilled => "star-filled"@,
            CadenceIcon::Clock => "clock"@,
            CadenceIcon::ClockFilled => "clock-filled"@,
            CadenceIcon::Search => "search"@,
            CadenceIcon::Playlist => "playlist"@,
            CadenceIcon::PlaylistFilled => "playlist-filled"@,
            CadenceIcon::Queue => "queue"@,
            CadenceIcon::MusicNote => "music-note"@,
            CadenceIcon::Person => "person"@,
            CadenceIcon::ChevronLeft => "chevron-left"@,
            CadenceIcon::Close => "close"@,
            CadenceIcon::SkipBack => "skip-back"@,
            CadenceIcon::Pause => "pause"@,
            CadenceIcon::Play => "play"@,
            CadenceIcon::SkipForward => "skip-forward"@,
            CadenceIcon::Key => "key"@,
            CadenceIcon::Settings => "settings"@,
            CadenceIcon::SignOut => "sign-out"@,
            CadenceIcon::Pin => "pin"@,
            CadenceIcon::PinFilled => "pin-filled"@,
            CadenceIcon::SpeakerMuted => "speaker-muted"@,
            CadenceIcon::Speaker => "speaker"@,
            CadenceIcon::More => "more"@,
            CadenceIcon::SystemAppearance => "system-appearance"@,
            CadenceIcon::Sun => "sun"@,
            CadenceIcon::Moon => "moon"@,
            CadenceIcon::Copy => "copy"@,
            CadenceIcon::ArrowUpRight => "arrow-up-right"@,
        }
    }

    pub fn file_name(self) -> (r: &'static str)
        ensures
            r@ == self.spec_file_name(),
    {
        match self {
            CadenceIcon::Heart => "heart",
            CadenceIcon::HeartFilled => "heart-filled",
            CadenceIcon::Star => "star",
            CadenceIcon::StarFilled => "star-filled",
            CadenceIcon::Clock => "clock",
            CadenceIcon::ClockFilled => "clock-filled",
            CadenceIcon::Search => "search",
            CadenceIcon::Playlist => "playlist",
            CadenceIcon::PlaylistFilled => "playlist-filled",
            CadenceIcon::Queue => "queue",
            CadenceIcon::MusicNote => "music-note",
            CadenceIcon::Person => "person",
            CadenceIcon::ChevronLeft => "chevron-left",
            CadenceIcon::Close => "close",
            CadenceIcon::SkipBack => "skip-back",
            CadenceIcon::Pause => "pause",
            CadenceIcon::Play => "play",
            CadenceIcon::SkipForward => "skip-forward",
            CadenceIcon::Key => "key",
            CadenceIcon::Settings => "settings",
            CadenceIcon::SignOut => "sign-out",
            CadenceIcon::Pin => "pin",
            CadenceIcon::PinFilled => "pin-filled",
            CadenceIcon::SpeakerMuted => "speaker-muted",
            CadenceIcon::Speaker => "speaker",
            CadenceIcon::More => "more",
            CadenceIcon::SystemAppearance => "system-appearance",
            CadenceIcon::Sun => "sun",
            CadenceIcon::Moon => "moon",
            CadenceIcon::Copy => "copy",
            CadenceIcon::ArrowUpRight => "arrow-up-right",
        }
    }

    /// Where the glyph lies among the bundled assets.
    pub fn path(self) -> (r: String)
        ensures
            r@ == "icons/cadence/"@ + self.spec_file_name() + ".svg"@,
    {
        let mut path = String::from_str("icons/cadence/");
        path.append(self.file_name());
        path.append(".svg");
        path
    }
}

/// Whether `after` is `before` with the first and third byte of every whole
/// four-byte pixel swapped; a partial pixel at the end is left alone.
pub open spec fn swapped_red_blue(before: Seq<u8>, after: Seq<u8>) -> bool {
    &&& after.len() == before.len()
    &&& forall|i: int|
        0 <= i < before.len() ==> #[trigger] after[i] == if i < before.len() - before.len() % 4 {
            if i % 4 == 0 {
                before[i + 2]
            } else if i % 4 == 2 {
                before[i - 2]
            } else {
                before[i]
            }
        } else {
            before[i]
        }
}

/// Reorders RGBA pixels into the BGRA order the renderer takes.
pub fn rgba_to_bgra(pixels: &mut Vec<u8>)
    ensures
        swapped_red_blue(old(pixels)@, final(pixels)@),
{
    let ghost before = pixels@;
    let n = pixels.len();
    let whole = n - n % 4;
    let mut at: usize = 0;
    while at < whole
        invariant
            n == before.len(),
            whole == n - n % 4,
            pixels@.len() == n,
            at % 4 == 0,
            at <= whole,
            forall|i: int|
                0 <= i < n ==> #[trigger] pixels@[i] == if i < at {
                    if i % 4 == 0 {
                        before[i + 2]
                    } else if i % 4 == 2 {
                        before[i - 2]
                    } else {
                        before[i]
                    }
                } else {
                    before[i]
                },
        decreases whole - at,
    {
        let red = pixels[at];
        let blue = pixels[at + 2];
        pixels.set(at, blue);
        pixels.set(at + 2, red);
        at = at + 4;
    }
}

} // verus!
