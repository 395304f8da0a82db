//! What the pages say: numbers and durations as text, the wording of the
//! library's track collections, and which theme a window shows.

use vstd::prelude::*;

use crate::library::{Library, LibraryView};
use crate::model::{track_views, Track, UserProfile};
use crate::session::ConnectionState;

verus! {

/// The character for a decimal digit.
pub open spec fn digit_char(d: int) -> char {
    if d == 0 {
        '0'
    } else if d == 1 {
        '1'
    } else if d == 2 {
        '2'
    } else if d == 3 {
        '3'
    } else if d == 4 {
        '4'
    } else if d == 5 {
        '5'
    } else if d == 6 {
        '6'
    } else if d == 7 {
        '7'
    } else if d == 8 {
        '8'
    } else {
        '9'
    }
}

/// `n` written in decimal, without leading zeros.
pub open spec fn decimal(n: nat) -> Seq<char>
    decreases n,
{
    if n < 10 {
        seq![digit_char(n as int)]
    } else {
        decimal(n / 10).push(digit_char((n % 10) as int))
    }
}

fn digit_text(d: u64) -> (r: &'static str)
    requires
        d < 10,
    ensures
        r@ == seq![digit_char(d as int)],
{
    let r = match d {
        0 => "0",
        1 => "1",
        2 => "2",
        3 => "3",
        4 => "4",
        5 => "5",
        6 => "6",
        7 => "7",
        8 => "8",
        _ => "9",
    };
    proof {
        reveal_strlit("0");
        reveal_strlit("1");
        reveal_strlit("2");
        reveal_strlit("3");
        reveal_strlit("4");
        reveal_strlit("5");
        reveal_strlit("6");
        reveal_strlit("7");
        reveal_strlit("8");
        reveal_strlit("9");
    }
    assert(r@ =~= seq![digit_char(d as int)]);
    r
}

/// `n` in decimal.
pub fn decimal_text(n: u64) -> (r: String)
    ensures
        r@ == decimal(n as nat),
    decreases n,
{
    if n < 10 {
        String::from_str(digit_text(n))
    } else {
        let mut text = decimal_text(n / 10);
        text.append(digit_text(n % 10));
        assert(text@ =~= decimal((n / 10) as nat).push(digit_char((n % 10) as int)));
        text
    }
}

/// Seconds past the minute, as two digits.
pub open spec fn two_digits(n: nat) -> Seq<char> {
    if n < 10 {
        seq!['0'] + decimal(n)
    } else {
        decimal(n)
    }
}

/// A track length as minutes and seconds, `m:ss`.
pub open spec fn duration_text(duration_ms: u32) -> Seq<char> {
    let seconds = (duration_ms / 1000) as nat;
    decimal(seconds / 60) + seq![':'] + two_digits(seconds % 60)
}

pub fn format_duration(duration_ms: u32) -> (r: String)
    ensures
        r@ == duration_text(duration_ms),
{
    let seconds: u64 = (duration_ms / 1000) as u64;
    let mut text = decimal_text(seconds / 60);
    text.append(":");
    if seconds % 60 < 10 {
        text.append("0");
    }
    let rest = decimal_text(seconds % 60);
    text.append(rest.as_str());
    proof {
        reveal_strlit(":");
        reveal_strlit("0");
    }
    assert(text@ =~= duration_text(duration_ms));
    text
}

/// A page's detail line, marked while its contents are being refreshed.
pub fn revalidating_detail(detail: String, refreshing: bool) -> (r: String)
    ensures
        refreshing ==> r@ == detail@ + " · refreshing…"@,
        !refreshing ==> r@ == detail@,
{
    if refreshing {
        let mut detail = detail;
        detail.append(" · refreshing…");
        detail
    } else {
        detail
    }
}

/// One of the track collections the library keeps for the signed-in account.
#[derive(Clone, Copy, Debug, PartialEq, Eq, Structural)]
pub enum LibrarySection {
    LikedSongs,
    Favorites,
    Recent,
}

impl LibrarySection {
    pub fn page_id(self) -> (r: &'static str)
        ensures
            r@ == match self {
                LibrarySection::LikedSongs => "liked-songs-page"@,
                LibrarySection::Favorites => "favorites-page"@,
                LibrarySection::Recent => "recent-page"@,
            },
    {
        match self {
            LibrarySection::LikedSongs => "liked-songs-page",
            LibrarySection::Favorites => "favorites-page",
            LibrarySection::Recent => "recent-page",
        }
    }

    pub fn list_id(self) -> (r: &'static str)
        ensures
            r@ == match self {
                LibrarySection::LikedSongs => "liked-tracks"@,
                LibrarySection::Favorites => "favorite-tracks"@,
                LibrarySection::Recent => "recent-tracks"@,
            },
    {
        match self {
            LibrarySection::LikedSongs => "liked-tracks",
            LibrarySection::Favorites => "favorite-tracks",
            LibrarySection::Recent => "recent-tracks",
        }
    }

    pub fn title(self) -> (r: &'static str)
        ensures
            r@ == match self {
                LibrarySection::LikedSongs => "Liked Songs"@,
                LibrarySection::Favorites => "Favorites"@,
                LibrarySection::Recent => "Recently played"@,
            },
    {
        match self {
            LibrarySection::LikedSongs => "Liked Songs",
            LibrarySection::Favorites => "Favorites",
            LibrarySection::Recent => "Recently played",
        }
    }

    pub fn empty_message(self) -> (r: &'static str)
        ensures
            r@ == match self {
                LibrarySection::LikedSongs => "No liked songs"@,
                LibrarySection::Favorites => "No favorites yet"@,
                LibrarySection::Recent => "No listening history yet"@,
            },
    {
        match self {
            LibrarySection::LikedSongs => "No liked songs",
            LibrarySection::Favorites => "No favorites yet",
            LibrarySection::Recent => "No listening history yet",
        }
    }

    pub fn loading_message(self) -> (r: &'static str)
        ensures
            r@ == match self {
                LibrarySection::LikedSongs => "Loading liked songs…"@,
                LibrarySection::Favorites => "Loading favorites…"@,
                LibrarySection::Recent => "Loading listening history…"@,
            },
    {
        match self {
            LibrarySection::LikedSongs => "Loading liked songs…",
            LibrarySection::Favorites => "Loading favorites…",
            LibrarySection::Recent => "Loading listening history…",
        }
    }

    /// The collection's tracks.
    pub open spec fn spec_tracks(self, library: LibraryView) -> Seq<crate::model::TrackView> {
        match self {
            LibrarySection::LikedSongs => library.liked_tracks,
            LibrarySection::Favorites => library.favorites,
            LibrarySection::Recent => library.recently_played,
        }
    }

    pub fn tracks(self, library: &Library) -> (r: &[Track])
        ensures
            track_views(r@) == self.spec_tracks(library@),
    {
        match self {
            LibrarySection::LikedSongs => library.liked_tracks(),
            LibrarySection::Favorites => library.favorites(),
            LibrarySection::Recent => library.recently_played(),
        }
    }

    /// Whether an empty collection means "nothing here" rather than "not
    /// yet". Liked songs come from Spotify; the other two are local state.
    pub fn loaded(self, library: &Library) -> (r: bool)
        ensures
            r == match self {
                LibrarySection::LikedSongs => library@.loaded,
                _ => library@.local_loaded,
            },
    {
        match self {
            LibrarySection::LikedSongs => library.loaded(),
            LibrarySection::Favorites | LibrarySection::Recent => library.local_loaded(),
        }
    }

    /// The line under the collection's title.
    pub fn detail(self, library: &Library, track_count: usize) -> (r: String)
        ensures
            r@ == match self {
                LibrarySection::LikedSongs => {
                    let base = if library@.loaded {
                        decimal(track_count as nat) + " tracks loaded from Spotify"@
                    } else {
                        "Liked on Spotify"@
                    };
                    if library@.reloading() {
                        base + " · refreshing…"@
                    } else {
                        base
                    }
                },
                LibrarySection::Favorites => "Starred in Cadence"@,
                LibrarySection::Recent => "Listening history"@,
            },
    {
        match self {
            LibrarySection::LikedSongs => {
                let base = if library.loaded() {
                    let mut text = decimal_text(track_count as u64);
                    text.append(" tracks loaded from Spotify");
                    text
                } else {
                    String::from_str("Liked on Spotify")
                };
                revalidating_detail(base, library.reloading())
            },
            LibrarySection::Favorites => String::from_str("Starred in Cadence"),
            LibrarySection::Recent => String::from_str("Listening history"),
        }
    }
}

/// The theme the listener picked.
#[derive(Clone, Copy, Debug, PartialEq, Eq, Structural)]
pub enum ThemePreference {
    System,
    Light,
    Dark,
}

/// The appearance the system reports for a window.
#[derive(Clone, Copy, Debug, PartialEq, Eq, Structural)]
pub enum WindowAppearance {
    Light,
    VibrantLight,
    Dark,
    VibrantDark,
}

pub fn is_dark_appearance(appearance: WindowAppearance) -> (r: bool)
    ensures
        r == (appearance == WindowAppearance::Dark || appearance == WindowAppearance::VibrantDark),
{
    matches!(appearance, WindowAppearance::Dark | WindowAppearance::VibrantDark)
}

/// Whether to draw dark: the listener's choice, or the system's when they
/// left it to the system.
pub fn resolve_dark_mode(preference: ThemePreference, appearance: WindowAppearance) -> (r: bool)
    ensures
        r == match preference {
            ThemePreference::System => appearance == WindowAppearance::Dark || appearance
                == WindowAppearance::VibrantDark,
            ThemePreference::Light => false,
            ThemePreference::Dark => true,
        },
{
    match preference {
        ThemePreference::System => is_dark_appearance(appearance),
        ThemePreference::Light => false,
        ThemePreference::Dark => true,
    }
}

/// Only release builds that know where their updates are published check
/// for updates themselves.
pub fn should_start(debug_build: bool, has_feed: bool) -> (r: bool)
    ensures
        r == (!debug_build && has_feed),
{
    !debug_build && has_feed
}

/// Whether the first window can assume a signed-in account: a client id is
/// configured (by the environment or in the store) and the stored sign-in
/// was not invalidated. A store that cannot say counts as invalidated.
pub fn stored_credentials_expected(
    client_id_in_environment: bool,
    client_id_stored: bool,
    credentials_invalidated: Option<bool>,
) -> (r: bool)
    ensures
        r == ((client_id_in_environment || client_id_stored) && credentials_invalidated == Some(false)),
{
    let configured = client_id_in_environment || client_id_stored;
    let invalidated = match credentials_invalidated {
        Some(invalidated) => invalidated,
        None => true,
    };
    configured && !invalidated
}

/// The account line under the profile name: a playback failure first, then
/// the toolbar's own error, then the connection state.
pub fn account_detail(player_error: Option<&String>, error: Option<&String>, state: ConnectionState) -> (r: String)
    ensures
        r@ == match player_error {
            Some(failure) => failure@,
            None => match error {
                Some(failure) => failure@,
                None => match state {
                    ConnectionState::Starting => "Starting Spotify…"@,
                    ConnectionState::Failed => "Backend unavailable"@,
                    ConnectionState::SetupRequired => "Developer app required"@,
                    ConnectionState::AuthorizationRequired => "Not connected"@,
                    ConnectionState::Connecting => "Connecting…"@,
                    ConnectionState::Ready => "Spotify connected"@,
                },
            },
        },
{
    if let Some(failure) = player_error {
        return failure.clone();
    }
    if let Some(failure) = error {
        return failure.clone();
    }
    match state {
        ConnectionState::Starting => String::from_str("Starting Spotify…"),
        ConnectionState::Failed => String::from_str("Backend unavailable"),
        ConnectionState::SetupRequired => String::from_str("Developer app required"),
        ConnectionState::AuthorizationRequired => String::from_str("Not connected"),
        ConnectionState::Connecting => String::from_str("Connecting…"),
        ConnectionState::Ready => String::from_str("Spotify connected"),
    }
}

/// The name the account menu shows.
pub fn profile_name(profile: Option<&UserProfile>) -> (r: String)
    ensures
        r@ == match profile {
            Some(profile) => profile.display_name@,
            None => "Spotify account"@,
        },
{
    match profile {
        Some(profile) => profile.display_name.clone(),
        None => String::from_str("Spotify account"),
    }
}

/// What the onboarding window says when the backend could not start.
pub fn backend_failure_detail(last_error: Option<&String>) -> (r: String)
    ensures
        r@ == match last_error {
            Some(error) => error@,
            None => "The backend stopped unexpectedly."@,
        },
{
    match last_error {
        Some(error) => error.clone(),
        None => String::from_str("The backend stopped unexpectedly."),
    }
}

/// What `str::to_uppercase` makes of a text.
pub uninterp spec fn uppercase(text: Seq<char>) -> Seq<char>;

/// `str::to_uppercase`: the text with every character replaced by its
/// Unicode uppercase mapping, which may be longer than one character. The
/// contract only names the result; it depends on the text alone.
#[verifier::external_body]
fn to_uppercase(text: &str) -> (r: String)
    ensures
        r@ == uppercase(text@),
{
    text.to_uppercase()
}

/// The first character of each word, in order.
pub open spec fn word_initials(s: Seq<char>) -> Seq<char>
    decreases s.len(),
{
    if s.len() == 0 {
        Seq::empty()
    } else {
        let rest = word_initials(s.drop_last());
        let i = s.len() - 1;
        if !crate::text::is_white_space(s[i]) && (i == 0 || crate::text::is_white_space(s[i - 1])) {
            rest.push(s[i])
        } else {
            rest
        }
    }
}

/// At most the first two of `letters`.
pub open spec fn first_two(letters: Seq<char>) -> Seq<char> {
    if letters.len() <= 2 {
        letters
    } else {
        letters.take(2)
    }
}

/// The initials an avatar shows for a name: the first letters of its first
/// two words, in upper case.
pub fn initials(name: &str) -> (r: String)
    ensures
        r@ == uppercase(first_two(word_initials(name@))),
{
    let n = name.unicode_len();
    let mut letters = String::new();
    let mut i: usize = 0;
    while i < n
        invariant
            n == name@.len(),
            i <= n,
            letters@ == first_two(word_initials(name@.take(i as int))),
        decreases n - i,
    {
        let ghost before = name@.take(i as int);
        assert(name@.take(i + 1).drop_last() =~= before);
        let c = name.get_char(i);
        let starts_word = !crate::text::char_is_whitespace(c) && (i == 0 || crate::text::char_is_whitespace(
            name.get_char(i - 1),
        ));
        assert(name@.take(i + 1)[i as int] == c);
        if i > 0 {
            assert(name@.take(i + 1)[i - 1] == name@[i - 1]);
        }
        if starts_word && letters.as_str().unicode_len() < 2 {
            letters.append(name.substring_char(i, i + 1));
            assert(name@.subrange(i as int, i + 1) =~= seq![c]);
        }
        proof {
            let all = word_initials(name@.take(i + 1));
            if starts_word {
                assert(all == word_initials(before).push(c));
                if word_initials(before).len() >= 2 {
                    assert(first_two(all) =~= first_two(word_initials(before)));
                } else {
                    assert(first_two(all) =~= all);
                }
            }
        }
        i = i + 1;
    }
    assert(name@.take(n as int) =~= name@);
    to_uppercase(letters.as_str())
}

} // verus!
