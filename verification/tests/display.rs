use cadence::display::initials;
use cadence::icons::rgba_to_bgra;
use cadence::display::{
    decimal_text, format_duration, resolve_dark_mode, revalidating_detail, should_start,
    stored_credentials_expected, LibrarySection, ThemePreference, WindowAppearance,
};
use cadence::events::BackendEvent;
use cadence::icons::CadenceIcon;
use cadence::library::Library;

#[test]
fn only_release_builds_with_a_feed_update_themselves() {
    assert!(should_start(false, true));
    assert!(!should_start(true, true));
    assert!(!should_start(false, false));
    assert!(!should_start(true, false));
}

#[test]
fn theme_preference_resolves_against_window_appearance() {
    assert!(resolve_dark_mode(ThemePreference::System, WindowAppearance::Dark));
    assert!(!resolve_dark_mode(ThemePreference::System, WindowAppearance::Light));
    assert!(!resolve_dark_mode(ThemePreference::Light, WindowAppearance::Dark));
    assert!(resolve_dark_mode(ThemePreference::Dark, WindowAppearance::Light));
    assert!(resolve_dark_mode(ThemePreference::System, WindowAppearance::VibrantDark));
}

#[test]
fn durations_read_as_minutes_and_padded_seconds() {
    assert_eq!(format_duration(240_000), "4:00");
    assert_eq!(format_duration(185_999), "3:05");
    assert_eq!(format_duration(59_000), "0:59");
    assert_eq!(format_duration(3_600_000), "60:00");
    assert_eq!(decimal_text(0), "0");
    assert_eq!(decimal_text(1_234_567), "1234567");
}

#[test]
fn refreshing_details_are_marked() {
    assert_eq!(revalidating_detail("12 tracks".to_owned(), true), "12 tracks · refreshing…");
    assert_eq!(revalidating_detail("12 tracks".to_owned(), false), "12 tracks");
}

#[test]
fn credentials_are_expected_only_for_a_configured_valid_sign_in() {
    assert!(stored_credentials_expected(true, false, Some(false)));
    assert!(stored_credentials_expected(false, true, Some(false)));
    assert!(!stored_credentials_expected(false, false, Some(false)));
    assert!(!stored_credentials_expected(true, true, Some(true)));
    assert!(!stored_credentials_expected(true, true, None));
}

#[test]
fn library_sections_word_themselves() {
    assert_eq!(LibrarySection::LikedSongs.title(), "Liked Songs");
    assert_eq!(LibrarySection::Recent.empty_message(), "No listening history yet");
    assert_eq!(LibrarySection::Favorites.loading_message(), "Loading favorites…");
    assert_eq!(LibrarySection::Favorites.page_id(), "favorites-page");
    assert_eq!(LibrarySection::Recent.list_id(), "recent-tracks");

    let mut library = Library::new();
    assert_eq!(LibrarySection::LikedSongs.detail(&library, 0), "Liked on Spotify");
    library.handle_backend_event(
        BackendEvent::CachedLibrary { generation: 0, liked_tracks: Vec::new(), playlists: Vec::new() },
        0,
        1_000,
    );
    assert_eq!(
        LibrarySection::LikedSongs.detail(&library, 12),
        "12 tracks loaded from Spotify · refreshing…"
    );
    assert_eq!(LibrarySection::Favorites.detail(&library, 3), "Starred in Cadence");
    assert!(LibrarySection::LikedSongs.loaded(&library));
    assert!(!LibrarySection::Recent.loaded(&library));
}

#[test]
fn icons_live_under_the_cadence_directory() {
    assert_eq!(CadenceIcon::HeartFilled.file_name(), "heart-filled");
    assert_eq!(CadenceIcon::ArrowUpRight.path(), "icons/cadence/arrow-up-right.svg");
}

#[test]
fn avatars_show_the_first_two_initials_in_upper_case() {
    assert_eq!(initials("Marie Curie Sklodowska"), "MC");
    assert_eq!(initials("  ada \t lovelace "), "AL");
    assert_eq!(initials("élise"), "É");
    assert_eq!(initials("straße"), "S");
    assert_eq!(initials("   "), "");
}

#[test]
fn pixels_are_reordered_for_the_renderer() {
    let mut pixels = vec![1, 2, 3, 4, 5, 6, 7, 8, 9, 10];
    rgba_to_bgra(&mut pixels);
    assert_eq!(pixels, vec![3, 2, 1, 4, 7, 6, 5, 8, 9, 10]);
}
