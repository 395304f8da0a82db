use cadence::router::{Route, Router};

#[test]
fn detail_routes_go_back_to_wherever_they_were_opened_from() {
    let mut router = Router::new();

    router.navigate(Route::Search);
    router.open_playlist(Route::Search);

    assert_eq!(router.route(), Route::Playlist);
    assert_eq!(router.back_target(), Some(Route::Search));
}

#[test]
fn routes_without_a_detail_view_have_nowhere_to_go_back_to() {
    let mut router = Router::new();

    router.navigate(Route::LikedSongs);

    assert_eq!(router.back_target(), None);
}

#[test]
fn reopening_the_same_artist_keeps_the_original_way_back() {
    let mut router = Router::new();

    router.open_artist(Route::LikedSongs, true);
    router.open_artist(Route::Artist, false);

    assert_eq!(router.back_target(), Some(Route::LikedSongs));
}

#[test]
fn opening_a_different_artist_from_the_artist_page_moves_the_way_back() {
    let mut router = Router::new();

    router.open_artist(Route::LikedSongs, true);
    router.open_artist(Route::Artist, true);

    assert_eq!(router.back_target(), Some(Route::Artist));
}

#[test]
fn settings_returns_past_a_detail_route_to_where_that_route_came_from() {
    let mut router = Router::new();

    router.navigate(Route::Recent);
    router.open_album(Route::Recent, true);
    router.open_settings();

    assert_eq!(router.back_target(), Some(Route::Recent));
}

#[test]
fn reopening_settings_does_not_make_settings_its_own_way_back() {
    let mut router = Router::new();

    router.navigate(Route::Favorites);
    router.open_settings();
    router.open_settings();

    assert_eq!(router.back_target(), Some(Route::Favorites));
}

#[test]
fn a_pinned_playlist_opened_from_a_playlist_returns_past_it() {
    let mut router = Router::new();

    router.navigate(Route::Recent);
    router.open_playlist(Route::Recent);

    assert_eq!(router.pinned_origin(), Route::Recent);
}

#[test]
fn a_new_router_starts_on_liked_songs() {
    let router = Router::new();

    assert_eq!(router.route(), Route::LikedSongs);
    assert_eq!(router.pinned_origin(), Route::LikedSongs);
}
