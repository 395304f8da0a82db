//! Track radio: a queue seeded from one track and continued with what the
//! service recommends for it.

use vstd::prelude::*;

use crate::model::{opt_text, same_opt_text, track_views, Track, TrackView};
use crate::queue::QueueError;

verus! {

pub open spec fn view_ids(tracks: Seq<TrackView>) -> Seq<Seq<char>> {
    tracks.map_values(|track: TrackView| track.source_id@)
}

/// A recommendation joins the radio when it is not the seed, can be shown,
/// and was not picked already.
pub open spec fn joins(seed: TrackView, picked: Seq<TrackView>, track: TrackView) -> bool {
    &&& opt_text(track.spotify_uri) != opt_text(seed.spotify_uri)
    &&& track.displayable()
    &&& track.source_id@ != seed.source_id@
    &&& !view_ids(picked).contains(track.source_id@)
}

/// The recommendations a radio keeps, in the order they came.
pub open spec fn radio_picks(seed: TrackView, recommendations: Seq<TrackView>) -> Seq<TrackView>
    decreases recommendations.len(),
{
    if recommendations.len() == 0 {
        Seq::empty()
    } else {
        let picked = radio_picks(seed, recommendations.drop_last());
        let track = recommendations.last();
        if joins(seed, picked, track) {
            picked.push(track)
        } else {
            picked
        }
    }
}

/// Whether a track among `tracks` has the source id `id`.
fn picked_id(tracks: &Vec<Track>, id: &str) -> (r: bool)
    ensures
        r == view_ids(track_views(tracks@)).contains(id@),
{
    let found = crate::queue::holds_id(tracks, id);
    assert(view_ids(track_views(tracks@)) =~= crate::queue::ids_of(tracks@));
    found
}

/// The radio queue for `seed`: the seed first, then every recommendation
/// that is playable, is not the seed and was not recommended before. A radio
/// with nothing but the seed is refused.
pub fn build_radio_context(seed: Track, recommendations: Vec<Track>) -> (r: Result<Vec<Track>, QueueError>)
    ensures
        ({
            let picks = radio_picks(seed@, track_views(recommendations@));
            match r {
                Ok(tracks) => picks.len() > 0 && track_views(tracks@) == seq![seed@] + picks,
                Err(error) => picks.len() == 0 && error == QueueError::NoPlayableTracks,
            }
        }),
{
    let mut picked: Vec<Track> = Vec::new();
    let mut i: usize = 0;
    let ghost views = track_views(recommendations@);
    assert(views.take(0) =~= Seq::<TrackView>::empty());
    while i < recommendations.len()
        invariant
            i <= recommendations.len(),
            views == track_views(recommendations@),
            track_views(picked@) == radio_picks(seed@, views.take(i as int)),
        decreases recommendations.len() - i,
    {
        let track = &recommendations[i];
        let fresh = !same_opt_text(&track.spotify_uri, &seed.spotify_uri) && track.is_displayable()
            && !crate::text::same_text(track.source_id.as_str(), seed.source_id.as_str())
            && !picked_id(&picked, track.source_id.as_str());
        let ghost before = track_views(picked@);
        proof {
            assert(views.take(i + 1).drop_last() =~= views.take(i as int));
            assert(views.take(i + 1).last() == track@);
            assert(fresh == joins(seed@, before, track@));
        }
        if fresh {
            picked.push(track.duplicate());
            assert(track_views(picked@) =~= before.push(track@));
        }
        i = i + 1;
    }
    assert(views.take(recommendations.len() as int) =~= views);
    if picked.len() == 0 {
        return Err(QueueError::NoPlayableTracks);
    }
    let mut tracks: Vec<Track> = Vec::new();
    tracks.push(seed);
    tracks.append(&mut picked);
    assert(track_views(tracks@) =~= seq![seed@] + radio_picks(seed@, views));
    Ok(tracks)
}

/// What a radio keeps never names a track twice, never repeats the seed, and
/// holds only tracks that can be listed.
pub proof fn lemma_radio_picks_are_distinct(seed: TrackView, recommendations: Seq<TrackView>)
    ensures
        view_ids(radio_picks(seed, recommendations)).no_duplicates(),
        !view_ids(radio_picks(seed, recommendations)).contains(seed.source_id@),
        forall|i: int|
            0 <= i < radio_picks(seed, recommendations).len() ==> (#[trigger] radio_picks(
                seed,
                recommendations,
            )[i]).displayable(),
    decreases recommendations.len(),
{
    if recommendations.len() > 0 {
        let picked = radio_picks(seed, recommendations.drop_last());
        let track = recommendations.last();
        lemma_radio_picks_are_distinct(seed, recommendations.drop_last());
        if joins(seed, picked, track) {
            let ids = view_ids(picked);
            assert(view_ids(picked.push(track)) =~= ids.push(track.source_id@));
            assert forall|i: int, j: int| 0 <= i < j < ids.push(track.source_id@).len() implies ids.push(
                track.source_id@,
            )[i] != ids.push(track.source_id@)[j] by {
                if j == ids.len() {
                    assert(ids.contains(ids[i]));
                }
            }
            assert forall|i: int| 0 <= i < picked.push(track).len() implies (#[trigger] picked.push(
                track,
            )[i]).displayable() by {
                if i < picked.len() {
                    assert(picked.push(track)[i] == picked[i]);
                }
            }
            if ids.push(track.source_id@).contains(seed.source_id@) {
                let k = choose|k: int| 0 <= k < ids.push(track.source_id@).len() && ids.push(track.source_id@)[k]
                    == seed.source_id@;
                if k < ids.len() {
                    assert(ids.contains(seed.source_id@));
                }
            }
        }
    }
}

/// A radio queue starts with its seed and names no track twice.
pub proof fn lemma_radio_context_is_distinct(seed: TrackView, recommendations: Seq<TrackView>)
    ensures
        view_ids(seq![seed] + radio_picks(seed, recommendations)).no_duplicates(),
{
    let picks = radio_picks(seed, recommendations);
    lemma_radio_picks_are_distinct(seed, recommendations);
    let ids = view_ids(seq![seed] + picks);
    assert(ids =~= seq![seed.source_id@] + view_ids(picks));
    assert forall|i: int, j: int| 0 <= i < j < ids.len() implies ids[i] != ids[j] by {
        if i == 0 {
            assert(ids[j] == view_ids(picks)[j - 1]);
            assert(view_ids(picks).contains(ids[j]));
        } else {
            assert(ids[i] == view_ids(picks)[i - 1]);
            assert(ids[j] == view_ids(picks)[j - 1]);
        }
    }
}


/// A recommendation that can stand in a radio on its own: it is not the
/// seed, by link or by id, and it can be listed.
pub open spec fn playable_beside(seed: TrackView, track: TrackView) -> bool {
    &&& opt_text(track.spotify_uri) != opt_text(seed.spotify_uri)
    &&& track.source_id@ != seed.source_id@
    &&& track.displayable()
}

/// Everything a radio keeps was recommended.
pub proof fn lemma_radio_picks_were_recommended(seed: TrackView, recommendations: Seq<TrackView>)
    ensures
        forall|k: int|
            0 <= k < radio_picks(seed, recommendations).len() ==> recommendations.contains(
                #[trigger] radio_picks(seed, recommendations)[k],
            ),
    decreases recommendations.len(),
{
    if recommendations.len() > 0 {
        let rest = recommendations.drop_last();
        lemma_radio_picks_were_recommended(seed, rest);
        let picks = radio_picks(seed, recommendations);
        assert forall|k: int| 0 <= k < picks.len() implies recommendations.contains(#[trigger] picks[k]) by {
            if k < radio_picks(seed, rest).len() {
                let x = radio_picks(seed, rest)[k];
                assert(rest.contains(x));
                let j = choose|j: int| 0 <= j < rest.len() && rest[j] == x;
                assert(recommendations[j] == x);
            } else {
                assert(recommendations[recommendations.len() - 1] == picks[k]);
            }
        }
    }
}

/// The radio keeps every recommendation that could stand in it and was not
/// recommended earlier under the same id.
pub proof fn lemma_radio_keeps_every_new_playable_recommendation(
    seed: TrackView,
    recommendations: Seq<TrackView>,
    i: int,
)
    requires
        0 <= i < recommendations.len(),
        playable_beside(seed, recommendations[i]),
        forall|j: int| 0 <= j < i ==> (#[trigger] recommendations[j]).source_id@ != recommendations[i].source_id@,
    ensures
        radio_picks(seed, recommendations).contains(recommendations[i]),
    decreases recommendations.len(),
{
    let rest = recommendations.drop_last();
    let picked = radio_picks(seed, rest);
    if i == recommendations.len() - 1 {
        let track = recommendations[i];
        lemma_radio_picks_were_recommended(seed, rest);
        if view_ids(picked).contains(track.source_id@) {
            let k = choose|k: int| 0 <= k < view_ids(picked).len() && view_ids(picked)[k] == track.source_id@;
            assert(rest.contains(picked[k]));
            let j = choose|j: int| 0 <= j < rest.len() && rest[j] == picked[k];
            assert(recommendations[j] == rest[j]);
        }
        assert(joins(seed, picked, track));
        assert(radio_picks(seed, recommendations) == picked.push(track));
        assert(radio_picks(seed, recommendations)[picked.len() as int] == track);
    } else {
        assert forall|j: int| 0 <= j < i implies (#[trigger] rest[j]).source_id@ != rest[i].source_id@ by {
            assert(rest[j] == recommendations[j]);
        }
        lemma_radio_keeps_every_new_playable_recommendation(seed, rest, i);
        let k = choose|k: int| 0 <= k < picked.len() && picked[k] == rest[i];
        let picks = radio_picks(seed, recommendations);
        if joins(seed, picked, recommendations.last()) {
            assert(picks[k] == picked[k]);
        } else {
            assert(picks[k] == picked[k]);
        }
    }
}

/// Recommendations that can all stand in the radio, under distinct ids, are
/// kept whole and in order.
pub proof fn lemma_distinct_playable_recommendations_are_kept_whole(
    seed: TrackView,
    recommendations: Seq<TrackView>,
)
    requires
        forall|i: int| 0 <= i < recommendations.len() ==> playable_beside(seed, #[trigger] recommendations[i]),
        view_ids(recommendations).no_duplicates(),
    ensures
        radio_picks(seed, recommendations) == recommendations,
    decreases recommendations.len(),
{
    if recommendations.len() > 0 {
        let rest = recommendations.drop_last();
        let track = recommendations.last();
        assert forall|i: int, j: int| 0 <= i < j < view_ids(rest).len() implies view_ids(rest)[i] != view_ids(rest)[j] by {
            assert(view_ids(rest)[i] == view_ids(recommendations)[i]);
            assert(view_ids(rest)[j] == view_ids(recommendations)[j]);
        }
        assert forall|i: int| 0 <= i < rest.len() implies playable_beside(seed, #[trigger] rest[i]) by {
            assert(rest[i] == recommendations[i]);
        }
        lemma_distinct_playable_recommendations_are_kept_whole(seed, rest);
        assert(playable_beside(seed, recommendations[recommendations.len() - 1]));
        if view_ids(rest).contains(track.source_id@) {
            let k = choose|k: int| 0 <= k < view_ids(rest).len() && view_ids(rest)[k] == track.source_id@;
            assert(view_ids(recommendations)[k] == view_ids(recommendations)[recommendations.len() - 1]);
        }
        assert(joins(seed, rest, track));
        assert(rest.push(track) =~= recommendations);
    }
}

} // verus!
