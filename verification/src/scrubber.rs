//! The seek bar's press-drag-release gesture: a preview follows the pointer,
//! and the position is committed once, on release, and only to the track the
//! gesture began on. Mapping the pointer to a position is the caller's.

use vstd::prelude::*;

verus! {

/// One gesture, held for as long as the button is down.
#[derive(Clone, Debug, PartialEq, Eq)]
pub struct Gesture {
    /// The track the gesture started on.
    pub track: String,
    pub duration_ms: u32,
    /// Where the pointer is, shown in place of the playback position.
    pub preview_ms: u32,
}

pub struct Scrubber {
    pub gesture: Option<Gesture>,
}

impl Scrubber {
    pub fn new() -> (r: Scrubber)
        ensures
            r.gesture is None,
    {
        Scrubber { gesture: None }
    }

    pub fn dragging(&self) -> (r: bool)
        ensures
            r == self.gesture is Some,
    {
        self.gesture.is_some()
    }

    /// The position to draw: the preview while dragging, and never past the
    /// end of the track, since the clock extrapolates without knowing it.
    pub fn displayed_ms(&self, position_ms: u32, duration_ms: u32) -> (r: u32)
        ensures
            ({
                let shown = match self.gesture {
                    Some(gesture) => gesture.preview_ms,
                    None => position_ms,
                };
                r == if shown < duration_ms { shown } else { duration_ms }
            }),
    {
        let shown = match &self.gesture {
            Some(gesture) => gesture.preview_ms,
            None => position_ms,
        };
        if shown < duration_ms {
            shown
        } else {
            duration_ms
        }
    }

    /// Starts a gesture on `track` at the pointer's position; a pointer that
    /// maps to no position (a track of no width) starts nothing.
    pub fn begin(&mut self, preview_ms: Option<u32>, track: String, duration_ms: u32)
        ensures
            preview_ms is None ==> final(self).gesture == old(self).gesture,
            preview_ms matches Some(preview) ==> final(self).gesture == Some(
                Gesture { track, duration_ms, preview_ms: preview },
            ),
    {
        if let Some(preview) = preview_ms {
            self.gesture = Some(Gesture { track, duration_ms, preview_ms: preview });
        }
    }

    /// Follows the pointer; outside a gesture, or where the pointer maps to no
    /// position, nothing changes.
    pub fn drag_to(&mut self, preview_ms: Option<u32>)
        ensures
            match (old(self).gesture, preview_ms) {
                (Some(gesture), Some(preview)) => final(self).gesture == Some(
                    Gesture { preview_ms: preview, ..gesture },
                ),
                _ => final(self).gesture == old(self).gesture,
            },
    {
        if let Some(preview) = preview_ms {
            if let Some(gesture) = &mut self.gesture {
                gesture.preview_ms = preview;
            }
        }
    }

    /// Ends the gesture, reporting the position to commit; nothing when the
    /// track it began on is no longer the one playing.
    pub fn release(&mut self, track: Option<&str>) -> (r: Option<u32>)
        ensures
            final(self).gesture is None,
            match old(self).gesture {
                Some(gesture) => match track {
                    Some(playing) => if gesture.track@ == playing@ {
                        r == Some(gesture.preview_ms)
                    } else {
                        r is None
                    },
                    None => r is None,
                },
                None => r is None,
            },
    {
        let gesture = match self.gesture.take() {
            Some(gesture) => gesture,
            None => return None,
        };
        match track {
            Some(playing) => if crate::text::same_text(gesture.track.as_str(), playing) {
                Some(gesture.preview_ms)
            } else {
                None
            },
            None => None,
        }
    }

    /// Abandons the gesture; no seek was sent, so nothing is undone.
    pub fn cancel(&mut self) -> (r: bool)
        ensures
            final(self).gesture is None,
            r == old(self).gesture is Some,
    {
        self.gesture.take().is_some()
    }

    /// The track an in-flight gesture belongs to.
    pub fn gesture_track(&self) -> (r: Option<&str>)
        ensures
            match self.gesture {
                Some(gesture) => r matches Some(track) && track@ == gesture.track@,
                None => r is None,
            },
    {
        match &self.gesture {
            Some(gesture) => Some(gesture.track.as_str()),
            None => None,
        }
    }
}

} // verus!
