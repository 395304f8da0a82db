//! The state that belongs to the process rather than to a window, and the
//! order in which a backend event passes through it: the player first, then
//! the account, then the library; whatever none of them consumes goes on to
//! the window.

use vstd::prelude::*;

use crate::events::{command_views, BackendEvent, Command, CommandView};
use crate::library::{Library, LibraryView};
use crate::player::{Player, PlayerView};
use crate::session::{session_event_views, Session, SessionEvent, SessionEventView, SessionView};

verus! {

pub struct Services {
    pub player: Player,
    pub session: Session,
    pub library: Library,
}

/// What one backend event asks of the application.
pub struct Dispatched {
    /// Commands for the backend, the player's before the session's.
    pub commands: Vec<Command>,
    /// Account events for the window.
    pub session_events: Vec<SessionEvent>,
    /// The backend player needs the current volume again.
    pub resend_volume: bool,
    /// Fresh library contents arrived.
    pub library_loaded: bool,
    /// The event, when the window still has work to do for it.
    pub unhandled: Option<BackendEvent>,
}

/// The three states after an event, with what it produced: commands, account
/// events, whether the volume is resent, whether library contents arrived,
/// and whether the event goes on to the window.
pub open spec fn dispatch_step(
    player: PlayerView,
    session: SessionView,
    library: LibraryView,
    event: BackendEvent,
    now: u64,
) -> (PlayerView, SessionView, LibraryView, Seq<CommandView>, Seq<SessionEventView>, bool, bool, bool) {
    let (player_after, player_commands, resend_volume, to_session) = player.step(event);
    if !to_session {
        (player_after, session, library, player_commands, seq![], resend_volume, false, false)
    } else {
        let (session_after, session_commands, session_events, to_library) = session.step(event);
        let commands = player_commands + session_commands;
        if !to_library {
            (player_after, session_after, library, commands, session_events, resend_volume, false, false)
        } else {
            let (library_after, loaded, to_window) = library.step(event, session_after.generation, now);
            (player_after, session_after, library_after, commands, session_events, resend_volume, loaded, to_window)
        }
    }
}

impl Services {
    pub closed spec fn wf(self) -> bool {
        self.library.wf()
    }

    pub fn new() -> (r: Services)
        ensures
            r.wf(),
            r.player@ == PlayerView::initial(),
            r.session@ == SessionView::initial(),
            r.library@ == LibraryView::initial(),
    {
        Services { player: Player::new(), session: Session::new(), library: Library::new() }
    }

    /// Passes `event`, received at wall-clock `now`, through the player, the
    /// account and the library, each taking what is theirs.
    pub fn dispatch(&mut self, event: BackendEvent, now: u64) -> (r: Dispatched)
        requires
            old(self).wf(),
        ensures
            final(self).wf(),
            ({
                let (player, session, library, commands, events, resend_volume, loaded, to_window) = dispatch_step(
                    old(self).player@,
                    old(self).session@,
                    old(self).library@,
                    event,
                    now,
                );
                &&& final(self).player@ == player
                &&& final(self).session@ == session
                &&& final(self).library@ == library
                &&& command_views(r.commands@) == commands
                &&& session_event_views(r.session_events@) == events
                &&& r.resend_volume == resend_volume
                &&& r.library_loaded == loaded
                &&& r.unhandled == (if to_window { Some(event) } else { None })
            }),
    {
        let played = self.player.handle_backend_event(event);
        let mut commands = played.commands;
        let event = match played.unhandled {
            Some(event) => event,
            None => {
                return Dispatched {
                    commands,
                    session_events: Vec::new(),
                    resend_volume: played.resend_volume,
                    library_loaded: false,
                    unhandled: None,
                };
            },
        };
        let accounted = self.session.handle_backend_event(event);
        let ghost player_commands = commands@;
        let mut session_commands = accounted.commands;
        commands.append(&mut session_commands);
        proof {
            assert(command_views(commands@) =~= command_views(player_commands) + command_views(
                accounted.commands@,
            ));
        }
        let event = match accounted.unhandled {
            Some(event) => event,
            None => {
                return Dispatched {
                    commands,
                    session_events: accounted.events,
                    resend_volume: played.resend_volume,
                    library_loaded: false,
                    unhandled: None,
                };
            },
        };
        let generation = self.session.generation();
        let stepped = self.library.handle_backend_event(event, generation, now);
        Dispatched {
            commands,
            session_events: accounted.events,
            resend_volume: played.resend_volume,
            library_loaded: stepped.loaded,
            unhandled: stepped.unhandled,
        }
    }
}

} // verus!
