//! Decisions taken while driving a player.

use vstd::prelude::*;

verus! {

/// An event an MPRIS player sends, as far as waiting for a new track tells
/// events apart.
#[derive(Clone, Copy, Debug, PartialEq, Eq, Structural)]
pub enum PlayerEvent {
    /// The player moved to another track.
    TrackChanged,
    /// Any other event.
    Other,
}

/// Whether waiting for the player to change track, after asking it for the
/// next or the previous song, ends at `event`.
pub fn ends_track_wait(event: PlayerEvent) -> (done: bool)
    ensures
        done <==> event == PlayerEvent::TrackChanged,
{
    match event {
        PlayerEvent::TrackChanged => true,
        PlayerEvent::Other => false,
    }
}

} // verus!
