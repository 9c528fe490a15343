//! A music player over a playlist, with a cursor into the current track.

use vstd::prelude::*;
use vstd::string::StringExecFns;

verus! {

/// A track of the playlist, with a playback cursor in seconds.
pub struct Track {
    pub title: String,
    pub duration: u32,
    pub cursor: u32,
}

impl Track {
    /// A fresh track with the cursor at its start.
    pub fn new(title: &str, duration: u32) -> (t: Track)
        ensures
            t.title@ == title@,
            t.duration == duration,
            t.cursor == 0,
    {
        Track { title: title.to_owned(), duration, cursor: 0 }
    }
}

/// A player over a non-empty playlist; one track is always current.
pub struct Player {
    playlist: Vec<Track>,
    current_stack: usize,
    _volume: u8,
}

impl Player {
    /// The playlist.
    pub closed spec fn tracks(&self) -> Seq<Track> {
        self.playlist@
    }

    /// The index of the current track.
    pub closed spec fn current(&self) -> int {
        self.current_stack as int
    }

    /// The playlist is never empty and the current index stays inside it.
    pub open spec fn wf(&self) -> bool {
        0 < self.tracks().len() && 0 <= self.current() < self.tracks().len()
    }

    /// Moves to the next track, wrapping around at the playlist's end.
    pub fn next_track(&mut self)
        requires
            old(self).wf(),
        ensures
            final(self).wf(),
            final(self).tracks() == old(self).tracks(),
            final(self).current() == (old(self).current() + 1) % (old(self).tracks().len() as int),
    {
        let n = self.playlist.len();
        self.current_stack = (self.current_stack + 1) % n;
    }

    /// Moves to the previous track, wrapping around at the playlist's start.
    pub fn prev_track(&mut self)
        requires
            old(self).wf(),
        ensures
            final(self).wf(),
            final(self).tracks() == old(self).tracks(),
            final(self).current() == (old(self).tracks().len() as int + old(self).current() - 1) % (
            old(self).tracks().len() as int),
    {
        let n = self.playlist.len();
        if self.current_stack == 0 {
            self.current_stack = n - 1;
            proof {
                vstd::arithmetic::div_mod::lemma_small_mod((n - 1) as nat, n as nat);
            }
        } else {
            self.current_stack = self.current_stack - 1;
            proof {
                vstd::arithmetic::div_mod::lemma_mod_multiples_vanish(
                    1,
                    old(self).current() - 1,
                    n as int,
                );
                vstd::arithmetic::div_mod::lemma_small_mod(
                    (old(self).current() - 1) as nat,
                    n as nat,
                );
            }
        }
    }

    /// Starts playback: the current track's cursor jumps to ten seconds in.
    pub fn play(&mut self)
        requires
            old(self).wf(),
        ensures
            final(self).wf(),
            final(self).current() == old(self).current(),
            final(self).tracks().len() == old(self).tracks().len(),
            forall|k: int|
                0 <= k < old(self).tracks().len() && k != old(self).current()
                    ==> final(self).tracks()[k] == old(self).tracks()[k],
            final(self).tracks()[old(self).current()].title == old(self).tracks()[old(self).current()].title,
            final(self).tracks()[old(self).current()].duration == old(self).tracks()[old(self).current()].duration,
            final(self).tracks()[old(self).current()].cursor == 10,
    {
        self.playlist[self.current_stack].cursor = 10;
    }

    /// Pauses playback: the current track's cursor rests at second 43.
    pub fn pause(&mut self)
        requires
            old(self).wf(),
        ensures
            final(self).wf(),
            final(self).current() == old(self).current(),
            final(self).tracks().len() == old(self).tracks().len(),
            forall|k: int|
                0 <= k < old(self).tracks().len() && k != old(self).current()
                    ==> final(self).tracks()[k] == old(self).tracks()[k],
            final(self).tracks()[old(self).current()].title == old(self).tracks()[old(self).current()].title,
            final(self).tracks()[old(self).current()].duration == old(self).tracks()[old(self).current()].duration,
            final(self).tracks()[old(self).current()].cursor == 43,
    {
        self.playlist[self.current_stack].cursor = 43;
    }

    /// Rewinds the current track to its start.
    pub fn rewind(&mut self)
        requires
            old(self).wf(),
        ensures
            final(self).wf(),
            final(self).current() == old(self).current(),
            final(self).tracks().len() == old(self).tracks().len(),
            forall|k: int|
                0 <= k < old(self).tracks().len() && k != old(self).current()
                    ==> final(self).tracks()[k] == old(self).tracks()[k],
            final(self).tracks()[old(self).current()].title == old(self).tracks()[old(self).current()].title,
            final(self).tracks()[old(self).current()].duration == old(self).tracks()[old(self).current()].duration,
            final(self).tracks()[old(self).current()].cursor == 0,
    {
        self.playlist[self.current_stack].cursor = 0;
    }

    /// The current track.
    pub fn track(&self) -> (t: &Track)
        requires
            self.wf(),
        ensures
            *t == self.tracks()[self.current()],
    {
        &self.playlist[self.current_stack]
    }
}

impl Default for Player {
    /// A player over the standard four-track playlist, at its first track.
    fn default() -> (p: Player)
        ensures
            p.wf(),
            p.tracks().len() == 4,
            p.current() == 0,
            p.tracks()[0].title@ == "Track 1"@,
            p.tracks()[1].title@ == "Track 2"@,
            p.tracks()[2].title@ == "Track 3"@,
            p.tracks()[3].title@ == "Track 4"@,
            p.tracks()[0].duration == 180,
            p.tracks()[1].duration == 165,
            p.tracks()[2].duration == 197,
            p.tracks()[3].duration == 205,
    {
        let mut playlist: Vec<Track> = Vec::new();
        playlist.push(Track::new("Track 1", 180));
        playlist.push(Track::new("Track 2", 165));
        playlist.push(Track::new("Track 3", 197));
        playlist.push(Track::new("Track 4", 205));
        Player { playlist, current_stack: 0, _volume: 25 }
    }
}

/// The player is stopped; pressing play starts playback.
pub struct StoppedState;

/// The player is paused mid-track.
pub struct PausedState;

/// The player is playing the current track.
pub struct PlayingState;

} // verus!
