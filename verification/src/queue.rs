//! The per-session queue: tracks waiting to be played, in the order in which
//! they were added.

use std::collections::VecDeque;
use vstd::prelude::*;

use crate::models::QueuedTrack;

verus! {

/// Why a queue operation was refused.
#[derive(Debug, PartialEq, Eq, Clone, Copy, Structural)]
pub enum QueueError {
    /// The track number is not in `1..=count`.
    OutOfRange { track_number: usize, count: usize },
}

/// Tracks waiting to be played. The front of the queue is played next; the
/// track being played is no longer in it.
#[derive(Debug, PartialEq, Eq)]
pub struct Queue {
    tracks: VecDeque<QueuedTrack>,
}

impl View for Queue {
    type V = Seq<QueuedTrack>;

    /// The waiting tracks, front first.
    closed spec fn view(&self) -> Seq<QueuedTrack> {
        self.tracks@
    }
}

/// `track_number` names a position of a queue of `count` tracks, counted
/// from one.
pub open spec fn valid_track_number(track_number: int, count: int) -> bool {
    1 <= track_number <= count
}

impl Queue {
    pub fn new() -> (queue: Queue)
        ensures
            queue@ == Seq::<QueuedTrack>::empty(),
    {
        Queue { tracks: VecDeque::new() }
    }

    /// The number of waiting tracks.
    pub fn get_count(&self) -> (count: usize)
        ensures
            count == self@.len(),
    {
        self.tracks.len()
    }

    pub fn is_empty(&self) -> (empty: bool)
        ensures
            empty == (self@.len() == 0),
    {
        self.tracks.len() == 0
    }

    /// The track at a position counted from zero, if there is one.
    pub fn get_track(&self, index: usize) -> (found: Option<&QueuedTrack>)
        ensures
            index < self@.len() ==> found == Some(&self@[index as int]),
            index >= self@.len() ==> found is None,
    {
        if index < self.tracks.len() {
            Some(&self.tracks[index])
        } else {
            None
        }
    }

    /// The track with the given number, counted from one.
    pub fn get(&self, track_number: usize) -> (found: Result<&QueuedTrack, QueueError>)
        ensures
            valid_track_number(track_number as int, self@.len() as int) ==> found == Ok::<
                &QueuedTrack,
                QueueError,
            >(&self@[track_number - 1]),
            !valid_track_number(track_number as int, self@.len() as int) ==> found == Err::<
                &QueuedTrack,
                QueueError,
            >(QueueError::OutOfRange { track_number, count: self@.len() as usize }),
    {
        let count = self.tracks.len();
        if 0 < track_number && track_number <= count {
            Ok(&self.tracks[track_number - 1])
        } else {
            Err(QueueError::OutOfRange { track_number, count })
        }
    }

    /// Adds one track at the back.
    pub fn push(&mut self, track: QueuedTrack)
        ensures
            final(self)@ == old(self)@.push(track),
    {
        self.tracks.push_back(track);
    }

    /// Adds tracks at the back, keeping their order.
    pub fn append(&mut self, tracks: Vec<QueuedTrack>)
        ensures
            final(self)@ == old(self)@ + tracks@,
    {
        let ghost before = self@;
        let ghost added = tracks@;
        for track in it: tracks
            invariant
                it.seq() == added,
                self@ == before + added.subrange(0, it.index() as int),
        {
            self.tracks.push_back(track);
            assert(self@ =~= before + added.subrange(0, it.index() + 1));
        }
        assert(added.subrange(0, added.len() as int) =~= added);
    }

    /// Takes out the track with the given number, counted from one, and
    /// returns it. A number outside `1..=count` is refused and the queue is
    /// left as it was.
    pub fn remove(&mut self, track_number: usize) -> (removed: Result<QueuedTrack, QueueError>)
        ensures
            valid_track_number(track_number as int, old(self)@.len() as int) ==> {
                &&& removed == Ok::<QueuedTrack, QueueError>(old(self)@[track_number - 1])
                &&& final(self)@ == old(self)@.remove(track_number - 1)
            },
            !valid_track_number(track_number as int, old(self)@.len() as int) ==> {
                &&& removed == Err::<QueuedTrack, QueueError>(
                    QueueError::OutOfRange { track_number, count: old(self)@.len() as usize },
                )
                &&& final(self)@ == old(self)@
            },
    {
        let count = self.tracks.len();
        if 0 < track_number && track_number <= count {
            match self.tracks.remove(track_number - 1) {
                Some(track) => Ok(track),
                None => Err(QueueError::OutOfRange { track_number, count }),
            }
        } else {
            Err(QueueError::OutOfRange { track_number, count })
        }
    }

    /// Empties the queue.
    pub fn clear(&mut self)
        ensures
            final(self)@ == Seq::<QueuedTrack>::empty(),
    {
        self.tracks.clear();
    }

    /// Takes the front track out of the queue: the one to play next.
    pub fn pop_front(&mut self) -> (next: Option<QueuedTrack>)
        ensures
            old(self)@.len() == 0 ==> next is None && final(self)@ == old(self)@,
            old(self)@.len() > 0 ==> next == Some(old(self)@[0]) && final(self)@ == old(
                self,
            )@.drop_first(),
    {
        let next = self.tracks.pop_front();
        proof {
            if old(self)@.len() > 0 {
                assert(old(self)@.subrange(1, old(self)@.len() as int) =~= old(self)@.drop_first());
            }
        }
        next
    }
}

} // verus!
