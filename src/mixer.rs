//! Tracks with a level and a mute switch, and which of them are heard.

use vstd::prelude::*;

verus! {

/// A mixable source with its own level and mute switch.
pub struct Track<S> {
    pub id: String,
    pub volume: S,
    pub muted: bool,
}

/// The tracks that are summed into the mix.
pub struct Mixer<S> {
    pub tracks: Vec<Track<S>>,
}

/// The levels of the tracks that are heard, in track order: a muted track
/// takes no part in the mix.
pub open spec fn audible_volumes<S>(tracks: Seq<Track<S>>) -> Seq<S> {
    tracks.filter(|t: Track<S>| !t.muted).map_values(|t: Track<S>| t.volume)
}

impl<S> Track<S> {
    /// A track that is not muted.
    pub fn new(id: &str, volume: S) -> (r: Track<S>)
        ensures
            r.id@ == id@,
            r.volume == volume,
            !r.muted,
    {
        Track { id: String::from_str(id), volume, muted: false }
    }
}

impl<S> Mixer<S> {
    pub fn new() -> (r: Mixer<S>)
        ensures
            r.tracks@ == Seq::<Track<S>>::empty(),
    {
        Mixer { tracks: Vec::new() }
    }

    pub fn add_track(&mut self, track: Track<S>)
        ensures
            final(self).tracks@ == old(self).tracks@.push(track),
    {
        self.tracks.push(track);
    }

    /// Flips the mute switch of the track at `index`.
    pub fn toggle_mute(&mut self, index: usize)
        requires
            index < old(self).tracks@.len(),
        ensures
            final(self).tracks@.len() == old(self).tracks@.len(),
            forall|i: int| 0 <= i < old(self).tracks@.len() && i != index ==> final(self).tracks@[i] == old(self).tracks@[i],
            final(self).tracks@[index as int].id == old(self).tracks@[index as int].id,
            final(self).tracks@[index as int].volume == old(self).tracks@[index as int].volume,
            final(self).tracks@[index as int].muted == !old(self).tracks@[index as int].muted,
    {
        let muted = self.tracks[index].muted;
        self.tracks[index].muted = !muted;
    }
}

impl<S: Copy> Mixer<S> {
    /// The levels of the unmuted tracks, in track order.
    pub fn audible_volumes(&self) -> (r: Vec<S>)
        ensures
            r@ == audible_volumes(self.tracks@),
    {
        let mut r: Vec<S> = Vec::new();
        let n = self.tracks.len();
        for i in 0..n
            invariant
                n == self.tracks@.len(),
                r@ == audible_volumes(self.tracks@.take(i as int)),
        {
            proof {
                reveal(Seq::filter);
                assert(self.tracks@.take(i + 1).drop_last() =~= self.tracks@.take(i as int));
            }
            if !self.tracks[i].muted {
                r.push(self.tracks[i].volume);
            }
            proof {
                let before = self.tracks@.take(i as int).filter(|t: Track<S>| !t.muted);
                let after = self.tracks@.take(i + 1).filter(|t: Track<S>| !t.muted);
                if !self.tracks@[i as int].muted {
                    assert(after == before.push(self.tracks@[i as int]));
                    assert(after.map_values(|t: Track<S>| t.volume) =~= before.map_values(|t: Track<S>| t.volume).push(self.tracks@[i as int].volume));
                } else {
                    assert(after == before);
                }
            }
        }
        proof {
            assert(self.tracks@.take(n as int) =~= self.tracks@);
        }
        r
    }
}


/// A muted track is silent: the mix is what it would be without that track,
/// whatever the track's level.
pub proof fn lemma_muted_track_is_silent<S>(tracks: Seq<Track<S>>, index: int, volume: S)
    requires
        0 <= index < tracks.len(),
        tracks[index].muted,
    ensures
        audible_volumes(tracks) == audible_volumes(tracks.remove(index)),
        audible_volumes(tracks.update(index, (Track { id: tracks[index].id, volume, muted: true })))
            == audible_volumes(tracks),
{
    broadcast use Seq::filter_distributes_over_add;
    let pred = |t: Track<S>| !t.muted;
    let a = tracks.subrange(0, index);
    let b = tracks.subrange(index + 1, tracks.len() as int);
    let t = tracks[index];
    let u = Track { id: tracks[index].id, volume, muted: true };
    reveal(Seq::filter);
    assert(seq![t].drop_last() =~= Seq::<Track<S>>::empty());
    assert(seq![u].drop_last() =~= Seq::<Track<S>>::empty());
    assert(Seq::<Track<S>>::empty().filter(pred) =~= Seq::<Track<S>>::empty());
    assert(seq![t].last() == t && seq![u].last() == u);
    assert(seq![t].filter(pred) =~= Seq::<Track<S>>::empty());
    assert(seq![u].filter(pred) =~= Seq::<Track<S>>::empty());
    assert(tracks =~= a + seq![t] + b);
    assert(tracks.remove(index) =~= a + b);
    assert(tracks.update(index, u) =~= a + seq![u] + b);
    assert((a + seq![t] + b).filter(pred) =~= a.filter(pred) + b.filter(pred));
    assert((a + seq![u] + b).filter(pred) =~= a.filter(pred) + b.filter(pred));
}

} // verus!
