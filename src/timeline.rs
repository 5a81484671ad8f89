//! Clips placed in time, and their removal by id.

use vstd::prelude::*;
use crate::waveform::Waveform;
use vstd::multiset::Multiset;

verus! {

/// A waveform placed on the timeline: it sounds from `start_time` for
/// `duration`, with its phase measured from `start_time`.
pub struct Clip<S> {
    pub id: String,
    pub start_time: S,
    pub duration: S,
    pub frequency: S,
    pub amplitude: S,
    pub waveform: Waveform,
}

/// The clips of a project. Clip ids are meant to be unique, but nothing here
/// relies on it: removal takes every clip with the given id.
pub struct Timeline<S> {
    pub clips: Vec<Clip<S>>,
}

/// The clips that stay after removing those with the given id, in their order.
pub open spec fn clips_without<S>(clips: Seq<Clip<S>>, id: Seq<char>) -> Seq<Clip<S>> {
    clips.filter(|c: Clip<S>| c.id@ != id)
}

/// The clips that carry the given id, in their order.
pub open spec fn clips_with<S>(clips: Seq<Clip<S>>, id: Seq<char>) -> Seq<Clip<S>> {
    clips.filter(|c: Clip<S>| c.id@ == id)
}

impl<S> Timeline<S> {
    pub fn new() -> (r: Timeline<S>)
        ensures
            r.clips@ == Seq::<Clip<S>>::empty(),
    {
        Timeline { clips: Vec::new() }
    }

    pub fn add_clip(&mut self, clip: Clip<S>)
        ensures
            final(self).clips@ == old(self).clips@.push(clip),
    {
        self.clips.push(clip);
    }

    /// Removes every clip whose id is `clip_id`, keeping the others in order.
    pub fn remove_clip(&mut self, clip_id: &str)
        ensures
            final(self).clips@ == clips_without(old(self).clips@, clip_id@),
    {
        let target = String::from_str(clip_id);
        let mut old_clips: Vec<Clip<S>> = Vec::new();
        std::mem::swap(&mut self.clips, &mut old_clips);
        let ghost all = old_clips@;
        for clip in it: old_clips.into_iter()
            invariant
                it.seq() == all,
                target@ == clip_id@,
                self.clips@ == clips_without(all.take(it.index() as int), clip_id@),
        {
            proof {
                reveal(Seq::filter);
                assert(all.take(it.index() + 1).drop_last() =~= all.take(it.index() as int));
            }
            if clip.id != target {
                self.clips.push(clip);
            }
        }
        proof {
            assert(all.take(all.len() as int) =~= all);
        }
    }
}


/// Removing an id that no clip carries leaves the clips as they were.
pub proof fn lemma_remove_absent_id<S>(clips: Seq<Clip<S>>, id: Seq<char>)
    requires
        forall|i: int| 0 <= i < clips.len() ==> (#[trigger] clips[i]).id@ != id,
    ensures
        clips_without(clips, id) == clips,
    decreases clips.len(),
{
    reveal(Seq::filter);
    if clips.len() > 0 {
        lemma_remove_absent_id(clips.drop_last(), id);
        assert(clips.drop_last().push(clips.last()) =~= clips);
    }
}

/// The clips kept by a removal and the clips it takes out make up, together,
/// the clips before it; so what the timeline sums afterwards is what it summed
/// before less the contribution of the removed clips.
pub proof fn lemma_remove_partition<S>(clips: Seq<Clip<S>>, id: Seq<char>)
    ensures
        clips_without(clips, id).to_multiset().add(clips_with(clips, id).to_multiset())
            == clips.to_multiset(),
    decreases clips.len(),
{
    broadcast use vstd::seq_lib::group_to_multiset_ensures, vstd::multiset::group_multiset_axioms;
    reveal(Seq::filter);
    if clips.len() == 0 {
        assert(clips.to_multiset() =~= Multiset::<Clip<S>>::empty()) by {
            assert forall|c: Clip<S>| !clips.contains(c) by {}
        }
        assert(clips_without(clips, id).to_multiset().add(clips_with(clips, id).to_multiset())
            =~= Multiset::<Clip<S>>::empty());
    } else {
        let rest = clips.drop_last();
        let c = clips.last();
        lemma_remove_partition(rest, id);
        assert(rest.push(c) =~= clips);
        assert(clips_without(clips, id).to_multiset().add(clips_with(clips, id).to_multiset())
            =~= rest.to_multiset().insert(c));
    }
}

} // verus!
