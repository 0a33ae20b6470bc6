//! The tracks that were played: the entries of the history that have one.

use crate::model::{PlayedTrack, Track};
use vstd::prelude::*;

verus! {

/// The entry tells which track was played.
pub open spec fn has_track() -> spec_fn(PlayedTrack) -> bool {
    |item: PlayedTrack| item.track is Some
}

/// The entries that tell which track was played, in their order.
pub open spec fn played(items: Seq<PlayedTrack>) -> Seq<PlayedTrack> {
    items.filter(has_track())
}

/// Every entry of `played` has its track.
pub proof fn played_have_tracks(items: Seq<PlayedTrack>, n: int)
    requires
        0 <= n < played(items).len(),
    ensures
        played(items)[n].track is Some,
{
    items.lemma_filter_pred(has_track(), n);
}

/// How `played` grows with the entries.
pub(crate) proof fn played_of_prefix(items: Seq<PlayedTrack>, i: int)
    requires
        0 <= i < items.len(),
    ensures
        played(items.take(i + 1)) == if items[i].track is Some {
            played(items.take(i)).push(items[i])
        } else {
            played(items.take(i))
        },
        played(items.take(i)).len() <= i,
{
    reveal(Seq::filter);
    assert(items.take(i + 1).drop_last() =~= items.take(i));
    items.take(i).lemma_filter_len(has_track());
}

/// The entries of a beginning come first.
pub(crate) proof fn played_begins_with(items: Seq<PlayedTrack>, i: int)
    requires
        0 <= i <= items.len(),
    ensures
        played(items) == played(items.take(i)) + played(items.skip(i)),
{
    assert(items =~= items.take(i) + items.skip(i));
    Seq::filter_distributes_over_add(items.take(i), items.skip(i), has_track());
}

/// Counts the entries that have a track.
pub fn played_count(items: &Vec<PlayedTrack>) -> (count: usize)
    ensures
        count == played(items@).len(),
{
    let mut count: usize = 0;
    proof {
        reveal(Seq::filter);
    }
    for i in 0..items.len()
        invariant
            count == played(items@.take(i as int)).len(),
            count <= i,
    {
        proof {
            played_of_prefix(items@, i as int);
        }
        if items[i].track.is_some() {
            count = count + 1;
        }
    }
    assert(items@.take(items@.len() as int) =~= items@);
    count
}

/// The `n`th track that was played.
pub fn nth_played(items: &Vec<PlayedTrack>, n: usize) -> (track: Option<&Track>)
    ensures
        n < played(items@).len() ==> track == Some(&played(items@)[n as int].track->0),
        n >= played(items@).len() ==> track is None,
{
    let mut passed: usize = 0;
    proof {
        reveal(Seq::filter);
    }
    for i in 0..items.len()
        invariant
            passed == played(items@.take(i as int)).len(),
            passed <= i,
            passed <= n,
    {
        proof {
            played_of_prefix(items@, i as int);
            played_begins_with(items@, i as int + 1);
        }
        if let Some(track) = &items[i].track {
            if passed == n {
                return Some(track);
            }
            passed = passed + 1;
        }
    }
    assert(items@.take(items@.len() as int) =~= items@);
    None
}

/// An entry joins the played ones exactly if it has a track, and it joins them at the
/// end.
pub proof fn played_grows_at_the_end(items: Seq<PlayedTrack>, item: PlayedTrack)
    ensures
        played(Seq::empty()) == Seq::<PlayedTrack>::empty(),
        item.track is Some ==> played(items.push(item)) == played(items).push(item),
        item.track is None ==> played(items.push(item)) == played(items),
{
    reveal(Seq::filter);
    assert(items.push(item).drop_last() =~= items);
}

} // verus!
